use url_shortener::config::Config;
use url_shortener::database::UrlRepository;
use url_shortener::error::{AppError, ErrorKind};
use url_shortener::models::CreateUrlRequest;
use url_shortener::services::UrlService;
use url_shortener::time::Timestamp;

fn service() -> UrlService {
    UrlService::new(UrlRepository::new(), Config::default())
}

fn request(url: &str, code: Option<&str>, ttl: Option<u32>) -> CreateUrlRequest {
    CreateUrlRequest {
        url: url.to_string(),
        custom_code: code.map(|c| c.to_string()),
        title: None,
        expires_in_hours: ttl,
    }
}

fn codes(list: &[&str]) -> Vec<String> {
    list.iter().map(|c| c.to_string()).collect()
}

fn kind_of<T>(r: Result<T, AppError>) -> ErrorKind {
    match r {
        Ok(_) => panic!("expected a failure"),
        Err(e) => e.kind(),
    }
}

#[test]
fn end_to_end_scenario() {
    let mut s = service();
    let created = s.create_short_url(request("https://example.com", None, None), None).unwrap();
    assert_eq!(created.short_code.chars().count(), 7);
    assert!(created.short_code.chars().all(|c| c.is_ascii_alphanumeric()));
    assert_eq!(created.short_url, format!("http://localhost:3000/{}", created.short_code));
    assert_eq!(created.clicks, 0);
    assert_eq!(created.expires_at, None);

    let target = s.get_original_url(&created.short_code).unwrap();
    assert_eq!(target, "https://example.com");
    assert_eq!(s.pending_clicks(), 1);
    assert_eq!(s.get_url_info(&created.short_code).unwrap().clicks, 0);

    s.settle_clicks();
    assert_eq!(s.pending_clicks(), 0);
    assert_eq!(s.get_url_info(&created.short_code).unwrap().clicks, 1);

    let missing = s.get_original_url("nonexistent");
    match missing {
        Err(e) => {
            assert_eq!(e.kind(), ErrorKind::NotFound);
            assert_eq!(e.status_code(), 404);
            assert_eq!(e.message(), "Not found: URL 'nonexistent' not found");
        }
        Ok(_) => panic!("an unknown code must not resolve"),
    }
}

#[test]
fn created_codes_are_unique() {
    let mut s = service();
    let mut seen = std::collections::HashSet::new();
    for _ in 0..200 {
        let created = s.create_short_url(request("https://example.com/a", None, None), None);
        let code = created.unwrap().short_code;
        assert!(seen.insert(code));
    }
}

#[test]
fn generated_collision_falls_through_to_next_candidate() {
    let mut s = service();
    let now = Timestamp::new(1_000, 0);
    let first = s
        .create_short_url_with(
            request("https://example.com/1", None, None),
            None,
            "id-1".to_string(),
            &codes(&["aaaaaaa", "bbbbbbb"]),
            now,
        )
        .unwrap();
    assert_eq!(first.short_code, "aaaaaaa");
    assert_eq!(first.id, "id-1");
    let second = s
        .create_short_url_with(
            request("https://example.com/2", None, None),
            None,
            "id-2".to_string(),
            &codes(&["aaaaaaa", "bbbbbbb"]),
            now,
        )
        .unwrap();
    assert_eq!(second.short_code, "bbbbbbb");
    let third = s.create_short_url_with(
        request("https://example.com/3", None, None),
        None,
        "id-3".to_string(),
        &codes(&["aaaaaaa", "bbbbbbb"]),
        now,
    );
    match third {
        Err(e) => {
            assert_eq!(e.kind(), ErrorKind::Internal);
            assert_eq!(e.detail(), "Failed to generate unique short code");
            assert!(e.is_server_error());
        }
        Ok(_) => panic!("allocation must be exhausted"),
    }
}

#[test]
fn only_ten_generated_codes_are_tried() {
    let mut s = service();
    let now = Timestamp::new(1_000, 0);
    s.create_short_url_with(
        request("https://example.com", Some("taken01"), None),
        None,
        "id-0".to_string(),
        &codes(&[]),
        now,
    )
    .unwrap();
    let mut generated = codes(&["taken01"; 10]);
    generated.push("free001".to_string());
    let r = s.create_short_url_with(
        request("https://example.com", None, None),
        None,
        "id-1".to_string(),
        &generated,
        now,
    );
    assert_eq!(kind_of(r), ErrorKind::Internal);
    let mut generated = codes(&["taken01"; 9]);
    generated.push("free001".to_string());
    let r = s
        .create_short_url_with(
            request("https://example.com", None, None),
            None,
            "id-1".to_string(),
            &generated,
            now,
        )
        .unwrap();
    assert_eq!(r.short_code, "free001");
}

#[test]
fn taken_candidate_always_conflicts() {
    let mut s = service();
    s.create_short_url(request("https://example.com", Some("mylink"), None), None).unwrap();
    for _ in 0..5 {
        let again = s.create_short_url(request("https://other.example", Some("mylink"), None), None);
        match again {
            Err(e) => {
                assert_eq!(e.kind(), ErrorKind::Conflict);
                assert_eq!(e.detail(), "Short code 'mylink' already exists");
                assert_eq!(e.status_code(), 409);
            }
            Ok(_) => panic!("a taken code must not be handed out again"),
        }
    }
    assert_eq!(s.get_original_url("mylink").unwrap(), "https://example.com");
    assert_eq!(s.get_stats().unwrap().total_urls, 1);
}

#[test]
fn invalid_targets_are_rejected() {
    let mut s = service();
    let long = format!("https://example.com/{}", "a".repeat(2048));
    for target in ["ftp://example.com", "not a url", "", "javascript:alert(1)", long.as_str()] {
        let r = s.create_short_url(request(target, None, None), None);
        match r {
            Err(e) => {
                assert_eq!(e.kind(), ErrorKind::BadRequest);
                assert_eq!(e.detail(), "Invalid URL format");
                assert_eq!(e.status_code(), 400);
            }
            Ok(_) => panic!("{} must be rejected", target),
        }
    }
    assert_eq!(s.get_stats().unwrap().total_urls, 0);
}

#[test]
fn invalid_candidate_codes_are_rejected() {
    let mut s = service();
    let too_long = "a".repeat(21);
    for code in ["ab", "abc 123", "a@", "abc/def", too_long.as_str(), ""] {
        let r = s.create_short_url(request("https://example.com", Some(code), None), None);
        match r {
            Err(e) => {
                assert_eq!(e.kind(), ErrorKind::BadRequest);
                assert_eq!(e.detail(), "Invalid custom code format");
            }
            Ok(_) => panic!("{} must be rejected", code),
        }
    }
    assert!(s.create_short_url(request("https://example.com", Some("abc"), None), None).is_ok());
    let longest = "b".repeat(20);
    assert!(s.create_short_url(request("https://example.com", Some(&longest), None), None).is_ok());
}

#[test]
fn overlong_titles_are_rejected() {
    let mut s = service();
    let mut r = request("https://example.com", Some("titled"), None);
    r.title = Some("t".repeat(201));
    match s.create_short_url(r, None) {
        Err(e) => {
            assert_eq!(e.kind(), ErrorKind::Validation);
            assert_eq!(e.detail(), "title: Title is too long");
            assert_eq!(e.status_code(), 422);
        }
        Ok(_) => panic!("a title of 201 characters must be rejected"),
    }
    let mut r = request("https://example.com", Some("titled"), None);
    r.title = Some("t".repeat(200));
    assert_eq!(s.create_short_url(r, None).unwrap().title, Some("t".repeat(200)));
}

#[test]
fn expiry_is_computed_from_the_clock_reading() {
    let mut s = service();
    let now = Timestamp::new(10_000, 7);
    let created = s
        .create_short_url_with(
            request("https://example.com", Some("halfday"), Some(12)),
            Some("u1".to_string()),
            "id-1".to_string(),
            &codes(&[]),
            now,
        )
        .unwrap();
    assert_eq!(created.expires_at, Some(Timestamp::new(10_000 + 12 * 3600, 7)));
    assert_eq!(created.created_at, now);
}

#[test]
fn resolution_masks_expiry() {
    let mut s = service();
    let now = Timestamp::new(10_000, 0);
    s.create_short_url_with(
        request("https://example.com", Some("shortlived"), Some(1)),
        None,
        "id-1".to_string(),
        &codes(&[]),
        now,
    )
    .unwrap();
    let at_expiry = Timestamp::new(10_000 + 3600, 0);
    assert_eq!(s.get_original_url_at("shortlived", at_expiry).unwrap(), "https://example.com");
    let after = Timestamp::new(10_000 + 3600, 1);
    let expired = s.get_original_url_at("shortlived", after);
    let unknown = s.get_original_url_at("neverthere", after);
    match (expired, unknown) {
        (Err(a), Err(b)) => {
            assert_eq!(a.kind(), ErrorKind::NotFound);
            assert_eq!(a.kind(), b.kind());
            assert_eq!(a.detail(), "URL 'shortlived' not found");
            assert_eq!(b.detail(), "URL 'neverthere' not found");
        }
        _ => panic!("both must fail"),
    }
    assert_eq!(kind_of(s.get_url_info_at("shortlived", after)), ErrorKind::NotFound);
    assert_eq!(kind_of(s.delete_url_at("shortlived", None, after)), ErrorKind::NotFound);
    assert_eq!(s.pending_clicks(), 1);
}

#[test]
fn clicks_add_up() {
    let mut s = service();
    let now = Timestamp::new(10_000, 0);
    s.create_short_url_with(
        request("https://example.com", Some("counted"), None),
        None,
        "id-1".to_string(),
        &codes(&[]),
        now,
    )
    .unwrap();
    s.create_short_url_with(
        request("https://example.org", Some("other"), None),
        None,
        "id-2".to_string(),
        &codes(&[]),
        now,
    )
    .unwrap();
    for i in 0..25 {
        s.get_original_url_at("counted", Timestamp::new(10_001 + i, 0)).unwrap();
    }
    s.get_original_url_at("other", now).unwrap();
    assert_eq!(s.get_url_info_at("counted", now).unwrap().clicks, 0);
    let settle = Timestamp::new(20_000, 0);
    s.settle_clicks_at(settle);
    assert_eq!(s.get_url_info_at("counted", now).unwrap().clicks, 25);
    assert_eq!(s.get_url_info_at("other", now).unwrap().clicks, 1);
    assert_eq!(s.get_stats().unwrap().total_clicks, 26);
    s.record_click_at("counted", settle);
    s.record_click_at("nobody", settle);
    assert_eq!(s.get_url_info_at("counted", now).unwrap().clicks, 26);
    assert_eq!(s.get_stats().unwrap().total_urls, 2);
}

#[test]
fn deletion_authorization() {
    let mut s = service();
    let now = Timestamp::new(10_000, 0);
    s.create_short_url_with(
        request("https://example.com", Some("owned"), None),
        Some("U1".to_string()),
        "id-1".to_string(),
        &codes(&[]),
        now,
    )
    .unwrap();
    s.create_short_url_with(
        request("https://example.com", Some("anon-a"), None),
        None,
        "id-2".to_string(),
        &codes(&[]),
        now,
    )
    .unwrap();
    s.create_short_url_with(
        request("https://example.com", Some("anon-b"), None),
        None,
        "id-3".to_string(),
        &codes(&[]),
        now,
    )
    .unwrap();

    let refused = s.delete_url_at("owned", Some("U2"), now);
    match refused {
        Err(e) => {
            assert_eq!(e.kind(), ErrorKind::Forbidden);
            assert_eq!(e.status_code(), 403);
            assert_eq!(e.detail(), "You don't have permission to delete this URL");
        }
        Ok(_) => panic!("a stranger must not delete an owned link"),
    }
    assert_eq!(kind_of(s.delete_url_at("owned", None, now)), ErrorKind::Forbidden);
    assert!(s.get_url_info_at("owned", now).is_ok());
    assert!(s.delete_url_at("owned", Some("U1"), now).is_ok());
    assert_eq!(kind_of(s.get_url_info_at("owned", now)), ErrorKind::NotFound);

    assert!(s.delete_url_at("anon-a", Some("U2"), now).is_ok());
    assert!(s.delete_url_at("anon-b", None, now).is_ok());
    assert_eq!(kind_of(s.delete_url_at("anon-b", None, now)), ErrorKind::NotFound);
    assert_eq!(s.get_stats().unwrap().total_urls, 0);
}

#[test]
fn cleanup_removes_expired_links_only() {
    let mut s = service();
    let now = Timestamp::new(10_000, 0);
    for (i, ttl) in [Some(1u32), None, Some(2), Some(5)].iter().enumerate() {
        s.create_short_url_with(
            request("https://example.com", Some(&format!("link-{}", i)), *ttl),
            None,
            format!("id-{}", i),
            &codes(&[]),
            now,
        )
        .unwrap();
    }
    let later = Timestamp::new(10_000 + 2 * 3600, 1);
    assert_eq!(s.cleanup_expired_at(later).unwrap(), 2);
    assert_eq!(s.cleanup_expired_at(later).unwrap(), 0);
    assert!(s.get_url_info_at("link-1", later).is_ok());
    assert!(s.get_url_info_at("link-3", later).is_ok());
    assert_eq!(kind_of(s.get_url_info_at("link-0", now)), ErrorKind::NotFound);
    assert_eq!(kind_of(s.get_url_info_at("link-2", now)), ErrorKind::NotFound);
}

#[test]
fn user_urls_are_listed_newest_first() {
    let mut s = service();
    let now = Timestamp::new(10_000, 0);
    for (i, owner) in [Some("u1"), Some("u2"), None, Some("u1")].iter().enumerate() {
        s.create_short_url_with(
            request("https://example.com", Some(&format!("link-{}", i)), None),
            owner.map(|o| o.to_string()),
            format!("id-{}", i),
            &codes(&[]),
            now,
        )
        .unwrap();
    }
    let mine = s.get_user_urls("u1").unwrap();
    let listed: Vec<&str> = mine.iter().map(|r| r.short_code.as_str()).collect();
    assert_eq!(listed, vec!["link-3", "link-0"]);
    assert_eq!(mine[0].short_url, "http://localhost:3000/link-3");
    assert!(s.get_user_urls("nobody").unwrap().is_empty());
}

#[test]
fn duplicate_identifier_is_a_storage_failure() {
    let mut s = service();
    let now = Timestamp::new(10_000, 0);
    s.create_short_url_with(
        request("https://example.com", Some("first"), None),
        None,
        "same-id".to_string(),
        &codes(&[]),
        now,
    )
    .unwrap();
    let r = s.create_short_url_with(
        request("https://example.com", Some("second"), None),
        None,
        "same-id".to_string(),
        &codes(&[]),
        now,
    );
    match r {
        Err(e) => {
            assert_eq!(e.kind(), ErrorKind::Database);
            assert_eq!(e.status_code(), 500);
        }
        Ok(_) => panic!("an identifier must not be stored twice"),
    }
}

#[test]
fn generate_unique_code_avoids_stored_codes() {
    let s = service();
    let code = s.generate_unique_code().unwrap();
    assert_eq!(code.len(), 7);
    assert!(url_shortener::utils::is_valid_short_code(&code));
}

#[test]
fn pending_clicks_can_be_inspected() {
    let mut s = service();
    let now = Timestamp::new(10_000, 0);
    for code in ["first", "second"] {
        s.create_short_url_with(
            request("https://example.com", Some(code), Some(1)),
            None,
            format!("id-{}", code),
            &codes(&[]),
            now,
        )
        .unwrap();
    }
    s.get_original_url_at("second", now).unwrap();
    s.get_original_url_at("first", now).unwrap();
    s.get_original_url_at("second", now).unwrap();
    assert!(s.get_original_url_at("third", now).is_err());
    assert_eq!(s.pending_codes(), vec!["second", "first", "second"]);
    assert_eq!(s.find_by_short_code("second").unwrap().clicks, 0);
    s.settle_clicks_at(Timestamp::new(10_001, 0));
    assert!(s.pending_codes().is_empty());
    let second = s.find_by_short_code("second").unwrap();
    assert_eq!(second.clicks, 2);
    assert_eq!(second.updated_at, Timestamp::new(10_001, 0));
    assert_eq!(second.created_at, now);
    let later = Timestamp::new(10_000 + 3601, 0);
    assert!(s.get_original_url_at("second", later).is_err());
    assert!(s.find_by_short_code("second").is_some());
    assert!(s.find_by_short_code("third").is_none());
}

#[test]
fn lifetime_of_zero_hours_is_rejected() {
    let mut s = service();
    let now = Timestamp::new(10_000, 0);
    let r = s.create_short_url_with(
        request("https://example.com", Some("instant"), Some(0)),
        None,
        "id-1".to_string(),
        &codes(&[]),
        now,
    );
    match r {
        Err(e) => {
            assert_eq!(e.kind(), ErrorKind::Validation);
            assert_eq!(e.detail(), "expires_in_hours: Lifetime must be at least 1 hour");
            assert_eq!(e.status_code(), 422);
        }
        Ok(_) => panic!("a link must not expire the moment it is created"),
    }
    assert!(s.find_by_short_code("instant").is_none());
    assert_eq!(kind_of(s.create_short_url(request("https://example.com", None, Some(0)), None)), ErrorKind::Validation);
    assert_eq!(s.get_stats().unwrap().total_urls, 0);
    assert_eq!(
        kind_of(s.create_short_url(request("ftp://example.com", None, Some(0)), None)),
        ErrorKind::BadRequest
    );
}

#[test]
fn created_links_expire_after_their_creation() {
    let mut s = service();
    for (i, hours) in [1u32, 2, 24, 8760, u32::MAX].iter().enumerate() {
        let created = s
            .create_short_url(request("https://example.com", Some(&format!("ttl-{}", i)), Some(*hours)), None)
            .unwrap();
        let expiry = created.expires_at.unwrap();
        assert!(created.created_at.is_before(&expiry));
        assert_eq!(expiry.secs, created.created_at.secs + i64::from(*hours) * 3600);
        assert_eq!(expiry.nanos, created.created_at.nanos);
    }
    let forever = s.create_short_url(request("https://example.com", None, None), None).unwrap();
    assert_eq!(forever.expires_at, None);
}

#[test]
fn candidate_failures_come_before_title_and_lifetime() {
    let mut s = service();
    s.create_short_url(request("https://example.com", Some("mylink"), None), None).unwrap();
    let mut taken = request("https://other.example", Some("mylink"), Some(0));
    match s.create_short_url(taken.clone(), None) {
        Err(e) => {
            assert_eq!(e.kind(), ErrorKind::Conflict);
            assert_eq!(e.detail(), "Short code 'mylink' already exists");
        }
        Ok(_) => panic!("a taken code must conflict whatever the lifetime"),
    }
    taken.title = Some("t".repeat(201));
    assert_eq!(kind_of(s.create_short_url(taken, Some("u1".to_string()))), ErrorKind::Conflict);

    let mut malformed = request("https://other.example", Some("ab"), Some(0));
    malformed.title = Some("t".repeat(201));
    match s.create_short_url(malformed, None) {
        Err(e) => {
            assert_eq!(e.kind(), ErrorKind::BadRequest);
            assert_eq!(e.detail(), "Invalid custom code format");
        }
        Ok(_) => panic!("a malformed code must be reported whatever the lifetime"),
    }

    let mut free = request("https://other.example", Some("free-code"), Some(0));
    free.title = Some("t".repeat(201));
    match s.create_short_url(free, None) {
        Err(e) => assert_eq!(e.detail(), "title: Title is too long"),
        Ok(_) => panic!("an overlong title must be reported"),
    }
    let invalid_target = request("ftp://other.example", Some("mylink"), Some(0));
    assert_eq!(kind_of(s.create_short_url(invalid_target, None)), ErrorKind::BadRequest);
    assert_eq!(s.get_stats().unwrap().total_urls, 1);
    assert_eq!(s.get_original_url("mylink").unwrap(), "https://example.com");
}
