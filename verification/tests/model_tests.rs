use url_shortener::models::url::{CreateUrl, Url};
use url_shortener::models::{
    ApiResponse, BatchOperationResponse, Claims, CreateUrlRequest, EmptyResponse, HealthResponse,
    Id, PaginatedResult, Pagination, PaginationInfo, SortOrder, Timestamps, UpdateUrlRequest,
    UrlBuilder, UrlResponse,
};
use url_shortener::time::Timestamp;
use url_shortener::validation::Validate;

#[test]
fn test_id_generation() {
    let id1 = Id::new();
    let id2 = Id::new();

    assert_ne!(id1.as_str(), id2.as_str());

    assert_eq!(id1.as_str().len(), 21);
}

#[test]
fn test_pagination_offset() {
    let page1 = Pagination { page: 1, per_page: 20 };
    let page2 = Pagination { page: 2, per_page: 20 };
    let page3 = Pagination { page: 3, per_page: 10 };

    assert_eq!(page1.offset(), 0);
    assert_eq!(page2.offset(), 20);
    assert_eq!(page3.offset(), 20);
}

#[test]
fn test_pagination_limit() {
    let normal = Pagination { page: 1, per_page: 20 };
    let large = Pagination { page: 1, per_page: 200 };

    assert_eq!(normal.limit(), 20);
    assert_eq!(large.limit(), 100);
}

#[test]
fn test_pagination_info() {
    let pagination = Pagination { page: 2, per_page: 10 };
    let info = PaginationInfo::new(&pagination, 35);

    assert_eq!(info.total_pages, 4);
    assert!(info.has_next);
    assert!(info.has_prev);
}

#[test]
fn auth_service_test_claims_expiration() {
    let claims = Claims::new("user1", "test@example.com", 1);
    assert!(!claims.is_expired());

    let expired_claims = Claims {
        sub: "user1".to_string(),
        email: "test@example.com".to_string(),
        exp: chrono::Utc::now().timestamp() - 3600,
        iat: chrono::Utc::now().timestamp() - 7200,
    };
    assert!(expired_claims.is_expired());
}

#[test]
fn integration_tests_test_claims_expiration() {
    let claims = Claims::new("user1", "test@test.com", 1);
    assert!(!claims.is_expired());

    let expired = Claims {
        sub: "user1".to_string(),
        email: "test@test.com".to_string(),
        exp: chrono::Utc::now().timestamp() - 3600,
        iat: chrono::Utc::now().timestamp() - 7200,
    };
    assert!(expired.is_expired());
}

#[test]
fn claims_are_issued_for_whole_hours() {
    let claims = Claims::issued_at("u", "e@example.com", 24, 1_000);
    assert_eq!(claims.sub, "u");
    assert_eq!(claims.email, "e@example.com");
    assert_eq!(claims.iat, 1_000);
    assert_eq!(claims.exp, 1_000 + 86_400);
    assert!(!claims.is_expired_at(87_400));
    assert!(claims.is_expired_at(87_401));
}

#[test]
fn id_conversions() {
    let id = Id::from_string("abc");
    assert_eq!(id.as_str(), "abc");
    assert_eq!(id.clone().into_string(), "abc");
    assert_eq!(Id::from("xyz".to_string()).as_str(), "xyz");
    assert_eq!(Id::from("xyz"), Id::from_string("xyz"));
    assert_ne!(Id::from("xyz"), Id::from("xyZ"));
    let fresh = Id::default();
    assert!(fresh.as_str().chars().all(|c| c.is_ascii_alphanumeric() || c == '_' || c == '-'));
}

#[test]
fn pagination_edge_cases() {
    assert_eq!(Pagination::default(), Pagination { page: 1, per_page: 20 });
    assert_eq!(Pagination { page: 0, per_page: 20 }.offset(), 0);
    assert_eq!(Pagination { page: 5, per_page: 0 }.offset(), 0);
    assert_eq!(Pagination { page: 1, per_page: 100 }.limit(), 100);
    assert_eq!(Pagination { page: 1, per_page: 101 }.limit(), 100);
    assert_eq!(Pagination { page: 1, per_page: 0 }.limit(), 0);

    let exact = PaginationInfo::new(&Pagination { page: 3, per_page: 10 }, 30);
    assert_eq!(exact.total_pages, 3);
    assert!(!exact.has_next);
    assert!(exact.has_prev);
    let empty = PaginationInfo::new(&Pagination { page: 1, per_page: 10 }, 0);
    assert_eq!(empty.total_pages, 0);
    assert!(!empty.has_next);
    assert!(!empty.has_prev);
    let one_more = PaginationInfo::new(&Pagination { page: 1, per_page: 10 }, 31);
    assert_eq!(one_more.total_pages, 4);
    assert_eq!(one_more.total_items, 31);
    assert_eq!(one_more.current_page, 1);
    assert_eq!(one_more.per_page, 10);
    let unbounded = PaginationInfo::new(&Pagination { page: 1, per_page: 0 }, 5);
    assert_eq!(unbounded.total_pages, u32::MAX);
    let nothing = PaginationInfo::new(&Pagination { page: 1, per_page: 0 }, 0);
    assert_eq!(nothing.total_pages, 0);
    let huge = PaginationInfo::new(&Pagination { page: 1, per_page: 1 }, u64::MAX);
    assert_eq!(huge.total_pages, u32::MAX);

    let page = PaginatedResult::new(vec![1, 2, 3], &Pagination { page: 1, per_page: 3 }, 7);
    assert_eq!(page.data, vec![1, 2, 3]);
    assert_eq!(page.pagination.total_pages, 3);
    assert!(page.pagination.has_next);
}

#[test]
fn sort_order_keywords() {
    assert_eq!(SortOrder::Asc.as_sql(), "ASC");
    assert_eq!(SortOrder::Desc.as_sql(), "DESC");
    assert_eq!(SortOrder::default(), SortOrder::Asc);
}

#[test]
fn timestamps_touch_keeps_creation() {
    let mut marks = Timestamps::at(Timestamp::new(5, 0));
    marks.touch_at(Timestamp::new(9, 1));
    assert_eq!(marks.created_at, Timestamp::new(5, 0));
    assert_eq!(marks.updated_at, Timestamp::new(9, 1));
    let mut now = Timestamps::now();
    assert_eq!(now.created_at, now.updated_at);
    now.touch();
    assert!(!now.updated_at.is_before(&now.created_at));
}

#[test]
fn responses_are_built_as_asked() {
    let r = ApiResponse::success(5).with_message("done");
    assert!(r.success);
    assert_eq!(r.data, 5);
    assert_eq!(r.message.as_deref(), Some("done"));
    assert_eq!(ApiResponse::success("x").message, None);
    let e = EmptyResponse::ok("deleted");
    assert!(e.success);
    assert_eq!(e.message, "deleted");
    let h = HealthResponse::healthy(true);
    assert_eq!(h.status, "healthy");
    assert!(h.database);
    assert_eq!(h.uptime_seconds, None);
    assert_eq!(h.version, "0.1.0");
    assert_eq!(HealthResponse::healthy(false).status, "degraded");
    let b = BatchOperationResponse::new(3, vec!["a".to_string(), "b".to_string()]);
    assert_eq!(b.success_count, 3);
    assert_eq!(b.failed_count, 2);
    assert_eq!(b.failed_ids, vec!["a", "b"]);
}

fn sample_url(expires_at: Option<Timestamp>) -> Url {
    Url {
        id: "id".to_string(),
        short_code: "abc123".to_string(),
        original_url: "https://example.com".to_string(),
        title: Some("t".to_string()),
        clicks: 3,
        user_id: None,
        expires_at,
        created_at: Timestamp::new(1, 0),
        updated_at: Timestamp::new(2, 0),
    }
}

#[test]
fn short_url_drops_trailing_slashes_of_the_base() {
    let url = sample_url(None);
    assert_eq!(url.short_url("https://sho.rt"), "https://sho.rt/abc123");
    assert_eq!(url.short_url("https://sho.rt///"), "https://sho.rt/abc123");
    assert_eq!(url.short_url(""), "/abc123");
    assert_eq!(url.short_url("/"), "/abc123");
    let shown = UrlResponse::from_url(&url, "https://sho.rt/");
    assert_eq!(shown.short_url, "https://sho.rt/abc123");
    assert_eq!(shown.clicks, 3);
    assert_eq!(shown.title.as_deref(), Some("t"));
    assert_eq!(shown.created_at, Timestamp::new(1, 0));
}

#[test]
fn url_expiry_against_a_clock_reading() {
    let now = Timestamp::new(100, 0);
    assert!(!sample_url(None).is_expired_at(now));
    assert!(sample_url(Some(Timestamp::new(99, 0))).is_expired_at(now));
    assert!(!sample_url(Some(Timestamp::new(101, 0))).is_expired_at(now));
    assert!(!sample_url(None).is_expired());
    assert!(sample_url(Some(Timestamp::new(0, 0))).is_expired());
    assert!(!sample_url(Some(Timestamp::new(i64::MAX, 0))).is_expired());
}

#[test]
fn builder_fills_in_what_is_missing() {
    let built: CreateUrl = UrlBuilder::new("https://example.com")
        .title("My Link")
        .custom_code("mylink")
        .user_id("u1")
        .expires_at(Timestamp::new(50, 0))
        .build()
        .unwrap();
    assert_eq!(built.short_code, "mylink");
    assert_eq!(built.original_url, "https://example.com");
    assert_eq!(built.title.as_deref(), Some("My Link"));
    assert_eq!(built.user_id.as_deref(), Some("u1"));
    assert_eq!(built.expires_at, Some(Timestamp::new(50, 0)));
    assert_eq!(built.id.len(), 21);

    let generated = UrlBuilder::new("https://example.com").build().unwrap();
    assert_eq!(generated.short_code.len(), 7);
    assert_eq!(generated.title, None);

    let fixed = UrlBuilder::new("https://example.com")
        .expires_in_hours_from(2, Timestamp::new(100, 5))
        .build_with("the-id".to_string(), "fallbck".to_string())
        .unwrap();
    assert_eq!(fixed.id, "the-id");
    assert_eq!(fixed.short_code, "fallbck");
    assert_eq!(fixed.expires_at, Some(Timestamp::new(7300, 5)));

    match UrlBuilder::default().build() {
        Err(e) => assert_eq!(e.message(), "Bad request: Original URL is required"),
        Ok(_) => panic!("a link needs a target"),
    }
    let soon = UrlBuilder::new("https://example.com").expires_in_hours(1).build().unwrap();
    assert!(soon.expires_at.unwrap().secs > Timestamp::now().secs + 3000);
}

#[test]
fn request_validation_lists_faults_in_order() {
    let request = CreateUrlRequest {
        url: "nope".to_string(),
        custom_code: Some("x y".to_string()),
        title: Some("t".repeat(201)),
        expires_in_hours: None,
    };
    let errors = request.validate().unwrap_err();
    assert_eq!(errors.len(), 3);
    assert_eq!(
        errors.message(),
        "url: Invalid URL format\ncustom_code: Invalid custom code format\ntitle: Title is too long"
    );
    assert_eq!(errors.get(0).unwrap().field, "url");
    assert!(errors.get(3).is_none());

    let fine = CreateUrlRequest {
        url: "ftp://example.com".to_string(),
        custom_code: Some("abc".to_string()),
        title: Some("t".repeat(200)),
        expires_in_hours: Some(1),
    };
    assert!(fine.validate().is_ok());
    assert!(fine.clone().validate().is_ok());

    let update = UpdateUrlRequest { title: Some("é".repeat(200)), expires_in_hours: None };
    assert!(update.validate().is_ok());
    let update = UpdateUrlRequest { title: Some("é".repeat(201)), expires_in_hours: None };
    assert_eq!(update.validate().unwrap_err().message(), "title: Title is too long");
}

#[test]
fn a_lifetime_must_be_at_least_one_hour() {
    let request = CreateUrlRequest {
        url: "https://example.com".to_string(),
        custom_code: None,
        title: Some("t".repeat(201)),
        expires_in_hours: Some(0),
    };
    assert_eq!(
        request.validate().unwrap_err().message(),
        "title: Title is too long\nexpires_in_hours: Lifetime must be at least 1 hour"
    );
    let update = UpdateUrlRequest { title: None, expires_in_hours: Some(0) };
    assert_eq!(
        update.validate().unwrap_err().message(),
        "expires_in_hours: Lifetime must be at least 1 hour"
    );
    let update = UpdateUrlRequest { title: None, expires_in_hours: Some(1) };
    assert!(update.validate().is_ok());
}
