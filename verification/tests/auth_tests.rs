use url_shortener::api::{
    generate_request_id, AuthUser, BearerToken, ClientIp, OptionalAuth, RequestId, UserAgent,
    ValidatedJson,
};
use url_shortener::config::{Config, ConfigBuilder};
use url_shortener::database::{Repository, UserRepository};
use url_shortener::error::{AppError, ErrorKind};
use url_shortener::models::{
    ChangePasswordRequest, Claims, CreateUser, LoginRequest, RegisterRequest,
    UpdateProfileRequest, UserResponse,
};
use url_shortener::services::{extract_token_from_header, AuthService};
use url_shortener::time::Timestamp;
use url_shortener::validation::Validate;

#[test]
fn test_extract_token() {
    assert_eq!(extract_token_from_header("Bearer abc123"), Some("abc123"));

    assert_eq!(extract_token_from_header("Basic abc123"), None);

    assert_eq!(extract_token_from_header("abc123"), None);
}

#[test]
fn extract_token_edge_cases() {
    assert_eq!(extract_token_from_header("Bearer "), Some(""));
    assert_eq!(extract_token_from_header("Bearer"), None);
    assert_eq!(extract_token_from_header("bearer abc"), None);
    assert_eq!(extract_token_from_header(""), None);
    assert_eq!(extract_token_from_header("Bearer a b é"), Some("a b é"));
}

fn kind_of<T>(r: Result<T, AppError>) -> (ErrorKind, String) {
    match r {
        Ok(_) => panic!("expected a failure"),
        Err(e) => (e.kind(), e.detail().to_string()),
    }
}

#[test]
fn bearer_token_from_header() {
    assert_eq!(BearerToken::from_header(Some("Bearer tok")).unwrap().0, "tok");
    assert_eq!(
        kind_of(BearerToken::from_header(None)),
        (ErrorKind::Unauthorized, "Missing Authorization header".to_string())
    );
    assert_eq!(
        kind_of(BearerToken::from_header(Some("Basic abc"))),
        (ErrorKind::Unauthorized, "Invalid Authorization header format".to_string())
    );
    assert_eq!(
        kind_of(BearerToken::from_header(Some("Bearer "))),
        (ErrorKind::Unauthorized, "Empty token".to_string())
    );
}

#[test]
fn optional_auth_knows_who_is_logged_in() {
    let claims = Claims::issued_at("u-7", "u@example.com", 1, 0);
    let auth = OptionalAuth::from_auth(Ok(AuthUser::from_claims(claims)));
    assert!(auth.is_authenticated());
    assert_eq!(auth.user_id(), Some("u-7".to_string()));
    let nobody = OptionalAuth::from_auth(Err(AppError::Unauthorized("x".to_string())));
    assert!(!nobody.is_authenticated());
    assert_eq!(nobody.user_id(), None);
    assert!(!OptionalAuth::default().is_authenticated());
}

#[test]
fn request_headers_are_read() {
    assert_eq!(RequestId::from_header(Some("req-1")).0, "req-1");
    assert_eq!(RequestId::from_header(None).0.len(), 12);
    assert_eq!(generate_request_id().len(), 12);
    assert_ne!(generate_request_id(), generate_request_id());
    assert_eq!(ClientIp::from_headers(Some(" 10.0.0.1 , 10.0.0.2"), Some("9.9.9.9")).0.as_deref(), Some("10.0.0.1"));
    assert_eq!(ClientIp::from_headers(Some("10.0.0.1"), None).0.as_deref(), Some("10.0.0.1"));
    assert_eq!(ClientIp::from_headers(Some(""), Some("9.9.9.9")).0.as_deref(), Some(""));
    assert_eq!(ClientIp::from_headers(Some(" ,x"), None).0.as_deref(), Some(""));
    assert_eq!(ClientIp::from_headers(None, Some(" 9.9.9.9 ")).0.as_deref(), Some(" 9.9.9.9 "));
    assert_eq!(ClientIp::from_headers(None, None).0, None);
    assert_eq!(UserAgent::from_header(Some("curl/8")).0.as_deref(), Some("curl/8"));
    assert_eq!(UserAgent::from_header(None).0, None);
}

#[test]
fn validated_json_rejects_faulty_values() {
    let good = UpdateProfileRequest { name: Some("Al".to_string()) };
    assert_eq!(ValidatedJson::new(good).unwrap().0.name.as_deref(), Some("Al"));
    let bad = UpdateProfileRequest { name: Some("A".to_string()) };
    assert_eq!(
        kind_of(ValidatedJson::new(bad)),
        (ErrorKind::Validation, "name: Name must be 2-100 characters".to_string())
    );
}

#[test]
fn account_requests_are_validated() {
    let r = RegisterRequest {
        email: "not-an-email".to_string(),
        password: "short".to_string(),
        name: Some("x".repeat(101)),
    };
    assert_eq!(
        r.validate().unwrap_err().message(),
        "email: Invalid email format\npassword: Password must be at least 8 characters\nname: Name must be 2-100 characters"
    );
    let r = LoginRequest { email: "a@example.com".to_string(), password: "".to_string() };
    assert_eq!(r.validate().unwrap_err().message(), "password: Password is required");
    let r = ChangePasswordRequest {
        current_password: "".to_string(),
        new_password: "1234567".to_string(),
    };
    assert_eq!(
        r.validate().unwrap_err().message(),
        "current_password: Current password is required\nnew_password: New password must be at least 8 characters"
    );
    let r = ChangePasswordRequest {
        current_password: "x".to_string(),
        new_password: "12345678".to_string(),
    };
    assert!(r.validate().is_ok());
}

fn register(service: &mut AuthService, email: &str, password: &str) -> UserResponse {
    service
        .register(RegisterRequest {
            email: email.to_string(),
            password: password.to_string(),
            name: Some("Somebody".to_string()),
        })
        .unwrap()
        .user
}

#[test]
fn register_then_login() {
    let mut service = AuthService::new(UserRepository::new(), Config::default());
    let user = register(&mut service, "user@example.com", "correct horse");
    assert_eq!(user.email, "user@example.com");
    assert_eq!(user.name.as_deref(), Some("Somebody"));
    assert!(user.is_active);
    assert_eq!(user.id.len(), 21);

    let again = service.register(RegisterRequest {
        email: "user@example.com".to_string(),
        password: "another one".to_string(),
        name: None,
    });
    assert_eq!(kind_of(again), (ErrorKind::Conflict, "Email already registered".to_string()));

    let now = Timestamp::new(1_000, 9);
    let ticket = service
        .login_at(
            LoginRequest { email: "user@example.com".to_string(), password: "correct horse".to_string() },
            now,
        )
        .unwrap();
    assert_eq!(ticket.user.id, user.id);
    assert_eq!(ticket.claims.sub, user.id);
    assert_eq!(ticket.claims.email, "user@example.com");
    assert_eq!(ticket.claims.iat, 1_000);
    assert_eq!(ticket.claims.exp, 1_000 + 24 * 3600);
    assert_eq!(ticket.expires_at, Timestamp::new(1_000 + 24 * 3600, 9));
    let response = ticket.into_response("signed".to_string());
    assert_eq!(response.token, "signed");
    assert_eq!(response.user.email, "user@example.com");
}

#[test]
fn login_refuses_wrong_credentials() {
    let mut repo = UserRepository::new();
    let user = CreateUser::new("user@example.com", "correct horse", None).unwrap();
    repo.create_at(&user, Timestamp::new(1, 0)).unwrap();
    let service = AuthService::new(repo, Config::default());
    let wrong = service.login(LoginRequest {
        email: "user@example.com".to_string(),
        password: "wrong horse".to_string(),
    });
    assert_eq!(kind_of(wrong), (ErrorKind::Unauthorized, "Invalid credentials".to_string()));
    let unknown = service.login(LoginRequest {
        email: "nobody@example.com".to_string(),
        password: "correct horse".to_string(),
    });
    assert_eq!(kind_of(unknown), (ErrorKind::Unauthorized, "Invalid credentials".to_string()));
    let faulty = service.login(LoginRequest { email: "nope".to_string(), password: "x".to_string() });
    assert_eq!(kind_of(faulty).0, ErrorKind::Validation);
}

#[test]
fn login_refuses_deactivated_accounts() {
    let mut repo = UserRepository::new();
    let created = CreateUser::from_hashing(
        "id-1".to_string(),
        "user@example.com",
        Ok("unused".to_string()),
        None,
    )
    .unwrap();
    let mut stored = repo.create_at(&created, Timestamp::new(1, 0)).unwrap();
    repo.delete(&"id-1".to_string()).unwrap();
    stored.is_active = false;
    repo.restore(stored).unwrap();
    let service = AuthService::new(repo, Config::default());
    let r = service.login(LoginRequest {
        email: "user@example.com".to_string(),
        password: "whatever".to_string(),
    });
    assert_eq!(kind_of(r), (ErrorKind::Forbidden, "Account is deactivated".to_string()));
}

#[test]
fn login_by_the_system_clock() {
    let mut service = AuthService::new(UserRepository::new(), Config::default());
    register(&mut service, "user@example.com", "correct horse");
    let before = Timestamp::now();
    let ticket = service
        .login(LoginRequest { email: "user@example.com".to_string(), password: "correct horse".to_string() })
        .unwrap();
    assert!(ticket.claims.iat >= before.secs);
    assert_eq!(ticket.claims.exp, ticket.claims.iat + 24 * 3600);
    assert_eq!(ticket.expires_at.secs, ticket.claims.exp);
}

#[test]
fn tokens_are_checked_against_the_clock() {
    let service = AuthService::new(UserRepository::new(), Config::default());
    let claims = Claims::issued_at("u", "u@example.com", 1, 1_000);
    assert_eq!(service.verify_token_at(Some(claims.clone()), 4_600).unwrap().sub, "u");
    assert_eq!(
        kind_of(service.verify_token_at(Some(claims.clone()), 4_601)),
        (ErrorKind::Unauthorized, "Token expired".to_string())
    );
    assert_eq!(
        kind_of(service.verify_token_at(None, 0)),
        (ErrorKind::Unauthorized, "Invalid token".to_string())
    );
    assert_eq!(kind_of(service.verify_token(Some(claims))).1, "Token expired");
    assert!(service.verify_token(Some(Claims::new("u", "u@example.com", 1))).is_ok());
    assert_eq!(
        kind_of(service.refresh_token(Some(Claims::new("ghost", "g@example.com", 1)))),
        (ErrorKind::NotFound, "User not found".to_string())
    );
    assert_eq!(kind_of(service.refresh_token(None)).1, "Invalid token");
}

#[test]
fn refresh_and_lookup() {
    let config = ConfigBuilder::new().build();
    let mut repo = UserRepository::new();
    let created = CreateUser::from_hashing(
        "id-1".to_string(),
        "user@example.com",
        Ok("unused".to_string()),
        Some("Somebody".to_string()),
    )
    .unwrap();
    repo.create_at(&created, Timestamp::new(1, 0)).unwrap();
    let service = AuthService::new(repo, config);
    let claims = Claims::issued_at("id-1", "user@example.com", 1, 1_000);
    let ticket = service.refresh_token_at(Some(claims), Timestamp::new(2_000, 0)).unwrap();
    assert_eq!(ticket.claims.iat, 2_000);
    assert_eq!(ticket.claims.exp, 2_000 + 24 * 3600);
    assert_eq!(ticket.user.email, "user@example.com");
    let stale = Claims::issued_at("id-1", "user@example.com", 1, 1_000);
    assert_eq!(
        kind_of(service.refresh_token_at(Some(stale), Timestamp::new(4_601, 0))).1,
        "Token expired"
    );

    assert_eq!(service.get_user("id-1").unwrap().email, "user@example.com");
    assert_eq!(service.get_user("id-1").unwrap().name.as_deref(), Some("Somebody"));
    assert_eq!(
        kind_of(service.get_user("ghost")),
        (ErrorKind::NotFound, "User 'ghost' not found".to_string())
    );
}

#[test]
fn password_change_is_decided() {
    let mut service = AuthService::new(UserRepository::new(), Config::default());
    let user = register(&mut service, "user@example.com", "correct horse");
    assert!(service.change_password(&user.id, "correct horse", "new password").is_ok());
    assert_eq!(
        kind_of(service.change_password(&user.id, "correct horse", "short")),
        (ErrorKind::BadRequest, "Password must be at least 8 characters".to_string())
    );
    assert_eq!(
        kind_of(service.change_password(&user.id, "wrong horse", "new password")),
        (ErrorKind::Unauthorized, "Current password is incorrect".to_string())
    );
    assert_eq!(
        kind_of(service.change_password("ghost", "correct horse", "new password")),
        (ErrorKind::NotFound, "User not found".to_string())
    );
}

#[test]
fn password_hashes_are_salted() {
    let a = CreateUser::new("a@example.com", "secret password", None).unwrap();
    let b = CreateUser::new("a@example.com", "secret password", None).unwrap();
    assert_ne!(a.password_hash, b.password_hash);
    assert_ne!(a.id, b.id);
    assert!(a.password_hash.starts_with("$argon2"));
    assert_ne!(a.password_hash, "secret password");
}

#[test]
fn password_hashes_are_verified() {
    let a = CreateUser::new("a@example.com", "secret password", None).unwrap();
    let mut repo = UserRepository::new();
    let stored = repo.create_at(&a, Timestamp::new(1, 0)).unwrap();
    assert!(stored.verify_password("secret password").unwrap());
    assert!(!stored.verify_password("secret passwore").unwrap());
    let mut broken = stored.clone();
    broken.password_hash = "not a hash".to_string();
    assert_eq!(kind_of(broken.verify_password("secret password")).0, ErrorKind::Internal);
}

#[test]
fn user_repository_keeps_addresses_and_ids_unique() {
    let mut repo = UserRepository::new();
    let first = CreateUser::from_hashing("id-1".to_string(), "a@example.com", Ok("h1".to_string()), None).unwrap();
    let same_mail = CreateUser::from_hashing("id-2".to_string(), "a@example.com", Ok("h2".to_string()), None).unwrap();
    let same_id = CreateUser::from_hashing("id-1".to_string(), "b@example.com", Ok("h3".to_string()), None).unwrap();
    let second = CreateUser::from_hashing("id-2".to_string(), "b@example.com", Ok("h4".to_string()), None).unwrap();
    assert!(repo.create_at(&first, Timestamp::new(1, 0)).is_ok());
    assert_eq!(kind_of(repo.create_at(&same_mail, Timestamp::new(2, 0))).0, ErrorKind::Database);
    assert_eq!(kind_of(repo.create_at(&same_id, Timestamp::new(2, 0))).0, ErrorKind::Database);
    assert!(repo.create(&second).is_ok());
    assert_eq!(repo.count().unwrap(), 2);
    assert!(repo.email_exists("a@example.com").unwrap());
    assert!(!repo.email_exists("c@example.com").unwrap());
    assert_eq!(repo.find_by_email("b@example.com").unwrap().unwrap().id, "id-2");
    assert_eq!(repo.find_by_id(&"id-1".to_string()).unwrap().unwrap().email, "a@example.com");
    let all = repo.find_all().unwrap();
    assert_eq!(all.iter().map(|u| u.id.as_str()).collect::<Vec<_>>(), vec!["id-2", "id-1"]);
    assert!(repo.delete(&"id-1".to_string()).unwrap());
    assert!(!repo.delete(&"id-1".to_string()).unwrap());
    assert_eq!(repo.count().unwrap(), 1);
    let copy = repo.find_user("id-2").unwrap();
    assert_eq!(kind_of(repo.save(&copy)).0, ErrorKind::Database);
    assert_eq!(
        kind_of(CreateUser::from_hashing("i".to_string(), "e", Err("boom".to_string()), None)),
        (ErrorKind::Internal, "boom".to_string())
    );
}

#[test]
fn users_can_be_found_and_restored() {
    let mut service = AuthService::new(UserRepository::new(), Config::default());
    let shown = register(&mut service, "user@example.com", "correct horse");
    let stored = service.find_by_email("user@example.com").unwrap();
    assert_eq!(stored.id, shown.id);
    assert!(stored.verify_password("correct horse").unwrap());
    assert!(service.find_by_email("nobody@example.com").is_none());

    let mut copy = UserRepository::new();
    assert!(copy.restore(stored.clone()).is_ok());
    assert_eq!(kind_of(copy.restore(stored)).0, ErrorKind::Database);
    assert_eq!(copy.find_user(&shown.id).unwrap().email, "user@example.com");
    let shown_again = UserResponse::from(&copy.find_user(&shown.id).unwrap());
    assert_eq!(shown_again.id, shown.id);
}

#[test]
fn users_can_be_unregistered() {
    let mut repo = UserRepository::new();
    for (id, email) in [("id-1", "a@example.com"), ("id-2", "b@example.com")] {
        let created =
            CreateUser::from_hashing(id.to_string(), email, Ok("hash".to_string()), None).unwrap();
        repo.create_at(&created, Timestamp::new(1, 0)).unwrap();
    }
    let mut service = AuthService::new(repo, Config::default());
    assert!(service.unregister("id-1"));
    assert!(!service.unregister("id-1"));
    assert!(service.find_by_email("a@example.com").is_none());
    assert_eq!(service.get_user("id-2").unwrap().email, "b@example.com");
}
