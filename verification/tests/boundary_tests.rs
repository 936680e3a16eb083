use url_shortener::api::{require_auth, security_headers};
use url_shortener::config::{Config, ConfigBuilder, EnvVars, Environment};
use url_shortener::database::{sqlite_file_path, UrlRepository, UserRepository};
use url_shortener::error::{AppError, ErrorKind};
use url_shortener::models::CreateUrlRequest;
use url_shortener::services::AppState;
use url_shortener::text::parse_u32;

#[test]
fn settings_from_an_empty_environment_are_the_defaults() {
    let config = Config::from_vars(&EnvVars::default());
    let default = Config::default();
    assert_eq!(config.host, default.host);
    assert_eq!(config.port, 3000);
    assert_eq!(config.base_url, "http://localhost:3000");
    assert_eq!(config.database_url, "sqlite://data/urls.db?mode=rwc");
    assert_eq!(config.jwt_secret, "change-me-in-production");
    assert_eq!(config.jwt_expiration_hours, 24);
    assert_eq!(config.rate_limit_per_second, 10);
    assert_eq!(config.rate_limit_burst, 30);
    assert_eq!(config.environment, Environment::Development);
}

#[test]
fn settings_from_the_environment_replace_defaults() {
    let vars = EnvVars {
        host: Some("0.0.0.0".to_string()),
        port: Some("8080".to_string()),
        base_url: Some("https://sho.rt".to_string()),
        database_url: Some("sqlite::memory:".to_string()),
        jwt_secret: Some("s3cret".to_string()),
        jwt_expiration_hours: Some("+48".to_string()),
        rate_limit_per_second: Some("abc".to_string()),
        rate_limit_burst: Some("4294967296".to_string()),
        environment: Some("PRODUCTION".to_string()),
    };
    let config = Config::from_vars(&vars);
    assert_eq!(config.host, "0.0.0.0");
    assert_eq!(config.port, 8080);
    assert_eq!(config.base_url, "https://sho.rt");
    assert_eq!(config.database_url, "sqlite::memory:");
    assert_eq!(config.jwt_secret, "s3cret");
    assert_eq!(config.jwt_expiration_hours, 48);
    assert_eq!(config.rate_limit_per_second, 10);
    assert_eq!(config.rate_limit_burst, 30);
    assert_eq!(config.environment, Environment::Production);
    assert!(config.validate().is_ok());

    let mut vars = EnvVars::default();
    vars.port = Some("65536".to_string());
    assert_eq!(Config::from_vars(&vars).port, 0);
    assert!(Config::from_vars(&vars).validate().is_err());
    vars.port = Some("70000".to_string());
    assert_eq!(Config::from_vars(&vars).port, 4464);
    vars.port = Some(" 80".to_string());
    assert_eq!(Config::from_vars(&vars).port, 3000);
}

#[test]
fn numbers_are_read_as_the_standard_library_reads_them() {
    for text in ["0", "7", "+7", "007", "4294967295", "4294967296", "", "+", "-1", "1 ", " 1", "1_0", "12a", "٣", "99999999999999999999999"] {
        assert_eq!(parse_u32(text), text.parse::<u32>().ok(), "{:?}", text);
    }
    assert_eq!(parse_u32("4294967295"), Some(u32::MAX));
    assert_eq!(parse_u32("+0"), Some(0));
}

#[test]
fn failures_are_rendered_with_their_reason_phrase() {
    let r = AppError::NotFound("URL 'x' not found".to_string()).to_response();
    assert_eq!(r.error, "Not Found");
    assert_eq!(r.message, "Not found: URL 'x' not found");
    assert_eq!(r.status_code, Some(404));
    assert_eq!(r.details, None);
    let phrases = [
        (AppError::BadRequest("x".into()), "Bad Request"),
        (AppError::Unauthorized("x".into()), "Unauthorized"),
        (AppError::Forbidden("x".into()), "Forbidden"),
        (AppError::Conflict("x".into()), "Conflict"),
        (AppError::RateLimited, "Too Many Requests"),
        (AppError::Validation("x".into()), "Unprocessable Entity"),
        (AppError::Database("x".into()), "Internal Server Error"),
    ];
    for (error, phrase) in phrases {
        let r = error.to_response();
        assert_eq!(r.error, phrase);
        assert_eq!(r.status_code, Some(error.status_code()));
    }
    let r = AppError::RateLimited.response_with_reason(None);
    assert_eq!(r.error, "Error");
    assert_eq!(r.message, "Too many requests");
    assert_eq!(r.status_code, Some(429));
}

#[test]
fn security_headers_are_the_four_hardening_headers() {
    assert_eq!(
        security_headers(),
        vec![
            ("X-Content-Type-Options", "nosniff"),
            ("X-Frame-Options", "DENY"),
            ("X-XSS-Protection", "1; mode=block"),
            ("Referrer-Policy", "strict-origin-when-cross-origin"),
        ]
    );
}

#[test]
fn protected_requests_must_present_a_bearer_token() {
    assert_eq!(require_auth(Some("Bearer tok")).unwrap(), "tok");
    assert_eq!(require_auth(Some("Bearer ")).unwrap(), "");
    match require_auth(None) {
        Err(e) => {
            assert_eq!(e.kind(), ErrorKind::Unauthorized);
            assert_eq!(e.detail(), "Missing auth token");
        }
        Ok(_) => panic!("no header, no token"),
    }
    match require_auth(Some("Token abc")) {
        Err(e) => assert_eq!(e.detail(), "Invalid auth format"),
        Ok(_) => panic!("only bearer tokens count"),
    }
}

#[test]
fn sqlite_addresses_name_a_file() {
    assert_eq!(sqlite_file_path("sqlite://data/urls.db?mode=rwc"), Some("data/urls.db"));
    assert_eq!(sqlite_file_path("sqlite://urls.db"), Some("urls.db"));
    assert_eq!(sqlite_file_path("sqlite://a?b?c"), Some("a"));
    assert_eq!(sqlite_file_path("sqlite://"), Some(""));
    assert_eq!(sqlite_file_path("sqlite::memory:"), None);
    assert_eq!(sqlite_file_path("postgres://host/db"), None);
}

#[test]
fn app_state_wires_the_services_to_the_settings() {
    let config = ConfigBuilder::new().base_url("https://sho.rt/").build();
    let mut state = AppState::new(UrlRepository::new(), UserRepository::new(), config);
    assert_eq!(state.config().base_url, "https://sho.rt/");
    let created = state
        .url_service
        .create_short_url(
            CreateUrlRequest {
                url: "https://example.com".to_string(),
                custom_code: Some("wired".to_string()),
                title: None,
                expires_in_hours: None,
            },
            None,
        )
        .unwrap();
    assert_eq!(created.short_url, "https://sho.rt/wired");
    assert!(state.auth_service.get_user("nobody").is_err());
}
