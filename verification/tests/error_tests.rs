use axum::http::StatusCode;
use url_shortener::error::{AppError, ErrorKind, ErrorResponse, OptionExt, ResultExt};

#[test]
fn test_status_codes() {
    assert_eq!(AppError::NotFound("test".to_string()).status_code(), StatusCode::NOT_FOUND);

    assert_eq!(AppError::BadRequest("test".to_string()).status_code(), StatusCode::BAD_REQUEST);

    assert_eq!(
        AppError::Internal("test".to_string()).status_code(),
        StatusCode::INTERNAL_SERVER_ERROR
    );
}

#[test]
fn test_error_response() {
    let response = ErrorResponse::new("NOT_FOUND", "Resource not found")
        .with_status(StatusCode::NOT_FOUND.as_u16());

    assert_eq!(response.status_code, Some(404));
}

#[test]
fn mod_test_option_extension() {
    let some_value: Option<i32> = Some(42);
    let none_value: Option<i32> = None;

    assert!(some_value.ok_or_not_found("not found").is_ok());
    assert!(none_value.ok_or_not_found("not found").is_err());
}

#[test]
fn mod_test_result_extension() {
    let ok: std::result::Result<i32, &str> = Ok(42);
    let err: std::result::Result<i32, &str> = Err("original error");

    assert!(ok.map_internal().is_ok());
    let mapped = err.map_internal();
    assert!(matches!(mapped, Err(AppError::Internal(_))));
}

#[test]
fn test_error_status_codes() {
    assert_eq!(AppError::NotFound("test".to_string()).status_code(), StatusCode::NOT_FOUND);
    assert_eq!(AppError::BadRequest("test".to_string()).status_code(), StatusCode::BAD_REQUEST);
    assert_eq!(AppError::Unauthorized("test".to_string()).status_code(), StatusCode::UNAUTHORIZED);
    assert_eq!(
        AppError::Internal("test".to_string()).status_code(),
        StatusCode::INTERNAL_SERVER_ERROR
    );
}

#[test]
fn test_is_server_error() {
    assert!(AppError::Internal("test".to_string()).is_server_error());
    assert!(!AppError::NotFound("test".to_string()).is_server_error());
}

#[test]
fn integration_tests_test_option_extension() {
    let some_value: Option<i32> = Some(42);
    let none_value: Option<i32> = None;

    assert!(some_value.ok_or_not_found("not found").is_ok());

    let err = none_value.ok_or_not_found("item not found");
    assert!(matches!(err, Err(AppError::NotFound(_))));
}

#[test]
fn integration_tests_test_result_extension() {
    let ok: Result<i32, &str> = Ok(42);
    let err: Result<i32, &str> = Err("original error");

    assert!(ok.map_internal().is_ok());

    let mapped = err.map_internal();
    assert!(matches!(mapped, Err(AppError::Internal(_))));
}

#[test]
fn every_kind_has_its_status_and_label() {
    let cases: Vec<(AppError, ErrorKind, u16, &str)> = vec![
        (AppError::BadRequest("x".into()), ErrorKind::BadRequest, 400, "Bad request: x"),
        (AppError::Unauthorized("x".into()), ErrorKind::Unauthorized, 401, "Unauthorized: x"),
        (AppError::Forbidden("x".into()), ErrorKind::Forbidden, 403, "Forbidden: x"),
        (AppError::NotFound("x".into()), ErrorKind::NotFound, 404, "Not found: x"),
        (AppError::Conflict("x".into()), ErrorKind::Conflict, 409, "Conflict: x"),
        (AppError::RateLimited, ErrorKind::RateLimited, 429, "Too many requests"),
        (AppError::Validation("x".into()), ErrorKind::Validation, 422, "Validation error: x"),
        (AppError::Internal("x".into()), ErrorKind::Internal, 500, "Internal server error: x"),
        (AppError::Server("x".into()), ErrorKind::Server, 500, "Server error: x"),
        (AppError::Config("x".into()), ErrorKind::Config, 500, "Configuration error: x"),
        (AppError::Database("x".into()), ErrorKind::Database, 500, "Database error: x"),
        (AppError::Io("x".into()), ErrorKind::Io, 500, "IO error: x"),
        (AppError::Json("x".into()), ErrorKind::Json, 500, "JSON error: x"),
        (AppError::Jwt("x".into()), ErrorKind::Jwt, 500, "JWT error: x"),
        (AppError::UrlParse("x".into()), ErrorKind::UrlParse, 500, "URL parsing error: x"),
    ];
    for (error, kind, status, text) in cases {
        assert_eq!(error.kind(), kind);
        assert_eq!(error.status_code(), status);
        assert_eq!(error.is_server_error(), status >= 500);
        assert_eq!(error.message(), text);
    }
}

#[test]
fn not_found_constructors_name_what_is_missing() {
    let e = AppError::url_not_found("abc123");
    assert_eq!(e.kind(), ErrorKind::NotFound);
    assert_eq!(e.detail(), "URL with code 'abc123' not found");
    let e = AppError::user_not_found("u-1");
    assert_eq!(e.detail(), "User 'u-1' not found");
}

#[test]
fn conversions_into_errors() {
    let e = AppError::from("plain".to_string());
    assert_eq!(e.kind(), ErrorKind::Internal);
    assert_eq!(e.detail(), "plain");
    let e = AppError::from("borrowed");
    assert_eq!(e.kind(), ErrorKind::Internal);
    assert_eq!(e.detail(), "borrowed");
    let mapped: Result<i32, AppError> = Err::<i32, i32>(7).map_internal();
    match mapped {
        Err(e) => assert_eq!(e.detail(), "7"),
        Ok(_) => panic!("an error must stay an error"),
    }
    let mapped = Err::<i32, &str>("gone").map_app_err(|m| AppError::NotFound(m.to_string()));
    match mapped {
        Err(e) => assert_eq!(e.message(), "Not found: gone"),
        Ok(_) => panic!("an error must stay an error"),
    }
    assert_eq!(Ok::<i32, &str>(3).map_app_err(|_| AppError::RateLimited).unwrap(), 3);
    match None::<i32>.ok_or_not_found("item not found") {
        Err(e) => assert_eq!(e.detail(), "item not found"),
        Ok(_) => panic!("nothing must not become something"),
    }
    assert_eq!(Some(42).ok_or_not_found("x").unwrap(), 42);
}

#[test]
fn error_response_builders() {
    let r = ErrorResponse::new("Not Found", "Not found: x");
    assert_eq!(r.error, "Not Found");
    assert_eq!(r.message, "Not found: x");
    assert_eq!(r.status_code, None);
    assert_eq!(r.details, None);
    let r = r.with_status(404).with_details("{\"code\":\"x\"}".to_string());
    assert_eq!(r.status_code, Some(404));
    assert_eq!(r.details.as_deref(), Some("{\"code\":\"x\"}"));
    assert_eq!(r.error, "Not Found");
}
