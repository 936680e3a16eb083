use url_shortener::config::{Config, ConfigBuilder, Environment};
use url_shortener::error::ErrorKind;

#[test]
fn mod_test_default_config() {
    let config = Config::default();
    assert_eq!(config.port, 3000);
    assert_eq!(config.host, "127.0.0.1");
}

#[test]
fn mod_test_config_builder() {
    let config = ConfigBuilder::new().port(8080).host("0.0.0.0").build();

    assert_eq!(config.port, 8080);
    assert_eq!(config.host, "0.0.0.0");
}

#[test]
fn test_environment_from_string() {
    assert_eq!(Environment::from("production".to_string()), Environment::Production);
    assert_eq!(Environment::from("PROD".to_string()), Environment::Production);
    assert_eq!(Environment::from("development".to_string()), Environment::Development);
    assert_eq!(Environment::from("unknown".to_string()), Environment::Development);
}

#[test]
fn test_validation_fails_in_production_with_default_secret() {
    let config = ConfigBuilder::new().environment(Environment::Production).build();

    assert!(config.validate().is_err());
}

#[test]
fn integration_tests_test_default_config() {
    let config = Config::default();

    assert_eq!(config.port, 3000);
    assert_eq!(config.host, "127.0.0.1");
    assert!(config.environment.is_development());
}

#[test]
fn integration_tests_test_config_builder() {
    let config = ConfigBuilder::new()
        .port(8080)
        .host("0.0.0.0")
        .base_url("https://short.io")
        .environment(Environment::Production)
        .build();

    assert_eq!(config.port, 8080);
    assert_eq!(config.host, "0.0.0.0");
    assert_eq!(config.base_url, "https://short.io");
    assert!(config.environment.is_production());
}

#[test]
fn test_environment_conversion() {
    assert_eq!(Environment::from("production".to_string()), Environment::Production);
    assert_eq!(Environment::from("PROD".to_string()), Environment::Production);
    assert_eq!(Environment::from("development".to_string()), Environment::Development);
    assert_eq!(Environment::from("unknown".to_string()), Environment::Development);
}

#[test]
fn test_validation_production_secret() {
    let config = ConfigBuilder::new()
        .environment(Environment::Production)
        .jwt_secret("change-me-in-production")
        .build();

    assert!(config.validate().is_err());

    let config = ConfigBuilder::new()
        .environment(Environment::Production)
        .jwt_secret("my-super-secret-key-123")
        .build();

    assert!(config.validate().is_ok());
}

#[test]
fn environment_names_for_testing() {
    assert_eq!(Environment::from("Testing".to_string()), Environment::Testing);
    assert_eq!(Environment::from("test".to_string()), Environment::Testing);
    assert_eq!(Environment::from("".to_string()), Environment::Development);
    assert_eq!(Environment::default(), Environment::Development);
}

#[test]
fn config_faults_are_reported_with_their_text() {
    let config = ConfigBuilder::new().environment(Environment::Production).build();
    match config.validate() {
        Err(e) => {
            assert_eq!(e.kind(), ErrorKind::Config);
            assert_eq!(e.detail(), "JWT_SECRET must be changed in production");
            assert_eq!(e.message(), "Configuration error: JWT_SECRET must be changed in production");
        }
        Ok(()) => panic!("the default secret must not pass in production"),
    }
    match ConfigBuilder::new().port(0).build_validated() {
        Err(e) => assert_eq!(e.detail(), "PORT cannot be 0"),
        Ok(_) => panic!("port 0 must not pass"),
    }
    let ok = ConfigBuilder::new().database_url("sqlite::memory:").build_validated().unwrap();
    assert_eq!(ok.database_url, "sqlite::memory:");
    assert_eq!(ok.jwt_expiration_hours, 24);
    assert_eq!(ok.rate_limit_per_second, 10);
    assert_eq!(ok.rate_limit_burst, 30);
}

#[test]
fn server_address_joins_host_and_port() {
    assert_eq!(Config::default().server_addr(), "127.0.0.1:3000");
    assert_eq!(ConfigBuilder::new().host("::1").port(65535).build().server_addr(), "::1:65535");
    assert_eq!(ConfigBuilder::new().host("h").port(7).build().server_addr(), "h:7");
}
