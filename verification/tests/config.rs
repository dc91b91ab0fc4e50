use rust_backend_boilerplate::config::{Config, ConfigError};

#[test]
fn only_exact_origins_are_accepted() {
    assert!(Config::new("http://localhost:3000", false).is_ok());
    for origin in [
        "*",
        "null",
        "https://example.com/path",
        "https://example.com/",
        "https://user@example.com",
        "https://example.com?x=1",
    ] {
        assert!(Config::new(origin, true).is_err(), "{origin}");
    }
}

#[test]
fn accepted_origin_is_kept_verbatim() {
    let config = Config::new("https://example.com", true).unwrap();
    assert_eq!(config.allowed_origin(), "https://example.com");
    assert!(config.cookie_secure());
    let config = Config::new("http://localhost:3000", false).unwrap();
    assert_eq!(config.allowed_origin(), "http://localhost:3000");
    assert!(!config.cookie_secure());
}

#[test]
fn origin_errors_say_why() {
    assert_eq!(Config::new("https://example.com/", true).unwrap_err(), ConfigError::NotAnOrigin);
    assert_eq!(Config::new("ftp://example.com", true).unwrap_err(), ConfigError::NotAnOrigin);
    let error = Config::new("http://exa mple.com", true).unwrap_err();
    assert_eq!(error, ConfigError::InvalidUri("invalid uri character".to_owned()));
    assert_eq!(error.message(), "invalid uri character");
    assert_eq!(
        Config::new("", true).unwrap_err(),
        ConfigError::InvalidUri("empty string".to_owned())
    );
    // A fragment is dropped by the URI parser but must still fit in a header.
    let error = Config::new("http://localhost:3000#\u{1}", true).unwrap_err();
    assert_eq!(error, ConfigError::InvalidHeaderValue);
    assert_eq!(error.message(), "failed to parse header value");
    assert_eq!(
        ConfigError::InvalidCookieSecure.message(),
        "provided string was not `true` or `false`"
    );
    assert_eq!(
        ConfigError::NotAnOrigin.message(),
        "FRONTEND_ORIGIN must be an HTTP(S) origin without a path or trailing slash"
    );
}

#[test]
fn settings_default_to_local_frontend_and_secure_cookies() {
    let config = Config::from_env(None, None).unwrap();
    assert_eq!(config.allowed_origin(), "http://localhost:3000");
    assert!(config.cookie_secure());
    let config =
        Config::from_env(Some("https://app.example".to_owned()), Some("false".to_owned()))
            .unwrap();
    assert_eq!(config.allowed_origin(), "https://app.example");
    assert!(!config.cookie_secure());
}

#[test]
fn cookie_flag_must_be_a_boolean() {
    for flag in ["yes", "TRUE", "1", ""] {
        assert_eq!(
            Config::from_env(None, Some(flag.to_owned())).unwrap_err(),
            ConfigError::InvalidCookieSecure
        );
    }
    // The flag is read before the origin.
    assert_eq!(
        Config::from_env(Some("*".to_owned()), Some("no".to_owned())).unwrap_err(),
        ConfigError::InvalidCookieSecure
    );
    assert_eq!(
        Config::from_env(Some("*".to_owned()), None).unwrap_err(),
        ConfigError::NotAnOrigin
    );
}
