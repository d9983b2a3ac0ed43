use forum_backend::config::{
    parse_number, Config, ConfigError, DEFAULT_MAX_UPLOAD_SIZE, DEFAULT_PORT,
};

fn some(text: &str) -> Option<String> {
    Some(text.to_string())
}

#[test]
fn defaults_are_port_8000_and_20_mib() {
    assert_eq!(DEFAULT_PORT, 8000);
    assert_eq!(DEFAULT_MAX_UPLOAD_SIZE, 20 * 1024 * 1024);
}

#[test]
fn numbers_are_read_in_base_ten() {
    assert_eq!(parse_number("0", 10), Some(0));
    assert_eq!(parse_number("8000", 65535), Some(8000));
    assert_eq!(parse_number("0080", 65535), Some(80));
    assert_eq!(parse_number("+80", 65535), Some(80));
    assert_eq!(parse_number("65535", 65535), Some(65535));
    assert_eq!(parse_number("18446744073709551615", u64::MAX), Some(u64::MAX));
}

#[test]
fn what_is_no_number_in_range_is_refused() {
    assert_eq!(parse_number("", 65535), None);
    assert_eq!(parse_number("+", 65535), None);
    assert_eq!(parse_number("++1", 65535), None);
    assert_eq!(parse_number("-1", 65535), None);
    assert_eq!(parse_number(" 80", 65535), None);
    assert_eq!(parse_number("80 ", 65535), None);
    assert_eq!(parse_number("8o", 65535), None);
    assert_eq!(parse_number("8_000", 65535), None);
    assert_eq!(parse_number("\u{664}\u{662}", 65535), None);
    assert_eq!(parse_number("65536", 65535), None);
    assert_eq!(parse_number("18446744073709551616", u64::MAX), None);
    assert_eq!(parse_number("99999999999999999999999999999999", u64::MAX), None);
    assert_eq!(parse_number("1", 0), None);
}

#[test]
fn numbers_are_read_as_the_standard_library_reads_them() {
    let samples = [
        "", "0", "1", "+1", "-1", "+", "007", "8000", "65535", "65536", "99999", "1e3", "0x10", " 1",
        "1 ", "+0", "-0", "12a", "a12", "4294967296",
    ];
    for text in samples {
        assert_eq!(
            parse_number(text, u16::MAX as u64),
            text.parse::<u16>().ok().map(u64::from),
            "text {:?}",
            text
        );
        assert_eq!(parse_number(text, u64::MAX), text.parse::<u64>().ok(), "text {:?}", text);
    }
}

#[test]
fn settings_that_are_all_there_are_taken_as_they_are() {
    let config = Config::from_values(
        some("postgres://localhost/forum"),
        some("s3cret"),
        some("9090"),
        some("http://localhost:3000"),
        some("1048576"),
    );
    assert_eq!(
        config,
        Ok(Config {
            database_url: "postgres://localhost/forum".to_string(),
            jwt_secret: "s3cret".to_string(),
            port: 9090,
            frontend_url: "http://localhost:3000".to_string(),
            max_upload_size: 1048576,
        })
    );
}

#[test]
fn port_and_upload_limit_have_defaults() {
    let config = Config::from_values(some("db"), some("secret"), None, some("front"), None).unwrap();
    assert_eq!(config.port, 8000);
    assert_eq!(config.max_upload_size, 20971520);
}

#[test]
fn missing_secret_stops_the_start() {
    assert_eq!(
        Config::from_values(some("db"), None, None, some("front"), None),
        Err(ConfigError::MissingJwtSecret)
    );
}

#[test]
fn first_setting_at_fault_is_reported() {
    assert_eq!(
        Config::from_values(None, None, some("x"), None, some("y")),
        Err(ConfigError::MissingDatabaseUrl)
    );
    assert_eq!(
        Config::from_values(some("db"), None, some("x"), None, some("y")),
        Err(ConfigError::MissingJwtSecret)
    );
    assert_eq!(
        Config::from_values(some("db"), some("s"), some("x"), None, some("y")),
        Err(ConfigError::InvalidPort)
    );
    assert_eq!(
        Config::from_values(some("db"), some("s"), some("80"), None, some("y")),
        Err(ConfigError::MissingFrontendUrl)
    );
    assert_eq!(
        Config::from_values(some("db"), some("s"), some("80"), some("f"), some("y")),
        Err(ConfigError::InvalidMaxUploadSize)
    );
    assert_eq!(
        Config::from_values(some("db"), some("s"), some("65536"), some("f"), None),
        Err(ConfigError::InvalidPort)
    );
}

#[test]
fn configuration_errors_have_their_texts() {
    assert_eq!(ConfigError::MissingDatabaseUrl.message(), "DATABASE_URL must be set");
    assert_eq!(ConfigError::MissingJwtSecret.message(), "JWT_SECRET must be set");
    assert_eq!(ConfigError::InvalidPort.message(), "PORT must be a number");
    assert_eq!(ConfigError::MissingFrontendUrl.message(), "FRONTEND_URL must be set");
    assert_eq!(ConfigError::InvalidMaxUploadSize.message(), "MAX_UPLOAD_SIZE must be a number");
}
