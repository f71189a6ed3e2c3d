use quotes::server::{
    listen_address, DEFAULT_PORT, LISTEN_HOST, MAX_REQUEST_BODY_BYTES, REQUEST_TIMEOUT_SECS,
    SERVER_HEADER,
};
use quotes::utils::connection::{
    Compressor, ConfigError, DatabaseConfig, Variable, COLLECTION_NAME, DATABASE_NAME,
};
use quotes::utils::decimal::{parse_u32, parse_u64};

fn s(text: &str) -> Option<String> {
    Some(text.to_string())
}

/// Looks for a fault first, as a caller has to, and builds the
/// configuration only where there is none.
fn configure(
    uri: Option<String>,
    timeout: Option<String>,
    min: Option<String>,
    max: Option<String>,
) -> Result<DatabaseConfig, ConfigError> {
    match DatabaseConfig::find_fault(&uri, &timeout, &min, &max) {
        Some(fault) => Err(fault),
        None => Ok(DatabaseConfig::new(uri, timeout, min, max)),
    }
}

#[test]
fn config_from_complete_settings() {
    let (uri, timeout, min, max) = (s("mongodb://localhost:27017"), s("5"), s("2"), s("10"));
    assert_eq!(DatabaseConfig::find_fault(&uri, &timeout, &min, &max), None);
    assert_eq!(
        DatabaseConfig::new(uri, timeout, min, max),
        DatabaseConfig {
            uri: "mongodb://localhost:27017".to_string(),
            connection_timeout: Some(5),
            min_pool_size: Some(2),
            max_pool_size: Some(10),
            compressors: Some(vec![
                Compressor::Snappy,
                Compressor::Zlib { level: None },
                Compressor::Zstd { level: None },
            ]),
        }
    );
}

#[test]
fn config_takes_the_uri_as_it_is() {
    let config = configure(s("not a uri at all"), s("0"), s("0"), s("0")).unwrap();
    assert_eq!(config.uri, "not a uri at all");
    assert_eq!(config.connection_timeout, Some(0));
    assert_eq!(config.min_pool_size, Some(0));
    assert_eq!(config.max_pool_size, Some(0));
}

#[test]
fn config_does_not_order_the_pool_sizes() {
    let config = configure(s("u"), s("1"), s("9"), s("3")).unwrap();
    assert_eq!(config.min_pool_size, Some(9));
    assert_eq!(config.max_pool_size, Some(3));
}

#[test]
fn config_takes_the_largest_numbers() {
    let config =
        configure(s("u"), s("18446744073709551615"), s("4294967295"), s("+4294967295")).unwrap();
    assert_eq!(config.connection_timeout, Some(u64::MAX));
    assert_eq!(config.min_pool_size, Some(u32::MAX));
    assert_eq!(config.max_pool_size, Some(u32::MAX));
}

#[test]
fn config_missing_uri() {
    assert_eq!(
        configure(None, s("5"), s("2"), s("10")),
        Err(ConfigError::Missing(Variable::MongoUri))
    );
}

#[test]
fn config_missing_timeout() {
    assert_eq!(
        configure(s("u"), None, s("2"), s("10")),
        Err(ConfigError::Missing(Variable::MongoConnectionTimeout))
    );
}

#[test]
fn config_invalid_timeout() {
    for bad in
        ["", "abc", "five", "-1", "5s", " 5", "5 ", "18446744073709551616", "1_000", "+", "0x10"]
    {
        assert_eq!(
            configure(s("mongodb://localhost:27017"), s(bad), s("2"), s("10")),
            Err(ConfigError::Invalid(Variable::MongoConnectionTimeout)),
            "{bad:?}"
        );
    }
}

#[test]
fn config_missing_min_pool_size() {
    assert_eq!(
        configure(s("u"), s("5"), None, s("10")),
        Err(ConfigError::Missing(Variable::MongoMinPoolSize))
    );
}

#[test]
fn config_invalid_min_pool_size() {
    for bad in ["-1", "4294967296", "two", ""] {
        assert_eq!(
            configure(s("mongodb://localhost:27017"), s("5"), s(bad), s("10")),
            Err(ConfigError::Invalid(Variable::MongoMinPoolSize)),
            "{bad:?}"
        );
    }
}

#[test]
fn config_missing_max_pool_size() {
    assert_eq!(
        configure(s("u"), s("5"), s("2"), None),
        Err(ConfigError::Missing(Variable::MongoMaxPoolSize))
    );
}

#[test]
fn config_invalid_max_pool_size() {
    for bad in ["4294967296", "-10", "ten", ""] {
        assert_eq!(
            configure(s("mongodb://localhost:27017"), s("5"), s("2"), s(bad)),
            Err(ConfigError::Invalid(Variable::MongoMaxPoolSize)),
            "{bad:?}"
        );
    }
}

#[test]
fn config_reports_the_first_fault() {
    assert_eq!(configure(None, None, None, None), Err(ConfigError::Missing(Variable::MongoUri)));
    assert_eq!(
        configure(s("u"), s("x"), None, s("y")),
        Err(ConfigError::Invalid(Variable::MongoConnectionTimeout))
    );
    assert_eq!(
        configure(s("u"), s("1"), s("x"), None),
        Err(ConfigError::Invalid(Variable::MongoMinPoolSize))
    );
    assert_eq!(
        configure(s("u"), s("1"), None, s("x")),
        Err(ConfigError::Missing(Variable::MongoMinPoolSize))
    );
}

#[test]
fn variables_have_their_names() {
    assert_eq!(Variable::MongoUri.name(), "MONGO_URI");
    assert_eq!(Variable::MongoConnectionTimeout.name(), "MONGO_CONNECTION_TIMEOUT");
    assert_eq!(Variable::MongoMinPoolSize.name(), "MONGO_MIN_POOL_SIZE");
    assert_eq!(Variable::MongoMaxPoolSize.name(), "MONGO_MAX_POOL_SIZE");
    assert_eq!(ConfigError::Missing(Variable::MongoUri).variable(), Variable::MongoUri);
    assert_eq!(
        ConfigError::Invalid(Variable::MongoMaxPoolSize).variable(),
        Variable::MongoMaxPoolSize
    );
}

#[test]
fn decimal_agrees_with_the_standard_library() {
    let texts = [
        "", "0", "7", "42", "007", "+7", "+0", "+", "++7", "-7", "-0", "7+", "4 2", " 42", "42 ",
        "4_2", "4.2", "0x2a", "٤٢", "9", "10", "4294967295", "4294967296", "04294967295",
        "18446744073709551615", "18446744073709551616", "018446744073709551615",
        "99999999999999999999", "184467440737095516150", "1e3", "a", "/", ":",
    ];
    for text in texts {
        assert_eq!(parse_u64(text), text.parse::<u64>().ok(), "{text:?}");
        assert_eq!(parse_u32(text), text.parse::<u32>().ok(), "{text:?}");
    }
}

#[test]
fn decimal_exact_values() {
    assert_eq!(parse_u64("1234567890"), Some(1_234_567_890));
    assert_eq!(parse_u64("+18446744073709551615"), Some(u64::MAX));
    assert_eq!(parse_u64("18446744073709551616"), None);
    assert_eq!(parse_u32("4294967295"), Some(u32::MAX));
    assert_eq!(parse_u32("4294967296"), None);
    assert_eq!(parse_u32("000"), Some(0));
}

#[test]
fn names_of_the_database_and_the_collection() {
    assert_eq!(DATABASE_NAME, "vinod");
    assert_eq!(COLLECTION_NAME, "quotes");
}

#[test]
fn server_settings() {
    assert_eq!(REQUEST_TIMEOUT_SECS, 10);
    assert_eq!(MAX_REQUEST_BODY_BYTES, 1024);
    assert_eq!(SERVER_HEADER, "rust-axum");
    assert_eq!(DEFAULT_PORT, "3000");
    assert_eq!(LISTEN_HOST, "0.0.0.0");
}

#[test]
fn listen_address_defaults_to_port_3000() {
    assert_eq!(listen_address(None), "0.0.0.0:3000");
}

#[test]
fn listen_address_takes_the_port_given() {
    assert_eq!(listen_address(Some("8080".to_string())), "0.0.0.0:8080");
    assert_eq!(listen_address(Some(String::new())), "0.0.0.0:");
    assert_eq!(listen_address(Some("http".to_string())), "0.0.0.0:http");
}
