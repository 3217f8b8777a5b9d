use okx_rest::error::{ErrorKind, ExchangeError};
use okx_rest::text::{decimal_text, str_equal};

#[test]
fn decimal_text_writes_numerals() {
    assert_eq!(decimal_text(0), "0");
    assert_eq!(decimal_text(7), "7");
    assert_eq!(decimal_text(10), "10");
    assert_eq!(decimal_text(99), "99");
    assert_eq!(decimal_text(100), "100");
    assert_eq!(decimal_text(401), "401");
    assert_eq!(decimal_text(1009), "1009");
    assert_eq!(decimal_text(65535), "65535");
}

#[test]
fn decimal_text_agrees_with_std() {
    for number in 0..=u16::MAX {
        assert_eq!(decimal_text(number), number.to_string());
    }
}

#[test]
fn str_equal_compares_the_characters() {
    assert!(str_equal("", ""));
    assert!(str_equal("POST", "POST"));
    assert!(!str_equal("POST", "post"));
    assert!(!str_equal("POST", "POS"));
    assert!(!str_equal("POS", "POST"));
    assert!(!str_equal("", "a"));
    assert!(str_equal("caf\u{e9}", "caf\u{e9}"));
    assert!(!str_equal("caf\u{e9}", "cafe"));
    assert!(!str_equal("\u{e9}", "\u{e8}"));
}

#[test]
fn error_kinds_follow_the_variants() {
    assert_eq!(ExchangeError::Configuration { field: "key".to_string() }.kind(), ErrorKind::Configuration);
    assert_eq!(
        ExchangeError::Api { method: "GET".to_string(), status: 500, body: String::new() }.kind(),
        ErrorKind::Api
    );
    assert_eq!(
        ExchangeError::Deserialization { detail: "eof".to_string() }.kind(),
        ErrorKind::Deserialization
    );
    assert_eq!(ExchangeError::NotFound { field: "data".to_string() }.kind(), ErrorKind::NotFound);
    assert_eq!(ExchangeError::Shape { field: "data".to_string() }.kind(), ErrorKind::Shape);
}

#[test]
fn error_messages_are_exact() {
    assert_eq!(
        ExchangeError::Configuration { field: "passphrase".to_string() }.message(),
        "missing configuration value: passphrase"
    );
    assert_eq!(
        ExchangeError::Api { method: "POST".to_string(), status: 503, body: "busy".to_string() }.message(),
        "POST request failed with status: 503 and body: busy"
    );
    assert_eq!(
        ExchangeError::Api { method: String::new(), status: 0, body: String::new() }.message(),
        " request failed with status: 0 and body: "
    );
    assert_eq!(
        ExchangeError::Deserialization { detail: "expected value".to_string() }.message(),
        "failed to read the response: expected value"
    );
    assert_eq!(
        ExchangeError::NotFound { field: "data".to_string() }.message(),
        "No data field found in the response."
    );
    assert_eq!(
        ExchangeError::Shape { field: "data".to_string() }.message(),
        "The data field is not an array."
    );
}
