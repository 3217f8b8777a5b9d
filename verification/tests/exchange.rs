use okx_rest::error::{ErrorKind, ExchangeError};
use okx_rest::exchanges::okx::{build_body_string, OkxExchange};
use okx_rest::json::write_json_object;
use okx_rest::string_map::StringMap;

const AT: &str = "2024-01-02T03:04:05.678Z";

fn entries(pairs: &[(&str, &str)]) -> StringMap {
    let mut map = StringMap::new();
    for (key, value) in pairs {
        map.insert(key.to_string(), value.to_string());
    }
    map
}

fn owned(pairs: &[(&str, &str)]) -> Vec<(String, String)> {
    pairs.iter().map(|(key, value)| (key.to_string(), value.to_string())).collect()
}

fn live() -> OkxExchange {
    OkxExchange::new(&entries(&[("key", "my-key"), ("secret", "topsecret"), ("passphrase", "my-pass")]))
        .unwrap()
}

fn sandbox() -> OkxExchange {
    OkxExchange::new(&entries(&[
        ("key", "my-key"),
        ("secret", "topsecret"),
        ("passphrase", "my-pass"),
        ("is_demo", "true"),
    ]))
    .unwrap()
}

fn demo_flag(value: &str) -> bool {
    OkxExchange::new(&entries(&[("key", "k"), ("secret", "s"), ("passphrase", "p"), ("is_demo", value)]))
        .unwrap()
        .is_demo()
}

#[test]
fn new_reads_the_credentials() {
    let exchange = sandbox();
    assert_eq!(exchange.key(), "my-key");
    assert_eq!(exchange.passphrase(), "my-pass");
    assert_eq!(exchange.base_url(), "https://www.okx.com");
    assert!(exchange.is_demo());
}

#[test]
fn new_defaults_to_the_live_environment() {
    assert!(!live().is_demo());
}

#[test]
fn new_takes_only_true_for_the_sandbox() {
    assert!(demo_flag("true"));
    assert!(!demo_flag("false"));
    assert!(!demo_flag("TRUE"));
    assert!(!demo_flag("True"));
    assert!(!demo_flag("1"));
    assert!(!demo_flag("yes"));
    assert!(!demo_flag(""));
    assert!(!demo_flag(" true"));
}

#[test]
fn new_ignores_other_values() {
    let exchange = OkxExchange::new(&entries(&[
        ("extra", "x"),
        ("passphrase", "p"),
        ("secret", "s"),
        ("key", "k"),
    ]))
    .unwrap();
    assert_eq!(exchange.key(), "k");
    assert_eq!(exchange.passphrase(), "p");
}

#[test]
fn new_accepts_empty_credentials() {
    let exchange = OkxExchange::new(&entries(&[("key", ""), ("secret", ""), ("passphrase", "")])).unwrap();
    assert_eq!(exchange.key(), "");
    assert_eq!(
        exchange.sign_at("", "", "", "", ""),
        "thNnmggU2ex3L5XXeMNfxf8Wl8STcVZTxscSFEKSxa0="
    );
}

#[test]
fn new_fails_without_the_key() {
    let error = OkxExchange::new(&entries(&[("secret", "s"), ("passphrase", "p")])).err().unwrap();
    assert_eq!(error, ExchangeError::Configuration { field: "key".to_string() });
    assert_eq!(error.kind(), ErrorKind::Configuration);
    assert_eq!(error.message(), "missing configuration value: key");
}

#[test]
fn new_fails_without_the_secret() {
    let error = OkxExchange::new(&entries(&[("key", "k"), ("passphrase", "p")])).err().unwrap();
    assert_eq!(error, ExchangeError::Configuration { field: "secret".to_string() });
}

#[test]
fn new_fails_without_the_passphrase() {
    let error = OkxExchange::new(&entries(&[("key", "k"), ("secret", "s")])).err().unwrap();
    assert_eq!(error, ExchangeError::Configuration { field: "passphrase".to_string() });
}

#[test]
fn new_names_the_first_missing_value() {
    let error = OkxExchange::new(&StringMap::new()).err().unwrap();
    assert_eq!(error, ExchangeError::Configuration { field: "key".to_string() });
    let error = OkxExchange::new(&entries(&[("key", "k"), ("is_demo", "true")])).err().unwrap();
    assert_eq!(error, ExchangeError::Configuration { field: "secret".to_string() });
}

#[test]
fn configuration_error_does_not_hold_the_secret() {
    let error = OkxExchange::new(&entries(&[("key", "k"), ("secret", "hunter2")])).err().unwrap();
    assert!(!error.message().contains("hunter2"));
    assert!(!format!("{:?}", error).contains("hunter2"));
}

#[test]
fn live_headers_are_exactly_five() {
    let headers = live().get_headers("c2lnbg==", AT);
    assert_eq!(
        headers.as_pairs(),
        &owned(&[
            ("Content-Type", "application/json"),
            ("OK-ACCESS-KEY", "my-key"),
            ("OK-ACCESS-SIGN", "c2lnbg=="),
            ("OK-ACCESS-TIMESTAMP", AT),
            ("OK-ACCESS-PASSPHRASE", "my-pass"),
        ])
    );
    assert_eq!(headers.len(), 5);
    assert!(!headers.contains_key("x-simulated-trading"));
    assert_eq!(headers.get("x-simulated-trading"), None);
}

#[test]
fn sandbox_headers_add_simulated_trading() {
    let headers = sandbox().get_headers("c2lnbg==", AT);
    assert_eq!(
        headers.as_pairs(),
        &owned(&[
            ("Content-Type", "application/json"),
            ("OK-ACCESS-KEY", "my-key"),
            ("OK-ACCESS-SIGN", "c2lnbg=="),
            ("OK-ACCESS-TIMESTAMP", AT),
            ("OK-ACCESS-PASSPHRASE", "my-pass"),
            ("x-simulated-trading", "1"),
        ])
    );
    assert_eq!(headers.len(), 6);
    assert_eq!(headers.get("x-simulated-trading"), Some(&"1".to_string()));
}

#[test]
fn unparsable_sandbox_flag_omits_the_header() {
    let exchange = OkxExchange::new(&entries(&[
        ("key", "k"),
        ("secret", "s"),
        ("passphrase", "p"),
        ("is_demo", "maybe"),
    ]))
    .unwrap();
    assert!(!exchange.get_headers("sig", AT).contains_key("x-simulated-trading"));
}

#[test]
fn headers_do_not_hold_the_secret() {
    let headers = live().get_headers("sig", AT);
    for (_, value) in headers.as_pairs() {
        assert_ne!(value, "topsecret");
    }
}

#[test]
fn body_is_written_only_for_post() {
    let params = entries(&[("instId", "BTC-USDT"), ("sz", "0.01")]);
    assert_eq!(
        build_body_string("POST", Some(&params)),
        "{\"instId\":\"BTC-USDT\",\"sz\":\"0.01\"}"
    );
    assert_eq!(build_body_string("GET", Some(&params)), "");
    assert_eq!(build_body_string("post", Some(&params)), "");
    assert_eq!(build_body_string("PUT", Some(&params)), "");
    assert_eq!(build_body_string("", Some(&params)), "");
    assert_eq!(build_body_string("POST", None), "");
    assert_eq!(build_body_string("GET", None), "");
}

#[test]
fn body_of_no_parameters_is_an_empty_object() {
    assert_eq!(build_body_string("POST", Some(&StringMap::new())), "{}");
}

#[test]
fn json_object_keeps_insertion_order() {
    let params = entries(&[("z", "1"), ("a", "2"), ("m", "3")]);
    assert_eq!(write_json_object(&params), "{\"z\":\"1\",\"a\":\"2\",\"m\":\"3\"}");
}

#[test]
fn json_object_escapes_strings() {
    let params = entries(&[("k", "a\"b\\c\n\t\u{1}\u{e9}/")]);
    assert_eq!(write_json_object(&params), "{\"k\":\"a\\\"b\\\\c\\n\\t\\u0001\u{e9}/\"}");
}

#[test]
fn get_request_puts_parameters_in_the_query() {
    let params = entries(&[("instId", "BTC-USDT"), ("sz", "0.01")]);
    let request = live().prepare_request_at(AT, "GET", "/api/v5/trade/order", Some(&params), None);
    assert_eq!(request.method, "GET");
    assert_eq!(request.url, "https://www.okx.com/api/v5/trade/order?instId=BTC-USDT&sz=0.01");
    assert_eq!(request.body, "");
    assert_eq!(request.timestamp, AT);
    assert_eq!(
        request.headers.as_pairs(),
        &owned(&[
            ("Content-Type", "application/json"),
            ("OK-ACCESS-KEY", "my-key"),
            ("OK-ACCESS-SIGN", "hked4kszi0oC+Tk5ekevcVK6cyE2osvt5M7QzUHya/A="),
            ("OK-ACCESS-TIMESTAMP", AT),
            ("OK-ACCESS-PASSPHRASE", "my-pass"),
        ])
    );
}

#[test]
fn get_request_never_has_a_body() {
    let params = entries(&[("instId", "BTC-USDT"), ("sz", "0.01")]);
    let request = live().prepare_request_at(AT, "GET", "/api/v5/trade/order", Some(&params), Some(&params));
    assert_eq!(request.body, "");
    assert_eq!(
        request.headers.get("OK-ACCESS-SIGN"),
        Some(&"hked4kszi0oC+Tk5ekevcVK6cyE2osvt5M7QzUHya/A=".to_string())
    );
}

#[test]
fn post_request_puts_parameters_in_the_body() {
    let params = entries(&[("instId", "BTC-USDT"), ("sz", "0.01")]);
    let request = live().prepare_request_at(AT, "POST", "/api/v5/trade/order", None, Some(&params));
    assert_eq!(request.method, "POST");
    assert_eq!(request.url, "https://www.okx.com/api/v5/trade/order");
    assert_eq!(request.body, "{\"instId\":\"BTC-USDT\",\"sz\":\"0.01\"}");
    assert_eq!(
        request.headers.get("OK-ACCESS-SIGN"),
        Some(&"RtRWhTMsDW8Y5/3cXjEfOBbud8YgbrVR2U7He+DMwtc=".to_string())
    );
}

#[test]
fn post_request_signs_query_and_body() {
    let params = entries(&[("instId", "BTC-USDT"), ("sz", "0.01")]);
    let request = live().prepare_request_at(AT, "POST", "/api/v5/trade/order", Some(&params), Some(&params));
    assert_eq!(request.url, "https://www.okx.com/api/v5/trade/order?instId=BTC-USDT&sz=0.01");
    assert_eq!(request.body, "{\"instId\":\"BTC-USDT\",\"sz\":\"0.01\"}");
    assert_eq!(
        request.headers.get("OK-ACCESS-SIGN"),
        Some(&"41YYy0xHmMCGhK4ZH3tCtvNjJqW9j4BY+5VFqkIovMc=".to_string())
    );
}

#[test]
fn request_without_parameters_has_no_query() {
    let request = live().prepare_request_at(AT, "GET", "/api/v5/account/balance", None, None);
    assert_eq!(request.url, "https://www.okx.com/api/v5/account/balance");
    assert_eq!(
        request.headers.get("OK-ACCESS-SIGN"),
        Some(&"NZY3RYdKNQguJdVC4d4TW1SOD1zZnYXrEpCpS/tTAbw=".to_string())
    );
}

#[test]
fn request_with_no_entries_has_a_bare_question_mark() {
    let request = live().prepare_request_at(AT, "GET", "/api/v5/account/balance", Some(&StringMap::new()), None);
    assert_eq!(request.url, "https://www.okx.com/api/v5/account/balance?");
    assert_eq!(
        request.headers.get("OK-ACCESS-SIGN"),
        Some(&"HKJO36/aedihUUMxKFgumxvqSg6P+Xbb730hwVwj/e8=".to_string())
    );
}

#[test]
fn sandbox_request_carries_the_flag() {
    let request = sandbox().prepare_request_at(AT, "GET", "/api/v5/account/balance", None, None);
    assert_eq!(request.headers.len(), 6);
    assert_eq!(request.headers.get("x-simulated-trading"), Some(&"1".to_string()));
    assert_eq!(
        request.headers.get("OK-ACCESS-SIGN"),
        Some(&"NZY3RYdKNQguJdVC4d4TW1SOD1zZnYXrEpCpS/tTAbw=".to_string())
    );
}

#[test]
fn prepared_request_is_signed_at_its_own_timestamp() {
    let exchange = live();
    let params = entries(&[("ccy", "BTC")]);
    let request = exchange.prepare_request("POST", "/api/v5/x", Some(&params), Some(&params));
    let again = exchange.prepare_request_at(&request.timestamp, "POST", "/api/v5/x", Some(&params), Some(&params));
    assert_eq!(request.url, again.url);
    assert_eq!(request.body, again.body);
    assert_eq!(request.headers.as_pairs(), again.headers.as_pairs());
    assert_eq!(request.headers.get("OK-ACCESS-TIMESTAMP"), Some(&request.timestamp));
    assert_eq!(
        request.headers.get("OK-ACCESS-SIGN"),
        Some(&exchange.sign_at(&request.timestamp, "POST", "/api/v5/x", "?ccy=BTC", "{\"ccy\":\"BTC\"}"))
    );
}

#[test]
fn balances_request_is_a_signed_get() {
    let exchange = sandbox();
    let request = exchange.balances_request();
    assert_eq!(request.method, "GET");
    assert_eq!(request.url, "https://www.okx.com/api/v5/account/balance");
    assert_eq!(request.body, "");
    assert_eq!(request.headers.len(), 6);
    assert_eq!(request.headers.get("Content-Type"), Some(&"application/json".to_string()));
    assert_eq!(request.headers.get("OK-ACCESS-KEY"), Some(&"my-key".to_string()));
    assert_eq!(request.headers.get("OK-ACCESS-PASSPHRASE"), Some(&"my-pass".to_string()));
    assert_eq!(request.headers.get("OK-ACCESS-TIMESTAMP"), Some(&request.timestamp));
    assert_eq!(
        request.headers.get("OK-ACCESS-SIGN"),
        Some(&exchange.sign_at(&request.timestamp, "GET", "/api/v5/account/balance", "", ""))
    );
}
