use okx_rest::query::build_query_string;
use okx_rest::string_map::StringMap;

fn query_params(pairs: &[(&str, &str)]) -> StringMap {
    let mut params = StringMap::new();
    for (name, value) in pairs {
        params.insert(name.to_string(), value.to_string());
    }
    params
}

fn decoded(query: &str) -> Vec<(String, String)> {
    url::form_urlencoded::parse(query[1..].as_bytes()).into_owned().collect()
}

#[test]
fn query_string_is_empty_without_parameters() {
    assert_eq!(build_query_string(None), "");
}

#[test]
fn query_string_of_no_entries_is_a_question_mark() {
    assert_eq!(build_query_string(Some(&StringMap::new())), "?");
}

#[test]
fn query_string_of_one_parameter() {
    assert_eq!(build_query_string(Some(&query_params(&[("ccy", "BTC")]))), "?ccy=BTC");
}

#[test]
fn query_string_keeps_insertion_order() {
    let params = query_params(&[("sz", "0.01"), ("instId", "BTC-USDT"), ("a", "1")]);
    assert_eq!(build_query_string(Some(&params)), "?sz=0.01&instId=BTC-USDT&a=1");
    let other = query_params(&[("a", "1"), ("instId", "BTC-USDT"), ("sz", "0.01")]);
    assert_eq!(build_query_string(Some(&other)), "?a=1&instId=BTC-USDT&sz=0.01");
}

#[test]
fn query_string_escapes_reserved_bytes() {
    let params = query_params(&[("foo", "bar & baz"), ("saison", "\u{c9}t\u{e9}+hiver")]);
    assert_eq!(
        build_query_string(Some(&params)),
        "?foo=bar+%26+baz&saison=%C3%89t%C3%A9%2Bhiver"
    );
}

#[test]
fn query_string_escapes_names_too() {
    let params = query_params(&[("a b", "c=d&e"), ("", ""), ("k", "100%")]);
    assert_eq!(build_query_string(Some(&params)), "?a+b=c%3Dd%26e&=&k=100%25");
}

#[test]
fn query_string_leaves_unreserved_bytes() {
    let params = query_params(&[("u", "*-._09AZaz")]);
    assert_eq!(build_query_string(Some(&params)), "?u=*-._09AZaz");
}

#[test]
fn query_string_uses_upper_case_hex() {
    let params = query_params(&[("t", "~/:\u{7f}\n")]);
    assert_eq!(build_query_string(Some(&params)), "?t=%7E%2F%3A%7F%0A");
}

#[test]
fn query_string_escapes_four_byte_characters() {
    let params = query_params(&[("e", "\u{1f600}")]);
    assert_eq!(build_query_string(Some(&params)), "?e=%F0%9F%98%80");
}

#[test]
fn query_string_round_trip() {
    let pairs = [
        ("instId", "BTC-USDT"),
        ("note", "a=b&c d+e%f"),
        ("", ""),
        ("sp ace", "\u{e9}\u{4e2d}\u{1f600}"),
        ("empty", ""),
        ("%41", "+"),
    ];
    let query = build_query_string(Some(&query_params(&pairs)));
    let back = decoded(&query);
    assert_eq!(back.len(), pairs.len());
    for (at, (name, value)) in pairs.iter().enumerate() {
        assert_eq!(back[at].0, *name);
        assert_eq!(back[at].1, *value);
    }
}

#[test]
fn query_string_round_trip_in_either_order() {
    let forward = query_params(&[("a", "1"), ("b", "2")]);
    let backward = query_params(&[("b", "2"), ("a", "1")]);
    let first = decoded(&build_query_string(Some(&forward)));
    let second = decoded(&build_query_string(Some(&backward)));
    assert_eq!(first, vec![("a".to_string(), "1".to_string()), ("b".to_string(), "2".to_string())]);
    assert_eq!(second, vec![("b".to_string(), "2".to_string()), ("a".to_string(), "1".to_string())]);
}

#[test]
fn query_string_round_trip_of_every_byte() {
    let mut value = String::new();
    for code in 0u32..0x250 {
        if let Some(c) = char::from_u32(code) {
            value.push(c);
        }
    }
    let query = build_query_string(Some(&query_params(&[("all", &value)])));
    assert!(query.is_ascii());
    let back = decoded(&query);
    assert_eq!(back, vec![("all".to_string(), value)]);
}
