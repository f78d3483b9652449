use longtime::config::Config;
use longtime::share::{
    decode_config_from_url, encode_config_to_url, generate_share_url, get_base_url,
    get_query_param, load_initial_config,
};

const DEFAULT_JSON: &str = "{\"timezones\":[{\"name\":\"Shanghai\",\"timezone\":\"Asia/Shanghai\",\"work_hours\":{\"start\":\"09:00\",\"end\":\"18:00\"}},{\"name\":\"London\",\"timezone\":\"Europe/London\",\"work_hours\":{\"start\":\"09:00\",\"end\":\"17:30\"}},{\"name\":\"New York\",\"timezone\":\"America/New_York\",\"work_hours\":{\"start\":\"09:00\",\"end\":\"17:00\"}}],\"use_12h_format\":false}";

#[test]
fn test_encode_decode_roundtrip() {
    let config = DEFAULT_JSON.as_bytes().to_vec();
    let encoded = encode_config_to_url(&config);
    let decoded = decode_config_from_url(&encoded);
    assert!(decoded.is_some());
    assert_eq!(decoded.unwrap(), config);
}

#[test]
fn encoding_is_url_safe_base64_without_padding() {
    assert_eq!(encode_config_to_url(b"hello"), "aGVsbG8");
    assert_eq!(encode_config_to_url(b""), "");
    assert_eq!(encode_config_to_url(&[0xfb, 0xff]), "-_8");
    assert_eq!(encode_config_to_url(&[0, 1, 2]), "AAEC");
    assert_eq!(decode_config_from_url("aGVsbG8"), Some(b"hello".to_vec()));
}

#[test]
fn round_trip_for_every_length() {
    let data: Vec<u8> = (0u8..=255).rev().collect();
    for n in 0..40 {
        let bytes = &data[..n];
        let encoded = encode_config_to_url(bytes);
        assert_eq!(decode_config_from_url(&encoded), Some(bytes.to_vec()));
    }
}

#[test]
fn decoding_rejects_what_no_encoding_gives() {
    assert_eq!(decode_config_from_url("aGVsbG8="), None);
    assert_eq!(decode_config_from_url("aGVsbG9"), None);
    assert_eq!(decode_config_from_url("a"), None);
    assert_eq!(decode_config_from_url("ab+c"), None);
    assert_eq!(decode_config_from_url("é"), None);
}

#[test]
fn base_url_drops_the_query() {
    assert_eq!(get_base_url("https://example.org/app?config=abc&x=1"), "https://example.org/app");
    assert_eq!(get_base_url("https://example.org/app"), "https://example.org/app");
    assert_eq!(get_base_url("?a"), "");
    assert_eq!(get_base_url(""), "");
}

#[test]
fn share_url_carries_the_encoded_config() {
    let url = generate_share_url("https://example.org/app?config=old", b"hello");
    assert_eq!(url, "https://example.org/app?config=aGVsbG8");
    let url = generate_share_url("http://localhost:3000/", DEFAULT_JSON.as_bytes());
    let param = get_query_param("?config=".to_string().as_str(), "config");
    assert_eq!(param, Some(String::new()));
    let search = &url[url.find('?').unwrap()..];
    let encoded = get_query_param(search, "config").unwrap();
    assert_eq!(decode_config_from_url(&encoded), Some(DEFAULT_JSON.as_bytes().to_vec()));
}

#[test]
fn query_parameters() {
    assert_eq!(get_query_param("?config=abc&x=1", "config"), Some("abc".to_string()));
    assert_eq!(get_query_param("?x=1&config=abc", "config"), Some("abc".to_string()));
    assert_eq!(get_query_param("??config=a=b", "config"), Some("a=b".to_string()));
    assert_eq!(get_query_param("config&config=2", "config"), Some("2".to_string()));
    assert_eq!(get_query_param("?config=1&config=2", "config"), Some("1".to_string()));
    assert_eq!(get_query_param("?configx=1", "config"), None);
    assert_eq!(get_query_param("", "config"), None);
    assert_eq!(get_query_param("?x=1&", "config"), None);
}

#[test]
fn initial_config_precedence() {
    let mut from_link = Config::default();
    from_link.use_12h_format = true;
    let mut stored = Config::default();
    stored.timezones.truncate(1);
    assert_eq!(
        load_initial_config(Some(from_link.clone()), Some(stored.clone())),
        from_link
    );
    assert_eq!(load_initial_config(None, Some(stored.clone())), stored);
    assert_eq!(load_initial_config(None, None), Config::default());
}
