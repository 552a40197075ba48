use config_sdk::ConfigError;
use config_sdk::Frame;
use config_sdk::chunk_to_chars;
use config_sdk::classify_frame;
use config_sdk::decode_config;
use config_sdk::trim_chars;

fn chars_of(s: &str) -> Vec<char> {
    s.chars().collect()
}

fn entries(pairs: &[(&str, &str)]) -> Vec<(String, String)> {
    pairs.iter().map(|(k, v)| (k.to_string(), v.to_string())).collect()
}

#[test]
fn decode_is_deterministic() {
    let payload = chars_of("{\"settings\":{\"a\":1,\"b\":\"x\"}}");
    let c1 = decode_config(&payload).expect("payload decodes");
    let c2 = decode_config(&payload).expect("payload decodes");
    assert_eq!(c1.settings, c2.settings);
    assert_eq!(c1.settings, entries(&[("a", "1"), ("b", "\"x\"")]));
}

#[test]
fn decode_keeps_nested_values_as_json_text() {
    let payload = chars_of("{\"settings\":{\"flag\":true,\"obj\":{\"c\":3},\"arr\":[1,2]}}");
    let c = decode_config(&payload).expect("payload decodes");
    assert_eq!(
        c.settings,
        entries(&[("arr", "[1,2]"), ("flag", "true"), ("obj", "{\"c\":3}")])
    );
}

#[test]
fn decode_empty_settings() {
    let payload = chars_of("{\"settings\":{}}");
    let c = decode_config(&payload).expect("payload decodes");
    assert_eq!(c.settings, Vec::<(String, String)>::new());
}

#[test]
fn decode_rejects_malformed_json() {
    let payload = chars_of("not json at all");
    let r = decode_config(&payload);
    assert!(matches!(r, Err(ConfigError::JsonParse(_))));
}

#[test]
fn decode_rejects_wrong_shape() {
    assert!(matches!(
        decode_config(&chars_of("{\"other\":1}")),
        Err(ConfigError::JsonParse(_))
    ));
    assert!(matches!(
        decode_config(&chars_of("{\"settings\":[1,2]}")),
        Err(ConfigError::JsonParse(_))
    ));
    assert!(matches!(
        decode_config(&chars_of("[1,2,3]")),
        Err(ConfigError::JsonParse(_))
    ));
}

#[test]
fn classify_data_frame_trims_payload() {
    let r = classify_frame(&chars_of("data: {\"settings\":{}} \n\n"));
    match r {
        Frame::Data(p) => assert_eq!(p, chars_of("{\"settings\":{}}")),
        _ => panic!("expected a data frame"),
    }
}

#[test]
fn classify_comment_and_anomalous() {
    assert!(matches!(classify_frame(&chars_of(": keep-alive")), Frame::Comment));
    assert!(matches!(classify_frame(&chars_of("")), Frame::Comment));
    assert!(matches!(classify_frame(&chars_of("   \n")), Frame::Comment));
    assert!(matches!(classify_frame(&chars_of("hello world")), Frame::Anomalous));
    assert!(matches!(classify_frame(&chars_of("data:{\"x\":1}")), Frame::Anomalous));
}

#[test]
fn trim_removes_surrounding_whitespace_only() {
    assert_eq!(trim_chars(&chars_of("  a b \t\n")), chars_of("a b"));
    assert_eq!(trim_chars(&chars_of("ab")), chars_of("ab"));
    assert_eq!(trim_chars(&chars_of(" \u{a0} ")), Vec::<char>::new());
}

#[test]
fn utf8_decoding_is_per_chunk() {
    assert_eq!(chunk_to_chars(&"h\u{e9}llo".as_bytes().to_vec()), Some(chars_of("h\u{e9}llo")));
    assert_eq!(chunk_to_chars(&vec![0xff, 0xfe, 0x20]), None);
}
