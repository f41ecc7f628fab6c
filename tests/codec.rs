use alipan::codec::{decode_token, encode_token};
use alipan::token::AccessToken;

fn token(access: &str, kind: &str, expires_in: i64, refresh: &str, created_at: i64) -> AccessToken {
    AccessToken {
        access_token: access.to_string(),
        token_type: kind.to_string(),
        expires_in,
        refresh_token: refresh.to_string(),
        created_at,
    }
}

fn same(a: &AccessToken, b: &AccessToken) -> bool {
    a.access_token == b.access_token
        && a.token_type == b.token_type
        && a.expires_in == b.expires_in
        && a.refresh_token == b.refresh_token
        && a.created_at == b.created_at
}

#[test]
fn token_text_is_a_json_object() {
    let t = token("at", "Bearer", 7200, "rt", 1700000000);
    assert_eq!(
        encode_token(&t),
        r#"{"access_token":"at","token_type":"Bearer","expires_in":7200,"refresh_token":"rt","created_at":1700000000}"#
    );
}

#[test]
fn token_round_trips() {
    let cases = [
        token("at", "Bearer", 7200, "rt", 1700000000),
        token("", "", 0, "", 0),
        token("a\"b\\c", "tab\there", -5, "line\nbreak\u{1}\u{1f}", -1),
        token("ünïcødé ✓", "Bearer", i64::MAX, "雲", i64::MIN),
    ];
    for t in cases.iter() {
        let text = encode_token(t);
        let back = decode_token(&text).expect("stored text reads back");
        assert!(same(&back, t), "{}", text);
    }
}

#[test]
fn special_characters_are_escaped() {
    let t = token("q\"b\\c\u{1}", "x", 1, "y", 2);
    let text = encode_token(&t);
    assert!(text.starts_with(r#"{"access_token":"q\"b\\c\u0001","#), "{}", text);
    let parsed: serde_json::Value = serde_json::from_str(&text).unwrap();
    assert_eq!(parsed["access_token"].as_str(), Some("q\"b\\c\u{1}"));
    assert_eq!(parsed["created_at"].as_i64(), Some(2));
}

#[test]
fn malformed_text_is_refused() {
    assert!(decode_token("").is_none());
    assert!(decode_token("{}").is_none());
    let good = r#"{"access_token":"a","token_type":"b","expires_in":1,"refresh_token":"c","created_at":2}"#;
    assert!(decode_token(good).is_some());
    assert!(decode_token(&format!("{} ", good)).is_none());
    assert!(decode_token(&good.replace("\"expires_in\":1", "\"expires_in\":")).is_none());
    assert!(decode_token(&good.replace("\"expires_in\":1", "\"expires_in\":12345678901234567890")).is_none());
    assert!(decode_token(&good.replace("\"expires_in\":1", "\"expires_in\":9223372036854775808")).is_none());
    assert!(decode_token(&good.replace("\"a\"", "\"a")).is_none());
}

#[test]
fn escapes_decode() {
    let text = r#"{"access_token":"\u001F\u0000","token_type":"\"","expires_in":-9223372036854775808,"refresh_token":"\\","created_at":0}"#;
    let t = decode_token(text).unwrap();
    assert_eq!(t.access_token, "\u{1f}\u{0}");
    assert_eq!(t.token_type, "\"");
    assert_eq!(t.expires_in, i64::MIN);
    assert_eq!(t.refresh_token, "\\");
}

#[test]
fn short_escapes_decode() {
    let t = token("line\nbreak\ttab\r\u{8}\u{c}/", "Bearer", 1, "r", 2);
    let text = r#"{"access_token":"line\nbreak\ttab\r\b\f\/","token_type":"Bearer","expires_in":1,"refresh_token":"r","created_at":2}"#;
    let back = decode_token(text).unwrap();
    assert!(same(&back, &t));
    assert!(decode_token(&text.replace("\\/", "\\u002F")).is_none());
}
