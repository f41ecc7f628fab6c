use alipan::error::{AlipanError, ErrorInfo};

#[test]
fn structured_error_body_is_a_server_error() {
    let body = r#"{"code":"InvalidParameter.DriveId","message":"drive_id is invalid","requestId":"abc"}"#;
    let e = AlipanError::server(400, body);
    match e.inner {
        ErrorInfo::ServerError(s) => {
            assert_eq!(s.code, "InvalidParameter.DriveId");
            assert_eq!(s.message, "drive_id is invalid");
            assert_eq!(s.request_id, "abc");
        }
        other => panic!("expected a server error, got {:?}", other),
    }
}

#[test]
fn unstructured_error_body_gives_a_generic_message() {
    let e = AlipanError::server(502, "Bad Gateway");
    match e.inner {
        ErrorInfo::Msg(text) => assert_eq!(text, "server error: code: 502, content: Bad Gateway"),
        other => panic!("expected a generic message, got {:?}", other),
    }
    let e = AlipanError::server(400, r#"{"code":"X","message":"m"}"#);
    assert!(matches!(e.inner, ErrorInfo::Msg(ref t) if t == r#"server error: code: 400, content: {"code":"X","message":"m"}"#));
    let e = AlipanError::server(7, r#"{"code":1,"message":"m","requestId":"r"}"#);
    assert!(matches!(e.inner, ErrorInfo::Msg(ref t) if t.starts_with("server error: code: 7, content: ")));
}

#[test]
fn members_make_a_server_error_only_when_all_are_there() {
    let e = AlipanError::from_server_members(400, "body", Some("c".into()), Some("m".into()), Some("r".into()));
    assert!(matches!(e.inner, ErrorInfo::ServerError(ref s) if s.code == "c" && s.request_id == "r"));
    let e = AlipanError::from_server_members(401, "body", Some("c".into()), None, Some("r".into()));
    assert!(matches!(e.inner, ErrorInfo::Msg(ref t) if t == "server error: code: 401, content: body"));
}

#[test]
fn missing_parameter_names_the_field() {
    let e = AlipanError::require_param_missing("drive_id");
    assert!(matches!(e.inner, ErrorInfo::MissingParameter(ref n) if n == "drive_id"));
    assert!(matches!(AlipanError::msg("x".to_string()).inner, ErrorInfo::Msg(ref m) if m == "x"));
}
