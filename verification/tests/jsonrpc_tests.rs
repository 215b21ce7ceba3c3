use mapradar::jsonrpc::JsonRpcError;
use mapradar::jsonrpc::JsonRpcResponse;

#[test]
fn response_constructor_pins_protocol_version() {
    let r = JsonRpcResponse::new("1".to_string(), Some("ok".to_string()), None);
    assert_eq!(r.jsonrpc, "2.0");
    assert_eq!(r.result, Some("ok".to_string()));
    assert_eq!(r.error, None);
    assert_eq!(r.id, "1".to_string());
}

#[test]
fn success_response_serializes() {
    let r = JsonRpcResponse::new("1".to_string(), Some("ok".to_string()), None);
    assert_eq!(
        r.to_json(),
        "{\"jsonrpc\":\"2.0\",\"result\":\"ok\",\"error\":null,\"id\":\"1\"}"
    );
}

#[test]
fn error_response_serializes() {
    let e = JsonRpcError::new(-32600, "Invalid Request".to_string(), None);
    assert_eq!(e.code, -32600);
    assert_eq!(e.message, "Invalid Request");
    assert_eq!(e.data, None);
    let r = JsonRpcResponse::new("7".to_string(), None, Some(e));
    assert_eq!(
        r.to_json(),
        "{\"jsonrpc\":\"2.0\",\"result\":null,\"error\":{\"code\":-32600,\"message\":\"Invalid Request\",\"data\":null},\"id\":\"7\"}"
    );
}

#[test]
fn error_data_serializes_when_present() {
    let e = JsonRpcError::new(0, "m".to_string(), Some("details".to_string()));
    let r = JsonRpcResponse::new("id-9".to_string(), None, Some(e));
    assert_eq!(
        r.to_json(),
        "{\"jsonrpc\":\"2.0\",\"result\":null,\"error\":{\"code\":0,\"message\":\"m\",\"data\":\"details\"},\"id\":\"id-9\"}"
    );
}

#[test]
fn strings_are_escaped() {
    let r = JsonRpcResponse::new(
        "q\"u\\o".to_string(),
        Some("line1\nline2\ttabbed\r\u{8}\u{c}".to_string()),
        None,
    );
    assert_eq!(
        r.to_json(),
        "{\"jsonrpc\":\"2.0\",\"result\":\"line1\\nline2\\ttabbed\\r\\b\\f\",\"error\":null,\"id\":\"q\\\"u\\\\o\"}"
    );
}

#[test]
fn control_characters_use_unicode_escapes() {
    let r = JsonRpcResponse::new("\u{1}\u{1f}".to_string(), Some("\u{b}".to_string()), None);
    assert_eq!(
        r.to_json(),
        "{\"jsonrpc\":\"2.0\",\"result\":\"\\u000b\",\"error\":null,\"id\":\"\\u0001\\u001f\"}"
    );
}

#[test]
fn non_ascii_text_passes_through() {
    let r = JsonRpcResponse::new("déjà".to_string(), Some("føund ✓".to_string()), None);
    assert_eq!(
        r.to_json(),
        "{\"jsonrpc\":\"2.0\",\"result\":\"føund ✓\",\"error\":null,\"id\":\"déjà\"}"
    );
}

#[test]
fn extreme_codes_render_in_decimal() {
    let e = JsonRpcError::new(i32::MIN, "low".to_string(), None);
    let r = JsonRpcResponse::new("n".to_string(), None, Some(e));
    assert_eq!(
        r.to_json(),
        "{\"jsonrpc\":\"2.0\",\"result\":null,\"error\":{\"code\":-2147483648,\"message\":\"low\",\"data\":null},\"id\":\"n\"}"
    );
    let e = JsonRpcError::new(i32::MAX, "high".to_string(), None);
    let r = JsonRpcResponse::new("x".to_string(), None, Some(e));
    assert_eq!(
        r.to_json(),
        "{\"jsonrpc\":\"2.0\",\"result\":null,\"error\":{\"code\":2147483647,\"message\":\"high\",\"data\":null},\"id\":\"x\"}"
    );
}
