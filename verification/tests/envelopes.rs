use authcore::hex::{bytes_to_hex, push_hex};
use authcore::responses::json_string;
use authcore::models::User;
use authcore::responses::ApiResponse;

#[test]
fn success_envelope_is_exact() {
    let r = ApiResponse::success();
    assert_eq!(r.body().as_str(), "{\"status\":\"success\"}");
    assert_eq!(r.status_code(), 200);
}

#[test]
fn success_with_data_inserts_payload_verbatim() {
    let r = ApiResponse::success_with_data("{\"token\":\"abc\"}".to_string());
    assert_eq!(
        r.body().as_str(),
        "{\"status\":\"success\",\"data\":{\"token\":\"abc\"}}"
    );
    assert_eq!(r.status_code(), 200);
}

#[test]
fn error_envelope_escapes_the_reason() {
    let r = ApiResponse::error("bad \"name\"\\\n".to_string(), 400);
    assert_eq!(
        r.body().as_str(),
        "{\"status\":\"error\",\"reason\":\"bad \\\"name\\\"\\\\\\u000a\"}"
    );
    assert_eq!(r.status_code(), 400);
}

#[test]
fn plain_error_reason_passes_through() {
    let r = ApiResponse::error("invalid invitation".to_string(), 400);
    assert_eq!(
        r.body().as_str(),
        "{\"status\":\"error\",\"reason\":\"invalid invitation\"}"
    );
}

#[test]
fn hex_renderings_are_exact() {
    let mut s = String::new();
    push_hex(&mut s, 0xdead_beef, 16);
    assert_eq!(s, "00000000deadbeef");
    let mut t = String::new();
    push_hex(&mut t, 0x1a, 2);
    assert_eq!(t, "1a");
    assert_eq!(bytes_to_hex(&vec![0x00, 0xff, 0x1a]), "00ff1a");
    assert_eq!(bytes_to_hex(&Vec::new()), "");
}

#[test]
fn from_details_keeps_username_and_hash() {
    let u = User::from_details("alice".to_string(), "stored-hash".to_string());
    assert_eq!(u.username, "alice");
    assert_eq!(u.hash, "stored-hash");
}

#[test]
fn json_string_quotes_and_escapes() {
    assert_eq!(json_string("alice"), "\"alice\"");
    assert_eq!(json_string("a\"b\\c"), "\"a\\\"b\\\\c\"");
    assert_eq!(json_string("\u{1}"), "\"\\u0001\"");
    assert_eq!(json_string(""), "\"\"");
}
