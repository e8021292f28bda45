use http_core::model::{body_type_of, form_type_of, BodyType, FormType};
use http_core::response::normalize_response;

#[test]
fn json_body_is_pretty_printed() {
    let r = normalize_response(200, Some("OK".to_string()), &Vec::new(),
        Ok("{\"a\":1}".to_string()), 12).unwrap();
    assert_eq!(r.status, 200);
    assert_eq!(r.status_text, "OK");
    assert_eq!(r.body, "{\"a\":1}");
    assert_eq!(r.body_pretty, "{\n  \"a\": 1\n}");
    assert_eq!(r.response_time, 12);
}

#[test]
fn non_json_body_is_kept_verbatim() {
    let r = normalize_response(200, Some("OK".to_string()), &Vec::new(),
        Ok("not json".to_string()), 3).unwrap();
    assert_eq!(r.body, "not json");
    assert_eq!(r.body_pretty, "not json");
}

#[test]
fn missing_reason_phrase_is_unknown() {
    let r = normalize_response(599, None, &Vec::new(), Ok("".to_string()), 0).unwrap();
    assert_eq!(r.status_text, "Unknown");
}

#[test]
fn body_read_failure_carries_status() {
    let e = normalize_response(502, Some("Bad Gateway".to_string()), &Vec::new(),
        Err("boom".to_string()), 7).unwrap_err();
    assert_eq!(e.error, "Failed to read response body: boom");
    assert_eq!(e.status, Some(502));
}

#[test]
fn headers_drop_undecodable_and_keep_last_value() {
    let raw = vec![
        ("x-a".to_string(), Some("1".to_string())),
        ("x-bad".to_string(), None),
        ("x-b".to_string(), Some("2".to_string())),
        ("x-a".to_string(), Some("3".to_string())),
    ];
    let r = normalize_response(200, Some("OK".to_string()), &raw, Ok("".to_string()), 1).unwrap();
    assert_eq!(r.headers, vec![
        ("x-a".to_string(), "3".to_string()),
        ("x-b".to_string(), "2".to_string()),
    ]);
}

#[test]
fn body_type_selectors_resolve_with_defaults() {
    assert_eq!(body_type_of(None), BodyType::NoBody);
    assert_eq!(body_type_of(Some("none")), BodyType::NoBody);
    assert_eq!(body_type_of(Some("text")), BodyType::Text);
    assert_eq!(body_type_of(Some("graphql")), BodyType::Graphql);
    assert_eq!(body_type_of(Some("form")), BodyType::Form);
    assert_eq!(body_type_of(Some("binary")), BodyType::Binary);
    assert_eq!(body_type_of(Some("surprise")), BodyType::Other);
    assert_eq!(form_type_of(None), FormType::Urlencoded);
    assert_eq!(form_type_of(Some("urlencoded")), FormType::Urlencoded);
    assert_eq!(form_type_of(Some("multipart")), FormType::Multipart);
    assert_eq!(form_type_of(Some("weird")), FormType::OtherForm);
}
