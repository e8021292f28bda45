use http_core::assemble::assemble_request;
use http_core::model::{BodyType, FormType, HttpRequest, Payload};

fn base_request() -> HttpRequest {
    HttpRequest {
        method: "get".to_string(),
        url: "http://example.com/".to_string(),
        headers: Vec::new(),
        body: None,
        body_type: BodyType::NoBody,
        form_subtype: FormType::Urlencoded,
        binary_data: None,
        timeout: None,
    }
}

#[test]
fn method_is_uppercased() {
    let a = assemble_request(&base_request()).unwrap();
    assert_eq!(a.method, "GET");
    assert_eq!(a.url, "http://example.com/");
    let mut req = base_request();
    req.method = "patch".to_string();
    assert_eq!(assemble_request(&req).unwrap().method, "PATCH");
}

#[test]
fn custom_token_method_is_kept() {
    let mut req = base_request();
    req.method = "purge".to_string();
    assert_eq!(assemble_request(&req).unwrap().method, "PURGE");
}

#[test]
fn invalid_method_is_refused() {
    let mut req = base_request();
    req.method = "bad method".to_string();
    let e = assemble_request(&req).unwrap_err();
    assert_eq!(e.error, "Invalid HTTP method: bad method");
    assert_eq!(e.status, None);
    req.method = "".to_string();
    let e = assemble_request(&req).unwrap_err();
    assert_eq!(e.error, "Invalid HTTP method: ");
    assert_eq!(e.status, None);
}

#[test]
fn timeout_defaults_to_thirty_seconds() {
    let a = assemble_request(&base_request()).unwrap();
    assert_eq!(a.timeout_ms, 30000);
    let mut req = base_request();
    req.timeout = Some(5000);
    assert_eq!(assemble_request(&req).unwrap().timeout_ms, 5000);
}

#[test]
fn text_body_is_attached_verbatim() {
    let mut req = base_request();
    req.body_type = BodyType::Text;
    req.body = Some("hello".to_string());
    match assemble_request(&req).unwrap().payload {
        Payload::TextPayload { content } => assert_eq!(content, "hello"),
        _ => panic!("expected a text payload"),
    }
    req.body = None;
    assert!(matches!(assemble_request(&req).unwrap().payload, Payload::NoPayload));
}

#[test]
fn form_urlencoded_body_is_parsed() {
    let mut req = base_request();
    req.body_type = BodyType::Form;
    req.form_subtype = FormType::Urlencoded;
    req.body = Some("a=1&b=2".to_string());
    match assemble_request(&req).unwrap().payload {
        Payload::FormFields { fields } => {
            assert_eq!(fields, vec![("a".to_string(), "1".to_string()), ("b".to_string(),
                "2".to_string())]);
        },
        _ => panic!("expected form fields"),
    }
}

#[test]
fn form_multipart_body_is_parsed() {
    let mut req = base_request();
    req.body_type = BodyType::Form;
    req.form_subtype = FormType::Multipart;
    req.body = Some("a=1\nskip me\nb = 2".to_string());
    match assemble_request(&req).unwrap().payload {
        Payload::MultipartFields { fields } => {
            assert_eq!(fields, vec![("a".to_string(), "1".to_string()), ("b".to_string(),
                "2".to_string())]);
        },
        _ => panic!("expected multipart fields"),
    }
}

#[test]
fn form_other_subtype_falls_back_to_verbatim() {
    let mut req = base_request();
    req.body_type = BodyType::Form;
    req.form_subtype = FormType::OtherForm;
    req.body = Some("raw&stuff".to_string());
    match assemble_request(&req).unwrap().payload {
        Payload::TextPayload { content } => assert_eq!(content, "raw&stuff"),
        _ => panic!("expected a verbatim payload"),
    }
}

#[test]
fn binary_body_is_decoded() {
    let mut req = base_request();
    req.body_type = BodyType::Binary;
    req.binary_data = Some("aGVsbG8=".to_string());
    match assemble_request(&req).unwrap().payload {
        Payload::BinaryPayload { bytes } => assert_eq!(bytes, b"hello".to_vec()),
        _ => panic!("expected a binary payload"),
    }
}

#[test]
fn invalid_base64_is_refused_without_status() {
    let mut req = base_request();
    req.body_type = BodyType::Binary;
    req.binary_data = Some("!!!not base64!!!".to_string());
    let e = assemble_request(&req).unwrap_err();
    assert!(e.error.contains("Invalid base64 binary data"));
    assert_eq!(e.status, None);
}

#[test]
fn binary_body_sniffs_content_type_when_absent() {
    let mut req = base_request();
    req.body_type = BodyType::Binary;
    // base64 of the PNG magic prefix
    req.binary_data = Some("iVBORw==".to_string());
    let a = assemble_request(&req).unwrap();
    assert_eq!(a.headers, vec![("Content-Type".to_string(), "image/png".to_string())]);
}

#[test]
fn binary_body_keeps_supplied_content_type() {
    let mut req = base_request();
    req.body_type = BodyType::Binary;
    req.binary_data = Some("iVBORw==".to_string());
    req.headers = vec![("CONTENT-TYPE".to_string(), "application/x-thing".to_string())];
    let a = assemble_request(&req).unwrap();
    assert_eq!(a.headers, vec![("CONTENT-TYPE".to_string(), "application/x-thing".to_string())]);
}

#[test]
fn headers_are_carried_over_in_order() {
    let mut req = base_request();
    req.headers = vec![
        ("X-One".to_string(), "1".to_string()),
        ("X-Two".to_string(), "2".to_string()),
    ];
    let a = assemble_request(&req).unwrap();
    assert_eq!(a.headers, req.headers);
}
