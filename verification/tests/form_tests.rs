use http_core::form::parse_form_data;

fn pairs(v: &[(&str, &str)]) -> Vec<(String, String)> {
    v.iter().map(|(k, val)| (k.to_string(), val.to_string())).collect()
}

#[test]
fn urlencoded_simple_pairs() {
    let r = parse_form_data("a=1&b=2", "urlencoded").unwrap();
    assert_eq!(r, pairs(&[("a", "1"), ("b", "2")]));
}

#[test]
fn urlencoded_percent_decoding() {
    let r = parse_form_data("a%20b=c%2Fd", "urlencoded").unwrap();
    assert_eq!(r, pairs(&[("a b", "c/d")]));
}

#[test]
fn urlencoded_drops_pairs_without_equals() {
    let r = parse_form_data("a=1&malformed&b=2", "urlencoded").unwrap();
    assert_eq!(r, pairs(&[("a", "1"), ("b", "2")]));
}

#[test]
fn urlencoded_empty_and_edge_pieces() {
    assert_eq!(parse_form_data("", "urlencoded").unwrap(), pairs(&[]));
    assert_eq!(parse_form_data("=x", "urlencoded").unwrap(), pairs(&[("", "x")]));
    assert_eq!(parse_form_data("a==b", "urlencoded").unwrap(), pairs(&[("a", "=b")]));
}

#[test]
fn urlencoded_undecodable_component_becomes_empty() {
    // %FF decodes to a byte that is not UTF-8, so the component falls back
    // to the empty string
    let r = parse_form_data("a=%FF", "urlencoded").unwrap();
    assert_eq!(r, pairs(&[("a", "")]));
}

#[test]
fn multipart_drops_line_without_equals() {
    let r = parse_form_data("a=1\nb=2\nmalformed", "multipart").unwrap();
    assert_eq!(r, pairs(&[("a", "1"), ("b", "2")]));
}

#[test]
fn multipart_trims_and_handles_crlf() {
    let r = parse_form_data(" a = 1 \r\nb= 2\r\n", "multipart").unwrap();
    assert_eq!(r, pairs(&[("a", "1"), ("b", "2")]));
}

#[test]
fn multipart_value_keeps_inner_equals() {
    let r = parse_form_data("k=v=w", "multipart").unwrap();
    assert_eq!(r, pairs(&[("k", "v=w")]));
}

#[test]
fn unsupported_form_type_is_refused() {
    assert_eq!(parse_form_data("a=1", "xml"), Err("Unsupported form type".to_string()));
    assert_eq!(parse_form_data("", "json"), Err("Unsupported form type".to_string()));
    assert_eq!(parse_form_data("anything", "URLENCODED"), Err("Unsupported form type".to_string()));
}
