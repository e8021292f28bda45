use http_core::sniff::detect_content_type;

#[test]
fn short_buffers_are_octet_stream() {
    assert_eq!(detect_content_type(&[]), "application/octet-stream");
    assert_eq!(detect_content_type(&[0xff]), "application/octet-stream");
    assert_eq!(detect_content_type(&[0xff, 0xd8]), "application/octet-stream");
    assert_eq!(detect_content_type(&[0xff, 0xd8, 0xff]), "application/octet-stream");
    assert_eq!(detect_content_type(b"abc"), "application/octet-stream");
}

#[test]
fn magic_prefixes() {
    assert_eq!(detect_content_type(&[0xff, 0xd8, 0xff, 0x00]), "image/jpeg");
    assert_eq!(detect_content_type(&[0xff, 0xd8, 0xff, 0xe0]), "image/jpeg");
    assert_eq!(detect_content_type(&[0x89, 0x50, 0x4e, 0x47]), "image/png");
    assert_eq!(detect_content_type(&[0x47, 0x49, 0x46, 0x38]), "image/gif");
    assert_eq!(detect_content_type(&[0x25, 0x50, 0x44, 0x46]), "application/pdf");
    assert_eq!(detect_content_type(&[0x50, 0x4b, 0x03, 0x04]), "application/zip");
    assert_eq!(detect_content_type(&[0x50, 0x4b, 0x05, 0x06]), "application/zip");
    assert_eq!(detect_content_type(&[0x50, 0x4b, 0x07, 0x08]), "application/zip");
}

#[test]
fn ascii_text_fallback() {
    assert_eq!(detect_content_type(b"hello world\n"), "text/plain");
    assert_eq!(detect_content_type(&[0x00, 0x01, 0x02, 0x03]), "application/octet-stream");
    // ASCII magic check comes first: a PDF header that is also printable text
    assert_eq!(detect_content_type(b"%PDF-1.4"), "application/pdf");
    // a DEL byte is neither graphic nor whitespace
    assert_eq!(detect_content_type(b"abc\x7f"), "application/octet-stream");
    // form feed and carriage return are ASCII whitespace
    assert_eq!(detect_content_type(b"a b\tc\r\n\x0c"), "text/plain");
}
