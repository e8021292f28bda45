//! The request assembler: turns an abstract request into a transport-ready
//! one. It uppercases and validates the method, carries the headers over,
//! resolves one of the body encodings, infers a content type for binary
//! bodies when none was supplied, and applies the default timeout.

use vstd::prelude::*;
use vstd::string::StrSliceExecFns;
use vstd::string::StringExecFns;
use crate::form::{pairs_match, parse_multipart, parse_urlencoded, spec_parse_multipart,
    spec_parse_urlencoded};
use crate::model::{AssembledRequest, BodyType, FormType, HttpError, HttpRequest, Payload};
use crate::sniff::{detect_content_type, spec_sniff};
use crate::text::str_eq;
use crate::trusted::{base64_decode, base64_decoded, lowercased, to_lower, to_upper, uppercased};

verus! {

/// A character allowed in an HTTP method token: the token characters of the
/// HTTP grammar.
pub open spec fn is_tchar(c: char) -> bool {
    let u = c as u32;
    u == 0x21 || u == 0x23 || u == 0x24 || u == 0x25 || u == 0x26 || u == 0x27 || u == 0x2a || u
        == 0x2b || u == 0x2d || u == 0x2e || u == 0x5e || u == 0x5f || u == 0x60 || u == 0x7c || u
        == 0x7e || (0x30 <= u && u <= 0x39) || (0x41 <= u && u <= 0x5a) || (0x61 <= u && u
        <= 0x7a)
}

/// A valid HTTP method token: non-empty, token characters throughout.
pub open spec fn is_method_token(s: Seq<char>) -> bool {
    s.len() > 0 && forall|i: int| 0 <= i < s.len() ==> is_tchar(#[trigger] s[i])
}

/// Whether `c` is a token character.
fn tchar(c: char) -> (r: bool)
    ensures
        r == is_tchar(c),
{
    let u = c as u32;
    u == 0x21 || u == 0x23 || u == 0x24 || u == 0x25 || u == 0x26 || u == 0x27 || u == 0x2a || u
        == 0x2b || u == 0x2d || u == 0x2e || u == 0x5e || u == 0x5f || u == 0x60 || u == 0x7c || u
        == 0x7e || (0x30 <= u && u <= 0x39) || (0x41 <= u && u <= 0x5a) || (0x61 <= u && u
        <= 0x7a)
}

/// Whether `s` is a valid HTTP method token.
pub fn method_token_ok(s: &str) -> (r: bool)
    ensures
        r == is_method_token(s@),
{
    let n: usize = s.unicode_len();
    if n == 0 {
        return false;
    }
    let mut i: usize = 0;
    while i < n
        invariant
            n == s@.len(),
            0 <= i <= n,
            forall|j: int| 0 <= j < i ==> is_tchar(#[trigger] s@[j]),
        decreases n - i,
    {
        if !tchar(s.get_char(i)) {
            return false;
        }
        i = i + 1;
    }
    true
}

/// Some header key names the content type, compared case-insensitively.
pub open spec fn has_content_type(h: Seq<(String, String)>) -> bool {
    exists|i: int| 0 <= i < h.len() && lowercased((#[trigger] h[i]).0@) == "content-type"@
}

/// Whether some header key lowercases to `content-type`.
pub fn headers_have_content_type(h: &Vec<(String, String)>) -> (r: bool)
    ensures
        r == has_content_type(h@),
{
    let n: usize = h.len();
    let mut i: usize = 0;
    while i < n
        invariant
            n == h@.len(),
            0 <= i <= n,
            forall|j: int| 0 <= j < i ==> lowercased((#[trigger] h@[j]).0@) != "content-type"@,
        decreases n - i,
    {
        let low = to_lower(h[i].0.as_str());
        if str_eq(low.as_str(), "content-type") {
            return true;
        }
        i = i + 1;
    }
    false
}

/// The views of a header list.
pub open spec fn headers_views(h: Seq<(String, String)>) -> Seq<(Seq<char>, Seq<char>)> {
    Seq::new(h.len(), |i: int| (h[i].0@, h[i].1@))
}

/// The binary body is present and its base64 decoding fails.
pub open spec fn binary_decode_fails(req: HttpRequest) -> bool {
    &&& req.body_type is Binary
    &&& req.binary_data matches Some(d) && base64_decoded(d@) is None
}

/// The payload the assembler owes for a request, by body type.
pub open spec fn payload_matches(p: Payload, req: HttpRequest) -> bool {
    match req.body_type {
        BodyType::NoBody => p is NoPayload,
        BodyType::Text | BodyType::Graphql | BodyType::Other => match req.body {
            Some(b) => p matches Payload::TextPayload { content } && content@ == b@,
            None => p is NoPayload,
        },
        BodyType::Form => match req.body {
            Some(b) => match req.form_subtype {
                FormType::Urlencoded => p matches Payload::FormFields { fields } && pairs_match(
                    fields@,
                    spec_parse_urlencoded(b@),
                ),
                FormType::Multipart => p matches Payload::MultipartFields { fields }
                    && pairs_match(fields@, spec_parse_multipart(b@)),
                FormType::OtherForm => p matches Payload::TextPayload { content } && content@
                    == b@,
            },
            None => p is NoPayload,
        },
        BodyType::Binary => match req.binary_data {
            Some(d) => p matches Payload::BinaryPayload { bytes } && base64_decoded(d@) == Some(
                bytes@,
            ),
            None => p is NoPayload,
        },
    }
}

/// The headers the assembler owes: the request's own headers in order, and,
/// for a binary body that decoded while no content-type header was supplied,
/// one sniffed content-type header appended.
pub open spec fn headers_expected(out: Seq<(String, String)>, req: HttpRequest) -> bool {
    if req.body_type is Binary && !has_content_type(req.headers@) && req.binary_data is Some
        && base64_decoded(req.binary_data->Some_0@) is Some {
        headers_views(out) == headers_views(req.headers@).push(
            ("Content-Type"@, spec_sniff(base64_decoded(req.binary_data->Some_0@)->Some_0)),
        )
    } else {
        headers_views(out) == headers_views(req.headers@)
    }
}

/// Copy a header list.
fn clone_headers(h: &Vec<(String, String)>) -> (r: Vec<(String, String)>)
    ensures
        r@ == h@,
{
    let n: usize = h.len();
    let mut r: Vec<(String, String)> = Vec::new();
    let mut i: usize = 0;
    while i < n
        invariant
            n == h@.len(),
            0 <= i <= n,
            r@ =~= h@.take(i as int),
        decreases n - i,
    {
        let p = &h[i];
        r.push((p.0.clone(), p.1.clone()));
        i = i + 1;
    }
    proof {
        assert(r@ =~= h@);
    }
    r
}

/// Assemble a transport-ready request. The method is uppercased and must be
/// a valid HTTP token; a binary body must decode as base64; every other
/// failure of the body encodings is dropped silently, never an error.
pub fn assemble_request(req: &HttpRequest) -> (r: Result<AssembledRequest, HttpError>)
    ensures
        !is_method_token(uppercased(req.method@)) ==> (r matches Err(e) && e.error@
            == "Invalid HTTP method: "@ + req.method@ && e.status is None),
        is_method_token(uppercased(req.method@)) && binary_decode_fails(*req) ==> (
        r matches Err(e) && (exists|c: Seq<char>|
            e.error@ == "Invalid base64 binary data: "@ + c) && e.status is None),
        is_method_token(uppercased(req.method@)) && !binary_decode_fails(*req) ==> r is Ok,
        r matches Ok(a) ==> a.method@ == uppercased(req.method@),
        r matches Ok(a) ==> a.url@ == req.url@,
        r matches Ok(a) ==> (req.timeout matches Some(t) ==> a.timeout_ms == t),
        r matches Ok(a) ==> (req.timeout is None ==> a.timeout_ms == 30000),
        r matches Ok(a) ==> payload_matches(a.payload, *req),
        r matches Ok(a) ==> headers_expected(a.headers@, *req),
{
    let upper = to_upper(req.method.as_str());
    if !method_token_ok(upper.as_str()) {
        return Err(
            HttpError {
                error: String::from_str("Invalid HTTP method: ").concat(req.method.as_str()),
                status: None,
            },
        );
    }
    let mut headers = clone_headers(&req.headers);
    let payload: Payload;
    match req.body_type {
        BodyType::NoBody => {
            payload = Payload::NoPayload;
        },
        BodyType::Text | BodyType::Graphql | BodyType::Other => {
            match &req.body {
                Some(b) => {
                    payload = Payload::TextPayload { content: b.clone() };
                },
                None => {
                    payload = Payload::NoPayload;
                },
            }
        },
        BodyType::Form => {
            match &req.body {
                Some(b) => {
                    match req.form_subtype {
                        FormType::Urlencoded => {
                            payload = Payload::FormFields { fields: parse_urlencoded(b.as_str()) };
                        },
                        FormType::Multipart => {
                            payload = Payload::MultipartFields {
                                fields: parse_multipart(b.as_str()),
                            };
                        },
                        FormType::OtherForm => {
                            payload = Payload::TextPayload { content: b.clone() };
                        },
                    }
                },
                None => {
                    payload = Payload::NoPayload;
                },
            }
        },
        BodyType::Binary => {
            match &req.binary_data {
                Some(d) => {
                    match base64_decode(d.as_str()) {
                        Ok(bytes) => {
                            if !headers_have_content_type(&headers) {
                                let ct = detect_content_type(bytes.as_slice());
                                headers.push(
                                    (String::from_str("Content-Type"), String::from_str(ct)),
                                );
                                proof {
                                    assert(headers_views(headers@) =~= headers_views(
                                        req.headers@,
                                    ).push(("Content-Type"@, spec_sniff(bytes@))));
                                }
                            }
                            payload = Payload::BinaryPayload { bytes };
                        },
                        Err(cause) => {
                            return Err(
                                HttpError {
                                    error: String::from_str("Invalid base64 binary data: ").concat(
                                        cause.as_str(),
                                    ),
                                    status: None,
                                },
                            );
                        },
                    }
                },
                None => {
                    payload = Payload::NoPayload;
                },
            }
        },
    }
    let timeout_ms: u64 = match req.timeout {
        Some(t) => t,
        None => 30000,
    };
    Ok(AssembledRequest { method: upper, url: req.url.clone(), headers, payload, timeout_ms })
}

} // verus!
