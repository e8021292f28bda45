//! The value types of the library: the abstract request, the normalized
//! response, the structured error, and the transport-ready form of a request
//! that the assembler produces.

use vstd::prelude::*;
use crate::text::str_eq;

verus! {

/// How the request payload is to be constructed.
#[derive(Clone, Copy, PartialEq, Eq, Structural, Debug)]
pub enum BodyType {
    /// No body is attached.
    NoBody,
    /// The body string is attached verbatim.
    Text,
    /// A GraphQL query, attached verbatim like text.
    Graphql,
    /// The body string is parsed as form fields.
    Form,
    /// The payload is carried base64-encoded and attached as raw bytes.
    Binary,
    /// An unrecognized selector: treated like text.
    Other,
}

/// Which form encoding applies to a `Form` body.
#[derive(Clone, Copy, PartialEq, Eq, Structural, Debug)]
pub enum FormType {
    /// Ampersand-separated, percent-encoded key/value pairs.
    Urlencoded,
    /// One `key=value` field per line.
    Multipart,
    /// An unrecognized selector: the body is attached verbatim.
    OtherForm,
}

/// An abstract description of one HTTP request.
#[derive(Debug)]
pub struct HttpRequest {
    pub method: String,
    pub url: String,
    pub headers: Vec<(String, String)>,
    pub body: Option<String>,
    pub body_type: BodyType,
    pub form_subtype: FormType,
    pub binary_data: Option<String>,
    pub timeout: Option<u64>,
}

/// A normalized response: status, reason phrase, flattened headers, the raw
/// body, a best-effort pretty-printed body, and the elapsed time.
#[derive(Debug)]
pub struct HttpResponse {
    pub status: u16,
    pub status_text: String,
    pub headers: Vec<(String, String)>,
    pub body: String,
    pub body_pretty: String,
    pub response_time: u64,
}

impl HttpResponse {
    /// The headers form a map: no key occurs twice.
    pub open spec fn wf(&self) -> bool {
        forall|i: int, j: int|
            0 <= i < j < self.headers@.len() ==> (#[trigger] self.headers@[i]).0@ != (
            #[trigger] self.headers@[j]).0@
    }
}

/// A structured error: a message, and the response status when one had
/// already been received.
#[derive(Debug)]
pub struct HttpError {
    pub error: String,
    pub status: Option<u16>,
}

/// The payload of a transport-ready request.
#[derive(Debug)]
pub enum Payload {
    /// Nothing is attached.
    NoPayload,
    /// A verbatim text body.
    TextPayload { content: String },
    /// Decoded urlencoded fields, to be re-encoded as a urlencoded body.
    FormFields { fields: Vec<(String, String)> },
    /// Fields to be sent as parts of a multipart body.
    MultipartFields { fields: Vec<(String, String)> },
    /// Raw bytes.
    BinaryPayload { bytes: Vec<u8> },
}

/// A transport-ready request: a validated upper-case method, the url, the
/// headers to apply in order, the payload, and the timeout in milliseconds.
#[derive(Debug)]
pub struct AssembledRequest {
    pub method: String,
    pub url: String,
    pub headers: Vec<(String, String)>,
    pub payload: Payload,
    pub timeout_ms: u64,
}

/// The body-type selector named by an optional string, defaulting to no body.
pub open spec fn spec_body_type(s: Option<Seq<char>>) -> BodyType {
    match s {
        Some(t) => if t == "none"@ {
            BodyType::NoBody
        } else if t == "text"@ {
            BodyType::Text
        } else if t == "graphql"@ {
            BodyType::Graphql
        } else if t == "form"@ {
            BodyType::Form
        } else if t == "binary"@ {
            BodyType::Binary
        } else {
            BodyType::Other
        },
        None => BodyType::NoBody,
    }
}

/// The form-subtype selector named by an optional string, defaulting to
/// urlencoded.
pub open spec fn spec_form_type(s: Option<Seq<char>>) -> FormType {
    match s {
        Some(t) => if t == "urlencoded"@ {
            FormType::Urlencoded
        } else if t == "multipart"@ {
            FormType::Multipart
        } else {
            FormType::OtherForm
        },
        None => FormType::Urlencoded,
    }
}

/// Resolve an optional body-type selector string.
pub fn body_type_of(s: Option<&str>) -> (r: BodyType)
    ensures
        r == spec_body_type(
            match s {
                Some(t) => Some(t@),
                None => None,
            },
        ),
{
    match s {
        Some(t) => {
            if str_eq(t, "none") {
                BodyType::NoBody
            } else if str_eq(t, "text") {
                BodyType::Text
            } else if str_eq(t, "graphql") {
                BodyType::Graphql
            } else if str_eq(t, "form") {
                BodyType::Form
            } else if str_eq(t, "binary") {
                BodyType::Binary
            } else {
                BodyType::Other
            }
        },
        None => BodyType::NoBody,
    }
}

/// Resolve an optional form-subtype selector string.
pub fn form_type_of(s: Option<&str>) -> (r: FormType)
    ensures
        r == spec_form_type(
            match s {
                Some(t) => Some(t@),
                None => None,
            },
        ),
{
    match s {
        Some(t) => {
            if str_eq(t, "urlencoded") {
                FormType::Urlencoded
            } else if str_eq(t, "multipart") {
                FormType::Multipart
            } else {
                FormType::OtherForm
            }
        },
        None => FormType::Urlencoded,
    }
}

} // verus!
