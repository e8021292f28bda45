//! Content-type sniffing: a heuristic that maps the first bytes of a payload
//! to a MIME type. Magic-number prefixes are checked first, then a printable
//! ASCII fallback; everything else is an opaque octet stream.

use vstd::prelude::*;

verus! {

/// A byte that may appear in a payload classified as plain text: a printable
/// ASCII graphic character or ASCII whitespace.
pub open spec fn is_text_byte(b: u8) -> bool {
    (0x21 <= b && b <= 0x7e) || b == 0x20 || b == 0x09 || b == 0x0a || b == 0x0c || b == 0x0d
}

/// Every byte of the buffer is printable ASCII or ASCII whitespace.
pub open spec fn all_text_bytes(d: Seq<u8>) -> bool {
    forall|i: int| 0 <= i < d.len() ==> is_text_byte(#[trigger] d[i])
}

/// The sniffing policy, checked in order: buffers shorter than four bytes are
/// octet streams; then the magic prefixes of JPEG, PNG, GIF, PDF and ZIP;
/// then the all-ASCII-text fallback; otherwise an octet stream.
pub open spec fn spec_sniff(d: Seq<u8>) -> Seq<char> {
    if d.len() < 4 {
        "application/octet-stream"@
    } else if d[0] == 0xff && d[1] == 0xd8 && d[2] == 0xff {
        "image/jpeg"@
    } else if d[0] == 0x89 && d[1] == 0x50 && d[2] == 0x4e && d[3] == 0x47 {
        "image/png"@
    } else if d[0] == 0x47 && d[1] == 0x49 && d[2] == 0x46 && d[3] == 0x38 {
        "image/gif"@
    } else if d[0] == 0x25 && d[1] == 0x50 && d[2] == 0x44 && d[3] == 0x46 {
        "application/pdf"@
    } else if d[0] == 0x50 && d[1] == 0x4b && ((d[2] == 0x03 && d[3] == 0x04) || (d[2] == 0x05
        && d[3] == 0x06) || (d[2] == 0x07 && d[3] == 0x08)) {
        "application/zip"@
    } else if all_text_bytes(d) {
        "text/plain"@
    } else {
        "application/octet-stream"@
    }
}

/// Every buffer of fewer than four bytes sniffs as an octet stream, whatever
/// it holds.
pub proof fn lemma_short_buffer_is_octet_stream(d: Seq<u8>)
    requires
        d.len() < 4,
    ensures
        spec_sniff(d) == "application/octet-stream"@,
{
}

/// Infer a content type from the leading bytes of a payload.
pub fn detect_content_type(data: &[u8]) -> (r: &'static str)
    ensures
        r@ == spec_sniff(data@),
{
    let n: usize = data.len();
    if n < 4 {
        return "application/octet-stream";
    }
    let b0: u8 = data[0];
    let b1: u8 = data[1];
    let b2: u8 = data[2];
    let b3: u8 = data[3];
    if b0 == 0xff && b1 == 0xd8 && b2 == 0xff {
        return "image/jpeg";
    }
    if b0 == 0x89 && b1 == 0x50 && b2 == 0x4e && b3 == 0x47 {
        return "image/png";
    }
    if b0 == 0x47 && b1 == 0x49 && b2 == 0x46 && b3 == 0x38 {
        return "image/gif";
    }
    if b0 == 0x25 && b1 == 0x50 && b2 == 0x44 && b3 == 0x46 {
        return "application/pdf";
    }
    if b0 == 0x50 && b1 == 0x4b && ((b2 == 0x03 && b3 == 0x04) || (b2 == 0x05 && b3 == 0x06) || (
    b2 == 0x07 && b3 == 0x08)) {
        return "application/zip";
    }
    if all_text(data) {
        "text/plain"
    } else {
        "application/octet-stream"
    }
}

/// Whether every byte of the buffer is printable ASCII or ASCII whitespace.
fn all_text(data: &[u8]) -> (r: bool)
    ensures
        r == all_text_bytes(data@),
{
    let n: usize = data.len();
    let mut i: usize = 0;
    while i < n
        invariant
            n == data@.len(),
            0 <= i <= n,
            forall|j: int| 0 <= j < i ==> is_text_byte(#[trigger] data@[j]),
        decreases n - i,
    {
        let b: u8 = data[i];
        if !((0x21 <= b && b <= 0x7e) || b == 0x20 || b == 0x09 || b == 0x0a || b == 0x0c || b
            == 0x0d) {
            assert(!all_text_bytes(data@));
            return false;
        }
        i = i + 1;
    }
    true
}

} // verus!
