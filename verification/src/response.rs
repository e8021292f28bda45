//! The response normalizer: shapes a transport response into the uniform
//! result structure. Header values that did not decode as text are dropped;
//! duplicate header keys keep the last value; the body is pretty-printed
//! when it parses as JSON and kept verbatim otherwise.

use vstd::prelude::*;
use vstd::string::StringExecFns;
use crate::assemble::headers_views;
use crate::form::pairs_match;
use crate::model::{HttpError, HttpResponse};
use crate::text::str_eq;
use crate::trusted::{json_prettified, json_pretty};

verus! {

/// The pretty body owed for a raw body: the indented re-serialization when
/// the body parses as JSON, the body itself otherwise.
pub open spec fn spec_pretty(s: Seq<char>) -> Seq<char> {
    match json_prettified(s) {
        Some(p) => p,
        None => s,
    }
}

/// A body that does not parse as JSON is kept exactly as it is.
pub proof fn lemma_pretty_keeps_non_json(s: Seq<char>)
    requires
        json_prettified(s) is None,
    ensures
        spec_pretty(s) == s,
{
}

/// Pretty-print a body when it parses as JSON; otherwise hand it back
/// unchanged. This never fails.
pub fn prettify_body(body: &str) -> (r: String)
    ensures
        r@ == spec_pretty(body@),
{
    match json_pretty(body) {
        Some(p) => p,
        None => String::from_str(body),
    }
}

/// The view of an optional header value.
pub open spec fn opt_view(o: Option<String>) -> Option<Seq<char>> {
    match o {
        Some(s) => Some(s@),
        None => None,
    }
}

/// The views of a raw header list, values still optional.
pub open spec fn raw_views(h: Seq<(String, Option<String>)>) -> Seq<(Seq<char>, Option<Seq<char>>)> {
    Seq::new(h.len(), |i: int| (h[i].0@, opt_view(h[i].1)))
}

/// No key occurs twice.
pub open spec fn keys_distinct(m: Seq<(Seq<char>, Seq<char>)>) -> bool {
    forall|i: int, j: int|
        0 <= i < j < m.len() ==> (#[trigger] m[i]).0 != (#[trigger] m[j]).0
}

/// Insert into a key/value map held as a sequence: an existing key keeps its
/// place and takes the new value, a new key is appended.
pub open spec fn insert_pair(m: Seq<(Seq<char>, Seq<char>)>, k: Seq<char>, v: Seq<char>) -> Seq<
    (Seq<char>, Seq<char>),
> {
    if exists|j: int| 0 <= j < m.len() && (#[trigger] m[j]).0 == k {
        let j = choose|j: int| 0 <= j < m.len() && (#[trigger] m[j]).0 == k;
        m.update(j, (k, v))
    } else {
        m.push((k, v))
    }
}

/// The header map collected from a raw header list, in order: values that
/// did not decode are dropped, the last value of a key wins.
pub open spec fn collect_headers(h: Seq<(Seq<char>, Option<Seq<char>>)>) -> Seq<
    (Seq<char>, Seq<char>),
>
    decreases h.len(),
{
    if h.len() == 0 {
        Seq::empty()
    } else {
        let m = collect_headers(h.drop_last());
        match h.last().1 {
            Some(v) => insert_pair(m, h.last().0, v),
            None => m,
        }
    }
}

/// Insert one header, replacing the value of an existing key.
fn insert_header(m: &mut Vec<(String, String)>, k: String, v: String)
    requires
        keys_distinct(headers_views(old(m)@)),
    ensures
        headers_views(final(m)@) == insert_pair(headers_views(old(m)@), k@, v@),
        keys_distinct(headers_views(final(m)@)),
{
    let ghost mv = headers_views(m@);
    let n: usize = m.len();
    let mut i: usize = 0;
    while i < n
        invariant
            n == m@.len(),
            0 <= i <= n,
            m@ == old(m)@,
            mv == headers_views(m@),
            keys_distinct(mv),
            forall|j: int| 0 <= j < i ==> (#[trigger] mv[j]).0 != k@,
        decreases n - i,
    {
        if str_eq(m[i].0.as_str(), k.as_str()) {
            proof {
                assert(mv[i as int].0 == k@);
                let j0 = choose|j: int| 0 <= j < mv.len() && (#[trigger] mv[j]).0 == k@;
                assert(j0 == i as int) by {
                    if j0 < i as int {
                        assert(mv[j0].0 != k@);
                    }
                    if j0 > i as int {
                        assert(mv[i as int].0 != mv[j0].0);
                    }
                }
            }
            m.set(i, (k, v));
            proof {
                assert(headers_views(m@) =~= insert_pair(mv, k@, v@));
                assert forall|a: int| 0 <= a < mv.len() implies (#[trigger] headers_views(
                    m@,
                )[a]).0 == mv[a].0 by {
                    assert(mv[i as int].0 == k@);
                }
                assert(keys_distinct(headers_views(m@)));
            }
            return ;
        }
        i = i + 1;
    }
    m.push((k, v));
    proof {
        assert(!(exists|j: int| 0 <= j < mv.len() && (#[trigger] mv[j]).0 == k@));
        assert(headers_views(m@) =~= insert_pair(mv, k@, v@));
    }
}

/// Normalize a transport response: the status and its reason phrase (or
/// `Unknown`), the collected headers, the raw body, the pretty body, and
/// the elapsed time. A body-read failure carries the already-known status.
pub fn normalize_response(
    status: u16,
    reason: Option<String>,
    raw_headers: &Vec<(String, Option<String>)>,
    body: Result<String, String>,
    response_time: u64,
) -> (r: Result<HttpResponse, HttpError>)
    ensures
        body matches Err(c) ==> (r matches Err(e) && e.error@ == "Failed to read response body: "@
            + c@ && e.status == Some(status)),
        body matches Ok(b) ==> (r matches Ok(resp) && resp.status == status && resp.status_text@
            == (match reason {
            Some(t) => t@,
            None => "Unknown"@,
        }) && pairs_match(resp.headers@, collect_headers(raw_views(raw_headers@))) && resp.body@
            == b@ && resp.body_pretty@ == spec_pretty(b@) && resp.response_time == response_time
            && resp.wf()),
{
    let b = match body {
        Ok(b) => b,
        Err(cause) => {
            return Err(
                HttpError {
                    error: String::from_str("Failed to read response body: ").concat(
                        cause.as_str(),
                    ),
                    status: Some(status),
                },
            );
        },
    };
    let ghost rv = raw_views(raw_headers@);
    let n: usize = raw_headers.len();
    let mut hdrs: Vec<(String, String)> = Vec::new();
    let mut i: usize = 0;
    while i < n
        invariant
            n == raw_headers@.len(),
            rv == raw_views(raw_headers@),
            0 <= i <= n,
            headers_views(hdrs@) == collect_headers(rv.take(i as int)),
            keys_distinct(headers_views(hdrs@)),
        decreases n - i,
    {
        let p = &raw_headers[i];
        proof {
            assert(rv.take(i as int + 1).drop_last() =~= rv.take(i as int));
            assert(rv.take(i as int + 1).last() == rv[i as int]);
        }
        match &p.1 {
            Some(v) => {
                insert_header(&mut hdrs, p.0.clone(), v.clone());
            },
            None => {
            },
        }
        i = i + 1;
    }
    proof {
        assert(rv.take(n as int) =~= rv);
    }
    let status_text = match reason {
        Some(t) => t,
        None => String::from_str("Unknown"),
    };
    let body_pretty = prettify_body(b.as_str());
    let resp = HttpResponse {
        status,
        status_text,
        headers: hdrs,
        body: b,
        body_pretty,
        response_time,
    };
    proof {
        assert(pairs_match(resp.headers@, collect_headers(raw_views(raw_headers@))));
    }
    Ok(resp)
}

} // verus!
