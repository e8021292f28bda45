//! The form codec: parses textual key/value encodings into an ordered list
//! of pairs. The urlencoded form splits on `&` and percent-decodes; the
//! line-based multipart form takes one `key=value` per line and trims both
//! sides. Pieces without `=` are dropped silently in both encodings.

use vstd::prelude::*;
use crate::text::{
    find_char, first_occ, lemma_first_occ, split_on, split_str, spec_lines, split_lines, spec_trim, trim_str,
    seq_views, str_eq,
};
use crate::trusted::{percent_decoded, percent_decode};
use vstd::string::StringExecFns;
use vstd::string::StrSliceExecFns;

verus! {

/// The percent-decoding of `t`, or the empty string when the decoded bytes
/// are not UTF-8.
pub open spec fn dec_or_empty(t: Seq<char>) -> Seq<char> {
    match percent_decoded(t) {
        Some(d) => d,
        None => Seq::empty(),
    }
}

/// The raw key and value of one piece: the text before and after the first
/// `=`, or nothing when the piece holds no `=`.
pub open spec fn piece_pair(p: Seq<char>) -> Option<(Seq<char>, Seq<char>)> {
    let i = first_occ(p, '=');
    if 0 <= i < p.len() {
        Some((p.take(i), p.skip(i + 1)))
    } else {
        None
    }
}

/// The decoded pairs of a sequence of urlencoded pieces, in order; pieces
/// without `=` contribute nothing.
pub open spec fn urlencoded_pairs_of(ps: Seq<Seq<char>>) -> Seq<(Seq<char>, Seq<char>)>
    decreases ps.len(),
{
    if ps.len() == 0 {
        Seq::empty()
    } else {
        let rest = urlencoded_pairs_of(ps.drop_last());
        match piece_pair(ps.last()) {
            Some(kv) => rest.push((dec_or_empty(kv.0), dec_or_empty(kv.1))),
            None => rest,
        }
    }
}

/// The pairs parsed from a urlencoded body.
pub open spec fn spec_parse_urlencoded(s: Seq<char>) -> Seq<(Seq<char>, Seq<char>)> {
    urlencoded_pairs_of(split_on(s, '&'))
}

/// The trimmed pairs of a sequence of lines, in order; lines without `=`
/// contribute nothing.
pub open spec fn multipart_pairs_of(ls: Seq<Seq<char>>) -> Seq<(Seq<char>, Seq<char>)>
    decreases ls.len(),
{
    if ls.len() == 0 {
        Seq::empty()
    } else {
        let rest = multipart_pairs_of(ls.drop_last());
        match piece_pair(ls.last()) {
            Some(kv) => rest.push((spec_trim(kv.0), spec_trim(kv.1))),
            None => rest,
        }
    }
}

/// The pairs parsed from a line-based multipart body.
pub open spec fn spec_parse_multipart(s: Seq<char>) -> Seq<(Seq<char>, Seq<char>)> {
    multipart_pairs_of(spec_lines(s))
}

/// The owned pairs carry exactly the character sequences of the model pairs.
pub open spec fn pairs_match(v: Seq<(String, String)>, p: Seq<(Seq<char>, Seq<char>)>) -> bool {
    v.len() == p.len() && forall|i: int|
        0 <= i < v.len() ==> (#[trigger] v[i]).0@ == p[i].0 && v[i].1@ == p[i].1
}

/// A piece without `=` contributes no pair, in either encoding: malformed
/// input is dropped silently, never an error.
pub proof fn lemma_piece_without_eq_dropped(ps: Seq<Seq<char>>, p: Seq<char>)
    requires
        first_occ(p, '=') == -1,
    ensures
        urlencoded_pairs_of(ps.push(p)) == urlencoded_pairs_of(ps),
        multipart_pairs_of(ps.push(p)) == multipart_pairs_of(ps),
{
    assert(ps.push(p).drop_last() =~= ps);
    assert(ps.push(p).last() == p);
}

/// Percent-decode one component, falling back to the empty string.
fn decode_component(t: &str) -> (r: String)
    ensures
        r@ == dec_or_empty(t@),
{
    match percent_decode(t) {
        Some(d) => d,
        None => String::new(),
    }
}

/// Parse a urlencoded body into decoded key/value pairs.
pub fn parse_urlencoded(body: &str) -> (r: Vec<(String, String)>)
    ensures
        pairs_match(r@, spec_parse_urlencoded(body@)),
{
    let ghost pieces = split_on(body@, '&');
    let parts = split_str(body, '&');
    let n: usize = parts.len();
    let mut out: Vec<(String, String)> = Vec::new();
    let mut k: usize = 0;
    while k < n
        invariant
            seq_views(parts@) == pieces,
            parts@.len() == n,
            0 <= k <= n,
            pairs_match(out@, urlencoded_pairs_of(pieces.take(k as int))),
        decreases n - k,
    {
        let p = &parts[k];
        let pn: usize = p.as_str().unicode_len();
        proof {
            assert(p@ == pieces[k as int]);
            lemma_first_occ(p@, '=');
            assert(pieces.take(k as int + 1).drop_last() =~= pieces.take(k as int));
        }
        match find_char(p.as_str(), '=') {
            Some(i) => {
                let key = p.as_str().substring_char(0, i);
                let val = p.as_str().substring_char(i + 1, pn);
                let dk = decode_component(key);
                let dv = decode_component(val);
                out.push((dk, dv));
                proof {
                    assert(pairs_match(out@, urlencoded_pairs_of(pieces.take(k as int + 1))));
                }
            },
            None => {
                proof {
                    assert(pairs_match(out@, urlencoded_pairs_of(pieces.take(k as int + 1))));
                }
            },
        }
        k = k + 1;
    }
    proof {
        assert(pieces.take(n as int) =~= pieces);
    }
    out
}

/// Parse a line-based multipart body into trimmed key/value pairs.
pub fn parse_multipart(body: &str) -> (r: Vec<(String, String)>)
    ensures
        pairs_match(r@, spec_parse_multipart(body@)),
{
    let ghost ls = spec_lines(body@);
    let lines = split_lines(body);
    let n: usize = lines.len();
    let mut out: Vec<(String, String)> = Vec::new();
    let mut k: usize = 0;
    while k < n
        invariant
            seq_views(lines@) == ls,
            lines@.len() == n,
            0 <= k <= n,
            pairs_match(out@, multipart_pairs_of(ls.take(k as int))),
        decreases n - k,
    {
        let p = &lines[k];
        let pn: usize = p.as_str().unicode_len();
        proof {
            assert(p@ == ls[k as int]);
            lemma_first_occ(p@, '=');
            assert(ls.take(k as int + 1).drop_last() =~= ls.take(k as int));
        }
        match find_char(p.as_str(), '=') {
            Some(i) => {
                let key = p.as_str().substring_char(0, i);
                let val = p.as_str().substring_char(i + 1, pn);
                let tk = trim_str(key);
                let tv = trim_str(val);
                out.push((tk, tv));
                proof {
                    assert(pairs_match(out@, multipart_pairs_of(ls.take(k as int + 1))));
                }
            },
            None => {
                proof {
                    assert(pairs_match(out@, multipart_pairs_of(ls.take(k as int + 1))));
                }
            },
        }
        k = k + 1;
    }
    proof {
        assert(ls.take(n as int) =~= ls);
    }
    out
}

/// Parse a form body under a form-type selector: `urlencoded` and
/// `multipart` yield the ordered pairs of the respective encoding, and any
/// other selector is refused.
pub fn parse_form_data(form_str: &str, form_type: &str) -> (r: Result<
    Vec<(String, String)>,
    String,
>)
    ensures
        form_type@ == "urlencoded"@ ==> (r matches Ok(v) && pairs_match(
            v@,
            spec_parse_urlencoded(form_str@),
        )),
        form_type@ == "multipart"@ ==> (r matches Ok(v) && pairs_match(
            v@,
            spec_parse_multipart(form_str@),
        )),
        form_type@ != "urlencoded"@ && form_type@ != "multipart"@ ==> (r matches Err(m) && m@
            == "Unsupported form type"@),
{
    proof {
        reveal_strlit("urlencoded");
        reveal_strlit("multipart");
        assert("urlencoded"@.len() == 10);
        assert("multipart"@.len() == 9);
    }
    if str_eq(form_type, "urlencoded") {
        Ok(parse_urlencoded(form_str))
    } else if str_eq(form_type, "multipart") {
        Ok(parse_multipart(form_str))
    } else {
        Err(String::from_str("Unsupported form type"))
    }
}

} // verus!
