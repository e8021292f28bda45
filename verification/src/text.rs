//! Character-level string utilities: equality, first occurrence of a
//! character, splitting on a separator, splitting into lines, and trimming
//! whitespace. Specs speak over `Seq<char>` views.

use vstd::prelude::*;
use vstd::string::StrSliceExecFns;
use vstd::string::StringExecFns;

verus! {

/// The views of a sequence of owned strings.
pub open spec fn seq_views(v: Seq<String>) -> Seq<Seq<char>> {
    Seq::new(v.len(), |i: int| v[i]@)
}

/// Index of the first occurrence of `c` in `s`, or -1 when `c` does not occur.
pub open spec fn first_occ(s: Seq<char>, c: char) -> int
    decreases s.len(),
{
    if s.len() == 0 {
        -1
    } else if s[0] == c {
        0
    } else if first_occ(s.drop_first(), c) == -1 {
        -1
    } else {
        1 + first_occ(s.drop_first(), c)
    }
}

pub proof fn lemma_first_occ(s: Seq<char>, c: char)
    ensures
        first_occ(s, c) == -1 ==> forall|i: int| 0 <= i < s.len() ==> s[i] != c,
        first_occ(s, c) != -1 ==> 0 <= first_occ(s, c) < s.len() && s[first_occ(s, c)] == c
            && (forall|i: int| 0 <= i < first_occ(s, c) ==> s[i] != c),
    decreases s.len(),
{
    if s.len() == 0 {
    } else if s[0] == c {
    } else {
        let rest = s.drop_first();
        lemma_first_occ(rest, c);
        if first_occ(s, c) == -1 {
            assert forall|i: int| 0 <= i < s.len() implies s[i] != c by {
                if i > 0 {
                    assert(rest[i - 1] == s[i]);
                }
            }
        } else {
            let f = first_occ(rest, c);
            assert(s[1 + f] == rest[f]);
            assert forall|i: int| 0 <= i < 1 + f implies s[i] != c by {
                if i > 0 {
                    assert(rest[i - 1] == s[i]);
                }
            }
        }
    }
}

/// Character-wise string equality.
pub fn str_eq(a: &str, b: &str) -> (r: bool)
    ensures
        r == (a@ == b@),
{
    let na: usize = a.unicode_len();
    let nb: usize = b.unicode_len();
    if na != nb {
        return false;
    }
    let mut i: usize = 0;
    while i < na
        invariant
            na == a@.len(),
            na == b@.len(),
            0 <= i <= na,
            forall|j: int| 0 <= j < i ==> a@[j] == b@[j],
        decreases na - i,
    {
        if a.get_char(i) != b.get_char(i) {
            return false;
        }
        i = i + 1;
    }
    proof {
        assert(a@ =~= b@);
    }
    true
}

/// Find the first occurrence of `c` in `s`.
pub fn find_char(s: &str, c: char) -> (r: Option<usize>)
    ensures
        match r {
            Some(i) => first_occ(s@, c) == i as int,
            None => first_occ(s@, c) == -1,
        },
{
    let n: usize = s.unicode_len();
    let mut i: usize = 0;
    while i < n
        invariant
            n == s@.len(),
            0 <= i <= n,
            forall|j: int| 0 <= j < i ==> s@[j] != c,
        decreases n - i,
    {
        if s.get_char(i) == c {
            proof {
                lemma_first_occ(s@, c);
            }
            return Some(i);
        }
        i = i + 1;
    }
    proof {
        lemma_first_occ(s@, c);
    }
    None
}

/// The pieces of `s` split on the separator `c`: always at least one piece,
/// and the separator occurs in none of them.
pub open spec fn split_on(s: Seq<char>, c: char) -> Seq<Seq<char>>
    decreases s.len(),
{
    let i = first_occ(s, c);
    if 0 <= i < s.len() {
        seq![s.take(i)] + split_on(s.skip(i + 1), c)
    } else {
        seq![s]
    }
}

pub proof fn lemma_split_on_len(s: Seq<char>, c: char)
    ensures
        split_on(s, c).len() >= 1,
{
}

/// Split `s` on every occurrence of `c`.
pub fn split_str(s: &str, c: char) -> (r: Vec<String>)
    ensures
        seq_views(r@) == split_on(s@, c),
    decreases s@.len(),
{
    proof {
        lemma_first_occ(s@, c);
    }
    let n: usize = s.unicode_len();
    match find_char(s, c) {
        Some(i) => {
            let head = s.substring_char(0, i);
            let tail = s.substring_char(i + 1, n);
            let mut r: Vec<String> = Vec::new();
            r.push(String::from_str(head));
            let mut rest = split_str(tail, c);
            let ghost rest_snap = rest@;
            r.append(&mut rest);
            proof {
                assert(head@ == s@.take(i as int));
                assert(tail@ == s@.skip(i as int + 1));
                assert(seq_views(r@) =~= seq![head@] + seq_views(rest_snap));
                assert(split_on(s@, c) == seq![s@.take(i as int)] + split_on(s@.skip(i as int + 1), c));
                assert(seq_views(r@) =~= split_on(s@, c));
            }
            r
        },
        None => {
            let mut r: Vec<String> = Vec::new();
            r.push(String::from_str(s));
            proof {
                assert(seq_views(r@) =~= seq![s@]);
            }
            r
        },
    }
}

/// One trailing carriage return is removed, as at the end of a line.
pub open spec fn strip_cr(p: Seq<char>) -> Seq<char> {
    if p.len() > 0 && p[p.len() - 1] == '\r' {
        p.drop_last()
    } else {
        p
    }
}

/// The lines of `s`: pieces split on a line feed, each piece before a line
/// feed with one trailing carriage return removed, and a final empty piece
/// (after a trailing line feed) dropped.
pub open spec fn spec_lines(s: Seq<char>) -> Seq<Seq<char>> {
    let raw = split_on(s, '\n');
    let stripped = Seq::new(
        raw.len(),
        |i: int| if i < raw.len() - 1 { strip_cr(raw[i]) } else { raw[i] },
    );
    if stripped[stripped.len() - 1].len() == 0 {
        stripped.drop_last()
    } else {
        stripped
    }
}

/// Split `s` into lines.
pub fn split_lines(s: &str) -> (r: Vec<String>)
    ensures
        seq_views(r@) == spec_lines(s@),
{
    proof {
        lemma_split_on_len(s@, '\n');
    }
    let ghost raw = split_on(s@, '\n');
    let parts = split_str(s, '\n');
    let n: usize = parts.len();
    let mut out: Vec<String> = Vec::new();
    let mut k: usize = 0;
    while k + 1 < n
        invariant
            n == raw.len(),
            n >= 1,
            seq_views(parts@) == raw,
            parts@.len() == n,
            out@.len() == k,
            0 <= k <= n - 1,
            forall|j: int| 0 <= j < k ==> (#[trigger] out@[j])@ == strip_cr(raw[j]),
        decreases n - k,
    {
        let p = &parts[k];
        let pl: usize = p.as_str().unicode_len();
        if pl > 0 && p.as_str().get_char(pl - 1) == '\r' {
            out.push(String::from_str(p.as_str().substring_char(0, pl - 1)));
            proof {
                assert(out@[k as int]@ == strip_cr(raw[k as int]));
            }
        } else {
            out.push(p.clone());
            proof {
                assert(out@[k as int]@ == strip_cr(raw[k as int]));
            }
        }
        k = k + 1;
    }
    let lastp = &parts[n - 1];
    if lastp.as_str().unicode_len() != 0 {
        out.push(lastp.clone());
    }
    proof {
        let stripped = Seq::new(
            raw.len(),
            |i: int| if i < raw.len() - 1 { strip_cr(raw[i]) } else { raw[i] },
        );
        if raw[n - 1].len() == 0 {
            assert(seq_views(out@) =~= stripped.drop_last());
        } else {
            assert(seq_views(out@) =~= stripped);
        }
    }
    out
}

/// A character with the Unicode white-space property.
pub open spec fn is_space_char(c: char) -> bool {
    let u = c as u32;
    u == 0x09 || u == 0x0a || u == 0x0b || u == 0x0c || u == 0x0d || u == 0x20 || u == 0x85 || u
        == 0xa0 || u == 0x1680 || (0x2000 <= u && u <= 0x200a) || u == 0x2028 || u == 0x2029 || u
        == 0x202f || u == 0x205f || u == 0x3000
}

/// Whether `c` has the Unicode white-space property.
pub fn is_space(c: char) -> (r: bool)
    ensures
        r == is_space_char(c),
{
    let u = c as u32;
    u == 0x09 || u == 0x0a || u == 0x0b || u == 0x0c || u == 0x0d || u == 0x20 || u == 0x85 || u
        == 0xa0 || u == 0x1680 || (0x2000 <= u && u <= 0x200a) || u == 0x2028 || u == 0x2029 || u
        == 0x202f || u == 0x205f || u == 0x3000
}

/// Index of the first non-white-space character, or the length when there is
/// none.
pub open spec fn first_graph(s: Seq<char>) -> int
    decreases s.len(),
{
    if s.len() == 0 {
        0
    } else if !is_space_char(s[0]) {
        0
    } else {
        1 + first_graph(s.drop_first())
    }
}

/// Index of the last non-white-space character, or -1 when there is none.
pub open spec fn last_graph(s: Seq<char>) -> int
    decreases s.len(),
{
    if s.len() == 0 {
        -1
    } else if !is_space_char(s[s.len() - 1]) {
        s.len() - 1
    } else {
        last_graph(s.drop_last())
    }
}

pub proof fn lemma_first_graph(s: Seq<char>)
    ensures
        0 <= first_graph(s) <= s.len(),
        forall|i: int| 0 <= i < first_graph(s) ==> is_space_char(s[i]),
        first_graph(s) < s.len() ==> !is_space_char(s[first_graph(s)]),
    decreases s.len(),
{
    if s.len() == 0 {
    } else if !is_space_char(s[0]) {
    } else {
        let rest = s.drop_first();
        lemma_first_graph(rest);
        let f = first_graph(rest);
        assert forall|i: int| 0 <= i < 1 + f implies is_space_char(s[i]) by {
            if i > 0 {
                assert(rest[i - 1] == s[i]);
            }
        }
        if 1 + f < s.len() {
            assert(s[1 + f] == rest[f]);
        }
    }
}

pub proof fn lemma_last_graph(s: Seq<char>)
    ensures
        -1 <= last_graph(s) < s.len(),
        forall|i: int| last_graph(s) < i < s.len() ==> is_space_char(s[i]),
        last_graph(s) >= 0 ==> !is_space_char(s[last_graph(s)]),
    decreases s.len(),
{
    if s.len() == 0 {
    } else if !is_space_char(s[s.len() - 1]) {
    } else {
        let rest = s.drop_last();
        lemma_last_graph(rest);
        let g = last_graph(rest);
        assert forall|i: int| g < i < s.len() implies is_space_char(s[i]) by {
            if i < s.len() - 1 {
                assert(rest[i] == s[i]);
            }
        }
        if g >= 0 {
            assert(rest[g] == s[g]);
        }
    }
}

/// `s` with leading and trailing white space removed.
pub open spec fn spec_trim(s: Seq<char>) -> Seq<char> {
    let a = first_graph(s);
    let b = last_graph(s);
    if a <= b {
        s.subrange(a, b + 1)
    } else {
        Seq::empty()
    }
}

/// Trim leading and trailing white space from `s`.
pub fn trim_str(s: &str) -> (r: String)
    ensures
        r@ == spec_trim(s@),
{
    let n: usize = s.unicode_len();
    let mut a: usize = 0;
    while a < n && is_space(s.get_char(a))
        invariant
            n == s@.len(),
            0 <= a <= n,
            forall|j: int| 0 <= j < a ==> is_space_char(s@[j]),
        decreases n - a,
    {
        a = a + 1;
    }
    let mut b: usize = n;
    while b > a && is_space(s.get_char(b - 1))
        invariant
            n == s@.len(),
            a <= b <= n,
            a < n ==> !is_space_char(s@[a as int]),
            forall|j: int| 0 <= j < a ==> is_space_char(s@[j]),
            forall|j: int| b <= j < n ==> is_space_char(s@[j]),
        decreases b,
    {
        b = b - 1;
    }
    proof {
        lemma_first_graph(s@);
        lemma_last_graph(s@);
        let fg = first_graph(s@);
        let lg = last_graph(s@);
        if a == n {
            assert(fg == n) by {
                if fg < n {
                    assert(is_space_char(s@[fg]));
                }
            }
            assert(lg == -1) by {
                if lg >= 0 {
                    assert(is_space_char(s@[lg]));
                }
            }
        } else {
            assert(fg == a) by {
                if fg < a {
                    assert(is_space_char(s@[fg]));
                }
                if fg > a as int {
                    assert(is_space_char(s@[a as int]));
                }
            }
            assert(b > a) by {
                if b == a {
                    assert(is_space_char(s@[a as int]));
                }
            }
            assert(lg == b - 1) by {
                if lg < b - 1 {
                    assert(is_space_char(s@[b - 1]));
                }
                if lg > b - 1 {
                    assert(is_space_char(s@[lg]));
                }
            }
        }
    }
    String::from_str(s.substring_char(a, b))
}

} // verus!
