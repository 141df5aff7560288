//! Small verified helpers on strings: equality, safe-character checks and
//! newline joining, used by the protocol and the enforcement backend.

use vstd::prelude::*;
use vstd::string::*;

verus! {

/// Character-by-character equality of two string slices.
pub fn str_eq(a: &str, b: &str) -> (r: bool)
    ensures
        r == (a@ == b@),
{
    let alen = a.unicode_len();
    let blen = b.unicode_len();
    if alen != blen {
        return false;
    }
    let mut i: usize = 0;
    while i < alen
        invariant
            i <= alen,
            alen == a@.len(),
            alen == b@.len(),
            forall|j: int| 0 <= j < i ==> a@[j] == b@[j],
        decreases alen - i,
    {
        let ca = a.get_char(i);
        let cb = b.get_char(i);
        if ca != cb {
            return false;
        }
        i += 1;
    }
    proof {
        assert(a@ =~= b@);
    }
    true
}

/// A character that can be embedded verbatim between quotes in a JSON
/// document: not a quote, not a backslash, not a control character.
pub open spec fn spec_plain_char(c: char) -> bool {
    c != '"' && c != '\\' && c >= '\u{20}'
}

/// Text whose every character can be embedded verbatim in a JSON string.
pub open spec fn spec_plain_text(s: Seq<char>) -> bool {
    forall|i: int| 0 <= i < s.len() ==> spec_plain_char(#[trigger] s[i])
}

/// Checks that every character of `s` can be embedded verbatim in a JSON
/// string without escaping.
pub fn is_plain_text(s: &str) -> (r: bool)
    ensures
        r == spec_plain_text(s@),
{
    let n = s.unicode_len();
    let mut i: usize = 0;
    while i < n
        invariant
            i <= n,
            n == s@.len(),
            forall|j: int| 0 <= j < i ==> spec_plain_char(#[trigger] s@[j]),
        decreases n - i,
    {
        let c = s.get_char(i);
        if c == '"' || c == '\\' || !(c >= '\u{20}') {
            return false;
        }
        i += 1;
    }
    true
}

/// The given texts joined with a single newline between neighbors.
pub open spec fn spec_join_lines(items: Seq<Seq<char>>) -> Seq<char>
    decreases items.len(),
{
    if items.len() == 0 {
        Seq::empty()
    } else if items.len() == 1 {
        items[0]
    } else {
        spec_join_lines(items.drop_last()) + "\n"@ + items.last()
    }
}

/// Joins the given strings with a newline between neighbors.
pub fn join_lines(items: &Vec<String>) -> (r: String)
    ensures
        r@ == spec_join_lines(items.deep_view()),
{
    let mut r = String::new();
    let mut i: usize = 0;
    while i < items.len()
        invariant
            i <= items@.len(),
            r@ == spec_join_lines(items.deep_view().take(i as int)),
        decreases items@.len() - i,
    {
        if i > 0 {
            r.append("\n");
        }
        r.append(items[i].as_str());
        proof {
            let dv = items.deep_view();
            assert(dv.take(i as int + 1).drop_last() =~= dv.take(i as int));
            assert(dv.take(i as int + 1).last() == dv[i as int]);
            assert(dv[i as int] == items@[i as int]@);
        }
        i += 1;
    }
    proof {
        assert(items.deep_view().take(items@.len() as int) =~= items.deep_view());
    }
    r
}

} // verus!
