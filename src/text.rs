//! Comparing text up to ASCII case.
use vstd::prelude::*;

verus! {

/// `x` and `y` are equal up to ASCII case.
pub open spec fn ascii_case_eq(x: char, y: char) -> bool {
    ||| x == y
    ||| ('A' <= x <= 'Z' && (x as u32) + 32 == y as u32)
    ||| ('A' <= y <= 'Z' && (y as u32) + 32 == x as u32)
}

/// `a` and `b` are an ASCII case-insensitive match.
pub open spec fn seq_ascii_case_eq(a: Seq<char>, b: Seq<char>) -> bool {
    &&& a.len() == b.len()
    &&& forall|i: int| 0 <= i < a.len() ==> #[trigger] ascii_case_eq(a[i], b[i])
}

/// ASCII case-insensitive matching does not depend on the order of its
/// arguments.
pub proof fn lemma_ascii_case_eq_symmetric(a: Seq<char>, b: Seq<char>)
    ensures
        seq_ascii_case_eq(a, b) == seq_ascii_case_eq(b, a),
{
    if seq_ascii_case_eq(a, b) {
        assert forall|i: int| 0 <= i < b.len() implies #[trigger] ascii_case_eq(b[i], a[i]) by {
            assert(ascii_case_eq(a[i], b[i]));
        }
    }
    if seq_ascii_case_eq(b, a) {
        assert forall|i: int| 0 <= i < a.len() implies #[trigger] ascii_case_eq(a[i], b[i]) by {
            assert(ascii_case_eq(b[i], a[i]));
        }
    }
}

/// Relies on `str::eq_ignore_ascii_case`: documented as the same as
/// comparing the two strings after `to_ascii_lowercase`, which lowers
/// `A`..=`Z` and keeps every other character.
#[verifier::external_body]
pub(crate) fn eq_ignore_ascii_case(a: &str, b: &str) -> (r: bool)
    ensures
        r == seq_ascii_case_eq(a@, b@),
{
    a.eq_ignore_ascii_case(b)
}

} // verus!
