//! Character-level string predicates and the two Unicode-table operations
//! (trimming, lowercasing) that the normalization rules are built on.

use vstd::prelude::*;

verus! {

/// The characters of a string after `str::trim`. Which characters count as
/// whitespace is Unicode property data, so the result is only named here.
pub uninterp spec fn trim_of(s: Seq<char>) -> Seq<char>;

/// The characters of a string after `str::to_lowercase`. The mapping is
/// Unicode case-folding data, so the result is only named here.
pub uninterp spec fn lower_of(s: Seq<char>) -> Seq<char>;

/// Relies on `str::trim`: removes leading and trailing whitespace; the
/// result depends on the characters alone.
#[verifier::external_body]
pub(crate) fn trim_str(s: &str) -> (r: &str)
    ensures
        r@ == trim_of(s@),
{
    s.trim()
}

/// Relies on `str::to_lowercase`: the result depends on the characters alone.
#[verifier::external_body]
pub(crate) fn lower_str(s: &str) -> (r: String)
    ensures
        r@ == lower_of(s@),
{
    s.to_lowercase()
}

/// `p` occurs contiguously somewhere inside `s`.
pub open spec fn has_substring(s: Seq<char>, p: Seq<char>) -> bool {
    exists|i: int| 0 <= i && i + p.len() <= s.len() && #[trigger] s.subrange(i, i + p.len()) == p
}

/// `p` is an initial segment of `s`.
pub open spec fn has_prefix(s: Seq<char>, p: Seq<char>) -> bool {
    p.len() <= s.len() && s.subrange(0, p.len() as int) == p
}

/// Character-for-character string equality.
pub fn str_eq(a: &str, b: &str) -> (r: bool)
    ensures
        r == (a@ == b@),
{
    let owned_a = a.to_owned();
    let owned_b = b.to_owned();
    owned_a == owned_b
}

/// Whether `p` matches the characters of `s` starting at `offset`.
fn str_match_at(s: &str, p: &str, offset: usize) -> (r: bool)
    requires
        offset + p@.len() <= s@.len(),
    ensures
        r == (s@.subrange(offset as int, offset + p@.len()) == p@),
{
    let n = s.unicode_len();
    let m = p.unicode_len();
    let mut j: usize = 0;
    while j < m
        invariant
            n == s@.len(),
            m == p@.len(),
            offset + m <= n,
            j <= m,
            forall|l: int| 0 <= l < j ==> s@[offset + l] == p@[l],
        decreases m - j,
    {
        if s.get_char(offset + j) != p.get_char(j) {
            proof {
                assert(s@.subrange(offset as int, offset + p@.len())[j as int] == s@[offset + j]);
            }
            return false;
        }
        j += 1;
    }
    proof {
        assert(s@.subrange(offset as int, offset + p@.len()) =~= p@);
    }
    true
}

/// Whether `s` contains `p` as a contiguous substring.
pub fn str_contains(s: &str, p: &str) -> (r: bool)
    ensures
        r == has_substring(s@, p@),
{
    let n = s.unicode_len();
    let m = p.unicode_len();
    if m > n {
        return false;
    }
    if m == 0 {
        proof {
            let zero: int = 0;
            assert(s@.subrange(zero, zero + p@.len()) =~= p@);
        }
        return true;
    }
    let mut i: usize = 0;
    while i <= n - m
        invariant
            n == s@.len(),
            m == p@.len(),
            1 <= m <= n,
            i <= n - m + 1,
            forall|k: int| 0 <= k < i ==> #[trigger] s@.subrange(k, k + p@.len()) != p@,
        decreases n - m - i + 1,
    {
        if str_match_at(s, p, i) {
            assert(s@.subrange(i as int, i + p@.len()) == p@);
            return true;
        }
        i += 1;
    }
    false
}

/// Whether `s` starts with `p`.
pub fn str_has_prefix(s: &str, p: &str) -> (r: bool)
    ensures
        r == has_prefix(s@, p@),
{
    let n = s.unicode_len();
    let m = p.unicode_len();
    if m > n {
        return false;
    }
    str_match_at(s, p, 0)
}

} // verus!
