//! Character-level string utilities shared across the crate: appending a
//! character, substring matching and search, and whole-string equality,
//! all specified over `Seq<char>` views.

use vstd::prelude::*;

verus! {

/// `needle` occurs contiguously somewhere in `hay`.
pub open spec fn spec_contains_seq(hay: Seq<char>, needle: Seq<char>) -> bool {
    exists|k: int|
        0 <= k <= hay.len() - needle.len() && #[trigger] hay.subrange(k, k + needle.len())
            == needle
}

/// Relies on String::push: appends exactly the given character at the end.
#[verifier::external_body]
pub(crate) fn push_char(s: &mut String, c: char)
    ensures
        final(s)@ == old(s)@.push(c),
{
    s.push(c);
}

/// `needle` matches `hay` at position `k`.
pub(crate) fn match_at(hay: &str, needle: &str, k: usize) -> (b: bool)
    requires
        k + needle@.len() <= hay@.len(),
    ensures
        b == (hay@.subrange(k as int, k + needle@.len()) == needle@),
{
    let n = hay.unicode_len();
    let m = needle.unicode_len();
    let mut t: usize = 0;
    while t < m
        invariant
            t <= m,
            n == hay@.len(),
            m == needle@.len(),
            k + m <= hay@.len(),
            forall|j: int| 0 <= j < t ==> hay@[k + j] == needle@[j],
        decreases m - t,
    {
        if hay.get_char(k + t) != needle.get_char(t) {
            proof {
                if hay@.subrange(k as int, k + m) == needle@ {
                    assert(hay@.subrange(k as int, k + m)[t as int] == hay@[k + t]);
                }
            }
            return false;
        }
        t = t + 1;
    }
    proof {
        assert(hay@.subrange(k as int, k + m) =~= needle@);
    }
    true
}

/// Substring search over characters.
pub(crate) fn str_contains(hay: &str, needle: &str) -> (b: bool)
    ensures
        b == spec_contains_seq(hay@, needle@),
{
    let n = hay.unicode_len();
    let m = needle.unicode_len();
    if m > n {
        return false;
    }
    if m == 0 {
        proof {
            let zero: int = 0;
            assert(hay@.subrange(zero, zero + needle@.len() as int) =~= needle@);
            assert(spec_contains_seq(hay@, needle@));
        }
        return true;
    }
    let mut k: usize = 0;
    while k <= n - m
        invariant
            1 <= m <= n,
            n == hay@.len(),
            m == needle@.len(),
            k <= n - m + 1,
            forall|j: int| 0 <= j < k ==> #[trigger] hay@.subrange(j, j + m) != needle@,
        decreases n - k,
    {
        if match_at(hay, needle, k) {
            return true;
        }
        k = k + 1;
    }
    false
}

/// Whole-string equality over characters.
pub(crate) fn str_eq(a: &str, b: &str) -> (r: bool)
    ensures
        r == (a@ == b@),
{
    let n = a.unicode_len();
    let m = b.unicode_len();
    if n != m {
        return false;
    }
    let r = match_at(a, b, 0);
    proof {
        assert(a@.subrange(0, m as int) =~= a@);
    }
    r
}

} // verus!
