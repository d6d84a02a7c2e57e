//! Matching of literal pieces inside a text frame.

use vstd::prelude::*;

verus! {

/// Whether `pat` occurs in `s` starting at position `at`.
pub open spec fn occurs_at(s: Seq<char>, pat: Seq<char>, at: int) -> bool {
    &&& 0 <= at
    &&& at + pat.len() <= s.len()
    &&& s.subrange(at, at + pat.len()) == pat
}

/// Whether `pat` occurs anywhere in `s`.
pub open spec fn contains_seq(s: Seq<char>, pat: Seq<char>) -> bool {
    exists|i: int| occurs_at(s, pat, i)
}

/// Tests whether the literal `lit` stands in `s` at position `at`.
pub fn match_at(s: &str, at: usize, lit: &str) -> (b: bool)
    requires
        s@.len() <= usize::MAX,
        at <= s@.len(),
    ensures
        b <==> occurs_at(s@, lit@, at as int),
{
    let n = s.unicode_len();
    let l = lit.unicode_len();
    if l > n - at {
        return false;
    }
    let mut i: usize = 0;
    while i < l
        invariant
            0 <= i <= l,
            l == lit@.len(),
            n == s@.len(),
            at + l <= n,
            forall|k: int| 0 <= k < i ==> s@[at + k] == lit@[k],
        decreases l - i,
    {
        if s.get_char(at + i) != lit.get_char(i) {
            proof {
                assert(s@.subrange(at as int, at + lit@.len())[i as int] == s@[at + i]);
            }
            return false;
        }
        i = i + 1;
    }
    proof {
        assert(s@.subrange(at as int, at + lit@.len()) =~= lit@);
    }
    true
}

/// Tests whether the literal `lit` occurs anywhere in `s`.
pub fn contains_lit(s: &str, lit: &str) -> (b: bool)
    requires
        s@.len() <= usize::MAX,
    ensures
        b <==> contains_seq(s@, lit@),
{
    let n = s.unicode_len();
    let l = lit.unicode_len();
    if l > n {
        proof {
            assert(forall|i: int| !occurs_at(s@, lit@, i));
        }
        return false;
    }
    if l == 0 {
        proof {
            assert(s@.subrange(0, 0) =~= lit@);
            assert(occurs_at(s@, lit@, 0));
        }
        return true;
    }
    let mut i: usize = 0;
    while i <= n - l
        invariant
            0 <= i <= n - l + 1,
            1 <= l <= n,
            n <= usize::MAX,
            l == lit@.len(),
            n == s@.len(),
            forall|k: int| 0 <= k < i ==> !occurs_at(s@, lit@, k),
        decreases n - l + 1 - i,
    {
        if match_at(s, i, lit) {
            return true;
        }
        i = i + 1;
    }
    proof {
        assert(forall|k: int| occurs_at(s@, lit@, k) ==> 0 <= k <= n - l);
    }
    false
}

} // verus!
