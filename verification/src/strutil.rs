//! Character-level string comparison helpers used by the settings parser.
use vstd::prelude::*;

verus! {

/// Whether `s` starts with `lit`.
pub fn str_starts_with(s: &str, lit: &str) -> (r: bool)
    ensures
        r == (s@.len() >= lit@.len() && s@.take(lit@.len() as int) == lit@),
{
    let n = lit.unicode_len();
    if s.unicode_len() < n {
        return false;
    }
    let mut i: usize = 0;
    while i < n
        invariant
            i <= n,
            n == lit@.len(),
            s@.len() >= n,
            forall|k: int| 0 <= k < i ==> s@[k] == lit@[k],
        decreases n - i,
    {
        if s.get_char(i) != lit.get_char(i) {
            proof {
                assert(s@.take(n as int)[i as int] != lit@[i as int]);
            }
            return false;
        }
        i += 1;
    }
    proof {
        assert(s@.take(n as int) =~= lit@);
    }
    true
}

/// Whether the part of `s` from character position `from` to its end equals
/// `lit`.
pub fn str_tail_is(s: &str, from: usize, lit: &str) -> (r: bool)
    requires
        from <= s@.len(),
    ensures
        r == (s@.skip(from as int) == lit@),
{
    let n = s.unicode_len();
    let m = lit.unicode_len();
    if n - from != m {
        proof {
            assert(s@.skip(from as int).len() != lit@.len());
        }
        return false;
    }
    let mut i: usize = 0;
    while i < m
        invariant
            i <= m,
            m == lit@.len(),
            n == s@.len(),
            from + m == n,
            forall|k: int| 0 <= k < i ==> s@[from + k] == lit@[k],
        decreases m - i,
    {
        if s.get_char(from + i) != lit.get_char(i) {
            proof {
                assert(s@.skip(from as int)[i as int] != lit@[i as int]);
            }
            return false;
        }
        i += 1;
    }
    proof {
        assert(s@.skip(from as int) =~= lit@);
    }
    true
}

} // verus!
