//! Character-level helpers over string views: equality, pattern occurrence,
//! suffix tests and path-component extraction.

use vstd::prelude::*;

verus! {

/// `p` occurs in `s` at position `i`.
pub open spec fn pattern_at(s: Seq<char>, i: int, p: Seq<char>) -> bool {
    0 <= i && i + p.len() <= s.len() && s.subrange(i, i + p.len() as int) == p
}

/// `p` is a suffix of `s`.
pub open spec fn has_suffix(s: Seq<char>, p: Seq<char>) -> bool {
    p.len() <= s.len() && s.subrange(s.len() - p.len(), s.len() as int) == p
}

/// Index of the last `'/'` in `s`, or `-1` if there is none.
pub open spec fn last_slash(s: Seq<char>) -> int
    decreases s.len(),
{
    if s.len() == 0 {
        -1
    } else if s.last() == '/' {
        s.len() - 1
    } else {
        last_slash(s.drop_last())
    }
}

/// If no `'/'` occurs after `k` and `k` is either `-1` or holds a `'/'`,
/// then `k` is exactly `last_slash(s)`.
pub proof fn lemma_last_slash_at(s: Seq<char>, k: int)
    requires
        -1 <= k < s.len(),
        k >= 0 ==> s[k] == '/',
        forall|j: int| k < j < s.len() ==> #[trigger] s[j] != '/',
    ensures
        last_slash(s) == k,
    decreases s.len(),
{
    if s.len() == 0 {
    } else if s.last() == '/' {
    } else {
        assert(forall|j: int| 0 <= j < s.len() - 1 ==> #[trigger] s.drop_last()[j] == s[j]);
        lemma_last_slash_at(s.drop_last(), k);
    }
}

/// Equality of two strings, character by character.
pub fn str_eq(a: &str, b: &str) -> (r: bool)
    ensures
        r == (a@ == b@),
{
    let na = a.unicode_len();
    let nb = b.unicode_len();
    if na != nb {
        return false;
    }
    let mut i: usize = 0;
    while i < na
        invariant
            0 <= i <= na,
            na == a@.len(),
            na == b@.len(),
            forall|j: int| 0 <= j < i ==> a@[j] == b@[j],
        decreases na - i,
    {
        if a.get_char(i) != b.get_char(i) {
            return false;
        }
        i = i + 1;
    }
    proof {
        assert(a@ =~= b@);
    }
    true
}

/// Does `p` occur in `s` at position `i`?
pub fn matches_at(s: &str, i: usize, p: &str) -> (r: bool)
    requires
        i <= s@.len(),
    ensures
        r == pattern_at(s@, i as int, p@),
{
    let n = s.unicode_len();
    let m = p.unicode_len();
    if m > n - i {
        return false;
    }
    let mut k: usize = 0;
    while k < m
        invariant
            0 <= k <= m,
            i + m <= n,
            n == s@.len(),
            m == p@.len(),
            forall|j: int| 0 <= j < k ==> s@[i + j] == p@[j],
        decreases m - k,
    {
        if s.get_char(i + k) != p.get_char(k) {
            proof {
                assert(s@.subrange(i as int, i + p@.len() as int)[k as int] == s@[i + k]);
            }
            return false;
        }
        k = k + 1;
    }
    proof {
        assert(s@.subrange(i as int, i + p@.len() as int) =~= p@);
    }
    true
}

/// Is `p` a suffix of `s`?
pub fn ends_with_str(s: &str, p: &str) -> (r: bool)
    ensures
        r == has_suffix(s@, p@),
{
    let n = s.unicode_len();
    let m = p.unicode_len();
    if m > n {
        return false;
    }
    matches_at(s, n - m, p)
}

/// The final path component of `s`: everything after the last `'/'`.
pub open spec fn final_component(s: Seq<char>) -> Seq<char> {
    s.subrange(last_slash(s) + 1, s.len() as int)
}

/// Returns the final path component of `s`.
pub fn last_component(s: &str) -> (r: String)
    ensures
        r@ == final_component(s@),
{
    let n = s.unicode_len();
    let mut k: usize = n;
    while k > 0 && s.get_char(k - 1) != '/'
        invariant
            0 <= k <= n,
            n == s@.len(),
            forall|j: int| k <= j < n ==> #[trigger] s@[j] != '/',
        decreases k,
    {
        k = k - 1;
    }
    proof {
        if k > 0 {
            lemma_last_slash_at(s@, k - 1);
        } else {
            lemma_last_slash_at(s@, -1);
        }
    }
    let mut out = String::new();
    let mut i: usize = k;
    while i < n
        invariant
            k <= i <= n,
            n == s@.len(),
            out@ == s@.subrange(k as int, i as int),
        decreases n - i,
    {
        let c = s.get_char(i);
        push_char(&mut out, c);
        proof {
            assert(s@.subrange(k as int, i + 1 as int) =~= s@.subrange(k as int, i as int).push(
                s@[i as int],
            ));
        }
        i = i + 1;
    }
    proof {
        assert(out@ =~= final_component(s@));
    }
    out
}

/// Appends one character to `out`.
///
/// Relies on `String::push` of std: it appends exactly the given character.
#[verifier::external_body]
pub fn push_char(out: &mut String, c: char)
    ensures
        final(out)@ == old(out)@.push(c),
{
    out.push(c);
}

} // verus!
