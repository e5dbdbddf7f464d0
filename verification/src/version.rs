//! Semantic `major.minor[.patch]` version identifiers: parsing, ordering,
//! textual form, and the minimum-version gate that runs before any network
//! or file-system activity.

use vstd::prelude::*;

use crate::error::Error;

verus! {

/// A semantic version identifier.  Immutable once constructed.
///
/// An absent `patch` is a distinct value from `Some(0)` for equality, and
/// sorts below any present patch for equal `major.minor` (see
/// [`version_lt`]).
#[derive(Clone, Copy, Debug, PartialEq, Eq, Structural)]
pub struct Version {
    pub major: usize,
    pub minor: usize,
    pub patch: Option<usize>,
}

/// Strict order on the optional patch component: an absent patch sorts
/// below any present one.
pub open spec fn patch_lt(a: Option<usize>, b: Option<usize>) -> bool {
    match (a, b) {
        (Option::None, Option::Some(_)) => true,
        (Option::Some(x), Option::Some(y)) => x < y,
        _ => false,
    }
}

/// Strict lexicographic order on `(major, minor, patch)`.
pub open spec fn version_lt(a: Version, b: Version) -> bool {
    ||| a.major < b.major
    ||| (a.major == b.major && a.minor < b.minor)
    ||| (a.major == b.major && a.minor == b.minor && patch_lt(a.patch, b.patch))
}

/// `version_lt` together with `==` is a strict total order: exactly one of
/// `a < b`, `a == b`, `b < a` holds, and the order is transitive.
pub proof fn lemma_version_order_strict_total(a: Version, b: Version, c: Version)
    ensures
        version_lt(a, b) || version_lt(b, a) || a == b,
        !(version_lt(a, b) && version_lt(b, a)),
        !(version_lt(a, a)),
        version_lt(a, b) && version_lt(b, c) ==> version_lt(a, c),
{
}

pub open spec fn is_digit_char(c: char) -> bool {
    48 <= c as int && c as int <= 57
}

pub open spec fn digit_of(c: char) -> nat {
    (c as int - 48) as nat
}

/// The numeric value of a sequence of decimal digit characters.
pub open spec fn digits_val(s: Seq<char>) -> nat
    decreases s.len(),
{
    if s.len() == 0 {
        0
    } else {
        digits_val(s.drop_last()) * 10 + digit_of(s.last())
    }
}

pub open spec fn all_digits(s: Seq<char>) -> bool {
    forall|i: int| 0 <= i < s.len() ==> is_digit_char(#[trigger] s[i])
}

/// A non-empty, all-digit segment whose value fits the machine word.
pub open spec fn valid_num(s: Seq<char>) -> bool {
    s.len() > 0 && all_digits(s) && digits_val(s) <= usize::MAX as nat
}

/// Index of the first `'.'` in `s`, or `s.len()` if there is none.
pub open spec fn first_dot(s: Seq<char>) -> int
    decreases s.len(),
{
    if s.len() == 0 {
        0
    } else if s[0] == '.' {
        0
    } else {
        1 + first_dot(s.drop_first())
    }
}

/// If no `'.'` occurs before `k` and either `k` is the end or holds a `'.'`,
/// then `k` is exactly `first_dot(s)`.
pub proof fn lemma_first_dot_at(s: Seq<char>, k: int)
    requires
        0 <= k <= s.len(),
        forall|j: int| 0 <= j < k ==> #[trigger] s[j] != '.',
        k < s.len() ==> s[k] == '.',
        k == s.len() ==> forall|j: int| 0 <= j < s.len() ==> #[trigger] s[j] != '.',
    ensures
        first_dot(s) == k,
    decreases s.len(),
{
    if s.len() == 0 {
    } else if k == 0 {
    } else {
        assert(forall|j: int| 0 <= j < k - 1 ==> #[trigger] s.drop_first()[j] == s[j + 1]);
        lemma_first_dot_at(s.drop_first(), k - 1);
    }
}

/// The value of a digit string only grows as more digits are appended.
pub proof fn lemma_digits_val_prefix(s: Seq<char>, i: int)
    requires
        0 <= i <= s.len(),
    ensures
        digits_val(s.subrange(0, i)) <= digits_val(s),
    decreases s.len(),
{
    if i == s.len() {
        assert(s.subrange(0, i) =~= s);
    } else {
        assert(s.drop_last().subrange(0, i) =~= s.subrange(0, i));
        lemma_digits_val_prefix(s.drop_last(), i);
    }
}

/// A leading `'v'` is accepted and ignored.
pub open spec fn strip_leading_v(s: Seq<char>) -> Seq<char> {
    if s.len() > 0 && s[0] == 'v' {
        s.drop_first()
    } else {
        s
    }
}

/// After the optional `'v'` is stripped, the text must split on `'.'` into
/// two or three parts; the first two are mandatory numbers, the third, if
/// present, is the patch.  Anything else (an empty segment, a non-digit, a
/// fourth part, an overflowing value) is malformed.
pub open spec fn version_parts_valid(t: Seq<char>) -> bool {
    let i = first_dot(t);
    &&& i < t.len()
    &&& valid_num(t.subrange(0, i))
    &&& {
        let rest = t.subrange(i + 1, t.len() as int);
        let j = first_dot(rest);
        if j < rest.len() {
            valid_num(rest.subrange(0, j)) && valid_num(rest.subrange(j + 1, rest.len() as int))
        } else {
            valid_num(rest)
        }
    }
}

pub open spec fn valid_version_literal(s: Seq<char>) -> bool {
    version_parts_valid(strip_leading_v(s))
}

/// The version a well-formed literal denotes.
pub open spec fn spec_version_of(s: Seq<char>) -> Version {
    let t = strip_leading_v(s);
    let i = first_dot(t);
    let rest = t.subrange(i + 1, t.len() as int);
    let j = first_dot(rest);
    Version {
        major: digits_val(t.subrange(0, i)) as usize,
        minor: if j < rest.len() {
            digits_val(rest.subrange(0, j)) as usize
        } else {
            digits_val(rest) as usize
        },
        patch: if j < rest.len() {
            Option::Some(digits_val(rest.subrange(j + 1, rest.len() as int)) as usize)
        } else {
            Option::None
        },
    }
}

/// Parses the non-empty all-digit segment `s[from..to]`, rejecting anything
/// else and any value above `usize::MAX`.
fn parse_num(s: &str, from: usize, to: usize) -> (r: Result<usize, Error>)
    requires
        from <= to <= s@.len(),
    ensures
        r is Ok <==> valid_num(s@.subrange(from as int, to as int)),
        r is Ok ==> r->Ok_0 == digits_val(s@.subrange(from as int, to as int)),
        r is Err ==> r->Err_0 == Error::Parse,
{
    if from == to {
        return Err(Error::Parse);
    }
    let mut acc: usize = 0;
    let mut i: usize = from;
    while i < to
        invariant
            from <= i <= to <= s@.len(),
            from < to,
            all_digits(s@.subrange(from as int, i as int)),
            acc == digits_val(s@.subrange(from as int, i as int)),
        decreases to - i,
    {
        let c = s.get_char(i);
        let u = c as u32;
        let ghost pre = s@.subrange(from as int, i as int);
        let ghost cur = s@.subrange(from as int, i + 1 as int);
        proof {
            assert(cur.drop_last() =~= pre);
            assert(cur.last() == s@[i as int]);
        }
        if !(48 <= u && u <= 57) {
            proof {
                let whole = s@.subrange(from as int, to as int);
                assert(whole[i - from] == s@[i as int]);
                assert(!is_digit_char(whole[i - from]));
            }
            return Err(Error::Parse);
        }
        let d = (u - 48) as usize;
        let big = match acc.checked_mul(10) {
            Some(a) => a.checked_add(d),
            None => None,
        };
        match big {
            Some(b) => {
                acc = b;
            },
            None => {
                proof {
                    let whole = s@.subrange(from as int, to as int);
                    assert(cur =~= whole.subrange(0, i + 1 - from));
                    lemma_digits_val_prefix(whole, i + 1 - from);
                    assert(digits_val(whole) > usize::MAX as nat);
                }
                return Err(Error::Parse);
            },
        }
        i = i + 1;
    }
    proof {
        assert(s@.subrange(from as int, i as int) =~= s@.subrange(from as int, to as int));
    }
    Ok(acc)
}

/// Finds the first `'.'` at or after `from`, or returns `n` if none.
fn find_dot(s: &str, from: usize, n: usize) -> (r: usize)
    requires
        from <= n,
        n == s@.len(),
    ensures
        from <= r <= n,
        forall|j: int| from <= j < r ==> #[trigger] s@[j] != '.',
        r < n ==> s@[r as int] == '.',
{
    let mut i: usize = from;
    while i < n
        invariant
            from <= i <= n,
            n == s@.len(),
            forall|j: int| from <= j < i ==> #[trigger] s@[j] != '.',
        decreases n - i,
    {
        if s.get_char(i) == '.' {
            return i;
        }
        i = i + 1;
    }
    i
}

impl Version {
    /// The lowest framework version the first supported engine can build.
    pub fn min_love_version() -> (v: Version)
        ensures
            v == (Version { major: 11, minor: 0, patch: Option::None }),
    {
        Version { major: 11, minor: 0, patch: None }
    }

    /// The lowest framework version the second supported engine can build.
    pub fn min_lovr_version() -> (v: Version)
        ensures
            v == (Version { major: 0, minor: 15, patch: Option::Some(0usize) }),
    {
        Version { major: 0, minor: 15, patch: Some(0) }
    }

    /// The latest known release of the first supported engine.
    pub fn latest_love_version() -> (v: Version)
        ensures
            v == (Version { major: 11, minor: 5, patch: Option::None }),
    {
        Version { major: 11, minor: 5, patch: None }
    }

    /// The latest known release of the second supported engine.
    pub fn latest_lovr_version() -> (v: Version)
        ensures
            v == (Version { major: 0, minor: 17, patch: Option::Some(0usize) }),
    {
        Version { major: 0, minor: 17, patch: Some(0) }
    }

    /// Strict comparison in the order of [`version_lt`].
    pub fn lt(&self, other: &Version) -> (r: bool)
        ensures
            r == version_lt(*self, *other),
    {
        if self.major != other.major {
            self.major < other.major
        } else if self.minor != other.minor {
            self.minor < other.minor
        } else {
            match (self.patch, other.patch) {
                (None, Some(_)) => true,
                (Some(x), Some(y)) => x < y,
                _ => false,
            }
        }
    }

    /// Reads a version from text: an optional leading `v`, then two or
    /// three dot-separated decimal numbers.
    #[verifier::rlimit(50)]
    pub fn parse(s: &str) -> (r: Result<Version, Error>)
        ensures
            r is Ok <==> valid_version_literal(s@),
            r is Ok ==> r->Ok_0 == spec_version_of(s@),
            r is Err ==> r->Err_0 == Error::Parse,
    {
        let n = s.unicode_len();
        let start: usize = if n > 0 && s.get_char(0) == 'v' {
            1
        } else {
            0
        };
        let ghost t = strip_leading_v(s@);
        proof {
            assert(t =~= s@.subrange(start as int, n as int));
        }
        let d1 = find_dot(s, start, n);
        proof {
            assert(forall|j: int|
                0 <= j < d1 - start ==> #[trigger] t[j] == s@[j + start] && t[j] != '.');
            lemma_first_dot_at(t, d1 - start);
        }
        if d1 == n {
            return Err(Error::Parse);
        }
        let ghost i = d1 - start;
        let ghost rest = t.subrange(i + 1, t.len() as int);
        proof {
            assert(rest =~= s@.subrange(d1 + 1 as int, n as int));
        }
        let major = match parse_num(s, start, d1) {
            Ok(v) => v,
            Err(e) => {
                proof {
                    assert(t.subrange(0, i) =~= s@.subrange(start as int, d1 as int));
                }
                return Err(e);
            },
        };
        proof {
            assert(t.subrange(0, i) =~= s@.subrange(start as int, d1 as int));
        }
        let d2 = find_dot(s, d1 + 1, n);
        proof {
            assert(forall|j: int|
                0 <= j < d2 - d1 - 1 ==> #[trigger] rest[j] == s@[j + d1 + 1] && rest[j] != '.');
            lemma_first_dot_at(rest, d2 - d1 - 1);
        }
        if d2 == n {
            let minor = match parse_num(s, d1 + 1, n) {
                Ok(v) => v,
                Err(e) => {
                    return Err(e);
                },
            };
            Ok(Version { major, minor, patch: None })
        } else {
            let ghost j = d2 - d1 - 1;
            let minor = match parse_num(s, d1 + 1, d2) {
                Ok(v) => v,
                Err(e) => {
                    proof {
                        assert(rest.subrange(0, j) =~= s@.subrange(d1 + 1 as int, d2 as int));
                    }
                    return Err(e);
                },
            };
            proof {
                assert(rest.subrange(0, j) =~= s@.subrange(d1 + 1 as int, d2 as int));
            }
            let patch = match parse_num(s, d2 + 1, n) {
                Ok(v) => v,
                Err(e) => {
                    proof {
                        assert(rest.subrange(j + 1, rest.len() as int) =~= s@.subrange(
                            d2 + 1 as int,
                            n as int,
                        ));
                    }
                    return Err(e);
                },
            };
            proof {
                assert(rest.subrange(j + 1, rest.len() as int) =~= s@.subrange(
                    d2 + 1 as int,
                    n as int,
                ));
            }
            Ok(Version { major, minor, patch: Some(patch) })
        }
    }
}

/// Fails with [`Error::Version`] exactly when the requested build version is
/// below the framework minimum.  Callers run this before any network or
/// file-system activity.
pub fn gate(build_version: &Version, min_version: &Version) -> (r: Result<(), Error>)
    ensures
        r is Ok <==> !version_lt(*build_version, *min_version),
        r is Err ==> r->Err_0 == Error::Version,
{
    if build_version.lt(min_version) {
        Err(Error::Version)
    } else {
        Ok(())
    }
}

pub open spec fn dec_digit_char(d: int) -> char {
    if d == 0 {
        '0'
    } else if d == 1 {
        '1'
    } else if d == 2 {
        '2'
    } else if d == 3 {
        '3'
    } else if d == 4 {
        '4'
    } else if d == 5 {
        '5'
    } else if d == 6 {
        '6'
    } else if d == 7 {
        '7'
    } else if d == 8 {
        '8'
    } else {
        '9'
    }
}

/// The decimal rendering of `n`, most significant digit first.
pub open spec fn dec_str(n: nat) -> Seq<char>
    decreases n,
{
    if n < 10 {
        seq![dec_digit_char(n as int)]
    } else {
        dec_str(n / 10).push(dec_digit_char((n % 10) as int))
    }
}

fn digit_str(d: usize) -> (r: &'static str)
    requires
        d < 10,
    ensures
        r@ == seq![dec_digit_char(d as int)],
{
    proof {
        reveal_strlit("0");
        reveal_strlit("1");
        reveal_strlit("2");
        reveal_strlit("3");
        reveal_strlit("4");
        reveal_strlit("5");
        reveal_strlit("6");
        reveal_strlit("7");
        reveal_strlit("8");
        reveal_strlit("9");
        assert("0"@ =~= seq![dec_digit_char(0)]);
        assert("1"@ =~= seq![dec_digit_char(1)]);
        assert("2"@ =~= seq![dec_digit_char(2)]);
        assert("3"@ =~= seq![dec_digit_char(3)]);
        assert("4"@ =~= seq![dec_digit_char(4)]);
        assert("5"@ =~= seq![dec_digit_char(5)]);
        assert("6"@ =~= seq![dec_digit_char(6)]);
        assert("7"@ =~= seq![dec_digit_char(7)]);
        assert("8"@ =~= seq![dec_digit_char(8)]);
        assert("9"@ =~= seq![dec_digit_char(9)]);
    }
    match d {
        0 => "0",
        1 => "1",
        2 => "2",
        3 => "3",
        4 => "4",
        5 => "5",
        6 => "6",
        7 => "7",
        8 => "8",
        _ => "9",
    }
}

/// Appends the decimal rendering of `n` to `out`.
fn push_dec(out: &mut String, n: usize)
    ensures
        final(out)@ == old(out)@ + dec_str(n as nat),
    decreases n,
{
    if n < 10 {
        out.append(digit_str(n));
    } else {
        push_dec(out, n / 10);
        out.append(digit_str(n % 10));
        proof {
            assert(old(out)@ + dec_str((n / 10) as nat) + seq![
                dec_digit_char((n % 10) as int),
            ] =~= old(out)@ + dec_str(n as nat));
        }
    }
}

/// The textual form of a version: `"major.minor"` or `"major.minor.patch"`.
pub open spec fn version_str(v: Version) -> Seq<char> {
    dec_str(v.major as nat) + seq!['.'] + dec_str(v.minor as nat) + (match v.patch {
        Option::Some(p) => seq!['.'] + dec_str(p as nat),
        Option::None => Seq::<char>::empty(),
    })
}

impl Version {
    /// Renders the version in its textual form.
    pub fn to_version_string(&self) -> (r: String)
        ensures
            r@ == version_str(*self),
    {
        proof {
            reveal_strlit(".");
        }
        let mut out = String::new();
        push_dec(&mut out, self.major);
        out.append(".");
        proof {
            assert("."@ =~= seq!['.']);
        }
        push_dec(&mut out, self.minor);
        match self.patch {
            Some(p) => {
                out.append(".");
                push_dec(&mut out, p);
            },
            None => {},
        }
        proof {
            assert(out@ =~= version_str(*self));
        }
        out
    }
}

} // verus!
