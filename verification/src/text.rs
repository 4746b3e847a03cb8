//! Strings as sequences of characters: the few `std` string operations the
//! browser relies on, and decimal rendering of identifiers.

use vstd::prelude::*;
use vstd::string::{StringExecFns, StringSliceAdditionalSpecFns};

verus! {

/// The lower-case form of a string, as `str::to_lowercase` computes it.
pub uninterp spec fn lowercase(s: Seq<char>) -> Seq<char>;

/// `needle` occurs in `hay` as a contiguous run of characters.
pub open spec fn is_substring(needle: Seq<char>, hay: Seq<char>) -> bool {
    exists|i: int|
        0 <= i && i + needle.len() <= hay.len() && #[trigger] hay.subrange(
            i,
            i + needle.len(),
        ) == needle
}

/// Strict lexicographic order of two strings by the code points of their
/// characters.
pub open spec fn lex_lt(a: Seq<char>, b: Seq<char>) -> bool
    decreases a.len(),
{
    if b.len() == 0 {
        false
    } else if a.len() == 0 {
        true
    } else if a[0] != b[0] {
        (a[0] as int) < (b[0] as int)
    } else {
        lex_lt(a.drop_first(), b.drop_first())
    }
}

/// No string is below itself.
pub proof fn lemma_lex_lt_irreflexive(a: Seq<char>)
    ensures
        !lex_lt(a, a),
    decreases a.len(),
{
    if a.len() > 0 {
        lemma_lex_lt_irreflexive(a.drop_first());
    }
}

/// The lexicographic order is transitive.
pub proof fn lemma_lex_lt_transitive(a: Seq<char>, b: Seq<char>, c: Seq<char>)
    requires
        lex_lt(a, b),
        lex_lt(b, c),
    ensures
        lex_lt(a, c),
    decreases a.len(),
{
    if a.len() > 0 && a[0] == b[0] && b[0] == c[0] {
        lemma_lex_lt_transitive(a.drop_first(), b.drop_first(), c.drop_first());
    }
}

/// Two different strings are ordered one way or the other.
pub proof fn lemma_lex_lt_connected(a: Seq<char>, b: Seq<char>)
    requires
        a != b,
    ensures
        lex_lt(a, b) || lex_lt(b, a),
    decreases a.len(),
{
    if a.len() == 0 || b.len() == 0 {
        if a.len() == 0 && b.len() == 0 {
            assert(a =~= b);
        }
    } else if a[0] == b[0] {
        let ra = a.drop_first();
        let rb = b.drop_first();
        if ra == rb {
            assert(a =~= seq![a[0]] + ra);
            assert(b =~= seq![b[0]] + rb);
        } else {
            lemma_lex_lt_connected(ra, rb);
        }
    }
}

/// Calls `str::eq`: two strings are equal exactly when they hold the same
/// characters.
#[verifier::external_body]
pub(crate) fn str_eq(a: &str, b: &str) -> (r: bool)
    ensures
        r == (a@ == b@),
{
    a == b
}

/// Calls `str::lt`. The standard library orders strings lexicographically by
/// their bytes, which for UTF-8 is the order of their code points.
#[verifier::external_body]
pub(crate) fn str_lt(a: &str, b: &str) -> (r: bool)
    ensures
        r == lex_lt(a@, b@),
{
    a < b
}

/// Calls `str::to_lowercase`; the result is only named, by [`lowercase`].
#[verifier::external_body]
pub(crate) fn to_lowercase(s: &str) -> (r: String)
    ensures
        r@ == lowercase(s@),
{
    s.to_lowercase()
}

/// Calls `str::contains` with a string pattern: true exactly when the pattern
/// occurs somewhere in `hay`.
#[verifier::external_body]
pub(crate) fn str_contains(hay: &str, needle: &str) -> (r: bool)
    ensures
        r == is_substring(needle@, hay@),
{
    hay.contains(needle)
}

/// `needle` stands in `hay` at the byte index `at`.
pub open spec fn occurs_at(hay: Seq<u8>, needle: Seq<u8>, at: int) -> bool {
    0 <= at && at + needle.len() <= hay.len() && hay.subrange(at, at + needle.len()) == needle
}

/// The first byte index at which `needle` stands in `hay`, if there is one.
pub open spec fn first_occurrence(hay: Seq<u8>, needle: Seq<u8>) -> Option<int> {
    if exists|i: int| occurs_at(hay, needle, i) {
        Some(
            choose|i: int|
                occurs_at(hay, needle, i) && forall|j: int|
                    0 <= j < i ==> !occurs_at(hay, needle, j),
        )
    } else {
        None
    }
}

/// An occurrence with none before it is the first one; without any
/// occurrence there is no first one.
pub proof fn lemma_first_occurrence(hay: Seq<u8>, needle: Seq<u8>, found: Option<int>)
    requires
        match found {
            Some(at) => occurs_at(hay, needle, at) && forall|j: int|
                0 <= j < at ==> !occurs_at(hay, needle, j),
            None => forall|j: int| !occurs_at(hay, needle, j),
        },
    ensures
        first_occurrence(hay, needle) == found,
{
    match found {
        Some(at) => {
            let first = first_occurrence(hay, needle)->0;
            assert(occurs_at(hay, needle, first));
            if first < at {
                assert(!occurs_at(hay, needle, first));
            }
        },
        None => {},
    }
}

/// Calls `str::find` with a string pattern: the byte index of the first place
/// at which the pattern stands in `hay`, or `None` if it stands nowhere.
#[verifier::external_body]
pub(crate) fn str_find(hay: &str, needle: &str) -> (r: Option<usize>)
    ensures
        match r {
            Some(at) => occurs_at(hay.spec_bytes(), needle.spec_bytes(), at as int) && forall|
                j: int,
            |
                0 <= j < at ==> !occurs_at(hay.spec_bytes(), needle.spec_bytes(), j),
            None => forall|j: int| !occurs_at(hay.spec_bytes(), needle.spec_bytes(), j),
        },
{
    hay.find(needle)
}

/// Calls `String::push`, which appends one character.
#[verifier::external_body]
pub(crate) fn push_char(s: &mut String, c: char)
    ensures
        final(s)@ == old(s)@.push(c),
{
    s.push(c)
}

/// Calls `String::pop`, which removes the last character and returns it, or
/// returns `None` and leaves an empty string as it is.
#[verifier::external_body]
pub(crate) fn pop_char(s: &mut String) -> (r: Option<char>)
    ensures
        old(s)@.len() == 0 ==> r is None && final(s)@ == old(s)@,
        old(s)@.len() > 0 ==> r == Some(old(s)@.last()) && final(s)@ == old(s)@.drop_last(),
{
    s.pop()
}

/// The character of a decimal digit.
pub open spec fn digit_char(d: int) -> char
    recommends
        0 <= d < 10,
{
    ((48 + d) as u8) as char
}

/// The decimal digits of a natural number, most significant first.
pub open spec fn nat_digits(n: nat) -> Seq<char>
    decreases n,
{
    if n < 10 {
        seq![digit_char(n as int)]
    } else {
        nat_digits(n / 10).push(digit_char((n % 10) as int))
    }
}

/// The decimal form of an integer, with a leading `-` for negative numbers.
pub open spec fn decimal(n: int) -> Seq<char> {
    if n < 0 {
        seq!['-'] + nat_digits((-n) as nat)
    } else {
        nat_digits(n as nat)
    }
}

/// Renders an identifier in decimal.
pub fn decimal_string(n: i64) -> (r: String)
    ensures
        r@ == decimal(n as int),
{
    let magnitude: u64 = if n < 0 {
        ((-(n + 1)) as u64) + 1
    } else {
        n as u64
    };
    let mut digits: Vec<char> = Vec::new();
    let mut rest: u64 = magnitude;
    while rest >= 10
        invariant
            nat_digits(magnitude as nat) == nat_digits(rest as nat) + digits@.reverse(),
        decreases rest,
    {
        let d: u8 = (rest % 10) as u8;
        proof {
            let next = digits@.push((48u8 + d) as char);
            assert(next.reverse() =~= seq![digit_char((rest % 10) as int)] + digits@.reverse());
            assert(nat_digits(rest as nat) + digits@.reverse() =~= nat_digits((rest / 10) as nat)
                + next.reverse());
        }
        digits.push((48u8 + d) as char);
        rest = rest / 10;
    }
    proof {
        let next = digits@.push((48u8 + (rest as u8)) as char);
        assert(next.reverse() =~= nat_digits(rest as nat) + digits@.reverse());
    }
    digits.push((48u8 + (rest as u8)) as char);
    let mut out = String::new();
    if n < 0 {
        push_char(&mut out, '-');
    }
    let ghost sign = out@;
    let mut left: usize = digits.len();
    while left > 0
        invariant
            left <= digits.len(),
            out@ == sign + digits@.reverse().subrange(0, digits.len() - left),
        decreases left,
    {
        left = left - 1;
        proof {
            let rev = digits@.reverse();
            let k = digits.len() - left - 1;
            assert(rev.subrange(0, k + 1) =~= rev.subrange(0, k).push(digits@[left as int]));
        }
        push_char(&mut out, digits[left]);
    }
    proof {
        let rev = digits@.reverse();
        assert(rev.subrange(0, digits.len() as int) =~= rev);
        assert(sign + seq![] =~= sign);
    }
    out
}

} // verus!
