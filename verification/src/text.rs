//! String primitives the routing, validation and slug logic is built on:
//! verified prefix/suffix/equality tests over `Seq<char>`, decimal
//! rendering, and thin trusted wrappers for the few character-level std
//! operations vstd does not specify.

use vstd::prelude::*;

verus! {

/// `p` is a prefix of `s`.
pub open spec fn seq_starts_with(s: Seq<char>, p: Seq<char>) -> bool {
    p.len() <= s.len() && s.subrange(0, p.len() as int) == p
}

/// `p` is a suffix of `s`.
pub open spec fn seq_ends_with(s: Seq<char>, p: Seq<char>) -> bool {
    p.len() <= s.len() && s.subrange(s.len() - p.len(), s.len() as int) == p
}

/// Compares `p` against the characters of `s` starting at index `i`.
pub fn str_matches_at(s: &str, p: &str, i: usize) -> (r: bool)
    requires
        i + p@.len() <= s@.len(),
        s@.len() <= usize::MAX,
    ensures
        r == (s@.subrange(i as int, i + p@.len()) == p@),
{
    let m = p.unicode_len();
    let mut j: usize = 0;
    while j < m
        invariant
            m == p@.len(),
            i + m <= s@.len(),
            s@.len() <= usize::MAX,
            j <= m,
            forall|k: int| 0 <= k < j ==> s@[i + k] == p@[k],
        decreases m - j,
    {
        if s.get_char(i + j) != p.get_char(j) {
            assert(s@.subrange(i as int, i + p@.len())[j as int] != p@[j as int]);
            return false;
        }
        j = j + 1;
    }
    assert(s@.subrange(i as int, i + p@.len()) =~= p@);
    true
}

/// Whether `s` starts with `p`.
pub fn str_starts_with(s: &str, p: &str) -> (r: bool)
    ensures
        r == seq_starts_with(s@, p@),
{
    let n = s.unicode_len();
    let m = p.unicode_len();
    if m > n {
        false
    } else {
        str_matches_at(s, p, 0)
    }
}

/// Whether `s` ends with `p`.
pub fn str_ends_with(s: &str, p: &str) -> (r: bool)
    ensures
        r == seq_ends_with(s@, p@),
{
    let n = s.unicode_len();
    let m = p.unicode_len();
    if m > n {
        false
    } else {
        str_matches_at(s, p, n - m)
    }
}

/// Character-by-character string equality.
pub fn str_eq_str(a: &str, b: &str) -> (r: bool)
    ensures
        r == (a@ == b@),
{
    let n = a.unicode_len();
    let m = b.unicode_len();
    if n != m {
        assert(a@ != b@);
        false
    } else {
        let r = str_matches_at(a, b, 0);
        assert(a@.subrange(0, a@.len() as int) =~= a@);
        r
    }
}

/// Unicode alphanumericity of a character, as `char::is_alphanumeric`
/// decides it.
pub uninterp spec fn char_alnum(c: char) -> bool;

/// Unicode whitespace of a character, as `char::is_whitespace` decides it.
pub uninterp spec fn char_white(c: char) -> bool;

/// Relies on char::is_alphanumeric: the verdict depends on the character
/// alone.
#[verifier::external_body]
pub fn is_alnum_char(c: char) -> (r: bool)
    ensures
        r == char_alnum(c),
{
    c.is_alphanumeric()
}

/// Relies on char::is_whitespace: the verdict depends on the character alone.
#[verifier::external_body]
pub fn is_white_char(c: char) -> (r: bool)
    ensures
        r == char_white(c),
{
    c.is_whitespace()
}

/// Every character of `s` is whitespace; holds of the empty sequence.
pub open spec fn seq_blank(s: Seq<char>) -> bool {
    forall|i: int| 0 <= i < s.len() ==> char_white(s[i])
}

/// Whether `s` trims to the empty string.
pub fn str_is_blank(s: &str) -> (r: bool)
    ensures
        r == seq_blank(s@),
{
    let n = s.unicode_len();
    let mut i: usize = 0;
    while i < n
        invariant
            n == s@.len(),
            i <= n,
            forall|k: int| 0 <= k < i ==> char_white(s@[k]),
        decreases n - i,
    {
        if !is_white_char(s.get_char(i)) {
            return false;
        }
        i = i + 1;
    }
    true
}

/// The Unicode lowercasing of a character sequence, as `str::to_lowercase`
/// computes it.
pub uninterp spec fn lower_of(s: Seq<char>) -> Seq<char>;

/// Relies on str::to_lowercase: the result depends on the characters alone,
/// and an empty string lowercases to the empty string.
#[verifier::external_body]
pub fn lowercase(s: &str) -> (r: String)
    ensures
        r@ == lower_of(s@),
        s@.len() == 0 ==> r@.len() == 0,
{
    s.to_lowercase()
}

/// The character of a single decimal digit.
pub open spec fn digit_char(d: nat) -> char {
    if d == 0 {
        '0'
    } else if d == 1 {
        '1'
    } else if d == 2 {
        '2'
    } else if d == 3 {
        '3'
    } else if d == 4 {
        '4'
    } else if d == 5 {
        '5'
    } else if d == 6 {
        '6'
    } else if d == 7 {
        '7'
    } else if d == 8 {
        '8'
    } else {
        '9'
    }
}

/// The decimal digits of a non-negative number, most significant first.
pub open spec fn dec_digits(n: nat) -> Seq<char>
    decreases n,
{
    if n < 10 {
        seq![digit_char(n)]
    } else {
        dec_digits(n / 10).push(digit_char(n % 10))
    }
}

/// The decimal rendering of an integer, with a leading minus sign where
/// it is negative.
pub open spec fn dec_str(n: int) -> Seq<char> {
    if n < 0 {
        seq!['-'] + dec_digits((-n) as nat)
    } else {
        dec_digits(n as nat)
    }
}

fn digit_to_char(d: u32) -> (c: char)
    requires
        d < 10,
    ensures
        c == digit_char(d as nat),
{
    if d == 0 {
        '0'
    } else if d == 1 {
        '1'
    } else if d == 2 {
        '2'
    } else if d == 3 {
        '3'
    } else if d == 4 {
        '4'
    } else if d == 5 {
        '5'
    } else if d == 6 {
        '6'
    } else if d == 7 {
        '7'
    } else if d == 8 {
        '8'
    } else {
        '9'
    }
}

fn u32_digits(v: u32) -> (r: Vec<char>)
    ensures
        r@ == dec_digits(v as nat),
{
    let mut out: Vec<char> = Vec::new();
    let mut rest: u32 = v;
    proof {
        assert(dec_digits(v as nat) + Seq::<char>::empty() =~= dec_digits(v as nat));
    }
    loop
        invariant_except_break
            rest == 0 ==> out@.len() == 0 && v == 0,
        invariant
            rest > 0 ==> dec_digits(v as nat) == dec_digits(rest as nat) + out@,
        ensures
            dec_digits(v as nat) == out@,
        decreases rest,
    {
        let d = rest % 10;
        let next = rest / 10;
        let ghost out0 = out@;
        out.insert(0, digit_to_char(d));
        proof {
            assert(out@ =~= seq![digit_char(d as nat)] + out0);
            if rest >= 10 {
                assert(dec_digits(rest as nat) == dec_digits(next as nat).push(
                    digit_char(d as nat),
                ));
                assert(dec_digits(next as nat).push(digit_char(d as nat)) + out0
                    =~= dec_digits(next as nat) + out@);
            } else {
                assert(dec_digits(rest as nat) == seq![digit_char(rest as nat)]);
                assert(dec_digits(rest as nat) + out0 =~= out@);
            }
        }
        rest = next;
        if rest == 0 {
            break;
        }
    }
    out
}

/// Renders an integer in decimal, exactly as its standard formatting does.
pub fn i32_to_string(n: i32) -> (r: String)
    ensures
        r@ == dec_str(n as int),
{
    let mut s = String::new();
    let mag: u32 = if n < 0 {
        push_char(&mut s, '-');
        (-(n as i64)) as u32
    } else {
        n as u32
    };
    let digits = u32_digits(mag);
    let m = digits.len();
    let mut i: usize = 0;
    while i < m
        invariant
            m == digits@.len(),
            i <= m,
            s@ == dec_str(n as int).subrange(0, s@.len() as int),
            s@.len() == (if n < 0 { 1int } else { 0int }) + i,
            digits@ == dec_digits(mag as nat),
            mag == (if n < 0 { -(n as int) } else { n as int }),
        decreases m - i,
    {
        push_char(&mut s, digits[i]);
        proof {
            assert(s@ =~= dec_str(n as int).subrange(0, s@.len() as int));
        }
        i = i + 1;
    }
    proof {
        assert(s@ =~= dec_str(n as int));
    }
    s
}

/// Relies on String::push: appends exactly one character at the end.
#[verifier::external_body]
pub fn push_char(s: &mut String, c: char)
    ensures
        final(s)@ == old(s)@.push(c),
{
    s.push(c);
}

} // verus!
