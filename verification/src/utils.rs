//! Input-validation helpers: the college-email check, URL slug generation,
//! and identifier validation.

use vstd::prelude::*;

verus! {

use crate::error::AppError;
use crate::error::AppResult;
use crate::text::char_alnum;
use crate::text::is_alnum_char;
use crate::text::lower_of;
use crate::text::lowercase;
use crate::text::push_char;
use crate::text::seq_ends_with;
use crate::text::str_ends_with;

/// A character the local part of an accepted email may use: ASCII letters,
/// digits, and `. _ % + -`.
pub open spec fn email_local_char(c: char) -> bool {
    ||| ('a' as u32) <= (c as u32) && (c as u32) <= ('z' as u32)
    ||| ('A' as u32) <= (c as u32) && (c as u32) <= ('Z' as u32)
    ||| ('0' as u32) <= (c as u32) && (c as u32) <= ('9' as u32)
    ||| c == '.'
    ||| c == '_'
    ||| c == '%'
    ||| c == '+'
    ||| c == '-'
}

/// An accepted college address: a non-empty local part drawn from
/// `email_local_char`, followed by exactly the domain suffix.
pub open spec fn valid_srec_email(s: Seq<char>) -> bool {
    &&& s.len() > "@srec.ac.in"@.len()
    &&& seq_ends_with(s, "@srec.ac.in"@)
    &&& forall|i: int|
        0 <= i < s.len() - "@srec.ac.in"@.len() ==> email_local_char(s[i])
}

fn is_email_local_char(c: char) -> (r: bool)
    ensures
        r == email_local_char(c),
{
    let u = c as u32;
    ||| (('a' as u32) <= u && u <= ('z' as u32))
    ||| (('A' as u32) <= u && u <= ('Z' as u32))
    ||| (('0' as u32) <= u && u <= ('9' as u32))
    ||| c == '.'
    ||| c == '_'
    ||| c == '%'
    ||| c == '+'
    ||| c == '-'
}

/// Accepts exactly the addresses of the college domain; anything else is a
/// `BadRequest`.
pub fn validate_srec_email(email: &str) -> (r: AppResult<()>)
    ensures
        (r is Ok) == valid_srec_email(email@),
        r matches Err(e) ==> e.is_bad_request("Email must end with @srec.ac.in"@),
{
    proof {
        reveal_strlit("@srec.ac.in");
        assert("@srec.ac.in"@.len() == 11);
    }
    let n = email.unicode_len();
    if !str_ends_with(email, "@srec.ac.in") || n <= 11 {
        return Err(AppError::BadRequest("Email must end with @srec.ac.in".to_owned()));
    }
    let local_len = n - 11;
    let mut i: usize = 0;
    while i < local_len
        invariant
            "@srec.ac.in"@.len() == 11,
            n == email@.len(),
            local_len == n - 11,
            n > 11,
            i <= local_len,
            forall|k: int| 0 <= k < i ==> email_local_char(email@[k]),
        decreases local_len - i,
    {
        if !is_email_local_char(email.get_char(i)) {
            return Err(AppError::BadRequest("Email must end with @srec.ac.in".to_owned()));
        }
        i = i + 1;
    }
    Ok(())
}

/// One step of slug building over the lowercased title: alphanumerics are
/// kept, anything else appends a dash unless one is already pending or
/// nothing has been kept yet.
pub open spec fn slug_step(acc: Seq<char>, c: char) -> Seq<char> {
    if char_alnum(c) {
        acc.push(c)
    } else if acc.len() > 0 && acc.last() != '-' {
        acc.push('-')
    } else {
        acc
    }
}

/// The slug body: `slug_step` folded over the characters.
pub open spec fn slug_fold(s: Seq<char>) -> Seq<char>
    decreases s.len(),
{
    if s.len() == 0 {
        Seq::empty()
    } else {
        slug_step(slug_fold(s.drop_last()), s.last())
    }
}

/// Drops the single dash a trailing separator run leaves behind.
pub open spec fn trim_trailing_dash(s: Seq<char>) -> Seq<char> {
    if s.len() > 0 && s.last() == '-' {
        s.drop_last()
    } else {
        s
    }
}

/// The slug of a title: words of alphanumeric characters of the lowercased
/// title, joined by single dashes, with no dash at either end.
pub open spec fn slug_of(s: Seq<char>) -> Seq<char> {
    trim_trailing_dash(slug_fold(s))
}

/// Turns a title into a URL slug.
pub fn generate_slug(title: &str) -> (r: String)
    ensures
        r@ == slug_of(lower_of(title@)),
{
    let lowered = lowercase(title);
    let low = lowered.as_str();
    let n = low.unicode_len();
    let mut out = String::new();
    let mut empty = true;
    let mut last_dash = false;
    let mut i: usize = 0;
    proof {
        assert(low@.subrange(0, 0) =~= Seq::<char>::empty());
    }
    while i < n
        invariant
            low@ == lowered@,
            n == low@.len(),
            i <= n,
            out@ == slug_fold(low@.subrange(0, i as int)),
            empty == (out@.len() == 0),
            last_dash == (out@.len() > 0 && out@.last() == '-'),
        decreases n - i,
    {
        let c = low.get_char(i);
        proof {
            assert(low@.subrange(0, i + 1 as int).drop_last() =~= low@.subrange(0, i as int));
            assert(low@.subrange(0, i + 1 as int).last() == low@[i as int]);
        }
        if is_alnum_char(c) {
            push_char(&mut out, c);
            empty = false;
            last_dash = c == '-';
        } else if !empty && !last_dash {
            push_char(&mut out, '-');
            last_dash = true;
        }
        i = i + 1;
    }
    proof {
        assert(low@.subrange(0, n as int) =~= low@);
    }
    if last_dash {
        let m = out.as_str().unicode_len();
        let trimmed = out.as_str().substring_char(0, m - 1);
        proof {
            assert(trimmed@ =~= out@.drop_last());
        }
        trimmed.to_owned()
    } else {
        out
    }
}

#[verifier::external_type_specification]
#[verifier::external_body]
pub struct ExUuid(uuid::Uuid);

/// The 128-bit value `uuid::Uuid::parse_str` reads from a string, or `None`
/// where the string is not in an accepted UUID form.
pub uninterp spec fn uuid_parse_of(s: Seq<char>) -> Option<u128>;

/// Relies on uuid::Uuid::parse_str: acceptance is a function of the string
/// alone.
#[verifier::external_body]
fn uuid_parse(s: &str) -> (r: Option<uuid::Uuid>)
    ensures
        (r is Some) == (uuid_parse_of(s@) is Some),
{
    uuid::Uuid::parse_str(s).ok()
}

/// Parses an identifier, mapping a malformed one to a `BadRequest`.
pub fn validate_uuid(id: &str) -> (r: AppResult<uuid::Uuid>)
    ensures
        (r is Ok) == (uuid_parse_of(id@) is Some),
        r matches Err(e) ==> e.is_bad_request("Invalid UUID format"@),
{
    match uuid_parse(id) {
        Some(u) => Ok(u),
        None => Err(AppError::BadRequest("Invalid UUID format".to_owned())),
    }
}

} // verus!
