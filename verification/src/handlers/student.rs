//! Student-facing decisions: registration validation, the login outcome,
//! and profile merging.

use vstd::prelude::*;

verus! {

use crate::auth::Role;
use crate::auth::create_jwt;
use crate::auth::decode_of;
use crate::auth::digest_matches;
use crate::auth::digest_well_formed;
use crate::auth::role_marker;
use crate::auth::verify_password;
use crate::error::AppError;
use crate::error::AppResult;
use crate::models::LoginRequest;
use crate::text::push_char;
use crate::text::seq_ends_with;
use crate::text::str_ends_with;

/// Page and size requested by a listing call.
#[derive(Clone, Copy, Debug)]
pub struct PaginationQuery {
    pub page: Option<i32>,
    pub limit: Option<i32>,
}

/// The stored row of a student account, with the identifier already
/// rendered to its string form.
#[derive(Clone, Debug)]
pub struct StudentAccount {
    pub id: String,
    pub name: String,
    pub email: String,
    pub password_hash: String,
    pub year: i32,
    pub branch: String,
    pub bio: Option<String>,
}

/// The public face of a student account.
#[derive(Clone, Debug)]
pub struct StudentPublic {
    pub id: String,
    pub name: String,
    pub email: String,
    pub year: i32,
    pub branch: String,
    pub bio: Option<String>,
    pub skills: Vec<String>,
}

/// A successful student login: the signed token and the principal.
#[derive(Clone, Debug)]
pub struct StudentLoginResponse {
    pub token: String,
    pub student: StudentPublic,
}

/// A partial profile update; absent fields keep their stored value.
#[derive(Clone, Debug)]
pub struct UpdateProfileRequest {
    pub name: Option<String>,
    pub year: Option<i32>,
    pub branch: Option<String>,
    pub bio: Option<String>,
    pub skills: Option<Vec<String>>,
}

/// An academic year a profile may carry: absent, or between 1 and 4.
pub open spec fn year_acceptable(year: Option<i32>) -> bool {
    match year {
        Some(y) => 1 <= y <= 4,
        None => true,
    }
}

/// Validates a registration request: only addresses of the college domain,
/// and an academic year between 1 and 4.
pub fn validate_registration(email: &str, year: i32) -> (r: AppResult<()>)
    ensures
        (r is Ok) == (seq_ends_with(email@, "@srec.ac.in"@) && 1 <= year <= 4),
        !seq_ends_with(email@, "@srec.ac.in"@) ==> (r matches Err(e) && e.is_bad_request(
            "Only @srec.ac.in email addresses are allowed"@,
        )),
        seq_ends_with(email@, "@srec.ac.in"@) && !(1 <= year <= 4) ==> (r matches Err(e)
            && e.is_bad_request("Academic year must be between 1 and 4"@)),
{
    if !str_ends_with(email, "@srec.ac.in") {
        return Err(
            AppError::BadRequest("Only @srec.ac.in email addresses are allowed".to_owned()),
        );
    }
    if year < 1 || year > 4 {
        return Err(AppError::BadRequest("Academic year must be between 1 and 4".to_owned()));
    }
    Ok(())
}

/// The student login decision, over the credential row the store returned
/// for the submitted email and the account's stored skills. Mirrors the
/// administrator login, with a student token.
pub fn login(
    account: Option<StudentAccount>,
    skills: Vec<String>,
    req: &LoginRequest,
    secret: &str,
) -> (r: AppResult<StudentLoginResponse>)
    ensures
        account is None ==> (r matches Err(e) && e.is_unauthorized("Invalid credentials"@)),
        account matches Some(a) ==> {
            &&& (!digest_well_formed(a.password_hash@) ==> (r matches Err(e)
                && e.is_internal("Invalid password hash"@)))
            &&& (digest_well_formed(a.password_hash@) && !digest_matches(
                req.password@,
                a.password_hash@,
            ) ==> (r matches Err(e) && e.is_unauthorized("Invalid credentials"@)))
            &&& (r is Ok ==> digest_well_formed(a.password_hash@) && digest_matches(
                req.password@,
                a.password_hash@,
            ))
            &&& (r matches Ok(resp) ==> {
                &&& resp.student.id@ == a.id@
                &&& resp.student.name@ == a.name@
                &&& resp.student.email@ == a.email@
                &&& resp.student.year == a.year
                &&& resp.student.branch@ == a.branch@
                &&& resp.student.bio == a.bio
                &&& resp.student.skills == skills
                &&& decode_of(resp.token@, secret@) matches Some(m) && m.0 == a.id@ && m.1
                    == a.email@ && m.2 == role_marker(Role::Student)
            })
            &&& (digest_well_formed(a.password_hash@) && digest_matches(
                req.password@,
                a.password_hash@,
            ) ==> (r is Ok || (r matches Err(e) && e.is_internal("JWT creation failed"@))))
        },
{
    match account {
        None => Err(AppError::Unauthorized("Invalid credentials".to_owned())),
        Some(a) => {
            match verify_password(req.password.as_str(), a.password_hash.as_str()) {
                Err(e) => Err(e),
                Ok(false) => Err(AppError::Unauthorized("Invalid credentials".to_owned())),
                Ok(true) => {
                    match create_jwt(a.id.as_str(), a.email.as_str(), Role::Student, secret) {
                        Err(e) => Err(e),
                        Ok(token) => Ok(
                            StudentLoginResponse {
                                token,
                                student: StudentPublic {
                                    id: a.id,
                                    name: a.name,
                                    email: a.email,
                                    year: a.year,
                                    branch: a.branch,
                                    bio: a.bio,
                                    skills,
                                },
                            },
                        ),
                    }
                },
            }
        },
    }
}

/// A string with every single quote doubled, safe to embed in a SQL string
/// literal.
pub open spec fn sql_escaped(s: Seq<char>) -> Seq<char>
    decreases s.len(),
{
    if s.len() == 0 {
        Seq::empty()
    } else if s.last() == '\'' {
        sql_escaped(s.drop_last()).push('\'').push('\'')
    } else {
        sql_escaped(s.drop_last()).push(s.last())
    }
}

/// Doubles every single quote, as the search filters require before a value
/// is embedded in a SQL literal.
pub fn escape_sql_literal(s: &str) -> (r: String)
    ensures
        r@ == sql_escaped(s@),
{
    let n = s.unicode_len();
    let mut out = String::new();
    let mut i: usize = 0;
    proof {
        assert(s@.subrange(0, 0) =~= Seq::<char>::empty());
    }
    while i < n
        invariant
            n == s@.len(),
            i <= n,
            out@ == sql_escaped(s@.subrange(0, i as int)),
        decreases n - i,
    {
        let c = s.get_char(i);
        proof {
            assert(s@.subrange(0, i + 1 as int).drop_last() =~= s@.subrange(0, i as int));
            assert(s@.subrange(0, i + 1 as int).last() == s@[i as int]);
        }
        if c == '\'' {
            push_char(&mut out, '\'');
            push_char(&mut out, '\'');
        } else {
            push_char(&mut out, c);
        }
        i = i + 1;
    }
    proof {
        assert(s@.subrange(0, n as int) =~= s@);
    }
    out
}

/// Merges a partial update into a stored profile: provided fields replace
/// the stored ones, absent fields keep them, and an out-of-range year
/// rejects the whole update. Identifier and email never change.
pub fn merge_profile(current: StudentAccount, req: UpdateProfileRequest) -> (r: AppResult<
    StudentAccount,
>)
    ensures
        (r is Ok) == year_acceptable(req.year),
        !year_acceptable(req.year) ==> (r matches Err(e) && e.is_bad_request(
            "Academic year must be between 1 and 4"@,
        )),
        r matches Ok(p) ==> {
            &&& p.id == current.id
            &&& p.email == current.email
            &&& p.password_hash == current.password_hash
            &&& p.name == (match req.name {
                Some(n) => n,
                None => current.name,
            })
            &&& p.year == (match req.year {
                Some(y) => y,
                None => current.year,
            })
            &&& p.branch == (match req.branch {
                Some(b) => b,
                None => current.branch,
            })
            &&& p.bio == (match req.bio {
                Some(b) => Some(b),
                None => current.bio,
            })
        },
{
    let mut merged = current;
    if let Some(name) = req.name {
        merged.name = name;
    }
    if let Some(year) = req.year {
        if year < 1 || year > 4 {
            return Err(
                AppError::BadRequest("Academic year must be between 1 and 4".to_owned()),
            );
        }
        merged.year = year;
    }
    if let Some(branch) = req.branch {
        merged.branch = branch;
    }
    if let Some(bio) = req.bio {
        merged.bio = Some(bio);
    }
    Ok(merged)
}

} // verus!
