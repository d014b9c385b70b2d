//! The request gate and the role guards.
//!
//! Every request is sorted by its path: public paths go through with no
//! identity, while admin- and student-prefixed paths demand an
//! `Authorization` header of the form `Bearer <token>` whose token
//! verifies. The role guards then reject an identity whose role does not
//! fit the route. Both stages work over plain values; the HTTP server
//! around them only supplies the path, the header and the clock.

use vstd::prelude::*;

verus! {

use crate::auth::Claims;
use crate::auth::Role;
use crate::auth::claims_model;
use crate::auth::role_marker;
use crate::auth::token_verdict;
use crate::auth::verify_token_at;
use crate::error::AppError;
use crate::text::seq_starts_with;
use crate::text::str_starts_with;

/// The route table's public side, one prefix per route group: the health
/// endpoint, hackathon and blog reads, the submission endpoint, and the
/// login/registration endpoints. Everything is decided by the declared
/// prefixes alone, so a new route under another prefix is protected until
/// this table says otherwise.
pub open spec fn public_path(p: Seq<char>) -> bool {
    ||| seq_starts_with(p, "/api/health"@)
    ||| seq_starts_with(p, "/api/hackathons"@)
    ||| seq_starts_with(p, "/api/blog"@)
    ||| seq_starts_with(p, "/api/submit"@)
    ||| seq_starts_with(p, "/api/admin/login"@)
    ||| seq_starts_with(p, "/api/student/register"@)
    ||| seq_starts_with(p, "/api/student/login"@)
}

/// Paths that, unless public, require a verified bearer token.
pub open spec fn protected_path(p: Seq<char>) -> bool {
    seq_starts_with(p, "/api/admin"@) || seq_starts_with(p, "/api/student"@)
}

/// The token part of a `Bearer` authorization header.
pub open spec fn bearer_token(h: Seq<char>) -> Seq<char> {
    h.subrange("Bearer "@.len() as int, h.len() as int)
}

/// Classifies a path as public.
pub fn is_public_path(path: &str) -> (r: bool)
    ensures
        r == public_path(path@),
{
    ||| str_starts_with(path, "/api/health")
    ||| str_starts_with(path, "/api/hackathons")
    ||| str_starts_with(path, "/api/blog")
    ||| str_starts_with(path, "/api/submit")
    ||| str_starts_with(path, "/api/admin/login")
    ||| str_starts_with(path, "/api/student/register")
    ||| str_starts_with(path, "/api/student/login")
}

/// Classifies a path as protected.
pub fn is_protected_path(path: &str) -> (r: bool)
    ensures
        r == protected_path(path@),
{
    str_starts_with(path, "/api/admin") || str_starts_with(path, "/api/student")
}

/// The authentication stage, run on every request strictly before any
/// business handler. Public paths pass with no identity attached; any other
/// path under the admin or student prefixes needs an `Authorization` header
/// of the exact form `Bearer <token>` carrying a token that verifies at
/// instant `now`. A request that fails here is rejected outright.
pub fn auth_middleware(path: &str, auth_header: Option<&str>, secret: &str, now: i64) -> (r:
    Result<Option<Claims>, AppError>)
    ensures
        public_path(path@) || !protected_path(path@) ==> (r matches Ok(c) && c is None),
        !public_path(path@) && protected_path(path@) && auth_header is None ==> (r matches Err(
            e,
        ) && e.is_unauthorized("Missing authorization header"@)),
        auth_header matches Some(h) ==> {
            &&& (!public_path(path@) && protected_path(path@) && !seq_starts_with(
                h@,
                "Bearer "@,
            ) ==> (r matches Err(e) && e.is_unauthorized("Invalid authorization header"@)))
            &&& (!public_path(path@) && protected_path(path@) && seq_starts_with(
                h@,
                "Bearer "@,
            ) ==> {
                &&& (r is Ok) == (token_verdict(bearer_token(h@), secret@, now as int) is Some)
                &&& (r matches Ok(c) ==> (c matches Some(cl) && token_verdict(
                    bearer_token(h@),
                    secret@,
                    now as int,
                ) == Some(claims_model(cl))))
                &&& (r matches Err(e) ==> e.is_unauthorized("Invalid token"@))
            })
        },
{
    if is_public_path(path) {
        return Ok(None);
    }
    if is_protected_path(path) {
        match auth_header {
            None => Err(AppError::Unauthorized("Missing authorization header".to_owned())),
            Some(h) => {
                proof {
                    reveal_strlit("Bearer ");
                }
                if !str_starts_with(h, "Bearer ") {
                    Err(AppError::Unauthorized("Invalid authorization header".to_owned()))
                } else {
                    let n = h.unicode_len();
                    let token = h.substring_char(7, n);
                    match verify_token_at(token, secret, now) {
                        Ok(claims) => Ok(Some(claims)),
                        Err(e) => Err(e),
                    }
                }
            },
        }
    } else {
        Ok(None)
    }
}

/// The rejection message of a role guard.
pub open spec fn role_guard_message(role: Role) -> Seq<char> {
    match role {
        Role::Admin => "Admin access required"@,
        Role::Student => "Student access required"@,
    }
}

/// The role check for admin-only routes: an absent identity is an
/// authentication failure, a non-admin identity an authorization failure.
pub fn admin_guard(claims: Option<&Claims>) -> (r: Result<(), AppError>)
    ensures
        (r is Ok) == (claims matches Some(c) && c.role == Role::Admin),
        claims is None ==> (r matches Err(e) && e.is_unauthorized("Authentication required"@)),
        claims matches Some(c) ==> (c.role != Role::Admin ==> (r matches Err(e)
            && e.is_forbidden(role_guard_message(Role::Admin)))),
{
    match claims {
        None => Err(AppError::Unauthorized("Authentication required".to_owned())),
        Some(c) => {
            if c.role == Role::Admin {
                Ok(())
            } else {
                Err(AppError::Forbidden("Admin access required".to_owned()))
            }
        },
    }
}

/// The role check for student-only routes.
pub fn student_guard(claims: Option<&Claims>) -> (r: Result<(), AppError>)
    ensures
        (r is Ok) == (claims matches Some(c) && c.role == Role::Student),
        claims is None ==> (r matches Err(e) && e.is_unauthorized("Authentication required"@)),
        claims matches Some(c) ==> (c.role != Role::Student ==> (r matches Err(e)
            && e.is_forbidden(role_guard_message(Role::Student)))),
{
    match claims {
        None => Err(AppError::Unauthorized("Authentication required".to_owned())),
        Some(c) => {
            if c.role == Role::Student {
                Ok(())
            } else {
                Err(AppError::Forbidden("Student access required".to_owned()))
            }
        },
    }
}

/// The full per-request pipeline: the authentication stage runs before the
/// role stage, which runs only for routes that declare a required role. A
/// request that fails either stage never reaches a handler.
pub fn authorize_request(
    path: &str,
    auth_header: Option<&str>,
    required_role: Option<Role>,
    secret: &str,
    now: i64,
) -> (r: Result<Option<Claims>, AppError>)
    ensures
        (public_path(path@) || !protected_path(path@)) && required_role is None ==> (r
            matches Ok(c) && c is None),
        (public_path(path@) || !protected_path(path@)) && required_role is Some ==> (r
            matches Err(e) && e.is_unauthorized("Authentication required"@)),
        !public_path(path@) && protected_path(path@) && auth_header is None ==> (r matches Err(
            e,
        ) && e.is_unauthorized("Missing authorization header"@)),
        auth_header matches Some(h) ==> {
            &&& (!public_path(path@) && protected_path(path@) && !seq_starts_with(
                h@,
                "Bearer "@,
            ) ==> (r matches Err(e) && e.is_unauthorized("Invalid authorization header"@)))
            &&& (!public_path(path@) && protected_path(path@) && seq_starts_with(
                h@,
                "Bearer "@,
            ) ==> {
                &&& (token_verdict(bearer_token(h@), secret@, now as int) is None ==> (r
                    matches Err(e) && e.is_unauthorized("Invalid token"@)))
                &&& (token_verdict(bearer_token(h@), secret@, now as int) matches Some(m)
                    ==> {
                    &&& (required_role is None ==> (r matches Ok(c) && (c matches Some(cl)
                        && claims_model(cl) == m)))
                    &&& (required_role matches Some(rr) ==> {
                        &&& (m.2 == role_marker(rr) ==> (r matches Ok(c) && (c matches Some(
                            cl,
                        ) && claims_model(cl) == m)))
                        &&& (m.2 != role_marker(rr) ==> (r matches Err(e) && e.is_forbidden(
                            role_guard_message(rr),
                        )))
                    })
                })
            })
        },
{
    proof {
        reveal_strlit("admin");
        reveal_strlit("student");
        assert("admin"@.len() == 5);
        assert("student"@.len() == 7);
        assert("admin"@ != "student"@);
    }
    let claims_opt = match auth_middleware(path, auth_header, secret, now) {
        Ok(c) => c,
        Err(e) => {
            return Err(e);
        },
    };
    match required_role {
        None => Ok(claims_opt),
        Some(Role::Admin) => {
            match admin_guard(claims_opt.as_ref()) {
                Ok(()) => Ok(claims_opt),
                Err(e) => Err(e),
            }
        },
        Some(Role::Student) => {
            match student_guard(claims_opt.as_ref()) {
                Ok(()) => Ok(claims_opt),
                Err(e) => Err(e),
            }
        },
    }
}

} // verus!
