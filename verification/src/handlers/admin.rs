//! Administrator-facing decisions: the login outcome over a fetched
//! credential row, and the filter shapes of the admin listing and export
//! routes.

use vstd::prelude::*;

verus! {

use crate::auth::Role;
use crate::auth::create_jwt;
use crate::auth::decode_of;
use crate::auth::digest_matches;
use crate::auth::digest_well_formed;
use crate::auth::role_marker;
use crate::auth::verify_password;
use crate::error::AppError;
use crate::error::AppResult;
use crate::models::AdminResponse;
use crate::models::LoginRequest;
use crate::models::LoginResponse;

/// The stored row of an administrator account, with the identifier already
/// rendered to its string form.
#[derive(Clone, Debug)]
pub struct AdminAccount {
    pub id: String,
    pub name: String,
    pub email: String,
    pub password_hash: String,
}

/// Filters accepted by the submission listing.
#[derive(Clone, Debug)]
pub struct SubmissionQuery {
    pub hackathon_id: Option<String>,
    pub status: Option<String>,
    pub semester: Option<String>,
}

/// Filters accepted by the export route.
#[derive(Clone, Debug)]
pub struct ExportQuery {
    pub semester: Option<String>,
    pub hackathon_id: Option<String>,
    pub department: Option<String>,
    pub format: Option<String>,
}

/// The administrator login decision, over the credential row the store
/// returned for the submitted email (`None` where the email is unknown).
/// An unknown email and a wrong password are indistinguishable to the
/// caller; a token comes back only for the account whose digest matches
/// the submitted password.
pub fn login(account: Option<AdminAccount>, req: &LoginRequest, secret: &str) -> (r:
    AppResult<LoginResponse>)
    ensures
        account is None ==> (r matches Err(e) && e.is_unauthorized("Invalid credentials"@)),
        account matches Some(a) ==> {
            &&& (!digest_well_formed(a.password_hash@) ==> (r matches Err(e)
                && e.is_internal("Invalid password hash"@)))
            &&& (digest_well_formed(a.password_hash@) && !digest_matches(
                req.password@,
                a.password_hash@,
            ) ==> (r matches Err(e) && e.is_unauthorized("Invalid credentials"@)))
            &&& (r is Ok ==> digest_well_formed(a.password_hash@) && digest_matches(
                req.password@,
                a.password_hash@,
            ))
            &&& (r matches Ok(resp) ==> {
                &&& resp.admin.id@ == a.id@
                &&& resp.admin.name@ == a.name@
                &&& resp.admin.email@ == a.email@
                &&& decode_of(resp.token@, secret@) matches Some(m) && m.0 == a.id@ && m.1
                    == a.email@ && m.2 == role_marker(Role::Admin)
            })
            &&& (digest_well_formed(a.password_hash@) && digest_matches(
                req.password@,
                a.password_hash@,
            ) ==> (r is Ok || (r matches Err(e) && e.is_internal("JWT creation failed"@))))
        },
{
    match account {
        None => Err(AppError::Unauthorized("Invalid credentials".to_owned())),
        Some(a) => {
            match verify_password(req.password.as_str(), a.password_hash.as_str()) {
                Err(e) => Err(e),
                Ok(false) => Err(AppError::Unauthorized("Invalid credentials".to_owned())),
                Ok(true) => {
                    match create_jwt(a.id.as_str(), a.email.as_str(), Role::Admin, secret) {
                        Err(e) => Err(e),
                        Ok(token) => Ok(
                            LoginResponse {
                                token,
                                admin: AdminResponse { id: a.id, name: a.name, email: a.email },
                            },
                        ),
                    }
                },
            }
        },
    }
}

} // verus!
