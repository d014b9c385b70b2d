//! Decisions of the public routes: resolving a pagination request into a
//! page window, and the full validation of a team participation submission.

use vstd::prelude::*;

verus! {

use crate::error::AppError;
use crate::error::AppResult;
use crate::models::ParticipantInput;
use crate::models::SubmitParticipationRequest;
use crate::text::seq_blank;
use crate::text::str_eq_str;
use crate::text::str_is_blank;
use crate::utils::valid_srec_email;
use crate::utils::validate_srec_email;

/// Page and size requested by a listing call.
#[derive(Clone, Copy, Debug)]
pub struct PaginationQuery {
    pub page: Option<i32>,
    pub limit: Option<i32>,
}

/// The resolved window of a listing request.
#[derive(Clone, Copy, Debug, PartialEq, Eq, Structural)]
pub struct PageWindow {
    pub page: i32,
    pub limit: i32,
    pub offset: i64,
    pub pages: i64,
}

/// The page actually served: the requested one, but never below 1.
pub open spec fn effective_page(q: PaginationQuery) -> int {
    let p = match q.page {
        Some(p) => p as int,
        None => 1,
    };
    if p < 1 {
        1
    } else {
        p
    }
}

/// The page size actually served: the requested one, but never above 100
/// and defaulting to 10.
pub open spec fn effective_limit(q: PaginationQuery) -> int {
    let l = match q.limit {
        Some(l) => l as int,
        None => 10,
    };
    if l > 100 {
        100
    } else {
        l
    }
}

/// Resolves a pagination request against the row count of the listing.
/// A requested page size of zero is the one input the row-count division
/// cannot take.
pub fn paginate(q: &PaginationQuery, total: i64) -> (r: PageWindow)
    requires
        0 <= total <= i64::MAX - 100,
        !(q.limit matches Some(l) && l == 0),
    ensures
        r.page == effective_page(*q),
        r.limit == effective_limit(*q),
        r.offset == (r.page - 1) * r.limit,
        r.limit > 0 ==> r.pages == (total + r.limit - 1) / (r.limit as int),
        r.limit <= 0 ==> r.pages == 0,
{
    let page: i32 = match q.page {
        Some(p) => if p < 1 {
            1
        } else {
            p
        },
        None => 1,
    };
    let limit: i32 = match q.limit {
        Some(l) => if l > 100 {
            100
        } else {
            l
        },
        None => 10,
    };
    let p64: i64 = (page - 1) as i64;
    let l64: i64 = limit as i64;
    proof {
        assert(0 <= p64 * l64 <= i64::MAX || i64::MIN <= p64 * l64 <= 0) by (nonlinear_arith)
            requires
                0 <= p64 < 0x8000_0000,
                -0x8000_0000 <= l64 <= 100,
        ;
    }
    let offset: i64 = p64 * l64;
    let pages: i64 = if limit > 0 {
        (total + l64 - 1) / l64
    } else {
        0
    };
    PageWindow { page, limit, offset, pages }
}

/// The first failure, in checking order, of the participant email list from
/// position `i` on: each email must be a college address not seen earlier
/// in the list.
pub open spec fn email_scan(ps: Seq<ParticipantInput>, i: int) -> Option<Seq<char>>
    decreases ps.len() - i,
{
    if i >= ps.len() {
        None
    } else if !valid_srec_email(ps[i].email@) {
        Some("Email must end with @srec.ac.in"@)
    } else if exists|j: int| 0 <= j < i && ps[j].email@ == ps[i].email@ {
        Some("Duplicate participant emails"@)
    } else {
        email_scan(ps, i + 1)
    }
}

/// The verdict on a participation submission against the status of its
/// hackathon: the message of the first rule it breaks, or `None` where it
/// is acceptable.
pub open spec fn submission_error(status: Seq<char>, req: SubmitParticipationRequest) -> Option<
    Seq<char>,
> {
    if status == "CLOSED"@ {
        Some("Hackathon registration is closed"@)
    } else if !req.external_registration_confirmed {
        Some("External registration must be confirmed"@)
    } else if email_scan(req.participants@, 0) is Some {
        email_scan(req.participants@, 0)
    } else if seq_blank(req.team_name@) {
        Some("Team name is required"@)
    } else if req.participants@.len() == 0 {
        Some("At least one participant is required"@)
    } else {
        None
    }
}

/// Validates a participation submission, given the status string of the
/// hackathon it targets. Accepts exactly the requests `submission_error`
/// clears, and reports the first broken rule otherwise.
pub fn validate_submission(hackathon_status: &str, req: &SubmitParticipationRequest) -> (r:
    AppResult<()>)
    ensures
        (r is Ok) == (submission_error(hackathon_status@, *req) is None),
        r matches Err(e) ==> (e matches AppError::BadRequest(m) && Some(m@) == submission_error(
            hackathon_status@,
            *req,
        )),
{
    if str_eq_str(hackathon_status, "CLOSED") {
        return Err(AppError::BadRequest("Hackathon registration is closed".to_owned()));
    }
    if !req.external_registration_confirmed {
        return Err(AppError::BadRequest("External registration must be confirmed".to_owned()));
    }
    let ghost ps = req.participants@;
    let n = req.participants.len();
    let mut i: usize = 0;
    while i < n
        invariant
            ps == req.participants@,
            n == ps.len(),
            i <= n,
            hackathon_status@ != "CLOSED"@,
            req.external_registration_confirmed,
            email_scan(ps, 0) == email_scan(ps, i as int),
        decreases n - i,
    {
        let email = &req.participants[i].email;
        if validate_srec_email(email.as_str()).is_err() {
            return Err(AppError::BadRequest("Email must end with @srec.ac.in".to_owned()));
        }
        let mut j: usize = 0;
        while j < i
            invariant
                ps == req.participants@,
                n == ps.len(),
                j <= i < n,
                hackathon_status@ != "CLOSED"@,
                req.external_registration_confirmed,
                email_scan(ps, 0) == email_scan(ps, i as int),
                valid_srec_email(ps[i as int].email@),
                email@ == ps[i as int].email@,
                forall|k: int| 0 <= k < j ==> ps[k].email@ != ps[i as int].email@,
            decreases i - j,
        {
            if str_eq_str(req.participants[j].email.as_str(), email.as_str()) {
                return Err(AppError::BadRequest("Duplicate participant emails".to_owned()));
            }
            j = j + 1;
        }
        i = i + 1;
    }
    if str_is_blank(req.team_name.as_str()) {
        return Err(AppError::BadRequest("Team name is required".to_owned()));
    }
    if req.participants.len() == 0 {
        return Err(AppError::BadRequest("At least one participant is required".to_owned()));
    }
    Ok(())
}

} // verus!
