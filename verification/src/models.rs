//! Domain data types: the closed enumerations behind the free-form status
//! strings of the persisted rows, and the request/response shapes the
//! handlers exchange. Each enumeration round-trips through its wire form.

use vstd::prelude::*;

verus! {

use crate::text::str_eq_str;

/// How a hackathon is held.
#[derive(Clone, Copy, Debug, PartialEq, Eq, Structural)]
pub enum HackathonMode {
    Online,
    Offline,
}

/// The wire form of a hackathon mode.
pub open spec fn mode_marker(m: HackathonMode) -> Seq<char> {
    match m {
        HackathonMode::Online => "ONLINE"@,
        HackathonMode::Offline => "OFFLINE"@,
    }
}

impl HackathonMode {
    pub fn as_str(&self) -> (r: &str)
        ensures
            r@ == mode_marker(*self),
    {
        match self {
            HackathonMode::Online => "ONLINE",
            HackathonMode::Offline => "OFFLINE",
        }
    }

    pub fn parse(s: &str) -> (r: Option<HackathonMode>)
        ensures
            s@ == "ONLINE"@ ==> r == Some(HackathonMode::Online),
            s@ == "OFFLINE"@ ==> r == Some(HackathonMode::Offline),
            r is None ==> s@ != "ONLINE"@ && s@ != "OFFLINE"@,
            r matches Some(m) ==> mode_marker(m) == s@,
    {
        proof {
            reveal_strlit("ONLINE");
            reveal_strlit("OFFLINE");
            assert("ONLINE"@.len() == 6);
            assert("OFFLINE"@.len() == 7);
        }
        if str_eq_str(s, "ONLINE") {
            Some(HackathonMode::Online)
        } else if str_eq_str(s, "OFFLINE") {
            Some(HackathonMode::Offline)
        } else {
            None
        }
    }
}

/// Where a hackathon stands in its lifecycle.
#[derive(Clone, Copy, Debug, PartialEq, Eq, Structural)]
pub enum HackathonStatus {
    Upcoming,
    Ongoing,
    Closed,
}

/// The wire form of a hackathon status.
pub open spec fn hackathon_status_marker(s: HackathonStatus) -> Seq<char> {
    match s {
        HackathonStatus::Upcoming => "UPCOMING"@,
        HackathonStatus::Ongoing => "ONGOING"@,
        HackathonStatus::Closed => "CLOSED"@,
    }
}

impl HackathonStatus {
    pub fn as_str(&self) -> (r: &str)
        ensures
            r@ == hackathon_status_marker(*self),
    {
        match self {
            HackathonStatus::Upcoming => "UPCOMING",
            HackathonStatus::Ongoing => "ONGOING",
            HackathonStatus::Closed => "CLOSED",
        }
    }

    pub fn parse(s: &str) -> (r: Option<HackathonStatus>)
        ensures
            s@ == "UPCOMING"@ ==> r == Some(HackathonStatus::Upcoming),
            s@ == "ONGOING"@ ==> r == Some(HackathonStatus::Ongoing),
            s@ == "CLOSED"@ ==> r == Some(HackathonStatus::Closed),
            r is None ==> s@ != "UPCOMING"@ && s@ != "ONGOING"@ && s@ != "CLOSED"@,
            r matches Some(m) ==> hackathon_status_marker(m) == s@,
    {
        proof {
            reveal_strlit("UPCOMING");
            reveal_strlit("ONGOING");
            reveal_strlit("CLOSED");
            assert("UPCOMING"@.len() == 8);
            assert("ONGOING"@.len() == 7);
            assert("CLOSED"@.len() == 6);
        }
        if str_eq_str(s, "UPCOMING") {
            Some(HackathonStatus::Upcoming)
        } else if str_eq_str(s, "ONGOING") {
            Some(HackathonStatus::Ongoing)
        } else if str_eq_str(s, "CLOSED") {
            Some(HackathonStatus::Closed)
        } else {
            None
        }
    }
}

/// Where a submission stands in its review lifecycle.
#[derive(Clone, Copy, Debug, PartialEq, Eq, Structural)]
pub enum SubmissionStatus {
    Submitted,
    Verified,
    Archived,
}

/// The wire form of a submission status.
pub open spec fn submission_status_marker(s: SubmissionStatus) -> Seq<char> {
    match s {
        SubmissionStatus::Submitted => "submitted"@,
        SubmissionStatus::Verified => "verified"@,
        SubmissionStatus::Archived => "archived"@,
    }
}

impl SubmissionStatus {
    pub fn as_str(&self) -> (r: &str)
        ensures
            r@ == submission_status_marker(*self),
    {
        match self {
            SubmissionStatus::Submitted => "submitted",
            SubmissionStatus::Verified => "verified",
            SubmissionStatus::Archived => "archived",
        }
    }

    pub fn parse(s: &str) -> (r: Option<SubmissionStatus>)
        ensures
            s@ == "submitted"@ ==> r == Some(SubmissionStatus::Submitted),
            s@ == "verified"@ ==> r == Some(SubmissionStatus::Verified),
            s@ == "archived"@ ==> r == Some(SubmissionStatus::Archived),
            r is None ==> s@ != "submitted"@ && s@ != "verified"@ && s@ != "archived"@,
            r matches Some(m) ==> submission_status_marker(m) == s@,
    {
        proof {
            reveal_strlit("submitted");
            reveal_strlit("verified");
            reveal_strlit("archived");
            assert("submitted"@.len() == 9);
            assert("verified"@.len() == 8);
            assert("archived"@[0] == 'a' && "verified"@[0] == 'v');
            assert("archived"@ != "verified"@);
        }
        if str_eq_str(s, "submitted") {
            Some(SubmissionStatus::Submitted)
        } else if str_eq_str(s, "verified") {
            Some(SubmissionStatus::Verified)
        } else if str_eq_str(s, "archived") {
            Some(SubmissionStatus::Archived)
        } else {
            None
        }
    }
}

/// The kind of a blog post.
#[derive(Clone, Copy, Debug, PartialEq, Eq, Structural)]
pub enum BlogCategory {
    Article,
    Winner,
    Announcement,
}

/// The wire form of a blog category.
pub open spec fn blog_category_marker(c: BlogCategory) -> Seq<char> {
    match c {
        BlogCategory::Article => "article"@,
        BlogCategory::Winner => "winner"@,
        BlogCategory::Announcement => "announcement"@,
    }
}

impl BlogCategory {
    pub fn as_str(&self) -> (r: &str)
        ensures
            r@ == blog_category_marker(*self),
    {
        match self {
            BlogCategory::Article => "article",
            BlogCategory::Winner => "winner",
            BlogCategory::Announcement => "announcement",
        }
    }

    pub fn parse(s: &str) -> (r: Option<BlogCategory>)
        ensures
            s@ == "article"@ ==> r == Some(BlogCategory::Article),
            s@ == "winner"@ ==> r == Some(BlogCategory::Winner),
            s@ == "announcement"@ ==> r == Some(BlogCategory::Announcement),
            r is None ==> s@ != "article"@ && s@ != "winner"@ && s@ != "announcement"@,
            r matches Some(m) ==> blog_category_marker(m) == s@,
    {
        proof {
            reveal_strlit("article");
            reveal_strlit("winner");
            reveal_strlit("announcement");
            assert("article"@.len() == 7);
            assert("winner"@.len() == 6);
            assert("announcement"@.len() == 12);
        }
        if str_eq_str(s, "article") {
            Some(BlogCategory::Article)
        } else if str_eq_str(s, "winner") {
            Some(BlogCategory::Winner)
        } else if str_eq_str(s, "announcement") {
            Some(BlogCategory::Announcement)
        } else {
            None
        }
    }
}

/// Whether a blog post is visible to the public.
#[derive(Clone, Copy, Debug, PartialEq, Eq, Structural)]
pub enum BlogStatus {
    Draft,
    Published,
}

/// The wire form of a blog status.
pub open spec fn blog_status_marker(s: BlogStatus) -> Seq<char> {
    match s {
        BlogStatus::Draft => "draft"@,
        BlogStatus::Published => "published"@,
    }
}

impl BlogStatus {
    pub fn as_str(&self) -> (r: &str)
        ensures
            r@ == blog_status_marker(*self),
    {
        match self {
            BlogStatus::Draft => "draft",
            BlogStatus::Published => "published",
        }
    }

    pub fn parse(s: &str) -> (r: Option<BlogStatus>)
        ensures
            s@ == "draft"@ ==> r == Some(BlogStatus::Draft),
            s@ == "published"@ ==> r == Some(BlogStatus::Published),
            r is None ==> s@ != "draft"@ && s@ != "published"@,
            r matches Some(m) ==> blog_status_marker(m) == s@,
    {
        proof {
            reveal_strlit("draft");
            reveal_strlit("published");
            assert("draft"@.len() == 5);
            assert("published"@.len() == 9);
        }
        if str_eq_str(s, "draft") {
            Some(BlogStatus::Draft)
        } else if str_eq_str(s, "published") {
            Some(BlogStatus::Published)
        } else {
            None
        }
    }
}

/// A request to change a row's status string.
#[derive(Clone, Debug)]
pub struct UpdateStatusRequest {
    pub status: String,
}

/// One participant of a team submission.
#[derive(Clone, Debug)]
pub struct ParticipantInput {
    pub name: String,
    pub email: String,
    pub department: String,
    pub academic_year: String,
}

/// One mentor of a team submission.
#[derive(Clone, Debug)]
pub struct MentorInput {
    pub name: String,
    pub department: String,
}

/// A team's participation submission.
#[derive(Clone, Debug)]
pub struct SubmitParticipationRequest {
    pub hackathon_id: String,
    pub team_name: String,
    pub external_registration_confirmed: bool,
    pub participants: Vec<ParticipantInput>,
    pub mentors: Vec<MentorInput>,
}

/// A request to create a blog post.
#[derive(Clone, Debug)]
pub struct CreateBlogPostRequest {
    pub title: String,
    pub summary: String,
    pub content: String,
    pub category: String,
    pub author: String,
    pub related_hackathon: Option<String>,
    pub status: Option<String>,
}

/// A partial update of a blog post; absent fields keep their value.
#[derive(Clone, Debug)]
pub struct UpdateBlogPostRequest {
    pub title: Option<String>,
    pub summary: Option<String>,
    pub content: Option<String>,
    pub category: Option<String>,
    pub author: Option<String>,
    pub related_hackathon: Option<String>,
    pub status: Option<String>,
}

/// Aggregate portal counters.
#[derive(Clone, Copy, Debug, PartialEq, Eq, Structural)]
pub struct Metrics {
    pub total_hackathons: i64,
    pub total_submissions: i64,
    pub total_students: i64,
    pub total_mentors: i64,
}

/// A login attempt.
#[derive(Clone, Debug)]
pub struct LoginRequest {
    pub email: String,
    pub password: String,
}

/// The public face of an administrator account.
#[derive(Clone, Debug)]
pub struct AdminResponse {
    pub id: String,
    pub name: String,
    pub email: String,
}

/// A successful administrator login: the signed token and the principal.
#[derive(Clone, Debug)]
pub struct LoginResponse {
    pub token: String,
    pub admin: AdminResponse,
}

} // verus!
