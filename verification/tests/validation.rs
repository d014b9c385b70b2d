use coin_backend::error::AppError;

use coin_backend::handlers::public::paginate;
use coin_backend::handlers::public::validate_submission;
use coin_backend::handlers::public::PaginationQuery;
use coin_backend::handlers::student::escape_sql_literal;
use coin_backend::handlers::student::merge_profile;
use coin_backend::handlers::student::validate_registration;
use coin_backend::handlers::student::StudentAccount;
use coin_backend::handlers::student::UpdateProfileRequest;
use coin_backend::models::MentorInput;
use coin_backend::models::ParticipantInput;
use coin_backend::models::SubmitParticipationRequest;
use coin_backend::utils::generate_slug;
use coin_backend::utils::validate_srec_email;
use coin_backend::utils::validate_uuid;

fn expect_bad_request(err: AppError, msg: &str) {
    match err {
        AppError::BadRequest(m) => assert_eq!(m, msg),
        other => panic!("unexpected error: {:?}", other),
    }
}

#[test]
fn srec_email_accepts_the_college_domain() {
    assert!(validate_srec_email("student.name+tag@srec.ac.in").is_ok());
    assert!(validate_srec_email("A1_b%-c@srec.ac.in").is_ok());
}

#[test]
fn srec_email_rejects_other_domains_and_shapes() {
    expect_bad_request(
        validate_srec_email("someone@gmail.com").unwrap_err(),
        "Email must end with @srec.ac.in",
    );
    assert!(validate_srec_email("@srec.ac.in").is_err());
    assert!(validate_srec_email("a b@srec.ac.in").is_err());
    assert!(validate_srec_email("a@x@srec.ac.in").is_err());
    assert!(validate_srec_email("").is_err());
    assert!(validate_srec_email("someone@srec.ac.in.evil.com").is_err());
}

#[test]
fn slug_lowercases_and_joins_words() {
    assert_eq!(generate_slug("Hello World!"), "hello-world");
    assert_eq!(generate_slug("  Smart India Hackathon 2024  "), "smart-india-hackathon-2024");
    assert_eq!(generate_slug("--a--b--"), "a-b");
    assert_eq!(generate_slug(""), "");
    assert_eq!(generate_slug("!!!"), "");
    assert_eq!(generate_slug("Rust & Verus"), "rust-verus");
}

#[test]
fn uuid_validation() {
    assert!(validate_uuid("67e55044-10b1-426f-9247-bb680e5fe0c8").is_ok());
    expect_bad_request(
        validate_uuid("not-a-uuid").unwrap_err(),
        "Invalid UUID format",
    );
}

#[test]
fn registration_requires_college_email_and_year_bounds() {
    assert!(validate_registration("x@srec.ac.in", 3).is_ok());
    expect_bad_request(
        validate_registration("x@gmail.com", 3).unwrap_err(),
        "Only @srec.ac.in email addresses are allowed",
    );
    expect_bad_request(
        validate_registration("x@srec.ac.in", 0).unwrap_err(),
        "Academic year must be between 1 and 4",
    );
    expect_bad_request(
        validate_registration("x@srec.ac.in", 5).unwrap_err(),
        "Academic year must be between 1 and 4",
    );
}

fn stored_student() -> StudentAccount {
    StudentAccount {
        id: "id-1".to_string(),
        name: "Asha".to_string(),
        email: "asha@srec.ac.in".to_string(),
        password_hash: "digest".to_string(),
        year: 2,
        branch: "CSE".to_string(),
        bio: None,
    }
}

#[test]
fn profile_merge_keeps_absent_fields() {
    let merged = merge_profile(
        stored_student(),
        UpdateProfileRequest {
            name: None,
            year: Some(3),
            branch: None,
            bio: Some("hi".to_string()),
            skills: None,
        },
    )
    .unwrap();
    assert_eq!(merged.name, "Asha");
    assert_eq!(merged.year, 3);
    assert_eq!(merged.branch, "CSE");
    assert_eq!(merged.bio.as_deref(), Some("hi"));
    assert_eq!(merged.id, "id-1");
    assert_eq!(merged.email, "asha@srec.ac.in");
}

#[test]
fn profile_merge_rejects_bad_year() {
    let err = merge_profile(
        stored_student(),
        UpdateProfileRequest {
            name: None,
            year: Some(9),
            branch: None,
            bio: None,
            skills: None,
        },
    )
    .unwrap_err();
    expect_bad_request(err, "Academic year must be between 1 and 4");
}

fn participant(email: &str) -> ParticipantInput {
    ParticipantInput {
        name: "P".to_string(),
        email: email.to_string(),
        department: "CSE".to_string(),
        academic_year: "2".to_string(),
    }
}

fn sample_request() -> SubmitParticipationRequest {
    SubmitParticipationRequest {
        hackathon_id: "67e55044-10b1-426f-9247-bb680e5fe0c8".to_string(),
        team_name: "Team Rocket".to_string(),
        external_registration_confirmed: true,
        participants: vec![participant("a@srec.ac.in"), participant("b@srec.ac.in")],
        mentors: vec![MentorInput { name: "M".to_string(), department: "IT".to_string() }],
    }
}

#[test]
fn acceptable_submission_passes() {
    assert!(validate_submission("UPCOMING", &sample_request()).is_ok());
}

#[test]
fn closed_hackathon_rejects_submissions() {
    expect_bad_request(
        validate_submission("CLOSED", &sample_request()).unwrap_err(),
        "Hackathon registration is closed",
    );
}

#[test]
fn unconfirmed_external_registration_is_rejected() {
    let mut req = sample_request();
    req.external_registration_confirmed = false;
    expect_bad_request(
        validate_submission("ONGOING", &req).unwrap_err(),
        "External registration must be confirmed",
    );
}

#[test]
fn non_college_participant_email_is_rejected() {
    let mut req = sample_request();
    req.participants[1] = participant("b@gmail.com");
    expect_bad_request(
        validate_submission("ONGOING", &req).unwrap_err(),
        "Email must end with @srec.ac.in",
    );
}

#[test]
fn duplicate_participant_emails_are_rejected() {
    let mut req = sample_request();
    req.participants[1] = participant("a@srec.ac.in");
    expect_bad_request(
        validate_submission("ONGOING", &req).unwrap_err(),
        "Duplicate participant emails",
    );
}

#[test]
fn blank_team_name_is_rejected() {
    let mut req = sample_request();
    req.team_name = "   ".to_string();
    expect_bad_request(
        validate_submission("ONGOING", &req).unwrap_err(),
        "Team name is required",
    );
}

#[test]
fn empty_participant_list_is_rejected() {
    let mut req = sample_request();
    req.participants = vec![];
    expect_bad_request(
        validate_submission("ONGOING", &req).unwrap_err(),
        "At least one participant is required",
    );
}

#[test]
fn pagination_defaults_and_bounds() {
    let w = paginate(&PaginationQuery { page: None, limit: None }, 25);
    assert_eq!((w.page, w.limit, w.offset, w.pages), (1, 10, 0, 3));

    let w = paginate(&PaginationQuery { page: Some(3), limit: Some(7) }, 25);
    assert_eq!((w.page, w.limit, w.offset, w.pages), (3, 7, 14, 4));

    let w = paginate(&PaginationQuery { page: Some(-2), limit: Some(500) }, 0);
    assert_eq!((w.page, w.limit, w.offset, w.pages), (1, 100, 0, 0));
}

#[test]
fn sql_literal_escaping_doubles_quotes() {
    assert_eq!(escape_sql_literal("O'Brien"), "O''Brien");
    assert_eq!(escape_sql_literal("no quotes"), "no quotes");
    assert_eq!(escape_sql_literal("''"), "''''");
    assert_eq!(escape_sql_literal(""), "");
}
