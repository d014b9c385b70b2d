use coin_backend::error::AppError;

use coin_backend::auth::issue_token_at;
use coin_backend::auth::Claims;
use coin_backend::auth::Role;
use coin_backend::gate::admin_guard;
use coin_backend::gate::auth_middleware;
use coin_backend::gate::authorize_request;
use coin_backend::gate::is_protected_path;
use coin_backend::gate::is_public_path;
use coin_backend::gate::student_guard;

const SECRET: &str = "gate-test-secret";
const NOW: i64 = 1_700_000_000;

fn bearer(token: &str) -> String {
    format!("Bearer {}", token)
}

#[test]
fn public_path_passes_without_header() {
    let r = auth_middleware("/api/hackathons", None, SECRET, NOW).unwrap();
    assert!(r.is_none());
}

#[test]
fn public_path_classification() {
    assert!(is_public_path("/api/health"));
    assert!(is_public_path("/api/hackathons"));
    assert!(is_public_path("/api/hackathons/42"));
    assert!(is_public_path("/api/blog/some-slug"));
    assert!(is_public_path("/api/submit"));
    assert!(is_public_path("/api/admin/login"));
    assert!(is_public_path("/api/student/register"));
    assert!(is_public_path("/api/student/login"));
    assert!(!is_public_path("/api/admin/metrics"));
    assert!(!is_public_path("/api/student/profile"));
}

#[test]
fn protected_path_classification() {
    assert!(is_protected_path("/api/admin/metrics"));
    assert!(is_protected_path("/api/student/profile"));
    assert!(!is_protected_path("/api/other"));
}

#[test]
fn admin_path_embedding_a_public_fragment_stays_protected() {
    assert!(!is_public_path("/api/admin/things/api/blog"));
    let err = auth_middleware("/api/admin/things/api/blog", None, SECRET, NOW).unwrap_err();
    match err {
        AppError::Unauthorized(m) => assert_eq!(m, "Missing authorization header"),
        other => panic!("unexpected error: {:?}", other),
    }
}

#[test]
fn protected_path_without_header_is_401_missing() {
    let err = auth_middleware("/api/admin/metrics", None, SECRET, NOW).unwrap_err();
    match err {
        AppError::Unauthorized(m) => assert_eq!(m, "Missing authorization header"),
        other => panic!("unexpected error: {:?}", other),
    }
    assert_eq!(
        AppError::Unauthorized("x".to_string()).status_code(),
        401
    );
}

#[test]
fn wrong_scheme_is_401_invalid_header() {
    let err = auth_middleware("/api/admin/metrics", Some("Token abc"), SECRET, NOW).unwrap_err();
    match err {
        AppError::Unauthorized(m) => assert_eq!(m, "Invalid authorization header"),
        other => panic!("unexpected error: {:?}", other),
    }
}

#[test]
fn bad_token_is_401_invalid_token() {
    let err =
        auth_middleware("/api/admin/metrics", Some("Bearer garbage"), SECRET, NOW).unwrap_err();
    match err {
        AppError::Unauthorized(m) => assert_eq!(m, "Invalid token"),
        other => panic!("unexpected error: {:?}", other),
    }
}

#[test]
fn valid_token_attaches_claims() {
    let token = issue_token_at("admin-3", "a@srec.ac.in", Role::Admin, SECRET, NOW);
    let claims = auth_middleware("/api/admin/metrics", Some(&bearer(&token)), SECRET, NOW)
        .unwrap()
        .unwrap();
    assert_eq!(claims.sub, "admin-3");
    assert_eq!(claims.role, Role::Admin);
}

#[test]
fn non_api_path_passes_with_no_identity() {
    let r = auth_middleware("/metrics-dashboard", None, SECRET, NOW).unwrap();
    assert!(r.is_none());
}

fn sample_claims(role: Role) -> Claims {
    Claims {
        sub: "p-1".to_string(),
        email: "p@srec.ac.in".to_string(),
        role,
        exp: NOW + 100,
    }
}

#[test]
fn admin_guard_accepts_admin_and_rejects_student() {
    assert!(admin_guard(Some(&sample_claims(Role::Admin))).is_ok());
    let err = admin_guard(Some(&sample_claims(Role::Student))).unwrap_err();
    match err {
        AppError::Forbidden(m) => assert_eq!(m, "Admin access required"),
        other => panic!("unexpected error: {:?}", other),
    }
    assert_eq!(AppError::Forbidden("x".to_string()).status_code(), 403);
}

#[test]
fn student_guard_accepts_student_and_rejects_admin() {
    assert!(student_guard(Some(&sample_claims(Role::Student))).is_ok());
    let err = student_guard(Some(&sample_claims(Role::Admin))).unwrap_err();
    match err {
        AppError::Forbidden(m) => assert_eq!(m, "Student access required"),
        other => panic!("unexpected error: {:?}", other),
    }
}

#[test]
fn guards_demand_an_identity() {
    let err = admin_guard(None).unwrap_err();
    match err {
        AppError::Unauthorized(m) => assert_eq!(m, "Authentication required"),
        other => panic!("unexpected error: {:?}", other),
    }
    assert!(student_guard(None).is_err());
}

#[test]
fn student_token_on_admin_route_is_403() {
    let token = issue_token_at("stu-9", "s@srec.ac.in", Role::Student, SECRET, NOW);
    let err = authorize_request(
        "/api/admin/metrics",
        Some(&bearer(&token)),
        Some(Role::Admin),
        SECRET,
        NOW,
    )
    .unwrap_err();
    match err {
        AppError::Forbidden(m) => assert_eq!(m, "Admin access required"),
        other => panic!("unexpected error: {:?}", other),
    }
}

#[test]
fn admin_token_on_admin_route_reaches_handler_with_subject() {
    let token = issue_token_at("admin-42", "a@srec.ac.in", Role::Admin, SECRET, NOW);
    let claims = authorize_request(
        "/api/admin/metrics",
        Some(&bearer(&token)),
        Some(Role::Admin),
        SECRET,
        NOW,
    )
    .unwrap()
    .unwrap();
    assert_eq!(claims.sub, "admin-42");
    assert_eq!(claims.email, "a@srec.ac.in");
}

#[test]
fn expired_token_is_rejected_at_the_gate() {
    let token = issue_token_at("admin-3", "a@srec.ac.in", Role::Admin, SECRET, NOW);
    let later = NOW + 24 * 60 * 60;
    let err =
        auth_middleware("/api/admin/metrics", Some(&bearer(&token)), SECRET, later).unwrap_err();
    match err {
        AppError::Unauthorized(m) => assert_eq!(m, "Invalid token"),
        other => panic!("unexpected error: {:?}", other),
    }
}
