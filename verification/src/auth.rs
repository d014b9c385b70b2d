//! Password hashing and signed-token issuance/verification.
//!
//! The memory-hard hashing itself and the HMAC signature are computed by the
//! `argon2` and `jsonwebtoken` crates behind trusted wrappers; everything
//! decided here — error mapping, role encoding, the 24-hour expiry rule —
//! is verified.

use argon2::PasswordHasher;
use argon2::PasswordVerifier;

use vstd::prelude::*;

verus! {

use crate::error::AppError;
use crate::error::AppResult;
use crate::text::str_eq_str;

/// Token lifetime in seconds: expiry is fixed at 24 hours from issuance.
pub const JWT_EXPIRATION: i64 = 24 * 60 * 60;

/// The closed set of principal roles. Keeping this an enumeration makes an
/// invalid role unrepresentable past the decoding boundary.
#[derive(Clone, Copy, Debug, PartialEq, Eq, Structural)]
pub enum Role {
    Admin,
    Student,
}

/// The wire form of a role inside a token.
pub open spec fn role_marker(role: Role) -> Seq<char> {
    match role {
        Role::Admin => "admin"@,
        Role::Student => "student"@,
    }
}

impl Role {
    pub fn as_str(&self) -> (r: &str)
        ensures
            r@ == role_marker(*self),
    {
        match self {
            Role::Admin => "admin",
            Role::Student => "student",
        }
    }
}

/// Turns a role marker back into a role; anything but the two known markers
/// is rejected.
pub fn parse_role(s: &str) -> (r: Option<Role>)
    ensures
        s@ == "admin"@ ==> r == Some(Role::Admin),
        s@ == "student"@ ==> r == Some(Role::Student),
        r is None ==> s@ != "admin"@ && s@ != "student"@,
        r matches Some(role) ==> role_marker(role) == s@,
{
    proof {
        reveal_strlit("admin");
        reveal_strlit("student");
        assert("admin"@.len() == 5);
        assert("student"@.len() == 7);
        assert("admin"@ != "student"@);
    }
    if str_eq_str(s, "admin") {
        Some(Role::Admin)
    } else if str_eq_str(s, "student") {
        Some(Role::Student)
    } else {
        None
    }
}

/// The decoded, signature-checked payload of a verified token, attached to a
/// request for its duration only.
#[derive(Clone, Debug)]
pub struct Claims {
    pub sub: String,
    pub email: String,
    pub role: Role,
    pub exp: i64,
}

/// The plain-value model of a token payload: subject, email, role marker and
/// expiry timestamp.
pub open spec fn claims_model(c: Claims) -> (Seq<char>, Seq<char>, Seq<char>, int) {
    (c.sub@, c.email@, role_marker(c.role), c.exp as int)
}

/// Whether a stored digest parses as a PHC-format password hash, as
/// `argon2::password_hash::PasswordHash::new` decides it.
pub uninterp spec fn digest_well_formed(digest: Seq<char>) -> bool;

/// Whether a password matches a digest: the verdict of
/// `Argon2::verify_password`, which recomputes the hash using the salt and
/// parameters embedded in the digest and compares in constant time.
pub uninterp spec fn digest_matches(password: Seq<char>, digest: Seq<char>) -> bool;

/// Relies on argon2::password_hash::PasswordHash::new: whether a digest
/// string parses is a function of the string alone.
#[verifier::external_body]
fn argon_digest_parses(digest: &str) -> (r: bool)
    ensures
        r == digest_well_formed(digest@),
{
    argon2::PasswordHash::new(digest).is_ok()
}

/// Relies on argon2::Argon2::verify_password, reached through the parse the
/// caller has already established succeeds: the verdict is a function of the
/// password and the digest alone.
#[verifier::external_body]
fn argon_verify_digest(password: &str, digest: &str) -> (r: bool)
    requires
        digest_well_formed(digest@),
    ensures
        r == digest_matches(password@, digest@),
{
    match argon2::PasswordHash::new(digest) {
        Ok(parsed) => argon2::Argon2::default().verify_password(
            password.as_bytes(),
            &parsed,
        ).is_ok(),
        Err(_) => false,
    }
}

/// Relies on argon2::Argon2::hash_password with a fresh OsRng salt: a digest
/// it returns is a PHC string embedding that salt, so it parses back and
/// verifies the password it was produced from.
#[verifier::external_body]
fn argon_hash_password(password: &str) -> (r: Result<String, ()>)
    ensures
        r matches Ok(d) ==> digest_well_formed(d@) && digest_matches(password@, d@),
{
    let salt = argon2::password_hash::SaltString::generate(
        argon2::password_hash::rand_core::OsRng,
    );
    match argon2::Argon2::default().hash_password(password.as_bytes(), &salt) {
        Ok(h) => Ok(h.to_string()),
        Err(_) => Err(()),
    }
}

/// Hashes a password with a fresh random salt. Two calls on the same
/// password yield different digests, but every digest returned verifies the
/// password it was produced from.
pub fn hash_password(password: &str) -> (r: AppResult<String>)
    ensures
        r matches Ok(d) ==> digest_well_formed(d@) && digest_matches(password@, d@),
        r matches Err(e) ==> e matches AppError::InternalError(m) && m@
            == "Password hashing failed"@,
{
    match argon_hash_password(password) {
        Ok(d) => Ok(d),
        Err(_) => Err(AppError::InternalError("Password hashing failed".to_owned())),
    }
}

/// What verification of `password` against `digest` must return: a mismatch
/// is an ordinary `false`, while a digest that does not even parse is an
/// error, kept distinct from a wrong password.
pub open spec fn password_verdict(password: Seq<char>, digest: Seq<char>) -> Option<bool> {
    if digest_well_formed(digest) {
        Some(digest_matches(password, digest))
    } else {
        None
    }
}

/// Verifies a password against a stored digest.
pub fn verify_password(password: &str, hash: &str) -> (r: AppResult<bool>)
    ensures
        (r is Ok) == (password_verdict(password@, hash@) is Some),
        r matches Ok(b) ==> password_verdict(password@, hash@) == Some(b),
        r matches Err(e) ==> e matches AppError::InternalError(m) && m@
            == "Invalid password hash"@,
{
    if !argon_digest_parses(hash) {
        Err(AppError::InternalError("Invalid password hash".to_owned()))
    } else {
        Ok(argon_verify_digest(password, hash))
    }
}

/// Law: any digest satisfying `hash_password`'s postcondition for a password
/// makes `verify_password` of that password return `Ok(true)`.
pub proof fn lemma_hash_then_verify(password: Seq<char>, digest: Seq<char>)
    requires
        digest_well_formed(digest),
        digest_matches(password, digest),
    ensures
        password_verdict(password, digest) == Some(true),
{
}

/// The claims `jsonwebtoken::decode` recovers from a token under a secret,
/// with expiry validation left to the caller: subject, email, role marker
/// and expiry timestamp — or `None` where the token is malformed, is not
/// signed with this secret, does not carry those four claims, or carries a
/// claim the fixed validation rejects (an audience, with none expected).
pub uninterp spec fn decode_of(token: Seq<char>, secret: Seq<char>) -> Option<
    (Seq<char>, Seq<char>, Seq<char>, int),
>;

/// Relies on jsonwebtoken::encode with the default HS256 header. The call
/// cannot fail on these inputs: a plain-secret key is of the HMAC family the
/// default header names, serializing a string-keyed JSON object cannot
/// error, and HMAC-SHA256 signs under any key. The token it returns is one
/// that jsonwebtoken::decode, under the same secret, decodes back to
/// exactly the encoded claims.
#[verifier::external_body]
fn jwt_encode(sub: &str, email: &str, role: &str, exp: i64, secret: &str) -> (r: String)
    ensures
        decode_of(r@, secret@) == Some((sub@, email@, role@, exp as int)),
{
    let mut claims = serde_json::Map::new();
    claims.insert("sub".to_string(), serde_json::Value::from(sub));
    claims.insert("email".to_string(), serde_json::Value::from(email));
    claims.insert("role".to_string(), serde_json::Value::from(role));
    claims.insert("exp".to_string(), serde_json::Value::from(exp));
    let key = jsonwebtoken::EncodingKey::from_secret(secret.as_bytes());
    jsonwebtoken::encode(
        &jsonwebtoken::Header::default(),
        &serde_json::Value::Object(claims),
        &key,
    ).unwrap()
}

/// Relies on jsonwebtoken::decode with signature checking on and expiry
/// validation off: with no clock involved, the outcome is a function of the
/// token and the secret alone.
#[verifier::external_body]
fn jwt_decode(token: &str, secret: &str) -> (r: Option<(String, String, String, i64)>)
    ensures
        (r is Some) == (decode_of(token@, secret@) is Some),
        r matches Some(c) ==> decode_of(token@, secret@) == Some(
            (c.0@, c.1@, c.2@, c.3 as int),
        ),
{
    let mut v = jsonwebtoken::Validation::default();
    v.validate_exp = false;
    v.required_spec_claims = std::collections::HashSet::new();
    let k = jsonwebtoken::DecodingKey::from_secret(secret.as_bytes());
    let c = jsonwebtoken::decode::<serde_json::Value>(token, &k, &v).ok()?.claims;
    Some((
        c.get("sub")?.as_str()?.to_string(),
        c.get("email")?.as_str()?.to_string(),
        c.get("role")?.as_str()?.to_string(),
        c.get("exp")?.as_i64()?,
    ))
}

/// Relies on chrono::Utc::now: seconds since the Unix epoch at the moment of
/// the call. Nothing is assumed of the value.
#[verifier::external_body]
fn now_timestamp() -> i64 {
    chrono::Utc::now().timestamp()
}

/// The verdict of token verification at instant `now`: the decoded claims
/// when the token decodes under `secret`, carries a known role, and has not
/// yet expired; `None` otherwise.
pub open spec fn token_verdict(token: Seq<char>, secret: Seq<char>, now: int) -> Option<
    (Seq<char>, Seq<char>, Seq<char>, int),
> {
    match decode_of(token, secret) {
        Some(m) => if (m.2 == "admin"@ || m.2 == "student"@) && now < m.3 {
            Some(m)
        } else {
            None
        },
        None => None,
    }
}

/// Issues a token for the given principal, expiring `JWT_EXPIRATION`
/// seconds after `now`. Issuance always succeeds, and the token
/// round-trips: at any instant before that expiry it verifies back to
/// exactly these claims, and at or past expiry it verifies to nothing.
pub fn issue_token_at(subject: &str, email: &str, role: Role, secret: &str, now: i64) -> (t:
    String)
    requires
        now <= i64::MAX - JWT_EXPIRATION,
    ensures
        decode_of(t@, secret@) == Some(
            (subject@, email@, role_marker(role), now + JWT_EXPIRATION),
        ),
        forall|at: int|
            at < now + JWT_EXPIRATION ==> token_verdict(t@, secret@, at) == Some(
                (subject@, email@, role_marker(role), now + JWT_EXPIRATION),
            ),
        forall|at: int|
            at >= now + JWT_EXPIRATION ==> token_verdict(t@, secret@, at) is None,
{
    let exp = now + JWT_EXPIRATION;
    let t = jwt_encode(subject, email, role.as_str(), exp, secret);
    proof {
        assert(role_marker(role) == "admin"@ || role_marker(role) == "student"@);
    }
    t
}

/// Issues a token expiring 24 hours from the current clock reading. The
/// one failure is a clock reading too large for the expiry to fit its
/// field; for any other reading a token comes back.
pub fn create_jwt(subject: &str, email: &str, role: Role, secret: &str) -> (r: AppResult<
    String,
>)
    ensures
        r matches Ok(t) ==> decode_of(t@, secret@) matches Some(m) && m.0 == subject@ && m.1
            == email@ && m.2 == role_marker(role),
        r matches Err(e) ==> e matches AppError::InternalError(msg) && msg@
            == "JWT creation failed"@,
{
    let now = now_timestamp();
    if now > i64::MAX - JWT_EXPIRATION {
        return Err(AppError::InternalError("JWT creation failed".to_owned()));
    }
    Ok(issue_token_at(subject, email, role, secret, now))
}

/// Verifies a token at instant `now`: the signature must check out under
/// `secret`, the role must be a known one, and the expiry must lie strictly
/// in the future. The claims come back unmodified — no renewal, no sliding
/// expiry.
pub fn verify_token_at(token: &str, secret: &str, now: i64) -> (r: AppResult<Claims>)
    ensures
        (r is Ok) == (token_verdict(token@, secret@, now as int) is Some),
        r matches Ok(c) ==> token_verdict(token@, secret@, now as int) == Some(
            claims_model(c),
        ),
        r matches Err(e) ==> e matches AppError::Unauthorized(m) && m@ == "Invalid token"@,
{
    match jwt_decode(token, secret) {
        None => Err(AppError::Unauthorized("Invalid token".to_owned())),
        Some(decoded) => {
            let (sub, email, role_s, exp) = decoded;
            match parse_role(role_s.as_str()) {
                None => Err(AppError::Unauthorized("Invalid token".to_owned())),
                Some(role) => {
                    if exp <= now {
                        Err(AppError::Unauthorized("Invalid token".to_owned()))
                    } else {
                        Ok(Claims { sub, email, role, exp })
                    }
                },
            }
        },
    }
}

/// Verifies a token against the current clock reading.
pub fn verify_jwt(token: &str, secret: &str) -> (r: AppResult<Claims>)
    ensures
        r matches Ok(c) ==> decode_of(token@, secret@) == Some(claims_model(c)),
        decode_of(token@, secret@) is None ==> r is Err,
        r matches Err(e) ==> e matches AppError::Unauthorized(m) && m@ == "Invalid token"@,
{
    let now = now_timestamp();
    verify_token_at(token, secret, now)
}

/// Law: token round trip. A token carrying given claims under a secret — in
/// particular any token `issue_token_at` returns — verifies to exactly those
/// claims at every instant before its expiry.
pub proof fn lemma_issue_then_verify(
    token: Seq<char>,
    sub: Seq<char>,
    email: Seq<char>,
    role: Role,
    exp: int,
    secret: Seq<char>,
    now: int,
)
    requires
        decode_of(token, secret) == Some((sub, email, role_marker(role), exp)),
        now < exp,
    ensures
        token_verdict(token, secret, now) == Some((sub, email, role_marker(role), exp)),
{
    assert(role_marker(role) == "admin"@ || role_marker(role) == "student"@);
}

/// Law: an expired token never verifies, whatever its other claims say.
pub proof fn lemma_expired_token_rejected(token: Seq<char>, secret: Seq<char>, now: int)
    requires
        decode_of(token, secret) matches Some(m) && now >= m.3,
    ensures
        token_verdict(token, secret, now) is None,
{
}

} // verus!
