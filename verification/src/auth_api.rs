//! Registration and login: request checks, password hashing (Argon2) and
//! the claims of the access tokens issued.
use crate::auth::{Claims, JWT_AUDIENCE, JWT_ISSUER};
use crate::auth_validation::canonical_email;
use crate::status::Status;
use crate::text::{contains_char, str_eq, to_lowercase, trim, trimmed, utf8_len, utf8_len_at_most};
use argon2::password_hash::{PasswordHash, PasswordHasher, PasswordVerifier, SaltString};
use argon2::Argon2;
use rand_core::OsRng;
use vstd::prelude::*;

verus! {

/// How long an access token is valid, in seconds.
pub const TOKEN_LIFETIME_SECS: u64 = 3600;

/// The body of a registration.
pub struct RegisterRequest {
    pub email: String,
    pub password: String,
    pub full_name: String,
}

/// The body of a login.
pub struct LoginRequest {
    pub email: String,
    pub password: String,
}

/// The answer to a registration or login: a bearer token.
#[derive(Debug)]
pub struct TokenResponse {
    pub access_token: String,
    pub token_type: &'static str,
}

/// The caller's own account.
#[derive(Debug)]
pub struct MeResponse {
    pub id: u128,
    pub email: String,
    pub role: String,
    pub status: String,
    pub full_name: String,
}

/// The fields of an accepted registration: the canonical email and the
/// trimmed full name.
#[derive(Debug)]
pub struct Registration {
    pub email: String,
    pub full_name: String,
}

/// What the `users` table holds for a login: id, password hash, role and status.
#[derive(Debug)]
pub struct LoginRecord {
    pub id: u128,
    pub password_hash: String,
    pub role: String,
    pub status: String,
}

/// A registration request is acceptable: the email holds an `@`, the
/// password has at least 8 bytes, and the trimmed full name is not empty and
/// at most 160 bytes.
pub open spec fn registration_request_ok(req: RegisterRequest) -> bool {
    &&& req.email@.contains('@')
    &&& utf8_len(req.password@) >= 8
    &&& trimmed(req.full_name@).len() > 0
    &&& utf8_len(trimmed(req.full_name@)) <= 160
}

/// Checks a registration request; a bad one is a bad request. The account
/// is to be created under the canonical email and the trimmed name.
pub fn validate_registration_request(req: &RegisterRequest) -> (r: Result<Registration, Status>)
    ensures
        r is Ok <==> registration_request_ok(*req),
        r matches Ok(reg) ==> reg.email@ == canonical_email(req.email@) && reg.full_name@
            == trimmed(req.full_name@),
        r matches Err(e) ==> e == Status::BadRequest,
{
    let name = trim(req.full_name.as_str());
    if !contains_char(req.email.as_str(), '@') || utf8_len_at_most(req.password.as_str(), 7)
        || name.unicode_len() == 0 || !utf8_len_at_most(name, 160) {
        return Err(Status::BadRequest);
    }
    let email = to_lowercase(trim(req.email.as_str()));
    Ok(Registration { email, full_name: name.to_owned() })
}

/// An email that already has an account cannot register again.
pub fn check_email_available(already_registered: bool) -> (r: Result<(), Status>)
    ensures
        r is Ok <==> !already_registered,
        r matches Err(e) ==> e == Status::Conflict,
{
    if already_registered {
        Err(Status::Conflict)
    } else {
        Ok(())
    }
}

/// Whether `password` matches the PHC-format Argon2 hash `hash`.
pub uninterp spec fn argon2_accepts(password: Seq<u8>, hash: Seq<char>) -> bool;

/// Whether `hash` is a well-formed PHC password-hash string.
pub uninterp spec fn phc_hash_parses(hash: Seq<char>) -> bool;

/// Calls `PasswordHash::new`: whether `hash` parses as a PHC string.
#[verifier::external_body]
fn password_hash_parses(hash: &str) -> (r: bool)
    ensures
        r == phc_hash_parses(hash@),
{
    PasswordHash::new(hash).is_ok()
}

/// Calls `Argon2::default().verify_password` on the parsed `hash`: whether
/// `password` matches it (false when the hash does not parse).
#[verifier::external_body]
fn argon2_verify(password: &[u8], hash: &str) -> (r: bool)
    ensures
        r == argon2_accepts(password@, hash@),
{
    match PasswordHash::new(hash) {
        Ok(parsed) => Argon2::default().verify_password(password, &parsed).is_ok(),
        Err(_) => false,
    }
}

/// Calls `Argon2::default().hash_password` with a fresh random salt
/// (`SaltString::generate` over the operating system's generator) and
/// renders the PHC string. The hash differs from call to call; what holds of
/// every outcome is that it parses and that the same password verifies
/// against it.
#[verifier::external_body]
fn hash_password(password: &[u8]) -> (r: Option<String>)
    ensures
        r matches Some(h) ==> phc_hash_parses(h@) && argon2_accepts(password@, h@),
{
    let salt = SaltString::generate(&mut OsRng);
    Argon2::default().hash_password(password, &salt).ok().map(|h| h.to_string())
}

/// The credential stored for a new account: an Argon2 hash of the password
/// with a fresh random salt. Where hashing fails, the registration fails
/// with an internal error. The hash differs from call to call; every hash
/// given parses and accepts the password.
pub fn new_credential(password: &str) -> (r: Result<String, Status>)
    ensures
        r matches Ok(h) ==> phc_hash_parses(h@) && argon2_accepts(
            vstd::utf8::encode_utf8(password@),
            h@,
        ),
        r matches Err(e) ==> e == Status::InternalServerError,
{
    match hash_password(password.as_bytes()) {
        Some(h) => Ok(h),
        None => Err(Status::InternalServerError),
    }
}

/// The claims of a token issued at `now` (seconds since the epoch) for the
/// given account: valid for an hour, with this service's issuer and audience.
pub fn issue_claims(user_id: u128, email: String, role: String, now: u64) -> (r: Claims)
    requires
        now + TOKEN_LIFETIME_SECS <= u64::MAX,
    ensures
        r.sub == user_id,
        r.email == email,
        r.role == role,
        r.exp == now + TOKEN_LIFETIME_SECS,
        r.iss@ == JWT_ISSUER@,
        r.aud@ == JWT_AUDIENCE@,
{
    Claims {
        sub: user_id,
        email,
        role,
        exp: now + TOKEN_LIFETIME_SECS,
        iss: JWT_ISSUER.to_owned(),
        aud: JWT_AUDIENCE.to_owned(),
    }
}

/// The role of every newly registered account.
pub fn registration_role() -> (r: &'static str)
    ensures
        r@ == "BUYER"@,
{
    "BUYER"
}

/// The status of every newly registered account: active from the start.
pub fn registration_status() -> (r: &'static str)
    ensures
        r@ == "ACTIVE"@,
{
    "ACTIVE"
}

/// The answer carrying an issued token, of type `Bearer`.
pub fn token_response(access_token: String) -> (r: TokenResponse)
    ensures
        r.access_token == access_token,
        r.token_type@ == "Bearer"@,
{
    TokenResponse { access_token, token_type: "Bearer" }
}

/// The email a login looks up: trimmed and lowercased, as registration stores it.
pub fn login_email(req: &LoginRequest) -> (r: String)
    ensures
        r@ == canonical_email(req.email@),
{
    to_lowercase(trim(req.email.as_str()))
}

/// The outcome of a login: an unknown email is unauthorized, an inactive
/// account forbidden, an unreadable stored hash an internal error, a wrong
/// password unauthorized.
pub open spec fn login_outcome(record: Option<LoginRecord>, password: Seq<u8>) -> Result<
    LoginRecord,
    Status,
> {
    match record {
        None => Err(Status::Unauthorized),
        Some(r) => if r.status@ != "ACTIVE"@ {
            Err(Status::Forbidden)
        } else if !phc_hash_parses(r.password_hash@) {
            Err(Status::InternalServerError)
        } else if !argon2_accepts(password, r.password_hash@) {
            Err(Status::Unauthorized)
        } else {
            Ok(r)
        },
    }
}

/// Decides a login from the account found under its email.
pub fn check_login(record: Option<LoginRecord>, password: &str) -> (r: Result<LoginRecord, Status>)
    ensures
        r == login_outcome(record, vstd::utf8::encode_utf8(password@)),
{
    match record {
        None => Err(Status::Unauthorized),
        Some(rec) => {
            if !str_eq(rec.status.as_str(), "ACTIVE") {
                Err(Status::Forbidden)
            } else if !password_hash_parses(rec.password_hash.as_str()) {
                Err(Status::InternalServerError)
            } else if !argon2_verify(password.as_bytes(), rec.password_hash.as_str()) {
                Err(Status::Unauthorized)
            } else {
                Ok(rec)
            }
        },
    }
}

/// The caller's account must still exist; otherwise the caller is unauthorized.
pub fn require_account(account: Option<MeResponse>) -> (r: Result<MeResponse, Status>)
    ensures
        r is Ok <==> account is Some,
        r matches Ok(a) ==> account == Some(a),
        r matches Err(e) ==> e == Status::Unauthorized,
{
    match account {
        Some(a) => Ok(a),
        None => Err(Status::Unauthorized),
    }
}

/// A user who registered with a password can log in with it while the
/// account is active: the hash stored at registration (which parses and
/// accepts that password) lets the login through.
pub proof fn lemma_registered_password_logs_in(
    password: Seq<u8>,
    record: LoginRecord,
)
    requires
        phc_hash_parses(record.password_hash@),
        argon2_accepts(password, record.password_hash@),
        record.status@ == "ACTIVE"@,
    ensures
        login_outcome(Some(record), password) == Ok::<LoginRecord, Status>(record),
{
}

/// A login is let through only for an active account whose stored hash
/// accepts the password given.
pub proof fn lemma_login_requires_matching_password(
    record: Option<LoginRecord>,
    password: Seq<u8>,
)
    ensures
        login_outcome(record, password) matches Ok(r) ==> {
            &&& record == Some(r)
            &&& r.status@ == "ACTIVE"@
            &&& argon2_accepts(password, r.password_hash@)
        },
{
}

/// What registration and login decide: a registration needs an email with
/// an `@`, a password of at least 8 bytes and a full name that, trimmed, is
/// neither blank nor longer than 160 bytes. A login is answered, in this
/// order: unauthorized for an unknown email, forbidden for an account that
/// is not `ACTIVE`, an internal error for a stored hash that does not parse,
/// unauthorized for a wrong password, and otherwise lets the account in.
pub proof fn lemma_registration_and_login_rules(
    req: RegisterRequest,
    record: Option<LoginRecord>,
    password: Seq<u8>,
)
    ensures
        registration_request_ok(req) <==> (req.email@.contains('@') && utf8_len(req.password@) >= 8
            && trimmed(req.full_name@).len() > 0 && utf8_len(trimmed(req.full_name@)) <= 160),
        record is None ==> login_outcome(record, password) == Err::<LoginRecord, Status>(
            Status::Unauthorized,
        ),
        record matches Some(r) ==> (r.status@ != "ACTIVE"@ ==> login_outcome(record, password)
            == Err::<LoginRecord, Status>(Status::Forbidden)),
        record matches Some(r) ==> (r.status@ == "ACTIVE"@ && !phc_hash_parses(r.password_hash@)
            ==> login_outcome(record, password) == Err::<LoginRecord, Status>(
            Status::InternalServerError,
        )),
        record matches Some(r) ==> (r.status@ == "ACTIVE"@ && phc_hash_parses(r.password_hash@)
            ==> (login_outcome(record, password) == (if argon2_accepts(password, r.password_hash@) {
            Ok::<LoginRecord, Status>(r)
        } else {
            Err::<LoginRecord, Status>(Status::Unauthorized)
        }))),
{
}

} // verus!
