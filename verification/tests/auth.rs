use olympus_core::auth::{admit_account, extract_bearer, AccountRecord, Claims, JWT_AUDIENCE, JWT_ISSUER};
use olympus_core::auth_api::{
    check_email_available, check_login, new_credential, issue_claims, login_email,
    registration_role, registration_status, require_account, token_response, validate_registration_request,
    LoginRecord, LoginRequest, RegisterRequest,
};
use olympus_core::status::Status;

fn claims() -> Claims {
    Claims {
        sub: 11,
        email: "old@example.com".into(),
        role: "BUYER".into(),
        exp: 100,
        iss: JWT_ISSUER.into(),
        aud: JWT_AUDIENCE.into(),
    }
}

#[test]
fn bearer_tokens_are_extracted_strictly() {
    assert_eq!(extract_bearer(Some("Bearer abc.def.ghi")), Ok("abc.def.ghi"));
    assert_eq!(extract_bearer(None), Err(Status::Unauthorized));
    assert_eq!(extract_bearer(Some("Bearer ")), Err(Status::Unauthorized));
    assert_eq!(extract_bearer(Some("bearer abc")), Err(Status::Unauthorized));
    assert_eq!(extract_bearer(Some("Bearer a b")), Err(Status::Unauthorized));
    assert_eq!(extract_bearer(Some("Bearer  abc")), Err(Status::Unauthorized));
    assert_eq!(extract_bearer(Some("Basic abc")), Err(Status::Unauthorized));
}

#[test]
fn only_active_accounts_are_admitted_with_their_current_role() {
    let active = AccountRecord { email: "new@example.com".into(), role: "SELLER".into(), status: "ACTIVE".into() };
    let admitted = admit_account(claims(), Ok(Some(active))).unwrap();
    assert_eq!(admitted.sub, 11);
    assert_eq!(admitted.email, "new@example.com");
    assert_eq!(admitted.role, "SELLER");
    assert_eq!(admitted.exp, 100);
    let banned = AccountRecord { email: "x@example.com".into(), role: "BUYER".into(), status: "BANNED".into() };
    assert_eq!(admit_account(claims(), Ok(Some(banned))).err(), Some(Status::Forbidden));
    assert_eq!(admit_account(claims(), Ok(None)).err(), Some(Status::Unauthorized));
    assert_eq!(admit_account(claims(), Err(())).err(), Some(Status::InternalServerError));
}

#[test]
fn registration_requests_are_checked_and_normalized() {
    let req = |email: &str, password: &str, name: &str| RegisterRequest {
        email: email.into(),
        password: password.into(),
        full_name: name.into(),
    };
    let reg = validate_registration_request(&req(" Alice@Example.COM ", "password1", "  Alice ")).unwrap();
    assert_eq!(reg.email, "alice@example.com");
    assert_eq!(reg.full_name, "Alice");
    assert_eq!(validate_registration_request(&req("alice", "password1", "Alice")).err(), Some(Status::BadRequest));
    assert_eq!(validate_registration_request(&req("a@b.c", "short", "Alice")).err(), Some(Status::BadRequest));
    assert_eq!(validate_registration_request(&req("a@b.c", "password1", " ")).err(), Some(Status::BadRequest));
    assert_eq!(validate_registration_request(&req("a@b.c", "password1", &"n".repeat(161))).err(), Some(Status::BadRequest));
    assert_eq!(check_email_available(true), Err(Status::Conflict));
    assert_eq!(registration_role(), "BUYER");
    assert_eq!(registration_status(), "ACTIVE");
}

#[test]
fn a_registered_password_logs_in_and_a_wrong_one_does_not() {
    let hash = new_credential("correct horse").unwrap();
    assert_ne!(hash, "correct horse");
    let record = |status: &str| LoginRecord {
        id: 3,
        password_hash: hash.clone(),
        role: "BUYER".into(),
        status: status.into(),
    };
    assert_eq!(check_login(Some(record("ACTIVE")), "correct horse").unwrap().id, 3);
    assert_eq!(check_login(Some(record("ACTIVE")), "wrong horse").err(), Some(Status::Unauthorized));
    assert_eq!(check_login(Some(record("SUSPENDED")), "correct horse").err(), Some(Status::Forbidden));
    assert_eq!(check_login(None, "correct horse").err(), Some(Status::Unauthorized));
    let broken = LoginRecord { id: 3, password_hash: "not-a-hash".into(), role: "BUYER".into(), status: "ACTIVE".into() };
    assert_eq!(check_login(Some(broken), "correct horse").err(), Some(Status::InternalServerError));
}

#[test]
fn issued_tokens_last_an_hour_and_name_this_service() {
    let c = issue_claims(5, "a@b.c".into(), "BUYER".into(), 1_700_000_000);
    assert_eq!(c.sub, 5);
    assert_eq!(c.exp, 1_700_003_600);
    assert_eq!(c.iss, "olympus-core");
    assert_eq!(c.aud, "olympus-api");
    let t = token_response("tok".into());
    assert_eq!(t.token_type, "Bearer");
    assert_eq!(t.access_token, "tok");
    assert_eq!(login_email(&LoginRequest { email: " A@B.C ".into(), password: "x".into() }), "a@b.c");
    assert!(require_account(None).is_err());
}
