//! Bearer-token authentication: the claims a token carries, how the token is
//! taken from the `Authorization` header, and how the account behind it is
//! admitted.
use crate::status::Status;
use crate::text::{has_prefix, is_white_space, is_white_space_char, chars_of, str_eq, strip_prefix};
use vstd::prelude::*;

verus! {

/// The issuer that tokens of this service carry (`iss`).
pub const JWT_ISSUER: &'static str = "olympus-core";

/// The audience that tokens of this service carry (`aud`).
pub const JWT_AUDIENCE: &'static str = "olympus-api";

/// The claims of an access token. `sub` is the user's id (a UUID as an
/// integer); `exp` is the expiry, in seconds since the Unix epoch.
#[derive(Debug, Clone)]
pub struct Claims {
    pub sub: u128,
    pub email: String,
    pub role: String,
    pub exp: u64,
    pub iss: String,
    pub aud: String,
}

/// What the `users` table holds for the subject of a token: email, role and
/// account status.
#[derive(Debug, Clone)]
pub struct AccountRecord {
    pub email: String,
    pub role: String,
    pub status: String,
}

/// A token as it may stand after `Bearer `: not empty and free of white space.
pub open spec fn token_shape_ok(token: Seq<char>) -> bool {
    token.len() > 0 && forall|i: int| 0 <= i < token.len() ==> !is_white_space(#[trigger] token[i])
}

/// The header value is `Bearer ` followed by a well-shaped token.
pub open spec fn bearer_ok(header: Seq<char>) -> bool {
    has_prefix(header, "Bearer "@) && token_shape_ok(header.skip("Bearer "@.len() as int))
}

/// Whether `s` holds no white space at all.
fn free_of_white_space(s: &str) -> (r: bool)
    ensures
        r == forall|i: int| 0 <= i < s@.len() ==> !is_white_space(#[trigger] s@[i]),
{
    let v = chars_of(s);
    let n = v.len();
    let mut i: usize = 0;
    while i < n
        invariant
            v@ == s@,
            n == v@.len(),
            i <= n,
            forall|j: int| 0 <= j < i ==> !is_white_space(#[trigger] s@[j]),
        decreases n - i,
    {
        if is_white_space_char(v[i]) {
            return false;
        }
        i = i + 1;
    }
    true
}

/// The token of an `Authorization` header of the form `Bearer <token>`; a
/// missing header, another scheme, an empty token or one holding white space
/// is refused as unauthorized.
pub fn extract_bearer(header: Option<&str>) -> (r: Result<&str, Status>)
    ensures
        r is Ok <==> (header matches Some(h) && bearer_ok(h@)),
        r matches Ok(t) ==> (header matches Some(h) && t@ == h@.skip("Bearer "@.len() as int)),
        r matches Err(e) ==> e == Status::Unauthorized,
{
    match header {
        None => Err(Status::Unauthorized),
        Some(h) => match strip_prefix(h, "Bearer ") {
            None => Err(Status::Unauthorized),
            Some(token) => {
                if token.unicode_len() > 0 && free_of_white_space(token) {
                    Ok(token)
                } else {
                    Err(Status::Unauthorized)
                }
            },
        },
    }
}

/// The outcome of checking the account behind a decoded token.
pub open spec fn admission(claims: Claims, lookup: Result<Option<AccountRecord>, ()>) -> Result<
    Claims,
    Status,
> {
    match lookup {
        Err(_) => Err(Status::InternalServerError),
        Ok(None) => Err(Status::Unauthorized),
        Ok(Some(account)) => if account.status@ == "ACTIVE"@ {
            Ok(Claims { email: account.email, role: account.role, ..claims })
        } else {
            Err(Status::Forbidden)
        },
    }
}

/// Admits the bearer of a valid token when its account still exists and is
/// active, with the email and role that the account holds now (not those
/// written in the token). A failed lookup is an internal error, a missing
/// account is unauthorized, an inactive one forbidden.
pub fn admit_account(claims: Claims, lookup: Result<Option<AccountRecord>, ()>) -> (r: Result<
    Claims,
    Status,
>)
    ensures
        r == admission(claims, lookup),
{
    match lookup {
        Err(_) => Err(Status::InternalServerError),
        Ok(None) => Err(Status::Unauthorized),
        Ok(Some(account)) => {
            if str_eq(account.status.as_str(), "ACTIVE") {
                Ok(Claims { email: account.email, role: account.role, ..claims })
            } else {
                Err(Status::Forbidden)
            }
        },
    }
}

/// An admitted request carries the subject, expiry, issuer and audience of
/// its token, and the email and role of an active account.
pub proof fn lemma_admission_keeps_identity(claims: Claims, lookup: Result<Option<AccountRecord>, ()>)
    ensures
        admission(claims, lookup) matches Ok(c) ==> {
            &&& c.sub == claims.sub
            &&& c.exp == claims.exp
            &&& c.iss == claims.iss
            &&& c.aud == claims.aud
            &&& lookup matches Ok(Some(a)) && a.status@ == "ACTIVE"@ && c.email == a.email
                && c.role == a.role
        },
{
}

/// What the bearer check and the account check decide: a header is accepted
/// exactly when it starts with `Bearer ` and what follows is non-empty and
/// holds no white space. A decoded token's account is let in only when it is
/// `ACTIVE`, then with the account's current email and role; a missing
/// account is unauthorized, an inactive one forbidden, a failed lookup an
/// internal error.
pub proof fn lemma_authentication_rules(
    header: Seq<char>,
    claims: Claims,
    lookup: Result<Option<AccountRecord>, ()>,
)
    ensures
        bearer_ok(header) <==> (header.len() >= 7 && header.take(7) == "Bearer "@ && header.len()
            > 7 && forall|i: int| 7 <= i < header.len() ==> !is_white_space(#[trigger] header[i])),
        lookup is Err ==> admission(claims, lookup) == Err::<Claims, Status>(
            Status::InternalServerError,
        ),
        lookup == Ok::<Option<AccountRecord>, ()>(None) ==> admission(claims, lookup) == Err::<
            Claims,
            Status,
        >(Status::Unauthorized),
        lookup matches Ok(Some(a)) ==> (a.status@ == "ACTIVE"@ ==> admission(claims, lookup)
            == Ok::<Claims, Status>(Claims { email: a.email, role: a.role, ..claims })) && (
        a.status@ != "ACTIVE"@ ==> admission(claims, lookup) == Err::<Claims, Status>(
            Status::Forbidden,
        )),
{
    reveal_strlit("Bearer ");
    let rest = header.skip(7);
    if has_prefix(header, "Bearer "@) && header.len() > 7 {
        assert forall|i: int| 7 <= i < header.len() implies (!is_white_space(#[trigger] header[i])
            <==> !is_white_space(rest[i - 7])) by {
            assert(rest[i - 7] == header[i]);
        }
        if forall|i: int| 7 <= i < header.len() ==> !is_white_space(#[trigger] header[i]) {
            assert forall|j: int| 0 <= j < rest.len() implies !is_white_space(#[trigger] rest[j]) by {
                assert(rest[j] == header[j + 7]);
            }
        }
    }
}

} // verus!
