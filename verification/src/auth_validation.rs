//! Validation of the fields of registration and login requests.
use crate::text::{
    chars_of, contains_char, find_char, is_first_index, lowercase, to_lowercase, trim, trimmed, utf8_len,
    utf8_len_at_most,
};
use vstd::prelude::*;

verus! {

/// The local part of an address (before the first `@`) is acceptable.
pub open spec fn local_part_ok(local: Seq<char>) -> bool {
    local.len() > 0 && utf8_len(local) <= 64
}

/// The domain of an address (after the first `@`) is acceptable.
pub open spec fn domain_ok(domain: Seq<char>) -> bool {
    domain.len() > 0 && utf8_len(domain) <= 253 && domain.contains('.')
}

/// An already trimmed and lowercased address is acceptable: at most 254 bytes,
/// and split at its first `@` into an acceptable local part and domain.
pub open spec fn email_shape_ok(e: Seq<char>) -> bool {
    &&& utf8_len(e) <= 254
    &&& exists|i: int|
        #![trigger is_first_index(e, '@', i)]
        is_first_index(e, '@', i) && local_part_ok(e.take(i)) && domain_ok(e.skip(i + 1))
}

/// The canonical form of an address: trimmed, then lowercased.
pub open spec fn canonical_email(email: Seq<char>) -> Seq<char> {
    lowercase(trimmed(email))
}

/// The canonical form of `email` when it is an acceptable address, `None` otherwise.
pub fn normalize_email(email: &str) -> (r: Option<String>)
    ensures
        r is Some <==> email_shape_ok(canonical_email(email@)),
        r matches Some(n) ==> n@ == canonical_email(email@),
{
    let e = to_lowercase(trim(email));
    let ghost es = e@;
    if !utf8_len_at_most(e.as_str(), 254) {
        return None;
    }
    let v = chars_of(e.as_str());
    let at = find_char(&v, '@');
    match at {
        None => {
            assert forall|i: int| !#[trigger] is_first_index(es, '@', i) by {
                if is_first_index(es, '@', i) {
                    assert(es.contains('@'));
                }
            }
            None
        },
        Some(i) => {
            let n = v.len();
            let local = e.as_str().substring_char(0, i);
            let domain = e.as_str().substring_char(i + 1, n);
            assert(local@ == es.take(i as int));
            assert(domain@ == es.skip(i + 1));
            let ok = local.unicode_len() > 0 && utf8_len_at_most(local, 64) && domain.unicode_len()
                > 0 && utf8_len_at_most(domain, 253) && contains_char(domain, '.');
            assert forall|j: int| #[trigger] is_first_index(es, '@', j) implies j == i by {
                if j < i {
                    assert(v@[j] != '@');
                } else if j > i {
                    assert(es[i as int] == '@');
                }
            }
            if ok {
                Some(e)
            } else {
                None
            }
        },
    }
}

/// Registration fields are acceptable: a password of 8 to 128 bytes and a
/// full name that is not blank and at most 160 bytes once trimmed.
pub open spec fn registration_ok(password: Seq<char>, full_name: Seq<char>) -> bool {
    &&& 8 <= utf8_len(password) <= 128
    &&& trimmed(full_name).len() > 0
    &&& utf8_len(trimmed(full_name)) <= 160
}

/// Whether the password and full name of a registration are acceptable.
pub fn valid_registration(password: &str, full_name: &str) -> (r: bool)
    ensures
        r == registration_ok(password@, full_name@),
{
    let name = trim(full_name);
    !utf8_len_at_most(password, 7) && utf8_len_at_most(password, 128) && name.unicode_len() > 0
        && utf8_len_at_most(name, 160)
}

/// A login password is acceptable: not empty and at most 128 bytes.
pub open spec fn login_password_ok(password: Seq<char>) -> bool {
    password.len() > 0 && utf8_len(password) <= 128
}

/// Whether a login password is acceptable.
pub fn valid_login_password(password: &str) -> (r: bool)
    ensures
        r == login_password_ok(password@),
{
    password.unicode_len() > 0 && utf8_len_at_most(password, 128)
}

/// What the validators accept: an address (trimmed and lowercased) of at
/// most 254 bytes whose first `@` splits it into a non-empty local part of at
/// most 64 bytes and a non-empty domain of at most 253 bytes holding a dot;
/// a registration password of 8 to 128 bytes with a full name that, trimmed,
/// is neither blank nor longer than 160 bytes; a login password of 1 to 128
/// bytes.
pub proof fn lemma_validation_rules(e: Seq<char>, password: Seq<char>, full_name: Seq<char>)
    ensures
        email_shape_ok(e) <==> (utf8_len(e) <= 254 && exists|i: int|
            #![trigger is_first_index(e, '@', i)]
            is_first_index(e, '@', i) && i > 0 && utf8_len(e.take(i)) <= 64 && e.skip(i + 1).len()
                > 0 && utf8_len(e.skip(i + 1)) <= 253 && e.skip(i + 1).contains('.')),
        registration_ok(password, full_name) <==> (8 <= utf8_len(password) && utf8_len(password)
            <= 128 && trimmed(full_name).len() > 0 && utf8_len(trimmed(full_name)) <= 160),
        login_password_ok(password) <==> (password.len() > 0 && utf8_len(password) <= 128),
{
    assert forall|i: int| #[trigger] is_first_index(e, '@', i) implies (local_part_ok(e.take(i))
        <==> (i > 0 && utf8_len(e.take(i)) <= 64)) by {
        assert(e.take(i).len() == i);
    }
}

} // verus!
