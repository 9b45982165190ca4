//! Product recommendations from the AI service.
use crate::status::Status;
use uuid::Uuid;
use vstd::prelude::*;

verus! {

/// The number of recommendations asked of the AI service: 5 by default,
/// clamped to 1..=20.
pub open spec fn recommendation_limit(limit: Option<u8>) -> u8 {
    let l = match limit {
        Some(l) => l,
        None => 5u8,
    };
    if l < 1 {
        1u8
    } else if l > 20 {
        20u8
    } else {
        l
    }
}

/// Checks a recommendation request for `product_count` products: it must
/// name between 1 and 100 of them (else a bad request). Gives the number of
/// recommendations to ask for.
pub fn validate_recommendation_request(product_count: usize, limit: Option<u8>) -> (r: Result<
    u8,
    Status,
>)
    ensures
        r is Ok <==> 1 <= product_count <= 100,
        r matches Ok(l) ==> l == recommendation_limit(limit),
        r matches Err(e) ==> e == Status::BadRequest,
{
    if product_count == 0 || product_count > 100 {
        return Err(Status::BadRequest);
    }
    let l: u8 = match limit {
        Some(l) => l,
        None => 5,
    };
    if l < 1 {
        Ok(1)
    } else if l > 20 {
        Ok(20)
    } else {
        Ok(l)
    }
}

/// What `Uuid::parse_str` gives for `s`, as the UUID's 128-bit value.
pub uninterp spec fn uuid_parse(s: Seq<char>) -> Option<u128>;

/// Calls `uuid::Uuid::parse_str`; its result is named by `uuid_parse`.
#[verifier::external_body]
fn parse_uuid(s: &str) -> (r: Option<u128>)
    ensures
        r == uuid_parse(s@),
{
    Uuid::parse_str(s).ok().map(|u| u.as_u128())
}

/// Among the first `n` recommended ids, those that are UUIDs, in order, with
/// their positions.
pub open spec fn recognized_upto(ids: Seq<String>, n: int) -> Seq<(usize, u128)>
    decreases n,
{
    if n <= 0 {
        Seq::empty()
    } else {
        let prev = recognized_upto(ids, n - 1);
        match uuid_parse(ids[n - 1]@) {
            Some(u) => prev.push(((n - 1) as usize, u)),
            None => prev,
        }
    }
}

/// The recommendations the service passes on: those whose product id is a
/// UUID, in the AI service's order, each with its position in the AI
/// service's answer and the parsed id.
pub fn recognized_recommendations(ids: &Vec<String>) -> (r: Vec<(usize, u128)>)
    ensures
        r@ == recognized_upto(ids@, ids@.len() as int),
{
    let n = ids.len();
    let mut out: Vec<(usize, u128)> = Vec::new();
    let mut i: usize = 0;
    while i < n
        invariant
            n == ids@.len(),
            i <= n,
            out@ == recognized_upto(ids@, i as int),
        decreases n - i,
    {
        match parse_uuid(ids[i].as_str()) {
            Some(u) => out.push((i, u)),
            None => {},
        }
        i = i + 1;
    }
    out
}

/// How many recommendations are asked for: 5 by default, a requested number
/// kept when it is between 1 and 20, raised to 1 or lowered to 20 otherwise.
pub proof fn lemma_recommendation_limit(limit: Option<u8>)
    ensures
        limit is None ==> recommendation_limit(limit) == 5,
        limit matches Some(l) ==> (1 <= l <= 20 ==> recommendation_limit(limit) == l) && (l < 1
            ==> recommendation_limit(limit) == 1) && (l > 20 ==> recommendation_limit(limit) == 20),
        1 <= recommendation_limit(limit) <= 20,
{
}

} // verus!
