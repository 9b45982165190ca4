//! The client of the AI recommendation service: its endpoint URLs.
use crate::text::chars_of;
use vstd::prelude::*;

verus! {

/// `s` without its trailing `/` characters.
pub open spec fn without_trailing_slashes(s: Seq<char>) -> Seq<char>
    decreases s.len(),
{
    if s.len() > 0 && s.last() == '/' {
        without_trailing_slashes(s.drop_last())
    } else {
        s
    }
}

proof fn lemma_trailing_slashes_take(s: Seq<char>, k: int)
    requires
        0 <= k <= s.len(),
        forall|j: int| k <= j < s.len() ==> #[trigger] s[j] == '/',
    ensures
        without_trailing_slashes(s) == without_trailing_slashes(s.take(k)),
    decreases s.len() - k,
{
    if k < s.len() {
        assert(s.take(s.len() - 1) == s.drop_last());
        lemma_trailing_slashes_take(s.drop_last(), k);
        assert(s.drop_last().take(k) == s.take(k));
    } else {
        assert(s.take(k) == s);
    }
}

/// The base URL of the AI service without trailing slashes
/// (`trim_end_matches('/')`).
pub fn normalize_base_url(base_url: &str) -> (r: String)
    ensures
        r@ == without_trailing_slashes(base_url@),
{
    let v = chars_of(base_url);
    let mut k: usize = v.len();
    while k > 0 && v[k - 1] == '/'
        invariant
            v@ == base_url@,
            k <= v@.len(),
            forall|j: int| k <= j < v@.len() ==> #[trigger] v@[j] == '/',
        decreases k,
    {
        k = k - 1;
    }
    proof {
        lemma_trailing_slashes_take(base_url@, k as int);
        if k > 0 {
            assert(base_url@.take(k as int).last() == base_url@[k - 1]);
        }
    }
    base_url.substring_char(0, k).to_owned()
}

/// The recommendation endpoint under a (normalized) base URL.
pub fn recommendations_url(base_url: &str) -> (r: String)
    ensures
        r@ == base_url@ + "/v1/recommendations"@,
{
    let mut url = base_url.to_owned();
    url.append("/v1/recommendations");
    url
}

} // verus!
