//! The addresses by which the services reach one another, and the routes the
//! brain answers on.
use vstd::prelude::*;

verus! {

/// `s` without the slashes that end it.
pub open spec fn strip_trailing_slashes(s: Seq<char>) -> Seq<char>
    decreases s.len(),
{
    if s.len() > 0 && s.last() == '/' {
        strip_trailing_slashes(s.drop_last())
    } else {
        s
    }
}

/// `base` without its trailing slashes, then `route`.
pub fn endpoint_url(base: &str, route: &str) -> (r: String)
    ensures
        r@ == strip_trailing_slashes(base@) + route@,
{
    let mut end = base.unicode_len();
    assert(base@.subrange(0, end as int) =~= base@);
    while end > 0 && base.get_char(end - 1) == '/'
        invariant
            end <= base@.len(),
            strip_trailing_slashes(base@) == strip_trailing_slashes(base@.subrange(0, end as int)),
        decreases end,
    {
        assert(base@.subrange(0, end as int).drop_last() =~= base@.subrange(0, end - 1));
        end = end - 1;
    }
    let kept = base.substring_char(0, end);
    assert(strip_trailing_slashes(kept@) == kept@);
    let mut out = String::from_str(kept);
    out.append(route);
    out
}

/// The brain's decision endpoint under `base`.
pub fn decide_url(base: &str) -> (r: String)
    ensures
        r@ == strip_trailing_slashes(base@) + "/v1/decide"@,
{
    endpoint_url(base, "/v1/decide")
}

/// The core's transcript endpoint under `base`.
pub fn transcript_url(base: &str) -> (r: String)
    ensures
        r@ == strip_trailing_slashes(base@) + "/v1/transcript"@,
{
    endpoint_url(base, "/v1/transcript")
}

/// What the brain's HTTP service answers a request with.
#[derive(PartialEq, Eq, Structural, Clone, Copy, Debug)]
pub enum BrainRoute {
    Health,
    Decide,
    NotFound,
}

pub open spec fn route_spec(method: Seq<char>, path: Seq<char>) -> BrainRoute {
    if method == "GET"@ && path == "/health"@ {
        BrainRoute::Health
    } else if method == "POST"@ && path == "/v1/decide"@ {
        BrainRoute::Decide
    } else {
        BrainRoute::NotFound
    }
}

/// The route for an HTTP method name and a request path.
pub fn route_request(method: &str, path: &str) -> (r: BrainRoute)
    ensures
        r == route_spec(method@, path@),
{
    if crate::text::same_text(method, "GET") && crate::text::same_text(path, "/health") {
        BrainRoute::Health
    } else if crate::text::same_text(method, "POST") && crate::text::same_text(path, "/v1/decide") {
        BrainRoute::Decide
    } else {
        BrainRoute::NotFound
    }
}

} // verus!
