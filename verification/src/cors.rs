//! The origin policy: which callers may read a reply, and the headers that
//! say so.
use vstd::prelude::*;
use crate::http::{empty_reply, HttpResponse, HttpResponseView};

verus! {

/// The text that an optional string holds.
pub open spec fn optional_text(s: Option<String>) -> Option<Seq<char>> {
    match s {
        Some(t) => Some(t@),
        None => None,
    }
}

/// The origin policy, made from a fixed list of allowed origins.
pub struct CorsHeaders {
    allowed_origins: Vec<String>,
}

impl View for CorsHeaders {
    type V = Seq<Seq<char>>;

    closed spec fn view(&self) -> Seq<Seq<char>> {
        self.allowed_origins@.map_values(|s: String| s@)
    }
}

/// Whether the list `allowed` admits `origin`: an empty list admits every
/// caller, also one that declares no origin; any other list admits exactly
/// the origins that it holds, letter for letter.
pub open spec fn origin_allowed(allowed: Seq<Seq<char>>, origin: Option<Seq<char>>) -> bool {
    allowed.len() == 0 || (origin matches Some(o) && allowed.contains(o))
}

/// The reply `response` after the policy has marked it for `origin`: where
/// the origin is declared and admitted, three headers follow the ones it
/// had; otherwise it is as it was.
pub open spec fn decorated(
    allowed: Seq<Seq<char>>,
    response: HttpResponseView,
    origin: Option<Seq<char>>,
) -> HttpResponseView {
    match origin {
        Some(o) if origin_allowed(allowed, origin) => response.with_header(
            "Access-Control-Allow-Origin"@,
            o,
        ).with_header("Access-Control-Allow-Methods"@, "POST, OPTIONS"@).with_header(
            "Access-Control-Allow-Headers"@,
            "Content-Type"@,
        ),
        _ => response,
    }
}

/// The reply to a preflight probe from `origin`.
pub open spec fn preflight_reply(
    allowed: Seq<Seq<char>>,
    origin: Option<Seq<char>>,
) -> HttpResponseView {
    decorated(allowed, empty_reply(), origin).with_header("Access-Control-Max-Age"@, "86400"@)
}

impl CorsHeaders {
    pub fn new(allowed_origins: Vec<String>) -> (r: Self)
        ensures
            r@ == allowed_origins@.map_values(|s: String| s@),
    {
        CorsHeaders { allowed_origins }
    }

    pub fn is_allowed(&self, origin: &Option<String>) -> (r: bool)
        ensures
            r == origin_allowed(self@, optional_text(*origin)),
    {
        if self.allowed_origins.len() == 0 {
            return true;
        }
        if origin.is_none() {
            return false;
        }
        let o: &String = origin.as_ref().unwrap();
        let mut i: usize = 0;
        while i < self.allowed_origins.len()
            invariant
                i <= self.allowed_origins.len(),
                optional_text(*origin) == Some(o@),
                forall|j: int| 0 <= j < i ==> self@[j] != o@,
            decreases self.allowed_origins.len() - i,
        {
            if self.allowed_origins[i] == *o {
                assert(self@[i as int] == o@);
                assert(self@.contains(o@));
                return true;
            }
            i += 1;
        }
        false
    }

    /// Marks `response` for `origin`. A reply for an absent or rejected
    /// origin comes back untouched.
    pub fn decorate(&self, response: HttpResponse, origin: &Option<String>) -> (r: HttpResponse)
        ensures
            r@ == decorated(self@, response@, optional_text(*origin)),
            !(origin is Some && origin_allowed(self@, optional_text(*origin))) ==> r == response,
    {
        if origin.is_some() && self.is_allowed(origin) {
            let origin_value: &String = origin.as_ref().unwrap();
            let mut response = response;
            response.set_header("Access-Control-Allow-Origin", origin_value.as_str());
            response.set_header("Access-Control-Allow-Methods", "POST, OPTIONS");
            response.set_header("Access-Control-Allow-Headers", "Content-Type");
            response
        } else {
            response
        }
    }

    /// Marks `response` for `origin`, as `decorate` does.
    pub fn add_to_response(&self, response: HttpResponse, origin: Option<String>) -> (r:
        HttpResponse)
        ensures
            r@ == decorated(self@, response@, optional_text(origin)),
            !(origin is Some && origin_allowed(self@, optional_text(origin))) ==> r == response,
    {
        self.decorate(response, &origin)
    }

    /// The reply to a preflight probe: empty, marked for `origin`, and
    /// cacheable for one day.
    pub fn preflight_response(&self, origin: Option<String>) -> (r: HttpResponse)
        ensures
            r@ == preflight_reply(self@, optional_text(origin)),
    {
        let response = HttpResponse::empty();
        let mut response = self.add_to_response(response, origin);
        response.set_header("Access-Control-Max-Age", "86400");
        response
    }
}

/// Marking a reply changes neither its status nor its body, and keeps the
/// headers it had in their places.
pub proof fn decoration_keeps_status_and_body(
    allowed: Seq<Seq<char>>,
    response: HttpResponseView,
    origin: Option<Seq<char>>,
)
    ensures
        decorated(allowed, response, origin).status == response.status,
        decorated(allowed, response, origin).body == response.body,
        response.headers.is_prefix_of(decorated(allowed, response, origin).headers),
{
}

/// A reply marked for an absent or rejected origin has the headers it had
/// before, and no others.
pub proof fn rejected_origin_adds_no_header(
    allowed: Seq<Seq<char>>,
    response: HttpResponseView,
    origin: Option<Seq<char>>,
)
    requires
        origin is None || !origin_allowed(allowed, origin),
    ensures
        decorated(allowed, response, origin) == response,
{
}

/// The reply to a preflight probe from a declared origin that the policy
/// admits is empty and has exactly four headers: the origin echoed, the
/// methods, the request header, and the caching time of one day.
pub proof fn preflight_for_admitted_origin(allowed: Seq<Seq<char>>, origin: Seq<char>)
    requires
        origin_allowed(allowed, Some(origin)),
    ensures
        preflight_reply(allowed, Some(origin)) == (HttpResponseView {
            status: 200,
            headers: seq![
                ("Access-Control-Allow-Origin"@, origin),
                ("Access-Control-Allow-Methods"@, "POST, OPTIONS"@),
                ("Access-Control-Allow-Headers"@, "Content-Type"@),
                ("Access-Control-Max-Age"@, "86400"@),
            ],
            body: None,
        }),
{
    assert(preflight_reply(allowed, Some(origin)).headers =~= seq![
        ("Access-Control-Allow-Origin"@, origin),
        ("Access-Control-Allow-Methods"@, "POST, OPTIONS"@),
        ("Access-Control-Allow-Headers"@, "Content-Type"@),
        ("Access-Control-Max-Age"@, "86400"@),
    ]);
}

/// The reply to a preflight probe from an absent or rejected origin is
/// empty and carries the caching time alone: none of the three headers
/// that admit an origin.
pub proof fn preflight_for_rejected_origin(allowed: Seq<Seq<char>>, origin: Option<Seq<char>>)
    requires
        origin is None || !origin_allowed(allowed, origin),
    ensures
        preflight_reply(allowed, origin) == (HttpResponseView {
            status: 200,
            headers: seq![("Access-Control-Max-Age"@, "86400"@)],
            body: None,
        }),
{
    assert(preflight_reply(allowed, origin).headers =~= seq![
        ("Access-Control-Max-Age"@, "86400"@),
    ]);
}

} // verus!
