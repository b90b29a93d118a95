//! The HTTP surface: which resource each variant of the service registers,
//! and what a request for a given path receives.
use vstd::prelude::*;

verus! {

/// The two variants of the service, each registering a single resource.
#[derive(Debug, Clone, Copy, PartialEq, Eq, Structural)]
pub enum Service {
    /// Answers `/ping`; runs with the profiler and reads its settings from
    /// the environment.
    Ping,
    /// Answers `/users/{id}` for any single path segment as `id`.
    Users,
}

impl Service {
    pub open spec fn spec_pattern(self) -> Seq<char> {
        match self {
            Service::Ping => "/ping"@,
            Service::Users => "/users/{id}"@,
        }
    }

    /// The resource pattern that the variant registers.
    pub fn pattern(&self) -> (r: &'static str)
        ensures
            r@ == self.spec_pattern(),
    {
        match self {
            Service::Ping => "/ping",
            Service::Users => "/users/{id}",
        }
    }
}

/// The text of every successful response.
pub open spec fn hello() -> Seq<char> {
    "Hello world!"@
}

/// A non-empty path segment: no `/` inside.
pub open spec fn is_segment(s: Seq<char>) -> bool {
    s.len() > 0 && forall|i: int| 0 <= i < s.len() ==> s[i] != '/'
}

/// Whether `path` is matched by the resource `pattern`: a pattern without
/// dynamic segments matches only itself, `/users/{id}` matches `/users/`
/// followed by one non-empty segment.
pub open spec fn spec_resource_matches(pattern: Seq<char>, path: Seq<char>) -> bool {
    if pattern == "/users/{id}"@ {
        let prefix = "/users/"@;
        &&& path.len() > prefix.len()
        &&& path.subrange(0, prefix.len() as int) == prefix
        &&& is_segment(path.subrange(prefix.len() as int, path.len() as int))
    } else {
        path == pattern
    }
}

/// Status and body of the response that `service` gives for `path`.
pub open spec fn spec_reply(service: Service, path: Seq<char>) -> (u16, Seq<char>) {
    if spec_resource_matches(service.spec_pattern(), path) {
        (200u16, hello())
    } else {
        (404u16, Seq::empty())
    }
}

/// Relies on actix_router's `ResourceDef::new` and `ResourceDef::is_match`
/// (re-exported by actix_web::dev): a pattern without `{` and not ending in
/// `*` is static and matches by equality; `/users/{id}` compiles to the
/// anchored expression `^/users/([^/]+)$`. Neither pattern makes `new` panic.
#[verifier::external_body]
fn resource_matches(pattern: &str, path: &str) -> (r: bool)
    requires
        pattern@ == "/ping"@ || pattern@ == "/users/{id}"@,
    ensures
        r == spec_resource_matches(pattern@, path@),
{
    actix_web::dev::ResourceDef::new(pattern).is_match(path)
}

/// A response: status code and body.
#[derive(Debug, Clone, Copy)]
pub struct Reply {
    pub status: u16,
    pub body: &'static str,
}

/// Handler of `/ping`.
pub fn ping() -> (r: &'static str)
    ensures
        r@ == hello(),
{
    "Hello world!"
}

/// Handler of `/users/{id}`: the answer does not depend on `id`.
pub fn index(_id: &str) -> (r: &'static str)
    ensures
        r@ == hello(),
{
    "Hello world!"
}

/// The response that `service` gives to a request for `path`, whatever its
/// method: the handler's text when the registered resource matches, an empty
/// `404` otherwise.
pub fn respond(service: Service, path: &str) -> (r: Reply)
    ensures
        (r.status, r.body@) == spec_reply(service, path@),
{
    if resource_matches(service.pattern(), path) {
        let body = match service {
            Service::Ping => ping(),
            Service::Users => index(path),
        };
        Reply { status: 200, body }
    } else {
        proof {
            reveal_strlit("");
        }
        Reply { status: 404, body: "" }
    }
}

/// `/ping` on the first variant answers `200` with the greeting.
pub proof fn lemma_ping_answers()
    ensures
        spec_reply(Service::Ping, "/ping"@) == (200u16, hello()),
{
    reveal_strlit("/ping");
    reveal_strlit("/users/{id}");
}

/// `/users/{id}` answers `200` with the greeting for every value of `id`.
pub proof fn lemma_users_answer_any_id(id: Seq<char>)
    requires
        is_segment(id),
    ensures
        spec_reply(Service::Users, "/users/"@ + id) == (200u16, hello()),
{
    reveal_strlit("/users/");
    reveal_strlit("/users/{id}");
    let path = "/users/"@ + id;
    assert(path.subrange(0, 7) =~= "/users/"@);
    assert(path.subrange(7, path.len() as int) =~= id);
}

/// A path that the registered resource does not match answers `404`.
pub proof fn lemma_unmatched_not_found(service: Service, path: Seq<char>)
    requires
        !spec_resource_matches(service.spec_pattern(), path),
    ensures
        spec_reply(service, path).0 == 404,
{
}

} // verus!
