//! The HTTP surface: paths, cross-origin policy and the health check.

use vstd::prelude::*;

use crate::reply::{plain_reply, reply_content_is_in_its_fields, Reply, ReplyView};
use crate::text::{texts, texts_are_those_of_the_strings};

verus! {

/// What answers a path.
#[derive(Clone, Copy, Debug, PartialEq, Eq, Structural)]
pub enum Endpoint {
    Healthz,
    Mcp,
    Download,
}

/// The methods that a path answers to.
#[derive(Clone, Copy, Debug, PartialEq, Eq, Structural)]
pub enum Methods {
    Get,
    Any,
}

/// One path of the server. A segment in braces stands for any one segment.
pub struct Route {
    pub path: String,
    pub methods: Methods,
    pub endpoint: Endpoint,
}

/// The content of a list of routes.
pub open spec fn route_views(routes: Seq<Route>) -> Seq<(Seq<char>, Methods, Endpoint)> {
    routes.map_values(|r: Route| (r.path@, r.methods, r.endpoint))
}

/// The paths of the server. There are no others.
pub open spec fn served_routes() -> Seq<(Seq<char>, Methods, Endpoint)> {
    seq![
        ("/healthz"@, Methods::Get, Endpoint::Healthz),
        ("/mcp"@, Methods::Any, Endpoint::Mcp),
        ("/mcp/{path}"@, Methods::Any, Endpoint::Mcp),
        ("/download/{token}"@, Methods::Get, Endpoint::Download),
    ]
}

/// One route.
fn route(path: &str, methods: Methods, endpoint: Endpoint) -> (route: Route)
    ensures
        route.path@ == path@,
        route.methods == methods,
        route.endpoint == endpoint,
{
    Route { path: path.to_owned(), methods, endpoint }
}

/// The paths of the server.
pub fn routes() -> (routes: Vec<Route>)
    ensures
        route_views(routes@) == served_routes(),
{
    let mut routes: Vec<Route> = Vec::new();
    routes.push(route("/healthz", Methods::Get, Endpoint::Healthz));
    routes.push(route("/mcp", Methods::Any, Endpoint::Mcp));
    routes.push(route("/mcp/{path}", Methods::Any, Endpoint::Mcp));
    routes.push(route("/download/{token}", Methods::Get, Endpoint::Download));
    assert(route_views(routes@) =~= served_routes());
    routes
}

/// What cross-origin requests are told.
pub struct CorsPolicy {
    /// Value of `Access-Control-Allow-Origin`.
    pub allow_origin: String,
    /// Whether `Access-Control-Allow-Credentials` is sent.
    pub allow_credentials: bool,
    /// The methods that may be used.
    pub methods: Vec<String>,
    /// The request headers that may be set.
    pub headers: Vec<String>,
}

/// The content of a [`CorsPolicy`].
#[verifier::ext_equal]
pub struct CorsPolicyView {
    pub allow_origin: Seq<char>,
    pub allow_credentials: bool,
    pub methods: Seq<Seq<char>>,
    pub headers: Seq<Seq<char>>,
}

impl View for CorsPolicy {
    type V = CorsPolicyView;

    open spec fn view(&self) -> CorsPolicyView {
        CorsPolicyView {
            allow_origin: self.allow_origin@,
            allow_credentials: self.allow_credentials,
            methods: texts(self.methods@),
            headers: texts(self.headers@),
        }
    }
}

/// Any origin, no credentials, and only the methods and headers that MCP needs.
pub open spec fn cross_origin_policy() -> CorsPolicyView {
    CorsPolicyView {
        allow_origin: "*"@,
        allow_credentials: false,
        methods: seq!["GET"@, "POST"@, "DELETE"@, "OPTIONS"@],
        headers: seq!["authorization"@, "content-type"@, "accept"@],
    }
}

/// What cross-origin requests are told.
pub fn cors_policy() -> (policy: CorsPolicy)
    ensures
        policy@ == cross_origin_policy(),
{
    let mut methods: Vec<String> = Vec::new();
    methods.push("GET".to_owned());
    methods.push("POST".to_owned());
    methods.push("DELETE".to_owned());
    methods.push("OPTIONS".to_owned());
    assert(texts(methods@) =~= cross_origin_policy().methods);
    let mut headers: Vec<String> = Vec::new();
    headers.push("authorization".to_owned());
    headers.push("content-type".to_owned());
    headers.push("accept".to_owned());
    assert(texts(headers@) =~= cross_origin_policy().headers);
    CorsPolicy { allow_origin: "*".to_owned(), allow_credentials: false, methods, headers }
}

/// The answer of the health check.
pub open spec fn health_reply() -> ReplyView {
    ReplyView {
        headers: seq![("content-type"@, "application/json"@)],
        ..plain_reply(200, "{\"status\":\"ok\"}"@)
    }
}

/// Answers the health check.
pub fn healthz() -> (reply: Reply)
    ensures
        reply@ == health_reply(),
{
    let reply = Reply::plain(200, "{\"status\":\"ok\"}").with_header(
        "content-type",
        "application/json",
    );
    assert(reply@.headers =~= health_reply().headers);
    reply
}

/// There is no login path and no management path.
pub proof fn no_login_or_management_path(i: int)
    requires
        0 <= i < served_routes().len(),
    ensures
        !("/auth"@.is_prefix_of(served_routes()[i].0)),
        !("/manage"@.is_prefix_of(served_routes()[i].0)),
        !("/register"@.is_prefix_of(served_routes()[i].0)),
        !("/.well-known"@.is_prefix_of(served_routes()[i].0)),
{
    reveal_strlit("/healthz");
    reveal_strlit("/mcp");
    reveal_strlit("/mcp/{path}");
    reveal_strlit("/download/{token}");
    reveal_strlit("/auth");
    reveal_strlit("/manage");
    reveal_strlit("/register");
    reveal_strlit("/.well-known");
    let path = served_routes()[i].0;
    assert(path[1] == 'h' || path[1] == 'm' || path[1] == 'd');
    if path[1] == 'm' {
        assert(path[2] == 'c');
    }
    assert("/manage"@[2] == 'a');
    assert("/auth"@[1] == 'a');
    assert("/register"@[1] == 'r');
    assert("/.well-known"@[1] == '.');
}

/// The health check answers with a small JSON text.
pub proof fn health_check_says_ok(reply: Reply)
    requires
        call_ensures(healthz, (), reply),
    ensures
        reply.status == 200,
        reply.headers@.len() == 1,
        reply.headers@[0].0@ == "content-type"@,
        reply.headers@[0].1@ == "application/json"@,
        reply.body is Text && reply.body->Text_0@ == "{\"status\":\"ok\"}"@,
{
    reply_content_is_in_its_fields(reply);
    assert(reply@.headers[0] == ("content-type"@, "application/json"@));
}

/// Four paths are served, each by its endpoint; downloads and the health check
/// answer to `GET` only.
pub proof fn four_paths_are_served(table: Vec<Route>)
    requires
        call_ensures(routes, (), table),
    ensures
        table@.len() == 4,
        table@[0].path@ == "/healthz"@ && table@[0].methods == Methods::Get && table@[0].endpoint
            == Endpoint::Healthz,
        table@[1].path@ == "/mcp"@ && table@[1].methods == Methods::Any && table@[1].endpoint
            == Endpoint::Mcp,
        table@[2].path@ == "/mcp/{path}"@ && table@[2].methods == Methods::Any
            && table@[2].endpoint == Endpoint::Mcp,
        table@[3].path@ == "/download/{token}"@ && table@[3].methods == Methods::Get
            && table@[3].endpoint == Endpoint::Download,
{
    let views = route_views(table@);
    assert(views.len() == table@.len());
    assert(views[0] == ("/healthz"@, Methods::Get, Endpoint::Healthz));
    assert(views[1] == ("/mcp"@, Methods::Any, Endpoint::Mcp));
    assert(views[2] == ("/mcp/{path}"@, Methods::Any, Endpoint::Mcp));
    assert(views[3] == ("/download/{token}"@, Methods::Get, Endpoint::Download));
}

/// Any origin may ask, without credentials, with these methods and headers only.
pub proof fn cross_origin_requests_are_limited(policy: CorsPolicy)
    requires
        call_ensures(cors_policy, (), policy),
    ensures
        policy.allow_origin@ == "*"@,
        !policy.allow_credentials,
        policy.methods@.len() == 4,
        policy.methods@[0]@ == "GET"@ && policy.methods@[1]@ == "POST"@ && policy.methods@[2]@
            == "DELETE"@ && policy.methods@[3]@ == "OPTIONS"@,
        policy.headers@.len() == 3,
        policy.headers@[0]@ == "authorization"@ && policy.headers@[1]@ == "content-type"@
            && policy.headers@[2]@ == "accept"@,
{
    texts_are_those_of_the_strings(policy.methods@, None);
    texts_are_those_of_the_strings(policy.headers@, None);
    let methods = texts(policy.methods@);
    let headers = texts(policy.headers@);
    assert(methods[0] == "GET"@ && methods[1] == "POST"@ && methods[2] == "DELETE"@ && methods[3]
        == "OPTIONS"@);
    assert(headers[0] == "authorization"@ && headers[1] == "content-type"@ && headers[2]
        == "accept"@);
}

} // verus!
