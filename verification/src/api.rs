//! The routes of the service: which request is answered by which handler.

use crate::api::home::{home, is_home_response};
use crate::json::object_members;
use crate::metadata::{ServiceInfo, ServiceInfoView};
use crate::response::{not_found_response, Response, ResponseView};
use vstd::prelude::*;

pub mod home;

verus! {

/// The path under which the service information is served.
pub const API_PATH: &'static str = "/api";

/// The method of a request.
#[derive(Clone, Copy, Debug, PartialEq, Eq, Structural)]
pub enum Method {
    Get,
    Head,
    Post,
    Put,
    Delete,
    Connect,
    Options,
    Trace,
    Patch,
    /// Any method that has no variant of its own.
    Other,
}

/// What answers a request.
#[derive(Clone, Copy, Debug, PartialEq, Eq, Structural)]
pub enum Handler {
    /// The home handler, which answers with the service information.
    Home,
}

/// One route: requests with this method and exactly this path go to the handler.
#[derive(Debug)]
struct Route {
    method: Method,
    path: String,
    handler: Handler,
}

/// A route as a mathematical value.
pub struct RouteView {
    pub method: Method,
    pub path: Seq<char>,
    pub handler: Handler,
}

impl View for Route {
    type V = RouteView;

    closed spec fn view(&self) -> RouteView {
        RouteView { method: self.method, path: self.path@, handler: self.handler }
    }
}

/// The routes of a service, in the order in which they were registered.
#[derive(Debug)]
pub struct Router {
    routes: Vec<Route>,
}

impl View for Router {
    type V = Seq<RouteView>;

    closed spec fn view(&self) -> Seq<RouteView> {
        Seq::new(self.routes@.len(), |i: int| self.routes@[i]@)
    }
}

/// The handler of the first of `routes` that has this method and this path,
/// and `None` where no route has them.
pub open spec fn find(routes: Seq<RouteView>, method: Method, path: Seq<char>) -> Option<Handler>
    decreases routes.len(),
{
    if routes.len() == 0 {
        None
    } else if routes[0].method == method && routes[0].path == path {
        Some(routes[0].handler)
    } else {
        find(routes.drop_first(), method, path)
    }
}

/// The routes of the service: `GET /api`, answered by the home handler, and
/// no other.
pub open spec fn api_routes() -> Seq<RouteView> {
    seq![RouteView { method: Method::Get, path: API_PATH@, handler: Handler::Home }]
}

/// Whether `response` is what a router with these routes answers to a request
/// with this method and this path: the answer of the handler that `find`
/// gives, and the answer with status 404 where it gives none.
pub open spec fn answers(
    routes: Seq<RouteView>,
    info: ServiceInfoView,
    method: Method,
    path: Seq<char>,
    response: ResponseView,
) -> bool {
    match find(routes, method, path) {
        Some(Handler::Home) => is_home_response(info, response),
        None => response == not_found_response(),
    }
}

/// A route that stands behind the first `n` routes is found there, unless one
/// of the first `n` has the method and the path.
proof fn lemma_find_skip(routes: Seq<RouteView>, method: Method, path: Seq<char>, n: int)
    requires
        0 <= n <= routes.len(),
        forall|i: int| 0 <= i < n ==> !(routes[i].method == method && routes[i].path == path),
    ensures
        find(routes, method, path) == find(routes.subrange(n, routes.len() as int), method, path),
    decreases n,
{
    if n == 0 {
        assert(routes.subrange(0, routes.len() as int) == routes);
    } else {
        let rest = routes.drop_first();
        assert forall|i: int| 0 <= i < n - 1 implies !(rest[i].method == method && rest[i].path
            == path) by {
            assert(rest[i] == routes[i + 1]);
        }
        lemma_find_skip(rest, method, path, n - 1);
        assert(rest.subrange(n - 1, rest.len() as int) == routes.subrange(n, routes.len() as int));
    }
}

impl Router {
    /// A router without routes.
    pub fn new() -> (router: Router)
        ensures
            router@ == Seq::<RouteView>::empty(),
    {
        Router { routes: Vec::new() }
    }

    /// Registers a route behind those that the router holds. Where an earlier
    /// route has the same method and path, the earlier one goes on answering.
    pub fn route(self, method: Method, path: &str, handler: Handler) -> (router: Router)
        ensures
            router@ == self@.push(RouteView { method, path: path@, handler }),
    {
        let mut routes = self.routes;
        routes.push(Route { method, path: path.to_owned(), handler });
        Router { routes }
    }

    /// Looks up the handler of a request with this method and this path.
    pub fn lookup(&self, method: Method, path: &str) -> (handler: Option<Handler>)
        ensures
            handler == find(self@, method, path@),
    {
        let wanted = path.to_owned();
        let mut i: usize = 0;
        while i < self.routes.len()
            invariant
                i <= self.routes.len(),
                wanted@ == path@,
                forall|j: int|
                    0 <= j < i ==> !(self@[j].method == method && self@[j].path == path@),
            decreases self.routes.len() - i,
        {
            let route = &self.routes[i];
            if route.method == method && route.path == wanted {
                proof {
                    lemma_find_skip(self@, method, path@, i as int);
                }
                return Some(route.handler);
            }
            i += 1;
        }
        proof {
            lemma_find_skip(self@, method, path@, i as int);
        }
        None
    }

    /// Answers a request with this method and this path. Nothing else of a
    /// request is read.
    pub fn handle(&self, info: &ServiceInfo, method: Method, path: &str) -> (response: Response)
        ensures
            answers(self@, info@, method, path@, response@),
    {
        match self.lookup(method, path) {
            Some(Handler::Home) => home(info),
            None => Response::not_found(),
        }
    }
}

/// The router of the service: `GET /api` goes to the home handler.
pub fn api_router() -> (router: Router)
    ensures
        router@ == api_routes(),
{
    Router::new().route(Method::Get, API_PATH, Handler::Home)
}

/// Every `GET` request to `/api` is answered with status 200 and a body that
/// is a JSON object with exactly the members `name`, `version` and
/// `repository`, which hold the fields of `info`.
pub proof fn lemma_get_api_is_answered(info: ServiceInfoView, response: ResponseView)
    requires
        answers(api_routes(), info, Method::Get, API_PATH@, response),
    ensures
        response.status == 200,
        response.content_type == Some("application/json"@),
        object_members(response.body) == Some(
            seq![
                ("name"@, info.name),
                ("version"@, info.version),
                ("repository"@, info.repository),
            ],
        ),
{
}

/// A request with another path than `/api`, or with another method than
/// `GET`, is answered with status 404 and so with no status of success.
pub proof fn lemma_other_request_is_not_found(
    info: ServiceInfoView,
    method: Method,
    path: Seq<char>,
    response: ResponseView,
)
    requires
        answers(api_routes(), info, method, path, response),
        path != API_PATH@ || method != Method::Get,
    ensures
        response == not_found_response(),
        !(200 <= response.status < 300),
{
    assert(find(api_routes().drop_first(), method, path) is None);
}

/// The answer to a request depends on the routes, the service information,
/// the method and the path alone: two answers to the same request are the
/// same in status, media type and every character of the body.
pub proof fn lemma_answer_is_stable(
    routes: Seq<RouteView>,
    info: ServiceInfoView,
    method: Method,
    path: Seq<char>,
    first: ResponseView,
    second: ResponseView,
)
    requires
        answers(routes, info, method, path, first),
        answers(routes, info, method, path, second),
    ensures
        first == second,
{
}

} // verus!
