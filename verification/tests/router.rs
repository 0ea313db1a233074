use service_info::api::{api_router, Handler, Method, Router, API_PATH};
use service_info::metadata::ServiceInfo;

const METHODS: [Method; 10] = [
    Method::Get,
    Method::Head,
    Method::Post,
    Method::Put,
    Method::Delete,
    Method::Connect,
    Method::Options,
    Method::Trace,
    Method::Patch,
    Method::Other,
];

#[test]
fn api_path_is_slash_api() {
    assert_eq!(API_PATH, "/api");
}

#[test]
fn get_api_with_unset_inputs() {
    let info = ServiceInfo::resolve(None, None, None);
    let response = api_router().handle(&info, Method::Get, "/api");
    assert_eq!(response.status, 200);
    assert_eq!(response.body, "{\"name\":\"NULL\",\"version\":\"NULL\",\"repository\":\"NULL\"}");
}

#[test]
fn get_api_with_set_inputs() {
    let info = ServiceInfo::resolve(Some("svc"), Some("1.2.3"), Some("https://example.com/repo"));
    let response = api_router().handle(&info, Method::Get, "/api");
    assert_eq!(response.status, 200);
    assert_eq!(
        response.body,
        "{\"name\":\"svc\",\"version\":\"1.2.3\",\"repository\":\"https://example.com/repo\"}"
    );
    assert_eq!(response.content_type.as_deref(), Some("application/json"));
}

#[test]
fn other_paths_are_not_found() {
    let info = ServiceInfo::resolve(Some("svc"), Some("1.2.3"), None);
    let router = api_router();
    for path in ["/", "", "/api/", "/api/home", "/apis", "/ap", "/API", "api", "//api", "/other"] {
        let response = router.handle(&info, Method::Get, path);
        assert_eq!(response.status, 404, "GET {}", path);
        assert!(!response.is_success());
        assert_eq!(response.body, "");
        assert_eq!(response.content_type, None);
    }
}

#[test]
fn other_methods_are_not_found() {
    let info = ServiceInfo::resolve(Some("svc"), Some("1.2.3"), None);
    let router = api_router();
    for method in METHODS {
        let response = router.handle(&info, method, "/api");
        if method == Method::Get {
            assert_eq!(response.status, 200);
        } else {
            assert_eq!(response.status, 404, "{:?}", method);
            assert_eq!(response.body, "");
        }
    }
}

#[test]
fn repeated_requests_get_the_same_bytes() {
    let info = ServiceInfo::resolve(Some("svc"), None, Some("a\"b"));
    let router = api_router();
    let first = router.handle(&info, Method::Get, "/api");
    let second = router.handle(&info, Method::Get, "/api");
    assert_eq!(first, second);
    assert_eq!(first.body.as_bytes(), second.body.as_bytes());
    let other = api_router().handle(&info, Method::Get, "/api");
    assert_eq!(first, other);
    let missing = router.handle(&info, Method::Get, "/");
    assert_eq!(missing, router.handle(&info, Method::Get, "/"));
}

#[test]
fn api_router_has_one_route() {
    let router = api_router();
    assert_eq!(router.lookup(Method::Get, "/api"), Some(Handler::Home));
    assert_eq!(router.lookup(Method::Get, "/"), None);
    assert_eq!(router.lookup(Method::Get, "/api/"), None);
    for method in METHODS {
        if method != Method::Get {
            assert_eq!(router.lookup(method, "/api"), None);
        }
    }
}

#[test]
fn empty_router_finds_nothing() {
    let router = Router::new();
    assert_eq!(router.lookup(Method::Get, "/api"), None);
    assert_eq!(router.lookup(Method::Get, ""), None);
    let info = ServiceInfo::resolve(None, None, None);
    assert_eq!(router.handle(&info, Method::Get, "/api").status, 404);
}

#[test]
fn routes_are_told_apart_by_method_and_path() {
    let router = Router::new()
        .route(Method::Post, "/a", Handler::Home)
        .route(Method::Get, "/b", Handler::Home);
    assert_eq!(router.lookup(Method::Post, "/a"), Some(Handler::Home));
    assert_eq!(router.lookup(Method::Get, "/b"), Some(Handler::Home));
    assert_eq!(router.lookup(Method::Get, "/a"), None);
    assert_eq!(router.lookup(Method::Post, "/b"), None);
    assert_eq!(router.lookup(Method::Post, "/a/"), None);
}

#[test]
fn a_route_registered_twice_still_answers() {
    let router = Router::new()
        .route(Method::Get, "/api", Handler::Home)
        .route(Method::Get, "/api", Handler::Home);
    let info = ServiceInfo::resolve(None, None, None);
    assert_eq!(router.lookup(Method::Get, "/api"), Some(Handler::Home));
    assert_eq!(router.handle(&info, Method::Get, "/api").status, 200);
}
