use axum_demo::error::RequestError;
use axum_demo::router::{Handler, Method, Router};
use axum_demo::service::service_router;

const METHODS: [Method; 9] = [
    Method::Get,
    Method::Head,
    Method::Post,
    Method::Put,
    Method::Delete,
    Method::Connect,
    Method::Options,
    Method::Trace,
    Method::Patch,
];

#[test]
fn empty_router_finds_nothing() {
    let router = Router::new();
    for method in METHODS {
        assert_eq!(router.lookup(method, "/"), Err(RequestError::NotFound));
        assert_eq!(router.lookup(method, ""), Err(RequestError::NotFound));
    }
}

#[test]
fn registered_route_is_found() {
    let router = Router::new().route(Method::Put, "/things", Handler::Call);
    assert_eq!(router.lookup(Method::Put, "/things"), Ok(Handler::Call));
}

#[test]
fn route_is_bound_to_its_method() {
    let router = Router::new().route(Method::Put, "/things", Handler::Call);
    for method in METHODS {
        if method != Method::Put {
            assert_eq!(router.lookup(method, "/things"), Err(RequestError::NotFound));
        }
    }
}

#[test]
fn path_must_match_exactly() {
    let router = Router::new().route(Method::Get, "/things", Handler::Root);
    for path in ["/thing", "/things/", "/things/1", "things", "/Things", "/things?x=1", " /things", "/"] {
        assert_eq!(router.lookup(Method::Get, path), Err(RequestError::NotFound));
    }
}

#[test]
fn same_path_under_two_methods() {
    let router = Router::new()
        .route(Method::Get, "/things", Handler::Root)
        .route(Method::Post, "/things", Handler::CreateUser);
    assert_eq!(router.lookup(Method::Get, "/things"), Ok(Handler::Root));
    assert_eq!(router.lookup(Method::Post, "/things"), Ok(Handler::CreateUser));
}

#[test]
fn later_registration_replaces_earlier() {
    let router = Router::new()
        .route(Method::Get, "/a", Handler::Root)
        .route(Method::Get, "/b", Handler::CreateUser)
        .route(Method::Get, "/a", Handler::Call);
    assert_eq!(router.lookup(Method::Get, "/a"), Ok(Handler::Call));
    assert_eq!(router.lookup(Method::Get, "/b"), Ok(Handler::CreateUser));
}

#[test]
fn earlier_routes_survive_later_ones() {
    let router = Router::new()
        .route(Method::Get, "/first", Handler::Root)
        .route(Method::Get, "/second", Handler::Call)
        .route(Method::Get, "/third", Handler::CreateUser);
    assert_eq!(router.lookup(Method::Get, "/first"), Ok(Handler::Root));
    assert_eq!(router.lookup(Method::Get, "/second"), Ok(Handler::Call));
    assert_eq!(router.lookup(Method::Get, "/third"), Ok(Handler::CreateUser));
}

#[test]
fn path_with_other_characters() {
    let router = Router::new().route(Method::Get, "/caf\u{e9}/\u{1F600}", Handler::Root);
    assert_eq!(router.lookup(Method::Get, "/caf\u{e9}/\u{1F600}"), Ok(Handler::Root));
    assert_eq!(router.lookup(Method::Get, "/cafe/\u{1F600}"), Err(RequestError::NotFound));
}

#[test]
fn service_has_its_five_routes() {
    let router = service_router();
    assert_eq!(router.lookup(Method::Get, "/"), Ok(Handler::Root));
    assert_eq!(router.lookup(Method::Post, "/users"), Ok(Handler::CreateUser));
    assert_eq!(router.lookup(Method::Post, "/call"), Ok(Handler::Call));
    assert_eq!(router.lookup(Method::Post, "/download"), Ok(Handler::CreateUser));
    assert_eq!(router.lookup(Method::Post, "/upload"), Ok(Handler::CreateUser));
}

#[test]
fn service_has_no_other_route() {
    let router = service_router();
    let paths = ["/", "/users", "/call", "/download", "/upload"];
    for method in METHODS {
        for path in paths {
            let wired = (method == Method::Get && path == "/")
                || (method == Method::Post && path != "/");
            assert_eq!(router.lookup(method, path).is_ok(), wired);
        }
        for path in ["", "/user", "/users/", "/calls", "/Upload", "/index.html", "//"] {
            assert_eq!(router.lookup(method, path), Err(RequestError::NotFound));
        }
    }
}
