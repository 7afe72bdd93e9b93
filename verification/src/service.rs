//! The service itself: its five routes, and what it answers on each.

use vstd::prelude::*;
use crate::dispatch::{dispatch_spec, PayloadView};
use crate::error::RequestError;
use crate::handlers;
use crate::model::{CallRequestView, CreateUserView, UserView, USER_ID};
use crate::response::{error_response_spec, BodyView, ResponseView};
use crate::router::{lookup_spec, Handler, Method, Router};
use crate::status;

verus! {

/// The route table of the service. The download and upload paths are served
/// by the user-creation handler, like the users path.
pub open spec fn service_table() -> Map<(Method, Seq<char>), Handler> {
    Map::<(Method, Seq<char>), Handler>::empty().insert(
        (Method::Get, "/"@),
        Handler::Root,
    ).insert((Method::Post, "/users"@), Handler::CreateUser).insert(
        (Method::Post, "/call"@),
        Handler::Call,
    ).insert((Method::Post, "/download"@), Handler::CreateUser).insert(
        (Method::Post, "/upload"@),
        Handler::CreateUser,
    )
}

/// The handler that serves `method` and `path`, read off the five routes.
pub open spec fn service_route(method: Method, path: Seq<char>) -> Result<Handler, RequestError> {
    if method == Method::Get && path == "/"@ {
        Ok(Handler::Root)
    } else if method == Method::Post && (path == "/users"@ || path == "/download"@ || path
        == "/upload"@) {
        Ok(Handler::CreateUser)
    } else if method == Method::Post && path == "/call"@ {
        Ok(Handler::Call)
    } else {
        Err(RequestError::NotFound)
    }
}

/// Builds the route table of the service.
pub fn service_router() -> (router: Router)
    ensures
        router@ == service_table(),
{
    Router::new().route(Method::Get, "/", Handler::Root).route(
        Method::Post,
        "/users",
        Handler::CreateUser,
    ).route(Method::Post, "/call", Handler::Call).route(
        Method::Post,
        "/download",
        Handler::CreateUser,
    ).route(Method::Post, "/upload", Handler::CreateUser)
}

/// The five paths differ from one another.
proof fn lemma_paths_differ()
    ensures
        "/"@.len() == 1,
        "/users"@.len() == 6,
        "/call"@.len() == 5,
        "/download"@.len() == 9,
        "/upload"@.len() == 7,
{
    reveal_strlit("/");
    reveal_strlit("/users");
    reveal_strlit("/call");
    reveal_strlit("/download");
    reveal_strlit("/upload");
}

/// A lookup in the service's table finds exactly the five routes, and
/// nothing for any other method or path.
pub proof fn lemma_service_routes(method: Method, path: Seq<char>)
    ensures
        lookup_spec(service_table(), method, path) == service_route(method, path),
{
    lemma_paths_differ();
}

/// A `GET` of the root path is answered `200 OK` with the greeting,
/// whatever the payload.
pub proof fn lemma_root_greets(payload: PayloadView)
    ensures
        dispatch_spec(service_table(), Method::Get, "/"@, payload) == (ResponseView {
            status: status::OK,
            body: BodyView::Text(handlers::greeting()),
        }),
{
    lemma_service_routes(Method::Get, "/"@);
}

/// A `POST` of a username to the users path is answered `201 Created` with
/// the user that has the fixed identifier and that username.
pub proof fn lemma_users_creates(username: Seq<char>)
    ensures
        dispatch_spec(
            service_table(),
            Method::Post,
            "/users"@,
            PayloadView::CreateUser(CreateUserView { username: username }),
        ) == (ResponseView {
            status: status::CREATED,
            body: BodyView::User(UserView { id: USER_ID, username: username }),
        }),
{
    lemma_service_routes(Method::Post, "/users"@);
}

/// A `POST` of a call request to the call path is answered `201 Created`
/// with the same request.
pub proof fn lemma_call_echoes(request: CallRequestView)
    ensures
        dispatch_spec(service_table(), Method::Post, "/call"@, PayloadView::Call(request)) == (
        ResponseView { status: status::CREATED, body: BodyView::Call(request) }),
{
    lemma_paths_differ();
    lemma_service_routes(Method::Post, "/call"@);
}

/// A `POST` to the users path or to the call path of a body that did not
/// decode into the shape that the path takes is answered `400 Bad Request`,
/// a client error.
pub proof fn lemma_undecoded_is_client_error(payload: PayloadView)
    ensures
        !(payload is CreateUser) ==> dispatch_spec(
            service_table(),
            Method::Post,
            "/users"@,
            payload,
        ) == error_response_spec(RequestError::DecodeError),
        !(payload is Call) ==> dispatch_spec(service_table(), Method::Post, "/call"@, payload)
            == error_response_spec(RequestError::DecodeError),
        status::is_client_error(error_response_spec(RequestError::DecodeError).status),
{
    lemma_paths_differ();
    lemma_service_routes(Method::Post, "/users"@);
    lemma_service_routes(Method::Post, "/call"@);
}

/// The download path and the upload path answer every request as the users
/// path does.
pub proof fn lemma_download_and_upload_as_users(method: Method, payload: PayloadView)
    ensures
        dispatch_spec(service_table(), method, "/download"@, payload) == dispatch_spec(
            service_table(),
            method,
            "/users"@,
            payload,
        ),
        dispatch_spec(service_table(), method, "/upload"@, payload) == dispatch_spec(
            service_table(),
            method,
            "/users"@,
            payload,
        ),
{
    lemma_paths_differ();
    lemma_service_routes(method, "/users"@);
    lemma_service_routes(method, "/download"@);
    lemma_service_routes(method, "/upload"@);
}

} // verus!
