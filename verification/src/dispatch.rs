//! From a routed request to its response.
//!
//! The caller looks the handler up, decodes the body into the shape that the
//! handler declares, and hands the decoded payload over; the handler's
//! answer, or the report of what went wrong, comes back as a typed response
//! for the caller to encode.

use vstd::prelude::*;
use crate::error::RequestError;
use crate::handlers;
use crate::model::{CallRequest, CallRequestView, CreateUser, CreateUserView};
use crate::response::{error_response, error_response_spec, Body, BodyView, Response, ResponseView};
use crate::router::{lookup_spec, Handler, Method, Router};
use crate::status;

verus! {

/// The shape of body that a handler declares as its input.
#[derive(Clone, Copy, Debug, PartialEq, Eq, Structural)]
pub enum Shape {
    /// The handler reads no body.
    Nothing,
    /// A JSON object with a `username`.
    CreateUser,
    /// A JSON object with a `body` and an `accessToken`.
    CallRequest,
}

/// The body of a request after decoding.
#[derive(Clone, Debug, PartialEq, Eq)]
pub enum Payload {
    /// The body was not read.
    Absent,
    /// The body decoded into a [`CreateUser`].
    CreateUser(CreateUser),
    /// The body decoded into a [`CallRequest`].
    Call(CallRequest),
    /// The body was read and could not be decoded.
    Malformed,
}

/// What a [`Payload`] holds.
pub enum PayloadView {
    Absent,
    CreateUser(CreateUserView),
    Call(CallRequestView),
    Malformed,
}

impl View for Payload {
    type V = PayloadView;

    open spec fn view(&self) -> PayloadView {
        match self {
            Payload::Absent => PayloadView::Absent,
            Payload::CreateUser(payload) => PayloadView::CreateUser(payload@),
            Payload::Call(payload) => PayloadView::Call(payload@),
            Payload::Malformed => PayloadView::Malformed,
        }
    }
}

impl PayloadView {
    /// Whether the payload has the shape `shape`. Any payload will do for a
    /// handler that reads no body.
    pub open spec fn has_shape(self, shape: Shape) -> bool {
        match shape {
            Shape::Nothing => true,
            Shape::CreateUser => self is CreateUser,
            Shape::CallRequest => self is Call,
        }
    }
}

impl Handler {
    /// The shape of body that this handler takes.
    pub open spec fn input_spec(self) -> Shape {
        match self {
            Handler::Root => Shape::Nothing,
            Handler::CreateUser => Shape::CreateUser,
            Handler::Call => Shape::CallRequest,
        }
    }

    /// The shape of body that this handler takes, so that the caller knows
    /// what to decode the body into.
    pub fn input(self) -> (shape: Shape)
        ensures
            shape == self.input_spec(),
    {
        match self {
            Handler::Root => Shape::Nothing,
            Handler::CreateUser => Shape::CreateUser,
            Handler::Call => Shape::CallRequest,
        }
    }
}

/// What `handler` answers to `payload`. The root handler greets whatever the
/// payload; the other two answer `201 Created` with the made user or the
/// echoed request where the payload has their shape, and report a decode
/// error where it has not.
pub open spec fn handle_spec(handler: Handler, payload: PayloadView) -> ResponseView {
    match handler {
        Handler::Root => ResponseView {
            status: status::OK,
            body: BodyView::Text(handlers::greeting()),
        },
        Handler::CreateUser => match payload {
            PayloadView::CreateUser(payload) => ResponseView {
                status: status::CREATED,
                body: BodyView::User(handlers::created_user(payload)),
            },
            _ => error_response_spec(RequestError::DecodeError),
        },
        Handler::Call => match payload {
            PayloadView::Call(payload) => ResponseView {
                status: status::CREATED,
                body: BodyView::Call(payload),
            },
            _ => error_response_spec(RequestError::DecodeError),
        },
    }
}

/// What the service with the route table `table` answers to a request.
pub open spec fn dispatch_spec(
    table: Map<(Method, Seq<char>), Handler>,
    method: Method,
    path: Seq<char>,
    payload: PayloadView,
) -> ResponseView {
    match lookup_spec(table, method, path) {
        Ok(handler) => handle_spec(handler, payload),
        Err(error) => error_response_spec(error),
    }
}

/// Runs `handler` on `payload` and builds the response.
pub fn handle(handler: Handler, payload: Payload) -> (response: Response)
    ensures
        response@ == handle_spec(handler, payload@),
{
    match handler {
        Handler::Root => {
            let text = handlers::root();
            Response { status: status::ok(), body: Body::Text(text.to_owned()) }
        },
        Handler::CreateUser => match payload {
            Payload::CreateUser(payload) => {
                let (status, user) = handlers::create_user(payload);
                Response { status, body: Body::User(user) }
            },
            _ => error_response(RequestError::DecodeError),
        },
        Handler::Call => match payload {
            Payload::Call(payload) => {
                let (status, echo) = handlers::call(payload);
                Response { status, body: Body::Call(echo) }
            },
            _ => error_response(RequestError::DecodeError),
        },
    }
}

impl Router {
    /// Serves one request: selects the handler for `method` and `path`, runs
    /// it on `payload`, and reports `NotFound` where no route matches.
    pub fn dispatch(&self, method: Method, path: &str, payload: Payload) -> (response: Response)
        ensures
            response@ == dispatch_spec(self@, method, path@, payload@),
    {
        match self.lookup(method, path) {
            Ok(handler) => handle(handler, payload),
            Err(error) => error_response(error),
        }
    }
}

/// A handler answers with a success exactly when the payload has the shape
/// it declares, and with `400 Bad Request` otherwise.
pub proof fn lemma_handle_status(handler: Handler, payload: PayloadView)
    ensures
        payload.has_shape(handler.input_spec()) <==> status::is_success(
            handle_spec(handler, payload).status,
        ),
        !payload.has_shape(handler.input_spec()) <==> handle_spec(handler, payload)
            == error_response_spec(RequestError::DecodeError),
{
}

/// Whatever the table, the method, the path and the payload, a request is
/// answered with a success or a client error: no request makes the service
/// fail.
pub proof fn lemma_dispatch_never_fails(
    table: Map<(Method, Seq<char>), Handler>,
    method: Method,
    path: Seq<char>,
    payload: PayloadView,
)
    ensures
        status::is_success(dispatch_spec(table, method, path, payload).status)
            || status::is_client_error(dispatch_spec(table, method, path, payload).status),
{
}

} // verus!
