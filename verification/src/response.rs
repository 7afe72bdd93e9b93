//! What a handler hands back: a status code and a typed body.

use vstd::prelude::*;
use crate::error::RequestError;
use crate::model::{CallRequest, CallRequestView, User, UserView};
use crate::status;

verus! {

/// The body of a response, before it is encoded.
#[derive(Clone, Debug, PartialEq, Eq)]
pub enum Body {
    /// No body at all.
    Empty,
    /// Plain text.
    Text(String),
    /// A user, to be encoded as a JSON object.
    User(User),
    /// A call request, to be encoded as a JSON object.
    Call(CallRequest),
}

/// What a [`Body`] holds.
pub enum BodyView {
    Empty,
    Text(Seq<char>),
    User(UserView),
    Call(CallRequestView),
}

impl View for Body {
    type V = BodyView;

    open spec fn view(&self) -> BodyView {
        match self {
            Body::Empty => BodyView::Empty,
            Body::Text(text) => BodyView::Text(text@),
            Body::User(user) => BodyView::User(user@),
            Body::Call(call) => BodyView::Call(call@),
        }
    }
}

/// A response: the status code and the body that goes with it.
#[derive(Clone, Debug, PartialEq, Eq)]
pub struct Response {
    pub status: u16,
    pub body: Body,
}

/// What a [`Response`] holds.
pub struct ResponseView {
    pub status: u16,
    pub body: BodyView,
}

impl View for Response {
    type V = ResponseView;

    open spec fn view(&self) -> ResponseView {
        ResponseView { status: self.status, body: self.body@ }
    }
}

/// The response that reports `error`: its status code and no body.
pub open spec fn error_response_spec(error: RequestError) -> ResponseView {
    ResponseView { status: error.status_spec(), body: BodyView::Empty }
}

/// The response to a request that was served and has nothing to say:
/// `200 OK` and no body.
pub open spec fn empty_response_spec() -> ResponseView {
    ResponseView { status: status::OK, body: BodyView::Empty }
}

/// Builds the response that reports `error`.
pub fn error_response(error: RequestError) -> (response: Response)
    ensures
        response@ == error_response_spec(error),
{
    Response { status: error.status(), body: Body::Empty }
}

/// Builds the response `200 OK` with no body.
pub fn empty_response() -> (response: Response)
    ensures
        response@ == empty_response_spec(),
{
    Response { status: status::ok(), body: Body::Empty }
}

} // verus!
