//! The handlers: each maps a decoded request to a response value and the
//! status code that goes with it. None of them keeps anything between two
//! requests.

use vstd::prelude::*;
use crate::model::{CallRequest, CreateUser, CreateUserView, User, UserView, USER_ID};
use crate::status;

verus! {

/// The text that the root handler answers with.
pub open spec fn greeting() -> Seq<char> {
    "Hello, World!"@
}

/// The user that is made from `payload`: the fixed identifier and the
/// username as it came.
pub open spec fn created_user(payload: CreateUserView) -> UserView {
    UserView { id: USER_ID, username: payload.username }
}

/// Answers with the greeting.
pub fn root() -> (text: &'static str)
    ensures
        text@ == greeting(),
{
    "Hello, World!"
}

/// Makes a user out of `payload` and reports it as created.
pub fn create_user(payload: CreateUser) -> (out: (u16, User))
    ensures
        out.0 == status::CREATED,
        out.1@ == created_user(payload@),
{
    let user = User { id: USER_ID, username: payload.username };
    (status::created(), user)
}

/// Echoes `payload` unchanged and reports it as created.
pub fn call(payload: CallRequest) -> (out: (u16, CallRequest))
    ensures
        out.0 == status::CREATED,
        out.1@ == payload@,
{
    let echo = CallRequest { body: payload.body, accessToken: payload.accessToken };
    (status::created(), echo)
}

} // verus!
