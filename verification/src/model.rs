//! The typed payloads that handlers take and return.

use vstd::prelude::*;

verus! {

/// The identifier given to every created user.
pub const USER_ID: u64 = 1337;

/// The input of the user-creation handler.
#[derive(Clone, Debug, PartialEq, Eq, Hash)]
pub struct CreateUser {
    pub username: String,
}

/// What a [`CreateUser`] holds.
pub struct CreateUserView {
    pub username: Seq<char>,
}

impl View for CreateUser {
    type V = CreateUserView;

    open spec fn view(&self) -> CreateUserView {
        CreateUserView { username: self.username@ }
    }
}

/// The output of the user-creation handler.
#[derive(Clone, Debug, PartialEq, Eq)]
pub struct User {
    pub id: u64,
    pub username: String,
}

/// What a [`User`] holds.
pub struct UserView {
    pub id: u64,
    pub username: Seq<char>,
}

impl View for User {
    type V = UserView;

    open spec fn view(&self) -> UserView {
        UserView { id: self.id, username: self.username@ }
    }
}

/// The input and output of the call handler.
#[allow(non_snake_case)]
#[derive(Clone, Debug, PartialEq, Eq)]
pub struct CallRequest {
    pub body: String,
    pub accessToken: String,
}

/// What a [`CallRequest`] holds.
#[allow(non_snake_case)]
pub struct CallRequestView {
    pub body: Seq<char>,
    pub accessToken: Seq<char>,
}

impl View for CallRequest {
    type V = CallRequestView;

    open spec fn view(&self) -> CallRequestView {
        CallRequestView { body: self.body@, accessToken: self.accessToken@ }
    }
}

} // verus!
