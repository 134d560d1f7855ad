//! Messages passed between a client and the identity tier.

use vstd::prelude::*;

verus! {

/// A request to create an account.
pub struct CreateUserRequest {
    username: String,
    password: String,
}

impl CreateUserRequest {
    pub closed spec fn spec_username(&self) -> Seq<char> {
        self.username@
    }

    pub closed spec fn spec_password(&self) -> Seq<char> {
        self.password@
    }

    pub fn new(username: String, password: String) -> (r: CreateUserRequest)
        ensures
            r.spec_username() == username@,
            r.spec_password() == password@,
    {
        CreateUserRequest { username, password }
    }

    pub fn username(&self) -> (r: &str)
        ensures
            r@ == self.spec_username(),
    {
        self.username.as_str()
    }

    pub fn password(&self) -> (r: &str)
        ensures
            r@ == self.spec_password(),
    {
        self.password.as_str()
    }
}

/// The answer to an account creation request.
#[derive(Clone, Copy, Debug, PartialEq, Eq, Structural)]
pub enum CreateUserResponse {
    Created,
    InvalidUsername,
    InvalidPassword,
    UnavailableUsername,
}

/// A request for a bearer token.
pub struct AuthRequest {
    username: String,
    password: String,
}

impl AuthRequest {
    pub closed spec fn spec_username(&self) -> Seq<char> {
        self.username@
    }

    pub closed spec fn spec_password(&self) -> Seq<char> {
        self.password@
    }

    pub fn new(username: String, password: String) -> (r: AuthRequest)
        ensures
            r.spec_username() == username@,
            r.spec_password() == password@,
    {
        AuthRequest { username, password }
    }

    pub fn username(&self) -> (r: &str)
        ensures
            r@ == self.spec_username(),
    {
        self.username.as_str()
    }

    pub fn password(&self) -> (r: &str)
        ensures
            r@ == self.spec_password(),
    {
        self.password.as_str()
    }
}

/// The answer to a token request.
pub enum AuthResponse {
    Authenticated { token: String },
    UnacceptableCredentials,
    InvalidCredentials,
}

} // verus!
