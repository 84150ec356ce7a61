//! What the HTTP layer answers: the login decision and the response bodies.

use vstd::prelude::*;

use crate::auth::{Error, User};

verus! {

/// Status of a successful request.
pub const STATUS_OK: u16 = 200;

/// Status of a request without valid credentials or session.
pub const STATUS_UNAUTHORIZED: u16 = 401;

/// Status of a request that failed inside the server.
pub const STATUS_SERVER_ERROR: u16 = 500;

/// The body of a successful login.
#[derive(Debug, Clone)]
pub struct LoginResponse {
    pub username: String,
}

/// The body of a current-user query with a valid session.
#[derive(Debug, Clone)]
pub struct MeResponse {
    pub username: String,
    pub admin: bool,
}

/// What the login endpoint does with an authentication result.
#[derive(Debug, Clone)]
pub enum LoginReply {
    /// Bind the session to this user and answer with its username.
    Accept(User),
    /// Answer "unauthorized" with no detail: the username is unknown or the
    /// password is wrong, and the two are not told apart.
    Unauthorized,
    /// Answer with a generic server error that reveals nothing of its cause.
    ServerError,
}

/// The login endpoint's decision for an authentication result.
pub fn login_reply(outcome: Result<Option<User>, Error>) -> (r: LoginReply)
    ensures
        match outcome {
            Ok(Some(u)) => r == LoginReply::Accept(u),
            Ok(None) => r is Unauthorized,
            Err(_) => r is ServerError,
        },
{
    match outcome {
        Ok(Some(u)) => LoginReply::Accept(u),
        Ok(None) => LoginReply::Unauthorized,
        Err(_) => LoginReply::ServerError,
    }
}

impl LoginReply {
    /// The HTTP status of this reply, once the session is bound for `Accept`.
    pub fn status(&self) -> (r: u16)
        ensures
            r == match self {
                LoginReply::Accept(_) => STATUS_OK,
                LoginReply::Unauthorized => STATUS_UNAUTHORIZED,
                LoginReply::ServerError => STATUS_SERVER_ERROR,
            },
    {
        match self {
            LoginReply::Accept(_) => STATUS_OK,
            LoginReply::Unauthorized => STATUS_UNAUTHORIZED,
            LoginReply::ServerError => STATUS_SERVER_ERROR,
        }
    }
}

impl LoginResponse {
    /// The login body for `user`: its username.
    pub fn for_user(user: &User) -> (r: LoginResponse)
        ensures
            r.username@ == user.username@,
    {
        LoginResponse { username: user.username.clone() }
    }
}

impl MeResponse {
    /// The current-user body for `user`, with the admin flag that the
    /// surrounding system derived for it.
    pub fn for_user(user: &User, admin: bool) -> (r: MeResponse)
        ensures
            r.username@ == user.username@,
            r.admin == admin,
    {
        MeResponse { username: user.username.clone(), admin }
    }
}

} // verus!
