//! The client's side of the HTTP boundary: request and response bodies, and
//! how the pages react to the server's answers.

use vstd::prelude::*;

use crate::responses::{STATUS_OK, STATUS_SERVER_ERROR, STATUS_UNAUTHORIZED};

verus! {

/// The body of a login request.
#[derive(Debug, Clone)]
pub struct LoginBody {
    pub username: String,
    pub password: String,
}

/// The body of a successful current-user query, as the client reads it.
#[derive(Debug, Clone)]
pub struct CurrentUserResponse {
    pub username: String,
    pub admin: bool,
}

/// How the client treats the status of a current-user query.
#[derive(Debug, Clone, Copy, PartialEq, Eq, Structural)]
pub enum CurrentUserStatus {
    /// Someone is logged in: read a `CurrentUserResponse` from the body.
    LoggedIn,
    /// Nobody is logged in.
    LoggedOut,
    /// The server failed: read its message from the body.
    ServerError,
    /// Any other status, which the client reports as unexpected.
    Unexpected(u16),
}

/// Classifies the status of a current-user query.
pub fn classify_current_user_status(status: u16) -> (r: CurrentUserStatus)
    ensures
        r == if status == STATUS_OK {
            CurrentUserStatus::LoggedIn
        } else if status == STATUS_UNAUTHORIZED {
            CurrentUserStatus::LoggedOut
        } else if status == STATUS_SERVER_ERROR {
            CurrentUserStatus::ServerError
        } else {
            CurrentUserStatus::Unexpected(status)
        },
{
    if status == STATUS_OK {
        CurrentUserStatus::LoggedIn
    } else if status == STATUS_UNAUTHORIZED {
        CurrentUserStatus::LoggedOut
    } else if status == STATUS_SERVER_ERROR {
        CurrentUserStatus::ServerError
    } else {
        CurrentUserStatus::Unexpected(status)
    }
}

/// Status with which the server refuses a logout without a session.
pub const STATUS_FORBIDDEN: u16 = 403;

/// A message that a page shows after a request failed.
#[derive(Debug, Clone, Copy, PartialEq, Eq, Structural)]
pub enum FormMessage {
    InvalidCredentials,
    NotLoggedIn,
    ServerError,
    FrontendError,
}

impl FormMessage {
    /// The text shown for this message.
    pub fn text(&self) -> (r: &'static str)
        ensures
            r@ == match self {
                FormMessage::InvalidCredentials => "Invalid credentials"@,
                FormMessage::NotLoggedIn => "You are not logged in!"@,
                FormMessage::ServerError => "Internal server error"@,
                FormMessage::FrontendError => "Internal frontend error"@,
            },
    {
        match self {
            FormMessage::InvalidCredentials => "Invalid credentials",
            FormMessage::NotLoggedIn => "You are not logged in!",
            FormMessage::ServerError => "Internal server error",
            FormMessage::FrontendError => "Internal frontend error",
        }
    }
}

/// What a page does once the server answered its request.
#[derive(Debug, Clone, Copy, PartialEq, Eq, Structural)]
pub enum FormOutcome {
    /// The request succeeded: clear any message and move on.
    Done,
    /// The request failed: show this message.
    Show(FormMessage),
}

/// The message for a failed status that no page treats specially.
pub open spec fn failure_message(status: u16) -> FormMessage {
    if status == STATUS_UNAUTHORIZED {
        FormMessage::InvalidCredentials
    } else if status == STATUS_SERVER_ERROR {
        FormMessage::ServerError
    } else {
        FormMessage::FrontendError
    }
}

/// The login form's reaction to the status of a login request: 200 logs in,
/// 401 is a wrong username or password.
pub fn login_form_outcome(status: u16) -> (r: FormOutcome)
    ensures
        r == if status == STATUS_OK {
            FormOutcome::Done
        } else {
            FormOutcome::Show(failure_message(status))
        },
{
    if status == STATUS_OK {
        FormOutcome::Done
    } else if status == STATUS_UNAUTHORIZED {
        FormOutcome::Show(FormMessage::InvalidCredentials)
    } else if status == STATUS_SERVER_ERROR {
        FormOutcome::Show(FormMessage::ServerError)
    } else {
        FormOutcome::Show(FormMessage::FrontendError)
    }
}

/// The create-user form's reaction to the status of its request: any 2xx
/// status succeeds.
pub fn create_user_form_outcome(status: u16) -> (r: FormOutcome)
    ensures
        r == if 200 <= status <= 299 {
            FormOutcome::Done
        } else {
            FormOutcome::Show(failure_message(status))
        },
{
    if 200 <= status && status <= 299 {
        FormOutcome::Done
    } else if status == STATUS_UNAUTHORIZED {
        FormOutcome::Show(FormMessage::InvalidCredentials)
    } else if status == STATUS_SERVER_ERROR {
        FormOutcome::Show(FormMessage::ServerError)
    } else {
        FormOutcome::Show(FormMessage::FrontendError)
    }
}

/// The logout page's reaction to the status of a logout request: 403 means
/// nobody was logged in.
pub fn logout_outcome(status: u16) -> (r: FormOutcome)
    ensures
        r == if status == STATUS_OK {
            FormOutcome::Done
        } else if status == STATUS_FORBIDDEN {
            FormOutcome::Show(FormMessage::NotLoggedIn)
        } else if status == STATUS_SERVER_ERROR {
            FormOutcome::Show(FormMessage::ServerError)
        } else {
            FormOutcome::Show(FormMessage::FrontendError)
        },
{
    if status == STATUS_OK {
        FormOutcome::Done
    } else if status == STATUS_FORBIDDEN {
        FormOutcome::Show(FormMessage::NotLoggedIn)
    } else if status == STATUS_SERVER_ERROR {
        FormOutcome::Show(FormMessage::ServerError)
    } else {
        FormOutcome::Show(FormMessage::FrontendError)
    }
}

/// What the admin page shows for the current user.
#[derive(Debug, Clone, Copy, PartialEq, Eq, Structural)]
pub enum AdminView {
    /// Nobody is logged in: go to the login page, to come back afterwards.
    RedirectToLogin,
    /// The user is not an admin.
    NotAdmin,
    /// The create-user form.
    CreateUserForm,
}

/// The admin page is shown only to a logged-in admin.
pub fn admin_view(current: &Option<CurrentUserResponse>) -> (r: AdminView)
    ensures
        r == match current {
            None => AdminView::RedirectToLogin,
            Some(u) => if u.admin {
                AdminView::CreateUserForm
            } else {
                AdminView::NotAdmin
            },
        },
{
    match current {
        None => AdminView::RedirectToLogin,
        Some(u) => if u.admin {
            AdminView::CreateUserForm
        } else {
            AdminView::NotAdmin
        },
    }
}

} // verus!
