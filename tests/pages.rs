use connectia::client::{
    admin_view, create_user_form_outcome, login_form_outcome, logout_outcome, AdminView,
    CurrentUserResponse, FormMessage, FormOutcome, LoginBody,
};

#[test]
fn login_form_reacts_to_status() {
    assert_eq!(login_form_outcome(200), FormOutcome::Done);
    assert_eq!(login_form_outcome(401), FormOutcome::Show(FormMessage::InvalidCredentials));
    assert_eq!(login_form_outcome(500), FormOutcome::Show(FormMessage::ServerError));
    assert_eq!(login_form_outcome(204), FormOutcome::Show(FormMessage::FrontendError));
    assert_eq!(login_form_outcome(403), FormOutcome::Show(FormMessage::FrontendError));
}

#[test]
fn create_user_form_accepts_any_success_status() {
    assert_eq!(create_user_form_outcome(200), FormOutcome::Done);
    assert_eq!(create_user_form_outcome(201), FormOutcome::Done);
    assert_eq!(create_user_form_outcome(299), FormOutcome::Done);
    assert_eq!(create_user_form_outcome(300), FormOutcome::Show(FormMessage::FrontendError));
    assert_eq!(create_user_form_outcome(199), FormOutcome::Show(FormMessage::FrontendError));
    assert_eq!(create_user_form_outcome(401), FormOutcome::Show(FormMessage::InvalidCredentials));
    assert_eq!(create_user_form_outcome(500), FormOutcome::Show(FormMessage::ServerError));
}

#[test]
fn logout_reacts_to_status() {
    assert_eq!(logout_outcome(200), FormOutcome::Done);
    assert_eq!(logout_outcome(403), FormOutcome::Show(FormMessage::NotLoggedIn));
    assert_eq!(logout_outcome(500), FormOutcome::Show(FormMessage::ServerError));
    assert_eq!(logout_outcome(401), FormOutcome::Show(FormMessage::FrontendError));
}

#[test]
fn form_messages_text() {
    assert_eq!(FormMessage::InvalidCredentials.text(), "Invalid credentials");
    assert_eq!(FormMessage::NotLoggedIn.text(), "You are not logged in!");
    assert_eq!(FormMessage::ServerError.text(), "Internal server error");
    assert_eq!(FormMessage::FrontendError.text(), "Internal frontend error");
}

#[test]
fn admin_page_gating() {
    assert_eq!(admin_view(&None), AdminView::RedirectToLogin);
    let admin = CurrentUserResponse { username: "root".to_string(), admin: true };
    assert_eq!(admin_view(&Some(admin)), AdminView::CreateUserForm);
    let plain = CurrentUserResponse { username: "bob".to_string(), admin: false };
    assert_eq!(admin_view(&Some(plain)), AdminView::NotAdmin);
}

#[test]
fn login_body_holds_credentials() {
    let body = LoginBody { username: "alice".to_string(), password: "pw".to_string() };
    let copy = body.clone();
    assert_eq!(copy.username, "alice");
    assert_eq!(copy.password, "pw");
}
