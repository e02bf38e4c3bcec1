use movey::emails::{SendContactEmail, SendContactRequestEmail, SendOwnershipTransferEmail};
use movey::pages::{
    contact_email, home_redirect, logged_in_reply, package_page_path, password_change_reply, user_not_found_text,
    LoggedInUser, MeReply, PasswordChange, ProfileReply, Value,
};

#[test]
fn the_remember_me_cookie_is_expired() {
    assert_eq!(
        Value::RememberMeTokenInvalidate.header_value(),
        "remember_me_token=\"\"; path=/; expires=Thu, 01 Jan 1970 00:00:00 GMT"
    );
}

#[test]
fn a_changed_password_signs_out_with_a_message() {
    match password_change_reply(true, PasswordChange::Changed) {
        ProfileReply::Redirect { cookies, location } => {
            assert_eq!(
                cookies,
                vec![
                    "remember_me_token=\"\"; path=/; expires=Thu, 01 Jan 1970 00:00:00 GMT".to_string(),
                    "flash=Change password successfully; path=/; Max-Age=10".to_string(),
                ]
            );
            assert_eq!(location, "/accounts/login/");
        }
        _ => panic!("expected a redirect"),
    }
}

#[test]
fn a_failed_password_change_shows_why() {
    match password_change_reply(true, PasswordChange::WrongPassword) {
        ProfileReply::ShowError(m) => assert_eq!(m, "Wrong password. Try again!"),
        _ => panic!("expected an error"),
    }
    match password_change_reply(true, PasswordChange::Failed) {
        ProfileReply::ShowError(m) => assert_eq!(m, "Unexpected error. Try again!"),
        _ => panic!("expected an error"),
    }
    assert!(matches!(password_change_reply(false, PasswordChange::Changed), ProfileReply::ShowForm));
}

#[test]
fn pages_without_a_user_say_so() {
    assert_eq!(user_not_found_text(), "Cannot find user");
}

#[test]
fn the_contact_form_hides_made_up_addresses() {
    assert_eq!(contact_email("me@x.io", "noreply.movey.net"), "me@x.io");
    assert_eq!(contact_email("octocat@noreply.movey.net", "noreply.movey.net"), "");
}

#[test]
fn the_old_host_is_redirected_home() {
    assert_eq!(home_redirect("www.movey.org", None), Some("https://www.movey.net".to_string()));
    assert_eq!(home_redirect("www.movey.net", None), None);
    assert_eq!(home_redirect("old.example", Some("old.example")), Some("https://www.movey.net".to_string()));
    assert_eq!(home_redirect("www.movey.org", Some("old.example")), None);
}

#[test]
fn a_package_page_is_under_packages() {
    assert_eq!(package_page_path("move-stdlib"), "/packages/move-stdlib");
}

#[test]
fn emails_know_their_templates_subjects_and_links() {
    let transfer = SendOwnershipTransferEmail {
        to: "a@x.io".to_string(),
        package_name: "move-stdlib".to_string(),
        token: "t0k3n".to_string(),
    };
    assert_eq!(transfer.template(), "email/transfer-ownership");
    assert_eq!(transfer.accept_url("https://movey.net"), "https://movey.net/collaborators/accept/t0k3n");
    assert_eq!(transfer.subject(), "You have been invited to be the owner of package move-stdlib");
    let request = SendContactRequestEmail {
        to: "admin@x.io".to_string(),
        name: "Ann".to_string(),
        email: "ann@x.io".to_string(),
        description: "hello".to_string(),
        category: "bug".to_string(),
    };
    assert_eq!(request.template(), "email/contact-request-to-Movey");
    assert_eq!(request.subject(Some("STAGING")), "[STAGING] New Contact Request");
    assert_eq!(request.subject(None), "[] New Contact Request");
    let thanks = SendContactEmail { to: "ann@x.io".to_string() };
    assert_eq!(thanks.template(), "email/contact-request");
    assert_eq!(thanks.subject(), "Thank you for contacting us");
}

#[test]
fn the_signed_in_user_is_described_or_forgotten() {
    match logged_in_reply(None) {
        MeReply::Nobody { cookie, body } => {
            assert_eq!(cookie, "remember_me_token=\"\"; path=/; expires=Thu, 01 Jan 1970 00:00:00 GMT");
            assert_eq!(body, "{}");
        }
        _ => panic!("expected nobody"),
    }
    let user = LoggedInUser { id: 1, name: "Ann".to_string(), email: "ann@x.io".to_string(), avatar: None };
    match logged_in_reply(Some(user)) {
        MeReply::User(u) => {
            assert_eq!(u.id, 1);
            assert_eq!(u.email, "ann@x.io");
        }
        _ => panic!("expected the user"),
    }
}

#[test]
fn the_remember_me_cookie_names_an_account() {
    assert_eq!(movey::pages::remember_me_uid("uid=42"), Some(42));
    assert_eq!(movey::pages::remember_me_uid("a=b=7"), None);
    assert_eq!(movey::pages::remember_me_uid("=-3"), Some(-3));
    assert_eq!(movey::pages::remember_me_uid("42"), None);
    assert_eq!(movey::pages::remember_me_uid("uid="), None);
}
