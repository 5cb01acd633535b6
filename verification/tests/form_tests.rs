//! Form validation, form-to-request conversions, and the style options.

use sleepwatch_client::style::{Color, Size};
use sleepwatch_client::types::{
    validate_email, validate_password, validate_user, LoginCredentials, LoginInfo, RegisterError,
    RegisterInfo, RegistrationDetails,
};

fn info(username: &str, email: &str, password: &str) -> RegisterInfo {
    RegisterInfo {
        username: username.to_string(),
        email: email.to_string(),
        password: password.to_string(),
        hcaptcha_response: "h".to_string(),
    }
}

#[test]
fn username_and_password_must_be_nonempty() {
    assert!(validate_user(&info("alice", "a@b", "pw")));
    assert!(!validate_user(&info("", "a@b", "pw")));
    assert!(validate_password(&info("alice", "a@b", "pw")));
    assert!(!validate_password(&info("alice", "a@b", "")));
}

#[test]
fn email_needs_exactly_one_at_sign_inside() {
    assert!(validate_email(&info("u", "a@b", "p")));
    assert!(validate_email(&info("u", "carol@example.org", "p")));
    assert!(!validate_email(&info("u", "", "p")));
    assert!(!validate_email(&info("u", "ab", "p")));
    assert!(!validate_email(&info("u", "@b", "p")));
    assert!(!validate_email(&info("u", "a@", "p")));
    assert!(!validate_email(&info("u", "a@b@c", "p")));
    assert!(!validate_email(&info("u", "@", "p")));
}

#[test]
fn registration_details_from_form() {
    let ok = RegistrationDetails::try_from_info(info("carol", "carol@example.org", "pw"));
    match ok {
        Ok(d) => {
            assert_eq!(d.username, "carol");
            assert_eq!(d.email, "carol@example.org");
            assert_eq!(d.password, "pw");
            assert_eq!(d.hcaptcha_response, "h");
        }
        Err(_) => panic!("a valid form must convert"),
    }
    let bad = RegistrationDetails::try_from_info(info("carol", "not-an-email", "pw"));
    assert!(matches!(bad, Err(RegisterError::EmailNotValid)));
}

#[test]
fn login_credentials_from_form() {
    let form = LoginInfo { login: "alice".to_string(), password: "hunter2".to_string() };
    let creds = LoginCredentials::from_login_info(form);
    assert_eq!(creds.login, "alice");
    assert_eq!(creds.password, "hunter2");
}

#[test]
fn color_names() {
    assert_eq!(Color::Primary.name(), "primary");
    assert_eq!(Color::Secondary.name(), "secondary");
    assert_eq!(Color::Success.name(), "success");
    assert_eq!(Color::Danger.name(), "danger");
    assert_eq!(Color::Warning.name(), "warning");
    assert_eq!(Color::Info.name(), "info");
    assert_eq!(Color::default(), Color::Primary);
}

#[test]
fn size_names_and_classes() {
    assert_eq!(Size::Small.name(), "sm");
    assert_eq!(Size::Default.name(), "");
    assert_eq!(Size::Large.name(), "lg");
    assert_eq!(Size::Small.class("btn"), "btn-sm");
    assert_eq!(Size::Default.class("btn"), "btn");
    assert_eq!(Size::Large.class("btn"), "btn-lg");
    assert_eq!(Size::default(), Size::Default);
}
