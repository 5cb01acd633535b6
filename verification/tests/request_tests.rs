//! Request building: URLs, path-fragment substitution, and the JSON
//! bodies, checked character for character and against a reference
//! JSON parser.

use sleepwatch_client::endpoint::Method;
use sleepwatch_client::endpoints::{
    auth_check_request, auth_delete_other_tokens_request, auth_delete_token_request,
    auth_get_current_token_request, auth_get_token_request, auth_get_tokens_request,
    auth_login_request, auth_logout_request, auth_register_request, registration_confirm_request,
    registration_get_request,
};
use sleepwatch_client::types::{
    ConfirmationToken, LoginCredentials, RegistrationDetails, Snowflake,
};
use sleepwatch_client::wire::u64_to_dec;
use sleepwatch_client::API_URL;

#[test]
fn path_fragment_substitution_is_exact() {
    // Template `auth/token/by_id/{id}` with id 12345.
    let r = auth_get_token_request(Snowflake(12345));
    assert_eq!(r.url, format!("{}auth/token/by_id/12345", API_URL));
    assert_eq!(r.url, "http://localhost:3000/v1/auth/token/by_id/12345");
}

#[test]
fn urls_prefix_the_base_address() {
    assert_eq!(auth_check_request().url, format!("{}auth/check", API_URL));
    assert_eq!(auth_get_current_token_request().url, format!("{}auth/token/@me", API_URL));
    assert_eq!(auth_logout_request().url, format!("{}auth/token/@me", API_URL));
    assert_eq!(auth_get_tokens_request().url, format!("{}auth/token/list", API_URL));
    assert_eq!(auth_delete_other_tokens_request().url, format!("{}auth/token/list", API_URL));
    assert_eq!(
        auth_delete_token_request(Snowflake(7)).url,
        format!("{}auth/token/by_id/7", API_URL)
    );
    assert_eq!(
        registration_get_request(Snowflake(88)).url,
        format!("{}auth/registration/88", API_URL)
    );
    let token = ConfirmationToken { token: "t".to_string() };
    assert_eq!(
        registration_confirm_request(Snowflake(88), &token).url,
        format!("{}auth/registration/88/confirm", API_URL)
    );
}

#[test]
fn methods_and_credentials() {
    assert_eq!(auth_check_request().method, Method::Get);
    assert_eq!(auth_logout_request().method, Method::Delete);
    assert_eq!(auth_delete_token_request(Snowflake(1)).method, Method::Delete);
    let creds = LoginCredentials { login: "a".to_string(), password: "b".to_string() };
    assert_eq!(auth_login_request(&creds).method, Method::Post);
    // Every request is sent with stored credentials included.
    assert!(auth_check_request().include_credentials);
    assert!(auth_login_request(&creds).include_credentials);
    assert!(auth_logout_request().include_credentials);
    assert!(auth_delete_token_request(Snowflake(1)).include_credentials);
    // Bodiless endpoints carry no body.
    assert!(auth_check_request().body.is_none());
    assert!(auth_logout_request().body.is_none());
    assert!(auth_get_token_request(Snowflake(1)).body.is_none());
}

#[test]
fn method_names() {
    assert_eq!(Method::Get.as_str(), "GET");
    assert_eq!(Method::Post.as_str(), "POST");
    assert_eq!(Method::Delete.as_str(), "DELETE");
}

#[test]
fn login_body_is_exact_json() {
    let creds = LoginCredentials {
        login: "alice".to_string(),
        password: "hunter2".to_string(),
    };
    let r = auth_login_request(&creds);
    assert_eq!(r.body.as_deref(), Some("{\"login\":\"alice\",\"password\":\"hunter2\"}"));
}

#[test]
fn register_body_is_exact_json() {
    let details = RegistrationDetails {
        username: "carol".to_string(),
        email: "carol@example.org".to_string(),
        password: "pw".to_string(),
        hcaptcha_response: "h".to_string(),
    };
    let r = auth_register_request(&details);
    assert_eq!(
        r.body.as_deref(),
        Some(
            "{\"username\":\"carol\",\"email\":\"carol@example.org\",\
             \"password\":\"pw\",\"hcaptcha_response\":\"h\"}"
        )
    );
}

#[test]
fn confirm_body_is_exact_json() {
    let token = ConfirmationToken { token: "abc".to_string() };
    let r = registration_confirm_request(Snowflake(1), &token);
    assert_eq!(r.body.as_deref(), Some("{\"token\":\"abc\"}"));
}

#[test]
fn body_escaping_agrees_with_a_reference_parser() {
    // Credentials full of characters that need escaping must come back
    // unchanged through an independent JSON parser.
    let creds = LoginCredentials {
        login: "a\"b\\c".to_string(),
        password: "line1\nline2\ttab\rret\u{1}ctl".to_string(),
    };
    let r = auth_login_request(&creds);
    let body = r.body.unwrap();
    let v: serde_json::Value = serde_json::from_str(&body).unwrap();
    assert_eq!(v["login"].as_str(), Some("a\"b\\c"));
    assert_eq!(v["password"].as_str(), Some("line1\nline2\ttab\rret\u{1}ctl"));
}

#[test]
fn escaped_body_is_character_exact() {
    let creds = LoginCredentials {
        login: "q\"q".to_string(),
        password: "b\\n\n".to_string(),
    };
    let r = auth_login_request(&creds);
    assert_eq!(
        r.body.as_deref(),
        Some("{\"login\":\"q\\\"q\",\"password\":\"b\\\\n\\n\"}")
    );
}

#[test]
fn decimal_rendering() {
    assert_eq!(u64_to_dec(0), "0");
    assert_eq!(u64_to_dec(9), "9");
    assert_eq!(u64_to_dec(10), "10");
    assert_eq!(u64_to_dec(12345), "12345");
    assert_eq!(u64_to_dec(u64::MAX), "18446744073709551615");
}

#[test]
fn snowflake_path_fragment() {
    assert_eq!(Snowflake(0).to_path_fragment(), "0");
    assert_eq!(Snowflake(12345).to_path_fragment(), "12345");
    assert_eq!(Snowflake(u64::MAX).to_path_fragment(), "18446744073709551615");
}
