//! Response deciding: each endpoint against mocked transport outcomes.

use sleepwatch_client::endpoint::{EndpointError, RawResponse, TransportError};
use sleepwatch_client::endpoints::{
    auth_check_response, auth_delete_other_tokens_response, auth_delete_token_response,
    auth_get_current_token_response, auth_get_token_response, auth_get_tokens_response,
    auth_login_response, auth_logout_response, auth_register_response, confirmation_succeeded,
    deletion_confirmed, login_succeeded, registration_confirm_response, registration_get_response,
    session_check_passed,
    AuthCheckResponse, AuthDeleteOtherTokensResponse, AuthDeleteTokenResponse,
    AuthGetCurrentTokenResponse, AuthGetTokenResponse, AuthGetTokensResponse, AuthLoginResponse,
    AuthLogoutResponse, AuthRegisterResponse, RegistrationConfirmResponse, RegistrationGetResponse,
};
use sleepwatch_client::types::{ConfirmationResult, RegistrationResult, Snowflake};

fn completed(status: u16, body: &str) -> Result<RawResponse, TransportError> {
    Ok(RawResponse { status, body: body.to_string() })
}

fn failed() -> Result<RawResponse, TransportError> {
    Err(TransportError { message: "connection refused".to_string() })
}

#[test]
fn check_declared_status_decodes() {
    let r = auth_check_response(completed(200, "{\"valid\":true}"));
    match r {
        Ok(AuthCheckResponse::Status200(c)) => assert!(c.valid),
        other => panic!("unexpected: {:?}", other),
    }
    let r = auth_check_response(completed(200, "{\"valid\":false}"));
    match r {
        Ok(AuthCheckResponse::Status200(c)) => assert!(!c.valid),
        other => panic!("unexpected: {:?}", other),
    }
}

#[test]
fn login_success_decodes_token() {
    let r = auth_login_response(completed(200, "{\"token\":\"abc\"}"));
    match r {
        Ok(AuthLoginResponse::Status200(t)) => assert_eq!(t.token, "abc"),
        other => panic!("unexpected: {:?}", other),
    }
}

#[test]
fn login_rejection_decodes_login_error() {
    // A 401 with an empty object decodes to the login-error variant; it
    // is a declared outcome, not a thrown error.
    let r = auth_login_response(completed(401, "{}"));
    assert!(matches!(r, Ok(AuthLoginResponse::Status401(_))));
}

#[test]
fn login_decisions() {
    let ok = auth_login_response(completed(200, "{\"token\":\"abc\"}"));
    assert!(login_succeeded(&ok));
    let rejected = auth_login_response(completed(401, "{}"));
    assert!(!login_succeeded(&rejected));
    let down = auth_login_response(failed());
    assert!(!login_succeeded(&down));
}

#[test]
fn current_token_decodes_nested_session_info() {
    let body = "{\"token\":{\"id\":42,\"expires\":1700000000},\
                 \"user\":{\"id\":7,\"username\":\"alice\"}}";
    let r = auth_get_current_token_response(completed(200, body));
    match r {
        Ok(AuthGetCurrentTokenResponse::Status200(info)) => {
            assert_eq!(info.token.id, Snowflake(42));
            assert_eq!(info.token.expires, 1_700_000_000);
            assert_eq!(info.user.id, Snowflake(7));
            assert_eq!(info.user.username, "alice");
        }
        other => panic!("unexpected: {:?}", other),
    }
}

#[test]
fn register_outcomes_decode() {
    let r = auth_register_response(completed(200, "{\"outcome\":\"accepted\",\"id\":9}"));
    assert!(matches!(
        r,
        Ok(AuthRegisterResponse::Status200(RegistrationResult::Accepted { id: Snowflake(9) }))
    ));
    let r = auth_register_response(completed(200, "{\"outcome\":\"pending\",\"id\":9}"));
    assert!(matches!(
        r,
        Ok(AuthRegisterResponse::Status200(RegistrationResult::AlreadyPending {
            id: Snowflake(9)
        }))
    ));
    let r = auth_register_response(completed(200, "{\"outcome\":\"database_error\"}"));
    assert!(matches!(
        r,
        Ok(AuthRegisterResponse::Status200(RegistrationResult::DatabaseError))
    ));
    let r = auth_register_response(completed(
        200,
        "{\"outcome\":\"captcha_failure\",\"error\":\"expired\"}",
    ));
    match r {
        Ok(AuthRegisterResponse::Status200(RegistrationResult::CaptchaFailure { error })) => {
            assert_eq!(error, "expired");
        }
        other => panic!("unexpected: {:?}", other),
    }
}

#[test]
fn logout_empty_body_is_unit_variant() {
    // The 204 mapping declares no body: an empty body must not be fed
    // to the JSON parser, and the call yields the unit-payload variant.
    let r = auth_logout_response(completed(204, ""));
    assert_eq!(r, Ok(AuthLogoutResponse::Status204));
}

#[test]
fn token_list_decodes() {
    let r = auth_get_tokens_response(completed(200, "[1,2,3]"));
    match r {
        Ok(AuthGetTokensResponse::Status200(ids)) => {
            assert_eq!(ids, vec![Snowflake(1), Snowflake(2), Snowflake(3)]);
        }
        other => panic!("unexpected: {:?}", other),
    }
    let r = auth_get_tokens_response(completed(200, "[]"));
    match r {
        Ok(AuthGetTokensResponse::Status200(ids)) => assert!(ids.is_empty()),
        other => panic!("unexpected: {:?}", other),
    }
}

#[test]
fn get_token_by_id_both_outcomes() {
    let body = "{\"token\":{\"id\":42,\"expires\":60},\"user\":{\"id\":7,\"username\":\"bob\"}}";
    let r = auth_get_token_response(completed(200, body));
    assert!(matches!(r, Ok(AuthGetTokenResponse::Status200(_))));
    let r = auth_get_token_response(completed(404, ""));
    assert_eq!(r, Ok(AuthGetTokenResponse::Status404));
}

#[test]
fn delete_twice_both_outcomes_confirm_deletion() {
    // First deletion: the server answers 204. Second deletion of the
    // same id: the session is already gone, the server answers 404.
    // Both are declared, successfully decoded outcomes, and the caller
    // is free to treat both as "deletion confirmed".
    let first = auth_delete_token_response(completed(204, ""));
    assert_eq!(first, Ok(AuthDeleteTokenResponse::Status204));
    assert!(deletion_confirmed(&first));

    let second = auth_delete_token_response(completed(404, ""));
    assert_eq!(second, Ok(AuthDeleteTokenResponse::Status404));
    assert!(deletion_confirmed(&second));

    let down = auth_delete_token_response(failed());
    assert!(!deletion_confirmed(&down));
}

#[test]
fn delete_other_tokens_decodes() {
    let r = auth_delete_other_tokens_response(completed(204, ""));
    assert_eq!(r, Ok(AuthDeleteOtherTokensResponse::Status204));
}

#[test]
fn registration_get_both_outcomes() {
    let r = registration_get_response(completed(200, "{\"id\":11,\"username\":\"carol\"}"));
    match r {
        Ok(RegistrationGetResponse::Status200(p)) => {
            assert_eq!(p.id, Snowflake(11));
            assert_eq!(p.username, "carol");
        }
        other => panic!("unexpected: {:?}", other),
    }
    let r = registration_get_response(completed(404, ""));
    assert_eq!(r, Ok(RegistrationGetResponse::Status404));
}

#[test]
fn registration_confirm_outcomes_decode() {
    let r = registration_confirm_response(completed(
        200,
        "{\"outcome\":\"confirmed\",\"token\":\"tkn\"}",
    ));
    match r {
        Ok(RegistrationConfirmResponse::Status200(ConfirmationResult::Confirmed { token })) => {
            assert_eq!(token, "tkn");
        }
        other => panic!("unexpected: {:?}", other),
    }
    assert!(confirmation_succeeded(&registration_confirm_response(completed(
        200,
        "{\"outcome\":\"confirmed\",\"token\":\"tkn\"}",
    ))));
    let r = registration_confirm_response(completed(200, "{\"outcome\":\"user_already_exists\"}"));
    assert_eq!(
        r,
        Ok(RegistrationConfirmResponse::Status200(ConfirmationResult::UserAlreadyExists))
    );
    assert!(!confirmation_succeeded(&r));
    let r = registration_confirm_response(completed(200, "{\"outcome\":\"database_error\"}"));
    assert!(!confirmation_succeeded(&r));
    let r = registration_confirm_response(completed(200, "{\"outcome\":\"confirm_error\"}"));
    assert_eq!(
        r,
        Ok(RegistrationConfirmResponse::Status200(
            ConfirmationResult::RegistrationConfirmError
        ))
    );
}

#[test]
fn undeclared_status_carries_exact_code_and_endpoint() {
    let r = auth_login_response(completed(500, "oops"));
    match r {
        Err(EndpointError::UnexpectedStatus { endpoint, status }) => {
            assert_eq!(endpoint, "auth_login");
            assert_eq!(status, 500);
        }
        other => panic!("unexpected: {:?}", other),
    }
    // 200 is not declared for logout: even a "success" status outside
    // the declared set is a protocol violation.
    let r = auth_logout_response(completed(200, ""));
    match r {
        Err(EndpointError::UnexpectedStatus { endpoint, status }) => {
            assert_eq!(endpoint, "auth_logout");
            assert_eq!(status, 200);
        }
        other => panic!("unexpected: {:?}", other),
    }
    let r = auth_check_response(completed(404, ""));
    match r {
        Err(EndpointError::UnexpectedStatus { endpoint, status }) => {
            assert_eq!(endpoint, "auth_check");
            assert_eq!(status, 404);
        }
        other => panic!("unexpected: {:?}", other),
    }
}

#[test]
fn transport_failure_is_transport_error() {
    assert!(matches!(auth_check_response(failed()), Err(EndpointError::Transport(_))));
    assert!(matches!(auth_login_response(failed()), Err(EndpointError::Transport(_))));
    assert!(matches!(auth_logout_response(failed()), Err(EndpointError::Transport(_))));
    assert!(matches!(auth_get_tokens_response(failed()), Err(EndpointError::Transport(_))));
    assert!(matches!(
        registration_confirm_response(failed()),
        Err(EndpointError::Transport(_))
    ));
    let e = auth_delete_token_response(failed());
    match e {
        Err(EndpointError::Transport(t)) => assert_eq!(t.message, "connection refused"),
        other => panic!("unexpected: {:?}", other),
    }
}

#[test]
fn malformed_body_is_decode_error() {
    let r = auth_login_response(completed(200, "not json"));
    assert!(matches!(r, Err(EndpointError::Decode { endpoint: "auth_login" })));
    // Valid JSON of the wrong shape is a decode error too.
    let r = auth_login_response(completed(200, "{}"));
    assert!(matches!(r, Err(EndpointError::Decode { endpoint: "auth_login" })));
    let r = auth_get_tokens_response(completed(200, "[1,\"x\"]"));
    assert!(matches!(r, Err(EndpointError::Decode { endpoint: "auth_get_tokens" })));
    let r = auth_check_response(completed(200, "{\"valid\":1}"));
    assert!(matches!(r, Err(EndpointError::Decode { endpoint: "auth_check" })));
}

#[test]
fn session_check_decision() {
    let valid = auth_check_response(completed(200, "{\"valid\":true}"));
    assert!(session_check_passed(&valid));
    let invalid = auth_check_response(completed(200, "{\"valid\":false}"));
    assert!(!session_check_passed(&invalid));
    let down = auth_check_response(failed());
    assert!(!session_check_passed(&down));
}

#[test]
fn numbers_outside_the_wire_model_fail_decoding() {
    // The protocol carries unsigned integers only: a negative or
    // fractional number cannot stand for an identifier.
    let r = auth_get_tokens_response(completed(200, "[-1]"));
    assert!(matches!(r, Err(EndpointError::Decode { .. })));
    let r = auth_get_tokens_response(completed(200, "[1.5]"));
    assert!(matches!(r, Err(EndpointError::Decode { .. })));
}

#[test]
fn extra_fields_are_ignored() {
    let r = auth_check_response(completed(200, "{\"valid\":true,\"since\":123}"));
    match r {
        Ok(AuthCheckResponse::Status200(c)) => assert!(c.valid),
        other => panic!("unexpected: {:?}", other),
    }
    let r = auth_login_response(completed(200, "{\"token\":\"abc\",\"note\":null}"));
    match r {
        Ok(AuthLoginResponse::Status200(t)) => assert_eq!(t.token, "abc"),
        other => panic!("unexpected: {:?}", other),
    }
}
