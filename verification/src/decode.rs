//! Reading typed payloads out of parsed JSON values.
//!
//! Each payload type has a specification-level decoder over
//! [`JsonValue`] and an executable decoder proved to agree with it.
//! A decoder returns `None` exactly where the value does not have the
//! payload's shape; nothing is coerced.

use vstd::prelude::*;

use crate::json::{obj_get, spec_obj_get, str_eq, JsonValue};
use crate::types::{
    CheckResult, ConfirmationResult, ConfirmationResultV, LoginError, PendingRegistration,
    PendingRegistrationV, RegistrationResult, RegistrationResultV, SessionToken, SessionTokenV,
    SleepState, Snowflake, TokenInfo, TokenInfoV, TokenRecord, UserRecord, UserRecordV,
};

verus! {

/// An executable decode agrees with its specification: it succeeds
/// exactly where the specification does, and the result's view is the
/// specified value.
pub open spec fn decoded<T: View>(r: Option<T>, s: Option<<T as View>::V>) -> bool {
    match r {
        Some(v) => s == Some(v@),
        None => s is None,
    }
}

/// The session-check payload: `{"valid": <bool>}`.
pub open spec fn spec_check_result(j: JsonValue) -> Option<CheckResult> {
    match j {
        JsonValue::Obj(entries) => match spec_obj_get(entries@, "valid"@) {
            Some(JsonValue::Bool(b)) => Some(CheckResult { valid: b }),
            _ => None,
        },
        _ => None,
    }
}

/// Decode the session-check payload.
pub fn check_result_from_json(j: &JsonValue) -> (r: Option<CheckResult>)
    ensures
        r == spec_check_result(*j),
{
    match j {
        JsonValue::Obj(entries) => match obj_get(entries, "valid") {
            Some(JsonValue::Bool(b)) => Some(CheckResult { valid: *b }),
            _ => None,
        },
        _ => None,
    }
}

/// The login-success payload: `{"token": <string>}`.
pub open spec fn spec_session_token(j: JsonValue) -> Option<SessionTokenV> {
    match j {
        JsonValue::Obj(entries) => match spec_obj_get(entries@, "token"@) {
            Some(JsonValue::Str(s)) => Some(SessionTokenV { token: s@ }),
            _ => None,
        },
        _ => None,
    }
}

/// Decode the login-success payload.
pub fn session_token_from_json(j: &JsonValue) -> (r: Option<SessionToken>)
    ensures
        decoded(r, spec_session_token(*j)),
{
    match j {
        JsonValue::Obj(entries) => match obj_get(entries, "token") {
            Some(JsonValue::Str(s)) => Some(SessionToken { token: s.clone() }),
            _ => None,
        },
        _ => None,
    }
}

/// The login-failure payload: any JSON object; its fields carry no
/// information for this client.
pub open spec fn spec_login_error(j: JsonValue) -> Option<LoginError> {
    match j {
        JsonValue::Obj(entries) => Some(LoginError {  }),
        _ => None,
    }
}

/// Decode the login-failure payload.
pub fn login_error_from_json(j: &JsonValue) -> (r: Option<LoginError>)
    ensures
        r == spec_login_error(*j),
{
    match j {
        JsonValue::Obj(_) => Some(LoginError {  }),
        _ => None,
    }
}

/// A token record: `{"id": <number>, "expires": <number>}`.
pub open spec fn spec_token_record(j: JsonValue) -> Option<TokenRecord> {
    match j {
        JsonValue::Obj(entries) => match (
            spec_obj_get(entries@, "id"@),
            spec_obj_get(entries@, "expires"@),
        ) {
            (Some(JsonValue::UInt(id)), Some(JsonValue::UInt(expires))) => Some(
                TokenRecord { id: Snowflake(id), expires },
            ),
            _ => None,
        },
        _ => None,
    }
}

/// Decode a token record.
pub fn token_record_from_json(j: &JsonValue) -> (r: Option<TokenRecord>)
    ensures
        r == spec_token_record(*j),
{
    match j {
        JsonValue::Obj(entries) => match (obj_get(entries, "id"), obj_get(entries, "expires")) {
            (Some(JsonValue::UInt(id)), Some(JsonValue::UInt(expires))) => Some(
                TokenRecord { id: Snowflake(*id), expires: *expires },
            ),
            _ => None,
        },
        _ => None,
    }
}

/// A user record: `{"id": <number>, "username": <string>}`.
pub open spec fn spec_user_record(j: JsonValue) -> Option<UserRecordV> {
    match j {
        JsonValue::Obj(entries) => match (
            spec_obj_get(entries@, "id"@),
            spec_obj_get(entries@, "username"@),
        ) {
            (Some(JsonValue::UInt(id)), Some(JsonValue::Str(username))) => Some(
                UserRecordV { id: Snowflake(id), username: username@ },
            ),
            _ => None,
        },
        _ => None,
    }
}

/// Decode a user record.
pub fn user_record_from_json(j: &JsonValue) -> (r: Option<UserRecord>)
    ensures
        decoded(r, spec_user_record(*j)),
{
    match j {
        JsonValue::Obj(entries) => match (obj_get(entries, "id"), obj_get(entries, "username")) {
            (Some(JsonValue::UInt(id)), Some(JsonValue::Str(username))) => Some(
                UserRecord { id: Snowflake(*id), username: username.clone() },
            ),
            _ => None,
        },
        _ => None,
    }
}

/// The session-info payload: `{"token": <token record>, "user": <user
/// record>}`.
pub open spec fn spec_token_info(j: JsonValue) -> Option<TokenInfoV> {
    match j {
        JsonValue::Obj(entries) => match (
            spec_obj_get(entries@, "token"@),
            spec_obj_get(entries@, "user"@),
        ) {
            (Some(tj), Some(uj)) => match (spec_token_record(tj), spec_user_record(uj)) {
                (Some(token), Some(user)) => Some(TokenInfoV { token, user }),
                _ => None,
            },
            _ => None,
        },
        _ => None,
    }
}

/// Decode the session-info payload.
pub fn token_info_from_json(j: &JsonValue) -> (r: Option<TokenInfo>)
    ensures
        decoded(r, spec_token_info(*j)),
{
    match j {
        JsonValue::Obj(entries) => match (obj_get(entries, "token"), obj_get(entries, "user")) {
            (Some(tj), Some(uj)) => match (token_record_from_json(tj), user_record_from_json(uj)) {
                (Some(token), Some(user)) => Some(TokenInfo { token, user }),
                _ => None,
            },
            _ => None,
        },
        _ => None,
    }
}

/// A list of identifiers, element by element; any element that is not
/// an unsigned number makes the whole list undecodable.
pub open spec fn spec_id_seq(elems: Seq<JsonValue>) -> Option<Seq<Snowflake>>
    decreases elems.len(),
{
    if elems.len() == 0 {
        Some(Seq::<Snowflake>::empty())
    } else {
        match elems[0] {
            JsonValue::UInt(u) => match spec_id_seq(elems.drop_first()) {
                Some(rest) => Some(seq![Snowflake(u)] + rest),
                None => None,
            },
            _ => None,
        }
    }
}

/// The session-list payload: a JSON array of identifiers.
pub open spec fn spec_id_list(j: JsonValue) -> Option<Seq<Snowflake>> {
    match j {
        JsonValue::Arr(elems) => spec_id_seq(elems@),
        _ => None,
    }
}

/// Decode the session-list payload.
pub fn id_list_from_json(j: &JsonValue) -> (r: Option<Vec<Snowflake>>)
    ensures
        match r {
            Some(ids) => spec_id_list(*j) == Some(ids@),
            None => spec_id_list(*j) is None,
        },
{
    match j {
        JsonValue::Arr(elems) => {
            let n = elems.len();
            let mut acc: Vec<Snowflake> = Vec::new();
            proof {
                assert(elems@.skip(0) =~= elems@);
            }
            for i in 0..n
                invariant
                    n == elems@.len(),
                    spec_id_list(*j) == spec_id_seq(elems@),
                    acc@.len() == i,
                    match spec_id_seq(elems@.skip(i as int)) {
                        Some(rest) => spec_id_seq(elems@) == Some(acc@ + rest),
                        None => spec_id_seq(elems@) is None,
                    },
            {
                let ghost rest = elems@.skip(i as int);
                proof {
                    assert(rest.len() > 0);
                    assert(rest[0] == elems@[i as int]);
                    assert(rest.drop_first() =~= elems@.skip(i as int + 1));
                }
                match &elems[i] {
                    JsonValue::UInt(u) => {
                        acc.push(Snowflake(*u));
                        proof {
                            if let Some(tail) = spec_id_seq(elems@.skip(i as int + 1)) {
                                assert(acc@ + tail =~= acc@.drop_last() + (seq![
                                    Snowflake(elems@[i as int]->UInt_0),
                                ] + tail));
                            }
                        }
                    },
                    _ => {
                        proof {
                            assert(spec_id_seq(elems@.skip(i as int)) is None);
                            assert(spec_id_list(*j) == spec_id_seq(elems@));
                        }
                        return None;
                    },
                }
            }
            proof {
                assert(elems@.skip(n as int) =~= Seq::<JsonValue>::empty());
                assert(acc@ + Seq::<Snowflake>::empty() =~= acc@);
            }
            Some(acc)
        },
        _ => None,
    }
}

/// A sleep record: `{"id": <number>, "start": <number>}`, with an
/// `end` number while the record is closed; an absent or null `end`
/// means the record is still open.
pub open spec fn spec_sleep_state(j: JsonValue) -> Option<SleepState> {
    match j {
        JsonValue::Obj(entries) => match (
            spec_obj_get(entries@, "id"@),
            spec_obj_get(entries@, "start"@),
        ) {
            (Some(JsonValue::UInt(id)), Some(JsonValue::UInt(start))) => match spec_obj_get(
                entries@,
                "end"@,
            ) {
                Some(JsonValue::UInt(end)) => Some(
                    SleepState { id: Snowflake(id), start, end: Some(end) },
                ),
                Some(JsonValue::Null) => Some(SleepState { id: Snowflake(id), start, end: None }),
                Some(_) => None,
                None => Some(SleepState { id: Snowflake(id), start, end: None }),
            },
            _ => None,
        },
        _ => None,
    }
}

/// Decode a sleep record.
pub fn sleep_state_from_json(j: &JsonValue) -> (r: Option<SleepState>)
    ensures
        r == spec_sleep_state(*j),
{
    match j {
        JsonValue::Obj(entries) => match (obj_get(entries, "id"), obj_get(entries, "start")) {
            (Some(JsonValue::UInt(id)), Some(JsonValue::UInt(start))) => match obj_get(
                entries,
                "end",
            ) {
                Some(JsonValue::UInt(end)) => Some(
                    SleepState { id: Snowflake(*id), start: *start, end: Some(*end) },
                ),
                Some(JsonValue::Null) => Some(
                    SleepState { id: Snowflake(*id), start: *start, end: None },
                ),
                Some(_) => None,
                None => Some(SleepState { id: Snowflake(*id), start: *start, end: None }),
            },
            _ => None,
        },
        _ => None,
    }
}

/// A list of sleep records, element by element; any element that is
/// not a sleep record makes the whole list undecodable.
pub open spec fn spec_sleep_seq(elems: Seq<JsonValue>) -> Option<Seq<SleepState>>
    decreases elems.len(),
{
    if elems.len() == 0 {
        Some(Seq::<SleepState>::empty())
    } else {
        match spec_sleep_state(elems[0]) {
            Some(st) => match spec_sleep_seq(elems.drop_first()) {
                Some(rest) => Some(seq![st] + rest),
                None => None,
            },
            None => None,
        }
    }
}

/// The sleep-list payload: a JSON array of sleep records.
pub open spec fn spec_sleep_list(j: JsonValue) -> Option<Seq<SleepState>> {
    match j {
        JsonValue::Arr(elems) => spec_sleep_seq(elems@),
        _ => None,
    }
}

/// Decode the sleep-list payload.
pub fn sleep_list_from_json(j: &JsonValue) -> (r: Option<Vec<SleepState>>)
    ensures
        match r {
            Some(states) => spec_sleep_list(*j) == Some(states@),
            None => spec_sleep_list(*j) is None,
        },
{
    match j {
        JsonValue::Arr(elems) => {
            let n = elems.len();
            let mut acc: Vec<SleepState> = Vec::new();
            proof {
                assert(elems@.skip(0) =~= elems@);
            }
            for i in 0..n
                invariant
                    n == elems@.len(),
                    spec_sleep_list(*j) == spec_sleep_seq(elems@),
                    match spec_sleep_seq(elems@.skip(i as int)) {
                        Some(rest) => spec_sleep_seq(elems@) == Some(acc@ + rest),
                        None => spec_sleep_seq(elems@) is None,
                    },
            {
                let ghost rest = elems@.skip(i as int);
                proof {
                    assert(rest.len() > 0);
                    assert(rest[0] == elems@[i as int]);
                    assert(rest.drop_first() =~= elems@.skip(i as int + 1));
                }
                match sleep_state_from_json(&elems[i]) {
                    Some(st) => {
                        let ghost prev = acc@;
                        acc.push(st);
                        proof {
                            if let Some(tail) = spec_sleep_seq(elems@.skip(i as int + 1)) {
                                assert(acc@ + tail =~= prev + (seq![st] + tail));
                            }
                        }
                    },
                    None => {
                        proof {
                            assert(spec_sleep_seq(elems@.skip(i as int)) is None);
                        }
                        return None;
                    },
                }
            }
            proof {
                assert(elems@.skip(n as int) =~= Seq::<JsonValue>::empty());
                assert(acc@ + Seq::<SleepState>::empty() =~= acc@);
            }
            Some(acc)
        },
        _ => None,
    }
}

/// The registration payload: `{"outcome": <string>, …}`, with an `id`
/// for the accepted and already-pending outcomes and an `error` for a
/// captcha failure.
pub open spec fn spec_registration_result(j: JsonValue) -> Option<RegistrationResultV> {
    match j {
        JsonValue::Obj(entries) => match spec_obj_get(entries@, "outcome"@) {
            Some(JsonValue::Str(outcome)) => if outcome@ == "accepted"@ {
                match spec_obj_get(entries@, "id"@) {
                    Some(JsonValue::UInt(id)) => Some(
                        RegistrationResultV::Accepted { id: Snowflake(id) },
                    ),
                    _ => None,
                }
            } else if outcome@ == "pending"@ {
                match spec_obj_get(entries@, "id"@) {
                    Some(JsonValue::UInt(id)) => Some(
                        RegistrationResultV::AlreadyPending { id: Snowflake(id) },
                    ),
                    _ => None,
                }
            } else if outcome@ == "database_error"@ {
                Some(RegistrationResultV::DatabaseError)
            } else if outcome@ == "captcha_failure"@ {
                match spec_obj_get(entries@, "error"@) {
                    Some(JsonValue::Str(error)) => Some(
                        RegistrationResultV::CaptchaFailure { error: error@ },
                    ),
                    _ => None,
                }
            } else {
                None
            },
            _ => None,
        },
        _ => None,
    }
}

/// Decode the registration payload.
pub fn registration_result_from_json(j: &JsonValue) -> (r: Option<RegistrationResult>)
    ensures
        decoded(r, spec_registration_result(*j)),
{
    match j {
        JsonValue::Obj(entries) => match obj_get(entries, "outcome") {
            Some(JsonValue::Str(outcome)) => if str_eq(outcome.as_str(), "accepted") {
                match obj_get(entries, "id") {
                    Some(JsonValue::UInt(id)) => Some(
                        RegistrationResult::Accepted { id: Snowflake(*id) },
                    ),
                    _ => None,
                }
            } else if str_eq(outcome.as_str(), "pending") {
                match obj_get(entries, "id") {
                    Some(JsonValue::UInt(id)) => Some(
                        RegistrationResult::AlreadyPending { id: Snowflake(*id) },
                    ),
                    _ => None,
                }
            } else if str_eq(outcome.as_str(), "database_error") {
                Some(RegistrationResult::DatabaseError)
            } else if str_eq(outcome.as_str(), "captcha_failure") {
                match obj_get(entries, "error") {
                    Some(JsonValue::Str(error)) => Some(
                        RegistrationResult::CaptchaFailure { error: error.clone() },
                    ),
                    _ => None,
                }
            } else {
                None
            },
            _ => None,
        },
        _ => None,
    }
}

/// The pending-registration payload: `{"id": <number>, "username":
/// <string>}`.
pub open spec fn spec_pending_registration(j: JsonValue) -> Option<PendingRegistrationV> {
    match j {
        JsonValue::Obj(entries) => match (
            spec_obj_get(entries@, "id"@),
            spec_obj_get(entries@, "username"@),
        ) {
            (Some(JsonValue::UInt(id)), Some(JsonValue::Str(username))) => Some(
                PendingRegistrationV { id: Snowflake(id), username: username@ },
            ),
            _ => None,
        },
        _ => None,
    }
}

/// Decode the pending-registration payload.
pub fn pending_registration_from_json(j: &JsonValue) -> (r: Option<PendingRegistration>)
    ensures
        decoded(r, spec_pending_registration(*j)),
{
    match j {
        JsonValue::Obj(entries) => match (obj_get(entries, "id"), obj_get(entries, "username")) {
            (Some(JsonValue::UInt(id)), Some(JsonValue::Str(username))) => Some(
                PendingRegistration { id: Snowflake(*id), username: username.clone() },
            ),
            _ => None,
        },
        _ => None,
    }
}

/// The confirmation payload: `{"outcome": <string>, ...}`, with the
/// fresh session token when the registration is confirmed.
pub open spec fn spec_confirmation_result(j: JsonValue) -> Option<ConfirmationResultV> {
    match j {
        JsonValue::Obj(entries) => match spec_obj_get(entries@, "outcome"@) {
            Some(JsonValue::Str(outcome)) => if outcome@ == "confirmed"@ {
                match spec_obj_get(entries@, "token"@) {
                    Some(JsonValue::Str(token)) => Some(
                        ConfirmationResultV::Confirmed { token: token@ },
                    ),
                    _ => None,
                }
            } else if outcome@ == "database_error"@ {
                Some(ConfirmationResultV::DatabaseError)
            } else if outcome@ == "confirm_error"@ {
                Some(ConfirmationResultV::RegistrationConfirmError)
            } else if outcome@ == "user_already_exists"@ {
                Some(ConfirmationResultV::UserAlreadyExists)
            } else {
                None
            },
            _ => None,
        },
        _ => None,
    }
}

/// Decode the confirmation payload.
pub fn confirmation_result_from_json(j: &JsonValue) -> (r: Option<ConfirmationResult>)
    ensures
        decoded(r, spec_confirmation_result(*j)),
{
    match j {
        JsonValue::Obj(entries) => match obj_get(entries, "outcome") {
            Some(JsonValue::Str(outcome)) => if str_eq(outcome.as_str(), "confirmed") {
                match obj_get(entries, "token") {
                    Some(JsonValue::Str(token)) => Some(
                        ConfirmationResult::Confirmed { token: token.clone() },
                    ),
                    _ => None,
                }
            } else if str_eq(outcome.as_str(), "database_error") {
                Some(ConfirmationResult::DatabaseError)
            } else if str_eq(outcome.as_str(), "confirm_error") {
                Some(ConfirmationResult::RegistrationConfirmError)
            } else if str_eq(outcome.as_str(), "user_already_exists") {
                Some(ConfirmationResult::UserAlreadyExists)
            } else {
                None
            },
            _ => None,
        },
        _ => None,
    }
}

} // verus!
