//! The declared endpoints of the API, one typed wrapper pair each: a
//! request builder that renders the envelope to hand to the transport,
//! and a response decider that turns the raw transport outcome into the
//! endpoint's tagged result or a typed error.
//!
//! Every decider's contract ties its result to
//! [`spec_endpoint_result`](crate::endpoint::spec_endpoint_result) over
//! the endpoint's declared mappings, so the shared laws of the core
//! apply to each endpoint verbatim.

use vstd::prelude::*;

use crate::endpoint::{
    classify_response, decode_check_body, decode_confirmation_body, decode_id_list_body,
    decode_login_failure_body, decode_pending_body, decode_registration_body,
    decode_session_body, decode_token_body, endpoint_url, lemma_status_index, spec_render_path,
    spec_url, EndpointDef, EndpointError, Method, PathSeg, PayloadKind, PayloadV, RawResponse,
    RequestEnvelope, StatusMapping, TransportError,
};
use crate::endpoint::{spec_endpoint_result, spec_holes, view_raw};
use crate::types::{
    CheckResult, ConfirmationResult, ConfirmationToken, LoginCredentials, LoginError,
    PendingRegistration, RegistrationDetails, RegistrationResult, SessionToken, Snowflake,
    TokenInfo,
};
use crate::wire::{
    confirmation_token_json, dec_digits, login_credentials_json, registration_details_json,
};

verus! {

pub(crate) proof fn lemma_render_single_lit(segs: Seq<PathSeg>, lit: Seq<char>)
    requires
        segs.len() == 1,
        (segs[0] matches PathSeg::Lit(s) && s@ == lit),
    ensures
        spec_holes(segs) == 0,
        spec_render_path(segs, Seq::<Seq<char>>::empty()) == lit,
{
    reveal_with_fuel(spec_holes, 2);
    reveal_with_fuel(spec_render_path, 2);
    assert(segs.drop_first() =~= Seq::<PathSeg>::empty());
    assert(lit + Seq::<char>::empty() =~= lit);
}

pub(crate) proof fn lemma_render_lit_hole(segs: Seq<PathSeg>, lit: Seq<char>, frag: Seq<char>)
    requires
        segs.len() == 2,
        (segs[0] matches PathSeg::Lit(s) && s@ == lit),
        segs[1] is Hole,
    ensures
        spec_holes(segs) == 1,
        spec_render_path(segs, seq![frag]) == lit + frag,
{
    reveal_with_fuel(spec_holes, 3);
    reveal_with_fuel(spec_render_path, 3);
    let rest = segs.drop_first();
    assert(rest[0] == segs[1]);
    assert(rest.drop_first() =~= Seq::<PathSeg>::empty());
    assert(seq![frag].drop_first() =~= Seq::<Seq<char>>::empty());
    assert(spec_render_path(segs, seq![frag]) =~= lit + frag);
}

proof fn lemma_render_lit_hole_lit(segs: Seq<PathSeg>, lit1: Seq<char>, frag: Seq<char>, lit2: Seq<char>)
    requires
        segs.len() == 3,
        (segs[0] matches PathSeg::Lit(s) && s@ == lit1),
        segs[1] is Hole,
        (segs[2] matches PathSeg::Lit(s) && s@ == lit2),
    ensures
        spec_holes(segs) == 1,
        spec_render_path(segs, seq![frag]) == lit1 + frag + lit2,
{
    reveal_with_fuel(spec_holes, 4);
    reveal_with_fuel(spec_render_path, 4);
    let rest = segs.drop_first();
    let rest2 = rest.drop_first();
    assert(rest[0] == segs[1]);
    assert(rest2[0] == segs[2]);
    assert(rest2.drop_first() =~= Seq::<PathSeg>::empty());
    assert(seq![frag].drop_first() =~= Seq::<Seq<char>>::empty());
    assert(spec_render_path(segs, seq![frag]) =~= lit1 + frag + lit2);
}

/// The declared mappings of the session-check endpoint.
pub open spec fn auth_check_mappings() -> Seq<StatusMapping> {
    seq![StatusMapping { status: 200, payload: PayloadKind::Check }]
}

/// The session-check endpoint: `GET auth/check`.
pub fn auth_check_def() -> (d: EndpointDef)
    ensures
        d.name@ == "auth_check"@,
        d.method == Method::Get,
        d.path@.len() == 1,
        (d.path@[0] matches PathSeg::Lit(s) && s@ == "auth/check"@),
        d.mappings@ == auth_check_mappings(),
        d.wf(),
{
    let mut path: Vec<PathSeg> = Vec::new();
    path.push(PathSeg::Lit("auth/check"));
    let mut mappings: Vec<StatusMapping> = Vec::new();
    mappings.push(StatusMapping { status: 200, payload: PayloadKind::Check });
    proof {
        assert(mappings@ =~= auth_check_mappings());
    }
    EndpointDef { name: "auth_check", method: Method::Get, path, mappings }
}

/// Build the session-check request.
pub fn auth_check_request() -> (r: RequestEnvelope)
    ensures
        r.method == Method::Get,
        r.url@ == spec_url("auth/check"@),
        r.body is None,
        r.include_credentials,
{
    let d = auth_check_def();
    let frags: Vec<String> = Vec::new();
    proof {
        lemma_render_single_lit(d.path@, "auth/check"@);
        assert(frags@.map_values(|s: String| s@) =~= Seq::<Seq<char>>::empty());
    }
    let url = endpoint_url(&d.path, &frags);
    RequestEnvelope { url, method: d.method, body: None, include_credentials: true }
}

/// The tagged outcomes the session-check endpoint declares.
#[derive(Debug, Clone, Copy, PartialEq, Eq, Structural)]
pub enum AuthCheckResponse {
    Status200(CheckResult),
}

/// The tagged outcome a dispatch pair stands for, for the session-check
/// endpoint.
pub open spec fn auth_check_outcome(o: (u16, PayloadV), r: AuthCheckResponse) -> bool {
    match r {
        AuthCheckResponse::Status200(c) => o == (200u16, PayloadV::Check(c)),
    }
}

/// Decide the session-check call from its raw transport outcome.
pub fn auth_check_response(raw: Result<RawResponse, TransportError>) -> (r: Result<
    AuthCheckResponse,
    EndpointError,
>)
    ensures
        ({
            let s = spec_endpoint_result("auth_check"@, auth_check_mappings(), view_raw(raw));
            match r {
                Ok(out) => s matches Ok(o) && auth_check_outcome(o, out),
                Err(e) => s matches Err(ev) && ev == e@,
            }
        }),
{
    let d = auth_check_def();
    match classify_response(d.name, &d.mappings, raw) {
        Err(e) => Err(e),
        Ok((_, resp)) => {
            proof {
                lemma_status_index(d.mappings@, resp.status);
            }
            match decode_check_body(resp.body.as_str()) {
                Some(c) => Ok(AuthCheckResponse::Status200(c)),
                None => Err(EndpointError::Decode { endpoint: d.name }),
            }
        },
    }
}

/// The declared mappings of the login endpoint.
pub open spec fn auth_login_mappings() -> Seq<StatusMapping> {
    seq![
        StatusMapping { status: 200, payload: PayloadKind::Token },
        StatusMapping { status: 401, payload: PayloadKind::LoginFailure },
    ]
}

/// The login endpoint: `POST auth/login` with the credentials as body.
pub fn auth_login_def() -> (d: EndpointDef)
    ensures
        d.name@ == "auth_login"@,
        d.method == Method::Post,
        d.path@.len() == 1,
        (d.path@[0] matches PathSeg::Lit(s) && s@ == "auth/login"@),
        d.mappings@ == auth_login_mappings(),
        d.wf(),
{
    let mut path: Vec<PathSeg> = Vec::new();
    path.push(PathSeg::Lit("auth/login"));
    let mut mappings: Vec<StatusMapping> = Vec::new();
    mappings.push(StatusMapping { status: 200, payload: PayloadKind::Token });
    mappings.push(StatusMapping { status: 401, payload: PayloadKind::LoginFailure });
    proof {
        assert(mappings@ =~= auth_login_mappings());
    }
    EndpointDef { name: "auth_login", method: Method::Post, path, mappings }
}

/// Build the login request: the credentials, serialized, as the body.
pub fn auth_login_request(creds: &LoginCredentials) -> (r: RequestEnvelope)
    ensures
        r.method == Method::Post,
        r.url@ == spec_url("auth/login"@),
        (r.body matches Some(b) && b@ == login_credentials_json(creds@)),
        r.include_credentials,
{
    let d = auth_login_def();
    let frags: Vec<String> = Vec::new();
    proof {
        lemma_render_single_lit(d.path@, "auth/login"@);
        assert(frags@.map_values(|s: String| s@) =~= Seq::<Seq<char>>::empty());
    }
    let url = endpoint_url(&d.path, &frags);
    RequestEnvelope {
        url,
        method: d.method,
        body: Some(creds.to_json()),
        include_credentials: true,
    }
}

/// The tagged outcomes the login endpoint declares.
#[derive(Debug, Clone, PartialEq, Eq)]
pub enum AuthLoginResponse {
    Status200(SessionToken),
    Status401(LoginError),
}

/// The tagged outcome a dispatch pair stands for, for the login
/// endpoint.
pub open spec fn auth_login_outcome(o: (u16, PayloadV), r: AuthLoginResponse) -> bool {
    match r {
        AuthLoginResponse::Status200(t) => o == (200u16, PayloadV::Token(t@)),
        AuthLoginResponse::Status401(e) => o == (401u16, PayloadV::LoginFailure(e)),
    }
}

/// Decide the login call from its raw transport outcome.
pub fn auth_login_response(raw: Result<RawResponse, TransportError>) -> (r: Result<
    AuthLoginResponse,
    EndpointError,
>)
    ensures
        ({
            let s = spec_endpoint_result("auth_login"@, auth_login_mappings(), view_raw(raw));
            match r {
                Ok(out) => s matches Ok(o) && auth_login_outcome(o, out),
                Err(e) => s matches Err(ev) && ev == e@,
            }
        }),
{
    let d = auth_login_def();
    match classify_response(d.name, &d.mappings, raw) {
        Err(e) => Err(e),
        Ok((i, resp)) => {
            proof {
                lemma_status_index(d.mappings@, resp.status);
            }
            if i == 0 {
                match decode_token_body(resp.body.as_str()) {
                    Some(t) => Ok(AuthLoginResponse::Status200(t)),
                    None => Err(EndpointError::Decode { endpoint: d.name }),
                }
            } else {
                match decode_login_failure_body(resp.body.as_str()) {
                    Some(e) => Ok(AuthLoginResponse::Status401(e)),
                    None => Err(EndpointError::Decode { endpoint: d.name }),
                }
            }
        },
    }
}

/// The login flow's decision: the caller moves on to the dashboard only
/// when the call decoded to a successful login.
pub fn login_succeeded(r: &Result<AuthLoginResponse, EndpointError>) -> (b: bool)
    ensures
        b == (r matches Ok(AuthLoginResponse::Status200(_))),
{
    match r {
        Ok(AuthLoginResponse::Status200(_)) => true,
        _ => false,
    }
}

/// The declared mappings of the current-token endpoint.
pub open spec fn auth_get_current_token_mappings() -> Seq<StatusMapping> {
    seq![StatusMapping { status: 200, payload: PayloadKind::Session }]
}

/// The current-token endpoint: `GET auth/token/@me`.
pub fn auth_get_current_token_def() -> (d: EndpointDef)
    ensures
        d.name@ == "auth_get_current_token"@,
        d.method == Method::Get,
        d.path@.len() == 1,
        (d.path@[0] matches PathSeg::Lit(s) && s@ == "auth/token/@me"@),
        d.mappings@ == auth_get_current_token_mappings(),
        d.wf(),
{
    let mut path: Vec<PathSeg> = Vec::new();
    path.push(PathSeg::Lit("auth/token/@me"));
    let mut mappings: Vec<StatusMapping> = Vec::new();
    mappings.push(StatusMapping { status: 200, payload: PayloadKind::Session });
    proof {
        assert(mappings@ =~= auth_get_current_token_mappings());
    }
    EndpointDef { name: "auth_get_current_token", method: Method::Get, path, mappings }
}

/// Build the current-token request.
pub fn auth_get_current_token_request() -> (r: RequestEnvelope)
    ensures
        r.method == Method::Get,
        r.url@ == spec_url("auth/token/@me"@),
        r.body is None,
        r.include_credentials,
{
    let d = auth_get_current_token_def();
    let frags: Vec<String> = Vec::new();
    proof {
        lemma_render_single_lit(d.path@, "auth/token/@me"@);
        assert(frags@.map_values(|s: String| s@) =~= Seq::<Seq<char>>::empty());
    }
    let url = endpoint_url(&d.path, &frags);
    RequestEnvelope { url, method: d.method, body: None, include_credentials: true }
}

/// The tagged outcomes the current-token endpoint declares.
#[derive(Debug, Clone, PartialEq, Eq)]
pub enum AuthGetCurrentTokenResponse {
    Status200(TokenInfo),
}

/// The tagged outcome a dispatch pair stands for, for the current-token
/// endpoint.
pub open spec fn auth_get_current_token_outcome(
    o: (u16, PayloadV),
    r: AuthGetCurrentTokenResponse,
) -> bool {
    match r {
        AuthGetCurrentTokenResponse::Status200(t) => o == (200u16, PayloadV::Session(t@)),
    }
}

/// Decide the current-token call from its raw transport outcome.
pub fn auth_get_current_token_response(raw: Result<RawResponse, TransportError>) -> (r: Result<
    AuthGetCurrentTokenResponse,
    EndpointError,
>)
    ensures
        ({
            let s = spec_endpoint_result(
                "auth_get_current_token"@,
                auth_get_current_token_mappings(),
                view_raw(raw),
            );
            match r {
                Ok(out) => s matches Ok(o) && auth_get_current_token_outcome(o, out),
                Err(e) => s matches Err(ev) && ev == e@,
            }
        }),
{
    let d = auth_get_current_token_def();
    match classify_response(d.name, &d.mappings, raw) {
        Err(e) => Err(e),
        Ok((_, resp)) => {
            proof {
                lemma_status_index(d.mappings@, resp.status);
            }
            match decode_session_body(resp.body.as_str()) {
                Some(t) => Ok(AuthGetCurrentTokenResponse::Status200(t)),
                None => Err(EndpointError::Decode { endpoint: d.name }),
            }
        },
    }
}

/// The declared mappings of the registration endpoint.
pub open spec fn auth_register_mappings() -> Seq<StatusMapping> {
    seq![StatusMapping { status: 200, payload: PayloadKind::Registration }]
}

/// The registration endpoint: `POST auth/registration` with the details
/// as body.
pub fn auth_register_def() -> (d: EndpointDef)
    ensures
        d.name@ == "auth_register"@,
        d.method == Method::Post,
        d.path@.len() == 1,
        (d.path@[0] matches PathSeg::Lit(s) && s@ == "auth/registration"@),
        d.mappings@ == auth_register_mappings(),
        d.wf(),
{
    let mut path: Vec<PathSeg> = Vec::new();
    path.push(PathSeg::Lit("auth/registration"));
    let mut mappings: Vec<StatusMapping> = Vec::new();
    mappings.push(StatusMapping { status: 200, payload: PayloadKind::Registration });
    proof {
        assert(mappings@ =~= auth_register_mappings());
    }
    EndpointDef { name: "auth_register", method: Method::Post, path, mappings }
}

/// Build the registration request: the details, serialized, as the
/// body.
pub fn auth_register_request(details: &RegistrationDetails) -> (r: RequestEnvelope)
    ensures
        r.method == Method::Post,
        r.url@ == spec_url("auth/registration"@),
        (r.body matches Some(b) && b@ == registration_details_json(details@)),
        r.include_credentials,
{
    let d = auth_register_def();
    let frags: Vec<String> = Vec::new();
    proof {
        lemma_render_single_lit(d.path@, "auth/registration"@);
        assert(frags@.map_values(|s: String| s@) =~= Seq::<Seq<char>>::empty());
    }
    let url = endpoint_url(&d.path, &frags);
    RequestEnvelope {
        url,
        method: d.method,
        body: Some(details.to_json()),
        include_credentials: true,
    }
}

/// The tagged outcomes the registration endpoint declares.
#[derive(Debug, Clone, PartialEq, Eq)]
pub enum AuthRegisterResponse {
    Status200(RegistrationResult),
}

/// The tagged outcome a dispatch pair stands for, for the registration
/// endpoint.
pub open spec fn auth_register_outcome(o: (u16, PayloadV), r: AuthRegisterResponse) -> bool {
    match r {
        AuthRegisterResponse::Status200(o2) => o == (200u16, PayloadV::Registration(o2@)),
    }
}

/// Decide the registration call from its raw transport outcome.
pub fn auth_register_response(raw: Result<RawResponse, TransportError>) -> (r: Result<
    AuthRegisterResponse,
    EndpointError,
>)
    ensures
        ({
            let s = spec_endpoint_result(
                "auth_register"@,
                auth_register_mappings(),
                view_raw(raw),
            );
            match r {
                Ok(out) => s matches Ok(o) && auth_register_outcome(o, out),
                Err(e) => s matches Err(ev) && ev == e@,
            }
        }),
{
    let d = auth_register_def();
    match classify_response(d.name, &d.mappings, raw) {
        Err(e) => Err(e),
        Ok((_, resp)) => {
            proof {
                lemma_status_index(d.mappings@, resp.status);
            }
            match decode_registration_body(resp.body.as_str()) {
                Some(o) => Ok(AuthRegisterResponse::Status200(o)),
                None => Err(EndpointError::Decode { endpoint: d.name }),
            }
        },
    }
}

/// The declared mappings of the logout endpoint.
pub open spec fn auth_logout_mappings() -> Seq<StatusMapping> {
    seq![StatusMapping { status: 204, payload: PayloadKind::Unit }]
}

/// The logout endpoint: `DELETE auth/token/@me`.
pub fn auth_logout_def() -> (d: EndpointDef)
    ensures
        d.name@ == "auth_logout"@,
        d.method == Method::Delete,
        d.path@.len() == 1,
        (d.path@[0] matches PathSeg::Lit(s) && s@ == "auth/token/@me"@),
        d.mappings@ == auth_logout_mappings(),
        d.wf(),
{
    let mut path: Vec<PathSeg> = Vec::new();
    path.push(PathSeg::Lit("auth/token/@me"));
    let mut mappings: Vec<StatusMapping> = Vec::new();
    mappings.push(StatusMapping { status: 204, payload: PayloadKind::Unit });
    proof {
        assert(mappings@ =~= auth_logout_mappings());
    }
    EndpointDef { name: "auth_logout", method: Method::Delete, path, mappings }
}

/// Build the logout request.
pub fn auth_logout_request() -> (r: RequestEnvelope)
    ensures
        r.method == Method::Delete,
        r.url@ == spec_url("auth/token/@me"@),
        r.body is None,
        r.include_credentials,
{
    let d = auth_logout_def();
    let frags: Vec<String> = Vec::new();
    proof {
        lemma_render_single_lit(d.path@, "auth/token/@me"@);
        assert(frags@.map_values(|s: String| s@) =~= Seq::<Seq<char>>::empty());
    }
    let url = endpoint_url(&d.path, &frags);
    RequestEnvelope { url, method: d.method, body: None, include_credentials: true }
}

/// The tagged outcomes the logout endpoint declares. A 204 carries no
/// body: its payload is the unit value, decoded without reading the
/// body.
#[derive(Debug, Clone, Copy, PartialEq, Eq, Structural)]
pub enum AuthLogoutResponse {
    Status204,
}

/// The tagged outcome a dispatch pair stands for, for the logout
/// endpoint.
pub open spec fn auth_logout_outcome(o: (u16, PayloadV), r: AuthLogoutResponse) -> bool {
    match r {
        AuthLogoutResponse::Status204 => o == (204u16, PayloadV::Unit),
    }
}

/// Decide the logout call from its raw transport outcome.
pub fn auth_logout_response(raw: Result<RawResponse, TransportError>) -> (r: Result<
    AuthLogoutResponse,
    EndpointError,
>)
    ensures
        ({
            let s = spec_endpoint_result("auth_logout"@, auth_logout_mappings(), view_raw(raw));
            match r {
                Ok(out) => s matches Ok(o) && auth_logout_outcome(o, out),
                Err(e) => s matches Err(ev) && ev == e@,
            }
        }),
{
    let d = auth_logout_def();
    match classify_response(d.name, &d.mappings, raw) {
        Err(e) => Err(e),
        Ok((_, resp)) => {
            proof {
                lemma_status_index(d.mappings@, resp.status);
            }
            Ok(AuthLogoutResponse::Status204)
        },
    }
}

/// The declared mappings of the session-list endpoint.
pub open spec fn auth_get_tokens_mappings() -> Seq<StatusMapping> {
    seq![StatusMapping { status: 200, payload: PayloadKind::IdList }]
}

/// The session-list endpoint: `GET auth/token/list`.
pub fn auth_get_tokens_def() -> (d: EndpointDef)
    ensures
        d.name@ == "auth_get_tokens"@,
        d.method == Method::Get,
        d.path@.len() == 1,
        (d.path@[0] matches PathSeg::Lit(s) && s@ == "auth/token/list"@),
        d.mappings@ == auth_get_tokens_mappings(),
        d.wf(),
{
    let mut path: Vec<PathSeg> = Vec::new();
    path.push(PathSeg::Lit("auth/token/list"));
    let mut mappings: Vec<StatusMapping> = Vec::new();
    mappings.push(StatusMapping { status: 200, payload: PayloadKind::IdList });
    proof {
        assert(mappings@ =~= auth_get_tokens_mappings());
    }
    EndpointDef { name: "auth_get_tokens", method: Method::Get, path, mappings }
}

/// Build the session-list request.
pub fn auth_get_tokens_request() -> (r: RequestEnvelope)
    ensures
        r.method == Method::Get,
        r.url@ == spec_url("auth/token/list"@),
        r.body is None,
        r.include_credentials,
{
    let d = auth_get_tokens_def();
    let frags: Vec<String> = Vec::new();
    proof {
        lemma_render_single_lit(d.path@, "auth/token/list"@);
        assert(frags@.map_values(|s: String| s@) =~= Seq::<Seq<char>>::empty());
    }
    let url = endpoint_url(&d.path, &frags);
    RequestEnvelope { url, method: d.method, body: None, include_credentials: true }
}

/// The tagged outcomes the session-list endpoint declares.
#[derive(Debug, Clone, PartialEq, Eq)]
pub enum AuthGetTokensResponse {
    Status200(Vec<Snowflake>),
}

/// The tagged outcome a dispatch pair stands for, for the session-list
/// endpoint.
pub open spec fn auth_get_tokens_outcome(o: (u16, PayloadV), r: AuthGetTokensResponse) -> bool {
    match r {
        AuthGetTokensResponse::Status200(ids) => o == (200u16, PayloadV::IdList(ids@)),
    }
}

/// Decide the session-list call from its raw transport outcome.
pub fn auth_get_tokens_response(raw: Result<RawResponse, TransportError>) -> (r: Result<
    AuthGetTokensResponse,
    EndpointError,
>)
    ensures
        ({
            let s = spec_endpoint_result(
                "auth_get_tokens"@,
                auth_get_tokens_mappings(),
                view_raw(raw),
            );
            match r {
                Ok(out) => s matches Ok(o) && auth_get_tokens_outcome(o, out),
                Err(e) => s matches Err(ev) && ev == e@,
            }
        }),
{
    let d = auth_get_tokens_def();
    match classify_response(d.name, &d.mappings, raw) {
        Err(e) => Err(e),
        Ok((_, resp)) => {
            proof {
                lemma_status_index(d.mappings@, resp.status);
            }
            match decode_id_list_body(resp.body.as_str()) {
                Some(ids) => Ok(AuthGetTokensResponse::Status200(ids)),
                None => Err(EndpointError::Decode { endpoint: d.name }),
            }
        },
    }
}

/// The declared mappings of the session-by-id endpoint.
pub open spec fn auth_get_token_mappings() -> Seq<StatusMapping> {
    seq![
        StatusMapping { status: 200, payload: PayloadKind::Session },
        StatusMapping { status: 404, payload: PayloadKind::Unit },
    ]
}

/// The session-by-id endpoint: `GET auth/token/by_id/{id}`.
pub fn auth_get_token_def() -> (d: EndpointDef)
    ensures
        d.name@ == "auth_get_token"@,
        d.method == Method::Get,
        d.path@.len() == 2,
        (d.path@[0] matches PathSeg::Lit(s) && s@ == "auth/token/by_id/"@),
        d.path@[1] is Hole,
        d.mappings@ == auth_get_token_mappings(),
        d.wf(),
{
    let mut path: Vec<PathSeg> = Vec::new();
    path.push(PathSeg::Lit("auth/token/by_id/"));
    path.push(PathSeg::Hole);
    let mut mappings: Vec<StatusMapping> = Vec::new();
    mappings.push(StatusMapping { status: 200, payload: PayloadKind::Session });
    mappings.push(StatusMapping { status: 404, payload: PayloadKind::Unit });
    proof {
        assert(mappings@ =~= auth_get_token_mappings());
    }
    EndpointDef { name: "auth_get_token", method: Method::Get, path, mappings }
}

/// Build the session-by-id request: the identifier's decimal form
/// fills the template's one hole.
pub fn auth_get_token_request(id: Snowflake) -> (r: RequestEnvelope)
    ensures
        r.method == Method::Get,
        r.url@ == spec_url("auth/token/by_id/"@ + dec_digits(id.0 as nat)),
        r.body is None,
        r.include_credentials,
{
    let d = auth_get_token_def();
    let mut frags: Vec<String> = Vec::new();
    frags.push(id.to_path_fragment());
    proof {
        lemma_render_lit_hole(d.path@, "auth/token/by_id/"@, dec_digits(id.0 as nat));
        assert(frags@.map_values(|s: String| s@) =~= seq![dec_digits(id.0 as nat)]);
    }
    let url = endpoint_url(&d.path, &frags);
    RequestEnvelope { url, method: d.method, body: None, include_credentials: true }
}

/// The tagged outcomes the session-by-id endpoint declares: the session
/// info, or a bodiless 404 where no such session exists.
#[derive(Debug, Clone, PartialEq, Eq)]
pub enum AuthGetTokenResponse {
    Status200(TokenInfo),
    Status404,
}

/// The tagged outcome a dispatch pair stands for, for the session-by-id
/// endpoint.
pub open spec fn auth_get_token_outcome(o: (u16, PayloadV), r: AuthGetTokenResponse) -> bool {
    match r {
        AuthGetTokenResponse::Status200(t) => o == (200u16, PayloadV::Session(t@)),
        AuthGetTokenResponse::Status404 => o == (404u16, PayloadV::Unit),
    }
}

/// Decide the session-by-id call from its raw transport outcome.
pub fn auth_get_token_response(raw: Result<RawResponse, TransportError>) -> (r: Result<
    AuthGetTokenResponse,
    EndpointError,
>)
    ensures
        ({
            let s = spec_endpoint_result(
                "auth_get_token"@,
                auth_get_token_mappings(),
                view_raw(raw),
            );
            match r {
                Ok(out) => s matches Ok(o) && auth_get_token_outcome(o, out),
                Err(e) => s matches Err(ev) && ev == e@,
            }
        }),
{
    let d = auth_get_token_def();
    match classify_response(d.name, &d.mappings, raw) {
        Err(e) => Err(e),
        Ok((i, resp)) => {
            proof {
                lemma_status_index(d.mappings@, resp.status);
            }
            if i == 0 {
                match decode_session_body(resp.body.as_str()) {
                    Some(t) => Ok(AuthGetTokenResponse::Status200(t)),
                    None => Err(EndpointError::Decode { endpoint: d.name }),
                }
            } else {
                Ok(AuthGetTokenResponse::Status404)
            }
        },
    }
}

/// The declared mappings of the session-deletion endpoint.
pub open spec fn auth_delete_token_mappings() -> Seq<StatusMapping> {
    seq![
        StatusMapping { status: 204, payload: PayloadKind::Unit },
        StatusMapping { status: 404, payload: PayloadKind::Unit },
    ]
}

/// The session-deletion endpoint: `DELETE auth/token/by_id/{id}`. A
/// 204 confirms the deletion; a 404 says the session was already gone —
/// both are declared outcomes, not errors.
pub fn auth_delete_token_def() -> (d: EndpointDef)
    ensures
        d.name@ == "auth_delete_token"@,
        d.method == Method::Delete,
        d.path@.len() == 2,
        (d.path@[0] matches PathSeg::Lit(s) && s@ == "auth/token/by_id/"@),
        d.path@[1] is Hole,
        d.mappings@ == auth_delete_token_mappings(),
        d.wf(),
{
    let mut path: Vec<PathSeg> = Vec::new();
    path.push(PathSeg::Lit("auth/token/by_id/"));
    path.push(PathSeg::Hole);
    let mut mappings: Vec<StatusMapping> = Vec::new();
    mappings.push(StatusMapping { status: 204, payload: PayloadKind::Unit });
    mappings.push(StatusMapping { status: 404, payload: PayloadKind::Unit });
    proof {
        assert(mappings@ =~= auth_delete_token_mappings());
    }
    EndpointDef { name: "auth_delete_token", method: Method::Delete, path, mappings }
}

/// Build the session-deletion request.
pub fn auth_delete_token_request(id: Snowflake) -> (r: RequestEnvelope)
    ensures
        r.method == Method::Delete,
        r.url@ == spec_url("auth/token/by_id/"@ + dec_digits(id.0 as nat)),
        r.body is None,
        r.include_credentials,
{
    let d = auth_delete_token_def();
    let mut frags: Vec<String> = Vec::new();
    frags.push(id.to_path_fragment());
    proof {
        lemma_render_lit_hole(d.path@, "auth/token/by_id/"@, dec_digits(id.0 as nat));
        assert(frags@.map_values(|s: String| s@) =~= seq![dec_digits(id.0 as nat)]);
    }
    let url = endpoint_url(&d.path, &frags);
    RequestEnvelope { url, method: d.method, body: None, include_credentials: true }
}

/// The tagged outcomes the session-deletion endpoint declares.
#[derive(Debug, Clone, Copy, PartialEq, Eq, Structural)]
pub enum AuthDeleteTokenResponse {
    Status204,
    Status404,
}

/// The tagged outcome a dispatch pair stands for, for the
/// session-deletion endpoint.
pub open spec fn auth_delete_token_outcome(o: (u16, PayloadV), r: AuthDeleteTokenResponse) -> bool {
    match r {
        AuthDeleteTokenResponse::Status204 => o == (204u16, PayloadV::Unit),
        AuthDeleteTokenResponse::Status404 => o == (404u16, PayloadV::Unit),
    }
}

/// Decide the session-deletion call from its raw transport outcome.
pub fn auth_delete_token_response(raw: Result<RawResponse, TransportError>) -> (r: Result<
    AuthDeleteTokenResponse,
    EndpointError,
>)
    ensures
        ({
            let s = spec_endpoint_result(
                "auth_delete_token"@,
                auth_delete_token_mappings(),
                view_raw(raw),
            );
            match r {
                Ok(out) => s matches Ok(o) && auth_delete_token_outcome(o, out),
                Err(e) => s matches Err(ev) && ev == e@,
            }
        }),
{
    let d = auth_delete_token_def();
    match classify_response(d.name, &d.mappings, raw) {
        Err(e) => Err(e),
        Ok((i, resp)) => {
            proof {
                lemma_status_index(d.mappings@, resp.status);
            }
            if i == 0 {
                Ok(AuthDeleteTokenResponse::Status204)
            } else {
                Ok(AuthDeleteTokenResponse::Status404)
            }
        },
    }
}

/// The deletion flow's decision: both a 204 (deleted now) and a 404
/// (already gone) confirm that the session no longer exists; only a
/// failure leaves the deletion unconfirmed.
pub fn deletion_confirmed(r: &Result<AuthDeleteTokenResponse, EndpointError>) -> (b: bool)
    ensures
        b == (r is Ok),
{
    match r {
        Ok(_) => true,
        Err(_) => false,
    }
}

/// The declared mappings of the other-sessions-deletion endpoint.
pub open spec fn auth_delete_other_tokens_mappings() -> Seq<StatusMapping> {
    seq![StatusMapping { status: 204, payload: PayloadKind::Unit }]
}

/// The other-sessions-deletion endpoint: `DELETE auth/token/list`.
pub fn auth_delete_other_tokens_def() -> (d: EndpointDef)
    ensures
        d.name@ == "auth_delete_other_tokens"@,
        d.method == Method::Delete,
        d.path@.len() == 1,
        (d.path@[0] matches PathSeg::Lit(s) && s@ == "auth/token/list"@),
        d.mappings@ == auth_delete_other_tokens_mappings(),
        d.wf(),
{
    let mut path: Vec<PathSeg> = Vec::new();
    path.push(PathSeg::Lit("auth/token/list"));
    let mut mappings: Vec<StatusMapping> = Vec::new();
    mappings.push(StatusMapping { status: 204, payload: PayloadKind::Unit });
    proof {
        assert(mappings@ =~= auth_delete_other_tokens_mappings());
    }
    EndpointDef { name: "auth_delete_other_tokens", method: Method::Delete, path, mappings }
}

/// Build the other-sessions-deletion request.
pub fn auth_delete_other_tokens_request() -> (r: RequestEnvelope)
    ensures
        r.method == Method::Delete,
        r.url@ == spec_url("auth/token/list"@),
        r.body is None,
        r.include_credentials,
{
    let d = auth_delete_other_tokens_def();
    let frags: Vec<String> = Vec::new();
    proof {
        lemma_render_single_lit(d.path@, "auth/token/list"@);
        assert(frags@.map_values(|s: String| s@) =~= Seq::<Seq<char>>::empty());
    }
    let url = endpoint_url(&d.path, &frags);
    RequestEnvelope { url, method: d.method, body: None, include_credentials: true }
}

/// The tagged outcomes the other-sessions-deletion endpoint declares.
#[derive(Debug, Clone, Copy, PartialEq, Eq, Structural)]
pub enum AuthDeleteOtherTokensResponse {
    Status204,
}

/// The tagged outcome a dispatch pair stands for, for the
/// other-sessions-deletion endpoint.
pub open spec fn auth_delete_other_tokens_outcome(
    o: (u16, PayloadV),
    r: AuthDeleteOtherTokensResponse,
) -> bool {
    match r {
        AuthDeleteOtherTokensResponse::Status204 => o == (204u16, PayloadV::Unit),
    }
}

/// Decide the other-sessions-deletion call from its raw transport
/// outcome.
pub fn auth_delete_other_tokens_response(raw: Result<RawResponse, TransportError>) -> (r: Result<
    AuthDeleteOtherTokensResponse,
    EndpointError,
>)
    ensures
        ({
            let s = spec_endpoint_result(
                "auth_delete_other_tokens"@,
                auth_delete_other_tokens_mappings(),
                view_raw(raw),
            );
            match r {
                Ok(out) => s matches Ok(o) && auth_delete_other_tokens_outcome(o, out),
                Err(e) => s matches Err(ev) && ev == e@,
            }
        }),
{
    let d = auth_delete_other_tokens_def();
    match classify_response(d.name, &d.mappings, raw) {
        Err(e) => Err(e),
        Ok((_, resp)) => {
            proof {
                lemma_status_index(d.mappings@, resp.status);
            }
            Ok(AuthDeleteOtherTokensResponse::Status204)
        },
    }
}

/// The declared mappings of the pending-registration endpoint.
pub open spec fn registration_get_mappings() -> Seq<StatusMapping> {
    seq![
        StatusMapping { status: 200, payload: PayloadKind::Pending },
        StatusMapping { status: 404, payload: PayloadKind::Unit },
    ]
}

/// The pending-registration endpoint: `GET auth/registration/{id}`.
pub fn registration_get_def() -> (d: EndpointDef)
    ensures
        d.name@ == "registration_get"@,
        d.method == Method::Get,
        d.path@.len() == 2,
        (d.path@[0] matches PathSeg::Lit(s) && s@ == "auth/registration/"@),
        d.path@[1] is Hole,
        d.mappings@ == registration_get_mappings(),
        d.wf(),
{
    let mut path: Vec<PathSeg> = Vec::new();
    path.push(PathSeg::Lit("auth/registration/"));
    path.push(PathSeg::Hole);
    let mut mappings: Vec<StatusMapping> = Vec::new();
    mappings.push(StatusMapping { status: 200, payload: PayloadKind::Pending });
    mappings.push(StatusMapping { status: 404, payload: PayloadKind::Unit });
    proof {
        assert(mappings@ =~= registration_get_mappings());
    }
    EndpointDef { name: "registration_get", method: Method::Get, path, mappings }
}

/// Build the pending-registration request.
pub fn registration_get_request(id: Snowflake) -> (r: RequestEnvelope)
    ensures
        r.method == Method::Get,
        r.url@ == spec_url("auth/registration/"@ + dec_digits(id.0 as nat)),
        r.body is None,
        r.include_credentials,
{
    let d = registration_get_def();
    let mut frags: Vec<String> = Vec::new();
    frags.push(id.to_path_fragment());
    proof {
        lemma_render_lit_hole(d.path@, "auth/registration/"@, dec_digits(id.0 as nat));
        assert(frags@.map_values(|s: String| s@) =~= seq![dec_digits(id.0 as nat)]);
    }
    let url = endpoint_url(&d.path, &frags);
    RequestEnvelope { url, method: d.method, body: None, include_credentials: true }
}

/// The tagged outcomes the pending-registration endpoint declares.
#[derive(Debug, Clone, PartialEq, Eq)]
pub enum RegistrationGetResponse {
    Status200(PendingRegistration),
    Status404,
}

/// The tagged outcome a dispatch pair stands for, for the
/// pending-registration endpoint.
pub open spec fn registration_get_outcome(o: (u16, PayloadV), r: RegistrationGetResponse) -> bool {
    match r {
        RegistrationGetResponse::Status200(p) => o == (200u16, PayloadV::Pending(p@)),
        RegistrationGetResponse::Status404 => o == (404u16, PayloadV::Unit),
    }
}

/// Decide the pending-registration call from its raw transport outcome.
pub fn registration_get_response(raw: Result<RawResponse, TransportError>) -> (r: Result<
    RegistrationGetResponse,
    EndpointError,
>)
    ensures
        ({
            let s = spec_endpoint_result(
                "registration_get"@,
                registration_get_mappings(),
                view_raw(raw),
            );
            match r {
                Ok(out) => s matches Ok(o) && registration_get_outcome(o, out),
                Err(e) => s matches Err(ev) && ev == e@,
            }
        }),
{
    let d = registration_get_def();
    match classify_response(d.name, &d.mappings, raw) {
        Err(e) => Err(e),
        Ok((i, resp)) => {
            proof {
                lemma_status_index(d.mappings@, resp.status);
            }
            if i == 0 {
                match decode_pending_body(resp.body.as_str()) {
                    Some(p) => Ok(RegistrationGetResponse::Status200(p)),
                    None => Err(EndpointError::Decode { endpoint: d.name }),
                }
            } else {
                Ok(RegistrationGetResponse::Status404)
            }
        },
    }
}

/// The declared mappings of the registration-confirmation endpoint.
pub open spec fn registration_confirm_mappings() -> Seq<StatusMapping> {
    seq![StatusMapping { status: 200, payload: PayloadKind::Confirmation }]
}

/// The registration-confirmation endpoint:
/// `POST auth/registration/{id}/confirm` with the confirmation token as
/// body.
pub fn registration_confirm_def() -> (d: EndpointDef)
    ensures
        d.name@ == "registration_confirm"@,
        d.method == Method::Post,
        d.path@.len() == 3,
        (d.path@[0] matches PathSeg::Lit(s) && s@ == "auth/registration/"@),
        d.path@[1] is Hole,
        (d.path@[2] matches PathSeg::Lit(s) && s@ == "/confirm"@),
        d.mappings@ == registration_confirm_mappings(),
        d.wf(),
{
    let mut path: Vec<PathSeg> = Vec::new();
    path.push(PathSeg::Lit("auth/registration/"));
    path.push(PathSeg::Hole);
    path.push(PathSeg::Lit("/confirm"));
    let mut mappings: Vec<StatusMapping> = Vec::new();
    mappings.push(StatusMapping { status: 200, payload: PayloadKind::Confirmation });
    proof {
        assert(mappings@ =~= registration_confirm_mappings());
    }
    EndpointDef { name: "registration_confirm", method: Method::Post, path, mappings }
}

/// Build the registration-confirmation request.
pub fn registration_confirm_request(id: Snowflake, token: &ConfirmationToken) -> (r:
    RequestEnvelope)
    ensures
        r.method == Method::Post,
        r.url@ == spec_url("auth/registration/"@ + dec_digits(id.0 as nat) + "/confirm"@),
        (r.body matches Some(b) && b@ == confirmation_token_json(token@)),
        r.include_credentials,
{
    let d = registration_confirm_def();
    let mut frags: Vec<String> = Vec::new();
    frags.push(id.to_path_fragment());
    proof {
        lemma_render_lit_hole_lit(
            d.path@,
            "auth/registration/"@,
            dec_digits(id.0 as nat),
            "/confirm"@,
        );
        assert(frags@.map_values(|s: String| s@) =~= seq![dec_digits(id.0 as nat)]);
    }
    let url = endpoint_url(&d.path, &frags);
    RequestEnvelope {
        url,
        method: d.method,
        body: Some(token.to_json()),
        include_credentials: true,
    }
}

/// The tagged outcomes the registration-confirmation endpoint declares.
#[derive(Debug, Clone, PartialEq, Eq)]
pub enum RegistrationConfirmResponse {
    Status200(ConfirmationResult),
}

/// The tagged outcome a dispatch pair stands for, for the
/// registration-confirmation endpoint.
pub open spec fn registration_confirm_outcome(
    o: (u16, PayloadV),
    r: RegistrationConfirmResponse,
) -> bool {
    match r {
        RegistrationConfirmResponse::Status200(c) => o == (200u16, PayloadV::Confirmation(c@)),
    }
}

/// Decide the registration-confirmation call from its raw transport
/// outcome.
pub fn registration_confirm_response(raw: Result<RawResponse, TransportError>) -> (r: Result<
    RegistrationConfirmResponse,
    EndpointError,
>)
    ensures
        ({
            let s = spec_endpoint_result(
                "registration_confirm"@,
                registration_confirm_mappings(),
                view_raw(raw),
            );
            match r {
                Ok(out) => s matches Ok(o) && registration_confirm_outcome(o, out),
                Err(e) => s matches Err(ev) && ev == e@,
            }
        }),
{
    let d = registration_confirm_def();
    match classify_response(d.name, &d.mappings, raw) {
        Err(e) => Err(e),
        Ok((_, resp)) => {
            proof {
                lemma_status_index(d.mappings@, resp.status);
            }
            match decode_confirmation_body(resp.body.as_str()) {
                Some(c) => Ok(RegistrationConfirmResponse::Status200(c)),
                None => Err(EndpointError::Decode { endpoint: d.name }),
            }
        },
    }
}

/// The confirmation flow's decision: the caller moves on to the
/// dashboard only when the call decoded to a confirmed registration;
/// every other decoded outcome sends the user back to the form.
pub fn confirmation_succeeded(r: &Result<RegistrationConfirmResponse, EndpointError>) -> (b: bool)
    ensures
        b == (r matches Ok(RegistrationConfirmResponse::Status200(
            ConfirmationResult::Confirmed { .. },
        ))),
{
    match r {
        Ok(RegistrationConfirmResponse::Status200(ConfirmationResult::Confirmed { .. })) => true,
        _ => false,
    }
}

/// The login-gate's decision: the caller may enter the dashboard only
/// when the session check decoded to a still-valid session.
pub fn session_check_passed(r: &Result<AuthCheckResponse, EndpointError>) -> (b: bool)
    ensures
        b == (r matches Ok(AuthCheckResponse::Status200(c)) && c.valid),
{
    match r {
        Ok(AuthCheckResponse::Status200(c)) => c.valid,
        Err(_) => false,
    }
}

} // verus!
