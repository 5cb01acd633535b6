//! The generic endpoint core.
//!
//! An endpoint is described by data: an HTTP method, a URL template
//! (literal segments and holes, filled in declared order), and a closed
//! list of status mappings, each naming the payload kind that a
//! response with that status carries. One shared core renders the
//! request URL, picks the mapping a raw response falls under, and
//! decodes the body under that mapping — or fails with a typed error.

use vstd::prelude::*;

use crate::decode::{
    spec_check_result, spec_confirmation_result, spec_id_list, spec_login_error,
    spec_pending_registration, spec_registration_result, spec_session_token, spec_sleep_list,
    spec_sleep_state, spec_token_info,
};
use crate::decode::{
    check_result_from_json, confirmation_result_from_json, id_list_from_json,
    login_error_from_json, pending_registration_from_json, registration_result_from_json,
    session_token_from_json, sleep_list_from_json, sleep_state_from_json, token_info_from_json,
};
use crate::json::{json_of, parse_json_text, JsonValue};
use crate::types::{
    CheckResult, ConfirmationResult, ConfirmationResultV, LoginError, PendingRegistration,
    PendingRegistrationV, RegistrationResult, RegistrationResultV, SessionToken, SessionTokenV,
    SleepState, Snowflake, TokenInfo, TokenInfoV,
};
use crate::API_URL;

verus! {

use vstd::string::{StrSliceExecFns, StringExecFns};

/// The HTTP methods this API uses.
#[derive(Debug, Clone, Copy, PartialEq, Eq, Structural)]
pub enum Method {
    Get,
    Post,
    Delete,
}

impl Method {
    /// The method's name on the wire.
    pub open spec fn spec_name(self) -> Seq<char> {
        match self {
            Method::Get => "GET"@,
            Method::Post => "POST"@,
            Method::Delete => "DELETE"@,
        }
    }

    /// The method's name on the wire.
    pub fn as_str(&self) -> (r: &'static str)
        ensures
            r@ == self.spec_name(),
    {
        match self {
            Method::Get => "GET",
            Method::Post => "POST",
            Method::Delete => "DELETE",
        }
    }
}

/// The payload kinds a status mapping can declare. `Unit` declares
/// that the response has no body worth reading.
#[derive(Debug, Clone, Copy, PartialEq, Eq, Structural)]
pub enum PayloadKind {
    Unit,
    Check,
    Token,
    LoginFailure,
    Session,
    IdList,
    Registration,
    Pending,
    Confirmation,
    Sleep,
    SleepList,
}

/// One declared (status code → payload kind) pair of an endpoint.
#[derive(Debug, Clone, Copy, PartialEq, Eq, Structural)]
pub struct StatusMapping {
    pub status: u16,
    pub payload: PayloadKind,
}

/// One segment of a URL template: a literal, or a hole for the next
/// path fragment.
#[derive(Debug, Clone, Copy)]
pub enum PathSeg {
    Lit(&'static str),
    Hole,
}

/// The descriptor of one endpoint: everything the shared core needs.
#[derive(Debug)]
pub struct EndpointDef {
    pub name: &'static str,
    pub method: Method,
    pub path: Vec<PathSeg>,
    pub mappings: Vec<StatusMapping>,
}

/// No two mappings of one endpoint may declare the same status.
pub open spec fn spec_statuses_unique(mappings: Seq<StatusMapping>) -> bool {
    forall|a: int, b: int|
        0 <= a < b < mappings.len() ==> mappings[a].status != mappings[b].status
}

impl EndpointDef {
    /// A well-formed definition declares at least one mapping, and no
    /// status twice.
    pub open spec fn wf(&self) -> bool {
        &&& self.mappings@.len() >= 1
        &&& spec_statuses_unique(self.mappings@)
    }
}

/// A request ready to hand to the transport: absolute URL, method, the
/// serialized JSON body if the endpoint sends one, and the instruction
/// to include stored credentials — every request of this API carries
/// the session cookie.
#[derive(Debug)]
pub struct RequestEnvelope {
    pub url: String,
    pub method: Method,
    pub body: Option<String>,
    pub include_credentials: bool,
}

/// What a completed HTTP exchange hands back: the status code and the
/// body text. Completion is independent of the status; a 500 is a
/// completed exchange.
#[derive(Debug, Clone, PartialEq, Eq)]
pub struct RawResponse {
    pub status: u16,
    pub body: String,
}

pub struct RawResponseV {
    pub status: u16,
    pub body: Seq<char>,
}

impl View for RawResponse {
    type V = RawResponseV;

    open spec fn view(&self) -> RawResponseV {
        RawResponseV { status: self.status, body: self.body@ }
    }
}

/// A network-level failure: the exchange did not complete.
#[derive(Debug, Clone, PartialEq, Eq)]
pub struct TransportError {
    pub message: String,
}

pub struct TransportErrorV {
    pub message: Seq<char>,
}

impl View for TransportError {
    type V = TransportErrorV;

    open spec fn view(&self) -> TransportErrorV {
        TransportErrorV { message: self.message@ }
    }
}

/// Why an endpoint call failed: the transport failed, the server
/// answered with a status the endpoint does not declare, or the body
/// did not decode under the matched mapping.
#[derive(Debug, Clone, PartialEq, Eq)]
pub enum EndpointError {
    Transport(TransportError),
    UnexpectedStatus { endpoint: &'static str, status: u16 },
    Decode { endpoint: &'static str },
}

pub enum EndpointErrorV {
    Transport(TransportErrorV),
    UnexpectedStatus { endpoint: Seq<char>, status: u16 },
    Decode { endpoint: Seq<char> },
}

impl View for EndpointError {
    type V = EndpointErrorV;

    open spec fn view(&self) -> EndpointErrorV {
        match self {
            EndpointError::Transport(e) => EndpointErrorV::Transport(e@),
            EndpointError::UnexpectedStatus { endpoint, status } => {
                EndpointErrorV::UnexpectedStatus { endpoint: endpoint@, status: *status }
            },
            EndpointError::Decode { endpoint } => EndpointErrorV::Decode { endpoint: endpoint@ },
        }
    }
}

/// A transport outcome, at the specification level.
pub open spec fn view_raw(raw: Result<RawResponse, TransportError>) -> Result<
    RawResponseV,
    TransportErrorV,
> {
    match raw {
        Ok(resp) => Ok(resp@),
        Err(e) => Err(e@),
    }
}

/// A decoded payload, at the specification level: one alternative per
/// payload kind.
pub enum PayloadV {
    Unit,
    Check(CheckResult),
    Token(SessionTokenV),
    LoginFailure(LoginError),
    Session(TokenInfoV),
    IdList(Seq<Snowflake>),
    Registration(RegistrationResultV),
    Pending(PendingRegistrationV),
    Confirmation(ConfirmationResultV),
    Sleep(SleepState),
    SleepList(Seq<SleepState>),
}

/// What a parsed JSON body yields under each payload kind.
pub open spec fn spec_payload_from_json(kind: PayloadKind, j: JsonValue) -> Option<PayloadV> {
    match kind {
        PayloadKind::Unit => Some(PayloadV::Unit),
        PayloadKind::Check => match spec_check_result(j) {
            Some(c) => Some(PayloadV::Check(c)),
            None => None,
        },
        PayloadKind::Token => match spec_session_token(j) {
            Some(t) => Some(PayloadV::Token(t)),
            None => None,
        },
        PayloadKind::LoginFailure => match spec_login_error(j) {
            Some(e) => Some(PayloadV::LoginFailure(e)),
            None => None,
        },
        PayloadKind::Session => match spec_token_info(j) {
            Some(t) => Some(PayloadV::Session(t)),
            None => None,
        },
        PayloadKind::IdList => match spec_id_list(j) {
            Some(ids) => Some(PayloadV::IdList(ids)),
            None => None,
        },
        PayloadKind::Registration => match spec_registration_result(j) {
            Some(o) => Some(PayloadV::Registration(o)),
            None => None,
        },
        PayloadKind::Pending => match spec_pending_registration(j) {
            Some(p) => Some(PayloadV::Pending(p)),
            None => None,
        },
        PayloadKind::Confirmation => match spec_confirmation_result(j) {
            Some(c) => Some(PayloadV::Confirmation(c)),
            None => None,
        },
        PayloadKind::Sleep => match spec_sleep_state(j) {
            Some(st) => Some(PayloadV::Sleep(st)),
            None => None,
        },
        PayloadKind::SleepList => match spec_sleep_list(j) {
            Some(states) => Some(PayloadV::SleepList(states)),
            None => None,
        },
    }
}

/// What a body text yields under a payload kind. A `Unit` mapping
/// yields the unit payload outright: the body is never parsed, so an
/// empty body cannot fail a unit-mapped response.
pub open spec fn spec_decode_payload(kind: PayloadKind, body: Seq<char>) -> Option<PayloadV> {
    if kind == PayloadKind::Unit {
        Some(PayloadV::Unit)
    } else {
        match json_of(body) {
            Some(j) => spec_payload_from_json(kind, j),
            None => None,
        }
    }
}

/// The position of the first mapping declaring `status`, if any.
pub open spec fn spec_status_index(mappings: Seq<StatusMapping>, status: u16) -> Option<int>
    decreases mappings.len(),
{
    if mappings.len() == 0 {
        None
    } else if mappings[0].status == status {
        Some(0)
    } else {
        match spec_status_index(mappings.drop_first(), status) {
            Some(i) => Some(i + 1),
            None => None,
        }
    }
}

/// What the index search finds: the first declaring position, or
/// nothing when no mapping declares the status.
pub proof fn lemma_status_index(mappings: Seq<StatusMapping>, status: u16)
    ensures
        match spec_status_index(mappings, status) {
            Some(i) => 0 <= i < mappings.len() && mappings[i].status == status && (forall|k: int|
                0 <= k < i ==> mappings[k].status != status),
            None => forall|k: int| 0 <= k < mappings.len() ==> mappings[k].status != status,
        },
    decreases mappings.len(),
{
    if mappings.len() > 0 && mappings[0].status != status {
        lemma_status_index(mappings.drop_first(), status);
        match spec_status_index(mappings.drop_first(), status) {
            Some(i) => {
                assert(forall|k: int|
                    1 <= k < i + 1 ==> mappings[k] == mappings.drop_first()[k - 1]);
            },
            None => {
                assert(forall|k: int|
                    1 <= k < mappings.len() ==> mappings[k] == mappings.drop_first()[k - 1]);
            },
        }
    }
}

/// A position that declares `status`, before which no position does,
/// is the one the search finds.
pub proof fn lemma_status_index_at(mappings: Seq<StatusMapping>, status: u16, i: int)
    requires
        0 <= i < mappings.len(),
        mappings[i].status == status,
        forall|k: int| 0 <= k < i ==> mappings[k].status != status,
    ensures
        spec_status_index(mappings, status) == Some(i),
    decreases mappings.len(),
{
    if i > 0 {
        assert(forall|k: int| 0 <= k < i - 1 ==> mappings.drop_first()[k] == mappings[k + 1]);
        lemma_status_index_at(mappings.drop_first(), status, i - 1);
    }
}

/// Sorting a raw outcome: a transport failure is a transport error; a
/// completed exchange either falls under the first mapping declaring
/// its status, or is an unexpected-status error carrying that status.
pub open spec fn spec_classify(
    name: Seq<char>,
    mappings: Seq<StatusMapping>,
    raw: Result<RawResponseV, TransportErrorV>,
) -> Result<(int, RawResponseV), EndpointErrorV> {
    match raw {
        Err(e) => Err(EndpointErrorV::Transport(e)),
        Ok(resp) => match spec_status_index(mappings, resp.status) {
            None => Err(
                EndpointErrorV::UnexpectedStatus { endpoint: name, status: resp.status },
            ),
            Some(i) => Ok((i, resp)),
        },
    }
}

/// The whole dispatch, at the specification level: classify the raw
/// outcome, then decode the body under the matched mapping. The result
/// is the tagged pair of the response status and its decoded payload,
/// or the typed error.
pub open spec fn spec_endpoint_result(
    name: Seq<char>,
    mappings: Seq<StatusMapping>,
    raw: Result<RawResponseV, TransportErrorV>,
) -> Result<(u16, PayloadV), EndpointErrorV> {
    match spec_classify(name, mappings, raw) {
        Err(e) => Err(e),
        Ok((i, resp)) => match spec_decode_payload(mappings[i].payload, resp.body) {
            None => Err(EndpointErrorV::Decode { endpoint: name }),
            Some(p) => Ok((resp.status, p)),
        },
    }
}

/// Sort a raw transport outcome under an endpoint's mappings.
pub fn classify_response(
    name: &'static str,
    mappings: &Vec<StatusMapping>,
    raw: Result<RawResponse, TransportError>,
) -> (r: Result<(usize, RawResponse), EndpointError>)
    ensures
        match r {
            Ok(p) => spec_classify(name@, mappings@, view_raw(raw)) == Ok::<
                (int, RawResponseV),
                EndpointErrorV,
            >((p.0 as int, p.1@)),
            Err(e) => spec_classify(name@, mappings@, view_raw(raw)) == Err::<
                (int, RawResponseV),
                EndpointErrorV,
            >(e@),
        },
{
    match raw {
        Err(e) => Err(EndpointError::Transport(e)),
        Ok(resp) => {
            let n = mappings.len();
            for i in 0..n
                invariant
                    n == mappings@.len(),
                    view_raw(raw) == Ok::<RawResponseV, TransportErrorV>(resp@),
                    forall|k: int| 0 <= k < i ==> mappings@[k].status != resp.status,
            {
                if mappings[i].status == resp.status {
                    proof {
                        lemma_status_index_at(mappings@, resp.status, i as int);
                    }
                    return Ok((i, resp));
                }
            }
            proof {
                lemma_status_index_at_none(mappings@, resp.status);
            }
            Err(EndpointError::UnexpectedStatus { endpoint: name, status: resp.status })
        },
    }
}

/// When no mapping declares the status, the search finds nothing.
pub proof fn lemma_status_index_at_none(mappings: Seq<StatusMapping>, status: u16)
    requires
        forall|k: int| 0 <= k < mappings.len() ==> mappings[k].status != status,
    ensures
        spec_status_index(mappings, status) is None,
    decreases mappings.len(),
{
    if mappings.len() > 0 {
        assert(forall|k: int|
            0 <= k < mappings.len() - 1 ==> mappings.drop_first()[k] == mappings[k + 1]);
        lemma_status_index_at_none(mappings.drop_first(), status);
    }
}

/// Law: a transport failure yields a transport error — never a status
/// or decode error — under every endpoint's mappings.
pub proof fn lemma_transport_failure_is_transport_error(
    name: Seq<char>,
    mappings: Seq<StatusMapping>,
    e: TransportErrorV,
)
    ensures
        spec_endpoint_result(name, mappings, Err(e)) == Err::<(u16, PayloadV), EndpointErrorV>(
            EndpointErrorV::Transport(e),
        ),
{
}

/// Law: a completed exchange whose status no mapping declares yields an
/// unexpected-status error carrying that exact status and the
/// endpoint's name, under every endpoint's mappings.
pub proof fn lemma_undeclared_status_is_error(
    name: Seq<char>,
    mappings: Seq<StatusMapping>,
    resp: RawResponseV,
)
    requires
        forall|k: int| 0 <= k < mappings.len() ==> mappings[k].status != resp.status,
    ensures
        spec_endpoint_result(name, mappings, Ok(resp)) == Err::<(u16, PayloadV), EndpointErrorV>(
            EndpointErrorV::UnexpectedStatus { endpoint: name, status: resp.status },
        ),
{
    lemma_status_index_at_none(mappings, resp.status);
}

/// Law: a completed exchange with a declared status is handled under
/// that very mapping: the tagged pair of the status and its decoded
/// payload where the body decodes, and a decode error where it does
/// not. Holds for every endpoint whose statuses are unique.
pub proof fn lemma_declared_status_selects_mapping(
    name: Seq<char>,
    mappings: Seq<StatusMapping>,
    resp: RawResponseV,
    i: int,
)
    requires
        spec_statuses_unique(mappings),
        0 <= i < mappings.len(),
        mappings[i].status == resp.status,
    ensures
        spec_endpoint_result(name, mappings, Ok(resp)) == (match spec_decode_payload(
            mappings[i].payload,
            resp.body,
        ) {
            Some(p) => Ok::<(u16, PayloadV), EndpointErrorV>((resp.status, p)),
            None => Err::<(u16, PayloadV), EndpointErrorV>(
                EndpointErrorV::Decode { endpoint: name },
            ),
        }),
{
    assert(forall|k: int| 0 <= k < i ==> mappings[k].status != resp.status);
    lemma_status_index_at(mappings, resp.status, i);
}

/// Law: a mapping that declares no body yields the unit payload for
/// every body text alike; decoding never touches the body.
pub proof fn lemma_unit_mapping_ignores_body(b1: Seq<char>, b2: Seq<char>)
    ensures
        spec_decode_payload(PayloadKind::Unit, b1) == spec_decode_payload(PayloadKind::Unit, b2),
        spec_decode_payload(PayloadKind::Unit, b1) == Some(PayloadV::Unit),
{
}

/// How many holes a template has: the number of fragments a request
/// must supply.
pub open spec fn spec_holes(segs: Seq<PathSeg>) -> nat
    decreases segs.len(),
{
    if segs.len() == 0 {
        0
    } else {
        (if segs[0] is Hole {
            1nat
        } else {
            0nat
        }) + spec_holes(segs.drop_first())
    }
}

/// A template rendered with its fragments: literals stand for
/// themselves, and each hole takes the next fragment, in declared
/// order.
pub open spec fn spec_render_path(segs: Seq<PathSeg>, frags: Seq<Seq<char>>) -> Seq<char>
    decreases segs.len(),
{
    if segs.len() == 0 {
        Seq::<char>::empty()
    } else {
        match segs[0] {
            PathSeg::Lit(s) => s@ + spec_render_path(segs.drop_first(), frags),
            PathSeg::Hole => (if frags.len() > 0 {
                frags[0]
            } else {
                Seq::<char>::empty()
            }) + spec_render_path(segs.drop_first(), frags.drop_first()),
        }
    }
}

/// An absolute URL: the configured base address, then the path.
pub open spec fn spec_url(path: Seq<char>) -> Seq<char> {
    API_URL@ + path
}

/// Render a template's path with the given fragments.
pub fn render_path(segs: &Vec<PathSeg>, frags: &Vec<String>) -> (r: String)
    requires
        spec_holes(segs@) == frags@.len(),
    ensures
        r@ == spec_render_path(segs@, frags@.map_values(|s: String| s@)),
{
    let ghost fv = frags@.map_values(|s: String| s@);
    let mut out = String::new();
    let mut fidx: usize = 0;
    let n = segs.len();
    let m = frags.len();
    proof {
        assert(segs@.skip(0) =~= segs@);
        assert(fv.skip(0) =~= fv);
    }
    for i in 0..n
        invariant
            n == segs@.len(),
            fv == frags@.map_values(|s: String| s@),
            fv.len() == frags@.len(),
            m == frags@.len(),
            fidx <= m,
            spec_holes(segs@.skip(i as int)) == fv.len() - fidx,
            spec_render_path(segs@, fv) == out@ + spec_render_path(
                segs@.skip(i as int),
                fv.skip(fidx as int),
            ),
    {
        let ghost restsegs = segs@.skip(i as int);
        let ghost restfrags = fv.skip(fidx as int);
        let ghost before = out@;
        proof {
            assert(restsegs[0] == segs@[i as int]);
            assert(restsegs.drop_first() =~= segs@.skip(i as int + 1));
        }
        match &segs[i] {
            PathSeg::Lit(s) => {
                out.append(s);
                proof {
                    assert(before + (s@ + spec_render_path(restsegs.drop_first(), restfrags))
                        =~= out@ + spec_render_path(restsegs.drop_first(), restfrags));
                }
            },
            PathSeg::Hole => {
                proof {
                    assert(spec_holes(restsegs) == 1 + spec_holes(restsegs.drop_first()));
                    assert(fidx < fv.len());
                    assert(restfrags[0] == fv[fidx as int]);
                    assert(restfrags.drop_first() =~= fv.skip(fidx as int + 1));
                    assert(fv[fidx as int] == frags@[fidx as int]@);
                }
                out.append(frags[fidx].as_str());
                fidx = fidx + 1;
                proof {
                    assert(before + (restfrags[0] + spec_render_path(
                        restsegs.drop_first(),
                        restfrags.drop_first(),
                    )) =~= out@ + spec_render_path(restsegs.drop_first(), restfrags.drop_first()));
                }
            },
        }
    }
    proof {
        assert(segs@.skip(n as int) =~= Seq::<PathSeg>::empty());
        assert(out@ + Seq::<char>::empty() =~= out@);
    }
    out
}

/// Render a template into an absolute URL: the base address, then the
/// filled path.
pub fn endpoint_url(segs: &Vec<PathSeg>, frags: &Vec<String>) -> (r: String)
    requires
        spec_holes(segs@) == frags@.len(),
    ensures
        r@ == spec_url(spec_render_path(segs@, frags@.map_values(|s: String| s@))),
{
    let mut out = API_URL.to_owned();
    let path = render_path(segs, frags);
    out.append(path.as_str());
    out
}

/// Decode a body under the `Check` kind.
pub fn decode_check_body(body: &str) -> (r: Option<CheckResult>)
    ensures
        match r {
            Some(c) => spec_decode_payload(PayloadKind::Check, body@) == Some(PayloadV::Check(c)),
            None => spec_decode_payload(PayloadKind::Check, body@) is None,
        },
{
    match parse_json_text(body) {
        Some(j) => check_result_from_json(&j),
        None => None,
    }
}

/// Decode a body under the `Token` kind.
pub fn decode_token_body(body: &str) -> (r: Option<SessionToken>)
    ensures
        match r {
            Some(t) => spec_decode_payload(PayloadKind::Token, body@) == Some(
                PayloadV::Token(t@),
            ),
            None => spec_decode_payload(PayloadKind::Token, body@) is None,
        },
{
    match parse_json_text(body) {
        Some(j) => session_token_from_json(&j),
        None => None,
    }
}

/// Decode a body under the `LoginFailure` kind.
pub fn decode_login_failure_body(body: &str) -> (r: Option<LoginError>)
    ensures
        match r {
            Some(e) => spec_decode_payload(PayloadKind::LoginFailure, body@) == Some(
                PayloadV::LoginFailure(e),
            ),
            None => spec_decode_payload(PayloadKind::LoginFailure, body@) is None,
        },
{
    match parse_json_text(body) {
        Some(j) => login_error_from_json(&j),
        None => None,
    }
}

/// Decode a body under the `Session` kind.
pub fn decode_session_body(body: &str) -> (r: Option<TokenInfo>)
    ensures
        match r {
            Some(t) => spec_decode_payload(PayloadKind::Session, body@) == Some(
                PayloadV::Session(t@),
            ),
            None => spec_decode_payload(PayloadKind::Session, body@) is None,
        },
{
    match parse_json_text(body) {
        Some(j) => token_info_from_json(&j),
        None => None,
    }
}

/// Decode a body under the `IdList` kind.
pub fn decode_id_list_body(body: &str) -> (r: Option<Vec<Snowflake>>)
    ensures
        match r {
            Some(ids) => spec_decode_payload(PayloadKind::IdList, body@) == Some(
                PayloadV::IdList(ids@),
            ),
            None => spec_decode_payload(PayloadKind::IdList, body@) is None,
        },
{
    match parse_json_text(body) {
        Some(j) => id_list_from_json(&j),
        None => None,
    }
}

/// Decode a body under the `Registration` kind.
pub fn decode_registration_body(body: &str) -> (r: Option<RegistrationResult>)
    ensures
        match r {
            Some(o) => spec_decode_payload(PayloadKind::Registration, body@) == Some(
                PayloadV::Registration(o@),
            ),
            None => spec_decode_payload(PayloadKind::Registration, body@) is None,
        },
{
    match parse_json_text(body) {
        Some(j) => registration_result_from_json(&j),
        None => None,
    }
}

/// Decode a body under the `Pending` kind.
pub fn decode_pending_body(body: &str) -> (r: Option<PendingRegistration>)
    ensures
        match r {
            Some(p) => spec_decode_payload(PayloadKind::Pending, body@) == Some(
                PayloadV::Pending(p@),
            ),
            None => spec_decode_payload(PayloadKind::Pending, body@) is None,
        },
{
    match parse_json_text(body) {
        Some(j) => pending_registration_from_json(&j),
        None => None,
    }
}

/// Decode a body under the `Confirmation` kind.
pub fn decode_confirmation_body(body: &str) -> (r: Option<ConfirmationResult>)
    ensures
        match r {
            Some(c) => spec_decode_payload(PayloadKind::Confirmation, body@) == Some(
                PayloadV::Confirmation(c@),
            ),
            None => spec_decode_payload(PayloadKind::Confirmation, body@) is None,
        },
{
    match parse_json_text(body) {
        Some(j) => confirmation_result_from_json(&j),
        None => None,
    }
}

/// Decode a body under the `Sleep` kind.
pub fn decode_sleep_body(body: &str) -> (r: Option<SleepState>)
    ensures
        match r {
            Some(st) => spec_decode_payload(PayloadKind::Sleep, body@) == Some(
                PayloadV::Sleep(st),
            ),
            None => spec_decode_payload(PayloadKind::Sleep, body@) is None,
        },
{
    match parse_json_text(body) {
        Some(j) => sleep_state_from_json(&j),
        None => None,
    }
}

/// Decode a body under the `SleepList` kind.
pub fn decode_sleep_list_body(body: &str) -> (r: Option<Vec<SleepState>>)
    ensures
        match r {
            Some(states) => spec_decode_payload(PayloadKind::SleepList, body@) == Some(
                PayloadV::SleepList(states@),
            ),
            None => spec_decode_payload(PayloadKind::SleepList, body@) is None,
        },
{
    match parse_json_text(body) {
        Some(j) => sleep_list_from_json(&j),
        None => None,
    }
}

} // verus!
