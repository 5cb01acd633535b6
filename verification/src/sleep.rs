//! The sleep-tracking endpoints and the list helpers around them:
//! ordering records for display and rendering a record's duration.

use vstd::prelude::*;

use crate::endpoint::{
    classify_response, decode_sleep_body, decode_sleep_list_body, endpoint_url,
    lemma_status_index, spec_url, EndpointDef, EndpointError, Method, PathSeg, PayloadKind,
    PayloadV, RawResponse, RequestEnvelope, StatusMapping, TransportError,
};
use crate::endpoint::{spec_endpoint_result, view_raw};
use crate::endpoints::{lemma_render_lit_hole, lemma_render_single_lit};
use crate::types::{SleepState, Snowflake};
use crate::wire::{dec_digits, spec_digit_char, u64_to_dec};

verus! {

use vstd::multiset::Multiset;
use vstd::string::StringExecFns;

/// When a record effectively ends: its end instant, or `now` while it
/// is still open.
pub open spec fn spec_effective_end(s: SleepState, now: u64) -> u64 {
    match s.end {
        Some(e) => e,
        None => now,
    }
}

/// When a record effectively ends: its end instant, or `now` while it
/// is still open.
pub fn effective_end(s: &SleepState, now: u64) -> (r: u64)
    ensures
        r == spec_effective_end(*s, now),
{
    match s.end {
        Some(e) => e,
        None => now,
    }
}

/// Newest first: every record effectively ends no earlier than the ones
/// after it.
pub open spec fn spec_sorted_by_end_desc(states: Seq<SleepState>, now: u64) -> bool {
    forall|a: int, b: int|
        0 <= a < b < states.len() ==> spec_effective_end(states[a], now) >= spec_effective_end(
            states[b],
            now,
        )
}

proof fn lemma_insert_to_multiset(s: Seq<SleepState>, k: int, x: SleepState)
    requires
        0 <= k <= s.len(),
    ensures
        s.insert(k, x).to_multiset() == s.to_multiset().insert(x),
{
    broadcast use vstd::seq_lib::group_to_multiset_ensures;

    let t = s.insert(k, x);
    assert(t.remove(k) =~= s);
    assert(t[k] == x);
    assert(t.remove(k).to_multiset() =~= t.to_multiset().remove(x));
    assert(t.to_multiset().contains(x));
    assert(t.to_multiset() =~= t.to_multiset().remove(x).insert(x));
}

/// Order records for display, the most recently ended first; a record
/// that is still open counts as ending `now`. The result holds exactly
/// the given records.
pub fn sort_by_end_desc(states: Vec<SleepState>, now: u64) -> (r: Vec<SleepState>)
    ensures
        r@.to_multiset() == states@.to_multiset(),
        r@.len() == states@.len(),
        spec_sorted_by_end_desc(r@, now),
{
    broadcast use vstd::seq_lib::group_to_multiset_ensures;

    let n = states.len();
    let mut out: Vec<SleepState> = Vec::new();
    proof {
        assert(states@.skip(0) =~= states@);
        assert(Seq::<SleepState>::empty().to_multiset() =~= Multiset::<SleepState>::empty());
    }
    for i in 0..n
        invariant
            n == states@.len(),
            out@.len() == i,
            out@.to_multiset() == states@.subrange(0, i as int).to_multiset(),
            spec_sorted_by_end_desc(out@, now),
    {
        let x = states[i];
        let key = effective_end(&x, now);
        let m = out.len();
        let mut k: usize = 0;
        while k < m
            invariant
                m == out@.len(),
                k <= m,
                forall|idx: int|
                    0 <= idx < k ==> spec_effective_end(out@[idx], now) >= key,
            ensures
                k <= m,
                forall|idx: int|
                    0 <= idx < k ==> spec_effective_end(out@[idx], now) >= key,
                k < m ==> spec_effective_end(out@[k as int], now) < key,
            decreases m - k,
        {
            if effective_end(&out[k], now) < key {
                break;
            }
            k = k + 1;
        }
        let ghost before = out@;
        out.insert(k, x);
        proof {
            lemma_insert_to_multiset(before, k as int, x);
            assert(states@.subrange(0, i as int).push(states@[i as int]) =~= states@.subrange(
                0,
                i as int + 1,
            ));
            states@.subrange(0, i as int).to_multiset_ensures();
            assert(states@.subrange(0, i as int).push(states@[i as int]).to_multiset()
                =~= states@.subrange(0, i as int).to_multiset().insert(states@[i as int]));
            assert(states@.subrange(0, i as int + 1).to_multiset() =~= states@.subrange(
                0,
                i as int,
            ).to_multiset().insert(states@[i as int]));
            assert forall|a: int, b: int|
                0 <= a < b < out@.len() implies spec_effective_end(out@[a], now)
                >= spec_effective_end(out@[b], now) by {
                if b < k {
                } else if a == k as int {
                    assert(out@[b] == before[b - 1]);
                    if k < before.len() {
                        assert(spec_effective_end(before[k as int], now) < key);
                    }
                } else if b == k as int {
                    assert(out@[a] == before[a]);
                } else if a < k && b > k {
                    assert(out@[a] == before[a]);
                    assert(out@[b] == before[b - 1]);
                } else {
                    assert(out@[a] == before[a - 1]);
                    assert(out@[b] == before[b - 1]);
                }
            }
        }
    }
    proof {
        assert(states@.subrange(0, n as int) =~= states@);
    }
    out
}

/// Two decimal digits for a value under a hundred: a leading zero where
/// one digit would do.
pub open spec fn spec_two_digits(n: nat) -> Seq<char> {
    if n < 10 {
        seq!['0', spec_digit_char(n)]
    } else {
        dec_digits(n)
    }
}

/// The display form of a duration given in seconds: whole hours, then
/// minutes and seconds, each two digits, separated by colons.
pub open spec fn spec_duration_text(total: nat) -> Seq<char> {
    dec_digits(total / 3600) + ":"@ + spec_two_digits((total / 60) % 60) + ":"@ + spec_two_digits(
        total % 60,
    )
}

fn two_digits(n: u64) -> (r: String)
    requires
        n < 100,
    ensures
        r@ == spec_two_digits(n as nat),
{
    if n < 10 {
        proof {
            reveal_strlit("0");
        }
        let mut out = "0".to_owned();
        out.append(u64_to_dec(n).as_str());
        proof {
            assert(out@ =~= spec_two_digits(n as nat));
        }
        out
    } else {
        u64_to_dec(n)
    }
}

/// Render a duration of whole seconds as `h:mm:ss`.
pub fn format_duration(total: u64) -> (r: String)
    ensures
        r@ == spec_duration_text(total as nat),
{
    proof {
        reveal_strlit(":");
    }
    let mut out = u64_to_dec(total / 3600);
    out.append(":");
    out.append(two_digits((total / 60) % 60).as_str());
    out.append(":");
    out.append(two_digits(total % 60).as_str());
    proof {
        assert(out@ =~= spec_duration_text(total as nat));
    }
    out
}

/// How long a record lasted, in whole seconds: from its start to its
/// effective end, and zero where a clock skew puts the end before the
/// start.
pub open spec fn spec_sleep_duration(s: SleepState, now: u64) -> nat {
    let end = spec_effective_end(s, now);
    if end >= s.start {
        (end - s.start) as nat
    } else {
        0
    }
}

/// How long a record lasted, in whole seconds.
pub fn sleep_duration_seconds(s: &SleepState, now: u64) -> (r: u64)
    ensures
        r as nat == spec_sleep_duration(*s, now),
{
    let end = effective_end(s, now);
    if end >= s.start {
        end - s.start
    } else {
        0
    }
}


/// The declared mappings of the current-sleep endpoint.
pub open spec fn sleep_get_current_mappings() -> Seq<StatusMapping> {
    seq![
        StatusMapping { status: 200, payload: PayloadKind::Sleep },
        StatusMapping { status: 404, payload: PayloadKind::Unit },
    ]
}

/// The current-sleep endpoint: `GET sleep/current`.
pub fn sleep_get_current_def() -> (d: EndpointDef)
    ensures
        d.name@ == "sleep_get_current"@,
        d.method == Method::Get,
        d.path@.len() == 1,
        (d.path@[0] matches PathSeg::Lit(s) && s@ == "sleep/current"@),
        d.mappings@ == sleep_get_current_mappings(),
        d.wf(),
{
    let mut path: Vec<PathSeg> = Vec::new();
    path.push(PathSeg::Lit("sleep/current"));
    let mut mappings: Vec<StatusMapping> = Vec::new();
    mappings.push(StatusMapping { status: 200, payload: PayloadKind::Sleep });
    mappings.push(StatusMapping { status: 404, payload: PayloadKind::Unit });
    proof {
        assert(mappings@ =~= sleep_get_current_mappings());
    }
    EndpointDef { name: "sleep_get_current", method: Method::Get, path, mappings }
}

/// Build the current-sleep request.
pub fn sleep_get_current_request() -> (r: RequestEnvelope)
    ensures
        r.method == Method::Get,
        r.url@ == spec_url("sleep/current"@),
        r.body is None,
        r.include_credentials,
{
    let d = sleep_get_current_def();
    let frags: Vec<String> = Vec::new();
    proof {
        lemma_render_single_lit(d.path@, "sleep/current"@);
        assert(frags@.map_values(|s: String| s@) =~= Seq::<Seq<char>>::empty());
    }
    let url = endpoint_url(&d.path, &frags);
    RequestEnvelope { url, method: d.method, body: None, include_credentials: true }
}

/// The tagged outcomes the current-sleep endpoint declares: the open
/// record, or a bodiless 404 while the user is not sleeping.
#[derive(Debug, Clone, Copy, PartialEq, Eq, Structural)]
pub enum SleepGetCurrentResponse {
    Status200(SleepState),
    Status404,
}

/// The tagged outcome a dispatch pair stands for, for the current-sleep
/// endpoint.
pub open spec fn sleep_get_current_outcome(o: (u16, PayloadV), r: SleepGetCurrentResponse) -> bool {
    match r {
        SleepGetCurrentResponse::Status200(st) => o == (200u16, PayloadV::Sleep(st)),
        SleepGetCurrentResponse::Status404 => o == (404u16, PayloadV::Unit),
    }
}

/// Decide the current-sleep call from its raw transport outcome.
pub fn sleep_get_current_response(raw: Result<RawResponse, TransportError>) -> (r: Result<
    SleepGetCurrentResponse,
    EndpointError,
>)
    ensures
        ({
            let s = spec_endpoint_result(
                "sleep_get_current"@,
                sleep_get_current_mappings(),
                view_raw(raw),
            );
            match r {
                Ok(out) => s matches Ok(o) && sleep_get_current_outcome(o, out),
                Err(e) => s matches Err(ev) && ev == e@,
            }
        }),
{
    let d = sleep_get_current_def();
    match classify_response(d.name, &d.mappings, raw) {
        Err(e) => Err(e),
        Ok((i, resp)) => {
            proof {
                lemma_status_index(d.mappings@, resp.status);
            }
            if i == 0 {
                match decode_sleep_body(resp.body.as_str()) {
                    Some(st) => Ok(SleepGetCurrentResponse::Status200(st)),
                    None => Err(EndpointError::Decode { endpoint: d.name }),
                }
            } else {
                Ok(SleepGetCurrentResponse::Status404)
            }
        },
    }
}

/// The declared mappings of the sleep-start endpoint.
pub open spec fn sleep_create_new_current_mappings() -> Seq<StatusMapping> {
    seq![StatusMapping { status: 200, payload: PayloadKind::Sleep }]
}

/// The sleep-start endpoint: `POST sleep/current`.
pub fn sleep_create_new_current_def() -> (d: EndpointDef)
    ensures
        d.name@ == "sleep_create_new_current"@,
        d.method == Method::Post,
        d.path@.len() == 1,
        (d.path@[0] matches PathSeg::Lit(s) && s@ == "sleep/current"@),
        d.mappings@ == sleep_create_new_current_mappings(),
        d.wf(),
{
    let mut path: Vec<PathSeg> = Vec::new();
    path.push(PathSeg::Lit("sleep/current"));
    let mut mappings: Vec<StatusMapping> = Vec::new();
    mappings.push(StatusMapping { status: 200, payload: PayloadKind::Sleep });
    proof {
        assert(mappings@ =~= sleep_create_new_current_mappings());
    }
    EndpointDef { name: "sleep_create_new_current", method: Method::Post, path, mappings }
}

/// Build the sleep-start request.
pub fn sleep_create_new_current_request() -> (r: RequestEnvelope)
    ensures
        r.method == Method::Post,
        r.url@ == spec_url("sleep/current"@),
        r.body is None,
        r.include_credentials,
{
    let d = sleep_create_new_current_def();
    let frags: Vec<String> = Vec::new();
    proof {
        lemma_render_single_lit(d.path@, "sleep/current"@);
        assert(frags@.map_values(|s: String| s@) =~= Seq::<Seq<char>>::empty());
    }
    let url = endpoint_url(&d.path, &frags);
    RequestEnvelope { url, method: d.method, body: None, include_credentials: true }
}

/// The tagged outcomes the sleep-start endpoint declares.
#[derive(Debug, Clone, Copy, PartialEq, Eq, Structural)]
pub enum SleepCreateNewCurrentResponse {
    Status200(SleepState),
}

/// The tagged outcome a dispatch pair stands for, for the sleep-start
/// endpoint.
pub open spec fn sleep_create_new_current_outcome(o: (u16, PayloadV), r: SleepCreateNewCurrentResponse) -> bool {
    match r {
        SleepCreateNewCurrentResponse::Status200(st) => o == (200u16, PayloadV::Sleep(st)),
    }
}

/// Decide the sleep-start call from its raw transport outcome.
pub fn sleep_create_new_current_response(raw: Result<RawResponse, TransportError>) -> (r: Result<
    SleepCreateNewCurrentResponse,
    EndpointError,
>)
    ensures
        ({
            let s = spec_endpoint_result("sleep_create_new_current"@, sleep_create_new_current_mappings(), view_raw(raw));
            match r {
                Ok(out) => s matches Ok(o) && sleep_create_new_current_outcome(o, out),
                Err(e) => s matches Err(ev) && ev == e@,
            }
        }),
{
    let d = sleep_create_new_current_def();
    match classify_response(d.name, &d.mappings, raw) {
        Err(e) => Err(e),
        Ok((_, resp)) => {
            proof {
                lemma_status_index(d.mappings@, resp.status);
            }
            match decode_sleep_body(resp.body.as_str()) {
                Some(st) => Ok(SleepCreateNewCurrentResponse::Status200(st)),
                None => Err(EndpointError::Decode { endpoint: d.name }),
            }
        },
    }
}

/// The declared mappings of the sleep-restart endpoint.
pub open spec fn sleep_set_current_start_mappings() -> Seq<StatusMapping> {
    seq![StatusMapping { status: 200, payload: PayloadKind::Sleep }]
}

/// The sleep-restart endpoint: `POST sleep/current/start`.
pub fn sleep_set_current_start_def() -> (d: EndpointDef)
    ensures
        d.name@ == "sleep_set_current_start"@,
        d.method == Method::Post,
        d.path@.len() == 1,
        (d.path@[0] matches PathSeg::Lit(s) && s@ == "sleep/current/start"@),
        d.mappings@ == sleep_set_current_start_mappings(),
        d.wf(),
{
    let mut path: Vec<PathSeg> = Vec::new();
    path.push(PathSeg::Lit("sleep/current/start"));
    let mut mappings: Vec<StatusMapping> = Vec::new();
    mappings.push(StatusMapping { status: 200, payload: PayloadKind::Sleep });
    proof {
        assert(mappings@ =~= sleep_set_current_start_mappings());
    }
    EndpointDef { name: "sleep_set_current_start", method: Method::Post, path, mappings }
}

/// Build the sleep-restart request.
pub fn sleep_set_current_start_request() -> (r: RequestEnvelope)
    ensures
        r.method == Method::Post,
        r.url@ == spec_url("sleep/current/start"@),
        r.body is None,
        r.include_credentials,
{
    let d = sleep_set_current_start_def();
    let frags: Vec<String> = Vec::new();
    proof {
        lemma_render_single_lit(d.path@, "sleep/current/start"@);
        assert(frags@.map_values(|s: String| s@) =~= Seq::<Seq<char>>::empty());
    }
    let url = endpoint_url(&d.path, &frags);
    RequestEnvelope { url, method: d.method, body: None, include_credentials: true }
}

/// The tagged outcomes the sleep-restart endpoint declares.
#[derive(Debug, Clone, Copy, PartialEq, Eq, Structural)]
pub enum SleepSetCurrentStartResponse {
    Status200(SleepState),
}

/// The tagged outcome a dispatch pair stands for, for the sleep-restart
/// endpoint.
pub open spec fn sleep_set_current_start_outcome(o: (u16, PayloadV), r: SleepSetCurrentStartResponse) -> bool {
    match r {
        SleepSetCurrentStartResponse::Status200(st) => o == (200u16, PayloadV::Sleep(st)),
    }
}

/// Decide the sleep-restart call from its raw transport outcome.
pub fn sleep_set_current_start_response(raw: Result<RawResponse, TransportError>) -> (r: Result<
    SleepSetCurrentStartResponse,
    EndpointError,
>)
    ensures
        ({
            let s = spec_endpoint_result("sleep_set_current_start"@, sleep_set_current_start_mappings(), view_raw(raw));
            match r {
                Ok(out) => s matches Ok(o) && sleep_set_current_start_outcome(o, out),
                Err(e) => s matches Err(ev) && ev == e@,
            }
        }),
{
    let d = sleep_set_current_start_def();
    match classify_response(d.name, &d.mappings, raw) {
        Err(e) => Err(e),
        Ok((_, resp)) => {
            proof {
                lemma_status_index(d.mappings@, resp.status);
            }
            match decode_sleep_body(resp.body.as_str()) {
                Some(st) => Ok(SleepSetCurrentStartResponse::Status200(st)),
                None => Err(EndpointError::Decode { endpoint: d.name }),
            }
        },
    }
}

/// The declared mappings of the wake-up endpoint.
pub open spec fn sleep_set_current_end_mappings() -> Seq<StatusMapping> {
    seq![StatusMapping { status: 200, payload: PayloadKind::Sleep }]
}

/// The wake-up endpoint: `POST sleep/current/end`.
pub fn sleep_set_current_end_def() -> (d: EndpointDef)
    ensures
        d.name@ == "sleep_set_current_end"@,
        d.method == Method::Post,
        d.path@.len() == 1,
        (d.path@[0] matches PathSeg::Lit(s) && s@ == "sleep/current/end"@),
        d.mappings@ == sleep_set_current_end_mappings(),
        d.wf(),
{
    let mut path: Vec<PathSeg> = Vec::new();
    path.push(PathSeg::Lit("sleep/current/end"));
    let mut mappings: Vec<StatusMapping> = Vec::new();
    mappings.push(StatusMapping { status: 200, payload: PayloadKind::Sleep });
    proof {
        assert(mappings@ =~= sleep_set_current_end_mappings());
    }
    EndpointDef { name: "sleep_set_current_end", method: Method::Post, path, mappings }
}

/// Build the wake-up request.
pub fn sleep_set_current_end_request() -> (r: RequestEnvelope)
    ensures
        r.method == Method::Post,
        r.url@ == spec_url("sleep/current/end"@),
        r.body is None,
        r.include_credentials,
{
    let d = sleep_set_current_end_def();
    let frags: Vec<String> = Vec::new();
    proof {
        lemma_render_single_lit(d.path@, "sleep/current/end"@);
        assert(frags@.map_values(|s: String| s@) =~= Seq::<Seq<char>>::empty());
    }
    let url = endpoint_url(&d.path, &frags);
    RequestEnvelope { url, method: d.method, body: None, include_credentials: true }
}

/// The tagged outcomes the wake-up endpoint declares.
#[derive(Debug, Clone, Copy, PartialEq, Eq, Structural)]
pub enum SleepSetCurrentEndResponse {
    Status200(SleepState),
}

/// The tagged outcome a dispatch pair stands for, for the wake-up
/// endpoint.
pub open spec fn sleep_set_current_end_outcome(o: (u16, PayloadV), r: SleepSetCurrentEndResponse) -> bool {
    match r {
        SleepSetCurrentEndResponse::Status200(st) => o == (200u16, PayloadV::Sleep(st)),
    }
}

/// Decide the wake-up call from its raw transport outcome.
pub fn sleep_set_current_end_response(raw: Result<RawResponse, TransportError>) -> (r: Result<
    SleepSetCurrentEndResponse,
    EndpointError,
>)
    ensures
        ({
            let s = spec_endpoint_result("sleep_set_current_end"@, sleep_set_current_end_mappings(), view_raw(raw));
            match r {
                Ok(out) => s matches Ok(o) && sleep_set_current_end_outcome(o, out),
                Err(e) => s matches Err(ev) && ev == e@,
            }
        }),
{
    let d = sleep_set_current_end_def();
    match classify_response(d.name, &d.mappings, raw) {
        Err(e) => Err(e),
        Ok((_, resp)) => {
            proof {
                lemma_status_index(d.mappings@, resp.status);
            }
            match decode_sleep_body(resp.body.as_str()) {
                Some(st) => Ok(SleepSetCurrentEndResponse::Status200(st)),
                None => Err(EndpointError::Decode { endpoint: d.name }),
            }
        },
    }
}

/// The declared mappings of the open-record-deletion endpoint.
pub open spec fn sleep_delete_current_mappings() -> Seq<StatusMapping> {
    seq![StatusMapping { status: 204, payload: PayloadKind::Unit }]
}

/// The open-record-deletion endpoint: `DELETE sleep/current`.
pub fn sleep_delete_current_def() -> (d: EndpointDef)
    ensures
        d.name@ == "sleep_delete_current"@,
        d.method == Method::Delete,
        d.path@.len() == 1,
        (d.path@[0] matches PathSeg::Lit(s) && s@ == "sleep/current"@),
        d.mappings@ == sleep_delete_current_mappings(),
        d.wf(),
{
    let mut path: Vec<PathSeg> = Vec::new();
    path.push(PathSeg::Lit("sleep/current"));
    let mut mappings: Vec<StatusMapping> = Vec::new();
    mappings.push(StatusMapping { status: 204, payload: PayloadKind::Unit });
    proof {
        assert(mappings@ =~= sleep_delete_current_mappings());
    }
    EndpointDef { name: "sleep_delete_current", method: Method::Delete, path, mappings }
}

/// Build the open-record-deletion request.
pub fn sleep_delete_current_request() -> (r: RequestEnvelope)
    ensures
        r.method == Method::Delete,
        r.url@ == spec_url("sleep/current"@),
        r.body is None,
        r.include_credentials,
{
    let d = sleep_delete_current_def();
    let frags: Vec<String> = Vec::new();
    proof {
        lemma_render_single_lit(d.path@, "sleep/current"@);
        assert(frags@.map_values(|s: String| s@) =~= Seq::<Seq<char>>::empty());
    }
    let url = endpoint_url(&d.path, &frags);
    RequestEnvelope { url, method: d.method, body: None, include_credentials: true }
}

/// The tagged outcomes the open-record-deletion endpoint declares.
#[derive(Debug, Clone, Copy, PartialEq, Eq, Structural)]
pub enum SleepDeleteCurrentResponse {
    Status204,
}

/// The tagged outcome a dispatch pair stands for, for the
/// open-record-deletion endpoint.
pub open spec fn sleep_delete_current_outcome(
    o: (u16, PayloadV),
    r: SleepDeleteCurrentResponse,
) -> bool {
    match r {
        SleepDeleteCurrentResponse::Status204 => o == (204u16, PayloadV::Unit),
    }
}

/// Decide the open-record-deletion call from its raw transport outcome.
pub fn sleep_delete_current_response(raw: Result<RawResponse, TransportError>) -> (r: Result<
    SleepDeleteCurrentResponse,
    EndpointError,
>)
    ensures
        ({
            let s = spec_endpoint_result(
                "sleep_delete_current"@,
                sleep_delete_current_mappings(),
                view_raw(raw),
            );
            match r {
                Ok(out) => s matches Ok(o) && sleep_delete_current_outcome(o, out),
                Err(e) => s matches Err(ev) && ev == e@,
            }
        }),
{
    let d = sleep_delete_current_def();
    match classify_response(d.name, &d.mappings, raw) {
        Err(e) => Err(e),
        Ok((_, resp)) => {
            proof {
                lemma_status_index(d.mappings@, resp.status);
            }
            Ok(SleepDeleteCurrentResponse::Status204)
        },
    }
}

/// The declared mappings of the sleep-list endpoint.
pub open spec fn sleep_get_list_mappings() -> Seq<StatusMapping> {
    seq![StatusMapping { status: 200, payload: PayloadKind::SleepList }]
}

/// The sleep-list endpoint: `GET sleep/list`.
pub fn sleep_get_list_def() -> (d: EndpointDef)
    ensures
        d.name@ == "sleep_get_list"@,
        d.method == Method::Get,
        d.path@.len() == 1,
        (d.path@[0] matches PathSeg::Lit(s) && s@ == "sleep/list"@),
        d.mappings@ == sleep_get_list_mappings(),
        d.wf(),
{
    let mut path: Vec<PathSeg> = Vec::new();
    path.push(PathSeg::Lit("sleep/list"));
    let mut mappings: Vec<StatusMapping> = Vec::new();
    mappings.push(StatusMapping { status: 200, payload: PayloadKind::SleepList });
    proof {
        assert(mappings@ =~= sleep_get_list_mappings());
    }
    EndpointDef { name: "sleep_get_list", method: Method::Get, path, mappings }
}

/// Build the sleep-list request.
pub fn sleep_get_list_request() -> (r: RequestEnvelope)
    ensures
        r.method == Method::Get,
        r.url@ == spec_url("sleep/list"@),
        r.body is None,
        r.include_credentials,
{
    let d = sleep_get_list_def();
    let frags: Vec<String> = Vec::new();
    proof {
        lemma_render_single_lit(d.path@, "sleep/list"@);
        assert(frags@.map_values(|s: String| s@) =~= Seq::<Seq<char>>::empty());
    }
    let url = endpoint_url(&d.path, &frags);
    RequestEnvelope { url, method: d.method, body: None, include_credentials: true }
}

/// The tagged outcomes the sleep-list endpoint declares.
#[derive(Debug, Clone, PartialEq, Eq)]
pub enum SleepGetListResponse {
    Status200(Vec<SleepState>),
}

/// The tagged outcome a dispatch pair stands for, for the sleep-list
/// endpoint.
pub open spec fn sleep_get_list_outcome(o: (u16, PayloadV), r: SleepGetListResponse) -> bool {
    match r {
        SleepGetListResponse::Status200(states) => o == (200u16, PayloadV::SleepList(states@)),
    }
}

/// Decide the sleep-list call from its raw transport outcome.
pub fn sleep_get_list_response(raw: Result<RawResponse, TransportError>) -> (r: Result<
    SleepGetListResponse,
    EndpointError,
>)
    ensures
        ({
            let s = spec_endpoint_result(
                "sleep_get_list"@,
                sleep_get_list_mappings(),
                view_raw(raw),
            );
            match r {
                Ok(out) => s matches Ok(o) && sleep_get_list_outcome(o, out),
                Err(e) => s matches Err(ev) && ev == e@,
            }
        }),
{
    let d = sleep_get_list_def();
    match classify_response(d.name, &d.mappings, raw) {
        Err(e) => Err(e),
        Ok((_, resp)) => {
            proof {
                lemma_status_index(d.mappings@, resp.status);
            }
            match decode_sleep_list_body(resp.body.as_str()) {
                Some(states) => Ok(SleepGetListResponse::Status200(states)),
                None => Err(EndpointError::Decode { endpoint: d.name }),
            }
        },
    }
}

/// The declared mappings of the record-by-id endpoint.
pub open spec fn sleep_get_by_id_mappings() -> Seq<StatusMapping> {
    seq![
        StatusMapping { status: 200, payload: PayloadKind::Sleep },
        StatusMapping { status: 404, payload: PayloadKind::Unit },
    ]
}

/// The record-by-id endpoint: `GET sleep/by_id/{id}`.
pub fn sleep_get_by_id_def() -> (d: EndpointDef)
    ensures
        d.name@ == "sleep_get_by_id"@,
        d.method == Method::Get,
        d.path@.len() == 2,
        (d.path@[0] matches PathSeg::Lit(s) && s@ == "sleep/by_id/"@),
        d.path@[1] is Hole,
        d.mappings@ == sleep_get_by_id_mappings(),
        d.wf(),
{
    let mut path: Vec<PathSeg> = Vec::new();
    path.push(PathSeg::Lit("sleep/by_id/"));
    path.push(PathSeg::Hole);
    let mut mappings: Vec<StatusMapping> = Vec::new();
    mappings.push(StatusMapping { status: 200, payload: PayloadKind::Sleep });
    mappings.push(StatusMapping { status: 404, payload: PayloadKind::Unit });
    proof {
        assert(mappings@ =~= sleep_get_by_id_mappings());
    }
    EndpointDef { name: "sleep_get_by_id", method: Method::Get, path, mappings }
}

/// Build the record-by-id request.
pub fn sleep_get_by_id_request(id: Snowflake) -> (r: RequestEnvelope)
    ensures
        r.method == Method::Get,
        r.url@ == spec_url("sleep/by_id/"@ + dec_digits(id.0 as nat)),
        r.body is None,
        r.include_credentials,
{
    let d = sleep_get_by_id_def();
    let mut frags: Vec<String> = Vec::new();
    frags.push(id.to_path_fragment());
    proof {
        lemma_render_lit_hole(d.path@, "sleep/by_id/"@, dec_digits(id.0 as nat));
        assert(frags@.map_values(|s: String| s@) =~= seq![dec_digits(id.0 as nat)]);
    }
    let url = endpoint_url(&d.path, &frags);
    RequestEnvelope { url, method: d.method, body: None, include_credentials: true }
}

/// The tagged outcomes the record-by-id endpoint declares.
#[derive(Debug, Clone, Copy, PartialEq, Eq, Structural)]
pub enum SleepGetByIdResponse {
    Status200(SleepState),
    Status404,
}

/// The tagged outcome a dispatch pair stands for, for the record-by-id
/// endpoint.
pub open spec fn sleep_get_by_id_outcome(o: (u16, PayloadV), r: SleepGetByIdResponse) -> bool {
    match r {
        SleepGetByIdResponse::Status200(st) => o == (200u16, PayloadV::Sleep(st)),
        SleepGetByIdResponse::Status404 => o == (404u16, PayloadV::Unit),
    }
}

/// Decide the record-by-id call from its raw transport outcome.
pub fn sleep_get_by_id_response(raw: Result<RawResponse, TransportError>) -> (r: Result<
    SleepGetByIdResponse,
    EndpointError,
>)
    ensures
        ({
            let s = spec_endpoint_result(
                "sleep_get_by_id"@,
                sleep_get_by_id_mappings(),
                view_raw(raw),
            );
            match r {
                Ok(out) => s matches Ok(o) && sleep_get_by_id_outcome(o, out),
                Err(e) => s matches Err(ev) && ev == e@,
            }
        }),
{
    let d = sleep_get_by_id_def();
    match classify_response(d.name, &d.mappings, raw) {
        Err(e) => Err(e),
        Ok((i, resp)) => {
            proof {
                lemma_status_index(d.mappings@, resp.status);
            }
            if i == 0 {
                match decode_sleep_body(resp.body.as_str()) {
                    Some(st) => Ok(SleepGetByIdResponse::Status200(st)),
                    None => Err(EndpointError::Decode { endpoint: d.name }),
                }
            } else {
                Ok(SleepGetByIdResponse::Status404)
            }
        },
    }
}

/// The declared mappings of the record-deletion endpoint.
pub open spec fn sleep_delete_by_id_mappings() -> Seq<StatusMapping> {
    seq![
        StatusMapping { status: 204, payload: PayloadKind::Unit },
        StatusMapping { status: 404, payload: PayloadKind::Unit },
    ]
}

/// The record-deletion endpoint: `DELETE sleep/by_id/{id}`. A 204
/// confirms the deletion; a 404 says the record was already gone — both
/// are declared outcomes, not errors.
pub fn sleep_delete_by_id_def() -> (d: EndpointDef)
    ensures
        d.name@ == "sleep_delete_by_id"@,
        d.method == Method::Delete,
        d.path@.len() == 2,
        (d.path@[0] matches PathSeg::Lit(s) && s@ == "sleep/by_id/"@),
        d.path@[1] is Hole,
        d.mappings@ == sleep_delete_by_id_mappings(),
        d.wf(),
{
    let mut path: Vec<PathSeg> = Vec::new();
    path.push(PathSeg::Lit("sleep/by_id/"));
    path.push(PathSeg::Hole);
    let mut mappings: Vec<StatusMapping> = Vec::new();
    mappings.push(StatusMapping { status: 204, payload: PayloadKind::Unit });
    mappings.push(StatusMapping { status: 404, payload: PayloadKind::Unit });
    proof {
        assert(mappings@ =~= sleep_delete_by_id_mappings());
    }
    EndpointDef { name: "sleep_delete_by_id", method: Method::Delete, path, mappings }
}

/// Build the record-deletion request.
pub fn sleep_delete_by_id_request(id: Snowflake) -> (r: RequestEnvelope)
    ensures
        r.method == Method::Delete,
        r.url@ == spec_url("sleep/by_id/"@ + dec_digits(id.0 as nat)),
        r.body is None,
        r.include_credentials,
{
    let d = sleep_delete_by_id_def();
    let mut frags: Vec<String> = Vec::new();
    frags.push(id.to_path_fragment());
    proof {
        lemma_render_lit_hole(d.path@, "sleep/by_id/"@, dec_digits(id.0 as nat));
        assert(frags@.map_values(|s: String| s@) =~= seq![dec_digits(id.0 as nat)]);
    }
    let url = endpoint_url(&d.path, &frags);
    RequestEnvelope { url, method: d.method, body: None, include_credentials: true }
}

/// The tagged outcomes the record-deletion endpoint declares.
#[derive(Debug, Clone, Copy, PartialEq, Eq, Structural)]
pub enum SleepDeleteByIdResponse {
    Status204,
    Status404,
}

/// The tagged outcome a dispatch pair stands for, for the
/// record-deletion endpoint.
pub open spec fn sleep_delete_by_id_outcome(
    o: (u16, PayloadV),
    r: SleepDeleteByIdResponse,
) -> bool {
    match r {
        SleepDeleteByIdResponse::Status204 => o == (204u16, PayloadV::Unit),
        SleepDeleteByIdResponse::Status404 => o == (404u16, PayloadV::Unit),
    }
}

/// Decide the record-deletion call from its raw transport outcome.
pub fn sleep_delete_by_id_response(raw: Result<RawResponse, TransportError>) -> (r: Result<
    SleepDeleteByIdResponse,
    EndpointError,
>)
    ensures
        ({
            let s = spec_endpoint_result(
                "sleep_delete_by_id"@,
                sleep_delete_by_id_mappings(),
                view_raw(raw),
            );
            match r {
                Ok(out) => s matches Ok(o) && sleep_delete_by_id_outcome(o, out),
                Err(e) => s matches Err(ev) && ev == e@,
            }
        }),
{
    let d = sleep_delete_by_id_def();
    match classify_response(d.name, &d.mappings, raw) {
        Err(e) => Err(e),
        Ok((i, resp)) => {
            proof {
                lemma_status_index(d.mappings@, resp.status);
            }
            if i == 0 {
                Ok(SleepDeleteByIdResponse::Status204)
            } else {
                Ok(SleepDeleteByIdResponse::Status404)
            }
        },
    }
}

/// The row's decision: both a 204 (deleted now) and a 404 (already
/// gone) confirm that the record no longer exists; only a failure
/// leaves the deletion unconfirmed.
pub fn sleep_deletion_confirmed(r: &Result<SleepDeleteByIdResponse, EndpointError>) -> (b: bool)
    ensures
        b == (r is Ok),
{
    match r {
        Ok(_) => true,
        Err(_) => false,
    }
}

} // verus!
