//! The sleep-tracking endpoints and the list helpers around them.

use sleepwatch_client::endpoint::{EndpointError, RawResponse, TransportError};
use sleepwatch_client::sleep::{
    format_duration, sleep_create_new_current_response, sleep_delete_by_id_request,
    sleep_delete_by_id_response, sleep_delete_current_response, sleep_deletion_confirmed,
    sleep_duration_seconds, sleep_get_by_id_request, sleep_get_by_id_response,
    sleep_get_current_request, sleep_get_current_response, sleep_get_list_request,
    sleep_get_list_response, sleep_set_current_end_response, sort_by_end_desc,
    SleepCreateNewCurrentResponse, SleepDeleteByIdResponse, SleepDeleteCurrentResponse,
    SleepGetByIdResponse, SleepGetCurrentResponse, SleepGetListResponse,
    SleepSetCurrentEndResponse,
};
use sleepwatch_client::types::{SleepState, Snowflake};
use sleepwatch_client::API_URL;

fn completed(status: u16, body: &str) -> Result<RawResponse, TransportError> {
    Ok(RawResponse { status, body: body.to_string() })
}

fn failed() -> Result<RawResponse, TransportError> {
    Err(TransportError { message: "connection refused".to_string() })
}

fn record(id: u64, start: u64, end: Option<u64>) -> SleepState {
    SleepState { id: Snowflake(id), start, end }
}

#[test]
fn current_record_both_outcomes() {
    let r = sleep_get_current_response(completed(200, "{\"id\":3,\"start\":1000}"));
    assert_eq!(r, Ok(SleepGetCurrentResponse::Status200(record(3, 1000, None))));
    let r = sleep_get_current_response(completed(404, ""));
    assert_eq!(r, Ok(SleepGetCurrentResponse::Status404));
    assert!(matches!(
        sleep_get_current_response(failed()),
        Err(EndpointError::Transport(_))
    ));
}

#[test]
fn open_and_closed_records_decode() {
    // An absent or null `end` leaves the record open; a number closes it.
    let r = sleep_get_by_id_response(completed(200, "{\"id\":4,\"start\":10,\"end\":25}"));
    assert_eq!(r, Ok(SleepGetByIdResponse::Status200(record(4, 10, Some(25)))));
    let r = sleep_get_by_id_response(completed(200, "{\"id\":4,\"start\":10,\"end\":null}"));
    assert_eq!(r, Ok(SleepGetByIdResponse::Status200(record(4, 10, None))));
    let r = sleep_get_by_id_response(completed(200, "{\"id\":4,\"start\":10,\"end\":\"x\"}"));
    assert!(matches!(r, Err(EndpointError::Decode { endpoint: "sleep_get_by_id" })));
    let r = sleep_get_by_id_response(completed(404, ""));
    assert_eq!(r, Ok(SleepGetByIdResponse::Status404));
}

#[test]
fn starting_and_ending_sleep_decode() {
    let r = sleep_create_new_current_response(completed(200, "{\"id\":8,\"start\":50}"));
    assert_eq!(r, Ok(SleepCreateNewCurrentResponse::Status200(record(8, 50, None))));
    let r = sleep_set_current_end_response(completed(200, "{\"id\":8,\"start\":50,\"end\":90}"));
    assert_eq!(r, Ok(SleepSetCurrentEndResponse::Status200(record(8, 50, Some(90)))));
    let r = sleep_delete_current_response(completed(204, ""));
    assert_eq!(r, Ok(SleepDeleteCurrentResponse::Status204));
}

#[test]
fn sleep_list_decodes() {
    let body = "[{\"id\":1,\"start\":10,\"end\":20},{\"id\":2,\"start\":30}]";
    let r = sleep_get_list_response(completed(200, body));
    assert_eq!(
        r,
        Ok(SleepGetListResponse::Status200(vec![
            record(1, 10, Some(20)),
            record(2, 30, None),
        ]))
    );
    let r = sleep_get_list_response(completed(200, "[{\"id\":1}]"));
    assert!(matches!(r, Err(EndpointError::Decode { endpoint: "sleep_get_list" })));
}

#[test]
fn delete_record_twice_confirms_both_times() {
    let first = sleep_delete_by_id_response(completed(204, ""));
    assert_eq!(first, Ok(SleepDeleteByIdResponse::Status204));
    assert!(sleep_deletion_confirmed(&first));
    let second = sleep_delete_by_id_response(completed(404, ""));
    assert_eq!(second, Ok(SleepDeleteByIdResponse::Status404));
    assert!(sleep_deletion_confirmed(&second));
    assert!(!sleep_deletion_confirmed(&sleep_delete_by_id_response(failed())));
}

#[test]
fn sleep_request_urls() {
    assert_eq!(sleep_get_current_request().url, format!("{}sleep/current", API_URL));
    assert_eq!(sleep_get_list_request().url, format!("{}sleep/list", API_URL));
    assert_eq!(
        sleep_get_by_id_request(Snowflake(5)).url,
        format!("{}sleep/by_id/5", API_URL)
    );
    assert_eq!(
        sleep_delete_by_id_request(Snowflake(77)).url,
        format!("{}sleep/by_id/77", API_URL)
    );
}

#[test]
fn list_sorts_most_recently_ended_first() {
    let now = 100;
    let states = vec![
        record(1, 5, Some(20)),
        record(2, 30, None),  // open: counts as ending `now`
        record(3, 10, Some(60)),
        record(4, 1, Some(2)),
    ];
    let sorted = sort_by_end_desc(states, now);
    assert_eq!(
        sorted,
        vec![
            record(2, 30, None),
            record(3, 10, Some(60)),
            record(1, 5, Some(20)),
            record(4, 1, Some(2)),
        ]
    );
}

#[test]
fn sort_keeps_ties_and_empty_lists() {
    let now = 50;
    let sorted = sort_by_end_desc(Vec::new(), now);
    assert!(sorted.is_empty());
    let states = vec![record(1, 0, Some(9)), record(2, 0, Some(9))];
    let sorted = sort_by_end_desc(states, now);
    assert_eq!(sorted.len(), 2);
    assert!(sorted.contains(&record(1, 0, Some(9))));
    assert!(sorted.contains(&record(2, 0, Some(9))));
}

#[test]
fn durations_format_as_hours_minutes_seconds() {
    assert_eq!(format_duration(0), "0:00:00");
    assert_eq!(format_duration(59), "0:00:59");
    assert_eq!(format_duration(60), "0:01:00");
    assert_eq!(format_duration(3661), "1:01:01");
    assert_eq!(format_duration(86399), "23:59:59");
    assert_eq!(format_duration(90000), "25:00:00");
}

#[test]
fn duration_of_a_record() {
    let now = 1000;
    assert_eq!(sleep_duration_seconds(&record(1, 100, Some(400)), now), 300);
    assert_eq!(sleep_duration_seconds(&record(1, 100, None), now), 900);
    // A clock skew cannot underflow the duration.
    assert_eq!(sleep_duration_seconds(&record(1, 500, Some(400)), now), 0);
}
