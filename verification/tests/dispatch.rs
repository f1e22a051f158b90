use tmcp::response::{
    GetStreamKind, ResponseKind, accept_header_value, apply_opened_event_data,
    classify_delete_response, classify_get_response, classify_response,
};
use tmcp::errors::TmcpError;

#[test]
fn event_stream_always_yields_a_stream() {
    let r = classify_response(200, None, Some("text/event-stream".to_string()));
    assert_eq!(r, ResponseKind::EventStream);
    let r = classify_response(200, None, Some("text/event-stream; charset=utf-8".to_string()));
    assert_eq!(r, ResponseKind::EventStream);
}

#[test]
fn json_always_yields_one_message() {
    let r = classify_response(200, None, Some("application/json".to_string()));
    assert_eq!(r, ResponseKind::Json);
    let r = classify_response(200, None, Some("application/json; charset=utf-8".to_string()));
    assert_eq!(r, ResponseKind::Json);
}

#[test]
fn other_content_types_always_fail() {
    let r = classify_response(200, None, Some("text/html".to_string()));
    assert_eq!(r, ResponseKind::UnexpectedContentType(Some("text/html".to_string())));
    let r = classify_response(200, None, None);
    assert_eq!(r, ResponseKind::UnexpectedContentType(None));
}

#[test]
fn accepted_statuses_are_bodiless() {
    assert_eq!(classify_response(202, None, None), ResponseKind::Accepted);
    assert_eq!(classify_response(204, None, None), ResponseKind::Accepted);
}

#[test]
fn auth_challenge_carries_exact_header() {
    let r = classify_response(
        401,
        Some("Bearer realm=\"mcp\"".to_string()),
        Some("application/json".to_string()),
    );
    assert_eq!(r, ResponseKind::AuthRequired("Bearer realm=\"mcp\"".to_string()));
}

#[test]
fn unauthorized_without_challenge_is_generic_status_error() {
    let r = classify_response(401, None, Some("application/json".to_string()));
    assert_eq!(r, ResponseKind::StatusError(401));
}

#[test]
fn other_failures_are_status_errors() {
    assert_eq!(classify_response(500, None, None), ResponseKind::StatusError(500));
    assert_eq!(classify_response(404, None, None), ResponseKind::StatusError(404));
}

#[test]
fn delete_session_tolerates_405() {
    assert_eq!(classify_delete_response(405), Ok(()));
    assert_eq!(classify_delete_response(200), Ok(()));
    assert_eq!(classify_delete_response(204), Ok(()));
    assert_eq!(classify_delete_response(500), Err(500));
}

#[test]
fn get_stream_reports_405_specifically() {
    assert_eq!(classify_get_response(405, None), GetStreamKind::ServerDoesNotSupportSse);
    assert_eq!(classify_get_response(500, None), GetStreamKind::StatusError(500));
}

#[test]
fn get_stream_accepts_event_stream_and_json() {
    let r = classify_get_response(200, Some("text/event-stream".to_string()));
    assert_eq!(r, GetStreamKind::Stream);
    let r = classify_get_response(200, Some("application/json".to_string()));
    assert_eq!(r, GetStreamKind::Stream);
    let r = classify_get_response(200, Some("text/plain".to_string()));
    assert_eq!(r, GetStreamKind::UnexpectedContentType(Some("text/plain".to_string())));
    let r = classify_get_response(200, None);
    assert_eq!(r, GetStreamKind::UnexpectedContentType(None));
}

#[test]
fn opened_event_data_replaces_or_omits() {
    assert_eq!(apply_opened_event_data(Ok("plain".to_string())), Some("plain".to_string()));
    assert_eq!(
        apply_opened_event_data(Err(TmcpError::Base64("bad".to_string()))),
        None
    );
}

#[test]
fn accept_header_names_both_mime_types() {
    assert_eq!(accept_header_value(), "text/event-stream, application/json");
}
