use vstd::prelude::*;
use crate::errors::TmcpError;
use crate::strings::{is_prefix_of, starts_with_prefix};

verus! {

pub open spec fn is_success(status: u16) -> bool {
    200 <= status < 300
}

pub open spec fn is_event_stream_ct(ct: Seq<char>) -> bool {
    is_prefix_of("text/event-stream"@, ct)
}

pub open spec fn is_json_ct(ct: Seq<char>) -> bool {
    is_prefix_of("application/json"@, ct)
}

/// What a response to `postMessage` dispatches to.
#[derive(Debug, Clone, PartialEq)]
pub enum ResponseKind {
    /// A 401 carrying `WWW-Authenticate`: the caller may retry with
    /// credentials; the header value rides along unchanged.
    AuthRequired(String),
    /// A bodiless accepted result (202 or 204).
    Accepted,
    /// Any other non-success status: fatal to this call.
    StatusError(u16),
    /// A successful event-stream response: the body is a lazy event sequence.
    EventStream,
    /// A successful JSON response: the body is one structured message.
    Json,
    /// A successful response of any other content type: fatal.
    UnexpectedContentType(Option<String>),
}

/// Dispatch on the status, authentication challenge and content type of a
/// response to a posted message.
///
/// A 401 with `WWW-Authenticate` yields `AuthRequired` with that exact header
/// value; a 401 without it falls through to the generic status error. An
/// event-stream content type always yields a stream, JSON always yields one
/// structured message, and anything else always fails.
pub fn classify_response(
    status: u16,
    www_authenticate: Option<String>,
    content_type: Option<String>,
) -> (r: ResponseKind)
    ensures
        status == 401 ==> (www_authenticate matches Some(h) ==> r
            == ResponseKind::AuthRequired(h)),
        (status != 401 || www_authenticate is None) && !is_success(status) ==> r
            == ResponseKind::StatusError(status),
        is_success(status) && (status == 202 || status == 204) ==> r == ResponseKind::Accepted,
        is_success(status) && status != 202 && status != 204 ==> {
            &&& (content_type matches Some(ct) && is_event_stream_ct(ct@) ==> r
                == ResponseKind::EventStream)
            &&& (content_type matches Some(ct) && !is_event_stream_ct(ct@) && is_json_ct(ct@)
                ==> r == ResponseKind::Json)
            &&& (content_type matches Some(ct) && !is_event_stream_ct(ct@) && !is_json_ct(ct@)
                ==> r == ResponseKind::UnexpectedContentType(content_type))
            &&& (content_type is None ==> r == ResponseKind::UnexpectedContentType(
                None::<String>))
        },
{
    if status == 401 {
        if let Some(h) = www_authenticate {
            return ResponseKind::AuthRequired(h);
        }
    }
    if !(200 <= status && status < 300) {
        return ResponseKind::StatusError(status);
    }
    if status == 202 || status == 204 {
        return ResponseKind::Accepted;
    }
    match content_type {
        Some(ct) => {
            if starts_with_prefix(ct.as_str(), "text/event-stream") {
                ResponseKind::EventStream
            } else if starts_with_prefix(ct.as_str(), "application/json") {
                ResponseKind::Json
            } else {
                ResponseKind::UnexpectedContentType(Some(ct))
            }
        },
        None => ResponseKind::UnexpectedContentType(None),
    }
}

/// What a response to `getStream` dispatches to.
#[derive(Debug, Clone, PartialEq)]
pub enum GetStreamKind {
    /// A 405: the server does not support streaming; a specific, non-generic
    /// signal.
    ServerDoesNotSupportSse,
    /// Any other non-success status.
    StatusError(u16),
    /// An event-stream or JSON body: a lazy event sequence.
    Stream,
    /// A successful response of any other content type: fatal.
    UnexpectedContentType(Option<String>),
}

/// Dispatch on the status and content type of a response to a stream request.
///
/// A 405 is reported as the server not supporting streaming, never as a
/// generic failure.
pub fn classify_get_response(status: u16, content_type: Option<String>) -> (r: GetStreamKind)
    ensures
        status == 405 ==> r == GetStreamKind::ServerDoesNotSupportSse,
        status != 405 && !is_success(status) ==> r == GetStreamKind::StatusError(status),
        is_success(status) ==> {
            &&& (content_type matches Some(ct) && (is_event_stream_ct(ct@) || is_json_ct(ct@))
                ==> r == GetStreamKind::Stream)
            &&& (content_type matches Some(ct) && !is_event_stream_ct(ct@) && !is_json_ct(ct@)
                ==> r == GetStreamKind::UnexpectedContentType(content_type))
            &&& (content_type is None ==> r == GetStreamKind::UnexpectedContentType(
                None::<String>))
        },
{
    if status == 405 {
        return GetStreamKind::ServerDoesNotSupportSse;
    }
    if !(200 <= status && status < 300) {
        return GetStreamKind::StatusError(status);
    }
    match content_type {
        Some(ct) => {
            if starts_with_prefix(ct.as_str(), "text/event-stream")
                || starts_with_prefix(ct.as_str(), "application/json") {
                GetStreamKind::Stream
            } else {
                GetStreamKind::UnexpectedContentType(Some(ct))
            }
        },
        None => GetStreamKind::UnexpectedContentType(None),
    }
}

/// Whether a response to `deleteSession` counts as success.
///
/// A 405 counts as success: session deletion is an optional server
/// capability. Any other non-success status is fatal.
pub fn classify_delete_response(status: u16) -> (r: Result<(), u16>)
    ensures
        status == 405 || is_success(status) <==> r is Ok,
        r matches Err(st) ==> st == status,
{
    if status == 405 {
        return Ok(());
    }
    if 200 <= status && status < 300 {
        Ok(())
    } else {
        Err(status)
    }
}

/// What becomes of one stream event's data field, given the outcome of
/// opening it: an opened payload replaces the data; a failed opening passes
/// the event through with its data omitted, so one corrupt event never
/// terminates the stream.
pub fn apply_opened_event_data(opened: Result<String, TmcpError>) -> (r: Option<String>)
    ensures
        opened matches Ok(p) ==> r matches Some(q) && q@ == p@,
        opened is Err ==> r is None,
{
    match opened {
        Ok(p) => Some(p),
        Err(_) => None,
    }
}

/// The Accept header every transport request carries.
pub fn accept_header_value() -> (r: String)
    ensures
        r@ == "text/event-stream, application/json"@,
{
    let mut s = "text/event-stream".to_owned();
    s.append(", application/json");
    proof {
        reveal_strlit("text/event-stream");
        reveal_strlit(", application/json");
        reveal_strlit("text/event-stream, application/json");
        assert(s@ =~= "text/event-stream, application/json"@);
    }
    s
}

} // verus!
