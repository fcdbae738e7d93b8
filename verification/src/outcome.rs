//! One request's outcome: success classification, byte accounting, and the
//! status-class labels used for metrics.

use vstd::prelude::*;

verus! {

/// Fixed estimate, in bytes, for the request headers sent with every request.
pub const REQUEST_HEADER_OVERHEAD: u64 = 150;

/// Fixed estimate, in bytes, for the response status line and headers.
pub const RESPONSE_HEADER_OVERHEAD: u64 = 200;

/// The record of one issued request, as consumed by the stats aggregate.
#[derive(Clone, Copy, Debug)]
pub struct RequestOutcome {
    /// Whether the response had a 2xx status.
    pub success: bool,
    /// The HTTP status code, or 0 on a transport-level failure.
    pub status_code: u16,
    /// Wall-clock duration of the request, in whole microseconds.
    pub duration_micros: u64,
    /// When the request was issued, in milliseconds since the epoch.
    pub timestamp_ms: i64,
    /// Estimated bytes sent with the request.
    pub bytes_sent: u64,
    /// Estimated bytes received with the response (0 on transport failure).
    pub bytes_received: u64,
}

/// An HTTP status code is a success exactly when it lies in 200..=299.
pub open spec fn spec_is_success(status_code: u16) -> bool {
    200 <= status_code <= 299
}

/// Whether a status code counts as a successful response.
pub fn is_success_status(status_code: u16) -> (r: bool)
    ensures
        r == spec_is_success(status_code),
{
    200 <= status_code && status_code <= 299
}

/// The five status classes used as metric label values.
#[derive(Clone, Copy, Debug, PartialEq, Eq, Structural)]
pub enum StatusClass {
    Class2xx,
    Class3xx,
    Class4xx,
    Class5xx,
    Other,
}

/// The class a status code falls in: its hundreds bucket for 2xx through
/// 5xx, and `Other` for everything else (including 0, the transport-failure
/// marker).
pub open spec fn spec_classify_status(status_code: u16) -> StatusClass {
    if 200 <= status_code <= 299 {
        StatusClass::Class2xx
    } else if 300 <= status_code <= 399 {
        StatusClass::Class3xx
    } else if 400 <= status_code <= 499 {
        StatusClass::Class4xx
    } else if 500 <= status_code <= 599 {
        StatusClass::Class5xx
    } else {
        StatusClass::Other
    }
}

/// Classifies a status code for metric labelling.
pub fn classify_status(status_code: u16) -> (r: StatusClass)
    ensures
        r == spec_classify_status(status_code),
{
    if 200 <= status_code && status_code <= 299 {
        StatusClass::Class2xx
    } else if 300 <= status_code && status_code <= 399 {
        StatusClass::Class3xx
    } else if 400 <= status_code && status_code <= 499 {
        StatusClass::Class4xx
    } else if 500 <= status_code && status_code <= 599 {
        StatusClass::Class5xx
    } else {
        StatusClass::Other
    }
}

/// The metric label for a status class.
pub fn status_class_label(class: StatusClass) -> (r: &'static str)
    ensures
        class == StatusClass::Class2xx ==> r@ == "2xx"@,
        class == StatusClass::Class3xx ==> r@ == "3xx"@,
        class == StatusClass::Class4xx ==> r@ == "4xx"@,
        class == StatusClass::Class5xx ==> r@ == "5xx"@,
        class == StatusClass::Other ==> r@ == "other"@,
{
    match class {
        StatusClass::Class2xx => "2xx",
        StatusClass::Class3xx => "3xx",
        StatusClass::Class4xx => "4xx",
        StatusClass::Class5xx => "5xx",
        StatusClass::Other => "other",
    }
}

/// Estimated bytes on the wire for one request: the body (if any), the
/// method name, the URL, and a fixed header overhead.
pub fn compute_bytes_sent(body_len: u64, method_len: u64, url_len: u64) -> (r: u64)
    requires
        body_len + method_len + url_len + REQUEST_HEADER_OVERHEAD <= u64::MAX,
    ensures
        r == body_len + method_len + url_len + REQUEST_HEADER_OVERHEAD,
{
    body_len + method_len + url_len + REQUEST_HEADER_OVERHEAD
}

/// The outcome of a request that received a response: byte accounting adds
/// the fixed response-header overhead to the body length, and success is
/// decided by the status code alone.
pub fn outcome_from_response(
    status_code: u16,
    response_body_len: u64,
    duration_micros: u64,
    timestamp_ms: i64,
    bytes_sent: u64,
) -> (r: RequestOutcome)
    requires
        response_body_len + RESPONSE_HEADER_OVERHEAD <= u64::MAX,
    ensures
        r.success == spec_is_success(status_code),
        r.status_code == status_code,
        r.duration_micros == duration_micros,
        r.timestamp_ms == timestamp_ms,
        r.bytes_sent == bytes_sent,
        r.bytes_received == response_body_len + RESPONSE_HEADER_OVERHEAD,
{
    RequestOutcome {
        success: is_success_status(status_code),
        status_code,
        duration_micros,
        timestamp_ms,
        bytes_sent,
        bytes_received: response_body_len + RESPONSE_HEADER_OVERHEAD,
    }
}

/// The outcome of a request that failed at the transport level (connection
/// error or timeout): not a success, status code 0, nothing received.
pub fn outcome_from_transport_failure(
    duration_micros: u64,
    timestamp_ms: i64,
    bytes_sent: u64,
) -> (r: RequestOutcome)
    ensures
        r.success == false,
        r.status_code == 0,
        r.duration_micros == duration_micros,
        r.timestamp_ms == timestamp_ms,
        r.bytes_sent == bytes_sent,
        r.bytes_received == 0,
{
    RequestOutcome {
        success: false,
        status_code: 0,
        duration_micros,
        timestamp_ms,
        bytes_sent,
        bytes_received: 0,
    }
}

} // verus!
