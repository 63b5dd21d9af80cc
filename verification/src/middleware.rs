//! What the middleware of the server decides about a request it has seen.

use vstd::prelude::*;
use vstd::string::StringExecFns;

verus! {

/// How requests are traced.
#[derive(Clone, Debug)]
pub struct TracingConfig {
    /// Whether the body of a request is logged.
    pub log_request_body: bool,
    /// Whether the body of an answer is logged.
    pub log_response_body: bool,
    /// From how many milliseconds on a request counts as slow.
    pub slow_request_threshold_ms: u64,
    /// Whether answers carry the identity of their trace in a header.
    pub include_trace_id_header: bool,
    /// The name of that header.
    pub trace_id_header_name: String,
}

impl Default for TracingConfig {
    /// No bodies logged, slow from one second on, the trace's identity in
    /// the header `x-trace-id`.
    fn default() -> (config: Self)
        ensures
            !config.log_request_body,
            !config.log_response_body,
            config.slow_request_threshold_ms == 1000,
            config.include_trace_id_header,
            config.trace_id_header_name@ == "x-trace-id"@,
    {
        TracingConfig {
            log_request_body: false,
            log_response_body: false,
            slow_request_threshold_ms: 1000,
            include_trace_id_header: true,
            trace_id_header_name: String::from_str("x-trace-id"),
        }
    }
}

/// How requests are traced by the lean middleware.
#[derive(Clone, Debug)]
pub struct OptimalTracingConfig {
    /// From how many milliseconds on a request counts as slow.
    pub slow_request_threshold_ms: u64,
    /// Whether answers carry the identity of their trace in a header.
    pub include_trace_id_header: bool,
    /// The name of that header.
    pub trace_id_header_name: String,
    /// Whether the start of a request is logged with its details.
    pub log_request_details: bool,
}

impl Default for OptimalTracingConfig {
    /// Slow from one second on, the trace's identity in the header
    /// `x-trace-id`, details logged.
    fn default() -> (config: Self)
        ensures
            config.slow_request_threshold_ms == 1000,
            config.include_trace_id_header,
            config.trace_id_header_name@ == "x-trace-id"@,
            config.log_request_details,
    {
        OptimalTracingConfig {
            slow_request_threshold_ms: 1000,
            include_trace_id_header: true,
            trace_id_header_name: String::from_str("x-trace-id"),
            log_request_details: true,
        }
    }
}

/// After how long a request is given up.
#[derive(Clone, Copy, Debug)]
pub struct TimeoutConfig {
    /// The time a request may take, in seconds.
    pub timeout_seconds: u64,
}

impl Default for TimeoutConfig {
    /// Thirty seconds.
    fn default() -> (config: Self)
        ensures
            config.timeout_seconds == 30,
    {
        TimeoutConfig { timeout_seconds: 30 }
    }
}

/// How the span of a request ends.
#[derive(Clone, Copy, Debug, PartialEq, Eq, Structural)]
pub enum SpanStatus {
    /// The request was served.
    Served,
    /// The caller was at fault.
    ClientError,
    /// The server was at fault.
    ServerError,
}

/// How the end of a request is logged.
#[derive(Clone, Copy, Debug, PartialEq, Eq, Structural)]
pub enum RequestLog {
    /// Served in time: for information.
    Completed,
    /// Served, but slowly: a warning.
    Slow,
    /// The caller was at fault: a warning.
    ClientError,
    /// The server was at fault: an error.
    ServerError,
    /// A status outside the known classes: for information.
    UnknownStatus,
}

/// How the span of a request ends, given the status of the answer: from 500
/// up to 599 the server was at fault, from 400 up to 499 the caller.
pub fn span_status(status: u16) -> (r: SpanStatus)
    ensures
        r == if 500 <= status <= 599 {
            SpanStatus::ServerError
        } else if 400 <= status <= 499 {
            SpanStatus::ClientError
        } else {
            SpanStatus::Served
        },
{
    if status >= 500 && status <= 599 {
        SpanStatus::ServerError
    } else if status >= 400 && status <= 499 {
        SpanStatus::ClientError
    } else {
        SpanStatus::Served
    }
}

/// How the end of a request is logged, given the status of the answer, the
/// time the request took and the time from which on it counts as slow.
pub fn request_log(status: u16, duration_ms: u64, slow_request_threshold_ms: u64) -> (r: RequestLog)
    ensures
        r == if 200 <= status <= 299 {
            if duration_ms >= slow_request_threshold_ms {
                RequestLog::Slow
            } else {
                RequestLog::Completed
            }
        } else if 400 <= status <= 499 {
            RequestLog::ClientError
        } else if 500 <= status <= 599 {
            RequestLog::ServerError
        } else {
            RequestLog::UnknownStatus
        },
{
    if status >= 200 && status <= 299 {
        if duration_ms >= slow_request_threshold_ms {
            RequestLog::Slow
        } else {
            RequestLog::Completed
        }
    } else if status >= 400 && status <= 499 {
        RequestLog::ClientError
    } else if status >= 500 && status <= 599 {
        RequestLog::ServerError
    } else {
        RequestLog::UnknownStatus
    }
}

/// Whether a failure of the server is to be logged by the middleware that
/// watches for failures nothing else handled.
pub fn is_unhandled_server_error(status: u16) -> (r: bool)
    ensures
        r == (500 <= status <= 599),
{
    status >= 500 && status <= 599
}

} // verus!
