use vstd::prelude::*;

verus! {

/// The closed set of failure categories of the probe.
///
/// `HttpError` is a transport-level failure (connection refused, DNS
/// failure), `HttpStatusCodeError` a non-success HTTP status,
/// `IOError`/`TaskError` a task execution failure unrelated to the HTTP
/// layer. `ThresholdExceeded` is the only error surfaced by the latency
/// driver itself: it carries the observed error count and the number of
/// requests, from which the observed rate `error_count / num_requests`
/// is read. `AllProxiesFailed` reports proxy exhaustion within a
/// proxy-aware fetch.
#[derive(Debug, Clone)]
pub enum RustWireError {
    HttpError(String),
    HttpStatusCodeError(String),
    IOError(String),
    TaskError(String),
    ThresholdExceeded { error_count: usize, num_requests: usize },
    AllProxiesFailed,
}

} // verus!
