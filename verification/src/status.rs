//! The transport status dispatcher: an HTTP status and the already-parsed
//! (or unparseable) response body become a two-level result. The outer
//! level fails only when the bytes never parsed; the inner level carries
//! the provider's semantic verdict, so callers can tell the two apart.

use vstd::prelude::*;

use crate::errors::ProviderError;

verus! {

/// Classify one transport attempt.
///
/// HTTP 200 hands the parsed body through (or propagates its parse error
/// at the outer level); 429 and every 5xx status become a retryable
/// server error for the caller's retry policy; any other status is a
/// terminal failure carrying the status and the request payload for
/// diagnostics. Retrying itself is the transport collaborator's job —
/// this function only classifies.
pub fn handle_response(
    payload: serde_json::Value,
    status: u16,
    body: Result<serde_json::Value, String>,
) -> (r: Result<Result<serde_json::Value, ProviderError>, String>)
    ensures
        status == 200 && body is Ok ==> (r matches Ok(inner) && inner matches Ok(v) && v
            == body->Ok_0),
        status == 200 && body is Err ==> (r matches Err(t) && t@ == body->Err_0@),
        status != 200 && (status == 429 || status >= 500) ==> (r matches Ok(inner)
            && inner matches Err(e) && e matches ProviderError::RetryableServerError(s) && s
            == status),
        status != 200 && status != 429 && status < 500 ==> (r matches Ok(inner)
            && inner matches Err(e) && e matches ProviderError::RequestFailed(s, p) && s == status
            && p == payload),
{
    if status == 200 {
        match body {
            Ok(v) => Ok(Ok(v)),
            Err(t) => Err(t),
        }
    } else if status == 429 || status >= 500 {
        Ok(Err(ProviderError::RetryableServerError(status)))
    } else {
        Ok(Err(ProviderError::RequestFailed(status, payload)))
    }
}

} // verus!
