//! The liveness probe.
use vstd::prelude::*;
use crate::http::{json_reply, HttpResponse};
use crate::responses::{success_envelope, ApiResponse};

verus! {

/// The reply to a liveness probe: always the success envelope, whatever the
/// request held.
pub fn health_check_handler() -> (r: HttpResponse)
    ensures
        r@ == json_reply(success_envelope(true)),
{
    ApiResponse::success(true).to_response()
}

} // verus!
