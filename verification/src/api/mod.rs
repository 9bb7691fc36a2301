//! The gateway's HTTP endpoints as functions from the registry and the
//! request to the answer: the status code, and the body or the error
//! message. The HTTP server around them lives outside the library.
use vstd::prelude::*;
use crate::model::{count_healthy, error_text, RegistryError, RegistryView};
use crate::models::HealthStatus;
use crate::registry::Registry;

pub mod vm;
pub mod worker;

verus! {

pub const STATUS_OK: u16 = 200;

pub const STATUS_CREATED: u16 = 201;

pub const STATUS_NO_CONTENT: u16 = 204;

pub const STATUS_NOT_FOUND: u16 = 404;

pub const STATUS_INTERNAL_SERVER_ERROR: u16 = 500;

pub const STATUS_BAD_GATEWAY: u16 = 502;

pub const STATUS_INSUFFICIENT_STORAGE: u16 = 507;

/// A status in the success class, 200 to 299 (as `http::StatusCode::is_success`).
pub open spec fn is_success_status(code: u16) -> bool {
    200 <= code <= 299
}

/// Whether a status is in the success class.
pub fn is_success(code: u16) -> (r: bool)
    ensures
        r == is_success_status(code),
{
    200 <= code && code <= 299
}

/// A status passed on as it is where it is a valid HTTP status, 100 to 999
/// (what `http::StatusCode::from_u16` accepts), and as 500 otherwise.
pub open spec fn passed_on_status(code: u16) -> u16 {
    if 100 <= code <= 999 {
        code
    } else {
        STATUS_INTERNAL_SERVER_ERROR
    }
}

/// A refused request: the status code and the message sent back.
#[derive(Debug)]
pub struct ApiError {
    pub status: u16,
    pub message: String,
}

/// A request refused because the clock gave no time: the registry is as it
/// was, and the answer is `status` with the message `prefix` followed by the
/// error's description.
pub open spec fn refused_for_clock<T>(
    pre: RegistryView,
    post: RegistryView,
    res: Result<T, ApiError>,
    status: u16,
    prefix: Seq<char>,
) -> bool {
    &&& post == pre
    &&& res matches Err(e) && e.status == status && e.message@ == prefix + error_text(
        RegistryError::ClockUnavailable,
    )
}

/// Health check endpoint: the counts of workers, healthy workers and VMs,
/// under the status `ok`.
pub fn health(registry: &Registry) -> (h: HealthStatus)
    ensures
        h.status@ == "ok"@,
        h.workers == registry@.workers.len(),
        h.healthy_workers == count_healthy(registry@.workers),
        h.vms == registry@.vms.len(),
{
    registry.health_status()
}

} // verus!
