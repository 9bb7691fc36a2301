//! The worker endpoints: registration and heartbeat.
use vstd::prelude::*;
use vstd::string::*;
use crate::api::{refused_for_clock, ApiError, STATUS_INTERNAL_SERVER_ERROR, STATUS_NOT_FOUND, STATUS_OK};
use crate::endpoints::{ready_url, worker_url};
use crate::model::{
    after_heartbeat, after_register_worker, error_text, has_worker, register_worker_error,
    registry_valid, worker_index, clock_failed, RegistryError, RegistryView,
};
use crate::models::WorkerRegistration;
use crate::registry::{heartbeat_outcome, register_worker_outcome, Registry};

verus! {

/// What a worker registration at time `now` answers and leaves behind.
pub open spec fn registration_answer(
    pre: RegistryView,
    post: RegistryView,
    res: Result<u16, ApiError>,
    worker_id: Seq<char>,
    ip_address: Seq<char>,
    now: i64,
) -> bool {
    &&& res is Ok <==> register_worker_error(pre, worker_id) is None
    &&& res matches Ok(code) ==> code == STATUS_OK && post == after_register_worker(
        pre,
        worker_id,
        ip_address,
        now,
    )
    &&& res matches Err(e) ==> e.status == STATUS_INTERNAL_SERVER_ERROR && e.message@
        == "Failed to register worker: "@ + error_text(register_worker_error(pre, worker_id)->0)
        && post == pre
}

/// Register a new worker: `200`, or `500` when the registry refuses.
pub fn register(registry: &mut Registry, req: WorkerRegistration) -> (res: Result<u16, ApiError>)
    ensures
        registry_valid(final(registry)@),
        final(registry).last_reading() matches Some(now) ==> registration_answer(
            old(registry)@,
            final(registry)@,
            res,
            req.worker_id@,
            req.ip_address@,
            now,
        ),
        refused_for_clock(
            old(registry)@,
            final(registry)@,
            res,
            STATUS_INTERNAL_SERVER_ERROR,
            "Failed to register worker: "@,
        ) || exists|now: i64|
            now >= 0 && registration_answer(
                old(registry)@,
                final(registry)@,
                res,
                req.worker_id@,
                req.ip_address@,
                now,
            ),
{
    let ghost pre = registry@;
    let r = registry.register_worker(req.worker_id.as_str(), req.ip_address.as_str());
    let res = match r {
        Ok(()) => Ok(STATUS_OK),
        Err(e) => {
            let mut message = String::from_str("Failed to register worker: ");
            message.append(e.describe().as_str());
            Err(ApiError { status: STATUS_INTERNAL_SERVER_ERROR, message })
        },
    };
    proof {
        if !clock_failed(pre, registry@, r) {
            let now = choose|now: i64|
                now >= 0 && register_worker_outcome(
                    pre,
                    registry@,
                    r,
                    req.worker_id@,
                    req.ip_address@,
                    now,
                );
            assert(registration_answer(pre, registry@, res, req.worker_id@, req.ip_address@, now));
        }
    }
    res
}

/// An accepted heartbeat: the status, and where the worker's capacity is read.
#[derive(Debug)]
pub struct HeartbeatAccepted {
    pub status: u16,
    pub ready_url: String,
}

/// What a heartbeat at time `now` answers and leaves behind.
pub open spec fn heartbeat_answer(
    pre: RegistryView,
    post: RegistryView,
    res: Result<HeartbeatAccepted, ApiError>,
    worker_id: Seq<char>,
    now: i64,
) -> bool {
    &&& res is Ok <==> has_worker(pre.workers, worker_id)
    &&& res matches Ok(a) ==> a.status == STATUS_OK && a.ready_url@ == worker_url(
        pre.workers[worker_index(pre.workers, worker_id)].ip_address,
        "/internal/ready"@,
    ) && post == after_heartbeat(pre, worker_id, now)
    &&& res matches Err(e) ==> e.status == STATUS_NOT_FOUND && e.message@
        == "Worker not found: Worker not found: "@ + worker_id && post == pre
}

/// Worker heartbeat: `200` with the address of the worker's readiness
/// report, or `404` for an unknown worker or when the clock gives no time.
pub fn heartbeat(registry: &mut Registry, worker_id: &str) -> (res: Result<HeartbeatAccepted, ApiError>)
    ensures
        registry_valid(final(registry)@),
        final(registry).last_reading() matches Some(now) ==> heartbeat_answer(
            old(registry)@,
            final(registry)@,
            res,
            worker_id@,
            now,
        ),
        refused_for_clock(
            old(registry)@,
            final(registry)@,
            res,
            STATUS_NOT_FOUND,
            "Worker not found: "@,
        ) || exists|now: i64|
            now >= 0 && heartbeat_answer(old(registry)@, final(registry)@, res, worker_id@, now),
{
    let ghost pre = registry@;
    let r = registry.heartbeat(worker_id);
    let res = match r {
        Ok(ip) => Ok(HeartbeatAccepted { status: STATUS_OK, ready_url: ready_url(ip.as_str()) }),
        Err(RegistryError::ClockUnavailable) => {
            let mut message = String::from_str("Worker not found: ");
            message.append(RegistryError::ClockUnavailable.describe().as_str());
            Err(ApiError { status: STATUS_NOT_FOUND, message })
        },
        Err(_) => {
            let mut message = String::from_str("Worker not found: Worker not found: ");
            message.append(worker_id);
            Err(ApiError { status: STATUS_NOT_FOUND, message })
        },
    };
    proof {
        if !clock_failed(pre, registry@, r) {
            let now = choose|now: i64|
                now >= 0 && heartbeat_outcome(pre, registry@, r, worker_id@, now);
            assert(heartbeat_answer(pre, registry@, res, worker_id@, now));
        }
    }
    res
}

} // verus!
