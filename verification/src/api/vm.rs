//! The VM endpoints: creation, lookup, registration and deregistration.
use vstd::prelude::*;
use vstd::string::*;
use crate::api::{
    passed_on_status, refused_for_clock, ApiError, STATUS_BAD_GATEWAY, STATUS_CREATED, STATUS_INSUFFICIENT_STORAGE, STATUS_INTERNAL_SERVER_ERROR,
    STATUS_NO_CONTENT, STATUS_NOT_FOUND,
};
use crate::model::{
    after_deregister_vm, after_register_vm, deregister_vm_error, error_text, register_vm_error,
    registry_valid, some_worker_can_host, vm_location, clock_failed, RegistryView,
};
use crate::models::{CreateVmRequest, CreateVmResponse, VmLocation, VmRegistration};
use crate::placement::{
    plan_outcome, requested_memory_mb, requested_vcpus, PlacementError, VmPlacement,
};
use crate::registry::{register_vm_outcome, Registry};
use crate::text::{decimal, push_decimal};

verus! {

/// The message sent when no worker has room for a VM of the given size.
pub open spec fn no_capacity_message(vcpus: nat, memory_mb: nat) -> Seq<char> {
    "No workers available with sufficient capacity (need "@ + decimal(vcpus) + "vCPU, "@
        + decimal(memory_mb) + "MB)"@
}

/// Create a new VM: the placement to carry out, or `507` when no worker has
/// room for the VM (sizes defaulting to 1 vCPU and 128 MB).
pub fn create(registry: &Registry, req: CreateVmRequest) -> (res: Result<VmPlacement, ApiError>)
    ensures
        res is Ok <==> some_worker_can_host(
            registry@.workers,
            requested_vcpus(req.vcpus) as int,
            requested_memory_mb(req.memory_mb) as int,
        ),
        res matches Ok(p) ==> plan_outcome(registry@, req, Ok(p)),
        res matches Err(e) ==> e.status == STATUS_INSUFFICIENT_STORAGE && e.message@
            == no_capacity_message(
            requested_vcpus(req.vcpus) as nat,
            requested_memory_mb(req.memory_mb) as nat,
        ),
{
    match registry.plan_vm_creation(req) {
        Ok(p) => Ok(p),
        Err(PlacementError::NoCapacity { vcpus, memory_mb }) => {
            let mut message = String::from_str("No workers available with sufficient capacity (need ");
            push_decimal(&mut message, vcpus as u64);
            message.append("vCPU, ");
            push_decimal(&mut message, memory_mb as u64);
            message.append("MB)");
            Err(ApiError { status: STATUS_INSUFFICIENT_STORAGE, message })
        },
    }
}

/// How a worker answered the creation request forwarded to it.
#[derive(Debug)]
pub enum CreationReply {
    /// The request could not be sent; the text of the error.
    Unreachable { error: String },
    /// The worker answered with a status outside the success class, and this
    /// body when it could be read.
    Rejected { status: u16, body: Option<String> },
    /// The worker answered with success: the VM it describes, or the text of
    /// the error that reading it as a VM gave.
    Accepted { vm: Result<CreateVmResponse, String> },
}

/// The body a refusal is reported with: the worker's, or `Unknown error`.
pub open spec fn rejection_text(body: Option<String>) -> Seq<char> {
    match body {
        Some(b) => b@,
        None => "Unknown error"@,
    }
}

/// What the gateway answers a creation with, given the worker's reply: the
/// VM; `502` when the worker could not be reached; the worker's own status
/// when it refused; `500` when its answer is not a VM.
pub open spec fn creation_answer_spec(
    reply: CreationReply,
    res: Result<CreateVmResponse, ApiError>,
) -> bool {
    match reply {
        CreationReply::Unreachable { error } => res matches Err(e) && e.status == STATUS_BAD_GATEWAY
            && e.message@ == "Failed to contact worker: "@ + error@,
        CreationReply::Rejected { status, body } => res matches Err(e) && e.status
            == passed_on_status(status) && e.message@ == "Worker returned error: "@
            + rejection_text(body),
        CreationReply::Accepted { vm } => match vm {
            Ok(v) => res == Ok::<CreateVmResponse, ApiError>(v),
            Err(t) => res matches Err(e) && e.status == STATUS_INTERNAL_SERVER_ERROR && e.message@
                == "Invalid worker response: "@ + t@,
        },
    }
}

/// The answer to a creation, from the worker's reply to the forwarded request.
pub fn creation_answer(reply: CreationReply) -> (res: Result<CreateVmResponse, ApiError>)
    ensures
        creation_answer_spec(reply, res),
{
    match reply {
        CreationReply::Unreachable { error } => {
            let mut message = String::from_str("Failed to contact worker: ");
            message.append(error.as_str());
            Err(ApiError { status: STATUS_BAD_GATEWAY, message })
        },
        CreationReply::Rejected { status, body } => {
            let code = if 100 <= status && status <= 999 {
                status
            } else {
                STATUS_INTERNAL_SERVER_ERROR
            };
            let mut message = String::from_str("Worker returned error: ");
            match body {
                Some(b) => message.append(b.as_str()),
                None => message.append("Unknown error"),
            }
            Err(ApiError { status: code, message })
        },
        CreationReply::Accepted { vm } => match vm {
            Ok(v) => Ok(v),
            Err(t) => {
                let mut message = String::from_str("Invalid worker response: ");
                message.append(t.as_str());
                Err(ApiError { status: STATUS_INTERNAL_SERVER_ERROR, message })
            },
        },
    }
}

/// Get VM location: the location, or `404` when the VM is unknown or its
/// worker is not registered and healthy.
pub fn get_location(registry: &Registry, vm_id: &str) -> (res: Result<VmLocation, ApiError>)
    ensures
        res matches Ok(loc) ==> vm_location(registry@, vm_id@) == Some(loc@),
        res matches Err(e) ==> vm_location(registry@, vm_id@) is None && e.status == STATUS_NOT_FOUND
            && e.message@ == "VM not found"@,
{
    match registry.get_vm_location(vm_id) {
        Some(loc) => Ok(loc),
        None => Err(ApiError { status: STATUS_NOT_FOUND, message: String::from_str("VM not found") }),
    }
}

/// What a VM registration at time `now` answers and leaves behind.
pub open spec fn vm_registration_answer(
    pre: RegistryView,
    post: RegistryView,
    res: Result<u16, ApiError>,
    req: VmRegistration,
    now: i64,
) -> bool {
    let err = register_vm_error(pre, req.vm_id@, req.worker_id@, req.vcpus, req.memory_mb);
    &&& res is Ok <==> err is None
    &&& res matches Ok(code) ==> code == STATUS_CREATED && post == after_register_vm(
        pre,
        req.vm_id@,
        req.worker_id@,
        req.vcpus,
        req.memory_mb,
        now,
    )
    &&& res matches Err(e) ==> e.status == STATUS_INTERNAL_SERVER_ERROR && e.message@
        == "Failed to register VM: "@ + error_text(err->0) && post == pre
}

/// Register a new VM: `201`, or `500` when the registry refuses.
pub fn register(registry: &mut Registry, req: VmRegistration) -> (res: Result<u16, ApiError>)
    ensures
        registry_valid(final(registry)@),
        final(registry).last_reading() matches Some(now) ==> vm_registration_answer(
            old(registry)@,
            final(registry)@,
            res,
            req,
            now,
        ),
        refused_for_clock(
            old(registry)@,
            final(registry)@,
            res,
            STATUS_INTERNAL_SERVER_ERROR,
            "Failed to register VM: "@,
        ) || exists|now: i64|
            now >= 0 && vm_registration_answer(old(registry)@, final(registry)@, res, req, now),
{
    let ghost pre = registry@;
    let r = registry.register_vm(req.vm_id.as_str(), req.worker_id.as_str(), req.vcpus, req.memory_mb);
    let res = match r {
        Ok(()) => Ok(STATUS_CREATED),
        Err(e) => {
            let mut message = String::from_str("Failed to register VM: ");
            message.append(e.describe().as_str());
            Err(ApiError { status: STATUS_INTERNAL_SERVER_ERROR, message })
        },
    };
    proof {
        if !clock_failed(pre, registry@, r) {
            let now = choose|now: i64|
                now >= 0 && register_vm_outcome(
                    pre,
                    registry@,
                    r,
                    req.vm_id@,
                    req.worker_id@,
                    req.vcpus,
                    req.memory_mb,
                    now,
                );
            assert(vm_registration_answer(pre, registry@, res, req, now));
        }
    }
    res
}

/// Deregister a VM: `204` whether or not a VM was removed, or `500` when
/// its worker's counters cannot take the change.
pub fn deregister(registry: &mut Registry, vm_id: &str) -> (res: Result<u16, ApiError>)
    ensures
        registry_valid(final(registry)@),
        res is Ok <==> deregister_vm_error(old(registry)@, vm_id@) is None,
        res matches Ok(code) ==> code == STATUS_NO_CONTENT && final(registry)@ == after_deregister_vm(
            old(registry)@,
            vm_id@,
        ),
        res matches Err(e) ==> e.status == STATUS_INTERNAL_SERVER_ERROR && e.message@
            == "Failed to deregister VM: "@ + error_text(deregister_vm_error(old(registry)@, vm_id@)->0)
            && final(registry)@ == old(registry)@,
{
    match registry.deregister_vm(vm_id) {
        Ok(_) => Ok(STATUS_NO_CONTENT),
        Err(e) => {
            let mut message = String::from_str("Failed to deregister VM: ");
            message.append(e.describe().as_str());
            Err(ApiError { status: STATUS_INTERNAL_SERVER_ERROR, message })
        },
    }
}

} // verus!
