//! Planning a VM creation: the size the VM gets when the request leaves it
//! open, the worker that will host it, and the call that creates it there.
use vstd::prelude::*;
use crate::endpoints::{create_vm_url, worker_url};
use crate::model::{is_best_fit, some_worker_can_host, RegistryView};
use crate::models::{capacity_view, CreateVmRequest, WorkerWithCapacity};
use crate::registry::Registry;

verus! {

/// The vCPUs a VM gets when the request names none (as on the workers).
pub const DEFAULT_VCPUS: u8 = 1;

/// The memory a VM gets when the request names none (as on the workers).
pub const DEFAULT_MEMORY_MB: u32 = 128;

pub open spec fn requested_vcpus(o: Option<u8>) -> u8 {
    match o {
        Some(v) => v,
        None => DEFAULT_VCPUS,
    }
}

pub open spec fn requested_memory_mb(o: Option<u32>) -> u32 {
    match o {
        Some(m) => m,
        None => DEFAULT_MEMORY_MB,
    }
}

/// Where and how a VM is to be created.
#[derive(Debug)]
pub struct VmPlacement {
    /// The worker that hosts the VM.
    pub worker: WorkerWithCapacity,
    /// The worker endpoint to send the creation request to.
    pub url: String,
    /// The request to forward, with both sizes filled in.
    pub request: CreateVmRequest,
}

/// Why a VM cannot be placed.
#[derive(Debug, Clone, Copy, PartialEq, Eq, Structural)]
pub enum PlacementError {
    /// No healthy worker with known capacity has room for the VM.
    NoCapacity { vcpus: u8, memory_mb: u32 },
}

/// What planning a creation gives: the best-fitting worker for the request's
/// sizes (defaults filled in), the call to make there, and the request with
/// its keys; or, when no worker has room, the sizes that found none.
pub open spec fn plan_outcome(
    r: RegistryView,
    req: CreateVmRequest,
    res: Result<VmPlacement, PlacementError>,
) -> bool {
    let v = requested_vcpus(req.vcpus);
    let m = requested_memory_mb(req.memory_mb);
    &&& res is Ok <==> some_worker_can_host(r.workers, v as int, m as int)
    &&& res matches Ok(p) ==> {
        &&& exists|i: int|
            is_best_fit(r.workers, i, v as int, m as int) && p.worker@ == capacity_view(
                #[trigger] r.workers[i],
            )
        &&& p.url@ == worker_url(p.worker.ip_address@, "/vm"@)
        &&& p.request.vcpus == Some(v)
        &&& p.request.memory_mb == Some(m)
        &&& p.request.ssh_keys == req.ssh_keys
    }
    &&& res matches Err(e) ==> e == (PlacementError::NoCapacity { vcpus: v, memory_mb: m })
}

impl Registry {
    /// Fills in the default sizes, picks the best-fitting worker, and
    /// prepares the request to forward to it.
    pub fn plan_vm_creation(&self, req: CreateVmRequest) -> (res: Result<VmPlacement, PlacementError>)
        ensures
            plan_outcome(self@, req, res),
    {
        let vcpus = match req.vcpus {
            Some(v) => v,
            None => DEFAULT_VCPUS,
        };
        let memory_mb = match req.memory_mb {
            Some(m) => m,
            None => DEFAULT_MEMORY_MB,
        };
        match self.select_worker_for_vm(vcpus, memory_mb) {
            None => Err(PlacementError::NoCapacity { vcpus, memory_mb }),
            Some(worker) => {
                let url = create_vm_url(worker.ip_address.as_str());
                let request = CreateVmRequest {
                    vcpus: Some(vcpus),
                    memory_mb: Some(memory_mb),
                    ssh_keys: req.ssh_keys,
                };
                Ok(VmPlacement { worker, url, request })
            },
        }
    }
}

} // verus!
