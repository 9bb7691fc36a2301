//! The records the gateway keeps and exchanges: workers, VMs, the answers of the
//! lookup and health endpoints, and what a worker reports about its capacity.
//! Each record that holds text has a view in which the text is a `Seq<char>`.
use vstd::prelude::*;
use vstd::string::*;

verus! {

/// Whether a worker may receive traffic.
#[derive(Debug, Clone, Copy, PartialEq, Eq, Structural)]
pub enum WorkerStatus {
    Healthy,
    Unhealthy,
}

/// The text under which a status is stored and shown.
pub open spec fn status_text(s: WorkerStatus) -> Seq<char> {
    match s {
        WorkerStatus::Healthy => "healthy"@,
        WorkerStatus::Unhealthy => "unhealthy"@,
    }
}

impl WorkerStatus {
    /// The lower-case name of the status: `healthy` or `unhealthy`.
    pub fn to_string(&self) -> (res: String)
        ensures
            res@ == status_text(*self),
    {
        match self {
            WorkerStatus::Healthy => String::from_str("healthy"),
            WorkerStatus::Unhealthy => String::from_str("unhealthy"),
        }
    }

    /// The status stored under the given text, if the text names one.
    pub fn from_text(s: &str) -> (res: Option<WorkerStatus>)
        ensures
            match res {
                Some(st) => status_text(st) == s@,
                None => s@ != status_text(WorkerStatus::Healthy) && s@ != status_text(
                    WorkerStatus::Unhealthy,
                ),
            },
    {
        let t = String::from_str(s);
        if t == String::from_str("healthy") {
            Some(WorkerStatus::Healthy)
        } else if t == String::from_str("unhealthy") {
            Some(WorkerStatus::Unhealthy)
        } else {
            None
        }
    }
}

/// The view of an optional text.
pub open spec fn opt_text(o: Option<String>) -> Option<Seq<char>> {
    match o {
        Some(s) => Some(s@),
        None => None,
    }
}

/// A worker (host) as the registry stores it.
#[derive(Debug, Clone)]
pub struct Worker {
    pub id: String,
    pub ip_address: String,
    pub registered_at: i64,
    pub last_heartbeat: i64,
    pub status: WorkerStatus,
    // Capacity tracking
    pub total_vcpus: Option<i64>,
    pub total_memory_mb: Option<i64>,
    pub allocatable_memory_mb: Option<i64>,
    pub allocated_vcpus: Option<i64>,
    pub allocated_memory_mb: Option<i64>,
    pub vm_count: Option<i64>,
    pub version: Option<String>,
    pub copy_strategy: Option<String>,
}

/// The mathematical value of a worker record.
pub struct WorkerView {
    pub id: Seq<char>,
    pub ip_address: Seq<char>,
    pub registered_at: i64,
    pub last_heartbeat: i64,
    pub status: WorkerStatus,
    pub total_vcpus: Option<i64>,
    pub total_memory_mb: Option<i64>,
    pub allocatable_memory_mb: Option<i64>,
    pub allocated_vcpus: Option<i64>,
    pub allocated_memory_mb: Option<i64>,
    pub vm_count: Option<i64>,
    pub version: Option<Seq<char>>,
    pub copy_strategy: Option<Seq<char>>,
}

impl View for Worker {
    type V = WorkerView;

    open spec fn view(&self) -> WorkerView {
        WorkerView {
            id: self.id@,
            ip_address: self.ip_address@,
            registered_at: self.registered_at,
            last_heartbeat: self.last_heartbeat,
            status: self.status,
            total_vcpus: self.total_vcpus,
            total_memory_mb: self.total_memory_mb,
            allocatable_memory_mb: self.allocatable_memory_mb,
            allocated_vcpus: self.allocated_vcpus,
            allocated_memory_mb: self.allocated_memory_mb,
            vm_count: self.vm_count,
            version: opt_text(self.version),
            copy_strategy: opt_text(self.copy_strategy),
        }
    }
}

/// A VM (guest) and the worker that hosts it.
#[derive(Debug, Clone)]
pub struct Vm {
    pub vm_id: String,
    pub worker_id: String,
    pub created_at: i64,
    // Resource tracking
    pub vcpus: Option<i64>,
    pub memory_mb: Option<i64>,
}

/// The mathematical value of a VM record.
pub struct VmView {
    pub vm_id: Seq<char>,
    pub worker_id: Seq<char>,
    pub created_at: i64,
    pub vcpus: Option<i64>,
    pub memory_mb: Option<i64>,
}

impl View for Vm {
    type V = VmView;

    open spec fn view(&self) -> VmView {
        VmView {
            vm_id: self.vm_id@,
            worker_id: self.worker_id@,
            created_at: self.created_at,
            vcpus: self.vcpus,
            memory_mb: self.memory_mb,
        }
    }
}

/// VM location response (for SSH proxy).
#[derive(Debug)]
pub struct VmLocation {
    pub vm_id: String,
    pub worker_ip: String,
    pub port: u16,
    pub status: String,
}

/// The mathematical value of a VM location.
pub struct VmLocationView {
    pub vm_id: Seq<char>,
    pub worker_ip: Seq<char>,
    pub port: u16,
    pub status: Seq<char>,
}

impl View for VmLocation {
    type V = VmLocationView;

    open spec fn view(&self) -> VmLocationView {
        VmLocationView {
            vm_id: self.vm_id@,
            worker_ip: self.worker_ip@,
            port: self.port,
            status: self.status@,
        }
    }
}

/// The answer of the health endpoint.
#[derive(Debug)]
pub struct HealthStatus {
    pub status: String,
    pub workers: i64,
    pub healthy_workers: i64,
    pub vms: i64,
}

/// What a worker sends to register itself.
#[derive(Debug)]
pub struct WorkerRegistration {
    pub worker_id: String,
    pub ip_address: String,
}

/// What a worker sends to register a VM it started.
#[derive(Debug)]
pub struct VmRegistration {
    pub vm_id: String,
    pub worker_id: String,
    // Resource tracking
    pub vcpus: Option<u8>,
    pub memory_mb: Option<u32>,
}

/// The capacity a worker reports.
#[derive(Debug, Clone, Copy)]
pub struct WorkerCapacity {
    pub total_memory_mb: u64,
    pub allocatable_memory_mb: u64,
    pub total_vcpus: u8,
}

/// The load a worker reports.
#[derive(Debug, Clone, Copy)]
pub struct WorkerUtilization {
    pub count: usize,
    pub allocated_vcpus: u8,
    pub allocated_memory_mb: u64,
}

/// The answer of a worker's readiness endpoint.
#[derive(Debug)]
pub struct WorkerReadyResponse {
    pub status: String,
    pub version: String,
    pub capacity: Option<WorkerCapacity>,
    pub vms: Option<WorkerUtilization>,
    pub copy_strategy: Option<String>,
}

/// A request to create a VM somewhere in the fleet.
#[derive(Debug)]
pub struct CreateVmRequest {
    pub vcpus: Option<u8>,
    pub memory_mb: Option<u32>,
    pub ssh_keys: Vec<String>,
}

/// A worker's answer to a VM creation.
#[derive(Debug)]
pub struct CreateVmResponse {
    pub id: String,
    pub vcpus: u8,
    pub memory_mb: u32,
    pub state: String,
    pub vmm_version: String,
    pub guest_ip: String,
}

/// A worker chosen for placement, with its capacity figures.
#[derive(Debug, Clone)]
pub struct WorkerWithCapacity {
    pub id: String,
    pub ip_address: String,
    pub status: WorkerStatus,
    pub total_vcpus: Option<i64>,
    pub allocatable_memory_mb: Option<i64>,
    pub allocated_vcpus: Option<i64>,
    pub allocated_memory_mb: Option<i64>,
    pub vm_count: Option<i64>,
}

/// The mathematical value of a placement candidate.
pub struct WorkerWithCapacityView {
    pub id: Seq<char>,
    pub ip_address: Seq<char>,
    pub status: WorkerStatus,
    pub total_vcpus: Option<i64>,
    pub allocatable_memory_mb: Option<i64>,
    pub allocated_vcpus: Option<i64>,
    pub allocated_memory_mb: Option<i64>,
    pub vm_count: Option<i64>,
}

impl View for WorkerWithCapacity {
    type V = WorkerWithCapacityView;

    open spec fn view(&self) -> WorkerWithCapacityView {
        WorkerWithCapacityView {
            id: self.id@,
            ip_address: self.ip_address@,
            status: self.status,
            total_vcpus: self.total_vcpus,
            allocatable_memory_mb: self.allocatable_memory_mb,
            allocated_vcpus: self.allocated_vcpus,
            allocated_memory_mb: self.allocated_memory_mb,
            vm_count: self.vm_count,
        }
    }
}

/// The placement figures of a stored worker.
pub open spec fn capacity_view(w: WorkerView) -> WorkerWithCapacityView {
    WorkerWithCapacityView {
        id: w.id,
        ip_address: w.ip_address,
        status: w.status,
        total_vcpus: w.total_vcpus,
        allocatable_memory_mb: w.allocatable_memory_mb,
        allocated_vcpus: w.allocated_vcpus,
        allocated_memory_mb: w.allocated_memory_mb,
        vm_count: w.vm_count,
    }
}

} // verus!
