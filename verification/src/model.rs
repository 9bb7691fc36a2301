//! The mathematical model of the registry: two tables, `workers` and `vms`,
//! each a sequence of rows in insertion order, and what every operation does
//! to them. The executable registry is specified against these functions.
use vstd::prelude::*;
use vstd::string::*;
use crate::models::{
    opt_text, VmLocationView, VmView, WorkerCapacity, WorkerReadyResponse, WorkerStatus,
    WorkerUtilization, WorkerView,
};

verus! {

/// Why a registry operation was refused.
#[derive(Debug, Clone, Copy, PartialEq, Eq, Structural)]
pub enum RegistryError {
    /// No worker with the given id is registered.
    WorkerNotFound,
    /// A VM with the given id is registered already.
    VmAlreadyRegistered,
    /// The table would hold more rows than a count can express.
    StorageFull,
    /// A utilization counter would leave the range of `i64`.
    CounterOverflow,
    /// The heartbeat cutoff (now minus the timeout) leaves the range of `i64`.
    CutoffOutOfRange,
    /// The system clock gave no time: it reads before the Unix epoch.
    ClockUnavailable,
}

/// How an error is described to clients.
pub open spec fn error_text(e: RegistryError) -> Seq<char> {
    match e {
        RegistryError::WorkerNotFound => "worker not found"@,
        RegistryError::VmAlreadyRegistered => "VM already registered"@,
        RegistryError::StorageFull => "registry table full"@,
        RegistryError::CounterOverflow => "utilization counter out of range"@,
        RegistryError::CutoffOutOfRange => "heartbeat cutoff out of range"@,
        RegistryError::ClockUnavailable => "clock unavailable"@,
    }
}

impl RegistryError {
    /// A short description of the error.
    pub fn describe(&self) -> (s: String)
        ensures
            s@ == error_text(*self),
    {
        match self {
            RegistryError::WorkerNotFound => String::from_str("worker not found"),
            RegistryError::VmAlreadyRegistered => String::from_str("VM already registered"),
            RegistryError::StorageFull => String::from_str("registry table full"),
            RegistryError::CounterOverflow => String::from_str("utilization counter out of range"),
            RegistryError::CutoffOutOfRange => String::from_str("heartbeat cutoff out of range"),
            RegistryError::ClockUnavailable => String::from_str("clock unavailable"),
        }
    }
}

/// A call that reads the clock got no time from it and changed nothing.
pub open spec fn clock_failed<T>(
    pre: RegistryView,
    post: RegistryView,
    res: Result<T, RegistryError>,
) -> bool {
    res matches Err(e) && e == RegistryError::ClockUnavailable && post == pre
}

/// The value of the whole registry.
pub struct RegistryView {
    pub workers: Seq<WorkerView>,
    pub vms: Seq<VmView>,
}

/// The port on which workers proxy SSH to their guests.
pub open spec fn ssh_port() -> u16 {
    2222
}

pub open spec fn fits_i64(x: int) -> bool {
    i64::MIN <= x <= i64::MAX
}

/// A missing counter counts as zero (SQL `COALESCE(x, 0)`).
pub open spec fn coalesce(o: Option<i64>) -> int {
    match o {
        Some(x) => x as int,
        None => 0,
    }
}

pub open spec fn widen_u8(o: Option<u8>) -> Option<i64> {
    match o {
        Some(x) => Some(x as i64),
        None => None,
    }
}

pub open spec fn widen_u32(o: Option<u32>) -> Option<i64> {
    match o {
        Some(x) => Some(x as i64),
        None => None,
    }
}

// ---------------------------------------------------------------- lookups

pub open spec fn has_worker(ws: Seq<WorkerView>, id: Seq<char>) -> bool {
    exists|i: int| 0 <= i < ws.len() && #[trigger] ws[i].id == id
}

/// The row of the worker with the given id (meaningful when `has_worker`).
pub open spec fn worker_index(ws: Seq<WorkerView>, id: Seq<char>) -> int {
    choose|i: int| 0 <= i < ws.len() && #[trigger] ws[i].id == id
}

pub open spec fn has_vm(vs: Seq<VmView>, id: Seq<char>) -> bool {
    exists|i: int| 0 <= i < vs.len() && #[trigger] vs[i].vm_id == id
}

/// The row of the VM with the given id (meaningful when `has_vm`).
pub open spec fn vm_index(vs: Seq<VmView>, id: Seq<char>) -> int {
    choose|i: int| 0 <= i < vs.len() && #[trigger] vs[i].vm_id == id
}

pub open spec fn worker_ids_unique(ws: Seq<WorkerView>) -> bool {
    forall|i: int, j: int|
        0 <= i < ws.len() && 0 <= j < ws.len() && i != j ==> #[trigger] ws[i].id != #[trigger] ws[j].id
}

pub open spec fn vm_ids_unique(vs: Seq<VmView>) -> bool {
    forall|i: int, j: int|
        0 <= i < vs.len() && 0 <= j < vs.len() && i != j ==> #[trigger] vs[i].vm_id
            != #[trigger] vs[j].vm_id
}

/// The tables' keys are unique and their sizes are countable in an `i64`.
pub open spec fn registry_valid(r: RegistryView) -> bool {
    &&& worker_ids_unique(r.workers)
    &&& vm_ids_unique(r.vms)
    &&& r.workers.len() <= i64::MAX
    &&& r.vms.len() <= i64::MAX
}

// ---------------------------------------------------------------- workers

/// The row written for a worker seen for the first time.
pub open spec fn new_worker(id: Seq<char>, ip: Seq<char>, now: i64) -> WorkerView {
    WorkerView {
        id: id,
        ip_address: ip,
        registered_at: now,
        last_heartbeat: now,
        status: WorkerStatus::Healthy,
        total_vcpus: None,
        total_memory_mb: None,
        allocatable_memory_mb: None,
        allocated_vcpus: None,
        allocated_memory_mb: None,
        vm_count: None,
        version: None,
        copy_strategy: None,
    }
}

/// A known worker registering again: new address and heartbeat, healthy;
/// its registration time and capacity figures stay.
pub open spec fn reregistered(w: WorkerView, ip: Seq<char>, now: i64) -> WorkerView {
    WorkerView { ip_address: ip, last_heartbeat: now, status: WorkerStatus::Healthy, ..w }
}

pub open spec fn register_worker_error(r: RegistryView, id: Seq<char>) -> Option<RegistryError> {
    if !has_worker(r.workers, id) && r.workers.len() >= i64::MAX {
        Some(RegistryError::StorageFull)
    } else {
        None
    }
}

/// Insert the worker, or update it where its id is known.
pub open spec fn after_register_worker(
    r: RegistryView,
    id: Seq<char>,
    ip: Seq<char>,
    now: i64,
) -> RegistryView {
    if has_worker(r.workers, id) {
        let i = worker_index(r.workers, id);
        RegistryView { workers: r.workers.update(i, reregistered(r.workers[i], ip, now)), ..r }
    } else {
        RegistryView { workers: r.workers.push(new_worker(id, ip, now)), ..r }
    }
}

pub open spec fn heartbeat_error(r: RegistryView, id: Seq<char>) -> Option<RegistryError> {
    if has_worker(r.workers, id) {
        None
    } else {
        Some(RegistryError::WorkerNotFound)
    }
}

pub open spec fn beaten(w: WorkerView, now: i64) -> WorkerView {
    WorkerView { last_heartbeat: now, status: WorkerStatus::Healthy, ..w }
}

/// A heartbeat refreshes the worker's time and marks it healthy.
pub open spec fn after_heartbeat(r: RegistryView, id: Seq<char>, now: i64) -> RegistryView {
    if has_worker(r.workers, id) {
        let i = worker_index(r.workers, id);
        RegistryView { workers: r.workers.update(i, beaten(r.workers[i], now)), ..r }
    } else {
        r
    }
}

/// A healthy worker whose last heartbeat is older than the cutoff.
pub open spec fn is_stale(w: WorkerView, cutoff: int) -> bool {
    w.status == WorkerStatus::Healthy && w.last_heartbeat < cutoff
}

pub open spec fn marked(w: WorkerView, cutoff: int) -> WorkerView {
    if is_stale(w, cutoff) {
        WorkerView { status: WorkerStatus::Unhealthy, ..w }
    } else {
        w
    }
}

pub open spec fn mark_stale(ws: Seq<WorkerView>, cutoff: int) -> Seq<WorkerView> {
    ws.map_values(|w: WorkerView| marked(w, cutoff))
}

pub open spec fn count_stale(ws: Seq<WorkerView>, cutoff: int) -> nat
    decreases ws.len(),
{
    if ws.len() == 0 {
        0
    } else {
        count_stale(ws.drop_last(), cutoff) + if is_stale(ws.last(), cutoff) {
            1nat
        } else {
            0nat
        }
    }
}

/// Every healthy worker whose heartbeat is older than `cutoff` becomes unhealthy.
pub open spec fn after_health_check(r: RegistryView, cutoff: int) -> RegistryView {
    RegistryView { workers: mark_stale(r.workers, cutoff), ..r }
}

pub open spec fn count_healthy(ws: Seq<WorkerView>) -> nat
    decreases ws.len(),
{
    if ws.len() == 0 {
        0
    } else {
        count_healthy(ws.drop_last()) + if ws.last().status == WorkerStatus::Healthy {
            1nat
        } else {
            0nat
        }
    }
}

/// The capacity figures used when a worker reports none.
pub open spec fn reported_capacity(c: Option<WorkerCapacity>) -> WorkerCapacity {
    match c {
        Some(c) => c,
        None => WorkerCapacity { total_memory_mb: 0, allocatable_memory_mb: 0, total_vcpus: 0 },
    }
}

/// The utilization figures used when a worker reports none.
pub open spec fn reported_utilization(u: Option<WorkerUtilization>) -> WorkerUtilization {
    match u {
        Some(u) => u,
        None => WorkerUtilization { count: 0, allocated_vcpus: 0, allocated_memory_mb: 0 },
    }
}

/// The mathematical value of a readiness report.
pub struct ReadyReport {
    pub version: Seq<char>,
    pub capacity: Option<WorkerCapacity>,
    pub vms: Option<WorkerUtilization>,
    pub copy_strategy: Option<Seq<char>>,
}

pub open spec fn ready_report(r: WorkerReadyResponse) -> ReadyReport {
    ReadyReport {
        version: r.version@,
        capacity: r.capacity,
        vms: r.vms,
        copy_strategy: opt_text(r.copy_strategy),
    }
}

/// The worker row after a readiness report; each figure is stored as the
/// `i64` that Rust's `as` makes of it.
pub open spec fn with_report(w: WorkerView, rep: ReadyReport) -> WorkerView {
    let c = reported_capacity(rep.capacity);
    let u = reported_utilization(rep.vms);
    WorkerView {
        total_vcpus: Some(c.total_vcpus as i64),
        total_memory_mb: Some(c.total_memory_mb as i64),
        allocatable_memory_mb: Some(c.allocatable_memory_mb as i64),
        allocated_vcpus: Some(u.allocated_vcpus as i64),
        allocated_memory_mb: Some(u.allocated_memory_mb as i64),
        vm_count: Some(u.count as i64),
        version: Some(rep.version),
        copy_strategy: rep.copy_strategy,
        ..w
    }
}

pub open spec fn after_capacity_report(r: RegistryView, id: Seq<char>, rep: ReadyReport) -> RegistryView {
    if has_worker(r.workers, id) {
        let i = worker_index(r.workers, id);
        RegistryView { workers: r.workers.update(i, with_report(r.workers[i], rep)), ..r }
    } else {
        r
    }
}

// ---------------------------------------------------------------- VMs

/// The worker counters after adding (`sign == 1`) or removing (`sign == -1`)
/// a VM of the given size.
pub open spec fn counters_fit(w: WorkerView, vcpus: int, memory_mb: int, sign: int) -> bool {
    &&& fits_i64(coalesce(w.allocated_vcpus) + sign * vcpus)
    &&& fits_i64(coalesce(w.allocated_memory_mb) + sign * memory_mb)
    &&& fits_i64(coalesce(w.vm_count) + sign)
}

pub open spec fn with_counters(w: WorkerView, vcpus: int, memory_mb: int, sign: int) -> WorkerView {
    WorkerView {
        allocated_vcpus: Some((coalesce(w.allocated_vcpus) + sign * vcpus) as i64),
        allocated_memory_mb: Some((coalesce(w.allocated_memory_mb) + sign * memory_mb) as i64),
        vm_count: Some((coalesce(w.vm_count) + sign) as i64),
        ..w
    }
}

pub open spec fn register_vm_error(
    r: RegistryView,
    vm_id: Seq<char>,
    worker_id: Seq<char>,
    vcpus: Option<u8>,
    memory_mb: Option<u32>,
) -> Option<RegistryError> {
    if has_vm(r.vms, vm_id) {
        Some(RegistryError::VmAlreadyRegistered)
    } else if r.vms.len() >= i64::MAX {
        Some(RegistryError::StorageFull)
    } else if vcpus is Some && memory_mb is Some && has_worker(r.workers, worker_id) && !counters_fit(
        r.workers[worker_index(r.workers, worker_id)],
        vcpus->0 as int,
        memory_mb->0 as int,
        1,
    ) {
        Some(RegistryError::CounterOverflow)
    } else {
        None
    }
}

/// The VM row is appended; when both sizes are given, the hosting worker's
/// counters grow by them and by one VM.
pub open spec fn after_register_vm(
    r: RegistryView,
    vm_id: Seq<char>,
    worker_id: Seq<char>,
    vcpus: Option<u8>,
    memory_mb: Option<u32>,
    now: i64,
) -> RegistryView {
    let row = VmView {
        vm_id: vm_id,
        worker_id: worker_id,
        created_at: now,
        vcpus: widen_u8(vcpus),
        memory_mb: widen_u32(memory_mb),
    };
    let workers = if vcpus is Some && memory_mb is Some && has_worker(r.workers, worker_id) {
        let i = worker_index(r.workers, worker_id);
        r.workers.update(i, with_counters(r.workers[i], vcpus->0 as int, memory_mb->0 as int, 1))
    } else {
        r.workers
    };
    RegistryView { workers: workers, vms: r.vms.push(row) }
}

/// The location of a VM, given only while its worker is registered and healthy.
pub open spec fn vm_location(r: RegistryView, vm_id: Seq<char>) -> Option<VmLocationView> {
    if has_vm(r.vms, vm_id) {
        let v = r.vms[vm_index(r.vms, vm_id)];
        if has_worker(r.workers, v.worker_id) {
            let w = r.workers[worker_index(r.workers, v.worker_id)];
            if w.status == WorkerStatus::Healthy {
                Some(
                    VmLocationView {
                        vm_id: v.vm_id,
                        worker_ip: w.ip_address,
                        port: ssh_port(),
                        status: "running"@,
                    },
                )
            } else {
                None
            }
        } else {
            None
        }
    } else {
        None
    }
}

/// The VM and its worker are both known, so the worker is asked to delete
/// the VM and takes its resources back.
pub open spec fn has_deletion_target(r: RegistryView, vm_id: Seq<char>) -> bool {
    has_vm(r.vms, vm_id) && has_worker(r.workers, r.vms[vm_index(r.vms, vm_id)].worker_id)
}

/// Both sizes of the VM are known, so its worker's counters shrink.
pub open spec fn releases_counters(v: VmView) -> bool {
    v.vcpus is Some && v.memory_mb is Some
}

pub open spec fn deregister_vm_error(r: RegistryView, vm_id: Seq<char>) -> Option<RegistryError> {
    if has_deletion_target(r, vm_id) {
        let v = r.vms[vm_index(r.vms, vm_id)];
        let w = r.workers[worker_index(r.workers, v.worker_id)];
        if releases_counters(v) && !counters_fit(
            w,
            v.vcpus->0 as int,
            v.memory_mb->0 as int,
            -1,
        ) {
            Some(RegistryError::CounterOverflow)
        } else {
            None
        }
    } else {
        None
    }
}

/// The VM row goes; when its worker is registered and both sizes are
/// known, the worker gives back the VM's resources.
pub open spec fn after_deregister_vm(r: RegistryView, vm_id: Seq<char>) -> RegistryView {
    if has_vm(r.vms, vm_id) {
        let k = vm_index(r.vms, vm_id);
        let v = r.vms[k];
        let workers = if has_worker(r.workers, v.worker_id) && releases_counters(v) {
            let i = worker_index(r.workers, v.worker_id);
            r.workers.update(
                i,
                with_counters(r.workers[i], v.vcpus->0 as int, v.memory_mb->0 as int, -1),
            )
        } else {
            r.workers
        };
        RegistryView { workers: workers, vms: r.vms.remove(k) }
    } else {
        r
    }
}

// ---------------------------------------------------------------- utilization

/// The utilization counter `field` of a worker, a missing one counting as
/// zero: allocated vCPUs (0), allocated memory (1), VM count (2).
pub open spec fn counter(w: WorkerView, field: int) -> int {
    if field == 0 {
        coalesce(w.allocated_vcpus)
    } else if field == 1 {
        coalesce(w.allocated_memory_mb)
    } else {
        coalesce(w.vm_count)
    }
}

/// What a VM adds to counter `field` of the worker with the given id: its
/// vCPUs, its memory, or one VM; nothing unless it names that worker and both
/// its sizes are known.
pub open spec fn charge(v: VmView, worker_id: Seq<char>, field: int) -> int {
    if v.worker_id == worker_id && releases_counters(v) {
        if field == 0 {
            v.vcpus->0 as int
        } else if field == 1 {
            v.memory_mb->0 as int
        } else {
            1
        }
    } else {
        0
    }
}

/// The sum of what the VMs add to counter `field` of the given worker.
pub open spec fn charged(vs: Seq<VmView>, worker_id: Seq<char>, field: int) -> int
    decreases vs.len(),
{
    if vs.len() == 0 {
        0
    } else {
        charged(vs.drop_last(), worker_id, field) + charge(vs.last(), worker_id, field)
    }
}

/// Every VM's worker is registered, and every worker's counters are the sums
/// of what its VMs add to them.
pub open spec fn utilization_consistent(r: RegistryView) -> bool {
    &&& forall|k: int| 0 <= k < r.vms.len() ==> has_worker(r.workers, #[trigger] r.vms[k].worker_id)
    &&& forall|j: int, f: int|
        0 <= j < r.workers.len() && 0 <= f < 3 ==> #[trigger] counter(r.workers[j], f) == charged(
            r.vms,
            r.workers[j].id,
            f,
        )
}

// ---------------------------------------------------------------- placement

pub open spec fn free_vcpus(w: WorkerView) -> int {
    coalesce(w.total_vcpus) - coalesce(w.allocated_vcpus)
}

pub open spec fn free_memory_mb(w: WorkerView) -> int {
    coalesce(w.allocatable_memory_mb) - coalesce(w.allocated_memory_mb)
}

/// A healthy worker with known capacity that has room for the VM.
pub open spec fn can_host(w: WorkerView, vcpus: int, memory_mb: int) -> bool {
    &&& w.status == WorkerStatus::Healthy
    &&& w.total_vcpus is Some
    &&& w.allocatable_memory_mb is Some
    &&& free_vcpus(w) >= vcpus
    &&& free_memory_mb(w) >= memory_mb
}

/// `a` leaves no more free memory than `b`, and on a tie no more free vCPUs.
pub open spec fn fits_tighter_or_equal(a: WorkerView, b: WorkerView) -> bool {
    ||| free_memory_mb(a) < free_memory_mb(b)
    ||| free_memory_mb(a) == free_memory_mb(b) && free_vcpus(a) <= free_vcpus(b)
}

/// Row `i` is the best fit: it can host the VM, no candidate fits tighter,
/// and it is the first row among the equally tight ones.
pub open spec fn is_best_fit(ws: Seq<WorkerView>, i: int, vcpus: int, memory_mb: int) -> bool {
    &&& 0 <= i < ws.len()
    &&& can_host(ws[i], vcpus, memory_mb)
    &&& forall|j: int|
        0 <= j < ws.len() && can_host(#[trigger] ws[j], vcpus, memory_mb) ==> fits_tighter_or_equal(
            ws[i],
            ws[j],
        )
    &&& forall|j: int|
        0 <= j < i && can_host(#[trigger] ws[j], vcpus, memory_mb) ==> !fits_tighter_or_equal(
            ws[j],
            ws[i],
        )
}

pub open spec fn some_worker_can_host(ws: Seq<WorkerView>, vcpus: int, memory_mb: int) -> bool {
    exists|j: int| 0 <= j < ws.len() && can_host(#[trigger] ws[j], vcpus, memory_mb)
}

} // verus!
