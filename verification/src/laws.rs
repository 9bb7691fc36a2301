//! What holds of the registry across operations: a registered VM is found on
//! its worker, a deregistered one is not, stale workers receive no traffic
//! until they beat again, deregistration gives back what registration took,
//! and the tables stay well formed throughout.
use vstd::prelude::*;
use crate::model::{
    after_deregister_vm, after_health_check, after_heartbeat, after_register_vm,
    after_register_worker, can_host, coalesce, count_healthy, count_stale, deregister_vm_error,
    fits_tighter_or_equal, has_deletion_target, has_vm, has_worker, heartbeat_error, is_best_fit,
    after_capacity_report, mark_stale, marked, register_vm_error, register_worker_error, registry_valid,
    new_worker, reregistered, ssh_port, vm_index, vm_location, with_counters, worker_index, RegistryError,
    RegistryView, ReadyReport, charge, charged, counter, utilization_consistent,
};
use crate::models::{status_text, VmLocationView, VmView, WorkerStatus, WorkerView};
use crate::registry::{
    lemma_vm_ids_push, lemma_vm_index, lemma_worker_ids_kept, lemma_worker_ids_push,
    lemma_worker_index,
};

verus! {

// ---------------------------------------------------------------- validity

/// Registering a worker keeps the tables well formed, and leaves the worker
/// registered, healthy, at the given address, with the given heartbeat.
pub proof fn lemma_register_worker_valid(r: RegistryView, id: Seq<char>, ip: Seq<char>, now: i64)
    requires
        registry_valid(r),
        register_worker_error(r, id) is None,
    ensures
        ({
            let r1 = after_register_worker(r, id, ip, now);
            let w = r1.workers[worker_index(r1.workers, id)];
            &&& registry_valid(r1)
            &&& has_worker(r1.workers, id)
            &&& w.ip_address == ip
            &&& w.status == WorkerStatus::Healthy
            &&& w.last_heartbeat == now
            &&& r1.vms == r.vms
        }),
{
    let r1 = after_register_worker(r, id, ip, now);
    if has_worker(r.workers, id) {
        let i = worker_index(r.workers, id);
        lemma_worker_ids_kept(r.workers, r1.workers);
        lemma_worker_index(r1.workers, id, i);
    } else {
        let n = r.workers.len() as int;
        lemma_worker_ids_push(r.workers, new_worker(id, ip, now));
        lemma_worker_index(r1.workers, id, n);
    }
}

/// Registering a VM keeps the tables well formed; the VM is the last row
/// and every worker keeps its id, address, status and heartbeat.
pub proof fn lemma_register_vm_valid(
    r: RegistryView,
    vm_id: Seq<char>,
    worker_id: Seq<char>,
    vcpus: Option<u8>,
    memory_mb: Option<u32>,
    now: i64,
)
    requires
        registry_valid(r),
        register_vm_error(r, vm_id, worker_id, vcpus, memory_mb) is None,
    ensures
        ({
            let r1 = after_register_vm(r, vm_id, worker_id, vcpus, memory_mb, now);
            &&& registry_valid(r1)
            &&& has_vm(r1.vms, vm_id)
            &&& vm_index(r1.vms, vm_id) == r.vms.len()
            &&& r1.vms[vm_index(r1.vms, vm_id)].worker_id == worker_id
            &&& r1.vms.drop_last() == r.vms
            &&& r1.workers.len() == r.workers.len()
            &&& forall|j: int|
                0 <= j < r.workers.len() ==> same_identity(#[trigger] r1.workers[j], r.workers[j])
        }),
{
    let r1 = after_register_vm(r, vm_id, worker_id, vcpus, memory_mb, now);
    let n = r.vms.len() as int;
    assert(r1.vms =~= r.vms.push(r1.vms[n]));
    lemma_vm_ids_push(r.vms, r1.vms[n]);
    lemma_worker_ids_kept(r.workers, r1.workers);
    lemma_vm_index(r1.vms, vm_id, n);
    assert(r1.vms.drop_last() =~= r.vms);
}

/// Two worker rows agree on everything but the utilization counters.
pub open spec fn same_identity(a: WorkerView, b: WorkerView) -> bool {
    &&& a.id == b.id
    &&& a.ip_address == b.ip_address
    &&& a.status == b.status
    &&& a.last_heartbeat == b.last_heartbeat
    &&& a.registered_at == b.registered_at
}

/// Two worker rows agree on everything, counting a missing counter as zero.
pub open spec fn same_load(a: WorkerView, b: WorkerView) -> bool {
    &&& coalesce(a.allocated_vcpus) == coalesce(b.allocated_vcpus)
    &&& coalesce(a.allocated_memory_mb) == coalesce(b.allocated_memory_mb)
    &&& coalesce(a.vm_count) == coalesce(b.vm_count)
    &&& WorkerView { allocated_vcpus: None, allocated_memory_mb: None, vm_count: None, ..a }
        == WorkerView { allocated_vcpus: None, allocated_memory_mb: None, vm_count: None, ..b }
}

// ---------------------------------------------------------------- laws

/// A VM registered on a worker that has just registered is found there: the
/// lookup names the VM, the worker's address, the SSH port and `running`.
pub proof fn law_registered_vm_is_located(
    r: RegistryView,
    worker_id: Seq<char>,
    ip: Seq<char>,
    t1: i64,
    vm_id: Seq<char>,
    vcpus: Option<u8>,
    memory_mb: Option<u32>,
    t2: i64,
)
    requires
        registry_valid(r),
        register_worker_error(r, worker_id) is None,
        register_vm_error(
            after_register_worker(r, worker_id, ip, t1),
            vm_id,
            worker_id,
            vcpus,
            memory_mb,
        ) is None,
    ensures
        vm_location(
            after_register_vm(
                after_register_worker(r, worker_id, ip, t1),
                vm_id,
                worker_id,
                vcpus,
                memory_mb,
                t2,
            ),
            vm_id,
        ) == Some(VmLocationView { vm_id: vm_id, worker_ip: ip, port: ssh_port(), status: "running"@ }),
{
    let r1 = after_register_worker(r, worker_id, ip, t1);
    lemma_register_worker_valid(r, worker_id, ip, t1);
    law_vm_on_healthy_worker_is_located(r1, vm_id, worker_id, vcpus, memory_mb, t2);
}

/// A VM registered on any registered, healthy worker is found there: the
/// lookup names the VM, that worker's address, the SSH port and `running`.
pub proof fn law_vm_on_healthy_worker_is_located(
    r: RegistryView,
    vm_id: Seq<char>,
    worker_id: Seq<char>,
    vcpus: Option<u8>,
    memory_mb: Option<u32>,
    now: i64,
)
    requires
        registry_valid(r),
        has_worker(r.workers, worker_id),
        r.workers[worker_index(r.workers, worker_id)].status == WorkerStatus::Healthy,
        register_vm_error(r, vm_id, worker_id, vcpus, memory_mb) is None,
    ensures
        vm_location(after_register_vm(r, vm_id, worker_id, vcpus, memory_mb, now), vm_id) == Some(
            VmLocationView {
                vm_id: vm_id,
                worker_ip: r.workers[worker_index(r.workers, worker_id)].ip_address,
                port: ssh_port(),
                status: "running"@,
            },
        ),
{
    let r1 = after_register_vm(r, vm_id, worker_id, vcpus, memory_mb, now);
    lemma_register_vm_valid(r, vm_id, worker_id, vcpus, memory_mb, now);
    let i = worker_index(r.workers, worker_id);
    assert(same_identity(r1.workers[i], r.workers[i]));
    lemma_worker_index(r1.workers, worker_id, i);
    let k = vm_index(r1.vms, vm_id);
    assert(r1.vms[k].vm_id == vm_id);
}

/// A deregistered VM is gone: its row is removed, whether or not its worker
/// is registered, and it is not found any more.
pub proof fn law_deregistered_vm_is_gone(r: RegistryView, vm_id: Seq<char>)
    requires
        registry_valid(r),
        deregister_vm_error(r, vm_id) is None,
    ensures
        !has_vm(after_deregister_vm(r, vm_id).vms, vm_id),
        vm_location(after_deregister_vm(r, vm_id), vm_id) is None,
{
    let r1 = after_deregister_vm(r, vm_id);
    if has_vm(r.vms, vm_id) {
        let k = vm_index(r.vms, vm_id);
        assert forall|j: int| 0 <= j < r1.vms.len() implies #[trigger] r1.vms[j].vm_id != vm_id by {
            if j < k {
                assert(r1.vms[j] == r.vms[j]);
            } else {
                assert(r1.vms[j] == r.vms[j + 1]);
            }
        }
        assert(!has_vm(r1.vms, vm_id));
    }
}

/// A VM is only ever located on a registered, healthy worker, and the
/// location names that worker's address.
pub proof fn law_location_only_on_healthy_worker(r: RegistryView, vm_id: Seq<char>)
    requires
        vm_location(r, vm_id) is Some,
    ensures
        has_vm(r.vms, vm_id),
        has_worker(r.workers, r.vms[vm_index(r.vms, vm_id)].worker_id),
        ({
            let w = r.workers[worker_index(r.workers, r.vms[vm_index(r.vms, vm_id)].worker_id)];
            &&& w.status == WorkerStatus::Healthy
            &&& vm_location(r, vm_id)->0.worker_ip == w.ip_address
        }),
{
}

/// A heartbeat is accepted exactly from registered workers; a worker that has
/// registered may beat.
pub proof fn law_heartbeat_needs_registration(
    r: RegistryView,
    worker_id: Seq<char>,
    ip: Seq<char>,
    now: i64,
)
    requires
        registry_valid(r),
    ensures
        heartbeat_error(r, worker_id) is None <==> has_worker(r.workers, worker_id),
        heartbeat_error(r, worker_id) is Some ==> heartbeat_error(r, worker_id) == Some(
            RegistryError::WorkerNotFound,
        ),
        register_worker_error(r, worker_id) is None ==> heartbeat_error(
            after_register_worker(r, worker_id, ip, now),
            worker_id,
        ) is None,
{
    if register_worker_error(r, worker_id) is None {
        lemma_register_worker_valid(r, worker_id, ip, now);
    }
}

/// The health check keeps every id in its row.
pub proof fn lemma_health_check_keeps_ids(r: RegistryView, cutoff: int)
    requires
        registry_valid(r),
    ensures
        ({
            let r1 = after_health_check(r, cutoff);
            &&& registry_valid(r1)
            &&& r1.workers.len() == r.workers.len()
            &&& forall|j: int|
                0 <= j < r.workers.len() ==> #[trigger] r1.workers[j] == marked(r.workers[j], cutoff)
        }),
{
    let r1 = after_health_check(r, cutoff);
    lemma_worker_ids_kept(r.workers, r1.workers);
}

/// After a health check with a given cutoff, a worker whose last heartbeat
/// is older than the cutoff receives no traffic: its VMs are not located and
/// it is not a placement candidate.
pub proof fn law_stale_worker_gets_no_traffic(
    r: RegistryView,
    cutoff: int,
    i: int,
    vm_id: Seq<char>,
    vcpus: int,
    memory_mb: int,
)
    requires
        registry_valid(r),
        0 <= i < r.workers.len(),
        r.workers[i].last_heartbeat < cutoff,
    ensures
        !can_host(after_health_check(r, cutoff).workers[i], vcpus, memory_mb),
        has_vm(r.vms, vm_id) && r.vms[vm_index(r.vms, vm_id)].worker_id == r.workers[i].id
            ==> vm_location(after_health_check(r, cutoff), vm_id) is None,
{
    let r1 = after_health_check(r, cutoff);
    lemma_health_check_keeps_ids(r, cutoff);
    assert(r1.workers[i].id == r.workers[i].id);
    lemma_worker_index(r1.workers, r.workers[i].id, i);
}

/// A health check leaves no stale worker: a second check at once marks
/// nothing and changes nothing.
pub proof fn law_health_check_settles(r: RegistryView, cutoff: int)
    ensures
        count_stale(after_health_check(r, cutoff).workers, cutoff) == 0,
        after_health_check(after_health_check(r, cutoff), cutoff) == after_health_check(r, cutoff),
{
    let ws = mark_stale(r.workers, cutoff);
    lemma_no_stale_left(r.workers, cutoff);
    assert(mark_stale(ws, cutoff) =~= ws);
}

proof fn lemma_no_stale_left(ws: Seq<WorkerView>, cutoff: int)
    ensures
        count_stale(mark_stale(ws, cutoff), cutoff) == 0,
    decreases ws.len(),
{
    if ws.len() > 0 {
        lemma_no_stale_left(ws.drop_last(), cutoff);
        assert(mark_stale(ws, cutoff).drop_last() =~= mark_stale(ws.drop_last(), cutoff));
    }
}

/// The workers a health check marks are exactly the healthy workers it
/// takes away: the healthy count drops by the number the check reports.
pub proof fn law_health_check_count(r: RegistryView, cutoff: int)
    ensures
        count_healthy(after_health_check(r, cutoff).workers) + count_stale(r.workers, cutoff)
            == count_healthy(r.workers),
{
    lemma_marking_counts(r.workers, cutoff);
}

proof fn lemma_marking_counts(ws: Seq<WorkerView>, cutoff: int)
    ensures
        count_healthy(mark_stale(ws, cutoff)) + count_stale(ws, cutoff) == count_healthy(ws),
    decreases ws.len(),
{
    if ws.len() > 0 {
        lemma_marking_counts(ws.drop_last(), cutoff);
        assert(mark_stale(ws, cutoff).drop_last() =~= mark_stale(ws.drop_last(), cutoff));
    }
}

/// A heartbeat makes the worker's VMs reachable again at its address.
pub proof fn law_heartbeat_restores_location(
    r: RegistryView,
    worker_id: Seq<char>,
    now: i64,
    vm_id: Seq<char>,
)
    requires
        registry_valid(r),
        has_worker(r.workers, worker_id),
        has_vm(r.vms, vm_id),
        r.vms[vm_index(r.vms, vm_id)].worker_id == worker_id,
    ensures
        vm_location(after_heartbeat(r, worker_id, now), vm_id) == Some(
            VmLocationView {
                vm_id: vm_id,
                worker_ip: r.workers[worker_index(r.workers, worker_id)].ip_address,
                port: ssh_port(),
                status: "running"@,
            },
        ),
{
    let r1 = after_heartbeat(r, worker_id, now);
    let i = worker_index(r.workers, worker_id);
    assert(r1.workers[i].id == worker_id);
    lemma_worker_ids_kept(r.workers, r1.workers);
    lemma_worker_index(r1.workers, worker_id, i);
    let k = vm_index(r.vms, vm_id);
    assert(r.vms[k].vm_id == vm_id);
}

/// Deregistering a VM right after registering it gives back what the
/// registration took: the VM table is as before and every worker is as
/// before, a missing counter now reading as zero.
pub proof fn law_deregistration_undoes_registration(
    r: RegistryView,
    vm_id: Seq<char>,
    worker_id: Seq<char>,
    vcpus: Option<u8>,
    memory_mb: Option<u32>,
    now: i64,
)
    requires
        registry_valid(r),
        register_vm_error(r, vm_id, worker_id, vcpus, memory_mb) is None,
    ensures
        ({
            let r1 = after_register_vm(r, vm_id, worker_id, vcpus, memory_mb, now);
            let r2 = after_deregister_vm(r1, vm_id);
            &&& deregister_vm_error(r1, vm_id) is None
            &&& r2.vms == r.vms
            &&& r2.workers.len() == r.workers.len()
            &&& forall|j: int| 0 <= j < r.workers.len() ==> same_load(#[trigger] r2.workers[j], r.workers[j])
        }),
{
    let r1 = after_register_vm(r, vm_id, worker_id, vcpus, memory_mb, now);
    lemma_register_vm_valid(r, vm_id, worker_id, vcpus, memory_mb, now);
    let k = vm_index(r1.vms, vm_id);
    let r2 = after_deregister_vm(r1, vm_id);
    assert(r1.vms.remove(k) =~= r.vms);
    if has_worker(r.workers, worker_id) {
        let i = worker_index(r.workers, worker_id);
        assert(r.workers[i].id == worker_id);
        assert(r1.workers[i].id == worker_id);
        lemma_worker_index(r1.workers, worker_id, i);
        assert(has_deletion_target(r1, vm_id));
        assert forall|j: int| 0 <= j < r.workers.len() implies same_load(#[trigger] r2.workers[j], r.workers[j]) by {
            if j == i && vcpus is Some && memory_mb is Some {
                let w = r.workers[i];
                let v = vcpus->0 as int;
                let m = memory_mb->0 as int;
                assert(r1.workers[i] == with_counters(w, v, m, 1));
                assert(r2.workers[i] == with_counters(r1.workers[i], v, m, -1));
            }
        }
    } else {
        assert(r1.workers == r.workers);
        assert(!has_worker(r1.workers, worker_id));
        assert(r2.workers == r1.workers);
    }
}

/// Registering the same worker twice with the same address at the same time
/// is the same as registering it once.
pub proof fn law_worker_registration_idempotent(
    r: RegistryView,
    worker_id: Seq<char>,
    ip: Seq<char>,
    now: i64,
)
    requires
        registry_valid(r),
        register_worker_error(r, worker_id) is None,
    ensures
        register_worker_error(after_register_worker(r, worker_id, ip, now), worker_id) is None,
        after_register_worker(after_register_worker(r, worker_id, ip, now), worker_id, ip, now)
            == after_register_worker(r, worker_id, ip, now),
{
    let r1 = after_register_worker(r, worker_id, ip, now);
    lemma_register_worker_valid(r, worker_id, ip, now);
    let i = worker_index(r1.workers, worker_id);
    let w = r1.workers[i];
    assert(reregistered(w, ip, now) == w);
    assert(r1.workers.update(i, reregistered(w, ip, now)) =~= r1.workers);
}

/// A worker that registers again keeps its registration time and its
/// capacity figures; only its address, heartbeat and health change.
pub proof fn law_reregistration_keeps_history(
    r: RegistryView,
    worker_id: Seq<char>,
    ip: Seq<char>,
    now: i64,
)
    requires
        registry_valid(r),
        has_worker(r.workers, worker_id),
    ensures
        ({
            let before = r.workers[worker_index(r.workers, worker_id)];
            let r1 = after_register_worker(r, worker_id, ip, now);
            let after = r1.workers[worker_index(r1.workers, worker_id)];
            &&& r1.workers.len() == r.workers.len()
            &&& after == WorkerView {
                ip_address: ip,
                last_heartbeat: now,
                status: WorkerStatus::Healthy,
                ..before
            }
        }),
{
    lemma_register_worker_valid(r, worker_id, ip, now);
    let r1 = after_register_worker(r, worker_id, ip, now);
    let i = worker_index(r.workers, worker_id);
    assert(r1.workers[i].id == worker_id);
    lemma_worker_index(r1.workers, worker_id, i);
}

/// At most one row is the best fit for a request.
pub proof fn law_best_fit_is_unique(ws: Seq<WorkerView>, i: int, j: int, vcpus: int, memory_mb: int)
    requires
        is_best_fit(ws, i, vcpus, memory_mb),
        is_best_fit(ws, j, vcpus, memory_mb),
    ensures
        i == j,
{
    if i < j {
        assert(fits_tighter_or_equal(ws[i], ws[j]));
        assert(!fits_tighter_or_equal(ws[i], ws[j]));
    } else if j < i {
        assert(fits_tighter_or_equal(ws[j], ws[i]));
        assert(!fits_tighter_or_equal(ws[j], ws[i]));
    }
}

// ---------------------------------------------------------------- utilization

proof fn lemma_charged_push(vs: Seq<VmView>, v: VmView, id: Seq<char>, f: int)
    ensures
        charged(vs.push(v), id, f) == charged(vs, id, f) + charge(v, id, f),
{
    assert(vs.push(v).drop_last() =~= vs);
}

proof fn lemma_charged_remove(vs: Seq<VmView>, k: int, id: Seq<char>, f: int)
    requires
        0 <= k < vs.len(),
    ensures
        charged(vs.remove(k), id, f) == charged(vs, id, f) - charge(vs[k], id, f),
    decreases vs.len(),
{
    if k == vs.len() - 1 {
        assert(vs.remove(k) =~= vs.drop_last());
    } else {
        lemma_charged_remove(vs.drop_last(), k, id, f);
        assert(vs.remove(k).drop_last() =~= vs.drop_last().remove(k));
        assert(vs.remove(k).last() == vs.last());
    }
}

proof fn lemma_charged_none(vs: Seq<VmView>, id: Seq<char>, f: int)
    requires
        forall|k: int| 0 <= k < vs.len() ==> #[trigger] vs[k].worker_id != id,
    ensures
        charged(vs, id, f) == 0,
    decreases vs.len(),
{
    if vs.len() > 0 {
        lemma_charged_none(vs.drop_last(), id, f);
        assert(vs.last() == vs[vs.len() - 1]);
    }
}

/// An empty registry's counters agree with its (no) VMs.
pub proof fn law_empty_registry_utilization()
    ensures
        utilization_consistent(
            RegistryView { workers: Seq::<WorkerView>::empty(), vms: Seq::<VmView>::empty() },
        ),
{
}

/// Registering a worker keeps every worker's counters equal to what its VMs
/// add up to: a new worker has no VMs, a known one keeps its counters.
pub proof fn law_register_worker_keeps_utilization(
    r: RegistryView,
    worker_id: Seq<char>,
    ip: Seq<char>,
    now: i64,
)
    requires
        registry_valid(r),
        utilization_consistent(r),
        register_worker_error(r, worker_id) is None,
    ensures
        utilization_consistent(after_register_worker(r, worker_id, ip, now)),
{
    let r1 = after_register_worker(r, worker_id, ip, now);
    lemma_register_worker_valid(r, worker_id, ip, now);
    assert forall|k: int| 0 <= k < r1.vms.len() implies has_worker(r1.workers, #[trigger] r1.vms[k].worker_id) by {
        let i = worker_index(r.workers, r.vms[k].worker_id);
        assert(r.vms[k] == r1.vms[k]);
        assert(r1.workers[i].id == r.workers[i].id);
    }
    if !has_worker(r.workers, worker_id) {
        assert forall|k: int| 0 <= k < r.vms.len() implies #[trigger] r.vms[k].worker_id != worker_id by {
            assert(has_worker(r.workers, r.vms[k].worker_id));
        }
        assert forall|f: int| 0 <= f < 3 implies charged(r.vms, worker_id, f) == 0 by {
            lemma_charged_none(r.vms, worker_id, f);
        }
    }
    assert forall|j: int, f: int| 0 <= j < r1.workers.len() && 0 <= f < 3 implies #[trigger] counter(
        r1.workers[j],
        f,
    ) == charged(r1.vms, r1.workers[j].id, f) by {
        if j < r.workers.len() {
            assert(counter(r.workers[j], f) == charged(r.vms, r.workers[j].id, f));
        }
    }
}

/// Registering a VM on a registered worker keeps every worker's counters
/// equal to what its VMs add up to.
pub proof fn law_register_vm_keeps_utilization(
    r: RegistryView,
    vm_id: Seq<char>,
    worker_id: Seq<char>,
    vcpus: Option<u8>,
    memory_mb: Option<u32>,
    now: i64,
)
    requires
        registry_valid(r),
        utilization_consistent(r),
        has_worker(r.workers, worker_id),
        register_vm_error(r, vm_id, worker_id, vcpus, memory_mb) is None,
    ensures
        utilization_consistent(after_register_vm(r, vm_id, worker_id, vcpus, memory_mb, now)),
{
    let r1 = after_register_vm(r, vm_id, worker_id, vcpus, memory_mb, now);
    lemma_register_vm_valid(r, vm_id, worker_id, vcpus, memory_mb, now);
    let n = r.vms.len() as int;
    let row = r1.vms[n];
    assert(r1.vms =~= r.vms.push(row));
    let i = worker_index(r.workers, worker_id);
    assert forall|k: int| 0 <= k < r1.vms.len() implies has_worker(r1.workers, #[trigger] r1.vms[k].worker_id) by {
        if k < n {
            let wi = worker_index(r.workers, r.vms[k].worker_id);
            assert(r.vms[k] == r1.vms[k]);
            assert(r1.workers[wi].id == r.workers[wi].id);
        } else {
            assert(r1.workers[i].id == r.workers[i].id);
        }
    }
    assert forall|j: int, f: int| 0 <= j < r1.workers.len() && 0 <= f < 3 implies #[trigger] counter(
        r1.workers[j],
        f,
    ) == charged(r1.vms, r1.workers[j].id, f) by {
        lemma_charged_push(r.vms, row, r.workers[j].id, f);
        assert(counter(r.workers[j], f) == charged(r.vms, r.workers[j].id, f));
        assert(r1.workers[j].id == r.workers[j].id);
        if j != i {
            assert(r.workers[j].id != worker_id);
        }
    }
}

/// Deregistering a VM keeps every worker's counters equal to what its VMs
/// add up to.
pub proof fn law_deregister_vm_keeps_utilization(r: RegistryView, vm_id: Seq<char>)
    requires
        registry_valid(r),
        utilization_consistent(r),
        deregister_vm_error(r, vm_id) is None,
    ensures
        utilization_consistent(after_deregister_vm(r, vm_id)),
{
    if has_vm(r.vms, vm_id) {
        let r1 = after_deregister_vm(r, vm_id);
        let k = vm_index(r.vms, vm_id);
        let v = r.vms[k];
        assert(has_worker(r.workers, v.worker_id));
        let i = worker_index(r.workers, v.worker_id);
        assert forall|q: int| 0 <= q < r1.vms.len() implies has_worker(r1.workers, #[trigger] r1.vms[q].worker_id) by {
            let q0 = if q < k { q } else { q + 1 };
            assert(r1.vms[q] == r.vms[q0]);
            assert(has_worker(r.workers, r.vms[q0].worker_id));
            let wi = worker_index(r.workers, r.vms[q0].worker_id);
            assert(r1.workers[wi].id == r.workers[wi].id);
        }
        assert forall|j: int, f: int| 0 <= j < r1.workers.len() && 0 <= f < 3 implies #[trigger] counter(
            r1.workers[j],
            f,
        ) == charged(r1.vms, r1.workers[j].id, f) by {
            lemma_charged_remove(r.vms, k, r.workers[j].id, f);
            assert(counter(r.workers[j], f) == charged(r.vms, r.workers[j].id, f));
            assert(r1.workers[j].id == r.workers[j].id);
            if j != i {
                assert(r.workers[j].id != v.worker_id);
            }
        }
    }
}

/// A heartbeat changes no counter and no VM.
pub proof fn law_heartbeat_keeps_utilization(r: RegistryView, worker_id: Seq<char>, now: i64)
    requires
        utilization_consistent(r),
    ensures
        utilization_consistent(after_heartbeat(r, worker_id, now)),
{
    let r1 = after_heartbeat(r, worker_id, now);
    assert forall|k: int| 0 <= k < r1.vms.len() implies has_worker(r1.workers, #[trigger] r1.vms[k].worker_id) by {
        let wi = worker_index(r.workers, r.vms[k].worker_id);
        assert(r1.workers[wi].id == r.workers[wi].id);
    }
    assert forall|j: int, f: int| 0 <= j < r1.workers.len() && 0 <= f < 3 implies #[trigger] counter(
        r1.workers[j],
        f,
    ) == charged(r1.vms, r1.workers[j].id, f) by {
        assert(counter(r.workers[j], f) == charged(r.vms, r.workers[j].id, f));
    }
}

/// A health check changes no counter and no VM.
pub proof fn law_health_check_keeps_utilization(r: RegistryView, cutoff: int)
    requires
        utilization_consistent(r),
    ensures
        utilization_consistent(after_health_check(r, cutoff)),
{
    let r1 = after_health_check(r, cutoff);
    assert forall|k: int| 0 <= k < r1.vms.len() implies has_worker(r1.workers, #[trigger] r1.vms[k].worker_id) by {
        let wi = worker_index(r.workers, r.vms[k].worker_id);
        assert(r1.workers[wi].id == r.workers[wi].id);
    }
    assert forall|j: int, f: int| 0 <= j < r1.workers.len() && 0 <= f < 3 implies #[trigger] counter(
        r1.workers[j],
        f,
    ) == charged(r1.vms, r1.workers[j].id, f) by {
        assert(counter(r.workers[j], f) == charged(r.vms, r.workers[j].id, f));
    }
}

// ---------------------------------------------------------------- status text

/// Each status has its own text, so reading a stored status back gives the
/// status that was stored.
pub proof fn law_status_text_round_trip(a: WorkerStatus, b: WorkerStatus)
    ensures
        status_text(a) == status_text(b) ==> a == b,
{
    reveal_strlit("healthy");
    reveal_strlit("unhealthy");
    assert("healthy"@.len() == 7);
    assert("unhealthy"@.len() == 9);
    if a != b {
        assert(status_text(a).len() != status_text(b).len());
    }
}

// ---------------------------------------------------------------- field-level laws

/// An optional figure as a number, a missing one counting as zero.
pub open spec fn figure(o: Option<i64>) -> int {
    match o {
        Some(x) => x as int,
        None => 0,
    }
}

/// Memory a worker can still give a VM: its allocatable memory less what its
/// VMs hold (its total memory plays no part).
pub open spec fn memory_room(w: WorkerView) -> int {
    figure(w.allocatable_memory_mb) - figure(w.allocated_memory_mb)
}

/// vCPUs a worker can still give a VM: its vCPUs less what its VMs hold.
pub open spec fn vcpu_room(w: WorkerView) -> int {
    figure(w.total_vcpus) - figure(w.allocated_vcpus)
}

/// The health check at a cutoff turns exactly the healthy workers whose last
/// heartbeat is before the cutoff unhealthy; every other field of every row,
/// the order of the rows, and the VMs stay.
pub proof fn law_health_check_marks_exactly_the_stale(r: RegistryView, cutoff: int)
    ensures
        ({
            let r1 = after_health_check(r, cutoff);
            &&& r1.vms == r.vms
            &&& r1.workers.len() == r.workers.len()
            &&& forall|j: int|
                0 <= j < r.workers.len() ==> {
                    &&& (#[trigger] r1.workers[j]).status == if r.workers[j].status
                        == WorkerStatus::Healthy && r.workers[j].last_heartbeat < cutoff {
                        WorkerStatus::Unhealthy
                    } else {
                        r.workers[j].status
                    }
                    &&& WorkerView { status: r.workers[j].status, ..r1.workers[j] } == r.workers[j]
                }
        }),
{
}

/// A heartbeat at `now` sets the beating worker's last heartbeat to `now` and
/// makes it healthy, keeping everything else of its row; rows of other
/// workers and the VMs stay.
pub proof fn law_heartbeat_refreshes_its_worker(r: RegistryView, worker_id: Seq<char>, now: i64)
    requires
        registry_valid(r),
        has_worker(r.workers, worker_id),
    ensures
        ({
            let r1 = after_heartbeat(r, worker_id, now);
            &&& r1.vms == r.vms
            &&& r1.workers.len() == r.workers.len()
            &&& forall|j: int|
                0 <= j < r.workers.len() ==> if r.workers[j].id == worker_id {
                    &&& (#[trigger] r1.workers[j]).last_heartbeat == now
                    &&& r1.workers[j].status == WorkerStatus::Healthy
                    &&& WorkerView {
                        last_heartbeat: r.workers[j].last_heartbeat,
                        status: r.workers[j].status,
                        ..r1.workers[j]
                    } == r.workers[j]
                } else {
                    r1.workers[j] == r.workers[j]
                }
        }),
{
    let i = worker_index(r.workers, worker_id);
    assert forall|j: int| 0 <= j < r.workers.len() && r.workers[j].id == worker_id implies j == i by {
        assert(r.workers[i].id == worker_id);
    }
}

/// A worker that has just beaten at `now` is not marked by a health check
/// whose cutoff is at or before `now`: in particular not by one at the same
/// clock reading with a non-negative timeout.
pub proof fn law_fresh_heartbeat_survives_health_check(
    r: RegistryView,
    worker_id: Seq<char>,
    now: i64,
    timeout_secs: int,
)
    requires
        registry_valid(r),
        has_worker(r.workers, worker_id),
        timeout_secs >= 0,
    ensures
        forall|j: int|
            0 <= j < r.workers.len() && r.workers[j].id == worker_id ==> (#[trigger] after_health_check(
                after_heartbeat(r, worker_id, now),
                now - timeout_secs,
            ).workers[j]).status == WorkerStatus::Healthy,
{
    law_heartbeat_refreshes_its_worker(r, worker_id, now);
    law_health_check_marks_exactly_the_stale(after_heartbeat(r, worker_id, now), now - timeout_secs);
}

/// A registration at `now` leaves exactly one row with the worker's id, with
/// the given address, last heartbeat `now`, healthy; a known worker keeps its
/// row's place and its other fields, a new one is the last row with
/// registration time `now`. Rows of other workers and the VMs stay.
pub proof fn law_registration_refreshes_its_worker(
    r: RegistryView,
    worker_id: Seq<char>,
    ip: Seq<char>,
    now: i64,
)
    requires
        registry_valid(r),
        register_worker_error(r, worker_id) is None,
    ensures
        ({
            let r1 = after_register_worker(r, worker_id, ip, now);
            &&& r1.vms == r.vms
            &&& forall|j: int|
                0 <= j < r.workers.len() ==> if r.workers[j].id == worker_id {
                    &&& (#[trigger] r1.workers[j]).ip_address == ip
                    &&& r1.workers[j].last_heartbeat == now
                    &&& r1.workers[j].status == WorkerStatus::Healthy
                    &&& WorkerView {
                        ip_address: r.workers[j].ip_address,
                        last_heartbeat: r.workers[j].last_heartbeat,
                        status: r.workers[j].status,
                        ..r1.workers[j]
                    } == r.workers[j]
                } else {
                    r1.workers[j] == r.workers[j]
                }
            &&& if has_worker(r.workers, worker_id) {
                r1.workers.len() == r.workers.len()
            } else {
                &&& r1.workers.len() == r.workers.len() + 1
                &&& r1.workers.last().id == worker_id
                &&& r1.workers.last().ip_address == ip
                &&& r1.workers.last().registered_at == now
                &&& r1.workers.last().last_heartbeat == now
                &&& r1.workers.last().status == WorkerStatus::Healthy
            }
        }),
{
    if has_worker(r.workers, worker_id) {
        let i = worker_index(r.workers, worker_id);
        assert forall|j: int| 0 <= j < r.workers.len() && r.workers[j].id == worker_id implies j == i by {
            assert(r.workers[i].id == worker_id);
        }
    }
}

/// A worker that has just registered at `now` is not marked by a health
/// check whose cutoff is at or before `now`.
pub proof fn law_fresh_registration_survives_health_check(
    r: RegistryView,
    worker_id: Seq<char>,
    ip: Seq<char>,
    now: i64,
    timeout_secs: int,
)
    requires
        registry_valid(r),
        register_worker_error(r, worker_id) is None,
        timeout_secs >= 0,
    ensures
        ({
            let r2 = after_health_check(after_register_worker(r, worker_id, ip, now), now - timeout_secs);
            forall|j: int|
                0 <= j < r2.workers.len() && (#[trigger] r2.workers[j]).id == worker_id ==> r2.workers[j].status
                    == WorkerStatus::Healthy
        }),
{
    let r1 = after_register_worker(r, worker_id, ip, now);
    lemma_register_worker_valid(r, worker_id, ip, now);
    law_registration_refreshes_its_worker(r, worker_id, ip, now);
    law_health_check_marks_exactly_the_stale(r1, now - timeout_secs);
    let r2 = after_health_check(r1, now - timeout_secs);
    assert forall|j: int| 0 <= j < r2.workers.len() && (#[trigger] r2.workers[j]).id == worker_id implies r2.workers[j].status
        == WorkerStatus::Healthy by {
        assert(r2.workers[j].id == r1.workers[j].id);
        let i = worker_index(r1.workers, worker_id);
        assert(r1.workers[i].id == worker_id);
        assert(j == i);
    }
}

/// A readiness report for a registered worker lands on that worker's row:
/// its capacity and load figures become the reported ones (zeros where the
/// report has none), its version and copy strategy the reported ones, and
/// nothing else of the row changes. Rows of other workers and the VMs stay.
pub proof fn law_capacity_report_lands_on_its_worker(
    r: RegistryView,
    worker_id: Seq<char>,
    rep: ReadyReport,
)
    requires
        registry_valid(r),
    ensures
        ({
            let r1 = after_capacity_report(r, worker_id, rep);
            &&& r1.vms == r.vms
            &&& r1.workers.len() == r.workers.len()
            &&& forall|j: int|
                0 <= j < r.workers.len() ==> if r.workers[j].id == worker_id {
                    let w = #[trigger] r1.workers[j];
                    &&& w.total_vcpus == Some(
                        match rep.capacity {
                            Some(c) => c.total_vcpus as i64,
                            None => 0i64,
                        },
                    )
                    &&& w.total_memory_mb == Some(
                        match rep.capacity {
                            Some(c) => c.total_memory_mb as i64,
                            None => 0i64,
                        },
                    )
                    &&& w.allocatable_memory_mb == Some(
                        match rep.capacity {
                            Some(c) => c.allocatable_memory_mb as i64,
                            None => 0i64,
                        },
                    )
                    &&& w.allocated_vcpus == Some(
                        match rep.vms {
                            Some(u) => u.allocated_vcpus as i64,
                            None => 0i64,
                        },
                    )
                    &&& w.allocated_memory_mb == Some(
                        match rep.vms {
                            Some(u) => u.allocated_memory_mb as i64,
                            None => 0i64,
                        },
                    )
                    &&& w.vm_count == Some(
                        match rep.vms {
                            Some(u) => u.count as i64,
                            None => 0i64,
                        },
                    )
                    &&& w.version == Some(rep.version)
                    &&& w.copy_strategy == rep.copy_strategy
                    &&& w.id == r.workers[j].id
                    &&& w.ip_address == r.workers[j].ip_address
                    &&& w.registered_at == r.workers[j].registered_at
                    &&& w.last_heartbeat == r.workers[j].last_heartbeat
                    &&& w.status == r.workers[j].status
                } else {
                    r1.workers[j] == r.workers[j]
                }
        }),
{
    if has_worker(r.workers, worker_id) {
        let i = worker_index(r.workers, worker_id);
        assert forall|j: int| 0 <= j < r.workers.len() && r.workers[j].id == worker_id implies j == i by {
            assert(r.workers[i].id == worker_id);
        }
    }
}

/// A worker can host a VM exactly when it is healthy, its vCPUs and
/// allocatable memory are known, and it has vCPU room and allocatable memory
/// room for the VM.
pub proof fn law_hosting_needs_allocatable_room(w: WorkerView, vcpus: int, memory_mb: int)
    ensures
        can_host(w, vcpus, memory_mb) <==> {
            &&& w.status == WorkerStatus::Healthy
            &&& w.total_vcpus is Some
            &&& w.allocatable_memory_mb is Some
            &&& vcpu_room(w) >= vcpus
            &&& memory_room(w) >= memory_mb
        },
{
}

/// The best fit has room for the VM, and no worker with room for it leaves
/// less allocatable memory, or as much memory and fewer vCPUs.
pub proof fn law_best_fit_leaves_least_room(ws: Seq<WorkerView>, i: int, vcpus: int, memory_mb: int)
    requires
        is_best_fit(ws, i, vcpus, memory_mb),
    ensures
        ws[i].status == WorkerStatus::Healthy,
        memory_room(ws[i]) >= memory_mb,
        vcpu_room(ws[i]) >= vcpus,
        forall|j: int|
            0 <= j < ws.len() && (#[trigger] ws[j]).status == WorkerStatus::Healthy && ws[j].total_vcpus is Some
                && ws[j].allocatable_memory_mb is Some && vcpu_room(ws[j]) >= vcpus && memory_room(ws[j])
                >= memory_mb ==> memory_room(ws[i]) < memory_room(ws[j]) || (memory_room(ws[i])
                == memory_room(ws[j]) && vcpu_room(ws[i]) <= vcpu_room(ws[j])),
{
    assert forall|j: int|
        0 <= j < ws.len() && (#[trigger] ws[j]).status == WorkerStatus::Healthy && ws[j].total_vcpus is Some
            && ws[j].allocatable_memory_mb is Some && vcpu_room(ws[j]) >= vcpus && memory_room(ws[j])
            >= memory_mb implies memory_room(ws[i]) < memory_room(ws[j]) || (memory_room(ws[i])
        == memory_room(ws[j]) && vcpu_room(ws[i]) <= vcpu_room(ws[j])) by {
        assert(can_host(ws[j], vcpus, memory_mb));
    }
}

} // verus!
