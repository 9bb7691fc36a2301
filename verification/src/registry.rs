//! The registry: the `workers` and `vms` tables and the operations the
//! gateway performs on them, each proved against the model in `model.rs`.
use vstd::prelude::*;
use vstd::string::*;
use crate::clock::unix_now;
use crate::endpoints::{delete_vm_url, worker_url};
use crate::model::{
    after_capacity_report, after_deregister_vm, after_health_check, after_heartbeat,
    after_register_vm, can_host, count_healthy, count_stale, deregister_vm_error,
    fits_tighter_or_equal, free_memory_mb, free_vcpus, has_deletion_target, is_best_fit, is_stale,
    mark_stale, marked, ready_report, some_worker_can_host, after_register_worker, coalesce, fits_i64, has_vm,
    heartbeat_error, register_vm_error, vm_location, has_worker, register_worker_error, registry_valid, vm_ids_unique,
    vm_index, worker_ids_unique, worker_index, clock_failed, RegistryError, RegistryView,
};
use crate::models::{
    capacity_view, HealthStatus, Vm, VmLocation, VmView, Worker,
    WorkerCapacity, WorkerReadyResponse, WorkerStatus, WorkerUtilization, WorkerView,
    WorkerWithCapacity,
};

verus! {

/// The largest number of rows a table may hold: counts are reported as `i64`.
pub const MAX_ROWS: u64 = 9223372036854775807;

/// The tables of workers and VMs, rows in insertion order.
struct Tables {
    workers: Vec<Worker>,
    vms: Vec<Vm>,
}

impl View for Tables {
    type V = RegistryView;

    closed spec fn view(&self) -> RegistryView {
        RegistryView {
            workers: self.workers@.map_values(|w: Worker| w@),
            vms: self.vms@.map_values(|v: Vm| v@),
        }
    }
}

/// A row index found by its key is the one `worker_index` names.
pub proof fn lemma_worker_index(ws: Seq<WorkerView>, id: Seq<char>, i: int)
    requires
        worker_ids_unique(ws),
        0 <= i < ws.len(),
        ws[i].id == id,
    ensures
        has_worker(ws, id),
        worker_index(ws, id) == i,
{
    assert(has_worker(ws, id));
    let k = worker_index(ws, id);
    assert(ws[k].id == id);
}

/// A row index found by its key is the one `vm_index` names.
pub proof fn lemma_vm_index(vs: Seq<VmView>, id: Seq<char>, i: int)
    requires
        vm_ids_unique(vs),
        0 <= i < vs.len(),
        vs[i].vm_id == id,
    ensures
        has_vm(vs, id),
        vm_index(vs, id) == i,
{
    assert(has_vm(vs, id));
    let k = vm_index(vs, id);
    assert(vs[k].vm_id == id);
}

/// Rows that keep their ids keep them unique.
pub proof fn lemma_worker_ids_kept(a: Seq<WorkerView>, b: Seq<WorkerView>)
    requires
        worker_ids_unique(a),
        a.len() == b.len(),
        forall|i: int| 0 <= i < a.len() ==> #[trigger] b[i].id == a[i].id,
    ensures
        worker_ids_unique(b),
{
    assert forall|x: int, y: int|
        0 <= x < b.len() && 0 <= y < b.len() && x != y implies #[trigger] b[x].id
        != #[trigger] b[y].id by {
        assert(b[x].id == a[x].id);
        assert(b[y].id == a[y].id);
    }
}

/// A worker with a new id can be appended.
pub proof fn lemma_worker_ids_push(ws: Seq<WorkerView>, w: WorkerView)
    requires
        worker_ids_unique(ws),
        !has_worker(ws, w.id),
    ensures
        worker_ids_unique(ws.push(w)),
{
    let n = ws.len() as int;
    let ws1 = ws.push(w);
    assert forall|x: int, y: int|
        0 <= x < ws1.len() && 0 <= y < ws1.len() && x != y implies #[trigger] ws1[x].id
        != #[trigger] ws1[y].id by {
        if x == n {
            assert(ws1[y] == ws[y]);
        } else if y == n {
            assert(ws1[x] == ws[x]);
        } else {
            assert(ws1[x] == ws[x] && ws1[y] == ws[y]);
        }
    }
}

/// A VM with a new id can be appended.
pub proof fn lemma_vm_ids_push(vs: Seq<VmView>, v: VmView)
    requires
        vm_ids_unique(vs),
        !has_vm(vs, v.vm_id),
    ensures
        vm_ids_unique(vs.push(v)),
{
    let n = vs.len() as int;
    let vs1 = vs.push(v);
    assert forall|x: int, y: int|
        0 <= x < vs1.len() && 0 <= y < vs1.len() && x != y implies #[trigger] vs1[x].vm_id
        != #[trigger] vs1[y].vm_id by {
        if x == n {
            assert(vs1[y] == vs[y]);
        } else if y == n {
            assert(vs1[x] == vs[x]);
        } else {
            assert(vs1[x] == vs[x] && vs1[y] == vs[y]);
        }
    }
}

/// Removing a VM keeps the others' ids unique.
pub proof fn lemma_vm_ids_remove(vs: Seq<VmView>, k: int)
    requires
        vm_ids_unique(vs),
        0 <= k < vs.len(),
    ensures
        vm_ids_unique(vs.remove(k)),
{
    let vs1 = vs.remove(k);
    assert forall|x: int, y: int|
        0 <= x < vs1.len() && 0 <= y < vs1.len() && x != y implies #[trigger] vs1[x].vm_id
        != #[trigger] vs1[y].vm_id by {
        let x0 = if x < k { x } else { x + 1 };
        let y0 = if y < k { y } else { y + 1 };
        assert(vs1[x] == vs[x0]);
        assert(vs1[y] == vs[y0]);
    }
}

/// What a worker registration at time `now` leaves behind.
pub open spec fn register_worker_outcome(
    pre: RegistryView,
    post: RegistryView,
    res: Result<(), RegistryError>,
    worker_id: Seq<char>,
    ip_address: Seq<char>,
    now: i64,
) -> bool {
    &&& res is Ok <==> register_worker_error(pre, worker_id) is None
    &&& res is Ok ==> post == after_register_worker(pre, worker_id, ip_address, now)
    &&& res matches Err(e) ==> register_worker_error(pre, worker_id) == Some(e) && post == pre
}

impl Tables {
    /// Empty tables.
    fn empty() -> (r: Tables)
        ensures
            r@.workers == Seq::<WorkerView>::empty(),
            r@.vms == Seq::<VmView>::empty(),
            registry_valid(r@),
    {
        let r = Tables { workers: Vec::new(), vms: Vec::new() };
        assert(r@.workers =~= Seq::<WorkerView>::empty());
        assert(r@.vms =~= Seq::<VmView>::empty());
        r
    }

    /// The row of the worker with the given id, if there is one.
    fn worker_position(&self, id: &String) -> (res: Option<usize>)
        requires
            registry_valid(self@),
        ensures
            match res {
                Some(i) => i < self@.workers.len() && has_worker(self@.workers, id@) && i
                    == worker_index(self@.workers, id@),
                None => !has_worker(self@.workers, id@),
            },
    {
        let mut i: usize = 0;
        while i < self.workers.len()
            invariant
                i <= self.workers.len(),
                registry_valid(self@),
                forall|j: int| 0 <= j < i ==> self@.workers[j].id != id@,
            decreases self.workers.len() - i,
        {
            if self.workers[i].id == *id {
                proof {
                    lemma_worker_index(self@.workers, id@, i as int);
                }
                return Some(i);
            }
            i = i + 1;
        }
        None
    }

    /// The row of the VM with the given id, if there is one.
    fn vm_position(&self, id: &String) -> (res: Option<usize>)
        requires
            registry_valid(self@),
        ensures
            match res {
                Some(i) => i < self@.vms.len() && has_vm(self@.vms, id@) && i == vm_index(
                    self@.vms,
                    id@,
                ),
                None => !has_vm(self@.vms, id@),
            },
    {
        let mut i: usize = 0;
        while i < self.vms.len()
            invariant
                i <= self.vms.len(),
                registry_valid(self@),
                forall|j: int| 0 <= j < i ==> self@.vms[j].vm_id != id@,
            decreases self.vms.len() - i,
        {
            if self.vms[i].vm_id == *id {
                proof {
                    lemma_vm_index(self@.vms, id@, i as int);
                }
                return Some(i);
            }
            i = i + 1;
        }
        None
    }

    /// Registers a worker at time `now`, or, when its id is known, updates its
    /// address and heartbeat and marks it healthy.
    fn register_worker_at(&mut self, worker_id: &str, ip_address: &str, now: i64) -> (res:
        Result<(), RegistryError>)
        requires
            registry_valid(old(self)@),
        ensures
            registry_valid(final(self)@),
            register_worker_outcome(old(self)@, final(self)@, res, worker_id@, ip_address@, now),
    {
        let key = String::from_str(worker_id);
        match self.worker_position(&key) {
            Some(i) => {
                let ghost pre = self@;
                self.workers[i].ip_address = String::from_str(ip_address);
                self.workers[i].last_heartbeat = now;
                self.workers[i].status = WorkerStatus::Healthy;
                proof {
                    let post = after_register_worker(pre, worker_id@, ip_address@, now);
                    assert(self@.workers =~= post.workers);
                    assert(self@.vms =~= post.vms);
                    assert(registry_valid(self@));
                }
                Ok(())
            },
            None => {
                if self.workers.len() as u64 >= MAX_ROWS {
                    return Err(RegistryError::StorageFull);
                }
                let ghost pre = self@;
                let w = Worker {
                    id: key,
                    ip_address: String::from_str(ip_address),
                    registered_at: now,
                    last_heartbeat: now,
                    status: WorkerStatus::Healthy,
                    total_vcpus: None,
                    total_memory_mb: None,
                    allocatable_memory_mb: None,
                    allocated_vcpus: None,
                    allocated_memory_mb: None,
                    vm_count: None,
                    version: None,
                    copy_strategy: None,
                };
                self.workers.push(w);
                proof {
                    let post = after_register_worker(pre, worker_id@, ip_address@, now);
                    assert(self@.workers =~= post.workers);
                    assert(self@.vms =~= post.vms);
                }
                Ok(())
            },
        }
    }

    /// Records a heartbeat of a known worker at time `now` and marks it
    /// healthy; gives back the worker's address, where its capacity is read.
    fn heartbeat_at(&mut self, worker_id: &str, now: i64) -> (res: Result<String, RegistryError>)
        requires
            registry_valid(old(self)@),
        ensures
            registry_valid(final(self)@),
            heartbeat_outcome(old(self)@, final(self)@, res, worker_id@, now),
    {
        let key = String::from_str(worker_id);
        match self.worker_position(&key) {
            Some(i) => {
                let ghost pre = self@;
                self.workers[i].last_heartbeat = now;
                self.workers[i].status = WorkerStatus::Healthy;
                let ip = self.workers[i].ip_address.clone();
                proof {
                    let post = after_heartbeat(pre, worker_id@, now);
                    assert(self@.workers =~= post.workers);
                    assert(self@.vms =~= post.vms);
                }
                Ok(ip)
            },
            None => Err(RegistryError::WorkerNotFound),
        }
    }

    /// Registers a VM on a worker at time `now`. When both sizes are given,
    /// the worker's allocated vCPUs, memory and VM count grow accordingly.
    fn register_vm_at(
        &mut self,
        vm_id: &str,
        worker_id: &str,
        vcpus: Option<u8>,
        memory_mb: Option<u32>,
        now: i64,
    ) -> (res: Result<(), RegistryError>)
        requires
            registry_valid(old(self)@),
        ensures
            registry_valid(final(self)@),
            register_vm_outcome(old(self)@, final(self)@, res, vm_id@, worker_id@, vcpus, memory_mb, now),
    {
        let ghost pre = self@;
        let vkey = String::from_str(vm_id);
        if self.vm_position(&vkey).is_some() {
            return Err(RegistryError::VmAlreadyRegistered);
        }
        if self.vms.len() as u64 >= MAX_ROWS {
            return Err(RegistryError::StorageFull);
        }
        let wkey = String::from_str(worker_id);
        let pos = self.worker_position(&wkey);
        match (vcpus, memory_mb, pos) {
            (Some(v), Some(m), Some(i)) => {
                let w = &self.workers[i];
                let av = coalesce_exec(w.allocated_vcpus) + v as i128;
                let am = coalesce_exec(w.allocated_memory_mb) + m as i128;
                let ac = coalesce_exec(w.vm_count) + 1;
                if !(fits_exec(av) && fits_exec(am) && fits_exec(ac)) {
                    return Err(RegistryError::CounterOverflow);
                }
                self.workers[i].allocated_vcpus = Some(av as i64);
                self.workers[i].allocated_memory_mb = Some(am as i64);
                self.workers[i].vm_count = Some(ac as i64);
            },
            _ => {},
        }
        let row = Vm {
            vm_id: vkey,
            worker_id: wkey,
            created_at: now,
            vcpus: match vcpus {
                Some(v) => Some(v as i64),
                None => None,
            },
            memory_mb: match memory_mb {
                Some(m) => Some(m as i64),
                None => None,
            },
        };
        self.vms.push(row);
        proof {
            let post = after_register_vm(pre, vm_id@, worker_id@, vcpus, memory_mb, now);
            assert(self@.workers =~= post.workers);
            assert(self@.vms =~= post.vms);
            lemma_vm_ids_push(pre.vms, self@.vms[self@.vms.len() - 1]);
        }
        Ok(())
    }

    /// Where a VM can be reached: given while the VM and its worker are
    /// registered and the worker is healthy.
    fn get_vm_location(&self, vm_id: &str) -> (res: Option<VmLocation>)
        requires
            registry_valid(self@),
        ensures
            match res {
                Some(loc) => vm_location(self@, vm_id@) == Some(loc@),
                None => vm_location(self@, vm_id@) is None,
            },
    {
        let vkey = String::from_str(vm_id);
        match self.vm_position(&vkey) {
            None => None,
            Some(k) => {
                let wkey = self.vms[k].worker_id.clone();
                match self.worker_position(&wkey) {
                    None => None,
                    Some(i) => {
                        if self.workers[i].status == WorkerStatus::Healthy {
                            let status = String::from_str("running");
                            proof {
                                reveal_strlit("running");
                            }
                            Some(
                                VmLocation {
                                    vm_id: self.vms[k].vm_id.clone(),
                                    worker_ip: self.workers[i].ip_address.clone(),
                                    port: 2222,
                                    status: status,
                                },
                            )
                        } else {
                            None
                        }
                    },
                }
            },
        }
    }

    /// The address of the worker call that deletes the VM on its host: given
    /// when the VM and its worker are both registered.
    fn deletion_request(&self, vm_id: &str) -> (res: Option<String>)
        requires
            registry_valid(self@),
        ensures
            res is Some <==> has_deletion_target(self@, vm_id@),
            res matches Some(url) ==> url@ == worker_url(
                self@.workers[worker_index(self@.workers, self@.vms[vm_index(self@.vms, vm_id@)].worker_id)].ip_address,
                "/vm/"@ + vm_id@,
            ),
    {
        let vkey = String::from_str(vm_id);
        match self.vm_position(&vkey) {
            None => None,
            Some(k) => {
                let wkey = self.vms[k].worker_id.clone();
                match self.worker_position(&wkey) {
                    None => None,
                    Some(i) => Some(delete_vm_url(self.workers[i].ip_address.as_str(), vm_id)),
                }
            },
        }
    }

    /// Removes a VM; when its worker is registered and both sizes of the VM
    /// are known, the worker's vCPUs, memory and VM count shrink by them. The
    /// result tells whether a VM was removed; an unknown VM leaves the
    /// registry as it was.
    fn deregister_vm(&mut self, vm_id: &str) -> (res: Result<bool, RegistryError>)
        requires
            registry_valid(old(self)@),
        ensures
            registry_valid(final(self)@),
            res is Ok <==> deregister_vm_error(old(self)@, vm_id@) is None,
            res matches Ok(removed) ==> removed == has_vm(old(self)@.vms, vm_id@)
                && final(self)@ == after_deregister_vm(old(self)@, vm_id@),
            res matches Err(e) ==> deregister_vm_error(old(self)@, vm_id@) == Some(e) && final(self)@
                == old(self)@,
    {
        let ghost pre = self@;
        let vkey = String::from_str(vm_id);
        let k = match self.vm_position(&vkey) {
            None => return Ok(false),
            Some(k) => k,
        };
        let wkey = self.vms[k].worker_id.clone();
        match (self.worker_position(&wkey), self.vms[k].vcpus, self.vms[k].memory_mb) {
            (Some(i), Some(v), Some(m)) => {
                let w = &self.workers[i];
                let av = coalesce_exec(w.allocated_vcpus) - v as i128;
                let am = coalesce_exec(w.allocated_memory_mb) - m as i128;
                let ac = coalesce_exec(w.vm_count) - 1;
                if !(fits_exec(av) && fits_exec(am) && fits_exec(ac)) {
                    return Err(RegistryError::CounterOverflow);
                }
                self.workers[i].allocated_vcpus = Some(av as i64);
                self.workers[i].allocated_memory_mb = Some(am as i64);
                self.workers[i].vm_count = Some(ac as i64);
            },
            _ => {},
        }
        let ghost mid = self@;
        self.vms.remove(k);
        proof {
            let post = after_deregister_vm(pre, vm_id@);
            assert(self@.workers =~= post.workers);
            assert(self@.vms =~= post.vms);
            lemma_vm_ids_remove(pre.vms, k as int);
        }
        Ok(true)
    }

    /// Marks every healthy worker whose last heartbeat is older than
    /// `cutoff` as unhealthy, and returns how many were marked.
    fn mark_stale_workers(&mut self, cutoff: i64) -> (count: u64)
        requires
            registry_valid(old(self)@),
        ensures
            registry_valid(final(self)@),
            final(self)@ == after_health_check(old(self)@, cutoff as int),
            count == count_stale(old(self)@.workers, cutoff as int),
    {
        let ghost pre = self@;
        let mut count: u64 = 0;
        let mut i: usize = 0;
        while i < self.workers.len()
            invariant
                i <= self.workers.len(),
                self.workers.len() == pre.workers.len(),
                self@.vms == pre.vms,
                registry_valid(pre),
                forall|j: int| 0 <= j < i ==> #[trigger] self@.workers[j] == marked(pre.workers[j], cutoff as int),
                forall|j: int| i <= j < pre.workers.len() ==> #[trigger] self@.workers[j] == pre.workers[j],
                count == count_stale(pre.workers.take(i as int), cutoff as int),
            decreases self.workers.len() - i,
        {
            proof {
                lemma_count_stale_step(pre.workers, cutoff as int, i as int);
                lemma_count_stale_bound(pre.workers.take(i as int), cutoff as int);
                assert(self.workers@[i as int]@ == self@.workers[i as int]);
                assert(self@.workers[i as int] == pre.workers[i as int]);
            }
            let ghost before = self@;
            if self.workers[i].status == WorkerStatus::Healthy && self.workers[i].last_heartbeat < cutoff {
                self.workers[i].status = WorkerStatus::Unhealthy;
                count = count + 1;
                proof {
                    assert(self@.workers =~= before.workers.update(
                        i as int,
                        marked(pre.workers[i as int], cutoff as int),
                    ));
                }
            }
            assert(self@.workers[i as int] == marked(pre.workers[i as int], cutoff as int));
            i = i + 1;
        }
        proof {
            assert(pre.workers.take(pre.workers.len() as int) =~= pre.workers);
            assert(self@.workers =~= mark_stale(pre.workers, cutoff as int));
            lemma_worker_ids_kept(pre.workers, self@.workers);
        }
        count
    }

    /// Marks the workers whose last heartbeat is more than `timeout_secs`
    /// before `now` as unhealthy; returns how many were marked.
    fn check_worker_health_at(&mut self, now: i64, timeout_secs: i64) -> (count: u64)
        requires
            registry_valid(old(self)@),
            fits_i64(now - timeout_secs),
        ensures
            registry_valid(final(self)@),
            final(self)@ == after_health_check(old(self)@, now - timeout_secs),
            count == count_stale(old(self)@.workers, now - timeout_secs),
    {
        self.mark_stale_workers(now - timeout_secs)
    }

    /// The health summary: number of workers, of healthy workers, and of VMs.
    fn health_status(&self) -> (h: HealthStatus)
        requires
            registry_valid(self@),
        ensures
            h.status@ == "ok"@,
            h.workers == self@.workers.len(),
            h.healthy_workers == count_healthy(self@.workers),
            h.vms == self@.vms.len(),
            0 <= h.healthy_workers <= h.workers,
    {
        let ghost ws = self@.workers;
        let mut healthy: i64 = 0;
        let mut i: usize = 0;
        while i < self.workers.len()
            invariant
                i <= self.workers.len(),
                ws == self@.workers,
                ws.len() <= i64::MAX,
                healthy == count_healthy(ws.take(i as int)),
            decreases self.workers.len() - i,
        {
            proof {
                lemma_count_healthy_step(ws, i as int);
                lemma_count_healthy_bound(ws.take(i as int));
            }
            if self.workers[i].status == WorkerStatus::Healthy {
                healthy = healthy + 1;
            }
            i = i + 1;
        }
        proof {
            assert(ws.take(ws.len() as int) =~= ws);
            lemma_count_healthy_bound(ws);
        }
        HealthStatus {
            status: String::from_str("ok"),
            workers: self.workers.len() as i64,
            healthy_workers: healthy,
            vms: self.vms.len() as i64,
        }
    }

    /// Stores a worker's readiness report: its capacity and utilization
    /// (zeros where the report has none), its version and copy strategy.
    /// An unknown worker leaves the registry as it was.
    fn update_worker_capacity(&mut self, worker_id: &str, ready: WorkerReadyResponse)
        requires
            registry_valid(old(self)@),
        ensures
            registry_valid(final(self)@),
            final(self)@ == after_capacity_report(old(self)@, worker_id@, ready_report(ready)),
    {
        let ghost pre = self@;
        let ghost rep = ready_report(ready);
        let key = String::from_str(worker_id);
        let cap = match ready.capacity {
            Some(c) => c,
            None => WorkerCapacity { total_memory_mb: 0, allocatable_memory_mb: 0, total_vcpus: 0 },
        };
        let util = match ready.vms {
            Some(u) => u,
            None => WorkerUtilization { count: 0, allocated_vcpus: 0, allocated_memory_mb: 0 },
        };
        if let Some(i) = self.worker_position(&key) {
            self.workers[i].total_vcpus = Some(cap.total_vcpus as i64);
            self.workers[i].total_memory_mb = Some(cap.total_memory_mb as i64);
            self.workers[i].allocatable_memory_mb = Some(cap.allocatable_memory_mb as i64);
            self.workers[i].allocated_vcpus = Some(util.allocated_vcpus as i64);
            self.workers[i].allocated_memory_mb = Some(util.allocated_memory_mb as i64);
            self.workers[i].vm_count = Some(util.count as i64);
            self.workers[i].version = Some(ready.version);
            self.workers[i].copy_strategy = ready.copy_strategy;
            proof {
                let post = after_capacity_report(pre, worker_id@, rep);
                assert(self@.workers =~= post.workers);
                assert(self@.vms =~= post.vms);
            }
        }
    }

    /// The free capacity of row `i`: memory, then vCPUs.
    fn free_of(&self, i: usize) -> (r: (i128, i128))
        requires
            i < self@.workers.len(),
        ensures
            r.0 == free_memory_mb(self@.workers[i as int]),
            r.1 == free_vcpus(self@.workers[i as int]),
    {
        let w = &self.workers[i];
        (
            coalesce_exec(w.allocatable_memory_mb) - coalesce_exec(w.allocated_memory_mb),
            coalesce_exec(w.total_vcpus) - coalesce_exec(w.allocated_vcpus),
        )
    }

    /// Best-fit placement: among the healthy workers with known capacity and
    /// room for `vcpus` and `memory_mb`, the one left with the least free
    /// memory, then the fewest free vCPUs; the first such row on a tie.
    fn select_worker_for_vm(&self, vcpus: u8, memory_mb: u32) -> (res: Option<WorkerWithCapacity>)
        requires
            registry_valid(self@),
        ensures
            res is None <==> !some_worker_can_host(self@.workers, vcpus as int, memory_mb as int),
            res matches Some(w) ==> exists|i: int|
                is_best_fit(self@.workers, i, vcpus as int, memory_mb as int) && w@ == capacity_view(
                    #[trigger] self@.workers[i],
                ),
    {
        let ghost ws = self@.workers;
        let ghost need_v = vcpus as int;
        let ghost need_m = memory_mb as int;
        let mut best: Option<usize> = None;
        let mut best_free: (i128, i128) = (0, 0);
        let mut i: usize = 0;
        while i < self.workers.len()
            invariant
                i <= self.workers.len(),
                ws == self@.workers,
                need_v == vcpus as int,
                need_m == memory_mb as int,
                match best {
                    None => forall|j: int| 0 <= j < i ==> !can_host(#[trigger] ws[j], need_v, need_m),
                    Some(b) => {
                        &&& b < i
                        &&& can_host(ws[b as int], need_v, need_m)
                        &&& best_free.0 == free_memory_mb(ws[b as int])
                        &&& best_free.1 == free_vcpus(ws[b as int])
                        &&& forall|j: int|
                            0 <= j < i && can_host(#[trigger] ws[j], need_v, need_m)
                                ==> fits_tighter_or_equal(ws[b as int], ws[j])
                        &&& forall|j: int|
                            0 <= j < b && can_host(#[trigger] ws[j], need_v, need_m)
                                ==> !fits_tighter_or_equal(ws[j], ws[b as int])
                    },
                },
            decreases self.workers.len() - i,
        {
            let w = &self.workers[i];
            assert(w@ == ws[i as int]);
            if w.status == WorkerStatus::Healthy && w.total_vcpus.is_some()
                && w.allocatable_memory_mb.is_some() {
                let free = self.free_of(i);
                if free.1 >= vcpus as i128 && free.0 >= memory_mb as i128 {
                    let better = match best {
                        None => true,
                        Some(_) => free.0 < best_free.0 || (free.0 == best_free.0 && free.1
                            < best_free.1),
                    };
                    if better {
                        best = Some(i);
                        best_free = free;
                    }
                }
            }
            i = i + 1;
        }
        match best {
            None => None,
            Some(b) => {
                let w = &self.workers[b];
                proof {
                    assert(is_best_fit(ws, b as int, need_v, need_m));
                }
                Some(
                    WorkerWithCapacity {
                        id: w.id.clone(),
                        ip_address: w.ip_address.clone(),
                        status: w.status,
                        total_vcpus: w.total_vcpus,
                        allocatable_memory_mb: w.allocatable_memory_mb,
                        allocated_vcpus: w.allocated_vcpus,
                        allocated_memory_mb: w.allocated_memory_mb,
                        vm_count: w.vm_count,
                    },
                )
            },
        }
    }





    /// A registry holding the given tables, when their keys are unique and
    /// their sizes fit an `i64` count.
    fn from_rows(workers: Vec<Worker>, vms: Vec<Vm>) -> (res: Option<Tables>)
        ensures
            res is Some <==> registry_valid(
                RegistryView {
                    workers: workers@.map_values(|w: Worker| w@),
                    vms: vms@.map_values(|v: Vm| v@),
                },
            ),
            res matches Some(r) ==> r@.workers == workers@.map_values(|w: Worker| w@) && r@.vms
                == vms@.map_values(|v: Vm| v@),
    {
        let ghost target = RegistryView {
            workers: workers@.map_values(|w: Worker| w@),
            vms: vms@.map_values(|v: Vm| v@),
        };
        if workers.len() as u64 > MAX_ROWS || vms.len() as u64 > MAX_ROWS {
            return None;
        }
        if !worker_ids_distinct(&workers) || !vm_ids_distinct(&vms) {
            return None;
        }
        let r = Tables { workers, vms };
        assert(r@.workers =~= target.workers);
        assert(r@.vms =~= target.vms);
        Some(r)
    }

    /// All worker rows, in insertion order.
    fn workers(&self) -> (res: &Vec<Worker>)
        ensures
            res@.map_values(|w: Worker| w@) == self@.workers,
    {
        &self.workers
    }

    /// All VM rows, in insertion order.
    fn vms(&self) -> (res: &Vec<Vm>)
        ensures
            res@.map_values(|v: Vm| v@) == self@.vms,
    {
        &self.vms
    }

    /// The stored row of a worker.
    fn worker(&self, worker_id: &str) -> (res: Option<&Worker>)
        requires
            registry_valid(self@),
        ensures
            res is Some <==> has_worker(self@.workers, worker_id@),
            res matches Some(w) ==> w@ == self@.workers[worker_index(self@.workers, worker_id@)],
    {
        let key = String::from_str(worker_id);
        match self.worker_position(&key) {
            Some(i) => Some(&self.workers[i]),
            None => None,
        }
    }

    /// The stored row of a VM.
    fn vm(&self, vm_id: &str) -> (res: Option<&Vm>)
        requires
            registry_valid(self@),
        ensures
            res is Some <==> has_vm(self@.vms, vm_id@),
            res matches Some(v) ==> v@ == self@.vms[vm_index(self@.vms, vm_id@)],
    {
        let key = String::from_str(vm_id);
        match self.vm_position(&key) {
            Some(i) => Some(&self.vms[i]),
            None => None,
        }
    }
}

/// The registry: the tables of workers and VMs, rows in insertion order.
/// Worker ids and VM ids are unique, and each table has fewer rows than an
/// `i64` can count, at all times.
pub struct Registry {
    tables: Tables,
    /// What the registry read from the clock last: the time used by the
    /// latest call that reads the clock, or nothing when the clock gave none.
    reading: Option<i64>,
}

impl View for Registry {
    type V = RegistryView;

    closed spec fn view(&self) -> RegistryView {
        self.tables@
    }
}

impl Registry {
    #[verifier::type_invariant]
    spec fn well_formed(self) -> bool {
        registry_valid(self.tables@)
    }

    /// The time the latest clock-reading call used, read from the clock
    /// during that call; nothing when the clock gave none (or was never read).
    pub closed spec fn last_reading(&self) -> Option<i64> {
        self.reading
    }

    /// The time the latest clock-reading call read from the clock.
    pub fn last_clock_reading(&self) -> (r: Option<i64>)
        ensures
            r == self.last_reading(),
    {
        self.reading
    }

    /// Reads the clock and records the reading.
    fn read_clock(&mut self) -> (r: Option<i64>)
        ensures
            final(self)@ == old(self)@,
            final(self).last_reading() == r,
            r matches Some(t) ==> t >= 0,
    {
        proof {
            use_type_invariant(&*self);
        }
        let r = unix_now();
        self.reading = r;
        r
    }

    /// An empty registry.
    pub fn new() -> (r: Registry)
        ensures
            r@.workers == Seq::<WorkerView>::empty(),
            r@.vms == Seq::<VmView>::empty(),
            registry_valid(r@),
            r.last_reading() is None,
    {
        Registry { tables: Tables::empty(), reading: None }
    }

    /// Registers a worker at time `now`, or, when its id is known, updates its
    /// address and heartbeat and marks it healthy.
    pub fn register_worker_at(&mut self, worker_id: &str, ip_address: &str, now: i64) -> (res:
        Result<(), RegistryError>)
        ensures
            final(self).last_reading() == old(self).last_reading(),
            registry_valid(final(self)@),
            register_worker_outcome(old(self)@, final(self)@, res, worker_id@, ip_address@, now),
    {
        proof {
            use_type_invariant(&*self);
        }
        let mut t = Tables::empty();
        std::mem::swap(&mut t, &mut self.tables);
        let res = t.register_worker_at(worker_id, ip_address, now);
        self.tables = t;
        res
    }

    /// Records a heartbeat of a known worker at time `now` and marks it
    /// healthy; gives back the worker's address, where its capacity is read.
    pub fn heartbeat_at(&mut self, worker_id: &str, now: i64) -> (res: Result<String, RegistryError>)
        ensures
            final(self).last_reading() == old(self).last_reading(),
            registry_valid(final(self)@),
            heartbeat_outcome(old(self)@, final(self)@, res, worker_id@, now),
    {
        proof {
            use_type_invariant(&*self);
        }
        let mut t = Tables::empty();
        std::mem::swap(&mut t, &mut self.tables);
        let res = t.heartbeat_at(worker_id, now);
        self.tables = t;
        res
    }

    /// Registers a VM on a worker at time `now`. When both sizes are given,
    /// the worker's allocated vCPUs, memory and VM count grow accordingly.
    pub fn register_vm_at(
        &mut self,
        vm_id: &str,
        worker_id: &str,
        vcpus: Option<u8>,
        memory_mb: Option<u32>,
        now: i64,
    ) -> (res: Result<(), RegistryError>)
        ensures
            final(self).last_reading() == old(self).last_reading(),
            registry_valid(final(self)@),
            register_vm_outcome(old(self)@, final(self)@, res, vm_id@, worker_id@, vcpus, memory_mb, now),
    {
        proof {
            use_type_invariant(&*self);
        }
        let mut t = Tables::empty();
        std::mem::swap(&mut t, &mut self.tables);
        let res = t.register_vm_at(vm_id, worker_id, vcpus, memory_mb, now);
        self.tables = t;
        res
    }

    /// Where a VM can be reached: given while the VM and its worker are
    /// registered and the worker is healthy.
    pub fn get_vm_location(&self, vm_id: &str) -> (res: Option<VmLocation>)
        ensures
            match res {
                Some(loc) => vm_location(self@, vm_id@) == Some(loc@),
                None => vm_location(self@, vm_id@) is None,
            },
    {
        proof {
            use_type_invariant(self);
        }
        self.tables.get_vm_location(vm_id)
    }

    /// The address of the worker call that deletes the VM on its host: given
    /// when the VM and its worker are both registered.
    pub fn deletion_request(&self, vm_id: &str) -> (res: Option<String>)
        ensures
            res is Some <==> has_deletion_target(self@, vm_id@),
            res matches Some(url) ==> url@ == worker_url(
                self@.workers[worker_index(self@.workers, self@.vms[vm_index(self@.vms, vm_id@)].worker_id)].ip_address,
                "/vm/"@ + vm_id@,
            ),
    {
        proof {
            use_type_invariant(self);
        }
        self.tables.deletion_request(vm_id)
    }

    /// Removes a VM; when its worker is registered and both sizes of the VM
    /// are known, the worker's vCPUs, memory and VM count shrink by them. The
    /// result tells whether a VM was removed; an unknown VM leaves the
    /// registry as it was.
    pub fn deregister_vm(&mut self, vm_id: &str) -> (res: Result<bool, RegistryError>)
        ensures
            registry_valid(final(self)@),
            res is Ok <==> deregister_vm_error(old(self)@, vm_id@) is None,
            res matches Ok(removed) ==> removed == has_vm(old(self)@.vms, vm_id@)
                && final(self)@ == after_deregister_vm(old(self)@, vm_id@),
            res matches Err(e) ==> deregister_vm_error(old(self)@, vm_id@) == Some(e) && final(self)@
                == old(self)@,
    {
        proof {
            use_type_invariant(&*self);
        }
        let mut t = Tables::empty();
        std::mem::swap(&mut t, &mut self.tables);
        let res = t.deregister_vm(vm_id);
        self.tables = t;
        res
    }

    /// Marks every healthy worker whose last heartbeat is older than
    /// `cutoff` as unhealthy, and returns how many were marked.
    pub fn mark_stale_workers(&mut self, cutoff: i64) -> (count: u64)
        ensures
            final(self).last_reading() == old(self).last_reading(),
            registry_valid(final(self)@),
            final(self)@ == after_health_check(old(self)@, cutoff as int),
            count == count_stale(old(self)@.workers, cutoff as int),
    {
        proof {
            use_type_invariant(&*self);
        }
        let mut t = Tables::empty();
        std::mem::swap(&mut t, &mut self.tables);
        let res = t.mark_stale_workers(cutoff);
        self.tables = t;
        res
    }

    /// Marks the workers whose last heartbeat is more than `timeout_secs`
    /// before `now` as unhealthy; returns how many were marked.
    pub fn check_worker_health_at(&mut self, now: i64, timeout_secs: i64) -> (count: u64)
        requires
            fits_i64(now - timeout_secs),
        ensures
            registry_valid(final(self)@),
            final(self)@ == after_health_check(old(self)@, now - timeout_secs),
            count == count_stale(old(self)@.workers, now - timeout_secs),
    {
        proof {
            use_type_invariant(&*self);
        }
        let mut t = Tables::empty();
        std::mem::swap(&mut t, &mut self.tables);
        let res = t.check_worker_health_at(now, timeout_secs);
        self.tables = t;
        res
    }

    /// The health summary: number of workers, of healthy workers, and of VMs.
    pub fn health_status(&self) -> (h: HealthStatus)
        ensures
            h.status@ == "ok"@,
            h.workers == self@.workers.len(),
            h.healthy_workers == count_healthy(self@.workers),
            h.vms == self@.vms.len(),
            0 <= h.healthy_workers <= h.workers,
    {
        proof {
            use_type_invariant(self);
        }
        self.tables.health_status()
    }

    /// Stores a worker's readiness report: its capacity and utilization
    /// (zeros where the report has none), its version and copy strategy.
    /// An unknown worker leaves the registry as it was.
    pub fn update_worker_capacity(&mut self, worker_id: &str, ready: WorkerReadyResponse)
        ensures
            registry_valid(final(self)@),
            final(self)@ == after_capacity_report(old(self)@, worker_id@, ready_report(ready)),
    {
        proof {
            use_type_invariant(&*self);
        }
        let mut t = Tables::empty();
        std::mem::swap(&mut t, &mut self.tables);
        let res = t.update_worker_capacity(worker_id, ready);
        self.tables = t;
        res
    }

    /// Best-fit placement: among the healthy workers with known capacity and
    /// room for `vcpus` and `memory_mb`, the one left with the least free
    /// memory, then the fewest free vCPUs; the first such row on a tie.
    pub fn select_worker_for_vm(&self, vcpus: u8, memory_mb: u32) -> (res: Option<WorkerWithCapacity>)
        ensures
            res is None <==> !some_worker_can_host(self@.workers, vcpus as int, memory_mb as int),
            res matches Some(w) ==> exists|i: int|
                is_best_fit(self@.workers, i, vcpus as int, memory_mb as int) && w@ == capacity_view(
                    #[trigger] self@.workers[i],
                ),
    {
        proof {
            use_type_invariant(self);
        }
        assert(self@ == self.tables@);
        self.tables.select_worker_for_vm(vcpus, memory_mb)
    }

    /// Registers a worker now, or refreshes it where its id is known; see
    /// `register_worker_at`. The time is read from the clock; without one the
    /// call is refused and nothing changes.
    pub fn register_worker(&mut self, worker_id: &str, ip_address: &str)
        -> (res: Result<(), RegistryError>)
        ensures
            match final(self).last_reading() {
                Some(now) => now >= 0 && register_worker_outcome(
                    old(self)@,
                    final(self)@,
                    res,
                    worker_id@,
                    ip_address@,
                    now,
                ),
                None => clock_failed(old(self)@, final(self)@, res),
            },
            registry_valid(final(self)@),
            clock_failed(old(self)@, final(self)@, res) || exists|now: i64|
                now >= 0 && register_worker_outcome(
                    old(self)@,
                    final(self)@,
                    res,
                    worker_id@,
                    ip_address@,
                    now,
                ),
    {
        proof {
            use_type_invariant(&*self);
        }
        match self.read_clock() {
            Some(now) => self.register_worker_at(worker_id, ip_address, now),
            None => Err(RegistryError::ClockUnavailable),
        }
    }

    /// Records a heartbeat now; see `heartbeat_at`. The time is read from the
    /// clock; without one the call is refused and nothing changes.
    pub fn heartbeat(&mut self, worker_id: &str) -> (res: Result<String, RegistryError>)
        ensures
            match final(self).last_reading() {
                Some(now) => now >= 0 && heartbeat_outcome(old(self)@, final(self)@, res, worker_id@, now),
                None => clock_failed(old(self)@, final(self)@, res),
            },
            registry_valid(final(self)@),
            clock_failed(old(self)@, final(self)@, res) || exists|now: i64|
                now >= 0 && heartbeat_outcome(old(self)@, final(self)@, res, worker_id@, now),
    {
        proof {
            use_type_invariant(&*self);
        }
        match self.read_clock() {
            Some(now) => self.heartbeat_at(worker_id, now),
            None => Err(RegistryError::ClockUnavailable),
        }
    }

    /// Registers a VM now; see `register_vm_at`. The time is read from the
    /// clock; without one the call is refused and nothing changes.
    pub fn register_vm(
        &mut self,
        vm_id: &str,
        worker_id: &str,
        vcpus: Option<u8>,
        memory_mb: Option<u32>,
    ) -> (res: Result<(), RegistryError>)
        ensures
            match final(self).last_reading() {
                Some(now) => now >= 0 && register_vm_outcome(
                    old(self)@,
                    final(self)@,
                    res,
                    vm_id@,
                    worker_id@,
                    vcpus,
                    memory_mb,
                    now,
                ),
                None => clock_failed(old(self)@, final(self)@, res),
            },
            registry_valid(final(self)@),
            clock_failed(old(self)@, final(self)@, res) || exists|now: i64|
                now >= 0 && register_vm_outcome(
                    old(self)@,
                    final(self)@,
                    res,
                    vm_id@,
                    worker_id@,
                    vcpus,
                    memory_mb,
                    now,
                ),
    {
        proof {
            use_type_invariant(&*self);
        }
        match self.read_clock() {
            Some(now) => self.register_vm_at(vm_id, worker_id, vcpus, memory_mb, now),
            None => Err(RegistryError::ClockUnavailable),
        }
    }

    /// Marks the workers whose last heartbeat is more than `timeout_secs`
    /// old as unhealthy; the time is read from the clock. Refused, with the
    /// registry unchanged, when the clock gives no time or now minus the
    /// timeout leaves the range of `i64`; only the first can happen for a
    /// non-negative timeout.
    pub fn check_worker_health(&mut self, timeout_secs: i64) -> (res: Result<u64, RegistryError>)
        ensures
            match final(self).last_reading() {
                Some(now) => now >= 0 && health_check_outcome(
                    old(self)@,
                    final(self)@,
                    res,
                    now,
                    timeout_secs,
                ),
                None => clock_failed(old(self)@, final(self)@, res),
            },
            registry_valid(final(self)@),
            timeout_secs >= 0 && res is Err ==> clock_failed(old(self)@, final(self)@, res),
            clock_failed(old(self)@, final(self)@, res) || exists|now: i64|
                now >= 0 && health_check_outcome(old(self)@, final(self)@, res, now, timeout_secs),
    {
        proof {
            use_type_invariant(&*self);
        }
        let ghost pre = self@;
        let now = match self.read_clock() {
            Some(now) => now,
            None => return Err(RegistryError::ClockUnavailable),
        };
        let res = match now.checked_sub(timeout_secs) {
            None => Err(RegistryError::CutoffOutOfRange),
            Some(cutoff) => Ok(self.mark_stale_workers(cutoff)),
        };
        assert(health_check_outcome(pre, self@, res, now, timeout_secs));
        res
    }

    /// A registry holding the given tables, when their keys are unique and
    /// their sizes fit an `i64` count.
    pub fn from_rows(workers: Vec<Worker>, vms: Vec<Vm>) -> (res: Option<Registry>)
        ensures
            res is Some <==> registry_valid(
                RegistryView {
                    workers: workers@.map_values(|w: Worker| w@),
                    vms: vms@.map_values(|v: Vm| v@),
                },
            ),
            res matches Some(r) ==> r@.workers == workers@.map_values(|w: Worker| w@) && r@.vms
                == vms@.map_values(|v: Vm| v@),
    {
        match Tables::from_rows(workers, vms) {
            Some(t) => Some(Registry { tables: t, reading: None }),
            None => None,
        }
    }

    /// All worker rows, in insertion order.
    pub fn workers(&self) -> (res: &Vec<Worker>)
        ensures
            res@.map_values(|w: Worker| w@) == self@.workers,
    {
        proof {
            use_type_invariant(self);
        }
        self.tables.workers()
    }

    /// All VM rows, in insertion order.
    pub fn vms(&self) -> (res: &Vec<Vm>)
        ensures
            res@.map_values(|v: Vm| v@) == self@.vms,
    {
        proof {
            use_type_invariant(self);
        }
        self.tables.vms()
    }

    /// The stored row of a worker.
    pub fn worker(&self, worker_id: &str) -> (res: Option<&Worker>)
        ensures
            res is Some <==> has_worker(self@.workers, worker_id@),
            res matches Some(w) ==> w@ == self@.workers[worker_index(self@.workers, worker_id@)],
    {
        proof {
            use_type_invariant(self);
        }
        self.tables.worker(worker_id)
    }

    /// The stored row of a VM.
    pub fn vm(&self, vm_id: &str) -> (res: Option<&Vm>)
        ensures
            res is Some <==> has_vm(self@.vms, vm_id@),
            res matches Some(v) ==> v@ == self@.vms[vm_index(self@.vms, vm_id@)],
    {
        proof {
            use_type_invariant(self);
        }
        self.tables.vm(vm_id)
    }
}

/// One more row counts the stale workers of the longer prefix.
pub proof fn lemma_count_stale_step(ws: Seq<WorkerView>, cutoff: int, i: int)
    requires
        0 <= i < ws.len(),
    ensures
        count_stale(ws.take(i + 1), cutoff) == count_stale(ws.take(i), cutoff) + if is_stale(
            ws[i],
            cutoff,
        ) {
            1nat
        } else {
            0nat
        },
{
    assert(ws.take(i + 1).drop_last() =~= ws.take(i));
}

/// No more stale workers than workers.
pub proof fn lemma_count_stale_bound(ws: Seq<WorkerView>, cutoff: int)
    ensures
        count_stale(ws, cutoff) <= ws.len(),
    decreases ws.len(),
{
    if ws.len() > 0 {
        lemma_count_stale_bound(ws.drop_last(), cutoff);
    }
}

/// One more row counts the healthy workers of the longer prefix.
pub proof fn lemma_count_healthy_step(ws: Seq<WorkerView>, i: int)
    requires
        0 <= i < ws.len(),
    ensures
        count_healthy(ws.take(i + 1)) == count_healthy(ws.take(i)) + if ws[i].status
            == WorkerStatus::Healthy {
            1nat
        } else {
            0nat
        },
{
    assert(ws.take(i + 1).drop_last() =~= ws.take(i));
}

/// No more healthy workers than workers.
pub proof fn lemma_count_healthy_bound(ws: Seq<WorkerView>)
    ensures
        count_healthy(ws) <= ws.len(),
    decreases ws.len(),
{
    if ws.len() > 0 {
        lemma_count_healthy_bound(ws.drop_last());
    }

}

/// Whether no two workers share an id.
fn worker_ids_distinct(ws: &Vec<Worker>) -> (r: bool)
    ensures
        r == worker_ids_unique(ws@.map_values(|w: Worker| w@)),
{
    let ghost v = ws@.map_values(|w: Worker| w@);
    let mut i: usize = 0;
    while i < ws.len()
        invariant
            i <= ws.len(),
            v == ws@.map_values(|w: Worker| w@),
            forall|a: int, b: int|
                0 <= a < i && 0 <= b < i && a != b ==> #[trigger] v[a].id != #[trigger] v[b].id,
        decreases ws.len() - i,
    {
        let mut j: usize = 0;
        while j < i
            invariant
                j <= i < ws.len(),
                v == ws@.map_values(|w: Worker| w@),
                forall|b: int| 0 <= b < j ==> v[i as int].id != #[trigger] v[b].id,
            decreases i - j,
        {
            if ws[i].id == ws[j].id {
                assert(v[i as int].id == v[j as int].id);
                return false;
            }
            j = j + 1;
        }
        assert forall|a: int, b: int|
            0 <= a < i + 1 && 0 <= b < i + 1 && a != b implies #[trigger] v[a].id
            != #[trigger] v[b].id by {
            if a == i {
                assert(v[i as int].id != v[b].id);
            } else if b == i {
                assert(v[i as int].id != v[a].id);
            }
        }
        i = i + 1;
    }
    true
}

/// Whether no two VMs share an id.
fn vm_ids_distinct(vs: &Vec<Vm>) -> (r: bool)
    ensures
        r == vm_ids_unique(vs@.map_values(|v: Vm| v@)),
{
    let ghost v = vs@.map_values(|x: Vm| x@);
    let mut i: usize = 0;
    while i < vs.len()
        invariant
            i <= vs.len(),
            v == vs@.map_values(|x: Vm| x@),
            forall|a: int, b: int|
                0 <= a < i && 0 <= b < i && a != b ==> #[trigger] v[a].vm_id != #[trigger] v[b].vm_id,
        decreases vs.len() - i,
    {
        let mut j: usize = 0;
        while j < i
            invariant
                j <= i < vs.len(),
                v == vs@.map_values(|x: Vm| x@),
                forall|b: int| 0 <= b < j ==> v[i as int].vm_id != #[trigger] v[b].vm_id,
            decreases i - j,
        {
            if vs[i].vm_id == vs[j].vm_id {
                assert(v[i as int].vm_id == v[j as int].vm_id);
                return false;
            }
            j = j + 1;
        }
        assert forall|a: int, b: int|
            0 <= a < i + 1 && 0 <= b < i + 1 && a != b implies #[trigger] v[a].vm_id
            != #[trigger] v[b].vm_id by {
            if a == i {
                assert(v[i as int].vm_id != v[b].vm_id);
            } else if b == i {
                assert(v[i as int].vm_id != v[a].vm_id);
            }
        }
        i = i + 1;
    }
    true
}

/// What a health check at time `now` leaves behind.
pub open spec fn health_check_outcome(
    pre: RegistryView,
    post: RegistryView,
    res: Result<u64, RegistryError>,
    now: i64,
    timeout_secs: i64,
) -> bool {
    &&& res is Ok <==> fits_i64(now - timeout_secs)
    &&& res matches Ok(n) ==> post == after_health_check(pre, now - timeout_secs) && n
        == count_stale(pre.workers, now - timeout_secs)
    &&& res matches Err(e) ==> e == RegistryError::CutoffOutOfRange && post == pre
}

/// `x` as a mathematical count, a missing one counting as zero.
fn coalesce_exec(o: Option<i64>) -> (r: i128)
    ensures
        r == coalesce(o),
{
    match o {
        Some(x) => x as i128,
        None => 0,
    }
}

fn fits_exec(x: i128) -> (r: bool)
    ensures
        r == fits_i64(x as int),
{
    i64::MIN as i128 <= x && x <= i64::MAX as i128
}

/// What a heartbeat at time `now` leaves behind.
pub open spec fn heartbeat_outcome(
    pre: RegistryView,
    post: RegistryView,
    res: Result<String, RegistryError>,
    worker_id: Seq<char>,
    now: i64,
) -> bool {
    &&& res is Ok <==> heartbeat_error(pre, worker_id) is None
    &&& res matches Ok(ip) ==> post == after_heartbeat(pre, worker_id, now) && ip@
        == pre.workers[worker_index(pre.workers, worker_id)].ip_address
    &&& res matches Err(e) ==> heartbeat_error(pre, worker_id) == Some(e) && post == pre
}

/// What a VM registration at time `now` leaves behind.
pub open spec fn register_vm_outcome(
    pre: RegistryView,
    post: RegistryView,
    res: Result<(), RegistryError>,
    vm_id: Seq<char>,
    worker_id: Seq<char>,
    vcpus: Option<u8>,
    memory_mb: Option<u32>,
    now: i64,
) -> bool {
    &&& res is Ok <==> register_vm_error(pre, vm_id, worker_id, vcpus, memory_mb) is None
    &&& res is Ok ==> post == after_register_vm(pre, vm_id, worker_id, vcpus, memory_mb, now)
    &&& res matches Err(e) ==> register_vm_error(pre, vm_id, worker_id, vcpus, memory_mb) == Some(e)
        && post == pre
}

} // verus!
