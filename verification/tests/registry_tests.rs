use warlock_gateway::api;
use warlock_gateway::api::vm::CreationReply;
use warlock_gateway::endpoints::{create_vm_url, delete_vm_url, ready_url};
use warlock_gateway::model::RegistryError;
use warlock_gateway::models::{
    CreateVmRequest, CreateVmResponse, Vm, VmRegistration, Worker, WorkerRegistration, WorkerCapacity, WorkerReadyResponse, WorkerStatus,
    WorkerUtilization,
};
use warlock_gateway::placement::PlacementError;
use warlock_gateway::registry::Registry;
use warlock_gateway::text::decimal_string;

fn worker_row(id: &str, ip: &str, status: WorkerStatus, total_vcpus: Option<i64>, alloc_mem: Option<i64>) -> Worker {
    Worker {
        id: id.to_string(),
        ip_address: ip.to_string(),
        registered_at: 10,
        last_heartbeat: 10,
        status,
        total_vcpus,
        total_memory_mb: alloc_mem,
        allocatable_memory_mb: alloc_mem,
        allocated_vcpus: None,
        allocated_memory_mb: None,
        vm_count: None,
        version: None,
        copy_strategy: None,
    }
}

// ------------------------------------------------------------ endpoint scenarios

#[test]
fn test_full_lifecycle() {
    let mut reg = Registry::new();

    // Register worker
    let resp = api::worker::register(
        &mut reg,
        WorkerRegistration { worker_id: "test-worker".to_string(), ip_address: "10.0.0.1".to_string() },
    );
    assert_eq!(resp.unwrap(), 200);

    // Register VM
    let resp = api::vm::register(
        &mut reg,
        VmRegistration { vm_id: "test-vm".to_string(), worker_id: "test-worker".to_string(), vcpus: None, memory_mb: None },
    );
    assert_eq!(resp.unwrap(), 201);

    // Get VM location
    let body = api::vm::get_location(&reg, "test-vm").unwrap();
    assert_eq!(body.vm_id, "test-vm");
    assert_eq!(body.worker_ip, "10.0.0.1");
    assert_eq!(body.port, 2222);
    assert_eq!(body.status, "running");

    // Deregister VM
    assert_eq!(reg.deletion_request("test-vm"), Some("http://10.0.0.1:3000/vm/test-vm".to_string()));
    assert_eq!(api::vm::deregister(&mut reg, "test-vm").unwrap(), 204);

    // Verify VM is gone
    let err = api::vm::get_location(&reg, "test-vm").unwrap_err();
    assert_eq!(err.status, 404);
}

#[test]
fn test_health_endpoint() {
    let reg = Registry::new();
    let body = api::health(&reg);
    assert_eq!(body.status, "ok");
    assert_eq!(body.workers, 0);
    assert_eq!(body.healthy_workers, 0);
    assert_eq!(body.vms, 0);
}

#[test]
fn test_worker_heartbeat() {
    let mut reg = Registry::new();

    // Register worker
    api::worker::register(
        &mut reg,
        WorkerRegistration { worker_id: "test-worker".to_string(), ip_address: "10.0.0.1".to_string() },
    )
    .unwrap();

    // Send heartbeat
    let resp = api::worker::heartbeat(&mut reg, "test-worker").unwrap();
    assert_eq!(resp.status, 200);
    assert_eq!(resp.ready_url, "http://10.0.0.1:3000/internal/ready");

    // Heartbeat for non-existent worker should fail
    let err = api::worker::heartbeat(&mut reg, "non-existent").unwrap_err();
    assert_eq!(err.status, 404);
    assert_eq!(err.message, "Worker not found: Worker not found: non-existent");
}

#[test]
fn test_vm_not_found() {
    let reg = Registry::new();
    let err = api::vm::get_location(&reg, "non-existent-vm").unwrap_err();
    assert_eq!(err.status, 404);
    assert_eq!(err.message, "VM not found");
}

#[test]
fn registry_level_lifecycle() {
    let mut reg = Registry::new();
    assert_eq!(reg.register_worker("test-worker", "10.0.0.1"), Ok(()));
    assert_eq!(reg.register_vm("test-vm", "test-worker", None, None), Ok(()));
    let loc = reg.get_vm_location("test-vm").unwrap();
    assert_eq!((loc.vm_id.as_str(), loc.worker_ip.as_str(), loc.port, loc.status.as_str()), ("test-vm", "10.0.0.1", 2222, "running"));
    assert_eq!(reg.deregister_vm("test-vm"), Ok(true));
    assert!(reg.get_vm_location("test-vm").is_none());
    assert_eq!(reg.heartbeat("test-worker"), Ok("10.0.0.1".to_string()));
    assert_eq!(reg.heartbeat("non-existent"), Err(RegistryError::WorkerNotFound));
}

// ------------------------------------------------------------ workers

#[test]
fn reregistration_keeps_registration_time() {
    let mut reg = Registry::new();
    reg.register_worker_at("w", "10.0.0.1", 100).unwrap();
    reg.register_worker_at("w", "10.0.0.9", 200).unwrap();
    let w = reg.worker("w").unwrap();
    assert_eq!(w.registered_at, 100);
    assert_eq!(w.last_heartbeat, 200);
    assert_eq!(w.ip_address, "10.0.0.9");
    assert_eq!(w.status, WorkerStatus::Healthy);
    assert_eq!(reg.health_status().workers, 1);
}

#[test]
fn registering_twice_is_registering_once() {
    let mut reg = Registry::new();
    reg.register_worker_at("w", "10.0.0.1", 100).unwrap();
    reg.register_worker_at("w", "10.0.0.1", 100).unwrap();
    let h = reg.health_status();
    assert_eq!(h.workers, 1);
    let w = reg.worker("w").unwrap();
    assert_eq!((w.registered_at, w.last_heartbeat), (100, 100));
}

#[test]
fn heartbeat_refreshes_time_and_health() {
    let mut reg = Registry::new();
    reg.register_worker_at("w", "10.0.0.1", 100).unwrap();
    assert_eq!(reg.check_worker_health_at(500, 60), 1);
    assert_eq!(reg.worker("w").unwrap().status, WorkerStatus::Unhealthy);
    assert_eq!(reg.heartbeat_at("w", 510), Ok("10.0.0.1".to_string()));
    let w = reg.worker("w").unwrap();
    assert_eq!(w.status, WorkerStatus::Healthy);
    assert_eq!(w.last_heartbeat, 510);
    assert_eq!(reg.heartbeat_at("ghost", 510), Err(RegistryError::WorkerNotFound));
}

#[test]
fn stale_workers_get_no_traffic_until_they_beat() {
    let mut reg = Registry::new();
    reg.register_worker_at("old", "10.0.0.1", 100).unwrap();
    reg.register_worker_at("new", "10.0.0.2", 200).unwrap();
    reg.register_vm_at("vm-old", "old", None, None, 100).unwrap();
    reg.register_vm_at("vm-new", "new", None, None, 200).unwrap();

    // cutoff 250 - 60 = 190: only "old" is stale
    assert_eq!(reg.check_worker_health_at(250, 60), 1);
    assert!(reg.get_vm_location("vm-old").is_none());
    assert_eq!(reg.get_vm_location("vm-new").unwrap().worker_ip, "10.0.0.2");
    let h = reg.health_status();
    assert_eq!((h.workers, h.healthy_workers, h.vms), (2, 1, 2));

    // a second check at once marks nothing
    assert_eq!(reg.check_worker_health_at(250, 60), 0);

    // the heartbeat restores routing
    reg.heartbeat_at("old", 260).unwrap();
    assert_eq!(reg.get_vm_location("vm-old").unwrap().worker_ip, "10.0.0.1");
}

#[test]
fn heartbeat_exactly_at_cutoff_is_not_stale() {
    let mut reg = Registry::new();
    reg.register_worker_at("w", "10.0.0.1", 190).unwrap();
    assert_eq!(reg.check_worker_health_at(250, 60), 0);
    assert_eq!(reg.worker("w").unwrap().status, WorkerStatus::Healthy);
}

#[test]
fn clocked_health_check_refuses_unrepresentable_cutoff() {
    let mut reg = Registry::new();
    reg.register_worker_at("w", "10.0.0.1", 100).unwrap();
    assert_eq!(reg.check_worker_health(i64::MIN), Err(RegistryError::CutoffOutOfRange));
    assert_eq!(reg.worker("w").unwrap().status, WorkerStatus::Healthy);
    // a cutoff far in the past marks nothing
    assert_eq!(reg.check_worker_health(1_000_000_000_000), Ok(0));
    // a cutoff in the future marks the worker
    assert_eq!(reg.check_worker_health(-1_000_000), Ok(1));
}

#[test]
fn clocked_registration_uses_current_time() {
    let mut reg = Registry::new();
    reg.register_worker("w", "10.0.0.1").unwrap();
    let w = reg.worker("w").unwrap();
    assert!(w.registered_at > 1_600_000_000);
    assert_eq!(w.registered_at, w.last_heartbeat);
}

// ------------------------------------------------------------ VMs

#[test]
fn vm_resources_are_charged_and_given_back() {
    let mut reg = Registry::new();
    reg.register_worker_at("w", "10.0.0.1", 100).unwrap();
    reg.register_vm_at("a", "w", Some(2), Some(512), 101).unwrap();
    reg.register_vm_at("b", "w", Some(1), Some(256), 102).unwrap();
    let w = reg.worker("w").unwrap();
    assert_eq!((w.allocated_vcpus, w.allocated_memory_mb, w.vm_count), (Some(3), Some(768), Some(2)));
    let v = reg.vm("a").unwrap();
    assert_eq!((v.vcpus, v.memory_mb, v.created_at), (Some(2), Some(512), 101));

    assert_eq!(reg.deregister_vm("a"), Ok(true));
    let w = reg.worker("w").unwrap();
    assert_eq!((w.allocated_vcpus, w.allocated_memory_mb, w.vm_count), (Some(1), Some(256), Some(1)));
    assert_eq!(reg.deregister_vm("b"), Ok(true));
    let w = reg.worker("w").unwrap();
    assert_eq!((w.allocated_vcpus, w.allocated_memory_mb, w.vm_count), (Some(0), Some(0), Some(0)));
    assert_eq!(reg.health_status().vms, 0);
}

#[test]
fn vm_without_both_sizes_charges_nothing() {
    let mut reg = Registry::new();
    reg.register_worker_at("w", "10.0.0.1", 100).unwrap();
    reg.register_vm_at("a", "w", Some(2), None, 101).unwrap();
    let w = reg.worker("w").unwrap();
    assert_eq!((w.allocated_vcpus, w.vm_count), (None, None));
    assert_eq!(reg.vm("a").unwrap().vcpus, Some(2));
}

#[test]
fn duplicate_vm_is_refused() {
    let mut reg = Registry::new();
    reg.register_worker_at("w", "10.0.0.1", 100).unwrap();
    reg.register_vm_at("a", "w", Some(1), Some(128), 101).unwrap();
    assert_eq!(
        reg.register_vm_at("a", "w", Some(1), Some(128), 102),
        Err(RegistryError::VmAlreadyRegistered)
    );
    let w = reg.worker("w").unwrap();
    assert_eq!(w.vm_count, Some(1));
    assert_eq!(reg.health_status().vms, 1);
}

#[test]
fn vm_on_unknown_worker_is_stored_but_not_located() {
    let mut reg = Registry::new();
    assert_eq!(reg.register_vm_at("a", "nowhere", Some(1), Some(128), 1), Ok(()));
    assert!(reg.get_vm_location("a").is_none());
    // no worker to ask
    assert_eq!(reg.deletion_request("a"), None);
    // the row still goes
    assert_eq!(reg.deregister_vm("a"), Ok(true));
    assert!(reg.vm("a").is_none());
    assert_eq!(reg.health_status().vms, 0);
    // and the id can be registered again
    assert_eq!(reg.register_vm_at("a", "nowhere", None, None, 2), Ok(()));
}

#[test]
fn deregistering_unknown_vm_does_nothing() {
    let mut reg = Registry::new();
    assert_eq!(reg.deregister_vm("missing"), Ok(false));
    assert_eq!(reg.deletion_request("missing"), None);
}

#[test]
fn counter_overflow_is_refused() {
    let mut w = worker_row("w", "10.0.0.1", WorkerStatus::Healthy, Some(8), Some(1024));
    w.allocated_vcpus = Some(i64::MAX);
    let mut reg = Registry::from_rows(vec![w], vec![]).unwrap();
    assert_eq!(
        reg.register_vm_at("a", "w", Some(1), Some(1), 5),
        Err(RegistryError::CounterOverflow)
    );
    assert!(reg.vm("a").is_none());
}

#[test]
fn release_overflow_is_refused() {
    let mut w = worker_row("w", "10.0.0.1", WorkerStatus::Healthy, Some(8), Some(1024));
    w.allocated_vcpus = Some(i64::MIN);
    let v = Vm { vm_id: "a".to_string(), worker_id: "w".to_string(), created_at: 1, vcpus: Some(1), memory_mb: Some(1) };
    let mut reg = Registry::from_rows(vec![w], vec![v]).unwrap();
    assert_eq!(reg.deregister_vm("a"), Err(RegistryError::CounterOverflow));
    assert!(reg.vm("a").is_some());
}

#[test]
fn location_on_unhealthy_worker_is_hidden() {
    let w = worker_row("w", "10.0.0.1", WorkerStatus::Unhealthy, None, None);
    let v = Vm { vm_id: "a".to_string(), worker_id: "w".to_string(), created_at: 1, vcpus: None, memory_mb: None };
    let reg = Registry::from_rows(vec![w], vec![v]).unwrap();
    assert!(reg.get_vm_location("a").is_none());
}

#[test]
fn from_rows_refuses_duplicate_keys() {
    let a = worker_row("w", "10.0.0.1", WorkerStatus::Healthy, None, None);
    let b = worker_row("w", "10.0.0.2", WorkerStatus::Healthy, None, None);
    assert!(Registry::from_rows(vec![a, b], vec![]).is_none());
    let v1 = Vm { vm_id: "a".to_string(), worker_id: "w".to_string(), created_at: 1, vcpus: None, memory_mb: None };
    let v2 = Vm { vm_id: "a".to_string(), worker_id: "x".to_string(), created_at: 2, vcpus: None, memory_mb: None };
    assert!(Registry::from_rows(vec![], vec![v1, v2]).is_none());
    let c = worker_row("c", "10.0.0.3", WorkerStatus::Healthy, None, None);
    assert!(Registry::from_rows(vec![c], vec![]).is_some());
}

// ------------------------------------------------------------ capacity

#[test]
fn capacity_report_is_stored() {
    let mut reg = Registry::new();
    reg.register_worker_at("w", "10.0.0.1", 100).unwrap();
    let ready = WorkerReadyResponse {
        status: "ready".to_string(),
        version: "1.2.3".to_string(),
        capacity: Some(WorkerCapacity { total_memory_mb: 8192, allocatable_memory_mb: 7000, total_vcpus: 8 }),
        vms: Some(WorkerUtilization { count: 2, allocated_vcpus: 3, allocated_memory_mb: 1024 }),
        copy_strategy: Some("reflink".to_string()),
    };
    reg.update_worker_capacity("w", ready);
    let w = reg.worker("w").unwrap();
    assert_eq!(w.total_vcpus, Some(8));
    assert_eq!(w.total_memory_mb, Some(8192));
    assert_eq!(w.allocatable_memory_mb, Some(7000));
    assert_eq!(w.allocated_vcpus, Some(3));
    assert_eq!(w.allocated_memory_mb, Some(1024));
    assert_eq!(w.vm_count, Some(2));
    assert_eq!(w.version.as_deref(), Some("1.2.3"));
    assert_eq!(w.copy_strategy.as_deref(), Some("reflink"));
}

#[test]
fn missing_capacity_report_counts_as_zero() {
    let mut reg = Registry::new();
    reg.register_worker_at("w", "10.0.0.1", 100).unwrap();
    let ready = WorkerReadyResponse {
        status: "ready".to_string(),
        version: "0.9".to_string(),
        capacity: None,
        vms: None,
        copy_strategy: None,
    };
    reg.update_worker_capacity("w", ready);
    let w = reg.worker("w").unwrap();
    assert_eq!((w.total_vcpus, w.total_memory_mb, w.allocatable_memory_mb), (Some(0), Some(0), Some(0)));
    assert_eq!((w.allocated_vcpus, w.allocated_memory_mb, w.vm_count), (Some(0), Some(0), Some(0)));
    assert_eq!(w.copy_strategy, None);
}

#[test]
fn huge_memory_report_wraps_like_as() {
    let mut reg = Registry::new();
    reg.register_worker_at("w", "10.0.0.1", 100).unwrap();
    let ready = WorkerReadyResponse {
        status: "ready".to_string(),
        version: "x".to_string(),
        capacity: Some(WorkerCapacity { total_memory_mb: u64::MAX, allocatable_memory_mb: 1, total_vcpus: 1 }),
        vms: None,
        copy_strategy: None,
    };
    reg.update_worker_capacity("w", ready);
    assert_eq!(reg.worker("w").unwrap().total_memory_mb, Some(-1));
}

#[test]
fn capacity_report_for_unknown_worker_changes_nothing() {
    let mut reg = Registry::new();
    let ready = WorkerReadyResponse {
        status: "ready".to_string(),
        version: "x".to_string(),
        capacity: None,
        vms: None,
        copy_strategy: None,
    };
    reg.update_worker_capacity("w", ready);
    assert_eq!(reg.health_status().workers, 0);
}

// ------------------------------------------------------------ placement

#[test]
fn best_fit_prefers_least_free_memory_then_vcpus() {
    let mut a = worker_row("a", "10.0.0.1", WorkerStatus::Healthy, Some(4), Some(4096));
    a.allocated_memory_mb = Some(0);
    let b = worker_row("b", "10.0.0.2", WorkerStatus::Healthy, Some(4), Some(1024));
    let c = worker_row("c", "10.0.0.3", WorkerStatus::Healthy, Some(2), Some(1024));
    let d = worker_row("d", "10.0.0.4", WorkerStatus::Unhealthy, Some(1), Some(512));
    let reg = Registry::from_rows(vec![a, b, c, d], vec![]).unwrap();

    // b and c leave 1024 MB free; c leaves fewer vCPUs; d is unhealthy
    assert_eq!(reg.select_worker_for_vm(1, 512).unwrap().id, "c");
    // only a and b have 3 vCPUs; b leaves less memory
    assert_eq!(reg.select_worker_for_vm(3, 512).unwrap().id, "b");
    // only a has 2048 MB
    assert_eq!(reg.select_worker_for_vm(1, 2048).unwrap().id, "a");
    // nobody has 8 vCPUs
    assert!(reg.select_worker_for_vm(8, 128).is_none());
}

#[test]
fn best_fit_tie_goes_to_first_row() {
    let a = worker_row("a", "10.0.0.1", WorkerStatus::Healthy, Some(2), Some(1024));
    let b = worker_row("b", "10.0.0.2", WorkerStatus::Healthy, Some(2), Some(1024));
    let reg = Registry::from_rows(vec![a, b], vec![]).unwrap();
    let w = reg.select_worker_for_vm(1, 128).unwrap();
    assert_eq!(w.id, "a");
    assert_eq!(w.ip_address, "10.0.0.1");
    assert_eq!(w.total_vcpus, Some(2));
}

#[test]
fn workers_without_capacity_are_not_candidates() {
    let mut reg = Registry::new();
    reg.register_worker_at("w", "10.0.0.1", 100).unwrap();
    assert!(reg.select_worker_for_vm(0, 0).is_none());
}

#[test]
fn allocations_reduce_free_capacity() {
    let mut w = worker_row("w", "10.0.0.1", WorkerStatus::Healthy, Some(4), Some(1024));
    w.allocated_vcpus = Some(3);
    w.allocated_memory_mb = Some(512);
    let reg = Registry::from_rows(vec![w], vec![]).unwrap();
    assert!(reg.select_worker_for_vm(1, 512).is_some());
    assert!(reg.select_worker_for_vm(2, 512).is_none());
    assert!(reg.select_worker_for_vm(1, 513).is_none());
}

#[test]
fn creation_plan_fills_in_defaults() {
    let w = worker_row("w", "10.0.0.7", WorkerStatus::Healthy, Some(2), Some(1024));
    let reg = Registry::from_rows(vec![w], vec![]).unwrap();
    let req = CreateVmRequest { vcpus: None, memory_mb: None, ssh_keys: vec!["ssh-ed25519 AAAA".to_string()] };
    let plan = reg.plan_vm_creation(req).unwrap();
    assert_eq!(plan.worker.id, "w");
    assert_eq!(plan.url, "http://10.0.0.7:3000/vm");
    assert_eq!(plan.request.vcpus, Some(1));
    assert_eq!(plan.request.memory_mb, Some(128));
    assert_eq!(plan.request.ssh_keys, vec!["ssh-ed25519 AAAA".to_string()]);
}

#[test]
fn creation_without_room_names_the_sizes() {
    let w = worker_row("w", "10.0.0.7", WorkerStatus::Healthy, Some(2), Some(1024));
    let reg = Registry::from_rows(vec![w], vec![]).unwrap();
    let req = CreateVmRequest { vcpus: Some(4), memory_mb: None, ssh_keys: vec![] };
    assert_eq!(
        reg.plan_vm_creation(req).err(),
        Some(PlacementError::NoCapacity { vcpus: 4, memory_mb: 128 })
    );
}

// ------------------------------------------------------------ misc

#[test]
fn worker_endpoints() {
    assert_eq!(create_vm_url("10.0.0.4"), "http://10.0.0.4:3000/vm");
    assert_eq!(delete_vm_url("10.0.0.4", "abc-123"), "http://10.0.0.4:3000/vm/abc-123");
    assert_eq!(ready_url("10.0.0.4"), "http://10.0.0.4:3000/internal/ready");
}

#[test]
fn status_names() {
    assert_eq!(WorkerStatus::Healthy.to_string(), "healthy");
    assert_eq!(WorkerStatus::Unhealthy.to_string(), "unhealthy");
}

#[test]
fn api_refusals_carry_status_and_message() {
    let mut reg = Registry::new();
    reg.register_worker_at("w", "10.0.0.1", 1).unwrap();
    let req = VmRegistration { vm_id: "a".to_string(), worker_id: "w".to_string(), vcpus: Some(1), memory_mb: Some(64) };
    assert_eq!(api::vm::register(&mut reg, req).unwrap(), 201);
    let again = VmRegistration { vm_id: "a".to_string(), worker_id: "w".to_string(), vcpus: Some(1), memory_mb: Some(64) };
    let err = api::vm::register(&mut reg, again).unwrap_err();
    assert_eq!(err.status, 500);
    assert_eq!(err.message, "Failed to register VM: VM already registered");

    let err = api::vm::create(&reg, CreateVmRequest { vcpus: Some(2), memory_mb: Some(2048), ssh_keys: vec![] }).unwrap_err();
    assert_eq!(err.status, 507);
    assert_eq!(err.message, "No workers available with sufficient capacity (need 2vCPU, 2048MB)");
    let err = api::vm::create(&reg, CreateVmRequest { vcpus: None, memory_mb: None, ssh_keys: vec![] }).unwrap_err();
    assert_eq!(err.message, "No workers available with sufficient capacity (need 1vCPU, 128MB)");

    // deregistering an unknown VM still answers 204
    assert_eq!(api::vm::deregister(&mut reg, "missing").unwrap(), 204);
}

#[test]
fn api_create_returns_placement() {
    let w = worker_row("w", "10.0.0.8", WorkerStatus::Healthy, Some(4), Some(4096));
    let reg = Registry::from_rows(vec![w], vec![]).unwrap();
    let plan = api::vm::create(&reg, CreateVmRequest { vcpus: Some(2), memory_mb: Some(1024), ssh_keys: vec![] }).unwrap();
    assert_eq!(plan.worker.id, "w");
    assert_eq!(plan.url, "http://10.0.0.8:3000/vm");
    assert_eq!((plan.request.vcpus, plan.request.memory_mb), (Some(2), Some(1024)));
}

#[test]
fn decimal_rendering() {
    assert_eq!(decimal_string(0), "0");
    assert_eq!(decimal_string(7), "7");
    assert_eq!(decimal_string(10), "10");
    assert_eq!(decimal_string(4096), "4096");
    assert_eq!(decimal_string(u64::MAX), "18446744073709551615");
}

#[test]
fn health_check_with_non_negative_timeout_succeeds() {
    let mut reg = Registry::new();
    reg.register_worker_at("w", "10.0.0.1", 100).unwrap();
    assert!(reg.check_worker_health(0).is_ok());
    assert!(reg.check_worker_health(60).is_ok());
    assert!(reg.check_worker_health(i64::MAX).is_ok());
}

#[test]
fn utilization_counters_sum_their_vms() {
    let mut reg = Registry::new();
    reg.register_worker_at("w1", "10.0.0.1", 1).unwrap();
    reg.register_worker_at("w2", "10.0.0.2", 1).unwrap();
    reg.register_vm_at("a", "w1", Some(2), Some(256), 2).unwrap();
    reg.register_vm_at("b", "w1", Some(1), Some(128), 3).unwrap();
    reg.register_vm_at("c", "w2", Some(4), Some(1024), 4).unwrap();
    reg.register_vm_at("d", "w2", None, Some(64), 5).unwrap();
    reg.deregister_vm("a").unwrap();
    reg.heartbeat_at("w1", 6).unwrap();
    reg.check_worker_health_at(100, 10);
    let w1 = reg.worker("w1").unwrap();
    assert_eq!((w1.allocated_vcpus, w1.allocated_memory_mb, w1.vm_count), (Some(1), Some(128), Some(1)));
    let w2 = reg.worker("w2").unwrap();
    assert_eq!((w2.allocated_vcpus, w2.allocated_memory_mb, w2.vm_count), (Some(4), Some(1024), Some(1)));
}

fn sample_vm() -> CreateVmResponse {
    CreateVmResponse {
        id: "vm-1".to_string(),
        vcpus: 1,
        memory_mb: 128,
        state: "running".to_string(),
        vmm_version: "1.0".to_string(),
        guest_ip: "172.16.0.2".to_string(),
    }
}

#[test]
fn creation_answer_from_worker_reply() {
    let vm = api::vm::creation_answer(CreationReply::Accepted { vm: Ok(sample_vm()) }).unwrap();
    assert_eq!(vm.id, "vm-1");
    assert_eq!(vm.guest_ip, "172.16.0.2");

    let e = api::vm::creation_answer(CreationReply::Unreachable { error: "connection refused".to_string() }).unwrap_err();
    assert_eq!((e.status, e.message.as_str()), (502, "Failed to contact worker: connection refused"));

    let e = api::vm::creation_answer(CreationReply::Rejected { status: 409, body: Some("exists".to_string()) }).unwrap_err();
    assert_eq!((e.status, e.message.as_str()), (409, "Worker returned error: exists"));

    let e = api::vm::creation_answer(CreationReply::Rejected { status: 503, body: None }).unwrap_err();
    assert_eq!((e.status, e.message.as_str()), (503, "Worker returned error: Unknown error"));

    let e = api::vm::creation_answer(CreationReply::Rejected { status: 42, body: None }).unwrap_err();
    assert_eq!(e.status, 500);

    let e = api::vm::creation_answer(CreationReply::Accepted { vm: Err("missing field `id`".to_string()) }).unwrap_err();
    assert_eq!((e.status, e.message.as_str()), (500, "Invalid worker response: missing field `id`"));
}

#[test]
fn success_statuses() {
    assert!(api::is_success(200));
    assert!(api::is_success(299));
    assert!(!api::is_success(199));
    assert!(!api::is_success(300));
    assert!(!api::is_success(404));
}

#[test]
fn status_text_round_trip() {
    assert_eq!(WorkerStatus::from_text("healthy"), Some(WorkerStatus::Healthy));
    assert_eq!(WorkerStatus::from_text("unhealthy"), Some(WorkerStatus::Unhealthy));
    assert_eq!(WorkerStatus::from_text("Healthy"), None);
    assert_eq!(WorkerStatus::from_text(""), None);
    for st in [WorkerStatus::Healthy, WorkerStatus::Unhealthy] {
        assert_eq!(WorkerStatus::from_text(&st.to_string()), Some(st));
    }
}

#[test]
fn vm_on_existing_healthy_worker_is_located() {
    let w = worker_row("w", "10.0.0.5", WorkerStatus::Healthy, Some(2), Some(1024));
    let mut reg = Registry::from_rows(vec![w], vec![]).unwrap();
    reg.register_vm_at("v", "w", Some(1), Some(128), 7).unwrap();
    let loc = reg.get_vm_location("v").unwrap();
    assert_eq!((loc.worker_ip.as_str(), loc.port, loc.status.as_str()), ("10.0.0.5", 2222, "running"));
}

#[test]
fn clocked_calls_succeed_with_a_working_clock() {
    let mut reg = Registry::new();
    assert_eq!(reg.register_worker("w", "10.0.0.1"), Ok(()));
    assert!(reg.worker("w").unwrap().last_heartbeat >= 0);
    assert!(reg.heartbeat("w").is_ok());
    assert_eq!(reg.register_vm("v", "w", None, None), Ok(()));
    assert!(reg.vm("v").unwrap().created_at >= 0);
}
