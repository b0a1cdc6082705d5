use coffer::config::ResourceLimits;
use coffer::pool::scheduler::ResourceScheduler;
use coffer::pool::{guest_mac, CidCounter, PoolCommand, PooledVm, WarmPool, WorkerAction};

fn vm(id: &str) -> PooledVm {
    PooledVm {
        vm_id: id.to_string(),
        socket_path: format!("/s/{}", id),
        vsock_path: format!("/v/{}", id),
    }
}

fn warm(id: &str) -> PoolCommand {
    PoolCommand::Warm { template_id: id.to_string() }
}

#[test]
fn the_last_vm_in_is_the_first_out() {
    let mut p = WarmPool::new(4);
    assert!(p.acquire("t").is_none());
    p.add("t", vm("a"));
    p.add("t", vm("b"));
    p.add("u", vm("c"));
    let first = p.acquire("t").unwrap();
    assert_eq!((first.vm_id.as_str(), first.socket_path.as_str(), first.vsock_path.as_str()), ("b", "/s/b", "/v/b"));
    assert_eq!(p.in_use_count(), 1);
    assert_eq!(p.acquire("t").unwrap().vm_id, "a");
    assert!(p.acquire("t").is_none());
    assert_eq!(p.acquire("u").unwrap().vm_id, "c");
    assert_eq!(p.in_use_count(), 3);
}

#[test]
fn a_released_vm_goes_back_to_the_pool() {
    let mut p = WarmPool::new(2);
    p.add("t", vm("a"));
    p.add("t", vm("b"));
    let b = p.acquire("t").unwrap();
    assert_eq!(p.in_use_count(), 1);
    assert!(p.release(b).is_none());
    assert_eq!(p.in_use_count(), 0);
    assert_eq!(p.available_counts(), vec![("t".to_string(), 2)]);
    let again = p.acquire("t").unwrap();
    assert_eq!((again.vm_id.as_str(), again.socket_path.as_str(), again.vsock_path.as_str()), ("b", "/s/b", "/v/b"));
    assert_eq!(p.acquire("t").unwrap().vm_id, "a");
}

#[test]
fn a_vm_that_cannot_wait_is_handed_back() {
    let mut p = WarmPool::new(1);
    p.add("t", vm("a"));
    let a = p.acquire("t").unwrap();
    assert_eq!(p.release(vm("other")).unwrap().vm_id, "other");
    assert_eq!(p.in_use_count(), 1);
    p.add("t", vm("b"));
    assert_eq!(p.release(a).unwrap().vm_id, "a");
    assert_eq!(p.in_use_count(), 0);
    assert_eq!(p.acquire("t").unwrap().vm_id, "b");
    assert!(p.acquire("t").is_none());
}

#[test]
fn a_new_vm_can_join_the_pool_after_its_use() {
    let mut p = WarmPool::new(1);
    p.lend("t", "n");
    assert_eq!(p.in_use_count(), 1);
    assert!(p.release(vm("n")).is_none());
    assert_eq!(p.acquire("t").unwrap().vm_id, "n");
}

#[test]
fn warming_stops_at_the_size() {
    let mut p = WarmPool::new(2);
    for id in ["a", "b"] {
        assert!(matches!(p.handle(warm("t")), WorkerAction::Warm(t) if t == "t"));
        p.add("t", vm(id));
    }
    assert!(matches!(p.handle(warm("t")), WorkerAction::Nothing));
    p.acquire("t");
    assert!(matches!(p.handle(warm("t")), WorkerAction::Warm(_)));
}

#[test]
fn other_commands_leave_the_queues() {
    let mut p = WarmPool::new(1);
    let release = PoolCommand::Release { vm_id: "a".to_string(), vsock_path: "/v/a".to_string() };
    assert!(matches!(p.handle(release), WorkerAction::RemoveFile(f) if f == "/v/a"));
    assert!(matches!(p.handle(PoolCommand::Destroy { vm_id: "a".to_string() }), WorkerAction::Nothing));
}

#[test]
fn waiting_vms_are_counted() {
    let mut p = WarmPool::new(3);
    assert!(p.available_counts().is_empty());
    p.add("t", vm("a"));
    p.add("t", vm("b"));
    p.add("u", vm("c"));
    p.acquire("u");
    let mut counts = p.available_counts();
    counts.sort();
    assert_eq!(counts, vec![("t".to_string(), 2), ("u".to_string(), 0)]);
}

#[test]
fn prewarming_asks_for_the_whole_pool() {
    let p = WarmPool::new(2);
    let names = |v: Vec<PoolCommand>| -> Vec<String> {
        v.into_iter()
            .map(|c| match c {
                PoolCommand::Warm { template_id } => template_id,
                other => panic!("{:?}", other),
            })
            .collect()
    };
    let ids = vec!["t".to_string(), "u".to_string()];
    assert_eq!(names(p.prewarm(&ids)), vec!["t", "t", "u", "u"]);
    assert_eq!(names(p.rebalance(&ids)), vec!["t", "u"]);
}

#[test]
fn identifiers_and_addresses_differ() {
    let mut c = CidCounter::new();
    let cids: Vec<u32> = (0..300).map(|_| c.take()).collect();
    assert_eq!(cids[0], 1024);
    assert_eq!(cids[299], 1323);
    let mut macs: Vec<String> = cids.iter().map(|c| guest_mac(*c)).collect();
    assert_eq!(macs[0], "02:00:00:00:04:00");
    macs.sort();
    macs.dedup();
    assert_eq!(macs.len(), 300);
    assert_eq!(guest_mac(0x00ab_cdef), "02:00:00:ab:cd:ef");
    assert_eq!(guest_mac(u32::MAX), "02:00:00:ff:ff:ff");
}

fn limits() -> ResourceLimits {
    ResourceLimits {
        max_total_instances: 2,
        max_total_memory_mib: 1000,
        max_total_vcpus: 4,
        max_concurrent_creations: 1,
    }
}

#[test]
fn reservations_stay_within_the_limits() {
    let mut s = ResourceScheduler::new(limits());
    assert!(s.reserve(600, 2).is_ok());
    assert_eq!(s.reserve(500, 1).unwrap_err().text(), "limit of memory_mib reached: 600 of 1000");
    assert_eq!(s.reserve(100, 3).unwrap_err().text(), "limit of vcpus reached: 2 of 4");
    assert!(s.reserve(400, 2).is_ok());
    assert_eq!(s.reserve(0, 0).unwrap_err().text(), "limit of instances reached: 2 of 2");
    let u = s.usage();
    assert_eq!((u.instances, u.memory_mib, u.vcpus), (2, 1000, 4));
}

#[test]
fn released_resources_can_be_reserved_again() {
    let mut s = ResourceScheduler::new(limits());
    s.reserve(1000, 4).unwrap();
    assert!(s.reserve_memory(1).is_err());
    s.release(1000, 4);
    let u = s.usage();
    assert_eq!((u.instances, u.memory_mib, u.vcpus), (0, 0, 0));
    assert!(s.reserve_memory(1000).is_ok());
    assert!(s.reserve(1000, 4).is_ok());
    assert!(s.reserve_memory(u64::MAX).is_err());
}

#[test]
fn usage_counts_the_live_reservations() {
    let mut s = ResourceScheduler::new(ResourceLimits {
        max_total_instances: 8,
        max_total_memory_mib: 4096,
        max_total_vcpus: 16,
        max_concurrent_creations: 1,
    });
    let usage = |s: &ResourceScheduler| {
        let u = s.usage();
        (u.instances, u.memory_mib, u.vcpus)
    };
    s.reserve(256, 1).unwrap();
    let before = usage(&s);
    s.reserve(512, 2).unwrap();
    // Overlapping reservations, and calls that reserve nothing.
    s.reserve(100, 3).unwrap();
    s.reserve(200, 4).unwrap();
    assert_eq!(usage(&s), (4, 1068, 10));
    s.release(100, 3);
    assert!(s.reserve(4000, 1).is_err());
    assert!(s.reserve_memory(64).is_ok());
    s.reserve(100, 3).unwrap();
    s.release(200, 4);
    s.release(100, 3);
    s.release(512, 2);
    assert_eq!(usage(&s), before);
    assert!(s.reserve(512, 2).is_ok());
}
