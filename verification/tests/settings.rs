use coffer::config::{JailerConfig, NetworkConfig, OutboundPolicy, PoolConfig, ResourceLimits, RuntimeConfig, VmmConfig};

#[test]
fn paths_lie_below_the_home_directory() {
    let c = RuntimeConfig::for_home("/home/u");
    assert_eq!(c.template_dir, "/home/u/.coffer/templates");
    assert_eq!(c.socket_dir, "/home/u/.coffer/run");
    assert_eq!(c.firecracker_path, "/home/u/.coffer/kernel/firecracker");
    assert_eq!(c.jailer_path, Some("/home/u/.coffer/kernel/jailer".to_string()));
    assert_eq!(c.kernel_path, "/home/u/.coffer/kernel/vmlinux");
    assert_eq!(c.agent_bin, "/home/u/.coffer/bin/coffer-agent");
    assert!(c.jailer.is_none());
    assert_eq!(RuntimeConfig::for_home("/").socket_dir, "/.coffer/run");
}

#[test]
fn without_a_home_a_temporary_one_is_taken() {
    let c = RuntimeConfig::for_user(None);
    assert_eq!(c.template_dir, "/tmp/.coffer/templates");
    assert_eq!(RuntimeConfig::for_user(Some(b"/h".to_vec())).template_dir, "/h/.coffer/templates");
    let umlaut = RuntimeConfig::for_user(Some("/h\u{e4}".as_bytes().to_vec()));
    assert_eq!(umlaut.template_dir, "/h\u{e4}/.coffer/templates");
    // What is no text in a path is replaced.
    assert_eq!(RuntimeConfig::for_user(Some(b"/h\xff".to_vec())).template_dir, "/h\u{fffd}/.coffer/templates");
}

#[test]
fn the_default_belongs_to_some_home() {
    let c = RuntimeConfig::default();
    let home = c.template_dir.strip_suffix("/.coffer/templates").unwrap_or("");
    assert!(c.template_dir.ends_with(".coffer/templates"));
    assert_eq!(c.socket_dir, RuntimeConfig::for_home(if home.is_empty() { "/" } else { home }).socket_dir);
}

#[test]
fn default_numbers() {
    let p = PoolConfig::default();
    assert_eq!((p.warm_pool_size, p.max_sandboxes, p.cold_start_timeout_ms, p.recycle_interval_secs), (4, 512, 150, 300));
    let l = ResourceLimits::default();
    assert_eq!(
        (l.max_total_instances, l.max_total_memory_mib, l.max_total_vcpus, l.max_concurrent_creations),
        (512, 65536, 256, 8)
    );
    let v = VmmConfig::default();
    assert_eq!((v.default_vcpus, v.default_memory_mib), (1, 256));
    assert!(!v.smt && v.track_dirty_pages && !v.huge_pages);
    let j = JailerConfig::default();
    assert_eq!((j.chroot_base_dir.as_str(), j.uid, j.gid), ("/srv/jailer", 1000, 1000));
    assert!(j.netns.is_none() && !j.daemonize && j.new_pid_ns);
    let n = NetworkConfig::default();
    assert_eq!((n.bridge_name.as_str(), n.subnet.as_str(), n.tap_prefix.as_str()), ("br-coffer", "192.168.100.0/24", "tap"));
    assert_eq!((n.gateway_ip.as_str(), n.mtu, n.bandwidth_mbps), ("192.168.100.1", 1500, 0));
    assert!(n.enable_snat && n.allow_list.is_empty());
    assert_eq!(n.default_policy, OutboundPolicy::Allow);
    assert_eq!(n.deny_list[0], "10.0.0.0/8");
    assert_eq!(n.deny_list.len(), 5);
}
