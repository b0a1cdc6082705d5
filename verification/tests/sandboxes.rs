use coffer::config::{JailerConfig, RuntimeConfig};
use coffer::firecracker::ApiBody;
use coffer::pool::PooledVm;
use coffer::proto::{AgentRequest, AgentResponse, ErrorCode, ResponseBody};
use coffer::runtime::{
    cold_plan, configure_calls, pooled_vm, spawn_vm_process, start_calls, warm_one, warm_plan, Acquisition, GiveUp,
    Runtime, Sandbox,
};
use coffer::template::Template;

fn template(id: &str) -> Template {
    Template {
        id: id.to_string(),
        name: id.to_string(),
        kernel_path: "/k".to_string(),
        rootfs_path: "/r".to_string(),
        snapshot_state_path: "/s".to_string(),
        snapshot_mem_path: "/m".to_string(),
        kernel_args: "args".to_string(),
        vcpus: 2,
        memory_mib: 512,
        metadata: Vec::new(),
    }
}

fn runtime() -> Runtime {
    let mut r = Runtime::new(RuntimeConfig::for_home("/h"));
    r.templates.register(template("t"));
    r
}

#[test]
fn a_plain_process_is_firecracker_itself() {
    let p = spawn_vm_process(&RuntimeConfig::for_home("/h"), "vm", "vm.sock", "vm.log").unwrap();
    assert!(p.make_dirs.is_empty());
    assert_eq!(p.program, "/h/.coffer/kernel/firecracker");
    assert_eq!(p.args.join(" "), "--api-sock /h/.coffer/run/vm.sock --log-path /h/.coffer/run/vm.log --level Warn");
    assert_eq!(p.host_socket_path, "/h/.coffer/run/vm.sock");
}

#[test]
fn a_jailed_process_runs_under_the_jailer() {
    let mut c = RuntimeConfig::for_home("/h");
    c.jailer = Some(JailerConfig {
        chroot_base_dir: "/srv/jailer".to_string(),
        uid: 123,
        gid: 456,
        netns: Some("/ns".to_string()),
        daemonize: true,
        new_pid_ns: true,
    });
    let p = spawn_vm_process(&c, "vm", "vm.sock", "vm.log").unwrap();
    assert_eq!(p.make_dirs, vec!["/srv/jailer/vm/root".to_string(), "/srv/jailer/vm/root/run".to_string()]);
    assert_eq!(p.program, "/h/.coffer/kernel/jailer");
    assert_eq!(
        p.args.join(" "),
        "--id vm --uid 123 --gid 456 --chroot-base-dir /srv/jailer --exec-file /h/.coffer/kernel/firecracker \
         --netns /ns --daemonize --new-pid-ns -- --api-sock /run/vm.sock --log-path /run/vm.log --level Warn"
    );
    // The host finds the socket where the jailed process opens it.
    assert_eq!(p.host_socket_path, "/srv/jailer/vm/root/run/vm.sock");
    c.jailer_path = None;
    assert_eq!(
        spawn_vm_process(&c, "vm", "vm.sock", "vm.log").unwrap_err().text(),
        "config error: jailer_path not set but jailer config present"
    );
}

#[test]
fn a_vm_is_configured_in_order() {
    let calls = configure_calls(&template("t"), "tap0", 1024, "/v");
    let paths: Vec<&str> = calls.iter().map(|c| c.path).collect();
    assert_eq!(paths, vec!["/machine-config", "/drives/rootfs", "/network-interfaces/eth0", "/vsock"]);
    assert!(matches!(&calls[2].body, ApiBody::NetworkInterface(n) if n.guest_mac == "02:00:00:00:04:00"));
}

#[test]
fn a_vm_starts_from_a_whole_snapshot_only() {
    let t = template("t");
    let c = start_calls(&t, true, true, true);
    assert_eq!(c.len(), 1);
    assert!(matches!(&c[0].body, ApiBody::LoadSnapshot(l) if l.snapshot_path == "/s" && l.resume_vm));
    for (mem, state) in [(true, false), (false, true), (false, false)] {
        let c = start_calls(&t, mem, state, true);
        assert_eq!(c.len(), 2);
        assert!(matches!(&c[0].body, ApiBody::Kernel(k) if k.kernel_image_path == "/k" && k.boot_args == "args"));
        assert!(matches!(&c[1].body, ApiBody::Action(a) if a == "InstanceStart"));
    }
}

#[test]
fn warm_vms_are_paused_after_launch() {
    let r = runtime();
    let vm = warm_one(&r.config, r.templates(), "t").unwrap();
    assert_eq!(vm.vm_id.len(), "coffer-pool-".len() + 8);
    assert!(vm.vm_id.starts_with("coffer-pool-"));
    assert_eq!(vm.vsock_path, format!("/h/.coffer/run/vsock/{}.sock", vm.vm_id));
    let plan = warm_plan(&r.config, &vm, "tap0", 1024, false, false).unwrap();
    assert_eq!(plan.socket_timeout_ms, 2000);
    assert_eq!(plan.calls.len(), 6);
    assert_eq!(plan.agent_timeout_ms, Some(30000));
    assert!(matches!(&plan.pause.as_ref().unwrap().body, ApiBody::State(s) if s == "Paused"));
    let plan = warm_plan(&r.config, &vm, "tap0", 1024, true, true).unwrap();
    assert_eq!(plan.calls.len(), 5);
    assert_eq!(plan.agent_timeout_ms, None);
    let id = vm.vm_id.clone();
    let pooled = pooled_vm(vm, &plan);
    assert_eq!(pooled.vm_id, id);
    assert_eq!(pooled.socket_path, format!("/h/.coffer/run/{}.sock", id));
    assert_eq!(warm_one(&r.config, &r.templates, "x").unwrap_err().text(), "template not found: x");
}

#[test]
fn a_vm_starts_last_and_reads_its_root() {
    let r = runtime();
    let vm = warm_one(&r.config, r.templates(), "t").unwrap();
    for snapshot in [false, true] {
        let plan = cold_plan(&r.config, &vm, "tap0", 1024, snapshot, snapshot).unwrap();
        let last = plan.calls.len() - 1;
        for (i, call) in plan.calls.iter().enumerate() {
            let starts = match &call.body {
                ApiBody::LoadSnapshot(_) => true,
                ApiBody::Action(a) => a == "InstanceStart",
                ApiBody::Drive(d) => {
                    assert!(d.is_read_only);
                    assert_eq!(d.path_on_host, "/r");
                    false
                }
                _ => false,
            };
            assert_eq!(starts, i == last);
        }
    }
}

#[test]
fn a_warm_vm_is_taken_before_a_new_one() {
    let mut r = runtime();
    r.pool.add(
        "t",
        PooledVm { vm_id: "w".to_string(), socket_path: "/s/w".to_string(), vsock_path: "/v/w".to_string() },
    );
    match r.acquire("t").unwrap() {
        Acquisition::Warm { vm, resume, agent_timeout_ms } => {
            assert_eq!(vm.vm_id, "w");
            assert!(matches!(resume.body, ApiBody::State(s) if s == "Resumed"));
            assert_eq!(agent_timeout_ms, 5000);
        }
        other => panic!("{:?}", other),
    }
    match r.acquire("t").unwrap() {
        Acquisition::Cold(vm) => {
            assert!(vm.vm_id.starts_with("coffer-"));
            assert_eq!(vm.socket_name, format!("{}.sock", vm.vm_id));
            assert_eq!(vm.log_name, format!("{}.log", vm.vm_id));
            let cid = r.next_cid();
            assert_eq!(cid, 1024);
            let plan = cold_plan(&r.config, &vm, "tap0", cid, false, false).unwrap();
            assert_eq!(plan.agent_timeout_ms, Some(5000));
            assert!(plan.pause.is_none());
        }
        other => panic!("{:?}", other),
    }
    assert_eq!(r.acquire("x").unwrap_err().text(), "template not found: x");
    assert_eq!(r.next_cid(), 1025);
}

fn sandbox(pooled: bool) -> Sandbox {
    Sandbox {
        vm_id: "vm".to_string(),
        socket_path: "/s".to_string(),
        vsock_path: "/v".to_string(),
        pooled,
    }
}

#[test]
fn a_sandbox_makes_its_requests() {
    let s = sandbox(true);
    assert_eq!((s.vm_id(), s.vsock_path()), ("vm", "/v"));
    match s.exec(&vec!["ls".to_string()], vec![("A".to_string(), "b".to_string())], 9) {
        AgentRequest::Exec { cmd, env, timeout_ms, interactive, request_id, .. } => {
            assert_eq!(cmd, vec!["ls".to_string()]);
            assert_eq!(env, vec![("A".to_string(), "b".to_string())]);
            assert_eq!(timeout_ms, Some(9));
            assert!(!interactive);
            assert_eq!(request_id.len(), 36);
        }
        other => panic!("{:?}", other),
    }
    assert!(matches!(
        s.upload_file("/g", vec![1]),
        AgentRequest::Upload { guest_path, data, mode: Some(0o644), .. } if guest_path == "/g" && data == vec![1]
    ));
    assert!(matches!(s.download_file("/g"), AgentRequest::Download { guest_path, .. } if guest_path == "/g"));
    assert!(matches!(s.pause().body, ApiBody::State(x) if x == "Paused"));
    assert!(matches!(s.resume().body, ApiBody::State(x) if x == "Resumed"));
    for (end, must) in [(s.shutdown(), true), (s.destroy(), false)] {
        assert!(matches!(end.call.body, ApiBody::Action(x) if x == "SendCtrlAltDel"));
        assert_eq!(end.call_must_succeed, must);
    }
}

#[test]
fn a_sandbox_understands_its_answers() {
    let ok = |body| AgentResponse::Success { request_id: "r".to_string(), body };
    let error = || AgentResponse::Error {
        request_id: "r".to_string(),
        code: ErrorCode::FileNotFound,
        message: "gone".to_string(),
    };
    assert!(Sandbox::upload_result(ok(ResponseBody::Upload { bytes_written: 1 })).is_ok());
    assert_eq!(Sandbox::upload_result(error()).unwrap_err().text(), "agent exec error: FileNotFound: gone");
    assert_eq!(Sandbox::download_result(ok(ResponseBody::Download { data: vec![7] })).unwrap(), vec![7]);
    assert_eq!(Sandbox::download_result(error()).unwrap_err().text(), "agent exec error: FileNotFound: gone");
    assert_eq!(
        Sandbox::download_result(ok(ResponseBody::Upload { bytes_written: 1 })).unwrap_err().text(),
        "agent communication error: Unexpected download response"
    );
}

#[test]
fn a_sandbox_needs_a_pool_to_return_to() {
    assert!(matches!(sandbox(true).return_to_pool().unwrap().body, ApiBody::State(s) if s == "Paused"));
    assert_eq!(sandbox(false).return_to_pool().unwrap_err().text(), "pool error: No warm pool configured");
}

#[test]
fn a_handle_returns_its_sandbox_unless_it_is_taken_out() {
    let mut r = runtime();
    let mut handle = || r.build_handle("t", "vm".to_string(), "/s".to_string(), "/v".to_string());
    let h = handle();
    assert_eq!(h.vm_id(), "vm");
    assert_eq!(h.sandbox().vsock_path(), "/v");
    let inner = h.into_inner();
    assert!(inner.pooled);
    let (_, next) = handle().give_up();
    assert!(matches!(next, GiveUp::ReturnToPool));
    assert!(matches!(GiveUp::ReturnToPool.next(true), GiveUp::Done));
    assert!(matches!(GiveUp::ReturnToPool.next(false), GiveUp::Destroy));
    assert!(matches!(GiveUp::Destroy.next(false), GiveUp::Done));
}

#[test]
fn a_sandbox_that_was_given_up_is_handed_out_again() {
    let mut r = runtime();
    let size = r.config.pool.warm_pool_size;
    let handle = r.build_handle("t", "vm".to_string(), "/s".to_string(), "/v".to_string());
    assert_eq!(r.pool.in_use_count(), 1);
    let (sandbox, next) = handle.give_up();
    assert!(matches!(next, GiveUp::ReturnToPool));
    assert!(size > 0);
    assert!(r.take_back(&sandbox));
    assert_eq!(r.pool.in_use_count(), 0);
    match r.acquire("t").unwrap() {
        Acquisition::Warm { vm, .. } => {
            assert_eq!((vm.vm_id.as_str(), vm.socket_path.as_str(), vm.vsock_path.as_str()), ("vm", "/s", "/v"))
        }
        other => panic!("{:?}", other),
    }
    // A sandbox that was never handed out cannot come back.
    assert!(!r.take_back(&Sandbox {
        vm_id: "x".to_string(),
        socket_path: "/s".to_string(),
        vsock_path: "/v".to_string(),
        pooled: true,
    }));
}
