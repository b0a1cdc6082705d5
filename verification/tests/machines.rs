use coffer::vm::client::{
    body_failed, call_outcome, request_failed, status_error, Action, ActionType, ApiReply, Drive, FirecrackerClient,
    Method, NetworkInterface, SnapshotType, VmBody, VmStateEnum,
};
use coffer::vm::state::{StateMachine, VmLifecycle};
use coffer::vm::{await_socket, vm_process_args, BootStage, FirecrackerVm, SocketWait, VmConfig};

const STATES: [VmLifecycle; 7] = [
    VmLifecycle::Unconfigured,
    VmLifecycle::Configured,
    VmLifecycle::Running,
    VmLifecycle::Paused,
    VmLifecycle::SnapshotCreated,
    VmLifecycle::SnapshotLoaded,
    VmLifecycle::Exited,
];

fn config() -> VmConfig {
    VmConfig {
        kernel_path: "/k".to_string(),
        rootfs_path: "/r".to_string(),
        vcpus: 2,
        memory_mib: 512,
        tap_name: "tap0".to_string(),
        guest_mac: "02:00:00:00:00:01".to_string(),
        guest_ip: "10.0.0.2".to_string(),
        vsock_uds_path: "/v".to_string(),
        is_rootfs_writable: false,
    }
}

fn booted() -> FirecrackerVm {
    let mut vm = FirecrackerVm::create_and_boot("vm".to_string(), config(), "/run");
    let mut stage = BootStage::BootSource;
    while stage != BootStage::Booted {
        vm.boot_call(stage);
        stage = vm.boot_done(stage).unwrap();
    }
    vm
}

#[test]
fn the_table_of_transitions() {
    let allowed = [
        (0, 1), (1, 2), (1, 6), (2, 3), (2, 6), (3, 4), (3, 2), (3, 6), (4, 2), (4, 5), (5, 2),
    ];
    for (i, from) in STATES.iter().enumerate() {
        for (j, to) in STATES.iter().enumerate() {
            assert_eq!(from.can_transition_to(*to), allowed.contains(&(i, j)), "{:?} {:?}", from, to);
        }
    }
}

#[test]
fn states_have_names() {
    let names: Vec<&str> = STATES.iter().map(|s| s.name()).collect();
    assert_eq!(
        names,
        vec!["unconfigured", "configured", "running", "paused", "snapshot_created", "snapshot_loaded", "exited"]
    );
}

#[test]
fn a_refused_transition_changes_nothing() {
    let mut m = StateMachine::new();
    assert_eq!(
        m.transition(VmLifecycle::Running).unwrap_err().text(),
        "invalid state of VM unknown: expected transition from unconfigured to valid state, found running"
    );
    assert_eq!(m.state(), VmLifecycle::Unconfigured);
    m.transition(VmLifecycle::Configured).unwrap();
    m.transition(VmLifecycle::Exited).unwrap();
    for s in STATES {
        assert!(m.transition(s).is_err());
    }
    assert_eq!(StateMachine::default().state(), VmLifecycle::Unconfigured);
}

#[test]
fn a_vm_boots_in_stages() {
    let mut vm = FirecrackerVm::create_and_boot("vm".to_string(), config(), "/run");
    assert_eq!(vm.socket_path, "/run/vm-vm.sock");
    let mut paths = Vec::new();
    let mut stage = BootStage::BootSource;
    while stage != BootStage::Booted {
        let c = vm.boot_call(stage);
        assert_eq!(c.method, Method::Put);
        match &c.body {
            VmBody::BootSource(b) => assert_eq!(b.kernel_image_path, "/k"),
            VmBody::Machine(m) => assert_eq!((m.vcpu_count, m.mem_size_mib, m.smt), (2, 512, Some(false))),
            VmBody::Drive(d) => assert!(d.is_read_only && d.is_root_device && d.cache_type == Some("Unsafe".to_string())),
            VmBody::NetworkInterface(n) => assert_eq!(n.host_dev_name, "tap0"),
            VmBody::Vsock(v) => assert_eq!((v.guest_cid, v.uds_path.as_str()), (3, "/v")),
            VmBody::Action(a) => assert_eq!(a.action_type, ActionType::InstanceStart),
            other => panic!("{:?}", other),
        }
        paths.push(c.path);
        stage = vm.boot_done(stage).unwrap();
    }
    assert_eq!(
        paths,
        vec!["/boot-source", "/machine-config", "/drives/rootfs", "/network-interfaces/eth0", "/vsock", "/actions"]
    );
    assert_eq!(vm.state.state(), VmLifecycle::Running);
}

#[test]
fn a_vm_pauses_and_resumes() {
    let mut vm = booted();
    assert_eq!(vm.resume().unwrap_err().text(), "invalid state of VM vm: expected paused or snapshot_loaded, found running");
    assert!(matches!(vm.pause().unwrap().body, VmBody::State(s) if s.state == VmStateEnum::Paused));
    vm.paused().unwrap();
    assert_eq!(vm.pause().unwrap_err().text(), "invalid state of VM vm: expected running, found paused");
    assert_eq!(vm.resume().unwrap().method, Method::Patch);
    vm.resumed().unwrap();
    assert_eq!(vm.state.state(), VmLifecycle::Running);
}

#[test]
fn a_snapshot_needs_a_paused_vm() {
    let mut vm = booted();
    assert_eq!(vm.create_snapshot("/s", "/m").unwrap_err().text(), "invalid state of VM vm: expected paused, found running");
    vm.paused().unwrap();
    match vm.create_snapshot("/s", "/m").unwrap().body {
        VmBody::SnapshotCreate(s) => {
            assert_eq!(s.snapshot_type, SnapshotType::Full);
            assert_eq!((s.snapshot_path.as_str(), s.mem_file_path.as_str()), ("/s", "/m"));
        }
        other => panic!("{:?}", other),
    }
    vm.snapshot_created("/s", "/m").unwrap();
    assert_eq!(vm.state.state(), VmLifecycle::SnapshotCreated);
    assert_eq!(vm.snapshot_mem_path, Some("/m".to_string()));
}

#[test]
fn a_restored_vm_can_be_resumed() {
    let (mut vm, call) = FirecrackerVm::from_snapshot("vm".to_string(), config(), "/s", "/m", "/run");
    assert_eq!(vm.socket_path, "/run/vm-vm-resume.sock");
    assert_eq!(call.path, "/snapshot/load");
    assert!(matches!(&call.body, VmBody::SnapshotLoad(l) if l.resume_vm == Some(false) && l.snapshot_path == "/s"));
    vm.snapshot_loaded().unwrap();
    assert_eq!(vm.state.state(), VmLifecycle::SnapshotLoaded);
    assert!(vm.resume().is_ok());
    vm.resumed().unwrap();
    assert_eq!(vm.state.state(), VmLifecycle::Running);
}

#[test]
fn a_killed_vm_is_gone() {
    let mut vm = booted();
    assert!(matches!(vm.shutdown().body, VmBody::Action(Action { action_type: ActionType::SendCtrlAltDel })));
    vm.kill().unwrap();
    assert!(vm.kill().is_err());
    assert!(vm.pause().is_err());
}

#[test]
fn the_process_and_its_socket() {
    assert_eq!(vm_process_args("/s", "vm").join(" "), "--api-sock /s --id vm");
    assert!(matches!(await_socket("vm", true, 99), SocketWait::Ready));
    assert!(matches!(await_socket("vm", false, 10), SocketWait::Again));
    match await_socket("vm", false, 11) {
        SocketWait::GiveUp(e) => assert_eq!(e.text(), "VM vm not up after 10000 ms"),
        other => panic!("{:?}", other),
    }
}

#[test]
fn calls_name_their_resource() {
    let c = FirecrackerClient::new("/s");
    let drive = Drive {
        drive_id: "d".to_string(),
        path_on_host: "/p".to_string(),
        is_root_device: false,
        is_read_only: true,
        cache_type: None,
        partuuid: None,
    };
    assert_eq!(c.put_drive("data", drive).path, "/drives/data");
    let iface = NetworkInterface {
        iface_id: "eth1".to_string(),
        host_dev_name: "tap1".to_string(),
        guest_mac: "m".to_string(),
    };
    assert_eq!(c.put_network_interface("eth1", iface).path, "/network-interfaces/eth1");
    let get = c.get_machine_config();
    assert_eq!((get.method, get.path.as_str()), (Method::Get, "/machine-config"));
    assert!(matches!(get.body, VmBody::Nothing));
}

#[test]
fn answers_of_the_api() {
    assert!(matches!(call_outcome(204, Vec::new()).unwrap(), ApiReply::Empty));
    assert!(matches!(call_outcome(200, b"{}".to_vec()).unwrap(), ApiReply::Json(b) if b == b"{}"));
    assert_eq!(call_outcome(400, vec![b'x', 0xff]).unwrap_err().text(), "firecracker error: 400 x\u{fffd}");
    assert_eq!(call_outcome(300, Vec::new()).unwrap_err().text(), "firecracker error: 300 ");
    assert_eq!(status_error(500, "m").text(), "firecracker error: 500 m");
    assert_eq!(request_failed("r").text(), "internal error: HTTP request failed: r");
    assert_eq!(body_failed("r").text(), "internal error: Body read failed: r");
}
