use coffer::error::CofferError;
use coffer::firecracker::{
    call_outcome, check_response, find_crlf2, parse_content_length, request_bytes, request_head, response_complete,
    wait_for_socket, ApiBody, CreateSnapshotRequest, FirecrackerClient, LoadSnapshotRequest, MemBackendConfig,
    SocketWait,
};

#[test]
fn calls_have_their_method_and_path() {
    let fc = FirecrackerClient::new("/s".to_string());
    assert_eq!(fc.socket_path, "/s");
    let c = fc.machine_call(2, 512);
    assert_eq!((c.method, c.path), ("PUT", "/machine-config"));
    assert!(matches!(&c.body, ApiBody::Machine(m) if m.vcpu_count == 2 && m.mem_size_mib == 512 && !m.smt && m.track_dirty_pages));
    assert!(matches!(fc.machine_call(257, 1).body, ApiBody::Machine(m) if m.vcpu_count == 1));
    let c = fc.kernel_call("/k", "console=ttyS0");
    assert_eq!((c.method, c.path), ("PUT", "/boot-source"));
    assert!(matches!(&c.body, ApiBody::Kernel(k) if k.kernel_image_path == "/k" && k.boot_args == "console=ttyS0"));
    let c = fc.root_drive_call("/r");
    assert_eq!(c.path, "/drives/rootfs");
    assert!(matches!(&c.body, ApiBody::Drive(d) if d.drive_id == "rootfs" && d.is_root_device && d.is_read_only));
    let c = fc.network_call("02:00:00:00:04:00", "tap0");
    assert_eq!(c.path, "/network-interfaces/eth0");
    assert!(matches!(&c.body, ApiBody::NetworkInterface(n) if n.iface_id == "eth0" && n.host_dev_name == "tap0"));
    let c = fc.vsock_call(1024, "/v");
    assert!(matches!(&c.body, ApiBody::Vsock(v) if v.guest_cid == 1024 && v.uds_path == "/v"));
    for (c, action) in [(fc.start_microvm(), "InstanceStart"), (fc.shutdown(), "SendCtrlAltDel")] {
        assert_eq!((c.method, c.path), ("PUT", "/actions"));
        assert!(matches!(&c.body, ApiBody::Action(a) if a == action));
    }
    for (c, state) in [(fc.pause(), "Paused"), (fc.resume(), "Resumed")] {
        assert_eq!((c.method, c.path), ("PATCH", "/vm"));
        assert!(matches!(&c.body, ApiBody::State(s) if s == state));
    }
    let c = fc.load_call("/state", "/mem", true);
    assert_eq!(c.path, "/snapshot/load");
    assert!(matches!(&c.body, ApiBody::LoadSnapshot(l) if l.mem_backend.backend_type == "File" && l.resume_vm));
    let c = fc.snapshot_call("/state", "/mem");
    assert_eq!(c.path, "/snapshot/create");
    assert!(matches!(&c.body, ApiBody::CreateSnapshot(s) if s.snapshot_type == "Full" && s.mem_file_path == "/mem"));
    let load = LoadSnapshotRequest {
        snapshot_path: "s".to_string(),
        mem_backend: MemBackendConfig { backend_type: "Uffd".to_string(), backend_path: "m".to_string() },
        resume_vm: false,
    };
    assert!(matches!(fc.load_snapshot(load).body, ApiBody::LoadSnapshot(l) if l.mem_backend.backend_type == "Uffd"));
    let create = CreateSnapshotRequest {
        snapshot_type: "Diff".to_string(),
        snapshot_path: "s".to_string(),
        mem_file_path: "m".to_string(),
    };
    assert!(matches!(fc.create_snapshot(create).body, ApiBody::CreateSnapshot(s) if s.snapshot_type == "Diff"));
}

#[test]
fn the_socket_is_awaited_within_the_limit() {
    assert!(matches!(wait_for_socket("/s", true, 0, 2000), SocketWait::Ready));
    assert!(matches!(wait_for_socket("/s", false, 1999, 2000), SocketWait::Again));
    match wait_for_socket("/s", true, 2000, 2000) {
        SocketWait::GiveUp(e) => assert_eq!(e.text(), "firecracker error: Socket /s did not appear within 2s"),
        other => panic!("{:?}", other),
    }
    match wait_for_socket("/s", false, 9000, 1500) {
        SocketWait::GiveUp(e) => assert_eq!(e.text(), "firecracker error: Socket /s did not appear within 1.5s"),
        other => panic!("{:?}", other),
    }
}

#[test]
fn requests_are_written_out() {
    let head = "PUT /vm HTTP/1.1\r\nHost: localhost\r\nContent-Type: application/json\r\nContent-Length: 2\r\nConnection: close\r\n\r\n";
    assert_eq!(request_head("PUT", "/vm", 2), head);
    assert_eq!(request_bytes("PUT", "/vm", Some(b"{}".to_vec())), format!("{}{{}}", head).into_bytes());
    assert_eq!(request_bytes("GET", "/x", None), request_head("GET", "/x", 0).into_bytes());
}

#[test]
fn the_head_ends_at_the_first_empty_line() {
    assert_eq!(find_crlf2(b"a\r\n\r\nb\r\n\r\n"), Some(1));
    assert_eq!(find_crlf2(b"\r\n\r\n"), Some(0));
    assert_eq!(find_crlf2(b"a\r\n\r"), None);
    assert_eq!(find_crlf2(b""), None);
    assert_eq!(find_crlf2(b"\r\r\n\r\n"), Some(1));
}

#[test]
fn the_length_is_read_from_the_head() {
    assert_eq!(parse_content_length("HTTP/1.1 200 OK\r\ncontent-length: 17\r\n"), Some(17));
    assert_eq!(parse_content_length("CONTENT-LENGTH:  5  "), Some(5));
    assert_eq!(parse_content_length("X-Content-Length: 5"), None);
    assert_eq!(parse_content_length("Content-Length: x"), None);
    assert_eq!(parse_content_length(""), None);
    assert_eq!(parse_content_length(&request_head("PUT", "/vm", 1234)), Some(1234));
}

#[test]
fn answers_are_read_to_their_end() {
    let whole = b"HTTP/1.1 400 Bad Request\r\nContent-Length: 4\r\n\r\noops";
    for n in 0..whole.len() {
        assert!(!response_complete(&whole[..n]), "{}", n);
    }
    assert!(response_complete(whole));
    let mut longer = whole.to_vec();
    longer.push(b'!');
    assert!(response_complete(&longer));
    assert!(response_complete(b"HTTP/1.1 204 No Content\r\n\r\n"));
    // A head that is no text gives no length.
    assert!(response_complete(b"\xff\xff\r\nContent-Length: 9\r\n\r\n"));
}

#[test]
fn the_outcome_follows_the_status_line() {
    assert!(check_response("/vm", b"HTTP/1.1 204 No Content\r\n\r\n").is_ok());
    assert!(check_response("/vm", b"HTTP/1.1 200 OK\r\nContent-Length: 2\r\n\r\n{}").is_ok());
    match check_response("/vm", b"HTTP/1.1 400 Bad Request\r\nContent-Length: 5\r\n\r\noop\xffs") {
        Err(CofferError::Firecracker(m)) => assert_eq!(m, "/vm -> HTTP/1.1 400 Bad Request: oop\u{fffd}s"),
        other => panic!("{:?}", other),
    }
    match check_response("/vm", b"half an answer") {
        Err(CofferError::Firecracker(m)) => assert_eq!(m, "/vm -> :  an answer"),
        other => panic!("{:?}", other),
    }
    match check_response("/vm", b"abc") {
        Err(CofferError::Firecracker(m)) => assert_eq!(m, "/vm -> : "),
        other => panic!("{:?}", other),
    }
    assert!(call_outcome("/p", "HTTP/1.1 201 Created", "").is_ok());
    assert_eq!(call_outcome("/p", "HTTP/1.1 500", "b").unwrap_err().text(), "firecracker error: /p -> HTTP/1.1 500: b");
}
