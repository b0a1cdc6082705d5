use coffer::error::CofferError;
use coffer::proto::{
    decode_frame, encode_frame, AgentResponse, ErrorCode, ExecEvent, LineBuffer, ResponseBody, WindowSize,
    COFFER_AGENT_VERSION, COFFER_VSOCK_PORT,
};
use coffer::protocol::{
    await_agent, connect_failed, connect_line, exec_reply, exec_request, handshake_failed, interactive_request,
    ping_reply, ping_request, AgentWait, Handshake, HandshakeStep, HostAction, HostEvent, InteractiveSession,
    VsockClient,
};
use coffer::proto::AgentRequest;
use serde_json::Value;

fn ping_message(id: &str) -> Value {
    let mut m = serde_json::Map::new();
    m.insert("method".to_string(), Value::String("ping".to_string()));
    m.insert("request_id".to_string(), Value::String(id.to_string()));
    Value::Object(m)
}

#[test]
fn test_roundtrip() {
    let frame = encode_frame(serde_json::to_vec(&ping_message("r1")).unwrap());
    let payload = decode_frame(&frame).unwrap();
    let decoded: Value = serde_json::from_slice(&payload).unwrap();
    match decoded.get("method").and_then(|m| m.as_str()) {
        Some("ping") => assert_eq!(decoded.get("request_id").and_then(|r| r.as_str()), Some("r1")),
        _ => panic!("wrong variant"),
    }
}

#[test]
fn constants_of_the_protocol() {
    assert_eq!(COFFER_VSOCK_PORT, 1024);
    assert_eq!(COFFER_AGENT_VERSION, "0.1.0");
}

#[test]
fn an_incomplete_frame_decodes_to_nothing() {
    assert!(decode_frame(b"{\"a\":1}").is_none());
    assert!(decode_frame(b"").is_none());
    assert_eq!(decode_frame(b"\nrest").unwrap(), b"");
    assert_eq!(decode_frame(b"one\ntwo\n").unwrap(), b"one");
}

#[test]
fn lines_do_not_depend_on_the_chunks() {
    let wire: Vec<u8> = ["first", "", "third line"]
        .iter()
        .flat_map(|p| encode_frame(p.as_bytes().to_vec()))
        .collect();
    for size in 1..wire.len() {
        let mut buffer = LineBuffer::new();
        let mut lines: Vec<Vec<u8>> = Vec::new();
        for chunk in wire.chunks(size) {
            buffer.push(chunk);
            while let Some(line) = buffer.next_line() {
                lines.push(line);
            }
        }
        assert_eq!(lines, vec![b"first\n".to_vec(), b"\n".to_vec(), b"third line\n".to_vec()]);
        assert!(buffer.next_line().is_none());
    }
}

#[test]
fn messages_come_off_the_wire_as_they_went_on() {
    let sent: Vec<Value> = ["plain", "two\nlines", "", "é\r\n"].iter().map(|id| ping_message(id)).collect();
    let mut buffer = LineBuffer::new();
    for m in &sent {
        buffer.push(&encode_frame(serde_json::to_vec(m).unwrap()));
    }
    buffer.push(b"{\"half\":");
    let mut received: Vec<Value> = Vec::new();
    while let Some(line) = buffer.next_line() {
        received.push(serde_json::from_slice(&line).unwrap());
    }
    assert_eq!(received, sent);
}

fn shake(answer: &[u8]) -> HandshakeStep {
    let mut h = Handshake::new();
    for &b in answer {
        match h.byte(b) {
            HandshakeStep::More => {}
            other => return other,
        }
    }
    HandshakeStep::More
}

#[test]
fn handshake_needs_ok() {
    assert_eq!(connect_line(1024), "CONNECT 1024\n");
    assert!(matches!(shake(b"OK 1073741824\n"), HandshakeStep::Ready(_)));
    assert!(matches!(shake(b"OK 1"), HandshakeStep::More));
    assert!(matches!(shake(b"OK\n"), HandshakeStep::Refused(ack) if ack == "OK"));
    assert!(matches!(shake(b"no\xe9\n"), HandshakeStep::Refused(ack) if ack == "noé"));
    assert_eq!(
        handshake_failed("nope").text(),
        "agent communication error: Firecracker vsock handshake failed: nope"
    );
}

fn ready() -> VsockClient {
    match shake(b"OK 1\n") {
        HandshakeStep::Ready(c) => c,
        other => panic!("{:?}", other),
    }
}

#[test]
fn a_call_takes_one_line_and_keeps_the_rest() {
    let mut c = ready();
    assert!(c.reply().is_none());
    c.received(b"{\"a\"").unwrap();
    assert!(c.reply().is_none());
    c.received(b":1}\n{\"b\":2}\n").unwrap();
    assert_eq!(c.reply().unwrap(), b"{\"a\":1}\n");
    assert_eq!(c.reply().unwrap(), b"{\"b\":2}\n");
    assert!(c.reply().is_none());
    assert!(matches!(c.received(b""), Err(CofferError::AgentCommunication(m)) if m == "vsock closed before response"));
}

#[test]
fn requests_carry_fresh_identifiers() {
    let id = |r: &AgentRequest| match r {
        AgentRequest::Ping { request_id } => request_id.clone(),
        AgentRequest::Exec { request_id, .. } => request_id.clone(),
        other => panic!("{:?}", other),
    };
    let a = id(&ping_request());
    let b = id(&ping_request());
    assert_ne!(a, b);
    assert_eq!(a.len(), 36);
    for (i, c) in a.chars().enumerate() {
        if [8, 13, 18, 23].contains(&i) {
            assert_eq!(c, '-');
        } else {
            assert!(c.is_ascii_digit() || ('a'..='f').contains(&c));
        }
    }
    assert_eq!(&a[14..15], "4");
    match exec_request(vec!["ls".to_string()], Vec::new(), None, Some(vec![1]), Some(5)) {
        AgentRequest::Exec { cmd, stdin, timeout_ms, interactive, tty, window_size, .. } => {
            assert_eq!(cmd, vec!["ls".to_string()]);
            assert_eq!(stdin, Some(vec![1]));
            assert_eq!(timeout_ms, Some(5));
            assert!(!interactive && !tty && window_size.is_none());
        }
        other => panic!("{:?}", other),
    }
    let size = WindowSize { rows: 24, cols: 80 };
    match interactive_request(vec!["sh".to_string()], Vec::new(), Some("/w".to_string()), true, Some(size)) {
        AgentRequest::Exec { working_dir, stdin, timeout_ms, interactive, tty, window_size, .. } => {
            assert_eq!(working_dir, Some("/w".to_string()));
            assert!(stdin.is_none() && timeout_ms.is_none() && interactive && tty);
            assert_eq!(window_size, Some(size));
        }
        other => panic!("{:?}", other),
    }
}

fn exec_ok(code: i32) -> AgentResponse {
    AgentResponse::Success {
        request_id: "r".to_string(),
        body: ResponseBody::Exec {
            exit_code: code,
            stdout: "o".to_string(),
            stderr: "e".to_string(),
            duration_ms: 4,
        },
    }
}

fn pong() -> AgentResponse {
    AgentResponse::Success {
        request_id: "r".to_string(),
        body: ResponseBody::Pong { agent_version: "0.1.0".to_string(), uptime_secs: 9 },
    }
}

fn agent_error() -> AgentResponse {
    AgentResponse::Error { request_id: "r".to_string(), code: ErrorCode::ExecFailed, message: "bad".to_string() }
}

#[test]
fn answers_are_understood() {
    let out = exec_reply(exec_ok(2)).unwrap();
    assert_eq!((out.exit_code, out.stdout.as_str(), out.stderr.as_str(), out.duration_ms), (2, "o", "e", 4));
    match exec_reply(agent_error()) {
        Err(CofferError::AgentExec { message, exit_code }) => {
            assert_eq!(message, "ExecFailed: bad");
            assert!(exit_code.is_none());
        }
        other => panic!("{:?}", other),
    }
    assert!(matches!(exec_reply(pong()), Err(CofferError::AgentCommunication(m)) if m == "Unexpected response type"));
    assert_eq!(ping_reply(pong()).unwrap(), ("0.1.0".to_string(), 9));
    assert!(matches!(ping_reply(agent_error()), Err(CofferError::AgentCommunication(m)) if m == "Unexpected ping response"));
}

#[test]
fn error_codes_have_their_names() {
    let codes = [
        ErrorCode::InvalidRequest,
        ErrorCode::ExecFailed,
        ErrorCode::FileNotFound,
        ErrorCode::PermissionDenied,
        ErrorCode::Timeout,
        ErrorCode::IoError,
        ErrorCode::InternalError,
    ];
    for c in codes {
        assert_eq!(c.name(), format!("{:?}", c));
    }
}

#[test]
fn waiting_for_the_agent() {
    assert!(matches!(await_agent("vm", 5000, 5000, true), AgentWait::Ready));
    assert!(matches!(await_agent("vm", 0, 5000, false), AgentWait::Again));
    assert!(matches!(await_agent("vm", 5001, 5000, true), AgentWait::GiveUp(CofferError::AgentNotReady(id)) if id == "vm"));
}

#[test]
fn interactive_session_prints_and_ends() {
    let mut s = InteractiveSession::new();
    assert!(matches!(s.step(HostEvent::Next), HostAction::Wait { stdin: true }));
    assert!(matches!(s.step(HostEvent::Read(b"x\ny\n".to_vec())), HostAction::Continue));
    assert!(matches!(s.step(HostEvent::Next), HostAction::Decode(l) if l == b"x\n"));
    let event = |event| AgentResponse::Event { request_id: "r".to_string(), event };
    assert!(matches!(
        s.step(HostEvent::Message(event(ExecEvent::Stdout { chunk: "out".to_string() }))),
        HostAction::Print(c) if c == "out"
    ));
    assert!(matches!(
        s.step(HostEvent::Message(event(ExecEvent::Stderr { chunk: "err".to_string() }))),
        HostAction::PrintErr(c) if c == "err"
    ));
    assert!(matches!(s.step(HostEvent::Message(event(ExecEvent::Exited { exit_code: 1 }))), HostAction::Continue));
    assert!(matches!(s.step(HostEvent::Message(pong())), HostAction::Continue));
    assert!(matches!(s.step(HostEvent::Message(exec_ok(5))), HostAction::Done(5)));
    assert!(matches!(
        s.step(HostEvent::Message(agent_error())),
        HostAction::Fail(CofferError::AgentExec { message, .. }) if message == "ExecFailed: bad"
    ));
    assert!(matches!(s.step(HostEvent::Stdin(vec![7])), HostAction::Send(b) if b == vec![7]));
    assert!(matches!(s.step(HostEvent::StdinClosed), HostAction::Continue));
    assert!(matches!(s.step(HostEvent::Next), HostAction::Decode(l) if l == b"y\n"));
    assert!(matches!(s.step(HostEvent::Next), HostAction::Wait { stdin: false }));
}

#[test]
fn interactive_session_failures() {
    let fail = |e: HostEvent| match InteractiveSession::new().step(e) {
        HostAction::Fail(e) => e.text(),
        other => panic!("{:?}", other),
    };
    let p = "agent communication error: ";
    assert_eq!(fail(HostEvent::Read(Vec::new())), format!("{}Connection closed", p));
    assert_eq!(fail(HostEvent::ReadFailed("x".to_string())), format!("{}Read error: x", p));
    assert_eq!(fail(HostEvent::BadMessage("x".to_string())), format!("{}JSON parse error: x", p));
    assert_eq!(
        fail(HostEvent::Written { write_ok: false, flush_ok: true }),
        format!("{}Failed to write stdin to vsock", p)
    );
    assert_eq!(
        fail(HostEvent::Written { write_ok: true, flush_ok: false }),
        format!("{}Failed to flush stdin to vsock", p)
    );
    assert_eq!(connect_failed("x").text(), format!("{}Connect failed: x", p));
}

#[test]
fn errors_have_their_texts() {
    let cases = vec![
        (CofferError::Config("x".to_string()), "config error: x"),
        (CofferError::Firecracker("x".to_string()), "firecracker error: x"),
        (
            CofferError::FirecrackerStatus { status: 400, message: "x".to_string() },
            "firecracker error: 400 x",
        ),
        (CofferError::Network("x".to_string()), "network error: x"),
        (CofferError::Pool("x".to_string()), "pool error: x"),
        (CofferError::TemplateNotFound("x".to_string()), "template not found: x"),
        (CofferError::TemplateBuild("x".to_string()), "template build error: x"),
        (CofferError::AgentNotReady("x".to_string()), "agent not ready in sandbox: x"),
        (CofferError::AgentCommunication("x".to_string()), "agent communication error: x"),
        (
            CofferError::AgentExec { message: "x".to_string(), exit_code: Some(1) },
            "agent exec error: x",
        ),
        (CofferError::Io("x".to_string()), "io error: x"),
        (CofferError::Serde("x".to_string()), "serde error: x"),
        (CofferError::TaskJoin("x".to_string()), "task join error: x"),
        (CofferError::Timeout("x".to_string()), "timeout: x"),
        (
            CofferError::InvalidVmState {
                id: "v".to_string(),
                expected: "paused".to_string(),
                actual: "running".to_string(),
            },
            "invalid state of VM v: expected paused, found running",
        ),
        (CofferError::VmTimeout { id: "v".to_string(), dur_ms: 10 }, "VM v not up after 10 ms"),
        (
            CofferError::ResourceLimit { resource: "vcpus".to_string(), used: 3, limit: 4 },
            "limit of vcpus reached: 3 of 4",
        ),
        (CofferError::Internal("x".to_string()), "internal error: x"),
    ];
    for (e, text) in cases {
        assert_eq!(e.text(), text);
    }
}
