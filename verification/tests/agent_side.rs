use coffer::agent::{
    download_reply, handle_stream, process_request, reap, run_reply, start_interactive, upload_reply, ActivePty,
    AgentAction, AgentEvent, ConnAction, ConnEvent, Handling, InteractiveExec, InteractiveStart, Reap, RunOutcome,
    Stdio, UploadOutcome, ECHILD,
};
use coffer::proto::{AgentRequest, AgentResponse, ErrorCode, ExecEvent, ResponseBody, WindowSize};
use coffer::protocol::{exec_reply, HostAction, HostEvent, InteractiveSession};

fn exec(interactive: bool, cmd: Vec<&str>) -> AgentRequest {
    AgentRequest::Exec {
        request_id: "r1".to_string(),
        cmd: cmd.iter().map(|s| s.to_string()).collect(),
        env: vec![("K".to_string(), "V".to_string())],
        working_dir: None,
        stdin: Some(b"in".to_vec()),
        timeout_ms: Some(100),
        interactive,
        tty: true,
        window_size: Some(WindowSize { rows: 24, cols: 80 }),
    }
}

fn session(tty: bool) -> (coffer::agent::LaunchSpec, InteractiveExec) {
    match start_interactive(
        "r1".to_string(),
        vec!["sh".to_string(), "-i".to_string()],
        Vec::new(),
        None,
        tty,
        Some(WindowSize { rows: 2, cols: 3 }),
    ) {
        InteractiveStart::Launch(l, s) => (l, s),
        other => panic!("{:?}", other),
    }
}

#[test]
fn interactive_commands_are_launched_in_the_root() {
    let (launch, _) = session(true);
    assert_eq!(launch.program, "sh");
    assert_eq!(launch.args, vec!["-i".to_string()]);
    assert_eq!(launch.dir, Some("/".to_string()));
    assert!(matches!(launch.stdio, Stdio::Pty { size: Some(WindowSize { rows: 2, cols: 3 }) }));
    let (launch, _) = session(false);
    assert!(matches!(launch.stdio, Stdio::Pipes { greeting } if greeting == b"\n"));
}

#[test]
fn an_empty_interactive_command_is_refused() {
    match start_interactive("r".to_string(), Vec::new(), Vec::new(), None, true, None) {
        InteractiveStart::Refuse(AgentResponse::Error { request_id, code, message }) => {
            assert_eq!(request_id, "r");
            assert_eq!(code, ErrorCode::InvalidRequest);
            assert_eq!(message, "Empty command");
        }
        other => panic!("{:?}", other),
    }
}

fn chunk(action: AgentAction) -> String {
    match action {
        AgentAction::Send(AgentResponse::Event { event: ExecEvent::Stdout { chunk }, .. }) => chunk,
        AgentAction::Send(AgentResponse::Event { event: ExecEvent::Stderr { chunk }, .. }) => chunk,
        other => panic!("{:?}", other),
    }
}

#[test]
fn output_is_forwarded_and_repaired() {
    let (_, mut s) = session(true);
    assert_eq!(chunk(s.step(AgentEvent::Stdout(b"plain".to_vec()))), "plain");
    assert_eq!(chunk(s.step(AgentEvent::Stderr(vec![b'a', 0xff, b'b']))), "a\u{fffd}b");
}

fn is_end(action: AgentAction, expected: i32) -> bool {
    match action {
        AgentAction::Finish(
            AgentResponse::Event { event: ExecEvent::Exited { exit_code: a }, .. },
            AgentResponse::Success { body: ResponseBody::Exec { exit_code: b, stdout, stderr, duration_ms }, .. },
        ) => a == expected && b == expected && stdout.is_empty() && stderr.is_empty() && duration_ms == 0,
        _ => false,
    }
}

#[test]
fn output_that_comes_after_the_exit_is_not_lost() {
    let (_, mut s) = session(true);
    assert!(matches!(s.step(AgentEvent::Exited(Some(3))), AgentAction::Nothing));
    assert_eq!(chunk(s.step(AgentEvent::Stdout(b"late".to_vec()))), "late");
    assert!(matches!(s.step(AgentEvent::Input(b"x".to_vec())), AgentAction::Nothing));
    assert!(is_end(s.step(AgentEvent::OutputClosed), 3));
    assert!(matches!(s.step(AgentEvent::Stdout(b"no".to_vec())), AgentAction::Nothing));
}

#[test]
fn the_end_of_output_may_come_first() {
    let (_, mut s) = session(true);
    assert!(matches!(s.step(AgentEvent::OutputClosed), AgentAction::Nothing));
    assert!(is_end(s.step(AgentEvent::Exited(None)), -1));
}

#[test]
fn input_goes_to_the_command_until_it_is_closed() {
    let (_, mut s) = session(true);
    assert!(matches!(s.step(AgentEvent::Input(b"ls\n".to_vec())), AgentAction::WriteInput(b) if b == b"ls\n"));
    assert!(matches!(s.step(AgentEvent::Input(Vec::new())), AgentAction::CloseInput));
    assert!(matches!(s.step(AgentEvent::Input(b"more".to_vec())), AgentAction::Nothing));
    let (_, mut s) = session(true);
    assert!(matches!(s.step(AgentEvent::InputFailed), AgentAction::CloseInput));
    assert!(matches!(s.step(AgentEvent::InputFailed), AgentAction::Nothing));
}

#[test]
fn failures_end_an_interactive_session() {
    for event in [
        AgentEvent::WaitFailed("why".to_string()),
        AgentEvent::WriteFailed("why".to_string()),
        AgentEvent::SendFailed("why".to_string()),
    ] {
        let (_, mut s) = session(true);
        assert!(matches!(s.step(event), AgentAction::Fail(e) if e == "why"));
        assert!(matches!(s.step(AgentEvent::Exited(Some(0))), AgentAction::Nothing));
    }
}

#[test]
fn the_host_sees_what_the_agent_sends() {
    let (_, mut agent) = session(true);
    let mut host = InteractiveSession::new();
    let mut shown = String::new();
    let mut code = None;
    for event in [
        AgentEvent::Stdout(b"one ".to_vec()),
        AgentEvent::Exited(Some(4)),
        AgentEvent::Stdout(b"two".to_vec()),
        AgentEvent::OutputClosed,
    ] {
        let messages = match agent.step(event) {
            AgentAction::Send(m) => vec![m],
            AgentAction::Finish(a, b) => vec![a, b],
            _ => vec![],
        };
        for m in messages {
            match host.step(HostEvent::Message(m)) {
                HostAction::Print(c) => shown.push_str(&c),
                HostAction::Done(c) => code = Some(c),
                _ => {}
            }
        }
    }
    assert_eq!(shown, "one two");
    assert_eq!(code, Some(4));
}

#[test]
fn requests_are_sorted_out() {
    let none = ActivePty::new();
    match process_request(AgentRequest::Ping { request_id: "p".to_string() }, &none, 77) {
        Handling::Reply(AgentResponse::Success {
            request_id,
            body: ResponseBody::Pong { agent_version, uptime_secs },
        }) => {
            assert_eq!((request_id.as_str(), agent_version.as_str(), uptime_secs), ("p", "0.1.0", 77));
        }
        other => panic!("{:?}", other),
    }
    match process_request(exec(false, vec!["ls", "-l"]), &none, 0) {
        Handling::Run { request_id, launch, timeout_ms } => {
            assert_eq!(request_id, "r1");
            assert_eq!(launch.program, "ls");
            assert_eq!(launch.args, vec!["-l".to_string()]);
            assert_eq!(launch.env, vec![("K".to_string(), "V".to_string())]);
            assert!(launch.dir.is_none());
            assert!(matches!(launch.stdio, Stdio::Captured { stdin: Some(b) } if b == b"in"));
            assert_eq!(timeout_ms, Some(100));
        }
        other => panic!("{:?}", other),
    }
    assert!(matches!(
        process_request(exec(false, vec![]), &none, 0),
        Handling::Reply(AgentResponse::Error { code: ErrorCode::InvalidRequest, message, .. }) if message == "Empty command"
    ));
    assert!(matches!(
        process_request(exec(true, vec!["sh"]), &none, 0),
        Handling::Reply(AgentResponse::Error { code: ErrorCode::InternalError, message, .. })
            if message == "Interactive exec should be handled by handle_stream"
    ));
    let upload = AgentRequest::Upload {
        request_id: "u".to_string(),
        guest_path: "/a/b".to_string(),
        data: vec![1],
        mode: Some(0o600),
    };
    assert!(matches!(
        process_request(upload, &none, 0),
        Handling::Write { path, data, mode: Some(0o600), .. } if path == "/a/b" && data == vec![1]
    ));
    let download = AgentRequest::Download { request_id: "d".to_string(), guest_path: "/x".to_string() };
    assert!(matches!(process_request(download, &none, 0), Handling::Read { request_id, path } if request_id == "d" && path == "/x"));
}

#[test]
fn resizing_needs_a_terminal() {
    let mut active = ActivePty::new();
    let resize = || AgentRequest::ResizePty { cols: 100, rows: 30 };
    assert!(matches!(
        process_request(resize(), &active, 5),
        Handling::Reply(AgentResponse::Error { request_id, message, .. })
            if request_id == "resize" && message == "No active PTY session"
    ));
    active.set(9);
    match process_request(resize(), &active, 5) {
        Handling::Resize { fd, size, reply } => {
            assert_eq!(fd, 9);
            assert_eq!(size, WindowSize { rows: 30, cols: 100 });
            assert!(matches!(reply, AgentResponse::Success { request_id, .. } if request_id == "resize"));
        }
        other => panic!("{:?}", other),
    }
    active.clear();
    assert!(matches!(process_request(resize(), &active, 5), Handling::Reply(AgentResponse::Error { .. })));
}

fn message_of(r: AgentResponse) -> (ErrorCode, String) {
    match r {
        AgentResponse::Error { request_id, code, message } => {
            assert_eq!(request_id, "r");
            (code, message)
        }
        other => panic!("{:?}", other),
    }
}

#[test]
fn runs_are_answered() {
    let id = || "r".to_string();
    assert_eq!(
        message_of(run_reply(id(), RunOutcome::SpawnFailed("no".to_string()), 1)),
        (ErrorCode::ExecFailed, "Failed to spawn: no".to_string())
    );
    assert_eq!(
        message_of(run_reply(id(), RunOutcome::TimedOut, 1)),
        (ErrorCode::ExecFailed, "Execution timed out".to_string())
    );
    assert_eq!(
        message_of(run_reply(id(), RunOutcome::WaitFailed("x".to_string()), 1)),
        (ErrorCode::ExecFailed, "x".to_string())
    );
    let ended = |code| RunOutcome::Exited { code, stdout: vec![b'o', 0xc3, 0x28], stderr: b"e".to_vec() };
    let out = exec_reply(run_reply(id(), ended(Some(2)), 15)).unwrap();
    assert_eq!((out.exit_code, out.stdout.as_str(), out.stderr.as_str(), out.duration_ms), (2, "o\u{fffd}(", "e", 15));
    assert_eq!(exec_reply(run_reply(id(), ended(None), 15)).unwrap().exit_code, -1);
}

#[test]
fn files_are_answered() {
    let id = || "r".to_string();
    assert_eq!(
        message_of(upload_reply(id(), UploadOutcome::DirFailed("d".to_string()), 3)),
        (ErrorCode::IoError, "Create dir failed: d".to_string())
    );
    assert_eq!(
        message_of(upload_reply(id(), UploadOutcome::WriteFailed("w".to_string()), 3)),
        (ErrorCode::IoError, "Write failed: w".to_string())
    );
    assert!(matches!(
        upload_reply(id(), UploadOutcome::Written, 3),
        AgentResponse::Success { body: ResponseBody::Upload { bytes_written: 3 }, .. }
    ));
    assert_eq!(
        message_of(download_reply(id(), Err("gone".to_string()))),
        (ErrorCode::IoError, "Read failed: gone".to_string())
    );
    assert!(matches!(
        download_reply(id(), Ok(vec![1, 2])),
        AgentResponse::Success { body: ResponseBody::Download { data }, .. } if data == vec![1, 2]
    ));
}

#[test]
fn a_connection_is_served() {
    assert!(matches!(handle_stream(ConnEvent::Eof), ConnAction::Close));
    assert!(matches!(handle_stream(ConnEvent::ReadFailed("e".to_string())), ConnAction::Fail(e) if e == "e"));
    assert!(matches!(handle_stream(ConnEvent::InteractiveEnded), ConnAction::Close));
    match handle_stream(ConnEvent::BadRequest("at line 1".to_string())) {
        ConnAction::Reply(AgentResponse::Error { request_id, code, message }) => {
            assert_eq!(request_id, "unknown");
            assert_eq!(code, ErrorCode::InvalidRequest);
            assert_eq!(message, "JSON parse error: at line 1");
        }
        other => panic!("{:?}", other),
    }
    match handle_stream(ConnEvent::InteractiveFailed("pty".to_string())) {
        ConnAction::ReplyAndClose(AgentResponse::Error { code, message, .. }) => {
            assert_eq!(code, ErrorCode::InternalError);
            assert_eq!(message, "Interactive exec failed: pty");
        }
        other => panic!("{:?}", other),
    }
    match handle_stream(ConnEvent::Request(exec(true, vec!["sh"]))) {
        ConnAction::Interactive { request_id, cmd, tty, window_size, .. } => {
            assert_eq!(request_id, "r1");
            assert_eq!(cmd, vec!["sh".to_string()]);
            assert!(tty);
            assert_eq!(window_size, Some(WindowSize { rows: 24, cols: 80 }));
        }
        other => panic!("{:?}", other),
    }
    assert!(matches!(handle_stream(ConnEvent::Request(exec(false, vec!["sh"]))), ConnAction::Process(AgentRequest::Exec { .. })));
}

#[test]
fn the_first_process_reaps() {
    assert_eq!(reap(12, None), Reap::Again);
    assert_eq!(reap(-1, Some(ECHILD)), Reap::End(0));
    assert_eq!(reap(-1, Some(4)), Reap::End(1));
    assert_eq!(reap(-1, None), Reap::End(1));
}
