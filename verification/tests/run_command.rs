use coffer::protocol::ExecOutput;
use coffer::run::{RunAction, RunArgs, RunEvent, RunSession};

fn args() -> RunArgs {
    RunArgs {
        template: "alpine".to_string(),
        env: vec![("A".to_string(), "1".to_string()), ("A".to_string(), "2".to_string())],
        timeout: 30000,
        upload: vec!["l1:r1".to_string(), "l2:r2".to_string()],
        download: vec!["r3:l3".to_string()],
        json: false,
        cmd: vec!["echo".to_string(), "hi".to_string()],
    }
}

fn output(code: i32) -> ExecOutput {
    ExecOutput { exit_code: code, stdout: "hi\n".to_string(), stderr: String::new(), duration_ms: 12 }
}

#[test]
fn a_run_takes_its_steps_in_order() {
    let (mut s, note, action) = RunSession::start(args());
    assert_eq!(note, "Acquiring sandbox (template: alpine) ... ");
    assert!(matches!(action, RunAction::Acquire(t) if t == "alpine"));
    assert_eq!(s.env(), &vec![("A".to_string(), "2".to_string())]);

    let (note, action) = s.step(RunEvent::Acquired("vm1".to_string()));
    assert_eq!(note, "vm1\n");
    assert!(matches!(action, RunAction::ReadLocal(p) if p == "l1"));

    let (note, action) = s.step(RunEvent::LocalRead(vec![1, 2]));
    assert_eq!(note, "Uploading l1 -> r1 ...\n");
    assert!(matches!(action, RunAction::Upload { remote, data } if remote == "r1" && data == vec![1, 2]));

    let (_, action) = s.step(RunEvent::Uploaded);
    assert!(matches!(action, RunAction::ReadLocal(p) if p == "l2"));
    s.step(RunEvent::LocalRead(vec![]));

    let (note, action) = s.step(RunEvent::Uploaded);
    assert_eq!(note, "Executing: [\"echo\", \"hi\"] ... ");
    match action {
        RunAction::Exec { cmd, timeout_ms } => {
            assert_eq!(cmd, vec!["echo".to_string(), "hi".to_string()]);
            assert_eq!(timeout_ms, 30000);
        }
        other => panic!("{:?}", other),
    }

    let (note, action) = s.step(RunEvent::Executed(output(3)));
    assert_eq!(note, "done (exit_code=3, duration=12ms)\nDownloading r3 -> l3 ...\n");
    assert!(matches!(action, RunAction::Download(p) if p == "r3"));

    let (_, action) = s.step(RunEvent::Downloaded(vec![9]));
    assert!(matches!(action, RunAction::Store { local, data } if local == "l3" && data == vec![9]));

    let (note, action) = s.step(RunEvent::Stored);
    assert_eq!(note, "Sandbox vm1 released to warm pool.\n");
    assert!(matches!(action, RunAction::Finish));

    let (vm_id, cmd, out) = s.report();
    assert_eq!(vm_id, "vm1");
    assert_eq!(cmd.len(), 2);
    assert_eq!(out.as_ref().unwrap().exit_code, 3);

    // Nothing happens after the end.
    let (note, action) = s.step(RunEvent::Stored);
    assert_eq!(note, "");
    assert!(matches!(action, RunAction::Ignore));
}

#[test]
fn without_a_command_a_shell_runs() {
    let mut a = args();
    a.cmd = Vec::new();
    a.upload = Vec::new();
    let (mut s, _, _) = RunSession::start(a);
    let (note, action) = s.step(RunEvent::Acquired("v".to_string()));
    assert_eq!(note, "v\nExecuting: [\"/bin/sh\"] ... ");
    assert!(matches!(action, RunAction::Exec { cmd, .. } if cmd == vec!["/bin/sh".to_string()]));
}

#[test]
fn json_keeps_quiet() {
    let mut a = args();
    a.json = true;
    a.download = Vec::new();
    let (mut s, note, _) = RunSession::start(a);
    assert_eq!(note, "");
    assert_eq!(s.step(RunEvent::Acquired("v".to_string())).0, "");
    assert_eq!(s.step(RunEvent::LocalRead(vec![])).0, "");
    s.step(RunEvent::Uploaded);
    s.step(RunEvent::LocalRead(vec![]));
    assert_eq!(s.step(RunEvent::Uploaded).0, "");
    let (note, action) = s.step(RunEvent::Executed(output(0)));
    assert_eq!(note, "");
    assert!(matches!(action, RunAction::Finish));
}

#[test]
fn failures_end_a_run_with_their_reason() {
    let fail = |events: Vec<RunEvent>| -> String {
        let (mut s, _, _) = RunSession::start(args());
        let mut last = String::new();
        for e in events {
            if let RunAction::Fail(m) = s.step(e).1 {
                last = m;
            }
        }
        last
    };
    let failed = || RunEvent::Failed("why".to_string());
    let acquired = || RunEvent::Acquired("v".to_string());
    let read = || RunEvent::LocalRead(vec![]);
    assert_eq!(fail(vec![failed()]), "why");
    assert_eq!(fail(vec![acquired(), failed()]), "Failed to read l1: why");
    assert_eq!(fail(vec![acquired(), read(), failed()]), "Upload failed: why");
    let to_exec = || vec![acquired(), read(), RunEvent::Uploaded, read(), RunEvent::Uploaded];
    let mut v = to_exec();
    v.push(failed());
    assert_eq!(fail(v), "why");
    let mut v = to_exec();
    v.push(RunEvent::Executed(output(0)));
    v.push(failed());
    assert_eq!(fail(v), "Download failed: why");
    let mut v = to_exec();
    v.push(RunEvent::Executed(output(0)));
    v.push(RunEvent::Downloaded(vec![]));
    v.push(failed());
    assert_eq!(fail(v), "Failed to write l3: why");
}

#[test]
fn a_bad_mapping_ends_the_run_where_it_comes() {
    let mut a = args();
    a.upload = vec!["l1:r1".to_string(), "bad".to_string()];
    let (mut s, _, _) = RunSession::start(a);
    s.step(RunEvent::Acquired("v".to_string()));
    s.step(RunEvent::LocalRead(vec![]));
    let (_, action) = s.step(RunEvent::Uploaded);
    assert!(matches!(action, RunAction::Fail(m) if m == "invalid mapping format, expected `SRC:DST`: `bad`"));
}

#[test]
fn events_that_do_not_fit_are_passed_over() {
    let (mut s, _, _) = RunSession::start(args());
    assert!(matches!(s.step(RunEvent::Uploaded).1, RunAction::Ignore));
    assert!(matches!(s.step(RunEvent::Acquired("v".to_string())).1, RunAction::ReadLocal(_)));
}
