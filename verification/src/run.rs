//! The `run` command: acquire a sandbox, upload files, execute a command,
//! download files. Each step is taken only when the one before has succeeded.

use vstd::prelude::*;

use crate::cli::{collect_env, cut_at, env_of, law_cut_undoes_join, mapping_error, parse_file_mapping};
use crate::numeric::{dec, dec_i32_text, dec_int, dec_text};
use crate::platform::{debug_list, debug_list_text};
use crate::proto::{distinct_names, pairs};
use crate::protocol::{ExecOutput, ExecOutputView};
use crate::text::{cat2, cat3, cat5, copy_texts, strs, Text};

verus! {

broadcast use vstd::string::group_string_axioms;

/// The arguments of the command.
#[derive(Debug)]
pub struct RunArgs {
    /// Template ID to use.
    pub template: String,
    /// Environment variables.
    pub env: Vec<(String, String)>,
    /// Timeout in milliseconds.
    pub timeout: u64,
    /// Files to upload before running (LOCAL:REMOTE).
    pub upload: Vec<String>,
    /// Files to download after running (REMOTE:LOCAL).
    pub download: Vec<String>,
    /// Output results as JSON.
    pub json: bool,
    /// Command and arguments to execute.
    pub cmd: Vec<String>,
}

/// Where a run stands: which file it reads, sends, fetches or stores.
#[derive(Debug, Clone, Copy, PartialEq, Eq, Structural)]
pub enum RunPhase {
    Acquire,
    Read(usize),
    Send(usize),
    Exec,
    Fetch(usize),
    Store(usize),
    Over,
}

/// How the last step came out.
#[derive(Debug)]
pub enum RunEvent {
    Acquired(String),
    LocalRead(Vec<u8>),
    Uploaded,
    Executed(ExecOutput),
    Downloaded(Vec<u8>),
    Stored,
    /// The step failed, for this reason.
    Failed(String),
}

/// The next step.
#[derive(Debug)]
pub enum RunAction {
    Acquire(String),
    ReadLocal(String),
    Upload { remote: String, data: Vec<u8> },
    Exec { cmd: Vec<String>, timeout_ms: u64 },
    Download(String),
    Store { local: String, data: Vec<u8> },
    Finish,
    Fail(String),
    /// The event does not fit the phase: go on waiting.
    Ignore,
}

pub enum RunEventView {
    Acquired(Text),
    LocalRead(Seq<u8>),
    Uploaded,
    Executed(ExecOutputView),
    Downloaded(Seq<u8>),
    Stored,
    Failed(Text),
}

pub enum RunActionView {
    Acquire(Text),
    ReadLocal(Text),
    Upload { remote: Text, data: Seq<u8> },
    Exec { cmd: Seq<Text>, timeout_ms: u64 },
    Download(Text),
    Store { local: Text, data: Seq<u8> },
    Finish,
    Fail(Text),
    Ignore,
}

impl View for RunEvent {
    type V = RunEventView;

    open spec fn view(&self) -> RunEventView {
        match *self {
            RunEvent::Acquired(v) => RunEventView::Acquired(v@),
            RunEvent::LocalRead(d) => RunEventView::LocalRead(d@),
            RunEvent::Uploaded => RunEventView::Uploaded,
            RunEvent::Executed(o) => RunEventView::Executed(o@),
            RunEvent::Downloaded(d) => RunEventView::Downloaded(d@),
            RunEvent::Stored => RunEventView::Stored,
            RunEvent::Failed(e) => RunEventView::Failed(e@),
        }
    }
}

impl View for RunAction {
    type V = RunActionView;

    open spec fn view(&self) -> RunActionView {
        match *self {
            RunAction::Acquire(t) => RunActionView::Acquire(t@),
            RunAction::ReadLocal(p) => RunActionView::ReadLocal(p@),
            RunAction::Upload { remote, data } => RunActionView::Upload {
                remote: remote@,
                data: data@,
            },
            RunAction::Exec { cmd, timeout_ms } => RunActionView::Exec {
                cmd: strs(cmd@),
                timeout_ms,
            },
            RunAction::Download(p) => RunActionView::Download(p@),
            RunAction::Store { local, data } => RunActionView::Store { local: local@, data: data@ },
            RunAction::Finish => RunActionView::Finish,
            RunAction::Fail(e) => RunActionView::Fail(e@),
            RunAction::Ignore => RunActionView::Ignore,
        }
    }
}

/// The state of a run.
pub struct RunState {
    pub template: Text,
    pub cmd: Seq<Text>,
    pub timeout: u64,
    pub upload: Seq<Text>,
    pub download: Seq<Text>,
    pub json: bool,
    pub phase: RunPhase,
    pub vm_id: Text,
    pub output: Option<ExecOutputView>,
}

/// What a step comes to: the next state, what is told to the user, and the next
/// action.
pub struct RunStep {
    pub state: RunState,
    pub note: Text,
    pub action: RunActionView,
}

/// A note for the user, who gets none where the results are to be read by a
/// program.
pub open spec fn note_of(s: RunState, note: Text) -> Text {
    if s.json {
        seq![]
    } else {
        note
    }
}

/// The end of a run that failed.
pub open spec fn failed(s: RunState, reason: Text) -> RunStep {
    RunStep {
        state: RunState { phase: RunPhase::Over, ..s },
        note: seq![],
        action: RunActionView::Fail(reason),
    }
}

/// What comes when `k` files were uploaded: the next file, or the command.
pub open spec fn next_upload(s: RunState, k: int) -> RunStep {
    if k < s.upload.len() {
        match cut_at(s.upload[k], ':') {
            Some(p) => RunStep {
                state: RunState { phase: RunPhase::Read(k as usize), ..s },
                note: seq![],
                action: RunActionView::ReadLocal(p.0),
            },
            None => failed(s, mapping_error(s.upload[k])),
        }
    } else {
        RunStep {
            state: RunState { phase: RunPhase::Exec, ..s },
            note: note_of(s, "Executing: "@ + debug_list(s.cmd) + " ... "@),
            action: RunActionView::Exec { cmd: s.cmd, timeout_ms: s.timeout },
        }
    }
}

/// What comes when `k` files were downloaded: the next file, or the end.
pub open spec fn next_download(s: RunState, k: int) -> RunStep {
    if k < s.download.len() {
        match cut_at(s.download[k], ':') {
            Some(p) => RunStep {
                state: RunState { phase: RunPhase::Fetch(k as usize), ..s },
                note: note_of(s, "Downloading "@ + p.0 + " -> "@ + p.1 + " ...\n"@),
                action: RunActionView::Download(p.0),
            },
            None => failed(s, mapping_error(s.download[k])),
        }
    } else {
        RunStep {
            state: RunState { phase: RunPhase::Over, ..s },
            note: note_of(s, "Sandbox "@ + s.vm_id + " released to warm pool.\n"@),
            action: RunActionView::Finish,
        }
    }
}

/// `step` with a note before its own.
pub open spec fn noted(note: Text, step: RunStep) -> RunStep {
    RunStep { note: note + step.note, ..step }
}

/// The two parts of a mapping that has them.
pub open spec fn mapped(s: Text) -> (Text, Text) {
    cut_at(s, ':').unwrap()
}

/// The reason for which a run fails in a phase.
pub open spec fn failure_text(s: RunState, reason: Text) -> Text {
    match s.phase {
        RunPhase::Read(k) => "Failed to read "@ + mapped(s.upload[k as int]).0 + ": "@ + reason,
        RunPhase::Send(_) => "Upload failed: "@ + reason,
        RunPhase::Fetch(_) => "Download failed: "@ + reason,
        RunPhase::Store(k) => "Failed to write "@ + mapped(s.download[k as int]).1 + ": "@ + reason,
        _ => reason,
    }
}

/// What an event comes to.
pub open spec fn run_step(s: RunState, ev: RunEventView) -> RunStep {
    match (s.phase, ev) {
        (RunPhase::Over, _) => RunStep { state: s, note: seq![], action: RunActionView::Ignore },
        (_, RunEventView::Failed(e)) => failed(s, failure_text(s, e)),
        (RunPhase::Acquire, RunEventView::Acquired(vm_id)) => noted(
            note_of(s, vm_id + "\n"@),
            next_upload(RunState { vm_id, ..s }, 0),
        ),
        (RunPhase::Read(k), RunEventView::LocalRead(data)) => {
            let p = mapped(s.upload[k as int]);
            RunStep {
                state: RunState { phase: RunPhase::Send(k), ..s },
                note: note_of(s, "Uploading "@ + p.0 + " -> "@ + p.1 + " ...\n"@),
                action: RunActionView::Upload { remote: p.1, data },
            }
        },
        (RunPhase::Send(k), RunEventView::Uploaded) => next_upload(s, k + 1),
        (RunPhase::Exec, RunEventView::Executed(o)) => noted(
            note_of(
                s,
                "done (exit_code="@ + dec_int(o.exit_code as int) + ", duration="@ + dec(
                    o.duration_ms as nat,
                ) + "ms)\n"@,
            ),
            next_download(RunState { output: Some(o), ..s }, 0),
        ),
        (RunPhase::Fetch(k), RunEventView::Downloaded(data)) => RunStep {
            state: RunState { phase: RunPhase::Store(k), ..s },
            note: seq![],
            action: RunActionView::Store { local: mapped(s.download[k as int]).1, data },
        },
        (RunPhase::Store(k), RunEventView::Stored) => next_download(s, k + 1),
        _ => RunStep { state: s, note: seq![], action: RunActionView::Ignore },
    }
}

/// A file that a run deals with has a mapping with two parts.
pub open spec fn run_wf(s: RunState) -> bool {
    match s.phase {
        RunPhase::Read(k) => k < s.upload.len() && cut_at(s.upload[k as int], ':') is Some,
        RunPhase::Send(k) => k < s.upload.len(),
        RunPhase::Fetch(k) => k < s.download.len() && cut_at(s.download[k as int], ':') is Some,
        RunPhase::Store(k) => k < s.download.len() && cut_at(s.download[k as int], ':') is Some,
        _ => true,
    }
}

/// A run of a command in a sandbox.
#[derive(Debug)]
pub struct RunSession {
    template: String,
    cmd: Vec<String>,
    env: Vec<(String, String)>,
    timeout: u64,
    upload: Vec<String>,
    download: Vec<String>,
    json: bool,
    phase: RunPhase,
    vm_id: String,
    output: Option<ExecOutput>,
}

impl View for RunSession {
    type V = RunState;

    closed spec fn view(&self) -> RunState {
        RunState {
            template: self.template@,
            cmd: strs(self.cmd@),
            timeout: self.timeout,
            upload: strs(self.upload@),
            download: strs(self.download@),
            json: self.json,
            phase: self.phase,
            vm_id: self.vm_id@,
            output: match self.output {
                Some(o) => Some(o@),
                None => None,
            },
        }
    }
}

/// The command that a run executes: a shell where none is given.
pub open spec fn command_or_shell(cmd: Seq<Text>) -> Seq<Text> {
    if cmd.len() == 0 {
        seq!["/bin/sh"@]
    } else {
        cmd
    }
}

impl RunSession {
    /// The variables that the command gets.
    pub closed spec fn env_view(&self) -> Seq<(Text, Text)> {
        pairs(self.env@)
    }

    /// No variable is set twice.
    #[verifier::type_invariant]
    spec fn wf(self) -> bool {
        distinct_names(pairs(self.env@))
    }

    /// A run that is about to acquire its sandbox, what is told to the user, and
    /// the first action.
    pub fn start(args: RunArgs) -> (r: (RunSession, String, RunAction))
        ensures
            run_wf(r.0@),
            r.0@ == (RunState {
                template: args.template@,
                cmd: command_or_shell(strs(args.cmd@)),
                timeout: args.timeout,
                upload: strs(args.upload@),
                download: strs(args.download@),
                json: args.json,
                phase: RunPhase::Acquire,
                vm_id: seq![],
                output: None,
            }),
            distinct_names(r.0.env_view()),
            env_of(r.0.env_view()) == env_of(pairs(args.env@)),
            r.1@ == note_of(r.0@, "Acquiring sandbox (template: "@ + args.template@ + ") ... "@),
            r.2@ == RunActionView::Acquire(args.template@),
    {
        let mut cmd = args.cmd;
        if cmd.len() == 0 {
            cmd.push("/bin/sh".to_owned());
        }
        assert(strs(cmd@) =~= command_or_shell(strs(args.cmd@)));
        let vm_id = String::new();
        assert(vm_id@ =~= Seq::<char>::empty());
        let note = if args.json {
            let n = String::new();
            assert(n@ =~= Seq::<char>::empty());
            n
        } else {
            cat3("Acquiring sandbox (template: ", args.template.as_str(), ") ... ")
        };
        let action = RunAction::Acquire(args.template.clone());
        let env = collect_env(args.env);
        let s = RunSession {
            template: args.template,
            cmd,
            env,
            timeout: args.timeout,
            upload: args.upload,
            download: args.download,
            json: args.json,
            phase: RunPhase::Acquire,
            vm_id,
            output: None,
        };
        (s, note, action)
    }

    /// The variables that the command gets.
    pub fn env(&self) -> (r: &Vec<(String, String)>)
        ensures
            pairs(r@) == self.env_view(),
            distinct_names(pairs(r@)),
    {
        proof {
            use_type_invariant(self);
        }
        &self.env
    }

    fn note(&self, text: String) -> (r: String)
        ensures
            r@ == note_of(self@, text@),
    {
        if self.json {
            let n = String::new();
            assert(n@ =~= Seq::<char>::empty());
            n
        } else {
            text
        }
    }

    fn no_note() -> (r: String)
        ensures
            r@ == Seq::<char>::empty(),
    {
        let n = String::new();
        assert(n@ =~= Seq::<char>::empty());
        n
    }

    fn fail(&mut self, reason: String) -> (r: (String, RunAction))
        ensures
            final(self)@ == failed(old(self)@, reason@).state,
            final(self).env_view() == old(self).env_view(),
            r.0@ == failed(old(self)@, reason@).note,
            r.1@ == failed(old(self)@, reason@).action,
    {
        proof {
            use_type_invariant(&*self);
        }
        self.phase = RunPhase::Over;
        (RunSession::no_note(), RunAction::Fail(reason))
    }

    fn upload_next(&mut self, k: usize) -> (r: (String, RunAction))
        ensures
            final(self)@ == next_upload(old(self)@, k as int).state,
            final(self).env_view() == old(self).env_view(),
            r.0@ == next_upload(old(self)@, k as int).note,
            r.1@ == next_upload(old(self)@, k as int).action,
            run_wf(final(self)@),
    {
        proof {
            use_type_invariant(&*self);
        }
        if k < self.upload.len() {
            assert(strs(self.upload@)[k as int] == self.upload@[k as int]@);
            match parse_file_mapping(self.upload[k].as_str()) {
                Ok(p) => {
                    self.phase = RunPhase::Read(k);
                    (RunSession::no_note(), RunAction::ReadLocal(p.0))
                },
                Err(e) => self.fail(e),
            }
        } else {
            self.phase = RunPhase::Exec;
            let note = self.note(
                cat3("Executing: ", debug_list_text(&self.cmd).as_str(), " ... "),
            );
            (note, RunAction::Exec { cmd: copy_texts(&self.cmd), timeout_ms: self.timeout })
        }
    }

    fn download_next(&mut self, k: usize) -> (r: (String, RunAction))
        ensures
            final(self)@ == next_download(old(self)@, k as int).state,
            final(self).env_view() == old(self).env_view(),
            r.0@ == next_download(old(self)@, k as int).note,
            r.1@ == next_download(old(self)@, k as int).action,
            run_wf(final(self)@),
    {
        proof {
            use_type_invariant(&*self);
        }
        if k < self.download.len() {
            assert(strs(self.download@)[k as int] == self.download@[k as int]@);
            match parse_file_mapping(self.download[k].as_str()) {
                Ok(p) => {
                    self.phase = RunPhase::Fetch(k);
                    let note = self.note(
                        cat5("Downloading ", p.0.as_str(), " -> ", p.1.as_str(), " ...\n"),
                    );
                    (note, RunAction::Download(p.0))
                },
                Err(e) => self.fail(e),
            }
        } else {
            self.phase = RunPhase::Over;
            let note = self.note(
                cat3("Sandbox ", self.vm_id.as_str(), " released to warm pool.\n"),
            );
            (note, RunAction::Finish)
        }
    }

    fn failure(&self, reason: String) -> (r: String)
        requires
            run_wf(self@),
        ensures
            r@ == failure_text(self@, reason@),
    {
        match self.phase {
            RunPhase::Read(k) => {
                assert(strs(self.upload@)[k as int] == self.upload@[k as int]@);
                match parse_file_mapping(self.upload[k].as_str()) {
                    Ok(p) => {
                        let mut m = cat3("Failed to read ", p.0.as_str(), ": ");
                        m.append(reason.as_str());
                        m
                    },
                    Err(_) => reason,
                }
            },
            RunPhase::Send(_) => cat2("Upload failed: ", reason.as_str()),
            RunPhase::Fetch(_) => cat2("Download failed: ", reason.as_str()),
            RunPhase::Store(k) => {
                assert(strs(self.download@)[k as int] == self.download@[k as int]@);
                match parse_file_mapping(self.download[k].as_str()) {
                    Ok(p) => {
                        let mut m = cat3("Failed to write ", p.1.as_str(), ": ");
                        m.append(reason.as_str());
                        m
                    },
                    Err(_) => reason,
                }
            },
            _ => reason,
        }
    }

    /// Takes how the last step came out, and says what is told to the user and
    /// what to do next.
    pub fn step(&mut self, event: RunEvent) -> (r: (String, RunAction))
        requires
            run_wf(old(self)@),
        ensures
            run_wf(final(self)@),
            final(self)@ == run_step(old(self)@, event@).state,
            final(self).env_view() == old(self).env_view(),
            r.0@ == run_step(old(self)@, event@).note,
            r.1@ == run_step(old(self)@, event@).action,
    {
        proof {
            use_type_invariant(&*self);
        }
        match (self.phase, event) {
            (RunPhase::Over, _) => (RunSession::no_note(), RunAction::Ignore),
            (_, RunEvent::Failed(e)) => {
                let reason = self.failure(e);
                self.fail(reason)
            },
            (RunPhase::Acquire, RunEvent::Acquired(vm_id)) => {
                let first = self.note(cat2(vm_id.as_str(), "\n"));
                self.vm_id = vm_id;
                let (second, action) = self.upload_next(0);
                (cat2(first.as_str(), second.as_str()), action)
            },
            (RunPhase::Read(k), RunEvent::LocalRead(data)) => {
                assert(strs(self.upload@)[k as int] == self.upload@[k as int]@);
                match parse_file_mapping(self.upload[k].as_str()) {
                    Ok(p) => {
                        self.phase = RunPhase::Send(k);
                        let note = self.note(
                            cat5("Uploading ", p.0.as_str(), " -> ", p.1.as_str(), " ...\n"),
                        );
                        (note, RunAction::Upload { remote: p.1, data })
                    },
                    Err(e) => (RunSession::no_note(), RunAction::Fail(e)),
                }
            },
            (RunPhase::Send(k), RunEvent::Uploaded) => {
                assert(k < self.upload@.len());
                let done: usize = self.upload.len();
                assert(k < done);
                self.upload_next(k + 1)
            },
            (RunPhase::Exec, RunEvent::Executed(o)) => {
                let mut text = cat5(
                    "done (exit_code=",
                    dec_i32_text(o.exit_code).as_str(),
                    ", duration=",
                    dec_text(o.duration_ms).as_str(),
                    "ms)\n",
                );
                let first = self.note(text);
                self.output = Some(o);
                let (second, action) = self.download_next(0);
                (cat2(first.as_str(), second.as_str()), action)
            },
            (RunPhase::Fetch(k), RunEvent::Downloaded(data)) => {
                assert(strs(self.download@)[k as int] == self.download@[k as int]@);
                match parse_file_mapping(self.download[k].as_str()) {
                    Ok(p) => {
                        self.phase = RunPhase::Store(k);
                        (RunSession::no_note(), RunAction::Store { local: p.1, data })
                    },
                    Err(e) => (RunSession::no_note(), RunAction::Fail(e)),
                }
            },
            (RunPhase::Store(k), RunEvent::Stored) => {
                let done: usize = self.download.len();
                assert(k < done);
                self.download_next(k + 1)
            },
            _ => (RunSession::no_note(), RunAction::Ignore),
        }
    }

    /// The identifier of the VM, the command, and what it left behind.
    pub fn report(&self) -> (r: (&str, &Vec<String>, &Option<ExecOutput>))
        ensures
            r.0@ == self@.vm_id,
            strs(r.1@) == self@.cmd,
            match *r.2 {
                Some(o) => self@.output == Some(o@),
                None => self@.output is None,
            },
    {
        (self.vm_id.as_str(), &self.cmd, &self.output)
    }
}

// ---------------------------------------------------------------------
// Laws
// ---------------------------------------------------------------------

/// How many steps of a run lie before a phase: of each upload two, then the
/// command, of each download two.
pub open spec fn steps_before(s: RunState) -> int {
    let u = s.upload.len() as int;
    let d = s.download.len() as int;
    match s.phase {
        RunPhase::Acquire => 0,
        RunPhase::Read(k) => 1 + 2 * k,
        RunPhase::Send(k) => 2 + 2 * k,
        RunPhase::Exec => 1 + 2 * u,
        RunPhase::Fetch(k) => 2 + 2 * u + 2 * k,
        RunPhase::Store(k) => 3 + 2 * u + 2 * k,
        RunPhase::Over => 2 + 2 * u + 2 * d,
    }
}

/// A run takes its steps in order and leaves none out: an event that fits leads
/// to the very next step, unless the run fails; an event that does not fit
/// changes nothing. So a run that finishes has uploaded every file before the
/// command, and downloaded every file after it.
pub proof fn law_run_in_order(s: RunState, ev: RunEventView)
    requires
        run_wf(s),
        s.upload.len() < usize::MAX,
        s.download.len() < usize::MAX,
    ensures
        run_step(s, ev).action is Ignore ==> run_step(s, ev).state == s,
        run_step(s, ev).action is Fail ==> run_step(s, ev).state.phase == RunPhase::Over,
        !(run_step(s, ev).action is Ignore) && !(run_step(s, ev).action is Fail) ==> steps_before(
            run_step(s, ev).state,
        ) == steps_before(s) + 1,
        run_step(s, ev).action is Finish ==> run_step(s, ev).state.phase == RunPhase::Over,
        run_wf(run_step(s, ev).state),
{
}

/// With results for a program, nothing is told to the user.
pub proof fn law_json_is_quiet(s: RunState, ev: RunEventView)
    requires
        s.json,
    ensures
        run_step(s, ev).note == Seq::<char>::empty(),
        run_step(s, ev).state.json,
{
    assert(run_step(s, ev).note =~= Seq::<char>::empty());
}

/// What a finished run reports is what the command left behind.
pub proof fn law_run_keeps_output(s: RunState, ev: RunEventView)
    ensures
        (s.phase == RunPhase::Exec && ev is Executed) ==> run_step(s, ev).state.output == Some(
            ev->Executed_0,
        ),
        s.phase != RunPhase::Exec ==> run_step(s, ev).state.output == s.output,
{
}

// ---------------------------------------------------------------------
// Whole runs
// ---------------------------------------------------------------------

/// A mapping from what precedes the first colon to what follows it.
pub open spec fn is_mapping(m: Text, from: Text, to: Text) -> bool {
    m == from + seq![':'] + to && !from.contains(':')
}

/// The states and the actions of a run, and the events that led from each to the
/// next.
spec fn is_run(
    args: RunArgs,
    states: Seq<RunState>,
    events: Seq<RunEventView>,
    actions: Seq<RunActionView>,
) -> bool {
    &&& states.len() == actions.len() == events.len() + 1
    &&& states[0].template == args.template@
    &&& states[0].cmd == command_or_shell(strs(args.cmd@))
    &&& states[0].timeout == args.timeout
    &&& states[0].upload == strs(args.upload@)
    &&& states[0].download == strs(args.download@)
    &&& states[0].phase == RunPhase::Acquire
    &&& actions[0] == RunActionView::Acquire(args.template@)
    &&& forall|i: int|
        0 <= i < events.len() ==> {
            let step = run_step(states[i], #[trigger] events[i]);
            &&& states[i + 1] == step.state
            &&& actions[i + 1] == step.action
            &&& !(step.action is Fail)
            &&& !(step.action is Ignore)
        }
}

/// Two states of one run.
spec fn same_run(a: RunState, b: RunState) -> bool {
    &&& a.template == b.template
    &&& a.cmd == b.cmd
    &&& a.timeout == b.timeout
    &&& a.upload == b.upload
    &&& a.download == b.download
    &&& a.json == b.json
}

proof fn lemma_one_step(s: RunState, ev: RunEventView)
    requires
        run_wf(s),
        s.upload.len() <= usize::MAX,
        s.download.len() <= usize::MAX,
        !(run_step(s, ev).action is Fail),
        !(run_step(s, ev).action is Ignore),
    ensures
        ({
            let t = run_step(s, ev).state;
            let act = run_step(s, ev).action;
            &&& run_wf(t)
            &&& same_run(s, t)
            &&& steps_before(t) == steps_before(s) + 1
            &&& match s.phase {
                RunPhase::Acquire => ev is Acquired && t.vm_id == ev->Acquired_0 && t.output
                    == s.output,
                RunPhase::Exec => ev is Executed && t.output == Some(ev->Executed_0) && t.vm_id
                    == s.vm_id,
                _ => t.vm_id == s.vm_id && t.output == s.output,
            }
            &&& match t.phase {
                RunPhase::Acquire => false,
                RunPhase::Read(k) => act == RunActionView::ReadLocal(mapped(s.upload[k as int]).0),
                RunPhase::Send(k) => ev is LocalRead && act == (RunActionView::Upload {
                    remote: mapped(s.upload[k as int]).1,
                    data: ev->LocalRead_0,
                }),
                RunPhase::Exec => act == (RunActionView::Exec { cmd: s.cmd, timeout_ms: s.timeout }),
                RunPhase::Fetch(k) => act == RunActionView::Download(
                    mapped(s.download[k as int]).0,
                ),
                RunPhase::Store(k) => ev is Downloaded && act == (RunActionView::Store {
                    local: mapped(s.download[k as int]).1,
                    data: ev->Downloaded_0,
                }),
                RunPhase::Over => act is Finish,
            }
        }),
{
}

proof fn lemma_run_at(
    args: RunArgs,
    states: Seq<RunState>,
    events: Seq<RunEventView>,
    actions: Seq<RunActionView>,
    j: int,
)
    requires
        is_run(args, states, events, actions),
        0 <= j < states.len(),
    ensures
        run_wf(states[j]),
        steps_before(states[j]) == j,
        states[j].upload == strs(args.upload@),
        states[j].download == strs(args.download@),
        states[j].cmd == if args.cmd@.len() == 0 {
            seq!["/bin/sh"@]
        } else {
            strs(args.cmd@)
        },
        states[j].timeout == args.timeout,
        j > 0 ==> events[0] is Acquired && states[j].vm_id == events[0]->Acquired_0,
        j > 1 + 2 * args.upload@.len() ==> events[1 + 2 * args.upload@.len() as int] is Executed
            && states[j].output == Some(events[1 + 2 * args.upload@.len() as int]->Executed_0),
    decreases j,
{
    assert(args.upload.len() == args.upload@.len());
    assert(args.download.len() == args.download@.len());
    if j > 0 {
        lemma_run_at(args, states, events, actions, j - 1);
        let ev = events[j - 1];
        assert(states[j - 1 + 1] == run_step(states[j - 1], ev).state);
        lemma_one_step(states[j - 1], ev);
    }
}

/// The `j`-th action, by the phase that the run is in.
proof fn lemma_run_action(
    args: RunArgs,
    states: Seq<RunState>,
    events: Seq<RunEventView>,
    actions: Seq<RunActionView>,
    j: int,
)
    requires
        is_run(args, states, events, actions),
        0 < j < states.len(),
    ensures
        run_wf(states[j]),
        steps_before(states[j]) == j,
        states[j].upload == strs(args.upload@),
        states[j].download == strs(args.download@),
        match states[j].phase {
            RunPhase::Acquire => false,
            RunPhase::Read(k) => actions[j] == RunActionView::ReadLocal(
                mapped(args.upload@[k as int]@).0,
            ),
            RunPhase::Send(k) => events[j - 1] is LocalRead && actions[j] == (RunActionView::Upload {
                remote: mapped(args.upload@[k as int]@).1,
                data: events[j - 1]->LocalRead_0,
            }),
            RunPhase::Exec => actions[j] == (RunActionView::Exec {
                cmd: if args.cmd@.len() == 0 {
                    seq!["/bin/sh"@]
                } else {
                    strs(args.cmd@)
                },
                timeout_ms: args.timeout,
            }),
            RunPhase::Fetch(k) => actions[j] == RunActionView::Download(
                mapped(args.download@[k as int]@).0,
            ),
            RunPhase::Store(k) => events[j - 1] is Downloaded && actions[j] == (
            RunActionView::Store {
                local: mapped(args.download@[k as int]@).1,
                data: events[j - 1]->Downloaded_0,
            }),
            RunPhase::Over => actions[j] is Finish,
        },
{
    assert(args.upload.len() == args.upload@.len());
    assert(args.download.len() == args.download@.len());
    lemma_run_at(args, states, events, actions, j - 1);
    lemma_run_at(args, states, events, actions, j);
    assert(states[j - 1 + 1] == run_step(states[j - 1], events[j - 1]).state);
    lemma_one_step(states[j - 1], events[j - 1]);
}

proof fn lemma_run_upload(
    args: RunArgs,
    states: Seq<RunState>,
    events: Seq<RunEventView>,
    actions: Seq<RunActionView>,
    k: int,
    l: Text,
    r: Text,
)
    requires
        is_run(args, states, events, actions),
        0 <= k < args.upload@.len(),
        is_mapping(args.upload@[k]@, l, r),
    ensures
        1 + 2 * k < actions.len() ==> actions[1 + 2 * k] == RunActionView::ReadLocal(l),
        2 + 2 * k < actions.len() ==> events[1 + 2 * k] is LocalRead && actions[2 + 2 * k] == (
        RunActionView::Upload { remote: r, data: events[1 + 2 * k]->LocalRead_0 }),
{
    law_cut_undoes_join(l, r, ':');
    if 1 + 2 * k < actions.len() {
        lemma_run_action(args, states, events, actions, 1 + 2 * k);
        assert(states[1 + 2 * k].phase == RunPhase::Read(k as usize));
    }
    if 2 + 2 * k < actions.len() {
        lemma_run_action(args, states, events, actions, 2 + 2 * k);
        assert(states[2 + 2 * k].phase == RunPhase::Send(k as usize));
    }
}

proof fn lemma_run_download(
    args: RunArgs,
    states: Seq<RunState>,
    events: Seq<RunEventView>,
    actions: Seq<RunActionView>,
    k: int,
    r: Text,
    l: Text,
)
    requires
        is_run(args, states, events, actions),
        0 <= k < args.download@.len(),
        is_mapping(args.download@[k]@, r, l),
    ensures
        ({
            let j = 2 + 2 * args.upload@.len() + 2 * k;
            &&& j < actions.len() ==> actions[j] == RunActionView::Download(r)
            &&& j + 1 < actions.len() ==> events[j] is Downloaded && actions[j + 1] == (
            RunActionView::Store { local: l, data: events[j]->Downloaded_0 })
        }),
{
    law_cut_undoes_join(r, l, ':');
    let j = 2 + 2 * args.upload@.len() + 2 * k;
    if j < actions.len() {
        lemma_run_action(args, states, events, actions, j);
        assert(states[j].phase == RunPhase::Fetch(k as usize));
    }
    if j + 1 < actions.len() {
        lemma_run_action(args, states, events, actions, j + 1);
        assert(states[j + 1].phase == RunPhase::Store(k as usize));
    }
}

/// A run without failures does exactly what its arguments ask for, in order. It
/// acquires a sandbox of the template. Of each upload it reads what precedes the
/// colon and uploads what came to what follows it. It executes the command, or a
/// shell where none was given. Of each download it fetches what precedes the
/// colon and stores what came to what follows it. What it reports is the sandbox
/// that it got and what the command left behind.
pub proof fn law_run_moves_files(
    args: RunArgs,
    first: (RunSession, String, RunAction),
    states: Seq<RunState>,
    events: Seq<RunEventView>,
    actions: Seq<RunActionView>,
)
    requires
        call_ensures(RunSession::start, (args,), first),
        states.len() == actions.len() == events.len() + 1,
        states[0] == first.0@,
        actions[0] == first.2@,
        forall|i: int|
            0 <= i < events.len() ==> (exists|s: &mut RunSession, e: RunEvent, r: (String, RunAction)|
                #[trigger] call_ensures(RunSession::step, (s, e), r) && s@ == states[i] && e@
                    == events[i] && final(s)@ == states[i + 1] && r.1@ == actions[i + 1]) && !(
            #[trigger] actions[i + 1] is Fail) && !(actions[i + 1] is Ignore),
    ensures
        ({
            let u = args.upload@.len() as int;
            let d = args.download@.len() as int;
            let n = actions.len() as int;
            &&& n <= 3 + 2 * u + 2 * d
            &&& forall|i: int| 0 <= i < n ==> ((#[trigger] actions[i]) is Finish <==> i == 2 + 2 * u
                + 2 * d)
            &&& actions[0] == RunActionView::Acquire(args.template@)
            &&& forall|k: int, l: Text, r: Text|
                0 <= k < u && 1 + 2 * k < n && #[trigger] is_mapping(args.upload@[k]@, l, r)
                    ==> actions[1 + 2 * k] == RunActionView::ReadLocal(l)
            &&& forall|k: int, l: Text, r: Text|
                0 <= k < u && 2 + 2 * k < n && #[trigger] is_mapping(args.upload@[k]@, l, r)
                    ==> events[1 + 2 * k] is LocalRead && actions[2 + 2 * k] == (
                RunActionView::Upload { remote: r, data: events[1 + 2 * k]->LocalRead_0 })
            &&& 1 + 2 * u < n ==> actions[1 + 2 * u] == (RunActionView::Exec {
                cmd: if args.cmd@.len() == 0 {
                    seq!["/bin/sh"@]
                } else {
                    strs(args.cmd@)
                },
                timeout_ms: args.timeout,
            })
            &&& forall|k: int, r: Text, l: Text|
                0 <= k < d && 2 + 2 * u + 2 * k < n && #[trigger] is_mapping(
                    args.download@[k]@,
                    r,
                    l,
                ) ==> actions[2 + 2 * u + 2 * k] == RunActionView::Download(r)
            &&& forall|k: int, r: Text, l: Text|
                0 <= k < d && 3 + 2 * u + 2 * k < n && #[trigger] is_mapping(
                    args.download@[k]@,
                    r,
                    l,
                ) ==> events[2 + 2 * u + 2 * k] is Downloaded && actions[3 + 2 * u + 2 * k] == (
                RunActionView::Store { local: l, data: events[2 + 2 * u + 2 * k]->Downloaded_0 })
            &&& n > 1 ==> events[0] is Acquired && states.last().vm_id == events[0]->Acquired_0
            &&& n > 2 + 2 * u ==> events[1 + 2 * u] is Executed && states.last().output == Some(
                events[1 + 2 * u]->Executed_0,
            )
        }),
{
    let u = args.upload@.len() as int;
    let d = args.download@.len() as int;
    let n = actions.len() as int;
    assert forall|i: int| 0 <= i < events.len() implies {
        let step = run_step(states[i], #[trigger] events[i]);
        &&& states[i + 1] == step.state
        &&& actions[i + 1] == step.action
        &&& !(step.action is Fail)
        &&& !(step.action is Ignore)
    } by {
        assert(!(actions[i + 1] is Fail));
    }
    assert(is_run(args, states, events, actions));
    lemma_run_at(args, states, events, actions, n - 1);
    assert forall|i: int| 0 <= i < n implies ((#[trigger] actions[i]) is Finish <==> i == 2 + 2 * u
        + 2 * d) by {
        if i > 0 {
            lemma_run_action(args, states, events, actions, i);
        }
    }
    assert forall|k: int, l: Text, r: Text|
        0 <= k < u && 1 + 2 * k < n && #[trigger] is_mapping(args.upload@[k]@, l, r) implies actions[1
        + 2 * k] == RunActionView::ReadLocal(l) by {
        lemma_run_upload(args, states, events, actions, k, l, r);
    }
    assert forall|k: int, l: Text, r: Text|
        0 <= k < u && 2 + 2 * k < n && #[trigger] is_mapping(args.upload@[k]@, l, r) implies events[1
        + 2 * k] is LocalRead && actions[2 + 2 * k] == (RunActionView::Upload {
        remote: r,
        data: events[1 + 2 * k]->LocalRead_0,
    }) by {
        lemma_run_upload(args, states, events, actions, k, l, r);
    }
    if 1 + 2 * u < n {
        lemma_run_action(args, states, events, actions, 1 + 2 * u);
        assert(states[1 + 2 * u].phase == RunPhase::Exec);
    }
    assert forall|k: int, r: Text, l: Text|
        0 <= k < d && 2 + 2 * u + 2 * k < n && #[trigger] is_mapping(
            args.download@[k]@,
            r,
            l,
        ) implies actions[2 + 2 * u + 2 * k] == RunActionView::Download(r) by {
        lemma_run_download(args, states, events, actions, k, r, l);
    }
    assert forall|k: int, r: Text, l: Text|
        0 <= k < d && 3 + 2 * u + 2 * k < n && #[trigger] is_mapping(
            args.download@[k]@,
            r,
            l,
        ) implies events[2 + 2 * u + 2 * k] is Downloaded && actions[3 + 2 * u + 2 * k] == (
    RunActionView::Store { local: l, data: events[2 + 2 * u + 2 * k]->Downloaded_0 }) by {
        lemma_run_download(args, states, events, actions, k, r, l);
        assert(3 + 2 * u + 2 * k == 2 + 2 * u + 2 * k + 1);
    }
}

/// A step that fails ends the run, and the user learns why: whatever was under
/// way, the reason stands at the end of what is reported, and nothing that comes
/// later changes it.
pub proof fn law_failed_run_is_over(
    s: &mut RunSession,
    reason: String,
    r: (String, RunAction),
    later: &mut RunSession,
    event: RunEvent,
    q: (String, RunAction),
)
    requires
        run_wf(old(s)@),
        old(s)@.phase != RunPhase::Over,
        call_ensures(RunSession::step, (s, RunEvent::Failed(reason)), r),
        *old(later) == *final(s),
        call_ensures(RunSession::step, (later, event), q),
    ensures
        r.1@ matches RunActionView::Fail(t) && reason@.is_suffix_of(t),
        q.1@ is Ignore,
        final(later)@ == final(s)@,
{
    let ev = RunEvent::Failed(reason);
    assert(ev@ == RunEventView::Failed(reason@));
    let t = failure_text(old(s)@, reason@);
    assert(t.subrange(t.len() - reason@.len(), t.len() as int) =~= reason@);
}

/// The report of a session is what it knows.
pub proof fn law_report_is_the_outcome(
    s: &RunSession,
    r: (&str, &Vec<String>, &Option<ExecOutput>),
)
    requires
        call_ensures(RunSession::report, (s,), r),
    ensures
        r.0@ == s@.vm_id,
        strs(r.1@) == s@.cmd,
        s@.output matches Some(o) ==> *r.2 is Some && r.2->Some_0@ == o,
        s@.output is None ==> *r.2 is None,
{
}

/// A mapping without a colon ends the run before anything is moved for it, and
/// the user is told which one it was.
pub proof fn law_bad_mapping_fails(
    s: &mut RunSession,
    event: RunEvent,
    r: (String, RunAction),
    k: usize,
)
    requires
        run_wf(old(s)@),
        call_ensures(RunSession::step, (s, event), r),
        k < old(s)@.upload.len(),
        !old(s)@.upload[k as int].contains(':'),
        old(s)@.phase == RunPhase::Acquire && k == 0 && event is Acquired || k > 0 && old(s)@.phase
            == RunPhase::Send((k - 1) as usize) && event is Uploaded,
    ensures
        r.1@ == RunActionView::Fail(
            "invalid mapping format, expected `SRC:DST`: `"@ + old(s)@.upload[k as int] + "`"@,
        ),
        final(s)@.phase == RunPhase::Over,
{
    let m = old(s)@.upload[k as int];
    assert(event is Acquired ==> event@ is Acquired);
    assert(event is Uploaded ==> event@ is Uploaded);
    crate::text::lemma_first_index(m, ':');
}

/// The user, unless a program reads the results, is told of each file where it
/// comes from and where it goes, which VM was acquired, how the command ended,
/// and which VM is released.
pub proof fn law_user_is_told(
    s: &mut RunSession,
    vm_id: String,
    r: (String, RunAction),
    t: &mut RunSession,
    data: Vec<u8>,
    q: (String, RunAction),
    k: usize,
    from: Text,
    to: Text,
    u: &mut RunSession,
    o: ExecOutput,
    p: (String, RunAction),
    v: &mut RunSession,
    w: (String, RunAction),
    n: usize,
)
    requires
        run_wf(old(s)@) && run_wf(old(t)@) && run_wf(old(u)@) && run_wf(old(v)@),
        old(s)@.phase == RunPhase::Acquire && !old(s)@.json,
        call_ensures(RunSession::step, (s, RunEvent::Acquired(vm_id)), r),
        old(t)@.phase == RunPhase::Read(k) && !old(t)@.json,
        is_mapping(old(t)@.upload[k as int], from, to),
        call_ensures(RunSession::step, (t, RunEvent::LocalRead(data)), q),
        old(u)@.phase == RunPhase::Exec && !old(u)@.json,
        call_ensures(RunSession::step, (u, RunEvent::Executed(o)), p),
        old(v)@.phase == RunPhase::Store(n) && !old(v)@.json,
        n + 1 < old(v)@.download.len(),
        is_mapping(old(v)@.download[n + 1], from, to),
        call_ensures(RunSession::step, (v, RunEvent::Stored), w),
    ensures
        (vm_id@ + "\n"@).is_prefix_of(r.0@),
        q.0@ == "Uploading "@ + from + " -> "@ + to + " ...\n"@,
        ("done (exit_code="@ + dec_int(o.exit_code as int) + ", duration="@ + dec(
            o.duration_ms as nat,
        ) + "ms)\n"@).is_prefix_of(p.0@),
        w.0@ == "Downloading "@ + from + " -> "@ + to + " ...\n"@,
{
    law_cut_undoes_join(from, to, ':');
    assert(RunEvent::Acquired(vm_id)@ == RunEventView::Acquired(vm_id@));
    assert(RunEvent::LocalRead(data)@ == RunEventView::LocalRead(data@));
    assert(RunEvent::Executed(o)@ == RunEventView::Executed(o@));
    assert(RunEvent::Stored@ == RunEventView::Stored);
    let a = vm_id@ + "\n"@;
    assert(r.0@.subrange(0, a.len() as int) =~= a);
    let b = "done (exit_code="@ + dec_int(o.exit_code as int) + ", duration="@ + dec(
        o.duration_ms as nat,
    ) + "ms)\n"@;
    assert(p.0@.subrange(0, b.len() as int) =~= b);
}

/// A run that is done says so, and names the VM that goes back to the pool.
pub proof fn law_end_is_told(s: &mut RunSession, r: (String, RunAction), k: usize)
    requires
        run_wf(old(s)@),
        old(s)@.phase == RunPhase::Store(k),
        k + 1 == old(s)@.download.len(),
        !old(s)@.json,
        call_ensures(RunSession::step, (s, RunEvent::Stored), r),
    ensures
        r.1@ is Finish,
        r.0@ == "Sandbox "@ + old(s)@.vm_id + " released to warm pool.\n"@,
{
    assert(RunEvent::Stored@ == RunEventView::Stored);
}

/// A failure names the file that it is about: the one that could not be read, or
/// the one that could not be written.
pub proof fn law_failure_names_the_file(
    s: &mut RunSession,
    k: usize,
    from: Text,
    to: Text,
    reason: String,
    r: (String, RunAction),
    t: &mut RunSession,
    q: (String, RunAction),
)
    requires
        run_wf(old(s)@) && run_wf(old(t)@),
        old(s)@.phase == RunPhase::Read(k),
        is_mapping(old(s)@.upload[k as int], from, to),
        call_ensures(RunSession::step, (s, RunEvent::Failed(reason)), r),
        old(t)@.phase == RunPhase::Store(k),
        is_mapping(old(t)@.download[k as int], from, to),
        call_ensures(RunSession::step, (t, RunEvent::Failed(reason)), q),
    ensures
        r.1 matches RunAction::Fail(e) && e@ == "Failed to read "@ + from + ": "@ + reason@,
        q.1 matches RunAction::Fail(e) && e@ == "Failed to write "@ + to + ": "@ + reason@,
{
    law_cut_undoes_join(from, to, ':');
    assert(RunEvent::Failed(reason)@ == RunEventView::Failed(reason@));
    assert(r.1@ is Fail && q.1@ is Fail);
}

/// What came for a file is what is moved on, to the other side of its mapping.
pub proof fn law_bytes_are_moved_on(
    s: &mut RunSession,
    k: usize,
    from: Text,
    to: Text,
    data: Vec<u8>,
    r: (String, RunAction),
    t: &mut RunSession,
    q: (String, RunAction),
)
    requires
        run_wf(old(s)@) && run_wf(old(t)@),
        old(s)@.phase == RunPhase::Read(k),
        is_mapping(old(s)@.upload[k as int], from, to),
        call_ensures(RunSession::step, (s, RunEvent::LocalRead(data)), r),
        old(t)@.phase == RunPhase::Fetch(k),
        is_mapping(old(t)@.download[k as int], from, to),
        call_ensures(RunSession::step, (t, RunEvent::Downloaded(data)), q),
    ensures
        r.1 matches RunAction::Upload { remote, data: d } && remote@ == to && d@ == data@,
        q.1 matches RunAction::Store { local, data: d } && local@ == to && d@ == data@,
        final(s)@.phase == RunPhase::Send(k),
        final(t)@.phase == RunPhase::Store(k),
{
    law_cut_undoes_join(from, to, ':');
    assert(RunEvent::LocalRead(data)@ == RunEventView::LocalRead(data@));
    assert(RunEvent::Downloaded(data)@ == RunEventView::Downloaded(data@));
    assert(r.1@ is Upload && q.1@ is Store);
}

} // verus!
