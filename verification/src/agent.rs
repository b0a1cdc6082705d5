//! The agent inside the guest: what it answers to each request, how it launches
//! commands, and how it runs an interactive session.

use vstd::prelude::*;

use crate::platform::{lossy, lossy_text};
use crate::proto::{opt_bytes, opt_text, pairs, AgentRequest, AgentResponse, BodyView, ErrorCode,
    EventView, ExecEvent, RequestView, ResponseBody, ResponseView, WindowSize, COFFER_AGENT_VERSION};
use crate::error::ErrorView;
use crate::protocol::{exec_result, shown, ExecOutputView, HostActionView, Shown};
use crate::text::{cat2, strs, Text};

verus! {

broadcast use vstd::string::group_string_axioms;

// ---------------------------------------------------------------------
// Answers
// ---------------------------------------------------------------------

/// An error with a given code.
pub open spec fn error_reply(id: Text, code: ErrorCode, message: Text) -> ResponseView {
    ResponseView::Error { request_id: id, code, message }
}

/// The sign of life that the agent gives.
pub open spec fn pong_reply(id: Text, uptime_secs: u64) -> ResponseView {
    ResponseView::Success {
        request_id: id,
        body: BodyView::Pong { agent_version: COFFER_AGENT_VERSION@, uptime_secs },
    }
}

fn error_response(request_id: String, code: ErrorCode, message: &str) -> (r: AgentResponse)
    ensures
        r@ == error_reply(request_id@, code, message@),
{
    AgentResponse::Error { request_id, code, message: message.to_owned() }
}

fn pong(request_id: String, uptime_secs: u64) -> (r: AgentResponse)
    ensures
        r@ == pong_reply(request_id@, uptime_secs),
{
    AgentResponse::Success {
        request_id,
        body: ResponseBody::Pong { agent_version: COFFER_AGENT_VERSION.to_owned(), uptime_secs },
    }
}

// ---------------------------------------------------------------------
// The active terminal
// ---------------------------------------------------------------------

/// The terminal of the running interactive session, by its descriptor.
#[derive(Debug)]
pub struct ActivePty {
    pub fd: Option<i32>,
}

impl ActivePty {
    pub fn new() -> (r: ActivePty)
        ensures
            r.fd is None,
    {
        ActivePty { fd: None }
    }

    /// A session with a terminal begins.
    pub fn set(&mut self, fd: i32)
        ensures
            final(self).fd == Some(fd),
    {
        self.fd = Some(fd);
    }

    /// The session ends.
    pub fn clear(&mut self)
        ensures
            final(self).fd is None,
    {
        self.fd = None;
    }
}

// ---------------------------------------------------------------------
// Launching commands
// ---------------------------------------------------------------------

/// How a command is launched. Without a directory it runs where the agent runs.
#[derive(Debug)]
pub struct LaunchSpec {
    pub program: String,
    pub args: Vec<String>,
    pub env: Vec<(String, String)>,
    pub dir: Option<String>,
    pub stdio: Stdio,
}

/// Where input and output of a command go.
#[derive(Debug)]
pub enum Stdio {
    /// Output is piped. Input is piped too where there is some, else there is none.
    Captured { stdin: Option<Vec<u8>> },
    /// All three are piped, and this is written to the input at once.
    Pipes { greeting: Vec<u8> },
    /// All three are a terminal of the given size.
    Pty { size: Option<WindowSize> },
}

pub enum StdioView {
    Captured { stdin: Option<Seq<u8>> },
    Pipes { greeting: Seq<u8> },
    Pty { size: Option<WindowSize> },
}

impl View for Stdio {
    type V = StdioView;

    open spec fn view(&self) -> StdioView {
        match *self {
            Stdio::Captured { stdin } => StdioView::Captured { stdin: opt_bytes(stdin) },
            Stdio::Pipes { greeting } => StdioView::Pipes { greeting: greeting@ },
            Stdio::Pty { size } => StdioView::Pty { size },
        }
    }
}

pub struct LaunchView {
    pub program: Text,
    pub args: Seq<Text>,
    pub env: Seq<(Text, Text)>,
    pub dir: Option<Text>,
    pub stdio: StdioView,
}

impl View for LaunchSpec {
    type V = LaunchView;

    open spec fn view(&self) -> LaunchView {
        LaunchView {
            program: self.program@,
            args: strs(self.args@),
            env: pairs(self.env@),
            dir: opt_text(self.dir),
            stdio: self.stdio@,
        }
    }
}

/// The first word of `cmd` and the others.
fn split_command(cmd: Vec<String>) -> (r: (String, Vec<String>))
    requires
        cmd@.len() > 0,
    ensures
        r.0@ == strs(cmd@)[0],
        strs(r.1@) == strs(cmd@).skip(1),
{
    let mut args = cmd;
    let program = args.remove(0);
    assert(strs(args@) =~= strs(cmd@).skip(1));
    (program, args)
}

/// How an interactive command is launched: in the root directory where none is
/// given; with a terminal where one was asked for, else with pipes and an empty
/// line as first input.
pub open spec fn interactive_launch(
    cmd: Seq<Text>,
    env: Seq<(Text, Text)>,
    working_dir: Option<Text>,
    tty: bool,
    window_size: Option<WindowSize>,
) -> LaunchView {
    LaunchView {
        program: cmd[0],
        args: cmd.skip(1),
        env,
        dir: Some(
            match working_dir {
                Some(d) => d,
                None => "/"@,
            },
        ),
        stdio: if tty {
            StdioView::Pty { size: window_size }
        } else {
            StdioView::Pipes { greeting: seq![10u8] }
        },
    }
}

/// How a captured command is launched.
pub open spec fn captured_launch(
    cmd: Seq<Text>,
    env: Seq<(Text, Text)>,
    working_dir: Option<Text>,
    stdin: Option<Seq<u8>>,
) -> LaunchView {
    LaunchView {
        program: cmd[0],
        args: cmd.skip(1),
        env,
        dir: working_dir,
        stdio: StdioView::Captured { stdin },
    }
}

/// How an interactive session begins: with a launch, or with the answer to an
/// empty command.
#[derive(Debug)]
pub enum InteractiveStart {
    Refuse(AgentResponse),
    Launch(LaunchSpec, InteractiveExec),
}

/// Begins an interactive session.
pub fn start_interactive(
    request_id: String,
    cmd: Vec<String>,
    env: Vec<(String, String)>,
    working_dir: Option<String>,
    tty: bool,
    window_size: Option<WindowSize>,
) -> (r: InteractiveStart)
    ensures
        cmd@.len() == 0 ==> (r matches InteractiveStart::Refuse(a) && a@ == error_reply(
            request_id@,
            ErrorCode::InvalidRequest,
            "Empty command"@,
        )),
        cmd@.len() > 0 ==> (r matches InteractiveStart::Launch(l, s) && l@ == interactive_launch(
            strs(cmd@),
            pairs(env@),
            opt_text(working_dir),
            tty,
            window_size,
        ) && s@ == initial_exec(request_id@)),
{
    if cmd.len() == 0 {
        return InteractiveStart::Refuse(
            error_response(request_id, ErrorCode::InvalidRequest, "Empty command"),
        );
    }
    let (program, args) = split_command(cmd);
    let dir = match working_dir {
        Some(d) => d,
        None => "/".to_owned(),
    };
    let stdio = if tty {
        Stdio::Pty { size: window_size }
    } else {
        let mut greeting: Vec<u8> = Vec::new();
        greeting.push(10);
        assert(greeting@ =~= seq![10u8]);
        Stdio::Pipes { greeting }
    };
    InteractiveStart::Launch(
        LaunchSpec { program, args, env, dir: Some(dir), stdio },
        InteractiveExec { request_id, input_open: true, output_open: true, exit: None, over: false },
    )
}

// ---------------------------------------------------------------------
// The interactive session
// ---------------------------------------------------------------------

/// What happens during an interactive session.
#[derive(Debug)]
pub enum AgentEvent {
    /// The command wrote to its standard output.
    Stdout(Vec<u8>),
    /// The command wrote to its standard error.
    Stderr(Vec<u8>),
    /// All output of the command was read.
    OutputClosed,
    /// The command ended, with an exit code unless a signal ended it.
    Exited(Option<i32>),
    /// The end of the command could not be awaited.
    WaitFailed(String),
    /// Bytes came from the host; none where it closed the connection.
    Input(Vec<u8>),
    InputFailed,
    /// Input could not be handed to the command.
    WriteFailed(String),
    /// A message could not be sent to the host.
    SendFailed(String),
}

/// What the agent does about an event.
#[derive(Debug)]
pub enum AgentAction {
    Nothing,
    /// Send this message.
    Send(AgentResponse),
    /// Write these bytes to the input of the command.
    WriteInput(Vec<u8>),
    /// Close the input of the command.
    CloseInput,
    /// Send these two messages; the session is over.
    Finish(AgentResponse, AgentResponse),
    /// The session failed.
    Fail(String),
}

pub enum AgentEventView {
    Stdout(Seq<u8>),
    Stderr(Seq<u8>),
    OutputClosed,
    Exited(Option<i32>),
    WaitFailed(Text),
    Input(Seq<u8>),
    InputFailed,
    WriteFailed(Text),
    SendFailed(Text),
}

pub enum AgentActionView {
    Nothing,
    Send(ResponseView),
    WriteInput(Seq<u8>),
    CloseInput,
    Finish(ResponseView, ResponseView),
    Fail(Text),
}

impl View for AgentEvent {
    type V = AgentEventView;

    open spec fn view(&self) -> AgentEventView {
        match *self {
            AgentEvent::Stdout(b) => AgentEventView::Stdout(b@),
            AgentEvent::Stderr(b) => AgentEventView::Stderr(b@),
            AgentEvent::OutputClosed => AgentEventView::OutputClosed,
            AgentEvent::Exited(c) => AgentEventView::Exited(c),
            AgentEvent::WaitFailed(e) => AgentEventView::WaitFailed(e@),
            AgentEvent::Input(b) => AgentEventView::Input(b@),
            AgentEvent::InputFailed => AgentEventView::InputFailed,
            AgentEvent::WriteFailed(e) => AgentEventView::WriteFailed(e@),
            AgentEvent::SendFailed(e) => AgentEventView::SendFailed(e@),
        }
    }
}

impl View for AgentAction {
    type V = AgentActionView;

    open spec fn view(&self) -> AgentActionView {
        match *self {
            AgentAction::Nothing => AgentActionView::Nothing,
            AgentAction::Send(m) => AgentActionView::Send(m@),
            AgentAction::WriteInput(b) => AgentActionView::WriteInput(b@),
            AgentAction::CloseInput => AgentActionView::CloseInput,
            AgentAction::Finish(a, b) => AgentActionView::Finish(a@, b@),
            AgentAction::Fail(e) => AgentActionView::Fail(e@),
        }
    }
}

/// The state of an interactive session: whether the input of the command is
/// open, whether it may still write, its exit code once it ended, and whether
/// the session is over.
pub struct ExecState {
    pub request_id: Text,
    pub input_open: bool,
    pub output_open: bool,
    pub exit: Option<i32>,
    pub over: bool,
}

pub open spec fn initial_exec(request_id: Text) -> ExecState {
    ExecState { request_id, input_open: true, output_open: true, exit: None, over: false }
}

/// The exit code that the agent reports: minus one for a command that a signal
/// ended.
pub open spec fn reported_code(code: Option<i32>) -> i32 {
    match code {
        Some(c) => c,
        None => -1i32,
    }
}

/// A message that carries an event.
pub open spec fn event_message(id: Text, event: EventView) -> ResponseView {
    ResponseView::Event { request_id: id, event }
}

/// The final answer of an interactive session.
pub open spec fn final_message(id: Text, exit_code: i32) -> ResponseView {
    ResponseView::Success {
        request_id: id,
        body: BodyView::Exec { exit_code, stdout: seq![], stderr: seq![], duration_ms: 0 },
    }
}

/// The end of a session.
pub open spec fn finish(id: Text, exit_code: i32) -> AgentActionView {
    AgentActionView::Finish(
        event_message(id, EventView::Exited { exit_code }),
        final_message(id, exit_code),
    )
}

/// The next state and the action for an event. Output is forwarded at any time;
/// input is handed on while the command runs and its input is open; the session
/// is over once the command has ended and all its output was forwarded.
pub open spec fn exec_step(s: ExecState, ev: AgentEventView) -> (ExecState, AgentActionView) {
    if s.over {
        (s, AgentActionView::Nothing)
    } else {
        match ev {
            AgentEventView::Stdout(b) => (
                s,
                AgentActionView::Send(
                    event_message(s.request_id, EventView::Stdout { chunk: lossy(b) }),
                ),
            ),
            AgentEventView::Stderr(b) => (
                s,
                AgentActionView::Send(
                    event_message(s.request_id, EventView::Stderr { chunk: lossy(b) }),
                ),
            ),
            AgentEventView::OutputClosed => match s.exit {
                Some(code) => (
                    ExecState { output_open: false, over: true, ..s },
                    finish(s.request_id, code),
                ),
                None => (ExecState { output_open: false, ..s }, AgentActionView::Nothing),
            },
            AgentEventView::Exited(c) => if s.exit is Some {
                (s, AgentActionView::Nothing)
            } else if s.output_open {
                (ExecState { exit: Some(reported_code(c)), ..s }, AgentActionView::Nothing)
            } else {
                (
                    ExecState { exit: Some(reported_code(c)), over: true, ..s },
                    finish(s.request_id, reported_code(c)),
                )
            },
            AgentEventView::WaitFailed(e) => (
                ExecState { over: true, ..s },
                AgentActionView::Fail(e),
            ),
            AgentEventView::Input(b) => if s.exit is Some || !s.input_open {
                (s, AgentActionView::Nothing)
            } else if b.len() == 0 {
                (ExecState { input_open: false, ..s }, AgentActionView::CloseInput)
            } else {
                (s, AgentActionView::WriteInput(b))
            },
            AgentEventView::InputFailed => if s.exit is Some || !s.input_open {
                (s, AgentActionView::Nothing)
            } else {
                (ExecState { input_open: false, ..s }, AgentActionView::CloseInput)
            },
            AgentEventView::WriteFailed(e) => (
                ExecState { over: true, ..s },
                AgentActionView::Fail(e),
            ),
            AgentEventView::SendFailed(e) => (
                ExecState { over: true, ..s },
                AgentActionView::Fail(e),
            ),
        }
    }
}

/// The agent's side of an interactive session.
#[derive(Debug)]
pub struct InteractiveExec {
    request_id: String,
    input_open: bool,
    output_open: bool,
    exit: Option<i32>,
    over: bool,
}

impl View for InteractiveExec {
    type V = ExecState;

    closed spec fn view(&self) -> ExecState {
        ExecState {
            request_id: self.request_id@,
            input_open: self.input_open,
            output_open: self.output_open,
            exit: self.exit,
            over: self.over,
        }
    }
}

/// The two messages that end a session.
fn closing_messages(request_id: &String, exit_code: i32) -> (r: AgentAction)
    ensures
        r@ == finish(request_id@, exit_code),
{
    let empty_out = String::new();
    let empty_err = String::new();
    assert(empty_out@ =~= Seq::<char>::empty());
    assert(empty_err@ =~= Seq::<char>::empty());
    AgentAction::Finish(
        AgentResponse::Event {
            request_id: request_id.clone(),
            event: ExecEvent::Exited { exit_code },
        },
        AgentResponse::Success {
            request_id: request_id.clone(),
            body: ResponseBody::Exec {
                exit_code,
                stdout: empty_out,
                stderr: empty_err,
                duration_ms: 0,
            },
        },
    )
}

impl InteractiveExec {
    /// Takes an event and says what to do.
    pub fn step(&mut self, event: AgentEvent) -> (r: AgentAction)
        ensures
            final(self)@ == exec_step(old(self)@, event@).0,
            r@ == exec_step(old(self)@, event@).1,
    {
        if self.over {
            return AgentAction::Nothing;
        }
        match event {
            AgentEvent::Stdout(b) => AgentAction::Send(
                AgentResponse::Event {
                    request_id: self.request_id.clone(),
                    event: ExecEvent::Stdout { chunk: lossy_text(b.as_slice()) },
                },
            ),
            AgentEvent::Stderr(b) => AgentAction::Send(
                AgentResponse::Event {
                    request_id: self.request_id.clone(),
                    event: ExecEvent::Stderr { chunk: lossy_text(b.as_slice()) },
                },
            ),
            AgentEvent::OutputClosed => {
                self.output_open = false;
                match self.exit {
                    Some(code) => {
                        self.over = true;
                        closing_messages(&self.request_id, code)
                    },
                    None => AgentAction::Nothing,
                }
            },
            AgentEvent::Exited(c) => {
                if self.exit.is_some() {
                    return AgentAction::Nothing;
                }
                let code: i32 = match c {
                    Some(c) => c,
                    None => -1,
                };
                self.exit = Some(code);
                if self.output_open {
                    AgentAction::Nothing
                } else {
                    self.over = true;
                    closing_messages(&self.request_id, code)
                }
            },
            AgentEvent::WaitFailed(e) => {
                self.over = true;
                AgentAction::Fail(e)
            },
            AgentEvent::Input(b) => {
                if self.exit.is_some() || !self.input_open {
                    AgentAction::Nothing
                } else if b.len() == 0 {
                    self.input_open = false;
                    AgentAction::CloseInput
                } else {
                    AgentAction::WriteInput(b)
                }
            },
            AgentEvent::InputFailed => {
                if self.exit.is_some() || !self.input_open {
                    AgentAction::Nothing
                } else {
                    self.input_open = false;
                    AgentAction::CloseInput
                }
            },
            AgentEvent::WriteFailed(e) => {
                self.over = true;
                AgentAction::Fail(e)
            },
            AgentEvent::SendFailed(e) => {
                self.over = true;
                AgentAction::Fail(e)
            },
        }
    }
}

// ---------------------------------------------------------------------
// Requests
// ---------------------------------------------------------------------

/// What the agent has to do for a request other than an interactive one.
#[derive(Debug)]
pub enum Handling {
    /// Answer at once.
    Reply(AgentResponse),
    /// Run a command to its end, within the time limit where there is one.
    Run { request_id: String, launch: LaunchSpec, timeout_ms: Option<u64> },
    /// Make the parent directory, write the file, and set its mode where one is
    /// given.
    Write { request_id: String, path: String, data: Vec<u8>, mode: Option<u32> },
    /// Read the file.
    Read { request_id: String, path: String },
    /// Give the terminal its new size, then answer.
    Resize { fd: i32, size: WindowSize, reply: AgentResponse },
}

pub enum HandlingView {
    Reply(ResponseView),
    Run { request_id: Text, launch: LaunchView, timeout_ms: Option<u64> },
    Write { request_id: Text, path: Text, data: Seq<u8>, mode: Option<u32> },
    Read { request_id: Text, path: Text },
    Resize { fd: i32, size: WindowSize, reply: ResponseView },
}

impl View for Handling {
    type V = HandlingView;

    open spec fn view(&self) -> HandlingView {
        match *self {
            Handling::Reply(r) => HandlingView::Reply(r@),
            Handling::Run { request_id, launch, timeout_ms } => HandlingView::Run {
                request_id: request_id@,
                launch: launch@,
                timeout_ms,
            },
            Handling::Write { request_id, path, data, mode } => HandlingView::Write {
                request_id: request_id@,
                path: path@,
                data: data@,
                mode,
            },
            Handling::Read { request_id, path } => HandlingView::Read {
                request_id: request_id@,
                path: path@,
            },
            Handling::Resize { fd, size, reply } => HandlingView::Resize { fd, size, reply: reply@ },
        }
    }
}

/// What the agent has to do for a request.
pub open spec fn handling(req: RequestView, active_pty: Option<i32>, uptime_secs: u64)
    -> HandlingView {
    match req {
        RequestView::Ping { request_id } => HandlingView::Reply(
            pong_reply(request_id, uptime_secs),
        ),
        RequestView::Exec {
            request_id,
            cmd,
            env,
            working_dir,
            stdin,
            timeout_ms,
            interactive,
            ..
        } => if interactive {
            HandlingView::Reply(
                error_reply(
                    request_id,
                    ErrorCode::InternalError,
                    "Interactive exec should be handled by handle_stream"@,
                ),
            )
        } else if cmd.len() == 0 {
            HandlingView::Reply(
                error_reply(request_id, ErrorCode::InvalidRequest, "Empty command"@),
            )
        } else {
            HandlingView::Run {
                request_id,
                launch: captured_launch(cmd, env, working_dir, stdin),
                timeout_ms,
            }
        },
        RequestView::Upload { request_id, guest_path, data, mode } => HandlingView::Write {
            request_id,
            path: guest_path,
            data,
            mode,
        },
        RequestView::Download { request_id, guest_path } => HandlingView::Read {
            request_id,
            path: guest_path,
        },
        RequestView::ResizePty { cols, rows } => match active_pty {
            Some(fd) => HandlingView::Resize {
                fd,
                size: WindowSize { rows, cols },
                reply: pong_reply("resize"@, uptime_secs),
            },
            None => HandlingView::Reply(
                error_reply("resize"@, ErrorCode::InvalidRequest, "No active PTY session"@),
            ),
        },
    }
}

/// What the agent has to do for a request, given the active terminal and the age
/// of the agent.
pub fn process_request(req: AgentRequest, active: &ActivePty, uptime_secs: u64) -> (r: Handling)
    ensures
        r@ == handling(req@, active.fd, uptime_secs),
{
    match req {
        AgentRequest::Ping { request_id } => Handling::Reply(pong(request_id, uptime_secs)),
        AgentRequest::Exec {
            request_id,
            cmd,
            env,
            working_dir,
            stdin,
            timeout_ms,
            interactive,
            ..
        } => {
            if interactive {
                Handling::Reply(
                    error_response(
                        request_id,
                        ErrorCode::InternalError,
                        "Interactive exec should be handled by handle_stream",
                    ),
                )
            } else {
                exec_command(request_id, cmd, env, working_dir, stdin, timeout_ms)
            }
        },
        AgentRequest::Upload { request_id, guest_path, data, mode } => Handling::Write {
            request_id,
            path: guest_path,
            data,
            mode,
        },
        AgentRequest::Download { request_id, guest_path } => Handling::Read {
            request_id,
            path: guest_path,
        },
        AgentRequest::ResizePty { cols, rows } => match active.fd {
            Some(fd) => Handling::Resize {
                fd,
                size: WindowSize { rows, cols },
                reply: pong("resize".to_owned(), uptime_secs),
            },
            None => Handling::Reply(
                error_response(
                    "resize".to_owned(),
                    ErrorCode::InvalidRequest,
                    "No active PTY session",
                ),
            ),
        },
    }
}

/// What the agent has to do to run a command to its end.
pub fn exec_command(
    request_id: String,
    cmd: Vec<String>,
    env: Vec<(String, String)>,
    working_dir: Option<String>,
    stdin: Option<Vec<u8>>,
    timeout_ms: Option<u64>,
) -> (r: Handling)
    ensures
        cmd@.len() == 0 ==> r@ == HandlingView::Reply(
            error_reply(request_id@, ErrorCode::InvalidRequest, "Empty command"@),
        ),
        cmd@.len() > 0 ==> r@ == (HandlingView::Run {
            request_id: request_id@,
            launch: captured_launch(
                strs(cmd@),
                pairs(env@),
                opt_text(working_dir),
                opt_bytes(stdin),
            ),
            timeout_ms,
        }),
{
    if cmd.len() == 0 {
        return Handling::Reply(
            error_response(request_id, ErrorCode::InvalidRequest, "Empty command"),
        );
    }
    let (program, args) = split_command(cmd);
    Handling::Run {
        request_id,
        launch: LaunchSpec { program, args, env, dir: working_dir, stdio: Stdio::Captured { stdin } },
        timeout_ms,
    }
}

/// How a command that was run to its end came out.
#[derive(Debug)]
pub enum RunOutcome {
    SpawnFailed(String),
    /// The time limit passed first.
    TimedOut,
    WaitFailed(String),
    /// The command ended, with an exit code unless a signal ended it.
    Exited { code: Option<i32>, stdout: Vec<u8>, stderr: Vec<u8> },
}

pub enum RunOutcomeView {
    SpawnFailed(Text),
    TimedOut,
    WaitFailed(Text),
    Exited { code: Option<i32>, stdout: Seq<u8>, stderr: Seq<u8> },
}

impl View for RunOutcome {
    type V = RunOutcomeView;

    open spec fn view(&self) -> RunOutcomeView {
        match *self {
            RunOutcome::SpawnFailed(e) => RunOutcomeView::SpawnFailed(e@),
            RunOutcome::TimedOut => RunOutcomeView::TimedOut,
            RunOutcome::WaitFailed(e) => RunOutcomeView::WaitFailed(e@),
            RunOutcome::Exited { code, stdout, stderr } => RunOutcomeView::Exited {
                code,
                stdout: stdout@,
                stderr: stderr@,
            },
        }
    }
}

/// The answer to a request to run a command.
pub open spec fn run_answer(id: Text, outcome: RunOutcomeView, duration_ms: u64) -> ResponseView {
    match outcome {
        RunOutcomeView::SpawnFailed(e) => error_reply(
            id,
            ErrorCode::ExecFailed,
            "Failed to spawn: "@ + e,
        ),
        RunOutcomeView::TimedOut => error_reply(id, ErrorCode::ExecFailed, "Execution timed out"@),
        RunOutcomeView::WaitFailed(e) => error_reply(id, ErrorCode::ExecFailed, e),
        RunOutcomeView::Exited { code, stdout, stderr } => ResponseView::Success {
            request_id: id,
            body: BodyView::Exec {
                exit_code: reported_code(code),
                stdout: lossy(stdout),
                stderr: lossy(stderr),
                duration_ms,
            },
        },
    }
}

/// The answer to a request to run a command, whose run took `duration_ms`.
pub fn run_reply(request_id: String, outcome: RunOutcome, duration_ms: u64) -> (r: AgentResponse)
    ensures
        r@ == run_answer(request_id@, outcome@, duration_ms),
{
    match outcome {
        RunOutcome::SpawnFailed(e) => error_response(
            request_id,
            ErrorCode::ExecFailed,
            cat2("Failed to spawn: ", e.as_str()).as_str(),
        ),
        RunOutcome::TimedOut => error_response(
            request_id,
            ErrorCode::ExecFailed,
            "Execution timed out",
        ),
        RunOutcome::WaitFailed(e) => error_response(request_id, ErrorCode::ExecFailed, e.as_str()),
        RunOutcome::Exited { code, stdout, stderr } => {
            let exit_code: i32 = match code {
                Some(c) => c,
                None => -1,
            };
            AgentResponse::Success {
                request_id,
                body: ResponseBody::Exec {
                    exit_code,
                    stdout: lossy_text(stdout.as_slice()),
                    stderr: lossy_text(stderr.as_slice()),
                    duration_ms,
                },
            }
        },
    }
}

/// How far writing a file got.
#[derive(Debug)]
pub enum UploadOutcome {
    DirFailed(String),
    WriteFailed(String),
    Written,
}

/// The answer to an upload of `len` bytes. A mode that could not be set is not
/// reported.
pub open spec fn upload_answer(id: Text, outcome: UploadOutcome, len: u64) -> ResponseView {
    match outcome {
        UploadOutcome::DirFailed(e) => error_reply(
            id,
            ErrorCode::IoError,
            "Create dir failed: "@ + e@,
        ),
        UploadOutcome::WriteFailed(e) => error_reply(
            id,
            ErrorCode::IoError,
            "Write failed: "@ + e@,
        ),
        UploadOutcome::Written => ResponseView::Success {
            request_id: id,
            body: BodyView::Upload { bytes_written: len },
        },
    }
}

/// The answer to an upload of `len` bytes.
pub fn upload_reply(request_id: String, outcome: UploadOutcome, len: u64) -> (r: AgentResponse)
    ensures
        r@ == upload_answer(request_id@, outcome, len),
{
    match outcome {
        UploadOutcome::DirFailed(e) => error_response(
            request_id,
            ErrorCode::IoError,
            cat2("Create dir failed: ", e.as_str()).as_str(),
        ),
        UploadOutcome::WriteFailed(e) => error_response(
            request_id,
            ErrorCode::IoError,
            cat2("Write failed: ", e.as_str()).as_str(),
        ),
        UploadOutcome::Written => AgentResponse::Success {
            request_id,
            body: ResponseBody::Upload { bytes_written: len },
        },
    }
}

/// The answer to a download, given the content of the file or why it could not
/// be read.
pub open spec fn download_answer(id: Text, content: Result<Seq<u8>, Text>) -> ResponseView {
    match content {
        Ok(data) => ResponseView::Success { request_id: id, body: BodyView::Download { data } },
        Err(e) => error_reply(id, ErrorCode::IoError, "Read failed: "@ + e),
    }
}

/// The answer to a download, given the content of the file or why it could not
/// be read.
pub fn download_reply(request_id: String, content: Result<Vec<u8>, String>) -> (r: AgentResponse)
    ensures
        r@ == download_answer(
            request_id@,
            match content {
                Ok(data) => Ok(data@),
                Err(e) => Err(e@),
            },
        ),
{
    match content {
        Ok(data) => AgentResponse::Success { request_id, body: ResponseBody::Download { data } },
        Err(e) => error_response(
            request_id,
            ErrorCode::IoError,
            cat2("Read failed: ", e.as_str()).as_str(),
        ),
    }
}

// ---------------------------------------------------------------------
// Connections
// ---------------------------------------------------------------------

/// What happens on a connection of the host.
#[derive(Debug)]
pub enum ConnEvent {
    /// The host closed the connection.
    Eof,
    ReadFailed(String),
    /// A line was decoded.
    Request(AgentRequest),
    /// A line could not be decoded.
    BadRequest(String),
    /// An interactive session came to its end.
    InteractiveEnded,
    /// An interactive session failed.
    InteractiveFailed(String),
}

/// What the agent does on a connection.
#[derive(Debug)]
pub enum ConnAction {
    /// Send this answer, then read the next line.
    Reply(AgentResponse),
    /// Deal with the request, send the answer, then read the next line.
    Process(AgentRequest),
    /// Hand the connection to an interactive session.
    Interactive {
        request_id: String,
        cmd: Vec<String>,
        env: Vec<(String, String)>,
        working_dir: Option<String>,
        tty: bool,
        window_size: Option<WindowSize>,
    },
    /// Send this answer, then close the connection.
    ReplyAndClose(AgentResponse),
    Close,
    Fail(String),
}

pub enum ConnEventView {
    Eof,
    ReadFailed(Text),
    Request(RequestView),
    BadRequest(Text),
    InteractiveEnded,
    InteractiveFailed(Text),
}

pub enum ConnActionView {
    Reply(ResponseView),
    Process(RequestView),
    Interactive {
        request_id: Text,
        cmd: Seq<Text>,
        env: Seq<(Text, Text)>,
        working_dir: Option<Text>,
        tty: bool,
        window_size: Option<WindowSize>,
    },
    ReplyAndClose(ResponseView),
    Close,
    Fail(Text),
}

impl View for ConnEvent {
    type V = ConnEventView;

    open spec fn view(&self) -> ConnEventView {
        match *self {
            ConnEvent::Eof => ConnEventView::Eof,
            ConnEvent::ReadFailed(e) => ConnEventView::ReadFailed(e@),
            ConnEvent::Request(r) => ConnEventView::Request(r@),
            ConnEvent::BadRequest(e) => ConnEventView::BadRequest(e@),
            ConnEvent::InteractiveEnded => ConnEventView::InteractiveEnded,
            ConnEvent::InteractiveFailed(e) => ConnEventView::InteractiveFailed(e@),
        }
    }
}

impl View for ConnAction {
    type V = ConnActionView;

    open spec fn view(&self) -> ConnActionView {
        match *self {
            ConnAction::Reply(r) => ConnActionView::Reply(r@),
            ConnAction::Process(r) => ConnActionView::Process(r@),
            ConnAction::Interactive { request_id, cmd, env, working_dir, tty, window_size } =>
            ConnActionView::Interactive {
                request_id: request_id@,
                cmd: strs(cmd@),
                env: pairs(env@),
                working_dir: opt_text(working_dir),
                tty,
                window_size,
            },
            ConnAction::ReplyAndClose(r) => ConnActionView::ReplyAndClose(r@),
            ConnAction::Close => ConnActionView::Close,
            ConnAction::Fail(e) => ConnActionView::Fail(e@),
        }
    }
}

/// What the agent does for each event on a connection. Requests are answered one
/// by one; an interactive request takes the connection over and is its last.
pub open spec fn conn_action(ev: ConnEventView) -> ConnActionView {
    match ev {
        ConnEventView::Eof => ConnActionView::Close,
        ConnEventView::ReadFailed(e) => ConnActionView::Fail(e),
        ConnEventView::BadRequest(e) => ConnActionView::Reply(
            error_reply("unknown"@, ErrorCode::InvalidRequest, "JSON parse error: "@ + e),
        ),
        ConnEventView::Request(req) => match req {
            RequestView::Exec {
                interactive: true,
                request_id,
                cmd,
                env,
                working_dir,
                tty,
                window_size,
                ..
            } => ConnActionView::Interactive { request_id, cmd, env, working_dir, tty, window_size },
            _ => ConnActionView::Process(req),
        },
        ConnEventView::InteractiveEnded => ConnActionView::Close,
        ConnEventView::InteractiveFailed(e) => ConnActionView::ReplyAndClose(
            error_reply("unknown"@, ErrorCode::InternalError, "Interactive exec failed: "@ + e),
        ),
    }
}

/// What the agent does for an event on a connection.
pub fn handle_stream(event: ConnEvent) -> (r: ConnAction)
    ensures
        r@ == conn_action(event@),
{
    match event {
        ConnEvent::Eof => ConnAction::Close,
        ConnEvent::ReadFailed(e) => ConnAction::Fail(e),
        ConnEvent::BadRequest(e) => ConnAction::Reply(
            error_response(
                "unknown".to_owned(),
                ErrorCode::InvalidRequest,
                cat2("JSON parse error: ", e.as_str()).as_str(),
            ),
        ),
        ConnEvent::Request(req) => match req {
            AgentRequest::Exec {
                interactive: true,
                request_id,
                cmd,
                env,
                working_dir,
                tty,
                window_size,
                ..
            } => ConnAction::Interactive { request_id, cmd, env, working_dir, tty, window_size },
            other => ConnAction::Process(other),
        },
        ConnEvent::InteractiveEnded => ConnAction::Close,
        ConnEvent::InteractiveFailed(e) => ConnAction::ReplyAndClose(
            error_response(
                "unknown".to_owned(),
                ErrorCode::InternalError,
                cat2("Interactive exec failed: ", e.as_str()).as_str(),
            ),
        ),
    }
}

/// The identifier that a request carries, if any.
pub open spec fn request_id_of(req: RequestView) -> Text {
    match req {
        RequestView::Exec { request_id, .. } => request_id,
        RequestView::Upload { request_id, .. } => request_id,
        RequestView::Download { request_id, .. } => request_id,
        RequestView::Ping { request_id } => request_id,
        RequestView::ResizePty { .. } => "resize"@,
    }
}

/// The identifier that a message carries.
pub open spec fn response_id_of(m: ResponseView) -> Text {
    match m {
        ResponseView::Success { request_id, .. } => request_id,
        ResponseView::Error { request_id, .. } => request_id,
        ResponseView::Event { request_id, .. } => request_id,
    }
}

/// Every answer carries the identifier of its request; the answer to a change of
/// size, which carries none, is always named the same.
pub proof fn law_answers_carry_id(req: RequestView, active_pty: Option<i32>, uptime_secs: u64)
    ensures
        match handling(req, active_pty, uptime_secs) {
            HandlingView::Reply(m) => response_id_of(m) == request_id_of(req),
            HandlingView::Run { request_id, .. } => request_id == request_id_of(req) && (forall|
                o: RunOutcomeView,
                d: u64,
            |
                response_id_of(#[trigger] run_answer(request_id, o, d)) == request_id),
            HandlingView::Write { request_id, .. } => request_id == request_id_of(req) && (forall|
                o: UploadOutcome,
                n: u64,
            |
                response_id_of(#[trigger] upload_answer(request_id, o, n)) == request_id),
            HandlingView::Read { request_id, .. } => request_id == request_id_of(req) && (forall|
                c: Result<Seq<u8>, Text>,
            |
                response_id_of(#[trigger] download_answer(request_id, c)) == request_id),
            HandlingView::Resize { reply, .. } => response_id_of(reply) == request_id_of(req),
        },
{
}

/// The host understands the answer to a captured command: it gets back the exit
/// code and the output of the command, or an error where there is none.
pub proof fn law_exec_answer_understood(id: Text, outcome: RunOutcomeView, duration_ms: u64)
    ensures
        match outcome {
            RunOutcomeView::Exited { code, stdout, stderr } => exec_result(
                run_answer(id, outcome, duration_ms),
            ) == Ok::<ExecOutputView, ErrorView>(
                ExecOutputView {
                    exit_code: reported_code(code),
                    stdout: lossy(stdout),
                    stderr: lossy(stderr),
                    duration_ms,
                },
            ),
            _ => exec_result(run_answer(id, outcome, duration_ms)) is Err,
        },
{
}

// ---------------------------------------------------------------------
// The first process
// ---------------------------------------------------------------------

/// The error that there are no children.
pub const ECHILD: i32 = 10;

/// What the first process of the guest does after it waited for its children.
#[derive(Debug, Clone, Copy, PartialEq, Eq, Structural)]
pub enum Reap {
    /// A child was reaped: wait for the next one.
    Again,
    /// End with this status.
    End(i32),
}

/// What the first process of the guest does after it waited for its children:
/// it ends well once there are none, and badly where it cannot wait.
pub fn reap(waited: i32, errno: Option<i32>) -> (r: Reap)
    ensures
        r == if waited >= 0 {
            Reap::Again
        } else if errno == Some(ECHILD) {
            Reap::End(0)
        } else {
            Reap::End(1)
        },
{
    if waited >= 0 {
        Reap::Again
    } else {
        match errno {
            Some(e) => {
                if e == ECHILD {
                    Reap::End(0)
                } else {
                    Reap::End(1)
                }
            },
            None => Reap::End(1),
        }
    }
}

// ---------------------------------------------------------------------
// Laws of the interactive session
// ---------------------------------------------------------------------

/// The state after a run of events.
pub open spec fn exec_run(s: ExecState, evs: Seq<AgentEventView>) -> ExecState
    decreases evs.len(),
{
    if evs.len() == 0 {
        s
    } else {
        exec_step(exec_run(s, evs.drop_last()), evs.last()).0
    }
}

/// The messages that an action sends.
pub open spec fn sent_by(a: AgentActionView) -> Seq<ResponseView> {
    match a {
        AgentActionView::Send(m) => seq![m],
        AgentActionView::Finish(m, n) => seq![m, n],
        _ => seq![],
    }
}

/// The messages that a run of events sends, in order.
pub open spec fn transcript(s: ExecState, evs: Seq<AgentEventView>) -> Seq<ResponseView>
    decreases evs.len(),
{
    if evs.len() == 0 {
        seq![]
    } else {
        transcript(s, evs.drop_last()) + sent_by(
            exec_step(exec_run(s, evs.drop_last()), evs.last()).1,
        )
    }
}

/// The output among a run of events, as messages.
pub open spec fn output_messages(id: Text, evs: Seq<AgentEventView>) -> Seq<ResponseView>
    decreases evs.len(),
{
    if evs.len() == 0 {
        seq![]
    } else {
        let before = output_messages(id, evs.drop_last());
        match evs.last() {
            AgentEventView::Stdout(b) => before.push(
                event_message(id, EventView::Stdout { chunk: lossy(b) }),
            ),
            AgentEventView::Stderr(b) => before.push(
                event_message(id, EventView::Stderr { chunk: lossy(b) }),
            ),
            _ => before,
        }
    }
}

/// The text of the standard output among a run of events.
pub open spec fn stdout_text(evs: Seq<AgentEventView>) -> Text
    decreases evs.len(),
{
    if evs.len() == 0 {
        seq![]
    } else {
        match evs.last() {
            AgentEventView::Stdout(b) => stdout_text(evs.drop_last()) + lossy(b),
            _ => stdout_text(evs.drop_last()),
        }
    }
}

/// The text of the standard error among a run of events.
pub open spec fn stderr_text(evs: Seq<AgentEventView>) -> Text
    decreases evs.len(),
{
    if evs.len() == 0 {
        seq![]
    } else {
        match evs.last() {
            AgentEventView::Stderr(b) => stderr_text(evs.drop_last()) + lossy(b),
            _ => stderr_text(evs.drop_last()),
        }
    }
}

/// The exit code that the first end of the command among the events reports.
pub open spec fn exit_among(evs: Seq<AgentEventView>) -> Option<i32>
    decreases evs.len(),
{
    if evs.len() == 0 {
        None
    } else {
        match exit_among(evs.drop_last()) {
            Some(c) => Some(c),
            None => match evs.last() {
                AgentEventView::Exited(c) => Some(reported_code(c)),
                _ => None,
            },
        }
    }
}

/// An event after which the session cannot go on.
pub open spec fn is_failure(ev: AgentEventView) -> bool {
    ev is WaitFailed || ev is WriteFailed || ev is SendFailed
}

/// While a session goes on, the agent has sent exactly the output of the
/// command, in order, and knows exactly what the events told.
pub proof fn law_output_forwarded(id: Text, evs: Seq<AgentEventView>)
    requires
        !exec_run(initial_exec(id), evs).over,
    ensures
        transcript(initial_exec(id), evs) == output_messages(id, evs),
        exec_run(initial_exec(id), evs).exit == exit_among(evs),
        exec_run(initial_exec(id), evs).request_id == id,
    decreases evs.len(),
{
    if evs.len() > 0 {
        law_output_forwarded(id, evs.drop_last());
        assert(transcript(initial_exec(id), evs) =~= output_messages(id, evs));
    }
}

/// A session ends, unless something failed, exactly when the command has ended
/// and all its output was read.
pub proof fn law_session_ends(id: Text, evs: Seq<AgentEventView>)
    requires
        forall|i: int| 0 <= i < evs.len() ==> !is_failure(#[trigger] evs[i]),
    ensures
        exec_run(initial_exec(id), evs).over <==> (exit_among(evs) is Some && evs.contains(
            AgentEventView::OutputClosed,
        )),
        exec_run(initial_exec(id), evs).output_open <==> !evs.contains(
            AgentEventView::OutputClosed,
        ),
        exec_run(initial_exec(id), evs).exit == exit_among(evs),
    decreases evs.len(),
{
    if evs.len() > 0 {
        let before = evs.drop_last();
        assert forall|i: int| 0 <= i < before.len() implies !is_failure(#[trigger] before[i]) by {
            assert(before[i] == evs[i]);
        }
        law_session_ends(id, before);
        let closed = AgentEventView::OutputClosed;
        assert(!is_failure(evs[evs.len() - 1]));
        assert(evs.contains(closed) <==> before.contains(closed) || evs.last() == closed) by {
            if before.contains(closed) {
                let k = choose|k: int| 0 <= k < before.len() && before[k] == closed;
                assert(evs[k] == closed);
            }
            if evs.contains(closed) && evs.last() != closed {
                let k = choose|k: int| 0 <= k < evs.len() && evs[k] == closed;
                assert(before[k] == closed);
            }
        }
    }
}

/// What a session that ended has sent: all output in order, that the command
/// ended, and the final answer, both with the exit code of the command.
pub proof fn law_complete_transcript(id: Text, evs: Seq<AgentEventView>, last: AgentEventView)
    requires
        !exec_run(initial_exec(id), evs).over,
        exec_run(initial_exec(id), evs.push(last)).over,
        !is_failure(last),
    ensures
        exit_among(evs.push(last)) is Some,
        transcript(initial_exec(id), evs.push(last)) == output_messages(id, evs) + seq![
            event_message(id, EventView::Exited { exit_code: exit_among(evs.push(last)).unwrap() }),
            final_message(id, exit_among(evs.push(last)).unwrap()),
        ],
{
    law_output_forwarded(id, evs);
    let all = evs.push(last);
    assert(all.drop_last() =~= evs);
    assert(all.last() == last);
}

proof fn lemma_shown_push(msgs: Seq<ResponseView>, tail: Seq<ResponseView>)
    requires
        shown(msgs).end is None,
    ensures
        shown(msgs + tail).out == shown(msgs).out + shown(tail).out,
        shown(msgs + tail).err == shown(msgs).err + shown(tail).err,
        shown(msgs + tail).end == shown(tail).end,
    decreases msgs.len(),
{
    if msgs.len() == 0 {
        assert(msgs + tail =~= tail);
        assert(shown(msgs + tail).out =~= shown(msgs).out + shown(tail).out);
        assert(shown(msgs + tail).err =~= shown(msgs).err + shown(tail).err);
    } else {
        assert((msgs + tail).drop_first() =~= msgs.drop_first() + tail);
        lemma_shown_push(msgs.drop_first(), tail);
        assert(shown(msgs + tail).out =~= shown(msgs).out + shown(tail).out);
        assert(shown(msgs + tail).err =~= shown(msgs).err + shown(tail).err);
    }
}

proof fn lemma_output_shown(id: Text, evs: Seq<AgentEventView>)
    ensures
        shown(output_messages(id, evs)) == (Shown {
            out: stdout_text(evs),
            err: stderr_text(evs),
            end: None,
        }),
    decreases evs.len(),
{
    if evs.len() > 0 {
        let before = evs.drop_last();
        lemma_output_shown(id, before);
        let m = match evs.last() {
            AgentEventView::Stdout(b) => seq![
                event_message(id, EventView::Stdout { chunk: lossy(b) }),
            ],
            AgentEventView::Stderr(b) => seq![
                event_message(id, EventView::Stderr { chunk: lossy(b) }),
            ],
            _ => seq![],
        };
        assert(output_messages(id, evs) =~= output_messages(id, before) + m);
        lemma_shown_push(output_messages(id, before), m);
        if m.len() > 0 {
            assert(shown(m.drop_first()) == (Shown { out: seq![], err: seq![], end: None }));
        }
        assert(shown(output_messages(id, evs)).out =~= stdout_text(evs));
        assert(shown(output_messages(id, evs)).err =~= stderr_text(evs));
    }
}

/// The two ends of a session agree: the host that gets the messages of a whole
/// session has printed exactly the output of the command, each stream in order,
/// and returns the exit code of the command.
pub proof fn law_host_sees_session(id: Text, evs: Seq<AgentEventView>, last: AgentEventView)
    requires
        !exec_run(initial_exec(id), evs).over,
        exec_run(initial_exec(id), evs.push(last)).over,
        !is_failure(last),
    ensures
        exit_among(evs.push(last)) is Some,
        shown(transcript(initial_exec(id), evs.push(last))) == (Shown {
            out: stdout_text(evs),
            err: stderr_text(evs),
            end: Some(HostActionView::Done(exit_among(evs.push(last)).unwrap())),
        }),
{
    law_complete_transcript(id, evs, last);
    let code = exit_among(evs.push(last)).unwrap();
    let m = event_message(id, EventView::Exited { exit_code: code });
    let n = final_message(id, code);
    let tail = seq![m, n];
    lemma_output_shown(id, evs);
    lemma_shown_push(output_messages(id, evs), tail);
    assert(tail.drop_first() =~= seq![n]);
    assert(shown(seq![n]).end == Some(HostActionView::Done(code)));
    let whole = shown(transcript(initial_exec(id), evs.push(last)));
    assert(whole.out =~= stdout_text(evs));
    assert(whole.err =~= stderr_text(evs));
}

/// Closed input stays closed, and nothing is written to it any more.
pub proof fn law_input_stays_closed(s: ExecState, ev: AgentEventView)
    requires
        !s.input_open,
    ensures
        !exec_step(s, ev).0.input_open,
        !(exec_step(s, ev).1 is WriteInput),
        !(exec_step(s, ev).1 is CloseInput),
{
}

/// The input that a run of events hands to the command.
pub open spec fn written(s: ExecState, evs: Seq<AgentEventView>) -> Seq<u8>
    decreases evs.len(),
{
    if evs.len() == 0 {
        seq![]
    } else {
        match exec_step(exec_run(s, evs.drop_last()), evs.last()).1 {
            AgentActionView::WriteInput(b) => written(s, evs.drop_last()) + b,
            _ => written(s, evs.drop_last()),
        }
    }
}

/// The bytes that came from the host.
pub open spec fn typed(evs: Seq<AgentEventView>) -> Seq<u8>
    decreases evs.len(),
{
    if evs.len() == 0 {
        seq![]
    } else {
        match evs.last() {
            AgentEventView::Input(b) => typed(evs.drop_last()) + b,
            _ => typed(evs.drop_last()),
        }
    }
}

/// While the command runs and its input is open, it has been given exactly what
/// came from the host.
pub proof fn law_input_forwarded(id: Text, evs: Seq<AgentEventView>)
    requires
        !exec_run(initial_exec(id), evs).over,
        exec_run(initial_exec(id), evs).input_open,
        exec_run(initial_exec(id), evs).exit is None,
    ensures
        written(initial_exec(id), evs) == typed(evs),
    decreases evs.len(),
{
    if evs.len() > 0 {
        law_input_forwarded(id, evs.drop_last());
    }
}

/// A session that is over does nothing more.
pub proof fn law_over_is_final(s: ExecState, ev: AgentEventView)
    requires
        s.over,
    ensures
        exec_step(s, ev) == (s, AgentActionView::Nothing),
{
}

/// A session that cannot go on ends, and says why; one whose host is gone closes
/// the input of the command, once, and lets it run on.
pub proof fn law_session_breaks_off(
    s: &mut InteractiveExec,
    event: AgentEvent,
    why: String,
    r: AgentAction,
    t: &mut InteractiveExec,
    gone: AgentEvent,
    q: AgentAction,
)
    requires
        !old(s)@.over,
        event == AgentEvent::WaitFailed(why) || event == AgentEvent::WriteFailed(why) || event
            == AgentEvent::SendFailed(why),
        call_ensures(InteractiveExec::step, (s, event), r),
        !old(t)@.over,
        old(t)@.exit is None,
        gone == AgentEvent::InputFailed || (gone matches AgentEvent::Input(b) && b@.len() == 0),
        call_ensures(InteractiveExec::step, (t, gone), q),
    ensures
        final(s)@.over,
        r matches AgentAction::Fail(e) && e@ == why@,
        q is CloseInput <==> old(t)@.input_open,
        q is Nothing <==> !old(t)@.input_open,
        !final(t)@.input_open,
        !final(t)@.over,
        final(t)@.output_open == old(t)@.output_open,
{
    assert(event@ == AgentEventView::WaitFailed(why@) || event@ == AgentEventView::WriteFailed(why@)
        || event@ == AgentEventView::SendFailed(why@));
    assert(r@ is Fail);
    assert(gone@ is InputFailed || gone@ is Input);
    assert(q@ is CloseInput || q@ is Nothing);
}

/// Output of the command is sent to the host under the request it belongs to, as
/// the stream that it came from, and input of the host is written to the command
/// as it is.
pub proof fn law_streams_are_kept_apart(
    s: &mut InteractiveExec,
    bytes: Vec<u8>,
    out: AgentAction,
    t: &mut InteractiveExec,
    err: AgentAction,
    u: &mut InteractiveExec,
    inp: AgentAction,
)
    requires
        !old(s)@.over,
        call_ensures(InteractiveExec::step, (s, AgentEvent::Stdout(bytes)), out),
        !old(t)@.over,
        call_ensures(InteractiveExec::step, (t, AgentEvent::Stderr(bytes)), err),
        !old(u)@.over,
        old(u)@.input_open,
        old(u)@.exit is None,
        bytes@.len() > 0,
        call_ensures(InteractiveExec::step, (u, AgentEvent::Input(bytes)), inp),
    ensures
        out matches AgentAction::Send(m) && m@ == (ResponseView::Event {
            request_id: old(s)@.request_id,
            event: EventView::Stdout { chunk: lossy(bytes@) },
        }),
        err matches AgentAction::Send(m) && m@ == (ResponseView::Event {
            request_id: old(t)@.request_id,
            event: EventView::Stderr { chunk: lossy(bytes@) },
        }),
        inp matches AgentAction::WriteInput(b) && b@ == bytes@,
        final(s)@ == old(s)@,
        final(t)@ == old(t)@,
        final(u)@ == old(u)@,
{
    assert(AgentEvent::Stdout(bytes)@ == AgentEventView::Stdout(bytes@));
    assert(AgentEvent::Stderr(bytes)@ == AgentEventView::Stderr(bytes@));
    assert(AgentEvent::Input(bytes)@ == AgentEventView::Input(bytes@));
    assert(out@ is Send && err@ is Send && inp@ is WriteInput);
}

/// The first process of the guest goes on as long as it reaps children, and ends
/// well if and only if there are none left.
pub proof fn law_reaping(waited: i32, errno: Option<i32>, r: Reap)
    requires
        call_ensures(reap, (waited, errno), r),
    ensures
        r is Again <==> waited >= 0,
        r == Reap::End(0) <==> waited < 0 && errno == Some(10i32),
{
}

/// The exit code of the command is told once its output is closed, whichever came
/// first, under the request and in both forms; a command that a signal ended has
/// the code minus one.
pub proof fn law_exit_code_is_told(
    s: &mut InteractiveExec,
    code: Option<i32>,
    a: AgentAction,
    t: &mut InteractiveExec,
    b: AgentAction,
    u: &mut InteractiveExec,
    c: AgentAction,
)
    requires
        !old(s)@.over && old(s)@.exit is None && old(s)@.output_open,
        call_ensures(InteractiveExec::step, (s, AgentEvent::Exited(code)), a),
        *old(t) == *final(s),
        call_ensures(InteractiveExec::step, (t, AgentEvent::OutputClosed), b),
        !old(u)@.over && old(u)@.exit is None && !old(u)@.output_open,
        old(u)@.request_id == old(s)@.request_id,
        call_ensures(InteractiveExec::step, (u, AgentEvent::Exited(code)), c),
    ensures
        a is Nothing && !final(s)@.over,
        final(t)@.over && final(u)@.over,
        b matches AgentAction::Finish(x, y) && {
            &&& x@ matches ResponseView::Event { request_id, event: EventView::Exited { exit_code } }
            &&& request_id == old(s)@.request_id
            &&& exit_code == match code {
                Some(n) => n,
                None => -1i32,
            }
            &&& y@ matches ResponseView::Success {
                request_id: id,
                body: BodyView::Exec { exit_code: last, stdout, stderr, .. },
            }
            &&& id == request_id && last == exit_code
            &&& stdout.len() == 0 && stderr.len() == 0
        },
        c@ == b@,
{
    assert(AgentEvent::Exited(code)@ == AgentEventView::Exited(code));
    assert(AgentEvent::OutputClosed@ is OutputClosed);
    assert(a@ is Nothing);
    assert(b@ is Finish && c@ is Finish);
}

/// How a command is launched is seen as it is.
pub proof fn law_launch_is_seen_as_it_is(l: LaunchSpec, i: int, j: int)
    requires
        0 <= i < l.args@.len(),
        0 <= j < l.env@.len(),
    ensures
        l@.program == l.program@,
        l@.args.len() == l.args@.len() && l@.args[i] == l.args@[i]@,
        l@.env.len() == l.env@.len() && l@.env[j].0 == l.env@[j].0@ && l@.env[j].1
            == l.env@[j].1@,
        l.dir is None <==> l@.dir is None,
        l.dir matches Some(d) ==> l@.dir == Some(d@),
        l.stdio matches Stdio::Pty { size } ==> l@.stdio == (StdioView::Pty { size }),
        l.stdio matches Stdio::Pipes { greeting } ==> l@.stdio == (StdioView::Pipes {
            greeting: greeting@,
        }),
        l.stdio matches Stdio::Captured { stdin } ==> (l@.stdio matches StdioView::Captured {
            stdin: s,
        } && (stdin is None <==> s is None) && (stdin matches Some(b) ==> s == Some(b@))),
{
}

} // verus!
