//! The host's side of the connection to the agent: handshake, calls, and the
//! interactive session.

use vstd::prelude::*;

use crate::error::{CofferError, ErrorView};
use crate::numeric::{dec, dec_text};
use crate::platform::{fresh_uuid, is_uuid_text};
use crate::proto::{code_name, complete, distinct_names, first_line, frame, opt_bytes, opt_text, pairs, rest_after_line,
    AgentRequest, AgentResponse, BodyView, ErrorCode, EventView, ExecEvent, LineBuffer, RequestView,
    ResponseBody, ResponseView, WindowSize, LINE_FEED};
use crate::text::{cat2, cat3, starts_with, strs, Text};

verus! {

broadcast use vstd::string::group_string_axioms;

// ---------------------------------------------------------------------
// Handshake
// ---------------------------------------------------------------------

/// The line that asks Firecracker for a connection to a port of the guest.
pub open spec fn connect_text(port: u32) -> Text {
    "CONNECT "@ + dec(port as nat) + "\n"@
}

/// The line that asks Firecracker for a connection to a port of the guest.
pub fn connect_line(port: u32) -> (r: String)
    ensures
        r@ == connect_text(port),
{
    cat3("CONNECT ", dec_text(port as u64).as_str(), "\n")
}

/// The error of a refused handshake.
pub open spec fn handshake_error(ack: Text) -> ErrorView {
    ErrorView::AgentCommunication("Firecracker vsock handshake failed: "@ + ack)
}

/// The answer to the request for a connection, as far as it was read. Each byte
/// stands for the character with its number.
#[derive(Debug)]
pub struct Handshake {
    ack: String,
}

impl View for Handshake {
    type V = Text;

    closed spec fn view(&self) -> Text {
        self.ack@
    }
}

/// What follows from one byte of the answer.
#[derive(Debug)]
pub enum HandshakeStep {
    /// The answer goes on.
    More,
    /// The connection stands.
    Ready(VsockClient),
    /// The connection was refused with this answer.
    Refused(String),
}

impl Handshake {
    pub fn new() -> (r: Handshake)
        ensures
            r@ == Seq::<char>::empty(),
    {
        Handshake { ack: String::new() }
    }

    /// Takes one byte of the answer. The answer ends with a line feed, and it
    /// grants the connection if and only if it begins with `OK `.
    pub fn byte(&mut self, b: u8) -> (r: HandshakeStep)
        ensures
            b != LINE_FEED ==> r is More && final(self)@ == old(self)@.push(b as char),
            b == LINE_FEED ==> final(self)@ == old(self)@,
            b == LINE_FEED && "OK "@.is_prefix_of(old(self)@) ==> (r matches HandshakeStep::Ready(c)
                && c@ == Seq::<u8>::empty()),
            b == LINE_FEED && !"OK "@.is_prefix_of(old(self)@) ==> (r matches HandshakeStep::Refused(
                ack,
            ) && ack@ == old(self)@),
    {
        if b != LINE_FEED {
            self.ack.push(b as char);
            HandshakeStep::More
        } else if starts_with(self.ack.as_str(), "OK ") {
            HandshakeStep::Ready(VsockClient { read_buf: LineBuffer::new() })
        } else {
            HandshakeStep::Refused(self.ack.clone())
        }
    }
}

/// The error of a refused handshake.
pub fn handshake_failed(ack: &str) -> (r: CofferError)
    ensures
        r@ == handshake_error(ack@),
{
    CofferError::AgentCommunication(cat2("Firecracker vsock handshake failed: ", ack))
}

// ---------------------------------------------------------------------
// Calls
// ---------------------------------------------------------------------

/// A connection to the agent: what was received and not yet consumed.
#[derive(Debug)]
pub struct VsockClient {
    read_buf: LineBuffer,
}

impl View for VsockClient {
    type V = Seq<u8>;

    closed spec fn view(&self) -> Seq<u8> {
        self.read_buf@
    }
}

impl VsockClient {
    /// The line that answers a call, once it is complete. What follows it is
    /// kept for the next call.
    pub fn reply(&mut self) -> (r: Option<Vec<u8>>)
        ensures
            r is Some <==> old(self)@.contains(LINE_FEED),
            r is None ==> final(self)@ == old(self)@,
            r matches Some(line) ==> {
                &&& line@ == first_line(old(self)@)
                &&& line@ == frame(complete(old(self)@)[0])
                &&& final(self)@ == rest_after_line(old(self)@)
                &&& complete(old(self)@) == seq![complete(old(self)@)[0]] + complete(final(self)@)
            },
    {
        self.read_buf.next_line()
    }

    /// Takes received bytes; none means that the guest closed the connection.
    pub fn received(&mut self, chunk: &[u8]) -> (r: Result<(), CofferError>)
        ensures
            final(self)@ == old(self)@ + chunk@,
            chunk@.len() > 0 ==> r is Ok,
            chunk@.len() == 0 ==> (r matches Err(e) && e@ == ErrorView::AgentCommunication(
                "vsock closed before response"@,
            )),
    {
        self.read_buf.push(chunk);
        if chunk.len() == 0 {
            Err(CofferError::AgentCommunication("vsock closed before response".to_owned()))
        } else {
            Ok(())
        }
    }
}

/// What a command left behind.
#[derive(Debug, Clone)]
pub struct ExecOutput {
    pub exit_code: i32,
    pub stdout: String,
    pub stderr: String,
    pub duration_ms: u64,
}

pub struct ExecOutputView {
    pub exit_code: i32,
    pub stdout: Text,
    pub stderr: Text,
    pub duration_ms: u64,
}

impl View for ExecOutput {
    type V = ExecOutputView;

    open spec fn view(&self) -> ExecOutputView {
        ExecOutputView {
            exit_code: self.exit_code,
            stdout: self.stdout@,
            stderr: self.stderr@,
            duration_ms: self.duration_ms,
        }
    }
}

/// A request that is exactly this one, but for its identifier, which is random.
pub open spec fn is_exec_request(
    r: RequestView,
    cmd: Seq<Text>,
    env: Seq<(Text, Text)>,
    working_dir: Option<Text>,
    stdin: Option<Seq<u8>>,
    timeout_ms: Option<u64>,
    interactive: bool,
    tty: bool,
    window_size: Option<WindowSize>,
) -> bool {
    &&& r matches RequestView::Exec { request_id, .. }
    &&& is_uuid_text(request_id)
    &&& r == (RequestView::Exec {
        request_id,
        cmd,
        env,
        working_dir,
        stdin,
        timeout_ms,
        interactive,
        tty,
        window_size,
    })
}

/// The request to run a command and wait for its end.
pub fn exec_request(
    cmd: Vec<String>,
    env: Vec<(String, String)>,
    working_dir: Option<String>,
    stdin: Option<Vec<u8>>,
    timeout_ms: Option<u64>,
) -> (r: AgentRequest)
    ensures
        is_exec_request(
            r@,
            strs(cmd@),
            pairs(env@),
            opt_text(working_dir),
            opt_bytes(stdin),
            timeout_ms,
            false,
            false,
            None,
        ),
        distinct_names(pairs(env@)) ==> r@.valid(),
{
    AgentRequest::Exec {
        request_id: fresh_uuid(),
        cmd,
        env,
        working_dir,
        stdin,
        timeout_ms,
        interactive: false,
        tty: false,
        window_size: None,
    }
}

/// The request to run a command interactively: no input is sent with it, and no
/// time limit is set.
pub fn interactive_request(
    cmd: Vec<String>,
    env: Vec<(String, String)>,
    working_dir: Option<String>,
    tty: bool,
    window_size: Option<WindowSize>,
) -> (r: AgentRequest)
    ensures
        is_exec_request(
            r@,
            strs(cmd@),
            pairs(env@),
            opt_text(working_dir),
            None,
            None,
            true,
            tty,
            window_size,
        ),
        distinct_names(pairs(env@)) ==> r@.valid(),
{
    AgentRequest::Exec {
        request_id: fresh_uuid(),
        cmd,
        env,
        working_dir,
        stdin: None,
        timeout_ms: None,
        interactive: true,
        tty,
        window_size,
    }
}

/// The request for a sign of life.
pub fn ping_request() -> (r: AgentRequest)
    ensures
        r@ matches RequestView::Ping { request_id } && is_uuid_text(request_id),
{
    AgentRequest::Ping { request_id: fresh_uuid() }
}

/// The error of a command that the agent could not run.
pub open spec fn exec_error(code: ErrorCode, message: Text) -> ErrorView {
    ErrorView::AgentExec { message: code_name(code) + ": "@ + message, exit_code: None }
}

fn exec_failure(code: ErrorCode, message: &str) -> (r: CofferError)
    ensures
        r@ == exec_error(code, message@),
{
    CofferError::AgentExec { message: cat3(code.name(), ": ", message), exit_code: None }
}

/// What the answer to an exec request means: the output of the command, the
/// error that the agent reports, or an error for any other answer.
pub open spec fn exec_result(resp: ResponseView) -> Result<ExecOutputView, ErrorView> {
    match resp {
        ResponseView::Success {
            body: BodyView::Exec { exit_code, stdout, stderr, duration_ms },
            ..
        } => Ok(ExecOutputView { exit_code, stdout, stderr, duration_ms }),
        ResponseView::Error { code, message, .. } => Err(exec_error(code, message)),
        _ => Err(ErrorView::AgentCommunication("Unexpected response type"@)),
    }
}

/// What the answer to an exec request means.
pub fn exec_reply(resp: AgentResponse) -> (r: Result<ExecOutput, CofferError>)
    ensures
        match r {
            Ok(o) => exec_result(resp@) == Ok::<ExecOutputView, ErrorView>(o@),
            Err(e) => exec_result(resp@) == Err::<ExecOutputView, ErrorView>(e@),
        },
{
    match resp {
        AgentResponse::Success {
            body: ResponseBody::Exec { exit_code, stdout, stderr, duration_ms },
            ..
        } => Ok(ExecOutput { exit_code, stdout, stderr, duration_ms }),
        AgentResponse::Error { message, code, .. } => Err(exec_failure(code, message.as_str())),
        _ => Err(CofferError::AgentCommunication("Unexpected response type".to_owned())),
    }
}

/// What the answer to a ping means: the version and the age of the agent.
pub open spec fn ping_result(resp: ResponseView) -> Result<(Text, u64), ErrorView> {
    match resp {
        ResponseView::Success { body: BodyView::Pong { agent_version, uptime_secs }, .. } => Ok(
            (agent_version, uptime_secs),
        ),
        _ => Err(ErrorView::AgentCommunication("Unexpected ping response"@)),
    }
}

/// What the answer to a ping means.
pub fn ping_reply(resp: AgentResponse) -> (r: Result<(String, u64), CofferError>)
    ensures
        match r {
            Ok(p) => ping_result(resp@) == Ok::<(Text, u64), ErrorView>((p.0@, p.1)),
            Err(e) => ping_result(resp@) == Err::<(Text, u64), ErrorView>(e@),
        },
{
    match resp {
        AgentResponse::Success { body: ResponseBody::Pong { agent_version, uptime_secs }, .. } => Ok(
            (agent_version, uptime_secs),
        ),
        _ => Err(CofferError::AgentCommunication("Unexpected ping response".to_owned())),
    }
}

// ---------------------------------------------------------------------
// Waiting for the agent
// ---------------------------------------------------------------------

/// What to do while the agent of a VM is awaited.
#[derive(Debug)]
pub enum AgentWait {
    Ready,
    /// Try again a little later.
    Again,
    /// Too late: shut the VM down and report the error.
    GiveUp(CofferError),
}

/// What to do while the agent of a VM is awaited, given how long it has been
/// awaited and may be, and whether it answered a ping.
pub fn await_agent(vm_id: &str, elapsed_ms: u64, timeout_ms: u64, answered: bool) -> (r: AgentWait)
    ensures
        elapsed_ms > timeout_ms ==> (r matches AgentWait::GiveUp(e) && e@
            == ErrorView::AgentNotReady(vm_id@)),
        elapsed_ms <= timeout_ms && answered ==> r is Ready,
        elapsed_ms <= timeout_ms && !answered ==> r is Again,
{
    if elapsed_ms > timeout_ms {
        AgentWait::GiveUp(CofferError::AgentNotReady(vm_id.to_owned()))
    } else if answered {
        AgentWait::Ready
    } else {
        AgentWait::Again
    }
}

// ---------------------------------------------------------------------
// The interactive session
// ---------------------------------------------------------------------

/// The error of a connection that could not be opened.
pub fn connect_failed(reason: &str) -> (r: CofferError)
    ensures
        r@ == ErrorView::AgentCommunication("Connect failed: "@ + reason@),
{
    CofferError::AgentCommunication(cat2("Connect failed: ", reason))
}

/// What happens to the host during an interactive session.
#[derive(Debug)]
pub enum HostEvent {
    /// The last action is done.
    Next,
    /// A line was decoded.
    Message(AgentResponse),
    /// A line could not be decoded.
    BadMessage(String),
    /// Bytes came from the guest; none where it closed the connection.
    Read(Vec<u8>),
    ReadFailed(String),
    /// The user typed.
    Stdin(Vec<u8>),
    /// The user's input ended.
    StdinClosed,
    /// Input was handed to the guest, or not.
    Written { write_ok: bool, flush_ok: bool },
}

/// What the host does next.
#[derive(Debug)]
pub enum HostAction {
    /// Decode this line and report the message.
    Decode(Vec<u8>),
    /// Wait for bytes from the guest and, where `stdin` is set, for input.
    Wait { stdin: bool },
    Print(String),
    PrintErr(String),
    Continue,
    /// Hand these bytes to the guest and report how that went.
    Send(Vec<u8>),
    /// The command ended.
    Done(i32),
    Fail(CofferError),
}

pub enum HostEventView {
    Next,
    Message(ResponseView),
    BadMessage(Text),
    Read(Seq<u8>),
    ReadFailed(Text),
    Stdin(Seq<u8>),
    StdinClosed,
    Written { write_ok: bool, flush_ok: bool },
}

pub enum HostActionView {
    Decode(Seq<u8>),
    Wait { stdin: bool },
    Print(Text),
    PrintErr(Text),
    Continue,
    Send(Seq<u8>),
    Done(i32),
    Fail(ErrorView),
}

impl View for HostEvent {
    type V = HostEventView;

    open spec fn view(&self) -> HostEventView {
        match *self {
            HostEvent::Next => HostEventView::Next,
            HostEvent::Message(m) => HostEventView::Message(m@),
            HostEvent::BadMessage(e) => HostEventView::BadMessage(e@),
            HostEvent::Read(b) => HostEventView::Read(b@),
            HostEvent::ReadFailed(e) => HostEventView::ReadFailed(e@),
            HostEvent::Stdin(b) => HostEventView::Stdin(b@),
            HostEvent::StdinClosed => HostEventView::StdinClosed,
            HostEvent::Written { write_ok, flush_ok } => HostEventView::Written {
                write_ok,
                flush_ok,
            },
        }
    }
}

impl View for HostAction {
    type V = HostActionView;

    open spec fn view(&self) -> HostActionView {
        match *self {
            HostAction::Decode(b) => HostActionView::Decode(b@),
            HostAction::Wait { stdin } => HostActionView::Wait { stdin },
            HostAction::Print(s) => HostActionView::Print(s@),
            HostAction::PrintErr(s) => HostActionView::PrintErr(s@),
            HostAction::Continue => HostActionView::Continue,
            HostAction::Send(b) => HostActionView::Send(b@),
            HostAction::Done(c) => HostActionView::Done(c),
            HostAction::Fail(e) => HostActionView::Fail(e@),
        }
    }
}

/// The state of an interactive session: the bytes not yet consumed, and whether
/// the user's input ended.
pub struct SessionState {
    pub buf: Seq<u8>,
    pub stdin_closed: bool,
}

/// What the host does with a message: output is printed where it belongs, the
/// final answer or an error ends the session, everything else is passed over.
pub open spec fn host_reaction(m: ResponseView) -> HostActionView {
    match m {
        ResponseView::Event { event: EventView::Stdout { chunk }, .. } => HostActionView::Print(
            chunk,
        ),
        ResponseView::Event { event: EventView::Stderr { chunk }, .. } => HostActionView::PrintErr(
            chunk,
        ),
        ResponseView::Success { body: BodyView::Exec { exit_code, .. }, .. } => HostActionView::Done(
            exit_code,
        ),
        ResponseView::Error { code, message, .. } => HostActionView::Fail(
            exec_error(code, message),
        ),
        _ => HostActionView::Continue,
    }
}

/// The error of a broken connection.
pub open spec fn broken(message: Text) -> HostActionView {
    HostActionView::Fail(ErrorView::AgentCommunication(message))
}

/// The next state and the action for an event. A complete line is dealt with
/// before anything else is awaited.
pub open spec fn host_step(s: SessionState, ev: HostEventView) -> (SessionState, HostActionView) {
    match ev {
        HostEventView::Next => if s.buf.contains(LINE_FEED) {
            (
                SessionState { buf: rest_after_line(s.buf), ..s },
                HostActionView::Decode(first_line(s.buf)),
            )
        } else {
            (s, HostActionView::Wait { stdin: !s.stdin_closed })
        },
        HostEventView::Message(m) => (s, host_reaction(m)),
        HostEventView::BadMessage(e) => (s, broken("JSON parse error: "@ + e)),
        HostEventView::Read(b) => if b.len() == 0 {
            (s, broken("Connection closed"@))
        } else {
            (SessionState { buf: s.buf + b, ..s }, HostActionView::Continue)
        },
        HostEventView::ReadFailed(e) => (s, broken("Read error: "@ + e)),
        HostEventView::Stdin(b) => (s, HostActionView::Send(b)),
        HostEventView::StdinClosed => (
            SessionState { stdin_closed: true, ..s },
            HostActionView::Continue,
        ),
        HostEventView::Written { write_ok, flush_ok } => if !write_ok {
            (s, broken("Failed to write stdin to vsock"@))
        } else if !flush_ok {
            (s, broken("Failed to flush stdin to vsock"@))
        } else {
            (s, HostActionView::Continue)
        },
    }
}

/// The host's side of an interactive session.
#[derive(Debug)]
pub struct InteractiveSession {
    read_buf: LineBuffer,
    stdin_closed: bool,
}

impl View for InteractiveSession {
    type V = SessionState;

    closed spec fn view(&self) -> SessionState {
        SessionState { buf: self.read_buf@, stdin_closed: self.stdin_closed }
    }
}

fn broken_connection(message: &str) -> (r: HostAction)
    ensures
        r@ == broken(message@),
{
    HostAction::Fail(CofferError::AgentCommunication(message.to_owned()))
}

impl InteractiveSession {
    /// The session right after the request was sent.
    pub fn new() -> (r: InteractiveSession)
        ensures
            r@ == (SessionState { buf: Seq::empty(), stdin_closed: false }),
    {
        InteractiveSession { read_buf: LineBuffer::new(), stdin_closed: false }
    }

    /// Takes an event and says what to do.
    pub fn step(&mut self, event: HostEvent) -> (r: HostAction)
        ensures
            final(self)@ == host_step(old(self)@, event@).0,
            r@ == host_step(old(self)@, event@).1,
    {
        match event {
            HostEvent::Next => match self.read_buf.next_line() {
                Some(line) => HostAction::Decode(line),
                None => HostAction::Wait { stdin: !self.stdin_closed },
            },
            HostEvent::Message(m) => match m {
                AgentResponse::Event { event: ExecEvent::Stdout { chunk }, .. } => HostAction::Print(
                    chunk,
                ),
                AgentResponse::Event { event: ExecEvent::Stderr { chunk }, .. } =>
                HostAction::PrintErr(chunk),
                AgentResponse::Success { body: ResponseBody::Exec { exit_code, .. }, .. } =>
                HostAction::Done(exit_code),
                AgentResponse::Error { message, code, .. } => HostAction::Fail(
                    exec_failure(code, message.as_str()),
                ),
                _ => HostAction::Continue,
            },
            HostEvent::BadMessage(e) => broken_connection(
                cat2("JSON parse error: ", e.as_str()).as_str(),
            ),
            HostEvent::Read(b) => {
                if b.len() == 0 {
                    broken_connection("Connection closed")
                } else {
                    self.read_buf.push(b.as_slice());
                    HostAction::Continue
                }
            },
            HostEvent::ReadFailed(e) => broken_connection(
                cat2("Read error: ", e.as_str()).as_str(),
            ),
            HostEvent::Stdin(b) => HostAction::Send(b),
            HostEvent::StdinClosed => {
                self.stdin_closed = true;
                HostAction::Continue
            },
            HostEvent::Written { write_ok, flush_ok } => {
                if !write_ok {
                    broken_connection("Failed to write stdin to vsock")
                } else if !flush_ok {
                    broken_connection("Failed to flush stdin to vsock")
                } else {
                    HostAction::Continue
                }
            },
        }
    }
}

/// What a run of messages does to the terminal of the user, and how the session
/// ends: the printed output, the printed errors, and the last action where there
/// is one.
pub struct Shown {
    pub out: Text,
    pub err: Text,
    pub end: Option<HostActionView>,
}

/// What the messages show to the user, one after the other until one ends the
/// session.
pub open spec fn shown(msgs: Seq<ResponseView>) -> Shown
    decreases msgs.len(),
{
    if msgs.len() == 0 {
        Shown { out: seq![], err: seq![], end: None }
    } else {
        let rest = shown(msgs.drop_first());
        match host_reaction(msgs[0]) {
            HostActionView::Print(s) => Shown { out: s + rest.out, ..rest },
            HostActionView::PrintErr(s) => Shown { err: s + rest.err, ..rest },
            HostActionView::Continue => rest,
            a => Shown { out: seq![], err: seq![], end: Some(a) },
        }
    }
}

/// What a command left behind is seen as it is.
pub proof fn law_output_is_seen_as_it_is(o: ExecOutput)
    ensures
        o@.exit_code == o.exit_code,
        o@.stdout == o.stdout@,
        o@.stderr == o.stderr@,
        o@.duration_ms == o.duration_ms,
{
}

} // verus!
