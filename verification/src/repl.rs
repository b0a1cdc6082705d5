//! The interactive shell client: keystrokes go to the guest, output comes to the
//! terminal, until the shell ends or the user detaches.

use vstd::prelude::*;

use crate::agent::{event_message, exec_run, exit_among, final_message, handle_stream, initial_exec, is_failure,
    law_complete_transcript, output_messages, process_request, start_interactive, stderr_text, stdout_text,
    transcript, ActivePty, AgentEventView, ConnAction, ConnEvent, Handling, InteractiveStart, Stdio};
use crate::keys::{key_bytes, key_event_to_bytes, KeyCode, KeyEvent};
use crate::platform::lossy;
use crate::proto::{distinct_names, first_line, opt_text, pairs, rest_after_line, AgentRequest, AgentResponse, BodyView,
    EventView, ExecEvent, LineBuffer, RequestView, ResponseBody, ResponseView, WindowSize, LINE_FEED};
use crate::protocol::{interactive_request, is_exec_request};
use crate::text::{cat2, strs, Text};

verus! {

broadcast use vstd::string::group_string_axioms;

/// What is printed when the shell begins.
pub const REPL_BANNER: &'static str =
    "\r\n=== Coffer Shell ===\r\nType 'exit' or press Ctrl+] to quit\r\n\r\n";

/// What is printed when the user detaches.
pub const REPL_DETACHED: &'static str = "\r\n[detached from coffer shell]\r\n";

/// The code of a session that ends without the end of the command.
pub const NO_EXIT_CODE: i32 = -1;

/// The request that starts the shell, with a terminal.
pub fn shell_request(
    shell: &str,
    env: Vec<(String, String)>,
    working_dir: Option<String>,
    window_size: Option<WindowSize>,
) -> (r: AgentRequest)
    ensures
        is_exec_request(
            r@,
            seq![shell@],
            pairs(env@),
            opt_text(working_dir),
            None,
            None,
            true,
            true,
            window_size,
        ),
        distinct_names(pairs(env@)) ==> r@.valid(),
{
    let mut cmd: Vec<String> = Vec::new();
    cmd.push(shell.to_owned());
    assert(strs(cmd@) =~= seq![shell@]);
    interactive_request(cmd, env, working_dir, true, window_size)
}

// ---------------------------------------------------------------------
// Input of the terminal
// ---------------------------------------------------------------------

/// What comes from the terminal.
#[derive(Debug)]
pub enum TermEvent {
    Key(KeyEvent),
    Resize { cols: u16, rows: u16 },
    /// Anything else.
    Other,
    /// The terminal cannot be read.
    Failed,
}

/// What follows from it.
#[derive(Debug)]
pub enum TermAction {
    /// Detach and read no more.
    Quit,
    /// Hand these bytes to the guest.
    Send(Vec<u8>),
    Resize { cols: u16, rows: u16 },
    Nothing,
    /// Read no more.
    Stop,
}

/// The key that detaches: control and a closing bracket.
pub open spec fn is_detach(key: KeyEvent) -> bool {
    key.code == KeyCode::Char(']') && key.control
}

/// What follows from an event of the terminal.
pub fn terminal_input(event: TermEvent) -> (r: TermAction)
    ensures
        match event {
            TermEvent::Key(key) => if is_detach(key) {
                r is Quit
            } else {
                r matches TermAction::Send(b) && b@ == key_bytes(key)
            },
            TermEvent::Resize { cols, rows } => r == (TermAction::Resize { cols, rows }),
            TermEvent::Other => r is Nothing,
            TermEvent::Failed => r is Stop,
        },
{
    match event {
        TermEvent::Key(key) => {
            if key.code == KeyCode::Char(']') && key.control {
                TermAction::Quit
            } else {
                TermAction::Send(key_event_to_bytes(key))
            }
        },
        TermEvent::Resize { cols, rows } => TermAction::Resize { cols, rows },
        TermEvent::Other => TermAction::Nothing,
        TermEvent::Failed => TermAction::Stop,
    }
}

// ---------------------------------------------------------------------
// The session
// ---------------------------------------------------------------------

/// What happens during a session.
#[derive(Debug)]
pub enum ReplEvent {
    /// The last action is done.
    Next,
    /// The user detached.
    Quit,
    /// A line was decoded.
    Message(AgentResponse),
    /// A line could not be decoded.
    BadMessage,
    /// Bytes came from the guest; none where it closed the connection.
    Read(Vec<u8>),
    ReadFailed(String),
    Stdin(Vec<u8>),
    StdinClosed,
    /// Whether the input was handed to the guest.
    Written(bool),
    Resized { cols: u16, rows: u16 },
}

/// What the client does next.
#[derive(Debug)]
pub enum ReplAction {
    /// Decode this line and report the message.
    Decode(Vec<u8>),
    /// Wait for the next event.
    Wait,
    Print(String),
    PrintErr(String),
    Continue,
    /// Hand these bytes to the guest and report how that went.
    Send(Vec<u8>),
    /// Send this request; it may fail.
    Request(AgentRequest),
    /// The session is over; print this first.
    Done { code: i32, notice: &'static str },
    Fail(String),
}

pub enum ReplEventView {
    Next,
    Quit,
    Message(ResponseView),
    BadMessage,
    Read(Seq<u8>),
    ReadFailed(Text),
    Stdin(Seq<u8>),
    StdinClosed,
    Written(bool),
    Resized { cols: u16, rows: u16 },
}

pub enum ReplActionView {
    Decode(Seq<u8>),
    Wait,
    Print(Text),
    PrintErr(Text),
    Continue,
    Send(Seq<u8>),
    Request(RequestView),
    Done { code: i32, notice: Text },
    Fail(Text),
}

impl View for ReplEvent {
    type V = ReplEventView;

    open spec fn view(&self) -> ReplEventView {
        match *self {
            ReplEvent::Next => ReplEventView::Next,
            ReplEvent::Quit => ReplEventView::Quit,
            ReplEvent::Message(m) => ReplEventView::Message(m@),
            ReplEvent::BadMessage => ReplEventView::BadMessage,
            ReplEvent::Read(b) => ReplEventView::Read(b@),
            ReplEvent::ReadFailed(e) => ReplEventView::ReadFailed(e@),
            ReplEvent::Stdin(b) => ReplEventView::Stdin(b@),
            ReplEvent::StdinClosed => ReplEventView::StdinClosed,
            ReplEvent::Written(ok) => ReplEventView::Written(ok),
            ReplEvent::Resized { cols, rows } => ReplEventView::Resized { cols, rows },
        }
    }
}

impl View for ReplAction {
    type V = ReplActionView;

    open spec fn view(&self) -> ReplActionView {
        match *self {
            ReplAction::Decode(b) => ReplActionView::Decode(b@),
            ReplAction::Wait => ReplActionView::Wait,
            ReplAction::Print(s) => ReplActionView::Print(s@),
            ReplAction::PrintErr(s) => ReplActionView::PrintErr(s@),
            ReplAction::Continue => ReplActionView::Continue,
            ReplAction::Send(b) => ReplActionView::Send(b@),
            ReplAction::Request(r) => ReplActionView::Request(r@),
            ReplAction::Done { code, notice } => ReplActionView::Done { code, notice: notice@ },
            ReplAction::Fail(e) => ReplActionView::Fail(e@),
        }
    }
}

/// The end of a session with a code and without a notice.
pub open spec fn ended(code: i32) -> ReplActionView {
    ReplActionView::Done { code, notice: ""@ }
}

/// What the client does with a message: output is printed where it belongs; the
/// end of the command, in either form, and an error end the session.
pub open spec fn repl_reaction(m: ResponseView) -> ReplActionView {
    match m {
        ResponseView::Event { event: EventView::Stdout { chunk }, .. } => ReplActionView::Print(
            chunk,
        ),
        ResponseView::Event { event: EventView::Stderr { chunk }, .. } => ReplActionView::PrintErr(
            chunk,
        ),
        ResponseView::Event { event: EventView::Exited { exit_code }, .. } => ended(exit_code),
        ResponseView::Success { body: BodyView::Exec { exit_code, .. }, .. } => ended(exit_code),
        ResponseView::Error { message, .. } => ReplActionView::Fail("Agent error: "@ + message),
        _ => ReplActionView::Continue,
    }
}

/// The bytes left over after an event, and the action. All complete lines are
/// dealt with before anything else is awaited; a line that cannot be decoded is
/// passed over; a session that ends without the end of the command has no exit
/// code.
pub open spec fn repl_step(buf: Seq<u8>, ev: ReplEventView) -> (Seq<u8>, ReplActionView) {
    match ev {
        ReplEventView::Next => if buf.contains(LINE_FEED) {
            (rest_after_line(buf), ReplActionView::Decode(first_line(buf)))
        } else {
            (buf, ReplActionView::Wait)
        },
        ReplEventView::Quit => (
            buf,
            ReplActionView::Done { code: NO_EXIT_CODE, notice: REPL_DETACHED@ },
        ),
        ReplEventView::Message(m) => (buf, repl_reaction(m)),
        ReplEventView::BadMessage => (buf, ReplActionView::Continue),
        ReplEventView::Read(b) => if b.len() == 0 {
            (buf, ended(NO_EXIT_CODE))
        } else {
            (buf + b, ReplActionView::Continue)
        },
        ReplEventView::ReadFailed(e) => (buf, ReplActionView::Fail("Read error: "@ + e)),
        ReplEventView::Stdin(b) => (buf, ReplActionView::Send(b)),
        ReplEventView::StdinClosed => (buf, ended(NO_EXIT_CODE)),
        ReplEventView::Written(ok) => if ok {
            (buf, ReplActionView::Continue)
        } else {
            (buf, ended(NO_EXIT_CODE))
        },
        ReplEventView::Resized { cols, rows } => (
            buf,
            ReplActionView::Request(RequestView::ResizePty { cols, rows }),
        ),
    }
}

/// The client's side of a session.
#[derive(Debug)]
pub struct ReplSession {
    read_buf: LineBuffer,
}

impl View for ReplSession {
    type V = Seq<u8>;

    closed spec fn view(&self) -> Seq<u8> {
        self.read_buf@
    }
}

fn end(code: i32) -> (r: ReplAction)
    ensures
        r@ == ended(code),
{
    ReplAction::Done { code, notice: "" }
}

impl ReplSession {
    pub fn new() -> (r: ReplSession)
        ensures
            r@ == Seq::<u8>::empty(),
    {
        ReplSession { read_buf: LineBuffer::new() }
    }

    /// Takes an event and says what to do.
    pub fn step(&mut self, event: ReplEvent) -> (r: ReplAction)
        ensures
            final(self)@ == repl_step(old(self)@, event@).0,
            r@ == repl_step(old(self)@, event@).1,
    {
        match event {
            ReplEvent::Next => match self.read_buf.next_line() {
                Some(line) => ReplAction::Decode(line),
                None => ReplAction::Wait,
            },
            ReplEvent::Quit => ReplAction::Done { code: NO_EXIT_CODE, notice: REPL_DETACHED },
            ReplEvent::Message(m) => match m {
                AgentResponse::Event { event: ExecEvent::Stdout { chunk }, .. } => ReplAction::Print(
                    chunk,
                ),
                AgentResponse::Event { event: ExecEvent::Stderr { chunk }, .. } =>
                ReplAction::PrintErr(chunk),
                AgentResponse::Event { event: ExecEvent::Exited { exit_code }, .. } => end(
                    exit_code,
                ),
                AgentResponse::Success { body: ResponseBody::Exec { exit_code, .. }, .. } => end(
                    exit_code,
                ),
                AgentResponse::Error { message, .. } => ReplAction::Fail(
                    cat2("Agent error: ", message.as_str()),
                ),
                _ => ReplAction::Continue,
            },
            ReplEvent::BadMessage => ReplAction::Continue,
            ReplEvent::Read(b) => {
                if b.len() == 0 {
                    end(NO_EXIT_CODE)
                } else {
                    self.read_buf.push(b.as_slice());
                    ReplAction::Continue
                }
            },
            ReplEvent::ReadFailed(e) => ReplAction::Fail(cat2("Read error: ", e.as_str())),
            ReplEvent::Stdin(b) => ReplAction::Send(b),
            ReplEvent::StdinClosed => end(NO_EXIT_CODE),
            ReplEvent::Written(ok) => {
                if ok {
                    ReplAction::Continue
                } else {
                    end(NO_EXIT_CODE)
                }
            },
            ReplEvent::Resized { cols, rows } => ReplAction::Request(
                AgentRequest::ResizePty { cols, rows },
            ),
        }
    }
}

// ---------------------------------------------------------------------
// Laws
// ---------------------------------------------------------------------

/// How a run of messages ends the session, if it does.
pub open spec fn repl_end(msgs: Seq<ResponseView>) -> Option<ReplActionView>
    decreases msgs.len(),
{
    if msgs.len() == 0 {
        None
    } else {
        match repl_reaction(msgs[0]) {
            ReplActionView::Done { code, notice } => Some(ReplActionView::Done { code, notice }),
            ReplActionView::Fail(e) => Some(ReplActionView::Fail(e)),
            _ => repl_end(msgs.drop_first()),
        }
    }
}

/// What a run of messages prints until the session ends: output, then errors.
pub open spec fn repl_printed(msgs: Seq<ResponseView>) -> (Text, Text)
    decreases msgs.len(),
{
    if msgs.len() == 0 {
        (seq![], seq![])
    } else {
        let rest = repl_printed(msgs.drop_first());
        match repl_reaction(msgs[0]) {
            ReplActionView::Print(s) => (s + rest.0, rest.1),
            ReplActionView::PrintErr(s) => (rest.0, s + rest.1),
            ReplActionView::Continue => rest,
            _ => (seq![], seq![]),
        }
    }
}

proof fn lemma_repl_concat(msgs: Seq<ResponseView>, tail: Seq<ResponseView>)
    requires
        repl_end(msgs) is None,
    ensures
        repl_end(msgs + tail) == repl_end(tail),
        repl_printed(msgs + tail).0 == repl_printed(msgs).0 + repl_printed(tail).0,
        repl_printed(msgs + tail).1 == repl_printed(msgs).1 + repl_printed(tail).1,
    decreases msgs.len(),
{
    if msgs.len() == 0 {
        assert(msgs + tail =~= tail);
        assert(repl_printed(msgs).0 + repl_printed(tail).0 =~= repl_printed(tail).0);
        assert(repl_printed(msgs).1 + repl_printed(tail).1 =~= repl_printed(tail).1);
    } else {
        assert((msgs + tail).drop_first() =~= msgs.drop_first() + tail);
        lemma_repl_concat(msgs.drop_first(), tail);
        assert(repl_printed(msgs + tail).0 =~= repl_printed(msgs).0 + repl_printed(tail).0);
        assert(repl_printed(msgs + tail).1 =~= repl_printed(msgs).1 + repl_printed(tail).1);
    }
}

proof fn lemma_repl_output(id: Text, evs: Seq<AgentEventView>)
    ensures
        repl_end(output_messages(id, evs)) is None,
        repl_printed(output_messages(id, evs)) == (stdout_text(evs), stderr_text(evs)),
    decreases evs.len(),
{
    if evs.len() > 0 {
        let before = evs.drop_last();
        lemma_repl_output(id, before);
        let m = match evs.last() {
            AgentEventView::Stdout(b) => seq![
                event_message(id, EventView::Stdout { chunk: lossy(b) }),
            ],
            AgentEventView::Stderr(b) => seq![
                event_message(id, EventView::Stderr { chunk: lossy(b) }),
            ],
            _ => seq![],
        };
        assert(output_messages(id, evs) =~= output_messages(id, before) + m);
        lemma_repl_concat(output_messages(id, before), m);
        if m.len() > 0 {
            assert(m.drop_first() =~= Seq::<ResponseView>::empty());
            assert(repl_printed(m.drop_first()) == (Seq::<char>::empty(), Seq::<char>::empty()));
            assert(repl_end(m.drop_first()) is None);
        }
        assert(repl_printed(output_messages(id, evs)).0 =~= stdout_text(evs));
        assert(repl_printed(output_messages(id, evs)).1 =~= stderr_text(evs));
    }
}

/// The shell client and the agent agree: the client that gets the messages of a
/// whole session has printed all output of the command, each stream in order,
/// and ends with the exit code of the command.
pub proof fn law_repl_sees_session(id: Text, evs: Seq<AgentEventView>, last: AgentEventView)
    requires
        !exec_run(initial_exec(id), evs).over,
        exec_run(initial_exec(id), evs.push(last)).over,
        !is_failure(last),
    ensures
        exit_among(evs.push(last)) is Some,
        repl_end(transcript(initial_exec(id), evs.push(last))) == Some(
            ended(exit_among(evs.push(last)).unwrap()),
        ),
        repl_printed(transcript(initial_exec(id), evs.push(last))) == (
            stdout_text(evs),
            stderr_text(evs),
        ),
{
    law_complete_transcript(id, evs, last);
    let code = exit_among(evs.push(last)).unwrap();
    let tail = seq![
        event_message(id, EventView::Exited { exit_code: code }),
        final_message(id, code),
    ];
    lemma_repl_output(id, evs);
    lemma_repl_concat(output_messages(id, evs), tail);
    assert(repl_reaction(tail[0]) == ended(code));
    let all = repl_printed(transcript(initial_exec(id), evs.push(last)));
    assert(all.0 =~= stdout_text(evs));
    assert(all.1 =~= stderr_text(evs));
}

/// The shell that the user asks for is what the agent launches: that one program,
/// with the given variables, in the given directory or the root directory, on a
/// terminal of the given size.
pub proof fn law_shell_is_launched(
    shell: &str,
    env: Vec<(String, String)>,
    working_dir: Option<String>,
    window_size: Option<WindowSize>,
    req: AgentRequest,
    came: AgentRequest,
    action: ConnAction,
    start: InteractiveStart,
)
    requires
        call_ensures(shell_request, (shell, env, working_dir, window_size), req),
        came@ == req@,
        call_ensures(handle_stream, (ConnEvent::Request(came),), action),
        action matches ConnAction::Interactive {
            request_id,
            cmd,
            env: e,
            working_dir: d,
            tty,
            window_size: w,
        } ==> call_ensures(start_interactive, (request_id, cmd, e, d, tty, w), start),
    ensures
        start matches InteractiveStart::Launch(l, s) && {
            &&& l.program@ == shell@
            &&& l.args@.len() == 0
            &&& pairs(l.env@) == pairs(env@)
            &&& l.dir is Some
            &&& working_dir matches Some(d) ==> l.dir->Some_0@ == d@
            &&& working_dir is None ==> l.dir->Some_0@ == "/"@
            &&& l.stdio matches Stdio::Pty { size }
            &&& size == window_size
        },
{
    assert(ConnEvent::Request(came)@ == crate::agent::ConnEventView::Request(came@));
    assert(action@ is Interactive);
    let l = start->Launch_0;
    assert(l@.args =~= Seq::<Text>::empty());
    assert(strs(l.args@).len() == l.args@.len());
    assert(l.stdio@ is Pty);
    assert(opt_text(l.dir) is Some);
}

/// A change of the terminal's size reaches the terminal of the guest with its rows
/// and its columns.
pub proof fn law_resize_reaches_the_guest(
    cols: u16,
    rows: u16,
    input: TermAction,
    s: &mut ReplSession,
    r: ReplAction,
    active: &ActivePty,
    uptime: u64,
    h: Handling,
)
    requires
        call_ensures(terminal_input, (TermEvent::Resize { cols, rows },), input),
        call_ensures(ReplSession::step, (s, ReplEvent::Resized { cols, rows }), r),
        r matches ReplAction::Request(q) ==> call_ensures(process_request, (q, active, uptime), h),
    ensures
        input == (TermAction::Resize { cols, rows }),
        final(s)@ == old(s)@,
        r is Request,
        active.fd matches Some(f) ==> (h matches Handling::Resize { fd, size, .. } && fd == f
            && size.rows == rows && size.cols == cols),
{
    let ev = ReplEvent::Resized { cols, rows };
    assert(ev@ == (ReplEventView::Resized { cols, rows }));
    assert(r@ is Request);
    assert(active.fd is Some ==> h@ is Resize);
}

/// What the user types reaches the guest; the key that detaches does not, and ends
/// the session without an exit code.
pub proof fn law_typed_or_detached(
    key: KeyEvent,
    bytes: Vec<u8>,
    input: TermAction,
    typed: Vec<u8>,
    s: &mut ReplSession,
    r: ReplAction,
    t: &mut ReplSession,
    q: ReplAction,
)
    requires
        call_ensures(crate::keys::key_event_to_bytes, (key,), bytes),
        call_ensures(terminal_input, (TermEvent::Key(key),), input),
        call_ensures(ReplSession::step, (s, ReplEvent::Stdin(typed)), r),
        call_ensures(ReplSession::step, (t, ReplEvent::Quit), q),
    ensures
        input is Quit <==> key.code == KeyCode::Char(']') && key.control,
        !(input is Quit) ==> (input matches TermAction::Send(b) && b@ == bytes@),
        r matches ReplAction::Send(b) && b@ == typed@,
        final(s)@ == old(s)@,
        q matches ReplAction::Done { code, .. } && code == -1,
{
    assert(ReplEvent::Stdin(typed)@ == ReplEventView::Stdin(typed@));
    assert(ReplEvent::Quit@ is Quit);
    assert(r@ == ReplActionView::Send(typed@));
    assert(q@ is Done);
}

/// The session deals with the lines that came in the order in which they came,
/// each whole, and loses nothing of what comes in between.
pub proof fn law_repl_takes_lines(
    s: &mut ReplSession,
    r: ReplAction,
    line: Seq<u8>,
    rest: Seq<u8>,
    t: &mut ReplSession,
    chunk: Vec<u8>,
    q: ReplAction,
)
    requires
        !line.contains(10u8),
        old(s)@ == line + seq![10u8] + rest,
        call_ensures(ReplSession::step, (s, ReplEvent::Next), r),
        chunk@.len() > 0,
        call_ensures(ReplSession::step, (t, ReplEvent::Read(chunk)), q),
    ensures
        r matches ReplAction::Decode(l) && l@ == line + seq![10u8],
        final(s)@ == rest,
        q is Continue,
        final(t)@ == old(t)@ + chunk@,
{
    let buf = old(s)@;
    let n = line.len() as int;
    assert forall|j: int| 0 <= j < n implies buf[j] != 10u8 by {
        assert(buf[j] == line[j]);
        assert(line.contains(line[j]));
    }
    assert(buf[n] == 10u8);
    assert(buf.contains(10u8));
    crate::text::lemma_first_index_is(buf, 10u8, n);
    assert(ReplEvent::Next@ is Next);
    assert(ReplEvent::Read(chunk)@ == ReplEventView::Read(chunk@));
    assert(first_line(buf) =~= line + seq![10u8]);
    assert(rest_after_line(buf) =~= rest);
    assert(r@ is Decode);
    assert(q@ is Continue);
}

/// A session ends with the exit code of the command, in whichever form it comes;
/// without one, where the guest closes the connection, takes no more input, or
/// the input ends, it has none. Only a user who detaches is told so.
pub proof fn law_repl_ends(
    m: AgentResponse,
    code: i32,
    s: &mut ReplSession,
    r: ReplAction,
    closed: ReplAction,
    t: &mut ReplSession,
    empty: Vec<u8>,
    unwritten: ReplAction,
    u: &mut ReplSession,
    v: &mut ReplSession,
    eof: ReplAction,
    w: &mut ReplSession,
    detached: ReplAction,
)
    requires
        (m@ matches ResponseView::Event { event: EventView::Exited { exit_code }, .. } && exit_code
            == code) || (m@ matches ResponseView::Success {
            body: BodyView::Exec { exit_code: c, .. },
            ..
        } && c == code),
        call_ensures(ReplSession::step, (s, ReplEvent::Message(m)), r),
        empty@.len() == 0,
        call_ensures(ReplSession::step, (t, ReplEvent::Read(empty)), closed),
        call_ensures(ReplSession::step, (u, ReplEvent::Written(false)), unwritten),
        call_ensures(ReplSession::step, (v, ReplEvent::StdinClosed), eof),
        call_ensures(ReplSession::step, (w, ReplEvent::Quit), detached),
    ensures
        r matches ReplAction::Done { code: c, notice } && c == code && notice@ == ""@,
        closed matches ReplAction::Done { code: c, notice } && c == -1 && notice@ == ""@,
        unwritten matches ReplAction::Done { code: c, notice } && c == -1 && notice@ == ""@,
        eof matches ReplAction::Done { code: c, notice } && c == -1 && notice@ == ""@,
        detached matches ReplAction::Done { code: c, notice } && c == -1 && notice@
            == "\r\n[detached from coffer shell]\r\n"@,
{
    assert(ReplEvent::StdinClosed@ is StdinClosed && ReplEvent::Quit@ is Quit);
    assert(eof@ is Done && detached@ is Done);
    assert(ReplEvent::Message(m)@ == ReplEventView::Message(m@));
    assert(ReplEvent::Read(empty)@ == ReplEventView::Read(empty@));
    assert(ReplEvent::Written(false)@ == ReplEventView::Written(false));
    assert(r@ is Done && closed@ is Done && unwritten@ is Done);
}

/// An error of the agent, or of the connection, ends the session with its words;
/// a line that cannot be decoded is passed over.
pub proof fn law_repl_breaks(
    m: AgentResponse,
    why: String,
    s: &mut ReplSession,
    r: ReplAction,
    t: &mut ReplSession,
    q: ReplAction,
    u: &mut ReplSession,
    p: ReplAction,
)
    requires
        m@ matches ResponseView::Error { message, .. } && message == why@,
        call_ensures(ReplSession::step, (s, ReplEvent::Message(m)), r),
        call_ensures(ReplSession::step, (t, ReplEvent::ReadFailed(why)), q),
        call_ensures(ReplSession::step, (u, ReplEvent::BadMessage), p),
    ensures
        r matches ReplAction::Fail(e) && e@ == "Agent error: "@ + why@,
        q matches ReplAction::Fail(e) && e@ == "Read error: "@ + why@,
        p is Continue,
        final(u)@ == old(u)@,
{
    assert(ReplEvent::Message(m)@ == ReplEventView::Message(m@));
    assert(ReplEvent::ReadFailed(why)@ == ReplEventView::ReadFailed(why@));
    assert(ReplEvent::BadMessage@ is BadMessage);
    assert(r@ is Fail && q@ is Fail && p@ is Continue);
}

} // verus!
