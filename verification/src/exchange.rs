//! What becomes of a request on its way from the host to the agent and back: the
//! agent does what the host asked for, and the host learns what came of it.

use vstd::prelude::*;

use crate::agent::{download_reply, exec_command, handle_stream, process_request, run_reply, start_interactive, upload_reply,
    ActivePty, ConnAction, ConnEvent, Handling, InteractiveStart, RunOutcome, Stdio, UploadOutcome};
use crate::error::{CofferError, ErrorView};
use crate::numeric::{law_parse_printed, parsed};
use crate::platform::lossy;
use crate::proto::{opt_bytes, opt_text, pairs, AgentRequest, AgentResponse, ErrorCode, RequestView, ResponseView,
    WindowSize};
use crate::protocol::{await_agent, connect_failed, connect_line, exec_reply, exec_request, handshake_failed,
    interactive_request, ping_reply, ping_request, AgentWait, ExecOutput, Handshake, HandshakeStep, HostAction, HostActionView, HostEvent,
    InteractiveSession, VsockClient};
use crate::runtime::Sandbox;
use crate::text::{strs, Text};

verus! {

broadcast use vstd::string::group_string_axioms;

// ---------------------------------------------------------------------
// Interactive commands
// ---------------------------------------------------------------------

/// An interactive command is launched as it was asked for: its words, its
/// variables, the given directory, or the root directory where none was given,
/// and a terminal of the given size where one was asked for.
pub proof fn law_interactive_launch(
    id: String,
    cmd: Vec<String>,
    env: Vec<(String, String)>,
    working_dir: Option<String>,
    tty: bool,
    size: Option<WindowSize>,
    r: InteractiveStart,
)
    requires
        call_ensures(start_interactive, (id, cmd, env, working_dir, tty, size), r),
    ensures
        r is Launch <==> cmd@.len() > 0,
        r matches InteractiveStart::Launch(l, s) ==> {
            &&& seq![l.program@] + strs(l.args@) == strs(cmd@)
            &&& pairs(l.env@) == pairs(env@)
            &&& l.dir is Some
            &&& forall|d: String| working_dir == Some(d) ==> l.dir->Some_0@ == d@
            &&& working_dir is None ==> l.dir->Some_0@ == "/"@
            &&& tty ==> l.stdio@ == (crate::agent::StdioView::Pty { size })
            &&& !tty ==> (l.stdio matches Stdio::Pipes { greeting } && greeting@ == seq![10u8])
            &&& s@.request_id == id@
            &&& s@.input_open && s@.output_open && s@.exit is None && !s@.over
        },
        r matches InteractiveStart::Refuse(a) ==> (a@ matches ResponseView::Error {
            request_id,
            code,
            ..
        } && request_id == id@ && code == ErrorCode::InvalidRequest),
{
    if cmd@.len() > 0 {
        assert(seq![strs(cmd@)[0]] + strs(cmd@).skip(1) =~= strs(cmd@));
    }
}

/// What the host asks for interactively is what the agent launches.
pub proof fn law_interactive_request_is_launched(
    cmd: Vec<String>,
    env: Vec<(String, String)>,
    working_dir: Option<String>,
    tty: bool,
    size: Option<WindowSize>,
    req: AgentRequest,
    came: AgentRequest,
    action: ConnAction,
)
    requires
        call_ensures(interactive_request, (cmd, env, working_dir, tty, size), req),
        came@ == req@,
        call_ensures(handle_stream, (ConnEvent::Request(came),), action),
    ensures
        action matches ConnAction::Interactive {
            request_id,
            cmd: c,
            env: e,
            working_dir: d,
            tty: t,
            window_size: w,
        } && strs(c@) == strs(cmd@) && pairs(e@) == pairs(env@) && opt_text(d) == opt_text(
            working_dir,
        ) && t == tty && w == size && (req@ matches RequestView::Exec { request_id: sent, .. }
            && request_id@ == sent),
{
    assert(ConnEvent::Request(came)@ == crate::agent::ConnEventView::Request(came@));
    assert(action@ is Interactive);
}

// ---------------------------------------------------------------------
// Commands that run to their end
// ---------------------------------------------------------------------

/// What the host asks the agent to run is what the agent runs: the words, the
/// variables, the directory, the input and the time limit of the request.
pub proof fn law_exec_request_is_run(
    cmd: Vec<String>,
    env: Vec<(String, String)>,
    working_dir: Option<String>,
    stdin: Option<Vec<u8>>,
    timeout_ms: Option<u64>,
    req: AgentRequest,
    came: AgentRequest,
    action: ConnAction,
    active: &ActivePty,
    uptime: u64,
    h: Handling,
)
    requires
        call_ensures(exec_request, (cmd, env, working_dir, stdin, timeout_ms), req),
        came@ == req@,
        call_ensures(handle_stream, (ConnEvent::Request(came),), action),
        call_ensures(process_request, (came, active, uptime), h),
    ensures
        action matches ConnAction::Process(q) && q@ == req@,
        cmd@.len() > 0 ==> (h matches Handling::Run { request_id, launch, timeout_ms: t } && {
            &&& req@ matches RequestView::Exec { request_id: sent, .. }
            &&& request_id@ == sent
            &&& seq![launch.program@] + strs(launch.args@) == strs(cmd@)
            &&& pairs(launch.env@) == pairs(env@)
            &&& opt_text(launch.dir) == opt_text(working_dir)
            &&& launch.stdio matches Stdio::Captured { stdin: i }
            &&& opt_bytes(i) == opt_bytes(stdin)
            &&& t == timeout_ms
        }),
        cmd@.len() == 0 ==> (h matches Handling::Reply(a) && a@ is Error),
{
    assert(ConnEvent::Request(came)@ == crate::agent::ConnEventView::Request(came@));
    assert(action@ is Process);
    if cmd@.len() > 0 {
        assert(seq![strs(cmd@)[0]] + strs(cmd@).skip(1) =~= strs(cmd@));
        assert(h@ is Run);
        assert(h->launch.stdio@ is Captured);
    } else {
        assert(h@ is Reply);
    }
}

/// A sandbox runs a command where the agent runs, without input, and within the
/// given time.
pub proof fn law_sandbox_exec_is_run(
    s: &Sandbox,
    cmd: &Vec<String>,
    env: Vec<(String, String)>,
    timeout_ms: u64,
    req: AgentRequest,
    came: AgentRequest,
    active: &ActivePty,
    uptime: u64,
    h: Handling,
)
    requires
        cmd@.len() > 0,
        call_ensures(Sandbox::exec, (s, cmd, env, timeout_ms), req),
        came@ == req@,
        call_ensures(process_request, (came, active, uptime), h),
    ensures
        h matches Handling::Run { launch, timeout_ms: t, .. } && {
            &&& seq![launch.program@] + strs(launch.args@) == strs(cmd@)
            &&& pairs(launch.env@) == pairs(env@)
            &&& launch.dir is None
            &&& launch.stdio matches Stdio::Captured { stdin: i }
            &&& i is None
            &&& t == Some(timeout_ms)
        },
{
    assert(seq![strs(cmd@)[0]] + strs(cmd@).skip(1) =~= strs(cmd@));
    assert(h@ is Run);
    assert(h->launch.stdio@ is Captured);
    assert(opt_text(h->launch.dir) is None);
}

/// The host gets back what the command left behind: its exit code, or minus one
/// where a signal ended it, each of its outputs, and the time that it took. A
/// command that did not end gives an error, which names the reason.
pub proof fn law_exec_outcome_is_told(
    id: String,
    outcome: RunOutcome,
    duration_ms: u64,
    sent: AgentResponse,
    came: AgentResponse,
    r: Result<ExecOutput, CofferError>,
)
    requires
        call_ensures(run_reply, (id, outcome, duration_ms), sent),
        came@ == sent@,
        call_ensures(exec_reply, (came,), r),
    ensures
        crate::agent::response_id_of(sent@) == id@,
        outcome matches RunOutcome::Exited { code, stdout, stderr } ==> r matches Ok(o) && {
            &&& o.exit_code == (if code is Some {
                code->Some_0
            } else {
                -1i32
            })
            &&& o.stdout@ == lossy(stdout@)
            &&& o.stderr@ == lossy(stderr@)
            &&& o.duration_ms == duration_ms
        },
        !(outcome is Exited) ==> (r matches Err(e) && e@ is AgentExec),
        outcome matches RunOutcome::SpawnFailed(why) ==> (r matches Err(e) && (
        e@ matches ErrorView::AgentExec { message, .. } && why@.is_suffix_of(message))),
        outcome matches RunOutcome::WaitFailed(why) ==> (r matches Err(e) && (
        e@ matches ErrorView::AgentExec { message, .. } && why@.is_suffix_of(message))),
{
    match outcome {
        RunOutcome::SpawnFailed(why) => {
            assert(outcome@ == crate::agent::RunOutcomeView::SpawnFailed(why@));
            assert(r is Err);
            let m = r->Err_0@->AgentExec_message;
            assert(m.subrange(m.len() - why@.len(), m.len() as int) =~= why@);
        },
        RunOutcome::WaitFailed(why) => {
            assert(outcome@ == crate::agent::RunOutcomeView::WaitFailed(why@));
            assert(r is Err);
            let m = r->Err_0@->AgentExec_message;
            assert(m.subrange(m.len() - why@.len(), m.len() as int) =~= why@);
        },
        _ => {
            assert(outcome@ is TimedOut || outcome@ is Exited);
        },
    }
}

// ---------------------------------------------------------------------
// Files
// ---------------------------------------------------------------------

/// An upload writes exactly the given bytes to the given path, which its owner
/// may change and everybody may read; the host learns whether it was written.
pub proof fn law_upload_writes(
    s: &Sandbox,
    path: &str,
    data: Vec<u8>,
    req: AgentRequest,
    came: AgentRequest,
    active: &ActivePty,
    uptime: u64,
    h: Handling,
    id: String,
    outcome: UploadOutcome,
    len: u64,
    sent: AgentResponse,
    back: AgentResponse,
    r: Result<(), CofferError>,
)
    requires
        call_ensures(Sandbox::upload_file, (s, path, data), req),
        came@ == req@,
        call_ensures(process_request, (came, active, uptime), h),
        call_ensures(upload_reply, (id, outcome, len), sent),
        back@ == sent@,
        call_ensures(Sandbox::upload_result, (back,), r),
    ensures
        h matches Handling::Write { path: p, data: d, mode: m, .. } && p@ == path@ && d@ == data@
            && m == Some(0o644u32),
        r is Ok <==> outcome is Written,
        crate::agent::response_id_of(sent@) == id@,
{
    assert(h@ is Write);
}

/// A download reads the given path, and the host gets exactly the bytes that were
/// read, or an error that names the reason.
pub proof fn law_download_reads(
    s: &Sandbox,
    path: &str,
    req: AgentRequest,
    came: AgentRequest,
    active: &ActivePty,
    uptime: u64,
    h: Handling,
    id: String,
    content: Result<Vec<u8>, String>,
    sent: AgentResponse,
    back: AgentResponse,
    r: Result<Vec<u8>, CofferError>,
)
    requires
        call_ensures(Sandbox::download_file, (s, path), req),
        came@ == req@,
        call_ensures(process_request, (came, active, uptime), h),
        call_ensures(download_reply, (id, content), sent),
        back@ == sent@,
        call_ensures(Sandbox::download_result, (back,), r),
    ensures
        h matches Handling::Read { path: p, .. } && p@ == path@,
        crate::agent::response_id_of(sent@) == id@,
        content matches Ok(d) ==> (r matches Ok(got) && got@ == d@),
        content matches Err(why) ==> (r matches Err(e) && (e@ matches ErrorView::AgentExec {
            message,
            ..
        } && why@.is_suffix_of(message))),
{
    assert(h@ is Read);
    if content is Err {
        let why = content->Err_0@;
        let m = r->Err_0@->AgentExec_message;
        assert(m.subrange(m.len() - why.len(), m.len() as int) =~= why);
    }
}

// ---------------------------------------------------------------------
// Signs of life
// ---------------------------------------------------------------------

/// A ping is answered at once, whatever else goes on, and the host learns how
/// long the agent has been running.
pub proof fn law_ping_is_answered(
    req: AgentRequest,
    came: AgentRequest,
    active: &ActivePty,
    uptime: u64,
    h: Handling,
    back: AgentResponse,
    r: Result<(String, u64), CofferError>,
)
    requires
        call_ensures(ping_request, (), req),
        came@ == req@,
        call_ensures(process_request, (came, active, uptime), h),
        h matches Handling::Reply(a) ==> back@ == a@,
        call_ensures(ping_reply, (back,), r),
    ensures
        h matches Handling::Reply(a) && (req@ matches RequestView::Ping { request_id }
            && crate::agent::response_id_of(a@) == request_id),
        r matches Ok(p) && p.1 == uptime && p.0@ == crate::proto::COFFER_AGENT_VERSION@,
{
    assert(h@ is Reply);
}

/// A terminal that is resized gets the rows and the columns that were asked for;
/// without a terminal the request is refused.
pub proof fn law_resize(
    cols: u16,
    rows: u16,
    active: &ActivePty,
    uptime: u64,
    h: Handling,
)
    requires
        call_ensures(process_request, (AgentRequest::ResizePty { cols, rows }, active, uptime), h),
    ensures
        active.fd matches Some(f) ==> (h matches Handling::Resize { fd, size, reply } && fd == f
            && size.rows == rows && size.cols == cols && reply@ is Success),
        active.fd is None ==> (h matches Handling::Reply(a) && a@ is Error),
{
    let req = AgentRequest::ResizePty { cols, rows };
    assert(req@ == (RequestView::ResizePty { cols, rows }));
    assert(h@ is Resize || h@ is Reply);
}

/// A line that cannot be decoded is answered with an error that names the reason,
/// and the connection goes on; it ends when the host closes it, and an
/// interactive session is its last.
pub proof fn law_connection(
    why: String,
    bad: ConnAction,
    eof: ConnAction,
    ended: ConnAction,
    failed: ConnAction,
    broken: ConnAction,
)
    requires
        call_ensures(handle_stream, (ConnEvent::BadRequest(why),), bad),
        call_ensures(handle_stream, (ConnEvent::Eof,), eof),
        call_ensures(handle_stream, (ConnEvent::InteractiveEnded,), ended),
        call_ensures(handle_stream, (ConnEvent::InteractiveFailed(why),), failed),
        call_ensures(handle_stream, (ConnEvent::ReadFailed(why),), broken),
    ensures
        bad matches ConnAction::Reply(a) && (a@ matches ResponseView::Error {
            request_id,
            code,
            message,
        } && request_id == "unknown"@ && code == ErrorCode::InvalidRequest && why@.is_suffix_of(
            message,
        )),
        eof is Close,
        ended is Close,
        failed matches ConnAction::ReplyAndClose(a) && (a@ matches ResponseView::Error {
            message,
            code,
            ..
        } && code == ErrorCode::InternalError && why@.is_suffix_of(message)),
        broken matches ConnAction::Fail(e) && e@ == why@,
{
    assert(ConnEvent::BadRequest(why)@ == crate::agent::ConnEventView::BadRequest(why@));
    assert(ConnEvent::InteractiveFailed(why)@ == crate::agent::ConnEventView::InteractiveFailed(
        why@,
    ));
    assert(ConnEvent::ReadFailed(why)@ == crate::agent::ConnEventView::ReadFailed(why@));
    assert(ConnEvent::Eof@ is Eof);
    assert(ConnEvent::InteractiveEnded@ is InteractiveEnded);
    assert(bad@ is Reply);
    assert(failed@ is ReplyAndClose);
    assert(eof@ is Close && ended@ is Close && broken@ is Fail);
    let m = "JSON parse error: "@ + why@;
    assert(m.subrange(m.len() - why@.len(), m.len() as int) =~= why@);
    let n = "Interactive exec failed: "@ + why@;
    assert(n.subrange(n.len() - why@.len(), n.len() as int) =~= why@);
}

// ---------------------------------------------------------------------
// The connection
// ---------------------------------------------------------------------

/// The line that asks for a port names that port.
pub proof fn law_connect_line_names_the_port(port: u32, line: String)
    requires
        call_ensures(connect_line, (port,), line),
    ensures
        line@.len() > 9,
        line@.take(8) == "CONNECT "@,
        line@.last() == '\n',
        parsed(line@.subrange(8, line@.len() - 1), 10, u32::MAX as nat) == Some(port as nat),
{
    reveal_strlit("CONNECT ");
    reveal_strlit("\n");
    law_parse_printed(port as nat, u32::MAX as nat);
    assert(line@.take(8) =~= "CONNECT "@);
    assert(line@.subrange(8, line@.len() - 1) =~= crate::numeric::dec(port as nat));
}

/// The answer to that line grants the connection if and only if its first word is
/// `OK`; what was refused is told.
pub proof fn law_handshake(
    h: &mut Handshake,
    b: u8,
    r: HandshakeStep,
)
    requires
        call_ensures(Handshake::byte, (h, b), r),
    ensures
        r is More <==> b != 10,
        b != 10 ==> final(h)@ == old(h)@ + seq![b as char],
        b == 10 ==> (r is Ready <==> old(h)@.len() >= 3 && old(h)@[0] == 'O' && old(h)@[1] == 'K'
            && old(h)@[2] == ' '),
        r matches HandshakeStep::Refused(ack) ==> ack@ == old(h)@,
{
    reveal_strlit("OK ");
    if b != 10 {
        assert(final(h)@ =~= old(h)@ + seq![b as char]);
    }
    let t = old(h)@;
    if t.len() >= 3 && t[0] == 'O' && t[1] == 'K' && t[2] == ' ' {
        assert(t.subrange(0, 3) =~= "OK "@);
        assert("OK "@.is_prefix_of(t));
    } else if "OK "@.is_prefix_of(t) {
        assert(t.subrange(0, 3) == "OK "@);
        assert(t[0] == t.subrange(0, 3)[0]);
        assert(t[1] == t.subrange(0, 3)[1]);
        assert(t[2] == t.subrange(0, 3)[2]);
    }
}

/// An agent is taken as ready only if it has answered in time, and given up only
/// once the time has passed.
pub proof fn law_agent_is_awaited(
    vm_id: &str,
    elapsed_ms: u64,
    timeout_ms: u64,
    answered: bool,
    r: AgentWait,
)
    requires
        call_ensures(await_agent, (vm_id, elapsed_ms, timeout_ms, answered), r),
    ensures
        r is Ready <==> answered && elapsed_ms <= timeout_ms,
        r is GiveUp <==> elapsed_ms > timeout_ms,
        r matches AgentWait::GiveUp(e) ==> e@ == ErrorView::AgentNotReady(vm_id@),
{
}

// ---------------------------------------------------------------------
// The host's side of an interactive session
// ---------------------------------------------------------------------

/// A session deals with the lines that came in the order in which they came, one
/// at a time and each whole, and waits once there is none: what was received in
/// between loses nothing.
pub proof fn law_session_takes_lines(
    s: &mut InteractiveSession,
    r: HostAction,
    line: Seq<u8>,
    rest: Seq<u8>,
    t: &mut InteractiveSession,
    chunk: Vec<u8>,
    q: HostAction,
)
    requires
        !line.contains(10u8),
        old(s)@.buf == line + seq![10u8] + rest,
        call_ensures(InteractiveSession::step, (s, HostEvent::Next), r),
        chunk@.len() > 0,
        call_ensures(InteractiveSession::step, (t, HostEvent::Read(chunk)), q),
    ensures
        r matches HostAction::Decode(l) && l@ == line + seq![10u8],
        final(s)@.buf == rest,
        final(s)@.stdin_closed == old(s)@.stdin_closed,
        q is Continue,
        final(t)@.buf == old(t)@.buf + chunk@,
        final(t)@.stdin_closed == old(t)@.stdin_closed,
{
    let buf = old(s)@.buf;
    let n = line.len() as int;
    assert forall|j: int| 0 <= j < n implies buf[j] != 10u8 by {
        assert(buf[j] == line[j]);
        assert(line.contains(line[j]));
    }
    assert(buf[n] == 10u8);
    assert(buf.contains(10u8));
    crate::text::lemma_first_index_is(buf, 10u8, n);
    assert(HostEvent::Next@ is Next);
    assert(HostEvent::Read(chunk)@ == crate::protocol::HostEventView::Read(chunk@));
    assert(crate::proto::first_line(buf) =~= line + seq![10u8]);
    assert(crate::proto::rest_after_line(buf) =~= rest);
    assert(r@ is Decode);
    assert(q@ is Continue);
}

/// What the user types is sent as it is; once the input has ended no more is
/// awaited, while the guest still is.
pub proof fn law_session_input(
    s: &mut InteractiveSession,
    typed: Vec<u8>,
    r: HostAction,
    t: &mut InteractiveSession,
    q: HostAction,
    u: &mut InteractiveSession,
    w: HostAction,
)
    requires
        call_ensures(InteractiveSession::step, (s, HostEvent::Stdin(typed)), r),
        call_ensures(InteractiveSession::step, (t, HostEvent::StdinClosed), q),
        !old(u)@.buf.contains(10u8),
        call_ensures(InteractiveSession::step, (u, HostEvent::Next), w),
    ensures
        r matches HostAction::Send(b) && b@ == typed@,
        final(s)@ == old(s)@,
        q is Continue,
        final(t)@.stdin_closed,
        final(t)@.buf == old(t)@.buf,
        w matches HostAction::Wait { stdin } && stdin == !old(u)@.stdin_closed,
        final(u)@ == old(u)@,
{
    assert(HostEvent::Next@ is Next);
    assert(HostEvent::StdinClosed@ is StdinClosed);
    assert(HostEvent::Stdin(typed)@ == crate::protocol::HostEventView::Stdin(typed@));
    assert(r@ == HostActionView::Send(typed@));
    assert(q@ is Continue);
    assert(w@ is Wait);
}

/// A connection that breaks ends the session with an error that names the reason.
pub proof fn law_session_breaks(
    s: &mut InteractiveSession,
    event: HostEvent,
    why: String,
    r: HostAction,
)
    requires
        event == HostEvent::ReadFailed(why) || event == HostEvent::BadMessage(why),
        call_ensures(InteractiveSession::step, (s, event), r),
    ensures
        r matches HostAction::Fail(e) && (e@ matches ErrorView::AgentCommunication(m)
            && why@.is_suffix_of(m)),
{
    assert(event@ == crate::protocol::HostEventView::ReadFailed(why@) || event@
        == crate::protocol::HostEventView::BadMessage(why@));
    assert(r@ is Fail);
    let m = r->Fail_0@->AgentCommunication_0;
    assert(m.subrange(m.len() - why@.len(), m.len() as int) =~= why@);
}

/// An error of the agent reaches the user in the same words, whatever was asked
/// for: the name of its code, and its message.
pub proof fn law_errors_are_told(
    id: String,
    code: ErrorCode,
    message: String,
    m: AgentResponse,
    name: &'static str,
    exec: Result<ExecOutput, CofferError>,
    upload: Result<(), CofferError>,
    download: Result<Vec<u8>, CofferError>,
    s: &mut InteractiveSession,
    r: HostAction,
)
    requires
        m == (AgentResponse::Error { request_id: id, code, message }),
        call_ensures(ErrorCode::name, (&code,), name),
        call_ensures(exec_reply, (m,), exec),
        call_ensures(Sandbox::upload_result, (m,), upload),
        call_ensures(Sandbox::download_result, (m,), download),
        call_ensures(InteractiveSession::step, (s, HostEvent::Message(m)), r),
    ensures
        ({
            let said = name@ + ": "@ + message@;
            &&& exec matches Err(e) && (e@ matches ErrorView::AgentExec { message: t, .. } && t == said)
            &&& upload matches Err(e) && (e@ matches ErrorView::AgentExec { message: t, .. } && t
                == said)
            &&& download matches Err(e) && (e@ matches ErrorView::AgentExec { message: t, .. } && t
                == said)
            &&& r matches HostAction::Fail(e) && (e@ matches ErrorView::AgentExec { message: t, .. }
                && t == said)
        }),
{
    assert(m@ == (ResponseView::Error { request_id: id@, code, message: message@ }));
    assert(HostEvent::Message(m)@ == crate::protocol::HostEventView::Message(m@));
    assert(r@ is Fail);
}

/// A session prints what the command wrote where it belongs, and ends with the exit
/// code of the final answer.
pub proof fn law_session_prints_and_ends(
    id: String,
    chunk: String,
    out: HostAction,
    err: HostAction,
    s: &mut InteractiveSession,
    t: &mut InteractiveSession,
    last: AgentResponse,
    code: i32,
    u: &mut InteractiveSession,
    done: HostAction,
)
    requires
        call_ensures(
            InteractiveSession::step,
            (
                s,
                HostEvent::Message(
                    AgentResponse::Event {
                        request_id: id,
                        event: crate::proto::ExecEvent::Stdout { chunk },
                    },
                ),
            ),
            out,
        ),
        call_ensures(
            InteractiveSession::step,
            (
                t,
                HostEvent::Message(
                    AgentResponse::Event {
                        request_id: id,
                        event: crate::proto::ExecEvent::Stderr { chunk },
                    },
                ),
            ),
            err,
        ),
        last@ matches ResponseView::Success {
            body: crate::proto::BodyView::Exec { exit_code, .. },
            ..
        } && exit_code == code,
        call_ensures(InteractiveSession::step, (u, HostEvent::Message(last)), done),
    ensures
        out matches HostAction::Print(x) && x@ == chunk@,
        err matches HostAction::PrintErr(x) && x@ == chunk@,
        done matches HostAction::Done(c) && c == code,
{
    let a = AgentResponse::Event { request_id: id, event: crate::proto::ExecEvent::Stdout { chunk } };
    let b = AgentResponse::Event { request_id: id, event: crate::proto::ExecEvent::Stderr { chunk } };
    assert(HostEvent::Message(a)@ == crate::protocol::HostEventView::Message(a@));
    assert(HostEvent::Message(b)@ == crate::protocol::HostEventView::Message(b@));
    assert(HostEvent::Message(last)@ == crate::protocol::HostEventView::Message(last@));
    assert(out@ is Print && err@ is PrintErr && done@ is Done);
}

/// What the agent says of an upload: how much was written, or what went wrong and
/// why.
pub proof fn law_upload_is_answered(id: String, outcome: UploadOutcome, len: u64, r: AgentResponse)
    requires
        call_ensures(upload_reply, (id, outcome, len), r),
    ensures
        outcome is Written ==> r@ == (ResponseView::Success {
            request_id: id@,
            body: crate::proto::BodyView::Upload { bytes_written: len },
        }),
        outcome matches UploadOutcome::DirFailed(e) ==> (r@ matches ResponseView::Error {
            code,
            message,
            ..
        } && code == ErrorCode::IoError && message == "Create dir failed: "@ + e@),
        outcome matches UploadOutcome::WriteFailed(e) ==> (r@ matches ResponseView::Error {
            code,
            message,
            ..
        } && code == ErrorCode::IoError && message == "Write failed: "@ + e@),
{
}

/// The answer to a call is the first line that came since, whole; what follows it
/// is the start of the next answer.
pub proof fn law_call_is_answered_by_the_next_line(
    c: &mut VsockClient,
    line: Seq<u8>,
    rest: Seq<u8>,
    r: Option<Vec<u8>>,
    d: &mut VsockClient,
    none: Option<Vec<u8>>,
    e: &mut VsockClient,
    chunk: &[u8],
    got: Result<(), CofferError>,
)
    requires
        !line.contains(10u8),
        old(c)@ == line + seq![10u8] + rest,
        call_ensures(VsockClient::reply, (c,), r),
        !old(d)@.contains(10u8),
        call_ensures(VsockClient::reply, (d,), none),
        call_ensures(VsockClient::received, (e, chunk), got),
    ensures
        r matches Some(l) && l@ == line + seq![10u8],
        final(c)@ == rest,
        none is None,
        final(d)@ == old(d)@,
        final(e)@ == old(e)@ + chunk@,
        got is Err <==> chunk@.len() == 0,
{
    let buf = old(c)@;
    let n = line.len() as int;
    assert forall|j: int| 0 <= j < n implies buf[j] != 10u8 by {
        assert(buf[j] == line[j]);
        assert(line.contains(line[j]));
    }
    assert(buf[n] == 10u8);
    assert(buf.contains(10u8));
    crate::text::lemma_first_index_is(buf, 10u8, n);
    assert(crate::proto::first_line(buf) =~= line + seq![10u8]);
    assert(crate::proto::rest_after_line(buf) =~= rest);
}

/// Input that could not be handed to the guest ends the session, and the user
/// learns how far it got.
pub proof fn law_unwritten_input_ends_the_session(
    s: &mut InteractiveSession,
    write_ok: bool,
    flush_ok: bool,
    r: HostAction,
)
    requires
        call_ensures(
            InteractiveSession::step,
            (s, HostEvent::Written { write_ok, flush_ok }),
            r,
        ),
    ensures
        r is Continue <==> write_ok && flush_ok,
        !write_ok ==> (r matches HostAction::Fail(e) && e@ == ErrorView::AgentCommunication(
            "Failed to write stdin to vsock"@,
        )),
        write_ok && !flush_ok ==> (r matches HostAction::Fail(e) && e@
            == ErrorView::AgentCommunication("Failed to flush stdin to vsock"@)),
        final(s)@ == old(s)@,
{
    let ev = HostEvent::Written { write_ok, flush_ok };
    assert(ev@ == (crate::protocol::HostEventView::Written { write_ok, flush_ok }));
    assert(r@ is Continue || r@ is Fail);
}

/// A command without words is refused as a request that makes no sense, and one
/// that did not end in time, or could not be started, as a failed command.
pub proof fn law_codes_of_refusals(
    id: String,
    cmd: Vec<String>,
    env: Vec<(String, String)>,
    dir: Option<String>,
    stdin: Option<Vec<u8>>,
    timeout_ms: Option<u64>,
    h: Handling,
    outcome: RunOutcome,
    ms: u64,
    r: AgentResponse,
)
    requires
        cmd@.len() == 0,
        call_ensures(exec_command, (id, cmd, env, dir, stdin, timeout_ms), h),
        !(outcome is Exited),
        call_ensures(run_reply, (id, outcome, ms), r),
    ensures
        h matches Handling::Reply(a) && (a@ matches ResponseView::Error { request_id, code, message }
            && request_id == id@ && code == ErrorCode::InvalidRequest && message
            == "Empty command"@),
        r@ matches ResponseView::Error { request_id, code, message } && request_id == id@ && code
            == ErrorCode::ExecFailed && (outcome is TimedOut ==> message == "Execution timed out"@),
{
    assert(h@ is Reply);
    assert(!(outcome@ is Exited));
    assert(outcome is TimedOut ==> outcome@ is TimedOut);
}

/// A connection that failed is told with the reason.
pub proof fn law_failed_connections_are_told(
    ack: &str,
    a: CofferError,
    reason: &str,
    b: CofferError,
)
    requires
        call_ensures(handshake_failed, (ack,), a),
        call_ensures(connect_failed, (reason,), b),
    ensures
        a@ matches ErrorView::AgentCommunication(m) && ack@.is_suffix_of(m),
        b@ matches ErrorView::AgentCommunication(m) && reason@.is_suffix_of(m),
{
    let x = a@->AgentCommunication_0;
    let y = b@->AgentCommunication_0;
    let i = "Firecracker vsock handshake failed: "@.len() as int;
    let j = "Connect failed: "@.len() as int;
    assert(x.subrange(i, x.len() as int) =~= ack@);
    assert(y.subrange(j, y.len() as int) =~= reason@);
}

} // verus!
