//! Messages between host and guest, and the line framing that carries them.
//!
//! Every message is one line: its encoding, which holds no line feed, and a
//! line feed after it.

use vstd::prelude::*;
use vstd::slice::{slice_subrange, slice_to_vec};

use crate::text::{find_byte, first_index, lemma_first_index, lemma_first_index_is, strs, Text};

verus! {

broadcast use vstd::string::group_string_axioms;

/// The vsock port on which the agent listens.
pub const COFFER_VSOCK_PORT: u32 = 1024;

/// The version of the agent.
pub const COFFER_AGENT_VERSION: &'static str = "0.1.0";

/// The byte that ends a frame.
pub const LINE_FEED: u8 = 10;

// ---------------------------------------------------------------------
// Messages
// ---------------------------------------------------------------------

/// The size of a terminal.
#[derive(Debug, Clone, Copy, PartialEq, Eq, Structural)]
pub struct WindowSize {
    pub rows: u16,
    pub cols: u16,
}

/// A request of the host. In a valid one the variables of `env` have distinct
/// names.
#[derive(Debug, Clone)]
pub enum AgentRequest {
    Exec {
        request_id: String,
        cmd: Vec<String>,
        env: Vec<(String, String)>,
        working_dir: Option<String>,
        stdin: Option<Vec<u8>>,
        timeout_ms: Option<u64>,
        interactive: bool,
        tty: bool,
        window_size: Option<WindowSize>,
    },
    Upload { request_id: String, guest_path: String, data: Vec<u8>, mode: Option<u32> },
    Download { request_id: String, guest_path: String },
    Ping { request_id: String },
    ResizePty { cols: u16, rows: u16 },
}

/// A message of the guest.
#[derive(Debug, Clone)]
pub enum AgentResponse {
    Success { request_id: String, body: ResponseBody },
    Error { request_id: String, code: ErrorCode, message: String },
    Event { request_id: String, event: ExecEvent },
}

#[derive(Debug, Clone)]
pub enum ResponseBody {
    Exec { exit_code: i32, stdout: String, stderr: String, duration_ms: u64 },
    Upload { bytes_written: u64 },
    Download { data: Vec<u8> },
    Pong { agent_version: String, uptime_secs: u64 },
}

#[derive(Debug, Clone)]
pub enum ExecEvent {
    Stdout { chunk: String },
    Stderr { chunk: String },
    Exited { exit_code: i32 },
}

#[derive(Debug, Clone, Copy, PartialEq, Eq, Structural)]
pub enum ErrorCode {
    InvalidRequest,
    ExecFailed,
    FileNotFound,
    PermissionDenied,
    Timeout,
    IoError,
    InternalError,
}

// ---------------------------------------------------------------------
// Views of the messages
// ---------------------------------------------------------------------

/// The views of a sequence of pairs of strings.
pub open spec fn pairs(v: Seq<(String, String)>) -> Seq<(Text, Text)> {
    v.map_values(|p: (String, String)| (p.0@, p.1@))
}

/// No variable is set twice.
pub open spec fn distinct_names(v: Seq<(Text, Text)>) -> bool {
    forall|i: int, j: int| 0 <= i < j < v.len() ==> (#[trigger] v[i]).0 != (#[trigger] v[j]).0
}

/// The view of an optional string.
pub open spec fn opt_text(s: Option<String>) -> Option<Text> {
    match s {
        Some(t) => Some(t@),
        None => None,
    }
}

/// The view of an optional vector of bytes.
pub open spec fn opt_bytes(s: Option<Vec<u8>>) -> Option<Seq<u8>> {
    match s {
        Some(t) => Some(t@),
        None => None,
    }
}

pub enum RequestView {
    Exec {
        request_id: Text,
        cmd: Seq<Text>,
        env: Seq<(Text, Text)>,
        working_dir: Option<Text>,
        stdin: Option<Seq<u8>>,
        timeout_ms: Option<u64>,
        interactive: bool,
        tty: bool,
        window_size: Option<WindowSize>,
    },
    Upload { request_id: Text, guest_path: Text, data: Seq<u8>, mode: Option<u32> },
    Download { request_id: Text, guest_path: Text },
    Ping { request_id: Text },
    ResizePty { cols: u16, rows: u16 },
}

impl RequestView {
    /// A request to execute a command sets no variable twice.
    pub open spec fn valid(self) -> bool {
        self matches RequestView::Exec { env, .. } ==> distinct_names(env)
    }
}

impl View for AgentRequest {
    type V = RequestView;

    open spec fn view(&self) -> RequestView {
        match *self {
            AgentRequest::Exec {
                request_id,
                cmd,
                env,
                working_dir,
                stdin,
                timeout_ms,
                interactive,
                tty,
                window_size,
            } => RequestView::Exec {
                request_id: request_id@,
                cmd: strs(cmd@),
                env: pairs(env@),
                working_dir: opt_text(working_dir),
                stdin: opt_bytes(stdin),
                timeout_ms,
                interactive,
                tty,
                window_size,
            },
            AgentRequest::Upload { request_id, guest_path, data, mode } => RequestView::Upload {
                request_id: request_id@,
                guest_path: guest_path@,
                data: data@,
                mode,
            },
            AgentRequest::Download { request_id, guest_path } => RequestView::Download {
                request_id: request_id@,
                guest_path: guest_path@,
            },
            AgentRequest::Ping { request_id } => RequestView::Ping { request_id: request_id@ },
            AgentRequest::ResizePty { cols, rows } => RequestView::ResizePty { cols, rows },
        }
    }
}

pub enum BodyView {
    Exec { exit_code: i32, stdout: Text, stderr: Text, duration_ms: u64 },
    Upload { bytes_written: u64 },
    Download { data: Seq<u8> },
    Pong { agent_version: Text, uptime_secs: u64 },
}

impl View for ResponseBody {
    type V = BodyView;

    open spec fn view(&self) -> BodyView {
        match *self {
            ResponseBody::Exec { exit_code, stdout, stderr, duration_ms } => BodyView::Exec {
                exit_code,
                stdout: stdout@,
                stderr: stderr@,
                duration_ms,
            },
            ResponseBody::Upload { bytes_written } => BodyView::Upload { bytes_written },
            ResponseBody::Download { data } => BodyView::Download { data: data@ },
            ResponseBody::Pong { agent_version, uptime_secs } => BodyView::Pong {
                agent_version: agent_version@,
                uptime_secs,
            },
        }
    }
}

pub enum EventView {
    Stdout { chunk: Text },
    Stderr { chunk: Text },
    Exited { exit_code: i32 },
}

impl View for ExecEvent {
    type V = EventView;

    open spec fn view(&self) -> EventView {
        match *self {
            ExecEvent::Stdout { chunk } => EventView::Stdout { chunk: chunk@ },
            ExecEvent::Stderr { chunk } => EventView::Stderr { chunk: chunk@ },
            ExecEvent::Exited { exit_code } => EventView::Exited { exit_code },
        }
    }
}

pub enum ResponseView {
    Success { request_id: Text, body: BodyView },
    Error { request_id: Text, code: ErrorCode, message: Text },
    Event { request_id: Text, event: EventView },
}

impl View for AgentResponse {
    type V = ResponseView;

    open spec fn view(&self) -> ResponseView {
        match *self {
            AgentResponse::Success { request_id, body } => ResponseView::Success {
                request_id: request_id@,
                body: body@,
            },
            AgentResponse::Error { request_id, code, message } => ResponseView::Error {
                request_id: request_id@,
                code,
                message: message@,
            },
            AgentResponse::Event { request_id, event } => ResponseView::Event {
                request_id: request_id@,
                event: event@,
            },
        }
    }
}

/// The name of an error code.
pub open spec fn code_name(code: ErrorCode) -> Text {
    match code {
        ErrorCode::InvalidRequest => "InvalidRequest"@,
        ErrorCode::ExecFailed => "ExecFailed"@,
        ErrorCode::FileNotFound => "FileNotFound"@,
        ErrorCode::PermissionDenied => "PermissionDenied"@,
        ErrorCode::Timeout => "Timeout"@,
        ErrorCode::IoError => "IoError"@,
        ErrorCode::InternalError => "InternalError"@,
    }
}

impl ErrorCode {
    /// The name of the code, as its `Debug` form gives it.
    pub fn name(&self) -> (r: &'static str)
        ensures
            r@ == code_name(*self),
    {
        match self {
            ErrorCode::InvalidRequest => "InvalidRequest",
            ErrorCode::ExecFailed => "ExecFailed",
            ErrorCode::FileNotFound => "FileNotFound",
            ErrorCode::PermissionDenied => "PermissionDenied",
            ErrorCode::Timeout => "Timeout",
            ErrorCode::IoError => "IoError",
            ErrorCode::InternalError => "InternalError",
        }
    }
}

// ---------------------------------------------------------------------
// Frames
// ---------------------------------------------------------------------

/// The frame of a payload.
pub open spec fn frame(payload: Seq<u8>) -> Seq<u8> {
    payload.push(LINE_FEED)
}

/// The frames of a sequence of payloads, one after the other.
pub open spec fn wire(payloads: Seq<Seq<u8>>) -> Seq<u8>
    decreases payloads.len(),
{
    if payloads.len() == 0 {
        seq![]
    } else {
        frame(payloads[0]) + wire(payloads.drop_first())
    }
}

/// The payloads of the complete frames at the start of `s`, in order.
pub open spec fn complete(s: Seq<u8>) -> Seq<Seq<u8>>
    decreases s.len(),
{
    let i = first_index(s, LINE_FEED);
    proof {
        lemma_first_index(s, LINE_FEED);
    }
    if i == s.len() {
        seq![]
    } else {
        seq![s.take(i)] + complete(s.skip(i + 1))
    }
}

/// What follows the last complete frame of `s`.
pub open spec fn incomplete(s: Seq<u8>) -> Seq<u8>
    decreases s.len(),
{
    let i = first_index(s, LINE_FEED);
    proof {
        lemma_first_index(s, LINE_FEED);
    }
    if i == s.len() {
        s
    } else {
        incomplete(s.skip(i + 1))
    }
}

/// The first line of `s`, with its line feed.
pub open spec fn first_line(s: Seq<u8>) -> Seq<u8> {
    s.take(first_index(s, LINE_FEED) + 1)
}

/// What follows the first line of `s`.
pub open spec fn rest_after_line(s: Seq<u8>) -> Seq<u8> {
    s.skip(first_index(s, LINE_FEED) + 1)
}

/// The frame that carries `payload`, the encoding of one message.
pub fn encode_frame(payload: Vec<u8>) -> (r: Vec<u8>)
    ensures
        r@ == frame(payload@),
{
    let mut bytes = payload;
    bytes.push(LINE_FEED);
    bytes
}

/// The payload of the first frame in `buf`; `None` where no frame is complete.
pub fn decode_frame(buf: &[u8]) -> (r: Option<Vec<u8>>)
    ensures
        r is Some <==> buf@.contains(LINE_FEED),
        r matches Some(p) ==> p@ == buf@.take(first_index(buf@, LINE_FEED)),
        r is Some <==> complete(buf@).len() > 0,
        r matches Some(p) ==> p@ == complete(buf@)[0],
{
    proof {
        lemma_first_index(buf@, LINE_FEED);
    }
    match find_byte(buf, LINE_FEED) {
        Some(pos) => {
            let p = slice_to_vec(slice_subrange(buf, 0, pos));
            assert(p@ =~= buf@.take(pos as int));
            Some(p)
        },
        None => None,
    }
}

/// Bytes received so far of which no complete line has been taken.
#[derive(Debug)]
pub struct LineBuffer {
    buf: Vec<u8>,
}

impl View for LineBuffer {
    type V = Seq<u8>;

    closed spec fn view(&self) -> Seq<u8> {
        self.buf@
    }
}

impl LineBuffer {
    pub fn new() -> (r: LineBuffer)
        ensures
            r@ == Seq::<u8>::empty(),
    {
        LineBuffer { buf: Vec::new() }
    }

    /// Adds received bytes at the end.
    pub fn push(&mut self, chunk: &[u8])
        ensures
            final(self)@ == old(self)@ + chunk@,
    {
        self.buf.extend_from_slice(chunk);
    }

    /// Takes the first line, with its line feed; where no line is complete,
    /// nothing is taken.
    pub fn next_line(&mut self) -> (r: Option<Vec<u8>>)
        ensures
            r is Some <==> old(self)@.contains(LINE_FEED),
            r is None ==> final(self)@ == old(self)@,
            r matches Some(line) ==> {
                &&& line@ == first_line(old(self)@)
                &&& line@ == frame(complete(old(self)@)[0])
                &&& final(self)@ == rest_after_line(old(self)@)
            },
            r is Some ==> complete(old(self)@) == seq![complete(old(self)@)[0]] + complete(final(self)@),
            incomplete(final(self)@) == incomplete(old(self)@),
    {
        proof {
            lemma_first_index(self.buf@, LINE_FEED);
        }
        let end: usize = self.buf.len();
        match find_byte(self.buf.as_slice(), LINE_FEED) {
            Some(pos) => {
                assert(pos < end);
                let line = slice_to_vec(slice_subrange(self.buf.as_slice(), 0, pos + 1));
                let rest = self.buf.split_off(pos + 1);
                self.buf = rest;
                proof {
                    let o = old(self)@;
                    assert(line@ =~= o.take(pos + 1));
                    assert(self@ =~= o.skip(pos + 1));
                    assert(line@ =~= frame(o.take(pos as int)));
                }
                Some(line)
            },
            None => None,
        }
    }
}

// ---------------------------------------------------------------------
// Laws of the framing
// ---------------------------------------------------------------------

/// The first frame on the wire decodes to the payload that was encoded,
/// whatever follows it.
pub proof fn law_decode_encoded(payload: Seq<u8>, rest: Seq<u8>)
    requires
        !payload.contains(LINE_FEED),
    ensures
        complete(frame(payload) + rest) == seq![payload] + complete(rest),
        incomplete(frame(payload) + rest) == incomplete(rest),
{
    let s = frame(payload) + rest;
    let n = payload.len() as int;
    assert(s[n] == LINE_FEED);
    assert forall|j: int| 0 <= j < n implies s[j] != LINE_FEED by {
        assert(s[j] == payload[j]);
        assert(payload.contains(payload[j]));
    }
    lemma_first_index_is(s, LINE_FEED, n);
    assert(s.take(n) =~= payload);
    assert(s.skip(n + 1) =~= rest);
}

/// Payloads come off the wire as they were put on it, in order and none lost.
pub proof fn law_wire_round_trip(payloads: Seq<Seq<u8>>, rest: Seq<u8>)
    requires
        forall|i: int| 0 <= i < payloads.len() ==> !(#[trigger] payloads[i]).contains(LINE_FEED),
    ensures
        complete(wire(payloads) + rest) == payloads + complete(rest),
        incomplete(wire(payloads) + rest) == incomplete(rest),
    decreases payloads.len(),
{
    if payloads.len() == 0 {
        assert(wire(payloads) + rest =~= rest);
        assert(payloads + complete(rest) =~= complete(rest));
    } else {
        let tl = payloads.drop_first();
        assert forall|i: int| 0 <= i < tl.len() implies !(#[trigger] tl[i]).contains(LINE_FEED) by {
            assert(tl[i] == payloads[i + 1]);
        }
        law_wire_round_trip(tl, rest);
        law_decode_encoded(payloads[0], wire(tl) + rest);
        assert(wire(payloads) + rest =~= frame(payloads[0]) + (wire(tl) + rest));
        assert(seq![payloads[0]] + (tl + complete(rest)) =~= payloads + complete(rest));
    }
}

/// Messages come off the wire as they were put on it, whatever the format of the
/// payloads is: it only has to be without line feeds, as JSON on one line is, and
/// to be decoded to what was encoded.
pub proof fn law_messages_round_trip<M>(
    encode: spec_fn(M) -> Seq<u8>,
    decode: spec_fn(Seq<u8>) -> Option<M>,
    messages: Seq<M>,
    rest: Seq<u8>,
)
    requires
        forall|i: int|
            0 <= i < messages.len() ==> !encode(#[trigger] messages[i]).contains(LINE_FEED),
        forall|i: int|
            0 <= i < messages.len() ==> decode(encode(#[trigger] messages[i])) == Some(messages[i]),
    ensures
        complete(wire(messages.map_values(encode)) + rest).len() == messages.len() + complete(
            rest,
        ).len(),
        forall|i: int|
            0 <= i < messages.len() ==> decode(
                #[trigger] complete(wire(messages.map_values(encode)) + rest)[i],
            ) == Some(messages[i]),
{
    let payloads = messages.map_values(encode);
    assert forall|i: int| 0 <= i < payloads.len() implies !(#[trigger] payloads[i]).contains(
        LINE_FEED,
    ) by {
        assert(payloads[i] == encode(messages[i]));
    }
    law_wire_round_trip(payloads, rest);
    assert forall|i: int| 0 <= i < messages.len() implies decode(
        #[trigger] complete(wire(payloads) + rest)[i],
    ) == Some(messages[i]) by {
        assert(complete(wire(payloads) + rest)[i] == encode(messages[i]));
    }
}

/// The first frame on the wire decodes to the message that was encoded, whatever
/// follows it: nothing, part of a frame, or further frames. The format of the
/// payloads only has to be as above.
pub proof fn law_decode_undoes_encode<M>(
    encode: spec_fn(M) -> Seq<u8>,
    decode: spec_fn(Seq<u8>) -> Option<M>,
    message: M,
    rest: Seq<u8>,
)
    requires
        !encode(message).contains(LINE_FEED),
        decode(encode(message)) == Some(message),
    ensures
        complete(frame(encode(message)) + rest).len() > 0,
        decode(complete(frame(encode(message)) + rest)[0]) == Some(message),
{
    law_decode_encoded(encode(message), rest);
}

/// How the bytes are cut into chunks does not matter: taking the lines of a
/// first part and then those of its rest with the second part gives the lines
/// of the whole.
pub proof fn law_chunking(a: Seq<u8>, b: Seq<u8>)
    ensures
        complete(a + b) == complete(a) + complete(incomplete(a) + b),
        incomplete(a + b) == incomplete(incomplete(a) + b),
    decreases a.len(),
{
    lemma_first_index(a, LINE_FEED);
    let i = first_index(a, LINE_FEED);
    if i == a.len() {
        assert(complete(a) + complete(incomplete(a) + b) =~= complete(a + b));
    } else {
        let s = a + b;
        assert(s[i] == LINE_FEED);
        assert forall|j: int| 0 <= j < i implies s[j] != LINE_FEED by {
            assert(s[j] == a[j]);
        }
        lemma_first_index_is(s, LINE_FEED, i);
        assert(s.take(i) =~= a.take(i));
        assert(s.skip(i + 1) =~= a.skip(i + 1) + b);
        law_chunking(a.skip(i + 1), b);
        assert(seq![a.take(i)] + (complete(a.skip(i + 1)) + complete(incomplete(a) + b))
            =~= complete(a) + complete(incomplete(a) + b));
    }
}

/// No line is held back: what is left over holds no line feed.
pub proof fn law_incomplete_has_no_line(s: Seq<u8>)
    ensures
        !incomplete(s).contains(LINE_FEED),
        s == wire(complete(s)) + incomplete(s),
    decreases s.len(),
{
    lemma_first_index(s, LINE_FEED);
    let i = first_index(s, LINE_FEED);
    if i == s.len() {
        assert(wire(complete(s)) + incomplete(s) =~= s);
    } else {
        let t = s.skip(i + 1);
        law_incomplete_has_no_line(t);
        assert(complete(s).drop_first() =~= complete(t));
        assert(s =~= frame(s.take(i)) + t);
        assert(frame(s.take(i)) + (wire(complete(t)) + incomplete(t)) =~= wire(complete(s))
            + incomplete(s));
    }
}

/// What is put on the wire by one side is taken off it by the other: the payload,
/// whatever follows its frame.
pub proof fn law_frame_is_taken_off(payload: Vec<u8>, framed: Vec<u8>, buf: &[u8], r: Option<Vec<u8>>)
    requires
        !payload@.contains(10u8),
        call_ensures(encode_frame, (payload,), framed),
        framed@.is_prefix_of(buf@),
        call_ensures(decode_frame, (buf,), r),
    ensures
        r matches Some(p) && p@ == payload@,
        framed@.len() == payload@.len() + 1,
        framed@.last() == 10u8,
{
    let rest = buf@.skip(framed@.len() as int);
    assert(buf@ =~= framed@ + rest);
    law_decode_encoded(payload@, rest);
}

/// The names tell the codes apart.
pub proof fn law_code_names_tell_apart(a: ErrorCode, b: ErrorCode, x: &'static str, y: &'static str)
    requires
        call_ensures(ErrorCode::name, (&a,), x),
        call_ensures(ErrorCode::name, (&b,), y),
        x@ == y@,
    ensures
        a == b,
{
    reveal_strlit("InvalidRequest");
    reveal_strlit("ExecFailed");
    reveal_strlit("FileNotFound");
    reveal_strlit("PermissionDenied");
    reveal_strlit("Timeout");
    reveal_strlit("IoError");
    reveal_strlit("InternalError");
    assert("Timeout"@[0] == 'T' && "IoError"@[0] == 'I');
    assert(code_name(a).len() == code_name(b).len());
    assert(code_name(a)[0] == code_name(b)[0]);
}

/// A request is seen as what it is: two requests that are seen alike ask for the
/// same, part by part.
pub proof fn law_requests_are_seen_as_they_are(
    id: String,
    cmd: Vec<String>,
    env: Vec<(String, String)>,
    dir: String,
    stdin: Vec<u8>,
    timeout_ms: Option<u64>,
    interactive: bool,
    tty: bool,
    window_size: Option<WindowSize>,
    mode: Option<u32>,
    rows: u16,
    cols: u16,
)
    ensures
        (AgentRequest::Exec {
            request_id: id,
            cmd,
            env,
            working_dir: Some(dir),
            stdin: Some(stdin),
            timeout_ms,
            interactive,
            tty,
            window_size,
        })@ matches RequestView::Exec {
            request_id: i,
            cmd: c,
            env: e,
            working_dir: Some(d),
            stdin: Some(s),
            timeout_ms: t,
            interactive: a,
            tty: b,
            window_size: w,
        } && {
            &&& i == id@ && d == dir@ && s == stdin@
            &&& t == timeout_ms && a == interactive && b == tty && w == window_size
            &&& c.len() == cmd@.len()
            &&& forall|k: int| 0 <= k < c.len() ==> #[trigger] c[k] == cmd@[k]@
            &&& e.len() == env@.len()
            &&& forall|k: int|
                0 <= k < e.len() ==> (#[trigger] e[k]).0 == env@[k].0@ && e[k].1 == env@[k].1@
        },
        (AgentRequest::Upload { request_id: id, guest_path: dir, data: stdin, mode })@
            == (RequestView::Upload { request_id: id@, guest_path: dir@, data: stdin@, mode }),
        (AgentRequest::Download { request_id: id, guest_path: dir })@ == (RequestView::Download {
            request_id: id@,
            guest_path: dir@,
        }),
        (AgentRequest::Ping { request_id: id })@ == (RequestView::Ping { request_id: id@ }),
        (AgentRequest::ResizePty { cols, rows })@ == (RequestView::ResizePty { cols, rows }),
{
}

/// A message of the guest is seen as what it is.
pub proof fn law_responses_are_seen_as_they_are(
    id: String,
    body: ResponseBody,
    event: ExecEvent,
    code: ErrorCode,
    exit_code: i32,
    out: String,
    err: String,
    n: u64,
    data: Vec<u8>,
)
    ensures
        (AgentResponse::Success { request_id: id, body })@ == (ResponseView::Success {
            request_id: id@,
            body: body@,
        }),
        (AgentResponse::Error { request_id: id, code, message: out })@ == (ResponseView::Error {
            request_id: id@,
            code,
            message: out@,
        }),
        (AgentResponse::Event { request_id: id, event })@ == (ResponseView::Event {
            request_id: id@,
            event: event@,
        }),
        (ResponseBody::Exec { exit_code, stdout: out, stderr: err, duration_ms: n })@
            == (BodyView::Exec { exit_code, stdout: out@, stderr: err@, duration_ms: n }),
        (ResponseBody::Upload { bytes_written: n })@ == (BodyView::Upload { bytes_written: n }),
        (ResponseBody::Download { data })@ == (BodyView::Download { data: data@ }),
        (ResponseBody::Pong { agent_version: out, uptime_secs: n })@ == (BodyView::Pong {
            agent_version: out@,
            uptime_secs: n,
        }),
        (ExecEvent::Stdout { chunk: out })@ == (EventView::Stdout { chunk: out@ }),
        (ExecEvent::Stderr { chunk: out })@ == (EventView::Stderr { chunk: out@ }),
        (ExecEvent::Exited { exit_code })@ == (EventView::Exited { exit_code }),
{
}

} // verus!
