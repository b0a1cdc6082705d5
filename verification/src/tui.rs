//! The full-screen terminal: reading the guest's output, the loop of the screen,
//! the status bar, and what is drawn.

use vstd::prelude::*;
use vstd::utf8::encode_utf8;

use crate::agent::{event_message, exec_run, exit_among, final_message, handle_stream, initial_exec, is_failure,
    law_complete_transcript, output_messages, transcript, AgentEventView, ConnAction, ConnEvent};
use crate::emulator::{emulated_cols, emulated_rows, law_output_is_kept, opt_cell, row_view, shown_screen, started,
    CellColor, CellView, EmulatorState, Modifiers, Screen, ScreenView, Terminal};
use crate::keys::{key_bytes, key_event_to_bytes, KeyEvent};
use crate::numeric::{dec2, dec2_text, dec_i32_text, dec_int};
use crate::platform::lossy;
use crate::proto::{distinct_names, first_line, opt_text, ErrorCode, pairs, rest_after_line, AgentRequest, AgentResponse, BodyView,
    EventView, ExecEvent, LineBuffer, ResponseBody, ResponseView, WindowSize, LINE_FEED};
use crate::protocol::{interactive_request, is_exec_request};
use crate::repl::NO_EXIT_CODE;
use crate::text::{blanks, cat3, cat5, chars_of, pad_left, right_aligned, strs, text_of, Text};

verus! {

broadcast use vstd::string::group_string_axioms;

/// The request that the screen starts its command with: interactive, without a
/// terminal in the guest.
pub fn screen_request(
    cmd: Vec<String>,
    env: Vec<(String, String)>,
    working_dir: Option<String>,
    window_size: Option<WindowSize>,
) -> (r: AgentRequest)
    ensures
        is_exec_request(
            r@,
            strs(cmd@),
            pairs(env@),
            opt_text(working_dir),
            None,
            None,
            true,
            false,
            window_size,
        ),
        distinct_names(pairs(env@)) ==> r@.valid(),
{
    interactive_request(cmd, env, working_dir, false, window_size)
}

// ---------------------------------------------------------------------
// Reading the guest's output
// ---------------------------------------------------------------------

/// What the reader tells the screen.
#[derive(Debug)]
pub enum VsockMessage {
    Output(Vec<u8>),
    Exited(i32),
}

pub enum VsockMessageView {
    Output(Seq<u8>),
    Exited(i32),
}

impl View for VsockMessage {
    type V = VsockMessageView;

    open spec fn view(&self) -> VsockMessageView {
        match *self {
            VsockMessage::Output(b) => VsockMessageView::Output(b@),
            VsockMessage::Exited(c) => VsockMessageView::Exited(c),
        }
    }
}

/// The views of a sequence of messages.
pub open spec fn vsock_messages(v: Seq<VsockMessage>) -> Seq<VsockMessageView> {
    v.map_values(|m: VsockMessage| m@)
}

/// What happens to the reader.
#[derive(Debug)]
pub enum ReaderEvent {
    /// The last action is done.
    Next,
    /// A line was decoded.
    Message(AgentResponse),
    /// A line could not be decoded.
    BadMessage,
    /// Bytes came from the guest; none where it closed the connection.
    Read(Vec<u8>),
    ReadFailed(String),
    /// The screen takes no more messages.
    ScreenGone,
}

/// What the reader does next.
#[derive(Debug)]
pub enum ReaderAction {
    /// Decode this line and report the message.
    Decode(Vec<u8>),
    /// Wait for bytes from the guest.
    Read,
    Continue,
    /// Tell this to the screen, and report where it takes no more.
    Tell(VsockMessage),
    /// Tell this to the screen; then the reader is done, with the exit code of
    /// the command where it is known.
    Finish { last_words: Vec<VsockMessage>, code: Option<i32> },
}

pub enum ReaderEventView {
    Next,
    Message(ResponseView),
    BadMessage,
    Read(Seq<u8>),
    ReadFailed(Text),
    ScreenGone,
}

pub enum ReaderActionView {
    Decode(Seq<u8>),
    Read,
    Continue,
    Tell(VsockMessageView),
    Finish { last_words: Seq<VsockMessageView>, code: Option<i32> },
}

impl View for ReaderEvent {
    type V = ReaderEventView;

    open spec fn view(&self) -> ReaderEventView {
        match *self {
            ReaderEvent::Next => ReaderEventView::Next,
            ReaderEvent::Message(m) => ReaderEventView::Message(m@),
            ReaderEvent::BadMessage => ReaderEventView::BadMessage,
            ReaderEvent::Read(b) => ReaderEventView::Read(b@),
            ReaderEvent::ReadFailed(e) => ReaderEventView::ReadFailed(e@),
            ReaderEvent::ScreenGone => ReaderEventView::ScreenGone,
        }
    }
}

impl View for ReaderAction {
    type V = ReaderActionView;

    open spec fn view(&self) -> ReaderActionView {
        match *self {
            ReaderAction::Decode(b) => ReaderActionView::Decode(b@),
            ReaderAction::Read => ReaderActionView::Read,
            ReaderAction::Continue => ReaderActionView::Continue,
            ReaderAction::Tell(m) => ReaderActionView::Tell(m@),
            ReaderAction::Finish { last_words, code } => ReaderActionView::Finish {
                last_words: vsock_messages(last_words@),
                code,
            },
        }
    }
}

/// The state of the reader: the bytes not yet consumed, and whether their lines
/// are taken now. They are not from when the screen takes no more until more
/// bytes come.
pub struct ReaderState {
    pub buf: Seq<u8>,
    pub taking: bool,
}

/// The end of the reader with the exit code of the command.
pub open spec fn exited(code: i32) -> ReaderActionView {
    ReaderActionView::Finish { last_words: seq![VsockMessageView::Exited(code)], code: Some(code) }
}

/// What the reader does with a message: all output goes to the screen; the end
/// of the command, in either form, and an error end the reader.
pub open spec fn reader_reaction(m: ResponseView) -> ReaderActionView {
    match m {
        ResponseView::Event { event: EventView::Stdout { chunk }, .. } => ReaderActionView::Tell(
            VsockMessageView::Output(encode_utf8(chunk)),
        ),
        ResponseView::Event { event: EventView::Stderr { chunk }, .. } => ReaderActionView::Tell(
            VsockMessageView::Output(encode_utf8(chunk)),
        ),
        ResponseView::Event { event: EventView::Exited { exit_code }, .. } => exited(exit_code),
        ResponseView::Success { body: BodyView::Exec { exit_code, .. }, .. } => exited(exit_code),
        ResponseView::Error { message, .. } => ReaderActionView::Finish {
            last_words: seq![
                VsockMessageView::Output(encode_utf8("Agent error: "@ + message + "\r\n"@)),
                VsockMessageView::Exited(NO_EXIT_CODE),
            ],
            code: Some(NO_EXIT_CODE),
        },
        _ => ReaderActionView::Continue,
    }
}

/// The next state of the reader and its action.
pub open spec fn reader_step(s: ReaderState, ev: ReaderEventView) -> (ReaderState, ReaderActionView) {
    match ev {
        ReaderEventView::Next => if s.taking && s.buf.contains(LINE_FEED) {
            (
                ReaderState { buf: rest_after_line(s.buf), ..s },
                ReaderActionView::Decode(first_line(s.buf)),
            )
        } else {
            (s, ReaderActionView::Read)
        },
        ReaderEventView::Message(m) => (s, reader_reaction(m)),
        ReaderEventView::BadMessage => (s, ReaderActionView::Continue),
        ReaderEventView::Read(b) => if b.len() == 0 {
            (s, ReaderActionView::Finish { last_words: seq![], code: None })
        } else {
            (ReaderState { buf: s.buf + b, taking: true }, ReaderActionView::Continue)
        },
        ReaderEventView::ReadFailed(e) => (
            s,
            ReaderActionView::Finish {
                last_words: seq![
                    VsockMessageView::Output(encode_utf8("Vsock read error: "@ + e + "\r\n"@)),
                ],
                code: None,
            },
        ),
        ReaderEventView::ScreenGone => (
            ReaderState { taking: false, ..s },
            ReaderActionView::Continue,
        ),
    }
}

/// Reads the guest's output.
#[derive(Debug)]
pub struct OutputReader {
    read_buf: LineBuffer,
    taking: bool,
}

impl View for OutputReader {
    type V = ReaderState;

    closed spec fn view(&self) -> ReaderState {
        ReaderState { buf: self.read_buf@, taking: self.taking }
    }
}

fn tell(chunk: String) -> (r: ReaderAction)
    ensures
        r@ == ReaderActionView::Tell(VsockMessageView::Output(encode_utf8(chunk@))),
{
    ReaderAction::Tell(VsockMessage::Output(chunk.as_str().as_bytes_vec()))
}

fn finish_with(code: i32) -> (r: ReaderAction)
    ensures
        r@ == exited(code),
{
    let mut last_words: Vec<VsockMessage> = Vec::new();
    last_words.push(VsockMessage::Exited(code));
    assert(vsock_messages(last_words@) =~= seq![VsockMessageView::Exited(code)]);
    ReaderAction::Finish { last_words, code: Some(code) }
}

impl OutputReader {
    pub fn new() -> (r: OutputReader)
        ensures
            r@ == (ReaderState { buf: Seq::empty(), taking: true }),
    {
        OutputReader { read_buf: LineBuffer::new(), taking: true }
    }

    /// Takes an event and says what to do.
    pub fn step(&mut self, event: ReaderEvent) -> (r: ReaderAction)
        ensures
            final(self)@ == reader_step(old(self)@, event@).0,
            r@ == reader_step(old(self)@, event@).1,
    {
        match event {
            ReaderEvent::Next => {
                if !self.taking {
                    return ReaderAction::Read;
                }
                match self.read_buf.next_line() {
                    Some(line) => ReaderAction::Decode(line),
                    None => ReaderAction::Read,
                }
            },
            ReaderEvent::Message(m) => match m {
                AgentResponse::Event { event: ExecEvent::Stdout { chunk }, .. } => tell(chunk),
                AgentResponse::Event { event: ExecEvent::Stderr { chunk }, .. } => tell(chunk),
                AgentResponse::Event { event: ExecEvent::Exited { exit_code }, .. } => finish_with(
                    exit_code,
                ),
                AgentResponse::Success { body: ResponseBody::Exec { exit_code, .. }, .. } =>
                finish_with(exit_code),
                AgentResponse::Error { message, .. } => {
                    let text = cat3("Agent error: ", message.as_str(), "\r\n");
                    let mut last_words: Vec<VsockMessage> = Vec::new();
                    last_words.push(VsockMessage::Output(text.as_str().as_bytes_vec()));
                    last_words.push(VsockMessage::Exited(NO_EXIT_CODE));
                    assert(vsock_messages(last_words@) =~= seq![
                        VsockMessageView::Output(encode_utf8(text@)),
                        VsockMessageView::Exited(NO_EXIT_CODE),
                    ]);
                    ReaderAction::Finish { last_words, code: Some(NO_EXIT_CODE) }
                },
                _ => ReaderAction::Continue,
            },
            ReaderEvent::BadMessage => ReaderAction::Continue,
            ReaderEvent::Read(b) => {
                if b.len() == 0 {
                    let last_words: Vec<VsockMessage> = Vec::new();
                    assert(vsock_messages(last_words@) =~= Seq::<VsockMessageView>::empty());
                    ReaderAction::Finish { last_words, code: None }
                } else {
                    self.read_buf.push(b.as_slice());
                    self.taking = true;
                    ReaderAction::Continue
                }
            },
            ReaderEvent::ReadFailed(e) => {
                let text = cat3("Vsock read error: ", e.as_str(), "\r\n");
                let mut last_words: Vec<VsockMessage> = Vec::new();
                last_words.push(VsockMessage::Output(text.as_str().as_bytes_vec()));
                assert(vsock_messages(last_words@) =~= seq![
                    VsockMessageView::Output(encode_utf8(text@)),
                ]);
                ReaderAction::Finish { last_words, code: None }
            },
            ReaderEvent::ScreenGone => {
                self.taking = false;
                ReaderAction::Continue
            },
        }
    }
}

// ---------------------------------------------------------------------
// Input and output of the connection
// ---------------------------------------------------------------------

/// What happens to the connection, besides reading.
#[derive(Debug)]
pub enum IoEvent {
    /// The last action is done.
    Next,
    Stdin(Vec<u8>),
    StdinClosed,
    /// Whether the input was handed to the guest.
    Written(bool),
    Resized { cols: u16, rows: u16 },
    /// The reader is done.
    ReaderDone(Option<i32>),
}

/// What is done next.
#[derive(Debug)]
pub enum IoAction {
    /// Wait for the reader, for changes of size and, where `stdin` is set, for
    /// input.
    Wait { stdin: bool },
    /// Hand these bytes to the guest and report how that went.
    Send(Vec<u8>),
    /// Tell the guest its new size on a connection of its own; this may fail.
    Resize { cols: u16, rows: u16 },
    /// The connection is over.
    Done(i32),
}

/// What stays open of the connection.
#[derive(Debug)]
pub struct IoLoop {
    pub stdin_closed: bool,
}

impl IoLoop {
    pub fn new() -> (r: IoLoop)
        ensures
            !r.stdin_closed,
    {
        IoLoop { stdin_closed: false }
    }

    /// Takes an event and says what to do. The connection lasts until the reader
    /// is done or the guest takes no more input.
    pub fn step(&mut self, event: IoEvent) -> (r: IoAction)
        ensures
            final(self).stdin_closed == (old(self).stdin_closed || event is StdinClosed),
            match event {
                IoEvent::Next => r == (IoAction::Wait { stdin: !old(self).stdin_closed }),
                IoEvent::Stdin(b) => r == IoAction::Send(b),
                IoEvent::StdinClosed => r == (IoAction::Wait { stdin: false }),
                IoEvent::Written(ok) => if ok {
                    r == (IoAction::Wait { stdin: !old(self).stdin_closed })
                } else {
                    r == IoAction::Done(NO_EXIT_CODE)
                },
                IoEvent::Resized { cols, rows } => r == (IoAction::Resize { cols, rows }),
                IoEvent::ReaderDone(code) => r == IoAction::Done(
                    match code {
                        Some(c) => c,
                        None => NO_EXIT_CODE,
                    },
                ),
            },
    {
        match event {
            IoEvent::Next => IoAction::Wait { stdin: !self.stdin_closed },
            IoEvent::Stdin(b) => IoAction::Send(b),
            IoEvent::StdinClosed => {
                self.stdin_closed = true;
                IoAction::Wait { stdin: false }
            },
            IoEvent::Written(ok) => {
                if ok {
                    IoAction::Wait { stdin: !self.stdin_closed }
                } else {
                    IoAction::Done(NO_EXIT_CODE)
                }
            },
            IoEvent::Resized { cols, rows } => IoAction::Resize { cols, rows },
            IoEvent::ReaderDone(code) => match code {
                Some(c) => IoAction::Done(c),
                None => IoAction::Done(NO_EXIT_CODE),
            },
        }
    }
}

// ---------------------------------------------------------------------
// The screen
// ---------------------------------------------------------------------

/// What the screen shows: the terminal of the guest, and what stands in the
/// status bar.
pub struct AppState {
    pub terminal: Terminal,
    pub vm_id: String,
    pub template_id: String,
    pub shell: String,
    pub status: String,
    pub exit_code: Option<i32>,
}

/// What comes from the reader.
#[derive(Debug)]
pub enum OutputPoll {
    Message(VsockMessage),
    Empty,
    /// The reader is gone.
    Disconnected,
}

/// What the screen does with it.
#[derive(Debug)]
pub enum ScreenAction {
    /// Draw, and go on.
    Draw,
    /// Leave the loop.
    Stop,
}

/// What follows from an event of the terminal.
#[derive(Debug)]
pub enum ScreenInput {
    /// Give the terminal of the guest `screen_rows` rows and `cols` columns, the
    /// terminal itself `rows` rows, and tell the guest its size.
    Resize { screen_rows: u16, cols: u16, rows: u16 },
    /// Hand these bytes to the guest.
    Send(Vec<u8>),
    Nothing,
}

/// The rows for the guest: one is left for the status bar.
pub open spec fn screen_rows(rows: u16) -> u16 {
    if rows == 0 {
        0
    } else {
        (rows - 1) as u16
    }
}

fn rows_above_bar(rows: u16) -> (r: u16)
    ensures
        r == screen_rows(rows),
{
    if rows == 0 {
        0
    } else {
        rows - 1
    }
}

/// The rows and columns for the guest at the start; the terminal is taken to
/// have 24 rows of 80 columns where its size is unknown.
pub fn initial_size(terminal: Option<WindowSize>) -> (r: (u16, u16))
    ensures
        match terminal {
            Some(w) => r.0 == screen_rows(w.rows) && r.1 == w.cols,
            None => r.0 == 23 && r.1 == 80,
        },
{
    match terminal {
        Some(w) => (rows_above_bar(w.rows), w.cols),
        None => (23, 80),
    }
}

impl AppState {
    /// The terminal is a valid one.
    pub open spec fn wf(&self) -> bool {
        self.terminal.wf()
    }

    pub fn new(rows: u16, cols: u16, vm_id: String, template_id: String, shell: String) -> (r:
        AppState)
        ensures
            r.wf(),
            r.terminal@ == started(rows, cols),
            r.vm_id == vm_id,
            r.template_id == template_id,
            r.shell == shell,
            r.status@ == "Connected"@,
            r.exit_code is None,
    {
        AppState {
            terminal: Terminal::new(rows, cols),
            vm_id,
            template_id,
            shell,
            status: "Connected".to_owned(),
            exit_code: None,
        }
    }

    /// Gives the terminal of the guest another size, and says whether what it
    /// shows is kept.
    pub fn update_size(&mut self, rows: u16, cols: u16) -> (r: bool)
        requires
            old(self).wf(),
        ensures
            final(self).wf(),
            r == old(self).terminal@.takes_cols(emulated_cols(cols)),
            final(self).terminal@ == if r {
                old(self).terminal@.with_size(emulated_rows(rows), emulated_cols(cols))
            } else {
                started(rows, cols)
            },
            final(self).vm_id == old(self).vm_id,
            final(self).template_id == old(self).template_id,
            final(self).shell == old(self).shell,
            final(self).status == old(self).status,
            final(self).exit_code == old(self).exit_code,
    {
        self.terminal.resize(rows, cols)
    }

    /// Takes what came from the reader: output is shown by the terminal of the
    /// guest.
    pub fn on_output(&mut self, poll: OutputPoll) -> (r: ScreenAction)
        requires
            old(self).wf(),
        ensures
            final(self).wf(),
            final(self).vm_id == old(self).vm_id,
            final(self).template_id == old(self).template_id,
            final(self).shell == old(self).shell,
            r is Stop <==> poll is Disconnected,
            final(self).terminal@ == match poll {
                OutputPoll::Message(VsockMessage::Output(b)) => old(self).terminal@.with_output(b@),
                _ => old(self).terminal@,
            },
            match poll {
                OutputPoll::Message(VsockMessage::Exited(code)) => {
                    &&& final(self).status@ == "Exited ("@ + dec_int(code as int) + ")"@
                    &&& final(self).exit_code == Some(code)
                },
                OutputPoll::Disconnected => {
                    &&& final(self).exit_code == old(self).exit_code
                    &&& final(self).status@ == if old(self).exit_code is None {
                        "Disconnected"@
                    } else {
                        old(self).status@
                    }
                },
                _ => {
                    &&& final(self).status == old(self).status
                    &&& final(self).exit_code == old(self).exit_code
                },
            },
    {
        match poll {
            OutputPoll::Message(m) => {
                match m {
                    VsockMessage::Output(b) => {
                        self.terminal.show(b.as_slice());
                    },
                    VsockMessage::Exited(code) => {
                        self.exit_code = Some(code);
                        self.status = cat3("Exited (", dec_i32_text(code).as_str(), ")");
                    },
                }
                ScreenAction::Draw
            },
            OutputPoll::Empty => ScreenAction::Draw,
            OutputPoll::Disconnected => {
                if self.exit_code.is_none() {
                    self.status = "Disconnected".to_owned();
                }
                ScreenAction::Stop
            },
        }
    }

    /// What is drawn of the terminal of the guest in an area of the terminal, of
    /// which `frame` is the whole.
    pub fn draw(&self, area: Area, frame: Area) -> (r: Vec<Drawn>)
        requires
            self.wf(),
            area.x + area.width <= u16::MAX + 1,
            area.y + area.height <= u16::MAX + 1,
        ensures
            drawn_views(r@) == drawn_screen(shown_screen(self.terminal@), area, frame),
    {
        render(&self.terminal.screen(), area, frame)
    }

    /// Whether the loop ends after drawing: the command has ended and nothing
    /// more is to be shown.
    pub fn is_finished(&self, more_output: bool) -> (r: bool)
        ensures
            r == (self.exit_code is Some && !more_output),
    {
        self.exit_code.is_some() && !more_output
    }

    /// The exit code of the session.
    pub fn result(&self) -> (r: i32)
        ensures
            r == match self.exit_code {
                Some(c) => c,
                None => NO_EXIT_CODE,
            },
    {
        match self.exit_code {
            Some(c) => c,
            None => NO_EXIT_CODE,
        }
    }
}

/// What follows from a key.
pub fn screen_key(key: KeyEvent) -> (r: ScreenInput)
    ensures
        key_bytes(key).len() > 0 ==> (r matches ScreenInput::Send(b) && b@ == key_bytes(key)),
        key_bytes(key).len() == 0 ==> r is Nothing,
{
    let bytes = key_event_to_bytes(key);
    if bytes.len() > 0 {
        ScreenInput::Send(bytes)
    } else {
        ScreenInput::Nothing
    }
}

/// What follows from a new size of the terminal.
pub fn screen_resize(cols: u16, rows: u16) -> (r: ScreenInput)
    ensures
        r == (ScreenInput::Resize { screen_rows: screen_rows(rows), cols, rows }),
{
    ScreenInput::Resize { screen_rows: rows_above_bar(rows), cols, rows }
}

/// The outcome of a session from those of its two halves: an error of the
/// connection comes first, then one of the screen, whose code counts.
pub fn session_outcome(connection: Result<i32, String>, screen: Result<i32, String>) -> (r: Result<
    i32,
    String,
>)
    ensures
        r == if connection is Err {
            connection
        } else {
            screen
        },
{
    match connection {
        Err(e) => Err(e),
        Ok(_) => screen,
    }
}

// ---------------------------------------------------------------------
// Status bar
// ---------------------------------------------------------------------

/// A time span in hours, minutes and seconds.
pub open spec fn clock_text(secs: u64) -> Text {
    dec2((secs / 3600) as nat) + ":"@ + dec2((secs % 3600 / 60) as nat) + ":"@ + dec2(
        (secs % 60) as nat,
    )
}

fn clock(secs: u64) -> (r: String)
    ensures
        r@ == clock_text(secs),
{
    cat5(
        dec2_text(secs / 3600).as_str(),
        ":",
        dec2_text(secs % 3600 / 60).as_str(),
        ":",
        dec2_text(secs % 60).as_str(),
    )
}

/// The left part of the status bar.
pub open spec fn bar_left(vm_id: Text, template_id: Text, shell: Text) -> Text {
    " "@ + vm_id + " | "@ + template_id + " | Shell: "@ + shell + " "@
}

/// The right part of the status bar.
pub open spec fn bar_right(status: Text, secs: u64) -> Text {
    " "@ + status + " | "@ + clock_text(secs) + " "@
}

/// The two parts with blanks between them that fill the width; what does not fit
/// is cut off.
pub open spec fn bar(left: Text, right: Text, width: int) -> Text {
    let whole = left + blanks(width - left.len() - right.len()) + right;
    if whole.len() > width {
        whole.take(width)
    } else {
        whole
    }
}

/// The text of the status bar.
pub fn build_status_bar(app: &AppState, elapsed_secs: u64, width: u16) -> (r: String)
    ensures
        r@ == bar(
            bar_left(app.vm_id@, app.template_id@, app.shell@),
            bar_right(app.status@, elapsed_secs),
            width as int,
        ),
{
    let mut left = cat5(
        " ",
        app.vm_id.as_str(),
        " | ",
        app.template_id.as_str(),
        " | Shell: ",
    );
    left.append(app.shell.as_str());
    left.append(" ");
    let right = cat5(" ", app.status.as_str(), " | ", clock(elapsed_secs).as_str(), " ");
    let left_len = left.as_str().unicode_len();
    let w: usize = width as usize;
    let mut whole = left.clone();
    let room: usize = if left_len < w {
        w - left_len
    } else {
        0
    };
    let padded = pad_left(right.as_str(), room);
    whole.append(padded.as_str());
    proof {
        let l = left@;
        let rt = right@;
        if l.len() < w {
            assert(right_aligned(rt, room as int) =~= blanks(w - l.len() - rt.len()) + rt);
        } else {
            assert(right_aligned(rt, 0) =~= rt);
            assert(blanks(w - l.len() - rt.len()) =~= Seq::<char>::empty());
        }
        assert(whole@ =~= l + blanks(w - l.len() - rt.len()) + rt);
    }
    let cs = chars_of(whole.as_str());
    if cs.len() > w {
        let cut = text_of(&cs, 0, w);
        assert(cut@ =~= whole@.take(w as int));
        cut
    } else {
        whole
    }
}

/// The status bar fills its width exactly.
pub proof fn law_bar_fills_width(left: Text, right: Text, width: int)
    requires
        width >= 0,
    ensures
        bar(left, right, width).len() == width,
{
}

/// Where both parts fit, both are shown, at the two ends.
pub proof fn law_bar_shows_both(left: Text, right: Text, width: int)
    requires
        left.len() + right.len() <= width,
    ensures
        bar(left, right, width).take(left.len() as int) == left,
        bar(left, right, width).skip(width - right.len()) == right,
{
    let b = bar(left, right, width);
    assert(b.take(left.len() as int) =~= left);
    assert(b.skip(width - right.len()) =~= right);
}

// ---------------------------------------------------------------------
// Drawing
// ---------------------------------------------------------------------

/// A colour of the terminal.
#[derive(Debug, Clone, Copy, PartialEq, Eq, Structural)]
pub enum Color {
    Reset,
    Indexed(u8),
    Rgb(u8, u8, u8),
}

/// A part of the terminal.
#[derive(Debug, Clone, Copy, PartialEq, Eq, Structural)]
pub struct Area {
    pub x: u16,
    pub y: u16,
    pub width: u16,
    pub height: u16,
}

/// One character to draw.
#[derive(Debug)]
pub struct Drawn {
    pub x: u16,
    pub y: u16,
    pub symbol: String,
    pub fg: Color,
    pub bg: Color,
    pub modifiers: Modifiers,
}

pub struct DrawnView {
    pub x: int,
    pub y: int,
    pub symbol: Text,
    pub fg: Color,
    pub bg: Color,
    pub modifiers: Modifiers,
}

impl View for Drawn {
    type V = DrawnView;

    open spec fn view(&self) -> DrawnView {
        DrawnView {
            x: self.x as int,
            y: self.y as int,
            symbol: self.symbol@,
            fg: self.fg,
            bg: self.bg,
            modifiers: self.modifiers,
        }
    }
}

/// The views of a sequence of characters to draw.
pub open spec fn drawn_views(v: Seq<Drawn>) -> Seq<DrawnView> {
    v.map_values(|d: Drawn| d@)
}

/// The colour of the terminal for a colour of the emulator.
pub open spec fn mapped_color(c: CellColor) -> Color {
    match c {
        CellColor::Default => Color::Reset,
        CellColor::Idx(n) => Color::Indexed(n),
        CellColor::Rgb(r, g, b) => Color::Rgb(r, g, b),
    }
}

/// The colour of the terminal for a colour of the emulator.
pub fn map_color(c: CellColor) -> (r: Color)
    ensures
        r == mapped_color(c),
{
    match c {
        CellColor::Default => Color::Reset,
        CellColor::Idx(n) => Color::Indexed(n),
        CellColor::Rgb(r, g, b) => Color::Rgb(r, g, b),
    }
}

pub open spec fn smaller(a: u16, b: u16) -> u16 {
    if a <= b {
        a
    } else {
        b
    }
}

/// How a cell is drawn: an empty one as a blank, the one under the cursor with
/// its colours swapped.
pub open spec fn drawn_cell(
    s: ScreenView,
    area: Area,
    row: int,
    col: int,
    cell: CellView,
) -> DrawnView {
    let at_cursor = row == s.cursor_row && col == s.cursor_col;
    let fg = mapped_color(cell.fg);
    let bg = mapped_color(cell.bg);
    DrawnView {
        x: area.x + col,
        y: area.y + row,
        symbol: if cell.contents.len() == 0 {
            " "@
        } else {
            cell.contents
        },
        fg: if at_cursor {
            bg
        } else {
            fg
        },
        bg: if at_cursor {
            fg
        } else {
            bg
        },
        modifiers: cell.modifiers,
    }
}

/// The far end of a stretch of the terminal. No place lies beyond the largest
/// number.
pub open spec fn far(start: u16, len: u16) -> int {
    if start + len > u16::MAX {
        u16::MAX as int
    } else {
        start + len
    }
}

/// What is drawn at a place: nothing outside the frame or where a cell is
/// missing.
pub open spec fn drawn_at(s: ScreenView, area: Area, frame: Area, row: int, col: int) -> Seq<DrawnView> {
    if area.x + col >= far(frame.x, frame.width) || area.y + row >= far(frame.y, frame.height) {
        seq![]
    } else {
        match s.cells[row][col] {
            Some(cell) => seq![drawn_cell(s, area, row, col, cell)],
            None => seq![],
        }
    }
}

/// What is drawn of a row, up to a column.
pub open spec fn drawn_row(s: ScreenView, area: Area, frame: Area, row: int, col: int) -> Seq<DrawnView>
    decreases col,
{
    if col <= 0 {
        seq![]
    } else {
        drawn_row(s, area, frame, row, col - 1) + drawn_at(s, area, frame, row, col - 1)
    }
}

/// What is drawn of the first rows.
pub open spec fn drawn_rows(s: ScreenView, area: Area, frame: Area, row: int) -> Seq<DrawnView>
    decreases row,
{
    if row <= 0 {
        seq![]
    } else {
        drawn_rows(s, area, frame, row - 1) + drawn_row(
            s,
            area,
            frame,
            row - 1,
            smaller(s.cols, area.width) as int,
        )
    }
}

/// What is drawn of a screen in an area.
pub open spec fn drawn_screen(s: ScreenView, area: Area, frame: Area) -> Seq<DrawnView> {
    drawn_rows(s, area, frame, smaller(s.rows, area.height) as int)
}

fn smaller_of(a: u16, b: u16) -> (r: u16)
    ensures
        r == smaller(a, b),
{
    if a <= b {
        a
    } else {
        b
    }
}

fn far_end(start: u16, len: u16) -> (r: u16)
    ensures
        r == far(start, len),
{
    start.saturating_add(len)
}

/// What is drawn of a screen in an area of the terminal, of which `frame` is the
/// whole.
pub fn render(s: &Screen, area: Area, frame: Area) -> (r: Vec<Drawn>)
    requires
        s.wf(),
        area.x + smaller(s.cols, area.width) <= u16::MAX + 1,
        area.y + smaller(s.rows, area.height) <= u16::MAX + 1,
    ensures
        drawn_views(r@) == drawn_screen(s@, area, frame),
{
    let rows = smaller_of(s.rows, area.height);
    let cols = smaller_of(s.cols, area.width);
    let right = far_end(frame.x, frame.width);
    let bottom = far_end(frame.y, frame.height);
    let mut out: Vec<Drawn> = Vec::new();
    let mut row: u16 = 0;
    assert(drawn_views(out@) =~= drawn_rows(s@, area, frame, 0));
    while row < rows
        invariant
            s.wf(),
            area.x + cols <= u16::MAX + 1,
            area.y + rows <= u16::MAX + 1,
            rows == smaller(s.rows, area.height),
            cols == smaller(s.cols, area.width),
            right == far(frame.x, frame.width),
            bottom == far(frame.y, frame.height),
            row <= rows,
            drawn_views(out@) == drawn_rows(s@, area, frame, row as int),
        decreases rows - row,
    {
        let ghost start = drawn_views(out@);
        let mut col: u16 = 0;
        assert(drawn_views(out@) =~= start + drawn_row(s@, area, frame, row as int, 0));
        while col < cols
            invariant
                s.wf(),
                area.x + cols <= u16::MAX + 1,
                area.y + rows <= u16::MAX + 1,
                rows == smaller(s.rows, area.height),
                cols == smaller(s.cols, area.width),
                right == far(frame.x, frame.width),
                bottom == far(frame.y, frame.height),
                row < rows,
                col <= cols,
                drawn_views(out@) == start + drawn_row(s@, area, frame, row as int, col as int),
            decreases cols - col,
        {
            let ghost before = drawn_views(out@);
            let ghost old_out = out@;
            let x: u16 = area.x + col;
            let y: u16 = area.y + row;
            if x < right && y < bottom {
                assert(s@.cells[row as int] == row_view(s.cells@[row as int]));
                assert(s@.cells[row as int][col as int] == opt_cell(
                    s.cells@[row as int]@[col as int],
                ));
                match &s.cells[row as usize][col as usize] {
                    Some(cell) => {
                        let at_cursor = row == s.cursor_row && col == s.cursor_col;
                        let fg = map_color(cell.fg);
                        let bg = map_color(cell.bg);
                        let symbol = if cell.contents.as_str().unicode_len() == 0 {
                            " ".to_owned()
                        } else {
                            cell.contents.clone()
                        };
                        let d = Drawn {
                            x,
                            y,
                            symbol,
                            fg: if at_cursor {
                                bg
                            } else {
                                fg
                            },
                            bg: if at_cursor {
                                fg
                            } else {
                                bg
                            },
                            modifiers: cell.modifiers,
                        };
                        assert(d@ == drawn_cell(s@, area, row as int, col as int, cell@));
                        out.push(d);
                        assert(drawn_views(out@) =~= before + seq![d@]);
                    },
                    None => {},
                }
            }
            proof {
                let here = drawn_at(s@, area, frame, row as int, col as int);
                assert(drawn_views(out@) =~= before + here);
                assert(drawn_views(out@) =~= start + drawn_row(
                    s@,
                    area,
                    frame,
                    row as int,
                    col + 1,
                ));
            }
            col = col + 1;
        }
        row = row + 1;
    }
    out
}

// ---------------------------------------------------------------------
// Laws
// ---------------------------------------------------------------------

proof fn lemma_row_inside(s: ScreenView, area: Area, frame: Area, row: int, col: int)
    requires
        0 <= col <= smaller(s.cols, area.width),
    ensures
        forall|i: int|
            0 <= i < drawn_row(s, area, frame, row, col).len() ==> {
                let d = #[trigger] drawn_row(s, area, frame, row, col)[i];
                &&& d.y == area.y + row
                &&& area.x <= d.x < area.x + col
                &&& d.x < frame.x + frame.width
                &&& d.y < frame.y + frame.height
            },
    decreases col,
{
    if col > 0 {
        lemma_row_inside(s, area, frame, row, col - 1);
        let a = drawn_row(s, area, frame, row, col - 1);
        let b = drawn_at(s, area, frame, row, col - 1);
        assert forall|i: int| 0 <= i < drawn_row(s, area, frame, row, col).len() implies {
            let d = #[trigger] drawn_row(s, area, frame, row, col)[i];
            &&& d.y == area.y + row
            &&& area.x <= d.x < area.x + col
            &&& d.x < frame.x + frame.width
            &&& d.y < frame.y + frame.height
        } by {
            if i < a.len() {
                assert(drawn_row(s, area, frame, row, col)[i] == a[i]);
            } else {
                assert(drawn_row(s, area, frame, row, col)[i] == b[i - a.len()]);
            }
        }
    }
}

proof fn lemma_rows_inside(s: ScreenView, area: Area, frame: Area, row: int)
    requires
        0 <= row <= smaller(s.rows, area.height),
    ensures
        forall|i: int|
            0 <= i < drawn_rows(s, area, frame, row).len() ==> {
                let d = #[trigger] drawn_rows(s, area, frame, row)[i];
                &&& area.y <= d.y < area.y + row
                &&& area.x <= d.x < area.x + area.width
                &&& d.x < frame.x + frame.width
                &&& d.y < frame.y + frame.height
            },
    decreases row,
{
    if row > 0 {
        lemma_rows_inside(s, area, frame, row - 1);
        let c = smaller(s.cols, area.width) as int;
        lemma_row_inside(s, area, frame, row - 1, c);
        let a = drawn_rows(s, area, frame, row - 1);
        let b = drawn_row(s, area, frame, row - 1, c);
        assert forall|i: int| 0 <= i < drawn_rows(s, area, frame, row).len() implies {
            let d = #[trigger] drawn_rows(s, area, frame, row)[i];
            &&& area.y <= d.y < area.y + row
            &&& area.x <= d.x < area.x + area.width
            &&& d.x < frame.x + frame.width
            &&& d.y < frame.y + frame.height
        } by {
            if i < a.len() {
                assert(drawn_rows(s, area, frame, row)[i] == a[i]);
            } else {
                assert(drawn_rows(s, area, frame, row)[i] == b[i - a.len()]);
            }
        }
    }
}

/// Nothing is drawn outside the area, nor outside the frame.
pub proof fn law_drawn_inside(s: ScreenView, area: Area, frame: Area, i: int)
    requires
        0 <= i < drawn_screen(s, area, frame).len(),
    ensures
        area.x <= drawn_screen(s, area, frame)[i].x < area.x + area.width,
        area.y <= drawn_screen(s, area, frame)[i].y < area.y + area.height,
        drawn_screen(s, area, frame)[i].x < frame.x + frame.width,
        drawn_screen(s, area, frame)[i].y < frame.y + frame.height,
{
    lemma_rows_inside(s, area, frame, smaller(s.rows, area.height) as int);
}

/// The bytes that a run of messages tells the screen until the reader ends, and
/// how it ends.
pub open spec fn told(msgs: Seq<ResponseView>) -> (Seq<u8>, Option<ReaderActionView>)
    decreases msgs.len(),
{
    if msgs.len() == 0 {
        (seq![], None)
    } else {
        let rest = told(msgs.drop_first());
        match reader_reaction(msgs[0]) {
            ReaderActionView::Tell(VsockMessageView::Output(b)) => (b + rest.0, rest.1),
            ReaderActionView::Continue => rest,
            a => (seq![], Some(a)),
        }
    }
}

/// The bytes of all output among a run of events, in order.
pub open spec fn output_bytes(evs: Seq<AgentEventView>) -> Seq<u8>
    decreases evs.len(),
{
    if evs.len() == 0 {
        seq![]
    } else {
        match evs.last() {
            AgentEventView::Stdout(b) => output_bytes(evs.drop_last()) + encode_utf8(lossy(b)),
            AgentEventView::Stderr(b) => output_bytes(evs.drop_last()) + encode_utf8(lossy(b)),
            _ => output_bytes(evs.drop_last()),
        }
    }
}

proof fn lemma_told_concat(msgs: Seq<ResponseView>, tail: Seq<ResponseView>)
    requires
        told(msgs).1 is None,
    ensures
        told(msgs + tail).0 == told(msgs).0 + told(tail).0,
        told(msgs + tail).1 == told(tail).1,
    decreases msgs.len(),
{
    if msgs.len() == 0 {
        assert(msgs + tail =~= tail);
        assert(told(msgs).0 + told(tail).0 =~= told(tail).0);
    } else {
        assert((msgs + tail).drop_first() =~= msgs.drop_first() + tail);
        lemma_told_concat(msgs.drop_first(), tail);
        assert(told(msgs + tail).0 =~= told(msgs).0 + told(tail).0);
    }
}

proof fn lemma_told_output(id: Text, evs: Seq<AgentEventView>)
    ensures
        told(output_messages(id, evs)) == (output_bytes(evs), None::<ReaderActionView>),
    decreases evs.len(),
{
    if evs.len() > 0 {
        let before = evs.drop_last();
        lemma_told_output(id, before);
        let m = match evs.last() {
            AgentEventView::Stdout(b) => seq![
                event_message(id, EventView::Stdout { chunk: lossy(b) }),
            ],
            AgentEventView::Stderr(b) => seq![
                event_message(id, EventView::Stderr { chunk: lossy(b) }),
            ],
            _ => seq![],
        };
        assert(output_messages(id, evs) =~= output_messages(id, before) + m);
        lemma_told_concat(output_messages(id, before), m);
        if m.len() > 0 {
            assert(m.drop_first() =~= Seq::<ResponseView>::empty());
            assert(told(m.drop_first()) == (Seq::<u8>::empty(), None::<ReaderActionView>));
        }
        assert(told(output_messages(id, evs)).0 =~= output_bytes(evs));
    }
}

/// The screen and the agent agree: from the messages of a whole session the
/// screen gets all output of the command in order, and then its exit code.
pub proof fn law_screen_sees_session(id: Text, evs: Seq<AgentEventView>, last: AgentEventView)
    requires
        !exec_run(initial_exec(id), evs).over,
        exec_run(initial_exec(id), evs.push(last)).over,
        !is_failure(last),
    ensures
        exit_among(evs.push(last)) is Some,
        told(transcript(initial_exec(id), evs.push(last))) == (
            output_bytes(evs),
            Some(exited(exit_among(evs.push(last)).unwrap())),
        ),
{
    law_complete_transcript(id, evs, last);
    let code = exit_among(evs.push(last)).unwrap();
    let tail = seq![
        event_message(id, EventView::Exited { exit_code: code }),
        final_message(id, code),
    ];
    lemma_told_output(id, evs);
    lemma_told_concat(output_messages(id, evs), tail);
    assert(reader_reaction(tail[0]) == exited(code));
    assert(told(transcript(initial_exec(id), evs.push(last))).0 =~= output_bytes(evs));
}

/// The terminal of the guest after a run of messages: all output that the reader
/// tells the screen is shown, message by message, until the reader ends.
pub open spec fn shown_after(s: EmulatorState, msgs: Seq<ResponseView>) -> EmulatorState
    decreases msgs.len(),
{
    if msgs.len() == 0 {
        s
    } else {
        match reader_reaction(msgs[0]) {
            ReaderActionView::Tell(VsockMessageView::Output(b)) => shown_after(
                s.with_output(b),
                msgs.drop_first(),
            ),
            ReaderActionView::Continue => shown_after(s, msgs.drop_first()),
            _ => s,
        }
    }
}

/// The terminal of the guest is fed exactly the bytes that the screen is told.
pub proof fn law_told_output_is_shown(s: EmulatorState, msgs: Seq<ResponseView>)
    ensures
        shown_after(s, msgs).output() == s.output() + told(msgs).0,
        shown_after(s, msgs).size() == s.size(),
    decreases msgs.len(),
{
    if msgs.len() == 0 {
        assert(s.output() + told(msgs).0 =~= s.output());
    } else {
        match reader_reaction(msgs[0]) {
            ReaderActionView::Tell(VsockMessageView::Output(b)) => {
                law_output_is_kept(s, b, 0, 0);
                law_told_output_is_shown(s.with_output(b), msgs.drop_first());
                assert(s.output() + b + told(msgs.drop_first()).0 =~= s.output() + told(msgs).0);
            },
            ReaderActionView::Continue => {
                law_told_output_is_shown(s, msgs.drop_first());
            },
            _ => {
                assert(s.output() + told(msgs).0 =~= s.output());
            },
        }
    }
}

/// The terminal of the guest is fed all output of the command of a whole session,
/// in order.
pub proof fn law_session_output_is_shown(
    s: EmulatorState,
    id: Text,
    evs: Seq<AgentEventView>,
    last: AgentEventView,
)
    requires
        !exec_run(initial_exec(id), evs).over,
        exec_run(initial_exec(id), evs.push(last)).over,
        !is_failure(last),
    ensures
        shown_after(s, transcript(initial_exec(id), evs.push(last))).output() == s.output()
            + output_bytes(evs),
{
    law_screen_sees_session(id, evs, last);
    law_told_output_is_shown(s, transcript(initial_exec(id), evs.push(last)));
}

// ---------------------------------------------------------------------
// Laws of the drawing and of the screen
// ---------------------------------------------------------------------

proof fn lemma_row_draws(s: ScreenView, area: Area, frame: Area, row: int, upto: int, col: int) -> (i: int)
    requires
        0 <= col < upto,
        drawn_at(s, area, frame, row, col).len() == 1,
    ensures
        0 <= i < drawn_row(s, area, frame, row, upto).len(),
        drawn_row(s, area, frame, row, upto)[i] == drawn_at(s, area, frame, row, col)[0],
    decreases upto,
{
    let before = drawn_row(s, area, frame, row, upto - 1);
    if col == upto - 1 {
        before.len() as int
    } else {
        lemma_row_draws(s, area, frame, row, upto - 1, col)
    }
}

proof fn lemma_rows_draw(s: ScreenView, area: Area, frame: Area, upto: int, row: int, col: int) -> (i: int)
    requires
        0 <= row < upto,
        0 <= col < smaller(s.cols, area.width),
        drawn_at(s, area, frame, row, col).len() == 1,
    ensures
        0 <= i < drawn_rows(s, area, frame, upto).len(),
        drawn_rows(s, area, frame, upto)[i] == drawn_at(s, area, frame, row, col)[0],
    decreases upto,
{
    let before = drawn_rows(s, area, frame, upto - 1);
    if row == upto - 1 {
        let c = smaller(s.cols, area.width) as int;
        let i = lemma_row_draws(s, area, frame, row, c, col);
        before.len() + i
    } else {
        lemma_rows_draw(s, area, frame, upto - 1, row, col)
    }
}

/// Every cell of the screen that lies in the area and in the frame is drawn at its
/// place: its row below the top of the area, its column to the right of its left
/// edge, with its contents, or a blank where it has none, with its own colours,
/// which are swapped under the cursor, and with its own modifiers.
pub proof fn law_every_cell_is_drawn(
    s: &Screen,
    area: Area,
    frame: Area,
    r: Vec<Drawn>,
    row: int,
    col: int,
    cell: CellView,
    fg: Color,
    bg: Color,
)
    requires
        call_ensures(render, (s, area, frame), r),
        0 <= row < s.rows && row < area.height,
        0 <= col < s.cols && col < area.width,
        area.x + col < frame.x + frame.width && area.x + col < u16::MAX,
        area.y + row < frame.y + frame.height && area.y + row < u16::MAX,
        s@.cells[row][col] == Some(cell),
        call_ensures(map_color, (cell.fg,), fg),
        call_ensures(map_color, (cell.bg,), bg),
    ensures
        exists|i: int|
            0 <= i < r@.len() && {
                let d = #[trigger] r@[i];
                let under_cursor = row == s.cursor_row && col == s.cursor_col;
                &&& d.x == area.x + col
                &&& d.y == area.y + row
                &&& d.symbol@ == if cell.contents.len() == 0 {
                    " "@
                } else {
                    cell.contents
                }
                &&& d.fg == if under_cursor {
                    bg
                } else {
                    fg
                }
                &&& d.bg == if under_cursor {
                    fg
                } else {
                    bg
                }
                &&& d.modifiers == cell.modifiers
            },
{
    let i = lemma_rows_draw(s@, area, frame, smaller(s.rows, area.height) as int, row, col);
    assert(drawn_views(r@)[i] == r@[i]@);
}

/// The colours of the guest are the colours that are drawn.
pub proof fn law_colours_are_kept(c: CellColor, r: Color)
    requires
        call_ensures(map_color, (c,), r),
    ensures
        c matches CellColor::Idx(n) ==> r == Color::Indexed(n),
        c matches CellColor::Rgb(x, y, z) ==> r == Color::Rgb(x, y, z),
        c is Default ==> r == Color::Reset,
{
}

/// The status bar begins with the VM, the template and the shell, and ends with
/// the status and the time that has passed, in hours, minutes and seconds, where
/// there is room for all.
pub proof fn law_status_bar_tells(
    app: &AppState,
    secs: u64,
    width: u16,
    r: String,
    hours: nat,
    minutes: nat,
    seconds: nat,
    left: Text,
    right: Text,
)
    requires
        call_ensures(build_status_bar, (app, secs, width), r),
        secs == 3600 * hours + 60 * minutes + seconds,
        minutes < 60,
        seconds < 60,
        left == " "@ + app.vm_id@ + " | "@ + app.template_id@ + " | Shell: "@ + app.shell@ + " "@,
        right == " "@ + app.status@ + " | "@ + dec2(hours) + ":"@ + dec2(minutes) + ":"@ + dec2(
            seconds,
        ) + " "@,
        left.len() + right.len() <= width,
    ensures
        r@.len() == width,
        left.is_prefix_of(r@),
        right.is_suffix_of(r@),
{
    assert(secs / 3600 == hours && secs % 3600 / 60 == minutes && secs % 60 == seconds) by (
        nonlinear_arith)
        requires
            secs == 3600 * hours + 60 * minutes + seconds,
            minutes < 60,
            seconds < 60,
    ;
    let l = bar_left(app.vm_id@, app.template_id@, app.shell@);
    let t = bar_right(app.status@, secs);
    assert(l == left);
    assert(t =~= right);
    law_bar_fills_width(l, t, width as int);
    law_bar_shows_both(l, t, width as int);
    assert(r@.subrange(0, left.len() as int) =~= r@.take(left.len() as int));
    assert(r@.subrange(r@.len() - right.len(), r@.len() as int) =~= r@.skip(width - right.len()));
}

/// Once the command has ended, the screen knows its exit code, shows it, and goes
/// on only as long as there is output; whatever else comes does not change it.
pub proof fn law_screen_keeps_the_exit_code(
    app: &mut AppState,
    code: i32,
    act: ScreenAction,
    later: &mut AppState,
    bytes: Vec<u8>,
    act2: ScreenAction,
    end: &AppState,
    r: i32,
    more: bool,
    finished: bool,
)
    requires
        call_ensures(
            AppState::on_output,
            (app, OutputPoll::Message(VsockMessage::Exited(code))),
            act,
        ),
        *old(later) == *final(app),
        call_ensures(
            AppState::on_output,
            (later, OutputPoll::Message(VsockMessage::Output(bytes))),
            act2,
        ),
        *end == *final(later),
        call_ensures(AppState::result, (end,), r),
        call_ensures(AppState::is_finished, (end, more), finished),
    ensures
        act is Draw && act2 is Draw,
        r == code,
        finished <==> !more,
        final(later).terminal@ == old(later).terminal@.with_output(bytes@),
        crate::text::occurs(end.status@, dec_int(code as int)),
{
    let t = end.status@;
    let n = "Exited ("@.len() as int;
    let d = dec_int(code as int);
    assert(t.subrange(n, n + d.len()) =~= d);
    assert(crate::text::occurs_at(t, d, n));
}

/// One row of the terminal is left for the status bar, at the start and whenever
/// its size changes; the guest has all columns.
pub proof fn law_one_row_for_the_bar(
    size: WindowSize,
    first: (u16, u16),
    r: ScreenInput,
)
    requires
        size.rows > 0,
        call_ensures(initial_size, (Some(size),), first),
        call_ensures(screen_resize, (size.cols, size.rows), r),
    ensures
        first.0 + 1 == size.rows,
        first.1 == size.cols,
        r matches ScreenInput::Resize { screen_rows, cols, rows } && screen_rows + 1 == rows && rows
            == size.rows && cols == size.cols,
{
}

/// What the screen asks the guest to run is launched without a terminal, with the
/// given words, variables and directory.
pub proof fn law_screen_command_is_launched(
    cmd: Vec<String>,
    env: Vec<(String, String)>,
    working_dir: Option<String>,
    window_size: Option<WindowSize>,
    req: AgentRequest,
    came: AgentRequest,
    action: ConnAction,
)
    requires
        call_ensures(screen_request, (cmd, env, working_dir, window_size), req),
        came@ == req@,
        call_ensures(handle_stream, (ConnEvent::Request(came),), action),
    ensures
        action matches ConnAction::Interactive { cmd: c, env: e, working_dir: d, tty, .. } && strs(
            c@,
        ) == strs(cmd@) && pairs(e@) == pairs(env@) && opt_text(d) == opt_text(working_dir) && !tty,
{
    assert(ConnEvent::Request(came)@ == crate::agent::ConnEventView::Request(came@));
    assert(action@ is Interactive);
}

/// Whatever ends the reader, the user learns of it: an error of the agent and one
/// of the connection are shown, and an error of the agent has no exit code of its
/// own. A connection that is closed ends the reader without a word.
pub proof fn law_reader_ends(
    id: String,
    code: ErrorCode,
    message: String,
    s: &mut OutputReader,
    r: ReaderAction,
    t: &mut OutputReader,
    broken: ReaderAction,
    u: &mut OutputReader,
    empty: Vec<u8>,
    closed: ReaderAction,
)
    requires
        call_ensures(
            OutputReader::step,
            (s, ReaderEvent::Message(AgentResponse::Error { request_id: id, code, message })),
            r,
        ),
        call_ensures(OutputReader::step, (t, ReaderEvent::ReadFailed(message)), broken),
        empty@.len() == 0,
        call_ensures(OutputReader::step, (u, ReaderEvent::Read(empty)), closed),
    ensures
        r matches ReaderAction::Finish { last_words, code: c } && {
            &&& c == Some(-1i32)
            &&& last_words@.len() == 2
            &&& last_words@[0]@ == VsockMessageView::Output(
                encode_utf8("Agent error: "@ + message@ + "\r\n"@),
            )
            &&& last_words@[1]@ == VsockMessageView::Exited(-1i32)
        },
        broken matches ReaderAction::Finish { last_words, code: c } && {
            &&& c is None
            &&& last_words@.len() == 1
            &&& last_words@[0]@ == VsockMessageView::Output(
                encode_utf8("Vsock read error: "@ + message@ + "\r\n"@),
            )
        },
        closed matches ReaderAction::Finish { last_words, code: c } && c is None && last_words@.len()
            == 0,
{
    let m = AgentResponse::Error { request_id: id, code, message };
    assert(ReaderEvent::Message(m)@ == ReaderEventView::Message(m@));
    assert(ReaderEvent::ReadFailed(message)@ == ReaderEventView::ReadFailed(message@));
    assert(ReaderEvent::Read(empty)@ == ReaderEventView::Read(empty@));
    assert(r@ is Finish && broken@ is Finish && closed@ is Finish);
    let a = r->last_words;
    let b = broken->last_words;
    let c = closed->last_words;
    assert(vsock_messages(a@).len() == a@.len());
    assert(vsock_messages(b@).len() == b@.len());
    assert(vsock_messages(c@).len() == c@.len());
    assert(vsock_messages(a@)[0] == a@[0]@ && vsock_messages(a@)[1] == a@[1]@);
    assert(vsock_messages(b@)[0] == b@[0]@);
}

/// The reader deals with the lines that came in the order in which they came, each
/// whole, and loses nothing; once the screen takes no more, the lines wait until
/// more bytes come.
pub proof fn law_reader_takes_lines(
    s: &mut OutputReader,
    r: ReaderAction,
    line: Seq<u8>,
    rest: Seq<u8>,
    t: &mut OutputReader,
    gone: ReaderAction,
    u: &mut OutputReader,
    idle: ReaderAction,
    v: &mut OutputReader,
    chunk: Vec<u8>,
    q: ReaderAction,
)
    requires
        !line.contains(10u8),
        old(s)@.buf == line + seq![10u8] + rest,
        old(s)@.taking,
        call_ensures(OutputReader::step, (s, ReaderEvent::Next), r),
        call_ensures(OutputReader::step, (t, ReaderEvent::ScreenGone), gone),
        *old(u) == *final(t),
        call_ensures(OutputReader::step, (u, ReaderEvent::Next), idle),
        *old(v) == *final(u),
        chunk@.len() > 0,
        call_ensures(OutputReader::step, (v, ReaderEvent::Read(chunk)), q),
    ensures
        r matches ReaderAction::Decode(l) && l@ == line + seq![10u8],
        final(s)@.buf == rest,
        idle is Read,
        final(v)@.taking,
        final(v)@.buf == old(t)@.buf + chunk@,
{
    let buf = old(s)@.buf;
    let n = line.len() as int;
    assert forall|j: int| 0 <= j < n implies buf[j] != 10u8 by {
        assert(buf[j] == line[j]);
        assert(line.contains(line[j]));
    }
    assert(buf[n] == 10u8);
    assert(buf.contains(10u8));
    crate::text::lemma_first_index_is(buf, 10u8, n);
    assert(ReaderEvent::Next@ is Next);
    assert(ReaderEvent::ScreenGone@ is ScreenGone);
    assert(ReaderEvent::Read(chunk)@ == ReaderEventView::Read(chunk@));
    assert(first_line(buf) =~= line + seq![10u8]);
    assert(rest_after_line(buf) =~= rest);
    assert(r@ is Decode);
    assert(idle@ is Read);
}

/// What is drawn is the screen of the terminal as it is.
pub proof fn law_terminal_is_drawn(
    app: &AppState,
    area: Area,
    frame: Area,
    r: Vec<Drawn>,
    s: Screen,
    q: Vec<Drawn>,
)
    requires
        call_ensures(AppState::draw, (app, area, frame), r),
        call_ensures(Terminal::screen, (&app.terminal,), s),
        call_ensures(render, (&s, area, frame), q),
    ensures
        drawn_views(r@) == drawn_views(q@),
{
}

/// A key that has bytes is sent with these bytes, and no other is sent.
pub proof fn law_keys_reach_the_guest(key: KeyEvent, bytes: Vec<u8>, r: ScreenInput)
    requires
        call_ensures(key_event_to_bytes, (key,), bytes),
        call_ensures(screen_key, (key,), r),
    ensures
        r is Send <==> bytes@.len() > 0,
        r is Nothing <==> bytes@.len() == 0,
        r matches ScreenInput::Send(b) ==> b@ == bytes@,
{
}

/// A screen whose window changed shows the terminal in the new size and stays the
/// screen of its sandbox.
pub proof fn law_window_is_followed(
    app: &mut AppState,
    rows: u16,
    cols: u16,
    r: bool,
)
    requires
        old(app).wf(),
        call_ensures(AppState::update_size, (app, rows, cols), r),
    ensures
        2 <= rows && 3 <= cols <= 65527 ==> final(app).terminal@.size() == (rows, cols),
        r ==> final(app).terminal@.output() == old(app).terminal@.output(),
        final(app).vm_id == old(app).vm_id,
        final(app).template_id == old(app).template_id,
        final(app).shell == old(app).shell,
        final(app).status == old(app).status,
        final(app).exit_code == old(app).exit_code,
{
    law_output_is_kept(old(app).terminal@, seq![], emulated_rows(rows), emulated_cols(cols));
}

/// A session comes out well only where the connection and the screen did, and then
/// with the exit code of the screen.
pub proof fn law_session_comes_out(
    connection: Result<i32, String>,
    screen: Result<i32, String>,
    r: Result<i32, String>,
)
    requires
        call_ensures(session_outcome, (connection, screen), r),
    ensures
        r is Ok <==> connection is Ok && screen is Ok,
        r is Ok ==> r->Ok_0 == screen->Ok_0,
        connection matches Err(m) ==> r->Err_0@ == m@,
        connection is Ok && screen is Err ==> r->Err_0@ == screen->Err_0@,
{
}

} // verus!
