use coffer::emulator::{Cell, CellColor, Modifiers, Screen, Terminal};
use coffer::keys::{key_event_to_bytes, KeyCode, KeyEvent};
use coffer::proto::{AgentRequest, AgentResponse, ErrorCode, ExecEvent, ResponseBody, WindowSize};
use coffer::repl::{
    shell_request, terminal_input, ReplAction, ReplEvent, ReplSession, TermAction, TermEvent, NO_EXIT_CODE,
    REPL_BANNER, REPL_DETACHED,
};
use coffer::tui::{
    build_status_bar, initial_size, map_color, render, screen_key, screen_request, screen_resize, session_outcome,
    AppState, Area, Color, IoAction, IoEvent, IoLoop, OutputPoll, OutputReader, ReaderAction, ReaderEvent,
    ScreenAction, ScreenInput, VsockMessage,
};

fn key(code: KeyCode) -> KeyEvent {
    KeyEvent { code, control: false, alt: false }
}

fn control(c: char) -> KeyEvent {
    KeyEvent { code: KeyCode::Char(c), control: true, alt: false }
}

fn event(event: ExecEvent) -> AgentResponse {
    AgentResponse::Event { request_id: "r".to_string(), event }
}

fn stdout(chunk: &str) -> AgentResponse {
    event(ExecEvent::Stdout { chunk: chunk.to_string() })
}

fn exec_ok(exit_code: i32) -> AgentResponse {
    AgentResponse::Success {
        request_id: "r".to_string(),
        body: ResponseBody::Exec { exit_code, stdout: String::new(), stderr: String::new(), duration_ms: 0 },
    }
}

fn failure() -> AgentResponse {
    AgentResponse::Error { request_id: "r".to_string(), code: ErrorCode::Timeout, message: "late".to_string() }
}

#[test]
fn typed_text_arrives() {
    let mut sent = Vec::new();
    for c in "héllo €".chars() {
        sent.extend(key_event_to_bytes(key(KeyCode::Char(c))));
    }
    assert_eq!(sent, "héllo €".as_bytes());
}

#[test]
fn control_keys_have_their_codes() {
    for (c, b) in [
        ('a', 1u8), ('z', 26), ('C', 3), (' ', 0), ('2', 0), ('[', 0x1b), ('\\', 0x1c), (']', 0x1d), ('^', 0x1e),
        ('_', 0x1f), ('?', 0x7f), ('8', 0x7f), ('3', 0x22), ('7', 0x26), ('+', b'+'),
    ] {
        assert_eq!(key_event_to_bytes(control(c)), vec![b], "{}", c);
    }
    let alt = KeyEvent { code: KeyCode::Char('x'), control: false, alt: true };
    assert_eq!(key_event_to_bytes(alt), b"\x1bx");
}

#[test]
fn other_keys_send_sequences() {
    let cases: Vec<(KeyCode, &[u8])> = vec![
        (KeyCode::Enter, b"\r"),
        (KeyCode::Tab, b"\t"),
        (KeyCode::Backspace, b"\x7f"),
        (KeyCode::Esc, b"\x1b"),
        (KeyCode::Up, b"\x1b[A"),
        (KeyCode::Down, b"\x1b[B"),
        (KeyCode::Right, b"\x1b[C"),
        (KeyCode::Left, b"\x1b[D"),
        (KeyCode::Home, b"\x1b[H"),
        (KeyCode::End, b"\x1b[F"),
        (KeyCode::PageUp, b"\x1b[5~"),
        (KeyCode::PageDown, b"\x1b[6~"),
        (KeyCode::Delete, b"\x1b[3~"),
        (KeyCode::Insert, b"\x1b[2~"),
        (KeyCode::F(1), b"\x1bOP"),
        (KeyCode::F(4), b"\x1bOS"),
        (KeyCode::F(5), b"\x1b[15~"),
        (KeyCode::F(12), b"\x1b[22~"),
        (KeyCode::F(0), b""),
        (KeyCode::F(13), b""),
        (KeyCode::Other, b""),
    ];
    for (code, bytes) in cases {
        assert_eq!(key_event_to_bytes(key(code)), bytes, "{:?}", code);
    }
}

#[test]
fn special_keys_are_told_apart() {
    let mut codes = vec![
        KeyCode::Up,
        KeyCode::Down,
        KeyCode::Right,
        KeyCode::Left,
        KeyCode::Home,
        KeyCode::End,
        KeyCode::PageUp,
        KeyCode::PageDown,
        KeyCode::Delete,
        KeyCode::Insert,
    ];
    codes.extend((1..=12).map(KeyCode::F));
    let mut sent: Vec<Vec<u8>> = codes.into_iter().map(|c| key_event_to_bytes(key(c))).collect();
    assert!(sent.iter().all(|b| b.len() > 1 && b[0] == 0x1b));
    let n = sent.len();
    sent.sort();
    sent.dedup();
    assert_eq!(sent.len(), n);
}

#[test]
fn the_shell_detaches_on_its_key() {
    assert!(matches!(terminal_input(TermEvent::Key(control(']'))), TermAction::Quit));
    assert!(matches!(terminal_input(TermEvent::Key(key(KeyCode::Char(']')))), TermAction::Send(b) if b == b"]"));
    assert!(matches!(terminal_input(TermEvent::Key(control('c'))), TermAction::Send(b) if b == vec![3]));
    assert!(matches!(terminal_input(TermEvent::Resize { cols: 1, rows: 2 }), TermAction::Resize { cols: 1, rows: 2 }));
    assert!(matches!(terminal_input(TermEvent::Other), TermAction::Nothing));
    assert!(matches!(terminal_input(TermEvent::Failed), TermAction::Stop));
    assert!(REPL_BANNER.contains("=== Coffer Shell ==="));
}

#[test]
fn shells_run_on_a_terminal() {
    let size = Some(WindowSize { rows: 5, cols: 6 });
    match shell_request("/bin/ash", Vec::new(), None, size) {
        AgentRequest::Exec { cmd, interactive, tty, window_size, .. } => {
            assert_eq!(cmd, vec!["/bin/ash".to_string()]);
            assert!(interactive && tty);
            assert_eq!(window_size, size);
        }
        other => panic!("{:?}", other),
    }
    match screen_request(vec!["top".to_string()], Vec::new(), None, size) {
        AgentRequest::Exec { cmd, interactive, tty, .. } => {
            assert_eq!(cmd, vec!["top".to_string()]);
            assert!(interactive && !tty);
        }
        other => panic!("{:?}", other),
    }
}

#[test]
fn the_shell_shows_what_the_guest_sends() {
    let mut s = ReplSession::new();
    assert!(matches!(s.step(ReplEvent::Next), ReplAction::Wait));
    assert!(matches!(s.step(ReplEvent::Read(b"l1\nl2".to_vec())), ReplAction::Continue));
    assert!(matches!(s.step(ReplEvent::Next), ReplAction::Decode(l) if l == b"l1\n"));
    assert!(matches!(s.step(ReplEvent::Next), ReplAction::Wait));
    assert!(matches!(s.step(ReplEvent::Message(stdout("o"))), ReplAction::Print(c) if c == "o"));
    let err = event(ExecEvent::Stderr { chunk: "e".to_string() });
    assert!(matches!(s.step(ReplEvent::Message(err)), ReplAction::PrintErr(c) if c == "e"));
    assert!(matches!(s.step(ReplEvent::Message(exec_ok(3))), ReplAction::Done { code: 3, notice: "" }));
    assert!(matches!(s.step(ReplEvent::BadMessage), ReplAction::Continue));
    assert!(matches!(s.step(ReplEvent::Stdin(vec![1])), ReplAction::Send(b) if b == vec![1]));
    assert!(matches!(
        s.step(ReplEvent::Resized { cols: 7, rows: 8 }),
        ReplAction::Request(AgentRequest::ResizePty { cols: 7, rows: 8 })
    ));
    assert!(matches!(s.step(ReplEvent::Written(true)), ReplAction::Continue));
}

#[test]
fn the_shell_ends() {
    let ends = |e| match ReplSession::new().step(e) {
        ReplAction::Done { code, notice } => (code, notice),
        other => panic!("{:?}", other),
    };
    assert_eq!(ends(ReplEvent::Quit), (NO_EXIT_CODE, REPL_DETACHED));
    assert_eq!(ends(ReplEvent::Read(Vec::new())), (-1, ""));
    assert_eq!(ends(ReplEvent::StdinClosed), (-1, ""));
    assert_eq!(ends(ReplEvent::Written(false)), (-1, ""));
    assert!(matches!(
        ReplSession::new().step(ReplEvent::ReadFailed("x".to_string())),
        ReplAction::Fail(e) if e == "Read error: x"
    ));
}

#[test]
fn the_reader_hands_output_to_the_screen() {
    let mut r = OutputReader::new();
    r.step(ReaderEvent::Read(b"a\nb\n".to_vec()));
    assert!(matches!(r.step(ReaderEvent::Next), ReaderAction::Decode(l) if l == b"a\n"));
    assert!(matches!(
        r.step(ReaderEvent::Message(stdout("é"))),
        ReaderAction::Tell(VsockMessage::Output(b)) if b == "é".as_bytes()
    ));
    match r.step(ReaderEvent::Message(exec_ok(6))) {
        ReaderAction::Finish { last_words, code } => {
            assert!(matches!(&last_words[..], [VsockMessage::Exited(6)]));
            assert_eq!(code, Some(6));
        }
        other => panic!("{:?}", other),
    }
    match r.step(ReaderEvent::ReadFailed("x".to_string())) {
        ReaderAction::Finish { last_words, code } => {
            assert!(matches!(&last_words[..], [VsockMessage::Output(b)] if b == b"Vsock read error: x\r\n"));
            assert_eq!(code, None);
        }
        other => panic!("{:?}", other),
    }
    assert!(matches!(r.step(ReaderEvent::Read(Vec::new())), ReaderAction::Finish { code: None, .. }));
    assert!(matches!(r.step(ReaderEvent::ScreenGone), ReaderAction::Continue));
    assert!(matches!(r.step(ReaderEvent::Next), ReaderAction::Read));
    r.step(ReaderEvent::Read(b"c".to_vec()));
    assert!(matches!(r.step(ReaderEvent::Next), ReaderAction::Decode(l) if l == b"b\n"));
    assert!(matches!(r.step(ReaderEvent::BadMessage), ReaderAction::Continue));
    match r.step(ReaderEvent::Message(failure())) {
        ReaderAction::Finish { last_words, code } => {
            assert!(matches!(
                &last_words[..],
                [VsockMessage::Output(b), VsockMessage::Exited(-1)] if b == b"Agent error: late\r\n"
            ));
            assert_eq!(code, Some(-1));
        }
        other => panic!("{:?}", other),
    }
}

#[test]
fn the_connection_lasts_as_long_as_its_reader() {
    let mut l = IoLoop::new();
    assert!(matches!(l.step(IoEvent::Next), IoAction::Wait { stdin: true }));
    assert!(matches!(l.step(IoEvent::Stdin(vec![1])), IoAction::Send(b) if b == vec![1]));
    assert!(matches!(l.step(IoEvent::Resized { cols: 1, rows: 2 }), IoAction::Resize { cols: 1, rows: 2 }));
    assert!(matches!(l.step(IoEvent::StdinClosed), IoAction::Wait { stdin: false }));
    assert!(matches!(l.step(IoEvent::Next), IoAction::Wait { stdin: false }));
    assert!(matches!(l.step(IoEvent::ReaderDone(Some(4))), IoAction::Done(4)));
    assert!(matches!(l.step(IoEvent::ReaderDone(None)), IoAction::Done(-1)));
    assert!(matches!(l.step(IoEvent::Written(false)), IoAction::Done(-1)));
}

fn app() -> AppState {
    AppState::new(23, 80, "vm1".to_string(), "alpine".to_string(), "sh".to_string())
}

#[test]
fn the_screen_follows_the_output() {
    let mut a = app();
    assert_eq!(a.status, "Connected");
    let output = OutputPoll::Message(VsockMessage::Output(b"hi".to_vec()));
    assert!(matches!(a.on_output(output), ScreenAction::Draw));
    assert_eq!(line(&a.terminal.screen(), 0), "hi");
    assert!(matches!(a.on_output(OutputPoll::Empty), ScreenAction::Draw));
    assert_eq!(line(&a.terminal.screen(), 0), "hi");
    assert!(!a.is_finished(false));
    assert_eq!(a.result(), -1);
    assert!(matches!(a.on_output(OutputPoll::Message(VsockMessage::Exited(-2))), ScreenAction::Draw));
    assert_eq!(a.status, "Exited (-2)");
    assert!(!a.is_finished(true));
    assert!(a.is_finished(false));
    assert!(matches!(a.on_output(OutputPoll::Disconnected), ScreenAction::Stop));
    assert_eq!(a.status, "Exited (-2)");
    assert_eq!(a.result(), -2);
    let mut b = app();
    b.on_output(OutputPoll::Disconnected);
    assert_eq!(b.status, "Disconnected");
}

#[test]
fn the_bar_takes_one_row() {
    assert_eq!(initial_size(Some(WindowSize { rows: 24, cols: 80 })), (23, 80));
    assert_eq!(initial_size(Some(WindowSize { rows: 0, cols: 3 })), (0, 3));
    assert_eq!(initial_size(None), (23, 80));
    assert!(matches!(screen_resize(100, 40), ScreenInput::Resize { screen_rows: 39, cols: 100, rows: 40 }));
    assert!(matches!(screen_key(key(KeyCode::Enter)), ScreenInput::Send(b) if b == b"\r"));
    assert!(matches!(screen_key(key(KeyCode::Other)), ScreenInput::Nothing));
}

#[test]
fn a_failed_connection_wins() {
    assert_eq!(session_outcome(Ok(1), Ok(2)), Ok(2));
    assert_eq!(session_outcome(Ok(1), Err("s".to_string())), Err("s".to_string()));
    assert_eq!(session_outcome(Err("c".to_string()), Ok(2)), Err("c".to_string()));
}

#[test]
fn the_bar_fills_its_width() {
    let a = app();
    let bar = build_status_bar(&a, 3725, 60);
    assert_eq!(bar.chars().count(), 60);
    assert!(bar.starts_with(" vm1 | alpine | Shell: sh "));
    assert!(bar.ends_with(" Connected | 01:02:05 "));
    assert_eq!(build_status_bar(&a, 0, 10), " vm1 | alp");
    assert_eq!(build_status_bar(&a, 360000, 200).chars().count(), 200);
    assert!(build_status_bar(&a, 360000, 200).ends_with("100:00:00 "));
}

/// The text of a row, without blanks at its end.
fn line(s: &Screen, row: usize) -> String {
    let texts: Vec<&str> = s.cells[row].iter().map(|c| c.as_ref().unwrap().contents.as_str()).collect();
    let text: String = texts.iter().map(|t| if t.is_empty() { " " } else { t }).collect();
    text.trim_end().to_string()
}

fn terminal(rows: u16, cols: u16, output: &[u8]) -> Terminal {
    let mut t = Terminal::new(rows, cols);
    t.show(output);
    t
}

#[test]
fn the_terminal_shows_what_the_guest_sends() {
    let s = terminal(4, 20, b"one\r\n\x1b[1;31mtwo\x1b[0m \x1b[3;4;7;48;5;9mx\x1b[2;1H").screen();
    assert_eq!((s.rows, s.cols), (4, 20));
    assert_eq!(line(&s, 0), "one");
    assert_eq!(line(&s, 1), "two x");
    assert_eq!((s.cursor_row, s.cursor_col), (1, 0));
    let look = |row: usize, col: usize| {
        let c = s.cells[row][col].as_ref().unwrap();
        (c.fg, c.bg, c.modifiers)
    };
    let plain = Modifiers { bold: false, italic: false, underlined: false, reversed: false };
    assert_eq!(look(0, 0), (CellColor::Default, CellColor::Default, plain));
    assert_eq!(look(1, 0), (CellColor::Idx(1), CellColor::Default, Modifiers { bold: true, ..plain }));
    assert_eq!(
        look(1, 4),
        (CellColor::Default, CellColor::Idx(9), Modifiers { bold: false, italic: true, underlined: true, reversed: true })
    );
    let rgb = terminal(2, 10, b"\x1b[38;2;1;2;3m\x1b[48;2;4;5;6mx").screen();
    let c = rgb.cells[0][0].as_ref().unwrap();
    assert_eq!((c.fg, c.bg), (CellColor::Rgb(1, 2, 3), CellColor::Rgb(4, 5, 6)));
}

#[test]
fn the_terminal_takes_output_piece_by_piece() {
    let mut t = Terminal::new(3, 10);
    for b in "a\u{e9}\x1b[2;3Hz".as_bytes() {
        t.show(&[*b]);
    }
    let s = t.screen();
    assert_eq!(line(&s, 0), "a\u{e9}");
    assert_eq!(line(&s, 1), "  z");
}

#[test]
fn a_new_size_keeps_what_is_shown() {
    let mut t = terminal(4, 10, b"abcdef");
    assert!(t.resize(6, 4));
    let s = t.screen();
    assert_eq!((s.rows, s.cols), (6, 4));
    assert_eq!(line(&s, 0), "abcd");
    let mut wide = terminal(4, 10, "\u{6f22}\u{5b57}".as_bytes());
    assert!(wide.resize(2, 12));
    assert_eq!(line(&wide.screen(), 0).replace(' ', ""), "\u{6f22}\u{5b57}");
    // A character might be cut in half: the terminal starts anew.
    assert!(!wide.resize(5, 3));
    let s = wide.screen();
    assert_eq!((s.rows, s.cols, s.cursor_row, s.cursor_col), (5, 3, 0, 0));
    assert_eq!(line(&s, 0), "");
    assert!(wide.resize(5, 3));
    wide.show(b"ok");
    assert_eq!(line(&wide.screen(), 0), "ok");
}

#[test]
fn a_terminal_can_have_any_size() {
    for (rows, cols) in [(0, 0), (1, 1), (1, 80), (24, 1), (2, 2)] {
        let mut t = terminal(rows, cols, "x\u{6f22}\u{17d8}\t\r\n\n\n\x1bM\x1b[Lend".as_bytes());
        let s = t.screen();
        assert_eq!((s.rows, s.cols), (rows.max(2), cols.max(3)));
        t.resize(24, 80);
        assert!(!t.resize(rows, cols) || cols >= 80);
        assert_eq!(t.screen().rows, rows.max(2));
    }
    let mut t = terminal(2, u16::MAX, b"\t\x1b[65535G\tx");
    assert_eq!(t.screen().cols, 65527);
    t.show(b"\t\t\x1b[200Gy\t");
}

#[test]
fn no_output_stops_the_terminal() {
    // Pieces of output, thrown together.
    let pieces: Vec<&[u8]> = vec![
        b"a", b"bc", b"\r\n", b"\n", b"\x08", b"\t", b"\x1b7", b"\x1b8", b"\x1bM", b"\x1bc", b"\x1b[L", b"\x1b[3M",
        b"\x1b[P", b"\x1b[2P", b"\x1b[@", b"\x1b[3@", b"\x1b[J", b"\x1b[1J", b"\x1b[K", b"\x1b[1K", b"\x1b[X", b"\x1b[2;3r",
        b"\x1b[r", b"\x1b[5S", b"\x1b[5T", b"\x1b[?1049h", b"\x1b[?1049l", b"\x1b[?47h", b"\x1b[?47l", b"\x1b[?6h",
        b"\x1b[?6l", b"\x1b[9;9H", b"\x1b[H", b"\x1b[3G", b"\x1b[2D", b"\x1b[2C", b"\x1b[8;1;1t", b"\x1b[A", b"\x1b[B",
        "\u{6f22}".as_bytes(), "\u{17d8}".as_bytes(), "\u{301}".as_bytes(), "\u{1f600}".as_bytes(), b"\xe6", b"\xff",
    ];
    let mut seed: u64 = 1;
    let mut next = |n: usize| {
        seed = seed.wrapping_mul(6364136223846793005).wrapping_add(1442695040888963407);
        (seed >> 33) as usize % n
    };
    for round in 0..600 {
        let ascii = round % 2 == 0;
        let mut t = Terminal::new(next(6) as u16, next(8) as u16);
        for _ in 0..200 {
            if next(12) == 0 {
                t.resize(next(7) as u16, next(9) as u16);
            } else {
                let piece = pieces[next(pieces.len())];
                if !ascii || piece.is_ascii() {
                    t.show(piece);
                }
            }
        }
        let s = t.screen();
        assert_eq!(s.cells.len(), s.rows as usize);
        assert!(s.cells.iter().all(|r| r.len() == s.cols as usize && r.iter().all(|c| c.is_some())));
        assert!(s.cursor_row < s.rows && s.cursor_col <= s.cols);
    }
}

#[test]
fn the_screen_draws_its_terminal() {
    let mut a = app();
    a.on_output(OutputPoll::Message(VsockMessage::Output(b"\x1b[32mok".to_vec())));
    let frame = Area { x: 0, y: 0, width: 80, height: 24 };
    let drawn = a.draw(Area { x: 0, y: 0, width: 80, height: 23 }, frame);
    assert_eq!(drawn.len(), 80 * 23);
    assert_eq!((drawn[0].symbol.as_str(), drawn[0].fg), ("o", Color::Indexed(2)));
    assert_eq!((drawn[1].symbol.as_str(), drawn[2].symbol.as_str()), ("k", " "));
    assert!(a.update_size(39, 100));
    assert_eq!(a.draw(Area { x: 0, y: 0, width: 80, height: 23 }, frame).len(), 80 * 23);
    assert_eq!(a.terminal.screen().cols, 100);
    assert_eq!(line(&a.terminal.screen(), 0), "ok");
    assert!(a.update_size(10, 2));
    assert_eq!(line(&a.terminal.screen(), 0), "ok");
    assert_eq!(a.status, "Connected");
}

fn cell(contents: &str) -> Cell {
    Cell {
        contents: contents.to_string(),
        fg: CellColor::Idx(3),
        bg: CellColor::Default,
        modifiers: Modifiers { bold: true, italic: false, underlined: false, reversed: false },
    }
}

#[test]
fn cells_are_drawn_where_they_belong() {
    let s = Screen {
        rows: 2,
        cols: 3,
        cells: vec![
            vec![Some(cell("a")), Some(cell("")), None],
            vec![Some(cell("b")), Some(cell("c")), Some(cell("d"))],
        ],
        cursor_row: 1,
        cursor_col: 0,
    };
    let area = Area { x: 5, y: 7, width: 3, height: 2 };
    let frame = Area { x: 0, y: 0, width: 80, height: 24 };
    let drawn = render(&s, area, frame);
    let symbols: Vec<&str> = drawn.iter().map(|d| d.symbol.as_str()).collect();
    assert_eq!(symbols, vec!["a", " ", "b", "c", "d"]);
    assert_eq!((drawn[2].x, drawn[2].y), (5, 8));
    // The cursor swaps the colours of its cell.
    assert_eq!((drawn[0].fg, drawn[0].bg), (Color::Indexed(3), Color::Reset));
    assert_eq!((drawn[2].fg, drawn[2].bg), (Color::Reset, Color::Indexed(3)));
    assert!(drawn[0].modifiers.bold);
    // What lies outside is left out.
    assert_eq!(render(&s, Area { x: 5, y: 7, width: 1, height: 2 }, frame).len(), 2);
    assert_eq!(render(&s, area, Area { x: 0, y: 0, width: 6, height: 8 }).len(), 1);
}

#[test]
fn colours_are_mapped() {
    assert_eq!(map_color(CellColor::Default), Color::Reset);
    assert_eq!(map_color(CellColor::Idx(9)), Color::Indexed(9));
    assert_eq!(map_color(CellColor::Rgb(1, 2, 3)), Color::Rgb(1, 2, 3));
}
