//! The terminal emulator of the `vt100` crate, and what it shows. Everything that
//! an emulator shows is a function of its first size and of what it was fed since
//! then: output of the guest, and new sizes.

use vstd::prelude::*;
use vt100::Color;

use crate::text::Text;

verus! {

broadcast use vstd::string::group_string_axioms;

// ---------------------------------------------------------------------
// What is shown
// ---------------------------------------------------------------------

/// A colour of the emulator.
#[derive(Debug, Clone, Copy, PartialEq, Eq, Structural)]
pub enum CellColor {
    Default,
    Idx(u8),
    Rgb(u8, u8, u8),
}

/// How a character looks.
#[derive(Debug, Clone, Copy, PartialEq, Eq, Structural)]
pub struct Modifiers {
    pub bold: bool,
    pub italic: bool,
    pub underlined: bool,
    pub reversed: bool,
}

/// A cell of the emulator.
#[derive(Debug)]
pub struct Cell {
    pub contents: String,
    pub fg: CellColor,
    pub bg: CellColor,
    pub modifiers: Modifiers,
}

pub struct CellView {
    pub contents: Text,
    pub fg: CellColor,
    pub bg: CellColor,
    pub modifiers: Modifiers,
}

impl View for Cell {
    type V = CellView;

    open spec fn view(&self) -> CellView {
        CellView {
            contents: self.contents@,
            fg: self.fg,
            bg: self.bg,
            modifiers: self.modifiers,
        }
    }
}

/// The view of a cell that may be missing.
pub open spec fn opt_cell(c: Option<Cell>) -> Option<CellView> {
    match c {
        Some(cell) => Some(cell@),
        None => None,
    }
}

/// The views of a row of cells.
pub open spec fn row_view(row: Vec<Option<Cell>>) -> Seq<Option<CellView>> {
    row@.map_values(|c: Option<Cell>| opt_cell(c))
}

/// The screen of the emulator: its cells row by row, of which some may be
/// missing, and the place of its cursor.
#[derive(Debug)]
pub struct Screen {
    pub rows: u16,
    pub cols: u16,
    pub cells: Vec<Vec<Option<Cell>>>,
    pub cursor_row: u16,
    pub cursor_col: u16,
}

#[verifier::ext_equal]
pub struct ScreenView {
    pub rows: u16,
    pub cols: u16,
    pub cells: Seq<Seq<Option<CellView>>>,
    pub cursor_row: u16,
    pub cursor_col: u16,
}

impl View for Screen {
    type V = ScreenView;

    open spec fn view(&self) -> ScreenView {
        ScreenView {
            rows: self.rows,
            cols: self.cols,
            cells: self.cells@.map_values(|row: Vec<Option<Cell>>| row_view(row)),
            cursor_row: self.cursor_row,
            cursor_col: self.cursor_col,
        }
    }
}

impl Screen {
    /// Every row of the screen holds a place for every column.
    pub open spec fn wf(&self) -> bool {
        &&& self.cells@.len() == self.rows
        &&& forall|i: int| 0 <= i < self.rows ==> (#[trigger] self.cells@[i])@.len() == self.cols
    }
}

// ---------------------------------------------------------------------
// What an emulator was fed
// ---------------------------------------------------------------------

/// One thing that an emulator was fed.
pub enum Fed {
    Output(Seq<u8>),
    Size { rows: u16, cols: u16 },
}

/// How an emulator was made, and what it was fed since then.
pub struct EmulatorState {
    pub rows: u16,
    pub cols: u16,
    pub scrollback: usize,
    pub steps: Seq<Fed>,
}

impl EmulatorState {
    /// With more output.
    pub open spec fn with_output(self, bytes: Seq<u8>) -> EmulatorState {
        EmulatorState { steps: self.steps.push(Fed::Output(bytes)), ..self }
    }

    /// With a new size.
    pub open spec fn with_size(self, rows: u16, cols: u16) -> EmulatorState {
        EmulatorState { steps: self.steps.push(Fed::Size { rows, cols }), ..self }
    }

    /// The rows and columns: the last that were set.
    pub open spec fn size(self) -> (u16, u16)
        decreases self.steps.len(),
    {
        if self.steps.len() == 0 {
            (self.rows, self.cols)
        } else {
            match self.steps.last() {
                Fed::Size { rows, cols } => (rows, cols),
                Fed::Output(_) => EmulatorState {
                    steps: self.steps.drop_last(),
                    ..self
                }.size(),
            }
        }
    }

    /// Whether a place lies within the size.
    pub open spec fn has_place(self, row: u16, col: u16) -> bool {
        row < self.size().0 && col < self.size().1
    }

    /// All output, in order.
    pub open spec fn output(self) -> Seq<u8>
        decreases self.steps.len(),
    {
        if self.steps.len() == 0 {
            seq![]
        } else {
            let before = EmulatorState { steps: self.steps.drop_last(), ..self }.output();
            match self.steps.last() {
                Fed::Output(bytes) => before + bytes,
                Fed::Size { .. } => before,
            }
        }
    }

    /// Whether all output was ASCII, so that no character takes two columns.
    pub open spec fn ascii_only(self) -> bool {
        is_ascii(self.output())
    }

    /// Whether so many columns can be set: a two-column character must not be cut
    /// in half.
    pub open spec fn takes_cols(self, cols: u16) -> bool {
        cols >= self.size().1 || self.ascii_only()
    }
}

pub open spec fn is_ascii(bytes: Seq<u8>) -> bool {
    forall|i: int| 0 <= i < bytes.len() ==> #[trigger] bytes[i] < 128
}

/// The fewest rows of an emulator: with one row, a line that wraps at the bottom
/// has none to come from.
pub const MIN_ROWS: u16 = 2;

/// The fewest columns of an emulator, as wide as the widest character.
pub const MIN_COLS: u16 = 3;

/// The most columns of an emulator, from which a tab still reaches a place that
/// has a number.
pub const MAX_COLS: u16 = 65527;

/// Whether an emulator can have this size.
pub open spec fn is_size(rows: u16, cols: u16) -> bool {
    MIN_ROWS <= rows && MIN_COLS <= cols <= MAX_COLS
}

// ---------------------------------------------------------------------
// The emulator
// ---------------------------------------------------------------------

/// An emulator of the `vt100` crate. Its type has a parameter that is bound by a
/// trait of that crate.
#[verifier::external_body]
pub struct Emulator {
    parser: vt100::Parser,
}

/// What an emulator was fed.
pub uninterp spec fn fed(e: Emulator) -> EmulatorState;

/// What an emulator that was fed this shows at a place.
pub uninterp spec fn shown_cell(s: EmulatorState, row: u16, col: u16) -> Option<CellView>;

/// Where the cursor of an emulator that was fed this stands.
pub uninterp spec fn shown_cursor(s: EmulatorState) -> (u16, u16);

/// `vt100::Parser::new` makes an emulator of the given size that was fed nothing.
/// A size outside these bounds may make it panic, now or when it is fed.
#[verifier::external_body]
fn new_emulator(rows: u16, cols: u16, scrollback: usize) -> (r: Emulator)
    requires
        is_size(rows, cols),
    ensures
        fed(r) == (EmulatorState { rows, cols, scrollback, steps: seq![] }),
{
    Emulator { parser: vt100::Parser::new(rows, cols, scrollback) }
}

/// `vt100::Parser::process` feeds output to the emulator.
#[verifier::external_body]
fn feed(e: &mut Emulator, bytes: &[u8])
    ensures
        fed(*final(e)) == fed(*old(e)).with_output(bytes@),
{
    e.parser.process(bytes);
}

/// `vt100::Screen::set_size` gives the emulator another size. With fewer columns
/// it would leave the first half of a two-column character that it cuts, and
/// could panic later.
#[verifier::external_body]
fn set_emulator_size(e: &mut Emulator, rows: u16, cols: u16)
    requires
        is_size(rows, cols),
        fed(*old(e)).takes_cols(cols),
    ensures
        fed(*final(e)) == fed(*old(e)).with_size(rows, cols),
{
    e.parser.screen_mut().set_size(rows, cols);
}

/// `vt100::Screen::size` gives the rows and columns that were last set.
#[verifier::external_body]
fn emulator_size(e: &Emulator) -> (r: (u16, u16))
    ensures
        r == fed(*e).size(),
{
    e.parser.screen().size()
}

/// `vt100::Screen::cursor_position` gives the row and column of the cursor, which
/// depend on what the emulator was fed.
#[verifier::external_body]
fn emulator_cursor(e: &Emulator) -> (r: (u16, u16))
    ensures
        r == shown_cursor(fed(*e)),
{
    e.parser.screen().cursor_position()
}

/// `vt100::Screen::cell` gives the cell at a place within the size, with its
/// contents, colours and attributes, which depend on what the emulator was fed.
#[verifier::external_body]
fn emulator_cell(e: &Emulator, row: u16, col: u16) -> (r: Option<Cell>)
    ensures
        opt_cell(r) == shown_cell(fed(*e), row, col),
        r is Some <==> fed(*e).has_place(row, col),
{
    let c = e.parser.screen().cell(row, col)?;
    let fg = match c.fgcolor() {
        Color::Default => CellColor::Default,
        Color::Idx(n) => CellColor::Idx(n),
        Color::Rgb(r, g, b) => CellColor::Rgb(r, g, b),
    };
    let bg = match c.bgcolor() {
        Color::Default => CellColor::Default,
        Color::Idx(n) => CellColor::Idx(n),
        Color::Rgb(r, g, b) => CellColor::Rgb(r, g, b),
    };
    let modifiers =
        Modifiers { bold: c.bold(), italic: c.italic(), underlined: c.underline(), reversed: c.inverse() };
    Some(Cell { contents: c.contents().to_string(), fg, bg, modifiers })
}

// ---------------------------------------------------------------------
// A terminal of any size
// ---------------------------------------------------------------------

/// An emulator for a terminal of any size, which is drawn as far as it fits.
pub struct Terminal {
    emulator: Emulator,
    /// Whether all output was ASCII.
    ascii: bool,
}

impl View for Terminal {
    type V = EmulatorState;

    closed spec fn view(&self) -> EmulatorState {
        fed(self.emulator)
    }
}

/// The rows of the emulator for a terminal with so many.
pub open spec fn emulated_rows(rows: u16) -> u16 {
    if rows < MIN_ROWS {
        MIN_ROWS
    } else {
        rows
    }
}

/// The columns of the emulator for a terminal with so many.
pub open spec fn emulated_cols(cols: u16) -> u16 {
    if cols < MIN_COLS {
        MIN_COLS
    } else if cols > MAX_COLS {
        MAX_COLS
    } else {
        cols
    }
}

/// A new emulator for a terminal of a size. It keeps ten times its rows that were
/// scrolled away.
pub open spec fn started(rows: u16, cols: u16) -> EmulatorState {
    EmulatorState {
        rows: emulated_rows(rows),
        cols: emulated_cols(cols),
        scrollback: (emulated_rows(rows) * 10) as usize,
        steps: seq![],
    }
}

/// What an emulator that was fed this shows.
pub open spec fn shown_screen(s: EmulatorState) -> ScreenView {
    ScreenView {
        rows: s.size().0,
        cols: s.size().1,
        cells: Seq::new(
            s.size().0 as nat,
            |row: int|
                Seq::new(s.size().1 as nat, |col: int| shown_cell(s, row as u16, col as u16)),
        ),
        cursor_row: shown_cursor(s).0,
        cursor_col: shown_cursor(s).1,
    }
}

fn clamp_rows(rows: u16) -> (r: u16)
    ensures
        r == emulated_rows(rows),
{
    if rows < MIN_ROWS {
        MIN_ROWS
    } else {
        rows
    }
}

fn clamp_cols(cols: u16) -> (r: u16)
    ensures
        r == emulated_cols(cols),
{
    if cols < MIN_COLS {
        MIN_COLS
    } else if cols > MAX_COLS {
        MAX_COLS
    } else {
        cols
    }
}

fn all_ascii(bytes: &[u8]) -> (r: bool)
    ensures
        r == is_ascii(bytes@),
{
    let mut i: usize = 0;
    while i < bytes.len()
        invariant
            i <= bytes@.len(),
            forall|j: int| 0 <= j < i ==> #[trigger] bytes@[j] < 128,
        decreases bytes@.len() - i,
    {
        if bytes[i] >= 128 {
            return false;
        }
        i = i + 1;
    }
    true
}

proof fn lemma_ascii_concat(a: Seq<u8>, b: Seq<u8>)
    ensures
        is_ascii(a + b) <==> is_ascii(a) && is_ascii(b),
{
    if is_ascii(a + b) {
        assert forall|i: int| 0 <= i < a.len() implies #[trigger] a[i] < 128 by {
            assert((a + b)[i] == a[i]);
        }
        assert forall|i: int| 0 <= i < b.len() implies #[trigger] b[i] < 128 by {
            assert((a + b)[a.len() + i] == b[i]);
        }
    }
}

impl Terminal {
    /// It is known whether all output was ASCII.
    pub closed spec fn wf(&self) -> bool {
        self.ascii == fed(self.emulator).ascii_only()
    }

    /// A terminal that shows nothing yet.
    pub fn new(rows: u16, cols: u16) -> (r: Terminal)
        ensures
            r.wf(),
            r@ == started(rows, cols),
    {
        let rows = clamp_rows(rows);
        let cols = clamp_cols(cols);
        let emulator = new_emulator(rows, cols, rows as usize * 10);
        Terminal { emulator, ascii: true }
    }

    /// Shows output.
    pub fn show(&mut self, bytes: &[u8])
        requires
            old(self).wf(),
        ensures
            final(self).wf(),
            final(self)@ == old(self)@.with_output(bytes@),
    {
        let ascii = all_ascii(bytes);
        feed(&mut self.emulator, bytes);
        self.ascii = self.ascii && ascii;
        proof {
            law_output_is_kept(old(self)@, bytes@, 0, 0);
            lemma_ascii_concat(old(self)@.output(), bytes@);
        }
    }

    /// Takes a new size, and says whether what was shown is kept. Where that
    /// cannot be, as a character might be cut in half, the terminal starts anew.
    pub fn resize(&mut self, rows: u16, cols: u16) -> (r: bool)
        requires
            old(self).wf(),
        ensures
            final(self).wf(),
            r == old(self)@.takes_cols(emulated_cols(cols)),
            final(self)@ == if r {
                old(self)@.with_size(emulated_rows(rows), emulated_cols(cols))
            } else {
                started(rows, cols)
            },
    {
        let new_rows = clamp_rows(rows);
        let new_cols = clamp_cols(cols);
        let (_, old_cols) = emulator_size(&self.emulator);
        if new_cols >= old_cols || self.ascii {
            set_emulator_size(&mut self.emulator, new_rows, new_cols);
            proof {
                law_output_is_kept(old(self)@, seq![], new_rows, new_cols);
            }
            true
        } else {
            *self = Terminal::new(rows, cols);
            false
        }
    }

    /// What is shown: every cell, and the cursor.
    pub fn screen(&self) -> (r: Screen)
        ensures
            r.wf(),
            r@ == shown_screen(self@),
            forall|i: int, j: int|
                0 <= i < r.rows && 0 <= j < r.cols ==> (#[trigger] r.cells@[i]@[j]) is Some,
    {
        let (rows, cols) = emulator_size(&self.emulator);
        let (cursor_row, cursor_col) = emulator_cursor(&self.emulator);
        let mut cells: Vec<Vec<Option<Cell>>> = Vec::new();
        let ghost s = self@;
        let mut row: u16 = 0;
        while row < rows
            invariant
                s == fed(self.emulator),
                (rows, cols) == s.size(),
                row <= rows,
                cells@.len() == row,
                forall|i: int| 0 <= i < row ==> (#[trigger] cells@[i])@.len() == cols,
                forall|i: int, j: int|
                    0 <= i < row && 0 <= j < cols ==> {
                        &&& (#[trigger] cells@[i]@[j]) is Some
                        &&& opt_cell(cells@[i]@[j]) == shown_cell(s, i as u16, j as u16)
                    },
            decreases rows - row,
        {
            let mut line: Vec<Option<Cell>> = Vec::new();
            let mut col: u16 = 0;
            while col < cols
                invariant
                    s == fed(self.emulator),
                    (rows, cols) == s.size(),
                    row < rows,
                    col <= cols,
                    line@.len() == col,
                    forall|j: int|
                        0 <= j < col ==> {
                            &&& (#[trigger] line@[j]) is Some
                            &&& opt_cell(line@[j]) == shown_cell(s, row, j as u16)
                        },
                decreases cols - col,
            {
                line.push(emulator_cell(&self.emulator, row, col));
                col = col + 1;
            }
            cells.push(line);
            row = row + 1;
        }
        let r = Screen { rows, cols, cells, cursor_row, cursor_col };
        proof {
            let want = shown_screen(s);
            assert forall|i: int| 0 <= i < rows implies #[trigger] r@.cells[i] == want.cells[i] by {
                assert(r@.cells[i] == row_view(cells@[i]));
                assert forall|j: int| 0 <= j < cols implies #[trigger] r@.cells[i][j]
                    == want.cells[i][j] by {
                    assert(r@.cells[i][j] == opt_cell(cells@[i]@[j]));
                }
                assert(r@.cells[i] =~= want.cells[i]);
            }
            assert(r@.cells =~= want.cells);
        }
        r
    }
}

// ---------------------------------------------------------------------
// Laws
// ---------------------------------------------------------------------

/// No output is lost on the way to the emulator: what it was fed is all that was
/// shown, in order, and a new size that it takes changes nothing about that.
pub proof fn law_output_is_kept(s: EmulatorState, bytes: Seq<u8>, rows: u16, cols: u16)
    ensures
        s.with_output(bytes).output() == s.output() + bytes,
        s.with_output(bytes).size() == s.size(),
        s.with_size(rows, cols).output() == s.output(),
        s.with_size(rows, cols).size() == (rows, cols),
{
    assert(s.with_output(bytes).steps.drop_last() =~= s.steps);
    assert(s.with_size(rows, cols).steps.drop_last() =~= s.steps);
}

/// A terminal has the size that was asked for, as far as an emulator can have it,
/// from its start and after every change of size; where what was shown is kept,
/// all of it is, and where it is not, the terminal is empty.
pub proof fn law_terminal_takes_its_size(
    rows: u16,
    cols: u16,
    t: Terminal,
    u: &mut Terminal,
    kept: bool,
    v: &mut Terminal,
    bytes: &[u8],
)
    requires
        call_ensures(Terminal::new, (rows, cols), t),
        call_ensures(Terminal::resize, (u, rows, cols), kept),
        call_ensures(Terminal::show, (v, bytes), ()),
    ensures
        t@.output().len() == 0,
        2 <= rows && 3 <= cols <= 65527 ==> t@.size() == (rows, cols) && final(u)@.size() == (
            rows,
            cols,
        ),
        2 <= t@.size().0 && 3 <= t@.size().1 <= 65527,
        final(u)@.size() == t@.size(),
        t@.scrollback == 10 * t@.size().0,
        kept ==> final(u)@.output() == old(u)@.output(),
        !kept ==> final(u)@.output().len() == 0 && t@.size().1 < old(u)@.size().1,
        is_ascii(old(u)@.output()) ==> kept,
        final(v)@.output() == old(v)@.output() + bytes@,
        final(v)@.size() == old(v)@.size(),
{
    law_output_is_kept(old(u)@, seq![], emulated_rows(rows), emulated_cols(cols));
    law_output_is_kept(old(v)@, bytes@, 0, 0);
}

/// What is read off a terminal is what its emulator shows: every cell at its row
/// and its column, and the cursor at its row and its column.
pub proof fn law_screen_is_what_is_shown(t: &Terminal, r: Screen, row: u16, col: u16)
    requires
        call_ensures(Terminal::screen, (t,), r),
        row < r.rows,
        col < r.cols,
    ensures
        (r.rows, r.cols) == t@.size(),
        (r.cursor_row, r.cursor_col) == shown_cursor(t@),
        r.cells@.len() == r.rows,
        r.cells@[row as int]@.len() == r.cols,
        opt_cell(r.cells@[row as int]@[col as int]) == shown_cell(t@, row, col),
{
    assert(r@.cells[row as int] == row_view(r.cells@[row as int]));
    assert(r@.cells[row as int][col as int] == shown_cell(t@, row, col));
}

} // verus!
