//! The VT emulator behind the embedded terminal: `alacritty_terminal`, and
//! the painting of its grid into cells.
//!
//! A link is part of a cell here, so it scrolls, gets erased and is
//! overwritten along with the text it sits on; painting hands it on to
//! [`crate::hyperlink`], which gets it to the real terminal.
use vstd::prelude::*;
use vstd::string::*;

use std::time::Instant;

use alacritty_terminal::event::VoidListener;
use alacritty_terminal::grid::Dimensions;
use alacritty_terminal::index::{Column, Line};
use alacritty_terminal::term::cell::Flags;
use alacritty_terminal::term::test::TermSize;
use alacritty_terminal::term::{Config, Term, TermMode};
use alacritty_terminal::vte::ansi::{Color as AnsiColor, Processor};

use crate::hyperlink::{mark, marked};
use crate::input::Rect;
use crate::style::{Color, Modifier};
use crate::term::{cursor_at, cursor_cell};
use crate::text::{opt_view, own};

verus! {

// ── The emulator ─────────────────────────────────────────────────────────────

/// `alacritty_terminal`'s terminal (a grid of cells, a cursor and modes) and
/// the parser that feeds it. Verus cannot name the parser's trait bound, so the
/// two are held here and seen through the functions below only.
#[verifier::external_body]
pub struct Emulator {
    term: Term<VoidListener>,
    parser: Processor,
}

/// A colour as the emulator keeps it: one of its named ones by number, a
/// truecolour or an indexed one.
#[derive(Debug, Clone, Copy, PartialEq, Eq, Structural)]
pub enum VtColor {
    Named(usize),
    Spec(u8, u8, u8),
    Indexed(u8),
}

/// Attributes of a cell.
#[derive(Debug, Clone, Copy, PartialEq, Eq, Structural)]
pub struct CellFlags {
    pub bold: bool,
    pub dim: bool,
    pub italic: bool,
    pub underline: bool,
    pub inverse: bool,
    pub hidden: bool,
    pub strikeout: bool,
    /// The half of a wide character that its symbol covers.
    pub spacer: bool,
}

/// What a cell of the grid holds.
#[derive(Debug)]
pub struct VtCell {
    pub c: char,
    pub zerowidth: Vec<char>,
    pub fg: VtColor,
    pub bg: VtColor,
    pub link: Option<String>,
}

/// What a cell of the grid shows.
#[verifier::ext_equal]
pub struct CellView {
    pub c: char,
    pub zerowidth: Seq<char>,
    pub fg: VtColor,
    pub bg: VtColor,
    pub link: Option<Seq<char>>,
    pub flags: CellFlags,
}

/// Modes the program has set.
#[derive(Debug, Clone, Copy, PartialEq, Eq, Structural)]
pub struct Modes {
    pub app_cursor: bool,
    pub mouse: bool,
    pub bracketed_paste: bool,
    pub show_cursor: bool,
}

/// What a terminal's screen holds.
#[verifier::ext_equal]
pub struct ScreenView {
    pub lines: usize,
    pub columns: usize,
    pub cells: Seq<Seq<CellView>>,
    pub modes: Modes,
    /// Row and column; a row above the screen is negative.
    pub cursor: (i32, usize),
}

/// What a terminal's screen holds: its cells, modes and cursor.
pub uninterp spec fn screen_of(e: Emulator) -> ScreenView;

/// What the screen holds once `Processor::advance` has handed it the bytes.
pub uninterp spec fn screen_advanced(e: Emulator, bytes: Seq<u8>) -> ScreenView;

/// What the screen holds once `Processor::stop_sync` has released the output
/// held back.
pub uninterp spec fn screen_released(e: Emulator) -> ScreenView;

/// What the screen holds once `Term::resize` has given it a new size.
pub uninterp spec fn screen_resized(e: Emulator, lines: usize, columns: usize) -> ScreenView;

/// An empty cell.
pub open spec fn blank_cell() -> CellView {
    CellView {
        c: ' ',
        zerowidth: Seq::empty(),
        fg: VtColor::Named(256),
        bg: VtColor::Named(257),
        link: None,
        flags: CellFlags {
            bold: false,
            dim: false,
            italic: false,
            underline: false,
            inverse: false,
            hidden: false,
            strikeout: false,
            spacer: false,
        },
    }
}

/// A screen nothing was written to.
pub open spec fn blank_screen(lines: usize, columns: usize) -> ScreenView {
    ScreenView {
        lines,
        columns,
        cells: Seq::new(lines as nat, |r: int| Seq::new(columns as nat, |c: int| blank_cell())),
        modes: Modes { app_cursor: false, mouse: false, bracketed_paste: false, show_cursor: true },
        cursor: (0, 0),
    }
}

/// `Term::new` with `history` lines of scrollback, and `Processor::new`: a blank
/// screen of the size asked for, the cursor shown in its first cell. The
/// scrollback is no part of the screen.
#[verifier::external_body]
fn new_emulator(lines: usize, columns: usize, history: usize) -> (e: Emulator)
    requires
        lines >= 1,
        columns >= 2,
    ensures
        screen_of(e) == blank_screen(lines, columns),
{
    let config = Config { scrolling_history: history, ..Config::default() };
    let term = Term::new(config, &TermSize::new(columns, lines), VoidListener);
    Emulator { term, parser: Processor::new() }
}

/// `Processor::advance`: what the screen holds afterwards, by name; its size
/// stays. What is left of an unfinished sequence is not stated, for the parser
/// keeps the wall-clock deadline of a synchronized update with it.
#[verifier::external_body]
fn advance(e: &mut Emulator, bytes: &[u8])
    ensures
        screen_of(*final(e)) == screen_advanced(*old(e), bytes@),
        screen_of(*final(e)).lines == screen_of(*old(e)).lines,
        screen_of(*final(e)).columns == screen_of(*old(e)).columns,
{
    e.parser.advance(&mut e.term, bytes);
}

/// `std::time::Instant`: a point on the machine's clock.
#[verifier::external_type_specification]
#[verifier::external_body]
pub struct ExInstant(Instant);

/// `StdSyncHandler::sync_timeout`: until when a synchronized update holds
/// output back, if one does. It was set by the clock, so nothing is claimed of
/// the answer.
#[verifier::external_body]
fn sync_deadline(e: &Emulator) -> (deadline: Option<Instant>) {
    e.parser.sync_timeout().sync_timeout()
}

/// `Instant::now`. It rests on the clock, so nothing is claimed of the answer.
#[verifier::external_body]
fn now() -> (t: Instant) {
    Instant::now()
}

/// `Instant::saturating_duration_since`: the nanoseconds from `now` to
/// `deadline`, none if that is not later. Points on the clock have no value to
/// speak of, so nothing is claimed of the answer.
#[verifier::external_body]
fn time_left(deadline: Instant, now: Instant) -> (nanos: u128) {
    deadline.saturating_duration_since(now).as_nanos()
}

/// Whether output held back is overdue, by the nanoseconds left until its
/// deadline: there is one, and no time is left.
pub fn overdue(left: Option<u128>) -> (yes: bool)
    ensures
        yes == (left == Some(0u128)),
{
    match left {
        Some(n) => n == 0,
        None => false,
    }
}

/// `Processor::stop_sync`: what the screen holds afterwards, by name; its size
/// stays.
#[verifier::external_body]
fn stop_sync(e: &mut Emulator)
    ensures
        screen_of(*final(e)) == screen_released(*old(e)),
        screen_of(*final(e)).lines == screen_of(*old(e)).lines,
        screen_of(*final(e)).columns == screen_of(*old(e)).columns,
{
    e.parser.stop_sync(&mut e.term);
}

/// `Term::resize`: what the screen holds afterwards, by name; it has the size
/// asked for.
#[verifier::external_body]
fn resize_term(e: &mut Emulator, lines: usize, columns: usize)
    requires
        lines >= 1,
        columns >= 2,
    ensures
        screen_of(*final(e)) == screen_resized(*old(e), lines, columns),
        screen_of(*final(e)).lines == lines,
        screen_of(*final(e)).columns == columns,
{
    e.term.resize(TermSize::new(columns, lines));
}

/// `Grid::screen_lines` and `Grid::columns`.
#[verifier::external_body]
fn dimensions(e: &Emulator) -> (d: (usize, usize))
    ensures
        d.0 == screen_of(*e).lines,
        d.1 == screen_of(*e).columns,
{
    (e.term.grid().screen_lines(), e.term.grid().columns())
}

/// `Term::mode`: whether the modes asked after are set.
#[verifier::external_body]
fn modes(e: &Emulator) -> (m: Modes)
    ensures
        m == screen_of(*e).modes,
{
    Modes {
        app_cursor: e.term.mode().contains(TermMode::APP_CURSOR),
        mouse: e.term.mode().intersects(TermMode::MOUSE_MODE),
        bracketed_paste: e.term.mode().contains(TermMode::BRACKETED_PASTE),
        show_cursor: e.term.mode().contains(TermMode::SHOW_CURSOR),
    }
}

/// The grid's cursor point.
#[verifier::external_body]
fn cursor_point(e: &Emulator) -> (p: (i32, usize))
    ensures
        p == screen_of(*e).cursor,
{
    (e.term.grid().cursor.point.line.0, e.term.grid().cursor.point.column.0)
}

/// The grid's cell at a place: its character, the zero-width ones on it, its
/// colours and its link's URL.
#[verifier::external_body]
fn cell_at(e: &Emulator, row: u16, col: u16) -> (cell: VtCell)
    requires
        row < screen_of(*e).lines,
        col < screen_of(*e).columns,
    ensures
        cell.c == screen_of(*e).cells[row as int][col as int].c,
        cell.zerowidth@ == screen_of(*e).cells[row as int][col as int].zerowidth,
        cell.fg == screen_of(*e).cells[row as int][col as int].fg,
        cell.bg == screen_of(*e).cells[row as int][col as int].bg,
        opt_view(cell.link) == screen_of(*e).cells[row as int][col as int].link,
{
    let cell = &e.term.grid()[Line(i32::from(row))][Column(usize::from(col))];
    let convert = |c: AnsiColor| match c {
        AnsiColor::Named(n) => VtColor::Named(n as usize),
        AnsiColor::Spec(rgb) => VtColor::Spec(rgb.r, rgb.g, rgb.b),
        AnsiColor::Indexed(i) => VtColor::Indexed(i),
    };
    let zerowidth = cell.zerowidth().map(|z| z.to_vec()).unwrap_or_default();
    let link = cell.hyperlink().map(|l| l.uri().to_string());
    VtCell { c: cell.c, zerowidth, fg: convert(cell.fg), bg: convert(cell.bg), link }
}

/// `Flags::intersects` on the grid's cell at a place, for each attribute that
/// is painted.
#[verifier::external_body]
fn flags_at(e: &Emulator, row: u16, col: u16) -> (flags: CellFlags)
    requires
        row < screen_of(*e).lines,
        col < screen_of(*e).columns,
    ensures
        flags == screen_of(*e).cells[row as int][col as int].flags,
{
    let f = e.term.grid()[Line(i32::from(row))][Column(usize::from(col))].flags;
    CellFlags {
        bold: f.intersects(Flags::BOLD),
        dim: f.intersects(Flags::DIM),
        italic: f.intersects(Flags::ITALIC),
        underline: f.intersects(Flags::ALL_UNDERLINES),
        inverse: f.intersects(Flags::INVERSE),
        hidden: f.intersects(Flags::HIDDEN),
        strikeout: f.intersects(Flags::STRIKEOUT),
        spacer: f.intersects(Flags::WIDE_CHAR_SPACER | Flags::LEADING_WIDE_CHAR_SPACER),
    }
}

// ── Painting ─────────────────────────────────────────────────────────────────

/// The 16 named colours go out as indexed ones, so the outer terminal's
/// palette decides what they look like; the dim ones go out as the ordinary
/// eight, the rest as the terminal's default.
#[verifier::allow_in_spec]
pub fn color(c: VtColor) -> Color
    returns
        (match c {
            VtColor::Spec(r, g, b) => Color::Rgb(r, g, b),
            VtColor::Indexed(i) => Color::Indexed(i),
            VtColor::Named(n) => if n < 16 {
                Color::Indexed(n as u8)
            } else if 259 <= n && n <= 266 {
                Color::Indexed((n - 259) as u8)
            } else {
                Color::Reset
            },
        }),
{
    match c {
        VtColor::Spec(r, g, b) => Color::Rgb(r, g, b),
        VtColor::Indexed(i) => Color::Indexed(i),
        VtColor::Named(n) => if n < 16 {
            Color::Indexed(n as u8)
        } else if 259 <= n && n <= 266 {
            Color::Indexed((n - 259) as u8)
        } else {
            Color::Reset
        },
    }
}

/// One painted cell.
#[derive(Debug)]
pub struct PaintedCell {
    pub symbol: String,
    pub fg: Color,
    pub bg: Color,
    pub modifier: Modifier,
}

/// What one painted cell shows.
#[verifier::ext_equal]
pub struct PaintedView {
    pub symbol: Seq<char>,
    pub fg: Color,
    pub bg: Color,
    pub modifier: Modifier,
}

impl View for PaintedCell {
    type V = PaintedView;

    open spec fn view(&self) -> PaintedView {
        PaintedView { symbol: self.symbol@, fg: self.fg, bg: self.bg, modifier: self.modifier }
    }
}

/// The attributes a cell is painted with.
pub open spec fn cell_modifier(f: CellFlags) -> Modifier {
    Modifier {
        bold: f.bold,
        dim: f.dim,
        italic: f.italic,
        underlined: f.underline,
        reversed: f.inverse,
        hidden: f.hidden,
        crossed_out: f.strikeout,
    }
}

/// The symbol a cell is painted with: the character and what combines with it,
/// its link attached. The covered half of a wide character keeps a blank,
/// which its left half's symbol covers.
pub open spec fn cell_symbol(c: CellView) -> Seq<char> {
    if c.flags.spacer {
        " "@
    } else {
        let text = seq![c.c] + c.zerowidth;
        match c.link {
            Some(uri) => marked(text, uri),
            None => text,
        }
    }
}

/// What stands at a place of an area the screen is painted into.
pub open spec fn painted_at(s: ScreenView, row: int, col: int) -> PaintedView {
    if row < s.lines && col < s.columns {
        let c = s.cells[row][col];
        PaintedView {
            symbol: cell_symbol(c),
            fg: color(c.fg),
            bg: color(c.bg),
            modifier: cell_modifier(c.flags),
        }
    } else {
        PaintedView { symbol: " "@, fg: Color::Reset, bg: Color::Reset, modifier: Modifier::none() }
    }
}

/// Cells row by row.
pub open spec fn painted_rows(rows: Seq<Vec<PaintedCell>>, s: ScreenView, area: Rect) -> bool {
    &&& rows.len() == area.height
    &&& forall|r: int| 0 <= r < rows.len() ==> painted_row((#[trigger] rows[r])@, s, r, area.width as int)
}

/// The first `n` cells of a row.
pub open spec fn painted_row(row: Seq<PaintedCell>, s: ScreenView, r: int, n: int) -> bool {
    &&& row.len() == n
    &&& forall|c: int| 0 <= c < n ==> (#[trigger] row[c])@ == painted_at(s, r, c)
}

/// Paint one cell of the screen.
fn paint_cell(e: &Emulator, row: u16, col: u16) -> (out: PaintedCell)
    requires
        row < screen_of(*e).lines,
        col < screen_of(*e).columns,
    ensures
        out@ == painted_at(screen_of(*e), row as int, col as int),
{
    let cell = cell_at(e, row, col);
    let flags = flags_at(e, row, col);
    let modifier = Modifier {
        bold: flags.bold,
        dim: flags.dim,
        italic: flags.italic,
        underlined: flags.underline,
        reversed: flags.inverse,
        hidden: flags.hidden,
        crossed_out: flags.strikeout,
    };
    let symbol = if flags.spacer {
        own(" ")
    } else {
        let mut s = String::new();
        s.push(cell.c);
        let mut i: usize = 0;
        assert(s@ =~= seq![cell.c] + cell.zerowidth@.take(0));
        while i < cell.zerowidth.len()
            invariant
                i <= cell.zerowidth@.len(),
                s@ == seq![cell.c] + cell.zerowidth@.take(i as int),
            decreases cell.zerowidth@.len() - i,
        {
            s.push(cell.zerowidth[i]);
            i += 1;
            assert(s@ =~= seq![cell.c] + cell.zerowidth@.take(i as int));
        }
        assert(cell.zerowidth@.take(cell.zerowidth@.len() as int) =~= cell.zerowidth@);
        match &cell.link {
            Some(uri) => mark(&mut s, uri.as_str()),
            None => {},
        }
        s
    };
    PaintedCell { symbol, fg: color(cell.fg), bg: color(cell.bg), modifier }
}

/// Paint the screen into an area.
fn paint(e: &Emulator, area: Rect) -> (rows: Vec<Vec<PaintedCell>>)
    ensures
        painted_rows(rows@, screen_of(*e), area),
{
    let (lines, columns) = dimensions(e);
    let mut rows: Vec<Vec<PaintedCell>> = Vec::new();
    let mut r: u16 = 0;
    while r < area.height
        invariant
            r <= area.height,
            lines == screen_of(*e).lines,
            columns == screen_of(*e).columns,
            rows@.len() == r,
            forall|k: int| 0 <= k < r ==> painted_row((#[trigger] rows@[k])@, screen_of(*e), k, area.width as int),
        decreases area.height - r,
    {
        let mut row: Vec<PaintedCell> = Vec::new();
        let mut c: u16 = 0;
        while c < area.width
            invariant
                c <= area.width,
                lines == screen_of(*e).lines,
                columns == screen_of(*e).columns,
                painted_row(row@, screen_of(*e), r as int, c as int),
            decreases area.width - c,
        {
            let cell = if (r as usize) < lines && (c as usize) < columns {
                paint_cell(e, r, c)
            } else {
                PaintedCell { symbol: own(" "), fg: Color::Reset, bg: Color::Reset, modifier: Modifier::none() }
            };
            row.push(cell);
            c += 1;
        }
        rows.push(row);
        r += 1;
    }
    rows
}

/// A terminal emulator.
pub struct Vt {
    emulator: Emulator,
}

/// The least size the emulator takes is one row of two columns.
pub open spec fn grid_lines(rows: u16) -> usize {
    if rows < 1 {
        1
    } else {
        rows as usize
    }
}

/// See [`grid_lines`].
pub open spec fn grid_columns(cols: u16) -> usize {
    if cols < 2 {
        2
    } else {
        cols as usize
    }
}

impl Vt {
    /// What the screen holds.
    pub closed spec fn screen(&self) -> ScreenView {
        screen_of(self.emulator)
    }

    /// What the screen will hold once it has been handed `bytes`.
    pub closed spec fn fed(&self, bytes: Seq<u8>) -> ScreenView {
        screen_advanced(self.emulator, bytes)
    }

    /// What the screen will hold at a new size.
    pub closed spec fn at_size(&self, lines: usize, columns: usize) -> ScreenView {
        screen_resized(self.emulator, lines, columns)
    }

    /// What the screen will hold once output held back is released.
    pub closed spec fn released(&self) -> ScreenView {
        screen_released(self.emulator)
    }

    /// A blank screen of `rows`×`cols`. No scrollback: tmux keeps the history,
    /// this is only the screen.
    pub fn new(rows: u16, cols: u16) -> (vt: Vt)
        ensures
            vt.screen() == blank_screen(grid_lines(rows), grid_columns(cols)),
    {
        let lines: usize = if rows < 1 { 1 } else { rows as usize };
        let columns: usize = if cols < 2 { 2 } else { cols as usize };
        Vt { emulator: new_emulator(lines, columns, 0) }
    }

    /// Hand the program's output to the emulator.
    pub fn process(&mut self, bytes: &[u8])
        ensures
            final(self).screen() == old(self).fed(bytes@),
            final(self).screen().lines == old(self).screen().lines,
            final(self).screen().columns == old(self).screen().columns,
    {
        advance(&mut self.emulator, bytes);
    }

    /// Give the screen a new size.
    pub fn resize(&mut self, rows: u16, cols: u16)
        ensures
            final(self).screen() == old(self).at_size(grid_lines(rows), grid_columns(cols)),
            final(self).screen().lines == grid_lines(rows),
            final(self).screen().columns == grid_columns(cols),
    {
        let lines: usize = if rows < 1 { 1 } else { rows as usize };
        let columns: usize = if cols < 2 { 2 } else { cols as usize };
        resize_term(&mut self.emulator, lines, columns);
    }

    /// `(rows, cols)`.
    pub fn size(&self) -> (d: (u16, u16))
        ensures
            d.0 == (if self.screen().lines <= u16::MAX { self.screen().lines as int } else { u16::MAX as int }),
            d.1 == (if self.screen().columns <= u16::MAX { self.screen().columns as int } else { u16::MAX as int }),
    {
        let (lines, columns) = dimensions(&self.emulator);
        let rows: u16 = if lines <= u16::MAX as usize { lines as u16 } else { u16::MAX };
        let cols: u16 = if columns <= u16::MAX as usize { columns as u16 } else { u16::MAX };
        (rows, cols)
    }

    /// Whether the program asked for application cursor keys.
    pub fn app_cursor(&self) -> (on: bool)
        ensures
            on == self.screen().modes.app_cursor,
    {
        modes(&self.emulator).app_cursor
    }

    /// Whether the program asked for mouse reports.
    pub fn mouse_reporting(&self) -> (on: bool)
        ensures
            on == self.screen().modes.mouse,
    {
        modes(&self.emulator).mouse
    }

    /// Whether the program asked for pastes to be bracketed.
    pub fn bracketed_paste(&self) -> (on: bool)
        ensures
            on == self.screen().modes.bracketed_paste,
    {
        modes(&self.emulator).bracketed_paste
    }

    /// Release output held back if it is overdue.
    pub fn release(&mut self, expired: bool)
        ensures
            final(self).screen() == (if expired {
                old(self).released()
            } else {
                old(self).screen()
            }),
            final(self).screen().lines == old(self).screen().lines,
            final(self).screen().columns == old(self).screen().columns,
    {
        if expired {
            stop_sync(&mut self.emulator);
        }
    }

    /// The screen painted into `area`, row by row, cursor left to the caller:
    /// where it belongs (absolute cell) if shown.
    pub fn painted(&self, area: Rect) -> (r: (Vec<Vec<PaintedCell>>, Option<(u16, u16)>))
        requires
            area.x + area.width <= u16::MAX,
            area.y + area.height <= u16::MAX,
        ensures
            painted_rows(r.0@, self.screen(), area),
            match (r.1, cursor_shown(self.screen(), area)) {
                (Some(a), Some(b)) => a.0 == b.0 && a.1 == b.1,
                (None, None) => true,
                _ => false,
            },
    {
        let rows = paint(&self.emulator, area);
        let hidden: bool = !modes(&self.emulator).show_cursor;
        let (line, column) = cursor_point(&self.emulator);
        if line < 0 || line > u16::MAX as i32 || column > u16::MAX as usize {
            return (rows, None);
        }
        (rows, cursor_at(area, hidden, line as u16, column as u16))
    }

    /// Paint the screen into `area`: see [`Vt::painted`]. A synchronized update
    /// holds output back until it ends; one that never ends is released after
    /// its timeout, which the parser only notices when asked. Whether that is
    /// now is the clock's to say: see [`overdue`] and [`Vt::release`].
    pub fn render(&mut self, area: Rect) -> (r: (Vec<Vec<PaintedCell>>, Option<(u16, u16)>))
        requires
            area.x + area.width <= u16::MAX,
            area.y + area.height <= u16::MAX,
        ensures
            final(self).screen() == old(self).screen() || final(self).screen() == old(self).released(),
            painted_rows(r.0@, final(self).screen(), area),
            match (r.1, cursor_shown(final(self).screen(), area)) {
                (Some(a), Some(b)) => a.0 == b.0 && a.1 == b.1,
                (None, None) => true,
                _ => false,
            },
    {
        let left: Option<u128> = match sync_deadline(&self.emulator) {
            Some(deadline) => Some(time_left(deadline, now())),
            None => None,
        };
        self.release(overdue(left));
        self.painted(area)
    }
}

/// Where the cursor of a screen painted into `area` belongs.
pub open spec fn cursor_shown(s: ScreenView, area: Rect) -> Option<(int, int)> {
    if 0 <= s.cursor.0 <= u16::MAX && s.cursor.1 <= u16::MAX {
        cursor_cell(area, !s.modes.show_cursor, s.cursor.0 as u16, s.cursor.1 as u16)
    } else {
        None
    }
}

/// A cell is painted in the colours of the grid's own cell, foreground and
/// background each in its place: a truecolour and an indexed one as they are,
/// a named one and its dim form by the same number, the defaults as none.
pub proof fn cells_keep_their_colours(rows: Seq<Vec<PaintedCell>>, s: ScreenView, area: Rect, r: int, c: int)
    requires
        painted_rows(rows, s, area),
        0 <= r < area.height,
        0 <= c < area.width,
        r < s.lines,
        c < s.columns,
    ensures
        match s.cells[r][c].fg {
            VtColor::Spec(x, y, z) => rows[r]@[c].fg == Color::Rgb(x, y, z),
            VtColor::Indexed(i) => rows[r]@[c].fg == Color::Indexed(i),
            VtColor::Named(n) => {
                &&& n < 16 ==> rows[r]@[c].fg == Color::Indexed(n as u8)
                &&& 259 <= n <= 266 ==> rows[r]@[c].fg == Color::Indexed((n - 259) as u8)
                &&& 16 <= n < 259 || n > 266 ==> rows[r]@[c].fg == Color::Reset
            },
        },
        match s.cells[r][c].bg {
            VtColor::Spec(x, y, z) => rows[r]@[c].bg == Color::Rgb(x, y, z),
            VtColor::Indexed(i) => rows[r]@[c].bg == Color::Indexed(i),
            VtColor::Named(n) => {
                &&& n < 16 ==> rows[r]@[c].bg == Color::Indexed(n as u8)
                &&& 259 <= n <= 266 ==> rows[r]@[c].bg == Color::Indexed((n - 259) as u8)
                &&& 16 <= n < 259 || n > 266 ==> rows[r]@[c].bg == Color::Reset
            },
        },
{
    assert(painted_row(rows[r]@, s, r, area.width as int));
    assert(rows[r]@[c]@ == painted_at(s, r, c));
}

/// A cell is painted with exactly the attributes the program gave it.
pub proof fn cells_keep_their_attributes(rows: Seq<Vec<PaintedCell>>, s: ScreenView, area: Rect, r: int, c: int)
    requires
        painted_rows(rows, s, area),
        0 <= r < area.height,
        0 <= c < area.width,
        r < s.lines,
        c < s.columns,
    ensures
        rows[r]@[c].modifier.bold == s.cells[r][c].flags.bold,
        rows[r]@[c].modifier.dim == s.cells[r][c].flags.dim,
        rows[r]@[c].modifier.italic == s.cells[r][c].flags.italic,
        rows[r]@[c].modifier.underlined == s.cells[r][c].flags.underline,
        rows[r]@[c].modifier.reversed == s.cells[r][c].flags.inverse,
        rows[r]@[c].modifier.hidden == s.cells[r][c].flags.hidden,
        rows[r]@[c].modifier.crossed_out == s.cells[r][c].flags.strikeout,
{
    assert(painted_row(rows[r]@, s, r, area.width as int));
    assert(rows[r]@[c]@ == painted_at(s, r, c));
}

/// A cell is painted with its own character and what combines with it; a link
/// follows them and can be read back, and only a cell of a link carries one.
/// The covered half of a wide character is a blank.
pub proof fn cells_keep_their_text(rows: Seq<Vec<PaintedCell>>, s: ScreenView, area: Rect, r: int, c: int)
    requires
        painted_rows(rows, s, area),
        0 <= r < area.height,
        0 <= c < area.width,
        r < s.lines,
        c < s.columns,
        s.cells[r][c].c != '\u{E0001}',
        forall|i: int|
            0 <= i < s.cells[r][c].zerowidth.len() ==> #[trigger] s.cells[r][c].zerowidth[i] != '\u{E0001}',
    ensures
        s.cells[r][c].flags.spacer ==> rows[r]@[c].symbol@ == seq![' '],
        !s.cells[r][c].flags.spacer ==> {
            &&& rows[r]@[c].symbol@.len() >= 1 + s.cells[r][c].zerowidth.len()
            &&& rows[r]@[c].symbol@[0] == s.cells[r][c].c
            &&& rows[r]@[c].symbol@.subrange(1, 1 + s.cells[r][c].zerowidth.len() as int) == s.cells[r][c].zerowidth
            &&& crate::hyperlink::text_part(rows[r]@[c].symbol@) == seq![s.cells[r][c].c] + s.cells[r][c].zerowidth
            &&& crate::hyperlink::link_part(rows[r]@[c].symbol@) is Some <==> s.cells[r][c].link is Some
            &&& s.cells[r][c].link matches Some(uri) ==> crate::hyperlink::link_part(rows[r]@[c].symbol@) == Some(
                crate::hyperlink::link_of(uri),
            )
        },
{
    assert(painted_row(rows[r]@, s, r, area.width as int));
    assert(rows[r]@[c]@ == painted_at(s, r, c));
    reveal_strlit(" ");
    let cell = s.cells[r][c];
    let text = seq![cell.c] + cell.zerowidth;
    assert(" "@ =~= seq![' ']);
    assert forall|i: int| 0 <= i < text.len() implies #[trigger] text[i] != crate::hyperlink::MARK by {
        if i > 0 {
            assert(text[i] == cell.zerowidth[i - 1]);
        }
    }
    if !cell.flags.spacer {
        match cell.link {
            Some(uri) => {
                crate::hyperlink::a_link_round_trips(text, uri);
                assert(marked(text, uri).subrange(1, 1 + cell.zerowidth.len() as int) =~= cell.zerowidth);
            },
            None => {
                crate::hyperlink::unmarked_is_untouched(text);
                assert(text.subrange(1, 1 + cell.zerowidth.len() as int) =~= cell.zerowidth);
            },
        }
    }
}

/// The painting fills its area and nothing more: beyond the grid it is blank.
pub proof fn painting_fills_its_area(rows: Seq<Vec<PaintedCell>>, s: ScreenView, area: Rect, r: int, c: int)
    requires
        painted_rows(rows, s, area),
        0 <= r < area.height,
        0 <= c < area.width,
    ensures
        rows.len() == area.height,
        rows[r]@.len() == area.width,
        r >= s.lines || c >= s.columns ==> {
            &&& rows[r]@[c].symbol@ == seq![' ']
            &&& rows[r]@[c].fg == Color::Reset
            &&& rows[r]@[c].bg == Color::Reset
            &&& rows[r]@[c].modifier == Modifier {
                bold: false,
                dim: false,
                italic: false,
                underlined: false,
                reversed: false,
                hidden: false,
                crossed_out: false,
            }
        },
{
    assert(painted_row(rows[r]@, s, r, area.width as int));
    assert(rows[r]@[c]@ == painted_at(s, r, c));
    reveal_strlit(" ");
    assert(" "@ =~= seq![' ']);
}

/// The cursor stands over the cell the program put it at, counted from the
/// area's own corner, and only while the program shows it inside the area.
pub proof fn the_cursor_stands_where_the_program_put_it(s: ScreenView, area: Rect)
    ensures
        cursor_shown(s, area) is Some <==> s.modes.show_cursor && 0 <= s.cursor.0 < area.height && s.cursor.1
            < area.width,
        cursor_shown(s, area) matches Some((x, y)) ==> x - area.x == s.cursor.1 && y - area.y == s.cursor.0,
{
}

/// A screen is as large as asked for, but never smaller than a row of two
/// cells, and starts out empty with its cursor shown in the first cell.
pub proof fn screens_start_empty(rows: u16, cols: u16, r: int, c: int)
    requires
        0 <= r < grid_lines(rows),
        0 <= c < grid_columns(cols),
    ensures
        rows >= 1 ==> grid_lines(rows) == rows,
        cols >= 2 ==> grid_columns(cols) == cols,
        grid_lines(rows) >= 1,
        grid_columns(cols) >= 2,
        rows == 0 ==> grid_lines(rows) == 1,
        cols < 2 ==> grid_columns(cols) == 2,
        ({
            let s = blank_screen(grid_lines(rows), grid_columns(cols));
            &&& s.lines == grid_lines(rows)
            &&& s.columns == grid_columns(cols)
            &&& s.cells[r][c].c == ' '
            &&& s.cells[r][c].zerowidth.len() == 0
            &&& s.cells[r][c].link is None
            &&& color(s.cells[r][c].fg) == Color::Reset
            &&& color(s.cells[r][c].bg) == Color::Reset
            &&& s.cursor == (0i32, 0usize)
            &&& s.modes.show_cursor && !s.modes.app_cursor && !s.modes.mouse && !s.modes.bracketed_paste
        }),
{
}

} // verus!
