//! The client: the task list as a column beside the task's terminal, in one
//! process that owns the screen.
//!
//! Ctrl+w shows the column and focuses it, or hides it from inside; everything
//! else goes to whichever side has focus. On a narrow terminal the column is
//! either the whole screen or not there at all: hidden by default, Ctrl+w shows
//! the list over the whole screen, and a jump or `:hide` puts it away again. A
//! terminal that changes width across the threshold is re-laid out the same way.
use vstd::prelude::*;
use vstd::string::*;

use crate::column::{mouse_step, ClientRequest, Column, ColumnView};
use crate::input::{KeyCode, KeyEvent, MouseEvent, MouseEventKind, Rect};
use crate::list::Effect;
use crate::list_events::Window;
use crate::mouse::{hit, inside};
use crate::style::{span, tone, Item, Line, Span, SpanView, Tone};
use crate::text::{opt_view, same};

verus! {

/// How often the column's rows refresh, in milliseconds.
pub const REFRESH: u64 = 500;

/// Which side has the keyboard.
#[derive(Debug, Clone, Copy, PartialEq, Eq, Structural)]
pub enum Focus {
    Terminal,
    Column,
}

/// The client.
#[derive(Debug)]
pub struct Client {
    pub column: Column,
    pub focus: Focus,
    pub column_shown: bool,
    pub column_width: u16,
    /// A terminal too narrow for a column: the list takes the whole screen
    /// while shown.
    pub narrow: bool,
    /// Columns and rows of the screen.
    pub size: (u16, u16),
    /// When the rows were last refreshed, in milliseconds.
    pub last_refresh: u64,
    pub quit: bool,
}

/// The client.
#[verifier::ext_equal]
pub struct ClientView {
    pub column: ColumnView,
    pub focus: Focus,
    pub column_shown: bool,
    pub column_width: u16,
    pub narrow: bool,
    pub size: (u16, u16),
    pub last_refresh: u64,
    pub quit: bool,
}

impl View for Client {
    type V = ClientView;

    open spec fn view(&self) -> ClientView {
        ClientView {
            column: self.column@,
            focus: self.focus,
            column_shown: self.column_shown,
            column_width: self.column_width,
            narrow: self.narrow,
            size: self.size,
            last_refresh: self.last_refresh,
            quit: self.quit,
        }
    }
}

/// What the surroundings do after a key.
#[derive(Debug)]
pub struct KeyStep {
    /// Encode the key and write it to the task.
    pub to_task: bool,
    /// Tell the task's terminal its size.
    pub resize: bool,
    /// What the column asks for.
    pub effect: Effect,
}

/// What the surroundings do after a mouse event.
#[derive(Debug)]
pub struct MouseStep {
    /// Encode the event at this cell of the task's terminal and write it there.
    pub to_task: Option<(u16, u16)>,
    /// Tell the task's terminal its size.
    pub resize: bool,
    /// What the column asks for.
    pub effect: Effect,
}

/// What goes where on a frame.
#[derive(Debug)]
pub struct Frame {
    pub column: Option<Rect>,
    pub task: Rect,
    /// The title of a closed task shown in place of the terminal.
    pub closed: Option<String>,
    /// The terminal's cursor is shown.
    pub task_cursor: bool,
}

/// The full screen.
pub open spec fn full_screen(size: (u16, u16)) -> Rect {
    Rect { x: 0, y: 0, width: size.0, height: size.1 }
}

/// The smaller of two sizes.
pub open spec fn least16(a: u16, b: u16) -> u16 {
    if a < b {
        a
    } else {
        b
    }
}

impl ClientView {
    /// What holds between events.
    pub open spec fn wf(self) -> bool {
        self.column.wf()
    }

    /// The column's and the task's areas.
    pub open spec fn layout(self, full: Rect) -> (Option<Rect>, Rect) {
        if !self.column_shown {
            (None, full)
        } else if self.narrow {
            (Some(full), full)
        } else {
            let w = least16(self.column_width, full.width / 2);
            (
                Some(Rect { width: w, ..full }),
                Rect { x: (full.x + w) as u16, width: (full.width - w) as u16, ..full },
            )
        }
    }

    /// Rows and columns of the task's terminal: never less than one of each.
    pub open spec fn term_size(self) -> (u16, u16) {
        let t = self.layout(full_screen(self.size)).1;
        (if t.height < 1 {
            1
        } else {
            t.height
        }, if t.width < 1 {
            1
        } else {
            t.width
        })
    }

    /// The client on a screen of another size. Crossing the threshold changes
    /// what "shown" means: narrowing with the keyboard in the task puts the
    /// column away, widening brings it back.
    pub open spec fn sized(self, cols: u16, rows: u16, wanted: u16, small: u16) -> ClientView {
        let narrow = cols < small;
        ClientView {
            size: (cols, rows),
            narrow,
            column_width: wanted,
            column_shown: if !self.narrow && narrow && self.column_shown && self.focus == Focus::Terminal {
                false
            } else if self.narrow && !narrow {
                true
            } else {
                self.column_shown
            },
            ..self
        }
    }

    /// With the keyboard in the task; the column shows no cursor meanwhile.
    pub open spec fn focus_terminal(self) -> ClientView {
        ClientView { focus: Focus::Terminal, column: self.column.blurred(), ..self }
    }

    /// With the keyboard in the column, the cursor on the task one is in.
    pub open spec fn focus_column(self) -> ClientView {
        ClientView { focus: Focus::Column, column: self.column.select_current(), ..self }
    }

    /// With the column shown and focused.
    pub open spec fn show_column(self) -> ClientView {
        (ClientView { column_shown: true, ..self }).focus_column()
    }

    /// With the column put away.
    pub open spec fn hide_column(self) -> ClientView {
        (ClientView { column_shown: false, ..self }).focus_terminal()
    }

    /// Ctrl+w: from the task, bring up the column; from the column, put it
    /// away. Also whether the task's terminal changes size.
    pub open spec fn cycle(self) -> (ClientView, bool) {
        if !self.column_shown {
            (self.show_column(), true)
        } else if self.focus == Focus::Column {
            (self.hide_column(), true)
        } else {
            (self.focus_column(), false)
        }
    }

    /// What the column asked of the client, done.
    pub open spec fn handle_request(self, req: ClientRequest) -> (ClientView, bool) {
        match req {
            ClientRequest::FocusTerminal => if self.narrow {
                (self.focus_terminal().hide_column(), true)
            } else {
                (self.focus_terminal(), false)
            },
            ClientRequest::Hide => (self.hide_column(), true),
            ClientRequest::Quit => (ClientView { quit: true, ..self }, false),
        }
    }

    /// What the column has asked of the client, if anything, done.
    pub open spec fn settled(self) -> (ClientView, bool) {
        let taken = ClientView { column: ColumnView { client_request: None, ..self.column }, ..self };
        match self.column.client_request {
            Some(req) => taken.handle_request(req),
            None => (taken, false),
        }
    }

    /// With another column.
    pub open spec fn on(self, column: ColumnView) -> ClientView {
        ClientView { column, ..self }
    }
}

/// Whether a key is Ctrl+w.
pub open spec fn is_ctrl_w(key: KeyEvent) -> bool {
    key.code == KeyCode::Char('w') && key.modifiers.control
}

/// Whether a mouse event takes a client from `v` to `w`. Only a click moves the
/// keyboard; the pointer resting or scrolling over the column does not.
pub open spec fn mouse_moves(v: ClientView, m: MouseEvent, w: ClientView, step: MouseStep) -> bool {
    let (column, task) = v.layout(full_screen(v.size));
    let click = m.kind is Down;
    if column is Some && inside(column->0, m.column, m.row) {
        let focused = ClientView { focus: if click {
            Focus::Column
        } else {
            v.focus
        }, ..v };
        &&& step.to_task is None
        &&& exists|c: ColumnView| #[trigger] mouse_step(v.column, m, c, step.effect@) && (w, step.resize) == focused.on(
            c,
        ).settled()
    } else if inside(task, m.column, m.row) {
        &&& w == (if click {
            v.focus_terminal()
        } else {
            v
        })
        &&& step.to_task == Some(((m.column - task.x) as u16, (m.row - task.y) as u16))
        &&& !step.resize
        &&& step.effect is Nothing
    } else {
        w == v && step.to_task is None && !step.resize && step.effect is Nothing
    }
}

impl Client {
    /// A client on a screen of `cols` by `rows`: the column shown (unless the
    /// terminal is narrower than `small`) with the keyboard in the task.
    /// `wanted` is the column's width.
    pub fn new(column: Column, cols: u16, rows: u16, wanted: u16, small: u16, now: u64) -> (c: Client)
        requires
            column@.wf(),
        ensures
            c@ == (ClientView {
                column: column@,
                focus: Focus::Terminal,
                column_shown: cols >= small,
                column_width: least16(wanted, cols / 2),
                narrow: cols < small,
                size: (cols, rows),
                last_refresh: now,
                quit: false,
            }),
            c@.wf(),
    {
        let half: u16 = cols / 2;
        Client {
            column,
            focus: Focus::Terminal,
            column_shown: cols >= small,
            column_width: if wanted < half { wanted } else { half },
            narrow: cols < small,
            size: (cols, rows),
            last_refresh: now,
            quit: false,
        }
    }

    /// The column's and the task's areas for the current state.
    pub fn layout(&self, full: Rect) -> (parts: (Option<Rect>, Rect))
        requires
            full.x + full.width <= u16::MAX,
        ensures
            parts == self@.layout(full),
    {
        if !self.column_shown {
            return (None, full);
        }
        if self.narrow {
            return (Some(full), full);
        }
        let half: u16 = full.width / 2;
        let w: u16 = if self.column_width < half { self.column_width } else { half };
        (
            Some(Rect { x: full.x, y: full.y, width: w, height: full.height }),
            Rect { x: full.x + w, y: full.y, width: full.width - w, height: full.height },
        )
    }

    /// Rows and columns of the task's terminal for the current state. It keeps
    /// the whole screen on a narrow client, where the column only covers it.
    pub fn term_size(&self) -> (size: (u16, u16))
        ensures
            size == self@.term_size(),
    {
        let full = Rect { x: 0, y: 0, width: self.size.0, height: self.size.1 };
        let (_, t) = self.layout(full);
        (if t.height < 1 { 1 } else { t.height }, if t.width < 1 { 1 } else { t.width })
    }

    /// The screen has another size. Width alone decides: a column costs no
    /// rows. The task's terminal is to be told its size after this.
    pub fn apply_size(&mut self, cols: u16, rows: u16, wanted: u16, small: u16)
        requires
            old(self)@.wf(),
        ensures
            final(self)@ == old(self)@.sized(cols, rows, wanted, small),
            final(self)@.wf(),
    {
        let was_narrow: bool = self.narrow;
        self.size = (cols, rows);
        self.narrow = cols < small;
        self.column_width = wanted;
        if !was_narrow && self.narrow {
            if self.column_shown && self.focus == Focus::Terminal {
                self.column_shown = false;
            }
        } else if was_narrow && !self.narrow {
            self.column_shown = true;
        }
    }

    /// Keyboard into the task.
    fn focus_terminal(&mut self)
        requires
            old(self)@.wf(),
        ensures
            final(self)@ == old(self)@.focus_terminal(),
            final(self)@.wf(),
    {
        self.focus = Focus::Terminal;
        self.column.blur();
    }

    /// Keyboard into the column, cursor on the task one is in.
    fn focus_column(&mut self)
        requires
            old(self)@.wf(),
        ensures
            final(self)@ == old(self)@.focus_column(),
            final(self)@.wf(),
    {
        self.focus = Focus::Column;
        self.column.select_current();
    }

    /// Put the column away.
    fn hide_column(&mut self)
        requires
            old(self)@.wf(),
        ensures
            final(self)@ == old(self)@.hide_column(),
            final(self)@.wf(),
    {
        self.column_shown = false;
        self.focus_terminal();
    }

    /// Ctrl+w. Returns whether the task's terminal is to be told its size.
    fn cycle(&mut self) -> (resize: bool)
        requires
            old(self)@.wf(),
        ensures
            (final(self)@, resize) == old(self)@.cycle(),
            final(self)@.wf(),
    {
        if !self.column_shown {
            self.column_shown = true;
            self.focus_column();
            true
        } else if self.focus == Focus::Column {
            self.hide_column();
            true
        } else {
            self.focus_column();
            false
        }
    }

    /// Do what the column asks of the client.
    fn handle_request(&mut self, req: ClientRequest) -> (resize: bool)
        requires
            old(self)@.wf(),
        ensures
            (final(self)@, resize) == old(self)@.handle_request(req),
            final(self)@.wf(),
    {
        match req {
            ClientRequest::FocusTerminal => {
                self.focus_terminal();
                if self.narrow {
                    self.hide_column();
                    return true;
                }
                false
            },
            ClientRequest::Hide => {
                self.hide_column();
                true
            },
            ClientRequest::Quit => {
                self.quit = true;
                false
            },
        }
    }

    /// Do what the column has asked of the client, if anything: after an event,
    /// and after an outcome that may have opened a task. Returns whether the
    /// task's terminal is to be told its size.
    pub fn settle(&mut self) -> (resize: bool)
        requires
            old(self)@.wf(),
        ensures
            (final(self)@, resize) == old(self)@.settled(),
            final(self)@.wf(),
    {
        match self.column.take_request() {
            Some(req) => self.handle_request(req),
            None => false,
        }
    }

    /// Handle a key.
    pub fn handle_key(&mut self, key: KeyEvent) -> (step: KeyStep)
        requires
            old(self)@.wf(),
        ensures
            ({
                let v = old(self)@;
                let w = final(self)@;
                if is_ctrl_w(key) {
                    (w, step.resize) == v.cycle() && !step.to_task && step.effect is Nothing
                } else if v.focus == Focus::Terminal {
                    w == v && step.to_task && !step.resize && step.effect is Nothing
                } else {
                    let (c, e) = v.column.handle_key(key);
                    (w, step.resize) == v.on(c).settled() && !step.to_task && step.effect@ == e
                }
            }),
            final(self)@.wf(),
    {
        if key.code == KeyCode::Char('w') && key.modifiers.control {
            let resize = self.cycle();
            return KeyStep { to_task: false, resize, effect: Effect::Nothing };
        }
        match self.focus {
            Focus::Terminal => KeyStep { to_task: true, resize: false, effect: Effect::Nothing },
            Focus::Column => {
                let effect = self.column.handle_key(key);
                let resize = self.settle();
                KeyStep { to_task: false, resize, effect }
            },
        }
    }

    /// Handle a mouse event: it goes to the side it lands on.
    pub fn handle_mouse(&mut self, m: MouseEvent) -> (step: MouseStep)
        requires
            old(self)@.wf(),
        ensures
            mouse_moves(old(self)@, m, final(self)@, step),
            final(self)@.wf(),
    {
        let ghost v = self@;
        let full = Rect { x: 0, y: 0, width: self.size.0, height: self.size.1 };
        let (column, task) = self.layout(full);
        let click: bool = match m.kind {
            MouseEventKind::Down(_) => true,
            _ => false,
        };
        if let Some(c) = column {
            if hit(c, m.column, m.row) {
                if click {
                    self.focus = Focus::Column;
                }
                let ghost focused = self@;
                let effect = self.column.handle_mouse(m);
                assert(mouse_step(v.column, m, self@.column, effect@));
                assert(self@ =~= focused.on(self@.column));
                let resize = self.settle();
                return MouseStep { to_task: None, resize, effect };
            }
        }
        if hit(task, m.column, m.row) {
            if click {
                self.focus_terminal();
            }
            return MouseStep {
                to_task: Some((m.column - task.x, m.row - task.y)),
                resize: false,
                effect: Effect::Nothing,
            };
        }
        MouseStep { to_task: None, resize: false, effect: Effect::Nothing }
    }

    /// Whether the column's rows are to be refreshed now.
    pub fn tick(&mut self, now: u64) -> (refresh: bool)
        requires
            old(self)@.wf(),
        ensures
            ({
                let due = now - old(self)@.last_refresh >= REFRESH;
                &&& refresh == (due && old(self)@.column.list.mode is List)
                &&& final(self)@ == (if due {
                    ClientView { last_refresh: now, ..old(self)@ }
                } else {
                    old(self)@
                })
            }),
            final(self)@.wf(),
    {
        if now >= self.last_refresh && now - self.last_refresh >= REFRESH {
            self.last_refresh = now;
            self.column.in_list_mode()
        } else {
            false
        }
    }

    /// What goes where on a frame. Moving onto a closed task shows an empty
    /// screen in its place; the task's cursor shows only while it has the
    /// keyboard and is not covered.
    pub fn frame(&self, full: Rect) -> (f: Frame)
        requires
            self@.wf(),
            full.x + full.width <= u16::MAX,
        ensures
            (f.column, f.task) == self@.layout(full),
            opt_view(f.closed) == (if self@.focus == Focus::Column {
                self@.column.selected_closed()
            } else {
                None
            }),
            f.task_cursor == (self@.focus == Focus::Terminal && f.closed is None && (f.column is None
                || !self@.narrow)),
    {
        let (column, task) = self.layout(full);
        let closed = if self.focus == Focus::Column { self.column.selected_closed() } else { None };
        let task_cursor: bool = self.focus == Focus::Terminal && (column.is_none() || !self.narrow);
        Frame { column, task, closed, task_cursor }
    }
}

/// What the task's area says of a closed task: its title, and the one thing to
/// do.
pub open spec fn closed_lines(title: Seq<char>) -> Seq<Seq<SpanView>> {
    seq![
        seq![span(title, tone(Tone::Bright).bold())],
        seq![span("no window open"@, tone(Tone::Muted))],
        Seq::empty(),
        seq![span("⏎"@, tone(Tone::Accent).bold()), span(" open it here"@, tone(Tone::Text))],
    ]
}

/// Where those lines go: about the middle, at most four rows.
pub open spec fn closed_rect(area: Rect) -> Rect {
    Rect {
        y: (area.y + area.height / 2 - 2) as u16,
        height: if area.height < 4 {
            area.height
        } else {
            4
        },
        ..area
    }
}

/// The task's area while the column rests on a task with no window; nothing is
/// written in fewer than three rows.
pub fn render_closed(area: Rect, title: &str) -> (s: Option<(Rect, Item)>)
    requires
        area.height >= 3 ==> 2 <= area.y + area.height / 2 <= u16::MAX,
    ensures
        area.height < 3 ==> s is None,
        area.height >= 3 ==> (s matches Some((r, i)) && r == closed_rect(area) && i@ == closed_lines(title@)),
{
    if area.height < 3 {
        return None;
    }
    let y: u16 = area.y + area.height / 2 - 2;
    let rect = Rect {
        x: area.x,
        y,
        width: area.width,
        height: if area.height < 4 { area.height } else { 4 },
    };
    let head = Line::one(Span::styled(title, tone(Tone::Bright).bold()));
    let note = Line::one(Span::styled("no window open", tone(Tone::Muted)));
    let hint = Line::empty().with(Span::styled("⏎", tone(Tone::Accent).bold())).with(
        Span::styled(" open it here", tone(Tone::Text)),
    );
    let item = Item::empty().with(head).with(note).with(Line::empty()).with(hint);
    assert(item@ =~~= closed_lines(title@));
    Some((rect, item))
}

/// The first window at or after `from` that is not the home window.
pub open spec fn task_window_from(windows: Seq<Window>, home: Seq<char>, from: int) -> Option<Seq<char>>
    decreases windows.len() - from,
{
    if from >= windows.len() {
        None
    } else if windows[from].name@ != home {
        Some(windows[from].id@)
    } else {
        task_window_from(windows, home, from + 1)
    }
}

/// The window to start on: a task's, where there is one. Landing on the home
/// window would show the list twice.
pub fn start_window(windows: &Vec<Window>, home: &str) -> (id: Option<String>)
    ensures
        opt_view(id) == task_window_from(windows@, home@, 0),
{
    let mut i: usize = 0;
    while i < windows.len()
        invariant
            i <= windows@.len(),
            task_window_from(windows@, home@, 0) == task_window_from(windows@, home@, i as int),
        decreases windows@.len() - i,
    {
        if !same(windows[i].name.as_str(), home) {
            return Some(windows[i].id.clone());
        }
        i += 1;
    }
    None
}

/// The column and the task tile the screen: side by side, every cell in exactly
/// one of them, the column never more than half.
pub proof fn the_screen_is_tiled(v: ClientView, full: Rect)
    requires
        v.column_shown,
        !v.narrow,
        full.x + full.width <= u16::MAX,
    ensures
        v.layout(full).0 matches Some(c) && {
            let t = v.layout(full).1;
            &&& c.x == full.x
            &&& t.x == c.x + c.width
            &&& c.width + t.width == full.width
            &&& c.width <= t.width
            &&& c.y == full.y && t.y == full.y
            &&& c.height == full.height && t.height == full.height
        },
{
}

/// On a narrow screen the list is all there is or not there at all, and the
/// task's terminal keeps its size either way.
pub proof fn narrow_screens_keep_the_task(v: ClientView, full: Rect)
    requires
        v.narrow,
    ensures
        v.layout(full).1 == full,
        v.layout(full).0 is Some ==> v.layout(full).0->0 == full,
        v.term_size() == (ClientView { column_shown: !v.column_shown, ..v }).term_size(),
{
}

/// Ctrl+w from inside the column puts it away, and from the task brings it up
/// with the keyboard in it.
pub proof fn ctrl_w_toggles(v: ClientView)
    ensures
        v.cycle().0.focus == Focus::Column ==> v.cycle().0.column_shown,
        v.column_shown && v.focus == Focus::Column ==> {
            &&& !v.cycle().0.column_shown
            &&& v.cycle().0.focus == Focus::Terminal
            &&& v.cycle().0.cycle().0.column_shown
            &&& v.cycle().0.cycle().0.focus == Focus::Column
        },
{
}

/// The keyboard is never in a column that is not shown, whatever the screen's
/// size does.
pub proof fn keys_go_to_what_is_shown(v: ClientView, cols: u16, rows: u16, wanted: u16, small: u16, req: ClientRequest)
    requires
        v.focus == Focus::Column ==> v.column_shown,
    ensures
        ({
            let w = v.sized(cols, rows, wanted, small);
            w.focus == Focus::Column ==> w.column_shown
        }),
        v.cycle().0.focus == Focus::Column ==> v.cycle().0.column_shown,
        v.handle_request(req).0.focus == Focus::Column ==> v.handle_request(req).0.column_shown,
{
}

/// A narrow screen never shows the list over a task that has the keyboard,
/// right after it narrows.
pub proof fn narrowing_uncovers_the_task(v: ClientView, cols: u16, rows: u16, wanted: u16, small: u16)
    requires
        !v.narrow,
        cols < small,
        v.focus == Focus::Terminal,
    ensures
        !v.sized(cols, rows, wanted, small).column_shown,
{
}

/// Ctrl+w goes round: to the column where it is shown and the task has the
/// keys, away with it where it has them itself, and back with the keys.
pub proof fn ctrl_w_goes_round(v: ClientView)
    ensures
        !v.column_shown ==> v.cycle().0.column_shown && v.cycle().0.focus == Focus::Column && v.cycle().1,
        v.column_shown && v.focus == Focus::Column ==> !v.cycle().0.column_shown && v.cycle().0.focus == Focus::Terminal
            && v.cycle().1,
        v.column_shown && v.focus == Focus::Terminal ==> v.cycle().0.column_shown && v.cycle().0.focus == Focus::Column
            && !v.cycle().1,
        v.cycle().0.quit == v.quit,
        v.cycle().0.size == v.size,
{
}

/// What the column asks for is what happens: the keys go to the task, the
/// column goes away, or the client quits, and nothing but a quit quits.
pub proof fn requests_are_met(v: ClientView)
    ensures
        v.handle_request(ClientRequest::FocusTerminal).0.focus == Focus::Terminal,
        !v.narrow ==> v.handle_request(ClientRequest::FocusTerminal).0.column_shown == v.column_shown,
        v.narrow ==> !v.handle_request(ClientRequest::FocusTerminal).0.column_shown,
        v.handle_request(ClientRequest::FocusTerminal).0.quit == v.quit,
        !v.handle_request(ClientRequest::Hide).0.column_shown,
        v.handle_request(ClientRequest::Hide).0.focus == Focus::Terminal,
        v.handle_request(ClientRequest::Hide).0.quit == v.quit,
        v.handle_request(ClientRequest::Quit).0.quit,
        v.handle_request(ClientRequest::Quit).0.focus == v.focus,
        v.handle_request(ClientRequest::Quit).0.column_shown == v.column_shown,
        v.settled().0.column.client_request is None,
        v.column.client_request is None ==> v.settled().0 == v && !v.settled().1,
{
}

/// The column stands at the left edge, as wide as wanted but at most half the
/// screen, and the task has all that is right of it.
pub proof fn the_column_stands_left(v: ClientView, full: Rect)
    requires
        v.column_shown,
        !v.narrow,
        full.x + full.width <= u16::MAX,
    ensures
        v.layout(full).0 matches Some(c) && {
            let t = v.layout(full).1;
            &&& c.x == full.x
            &&& v.column_width <= full.width / 2 ==> c.width == v.column_width
            &&& v.column_width > full.width / 2 ==> c.width == full.width / 2
            &&& t.x == c.x + c.width
            &&& t.width == full.width - c.width
            &&& c.height == full.height && t.height == full.height
            &&& c.y == full.y && t.y == full.y
        },
{
}

/// The task's terminal is told rows before columns, and never less than one.
pub proof fn the_task_is_told_its_size(v: ClientView)
    ensures
        v.term_size().0 >= 1,
        v.term_size().1 >= 1,
        v.size.1 >= 1 ==> v.term_size().0 == v.size.1,
        !v.column_shown && v.size.0 >= 1 ==> v.term_size().1 == v.size.0,
{
}

} // verus!
