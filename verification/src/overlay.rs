//! The overlay: the task list as a pane of its own, either floating (it closes
//! after a jump) or the session's home pane (it never closes). Jumping goes
//! through the terminal multiplexer: in place, from a foreign session, or by
//! attaching once the overlay is gone.
use vstd::prelude::*;
use vstd::string::*;

use crate::ansi::spans_of;
use crate::column::answered_text;
use crate::forms::{erased, typed};
use crate::input::{KeyCode, KeyEvent, MouseButton, MouseEvent, MouseEventKind};
use crate::lines::{lines, lines_of};
use crate::list::{
    empty_list, Effect, EffectView, Focus, InputMode, ListView, Mode, ModeView, Row, Tab, TaskList,
};
use crate::list_events::{unanswerable, RowState};
use crate::mouse::{hit, inside, item_at, item_at_spec};
use crate::style::{Line, SpanView, Style};
use crate::text::{cat, opt_view, own, same, vec_fits, views};
use crate::zellij::SESSION;

verus! {

/// A task to land on once the overlay has torn down its screen: a jump from
/// outside the multiplexer cannot switch in place.
#[derive(Debug)]
pub struct AttachTarget {
    pub tab_id: Option<u32>,
    pub title: String,
}

/// The selected task's pane as it looks now.
#[derive(Debug)]
pub struct Preview {
    pub pane: Option<String>,
    pub lines: Vec<Line>,
    /// The pane could not be read.
    pub gone: bool,
}

/// The overlay.
#[derive(Debug)]
pub struct Overlay {
    pub list: TaskList,
    /// Running as the session's home pane (long-lived, never quits) rather than
    /// a floating one (exits after a jump).
    pub home: bool,
    /// Set when a jump from outside the multiplexer should attach after
    /// teardown.
    pub attach: Option<AttachTarget>,
    /// Slug of the task one is in.
    pub current: Option<String>,
    pub preview: Preview,
}

/// A pane as it looks now.
#[verifier::ext_equal]
pub struct PreviewView {
    pub pane: Option<Seq<char>>,
    pub lines: Seq<Seq<SpanView>>,
    pub gone: bool,
}

/// The overlay.
#[verifier::ext_equal]
pub struct OverlayView {
    pub list: ListView,
    pub home: bool,
    pub attach: Option<(Option<u32>, Seq<char>)>,
    pub current: Option<Seq<char>>,
    pub preview: PreviewView,
}

impl View for Preview {
    type V = PreviewView;

    open spec fn view(&self) -> PreviewView {
        PreviewView { pane: opt_view(self.pane), lines: views(self.lines@), gone: self.gone }
    }
}

impl View for Overlay {
    type V = OverlayView;

    open spec fn view(&self) -> OverlayView {
        OverlayView {
            list: self.list@,
            home: self.home,
            attach: match self.attach {
                Some(t) => Some((t.tab_id, t.title@)),
                None => None,
            },
            current: opt_view(self.current),
            preview: self.preview@,
        }
    }
}

/// Where a jump goes.
#[derive(Debug)]
pub enum Route {
    /// No task is selected.
    Nothing,
    /// Within this session: open the task.
    Here { ws_idx: usize, slug: String },
    /// From a foreign session: switch the client to the task's tab.
    Over { tab_id: Option<u32>, title: String },
    /// From a plain terminal: leave, then attach.
    Leave,
}

/// Where a jump goes.
#[verifier::ext_equal]
pub enum RouteView {
    Nothing,
    Here { ws_idx: usize, slug: Seq<char> },
    Over { tab_id: Option<u32>, title: Seq<char> },
    Leave,
}

impl View for Route {
    type V = RouteView;

    open spec fn view(&self) -> RouteView {
        match self {
            Route::Nothing => RouteView::Nothing,
            Route::Here { ws_idx, slug } => RouteView::Here { ws_idx: *ws_idx, slug: slug@ },
            Route::Over { tab_id, title } => RouteView::Over { tab_id: *tab_id, title: title@ },
            Route::Leave => RouteView::Leave,
        }
    }
}

/// What the home pane says to a quit key.
pub const HOME_HINT: &'static str = "home overlay — jump to a task instead (Ctrl+w toggles the floating overlay)";

impl OverlayView {
    /// With another list.
    pub open spec fn on(self, list: ListView) -> OverlayView {
        OverlayView { list, ..self }
    }

    /// What holds between events: the list's own invariant, on one of the two
    /// tabs there are here, with nothing beside it.
    pub open spec fn wf(self) -> bool {
        &&& self.list.wf()
        &&& self.list.tab != Tab::Work
        &&& self.list.current is None
    }

    /// The other tab.
    pub open spec fn toggle_tab(self) -> (OverlayView, EffectView) {
        let list = ListView {
            tab: if self.list.tab == Tab::Tasks {
                Tab::Repos
            } else {
                Tab::Tasks
            },
            ..self.list
        };
        (self.on(list), list.scanning())
    }

    /// The Repos tab.
    pub open spec fn repos_tab(self) -> (OverlayView, EffectView) {
        let list = ListView { tab: Tab::Repos, ..self.list };
        (self.on(list), list.scanning())
    }

    /// Open the command line.
    pub open spec fn command_line(self) -> OverlayView {
        self.on(self.list.hushed().in_mode(ModeView::Command(Seq::empty())))
    }

    /// Answering the selected task's prompt.
    pub open spec fn answering(self, yes: bool) -> EffectView {
        match self.list.selected_row() {
            Some(r) => EffectView::Answer { yes, title: r.title@, path: r.path@ },
            None => EffectView::Nothing,
        }
    }

    /// Insert mode: type to filter.
    pub open spec fn insert_key(self, key: KeyEvent) -> (OverlayView, EffectView) {
        let l = self.list;
        match key.code {
            KeyCode::Esc => (self.on(l.focus_list()), EffectView::Nothing),
            KeyCode::Tab | KeyCode::BackTab => self.toggle_tab(),
            KeyCode::Enter => if l.tab == Tab::Tasks {
                let top = if l.focus == Focus::Search {
                    l.with_sel(0)
                } else {
                    l
                };
                (self.on(top), top.opening())
            } else {
                (self, EffectView::Nothing)
            },
            KeyCode::Down => (self.on(l.step_down()), EffectView::Nothing),
            KeyCode::Up => (self.on(l.step_up()), EffectView::Nothing),
            KeyCode::Backspace => (self.on(l.filtering(erased(l.filter))), EffectView::Nothing),
            KeyCode::Char(c) => if key.modifiers.control {
                if c == 'c' {
                    (self, EffectView::Close)
                } else if c == 'j' {
                    (self.on(l.step_down()), EffectView::Nothing)
                } else if c == 'k' {
                    (self.on(l.step_up()), EffectView::Nothing)
                } else {
                    (self, EffectView::Nothing)
                }
            } else if c == ':' {
                (self.command_line(), EffectView::Nothing)
            } else {
                (self.on(l.filtering(typed(l.filter, c))), EffectView::Nothing)
            },
            _ => (self, EffectView::Nothing),
        }
    }

    /// The second key of a 2-key sequence: `gg`, `gt`, `gT`, `dd`.
    pub open spec fn second_key(self, first: char, key: KeyEvent) -> (OverlayView, EffectView) {
        let v = self.on(ListView { pending: None, ..self.list });
        if first == 'g' && key.code == KeyCode::Char('g') {
            (v.on(v.list.move_top()), EffectView::Nothing)
        } else if first == 'g' && (key.code == KeyCode::Char('t') || key.code == KeyCode::Char('T')) {
            v.toggle_tab()
        } else if first == 'd' && key.code == KeyCode::Char('d') {
            (v.on(if v.list.tab == Tab::Tasks {
                v.list.start_delete()
            } else {
                v.list.require_tasks()
            }), EffectView::Nothing)
        } else {
            (v, EffectView::Nothing)
        }
    }

    /// A letter that acts on the selected task.
    pub open spec fn on_task(self, c: char) -> (OverlayView, EffectView) {
        let l = self.list;
        if c == 'r' {
            (self.on(l.start_rename()), EffectView::Nothing)
        } else if c == 'e' {
            (self.on(l.start_edit_repos()), EffectView::Nothing)
        } else if c == 'x' {
            (self, l.closing())
        } else if c == 'y' {
            (self, self.answering(true))
        } else if c == 'N' {
            (self, self.answering(false))
        } else {
            (self.on(l.start_unlock()), EffectView::Nothing)
        }
    }

    /// A letter in Normal mode.
    pub open spec fn letter(self, c: char) -> (OverlayView, EffectView) {
        let l = self.list;
        if c == 'q' {
            (self, EffectView::Close)
        } else if c == 'i' || c == '/' {
            (self.on(l.focus_search()), EffectView::Nothing)
        } else if c == 'g' || c == 'd' {
            (self.on(ListView { pending: Some(c), ..l }), EffectView::Nothing)
        } else if c == 'G' {
            (self.on(l.move_bottom()), EffectView::Nothing)
        } else if c == 'j' {
            (self.on(l.step_down()), EffectView::Nothing)
        } else if c == 'k' {
            (self.on(l.step_up()), EffectView::Nothing)
        } else if c == 'a' {
            (self.on(if l.tab == Tab::Tasks {
                l.start_create()
            } else {
                l.start_add_repo()
            }), EffectView::Nothing)
        } else if c == 'o' || c == 'l' {
            (self, if l.tab == Tab::Tasks {
                l.opening()
            } else {
                EffectView::Nothing
            })
        } else if c == ':' {
            (self.command_line(), EffectView::Nothing)
        } else if c == 'r' || c == 'e' || c == 'x' || c == 'y' || c == 'N' || c == 'u' {
            if l.tab == Tab::Tasks {
                self.on_task(c)
            } else {
                (self.on(l.require_tasks()), EffectView::Nothing)
            }
        } else {
            (self, EffectView::Nothing)
        }
    }

    /// Normal mode: vim keys.
    pub open spec fn normal_key(self, key: KeyEvent) -> (OverlayView, EffectView) {
        let l = self.list;
        match l.pending {
            Some(first) => self.second_key(first, key),
            None => match key.code {
                KeyCode::Esc => (self, EffectView::Close),
                KeyCode::Down => (self.on(l.step_down()), EffectView::Nothing),
                KeyCode::Up => (self.on(l.step_up()), EffectView::Nothing),
                KeyCode::Tab | KeyCode::BackTab => self.toggle_tab(),
                KeyCode::Enter => (self, if l.tab == Tab::Tasks {
                    l.opening()
                } else {
                    EffectView::Nothing
                }),
                KeyCode::Char(c) => if c == 'c' && key.modifiers.control {
                    (self, EffectView::Close)
                } else {
                    self.letter(c)
                },
                _ => (self, EffectView::Nothing),
            },
        }
    }

    /// A `:` command that works from either tab.
    pub open spec fn global_command(self, cmd: Seq<char>) -> Option<(OverlayView, EffectView)> {
        if cmd == "tasks"@ {
            Some((self.on(ListView { tab: Tab::Tasks, ..self.list }), EffectView::Nothing))
        } else if cmd == "repos"@ {
            Some(self.repos_tab())
        } else if cmd == "q"@ || cmd == "quit"@ {
            Some((self, EffectView::Close))
        } else if cmd == "n"@ || cmd == "new"@ {
            Some((self.on(self.list.start_create()), EffectView::Nothing))
        } else if cmd.len() == 0 {
            Some((self, EffectView::Nothing))
        } else {
            None
        }
    }

    /// A `:` command on the selected task.
    pub open spec fn task_command(self, cmd: Seq<char>) -> (OverlayView, EffectView) {
        let l = self.list;
        if cmd == "d"@ || cmd == "del"@ || cmd == "delete"@ || cmd == "rm"@ {
            (self.on(l.start_delete()), EffectView::Nothing)
        } else if cmd == "r"@ || cmd == "rename"@ {
            (self.on(l.start_rename()), EffectView::Nothing)
        } else if cmd == "e"@ || cmd == "edit"@ || cmd == "edit-repos"@ {
            (self.on(l.start_edit_repos()), EffectView::Nothing)
        } else if cmd == "x"@ || cmd == "close"@ {
            (self, l.closing())
        } else if cmd == "u"@ || cmd == "unlock"@ {
            (self.on(l.start_unlock()), EffectView::Nothing)
        } else if cmd == "o"@ || cmd == "open"@ {
            (self, l.opening())
        } else {
            (self.on(l.told("unknown command: :"@ + cmd)), EffectView::Nothing)
        }
    }

    /// A `:` command.
    pub open spec fn run_command(self, cmd: Seq<char>) -> (OverlayView, EffectView) {
        match self.global_command(cmd) {
            Some(r) => r,
            None => if self.list.tab != Tab::Tasks {
                (self.on(self.list.told("switch to Tasks (:tasks) for that"@)), EffectView::Nothing)
            } else {
                self.task_command(cmd)
            },
        }
    }

    /// A key, before the home pane swallows a close.
    pub open spec fn keyed(self, key: KeyEvent) -> (OverlayView, EffectView) {
        let l = self.list;
        match l.mode {
            ModeView::List => match l.input_mode {
                InputMode::Insert => self.insert_key(key),
                InputMode::Normal => self.normal_key(key),
            },
            ModeView::Command(buffer) => {
                let (list, cmd) = l.command_key(buffer, key);
                match cmd {
                    Some(c) => self.on(list).run_command(c),
                    None => (self.on(list), EffectView::Nothing),
                }
            },
            ModeView::Create(f) => {
                let (list, e) = l.create_key(f, key);
                (self.on(list), e)
            },
            ModeView::AddRepo(f) => {
                let (list, e) = l.add_key(f, key);
                (self.on(list), e)
            },
            ModeView::EditRepos(f) => {
                let (list, e) = l.edit_key(f, key);
                (self.on(list), e)
            },
            ModeView::Confirm(c) => {
                let (list, e) = l.confirm_key(c, key);
                (self.on(list), e)
            },
            ModeView::Rename(f) => {
                let (list, e) = l.rename_key(f, key);
                (self.on(list), e)
            },
        }
    }

    /// A wish to close, a quit key's or a jump's. The home pane is the
    /// session's anchor: it never closes, but says so.
    pub open spec fn left(self, wish: bool) -> (OverlayView, bool) {
        if wish && self.home {
            (self.on(self.list.told(HOME_HINT@)), false)
        } else {
            (self, wish)
        }
    }

    /// A key.
    pub open spec fn handle_key(self, key: KeyEvent) -> (OverlayView, EffectView) {
        let (v, e) = self.keyed(key);
        let (w, close) = v.left(e is Close);
        (w, if e is Close && !close {
            EffectView::Nothing
        } else {
            e
        })
    }

    /// A click in the list view.
    pub open spec fn clicked(self, m: MouseEvent) -> (OverlayView, EffectView) {
        let l = self.list;
        if inside(l.tabs_area, m.column, m.row) {
            let right = m.column - l.tabs_area.x >= l.tabs_area.width / 2;
            if right && l.tab == Tab::Tasks {
                self.repos_tab()
            } else if !right && l.tab == Tab::Repos {
                (self.on(ListView { tab: Tab::Tasks, ..l }), EffectView::Nothing)
            } else {
                (self, EffectView::Nothing)
            }
        } else if inside(l.search_area, m.column, m.row) {
            (self.on(l.focus_search()), EffectView::Nothing)
        } else {
            match item_at_spec(l.list_area, 1, l.offset, 1, m.column, m.row) {
                Some(i) => if i < l.line_to_pos.len() && l.line_to_pos[i as int] is Some {
                    (self.on(l.focus_list().with_sel(l.line_to_pos[i as int]->0)), EffectView::Nothing)
                } else {
                    (self, EffectView::Nothing)
                },
                None => (self, EffectView::Nothing),
            }
        }
    }

    /// A mouse event. The wheel moves the selection; a click focuses what it
    /// lands on and never jumps.
    pub open spec fn handle_mouse(self, m: MouseEvent) -> (OverlayView, EffectView) {
        if !(self.list.mode is List) {
            (self, EffectView::Nothing)
        } else {
            match m.kind {
                MouseEventKind::ScrollDown => (self.on(self.list.step_down()), EffectView::Nothing),
                MouseEventKind::ScrollUp => (self.on(self.list.step_up()), EffectView::Nothing),
                MouseEventKind::Down(MouseButton::Left) => self.clicked(m),
                _ => (self, EffectView::Nothing),
            }
        }
    }

    /// Where jumping to the selected task goes, from the session one is in.
    pub open spec fn jump(self, session: Option<Seq<char>>) -> (OverlayView, RouteView) {
        match self.list.selected_row() {
            None => (self, RouteView::Nothing),
            Some(r) => match session {
                Some(s) => if s == SESSION@ {
                    (self, RouteView::Here { ws_idx: r.ws_idx, slug: r.slug@ })
                } else {
                    (self, RouteView::Over { tab_id: r.tab_id, title: r.title@ })
                },
                None => (OverlayView { attach: Some((r.tab_id, r.title@)), ..self }, RouteView::Leave),
            },
        }
    }

    /// The task was opened in this session: the home pane starts afresh and
    /// stays, a floating one closes.
    pub open spec fn opened(self, rows: Seq<Row>) -> (OverlayView, bool) {
        if self.home {
            let l = (ListView { filter: Seq::empty(), ..self.list }).with_rows(rows);
            (self.on((ListView { selected: 0, ..l }).focus_search().hushed()), false)
        } else {
            (self, true)
        }
    }

    /// The pane a preview shows: the selected task's, while tasks are listed.
    pub open spec fn preview_pane(self) -> Option<Seq<char>> {
        if self.list.tab == Tab::Tasks && (self.list.mode is List || self.list.mode is Command) {
            match self.list.selected_row() {
                Some(r) => opt_view(r.pane),
                None => None,
            }
        } else {
            None
        }
    }
}

/// The lines of a captured pane, styled as its escapes say.
pub open spec fn styled_lines(text: Seq<char>) -> Seq<Seq<SpanView>> {
    Seq::new(lines_of(text).len(), |i: int| spans_of(lines_of(text)[i], Style::plain(), Seq::empty()))
}

/// See [`styled_lines`].
fn style_lines(text: &str) -> (out: Vec<Line>)
    ensures
        views(out@) == styled_lines(text@),
{
    let raw: Vec<String> = lines(text);
    let mut out: Vec<Line> = Vec::new();
    let mut i: usize = 0;
    assert(views(out@) =~= styled_lines(text@).take(0));
    while i < raw.len()
        invariant
            i <= raw@.len(),
            views(raw@) == lines_of(text@),
            views(out@) == styled_lines(text@).take(i as int),
        decreases raw@.len() - i,
    {
        let ghost before = views(out@);
        assert(views(raw@)[i as int] == raw@[i as int]@);
        out.push(crate::ansi::line(raw[i].as_str()));
        assert(views(out@) =~= before.push(styled_lines(text@)[i as int]));
        assert(views(out@) =~= styled_lines(text@).take(i + 1));
        i += 1;
    }
    assert(styled_lines(text@).take(i as int) =~= styled_lines(text@));
    out
}

impl Overlay {
    /// An overlay with no workspaces and no rows.
    pub fn empty(home: bool) -> (o: Overlay)
        ensures
            o@ == (OverlayView {
                list: empty_list(),
                home,
                attach: None,
                current: None,
                preview: PreviewView { pane: None, lines: Seq::empty(), gone: false },
            }),
            o@.wf(),
    {
        Overlay {
            list: TaskList::empty(),
            home,
            attach: None,
            current: None,
            preview: Preview { pane: None, lines: Vec::new(), gone: false },
        }
    }

    /// Flip between the tabs.
    fn toggle_tab(&mut self) -> (e: Effect)
        requires
            old(self)@.wf(),
        ensures
            (final(self)@, e@) == old(self)@.toggle_tab(),
            final(self)@.wf(),
    {
        self.list.tab = if self.list.tab == Tab::Tasks { Tab::Repos } else { Tab::Tasks };
        self.list.scan()
    }

    /// Show the Repos tab.
    fn select_repos_tab(&mut self) -> (e: Effect)
        requires
            old(self)@.wf(),
        ensures
            (final(self)@, e@) == old(self)@.repos_tab(),
            final(self)@.wf(),
    {
        self.list.tab = Tab::Repos;
        self.list.scan()
    }

    /// Open the command line.
    fn command_line(&mut self)
        requires
            old(self)@.wf(),
        ensures
            final(self)@ == old(self)@.command_line(),
            final(self)@.wf(),
    {
        self.list.status_msg = None;
        let buffer = String::new();
        assert(buffer@ =~= Seq::<char>::empty());
        self.list.mode = Mode::Command(buffer);
    }

    /// Ask for the selected task's prompt to be answered.
    fn answering(&self, yes: bool) -> (e: Effect)
        requires
            self@.wf(),
        ensures
            e@ == self@.answering(yes),
    {
        match self.list.selected_row() {
            Some(r) => Effect::Answer { yes, title: r.title.clone(), path: r.path.clone() },
            None => Effect::Nothing,
        }
    }

    /// Insert mode: type to filter (the fast switch path).
    fn handle_insert_key(&mut self, key: KeyEvent) -> (e: Effect)
        requires
            old(self)@.wf(),
        ensures
            (final(self)@, e@) == old(self)@.insert_key(key),
            final(self)@.wf(),
    {
        match key.code {
            KeyCode::Esc => self.list.focus_list(),
            KeyCode::Tab | KeyCode::BackTab => {
                return self.toggle_tab();
            },
            KeyCode::Enter => {
                if self.list.tab == Tab::Tasks {
                    // Enter from the search field opens the top match.
                    if self.list.focus == Focus::Search {
                        self.list.set_cur_sel(0);
                    }
                    return self.list.open_selected();
                }
            },
            KeyCode::Down => self.list.step_down(),
            KeyCode::Up => self.list.step_up(),
            KeyCode::Backspace => self.list.filter_erase(),
            KeyCode::Char(c) => {
                if key.modifiers.control {
                    if c == 'c' {
                        return Effect::Close;
                    }
                    if c == 'j' {
                        self.list.step_down();
                    } else if c == 'k' {
                        self.list.step_up();
                    }
                } else if c == ':' {
                    self.command_line();
                } else {
                    self.list.filter_type(c);
                }
            },
            _ => {},
        }
        Effect::Nothing
    }

    /// The second key of a 2-key sequence.
    fn second_key(&mut self, first: char, key: KeyEvent) -> (e: Effect)
        requires
            old(self)@.wf(),
        ensures
            (final(self)@, e@) == old(self)@.second_key(first, key),
            final(self)@.wf(),
    {
        self.list.pending = None;
        if first == 'g' && key.code == KeyCode::Char('g') {
            self.list.move_top();
        } else if first == 'g' && (key.code == KeyCode::Char('t') || key.code == KeyCode::Char('T')) {
            return self.toggle_tab();
        } else if first == 'd' && key.code == KeyCode::Char('d') {
            if self.list.require_tasks() {
                self.list.start_delete();
            }
        }
        Effect::Nothing
    }

    /// A letter that acts on the selected task.
    fn on_task(&mut self, c: char) -> (e: Effect)
        requires
            old(self)@.wf(),
        ensures
            (final(self)@, e@) == old(self)@.on_task(c),
            final(self)@.wf(),
    {
        if c == 'r' {
            self.list.start_rename();
        } else if c == 'e' {
            self.list.start_edit_repos();
        } else if c == 'x' {
            return self.list.close_selected();
        } else if c == 'y' {
            return self.answering(true);
        } else if c == 'N' {
            return self.answering(false);
        } else {
            self.list.start_unlock();
        }
        Effect::Nothing
    }

    /// A letter in Normal mode.
    fn letter(&mut self, c: char) -> (e: Effect)
        requires
            old(self)@.wf(),
        ensures
            (final(self)@, e@) == old(self)@.letter(c),
            final(self)@.wf(),
    {
        if c == 'q' {
            return Effect::Close;
        }
        if c == 'i' || c == '/' {
            self.list.focus_search();
        } else if c == 'g' || c == 'd' {
            self.list.pending = Some(c);
        } else if c == 'G' {
            self.list.move_bottom();
        } else if c == 'j' {
            self.list.step_down();
        } else if c == 'k' {
            self.list.step_up();
        } else if c == 'a' {
            if self.list.tab == Tab::Tasks {
                self.list.start_create();
            } else {
                self.list.start_add_repo();
            }
        } else if c == 'o' || c == 'l' {
            if self.list.tab == Tab::Tasks {
                return self.list.open_selected();
            }
        } else if c == ':' {
            self.command_line();
        } else if c == 'r' || c == 'e' || c == 'x' || c == 'y' || c == 'N' || c == 'u' {
            if self.list.require_tasks() {
                return self.on_task(c);
            }
        }
        Effect::Nothing
    }

    /// Normal mode: vim keys.
    fn handle_normal_key(&mut self, key: KeyEvent) -> (e: Effect)
        requires
            old(self)@.wf(),
        ensures
            (final(self)@, e@) == old(self)@.normal_key(key),
            final(self)@.wf(),
    {
        if let Some(first) = self.list.pending {
            return self.second_key(first, key);
        }
        match key.code {
            KeyCode::Esc => {
                return Effect::Close;
            },
            KeyCode::Down => self.list.step_down(),
            KeyCode::Up => self.list.step_up(),
            KeyCode::Tab | KeyCode::BackTab => {
                return self.toggle_tab();
            },
            KeyCode::Enter => {
                if self.list.tab == Tab::Tasks {
                    return self.list.open_selected();
                }
            },
            KeyCode::Char(c) => {
                if c == 'c' && key.modifiers.control {
                    return Effect::Close;
                }
                return self.letter(c);
            },
            _ => {},
        }
        Effect::Nothing
    }

    /// A `:` command that works from either tab; `None` if it is none.
    fn global_command(&mut self, cmd: &str) -> (e: Option<Effect>)
        requires
            old(self)@.wf(),
        ensures
            match (e, old(self)@.global_command(cmd@)) {
                (Some(a), Some(b)) => (final(self)@, a@) == b,
                (None, None) => final(self)@ == old(self)@,
                _ => false,
            },
            final(self)@.wf(),
    {
        if same(cmd, "tasks") {
            self.list.tab = Tab::Tasks;
        } else if same(cmd, "repos") {
            return Some(self.select_repos_tab());
        } else if same(cmd, "q") || same(cmd, "quit") {
            return Some(Effect::Close);
        } else if same(cmd, "n") || same(cmd, "new") {
            self.list.start_create();
        } else if !cmd.is_empty() {
            return None;
        }
        Some(Effect::Nothing)
    }

    /// A `:` command on the selected task.
    fn task_command(&mut self, cmd: &str) -> (e: Effect)
        requires
            old(self)@.wf(),
        ensures
            (final(self)@, e@) == old(self)@.task_command(cmd@),
            final(self)@.wf(),
    {
        if same(cmd, "d") || same(cmd, "del") || same(cmd, "delete") || same(cmd, "rm") {
            self.list.start_delete();
        } else if same(cmd, "r") || same(cmd, "rename") {
            self.list.start_rename();
        } else if same(cmd, "e") || same(cmd, "edit") || same(cmd, "edit-repos") {
            self.list.start_edit_repos();
        } else if same(cmd, "x") || same(cmd, "close") {
            return self.list.close_selected();
        } else if same(cmd, "u") || same(cmd, "unlock") {
            self.list.start_unlock();
        } else if same(cmd, "o") || same(cmd, "open") {
            return self.list.open_selected();
        } else {
            self.list.tell(cat("unknown command: :", cmd));
        }
        Effect::Nothing
    }

    /// Run a `:` command against the selected task.
    pub fn run_command(&mut self, cmd: &str) -> (e: Effect)
        requires
            old(self)@.wf(),
        ensures
            (final(self)@, e@) == old(self)@.run_command(cmd@),
            final(self)@.wf(),
    {
        if let Some(e) = self.global_command(cmd) {
            return e;
        }
        if self.list.tab != Tab::Tasks {
            self.list.tell(own("switch to Tasks (:tasks) for that"));
            return Effect::Nothing;
        }
        self.task_command(cmd)
    }

    /// A key, before the home pane swallows a close.
    fn keyed(&mut self, key: KeyEvent) -> (e: Effect)
        requires
            old(self)@.wf(),
        ensures
            (final(self)@, e@) == old(self)@.keyed(key),
            final(self)@.wf(),
    {
        match self.list.mode {
            Mode::List => match self.list.input_mode {
                InputMode::Insert => self.handle_insert_key(key),
                InputMode::Normal => self.handle_normal_key(key),
            },
            Mode::Command(_) => match self.list.command_key(key) {
                Some(cmd) => self.run_command(cmd.as_str()),
                None => Effect::Nothing,
            },
            Mode::Create(_) => self.list.create_key(key),
            Mode::AddRepo(_) => self.list.addrepo_key(key),
            Mode::EditRepos(_) => self.list.editrepos_key(key),
            Mode::Confirm(_) => self.list.confirm_key(key),
            Mode::Rename(_) => self.list.rename_key(key),
        }
    }

    /// Handle a key. [`Effect::Close`] closes the overlay; in home mode it is
    /// swallowed with a hint, as quitting would leave a dead pane behind.
    pub fn handle_key(&mut self, key: KeyEvent) -> (e: Effect)
        requires
            old(self)@.wf(),
        ensures
            (final(self)@, e@) == old(self)@.handle_key(key),
            final(self)@.wf(),
    {
        let e = self.keyed(key);
        if let Effect::Close = e {
            if !self.leave(true) {
                return Effect::Nothing;
            }
        }
        e
    }

    /// Decide a wish to close, a quit key's or a jump's: whether to.
    pub fn leave(&mut self, wish: bool) -> (close: bool)
        requires
            old(self)@.wf(),
        ensures
            (final(self)@, close) == old(self)@.left(wish),
            final(self)@.wf(),
    {
        if wish && self.home {
            self.list.tell(own(HOME_HINT));
            return false;
        }
        wish
    }

    /// Before a prompt is answered: see [`TaskList::check_prompt`].
    pub fn check_prompt(&mut self, title: &str, state: &RowState) -> (pane: Option<String>)
        requires
            old(self)@.wf(),
        ensures
            match unanswerable(title@, *state) {
                Some(msg) => pane is None && final(self)@ == old(self)@.on(old(self)@.list.told(msg)),
                None => opt_view(pane) == opt_view(state.pane) && final(self)@ == old(self)@,
            },
            final(self)@.wf(),
    {
        self.list.check_prompt(title, state)
    }

    /// The dialog must still be on screen. Returns whether the key may go out.
    pub fn check_dialog(&mut self, title: &str, visible: bool) -> (go: bool)
        requires
            old(self)@.wf(),
        ensures
            go == visible,
            final(self)@ == old(self)@.on(old(self)@.list.dialog_checked(title@, visible)),
            final(self)@.wf(),
    {
        self.list.check_dialog(title, visible)
    }

    /// The answer went out.
    pub fn answered(&mut self, yes: bool, title: &str)
        requires
            old(self)@.wf(),
        ensures
            final(self)@ == old(self)@.on(old(self)@.list.told(answered_text(yes, title@))),
            final(self)@.wf(),
    {
        self.list.answered(yes, title);
    }

    /// A click in the list view.
    fn click(&mut self, m: MouseEvent) -> (e: Effect)
        requires
            old(self)@.wf(),
        ensures
            (final(self)@, e@) == old(self)@.clicked(m),
            final(self)@.wf(),
    {
        if hit(self.list.tabs_area, m.column, m.row) {
            // Two tabs split the bar width: left half Tasks, right half Repos.
            let right: bool = m.column - self.list.tabs_area.x >= self.list.tabs_area.width / 2;
            if right && self.list.tab == Tab::Tasks {
                return self.select_repos_tab();
            }
            if !right && self.list.tab == Tab::Repos {
                self.list.tab = Tab::Tasks;
            }
            return Effect::Nothing;
        }
        if hit(self.list.search_area, m.column, m.row) {
            self.list.focus_search();
            return Effect::Nothing;
        }
        if let Some(i) = item_at(self.list.list_area, 1, self.list.offset, 1, m.column, m.row) {
            if i < self.list.line_to_pos.len() {
                if let Some(pos) = self.list.line_to_pos[i] {
                    self.list.focus_list();
                    self.list.set_cur_sel(pos);
                }
            }
        }
        Effect::Nothing
    }

    /// Handle a mouse event in the list view (the modal forms stay
    /// keyboard-only). There is no click-to-jump: the multiplexer switches the
    /// client that last pressed a key, so a jump takes Enter.
    pub fn handle_mouse(&mut self, m: MouseEvent) -> (e: Effect)
        requires
            old(self)@.wf(),
        ensures
            (final(self)@, e@) == old(self)@.handle_mouse(m),
            final(self)@.wf(),
    {
        match self.list.mode {
            Mode::List => {},
            _ => {
                return Effect::Nothing;
            },
        }
        match m.kind {
            MouseEventKind::ScrollDown => self.list.step_down(),
            MouseEventKind::ScrollUp => self.list.step_up(),
            MouseEventKind::Down(MouseButton::Left) => {
                return self.click(m);
            },
            _ => {},
        }
        Effect::Nothing
    }

    /// Where jumping to the selected task goes, `session` being the one this
    /// process runs in, if any.
    pub fn jump(&mut self, session: Option<&str>) -> (r: Route)
        requires
            old(self)@.wf(),
        ensures
            (final(self)@, r@) == old(self)@.jump(
                match session {
                    Some(s) => Some(s@),
                    None => None,
                },
            ),
            final(self)@.wf(),
    {
        let (ws_idx, slug, tab_id, title) = match self.list.selected_row() {
            None => {
                return Route::Nothing;
            },
            Some(r) => (r.ws_idx, r.slug.clone(), r.tab_id, r.title.clone()),
        };
        match session {
            Some(s) => if same(s, SESSION) {
                Route::Here { ws_idx, slug }
            } else {
                Route::Over { tab_id, title }
            },
            None => {
                self.attach = Some(AttachTarget { tab_id, title });
                Route::Leave
            },
        }
    }

    /// The task was opened in this session. Returns whether to close; the home
    /// pane stays, its filter reset and the most recent task on top.
    pub fn opened(&mut self, rows: Vec<Row>) -> (close: bool)
        requires
            old(self)@.wf(),
        ensures
            (final(self)@, close) == old(self)@.opened(rows@),
            final(self)@.wf(),
    {
        if !self.home {
            return true;
        }
        let ghost v = self@;
        self.list.filter = String::new();
        assert(self.list.filter@ =~= Seq::<char>::empty());
        self.list.rows = crate::list::sort_rows(rows);
        proof {
            vec_fits(self.list.rows);
        }
        self.list.apply_filter();
        self.list.selected = 0;
        self.list.focus_search();
        self.list.status_msg = None;
        assert(self@ =~= v.opened(rows@).0);
        false
    }

    /// The tab of a task was closed, or none was open.
    pub fn tab_closed(&mut self, rows: Option<Vec<Row>>)
        requires
            old(self)@.wf(),
        ensures
            final(self)@ == (match rows {
                Some(r) => old(self)@.on(old(self)@.list.with_rows(r@).told("closed tab"@)),
                None => old(self)@.on(old(self)@.list.told("no open tab"@)),
            }),
            final(self)@.wf(),
    {
        match rows {
            Some(r) => {
                self.list.set_rows(r);
                self.list.tell(own("closed tab"));
            },
            None => self.list.tell(own("no open tab")),
        }
    }

    /// The pane to show a preview of.
    pub fn preview_pane(&self) -> (pane: Option<String>)
        requires
            self@.wf(),
        ensures
            opt_view(pane) == self@.preview_pane(),
    {
        if self.list.tab != Tab::Tasks {
            return None;
        }
        match self.list.mode {
            Mode::List => {},
            Mode::Command(_) => {},
            _ => {
                return None;
            },
        }
        match self.list.selected_row() {
            Some(r) => match &r.pane {
                Some(p) => Some(p.clone()),
                None => None,
            },
            None => None,
        }
    }

    /// Take what a pane shows: `capture` is its text, or none where it could
    /// not be read.
    pub fn set_preview(&mut self, pane: Option<String>, capture: Option<&str>)
        requires
            old(self)@.wf(),
        ensures
            final(self)@ == (OverlayView {
                preview: match capture {
                    Some(text) => PreviewView { pane: opt_view(pane), lines: styled_lines(text@), gone: false },
                    None => PreviewView { pane: opt_view(pane), lines: Seq::empty(), gone: true },
                },
                ..old(self)@
            }),
            final(self)@.wf(),
    {
        self.preview = match capture {
            Some(text) => Preview { pane, lines: style_lines(text), gone: false },
            None => {
                let lines: Vec<Line> = Vec::new();
                assert(views(lines@) =~= Seq::empty());
                Preview { pane, lines, gone: true }
            },
        };
    }
}

/// The home pane never closes, neither by a key nor after a jump: it swallows
/// every close with a hint.
pub proof fn the_home_pane_stays(v: OverlayView, key: KeyEvent, wish: bool)
    requires
        v.home,
    ensures
        !v.left(wish).1,
        wish ==> v.left(wish).0.list.status_msg == Some(HOME_HINT@),
        !(v.handle_key(key).1 is Close),
        v.keyed(key).1 is Close ==> v.handle_key(key).0.list.status_msg == Some(HOME_HINT@),
{
}

/// A click never jumps and never closes.
pub proof fn clicks_never_jump(v: OverlayView, m: MouseEvent)
    ensures
        v.handle_mouse(m).1 is Nothing || v.handle_mouse(m).1 is ScanRepos,
        v.handle_mouse(m).0.attach == v.attach,
{
}

/// Flipping the tabs twice is where one was.
pub proof fn toggling_undoes(v: OverlayView)
    requires
        v.wf(),
    ensures
        v.toggle_tab().0.toggle_tab().0 == v,
{
}

/// A jump waits for the teardown exactly when made outside any session.
pub proof fn only_outside_jumps_attach(v: OverlayView, session: Option<Seq<char>>)
    ensures
        v.jump(session).1 is Leave <==> (session is None && v.list.selected_row() is Some),
        !(v.jump(session).1 is Leave) ==> v.jump(session).0 == v,
{
}

/// No key takes a selection off its list.
pub proof fn keys_stay_on_the_list(v: OverlayView, key: KeyEvent)
    requires
        v.wf(),
        v.list.on_list(),
    ensures
        v.handle_key(key).0.list.on_list(),
{
    let l = v.list;
    match l.mode {
        ModeView::List => match l.input_mode {
            InputMode::Insert => {
                crate::list::moving_stays_on_the_list(l);
                assert(v.insert_key(key).0.list.on_list());
            },
            InputMode::Normal => {
                normal_keys_stay(v, key);
            },
        },
        ModeView::Command(buffer) => {
            let (list, cmd) = l.command_key(buffer, key);
            assert(list.on_list());
            if cmd is Some {
                commands_stay(v.on(list), cmd->0);
            }
        },
        _ => {
            assert(v.keyed(key).0.list.on_list());
        },
    }
}

proof fn normal_keys_stay(v: OverlayView, key: KeyEvent)
    requires
        v.wf(),
        v.list.on_list(),
    ensures
        v.normal_key(key).0.list.on_list(),
{
    crate::list::moving_stays_on_the_list(v.list);
    match v.list.pending {
        Some(first) => {
            assert(v.second_key(first, key).0.list.on_list());
        },
        None => match key.code {
            KeyCode::Char(c) => {
                assert(v.on_task(c).0.list.on_list());
                assert(v.letter(c).0.list.on_list());
            },
            _ => {},
        },
    }
}

proof fn commands_stay(v: OverlayView, cmd: Seq<char>)
    requires
        v.list.on_list(),
    ensures
        v.run_command(cmd).0.list.on_list(),
{
    assert(v.task_command(cmd).0.list.on_list());
    assert(v.global_command(cmd) matches Some(r) ==> r.0.list.on_list());
}

} // verus!
