//! The column: the task list beside the embedded terminal, sectioned by
//! attention, fuzzy-filtered, with each task's status. It is both a switcher
//! and a task manager: type to filter and Enter to open, plus bindings on a
//! selected row. A jump is the window switch (the terminal shows it), and quit
//! keys hand focus to the task through [`ClientRequest`].
use vstd::prelude::*;
use vstd::string::*;

use crate::input::{KeyCode, KeyEvent, MouseButton, MouseEvent, MouseEventKind};
use crate::job::Job;
use crate::list::{
    clamped, empty_list, filtered_in_range, task_from, task_from_finds, Effect, EffectView, Focus,
    InputMode, ListView, Mode, ModeView, Row, Tab, TaskList,
};
use crate::list_events::rows_kept_alike;
use crate::mouse::{hit, inside, inside_border, item_at_heights, lines_between};
use crate::status::TaskStatus;
use crate::text::{cat, cat4, opt_view, own, same};

verus! {

/// What the column asks the client to do, since it cannot move focus or hide
/// itself.
#[derive(Debug, Clone, Copy, PartialEq, Eq, Structural)]
pub enum ClientRequest {
    /// Put the keyboard in the embedded terminal (a jump landed, or a quit key:
    /// the column stays).
    FocusTerminal,
    /// `:hide` takes the column away.
    Hide,
    /// `:q` leaves the client altogether.
    Quit,
}

/// The task list as the client shows it.
#[derive(Debug)]
pub struct Column {
    pub list: TaskList,
    pub client_request: Option<ClientRequest>,
    /// A switch or an answer only updates this struct.
    pub offline: bool,
    /// Where each tab's label stands in the tab bar, from its left end.
    pub tab_spans: Vec<(u16, u16)>,
    /// How many frames have been drawn; moves what has no progress to show.
    pub frame: u64,
    /// When idle windows were last swept, in milliseconds.
    pub last_swept: Option<u64>,
    /// When the slow inputs were last re-read, in milliseconds.
    pub slow_refreshed: Option<u64>,
}

/// The task list as the client shows it.
#[verifier::ext_equal]
pub struct ColumnView {
    pub list: ListView,
    pub client_request: Option<ClientRequest>,
    pub offline: bool,
    pub tab_spans: Seq<(u16, u16)>,
    pub frame: u64,
    pub last_swept: Option<u64>,
    pub slow_refreshed: Option<u64>,
}

impl View for Column {
    type V = ColumnView;

    open spec fn view(&self) -> ColumnView {
        ColumnView {
            list: self.list@,
            client_request: self.client_request,
            offline: self.offline,
            tab_spans: self.tab_spans@,
            frame: self.frame,
            last_swept: self.last_swept,
            slow_refreshed: self.slow_refreshed,
        }
    }
}

/// How often the slow inputs are re-read, in milliseconds.
pub const SLOW_REFRESH: u64 = 2000;

/// Least time between two sweeps of idle windows, in milliseconds.
pub const SWEEP_INTERVAL: u64 = 300000;

/// What a session waits for when it shows a permission dialog.
pub const PERMISSION_PROMPT: &'static str = "permission prompt";

/// An answer in the past tense.
pub open spec fn answer_verb(yes: bool) -> Seq<char> {
    if yes {
        "approved"@
    } else {
        "denied"@
    }
}

/// What an answered prompt is reported as.
pub open spec fn answered_text(yes: bool, title: Seq<char>) -> Seq<char> {
    answer_verb(yes) + " '"@ + title + "'"@
}

/// Whether a row waits on a permission prompt.
pub open spec fn answerable(r: Row) -> bool {
    r.status == TaskStatus::Blocked && opt_view(r.waiting_for) == Some(PERMISSION_PROMPT@)
}

/// The first job at or after `from` that has not landed.
pub open spec fn running_from(jobs: Seq<Job>, from: int) -> Option<int>
    decreases jobs.len() - from,
{
    if from >= jobs.len() {
        None
    } else if jobs[from].outcome is None {
        Some(from)
    } else {
        running_from(jobs, from + 1)
    }
}

/// How many of the first `n` jobs have not landed.
pub open spec fn running_count(jobs: Seq<Job>, n: int) -> nat
    decreases n,
{
    if n <= 0 {
        0
    } else {
        running_count(jobs, n - 1) + if jobs[n - 1].outcome is None {
            1nat
        } else {
            0
        }
    }
}

/// Why the client does not quit yet.
pub open spec fn quit_refusal(title: Seq<char>) -> Seq<char> {
    title + " — still running; :q! quits anyway"@
}

/// Why a job is not dismissed yet.
pub open spec fn dismiss_refusal(title: Seq<char>) -> Seq<char> {
    title + " — still running"@
}

/// The first span at or after `from` that holds `x`.
pub open spec fn span_from(spans: Seq<(u16, u16)>, x: int, from: int) -> Option<int>
    decreases spans.len() - from,
{
    if from >= spans.len() {
        None
    } else if spans[from].0 <= x < spans[from].1 {
        Some(from)
    } else {
        span_from(spans, x, from + 1)
    }
}

/// The tab at a place of the bar.
pub open spec fn tab_at(i: int) -> Option<Tab> {
    if i == 0 {
        Some(Tab::Tasks)
    } else if i == 1 {
        Some(Tab::Repos)
    } else if i == 2 {
        Some(Tab::Work)
    } else {
        None
    }
}

/// A row whose prompt was answered: its agent is at work again.
pub open spec fn at_work(r: Row) -> Row {
    Row { status: TaskStatus::Working, waiting_for: None, ..r }
}

impl ColumnView {
    /// With another list.
    pub open spec fn on(self, list: ListView) -> ColumnView {
        ColumnView { list, ..self }
    }

    /// See [`ListView::wf`].
    pub open spec fn wf(self) -> bool {
        self.list.wf()
    }

    /// The column follows its selection: moving onto an open task switches to
    /// its window.
    pub open spec fn followed(self) -> (ColumnView, EffectView) {
        if self.offline && self.list.follows() is Some {
            (self.on(ListView { current: self.list.follows(), ..self.list }), EffectView::Nothing)
        } else {
            (self, self.list.following())
        }
    }

    /// The next tab, or the one before.
    pub open spec fn cycle_tab(self, back: bool) -> (ColumnView, EffectView) {
        let tab = if back {
            self.list.tab.prev()
        } else {
            self.list.tab.next()
        };
        self.select_tab(tab)
    }

    /// Another tab.
    pub open spec fn select_tab(self, tab: Tab) -> (ColumnView, EffectView) {
        let list = ListView { tab, ..self.list };
        (self.on(list), list.scanning())
    }

    /// The column once the task `slug` is open: the keyboard goes to it, the
    /// filter goes, the selection stays on it.
    pub open spec fn opened(self, ws_idx: usize, slug: Seq<char>) -> ColumnView {
        let l = ListView { current: Some(slug), filter: Seq::empty(), ..self.list };
        ColumnView {
            client_request: Some(ClientRequest::FocusTerminal),
            list: l.apply_filter().reselected(ws_idx, slug).focus_search().hushed(),
            ..self
        }
    }

    /// Open the selected task.
    pub open spec fn jump(self) -> (ColumnView, EffectView) {
        match self.list.selected_row() {
            None => (self, EffectView::Nothing),
            Some(r) => if self.offline {
                (self.opened(r.ws_idx, r.slug@), EffectView::Nothing)
            } else {
                (self, self.list.opening())
            },
        }
    }

    /// Answer the selected task's prompt.
    pub open spec fn answer(self, yes: bool) -> (ColumnView, EffectView) {
        match self.list.selected_row() {
            None => (self, EffectView::Nothing),
            Some(r) => if self.offline {
                let i = self.list.filtered[self.list.selected as int] as int;
                (
                    self.on(
                        (ListView { rows: self.list.rows.update(i, at_work(r)), ..self.list }).told(
                            answered_text(yes, r.title@),
                        ),
                    ),
                    EffectView::Nothing,
                )
            } else {
                (self, EffectView::Answer { yes, title: r.title@, path: r.path@ })
            },
        }
    }

    /// Take a settled job off the list; a running one stays.
    pub open spec fn dismiss_job(self) -> ColumnView {
        let l = self.list;
        if l.work_selected < l.jobs.len() {
            let job = l.jobs[l.work_selected as int];
            if job.outcome is None {
                self.on(l.told(dismiss_refusal(job.plan.title@)))
            } else {
                let jobs = l.jobs.remove(l.work_selected as int);
                self.on(ListView { jobs, work_selected: clamped(l.work_selected, jobs.len()), ..l })
            }
        } else {
            self
        }
    }

    /// Leave the client, unless a job still runs.
    pub open spec fn quit(self) -> ColumnView {
        match running_from(self.list.jobs, 0) {
            Some(i) => self.on(self.list.told(quit_refusal(self.list.jobs[i].plan.title@))),
            None => ColumnView { client_request: Some(ClientRequest::Quit), ..self },
        }
    }

    /// Withdraw the selected task's pending secrets requests.
    pub open spec fn cancel_secrets(self) -> (ColumnView, EffectView) {
        match self.list.selected_row() {
            None => (self, EffectView::Nothing),
            Some(r) => if r.wants_secrets() {
                (self, EffectView::CancelSecrets { ws_idx: r.ws_idx, slug: r.slug@ })
            } else {
                (self.on(self.list.told("no pending secrets for that task"@)), EffectView::Nothing)
            },
        }
    }

    /// Open the command line.
    pub open spec fn command_line(self) -> ColumnView {
        self.on(self.list.hushed().in_mode(ModeView::Command(Seq::empty())))
    }

    /// Enter in the search field opens the top match, on a row that task.
    pub open spec fn enter(self) -> (ColumnView, EffectView) {
        if self.list.tab != Tab::Tasks {
            (self, EffectView::Nothing)
        } else if self.list.focus == Focus::Search {
            self.on(self.list.with_sel(0)).jump()
        } else {
            self.jump()
        }
    }

    /// Insert mode: type to filter.
    pub open spec fn insert_key(self, key: KeyEvent) -> (ColumnView, EffectView) {
        let ctrl = key.modifiers.control;
        let l = self.list;
        match key.code {
            KeyCode::Esc => (self.on(l.focus_list()), EffectView::Nothing),
            KeyCode::Tab => self.cycle_tab(false),
            KeyCode::BackTab => self.cycle_tab(true),
            KeyCode::Enter => self.enter(),
            KeyCode::Down => self.on(l.step_down()).followed(),
            KeyCode::Up => self.on(l.step_up()).followed(),
            KeyCode::Backspace => (self.on(l.filtering(crate::forms::erased(l.filter))), EffectView::Nothing),
            KeyCode::Char(c) => if ctrl {
                if c == 'c' {
                    (self, EffectView::Close)
                } else if c == 'j' {
                    self.on(l.step_down()).followed()
                } else if c == 'k' {
                    self.on(l.step_up()).followed()
                } else {
                    (self, EffectView::Nothing)
                }
            } else if c == ':' {
                (self.command_line(), EffectView::Nothing)
            } else {
                (self.on(l.filtering(crate::forms::typed(l.filter, c))), EffectView::Nothing)
            },
            _ => (self, EffectView::Nothing),
        }
    }

    /// The second key of a 2-key sequence: `gg`, `gt`, `gT`, `dd`.
    pub open spec fn second_key(self, first: char, key: KeyEvent) -> (ColumnView, EffectView) {
        let v = self.on(ListView { pending: None, ..self.list });
        if first == 'g' && key.code == KeyCode::Char('g') {
            v.on(v.list.move_top()).followed()
        } else if first == 'g' && key.code == KeyCode::Char('t') {
            v.cycle_tab(false)
        } else if first == 'g' && key.code == KeyCode::Char('T') {
            v.cycle_tab(true)
        } else if first == 'd' && key.code == KeyCode::Char('d') {
            match v.list.tab {
                Tab::Work => (v.dismiss_job(), EffectView::Nothing),
                Tab::Tasks => (v.on(v.list.start_delete()), EffectView::Nothing),
                Tab::Repos => (v.on(v.list.require_tasks()), EffectView::Nothing),
            }
        } else {
            (v, EffectView::Nothing)
        }
    }

    /// A letter in Normal mode.
    pub open spec fn letter(self, c: char) -> (ColumnView, EffectView) {
        let l = self.list;
        let tasks = l.tab == Tab::Tasks;
        if c == 'q' {
            (self, EffectView::Close)
        } else if c == 'i' || c == '/' {
            (self.on(l.focus_search()), EffectView::Nothing)
        } else if c == 'g' || c == 'd' {
            (self.on(ListView { pending: Some(c), ..l }), EffectView::Nothing)
        } else if c == 'G' {
            self.on(l.move_bottom()).followed()
        } else if c == 'j' {
            self.on(l.step_down()).followed()
        } else if c == 'k' {
            self.on(l.step_up()).followed()
        } else if c == 'n' {
            (if tasks {
                self.on(l.start_create())
            } else {
                self
            }, EffectView::Nothing)
        } else if c == 'a' {
            (if l.tab == Tab::Repos {
                self.on(l.start_add_repo())
            } else {
                self
            }, EffectView::Nothing)
        } else if c == 'o' || c == 'l' {
            if tasks {
                self.jump()
            } else {
                (self, EffectView::Nothing)
            }
        } else if c == ':' {
            (self.command_line(), EffectView::Nothing)
        } else if c == 'r' || c == 'e' || c == 'x' || c == 'y' || c == 'N' || c == 'u' {
            if tasks {
                self.on_task(c)
            } else {
                (self.on(l.require_tasks()), EffectView::Nothing)
            }
        } else {
            (self, EffectView::Nothing)
        }
    }

    /// A letter that acts on the selected task.
    pub open spec fn on_task(self, c: char) -> (ColumnView, EffectView) {
        let l = self.list;
        if c == 'r' {
            (self.on(l.start_rename()), EffectView::Nothing)
        } else if c == 'e' {
            (self.on(l.start_edit_repos()), EffectView::Nothing)
        } else if c == 'x' {
            (self, l.closing())
        } else if c == 'y' {
            self.answer(true)
        } else if c == 'N' {
            self.answer(false)
        } else {
            (self.on(l.start_unlock()), EffectView::Nothing)
        }
    }

    /// Normal mode: vim keys.
    pub open spec fn normal_key(self, key: KeyEvent) -> (ColumnView, EffectView) {
        let l = self.list;
        match l.pending {
            Some(first) => self.second_key(first, key),
            None => match key.code {
                KeyCode::Esc => (self, EffectView::Close),
                KeyCode::Down => self.on(l.step_down()).followed(),
                KeyCode::Up => self.on(l.step_up()).followed(),
                KeyCode::Tab => self.cycle_tab(false),
                KeyCode::BackTab => self.cycle_tab(true),
                KeyCode::Enter => if l.tab == Tab::Tasks {
                    self.jump()
                } else {
                    (self, EffectView::Nothing)
                },
                KeyCode::Char(c) => if c == 'c' && key.modifiers.control {
                    (self, EffectView::Close)
                } else {
                    self.letter(c)
                },
                _ => (self, EffectView::Nothing),
            },
        }
    }

    /// A `:` command that works from any tab.
    pub open spec fn global_command(self, cmd: Seq<char>) -> Option<(ColumnView, EffectView)> {
        if cmd == "tasks"@ {
            Some((self.on(ListView { tab: Tab::Tasks, ..self.list }), EffectView::Nothing))
        } else if cmd == "repos"@ {
            Some(self.select_tab(Tab::Repos))
        } else if cmd == "work"@ {
            Some((self.on(ListView { tab: Tab::Work, ..self.list }), EffectView::Nothing))
        } else if cmd == "q"@ || cmd == "quit"@ {
            Some((self.quit(), EffectView::Nothing))
        } else if cmd == "q!"@ || cmd == "quit!"@ {
            Some((ColumnView { client_request: Some(ClientRequest::Quit), ..self }, EffectView::Nothing))
        } else if cmd == "n"@ || cmd == "new"@ {
            Some((self.on(self.list.start_create()), EffectView::Nothing))
        } else if cmd.len() == 0 {
            Some((self, EffectView::Nothing))
        } else {
            None
        }
    }

    /// A `:` command on the selected task.
    pub open spec fn task_command(self, cmd: Seq<char>) -> (ColumnView, EffectView) {
        let l = self.list;
        if cmd == "d"@ || cmd == "del"@ || cmd == "delete"@ || cmd == "rm"@ {
            (self.on(l.start_delete()), EffectView::Nothing)
        } else if cmd == "r"@ || cmd == "rename"@ {
            (self.on(l.start_rename()), EffectView::Nothing)
        } else if cmd == "e"@ || cmd == "edit"@ || cmd == "edit-repos"@ {
            (self.on(l.start_edit_repos()), EffectView::Nothing)
        } else if cmd == "x"@ || cmd == "close"@ {
            (self, l.closing())
        } else if cmd == "u"@ || cmd == "unlock"@ {
            (self.on(l.start_unlock()), EffectView::Nothing)
        } else if cmd == "y"@ || cmd == "approve"@ || cmd == "allow"@ {
            self.answer(true)
        } else if cmd == "deny"@ {
            self.answer(false)
        } else if cmd == "cancel"@ {
            self.cancel_secrets()
        } else if cmd == "hide"@ {
            (ColumnView { client_request: Some(ClientRequest::Hide), ..self }, EffectView::Nothing)
        } else if cmd == "o"@ || cmd == "open"@ {
            self.jump()
        } else {
            (self.on(l.told("unknown command: :"@ + cmd)), EffectView::Nothing)
        }
    }

    /// A `:` command.
    pub open spec fn run_command(self, cmd: Seq<char>) -> (ColumnView, EffectView) {
        match self.global_command(cmd) {
            Some(r) => r,
            None => if self.list.tab != Tab::Tasks {
                (self.on(self.list.told("switch to Tasks (:tasks) for that"@)), EffectView::Nothing)
            } else {
                self.task_command(cmd)
            },
        }
    }

    /// A key, before a quit key is turned into a request.
    pub open spec fn keyed(self, key: KeyEvent) -> (ColumnView, EffectView) {
        let l = self.list;
        match l.mode {
            ModeView::List => match l.input_mode {
                InputMode::Insert => self.insert_key(key),
                InputMode::Normal => self.normal_key(key),
            },
            ModeView::Command(buffer) => {
                let (list, cmd) = l.command_key(buffer, key);
                match cmd {
                    Some(c) => self.on(list).run_command(c),
                    None => (self.on(list), EffectView::Nothing),
                }
            },
            ModeView::Create(f) => {
                let (list, e) = l.create_key(f, key);
                (self.on(list), e)
            },
            ModeView::AddRepo(f) => {
                let (list, e) = l.add_key(f, key);
                (self.on(list), e)
            },
            ModeView::EditRepos(f) => {
                let (list, e) = l.edit_key(f, key);
                (self.on(list), e)
            },
            ModeView::Confirm(c) => {
                let (list, e) = l.confirm_key(c, key);
                (self.on(list), e)
            },
            ModeView::Rename(f) => {
                let (list, e) = l.rename_key(f, key);
                (self.on(list), e)
            },
        }
    }

    /// A key. The column stays; a quit key means "back to the task".
    pub open spec fn handle_key(self, key: KeyEvent) -> (ColumnView, EffectView) {
        let (v, e) = self.keyed(key);
        if e is Close {
            (ColumnView { client_request: Some(ClientRequest::FocusTerminal), ..v }, EffectView::Nothing)
        } else {
            (v, e)
        }
    }

    /// With the view scrolled by one item, the selection left alone.
    pub open spec fn scrolled(self, down: bool) -> ColumnView {
        let items = if self.list.item_heights.len() == 0 {
            1
        } else {
            self.list.item_heights.len() as int
        };
        let to = if down {
            self.list.offset + 1
        } else if self.list.offset == 0 {
            0
        } else {
            self.list.offset - 1
        };
        self.on(ListView { offset: if to < items {
            to as usize
        } else {
            (items - 1) as usize
        }, ..self.list })
    }

    /// With the cursor on the entry at `pos`.
    pub open spec fn clicked(self, pos: usize) -> (ColumnView, EffectView) {
        self.on(self.list.focus_list().with_sel(pos)).followed()
    }

    /// A click on the tab bar: the tab actually under it.
    pub open spec fn tab_click(self, col: u16) -> (ColumnView, EffectView) {
        match span_from(self.tab_spans, col - self.list.tabs_area.x, 0) {
            Some(i) => match tab_at(i) {
                Some(t) => if t == self.list.tab {
                    (self, EffectView::Nothing)
                } else {
                    self.select_tab(t)
                },
                None => (self, EffectView::Nothing),
            },
            None => (self, EffectView::Nothing),
        }
    }
}

/// The item under a click.
pub open spec fn item_under(l: ListView, m: MouseEvent, i: int) -> bool {
    &&& inside_border(l.list_area, 1, m.column, m.row)
    &&& l.offset <= i < l.item_heights.len()
    &&& lines_between(l.item_heights, l.offset as int, i) <= m.row - (l.list_area.y + 1) < lines_between(
        l.item_heights,
        l.offset as int,
        i + 1,
    )
}

/// Whether a mouse event takes a column from `v` to `w`. Only the list view
/// takes the mouse: the wheel scrolls, a click puts the cursor where it lands.
pub open spec fn mouse_step(v: ColumnView, m: MouseEvent, w: ColumnView, e: EffectView) -> bool {
    let l = v.list;
    if !(l.mode is List) {
        (w, e) == (v, EffectView::Nothing)
    } else {
        match m.kind {
            MouseEventKind::ScrollDown => (w, e) == (v.scrolled(true), EffectView::Nothing),
            MouseEventKind::ScrollUp => (w, e) == (v.scrolled(false), EffectView::Nothing),
            MouseEventKind::Down(MouseButton::Left) => if inside(l.tabs_area, m.column, m.row) {
                (w, e) == v.tab_click(m.column)
            } else if inside(l.search_area, m.column, m.row) {
                (w, e) == (v.on(l.focus_search()), EffectView::Nothing)
            } else if exists|i: int| #[trigger] item_under(l, m, i) && i < l.line_to_pos.len() && l.line_to_pos[i] is Some {
                exists|i: int| #[trigger] item_under(l, m, i) && (w, e) == v.clicked(l.line_to_pos[i]->0)
            } else {
                (w, e) == (v, EffectView::Nothing)
            },
            _ => (w, e) == (v, EffectView::Nothing),
        }
    }
}

/// At most one item is under a click.
pub proof fn one_item_under(l: ListView, m: MouseEvent, i: int, j: int)
    requires
        item_under(l, m, i),
        item_under(l, m, j),
    ensures
        i == j,
{
    crate::mouse::one_item_per_line(l.item_heights, l.offset as int, i, j, m.row - (l.list_area.y + 1));
}

impl Column {
    /// A column with no workspaces and no rows.
    pub fn empty() -> (c: Column)
        ensures
            c@ == (ColumnView {
                list: empty_list(),
                client_request: None,
                offline: false,
                tab_spans: Seq::empty(),
                frame: 0,
                last_swept: None,
                slow_refreshed: None,
            }),
            c@.wf(),
    {
        Column {
            list: TaskList::empty(),
            client_request: None,
            offline: false,
            tab_spans: Vec::new(),
            frame: 0,
            last_swept: None,
            slow_refreshed: None,
        }
    }

    /// See [`ColumnView::followed`].
    pub fn follow_selection(&mut self) -> (e: Effect)
        requires
            old(self)@.wf(),
        ensures
            (final(self)@, e@) == old(self)@.followed(),
            final(self)@.wf(),
    {
        let e = self.list.follow();
        if self.offline {
            if let Effect::Switch(slug) = e {
                self.list.current = Some(slug);
            }
            return Effect::Nothing;
        }
        e
    }

    /// Down, and follow.
    pub fn nav_down(&mut self) -> (e: Effect)
        requires
            old(self)@.wf(),
        ensures
            (final(self)@, e@) == old(self)@.on(old(self)@.list.step_down()).followed(),
            final(self)@.wf(),
    {
        self.list.step_down();
        self.follow_selection()
    }

    /// Up, and follow.
    pub fn nav_up(&mut self) -> (e: Effect)
        requires
            old(self)@.wf(),
        ensures
            (final(self)@, e@) == old(self)@.on(old(self)@.list.step_up()).followed(),
            final(self)@.wf(),
    {
        self.list.step_up();
        self.follow_selection()
    }

    /// The next tab, or the one before.
    pub fn cycle_tab(&mut self, back: bool) -> (e: Effect)
        requires
            old(self)@.wf(),
        ensures
            (final(self)@, e@) == old(self)@.cycle_tab(back),
            final(self)@.wf(),
    {
        self.list.tab = if back { self.list.tab.prev() } else { self.list.tab.next() };
        self.list.scan()
    }

    /// Another tab.
    fn select_tab(&mut self, tab: Tab) -> (e: Effect)
        requires
            old(self)@.wf(),
        ensures
            (final(self)@, e@) == old(self)@.select_tab(tab),
            final(self)@.wf(),
    {
        self.list.tab = tab;
        self.list.scan()
    }

    /// The task `slug` is open: hand the keyboard to it.
    pub fn opened(&mut self, ws_idx: usize, slug: &str)
        requires
            old(self)@.wf(),
        ensures
            final(self)@ == old(self)@.opened(ws_idx, slug@),
            final(self)@.wf(),
    {
        let ghost v = self@;
        self.list.current = Some(own(slug));
        self.client_request = Some(ClientRequest::FocusTerminal);
        self.list.filter = String::new();
        assert(self.list.filter@ =~= Seq::<char>::empty());
        self.list.apply_filter();
        self.list.reselect(ws_idx, slug);
        self.list.focus_search();
        self.list.status_msg = None;
        assert(self@ =~= v.opened(ws_idx, slug@));
    }

    /// Open the selected task and hand the keyboard to it. The column stays in
    /// view: the rows keep their order and the selection stays on the task.
    pub fn jump(&mut self) -> (e: Effect)
        requires
            old(self)@.wf(),
        ensures
            (final(self)@, e@) == old(self)@.jump(),
            final(self)@.wf(),
    {
        let e = self.list.open_selected();
        if self.offline {
            if let Effect::Open { ws_idx, slug } = e {
                self.opened(ws_idx, slug.as_str());
            }
            return Effect::Nothing;
        }
        e
    }

    /// Answer the permission dialog of the selected task without visiting it.
    pub fn answer(&mut self, yes: bool) -> (e: Effect)
        requires
            old(self)@.wf(),
        ensures
            (final(self)@, e@) == old(self)@.answer(yes),
            final(self)@.wf(),
    {
        let ghost v = self@;
        proof {
            filtered_in_range(self@.list);
        }
        let (title, path) = match self.list.selected_row() {
            None => {
                return Effect::Nothing;
            },
            Some(r) => (r.title.clone(), r.path.clone()),
        };
        if self.offline {
            let i: usize = self.list.filtered[self.list.selected];
            let ghost r = self.list.rows@[i as int];
            self.list.rows[i].status = TaskStatus::Working;
            self.list.rows[i].waiting_for = None;
            assert(self.list.rows@ =~= v.list.rows.update(i as int, at_work(r)));
            proof {
                rows_kept_alike(v.list.rows, self.list.rows@, v.list.filter, v.list.rows.len() as int);
            }
            let verb = if yes { "approved" } else { "denied" };
            self.list.tell(cat4(verb, " '", title.as_str(), "'"));
            assert(self@ =~= v.answer(yes).0);
            return Effect::Nothing;
        }
        Effect::Answer { yes, title, path }
    }

    /// Take the selected job off the Work tab, once it has landed.
    pub fn dismiss_job(&mut self)
        requires
            old(self)@.wf(),
        ensures
            final(self)@ == old(self)@.dismiss_job(),
            final(self)@.wf(),
    {
        let ghost v = self@;
        let i: usize = self.list.work_selected;
        if i < self.list.jobs.len() {
            if !self.list.jobs[i].landed() {
                let title = cat(self.list.jobs[i].plan.title.as_str(), " — still running");
                self.list.tell(title);
            } else {
                let _ = self.list.jobs.remove(i);
                if i >= self.list.jobs.len() {
                    self.list.work_selected = self.list.jobs.len().saturating_sub(1);
                }
                assert(self@ =~= v.dismiss_job());
            }
        }
    }

    /// The first job that has not landed.
    fn first_running(&self) -> (at: Option<usize>)
        ensures
            match (at, running_from(self@.list.jobs, 0)) {
                (Some(a), Some(b)) => a == b && a < self.list.jobs@.len(),
                (None, None) => true,
                _ => false,
            },
    {
        let mut i: usize = 0;
        while i < self.list.jobs.len()
            invariant
                i <= self.list.jobs@.len(),
                running_from(self@.list.jobs, 0) == running_from(self@.list.jobs, i as int),
            decreases self.list.jobs@.len() - i,
        {
            if !self.list.jobs[i].landed() {
                return Some(i);
            }
            i += 1;
        }
        None
    }

    /// How many jobs run.
    pub fn running_jobs(&self) -> (n: usize)
        ensures
            n == running_count(self@.list.jobs, self@.list.jobs.len() as int),
    {
        let mut n: usize = 0;
        let mut i: usize = 0;
        while i < self.list.jobs.len()
            invariant
                i <= self.list.jobs@.len(),
                n <= i,
                n == running_count(self@.list.jobs, i as int),
            decreases self.list.jobs@.len() - i,
        {
            if !self.list.jobs[i].landed() {
                n += 1;
            }
            i += 1;
        }
        n
    }

    /// Leave the client, unless a job still runs: quitting would cut it off.
    fn quit(&mut self)
        requires
            old(self)@.wf(),
        ensures
            final(self)@ == old(self)@.quit(),
            final(self)@.wf(),
    {
        match self.first_running() {
            Some(i) => {
                let msg = cat(self.list.jobs[i].plan.title.as_str(), " — still running; :q! quits anyway");
                self.list.tell(msg);
            },
            None => {
                self.client_request = Some(ClientRequest::Quit);
            },
        }
    }

    /// Withdraw every pending secrets request of the selected task.
    fn cancel_secrets(&mut self) -> (e: Effect)
        requires
            old(self)@.wf(),
        ensures
            (final(self)@, e@) == old(self)@.cancel_secrets(),
            final(self)@.wf(),
    {
        let found = match self.list.selected_row() {
            None => {
                return Effect::Nothing;
            },
            Some(r) => if r.has_secrets() {
                Some((r.ws_idx, r.slug.clone()))
            } else {
                None
            },
        };
        match found {
            Some((ws_idx, slug)) => Effect::CancelSecrets { ws_idx, slug },
            None => {
                self.list.tell(own("no pending secrets for that task"));
                Effect::Nothing
            },
        }
    }

    /// Open the command line.
    fn command_line(&mut self)
        requires
            old(self)@.wf(),
        ensures
            final(self)@ == old(self)@.command_line(),
            final(self)@.wf(),
    {
        self.list.status_msg = None;
        let buffer = String::new();
        assert(buffer@ =~= Seq::<char>::empty());
        self.list.mode = Mode::Command(buffer);
    }

    /// Insert mode: type to filter (the fast switch path).
    fn handle_insert_key(&mut self, key: KeyEvent) -> (e: Effect)
        requires
            old(self)@.wf(),
        ensures
            (final(self)@, e@) == old(self)@.insert_key(key),
            final(self)@.wf(),
    {
        let ctrl: bool = key.modifiers.control;
        match key.code {
            KeyCode::Esc => self.list.focus_list(),
            KeyCode::Tab => {
                return self.cycle_tab(false);
            },
            KeyCode::BackTab => {
                return self.cycle_tab(true);
            },
            KeyCode::Enter => {
                if self.list.tab == Tab::Tasks {
                    // Enter from the search field opens the top match.
                    if self.list.focus == Focus::Search {
                        self.list.set_cur_sel(0);
                    }
                    return self.jump();
                }
            },
            KeyCode::Down => {
                return self.nav_down();
            },
            KeyCode::Up => {
                return self.nav_up();
            },
            KeyCode::Backspace => self.list.filter_erase(),
            KeyCode::Char(c) => {
                if ctrl {
                    if c == 'c' {
                        return Effect::Close;
                    }
                    if c == 'j' {
                        return self.nav_down();
                    }
                    if c == 'k' {
                        return self.nav_up();
                    }
                } else if c == ':' {
                    self.command_line();
                } else {
                    self.list.filter_type(c);
                }
            },
            _ => {},
        }
        Effect::Nothing
    }

    /// The second key of a 2-key sequence.
    fn second_key(&mut self, first: char, key: KeyEvent) -> (e: Effect)
        requires
            old(self)@.wf(),
        ensures
            (final(self)@, e@) == old(self)@.second_key(first, key),
            final(self)@.wf(),
    {
        self.list.pending = None;
        if first == 'g' && key.code == KeyCode::Char('g') {
            self.list.move_top();
            return self.follow_selection();
        }
        if first == 'g' && key.code == KeyCode::Char('t') {
            return self.cycle_tab(false);
        }
        if first == 'g' && key.code == KeyCode::Char('T') {
            return self.cycle_tab(true);
        }
        if first == 'd' && key.code == KeyCode::Char('d') {
            match self.list.tab {
                Tab::Work => self.dismiss_job(),
                Tab::Tasks => self.list.start_delete(),
                Tab::Repos => {
                    let _ = self.list.require_tasks();
                },
            }
        }
        Effect::Nothing
    }

    /// A letter that acts on the selected task.
    fn on_task(&mut self, c: char) -> (e: Effect)
        requires
            old(self)@.wf(),
        ensures
            (final(self)@, e@) == old(self)@.on_task(c),
            final(self)@.wf(),
    {
        if c == 'r' {
            self.list.start_rename();
        } else if c == 'e' {
            self.list.start_edit_repos();
        } else if c == 'x' {
            return self.list.close_selected();
        } else if c == 'y' {
            return self.answer(true);
        } else if c == 'N' {
            return self.answer(false);
        } else {
            self.list.start_unlock();
        }
        Effect::Nothing
    }

    /// A letter in Normal mode.
    fn letter(&mut self, c: char) -> (e: Effect)
        requires
            old(self)@.wf(),
        ensures
            (final(self)@, e@) == old(self)@.letter(c),
            final(self)@.wf(),
    {
        if c == 'q' {
            return Effect::Close;
        }
        if c == 'i' || c == '/' {
            self.list.focus_search();
        } else if c == 'g' || c == 'd' {
            self.list.pending = Some(c);
        } else if c == 'G' {
            self.list.move_bottom();
            return self.follow_selection();
        } else if c == 'j' {
            return self.nav_down();
        } else if c == 'k' {
            return self.nav_up();
        } else if c == 'n' {
            if self.list.tab == Tab::Tasks {
                self.list.start_create();
            }
        } else if c == 'a' {
            if self.list.tab == Tab::Repos {
                self.list.start_add_repo();
            }
        } else if c == 'o' || c == 'l' {
            if self.list.tab == Tab::Tasks {
                return self.jump();
            }
        } else if c == ':' {
            self.command_line();
        } else if c == 'r' || c == 'e' || c == 'x' || c == 'y' || c == 'N' || c == 'u' {
            if self.list.require_tasks() {
                return self.on_task(c);
            }
        }
        Effect::Nothing
    }

    /// Normal mode: vim keys.
    fn handle_normal_key(&mut self, key: KeyEvent) -> (e: Effect)
        requires
            old(self)@.wf(),
        ensures
            (final(self)@, e@) == old(self)@.normal_key(key),
            final(self)@.wf(),
    {
        if let Some(first) = self.list.pending {
            return self.second_key(first, key);
        }
        match key.code {
            KeyCode::Esc => Effect::Close,
            KeyCode::Down => self.nav_down(),
            KeyCode::Up => self.nav_up(),
            KeyCode::Tab => self.cycle_tab(false),
            KeyCode::BackTab => self.cycle_tab(true),
            KeyCode::Enter => {
                if self.list.tab == Tab::Tasks {
                    self.jump()
                } else {
                    Effect::Nothing
                }
            },
            KeyCode::Char(c) => {
                if c == 'c' && key.modifiers.control {
                    Effect::Close
                } else {
                    self.letter(c)
                }
            },
            _ => Effect::Nothing,
        }
    }

    /// A `:` command that works from any tab; `None` if it is none.
    fn global_command(&mut self, cmd: &str) -> (e: Option<Effect>)
        requires
            old(self)@.wf(),
        ensures
            match (e, old(self)@.global_command(cmd@)) {
                (Some(a), Some(b)) => (final(self)@, a@) == b,
                (None, None) => final(self)@ == old(self)@,
                _ => false,
            },
            final(self)@.wf(),
    {
        if same(cmd, "tasks") {
            self.list.tab = Tab::Tasks;
        } else if same(cmd, "repos") {
            return Some(self.select_tab(Tab::Repos));
        } else if same(cmd, "work") {
            self.list.tab = Tab::Work;
        } else if same(cmd, "q") || same(cmd, "quit") {
            self.quit();
        } else if same(cmd, "q!") || same(cmd, "quit!") {
            self.client_request = Some(ClientRequest::Quit);
        } else if same(cmd, "n") || same(cmd, "new") {
            self.list.start_create();
        } else if !cmd.is_empty() {
            return None;
        }
        Some(Effect::Nothing)
    }

    /// A `:` command on the selected task.
    fn task_command(&mut self, cmd: &str) -> (e: Effect)
        requires
            old(self)@.wf(),
        ensures
            (final(self)@, e@) == old(self)@.task_command(cmd@),
            final(self)@.wf(),
    {
        if same(cmd, "d") || same(cmd, "del") || same(cmd, "delete") || same(cmd, "rm") {
            self.list.start_delete();
        } else if same(cmd, "r") || same(cmd, "rename") {
            self.list.start_rename();
        } else if same(cmd, "e") || same(cmd, "edit") || same(cmd, "edit-repos") {
            self.list.start_edit_repos();
        } else if same(cmd, "x") || same(cmd, "close") {
            return self.list.close_selected();
        } else if same(cmd, "u") || same(cmd, "unlock") {
            self.list.start_unlock();
        } else if same(cmd, "y") || same(cmd, "approve") || same(cmd, "allow") {
            return self.answer(true);
        } else if same(cmd, "deny") {
            return self.answer(false);
        } else if same(cmd, "cancel") {
            return self.cancel_secrets();
        } else if same(cmd, "hide") {
            self.client_request = Some(ClientRequest::Hide);
        } else if same(cmd, "o") || same(cmd, "open") {
            return self.jump();
        } else {
            self.list.tell(cat("unknown command: :", cmd));
        }
        Effect::Nothing
    }

    /// Run a `:` command against the selected task.
    pub fn run_command(&mut self, cmd: &str) -> (e: Effect)
        requires
            old(self)@.wf(),
        ensures
            (final(self)@, e@) == old(self)@.run_command(cmd@),
            final(self)@.wf(),
    {
        if let Some(e) = self.global_command(cmd) {
            return e;
        }
        if self.list.tab != Tab::Tasks {
            self.list.tell(own("switch to Tasks (:tasks) for that"));
            return Effect::Nothing;
        }
        self.task_command(cmd)
    }

    /// A key, before a quit key is turned into a request.
    fn keyed(&mut self, key: KeyEvent) -> (e: Effect)
        requires
            old(self)@.wf(),
        ensures
            (final(self)@, e@) == old(self)@.keyed(key),
            final(self)@.wf(),
    {
        match self.list.mode {
            Mode::List => match self.list.input_mode {
                InputMode::Insert => self.handle_insert_key(key),
                InputMode::Normal => self.handle_normal_key(key),
            },
            Mode::Command(_) => match self.list.command_key(key) {
                Some(cmd) => self.run_command(cmd.as_str()),
                None => Effect::Nothing,
            },
            Mode::Create(_) => self.list.create_key(key),
            Mode::AddRepo(_) => self.list.addrepo_key(key),
            Mode::EditRepos(_) => self.list.editrepos_key(key),
            Mode::Confirm(_) => self.list.confirm_key(key),
            Mode::Rename(_) => self.list.rename_key(key),
        }
    }

    /// Handle a key. Returns what the surroundings are asked to do.
    pub fn handle_key(&mut self, key: KeyEvent) -> (e: Effect)
        requires
            old(self)@.wf(),
        ensures
            (final(self)@, e@) == old(self)@.handle_key(key),
            final(self)@.wf(),
    {
        let e = self.keyed(key);
        // The column stays; a quit key means "back to the task".
        if let Effect::Close = e {
            self.client_request = Some(ClientRequest::FocusTerminal);
            return Effect::Nothing;
        }
        e
    }

    /// Scroll the list by one item without touching the selection.
    fn scroll_view(&mut self, down: bool)
        requires
            old(self)@.wf(),
        ensures
            final(self)@ == old(self)@.scrolled(down),
            final(self)@.wf(),
    {
        let n: usize = self.list.item_heights.len();
        let last: usize = if n == 0 { 0 } else { n - 1 };
        let at: usize = self.list.offset;
        self.list.offset = if down {
            if at < last {
                at + 1
            } else {
                last
            }
        } else {
            let to: usize = if at == 0 { 0 } else { at - 1 };
            if to < last {
                to
            } else {
                last
            }
        };
    }

    /// A click on the tab bar.
    fn tab_click(&mut self, col: u16) -> (e: Effect)
        requires
            old(self)@.wf(),
            old(self)@.list.tabs_area.x <= col,
        ensures
            (final(self)@, e@) == old(self)@.tab_click(col),
            final(self)@.wf(),
    {
        let x: u16 = col - self.list.tabs_area.x;
        let mut i: usize = 0;
        while i < self.tab_spans.len()
            invariant
                i <= self.tab_spans@.len(),
                *self == *old(self),
                self@.wf(),
                x == col - self.list.tabs_area.x,
                span_from(self@.tab_spans, x as int, 0) == span_from(self@.tab_spans, x as int, i as int),
            decreases self.tab_spans@.len() - i,
        {
            if self.tab_spans[i].0 <= x && x < self.tab_spans[i].1 {
                let tab = if i == 0 {
                    Tab::Tasks
                } else if i == 1 {
                    Tab::Repos
                } else if i == 2 {
                    Tab::Work
                } else {
                    return Effect::Nothing;
                };
                if tab == self.list.tab {
                    return Effect::Nothing;
                }
                return self.select_tab(tab);
            }
            i += 1;
        }
        Effect::Nothing
    }

    /// Handle a mouse event in the list view (the modal forms stay
    /// keyboard-only). The wheel scrolls the view, never the selection; a click
    /// on a tab, the search box or a row puts the cursor there. No
    /// click-to-open.
    pub fn handle_mouse(&mut self, m: MouseEvent) -> (e: Effect)
        requires
            old(self)@.wf(),
        ensures
            mouse_step(old(self)@, m, final(self)@, e@),
            final(self)@.wf(),
    {
        let ghost v = self@;
        match self.list.mode {
            Mode::List => {},
            _ => {
                return Effect::Nothing;
            },
        }
        match m.kind {
            MouseEventKind::ScrollDown => self.scroll_view(true),
            MouseEventKind::ScrollUp => self.scroll_view(false),
            MouseEventKind::Down(MouseButton::Left) => {
                if hit(self.list.tabs_area, m.column, m.row) {
                    return self.tab_click(m.column);
                }
                if hit(self.list.search_area, m.column, m.row) {
                    self.list.focus_search();
                    return Effect::Nothing;
                }
                let item = item_at_heights(
                    self.list.list_area,
                    1,
                    self.list.offset,
                    &self.list.item_heights,
                    m.column,
                    m.row,
                );
                match item {
                    Some(i) => {
                        assert(item_under(v.list, m, i as int));
                        assert forall|j: int| #[trigger] item_under(v.list, m, j) implies j == i by {
                            one_item_under(v.list, m, i as int, j);
                        }
                        if i < self.list.line_to_pos.len() {
                            if let Some(pos) = self.list.line_to_pos[i] {
                                self.list.focus_list();
                                self.list.set_cur_sel(pos);
                                return self.follow_selection();
                            }
                        }
                    },
                    None => {
                        assert forall|j: int| #[trigger] item_under(v.list, m, j) implies false by {
                            crate::mouse::lines_between_grows(
                                v.list.item_heights,
                                v.list.offset as int,
                                j + 1,
                                v.list.item_heights.len() as int,
                            );
                        }
                    },
                }
            },
            _ => {},
        }
        Effect::Nothing
    }
}

/// The column never closes: a quit key only hands the keyboard to the task.
pub proof fn the_column_stays(v: ColumnView, key: KeyEvent)
    ensures
        !(v.handle_key(key).1 is Close),
        v.keyed(key).1 is Close ==> v.handle_key(key).0.client_request == Some(ClientRequest::FocusTerminal),
{
}

/// While a job runs, plain quit commands are refused and the refusal names a
/// job that runs; with none running they quit.
pub proof fn quitting_waits_for_jobs(v: ColumnView, cmd: Seq<char>)
    requires
        cmd == "q"@ || cmd == "quit"@,
    ensures
        (forall|i: int| 0 <= i < v.list.jobs.len() ==> (#[trigger] v.list.jobs[i]).outcome is Some) ==> v.run_command(cmd).0.client_request
            == Some(ClientRequest::Quit),
        (exists|i: int| 0 <= i < v.list.jobs.len() && (#[trigger] v.list.jobs[i]).outcome is None) ==> {
            &&& v.run_command(cmd).0.client_request == v.client_request
            &&& exists|i: int|
                0 <= i < v.list.jobs.len() && (#[trigger] v.list.jobs[i]).outcome is None
                    && v.run_command(cmd).0.list.status_msg == Some(quit_refusal(v.list.jobs[i].plan.title@))
        },
{
    reveal_strlit("q");
    reveal_strlit("quit");
    reveal_strlit("tasks");
    reveal_strlit("repos");
    reveal_strlit("work");
    assert(cmd[0] == 'q');
    running_from_finds(v.list.jobs, 0);
}

/// The first job that runs is one that runs, and there is none only if every
/// job has landed.
proof fn running_from_finds(jobs: Seq<Job>, from: int)
    requires
        0 <= from,
    ensures
        match running_from(jobs, from) {
            Some(i) => from <= i < jobs.len() && jobs[i].outcome is None,
            None => forall|i: int| from <= i < jobs.len() ==> (#[trigger] jobs[i]).outcome is Some,
        },
    decreases jobs.len() - from,
{
    if from < jobs.len() && jobs[from].outcome is Some {
        running_from_finds(jobs, from + 1);
    }
}

/// `:q!` quits whatever runs.
pub proof fn bang_quit_always_quits(v: ColumnView, cmd: Seq<char>)
    requires
        cmd == "q!"@ || cmd == "quit!"@,
    ensures
        v.run_command(cmd).0.client_request == Some(ClientRequest::Quit),
{
    reveal_strlit("q");
    reveal_strlit("q!");
    reveal_strlit("quit");
    reveal_strlit("quit!");
    reveal_strlit("tasks");
    reveal_strlit("repos");
    reveal_strlit("work");
    assert(cmd[cmd.len() - 1] == '!');
}

/// Dismissing takes only a job that has landed off the list, and no other with
/// it.
pub proof fn running_jobs_stay(v: ColumnView, i: int)
    requires
        v.wf(),
        0 <= i < v.list.jobs.len(),
        v.list.jobs[i].outcome is None,
    ensures
        v.dismiss_job().list.jobs.contains(v.list.jobs[i]),
        v.dismiss_job().list.jobs.len() >= v.list.jobs.len() - 1,
{
    let k = v.list.work_selected as int;
    let w = v.dismiss_job().list.jobs;
    if w.len() == v.list.jobs.len() {
        assert(w[i] == v.list.jobs[i]);
    } else if i < k {
        assert(w[i] == v.list.jobs[i]);
    } else {
        assert(w[i - 1] == v.list.jobs[i]);
    }
}

/// The wheel moves the view and nothing else.
pub proof fn the_wheel_leaves_the_selection(v: ColumnView, m: MouseEvent, w: ColumnView, e: EffectView)
    requires
        m.kind == MouseEventKind::ScrollDown || m.kind == MouseEventKind::ScrollUp,
        mouse_step(v, m, w, e),
    ensures
        e is Nothing,
        w == v.on(ListView { offset: w.list.offset, ..v.list }),
{
}

/// The mouse never opens a task, hands the keyboard to one, hides the column or
/// quits: at most it brings an open task into view or looks for repos.
pub proof fn clicks_never_open(v: ColumnView, m: MouseEvent, w: ColumnView, e: EffectView)
    requires
        mouse_step(v, m, w, e),
    ensures
        e is Nothing || e is Switch || e is ScanRepos,
        w.client_request == v.client_request,
        w.list.rows == v.list.rows,
{
}

/// Cycling the tabs one way and back is where one was.
pub proof fn tab_cycling_undoes(v: ColumnView)
    ensures
        v.cycle_tab(false).0.cycle_tab(true).0 == v,
        v.cycle_tab(true).0.cycle_tab(false).0 == v,
{
}

/// Opening a task leaves the rows in the order they were in, and keeps the
/// selection on the task as long as it is listed.
pub proof fn opening_keeps_the_order(v: ColumnView, ws_idx: usize, slug: Seq<char>)
    requires
        v.wf(),
    ensures
        v.opened(ws_idx, slug).list.rows == v.list.rows,
        v.opened(ws_idx, slug).list.current == Some(slug),
        v.opened(ws_idx, slug).client_request == Some(ClientRequest::FocusTerminal),
        v.opened(ws_idx, slug).list.filter.len() == 0,
        task_from(v.list.rows, v.opened(ws_idx, slug).list.filtered, ws_idx, slug, 0) is Some ==> (v.opened(
            ws_idx,
            slug,
        ).list.selected_row() matches Some(r) && r.ws_idx == ws_idx && r.slug@ == slug),
{
    let l = (ListView { current: Some(slug), filter: Seq::empty(), ..v.list }).apply_filter();
    crate::list::filtered_is_exact(l.rows, l.filter, l.rows.len() as int);
    task_from_finds(l.rows, l.filtered, ws_idx, slug, 0);
}

/// No key takes a selection off its list.
pub proof fn keys_stay_on_the_list(v: ColumnView, key: KeyEvent)
    requires
        v.wf(),
        v.list.on_list(),
    ensures
        v.handle_key(key).0.list.on_list(),
{
    let l = v.list;
    match l.mode {
        ModeView::List => match l.input_mode {
            InputMode::Insert => {
                insert_keys_stay(v, key);
            },
            InputMode::Normal => {
                normal_keys_stay(v, key);
            },
        },
        ModeView::Command(buffer) => {
            let (list, cmd) = l.command_key(buffer, key);
            assert(list.on_list() && list.wf());
            if cmd is Some {
                commands_stay(v.on(list), cmd->0);
            }
        },
        _ => {
            assert(v.keyed(key).0.list.on_list());
        },
    }
}

proof fn jumps_stay(v: ColumnView)
    requires
        v.wf(),
        v.list.on_list(),
    ensures
        v.jump().0.list.on_list(),
{
    if v.list.selected_row() is Some {
        let r = v.list.selected_row()->0;
        let l = (ListView { current: Some(r.slug@), filter: Seq::empty(), ..v.list }).apply_filter();
        crate::list::reselecting_stays_on_the_list(l, r.ws_idx, r.slug@);
    }
}

proof fn insert_keys_stay(v: ColumnView, key: KeyEvent)
    requires
        v.wf(),
        v.list.on_list(),
    ensures
        v.insert_key(key).0.list.on_list(),
{
    crate::list::moving_stays_on_the_list(v.list);
    jumps_stay(v);
    jumps_stay(v.on(v.list.with_sel(0)));
    assert(v.enter().0.list.on_list());
}

proof fn normal_keys_stay(v: ColumnView, key: KeyEvent)
    requires
        v.wf(),
        v.list.on_list(),
    ensures
        v.normal_key(key).0.list.on_list(),
{
    crate::list::moving_stays_on_the_list(v.list);
    jumps_stay(v);
    match v.list.pending {
        Some(first) => {
            assert(v.second_key(first, key).0.list.on_list());
        },
        None => match key.code {
            KeyCode::Char(c) => {
                assert(v.on_task(c).0.list.on_list());
                assert(v.letter(c).0.list.on_list());
            },
            _ => {},
        },
    }
}

proof fn commands_stay(v: ColumnView, cmd: Seq<char>)
    requires
        v.wf(),
        v.list.on_list(),
    ensures
        v.run_command(cmd).0.list.on_list(),
{
    jumps_stay(v);
    assert(v.task_command(cmd).0.list.on_list());
    assert(v.global_command(cmd) matches Some(r) ==> r.0.list.on_list());
}

} // verus!
