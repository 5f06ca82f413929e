//! What comes back to the column: rows and states read anew, answers to
//! prompts, and how the work it asked for turned out.
use vstd::prelude::*;
use vstd::string::*;

use crate::column::{answered_text, answerable, ClientRequest, Column, ColumnView, PERMISSION_PROMPT, SLOW_REFRESH, SWEEP_INTERVAL};
use crate::list::{filtered_in_range, slug_from_finds, Effect, EffectView, Focus, InputMode, ListView, Mode, Row, Tab};
use crate::list_events::{front_from, front_task, refreshed, unanswerable, RowState, Window};
use crate::path::{path_join, path_join_spec};
use crate::status::TaskStatus;
use crate::text::{
    cat, cat3, cat4, decimal, decimal_of, is_some_of, join, joined, opt_view, own, quoted, quoted_text, vec_fits, views,
};
use crate::workspace::Workspace;

verus! {

/// The tasks as found on disk, and the one on screen.
#[derive(Debug)]
pub struct Found {
    pub rows: Vec<Row>,
    pub current: Option<String>,
}

/// A task that only this process knows of.
#[derive(Debug)]
pub struct NewTask {
    pub ws_idx: usize,
    pub slug: String,
    pub name: String,
    pub repos: Vec<String>,
    pub agent: Option<String>,
    pub glyph: String,
    pub age: String,
    /// Milliseconds since the epoch.
    pub now: u64,
}

/// Whether at least `every` milliseconds have gone by since `last`, or it never
/// happened.
pub open spec fn due(last: Option<u64>, every: u64, now: u64) -> bool {
    match last {
        Some(t) => now - t >= every,
        None => true,
    }
}

/// Whether some row has moved to another section.
pub open spec fn some_moved(rows: Seq<Row>) -> bool {
    exists|i: int| 0 <= i < rows.len() && (#[trigger] rows[i]).section != rows[i].section_now()
}

/// How a sweep of idle windows is reported.
pub open spec fn swept_text(n: nat) -> Seq<char> {
    "swept "@ + decimal_of(n) + " idle tab"@ + if n == 1 {
        ""@
    } else {
        "s"@
    }
}

/// Whether a row is that of a task only this process knows of, its agent
/// already at work.
pub open spec fn is_new_task_row(r: Row, t: NewTask, ws: Workspace) -> bool {
    &&& r.ws_idx == t.ws_idx
    &&& r.ws_name == ws.config.name
    &&& r.slug == t.slug
    &&& r.title == t.name
    &&& r.path@ == path_join_spec(path_join_spec(ws.dir@, "tasks"@), t.slug@)
    &&& r.status == TaskStatus::Working
    &&& r.group == TaskStatus::Working
    &&& r.glyph == t.glyph
    &&& r.changed == Some(t.now)
    &&& r.age == t.age
    &&& r.waiting_for is None
    &&& r.activity == t.now
    &&& opt_view(r.window_id) == Some("@new"@)
    &&& r.tab_id is None
    &&& r.pane is None
    &&& r.prs@.len() == 0
    &&& r.ports@.len() == 0
    &&& r.repos == t.repos
    &&& !r.wants_secrets()
    &&& r.agent == t.agent
    &&& r.section == TaskStatus::Working.group()
    &&& r.subagents@.len() == 0
}

/// The row of a task only this process knows of: its agent is already at work.
pub fn new_task_row(t: NewTask, ws: &Workspace) -> (r: Row)
    ensures
        is_new_task_row(r, t, *ws),
{
    let path = path_join(ws.tasks_dir().as_str(), t.slug.as_str());
    Row {
        ws_idx: t.ws_idx,
        ws_name: ws.config.name.clone(),
        slug: t.slug,
        title: t.name,
        path,
        status: TaskStatus::Working,
        group: TaskStatus::Working,
        glyph: t.glyph,
        changed: Some(t.now),
        age: t.age,
        waiting_for: None,
        activity: t.now,
        window_id: Some(own("@new")),
        tab_id: None,
        pane: None,
        prs: Vec::new(),
        ports: Vec::new(),
        repos: t.repos,
        secrets_pending: Vec::new(),
        secrets_pending_set: Vec::new(),
        agent: t.agent,
        section: TaskStatus::Working.group(),
        subagents: Vec::new(),
    }
}

impl ColumnView {
    /// With that task on screen.
    pub open spec fn beside(self, current: Option<String>) -> ColumnView {
        self.on(ListView { current: opt_view(current), ..self.list })
    }

    /// The rows found anew.
    pub open spec fn rebuilt(self, found: Found) -> ColumnView {
        self.on(self.list.with_rows(found.rows@)).beside(found.current)
    }

    /// A task was created: go straight to it, if it is listed.
    pub open spec fn landed(self, at: (ListView, bool)) -> (ColumnView, EffectView) {
        if at.1 {
            self.on(ListView { tab: Tab::Tasks, ..at.0 }).jump()
        } else {
            (self.on(at.0), EffectView::Nothing)
        }
    }

    /// With the cursor on the task one is in.
    pub open spec fn select_current(self) -> ColumnView {
        match self.list.own_row() {
            Some(p) => self.on((ListView { selected: p, ..self.list }).focus_list()),
            None => self,
        }
    }

    /// Without a cursor on a row, the keyboard being elsewhere.
    pub open spec fn blurred(self) -> ColumnView {
        if self.list.mode is List {
            self.on(self.list.focus_search())
        } else {
            self
        }
    }

    /// The title of the task under the cursor, where it has no window.
    pub open spec fn selected_closed(self) -> Option<Seq<char>> {
        if self.list.tab != Tab::Tasks || self.list.focus != Focus::List {
            None
        } else {
            match self.list.selected_row() {
                Some(r) => if r.window_id is None {
                    Some(r.title@)
                } else {
                    None
                },
                None => None,
            }
        }
    }
}

impl Column {
    /// A row whose status moved it to another section since the rows were last
    /// built: the list's grouping is stale.
    pub fn sections_stale(&self) -> (yes: bool)
        ensures
            yes == some_moved(self@.list.rows),
    {
        let mut i: usize = 0;
        while i < self.list.rows.len()
            invariant
                i <= self.list.rows@.len(),
                forall|k: int| 0 <= k < i ==> (#[trigger] self.list.rows@[k]).section == self.list.rows@[k].section_now(),
            decreases self.list.rows@.len() - i,
        {
            if self.list.rows[i].section != self.list.rows[i].current_section() {
                assert(self@.list.rows[i as int].section != self@.list.rows[i as int].section_now());
                return true;
            }
            i += 1;
        }
        false
    }

    /// Take the rows found anew.
    pub fn rebuild(&mut self, found: Found)
        requires
            old(self)@.wf(),
        ensures
            final(self)@ == old(self)@.rebuilt(found),
            final(self)@.wf(),
    {
        self.list.set_rows(found.rows);
        self.list.current = found.current;
    }

    /// Take the rows found anew while keeping the selection on the same task.
    /// Done while the keyboard is elsewhere, so rows move only when nobody is
    /// moving through them.
    pub fn tidy(&mut self, found: Found)
        requires
            old(self)@.wf(),
        ensures
            final(self)@ == old(self)@.on(old(self)@.list.tidied(found.rows@)).beside(found.current),
            final(self)@.wf(),
    {
        self.list.tidy(found.rows);
        self.list.current = found.current;
    }

    /// Whether the slow inputs are to be re-read.
    pub fn slow_due(&self, now: u64) -> (yes: bool)
        ensures
            yes == due(self@.slow_refreshed, SLOW_REFRESH, now),
    {
        match self.slow_refreshed {
            Some(t) => now >= t && now - t >= SLOW_REFRESH,
            None => true,
        }
    }

    /// Whether a task was created or removed from outside: `on_disk` of them
    /// are there.
    pub fn rows_stale(&self, on_disk: usize) -> (yes: bool)
        ensures
            yes == (on_disk != self@.list.rows.len()),
    {
        on_disk != self.list.rows.len()
    }

    /// Take the windows of the session: the one in front is the task on screen,
    /// unless it is the `home` window.
    pub fn refresh_windows(&mut self, windows: &Vec<Window>, home: &str, now: u64)
        requires
            old(self)@.wf(),
        ensures
            final(self)@ == (ColumnView {
                list: ListView { current: front_from(windows@, home@, 0), ..old(self)@.list },
                slow_refreshed: Some(now),
                ..old(self)@
            }),
            final(self)@.wf(),
    {
        self.list.current = front_task(windows, home);
        self.slow_refreshed = Some(now);
    }

    /// Take each row's state, and the task on screen. The list order is frozen
    /// while the column is showing.
    pub fn refresh_statuses(&mut self, states: Vec<RowState>, current: Option<String>)
        requires
            old(self)@.wf(),
            states@.len() == old(self)@.list.rows.len(),
        ensures
            final(self)@ == old(self)@.on(
                ListView {
                    rows: Seq::new(
                        old(self)@.list.rows.len(),
                        |i: int| refreshed(old(self)@.list.rows[i], states@[i]),
                    ),
                    ..old(self)@.list
                },
            ).beside(current),
            final(self)@.wf(),
    {
        self.list.refresh(states);
        self.list.current = current;
    }

    /// The client's pending request, if the last event made one.
    pub fn take_request(&mut self) -> (r: Option<ClientRequest>)
        requires
            old(self)@.wf(),
        ensures
            r == old(self)@.client_request,
            final(self)@ == (ColumnView { client_request: None, ..old(self)@ }),
            final(self)@.wf(),
    {
        let r = self.client_request;
        self.client_request = None;
        r
    }

    /// Whether the list (not a form or the command line) is showing.
    pub fn in_list_mode(&self) -> (yes: bool)
        ensures
            yes == (self@.list.mode is List),
    {
        match self.list.mode {
            Mode::List => true,
            _ => false,
        }
    }

    /// Put the cursor on the task one is in, so the list reads "you are here"
    /// and the next step down is the task below.
    pub fn select_current(&mut self)
        requires
            old(self)@.wf(),
        ensures
            final(self)@ == old(self)@.select_current(),
            final(self)@.wf(),
    {
        proof {
            if self@.list.current is Some {
                vec_fits(self.list.filtered);
                slug_from_finds(self@.list.rows, self@.list.filtered, self@.list.current->0, 0);
            }
        }
        if let Some(p) = self.list.own_row() {
            self.list.selected = p;
            self.list.focus_list();
        }
    }

    /// The keyboard left the column: drop the row highlight so the list shows
    /// no cursor while the task has it.
    pub fn blur(&mut self)
        requires
            old(self)@.wf(),
        ensures
            final(self)@ == old(self)@.blurred(),
            final(self)@.wf(),
    {
        if self.in_list_mode() {
            self.list.focus_search();
        }
    }

    /// The selected task's title when it has no open window and the list has
    /// the cursor.
    pub fn selected_closed(&self) -> (title: Option<String>)
        requires
            self@.wf(),
        ensures
            opt_view(title) == self@.selected_closed(),
    {
        if self.list.tab != Tab::Tasks || self.list.focus != Focus::List {
            return None;
        }
        match self.list.selected_row() {
            Some(r) => if r.window_id.is_none() {
                Some(r.title.clone())
            } else {
                None
            },
            None => None,
        }
    }

    /// The selected row has a permission dialog the column can answer.
    pub fn selected_answerable(&self) -> (yes: bool)
        requires
            self@.wf(),
        ensures
            yes == (self@.list.selected_row() matches Some(r) && answerable(r)),
    {
        match self.list.selected_row() {
            Some(r) => r.status == TaskStatus::Blocked && is_some_of(&r.waiting_for, PERMISSION_PROMPT),
            None => false,
        }
    }

    /// A switch to the task `slug` was carried out.
    pub fn switched(&mut self, slug: String)
        requires
            old(self)@.wf(),
        ensures
            final(self)@ == old(self)@.beside(Some(slug)),
            final(self)@.wf(),
    {
        self.list.current = Some(slug);
    }

    /// Something went wrong: say so.
    pub fn failed(&mut self, error: &str)
        requires
            old(self)@.wf(),
        ensures
            final(self)@ == old(self)@.on(old(self)@.list.told(error@)),
            final(self)@.wf(),
    {
        self.list.tell(own(error));
    }

    // ── Answering a permission prompt ────────────────────────────────────────

    /// Before a prompt is answered, with the session's state re-read: it must
    /// still wait on a permission prompt, in a known pane. Returns the pane to
    /// look at; anything else is refused with a message.
    pub fn check_prompt(&mut self, title: &str, state: &RowState) -> (pane: Option<String>)
        requires
            old(self)@.wf(),
        ensures
            match unanswerable(title@, *state) {
                Some(msg) => pane is None && final(self)@ == old(self)@.on(old(self)@.list.told(msg)),
                None => opt_view(pane) == opt_view(state.pane) && final(self)@ == old(self)@,
            },
            final(self)@.wf(),
    {
        self.list.check_prompt(title, state)
    }

    /// The dialog must still be on screen. Returns whether the key may go out.
    pub fn check_dialog(&mut self, title: &str, visible: bool) -> (go: bool)
        requires
            old(self)@.wf(),
        ensures
            go == visible,
            final(self)@ == old(self)@.on(old(self)@.list.dialog_checked(title@, visible)),
            final(self)@.wf(),
    {
        self.list.check_dialog(title, visible)
    }

    /// The answer went out.
    pub fn answered(&mut self, yes: bool, title: &str)
        requires
            old(self)@.wf(),
        ensures
            final(self)@ == old(self)@.on(old(self)@.list.told(answered_text(yes, title@))),
            final(self)@.wf(),
    {
        self.list.answered(yes, title);
    }

    // ── Outcomes ─────────────────────────────────────────────────────────────

    /// Go to the task just created, if it is listed.
    fn land(&mut self, found: bool) -> (e: Effect)
        requires
            old(self)@.wf(),
        ensures
            (final(self)@, e@) == old(self)@.landed((old(self)@.list, found)),
            final(self)@.wf(),
    {
        if found {
            self.list.tab = Tab::Tasks;
            return self.jump();
        }
        Effect::Nothing
    }

    /// A task was created: list it and go straight to it.
    pub fn created(&mut self, ws_idx: usize, slug: &str, name: &str, found: Found) -> (e: Effect)
        requires
            old(self)@.wf(),
        ensures
            ({
                let at = old(self)@.list.created(ws_idx, slug@, name@, found.rows@);
                (final(self)@, e@) == old(self)@.landed(
                    (ListView { current: opt_view(found.current), ..at.0 }, at.1),
                )
            }),
            final(self)@.wf(),
    {
        let listed = self.list.created(ws_idx, slug, name, found.rows);
        self.list.current = found.current;
        self.land(listed)
    }

    /// A task was created that only this process knows of: list its row and go
    /// straight to it.
    pub fn created_here(&mut self, row: Row) -> (e: Effect)
        requires
            old(self)@.wf(),
        ensures
            (final(self)@, e@) == old(self)@.landed(
                old(self)@.list.created(row.ws_idx, row.slug@, row.title@, old(self)@.list.rows.push(row)),
            ),
            final(self)@.wf(),
    {
        let listed = self.list.created_here(row);
        self.land(listed)
    }

    /// A task's repos were changed.
    pub fn repos_set(
        &mut self,
        ws_idx: usize,
        slug: &str,
        title: &str,
        added: usize,
        removed: usize,
        found: Found,
    )
        requires
            old(self)@.wf(),
        ensures
            final(self)@ == old(self)@.on(
                old(self)@.list.repos_set(ws_idx, slug@, title@, added as nat, removed as nat, found.rows@),
            ).beside(found.current),
            final(self)@.wf(),
    {
        self.list.repos_set(ws_idx, slug, title, added, removed, found.rows);
        self.list.current = found.current;
    }

    /// A task was deleted.
    pub fn deleted(&mut self, title: &str, found: Found)
        requires
            old(self)@.wf(),
        ensures
            final(self)@ == old(self)@.rebuilt(found).on(
                old(self)@.rebuilt(found).list.told("deleted '"@ + title@ + "'"@),
            ),
            final(self)@.wf(),
    {
        self.list.deleted(title, found.rows);
        self.list.current = found.current;
    }

    /// The window of a task was closed, or none was open.
    pub fn window_closed(&mut self, found: Option<Found>)
        requires
            old(self)@.wf(),
        ensures
            final(self)@ == (match found {
                Some(f) => old(self)@.rebuilt(f).on(old(self)@.rebuilt(f).list.told("closed window"@)),
                None => old(self)@.on(old(self)@.list.told("no open window"@)),
            }),
            final(self)@.wf(),
    {
        match found {
            Some(f) => {
                self.rebuild(f);
                self.list.tell(own("closed window"));
            },
            None => self.list.tell(own("no open window")),
        }
    }

    /// A task was renamed.
    pub fn renamed(&mut self, ws_idx: usize, slug: &str, found: Found)
        requires
            old(self)@.wf(),
        ensures
            final(self)@ == old(self)@.on(
                old(self)@.list.with_rows(found.rows@).reselected(ws_idx, slug@).told("renamed"@),
            ).beside(found.current),
            final(self)@.wf(),
    {
        self.list.renamed(ws_idx, slug, found.rows);
        self.list.current = found.current;
    }

    /// A task's secrets requests were withdrawn, or not, for a reason; the rows
    /// are found anew either way.
    pub fn secrets_cancelled(&mut self, slug: &str, error: Option<&str>, found: Found)
        requires
            old(self)@.wf(),
        ensures
            final(self)@ == old(self)@.rebuilt(found).on(
                old(self)@.rebuilt(found).list.told(
                    match error {
                        Some(e) => e@,
                        None => "withdrew pending secrets requests for '"@ + slug@ + "'"@,
                    },
                ),
            ),
            final(self)@.wf(),
    {
        self.rebuild(found);
        match error {
            Some(e) => self.list.tell(own(e)),
            None => self.list.tell(cat3("withdrew pending secrets requests for '", slug, "'")),
        }
    }

    /// Whether idle windows are to be swept now: at most once per
    /// [`SWEEP_INTERVAL`].
    pub fn maybe_sweep(&mut self, now: u64) -> (go: bool)
        requires
            old(self)@.wf(),
        ensures
            go == due(old(self)@.last_swept, SWEEP_INTERVAL, now),
            final(self)@ == (if go {
                ColumnView { last_swept: Some(now), ..old(self)@ }
            } else {
                old(self)@
            }),
            final(self)@.wf(),
    {
        if let Some(t) = self.last_swept {
            if now < t || now - t < SWEEP_INTERVAL {
                return false;
            }
        }
        self.last_swept = Some(now);
        true
    }

    /// Idle windows were swept: a status line where any was.
    pub fn swept(&mut self, n: usize, found: Found)
        requires
            old(self)@.wf(),
        ensures
            final(self)@ == (if n > 0 {
                old(self)@.on(old(self)@.list.told(swept_text(n as nat))).rebuilt(found)
            } else {
                old(self)@
            }),
            final(self)@.wf(),
    {
        if n > 0 {
            let count = decimal(n as u64);
            let end = if n == 1 { "" } else { "s" };
            self.list.tell(cat4("swept ", count.as_str(), " idle tab", end));
            self.rebuild(found);
        }
    }
}

/// After a sweep none is due until the interval has gone by.
pub proof fn sweeps_are_spaced(t: u64, now: u64)
    requires
        t <= now,
    ensures
        due(Some(t), SWEEP_INTERVAL, now) <==> now - t >= SWEEP_INTERVAL,
{
}

/// The place of the selected task in the trace: its position and slug, and
/// whether its window is closed.
pub open spec fn traced_selection(v: ListView) -> Seq<char> {
    match v.selected_row() {
        Some(r) => decimal_of(v.selected as nat) + ":"@ + r.slug@ + (if r.window_id is Some {
            ""@
        } else {
            "(closed)"@
        }),
        None => "-"@,
    }
}

/// The slugs on screen in order, those without a window marked.
pub open spec fn traced_order(v: ListView) -> Seq<Seq<char>> {
    Seq::new(
        v.filtered.len(),
        |i: int|
            {
                let r = v.rows[v.filtered[i] as int];
                r.slug@ + (if r.window_id is Some {
                    ""@
                } else {
                    "~"@
                })
            },
    )
}

/// One line of state for the client's trace log: mode, selection (with its slug
/// and whether its window is open), the current task, filter, and the slugs on
/// screen in order.
pub open spec fn traced(v: ListView) -> Seq<char> {
    (match v.focus {
        Focus::Search => "Search"@,
        Focus::List => "List"@,
    }) + "/"@ + (match v.input_mode {
        InputMode::Insert => "Insert"@,
        InputMode::Normal => "Normal"@,
    }) + " sel="@ + traced_selection(v) + " current="@ + (match v.current {
        Some(c) => "Some("@ + quoted_text(c) + ")"@,
        None => "None"@,
    }) + " filter="@ + quoted_text(v.filter) + " rows=["@ + joined(traced_order(v), " "@) + "]"@
}

impl Column {
    /// The slugs on screen in order.
    fn trace_order(&self) -> (order: Vec<String>)
        requires
            self@.wf(),
        ensures
            views(order@) == traced_order(self@.list),
    {
        proof {
            filtered_in_range(self@.list);
        }
        let l = &self.list;
        let mut order: Vec<String> = Vec::new();
        let mut i: usize = 0;
        assert(views(order@) =~= traced_order(self@.list).take(0));
        while i < l.filtered.len()
            invariant
                i <= l.filtered@.len(),
                *l == self.list,
                forall|k: int| 0 <= k < l.filtered@.len() ==> (#[trigger] l.filtered@[k]) < l.rows@.len(),
                views(order@) == traced_order(self@.list).take(i as int),
            decreases l.filtered@.len() - i,
        {
            let r = &l.rows[l.filtered[i]];
            let ghost before = views(order@);
            order.push(cat(r.slug.as_str(), if r.window_id.is_some() { "" } else { "~" }));
            assert(views(order@) =~= before.push(traced_order(self@.list)[i as int]));
            assert(views(order@) =~= traced_order(self@.list).take(i + 1));
            i += 1;
        }
        assert(traced_order(self@.list).take(i as int) =~= traced_order(self@.list));
        order
    }

    /// One line of state for the client's trace log: see [`traced`].
    pub fn trace_state(&self) -> (line: String)
        requires
            self@.wf(),
        ensures
            line@ == traced(self@.list),
    {
        let l = &self.list;
        let selection = match l.selected_row() {
            Some(r) => cat4(
                decimal(l.selected as u64).as_str(),
                ":",
                r.slug.as_str(),
                if r.window_id.is_some() { "" } else { "(closed)" },
            ),
            None => own("-"),
        };
        let mut line = match l.focus {
            Focus::Search => own("Search"),
            Focus::List => own("List"),
        };
        line.append("/");
        line.append(match l.input_mode {
            InputMode::Insert => "Insert",
            InputMode::Normal => "Normal",
        });
        line.append(" sel=");
        line.append(selection.as_str());
        line.append(" current=");
        match &l.current {
            Some(c) => line.append(cat3("Some(", quoted(c.as_str()).as_str(), ")").as_str()),
            None => line.append("None"),
        }
        line.append(" filter=");
        line.append(quoted(l.filter.as_str()).as_str());
        line.append(" rows=[");
        line.append(join(&self.trace_order(), " ").as_str());
        line.append("]");
        line
    }
}

/// Something is due at first, and from then on once its time has passed.
pub proof fn what_is_due_has_waited(t: u64, every: u64, now: u64)
    ensures
        due(None, every, now),
        now >= t + every ==> due(Some(t), every, now),
        now < t + every ==> !due(Some(t), every, now),
{
}

/// A column without the keys types into its search field, unless a form is
/// open, which stays.
pub proof fn blurring_leaves_forms(v: ColumnView)
    ensures
        v.list.mode is List ==> v.blurred().list.focus == Focus::Search && v.blurred().list.input_mode
            == InputMode::Insert,
        !(v.list.mode is List) ==> v.blurred() == v,
        v.blurred().list.selected == v.list.selected,
        v.blurred().list.rows == v.list.rows,
        v.blurred().list.mode == v.list.mode,
{
}

/// A task without a window is named while it is selected, and no other.
pub proof fn closed_tasks_are_named(v: ColumnView)
    ensures
        v.selected_closed() matches Some(title) ==> v.list.selected_row() matches Some(r) && r.title@ == title
            && r.window_id is None,
        v.list.tab == Tab::Tasks && v.list.focus == Focus::List ==> (v.list.selected_row() matches Some(r)
            ==> (r.window_id is None ==> v.selected_closed() == Some(r.title@))),
        v.list.tab != Tab::Tasks || v.list.focus != Focus::List ==> v.selected_closed() is None,
{
}

/// The column has moved tasks to file exactly where one's section is not what
/// it wants now.
pub proof fn moved_tasks_are_noticed(rows: Seq<Row>, i: int)
    requires
        0 <= i < rows.len(),
    ensures
        rows[i].wants_secrets() && rows[i].section != crate::status::TaskGroup::SecretsPending ==> some_moved(rows),
        !rows[i].wants_secrets() && rows[i].section != rows[i].status.group() ==> some_moved(rows),
{
}

/// A sweep says how many tabs it closed, one or more.
pub proof fn sweeps_are_counted(n: nat)
    ensures
        n == 1 ==> swept_text(n) =~= "swept "@ + decimal_of(1) + " idle tab"@,
        n != 1 ==> swept_text(n) == "swept "@ + decimal_of(n) + " idle tab"@ + "s"@,
{
    reveal_strlit("");
}

} // verus!
