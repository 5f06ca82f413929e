//! What comes back to the task list: rows found on disk, sessions' states, and
//! how the work it asked for turned out.
use vstd::prelude::*;
use vstd::string::*;

use crate::column::{answered_text, PERMISSION_PROMPT};
use crate::list::{
    rows_kept, task_from, task_from_finds, ListView, Mode, ModeView, PrChip, RepoRow, Row,
    Subagent, TaskList,
};
use crate::status::{TaskGroup, TaskStatus};
use crate::text::{cat3, cat4, cat5, decimal, decimal_of, is_some_of, opt_view, own, same, vec_fits};
use crate::workspace::{Task, Workspace};

verus! {

// ── Rows ─────────────────────────────────────────────────────────────────────

/// A task's state as its agent's session shows it.
#[derive(Debug)]
pub struct RowState {
    pub status: TaskStatus,
    pub glyph: String,
    pub changed: Option<u64>,
    pub age: String,
    pub waiting_for: Option<String>,
    pub pane: Option<String>,
    /// The id of the task's tab, from its cache file.
    pub tab_id: Option<u32>,
}

/// What the watcher last wrote about a task.
#[derive(Debug)]
pub struct Live {
    pub prs: Vec<PrChip>,
    pub ports: Vec<u16>,
    pub subagents: Vec<Subagent>,
}

/// A window of the terminal session.
#[derive(Debug)]
pub struct Window {
    pub id: String,
    pub name: String,
    pub active: bool,
}

/// The secret names a task waits for.
#[derive(Debug)]
pub struct Wanted {
    /// Names to decrypt.
    pub pending: Vec<String>,
    /// Names a human must supply a value for.
    pub pending_set: Vec<String>,
}

/// The section of a task: a wanted secret has its own, whatever the session
/// does.
pub open spec fn section_of(status: TaskStatus, wanted: Wanted) -> TaskGroup {
    if wanted.pending@.len() > 0 || wanted.pending_set@.len() > 0 {
        TaskGroup::SecretsPending
    } else {
        status.group()
    }
}

/// The row of a task, filed under the state it is found in. A task no agent has
/// touched sorts by its creation time.
pub fn new_row(
    ws_idx: usize,
    ws_name: &String,
    task: Task,
    state: RowState,
    live: Live,
    wanted: Wanted,
    window_id: Option<String>,
    agent: Option<String>,
) -> (r: Row)
    ensures
        r == (Row {
            ws_idx,
            ws_name: *ws_name,
            slug: task.name,
            title: task.display_name,
            path: task.path,
            status: state.status,
            group: state.status,
            glyph: state.glyph,
            changed: state.changed,
            age: state.age,
            waiting_for: state.waiting_for,
            activity: match state.changed {
                Some(t) => t,
                None => task.created_at,
            },
            window_id,
            tab_id: state.tab_id,
            pane: state.pane,
            prs: live.prs,
            ports: live.ports,
            repos: task.repos,
            secrets_pending: wanted.pending,
            secrets_pending_set: wanted.pending_set,
            agent,
            section: section_of(state.status, wanted),
            subagents: live.subagents,
        }),
        r.section == r.section_now(),
{
    let section = if wanted.pending.len() > 0 || wanted.pending_set.len() > 0 {
        TaskGroup::SecretsPending
    } else {
        state.status.group()
    };
    let activity: u64 = match state.changed {
        Some(t) => t,
        None => task.created_at,
    };
    Row {
        ws_idx,
        ws_name: ws_name.clone(),
        slug: task.name,
        title: task.display_name,
        path: task.path,
        status: state.status,
        group: state.status,
        glyph: state.glyph,
        changed: state.changed,
        age: state.age,
        waiting_for: state.waiting_for,
        activity,
        window_id,
        tab_id: state.tab_id,
        pane: state.pane,
        prs: live.prs,
        ports: live.ports,
        repos: task.repos,
        secrets_pending: wanted.pending,
        secrets_pending_set: wanted.pending_set,
        agent,
        section,
        subagents: live.subagents,
    }
}

/// A row with its state read anew. Where it is filed stays.
pub open spec fn refreshed(r: Row, s: RowState) -> Row {
    Row {
        status: s.status,
        glyph: s.glyph,
        changed: s.changed,
        age: s.age,
        waiting_for: s.waiting_for,
        pane: s.pane,
        tab_id: s.tab_id,
        activity: match s.changed {
            Some(t) => t,
            None => r.activity,
        },
        ..r
    }
}

/// The id of the last of the first `n` windows with that name.
pub open spec fn window_named(windows: Seq<Window>, name: Seq<char>, n: int) -> Option<String>
    decreases n,
{
    if n <= 0 {
        None
    } else if windows[n - 1].name@ == name {
        Some(windows[n - 1].id)
    } else {
        window_named(windows, name, n - 1)
    }
}

/// The id of the window with that name, the last if several have it.
pub fn window_of(windows: &Vec<Window>, name: &str) -> (id: Option<String>)
    ensures
        id == window_named(windows@, name@, windows@.len() as int),
{
    let mut i: usize = windows.len();
    while i > 0
        invariant
            i <= windows@.len(),
            window_named(windows@, name@, windows@.len() as int) == window_named(windows@, name@, i as int),
        decreases i,
    {
        i -= 1;
        if same(windows[i].name.as_str(), name) {
            return Some(windows[i].id.clone());
        }
    }
    None
}

/// The first window at or after `from` that is in front and not the home
/// window.
pub open spec fn front_from(windows: Seq<Window>, home: Seq<char>, from: int) -> Option<Seq<char>>
    decreases windows.len() - from,
{
    if from >= windows.len() {
        None
    } else if windows[from].active && windows[from].name@ != home {
        Some(windows[from].name@)
    } else {
        front_from(windows, home, from + 1)
    }
}

/// The task whose window is in front.
pub fn front_task(windows: &Vec<Window>, home: &str) -> (name: Option<String>)
    ensures
        crate::text::opt_view(name) == front_from(windows@, home@, 0),
{
    let mut i: usize = 0;
    while i < windows.len()
        invariant
            i <= windows@.len(),
            front_from(windows@, home@, 0) == front_from(windows@, home@, i as int),
        decreases windows@.len() - i,
    {
        if windows[i].active && !same(windows[i].name.as_str(), home) {
            return Some(windows[i].name.clone());
        }
        i += 1;
    }
    None
}

/// A row with what is read less often: its window and what the watcher wrote.
pub open spec fn revived(r: Row, windows: Seq<Window>, live: Live) -> Row {
    Row {
        window_id: window_named(windows, r.slug@, windows.len() as int),
        prs: live.prs,
        ports: live.ports,
        subagents: live.subagents,
        ..r
    }
}

// ── Repos ────────────────────────────────────────────────────────────────────

/// What is found of a repo on disk.
#[derive(Debug)]
pub struct RepoFact {
    /// Its bare clone is there.
    pub exists: bool,
    pub last_commit: Option<String>,
}

/// The row of a repo; one that is not cloned has no commit.
pub open spec fn repo_row_of(ws_idx: int, ws: Workspace, j: int, fact: RepoFact) -> RepoRow {
    RepoRow {
        ws_idx: ws_idx as usize,
        ws_name: ws.config.name,
        name: ws.config.repos@[j].name,
        cloned: fact.exists,
        commit: if fact.exists {
            fact.last_commit
        } else {
            None
        },
    }
}

/// The rows of a workspace's repos.
pub open spec fn ws_repo_rows(ws_idx: int, ws: Workspace, facts: Seq<RepoFact>) -> Seq<RepoRow> {
    Seq::new(ws.config.repos@.len(), |j: int| repo_row_of(ws_idx, ws, j, facts[j]))
}

/// The rows of the first `n` workspaces' repos.
pub open spec fn all_repo_rows(workspaces: Seq<Workspace>, facts: Seq<Vec<RepoFact>>, n: int) -> Seq<RepoRow>
    decreases n,
{
    if n <= 0 {
        Seq::empty()
    } else {
        all_repo_rows(workspaces, facts, n - 1) + ws_repo_rows(n - 1, workspaces[n - 1], facts[n - 1]@)
    }
}

/// Whether something was found of every repo of every workspace.
pub open spec fn facts_fit(workspaces: Seq<Workspace>, facts: Seq<Vec<RepoFact>>) -> bool {
    &&& facts.len() == workspaces.len()
    &&& forall|i: int|
        0 <= i < workspaces.len() ==> (#[trigger] facts[i])@.len() == workspaces[i].config.repos@.len()
}

/// The rows of every workspace's repos.
pub fn repo_rows(workspaces: &Vec<Workspace>, facts: &Vec<Vec<RepoFact>>) -> (rows: Vec<RepoRow>)
    requires
        facts_fit(workspaces@, facts@),
    ensures
        rows@ == all_repo_rows(workspaces@, facts@, workspaces@.len() as int),
{
    let mut rows: Vec<RepoRow> = Vec::new();
    let mut i: usize = 0;
    while i < workspaces.len()
        invariant
            i <= workspaces@.len(),
            facts_fit(workspaces@, facts@),
            rows@ == all_repo_rows(workspaces@, facts@, i as int),
        decreases workspaces@.len() - i,
    {
        let ws = &workspaces[i];
        let found = &facts[i];
        let ghost before = rows@;
        let mut j: usize = 0;
        while j < ws.config.repos.len()
            invariant
                j <= ws.config.repos@.len(),
                found@.len() == ws.config.repos@.len(),
                rows@ == before + ws_repo_rows(i as int, *ws, found@).take(j as int),
            decreases ws.config.repos@.len() - j,
        {
            let commit = if found[j].exists {
                match &found[j].last_commit {
                    Some(c) => Some(c.clone()),
                    None => None,
                }
            } else {
                None
            };
            let ghost part = ws_repo_rows(i as int, *ws, found@);
            rows.push(
                RepoRow {
                    ws_idx: i,
                    ws_name: ws.config.name.clone(),
                    name: ws.config.repos[j].name.clone(),
                    cloned: found[j].exists,
                    commit,
                },
            );
            assert(rows@.last() == part[j as int]);
            assert(part.take(j + 1) =~= part.take(j as int).push(part[j as int]));
            assert(rows@ =~= before + part.take(j + 1));
            j += 1;
        }
        assert(ws_repo_rows(i as int, *ws, found@).take(j as int) =~= ws_repo_rows(i as int, *ws, found@));
        i += 1;
    }
    rows
}

// ── Outcomes ─────────────────────────────────────────────────────────────────

/// How a change of a task's repos is reported.
pub open spec fn repos_set_text(added: nat, removed: nat, title: Seq<char>) -> Seq<char> {
    if removed == 0 {
        "added "@ + decimal_of(added) + " repo(s) to '"@ + title + "'"@
    } else if added == 0 {
        "detached "@ + decimal_of(removed) + " repo(s) from '"@ + title + "'"@
    } else {
        "added "@ + decimal_of(added) + ", detached "@ + decimal_of(removed) + " in '"@ + title + "'"@
    }
}

/// See [`repos_set_text`].
fn repos_set_message(added: usize, removed: usize, title: &str) -> (out: String)
    ensures
        out@ == repos_set_text(added as nat, removed as nat, title@),
{
    let a = decimal(added as u64);
    let r = decimal(removed as u64);
    if removed == 0 {
        cat5("added ", a.as_str(), " repo(s) to '", title, "'")
    } else if added == 0 {
        cat5("detached ", r.as_str(), " repo(s) from '", title, "'")
    } else {
        let head = cat3("added ", a.as_str(), ", detached ");
        let out = cat5(head.as_str(), r.as_str(), " in '", title, "'");
        assert(out@ =~= repos_set_text(added as nat, removed as nat, title@));
        out
    }
}

impl ListView {
    /// Rows found anew, the selection kept on its task.
    pub open spec fn tidied(self, rows: Seq<Row>) -> ListView {
        match self.selected_row() {
            Some(r) => self.with_rows(rows).reselected(r.ws_idx, r.slug@),
            None => self.with_rows(rows),
        }
    }

    /// A task was created: the whole list is shown, and the selection goes to
    /// the task if it is there.
    pub open spec fn created(self, ws_idx: usize, slug: Seq<char>, name: Seq<char>, rows: Seq<Row>) -> (ListView, bool) {
        let l = (ListView { filter: Seq::empty(), ..self.in_mode(ModeView::List) }).with_rows(rows);
        let text = "created '"@ + name + "'"@;
        match task_from(l.rows, l.filtered, ws_idx, slug, 0) {
            Some(p) => ((ListView { selected: p, ..l }).told(text), true),
            None => (l.told(text), false),
        }
    }

    /// A repo was added.
    pub open spec fn repo_added(self, facts: Seq<Vec<RepoFact>>) -> ListView {
        self.in_mode(ModeView::List).with_repo_rows(
            all_repo_rows(self.workspaces, facts, self.workspaces.len() as int),
        ).told("repo added"@)
    }

    /// A task's repos were changed.
    pub open spec fn repos_set(
        self,
        ws_idx: usize,
        slug: Seq<char>,
        title: Seq<char>,
        added: nat,
        removed: nat,
        rows: Seq<Row>,
    ) -> ListView {
        self.with_rows(rows).reselected(ws_idx, slug).told(repos_set_text(added, removed, title))
    }
}

/// Rows that differ only in what is not filed, listed or filtered by.
pub open spec fn filed_alike(a: Seq<Row>, b: Seq<Row>) -> bool {
    &&& a.len() == b.len()
    &&& forall|i: int|
        0 <= i < a.len() ==> {
            &&& (#[trigger] a[i]).ws_name == b[i].ws_name
            &&& a[i].title == b[i].title
            &&& a[i].slug == b[i].slug
            &&& a[i].group == b[i].group
            &&& a[i].section == b[i].section
        }
}

/// What the filter keeps is told by workspace and title alone.
pub proof fn rows_kept_alike(a: Seq<Row>, b: Seq<Row>, filter: Seq<char>, n: int)
    requires
        0 <= n <= a.len(),
        a.len() == b.len(),
        forall|i: int| 0 <= i < a.len() ==> (#[trigger] a[i]).ws_name == b[i].ws_name && a[i].title == b[i].title,
    ensures
        rows_kept(a, filter, n) == rows_kept(b, filter, n),
    decreases n,
{
    if n > 0 {
        rows_kept_alike(a, b, filter, n - 1);
        assert(a[n - 1].ws_name == b[n - 1].ws_name);
    }
}

impl TaskList {
    /// Read each row's state anew, in place: nothing is sorted or found anew,
    /// so no row moves from under the cursor.
    pub fn refresh(&mut self, states: Vec<RowState>)
        requires
            old(self)@.wf(),
            states@.len() == old(self)@.rows.len(),
        ensures
            final(self)@ == (ListView {
                rows: Seq::new(old(self)@.rows.len(), |i: int| refreshed(old(self)@.rows[i], states@[i])),
                ..old(self)@
            }),
            filed_alike(old(self)@.rows, final(self)@.rows),
            final(self)@.wf(),
    {
        let ghost v = self@;
        let ghost fresh = Seq::new(v.rows.len(), |i: int| refreshed(v.rows[i], states@[i]));
        let ghost given = states@;
        let mut states = states;
        let mut i: usize = self.rows.len();
        while i > 0
            invariant
                i <= v.rows.len(),
                given.len() == v.rows.len(),
                fresh == Seq::new(v.rows.len(), |k: int| refreshed(v.rows[k], given[k])),
                states@ == given.take(i as int),
                self@ == (ListView { rows: v.rows.take(i as int) + fresh.skip(i as int), ..v }),
            decreases i,
        {
            let ghost before = self.rows@;
            i -= 1;
            if let Some(s) = states.pop() {
                assert(s == given[i as int]);
                assert(before[i as int] == v.rows[i as int]);
                self.rows[i].status = s.status;
                self.rows[i].glyph = s.glyph;
                self.rows[i].changed = s.changed;
                self.rows[i].age = s.age;
                self.rows[i].waiting_for = s.waiting_for;
                self.rows[i].pane = s.pane;
                self.rows[i].tab_id = s.tab_id;
                if let Some(t) = s.changed {
                    self.rows[i].activity = t;
                }
                assert(self.rows@ =~= before.update(i as int, fresh[i as int]));
            }
            assert(states@ =~= given.take(i as int));
            assert(self.rows@ =~= v.rows.take(i as int) + fresh.skip(i as int));
        }
        assert(self.rows@ =~= fresh);
        proof {
            rows_kept_alike(v.rows, fresh, v.filter, v.rows.len() as int);
        }
    }

    /// Read what changes slowly anew, in place: each row's window and what the
    /// watcher wrote.
    pub fn refresh_slow(&mut self, windows: &Vec<Window>, lives: Vec<Live>)
        requires
            old(self)@.wf(),
            lives@.len() == old(self)@.rows.len(),
        ensures
            final(self)@ == (ListView {
                rows: Seq::new(old(self)@.rows.len(), |i: int| revived(old(self)@.rows[i], windows@, lives@[i])),
                ..old(self)@
            }),
            filed_alike(old(self)@.rows, final(self)@.rows),
            final(self)@.wf(),
    {
        let ghost v = self@;
        let ghost fresh = Seq::new(v.rows.len(), |i: int| revived(v.rows[i], windows@, lives@[i]));
        let ghost given = lives@;
        let mut lives = lives;
        let mut i: usize = self.rows.len();
        while i > 0
            invariant
                i <= v.rows.len(),
                given.len() == v.rows.len(),
                fresh == Seq::new(v.rows.len(), |k: int| revived(v.rows[k], windows@, given[k])),
                lives@ == given.take(i as int),
                self@ == (ListView { rows: v.rows.take(i as int) + fresh.skip(i as int), ..v }),
            decreases i,
        {
            let ghost before = self.rows@;
            i -= 1;
            if let Some(l) = lives.pop() {
                assert(l == given[i as int]);
                assert(before[i as int] == v.rows[i as int]);
                let id = window_of(windows, self.rows[i].slug.as_str());
                self.rows[i].window_id = id;
                self.rows[i].prs = l.prs;
                self.rows[i].ports = l.ports;
                self.rows[i].subagents = l.subagents;
                assert(self.rows@ =~= before.update(i as int, fresh[i as int]));
            }
            assert(lives@ =~= given.take(i as int));
            assert(self.rows@ =~= v.rows.take(i as int) + fresh.skip(i as int));
        }
        assert(self.rows@ =~= fresh);
        proof {
            rows_kept_alike(v.rows, fresh, v.filter, v.rows.len() as int);
        }
    }

    /// Take the rows found anew, keeping the selection on its task.
    pub fn tidy(&mut self, rows: Vec<Row>)
        requires
            old(self)@.wf(),
        ensures
            final(self)@ == old(self)@.tidied(rows@),
            final(self)@.wf(),
    {
        let keep = match self.selected_row() {
            Some(r) => Some((r.ws_idx, r.slug.clone())),
            None => None,
        };
        self.set_rows(rows);
        if let Some((ws_idx, slug)) = keep {
            self.reselect(ws_idx, slug.as_str());
        }
    }

    /// Take what was found of the workspaces' repos.
    pub fn scanned(&mut self, facts: &Vec<Vec<RepoFact>>)
        requires
            old(self)@.wf(),
            facts_fit(old(self)@.workspaces, facts@),
        ensures
            final(self)@ == old(self)@.with_repo_rows(
                all_repo_rows(old(self)@.workspaces, facts@, old(self)@.workspaces.len() as int),
            ),
            final(self)@.wf(),
    {
        let rows = repo_rows(&self.workspaces, facts);
        self.set_repo_rows(rows);
    }

    /// Show the whole list, and select the task of that workspace and slug.
    fn land(&mut self, ws_idx: usize, slug: &str, name: &str) -> (found: bool)
        requires
            (ListView { mode: ModeView::List, ..old(self)@ }).apply_filter().wf(),
        ensures
            (final(self)@, found) == old(self)@.created(ws_idx, slug@, name@, old(self)@.rows),
            final(self)@.wf(),
    {
        let ghost v = self@;
        self.mode = Mode::List;
        self.filter = String::new();
        assert(self.filter@ =~= Seq::<char>::empty());
        let mut rows: Vec<Row> = Vec::new();
        core::mem::swap(&mut rows, &mut self.rows);
        self.rows = crate::list::sort_rows(rows);
        proof {
            vec_fits(self.rows);
        }
        self.apply_filter();
        let ghost l = self@;
        assert(l =~= (ListView { filter: Seq::empty(), ..v.in_mode(ModeView::List) }).with_rows(v.rows));
        proof {
            vec_fits(self.filtered);
            task_from_finds(l.rows, l.filtered, ws_idx, slug@, 0);
        }
        let found = match self.position_in(ws_idx, slug) {
            Some(p) => {
                self.selected = p;
                true
            },
            None => false,
        };
        self.tell(cat3("created '", name, "'"));
        assert((self@, found) =~= v.created(ws_idx, slug@, name@, v.rows));
        found
    }

    /// A task was created. Returns whether the selection is on it.
    pub fn created(&mut self, ws_idx: usize, slug: &str, name: &str, rows: Vec<Row>) -> (found: bool)
        requires
            old(self)@.wf(),
        ensures
            (final(self)@, found) == old(self)@.created(ws_idx, slug@, name@, rows@),
            final(self)@.wf(),
    {
        let ghost v = self@;
        self.rows = rows;
        proof {
            vec_fits(self.rows);
        }
        let found = self.land(ws_idx, slug, name);
        assert((self@, found) =~= v.created(ws_idx, slug@, name@, rows@));
        found
    }

    /// A task was created that only this process knows of: list its row.
    pub fn created_here(&mut self, row: Row) -> (found: bool)
        requires
            old(self)@.wf(),
        ensures
            (final(self)@, found) == old(self)@.created(
                row.ws_idx,
                row.slug@,
                row.title@,
                old(self)@.rows.push(row),
            ),
            final(self)@.wf(),
    {
        let ghost v = self@;
        let ws_idx: usize = row.ws_idx;
        let slug = row.slug.clone();
        let title = row.title.clone();
        self.rows.push(row);
        proof {
            vec_fits(self.rows);
        }
        let found = self.land(ws_idx, slug.as_str(), title.as_str());
        assert((self@, found) =~= v.created(row.ws_idx, row.slug@, row.title@, v.rows.push(row)));
        found
    }

    /// A repo was added.
    pub fn repo_added(&mut self, facts: &Vec<Vec<RepoFact>>)
        requires
            old(self)@.wf(),
            facts_fit(old(self)@.workspaces, facts@),
        ensures
            final(self)@ == old(self)@.repo_added(facts@),
            final(self)@.wf(),
    {
        self.mode = Mode::List;
        self.scanned(facts);
        self.tell(own("repo added"));
    }

    /// A task's repos were changed.
    pub fn repos_set(
        &mut self,
        ws_idx: usize,
        slug: &str,
        title: &str,
        added: usize,
        removed: usize,
        rows: Vec<Row>,
    )
        requires
            old(self)@.wf(),
        ensures
            final(self)@ == old(self)@.repos_set(ws_idx, slug@, title@, added as nat, removed as nat, rows@),
            final(self)@.wf(),
    {
        self.set_rows(rows);
        self.reselect(ws_idx, slug);
        self.tell(repos_set_message(added, removed, title));
    }

    /// A task was deleted.
    pub fn deleted(&mut self, title: &str, rows: Vec<Row>)
        requires
            old(self)@.wf(),
        ensures
            final(self)@ == old(self)@.with_rows(rows@).told("deleted '"@ + title@ + "'"@),
            final(self)@.wf(),
    {
        self.set_rows(rows);
        self.tell(cat3("deleted '", title, "'"));
    }

    /// A task was renamed.
    pub fn renamed(&mut self, ws_idx: usize, slug: &str, rows: Vec<Row>)
        requires
            old(self)@.wf(),
        ensures
            final(self)@ == old(self)@.with_rows(rows@).reselected(ws_idx, slug@).told("renamed"@),
            final(self)@.wf(),
    {
        self.set_rows(rows);
        self.reselect(ws_idx, slug);
        self.tell(own("renamed"));
    }

    /// The task whose secrets are to be unlocked, once.
    pub fn take_unlock(&mut self) -> (u: Option<(usize, String)>)
        requires
            old(self)@.wf(),
        ensures
            match (u, old(self)@.pending_unlock) {
                (Some((i, s)), Some((j, t))) => i == j && s@ == t,
                (None, None) => true,
                _ => false,
            },
            final(self)@ == (ListView { pending_unlock: None, ..old(self)@ }),
            final(self)@.wf(),
    {
        let mut u: Option<(usize, String)> = None;
        core::mem::swap(&mut u, &mut self.pending_unlock);
        u
    }
}

/// Why a prompt cannot be answered from the list, as its session stands.
pub open spec fn unanswerable(title: Seq<char>, s: RowState) -> Option<Seq<char>> {
    if s.status != TaskStatus::Blocked {
        Some("'"@ + title + "' is not waiting on a prompt"@)
    } else if opt_view(s.waiting_for) != Some(PERMISSION_PROMPT@) {
        let reason = match opt_view(s.waiting_for) {
            Some(r) => r,
            None => Seq::empty(),
        };
        Some("'"@ + title + "' is waiting on "@ + reason + " — open it to answer (⏎)"@)
    } else if s.pane is None {
        Some("'"@ + title + "': no pane known for its session"@)
    } else {
        None
    }
}

impl ListView {
    /// With a prompt refused whose dialog is not on screen.
    pub open spec fn dialog_checked(self, title: Seq<char>, visible: bool) -> ListView {
        if visible {
            self
        } else {
            self.told("'"@ + title + "': no permission dialog on screen — open it to check (⏎)"@)
        }
    }
}

impl TaskList {
    /// Before a prompt is answered, with the session's state re-read: it must
    /// still wait on a permission prompt, in a known pane. Returns the pane to
    /// look at; anything else is refused with a message.
    pub fn check_prompt(&mut self, title: &str, state: &RowState) -> (pane: Option<String>)
        requires
            old(self)@.wf(),
        ensures
            match unanswerable(title@, *state) {
                Some(msg) => pane is None && final(self)@ == old(self)@.told(msg),
                None => opt_view(pane) == opt_view(state.pane) && final(self)@ == old(self)@,
            },
            final(self)@.wf(),
    {
        if state.status != TaskStatus::Blocked {
            self.tell(cat3("'", title, "' is not waiting on a prompt"));
            return None;
        }
        if !is_some_of(&state.waiting_for, PERMISSION_PROMPT) {
            let reason = match &state.waiting_for {
                Some(r) => r.clone(),
                None => String::new(),
            };
            assert(reason@ =~= match opt_view(state.waiting_for) {
                Some(r) => r,
                None => Seq::empty(),
            });
            self.tell(cat5("'", title, "' is waiting on ", reason.as_str(), " — open it to answer (⏎)"));
            return None;
        }
        match &state.pane {
            Some(p) => Some(p.clone()),
            None => {
                self.tell(cat3("'", title, "': no pane known for its session"));
                None
            },
        }
    }

    /// The dialog must still be on screen. Returns whether the key may go out.
    pub fn check_dialog(&mut self, title: &str, visible: bool) -> (go: bool)
        requires
            old(self)@.wf(),
        ensures
            go == visible,
            final(self)@ == old(self)@.dialog_checked(title@, visible),
            final(self)@.wf(),
    {
        if !visible {
            self.tell(cat3("'", title, "': no permission dialog on screen — open it to check (⏎)"));
        }
        visible
    }

    /// The answer went out.
    pub fn answered(&mut self, yes: bool, title: &str)
        requires
            old(self)@.wf(),
        ensures
            final(self)@ == old(self)@.told(answered_text(yes, title@)),
            final(self)@.wf(),
    {
        let verb = if yes { "approved" } else { "denied" };
        self.tell(cat4(verb, " '", title, "'"));
    }
}

/// A prompt is answered only in a session that waits on a permission prompt in
/// a known pane.
pub proof fn only_permission_prompts_are_answered(title: Seq<char>, s: RowState)
    ensures
        unanswerable(title, s) is None <==> (s.status == TaskStatus::Blocked && opt_view(s.waiting_for) == Some(
            PERMISSION_PROMPT@,
        ) && s.pane is Some),
{
}

/// Finding the rows anew keeps the selection on its task, that of the same
/// workspace and slug, as long as the task is there and passes the filter.
pub proof fn tidying_keeps_the_selection(v: ListView, rows: Seq<Row>)
    requires
        v.wf(),
        rows.len() <= usize::MAX,
        v.selected_row() is Some,
        exists|k: int|
            0 <= k < v.with_rows(rows).filtered.len() && {
                let r = v.with_rows(rows).rows[#[trigger] v.with_rows(rows).filtered[k] as int];
                r.ws_idx == (v.selected_row()->0).ws_idx && r.slug@ == (v.selected_row()->0).slug@
            },
    ensures
        v.tidied(rows).selected_row() is Some,
        (v.tidied(rows).selected_row()->0).ws_idx == (v.selected_row()->0).ws_idx,
        (v.tidied(rows).selected_row()->0).slug@ == (v.selected_row()->0).slug@,
{
    let w = v.with_rows(rows);
    let r = v.selected_row()->0;
    crate::list::rows_are_listed_in_order(rows);
    crate::list::filtered_is_exact(w.rows, w.filter, w.rows.len() as int);
    task_from_finds(w.rows, w.filtered, r.ws_idx, r.slug@, 0);
}

/// The task just created is the one selected, wherever it is found.
pub proof fn the_created_task_is_selected(v: ListView, ws_idx: usize, slug: Seq<char>, name: Seq<char>, rows: Seq<Row>)
    requires
        v.wf(),
        rows.len() <= usize::MAX,
        v.created(ws_idx, slug, name, rows).1,
    ensures
        v.created(ws_idx, slug, name, rows).0.selected_row() is Some,
        (v.created(ws_idx, slug, name, rows).0.selected_row()->0).ws_idx == ws_idx,
        (v.created(ws_idx, slug, name, rows).0.selected_row()->0).slug@ == slug,
{
    let l = (ListView { filter: Seq::empty(), ..v.in_mode(ModeView::List) }).with_rows(rows);
    crate::list::rows_are_listed_in_order(rows);
    crate::list::filtered_is_exact(l.rows, l.filter, l.rows.len() as int);
    task_from_finds(l.rows, l.filtered, ws_idx, slug, 0);
}

/// A refresh takes over what was seen of the task and keeps which task it is
/// and where it is filed.
pub proof fn refreshing_keeps_which_task_it_is(r: Row, s: RowState)
    ensures
        refreshed(r, s).status == s.status,
        refreshed(r, s).waiting_for == s.waiting_for,
        refreshed(r, s).changed == s.changed,
        refreshed(r, s).pane == s.pane,
        refreshed(r, s).tab_id == s.tab_id,
        refreshed(r, s).glyph == s.glyph,
        refreshed(r, s).age == s.age,
        s.changed is Some ==> refreshed(r, s).activity == s.changed->0,
        s.changed is None ==> refreshed(r, s).activity == r.activity,
        refreshed(r, s).slug == r.slug,
        refreshed(r, s).title == r.title,
        refreshed(r, s).ws_idx == r.ws_idx,
        refreshed(r, s).path == r.path,
        refreshed(r, s).group == r.group,
        refreshed(r, s).section == r.section,
        refreshed(r, s).window_id == r.window_id,
{
}

/// A task's window is one of its own name, and none only where no window has it.
pub proof fn windows_are_found_by_name(windows: Seq<Window>, name: Seq<char>, n: int)
    requires
        0 <= n <= windows.len(),
    ensures
        window_named(windows, name, n) matches Some(id) ==> exists|i: int|
            0 <= i < n && (#[trigger] windows[i]).name@ == name && windows[i].id == id,
        window_named(windows, name, n) is None ==> forall|i: int| 0 <= i < n ==> (#[trigger] windows[i]).name@ != name,
    decreases n,
{
    if n > 0 && windows[n - 1].name@ != name {
        windows_are_found_by_name(windows, name, n - 1);
    }
}

/// The task in front is the first active window that is not the home one.
pub proof fn the_front_window_is_active(windows: Seq<Window>, home: Seq<char>, from: int)
    requires
        0 <= from,
    ensures
        front_from(windows, home, from) matches Some(name) ==> exists|i: int|
            from <= i < windows.len() && (#[trigger] windows[i]).active && windows[i].name@ == name && name != home,
        front_from(windows, home, from) is None ==> forall|i: int|
            from <= i < windows.len() && (#[trigger] windows[i]).active ==> windows[i].name@ == home,
    decreases windows.len() - from,
{
    if from < windows.len() && !(windows[from].active && windows[from].name@ != home) {
        the_front_window_is_active(windows, home, from + 1);
    }
}

/// A new look at the windows changes what is live of a task and nothing else.
pub proof fn reviving_keeps_which_task_it_is(r: Row, windows: Seq<Window>, live: Live)
    ensures
        revived(r, windows, live).slug == r.slug,
        revived(r, windows, live).title == r.title,
        revived(r, windows, live).status == r.status,
        revived(r, windows, live).activity == r.activity,
        revived(r, windows, live).section == r.section,
        revived(r, windows, live).prs == live.prs,
        revived(r, windows, live).ports == live.ports,
        revived(r, windows, live).subagents == live.subagents,
        (forall|i: int| 0 <= i < windows.len() ==> (#[trigger] windows[i]).name@ != r.slug@) ==> revived(
            r,
            windows,
            live,
        ).window_id is None,
{
    windows_are_found_by_name(windows, r.slug@, windows.len() as int);
}

/// A repo's line has its workspace, its name, and a commit only where it is
/// cloned.
pub proof fn repo_lines_say_what_is_cloned(ws_idx: int, ws: Workspace, facts: Seq<RepoFact>, j: int)
    requires
        0 <= j < ws.config.repos@.len(),
        0 <= ws_idx <= usize::MAX,
    ensures
        ws_repo_rows(ws_idx, ws, facts).len() == ws.config.repos@.len(),
        ws_repo_rows(ws_idx, ws, facts)[j].name == ws.config.repos@[j].name,
        ws_repo_rows(ws_idx, ws, facts)[j].ws_idx == ws_idx,
        ws_repo_rows(ws_idx, ws, facts)[j].ws_name == ws.config.name,
        ws_repo_rows(ws_idx, ws, facts)[j].cloned == facts[j].exists,
        facts[j].exists ==> ws_repo_rows(ws_idx, ws, facts)[j].commit == facts[j].last_commit,
        !facts[j].exists ==> ws_repo_rows(ws_idx, ws, facts)[j].commit is None,
{
}

/// What was added and removed is told apart, each by its own number.
pub proof fn repo_changes_are_counted(added: nat, removed: nat, title: Seq<char>)
    ensures
        removed == 0 ==> repos_set_text(added, removed, title) == "added "@ + decimal_of(added) + " repo(s) to '"@ + title
            + "'"@,
        removed > 0 && added == 0 ==> repos_set_text(added, removed, title) == "detached "@ + decimal_of(removed)
            + " repo(s) from '"@ + title + "'"@,
{
}

} // verus!
