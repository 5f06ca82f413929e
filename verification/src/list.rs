//! The task list behind the column and the overlay: every task across every
//! registered workspace, filtered, with one cursor that lives either in the
//! search field or on a row.
use vstd::prelude::*;
use vstd::string::*;

use crate::forms::{
    added_of, checks, desired_of, erased, removed_of, says_yes, step_of, typed, AddRepoForm,
    AddView, Confirm, ConfirmView, CreateForm, CreateView, EditReposForm, EditStep, EditView,
    FormStep, PickView, RenameForm, RenameView,
};
use crate::input::{KeyCode, KeyEvent, Rect};
use crate::job::Job;
use crate::sort::{sort, sorted_by};
use crate::status::{TaskGroup, TaskStatus};
use crate::text::{contains, in_order, lowercase, opt_view, spaceless, trimmed, views};
use crate::workspace::{RepoConfig, Workspace};

verus! {

// ── Rows ─────────────────────────────────────────────────────────────────────

/// A pull request's chip, and how its checks stand.
#[derive(Debug)]
pub struct PrChip {
    pub chip: String,
    pub checks: String,
}

/// A subagent a task has fanned out to.
#[derive(Debug)]
pub struct Subagent {
    pub description: String,
    pub finished: bool,
}

/// One selectable task row, flattened across all workspaces.
#[derive(Debug)]
pub struct Row {
    pub ws_idx: usize,
    pub ws_name: String,
    pub slug: String,
    pub title: String,
    pub path: String,
    pub status: TaskStatus,
    /// The status this row was filed under when the rows were built. `status`
    /// keeps updating, but the row never migrates to another section while the
    /// list is open.
    pub group: TaskStatus,
    /// The status as a glyph.
    pub glyph: String,
    /// When the status last changed, in milliseconds since the epoch.
    pub changed: Option<u64>,
    /// How long ago that is, in words.
    pub age: String,
    /// The agent's own reason for waiting.
    pub waiting_for: Option<String>,
    /// Sort key within a status group: last status change, or creation time for
    /// a task no agent has touched.
    pub activity: u64,
    /// The task's window id if its window is open.
    pub window_id: Option<String>,
    /// The task's tab id if its tab is open.
    pub tab_id: Option<u32>,
    /// The pane its session runs in.
    pub pane: Option<String>,
    pub prs: Vec<PrChip>,
    pub ports: Vec<u16>,
    /// Repos the task currently has worktrees for.
    pub repos: Vec<String>,
    /// Secret names pending decrypt.
    pub secrets_pending: Vec<String>,
    /// Secret names a human needs to supply a value for.
    pub secrets_pending_set: Vec<String>,
    /// The task's coding agent, where it isn't the default one.
    pub agent: Option<String>,
    /// The section this row is grouped under.
    pub section: TaskGroup,
    pub subagents: Vec<Subagent>,
}

impl Row {
    /// Whether a secret is wanted.
    pub open spec fn wants_secrets(self) -> bool {
        self.secrets_pending@.len() > 0 || self.secrets_pending_set@.len() > 0
    }

    /// The section the row belongs under now: a pending secrets request forces
    /// its own section, whatever the session does.
    pub open spec fn section_now(self) -> TaskGroup {
        if self.wants_secrets() {
            TaskGroup::SecretsPending
        } else {
            self.status.group()
        }
    }

    /// Whether a secret is wanted.
    pub fn has_secrets(&self) -> (yes: bool)
        ensures
            yes == self.wants_secrets(),
    {
        self.secrets_pending.len() > 0 || self.secrets_pending_set.len() > 0
    }

    /// See [`Row::section_now`].
    pub fn current_section(&self) -> (g: TaskGroup)
        ensures
            g == self.section_now(),
    {
        if self.has_secrets() {
            TaskGroup::SecretsPending
        } else {
            self.status.group()
        }
    }
}

/// One repo row in the Repos tab.
#[derive(Debug)]
pub struct RepoRow {
    pub ws_idx: usize,
    pub ws_name: String,
    pub name: String,
    pub cloned: bool,
    pub commit: Option<String>,
}

/// Whether row `a` is listed before row `b`: by section, then by the status
/// they were filed under, then by activity, newest first.
pub open spec fn row_less(a: Row, b: Row) -> bool {
    if a.section.rank() != b.section.rank() {
        a.section.rank() < b.section.rank()
    } else if a.group.rank() != b.group.rank() {
        a.group.rank() < b.group.rank()
    } else {
        a.activity > b.activity
    }
}

/// Rows in the order they are listed.
pub open spec fn sorted_rows(rows: Seq<Row>) -> Seq<Row> {
    sorted_by(rows, |a: Row, b: Row| row_less(a, b))
}

/// Rows in the order they are listed.
pub fn sort_rows(rows: Vec<Row>) -> (out: Vec<Row>)
    ensures
        out@ == sorted_rows(rows@),
{
    let less = |a: &Row, b: &Row| -> (r: bool)
        ensures
            r == row_less(*a, *b),
        {
            if a.section.rank() != b.section.rank() {
                a.section.rank() < b.section.rank()
            } else if a.group.rank() != b.group.rank() {
                a.group.rank() < b.group.rank()
            } else {
                a.activity > b.activity
            }
        };
    sort(rows, less, Ghost(|a: Row, b: Row| row_less(a, b)))
}

/// Rows are listed by section, within it by status and within that by recency,
/// and nothing else moves.
pub proof fn rows_are_listed_in_order(rows: Seq<Row>)
    ensures
        sorted_rows(rows).to_multiset() == rows.to_multiset(),
        sorted_rows(rows).len() == rows.len(),
        forall|i: int, j: int|
            0 <= i < j < sorted_rows(rows).len() ==> !row_less(#[trigger] sorted_rows(rows)[j], #[trigger] sorted_rows(
                rows,
            )[i]),
{
    let less = |a: Row, b: Row| row_less(a, b);
    crate::sort::sorting_permutes(rows, less);
    assert(crate::sort::ranks(less));
    crate::sort::sorting_orders(rows, less);
    assert forall|i: int, j: int| 0 <= i < j < sorted_rows(rows).len() implies !row_less(
        #[trigger] sorted_rows(rows)[j],
        #[trigger] sorted_rows(rows)[i],
    ) by {
        assert(!less(sorted_rows(rows)[j], sorted_rows(rows)[i]));
    }
}

/// Rows of one section, status and activity keep the order they were found in.
pub proof fn equal_rows_keep_their_order(rows: Seq<Row>, k: Row)
    ensures
        sorted_rows(rows).filter(|y: Row| crate::sort::same_rank(y, k, |a: Row, b: Row| row_less(a, b))) == rows.filter(
            |y: Row| crate::sort::same_rank(y, k, |a: Row, b: Row| row_less(a, b)),
        ),
{
    let less = |a: Row, b: Row| row_less(a, b);
    assert(crate::sort::ranks(less));
    crate::sort::sorting_is_stable(rows, less, k);
}

// ── Filtering ────────────────────────────────────────────────────────────────

/// Whether a text passes the filter: it holds the filter's characters in order,
/// in either case; an empty filter lets everything through.
pub open spec fn passes(filter: Seq<char>, text: Seq<char>) -> bool {
    filter.len() == 0 || in_order(spaceless(lowercase(filter)), lowercase(text))
}

/// An empty filter lets every row and every repo through.
pub proof fn an_empty_filter_lets_all_through(rows: Seq<Row>, repos: Seq<RepoRow>)
    requires
        rows.len() <= usize::MAX,
        repos.len() <= usize::MAX,
    ensures
        rows_kept(rows, Seq::empty(), rows.len() as int) == Seq::new(rows.len(), |i: int| i as usize),
        repos_kept(repos, Seq::empty(), repos.len() as int) == Seq::new(repos.len(), |i: int| i as usize),
{
    all_rows_kept(rows, rows.len() as int);
    all_repos_kept(repos, repos.len() as int);
}

proof fn all_rows_kept(rows: Seq<Row>, n: int)
    requires
        0 <= n <= rows.len() <= usize::MAX,
    ensures
        rows_kept(rows, Seq::empty(), n) == Seq::new(n as nat, |i: int| i as usize),
    decreases n,
{
    if n > 0 {
        all_rows_kept(rows, n - 1);
        assert(rows_kept(rows, Seq::empty(), n) =~= Seq::new(n as nat, |i: int| i as usize));
    } else {
        assert(rows_kept(rows, Seq::empty(), n) =~= Seq::new(n as nat, |i: int| i as usize));
    }
}

proof fn all_repos_kept(repos: Seq<RepoRow>, n: int)
    requires
        0 <= n <= repos.len() <= usize::MAX,
    ensures
        repos_kept(repos, Seq::empty(), n) == Seq::new(n as nat, |i: int| i as usize),
    decreases n,
{
    if n > 0 {
        all_repos_kept(repos, n - 1);
        assert(repos_kept(repos, Seq::empty(), n) =~= Seq::new(n as nat, |i: int| i as usize));
    } else {
        assert(repos_kept(repos, Seq::empty(), n) =~= Seq::new(n as nat, |i: int| i as usize));
    }
}

/// Whether a task passes the filter, by workspace and title.
pub open spec fn row_passes(filter: Seq<char>, r: Row) -> bool {
    passes(filter, r.ws_name@ + " "@ + r.title@)
}

/// Whether a repo passes the filter, by workspace and name.
pub open spec fn repo_passes(filter: Seq<char>, r: RepoRow) -> bool {
    passes(filter, r.ws_name@ + " "@ + r.name@)
}

/// Places of the rows among the first `n` that pass the filter.
pub open spec fn rows_kept(rows: Seq<Row>, filter: Seq<char>, n: int) -> Seq<usize>
    decreases n,
{
    if n <= 0 {
        Seq::empty()
    } else if row_passes(filter, rows[n - 1]) {
        rows_kept(rows, filter, n - 1).push((n - 1) as usize)
    } else {
        rows_kept(rows, filter, n - 1)
    }
}

/// Places of the repos among the first `n` that pass the filter.
pub open spec fn repos_kept(rows: Seq<RepoRow>, filter: Seq<char>, n: int) -> Seq<usize>
    decreases n,
{
    if n <= 0 {
        Seq::empty()
    } else if repo_passes(filter, rows[n - 1]) {
        repos_kept(rows, filter, n - 1).push((n - 1) as usize)
    } else {
        repos_kept(rows, filter, n - 1)
    }
}

/// The filtered list is the rows that pass, all of them, in the order of the
/// rows.
pub proof fn filtered_is_exact(rows: Seq<Row>, filter: Seq<char>, n: int)
    requires
        0 <= n <= rows.len() <= usize::MAX,
    ensures
        rows_kept(rows, filter, n).len() <= n,
        forall|k: int|
            0 <= k < rows_kept(rows, filter, n).len() ==> (#[trigger] rows_kept(rows, filter, n)[k]) < n && row_passes(
                filter,
                rows[rows_kept(rows, filter, n)[k] as int],
            ),
        forall|i: int, j: int|
            0 <= i < j < rows_kept(rows, filter, n).len() ==> (#[trigger] rows_kept(rows, filter, n)[i]) < (
            #[trigger] rows_kept(rows, filter, n)[j]),
        forall|i: int|
            0 <= i < n && row_passes(filter, #[trigger] rows[i]) ==> rows_kept(rows, filter, n).contains(i as usize),
    decreases n,
{
    if n > 0 {
        filtered_is_exact(rows, filter, n - 1);
        let rest = rows_kept(rows, filter, n - 1);
        let all = rows_kept(rows, filter, n);
        assert forall|i: int| 0 <= i < n && row_passes(filter, #[trigger] rows[i]) implies all.contains(i as usize) by {
            if i < n - 1 {
                assert(rest.contains(i as usize));
                let k = choose|k: int| 0 <= k < rest.len() && rest[k] == i as usize;
                assert(all[k] == i as usize);
            } else {
                assert(all[all.len() - 1] == i as usize);
            }
        }
    }
}

/// See [`filtered_is_exact`], for repos.
pub proof fn filtered_repos_are_exact(rows: Seq<RepoRow>, filter: Seq<char>, n: int)
    requires
        0 <= n <= rows.len() <= usize::MAX,
    ensures
        repos_kept(rows, filter, n).len() <= n,
        forall|k: int|
            0 <= k < repos_kept(rows, filter, n).len() ==> (#[trigger] repos_kept(rows, filter, n)[k]) < n
                && repo_passes(filter, rows[repos_kept(rows, filter, n)[k] as int]),
        forall|i: int, j: int|
            0 <= i < j < repos_kept(rows, filter, n).len() ==> (#[trigger] repos_kept(rows, filter, n)[i]) < (
            #[trigger] repos_kept(rows, filter, n)[j]),
        forall|i: int|
            0 <= i < n && repo_passes(filter, #[trigger] rows[i]) ==> repos_kept(rows, filter, n).contains(i as usize),
    decreases n,
{
    if n > 0 {
        filtered_repos_are_exact(rows, filter, n - 1);
        let rest = repos_kept(rows, filter, n - 1);
        let all = repos_kept(rows, filter, n);
        assert forall|i: int| 0 <= i < n && repo_passes(filter, #[trigger] rows[i]) implies all.contains(i as usize) by {
            if i < n - 1 {
                assert(rest.contains(i as usize));
                let k = choose|k: int| 0 <= k < rest.len() && rest[k] == i as usize;
                assert(all[k] == i as usize);
            } else {
                assert(all[all.len() - 1] == i as usize);
            }
        }
    }
}

// ── State ────────────────────────────────────────────────────────────────────

/// What the list shows.
#[derive(Debug, Clone, Copy, PartialEq, Eq, Structural)]
pub enum Tab {
    Tasks,
    Repos,
    Work,
}

impl Tab {
    /// All tabs, in the order they stand.
    pub const ALL: [Tab; 3] = [Tab::Tasks, Tab::Repos, Tab::Work];

    /// The tab after this one, round and round.
    #[verifier::allow_in_spec]
    pub fn next(self) -> Tab
        returns
            (match self {
                Tab::Tasks => Tab::Repos,
                Tab::Repos => Tab::Work,
                Tab::Work => Tab::Tasks,
            }),
    {
        match self {
            Tab::Tasks => Tab::Repos,
            Tab::Repos => Tab::Work,
            Tab::Work => Tab::Tasks,
        }
    }

    /// The tab before this one, round and round.
    #[verifier::allow_in_spec]
    pub fn prev(self) -> Tab
        returns
            (match self {
                Tab::Tasks => Tab::Work,
                Tab::Repos => Tab::Tasks,
                Tab::Work => Tab::Repos,
            }),
    {
        match self {
            Tab::Tasks => Tab::Work,
            Tab::Repos => Tab::Tasks,
            Tab::Work => Tab::Repos,
        }
    }
}

/// Cycling forward and back undo each other, and three steps come round.
pub proof fn tabs_cycle(t: Tab)
    ensures
        t.next().prev() == t,
        t.prev().next() == t,
        t.next().next().next() == t,
        t.next() != t,
        t.next().next() != t,
{
}

/// Input mode for the list view. Insert = type filters; Normal = vim keys.
#[derive(Debug, Clone, Copy, PartialEq, Eq, Structural)]
pub enum InputMode {
    Insert,
    Normal,
}

/// Where the single cursor lives: the search field, or a list row.
#[derive(Debug, Clone, Copy, PartialEq, Eq, Structural)]
pub enum Focus {
    Search,
    List,
}

/// What the keyboard is talking to.
#[derive(Debug)]
pub enum Mode {
    List,
    /// The `:` command line; the buffer after the colon.
    Command(String),
    /// New-task form.
    Create(CreateForm),
    /// Add-repo form.
    AddRepo(AddRepoForm),
    /// Repo checklist for a task.
    EditRepos(EditReposForm),
    Confirm(Confirm),
    Rename(RenameForm),
}

/// What the keyboard is talking to.
#[verifier::ext_equal]
pub enum ModeView {
    List,
    Command(Seq<char>),
    Create(CreateView),
    AddRepo(AddView),
    EditRepos(EditView),
    Confirm(ConfirmView),
    Rename(RenameView),
}

impl View for Mode {
    type V = ModeView;

    open spec fn view(&self) -> ModeView {
        match self {
            Mode::List => ModeView::List,
            Mode::Command(b) => ModeView::Command(b@),
            Mode::Create(f) => ModeView::Create(f@),
            Mode::AddRepo(f) => ModeView::AddRepo(f@),
            Mode::EditRepos(f) => ModeView::EditRepos(f@),
            Mode::Confirm(c) => ModeView::Confirm(c@),
            Mode::Rename(f) => ModeView::Rename(f@),
        }
    }
}

/// What the list asks its surroundings to do.
#[derive(Debug)]
pub enum Effect {
    Nothing,
    /// Leave the list.
    Close,
    /// Scan the workspaces' repos.
    ScanRepos,
    /// Bring the task's window to the front.
    Switch(String),
    /// Open the task and hand the keyboard to it.
    Open { ws_idx: usize, slug: String },
    Create { ws_idx: usize, name: String, repos: Vec<String> },
    AddRepo { ws_idx: usize, url: String, called: Option<String> },
    SetRepos { ws_idx: usize, slug: String, title: String, desired: Vec<String>, added: usize, removed: usize },
    Delete { ws_idx: usize, slug: String, title: String, tab_id: Option<u32> },
    /// Close the task's window or tab.
    CloseWindow { slug: String, path: String, tab_id: Option<u32> },
    /// Answer the permission prompt of the task at `path`.
    Answer { yes: bool, title: String, path: String },
    CancelSecrets { ws_idx: usize, slug: String },
    Rename { ws_idx: usize, slug: String, path: String, title: String },
}

/// What the list asks its surroundings to do.
#[verifier::ext_equal]
pub enum EffectView {
    Nothing,
    Close,
    ScanRepos,
    Switch(Seq<char>),
    Open { ws_idx: usize, slug: Seq<char> },
    Create { ws_idx: usize, name: Seq<char>, repos: Seq<Seq<char>> },
    AddRepo { ws_idx: usize, url: Seq<char>, called: Option<Seq<char>> },
    SetRepos {
        ws_idx: usize,
        slug: Seq<char>,
        title: Seq<char>,
        desired: Seq<Seq<char>>,
        added: nat,
        removed: nat,
    },
    Delete { ws_idx: usize, slug: Seq<char>, title: Seq<char>, tab_id: Option<u32> },
    CloseWindow { slug: Seq<char>, path: Seq<char>, tab_id: Option<u32> },
    Answer { yes: bool, title: Seq<char>, path: Seq<char> },
    CancelSecrets { ws_idx: usize, slug: Seq<char> },
    Rename { ws_idx: usize, slug: Seq<char>, path: Seq<char>, title: Seq<char> },
}

impl View for Effect {
    type V = EffectView;

    open spec fn view(&self) -> EffectView {
        match self {
            Effect::Nothing => EffectView::Nothing,
            Effect::Close => EffectView::Close,
            Effect::ScanRepos => EffectView::ScanRepos,
            Effect::Switch(s) => EffectView::Switch(s@),
            Effect::Open { ws_idx, slug } => EffectView::Open { ws_idx: *ws_idx, slug: slug@ },
            Effect::Create { ws_idx, name, repos } => EffectView::Create {
                ws_idx: *ws_idx,
                name: name@,
                repos: views(repos@),
            },
            Effect::AddRepo { ws_idx, url, called } => EffectView::AddRepo {
                ws_idx: *ws_idx,
                url: url@,
                called: opt_view(*called),
            },
            Effect::SetRepos { ws_idx, slug, title, desired, added, removed } => EffectView::SetRepos {
                ws_idx: *ws_idx,
                slug: slug@,
                title: title@,
                desired: views(desired@),
                added: *added as nat,
                removed: *removed as nat,
            },
            Effect::Delete { ws_idx, slug, title, tab_id } => EffectView::Delete {
                ws_idx: *ws_idx,
                slug: slug@,
                title: title@,
                tab_id: *tab_id,
            },
            Effect::CloseWindow { slug, path, tab_id } => EffectView::CloseWindow {
                slug: slug@,
                path: path@,
                tab_id: *tab_id,
            },
            Effect::Answer { yes, title, path } => EffectView::Answer { yes: *yes, title: title@, path: path@ },
            Effect::CancelSecrets { ws_idx, slug } => EffectView::CancelSecrets { ws_idx: *ws_idx, slug: slug@ },
            Effect::Rename { ws_idx, slug, path, title } => EffectView::Rename {
                ws_idx: *ws_idx,
                slug: slug@,
                path: path@,
                title: title@,
            },
        }
    }
}

/// The task list.
#[derive(Debug)]
pub struct TaskList {
    pub workspaces: Vec<Workspace>,
    pub tab: Tab,
    pub input_mode: InputMode,
    pub focus: Focus,
    /// First key of a pending 2-key normal-mode sequence (`g`, `d`).
    pub pending: Option<char>,
    pub rows: Vec<Row>,
    pub filter: String,
    /// Indices into `rows` that pass the current filter, in display order.
    pub filtered: Vec<usize>,
    /// Position within `filtered`.
    pub selected: usize,
    pub repo_rows: Vec<RepoRow>,
    pub repo_filtered: Vec<usize>,
    pub repo_selected: usize,
    /// Long operations, running or settled.
    pub jobs: Vec<Job>,
    pub work_selected: usize,
    pub status_msg: Option<String>,
    pub mode: Mode,
    /// Workspace index and slug of a task whose secrets are to be unlocked.
    pub pending_unlock: Option<(usize, String)>,
    /// Slug of the task on screen beside the list.
    pub current: Option<String>,
    /// Scroll offset, in items.
    pub offset: usize,
    /// Each rendered item's filtered position (none for headers and spacers).
    pub line_to_pos: Vec<Option<usize>>,
    /// Rendered height of each item.
    pub item_heights: Vec<u16>,
    pub tabs_area: Rect,
    pub search_area: Rect,
    pub list_area: Rect,
}

/// The task list.
#[verifier::ext_equal]
pub struct ListView {
    pub workspaces: Seq<Workspace>,
    pub tab: Tab,
    pub input_mode: InputMode,
    pub focus: Focus,
    pub pending: Option<char>,
    pub rows: Seq<Row>,
    pub filter: Seq<char>,
    pub filtered: Seq<usize>,
    pub selected: usize,
    pub repo_rows: Seq<RepoRow>,
    pub repo_filtered: Seq<usize>,
    pub repo_selected: usize,
    pub jobs: Seq<Job>,
    pub work_selected: usize,
    pub status_msg: Option<Seq<char>>,
    pub mode: ModeView,
    pub pending_unlock: Option<(usize, Seq<char>)>,
    pub current: Option<Seq<char>>,
    pub offset: usize,
    pub line_to_pos: Seq<Option<usize>>,
    pub item_heights: Seq<u16>,
    pub tabs_area: Rect,
    pub search_area: Rect,
    pub list_area: Rect,
}

/// A list with no workspaces and no rows, the cursor in the search field.
pub open spec fn empty_list() -> ListView {
    ListView {
        workspaces: Seq::empty(),
        tab: Tab::Tasks,
        input_mode: InputMode::Insert,
        focus: Focus::Search,
        pending: None,
        rows: Seq::empty(),
        filter: Seq::empty(),
        filtered: Seq::empty(),
        selected: 0,
        repo_rows: Seq::empty(),
        repo_filtered: Seq::empty(),
        repo_selected: 0,
        jobs: Seq::empty(),
        work_selected: 0,
        status_msg: None,
        mode: ModeView::List,
        pending_unlock: None,
        current: None,
        offset: 0,
        line_to_pos: Seq::empty(),
        item_heights: Seq::empty(),
        tabs_area: Rect::empty(),
        search_area: Rect::empty(),
        list_area: Rect::empty(),
    }
}

impl View for TaskList {
    type V = ListView;

    open spec fn view(&self) -> ListView {
        ListView {
            workspaces: self.workspaces@,
            tab: self.tab,
            input_mode: self.input_mode,
            focus: self.focus,
            pending: self.pending,
            rows: self.rows@,
            filter: self.filter@,
            filtered: self.filtered@,
            selected: self.selected,
            repo_rows: self.repo_rows@,
            repo_filtered: self.repo_filtered@,
            repo_selected: self.repo_selected,
            jobs: self.jobs@,
            work_selected: self.work_selected,
            status_msg: opt_view(self.status_msg),
            mode: self.mode@,
            pending_unlock: match self.pending_unlock {
                Some((i, s)) => Some((i, s@)),
                None => None,
            },
            current: opt_view(self.current),
            offset: self.offset,
            line_to_pos: self.line_to_pos@,
            item_heights: self.item_heights@,
            tabs_area: self.tabs_area,
            search_area: self.search_area,
            list_area: self.list_area,
        }
    }
}

/// `sel` kept within a list of `n`.
pub open spec fn clamped(sel: usize, n: nat) -> usize {
    if sel < n {
        sel
    } else if n == 0 {
        0
    } else {
        (n - 1) as usize
    }
}

/// The first position at or after `from` whose row has the slug.
pub open spec fn slug_from(rows: Seq<Row>, filtered: Seq<usize>, slug: Seq<char>, from: int) -> Option<usize>
    decreases filtered.len() - from,
{
    if from >= filtered.len() {
        None
    } else if rows[filtered[from] as int].slug@ == slug {
        Some(from as usize)
    } else {
        slug_from(rows, filtered, slug, from + 1)
    }
}

/// The first position at or after `from` whose row is the task `slug` of
/// workspace `ws`.
pub open spec fn task_from(rows: Seq<Row>, filtered: Seq<usize>, ws: usize, slug: Seq<char>, from: int) -> Option<usize>
    decreases filtered.len() - from,
{
    if from >= filtered.len() {
        None
    } else if rows[filtered[from] as int].ws_idx == ws && rows[filtered[from] as int].slug@ == slug {
        Some(from as usize)
    } else {
        task_from(rows, filtered, ws, slug, from + 1)
    }
}

/// A found position is one of the list, and its row has the slug.
pub proof fn slug_from_finds(rows: Seq<Row>, filtered: Seq<usize>, slug: Seq<char>, from: int)
    requires
        0 <= from,
        filtered.len() <= usize::MAX,
    ensures
        match slug_from(rows, filtered, slug, from) {
            Some(p) => from <= p < filtered.len() && rows[filtered[p as int] as int].slug@ == slug,
            None => forall|k: int| from <= k < filtered.len() ==> rows[#[trigger] filtered[k] as int].slug@ != slug,
        },
    decreases filtered.len() - from,
{
    if from < filtered.len() && rows[filtered[from] as int].slug@ != slug {
        slug_from_finds(rows, filtered, slug, from + 1);
    }
}

/// A found position is one of the list, and its row is that task; where none is
/// found, the task is not listed.
pub proof fn task_from_finds(rows: Seq<Row>, filtered: Seq<usize>, ws: usize, slug: Seq<char>, from: int)
    requires
        0 <= from,
        filtered.len() <= usize::MAX,
    ensures
        match task_from(rows, filtered, ws, slug, from) {
            Some(p) => from <= p < filtered.len() && rows[filtered[p as int] as int].ws_idx == ws
                && rows[filtered[p as int] as int].slug@ == slug,
            None => forall|k: int|
                from <= k < filtered.len() ==> !(rows[#[trigger] filtered[k] as int].ws_idx == ws
                    && rows[filtered[k] as int].slug@ == slug),
        },
    decreases filtered.len() - from,
{
    if from < filtered.len() && !(rows[filtered[from] as int].ws_idx == ws && rows[filtered[from] as int].slug@ == slug) {
        task_from_finds(rows, filtered, ws, slug, from + 1);
    }
}

/// The checklist of a task: the workspace's repos, ticked where the task has a
/// worktree.
pub open spec fn workspace_picks(repos: Seq<RepoConfig>, have: Seq<Seq<char>>) -> Seq<PickView> {
    Seq::new(
        repos.len(),
        |i: int|
            PickView {
                name: repos[i].name@,
                checked: have.contains(repos[i].name@),
                present: have.contains(repos[i].name@),
            },
    )
}

/// Whether a pick of that name is there.
pub open spec fn has_pick(picks: Seq<PickView>, name: Seq<char>) -> bool {
    exists|i: int| 0 <= i < picks.len() && (#[trigger] picks[i]).name == name
}

/// The checklist with a line for each worktree that has none: its repo has left
/// the workspace, and it could never be detached otherwise.
pub open spec fn with_strays(picks: Seq<PickView>, have: Seq<Seq<char>>) -> Seq<PickView>
    decreases have.len(),
{
    if have.len() == 0 {
        picks
    } else {
        let rest = with_strays(picks, have.drop_last());
        if has_pick(rest, have.last()) {
            rest
        } else {
            rest.push(PickView { name: have.last(), checked: true, present: true })
        }
    }
}

/// Every repo of a workspace, ticked.
pub open spec fn all_ticked(repos: Seq<RepoConfig>) -> Seq<(Seq<char>, bool)> {
    Seq::new(repos.len(), |i: int| (repos[i].name@, true))
}

impl ListView {
    /// The repos of a workspace; none of one that is not there.
    pub open spec fn repos_of(self, ws: usize) -> Seq<RepoConfig> {
        if ws < self.workspaces.len() {
            self.workspaces[ws as int].config.repos@
        } else {
            Seq::empty()
        }
    }

    /// What holds between events: the filtered lists are what the filter lets
    /// through, the cursor is in the search field exactly while typing filters,
    /// and an open form's cursor is on a field. A selection may lie beyond its
    /// list, where a click met a screen older than the list: then nothing is
    /// selected.
    pub open spec fn wf(self) -> bool {
        &&& self.rows.len() <= usize::MAX
        &&& self.repo_rows.len() <= usize::MAX
        &&& self.jobs.len() <= usize::MAX
        &&& self.filtered == rows_kept(self.rows, self.filter, self.rows.len() as int)
        &&& self.repo_filtered == repos_kept(self.repo_rows, self.filter, self.repo_rows.len() as int)
        &&& (self.focus == Focus::Search) == (self.input_mode == InputMode::Insert)
        &&& match self.mode {
            ModeView::Create(f) => f.wf(),
            ModeView::AddRepo(f) => f.wf(),
            ModeView::EditRepos(f) => f.wf(),
            _ => true,
        }
    }

    /// Whether the selections are on their lists.
    pub open spec fn on_list(self) -> bool {
        &&& self.selected == clamped(self.selected, self.filtered.len())
        &&& self.repo_selected == clamped(self.repo_selected, self.repo_filtered.len())
        &&& self.work_selected == clamped(self.work_selected, self.jobs.len())
    }

    /// With the message shown.
    pub open spec fn told(self, msg: Seq<char>) -> ListView {
        ListView { status_msg: Some(msg), ..self }
    }

    /// With no message.
    pub open spec fn hushed(self) -> ListView {
        ListView { status_msg: None, ..self }
    }

    /// In another mode.
    pub open spec fn in_mode(self, mode: ModeView) -> ListView {
        ListView { mode, ..self }
    }

    /// Filtered anew, the selections kept within what is left.
    pub open spec fn apply_filter(self) -> ListView {
        let filtered = rows_kept(self.rows, self.filter, self.rows.len() as int);
        let repo_filtered = repos_kept(self.repo_rows, self.filter, self.repo_rows.len() as int);
        ListView {
            filtered,
            repo_filtered,
            selected: clamped(self.selected, filtered.len()),
            repo_selected: clamped(self.repo_selected, repo_filtered.len()),
            ..self
        }
    }

    /// How many entries the tab shows.
    pub open spec fn cur_len(self) -> nat {
        match self.tab {
            Tab::Tasks => self.filtered.len(),
            Tab::Repos => self.repo_filtered.len(),
            Tab::Work => self.jobs.len(),
        }
    }

    /// The tab's selection.
    pub open spec fn cur_sel(self) -> usize {
        match self.tab {
            Tab::Tasks => self.selected,
            Tab::Repos => self.repo_selected,
            Tab::Work => self.work_selected,
        }
    }

    /// With the tab's selection on `i`.
    pub open spec fn with_sel(self, i: usize) -> ListView {
        match self.tab {
            Tab::Tasks => ListView { selected: i, ..self },
            Tab::Repos => ListView { repo_selected: i, ..self },
            Tab::Work => ListView { work_selected: i, ..self },
        }
    }

    /// With the cursor in the search field: Insert mode.
    pub open spec fn focus_search(self) -> ListView {
        ListView { focus: Focus::Search, input_mode: InputMode::Insert, ..self }
    }

    /// With the cursor on a row: Normal mode.
    pub open spec fn focus_list(self) -> ListView {
        ListView { focus: Focus::List, input_mode: InputMode::Normal, ..self }
    }

    /// The selected task.
    pub open spec fn selected_row(self) -> Option<Row> {
        if self.selected < self.filtered.len() {
            Some(self.rows[self.filtered[self.selected as int] as int])
        } else {
            None
        }
    }

    /// The selected repo.
    pub open spec fn selected_repo(self) -> Option<RepoRow> {
        if self.repo_selected < self.repo_filtered.len() {
            Some(self.repo_rows[self.repo_filtered[self.repo_selected as int] as int])
        } else {
            None
        }
    }

    /// Position of the task on screen beside the list.
    pub open spec fn own_row(self) -> Option<usize> {
        if self.tab != Tab::Tasks || self.current is None {
            None
        } else {
            slug_from(self.rows, self.filtered, self.current->0, 0)
        }
    }

    /// Down: from the search field into the list, after the task one sits in or
    /// at the top; within the list one further, not beyond the bottom.
    pub open spec fn step_down(self) -> ListView {
        let n = self.cur_len();
        if n == 0 {
            self
        } else if self.focus == Focus::Search {
            let from = match self.own_row() {
                Some(p) => p + 1,
                None => 0int,
            };
            self.focus_list().with_sel(if from < n {
                from as usize
            } else {
                (n - 1) as usize
            })
        } else if self.cur_sel() + 1 < n {
            self.with_sel((self.cur_sel() + 1) as usize)
        } else {
            self.with_sel((n - 1) as usize)
        }
    }

    /// Up: from the search field to the task above the one one sits in; within
    /// the list one back, and from the top to the search field.
    pub open spec fn step_up(self) -> ListView {
        if self.focus == Focus::Search {
            match self.own_row() {
                Some(p) => self.focus_list().with_sel(if p == 0 {
                    0
                } else {
                    (p - 1) as usize
                }),
                None => self,
            }
        } else if self.cur_sel() == 0 {
            self.focus_search()
        } else {
            self.with_sel((self.cur_sel() - 1) as usize)
        }
    }

    /// To the first entry.
    pub open spec fn move_top(self) -> ListView {
        self.focus_list().with_sel(0)
    }

    /// To the last entry.
    pub open spec fn move_bottom(self) -> ListView {
        let n = self.cur_len();
        self.focus_list().with_sel(if n == 0 {
            0
        } else {
            (n - 1) as usize
        })
    }

    /// The task whose window the selection has moved onto: it is open, and not
    /// the one on screen.
    pub open spec fn follows(self) -> Option<Seq<char>> {
        if self.tab != Tab::Tasks || self.focus != Focus::List {
            None
        } else {
            match self.selected_row() {
                Some(r) => if r.window_id is None || self.current == Some(r.slug@) {
                    None
                } else {
                    Some(r.slug@)
                },
                None => None,
            }
        }
    }

    /// With the rows found anew: sorted, filtered.
    pub open spec fn with_rows(self, rows: Seq<Row>) -> ListView {
        (ListView { rows: sorted_rows(rows), ..self }).apply_filter()
    }

    /// With the repos found anew: filtered.
    pub open spec fn with_repo_rows(self, rows: Seq<RepoRow>) -> ListView {
        (ListView { repo_rows: rows, ..self }).apply_filter()
    }

    /// With the selection on the task of that workspace and slug, if it is
    /// listed.
    pub open spec fn reselected(self, ws_idx: usize, slug: Seq<char>) -> ListView {
        match task_from(self.rows, self.filtered, ws_idx, slug, 0) {
            Some(p) => ListView { selected: p, ..self },
            None => self,
        }
    }

    /// The workspace of whatever is highlighted.
    pub open spec fn selected_ws(self) -> Option<usize> {
        match self.tab {
            Tab::Repos => match self.selected_repo() {
                Some(r) => Some(r.ws_idx),
                None => None,
            },
            _ => match self.selected_row() {
                Some(r) => Some(r.ws_idx),
                None => None,
            },
        }
    }

    /// With the new-task form open in the selected item's workspace.
    pub open spec fn start_create(self) -> ListView {
        match self.selected_ws() {
            None => self.told("select a task or repo first"@),
            Some(ws) => self.hushed().in_mode(
                ModeView::Create(
                    CreateView { ws_idx: ws, name: Seq::empty(), repos: all_ticked(self.repos_of(ws)), focus: 0 },
                ),
            ),
        }
    }

    /// With the add-repo form open in the selected item's workspace.
    pub open spec fn start_add_repo(self) -> ListView {
        match self.selected_ws() {
            None => self.told("select a repo first"@),
            Some(ws) => self.hushed().in_mode(
                ModeView::AddRepo(AddView { ws_idx: ws, url: Seq::empty(), name: Seq::empty(), focus: 0 }),
            ),
        }
    }

    /// The repo checklist of a task.
    pub open spec fn picks_for(self, r: Row) -> Seq<PickView> {
        with_strays(workspace_picks(self.repos_of(r.ws_idx), views(r.repos@)), views(r.repos@))
    }

    /// With the repo checklist of the selected task open.
    pub open spec fn start_edit_repos(self) -> ListView {
        match self.selected_row() {
            None => self.told("select a task first"@),
            Some(r) => if self.picks_for(r).len() == 0 {
                self.told("no repos in workspace — add one on the Repos tab"@)
            } else {
                self.hushed().in_mode(
                    ModeView::EditRepos(
                        EditView {
                            ws_idx: r.ws_idx,
                            slug: r.slug@,
                            title: r.title@,
                            picks: self.picks_for(r),
                            focus: 0,
                            confirm: false,
                        },
                    ),
                )
            },
        }
    }

    /// Asking whether to delete the selected task.
    pub open spec fn start_delete(self) -> ListView {
        match self.selected_row() {
            None => self,
            Some(r) => self.in_mode(
                ModeView::Confirm(
                    ConfirmView { ws_idx: r.ws_idx, slug: r.slug@, title: r.title@, tab_id: r.tab_id },
                ),
            ),
        }
    }

    /// With the rename form of the selected task open.
    pub open spec fn start_rename(self) -> ListView {
        match self.selected_row() {
            None => self,
            Some(r) => self.in_mode(
                ModeView::Rename(RenameView { ws_idx: r.ws_idx, slug: r.slug@, path: r.path@, buffer: r.title@ }),
            ),
        }
    }

    /// With an unlock queued for the selected task, if it wants a secret.
    pub open spec fn start_unlock(self) -> ListView {
        match self.selected_row() {
            None => self,
            Some(r) => if r.wants_secrets() {
                ListView { pending_unlock: Some((r.ws_idx, r.slug@)), ..self }
            } else {
                self.told("no pending secrets for that task"@)
            },
        }
    }

    /// What closing the selected task's window asks for.
    pub open spec fn closing(self) -> EffectView {
        match self.selected_row() {
            None => EffectView::Nothing,
            Some(r) => EffectView::CloseWindow { slug: r.slug@, path: r.path@, tab_id: r.tab_id },
        }
    }

    /// What opening the selected task asks for.
    pub open spec fn opening(self) -> EffectView {
        match self.selected_row() {
            None => EffectView::Nothing,
            Some(r) => EffectView::Open { ws_idx: r.ws_idx, slug: r.slug@ },
        }
    }

    /// What moving onto the selection asks for.
    pub open spec fn following(self) -> EffectView {
        match self.follows() {
            Some(slug) => EffectView::Switch(slug),
            None => EffectView::Nothing,
        }
    }

    /// What showing the tab asks for: repos are scanned once.
    pub open spec fn scanning(self) -> EffectView {
        if self.tab == Tab::Repos && self.repo_rows.len() == 0 {
            EffectView::ScanRepos
        } else {
            EffectView::Nothing
        }
    }

    /// A key to the command line: the list after it, and the command to run.
    pub open spec fn command_key(self, buffer: Seq<char>, key: KeyEvent) -> (ListView, Option<Seq<char>>) {
        match key.code {
            KeyCode::Esc => (self.in_mode(ModeView::List), None),
            KeyCode::Enter => (self.in_mode(ModeView::List), Some(trimmed(buffer))),
            KeyCode::Backspace => if erased(buffer).len() == 0 {
                (self.in_mode(ModeView::List), None)
            } else {
                (self.in_mode(ModeView::Command(erased(buffer))), None)
            },
            KeyCode::Char(c) => (self.in_mode(ModeView::Command(typed(buffer, c))), None),
            _ => (self, None),
        }
    }

    /// A key to the new-task form. The form stays until the task is there.
    pub open spec fn create_key(self, f: CreateView, key: KeyEvent) -> (ListView, EffectView) {
        match step_of(key) {
            FormStep::Cancel => (self.in_mode(ModeView::List), EffectView::Nothing),
            FormStep::Stay => (self.in_mode(ModeView::Create(f.pressed(key))), EffectView::Nothing),
            FormStep::Submit => match f.submitted() {
                Ok((name, repos)) => (self, EffectView::Create { ws_idx: f.ws_idx, name, repos }),
                Err(e) => (self.told(e), EffectView::Nothing),
            },
        }
    }

    /// A key to the add-repo form. The form stays until the repo is there.
    pub open spec fn add_key(self, f: AddView, key: KeyEvent) -> (ListView, EffectView) {
        match step_of(key) {
            FormStep::Cancel => (self.in_mode(ModeView::List), EffectView::Nothing),
            FormStep::Stay => (self.in_mode(ModeView::AddRepo(f.pressed(key))), EffectView::Nothing),
            FormStep::Submit => match f.submitted() {
                Ok((url, name)) => (self, EffectView::AddRepo { ws_idx: f.ws_idx, url, called: name }),
                Err(e) => (self.told(e), EffectView::Nothing),
            },
        }
    }

    /// What applying a checklist asks for.
    pub open spec fn setting(f: EditView) -> EffectView {
        EffectView::SetRepos {
            ws_idx: f.ws_idx,
            slug: f.slug,
            title: f.title,
            desired: desired_of(f.picks),
            added: added_of(f.picks).len(),
            removed: removed_of(f.picks).len(),
        }
    }

    /// A key to the repo checklist.
    pub open spec fn edit_key(self, f: EditView, key: KeyEvent) -> (ListView, EffectView) {
        match f.step(key) {
            EditStep::Cancel => (self.in_mode(ModeView::List), EffectView::Nothing),
            EditStep::Unchanged => (self.in_mode(ModeView::List).told("no repo changes"@), EffectView::Nothing),
            EditStep::Empty => (self.told("a task must keep at least one repo"@), EffectView::Nothing),
            EditStep::Apply => (self.in_mode(ModeView::List), ListView::setting(f)),
            EditStep::Stay => (self.in_mode(ModeView::EditRepos(f.pressed(key))), EffectView::Nothing),
        }
    }

    /// A key to the delete confirmation.
    pub open spec fn confirm_key(self, c: ConfirmView, key: KeyEvent) -> (ListView, EffectView) {
        if says_yes(key) {
            (
                self.in_mode(ModeView::List),
                EffectView::Delete { ws_idx: c.ws_idx, slug: c.slug, title: c.title, tab_id: c.tab_id },
            )
        } else {
            (self.in_mode(ModeView::List).hushed(), EffectView::Nothing)
        }
    }

    /// A key to the rename form.
    pub open spec fn rename_key(self, f: RenameView, key: KeyEvent) -> (ListView, EffectView) {
        match step_of(key) {
            FormStep::Cancel => (self.in_mode(ModeView::List), EffectView::Nothing),
            FormStep::Stay => (self.in_mode(ModeView::Rename(f.pressed(key))), EffectView::Nothing),
            FormStep::Submit => match f.submitted() {
                Ok(title) => (
                    self.in_mode(ModeView::List),
                    EffectView::Rename { ws_idx: f.ws_idx, slug: f.slug, path: f.path, title },
                ),
                Err(e) => (self.told(e), EffectView::Nothing),
            },
        }
    }

    /// One more character in the filter, or one less.
    pub open spec fn filtering(self, filter: Seq<char>) -> ListView {
        (ListView { filter, ..self.hushed().focus_search() }).apply_filter()
    }

    /// Whether the tasks are shown; told where they are not.
    pub open spec fn require_tasks(self) -> ListView {
        if self.tab == Tab::Tasks {
            self
        } else {
            self.told("switch to Tasks (gt) for that"@)
        }
    }
}

/// A well-formed list's filtered positions are positions of rows.
pub proof fn filtered_in_range(v: ListView)
    requires
        v.wf(),
    ensures
        v.filtered.len() <= v.rows.len(),
        forall|k: int| 0 <= k < v.filtered.len() ==> (#[trigger] v.filtered[k]) < v.rows.len(),
        v.repo_filtered.len() <= v.repo_rows.len(),
        forall|k: int| 0 <= k < v.repo_filtered.len() ==> (#[trigger] v.repo_filtered[k]) < v.repo_rows.len(),
{
    filtered_is_exact(v.rows, v.filter, v.rows.len() as int);
    filtered_repos_are_exact(v.repo_rows, v.filter, v.repo_rows.len() as int);
}

/// Moving and filtering keep the selections on their lists, and filtering brings
/// those of tasks and repos back onto them.
pub proof fn moving_stays_on_the_list(v: ListView)
    requires
        v.wf(),
        v.on_list(),
    ensures
        v.step_down().on_list(),
        v.step_up().on_list(),
        v.move_top().on_list(),
        v.move_bottom().on_list(),
        v.apply_filter().on_list(),
{
    filtered_in_range(v);
    if v.current is Some {
        slug_from_finds(v.rows, v.filtered, v.current->0, 0);
    }
}

/// Selecting the task of a workspace and slug keeps the selections on their
/// lists.
pub proof fn reselecting_stays_on_the_list(v: ListView, ws_idx: usize, slug: Seq<char>)
    requires
        v.wf(),
        v.on_list(),
    ensures
        v.reselected(ws_idx, slug).on_list(),
{
    filtered_in_range(v);
    task_from_finds(v.rows, v.filtered, ws_idx, slug, 0);
}

/// Tasks are listed by what they want of you: sections in their order, within
/// one the statuses in theirs, and within that the most recently active task
/// first.
pub proof fn the_latest_comes_first(rows: Seq<Row>, i: int, j: int)
    requires
        0 <= i < j < sorted_rows(rows).len(),
    ensures
        sorted_rows(rows)[i].section.rank() <= sorted_rows(rows)[j].section.rank(),
        sorted_rows(rows)[i].section.rank() == sorted_rows(rows)[j].section.rank() ==> sorted_rows(rows)[i].group.rank()
            <= sorted_rows(rows)[j].group.rank(),
        sorted_rows(rows)[i].section.rank() == sorted_rows(rows)[j].section.rank() && sorted_rows(rows)[i].group.rank()
            == sorted_rows(rows)[j].group.rank() ==> sorted_rows(rows)[i].activity >= sorted_rows(rows)[j].activity,
{
    rows_are_listed_in_order(rows);
    assert(!row_less(sorted_rows(rows)[j], sorted_rows(rows)[i]));
}

/// Every task found is listed, each once, and nothing else is.
pub proof fn sorting_loses_no_task(rows: Seq<Row>, r: Row)
    ensures
        sorted_rows(rows).len() == rows.len(),
        sorted_rows(rows).contains(r) <==> rows.contains(r),
        sorted_rows(rows).to_multiset().count(r) == rows.to_multiset().count(r),
{
    rows_are_listed_in_order(rows);
    broadcast use vstd::seq_lib::group_to_multiset_ensures;

    assert(sorted_rows(rows).to_multiset().count(r) > 0 <==> sorted_rows(rows).contains(r));
    assert(rows.to_multiset().count(r) > 0 <==> rows.contains(r));
}

/// A wanted secret decides a task's section, else its status does.
pub proof fn wanted_secrets_decide_the_section(r: Row)
    ensures
        r.secrets_pending@.len() > 0 || r.secrets_pending_set@.len() > 0 ==> r.section_now()
            == TaskGroup::SecretsPending,
        r.secrets_pending@.len() == 0 && r.secrets_pending_set@.len() == 0 ==> r.section_now() == r.status.group(),
{
}

/// A task passes the filter exactly where the filter's characters, spaces
/// aside, stand in its workspace's name and title, one after the other,
/// whatever the case.
pub proof fn filters_match_in_order(filter: Seq<char>, r: Row)
    requires
        filter.len() > 0,
    ensures
        row_passes(filter, r) ==> exists|places: Seq<int>| #[trigger]
            found_at(places, spaceless(lowercase(filter)), lowercase(r.ws_name@ + seq![' '] + r.title@)),
        (exists|places: Seq<int>| #[trigger]
            found_at(places, spaceless(lowercase(filter)), lowercase(r.ws_name@ + seq![' '] + r.title@)))
            ==> row_passes(filter, r),
{
    reveal_strlit(" ");
    assert(" "@ =~= seq![' ']);
    let needle = spaceless(lowercase(filter));
    let hay = lowercase(r.ws_name@ + seq![' '] + r.title@);
    if row_passes(filter, r) {
        let places = crate::text::in_order_embeds(needle, hay);
        assert(found_at(places, needle, hay));
    }
    if exists|places: Seq<int>| #[trigger] found_at(places, needle, hay) {
        let places = choose|places: Seq<int>| #[trigger] found_at(places, needle, hay);
        crate::text::embedding_is_in_order(needle, hay, places);
    }
}

/// See [`filters_match_in_order`], for a repo by workspace and name.
pub proof fn filters_match_repos_in_order(filter: Seq<char>, r: RepoRow)
    requires
        filter.len() > 0,
    ensures
        repo_passes(filter, r) ==> exists|places: Seq<int>| #[trigger]
            found_at(places, spaceless(lowercase(filter)), lowercase(r.ws_name@ + seq![' '] + r.name@)),
        (exists|places: Seq<int>| #[trigger]
            found_at(places, spaceless(lowercase(filter)), lowercase(r.ws_name@ + seq![' '] + r.name@))) ==> repo_passes(
            filter,
            r,
        ),
{
    reveal_strlit(" ");
    assert(" "@ =~= seq![' ']);
    let needle = spaceless(lowercase(filter));
    let hay = lowercase(r.ws_name@ + seq![' '] + r.name@);
    if repo_passes(filter, r) {
        let places = crate::text::in_order_embeds(needle, hay);
        assert(found_at(places, needle, hay));
    }
    if exists|places: Seq<int>| #[trigger] found_at(places, needle, hay) {
        let places = choose|places: Seq<int>| #[trigger] found_at(places, needle, hay);
        crate::text::embedding_is_in_order(needle, hay, places);
    }
}

/// Whether the characters of `needle` stand at those places of `hay`, each
/// after the one before.
pub open spec fn found_at(places: Seq<int>, needle: Seq<char>, hay: Seq<char>) -> bool {
    &&& places.len() == needle.len()
    &&& forall|i: int| 0 <= i < places.len() ==> 0 <= #[trigger] places[i] < hay.len() && hay[places[i]] == needle[i]
    &&& forall|i: int, j: int| 0 <= i < j < places.len() ==> #[trigger] places[i] < #[trigger] places[j]
}

/// The selected task is the one at the selection's place among those listed.
pub proof fn the_selection_is_what_is_listed_there(v: ListView)
    ensures
        v.selected < v.filtered.len() ==> v.selected_row() == Some(v.rows[v.filtered[v.selected as int] as int]),
        v.selected >= v.filtered.len() ==> v.selected_row() is None,
        v.repo_selected < v.repo_filtered.len() ==> v.selected_repo() == Some(
            v.repo_rows[v.repo_filtered[v.repo_selected as int] as int],
        ),
        v.repo_selected >= v.repo_filtered.len() ==> v.selected_repo() is None,
{
}

/// Whether two lists show the same things: all but the cursor is the same.
pub open spec fn shows_the_same(a: ListView, b: ListView) -> bool {
    &&& a.rows == b.rows
    &&& a.filter == b.filter
    &&& a.filtered == b.filtered
    &&& a.repo_rows == b.repo_rows
    &&& a.repo_filtered == b.repo_filtered
    &&& a.jobs == b.jobs
    &&& a.tab == b.tab
    &&& a.mode == b.mode
    &&& a.status_msg == b.status_msg
    &&& a.current == b.current
    &&& a.workspaces == b.workspaces
    &&& a.offset == b.offset
}

/// Down on a row goes one further and stops at the bottom; up goes one back,
/// and from the first row into the search field. Both leave everything else,
/// and each undoes the other.
pub proof fn rows_are_walked_one_by_one(v: ListView)
    requires
        v.focus == Focus::List,
        0 < v.cur_len() <= usize::MAX,
        v.cur_sel() < v.cur_len(),
        v.input_mode == InputMode::Normal,
    ensures
        v.cur_sel() + 1 < v.cur_len() ==> v.step_down().cur_sel() == v.cur_sel() + 1,
        v.cur_sel() + 1 == v.cur_len() ==> v.step_down().cur_sel() == v.cur_sel(),
        v.step_down().focus == Focus::List,
        v.cur_sel() > 0 ==> v.step_up().cur_sel() == v.cur_sel() - 1 && v.step_up().focus == Focus::List,
        v.cur_sel() == 0 ==> v.step_up().focus == Focus::Search && v.step_up().input_mode == InputMode::Insert,
        shows_the_same(v, v.step_down()),
        shows_the_same(v, v.step_up()),
        v.cur_sel() + 1 < v.cur_len() ==> v.step_down().step_up() == v,
        v.cur_sel() > 0 ==> v.step_up().step_down() == v,
{
}

/// From the search field, with no task on screen, down enters the list at the
/// top and up stays.
pub proof fn the_search_field_leads_to_the_top(v: ListView)
    requires
        v.focus == Focus::Search,
        v.current is None,
        v.cur_len() > 0,
    ensures
        v.step_down().focus == Focus::List,
        v.step_down().input_mode == InputMode::Normal,
        v.step_down().cur_sel() == 0,
        v.step_up() == v,
{
}

/// From the search field, down enters the list below the task on screen, or on
/// it where it is the last; up enters it above that task, or on it where it is
/// the first.
pub proof fn the_search_field_leads_beside_the_task_on_screen(v: ListView, p: int)
    requires
        v.focus == Focus::Search,
        v.tab == Tab::Tasks,
        0 <= p < v.filtered.len() <= usize::MAX,
        v.current == Some(v.rows[v.filtered[p] as int].slug@),
        forall|q: int| 0 <= q < p ==> (#[trigger] v.rows[v.filtered[q] as int]).slug@ != v.current->0,
    ensures
        v.step_down().focus == Focus::List,
        p + 1 < v.filtered.len() ==> v.step_down().selected == p + 1,
        p + 1 == v.filtered.len() ==> v.step_down().selected == p,
        v.step_up().focus == Focus::List,
        p > 0 ==> v.step_up().selected == p - 1,
        p == 0 ==> v.step_up().selected == 0,
{
    slug_from_is_first(v.rows, v.filtered, v.current->0, 0, p);
}

/// The first listed task of a slug is the one found.
proof fn slug_from_is_first(rows: Seq<Row>, filtered: Seq<usize>, slug: Seq<char>, from: int, p: int)
    requires
        0 <= from <= p < filtered.len() <= usize::MAX,
        rows[filtered[p] as int].slug@ == slug,
        forall|q: int| from <= q < p ==> (#[trigger] rows[filtered[q] as int]).slug@ != slug,
    ensures
        slug_from(rows, filtered, slug, from) == Some(p as usize),
    decreases p - from,
{
    if rows[filtered[from] as int].slug@ != slug {
        slug_from_is_first(rows, filtered, slug, from + 1, p);
    }
}

/// The top is the first entry, the bottom the last, whatever was selected.
pub proof fn the_ends_are_the_ends(v: ListView)
    ensures
        v.move_top().cur_sel() == 0,
        v.cur_len() > 0 && v.cur_len() <= usize::MAX ==> v.move_bottom().cur_sel() == v.cur_len() - 1,
        v.move_top().focus == Focus::List,
        v.move_bottom().focus == Focus::List,
        shows_the_same(v, v.move_top()),
        shows_the_same(v, v.move_bottom()),
{
}

/// Each tab has a selection of its own: moving on one leaves the others'.
pub proof fn tabs_keep_their_selections(v: ListView, i: usize)
    ensures
        v.with_sel(i).cur_sel() == i,
        v.tab == Tab::Tasks ==> v.with_sel(i).selected == i && v.with_sel(i).repo_selected == v.repo_selected && v.with_sel(
            i,
        ).work_selected == v.work_selected,
        v.tab == Tab::Repos ==> v.with_sel(i).repo_selected == i && v.with_sel(i).selected == v.selected && v.with_sel(
            i,
        ).work_selected == v.work_selected,
        v.tab == Tab::Work ==> v.with_sel(i).work_selected == i && v.with_sel(i).selected == v.selected && v.with_sel(
            i,
        ).repo_selected == v.repo_selected,
        v.tab == Tab::Tasks ==> v.cur_len() == v.filtered.len(),
        v.tab == Tab::Repos ==> v.cur_len() == v.repo_filtered.len(),
        v.tab == Tab::Work ==> v.cur_len() == v.jobs.len(),
        Tab::Tasks.next() == Tab::Repos,
        Tab::Repos.next() == Tab::Work,
        Tab::Work.next() == Tab::Tasks,
        shows_the_same(v, v.with_sel(i)),
{
}

/// The cursor types exactly while it is in the search field.
pub proof fn the_cursor_is_in_one_place(v: ListView)
    ensures
        v.focus_search().focus == Focus::Search,
        v.focus_search().input_mode == InputMode::Insert,
        v.focus_list().focus == Focus::List,
        v.focus_list().input_mode == InputMode::Normal,
        shows_the_same(v, v.focus_search()),
        shows_the_same(v, v.focus_list()),
        v.focus_search().selected == v.selected,
        v.focus_list().selected == v.selected,
{
}

/// Moving onto a task follows it to its window: one that is open and not on
/// screen yet. A closed task, the one on screen and any other tab do not lead
/// away.
pub proof fn only_open_tasks_are_followed(v: ListView)
    ensures
        v.following() is Nothing || v.following() is Switch,
        v.following() is Switch <==> v.tab == Tab::Tasks && v.focus == Focus::List && (v.selected_row() matches Some(r)
            && r.window_id is Some && v.current != Some(r.slug@)),
        v.following() matches EffectView::Switch(slug) ==> v.selected_row() matches Some(r) && slug == r.slug@,
{
}

/// Filtering shows the rows that pass and resets the message; a selection
/// beyond what is left comes back to the last of it.
pub proof fn filtering_narrows_the_list(v: ListView, filter: Seq<char>)
    requires
        v.wf(),
    ensures
        v.filtering(filter).filter == filter,
        v.filtering(filter).rows == v.rows,
        v.filtering(filter).focus == Focus::Search,
        v.filtering(filter).status_msg is None,
        forall|k: int|
            0 <= k < v.filtering(filter).filtered.len() ==> row_passes(
                filter,
                v.rows[#[trigger] v.filtering(filter).filtered[k] as int],
            ),
        forall|i: int|
            0 <= i < v.rows.len() && row_passes(filter, #[trigger] v.rows[i]) ==> v.filtering(filter).filtered.contains(
                i as usize,
            ),
        v.selected < v.filtering(filter).filtered.len() ==> v.filtering(filter).selected == v.selected,
        v.filtering(filter).filtered.len() > 0 && v.selected >= v.filtering(filter).filtered.len() ==> v.filtering(
            filter,
        ).selected == v.filtering(filter).filtered.len() - 1,
{
    filtered_is_exact(v.rows, filter, v.rows.len() as int);
}

/// The forms that a selected task opens are about that task: its workspace,
/// its slug, its title.
pub proof fn forms_are_about_the_selected_task(v: ListView, r: Row)
    requires
        v.selected_row() == Some(r),
    ensures
        v.start_delete().mode == ModeView::Confirm(
            ConfirmView { ws_idx: r.ws_idx, slug: r.slug@, title: r.title@, tab_id: r.tab_id },
        ),
        v.start_rename().mode == ModeView::Rename(
            RenameView { ws_idx: r.ws_idx, slug: r.slug@, path: r.path@, buffer: r.title@ },
        ),
        v.start_edit_repos().mode matches ModeView::EditRepos(f) ==> v.mode == v.start_edit_repos().mode || (f.ws_idx
            == r.ws_idx && f.slug == r.slug@ && f.title == r.title@ && f.focus == 0 && !f.confirm),
        v.tab == Tab::Tasks ==> (v.start_create().mode matches ModeView::Create(f) && f.ws_idx == r.ws_idx && f.name.len()
            == 0 && f.focus == 0),
        r.wants_secrets() ==> v.start_unlock().pending_unlock == Some((r.ws_idx, r.slug@)),
        !r.wants_secrets() ==> v.start_unlock().pending_unlock == v.pending_unlock && v.start_unlock().status_msg is Some,
        v.opening() == (EffectView::Open { ws_idx: r.ws_idx, slug: r.slug@ }),
        v.closing() == (EffectView::CloseWindow { slug: r.slug@, path: r.path@, tab_id: r.tab_id }),
        v.start_delete().rows == v.rows && v.start_rename().rows == v.rows && v.start_edit_repos().rows == v.rows,
        v.start_delete().selected == v.selected && v.start_rename().selected == v.selected,
{
}

/// Without a selected task nothing is opened, closed or asked for.
pub proof fn no_selection_no_action(v: ListView)
    requires
        v.selected_row() is None,
    ensures
        v.start_delete() == v,
        v.start_rename() == v,
        v.start_unlock() == v,
        v.opening() is Nothing,
        v.closing() is Nothing,
        v.start_edit_repos().mode == v.mode,
        v.start_edit_repos().status_msg is Some,
        v.tab == Tab::Tasks ==> v.start_create().mode == v.mode && v.start_create().status_msg is Some,
{
}

/// A task's checklist offers every repo of its workspace, ticked where the task
/// has it, and what else the task has after them.
pub proof fn checklists_start_from_what_is_there(v: ListView, r: Row, i: int)
    requires
        0 <= i < v.repos_of(r.ws_idx).len(),
    ensures
        i < v.picks_for(r).len(),
        v.picks_for(r)[i].name == v.repos_of(r.ws_idx)[i].name@,
        v.picks_for(r)[i].checked <==> views(r.repos@).contains(v.repos_of(r.ws_idx)[i].name@),
        v.picks_for(r)[i].present == v.picks_for(r)[i].checked,
{
    strays_come_after(workspace_picks(v.repos_of(r.ws_idx), views(r.repos@)), views(r.repos@), i);
}

/// The new-task form starts with every repo of its workspace ticked.
pub proof fn new_tasks_start_with_every_repo(repos: Seq<RepoConfig>, i: int)
    requires
        0 <= i < repos.len(),
    ensures
        all_ticked(repos).len() == repos.len(),
        all_ticked(repos)[i].0 == repos[i].name@,
        all_ticked(repos)[i].1,
{
}

/// The command line gathers what is typed, hands it over without the spaces
/// around it, and leaves on escape or when the last character is erased.
pub proof fn the_command_line_gathers(v: ListView, buffer: Seq<char>, m: crate::input::KeyModifiers, c: char)
    ensures
        ({
            let typed = v.command_key(buffer, KeyEvent { code: KeyCode::Char(c), modifiers: m });
            let entered = v.command_key(buffer, KeyEvent { code: KeyCode::Enter, modifiers: m });
            let left = v.command_key(buffer, KeyEvent { code: KeyCode::Esc, modifiers: m });
            let erased = v.command_key(buffer, KeyEvent { code: KeyCode::Backspace, modifiers: m });
            &&& typed.0.mode == ModeView::Command(buffer + seq![c])
            &&& typed.1 is None
            &&& entered.0.mode is List
            &&& entered.1 == Some(trimmed(buffer))
            &&& left.0.mode is List
            &&& left.1 is None
            &&& buffer.len() <= 1 ==> erased.0.mode is List
            &&& buffer.len() > 1 ==> erased.0.mode == ModeView::Command(buffer.take(buffer.len() - 1))
            &&& erased.1 is None
            &&& shows_the_same(v.in_mode(ModeView::List), left.0)
        }),
{
    assert(buffer.push(c) =~= buffer + seq![c]);
    if buffer.len() > 0 {
        assert(buffer.drop_last() =~= buffer.take(buffer.len() - 1));
    }
}

/// A form's wish is about the workspace and task it was opened for, and carries
/// what was typed and ticked.
pub proof fn wishes_carry_the_form(
    v: ListView,
    c: CreateView,
    a: AddView,
    e: EditView,
    d: ConfirmView,
    r: RenameView,
    key: KeyEvent,
)
    ensures
        v.create_key(c, key).1 matches EffectView::Create { ws_idx, name, repos } ==> {
            &&& key.code == KeyCode::Enter
            &&& ws_idx == c.ws_idx
            &&& name == trimmed(c.name)
            &&& name.len() > 0
            &&& repos.len() > 0
        },
        v.create_key(c, key).1 is Create || v.create_key(c, key).1 is Nothing,
        v.add_key(a, key).1 matches EffectView::AddRepo { ws_idx, url, called } ==> {
            &&& key.code == KeyCode::Enter
            &&& ws_idx == a.ws_idx
            &&& url == trimmed(a.url)
            &&& url.len() > 0
            &&& trimmed(a.name).len() > 0 ==> called == Some(trimmed(a.name))
            &&& trimmed(a.name).len() == 0 ==> called is None
        },
        v.add_key(a, key).1 is AddRepo || v.add_key(a, key).1 is Nothing,
        v.edit_key(e, key).1 matches EffectView::SetRepos { ws_idx, slug, title, desired, added, removed } ==> {
            &&& ws_idx == e.ws_idx
            &&& slug == e.slug
            &&& title == e.title
            &&& desired == desired_of(e.picks)
            &&& added == added_of(e.picks).len()
            &&& removed == removed_of(e.picks).len()
        },
        v.edit_key(e, key).1 is SetRepos || v.edit_key(e, key).1 is Nothing,
        v.confirm_key(d, key).1 is Delete <==> key.code == KeyCode::Char('y') || key.code == KeyCode::Char('Y')
            || key.code == KeyCode::Enter,
        v.confirm_key(d, key).1 matches EffectView::Delete { ws_idx, slug, title, tab_id } ==> ws_idx == d.ws_idx && slug
            == d.slug && title == d.title && tab_id == d.tab_id,
        v.confirm_key(d, key).1 is Delete || v.confirm_key(d, key).1 is Nothing,
        v.confirm_key(d, key).0.mode is List,
        v.rename_key(r, key).1 matches EffectView::Rename { ws_idx, slug, path, title } ==> {
            &&& key.code == KeyCode::Enter
            &&& ws_idx == r.ws_idx
            &&& slug == r.slug
            &&& path == r.path
            &&& title == trimmed(r.buffer)
            &&& title.len() > 0
        },
        v.rename_key(r, key).1 is Rename || v.rename_key(r, key).1 is Nothing,
{
}

/// Escape leaves a form with nothing done; handing in one that lacks something
/// keeps it open and says so.
pub proof fn forms_are_left_or_kept(v: ListView, c: CreateView, a: AddView, r: RenameView, m: crate::input::KeyModifiers)
    ensures
        ({
            let esc = KeyEvent { code: KeyCode::Esc, modifiers: m };
            let enter = KeyEvent { code: KeyCode::Enter, modifiers: m };
            &&& v.create_key(c, esc) == (v.in_mode(ModeView::List), EffectView::Nothing)
            &&& v.add_key(a, esc) == (v.in_mode(ModeView::List), EffectView::Nothing)
            &&& v.rename_key(r, esc) == (v.in_mode(ModeView::List), EffectView::Nothing)
            &&& trimmed(c.name).len() == 0 ==> v.create_key(c, enter).0.mode == v.mode && v.create_key(
                c,
                enter,
            ).0.status_msg is Some && v.create_key(c, enter).1 is Nothing
            &&& trimmed(a.url).len() == 0 ==> v.add_key(a, enter).0.mode == v.mode && v.add_key(a, enter).0.status_msg is Some
                && v.add_key(a, enter).1 is Nothing
            &&& trimmed(r.buffer).len() == 0 ==> v.rename_key(r, enter).0.mode == v.mode && v.rename_key(
                r,
                enter,
            ).0.status_msg is Some && v.rename_key(r, enter).1 is Nothing
            &&& trimmed(r.buffer).len() > 0 ==> v.rename_key(r, enter).0.mode is List && v.rename_key(r, enter).1 is Rename
            &&& trimmed(a.url).len() > 0 ==> v.add_key(a, enter).1 is AddRepo
        }),
{
}

/// Lines for strays are added behind the others.
proof fn strays_come_after(picks: Seq<PickView>, have: Seq<Seq<char>>, i: int)
    requires
        0 <= i < picks.len(),
    ensures
        i < with_strays(picks, have).len(),
        with_strays(picks, have)[i] == picks[i],
    decreases have.len(),
{
    if have.len() > 0 {
        strays_come_after(picks, have.drop_last(), i);
    }
}

} // verus!
