//! What the task list does: filtering, moving, opening forms, handing them in.
use vstd::prelude::*;
use vstd::string::*;

use crate::forms::{
    checks, erased, says_yes, typed, AddRepoForm, Confirm, CreateForm, EditReposForm, EditStep,
    FormStep, PickView, RenameForm, RepoPick,
};
use crate::input::{KeyCode, KeyEvent, Rect};
use crate::list::{
    all_ticked, empty_list, filtered_in_range, has_pick, passes, repos_kept, rows_kept, slug_from,
    slug_from_finds, sort_rows, task_from, task_from_finds, with_strays, workspace_picks, Effect, Focus,
    InputMode, ListView, Mode, RepoRow, Row, Tab, TaskList,
};
use crate::text::{
    cat3, contains, is_some_of, lowercase, opt_view, own, same, spaceless, subseq_match, to_lowercase,
    trim, vec_fits, views,
};
use crate::workspace::RepoConfig;

verus! {

/// Whether `text` passes a filter whose lower-case form is `needle`.
fn text_passes(needle: &str, text: &str, filter: Ghost<Seq<char>>) -> (yes: bool)
    requires
        needle@ == lowercase(filter@),
        filter@.len() == 0 ==> needle@.len() == 0,
    ensures
        yes == passes(filter@, text@),
{
    if needle.is_empty() {
        assert(spaceless(needle@) =~= Seq::empty());
        return true;
    }
    let low = to_lowercase(text);
    subseq_match(needle, low.as_str())
}

/// A copy of a checklist's lines.
fn workspace_lines(repos: &Vec<RepoConfig>, have: &Vec<String>) -> (picks: Vec<RepoPick>)
    ensures
        views(picks@) == workspace_picks(repos@, views(have@)),
{
    let mut picks: Vec<RepoPick> = Vec::new();
    let mut i: usize = 0;
    while i < repos.len()
        invariant
            i <= repos@.len(),
            picks@.len() == i,
            forall|k: int| 0 <= k < i ==> (#[trigger] picks@[k])@ == workspace_picks(repos@, views(have@))[k],
        decreases repos@.len() - i,
    {
        let there: bool = contains(have, repos[i].name.as_str());
        picks.push(RepoPick { name: repos[i].name.clone(), checked: there, present: there });
        i += 1;
    }
    assert(views(picks@) =~= workspace_picks(repos@, views(have@)));
    picks
}

/// Whether a pick of that name is there.
fn pick_there(picks: &Vec<RepoPick>, name: &str) -> (yes: bool)
    ensures
        yes == has_pick(views(picks@), name@),
{
    let mut i: usize = 0;
    while i < picks.len()
        invariant
            i <= picks@.len(),
            forall|k: int| 0 <= k < i ==> (#[trigger] views(picks@)[k]).name != name@,
        decreases picks@.len() - i,
    {
        if same(picks[i].name.as_str(), name) {
            assert(views(picks@)[i as int].name == name@);
            return true;
        }
        i += 1;
    }
    false
}

/// A line for each worktree that has none.
fn add_strays(picks: Vec<RepoPick>, have: &Vec<String>) -> (out: Vec<RepoPick>)
    ensures
        views(out@) == with_strays(views(picks@), views(have@)),
{
    let ghost base = views(picks@);
    let ghost whole = views(have@);
    let mut out: Vec<RepoPick> = picks;
    let mut i: usize = 0;
    assert(whole.take(0) =~= Seq::<Seq<char>>::empty());
    while i < have.len()
        invariant
            i <= have@.len(),
            whole == views(have@),
            views(out@) == with_strays(base, whole.take(i as int)),
        decreases have@.len() - i,
    {
        assert(whole.take(i + 1).drop_last() =~= whole.take(i as int));
        assert(whole.take(i + 1).last() == have@[i as int]@);
        if !pick_there(&out, have[i].as_str()) {
            let ghost before = views(out@);
            out.push(RepoPick { name: have[i].clone(), checked: true, present: true });
            assert(views(out@) =~= before.push(PickView { name: have@[i as int]@, checked: true, present: true }));
        }
        i += 1;
    }
    assert(whole.take(whole.len() as int) =~= whole);
    out
}

impl TaskList {
    /// A list with no workspaces and no rows.
    pub fn empty() -> (l: TaskList)
        ensures
            l@ == empty_list(),
            l@.wf(),
    {
        TaskList {
            workspaces: Vec::new(),
            tab: Tab::Tasks,
            input_mode: InputMode::Insert,
            focus: Focus::Search,
            pending: None,
            rows: Vec::new(),
            filter: String::new(),
            filtered: Vec::new(),
            selected: 0,
            repo_rows: Vec::new(),
            repo_filtered: Vec::new(),
            repo_selected: 0,
            jobs: Vec::new(),
            work_selected: 0,
            status_msg: None,
            mode: Mode::List,
            pending_unlock: None,
            current: None,
            offset: 0,
            line_to_pos: Vec::new(),
            item_heights: Vec::new(),
            tabs_area: Rect::empty(),
            search_area: Rect::empty(),
            list_area: Rect::empty(),
        }
    }

    /// Show a message.
    pub fn tell(&mut self, msg: String)
        ensures
            final(self)@ == old(self)@.told(msg@),
            old(self)@.wf() ==> final(self)@.wf(),
    {
        self.status_msg = Some(msg);
    }

    // ── Filtering ────────────────────────────────────────────────────────────

    /// Filter anew.
    pub fn apply_filter(&mut self)
        ensures
            final(self)@ == old(self)@.apply_filter(),
    {
        let ghost v = self@;
        let needle = to_lowercase(self.filter.as_str());
        let ghost filter = self.filter@;
        let mut kept: Vec<usize> = Vec::new();
        let mut i: usize = 0;
        while i < self.rows.len()
            invariant
                i <= self.rows@.len(),
                needle@ == lowercase(filter),
                filter.len() == 0 ==> needle@.len() == 0,
                kept@ == rows_kept(self.rows@, filter, i as int),
            decreases self.rows@.len() - i,
        {
            let r = &self.rows[i];
            let text = cat3(r.ws_name.as_str(), " ", r.title.as_str());
            if text_passes(needle.as_str(), text.as_str(), Ghost(filter)) {
                kept.push(i);
            }
            i += 1;
        }
        let mut repos: Vec<usize> = Vec::new();
        let mut j: usize = 0;
        while j < self.repo_rows.len()
            invariant
                j <= self.repo_rows@.len(),
                needle@ == lowercase(filter),
                filter.len() == 0 ==> needle@.len() == 0,
                repos@ == repos_kept(self.repo_rows@, filter, j as int),
            decreases self.repo_rows@.len() - j,
        {
            let r = &self.repo_rows[j];
            let text = cat3(r.ws_name.as_str(), " ", r.name.as_str());
            if text_passes(needle.as_str(), text.as_str(), Ghost(filter)) {
                repos.push(j);
            }
            j += 1;
        }
        self.filtered = kept;
        self.repo_filtered = repos;
        if self.selected >= self.filtered.len() {
            self.selected = self.filtered.len().saturating_sub(1);
        }
        if self.repo_selected >= self.repo_filtered.len() {
            self.repo_selected = self.repo_filtered.len().saturating_sub(1);
        }
        assert(self@ =~= v.apply_filter());
    }

    /// The rows found anew: sort and filter them.
    pub fn set_rows(&mut self, rows: Vec<Row>)
        requires
            old(self)@.wf(),
        ensures
            final(self)@ == old(self)@.with_rows(rows@),
            final(self)@.wf(),
    {
        self.rows = sort_rows(rows);
        proof {
            vec_fits(self.rows);
        }
        self.apply_filter();
    }

    /// The repos found anew: filter them.
    pub fn set_repo_rows(&mut self, rows: Vec<RepoRow>)
        requires
            old(self)@.wf(),
        ensures
            final(self)@ == old(self)@.with_repo_rows(rows@),
            final(self)@.wf(),
    {
        self.repo_rows = rows;
        proof {
            vec_fits(self.repo_rows);
        }
        self.apply_filter();
    }

    /// Put the selection on the task of that workspace and slug, if it is
    /// listed.
    pub fn reselect(&mut self, ws_idx: usize, slug: &str)
        requires
            old(self)@.wf(),
        ensures
            final(self)@ == old(self)@.reselected(ws_idx, slug@),
            final(self)@.wf(),
    {
        proof {
            vec_fits(self.filtered);
            task_from_finds(self@.rows, self@.filtered, ws_idx, slug@, 0);
        }
        if let Some(p) = self.position_in(ws_idx, slug) {
            self.selected = p;
        }
    }

    /// Position of the first listed task with that slug.
    pub fn position_of(&self, slug: &str) -> (p: Option<usize>)
        requires
            self@.wf(),
        ensures
            p == slug_from(self@.rows, self@.filtered, slug@, 0),
    {
        proof {
            filtered_in_range(self@);
        }
        let mut i: usize = 0;
        while i < self.filtered.len()
            invariant
                i <= self.filtered@.len(),
                forall|k: int| 0 <= k < self.filtered@.len() ==> (#[trigger] self.filtered@[k]) < self.rows@.len(),
                slug_from(self@.rows, self@.filtered, slug@, 0) == slug_from(self@.rows, self@.filtered, slug@, i as int),
            decreases self.filtered@.len() - i,
        {
            if same(self.rows[self.filtered[i]].slug.as_str(), slug) {
                return Some(i);
            }
            i += 1;
        }
        None
    }

    /// Position of the first listed task of that workspace and slug.
    pub fn position_in(&self, ws: usize, slug: &str) -> (p: Option<usize>)
        requires
            self@.wf(),
        ensures
            p == task_from(self@.rows, self@.filtered, ws, slug@, 0),
    {
        proof {
            filtered_in_range(self@);
        }
        let mut i: usize = 0;
        while i < self.filtered.len()
            invariant
                i <= self.filtered@.len(),
                forall|k: int| 0 <= k < self.filtered@.len() ==> (#[trigger] self.filtered@[k]) < self.rows@.len(),
                task_from(self@.rows, self@.filtered, ws, slug@, 0) == task_from(
                    self@.rows,
                    self@.filtered,
                    ws,
                    slug@,
                    i as int,
                ),
            decreases self.filtered@.len() - i,
        {
            let r = &self.rows[self.filtered[i]];
            if r.ws_idx == ws && same(r.slug.as_str(), slug) {
                return Some(i);
            }
            i += 1;
        }
        None
    }

    // ── Moving ───────────────────────────────────────────────────────────────

    /// How many entries the tab shows.
    pub fn cur_len(&self) -> (n: usize)
        ensures
            n == self@.cur_len(),
    {
        match self.tab {
            Tab::Tasks => self.filtered.len(),
            Tab::Repos => self.repo_filtered.len(),
            Tab::Work => self.jobs.len(),
        }
    }

    /// The tab's selection.
    pub fn cur_sel(&self) -> (i: usize)
        ensures
            i == self@.cur_sel(),
    {
        match self.tab {
            Tab::Tasks => self.selected,
            Tab::Repos => self.repo_selected,
            Tab::Work => self.work_selected,
        }
    }

    /// Put the tab's selection on `i`.
    pub fn set_cur_sel(&mut self, i: usize)
        ensures
            final(self)@ == old(self)@.with_sel(i),
            old(self)@.wf() ==> final(self)@.wf(),
    {
        match self.tab {
            Tab::Tasks => self.selected = i,
            Tab::Repos => self.repo_selected = i,
            Tab::Work => self.work_selected = i,
        }
    }

    /// The search field gets the cursor: Insert mode.
    pub fn focus_search(&mut self)
        ensures
            final(self)@ == old(self)@.focus_search(),
            old(self)@.wf() ==> final(self)@.wf(),
    {
        self.focus = Focus::Search;
        self.input_mode = InputMode::Insert;
    }

    /// The list gets the cursor: Normal mode.
    pub fn focus_list(&mut self)
        ensures
            final(self)@ == old(self)@.focus_list(),
            old(self)@.wf() ==> final(self)@.wf(),
    {
        self.focus = Focus::List;
        self.input_mode = InputMode::Normal;
    }

    /// The selected task.
    pub fn selected_row(&self) -> (r: Option<&Row>)
        requires
            self@.wf(),
        ensures
            match (r, self@.selected_row()) {
                (Some(a), Some(b)) => *a == b,
                (None, None) => true,
                _ => false,
            },
    {
        proof {
            filtered_in_range(self@);
        }
        if self.selected < self.filtered.len() {
            Some(&self.rows[self.filtered[self.selected]])
        } else {
            None
        }
    }

    /// Position of the task on screen beside the list; `None` off the Tasks
    /// tab, or when the filter hides it.
    pub fn own_row(&self) -> (p: Option<usize>)
        requires
            self@.wf(),
        ensures
            p == self@.own_row(),
    {
        if self.tab != Tab::Tasks {
            return None;
        }
        match &self.current {
            Some(slug) => self.position_of(slug.as_str()),
            None => None,
        }
    }

    /// See [`ListView::step_down`].
    pub fn step_down(&mut self)
        requires
            old(self)@.wf(),
        ensures
            final(self)@ == old(self)@.step_down(),
            final(self)@.wf(),
    {
        let n: usize = self.cur_len();
        if n == 0 {
            return;
        }
        match self.focus {
            Focus::Search => {
                let from: usize = match self.own_row() {
                    Some(p) => {
                        proof {
                            vec_fits(self.filtered);
                            slug_from_finds(self@.rows, self@.filtered, self@.current->0, 0);
                        }
                        p + 1
                    },
                    None => 0,
                };
                self.focus_list();
                self.set_cur_sel(if from < n { from } else { n - 1 });
            },
            Focus::List => {
                let at: usize = self.cur_sel();
                self.set_cur_sel(if at < n - 1 { at + 1 } else { n - 1 });
            },
        }
    }

    /// See [`ListView::step_up`].
    pub fn step_up(&mut self)
        requires
            old(self)@.wf(),
        ensures
            final(self)@ == old(self)@.step_up(),
            final(self)@.wf(),
    {
        match self.focus {
            Focus::Search => {
                if let Some(p) = self.own_row() {
                    proof {
                        vec_fits(self.filtered);
                        slug_from_finds(self@.rows, self@.filtered, self@.current->0, 0);
                    }
                    self.focus_list();
                    self.set_cur_sel(if p == 0 { 0 } else { p - 1 });
                }
            },
            Focus::List => {
                if self.cur_sel() == 0 {
                    self.focus_search();
                } else {
                    let at: usize = self.cur_sel();
                    self.set_cur_sel(at - 1);
                }
            },
        }
    }

    /// To the first entry.
    pub fn move_top(&mut self)
        requires
            old(self)@.wf(),
        ensures
            final(self)@ == old(self)@.move_top(),
            final(self)@.wf(),
    {
        self.focus_list();
        self.set_cur_sel(0);
    }

    /// To the last entry.
    pub fn move_bottom(&mut self)
        requires
            old(self)@.wf(),
        ensures
            final(self)@ == old(self)@.move_bottom(),
            final(self)@.wf(),
    {
        self.focus_list();
        let n: usize = self.cur_len();
        self.set_cur_sel(n.saturating_sub(1));
    }

    /// The window that the selection has moved onto, to be switched to.
    pub fn follow(&self) -> (e: Effect)
        requires
            self@.wf(),
        ensures
            e@ == self@.following(),
    {
        if self.tab != Tab::Tasks || self.focus != Focus::List {
            return Effect::Nothing;
        }
        match self.selected_row() {
            Some(r) => {
                if r.window_id.is_none() || is_some_of(&self.current, r.slug.as_str()) {
                    Effect::Nothing
                } else {
                    Effect::Switch(r.slug.clone())
                }
            },
            None => Effect::Nothing,
        }
    }

    // ── Opening forms ────────────────────────────────────────────────────────

    /// Workspace index of whatever is currently highlighted.
    pub fn selected_ws_idx(&self) -> (ws: Option<usize>)
        requires
            self@.wf(),
        ensures
            ws == self@.selected_ws(),
    {
        proof {
            filtered_in_range(self@);
        }
        match self.tab {
            Tab::Repos => {
                if self.repo_selected < self.repo_filtered.len() {
                    Some(self.repo_rows[self.repo_filtered[self.repo_selected]].ws_idx)
                } else {
                    None
                }
            },
            _ => match self.selected_row() {
                Some(r) => Some(r.ws_idx),
                None => None,
            },
        }
    }

    /// Every repo of a workspace, ticked.
    fn ws_repos(&self, ws: usize) -> (out: Vec<(String, bool)>)
        ensures
            checks(out@) == all_ticked(self@.repos_of(ws)),
    {
        let mut out: Vec<(String, bool)> = Vec::new();
        if ws < self.workspaces.len() {
            let mut i: usize = 0;
            while i < self.workspaces[ws as usize].config.repos.len()
                invariant
                    ws < self.workspaces@.len(),
                    i <= self.workspaces@[ws as int].config.repos@.len(),
                    out@.len() == i,
                    forall|k: int|
                        0 <= k < i ==> (#[trigger] out@[k]).0@ == self.workspaces@[ws as int].config.repos@[k].name@
                            && out@[k].1,
                decreases self.workspaces@[ws as int].config.repos@.len() - i,
            {
                out.push((self.workspaces[ws].config.repos[i].name.clone(), true));
                i += 1;
            }
        }
        assert(checks(out@) =~= all_ticked(self@.repos_of(ws)));
        out
    }

    /// Open the new-task form in the selected item's workspace.
    pub fn start_create(&mut self)
        requires
            old(self)@.wf(),
        ensures
            final(self)@ == old(self)@.start_create(),
            final(self)@.wf(),
    {
        let ghost v = self@;
        match self.selected_ws_idx() {
            None => self.tell(own("select a task or repo first")),
            Some(ws) => {
                let repos = self.ws_repos(ws);
                self.status_msg = None;
                let name = String::new();
                assert(name@ =~= Seq::<char>::empty());
                proof {
                    vec_fits(repos);
                }
                assert(checks(repos@).len() == repos@.len());
                self.mode = Mode::Create(CreateForm { ws_idx: ws, name, repos, focus: 0 });
                assert(self@ =~= v.start_create());
            },
        }
    }

    /// Open the add-repo form in the selected item's workspace.
    pub fn start_add_repo(&mut self)
        requires
            old(self)@.wf(),
        ensures
            final(self)@ == old(self)@.start_add_repo(),
            final(self)@.wf(),
    {
        match self.selected_ws_idx() {
            None => self.tell(own("select a repo first")),
            Some(ws) => {
                self.status_msg = None;
                let url = String::new();
                let name = String::new();
                assert(name@ =~= Seq::<char>::empty());
                assert(url@ =~= Seq::<char>::empty());
                self.mode = Mode::AddRepo(AddRepoForm { ws_idx: ws, url, name, focus: 0 });
            },
        }
    }

    /// Open the repo checklist for the selected task, prefilled with the
    /// worktrees it already has.
    pub fn start_edit_repos(&mut self)
        requires
            old(self)@.wf(),
        ensures
            final(self)@ == old(self)@.start_edit_repos(),
            final(self)@.wf(),
    {
        let ghost v = self@;
        let form = match self.selected_row() {
            None => None,
            Some(r) => {
                let picks: Vec<RepoPick> = if r.ws_idx < self.workspaces.len() {
                    workspace_lines(&self.workspaces[r.ws_idx].config.repos, &r.repos)
                } else {
                    let none: Vec<RepoPick> = Vec::new();
                    assert(views(none@) =~= workspace_picks(v.repos_of(r.ws_idx), views(r.repos@)));
                    none
                };
                let picks = add_strays(picks, &r.repos);
                assert(views(picks@) == v.picks_for(*r));
                assert(views(picks@).len() == picks@.len());
                Some(
                    EditReposForm {
                        ws_idx: r.ws_idx,
                        slug: r.slug.clone(),
                        title: r.title.clone(),
                        picks,
                        focus: 0,
                        confirm: false,
                    },
                )
            },
        };
        match form {
            None => self.tell(own("select a task first")),
            Some(f) => {
                if f.picks.len() == 0 {
                    self.tell(own("no repos in workspace — add one on the Repos tab"));
                } else {
                    self.status_msg = None;
                    self.mode = Mode::EditRepos(f);
                }
            },
        }
    }

    /// Ask whether to delete the selected task.
    pub fn start_delete(&mut self)
        requires
            old(self)@.wf(),
        ensures
            final(self)@ == old(self)@.start_delete(),
            final(self)@.wf(),
    {
        let confirm = match self.selected_row() {
            None => None,
            Some(r) => Some(
                Confirm { ws_idx: r.ws_idx, slug: r.slug.clone(), title: r.title.clone(), tab_id: r.tab_id },
            ),
        };
        if let Some(c) = confirm {
            self.mode = Mode::Confirm(c);
        }
    }

    /// Open the rename form for the selected task.
    pub fn start_rename(&mut self)
        requires
            old(self)@.wf(),
        ensures
            final(self)@ == old(self)@.start_rename(),
            final(self)@.wf(),
    {
        let form = match self.selected_row() {
            None => None,
            Some(r) => Some(
                RenameForm {
                    ws_idx: r.ws_idx,
                    slug: r.slug.clone(),
                    path: r.path.clone(),
                    buffer: r.title.clone(),
                },
            ),
        };
        if let Some(f) = form {
            self.mode = Mode::Rename(f);
        }
    }

    /// Queue an unlock for the selected task, if it wants a secret.
    pub fn start_unlock(&mut self)
        requires
            old(self)@.wf(),
        ensures
            final(self)@ == old(self)@.start_unlock(),
            final(self)@.wf(),
    {
        let wanted = match self.selected_row() {
            None => {
                return;
            },
            Some(r) => if r.has_secrets() {
                Some((r.ws_idx, r.slug.clone()))
            } else {
                None
            },
        };
        match wanted {
            Some(w) => {
                self.pending_unlock = Some(w);
            },
            None => self.tell(own("no pending secrets for that task")),
        }
    }

    /// What closing the selected task's window asks for.
    pub fn close_selected(&self) -> (e: Effect)
        requires
            self@.wf(),
        ensures
            e@ == self@.closing(),
    {
        match self.selected_row() {
            None => Effect::Nothing,
            Some(r) => Effect::CloseWindow { slug: r.slug.clone(), path: r.path.clone(), tab_id: r.tab_id },
        }
    }

    /// What opening the selected task asks for.
    pub fn open_selected(&self) -> (e: Effect)
        requires
            self@.wf(),
        ensures
            e@ == self@.opening(),
    {
        match self.selected_row() {
            None => Effect::Nothing,
            Some(r) => Effect::Open { ws_idx: r.ws_idx, slug: r.slug.clone() },
        }
    }

    /// What showing the tab asks for.
    pub fn scan(&self) -> (e: Effect)
        ensures
            e@ == self@.scanning(),
    {
        if self.tab == Tab::Repos && self.repo_rows.len() == 0 {
            Effect::ScanRepos
        } else {
            Effect::Nothing
        }
    }

    /// Whether the tasks are shown; says so where they are not.
    pub fn require_tasks(&mut self) -> (yes: bool)
        ensures
            yes == (old(self)@.tab == Tab::Tasks),
            final(self)@ == old(self)@.require_tasks(),
            old(self)@.wf() ==> final(self)@.wf(),
    {
        if self.tab == Tab::Tasks {
            true
        } else {
            self.tell(own("switch to Tasks (gt) for that"));
            false
        }
    }

    // ── Forms ────────────────────────────────────────────────────────────────

    /// A key to the command line. Returns the command to run.
    pub fn command_key(&mut self, key: KeyEvent) -> (cmd: Option<String>)
        requires
            old(self)@.wf(),
            old(self)@.mode is Command,
        ensures
            final(self)@ == old(self)@.command_key(old(self)@.mode->Command_0, key).0,
            opt_view(cmd) == old(self)@.command_key(old(self)@.mode->Command_0, key).1,
            final(self)@.wf(),
    {
        let ghost v = self@;
        let mut mode = Mode::List;
        core::mem::swap(&mut mode, &mut self.mode);
        if let Mode::Command(buffer) = mode {
            let mut buffer = buffer;
            match key.code {
                KeyCode::Esc => {
                    return None;
                },
                KeyCode::Enter => {
                    return Some(trim(buffer.as_str()));
                },
                KeyCode::Backspace => {
                    let _ = buffer.pop();
                    if buffer.as_str().is_empty() {
                        return None;
                    }
                },
                KeyCode::Char(c) => buffer.push(c),
                _ => {},
            }
            self.mode = Mode::Command(buffer);
            assert(self@ =~= v.command_key(v.mode->Command_0, key).0);
        }
        None
    }

    /// A key to the new-task form.
    pub fn create_key(&mut self, key: KeyEvent) -> (e: Effect)
        requires
            old(self)@.wf(),
            old(self)@.mode is Create,
        ensures
            final(self)@ == old(self)@.create_key(old(self)@.mode->Create_0, key).0,
            e@ == old(self)@.create_key(old(self)@.mode->Create_0, key).1,
            final(self)@.wf(),
    {
        let ghost v = self@;
        let mut mode = Mode::List;
        core::mem::swap(&mut mode, &mut self.mode);
        let mut effect = Effect::Nothing;
        if let Mode::Create(form) = mode {
            let mut form = form;
            match form.press(key) {
                FormStep::Cancel => {
                    return Effect::Nothing;
                },
                FormStep::Stay => {},
                FormStep::Submit => {
                    match form.submit() {
                        Ok((name, repos)) => {
                            effect = Effect::Create { ws_idx: form.ws_idx, name, repos };
                        },
                        Err(e) => {
                            self.status_msg = Some(e);
                        },
                    }
                },
            }
            self.mode = Mode::Create(form);
            assert(self@ =~= v.create_key(v.mode->Create_0, key).0);
        }
        effect
    }

    /// A key to the add-repo form.
    pub fn addrepo_key(&mut self, key: KeyEvent) -> (e: Effect)
        requires
            old(self)@.wf(),
            old(self)@.mode is AddRepo,
        ensures
            final(self)@ == old(self)@.add_key(old(self)@.mode->AddRepo_0, key).0,
            e@ == old(self)@.add_key(old(self)@.mode->AddRepo_0, key).1,
            final(self)@.wf(),
    {
        let ghost v = self@;
        let mut mode = Mode::List;
        core::mem::swap(&mut mode, &mut self.mode);
        let mut effect = Effect::Nothing;
        if let Mode::AddRepo(form) = mode {
            let mut form = form;
            match form.press(key) {
                FormStep::Cancel => {
                    return Effect::Nothing;
                },
                FormStep::Stay => {},
                FormStep::Submit => {
                    match form.submit() {
                        Ok((url, name)) => {
                            effect = Effect::AddRepo { ws_idx: form.ws_idx, url, called: name };
                        },
                        Err(e) => {
                            self.status_msg = Some(e);
                        },
                    }
                },
            }
            self.mode = Mode::AddRepo(form);
            assert(self@ =~= v.add_key(v.mode->AddRepo_0, key).0);
        }
        effect
    }

    /// A key to the repo checklist.
    pub fn editrepos_key(&mut self, key: KeyEvent) -> (e: Effect)
        requires
            old(self)@.wf(),
            old(self)@.mode is EditRepos,
        ensures
            final(self)@ == old(self)@.edit_key(old(self)@.mode->EditRepos_0, key).0,
            e@ == old(self)@.edit_key(old(self)@.mode->EditRepos_0, key).1,
            final(self)@.wf(),
    {
        let ghost v = self@;
        let mut mode = Mode::List;
        core::mem::swap(&mut mode, &mut self.mode);
        if let Mode::EditRepos(form) = mode {
            let mut form = form;
            match form.press(key) {
                EditStep::Cancel => {
                    return Effect::Nothing;
                },
                EditStep::Unchanged => {
                    self.tell(own("no repo changes"));
                    return Effect::Nothing;
                },
                EditStep::Apply => {
                    let added = form.added();
                    let removed = form.removed();
                    let desired = form.desired();
                    assert(views(added@).len() == added@.len());
                    assert(views(removed@).len() == removed@.len());
                    return Effect::SetRepos {
                        ws_idx: form.ws_idx,
                        slug: form.slug,
                        title: form.title,
                        desired,
                        added: added.len(),
                        removed: removed.len(),
                    };
                },
                EditStep::Empty => self.tell(own("a task must keep at least one repo")),
                EditStep::Stay => {},
            }
            self.mode = Mode::EditRepos(form);
            assert(self@ =~= v.edit_key(v.mode->EditRepos_0, key).0);
        }
        Effect::Nothing
    }

    /// A key to the delete confirmation.
    pub fn confirm_key(&mut self, key: KeyEvent) -> (e: Effect)
        requires
            old(self)@.wf(),
            old(self)@.mode is Confirm,
        ensures
            final(self)@ == old(self)@.confirm_key(old(self)@.mode->Confirm_0, key).0,
            e@ == old(self)@.confirm_key(old(self)@.mode->Confirm_0, key).1,
            final(self)@.wf(),
    {
        let mut mode = Mode::List;
        core::mem::swap(&mut mode, &mut self.mode);
        if !says_yes(key) {
            self.status_msg = None;
            return Effect::Nothing;
        }
        if let Mode::Confirm(c) = mode {
            return Effect::Delete { ws_idx: c.ws_idx, slug: c.slug, title: c.title, tab_id: c.tab_id };
        }
        Effect::Nothing
    }

    /// A key to the rename form.
    pub fn rename_key(&mut self, key: KeyEvent) -> (e: Effect)
        requires
            old(self)@.wf(),
            old(self)@.mode is Rename,
        ensures
            final(self)@ == old(self)@.rename_key(old(self)@.mode->Rename_0, key).0,
            e@ == old(self)@.rename_key(old(self)@.mode->Rename_0, key).1,
            final(self)@.wf(),
    {
        let ghost v = self@;
        let mut mode = Mode::List;
        core::mem::swap(&mut mode, &mut self.mode);
        if let Mode::Rename(form) = mode {
            let mut form = form;
            match form.press(key) {
                FormStep::Cancel => {
                    return Effect::Nothing;
                },
                FormStep::Stay => {},
                FormStep::Submit => {
                    match form.submit() {
                        Ok(title) => {
                            return Effect::Rename { ws_idx: form.ws_idx, slug: form.slug, path: form.path, title };
                        },
                        Err(e) => {
                            self.status_msg = Some(e);
                        },
                    }
                },
            }
            self.mode = Mode::Rename(form);
            assert(self@ =~= v.rename_key(v.mode->Rename_0, key).0);
        }
        Effect::Nothing
    }

    /// Type a character into the filter.
    pub fn filter_type(&mut self, c: char)
        requires
            old(self)@.wf(),
        ensures
            final(self)@ == old(self)@.filtering(typed(old(self)@.filter, c)),
            final(self)@.wf(),
    {
        self.status_msg = None;
        self.focus_search();
        self.filter.push(c);
        self.apply_filter();
    }

    /// Take a character off the filter.
    pub fn filter_erase(&mut self)
        requires
            old(self)@.wf(),
        ensures
            final(self)@ == old(self)@.filtering(erased(old(self)@.filter)),
            final(self)@.wf(),
    {
        self.status_msg = None;
        self.focus_search();
        let _ = self.filter.pop();
        self.apply_filter();
    }
}

} // verus!
