//! The tasks of one workspace as a list with a pop-up to create one.
use vstd::prelude::*;
use vstd::string::*;
use vstd::view::View as _;

use crate::forms::{checks, ticked, ticked_names};
use crate::input::Rect;
use crate::text::{
    cat, chars, collect, number_of, opt_view, own, parse_number, same, trim, trimmed, views,
};
use crate::workspace::{RepoConfig, Task, Workspace};
use crate::zellij::Tab;

verus! {

/// What is on screen.
#[derive(Debug, Clone, Copy, PartialEq, Eq, Structural)]
pub enum View {
    List,
    Create,
}

/// What a `y` would do.
#[derive(Debug, Clone, PartialEq)]
pub enum ConfirmAction {
    /// Delete the task of that slug.
    Delete(String),
}

/// The tasks of a workspace.
#[derive(Debug)]
pub struct App {
    pub workspace: Workspace,
    pub tasks: Vec<Task>,
    pub selected: usize,
    pub view: View,
    /// The names of the open tabs.
    pub zellij_tabs: Vec<String>,
    pub status_msg: Option<String>,
    pub create_name: String,
    pub create_repos: Vec<(String, bool)>,
    /// 0 = name, 1.. = repo checkboxes.
    pub create_focus: usize,
    pub confirm: Option<ConfirmAction>,
    /// Scroll offset, in items.
    pub list_offset: usize,
    pub list_area: Rect,
    pub create_name_area: Rect,
    pub create_repo_areas: Vec<Rect>,
}

/// The tasks of a workspace.
#[verifier::ext_equal]
pub struct AppView {
    pub workspace: Workspace,
    pub tasks: Seq<Task>,
    pub selected: usize,
    pub view: View,
    pub zellij_tabs: Seq<Seq<char>>,
    pub status_msg: Option<Seq<char>>,
    pub create_name: Seq<char>,
    pub create_repos: Seq<(Seq<char>, bool)>,
    pub create_focus: usize,
    pub confirm: Option<Seq<char>>,
    pub list_offset: usize,
    pub list_area: Rect,
    pub create_name_area: Rect,
    pub create_repo_areas: Seq<Rect>,
}

impl vstd::view::View for App {
    type V = AppView;

    open spec fn view(&self) -> AppView {
        AppView {
            workspace: self.workspace,
            tasks: self.tasks@,
            selected: self.selected,
            view: self.view,
            zellij_tabs: views(self.zellij_tabs@),
            status_msg: opt_view(self.status_msg),
            create_name: self.create_name@,
            create_repos: checks(self.create_repos@),
            create_focus: self.create_focus,
            confirm: match self.confirm {
                Some(ConfirmAction::Delete(s)) => Some(s@),
                None => None,
            },
            list_offset: self.list_offset,
            list_area: self.list_area,
            create_name_area: self.create_name_area,
            create_repo_areas: self.create_repo_areas@,
        }
    }
}

/// A speech bubble: the notification a stopped agent puts before its tab's
/// name.
pub const BUBBLE: char = '\u{1F4AC}';

/// `s` without any bubbles before it.
pub open spec fn without_bubbles(s: Seq<char>) -> Seq<char>
    decreases s.len(),
{
    if s.len() > 0 && s[0] == BUBBLE {
        without_bubbles(s.skip(1))
    } else {
        s
    }
}

/// Whether a tab is that task's, notification or not.
pub open spec fn tab_is(tab: Seq<char>, name: Seq<char>) -> bool {
    trimmed(without_bubbles(tab)) == name
}

/// Every repo, ticked.
pub open spec fn ticked_repos(repos: Seq<RepoConfig>) -> Seq<(Seq<char>, bool)> {
    Seq::new(repos.len(), |i: int| (repos[i].name@, true))
}

/// The first task at or after `from` with that slug.
pub open spec fn task_named(tasks: Seq<Task>, slug: Seq<char>, from: int) -> Option<int>
    decreases tasks.len() - from,
{
    if from >= tasks.len() {
        None
    } else if tasks[from].name@ == slug {
        Some(from)
    } else {
        task_named(tasks, slug, from + 1)
    }
}

impl AppView {
    /// The cursor of the pop-up is on a field.
    pub open spec fn wf(self) -> bool {
        self.create_focus <= self.create_repos.len()
    }

    /// The selected task.
    pub open spec fn selected_task(self) -> Option<Task> {
        if self.selected < self.tasks.len() {
            Some(self.tasks[self.selected as int])
        } else {
            None
        }
    }

    /// The tasks read anew: what was found, or why not. The selection stays on
    /// a task as long as there are any.
    pub open spec fn reloaded(self, found: Result<Vec<Task>, String>) -> AppView {
        let v = match found {
            Ok(tasks) => AppView { tasks: tasks@, ..self },
            Err(e) => AppView { status_msg: Some("error: "@ + e@), ..self },
        };
        if v.tasks.len() > 0 && v.selected >= v.tasks.len() {
            AppView { selected: (v.tasks.len() - 1) as usize, ..v }
        } else {
            v
        }
    }

    /// The tabs read anew, inside a session that can name them.
    pub open spec fn retabbed(self, inside: bool, tabs: Option<Vec<Tab>>) -> AppView {
        match tabs {
            Some(t) => if inside {
                AppView { zellij_tabs: Seq::new(t@.len(), |i: int| t@[i].name@), ..self }
            } else {
                self
            },
            None => self,
        }
    }

    /// With the cursor on the next field, round and round.
    pub open spec fn next_field(self) -> AppView {
        AppView {
            create_focus: if self.create_focus < self.create_repos.len() {
                (self.create_focus + 1) as usize
            } else {
                0
            },
            ..self
        }
    }

    /// With the cursor on the field before, round and round.
    pub open spec fn prev_field(self) -> AppView {
        AppView {
            create_focus: if self.create_focus == 0 {
                self.create_repos.len() as usize
            } else {
                (self.create_focus - 1) as usize
            },
            ..self
        }
    }

    /// What the pop-up asks for, or why it cannot.
    pub open spec fn create_request(self) -> Result<(Seq<char>, Seq<Seq<char>>), Seq<char>> {
        if trimmed(self.create_name).len() == 0 {
            Err("task name cannot be empty"@)
        } else if ticked(self.create_repos).len() == 0 {
            Err("select at least one repo"@)
        } else {
            Ok((trimmed(self.create_name), ticked(self.create_repos)))
        }
    }

    /// Whether the task is open in some tab.
    pub open spec fn task_is_open(self, name: Seq<char>) -> bool {
        exists|i: int| 0 <= i < self.zellij_tabs.len() && tab_is(#[trigger] self.zellij_tabs[i], name)
    }
}

/// A result as text.
pub open spec fn outcome_of<T>(r: Result<T, String>) -> Result<T, Seq<char>> {
    match r {
        Ok(t) => Ok(t),
        Err(e) => Err(e@),
    }
}

/// A tab id as it stands in a task's cache file.
pub open spec fn tab_id_spec(text: Option<Seq<char>>) -> Option<nat> {
    match text {
        Some(t) => number_of(trimmed(t), u32::MAX as nat),
        None => None,
    }
}

/// The tab id in a task's cache file, `text` being what the file holds. The id
/// is preferred over the tab's name, which may carry a notification.
pub fn tab_id(text: Option<&str>) -> (id: Option<u32>)
    ensures
        match (id, tab_id_spec(match text {
            Some(t) => Some(t@),
            None => None,
        })) {
            (Some(a), Some(b)) => a == b,
            (None, None) => true,
            _ => false,
        },
{
    match text {
        Some(t) => {
            let cs = chars(trim(t).as_str());
            assert(cs@.subrange(0, cs@.len() as int) =~= trimmed(t@));
            match parse_number(&cs, 0, cs.len(), u32::MAX as u64) {
                Some(n) => Some(n as u32),
                None => None,
            }
        },
        None => None,
    }
}

/// Every repo of a workspace, ticked.
fn all_repos(ws: &Workspace) -> (out: Vec<(String, bool)>)
    ensures
        checks(out@) == ticked_repos(ws.config.repos@),
{
    let mut out: Vec<(String, bool)> = Vec::new();
    let mut i: usize = 0;
    assert(checks(out@) =~= ticked_repos(ws.config.repos@).take(0));
    while i < ws.config.repos.len()
        invariant
            i <= ws.config.repos@.len(),
            checks(out@) == ticked_repos(ws.config.repos@).take(i as int),
        decreases ws.config.repos@.len() - i,
    {
        let ghost before = checks(out@);
        out.push((ws.config.repos[i].name.clone(), true));
        assert(checks(out@) =~= before.push(ticked_repos(ws.config.repos@)[i as int]));
        assert(checks(out@) =~= ticked_repos(ws.config.repos@).take(i + 1));
        i += 1;
    }
    assert(ticked_repos(ws.config.repos@).take(i as int) =~= ticked_repos(ws.config.repos@));
    out
}

/// Whether a tab is that task's.
fn is_tab(tab: &str, name: &str) -> (yes: bool)
    ensures
        yes == tab_is(tab@, name@),
{
    let cs = chars(tab);
    let mut i: usize = 0;
    assert(cs@.skip(0) =~= tab@);
    while i < cs.len() && cs[i] == BUBBLE
        invariant
            i <= cs@.len(),
            without_bubbles(tab@) == without_bubbles(cs@.skip(i as int)),
        decreases cs@.len() - i,
    {
        assert(cs@.skip(i as int).skip(1) =~= cs@.skip(i + 1));
        i += 1;
    }
    assert(cs@.subrange(i as int, cs@.len() as int) =~= cs@.skip(i as int));
    let rest = collect(&cs, i, cs.len());
    same(trim(rest.as_str()).as_str(), name)
}

/// What to do next to close a task's tab.
#[derive(Debug, Clone, Copy, PartialEq, Eq, Structural)]
pub enum CloseStep {
    /// Close the tab of that id.
    Close(u32),
    /// The tab is closed.
    Done,
    /// No tab is the task's.
    Missing,
}

/// The first tab at or after `from` that is that task's, notification or not.
pub open spec fn tab_from(tabs: Seq<Tab>, title: Seq<char>, from: int) -> Option<int>
    decreases tabs.len() - from,
{
    if from >= tabs.len() {
        None
    } else if tab_is(tabs[from].name@, title) {
        Some(from)
    } else {
        tab_from(tabs, title, from + 1)
    }
}

/// What to do next to close a task's tab: the id it is known by is tried
/// first, for a tab under a notification still goes by it; where there is none
/// or it is stale, the first tab of that name is closed.
pub open spec fn close_step_of(
    id: Option<u32>,
    closed_by_id: Option<bool>,
    tabs: Seq<Tab>,
    title: Seq<char>,
) -> CloseStep {
    match (closed_by_id, id) {
        (Some(true), _) => CloseStep::Done,
        (None, Some(i)) => CloseStep::Close(i),
        _ => match tab_from(tabs, title, 0) {
            Some(k) => CloseStep::Close(tabs[k].tab_id),
            None => CloseStep::Missing,
        },
    }
}

/// See [`close_step_of`]; `closed_by_id` is how closing by the id went, once it
/// was tried.
pub fn close_step(id: Option<u32>, closed_by_id: Option<bool>, tabs: &Vec<Tab>, title: &str) -> (s: CloseStep)
    ensures
        s == close_step_of(id, closed_by_id, tabs@, title@),
{
    match (closed_by_id, id) {
        (Some(true), _) => {
            return CloseStep::Done;
        },
        (None, Some(i)) => {
            return CloseStep::Close(i);
        },
        _ => {},
    }
    let mut k: usize = 0;
    while k < tabs.len()
        invariant
            k <= tabs@.len(),
            closed_by_id == Some(false) || (closed_by_id is None && id is None),
            tab_from(tabs@, title@, 0) == tab_from(tabs@, title@, k as int),
        decreases tabs@.len() - k,
    {
        if is_tab(tabs[k].name.as_str(), title) {
            return CloseStep::Close(tabs[k].tab_id);
        }
        k += 1;
    }
    CloseStep::Missing
}

/// A task with a tab is closed whatever became of its id, and no other tab is:
/// once the id has failed, the tab that is closed is the task's by name.
pub proof fn a_stale_id_falls_back_to_the_name(id: Option<u32>, tabs: Seq<Tab>, title: Seq<char>)
    ensures
        close_step_of(id, Some(false), tabs, title) is Missing <==> forall|k: int|
            0 <= k < tabs.len() ==> !tab_is((#[trigger] tabs[k]).name@, title),
        close_step_of(id, Some(false), tabs, title) matches CloseStep::Close(i) ==> exists|k: int|
            0 <= k < tabs.len() && (#[trigger] tabs[k]).tab_id == i && tab_is(tabs[k].name@, title),
        close_step_of(None, None, tabs, title) == close_step_of(id, Some(false), tabs, title),
{
    tab_from_finds(tabs, title, 0);
}

proof fn tab_from_finds(tabs: Seq<Tab>, title: Seq<char>, from: int)
    requires
        0 <= from,
    ensures
        match tab_from(tabs, title, from) {
            Some(k) => from <= k < tabs.len() && tab_is(tabs[k].name@, title),
            None => forall|k: int| from <= k < tabs.len() ==> !tab_is((#[trigger] tabs[k]).name@, title),
        },
    decreases tabs.len() - from,
{
    if from < tabs.len() && !tab_is(tabs[from].name@, title) {
        tab_from_finds(tabs, title, from + 1);
    }
}

impl App {
    /// The tasks of a workspace, none read yet.
    pub fn new(workspace: Workspace) -> (a: App)
        ensures
            a@.workspace == workspace,
            a@.tasks.len() == 0,
            a@.selected == 0,
            a@.view == View::List,
            a@.zellij_tabs.len() == 0,
            a@.status_msg is None,
            a@.create_name.len() == 0,
            a@.create_repos == ticked_repos(workspace.config.repos@),
            a@.create_focus == 0,
            a@.confirm is None,
            a@.list_offset == 0,
            a@.list_area == Rect::empty(),
            a@.create_name_area == Rect::empty(),
            a@.create_repo_areas.len() == 0,
            a@.wf(),
    {
        let create_repos = all_repos(&workspace);
        App {
            workspace,
            tasks: Vec::new(),
            selected: 0,
            view: View::List,
            zellij_tabs: Vec::new(),
            status_msg: None,
            create_name: String::new(),
            create_repos,
            create_focus: 0,
            confirm: None,
            list_offset: 0,
            list_area: Rect::empty(),
            create_name_area: Rect::empty(),
            create_repo_areas: Vec::new(),
        }
    }

    /// Take the tasks as found.
    pub fn reload_tasks(&mut self, found: Result<Vec<Task>, String>)
        requires
            old(self)@.wf(),
        ensures
            final(self)@ == old(self)@.reloaded(found),
            final(self)@.wf(),
    {
        match found {
            Ok(tasks) => {
                self.tasks = tasks;
            },
            Err(e) => {
                self.status_msg = Some(cat("error: ", e.as_str()));
            },
        }
        if self.tasks.len() > 0 && self.selected >= self.tasks.len() {
            self.selected = self.tasks.len() - 1;
        }
    }

    /// Take the open tabs: `inside` says whether this runs in a session, `tabs`
    /// what it named.
    pub fn reload_tabs(&mut self, inside: bool, tabs: Option<Vec<Tab>>)
        requires
            old(self)@.wf(),
        ensures
            final(self)@ == old(self)@.retabbed(inside, tabs),
            final(self)@.wf(),
    {
        if !inside {
            return;
        }
        if let Some(t) = tabs {
            let ghost want = Seq::new(t@.len(), |i: int| t@[i].name@);
            let mut names: Vec<String> = Vec::new();
            let mut i: usize = 0;
            assert(views(names@) =~= want.take(0));
            while i < t.len()
                invariant
                    i <= t@.len(),
                    want == Seq::new(t@.len(), |i: int| t@[i].name@),
                    views(names@) == want.take(i as int),
                decreases t@.len() - i,
            {
                let ghost before = views(names@);
                names.push(t[i].name.clone());
                assert(views(names@) =~= before.push(want[i as int]));
                assert(views(names@) =~= want.take(i + 1));
                i += 1;
            }
            assert(want.take(i as int) =~= want);
            self.zellij_tabs = names;
        }
    }

    /// Whether the task has a tab. A leading speech bubble on the tab's name is
    /// not part of it.
    pub fn task_is_open(&self, name: &str) -> (yes: bool)
        ensures
            yes == self@.task_is_open(name@),
    {
        let mut i: usize = 0;
        while i < self.zellij_tabs.len()
            invariant
                i <= self.zellij_tabs@.len(),
                forall|k: int| 0 <= k < i ==> !tab_is(#[trigger] self@.zellij_tabs[k], name@),
            decreases self.zellij_tabs@.len() - i,
        {
            assert(self@.zellij_tabs[i as int] == self.zellij_tabs@[i as int]@);
            if is_tab(self.zellij_tabs[i].as_str(), name) {
                return true;
            }
            i += 1;
        }
        false
    }

    /// The selected task.
    pub fn selected_task(&self) -> (t: Option<&Task>)
        ensures
            match (t, self@.selected_task()) {
                (Some(a), Some(b)) => *a == b,
                (None, None) => true,
                _ => false,
            },
    {
        if self.selected < self.tasks.len() {
            Some(&self.tasks[self.selected])
        } else {
            None
        }
    }

    /// One up.
    pub fn move_up(&mut self)
        requires
            old(self)@.wf(),
        ensures
            final(self)@ == (AppView {
                selected: if old(self)@.selected > 0 {
                    (old(self)@.selected - 1) as usize
                } else {
                    0
                },
                ..old(self)@
            }),
            final(self)@.wf(),
    {
        if self.selected > 0 {
            self.selected -= 1;
        }
    }

    /// One down, not beyond the last task.
    pub fn move_down(&mut self)
        requires
            old(self)@.wf(),
        ensures
            final(self)@ == (AppView {
                selected: if old(self)@.selected + 1 < old(self)@.tasks.len() {
                    (old(self)@.selected + 1) as usize
                } else {
                    old(self)@.selected
                },
                ..old(self)@
            }),
            final(self)@.wf(),
    {
        if self.selected < self.tasks.len() && self.selected + 1 < self.tasks.len() {
            self.selected += 1;
        }
    }

    /// Open the pop-up, with the workspace read anew where it was found: its
    /// repos may have changed.
    pub fn enter_create(&mut self, found: Option<Workspace>)
        requires
            old(self)@.wf(),
        ensures
            final(self)@ == (AppView {
                create_name: Seq::empty(),
                create_focus: 0,
                create_repos: match found {
                    Some(ws) => ticked_repos(ws.config.repos@),
                    None => old(self)@.create_repos,
                },
                workspace: match found {
                    Some(ws) => ws,
                    None => old(self)@.workspace,
                },
                status_msg: None,
                view: View::Create,
                ..old(self)@
            }),
            final(self)@.wf(),
    {
        self.create_name = String::new();
        assert(self.create_name@ =~= Seq::<char>::empty());
        self.create_focus = 0;
        if let Some(ws) = found {
            self.create_repos = all_repos(&ws);
            self.workspace = ws;
        }
        self.status_msg = None;
        self.view = View::Create;
    }

    /// Put the pop-up away.
    pub fn cancel_create(&mut self)
        requires
            old(self)@.wf(),
        ensures
            final(self)@ == (AppView { view: View::List, status_msg: None, ..old(self)@ }),
            final(self)@.wf(),
    {
        self.view = View::List;
        self.status_msg = None;
    }

    /// The repos that are ticked.
    pub fn selected_repo_names(&self) -> (names: Vec<String>)
        ensures
            views(names@) == ticked(self@.create_repos),
    {
        ticked_names(&self.create_repos)
    }

    /// The next field of the pop-up, round and round.
    pub fn create_focus_next(&mut self)
        requires
            old(self)@.wf(),
        ensures
            final(self)@ == old(self)@.next_field(),
            final(self)@.wf(),
    {
        if self.create_focus < self.create_repos.len() {
            self.create_focus += 1;
        } else {
            self.create_focus = 0;
        }
    }

    /// The field before, round and round.
    pub fn create_focus_prev(&mut self)
        requires
            old(self)@.wf(),
        ensures
            final(self)@ == old(self)@.prev_field(),
            final(self)@.wf(),
    {
        if self.create_focus == 0 {
            self.create_focus = self.create_repos.len();
        } else {
            self.create_focus -= 1;
        }
    }

    /// Tick or untick the repo under the cursor.
    pub fn toggle_repo(&mut self)
        requires
            old(self)@.wf(),
        ensures
            final(self)@ == (if old(self)@.create_focus > 0 {
                let i = old(self)@.create_focus - 1;
                let (name, on) = old(self)@.create_repos[i];
                AppView { create_repos: old(self)@.create_repos.update(i, (name, !on)), ..old(self)@ }
            } else {
                old(self)@
            }),
            final(self)@.wf(),
    {
        if self.create_focus > 0 {
            let i: usize = self.create_focus - 1;
            let ghost before = self.create_repos@;
            let on: bool = self.create_repos[i].1;
            self.create_repos[i].1 = !on;
            assert(self.create_repos@ =~= before.update(i as int, (before[i as int].0, !on)));
            assert(checks(self.create_repos@) =~= checks(before).update(i as int, (before[i as int].0@, !on)));
        }
    }

    /// What the pop-up asks for: the task's name and its repos, or why it
    /// cannot.
    pub fn create_request(&self) -> (r: Result<(String, Vec<String>), String>)
        ensures
            match (r, self@.create_request()) {
                (Ok((n, v)), Ok((m, w))) => n@ == m && views(v@) == w,
                (Err(e), Err(f)) => e@ == f,
                _ => false,
            },
    {
        let name = trim(self.create_name.as_str());
        if name.as_str().is_empty() {
            return Err(own("task name cannot be empty"));
        }
        let repos = self.selected_repo_names();
        assert(views(repos@).len() == repos@.len());
        if repos.len() == 0 {
            return Err(own("select at least one repo"));
        }
        Ok((name, repos))
    }

    /// Create the task: `made` is how making it turned out, `found` and `tabs`
    /// what was read after. Nothing is made where the pop-up cannot ask for it.
    pub fn do_create(
        &mut self,
        made: Result<(), String>,
        found: Result<Vec<Task>, String>,
        inside: bool,
        tabs: Option<Vec<Tab>>,
    ) -> (r: Result<(), String>)
        requires
            old(self)@.wf(),
        ensures
            match old(self)@.create_request() {
                Err(e) => outcome_of(r) == Err::<(), Seq<char>>(e) && final(self)@ == old(self)@,
                Ok(_) => outcome_of(r) == outcome_of(made) && final(self)@ == (match made {
                    Ok(_) => (AppView { view: View::List, ..old(self)@ }).reloaded(found).retabbed(inside, tabs),
                    Err(_) => old(self)@,
                }),
            },
            final(self)@.wf(),
    {
        if let Err(e) = self.create_request() {
            return Err(e);
        }
        match made {
            Ok(_) => {
                self.view = View::List;
                self.reload_tasks(found);
                self.reload_tabs(inside, tabs);
                Ok(())
            },
            Err(e) => Err(e),
        }
    }

    /// Open the selected task, or close its tab: `done` is how that turned out,
    /// `tabs` what was read after.
    fn on_selected(&mut self, done: Result<(), String>, inside: bool, tabs: Option<Vec<Tab>>) -> (r: Result<(), String>)
        requires
            old(self)@.wf(),
        ensures
            match old(self)@.selected_task() {
                None => outcome_of(r) == Err::<(), Seq<char>>("no task selected"@) && final(self)@ == old(self)@,
                Some(_) => outcome_of(r) == outcome_of(done) && final(self)@ == (match done {
                    Ok(_) => old(self)@.retabbed(inside, tabs),
                    Err(_) => old(self)@,
                }),
            },
            final(self)@.wf(),
    {
        if self.selected_task().is_none() {
            return Err(own("no task selected"));
        }
        match done {
            Ok(_) => {
                self.reload_tabs(inside, tabs);
                Ok(())
            },
            Err(e) => Err(e),
        }
    }

    /// Open the selected task: `opened` is how that turned out, `tabs` what was
    /// read after. Nothing is opened where no task is selected.
    pub fn do_open(&mut self, opened: Result<(), String>, inside: bool, tabs: Option<Vec<Tab>>) -> (r: Result<
        (),
        String,
    >)
        requires
            old(self)@.wf(),
        ensures
            match old(self)@.selected_task() {
                None => outcome_of(r) == Err::<(), Seq<char>>("no task selected"@) && final(self)@ == old(self)@,
                Some(_) => outcome_of(r) == outcome_of(opened) && final(self)@ == (match opened {
                    Ok(_) => old(self)@.retabbed(inside, tabs),
                    Err(_) => old(self)@,
                }),
            },
            final(self)@.wf(),
    {
        self.on_selected(opened, inside, tabs)
    }

    /// Close the selected task's tab: `closed` is how that turned out, `tabs`
    /// what was read after. Nothing is closed where no task is selected.
    pub fn do_close(&mut self, closed: Result<(), String>, inside: bool, tabs: Option<Vec<Tab>>) -> (r: Result<
        (),
        String,
    >)
        requires
            old(self)@.wf(),
        ensures
            match old(self)@.selected_task() {
                None => outcome_of(r) == Err::<(), Seq<char>>("no task selected"@) && final(self)@ == old(self)@,
                Some(_) => outcome_of(r) == outcome_of(closed) && final(self)@ == (match closed {
                    Ok(_) => old(self)@.retabbed(inside, tabs),
                    Err(_) => old(self)@,
                }),
            },
            final(self)@.wf(),
    {
        self.on_selected(closed, inside, tabs)
    }

    /// The place of the task to be deleted, whose tab is closed first.
    pub fn delete_target(&self) -> (at: Option<usize>)
        ensures
            match (at, match self@.confirm {
                Some(slug) => task_named(self@.tasks, slug, 0),
                None => None,
            }) {
                (Some(a), Some(b)) => a == b && a < self@.tasks.len(),
                (None, None) => true,
                _ => false,
            },
    {
        let slug: &str = match &self.confirm {
            Some(ConfirmAction::Delete(s)) => s.as_str(),
            None => {
                return None;
            },
        };
        let mut i: usize = 0;
        while i < self.tasks.len()
            invariant
                i <= self.tasks@.len(),
                self@.confirm == Some(slug@),
                task_named(self@.tasks, slug@, 0) == task_named(self@.tasks, slug@, i as int),
            decreases self.tasks@.len() - i,
        {
            if same(self.tasks[i].name.as_str(), slug) {
                return Some(i);
            }
            i += 1;
        }
        None
    }

    /// Delete the task that was asked about: `gone` is how that turned out,
    /// `found` and `tabs` what was read after. The question is answered either
    /// way.
    pub fn do_delete(
        &mut self,
        gone: Result<(), String>,
        found: Result<Vec<Task>, String>,
        inside: bool,
        tabs: Option<Vec<Tab>>,
    ) -> (r: Result<(), String>)
        requires
            old(self)@.wf(),
        ensures
            match old(self)@.confirm {
                None => outcome_of(r) == Err::<(), Seq<char>>("no pending delete"@) && final(self)@ == old(self)@,
                Some(_) => {
                    let v = AppView { confirm: None, ..old(self)@ };
                    outcome_of(r) == outcome_of(gone) && final(self)@ == (match gone {
                        Ok(_) => v.reloaded(found).retabbed(inside, tabs),
                        Err(_) => v,
                    })
                },
            },
            final(self)@.wf(),
    {
        if self.confirm.is_none() {
            return Err(own("no pending delete"));
        }
        self.confirm = None;
        match gone {
            Ok(_) => {
                self.reload_tasks(found);
                self.reload_tabs(inside, tabs);
                Ok(())
            },
            Err(e) => Err(e),
        }
    }
}

/// A notification on a tab's name never hides that its task is open.
pub proof fn bubbles_do_not_hide_tabs(tab: Seq<char>, name: Seq<char>)
    requires
        tab_is(tab, name),
    ensures
        tab_is(seq![BUBBLE] + tab, name),
{
    assert((seq![BUBBLE] + tab).skip(1) =~= tab);
}

/// Going to the next field and back is where one was, either way round.
pub proof fn popup_fields_cycle(v: AppView)
    requires
        v.wf(),
        v.create_repos.len() <= usize::MAX,
    ensures
        v.next_field().prev_field() == v,
        v.prev_field().next_field() == v,
{
}

} // verus!
