//! The forms of the task list: new task, add repo, edit repos, confirm delete,
//! rename.
use vstd::prelude::*;
use vstd::string::*;

use crate::input::{KeyCode, KeyEvent, KeyModifiers};
use crate::text::{own, trim, trimmed, views};

verus! {

/// What a key did to a form.
#[derive(Debug, Clone, Copy, PartialEq, Eq, Structural)]
pub enum FormStep {
    /// The form is left, nothing done.
    Cancel,
    /// The form is handed in.
    Submit,
    /// The form stays.
    Stay,
}

// ── New task ─────────────────────────────────────────────────────────────────

/// Create-task form (workspace already chosen). `focus`: 0 = name,
/// 1.. = repo checkboxes.
#[derive(Debug)]
pub struct CreateForm {
    pub ws_idx: usize,
    pub name: String,
    pub repos: Vec<(String, bool)>,
    pub focus: usize,
}

/// A create-task form.
#[verifier::ext_equal]
pub struct CreateView {
    pub ws_idx: usize,
    pub name: Seq<char>,
    pub repos: Seq<(Seq<char>, bool)>,
    pub focus: usize,
}

/// Named checkboxes.
pub open spec fn checks(s: Seq<(String, bool)>) -> Seq<(Seq<char>, bool)> {
    Seq::new(s.len(), |i: int| (s[i].0@, s[i].1))
}

impl View for CreateForm {
    type V = CreateView;

    open spec fn view(&self) -> CreateView {
        CreateView { ws_idx: self.ws_idx, name: self.name@, repos: checks(self.repos@), focus: self.focus }
    }
}

/// The field after `focus` of `n`, round and round.
pub open spec fn next_of(focus: usize, n: nat) -> usize {
    if focus + 1 >= n {
        0
    } else {
        (focus + 1) as usize
    }
}

/// The field before `focus` of `n`, round and round.
pub open spec fn prev_of(focus: usize, n: nat) -> usize {
    if focus == 0 {
        (n - 1) as usize
    } else {
        (focus - 1) as usize
    }
}

/// Going on and going back undo each other.
pub proof fn next_and_prev_undo(focus: usize, n: nat)
    requires
        focus < n <= usize::MAX,
    ensures
        prev_of(next_of(focus, n), n) == focus,
        next_of(prev_of(focus, n), n) == focus,
        next_of(focus, n) < n,
        prev_of(focus, n) < n,
{
}

/// A name with one more character.
pub open spec fn typed(s: Seq<char>, c: char) -> Seq<char> {
    s.push(c)
}

/// A name with its last character taken off.
pub open spec fn erased(s: Seq<char>) -> Seq<char> {
    if s.len() == 0 {
        s
    } else {
        s.drop_last()
    }
}

/// The names that are ticked.
pub open spec fn ticked(s: Seq<(Seq<char>, bool)>) -> Seq<Seq<char>>
    decreases s.len(),
{
    if s.len() == 0 {
        Seq::empty()
    } else if s.last().1 {
        ticked(s.drop_last()).push(s.last().0)
    } else {
        ticked(s.drop_last())
    }
}

/// The names of `repos` that are ticked.
pub fn ticked_names(repos: &Vec<(String, bool)>) -> (out: Vec<String>)
    ensures
        views(out@) == ticked(checks(repos@)),
{
    let ghost whole = checks(repos@);
    let mut out: Vec<String> = Vec::new();
    let mut i: usize = 0;
    assert(views(out@) =~= ticked(whole.take(0)));
    while i < repos.len()
        invariant
            i <= repos@.len(),
            whole == checks(repos@),
            views(out@) == ticked(whole.take(i as int)),
        decreases repos@.len() - i,
    {
        assert(whole.take(i + 1).drop_last() =~= whole.take(i as int));
        assert(whole.take(i + 1).last() == whole[i as int]);
        if repos[i].1 {
            let ghost before = views(out@);
            out.push(repos[i].0.clone());
            assert(views(out@) =~= before.push(whole[i as int].0));
        }
        i += 1;
    }
    assert(whole.take(whole.len() as int) =~= whole);
    out
}

impl CreateView {
    /// How many fields there are.
    pub open spec fn field_count(self) -> nat {
        1 + self.repos.len()
    }

    /// The cursor is on a field.
    pub open spec fn wf(self) -> bool {
        &&& self.focus < self.field_count()
        &&& self.repos.len() <= usize::MAX
    }

    /// The form after a key that keeps it open.
    pub open spec fn pressed(self, key: KeyEvent) -> CreateView {
        match key.code {
            KeyCode::Tab | KeyCode::Down => CreateView { focus: next_of(self.focus, self.field_count()), ..self },
            KeyCode::BackTab | KeyCode::Up => CreateView { focus: prev_of(self.focus, self.field_count()), ..self },
            KeyCode::Backspace => if self.focus == 0 {
                CreateView { name: erased(self.name), ..self }
            } else {
                self
            },
            KeyCode::Char(c) => if c == ' ' && self.focus >= 1 {
                let i = self.focus - 1;
                CreateView { repos: self.repos.update(i, (self.repos[i].0, !self.repos[i].1)), ..self }
            } else if self.focus == 0 && (c == ' ' || !key.modifiers.control) {
                CreateView { name: typed(self.name, c), ..self }
            } else {
                self
            },
            _ => self,
        }
    }

    /// What handing the form in is answered: the task's name and its repos, or
    /// why not.
    pub open spec fn submitted(self) -> Result<(Seq<char>, Seq<Seq<char>>), Seq<char>> {
        if trimmed(self.name).len() == 0 {
            Err("task name cannot be empty"@)
        } else if ticked(self.repos).len() == 0 {
            Err("select at least one repo"@)
        } else {
            Ok((trimmed(self.name), ticked(self.repos)))
        }
    }
}

/// What a key does to a form that takes `Esc` and `Enter`.
pub open spec fn step_of(key: KeyEvent) -> FormStep {
    match key.code {
        KeyCode::Esc => FormStep::Cancel,
        KeyCode::Enter => FormStep::Submit,
        _ => FormStep::Stay,
    }
}

impl CreateForm {
    /// Put the cursor on the next field.
    pub fn focus_next(&mut self)
        requires
            old(self)@.wf(),
        ensures
            final(self)@ == (CreateView { focus: next_of(old(self)@.focus, old(self)@.field_count()), ..old(self)@ }),
            final(self)@.wf(),
    {
        self.focus = if self.focus >= self.repos.len() { 0 } else { self.focus + 1 };
    }

    /// Put the cursor on the field before.
    pub fn focus_prev(&mut self)
        requires
            old(self)@.wf(),
        ensures
            final(self)@ == (CreateView { focus: prev_of(old(self)@.focus, old(self)@.field_count()), ..old(self)@ }),
            final(self)@.wf(),
    {
        self.focus = if self.focus == 0 { self.repos.len() } else { self.focus - 1 };
    }

    /// Handle a key.
    pub fn press(&mut self, key: KeyEvent) -> (step: FormStep)
        requires
            old(self)@.wf(),
        ensures
            step == step_of(key),
            final(self)@ == (if step == FormStep::Stay {
                old(self)@.pressed(key)
            } else {
                old(self)@
            }),
            final(self)@.wf(),
    {
        let ctrl: bool = key.modifiers.control;
        match key.code {
            KeyCode::Esc => {
                return FormStep::Cancel;
            },
            KeyCode::Enter => {
                return FormStep::Submit;
            },
            KeyCode::Tab | KeyCode::Down => self.focus_next(),
            KeyCode::BackTab | KeyCode::Up => self.focus_prev(),
            KeyCode::Backspace => {
                if self.focus == 0 {
                    let _ = self.name.pop();
                }
            },
            KeyCode::Char(c) => {
                if c == ' ' && self.focus >= 1 {
                    let i: usize = self.focus - 1;
                    let ghost before = self@.repos;
                    let on: bool = self.repos[i].1;
                    self.repos[i].1 = !on;
                    assert(self@.repos =~= before.update(i as int, (before[i as int].0, !before[i as int].1)));
                } else if self.focus == 0 && (c == ' ' || !ctrl) {
                    self.name.push(c);
                }
            },
            _ => {},
        }
        FormStep::Stay
    }

    /// What the form asks for, or why it cannot be handed in.
    pub fn submit(&self) -> (r: Result<(String, Vec<String>), String>)
        ensures
            match (r, self@.submitted()) {
                (Ok(a), Ok(b)) => a.0@ == b.0 && views(a.1@) == b.1,
                (Err(a), Err(b)) => a@ == b,
                _ => false,
            },
    {
        let name = trim(self.name.as_str());
        if name.as_str().is_empty() {
            return Err(own("task name cannot be empty"));
        }
        let repos = ticked_names(&self.repos);
        assert(views(repos@).len() == repos@.len());
        if repos.len() == 0 {
            return Err(own("select at least one repo"));
        }
        Ok((name, repos))
    }
}

// ── Repo checklist ───────────────────────────────────────────────────────────

/// One line of a repo checklist: the workspace repo, whether it's ticked, and
/// whether the task already has a worktree for it. `checked != present` is the
/// pending change: added when ticked, detached when unticked.
#[derive(Debug)]
pub struct RepoPick {
    pub name: String,
    pub checked: bool,
    pub present: bool,
}

/// One line of a repo checklist.
#[verifier::ext_equal]
pub struct PickView {
    pub name: Seq<char>,
    pub checked: bool,
    pub present: bool,
}

impl View for RepoPick {
    type V = PickView;

    open spec fn view(&self) -> PickView {
        PickView { name: self.name@, checked: self.checked, present: self.present }
    }
}

/// Edit which repos an existing task has worktrees for. Detaching is
/// destructive, so an apply that removes anything goes through `confirm` first.
#[derive(Debug)]
pub struct EditReposForm {
    pub ws_idx: usize,
    pub slug: String,
    pub title: String,
    pub picks: Vec<RepoPick>,
    pub focus: usize,
    pub confirm: bool,
}

/// A repo checklist.
#[verifier::ext_equal]
pub struct EditView {
    pub ws_idx: usize,
    pub slug: Seq<char>,
    pub title: Seq<char>,
    pub picks: Seq<PickView>,
    pub focus: usize,
    pub confirm: bool,
}

impl View for EditReposForm {
    type V = EditView;

    open spec fn view(&self) -> EditView {
        EditView {
            ws_idx: self.ws_idx,
            slug: self.slug@,
            title: self.title@,
            picks: views(self.picks@),
            focus: self.focus,
            confirm: self.confirm,
        }
    }
}

/// The names of the picks for which `want` holds.
pub open spec fn picked(picks: Seq<PickView>, want: spec_fn(PickView) -> bool) -> Seq<Seq<char>>
    decreases picks.len(),
{
    if picks.len() == 0 {
        Seq::empty()
    } else if want(picks.last()) {
        picked(picks.drop_last(), want).push(picks.last().name)
    } else {
        picked(picks.drop_last(), want)
    }
}

/// Ticked and not there yet.
pub open spec fn added_of(picks: Seq<PickView>) -> Seq<Seq<char>> {
    picked(picks, |p: PickView| p.checked && !p.present)
}

/// Not ticked but there.
pub open spec fn removed_of(picks: Seq<PickView>) -> Seq<Seq<char>> {
    picked(picks, |p: PickView| !p.checked && p.present)
}

/// Ticked.
pub open spec fn desired_of(picks: Seq<PickView>) -> Seq<Seq<char>> {
    picked(picks, |p: PickView| p.checked)
}

/// Every pick ticked, or none.
pub open spec fn all_checked(picks: Seq<PickView>, on: bool) -> Seq<PickView> {
    Seq::new(picks.len(), |i: int| PickView { checked: on, ..picks[i] })
}

/// What a key did to a checklist.
#[derive(Debug, Clone, Copy, PartialEq, Eq, Structural)]
pub enum EditStep {
    /// Left, nothing done.
    Cancel,
    /// Handed in without a change: left too.
    Unchanged,
    /// Handed in without a repo: stays.
    Empty,
    /// The changes are made.
    Apply,
    /// Stays.
    Stay,
}

impl EditView {
    /// The cursor is on a pick.
    pub open spec fn wf(self) -> bool {
        self.focus < self.picks.len() <= usize::MAX
    }

    /// What a key does.
    pub open spec fn step(self, key: KeyEvent) -> EditStep {
        if self.confirm {
            if key.code == KeyCode::Char('y') || key.code == KeyCode::Char('Y') || key.code == KeyCode::Enter {
                EditStep::Apply
            } else {
                EditStep::Stay
            }
        } else {
            match key.code {
                KeyCode::Esc => EditStep::Cancel,
                KeyCode::Enter => if added_of(self.picks).len() == 0 && removed_of(self.picks).len() == 0 {
                    EditStep::Unchanged
                } else if desired_of(self.picks).len() == 0 {
                    EditStep::Empty
                } else if removed_of(self.picks).len() == 0 {
                    EditStep::Apply
                } else {
                    EditStep::Stay
                },
                _ => EditStep::Stay,
            }
        }
    }

    /// The checklist after a key that keeps it open.
    pub open spec fn pressed(self, key: KeyEvent) -> EditView {
        let n = self.picks.len();
        if self.confirm {
            EditView { confirm: false, ..self }
        } else {
            match key.code {
                KeyCode::Enter => if self.step(key) == EditStep::Stay {
                    EditView { confirm: true, ..self }
                } else {
                    self
                },
                KeyCode::Tab | KeyCode::Down => EditView { focus: next_of(self.focus, n), ..self },
                KeyCode::BackTab | KeyCode::Up => EditView { focus: prev_of(self.focus, n), ..self },
                KeyCode::Char(c) => if c == 'j' {
                    EditView { focus: next_of(self.focus, n), ..self }
                } else if c == 'k' {
                    EditView { focus: prev_of(self.focus, n), ..self }
                } else if c == ' ' || c == 'x' {
                    let p = self.picks[self.focus as int];
                    EditView {
                        picks: self.picks.update(self.focus as int, PickView { checked: !p.checked, ..p }),
                        ..self
                    }
                } else if c == 'a' {
                    EditView { picks: all_checked(self.picks, true), ..self }
                } else if c == 'n' {
                    EditView { picks: all_checked(self.picks, false), ..self }
                } else {
                    self
                },
                _ => self,
            }
        }
    }
}

impl EditReposForm {
    /// The repos to be added.
    pub fn added(&self) -> (out: Vec<String>)
        ensures
            views(out@) == added_of(self@.picks),
    {
        let ghost want = |p: PickView| p.checked && !p.present;
        let ghost whole = self@.picks;
        let mut out: Vec<String> = Vec::new();
        let mut i: usize = 0;
        assert(views(out@) =~= picked(whole.take(0), want));
        while i < self.picks.len()
            invariant
                i <= self.picks@.len(),
                whole == self@.picks,
                want == (|p: PickView| p.checked && !p.present),
                views(out@) == picked(whole.take(i as int), want),
            decreases self.picks@.len() - i,
        {
            assert(whole.take(i + 1).drop_last() =~= whole.take(i as int));
            assert(whole.take(i + 1).last() == self.picks@[i as int]@);
            if self.picks[i].checked && !self.picks[i].present {
                let ghost before = views(out@);
                out.push(self.picks[i].name.clone());
                assert(views(out@) =~= before.push(whole[i as int].name));
            }
            i += 1;
        }
        assert(whole.take(whole.len() as int) =~= whole);
        out
    }

    /// The repos to be detached.
    pub fn removed(&self) -> (out: Vec<String>)
        ensures
            views(out@) == removed_of(self@.picks),
    {
        let ghost want = |p: PickView| !p.checked && p.present;
        let ghost whole = self@.picks;
        let mut out: Vec<String> = Vec::new();
        let mut i: usize = 0;
        assert(views(out@) =~= picked(whole.take(0), want));
        while i < self.picks.len()
            invariant
                i <= self.picks@.len(),
                whole == self@.picks,
                want == (|p: PickView| !p.checked && p.present),
                views(out@) == picked(whole.take(i as int), want),
            decreases self.picks@.len() - i,
        {
            assert(whole.take(i + 1).drop_last() =~= whole.take(i as int));
            assert(whole.take(i + 1).last() == self.picks@[i as int]@);
            if !self.picks[i].checked && self.picks[i].present {
                let ghost before = views(out@);
                out.push(self.picks[i].name.clone());
                assert(views(out@) =~= before.push(whole[i as int].name));
            }
            i += 1;
        }
        assert(whole.take(whole.len() as int) =~= whole);
        out
    }

    /// The repos the task is to have.
    pub fn desired(&self) -> (out: Vec<String>)
        ensures
            views(out@) == desired_of(self@.picks),
    {
        let ghost want = |p: PickView| p.checked;
        let ghost whole = self@.picks;
        let mut out: Vec<String> = Vec::new();
        let mut i: usize = 0;
        assert(views(out@) =~= picked(whole.take(0), want));
        while i < self.picks.len()
            invariant
                i <= self.picks@.len(),
                whole == self@.picks,
                want == (|p: PickView| p.checked),
                views(out@) == picked(whole.take(i as int), want),
            decreases self.picks@.len() - i,
        {
            assert(whole.take(i + 1).drop_last() =~= whole.take(i as int));
            assert(whole.take(i + 1).last() == self.picks@[i as int]@);
            if self.picks[i].checked {
                let ghost before = views(out@);
                out.push(self.picks[i].name.clone());
                assert(views(out@) =~= before.push(whole[i as int].name));
            }
            i += 1;
        }
        assert(whole.take(whole.len() as int) =~= whole);
        out
    }

    /// Tick every repo, or none.
    fn check_all(&mut self, on: bool)
        ensures
            final(self)@ == (EditView { picks: all_checked(old(self)@.picks, on), ..old(self)@ }),
    {
        let ghost before = self@;
        let mut i: usize = 0;
        while i < self.picks.len()
            invariant
                i <= self.picks@.len(),
                self.picks@.len() == before.picks.len(),
                self@ == (EditView { picks: self@.picks, ..before }),
                forall|k: int| 0 <= k < i ==> (#[trigger] self@.picks[k]) == (PickView { checked: on, ..before.picks[k] }),
                forall|k: int| i <= k < self.picks@.len() ==> (#[trigger] self@.picks[k]) == before.picks[k],
            decreases self.picks@.len() - i,
        {
            let ghost now = self@.picks;
            self.picks[i].checked = on;
            assert(self@.picks =~= now.update(i as int, PickView { checked: on, ..now[i as int] }));
            i += 1;
        }
        assert(self@.picks =~= all_checked(before.picks, on));
    }

    /// Handle a key.
    pub fn press(&mut self, key: KeyEvent) -> (step: EditStep)
        requires
            old(self)@.wf(),
        ensures
            step == old(self)@.step(key),
            final(self)@ == (if step == EditStep::Stay {
                old(self)@.pressed(key)
            } else {
                old(self)@
            }),
            final(self)@.wf(),
    {
        let n: usize = self.picks.len();
        assert(n == self@.picks.len());
        if self.confirm {
            if key.code == KeyCode::Char('y') || key.code == KeyCode::Char('Y') || key.code == KeyCode::Enter {
                return EditStep::Apply;
            }
            self.confirm = false;
            return EditStep::Stay;
        }
        match key.code {
            KeyCode::Esc => {
                return EditStep::Cancel;
            },
            KeyCode::Enter => {
                let added = self.added();
                let removed = self.removed();
                assert(views(added@).len() == added@.len());
                assert(views(removed@).len() == removed@.len());
                if added.len() == 0 && removed.len() == 0 {
                    return EditStep::Unchanged;
                }
                let desired = self.desired();
                assert(views(desired@).len() == desired@.len());
                if desired.len() == 0 {
                    return EditStep::Empty;
                }
                if removed.len() == 0 {
                    return EditStep::Apply;
                }
                self.confirm = true;
            },
            KeyCode::Tab | KeyCode::Down | KeyCode::Char('j') => {
                self.focus = if self.focus + 1 >= n { 0 } else { self.focus + 1 };
            },
            KeyCode::BackTab | KeyCode::Up | KeyCode::Char('k') => {
                self.focus = if self.focus == 0 { n - 1 } else { self.focus - 1 };
            },
            KeyCode::Char(' ') | KeyCode::Char('x') => {
                let i: usize = self.focus;
                let ghost before = self@.picks;
                let on: bool = self.picks[i].checked;
                self.picks[i].checked = !on;
                assert(self@.picks =~= before.update(
                    i as int,
                    PickView { checked: !before[i as int].checked, ..before[i as int] },
                ));
            },
            KeyCode::Char('a') => self.check_all(true),
            KeyCode::Char('n') => self.check_all(false),
            _ => {},
        }
        EditStep::Stay
    }
}

/// What is kept: ticked and there.
pub open spec fn kept_of(picks: Seq<PickView>) -> Seq<Seq<char>> {
    picked(picks, |p: PickView| p.checked && p.present)
}

/// A checklist's repos are what is kept and what is added, and what it detaches
/// is none of them: every name it desires is kept or added, every name kept or
/// added is desired.
pub proof fn desired_is_kept_and_added(picks: Seq<PickView>, name: Seq<char>)
    ensures
        desired_of(picks).contains(name) == (kept_of(picks).contains(name) || added_of(picks).contains(name)),
        desired_of(picks).len() == kept_of(picks).len() + added_of(picks).len(),
    decreases picks.len(),
{
    if picks.len() > 0 {
        desired_is_kept_and_added(picks.drop_last(), name);
        let p = picks.last();
        let d = picks.drop_last();
        push_contains(desired_of(d), p.name, name);
        push_contains(kept_of(d), p.name, name);
        push_contains(added_of(d), p.name, name);
    }
}

/// What a longer list contains.
proof fn push_contains(s: Seq<Seq<char>>, x: Seq<char>, name: Seq<char>)
    ensures
        s.push(x).contains(name) == (s.contains(name) || x == name),
{
    if s.contains(name) {
        let i = choose|i: int| 0 <= i < s.len() && s[i] == name;
        assert(s.push(x)[i] == name);
    }
    if x == name {
        assert(s.push(x)[s.len() as int] == name);
    }
}

/// Nothing both stays and goes: with distinct names, a detached repo is not a
/// desired one.
pub proof fn removed_is_not_desired(picks: Seq<PickView>, name: Seq<char>)
    requires
        forall|i: int, j: int| 0 <= i < j < picks.len() ==> (#[trigger] picks[i]).name != (#[trigger] picks[j]).name,
    ensures
        !(removed_of(picks).contains(name) && desired_of(picks).contains(name)),
    decreases picks.len(),
{
    if picks.len() > 0 {
        let d = picks.drop_last();
        let p = picks.last();
        assert forall|i: int, j: int| 0 <= i < j < d.len() implies (#[trigger] d[i]).name != (#[trigger] d[j]).name by {
            assert(picks[i].name != picks[j].name);
        }
        removed_is_not_desired(d, name);
        push_contains(desired_of(d), p.name, name);
        push_contains(removed_of(d), p.name, name);
        if p.name == name {
            picked_is_named(d, |q: PickView| q.checked, name);
            picked_is_named(d, |q: PickView| !q.checked && q.present, name);
            if desired_of(d).contains(name) || removed_of(d).contains(name) {
                let k = choose|k: int| 0 <= k < d.len() && (#[trigger] d[k]).name == name;
                assert(picks[k].name != picks[picks.len() - 1].name);
            }
        }
    }
}

/// A picked name is the name of a pick.
proof fn picked_is_named(picks: Seq<PickView>, want: spec_fn(PickView) -> bool, name: Seq<char>)
    ensures
        picked(picks, want).contains(name) ==> exists|k: int| 0 <= k < picks.len() && (#[trigger] picks[k]).name == name,
    decreases picks.len(),
{
    if picks.len() > 0 {
        let d = picks.drop_last();
        picked_is_named(d, want, name);
        push_contains(picked(d, want), picks.last().name, name);
        if picked(d, want).contains(name) {
            let k = choose|k: int| 0 <= k < d.len() && (#[trigger] d[k]).name == name;
            assert(picks[k].name == name);
        }
        assert(picks[picks.len() - 1] == picks.last());
    }
}

// ── Add repo ─────────────────────────────────────────────────────────────────

/// Add-repo form. `focus`: 0 = url, 1 = name.
#[derive(Debug)]
pub struct AddRepoForm {
    pub ws_idx: usize,
    pub url: String,
    pub name: String,
    pub focus: usize,
}

/// An add-repo form.
#[verifier::ext_equal]
pub struct AddView {
    pub ws_idx: usize,
    pub url: Seq<char>,
    pub name: Seq<char>,
    pub focus: usize,
}

impl View for AddRepoForm {
    type V = AddView;

    open spec fn view(&self) -> AddView {
        AddView { ws_idx: self.ws_idx, url: self.url@, name: self.name@, focus: self.focus }
    }
}

impl AddView {
    /// The cursor is on a field.
    pub open spec fn wf(self) -> bool {
        self.focus < 2
    }

    /// The form after a key that keeps it open.
    pub open spec fn pressed(self, key: KeyEvent) -> AddView {
        match key.code {
            KeyCode::Tab | KeyCode::Down => AddView { focus: next_of(self.focus, 2), ..self },
            KeyCode::BackTab | KeyCode::Up => AddView { focus: prev_of(self.focus, 2), ..self },
            KeyCode::Backspace => if self.focus == 0 {
                AddView { url: erased(self.url), ..self }
            } else {
                AddView { name: erased(self.name), ..self }
            },
            KeyCode::Char(c) => if key.modifiers.control {
                self
            } else if self.focus == 0 {
                AddView { url: typed(self.url, c), ..self }
            } else {
                AddView { name: typed(self.name, c), ..self }
            },
            _ => self,
        }
    }

    /// What handing the form in is answered: the URL and the name, if one was
    /// given, or why not.
    pub open spec fn submitted(self) -> Result<(Seq<char>, Option<Seq<char>>), Seq<char>> {
        if trimmed(self.url).len() == 0 {
            Err("git URL cannot be empty"@)
        } else {
            Ok(
                (
                    trimmed(self.url),
                    if trimmed(self.name).len() == 0 {
                        None
                    } else {
                        Some(trimmed(self.name))
                    },
                ),
            )
        }
    }
}

impl AddRepoForm {
    /// Handle a key.
    pub fn press(&mut self, key: KeyEvent) -> (step: FormStep)
        requires
            old(self)@.wf(),
        ensures
            step == step_of(key),
            final(self)@ == (if step == FormStep::Stay {
                old(self)@.pressed(key)
            } else {
                old(self)@
            }),
            final(self)@.wf(),
    {
        match key.code {
            KeyCode::Esc => {
                return FormStep::Cancel;
            },
            KeyCode::Enter => {
                return FormStep::Submit;
            },
            KeyCode::Tab | KeyCode::Down => {
                self.focus = if self.focus + 1 >= 2 { 0 } else { 1 };
            },
            KeyCode::BackTab | KeyCode::Up => {
                self.focus = if self.focus == 0 { 1 } else { 0 };
            },
            KeyCode::Backspace => {
                if self.focus == 0 {
                    let _ = self.url.pop();
                } else {
                    let _ = self.name.pop();
                }
            },
            KeyCode::Char(c) => {
                if !key.modifiers.control {
                    if self.focus == 0 {
                        self.url.push(c);
                    } else {
                        self.name.push(c);
                    }
                }
            },
            _ => {},
        }
        FormStep::Stay
    }

    /// What the form asks for, or why it cannot be handed in.
    pub fn submit(&self) -> (r: Result<(String, Option<String>), String>)
        ensures
            match (r, self@.submitted()) {
                (Ok(a), Ok(b)) => a.0@ == b.0 && crate::text::opt_view(a.1) == b.1,
                (Err(a), Err(b)) => a@ == b,
                _ => false,
            },
    {
        let url = trim(self.url.as_str());
        if url.as_str().is_empty() {
            return Err(own("git URL cannot be empty"));
        }
        let name = trim(self.name.as_str());
        if name.as_str().is_empty() {
            Ok((url, None))
        } else {
            Ok((url, Some(name)))
        }
    }
}

// ── Confirm and rename ───────────────────────────────────────────────────────

/// Pending delete confirmation.
#[derive(Debug)]
pub struct Confirm {
    pub ws_idx: usize,
    pub slug: String,
    pub title: String,
    /// The tab to close first, where it is known by number.
    pub tab_id: Option<u32>,
}

/// A pending delete.
#[verifier::ext_equal]
pub struct ConfirmView {
    pub ws_idx: usize,
    pub slug: Seq<char>,
    pub title: Seq<char>,
    pub tab_id: Option<u32>,
}

impl View for Confirm {
    type V = ConfirmView;

    open spec fn view(&self) -> ConfirmView {
        ConfirmView { ws_idx: self.ws_idx, slug: self.slug@, title: self.title@, tab_id: self.tab_id }
    }
}

/// Whether a key says yes.
#[verifier::allow_in_spec]
pub fn says_yes(key: KeyEvent) -> bool
    returns
        key.code == KeyCode::Char('y') || key.code == KeyCode::Char('Y') || key.code == KeyCode::Enter,
{
    key.code == KeyCode::Char('y') || key.code == KeyCode::Char('Y') || key.code == KeyCode::Enter
}

/// Rename-title form.
#[derive(Debug)]
pub struct RenameForm {
    pub ws_idx: usize,
    pub slug: String,
    pub path: String,
    pub buffer: String,
}

/// A rename-title form.
#[verifier::ext_equal]
pub struct RenameView {
    pub ws_idx: usize,
    pub slug: Seq<char>,
    pub path: Seq<char>,
    pub buffer: Seq<char>,
}

impl View for RenameForm {
    type V = RenameView;

    open spec fn view(&self) -> RenameView {
        RenameView { ws_idx: self.ws_idx, slug: self.slug@, path: self.path@, buffer: self.buffer@ }
    }
}

impl RenameView {
    /// The form after a key that keeps it open.
    pub open spec fn pressed(self, key: KeyEvent) -> RenameView {
        match key.code {
            KeyCode::Backspace => RenameView { buffer: erased(self.buffer), ..self },
            KeyCode::Char(c) => RenameView { buffer: typed(self.buffer, c), ..self },
            _ => self,
        }
    }

    /// What handing the form in is answered: the new title, or why not.
    pub open spec fn submitted(self) -> Result<Seq<char>, Seq<char>> {
        if trimmed(self.buffer).len() == 0 {
            Err("title cannot be empty"@)
        } else {
            Ok(trimmed(self.buffer))
        }
    }
}

impl RenameForm {
    /// Handle a key.
    pub fn press(&mut self, key: KeyEvent) -> (step: FormStep)
        ensures
            step == step_of(key),
            final(self)@ == (if step == FormStep::Stay {
                old(self)@.pressed(key)
            } else {
                old(self)@
            }),
    {
        match key.code {
            KeyCode::Esc => {
                return FormStep::Cancel;
            },
            KeyCode::Enter => {
                return FormStep::Submit;
            },
            KeyCode::Backspace => {
                let _ = self.buffer.pop();
            },
            KeyCode::Char(c) => self.buffer.push(c),
            _ => {},
        }
        FormStep::Stay
    }

    /// The new title, or why the form cannot be handed in.
    pub fn submit(&self) -> (r: Result<String, String>)
        ensures
            match (r, self@.submitted()) {
                (Ok(a), Ok(b)) => a@ == b,
                (Err(a), Err(b)) => a@ == b,
                _ => false,
            },
    {
        let title = trim(self.buffer.as_str());
        if title.as_str().is_empty() {
            Err(own("title cannot be empty"))
        } else {
            Ok(title)
        }
    }
}

/// The picks that are wanted are in the result, in their order, and no others.
proof fn picked_are_those(picks: Seq<PickView>, want: spec_fn(PickView) -> bool, name: Seq<char>)
    ensures
        picked(picks, want).contains(name) <==> exists|i: int|
            0 <= i < picks.len() && want(#[trigger] picks[i]) && picks[i].name == name,
    decreases picks.len(),
{
    if picks.len() > 0 {
        let d = picks.drop_last();
        picked_are_those(d, want, name);
        push_contains(picked(d, want), picks.last().name, name);
        assert(picks.last() == picks[picks.len() - 1]);
        if exists|i: int| 0 <= i < d.len() && want(#[trigger] d[i]) && d[i].name == name {
            let i = choose|i: int| 0 <= i < d.len() && want(#[trigger] d[i]) && d[i].name == name;
            assert(picks[i] == d[i]);
        }
        if exists|i: int| 0 <= i < picks.len() && want(#[trigger] picks[i]) && picks[i].name == name {
            let i = choose|i: int| 0 <= i < picks.len() && want(#[trigger] picks[i]) && picks[i].name == name;
            if i < d.len() {
                assert(d[i] == picks[i]);
            }
        }
    }
}

/// Added is what was ticked and is not there, removed what is there and was
/// unticked, and wanted whatever is ticked.
pub proof fn ticks_say_what_changes(picks: Seq<PickView>, name: Seq<char>)
    ensures
        added_of(picks).contains(name) <==> exists|i: int|
            0 <= i < picks.len() && (#[trigger] picks[i]).checked && !picks[i].present && picks[i].name == name,
        removed_of(picks).contains(name) <==> exists|i: int|
            0 <= i < picks.len() && !(#[trigger] picks[i]).checked && picks[i].present && picks[i].name == name,
        desired_of(picks).contains(name) <==> exists|i: int|
            0 <= i < picks.len() && (#[trigger] picks[i]).checked && picks[i].name == name,
{
    picked_are_those(picks, |p: PickView| p.checked && !p.present, name);
    picked_are_those(picks, |p: PickView| !p.checked && p.present, name);
    picked_are_those(picks, |p: PickView| p.checked, name);
}

/// A repo is handed in exactly where it is ticked.
pub proof fn ticked_repos_are_handed_in(s: Seq<(Seq<char>, bool)>, name: Seq<char>)
    ensures
        ticked(s).contains(name) <==> exists|i: int| 0 <= i < s.len() && (#[trigger] s[i]).1 && s[i].0 == name,
        ticked(s).len() <= s.len(),
        (forall|i: int| 0 <= i < s.len() ==> (#[trigger] s[i]).1) ==> ticked(s).len() == s.len(),
    decreases s.len(),
{
    if s.len() > 0 {
        let d = s.drop_last();
        ticked_repos_are_handed_in(d, name);
        push_contains(ticked(d), s.last().0, name);
        assert(s.last() == s[s.len() - 1]);
        if exists|i: int| 0 <= i < d.len() && (#[trigger] d[i]).1 && d[i].0 == name {
            let i = choose|i: int| 0 <= i < d.len() && (#[trigger] d[i]).1 && d[i].0 == name;
            assert(s[i] == d[i]);
        }
        if exists|i: int| 0 <= i < s.len() && (#[trigger] s[i]).1 && s[i].0 == name {
            let i = choose|i: int| 0 <= i < s.len() && (#[trigger] s[i]).1 && s[i].0 == name;
            if i < d.len() {
                assert(d[i] == s[i]);
            }
        }
        if forall|i: int| 0 <= i < s.len() ==> (#[trigger] s[i]).1 {
            assert forall|i: int| 0 <= i < d.len() implies (#[trigger] d[i]).1 by {
                assert(s[i].1);
            }
        }
    }
}

/// In the new-task form, down and the tab key go to the next field and up and
/// back-tab to the one before, round both ends.
pub proof fn fields_are_walked_in_a_ring(f: CreateView, m: KeyModifiers)
    requires
        f.focus <= f.repos.len(),
        f.repos.len() < usize::MAX,
    ensures
        ({
            let down = f.pressed(KeyEvent { code: KeyCode::Down, modifiers: m });
            let up = f.pressed(KeyEvent { code: KeyCode::Up, modifiers: m });
            &&& f.focus < f.repos.len() ==> down.focus == f.focus + 1
            &&& f.focus == f.repos.len() ==> down.focus == 0
            &&& f.focus > 0 ==> up.focus == f.focus - 1
            &&& f.focus == 0 ==> up.focus == f.repos.len()
            &&& f.pressed(KeyEvent { code: KeyCode::Tab, modifiers: m }) == down
            &&& f.pressed(KeyEvent { code: KeyCode::BackTab, modifiers: m }) == up
            &&& down.name == f.name && up.name == f.name
            &&& down.repos == f.repos && up.repos == f.repos
        }),
{
}

/// On the name field characters are added to its end and backspace takes the
/// last; on a repo a space turns its tick and nothing else does.
pub proof fn the_focused_field_is_edited(f: CreateView, c: char, m: KeyModifiers, i: int)
    requires
        f.focus <= f.repos.len(),
        0 <= i < f.repos.len(),
    ensures
        ({
            let key = f.pressed(KeyEvent { code: KeyCode::Char(c), modifiers: m });
            let back = f.pressed(KeyEvent { code: KeyCode::Backspace, modifiers: m });
            &&& key.focus == f.focus && back.focus == f.focus
            &&& key.ws_idx == f.ws_idx && back.ws_idx == f.ws_idx
            &&& f.focus == 0 ==> key.repos == f.repos && back.repos == f.repos
            &&& f.focus == 0 && !m.control ==> key.name == f.name + seq![c]
            &&& f.focus == 0 && f.name.len() > 0 ==> back.name == f.name.take(f.name.len() - 1)
            &&& f.focus > 0 ==> key.name == f.name && back == f
            &&& f.focus > 0 && c != ' ' ==> key == f
            &&& f.focus > 0 && c == ' ' ==> {
                &&& key.repos.len() == f.repos.len()
                &&& key.repos[i].0 == f.repos[i].0
                &&& i == f.focus - 1 ==> key.repos[i].1 == !f.repos[i].1
                &&& i != f.focus - 1 ==> key.repos[i].1 == f.repos[i].1
            }
        }),
{
    assert(f.name.push(c) =~= f.name + seq![c]);
    if f.name.len() > 0 {
        assert(f.name.drop_last() =~= f.name.take(f.name.len() - 1));
    }
}

/// A new task is handed in with its name, trimmed, and its ticked repos,
/// exactly where it has both.
pub proof fn new_tasks_need_a_name_and_a_repo(f: CreateView)
    ensures
        f.submitted() is Ok <==> trimmed(f.name).len() > 0 && ticked(f.repos).len() > 0,
        f.submitted() matches Ok((name, repos)) ==> name == trimmed(f.name) && repos == ticked(f.repos),
        trimmed(f.name).len() == 0 ==> f.submitted() == Err::<(Seq<char>, Seq<Seq<char>>), Seq<char>>(
            "task name cannot be empty"@,
        ),
        trimmed(f.name).len() > 0 && ticked(f.repos).len() == 0 ==> f.submitted() == Err::<
            (Seq<char>, Seq<Seq<char>>),
            Seq<char>,
        >("select at least one repo"@),
{
}

/// Escape leaves a form, Enter hands it in, any other key stays in it.
pub proof fn forms_end_on_two_keys(key: KeyEvent)
    ensures
        step_of(key) == FormStep::Cancel <==> key.code == KeyCode::Esc,
        step_of(key) == FormStep::Submit <==> key.code == KeyCode::Enter,
        says_yes(key) <==> key.code == KeyCode::Char('y') || key.code == KeyCode::Char('Y') || key.code
            == KeyCode::Enter,
{
}

/// In the checklist `j`, down and the tab key go to the next line, `k`, up and
/// back-tab to the one before, round both ends.
pub proof fn the_checklist_is_walked_in_a_ring(f: EditView, m: KeyModifiers)
    requires
        f.wf(),
        !f.confirm,
    ensures
        ({
            let down = f.pressed(KeyEvent { code: KeyCode::Down, modifiers: m });
            let up = f.pressed(KeyEvent { code: KeyCode::Up, modifiers: m });
            &&& f.focus + 1 < f.picks.len() ==> down.focus == f.focus + 1
            &&& f.focus + 1 == f.picks.len() ==> down.focus == 0
            &&& f.focus > 0 ==> up.focus == f.focus - 1
            &&& f.focus == 0 ==> up.focus == f.picks.len() - 1
            &&& f.pressed(KeyEvent { code: KeyCode::Tab, modifiers: m }) == down
            &&& f.pressed(KeyEvent { code: KeyCode::Char('j'), modifiers: m }) == down
            &&& f.pressed(KeyEvent { code: KeyCode::BackTab, modifiers: m }) == up
            &&& f.pressed(KeyEvent { code: KeyCode::Char('k'), modifiers: m }) == up
            &&& down.picks == f.picks && up.picks == f.picks
        }),
{
}

/// A space, or `x`, turns the tick of the line with the cursor and of no other;
/// `a` ticks every line and `n` none. What is there stays as it is.
pub proof fn ticks_are_turned(f: EditView, m: KeyModifiers, i: int)
    requires
        f.wf(),
        !f.confirm,
        0 <= i < f.picks.len(),
    ensures
        ({
            let space = f.pressed(KeyEvent { code: KeyCode::Char(' '), modifiers: m });
            let all = f.pressed(KeyEvent { code: KeyCode::Char('a'), modifiers: m });
            let none = f.pressed(KeyEvent { code: KeyCode::Char('n'), modifiers: m });
            &&& f.pressed(KeyEvent { code: KeyCode::Char('x'), modifiers: m }) == space
            &&& space.picks.len() == f.picks.len() && all.picks.len() == f.picks.len() && none.picks.len()
                == f.picks.len()
            &&& i == f.focus ==> space.picks[i].checked == !f.picks[i].checked
            &&& i != f.focus ==> space.picks[i].checked == f.picks[i].checked
            &&& all.picks[i].checked && !none.picks[i].checked
            &&& space.picks[i].present == f.picks[i].present && all.picks[i].present == f.picks[i].present
                && none.picks[i].present == f.picks[i].present
            &&& space.picks[i].name == f.picks[i].name && all.picks[i].name == f.picks[i].name && none.picks[i].name
                == f.picks[i].name
            &&& space.focus == f.focus && all.focus == f.focus && none.focus == f.focus
        }),
{
}

/// Enter applies what only adds; what removes a repo is asked about first, and
/// applied on a yes; what changes nothing or would leave nothing is not applied.
pub proof fn removals_are_confirmed(f: EditView, m: KeyModifiers)
    requires
        !f.confirm,
    ensures
        ({
            let enter = KeyEvent { code: KeyCode::Enter, modifiers: m };
            let added = added_of(f.picks).len();
            let removed = removed_of(f.picks).len();
            let kept = desired_of(f.picks).len();
            &&& f.step(enter) == EditStep::Apply <==> added > 0 && removed == 0 && kept > 0
            &&& removed > 0 && kept > 0 ==> f.step(enter) == EditStep::Stay && f.pressed(enter).confirm
            &&& f.step(enter) == EditStep::Unchanged <==> added == 0 && removed == 0
            &&& f.step(enter) == EditStep::Empty <==> (added > 0 || removed > 0) && kept == 0
            &&& f.step(KeyEvent { code: KeyCode::Esc, modifiers: m }) == EditStep::Cancel
            &&& (EditView { confirm: true, ..f }).step(enter) == EditStep::Apply
            &&& (EditView { confirm: true, ..f }).step(KeyEvent { code: KeyCode::Char('n'), modifiers: m })
                == EditStep::Stay
            &&& !(EditView { confirm: true, ..f }).pressed(KeyEvent { code: KeyCode::Char('n'), modifiers: m }).confirm
            &&& f.pressed(enter).picks == f.picks
        }),
{
}

/// The add-repo form has two fields and the tab key goes between them; what is
/// typed goes to the one with the cursor.
pub proof fn the_add_form_has_two_fields(f: AddView, c: char, m: KeyModifiers)
    requires
        f.focus == 0 || f.focus == 1,
        !m.control,
    ensures
        ({
            let tab = f.pressed(KeyEvent { code: KeyCode::Tab, modifiers: m });
            let key = f.pressed(KeyEvent { code: KeyCode::Char(c), modifiers: m });
            let back = f.pressed(KeyEvent { code: KeyCode::Backspace, modifiers: m });
            &&& tab.focus == 1 - f.focus
            &&& tab.url == f.url && tab.name == f.name
            &&& f.focus == 0 ==> key.url == f.url + seq![c] && key.name == f.name && back.name == f.name
            &&& f.focus == 1 ==> key.name == f.name + seq![c] && key.url == f.url && back.url == f.url
            &&& f.focus == 0 && f.url.len() > 0 ==> back.url == f.url.take(f.url.len() - 1)
            &&& f.focus == 1 && f.name.len() > 0 ==> back.name == f.name.take(f.name.len() - 1)
            &&& key.ws_idx == f.ws_idx && key.focus == f.focus
        }),
{
    assert(f.url.push(c) =~= f.url + seq![c]);
    assert(f.name.push(c) =~= f.name + seq![c]);
    if f.url.len() > 0 {
        assert(f.url.drop_last() =~= f.url.take(f.url.len() - 1));
    }
    if f.name.len() > 0 {
        assert(f.name.drop_last() =~= f.name.take(f.name.len() - 1));
    }
}

/// A repo is added by its address, trimmed; a name left blank is none.
pub proof fn repos_need_an_address(f: AddView)
    ensures
        f.submitted() is Ok <==> trimmed(f.url).len() > 0,
        f.submitted() matches Ok((url, name)) ==> {
            &&& url == trimmed(f.url)
            &&& trimmed(f.name).len() > 0 ==> name == Some(trimmed(f.name))
            &&& trimmed(f.name).len() == 0 ==> name is None
        },
{
}

/// A title is edited at its end, and handed in trimmed where it is not blank.
pub proof fn titles_are_edited_at_the_end(f: RenameView, c: char, m: KeyModifiers)
    requires
        !m.control,
    ensures
        f.pressed(KeyEvent { code: KeyCode::Char(c), modifiers: m }).buffer == f.buffer + seq![c],
        f.buffer.len() > 0 ==> f.pressed(KeyEvent { code: KeyCode::Backspace, modifiers: m }).buffer == f.buffer.take(
            f.buffer.len() - 1,
        ),
        f.pressed(KeyEvent { code: KeyCode::Char(c), modifiers: m }).slug == f.slug,
        f.pressed(KeyEvent { code: KeyCode::Char(c), modifiers: m }).path == f.path,
        f.submitted() is Ok <==> trimmed(f.buffer).len() > 0,
        f.submitted() matches Ok(title) ==> title == trimmed(f.buffer),
{
    assert(f.buffer.push(c) =~= f.buffer + seq![c]);
    if f.buffer.len() > 0 {
        assert(f.buffer.drop_last() =~= f.buffer.take(f.buffer.len() - 1));
    }
}

} // verus!
