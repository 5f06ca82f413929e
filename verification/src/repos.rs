//! The repos of one workspace: a list with each repo's open pull requests, a
//! pop-up to add one, and the pull requests of the selected repo.
use vstd::prelude::*;
use vstd::string::*;

use crate::forms::{erased, typed};
use crate::input::{KeyCode, KeyEvent, KeyModifiers, MouseButton, MouseEvent, MouseEventKind, Rect};
use crate::mouse::{item_at, item_at_spec};
use crate::text::{
    after_last, is_some_of, opt_view, own, rsplit_last, same, strip_prefix, trim, trim_end_matches, trimmed, vec_fits,
    without_suffixes,
};
use crate::workspace::{RepoConfig, Workspace};

verus! {

/// What is on screen.
#[derive(Debug, Clone, Copy, PartialEq, Eq, Structural)]
pub enum Page {
    List,
    Prs,
    Add,
}

/// An open pull request.
#[derive(Debug)]
pub struct Pr {
    pub number: u64,
    pub title: String,
    pub author: String,
    pub url: String,
    pub is_draft: bool,
    /// How long ago it was opened, in words.
    pub age: String,
}

/// What is known of a repo's pull requests.
#[derive(Debug)]
pub enum PrState {
    Loading,
    Loaded(Vec<Pr>),
    Error(String),
}

/// What a worker sends back.
#[derive(Debug)]
pub enum Msg {
    PrResult { repo_name: String, result: Result<Vec<Pr>, String> },
    GithubUser(String),
}

/// A repo whose pull requests are to be fetched.
#[derive(Debug)]
pub struct Fetch {
    pub name: String,
    pub url: String,
}

/// What an event asks for.
#[derive(Debug)]
pub enum Ask {
    Nothing,
    Quit,
    /// Read the workspace anew.
    Reload,
    Fetch(Fetch),
    /// Open this address in the browser.
    Browse(String),
    /// Add this repo under this name.
    Add { url: String, name: String },
}

/// What an event asks for.
#[verifier::ext_equal]
pub enum AskView {
    Nothing,
    Quit,
    Reload,
    Fetch(Seq<char>, Seq<char>),
    Browse(Seq<char>),
    Add(Seq<char>, Seq<char>),
}

impl View for Ask {
    type V = AskView;

    open spec fn view(&self) -> AskView {
        match self {
            Ask::Nothing => AskView::Nothing,
            Ask::Quit => AskView::Quit,
            Ask::Reload => AskView::Reload,
            Ask::Fetch(f) => AskView::Fetch(f.name@, f.url@),
            Ask::Browse(u) => AskView::Browse(u@),
            Ask::Add { url, name } => AskView::Add(url@, name@),
        }
    }
}

/// The repos of a workspace.
#[derive(Debug)]
pub struct App {
    pub workspace: Workspace,
    pub selected: usize,
    pub page: Page,
    pub status_msg: Option<String>,
    pub add_url: String,
    pub add_name: String,
    /// 0 = URL, 1 = name.
    pub add_focus: usize,
    /// What is known of each repo's pull requests, by the repo's name.
    pub pr_cache: Vec<(String, PrState)>,
    pub pr_selected: usize,
    pub mine_only: bool,
    pub github_user: Option<String>,
    /// When all pull requests were last asked for, in milliseconds.
    pub last_pr_fetch: Option<u64>,
    pub list_area: Rect,
    pub list_offset: usize,
    pub pr_list_area: Rect,
    pub pr_list_offset: usize,
}

/// The repos of a workspace.
#[verifier::ext_equal]
pub struct AppView {
    pub workspace: Workspace,
    pub selected: usize,
    pub page: Page,
    pub status_msg: Option<Seq<char>>,
    pub add_url: Seq<char>,
    pub add_name: Seq<char>,
    pub add_focus: usize,
    pub pr_cache: Seq<(Seq<char>, PrState)>,
    pub pr_selected: usize,
    pub mine_only: bool,
    pub github_user: Option<Seq<char>>,
    pub last_pr_fetch: Option<u64>,
    pub list_area: Rect,
    pub list_offset: usize,
    pub pr_list_area: Rect,
    pub pr_list_offset: usize,
}

/// A cache by the text of its names.
pub open spec fn named(s: Seq<(String, PrState)>) -> Seq<(Seq<char>, PrState)> {
    Seq::new(s.len(), |i: int| (s[i].0@, s[i].1))
}

impl View for App {
    type V = AppView;

    open spec fn view(&self) -> AppView {
        AppView {
            workspace: self.workspace,
            selected: self.selected,
            page: self.page,
            status_msg: opt_view(self.status_msg),
            add_url: self.add_url@,
            add_name: self.add_name@,
            add_focus: self.add_focus,
            pr_cache: named(self.pr_cache@),
            pr_selected: self.pr_selected,
            mine_only: self.mine_only,
            github_user: opt_view(self.github_user),
            last_pr_fetch: self.last_pr_fetch,
            list_area: self.list_area,
            list_offset: self.list_offset,
            pr_list_area: self.pr_list_area,
            pr_list_offset: self.pr_list_offset,
        }
    }
}

/// Terminal rows of a repo in the list: its name, its URL, its last commit, its
/// pull requests and a blank.
pub const REPO_ROWS: u16 = 5;

/// How often all pull requests are asked for, in milliseconds.
pub const REFRESH_INTERVAL: u64 = 300000;

// ── Names ────────────────────────────────────────────────────────────────────

/// A URL without its scheme and `.git`.
pub open spec fn short_url_of(url: Seq<char>) -> Seq<char> {
    let s = without_suffixes(url, ".git"@);
    if "git@"@.is_prefix_of(s) {
        s.skip("git@"@.len() as int)
    } else if "https://"@.is_prefix_of(s) {
        s.skip("https://"@.len() as int)
    } else if "http://"@.is_prefix_of(s) {
        s.skip("http://"@.len() as int)
    } else {
        s
    }
}

/// A URL without its scheme and `.git`.
pub fn short_url(url: &str) -> (out: String)
    ensures
        out@ == short_url_of(url@),
{
    proof {
        reveal_strlit(".git");
    }
    let s = trim_end_matches(url, ".git");
    if let Some(r) = strip_prefix(s.as_str(), "git@") {
        return r;
    }
    if let Some(r) = strip_prefix(s.as_str(), "https://") {
        return r;
    }
    if let Some(r) = strip_prefix(s.as_str(), "http://") {
        return r;
    }
    s
}

/// The name a repo has by its URL: the last part, without `.git`.
pub open spec fn inferred(url: Seq<char>) -> Seq<char> {
    without_suffixes(after_last(url, '/'), ".git"@)
}

/// See [`inferred`].
pub fn infer_name(url: &str) -> (out: String)
    ensures
        out@ == inferred(url@),
{
    proof {
        reveal_strlit(".git");
    }
    trim_end_matches(rsplit_last(url, '/').as_str(), ".git")
}

// ── Cache ────────────────────────────────────────────────────────────────────

/// The place of the first entry at or after `from` with that name.
pub open spec fn entry_from(cache: Seq<(Seq<char>, PrState)>, name: Seq<char>, from: int) -> Option<int>
    decreases cache.len() - from,
{
    if from >= cache.len() {
        None
    } else if cache[from].0 == name {
        Some(from)
    } else {
        entry_from(cache, name, from + 1)
    }
}

/// What is known of a repo.
pub open spec fn state_of(cache: Seq<(Seq<char>, PrState)>, name: Seq<char>) -> Option<PrState> {
    match entry_from(cache, name, 0) {
        Some(i) => Some(cache[i].1),
        None => None,
    }
}

/// The cache with that known of a repo.
pub open spec fn put(cache: Seq<(Seq<char>, PrState)>, name: Seq<char>, state: PrState) -> Seq<(Seq<char>, PrState)> {
    match entry_from(cache, name, 0) {
        Some(i) => cache.update(i, (name, state)),
        None => cache.push((name, state)),
    }
}

/// The entry found has the name, and none before it has.
proof fn entry_from_finds(cache: Seq<(Seq<char>, PrState)>, name: Seq<char>, from: int)
    requires
        0 <= from,
    ensures
        match entry_from(cache, name, from) {
            Some(i) => from <= i < cache.len() && cache[i].0 == name && forall|k: int|
                from <= k < i ==> (#[trigger] cache[k]).0 != name,
            None => forall|k: int| from <= k < cache.len() ==> (#[trigger] cache[k]).0 != name,
        },
    decreases cache.len() - from,
{
    if from < cache.len() && cache[from].0 != name {
        entry_from_finds(cache, name, from + 1);
    }
}

/// An entry with the name, and none before it, is the one found.
proof fn entry_from_is(cache: Seq<(Seq<char>, PrState)>, name: Seq<char>, from: int, i: int)
    requires
        0 <= from <= i < cache.len(),
        cache[i].0 == name,
        forall|k: int| from <= k < i ==> (#[trigger] cache[k]).0 != name,
    ensures
        entry_from(cache, name, from) == Some(i),
    decreases i - from,
{
    if from < i {
        assert(cache[from].0 != name);
        entry_from_is(cache, name, from + 1, i);
    }
}

/// What was put for a repo is what is known of it, and nothing else changes.
pub proof fn what_is_put_is_known(cache: Seq<(Seq<char>, PrState)>, name: Seq<char>, state: PrState, other: Seq<char>)
    ensures
        state_of(put(cache, name, state), name) == Some(state),
        other != name ==> state_of(put(cache, name, state), other) == state_of(cache, other),
{
    let new = put(cache, name, state);
    entry_from_finds(cache, name, 0);
    match entry_from(cache, name, 0) {
        Some(i) => {
            entry_from_is(new, name, 0, i);
        },
        None => {
            entry_from_is(new, name, 0, cache.len() as int);
        },
    }
    if other != name {
        entry_from_finds(cache, other, 0);
        entry_from_finds(new, other, 0);
        match entry_from(cache, other, 0) {
            Some(j) => {
                assert(new[j] == cache[j]);
                assert forall|k: int| 0 <= k < j implies (#[trigger] new[k]).0 != other by {
                    assert(cache[k].0 != other);
                }
                entry_from_is(new, other, 0, j);
            },
            None => {
                if let Some(j) = entry_from(new, other, 0) {
                    if j < cache.len() {
                        assert(cache[j].0 == new[j].0);
                    }
                }
            },
        }
    }
}

// ── State ────────────────────────────────────────────────────────────────────

/// Whether a pull request shows: all do, or only one's own.
pub open spec fn shows(p: Pr, mine_only: bool, user: Option<Seq<char>>) -> bool {
    !mine_only || user == Some(p.author@)
}

/// Places of the pull requests among the first `n` that show.
pub open spec fn shown(prs: Seq<Pr>, mine_only: bool, user: Option<Seq<char>>, n: int) -> Seq<usize>
    decreases n,
{
    if n <= 0 {
        Seq::empty()
    } else if shows(prs[n - 1], mine_only, user) {
        shown(prs, mine_only, user, n - 1).push((n - 1) as usize)
    } else {
        shown(prs, mine_only, user, n - 1)
    }
}

/// The places that show are places of pull requests that show, in order.
pub proof fn shown_are_exact(prs: Seq<Pr>, mine_only: bool, user: Option<Seq<char>>, n: int)
    requires
        0 <= n <= prs.len() <= usize::MAX,
    ensures
        shown(prs, mine_only, user, n).len() <= n,
        forall|k: int|
            0 <= k < shown(prs, mine_only, user, n).len() ==> (#[trigger] shown(prs, mine_only, user, n)[k]) < n && shows(
                prs[shown(prs, mine_only, user, n)[k] as int],
                mine_only,
                user,
            ),
        forall|i: int, j: int|
            0 <= i < j < shown(prs, mine_only, user, n).len() ==> (#[trigger] shown(prs, mine_only, user, n)[i]) < (
            #[trigger] shown(prs, mine_only, user, n)[j]),
        !mine_only ==> shown(prs, mine_only, user, n).len() == n,
    decreases n,
{
    if n > 0 {
        shown_are_exact(prs, mine_only, user, n - 1);
    }
}

impl AppView {
    /// The repos.
    pub open spec fn repos(self) -> Seq<RepoConfig> {
        self.workspace.config.repos@
    }

    /// What holds between events: the selection is on a repo as long as there
    /// are any, and the pop-up's cursor on a field.
    pub open spec fn wf(self) -> bool {
        &&& self.repos().len() > 0 ==> self.selected < self.repos().len()
        &&& self.add_focus < 2
    }

    /// The pull requests of the selected repo, where they are known.
    pub open spec fn loaded(self) -> Option<Seq<Pr>> {
        if self.selected < self.repos().len() {
            match state_of(self.pr_cache, self.repos()[self.selected as int].name@) {
                Some(PrState::Loaded(prs)) => Some(prs@),
                _ => None,
            }
        } else {
            None
        }
    }

    /// Places of the pull requests on screen.
    pub open spec fn visible(self) -> Seq<usize> {
        match self.loaded() {
            Some(prs) => shown(prs, self.mine_only, self.github_user, prs.len() as int),
            None => Seq::empty(),
        }
    }

    /// One repo up.
    pub open spec fn move_up(self) -> AppView {
        if self.selected > 0 {
            AppView { selected: (self.selected - 1) as usize, ..self }
        } else {
            self
        }
    }

    /// One repo down.
    pub open spec fn move_down(self) -> AppView {
        if self.selected + 1 < self.repos().len() {
            AppView { selected: (self.selected + 1) as usize, ..self }
        } else {
            self
        }
    }

    /// One pull request up.
    pub open spec fn move_pr_up(self) -> AppView {
        if self.pr_selected > 0 {
            AppView { pr_selected: (self.pr_selected - 1) as usize, ..self }
        } else {
            self
        }
    }

    /// One pull request down.
    pub open spec fn move_pr_down(self) -> AppView {
        if self.pr_selected + 1 < self.visible().len() {
            AppView { pr_selected: (self.pr_selected + 1) as usize, ..self }
        } else {
            self
        }
    }

    /// With the pop-up open.
    pub open spec fn enter_add(self) -> AppView {
        AppView {
            add_url: Seq::empty(),
            add_name: Seq::empty(),
            add_focus: 0,
            status_msg: None,
            page: Page::Add,
            ..self
        }
    }

    /// With the cursor on the other field; a name not given is inferred.
    pub open spec fn focus_next(self) -> AppView {
        let v = AppView { add_focus: if self.add_focus == 0 {
            1
        } else {
            0
        }, ..self };
        if v.add_focus == 1 && v.add_name.len() == 0 {
            AppView { add_name: inferred(v.add_url), ..v }
        } else {
            v
        }
    }

    /// What the pop-up asks for, or why it cannot.
    pub open spec fn add_request(self) -> Result<(Seq<char>, Seq<char>), Seq<char>> {
        let url = trimmed(self.add_url);
        if url.len() == 0 {
            Err("URL cannot be empty"@)
        } else if trimmed(self.add_name).len() == 0 {
            Ok((url, inferred(url)))
        } else {
            Ok((url, trimmed(self.add_name)))
        }
    }

    /// The workspace read anew, where it was found.
    pub open spec fn reloaded(self, found: Option<Workspace>) -> AppView {
        match found {
            Some(ws) => {
                let n = ws.config.repos@.len();
                AppView {
                    selected: if self.selected >= n && n > 0 {
                        (n - 1) as usize
                    } else {
                        self.selected
                    },
                    workspace: ws,
                    ..self
                }
            },
            None => self,
        }
    }

    /// The selected repo's pull requests asked for.
    pub open spec fn refresh_prs(self) -> (AppView, AskView) {
        if self.repos().len() == 0 {
            (self, AskView::Nothing)
        } else {
            let r = self.repos()[self.selected as int];
            (
                AppView { pr_cache: put(self.pr_cache, r.name@, PrState::Loading), ..self },
                AskView::Fetch(r.name@, r.url@),
            )
        }
    }

    /// The selected repo's pull requests shown, and asked for unless they are
    /// known or on their way.
    pub open spec fn enter_prs(self) -> (AppView, AskView) {
        if self.repos().len() == 0 {
            (self, AskView::Nothing)
        } else {
            let v = AppView { pr_selected: 0, page: Page::Prs, ..self };
            match state_of(self.pr_cache, self.repos()[self.selected as int].name@) {
                Some(PrState::Loaded(_)) => (v, AskView::Nothing),
                Some(PrState::Loading) => (v, AskView::Nothing),
                _ => v.refresh_prs(),
            }
        }
    }

    /// What opening the selected pull request asks for.
    pub open spec fn browsing(self) -> AskView {
        if self.pr_selected < self.visible().len() {
            AskView::Browse((self.loaded()->0)[self.visible()[self.pr_selected as int] as int].url@)
        } else {
            AskView::Nothing
        }
    }

    /// A key in the list.
    pub open spec fn list_key(self, key: KeyEvent) -> (AppView, AskView) {
        match key.code {
            KeyCode::Down => (self.move_down(), AskView::Nothing),
            KeyCode::Up => (self.move_up(), AskView::Nothing),
            KeyCode::Enter => self.enter_prs(),
            KeyCode::Char(c) => if c == 'j' {
                (self.move_down(), AskView::Nothing)
            } else if c == 'k' {
                (self.move_up(), AskView::Nothing)
            } else if c == 'a' {
                (self.enter_add(), AskView::Nothing)
            } else if c == 'r' {
                (self, AskView::Reload)
            } else if c == 'p' {
                self.enter_prs()
            } else {
                (self, AskView::Nothing)
            },
            _ => (self, AskView::Nothing),
        }
    }

    /// A key among the pull requests.
    pub open spec fn pr_key(self, key: KeyEvent) -> (AppView, AskView) {
        match key.code {
            KeyCode::Esc => (AppView { page: Page::List, ..self }, AskView::Nothing),
            KeyCode::Down => (self.move_pr_down(), AskView::Nothing),
            KeyCode::Up => (self.move_pr_up(), AskView::Nothing),
            KeyCode::Enter => (self, self.browsing()),
            KeyCode::Char(c) => if c == 'q' {
                (AppView { page: Page::List, ..self }, AskView::Nothing)
            } else if c == 'j' {
                (self.move_pr_down(), AskView::Nothing)
            } else if c == 'k' {
                (self.move_pr_up(), AskView::Nothing)
            } else if c == 'm' {
                (AppView { mine_only: !self.mine_only, pr_selected: 0, ..self }, AskView::Nothing)
            } else if c == 'o' {
                (self, self.browsing())
            } else if c == 'r' {
                self.refresh_prs()
            } else {
                (self, AskView::Nothing)
            },
            _ => (self, AskView::Nothing),
        }
    }

    /// A key in the pop-up.
    pub open spec fn add_key(self, key: KeyEvent) -> (AppView, AskView) {
        match key.code {
            KeyCode::Esc => (AppView { page: Page::List, status_msg: None, ..self }, AskView::Nothing),
            KeyCode::Tab | KeyCode::Down => (self.focus_next(), AskView::Nothing),
            KeyCode::Up => (AppView { add_focus: if self.add_focus == 0 {
                1
            } else {
                0
            }, ..self }, AskView::Nothing),
            KeyCode::Enter => match self.add_request() {
                Ok((url, name)) => (self, AskView::Add(url, name)),
                Err(e) => (AppView { status_msg: Some(e), ..self }, AskView::Nothing),
            },
            KeyCode::Backspace => if self.add_focus == 0 {
                (AppView { add_url: erased(self.add_url), ..self }, AskView::Nothing)
            } else {
                (AppView { add_name: erased(self.add_name), ..self }, AskView::Nothing)
            },
            KeyCode::Char(c) => if self.add_focus == 0 {
                (AppView { add_url: typed(self.add_url, c), ..self }, AskView::Nothing)
            } else {
                (AppView { add_name: typed(self.add_name, c), ..self }, AskView::Nothing)
            },
            _ => (self, AskView::Nothing),
        }
    }

    /// A key. Any key clears the message first.
    pub open spec fn handle_key(self, key: KeyEvent) -> (AppView, AskView) {
        let v = AppView { status_msg: None, ..self };
        match self.page {
            Page::List => if key.modifiers == KeyModifiers::none() && (key.code == KeyCode::Char('q') || key.code
                == KeyCode::Esc) {
                (v, AskView::Quit)
            } else {
                v.list_key(key)
            },
            Page::Prs => v.pr_key(key),
            Page::Add => v.add_key(key),
        }
    }

    /// A mouse event. The wheel moves the selection; a click selects what it
    /// lands on, and only the keyboard activates.
    pub open spec fn handle_mouse(self, m: MouseEvent) -> AppView {
        match self.page {
            Page::List => match m.kind {
                MouseEventKind::ScrollDown => self.move_down(),
                MouseEventKind::ScrollUp => self.move_up(),
                MouseEventKind::Down(MouseButton::Left) => match item_at_spec(
                    self.list_area,
                    0,
                    self.list_offset,
                    REPO_ROWS,
                    m.column,
                    m.row,
                ) {
                    Some(i) => if i < self.repos().len() {
                        AppView { status_msg: None, selected: i, ..self }
                    } else {
                        self
                    },
                    None => self,
                },
                _ => self,
            },
            Page::Prs => match m.kind {
                MouseEventKind::ScrollDown => self.move_pr_down(),
                MouseEventKind::ScrollUp => self.move_pr_up(),
                MouseEventKind::Down(MouseButton::Left) => match item_at_spec(
                    self.pr_list_area,
                    0,
                    self.pr_list_offset,
                    1,
                    m.column,
                    m.row,
                ) {
                    Some(i) => if i < self.visible().len() {
                        AppView { pr_selected: i, ..self }
                    } else {
                        self
                    },
                    None => self,
                },
                _ => self,
            },
            Page::Add => self,
        }
    }

    /// What a worker sent, taken in.
    pub open spec fn told(self, m: Msg) -> AppView {
        match m {
            Msg::PrResult { repo_name, result } => AppView {
                pr_cache: put(
                    self.pr_cache,
                    repo_name@,
                    match result {
                        Ok(prs) => PrState::Loaded(prs),
                        Err(e) => PrState::Error(e),
                    },
                ),
                ..self
            },
            Msg::GithubUser(user) => AppView { github_user: Some(user@), ..self },
        }
    }
}

/// The cache once the first `n` repos are asked for, and which of them are:
/// those not on their way already.
pub open spec fn all_asked(
    repos: Seq<RepoConfig>,
    cache: Seq<(Seq<char>, PrState)>,
    n: int,
) -> (Seq<(Seq<char>, PrState)>, Seq<(Seq<char>, Seq<char>)>)
    decreases n,
{
    if n <= 0 {
        (cache, Seq::empty())
    } else {
        let (c, asked) = all_asked(repos, cache, n - 1);
        let r = repos[n - 1];
        if state_of(c, r.name@) is Some && state_of(c, r.name@)->0 is Loading {
            (c, asked)
        } else {
            (put(c, r.name@, PrState::Loading), asked.push((r.name@, r.url@)))
        }
    }
}

/// Fetches by their texts.
pub open spec fn fetches(s: Seq<Fetch>) -> Seq<(Seq<char>, Seq<char>)> {
    Seq::new(s.len(), |i: int| (s[i].name@, s[i].url@))
}

impl App {
    /// The repos of a workspace, nothing known of their pull requests yet.
    pub fn new(workspace: Workspace) -> (a: App)
        ensures
            a@.workspace == workspace,
            a@.selected == 0,
            a@.page == Page::List,
            a@.status_msg is None,
            a@.add_url.len() == 0,
            a@.add_name.len() == 0,
            a@.add_focus == 0,
            a@.pr_cache.len() == 0,
            a@.pr_selected == 0,
            a@.mine_only,
            a@.github_user is None,
            a@.last_pr_fetch is None,
            a@.list_area == Rect::empty(),
            a@.list_offset == 0,
            a@.pr_list_area == Rect::empty(),
            a@.pr_list_offset == 0,
            a@.wf(),
    {
        App {
            workspace,
            selected: 0,
            page: Page::List,
            status_msg: None,
            add_url: String::new(),
            add_name: String::new(),
            add_focus: 0,
            pr_cache: Vec::new(),
            pr_selected: 0,
            mine_only: true,
            github_user: None,
            last_pr_fetch: None,
            list_area: Rect::empty(),
            list_offset: 0,
            pr_list_area: Rect::empty(),
            pr_list_offset: 0,
        }
    }

    /// The place of a repo's entry in the cache.
    pub fn entry_of(&self, name: &str) -> (at: Option<usize>)
        ensures
            match (at, entry_from(self@.pr_cache, name@, 0)) {
                (Some(a), Some(b)) => a == b && a < self.pr_cache@.len(),
                (None, None) => true,
                _ => false,
            },
    {
        let mut i: usize = 0;
        while i < self.pr_cache.len()
            invariant
                i <= self.pr_cache@.len(),
                entry_from(self@.pr_cache, name@, 0) == entry_from(self@.pr_cache, name@, i as int),
            decreases self.pr_cache@.len() - i,
        {
            assert(self@.pr_cache[i as int].0 == self.pr_cache@[i as int].0@);
            if same(self.pr_cache[i].0.as_str(), name) {
                return Some(i);
            }
            i += 1;
        }
        None
    }

    /// Remember what is known of a repo.
    fn put(&mut self, name: &str, state: PrState)
        requires
            old(self)@.wf(),
        ensures
            final(self)@ == (AppView { pr_cache: put(old(self)@.pr_cache, name@, state), ..old(self)@ }),
            final(self)@.wf(),
    {
        let ghost before = self.pr_cache@;
        match self.entry_of(name) {
            Some(i) => {
                self.pr_cache[i].1 = state;
                proof {
                    entry_from_finds(named(before), name@, 0);
                }
                assert(self.pr_cache@ =~= before.update(i as int, (before[i as int].0, state)));
                assert(named(self.pr_cache@) =~= named(before).update(i as int, (name@, state)));
            },
            None => {
                self.pr_cache.push((own(name), state));
                assert(named(self.pr_cache@) =~= named(before).push((name@, state)));
            },
        }
    }

    /// Places of the pull requests on screen.
    pub fn visible_prs(&self) -> (places: Vec<usize>)
        ensures
            places@ == self@.visible(),
    {
        let mut places: Vec<usize> = Vec::new();
        if self.selected >= self.workspace.config.repos.len() {
            assert(places@ =~= self@.visible());
            return places;
        }
        match self.entry_of(self.workspace.config.repos[self.selected].name.as_str()) {
            None => {},
            Some(e) => {
                assert(self@.pr_cache[e as int].1 == self.pr_cache@[e as int].1);
                if let PrState::Loaded(prs) = &self.pr_cache[e].1 {
                    let mut i: usize = 0;
                    while i < prs.len()
                        invariant
                            i <= prs@.len(),
                            places@ == shown(prs@, self.mine_only, self@.github_user, i as int),
                        decreases prs@.len() - i,
                    {
                        if !self.mine_only || is_some_of(&self.github_user, prs[i].author.as_str()) {
                            places.push(i);
                        }
                        i += 1;
                    }
                    return places;
                }
            },
        }
        assert(places@ =~= self@.visible());
        places
    }

    /// One repo up.
    fn move_up(&mut self)
        requires
            old(self)@.wf(),
        ensures
            final(self)@ == old(self)@.move_up(),
            final(self)@.wf(),
    {
        if self.selected > 0 {
            self.selected -= 1;
        }
    }

    /// One repo down.
    fn move_down(&mut self)
        requires
            old(self)@.wf(),
        ensures
            final(self)@ == old(self)@.move_down(),
            final(self)@.wf(),
    {
        let n: usize = self.workspace.config.repos.len();
        if self.selected < n && self.selected + 1 < n {
            self.selected += 1;
        }
    }

    /// One pull request up.
    fn move_pr_up(&mut self)
        requires
            old(self)@.wf(),
        ensures
            final(self)@ == old(self)@.move_pr_up(),
            final(self)@.wf(),
    {
        if self.pr_selected > 0 {
            self.pr_selected -= 1;
        }
    }

    /// One pull request down.
    fn move_pr_down(&mut self)
        requires
            old(self)@.wf(),
        ensures
            final(self)@ == old(self)@.move_pr_down(),
            final(self)@.wf(),
    {
        let n: usize = self.visible_prs().len();
        if self.pr_selected < n && self.pr_selected + 1 < n {
            self.pr_selected += 1;
        }
    }

    /// Open the pop-up.
    fn enter_add(&mut self)
        requires
            old(self)@.wf(),
        ensures
            final(self)@ == old(self)@.enter_add(),
            final(self)@.wf(),
    {
        self.add_url = String::new();
        self.add_name = String::new();
        assert(self.add_url@ =~= Seq::<char>::empty());
        assert(self.add_name@ =~= Seq::<char>::empty());
        self.add_focus = 0;
        self.status_msg = None;
        self.page = Page::Add;
    }

    /// The other field of the pop-up; a name not given is inferred.
    fn add_focus_next(&mut self)
        requires
            old(self)@.wf(),
        ensures
            final(self)@ == old(self)@.focus_next(),
            final(self)@.wf(),
    {
        self.add_focus = if self.add_focus == 0 { 1 } else { 0 };
        if self.add_focus == 1 && self.add_name.as_str().is_empty() {
            self.add_name = infer_name(self.add_url.as_str());
        }
    }

    /// What the pop-up asks for, or why it cannot.
    fn add_request(&self) -> (r: Result<(String, String), String>)
        ensures
            match (r, self@.add_request()) {
                (Ok((a, b)), Ok((c, d))) => a@ == c && b@ == d,
                (Err(e), Err(f)) => e@ == f,
                _ => false,
            },
    {
        let url = trim(self.add_url.as_str());
        if url.as_str().is_empty() {
            return Err(own("URL cannot be empty"));
        }
        let name = trim(self.add_name.as_str());
        let name = if name.as_str().is_empty() { infer_name(url.as_str()) } else { name };
        Ok((url, name))
    }

    /// The repo was added, or not, for a reason; `found` is the workspace read
    /// after.
    pub fn added(&mut self, done: Result<(), String>, found: Option<Workspace>)
        requires
            old(self)@.wf(),
        ensures
            final(self)@ == (match done {
                Ok(_) => (AppView { page: Page::List, ..old(self)@ }).reloaded(found),
                Err(e) => AppView { status_msg: Some(e@), ..old(self)@ },
            }),
            final(self)@.wf(),
    {
        match done {
            Ok(_) => {
                self.page = Page::List;
                self.reload(found);
            },
            Err(e) => {
                self.status_msg = Some(e);
            },
        }
    }

    /// Take the workspace read anew, where it was found.
    pub fn reload(&mut self, found: Option<Workspace>)
        requires
            old(self)@.wf(),
        ensures
            final(self)@ == old(self)@.reloaded(found),
            final(self)@.wf(),
    {
        if let Some(ws) = found {
            let n: usize = ws.config.repos.len();
            if self.selected >= n && n > 0 {
                self.selected = n - 1;
            }
            self.workspace = ws;
        }
    }

    /// Ask for the selected repo's pull requests.
    fn refresh_prs(&mut self) -> (a: Ask)
        requires
            old(self)@.wf(),
        ensures
            (final(self)@, a@) == old(self)@.refresh_prs(),
            final(self)@.wf(),
    {
        if self.workspace.config.repos.len() == 0 {
            return Ask::Nothing;
        }
        let name = self.workspace.config.repos[self.selected].name.clone();
        let url = self.workspace.config.repos[self.selected].url.clone();
        self.put(name.as_str(), PrState::Loading);
        Ask::Fetch(Fetch { name, url })
    }

    /// Show the selected repo's pull requests.
    fn enter_prs(&mut self) -> (a: Ask)
        requires
            old(self)@.wf(),
        ensures
            (final(self)@, a@) == old(self)@.enter_prs(),
            final(self)@.wf(),
    {
        if self.workspace.config.repos.len() == 0 {
            return Ask::Nothing;
        }
        let known: bool = match self.entry_of(self.workspace.config.repos[self.selected].name.as_str()) {
            Some(i) => {
                assert(self@.pr_cache[i as int].1 == self.pr_cache@[i as int].1);
                match self.pr_cache[i].1 {
                    PrState::Loaded(_) => true,
                    PrState::Loading => true,
                    PrState::Error(_) => false,
                }
            },
            None => false,
        };
        self.pr_selected = 0;
        self.page = Page::Prs;
        if known {
            return Ask::Nothing;
        }
        self.refresh_prs()
    }

    /// Open the selected pull request in the browser.
    fn open_selected_pr(&self) -> (a: Ask)
        ensures
            a@ == self@.browsing(),
    {
        let places = self.visible_prs();
        if self.pr_selected >= places.len() {
            return Ask::Nothing;
        }
        assert(self@.visible().len() > 0);
        assert(self@.loaded() is Some);
        let place: usize = places[self.pr_selected];
        match self.entry_of(self.workspace.config.repos[self.selected].name.as_str()) {
            Some(e) => {
                assert(self@.pr_cache[e as int].1 == self.pr_cache@[e as int].1);
                match &self.pr_cache[e].1 {
                    PrState::Loaded(prs) => {
                        proof {
                            vec_fits(*prs);
                            shown_are_exact(prs@, self.mine_only, self@.github_user, prs@.len() as int);
                        }
                        Ask::Browse(prs[place].url.clone())
                    },
                    _ => Ask::Nothing,
                }
            },
            None => Ask::Nothing,
        }
    }

    /// Ask for every repo's pull requests, but for those on their way.
    pub fn refresh_all_prs(&mut self, now: u64) -> (out: Vec<Fetch>)
        requires
            old(self)@.wf(),
        ensures
            ({
                let (cache, asked) = all_asked(
                    old(self)@.repos(),
                    old(self)@.pr_cache,
                    old(self)@.repos().len() as int,
                );
                &&& final(self)@ == (AppView { pr_cache: cache, last_pr_fetch: Some(now), ..old(self)@ })
                &&& fetches(out@) == asked
            }),
            final(self)@.wf(),
    {
        let ghost v = self@;
        let mut out: Vec<Fetch> = Vec::new();
        let mut i: usize = 0;
        assert(fetches(out@) =~= Seq::empty());
        while i < self.workspace.config.repos.len()
            invariant
                i <= v.repos().len(),
                self@ == (AppView { pr_cache: all_asked(v.repos(), v.pr_cache, i as int).0, ..v }),
                self@.wf(),
                fetches(out@) == all_asked(v.repos(), v.pr_cache, i as int).1,
            decreases v.repos().len() - i,
        {
            let name = self.workspace.config.repos[i].name.clone();
            let url = self.workspace.config.repos[i].url.clone();
            let loading: bool = match self.entry_of(name.as_str()) {
                Some(e) => {
                    assert(self@.pr_cache[e as int].1 == self.pr_cache@[e as int].1);
                    match self.pr_cache[e].1 {
                        PrState::Loading => true,
                        _ => false,
                    }
                },
                None => false,
            };
            if !loading {
                self.put(name.as_str(), PrState::Loading);
                let ghost before = fetches(out@);
                out.push(Fetch { name, url });
                assert(fetches(out@) =~= before.push((v.repos()[i as int].name@, v.repos()[i as int].url@)));
            }
            i += 1;
        }
        self.last_pr_fetch = Some(now);
        out
    }

    /// Whether all pull requests are to be asked for.
    pub fn should_auto_refresh(&self, now: u64) -> (yes: bool)
        ensures
            yes == crate::column_events::due(self@.last_pr_fetch, REFRESH_INTERVAL, now),
    {
        match self.last_pr_fetch {
            None => true,
            Some(t) => now >= t && now - t >= REFRESH_INTERVAL,
        }
    }

    /// A key in the list.
    fn handle_list_key(&mut self, key: KeyEvent) -> (a: Ask)
        requires
            old(self)@.wf(),
        ensures
            (final(self)@, a@) == old(self)@.list_key(key),
            final(self)@.wf(),
    {
        match key.code {
            KeyCode::Down => self.move_down(),
            KeyCode::Up => self.move_up(),
            KeyCode::Enter => {
                return self.enter_prs();
            },
            KeyCode::Char(c) => {
                if c == 'j' {
                    self.move_down();
                } else if c == 'k' {
                    self.move_up();
                } else if c == 'a' {
                    self.enter_add();
                } else if c == 'r' {
                    return Ask::Reload;
                } else if c == 'p' {
                    return self.enter_prs();
                }
            },
            _ => {},
        }
        Ask::Nothing
    }

    /// A key among the pull requests.
    fn handle_pr_key(&mut self, key: KeyEvent) -> (a: Ask)
        requires
            old(self)@.wf(),
        ensures
            (final(self)@, a@) == old(self)@.pr_key(key),
            final(self)@.wf(),
    {
        match key.code {
            KeyCode::Esc => {
                self.page = Page::List;
            },
            KeyCode::Down => self.move_pr_down(),
            KeyCode::Up => self.move_pr_up(),
            KeyCode::Enter => {
                return self.open_selected_pr();
            },
            KeyCode::Char(c) => {
                if c == 'q' {
                    self.page = Page::List;
                } else if c == 'j' {
                    self.move_pr_down();
                } else if c == 'k' {
                    self.move_pr_up();
                } else if c == 'm' {
                    self.mine_only = !self.mine_only;
                    self.pr_selected = 0;
                } else if c == 'o' {
                    return self.open_selected_pr();
                } else if c == 'r' {
                    return self.refresh_prs();
                }
            },
            _ => {},
        }
        Ask::Nothing
    }

    /// A key in the pop-up.
    fn handle_add_key(&mut self, key: KeyEvent) -> (a: Ask)
        requires
            old(self)@.wf(),
        ensures
            (final(self)@, a@) == old(self)@.add_key(key),
            final(self)@.wf(),
    {
        match key.code {
            KeyCode::Esc => {
                self.page = Page::List;
                self.status_msg = None;
            },
            KeyCode::Tab | KeyCode::Down => self.add_focus_next(),
            KeyCode::Up => {
                self.add_focus = if self.add_focus == 0 { 1 } else { 0 };
            },
            KeyCode::Enter => match self.add_request() {
                Ok((url, name)) => {
                    return Ask::Add { url, name };
                },
                Err(e) => {
                    self.status_msg = Some(e);
                },
            },
            KeyCode::Backspace => {
                if self.add_focus == 0 {
                    let _ = self.add_url.pop();
                } else {
                    let _ = self.add_name.pop();
                }
            },
            KeyCode::Char(c) => {
                if self.add_focus == 0 {
                    self.add_url.push(c);
                } else {
                    self.add_name.push(c);
                }
            },
            _ => {},
        }
        Ask::Nothing
    }

    /// Handle a key.
    pub fn handle_key(&mut self, key: KeyEvent) -> (a: Ask)
        requires
            old(self)@.wf(),
        ensures
            (final(self)@, a@) == old(self)@.handle_key(key),
            final(self)@.wf(),
    {
        self.status_msg = None;
        match self.page {
            Page::List => {
                if key.modifiers == KeyModifiers::none() && (key.code == KeyCode::Char('q') || key.code
                    == KeyCode::Esc) {
                    return Ask::Quit;
                }
                self.handle_list_key(key)
            },
            Page::Prs => self.handle_pr_key(key),
            Page::Add => self.handle_add_key(key),
        }
    }

    /// Handle a mouse event.
    pub fn handle_mouse(&mut self, m: MouseEvent)
        requires
            old(self)@.wf(),
        ensures
            final(self)@ == old(self)@.handle_mouse(m),
            final(self)@.wf(),
    {
        match self.page {
            Page::List => match m.kind {
                MouseEventKind::ScrollDown => self.move_down(),
                MouseEventKind::ScrollUp => self.move_up(),
                MouseEventKind::Down(MouseButton::Left) => {
                    if let Some(i) = item_at(self.list_area, 0, self.list_offset, REPO_ROWS, m.column, m.row) {
                        if i < self.workspace.config.repos.len() {
                            self.status_msg = None;
                            self.selected = i;
                        }
                    }
                },
                _ => {},
            },
            Page::Prs => match m.kind {
                MouseEventKind::ScrollDown => self.move_pr_down(),
                MouseEventKind::ScrollUp => self.move_pr_up(),
                MouseEventKind::Down(MouseButton::Left) => {
                    if let Some(i) = item_at(self.pr_list_area, 0, self.pr_list_offset, 1, m.column, m.row) {
                        if i < self.visible_prs().len() {
                            self.pr_selected = i;
                        }
                    }
                },
                _ => {},
            },
            Page::Add => {},
        }
    }

    /// Take in what a worker sent.
    pub fn receive(&mut self, m: Msg)
        requires
            old(self)@.wf(),
        ensures
            final(self)@ == old(self)@.told(m),
            final(self)@.wf(),
    {
        match m {
            Msg::PrResult { repo_name, result } => match result {
                Ok(prs) => self.put(repo_name.as_str(), PrState::Loaded(prs)),
                Err(e) => self.put(repo_name.as_str(), PrState::Error(e)),
            },
            Msg::GithubUser(user) => {
                self.github_user = Some(user);
            },
        }
    }
}

/// A fetch that was asked for shows as on its way, until a worker sends its
/// result, which is then what is known.
pub proof fn results_replace_loading(v: AppView, name: Seq<char>, prs: Vec<Pr>, repo_name: String)
    requires
        repo_name@ == name,
    ensures
        state_of(v.told(Msg::PrResult { repo_name, result: Ok(prs) }).pr_cache, name) == Some(PrState::Loaded(prs)),
        v.repos().len() > 0 ==> state_of(
            v.refresh_prs().0.pr_cache,
            v.repos()[v.selected as int].name@,
        ) == Some(PrState::Loading),
{
    what_is_put_is_known(v.pr_cache, name, PrState::Loaded(prs), name);
    if v.repos().len() > 0 {
        what_is_put_is_known(v.pr_cache, v.repos()[v.selected as int].name@, PrState::Loading, name);
    }
}

/// Down selects the next repo and stays on the last, up the one before and
/// stays on the first, and they undo each other in between.
pub proof fn repos_are_walked_one_by_one(v: AppView)
    requires
        v.selected < v.repos().len() <= usize::MAX,
    ensures
        v.selected + 1 < v.repos().len() ==> v.move_down().selected == v.selected + 1,
        v.selected + 1 == v.repos().len() ==> v.move_down() == v,
        v.selected > 0 ==> v.move_up().selected == v.selected - 1,
        v.selected == 0 ==> v.move_up() == v,
        v.selected + 1 < v.repos().len() ==> v.move_down().move_up() == v,
        v.pr_selected > 0 ==> v.move_pr_up().pr_selected == v.pr_selected - 1,
        v.pr_selected == 0 ==> v.move_pr_up() == v,
{
}

/// With the filter on, only one's own pull requests are shown; with it off, all.
pub proof fn the_filter_shows_ones_own(p: Pr, user: Seq<char>)
    ensures
        shows(p, false, Some(user)),
        shows(p, false, None),
        shows(p, true, Some(user)) <==> p.author@ == user,
        !shows(p, true, None),
{
}

} // verus!
