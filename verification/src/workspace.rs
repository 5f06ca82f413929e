//! Workspaces and their tasks: where things lie, and what the files there say.
//! Reading and writing them is the caller's.
use vstd::prelude::*;
use vstd::string::*;
use vstd::utf8::*;

use crate::lines::{comes_before, lines_of, name_list, names_of, text_less};
use crate::path::{file_name, file_name_of, parent, parent_of, path_join, path_join_spec};
use crate::sort::{sort, sorted_by};
use crate::text::{cat, cat3, contains, opt_view, own, same, strip_prefix, trim, trimmed, views};

verus! {

/// Why a workspace operation was refused.
#[derive(Debug)]
pub enum WorkspaceError {
    NotFound,
    AlreadyExists,
    TaskExists(String),
    TaskNotFound(String),
    RepoExists(String),
    RepoNotFound(String),
}

/// The refusal in words.
pub open spec fn error_message(e: WorkspaceError) -> Seq<char> {
    match e {
        WorkspaceError::NotFound => "workspace config.toml not found (run: tenx init <name>)"@,
        WorkspaceError::AlreadyExists => "workspace already exists"@,
        WorkspaceError::TaskExists(n) => "task '"@ + n@ + "' already exists"@,
        WorkspaceError::TaskNotFound(n) => "task '"@ + n@ + "' not found"@,
        WorkspaceError::RepoExists(n) => "repo '"@ + n@ + "' already in workspace"@,
        WorkspaceError::RepoNotFound(n) => "repo '"@ + n@ + "' not in workspace"@,
    }
}

impl WorkspaceError {
    /// The refusal in words.
    pub fn message(&self) -> (m: String)
        ensures
            m@ == error_message(*self),
    {
        match self {
            WorkspaceError::NotFound => own("workspace config.toml not found (run: tenx init <name>)"),
            WorkspaceError::AlreadyExists => own("workspace already exists"),
            WorkspaceError::TaskExists(n) => cat3("task '", n.as_str(), "' already exists"),
            WorkspaceError::TaskNotFound(n) => cat3("task '", n.as_str(), "' not found"),
            WorkspaceError::RepoExists(n) => cat3("repo '", n.as_str(), "' already in workspace"),
            WorkspaceError::RepoNotFound(n) => cat3("repo '", n.as_str(), "' not in workspace"),
        }
    }
}

/// Settings shared by all workspaces.
#[derive(Debug)]
pub struct GlobalConfig {
    pub bare_dir: String,
    /// How wide the column is; 0 leaves it to the screen.
    pub column_width: u16,
}

impl Default for GlobalConfig {
    /// Nothing set.
    fn default() -> (g: GlobalConfig)
        ensures
            g.bare_dir@.len() == 0,
            g.column_width == 0,
    {
        GlobalConfig { bare_dir: String::new(), column_width: 0 }
    }
}

/// A repository of a workspace.
#[derive(Debug)]
pub struct RepoConfig {
    pub name: String,
    pub url: String,
}

/// A workspace's `config.toml`.
#[derive(Debug)]
pub struct WorkspaceConfig {
    pub name: String,
    pub layout: String,
    pub repos: Vec<RepoConfig>,
    /// The age identity used for this workspace's secrets, where it is not the
    /// usual one.
    pub age_identity: Option<String>,
}

/// A task: a directory with worktrees.
#[derive(Debug)]
pub struct Task {
    /// Slug (directory name).
    pub name: String,
    /// Human-readable title.
    pub display_name: String,
    pub path: String,
    pub repos: Vec<String>,
    pub branch: String,
    /// Milliseconds since the epoch.
    pub created_at: u64,
}

/// A workspace: its directory and what its `config.toml` says.
#[derive(Debug)]
pub struct Workspace {
    pub dir: String,
    pub config: WorkspaceConfig,
}

// ── Where things lie ─────────────────────────────────────────────────────────

/// The global configuration file of the user whose home directory is `home`.
pub fn global_config_path(home: &str) -> (p: String)
    ensures
        p@ == path_join_spec(path_join_spec(path_join_spec(home@, ".config"@), "tenx"@), "config.toml"@),
{
    path_join(path_join(path_join(home, ".config").as_str(), "tenx").as_str(), "config.toml")
}

/// The directory with one file per registered workspace.
pub fn registry_dir(home: &str) -> (p: String)
    ensures
        p@ == path_join_spec(path_join_spec(path_join_spec(home@, ".config"@), "tenx"@), "workspaces.d"@),
{
    path_join(path_join(path_join(home, ".config").as_str(), "tenx").as_str(), "workspaces.d")
}

/// The single file that listed all workspaces before there was a directory.
pub fn legacy_registry_path(home: &str) -> (p: String)
    ensures
        p@ == path_join_spec(path_join_spec(path_join_spec(home@, ".config"@), "tenx"@), "workspaces.toml"@),
{
    path_join(path_join(path_join(home, ".config").as_str(), "tenx").as_str(), "workspaces.toml")
}

/// FNV-1a of a run of bytes.
pub open spec fn fnv(bytes: Seq<u8>) -> u64
    decreases bytes.len(),
{
    if bytes.len() == 0 {
        0xcbf29ce484222325
    } else {
        (fnv(bytes.drop_last()) ^ (bytes.last() as u64)).wrapping_mul(0x100000001b3)
    }
}

/// The lower-case hexadecimal digit of `n`.
pub open spec fn hex_char(n: int) -> char {
    if n < 10 {
        (0x30 + n) as char
    } else {
        (0x57 + n) as char
    }
}

/// The last `count` hexadecimal digits of `n`.
pub open spec fn hex_of(n: nat, count: nat) -> Seq<char>
    decreases count,
{
    if count == 0 {
        Seq::empty()
    } else {
        hex_of(n / 16, (count - 1) as nat).push(hex_char((n % 16) as int))
    }
}

/// The last `count` hexadecimal digits of `n`.
pub fn hex(n: u32, count: usize) -> (out: String)
    ensures
        out@ == hex_of(n as nat, count as nat),
    decreases count,
{
    if count == 0 {
        let out = String::new();
        assert(out@ =~= Seq::<char>::empty());
        out
    } else {
        let mut out = hex(n / 16, count - 1);
        let d: u8 = (n % 16) as u8;
        let c: u8 = if d < 10 { 0x30 + d } else { 0x57 + d };
        out.push(c as char);
        out
    }
}

/// Registry filename for a workspace: its slugified directory name plus a short
/// hash of the canonical path, so same-named workspaces don't collide.
pub open spec fn registry_key_spec(slug: Seq<char>, canon: Seq<char>) -> Seq<char> {
    (if slug.len() == 0 {
        "workspace"@
    } else {
        slug
    }) + "-"@ + hex_of((fnv(encode_utf8(canon)) >> 32) as nat, 8)
}

/// See [`registry_key_spec`]; `slug` is the slug of the directory's name, empty
/// if it has none.
pub fn registry_key(slug: &str, canon: &str) -> (key: String)
    ensures
        key@ == registry_key_spec(slug@, canon@),
{
    let bytes: Vec<u8> = canon.as_bytes_vec();
    let mut hash: u64 = 0xcbf29ce484222325;
    let mut i: usize = 0;
    while i < bytes.len()
        invariant
            i <= bytes@.len(),
            hash == fnv(bytes@.take(i as int)),
        decreases bytes@.len() - i,
    {
        assert(bytes@.take(i + 1).drop_last() =~= bytes@.take(i as int));
        hash = (hash ^ (bytes[i] as u64)).wrapping_mul(0x100000001b3);
        i += 1;
    }
    assert(bytes@.take(bytes@.len() as int) =~= bytes@);
    let top: u64 = hash >> 32;
    assert(top <= 0xffff_ffff) by (bit_vector)
        requires
            top == hash >> 32,
    ;
    let digits = hex(top as u32, 8);
    if slug.is_empty() {
        cat3("workspace", "-", digits.as_str())
    } else {
        cat3(slug, "-", digits.as_str())
    }
}

// ── Discovery ────────────────────────────────────────────────────────────────

/// A path and the directories above it, nearest first.
pub open spec fn ancestors_of(p: Seq<char>) -> Seq<Seq<char>>
    decreases p.len(),
{
    match parent_of(p) {
        Some(d) => if d.len() < p.len() {
            seq![p] + ancestors_of(d)
        } else {
            seq![p]
        },
        None => seq![p],
    }
}

/// A path and the directories above it, nearest first.
pub fn ancestors(dir: &str) -> (out: Vec<String>)
    ensures
        views(out@) == ancestors_of(dir@),
    decreases dir@.len(),
{
    let mut out: Vec<String> = Vec::new();
    out.push(own(dir));
    assert(views(out@) =~= seq![dir@]);
    if let Some(d) = parent(dir) {
        if d.as_str().unicode_len() < dir.unicode_len() {
            let mut rest: Vec<String> = ancestors(d.as_str());
            let ghost tail = rest@;
            out.append(&mut rest);
            assert(views(out@) =~= seq![dir@] + views(tail));
        }
    }
    out
}

/// The `config.toml` of each directory from `dir` upwards.
pub open spec fn config_paths(dir: Seq<char>) -> Seq<Seq<char>> {
    Seq::new(ancestors_of(dir).len(), |i: int| path_join_spec(ancestors_of(dir)[i], "config.toml"@))
}

/// The `config.toml` of each directory from `dir` upwards, nearest first: what
/// to look for.
pub fn candidates(dir: &str) -> (out: Vec<String>)
    ensures
        views(out@) == config_paths(dir@),
{
    let dirs: Vec<String> = ancestors(dir);
    let mut out: Vec<String> = Vec::new();
    let mut i: usize = 0;
    while i < dirs.len()
        invariant
            i <= dirs@.len(),
            out@.len() == i,
            views(dirs@) == ancestors_of(dir@),
            forall|k: int| 0 <= k < i ==> (#[trigger] out@[k])@ == path_join_spec(dirs@[k]@, "config.toml"@),
        decreases dirs@.len() - i,
    {
        out.push(path_join(dirs[i].as_str(), "config.toml"));
        i += 1;
    }
    assert(views(out@) =~= config_paths(dir@)) by {
        assert forall|k: int| 0 <= k < out@.len() implies views(out@)[k] == config_paths(dir@)[k] by {
            assert(views(dirs@)[k] == dirs@[k]@);
        }
    }
    out
}

/// The place of the first `true` at or after `from`.
pub open spec fn first_true(flags: Seq<bool>, from: int) -> Option<int>
    decreases flags.len() - from,
{
    if from >= flags.len() {
        None
    } else if flags[from] {
        Some(from)
    } else {
        first_true(flags, from + 1)
    }
}

/// Walk up from `dir` to the nearest directory whose `config.toml` exists;
/// `exists` says so of each of the [`candidates`].
pub fn find(dir: &str, exists: &Vec<bool>) -> (r: Result<String, WorkspaceError>)
    requires
        exists@.len() == ancestors_of(dir@).len(),
    ensures
        match (r, first_true(exists@, 0)) {
            (Ok(d), Some(i)) => d@ == ancestors_of(dir@)[i],
            (Err(e), None) => e is NotFound,
            _ => false,
        },
{
    let dirs: Vec<String> = ancestors(dir);
    let mut i: usize = 0;
    while i < exists.len()
        invariant
            i <= exists@.len(),
            views(dirs@) == ancestors_of(dir@),
            dirs@.len() == exists@.len(),
            first_true(exists@, 0) == first_true(exists@, i as int),
        decreases exists@.len() - i,
    {
        if exists[i] {
            assert(views(dirs@)[i as int] == dirs@[i as int]@);
            return Ok(dirs[i].clone());
        }
        i += 1;
    }
    Err(WorkspaceError::NotFound)
}

/// Like [`find`], but "no enclosing workspace" is no error. Any other error is
/// one.
pub fn find_opt(found: Result<Workspace, WorkspaceError>) -> (r: Result<Option<Workspace>, WorkspaceError>)
    ensures
        match found {
            Ok(w) => r == Ok::<Option<Workspace>, WorkspaceError>(Some(w)),
            Err(e) => if e is NotFound {
                r == Ok::<Option<Workspace>, WorkspaceError>(None)
            } else {
                r == Err::<Option<Workspace>, WorkspaceError>(e)
            },
        },
{
    match found {
        Ok(w) => Ok(Some(w)),
        Err(WorkspaceError::NotFound) => Ok(None),
        Err(e) => Err(e),
    }
}

/// A workspace at `dir` from what its `config.toml` holds, if there is one.
pub fn load(dir: &str, config: Option<WorkspaceConfig>) -> (r: Result<Workspace, WorkspaceError>)
    ensures
        match config {
            Some(c) => r matches Ok(w) && w.dir@ == dir@ && w.config == c,
            None => r matches Err(e) && e is NotFound,
        },
{
    match config {
        Some(config) => Ok(Workspace { dir: own(dir), config }),
        None => Err(WorkspaceError::NotFound),
    }
}

/// A new workspace in `dir` called `name`; refused where `dir` already has a
/// `config.toml`.
pub fn init(dir: &str, name: &str, has_config: bool) -> (r: Result<Workspace, WorkspaceError>)
    ensures
        has_config ==> (r matches Err(e) && e is AlreadyExists),
        !has_config ==> (r matches Ok(w) && w.dir@ == dir@ && w.config.name@ == name@ && w.config.layout@.len() == 0
            && w.config.repos@.len() == 0 && w.config.age_identity is None),
{
    if has_config {
        return Err(WorkspaceError::AlreadyExists);
    }
    let config = WorkspaceConfig { name: own(name), layout: String::new(), repos: Vec::new(), age_identity: None };
    Ok(Workspace { dir: own(dir), config })
}

/// Whether one workspace's name comes before another's.
pub open spec fn name_less(a: Workspace, b: Workspace) -> bool {
    text_less(a.config.name@, b.config.name@)
}

/// Workspaces by name.
pub fn by_name(workspaces: Vec<Workspace>) -> (out: Vec<Workspace>)
    ensures
        out@ == sorted_by(workspaces@, |a: Workspace, b: Workspace| name_less(a, b)),
{
    let less = |a: &Workspace, b: &Workspace| -> (r: bool)
        ensures
            r == name_less(*a, *b),
        { comes_before(a.config.name.as_str(), b.config.name.as_str()) };
    sort(workspaces, less, Ghost(|a: Workspace, b: Workspace| name_less(a, b)))
}

/// The first repository at or after `from` that is called `name`.
pub open spec fn repo_from(repos: Seq<RepoConfig>, name: Seq<char>, from: int) -> Option<int>
    decreases repos.len() - from,
{
    if from >= repos.len() {
        None
    } else if repos[from].name@ == name {
        Some(from)
    } else {
        repo_from(repos, name, from + 1)
    }
}

/// A found repository has the name and is the first that has.
pub proof fn repo_from_is_first(repos: Seq<RepoConfig>, name: Seq<char>, from: int)
    requires
        0 <= from,
    ensures
        match repo_from(repos, name, from) {
            Some(i) => from <= i < repos.len() && repos[i].name@ == name && forall|k: int|
                from <= k < i ==> (#[trigger] repos[k]).name@ != name,
            None => forall|k: int| from <= k < repos.len() ==> (#[trigger] repos[k]).name@ != name,
        },
    decreases repos.len() - from,
{
    if from < repos.len() && repos[from].name@ != name {
        repo_from_is_first(repos, name, from + 1);
    }
}

/// Repository names are unique.
pub open spec fn unique_names(repos: Seq<RepoConfig>) -> bool {
    forall|i: int, j: int| 0 <= i < j < repos.len() ==> (#[trigger] repos[i]).name@ != (#[trigger] repos[j]).name@
}

impl Workspace {
    /// Where the configuration is saved: the file, and the one to write first
    /// and then rename onto it.
    pub fn save_config(&self) -> (r: (String, String))
        ensures
            r.0@ == path_join_spec(self.dir@, "config.toml"@),
            r.1@ == path_join_spec(self.dir@, "config.toml.tmp"@),
    {
        (path_join(self.dir.as_str(), "config.toml"), path_join(self.dir.as_str(), "config.toml.tmp"))
    }

    /// Add a repository; refused where one of that name is there. The caller
    /// saves the configuration.
    pub fn add_repo(&mut self, repo: RepoConfig) -> (r: Result<(), WorkspaceError>)
        ensures
            repo_from(old(self).config.repos@, repo.name@, 0) is Some ==> *final(self) == *old(self) && (r matches Err(
                e,
            ) && e matches WorkspaceError::RepoExists(n) && n@ == repo.name@),
            repo_from(old(self).config.repos@, repo.name@, 0) is None ==> r is Ok && final(self).config.repos@
                == old(self).config.repos@.push(repo) && final(self).dir == old(self).dir && final(self).config.name
                == old(self).config.name && final(self).config.layout == old(self).config.layout
                && final(self).config.age_identity == old(self).config.age_identity,
            unique_names(old(self).config.repos@) ==> unique_names(final(self).config.repos@),
    {
        proof {
            repo_from_is_first(self.config.repos@, repo.name@, 0);
        }
        if self.find_repo(repo.name.as_str()).is_some() {
            return Err(WorkspaceError::RepoExists(repo.name));
        }
        self.config.repos.push(repo);
        Ok(())
    }

    /// The repository called `name`.
    pub fn find_repo(&self, name: &str) -> (r: Option<&RepoConfig>)
        ensures
            match (r, repo_from(self.config.repos@, name@, 0)) {
                (Some(a), Some(i)) => *a == self.config.repos@[i],
                (None, None) => true,
                _ => false,
            },
    {
        let mut i: usize = 0;
        while i < self.config.repos.len()
            invariant
                i <= self.config.repos@.len(),
                repo_from(self.config.repos@, name@, 0) == repo_from(self.config.repos@, name@, i as int),
            decreases self.config.repos@.len() - i,
        {
            if same(self.config.repos[i].name.as_str(), name) {
                return Some(&self.config.repos[i]);
            }
            i += 1;
        }
        None
    }

    /// The directory of the workspace's tasks.
    pub fn tasks_dir(&self) -> (p: String)
        ensures
            p@ == path_join_spec(self.dir@, "tasks"@),
    {
        path_join(self.dir.as_str(), "tasks")
    }

    /// Returns the effective bare directory; `home` is `$HOME`, if set.
    pub fn bare_dir(&self, global: &GlobalConfig, home: Option<&str>) -> (p: String)
        ensures
            p@ == (if global.bare_dir@.len() > 0 {
                expand_home_spec(global.bare_dir@, match home {
                    Some(h) => Some(h@),
                    None => None,
                })
            } else {
                path_join_spec(self.dir@, ".bare"@)
            }),
    {
        if !global.bare_dir.as_str().is_empty() {
            return expand_home(global.bare_dir.as_str(), home);
        }
        path_join(self.dir.as_str(), ".bare")
    }

    /// Where the task called `name` lies; `is_dir` says whether a directory is
    /// there.
    pub fn find_task(&self, name: &str, is_dir: bool) -> (r: Result<String, WorkspaceError>)
        ensures
            is_dir ==> (r matches Ok(p) && p@ == path_join_spec(path_join_spec(self.dir@, "tasks"@), name@)),
            !is_dir ==> (r matches Err(e) && e matches WorkspaceError::TaskNotFound(n) && n@ == name@),
    {
        if !is_dir {
            return Err(WorkspaceError::TaskNotFound(own(name)));
        }
        Ok(path_join(self.tasks_dir().as_str(), name))
    }

    /// Refuse a task name that is taken; `exists` says whether something lies
    /// where the task would.
    pub fn check_task_new(&self, name: &str, exists: bool) -> (r: Result<(), WorkspaceError>)
        ensures
            exists ==> (r matches Err(e) && e matches WorkspaceError::TaskExists(n) && n@ == name@),
            !exists ==> r is Ok,
    {
        if exists {
            return Err(WorkspaceError::TaskExists(own(name)));
        }
        Ok(())
    }
}

/// What is added can be found: the repository just added is the one its name
/// leads to, and every other name leads where it led before.
pub proof fn added_repos_are_found(repos: Seq<RepoConfig>, repo: RepoConfig, other: Seq<char>)
    requires
        repo_from(repos, repo.name@, 0) is None,
        other != repo.name@,
    ensures
        repo_from(repos.push(repo), repo.name@, 0) == Some(repos.len() as int),
        repo_from(repos.push(repo), other, 0) == repo_from(repos, other, 0),
{
    repo_from_is_first(repos, repo.name@, 0);
    repo_from_is_first(repos.push(repo), repo.name@, 0);
    repo_from_is_first(repos, other, 0);
    repo_from_is_first(repos.push(repo), other, 0);
    let more = repos.push(repo);
    assert(forall|k: int| 0 <= k < repos.len() ==> more[k] == repos[k]);
    assert(more[repos.len() as int] == repo);
}

// ── Tasks ────────────────────────────────────────────────────────────────────

/// Newest first.
pub open spec fn newer(a: Task, b: Task) -> bool {
    a.created_at > b.created_at
}

/// Tasks, newest first.
pub fn newest_first(tasks: Vec<Task>) -> (out: Vec<Task>)
    ensures
        out@ == sorted_by(tasks@, |a: Task, b: Task| newer(a, b)),
{
    let less = |a: &Task, b: &Task| -> (r: bool)
        ensures
            r == newer(*a, *b),
        { a.created_at > b.created_at };
    sort(tasks, less, Ghost(|a: Task, b: Task| newer(a, b)))
}

/// Whether an entry of a dump comes before another: by last activity, newest
/// first.
pub open spec fn livelier(a: (u64, usize), b: (u64, usize)) -> bool {
    a.0 > b.0
}

/// The entries of a dump, each its last activity and its place, in the order
/// they are dumped in: by activity, newest first, equal ones as they came.
pub fn by_activity(entries: Vec<(u64, usize)>) -> (out: Vec<(u64, usize)>)
    ensures
        out@ == sorted_by(entries@, |a: (u64, usize), b: (u64, usize)| livelier(a, b)),
{
    let less = |a: &(u64, usize), b: &(u64, usize)| -> (r: bool)
        ensures
            r == livelier(*a, *b),
        { a.0 > b.0 };
    sort(entries, less, Ghost(|a: (u64, usize), b: (u64, usize)| livelier(a, b)))
}

/// Names in order.
pub fn sorted_names(names: Vec<String>) -> (out: Vec<String>)
    ensures
        out@ == sorted_by(names@, |a: String, b: String| text_less(a@, b@)),
{
    let less = |a: &String, b: &String| -> (r: bool)
        ensures
            r == text_less(a@, b@),
        { comes_before(a.as_str(), b.as_str()) };
    sort(names, less, Ghost(|a: String, b: String| text_less(a@, b@)))
}

/// The first text that is not empty, or the empty one.
pub open spec fn first_nonempty(s: Seq<Seq<char>>) -> Seq<char>
    decreases s.len(),
{
    if s.len() == 0 {
        Seq::empty()
    } else if s[0].len() > 0 {
        s[0]
    } else {
        first_nonempty(s.skip(1))
    }
}

/// A task from what its directory holds: `title` from its notes, if they give
/// one; its worktrees with the branch each is on, in the order they were read.
pub fn discover_task(dir: &str, title: Option<String>, worktrees: Vec<String>, branches: &Vec<String>, created_at: u64) -> (t:
    Task)
    ensures
        t.name@ == (match file_name_of(dir@) {
            Some(n) => n,
            None => Seq::empty(),
        }),
        t.display_name@ == (match title {
            Some(x) => x@,
            None => t.name@,
        }),
        t.path@ == dir@,
        t.repos@ == sorted_by(worktrees@, |a: String, b: String| text_less(a@, b@)),
        t.branch@ == first_nonempty(views(branches@)),
        t.created_at == created_at,
{
    let name = match file_name(dir) {
        Some(n) => n,
        None => {
            let none = String::new();
            assert(none@ =~= Seq::<char>::empty());
            none
        },
    };
    let display_name = match title {
        Some(x) => x,
        None => name.clone(),
    };
    let mut branch = String::new();
    let mut i: usize = 0;
    let ghost all = views(branches@);
    assert(all.skip(0) =~= all);
    while i < branches.len() && branch.as_str().is_empty()
        invariant
            i <= branches@.len(),
            all == views(branches@),
            branch@.len() == 0 ==> first_nonempty(all) == first_nonempty(all.skip(i as int)),
            branch@.len() > 0 ==> first_nonempty(all) == branch@,
        decreases branches@.len() - i,
    {
        assert(all.skip(i as int)[0] == branches@[i as int]@);
        assert(all.skip(i as int).skip(1) =~= all.skip(i + 1));
        branch = branches[i].clone();
        i += 1;
    }
    assert(branch@ =~= first_nonempty(all));
    Task { name, display_name, path: own(dir), repos: sorted_names(worktrees), branch, created_at }
}

/// Where a task's notes lie.
pub fn notes_path(task_dir: &str) -> (p: String)
    ensures
        p@ == path_join_spec(task_dir@, "TASK.md"@),
{
    path_join(task_dir, "TASK.md")
}

/// A task's notes under a new title: `rewritten` where there were notes, else
/// just the heading.
pub fn titled_notes(rewritten: Option<String>, title: &str) -> (notes: String)
    ensures
        notes@ == (match rewritten {
            Some(n) => n@,
            None => "# "@ + title@ + "\n"@,
        }),
{
    match rewritten {
        Some(n) => n,
        None => cat3("# ", title, "\n"),
    }
}

/// A task's display name: its notes' heading, else its directory's name.
pub fn read_task_display_name(task_dir: &str, heading: Option<String>) -> (name: String)
    ensures
        name@ == (match heading {
            Some(h) => h@,
            None => match file_name_of(task_dir@) {
                Some(n) => n,
                None => Seq::empty(),
            },
        }),
{
    match heading {
        Some(h) => h,
        None => match file_name(task_dir) {
            Some(n) => n,
            None => {
                let none = String::new();
                assert(none@ =~= Seq::<char>::empty());
                none
            },
        },
    }
}

/// The directory of a worktree's git data, from what its `.git` file says; a
/// relative one is seen from the worktree.
pub open spec fn gitdir_spec(worktree: Seq<char>, content: Seq<char>) -> Option<Seq<char>> {
    if "gitdir: "@.is_prefix_of(content) {
        Some(path_join_spec(worktree, trimmed(content.skip("gitdir: "@.len() as int))))
    } else {
        None
    }
}

/// See [`gitdir_spec`].
pub fn gitdir(worktree: &str, content: &str) -> (dir: Option<String>)
    ensures
        opt_view(dir) == gitdir_spec(worktree@, content@),
{
    match strip_prefix(content, "gitdir: ") {
        Some(rest) => Some(path_join(worktree, trim(rest.as_str()).as_str())),
        None => None,
    }
}

/// The branch a `HEAD` file names.
pub open spec fn branch_spec(head: Seq<char>) -> Option<Seq<char>> {
    if "ref: refs/heads/"@.is_prefix_of(head) {
        Some(trimmed(head.skip("ref: refs/heads/"@.len() as int)))
    } else {
        None
    }
}

/// See [`branch_spec`].
pub fn read_branch(head: &str) -> (branch: Option<String>)
    ensures
        opt_view(branch) == branch_spec(head@),
{
    match strip_prefix(head, "ref: refs/heads/") {
        Some(rest) => Some(trim(rest.as_str())),
        None => None,
    }
}

/// Filename of a task's pending-secrets-*release* marker: "release something
/// already sealed". Distinct from [`secrets_pending_set_path`]: that one means
/// "someone needs to type in a value for something that doesn't exist yet".
pub fn secrets_pending_path(task_dir: &str) -> (p: String)
    ensures
        p@ == path_join_spec(task_dir@, ".secrets-pending"@),
{
    path_join(task_dir, ".secrets-pending")
}

/// Filename of a task's pending-secrets-*set* marker.
pub fn secrets_pending_set_path(task_dir: &str) -> (p: String)
    ensures
        p@ == path_join_spec(task_dir@, ".secrets-pending-set"@),
{
    path_join(task_dir, ".secrets-pending-set")
}

/// Secret names currently pending unlock, one per line of the marker. Empty if
/// there's no marker.
pub fn secrets_pending(marker: Option<&str>) -> (names: Vec<String>)
    ensures
        views(names@) == (match marker {
            Some(text) => names_of(lines_of(text@)),
            None => Seq::empty(),
        }),
{
    match marker {
        Some(text) => name_list(text),
        None => {
            let none: Vec<String> = Vec::new();
            assert(views(none@) =~= Seq::<Seq<char>>::empty());
            none
        },
    }
}

/// Secret names a human needs to supply a value for, one per line of the
/// marker. Empty if there's no marker.
pub fn secrets_pending_set(marker: Option<&str>) -> (names: Vec<String>)
    ensures
        views(names@) == (match marker {
            Some(text) => names_of(lines_of(text@)),
            None => Seq::empty(),
        }),
{
    secrets_pending(marker)
}

// ── Helpers ──────────────────────────────────────────────────────────────────

/// A path with `~/` at its start resolved, where the home directory is known.
pub open spec fn expand_home_spec(path: Seq<char>, home: Option<Seq<char>>) -> Seq<char> {
    if "~/"@.is_prefix_of(path) && home is Some {
        home->0 + "/"@ + path.skip("~/"@.len() as int)
    } else {
        path
    }
}

/// See [`expand_home_spec`].
pub fn expand_home(path: &str, home: Option<&str>) -> (out: String)
    ensures
        out@ == expand_home_spec(path@, match home {
            Some(h) => Some(h@),
            None => None,
        }),
{
    if let Some(rest) = strip_prefix(path, "~/") {
        if let Some(h) = home {
            return cat3(h, "/", rest.as_str());
        }
    }
    own(path)
}

/// Where each repository's bare clone lies.
pub fn bare_paths(bare_dir: &str, repos: &Vec<RepoConfig>) -> (out: Vec<String>)
    ensures
        out@.len() == repos@.len(),
        forall|i: int|
            0 <= i < repos@.len() ==> (#[trigger] out@[i])@ == path_join_spec(bare_dir@, repos@[i].name@ + ".git"@),
{
    let mut out: Vec<String> = Vec::new();
    let mut i: usize = 0;
    while i < repos.len()
        invariant
            i <= repos@.len(),
            out@.len() == i,
            forall|k: int|
                0 <= k < i ==> (#[trigger] out@[k])@ == path_join_spec(bare_dir@, repos@[k].name@ + ".git"@),
        decreases repos@.len() - i,
    {
        out.push(path_join(bare_dir, cat(repos[i].name.as_str(), ".git").as_str()));
        i += 1;
    }
    out
}

/// Whether a repository of that name is cloned.
pub open spec fn is_cloned(repos: Seq<RepoConfig>, exists: Seq<bool>, n: int, name: Seq<char>) -> bool {
    exists|i: int| 0 <= i < n && #[trigger] exists[i] && repos[i].name@ == name
}

/// The names of the repositories that are cloned, each once; `exists` says of
/// each of the [`bare_paths`] whether it does.
pub fn cloned_repos(repos: &Vec<RepoConfig>, exists: &Vec<bool>) -> (names: Vec<String>)
    requires
        exists@.len() == repos@.len(),
    ensures
        views(names@).no_duplicates(),
        forall|name: Seq<char>|
            views(names@).contains(name) == is_cloned(repos@, exists@, repos@.len() as int, name),
{
    let mut names: Vec<String> = Vec::new();
    let mut i: usize = 0;
    while i < repos.len()
        invariant
            i <= repos@.len(),
            exists@.len() == repos@.len(),
            views(names@).no_duplicates(),
            forall|name: Seq<char>| views(names@).contains(name) == is_cloned(repos@, exists@, i as int, name),
        decreases repos@.len() - i,
    {
        let ghost before = views(names@);
        let ghost this = repos@[i as int].name@;
        if exists[i] && !contains(&names, repos[i].name.as_str()) {
            names.push(repos[i].name.clone());
            assert(views(names@) =~= before.push(this));
        }
        assert forall|name: Seq<char>| views(names@).contains(name) == is_cloned(
            repos@,
            exists@,
            i + 1,
            name,
        ) by {
            assert(before.contains(name) == is_cloned(repos@, exists@, i as int, name));
            if is_cloned(repos@, exists@, i as int, name) {
                let k = choose|k: int| 0 <= k < i && #[trigger] exists@[k] && repos@[k].name@ == name;
                assert(exists@[k]);
                let m = choose|m: int| 0 <= m < before.len() && before[m] == name;
                assert(views(names@)[m] == name);
            }
            if exists@[i as int] && name == this {
                assert(is_cloned(repos@, exists@, i + 1, name));
                if views(names@).len() > before.len() {
                    assert(views(names@)[before.len() as int] == name);
                }
            }
        }
        i += 1;
    }
    names
}

/// A workspace's tasks are listed with the newest first.
pub proof fn the_newest_task_comes_first(tasks: Seq<Task>, i: int, j: int)
    requires
        0 <= i < j < sorted_by(tasks, |a: Task, b: Task| newer(a, b)).len(),
    ensures
        sorted_by(tasks, |a: Task, b: Task| newer(a, b))[i].created_at >= sorted_by(
            tasks,
            |a: Task, b: Task| newer(a, b),
        )[j].created_at,
{
    let less = |a: Task, b: Task| newer(a, b);
    assert(crate::sort::ranks(less));
    crate::sort::sorting_orders(tasks, less);
    assert(!less(sorted_by(tasks, less)[j], sorted_by(tasks, less)[i]));
}

/// What was active last comes first.
pub proof fn the_liveliest_comes_first(entries: Seq<(u64, usize)>, i: int, j: int)
    requires
        0 <= i < j < sorted_by(entries, |a: (u64, usize), b: (u64, usize)| livelier(a, b)).len(),
    ensures
        sorted_by(entries, |a: (u64, usize), b: (u64, usize)| livelier(a, b))[i].0 >= sorted_by(
            entries,
            |a: (u64, usize), b: (u64, usize)| livelier(a, b),
        )[j].0,
{
    let less = |a: (u64, usize), b: (u64, usize)| livelier(a, b);
    assert(crate::sort::ranks(less));
    crate::sort::sorting_orders(entries, less);
    assert(!less(sorted_by(entries, less)[j], sorted_by(entries, less)[i]));
}

} // verus!
