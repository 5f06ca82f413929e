//! The agent's own session registry: the shape of its files, and which processes
//! still count.
use vstd::prelude::*;
use vstd::string::*;

use crate::lines::{first_word, first_word_of};
use crate::path::{path_join, path_join_spec};
use crate::sessions::Session;
use crate::text::{after_last, cat3, own, rsplit_last, same};

verus! {

/// The on-disk shape. Everything optional: this file belongs to another program
/// and may gain or lose fields between its releases.
#[derive(Debug)]
pub struct RawSession {
    pub pid: Option<u32>,
    pub cwd: Option<String>,
    pub status: Option<String>,
    pub waiting_for: Option<String>,
    pub status_updated_at: Option<u64>,
    pub kind: Option<String>,
    pub session_id: Option<String>,
    pub tmux: Option<String>,
    pub parked_job_id: Option<String>,
    pub job_id: Option<String>,
}

/// The directory of the registry that `agent` keeps.
pub fn sessions_dir(home: &str, agent: &str) -> (p: String)
    ensures
        p@ == path_join_spec(home@, "."@ + agent@ + "/sessions"@),
{
    path_join(home, cat3(".", agent, "/sessions").as_str())
}

/// The session an entry of `agent`'s registry stands for; `alive` says whether
/// its process exists.
pub fn session_of(raw: RawSession, alive: bool, agent: &str) -> (s: Option<Session>)
    ensures
        if alive && raw.pid is Some && raw.cwd is Some {
            &&& s is Some
            &&& s->0.pid == raw.pid->0
            &&& s->0.cwd == raw.cwd->0
            &&& s->0.session_id == raw.session_id
            &&& s->0.status == raw.status
            &&& s->0.waiting_for == raw.waiting_for
            &&& s->0.status_updated_at == raw.status_updated_at
            &&& s->0.kind@ == (match raw.kind {
                Some(k) => k@,
                None => Seq::empty(),
            })
            &&& s->0.agent@ == agent@
            &&& s->0.tmux == raw.tmux
            &&& s->0.parked_job_id == raw.parked_job_id
            &&& s->0.job_id == raw.job_id
        } else {
            s is None
        },
{
    if !alive {
        return None;
    }
    match (raw.pid, raw.cwd) {
        (Some(pid), Some(cwd)) => {
            let kind = match raw.kind {
                Some(k) => k,
                None => String::new(),
            };
            Some(
                Session {
                    pid,
                    session_id: raw.session_id,
                    cwd,
                    status: raw.status,
                    waiting_for: raw.waiting_for,
                    status_updated_at: raw.status_updated_at,
                    kind,
                    agent: own(agent),
                    tmux: raw.tmux,
                    parked_job_id: raw.parked_job_id,
                    job_id: raw.job_id,
                },
            )
        },
        _ => None,
    }
}

/// Whether a line of `/proc/<pid>/stat` (`pid (comm) state ...`) is a zombie's.
/// The command may hold spaces and parentheses, so the state is the first word
/// after the last `)`.
pub open spec fn zombie_stat(stat: Seq<char>) -> bool {
    first_word_of(after_last(stat, ')')) == "Z"@
}

/// Whether a process counts as alive: it exists, and is not a zombie, which has
/// exited and only waits to be reaped. `stat` is its status line, where it
/// could be read; without one it is taken to be no zombie.
pub fn pid_alive(exists: bool, stat: Option<&str>) -> (alive: bool)
    ensures
        alive == (exists && !(stat is Some && zombie_stat(stat->0@))),
{
    if !exists {
        return false;
    }
    match stat {
        Some(line) => {
            let state = first_word(rsplit_last(line, ')').as_str());
            !same(state.as_str(), "Z")
        },
        None => true,
    }
}

} // verus!
