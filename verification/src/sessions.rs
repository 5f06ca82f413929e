//! The session registry: one record per live agent process, written by every
//! agent through the same path. What a record says, and which process it
//! belongs to; reading the files and asking the system are the caller's.
use vstd::prelude::*;
use vstd::string::*;

use crate::lines::{contains_text, holds, replace, replaced};
use crate::path::{file_name, file_name_of, path_join, path_join_spec, split_extension, stem_of, extension_of};
use crate::text::{cat3, cat, chars, decimal, decimal_of, number_of, own, parse_number, same};

verus! {

/// The on-disk record. Everything optional: a record may be written by an
/// older version or a partially updated agent integration.
#[derive(Debug)]
pub struct Record {
    pub pid: Option<u32>,
    pub cwd: Option<String>,
    pub status: Option<String>,
    pub waiting_for: Option<String>,
    pub status_updated_at: Option<u64>,
    pub kind: String,
    pub agent: Option<String>,
    pub session_id: Option<String>,
    pub transcript_path: Option<String>,
    /// The pane the session runs in (`"tenx:@14.%40"`).
    pub tmux: Option<String>,
    /// Parked-turn linkage, when an agent hands a turn to a daemon worker.
    pub parked_job_id: Option<String>,
    pub job_id: Option<String>,
}

/// A live agent session.
#[derive(Debug)]
pub struct Session {
    pub pid: u32,
    pub session_id: Option<String>,
    pub cwd: String,
    /// The status as the agent wrote it; none reads as idle.
    pub status: Option<String>,
    pub waiting_for: Option<String>,
    /// Milliseconds since the epoch.
    pub status_updated_at: Option<u64>,
    pub kind: String,
    pub agent: String,
    pub tmux: Option<String>,
    pub parked_job_id: Option<String>,
    pub job_id: Option<String>,
}

/// Directory holding the session records of the user at `home`.
pub fn registry_dir(home: &str) -> (p: String)
    ensures
        p@ == path_join_spec(home@, ".config/tenx/sessions"@),
{
    path_join(home, ".config/tenx/sessions")
}

/// The record of process `pid`.
pub fn record_path(home: &str, pid: u32) -> (p: String)
    ensures
        p@ == path_join_spec(path_join_spec(home@, ".config/tenx/sessions"@), decimal_of(pid as nat) + ".json"@),
{
    path_join(registry_dir(home).as_str(), cat(decimal(pid as u64).as_str(), ".json").as_str())
}

/// The file written first and then renamed onto the record of `pid`; `writer`
/// is the process that writes it.
pub fn record_tmp_path(home: &str, pid: u32, writer: u32) -> (p: String)
    ensures
        p@ == path_join_spec(
            path_join_spec(home@, ".config/tenx/sessions"@),
            decimal_of(pid as nat) + ".json.tmp."@ + decimal_of(writer as nat),
        ),
{
    let name = crate::text::cat3(decimal(pid as u64).as_str(), ".json.tmp.", decimal(writer as u64).as_str());
    path_join(registry_dir(home).as_str(), name.as_str())
}

/// Milliseconds since the Unix epoch, for `statusUpdatedAt`: those of a clock
/// that stands after it, 0 for one that does not.
pub fn now_millis(since_epoch: Option<u128>) -> (ms: u64)
    ensures
        ms == (match since_epoch {
            Some(m) => m as int % 0x1_0000_0000_0000_0000int,
            None => 0,
        }),
{
    match since_epoch {
        Some(m) => (m % 0x1_0000_0000_0000_0000) as u64,
        None => 0,
    }
}

/// Whether a file of the registry is a record: its name ends in `.json`.
pub open spec fn is_record(path: Seq<char>) -> bool {
    match file_name_of(path) {
        Some(n) => extension_of(n) == Some("json"@),
        None => false,
    }
}

/// See [`is_record`].
pub fn is_record_file(path: &str) -> (yes: bool)
    ensures
        yes == is_record(path@),
{
    match file_name(path) {
        Some(n) => {
            let (_, ext) = split_extension(n.as_str());
            crate::text::is_some_of(&ext, "json")
        },
        None => false,
    }
}

/// What becomes of a record: a session of a live process in a known directory.
pub open spec fn session_spec(raw: Record, alive: bool, agent: Seq<char>, s: Option<Session>) -> bool {
    if alive && raw.pid is Some && raw.cwd is Some {
        &&& s is Some
        &&& s->0.pid == raw.pid->0
        &&& s->0.cwd == raw.cwd->0
        &&& s->0.session_id == raw.session_id
        &&& s->0.status == raw.status
        &&& s->0.waiting_for == raw.waiting_for
        &&& s->0.status_updated_at == raw.status_updated_at
        &&& s->0.kind@ == (if raw.kind@.len() == 0 {
            "interactive"@
        } else {
            raw.kind@
        })
        &&& s->0.agent@ == (match raw.agent {
            Some(a) => a@,
            None => agent,
        })
        &&& s->0.tmux == raw.tmux
        &&& s->0.parked_job_id == raw.parked_job_id
        &&& s->0.job_id == raw.job_id
    } else {
        s is None
    }
}

/// The session a record stands for; `alive` says whether its process exists, and
/// `agent` is the default agent's name, which a record that names none has.
pub fn session_of(raw: Record, alive: bool, agent: &str) -> (s: Option<Session>)
    ensures
        session_spec(raw, alive, agent@, s),
{
    if !alive {
        return None;
    }
    match (raw.pid, raw.cwd) {
        (Some(pid), Some(cwd)) => {
            let kind = if raw.kind.as_str().is_empty() {
                own("interactive")
            } else {
                raw.kind
            };
            let agent = match raw.agent {
                Some(a) => a,
                None => own(agent),
            };
            Some(
                Session {
                    pid,
                    session_id: raw.session_id,
                    cwd,
                    status: raw.status,
                    waiting_for: raw.waiting_for,
                    status_updated_at: raw.status_updated_at,
                    kind,
                    agent,
                    tmux: raw.tmux,
                    parked_job_id: raw.parked_job_id,
                    job_id: raw.job_id,
                },
            )
        },
        _ => None,
    }
}

/// Whether the watcher removes a record: it is one, and no live process has the
/// pid its name gives. `alive` answers for that pid.
pub fn prunable(path: &str, alive: bool) -> (yes: bool)
    ensures
        yes == (is_record(path@) && !(alive && stem_pid(path@) is Some)),
{
    if !is_record_file(path) {
        return false;
    }
    let known: bool = read_stem_pid(path).is_some();
    !(known && alive)
}

/// Where `agent` keeps a directory's transcripts: its `projects` directory under
/// the home directory, plus the absolute path with every `/` turned into `-`.
pub fn project_dir(home: &str, cwd: &str, agent: &str) -> (p: String)
    ensures
        p@ == path_join_spec(path_join_spec(home@, "."@ + agent@ + "/projects"@), replaced(cwd@, "/"@, "-"@)),
{
    proof {
        reveal_strlit("/");
    }
    path_join(path_join(home, cat3(".", agent, "/projects").as_str()).as_str(), replace(cwd, "/", "-").as_str())
}

/// The agent's global config file, where its per-directory trust grants live.
pub fn global_config_path(home: &str, agent: &str) -> (p: String)
    ensures
        p@ == path_join_spec(home@, "."@ + agent@ + ".json"@),
{
    path_join(home, cat3(".", agent, ".json").as_str())
}

/// The paths to grant trust for: the one given, and the one it resolves to
/// where that differs.
pub fn trust_keys(given: &str, resolved: Option<String>) -> (keys: Vec<String>)
    ensures
        crate::text::views(keys@) == (if resolved is Some && resolved->0@ != given@ {
            seq![given@, resolved->0@]
        } else {
            seq![given@]
        }),
{
    let mut keys: Vec<String> = Vec::new();
    keys.push(own(given));
    assert(crate::text::views(keys@) =~= seq![given@]);
    if let Some(r) = resolved {
        if !same(r.as_str(), given) {
            keys.push(r);
            assert(crate::text::views(keys@) =~= seq![given@, r@]);
        }
    }
    keys
}

/// Whether a command is one of the agents'.
pub open spec fn is_agent(comm: Option<String>, names: Seq<&str>) -> bool {
    comm is Some && exists|i: int| 0 <= i < names.len() && holds(comm->0@, #[trigger] names[i]@)
}

/// The outcomes of climbing from `pid`: the first process whose command is an
/// agent's, up to `hops` parents away. A process that is its own parent, or
/// whose parent is `init` or unknown, ends the climb.
pub open spec fn climbs_to<F: Fn(u32) -> Option<String>, G: Fn(u32) -> Option<u32>>(
    pid: u32,
    names: Seq<&str>,
    hops: nat,
    comm_of: F,
    ppid_of: G,
    r: Option<u32>,
) -> bool
    decreases hops,
{
    exists|comm: Option<String>| #[trigger] call_ensures(comm_of, (pid,), comm) && if is_agent(comm, names) {
        r == Some(pid)
    } else if hops == 0 {
        r is None
    } else {
        exists|pp: Option<u32>| #[trigger] call_ensures(ppid_of, (pid,), pp) && if pp is Some && pp->0 != pid
            && pp->0 > 1 {
            climbs_to(pp->0, names, (hops - 1) as nat, comm_of, ppid_of, r)
        } else {
            r is None
        }
    }
}

/// Climb the parent-process chain from `start` (checked first) up to `max_hops`
/// levels, returning the first pid whose process command contains any of
/// `names`. This is how a hook, a short child process of the agent, finds the
/// agent's own pid to key its record by.
pub fn find_agent_pid<F: Fn(u32) -> Option<String>, G: Fn(u32) -> Option<u32>>(
    start: u32,
    names: &[&str],
    max_hops: u32,
    comm_of: &F,
    ppid_of: &G,
) -> (r: Option<u32>)
    requires
        forall|pid: u32| #[trigger] call_requires(*comm_of, (pid,)),
        forall|pid: u32| #[trigger] call_requires(*ppid_of, (pid,)),
    ensures
        climbs_to(start, names@, max_hops as nat, *comm_of, *ppid_of, r),
    decreases max_hops,
{
    let comm = comm_of(start);
    if let Some(text) = &comm {
        let mut i: usize = 0;
        while i < names.len()
            invariant
                i <= names@.len(),
                comm == Some(*text),
                call_ensures(*comm_of, (start,), comm),
                forall|k: int| 0 <= k < i ==> !holds(text@, #[trigger] names@[k]@),
            decreases names@.len() - i,
        {
            if contains_text(text.as_str(), names[i]) {
                assert(holds(text@, names@[i as int]@));
                assert(is_agent(comm, names@));
                return Some(start);
            }
            i += 1;
        }
    }
    assert(!is_agent(comm, names@));
    if max_hops == 0 {
        return None;
    }
    let pp = ppid_of(start);
    if let Some(p) = pp {
        if p != start && p > 1 {
            return find_agent_pid(p, names, max_hops - 1, comm_of, ppid_of);
        }
    }
    None
}

/// The pid a record's file name gives.
pub open spec fn stem_pid(path: Seq<char>) -> Option<nat> {
    match file_name_of(path) {
        Some(n) => number_of(stem_of(n), u32::MAX as nat),
        None => None,
    }
}

/// The pid that `path`'s file name gives.
pub fn read_stem_pid(path: &str) -> (pid: Option<u32>)
    ensures
        match (pid, stem_pid(path@)) {
            (Some(a), Some(b)) => a == b,
            (None, None) => true,
            _ => false,
        },
{
    match file_name(path) {
        Some(n) => {
            let (stem, _) = split_extension(n.as_str());
            let cs: Vec<char> = chars(stem.as_str());
            assert(cs@.subrange(0, cs@.len() as int) =~= stem@);
            match parse_number(&cs, 0, cs.len(), u32::MAX as u64) {
                Some(v) => Some(v as u32),
                None => None,
            }
        },
        None => None,
    }
}

} // verus!
