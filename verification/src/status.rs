//! What a task is doing, and the section it is listed under.
use vstd::prelude::*;

verus! {

/// What a task's agent is doing.
#[derive(Debug, Clone, Copy, PartialEq, Eq, Structural)]
pub enum TaskStatus {
    /// Waiting on an answer.
    Blocked,
    /// Its window rang the bell.
    Signaled,
    /// Finished its turn.
    Done,
    /// At work.
    Working,
    /// No agent has touched it.
    Idle,
}

/// The section a task is listed under.
#[derive(Debug, Clone, Copy, PartialEq, Eq, Structural)]
pub enum TaskGroup {
    /// A secret is wanted from you.
    SecretsPending,
    /// The agent waits for you.
    Waiting,
    /// The agent is at work.
    Working,
    /// Nothing happens.
    Inactive,
}

impl TaskStatus {
    /// Sort order within the list: what needs you first, idle last.
    #[verifier::allow_in_spec]
    pub fn rank(self) -> u8
        returns
            (match self {
                TaskStatus::Blocked => 0u8,
                TaskStatus::Signaled => 1u8,
                TaskStatus::Done => 2u8,
                TaskStatus::Working => 3u8,
                TaskStatus::Idle => 4u8,
            }),
    {
        match self {
            TaskStatus::Blocked => 0u8,
            TaskStatus::Signaled => 1u8,
            TaskStatus::Done => 2u8,
            TaskStatus::Working => 3u8,
            TaskStatus::Idle => 4u8,
        }
    }

    /// The section a task of this status belongs to.
    #[verifier::allow_in_spec]
    pub fn group(self) -> TaskGroup
        returns
            (match self {
                TaskStatus::Blocked | TaskStatus::Signaled | TaskStatus::Done => TaskGroup::Waiting,
                TaskStatus::Working => TaskGroup::Working,
                TaskStatus::Idle => TaskGroup::Inactive,
            }),
    {
        match self {
            TaskStatus::Blocked | TaskStatus::Signaled | TaskStatus::Done => TaskGroup::Waiting,
            TaskStatus::Working => TaskGroup::Working,
            TaskStatus::Idle => TaskGroup::Inactive,
        }
    }

    /// Whether the task rests: its age says how long it has waited.
    #[verifier::allow_in_spec]
    pub fn resting(self) -> bool
        returns
            self == TaskStatus::Blocked || self == TaskStatus::Signaled || self == TaskStatus::Done,
    {
        self == TaskStatus::Blocked || self == TaskStatus::Signaled || self == TaskStatus::Done
    }
}

impl TaskGroup {
    /// Order of the sections, top to bottom.
    #[verifier::allow_in_spec]
    pub fn rank(self) -> u8
        returns
            (match self {
                TaskGroup::SecretsPending => 0u8,
                TaskGroup::Waiting => 1u8,
                TaskGroup::Working => 2u8,
                TaskGroup::Inactive => 3u8,
            }),
    {
        match self {
            TaskGroup::SecretsPending => 0u8,
            TaskGroup::Waiting => 1u8,
            TaskGroup::Working => 2u8,
            TaskGroup::Inactive => 3u8,
        }
    }

    /// The heading of the section.
    pub fn label(self) -> (text: &'static str)
        ensures
            text@ == group_label(self),
    {
        match self {
            TaskGroup::SecretsPending => "SECRETS PENDING",
            TaskGroup::Waiting => "WAITING FOR INPUT",
            TaskGroup::Working => "WORKING",
            TaskGroup::Inactive => "INACTIVE",
        }
    }
}

/// The heading of a section.
pub open spec fn group_label(g: TaskGroup) -> Seq<char> {
    match g {
        TaskGroup::SecretsPending => "SECRETS PENDING"@,
        TaskGroup::Waiting => "WAITING FOR INPUT"@,
        TaskGroup::Working => "WORKING"@,
        TaskGroup::Inactive => "INACTIVE"@,
    }
}

/// Sections are ordered as their statuses are: a status that ranks before
/// another never belongs to a later section.
pub proof fn sections_follow_ranks(a: TaskStatus, b: TaskStatus)
    requires
        a.rank() <= b.rank(),
    ensures
        a.group().rank() <= b.group().rank(),
{
}

/// What needs you comes first: a blocked task before one that rang, that before
/// one that is done, then those at work and the idle ones; no two statuses and
/// no two sections share a place.
pub proof fn what_needs_you_comes_first()
    ensures
        TaskStatus::Blocked.rank() < TaskStatus::Signaled.rank(),
        TaskStatus::Signaled.rank() < TaskStatus::Done.rank(),
        TaskStatus::Done.rank() < TaskStatus::Working.rank(),
        TaskStatus::Working.rank() < TaskStatus::Idle.rank(),
        TaskGroup::SecretsPending.rank() < TaskGroup::Waiting.rank(),
        TaskGroup::Waiting.rank() < TaskGroup::Working.rank(),
        TaskGroup::Working.rank() < TaskGroup::Inactive.rank(),
{
}

/// A task waits for you exactly while it rests, and is at work or inactive as
/// its agent is; no status alone asks for a secret.
pub proof fn sections_say_who_waits(s: TaskStatus)
    ensures
        s.group() == TaskGroup::Waiting <==> s != TaskStatus::Working && s != TaskStatus::Idle,
        s.group() == TaskGroup::Working <==> s == TaskStatus::Working,
        s.group() == TaskGroup::Inactive <==> s == TaskStatus::Idle,
        s.group() != TaskGroup::SecretsPending,
        s.resting() <==> s.group() == TaskGroup::Waiting,
{
}

} // verus!
