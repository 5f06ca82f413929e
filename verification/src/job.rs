//! One long operation, running off the UI thread.
//!
//! The worker reports through a channel; the column holds what arrives in a
//! [`Job`] and a [`Plan`] it updates from it. A job cannot be cancelled: a job
//! started is a job finished, watched from the Work tab or not.
use vstd::prelude::*;
use vstd::string::*;

use crate::progress::{active_from, Plan, PlanView, Snapshot, StateView, Step, StepState, StepView};
use crate::text::{own, same};

verus! {

/// What the column does with its own state once a job lands, after the rows
/// have been rebuilt from disk.
#[derive(Debug)]
pub enum Then {
    /// Just the message. Deleting a task, detaching repos.
    Nothing,
    /// Put the selection on the task (workspace index, slug).
    SelectTask(usize, String),
    /// As `SelectTask`, but give the task a window first.
    OpenTask(usize, String),
    /// A workspace was created here: re-read the registry, then land on its
    /// repos.
    Workspace(String),
}

/// A step event.
#[derive(Debug)]
pub enum Event {
    Start { step: usize, label: String, verb: String },
    Update { step: usize, snap: Snapshot },
    Done { step: usize, note: String },
    Failed { step: usize, err: String },
}

/// What the worker sends back: a step event, or the whole job's outcome.
#[derive(Debug)]
pub enum Message {
    Step(Event),
    /// The work returned. `Ok` carries a closing line for the footer.
    Done(Result<String, String>),
}

/// How a job ended, as text.
pub type OutcomeView = Option<Result<Seq<char>, Seq<char>>>;

/// A long operation the column started, and what is known about it so far.
#[derive(Debug)]
pub struct Job {
    /// The steps and their states. This is what the panel draws.
    pub plan: Plan,
    /// Set once the worker reports the whole job's outcome.
    pub outcome: Option<Result<String, String>>,
    /// Set once `take_landing` has handed the outcome to the column, so a
    /// job's follow-up runs exactly once while the job itself stays listed.
    pub landing_taken: bool,
    /// What the column should do once the job lands, beyond rebuilding its
    /// rows.
    pub after: Then,
}

/// What is known about a job.
#[verifier::ext_equal]
pub struct JobView {
    pub plan: PlanView,
    pub outcome: OutcomeView,
    pub landing_taken: bool,
    pub after: Then,
}

/// An outcome as text.
pub open spec fn result_view(r: Result<String, String>) -> Result<Seq<char>, Seq<char>> {
    match r {
        Ok(m) => Ok(m@),
        Err(e) => Err(e@),
    }
}

/// An outcome as text, if there is one.
pub open spec fn outcome_view(r: Option<Result<String, String>>) -> OutcomeView {
    match r {
        Some(o) => Some(result_view(o)),
        None => None,
    }
}

impl View for Job {
    type V = JobView;

    open spec fn view(&self) -> JobView {
        JobView {
            plan: self.plan@,
            outcome: outcome_view(self.outcome),
            landing_taken: self.landing_taken,
            after: self.after,
        }
    }
}

/// The step an event is about.
pub open spec fn event_step(ev: Event) -> usize {
    match ev {
        Event::Start { step, label, verb } => step,
        Event::Update { step, snap } => step,
        Event::Done { step, note } => step,
        Event::Failed { step, err } => step,
    }
}

/// The state an event puts its step in.
pub open spec fn event_state(ev: Event) -> StateView {
    match ev {
        Event::Start { step, label, verb } => StateView::Running(None),
        Event::Update { step, snap } => StateView::Running(Some(snap)),
        Event::Done { step, note } => StateView::Done(note@),
        Event::Failed { step, err } => StateView::Failed(err@),
    }
}

/// A plan after an event; one for a step it lacks changes nothing.
pub open spec fn plan_after(p: PlanView, ev: Event) -> PlanView {
    let i = event_step(ev) as int;
    if i < p.steps.len() {
        PlanView { steps: p.steps.update(i, StepView { state: event_state(ev), ..p.steps[i] }), ..p }
    } else {
        p
    }
}

/// A job after a message.
pub open spec fn job_after(j: JobView, m: Message) -> JobView {
    match m {
        Message::Step(ev) => JobView { plan: plan_after(j.plan, ev), ..j },
        Message::Done(r) => JobView { outcome: Some(result_view(r)), ..j },
    }
}

/// A job after a run of messages.
pub open spec fn job_after_all(j: JobView, ms: Seq<Message>) -> JobView
    decreases ms.len(),
{
    if ms.len() == 0 {
        j
    } else {
        job_after(job_after_all(j, ms.drop_last()), ms.last())
    }
}

/// What a worker that stopped without a word is taken to have said.
pub open spec fn stopped() -> Result<Seq<char>, Seq<char>> {
    Err("the operation stopped unexpectedly"@)
}

/// A job after everything the channel held: a worker that is gone without an
/// outcome panicked, which lands as an error.
pub open spec fn drained(j: JobView, ms: Seq<Message>, disconnected: bool) -> JobView {
    let k = job_after_all(j, ms);
    if disconnected && k.outcome is None {
        JobView { outcome: Some(stopped()), ..k }
    } else {
        k
    }
}

/// The snapshot of the first step that runs.
pub open spec fn active_snapshot_of(p: PlanView) -> Option<Snapshot> {
    match active_from(p.steps, 0) {
        Some(i) => p.steps[i].state->Running_0,
        None => None,
    }
}

/// The outcome that is handed out, and the job afterwards.
pub open spec fn landing(j: JobView) -> (OutcomeView, JobView) {
    (
        if j.landing_taken {
            None
        } else {
            j.outcome
        },
        JobView { landing_taken: j.landing_taken || j.outcome is Some, ..j },
    )
}

/// Whether two step states are the same.
fn state_same(a: &StepState, b: &StepState) -> (eq: bool)
    ensures
        eq == (a@ == b@),
{
    match (a, b) {
        (StepState::Pending, StepState::Pending) => true,
        (StepState::Running(x), StepState::Running(y)) => match (x, y) {
            (Some(s), Some(t)) => *s == *t,
            (None, None) => true,
            _ => false,
        },
        (StepState::Done(x), StepState::Done(y)) => same(x.as_str(), y.as_str()),
        (StepState::Failed(x), StepState::Failed(y)) => same(x.as_str(), y.as_str()),
        _ => false,
    }
}

/// The states of some steps, copied.
fn copied_states(steps: &Vec<Step>) -> (states: Vec<StepState>)
    ensures
        states@.len() == steps@.len(),
        forall|j: int| 0 <= j < states@.len() ==> (#[trigger] states@[j])@ == steps@[j].state@,
{
    let mut states: Vec<StepState> = Vec::new();
    let mut i: usize = 0;
    while i < steps.len()
        invariant
            i <= steps@.len(),
            states@.len() == i,
            forall|j: int| 0 <= j < i ==> (#[trigger] states@[j])@ == steps@[j].state@,
        decreases steps@.len() - i,
    {
        states.push(
            match &steps[i].state {
                StepState::Pending => StepState::Pending,
                StepState::Running(s) => StepState::Running(*s),
                StepState::Done(n) => StepState::Done(n.clone()),
                StepState::Failed(e) => StepState::Failed(e.clone()),
            },
        );
        i += 1;
    }
    states
}

/// Whether some steps are in the states listed.
fn states_same(steps: &Vec<Step>, states: &Vec<StepState>) -> (eq: bool)
    requires
        steps@.len() == states@.len(),
    ensures
        eq == (forall|j: int| 0 <= j < states@.len() ==> steps@[j].state@ == (#[trigger] states@[j])@),
{
    let mut i: usize = 0;
    while i < steps.len()
        invariant
            i <= steps@.len(),
            steps@.len() == states@.len(),
            forall|j: int| 0 <= j < i ==> steps@[j].state@ == (#[trigger] states@[j])@,
        decreases steps@.len() - i,
    {
        if !state_same(&steps[i].state, &states[i]) {
            assert(steps@[i as int].state@ != states@[i as int]@);
            return false;
        }
        i += 1;
    }
    true
}

/// An outcome, copied.
fn copied_outcome(o: &Option<Result<String, String>>) -> (c: Option<Result<String, String>>)
    ensures
        outcome_view(c) == outcome_view(*o),
{
    match o {
        Some(Ok(m)) => Some(Ok(m.clone())),
        Some(Err(e)) => Some(Err(e.clone())),
        None => None,
    }
}

/// Whether two outcomes are the same.
fn outcomes_same(a: &Option<Result<String, String>>, b: &Option<Result<String, String>>) -> (eq: bool)
    ensures
        eq == (outcome_view(*a) == outcome_view(*b)),
{
    match (a, b) {
        (Some(Ok(x)), Some(Ok(y))) => same(x.as_str(), y.as_str()),
        (Some(Err(x)), Some(Err(y))) => same(x.as_str(), y.as_str()),
        (None, None) => true,
        _ => false,
    }
}

impl Job {
    /// A job for `plan`, nothing heard of it yet.
    pub fn new(plan: Plan, after: Then) -> (j: Job)
        ensures
            j@ == (JobView { plan: plan@, outcome: None, landing_taken: false, after }),
    {
        Job { plan, outcome: None, landing_taken: false, after }
    }

    /// Move one event into the plan. An event for a step the plan doesn't have
    /// is dropped.
    fn apply(&mut self, ev: &Event)
        ensures
            final(self)@ == (JobView { plan: plan_after(old(self)@.plan, *ev), ..old(self)@ }),
    {
        let (idx, state): (usize, StepState) = match ev {
            Event::Start { step, label, verb } => (*step, StepState::Running(None)),
            Event::Update { step, snap } => (*step, StepState::Running(Some(*snap))),
            Event::Done { step, note } => (*step, StepState::Done(note.clone())),
            Event::Failed { step, err } => (*step, StepState::Failed(err.clone())),
        };
        assert(idx == event_step(*ev));
        assert(state@ == event_state(*ev));
        let ghost before = self.plan@.steps;
        if idx < self.plan.steps.len() {
            self.plan.steps[idx].state = state;
            assert(self.plan@.steps =~= before.update(
                idx as int,
                StepView { state: event_state(*ev), ..before[idx as int] },
            ));
        }
    }

    /// Fold everything the worker has sent since the last call into the plan;
    /// `disconnected` says that the worker is gone. Returns whether anything
    /// changed, so the caller can skip a redraw.
    pub fn drain(&mut self, messages: &Vec<Message>, disconnected: bool) -> (changed: bool)
        ensures
            final(self)@ == drained(old(self)@, messages@, disconnected),
            changed == (final(self)@ != old(self)@),
    {
        let states = copied_states(&self.plan.steps);
        let outcome = copied_outcome(&self.outcome);
        let mut i: usize = 0;
        while i < messages.len()
            invariant
                i <= messages@.len(),
                self@ == job_after_all(old(self)@, messages@.take(i as int)),
            decreases messages@.len() - i,
        {
            assert(messages@.take(i + 1).drop_last() =~= messages@.take(i as int));
            match &messages[i] {
                Message::Step(ev) => self.apply(ev),
                Message::Done(Ok(m)) => {
                    self.outcome = Some(Ok(m.clone()));
                },
                Message::Done(Err(e)) => {
                    self.outcome = Some(Err(e.clone()));
                },
            }
            assert(self@ =~= job_after(job_after_all(old(self)@, messages@.take(i as int)), messages@[i as int]));
            i += 1;
        }
        assert(messages@.take(messages@.len() as int) =~= messages@);
        if disconnected && self.outcome.is_none() {
            self.outcome = Some(Err(own("the operation stopped unexpectedly")));
        }
        let ghost before = old(self)@;
        let ghost after = self@;
        proof {
            steps_keep_their_labels(before, messages@);
            draining_keeps_the_landing(before, messages@);
            draining_keeps_the_follow_up(before, messages@);
        }
        let same_outcome = outcomes_same(&self.outcome, &outcome);
        let same_states = states_same(&self.plan.steps, &states);
        proof {
            if same_outcome && same_states {
                assert(after.plan.steps =~= before.plan.steps) by {
                    assert forall|j: int| 0 <= j < before.plan.steps.len() implies after.plan.steps[j]
                        == before.plan.steps[j] by {
                        assert(after.plan.steps[j].state == states@[j]@);
                        assert(before.plan.steps[j].state == states@[j]@);
                        assert(after.plan.steps[j].label == before.plan.steps[j].label);
                    }
                }
                assert(after =~= before);
            } else if !same_states {
                let j = choose|j: int|
                    0 <= j < states@.len() && self.plan.steps@[j].state@ != (#[trigger] states@[j])@;
                assert(after.plan.steps[j].state != before.plan.steps[j].state);
            }
        }
        !(same_outcome && same_states)
    }

    /// The job has reported its outcome and there is nothing left to wait for.
    pub fn landed(&self) -> (yes: bool)
        ensures
            yes == (self@.outcome is Some),
    {
        self.outcome.is_some()
    }

    /// The outcome, the first time it is asked for after the job lands.
    pub fn take_landing(&mut self) -> (o: Option<Result<String, String>>)
        ensures
            (outcome_view(o), final(self)@) == landing(old(self)@),
    {
        if self.landing_taken {
            return None;
        }
        let outcome = match &self.outcome {
            None => {
                return None;
            },
            Some(Ok(m)) => Ok(m.clone()),
            Some(Err(e)) => Err(e.clone()),
        };
        self.landing_taken = true;
        Some(outcome)
    }

    /// What to show beside the job's title: its outcome once settled.
    pub fn outcome_note(&self) -> (note: Option<&str>)
        ensures
            match (note, self@.outcome) {
                (Some(n), Some(Ok(m))) => n@ == m,
                (Some(n), Some(Err(e))) => n@ == e,
                (None, None) => true,
                _ => false,
            },
    {
        match &self.outcome {
            Some(Ok(m)) => Some(m.as_str()),
            Some(Err(e)) => Some(e.as_str()),
            None => None,
        }
    }

    /// Whether the job landed with an error.
    pub fn failed(&self) -> (yes: bool)
        ensures
            yes == (self@.outcome matches Some(o) && o is Err),
    {
        match &self.outcome {
            Some(Err(_)) => true,
            _ => false,
        }
    }

    /// The snapshot of the step running now, for the panel's bar.
    pub fn active_snapshot(&self) -> (snap: Option<Snapshot>)
        ensures
            snap == active_snapshot_of(self@.plan),
    {
        match self.plan.active() {
            Some(i) => {
                proof {
                    active_from_runs(self@.plan.steps, 0);
                }
                assert(self@.plan.steps[i as int] == self.plan.steps@[i as int]@);
                match &self.plan.steps[i].state {
                    StepState::Running(snap) => *snap,
                    _ => None,
                }
            },
            None => None,
        }
    }
}

/// The step that runs is a running one of the plan.
proof fn active_from_runs(steps: Seq<StepView>, from: int)
    requires
        0 <= from,
    ensures
        match active_from(steps, from) {
            Some(i) => from <= i < steps.len() && steps[i].state is Running,
            None => true,
        },
    decreases steps.len() - from,
{
    if from < steps.len() && !(steps[from].state is Running) {
        active_from_runs(steps, from + 1);
    }
}

/// A job's follow-up runs exactly once: an outcome is handed out the first time
/// it is asked for after the job lands, never before and never again, whatever
/// the worker still sends.
pub proof fn landings_are_taken_once(j: JobView, ms: Seq<Message>, gone: bool)
    ensures
        landing(j).0 is Some <==> j.outcome is Some && !j.landing_taken,
        landing(j).0 is Some ==> landing(drained(landing(j).1, ms, gone)).0 is None,
{
    draining_keeps_the_landing(landing(j).1, ms);
}

/// No message changes whether an outcome was handed out.
proof fn draining_keeps_the_landing(j: JobView, ms: Seq<Message>)
    ensures
        job_after_all(j, ms).landing_taken == j.landing_taken,
    decreases ms.len(),
{
    if ms.len() > 0 {
        draining_keeps_the_landing(j, ms.drop_last());
    }
}

/// No message changes what is to follow a job.
proof fn draining_keeps_the_follow_up(j: JobView, ms: Seq<Message>)
    ensures
        job_after_all(j, ms).after == j.after,
    decreases ms.len(),
{
    if ms.len() > 0 {
        draining_keeps_the_follow_up(j, ms.drop_last());
    }
}

/// A job that has landed stays landed, whatever comes.
pub proof fn outcomes_stay(j: JobView, ms: Seq<Message>)
    requires
        j.outcome is Some,
    ensures
        job_after_all(j, ms).outcome is Some,
    decreases ms.len(),
{
    if ms.len() > 0 {
        outcomes_stay(j, ms.drop_last());
    }
}

/// A worker that is gone leaves a landed job, whatever it said before: the
/// panel never spins forever.
pub proof fn a_gone_worker_lands(j: JobView, ms: Seq<Message>)
    ensures
        drained(j, ms, true).outcome is Some,
{
}

/// Draining in two goes is draining at once, as long as the worker lives.
pub proof fn draining_splits(j: JobView, a: Seq<Message>, b: Seq<Message>)
    ensures
        drained(drained(j, a, false), b, false) == drained(j, a + b, false),
    decreases b.len(),
{
    if b.len() == 0 {
        assert(a + b =~= a);
    } else {
        assert((a + b).drop_last() =~= a + b.drop_last());
        draining_splits(j, a, b.drop_last());
    }
}

/// No message changes which steps a plan has, nor their labels.
pub proof fn steps_keep_their_labels(j: JobView, ms: Seq<Message>)
    ensures
        job_after_all(j, ms).plan.title == j.plan.title,
        job_after_all(j, ms).plan.steps.len() == j.plan.steps.len(),
        forall|i: int|
            0 <= i < j.plan.steps.len() ==> (#[trigger] job_after_all(j, ms).plan.steps[i]).label
                == j.plan.steps[i].label,
    decreases ms.len(),
{
    if ms.len() > 0 {
        steps_keep_their_labels(j, ms.drop_last());
    }
}

/// What a worker says of a step becomes that step's state, and leaves the other
/// steps, every label and the outcome.
pub proof fn events_set_one_step(j: JobView, ev: Event, i: int)
    requires
        0 <= i < j.plan.steps.len(),
    ensures
        ({
            let w = job_after(j, Message::Step(ev));
            &&& w.plan.steps.len() == j.plan.steps.len()
            &&& w.plan.steps[i].label == j.plan.steps[i].label
            &&& w.plan.title == j.plan.title
            &&& w.outcome == j.outcome
            &&& ev matches Event::Start { step, label, verb } ==> {
                &&& step == i ==> w.plan.steps[i].state == StateView::Running(None)
                &&& step != i ==> w.plan.steps[i] == j.plan.steps[i]
            }
            &&& ev matches Event::Update { step, snap } ==> {
                &&& step == i ==> w.plan.steps[i].state == StateView::Running(Some(snap))
                &&& step != i ==> w.plan.steps[i] == j.plan.steps[i]
            }
            &&& ev matches Event::Done { step, note } ==> {
                &&& step == i ==> w.plan.steps[i].state == StateView::Done(note@)
                &&& step != i ==> w.plan.steps[i] == j.plan.steps[i]
            }
            &&& ev matches Event::Failed { step, err } ==> {
                &&& step == i ==> w.plan.steps[i].state == StateView::Failed(err@)
                &&& step != i ==> w.plan.steps[i] == j.plan.steps[i]
            }
        }),
{
}

/// A job's end is its outcome, and a second look at it finds it taken.
pub proof fn ends_are_told_once(j: JobView, r: Result<String, String>)
    ensures
        r matches Ok(s) ==> job_after(j, Message::Done(r)).outcome == Some(Ok::<Seq<char>, Seq<char>>(s@)),
        r matches Err(s) ==> job_after(j, Message::Done(r)).outcome == Some(Err::<Seq<char>, Seq<char>>(s@)),
        job_after(j, Message::Done(r)).plan == j.plan,
        !j.landing_taken ==> landing(j).0 == j.outcome,
        landing(landing(j).1).0 is None || j.outcome is None,
        j.outcome is None ==> landing(j).1 == j,
{
}

} // verus!
