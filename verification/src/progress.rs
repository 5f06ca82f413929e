//! The steps of a long operation and how far each has come.
use vstd::prelude::*;
use vstd::string::*;

use crate::text::{cat3, decimal, decimal_of, views};

verus! {

/// What a transfer is doing.
#[derive(Debug, Clone, Copy, PartialEq, Eq, Structural)]
pub enum Phase {
    Counting,
    Compressing,
    Receiving,
    Resolving,
    CheckingOut,
}

/// The phase in words.
pub open spec fn phase_label(p: Phase) -> Seq<char> {
    match p {
        Phase::Counting => "counting"@,
        Phase::Compressing => "compressing"@,
        Phase::Receiving => "receiving"@,
        Phase::Resolving => "resolving"@,
        Phase::CheckingOut => "checking out"@,
    }
}

impl Phase {
    /// The phase in words.
    pub fn label(self) -> (text: &'static str)
        ensures
            text@ == phase_label(self),
    {
        match self {
            Phase::Counting => "counting",
            Phase::Compressing => "compressing",
            Phase::Receiving => "receiving",
            Phase::Resolving => "resolving",
            Phase::CheckingOut => "checking out",
        }
    }
}

/// How far a running step has come, as far as it says.
#[derive(Debug, Clone, Copy, PartialEq, Eq, Structural)]
pub struct Snapshot {
    pub phase: Phase,
    pub percent: Option<u8>,
    pub bytes: Option<u64>,
    pub rate: Option<u64>,
}

/// Where a step stands. A finished one carries a note, a failed one its error.
#[derive(Debug)]
pub enum StepState {
    Pending,
    Running(Option<Snapshot>),
    Done(String),
    Failed(String),
}

/// Where a step stands.
#[verifier::ext_equal]
pub enum StateView {
    Pending,
    Running(Option<Snapshot>),
    Done(Seq<char>),
    Failed(Seq<char>),
}

impl View for StepState {
    type V = StateView;

    open spec fn view(&self) -> StateView {
        match self {
            StepState::Pending => StateView::Pending,
            StepState::Running(s) => StateView::Running(*s),
            StepState::Done(n) => StateView::Done(n@),
            StepState::Failed(e) => StateView::Failed(e@),
        }
    }
}

/// One step.
#[derive(Debug)]
pub struct Step {
    pub label: String,
    pub state: StepState,
}

/// One step.
#[verifier::ext_equal]
pub struct StepView {
    pub label: Seq<char>,
    pub state: StateView,
}

impl View for Step {
    type V = StepView;

    open spec fn view(&self) -> StepView {
        StepView { label: self.label@, state: self.state@ }
    }
}

/// A long operation: what it is called, and its steps in order.
#[derive(Debug)]
pub struct Plan {
    pub title: String,
    pub steps: Vec<Step>,
}

/// A long operation.
#[verifier::ext_equal]
pub struct PlanView {
    pub title: Seq<char>,
    pub steps: Seq<StepView>,
}

impl View for Plan {
    type V = PlanView;

    open spec fn view(&self) -> PlanView {
        PlanView { title: self.title@, steps: views(self.steps@) }
    }
}

/// How many steps are done.
pub open spec fn done_count(steps: Seq<StepView>) -> nat
    decreases steps.len(),
{
    if steps.len() == 0 {
        0
    } else {
        done_count(steps.drop_last()) + if steps.last().state is Done {
            1nat
        } else {
            0
        }
    }
}

/// Done steps out of all of them.
pub open spec fn counter_of(p: PlanView) -> Seq<char> {
    decimal_of(done_count(p.steps)) + "/"@ + decimal_of(p.steps.len())
}

/// Whether a step has nothing left to do.
pub open spec fn settled(s: StateView) -> bool {
    s is Done || s is Failed
}

/// Whether every step has nothing left to do.
pub open spec fn plan_finished(p: PlanView) -> bool {
    forall|i: int| 0 <= i < p.steps.len() ==> settled(#[trigger] p.steps[i].state)
}

/// The first step at or after `from` that runs.
pub open spec fn active_from(steps: Seq<StepView>, from: int) -> Option<int>
    decreases steps.len() - from,
{
    if from >= steps.len() {
        None
    } else if steps[from].state is Running {
        Some(from)
    } else {
        active_from(steps, from + 1)
    }
}

/// The error of the first step at or after `from` that failed.
pub open spec fn failure_from(steps: Seq<StepView>, from: int) -> Option<Seq<char>>
    decreases steps.len() - from,
{
    if from >= steps.len() {
        None
    } else {
        match steps[from].state {
            StateView::Failed(e) => Some(e),
            _ => failure_from(steps, from + 1),
        }
    }
}

/// Never more done than there are.
pub proof fn done_count_fits(steps: Seq<StepView>)
    ensures
        done_count(steps) <= steps.len(),
    decreases steps.len(),
{
    if steps.len() > 0 {
        done_count_fits(steps.drop_last());
    }
}

impl Plan {
    /// An operation of the given steps, none begun.
    pub fn new(title: &str, labels: Vec<String>) -> (p: Plan)
        ensures
            p@.title == title@,
            p@.steps.len() == labels@.len(),
            forall|i: int|
                0 <= i < labels@.len() ==> #[trigger] p@.steps[i] == (StepView {
                    label: labels@[i]@,
                    state: StateView::Pending,
                }),
    {
        let mut steps: Vec<Step> = Vec::new();
        let mut i: usize = 0;
        while i < labels.len()
            invariant
                i <= labels@.len(),
                steps@.len() == i,
                forall|k: int|
                    0 <= k < i ==> (#[trigger] steps@[k])@ == (StepView {
                        label: labels@[k]@,
                        state: StateView::Pending,
                    }),
            decreases labels@.len() - i,
        {
            steps.push(Step { label: labels[i].clone(), state: StepState::Pending });
            i += 1;
        }
        Plan { title: title.to_owned(), steps }
    }

    /// Done steps out of all of them, as `1/3`.
    pub fn counter(&self) -> (out: String)
        ensures
            out@ == counter_of(self@),
    {
        let mut n: u64 = 0;
        let mut i: usize = 0;
        while i < self.steps.len()
            invariant
                i <= self.steps@.len(),
                n == done_count(self@.steps.take(i as int)),
                n <= i,
            decreases self.steps@.len() - i,
        {
            assert(self@.steps.take(i + 1).drop_last() =~= self@.steps.take(i as int));
            assert(self@.steps.take(i + 1).last() == self.steps@[i as int]@);
            if let StepState::Done(_) = &self.steps[i].state {
                n += 1;
            }
            i += 1;
        }
        assert(self@.steps.take(self.steps@.len() as int) =~= self@.steps);
        cat3(decimal(n).as_str(), "/", decimal(self.steps.len() as u64).as_str())
    }

    /// Whether every step has nothing left to do.
    pub fn finished(&self) -> (yes: bool)
        ensures
            yes == plan_finished(self@),
    {
        let mut i: usize = 0;
        while i < self.steps.len()
            invariant
                i <= self.steps@.len(),
                forall|k: int| 0 <= k < i ==> settled(#[trigger] self@.steps[k].state),
            decreases self.steps@.len() - i,
        {
            match &self.steps[i].state {
                StepState::Pending | StepState::Running(_) => {
                    assert(!settled(self@.steps[i as int].state));
                    return false;
                },
                _ => {},
            }
            i += 1;
        }
        true
    }

    /// The first step that runs.
    pub fn active(&self) -> (at: Option<usize>)
        ensures
            match (at, active_from(self@.steps, 0)) {
                (Some(a), Some(b)) => a == b,
                (None, None) => true,
                _ => false,
            },
    {
        let mut i: usize = 0;
        while i < self.steps.len()
            invariant
                i <= self.steps@.len(),
                active_from(self@.steps, 0) == active_from(self@.steps, i as int),
            decreases self.steps@.len() - i,
        {
            if let StepState::Running(_) = &self.steps[i].state {
                assert(self@.steps[i as int].state is Running);
                return Some(i);
            }
            assert(!(self@.steps[i as int].state is Running));
            i += 1;
        }
        None
    }

    /// The error of the first step that failed.
    pub fn failure(&self) -> (err: Option<&str>)
        ensures
            match (err, failure_from(self@.steps, 0)) {
                (Some(a), Some(b)) => a@ == b,
                (None, None) => true,
                _ => false,
            },
    {
        let mut i: usize = 0;
        while i < self.steps.len()
            invariant
                i <= self.steps@.len(),
                failure_from(self@.steps, 0) == failure_from(self@.steps, i as int),
            decreases self.steps@.len() - i,
        {
            assert(self@.steps[i as int] == self.steps@[i as int]@);
            if let StepState::Failed(e) = &self.steps[i].state {
                return Some(e.as_str());
            }
            i += 1;
        }
        None
    }
}

/// The counter counts the steps that are done: none of a plan that has not
/// begun, all of one whose every step is done, and one more for one more.
pub proof fn done_steps_are_counted(steps: Seq<StepView>, s: StepView)
    ensures
        s.state is Done ==> done_count(steps.push(s)) == done_count(steps) + 1,
        !(s.state is Done) ==> done_count(steps.push(s)) == done_count(steps),
        (forall|i: int| 0 <= i < steps.len() ==> (#[trigger] steps[i]).state is Done) ==> done_count(steps) == steps.len(),
        (forall|i: int| 0 <= i < steps.len() ==> !((#[trigger] steps[i]).state is Done)) ==> done_count(steps) == 0,
    decreases steps.len(),
{
    assert(steps.push(s).drop_last() =~= steps);
    if steps.len() > 0 {
        let d = steps.drop_last();
        done_steps_are_counted(d, s);
        assert(steps.last() == steps[steps.len() - 1]);
        assert(forall|i: int| 0 <= i < d.len() ==> d[i] == steps[i]);
    }
}

/// The failure told is the first one.
pub proof fn the_first_failure_is_told(steps: Seq<StepView>, from: int)
    requires
        0 <= from,
    ensures
        failure_from(steps, from) matches Some(e) ==> exists|i: int|
            from <= i < steps.len() && (#[trigger] steps[i]).state == StateView::Failed(e) && (forall|k: int|
                from <= k < i ==> !((#[trigger] steps[k]).state is Failed)),
        failure_from(steps, from) is None ==> forall|i: int|
            from <= i < steps.len() ==> !((#[trigger] steps[i]).state is Failed),
    decreases steps.len() - from,
{
    if from < steps.len() && !(steps[from].state is Failed) {
        the_first_failure_is_told(steps, from + 1);
    } else if from < steps.len() {
        assert(steps[from].state == StateView::Failed(failure_from(steps, from)->0));
    }
}

} // verus!
