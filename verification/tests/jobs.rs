//! Long operations: their plans, their messages and how they land.
use tenx::job::{Event, Job, Message, Then};
use tenx::progress::{Phase, Plan, Snapshot, StepState};

fn start(step: usize, label: &str) -> Message {
    Message::Step(Event::Start { step, label: label.into(), verb: "cloning".into() })
}

#[test]
fn events_land_in_the_plan_in_order() {
    let plan = Plan::new("creating 'x'", vec!["a".to_string(), "b".to_string()]);
    let mut job = Job::new(plan, Then::Nothing);
    let mut sent = Vec::new();
    for (step, label) in ["a", "b"].iter().enumerate() {
        sent.push(start(step, label));
        sent.push(Message::Step(Event::Update {
            step,
            snap: Snapshot { phase: Phase::Receiving, percent: Some(50), bytes: None, rate: None },
        }));
        sent.push(Message::Step(Event::Done { step, note: "cloned".into() }));
    }
    sent.push(Message::Done(Ok("created 'x'".into())));
    job.drain(&sent, false);
    assert!(job.landed());
    assert!(job.plan.finished());
    assert_eq!(job.plan.counter(), "2/2");
    assert_eq!(job.outcome.as_ref().unwrap().as_deref(), Ok("created 'x'"));
}

#[test]
fn a_failure_reaches_both_the_step_and_the_outcome() {
    let plan = Plan::new("creating 'x'", vec!["a".to_string()]);
    let mut job = Job::new(plan, Then::Nothing);
    let sent = vec![
        start(0, "a"),
        Message::Step(Event::Failed { step: 0, err: "no such repo".into() }),
        Message::Done(Err("no such repo".into())),
    ];
    job.drain(&sent, true);
    assert!(job.landed());
    assert_eq!(job.plan.failure(), Some("no such repo"));
    assert!(job.outcome.as_ref().unwrap().is_err());
    assert!(job.failed());
    assert_eq!(job.outcome_note(), Some("no such repo"));
}

#[test]
fn an_event_for_a_step_the_plan_lacks_is_dropped() {
    let plan = Plan::new("creating 'x'", vec!["a".to_string()]);
    let mut job = Job::new(plan, Then::Nothing);
    let sent = vec![
        Message::Step(Event::Done { step: 7, note: "cloned".into() }),
        Message::Done(Ok("done".into())),
    ];
    job.drain(&sent, false);
    assert!(job.landed());
    assert_eq!(job.plan.counter(), "0/1");
}

#[test]
fn a_panicking_worker_lands_as_an_error_rather_than_hanging() {
    // A worker that panics sends nothing and its channel closes.
    let plan = Plan::new("creating 'x'", vec!["a".to_string()]);
    let mut job = Job::new(plan, Then::Nothing);
    assert!(job.drain(&Vec::new(), true));
    assert!(job.landed());
    assert!(job.outcome.as_ref().unwrap().is_err());
}

#[test]
fn the_active_snapshot_is_the_running_steps() {
    let plan = Plan::new("creating 'x'", vec!["a".to_string(), "b".to_string()]);
    let mut job = Job::new(plan, Then::Nothing);
    job.drain(&vec![start(0, "a")], false);
    assert_eq!(job.active_snapshot(), None, "running, but git hasn't spoken");

    let snap = Snapshot { phase: Phase::Receiving, percent: Some(12), bytes: None, rate: None };
    job.drain(&vec![Message::Step(Event::Update { step: 0, snap })], false);
    assert_eq!(job.active_snapshot(), Some(snap));

    job.drain(&vec![Message::Step(Event::Done { step: 0, note: "cloned".into() })], false);
    assert_eq!(job.active_snapshot(), None, "nothing running between steps");
}

#[test]
fn drain_reports_whether_anything_moved() {
    let plan = Plan::new("x", vec!["a".to_string()]);
    let mut job = Job::new(plan, Then::Nothing);
    assert!(!job.drain(&Vec::new(), false), "an empty channel is not a redraw");
    assert!(job.drain(&vec![start(0, "a")], false));
    assert!(!job.drain(&Vec::new(), false));
}

#[test]
fn an_outcome_is_handed_out_once() {
    let mut job = Job::new(Plan::new("x", vec!["a".to_string()]), Then::Nothing);
    assert_eq!(job.take_landing(), None);
    job.drain(&vec![Message::Done(Ok("made".into()))], false);
    // The channel closing afterwards changes nothing.
    assert!(!job.drain(&Vec::new(), true));
    assert_eq!(job.take_landing(), Some(Ok("made".to_string())));
    assert_eq!(job.take_landing(), None);
    assert!(job.landed());
}

#[test]
fn draining_in_two_goes_is_draining_at_once() {
    let mut a = Job::new(Plan::new("x", vec!["a".to_string()]), Then::Nothing);
    let mut b = Job::new(Plan::new("x", vec!["a".to_string()]), Then::Nothing);
    a.drain(&vec![start(0, "a"), Message::Step(Event::Done { step: 0, note: "n".into() })], false);
    b.drain(&vec![start(0, "a")], false);
    b.drain(&vec![Message::Step(Event::Done { step: 0, note: "n".into() })], false);
    assert_eq!(a.plan.counter(), b.plan.counter());
    assert!(matches!(b.plan.steps[0].state, StepState::Done(_)));
    assert_eq!(b.plan.steps[0].label, "a");
}

#[test]
fn phases_have_labels() {
    assert_eq!(Phase::Counting.label(), "counting");
    assert_eq!(Phase::CheckingOut.label(), "checking out");
}

#[test]
fn a_drain_that_leaves_all_as_it_was_is_no_change() {
    let mut job = Job::new(Plan::new("creating 'x'", vec!["a".to_string()]), Then::Nothing);
    assert!(!job.drain(&vec![Message::Step(Event::Done { step: 7, note: "n".into() })], false));
    assert!(job.outcome.is_none());
    assert!(matches!(job.plan.steps[0].state, StepState::Pending));
    assert!(job.drain(&vec![start(0, "a")], false));
    assert!(!job.drain(&vec![start(0, "a")], false), "the step runs already");
    let done = || Message::Step(Event::Done { step: 0, note: "n".into() });
    assert!(!job.drain(&vec![done(), start(0, "a")], false), "there and back");
    assert!(job.drain(&vec![done()], false));
    assert!(job.drain(&vec![Message::Done(Ok("made".into()))], false));
    assert!(!job.drain(&vec![Message::Done(Ok("made".into()))], true));
    assert!(job.drain(&vec![Message::Done(Err("made".into()))], true));
}
