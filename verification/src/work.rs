//! The Work tab: each long operation with its steps, its progress and how it
//! ended.
use vstd::prelude::*;
use vstd::string::*;

use crate::body::{blank, Body, BodyView};
use crate::job::{active_snapshot_of, Job, JobView};
use crate::list::{ListView, TaskList};
use crate::progress::{counter_of, phase_label, Snapshot, StateView, Step, StepState, StepView};
use crate::style::{raw, span, tone, Item, Line, Span, SpanView, Tone};
use crate::text::{cat, cat3, cat4, decimal, decimal_of, fill, repeated, truncate, truncated};

verus! {

/// Cells of a progress bar.
pub const BAR: usize = 20;

/// Cells of the block that moves where there is nothing to be a percent of.
pub const BLOCK: usize = 4;

// ── Sizes ────────────────────────────────────────────────────────────────────

/// A number of units, to the nearest tenth.
pub open spec fn tenths_text(n: nat, unit: nat, name: Seq<char>) -> Seq<char> {
    let tenths = (n * 10 + unit / 2) / unit;
    decimal_of(tenths / 10) + "."@ + decimal_of(tenths % 10) + name
}

/// A size in the largest unit it has one of.
pub open spec fn size_text(n: nat) -> Seq<char> {
    if n >= 1073741824 {
        tenths_text(n, 1073741824, " GiB"@)
    } else if n >= 1048576 {
        tenths_text(n, 1048576, " MiB"@)
    } else if n >= 1024 {
        tenths_text(n, 1024, " KiB"@)
    } else {
        decimal_of(n) + " B"@
    }
}

/// See [`tenths_text`].
fn tenths(n: u64, unit: u64, name: &str) -> (out: String)
    requires
        1024 <= unit,
    ensures
        out@ == tenths_text(n as nat, unit as nat, name@),
{
    let whole: u128 = (n as u128 * 10 + (unit / 2) as u128) / (unit as u128);
    assert((n * 10 + unit / 2) / (unit as int) <= u64::MAX) by (nonlinear_arith)
        requires
            1024 <= unit,
            n <= u64::MAX,
    ;
    let tenths: u64 = whole as u64;
    cat4(decimal(tenths / 10).as_str(), ".", decimal(tenths % 10).as_str(), name)
}

/// See [`size_text`].
fn size(n: u64) -> (out: String)
    ensures
        out@ == size_text(n as nat),
{
    if n >= 1073741824 {
        tenths(n, 1073741824, " GiB")
    } else if n >= 1048576 {
        tenths(n, 1048576, " MiB")
    } else if n >= 1024 {
        tenths(n, 1024, " KiB")
    } else {
        cat(decimal(n).as_str(), " B")
    }
}

// ── Bars ─────────────────────────────────────────────────────────────────────

/// How many cells of a bar are full.
pub open spec fn full_cells(percent: u8) -> nat {
    if percent >= 100 {
        BAR as nat
    } else {
        (percent * BAR / 100) as nat
    }
}

/// Where the moving block starts in a frame.
pub open spec fn block_at(frame: u64) -> nat {
    (frame % ((BAR - BLOCK + 1) as u64)) as nat
}

/// A bar: filled as far as the percent says, or a block that moves with the
/// frames.
pub open spec fn bar_spans(snap: Option<Snapshot>, frame: u64) -> Seq<SpanView> {
    if snap is Some && (snap->0).percent is Some {
        let p = (snap->0).percent->0;
        seq![
            raw("    "@),
            span(repeated('█', full_cells(p)), tone(Tone::Info)),
            span(repeated('░', (BAR - full_cells(p)) as nat), tone(Tone::Muted)),
            span(" "@ + decimal_of(p as nat) + "%"@, tone(Tone::Muted)),
        ]
    } else {
        seq![
            raw("    "@),
            span(repeated('░', block_at(frame)), tone(Tone::Muted)),
            span(repeated('█', BLOCK as nat), tone(Tone::Info)),
            span(repeated('░', (BAR - BLOCK - block_at(frame)) as nat), tone(Tone::Muted)),
        ]
    }
}

/// See [`bar_spans`].
fn bar(snap: Option<Snapshot>, frame: u64) -> (l: Line)
    ensures
        l@ == bar_spans(snap, frame),
{
    if let Some(s) = snap {
        if let Some(p) = s.percent {
            let full: usize = if p >= 100 { BAR } else { p as usize * BAR / 100 };
            let text = cat3(" ", decimal(p as u64).as_str(), "%");
            return Line::empty().with(Span::raw("    ")).with(Span::of(fill('█', full), tone(Tone::Info))).with(
                Span::of(fill('░', BAR - full), tone(Tone::Muted)),
            ).with(Span::of(text, tone(Tone::Muted)));
        }
    }
    let at: usize = (frame % 17) as usize;
    Line::empty().with(Span::raw("    ")).with(Span::of(fill('░', at), tone(Tone::Muted))).with(
        Span::of(fill('█', BLOCK), tone(Tone::Info)),
    ).with(Span::of(fill('░', BAR - BLOCK - at), tone(Tone::Muted)))
}

/// The block moves from each frame to the next.
pub proof fn the_block_moves(frame: u64)
    requires
        frame < u64::MAX,
    ensures
        block_at(frame) != block_at((frame + 1) as u64),
        block_at(frame) + BLOCK <= BAR,
{
    let next: u64 = (frame + 1) as u64;
    assert(block_at(frame) == frame as int % 17 && block_at(next) == next as int % 17);
    assert(frame as int % 17 != (frame as int + 1) % 17) by (nonlinear_arith);
}

/// A bar is as full as its percent: empty at 0, full at 100, never less for
/// more.
pub proof fn bars_grow(a: u8, b: u8)
    requires
        a <= b,
    ensures
        full_cells(0) == 0,
        full_cells(100) == BAR,
        full_cells(a) <= full_cells(b) <= BAR,
{
}

/// What has come over so far, and how fast.
pub open spec fn transfer_text(s: Snapshot) -> Seq<char> {
    match (s.bytes, s.rate) {
        (Some(b), Some(r)) => size_text(b as nat) + " · "@ + size_text(r as nat) + "/s"@,
        (Some(b), None) => size_text(b as nat),
        (None, Some(r)) => size_text(r as nat) + "/s"@,
        (None, None) => ""@,
    }
}

/// See [`transfer_text`].
fn transfer(s: Snapshot) -> (out: String)
    ensures
        out@ == transfer_text(s),
{
    match (s.bytes, s.rate) {
        (Some(b), Some(r)) => cat4(size(b).as_str(), " · ", size(r).as_str(), "/s"),
        (Some(b), None) => size(b),
        (None, Some(r)) => cat(size(r).as_str(), "/s"),
        (None, None) => crate::text::own(""),
    }
}

// ── Steps ────────────────────────────────────────────────────────────────────

/// A step's mark and label, and the phase it is in.
pub open spec fn step_line(s: StepView, w: nat) -> Seq<SpanView> {
    let room = if w >= 6 {
        (w - 6) as nat
    } else {
        0
    };
    match s.state {
        StateView::Pending => seq![raw("    "@), span("· "@ + truncated(s.label, room), tone(Tone::Muted))],
        StateView::Running(None) => seq![raw("    "@), span("◐ "@ + truncated(s.label, room), tone(Tone::Info))],
        StateView::Running(Some(snap)) => seq![
            raw("    "@),
            span("◐ "@ + truncated(s.label, room), tone(Tone::Info)),
            span("  "@ + phase_label(snap.phase), tone(Tone::Muted)),
        ],
        StateView::Done(_) => seq![raw("    "@), span("✓ "@ + truncated(s.label, room), tone(Tone::Success))],
        StateView::Failed(_) => seq![raw("    "@), span("✗ "@ + truncated(s.label, room), tone(Tone::Danger))],
    }
}

/// The lines of steps.
pub open spec fn step_lines(steps: Seq<StepView>, w: nat) -> Seq<Seq<SpanView>> {
    Seq::new(steps.len(), |i: int| step_line(steps[i], w))
}

/// See [`step_line`].
fn step(s: &Step, w: usize) -> (l: Line)
    ensures
        l@ == step_line(s@, w as nat),
{
    let room: usize = if w >= 6 { w - 6 } else { 0 };
    let label = truncate(s.label.as_str(), room);
    let line = Line::empty().with(Span::raw("    "));
    match &s.state {
        StepState::Pending => line.with(Span::of(cat("· ", label.as_str()), tone(Tone::Muted))),
        StepState::Running(None) => line.with(Span::of(cat("◐ ", label.as_str()), tone(Tone::Info))),
        StepState::Running(Some(snap)) => line.with(Span::of(cat("◐ ", label.as_str()), tone(Tone::Info))).with(
            Span::of(cat("  ", snap.phase.label()), tone(Tone::Muted)),
        ),
        StepState::Done(_) => line.with(Span::of(cat("✓ ", label.as_str()), tone(Tone::Success))),
        StepState::Failed(_) => line.with(Span::of(cat("✗ ", label.as_str()), tone(Tone::Danger))),
    }
}

// ── Jobs ─────────────────────────────────────────────────────────────────────

/// A job's mark: running, done or failed.
pub open spec fn job_mark(j: JobView) -> SpanView {
    match j.outcome {
        None => span("◐ "@, tone(Tone::Info)),
        Some(Ok(_)) => span("✓ "@, tone(Tone::Success)),
        Some(Err(_)) => span("✗ "@, tone(Tone::Danger)),
    }
}

/// A job's first line: its mark, its title and how many steps are done.
pub open spec fn job_head(j: JobView) -> Seq<SpanView> {
    seq![
        raw("  "@),
        job_mark(j),
        span(j.plan.title, tone(Tone::Text).bold()),
        span("  "@ + counter_of(j.plan), tone(Tone::Muted)),
    ]
}

/// The transfer line of a running job, where it has anything to say.
pub open spec fn transfer_lines(snap: Option<Snapshot>) -> Seq<Seq<SpanView>> {
    match snap {
        Some(s) => if s.bytes is Some || s.rate is Some {
            seq![seq![raw("    "@), span(transfer_text(s), tone(Tone::Muted))]]
        } else {
            Seq::empty()
        },
        None => Seq::empty(),
    }
}

/// A job's last lines: the bar and the transfer while it runs, what came of it
/// once it has landed.
pub open spec fn job_tail(j: JobView, w: nat, frame: u64) -> Seq<Seq<SpanView>> {
    let room = if w >= 4 {
        (w - 4) as nat
    } else {
        0
    };
    match j.outcome {
        None => seq![bar_spans(active_snapshot_of(j.plan), frame)] + transfer_lines(active_snapshot_of(j.plan)),
        Some(Ok(m)) => seq![seq![raw("    "@), span(truncated(m, room), tone(Tone::Success))]],
        Some(Err(e)) => seq![seq![raw("    "@), span(truncated(e, room), tone(Tone::Danger))]],
    }
}

/// A job in the Work tab.
pub open spec fn job_item(j: JobView, w: nat, frame: u64) -> Seq<Seq<SpanView>> {
    seq![job_head(j)] + step_lines(j.plan.steps, w) + job_tail(j, w, frame)
}

/// See [`job_item`].
fn job_entry(j: &Job, w: usize, frame: u64) -> (item: Item)
    ensures
        item@ == job_item(j@, w as nat, frame),
{
    let mark = match &j.outcome {
        None => Span::styled("◐ ", tone(Tone::Info)),
        Some(Ok(_)) => Span::styled("✓ ", tone(Tone::Success)),
        Some(Err(_)) => Span::styled("✗ ", tone(Tone::Danger)),
    };
    let counter = j.plan.counter();
    let head = Line::empty().with(Span::raw("  ")).with(mark).with(
        Span::styled(j.plan.title.as_str(), tone(Tone::Text).bold()),
    ).with(Span::of(cat("  ", counter.as_str()), tone(Tone::Muted)));
    let mut item = Item::one(head);
    let ghost first = item@;
    assert(first =~~= seq![job_head(j@)]);
    let ghost steps = step_lines(j@.plan.steps, w as nat);
    let mut i: usize = 0;
    assert(item@ =~= first + steps.take(0));
    while i < j.plan.steps.len()
        invariant
            i <= j.plan.steps@.len(),
            steps == step_lines(j@.plan.steps, w as nat),
            item@ == first + steps.take(i as int),
        decreases j.plan.steps@.len() - i,
    {
        assert(j@.plan.steps[i as int] == j.plan.steps@[i as int]@);
        item = item.with(step(&j.plan.steps[i], w));
        assert(item@ =~= first + steps.take(i + 1));
        i += 1;
    }
    assert(steps.take(i as int) =~= steps);
    let room: usize = if w >= 4 { w - 4 } else { 0 };
    let ghost before = item@;
    match &j.outcome {
        None => {
            let snap = j.active_snapshot();
            item = item.with(bar(snap, frame));
            if let Some(s) = snap {
                if s.bytes.is_some() || s.rate.is_some() {
                    item = item.with(
                        Line::empty().with(Span::raw("    ")).with(Span::of(transfer(s), tone(Tone::Muted))),
                    );
                }
            }
        },
        Some(Ok(m)) => {
            item = item.with(
                Line::empty().with(Span::raw("    ")).with(Span::of(truncate(m.as_str(), room), tone(Tone::Success))),
            );
        },
        Some(Err(e)) => {
            item = item.with(
                Line::empty().with(Span::raw("    ")).with(Span::of(truncate(e.as_str(), room), tone(Tone::Danger))),
            );
        },
    }
    assert(item@ =~~= before + job_tail(j@, w as nat, frame));
    assert(item@ =~~= job_item(j@, w as nat, frame));
    item
}

/// The first `n` jobs, a blank line between them.
pub open spec fn jobs_upto(jobs: Seq<Job>, selected: usize, w: nat, frame: u64, n: int) -> BodyView
    decreases n,
{
    if n <= 0 {
        BodyView::nothing()
    } else {
        let b = jobs_upto(jobs, selected, w, frame, n - 1);
        let spaced = if n == 1 {
            b
        } else {
            b.chrome(blank())
        };
        spaced.marked(n - 1 == selected).entry(job_item(jobs[n - 1]@, w, frame), n - 1)
    }
}

/// What the Work tab says of no jobs.
pub open spec fn no_work() -> BodyView {
    BodyView::nothing().chrome(seq![seq![span("  nothing running"@, tone(Tone::Muted))]])
}

impl ListView {
    /// The jobs, running and settled.
    pub open spec fn work_body(self, w: nat, frame: u64) -> BodyView {
        if self.jobs.len() == 0 {
            no_work()
        } else {
            jobs_upto(self.jobs, self.work_selected, w, frame, self.jobs.len() as int)
        }
    }
}

impl TaskList {
    /// The Work tab's list.
    pub fn work_items(&self, w: usize, frame: u64) -> (b: Body)
        ensures
            b@ == self@.work_body(w as nat, frame),
    {
        let mut b = Body::nothing();
        if self.jobs.len() == 0 {
            let item = Item::one(Line::one(Span::styled("  nothing running", tone(Tone::Muted))));
            assert(item@ =~~= seq![seq![span("  nothing running"@, tone(Tone::Muted))]]);
            b.chrome(item);
            return b;
        }
        let mut i: usize = 0;
        while i < self.jobs.len()
            invariant
                i <= self.jobs@.len(),
                b@ == jobs_upto(self.jobs@, self.work_selected, w as nat, frame, i as int),
            decreases self.jobs@.len() - i,
        {
            if i > 0 {
                let gap = Item::one(Line::empty());
                assert(gap@ =~~= blank());
                b.chrome(gap);
            }
            b.mark(i == self.work_selected);
            b.entry(job_entry(&self.jobs[i], w, frame), i);
            i += 1;
        }
        b
    }
}

/// A bar always has its full length: nothing of it is filled at none, all of it
/// at a hundred, and the rest is left empty.
pub proof fn bars_keep_their_length(snap: Snapshot, frame: u64, p: u8)
    requires
        snap.percent == Some(p),
    ensures
        full_cells(p) <= BAR,
        p == 0 ==> full_cells(p) == 0,
        p >= 100 ==> full_cells(p) == BAR,
        p < 100 ==> full_cells(p) < BAR,
        p < 100 ==> full_cells(p) * 100 <= p * BAR < (full_cells(p) + 1) * 100,
        bar_spans(Some(snap), frame)[1].content.len() == full_cells(p),
        bar_spans(Some(snap), frame)[1].content.len() + bar_spans(Some(snap), frame)[2].content.len() == BAR,
        forall|i: int|
            0 <= i < bar_spans(Some(snap), frame)[1].content.len() ==> #[trigger] bar_spans(Some(snap), frame)[1].content[i]
                == '█',
        forall|i: int|
            0 <= i < bar_spans(Some(snap), frame)[2].content.len() ==> #[trigger] bar_spans(Some(snap), frame)[2].content[i]
                == '░',
{
}

/// A job's mark says how it went: its colour is one thing while it runs,
/// another where it succeeded, another where it failed.
pub proof fn marks_say_how_it_went(j: JobView)
    ensures
        j.outcome is None ==> job_mark(j) == span("◐ "@, tone(Tone::Info)),
        j.outcome matches Some(r) ==> (r is Ok ==> job_mark(j) == span("✓ "@, tone(Tone::Success))) && (r is Err
            ==> job_mark(j) == span("✗ "@, tone(Tone::Danger))),
{
}

} // verus!
