//! How the column draws a task: two lines, and one for each subagent.
use vstd::prelude::*;
use vstd::string::*;

use crate::body::{blank, body_upto, empty_body, Body};
use crate::list::{filtered_in_range, Focus, ListView, PrChip, Row, Subagent, TaskList};
use crate::style::{raw, span, tone, Color, Item, Line, Span, SpanView, Style, Tone};
use crate::text::{
    cat, cat3, decimal, decimal_of, is_some_of, join, joined, opt_view, pad_cell, padded,
    repeated, same, spaces, truncate, truncated, views, width, width_of,
};

verus! {

/// How far the second line is indented: under the title.
pub const INDENT: usize = 5;

// ── Glyph and reason ─────────────────────────────────────────────────────────

/// A row's glyph: a lock over everything else where a secret is wanted.
pub open spec fn row_glyph_of(r: Row) -> SpanView {
    if r.wants_secrets() {
        span("🔒 "@, tone(Tone::Accent))
    } else {
        span(r.glyph@ + "  "@, tone(Tone::Status(r.status)))
    }
}

/// A row's glyph, in its status colour, plus a gap.
pub fn row_glyph(r: &Row) -> (s: Span)
    ensures
        s@ == row_glyph_of(*r),
{
    if r.has_secrets() {
        Span::styled("🔒 ", tone(Tone::Accent))
    } else {
        Span::of(cat(r.glyph.as_str(), "  "), tone(Tone::Status(r.status)))
    }
}

/// The names of the secrets a row wants; those that need a value say so.
pub open spec fn wants_of(r: Row) -> Seq<Seq<char>> {
    views(r.secrets_pending@) + Seq::new(
        r.secrets_pending_set@.len(),
        |i: int| r.secrets_pending_set@[i]@ + " (needs value)"@,
    )
}

/// What a row wants, in words.
pub open spec fn wants_text(r: Row) -> Seq<char> {
    "wants "@ + joined(wants_of(r), ", "@)
}

/// See [`wants_text`].
pub fn wants(r: &Row) -> (out: String)
    ensures
        out@ == wants_text(*r),
{
    let mut names: Vec<String> = crate::text::clone_all(&r.secrets_pending);
    let ghost first = views(r.secrets_pending@);
    let ghost rest = Seq::new(
        r.secrets_pending_set@.len(),
        |i: int| r.secrets_pending_set@[i]@ + " (needs value)"@,
    );
    let mut i: usize = 0;
    assert(views(names@) =~= first + rest.take(0));
    while i < r.secrets_pending_set.len()
        invariant
            i <= r.secrets_pending_set@.len(),
            rest == Seq::new(
                r.secrets_pending_set@.len(),
                |i: int| r.secrets_pending_set@[i]@ + " (needs value)"@,
            ),
            views(names@) == first + rest.take(i as int),
        decreases r.secrets_pending_set@.len() - i,
    {
        let ghost before = views(names@);
        names.push(cat(r.secrets_pending_set[i].as_str(), " (needs value)"));
        assert(views(names@) =~= before.push(rest[i as int]));
        assert(views(names@) =~= first + rest.take(i + 1));
        i += 1;
    }
    assert(rest.take(i as int) =~= rest);
    cat("wants ", join(&names, ", ").as_str())
}

/// What a row wants from you, as a chip: the secrets it wants unlocked, else
/// the agent's own waiting reason. Nothing when it wants nothing.
pub open spec fn reason_chip(r: Row) -> Option<SpanView> {
    if r.wants_secrets() {
        Some(
            span(
                " "@ + wants_text(r) + " "@,
                tone(Tone::Accent).bg(Color::Tone(Tone::ChipSecretsBg)).bold(),
            ),
        )
    } else {
        match opt_view(r.waiting_for) {
            Some(w) => Some(span(" "@ + w + " "@, tone(Tone::Warn).bg(Color::Tone(Tone::ChipInputBg)).bold())),
            None => None,
        }
    }
}

/// See [`reason_chip`].
pub fn row_reason(r: &Row) -> (s: Option<Span>)
    ensures
        match (s, reason_chip(*r)) {
            (Some(a), Some(b)) => a@ == b,
            (None, None) => true,
            _ => false,
        },
{
    if r.has_secrets() {
        let text = wants(r);
        return Some(
            Span::of(
                cat3(" ", text.as_str(), " "),
                tone(Tone::Accent).bg(Color::Tone(Tone::ChipSecretsBg)).bold(),
            ),
        );
    }
    match &r.waiting_for {
        Some(w) => Some(
            Span::of(cat3(" ", w.as_str(), " "), tone(Tone::Warn).bg(Color::Tone(Tone::ChipInputBg)).bold()),
        ),
        None => None,
    }
}

// ── Pieces of the second line ────────────────────────────────────────────────

/// A pull request's chip, coloured by its checks.
pub open spec fn pr_span(p: PrChip) -> SpanView {
    span(
        p.chip@,
        tone(
            if p.checks@ == "failure"@ {
                Tone::Danger
            } else if p.checks@ == "success"@ {
                Tone::Success
            } else {
                Tone::Info
            },
        ),
    )
}

/// The chips of pull requests.
pub open spec fn pr_spans(prs: Seq<PrChip>) -> Seq<SpanView> {
    Seq::new(prs.len(), |i: int| pr_span(prs[i]))
}

/// Ports, each with a colon before it.
pub open spec fn port_texts(ports: Seq<u16>) -> Seq<Seq<char>> {
    Seq::new(ports.len(), |i: int| ":"@ + decimal_of(ports[i] as nat))
}

/// A pull request's chip.
pub fn pr_chip(p: &PrChip) -> (s: Span)
    ensures
        s@ == pr_span(*p),
{
    let t = if same(p.checks.as_str(), "failure") {
        Tone::Danger
    } else if same(p.checks.as_str(), "success") {
        Tone::Success
    } else {
        Tone::Info
    };
    Span::styled(p.chip.as_str(), tone(t))
}

/// Ports in one text.
pub fn ports_text(ports: &Vec<u16>) -> (out: String)
    ensures
        out@ == joined(port_texts(ports@), " "@),
{
    let mut texts: Vec<String> = Vec::new();
    let mut i: usize = 0;
    assert(views(texts@) =~= port_texts(ports@).take(0));
    while i < ports.len()
        invariant
            i <= ports@.len(),
            views(texts@) == port_texts(ports@).take(i as int),
        decreases ports@.len() - i,
    {
        let ghost before = views(texts@);
        texts.push(cat(":", decimal(ports[i] as u64).as_str()));
        assert(views(texts@) =~= before.push(port_texts(ports@)[i as int]));
        assert(views(texts@) =~= port_texts(ports@).take(i + 1));
        i += 1;
    }
    assert(port_texts(ports@).take(i as int) =~= port_texts(ports@));
    join(&texts, " ")
}

/// At most one span.
pub open spec fn maybe(yes: bool, s: SpanView) -> Seq<SpanView> {
    if yes {
        seq![s]
    } else {
        Seq::empty()
    }
}

/// What the second line would show, in priority order: what the task wants from
/// you, the workspace, the agent where it isn't the default one, the age of a
/// resting task, pull requests and ports.
pub open spec fn pieces_of(r: Row) -> Seq<SpanView> {
    maybe(reason_chip(r) is Some, reason_chip(r)->0) + seq![span(r.ws_name@, tone(Tone::Muted))] + maybe(
        r.agent is Some,
        span(" "@ + opt_view(r.agent)->0, tone(Tone::Info)),
    ) + maybe(r.status.resting() && r.changed is Some, span(r.age@, tone(Tone::Muted))) + pr_spans(r.prs@) + maybe(
        r.ports@.len() > 0,
        span(joined(port_texts(r.ports@), " "@), tone(Tone::Muted)),
    )
}

/// See [`pieces_of`].
fn pieces(r: &Row) -> (out: Vec<Span>)
    ensures
        views(out@) == pieces_of(*r),
{
    let mut out: Vec<Span> = Vec::new();
    let ghost mut want: Seq<SpanView> = Seq::empty();
    assert(views(out@) =~= want);
    if let Some(s) = row_reason(r) {
        out.push(s);
    }
    proof {
        want = maybe(reason_chip(*r) is Some, reason_chip(*r)->0);
    }
    assert(views(out@) =~= want);
    out.push(Span::styled(r.ws_name.as_str(), tone(Tone::Muted)));
    proof {
        want = want + seq![span(r.ws_name@, tone(Tone::Muted))];
    }
    assert(views(out@) =~= want);
    if let Some(a) = &r.agent {
        out.push(Span::of(cat(" ", a.as_str()), tone(Tone::Info)));
    }
    proof {
        want = want + maybe(r.agent is Some, span(" "@ + opt_view(r.agent)->0, tone(Tone::Info)));
    }
    assert(views(out@) =~= want);
    if r.status.resting() && r.changed.is_some() {
        out.push(Span::styled(r.age.as_str(), tone(Tone::Muted)));
    }
    proof {
        want = want + maybe(r.status.resting() && r.changed is Some, span(r.age@, tone(Tone::Muted)));
    }
    assert(views(out@) =~= want);
    let mut i: usize = 0;
    assert(views(out@) =~= want + pr_spans(r.prs@).take(0));
    while i < r.prs.len()
        invariant
            i <= r.prs@.len(),
            views(out@) == want + pr_spans(r.prs@).take(i as int),
        decreases r.prs@.len() - i,
    {
        let ghost before = views(out@);
        out.push(pr_chip(&r.prs[i]));
        assert(views(out@) =~= before.push(pr_spans(r.prs@)[i as int]));
        assert(views(out@) =~= want + pr_spans(r.prs@).take(i + 1));
        i += 1;
    }
    assert(pr_spans(r.prs@).take(i as int) =~= pr_spans(r.prs@));
    if r.ports.len() > 0 {
        out.push(Span::of(ports_text(&r.ports), tone(Tone::Muted)));
    }
    assert(views(out@) =~= pieces_of(*r));
    out
}

/// The first `n` pieces on one line of `w` cells, separated by a muted dot, and
/// the cells used. A piece that no longer fits whole is left out, and the next
/// is tried; only the very first is cut rather than nothing shown.
pub open spec fn packed(pieces: Seq<SpanView>, w: nat, n: int) -> (Seq<SpanView>, int)
    decreases n,
{
    if n <= 0 {
        (seq![raw(repeated(' ', INDENT as nat))], INDENT as int)
    } else {
        let (line, used) = packed(pieces, w, n - 1);
        let piece = pieces[n - 1];
        let sep: int = if n == 1 {
            0
        } else {
            3
        };
        if used + sep + width_of(piece.content) > w {
            if n == 1 && w > INDENT + 1 {
                (line.push(span(truncated(piece.content, (w - INDENT) as nat), piece.style)), w as int)
            } else {
                (line, used)
            }
        } else if sep > 0 {
            (line.push(span(" · "@, tone(Tone::Muted))).push(piece), used + sep + width_of(piece.content))
        } else {
            (line.push(piece), used + width_of(piece.content))
        }
    }
}

/// The pieces on one line: see [`packed`].
fn pack(pieces: &Vec<Span>, w: usize) -> (l: Line)
    requires
        w <= u16::MAX,
    ensures
        l@ == packed(views(pieces@), w as nat, pieces@.len() as int).0,
{
    let ghost all = views(pieces@);
    let mut line = Line::one(Span::of(spaces(INDENT), Style::plain()));
    let mut used: usize = INDENT;
    let mut i: usize = 0;
    while i < pieces.len()
        invariant
            i <= pieces@.len(),
            all == views(pieces@),
            w <= u16::MAX,
            used <= u16::MAX,
            (line@, used as int) == packed(all, w as nat, i as int),
        decreases pieces@.len() - i,
    {
        let sep: usize = if i == 0 { 0 } else { 3 };
        let piece = &pieces[i];
        assert(piece@ == all[i as int]);
        let cells: usize = width(piece.content.as_str());
        if cells > w || used + sep > w - cells {
            if i == 0 && w > INDENT + 1 {
                line = line.with(Span::of(truncate(piece.content.as_str(), w - INDENT), piece.style));
                used = w;
            }
        } else {
            if sep > 0 {
                line = line.with(Span::styled(" · ", tone(Tone::Muted)));
            }
            used = used + sep + cells;
            line = line.with(Span::styled(piece.content.as_str(), piece.style));
        }
        i += 1;
    }
    line
}

/// A packed line never runs past its width, once there is room for the indent:
/// the cells it counts as used are at most `w`.
pub proof fn packing_fits(pieces: Seq<SpanView>, w: nat, n: int)
    requires
        INDENT <= w,
        0 <= n <= pieces.len(),
    ensures
        INDENT <= packed(pieces, w, n).1 <= w,
    decreases n,
{
    if n > 0 {
        packing_fits(pieces, w, n - 1);
    }
}

// ── Subagents ────────────────────────────────────────────────────────────────

/// A subagent's line, under the title: at work or finished.
pub open spec fn subagent_line(s: Subagent, w: nat) -> Seq<SpanView> {
    let room = if INDENT + 2 <= w {
        (w - INDENT - 2) as nat
    } else {
        0
    };
    seq![
        raw(repeated(' ', INDENT as nat)),
        if s.finished {
            span("✔ "@, tone(Tone::Success))
        } else {
            span("◐ "@, tone(Tone::Info))
        },
        span(truncated(s.description@, room), tone(Tone::Muted)),
    ]
}

/// The lines of the subagents.
pub open spec fn subagent_lines(s: Seq<Subagent>, w: nat) -> Seq<Seq<SpanView>> {
    Seq::new(s.len(), |i: int| subagent_line(s[i], w))
}

/// See [`subagent_line`].
fn subagent(s: &Subagent, w: usize) -> (l: Line)
    ensures
        l@ == subagent_line(*s, w as nat),
{
    let room: usize = if w >= INDENT + 2 { w - INDENT - 2 } else { 0 };
    let glyph = if s.finished {
        Span::styled("✔ ", tone(Tone::Success))
    } else {
        Span::styled("◐ ", tone(Tone::Info))
    };
    Line::one(Span::of(spaces(INDENT), Style::plain())).with(glyph).with(
        Span::of(truncate(s.description.as_str(), room), tone(Tone::Muted)),
    )
}

// ── The row ──────────────────────────────────────────────────────────────────

/// The colour of a title: under the cursor, the task on screen, a closed task
/// dimmer than an open one.
pub open spec fn title_tone(v: ListView, pos: int) -> Tone {
    let r = v.row_at(pos);
    if pos == v.selected && v.focus == Focus::List {
        Tone::SelText
    } else if v.current == Some(r.slug@) {
        Tone::Current
    } else if r.window_id is None {
        Tone::Muted
    } else {
        Tone::Text
    }
}

/// The cells of a title.
pub open spec fn title_width(w: nat) -> nat {
    if w > INDENT {
        (w - INDENT) as nat
    } else {
        1
    }
}

/// A task in a column of `w` cells: the glyph and the bold title, then the
/// packed line under it, then its subagents.
pub open spec fn column_item(v: ListView, w: nat, pos: int) -> Seq<Seq<SpanView>> {
    let r = v.row_at(pos);
    seq![
        seq![raw("  "@), row_glyph_of(r), span(padded(r.title@, title_width(w)), tone(title_tone(v, pos)).bold())],
        packed(pieces_of(r), w, pieces_of(r).len() as int).0,
    ] + subagent_lines(r.subagents@, w)
}

impl TaskList {
    /// See [`column_item`].
    fn column_entry(&self, w: usize, pos: usize) -> (i: Item)
        requires
            self@.wf(),
            pos < self@.filtered.len(),
            w <= u16::MAX,
        ensures
            i@ == column_item(self@, w as nat, pos as int),
    {
        proof {
            filtered_in_range(self@);
        }
        let r = &self.rows[self.filtered[pos]];
        let t = if pos == self.selected && self.focus == Focus::List {
            Tone::SelText
        } else if is_some_of(&self.current, r.slug.as_str()) {
            Tone::Current
        } else if r.window_id.is_none() {
            Tone::Muted
        } else {
            Tone::Text
        };
        let title_w: usize = if w > INDENT { w - INDENT } else { 1 };
        let first = Line::empty().with(Span::raw("  ")).with(row_glyph(r)).with(
            Span::of(pad_cell(r.title.as_str(), title_w), tone(t).bold()),
        );
        let second = pack(&pieces(r), w);
        let mut item = Item::empty().with(first).with(second);
        let ghost head = item@;
        let mut i: usize = 0;
        assert(item@ =~= head + subagent_lines(r.subagents@, w as nat).take(0));
        while i < r.subagents.len()
            invariant
                i <= r.subagents@.len(),
                item@ == head + subagent_lines(r.subagents@, w as nat).take(i as int),
            decreases r.subagents@.len() - i,
        {
            item = item.with(subagent(&r.subagents[i], w));
            assert(item@ =~= head + subagent_lines(r.subagents@, w as nat).take(i + 1));
            i += 1;
        }
        assert(subagent_lines(r.subagents@, w as nat).take(i as int) =~= subagent_lines(r.subagents@, w as nat));
        assert(item@ =~~= column_item(self@, w as nat, pos as int));
        item
    }

    /// The column's list: the sections and rows of the task list, shaped for a
    /// narrow column. No spacer between tasks: the headings already separate
    /// the sections.
    pub fn column_items(&self, w: usize) -> (b: Body)
        requires
            self@.wf(),
            w <= u16::MAX,
        ensures
            b@ == self@.task_body(|pos: int| column_item(self@, w as nat, pos)),
    {
        proof {
            filtered_in_range(self@);
        }
        if self.filtered.len() == 0 {
            return empty_body();
        }
        let ghost v = self@;
        let ghost key = |pos: int| v.row_at(pos).section.rank() as int;
        let ghost heading = |pos: int| v.section_heading(v.row_at(pos).section);
        let ghost item = |pos: int| column_item(v, w as nat, pos);
        let mut b = Body::nothing();
        let mut i: usize = 0;
        while i < self.filtered.len()
            invariant
                i <= self.filtered@.len(),
                v == self@,
                v.wf(),
                w <= u16::MAX,
                key == (|pos: int| v.row_at(pos).section.rank() as int),
                heading == (|pos: int| v.section_heading(v.row_at(pos).section)),
                item == (|pos: int| column_item(v, w as nat, pos)),
                forall|k: int| 0 <= k < self.filtered@.len() ==> (#[trigger] self.filtered@[k]) < self.rows@.len(),
                b@ == body_upto(i as int, v.selected as int, key, heading, item),
            decreases self.filtered@.len() - i,
        {
            let group = self.rows[self.filtered[i]].section;
            let fresh: bool = i == 0 || self.rows[self.filtered[i - 1]].section != group;
            assert(i > 0 ==> fresh == (key(i as int - 1) != key(i as int)));
            if fresh {
                if i > 0 {
                    let gap = Item::one(Line::empty());
                    assert(gap@ =~~= blank());
                    b.chrome(gap);
                }
                b.chrome(self.section_heading(group));
            }
            b.mark(i == self.selected);
            b.entry(self.column_entry(w, i), i);
            i += 1;
        }
        b
    }
}

} // verus!
