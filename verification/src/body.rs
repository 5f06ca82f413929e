//! The body of a list: entries under headings, each line mapped back to its
//! entry.
use vstd::prelude::*;
use vstd::string::*;

use crate::input::Rect;
use crate::layout::{divides, lengths, rows_of, split_rows, stacks, within, Constraint};
use crate::list::{filtered_in_range, ListView, RepoRow, Row, TaskList};
use crate::status::{group_label, TaskGroup};
use crate::style::{group_color, raw, span, tone, Item, Line, Span, SpanView, Style, Tone};
use crate::text::{cat, decimal, decimal_of, own, truncate, truncated, views};

verus! {

/// What a list shows.
#[derive(Debug)]
pub struct Body {
    pub items: Vec<Item>,
    /// The item the selected entry is drawn as.
    pub selected_line: Option<usize>,
    /// Each item's entry; none for headings, spacers and what an empty list
    /// says.
    pub line_to_pos: Vec<Option<usize>>,
}

/// What a list shows.
#[verifier::ext_equal]
pub struct BodyView {
    pub items: Seq<Seq<Seq<SpanView>>>,
    pub selected_line: Option<usize>,
    pub line_to_pos: Seq<Option<usize>>,
}

impl View for Body {
    type V = BodyView;

    open spec fn view(&self) -> BodyView {
        BodyView {
            items: views(self.items@),
            selected_line: self.selected_line,
            line_to_pos: self.line_to_pos@,
        }
    }
}

impl BodyView {
    /// Nothing.
    pub open spec fn nothing() -> BodyView {
        BodyView { items: Seq::empty(), selected_line: None, line_to_pos: Seq::empty() }
    }

    /// With one more item that is no entry.
    pub open spec fn chrome(self, item: Seq<Seq<SpanView>>) -> BodyView {
        BodyView { items: self.items.push(item), line_to_pos: self.line_to_pos.push(None), ..self }
    }

    /// With one more entry.
    pub open spec fn entry(self, item: Seq<Seq<SpanView>>, pos: int) -> BodyView {
        BodyView { items: self.items.push(item), line_to_pos: self.line_to_pos.push(Some(pos as usize)), ..self }
    }

    /// With the next item the selected one, if `yes`.
    pub open spec fn marked(self, yes: bool) -> BodyView {
        if yes {
            BodyView { selected_line: Some(self.items.len() as usize), ..self }
        } else {
            self
        }
    }
}

impl Body {
    /// Nothing.
    pub fn nothing() -> (b: Body)
        ensures
            b@ == BodyView::nothing(),
    {
        let b = Body { items: Vec::new(), selected_line: None, line_to_pos: Vec::new() };
        assert(b@ =~= BodyView::nothing());
        b
    }

    /// One more item that is no entry.
    pub fn chrome(&mut self, item: Item)
        ensures
            final(self)@ == old(self)@.chrome(item@),
    {
        self.items.push(item);
        self.line_to_pos.push(None);
        assert(self@ =~= old(self)@.chrome(item@));
    }

    /// One more entry.
    pub fn entry(&mut self, item: Item, pos: usize)
        ensures
            final(self)@ == old(self)@.entry(item@, pos as int),
    {
        self.items.push(item);
        self.line_to_pos.push(Some(pos));
        assert(self@ =~= old(self)@.entry(item@, pos as int));
    }

    /// The next item is the selected one, if `yes`.
    pub fn mark(&mut self, yes: bool)
        ensures
            final(self)@ == old(self)@.marked(yes),
    {
        if yes {
            self.selected_line = Some(self.items.len());
        }
    }
}

/// The first `n` entries under their headings: a heading wherever the key
/// changes, with a blank line before every one but the first.
pub open spec fn body_upto(
    n: int,
    selected: int,
    key: spec_fn(int) -> int,
    heading: spec_fn(int) -> Seq<Seq<SpanView>>,
    item: spec_fn(int) -> Seq<Seq<SpanView>>,
) -> BodyView
    decreases n,
{
    if n <= 0 {
        BodyView::nothing()
    } else {
        let b = body_upto(n - 1, selected, key, heading, item);
        let headed = if n == 1 {
            b.chrome(heading(n - 1))
        } else if key(n - 2) != key(n - 1) {
            b.chrome(blank()).chrome(heading(n - 1))
        } else {
            b
        };
        headed.marked(n - 1 == selected).entry(item(n - 1), n - 1)
    }
}

/// A blank item.
pub open spec fn blank() -> Seq<Seq<SpanView>> {
    seq![Seq::empty()]
}

/// How many items of `s` come before the item `i` that are entries.
pub open spec fn entries_before(s: Seq<Option<usize>>, i: int) -> nat
    decreases i,
{
    if i <= 0 {
        0
    } else {
        entries_before(s, i - 1) + if s[i - 1] is Some {
            1nat
        } else {
            0
        }
    }
}

/// Every item has its place in the map, entries come in order, each once, and
/// the selected line is the selected entry's.
pub proof fn lines_map_back(
    n: int,
    selected: int,
    key: spec_fn(int) -> int,
    heading: spec_fn(int) -> Seq<Seq<SpanView>>,
    item: spec_fn(int) -> Seq<Seq<SpanView>>,
)
    requires
        0 <= n <= usize::MAX / 3,
        0 <= selected,
    ensures
        ({
            let b = body_upto(n, selected, key, heading, item);
            &&& b.items.len() == b.line_to_pos.len()
            &&& n <= b.items.len() <= 3 * n
            &&& entries_before(b.line_to_pos, b.items.len() as int) == n
            &&& forall|i: int|
                0 <= i < b.items.len() && (#[trigger] b.line_to_pos[i]) is Some ==> b.line_to_pos[i]->0 == entries_before(
                    b.line_to_pos,
                    i,
                ) && b.items[i] == item(b.line_to_pos[i]->0 as int)
            &&& selected < n ==> (b.selected_line matches Some(l) && l < b.items.len() && b.line_to_pos[l as int] == Some(
                selected as usize,
            ))
            &&& selected >= n ==> b.selected_line is None
        }),
    decreases n,
{
    if n > 0 {
        lines_map_back(n - 1, selected, key, heading, item);
        let a = body_upto(n - 1, selected, key, heading, item);
        let b = body_upto(n, selected, key, heading, item);
        assert forall|i: int| 0 <= i <= a.line_to_pos.len() implies entries_before(b.line_to_pos, i) == #[trigger] entries_before(
            a.line_to_pos,
            i,
        ) by {
            entries_before_alike(a.line_to_pos, b.line_to_pos, i);
        }
        let last = b.items.len() - 1;
        reveal_with_fuel(entries_before, 4);
        assert(entries_before(a.line_to_pos, a.line_to_pos.len() as int) == n - 1);
        assert forall|i: int| 0 <= i < b.items.len() && (#[trigger] b.line_to_pos[i]) is Some implies b.line_to_pos[i]->0
            == entries_before(b.line_to_pos, i) && b.items[i] == item(b.line_to_pos[i]->0 as int) by {
            if i < a.items.len() {
                assert(b.line_to_pos[i] == a.line_to_pos[i]);
                assert(b.items[i] == a.items[i]);
                assert(entries_before(b.line_to_pos, i) == entries_before(a.line_to_pos, i));
            } else {
                assert(i == last);
            }
        }
    }
}

/// What comes before a place depends on nothing after it.
proof fn entries_before_alike(a: Seq<Option<usize>>, b: Seq<Option<usize>>, i: int)
    requires
        0 <= i <= a.len() <= b.len(),
        forall|k: int| 0 <= k < a.len() ==> a[k] == b[k],
    ensures
        entries_before(a, i) == entries_before(b, i),
    decreases i,
{
    if i > 0 {
        entries_before_alike(a, b, i - 1);
    }
}

// ── Tasks ────────────────────────────────────────────────────────────────────

impl ListView {
    /// The task at a filtered position.
    pub open spec fn row_at(self, pos: int) -> Row {
        self.rows[self.filtered[pos] as int]
    }

    /// The repo at a filtered position.
    pub open spec fn repo_at(self, pos: int) -> RepoRow {
        self.repo_rows[self.repo_filtered[pos] as int]
    }

    /// How many of the first `n` tasks on screen are in a section.
    pub open spec fn in_section(self, g: TaskGroup, n: int) -> nat
        decreases n,
    {
        if n <= 0 {
            0
        } else {
            self.in_section(g, n - 1) + if self.row_at(n - 1).section == g {
                1nat
            } else {
                0
            }
        }
    }

    /// The heading of a section: its name and how many tasks it shows.
    pub open spec fn section_heading(self, g: TaskGroup) -> Seq<Seq<SpanView>> {
        seq![
            seq![
                span(group_label(g), Style::plain().fg(group_color(g)).bold()),
                span("  "@ + decimal_of(self.in_section(g, self.filtered.len() as int)), tone(Tone::Muted)),
            ],
        ]
    }

    /// The tasks under their sections, each drawn by `item`; what an empty list
    /// says otherwise.
    pub open spec fn task_body(self, item: spec_fn(int) -> Seq<Seq<SpanView>>) -> BodyView {
        if self.filtered.len() == 0 {
            empty_state()
        } else {
            body_upto(
                self.filtered.len() as int,
                self.selected as int,
                |pos: int| self.row_at(pos).section.rank() as int,
                |pos: int| self.section_heading(self.row_at(pos).section),
                item,
            )
        }
    }
}

/// The first-run screen: the mark drawn in text — two bright bars, the amber
/// dot, two muted bars — next to the wordmark and the one thing there is to do.
pub open spec fn empty_state_spec() -> Seq<Seq<SpanView>> {
    seq![
        Seq::empty(),
        seq![raw("   "@), span("━━━━━━━"@, tone(Tone::Text))],
        seq![
            raw("   "@),
            span("━━━━ "@, tone(Tone::Text)),
            span("●"@, tone(Tone::Warn)),
            raw("       "@),
            span("ten"@, tone(Tone::Bright).bold()),
            span("x"@, tone(Tone::Accent).bold()),
        ],
        seq![
            raw("   "@),
            span("━━━━━━"@, tone(Tone::Muted)),
            raw("       "@),
            span("no tasks yet — :n to create one"@, tone(Tone::Muted)),
        ],
        seq![raw("   "@), span("━━━"@, tone(Tone::Muted))],
    ]
}

/// The first-run screen, a line an item.
pub open spec fn empty_state() -> BodyView {
    BodyView {
        items: Seq::new(5, |i: int| seq![empty_state_spec()[i]]),
        selected_line: None,
        line_to_pos: seq![None, None, None, None, None],
    }
}

/// The first-run screen.
pub fn empty_state_lines() -> (lines: Item)
    ensures
        lines@ == empty_state_spec(),
{
    let bars = Line::empty().with(Span::raw("   ")).with(Span::styled("━━━━━━━", tone(Tone::Text)));
    let mark = Line::empty().with(Span::raw("   ")).with(Span::styled("━━━━ ", tone(Tone::Text))).with(
        Span::styled("●", tone(Tone::Warn)),
    ).with(Span::raw("       ")).with(Span::styled("ten", tone(Tone::Bright).bold())).with(
        Span::styled("x", tone(Tone::Accent).bold()),
    );
    let hint = Line::empty().with(Span::raw("   ")).with(Span::styled("━━━━━━", tone(Tone::Muted))).with(
        Span::raw("       "),
    ).with(Span::styled("no tasks yet — :n to create one", tone(Tone::Muted)));
    let last = Line::empty().with(Span::raw("   ")).with(Span::styled("━━━", tone(Tone::Muted)));
    let lines = Item::empty().with(Line::empty()).with(bars).with(mark).with(hint).with(last);
    assert(lines@ =~~= empty_state_spec());
    lines
}

/// See [`empty_state`].
pub fn empty_body() -> (b: Body)
    ensures
        b@ == empty_state(),
{
    let mut lines = empty_state_lines().lines;
    let ghost all = lines@;
    assert(views(all) =~= empty_state_spec());
    let mut b = Body::nothing();
    let l4 = lines.pop();
    let l3 = lines.pop();
    let l2 = lines.pop();
    let l1 = lines.pop();
    let l0 = lines.pop();
    if let (Some(l0), Some(l1), Some(l2), Some(l3), Some(l4)) = (l0, l1, l2, l3, l4) {
        assert(l0@ == views(all)[0] && l1@ == views(all)[1] && l2@ == views(all)[2] && l3@ == views(all)[3] && l4@
            == views(all)[4]);
        b.chrome(Item::one(l0));
        b.chrome(Item::one(l1));
        b.chrome(Item::one(l2));
        b.chrome(Item::one(l3));
        b.chrome(Item::one(l4));
    }
    assert(b@ =~~= empty_state());
    b
}

impl TaskList {
    /// How many of the tasks on screen are in a section.
    pub fn count_in(&self, g: TaskGroup) -> (n: usize)
        requires
            self@.wf(),
        ensures
            n == self@.in_section(g, self@.filtered.len() as int),
    {
        proof {
            filtered_in_range(self@);
        }
        let mut n: usize = 0;
        let mut i: usize = 0;
        while i < self.filtered.len()
            invariant
                i <= self.filtered@.len(),
                n <= i,
                forall|k: int| 0 <= k < self.filtered@.len() ==> (#[trigger] self.filtered@[k]) < self.rows@.len(),
                n == self@.in_section(g, i as int),
            decreases self.filtered@.len() - i,
        {
            if self.rows[self.filtered[i]].section == g {
                n += 1;
            }
            i += 1;
        }
        n
    }

    /// See [`ListView::section_heading`].
    pub fn section_heading(&self, g: TaskGroup) -> (i: Item)
        requires
            self@.wf(),
        ensures
            i@ == self@.section_heading(g),
    {
        let n = decimal(self.count_in(g) as u64);
        let head = Line::empty().with(Span::styled(g.label(), Style::plain().fg(group_color(g)).bold())).with(
            Span::of(cat("  ", n.as_str()), tone(Tone::Muted)),
        );
        let i = Item::one(head);
        assert(i@ =~~= self@.section_heading(g));
        i
    }
}

// ── Repos ────────────────────────────────────────────────────────────────────

/// A repo: a dot for its clone, its name, and its last commit as far as it
/// fits.
pub open spec fn repo_item(r: RepoRow, width: nat) -> Seq<Seq<SpanView>> {
    let detail = if r.cloned {
        match r.commit {
            Some(c) => c@,
            None => "—"@,
        }
    } else {
        "not cloned"@
    };
    let left = 2 + 2 + r.name@.len() + 3;
    let room = if left <= width {
        (width - left) as nat
    } else {
        0
    };
    seq![
        seq![
            raw("  "@),
            if r.cloned {
                span("● "@, tone(Tone::Success))
            } else {
                span("○ "@, tone(Tone::Muted))
            },
            span(
                r.name@,
                if r.cloned {
                    tone(Tone::Bright)
                } else {
                    tone(Tone::Muted)
                },
            ),
            raw("   "@),
            span(truncated(detail, room), tone(Tone::Muted)),
        ],
    ]
}

/// The heading of a workspace.
pub open spec fn ws_heading(name: Seq<char>) -> Seq<Seq<SpanView>> {
    seq![seq![span(name, tone(Tone::Warn).bold())]]
}

/// What the Repos tab says of no repos.
pub open spec fn no_repos() -> BodyView {
    BodyView::nothing().chrome(seq![seq![span("  no repos"@, tone(Tone::Muted))]])
}

impl ListView {
    /// The repos under their workspaces.
    pub open spec fn repo_body(self, width: nat) -> BodyView {
        if self.repo_filtered.len() == 0 {
            no_repos()
        } else {
            body_upto(
                self.repo_filtered.len() as int,
                self.repo_selected as int,
                |pos: int| self.repo_at(pos).ws_idx as int,
                |pos: int| ws_heading(self.repo_at(pos).ws_name@),
                |pos: int| repo_item(self.repo_at(pos), width),
            )
        }
    }
}

/// See [`repo_item`].
fn repo_entry(r: &RepoRow, width: usize) -> (i: Item)
    ensures
        i@ == repo_item(*r, width as nat),
{
    let detail = if r.cloned {
        match &r.commit {
            Some(c) => c.clone(),
            None => own("—"),
        }
    } else {
        own("not cloned")
    };
    let n: usize = r.name.as_str().unicode_len();
    let room: usize = if width >= 7 && width - 7 >= n { width - 7 - n } else { 0 };
    let dot = if r.cloned {
        Span::styled("● ", tone(Tone::Success))
    } else {
        Span::styled("○ ", tone(Tone::Muted))
    };
    let name_style = if r.cloned { tone(Tone::Bright) } else { tone(Tone::Muted) };
    let i = Item::one(
        Line::empty().with(Span::raw("  ")).with(dot).with(Span::styled(r.name.as_str(), name_style)).with(
            Span::raw("   "),
        ).with(Span::of(truncate(detail.as_str(), room), tone(Tone::Muted))),
    );
    assert(i@ =~~= repo_item(*r, width as nat));
    i
}

impl TaskList {
    /// The grouped repo list: clone dot and last commit.
    pub fn repo_items(&self, width: usize) -> (b: Body)
        requires
            self@.wf(),
        ensures
            b@ == self@.repo_body(width as nat),
    {
        proof {
            filtered_in_range(self@);
        }
        let mut b = Body::nothing();
        if self.repo_filtered.len() == 0 {
            let item = Item::one(Line::one(Span::styled("  no repos", tone(Tone::Muted))));
            assert(item@ =~~= seq![seq![span("  no repos"@, tone(Tone::Muted))]]);
            b.chrome(item);
            return b;
        }
        let ghost v = self@;
        let ghost key = |pos: int| v.repo_at(pos).ws_idx as int;
        let ghost heading = |pos: int| ws_heading(v.repo_at(pos).ws_name@);
        let ghost item = |pos: int| repo_item(v.repo_at(pos), width as nat);
        let mut i: usize = 0;
        while i < self.repo_filtered.len()
            invariant
                i <= self.repo_filtered@.len(),
                v == self@,
                key == (|pos: int| v.repo_at(pos).ws_idx as int),
                heading == (|pos: int| ws_heading(v.repo_at(pos).ws_name@)),
                item == (|pos: int| repo_item(v.repo_at(pos), width as nat)),
                forall|k: int|
                    0 <= k < self.repo_filtered@.len() ==> (#[trigger] self.repo_filtered@[k]) < self.repo_rows@.len(),
                b@ == body_upto(i as int, v.repo_selected as int, key, heading, item),
            decreases self.repo_filtered@.len() - i,
        {
            let r = &self.repo_rows[self.repo_filtered[i]];
            let fresh: bool = i == 0 || self.repo_rows[self.repo_filtered[i - 1]].ws_idx != r.ws_idx;
            if fresh {
                if i > 0 {
                    let gap = Item::one(Line::empty());
                    assert(gap@ =~~= blank());
                    b.chrome(gap);
                }
                let head = Item::one(Line::one(Span::styled(r.ws_name.as_str(), tone(Tone::Warn).bold())));
                assert(head@ =~~= ws_heading(r.ws_name@));
                b.chrome(head);
            }
            b.mark(i == self.repo_selected);
            b.entry(repo_entry(r, width), i);
            i += 1;
        }
        b
    }
}

// ── Areas ────────────────────────────────────────────────────────────────────

/// Where the parts of a list screen go.
#[derive(Debug, Clone, Copy, PartialEq, Eq, Structural)]
pub struct ListAreas {
    pub tabs: Rect,
    pub search: Rect,
    pub list: Rect,
    pub footer: Rect,
}

/// Whether each part lies within the area and is as wide as it.
pub open spec fn areas_within(a: ListAreas, area: Rect) -> bool {
    &&& within(a.tabs, area)
    &&& within(a.search, area)
    &&& within(a.list, area)
    &&& within(a.footer, area)
    &&& a.tabs.width == area.width
    &&& a.search.width == area.width
    &&& a.list.width == area.width
    &&& a.footer.width == area.width
}

/// Where the parts of a list screen go: the tab bar, the search box, the list
/// and the footer, top to bottom. In fewer than six rows they make do.
pub open spec fn areas_placed(a: ListAreas, area: Rect) -> bool {
    &&& areas_within(a, area)
    &&& area.height >= 6 ==> a == (ListAreas {
        tabs: rows_of(area, 0, 1),
        search: rows_of(area, 1, 3),
        list: rows_of(area, 4, area.height - 5),
        footer: rows_of(area, area.height - 1, 1),
    })
}

/// See [`areas_placed`].
pub fn list_areas(area: Rect) -> (a: ListAreas)
    requires
        area.x + area.width <= u16::MAX,
        area.y + area.height <= u16::MAX,
    ensures
        areas_placed(a, area),
{
    let wanted = vec![Constraint::Length(1), Constraint::Length(3), Constraint::Min(1), Constraint::Length(1)];
    let parts = split_rows(area, &wanted);
    proof {
        reveal_with_fuel(lengths, 5);
        assert(area.height >= 6 ==> stacks(wanted@, 2, area.height));
        assert(divides(wanted@, area.height, 0, parts@[0].y - area.y, parts@[0].height as int));
        assert(divides(wanted@, area.height, 1, parts@[1].y - area.y, parts@[1].height as int));
        assert(divides(wanted@, area.height, 2, parts@[2].y - area.y, parts@[2].height as int));
        assert(divides(wanted@, area.height, 3, parts@[3].y - area.y, parts@[3].height as int));
    }
    ListAreas { tabs: parts[0], search: parts[1], list: parts[2], footer: parts[3] }
}

} // verus!
