//! The overlay on screen: tasks in columns — glyph, title, workspace, open,
//! age — with a preview of the selected task's pane beside them where there is
//! room.
use vstd::prelude::*;
use vstd::string::*;

use crate::body::{areas_placed, blank, body_upto, empty_body, list_areas, Body, BodyView, ListAreas};
use crate::column::answerable;
use crate::column_rows::{port_texts, ports_text, pr_chip, pr_span, wants, wants_text};
use crate::column_view::{footer_line, list_footer, list_width, places, ListScreen, ListScreenView};
use crate::input::Rect;
use crate::layout::{edge, shares, shares_out, split_columns, within, Constraint};
use crate::list::{filtered_in_range, Focus, InputMode, ListView, Mode, Row, Tab, TaskList};
use crate::overlay::{Overlay, OverlayView};
use crate::status::TaskStatus;
use crate::style::{raw, span, tone, Color, Item, Line, Span, SpanView, Style, Tone};
use crate::text::{cat, joined, is_some_of, opt_view, pad_cell, padded, views};

verus! {

// ── Column widths ────────────────────────────────────────────────────────────

/// The larger of two numbers.
pub open spec fn most(a: nat, b: nat) -> nat {
    if a < b {
        b
    } else {
        a
    }
}

/// The longest workspace name of the first `n` tasks on screen.
pub open spec fn longest_ws(v: ListView, n: int) -> nat
    decreases n,
{
    if n <= 0 {
        0
    } else {
        most(longest_ws(v, n - 1), v.row_at(n - 1).ws_name@.len())
    }
}

/// The longest title of the first `n` tasks on screen.
pub open spec fn longest_title(v: ListView, n: int) -> nat
    decreases n,
{
    if n <= 0 {
        0
    } else {
        most(longest_title(v, n - 1), v.row_at(n - 1).title@.len())
    }
}

/// `a` less `b`, not below nothing.
pub open spec fn less(a: nat, b: nat) -> nat {
    if a < b {
        0
    } else {
        (a - b) as nat
    }
}

/// How wide the columns are.
#[derive(Debug, Clone, Copy, PartialEq, Eq, Structural)]
pub struct Widths {
    pub title: usize,
    pub ws: usize,
    /// The `open` column is shown.
    pub open: bool,
    /// The age column is shown.
    pub age: bool,
}

/// The width of the workspace column: its widest name, but never more than a
/// third of the pane.
pub open spec fn ws_width(v: ListView, w: nat) -> nat {
    let longest = longest_ws(v, v.filtered.len() as int);
    if longest < w / 3 {
        longest
    } else {
        w / 3
    }
}

/// Indent, glyph, gap and workspace.
pub open spec fn base_width(v: ListView, w: nat) -> nat {
    2 + 3 + 2 + ws_width(v, w)
}

/// Whether the `open` column leaves a readable title.
pub open spec fn shows_open(v: ListView, w: nat) -> bool {
    less(w, base_width(v, w) + 2 + 4) >= 12
}

/// Whether the age column leaves a readable title too.
pub open spec fn has_age_room(v: ListView, w: nat) -> bool {
    less(w, base_width(v, w) + 2 + 4 + 2 + 4) >= 12
}

/// The width of the title column: the longest title, or what the other columns
/// leave, eight cells at least.
pub open spec fn title_cells(v: ListView, w: nat) -> nat {
    let extras: nat = (if shows_open(v, w) {
        6nat
    } else {
        0
    }) + (if has_age_room(v, w) {
        6nat
    } else {
        0
    });
    let room = most(less(w, base_width(v, w) + extras), 8);
    let longest = longest_title(v, v.filtered.len() as int);
    if longest < room {
        longest
    } else {
        room
    }
}

impl TaskList {
    /// The columns in a list of `w` cells.
    pub fn widths(&self, w: usize) -> (out: Widths)
        requires
            self@.wf(),
            w <= u16::MAX,
        ensures
            out.title == title_cells(self@, w as nat),
            out.ws == ws_width(self@, w as nat),
            out.open == shows_open(self@, w as nat),
            out.age == has_age_room(self@, w as nat),
    {
        proof {
            filtered_in_range(self@);
        }
        let mut ws: usize = 0;
        let mut title: usize = 0;
        let mut i: usize = 0;
        while i < self.filtered.len()
            invariant
                i <= self.filtered@.len(),
                forall|k: int| 0 <= k < self.filtered@.len() ==> (#[trigger] self.filtered@[k]) < self.rows@.len(),
                ws == longest_ws(self@, i as int),
                title == longest_title(self@, i as int),
            decreases self.filtered@.len() - i,
        {
            let r = &self.rows[self.filtered[i]];
            let a: usize = r.ws_name.as_str().unicode_len();
            let b: usize = r.title.as_str().unicode_len();
            if a > ws {
                ws = a;
            }
            if b > title {
                title = b;
            }
            i += 1;
        }
        let ws_w: usize = if ws < w / 3 { ws } else { w / 3 };
        let base: usize = 7 + ws_w;
        let open: bool = w >= base + 6 && w - (base + 6) >= 12;
        let age: bool = w >= base + 12 && w - (base + 12) >= 12;
        let extras: usize = (if open { 6usize } else { 0 }) + (if age { 6usize } else { 0 });
        let left: usize = if w >= base + extras { w - (base + extras) } else { 0 };
        let room: usize = if left < 8 { 8 } else { left };
        Widths { title: if title < room { title } else { room }, ws: ws_w, open, age }
    }
}

// ── A task ───────────────────────────────────────────────────────────────────

/// A task's glyph: a wanted secret takes priority over the session's status.
pub open spec fn glyph_of(r: Row) -> Seq<char> {
    if r.wants_secrets() {
        "🔒 "@
    } else {
        match r.status {
            TaskStatus::Blocked => "💬 "@,
            TaskStatus::Signaled => "🔔 "@,
            TaskStatus::Done => "✅ "@,
            TaskStatus::Working => "▷  "@,
            TaskStatus::Idle => "   "@,
        }
    }
}

/// How a task's title is drawn.
pub open spec fn title_style(r: Row) -> Style {
    if r.wants_secrets() {
        tone(Tone::Accent).bold()
    } else {
        match r.status {
            TaskStatus::Blocked => tone(Tone::Bright).bold(),
            TaskStatus::Signaled | TaskStatus::Done => tone(Tone::Bright),
            TaskStatus::Working | TaskStatus::Idle => tone(Tone::Text),
        }
    }
}

/// How long a task has rested, as far as it is known.
pub open spec fn age_of(r: Row) -> Seq<char> {
    if r.changed is Some {
        r.age@
    } else {
        ""@
    }
}

/// The open and age cells, as far as there is room: a resting task says how
/// long it has rested.
pub open spec fn cells_of(r: Row, open: bool, age: bool) -> Seq<SpanView> {
    (if open {
        seq![
            raw("  "@),
            span(
                if r.tab_id is Some {
                    "open"@
                } else {
                    "    "@
                },
                tone(Tone::Muted),
            ),
        ]
    } else {
        Seq::empty()
    }) + (if age && r.status.resting() {
        seq![raw("  "@), span(age_of(r), tone(Tone::Muted))]
    } else {
        Seq::empty()
    })
}

/// What the task wants: which secrets, else the agent's own words for what it
/// waits on.
pub open spec fn want_spans(r: Row, open: bool) -> Seq<SpanView> {
    if r.wants_secrets() && open {
        seq![span("  · "@ + wants_text(r), tone(Tone::Accent))]
    } else if r.waiting_for is Some && open {
        seq![span("  · "@ + opt_view(r.waiting_for)->0, tone(Tone::Warn))]
    } else {
        Seq::empty()
    }
}

/// The first `n` pull requests, each behind a gap.
pub open spec fn spaced_prs(r: Row, n: int) -> Seq<SpanView>
    decreases n,
{
    if n <= 0 {
        Seq::empty()
    } else {
        spaced_prs(r, n - 1).push(raw("  "@)).push(pr_span(r.prs@[n - 1]))
    }
}

/// The chips: the task one is in, its pull requests and its ports.
pub open spec fn chip_spans(r: Row, current: bool, open: bool) -> Seq<SpanView> {
    if open {
        (if current {
            seq![raw("  "@), span(" current "@, tone(Tone::Ground).bg(Color::Tone(Tone::Current)).bold())]
        } else {
            Seq::empty()
        }) + spaced_prs(r, r.prs@.len() as int) + (if r.ports@.len() > 0 {
            seq![raw("  "@), span(joined(port_texts(r.ports@), " "@), tone(Tone::Muted))]
        } else {
            Seq::empty()
        })
    } else {
        Seq::empty()
    }
}

/// A task in the overlay: one line of columns, what it wants, and its chips.
pub open spec fn task_item(v: ListView, current: Option<Seq<char>>, w: nat, pos: int) -> Seq<Seq<SpanView>> {
    let r = v.row_at(pos);
    let open = shows_open(v, w);
    seq![
        seq![
            raw("  "@),
            raw(glyph_of(r)),
            span(padded(r.title@, title_cells(v, w)), title_style(r)),
            raw("  "@),
            span(padded(r.ws_name@, ws_width(v, w)), tone(Tone::Muted)),
        ] + cells_of(r, open, has_age_room(v, w)) + want_spans(r, open) + chip_spans(r, current == Some(r.slug@), open),
    ]
}

/// See [`glyph_of`].
fn glyph(r: &Row) -> (text: &'static str)
    ensures
        text@ == glyph_of(*r),
{
    if r.has_secrets() {
        return "🔒 ";
    }
    match r.status {
        TaskStatus::Blocked => "💬 ",
        TaskStatus::Signaled => "🔔 ",
        TaskStatus::Done => "✅ ",
        TaskStatus::Working => "▷  ",
        TaskStatus::Idle => "   ",
    }
}

/// See [`title_style`].
fn style_of(r: &Row) -> (s: Style)
    ensures
        s == title_style(*r),
{
    if r.has_secrets() {
        return tone(Tone::Accent).bold();
    }
    match r.status {
        TaskStatus::Blocked => tone(Tone::Bright).bold(),
        TaskStatus::Signaled | TaskStatus::Done => tone(Tone::Bright),
        TaskStatus::Working | TaskStatus::Idle => tone(Tone::Text),
    }
}

/// Add the open and age cells.
fn with_cells(line: Line, r: &Row, open: bool, age: bool) -> (l: Line)
    ensures
        l@ == line@ + cells_of(*r, open, age),
{
    let ghost before = line@;
    let mut l = line;
    if open {
        let cell = if r.tab_id.is_some() { "open" } else { "    " };
        l = l.with(Span::raw("  ")).with(Span::styled(cell, tone(Tone::Muted)));
    }
    if age && r.status.resting() {
        let rested: &str = if r.changed.is_some() { r.age.as_str() } else { "" };
        l = l.with(Span::raw("  ")).with(Span::styled(rested, tone(Tone::Muted)));
    }
    assert(l@ =~= before + cells_of(*r, open, age));
    l
}

/// Add what the task wants.
fn with_wants(line: Line, r: &Row, open: bool) -> (l: Line)
    ensures
        l@ == line@ + want_spans(*r, open),
{
    let ghost before = line@;
    let mut l = line;
    if open {
        if r.has_secrets() {
            l = l.with(Span::of(cat("  · ", wants(r).as_str()), tone(Tone::Accent)));
        } else if let Some(reason) = &r.waiting_for {
            l = l.with(Span::of(cat("  · ", reason.as_str()), tone(Tone::Warn)));
        }
    }
    assert(l@ =~= before + want_spans(*r, open));
    l
}

/// Add the chips.
fn with_chips(line: Line, r: &Row, current: bool, open: bool) -> (l: Line)
    ensures
        l@ == line@ + chip_spans(*r, current, open),
{
    let ghost before = line@;
    if !open {
        assert(line@ =~= before + chip_spans(*r, current, open));
        return line;
    }
    let mut l = line;
    if current {
        l = l.with(Span::raw("  ")).with(
            Span::styled(" current ", tone(Tone::Ground).bg(Color::Tone(Tone::Current)).bold()),
        );
    }
    let ghost head = l@;
    let mut i: usize = 0;
    assert(l@ =~= head + spaced_prs(*r, 0));
    while i < r.prs.len()
        invariant
            i <= r.prs@.len(),
            l@ == head + spaced_prs(*r, i as int),
        decreases r.prs@.len() - i,
    {
        l = l.with(Span::raw("  ")).with(pr_chip(&r.prs[i]));
        assert(l@ =~= head + spaced_prs(*r, i + 1));
        i += 1;
    }
    if r.ports.len() > 0 {
        l = l.with(Span::raw("  ")).with(Span::of(ports_text(&r.ports), tone(Tone::Muted)));
    }
    assert(l@ =~= before + chip_spans(*r, current, open));
    l
}

impl Overlay {
    /// See [`task_item`].
    fn task_entry(&self, w: usize, widths: Widths, pos: usize) -> (i: Item)
        requires
            self@.wf(),
            pos < self@.list.filtered.len(),
            widths.title == title_cells(self@.list, w as nat),
            widths.ws == ws_width(self@.list, w as nat),
            widths.open == shows_open(self@.list, w as nat),
            widths.age == has_age_room(self@.list, w as nat),
        ensures
            i@ == task_item(self@.list, self@.current, w as nat, pos as int),
    {
        proof {
            filtered_in_range(self@.list);
        }
        let r = &self.list.rows[self.list.filtered[pos]];
        let line = Line::empty().with(Span::raw("  ")).with(Span::raw(glyph(r))).with(
            Span::of(pad_cell(r.title.as_str(), widths.title), style_of(r)),
        ).with(Span::raw("  ")).with(Span::of(pad_cell(r.ws_name.as_str(), widths.ws), tone(Tone::Muted)));
        let current: bool = is_some_of(&self.current, r.slug.as_str());
        let line = with_chips(
            with_wants(with_cells(line, r, widths.open, widths.age), r, widths.open),
            r,
            current,
            widths.open,
        );
        let i = Item::one(line);
        assert(i@ =~~= task_item(self@.list, self@.current, w as nat, pos as int));
        i
    }

    /// The task list grouped by section, as fixed-width columns, so that every
    /// column starts at the same cell. Headings are interleaved as
    /// non-selectable lines.
    pub fn task_items(&self, w: usize) -> (b: Body)
        requires
            self@.wf(),
            w <= u16::MAX,
        ensures
            b@ == self@.list.task_body(|pos: int| task_item(self@.list, self@.current, w as nat, pos)),
    {
        proof {
            filtered_in_range(self@.list);
        }
        if self.list.filtered.len() == 0 {
            return empty_body();
        }
        let widths = self.list.widths(w);
        let ghost v = self@.list;
        let ghost cur = self@.current;
        let ghost key = |pos: int| v.row_at(pos).section.rank() as int;
        let ghost heading = |pos: int| v.section_heading(v.row_at(pos).section);
        let ghost item = |pos: int| task_item(v, cur, w as nat, pos);
        let mut b = Body::nothing();
        let mut i: usize = 0;
        while i < self.list.filtered.len()
            invariant
                i <= self.list.filtered@.len(),
                v == self@.list,
                cur == self@.current,
                self@.wf(),
                widths.title == title_cells(v, w as nat),
                widths.ws == ws_width(v, w as nat),
                widths.open == shows_open(v, w as nat),
                widths.age == has_age_room(v, w as nat),
                key == (|pos: int| v.row_at(pos).section.rank() as int),
                heading == (|pos: int| v.section_heading(v.row_at(pos).section)),
                item == (|pos: int| task_item(v, cur, w as nat, pos)),
                forall|k: int| 0 <= k < v.filtered.len() ==> (#[trigger] v.filtered[k]) < v.rows.len(),
                b@ == body_upto(i as int, v.selected as int, key, heading, item),
            decreases self.list.filtered@.len() - i,
        {
            assert(v.filtered[i as int] < v.rows.len());
            assert(i > 0 ==> v.filtered[i - 1] < v.rows.len());
            let group = self.list.rows[self.list.filtered[i]].section;
            let fresh: bool = i == 0 || self.list.rows[self.list.filtered[i - 1]].section != group;
            assert(i > 0 ==> fresh == (key(i as int - 1) != key(i as int)));
            if fresh {
                if i > 0 {
                    let gap = Item::one(Line::empty());
                    assert(gap@ =~~= blank());
                    b.chrome(gap);
                }
                b.chrome(self.list.section_heading(group));
            }
            b.mark(i == self.list.selected);
            b.entry(self.task_entry(w, widths, i), i);
            i += 1;
        }
        b
    }
}

/// In a narrow pane the age column goes first: where it is shown, so is the
/// `open` column, and where it is not, no task shows an age.
pub proof fn the_age_goes_first(v: ListView, w: nat, r: Row)
    ensures
        has_age_room(v, w) ==> shows_open(v, w),
        !has_age_room(v, w) ==> cells_of(r, shows_open(v, w), has_age_room(v, w)).len() <= 2,
        !shows_open(v, w) ==> cells_of(r, shows_open(v, w), has_age_room(v, w)).len() == 0,
{
}

/// Every row's columns start at the same cells: the padded title and workspace
/// are as wide in each.
pub proof fn columns_line_up(v: ListView, w: nat, a: int, b: int)
    ensures
        padded(v.row_at(a).title@, title_cells(v, w)).len() == padded(v.row_at(b).title@, title_cells(v, w)).len(),
        padded(v.row_at(a).ws_name@, ws_width(v, w)).len() == padded(v.row_at(b).ws_name@, ws_width(v, w)).len(),
{
    crate::text::padded_is_exact(v.row_at(a).title@, title_cells(v, w));
    crate::text::padded_is_exact(v.row_at(b).title@, title_cells(v, w));
    crate::text::padded_is_exact(v.row_at(a).ws_name@, ws_width(v, w));
    crate::text::padded_is_exact(v.row_at(b).ws_name@, ws_width(v, w));
}

// ── The whole ────────────────────────────────────────────────────────────────

/// The tab bar: two tabs, each with a cell of padding around it.
pub open spec fn two_tabs(tab: Tab) -> Seq<SpanView> {
    let on = tone(Tone::Accent).bold();
    let off = tone(Tone::Muted);
    seq![
        span("  Tasks  "@, if tab == Tab::Tasks {
            on
        } else {
            off
        }),
        span("│"@, off),
        span("  Repos  "@, if tab == Tab::Tasks {
            off
        } else {
            on
        }),
    ]
}

/// The search box, with a bar for the cursor.
pub open spec fn overlay_search(v: ListView) -> Seq<SpanView> {
    let line = seq![
        span(
            if v.mode is Rename {
                "✎ "@
            } else {
                "🔎 "@
            },
            tone(Tone::Accent),
        ),
        raw(v.typed_text()),
    ];
    if v.types() {
        line.push(span("▏"@, tone(Tone::Muted)))
    } else {
        line
    }
}

/// The overlay's hint.
pub open spec fn overlay_hint(v: ListView) -> Seq<char> {
    if v.input_mode == InputMode::Insert {
        "  type to filter · ↓ list · ⏎ open · ⇥ tab"@
    } else if v.tab == Tab::Tasks {
        if v.selected_row() is Some && answerable(v.selected_row()->0) {
            "  y approve · N deny · ⏎ open · j/k move · x close · gt tab · q quit"@
        } else {
            "  j/k move · a new · e repos · u unlock · dd del · r rename · x close · gt tab · q quit"@
        }
    } else {
        "  j/k move · ↑ search · a add-repo · gt tab · q quit"@
    }
}

impl OverlayView {
    /// What the list shows in `w` cells.
    pub open spec fn body(self, w: nat) -> BodyView {
        if self.list.tab == Tab::Tasks {
            self.list.task_body(|pos: int| task_item(self.list, self.current, w, pos))
        } else {
            self.list.repo_body(w)
        }
    }

    /// The list on screen.
    pub open spec fn screen(self, areas: ListAreas) -> ListScreenView {
        let b = self.body(list_width(areas.list));
        ListScreenView {
            areas,
            tabs: two_tabs(self.list.tab),
            search_title: if self.list.mode is Rename {
                " rename task "@
            } else {
                ""@
            },
            search: overlay_search(self.list),
            cursor: None,
            body: b,
            highlighted: if self.list.focus == Focus::List {
                b.selected_line
            } else {
                None
            },
            footer: list_footer(
                self.list,
                "  new · open · delete · rename · close · quit"@,
                overlay_hint(self.list),
            ),
            highlight: Style::plain().bg(Color::Tone(Tone::Accent)).fg(Color::Tone(Tone::Ground)).bold(),
            border: Style::plain(),
        }
    }

    /// The overlay once it is drawn: what a click lands on is remembered.
    pub open spec fn drawn(self, areas: ListAreas) -> OverlayView {
        self.on(
            ListView {
                tabs_area: areas.tabs,
                search_area: areas.search,
                list_area: areas.list,
                line_to_pos: self.body(list_width(areas.list)).line_to_pos,
                ..self.list
            },
        )
    }

    /// Whether a preview is shown beside a list of that many cells.
    pub open spec fn previews(self, width: u16) -> bool {
        self.preview.pane is Some && width >= 100
    }

    /// What the preview shows.
    pub open spec fn preview_body(self) -> Seq<Seq<SpanView>> {
        if self.preview.gone {
            seq![seq![span("  the pane is gone"@, tone(Tone::Muted))]]
        } else {
            self.preview.lines
        }
    }
}

/// A copy of a line.
fn copy_line(l: &Line) -> (out: Line)
    ensures
        out@ == l@,
{
    let mut out = Line::empty();
    let mut i: usize = 0;
    assert(out@ =~= l@.take(0));
    while i < l.spans.len()
        invariant
            i <= l.spans@.len(),
            out@ == l@.take(i as int),
        decreases l.spans@.len() - i,
    {
        assert(l@[i as int] == l.spans@[i as int]@);
        out = out.with(Span::styled(l.spans[i].content.as_str(), l.spans[i].style));
        assert(out@ =~= l@.take(i + 1));
        i += 1;
    }
    assert(l@.take(i as int) =~= l@);
    out
}

/// Where the parts of the overlay go: as in any list, but that a preview takes
/// the right two fifths of the list's place, to the nearest cell.
pub open spec fn overlay_placed(a: ListAreas, preview: Option<Rect>, area: Rect) -> bool {
    match preview {
        None => areas_placed(a, area),
        Some(p) => exists|whole: ListAreas| #[trigger]
            areas_placed(whole, area) && a == (ListAreas {
                list: Rect { width: edge(whole.list.width, 60) as u16, ..whole.list },
                ..whole
            }) && p == (Rect {
                x: (whole.list.x + edge(whole.list.width, 60)) as u16,
                width: (whole.list.width - edge(whole.list.width, 60)) as u16,
                ..whole.list
            }),
    }
}

impl Overlay {
    /// See [`overlay_hint`].
    fn hint(&self) -> (text: &'static str)
        requires
            self@.wf(),
        ensures
            text@ == overlay_hint(self@.list),
    {
        if self.list.input_mode == InputMode::Insert {
            return "  type to filter · ↓ list · ⏎ open · ⇥ tab";
        }
        if self.list.tab != Tab::Tasks {
            return "  j/k move · ↑ search · a add-repo · gt tab · q quit";
        }
        if let Some(r) = self.list.selected_row() {
            if r.status == TaskStatus::Blocked && is_some_of(&r.waiting_for, crate::column::PERMISSION_PROMPT) {
                return "  y approve · N deny · ⏎ open · j/k move · x close · gt tab · q quit";
            }
        }
        "  j/k move · a new · e repos · u unlock · dd del · r rename · x close · gt tab · q quit"
    }

    /// See [`overlay_search`].
    fn search_line(&self) -> (l: Line)
        ensures
            l@ == overlay_search(self@.list),
    {
        let renaming: bool = match &self.list.mode {
            Mode::Rename(_) => true,
            _ => false,
        };
        let text: &str = match &self.list.mode {
            Mode::Rename(f) => f.buffer.as_str(),
            _ => self.list.filter.as_str(),
        };
        let prompt = if renaming { "✎ " } else { "🔎 " };
        let line = Line::empty().with(Span::styled(prompt, tone(Tone::Accent))).with(Span::raw(text));
        if renaming || self.list.focus == Focus::Search {
            line.with(Span::styled("▏", tone(Tone::Muted)))
        } else {
            line
        }
    }

    /// Draw the list into the given areas, remembering where things stand for
    /// the mouse.
    pub fn draw_list(&mut self, areas: ListAreas) -> (s: ListScreen)
        requires
            old(self)@.wf(),
        ensures
            s@ == old(self)@.screen(areas),
            final(self)@ == old(self)@.drawn(areas),
            final(self)@.wf(),
    {
        let on = tone(Tone::Accent).bold();
        let off = tone(Tone::Muted);
        let tasks: bool = self.list.tab == Tab::Tasks;
        let tabs = Line::empty().with(Span::styled("  Tasks  ", if tasks { on } else { off })).with(
            Span::styled("│", off),
        ).with(Span::styled("  Repos  ", if tasks { off } else { on }));
        let search = self.search_line();
        let search_title = match &self.list.mode {
            Mode::Rename(_) => " rename task ",
            _ => "",
        };
        let w: usize = if areas.list.width < 2 { 0 } else { (areas.list.width - 2) as usize };
        let body = if tasks { self.task_items(w) } else { self.list.repo_items(w) };
        assert(body@ == self@.body(list_width(areas.list)));
        let highlighted = if self.list.focus == Focus::List { body.selected_line } else { None };
        let footer = footer_line(&self.list, "  new · open · delete · rename · close · quit", self.hint());
        self.list.tabs_area = areas.tabs;
        self.list.search_area = areas.search;
        self.list.list_area = areas.list;
        self.list.line_to_pos = places(&body);
        ListScreen {
            areas,
            tabs,
            search_title,
            search,
            cursor: None,
            body,
            highlighted,
            footer,
            highlight: Style::plain().bg(Color::Tone(Tone::Accent)).fg(Color::Tone(Tone::Ground)).bold(),
            border: Style::plain(),
        }
    }

    /// What the preview shows.
    pub fn preview_lines(&self) -> (i: Item)
        ensures
            i@ == self@.preview_body(),
    {
        if self.preview.gone {
            let i = Item::one(Line::one(Span::styled("  the pane is gone", tone(Tone::Muted))));
            assert(i@ =~~= self@.preview_body());
            return i;
        }
        let mut out = Item::empty();
        let mut k: usize = 0;
        let ghost all = views(self.preview.lines@);
        assert(out@ =~= all.take(0));
        while k < self.preview.lines.len()
            invariant
                k <= self.preview.lines@.len(),
                all == views(self.preview.lines@),
                out@ == all.take(k as int),
            decreases self.preview.lines@.len() - k,
        {
            out = out.with(copy_line(&self.preview.lines[k]));
            assert(out@ =~= all.take(k + 1));
            k += 1;
        }
        assert(all.take(k as int) =~= all);
        out
    }

    /// Draw the list into `area`, and where the preview beside it goes, if
    /// there is one.
    pub fn render_list(&mut self, area: Rect) -> (s: (ListScreen, Option<Rect>))
        requires
            old(self)@.wf(),
            area.x + area.width <= u16::MAX,
            area.y + area.height <= u16::MAX,
        ensures
            overlay_placed(s.0@.areas, s.1, area),
            s.0@ == old(self)@.screen(s.0@.areas),
            final(self)@ == old(self)@.drawn(s.0@.areas),
            s.1 is Some == old(self)@.previews(area.width),
            final(self)@.wf(),
    {
        let mut areas = list_areas(area);
        let mut preview: Option<Rect> = None;
        if self.preview.pane.is_some() && area.width >= 100 {
            let wanted = vec![Constraint::Percentage(60), Constraint::Percentage(40)];
            let parts = split_columns(areas.list, &wanted);
            proof {
                reveal_with_fuel(shares, 3);
                assert(shares_out(wanted@));
                assert(within(parts@[0], areas.list));
                assert(within(parts@[1], areas.list));
            }
            preview = Some(parts[1]);
            areas = ListAreas { tabs: areas.tabs, search: areas.search, list: parts[0], footer: areas.footer };
        }
        (self.draw_list(areas), preview)
    }
}

} // verus!
