//! The column on screen: its tab bar, its search box, its list and its footer,
//! as styled lines and where they go.
use vstd::prelude::*;
use vstd::string::*;

use crate::body::{areas_placed, list_areas, Body, BodyView, ListAreas};
use crate::column::{answerable, running_count, Column, ColumnView};
use crate::column_rows::column_item;
use crate::input::Rect;
use crate::list::{Focus, InputMode, ListView, Mode, ModeView, Tab, TaskList};
use crate::screens::{mode_tag, mode_tag_of};
use crate::style::{raw, span, tone, Color, Line, Span, SpanView, Style, Tone};
use crate::text::{cat, cat3, decimal, decimal_of, own, width, width_of};

verus! {

/// A list on screen.
#[derive(Debug)]
pub struct ListScreen {
    pub areas: ListAreas,
    pub tabs: Line,
    /// The title of the search box's frame.
    pub search_title: &'static str,
    pub search: Line,
    /// The terminal's own cursor, where it shows.
    pub cursor: Option<(u16, u16)>,
    pub body: Body,
    /// The item drawn as the selected one.
    pub highlighted: Option<usize>,
    pub footer: Line,
    /// How the selected item is drawn over.
    pub highlight: Style,
    /// How the frames are drawn.
    pub border: Style,
}

/// A list on screen.
#[verifier::ext_equal]
pub struct ListScreenView {
    pub areas: ListAreas,
    pub tabs: Seq<SpanView>,
    pub search_title: Seq<char>,
    pub search: Seq<SpanView>,
    pub cursor: Option<(u16, u16)>,
    pub body: BodyView,
    pub highlighted: Option<usize>,
    pub footer: Seq<SpanView>,
    pub highlight: Style,
    pub border: Style,
}

impl View for ListScreen {
    type V = ListScreenView;

    open spec fn view(&self) -> ListScreenView {
        ListScreenView {
            areas: self.areas,
            tabs: self.tabs@,
            search_title: self.search_title@,
            search: self.search@,
            cursor: self.cursor,
            body: self.body@,
            highlighted: self.highlighted,
            footer: self.footer@,
            highlight: self.highlight,
            border: self.border,
        }
    }
}

// ── Tab bar ──────────────────────────────────────────────────────────────────

/// The Work tab's label: it carries the count of running jobs, if any run.
pub open spec fn work_label(running: nat) -> Seq<char> {
    if running == 0 {
        " Work "@
    } else {
        " Work ["@ + decimal_of(running) + "] "@
    }
}

/// How a tab's label is drawn.
pub open spec fn tab_style(on: bool) -> Style {
    if on {
        tone(Tone::Accent).bold()
    } else {
        tone(Tone::Muted)
    }
}

/// The tab bar.
pub open spec fn tab_line(tab: Tab, running: nat) -> Seq<SpanView> {
    seq![
        span(" Tasks "@, tab_style(tab == Tab::Tasks)),
        span("│"@, tone(Tone::Muted)),
        span(" Repos "@, tab_style(tab == Tab::Repos)),
        span("│"@, tone(Tone::Muted)),
        span(work_label(running), tab_style(tab == Tab::Work)),
    ]
}

/// A column no further right than can be named.
pub open spec fn clipped(n: int) -> u16 {
    if n > u16::MAX {
        u16::MAX
    } else {
        n as u16
    }
}

/// Where each label stands, from the bar's left end.
pub open spec fn tab_spans_of(running: nat) -> Seq<(u16, u16)> {
    seq![(0u16, 7u16), (8u16, 15u16), (16u16, clipped(16 + work_label(running).len() as int))]
}

/// How a tab's label is drawn.
fn tab_tone(on: bool) -> (s: Style)
    ensures
        s == tab_style(on),
{
    if on {
        tone(Tone::Accent).bold()
    } else {
        tone(Tone::Muted)
    }
}

/// The tab bar, and where each label stands in it.
fn tab_bar(tab: Tab, running: usize) -> (bar: (Line, Vec<(u16, u16)>))
    ensures
        bar.0@ == tab_line(tab, running as nat),
        bar.1@ == tab_spans_of(running as nat),
{
    let work = if running == 0 {
        own(" Work ")
    } else {
        cat3(" Work [", decimal(running as u64).as_str(), "] ")
    };
    let n: usize = work.as_str().unicode_len();
    let end: u16 = if n > 65519 { u16::MAX } else { 16 + n as u16 };
    let line = Line::empty().with(Span::styled(" Tasks ", tab_tone(tab == Tab::Tasks))).with(
        Span::styled("│", tone(Tone::Muted)),
    ).with(Span::styled(" Repos ", tab_tone(tab == Tab::Repos))).with(Span::styled("│", tone(Tone::Muted))).with(
        Span::of(work, tab_tone(tab == Tab::Work)),
    );
    let spans: Vec<(u16, u16)> = vec![(0, 7), (8, 15), (16, end)];
    assert(spans@ =~= tab_spans_of(running as nat));
    (line, spans)
}

/// The labels stand side by side with a divider between: no two share a cell,
/// and each is as wide as its text.
pub proof fn tabs_stand_apart(running: nat)
    ensures
        tab_spans_of(running).len() == 3,
        forall|i: int| 0 <= i < 3 ==> (#[trigger] tab_spans_of(running)[i]).0 < tab_spans_of(running)[i].1,
        forall|i: int|
            0 <= i < 2 ==> (#[trigger] tab_spans_of(running)[i]).1 + 1 == tab_spans_of(running)[i + 1].0,
        tab_spans_of(running)[0].1 - tab_spans_of(running)[0].0 == " Tasks "@.len(),
        tab_spans_of(running)[1].1 - tab_spans_of(running)[1].0 == " Repos "@.len(),
        tab_spans_of(running)[2].1 - tab_spans_of(running)[2].0 == (if 16 + work_label(running).len() <= u16::MAX {
            work_label(running).len() as int
        } else {
            u16::MAX - 16
        }),
{
    reveal_strlit(" Tasks ");
    reveal_strlit(" Repos ");
    reveal_strlit(" Work ");
    reveal_strlit(" Work [");
}

/// A click in a label's cells selects that label's tab.
pub proof fn clicks_hit_their_tab(v: ColumnView, running: nat, i: int, col: u16)
    requires
        v.tab_spans == tab_spans_of(running),
        0 <= i < 3,
        v.tab_spans[i].0 <= col - v.list.tabs_area.x < v.tab_spans[i].1,
    ensures
        crate::column::tab_at(i) == Some(v.tab_click(col).0.list.tab),
{
    reveal_with_fuel(crate::column::span_from, 4);
}

// ── Search box ───────────────────────────────────────────────────────────────

impl ListView {
    /// What stands before the text of the search box.
    pub open spec fn prompt(self) -> Seq<char> {
        if self.mode is Rename {
            "✎ "@
        } else {
            "/ "@
        }
    }

    /// The text of the search box: the filter, or the title being edited.
    pub open spec fn typed_text(self) -> Seq<char> {
        match self.mode {
            ModeView::Rename(f) => f.buffer,
            _ => self.filter,
        }
    }

    /// Whether the cursor shows in the search box.
    pub open spec fn types(self) -> bool {
        self.mode is Rename || self.focus == Focus::Search
    }
}

/// The search box.
pub open spec fn search_line(v: ListView) -> Seq<SpanView> {
    seq![
        span(
            v.prompt(),
            if v.mode is Rename {
                tone(Tone::Accent)
            } else {
                tone(Tone::Accent).bold()
            },
        ),
        raw(v.typed_text()),
    ]
}

/// Where the terminal's cursor stands: behind the typed text, where that cell
/// can be named.
pub open spec fn search_cursor(v: ListView, search: Rect) -> Option<(u16, u16)> {
    let x = search.x + 1 + width_of(v.prompt()) + width_of(v.typed_text());
    if v.types() && x <= u16::MAX && search.y < u16::MAX {
        Some((x as u16, (search.y + 1) as u16))
    } else {
        None
    }
}

/// The search box, and the cursor in it.
fn search_box(l: &TaskList, search: Rect) -> (s: (Line, Option<(u16, u16)>))
    ensures
        s.0@ == search_line(l@),
        s.1 == search_cursor(l@, search),
{
    let renaming: bool = match &l.mode {
        Mode::Rename(_) => true,
        _ => false,
    };
    let prompt = if renaming { "✎ " } else { "/ " };
    let style = if renaming { tone(Tone::Accent) } else { tone(Tone::Accent).bold() };
    let text: &str = match &l.mode {
        Mode::Rename(f) => f.buffer.as_str(),
        _ => l.filter.as_str(),
    };
    let line = Line::empty().with(Span::styled(prompt, style)).with(Span::raw(text));
    let a: usize = width(prompt);
    let b: usize = width(text);
    let mut cursor: Option<(u16, u16)> = None;
    if (renaming || l.focus == Focus::Search) && search.y < u16::MAX && search.x < u16::MAX {
        let room: usize = (u16::MAX - search.x - 1) as usize;
        if a <= room && b <= room - a {
            cursor = Some((search.x + 1 + a as u16 + b as u16, search.y + 1));
        }
    }
    (line, cursor)
}

// ── Footer ───────────────────────────────────────────────────────────────────

/// The column's hint: the two or three keys that matter here.
pub open spec fn column_hint(v: ListView) -> Seq<char> {
    if v.input_mode == InputMode::Insert {
        " filter · ↓↑ switch · ⏎ open"@
    } else {
        match v.tab {
            Tab::Repos => " a add-repo · gt tab"@,
            Tab::Work => " dd dismiss · gt tab"@,
            Tab::Tasks => match v.selected_row() {
                Some(r) => if answerable(r) {
                    " y/N answer · ⏎ open"@
                } else if r.window_id is None {
                    " closed · ⏎ open · ↓↑ move"@
                } else {
                    " ↓↑ switch · ⏎ open · n new · x close"@
                },
                None => " ↓↑ switch · ⏎ open · n new · x close"@,
            },
        }
    }
}

/// The footer: the command line, a question, how to rename, a message, or the
/// mode and a hint. `commands` are shown while the command line is empty.
pub open spec fn list_footer(v: ListView, commands: Seq<char>, hint: Seq<char>) -> Seq<SpanView> {
    match v.mode {
        ModeView::Command(buf) => {
            let line = seq![span(":"@, tone(Tone::Accent).bold()), raw(buf), span("▏"@, tone(Tone::Muted))];
            if buf.len() == 0 {
                line.push(span(commands, tone(Tone::Muted)))
            } else {
                line
            }
        },
        ModeView::Confirm(c) => seq![
            span(
                " delete '"@ + c.title + "' + worktrees?   y = delete   n/esc = cancel"@,
                tone(Tone::Danger).bold(),
            ),
        ],
        ModeView::Rename(_) => seq![span(" ⏎ save   esc cancel"@, tone(Tone::Muted))],
        _ => match v.status_msg {
            Some(m) => seq![span(" "@ + m, tone(Tone::Success))],
            None => seq![mode_tag_of(v.input_mode), span(hint, tone(Tone::Muted))],
        },
    }
}

/// See [`list_footer`].
pub fn footer_line(l: &TaskList, commands: &str, hint: &str) -> (line: Line)
    ensures
        line@ == list_footer(l@, commands@, hint@),
{
    match &l.mode {
        Mode::Command(buf) => {
            let line = Line::empty().with(Span::styled(":", tone(Tone::Accent).bold())).with(
                Span::raw(buf.as_str()),
            ).with(Span::styled("▏", tone(Tone::Muted)));
            if buf.as_str().is_empty() {
                line.with(Span::styled(commands, tone(Tone::Muted)))
            } else {
                line
            }
        },
        Mode::Confirm(c) => Line::one(
            Span::of(
                cat3(" delete '", c.title.as_str(), "' + worktrees?   y = delete   n/esc = cancel"),
                tone(Tone::Danger).bold(),
            ),
        ),
        Mode::Rename(_) => Line::one(Span::styled(" ⏎ save   esc cancel", tone(Tone::Muted))),
        _ => match &l.status_msg {
            Some(m) => Line::one(Span::of(cat(" ", m.as_str()), tone(Tone::Success))),
            None => Line::empty().with(mode_tag(l.input_mode)).with(Span::styled(hint, tone(Tone::Muted))),
        },
    }
}

// ── The whole ────────────────────────────────────────────────────────────────

/// The cells inside a list's frame.
pub open spec fn list_width(list: Rect) -> nat {
    if list.width < 2 {
        0
    } else {
        (list.width - 2) as nat
    }
}

/// The heights of items.
pub open spec fn heights_of(b: BodyView) -> Seq<u16> {
    Seq::new(b.items.len(), |i: int| clipped(b.items[i].len() as int))
}

/// The heights of items.
pub fn heights(b: &Body) -> (out: Vec<u16>)
    ensures
        out@ == heights_of(b@),
{
    let mut out: Vec<u16> = Vec::new();
    let mut i: usize = 0;
    while i < b.items.len()
        invariant
            i <= b.items@.len(),
            out@ =~= heights_of(b@).take(i as int),
        decreases b.items@.len() - i,
    {
        let n: usize = b.items[i].lines.len();
        assert(b@.items[i as int] == b.items@[i as int]@);
        let h: u16 = if n > 65535 { u16::MAX } else { n as u16 };
        out.push(h);
        i += 1;
    }
    assert(heights_of(b@).take(i as int) =~= heights_of(b@));
    out
}

/// Each item's entry.
pub fn places(b: &Body) -> (out: Vec<Option<usize>>)
    ensures
        out@ == b@.line_to_pos,
{
    let mut out: Vec<Option<usize>> = Vec::new();
    let mut i: usize = 0;
    while i < b.line_to_pos.len()
        invariant
            i <= b.line_to_pos@.len(),
            out@ =~= b.line_to_pos@.take(i as int),
        decreases b.line_to_pos@.len() - i,
    {
        out.push(b.line_to_pos[i]);
        i += 1;
    }
    assert(out@ =~= b.line_to_pos@);
    out
}

impl ColumnView {
    /// What the list shows in `w` cells.
    pub open spec fn body(self, w: nat) -> BodyView {
        match self.list.tab {
            Tab::Tasks => self.list.task_body(|pos: int| column_item(self.list, w, pos)),
            Tab::Repos => self.list.repo_body(w),
            Tab::Work => self.list.work_body(w, self.frame),
        }
    }

    /// How many jobs run.
    pub open spec fn running(self) -> nat {
        running_count(self.list.jobs, self.list.jobs.len() as int)
    }

    /// The list on screen.
    pub open spec fn screen(self, areas: ListAreas) -> ListScreenView {
        let b = self.body(list_width(areas.list));
        ListScreenView {
            areas,
            tabs: tab_line(self.list.tab, self.running()),
            search_title: if self.list.mode is Rename {
                " rename task "@
            } else {
                ""@
            },
            search: search_line(self.list),
            cursor: search_cursor(self.list, areas.search),
            body: b,
            highlighted: if self.list.focus == Focus::List {
                b.selected_line
            } else {
                None
            },
            footer: list_footer(
                self.list,
                "  new · open · delete · rename · close · hide · quit"@,
                column_hint(self.list),
            ),
            highlight: Style::plain().bg(Color::Tone(Tone::SelBg)),
            border: tone(Tone::Border),
        }
    }

    /// The column once it is drawn: what a click lands on is remembered.
    pub open spec fn drawn(self, areas: ListAreas) -> ColumnView {
        let b = self.body(list_width(areas.list));
        ColumnView {
            tab_spans: tab_spans_of(self.running()),
            list: ListView {
                tabs_area: areas.tabs,
                search_area: areas.search,
                list_area: areas.list,
                line_to_pos: b.line_to_pos,
                item_heights: heights_of(b),
                ..self.list
            },
            ..self
        }
    }
}

impl Column {
    /// See [`column_hint`].
    fn hint(&self) -> (text: &'static str)
        requires
            self@.wf(),
        ensures
            text@ == column_hint(self@.list),
    {
        if self.list.input_mode == InputMode::Insert {
            return " filter · ↓↑ switch · ⏎ open";
        }
        match self.list.tab {
            Tab::Repos => " a add-repo · gt tab",
            Tab::Work => " dd dismiss · gt tab",
            Tab::Tasks => {
                if self.selected_answerable() {
                    return " y/N answer · ⏎ open";
                }
                match self.list.selected_row() {
                    Some(r) => if r.window_id.is_none() {
                        " closed · ⏎ open · ↓↑ move"
                    } else {
                        " ↓↑ switch · ⏎ open · n new · x close"
                    },
                    None => " ↓↑ switch · ⏎ open · n new · x close",
                }
            },
        }
    }

    /// Draw the list into the given areas, remembering where things stand for
    /// the mouse.
    pub fn draw_list(&mut self, areas: ListAreas) -> (s: ListScreen)
        requires
            old(self)@.wf(),
        ensures
            s@ == old(self)@.screen(areas),
            final(self)@ == old(self)@.drawn(areas),
            final(self)@.wf(),
    {
        let (tabs, tab_spans) = tab_bar(self.list.tab, self.running_jobs());
        let (search, cursor) = search_box(&self.list, areas.search);
        let search_title = match &self.list.mode {
            Mode::Rename(_) => " rename task ",
            _ => "",
        };
        let w: usize = if areas.list.width < 2 { 0 } else { (areas.list.width - 2) as usize };
        let body = match self.list.tab {
            Tab::Tasks => self.list.column_items(w),
            Tab::Repos => self.list.repo_items(w),
            Tab::Work => self.list.work_items(w, self.frame),
        };
        assert(body@ == self@.body(list_width(areas.list)));
        let highlighted = if self.list.focus == Focus::List { body.selected_line } else { None };
        let footer = footer_line(
            &self.list,
            "  new · open · delete · rename · close · hide · quit",
            self.hint(),
        );
        self.tab_spans = tab_spans;
        self.list.tabs_area = areas.tabs;
        self.list.search_area = areas.search;
        self.list.list_area = areas.list;
        self.list.item_heights = heights(&body);
        self.list.line_to_pos = places(&body);
        ListScreen {
            areas,
            tabs,
            search_title,
            search,
            cursor,
            body,
            highlighted,
            footer,
            // A background bar: the row keeps its own colours and chips while
            // selected.
            highlight: Style::plain().bg(Color::Tone(Tone::SelBg)),
            border: tone(Tone::Border),
        }
    }

    /// Draw the list into `area`, the client's left-hand strip.
    pub fn render_list(&mut self, area: Rect) -> (s: ListScreen)
        requires
            old(self)@.wf(),
            area.x + area.width <= u16::MAX,
            area.y + area.height <= u16::MAX,
        ensures
            areas_placed(s@.areas, area),
            s@ == old(self)@.screen(s@.areas),
            final(self)@ == old(self)@.drawn(s@.areas),
            final(self)@.wf(),
    {
        self.draw_list(list_areas(area))
    }
}

/// A running job takes no row from the task list: what is drawn of the tasks is
/// the same whatever runs.
pub proof fn jobs_take_no_rows(v: ColumnView, jobs: Seq<crate::job::Job>, w: nat)
    requires
        v.list.tab == Tab::Tasks,
    ensures
        (ColumnView { list: ListView { jobs, ..v.list }, ..v }).body(w) == v.body(w),
{
    let u = ColumnView { list: ListView { jobs, ..v.list }, ..v };
    let ia = |pos: int| column_item(u.list, w, pos);
    let ib = |pos: int| column_item(v.list, w, pos);
    assert(ia =~= ib);
    assert forall|g: crate::status::TaskGroup| u.list.section_heading(g) == #[trigger] v.list.section_heading(g) by {
        same_counts(u.list, v.list, g, v.list.filtered.len() as int);
    }
    let ha = |pos: int| u.list.section_heading(u.list.row_at(pos).section);
    let hb = |pos: int| v.list.section_heading(v.list.row_at(pos).section);
    assert(ha =~= hb);
    let ka = |pos: int| u.list.row_at(pos).section.rank() as int;
    let kb = |pos: int| v.list.row_at(pos).section.rank() as int;
    assert(ka =~= kb);
}

/// The counts of a section depend on the rows on screen alone.
proof fn same_counts(a: ListView, b: ListView, g: crate::status::TaskGroup, n: int)
    requires
        a.rows == b.rows,
        a.filtered == b.filtered,
    ensures
        a.in_section(g, n) == b.in_section(g, n),
    decreases n,
{
    if n > 0 {
        same_counts(a, b, g, n - 1);
    }
}

} // verus!
