//! The tasks of one workspace on screen: the list, and the pop-up over it.
use vstd::prelude::*;
use vstd::string::*;

use crate::app::{task_named, App, AppView, ConfirmAction};
use crate::input::Rect;
use crate::layout::{
    centered_rect, divides, inside_frame, is_middle, lengths, rows_of, split_rows, stacks, within, Constraint,
};
use crate::style::{raw, span, Color, Item, Line, Span, SpanView, Style};
use crate::text::{align_left, cat, cat3, cat4, chars, collect, first_chars, left_aligned};
use crate::workspace::Task;

verus! {

/// Text in a colour of the terminal's own.
#[verifier::allow_in_spec]
pub fn ink(c: Color) -> Style
    returns
        Style::plain().fg(c),
{
    Style::plain().fg(c)
}

/// The first `max` characters of `s`, or all there are.
pub fn truncate(s: &str, max: usize) -> (out: String)
    ensures
        out@ == first_chars(s@, max as nat),
{
    let cs = chars(s);
    let n: usize = if cs.len() < max { cs.len() } else { max };
    assert(cs@.subrange(0, n as int) =~= first_chars(s@, max as nat));
    collect(&cs, 0, n)
}

// ── The list ─────────────────────────────────────────────────────────────────

/// A key and what it does.
pub open spec fn key_line(key: Seq<char>, what: Seq<char>) -> Seq<SpanView> {
    seq![span(key, ink(Color::Cyan)), span(what, ink(Color::DarkGray))]
}

/// A key and what it does.
fn key_help(key: &str, what: &str) -> (l: Line)
    ensures
        l@ == key_line(key@, what@),
{
    Line::empty().with(Span::styled(key, ink(Color::Cyan))).with(Span::styled(what, ink(Color::DarkGray)))
}

/// What an empty list says: the keys there are.
pub open spec fn guide_lines() -> Seq<Seq<SpanView>> {
    seq![
        Seq::empty(),
        seq![span("  No tasks yet."@, ink(Color::DarkGray))],
        Seq::empty(),
        key_line("  n      "@, "new task"@),
        key_line("  Enter  "@, "open / switch to tab"@),
        key_line("  x      "@, "close tab (keep worktree)"@),
        key_line("  d      "@, "delete task"@),
        key_line("  j/k    "@, "navigate"@),
    ]
}

/// What an empty list says.
pub fn guide() -> (i: Item)
    ensures
        i@ == guide_lines(),
{
    let i = Item::empty().with(Line::empty()).with(
        Line::one(Span::styled("  No tasks yet.", ink(Color::DarkGray))),
    ).with(Line::empty()).with(key_help("  n      ", "new task")).with(
        key_help("  Enter  ", "open / switch to tab"),
    ).with(key_help("  x      ", "close tab (keep worktree)")).with(key_help("  d      ", "delete task")).with(
        key_help("  j/k    ", "navigate"),
    );
    assert(i@ =~~= guide_lines());
    i
}

/// The heading over the list.
pub open spec fn header_spans() -> Seq<SpanView> {
    let bold = Style::plain().bold();
    seq![
        raw("  "@),
        span(left_aligned("NAME"@, 24), bold),
        span(left_aligned("BRANCH"@, 24), bold),
        span(left_aligned("AGE"@, 6), bold),
        span("OPEN"@, bold),
    ]
}

/// The heading over the list.
pub fn header() -> (l: Line)
    ensures
        l@ == header_spans(),
{
    let bold = Style::plain().bold();
    Line::empty().with(Span::raw("  ")).with(Span::of(align_left("NAME", 24), bold)).with(
        Span::of(align_left("BRANCH", 24), bold),
    ).with(Span::of(align_left("AGE", 6), bold)).with(Span::styled("OPEN", bold))
}

/// A task: its name, its branch, its age, and a dot where it is open.
pub open spec fn task_line(v: AppView, t: Task, age: Seq<char>) -> Seq<SpanView> {
    seq![
        raw(left_aligned(first_chars(t.display_name@, 23), 24)),
        span(left_aligned(first_chars(t.branch@, 23), 24), ink(Color::Gray)),
        span(left_aligned(age, 6), ink(Color::DarkGray)),
        if v.task_is_open(t.display_name@) {
            span("●"@, ink(Color::Green))
        } else {
            raw(" "@)
        },
    ]
}

/// The lines of the first `n` tasks.
pub open spec fn task_lines(v: AppView, ages: Seq<String>, n: int) -> Seq<Seq<SpanView>> {
    Seq::new(n as nat, |i: int| task_line(v, v.tasks[i], ages[i]@))
}

/// The first line under the list and its style: a question, a message, or the
/// keys there are.
pub open spec fn help_of(v: AppView) -> SpanView {
    match v.confirm {
        Some(slug) => {
            let shown = match task_named(v.tasks, slug, 0) {
                Some(i) => v.tasks[i].display_name@,
                None => slug,
            };
            span(" delete '"@ + shown + "'? [y/N] "@, ink(Color::Yellow))
        },
        None => match v.status_msg {
            Some(m) => span(" "@ + m + " "@, ink(Color::Red)),
            None => span(" j/k · Enter open · x close · d del · n new · q quit"@, ink(Color::DarkGray)),
        },
    }
}

impl App {
    /// The tasks as lines; `ages` says how old each is.
    pub fn list_lines(&self, ages: &Vec<String>) -> (i: Item)
        requires
            ages@.len() == self@.tasks.len(),
        ensures
            i@ == task_lines(self@, ages@, self@.tasks.len() as int),
    {
        let mut out = Item::empty();
        let mut i: usize = 0;
        assert(out@ =~= task_lines(self@, ages@, 0));
        while i < self.tasks.len()
            invariant
                i <= self.tasks@.len(),
                ages@.len() == self.tasks@.len(),
                out@ == task_lines(self@, ages@, i as int),
            decreases self.tasks@.len() - i,
        {
            let t = &self.tasks[i];
            let open = if self.task_is_open(t.display_name.as_str()) {
                Span::styled("●", ink(Color::Green))
            } else {
                Span::raw(" ")
            };
            let name = align_left(truncate(t.display_name.as_str(), 23).as_str(), 24);
            let branch = align_left(truncate(t.branch.as_str(), 23).as_str(), 24);
            let l = Line::empty().with(Span::of(name, Style::plain())).with(Span::of(branch, ink(Color::Gray))).with(
                Span::of(align_left(ages[i].as_str(), 6), ink(Color::DarkGray)),
            ).with(open);
            out = out.with(l);
            assert(out@ =~~= task_lines(self@, ages@, i + 1));
            i += 1;
        }
        out
    }

    /// The line under the list.
    pub fn help(&self) -> (s: Span)
        ensures
            s@ == help_of(self@),
    {
        match &self.confirm {
            Some(ConfirmAction::Delete(slug)) => {
                let shown: &str = match self.delete_target() {
                    Some(i) => self.tasks[i].display_name.as_str(),
                    None => slug.as_str(),
                };
                Span::of(cat3(" delete '", shown, "'? [y/N] "), ink(Color::Yellow))
            },
            None => match &self.status_msg {
                Some(m) => Span::of(cat3(" ", m.as_str(), " "), ink(Color::Red)),
                None => Span::styled(
                    " j/k · Enter open · x close · d del · n new · q quit",
                    ink(Color::DarkGray),
                ),
            },
        }
    }
}

/// Where the heading, the list and the line under it go.
pub fn list_parts(area: Rect) -> (parts: (Rect, Rect, Rect))
    requires
        area.x + area.width <= u16::MAX,
        area.y + area.height <= u16::MAX,
    ensures
        within(parts.0, area),
        within(parts.1, area),
        within(parts.2, area),
        area.height >= 3 ==> parts == (
            rows_of(area, 0, 2),
            rows_of(area, 2, area.height - 3),
            rows_of(area, area.height - 1, 1),
        ),
{
    let wanted = vec![Constraint::Length(2), Constraint::Min(0), Constraint::Length(1)];
    let parts = split_rows(area, &wanted);
    proof {
        reveal_with_fuel(lengths, 4);
        assert(area.height >= 3 ==> stacks(wanted@, 1, area.height));
        assert(divides(wanted@, area.height, 0, parts@[0].y - area.y, parts@[0].height as int));
        assert(divides(wanted@, area.height, 1, parts@[1].y - area.y, parts@[1].height as int));
        assert(divides(wanted@, area.height, 2, parts@[2].y - area.y, parts@[2].height as int));
    }
    (parts[0], parts[1], parts[2])
}

// ── The pop-up ───────────────────────────────────────────────────────────────

/// How a field of the pop-up is drawn.
pub open spec fn field_style(focused: bool) -> Style {
    if focused {
        ink(Color::Yellow)
    } else {
        Style::plain()
    }
}

/// A repo of the pop-up.
pub open spec fn repo_field(v: AppView, i: int) -> SpanView {
    let (name, on) = v.create_repos[i];
    span(
        "  ["@ + (if on {
            "✓"@
        } else {
            " "@
        }) + "] "@ + name,
        field_style(v.create_focus == i + 1),
    )
}

/// The first `n` repos of the pop-up.
pub open spec fn repo_fields(v: AppView, n: int) -> Seq<SpanView> {
    Seq::new(n as nat, |i: int| repo_field(v, i))
}

/// The last line of the pop-up.
pub open spec fn create_help_of(v: AppView) -> SpanView {
    match v.status_msg {
        Some(m) => span("  "@ + m, ink(Color::Red)),
        None => span("  Tab move · Space toggle · Enter create · Esc cancel"@, ink(Color::DarkGray)),
    }
}

/// The pop-up on screen: its frame, and where each field goes.
#[derive(Debug)]
pub struct Popup {
    pub frame: Rect,
    pub title: &'static str,
    pub name_label: (Rect, &'static str),
    pub name: (Rect, Span),
    pub repos_label: (Rect, &'static str),
    pub repos: Vec<(Rect, Span)>,
    pub help: (Rect, Span),
}

/// The spans of placed fields.
pub open spec fn placed(s: Seq<(Rect, Span)>) -> Seq<SpanView> {
    Seq::new(s.len(), |i: int| s[i].1@)
}

/// The areas of placed fields.
pub open spec fn areas_of(s: Seq<(Rect, Span)>) -> Seq<Rect> {
    Seq::new(s.len(), |i: int| s[i].0)
}

/// Where the fields of the pop-up stand: line by line in its frame, the help at
/// the bottom, where there is room for all.
pub open spec fn popup_placed(p: Popup, n: int) -> bool {
    let inner = inside_frame(p.frame);
    inner.height >= n + 6 ==> {
        &&& p.name_label.0 == rows_of(inner, 1, 1)
        &&& p.name.0 == rows_of(inner, 2, 1)
        &&& p.repos_label.0 == rows_of(inner, 4, 1)
        &&& forall|i: int| 0 <= i < n ==> (#[trigger] p.repos@[i]).0 == rows_of(inner, 5 + i, 1)
        &&& p.help.0 == rows_of(inner, inner.height - 1, 1)
    }
}

/// What the pop-up shows.
pub open spec fn popup_shows(v: AppView, p: Popup) -> bool {
    &&& p.title@ == " New Task "@
    &&& p.name_label.1@ == "  Name:"@
    &&& p.repos_label.1@ == "  Repos:"@
    &&& p.name.1@ == span("  ["@ + v.create_name + "]"@, field_style(v.create_focus == 0))
    &&& placed(p.repos@) == repo_fields(v, v.create_repos.len() as int)
    &&& p.help.1@ == create_help_of(v)
}

impl App {
    /// Draw the pop-up over `area`, remembering where its fields stand for the
    /// mouse.
    pub fn render_create(&mut self, area: Rect) -> (p: Popup)
        requires
            old(self)@.wf(),
            area.x + area.width <= u16::MAX,
            area.y + area.height <= u16::MAX,
        ensures
            popup_shows(old(self)@, p),
            is_middle(p.frame, 55, 60, area),
            popup_placed(p, old(self)@.create_repos.len() as int),
            within(p.name.0, p.frame),
            within(p.help.0, p.frame),
            forall|i: int| 0 <= i < p.repos@.len() ==> within((#[trigger] p.repos@[i]).0, p.frame),
            final(self)@ == (AppView {
                create_name_area: p.name.0,
                create_repo_areas: areas_of(p.repos@),
                ..old(self)@
            }),
            final(self)@.wf(),
    {
        let ghost v = self@;
        let frame = centered_rect(55, 60, area);
        let inner = inside_frame(frame);
        proof {
            crate::layout::inside_frame_is_within(frame);
        }
        let n: usize = self.create_repos.len();
        let mut wanted: Vec<Constraint> = vec![
            Constraint::Length(1),
            Constraint::Length(1),
            Constraint::Length(1),
            Constraint::Length(1),
            Constraint::Length(1),
        ];
        let mut k: usize = 0;
        while k < n
            invariant
                k <= n,
                wanted@.len() == 5 + k,
                forall|j: int| 0 <= j < wanted@.len() ==> #[trigger] wanted@[j] == Constraint::Length(1),
            decreases n - k,
        {
            wanted.push(Constraint::Length(1));
            k += 1;
        }
        wanted.push(Constraint::Min(0));
        wanted.push(Constraint::Length(1));
        let parts = split_rows(inner, &wanted);
        assert(forall|i: int| 0 <= i < parts@.len() ==> within(#[trigger] parts@[i], frame));
        proof {
            crate::text::vec_fits(parts);
            crate::layout::single_rows(inner, wanted@, parts@);
        }
        let name_style = if self.create_focus == 0 { ink(Color::Yellow) } else { Style::plain() };
        let name = Span::of(cat3("  [", self.create_name.as_str(), "]"), name_style);
        let mut repos: Vec<(Rect, Span)> = Vec::new();
        let mut areas: Vec<Rect> = Vec::new();
        let mut i: usize = 0;
        while i < n
            invariant
                i <= n,
                n == self.create_repos@.len(),
                self@ == v,
                v.wf(),
                parts@.len() == n + 7 <= usize::MAX,
                repos@.len() == i,
                areas@ =~= areas_of(repos@),
                forall|j: int| 0 <= j < parts@.len() ==> within(#[trigger] parts@[j], frame),
                forall|j: int| 0 <= j < repos@.len() ==> within((#[trigger] repos@[j]).0, frame),
                placed(repos@) =~= repo_fields(v, i as int),
                forall|j: int| 0 <= j < repos@.len() ==> (#[trigger] repos@[j]).0 == parts@[5 + j],
            decreases n - i,
        {
            assert(v.create_repos[i as int] == (self.create_repos@[i as int].0@, self.create_repos@[i as int].1));
            let mark = if self.create_repos[i].1 { "✓" } else { " " };
            let style = if self.create_focus > 0 && self.create_focus - 1 == i {
                ink(Color::Yellow)
            } else {
                Style::plain()
            };
            let text = cat4("  [", mark, "] ", self.create_repos[i].0.as_str());
            let ghost before = placed(repos@);
            repos.push((parts[5 + i], Span::of(text, style)));
            areas.push(parts[5 + i]);
            assert(placed(repos@) =~= before.push(repo_field(v, i as int)));
            assert(repo_fields(v, i + 1) =~= repo_fields(v, i as int).push(repo_field(v, i as int)));
            i += 1;
        }
        let help = match &self.status_msg {
            Some(m) => Span::of(cat("  ", m.as_str()), ink(Color::Red)),
            None => Span::styled("  Tab move · Space toggle · Enter create · Esc cancel", ink(Color::DarkGray)),
        };
        self.create_name_area = parts[2];
        self.create_repo_areas = areas;
        Popup {
            frame,
            title: " New Task ",
            name_label: (parts[1], "  Name:"),
            name: (parts[2], name),
            repos_label: (parts[4], "  Repos:"),
            repos,
            help: (parts[n + 6], help),
        }
    }
}

} // verus!
