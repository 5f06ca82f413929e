//! What the forms show, as styled lines: the new-task form, the add-repo form
//! and a task's repo checklist.
use vstd::prelude::*;
use vstd::string::*;

use crate::column::Column;
use crate::forms::{removed_of, AddRepoForm, AddView, CreateForm, CreateView, EditReposForm, EditView, PickView};
use crate::input::Rect;
use crate::layout::{divides, lengths, rows_of, split_rows, stacks, within, Constraint};
use crate::list::{InputMode, ListView, Mode, ModeView, TaskList};
use crate::overlay::Overlay;
use crate::style::{span, tone, Color, Item, Line, Span, SpanView, Style, Tone};
use crate::text::{cat, cat3, cat4, cat5, join, joined, opt_view, pad_cell, padded};

verus! {

/// A form on screen: a framed body with a title, and a line under it.
#[derive(Debug)]
pub struct FormScreen {
    pub title: &'static str,
    pub border: Style,
    pub body: Item,
    pub footer: Line,
}

/// A form on screen.
#[verifier::ext_equal]
pub struct FormScreenView {
    pub title: Seq<char>,
    pub border: Style,
    pub body: Seq<Seq<SpanView>>,
    pub footer: Seq<SpanView>,
}

impl View for FormScreen {
    type V = FormScreenView;

    open spec fn view(&self) -> FormScreenView {
        FormScreenView { title: self.title@, border: self.border, body: self.body@, footer: self.footer@ }
    }
}

// ── Pieces ───────────────────────────────────────────────────────────────────

/// The bar that stands for the cursor.
pub open spec fn cursor_of(on: bool) -> Seq<char> {
    if on {
        "▏"@
    } else {
        ""@
    }
}

/// The bar that stands for the cursor, where it is.
pub fn cursor(on: bool) -> (text: &'static str)
    ensures
        text@ == cursor_of(on),
{
    if on {
        "▏"
    } else {
        ""
    }
}

/// What stands before a line: a mark where the cursor is.
pub open spec fn prefix_of(focused: bool) -> Seq<char> {
    if focused {
        "▸ "@
    } else {
        "  "@
    }
}

/// See [`prefix_of`].
fn prefix(focused: bool) -> (text: &'static str)
    ensures
        text@ == prefix_of(focused),
{
    if focused {
        "▸ "
    } else {
        "  "
    }
}

/// A labelled field.
pub open spec fn field_line_of(focused: bool, label: Seq<char>, value: Seq<char>) -> Seq<SpanView> {
    seq![
        span(
            prefix_of(focused) + label + ": "@,
            if focused {
                tone(Tone::Accent).bold()
            } else {
                tone(Tone::Muted)
            },
        ),
        span(
            value,
            if focused {
                tone(Tone::Bright).bold()
            } else {
                tone(Tone::Text)
            },
        ),
    ]
}

/// A labelled field, marked where the cursor is.
pub fn field_line(focused: bool, label: &str, value: &str) -> (l: Line)
    ensures
        l@ == field_line_of(focused, label@, value@),
{
    let label_style = if focused { tone(Tone::Accent).bold() } else { tone(Tone::Muted) };
    let value_style = if focused { tone(Tone::Bright).bold() } else { tone(Tone::Text) };
    Line::empty().with(Span::of(cat3(prefix(focused), label, ": "), label_style)).with(Span::styled(value, value_style))
}

/// A box, ticked or not.
pub open spec fn box_of(on: bool) -> Seq<char> {
    if on {
        "[x]"@
    } else {
        "[ ]"@
    }
}

/// How a checkbox line is drawn.
pub open spec fn check_style(focused: bool, on: bool) -> Style {
    if focused {
        tone(Tone::Accent).bold()
    } else if on {
        tone(Tone::Bright)
    } else {
        tone(Tone::Muted)
    }
}

/// A checkbox and its name.
fn check_span(focused: bool, on: bool, name: &str) -> (s: Span)
    ensures
        s@ == span(prefix_of(focused) + box_of(on) + " "@ + name@, check_style(focused, on)),
{
    let style = if focused {
        tone(Tone::Accent).bold()
    } else if on {
        tone(Tone::Bright)
    } else {
        tone(Tone::Muted)
    };
    let tick = if on { "[x]" } else { "[ ]" };
    Span::of(cat4(prefix(focused), tick, " ", name), style)
}

/// A line that names a thing: a muted label and what it is.
pub open spec fn context_line(label: Seq<char>, what: Seq<char>) -> Seq<SpanView> {
    seq![span(label, tone(Tone::Muted)), span(what, tone(Tone::Warn).bold())]
}

/// The line under a form: a message in red, else a muted hint.
pub open spec fn footer_of(msg: Option<Seq<char>>, hint: Seq<char>) -> Seq<SpanView> {
    match msg {
        Some(m) => seq![span(" "@ + m, tone(Tone::Danger))],
        None => seq![span(hint, tone(Tone::Muted))],
    }
}

/// See [`footer_of`].
fn footer(msg: &Option<String>, hint: &str) -> (l: Line)
    ensures
        l@ == footer_of(opt_view(*msg), hint@),
{
    match msg {
        Some(m) => Line::one(Span::of(cat(" ", m.as_str()), tone(Tone::Danger))),
        None => Line::one(Span::styled(hint, tone(Tone::Muted))),
    }
}

/// The footer's mode tag: INSERT on green, NORMAL on blue.
pub open spec fn mode_tag_of(mode: InputMode) -> SpanView {
    match mode {
        InputMode::Insert => span(" INSERT "@, tone(Tone::Ground).bg(Color::Tone(Tone::Success)).bold()),
        InputMode::Normal => span(" NORMAL "@, tone(Tone::Ground).bg(Color::Tone(Tone::Info)).bold()),
    }
}

/// The footer's mode tag: INSERT on green, NORMAL on blue.
pub fn mode_tag(mode: InputMode) -> (s: Span)
    ensures
        s@ == mode_tag_of(mode),
{
    match mode {
        InputMode::Insert => Span::styled(" INSERT ", tone(Tone::Ground).bg(Color::Tone(Tone::Success)).bold()),
        InputMode::Normal => Span::styled(" NORMAL ", tone(Tone::Ground).bg(Color::Tone(Tone::Info)).bold()),
    }
}

impl ListView {
    /// The name of a workspace; none of one that is not there.
    pub open spec fn ws_name_of(self, ws: usize) -> Seq<char> {
        if ws < self.workspaces.len() {
            self.workspaces[ws as int].config.name@
        } else {
            Seq::empty()
        }
    }
}

impl TaskList {
    /// See [`ListView::ws_name_of`].
    fn ws_name(&self, ws: usize) -> (out: String)
        ensures
            out@ == self@.ws_name_of(ws),
    {
        if ws < self.workspaces.len() {
            self.workspaces[ws].config.name.clone()
        } else {
            let out = String::new();
            assert(out@ =~= Seq::<char>::empty());
            out
        }
    }
}

// ── New task ─────────────────────────────────────────────────────────────────

/// The repos of a new task as checkboxes, the first `n` of them.
pub open spec fn create_checks(f: CreateView, n: int) -> Seq<Seq<SpanView>> {
    Seq::new(
        n as nat,
        |i: int|
            seq![
                span(
                    prefix_of(f.focus == 1 + i) + box_of(f.repos[i].1) + " "@ + f.repos[i].0,
                    check_style(f.focus == 1 + i, f.repos[i].1),
                ),
            ],
    )
}

/// The new-task form: its workspace, its name, and a box per repo.
pub open spec fn create_body(f: CreateView, ws: Seq<char>) -> Seq<Seq<SpanView>> {
    seq![
        context_line("  workspace  "@, ws),
        Seq::empty(),
        field_line_of(f.focus == 0, "name"@, f.name + "▏"@),
        Seq::empty(),
        seq![span("  repos"@, tone(Tone::Muted))],
    ] + create_checks(f, f.repos.len() as int)
}

/// The new-task form.
fn create_lines(form: &CreateForm, ws: &str) -> (body: Item)
    requires
        form@.wf(),
    ensures
        body@ == create_body(form@, ws@),
{
    let workspace = Line::empty().with(Span::styled("  workspace  ", tone(Tone::Muted))).with(
        Span::styled(ws, tone(Tone::Warn).bold()),
    );
    let name = field_line(form.focus == 0, "name", cat(form.name.as_str(), "▏").as_str());
    let mut body = Item::empty().with(workspace).with(Line::empty()).with(name).with(Line::empty()).with(
        Line::one(Span::styled("  repos", tone(Tone::Muted))),
    );
    let ghost head = body@;
    let mut i: usize = 0;
    assert(body@ =~~= head + create_checks(form@, 0));
    while i < form.repos.len()
        invariant
            i <= form.repos@.len(),
            form@.wf(),
            body@ == head + create_checks(form@, i as int),
        decreases form.repos@.len() - i,
    {
        let focused: bool = form.focus > 0 && form.focus - 1 == i;
        let s = check_span(focused, form.repos[i].1, form.repos[i].0.as_str());
        assert(form@.repos[i as int] == (form.repos@[i as int].0@, form.repos@[i as int].1));
        body = body.with(Line::one(s));
        assert(body@ =~~= head + create_checks(form@, i + 1));
        i += 1;
    }
    assert(body@ =~~= create_body(form@, ws@));
    body
}

// ── Add repo ─────────────────────────────────────────────────────────────────

/// The add-repo form: its workspace, the URL and the name.
pub open spec fn addrepo_body(f: AddView, ws: Seq<char>) -> Seq<Seq<SpanView>> {
    seq![
        context_line("  workspace  "@, ws),
        Seq::empty(),
        field_line_of(f.focus == 0, "git URL"@, f.url + cursor_of(f.focus == 0)),
        Seq::empty(),
        field_line_of(
            f.focus == 1,
            "name"@,
            f.name + cursor_of(f.focus == 1) + "   (optional — inferred from URL)"@,
        ),
    ]
}

/// The add-repo form.
fn addrepo_lines(form: &AddRepoForm, ws: &str) -> (body: Item)
    ensures
        body@ == addrepo_body(form@, ws@),
{
    let workspace = Line::empty().with(Span::styled("  workspace  ", tone(Tone::Muted))).with(
        Span::styled(ws, tone(Tone::Warn).bold()),
    );
    let on_url: bool = form.focus == 0;
    let on_name: bool = form.focus == 1;
    let url = field_line(on_url, "git URL", cat(form.url.as_str(), cursor(on_url)).as_str());
    let name = field_line(
        on_name,
        "name",
        cat3(form.name.as_str(), cursor(on_name), "   (optional — inferred from URL)").as_str(),
    );
    let body = Item::empty().with(workspace).with(Line::empty()).with(url).with(Line::empty()).with(name);
    assert(body@ =~~= addrepo_body(form@, ws@));
    body
}

// ── Repo checklist ───────────────────────────────────────────────────────────

/// What a tick means: there already, to be added, or to be detached.
pub open spec fn pick_note(p: PickView) -> SpanView {
    if p.checked && p.present {
        span("worktree"@, tone(Tone::Muted))
    } else if p.checked {
        span("+ add"@, tone(Tone::Success))
    } else if p.present {
        span("− detach"@, tone(Tone::Danger))
    } else {
        span(""@, Style::plain())
    }
}

/// The first `n` lines of a checklist.
pub open spec fn pick_lines(f: EditView, n: int) -> Seq<Seq<SpanView>> {
    Seq::new(
        n as nat,
        |i: int|
            seq![
                span(
                    prefix_of(f.focus == i) + box_of(f.picks[i].checked) + " "@ + padded(f.picks[i].name, 24),
                    check_style(f.focus == i, f.picks[i].checked),
                ),
                pick_note(f.picks[i]),
            ],
    )
}

/// A task's repo checklist: ticked rows the task already has read as
/// "worktree", and the pending change is called out per row.
pub open spec fn editrepos_body(f: EditView) -> Seq<Seq<SpanView>> {
    seq![context_line("  task  "@, f.title), Seq::empty()] + pick_lines(f, f.picks.len() as int)
}

/// A task's repo checklist.
fn editrepos_lines(form: &EditReposForm) -> (body: Item)
    ensures
        body@ == editrepos_body(form@),
{
    let task = Line::empty().with(Span::styled("  task  ", tone(Tone::Muted))).with(
        Span::styled(form.title.as_str(), tone(Tone::Warn).bold()),
    );
    let mut body = Item::empty().with(task).with(Line::empty());
    let ghost head = body@;
    let mut i: usize = 0;
    assert(body@ =~~= head + pick_lines(form@, 0));
    while i < form.picks.len()
        invariant
            i <= form.picks@.len(),
            body@ == head + pick_lines(form@, i as int),
        decreases form.picks@.len() - i,
    {
        let p = &form.picks[i];
        assert(form@.picks[i as int] == p@);
        let name = pad_cell(p.name.as_str(), 24);
        let s = check_span(form.focus == i, p.checked, name.as_str());
        let note = if p.checked && p.present {
            Span::styled("worktree", tone(Tone::Muted))
        } else if p.checked {
            Span::styled("+ add", tone(Tone::Success))
        } else if p.present {
            Span::styled("− detach", tone(Tone::Danger))
        } else {
            Span::styled("", Style::plain())
        };
        body = body.with(Line::empty().with(s).with(note));
        assert(body@ =~~= head + pick_lines(form@, i + 1));
        i += 1;
    }
    assert(body@ =~~= editrepos_body(form@));
    body
}

/// The line under a checklist: detaching is spelled out before it is confirmed.
pub open spec fn editrepos_footer(f: EditView, msg: Option<Seq<char>>) -> Seq<SpanView> {
    if f.confirm {
        seq![
            span(
                " detach "@ + joined(removed_of(f.picks), ", "@) + " — removes the worktree AND its '"@ + f.slug
                    + "' branch.   y = apply   esc = back"@,
                tone(Tone::Danger).bold(),
            ),
        ]
    } else {
        footer_of(msg, " ⏎ apply   esc cancel   space toggle   a all / n none"@)
    }
}

/// See [`editrepos_footer`].
fn editrepos_foot(form: &EditReposForm, msg: &Option<String>) -> (l: Line)
    ensures
        l@ == editrepos_footer(form@, opt_view(*msg)),
{
    if form.confirm {
        let gone = join(&form.removed(), ", ");
        let text = cat5(
            " detach ",
            gone.as_str(),
            " — removes the worktree AND its '",
            form.slug.as_str(),
            "' branch.   y = apply   esc = back",
        );
        Line::one(Span::of(text, tone(Tone::Danger).bold()))
    } else {
        footer(msg, " ⏎ apply   esc cancel   space toggle   a all / n none")
    }
}

// ── The form that is open ────────────────────────────────────────────────────

impl ListView {
    /// The form on screen, if one is open, in a frame of the style `border`.
    pub open spec fn form_screen(self, border: Style) -> Option<FormScreenView> {
        match self.mode {
            ModeView::Create(f) => Some(
                FormScreenView {
                    title: " new task "@,
                    border,
                    body: create_body(f, self.ws_name_of(f.ws_idx)),
                    footer: footer_of(self.status_msg, " ⏎ create   esc cancel   ⇥ next   space toggle repo"@),
                },
            ),
            ModeView::AddRepo(f) => Some(
                FormScreenView {
                    title: " add repo "@,
                    border,
                    body: addrepo_body(f, self.ws_name_of(f.ws_idx)),
                    footer: footer_of(self.status_msg, " ⏎ clone & add   esc cancel   ⇥ next field"@),
                },
            ),
            ModeView::EditRepos(f) => Some(
                FormScreenView {
                    title: " task repos "@,
                    border,
                    body: editrepos_body(f),
                    footer: editrepos_footer(f, self.status_msg),
                },
            ),
            _ => None,
        }
    }
}

impl TaskList {
    /// The new-task form on screen.
    fn render_create(&self, form: &CreateForm, border: Style) -> (s: FormScreen)
        requires
            form@.wf(),
        ensures
            s@ == (FormScreenView {
                title: " new task "@,
                border,
                body: create_body(form@, self@.ws_name_of(form.ws_idx)),
                footer: footer_of(self@.status_msg, " ⏎ create   esc cancel   ⇥ next   space toggle repo"@),
            }),
    {
        let ws = self.ws_name(form.ws_idx);
        FormScreen {
            title: " new task ",
            border,
            body: create_lines(form, ws.as_str()),
            footer: footer(&self.status_msg, " ⏎ create   esc cancel   ⇥ next   space toggle repo"),
        }
    }

    /// The add-repo form on screen.
    fn render_addrepo(&self, form: &AddRepoForm, border: Style) -> (s: FormScreen)
        ensures
            s@ == (FormScreenView {
                title: " add repo "@,
                border,
                body: addrepo_body(form@, self@.ws_name_of(form.ws_idx)),
                footer: footer_of(self@.status_msg, " ⏎ clone & add   esc cancel   ⇥ next field"@),
            }),
    {
        let ws = self.ws_name(form.ws_idx);
        FormScreen {
            title: " add repo ",
            border,
            body: addrepo_lines(form, ws.as_str()),
            footer: footer(&self.status_msg, " ⏎ clone & add   esc cancel   ⇥ next field"),
        }
    }

    /// A task's repo checklist on screen.
    fn render_editrepos(&self, form: &EditReposForm, border: Style) -> (s: FormScreen)
        ensures
            s@ == (FormScreenView {
                title: " task repos "@,
                border,
                body: editrepos_body(form@),
                footer: editrepos_footer(form@, self@.status_msg),
            }),
    {
        FormScreen {
            title: " task repos ",
            border,
            body: editrepos_lines(form),
            footer: editrepos_foot(form, &self.status_msg),
        }
    }

    /// The form on screen, if one is open, in a frame of the style `border`; the
    /// list shows otherwise.
    pub fn form_screen(&self, border: Style) -> (s: Option<FormScreen>)
        requires
            self@.wf(),
        ensures
            match (s, self@.form_screen(border)) {
                (Some(a), Some(b)) => a@ == b,
                (None, None) => true,
                _ => false,
            },
    {
        match &self.mode {
            Mode::Create(form) => Some(self.render_create(form, border)),
            Mode::AddRepo(form) => Some(self.render_addrepo(form, border)),
            Mode::EditRepos(form) => Some(self.render_editrepos(form, border)),
            _ => None,
        }
    }
}

impl Column {
    /// The form on screen, if one is open, framed like the column's list.
    pub fn form_screen(&self) -> (s: Option<FormScreen>)
        requires
            self@.wf(),
        ensures
            match (s, self@.list.form_screen(tone(Tone::Border))) {
                (Some(a), Some(b)) => a@ == b,
                (None, None) => true,
                _ => false,
            },
    {
        self.list.form_screen(tone(Tone::Border))
    }
}

impl Overlay {
    /// The form on screen, if one is open, in a plain frame.
    pub fn form_screen(&self) -> (s: Option<FormScreen>)
        requires
            self@.wf(),
        ensures
            match (s, self@.list.form_screen(Style::plain())) {
                (Some(a), Some(b)) => a@ == b,
                (None, None) => true,
                _ => false,
            },
    {
        self.list.form_screen(Style::plain())
    }
}

/// Where a form's body and the line under it go: one above the other, within
/// the area.
pub fn form_areas(area: Rect) -> (parts: (Rect, Rect))
    requires
        area.x + area.width <= u16::MAX,
        area.y + area.height <= u16::MAX,
    ensures
        within(parts.0, area),
        within(parts.1, area),
        parts.0.width == area.width,
        parts.1.width == area.width,
        area.height >= 2 ==> parts == (rows_of(area, 0, area.height - 1), rows_of(area, area.height - 1, 1)),
{
    let wanted = vec![Constraint::Min(1), Constraint::Length(1)];
    let parts = split_rows(area, &wanted);
    proof {
        reveal_with_fuel(lengths, 3);
        assert(area.height >= 2 ==> stacks(wanted@, 0, area.height));
        assert(divides(wanted@, area.height, 0, parts@[0].y - area.y, parts@[0].height as int));
        assert(divides(wanted@, area.height, 1, parts@[1].y - area.y, parts@[1].height as int));
    }
    (parts[0], parts[1])
}

} // verus!
