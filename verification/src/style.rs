//! Styled text: colours, attributes, spans, lines and list items.
use vstd::prelude::*;
use vstd::string::*;

use crate::status::{TaskGroup, TaskStatus};
use crate::text::{own, views};

verus! {

/// A role of the palette; what colour it stands for is the drawing side's.
#[derive(Debug, Clone, Copy, PartialEq, Eq, Structural)]
pub enum Tone {
    Ground,
    Text,
    Bright,
    Muted,
    Border,
    Accent,
    Warn,
    Danger,
    Success,
    Info,
    Current,
    SelBg,
    SelText,
    ChipSecretsBg,
    ChipInputBg,
    Status(TaskStatus),
}

/// A colour: the terminal's own, or a role of the palette.
#[derive(Debug, Clone, Copy, PartialEq, Eq, Structural)]
pub enum Color {
    Reset,
    Black,
    Red,
    Green,
    Yellow,
    Blue,
    Magenta,
    Cyan,
    Gray,
    DarkGray,
    LightRed,
    LightGreen,
    LightYellow,
    LightBlue,
    LightMagenta,
    LightCyan,
    White,
    Indexed(u8),
    Rgb(u8, u8, u8),
    Tone(Tone),
}

/// A set of text attributes.
#[derive(Debug, Clone, Copy, PartialEq, Eq, Structural)]
pub struct Modifier {
    pub bold: bool,
    pub dim: bool,
    pub italic: bool,
    pub underlined: bool,
    pub reversed: bool,
    pub hidden: bool,
    pub crossed_out: bool,
}

/// How text is drawn: colours that are set, attributes to add and to take
/// away from what is underneath.
#[derive(Debug, Clone, Copy, PartialEq, Eq, Structural)]
pub struct Style {
    pub fg: Option<Color>,
    pub bg: Option<Color>,
    pub add_modifier: Modifier,
    pub sub_modifier: Modifier,
}

impl Modifier {
    /// No attribute.
    #[verifier::allow_in_spec]
    pub fn none() -> Modifier
        returns
            (Modifier {
                bold: false,
                dim: false,
                italic: false,
                underlined: false,
                reversed: false,
                hidden: false,
                crossed_out: false,
            }),
    {
        Modifier {
            bold: false,
            dim: false,
            italic: false,
            underlined: false,
            reversed: false,
            hidden: false,
            crossed_out: false,
        }
    }

    /// The attributes in either set.
    #[verifier::allow_in_spec]
    pub fn union(self, o: Modifier) -> Modifier
        returns
            (Modifier {
                bold: self.bold || o.bold,
                dim: self.dim || o.dim,
                italic: self.italic || o.italic,
                underlined: self.underlined || o.underlined,
                reversed: self.reversed || o.reversed,
                hidden: self.hidden || o.hidden,
                crossed_out: self.crossed_out || o.crossed_out,
            }),
    {
        Modifier {
            bold: self.bold || o.bold,
            dim: self.dim || o.dim,
            italic: self.italic || o.italic,
            underlined: self.underlined || o.underlined,
            reversed: self.reversed || o.reversed,
            hidden: self.hidden || o.hidden,
            crossed_out: self.crossed_out || o.crossed_out,
        }
    }

    /// The attributes of this set that are not in the other.
    #[verifier::allow_in_spec]
    pub fn difference(self, o: Modifier) -> Modifier
        returns
            (Modifier {
                bold: self.bold && !o.bold,
                dim: self.dim && !o.dim,
                italic: self.italic && !o.italic,
                underlined: self.underlined && !o.underlined,
                reversed: self.reversed && !o.reversed,
                hidden: self.hidden && !o.hidden,
                crossed_out: self.crossed_out && !o.crossed_out,
            }),
    {
        Modifier {
            bold: self.bold && !o.bold,
            dim: self.dim && !o.dim,
            italic: self.italic && !o.italic,
            underlined: self.underlined && !o.underlined,
            reversed: self.reversed && !o.reversed,
            hidden: self.hidden && !o.hidden,
            crossed_out: self.crossed_out && !o.crossed_out,
        }
    }
}

impl Style {
    /// Nothing set.
    #[verifier::allow_in_spec]
    pub fn plain() -> Style
        returns
            (Style { fg: None, bg: None, add_modifier: Modifier::none(), sub_modifier: Modifier::none() }),
    {
        Style { fg: None, bg: None, add_modifier: Modifier::none(), sub_modifier: Modifier::none() }
    }

    /// The same, in foreground colour `c`.
    #[verifier::allow_in_spec]
    pub fn fg(self, c: Color) -> Style
        returns
            (Style { fg: Some(c), ..self }),
    {
        Style { fg: Some(c), ..self }
    }

    /// The same, on background colour `c`.
    #[verifier::allow_in_spec]
    pub fn bg(self, c: Color) -> Style
        returns
            (Style { bg: Some(c), ..self }),
    {
        Style { bg: Some(c), ..self }
    }

    /// The same with the attributes of `m` added.
    #[verifier::allow_in_spec]
    pub fn add_modifier(self, m: Modifier) -> Style
        returns
            (Style {
                add_modifier: self.add_modifier.union(m),
                sub_modifier: self.sub_modifier.difference(m),
                ..self
            }),
    {
        Style {
            add_modifier: self.add_modifier.union(m),
            sub_modifier: self.sub_modifier.difference(m),
            ..self
        }
    }

    /// The same with the attributes of `m` taken away.
    #[verifier::allow_in_spec]
    pub fn remove_modifier(self, m: Modifier) -> Style
        returns
            (Style {
                add_modifier: self.add_modifier.difference(m),
                sub_modifier: self.sub_modifier.union(m),
                ..self
            }),
    {
        Style {
            add_modifier: self.add_modifier.difference(m),
            sub_modifier: self.sub_modifier.union(m),
            ..self
        }
    }

    /// The same in bold.
    #[verifier::allow_in_spec]
    pub fn bold(self) -> Style
        returns
            self.add_modifier(Modifier { bold: true, ..Modifier::none() }),
    {
        self.add_modifier(Modifier { bold: true, ..Modifier::none() })
    }
}

/// Text in a role of the palette.
#[verifier::allow_in_spec]
pub fn tone(t: Tone) -> Style
    returns
        Style::plain().fg(Color::Tone(t)),
{
    Style::plain().fg(Color::Tone(t))
}

/// Header colour per section: amber for the pile that wants you, blue for
/// what's running, grey for what isn't.
#[verifier::allow_in_spec]
pub fn group_color(group: TaskGroup) -> Color
    returns
        (match group {
            TaskGroup::SecretsPending => Color::Tone(Tone::Accent),
            TaskGroup::Waiting => Color::Tone(Tone::Warn),
            TaskGroup::Working => Color::Tone(Tone::Info),
            TaskGroup::Inactive => Color::Tone(Tone::Muted),
        }),
{
    match group {
        TaskGroup::SecretsPending => Color::Tone(Tone::Accent),
        TaskGroup::Waiting => Color::Tone(Tone::Warn),
        TaskGroup::Working => Color::Tone(Tone::Info),
        TaskGroup::Inactive => Color::Tone(Tone::Muted),
    }
}

/// A run of text in one style.
#[derive(Debug)]
pub struct Span {
    pub content: String,
    pub style: Style,
}

/// What a span shows.
#[verifier::ext_equal]
pub struct SpanView {
    pub content: Seq<char>,
    pub style: Style,
}

impl View for Span {
    type V = SpanView;

    open spec fn view(&self) -> SpanView {
        SpanView { content: self.content@, style: self.style }
    }
}

/// The span of text `content` in `style`.
pub open spec fn span(content: Seq<char>, style: Style) -> SpanView {
    SpanView { content, style }
}

/// The span of unstyled text `content`.
pub open spec fn raw(content: Seq<char>) -> SpanView {
    SpanView { content, style: Style::plain() }
}

impl Span {
    /// A copy of `content` in `style`.
    pub fn styled(content: &str, style: Style) -> (s: Span)
        ensures
            s@ == span(content@, style),
    {
        Span { content: own(content), style }
    }

    /// `content` in `style`.
    pub fn of(content: String, style: Style) -> (s: Span)
        ensures
            s@ == span(content@, style),
    {
        Span { content, style }
    }

    /// A copy of `content`, unstyled.
    pub fn raw(content: &str) -> (s: Span)
        ensures
            s@ == raw(content@),
    {
        Span { content: own(content), style: Style::plain() }
    }
}

/// A line of spans.
#[derive(Debug)]
pub struct Line {
    pub spans: Vec<Span>,
}

impl View for Line {
    type V = Seq<SpanView>;

    open spec fn view(&self) -> Seq<SpanView> {
        views(self.spans@)
    }
}

impl Line {
    /// A line of nothing.
    pub fn empty() -> (l: Line)
        ensures
            l@ == Seq::<SpanView>::empty(),
    {
        let l = Line { spans: Vec::new() };
        assert(l@ =~= Seq::<SpanView>::empty());
        l
    }

    /// A line of one span.
    pub fn one(s: Span) -> (l: Line)
        ensures
            l@ == seq![s@],
    {
        Line::empty().with(s)
    }

    /// The line with one more span at its end.
    pub fn with(self, s: Span) -> (l: Line)
        ensures
            l@ == self@.push(s@),
    {
        let mut l = self;
        let ghost before = l.spans@;
        l.spans.push(s);
        assert(l@ =~= views(before).push(s@));
        l
    }

    /// The text of the line, styles dropped.
    pub fn plain(&self) -> (out: String)
        ensures
            out@ == plain_of(self@),
    {
        let mut out = String::new();
        let mut i: usize = 0;
        while i < self.spans.len()
            invariant
                i <= self.spans@.len(),
                out@ == plain_of(self@.take(i as int)),
            decreases self.spans@.len() - i,
        {
            assert(self@.take(i + 1).drop_last() =~= self@.take(i as int));
            out.append(self.spans[i].content.as_str());
            i += 1;
        }
        assert(self@.take(self.spans@.len() as int) =~= self@);
        out
    }
}

/// The text of a line, styles dropped.
pub open spec fn plain_of(l: Seq<SpanView>) -> Seq<char>
    decreases l.len(),
{
    if l.len() == 0 {
        Seq::empty()
    } else {
        plain_of(l.drop_last()) + l.last().content
    }
}

/// One entry of a list, of one or more lines.
#[derive(Debug)]
pub struct Item {
    pub lines: Vec<Line>,
}

impl View for Item {
    type V = Seq<Seq<SpanView>>;

    open spec fn view(&self) -> Seq<Seq<SpanView>> {
        views(self.lines@)
    }
}

impl Item {
    /// An entry of one line.
    pub fn one(l: Line) -> (i: Item)
        ensures
            i@ == seq![l@],
    {
        Item::empty().with(l)
    }

    /// An entry of no lines.
    pub fn empty() -> (i: Item)
        ensures
            i@ == Seq::<Seq<SpanView>>::empty(),
    {
        let i = Item { lines: Vec::new() };
        assert(i@ =~= Seq::<Seq<SpanView>>::empty());
        i
    }

    /// The entry with one more line.
    pub fn with(self, l: Line) -> (i: Item)
        ensures
            i@ == self@.push(l@),
    {
        let mut i = self;
        let ghost before = i.lines@;
        i.lines.push(l);
        assert(i@ =~= views(before).push(l@));
        i
    }
}

/// Setting one thing of a style leaves the others: a foreground does not touch
/// the background, nor either the attributes.
pub proof fn styles_set_one_thing(s: Style, c: Color)
    ensures
        s.fg(c).fg == Some(c),
        s.fg(c).bg == s.bg,
        s.fg(c).add_modifier == s.add_modifier,
        s.fg(c).sub_modifier == s.sub_modifier,
        s.bg(c).bg == Some(c),
        s.bg(c).fg == s.fg,
        s.bg(c).add_modifier == s.add_modifier,
        s.bg(c).sub_modifier == s.sub_modifier,
        s.bold().add_modifier.bold,
        !s.bold().sub_modifier.bold,
        s.bold().fg == s.fg,
        s.bold().bg == s.bg,
        s.bold().add_modifier.dim == s.add_modifier.dim,
        s.bold().add_modifier.italic == s.add_modifier.italic,
        s.bold().add_modifier.underlined == s.add_modifier.underlined,
        s.bold().add_modifier.reversed == s.add_modifier.reversed,
        s.bold().add_modifier.hidden == s.add_modifier.hidden,
        s.bold().add_modifier.crossed_out == s.add_modifier.crossed_out,
        Style::plain().fg is None,
        Style::plain().bg is None,
        Style::plain().add_modifier == Modifier::none(),
        Style::plain().sub_modifier == Modifier::none(),
{
}

/// Adding an attribute and taking it away undo each other as far as the
/// attribute is concerned: what was added last is on, what was taken last off.
pub proof fn attributes_switch(s: Style, m: Modifier)
    ensures
        m.bold ==> s.add_modifier(m).add_modifier.bold && !s.add_modifier(m).sub_modifier.bold,
        m.bold ==> s.remove_modifier(m).sub_modifier.bold && !s.remove_modifier(m).add_modifier.bold,
        m.reversed ==> s.add_modifier(m).add_modifier.reversed && !s.add_modifier(m).sub_modifier.reversed,
        m.reversed ==> s.remove_modifier(m).sub_modifier.reversed && !s.remove_modifier(m).add_modifier.reversed,
        m.underlined ==> s.add_modifier(m).add_modifier.underlined && !s.add_modifier(m).sub_modifier.underlined,
        m.underlined ==> s.remove_modifier(m).sub_modifier.underlined && !s.remove_modifier(m).add_modifier.underlined,
        m.italic ==> s.add_modifier(m).add_modifier.italic && s.remove_modifier(m).sub_modifier.italic,
        m.dim ==> s.add_modifier(m).add_modifier.dim && s.remove_modifier(m).sub_modifier.dim,
        m.crossed_out ==> s.add_modifier(m).add_modifier.crossed_out && s.remove_modifier(m).sub_modifier.crossed_out,
        !m.bold ==> s.add_modifier(m).add_modifier.bold == s.add_modifier.bold && s.remove_modifier(m).add_modifier.bold
            == s.add_modifier.bold,
        !m.reversed ==> s.add_modifier(m).add_modifier.reversed == s.add_modifier.reversed && s.remove_modifier(
            m,
        ).add_modifier.reversed == s.add_modifier.reversed,
        s.add_modifier(m).fg == s.fg && s.add_modifier(m).bg == s.bg,
        s.remove_modifier(m).fg == s.fg && s.remove_modifier(m).bg == s.bg,
{
}

/// A tone is a foreground alone, and each section's heading has one of its own.
pub proof fn tones_are_foregrounds(t: Tone)
    ensures
        tone(t).fg == Some(Color::Tone(t)),
        tone(t).bg is None,
        tone(t).add_modifier == Modifier::none(),
        group_color(TaskGroup::SecretsPending) == Color::Tone(Tone::Accent),
        group_color(TaskGroup::Waiting) == Color::Tone(Tone::Warn),
        group_color(TaskGroup::Working) == Color::Tone(Tone::Info),
        group_color(TaskGroup::Inactive) == Color::Tone(Tone::Muted),
{
}

} // verus!
