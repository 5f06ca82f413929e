//! SGR escape sequences to styled spans, for the pane preview.
//!
//! The subset that matters: reset, bold/dim/italic/underline and their offs,
//! the 16 base colours, 256-colour and truecolour foregrounds and
//! backgrounds. Anything else (cursor movement, other CSI finals, OSC) is
//! dropped; unknown SGR parameters are ignored.
use vstd::prelude::*;

use crate::style::{Color, Line, Modifier, Span, SpanView, Style};
use crate::text::{chars, parse_number};

verus! {

/// Control characters: Unicode's general category Cc.
pub open spec fn control(c: char) -> bool {
    c < '\u{20}' || '\u{7f}' <= c <= '\u{9f}'
}

/// Whether a character is a control character.
#[verifier::allow_in_spec]
pub fn is_control(c: char) -> bool
    returns
        control(c),
{
    c < '\u{20}' || ('\u{7f}' <= c && c <= '\u{9f}')
}

/// A character before the final of a CSI sequence: an intermediate (space to
/// `/`) or a parameter (`0` to `?`, private marks included).
pub open spec fn in_csi(c: char) -> bool {
    '\u{20}' <= c <= '\u{3f}'
}

/// A character of SGR parameters.
pub open spec fn is_param(c: char) -> bool {
    crate::text::is_digit(c) || c == ';' || c == ':'
}

/// Whether a CSI sequence with these characters before its final sets the
/// style: no private mark and no intermediate among them.
pub open spec fn is_sgr(params: Seq<char>, last: char) -> bool {
    last == 'm' && forall|i: int| 0 <= i < params.len() ==> is_param(#[trigger] params[i])
}

/// How many characters before the final of a CSI sequence `s` starts with.
pub open spec fn params_len(s: Seq<char>) -> nat
    decreases s.len(),
{
    if s.len() > 0 && in_csi(s[0]) {
        1 + params_len(s.skip(1))
    } else {
        0
    }
}

/// How many characters of `s` belong to an OSC string, its terminator (BEL,
/// or ESC and a backslash) included; `prev` stands before `s`.
pub open spec fn osc_len(s: Seq<char>, prev: char) -> nat
    decreases s.len(),
{
    if s.len() == 0 {
        0
    } else if s[0] == '\u{7}' || (prev == '\u{1b}' && s[0] == '\\') {
        1
    } else {
        1 + osc_len(s.skip(1), s[0])
    }
}

/// Parameters end with the text they stand in.
pub proof fn params_len_fits(s: Seq<char>)
    ensures
        params_len(s) <= s.len(),
    decreases s.len(),
{
    if s.len() > 0 && in_csi(s[0]) {
        params_len_fits(s.skip(1));
    }
}

/// An OSC string ends with the text it stands in.
pub proof fn osc_len_fits(s: Seq<char>, prev: char)
    ensures
        osc_len(s, prev) <= s.len(),
    decreases s.len(),
{
    if s.len() > 0 {
        osc_len_fits(s.skip(1), s[0]);
    }
}

/// A span of `text`, if there is any.
pub open spec fn flushed(text: Seq<char>, style: Style) -> Seq<SpanView> {
    if text.len() == 0 {
        Seq::empty()
    } else {
        seq![SpanView { content: text, style }]
    }
}

/// The spans of the rest of a line, with `text` waiting in `style`. A CSI
/// sequence goes with everything up to its final, the first character that is
/// neither a parameter nor an intermediate.
pub open spec fn spans_of(s: Seq<char>, style: Style, text: Seq<char>) -> Seq<SpanView>
    decreases s.len(),
{
    if s.len() == 0 {
        flushed(text, style)
    } else if s[0] != '\u{1b}' {
        spans_of(s.skip(1), style, if control(s[0]) { text } else { text.push(s[0]) })
    } else if s.len() == 1 {
        flushed(text, style)
    } else if s[1] == '[' {
        proof {
            params_len_fits(s.skip(2));
        }
        let params = s.skip(2).take(params_len(s.skip(2)) as int);
        let rest = s.skip(2 + params.len() as int);
        if rest.len() == 0 {
            flushed(text, style)
        } else if is_sgr(params, rest[0]) {
            flushed(text, style) + spans_of(rest.skip(1), apply_sgr_spec(style, params), Seq::empty())
        } else {
            spans_of(rest.skip(1), style, text)
        }
    } else if s[1] == ']' {
        proof {
            osc_len_fits(s.skip(2), '\0');
        }
        spans_of(s.skip(2 + osc_len(s.skip(2), '\0') as int), style, text)
    } else {
        spans_of(s.skip(2), style, text)
    }
}

/// The numbers of a parameter string: split at `;` and `:`, an empty or
/// oversized one counting as 0.
pub open spec fn param_numbers(params: Seq<char>) -> Seq<u16>
    decreases params.len(),
{
    let n = number_len(params);
    let first = match crate::text::number_of(params.take(n as int), u16::MAX as nat) {
        Some(v) => v as u16,
        None => 0u16,
    };
    if n >= params.len() {
        seq![first]
    } else {
        seq![first] + param_numbers(params.skip(n as int + 1))
    }
}

/// How many characters stand before the first separator of `s`.
pub open spec fn number_len(s: Seq<char>) -> nat
    decreases s.len(),
{
    if s.len() > 0 && s[0] != ';' && s[0] != ':' {
        1 + number_len(s.skip(1))
    } else {
        0
    }
}

/// No attribute but those given.
#[verifier::allow_in_spec]
pub fn only(bold: bool, dim: bool, italic: bool, underlined: bool, reversed: bool, crossed_out: bool) -> Modifier
    returns
        (Modifier { bold, dim, italic, underlined, reversed, hidden: false, crossed_out }),
{
    Modifier { bold, dim, italic, underlined, reversed, hidden: false, crossed_out }
}

/// The attributes an SGR parameter turns on.
pub open spec fn attributes_on(n: u16) -> Modifier {
    only(n == 1, n == 2, n == 3, n == 4, n == 7, n == 9)
}

/// The attributes an SGR parameter turns off.
pub open spec fn attributes_off(n: u16) -> Modifier {
    only(n == 22, n == 22, n == 23, n == 24, n == 27, n == 29)
}

/// The foreground an SGR parameter sets.
pub open spec fn foreground(n: u16) -> Option<Color> {
    if 30 <= n <= 37 {
        Some(base((n - 30) as u16))
    } else if 90 <= n <= 97 {
        Some(base((n - 82) as u16))
    } else if n == 39 {
        Some(Color::Reset)
    } else {
        None
    }
}

/// The background an SGR parameter sets.
pub open spec fn background(n: u16) -> Option<Color> {
    if 40 <= n <= 47 {
        Some(base((n - 40) as u16))
    } else if 100 <= n <= 107 {
        Some(base((n - 92) as u16))
    } else if n == 49 {
        Some(Color::Reset)
    } else {
        None
    }
}

/// The style after one SGR parameter other than 38 and 48.
pub open spec fn sgr_one(style: Style, n: u16) -> Style {
    if n == 0 {
        Style::plain()
    } else if foreground(n) is Some {
        style.fg(foreground(n)->0)
    } else if background(n) is Some {
        style.bg(background(n)->0)
    } else if n < 10 {
        style.add_modifier(attributes_on(n))
    } else {
        style.remove_modifier(attributes_off(n))
    }
}

/// The low byte of a parameter.
pub open spec fn low_byte(n: u16) -> u8 {
    (n % 256) as u8
}

/// `5;n` or `2;r;g;b` at the start of `rest`: the colour, and how many
/// parameters it takes.
pub open spec fn extended_color(rest: Seq<u16>) -> (Option<Color>, nat) {
    if rest.len() >= 2 && rest[0] == 5 {
        (Some(Color::Indexed(low_byte(rest[1]))), 2)
    } else if rest.len() >= 4 && rest[0] == 2 {
        (Some(Color::Rgb(low_byte(rest[1]), low_byte(rest[2]), low_byte(rest[3]))), 4)
    } else {
        (None, 0)
    }
}

/// The style after a run of SGR parameters.
pub open spec fn sgr_all(style: Style, nums: Seq<u16>) -> Style
    decreases nums.len(),
{
    if nums.len() == 0 {
        style
    } else if nums[0] == 38 || nums[0] == 48 {
        let (color, used) = extended_color(nums.skip(1));
        let next = match color {
            Some(c) => if nums[0] == 38 {
                style.fg(c)
            } else {
                style.bg(c)
            },
            None => style,
        };
        sgr_all(next, nums.skip(1 + used as int))
    } else {
        sgr_all(sgr_one(style, nums[0]), nums.skip(1))
    }
}

/// The style after an SGR sequence with these parameters.
pub open spec fn apply_sgr_spec(style: Style, params: Seq<char>) -> Style {
    sgr_all(style, param_numbers(params))
}

/// One of the sixteen base colours.
#[verifier::allow_in_spec]
pub fn base(n: u16) -> Color
    returns
        (match n {
            0 => Color::Black,
            1 => Color::Red,
            2 => Color::Green,
            3 => Color::Yellow,
            4 => Color::Blue,
            5 => Color::Magenta,
            6 => Color::Cyan,
            7 => Color::Gray,
            8 => Color::DarkGray,
            9 => Color::LightRed,
            10 => Color::LightGreen,
            11 => Color::LightYellow,
            12 => Color::LightBlue,
            13 => Color::LightMagenta,
            14 => Color::LightCyan,
            _ => Color::White,
        }),
{
    match n {
        0 => Color::Black,
        1 => Color::Red,
        2 => Color::Green,
        3 => Color::Yellow,
        4 => Color::Blue,
        5 => Color::Magenta,
        6 => Color::Cyan,
        7 => Color::Gray,
        8 => Color::DarkGray,
        9 => Color::LightRed,
        10 => Color::LightGreen,
        11 => Color::LightYellow,
        12 => Color::LightBlue,
        13 => Color::LightMagenta,
        14 => Color::LightCyan,
        _ => Color::White,
    }
}

/// `5;n` or `2;r;g;b` after a 38/48: the colour and how many parameters it
/// consumed.
fn extended(nums: &Vec<u16>, at: usize) -> (r: (Option<Color>, usize))
    requires
        at <= nums@.len(),
    ensures
        r.0 == extended_color(nums@.skip(at as int)).0,
        r.1 == extended_color(nums@.skip(at as int)).1,
{
    let n: usize = nums.len() - at;
    if n >= 2 && nums[at] == 5 {
        (Some(Color::Indexed((nums[at + 1] % 256) as u8)), 2)
    } else if n >= 4 && nums[at] == 2 {
        (
            Some(
                Color::Rgb((nums[at + 1] % 256) as u8, (nums[at + 2] % 256) as u8, (nums[at + 3] % 256) as u8),
            ),
            4,
        )
    } else {
        (None, 0)
    }
}

/// See [`sgr_one`].
fn sgr_step(style: Style, n: u16) -> (next: Style)
    requires
        n != 38,
        n != 48,
    ensures
        next == sgr_one(style, n),
{
    if n == 0 {
        return Style::plain();
    }
    if 30 <= n && n <= 37 {
        return style.fg(base(n - 30));
    }
    if 90 <= n && n <= 97 {
        return style.fg(base(n - 82));
    }
    if n == 39 {
        return style.fg(Color::Reset);
    }
    if 40 <= n && n <= 47 {
        return style.bg(base(n - 40));
    }
    if 100 <= n && n <= 107 {
        return style.bg(base(n - 92));
    }
    if n == 49 {
        return style.bg(Color::Reset);
    }
    if n < 10 {
        style.add_modifier(only(n == 1, n == 2, n == 3, n == 4, n == 7, n == 9))
    } else {
        style.remove_modifier(only(n == 22, n == 22, n == 23, n == 24, n == 27, n == 29))
    }
}

/// The numbers of the parameters `cs[from..to]`.
fn numbers(cs: &Vec<char>, from: usize, to: usize) -> (nums: Vec<u16>)
    requires
        from <= to <= cs@.len(),
    ensures
        nums@ == param_numbers(cs@.subrange(from as int, to as int)),
    decreases to - from,
{
    let ghost params = cs@.subrange(from as int, to as int);
    let mut n: usize = from;
    assert(params.skip(0) =~= params);
    while n < to && cs[n] != ';' && cs[n] != ':'
        invariant
            from <= n <= to <= cs@.len(),
            params == cs@.subrange(from as int, to as int),
            number_len(params) == (n - from) + number_len(params.skip(n - from)),
        decreases to - n,
    {
        assert(params.skip(n - from)[0] == cs@[n as int]);
        assert(params.skip(n - from).skip(1) =~= params.skip(n - from + 1));
        n += 1;
    }
    assert(number_len(params) == n - from) by {
        if n < to {
            assert(params.skip(n - from)[0] == cs@[n as int]);
        }
    }
    assert(params.take(n - from) =~= cs@.subrange(from as int, n as int));
    let first: u16 = match parse_number(cs, from, n, u16::MAX as u64) {
        Some(v) => v as u16,
        None => 0,
    };
    let mut out: Vec<u16> = Vec::new();
    out.push(first);
    if n < to {
        assert(params.skip(n - from + 1) =~= cs@.subrange(n + 1, to as int));
        let mut rest: Vec<u16> = numbers(cs, n + 1, to);
        let ghost tail = rest@;
        out.append(&mut rest);
        assert(out@ =~= seq![first] + tail);
    } else {
        assert(out@ =~= seq![first]);
    }
    out
}

/// The style after an SGR sequence whose parameters are `cs[from..to]`.
fn apply_sgr(style: Style, cs: &Vec<char>, from: usize, to: usize) -> (next: Style)
    requires
        from <= to <= cs@.len(),
    ensures
        next == apply_sgr_spec(style, cs@.subrange(from as int, to as int)),
{
    let nums: Vec<u16> = numbers(cs, from, to);
    let mut style = style;
    let ghost first = style;
    let mut i: usize = 0;
    assert(nums@.skip(0) =~= nums@);
    while i < nums.len()
        invariant
            i <= nums@.len(),
            sgr_all(first, nums@) == sgr_all(style, nums@.skip(i as int)),
        decreases nums@.len() - i,
    {
        let n: u16 = nums[i];
        let ghost rest = nums@.skip(i as int);
        assert(rest.skip(1) =~= nums@.skip(i + 1));
        if n == 38 || n == 48 {
            let (color, used) = extended(&nums, i + 1);
            assert(rest.skip(1 + used as int) =~= nums@.skip(i + 1 + used));
            if let Some(c) = color {
                style = if n == 38 {
                    style.fg(c)
                } else {
                    style.bg(c)
                };
            }
            i += used + 1;
        } else {
            style = sgr_step(style, n);
            i += 1;
        }
    }
    style
}

/// Where the characters before a CSI sequence's final end, and whether they are
/// SGR parameters all.
fn csi_params(cs: &Vec<char>, start: usize) -> (r: (usize, bool))
    requires
        start <= cs@.len(),
    ensures
        start <= r.0 <= cs@.len(),
        params_len(cs@.skip(start as int)) == r.0 - start,
        forall|last: char|
            #[trigger] is_sgr(cs@.subrange(start as int, r.0 as int), last) == (last == 'm' && r.1),
{
    let ghost tail = cs@.skip(start as int);
    assert(tail.skip(0) =~= tail);
    let mut k: usize = start;
    let mut numeric: bool = true;
    while k < cs.len() && cs[k] >= ' ' && cs[k] <= '?'
        invariant
            start <= k <= cs@.len(),
            numeric == (forall|j: int| start <= j < k ==> is_param(#[trigger] cs@[j])),
            tail == cs@.skip(start as int),
            params_len(tail) == (k - start) + params_len(tail.skip(k - start)),
        decreases cs@.len() - k,
    {
        assert(tail.skip(k - start)[0] == cs@[k as int]);
        assert(tail.skip(k - start).skip(1) =~= tail.skip(k - start + 1));
        if !((cs[k] >= '0' && cs[k] <= '9') || cs[k] == ';' || cs[k] == ':') {
            numeric = false;
        }
        k += 1;
    }
    assert(params_len(tail) == k - start) by {
        if k < cs.len() {
            assert(tail.skip(k - start)[0] == cs@[k as int]);
        }
    }
    let ghost params = cs@.subrange(start as int, k as int);
    assert forall|last: char| #[trigger] is_sgr(params, last) == (last == 'm' && numeric) by {
        assert(forall|j: int| 0 <= j < params.len() ==> #[trigger] params[j] == cs@[start + j]);
        assert(forall|j: int| start <= j < k ==> #[trigger] cs@[j] == params[j - start]);
    }
    (k, numeric)
}

/// One captured line as styled spans. Style carries across the whole line
/// only; each line starts from the default.
pub fn line(raw: &str) -> (out: Line)
    ensures
        out@ == spans_of(raw@, Style::plain(), Seq::empty()),
{
    let cs: Vec<char> = chars(raw);
    let mut out = Line::empty();
    let mut style = Style::plain();
    let mut text = String::new();
    let mut i: usize = 0;
    assert(cs@.skip(0) =~= cs@);
    assert(Seq::<SpanView>::empty() + spans_of(cs@, style, text@) =~= spans_of(cs@, style, text@));
    while i < cs.len()
        invariant
            i <= cs@.len(),
            cs@ == raw@,
            spans_of(raw@, Style::plain(), Seq::empty()) == out@ + spans_of(cs@.skip(i as int), style, text@),
        decreases cs@.len() - i,
    {
        let c: char = cs[i];
        let ghost s = cs@.skip(i as int);
        assert(s.skip(1) =~= cs@.skip(i + 1));
        if c != '\u{1b}' {
            if !is_control(c) {
                text.push(c);
            }
            i += 1;
        } else if i + 1 == cs.len() {
            assert(spans_of(cs@.skip(i + 1), style, text@) == flushed(text@, style));
            i += 1;
        } else if cs[i + 1] == '[' {
            let start: usize = i + 2;
            assert(s.skip(2) =~= cs@.skip(start as int));
            let ghost tail = s.skip(2);
            let (k, numeric): (usize, bool) = csi_params(&cs, start);
            let ghost params = tail.take(params_len(tail) as int);
            assert(params =~= cs@.subrange(start as int, k as int));
            assert(s.skip(2 + params.len() as int) =~= cs@.skip(k as int));
            if k == cs.len() {
                assert(spans_of(cs@.skip(k as int), style, text@) == flushed(text@, style));
                i = k;
            } else {
                assert(cs@.skip(k as int).skip(1) =~= cs@.skip(k + 1));
                assert(is_sgr(params, cs@[k as int]) == (cs@[k as int] == 'm' && numeric));
                if cs[k] == 'm' && numeric {
                    let ghost before = out@;
                    let ghost next = spans_of(cs@.skip(k + 1), apply_sgr_spec(style, params), Seq::empty());
                    if !text.as_str().is_empty() {
                        out = out.with(Span::of(text, style));
                        assert(before + (flushed(text@, style) + next) =~= out@ + next);
                        text = String::new();
                    } else {
                        assert(before + (flushed(text@, style) + next) =~= out@ + next);
                        assert(text@ =~= Seq::<char>::empty());
                    }
                    style = apply_sgr(style, &cs, start, k);
                }
                i = k + 1;
            }
        } else if cs[i + 1] == ']' {
            let start: usize = i + 2;
            let ghost tail = s.skip(2);
            assert(tail =~= cs@.skip(start as int));
            let mut prev: char = '\0';
            let mut k: usize = start;
            assert(tail.skip(0) =~= tail);
            let mut done: bool = false;
            while k < cs.len() && !done
                invariant
                    start <= k <= cs@.len(),
                    tail == cs@.skip(start as int),
                    !done ==> osc_len(tail, '\0') == (k - start) + osc_len(tail.skip(k - start), prev),
                    done ==> osc_len(tail, '\0') == k - start,
                decreases cs@.len() - k,
            {
                let x: char = cs[k];
                assert(tail.skip(k - start)[0] == x);
                assert(tail.skip(k - start).skip(1) =~= tail.skip(k - start + 1));
                if x == '\u{7}' || (prev == '\u{1b}' && x == '\\') {
                    done = true;
                }
                prev = x;
                k += 1;
            }
            assert(s.skip(2 + osc_len(tail, '\0') as int) =~= cs@.skip(k as int));
            i = k;
        } else {
            assert(s.skip(2) =~= cs@.skip(i + 2));
            i += 2;
        }
    }
    let ghost before = out@;
    if !text.as_str().is_empty() {
        out = out.with(Span::of(text, style));
    }
    assert(out@ =~= before + flushed(text@, style));
    out
}

/// A CSI sequence that sets no style leaves nothing behind: cursor movement,
/// private modes and the like are dropped whole.
pub proof fn other_sequences_are_dropped(
    params: Seq<char>,
    last: char,
    rest: Seq<char>,
    style: Style,
    text: Seq<char>,
)
    requires
        forall|i: int| 0 <= i < params.len() ==> in_csi(#[trigger] params[i]),
        '\u{40}' <= last <= '\u{7e}',
        !is_sgr(params, last),
    ensures
        spans_of(seq!['\u{1b}', '['] + params + seq![last] + rest, style, text) == spans_of(rest, style, text),
{
    let s = seq!['\u{1b}', '['] + params + seq![last] + rest;
    let tail = params + seq![last] + rest;
    assert(s.skip(2) =~= tail);
    params_end(params, seq![last] + rest);
    assert(params + (seq![last] + rest) =~= tail);
    assert(tail.take(params.len() as int) =~= params);
    assert(s.skip(2 + params.len() as int) =~= seq![last] + rest);
    assert((seq![last] + rest).skip(1) =~= rest);
}

/// What is before the final of a CSI sequence ends there.
proof fn params_end(params: Seq<char>, rest: Seq<char>)
    requires
        forall|i: int| 0 <= i < params.len() ==> in_csi(#[trigger] params[i]),
        rest.len() > 0,
        !in_csi(rest[0]),
    ensures
        params_len(params + rest) == params.len(),
    decreases params.len(),
{
    if params.len() > 0 {
        assert(in_csi(params[0]));
        assert((params + rest).skip(1) =~= params.skip(1) + rest);
        assert forall|i: int| 0 <= i < params.skip(1).len() implies in_csi(#[trigger] params.skip(1)[i]) by {
            assert(in_csi(params[i + 1]));
        }
        params_end(params.skip(1), rest);
    } else {
        assert(params + rest =~= rest);
    }
}

/// Text without escapes and control characters passes through: one span of
/// it, or none when it is empty.
pub proof fn plain_text_is_one_span(s: Seq<char>)
    requires
        forall|i: int| 0 <= i < s.len() ==> !control(#[trigger] s[i]),
    ensures
        spans_of(s, Style::plain(), Seq::empty()) == flushed(s, Style::plain()),
{
    assert(Seq::<char>::empty() + s =~= s);
    plain_text_gathers(s, Style::plain(), Seq::empty());
}

/// Plain text is added to the text that waits.
proof fn plain_text_gathers(s: Seq<char>, style: Style, text: Seq<char>)
    requires
        forall|i: int| 0 <= i < s.len() ==> !control(#[trigger] s[i]),
    ensures
        spans_of(s, style, text) == flushed(text + s, style),
    decreases s.len(),
{
    if s.len() == 0 {
        assert(text + s =~= text);
    } else {
        assert(!control(s[0]));
        assert forall|i: int| 0 <= i < s.skip(1).len() implies !control(#[trigger] s.skip(1)[i]) by {
            assert(!control(s[i + 1]));
        }
        plain_text_gathers(s.skip(1), style, text.push(s[0]));
        assert(text.push(s[0]) + s.skip(1) =~= text + s);
    }
}

/// No span of a line holds a control character: escapes never reach the
/// screen.
pub proof fn spans_hold_no_controls(s: Seq<char>, style: Style, text: Seq<char>)
    requires
        forall|i: int| 0 <= i < text.len() ==> !control(#[trigger] text[i]),
    ensures
        forall|k: int, i: int|
            0 <= k < spans_of(s, style, text).len() && 0 <= i < spans_of(s, style, text)[k].content.len() ==> !control(
                #[trigger] spans_of(s, style, text)[k].content[i],
            ),
    decreases s.len(),
{
    if s.len() == 0 {
    } else if s[0] != '\u{1b}' {
        spans_hold_no_controls(s.skip(1), style, if control(s[0]) { text } else { text.push(s[0]) });
    } else if s.len() == 1 {
    } else if s[1] == '[' {
        let params = s.skip(2).take(params_len(s.skip(2)) as int);
        let rest = s.skip(2 + params.len() as int);
        params_len_fits(s.skip(2));
        if rest.len() == 0 {
        } else if is_sgr(params, rest[0]) {
            spans_hold_no_controls(rest.skip(1), apply_sgr_spec(style, params), Seq::empty());
        } else {
            spans_hold_no_controls(rest.skip(1), style, text);
        }
    } else if s[1] == ']' {
        osc_len_fits(s.skip(2), '\0');
        spans_hold_no_controls(s.skip(2 + osc_len(s.skip(2), '\0') as int), style, text);
    } else {
        spans_hold_no_controls(s.skip(2), style, text);
    }
}

/// The ordinary colour parameters set the one colour they are for, to the
/// colour of that number, and touch nothing else: 30 to 37 and, brighter, 90 to
/// 97 the foreground, 40 to 47 and 100 to 107 the background, 39 and 49 back to
/// the terminal's own.
pub proof fn colour_parameters_set_one_colour(style: Style, n: u16)
    ensures
        30 <= n <= 37 || 90 <= n <= 97 || n == 39 ==> {
            &&& sgr_all(style, seq![n]).bg == style.bg
            &&& sgr_all(style, seq![n]).add_modifier == style.add_modifier
            &&& sgr_all(style, seq![n]).sub_modifier == style.sub_modifier
        },
        40 <= n <= 47 || 100 <= n <= 107 || n == 49 ==> {
            &&& sgr_all(style, seq![n]).fg == style.fg
            &&& sgr_all(style, seq![n]).add_modifier == style.add_modifier
            &&& sgr_all(style, seq![n]).sub_modifier == style.sub_modifier
        },
        n == 30 ==> sgr_all(style, seq![n]).fg == Some(Color::Black),
        n == 31 ==> sgr_all(style, seq![n]).fg == Some(Color::Red),
        n == 32 ==> sgr_all(style, seq![n]).fg == Some(Color::Green),
        n == 33 ==> sgr_all(style, seq![n]).fg == Some(Color::Yellow),
        n == 34 ==> sgr_all(style, seq![n]).fg == Some(Color::Blue),
        n == 35 ==> sgr_all(style, seq![n]).fg == Some(Color::Magenta),
        n == 36 ==> sgr_all(style, seq![n]).fg == Some(Color::Cyan),
        n == 37 ==> sgr_all(style, seq![n]).fg == Some(Color::Gray),
        n == 39 ==> sgr_all(style, seq![n]).fg == Some(Color::Reset),
        n == 90 ==> sgr_all(style, seq![n]).fg == Some(Color::DarkGray),
        n == 91 ==> sgr_all(style, seq![n]).fg == Some(Color::LightRed),
        n == 92 ==> sgr_all(style, seq![n]).fg == Some(Color::LightGreen),
        n == 93 ==> sgr_all(style, seq![n]).fg == Some(Color::LightYellow),
        n == 94 ==> sgr_all(style, seq![n]).fg == Some(Color::LightBlue),
        n == 95 ==> sgr_all(style, seq![n]).fg == Some(Color::LightMagenta),
        n == 96 ==> sgr_all(style, seq![n]).fg == Some(Color::LightCyan),
        n == 97 ==> sgr_all(style, seq![n]).fg == Some(Color::White),
        n == 40 ==> sgr_all(style, seq![n]).bg == Some(Color::Black),
        n == 41 ==> sgr_all(style, seq![n]).bg == Some(Color::Red),
        n == 42 ==> sgr_all(style, seq![n]).bg == Some(Color::Green),
        n == 43 ==> sgr_all(style, seq![n]).bg == Some(Color::Yellow),
        n == 44 ==> sgr_all(style, seq![n]).bg == Some(Color::Blue),
        n == 45 ==> sgr_all(style, seq![n]).bg == Some(Color::Magenta),
        n == 46 ==> sgr_all(style, seq![n]).bg == Some(Color::Cyan),
        n == 47 ==> sgr_all(style, seq![n]).bg == Some(Color::Gray),
        n == 49 ==> sgr_all(style, seq![n]).bg == Some(Color::Reset),
        n == 100 ==> sgr_all(style, seq![n]).bg == Some(Color::DarkGray),
        n == 101 ==> sgr_all(style, seq![n]).bg == Some(Color::LightRed),
        n == 102 ==> sgr_all(style, seq![n]).bg == Some(Color::LightGreen),
        n == 103 ==> sgr_all(style, seq![n]).bg == Some(Color::LightYellow),
        n == 104 ==> sgr_all(style, seq![n]).bg == Some(Color::LightBlue),
        n == 105 ==> sgr_all(style, seq![n]).bg == Some(Color::LightMagenta),
        n == 106 ==> sgr_all(style, seq![n]).bg == Some(Color::LightCyan),
        n == 107 ==> sgr_all(style, seq![n]).bg == Some(Color::White),
{
    if n != 38 && n != 48 {
        one_parameter(style, n);
    }
}

/// One parameter alone does what it does.
proof fn one_parameter(style: Style, n: u16)
    requires
        n != 38,
        n != 48,
    ensures
        sgr_all(style, seq![n]) == sgr_one(style, n),
{
    assert(seq![n].skip(1) =~= Seq::<u16>::empty());
    assert(sgr_all(sgr_one(style, n), Seq::empty()) == sgr_one(style, n));
}

/// A parameter for an attribute turns that one on or off, and touches neither
/// the colours nor the other attributes; 22 turns both bold and dim off.
pub proof fn attribute_parameters_switch_one_attribute(style: Style, n: u16)
    requires
        1 <= n <= 4 || n == 7 || n == 9 || 22 <= n <= 24 || n == 27 || n == 29,
    ensures
        ({
            let out = sgr_all(style, seq![n]);
            let on = out.add_modifier;
            let off = out.sub_modifier;
            let was = style.add_modifier;
            let gone = style.sub_modifier;
            &&& out.fg == style.fg
            &&& out.bg == style.bg
            &&& on.bold == (n == 1 || (n != 22 && was.bold))
            &&& on.dim == (n == 2 || (n != 22 && was.dim))
            &&& on.italic == (n == 3 || (n != 23 && was.italic))
            &&& on.underlined == (n == 4 || (n != 24 && was.underlined))
            &&& on.reversed == (n == 7 || (n != 27 && was.reversed))
            &&& on.crossed_out == (n == 9 || (n != 29 && was.crossed_out))
            &&& on.hidden == was.hidden
            &&& off.bold == (n == 22 || (n != 1 && gone.bold))
            &&& off.dim == (n == 22 || (n != 2 && gone.dim))
            &&& off.italic == (n == 23 || (n != 3 && gone.italic))
            &&& off.underlined == (n == 24 || (n != 4 && gone.underlined))
            &&& off.reversed == (n == 27 || (n != 7 && gone.reversed))
            &&& off.crossed_out == (n == 29 || (n != 9 && gone.crossed_out))
            &&& off.hidden == gone.hidden
        }),
{
    one_parameter(style, n);
}

/// Zero, also by no parameter at all, resets everything.
pub proof fn zero_resets(style: Style)
    ensures
        sgr_all(style, seq![0u16]).fg is None,
        sgr_all(style, seq![0u16]).bg is None,
        sgr_all(style, seq![0u16]).add_modifier == Modifier::none(),
        sgr_all(style, seq![0u16]).sub_modifier == Modifier::none(),
        apply_sgr_spec(style, Seq::empty()) == sgr_all(style, seq![0u16]),
{
    one_parameter(style, 0);
    let none = Seq::<char>::empty();
    crate::text::no_digits_no_number();
    assert(number_len(none) == 0);
    assert(none.take(0) =~= none);
    assert(param_numbers(none) == seq![0u16]);
}

/// A parameter that means nothing here changes nothing.
pub proof fn unknown_parameters_change_nothing(style: Style, n: u16)
    requires
        n == 5 || n == 6 || n == 8 || 10 <= n <= 21 || n == 25 || n == 26 || n == 28 || 50 <= n <= 89 || n >= 108,
    ensures
        sgr_all(style, seq![n]) == style,
{
    one_parameter(style, n);
}

/// 38 sets the foreground and 48 the background to the colour that follows, an
/// index after 5 or red, green and blue after 2, and the parameters after that
/// go on from there; one that is cut short changes nothing.
pub proof fn extended_colours_are_taken_whole(style: Style, i: u16, r: u16, g: u16, b: u16, rest: Seq<u16>)
    requires
        i < 256,
        r < 256,
        g < 256,
        b < 256,
    ensures
        sgr_all(style, seq![38u16, 5, i] + rest) == sgr_all(Style { fg: Some(Color::Indexed(i as u8)), ..style }, rest),
        sgr_all(style, seq![48u16, 5, i] + rest) == sgr_all(Style { bg: Some(Color::Indexed(i as u8)), ..style }, rest),
        sgr_all(style, seq![38u16, 2, r, g, b] + rest) == sgr_all(
            Style { fg: Some(Color::Rgb(r as u8, g as u8, b as u8)), ..style },
            rest,
        ),
        sgr_all(style, seq![48u16, 2, r, g, b] + rest) == sgr_all(
            Style { bg: Some(Color::Rgb(r as u8, g as u8, b as u8)), ..style },
            rest,
        ),
        sgr_all(style, seq![38u16]) == style,
        sgr_all(style, seq![48u16]) == style,
{
    assert((seq![38u16, 5, i] + rest).skip(3) =~= rest);
    assert((seq![48u16, 5, i] + rest).skip(3) =~= rest);
    assert((seq![38u16, 2, r, g, b] + rest).skip(5) =~= rest);
    assert((seq![48u16, 2, r, g, b] + rest).skip(5) =~= rest);
    assert(seq![38u16].skip(1) =~= Seq::<u16>::empty());
    assert(seq![48u16].skip(1) =~= Seq::<u16>::empty());
    assert(sgr_all(style, Seq::empty()) == style);
    assert(i % 256 == i && r % 256 == r && g % 256 == g && b % 256 == b);
}

/// Parameters take effect one after the other, each on what the ones before it
/// left.
pub proof fn parameters_take_effect_in_turn(style: Style, n: u16, rest: Seq<u16>)
    requires
        n != 38,
        n != 48,
    ensures
        sgr_all(style, seq![n] + rest) == sgr_all(sgr_all(style, seq![n]), rest),
{
    one_parameter(style, n);
    assert((seq![n] + rest).skip(1) =~= rest);
}

/// Parameters stand between semicolons or colons: splitting them is reading
/// the first and going on behind its separator.
pub proof fn parameters_are_split_at_separators(first: Seq<char>, sep: char, rest: Seq<char>)
    requires
        sep == ';' || sep == ':',
        forall|i: int| 0 <= i < first.len() ==> #[trigger] first[i] != ';' && first[i] != ':',
    ensures
        param_numbers(first).len() == 1,
        param_numbers(first + seq![sep] + rest) == param_numbers(first) + param_numbers(rest),
{
    let whole = first + seq![sep] + rest;
    number_ends(first, seq![sep] + rest);
    assert(first + (seq![sep] + rest) =~= whole);
    number_ends(first, Seq::empty());
    assert(first + Seq::<char>::empty() =~= first);
    assert(whole.take(first.len() as int) =~= first);
    assert(first.take(first.len() as int) =~= first);
    assert(whole.skip(first.len() as int + 1) =~= rest);
}

/// A number ends at the first separator, or with the text.
proof fn number_ends(first: Seq<char>, rest: Seq<char>)
    requires
        forall|i: int| 0 <= i < first.len() ==> #[trigger] first[i] != ';' && first[i] != ':',
        rest.len() == 0 || rest[0] == ';' || rest[0] == ':',
    ensures
        number_len(first + rest) == first.len(),
    decreases first.len(),
{
    if first.len() > 0 {
        assert(first[0] != ';');
        assert((first + rest).skip(1) =~= first.skip(1) + rest);
        assert forall|i: int| 0 <= i < first.skip(1).len() implies #[trigger] first.skip(1)[i] != ';'
            && first.skip(1)[i] != ':' by {
            assert(first[i + 1] != ';');
        }
        number_ends(first.skip(1), rest);
    } else {
        assert(first + rest =~= rest);
    }
}

/// Text after `ESC [`, a two-digit parameter and `m` is one span in the style
/// that parameter leads to: behind `31` it is red and nothing else changes.
pub proof fn text_takes_the_style_before_it(style: Style, tens: char, ones: char, text: Seq<char>)
    requires
        '1' <= tens <= '9',
        '0' <= ones <= '9',
        text.len() > 0,
        forall|i: int| 0 <= i < text.len() ==> !control(#[trigger] text[i]),
    ensures
        ({
            let n = (10 * (tens as u32 - '0' as u32) + (ones as u32 - '0' as u32)) as u16;
            spans_of(seq!['\u{1b}', '[', tens, ones, 'm'] + text, style, Seq::empty()) == seq![
                SpanView { content: text, style: sgr_all(style, seq![n]) },
            ]
        }),
{
    let params = seq![tens, ones];
    let s = seq!['\u{1b}', '[', tens, ones, 'm'] + text;
    let n = (10 * (tens as u32 - '0' as u32) + (ones as u32 - '0' as u32)) as u16;
    assert(s.skip(2) =~= params + (seq!['m'] + text));
    params_end(params, seq!['m'] + text);
    assert(s.skip(2).take(2) =~= params);
    assert(s.skip(4) =~= seq!['m'] + text);
    assert((seq!['m'] + text).skip(1) =~= text);
    number_ends(params, Seq::empty());
    assert(params + Seq::<char>::empty() =~= params);
    assert(params.take(2) =~= params);
    crate::text::two_digits_read(tens, ones);
    assert(param_numbers(params) =~= seq![n]);
    assert(is_sgr(params, 'm'));
    let next = apply_sgr_spec(style, params);
    plain_text_gathers(text, next, Seq::empty());
    assert(Seq::<char>::empty() + text =~= text);
    assert(flushed(Seq::empty(), style) + spans_of(text, next, Seq::empty()) =~= spans_of(text, next, Seq::empty()));
}

/// Text that waits is shown in the style it was written in, not in one that a
/// later sequence sets.
pub proof fn styles_do_not_reach_back(style: Style, text: Seq<char>, params: Seq<char>, rest: Seq<char>)
    requires
        text.len() > 0,
        forall|i: int| 0 <= i < text.len() ==> !control(#[trigger] text[i]),
        forall|i: int| 0 <= i < params.len() ==> '0' <= #[trigger] params[i] <= '9' || params[i] == ';' || params[i]
            == ':',
    ensures
        spans_of(text + seq!['\u{1b}', '['] + params + seq!['m'] + rest, style, Seq::empty()) == seq![
            SpanView { content: text, style },
        ] + spans_of(rest, apply_sgr_spec(style, params), Seq::empty()),
{
    let tail = seq!['\u{1b}', '['] + params + seq!['m'] + rest;
    let s = text + seq!['\u{1b}', '['] + params + seq!['m'] + rest;
    assert(s =~= text + tail);
    text_waits(text, tail, style, Seq::empty());
    assert(Seq::<char>::empty() + text =~= text);
    assert forall|i: int| 0 <= i < params.len() implies in_csi(#[trigger] params[i]) by {
        assert('0' <= params[i] <= '9' || params[i] == ';' || params[i] == ':');
    }
    assert forall|i: int| 0 <= i < params.len() implies is_param(#[trigger] params[i]) by {
        assert('0' <= params[i] <= '9' || params[i] == ';' || params[i] == ':');
    }
    assert(tail.skip(2) =~= params + (seq!['m'] + rest));
    params_end(params, seq!['m'] + rest);
    assert(tail.skip(2).take(params.len() as int) =~= params);
    assert(tail.skip(2 + params.len() as int) =~= seq!['m'] + rest);
    assert((seq!['m'] + rest).skip(1) =~= rest);
    assert(is_sgr(params, 'm'));
}

/// Plain text waits for what follows it.
proof fn text_waits(s: Seq<char>, rest: Seq<char>, style: Style, text: Seq<char>)
    requires
        forall|i: int| 0 <= i < s.len() ==> !control(#[trigger] s[i]),
    ensures
        spans_of(s + rest, style, text) == spans_of(rest, style, text + s),
    decreases s.len(),
{
    if s.len() == 0 {
        assert(s + rest =~= rest);
        assert(text + s =~= text);
    } else {
        assert(!control(s[0]));
        assert((s + rest).skip(1) =~= s.skip(1) + rest);
        assert forall|i: int| 0 <= i < s.skip(1).len() implies !control(#[trigger] s.skip(1)[i]) by {
            assert(!control(s[i + 1]));
        }
        text_waits(s.skip(1), rest, style, text.push(s[0]));
        assert(text.push(s[0]) + s.skip(1) =~= text + s);
    }
}

/// A title and other OSC strings leave nothing behind, whichever terminator
/// ends them.
pub proof fn osc_strings_are_dropped(body: Seq<char>, rest: Seq<char>, style: Style, text: Seq<char>)
    requires
        forall|i: int| 0 <= i < body.len() ==> #[trigger] body[i] != '\u{1b}' && body[i] != '\u{7}',
    ensures
        spans_of(seq!['\u{1b}', ']'] + body + seq!['\u{7}'] + rest, style, text) == spans_of(rest, style, text),
        spans_of(seq!['\u{1b}', ']'] + body + seq!['\u{1b}', '\\'] + rest, style, text) == spans_of(rest, style, text),
{
    let a = seq!['\u{1b}', ']'] + body + seq!['\u{7}'] + rest;
    let b = seq!['\u{1b}', ']'] + body + seq!['\u{1b}', '\\'] + rest;
    assert(a.skip(2) =~= body + (seq!['\u{7}'] + rest));
    assert(b.skip(2) =~= body + (seq!['\u{1b}', '\\'] + rest));
    osc_runs(body, seq!['\u{7}'] + rest, '\0');
    osc_runs(body, seq!['\u{1b}', '\\'] + rest, '\0');
    let last = if body.len() == 0 { '\0' } else { body.last() };
    assert(last != '\u{1b}') by {
        if body.len() > 0 {
            assert(body[body.len() - 1] != '\u{1b}');
        }
    }
    let t = seq!['\u{1b}', '\\'] + rest;
    assert(t.skip(1) =~= seq!['\\'] + rest);
    assert(osc_len(seq!['\\'] + rest, '\u{1b}') == 1);
    assert(osc_len(t, last) == 2);
    assert(osc_len(seq!['\u{7}'] + rest, last) == 1);
    assert(a.skip(2 + body.len() as int + 1) =~= rest);
    assert(b.skip(2 + body.len() as int + 2) =~= rest);
}

/// An OSC string runs on through what does not end it.
proof fn osc_runs(body: Seq<char>, rest: Seq<char>, prev: char)
    requires
        prev != '\u{1b}',
        forall|i: int| 0 <= i < body.len() ==> #[trigger] body[i] != '\u{1b}' && body[i] != '\u{7}',
    ensures
        osc_len(body + rest, prev) == body.len() + osc_len(rest, if body.len() == 0 { prev } else { body.last() }),
    decreases body.len(),
{
    if body.len() == 0 {
        assert(body + rest =~= rest);
    } else {
        assert(body[0] != '\u{1b}' && body[0] != '\u{7}');
        assert((body + rest).skip(1) =~= body.skip(1) + rest);
        assert forall|i: int| 0 <= i < body.skip(1).len() implies #[trigger] body.skip(1)[i] != '\u{1b}' && body.skip(
            1,
        )[i] != '\u{7}' by {
            assert(body[i + 1] != '\u{1b}');
        }
        osc_runs(body.skip(1), rest, body[0]);
        if body.len() > 1 {
            assert(body.skip(1).last() == body.last());
        }
    }
}

} // verus!
