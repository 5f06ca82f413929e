//! Text as sequences of characters: cutting, padding, matching, numbers.
use vstd::prelude::*;
use vstd::string::*;

verus! {

// ── White space ──────────────────────────────────────────────────────────────

/// Unicode's `White_Space` property, which `char::is_whitespace` answers for.
pub open spec fn white_space(c: char) -> bool {
    ||| '\u{9}' <= c <= '\u{d}'
    ||| c == ' '
    ||| c == '\u{85}'
    ||| c == '\u{a0}'
    ||| c == '\u{1680}'
    ||| '\u{2000}' <= c <= '\u{200a}'
    ||| c == '\u{2028}'
    ||| c == '\u{2029}'
    ||| c == '\u{202f}'
    ||| c == '\u{205f}'
    ||| c == '\u{3000}'
}

/// Whether a character is white space.
pub fn is_whitespace(c: char) -> (b: bool)
    ensures
        b == white_space(c),
{
    (c >= '\u{9}' && c <= '\u{d}') || c == ' ' || c == '\u{85}' || c == '\u{a0}' || c == '\u{1680}' || (c
        >= '\u{2000}' && c <= '\u{200a}') || c == '\u{2028}' || c == '\u{2029}' || c == '\u{202f}' || c
        == '\u{205f}' || c == '\u{3000}'
}

// ── Outside functions ────────────────────────────────────────────────────────

/// What `str::to_lowercase` returns.
pub uninterp spec fn lowercase(s: Seq<char>) -> Seq<char>;

/// `String::push` appends one character.
pub assume_specification[ String::push ](s: &mut String, c: char)
    ensures
        final(s)@ == old(s)@.push(c),
;

/// `String::pop` takes the last character off and returns it; an empty string
/// stays as it is.
pub assume_specification[ String::pop ](s: &mut String) -> (last: Option<char>)
    ensures
        old(s)@.len() == 0 ==> last is None && final(s)@ == old(s)@,
        old(s)@.len() > 0 ==> last == Some(old(s)@.last()) && final(s)@ == old(s)@.drop_last(),
;

/// `str::to_lowercase`, by name; of no text it makes no text.
#[verifier::external_body]
pub(crate) fn to_lowercase(s: &str) -> (low: String)
    ensures
        low@ == lowercase(s@),
        s@.len() == 0 ==> low@.len() == 0,
{
    s.to_lowercase()
}

/// What `Debug` writes of a text: in quotes, special characters escaped.
pub uninterp spec fn quoted_text(s: Seq<char>) -> Seq<char>;

/// The `Debug` form of `str`, by name.
#[verifier::external_body]
pub(crate) fn quoted(s: &str) -> (q: String)
    ensures
        q@ == quoted_text(s@),
{
    format!("{s:?}")
}

/// What `UnicodeWidthStr::width` returns: how many columns a text takes on the
/// screen.
pub uninterp spec fn width_of(s: Seq<char>) -> usize;

/// `UnicodeWidthStr::width`, by name.
#[verifier::external_body]
pub(crate) fn width(s: &str) -> (w: usize)
    ensures
        w == width_of(s@),
{
    unicode_width::UnicodeWidthStr::width(s)
}

// ── Characters ───────────────────────────────────────────────────────────────

/// The characters of `s`, in order.
pub fn chars(s: &str) -> (out: Vec<char>)
    ensures
        out@ == s@,
{
    let mut out: Vec<char> = Vec::new();
    for c in it: s.chars()
        invariant
            out@.len() == it.index(),
            it.seq() == s@,
            forall|i: int| 0 <= i < it.index() ==> #[trigger] out@[i] == it.seq()[i],
    {
        out.push(c);
    }
    assert(out@ =~= s@);
    out
}

/// The string made of `cs[from..to]`.
pub fn collect(cs: &Vec<char>, from: usize, to: usize) -> (out: String)
    requires
        from <= to <= cs@.len(),
    ensures
        out@ == cs@.subrange(from as int, to as int),
{
    let mut out = String::new();
    let mut i: usize = from;
    while i < to
        invariant
            from <= i <= to <= cs@.len(),
            out@ == cs@.subrange(from as int, i as int),
        decreases to - i,
    {
        out.push(cs[i]);
        assert(cs@.subrange(from as int, i + 1) =~= cs@.subrange(from as int, i as int).push(cs@[i as int]));
        i += 1;
    }
    out
}

/// `s` as an owned string.
pub fn own(s: &str) -> (out: String)
    ensures
        out@ == s@,
{
    s.to_owned()
}

/// Whether two strings hold the same characters.
pub fn same(a: &str, b: &str) -> (eq: bool)
    ensures
        eq == (a@ == b@),
{
    a.to_owned() == b.to_owned()
}

/// Whether an optional string holds exactly `b`.
pub fn is_some_of(a: &Option<String>, b: &str) -> (eq: bool)
    ensures
        eq == (a is Some && a->0@ == b@),
{
    match a {
        Some(s) => same(s.as_str(), b),
        None => false,
    }
}

/// The view of an optional string.
pub open spec fn opt_view(s: Option<String>) -> Option<Seq<char>> {
    match s {
        Some(t) => Some(t@),
        None => None,
    }
}

/// The views of a sequence.
pub open spec fn views<T: View>(s: Seq<T>) -> Seq<T::V> {
    Seq::new(s.len(), |i: int| s[i]@)
}

/// A vector's length can be counted.
pub proof fn vec_fits<T>(v: Vec<T>)
    ensures
        v@.len() <= usize::MAX,
{
    assert(v.len() == v@.len());
}

/// A copy of a list of strings.
pub fn clone_all(v: &Vec<String>) -> (out: Vec<String>)
    ensures
        views(out@) == views(v@),
{
    let mut out: Vec<String> = Vec::new();
    let mut i: usize = 0;
    while i < v.len()
        invariant
            i <= v@.len(),
            views(out@) == views(v@).take(i as int),
        decreases v@.len() - i,
    {
        let ghost before = out@;
        out.push(v[i].clone());
        assert(views(out@) =~= views(before).push(v@[i as int]@));
        assert(views(v@).take(i + 1) =~= views(v@).take(i as int).push(v@[i as int]@));
        i += 1;
    }
    assert(views(v@).take(v@.len() as int) =~= views(v@));
    out
}

/// Whether `s` is one of the strings of `v`.
pub fn contains(v: &Vec<String>, s: &str) -> (found: bool)
    ensures
        found == views(v@).contains(s@),
{
    let mut i: usize = 0;
    while i < v.len()
        invariant
            i <= v@.len(),
            forall|k: int| 0 <= k < i ==> #[trigger] views(v@)[k] != s@,
        decreases v@.len() - i,
    {
        if same(v[i].as_str(), s) {
            assert(views(v@)[i as int] == s@);
            return true;
        }
        i += 1;
    }
    false
}

// ── Concatenation ────────────────────────────────────────────────────────────

/// `a` followed by `b`.
pub fn cat(a: &str, b: &str) -> (out: String)
    ensures
        out@ == a@ + b@,
{
    let mut out = a.to_owned();
    out.append(b);
    out
}

/// `a`, `b` and `c` in a row.
pub fn cat3(a: &str, b: &str, c: &str) -> (out: String)
    ensures
        out@ == a@ + b@ + c@,
{
    let mut out = a.to_owned();
    out.append(b);
    out.append(c);
    out
}

/// `a`, `b`, `c` and `d` in a row.
pub fn cat4(a: &str, b: &str, c: &str, d: &str) -> (out: String)
    ensures
        out@ == a@ + b@ + c@ + d@,
{
    let mut out = a.to_owned();
    out.append(b);
    out.append(c);
    out.append(d);
    out
}

/// `a`, `b`, `c`, `d` and `e` in a row.
pub fn cat5(a: &str, b: &str, c: &str, d: &str, e: &str) -> (out: String)
    ensures
        out@ == a@ + b@ + c@ + d@ + e@,
{
    let mut out = a.to_owned();
    out.append(b);
    out.append(c);
    out.append(d);
    out.append(e);
    out
}

/// The parts with `sep` between neighbours.
pub open spec fn joined(parts: Seq<Seq<char>>, sep: Seq<char>) -> Seq<char>
    decreases parts.len(),
{
    if parts.len() == 0 {
        Seq::empty()
    } else if parts.len() == 1 {
        parts[0]
    } else {
        joined(parts.drop_last(), sep) + sep + parts.last()
    }
}

/// Join `parts` with `sep` between neighbours.
pub fn join(parts: &Vec<String>, sep: &str) -> (out: String)
    ensures
        out@ == joined(views(parts@), sep@),
{
    let mut out = String::new();
    let mut i: usize = 0;
    while i < parts.len()
        invariant
            i <= parts@.len(),
            out@ == joined(views(parts@).take(i as int), sep@),
        decreases parts@.len() - i,
    {
        let ghost whole = views(parts@);
        assert(whole.take(i + 1).drop_last() =~= whole.take(i as int));
        assert(whole.take(i + 1).last() == parts@[i as int]@);
        if i > 0 {
            out.append(sep);
        } else {
            assert(out@ + parts@[0]@ =~= parts@[0]@);
        }
        out.append(parts[i].as_str());
        i += 1;
    }
    assert(views(parts@).take(parts@.len() as int) =~= views(parts@));
    out
}

/// `n` copies of `c`.
pub open spec fn repeated(c: char, n: nat) -> Seq<char> {
    Seq::new(n, |i: int| c)
}

/// `n` spaces.
pub fn spaces(n: usize) -> (out: String)
    ensures
        out@ == repeated(' ', n as nat),
{
    fill(' ', n)
}

/// `n` copies of `c` as a string.
pub fn fill(c: char, n: usize) -> (out: String)
    ensures
        out@ == repeated(c, n as nat),
{
    let mut out = String::new();
    let mut i: usize = 0;
    while i < n
        invariant
            i <= n,
            out@ == repeated(c, i as nat),
        decreases n - i,
    {
        out.push(c);
        assert(repeated(c, (i + 1) as nat) =~= repeated(c, i as nat).push(c));
        i += 1;
    }
    out
}

// ── Numbers ──────────────────────────────────────────────────────────────────

/// The character of a decimal digit.
pub open spec fn digit_char(d: int) -> char {
    (0x30 + d) as char
}

/// A number in decimal, without leading zeros.
pub open spec fn decimal_of(n: nat) -> Seq<char>
    decreases n,
{
    if n < 10 {
        seq![digit_char(n as int)]
    } else {
        decimal_of(n / 10).push(digit_char((n % 10) as int))
    }
}

/// Write `n` in decimal.
pub fn decimal(n: u64) -> (out: String)
    ensures
        out@ == decimal_of(n as nat),
    decreases n,
{
    let d: u8 = 0x30u8 + (n % 10) as u8;
    if n < 10 {
        let mut out = String::new();
        out.push(d as char);
        assert(out@ =~= seq![digit_char(n as int)]);
        out
    } else {
        let mut out = decimal(n / 10);
        out.push(d as char);
        out
    }
}

/// Whether a character is one of `0` to `9`.
pub open spec fn is_digit(c: char) -> bool {
    '0' <= c <= '9'
}

/// The value of a run of decimal digits.
pub open spec fn digits_value(s: Seq<char>) -> nat
    decreases s.len(),
{
    if s.len() == 0 {
        0
    } else {
        digits_value(s.drop_last()) * 10 + ((s.last() as nat - 0x30) as nat)
    }
}

/// `s` without one leading `+`.
pub open spec fn unsigned_part(s: Seq<char>) -> Seq<char> {
    if s.len() > 0 && s[0] == '+' {
        s.skip(1)
    } else {
        s
    }
}

/// Whether `s` is digits only.
pub open spec fn all_digits(s: Seq<char>) -> bool {
    forall|i: int| 0 <= i < s.len() ==> is_digit(#[trigger] s[i])
}

/// Whether `s` spells an unsigned number: digits, at least one, with an
/// optional `+` in front.
pub open spec fn spells_number(s: Seq<char>) -> bool {
    unsigned_part(s).len() > 0 && all_digits(unsigned_part(s))
}

/// The number that `s` spells, if it spells one of at most `max`.
pub open spec fn number_of(s: Seq<char>, max: nat) -> Option<nat> {
    if spells_number(s) && digits_value(unsigned_part(s)) <= max {
        Some(digits_value(unsigned_part(s)))
    } else {
        None
    }
}

/// Read an unsigned number of at most `max` from `cs[from..to]`.
pub fn parse_number(cs: &Vec<char>, from: usize, to: usize, max: u64) -> (n: Option<u64>)
    requires
        from <= to <= cs@.len(),
    ensures
        match (n, number_of(cs@.subrange(from as int, to as int), max as nat)) {
            (Some(a), Some(b)) => a == b,
            (None, None) => true,
            _ => false,
        },
{
    let ghost s = cs@.subrange(from as int, to as int);
    let start: usize = if from < to && cs[from] == '+' { from + 1 } else { from };
    let ghost digits = unsigned_part(s);
    assert(digits =~= cs@.subrange(start as int, to as int));
    if start == to {
        return None;
    }
    let mut value: u64 = 0;
    let mut i: usize = start;
    let mut over: bool = false;
    while i < to
        invariant
            from <= start <= i <= to <= cs@.len(),
            digits == cs@.subrange(start as int, to as int),
            digits.len() == to - start,
            digits == unsigned_part(s),
            s == cs@.subrange(from as int, to as int),
            all_digits(digits.take(i - start)),
            over ==> digits_value(digits.take(i - start)) > max,
            !over ==> value == digits_value(digits.take(i - start)) && value <= max,
        decreases to - i,
    {
        let c: char = cs[i];
        assert(c == digits[i - start]);
        if !(c >= '0' && c <= '9') {
            assert(!is_digit(digits[i - start]));
            assert(!all_digits(digits));
            return None;
        }
        let d: u64 = c as u64 - 0x30;
        let ghost next = digits.take(i - start + 1);
        assert(next.drop_last() =~= digits.take(i - start));
        assert(next.last() == c);
        assert(all_digits(next)) by {
            assert forall|k: int| 0 <= k < next.len() implies is_digit(#[trigger] next[k]) by {
                if k < i - start {
                    assert(next[k] == digits.take(i - start)[k]);
                }
            }
        }
        assert(digits_value(next) == digits_value(digits.take(i - start)) * 10 + d);
        if !over {
            if value > max / 10 || d > max - value * 10 {
                over = true;
            } else {
                value = value * 10 + d;
            }
        }
        i += 1;
    }
    assert(digits.take(to - start) =~= digits);
    if over { None } else { Some(value) }
}

// ── Cutting and padding ──────────────────────────────────────────────────────

/// The smaller of two sizes.
pub open spec fn least(a: int, b: int) -> int {
    if a < b {
        a
    } else {
        b
    }
}

/// The first `max` characters, or all there are.
pub open spec fn first_chars(s: Seq<char>, max: nat) -> Seq<char> {
    s.take(least(s.len() as int, max as int))
}

/// At most `max` characters: all of them when they fit, else one fewer and an
/// ellipsis.
pub open spec fn truncated(s: Seq<char>, max: nat) -> Seq<char> {
    if s.len() <= max {
        s
    } else if max == 0 {
        Seq::empty()
    } else {
        s.take(max - 1).push('…')
    }
}

/// Exactly `w` characters: padded with spaces, or cut with an ellipsis.
pub open spec fn padded(s: Seq<char>, w: nat) -> Seq<char> {
    if s.len() > w {
        if w == 0 {
            Seq::empty()
        } else {
            s.take(w - 1).push('…')
        }
    } else {
        s + repeated(' ', (w - s.len()) as nat)
    }
}

/// `s` padded on the right to at least `w` characters.
pub open spec fn left_aligned(s: Seq<char>, w: nat) -> Seq<char> {
    if s.len() >= w {
        s
    } else {
        s + repeated(' ', (w - s.len()) as nat)
    }
}

/// Cut `s` to at most `max` characters, ending in an ellipsis when cut.
pub fn truncate(s: &str, max: usize) -> (out: String)
    ensures
        out@ == truncated(s@, max as nat),
{
    let cs: Vec<char> = chars(s);
    if cs.len() <= max {
        return own(s);
    }
    if max == 0 {
        let out = String::new();
        assert(out@ =~= Seq::<char>::empty());
        return out;
    }
    let mut out = collect(&cs, 0, max - 1);
    assert(cs@.subrange(0, max - 1) =~= s@.take(max - 1));
    out.push('…');
    out
}

/// Pad `s` with spaces to exactly `w` chars, truncating with `…` if longer.
pub fn pad_cell(s: &str, w: usize) -> (out: String)
    ensures
        out@ == padded(s@, w as nat),
{
    let cs: Vec<char> = chars(s);
    if cs.len() > w {
        if w == 0 {
            let out = String::new();
            assert(out@ =~= Seq::<char>::empty());
            return out;
        }
        let mut out = collect(&cs, 0, w - 1);
        assert(cs@.subrange(0, w - 1) =~= s@.take(w - 1));
        out.push('…');
        out
    } else {
        let gap = spaces(w - cs.len());
        cat(s, gap.as_str())
    }
}

/// Pad `s` on the right with spaces to at least `w` characters.
pub fn align_left(s: &str, w: usize) -> (out: String)
    ensures
        out@ == left_aligned(s@, w as nat),
{
    let n: usize = s.unicode_len();
    if n >= w {
        own(s)
    } else {
        let gap = spaces(w - n);
        cat(s, gap.as_str())
    }
}

/// A padded cell is exactly as wide as asked for, and a text that fits stands
/// at its start.
pub proof fn padded_is_exact(s: Seq<char>, w: nat)
    ensures
        padded(s, w).len() == w,
        s.len() <= w ==> padded(s, w).take(s.len() as int) == s,
{
    if s.len() <= w {
        assert(padded(s, w).take(s.len() as int) =~= s);
    }
}

/// A truncated text never exceeds the room it was given, and text that fits
/// is left alone.
pub proof fn truncated_fits(s: Seq<char>, max: nat)
    ensures
        truncated(s, max).len() <= max,
        s.len() <= max ==> truncated(s, max) == s,
        s.len() > max > 0 ==> truncated(s, max).len() == max && truncated(s, max).last() == '…',
{
}

// ── Trimming and prefixes ────────────────────────────────────────────────────

/// `s` from its first character that is not white space.
pub open spec fn trim_start_of(s: Seq<char>) -> Seq<char>
    decreases s.len(),
{
    if s.len() > 0 && white_space(s[0]) {
        trim_start_of(s.skip(1))
    } else {
        s
    }
}

/// `s` up to its last character that is not white space.
pub open spec fn trim_end_of(s: Seq<char>) -> Seq<char>
    decreases s.len(),
{
    if s.len() > 0 && white_space(s.last()) {
        trim_end_of(s.drop_last())
    } else {
        s
    }
}

/// `s` without white space at either end.
pub open spec fn trimmed(s: Seq<char>) -> Seq<char> {
    trim_end_of(trim_start_of(s))
}

/// `s` without white space at either end.
pub fn trim(s: &str) -> (out: String)
    ensures
        out@ == trimmed(s@),
{
    let cs: Vec<char> = chars(s);
    let mut a: usize = 0;
    assert(s@.skip(0) =~= s@);
    while a < cs.len() && is_whitespace(cs[a])
        invariant
            a <= cs@.len(),
            cs@ == s@,
            trim_start_of(s@) == trim_start_of(s@.skip(a as int)),
        ensures
            a <= cs@.len(),
            trim_start_of(s@) == s@.skip(a as int),
        decreases cs@.len() - a,
    {
        assert(s@.skip(a as int).skip(1) =~= s@.skip(a + 1));
        a += 1;
    }
    let mut b: usize = cs.len();
    let ghost t = s@.skip(a as int);
    assert(t.take(t.len() as int) =~= t);
    while b > a && is_whitespace(cs[b - 1])
        invariant
            a <= b <= cs@.len(),
            cs@ == s@,
            t == s@.skip(a as int),
            trim_end_of(t) == trim_end_of(t.take(b - a)),
        ensures
            a <= b <= cs@.len(),
            trim_end_of(t) == t.take(b - a),
        decreases b,
    {
        assert(t.take(b - a).drop_last() =~= t.take(b - a - 1));
        b -= 1;
    }
    assert(cs@.subrange(a as int, b as int) =~= t.take(b - a));
    collect(&cs, a, b)
}

/// Trimming twice is trimming once.
pub proof fn trimmed_twice(s: Seq<char>)
    ensures
        trimmed(trimmed(s)) == trimmed(s),
{
    let a = trim_start_of(s);
    trim_start_of_settles(s);
    trim_end_of_settles(a);
    let b = trim_end_of(a);
    if b.len() > 0 {
        trim_end_of_keeps_front(a);
    }
}

/// A trimmed start does not begin with white space.
proof fn trim_start_of_settles(s: Seq<char>)
    ensures
        trim_start_of(s).len() == 0 || !white_space(trim_start_of(s)[0]),
    decreases s.len(),
{
    if s.len() > 0 && white_space(s[0]) {
        trim_start_of_settles(s.skip(1));
    }
}

/// A trimmed end does not end in white space.
proof fn trim_end_of_settles(s: Seq<char>)
    ensures
        trim_end_of(s).len() == 0 || !white_space(trim_end_of(s).last()),
    decreases s.len(),
{
    if s.len() > 0 && white_space(s.last()) {
        trim_end_of_settles(s.drop_last());
    }
}

/// Trimming the end leaves the first character in place.
proof fn trim_end_of_keeps_front(s: Seq<char>)
    requires
        trim_end_of(s).len() > 0,
    ensures
        s.len() > 0,
        trim_end_of(s)[0] == s[0],
    decreases s.len(),
{
    if s.len() > 0 && white_space(s.last()) {
        trim_end_of_keeps_front(s.drop_last());
    }
}

/// Whether `cs[at..]` starts with the characters of `p`.
pub fn starts_at(cs: &Vec<char>, at: usize, p: &Vec<char>) -> (yes: bool)
    requires
        at <= cs@.len(),
    ensures
        yes == p@.is_prefix_of(cs@.skip(at as int)),
{
    let n: usize = cs.len();
    if p.len() > n - at {
        return false;
    }
    let mut i: usize = 0;
    while i < p.len()
        invariant
            n == cs@.len(),
            i <= p@.len() <= n - at,
            forall|k: int| 0 <= k < i ==> #[trigger] p@[k] == cs@.skip(at as int)[k],
        decreases p@.len() - i,
    {
        if p[i] != cs[at + i] {
            assert(p@[i as int] != cs@.skip(at as int)[i as int]);
            assert(cs@.skip(at as int).subrange(0, p@.len() as int)[i as int] != p@[i as int]);
            return false;
        }
        i += 1;
    }
    assert(p@ =~= cs@.skip(at as int).subrange(0, p@.len() as int));
    true
}

/// `s` without the prefix `p`, if it has it.
pub fn strip_prefix(s: &str, p: &str) -> (rest: Option<String>)
    ensures
        p@.is_prefix_of(s@) ==> rest is Some && rest->0@ == s@.skip(p@.len() as int),
        !p@.is_prefix_of(s@) ==> rest is None,
{
    let cs: Vec<char> = chars(s);
    let ps: Vec<char> = chars(p);
    assert(cs@.skip(0) =~= s@);
    if starts_at(&cs, 0, &ps) {
        assert(cs@.subrange(ps@.len() as int, cs@.len() as int) =~= s@.skip(p@.len() as int));
        Some(collect(&cs, ps.len(), cs.len()))
    } else {
        None
    }
}

/// `s` without any number of copies of `suffix` at its end.
pub open spec fn without_suffixes(s: Seq<char>, suffix: Seq<char>) -> Seq<char>
    decreases s.len(),
{
    if suffix.len() > 0 && suffix.is_suffix_of(s) {
        without_suffixes(s.take(s.len() - suffix.len()), suffix)
    } else {
        s
    }
}

/// `s` without any number of copies of `suffix` at its end.
pub fn trim_end_matches(s: &str, suffix: &str) -> (out: String)
    requires
        suffix@.len() > 0,
    ensures
        out@ == without_suffixes(s@, suffix@),
{
    let cs: Vec<char> = chars(s);
    let xs: Vec<char> = chars(suffix);
    let mut n: usize = cs.len();
    assert(s@.take(n as int) =~= s@);
    while n >= xs.len()
        invariant
            n <= cs@.len(),
            cs@ == s@,
            xs@ == suffix@,
            xs@.len() > 0,
            without_suffixes(s@, suffix@) == without_suffixes(s@.take(n as int), suffix@),
        ensures
            n <= cs@.len(),
            without_suffixes(s@, suffix@) == s@.take(n as int),
        decreases n,
    {
        let ghost t = s@.take(n as int);
        let mut i: usize = 0;
        while i < xs.len()
            invariant_except_break
                i <= xs@.len() <= n,
            invariant
                n <= cs@.len(),
                cs@ == s@,
                xs@ == suffix@,
                t == s@.take(n as int),
                i <= xs@.len() <= n,
                forall|k: int| 0 <= k < i ==> #[trigger] xs@[k] == t[n - xs@.len() + k],
            ensures
                i < xs@.len() ==> xs@[i as int] != t[n - xs@.len() + i],
            decreases xs@.len() - i,
        {
            if xs[i] != cs[n - xs.len() + i] {
                break;
            }
            i += 1;
        }
        if i < xs.len() {
            assert(!suffix@.is_suffix_of(t)) by {
                assert(t.subrange((t.len() - suffix@.len()) as int, t.len() as int)[i as int] != suffix@[i as int]);
            }
            break;
        }
        assert(suffix@ =~= t.subrange((t.len() - suffix@.len()) as int, t.len() as int));
        assert(t.take(t.len() - suffix@.len()) =~= s@.take(n - suffix@.len()));
        n -= xs.len();
    }
    assert(cs@.subrange(0, n as int) =~= s@.take(n as int));
    collect(&cs, 0, n)
}

/// What follows the last `sep` of `s`, or all of it.
pub open spec fn after_last(s: Seq<char>, sep: char) -> Seq<char>
    decreases s.len(),
{
    if s.len() == 0 || s.last() == sep {
        Seq::empty()
    } else {
        after_last(s.drop_last(), sep).push(s.last())
    }
}

/// What follows the last `sep` of `s`, or all of it.
pub fn rsplit_last(s: &str, sep: char) -> (out: String)
    ensures
        out@ == after_last(s@, sep),
{
    let cs: Vec<char> = chars(s);
    let mut a: usize = cs.len();
    assert(s@.take(s@.len() as int) =~= s@);
    while a > 0 && cs[a - 1] != sep
        invariant
            a <= cs@.len(),
            cs@ == s@,
            after_last(s@, sep) == after_last(s@.take(a as int), sep) + s@.skip(a as int),
        ensures
            a <= cs@.len(),
            after_last(s@, sep) == s@.skip(a as int),
        decreases a,
    {
        assert(s@.take(a as int).drop_last() =~= s@.take(a - 1));
        assert(after_last(s@.take(a - 1), sep).push(s@[a - 1]) + s@.skip(a as int)
            =~= after_last(s@.take(a - 1), sep) + s@.skip(a - 1));
        a -= 1;
        proof {
            if a == 0 || s@[a - 1] == sep {
                assert(after_last(s@.take(a as int), sep) + s@.skip(a as int) =~= s@.skip(a as int));
            }
        }
    }
    assert(cs@.subrange(a as int, cs@.len() as int) =~= s@.skip(a as int));
    collect(&cs, a, cs.len())
}

// ── Matching ─────────────────────────────────────────────────────────────────

/// Whether the characters of `needle` occur in `hay` in the same order.
pub open spec fn in_order(needle: Seq<char>, hay: Seq<char>) -> bool
    decreases hay.len(),
{
    if needle.len() == 0 {
        true
    } else if hay.len() == 0 {
        false
    } else if needle[0] == hay[0] {
        in_order(needle.skip(1), hay.skip(1))
    } else {
        in_order(needle, hay.skip(1))
    }
}

/// `s` without its spaces.
pub open spec fn spaceless(s: Seq<char>) -> Seq<char>
    decreases s.len(),
{
    if s.len() == 0 {
        s
    } else if s[0] == ' ' {
        spaceless(s.skip(1))
    } else {
        seq![s[0]] + spaceless(s.skip(1))
    }
}

/// Subsequence match (fuzzy): are all characters of `needle` but its spaces
/// found in `haystack` in order? Both are expected in lower case.
pub fn subseq_match(needle: &str, haystack: &str) -> (found: bool)
    ensures
        found == in_order(spaceless(needle@), haystack@),
{
    let ns: Vec<char> = chars(needle);
    let hs: Vec<char> = chars(haystack);
    let mut i: usize = 0;
    let mut j: usize = 0;
    assert(ns@.skip(0) =~= ns@);
    assert(hs@.skip(0) =~= hs@);
    while i < ns.len()
        invariant
            i <= ns@.len(),
            j <= hs@.len(),
            ns@ == needle@,
            hs@ == haystack@,
            in_order(spaceless(ns@), hs@) == in_order(spaceless(ns@.skip(i as int)), hs@.skip(j as int)),
        decreases ns@.len() - i,
    {
        let c: char = ns[i];
        let ghost rest = ns@.skip(i as int);
        assert(rest.skip(1) =~= ns@.skip(i + 1));
        if c != ' ' {
            let ghost wanted = spaceless(rest);
            assert(wanted =~= seq![c] + spaceless(rest.skip(1)));
            assert(wanted.skip(1) =~= spaceless(rest.skip(1)));
            while j < hs.len() && hs[j] != c
                invariant
                    j <= hs@.len(),
                    wanted.len() > 0,
                    wanted[0] == c,
                    in_order(spaceless(ns@), hs@) == in_order(wanted, hs@.skip(j as int)),
                decreases hs@.len() - j,
            {
                assert(hs@.skip(j as int).skip(1) =~= hs@.skip(j + 1));
                j += 1;
            }
            if j == hs.len() {
                return false;
            }
            assert(hs@.skip(j as int).skip(1) =~= hs@.skip(j + 1));
            j += 1;
        }
        i += 1;
    }
    true
}

/// A match is an embedding: there are strictly rising places in `hay` that
/// spell `needle`.
pub proof fn in_order_embeds(needle: Seq<char>, hay: Seq<char>) -> (places: Seq<int>)
    requires
        in_order(needle, hay),
    ensures
        places.len() == needle.len(),
        forall|i: int| 0 <= i < places.len() ==> 0 <= #[trigger] places[i] < hay.len() && hay[places[i]] == needle[i],
        forall|i: int, j: int| 0 <= i < j < places.len() ==> places[i] < places[j],
    decreases hay.len(),
{
    if needle.len() == 0 {
        Seq::empty()
    } else if needle[0] == hay[0] {
        let rest = in_order_embeds(needle.skip(1), hay.skip(1));
        let places = Seq::new(needle.len(), |i: int| if i == 0 { 0 } else { rest[i - 1] + 1 });
        assert forall|i: int| 0 <= i < places.len() implies 0 <= #[trigger] places[i] < hay.len() && hay[places[i]]
            == needle[i] by {
            if i > 0 {
                assert(needle[i] == needle.skip(1)[i - 1]);
                assert(0 <= rest[i - 1] < hay.skip(1).len());
            }
        }
        assert forall|i: int, j: int| 0 <= i < j < places.len() implies places[i] < places[j] by {
            assert(0 <= rest[j - 1]);
            if i > 0 {
                assert(rest[i - 1] < rest[j - 1]);
            }
        }
        places
    } else {
        let rest = in_order_embeds(needle, hay.skip(1));
        let places = Seq::new(needle.len(), |i: int| rest[i] + 1);
        assert forall|i: int| 0 <= i < places.len() implies 0 <= #[trigger] places[i] < hay.len() && hay[places[i]]
            == needle[i] by {
            assert(0 <= rest[i] < hay.skip(1).len());
        }
        assert forall|i: int, j: int| 0 <= i < j < places.len() implies places[i] < places[j] by {
            assert(rest[i] < rest[j]);
        }
        places
    }
}

/// Any embedding is a match.
pub proof fn embedding_is_in_order(needle: Seq<char>, hay: Seq<char>, places: Seq<int>)
    requires
        places.len() == needle.len(),
        forall|i: int| 0 <= i < places.len() ==> 0 <= #[trigger] places[i] < hay.len() && hay[places[i]] == needle[i],
        forall|i: int, j: int| 0 <= i < j < places.len() ==> places[i] < places[j],
    ensures
        in_order(needle, hay),
    decreases hay.len(),
{
    if needle.len() > 0 {
        assert(0 <= places[0] < hay.len());
        if needle[0] == hay[0] {
            let rest = Seq::new((places.len() - 1) as nat, |i: int| places[i + 1] - 1);
            assert forall|i: int| 0 <= i < rest.len() implies 0 <= #[trigger] rest[i] < hay.skip(1).len()
                && hay.skip(1)[rest[i]] == needle.skip(1)[i] by {
                assert(places[0] < places[i + 1]);
            }
            assert forall|i: int, j: int| 0 <= i < j < rest.len() implies rest[i] < rest[j] by {
                assert(places[i + 1] < places[j + 1]);
            }
            embedding_is_in_order(needle.skip(1), hay.skip(1), rest);
        } else {
            let rest = Seq::new(places.len(), |i: int| places[i] - 1);
            assert forall|i: int| 0 <= i < rest.len() implies 0 <= #[trigger] rest[i] < hay.skip(1).len()
                && hay.skip(1)[rest[i]] == needle[i] by {
                if i > 0 {
                    assert(places[0] < places[i]);
                } else {
                    assert(hay[places[0]] == needle[0]);
                }
            }
            assert forall|i: int, j: int| 0 <= i < j < rest.len() implies rest[i] < rest[j] by {
                assert(places[i] < places[j]);
            }
            embedding_is_in_order(needle, hay.skip(1), rest);
        }
    }
}

/// Two digits spell the number that the first says in tens and the second in
/// ones.
pub proof fn two_digits_read(tens: char, ones: char)
    requires
        '0' <= tens <= '9',
        '0' <= ones <= '9',
    ensures
        number_of(seq![tens, ones], u16::MAX as nat) == Some(
            (10 * (tens as u32 - '0' as u32) + (ones as u32 - '0' as u32)) as nat,
        ),
{
    let s = seq![tens, ones];
    assert(unsigned_part(s) =~= s);
    assert(s.drop_last() =~= seq![tens]);
    assert(seq![tens].drop_last() =~= Seq::<char>::empty());
    reveal_with_fuel(digits_value, 3);
    assert(all_digits(s)) by {
        assert(s[0] == tens && s[1] == ones);
    }
}

/// No text spells no number.
pub proof fn no_digits_no_number()
    ensures
        number_of(Seq::empty(), u16::MAX as nat) is None,
{
    assert(unsigned_part(Seq::<char>::empty()) =~= Seq::<char>::empty());
}

/// A text that is cut keeps its first characters and ends in an ellipsis; one
/// that fits stays as it is.
pub proof fn cut_texts_end_in_an_ellipsis(s: Seq<char>, max: nat, i: int)
    ensures
        s.len() <= max ==> truncated(s, max) == s,
        s.len() > max && max > 0 ==> truncated(s, max).len() == max && truncated(s, max).last() == '…',
        s.len() > max && 0 <= i < max - 1 ==> truncated(s, max)[i] == s[i],
        padded(s, max).len() == max,
        s.len() <= max && 0 <= i < s.len() ==> padded(s, max)[i] == s[i],
        s.len() <= i < max ==> padded(s, max)[i] == ' ',
        s.len() > max && max > 0 ==> padded(s, max).last() == '…',
        s.len() > max && 0 <= i < max - 1 ==> padded(s, max)[i] == s[i],
{
}

/// A trimmed text neither begins nor ends with white space.
pub proof fn trimmed_ends_are_dark(s: Seq<char>)
    ensures
        trimmed(s).len() > 0 ==> !white_space(trimmed(s)[0]) && !white_space(trimmed(s).last()),
        s.len() > 0 && !white_space(s[0]) && !white_space(s.last()) ==> trimmed(s) == s,
        (forall|i: int| 0 <= i < s.len() ==> white_space(#[trigger] s[i])) ==> trimmed(s).len() == 0,
{
    trim_start_of_settles(s);
    trim_end_of_settles(trim_start_of(s));
    starts_dark(s);
    ends_dark(trim_start_of(s));
}

/// A text without white space in front begins with none, and is empty where
/// there was nothing else.
proof fn starts_dark(s: Seq<char>)
    ensures
        trim_start_of(s).len() > 0 ==> !white_space(trim_start_of(s)[0]),
        (forall|i: int| 0 <= i < s.len() ==> white_space(#[trigger] s[i])) ==> trim_start_of(s).len() == 0,
    decreases s.len(),
{
    if s.len() > 0 && white_space(s[0]) {
        starts_dark(s.skip(1));
        if forall|i: int| 0 <= i < s.len() ==> white_space(#[trigger] s[i]) {
            assert forall|i: int| 0 <= i < s.skip(1).len() implies white_space(#[trigger] s.skip(1)[i]) by {
                assert(white_space(s[i + 1]));
            }
        }
    }
}

/// See [`starts_dark`], for the end; the first character stays where it is dark.
proof fn ends_dark(s: Seq<char>)
    ensures
        trim_end_of(s).len() > 0 ==> !white_space(trim_end_of(s).last()),
        trim_end_of(s).len() <= s.len(),
        trim_end_of(s).len() > 0 ==> trim_end_of(s)[0] == s[0],
    decreases s.len(),
{
    if s.len() > 0 && white_space(s.last()) {
        ends_dark(s.drop_last());
    }
}

/// What follows the last separator has none in it, and a text without one is
/// taken whole.
pub proof fn the_last_part_has_no_separator(s: Seq<char>, sep: char)
    ensures
        !after_last(s, sep).contains(sep),
        after_last(s, sep).len() <= s.len(),
        s.skip(s.len() - after_last(s, sep).len()) == after_last(s, sep),
        after_last(s, sep).len() < s.len() ==> s[s.len() - after_last(s, sep).len() - 1] == sep,
    decreases s.len(),
{
    if s.len() > 0 && s.last() != sep {
        the_last_part_has_no_separator(s.drop_last(), sep);
        let d = after_last(s.drop_last(), sep);
        assert forall|i: int| 0 <= i < after_last(s, sep).len() implies after_last(s, sep)[i] != sep by {
            if i < d.len() {
                assert(d.contains(d[i]));
            }
        }
        assert(s.skip(s.len() - after_last(s, sep).len()) =~= s.drop_last().skip(s.drop_last().len() - d.len()).push(
            s.last(),
        ));
    } else if s.len() > 0 {
        assert(s.skip(s.len() as int) =~= after_last(s, sep));
    } else {
        assert(s.skip(0) =~= after_last(s, sep));
    }
}

/// A filter's spaces do not count, and nothing else is dropped from it.
pub proof fn only_spaces_are_dropped(s: Seq<char>, c: char)
    ensures
        !spaceless(s).contains(' '),
        c != ' ' ==> (spaceless(s).contains(c) <==> s.contains(c)),
        spaceless(s).len() <= s.len(),
        !s.contains(' ') ==> spaceless(s) == s,
    decreases s.len(),
{
    if s.len() > 0 {
        let t = s.skip(1);
        only_spaces_are_dropped(t, c);
        assert(s =~= seq![s[0]] + t);
        assert forall|x: char| s.contains(x) == (s[0] == x || t.contains(x)) by {
            if t.contains(x) {
                let i = choose|i: int| 0 <= i < t.len() && t[i] == x;
                assert(s[i + 1] == x);
            }
            if s.contains(x) && s[0] != x {
                let i = choose|i: int| 0 <= i < s.len() && s[i] == x;
                assert(t[i - 1] == x);
            }
        }
        let u = spaceless(t);
        let w = seq![s[0]] + u;
        assert forall|x: char| w.contains(x) == (s[0] == x || u.contains(x)) by {
            assert(w[0] == s[0]);
            if u.contains(x) {
                let i = choose|i: int| 0 <= i < u.len() && u[i] == x;
                assert(w[i + 1] == x);
            }
            if w.contains(x) && s[0] != x {
                let i = choose|i: int| 0 <= i < w.len() && w[i] == x;
                assert(u[i - 1] == x);
            }
        }
    }
}

/// A number's digits spell it: reading them in tens gives it back.
pub proof fn decimals_read_back(n: nat)
    ensures
        digits_value(decimal_of(n)) == n,
        decimal_of(n).len() > 0,
        all_digits(decimal_of(n)),
    decreases n,
{
    if n >= 10 {
        decimals_read_back(n / 10);
        assert(decimal_of(n).drop_last() =~= decimal_of(n / 10));
    } else {
        reveal_with_fuel(digits_value, 2);
        assert(decimal_of(n).drop_last() =~= Seq::<char>::empty());
    }
}

} // verus!
