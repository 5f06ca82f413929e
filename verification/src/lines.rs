//! Lines, words and substitution.
use vstd::prelude::*;
use vstd::string::*;

use crate::text::{chars, collect, is_whitespace, starts_at, trim, trimmed, views, white_space};

verus! {

/// How many characters stand before the first `c`; all of them if there is
/// none.
pub open spec fn before(s: Seq<char>, c: char) -> nat
    decreases s.len(),
{
    if s.len() == 0 || s[0] == c {
        0
    } else {
        1 + before(s.skip(1), c)
    }
}

/// The first of a character is in the text, or past its end.
pub proof fn before_fits(s: Seq<char>, c: char)
    ensures
        before(s, c) <= s.len(),
        before(s, c) < s.len() ==> s[before(s, c) as int] == c,
        forall|i: int| 0 <= i < before(s, c) ==> #[trigger] s[i] != c,
    decreases s.len(),
{
    if s.len() > 0 && s[0] != c {
        before_fits(s.skip(1), c);
        assert(before(s, c) < s.len() ==> s.skip(1)[before(s, c) - 1] == c);
        assert forall|i: int| 0 <= i < before(s, c) implies #[trigger] s[i] != c by {
            if i > 0 {
                assert(s.skip(1)[i - 1] != c);
            }
        }
    }
}

/// Where the first `c` of `cs[from..]` stands; the end if there is none.
pub fn find_char(cs: &Vec<char>, from: usize, c: char) -> (at: usize)
    requires
        from <= cs@.len(),
    ensures
        from <= at <= cs@.len(),
        at == from + before(cs@.skip(from as int), c),
{
    let mut at: usize = from;
    let ghost s = cs@.skip(from as int);
    assert(s.skip(0) =~= s);
    while at < cs.len() && cs[at] != c
        invariant
            from <= at <= cs@.len(),
            s == cs@.skip(from as int),
            before(s, c) == (at - from) + before(s.skip(at - from), c),
        decreases cs@.len() - at,
    {
        assert(s.skip(at - from)[0] == cs@[at as int]);
        assert(s.skip(at - from).skip(1) =~= s.skip(at - from + 1));
        at += 1;
    }
    proof {
        if at < cs.len() {
            assert(s.skip(at - from)[0] == cs@[at as int]);
        }
    }
    at
}

/// The lines of a text: what stands between line ends, which are `\n` or
/// `\r\n`. A text that ends in a line end has no line after it.
pub open spec fn lines_of(s: Seq<char>) -> Seq<Seq<char>>
    decreases s.len(),
{
    let n = before(s, '\n');
    if s.len() == 0 {
        Seq::empty()
    } else if n >= s.len() {
        seq![s]
    } else {
        seq![without_cr(s.take(n as int))] + lines_of(s.skip(n as int + 1))
    }
}

/// A line without a carriage return at its end.
pub open spec fn without_cr(s: Seq<char>) -> Seq<char> {
    if s.len() > 0 && s.last() == '\r' {
        s.drop_last()
    } else {
        s
    }
}

/// The lines of `s`.
pub fn lines(s: &str) -> (out: Vec<String>)
    ensures
        views(out@) == lines_of(s@),
{
    let cs: Vec<char> = chars(s);
    let mut out: Vec<String> = Vec::new();
    let mut i: usize = 0;
    assert(cs@.skip(0) =~= cs@);
    assert(views(out@) + lines_of(cs@) =~= lines_of(cs@));
    while i < cs.len()
        invariant
            i <= cs@.len(),
            cs@ == s@,
            lines_of(s@) == views(out@) + lines_of(cs@.skip(i as int)),
        decreases cs@.len() - i,
    {
        let at: usize = find_char(&cs, i, '\n');
        let ghost rest = cs@.skip(i as int);
        let ghost before_out = views(out@);
        if at == cs.len() {
            out.push(collect(&cs, i, at));
            assert(cs@.subrange(i as int, at as int) =~= rest);
            assert(views(out@) =~= before_out + seq![rest]);
            assert(cs@.skip(at as int) =~= Seq::<char>::empty());
            assert(views(out@) + lines_of(cs@.skip(at as int)) =~= views(out@));
            i = at;
        } else {
            let end: usize = if at > i && cs[at - 1] == '\r' { at - 1 } else { at };
            out.push(collect(&cs, i, end));
            assert(rest.take(at - i) =~= cs@.subrange(i as int, at as int));
            assert(without_cr(rest.take(at - i)) =~= cs@.subrange(i as int, end as int));
            assert(rest.skip(at - i + 1) =~= cs@.skip(at + 1));
            assert(views(out@) =~= before_out.push(without_cr(rest.take(at - i))));
            assert(before_out + (seq![without_cr(rest.take(at - i))] + lines_of(cs@.skip(at + 1))) =~= views(out@)
                + lines_of(cs@.skip(at + 1)));
            i = at + 1;
        }
    }
    assert(views(out@) + lines_of(cs@.skip(i as int)) =~= views(out@));
    out
}

/// The lines that are not blank, each trimmed.
pub open spec fn names_of(lines: Seq<Seq<char>>) -> Seq<Seq<char>>
    decreases lines.len(),
{
    if lines.len() == 0 {
        Seq::empty()
    } else if trimmed(lines.last()).len() == 0 {
        names_of(lines.drop_last())
    } else {
        names_of(lines.drop_last()).push(trimmed(lines.last()))
    }
}

/// The non-blank lines of `s`, each trimmed.
pub fn name_list(s: &str) -> (out: Vec<String>)
    ensures
        views(out@) == names_of(lines_of(s@)),
{
    let ls: Vec<String> = lines(s);
    let ghost whole = views(ls@);
    let mut out: Vec<String> = Vec::new();
    let mut i: usize = 0;
    assert(views(out@) =~= names_of(whole.take(0)));
    while i < ls.len()
        invariant
            i <= ls@.len(),
            whole == views(ls@),
            views(out@) == names_of(whole.take(i as int)),
        decreases ls@.len() - i,
    {
        assert(whole.take(i + 1).drop_last() =~= whole.take(i as int));
        assert(whole.take(i + 1).last() == ls@[i as int]@);
        let t = trim(ls[i].as_str());
        if !t.as_str().is_empty() {
            let ghost before_out = views(out@);
            out.push(t);
            assert(views(out@) =~= before_out.push(t@));
        }
        i += 1;
    }
    assert(whole.take(whole.len() as int) =~= whole);
    out
}

/// How many characters of `s` stand before its first white space.
pub open spec fn word_len(s: Seq<char>) -> nat
    decreases s.len(),
{
    if s.len() == 0 || white_space(s[0]) {
        0
    } else {
        1 + word_len(s.skip(1))
    }
}

/// The first run of characters that are no white space; empty if there is
/// none.
pub open spec fn first_word_of(s: Seq<char>) -> Seq<char> {
    let t = crate::text::trim_start_of(s);
    t.take(word_len(t) as int)
}

/// The first word of `s`.
pub fn first_word(s: &str) -> (out: String)
    ensures
        out@ == first_word_of(s@),
{
    let cs: Vec<char> = chars(s);
    let mut a: usize = 0;
    assert(s@.skip(0) =~= s@);
    while a < cs.len() && is_whitespace(cs[a])
        invariant
            a <= cs@.len(),
            cs@ == s@,
            crate::text::trim_start_of(s@) == crate::text::trim_start_of(s@.skip(a as int)),
        ensures
            a <= cs@.len(),
            crate::text::trim_start_of(s@) == s@.skip(a as int),
        decreases cs@.len() - a,
    {
        assert(s@.skip(a as int).skip(1) =~= s@.skip(a + 1));
        a += 1;
    }
    let ghost t = s@.skip(a as int);
    let mut b: usize = a;
    assert(t.skip(0) =~= t);
    while b < cs.len() && !is_whitespace(cs[b])
        invariant
            a <= b <= cs@.len(),
            cs@ == s@,
            t == s@.skip(a as int),
            word_len(t) == (b - a) + word_len(t.skip(b - a)),
        ensures
            a <= b <= cs@.len(),
            word_len(t) == b - a,
        decreases cs@.len() - b,
    {
        assert(t.skip(b - a)[0] == cs@[b as int]);
        assert(t.skip(b - a).skip(1) =~= t.skip(b - a + 1));
        b += 1;
        proof {
            if b < cs.len() {
                assert(t.skip(b - a)[0] == cs@[b as int]);
            }
        }
    }
    assert(cs@.subrange(a as int, b as int) =~= t.take(b - a));
    collect(&cs, a, b)
}

/// Every occurrence of `from` replaced by `to`, left to right.
pub open spec fn replaced(s: Seq<char>, from: Seq<char>, to: Seq<char>) -> Seq<char>
    decreases s.len(),
{
    if s.len() == 0 {
        s
    } else if from.len() > 0 && from.is_prefix_of(s) {
        to + replaced(s.skip(from.len() as int), from, to)
    } else {
        seq![s[0]] + replaced(s.skip(1), from, to)
    }
}

/// Replace every occurrence of `from` in `s` by `to`.
pub fn replace(s: &str, from: &str, to: &str) -> (out: String)
    requires
        from@.len() > 0,
    ensures
        out@ == replaced(s@, from@, to@),
{
    let cs: Vec<char> = chars(s);
    let fs: Vec<char> = chars(from);
    let mut out = String::new();
    let mut i: usize = 0;
    assert(cs@.skip(0) =~= cs@);
    assert(out@ + replaced(cs@, from@, to@) =~= replaced(cs@, from@, to@));
    while i < cs.len()
        invariant
            i <= cs@.len(),
            cs@ == s@,
            fs@ == from@,
            from@.len() > 0,
            replaced(s@, from@, to@) == out@ + replaced(cs@.skip(i as int), from@, to@),
        decreases cs@.len() - i,
    {
        let ghost rest = cs@.skip(i as int);
        let ghost before_out = out@;
        if starts_at(&cs, i, &fs) {
            out.append(to);
            assert(rest.skip(from@.len() as int) =~= cs@.skip(i + from@.len()));
            assert(before_out + (to@ + replaced(cs@.skip(i + from@.len()), from@, to@)) =~= out@ + replaced(
                cs@.skip(i + from@.len()),
                from@,
                to@,
            ));
            i += fs.len();
        } else {
            out.push(cs[i]);
            assert(rest.skip(1) =~= cs@.skip(i + 1));
            assert(before_out + (seq![rest[0]] + replaced(cs@.skip(i + 1), from@, to@)) =~= out@ + replaced(
                cs@.skip(i + 1),
                from@,
                to@,
            ));
            i += 1;
        }
    }
    assert(out@ + replaced(cs@.skip(i as int), from@, to@) =~= out@);
    out
}

/// Whether `needle` stands somewhere in `hay`.
pub open spec fn holds(hay: Seq<char>, needle: Seq<char>) -> bool {
    exists|i: int| 0 <= i <= hay.len() && #[trigger] needle.is_prefix_of(hay.skip(i))
}

/// Whether `needle` stands somewhere in `hay`.
pub fn contains_text(hay: &str, needle: &str) -> (yes: bool)
    ensures
        yes == holds(hay@, needle@),
{
    let cs: Vec<char> = chars(hay);
    let ns: Vec<char> = chars(needle);
    let mut i: usize = 0;
    while i < cs.len()
        invariant
            i <= cs@.len(),
            cs@ == hay@,
            ns@ == needle@,
            forall|k: int| 0 <= k < i ==> !#[trigger] needle@.is_prefix_of(hay@.skip(k)),
        decreases cs@.len() - i,
    {
        if starts_at(&cs, i, &ns) {
            return true;
        }
        i += 1;
    }
    starts_at(&cs, i, &ns)
}

/// Whether `a` comes before `b` in the order of their characters.
pub open spec fn text_less(a: Seq<char>, b: Seq<char>) -> bool
    decreases a.len(),
{
    if b.len() == 0 {
        false
    } else if a.len() == 0 {
        true
    } else if a[0] != b[0] {
        a[0] < b[0]
    } else {
        text_less(a.skip(1), b.skip(1))
    }
}

/// Whether `a` comes before `b` in the order of their characters.
pub fn comes_before(a: &str, b: &str) -> (yes: bool)
    ensures
        yes == text_less(a@, b@),
{
    let x: Vec<char> = chars(a);
    let y: Vec<char> = chars(b);
    let mut i: usize = 0;
    assert(a@.skip(0) =~= a@);
    assert(b@.skip(0) =~= b@);
    while i < x.len() && i < y.len()
        invariant
            i <= x@.len(),
            i <= y@.len(),
            x@ == a@,
            y@ == b@,
            text_less(a@, b@) == text_less(a@.skip(i as int), b@.skip(i as int)),
        decreases x@.len() - i,
    {
        assert(a@.skip(i as int).skip(1) =~= a@.skip(i + 1));
        assert(b@.skip(i as int).skip(1) =~= b@.skip(i + 1));
        if x[i] != y[i] {
            return x[i] < y[i];
        }
        i += 1;
    }
    i < y.len()
}

/// The order of texts is strict: nothing comes before itself, and of two
/// different texts exactly one comes first.
pub proof fn text_less_is_strict(a: Seq<char>, b: Seq<char>)
    ensures
        !text_less(a, a),
        a != b ==> (text_less(a, b) != text_less(b, a)),
    decreases a.len(),
{
    if a.len() > 0 {
        text_less_is_strict(a.skip(1), if b.len() > 0 { b.skip(1) } else { b });
        if b.len() > 0 && a[0] == b[0] && a.skip(1) == b.skip(1) {
            assert(a =~= seq![a[0]] + a.skip(1));
            assert(b =~= seq![b[0]] + b.skip(1));
        }
    } else if b.len() == 0 {
        assert(a =~= b);
    }
}

/// The order of texts is transitive.
pub proof fn text_less_chains(a: Seq<char>, b: Seq<char>, c: Seq<char>)
    requires
        text_less(a, b),
        text_less(b, c),
    ensures
        text_less(a, c),
    decreases a.len(),
{
    if a.len() > 0 && b.len() > 0 && c.len() > 0 && a[0] == b[0] && b[0] == c[0] {
        text_less_chains(a.skip(1), b.skip(1), c.skip(1));
    }
}

} // verus!
