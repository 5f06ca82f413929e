//! OSC 8 hyperlinks from the embedded terminal to the real one.
//!
//! A cell of the screen is a symbol and a style, and the screen's diff sizes a
//! cell by its symbol's display width. So a linked cell carries its URL in
//! characters that have no width: U+E0001 LANGUAGE TAG, then the URL spelled
//! in the tag block (U+E0020–U+E007E mirror printable ASCII). A changed link
//! still changes the cell, so the diff redraws it, and [`draw_steps`] turns
//! the tags back into OSC 8 around the character on the way out. Emoji tag
//! sequences (flags) have no language tag and pass through untouched.
use vstd::prelude::*;
use vstd::string::*;
use vstd::utf8::*;

use crate::text::{cat3, chars, opt_view, own, same};

verus! {

/// Marks the start of a cell's link.
pub const MARK: char = '\u{E0001}';

/// The tag block starts here.
pub const TAG_BASE: u32 = 0xE0000;

/// `char::from_u32` gives the character of that scalar value, and `None` for a
/// number that is none.
pub assume_specification[ char::from_u32 ](i: u32) -> (c: Option<char>)
    ensures
        is_scalar(i) ==> c == Some(i as char),
        !is_scalar(i) ==> c is None,
;

/// The tag character that mirrors a byte.
pub open spec fn tag(b: u8) -> char {
    (TAG_BASE + b) as char
}

/// The upper-case hexadecimal digit of `n`.
pub open spec fn hex_digit(n: u8) -> u8 {
    if n < 10 {
        (0x30 + n) as u8
    } else {
        (0x37 + n) as u8
    }
}

/// Bytes that stand for themselves in a link: printable ASCII but the space.
pub open spec fn printable(b: u8) -> bool {
    0x21 <= b < 0x7f
}

/// A byte as it is spelled in a link: itself, or `%` and two hexadecimal
/// digits.
pub open spec fn spelled(b: u8) -> Seq<u8> {
    if printable(b) {
        seq![b]
    } else {
        seq![0x25u8, hex_digit(b / 16), hex_digit(b % 16)]
    }
}

/// A run of bytes as it is spelled in a link.
pub open spec fn spelled_all(bytes: Seq<u8>) -> Seq<u8>
    decreases bytes.len(),
{
    if bytes.len() == 0 {
        Seq::empty()
    } else {
        spelled_all(bytes.drop_last()) + spelled(bytes.last())
    }
}

/// Bytes mirrored in the tag block.
pub open spec fn tags(bytes: Seq<u8>) -> Seq<char> {
    Seq::new(bytes.len(), |i: int| tag(bytes[i]))
}

/// Bytes as the characters of the same number.
pub open spec fn byte_chars(bytes: Seq<u8>) -> Seq<char> {
    Seq::new(bytes.len(), |i: int| bytes[i] as char)
}

/// The link that a URL becomes: its bytes, percent-encoded where needed.
pub open spec fn link_of(uri: Seq<char>) -> Seq<char> {
    byte_chars(spelled_all(encode_utf8(uri)))
}

/// A symbol with a link attached.
pub open spec fn marked(symbol: Seq<char>, uri: Seq<char>) -> Seq<char> {
    symbol.push(MARK) + tags(spelled_all(encode_utf8(uri)))
}

/// Append the tag of `b`.
fn push_tag(symbol: &mut String, b: u8)
    ensures
        final(symbol)@ == old(symbol)@.push(tag(b)),
{
    let c = char::from_u32(TAG_BASE + b as u32);
    if let Some(t) = c {
        assert(t == tag(b));
        symbol.push(t);
    }
}

/// Tags of a longer run.
proof fn tags_push(bytes: Seq<u8>, b: u8)
    ensures
        tags(bytes.push(b)) == tags(bytes).push(tag(b)),
{
    assert(tags(bytes.push(b)) =~= tags(bytes).push(tag(b)));
}

/// Attach `uri` to a cell's symbol. Characters outside printable ASCII are
/// percent-encoded, which also keeps a hostile URL from carrying escapes.
pub fn mark(symbol: &mut String, uri: &str)
    ensures
        final(symbol)@ == marked(old(symbol)@, uri@),
{
    symbol.push(MARK);
    let ghost base = symbol@;
    let bytes: Vec<u8> = uri.as_bytes_vec();
    assert(bytes@ == encode_utf8(uri@));
    let mut i: usize = 0;
    assert(base + tags(spelled_all(bytes@.take(0))) =~= base);
    while i < bytes.len()
        invariant
            i <= bytes@.len(),
            symbol@ == base + tags(spelled_all(bytes@.take(i as int))),
        decreases bytes@.len() - i,
    {
        let b: u8 = bytes[i];
        let ghost done = spelled_all(bytes@.take(i as int));
        assert(bytes@.take(i + 1).drop_last() =~= bytes@.take(i as int));
        if 0x21 <= b && b < 0x7f {
            push_tag(symbol, b);
            assert(done + spelled(b) =~= done.push(b));
            proof {
                tags_push(done, b);
            }
        } else {
            let hi: u8 = b / 16;
            let lo: u8 = b % 16;
            let h: u8 = if hi < 10 { 0x30 + hi } else { 0x37 + hi };
            let l: u8 = if lo < 10 { 0x30 + lo } else { 0x37 + lo };
            push_tag(symbol, 0x25);
            push_tag(symbol, h);
            push_tag(symbol, l);
            assert(done + spelled(b) =~= done.push(0x25u8).push(h).push(l));
            proof {
                tags_push(done, 0x25u8);
                tags_push(done.push(0x25u8), h);
                tags_push(done.push(0x25u8).push(h), l);
            }
        }
        assert(symbol@ =~= base + tags(done + spelled(b)));
        i += 1;
    }
    assert(bytes@.take(bytes@.len() as int) =~= bytes@);
}

/// Where the first mark of `s` stands; its length if there is none.
pub open spec fn mark_at(s: Seq<char>) -> nat
    decreases s.len(),
{
    if s.len() == 0 || s[0] == MARK {
        0
    } else {
        1 + mark_at(s.skip(1))
    }
}

/// The characters a run of tags mirrors; what is no tag is dropped.
pub open spec fn untagged(s: Seq<char>) -> Seq<char>
    decreases s.len(),
{
    if s.len() == 0 {
        Seq::empty()
    } else if TAG_BASE <= s.last() as u32 <= TAG_BASE + 0xff {
        untagged(s.drop_last()).push((s.last() as u32 - TAG_BASE) as char)
    } else {
        untagged(s.drop_last())
    }
}

/// A symbol without its link.
pub open spec fn text_part(symbol: Seq<char>) -> Seq<char> {
    symbol.take(mark_at(symbol) as int)
}

/// The link of a symbol.
pub open spec fn link_part(symbol: Seq<char>) -> Option<Seq<char>> {
    if mark_at(symbol) < symbol.len() {
        Some(untagged(symbol.skip(mark_at(symbol) as int + 1)))
    } else {
        None
    }
}

/// A mark stands in the symbol, or nowhere.
proof fn mark_at_fits(s: Seq<char>)
    ensures
        mark_at(s) <= s.len(),
    decreases s.len(),
{
    if s.len() > 0 {
        mark_at_fits(s.skip(1));
    }
}

/// A cell's symbol without its link, and the link.
pub fn split(symbol: &str) -> (r: (&str, Option<String>))
    ensures
        r.0@ == text_part(symbol@),
        opt_view(r.1) == link_part(symbol@),
{
    let cs: Vec<char> = chars(symbol);
    let mut at: usize = 0;
    assert(symbol@.skip(0) =~= symbol@);
    while at < cs.len() && cs[at] != MARK
        invariant
            at <= cs@.len(),
            cs@ == symbol@,
            mark_at(symbol@) == at + mark_at(symbol@.skip(at as int)),
        decreases cs@.len() - at,
    {
        assert(symbol@.skip(at as int)[0] == cs@[at as int]);
        assert(symbol@.skip(at as int).skip(1) =~= symbol@.skip(at + 1));
        at += 1;
    }
    assert(mark_at(symbol@) == at) by {
        if at < cs.len() {
            assert(symbol@.skip(at as int)[0] == cs@[at as int]);
        }
    }
    let text = symbol.substring_char(0, at);
    assert(text@ =~= text_part(symbol@));
    if at == cs.len() {
        return (text, None);
    }
    let mut uri = String::new();
    let mut i: usize = at + 1;
    let ghost rest = symbol@.skip(at + 1);
    assert(uri@ =~= untagged(rest.take(0)));
    while i < cs.len()
        invariant
            at + 1 <= i <= cs@.len(),
            cs@ == symbol@,
            rest == symbol@.skip(at + 1),
            uri@ == untagged(rest.take(i - at - 1)),
        decreases cs@.len() - i,
    {
        let c: u32 = cs[i] as u32;
        assert(rest.take(i - at).drop_last() =~= rest.take(i - at - 1));
        assert(rest.take(i - at).last() == cs@[i as int]);
        if c >= TAG_BASE && c <= TAG_BASE + 0xff {
            let b: u8 = (c - TAG_BASE) as u8;
            uri.push(b as char);
        }
        i += 1;
    }
    assert(rest.take(rest.len() as int) =~= rest);
    (text, Some(uri))
}

/// Tags mirror back to the bytes they were made of.
proof fn untagged_tags(bytes: Seq<u8>)
    ensures
        untagged(tags(bytes)) == byte_chars(bytes),
    decreases bytes.len(),
{
    if bytes.len() == 0 {
        assert(untagged(tags(bytes)) =~= byte_chars(bytes));
    } else {
        let init = bytes.drop_last();
        untagged_tags(init);
        assert(bytes =~= init.push(bytes.last()));
        tags_push(init, bytes.last());
        assert(tags(bytes).drop_last() =~= tags(init));
        assert(tags(bytes).last() == tag(bytes.last()));
        assert(byte_chars(bytes) =~= byte_chars(init).push(bytes.last() as char));
    }
}

/// The first mark of a text without one, followed by a mark, is that mark.
proof fn mark_at_end(s: Seq<char>, rest: Seq<char>)
    requires
        forall|i: int| 0 <= i < s.len() ==> #[trigger] s[i] != MARK,
    ensures
        mark_at(s.push(MARK) + rest) == s.len(),
    decreases s.len(),
{
    let whole = s.push(MARK) + rest;
    if s.len() > 0 {
        assert(s[0] != MARK);
        assert(whole.skip(1) =~= s.skip(1).push(MARK) + rest);
        assert forall|i: int| 0 <= i < s.skip(1).len() implies #[trigger] s.skip(1)[i] != MARK by {
            assert(s[i + 1] != MARK);
        }
        mark_at_end(s.skip(1), rest);
    }
}

/// A link round-trips: splitting a marked symbol gives back the symbol and the
/// link that was attached to it, percent-encoded where needed.
pub proof fn a_link_round_trips(symbol: Seq<char>, uri: Seq<char>)
    requires
        forall|i: int| 0 <= i < symbol.len() ==> #[trigger] symbol[i] != MARK,
    ensures
        text_part(marked(symbol, uri)) == symbol,
        link_part(marked(symbol, uri)) == Some(link_of(uri)),
{
    let bytes = spelled_all(encode_utf8(uri));
    mark_at_end(symbol, tags(bytes));
    assert(text_part(marked(symbol, uri)) =~= symbol);
    assert(marked(symbol, uri).skip(symbol.len() as int + 1) =~= tags(bytes));
    untagged_tags(bytes);
}

/// A symbol without a mark has no link and is its own text.
pub proof fn unmarked_is_untouched(symbol: Seq<char>)
    requires
        forall|i: int| 0 <= i < symbol.len() ==> #[trigger] symbol[i] != MARK,
    ensures
        text_part(symbol) == symbol,
        link_part(symbol) is None,
{
    mark_at_end(symbol, Seq::empty());
    no_mark(symbol);
    assert(text_part(symbol) =~= symbol);
}

/// Without a mark the search runs to the end.
proof fn no_mark(s: Seq<char>)
    requires
        forall|i: int| 0 <= i < s.len() ==> #[trigger] s[i] != MARK,
    ensures
        mark_at(s) == s.len(),
    decreases s.len(),
{
    if s.len() > 0 {
        assert(s[0] != MARK);
        assert forall|i: int| 0 <= i < s.skip(1).len() implies #[trigger] s.skip(1)[i] != MARK by {
            assert(s[i + 1] != MARK);
        }
        no_mark(s.skip(1));
    }
}

/// Whatever the URL holds, its link is printable ASCII: no escape, no control
/// and no space gets through.
pub proof fn links_are_printable(uri: Seq<char>)
    ensures
        forall|i: int| 0 <= i < link_of(uri).len() ==> '\u{21}' <= #[trigger] link_of(uri)[i] <= '\u{7e}',
{
    let bytes = encode_utf8(uri);
    spelled_all_printable(bytes);
    assert forall|i: int| 0 <= i < link_of(uri).len() implies '\u{21}' <= #[trigger] link_of(uri)[i] <= '\u{7e}' by {
        assert(printable(spelled_all(bytes)[i]));
    }
}

/// Spelling yields printable bytes only.
proof fn spelled_all_printable(bytes: Seq<u8>)
    ensures
        forall|i: int| 0 <= i < spelled_all(bytes).len() ==> printable(#[trigger] spelled_all(bytes)[i]),
    decreases bytes.len(),
{
    if bytes.len() > 0 {
        spelled_all_printable(bytes.drop_last());
        let init = spelled_all(bytes.drop_last());
        let b = bytes.last();
        assert forall|i: int| 0 <= i < spelled_all(bytes).len() implies printable(
            #[trigger] spelled_all(bytes)[i],
        ) by {
            if i < init.len() {
                assert(spelled_all(bytes)[i] == init[i]);
                assert(printable(init[i]));
            } else {
                assert(spelled_all(bytes)[i] == spelled(b)[i - init.len()]);
            }
        }
    }
}

/// A URL of printable ASCII is its own link.
pub proof fn printable_urls_stay(uri: Seq<char>)
    requires
        forall|i: int| 0 <= i < uri.len() ==> '\u{21}' <= #[trigger] uri[i] <= '\u{7e}',
    ensures
        link_of(uri) == uri,
{
    assert(is_ascii_chars(uri));
    is_ascii_chars_encode_utf8(uri);
    let bytes = encode_utf8(uri);
    assert forall|i: int| 0 <= i < bytes.len() implies printable(#[trigger] bytes[i]) by {
        assert('\u{21}' <= uri[i] <= '\u{7e}');
    }
    spelled_all_stays(bytes);
    assert(link_of(uri) =~= uri);
}

/// Printable bytes are spelled as they are.
proof fn spelled_all_stays(bytes: Seq<u8>)
    requires
        forall|i: int| 0 <= i < bytes.len() ==> printable(#[trigger] bytes[i]),
    ensures
        spelled_all(bytes) == bytes,
    decreases bytes.len(),
{
    if bytes.len() > 0 {
        let init = bytes.drop_last();
        assert forall|i: int| 0 <= i < init.len() implies printable(#[trigger] init[i]) by {
            assert(printable(bytes[i]));
        }
        spelled_all_stays(init);
        assert(printable(bytes[bytes.len() - 1]));
        assert(init + seq![bytes.last()] =~= bytes);
    } else {
        assert(spelled_all(bytes) =~= bytes);
    }
}

// ── Drawing ──────────────────────────────────────────────────────────────────

/// One step of drawing a row of cells: cells `from..to`, drawn with the given
/// texts inside the link, or as they are when there is none.
#[derive(Debug)]
pub struct LinkRun {
    pub from: usize,
    pub to: usize,
    pub link: Option<String>,
    /// What to write before the cells: opens the link.
    pub open: String,
    /// The cells' texts without their links.
    pub texts: Vec<String>,
    /// What to write after the cells: closes the link.
    pub close: String,
}

/// The link of cell `i`.
pub open spec fn cell_link(symbols: Seq<String>, i: int) -> Option<Seq<char>> {
    link_part(symbols[i]@)
}

/// What one run does with its cells.
pub open spec fn run_ok(symbols: Seq<String>, r: LinkRun) -> bool {
    &&& r.from < r.to <= symbols.len()
    &&& forall|i: int| r.from <= i < r.to ==> #[trigger] cell_link(symbols, i) == opt_view(r.link)
    &&& r.texts@.len() == r.to - r.from
    &&& forall|i: int| 0 <= i < r.texts@.len() ==> #[trigger] r.texts@[i]@ == text_part(symbols[r.from + i]@)
    &&& r.open@ == (match r.link {
        Some(uri) => "\x1b]8;;"@ + uri@ + "\x1b\\"@,
        None => ""@,
    })
    &&& r.close@ == (match r.link {
        Some(uri) => "\x1b]8;;\x1b\\"@,
        None => ""@,
    })
}

/// Runs that cover cells `0..n`, in order, each as long as it can be.
pub open spec fn runs_ok(symbols: Seq<String>, runs: Seq<LinkRun>, n: int) -> bool {
    &&& forall|k: int| 0 <= k < runs.len() ==> run_ok(symbols, #[trigger] runs[k])
    &&& runs.len() == 0 ==> n == 0
    &&& runs.len() > 0 ==> runs[0].from == 0 && runs.last().to == n
    &&& forall|k: int|
        0 < k < runs.len() ==> (#[trigger] runs[k]).from == runs[k - 1].to && opt_view(runs[k].link) != opt_view(
            runs[k - 1].link,
        )
}

/// Whether two links are the same.
fn same_link(a: &Option<String>, b: &Option<String>) -> (eq: bool)
    ensures
        eq == (opt_view(*a) == opt_view(*b)),
{
    match (a, b) {
        (Some(x), Some(y)) => same(x.as_str(), y.as_str()),
        (None, None) => true,
        _ => false,
    }
}

/// A backend that writes the links [`mark`] put in cells as OSC 8. Everything
/// else goes to the wrapped backend unchanged.
#[derive(Debug)]
pub struct LinkBackend<B> {
    pub inner: B,
}

impl<B> LinkBackend<B> {
    /// Wrap `inner`.
    pub fn new(inner: B) -> (b: LinkBackend<B>)
        ensures
            b.inner == inner,
    {
        LinkBackend { inner }
    }
}

/// Runs of cells sharing a link (or none), each drawn on its own so the link
/// opens before its first cell and closes after its last.
pub fn draw_steps(symbols: &Vec<String>) -> (runs: Vec<LinkRun>)
    ensures
        runs_ok(symbols@, runs@, symbols@.len() as int),
{
    let mut runs: Vec<LinkRun> = Vec::new();
    let mut i: usize = 0;
    while i < symbols.len()
        invariant
            i <= symbols@.len(),
            runs_ok(symbols@, runs@, i as int),
            i < symbols@.len() && runs@.len() > 0 ==> cell_link(symbols@, i as int) != opt_view(runs@.last().link),
        decreases symbols@.len() - i,
    {
        let (first, link) = split(symbols[i].as_str());
        let mut texts: Vec<String> = Vec::new();
        texts.push(own(first));
        let mut j: usize = i + 1;
        assert(cell_link(symbols@, i as int) == opt_view(link));
        while j < symbols.len()
            invariant_except_break
                texts@.len() == j - i,
            invariant
                i < j <= symbols@.len(),
                texts@.len() == j - i,
                forall|k: int| i <= k < j ==> #[trigger] cell_link(symbols@, k) == opt_view(link),
                forall|k: int| 0 <= k < texts@.len() ==> #[trigger] texts@[k]@ == text_part(symbols@[i + k]@),
            ensures
                j < symbols@.len() ==> cell_link(symbols@, j as int) != opt_view(link),
            decreases symbols@.len() - j,
        {
            let (text, next) = split(symbols[j].as_str());
            assert(cell_link(symbols@, j as int) == opt_view(next));
            if !same_link(&next, &link) {
                break;
            }
            texts.push(own(text));
            j += 1;
        }
        let open = match &link {
            Some(uri) => cat3("\x1b]8;;", uri.as_str(), "\x1b\\"),
            None => own(""),
        };
        let close = match &link {
            Some(_) => own("\x1b]8;;\x1b\\"),
            None => own(""),
        };
        let ghost before = runs@;
        runs.push(LinkRun { from: i, to: j, link, open, texts, close });
        assert(forall|k: int| 0 <= k < before.len() ==> runs@[k] == before[k]);
        i = j;
    }
    runs
}

/// Two cells drawn in one run share their link: a link never spreads to a
/// neighbour.
pub proof fn runs_keep_links_apart(symbols: Seq<String>, runs: Seq<LinkRun>, k: int, a: int, b: int)
    requires
        runs_ok(symbols, runs, symbols.len() as int),
        0 <= k < runs.len(),
        runs[k].from <= a < runs[k].to,
        runs[k].from <= b < runs[k].to,
    ensures
        cell_link(symbols, a) == cell_link(symbols, b),
{
    assert(run_ok(symbols, runs[k]));
}

/// A link stands behind its symbol: first the symbol, then the mark, then one
/// tag character for each byte, the byte's number above the tags' start.
pub proof fn links_stand_behind_the_symbol(symbol: Seq<char>, uri: Seq<char>, i: int)
    ensures
        0 <= i < symbol.len() ==> marked(symbol, uri)[i] == symbol[i],
        marked(symbol, uri)[symbol.len() as int] as u32 == 0xE0001,
        marked(symbol, uri).len() == symbol.len() + 1 + link_of(uri).len(),
        0 <= i < link_of(uri).len() ==> marked(symbol, uri)[symbol.len() + 1 + i] as u32 == 0xE0000 + (link_of(
            uri,
        )[i] as u32),
{
    if 0 <= i < link_of(uri).len() {
        let b = spelled_all(encode_utf8(uri))[i];
        assert(marked(symbol, uri)[symbol.len() + 1 + i] == tag(b));
        assert(link_of(uri)[i] == b as char);
    }
}

/// A printable byte spells itself and any other its two hexadecimal digits
/// behind a percent sign.
pub proof fn bytes_are_spelled_in_hex(b: u8)
    ensures
        0x21 <= b < 0x7f ==> spelled(b) == seq![b],
        !(0x21 <= b < 0x7f) ==> spelled(b).len() == 3 && spelled(b)[0] == 0x25,
        !(0x21 <= b < 0x7f) && b / 16 < 10 ==> spelled(b)[1] == 0x30 + b / 16,
        !(0x21 <= b < 0x7f) && b / 16 >= 10 ==> spelled(b)[1] == 0x41 + b / 16 - 10,
        !(0x21 <= b < 0x7f) && b % 16 < 10 ==> spelled(b)[2] == 0x30 + b % 16,
        !(0x21 <= b < 0x7f) && b % 16 >= 10 ==> spelled(b)[2] == 0x41 + b % 16 - 10,
{
}

} // verus!
