//! What goes to and comes from the embedded terminal: keys and mouse events
//! as the bytes a terminal sends, and a scanner that picks bells and
//! clipboard writes out of the program's output.
use vstd::prelude::*;
use vstd::string::*;
use vstd::utf8::*;

use crate::input::{KeyCode, KeyEvent, KeyModifiers, MouseButton, MouseEvent, MouseEventKind};

verus! {

// ── Output scanner ───────────────────────────────────────────────────────────

/// What `String::from_utf8_lossy` returns.
pub uninterp spec fn lossy(bytes: Seq<u8>) -> Seq<char>;

/// `String::from_utf8_lossy`, by name; bytes that are UTF-8 are decoded as
/// such.
#[verifier::external_body]
pub(crate) fn from_utf8_lossy(bytes: &[u8]) -> (s: String)
    ensures
        s@ == lossy(bytes@),
        valid_utf8(bytes@) ==> s@ == decode_utf8(bytes@),
{
    String::from_utf8_lossy(bytes).into_owned()
}

/// Where the scanner stands in an escape sequence.
#[derive(Debug, Clone, Copy, PartialEq, Eq, Structural)]
pub enum Scan {
    Ground,
    Esc,
    Osc,
    OscEsc,
    /// DCS/SOS/PM/APC: skipped until ST.
    Str,
    StrEsc,
}

/// Picks two things out of the raw output that the emulator swallows: a
/// real BEL (not one terminating an OSC string) and OSC 52 clipboard writes.
/// Robust to sequences split across reads.
#[derive(Debug)]
pub struct Scanner {
    pub state: Scan,
    pub osc: Vec<u8>,
}

/// What a stretch of output held.
#[derive(Debug)]
pub struct Seen {
    pub bell: bool,
    pub clipboard: Vec<String>,
}

/// A scanner's state and what it has seen so far.
#[verifier::ext_equal]
pub struct ScanView {
    pub state: Scan,
    pub osc: Seq<u8>,
    pub bell: bool,
    pub clipboard: Seq<Seq<char>>,
}

/// Longest OSC string that is kept.
pub const OSC_CAP: usize = 1048576;

/// The start of a clipboard write, after the OSC introducer: `52;`.
pub open spec fn clipboard_prefix() -> Seq<u8> {
    seq![0x35u8, 0x32u8, 0x3bu8]
}

/// A finished OSC string that writes the clipboard: `52;…`, but not a query,
/// which ends in `;?`.
pub open spec fn is_clipboard_write(osc: Seq<u8>) -> bool {
    &&& clipboard_prefix().is_prefix_of(osc)
    &&& !seq![0x3bu8, 0x3fu8].is_suffix_of(osc.skip(3))
}

/// The end of an OSC string: a clipboard write is noted, the string dropped.
pub open spec fn osc_end(v: ScanView) -> ScanView {
    ScanView {
        state: Scan::Ground,
        osc: Seq::empty(),
        clipboard: if is_clipboard_write(v.osc) {
            v.clipboard.push(lossy(v.osc.skip(3)))
        } else {
            v.clipboard
        },
        ..v
    }
}

/// One byte of output.
pub open spec fn scan_byte(v: ScanView, b: u8) -> ScanView {
    match v.state {
        Scan::Ground => if b == 0x07 {
            ScanView { bell: true, ..v }
        } else if b == 0x1b {
            ScanView { state: Scan::Esc, ..v }
        } else {
            v
        },
        Scan::Esc => if b == 0x5d {
            ScanView { state: Scan::Osc, osc: Seq::empty(), ..v }
        } else if b == 0x50 || b == 0x58 || b == 0x5e || b == 0x5f {
            ScanView { state: Scan::Str, ..v }
        } else if b == 0x1b {
            v
        } else {
            ScanView { state: Scan::Ground, ..v }
        },
        Scan::Osc => if b == 0x07 {
            osc_end(v)
        } else if b == 0x1b {
            ScanView { state: Scan::OscEsc, ..v }
        } else if v.osc.len() < OSC_CAP {
            ScanView { osc: v.osc.push(b), ..v }
        } else {
            v
        },
        Scan::OscEsc => if b == 0x5c {
            osc_end(v)
        } else {
            ScanView { state: Scan::Ground, ..v }
        },
        Scan::Str => if b == 0x1b {
            ScanView { state: Scan::StrEsc, ..v }
        } else {
            v
        },
        Scan::StrEsc => if b == 0x5c {
            ScanView { state: Scan::Ground, ..v }
        } else {
            ScanView { state: Scan::Str, ..v }
        },
    }
}

/// A stretch of output, byte by byte.
pub open spec fn scan_bytes(v: ScanView, data: Seq<u8>) -> ScanView
    decreases data.len(),
{
    if data.len() == 0 {
        v
    } else {
        scan_byte(scan_bytes(v, data.drop_last()), data.last())
    }
}

/// Feeding output in two pieces is feeding it whole: nothing depends on where
/// a read ends.
pub proof fn scan_splits_anywhere(v: ScanView, a: Seq<u8>, b: Seq<u8>)
    ensures
        scan_bytes(v, a + b) == scan_bytes(scan_bytes(v, a), b),
    decreases b.len(),
{
    if b.len() == 0 {
        assert(a + b =~= a);
    } else {
        assert((a + b).drop_last() =~= a + b.drop_last());
        scan_splits_anywhere(v, a, b.drop_last());
    }
}

/// The string kept never outgrows its cap.
pub proof fn scan_stays_capped(v: ScanView, data: Seq<u8>)
    requires
        v.osc.len() <= OSC_CAP,
    ensures
        scan_bytes(v, data).osc.len() <= OSC_CAP,
    decreases data.len(),
{
    if data.len() > 0 {
        scan_stays_capped(v, data.drop_last());
    }
}

/// A bell that ends an OSC string is not a bell, whatever the string.
pub proof fn osc_terminator_is_no_bell(v: ScanView)
    requires
        v.state == Scan::Osc,
    ensures
        scan_byte(v, 0x07).bell == v.bell,
        scan_byte(v, 0x07).state == Scan::Ground,
{
}

impl Default for Scanner {
    /// A scanner at the start of the output.
    fn default() -> (s: Scanner)
        ensures
            s.state == Scan::Ground,
            s.osc@ == Seq::<u8>::empty(),
    {
        Scanner { state: Scan::Ground, osc: Vec::new() }
    }
}

impl Scanner {
    /// The scanner's state, with what was seen in `seen`.
    pub open spec fn with_seen(&self, seen: Seen) -> ScanView {
        ScanView {
            state: self.state,
            osc: self.osc@,
            bell: seen.bell,
            clipboard: crate::text::views(seen.clipboard@),
        }
    }

    /// The scanner's state with nothing seen.
    pub open spec fn fresh(&self) -> ScanView {
        ScanView { state: self.state, osc: self.osc@, bell: false, clipboard: Seq::empty() }
    }

    /// Scan the next stretch of output.
    pub fn feed(&mut self, data: &[u8]) -> (seen: Seen)
        ensures
            final(self).with_seen(seen) == scan_bytes(old(self).fresh(), data@),
    {
        let mut seen = Seen { bell: false, clipboard: Vec::new() };
        let mut i: usize = 0;
        assert(self.with_seen(seen) =~= old(self).fresh());
        while i < data.len()
            invariant
                i <= data@.len(),
                self.with_seen(seen) == scan_bytes(old(self).fresh(), data@.take(i as int)),
            decreases data@.len() - i,
        {
            let b: u8 = data[i];
            let ghost v = self.with_seen(seen);
            assert(data@.take(i + 1).drop_last() =~= data@.take(i as int));
            match self.state {
                Scan::Ground => {
                    if b == 0x07 {
                        seen.bell = true;
                    } else if b == 0x1b {
                        self.state = Scan::Esc;
                    }
                },
                Scan::Esc => {
                    if b == 0x5d {
                        self.osc.clear();
                        self.state = Scan::Osc;
                    } else if b == 0x50 || b == 0x58 || b == 0x5e || b == 0x5f {
                        self.state = Scan::Str;
                    } else if b != 0x1b {
                        self.state = Scan::Ground;
                    }
                },
                Scan::Osc => {
                    if b == 0x07 {
                        self.finish(&mut seen);
                        self.state = Scan::Ground;
                    } else if b == 0x1b {
                        self.state = Scan::OscEsc;
                    } else if self.osc.len() < OSC_CAP {
                        self.osc.push(b);
                    }
                },
                Scan::OscEsc => {
                    if b == 0x5c {
                        self.finish(&mut seen);
                    }
                    self.state = Scan::Ground;
                },
                Scan::Str => {
                    if b == 0x1b {
                        self.state = Scan::StrEsc;
                    }
                },
                Scan::StrEsc => {
                    self.state = if b == 0x5c {
                        Scan::Ground
                    } else {
                        Scan::Str
                    };
                },
            }
            assert(self.with_seen(seen) =~= scan_byte(v, b));
            i += 1;
        }
        assert(data@.take(data@.len() as int) =~= data@);
        seen
    }

    /// The OSC string is complete: note a clipboard write, drop the string.
    fn finish(&mut self, seen: &mut Seen)
        ensures
            final(self).state == old(self).state,
            final(self).osc@ == Seq::<u8>::empty(),
            final(seen).bell == old(seen).bell,
            crate::text::views(final(seen).clipboard@) == (if is_clipboard_write(old(self).osc@) {
                crate::text::views(old(seen).clipboard@).push(lossy(old(self).osc@.skip(3)))
            } else {
                crate::text::views(old(seen).clipboard@)
            }),
    {
        let n: usize = self.osc.len();
        let prefixed: bool = n >= 3 && self.osc[0] == 0x35 && self.osc[1] == 0x32 && self.osc[2] == 0x3b;
        assert(prefixed == clipboard_prefix().is_prefix_of(self.osc@)) by {
            if prefixed {
                assert(clipboard_prefix() =~= self.osc@.subrange(0, 3));
            } else if clipboard_prefix().is_prefix_of(self.osc@) {
                let p = self.osc@.subrange(0, 3);
                assert(p[0] == self.osc@[0] && p[1] == self.osc@[1] && p[2] == self.osc@[2]);
            }
        }
        if prefixed {
            let query: bool = n >= 5 && self.osc[n - 2] == 0x3b && self.osc[n - 1] == 0x3f;
            let ghost rest = self.osc@.skip(3);
            assert(query == seq![0x3bu8, 0x3fu8].is_suffix_of(rest)) by {
                if query {
                    assert(seq![0x3bu8, 0x3fu8] =~= rest.subrange(rest.len() - 2, rest.len() as int));
                } else if seq![0x3bu8, 0x3fu8].is_suffix_of(rest) {
                    let p = rest.subrange(rest.len() - 2, rest.len() as int);
                    assert(p[0] == rest[rest.len() - 2] && p[1] == rest[rest.len() - 1]);
                }
            }
            if !query {
                let ghost before = seen.clipboard@;
                let payload = vstd::slice::slice_subrange(self.osc.as_slice(), 3, n);
                assert(payload@ =~= rest);
                seen.clipboard.push(from_utf8_lossy(payload));
                assert(crate::text::views(seen.clipboard@) =~= crate::text::views(before).push(lossy(rest)));
            }
        }
        self.osc.clear();
    }
}

// ── Input encoding ───────────────────────────────────────────────────────────

/// xterm's modifier parameter: 1 + shift(1) + alt(2) + ctrl(4).
#[verifier::allow_in_spec]
pub fn modifier(m: KeyModifiers) -> u8
    returns
        (1 + (if m.shift { 1int } else { 0 }) + (if m.alt { 2int } else { 0 }) + (if m.control { 4int } else {
            0
        })) as u8,
{
    let shift: u8 = if m.shift { 1 } else { 0 };
    let alt: u8 = if m.alt { 2 } else { 0 };
    let control: u8 = if m.control { 4 } else { 0 };
    1 + shift + alt + control
}

/// Whether one of the three modifiers that xterm reports is held.
pub open spec fn modified(m: KeyModifiers) -> bool {
    m.shift || m.alt || m.control
}

/// A number in decimal, as bytes.
pub open spec fn number_bytes(n: nat) -> Seq<u8>
    decreases n,
{
    if n < 10 {
        seq![(0x30 + n) as u8]
    } else {
        number_bytes(n / 10).push((0x30 + n % 10) as u8)
    }
}

/// Append `n` in decimal.
fn push_number(out: &mut Vec<u8>, n: u32)
    ensures
        final(out)@ == old(out)@ + number_bytes(n as nat),
    decreases n,
{
    if n < 10 {
        out.push(0x30 + n as u8);
        assert(out@ =~= old(out)@ + seq![(0x30 + n) as u8]);
    } else {
        push_number(out, n / 10);
        out.push(0x30 + (n % 10) as u8);
        assert(out@ =~= old(out)@ + number_bytes(n as nat));
    }
}

/// Append one byte.
fn push_byte(out: &mut Vec<u8>, b: u8)
    ensures
        final(out)@ == old(out)@ + seq![b],
{
    out.push(b);
    assert(out@ =~= old(out)@ + seq![b]);
}

/// `ESC [ 1 ; m code` when modified, else `ESC O code` for a program in
/// cursor-key mode and `ESC [ code` for any other.
pub open spec fn cursor_bytes(m: KeyModifiers, app_cursor: bool, code: u8) -> Seq<u8> {
    if modified(m) {
        seq![0x1bu8, 0x5b, 0x31, 0x3b, (0x30 + modifier(m)) as u8, code]
    } else if app_cursor {
        seq![0x1bu8, 0x4f, code]
    } else {
        seq![0x1bu8, 0x5b, code]
    }
}

/// `ESC [ n ; m ~` when modified, else `ESC [ n ~`.
pub open spec fn tilde_bytes(m: KeyModifiers, n: u8) -> Seq<u8> {
    if modified(m) {
        seq![0x1bu8, 0x5b] + number_bytes(n as nat) + seq![0x3bu8, (0x30 + modifier(m)) as u8, 0x7eu8]
    } else {
        seq![0x1bu8, 0x5b] + number_bytes(n as nat) + seq![0x7eu8]
    }
}

/// `bytes`, with an escape in front when Alt is held.
pub open spec fn alt_bytes(alt: bool, bytes: Seq<u8>) -> Seq<u8> {
    if alt {
        seq![0x1bu8] + bytes
    } else {
        bytes
    }
}

/// The control byte of a character: `a` to `z` in either case, and the few
/// signs that have one.
pub open spec fn control_byte(c: char) -> Option<u8> {
    if 'a' <= c <= 'z' {
        Some((c as u8 - 0x60) as u8)
    } else if 'A' <= c <= 'Z' {
        Some((c as u8 - 0x40) as u8)
    } else if c == ' ' || c == '@' {
        Some(0u8)
    } else if c == '[' {
        Some(0x1bu8)
    } else if c == '\\' {
        Some(0x1cu8)
    } else if c == ']' {
        Some(0x1du8)
    } else if c == '^' {
        Some(0x1eu8)
    } else if c == '_' || c == '/' {
        Some(0x1fu8)
    } else {
        None
    }
}

/// The number of a function key from F5 to F12 in its `~` sequence.
pub open spec fn function_number(n: u8) -> u8 {
    if n == 5 {
        15
    } else if n <= 10 {
        (n + 11) as u8
    } else {
        (n + 12) as u8
    }
}

/// A key as the bytes a terminal would send; `None` for a key that has none.
pub open spec fn key_bytes(key: KeyEvent, app_cursor: bool) -> Option<Seq<u8>> {
    let m = key.modifiers;
    match key.code {
        KeyCode::Char(c) => if m.control {
            match control_byte(c) {
                Some(b) => Some(alt_bytes(m.alt, seq![b])),
                None => None,
            }
        } else {
            Some(alt_bytes(m.alt, encode_utf8(seq![c])))
        },
        KeyCode::Enter => Some(alt_bytes(m.alt, seq![0x0du8])),
        KeyCode::Backspace => Some(alt_bytes(m.alt, seq![0x7fu8])),
        KeyCode::Tab => Some(seq![0x09u8]),
        KeyCode::BackTab => Some(seq![0x1bu8, 0x5b, 0x5a]),
        KeyCode::Esc => Some(seq![0x1bu8]),
        KeyCode::Up => Some(cursor_bytes(m, app_cursor, 0x41)),
        KeyCode::Down => Some(cursor_bytes(m, app_cursor, 0x42)),
        KeyCode::Right => Some(cursor_bytes(m, app_cursor, 0x43)),
        KeyCode::Left => Some(cursor_bytes(m, app_cursor, 0x44)),
        KeyCode::Home => Some(cursor_bytes(m, app_cursor, 0x48)),
        KeyCode::End => Some(cursor_bytes(m, app_cursor, 0x46)),
        KeyCode::Insert => Some(tilde_bytes(m, 2)),
        KeyCode::Delete => Some(tilde_bytes(m, 3)),
        KeyCode::PageUp => Some(tilde_bytes(m, 5)),
        KeyCode::PageDown => Some(tilde_bytes(m, 6)),
        KeyCode::F(n) => if 1 <= n <= 4 {
            Some(cursor_bytes(m, true, (0x4f + n) as u8))
        } else if 5 <= n <= 12 {
            Some(tilde_bytes(m, function_number(n)))
        } else {
            None
        },
        KeyCode::Other => None,
    }
}

/// See [`cursor_bytes`].
fn cursor_seq(m: KeyModifiers, app_cursor: bool, code: u8) -> (out: Vec<u8>)
    ensures
        out@ == cursor_bytes(m, app_cursor, code),
{
    let mut out: Vec<u8> = Vec::new();
    out.push(0x1b);
    if m.shift || m.alt || m.control {
        out.push(0x5b);
        out.push(0x31);
        out.push(0x3b);
        out.push(0x30 + modifier(m));
    } else if app_cursor {
        out.push(0x4f);
    } else {
        out.push(0x5b);
    }
    out.push(code);
    assert(out@ =~= cursor_bytes(m, app_cursor, code));
    out
}

/// See [`tilde_bytes`].
fn tilde_seq(m: KeyModifiers, n: u8) -> (out: Vec<u8>)
    ensures
        out@ == tilde_bytes(m, n),
{
    let mut out: Vec<u8> = Vec::new();
    out.push(0x1b);
    out.push(0x5b);
    assert(out@ =~= seq![0x1bu8, 0x5b]);
    push_number(&mut out, n as u32);
    if m.shift || m.alt || m.control {
        out.push(0x3b);
        out.push(0x30 + modifier(m));
    }
    out.push(0x7e);
    assert(out@ =~= tilde_bytes(m, n));
    out
}

/// See [`alt_bytes`], of one byte.
fn alt_byte(alt: bool, b: u8) -> (out: Vec<u8>)
    ensures
        out@ == alt_bytes(alt, seq![b]),
{
    let mut out: Vec<u8> = Vec::new();
    if alt {
        out.push(0x1b);
    }
    out.push(b);
    assert(out@ =~= alt_bytes(alt, seq![b]));
    out
}

/// A key as the bytes a terminal would send. `app_cursor`: the program set
/// DECCKM (nvim, less…), so plain arrows are `ESC O x` not `ESC [ x`.
pub fn encode_key(key: &KeyEvent, app_cursor: bool) -> (bytes: Option<Vec<u8>>)
    ensures
        match (bytes, key_bytes(*key, app_cursor)) {
            (Some(a), Some(b)) => a@ == b,
            (None, None) => true,
            _ => false,
        },
{
    let m = key.modifiers;
    Some(
        match key.code {
            KeyCode::Char(c) => {
                if m.control {
                    let base: u8 = if 'a' <= c && c <= 'z' {
                        c as u8 - 0x60
                    } else if 'A' <= c && c <= 'Z' {
                        c as u8 - 0x40
                    } else if c == ' ' || c == '@' {
                        0
                    } else if c == '[' {
                        0x1b
                    } else if c == '\\' {
                        0x1c
                    } else if c == ']' {
                        0x1d
                    } else if c == '^' {
                        0x1e
                    } else if c == '_' || c == '/' {
                        0x1f
                    } else {
                        return None;
                    };
                    alt_byte(m.alt, base)
                } else {
                    let mut s = String::new();
                    s.push(c);
                    assert(s@ =~= seq![c]);
                    let mut out: Vec<u8> = Vec::new();
                    if m.alt {
                        out.push(0x1b);
                    }
                    let mut utf8: Vec<u8> = s.as_str().as_bytes_vec();
                    let ghost bytes = utf8@;
                    out.append(&mut utf8);
                    assert(out@ =~= alt_bytes(m.alt, bytes));
                    out
                }
            },
            KeyCode::Enter => alt_byte(m.alt, 0x0d),
            KeyCode::Backspace => alt_byte(m.alt, 0x7f),
            KeyCode::Tab => alt_byte(false, 0x09),
            KeyCode::BackTab => cursor_seq(KeyModifiers::none(), false, 0x5a),
            KeyCode::Esc => alt_byte(false, 0x1b),
            KeyCode::Up => cursor_seq(m, app_cursor, 0x41),
            KeyCode::Down => cursor_seq(m, app_cursor, 0x42),
            KeyCode::Right => cursor_seq(m, app_cursor, 0x43),
            KeyCode::Left => cursor_seq(m, app_cursor, 0x44),
            KeyCode::Home => cursor_seq(m, app_cursor, 0x48),
            KeyCode::End => cursor_seq(m, app_cursor, 0x46),
            KeyCode::Insert => tilde_seq(m, 2),
            KeyCode::Delete => tilde_seq(m, 3),
            KeyCode::PageUp => tilde_seq(m, 5),
            KeyCode::PageDown => tilde_seq(m, 6),
            KeyCode::F(n) => {
                if 1 <= n && n <= 4 {
                    cursor_seq(m, true, 0x4f + n)
                } else if 5 <= n && n <= 12 {
                    let number: u8 = if n == 5 {
                        15
                    } else if n <= 10 {
                        n + 11
                    } else {
                        n + 12
                    };
                    tilde_seq(m, number)
                } else {
                    return None;
                }
            },
            KeyCode::Other => {
                return None;
            },
        },
    )
}

/// The button's number in a mouse report.
#[verifier::allow_in_spec]
pub fn button_code(b: MouseButton) -> u8
    returns
        (match b {
            MouseButton::Left => 0u8,
            MouseButton::Middle => 1u8,
            MouseButton::Right => 2u8,
        }),
{
    match b {
        MouseButton::Left => 0u8,
        MouseButton::Middle => 1u8,
        MouseButton::Right => 2u8,
    }
}

/// The event's number in a mouse report, modifiers added.
pub open spec fn mouse_code(m: MouseEvent) -> int {
    let base = match m.kind {
        MouseEventKind::Down(b) => button_code(b) as int,
        MouseEventKind::Up(b) => button_code(b) as int,
        MouseEventKind::Drag(b) => button_code(b) + 32,
        MouseEventKind::Moved => 35,
        MouseEventKind::ScrollUp => 64,
        MouseEventKind::ScrollDown => 65,
        MouseEventKind::ScrollLeft => 66,
        MouseEventKind::ScrollRight => 67,
    };
    base + (if m.modifiers.shift { 4int } else { 0 }) + (if m.modifiers.alt { 8int } else { 0 }) + (if m.modifiers.control {
        16int
    } else {
        0
    })
}

/// `ESC [ < b ; x ; y M`, or `m` for a release; cells count from one.
pub open spec fn mouse_bytes(m: MouseEvent, col: u16, row: u16) -> Seq<u8> {
    seq![0x1bu8, 0x5b, 0x3c] + number_bytes(mouse_code(m) as nat) + seq![0x3bu8] + number_bytes((col + 1) as nat)
        + seq![0x3bu8] + number_bytes((row + 1) as nat) + seq![if m.kind is Up { 0x6du8 } else { 0x4du8 }]
}

/// An SGR mouse report (`ESC [ < b ; x ; y M/m`), 1-based.
pub fn encode_mouse(m: &MouseEvent, col: u16, row: u16) -> (bytes: Option<Vec<u8>>)
    requires
        col < u16::MAX,
        row < u16::MAX,
    ensures
        bytes is Some,
        bytes->0@ == mouse_bytes(*m, col, row),
{
    let (button, release): (u32, bool) = match m.kind {
        MouseEventKind::Down(b) => (button_code(b) as u32, false),
        MouseEventKind::Up(b) => (button_code(b) as u32, true),
        MouseEventKind::Drag(b) => (button_code(b) as u32 + 32, false),
        MouseEventKind::Moved => (35, false),
        MouseEventKind::ScrollUp => (64, false),
        MouseEventKind::ScrollDown => (65, false),
        MouseEventKind::ScrollLeft => (66, false),
        MouseEventKind::ScrollRight => (67, false),
    };
    let mut b: u32 = button;
    if m.modifiers.shift {
        b += 4;
    }
    if m.modifiers.alt {
        b += 8;
    }
    if m.modifiers.control {
        b += 16;
    }
    let mut out: Vec<u8> = Vec::new();
    out.push(0x1b);
    out.push(0x5b);
    out.push(0x3c);
    assert(out@ =~= seq![0x1bu8, 0x5b, 0x3c]);
    push_number(&mut out, b);
    push_byte(&mut out, 0x3b);
    push_number(&mut out, col as u32 + 1);
    push_byte(&mut out, 0x3b);
    push_number(&mut out, row as u32 + 1);
    let end: u8 = if release { 0x6d } else { 0x4d };
    push_byte(&mut out, end);
    Some(out)
}

/// The bytes of pasted text: as it is, or between the marks a program that
/// asked for them looks for.
pub open spec fn paste_bytes(text: Seq<char>, bracketed: bool) -> Seq<u8> {
    if bracketed {
        seq![0x1bu8, 0x5b, 0x32, 0x30, 0x30, 0x7e] + encode_utf8(text) + seq![0x1bu8, 0x5b, 0x32, 0x30, 0x31, 0x7e]
    } else {
        encode_utf8(text)
    }
}

/// Pasted text as the bytes to send.
pub fn encode_paste(text: &str, bracketed: bool) -> (out: Vec<u8>)
    ensures
        out@ == paste_bytes(text@, bracketed),
{
    let mut out: Vec<u8> = Vec::new();
    if bracketed {
        out.push(0x1b);
        out.push(0x5b);
        out.push(0x32);
        out.push(0x30);
        out.push(0x30);
        out.push(0x7e);
    }
    let mut utf8: Vec<u8> = text.as_bytes_vec();
    out.append(&mut utf8);
    if bracketed {
        out.push(0x1b);
        out.push(0x5b);
        out.push(0x32);
        out.push(0x30);
        out.push(0x31);
        out.push(0x7e);
    }
    assert(out@ =~= paste_bytes(text@, bracketed));
    out
}

/// Where the screen's cursor belongs (absolute cell) when the program shows it
/// at (`row`, `col`) of a screen painted into `area`.
pub open spec fn cursor_cell(area: crate::input::Rect, hidden: bool, row: u16, col: u16) -> Option<(int, int)> {
    if !hidden && row < area.height && col < area.width {
        Some((area.x + col, area.y + row))
    } else {
        None
    }
}

/// See [`cursor_cell`]. The area lies on a screen: its far corner is a cell
/// that can be named.
pub fn cursor_at(area: crate::input::Rect, hidden: bool, row: u16, col: u16) -> (cell: Option<(u16, u16)>)
    requires
        area.x + area.width <= u16::MAX,
        area.y + area.height <= u16::MAX,
    ensures
        match (cell, cursor_cell(area, hidden, row, col)) {
            (Some(a), Some(b)) => a.0 == b.0 && a.1 == b.1,
            (None, None) => true,
            _ => false,
        },
{
    if !hidden && row < area.height && col < area.width {
        Some((area.x + col, area.y + row))
    } else {
        None
    }
}

/// The cursor keys send xterm's sequences: `ESC [` and the key's letter, `ESC
/// O` and the same letter for a program in cursor-key mode, and with modifiers
/// `ESC [ 1 ;`, their number and the same letter in either mode.
pub proof fn cursor_keys_send_their_letters(m: KeyModifiers, app_cursor: bool)
    ensures
        !m.shift && !m.alt && !m.control && !app_cursor ==> {
            &&& key_bytes(KeyEvent { code: KeyCode::Up, modifiers: m }, app_cursor) == Some(seq![0x1bu8, 0x5b, 0x41])
            &&& key_bytes(KeyEvent { code: KeyCode::Down, modifiers: m }, app_cursor) == Some(seq![0x1bu8, 0x5b, 0x42])
            &&& key_bytes(KeyEvent { code: KeyCode::Right, modifiers: m }, app_cursor) == Some(
                seq![0x1bu8, 0x5b, 0x43],
            )
            &&& key_bytes(KeyEvent { code: KeyCode::Left, modifiers: m }, app_cursor) == Some(seq![0x1bu8, 0x5b, 0x44])
            &&& key_bytes(KeyEvent { code: KeyCode::Home, modifiers: m }, app_cursor) == Some(seq![0x1bu8, 0x5b, 0x48])
            &&& key_bytes(KeyEvent { code: KeyCode::End, modifiers: m }, app_cursor) == Some(seq![0x1bu8, 0x5b, 0x46])
        },
        !m.shift && !m.alt && !m.control && app_cursor ==> {
            &&& key_bytes(KeyEvent { code: KeyCode::Up, modifiers: m }, app_cursor) == Some(seq![0x1bu8, 0x4f, 0x41])
            &&& key_bytes(KeyEvent { code: KeyCode::Down, modifiers: m }, app_cursor) == Some(seq![0x1bu8, 0x4f, 0x42])
            &&& key_bytes(KeyEvent { code: KeyCode::Right, modifiers: m }, app_cursor) == Some(
                seq![0x1bu8, 0x4f, 0x43],
            )
            &&& key_bytes(KeyEvent { code: KeyCode::Left, modifiers: m }, app_cursor) == Some(seq![0x1bu8, 0x4f, 0x44])
            &&& key_bytes(KeyEvent { code: KeyCode::Home, modifiers: m }, app_cursor) == Some(seq![0x1bu8, 0x4f, 0x48])
            &&& key_bytes(KeyEvent { code: KeyCode::End, modifiers: m }, app_cursor) == Some(seq![0x1bu8, 0x4f, 0x46])
        },
        m.shift || m.alt || m.control ==> {
            let n = (0x31 + (if m.shift { 1int } else { 0 }) + (if m.alt { 2int } else { 0 }) + (if m.control {
                4int
            } else {
                0
            })) as u8;
            &&& key_bytes(KeyEvent { code: KeyCode::Up, modifiers: m }, app_cursor) == Some(
                seq![0x1bu8, 0x5b, 0x31, 0x3b, n, 0x41],
            )
            &&& key_bytes(KeyEvent { code: KeyCode::Down, modifiers: m }, app_cursor) == Some(
                seq![0x1bu8, 0x5b, 0x31, 0x3b, n, 0x42],
            )
            &&& key_bytes(KeyEvent { code: KeyCode::Right, modifiers: m }, app_cursor) == Some(
                seq![0x1bu8, 0x5b, 0x31, 0x3b, n, 0x43],
            )
            &&& key_bytes(KeyEvent { code: KeyCode::Left, modifiers: m }, app_cursor) == Some(
                seq![0x1bu8, 0x5b, 0x31, 0x3b, n, 0x44],
            )
            &&& key_bytes(KeyEvent { code: KeyCode::Home, modifiers: m }, app_cursor) == Some(
                seq![0x1bu8, 0x5b, 0x31, 0x3b, n, 0x48],
            )
            &&& key_bytes(KeyEvent { code: KeyCode::End, modifiers: m }, app_cursor) == Some(
                seq![0x1bu8, 0x5b, 0x31, 0x3b, n, 0x46],
            )
        },
{
}

/// The first four function keys send `ESC O P` to `ESC O S`, in either mode;
/// with modifiers `ESC [ 1 ;`, their number and the same letter.
pub proof fn function_keys_send_their_letters(n: u8, m: KeyModifiers, app_cursor: bool)
    requires
        1 <= n <= 4,
    ensures
        ({
            let letter = if n == 1 {
                0x50u8
            } else if n == 2 {
                0x51u8
            } else if n == 3 {
                0x52u8
            } else {
                0x53u8
            };
            let bytes = key_bytes(KeyEvent { code: KeyCode::F(n), modifiers: m }, app_cursor);
            &&& !m.shift && !m.alt && !m.control ==> bytes == Some(seq![0x1bu8, 0x4f, letter])
            &&& m.shift || m.alt || m.control ==> bytes == Some(
                seq![
                    0x1bu8,
                    0x5b,
                    0x31,
                    0x3b,
                    (0x31 + (if m.shift { 1int } else { 0 }) + (if m.alt { 2int } else { 0 }) + (if m.control {
                        4int
                    } else {
                        0
                    })) as u8,
                    letter,
                ],
            )
        }),
{
}

/// Whether a key sends `ESC [`, these digits and `~`, and with modifiers `;`
/// and their number before the `~`.
pub open spec fn sends_tilde(code: KeyCode, m: KeyModifiers, app_cursor: bool, digits: Seq<u8>) -> bool {
    let held = (if m.shift { 1int } else { 0 }) + (if m.alt { 2int } else { 0 }) + (if m.control { 4int } else { 0 });
    key_bytes(KeyEvent { code, modifiers: m }, app_cursor) == Some(
        if held == 0 {
            seq![0x1bu8, 0x5b] + digits + seq![0x7eu8]
        } else {
            seq![0x1bu8, 0x5b] + digits + seq![0x3bu8, (0x31 + held) as u8, 0x7eu8]
        },
    )
}

/// The editing keys and the function keys from the fifth on send xterm's
/// numbers; there is no thirteenth, and a key without a sequence sends none.
pub proof fn numbered_keys_send_their_numbers(m: KeyModifiers, app_cursor: bool, n: u8)
    ensures
        sends_tilde(KeyCode::Insert, m, app_cursor, seq![0x32u8]),
        sends_tilde(KeyCode::Delete, m, app_cursor, seq![0x33u8]),
        sends_tilde(KeyCode::PageUp, m, app_cursor, seq![0x35u8]),
        sends_tilde(KeyCode::PageDown, m, app_cursor, seq![0x36u8]),
        sends_tilde(KeyCode::F(5), m, app_cursor, seq![0x31u8, 0x35]),
        sends_tilde(KeyCode::F(6), m, app_cursor, seq![0x31u8, 0x37]),
        sends_tilde(KeyCode::F(7), m, app_cursor, seq![0x31u8, 0x38]),
        sends_tilde(KeyCode::F(8), m, app_cursor, seq![0x31u8, 0x39]),
        sends_tilde(KeyCode::F(9), m, app_cursor, seq![0x32u8, 0x30]),
        sends_tilde(KeyCode::F(10), m, app_cursor, seq![0x32u8, 0x31]),
        sends_tilde(KeyCode::F(11), m, app_cursor, seq![0x32u8, 0x33]),
        sends_tilde(KeyCode::F(12), m, app_cursor, seq![0x32u8, 0x34]),
        n == 0 || n > 12 ==> key_bytes(KeyEvent { code: KeyCode::F(n), modifiers: m }, app_cursor) is None,
        key_bytes(KeyEvent { code: KeyCode::Other, modifiers: m }, app_cursor) is None,
{
    reveal_with_fuel(number_bytes, 3);
    assert(number_bytes(2) =~= seq![0x32u8]);
    assert(number_bytes(3) =~= seq![0x33u8]);
    assert(number_bytes(5) =~= seq![0x35u8]);
    assert(number_bytes(6) =~= seq![0x36u8]);
    assert(number_bytes(15) =~= seq![0x31u8, 0x35]);
    assert(number_bytes(17) =~= seq![0x31u8, 0x37]);
    assert(number_bytes(18) =~= seq![0x31u8, 0x38]);
    assert(number_bytes(19) =~= seq![0x31u8, 0x39]);
    assert(number_bytes(20) =~= seq![0x32u8, 0x30]);
    assert(number_bytes(21) =~= seq![0x32u8, 0x31]);
    assert(number_bytes(23) =~= seq![0x32u8, 0x33]);
    assert(number_bytes(24) =~= seq![0x32u8, 0x34]);
}

/// The keys with a byte of their own send it whatever the mode: carriage
/// return, delete, tab and escape; the tab back sends `ESC [ Z`.
pub proof fn plain_keys_send_their_bytes(m: KeyModifiers, app_cursor: bool)
    ensures
        !m.alt ==> key_bytes(KeyEvent { code: KeyCode::Enter, modifiers: m }, app_cursor) == Some(seq![0x0du8]),
        !m.alt ==> key_bytes(KeyEvent { code: KeyCode::Backspace, modifiers: m }, app_cursor) == Some(seq![0x7fu8]),
        key_bytes(KeyEvent { code: KeyCode::Tab, modifiers: m }, app_cursor) == Some(seq![0x09u8]),
        key_bytes(KeyEvent { code: KeyCode::Esc, modifiers: m }, app_cursor) == Some(seq![0x1bu8]),
        key_bytes(KeyEvent { code: KeyCode::BackTab, modifiers: m }, app_cursor) == Some(seq![0x1bu8, 0x5b, 0x5a]),
{
}

/// A character typed without Ctrl and Alt sends bytes that decode to it.
pub proof fn characters_send_themselves(c: char, m: KeyModifiers, app_cursor: bool)
    requires
        !m.control,
        !m.alt,
    ensures
        key_bytes(KeyEvent { code: KeyCode::Char(c), modifiers: m }, app_cursor) matches Some(bytes) && decode_utf8(
            bytes,
        ) == seq![c],
{
    broadcast use encode_utf8_decode_utf8;

}

/// Ctrl and a letter send the letter's place in the alphabet, in either case;
/// the few signs send the bytes after the last letter, and the space none's.
pub proof fn control_letters_send_their_place(c: char, m: KeyModifiers, app_cursor: bool)
    requires
        m.control,
        !m.alt,
    ensures
        ({
            let bytes = key_bytes(KeyEvent { code: KeyCode::Char(c), modifiers: m }, app_cursor);
            &&& 'a' <= c <= 'z' ==> bytes == Some(seq![(1 + (c as u32 - 'a' as u32)) as u8])
            &&& 'A' <= c <= 'Z' ==> bytes == Some(seq![(1 + (c as u32 - 'A' as u32)) as u8])
            &&& c == ' ' || c == '@' ==> bytes == Some(seq![0u8])
            &&& c == '[' ==> bytes == Some(seq![27u8])
            &&& c == '\\' ==> bytes == Some(seq![28u8])
            &&& c == ']' ==> bytes == Some(seq![29u8])
            &&& c == '^' ==> bytes == Some(seq![30u8])
            &&& c == '_' || c == '/' ==> bytes == Some(seq![31u8])
            &&& c < ' ' || ' ' < c < '/' || '0' <= c < '@' || c == '`' || c > 'z' ==> bytes is None
        }),
{
}

/// Alt puts an escape before what the key sends without it.
pub proof fn alt_puts_an_escape_before(code: KeyCode, m: KeyModifiers, app_cursor: bool)
    requires
        code is Char || code is Enter || code is Backspace,
        m.alt,
    ensures
        match key_bytes(KeyEvent { code, modifiers: KeyModifiers { alt: false, ..m } }, app_cursor) {
            Some(bytes) => key_bytes(KeyEvent { code, modifiers: m }, app_cursor) == Some(seq![0x1bu8] + bytes),
            None => key_bytes(KeyEvent { code, modifiers: m }, app_cursor) is None,
        },
{
}

/// What a run of decimal digits says.
pub open spec fn read_number(digits: Seq<u8>) -> int
    decreases digits.len(),
{
    if digits.len() == 0 {
        0
    } else {
        read_number(digits.drop_last()) * 10 + (digits.last() - 0x30)
    }
}

/// A number is written in decimal digits that read back as it, the first of
/// them no zero but for zero itself.
pub proof fn numbers_read_back(n: nat)
    ensures
        read_number(number_bytes(n)) == n,
        number_bytes(n).len() > 0,
        forall|i: int| 0 <= i < number_bytes(n).len() ==> 0x30 <= #[trigger] number_bytes(n)[i] <= 0x39,
        n > 0 ==> number_bytes(n)[0] != 0x30,
    decreases n,
{
    let s = number_bytes(n);
    if n < 10 {
        assert(s.drop_last() =~= Seq::<u8>::empty());
        assert(read_number(s.drop_last()) == 0);
    } else {
        numbers_read_back(n / 10);
        assert(s.drop_last() =~= number_bytes(n / 10));
        assert forall|i: int| 0 <= i < s.len() implies 0x30 <= #[trigger] s[i] <= 0x39 by {
            if i < s.len() - 1 {
                assert(s[i] == number_bytes(n / 10)[i]);
            }
        }
        assert(s[0] == number_bytes(n / 10)[0]);
    }
}

/// A mouse report names the button, the column and the row, both counted from
/// one, between `ESC [ <` and `M`, or `m` for a release: 0, 1 and 2 for the
/// left, middle and right button, 32 more for a drag, 35 for a bare move, 64
/// and on for the wheel; 4, 8 and 16 more for shift, alt and control.
pub proof fn mouse_reports_name_what_happened(m: MouseEvent, col: u16, row: u16)
    ensures
        ({
            let held = (if m.modifiers.shift { 4int } else { 0 }) + (if m.modifiers.alt { 8int } else { 0 }) + (
            if m.modifiers.control {
                16int
            } else {
                0
            });
            let number = held + match m.kind {
                MouseEventKind::Down(MouseButton::Left) => 0int,
                MouseEventKind::Down(MouseButton::Middle) => 1,
                MouseEventKind::Down(MouseButton::Right) => 2,
                MouseEventKind::Up(MouseButton::Left) => 0,
                MouseEventKind::Up(MouseButton::Middle) => 1,
                MouseEventKind::Up(MouseButton::Right) => 2,
                MouseEventKind::Drag(MouseButton::Left) => 32,
                MouseEventKind::Drag(MouseButton::Middle) => 33,
                MouseEventKind::Drag(MouseButton::Right) => 34,
                MouseEventKind::Moved => 35,
                MouseEventKind::ScrollUp => 64,
                MouseEventKind::ScrollDown => 65,
                MouseEventKind::ScrollLeft => 66,
                MouseEventKind::ScrollRight => 67,
            };
            let bytes = mouse_bytes(m, col, row);
            let b = number_bytes(number as nat);
            let x = number_bytes((col + 1) as nat);
            let y = number_bytes((row + 1) as nat);
            &&& bytes.take(3) == seq![0x1bu8, 0x5b, 0x3c]
            &&& bytes.skip(3) == b + seq![0x3bu8] + x + seq![0x3bu8] + y + seq![bytes.last()]
            &&& bytes.last() == 0x6d <==> m.kind is Up
            &&& bytes.last() == 0x4d <==> !(m.kind is Up)
            &&& read_number(b) == number
            &&& read_number(x) == col + 1
            &&& read_number(y) == row + 1
        }),
{
    let number = mouse_code(m);
    numbers_read_back(number as nat);
    numbers_read_back((col + 1) as nat);
    numbers_read_back((row + 1) as nat);
    let bytes = mouse_bytes(m, col, row);
    let b = number_bytes(number as nat);
    let x = number_bytes((col + 1) as nat);
    let y = number_bytes((row + 1) as nat);
    assert(bytes.take(3) =~= seq![0x1bu8, 0x5b, 0x3c]);
    assert(bytes.skip(3) =~= b + seq![0x3bu8] + x + seq![0x3bu8] + y + seq![bytes.last()]);
}

/// A paste is the text itself; a program that asked for it gets the same bytes
/// between `ESC [ 200 ~` and `ESC [ 201 ~`.
pub proof fn pastes_carry_the_text(text: Seq<char>)
    ensures
        decode_utf8(paste_bytes(text, false)) == text,
        paste_bytes(text, true).take(6) == seq![0x1bu8, 0x5b, 0x32, 0x30, 0x30, 0x7e],
        paste_bytes(text, true).subrange(6, paste_bytes(text, true).len() - 6) == paste_bytes(text, false),
        paste_bytes(text, true).skip(paste_bytes(text, true).len() - 6) == seq![0x1bu8, 0x5b, 0x32, 0x30, 0x31, 0x7e],
        paste_bytes(text, true).len() == paste_bytes(text, false).len() + 12,
{
    broadcast use encode_utf8_decode_utf8;

    let whole = paste_bytes(text, true);
    assert(whole.take(6) =~= seq![0x1bu8, 0x5b, 0x32, 0x30, 0x30, 0x7e]);
    assert(whole.subrange(6, whole.len() - 6) =~= paste_bytes(text, false));
    assert(whole.skip(whole.len() - 6) =~= seq![0x1bu8, 0x5b, 0x32, 0x30, 0x31, 0x7e]);
}

/// The cursor stands in the area as far from its corner as the program put it
/// from the screen's, while shown and inside; else nowhere.
pub proof fn the_cursor_keeps_its_place(area: crate::input::Rect, hidden: bool, row: u16, col: u16)
    ensures
        cursor_cell(area, hidden, row, col) is Some <==> !hidden && row < area.height && col < area.width,
        cursor_cell(area, hidden, row, col) matches Some((x, y)) ==> x - area.x == col && y - area.y == row,
{
}

/// Output between sequences is passed over: only a bell is noted there.
pub proof fn plain_output_rings_only_on_a_bell(v: ScanView, data: Seq<u8>)
    requires
        v.state == Scan::Ground,
        forall|i: int| 0 <= i < data.len() ==> #[trigger] data[i] != 0x1b,
    ensures
        scan_bytes(v, data).state == Scan::Ground,
        scan_bytes(v, data).clipboard == v.clipboard,
        scan_bytes(v, data).bell <==> v.bell || data.contains(0x07),
    decreases data.len(),
{
    if data.len() > 0 {
        let init = data.drop_last();
        assert forall|i: int| 0 <= i < init.len() implies #[trigger] init[i] != 0x1b by {
            assert(data[i] != 0x1b);
        }
        plain_output_rings_only_on_a_bell(v, init);
        assert(data[data.len() - 1] != 0x1b);
        if init.contains(0x07) {
            let k = init.index_of(0x07);
            assert(data[k] == 0x07);
        }
        if data.contains(0x07) && !init.contains(0x07) {
            let k = data.index_of(0x07);
            if k < init.len() {
                assert(init[k] == 0x07);
            }
        }
        if data.last() == 0x07 {
            assert(data[data.len() - 1] == 0x07);
        }
    }
}

/// The bytes of an OSC string gather until it ends.
proof fn osc_gathers(v: ScanView, data: Seq<u8>)
    requires
        v.state == Scan::Osc,
        v.osc.len() + data.len() <= OSC_CAP,
        forall|i: int| 0 <= i < data.len() ==> #[trigger] data[i] != 0x1b && data[i] != 0x07,
    ensures
        scan_bytes(v, data) == (ScanView { osc: v.osc + data, ..v }),
    decreases data.len(),
{
    if data.len() > 0 {
        let init = data.drop_last();
        assert forall|i: int| 0 <= i < init.len() implies #[trigger] init[i] != 0x1b && init[i] != 0x07 by {
            assert(data[i] != 0x1b);
        }
        osc_gathers(v, init);
        assert(data[data.len() - 1] != 0x1b);
        assert((v.osc + init).push(data.last()) =~= v.osc + data);
    } else {
        assert(v.osc + data =~= v.osc);
    }
}

/// Two bytes in a row.
proof fn scan_two(v: ScanView, a: u8, b: u8)
    ensures
        scan_bytes(v, seq![a, b]) == scan_byte(scan_byte(v, a), b),
{
    assert(seq![a, b].drop_last() =~= seq![a]);
    assert(seq![a].drop_last() =~= Seq::<u8>::empty());
    assert(scan_bytes(v, Seq::empty()) == v);
    assert(scan_bytes(v, seq![a]) == scan_byte(v, a));
}

/// A clipboard write, `ESC ] 52 ;`, a payload and either terminator, is noted
/// with exactly its payload, and rings no bell; a query, whose payload ends in
/// `;?`, is not noted.
pub proof fn clipboard_writes_are_noted(v: ScanView, payload: Seq<u8>)
    requires
        v.state == Scan::Ground,
        payload.len() + 3 <= OSC_CAP,
        forall|i: int| 0 <= i < payload.len() ==> #[trigger] payload[i] != 0x1b && payload[i] != 0x07,
    ensures
        ({
            let head = seq![0x1bu8, 0x5d, 0x35, 0x32, 0x3b] + payload;
            let by_bell = scan_bytes(v, head + seq![0x07u8]);
            let by_st = scan_bytes(v, head + seq![0x1bu8, 0x5c]);
            let query = payload.len() >= 2 && payload[payload.len() - 2] == 0x3b && payload.last() == 0x3f;
            &&& by_bell == by_st
            &&& by_bell.state == Scan::Ground
            &&& by_bell.bell == v.bell
            &&& query ==> by_bell.clipboard == v.clipboard
            &&& !query ==> by_bell.clipboard == v.clipboard.push(lossy(payload))
        }),
{
    let opened = ScanView { state: Scan::Osc, osc: Seq::empty(), ..v };
    let intro = seq![0x1bu8, 0x5d];
    let body = seq![0x35u8, 0x32, 0x3b] + payload;
    let head = seq![0x1bu8, 0x5d, 0x35, 0x32, 0x3b] + payload;
    assert(head =~= intro + body);
    scan_splits_anywhere(v, intro, body);
    scan_two(v, 0x1b, 0x5d);
    assert(scan_bytes(v, intro) =~= opened);
    assert forall|i: int| 0 <= i < body.len() implies #[trigger] body[i] != 0x1b && body[i] != 0x07 by {
        if i >= 3 {
            assert(body[i] == payload[i - 3]);
        }
    }
    osc_gathers(opened, body);
    assert(Seq::<u8>::empty() + body =~= body);
    let full = scan_bytes(v, head);
    assert(full =~= ScanView { osc: body, ..opened });
    assert((head + seq![0x07u8]).drop_last() =~= head);
    scan_splits_anywhere(v, head, seq![0x1bu8, 0x5c]);
    scan_two(full, 0x1b, 0x5c);
    assert(body.skip(3) =~= payload);
    assert(clipboard_prefix() =~= body.take(3));
    assert(clipboard_prefix().is_prefix_of(body));
    let mark = seq![0x3bu8, 0x3fu8];
    let query = payload.len() >= 2 && payload[payload.len() - 2] == 0x3b && payload.last() == 0x3f;
    assert(mark.is_suffix_of(payload) == query) by {
        if query {
            assert(mark =~= payload.subrange(payload.len() - 2, payload.len() as int));
        } else if mark.is_suffix_of(payload) {
            let p = payload.subrange(payload.len() - 2, payload.len() as int);
            assert(p[0] == payload[payload.len() - 2] && p[1] == payload[payload.len() - 1]);
        }
    }
    assert(scan_bytes(v, head + seq![0x07u8]) =~= osc_end(full));
    assert(scan_bytes(v, head + seq![0x1bu8, 0x5c]) =~= osc_end(full));
}

/// Nothing inside a device-control string, a private message or the like rings
/// or writes the clipboard, until its `ESC \` ends it.
pub proof fn strings_are_skipped(v: ScanView, data: Seq<u8>)
    requires
        v.state == Scan::Str,
        forall|i: int| 0 <= i < data.len() ==> #[trigger] data[i] != 0x1b,
    ensures
        scan_bytes(v, data) == v,
        scan_bytes(v, data + seq![0x1bu8, 0x5c]) == (ScanView { state: Scan::Ground, ..v }),
        forall|intro: u8|
            intro == 0x50 || intro == 0x58 || intro == 0x5e || intro == 0x5f ==> #[trigger] scan_byte(
                ScanView { state: Scan::Esc, ..v },
                intro,
            ) == v,
    decreases data.len(),
{
    if data.len() > 0 {
        let init = data.drop_last();
        assert forall|i: int| 0 <= i < init.len() implies #[trigger] init[i] != 0x1b by {
            assert(data[i] != 0x1b);
        }
        strings_are_skipped(v, init);
        assert(data[data.len() - 1] != 0x1b);
    }
    assert((data + seq![0x1bu8, 0x5c]).drop_last() =~= data + seq![0x1bu8]);
    assert((data + seq![0x1bu8]).drop_last() =~= data);
    reveal_with_fuel(scan_bytes, 3);
    assert(scan_bytes(v, data + seq![0x1bu8]) =~= ScanView { state: Scan::StrEsc, ..v });
}

} // verus!
