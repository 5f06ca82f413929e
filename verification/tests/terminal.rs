//! What passes between the task's program and the screen.
use std::cell::RefCell;
use std::io::Write;
use std::rc::Rc;

use ratatui::backend::{Backend, CrosstermBackend};
use ratatui::buffer::Buffer;
use unicode_width::UnicodeWidthStr;

use tenx::ansi;
use tenx::hyperlink::{draw_steps, mark, split, LinkBackend, MARK};
use tenx::input::{KeyCode, KeyEvent, KeyModifiers, MouseButton, MouseEvent, MouseEventKind, Rect};
use tenx::style::{Color, Line, Style};
use tenx::term::{button_code, cursor_at, encode_key, encode_mouse, encode_paste, modifier, Scanner};
use tenx::vt::{color, overdue, PaintedCell, Vt, VtColor};

fn plain(l: &Line) -> String {
    l.spans.iter().map(|s| s.content.as_str()).collect()
}

// ── Styled text ──────────────────────────────────────────────────────────────

#[test]
fn strips_and_styles() {
    let l = ansi::line("\x1b[1m\x1b[38;5;208m ❯ 1. Yes\x1b[0m\x1b[K rest");
    assert_eq!(plain(&l), " ❯ 1. Yes rest");
    assert_eq!(l.spans[0].style.fg, Some(Color::Indexed(208)));
    assert!(l.spans[0].style.add_modifier.bold);
    assert_eq!(l.spans[1].style, Style::plain());
}

#[test]
fn truecolour_and_osc() {
    let l = ansi::line("\x1b]0;title\x07\x1b[38;2;10;20;30mx\x1b[39my");
    assert_eq!(plain(&l), "xy");
    assert_eq!(l.spans[0].style.fg, Some(Color::Rgb(10, 20, 30)));
    assert_eq!(l.spans[1].style.fg, Some(Color::Reset));
}

#[test]
fn plain_text_passes_through() {
    let l = ansi::line("no escapes here");
    assert_eq!(l.spans.len(), 1);
    assert_eq!(plain(&l), "no escapes here");
    assert!(ansi::line("").spans.is_empty());
}

#[test]
fn attributes_come_and_go() {
    let l = ansi::line("\x1b[2;3;4;7;9ma\x1b[22;23;24;27;29mb\x1b[91;102mc");
    let m = l.spans[0].style.add_modifier;
    assert!(m.dim && m.italic && m.underlined && m.reversed && m.crossed_out && !m.bold);
    assert!(!l.spans[1].style.add_modifier.dim);
    assert_eq!(l.spans[2].style.fg, Some(ansi::base(9)));
    assert_eq!(l.spans[2].style.bg, Some(ansi::base(10)));
}

#[test]
fn control_characters_are_dropped() {
    assert!(ansi::is_control('\u{7}'));
    assert!(!ansi::is_control('x'));
    assert_eq!(plain(&ansi::line("a\u{7}b\u{8}c")), "abc");
}

// ── Links ────────────────────────────────────────────────────────────────────

#[derive(Clone, Default)]
struct Sink(Rc<RefCell<Vec<u8>>>);

impl Write for Sink {
    fn write(&mut self, buf: &[u8]) -> std::io::Result<usize> {
        self.0.borrow_mut().extend_from_slice(buf);
        Ok(buf.len())
    }
    fn flush(&mut self) -> std::io::Result<()> {
        Ok(())
    }
}

fn linked(text: &str, uri: &str) -> String {
    let mut s = text.to_string();
    mark(&mut s, uri);
    s
}

#[test]
fn a_link_round_trips_and_has_no_width() {
    let s = linked("a", "https://example.com/?q=1#x");
    assert_eq!(s.width(), 1, "the diff must still see one cell");
    assert_eq!(split(&s), ("a", Some("https://example.com/?q=1#x".to_string())));
    assert_eq!(split("a"), ("a", None));
}

#[test]
fn controls_and_non_ascii_are_percent_encoded() {
    let s = linked("a", "https://x/\x1b]ü");
    assert_eq!(split(&s).1.as_deref(), Some("https://x/%1B]%C3%BC"));
}

#[test]
fn backend_wraps_linked_runs_in_osc8() {
    let mut buf = Buffer::empty(ratatui::layout::Rect::new(0, 0, 4, 1));
    buf[(0, 0)].set_symbol("x");
    buf[(1, 0)].set_symbol(&linked("a", "https://e.com"));
    buf[(2, 0)].set_symbol(&linked("b", "https://e.com"));
    buf[(3, 0)].set_symbol("y");
    let sink = Sink::default();
    let mut backend = LinkBackend::new(CrosstermBackend::new(sink.clone()));
    let symbols: Vec<String> = buf.content().iter().map(|c| c.symbol().to_string()).collect();
    for run in draw_steps(&symbols) {
        sink.0.borrow_mut().extend_from_slice(run.open.as_bytes());
        let mut cells: Vec<(u16, u16, ratatui::buffer::Cell)> = Vec::new();
        for (k, text) in run.texts.iter().enumerate() {
            let at = run.from + k;
            let mut cell = buf.content()[at].clone();
            cell.set_symbol(text);
            cells.push((at as u16, 0, cell));
        }
        backend.inner.draw(cells.iter().map(|(x, y, c)| (*x, *y, c))).unwrap();
        sink.0.borrow_mut().extend_from_slice(run.close.as_bytes());
    }
    let out = String::from_utf8(sink.0.borrow().clone()).unwrap();
    let open = out.find("\x1b]8;;https://e.com\x1b\\").expect("opens");
    let close = out.find("\x1b]8;;\x1b\\").expect("closes");
    assert!(out.find('x').unwrap() < open);
    assert!(open < out.find('a').unwrap() && out.find('b').unwrap() < close);
    assert!(close < out.find('y').unwrap());
    assert!(!out.contains(MARK));
}

#[test]
fn adjacent_links_are_drawn_apart() {
    let symbols = vec![linked("a", "https://x"), linked("b", "https://y"), "c".to_string()];
    let runs = draw_steps(&symbols);
    assert_eq!(runs.len(), 3);
    assert_eq!(runs[0].link.as_deref(), Some("https://x"));
    assert_eq!(runs[1].link.as_deref(), Some("https://y"));
    assert_eq!(runs[2].link, None);
    assert!(runs[2].open.is_empty() && runs[2].close.is_empty());
}

// ── Keys and mouse ───────────────────────────────────────────────────────────

fn k(code: KeyCode, m: KeyModifiers) -> KeyEvent {
    KeyEvent::new(code, m)
}

fn shift() -> KeyModifiers {
    KeyModifiers { shift: true, control: false, alt: false, other: false }
}

fn alt() -> KeyModifiers {
    KeyModifiers { shift: false, control: false, alt: true, other: false }
}

#[test]
fn keys_encode_like_xterm() {
    let none = KeyModifiers::none();
    assert_eq!(encode_key(&k(KeyCode::Char('a'), none), false), Some(b"a".to_vec()));
    assert_eq!(encode_key(&k(KeyCode::Char('c'), KeyModifiers::control()), false), Some(vec![3]));
    assert_eq!(encode_key(&k(KeyCode::Char('b'), alt()), false), Some(vec![0x1b, b'b']));
    assert_eq!(encode_key(&k(KeyCode::Up, none), false), Some(b"\x1b[A".to_vec()));
    assert_eq!(encode_key(&k(KeyCode::Up, none), true), Some(b"\x1bOA".to_vec()));
    assert_eq!(encode_key(&k(KeyCode::Up, KeyModifiers::control()), true), Some(b"\x1b[1;5A".to_vec()));
    assert_eq!(encode_key(&k(KeyCode::Delete, shift()), false), Some(b"\x1b[3;2~".to_vec()));
    assert_eq!(encode_key(&k(KeyCode::F(5), none), false), Some(b"\x1b[15~".to_vec()));
    assert_eq!(encode_key(&k(KeyCode::Enter, none), false), Some(b"\r".to_vec()));
}

#[test]
fn keys_with_no_encoding_are_dropped() {
    assert_eq!(encode_key(&k(KeyCode::Other, KeyModifiers::none()), false), None);
    assert_eq!(modifier(KeyModifiers::none()), 1);
    assert_eq!(encode_key(&k(KeyCode::Char('é'), KeyModifiers::none()), false), Some("é".as_bytes().to_vec()));
}

#[test]
fn mouse_encodes_sgr_one_based() {
    let m = MouseEvent { kind: MouseEventKind::Down(MouseButton::Left), column: 0, row: 0, modifiers: KeyModifiers::none() };
    assert_eq!(encode_mouse(&m, 4, 2), Some(b"\x1b[<0;5;3M".to_vec()));
    let m = MouseEvent { kind: MouseEventKind::ScrollUp, column: 0, row: 0, modifiers: KeyModifiers::none() };
    assert_eq!(encode_mouse(&m, 0, 0), Some(b"\x1b[<64;1;1M".to_vec()));
}

#[test]
fn buttons_are_numbered_left_to_right() {
    assert_eq!(button_code(MouseButton::Left), 0);
    assert_eq!(button_code(MouseButton::Middle), 1);
    assert_eq!(button_code(MouseButton::Right), 2);
}

#[test]
fn a_paste_is_bracketed_on_request() {
    assert_eq!(encode_paste("hé", true), [b"\x1b[200~".as_slice(), "hé".as_bytes(), b"\x1b[201~"].concat());
    assert_eq!(encode_paste("hi", false), b"hi".to_vec());
}

#[test]
fn a_hidden_or_outside_cursor_is_not_shown() {
    let area = Rect::new(2, 3, 10, 5);
    assert_eq!(cursor_at(area, true, 0, 0), None);
    assert_eq!(cursor_at(area, false, 1, 4), Some((6, 4)));
    assert_eq!(cursor_at(area, false, 9, 0), None);
}

#[test]
fn scanner_sees_bells_and_clipboard_but_not_osc_terminators() {
    let mut s = Scanner::default();
    let seen = s.feed(b"hi\x07 \x1b]0;title\x07 \x1b]52;c;Zm9v\x1b\\ \x1b]52;c;?\x07");
    assert!(seen.bell);
    assert_eq!(seen.clipboard, vec!["c;Zm9v".to_string()]);
    // Split across reads.
    let mut s = Scanner::default();
    let a = s.feed(b"\x1b]52;c;Zm");
    let b = s.feed(b"9v\x07\x07");
    assert!(a.clipboard.is_empty() && !a.bell);
    assert_eq!(b.clipboard, vec!["c;Zm9v".to_string()]);
    assert!(b.bell);
}

#[test]
fn broken_utf8_in_the_clipboard_is_replaced() {
    let mut s = Scanner::default();
    let seen = s.feed(b"\x1b]52;c;a\xffb\x07");
    assert_eq!(seen.clipboard, vec!["c;a\u{FFFD}b".to_string()]);
    assert!(!seen.bell);
}

// ── The emulated terminal ────────────────────────────────────────────────────

fn screen(bytes: &[u8]) -> Vec<Vec<PaintedCell>> {
    let mut vt = Vt::new(3, 20);
    vt.process(bytes);
    vt.render(Rect::new(0, 0, 20, 3)).0
}

#[test]
fn paints_text_colours_and_attributes() {
    let buf = screen(b"a\x1b[1;31mb\x1b[0;38;2;1;2;3mc");
    assert_eq!(buf[0][0].symbol, "a");
    assert_eq!(buf[0][0].fg, Color::Reset);
    assert_eq!(buf[0][1].fg, Color::Indexed(1));
    assert!(buf[0][1].modifier.bold);
    assert_eq!(buf[0][2].fg, Color::Rgb(1, 2, 3));
}

#[test]
fn wide_characters_take_two_cells() {
    let buf = screen("日x".as_bytes());
    assert_eq!(buf[0][0].symbol, "日");
    assert_eq!(buf[0][2].symbol, "x");
}

#[test]
fn cells_under_an_osc8_link_carry_it() {
    let buf = screen(b"\x1b]8;;https://example.com\x1b\\ab\x1b]8;;\x1b\\c");
    let link = |x: usize| split(&buf[0][x].symbol);
    assert_eq!(link(0), ("a", Some("https://example.com".to_string())));
    assert_eq!(link(1), ("b", Some("https://example.com".to_string())));
    assert_eq!(link(2), ("c", None));
}

#[test]
fn modes_follow_the_program() {
    let mut vt = Vt::new(3, 20);
    assert!(!vt.app_cursor() && !vt.mouse_reporting() && !vt.bracketed_paste());
    vt.process(b"\x1b[?1h\x1b[?1000h\x1b[?1006h\x1b[?2004h");
    assert!(vt.app_cursor() && vt.mouse_reporting() && vt.bracketed_paste());
}

#[test]
fn a_terminal_takes_its_new_size() {
    let mut vt = Vt::new(3, 20);
    assert_eq!(vt.size(), (3, 20));
    vt.resize(5, 30);
    assert_eq!(vt.size(), (5, 30));
    let (cells, cursor) = vt.render(Rect::new(4, 2, 30, 5));
    assert_eq!(cells.len(), 5);
    assert_eq!(cells[0].len(), 30);
    assert_eq!(cursor, Some((4, 2)));
}

#[test]
fn terminal_colours_keep_their_index() {
    assert_eq!(color(VtColor::Indexed(7)), Color::Indexed(7));
    assert_eq!(color(VtColor::Spec(9, 8, 7)), Color::Rgb(9, 8, 7));
}

#[test]
fn sequences_that_set_no_style_leave_nothing() {
    assert_eq!(plain(&ansi::line("\x1b[?25lx")), "x");
    assert_eq!(plain(&ansi::line("a\x1b[>4;2mb\x1b[2 qc\x1b[!pd")), "abcd");
    let l = ansi::line("\x1b[1ma\x1b[?1mb");
    assert_eq!(plain(&l), "ab");
    assert!(l.spans.iter().all(|s| s.style.add_modifier.bold), "a private sequence sets no style");
    assert_eq!(plain(&ansi::line("a\x1b[12;")), "a");
}

#[test]
fn output_held_back_shows_once_released() {
    let mut vt = Vt::new(3, 20);
    vt.process(b"a\x1b[?2026hb");
    let area = Rect::new(0, 0, 20, 3);
    let shown = |vt: &Vt| vt.painted(area).0[0].iter().map(|c| c.symbol.clone()).collect::<String>();
    vt.release(false);
    assert_eq!(shown(&vt).trim_end(), "a");
    vt.release(true);
    assert_eq!(shown(&vt).trim_end(), "ab");
    assert_eq!(vt.painted(area).1, Some((2, 0)));
}

#[test]
fn output_is_overdue_once_no_time_is_left() {
    assert!(overdue(Some(0)));
    assert!(!overdue(Some(1)));
    assert!(!overdue(None));
}
