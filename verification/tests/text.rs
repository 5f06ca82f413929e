//! Text, forms and the list beneath every page.
use tenx::forms::{AddRepoForm, CreateForm, EditReposForm, EditStep, FormStep, RenameForm, RepoPick};
use tenx::input::{KeyCode, KeyEvent, KeyModifiers, Rect};
use tenx::layout::centered_rect;
use tenx::lines;
use tenx::mouse;
use tenx::status::{TaskGroup, TaskStatus};
use tenx::text;

fn ch(c: char) -> KeyEvent {
    KeyEvent::new(KeyCode::Char(c), KeyModifiers::none())
}

fn press(code: KeyCode) -> KeyEvent {
    KeyEvent::new(code, KeyModifiers::none())
}

#[test]
fn text_is_cut_to_its_width() {
    assert_eq!(text::truncate("abcdef", 4), "abc…");
    assert_eq!(text::truncate("abcd", 4), "abcd");
    assert_eq!(text::truncate("", 0), "");
    assert_eq!(text::align_left("ab", 4), "ab  ");
    assert_eq!(text::pad_cell("日", 4), "日   ", "characters are counted, not cells");
    assert_eq!(text::pad_cell("abcdef", 4), "abc…");
}

#[test]
fn white_space_is_trimmed_on_both_sides() {
    assert_eq!(text::trim(" \u{3000}a b\t\n"), "a b");
    assert_eq!(text::trim("\u{200b}a"), "\u{200b}a");
}

#[test]
fn numbers_are_read_up_to_a_limit() {
    let cs = text::chars("255x");
    assert_eq!(text::parse_number(&cs, 0, 3, 255), Some(255));
    assert_eq!(text::parse_number(&cs, 0, 3, 254), None);
    assert_eq!(text::parse_number(&cs, 0, 4, 255), None);
    assert_eq!(text::parse_number(&cs, 0, 0, 255), None);
    assert_eq!(text::decimal(u64::MAX), "18446744073709551615");
}

#[test]
fn matching_is_by_subsequence() {
    assert!(text::subseq_match("c sv", "c-s-v export"));
    assert!(text::subseq_match("", "anything"));
    assert!(!text::subseq_match("vs", "csv"));
    assert!(!text::subseq_match("C", "csv"), "both are expected in lower case");
}

#[test]
fn texts_are_taken_apart() {
    assert_eq!(text::strip_prefix("git@x", "git@").as_deref(), Some("x"));
    assert_eq!(text::strip_prefix("x", "git@"), None);
    assert_eq!(text::trim_end_matches("a.git.git", ".git"), "a");
    assert_eq!(text::rsplit_last("a/b/c", '/'), "c");
    assert_eq!(lines::lines("a\r\nb\n"), vec!["a", "b"]);
    assert_eq!(lines::first_word("  two words"), "two");
    assert_eq!(lines::replace("aXbX", "X", "--"), "a--b--");
    assert!(lines::contains_text("hello", "ell") && !lines::contains_text("hello", "elo"));
    assert!(lines::comes_before("a", "b") && !lines::comes_before("b", "a"));
}

#[test]
fn the_middle_of_a_screen() {
    let r = centered_rect(50, 50, Rect::new(0, 0, 100, 40));
    assert_eq!(r, Rect::new(25, 10, 50, 20));
}

#[test]
fn clicks_find_their_item() {
    let a = Rect::new(0, 0, 10, 7);
    assert_eq!(mouse::item_at(a, 1, 0, 2, 3, 1), Some(0));
    assert_eq!(mouse::item_at(a, 1, 0, 2, 3, 3), Some(1));
    assert_eq!(mouse::item_at(a, 1, 4, 2, 3, 3), Some(5));
    assert_eq!(mouse::item_at(a, 1, 0, 2, 3, 0), None);
    assert_eq!(mouse::item_at(a, 1, 0, 2, 10, 3), None);
    assert_eq!(mouse::item_at_heights(a, 1, 1, &vec![1, 2, 1], 3, 3), Some(2));
    assert_eq!(mouse::item_at_heights(a, 1, 1, &vec![1, 2, 1], 3, 4), None);
    assert!(mouse::hit(a, 9, 6) && !mouse::hit(a, 9, 7));
}

#[test]
fn sections_come_in_order() {
    assert_eq!(TaskStatus::Done.group(), TaskGroup::Waiting);
    assert!(TaskGroup::SecretsPending.rank() < TaskGroup::Waiting.rank());
    assert!(TaskGroup::Working.rank() < TaskGroup::Inactive.rank());
    assert_eq!(TaskGroup::Waiting.label(), "WAITING FOR INPUT");
}

fn create() -> CreateForm {
    CreateForm { ws_idx: 2, name: String::new(), repos: vec![("api".into(), true), ("web".into(), false)], focus: 0 }
}

#[test]
fn a_create_form_needs_a_name_and_a_repo() {
    let mut f = create();
    assert_eq!(f.press(press(KeyCode::Esc)), FormStep::Cancel);
    assert!(f.submit().is_err());
    for c in " hi ".chars() {
        assert_eq!(f.press(ch(c)), FormStep::Stay);
    }
    assert_eq!(f.submit(), Ok(("hi".to_string(), vec!["api".to_string()])));
    f.focus_next();
    let _ = f.press(ch(' '));
    assert!(f.submit().is_err(), "no repo is ticked");
    f.focus_prev();
    f.focus_prev();
    assert_eq!(f.focus, 2);
    let _ = f.press(ch(' '));
    assert_eq!(f.submit(), Ok(("hi".to_string(), vec!["web".to_string()])));
    assert_eq!(f.press(press(KeyCode::Enter)), FormStep::Submit);
}

#[test]
fn an_edit_form_tells_what_changes() {
    let pick = |name: &str, checked: bool, present: bool| RepoPick { name: name.into(), checked, present };
    let mut f = EditReposForm {
        ws_idx: 0,
        slug: "s".into(),
        title: "t".into(),
        picks: vec![pick("api", true, true), pick("web", false, true), pick("docs", true, false)],
        focus: 0,
        confirm: false,
    };
    assert_eq!(f.added(), vec!["docs"]);
    assert_eq!(f.removed(), vec!["web"]);
    assert_eq!(f.desired(), vec!["api", "docs"]);
    // Detaching asks first.
    assert_eq!(f.press(press(KeyCode::Enter)), EditStep::Stay);
    assert!(f.confirm);
    assert_eq!(f.press(ch('y')), EditStep::Apply);
    f.picks = vec![pick("api", true, true)];
    f.confirm = false;
    assert_eq!(f.press(press(KeyCode::Enter)), EditStep::Unchanged);
    f.picks = vec![pick("api", false, true)];
    assert_eq!(f.press(press(KeyCode::Enter)), EditStep::Empty);
    assert_eq!(f.press(press(KeyCode::Esc)), EditStep::Cancel);
}

#[test]
fn an_add_form_needs_a_url() {
    let mut f = AddRepoForm { ws_idx: 0, url: "  ".into(), name: String::new(), focus: 0 };
    assert!(f.submit().is_err());
    f.url = " git@x:y.git ".into();
    assert_eq!(f.submit(), Ok(("git@x:y.git".to_string(), None)));
    f.name = " y ".into();
    assert_eq!(f.submit(), Ok(("git@x:y.git".to_string(), Some("y".to_string()))));
}

#[test]
fn a_rename_form_needs_a_title() {
    let mut f = RenameForm { ws_idx: 0, slug: "s".into(), path: "/p".into(), buffer: " ".into() };
    assert!(f.submit().is_err());
    let _ = f.press(ch('a'));
    assert_eq!(f.submit(), Ok("a".to_string()));
    let _ = f.press(press(KeyCode::Backspace));
    assert!(f.submit().is_err());
}

#[test]
fn a_padded_cell_is_as_wide_as_asked_for() {
    for s in ["", "a", "日本", "abcdef"] {
        for w in 0..9 {
            let cell = text::pad_cell(s, w);
            assert_eq!(cell.chars().count(), w, "{s:?} in {w}");
            if s.chars().count() > w && w > 0 {
                let kept: String = s.chars().take(w - 1).collect();
                assert_eq!(cell, format!("{kept}…"));
            }
        }
    }
}

#[test]
fn exactly_the_white_space_of_unicode_is_trimmed() {
    let listed = |c: char| {
        matches!(
            c,
            '\u{9}'..='\u{d}' | ' ' | '\u{85}' | '\u{a0}' | '\u{1680}' | '\u{2000}'..='\u{200a}' | '\u{2028}' | '\u{2029}'
                | '\u{202f}' | '\u{205f}' | '\u{3000}'
        )
    };
    for c in '\0'..=char::MAX {
        assert_eq!(text::trim(&c.to_string()).is_empty(), listed(c), "{c:?}");
    }
}
