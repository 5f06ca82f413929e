//! The client: a column beside the task's terminal.
use tenx::client::{render_closed, start_window, Client, Focus};
use tenx::column::{ClientRequest, Column};
use tenx::input::{KeyCode, KeyEvent, KeyModifiers, MouseButton, MouseEvent, MouseEventKind, Rect};
use tenx::list::Effect;
use tenx::list_events::{front_task, window_of, Window};

const SMALL: u16 = 90;

fn client(cols: u16, rows: u16) -> Client {
    Client::new(Column::empty(), cols, rows, 36, SMALL, 0)
}

fn ctrl_w() -> KeyEvent {
    KeyEvent::new(KeyCode::Char('w'), KeyModifiers::control())
}

fn plain(c: char) -> KeyEvent {
    KeyEvent::new(KeyCode::Char(c), KeyModifiers::none())
}

fn mouse(kind: MouseEventKind, column: u16, row: u16) -> MouseEvent {
    MouseEvent { kind, column, row, modifiers: KeyModifiers::none() }
}

#[test]
fn a_wide_screen_is_tiled() {
    let c = client(120, 40);
    let full = Rect::new(0, 0, 120, 40);
    let (column, task) = c.layout(full);
    assert_eq!(column, Some(Rect::new(0, 0, 36, 40)));
    assert_eq!(task, Rect::new(36, 0, 84, 40));
    assert_eq!(c.term_size(), (40, 84));
    // The column never takes more than half.
    let mut half = client(120, 40);
    half.column_width = 200;
    assert_eq!(half.layout(full).0, Some(Rect::new(0, 0, 60, 40)));
}

#[test]
fn a_screen_of_nothing_still_has_a_terminal() {
    let c = client(0, 0);
    assert_eq!(c.term_size(), (1, 1));
}

#[test]
fn a_narrow_screen_shows_one_thing_at_a_time() {
    let c = client(80, 24);
    assert!(c.narrow);
    assert_eq!(c.term_size(), (24, 80));
    let mut c = client(120, 24);
    c.focus = Focus::Terminal;
    c.apply_size(80, 24, 36, SMALL);
    assert!(c.narrow && !c.column_shown, "narrowing uncovers the task");
    c.apply_size(120, 24, 30, SMALL);
    assert!(!c.narrow && c.column_shown, "widening brings the column back");
    assert_eq!(c.column_width, 30);
}

#[test]
fn ctrl_w_goes_round() {
    let mut c = client(120, 40);
    c.focus = Focus::Terminal;
    c.column_shown = true;
    let step = c.handle_key(ctrl_w());
    assert!(!step.to_task && !step.resize);
    assert_eq!((c.focus, c.column_shown), (Focus::Column, true));
    let step = c.handle_key(ctrl_w());
    assert!(step.resize);
    assert_eq!((c.focus, c.column_shown), (Focus::Terminal, false));
    let step = c.handle_key(ctrl_w());
    assert!(step.resize);
    assert_eq!((c.focus, c.column_shown), (Focus::Column, true));
}

#[test]
fn keys_go_to_the_focused_side() {
    let mut c = client(120, 40);
    c.focus = Focus::Terminal;
    assert!(c.handle_key(plain('a')).to_task);
    c.focus = Focus::Column;
    c.column_shown = true;
    assert!(!c.handle_key(plain('/')).to_task);
}

#[test]
fn only_a_click_moves_the_keyboard() {
    let mut c = client(120, 40);
    c.focus = Focus::Terminal;
    let step = c.handle_mouse(mouse(MouseEventKind::ScrollDown, 5, 10));
    assert_eq!((step.to_task, c.focus), (None, Focus::Terminal));
    let _ = c.handle_mouse(mouse(MouseEventKind::Down(MouseButton::Left), 5, 10));
    assert_eq!(c.focus, Focus::Column);
    let step = c.handle_mouse(mouse(MouseEventKind::ScrollUp, 40, 3));
    assert_eq!((step.to_task, c.focus), (Some((4, 3)), Focus::Column));
    let step = c.handle_mouse(mouse(MouseEventKind::Down(MouseButton::Left), 36, 0));
    assert_eq!((step.to_task, c.focus), (Some((0, 0)), Focus::Terminal));
    let step = c.handle_mouse(mouse(MouseEventKind::Down(MouseButton::Left), 36, 40));
    assert!(step.to_task.is_none() && matches!(step.effect, Effect::Nothing));
}

#[test]
fn requests_of_the_column_are_settled() {
    let mut c = client(120, 40);
    c.focus = Focus::Column;
    c.column.client_request = Some(ClientRequest::FocusTerminal);
    assert!(!c.settle());
    assert_eq!((c.focus, c.column_shown), (Focus::Terminal, true));
    c.column.client_request = Some(ClientRequest::Hide);
    assert!(c.settle());
    assert!(!c.column_shown);
    c.column.client_request = Some(ClientRequest::Quit);
    assert!(!c.settle());
    assert!(c.quit);
    assert_eq!(c.column.client_request, None);
}

#[test]
fn the_rows_are_refreshed_now_and_then() {
    let mut c = client(120, 40);
    assert!(!c.tick(499));
    assert!(c.tick(500));
    assert!(!c.tick(900));
    assert!(c.tick(1000));
}

#[test]
fn a_frame_shows_both_sides() {
    let mut c = client(120, 40);
    c.focus = Focus::Terminal;
    let f = c.frame(Rect::new(0, 0, 120, 40));
    assert_eq!(f.column, Some(Rect::new(0, 0, 36, 40)));
    assert_eq!(f.task, Rect::new(36, 0, 84, 40));
    assert!(f.task_cursor && f.closed.is_none());
}

#[test]
fn a_closed_task_is_named() {
    let (area, item) = render_closed(Rect::new(10, 0, 40, 20), "dark mode").unwrap();
    assert_eq!((area.x, area.width), (10, 40));
    let text: Vec<String> = item.lines.iter().map(|l| l.plain()).collect();
    assert!(text.join("\n").contains("dark mode"), "{text:?}");
    assert!(render_closed(Rect::new(0, 0, 40, 2), "dark mode").is_none());
}

#[test]
fn the_first_window_is_a_task() {
    let w = |id: &str, name: &str, active: bool| Window { id: id.into(), name: name.into(), active };
    let windows = vec![w("@0", "home", true), w("@1", "alpha", false), w("@2", "beta", true)];
    assert_eq!(window_of(&windows, "alpha").as_deref(), Some("@1"));
    assert_eq!(window_of(&windows, "gamma"), None);
    assert_eq!(front_task(&windows, "home").as_deref(), Some("beta"));
    assert_eq!(front_task(&vec![w("@0", "home", true)], "home"), None);
    let idle = vec![w("@0", "home", true), w("@1", "alpha", false)];
    assert_eq!(start_window(&idle, "home").as_deref(), Some("@1"));
}
