//! The overlay, drawn through the real widgets.
use ratatui::backend::TestBackend;
use ratatui::text::{Line as TextLine, Text};
use ratatui::widgets::{Block, Borders, List, ListItem, ListState, Paragraph};
use ratatui::Terminal;

use tenx::column::PERMISSION_PROMPT;
use tenx::input::{KeyCode, KeyEvent, KeyModifiers, MouseButton, MouseEvent, MouseEventKind, Rect};
use tenx::list::{Effect, Focus, InputMode, Mode, PrChip, Row, Tab};
use tenx::list_events::RowState;
use tenx::overlay::{Overlay, Route, HOME_HINT};
use tenx::status::{TaskGroup, TaskStatus};
use tenx::style::{Item, Style};
use tenx::zellij::SESSION;

const COLS: u16 = 150;
const ROWS: u16 = 36;

fn text_lines(i: &Item) -> Vec<TextLine<'static>> {
    i.lines.iter().map(|l| TextLine::from(l.plain())).collect()
}

fn area(r: Rect) -> ratatui::layout::Rect {
    ratatui::layout::Rect::new(r.x, r.y, r.width, r.height)
}

/// The overlay on a screen, as plain text.
fn draw(overlay: &mut Overlay, cols: u16, rows: u16) -> String {
    let mut term = Terminal::new(TestBackend::new(cols, rows)).unwrap();
    term.draw(|f| {
        let (s, preview) = overlay.render_list(Rect::new(0, 0, cols, rows));
        f.render_widget(Paragraph::new(s.tabs.plain()), area(s.areas.tabs));
        let frame = Block::default().borders(Borders::ALL).title(s.search_title);
        f.render_widget(Paragraph::new(s.search.plain()).block(frame), area(s.areas.search));
        let items: Vec<ListItem> = s.body.items.iter().map(|i| ListItem::new(Text::from(text_lines(i)))).collect();
        let mut state = ListState::default().with_offset(overlay.list.offset).with_selected(s.highlighted);
        let list = List::new(items).block(Block::default().borders(Borders::ALL));
        f.render_stateful_widget(list, area(s.areas.list), &mut state);
        overlay.list.offset = state.offset();
        f.render_widget(Paragraph::new(s.footer.plain()), area(s.areas.footer));
        if let Some(p) = preview {
            let body = Paragraph::new(Text::from(text_lines(&overlay.preview_lines())));
            f.render_widget(body.block(Block::default().borders(Borders::ALL)), area(p));
        }
    })
    .unwrap();
    let buf = term.backend().buffer();
    let mut out = String::new();
    for y in 0..buf.area.height {
        for x in 0..buf.area.width {
            out.push_str(buf[(x, y)].symbol());
        }
        out.push('\n');
    }
    out
}

struct Fx {
    title: &'static str,
    ws: &'static str,
    status: TaskStatus,
    age: &'static str,
    open: bool,
    prs: Vec<(&'static str, &'static str)>,
    ports: Vec<u16>,
    waiting_for: Option<&'static str>,
    secrets: Vec<&'static str>,
}

fn fx(title: &'static str, ws: &'static str, status: TaskStatus) -> Fx {
    Fx { title, ws, status, age: "now", open: false, prs: vec![], ports: vec![], waiting_for: None, secrets: vec![] }
}

fn row(f: Fx) -> Row {
    let slug = f.title.to_lowercase().replace(' ', "-");
    let changed = if f.status != TaskStatus::Idle { Some(1000) } else { None };
    Row {
        ws_idx: 0,
        ws_name: f.ws.into(),
        path: format!("/home/you/{}/tasks/{slug}", f.ws),
        slug,
        title: f.title.into(),
        status: f.status,
        group: f.status,
        glyph: "●".into(),
        changed,
        age: f.age.into(),
        waiting_for: f.waiting_for.map(str::to_string),
        activity: changed.unwrap_or(0),
        window_id: if f.open { Some("@1".into()) } else { None },
        tab_id: if f.open { Some(7) } else { None },
        pane: if f.open && f.status != TaskStatus::Idle { Some("%1".into()) } else { None },
        prs: f.prs.iter().map(|(c, k)| PrChip { chip: c.to_string(), checks: k.to_string() }).collect(),
        ports: f.ports,
        repos: vec![],
        section: if f.secrets.is_empty() { f.status.group() } else { TaskGroup::SecretsPending },
        secrets_pending: f.secrets.iter().map(|s| s.to_string()).collect(),
        secrets_pending_set: vec![],
        agent: None,
        subagents: vec![],
    }
}

/// What a pane looks like on a permission prompt, a few styles included.
const PREVIEW_FIXTURE: &str = "\
\x1b[1m⏺\x1b[0m I'll add the release workflow next to the CI one and wire the
  tag push to it.

\x1b[1m Bash command\x1b[0m

   gh workflow run release.yml --ref v0.2.0
   Kick off the release workflow for the tag

 Do you want to proceed?
 \x1b[36m❯ 1. Yes\x1b[0m
   2. No
 \x1b[2mEsc to cancel · Tab to amend\x1b[0m
";

/// Every section and every kind of chip, on invented tasks, in display order.
fn fixture_overlay() -> Overlay {
    let rows = vec![
        Fx { secrets: vec!["STRIPE_WEBHOOK_SECRET"], open: true, ..fx("stripe webhook signing", "ledger", TaskStatus::Idle) },
        Fx {
            waiting_for: Some("permission prompt"),
            open: true,
            age: "4m",
            ..fx("add release workflow", "tenx-workspace", TaskStatus::Blocked)
        },
        Fx { open: true, age: "22h", ..fx("rotate signing keys", "infra", TaskStatus::Signaled) },
        Fx { open: true, age: "54m", ports: vec![8080], ..fx("rate limit middleware", "acme-api", TaskStatus::Done) },
        Fx { open: true, age: "2h", ..fx("flaky checkout e2e", "storefront", TaskStatus::Done) },
        Fx { open: true, age: "23h", prs: vec![("#31 ✓", "success")], ..fx("csv export", "ledger", TaskStatus::Done) },
        Fx { open: true, ..fx("overlay screenshot", "tenx-workspace", TaskStatus::Working) },
        Fx { open: true, prs: vec![("#24 merged", "success")], ..fx("onboarding emails", "ledger", TaskStatus::Working) },
        fx("cart abandonment banner", "storefront", TaskStatus::Idle),
        fx("terraform drift check", "infra", TaskStatus::Idle),
        fx("homebrew tap", "tenx-workspace", TaskStatus::Idle),
        Fx {
            prs: vec![("#781 merged", "success"), ("#404 merged", "success")],
            ..fx("ACME-2244 search ranking", "acme-api", TaskStatus::Idle)
        },
        fx("image cdn migration", "storefront", TaskStatus::Idle),
        fx("upgrade postgres 17", "infra", TaskStatus::Idle),
        Fx { prs: vec![("#14 …", "pending")], ..fx("multi-currency totals", "ledger", TaskStatus::Idle) },
        fx("backup restore drill", "homelab", TaskStatus::Idle),
        fx("api reference sweep", "docs", TaskStatus::Idle),
        Fx { prs: vec![("#112 ✗", "failure")], ..fx("ACME-2301 webhook retries", "acme-api", TaskStatus::Idle) },
        Fx { prs: vec![("#113 draft", "")], ..fx("dark mode", "docs", TaskStatus::Idle) },
        fx("nightly load test", "infra", TaskStatus::Idle),
        fx("reverse proxy", "homelab", TaskStatus::Idle),
    ];
    let mut o = Overlay::empty(false);
    o.list.rows = rows.into_iter().map(row).collect();
    o.list.apply_filter();
    o.current = Some("overlay-screenshot".into());
    o.list.input_mode = InputMode::Normal;
    o.list.focus = Focus::List;
    o.list.selected = 1; // the blocked one, so the preview shows its dialog
    o.set_preview(Some("%1".into()), Some(PREVIEW_FIXTURE));
    o
}

fn ch(c: char) -> KeyEvent {
    KeyEvent::new(KeyCode::Char(c), KeyModifiers::none())
}

fn press(code: KeyCode) -> KeyEvent {
    KeyEvent::new(code, KeyModifiers::none())
}

fn run(o: &mut Overlay, cmd: &str) -> Effect {
    o.list.mode = Mode::Command(cmd.to_string());
    o.handle_key(press(KeyCode::Enter))
}

#[test]
fn renders_every_section_and_chip_from_fixtures() {
    let mut overlay = fixture_overlay();
    let text = draw(&mut overlay, COLS, ROWS);
    for needle in [
        "SECRETS PENDING",
        "WAITING FOR INPUT",
        "WORKING",
        "INACTIVE",
        "wants STRIPE_WEBHOOK_SECRET",
        "permission prompt",
        "flaky checkout e2e",
        "Do you want to proceed?",
        "1. Yes",
        "y approve",
        " current ",
        "#781 merged",
        "#14 …",
        "#112 ✗",
        "#113 draft",
        ":8080",
        " NORMAL ",
    ] {
        assert!(text.contains(needle), "expected {needle:?} in:\n{text}");
    }
}

#[test]
fn empty_overlay_shows_the_mark() {
    let mut overlay = Overlay::empty(false);
    overlay.list.apply_filter();
    let text = draw(&mut overlay, 60, 14);
    for needle in ["━━━━━━━", "━━━━ ●", "tenx", "no tasks yet — :n to create one"] {
        assert!(text.contains(needle), "expected {needle:?} in:\n{text}");
    }
}

#[test]
fn a_narrow_overlay_has_no_preview() {
    let mut o = fixture_overlay();
    assert!(o.render_list(Rect::new(0, 0, 100, ROWS)).1.is_some());
    assert!(o.render_list(Rect::new(0, 0, 99, ROWS)).1.is_none());
    o.set_preview(None, Some("text"));
    assert!(o.render_list(Rect::new(0, 0, COLS, ROWS)).1.is_none());
}

#[test]
fn a_pane_that_is_gone_says_so() {
    let mut o = fixture_overlay();
    assert_eq!(o.preview_pane().as_deref(), Some("%1"));
    o.set_preview(Some("%1".into()), None);
    assert_eq!(o.preview_lines().lines[0].plain(), "  the pane is gone");
    o.list.tab = Tab::Repos;
    assert_eq!(o.preview_pane(), None);
}

#[test]
fn the_columns_line_up() {
    let mut o = fixture_overlay();
    let text = draw(&mut o, COLS, ROWS);
    let start = |title: &str, ws: &str| {
        let line = text.lines().find(|l| l.contains(title)).unwrap();
        line[..line.find(ws).unwrap()].chars().count()
    };
    assert_eq!(start("csv export", "ledger"), start("dark mode", "docs"));
}

#[test]
fn quitting_closes_the_floating_pane_but_not_the_home_pane() {
    let mut o = fixture_overlay();
    assert!(matches!(o.handle_key(ch('q')), Effect::Close));
    let mut home = fixture_overlay();
    home.home = true;
    assert!(matches!(home.handle_key(ch('q')), Effect::Nothing));
    assert_eq!(home.list.status_msg.as_deref(), Some(HOME_HINT));
}

#[test]
fn jumping_opens_here_or_hands_over() {
    let mut o = fixture_overlay();
    match o.jump(Some(SESSION)) {
        Route::Here { ws_idx, slug } => assert_eq!((ws_idx, slug.as_str()), (0, "add-release-workflow")),
        r => panic!("{r:?}"),
    }
    assert!(o.attach.is_none());
    // In another session the client is taken over to ours.
    match o.jump(Some("work")) {
        Route::Over { tab_id, title } => assert_eq!((tab_id, title.as_str()), (Some(7), "add release workflow")),
        r => panic!("{r:?}"),
    }
    assert!(o.attach.is_none());
    // Outside a session the process leaves and attaches to the task's tab.
    match o.jump(None) {
        Route::Leave => {},
        r => panic!("{r:?}"),
    }
    let target = o.attach.as_ref().unwrap();
    assert_eq!((target.tab_id, target.title.as_str()), (Some(7), "add release workflow"));
    let mut none = Overlay::empty(false);
    assert!(matches!(none.jump(Some(SESSION)), Route::Nothing));
}

#[test]
fn opening_closes_the_floating_pane() {
    let mut o = fixture_overlay();
    let rows = fixture_overlay().list.rows;
    assert!(o.opened(rows));
    let mut home = fixture_overlay();
    home.home = true;
    let rows = fixture_overlay().list.rows;
    assert!(!home.opened(rows));
}

#[test]
fn closing_a_tab_is_told() {
    let mut o = fixture_overlay();
    o.tab_closed(None);
    assert_eq!(o.list.status_msg.as_deref(), Some("no open tab"));
    let rows = fixture_overlay().list.rows;
    o.tab_closed(Some(rows));
    assert_eq!(o.list.status_msg.as_deref(), Some("closed tab"));
}

#[test]
fn an_overlay_prompt_is_answered_with_y_and_n() {
    let mut o = fixture_overlay();
    assert_eq!(o.list.rows[1].waiting_for.as_deref(), Some(PERMISSION_PROMPT));
    match o.handle_key(ch('y')) {
        Effect::Answer { yes, title, .. } => assert!(yes && title == "add release workflow"),
        e => panic!("{e:?}"),
    }
    match o.handle_key(ch('N')) {
        Effect::Answer { yes, .. } => assert!(!yes),
        e => panic!("{e:?}"),
    }
}

#[test]
fn tabs_toggle_between_tasks_and_repos() {
    let mut o = fixture_overlay();
    let _ = o.handle_key(ch('g'));
    let e = o.handle_key(ch('t'));
    assert!(matches!(e, Effect::ScanRepos));
    assert_eq!(o.list.tab, Tab::Repos);
    let _ = o.handle_key(ch('g'));
    let _ = o.handle_key(ch('T'));
    assert_eq!(o.list.tab, Tab::Tasks);
}

#[test]
fn overlay_commands_reach_their_actions() {
    let mut o = fixture_overlay();
    let _ = run(&mut o, "d");
    assert!(matches!(o.list.mode, Mode::Confirm(_)));
    let _ = o.handle_key(press(KeyCode::Esc));
    assert!(matches!(o.list.mode, Mode::List));
    let _ = run(&mut o, "frobnicate");
    assert_eq!(o.list.status_msg.as_deref(), Some("unknown command: :frobnicate"));
    assert!(matches!(run(&mut o, "q"), Effect::Close));
}

#[test]
fn an_overlay_click_selects_and_never_jumps() {
    let mut o = fixture_overlay();
    let _ = draw(&mut o, COLS, ROWS);
    let a = o.list.list_area;
    let m = MouseEvent {
        kind: MouseEventKind::Down(MouseButton::Left),
        column: a.x + 2,
        row: a.y + 2,
        modifiers: KeyModifiers::none(),
    };
    assert!(matches!(o.handle_mouse(m), Effect::Nothing));
    assert_eq!(o.list.selected, 0);
    assert!(o.attach.is_none());
}

#[test]
fn the_overlay_answers_only_a_visible_permission_prompt() {
    let state = |status, waiting_for: Option<&str>, pane: Option<&str>| RowState {
        status,
        glyph: "○".into(),
        changed: None,
        age: "1s".into(),
        waiting_for: waiting_for.map(str::to_string),
        pane: pane.map(str::to_string),
        tab_id: None,
    };
    let mut o = fixture_overlay();
    assert_eq!(o.check_prompt("t", &state(TaskStatus::Working, None, Some("%4"))), None);
    assert_eq!(o.list.status_msg.as_deref(), Some("'t' is not waiting on a prompt"));
    assert_eq!(o.check_prompt("t", &state(TaskStatus::Blocked, Some("a question"), Some("%4"))), None);
    assert_eq!(o.check_prompt("t", &state(TaskStatus::Blocked, Some(PERMISSION_PROMPT), None)), None);
    let ok = state(TaskStatus::Blocked, Some(PERMISSION_PROMPT), Some("%4"));
    assert_eq!(o.check_prompt("t", &ok).as_deref(), Some("%4"));
    assert!(!o.check_dialog("t", false));
    assert!(o.list.status_msg.as_deref().unwrap().contains("no permission dialog on screen"));
    assert!(o.check_dialog("t", true));
    o.answered(false, "t");
    assert_eq!(o.list.status_msg.as_deref(), Some("denied 't'"));
}

#[test]
fn the_home_pane_swallows_every_close() {
    let mut o = fixture_overlay();
    assert!(o.leave(true));
    assert!(!o.leave(false));
    o.home = true;
    o.list.status_msg = None;
    assert!(!o.leave(false));
    assert_eq!(o.list.status_msg, None);
    assert!(!o.leave(true));
    assert_eq!(o.list.status_msg.as_deref(), Some(HOME_HINT));
}

#[test]
fn a_narrow_pane_drops_the_age_first() {
    let o = fixture_overlay();
    let shown = |w: usize| {
        let lines: Vec<String> = o.task_items(w).items.iter().flat_map(|i| i.lines.iter().map(|l| l.plain())).collect();
        (lines.iter().any(|l| l.contains("  open")), lines.iter().any(|l| l.contains("  54m")))
    };
    assert_eq!(shown(80), (true, true));
    assert_eq!(shown(40), (true, false));
    assert_eq!(shown(30), (false, false));
}

#[test]
fn a_click_on_an_older_screen_selects_nothing() {
    let mut o = fixture_overlay();
    let _ = o.render_list(Rect::new(0, 0, 80, 40));
    let rows = fixture_overlay().list.rows.into_iter().take(1).collect();
    o.list.set_rows(rows);
    let (line, pos) =
        o.list.line_to_pos.iter().enumerate().find_map(|(i, p)| p.filter(|p| *p == 3).map(|p| (i, p))).unwrap();
    let row = o.list.list_area.y + 1 + line as u16;
    let click = MouseEvent {
        kind: MouseEventKind::Down(MouseButton::Left),
        column: o.list.list_area.x + 2,
        row,
        modifiers: KeyModifiers::none(),
    };
    assert!(matches!(o.handle_mouse(click), Effect::Nothing));
    assert_eq!(o.list.selected, pos);
    assert!(o.list.selected_row().is_none());
    let _ = o.handle_key(ch('j'));
    assert_eq!(o.list.selected, 0);
}

#[test]
fn overlay_forms_have_a_plain_frame() {
    let mut o = fixture_overlay();
    assert!(o.form_screen().is_none());
    o.list.start_create();
    assert_eq!(o.form_screen().unwrap().border, Style::plain());
}

#[test]
fn overlay_keys_keep_the_selection_on_the_list() {
    let mut o = fixture_overlay();
    for k in "jjjGjkggjgtjjgTk/cartx".chars() {
        let _ = o.handle_key(ch(k));
        assert!(o.list.filtered.is_empty() && o.list.selected == 0 || o.list.selected < o.list.filtered.len(), "{k}");
    }
}
