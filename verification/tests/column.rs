//! The column, drawn through the real widgets at its width.
use ratatui::backend::TestBackend;
use ratatui::buffer::Buffer;
use ratatui::style::{Color as Ink, Modifier as Attr, Style as Look};
use ratatui::text::{Line as TextLine, Span as TextSpan, Text};
use ratatui::widgets::{Block, Borders, List, ListItem, ListState, Paragraph};
use ratatui::Terminal;

use tenx::column::{ClientRequest, Column, PERMISSION_PROMPT};
use tenx::column_events::{new_task_row, Found, NewTask};
use tenx::column_view::ListScreen;
use tenx::input::{KeyCode, KeyEvent, KeyModifiers, MouseButton, MouseEvent, MouseEventKind, Rect};
use tenx::job::{Job, Then};
use tenx::list::{Effect, Focus, InputMode, Mode, PrChip, Row, Subagent, Tab};
use tenx::list_events::{Live, RepoFact, RowState, Window};
use tenx::mouse;
use tenx::progress::{Phase, Plan, Snapshot, StepState};
use tenx::status::{TaskGroup, TaskStatus};
use tenx::style::{Color, Line, Style, Tone};
use tenx::workspace::{RepoConfig, Workspace, WorkspaceConfig};

const COLS: u16 = 36;
const ROWS: u16 = 64;
const CURRENT: Ink = Ink::Rgb(1, 2, 3);

// ── Drawing ──────────────────────────────────────────────────────────────────

fn ink(c: Color) -> Ink {
    match c {
        Color::Tone(Tone::Current) => CURRENT,
        Color::Tone(_) => Ink::Reset,
        _ => Ink::Reset,
    }
}

fn look(s: Style) -> Look {
    let mut l = Look::default();
    if let Some(c) = s.fg {
        l = l.fg(ink(c));
    }
    if s.add_modifier.bold {
        l = l.add_modifier(Attr::BOLD);
    }
    l
}

fn text_line(l: &Line) -> TextLine<'static> {
    TextLine::from(l.spans.iter().map(|s| TextSpan::styled(s.content.clone(), look(s.style))).collect::<Vec<_>>())
}

fn area(r: Rect) -> ratatui::layout::Rect {
    ratatui::layout::Rect::new(r.x, r.y, r.width, r.height)
}

fn paint(f: &mut ratatui::Frame, s: &ListScreen, offset: &mut usize) {
    f.render_widget(Paragraph::new(text_line(&s.tabs)), area(s.areas.tabs));
    let frame = Block::default().borders(Borders::ALL).title(s.search_title);
    f.render_widget(Paragraph::new(text_line(&s.search)).block(frame), area(s.areas.search));
    let items: Vec<ListItem> = s
        .body
        .items
        .iter()
        .map(|i| ListItem::new(Text::from(i.lines.iter().map(text_line).collect::<Vec<_>>())))
        .collect();
    let mut state = ListState::default().with_offset(*offset).with_selected(s.highlighted);
    let list = List::new(items).block(Block::default().borders(Borders::ALL));
    f.render_stateful_widget(list, area(s.areas.list), &mut state);
    *offset = state.offset();
    f.render_widget(Paragraph::new(text_line(&s.footer)), area(s.areas.footer));
}

fn draw(column: &mut Column, cols: u16, rows: u16) -> Buffer {
    let mut term = Terminal::new(TestBackend::new(cols, rows)).unwrap();
    term.draw(|f| {
        let screen = column.render_list(Rect::new(0, 0, cols, rows));
        let mut offset = column.list.offset;
        paint(f, &screen, &mut offset);
        column.list.offset = offset;
    })
    .unwrap();
    term.backend().buffer().clone()
}

/// The column's lines as plain strings, ground and colours dropped.
fn render(column: &mut Column, rows: u16) -> Vec<String> {
    let buf = draw(column, COLS, rows);
    (0..buf.area.height)
        .map(|y| (0..buf.area.width).map(|x| buf[(x, y)].symbol().to_string()).collect::<String>().trim_end().to_string())
        .collect()
}

fn plain_text(buf: &Buffer) -> String {
    let mut s = String::new();
    for y in 0..buf.area.height {
        for x in 0..buf.area.width {
            s.push_str(buf[(x, y)].symbol());
        }
        s.push('\n');
    }
    s
}

// ── Fixtures ─────────────────────────────────────────────────────────────────

struct Fx {
    title: &'static str,
    ws: &'static str,
    status: TaskStatus,
    age: &'static str,
    open: bool,
    prs: Vec<(&'static str, &'static str)>,
    ports: Vec<u16>,
    waiting_for: Option<&'static str>,
    secrets: Vec<&'static str>,
}

fn fx(title: &'static str, ws: &'static str, status: TaskStatus) -> Fx {
    Fx { title, ws, status, age: "now", open: false, prs: vec![], ports: vec![], waiting_for: None, secrets: vec![] }
}

fn row(f: Fx) -> Row {
    let slug = f.title.to_lowercase().replace(' ', "-");
    let changed = if f.status != TaskStatus::Idle { Some(1000) } else { None };
    Row {
        ws_idx: 0,
        ws_name: f.ws.into(),
        path: format!("/home/you/{}/tasks/{slug}", f.ws),
        slug,
        title: f.title.into(),
        status: f.status,
        group: f.status,
        glyph: "●".into(),
        changed,
        age: f.age.into(),
        waiting_for: f.waiting_for.map(str::to_string),
        activity: changed.unwrap_or(0),
        window_id: if f.open { Some("@1".into()) } else { None },
        tab_id: None,
        pane: if f.open && f.status != TaskStatus::Idle { Some("%1".into()) } else { None },
        prs: f.prs.iter().map(|(c, k)| PrChip { chip: c.to_string(), checks: k.to_string() }).collect(),
        ports: f.ports,
        repos: vec![],
        section: if f.secrets.is_empty() { f.status.group() } else { TaskGroup::SecretsPending },
        secrets_pending: f.secrets.iter().map(|s| s.to_string()).collect(),
        secrets_pending_set: vec![],
        agent: None,
        subagents: vec![],
    }
}

/// Every section and every kind of chip, on invented tasks, in display order.
fn fixture_rows() -> Vec<Row> {
    let mut rows: Vec<Row> = vec![
        Fx { secrets: vec!["STRIPE_WEBHOOK_SECRET"], open: true, ..fx("stripe webhook signing", "ledger", TaskStatus::Idle) },
        Fx {
            waiting_for: Some("permission: Bash"),
            open: true,
            age: "4m",
            ..fx("add release workflow", "tenx-workspace", TaskStatus::Blocked)
        },
        Fx { open: true, age: "22h", ..fx("rotate signing keys", "infra", TaskStatus::Signaled) },
        Fx { open: true, age: "54m", ports: vec![8080], ..fx("rate limit middleware", "acme-api", TaskStatus::Done) },
        Fx { open: true, age: "2h", ..fx("flaky checkout e2e", "storefront", TaskStatus::Done) },
        Fx { open: true, age: "23h", prs: vec![("#31 ✓", "success")], ..fx("csv export", "ledger", TaskStatus::Done) },
        Fx { open: true, ..fx("column screenshot", "tenx-workspace", TaskStatus::Working) },
        Fx { open: true, prs: vec![("#24 merged", "success")], ..fx("onboarding emails", "ledger", TaskStatus::Working) },
        fx("cart abandonment banner", "storefront", TaskStatus::Idle),
        fx("terraform drift check", "infra", TaskStatus::Idle),
        fx("homebrew tap", "tenx-workspace", TaskStatus::Idle),
        Fx {
            prs: vec![("#781 merged", "success"), ("#404 merged", "success")],
            ..fx("ACME-2244 search ranking", "acme-api", TaskStatus::Idle)
        },
        fx("image cdn migration", "storefront", TaskStatus::Idle),
        fx("upgrade postgres 17", "infra", TaskStatus::Idle),
        Fx { prs: vec![("#14 …", "pending")], ..fx("multi-currency totals", "ledger", TaskStatus::Idle) },
        fx("backup restore drill", "homelab", TaskStatus::Idle),
        fx("api reference sweep", "docs", TaskStatus::Idle),
        Fx { prs: vec![("#112 ✗", "failure")], ..fx("ACME-2301 webhook retries", "acme-api", TaskStatus::Idle) },
        Fx { prs: vec![("#113 draft", "")], ..fx("dark mode", "docs", TaskStatus::Idle) },
        fx("nightly load test", "infra", TaskStatus::Idle),
        fx("reverse proxy", "homelab", TaskStatus::Idle),
    ]
    .into_iter()
    .map(row)
    .collect();
    // The task you're in has fanned out: one subagent at work, one done.
    if let Some(r) = rows.iter_mut().find(|r| r.slug == "column-screenshot") {
        r.subagents = vec![
            Subagent { description: "Map the session registry".into(), finished: false },
            Subagent { description: "Check hook payloads".into(), finished: true },
        ];
    }
    rows
}

fn fixture_column() -> Column {
    let mut c = Column::empty();
    c.list.rows = fixture_rows();
    c.list.apply_filter();
    c.list.current = Some("column-screenshot".into());
    c.list.input_mode = InputMode::Normal;
    c.list.focus = Focus::List;
    c.list.selected = 1; // "add release workflow" — the blocked one
    c
}

fn running_job() -> Job {
    let mut plan = Plan::new(
        "creating 'checkout flow'",
        vec!["tenx".to_string(), "web-frontend".to_string(), "docs".to_string()],
    );
    plan.steps[0].state = StepState::Done("fetched".into());
    plan.steps[1].state = StepState::Running(Some(Snapshot {
        phase: Phase::Receiving,
        percent: Some(68),
        bytes: Some(13_002_342),
        rate: Some(3_250_585),
    }));
    Job::new(plan, Then::Nothing)
}

fn column_with_jobs(n: usize) -> Column {
    let mut c = fixture_column();
    for _ in 0..n {
        c.list.jobs.push(running_job());
    }
    c
}

fn press(code: KeyCode) -> KeyEvent {
    KeyEvent::new(code, KeyModifiers::none())
}

fn ch(c: char) -> KeyEvent {
    press(KeyCode::Char(c))
}

fn click(column: u16, row: u16) -> MouseEvent {
    MouseEvent { kind: MouseEventKind::Down(MouseButton::Left), column, row, modifiers: KeyModifiers::none() }
}

// ── The list on screen ───────────────────────────────────────────────────────

#[test]
fn column_renders_narrow() {
    let mut column = fixture_column();
    let buf = draw(&mut column, COLS, ROWS);
    let text = plain_text(&buf);
    for needle in [
        "SECRETS PENDING",
        "WAITING FOR INPUT",
        "WORKING",
        "INACTIVE",
        "column screenshot",
        "     tenx-workspace",           // second line, indented under the title
        "      permission: Bash  · 4m", // the reason first, then what else fits
        "     acme-api · 54m · :8080",
        "     ledger · 23h · #31 ✓",
        "wants STRIPE_WEBHOOK_SECRET",
        "     ◐ Map the session registry", // a subagent, under its task
        "     ✔ Check hook payloads",
        " NORMAL ",
        "⏎ open",
    ] {
        assert!(text.contains(needle), "expected {needle:?} in:\n{text}");
    }
    // A click on either line of a task selects that task: both screen lines of
    // the second task (filtered position 1, past a spacer and a header) map back
    // to it, and a header line maps to nothing.
    let heights: Vec<u16> = column.list.item_heights.clone();
    assert!(heights.contains(&2), "task rows are two lines: {heights:?}");
    let list = column.list.list_area;
    let item = column.list.line_to_pos.iter().position(|p| *p == Some(1)).unwrap();
    let y = list.y + 1 + heights[..item].iter().sum::<u16>();
    for line in [y, y + 1] {
        let hit = mouse::item_at_heights(list, 1, 0, &heights, list.x + 2, line).unwrap();
        assert_eq!(column.list.line_to_pos[hit], Some(1), "line {line}");
    }
    let hit = mouse::item_at_heights(list, 1, 0, &heights, list.x + 2, list.y + 1).unwrap();
    assert_eq!(column.list.line_to_pos[hit], None, "the header line is not a task");
    // The current task's title is drawn in the "current" colour.
    let y = text.lines().position(|l| l.contains("column screenshot")).unwrap();
    let at = text.lines().nth(y).unwrap();
    let x = at[..at.find("column").unwrap()].chars().count();
    assert_eq!(buf[(x as u16, y as u16)].fg, CURRENT);
}

#[test]
fn empty_column_shows_the_mark() {
    let mut column = Column::empty();
    column.list.apply_filter();
    let text = plain_text(&draw(&mut column, 60, 14));
    for needle in ["━━━━━━━", "━━━━ ●", "tenx", "no tasks yet — :n to create one"] {
        assert!(text.contains(needle), "expected {needle:?} in:\n{text}");
    }
}

#[test]
fn the_tab_bar_carries_the_running_count() {
    let mut c = column_with_jobs(2);
    let bar = render(&mut c, 24).into_iter().next().unwrap();
    assert!(bar.contains("Tasks"), "{bar}");
    assert!(bar.contains("Repos"), "{bar}");
    assert!(bar.contains("Work"), "{bar}");
    assert!(bar.contains("[2]"), "the count of running jobs belongs in the bar: {bar}");
}

#[test]
fn the_count_disappears_when_nothing_runs() {
    let mut c = fixture_column();
    let bar = render(&mut c, 24).into_iter().next().unwrap();
    assert!(bar.contains("Work"), "{bar}");
    assert!(!bar.contains('['), "no brackets when idle: {bar}");
    // A settled job is listed but is not "running", so it adds no count.
    let mut job = running_job();
    job.outcome = Some(Ok("created 'x'".into()));
    c.list.jobs.push(job);
    let bar = render(&mut c, 24).into_iter().next().unwrap();
    assert!(!bar.contains('['), "a finished job must not be counted: {bar}");
}

#[test]
fn the_task_list_keeps_its_full_height() {
    // The whole reason for moving to a tab: no panel docked under the list.
    let mut idle = fixture_column();
    let before = render(&mut idle, 24);
    let mut busy = column_with_jobs(1);
    let after = render(&mut busy, 24);
    assert_eq!(before.len(), after.len(), "the column's shape must not change when a job starts");
    // Same last task row visible in both: nothing was pushed off.
    let last_row = |v: &Vec<String>| v.iter().rev().find(|l| l.contains('│')).cloned().unwrap_or_default();
    assert_eq!(last_row(&before), last_row(&after), "a job stole rows from the list");
}

#[test]
fn the_work_tab_shows_each_job_with_its_progress() {
    let mut c = column_with_jobs(1);
    c.list.tab = Tab::Work;
    let screen = render(&mut c, 24).join("\n");
    assert!(screen.contains("creating 'checkout flow'"), "{screen}");
    assert!(screen.contains("1/3"), "step counter missing:\n{screen}");
    assert!(screen.contains("✓ tenx"), "{screen}");
    assert!(screen.contains("web-frontend"), "{screen}");
    assert!(screen.contains("receiving"), "{screen}");
    assert!(screen.contains("MiB/s"), "transfer line missing:\n{screen}");
    assert!(screen.contains('█') && screen.contains('░'), "no bar:\n{screen}");
    assert!(screen.contains("12.4 MiB · 3.1 MiB/s"), "{screen}");
    assert!(screen.contains("68%"), "{screen}");
}

#[test]
fn a_failed_job_keeps_its_error_where_it_can_be_read() {
    // The footer message is gone the moment anything else happens; the Work tab
    // is the only record left.
    let mut c = fixture_column();
    let mut job = running_job();
    job.outcome = Some(Err("repository 'x' does not exist".into()));
    c.list.jobs.push(job);
    c.list.tab = Tab::Work;
    let screen = render(&mut c, 24).join("\n");
    assert!(screen.contains('✗'), "a failure needs its own glyph:\n{screen}");
    assert!(screen.contains("does not exist"), "the error must survive:\n{screen}");
}

#[test]
fn an_empty_work_tab_says_so() {
    let mut c = fixture_column();
    c.list.tab = Tab::Work;
    let screen = render(&mut c, 24).join("\n");
    assert!(screen.contains("nothing running"), "{screen}");
}

#[test]
fn an_indeterminate_job_still_shows_movement() {
    // A `git worktree remove` reports no phases at all. It must not sit on a bar
    // frozen at zero, which reads as a hang.
    let mut c = fixture_column();
    let mut plan = Plan::new("deleting 'csv export'", vec!["csv export".to_string()]);
    plan.steps[0].state = StepState::Running(None);
    c.list.jobs.push(Job::new(plan, Then::Nothing));
    c.list.tab = Tab::Work;

    let a = render(&mut c, 24).join("\n");
    c.frame += 3;
    let b = render(&mut c, 24).join("\n");
    assert!(a.contains('█'), "no marquee:\n{a}");
    assert_ne!(a, b, "the indeterminate bar does not move");
    assert!(!a.contains('%'), "nothing to be a percent of yet:\n{a}");
}

#[test]
fn the_search_cursor_stands_behind_wide_text() {
    let mut c = fixture_column();
    c.list.filter = "日x".into();
    c.list.apply_filter();
    c.list.focus_search();
    let s = c.render_list(Rect::new(0, 0, COLS, 24));
    // The box starts at the left edge: a border, the two-cell prompt, then three cells.
    assert_eq!(s.cursor, Some((1 + 2 + 3, s.areas.search.y + 1)));
}

#[test]
fn repos_are_listed_under_their_workspace() {
    let mut c = Column::empty();
    c.list.workspaces = vec![workspace("acme", &["api", "web"])];
    c.list.tab = Tab::Repos;
    let facts = vec![vec![
        RepoFact { exists: true, last_commit: Some("fix the thing".into()) },
        RepoFact { exists: false, last_commit: Some("stale".into()) },
    ]];
    c.list.scanned(&facts);
    let screen = render(&mut c, 24).join("\n");
    for needle in ["acme", "● api   fix the thing", "○ web   not cloned"] {
        assert!(screen.contains(needle), "{needle}:\n{screen}");
    }
    assert!(!screen.contains("stale"), "{screen}");
}

// ── Tabs and clicks ──────────────────────────────────────────────────────────

#[test]
fn tabs_cycle_both_ways_through_all_three() {
    let mut c = fixture_column();
    assert_eq!(c.list.tab, Tab::Tasks);
    c.cycle_tab(false);
    assert_eq!(c.list.tab, Tab::Repos);
    c.cycle_tab(false);
    assert_eq!(c.list.tab, Tab::Work);
    c.cycle_tab(false);
    assert_eq!(c.list.tab, Tab::Tasks, "gt wraps");
    c.cycle_tab(true);
    assert_eq!(c.list.tab, Tab::Work, "gT goes back");
}

#[test]
fn dd_dismisses_a_settled_job_but_not_a_running_one() {
    let mut c = column_with_jobs(1);
    c.list.tab = Tab::Work;
    c.list.work_selected = 0;
    c.dismiss_job();
    assert_eq!(c.list.jobs.len(), 1, "a running job must not be dismissed");
    assert!(c.list.status_msg.as_deref().unwrap_or("").contains("still running"));

    c.list.jobs[0].outcome = Some(Ok("created".into()));
    c.dismiss_job();
    assert!(c.list.jobs.is_empty(), "a settled job clears");
}

#[test]
fn a_click_selects_the_tab_actually_under_it() {
    // The bar is laid out by hand so the spans are exact; a click on "Work" must
    // not land on "Repos" the way a half-split would.
    let mut c = column_with_jobs(1);
    let _ = render(&mut c, 24);
    let spans = c.tab_spans.clone();
    assert_eq!(spans.len(), 3, "three tabs recorded");
    for (i, tab) in Tab::ALL.iter().enumerate() {
        let (a, b) = spans[i];
        assert!(b > a, "tab {i} has no width");
        let mid = c.list.tabs_area.x + (a + b) / 2;
        c.handle_mouse(click(mid, c.list.tabs_area.y));
        assert_eq!(c.list.tab, *tab, "click at {mid} should select {tab:?}");
    }
}

#[test]
fn the_wheel_scrolls_and_a_click_selects() {
    let mut c = fixture_column();
    let _ = render(&mut c, 24);
    let selected = c.list.selected;
    let wheel = MouseEvent { kind: MouseEventKind::ScrollDown, ..click(2, 6) };
    assert!(matches!(c.handle_mouse(wheel), Effect::Nothing));
    assert_eq!((c.list.offset, c.list.selected), (1, selected));
    let _ = c.handle_mouse(MouseEvent { kind: MouseEventKind::ScrollUp, ..click(2, 6) });
    assert_eq!(c.list.offset, 0);
    // The first task stands under its heading.
    let area = c.list.list_area;
    let e = c.handle_mouse(click(area.x + 2, area.y + 2));
    assert_eq!(c.list.selected, 0);
    assert!(matches!(e, Effect::Switch(s) if s == "stripe-webhook-signing"));
}

// ── Keys ─────────────────────────────────────────────────────────────────────

#[test]
fn moving_onto_an_open_task_switches_to_it() {
    let mut c = fixture_column();
    assert!(matches!(c.handle_key(ch('j')), Effect::Switch(s) if s == "rotate-signing-keys"));
    c.switched("rotate-signing-keys".into());
    assert_eq!(c.list.current.as_deref(), Some("rotate-signing-keys"));
    // A closed task is only selected.
    assert!(matches!(c.handle_key(ch('G')), Effect::Nothing));
    assert_eq!(c.selected_closed().as_deref(), Some("reverse proxy"));
    // From the search field the list is entered after the task one sits in.
    c.blur();
    let _ = c.handle_key(press(KeyCode::Down));
    assert_eq!(c.list.selected, 3);
    c.blur();
    c.select_current();
    assert_eq!(c.list.selected, 2);
}

#[test]
fn filtering_and_opening_the_top_match() {
    let mut c = fixture_column();
    c.offline = true;
    let _ = c.handle_key(ch('/'));
    for k in "onb".chars() {
        let _ = c.handle_key(ch(k));
    }
    assert_eq!(c.list.rows[c.list.filtered[0]].slug, "onboarding-emails");
    assert!(matches!(c.handle_key(press(KeyCode::Enter)), Effect::Nothing));
    assert_eq!(c.list.current.as_deref(), Some("onboarding-emails"));
    assert_eq!(c.take_request(), Some(ClientRequest::FocusTerminal));
    assert!(c.list.filter.is_empty());
    assert_eq!(c.list.rows[c.list.filtered[c.list.selected]].slug, "onboarding-emails");
}

#[test]
fn filtering_ignores_the_case() {
    let mut c = fixture_column();
    c.list.filter = "ÉCRAN acme".into();
    c.list.apply_filter();
    assert!(c.list.filtered.is_empty());
    c.list.rows[0].title = "écran d'accueil".into();
    c.list.rows[0].ws_name = "ACME".into();
    c.list.filter = "acme ÉCRAN".into();
    c.list.apply_filter();
    assert_eq!(c.list.filtered, vec![0]);
}

#[test]
fn a_prompt_is_answered_from_the_column() {
    let mut c = fixture_column();
    c.list.rows[1].waiting_for = Some(PERMISSION_PROMPT.into());
    assert!(c.selected_answerable());
    match c.handle_key(ch('y')) {
        Effect::Answer { yes, title, .. } => assert!(yes && title == "add release workflow"),
        e => panic!("{e:?}"),
    }
    c.offline = true;
    let _ = c.handle_key(ch('N'));
    assert_eq!(c.list.status_msg.as_deref(), Some("denied 'add release workflow'"));
    assert_eq!(c.list.rows[1].status, TaskStatus::Working);
    assert!(c.sections_stale());
}

fn state(status: TaskStatus, waiting_for: Option<&str>, pane: Option<&str>) -> RowState {
    RowState {
        status,
        glyph: "○".into(),
        changed: Some(77),
        age: "1s".into(),
        waiting_for: waiting_for.map(str::to_string),
        pane: pane.map(str::to_string),
        tab_id: None,
    }
}

#[test]
fn only_a_permission_prompt_in_a_known_pane_is_answered() {
    let mut c = fixture_column();
    assert_eq!(c.check_prompt("t", &state(TaskStatus::Working, None, None)), None);
    assert_eq!(c.list.status_msg.as_deref(), Some("'t' is not waiting on a prompt"));
    assert_eq!(c.check_prompt("t", &state(TaskStatus::Blocked, Some("a question"), None)), None);
    assert_eq!(c.list.status_msg.as_deref(), Some("'t' is waiting on a question — open it to answer (⏎)"));
    assert_eq!(c.check_prompt("t", &state(TaskStatus::Blocked, Some(PERMISSION_PROMPT), None)), None);
    assert_eq!(c.list.status_msg.as_deref(), Some("'t': no pane known for its session"));
    let ok = state(TaskStatus::Blocked, Some(PERMISSION_PROMPT), Some("%4"));
    assert_eq!(c.check_prompt("t", &ok).as_deref(), Some("%4"));
    assert!(!c.check_dialog("t", false));
    assert!(c.list.status_msg.as_deref().unwrap().contains("no permission dialog on screen"));
    assert!(c.check_dialog("t", true));
    c.answered(true, "t");
    assert_eq!(c.list.status_msg.as_deref(), Some("approved 't'"));
}

#[test]
fn a_quit_key_goes_back_to_the_task() {
    let mut c = fixture_column();
    assert!(matches!(c.handle_key(ch('q')), Effect::Nothing));
    assert_eq!(c.take_request(), Some(ClientRequest::FocusTerminal));
    assert_eq!(c.take_request(), None);
}

fn column_mid_job() -> Column {
    let mut c = fixture_column();
    let mut plan = Plan::new("creating 'checkout flow'", vec!["tenx".to_string()]);
    plan.steps[0].state = StepState::Running(None);
    c.list.jobs.push(Job::new(plan, Then::Nothing));
    c
}

fn run(c: &mut Column, cmd: &str) -> Effect {
    c.list.mode = Mode::Command(cmd.to_string());
    c.handle_key(press(KeyCode::Enter))
}

#[test]
fn plain_quit_is_refused_while_a_job_runs() {
    let mut c = column_mid_job();
    run(&mut c, "q");
    assert_eq!(c.take_request(), None, "quit must not go through");
    let msg = c.list.status_msg.clone().unwrap_or_default();
    assert!(msg.contains("creating 'checkout flow'"), "must name the job: {msg}");
    assert!(msg.contains(":q!"), "must say how to quit anyway: {msg}");
}

#[test]
fn bang_quit_goes_anyway() {
    let mut c = column_mid_job();
    run(&mut c, "q!");
    assert_eq!(c.take_request(), Some(ClientRequest::Quit));
}

#[test]
fn quit_is_unaffected_when_nothing_is_running() {
    let mut c = fixture_column();
    run(&mut c, "q");
    assert_eq!(c.take_request(), Some(ClientRequest::Quit));
}

#[test]
fn a_landed_job_does_not_block_quit() {
    // The job finished but its outcome hasn't been folded in yet; there is
    // nothing left to interrupt, so quit must not be held up.
    let mut c = column_mid_job();
    c.list.jobs[0].outcome = Some(Ok("created".into()));
    run(&mut c, "q");
    assert_eq!(c.take_request(), Some(ClientRequest::Quit));
}

#[test]
fn commands_reach_their_actions() {
    let mut c = fixture_column();
    run(&mut c, "hide");
    assert_eq!(c.take_request(), Some(ClientRequest::Hide));
    run(&mut c, "d");
    assert!(matches!(c.list.mode, Mode::Confirm(_)));
    match c.handle_key(ch('y')) {
        Effect::Delete { slug, title, .. } => assert_eq!((slug.as_str(), title.as_str()), ("add-release-workflow", "add release workflow")),
        e => panic!("{e:?}"),
    }
    run(&mut c, "frobnicate");
    assert_eq!(c.list.status_msg.as_deref(), Some("unknown command: :frobnicate"));
    run(&mut c, "cancel");
    assert_eq!(c.list.status_msg.as_deref(), Some("no pending secrets for that task"));
    c.list.selected = 0;
    assert!(matches!(run(&mut c, "cancel"), Effect::CancelSecrets { .. }));
    run(&mut c, "u");
    assert_eq!(c.list.take_unlock(), Some((0, "stripe-webhook-signing".to_string())));
    assert_eq!(c.list.take_unlock(), None);
    run(&mut c, "repos");
    assert_eq!(c.list.tab, Tab::Repos);
    run(&mut c, "d");
    assert_eq!(c.list.status_msg.as_deref(), Some("switch to Tasks (:tasks) for that"));
}

// ── Outcomes ─────────────────────────────────────────────────────────────────

fn workspace(name: &str, repos: &[&str]) -> Workspace {
    Workspace {
        dir: format!("/w/{name}"),
        config: WorkspaceConfig {
            name: name.into(),
            layout: String::new(),
            repos: repos.iter().map(|r| RepoConfig { name: r.to_string(), url: format!("git@x:{r}") }).collect(),
            age_identity: None,
        },
    }
}

#[test]
fn a_new_task_is_selected_and_opened() {
    let mut c = fixture_column();
    c.list.workspaces = vec![workspace("ledger", &["api"])];
    let _ = c.handle_key(ch('n'));
    for k in " rate limit alerts ".chars() {
        let _ = c.handle_key(ch(k));
    }
    let (ws_idx, name, repos) = match c.handle_key(press(KeyCode::Enter)) {
        Effect::Create { ws_idx, name, repos } => (ws_idx, name, repos),
        e => panic!("{e:?}"),
    };
    assert_eq!((name.as_str(), repos.len()), ("rate limit alerts", 1));
    assert!(matches!(c.list.mode, Mode::Create(_)), "the form stays until the task is there");
    c.offline = true;
    let t = NewTask {
        ws_idx,
        slug: "rate-limit-alerts".into(),
        name,
        repos,
        agent: None,
        glyph: "▷".into(),
        age: "now".into(),
        now: 5000,
    };
    let r = new_task_row(t, &c.list.workspaces[0]);
    assert_eq!(r.path, "/w/ledger/tasks/rate-limit-alerts");
    let _ = c.created_here(r);
    assert_eq!(c.list.current.as_deref(), Some("rate-limit-alerts"));
    assert_eq!(c.list.rows[c.list.filtered[c.list.selected]].title, "rate limit alerts");
    assert!(matches!(c.list.mode, Mode::List));
}

#[test]
fn a_task_made_outside_is_opened_through_an_effect() {
    let mut c = fixture_column();
    let found = Found { rows: fixture_rows(), current: None };
    match c.created(0, "dark-mode", "dark mode", found) {
        Effect::Open { slug, .. } => assert_eq!(slug, "dark-mode"),
        e => panic!("{e:?}"),
    }
    assert_eq!(c.list.status_msg.as_deref(), Some("created 'dark mode'"));
    let found = Found { rows: fixture_rows(), current: None };
    assert!(matches!(c.created(0, "nowhere", "nowhere", found), Effect::Nothing));
}

#[test]
fn tidying_keeps_the_selection_on_its_task() {
    let mut c = fixture_column();
    let mut rows = fixture_rows();
    rows[1].section = TaskGroup::Inactive;
    c.tidy(Found { rows, current: None });
    assert_eq!(c.list.rows[c.list.filtered[c.list.selected]].slug, "add-release-workflow");
    assert_ne!(c.list.selected, 1);
}

#[test]
fn a_refresh_moves_no_row() {
    let mut c = fixture_column();
    let order: Vec<String> = c.list.rows.iter().map(|r| r.slug.clone()).collect();
    let n = c.list.rows.len();
    c.refresh_statuses((0..n).map(|_| state(TaskStatus::Working, None, Some("%9"))).collect(), Some("dark-mode".into()));
    assert_eq!(order, c.list.rows.iter().map(|r| r.slug.clone()).collect::<Vec<_>>());
    assert!(c.list.rows.iter().all(|r| r.status == TaskStatus::Working && r.activity == 77));
    assert_eq!(c.list.current.as_deref(), Some("dark-mode"));
    let windows = vec![Window { id: "@3".into(), name: "dark-mode".into(), active: true }];
    let lives = (0..n).map(|_| Live { prs: vec![], ports: vec![1], subagents: vec![] }).collect();
    c.list.refresh_slow(&windows, lives);
    let open: Vec<&str> = c.list.rows.iter().filter(|r| r.window_id.is_some()).map(|r| r.slug.as_str()).collect();
    assert_eq!(open, vec!["dark-mode"]);
    c.refresh_windows(&windows, "home", 10);
    assert!(!c.slow_due(2009) && c.slow_due(2010));
    assert!(c.rows_stale(n + 1) && !c.rows_stale(n));
}

#[test]
fn sweeps_are_rate_limited() {
    let mut c = fixture_column();
    assert!(c.maybe_sweep(1000));
    assert!(!c.maybe_sweep(300_999));
    assert!(c.maybe_sweep(301_000));
    c.swept(0, Found { rows: vec![], current: None });
    assert_eq!(c.list.status_msg, None);
    c.swept(1, Found { rows: fixture_rows(), current: None });
    assert_eq!(c.list.status_msg.as_deref(), Some("swept 1 idle tab"));
    c.swept(3, Found { rows: fixture_rows(), current: None });
    assert_eq!(c.list.status_msg.as_deref(), Some("swept 3 idle tabs"));
}

#[test]
fn outcomes_are_told() {
    let found = || Found { rows: fixture_rows(), current: None };
    let mut c = fixture_column();
    c.repos_set(0, "dark-mode", "dark mode", 2, 0, found());
    assert_eq!(c.list.status_msg.as_deref(), Some("added 2 repo(s) to 'dark mode'"));
    c.repos_set(0, "dark-mode", "dark mode", 0, 1, found());
    assert_eq!(c.list.status_msg.as_deref(), Some("detached 1 repo(s) from 'dark mode'"));
    c.repos_set(0, "dark-mode", "dark mode", 2, 1, found());
    assert_eq!(c.list.status_msg.as_deref(), Some("added 2, detached 1 in 'dark mode'"));
    c.deleted("x", found());
    assert_eq!(c.list.status_msg.as_deref(), Some("deleted 'x'"));
    c.window_closed(None);
    assert_eq!(c.list.status_msg.as_deref(), Some("no open window"));
    c.window_closed(Some(found()));
    assert_eq!(c.list.status_msg.as_deref(), Some("closed window"));
    c.renamed(0, "dark-mode", found());
    assert_eq!(c.list.status_msg.as_deref(), Some("renamed"));
    c.secrets_cancelled("s", None, found());
    assert_eq!(c.list.status_msg.as_deref(), Some("withdrew pending secrets requests for 's'"));
    c.secrets_cancelled("s", Some("nope"), found());
    assert_eq!(c.list.status_msg.as_deref(), Some("nope"));
    c.failed("broken");
    assert_eq!(c.list.status_msg.as_deref(), Some("broken"));
}

/// Two tasks of one slug, in workspaces 0 and 1.
fn twins() -> Vec<Row> {
    let one = row(Fx { open: true, ..fx("twin", "acme-api", TaskStatus::Done) });
    let two = Row { ws_idx: 1, ..row(fx("twin", "storefront", TaskStatus::Done)) };
    vec![one, two]
}

#[test]
fn the_selection_stays_on_the_task_of_its_workspace() {
    let found = || Found { rows: twins(), current: None };
    let mut c = Column::empty();
    c.rebuild(found());
    for ws in [0, 1] {
        c.list.selected = c.list.position_in(ws, "twin").unwrap();
        c.tidy(found());
        let r = c.list.selected_row().unwrap();
        assert_eq!((r.ws_idx, r.slug.as_str()), (ws, "twin"));
        c.renamed(ws, "twin", found());
        assert_eq!(c.list.selected_row().unwrap().ws_idx, ws);
        c.repos_set(ws, "twin", "twin", 1, 0, found());
        assert_eq!(c.list.selected_row().unwrap().ws_idx, ws);
        c.opened(ws, "twin");
        assert_eq!(c.list.selected_row().unwrap().ws_idx, ws);
    }
}

#[test]
fn a_rename_names_its_workspace() {
    let mut c = Column::empty();
    c.rebuild(Found { rows: twins(), current: None });
    c.list.focus_list();
    c.list.selected = c.list.position_in(1, "twin").unwrap();
    c.list.start_rename();
    match c.handle_key(press(KeyCode::Enter)) {
        Effect::Rename { ws_idx, slug, title, .. } => assert_eq!((ws_idx, slug.as_str(), title.as_str()), (1, "twin", "twin")),
        e => panic!("{e:?}"),
    }
}

#[test]
fn an_empty_filter_lets_everything_through() {
    let mut c = fixture_column();
    c.list.filter = "dark".into();
    c.list.apply_filter();
    assert!(c.list.filtered.len() < c.list.rows.len());
    c.list.filter = String::new();
    c.list.apply_filter();
    assert_eq!(c.list.filtered, (0..c.list.rows.len()).collect::<Vec<_>>());
}

#[test]
fn the_trace_tells_where_the_column_stands() {
    let mut c = Column::empty();
    assert_eq!(c.trace_state(), "Search/Insert sel=- current=None filter=\"\" rows=[]");
    c.rebuild(Found { rows: twins(), current: Some("twin".into()) });
    c.list.focus_list();
    c.list.selected = 1;
    c.list.filter = "t\"".into();
    assert_eq!(
        c.trace_state(),
        "List/Normal sel=1:twin(closed) current=Some(\"twin\") filter=\"t\\\"\" rows=[twin twin~]"
    );
}

#[test]
fn a_click_on_an_older_screen_keeps_its_position() {
    let mut beyond = 0;
    for y in 0..40 {
        let mut c = fixture_column();
        let _ = c.render_list(Rect::new(0, 0, COLS, 40));
        c.rebuild(Found { rows: fixture_rows().into_iter().take(1).collect(), current: None });
        c.list.focus_search();
        let _ = c.handle_mouse(click(4, y));
        if c.list.focus == Focus::List && c.list.selected > 0 {
            beyond += 1;
            assert!(c.list.selected_row().is_none());
        }
    }
    assert!(beyond > 2);
}

#[test]
fn column_forms_are_framed_like_its_list() {
    let mut c = fixture_column();
    assert!(c.form_screen().is_none());
    c.list.start_create();
    let border = c.form_screen().unwrap().border;
    assert_eq!(border, Style::plain().fg(Color::Tone(Tone::Border)));
    let mut listed = fixture_column();
    assert_eq!(listed.render_list(Rect::new(0, 0, COLS, 40)).border, border);
}

#[test]
fn keys_keep_the_selection_on_the_list() {
    let mut c = fixture_column();
    for k in "jjjGjkggjgtjjgTk/darkx".chars() {
        let _ = c.handle_key(ch(k));
        assert!(c.list.filtered.is_empty() && c.list.selected == 0 || c.list.selected < c.list.filtered.len(), "{k}");
    }
}
