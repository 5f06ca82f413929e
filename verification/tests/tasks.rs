//! The page of one workspace's tasks.
use tenx::app::{close_step, App, CloseStep, ConfirmAction, View};
use tenx::input::Rect;
use tenx::style::Item;
use tenx::ui;
use tenx::workspace::{RepoConfig, Task, Workspace, WorkspaceConfig};
use tenx::zellij::Tab;

fn workspace(names: &[&str]) -> Workspace {
    Workspace {
        dir: "/w/acme".into(),
        config: WorkspaceConfig {
            name: "acme".into(),
            layout: String::new(),
            repos: names.iter().map(|n| RepoConfig { name: n.to_string(), url: String::new() }).collect(),
            age_identity: None,
        },
    }
}

fn task(name: &str, title: &str) -> Task {
    Task {
        name: name.into(),
        display_name: title.into(),
        path: format!("/w/acme/tasks/{name}"),
        repos: vec![],
        branch: format!("task/{name}"),
        created_at: 1,
    }
}

fn tabs(names: &[&str]) -> Option<Vec<Tab>> {
    Some(names.iter().enumerate().map(|(i, n)| Tab { tab_id: i as u32, name: n.to_string(), position: i, active: false }).collect())
}

fn app() -> App {
    let mut a = App::new(workspace(&["api", "web"]));
    a.reload_tasks(Ok(vec![task("dark-mode", "dark mode"), task("csv", "csv export")]));
    a
}

fn text(i: &Item) -> Vec<String> {
    i.lines.iter().map(|l| l.plain()).collect()
}

#[test]
fn the_selection_stays_on_a_task() {
    let mut a = app();
    a.move_up();
    assert_eq!(a.selected, 0);
    a.move_down();
    a.move_down();
    assert_eq!(a.selected, 1);
    assert_eq!(a.selected_task().unwrap().name, "csv");
    a.reload_tasks(Ok(vec![task("dark-mode", "dark mode")]));
    assert_eq!(a.selected, 0);
    a.reload_tasks(Err("gone".into()));
    assert_eq!(a.status_msg.as_deref(), Some("error: gone"));
    assert_eq!(a.tasks.len(), 1);
}

#[test]
fn a_notification_does_not_hide_a_tab() {
    let mut a = app();
    a.reload_tabs(true, tabs(&["💬dark mode", "csv export 2"]));
    assert!(a.task_is_open("dark mode"));
    assert!(!a.task_is_open("csv export"));
    // Outside a session nothing is learnt.
    a.reload_tabs(false, tabs(&["csv export"]));
    assert!(!a.task_is_open("csv export"));
    a.reload_tabs(true, None);
    assert!(a.task_is_open("dark mode"));
}

#[test]
fn the_popup_goes_round_its_fields() {
    let mut a = app();
    a.enter_create(Some(workspace(&["api", "web"])));
    assert_eq!((a.view, a.create_focus), (View::Create, 0));
    assert_eq!(a.selected_repo_names(), vec!["api", "web"]);
    a.create_focus_prev();
    assert_eq!(a.create_focus, 2);
    a.toggle_repo();
    assert_eq!(a.selected_repo_names(), vec!["api"]);
    a.create_focus_next();
    assert_eq!(a.create_focus, 0);
    a.toggle_repo();
    assert_eq!(a.selected_repo_names(), vec!["api"], "the name is no repo");
    a.cancel_create();
    assert_eq!(a.view, View::List);
}

#[test]
fn a_task_needs_a_name_and_a_repo() {
    let mut a = app();
    a.enter_create(Some(workspace(&["api"])));
    assert_eq!(a.create_request(), Err("task name cannot be empty".to_string()));
    a.create_name = "  login page ".into();
    assert_eq!(a.create_request(), Ok(("login page".to_string(), vec!["api".to_string()])));
    a.create_focus_next();
    a.toggle_repo();
    assert_eq!(a.create_request(), Err("select at least one repo".to_string()));
    assert_eq!(a.do_create(Ok(()), Ok(vec![]), true, None), Err("select at least one repo".to_string()));
    assert_eq!(a.view, View::Create);
    a.toggle_repo();
    assert_eq!(a.do_create(Err("no".into()), Ok(vec![]), true, None), Err("no".to_string()));
    assert_eq!(a.do_create(Ok(()), Ok(vec![task("x", "x")]), true, tabs(&["x"])), Ok(()));
    assert_eq!((a.view, a.tasks.len()), (View::List, 1));
    assert!(a.task_is_open("x"));
}

#[test]
fn opening_and_closing_need_a_task() {
    let mut none = App::new(workspace(&[]));
    assert_eq!(none.do_open(Ok(()), true, None), Err("no task selected".to_string()));
    assert_eq!(none.do_close(Ok(()), true, None), Err("no task selected".to_string()));
    let mut a = app();
    assert_eq!(a.do_open(Ok(()), true, tabs(&["dark mode"])), Ok(()));
    assert!(a.task_is_open("dark mode"));
    assert_eq!(a.do_close(Err("stuck".into()), true, tabs(&[])), Err("stuck".to_string()));
    assert!(a.task_is_open("dark mode"));
    assert_eq!(a.do_close(Ok(()), true, tabs(&[])), Ok(()));
    assert!(!a.task_is_open("dark mode"));
}

#[test]
fn deleting_is_asked_about() {
    let mut a = app();
    assert_eq!(a.do_delete(Ok(()), Ok(vec![]), true, None), Err("no pending delete".to_string()));
    a.confirm = Some(ConfirmAction::Delete("csv".into()));
    assert_eq!(a.delete_target(), Some(1));
    assert_eq!(a.help().content, " delete 'csv export'? [y/N] ");
    assert_eq!(a.do_delete(Err("busy".into()), Ok(vec![]), true, None), Err("busy".to_string()));
    assert!(a.confirm.is_none(), "answered either way");
    a.confirm = Some(ConfirmAction::Delete("gone".into()));
    assert_eq!(a.delete_target(), None);
    assert_eq!(a.help().content, " delete 'gone'? [y/N] ");
    assert_eq!(a.do_delete(Ok(()), Ok(vec![task("dark-mode", "dark mode")]), true, None), Ok(()));
    assert_eq!(a.tasks.len(), 1);
}

#[test]
fn tasks_are_drawn_in_columns() {
    let mut a = app();
    a.reload_tabs(true, tabs(&["csv export"]));
    let lines = text(&a.list_lines(&vec!["3d".to_string(), "now".to_string()]));
    assert_eq!(lines[0], format!("{:<24}{:<24}{:<6} ", "dark mode", "task/dark-mode", "3d"));
    assert_eq!(lines[1], format!("{:<24}{:<24}{:<6}●", "csv export", "task/csv", "now"));
    assert_eq!(ui::header().plain(), format!("  {:<24}{:<24}{:<6}OPEN", "NAME", "BRANCH", "AGE"));
    assert_eq!(ui::truncate("abcdef", 3), "abc");
    assert_eq!(ui::truncate("日本", 3), "日本");
    assert!(text(&ui::guide()).contains(&"  n      new task".to_string()));
    assert_eq!(a.help().content, " j/k · Enter open · x close · d del · n new · q quit");
    a.status_msg = Some("oops".into());
    assert_eq!(a.help().content, " oops ");
}

#[test]
fn the_popup_is_drawn_inside_its_frame() {
    let mut a = app();
    a.enter_create(Some(workspace(&["api", "web"])));
    a.create_name = "login".into();
    let area = Rect::new(0, 0, 100, 40);
    let p = a.render_create(area);
    // The middle of the screen: 55 by 60 in a hundred.
    assert_eq!((p.frame.width, p.frame.height), (55, 24));
    assert_eq!(p.name.1.content, "  [login]");
    let repos: Vec<&str> = p.repos.iter().map(|(_, s)| s.content.as_str()).collect();
    assert_eq!(repos, vec!["  [✓] api", "  [✓] web"]);
    assert_eq!(a.create_repo_areas.len(), 2);
    assert_eq!(a.create_repo_areas[1].y, a.create_repo_areas[0].y + 1);
    let (head, list, help) = ui::list_parts(area);
    assert_eq!((head.height, list.height, help.height), (2, 37, 1));
}

#[test]
fn a_tab_is_closed_by_its_id_first() {
    let open = tabs(&["home", "\u{1F4AC} dark mode", "dark mode"]).unwrap();
    assert_eq!(close_step(Some(9), None, &open, "dark mode"), CloseStep::Close(9));
    assert_eq!(close_step(Some(9), Some(true), &open, "dark mode"), CloseStep::Done);
    assert_eq!(close_step(Some(9), Some(false), &open, "dark mode"), CloseStep::Close(1));
    assert_eq!(close_step(None, None, &open, "dark mode"), CloseStep::Close(1));
    assert_eq!(close_step(None, None, &open, "csv export"), CloseStep::Missing);
}
