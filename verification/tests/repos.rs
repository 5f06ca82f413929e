//! The repos page and its pull requests.
use tenx::input::{KeyCode, KeyEvent, KeyModifiers, MouseButton, MouseEvent, MouseEventKind, Rect};
use tenx::list_events::RepoFact;
use tenx::repos::{infer_name, short_url, App, Ask, Msg, Page, Pr, PrState, REFRESH_INTERVAL, REPO_ROWS};
use tenx::repos_view;
use tenx::style::Item;
use tenx::workspace::{RepoConfig, Workspace, WorkspaceConfig};

fn workspace(names: &[&str]) -> Workspace {
    Workspace {
        dir: "/w/acme".into(),
        config: WorkspaceConfig {
            name: "acme".into(),
            layout: String::new(),
            repos: names.iter().map(|n| RepoConfig { name: n.to_string(), url: format!("git@github.com:acme/{n}.git") }).collect(),
            age_identity: None,
        },
    }
}

fn pr(number: u64, title: &str, author: &str, is_draft: bool) -> Pr {
    Pr {
        number,
        title: title.into(),
        author: author.into(),
        url: format!("https://x/{number}"),
        is_draft,
        age: "2d".into(),
    }
}

fn ch(c: char) -> KeyEvent {
    KeyEvent::new(KeyCode::Char(c), KeyModifiers::none())
}

fn press(code: KeyCode) -> KeyEvent {
    KeyEvent::new(code, KeyModifiers::none())
}

fn loaded() -> App {
    let mut a = App::new(workspace(&["api", "web"]));
    assert!(a.mine_only, "one's own come first");
    a.mine_only = false;
    a.receive(Msg::GithubUser("mona".into()));
    let prs = vec![pr(7, "fix the login", "mona", false), pr(9, "redo the search", "hubot", true)];
    a.receive(Msg::PrResult { repo_name: "api".into(), result: Ok(prs) });
    a
}

fn text(i: &Item) -> Vec<String> {
    i.lines.iter().map(|l| l.plain()).collect()
}

#[test]
fn urls_are_shortened() {
    assert_eq!(short_url("git@github.com:acme/api.git"), "github.com:acme/api");
    assert_eq!(short_url("https://github.com/acme/api.git.git"), "github.com/acme/api");
    assert_eq!(short_url("http://x/y"), "x/y");
    assert_eq!(short_url("/srv/repo"), "/srv/repo");
}

#[test]
fn names_are_inferred() {
    assert_eq!(infer_name("git@github.com:acme/api.git"), "api");
    assert_eq!(infer_name("api.git"), "api");
    assert_eq!(infer_name("https://x/y/"), "");
}

#[test]
fn keys_walk_the_repos() {
    let mut a = App::new(workspace(&["api", "web"]));
    assert!(matches!(a.handle_key(ch('j')), Ask::Nothing));
    assert_eq!(a.selected, 1);
    let _ = a.handle_key(press(KeyCode::Down));
    assert_eq!(a.selected, 1);
    let _ = a.handle_key(ch('k'));
    let _ = a.handle_key(press(KeyCode::Up));
    assert_eq!(a.selected, 0);
    assert!(matches!(a.handle_key(ch('r')), Ask::Reload));
    assert!(matches!(a.handle_key(ch('q')), Ask::Quit));
    assert!(matches!(a.handle_key(press(KeyCode::Esc)), Ask::Quit));
}

#[test]
fn pull_requests_are_asked_for_once() {
    let mut a = App::new(workspace(&["api", "web"]));
    match a.handle_key(press(KeyCode::Enter)) {
        Ask::Fetch(f) => assert_eq!((f.name.as_str(), f.url.as_str()), ("api", "git@github.com:acme/api.git")),
        e => panic!("{e:?}"),
    }
    assert_eq!(a.page, Page::Prs);
    let _ = a.handle_key(press(KeyCode::Esc));
    assert_eq!(a.page, Page::List);
    assert!(matches!(a.handle_key(ch('p')), Ask::Nothing), "already on its way");
    // A failure is asked again.
    a.receive(Msg::PrResult { repo_name: "api".into(), result: Err("no gh".into()) });
    let _ = a.handle_key(ch('q'));
    assert!(matches!(a.handle_key(ch('p')), Ask::Fetch(_)));
}

#[test]
fn results_replace_what_was_loading() {
    let mut a = App::new(workspace(&["api", "web"]));
    let asked = a.refresh_all_prs(10);
    assert_eq!(asked.iter().map(|f| f.name.as_str()).collect::<Vec<_>>(), vec!["api", "web"]);
    assert!(a.refresh_all_prs(20).is_empty(), "all are on their way");
    a.receive(Msg::PrResult { repo_name: "web".into(), result: Ok(vec![]) });
    let i = a.entry_of("web").unwrap();
    assert!(matches!(&a.pr_cache[i].1, PrState::Loaded(p) if p.is_empty()));
    let i = a.entry_of("api").unwrap();
    assert!(matches!(a.pr_cache[i].1, PrState::Loading));
    assert_eq!(a.entry_of("docs"), None);
    assert_eq!(a.pr_cache.len(), 2);
}

#[test]
fn pull_requests_are_refreshed_by_themselves() {
    let mut a = App::new(workspace(&["api"]));
    let _ = a.refresh_all_prs(1000);
    assert!(!a.should_auto_refresh(1000 + REFRESH_INTERVAL - 1));
    assert!(a.should_auto_refresh(1000 + REFRESH_INTERVAL));
}

#[test]
fn only_ones_own_can_be_shown() {
    let mut a = loaded();
    let _ = a.handle_key(press(KeyCode::Enter));
    assert_eq!(a.visible_prs(), vec![0, 1]);
    assert_eq!(a.prs_title(), " PRs — api ");
    let _ = a.handle_key(ch('j'));
    assert_eq!(a.pr_selected, 1);
    match a.handle_key(ch('o')) {
        Ask::Browse(u) => assert_eq!(u, "https://x/9"),
        e => panic!("{e:?}"),
    }
    let _ = a.handle_key(ch('m'));
    assert_eq!((a.visible_prs(), a.pr_selected), (vec![0], 0));
    assert_eq!(a.prs_title(), " PRs — api [mine] ");
    assert_eq!(a.prs_help().content, " showing 1/2 PRs");
    match a.handle_key(press(KeyCode::Enter)) {
        Ask::Browse(u) => assert_eq!(u, "https://x/7"),
        e => panic!("{e:?}"),
    }
    assert!(matches!(a.handle_key(ch('r')), Ask::Fetch(_)));
    assert_eq!(text(&a.prs_lines(60)), vec!["  Loading…"]);
}

#[test]
fn pull_requests_take_what_room_there_is() {
    let a = loaded();
    assert_eq!(text(&a.prs_lines(80)), vec!["#7 fix the login mona 2d", "[draft] #9 redo the search hubot 2d"]);
    // " mona", " 2d", "#7 " and four more leave five of twenty.
    assert_eq!(text(&a.prs_lines(20))[0], "#7 fix t mona 2d");
}

#[test]
fn a_failure_is_shown() {
    let mut a = App::new(workspace(&["api"]));
    a.receive(Msg::PrResult { repo_name: "api".into(), result: Err("no gh".into()) });
    assert_eq!(text(&a.prs_lines(80)), vec!["", "  error: no gh", "", "  Is gh installed and authenticated?"]);
    a.receive(Msg::PrResult { repo_name: "api".into(), result: Ok(vec![]) });
    assert_eq!(text(&a.prs_lines(80)), vec!["  No open PRs from you.  Press m to show all."]);
    a.mine_only = false;
    assert_eq!(text(&a.prs_lines(80)), vec!["  No open PRs."]);
}

#[test]
fn a_repo_takes_its_rows() {
    let a = loaded();
    let facts = vec![
        RepoFact { exists: true, last_commit: Some("fix".into()) },
        RepoFact { exists: false, last_commit: None },
    ];
    let items = a.list_items(&facts, 40);
    assert!(items.iter().all(|i| i.lines.len() == REPO_ROWS as usize));
    assert_eq!(text(&items[0]), vec!["✓ api", "  github.com:acme/api", "  fix", "  2 open · 1 mine", ""]);
    assert_eq!(text(&items[1]), vec!["✗ web", "  github.com:acme/web", "  not cloned", "", ""]);
    assert_eq!(text(&a.list_items(&facts, 4)[0])[1], "  gi");
    assert_eq!(text(&repos_view::no_repos())[3], "  a  add repo");
}

#[test]
fn the_line_under_the_repos_tells_the_age() {
    let mut a = App::new(workspace(&["api"]));
    assert!(a.list_help(5).content.ends_with(" fetching…"));
    let _ = a.refresh_all_prs(1000);
    assert!(a.list_help(60_999).content.ends_with(" ↻ just now"));
    assert!(a.list_help(181_000).content.ends_with(" ↻ 3m ago"));
    a.status_msg = Some("oops".into());
    assert_eq!(a.list_help(0).content, " oops ");
}

#[test]
fn a_repo_is_added_through_the_popup() {
    let mut a = App::new(workspace(&["api"]));
    let _ = a.handle_key(ch('a'));
    assert_eq!(a.page, Page::Add);
    assert!(matches!(a.handle_key(press(KeyCode::Enter)), Ask::Nothing));
    assert_eq!(a.status_msg.as_deref(), Some("URL cannot be empty"));
    for c in "https://x/docs.gitt".chars() {
        let _ = a.handle_key(ch(c));
    }
    let _ = a.handle_key(press(KeyCode::Backspace));
    let _ = a.handle_key(press(KeyCode::Tab));
    assert_eq!((a.add_focus, a.add_name.as_str()), (1, "docs"));
    let p = a.render_add_popup(Rect::new(0, 0, 60, 24));
    assert_eq!(p.url.1.content, "  [https://x/docs.git]");
    assert_eq!(p.name.1.content, "  [docs]");
    match a.handle_key(press(KeyCode::Enter)) {
        Ask::Add { url, name } => assert_eq!((url.as_str(), name.as_str()), ("https://x/docs.git", "docs")),
        e => panic!("{e:?}"),
    }
    a.added(Err("clone failed".into()), None);
    assert_eq!((a.page, a.status_msg.as_deref()), (Page::Add, Some("clone failed")));
    a.added(Ok(()), Some(workspace(&["api", "docs"])));
    assert_eq!((a.page, a.workspace.config.repos.len()), (Page::List, 2));
}

#[test]
fn the_selection_survives_a_reload() {
    let mut a = App::new(workspace(&["api", "web"]));
    a.selected = 1;
    a.reload(None);
    assert_eq!(a.selected, 1);
    a.reload(Some(workspace(&["api"])));
    assert_eq!(a.selected, 0);
}

#[test]
fn a_click_selects_a_repo_or_a_pull_request() {
    let mut a = loaded();
    a.list_area = Rect::new(0, 0, 40, 20);
    let click = |row: u16| MouseEvent {
        kind: MouseEventKind::Down(MouseButton::Left),
        column: 1,
        row,
        modifiers: KeyModifiers::none(),
    };
    a.handle_mouse(click(5));
    assert_eq!((a.selected, a.page), (1, Page::List));
    a.handle_mouse(click(4));
    assert_eq!(a.selected, 0);
    a.handle_mouse(click(10));
    assert_eq!(a.selected, 0, "nothing there");
    let _ = a.handle_key(press(KeyCode::Enter));
    let s = a.render_pr_popup(Rect::new(0, 0, 60, 20));
    assert_eq!(s.highlighted, Some(0));
    a.handle_mouse(click(s.area.y + 1));
    assert_eq!(a.pr_selected, 1);
    a.handle_mouse(MouseEvent { kind: MouseEventKind::ScrollUp, ..click(0) });
    assert_eq!(a.pr_selected, 0);
}
