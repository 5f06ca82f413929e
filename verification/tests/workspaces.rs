//! Workspaces, sessions and the multiplexer.
use std::path::Path;
use tenx::app::tab_id;
use tenx::claude::{pid_alive, sessions_dir, RawSession};
use tenx::list_events::{new_row, Live, RowState, Wanted};
use tenx::palette::{Palette, Rgb};
use tenx::path::{file_name, parent, path_join, split_extension};
use tenx::sessions::{
    find_agent_pid, global_config_path, is_record_file, now_millis, project_dir, prunable, read_stem_pid, record_path,
    trust_keys, Record,
};
use tenx::status::{TaskGroup, TaskStatus};
use tenx::workspace::{
    bare_paths, by_activity, by_name, candidates, cloned_repos, discover_task, expand_home, find, find_opt, gitdir, init,
    load, newest_first, read_branch, read_task_display_name, registry_key, secrets_pending, secrets_pending_set,
    sorted_names, titled_notes, GlobalConfig, RepoConfig, Task, Workspace, WorkspaceConfig, WorkspaceError,
};
use tenx::zellij;
use tenx::zellij::{
    close_failed, close_tab_in, find_bin, go_to_tab_position, home_layout, list_sessions, list_tabs, list_tabs_in,
    default_task_layout, open_or_switch, opened_tab, pre_focus_tab, render_layout, resolve_tab_in, session_exists, statusbar_wasm, strip_ansi,
    switch_failed, switch_to_task, switch_to_tenx_session, Build, Tab, TabOptions,
};

// ── Sessions ─────────────────────────────────────────────────────────────────

#[test]
fn climbs_ppid_chain_to_the_agent() {
    // hook(500) → shell(400) → agent(300) → tmux(200)
    let comm = |pid: u32| -> Option<String> {
        Some(
            match pid {
                500 => "session-event",
                400 => "sh",
                300 => "agent",
                200 => "tmux",
                _ => return None,
            }
            .to_string(),
        )
    };
    let ppid = |pid: u32| -> Option<u32> {
        Some(match pid {
            500 => 400,
            400 => 300,
            300 => 200,
            _ => return None,
        })
    };
    assert_eq!(find_agent_pid(500, &["agent"], 6, &comm, &ppid), Some(300));
    // Codex execs the hook directly: parent is already the agent.
    let comm2 = |pid: u32| (pid == 300).then_some("codex".to_string());
    let ppid2 = |pid: u32| (pid == 500).then_some(300);
    assert_eq!(find_agent_pid(300, &["codex"], 6, &comm2, &ppid2), Some(300));
    // No match within the hop budget → None (caller falls back to getppid).
    assert_eq!(find_agent_pid(500, &["nope"], 6, &comm, &ppid), None);
}

#[test]
fn stem_pid_parses_record_filenames() {
    assert_eq!(read_stem_pid("/x/1234.json"), Some(1234));
    assert_eq!(read_stem_pid("/x/notapid.json"), None);
}

#[test]
fn a_zombie_counts_as_dead() {
    assert!(!pid_alive(true, Some("42 (a) b) Z 1 2")));
    assert!(pid_alive(true, Some("42 (Z) S 1 2")));
    assert!(pid_alive(true, None));
    assert!(!pid_alive(false, None));
}

fn record(pid: Option<u32>, agent: Option<&str>) -> Record {
    Record {
        pid,
        cwd: Some("/w".into()),
        status: Some("busy".into()),
        waiting_for: None,
        status_updated_at: Some(7),
        kind: String::new(),
        agent: agent.map(str::to_string),
        session_id: None,
        transcript_path: None,
        tmux: None,
        parked_job_id: None,
        job_id: None,
    }
}

#[test]
fn a_record_becomes_a_session_while_its_process_lives() {
    let s = tenx::sessions::session_of(record(Some(9), None), true, "main").unwrap();
    assert_eq!((s.pid, s.kind.as_str(), s.agent.as_str()), (9, "interactive", "main"));
    let s = tenx::sessions::session_of(record(Some(9), Some("codex")), true, "main").unwrap();
    assert_eq!(s.agent, "codex");
    assert!(tenx::sessions::session_of(record(Some(9), None), false, "main").is_none());
    assert!(tenx::sessions::session_of(record(None, None), true, "main").is_none());
}

#[test]
fn a_registry_entry_becomes_a_session() {
    let raw = RawSession {
        pid: Some(3),
        cwd: Some("/w".into()),
        status: None,
        waiting_for: None,
        status_updated_at: None,
        kind: None,
        session_id: None,
        tmux: None,
        parked_job_id: None,
        job_id: None,
    };
    let s = tenx::claude::session_of(raw, true, "main").unwrap();
    assert_eq!((s.pid, s.kind.as_str(), s.agent.as_str()), (3, "", "main"));
}

#[test]
fn only_records_of_dead_processes_are_pruned() {
    assert!(is_record_file("/r/12.json") && !is_record_file("/r/12.json.tmp") && !is_record_file("/r/json"));
    assert!(prunable("/r/12.json", false));
    assert!(!prunable("/r/12.json", true));
    assert!(prunable("/r/odd.json", true));
    assert!(!prunable("/r/12.txt", false));
}

#[test]
fn registry_paths_lie_under_home() {
    assert_eq!(record_path("/h", 5), "/h/.config/tenx/sessions/5.json");
    assert_eq!(sessions_dir("/h", "ag"), "/h/.ag/sessions");
    assert_eq!(project_dir("/h", "/a/b", "ag"), "/h/.ag/projects/-a-b");
    assert_eq!(global_config_path("/h", "ag"), "/h/.ag.json");
    assert_eq!(trust_keys("/a", Some("/b".into())), vec!["/a", "/b"]);
    assert_eq!(trust_keys("/a", Some("/a".into())), vec!["/a"]);
    assert_eq!(now_millis(Some(1234)), 1234);
    assert_eq!(now_millis(None), 0);
}

// ── Paths ────────────────────────────────────────────────────────────────────

#[test]
fn paths_join_and_part() {
    assert_eq!(path_join("/a", "b"), "/a/b");
    assert_eq!(path_join("/a/", "b"), "/a/b");
    assert_eq!(path_join("/a", "/b"), "/b");
    assert_eq!(file_name("/a/b.txt").as_deref(), Some("b.txt"));
    assert_eq!(parent("/a/b").as_deref(), Some("/a"));
    assert_eq!(split_extension("b.txt"), ("b".to_string(), Some("txt".to_string())));
    assert_eq!(split_extension(".hidden"), (".hidden".to_string(), None));
}

#[test]
fn home_is_expanded_only_where_it_is_known() {
    assert_eq!(expand_home("~/x", Some("/h")), "/h/x");
    assert_eq!(expand_home("~/x", None), "~/x");
    assert_eq!(expand_home("/x", Some("/h")), "/x");
}

// ── Workspaces ───────────────────────────────────────────────────────────────

fn ws(name: &str, repos: &[&str]) -> Workspace {
    Workspace {
        dir: format!("/w/{name}"),
        config: WorkspaceConfig {
            name: name.into(),
            layout: String::new(),
            repos: repos.iter().map(|r| RepoConfig { name: r.to_string(), url: format!("git@x:{r}.git") }).collect(),
            age_identity: None,
        },
    }
}

#[test]
fn the_nearest_config_wins() {
    assert_eq!(candidates("/a/b").len(), 3);
    assert_eq!(find("/a/b", &vec![false, true, true]).unwrap(), "/a");
    assert!(matches!(find("/a/b", &vec![false, false, false]), Err(WorkspaceError::NotFound)));
    assert!(matches!(find_opt(Err(WorkspaceError::NotFound)), Ok(None)));
    assert!(find_opt(Err(WorkspaceError::AlreadyExists)).is_err());
}

#[test]
fn a_workspace_is_made_once() {
    assert_eq!(init("/d", "n", false).unwrap().config.name, "n");
    assert!(matches!(init("/d", "n", true), Err(WorkspaceError::AlreadyExists)));
    assert!(matches!(load("/d", None), Err(WorkspaceError::NotFound)));
}

#[test]
fn a_repo_is_added_once_and_then_found() {
    let mut w = ws("a", &["x"]);
    assert!(w.add_repo(RepoConfig { name: "y".into(), url: "u".into() }).is_ok());
    assert_eq!(w.find_repo("y").unwrap().url, "u");
    match w.add_repo(RepoConfig { name: "y".into(), url: "v".into() }) {
        Err(e) => assert_eq!(e.message(), "repo 'y' already in workspace"),
        Ok(()) => panic!("added twice"),
    }
    assert_eq!(w.config.repos.len(), 2);
    assert!(w.find_repo("z").is_none());
}

#[test]
fn refusals_read_as_sentences() {
    assert_eq!(WorkspaceError::NotFound.message(), "workspace config.toml not found (run: tenx init <name>)");
    assert_eq!(WorkspaceError::AlreadyExists.message(), "workspace already exists");
    assert_eq!(WorkspaceError::TaskExists("t".into()).message(), "task 't' already exists");
    assert_eq!(WorkspaceError::RepoNotFound("r".into()).message(), "repo 'r' not in workspace");
    let w = ws("a", &[]);
    assert_eq!(w.find_task("t", false).unwrap_err().message(), "task 't' not found");
    assert_eq!(w.find_task("t", true).unwrap(), "/w/a/tasks/t");
    assert!(w.check_task_new("t", false).is_ok());
    assert_eq!(w.check_task_new("t", true).unwrap_err().message(), "task 't' already exists");
    assert_eq!(w.save_config(), ("/w/a/config.toml".to_string(), "/w/a/config.toml.tmp".to_string()));
}

#[test]
fn the_bare_directory_follows_the_global_setting() {
    let w = ws("a", &["x", "y"]);
    assert_eq!(w.bare_dir(&GlobalConfig::default(), None), "/w/a/.bare");
    let g = GlobalConfig { bare_dir: "~/bare".into(), column_width: 0 };
    assert_eq!(w.bare_dir(&g, Some("/h")), "/h/bare");
    assert_eq!(bare_paths("/b", &w.config.repos).len(), 2);
    assert_eq!(cloned_repos(&w.config.repos, &vec![false, true]), vec!["y"]);
}

#[test]
fn registry_keys_differ_by_path() {
    let a = registry_key("ws", "/a/ws");
    let b = registry_key("ws", "/b/ws");
    assert!(a.starts_with("ws-") && a.len() == "ws-".len() + 8);
    assert_ne!(a, b);
    assert!(registry_key("", "/").starts_with("workspace-"));
}

fn task(name: &str, at: u64) -> Task {
    Task {
        name: name.into(),
        display_name: name.to_uppercase(),
        path: format!("/t/{name}"),
        repos: vec![],
        branch: "main".into(),
        created_at: at,
    }
}

#[test]
fn tasks_and_workspaces_are_listed_in_order() {
    let names: Vec<String> = newest_first(vec![task("a", 1), task("b", 3), task("c", 3)]).into_iter().map(|t| t.name).collect();
    assert_eq!(names, vec!["b", "c", "a"]);
    let names: Vec<String> = by_name(vec![ws("b", &[]), ws("a", &[])]).into_iter().map(|w| w.config.name).collect();
    assert_eq!(names, vec!["a", "b"]);
    assert_eq!(sorted_names(vec!["b".into(), "a".into(), "ab".into()]), vec!["a", "ab", "b"]);
    assert_eq!(by_activity(vec![(1, 0), (5, 1), (5, 2), (9, 3)]), vec![(9, 3), (5, 1), (5, 2), (1, 0)]);
}

#[test]
fn a_task_is_read_from_its_directory() {
    let t = discover_task("/w/tasks/fix-it", None, vec!["z".into(), "a".into()], &vec![String::new(), "fix".into()], 4);
    assert_eq!((t.name.as_str(), t.display_name.as_str(), t.branch.as_str()), ("fix-it", "fix-it", "fix"));
    assert_eq!(t.repos, vec!["a", "z"]);
    assert_eq!(read_task_display_name("/w/tasks/fix-it", Some("Fix it".into())), "Fix it");
    assert_eq!(titled_notes(None, "T"), "# T\n");
    assert_eq!(gitdir("/w/r", "gitdir: ../.bare/r\n").as_deref(), Some("/w/r/../.bare/r"));
    assert_eq!(gitdir("/w/r", "nope"), None);
    assert_eq!(read_branch("ref: refs/heads/fix\n").as_deref(), Some("fix"));
    assert_eq!(read_branch("0123abcd"), None);
    assert_eq!(secrets_pending(Some("A\n\n B \n")), vec!["A", "B"]);
    assert!(secrets_pending_set(None).is_empty());
}

// ── Multiplexer ──────────────────────────────────────────────────────────────

fn tab(id: u32, name: &str, active: bool) -> Tab {
    Tab { tab_id: id, position: id as usize, name: name.into(), active }
}

#[test]
fn session_lists_are_read_without_their_colours() {
    assert_eq!(strip_ansi("\x1b[32mtenx\x1b[0m"), "tenx");
    let out = "\x1b[32;1mtenx\x1b[m [Created 1h ago]\nother [Created]\n\n".as_bytes();
    assert_eq!(list_sessions(out), vec!["tenx", "other"]);
    assert!(session_exists(out, "tenx") && !session_exists(out, "ten"));
}

#[test]
fn a_tab_is_found_by_id_then_by_name() {
    let tabs = Some(vec![tab(4, "a", false), tab(7, "b", true)]);
    assert_eq!(resolve_tab_in(&tabs, Some(7), "a"), Some(7));
    assert_eq!(resolve_tab_in(&tabs, Some(9), "a"), Some(4));
    assert_eq!(resolve_tab_in(&tabs, None, "zzz"), None);
    assert_eq!(resolve_tab_in(&None, Some(7), "a"), None);
    assert_eq!(pre_focus_tab("tenx", &tabs, Some(7), "a").unwrap(), vec!["-s", "tenx", "action", "go-to-tab-by-id", "7"]);
    assert_eq!(opened_tab(tabs.as_ref().unwrap()), Ok(7));
    assert_eq!(opened_tab(&vec![]), Err("cannot find newly created tab".to_string()));
}

#[test]
fn switching_needs_a_session_around_it() {
    let none: Option<Vec<Tab>> = None;
    assert_eq!(switch_to_task(false, "tenx", &none, None, "t").unwrap_err(), "not inside a zellij session");
    let s = switch_to_task(true, "tenx", &none, None, "t").unwrap();
    assert!(s.focus.is_none());
    assert_eq!(s.switch, vec!["action", "switch-session", "tenx"]);
    assert_eq!(switch_to_tenx_session(true, true).unwrap().len(), 3);
    assert_eq!(switch_to_tenx_session(true, false).unwrap()[3], "--layout");
    assert!(switch_to_tenx_session(false, true).is_err());
    assert!(list_tabs(false).is_err());
    assert!(switch_failed("x").contains("'x'"));
    assert_eq!(close_failed("s", 3), "close-tab-by-id failed for tab 3 in 's'");
    assert_eq!(close_tab_in("s", 3)[3], "close-tab-by-id");
    assert!(list_tabs_in("s").contains(&"s".to_string()));
    assert_eq!(go_to_tab_position(0), vec!["action", "go-to-tab", "1"]);
}

#[test]
fn layouts_are_filled_in() {
    let opts = TabOptions {
        name: "fix",
        cwd: "/w/tasks/fix",
        workspace_dir: "/w",
        title: "Fix",
        layout_file: Some("/w/task.kdl"),
        resume: true,
    };
    let file = "tab name=\"{name}\" cwd=\"{cwd}\" {\n {claude_args}\n {tenx}\n}";
    let kdl = render_layout(&opts, Some(file), "agent", "/bin/tenx", "/p.wasm");
    assert!(kdl.contains("tab name=\"fix\" cwd=\"/w/tasks/fix\""), "{kdl}");
    assert!(kdl.contains("args \"--name\" \"fix\"\n"), "{kdl}");
    let fresh = TabOptions { resume: false, ..opts };
    assert_eq!(render_layout(&fresh, Some(file), "agent", "/bin/tenx", "/p.wasm"), kdl, "a layout file decides alone");
    let opts = TabOptions { resume: true, ..fresh };
    assert!(kdl.contains("/bin/tenx"), "{kdl}");
    assert!(home_layout("/bin/tenx", "/p.wasm").contains("args \"overlay\" \"--home\""));
    assert!(open_or_switch(false, &opts, &kdl).is_err());
    assert_eq!(open_or_switch(true, &opts, &kdl).unwrap()[3], "fix");
}

#[test]
fn the_status_bar_build_is_pointed_at_or_the_newest() {
    let files = vec![
        Build { name: "tenx-statusbar-1.wasm".into(), modified: Some(1) },
        Build { name: "tenx-statusbar-2.wasm".into(), modified: Some(2) },
        Build { name: "readme".into(), modified: Some(9) },
    ];
    assert_eq!(statusbar_wasm("/d", Some("x.wasm\n"), &files), "/d/x.wasm");
    assert_eq!(statusbar_wasm("/d", None, &files), "/d/tenx-statusbar-2.wasm");
    assert_eq!(statusbar_wasm("/d", None, &vec![]), "/d/tenx-statusbar.wasm");
}

#[test]
fn the_binary_is_the_first_that_is_there() {
    let n = tenx::zellij::bin_candidates("/h").len();
    let mut there = vec![false; n];
    assert_eq!(find_bin("/h", &there).as_deref(), Some("zellij"));
    there[n - 1] = true;
    assert_eq!(find_bin("/h", &there), tenx::zellij::bin_candidates("/h").pop());
}

#[test]
fn colours_are_written_two_ways() {
    assert_eq!(Rgb(255, 0, 16).hex(), "#ff0010");
    assert_eq!(Rgb(255, 0, 16).rgb(), "255 0 16");
}

#[test]
fn tab_ids_are_read_with_their_newline() {
    assert_eq!(tab_id(Some("12\n")), Some(12));
    assert_eq!(tab_id(Some("x")), None);
    assert_eq!(tab_id(Some("4294967296")), None);
    assert_eq!(tab_id(None), None);
}

#[test]
fn a_session_is_themed_by_its_own_configuration() {
    let rgb = |n: u8| Rgb(n, n, n);
    let p = Palette {
        ground: rgb(1),
        text: rgb(2),
        bright: rgb(3),
        muted: rgb(4),
        accent: rgb(5),
        warn: rgb(6),
        danger: rgb(7),
        success: rgb(8),
        info: rgb(9),
    };
    let theme = zellij::theme_overlay(&p);
    let selected = "    frame_selected {\n        base 5 5 5\n        background 1 1 1\n        emphasis_0 5 5 5\n        \
                    emphasis_1 6 6 6\n        emphasis_2 9 9 9\n        emphasis_3 8 8 8\n    }\n";
    assert!(theme.contains(selected), "{theme}");
    assert_eq!(theme.matches("background ").count(), 14);
    assert!(theme.ends_with("rounded_corners true\n    }\n}\n"));
    let config = zellij::session_config("keybinds {}\n  theme \"dark\"\n// theme \"x\"\nthemes {}", "T");
    assert_eq!(config, "keybinds {}\n// theme \"x\"\nthemes {}\nT");
    assert_eq!(
        zellij::create_session_args("/c.kdl"),
        vec!["--config", "/c.kdl", "--session", "tenx", "--new-session-with-layout", "tenx"]
    );
}

#[test]
fn a_row_is_filed_by_what_it_waits_for() {
    let task = || Task {
        name: "dark-mode".into(),
        display_name: "dark mode".into(),
        path: "/w/tasks/dark-mode".into(),
        repos: vec!["api".into()],
        branch: String::new(),
        created_at: 40,
    };
    let state = |changed: Option<u64>| RowState {
        status: TaskStatus::Working,
        glyph: "●".into(),
        changed,
        age: "1s".into(),
        waiting_for: None,
        pane: None,
        tab_id: Some(3),
    };
    let live = || Live { prs: vec![], ports: vec![80], subagents: vec![] };
    let none = Wanted { pending: vec![], pending_set: vec![] };
    let r = new_row(1, &"acme".to_string(), task(), state(None), live(), none, Some("@2".into()), None);
    assert_eq!((r.ws_idx, r.ws_name.as_str(), r.title.as_str()), (1, "acme", "dark mode"));
    assert_eq!((r.activity, r.section, r.tab_id), (40, TaskGroup::Working, Some(3)));
    let some = Wanted { pending: vec![], pending_set: vec!["KEY".into()] };
    let r = new_row(0, &"acme".to_string(), task(), state(Some(90)), live(), some, None, None);
    assert_eq!((r.activity, r.section), (90, TaskGroup::SecretsPending));
}

#[test]
fn the_default_layout_resumes_on_request() {
    let text = "layout {
    default_tab_template {
        children
        {statusbar}
    }
    tab name=\"{name}\" cwd=\"{cwd}\" focus=true {
        pane split_direction=\"vertical\" {
            pane name=\"agent\" command=\"agent\" cwd=\"{cwd}\" size=\"50%\" close_on_exit=true {
                // {claude_args}: \"--name {name}\" plus \"--continue\" only when a prior
                // conversation exists (see TabOptions::resume).
                {claude_args}
            }
            pane split_direction=\"horizontal\" size=\"50%\" {
                pane name=\"nvim\" command=\"nvim\" {
                    args \"TASK.md\"
                }
                pane name=\"shell\"
            }
        }
    }
}";
    assert_eq!(default_task_layout("agent"), text);
    let rendered = |resume: bool| {
        let opts = TabOptions {
            name: "fix",
            cwd: "/w/tasks/fix",
            workspace_dir: "/w",
            title: "Fix",
            layout_file: None,
            resume,
        };
        render_layout(&opts, None, "agent", "/bin/tenx", "/p.wasm")
    };
    assert!(rendered(true).contains("                args \"--name\" \"fix\" \"--continue\"\n            }"), "{}", rendered(true));
    assert!(rendered(false).contains("                args \"--name\" \"fix\"\n            }"), "{}", rendered(false));
    assert!(!rendered(false).contains("\"fix\" \"--continue\""));
    assert!(rendered(true).contains("tab name=\"fix\" cwd=\"/w/tasks/fix\" focus=true {"));
}

#[test]
fn paths_come_apart_as_the_system_takes_them() {
    let mut paths = vec![String::new()];
    for n in 0..7 {
        let longest: Vec<String> = paths.iter().filter(|p| p.len() == n).cloned().collect();
        for p in longest {
            for c in ['a', '.', '/'] {
                paths.push(format!("{p}{c}"));
            }
        }
    }
    for p in &paths {
        let std = Path::new(p);
        let name = std.file_name().map(|n| n.to_string_lossy().into_owned());
        assert_eq!(file_name(p), name, "{p}");
        assert_eq!(parent(p), std.parent().map(|d| d.to_string_lossy().into_owned()), "{p}");
        if let Some(n) = name {
            let (stem, ext) = split_extension(&n);
            assert_eq!(Some(stem.as_str()), std.file_stem().and_then(|s| s.to_str()), "{p}");
            assert_eq!(ext.as_deref(), std.extension().and_then(|s| s.to_str()), "{p}");
        }
        for q in ["", "b", "/b", "."] {
            assert_eq!(path_join(p, q), std.join(q).to_string_lossy(), "{p} {q}");
        }
    }
    assert_eq!(file_name("/w/.."), None);
    assert_eq!(read_stem_pid("/x/1234.json/."), Some(1234));
    assert!(is_record_file("/x/1234.json/./"));
}
