//! Talking to zellij: what to ask it, and what its answers say. Running it is
//! the caller's.
use vstd::prelude::*;
use vstd::string::*;

use crate::lines::{first_word, first_word_of, holds, lines, lines_of, replace, replaced};
use crate::palette::{rgb_text, Palette, Rgb};
use crate::path::{path_join, path_join_spec};
use crate::term::{from_utf8_lossy, lossy};
use crate::text::{
    cat, cat3, chars, decimal, decimal_of, join, joined, own, same, starts_at, trim, trimmed,
    views,
};

verus! {

/// The single global session. All workspaces' tasks live here as tabs.
pub const SESSION: &'static str = "tenx";

/// The pipe the status bar listens on.
pub const STATUS_PIPE: &'static str = "tenx::status";

/// File naming the status-bar build to load.
pub const CURRENT_STATUSBAR: &'static str = "tenx-statusbar.current";

/// The texts of a list of words.
pub open spec fn texts(words: Seq<&str>) -> Seq<Seq<char>> {
    Seq::new(words.len(), |i: int| words[i]@)
}

/// Words as owned strings.
fn strings(words: &Vec<&str>) -> (out: Vec<String>)
    ensures
        views(out@) == texts(words@),
{
    let mut out: Vec<String> = Vec::new();
    let mut i: usize = 0;
    while i < words.len()
        invariant
            i <= words@.len(),
            out@.len() == i,
            forall|k: int| 0 <= k < i ==> (#[trigger] out@[k])@ == words@[k]@,
        decreases words@.len() - i,
    {
        out.push(own(words[i]));
        i += 1;
    }
    assert(views(out@) =~= texts(words@));
    out
}

// ── Finding it ───────────────────────────────────────────────────────────────

/// Where the zellij binary may be installed, in the order to look.
pub open spec fn bin_paths(home: Seq<char>) -> Seq<Seq<char>> {
    seq![
        path_join_spec(home + "/.cargo/bin"@, "zellij"@),
        path_join_spec(home + "/.local/bin"@, "zellij"@),
        path_join_spec("/opt/homebrew/bin"@, "zellij"@),
        path_join_spec("/usr/local/bin"@, "zellij"@),
        path_join_spec("/usr/bin"@, "zellij"@),
    ]
}

/// See [`bin_paths`].
pub fn bin_candidates(home: &str) -> (out: Vec<String>)
    ensures
        views(out@) == bin_paths(home@),
{
    let mut out: Vec<String> = Vec::new();
    out.push(path_join(cat(home, "/.cargo/bin").as_str(), "zellij"));
    out.push(path_join(cat(home, "/.local/bin").as_str(), "zellij"));
    out.push(path_join("/opt/homebrew/bin", "zellij"));
    out.push(path_join("/usr/local/bin", "zellij"));
    out.push(path_join("/usr/bin", "zellij"));
    assert(views(out@) =~= bin_paths(home@));
    out
}

/// The zellij binary: the first candidate that is a file, else the bare name,
/// which is left to the search path.
pub fn find_bin(home: &str, is_file: &Vec<bool>) -> (bin: Option<String>)
    requires
        is_file@.len() == 5,
    ensures
        bin is Some,
        (bin->0)@ == (match crate::workspace::first_true(is_file@, 0) {
            Some(i) => bin_paths(home@)[i],
            None => "zellij"@,
        }),
{
    let candidates = bin_candidates(home);
    assert(views(candidates@).len() == 5);
    let mut i: usize = 0;
    while i < is_file.len()
        invariant
            i <= is_file@.len(),
            is_file@.len() == 5,
            candidates@.len() == 5,
            views(candidates@) == bin_paths(home@),
            crate::workspace::first_true(is_file@, 0) == crate::workspace::first_true(is_file@, i as int),
        decreases is_file@.len() - i,
    {
        if is_file[i] {
            let bin = candidates[i].clone();
            assert(views(candidates@)[i as int] == candidates@[i as int]@);
            return Some(bin);
        }
        i += 1;
    }
    Some(own("zellij"))
}

// ── Sessions ─────────────────────────────────────────────────────────────────

/// Whether a character is an ASCII letter.
pub open spec fn ascii_letter(c: char) -> bool {
    'a' <= c <= 'z' || 'A' <= c <= 'Z'
}

/// How many characters of `s` stand before its first letter, that one
/// included.
pub open spec fn csi_len(s: Seq<char>) -> nat
    decreases s.len(),
{
    if s.len() == 0 {
        0
    } else if ascii_letter(s[0]) {
        1
    } else {
        1 + csi_len(s.skip(1))
    }
}

/// A sequence ends with the text it stands in.
pub proof fn csi_len_fits(s: Seq<char>)
    ensures
        csi_len(s) <= s.len(),
    decreases s.len(),
{
    if s.len() > 0 {
        csi_len_fits(s.skip(1));
    }
}

/// `s` without colour sequences: `ESC [` up to a letter.
pub open spec fn stripped(s: Seq<char>) -> Seq<char>
    decreases s.len(),
{
    if s.len() == 0 {
        s
    } else if s.len() >= 2 && s[0] == '\u{1b}' && s[1] == '[' {
        proof {
            csi_len_fits(s.skip(2));
        }
        stripped(s.skip(2 + csi_len(s.skip(2)) as int))
    } else {
        seq![s[0]] + stripped(s.skip(1))
    }
}

/// `s` without colour sequences.
pub fn strip_ansi(s: &str) -> (out: String)
    ensures
        out@ == stripped(s@),
{
    let cs: Vec<char> = chars(s);
    let mut out = String::new();
    let mut i: usize = 0;
    assert(cs@.skip(0) =~= cs@);
    assert(out@ + stripped(cs@) =~= stripped(cs@));
    while i < cs.len()
        invariant
            i <= cs@.len(),
            cs@ == s@,
            stripped(s@) == out@ + stripped(cs@.skip(i as int)),
        decreases cs@.len() - i,
    {
        let ghost rest = cs@.skip(i as int);
        let ghost before = out@;
        let n: usize = cs.len();
        if n - i >= 2 && cs[i] == '\u{1b}' && cs[i + 1] == '[' {
            let start: usize = i + 2;
            let ghost tail = rest.skip(2);
            assert(tail =~= cs@.skip(start as int));
            assert(tail.skip(0) =~= tail);
            let mut k: usize = start;
            let mut done: bool = false;
            while k < cs.len() && !done
                invariant
                    start <= k <= cs@.len(),
                    tail == cs@.skip(start as int),
                    !done ==> csi_len(tail) == (k - start) + csi_len(tail.skip(k - start)),
                    done ==> csi_len(tail) == k - start,
                decreases cs@.len() - k,
            {
                let c: char = cs[k];
                assert(tail.skip(k - start)[0] == c);
                assert(tail.skip(k - start).skip(1) =~= tail.skip(k - start + 1));
                if ('a' <= c && c <= 'z') || ('A' <= c && c <= 'Z') {
                    done = true;
                }
                k += 1;
            }
            assert(rest.skip(2 + csi_len(tail) as int) =~= cs@.skip(k as int));
            i = k;
        } else {
            out.push(cs[i]);
            assert(rest.skip(1) =~= cs@.skip(i + 1));
            assert(before + (seq![rest[0]] + stripped(cs@.skip(i + 1))) =~= out@ + stripped(cs@.skip(i + 1)));
            i += 1;
        }
    }
    assert(out@ + stripped(cs@.skip(i as int)) =~= out@);
    out
}

/// The first word of each line that has one, colour sequences dropped.
pub open spec fn session_names(lines: Seq<Seq<char>>) -> Seq<Seq<char>>
    decreases lines.len(),
{
    if lines.len() == 0 {
        Seq::empty()
    } else {
        let name = first_word_of(stripped(lines.last()));
        if name.len() == 0 {
            session_names(lines.drop_last())
        } else {
            session_names(lines.drop_last()).push(name)
        }
    }
}

/// Parse session names from the output of `zellij list-sessions`: one session
/// per line, its name first. Some versions emit colour even when piped.
pub fn list_sessions(stdout: &[u8]) -> (names: Vec<String>)
    ensures
        views(names@) == session_names(lines_of(lossy(stdout@))),
{
    let text = from_utf8_lossy(stdout);
    let ls: Vec<String> = lines(text.as_str());
    let ghost whole = views(ls@);
    let mut names: Vec<String> = Vec::new();
    let mut i: usize = 0;
    assert(views(names@) =~= session_names(whole.take(0)));
    while i < ls.len()
        invariant
            i <= ls@.len(),
            whole == views(ls@),
            views(names@) == session_names(whole.take(i as int)),
        decreases ls@.len() - i,
    {
        assert(whole.take(i + 1).drop_last() =~= whole.take(i as int));
        assert(whole.take(i + 1).last() == ls@[i as int]@);
        let name = first_word(strip_ansi(ls[i].as_str()).as_str());
        if !name.as_str().is_empty() {
            let ghost before = views(names@);
            names.push(name);
            assert(views(names@) =~= before.push(name@));
        }
        i += 1;
    }
    assert(whole.take(whole.len() as int) =~= whole);
    names
}

/// Whether `zellij list-sessions` names the session.
pub fn session_exists(stdout: &[u8], name: &str) -> (yes: bool)
    ensures
        yes == session_names(lines_of(lossy(stdout@))).contains(name@),
{
    let names = list_sessions(stdout);
    crate::text::contains(&names, name)
}

// ── Tabs ─────────────────────────────────────────────────────────────────────

/// A tab as zellij reports it.
#[derive(Debug)]
pub struct Tab {
    pub tab_id: u32,
    pub position: usize,
    pub name: String,
    pub active: bool,
}

/// Whether a tab has the id.
pub open spec fn has_tab(tabs: Seq<Tab>, id: u32) -> bool {
    exists|i: int| 0 <= i < tabs.len() && (#[trigger] tabs[i]).tab_id == id
}

/// The first tab at or after `from` that is called `name`.
pub open spec fn tab_named(tabs: Seq<Tab>, name: Seq<char>, from: int) -> Option<int>
    decreases tabs.len() - from,
{
    if from >= tabs.len() {
        None
    } else if tabs[from].name@ == name {
        Some(from)
    } else {
        tab_named(tabs, name, from + 1)
    }
}

/// Find a live tab by exact name.
pub fn find_tab_by_name(tabs: &Vec<Tab>, name: &str) -> (at: Option<usize>)
    ensures
        match (at, tab_named(tabs@, name@, 0)) {
            (Some(a), Some(b)) => a == b && a < tabs@.len(),
            (None, None) => true,
            _ => false,
        },
{
    let mut i: usize = 0;
    while i < tabs.len()
        invariant
            i <= tabs@.len(),
            tab_named(tabs@, name@, 0) == tab_named(tabs@, name@, i as int),
        decreases tabs@.len() - i,
    {
        if same(tabs[i].name.as_str(), name) {
            return Some(i);
        }
        i += 1;
    }
    None
}

/// A task's tab: the stored id if it's still present, otherwise the tab of
/// that title.
pub open spec fn resolved_tab(tabs: Option<Seq<Tab>>, tab_id: Option<u32>, title: Seq<char>) -> Option<u32> {
    match tabs {
        None => None,
        Some(ts) => if tab_id is Some && has_tab(ts, tab_id->0) {
            tab_id
        } else {
            match tab_named(ts, title, 0) {
                Some(i) => Some(ts[i].tab_id),
                None => None,
            }
        },
    }
}

/// See [`resolved_tab`]; `tabs` is what zellij listed, if it did.
pub fn resolve_tab_in(tabs: &Option<Vec<Tab>>, tab_id: Option<u32>, title: &str) -> (id: Option<u32>)
    ensures
        id == resolved_tab(match *tabs {
            Some(ts) => Some(ts@),
            None => None,
        }, tab_id, title@),
{
    match tabs {
        None => None,
        Some(ts) => {
            if let Some(id) = tab_id {
                let mut i: usize = 0;
                while i < ts.len()
                    invariant
                        i <= ts@.len(),
                        *tabs == Some(*ts),
                        tab_id == Some(id),
                        forall|k: int| 0 <= k < i ==> (#[trigger] ts@[k]).tab_id != id,
                    decreases ts@.len() - i,
                {
                    if ts[i].tab_id == id {
                        assert(has_tab(ts@, id));
                        return Some(id);
                    }
                    i += 1;
                }
            }
            match find_tab_by_name(ts, title) {
                Some(i) => Some(ts[i].tab_id),
                None => None,
            }
        },
    }
}

/// What to run to bring a tab of a session to the front.
pub open spec fn focus_args(session: Seq<char>, id: u32) -> Seq<Seq<char>> {
    seq!["-s"@, session, "action"@, "go-to-tab-by-id"@, decimal_of(id as nat)]
}

/// Best-effort: what to run to pre-focus a task's tab in `session`, so a
/// subsequent attach lands on it. Nothing if the tab can't be resolved.
pub fn pre_focus_tab(session: &str, tabs: &Option<Vec<Tab>>, tab_id: Option<u32>, tab_title: &str) -> (args:
    Option<Vec<String>>)
    ensures
        match (args, resolved_tab(match *tabs {
            Some(ts) => Some(ts@),
            None => None,
        }, tab_id, tab_title@)) {
            (Some(a), Some(id)) => views(a@) == focus_args(session@, id),
            (None, None) => true,
            _ => false,
        },
{
    match resolve_tab_in(tabs, tab_id, tab_title) {
        Some(id) => {
            let number = decimal(id as u64);
            let args = strings(&vec!["-s", session, "action", "go-to-tab-by-id", number.as_str()]);
            assert(views(args@) =~= focus_args(session@, id));
            Some(args)
        },
        None => None,
    }
}

/// What to run, one after the other; a failure of the first does not matter.
#[derive(Debug)]
pub struct Switch {
    pub focus: Option<Vec<String>>,
    pub switch: Vec<String>,
}

/// Jump to a task that lives in another session: focus its tab there, then
/// switch the current client to that session in place. If the tab can't be
/// resolved, a plain session switch. Refused outside zellij.
pub fn switch_to_task(inside: bool, session: &str, tabs: &Option<Vec<Tab>>, tab_id: Option<u32>, tab_title: &str) -> (r:
    Result<Switch, String>)
    ensures
        !inside ==> (r matches Err(e) && e@ == "not inside a zellij session"@),
        inside ==> (r matches Ok(s) && views(s.switch@) == seq!["action"@, "switch-session"@, session@] && match (
            s.focus,
            resolved_tab(match *tabs {
                Some(ts) => Some(ts@),
                None => None,
            }, tab_id, tab_title@),
        ) {
            (Some(a), Some(id)) => views(a@) == focus_args(session@, id),
            (None, None) => true,
            _ => false,
        }),
{
    if !inside {
        return Err(own("not inside a zellij session"));
    }
    let switch = strings(&vec!["action", "switch-session", session]);
    assert(views(switch@) =~= seq!["action"@, "switch-session"@, session@]);
    Ok(Switch { focus: pre_focus_tab(session, tabs, tab_id, tab_title), switch })
}

/// What a failed session switch is answered.
pub fn switch_failed(session: &str) -> (m: String)
    ensures
        m@ == "switch-session failed (zellij may be too old) for '"@ + session@ + "'"@,
{
    cat3("switch-session failed (zellij may be too old) for '", session, "'")
}

/// What to run to close a tab by id in a specific session.
pub fn close_tab_in(session: &str, tab_id: u32) -> (args: Vec<String>)
    ensures
        views(args@) == seq!["-s"@, session@, "action"@, "close-tab-by-id"@, decimal_of(tab_id as nat)],
{
    let number = decimal(tab_id as u64);
    let args = strings(&vec!["-s", session, "action", "close-tab-by-id", number.as_str()]);
    assert(views(args@) =~= seq!["-s"@, session@, "action"@, "close-tab-by-id"@, decimal_of(tab_id as nat)]);
    args
}

/// What a failed close is answered.
pub fn close_failed(session: &str, tab_id: u32) -> (m: String)
    ensures
        m@ == "close-tab-by-id failed for tab "@ + decimal_of(tab_id as nat) + " in '"@ + session@ + "'"@,
{
    crate::text::cat5(
        "close-tab-by-id failed for tab ",
        decimal(tab_id as u64).as_str(),
        " in '",
        session,
        "'",
    )
}

/// What to run to list the tabs of a session as JSON.
pub fn list_tabs_in(session: &str) -> (args: Vec<String>)
    ensures
        views(args@) == seq!["-s"@, session@, "action"@, "list-tabs"@, "--json"@],
{
    let args = strings(&vec!["-s", session, "action", "list-tabs", "--json"]);
    assert(views(args@) =~= seq!["-s"@, session@, "action"@, "list-tabs"@, "--json"@]);
    args
}

/// What to run to list the tabs of the current session as JSON. Refused outside
/// zellij.
pub fn list_tabs(inside: bool) -> (r: Result<Vec<String>, String>)
    ensures
        !inside ==> (r matches Err(e) && e@ == "not inside a zellij session"@),
        inside ==> (r matches Ok(a) && views(a@) == seq!["action"@, "list-tabs"@, "--json"@]),
{
    if !inside {
        return Err(own("not inside a zellij session"));
    }
    let args = strings(&vec!["action", "list-tabs", "--json"]);
    assert(views(args@) =~= seq!["action"@, "list-tabs"@, "--json"@]);
    Ok(args)
}

/// What to run to go to a tab; zellij counts from one.
pub fn go_to_tab_position(position: usize) -> (args: Vec<String>)
    requires
        position < usize::MAX,
    ensures
        views(args@) == seq!["action"@, "go-to-tab"@, decimal_of((position + 1) as nat)],
{
    let number = decimal((position + 1) as u64);
    let args = strings(&vec!["action", "go-to-tab", number.as_str()]);
    assert(views(args@) =~= seq!["action"@, "go-to-tab"@, decimal_of((position + 1) as nat)]);
    args
}

/// Switch the current client to the tenx session in place, creating it from the
/// home layout if it doesn't exist yet: the layout is named only then, for on an
/// existing session it would append tabs. Refused outside zellij.
pub fn switch_to_tenx_session(inside: bool, exists: bool) -> (r: Result<Vec<String>, String>)
    ensures
        !inside ==> (r matches Err(e) && e@ == "not inside a zellij session"@),
        inside ==> (r matches Ok(a) && views(a@) == (if exists {
            seq!["action"@, "switch-session"@, SESSION@]
        } else {
            seq!["action"@, "switch-session"@, SESSION@, "--layout"@, SESSION@]
        })),
{
    if !inside {
        return Err(own("not inside a zellij session"));
    }
    if exists {
        let args = strings(&vec!["action", "switch-session", SESSION]);
        assert(views(args@) =~= seq!["action"@, "switch-session"@, SESSION@]);
        Ok(args)
    } else {
        let args = strings(&vec!["action", "switch-session", SESSION, "--layout", SESSION]);
        assert(views(args@) =~= seq!["action"@, "switch-session"@, SESSION@, "--layout"@, SESSION@]);
        Ok(args)
    }
}

/// What to run to create the session from its layout and attach to it.
pub fn create_session_args(config: &str) -> (args: Vec<String>)
    ensures
        views(args@) == seq![
            "--config"@,
            config@,
            "--session"@,
            SESSION@,
            "--new-session-with-layout"@,
            SESSION@,
        ],
{
    let args = strings(&vec!["--config", config, "--session", SESSION, "--new-session-with-layout", SESSION]);
    assert(views(args@) =~= seq![
        "--config"@,
        config@,
        "--session"@,
        SESSION@,
        "--new-session-with-layout"@,
        SESSION@,
    ]);
    args
}

// ── Theme and configuration ──────────────────────────────────────────────────

/// One component block of a theme.
pub open spec fn component(p: Palette, name: Seq<char>, base: Rgb, bg: Rgb) -> Seq<char> {
    "    "@ + name + " {\n        base "@ + rgb_text(base) + "\n        background "@ + rgb_text(bg)
        + "\n        emphasis_0 "@ + rgb_text(p.accent) + "\n        emphasis_1 "@ + rgb_text(p.warn)
        + "\n        emphasis_2 "@ + rgb_text(p.info) + "\n        emphasis_3 "@ + rgb_text(p.success) + "\n    }\n"@
}

/// Append one component block.
fn push_component(out: &mut String, p: &Palette, name: &str, base: Rgb, bg: Rgb)
    ensures
        final(out)@ == old(out)@ + component(*p, name@, base, bg),
{
    let ghost before = out@;
    let mut c = own("    ");
    c.append(name);
    c.append(" {\n        base ");
    c.append(base.rgb().as_str());
    c.append("\n        background ");
    c.append(bg.rgb().as_str());
    c.append("\n        emphasis_0 ");
    c.append(p.accent.rgb().as_str());
    c.append("\n        emphasis_1 ");
    c.append(p.warn.rgb().as_str());
    c.append("\n        emphasis_2 ");
    c.append(p.info.rgb().as_str());
    c.append("\n        emphasis_3 ");
    c.append(p.success.rgb().as_str());
    c.append("\n    }\n");
    out.append(c.as_str());
}

/// What stands before the components of the theme.
pub const THEME_HEAD: &'static str = "\n// ─── tenx theme (appended by tenx; applies to tenx sessions only) ───\n// Semantic components mirror the overlay palette (crate::palette).\nthemes {\n    tenx {\n";

/// What stands after the components of the theme.
pub const THEME_TAIL: &'static str = "    }\n}\ntheme \"tenx\"\nui {\n    pane_frames {\n        rounded_corners true\n    }\n}\n";

/// The theme's components, with their foreground and background.
pub open spec fn theme_components(p: Palette) -> Seq<char> {
    component(p, "text_unselected"@, p.text, p.ground) + component(p, "text_selected"@, p.bright, p.ground) + component(
        p,
        "ribbon_unselected"@,
        p.muted,
        p.ground,
    ) + component(p, "ribbon_selected"@, p.ground, p.accent) + component(p, "frame_unselected"@, p.muted, p.ground)
        + component(p, "frame_selected"@, p.accent, p.ground) + component(p, "frame_highlight"@, p.warn, p.ground)
        + component(p, "list_unselected"@, p.text, p.ground) + component(p, "list_selected"@, p.bright, p.accent)
        + component(p, "table_title"@, p.accent, p.ground) + component(p, "table_cell_unselected"@, p.text, p.ground)
        + component(p, "table_cell_selected"@, p.bright, p.accent) + component(
        p,
        "exit_code_success"@,
        p.success,
        p.ground,
    ) + component(p, "exit_code_error"@, p.danger, p.ground)
}

/// The zellij theme and frame styling, appended to the user's base config when
/// launching a session. The focused pane's frame is the accent, unfocused
/// frames are muted.
pub fn theme_overlay(p: &Palette) -> (out: String)
    ensures
        out@ == THEME_HEAD@ + theme_components(*p) + THEME_TAIL@,
{
    let mut c = String::new();
    assert(c@ + component(*p, "text_unselected"@, p.text, p.ground) =~= component(
        *p,
        "text_unselected"@,
        p.text,
        p.ground,
    ));
    push_component(&mut c, p, "text_unselected", p.text, p.ground);
    push_component(&mut c, p, "text_selected", p.bright, p.ground);
    push_component(&mut c, p, "ribbon_unselected", p.muted, p.ground);
    push_component(&mut c, p, "ribbon_selected", p.ground, p.accent);
    push_component(&mut c, p, "frame_unselected", p.muted, p.ground);
    push_component(&mut c, p, "frame_selected", p.accent, p.ground);
    push_component(&mut c, p, "frame_highlight", p.warn, p.ground);
    push_component(&mut c, p, "list_unselected", p.text, p.ground);
    push_component(&mut c, p, "list_selected", p.bright, p.accent);
    push_component(&mut c, p, "table_title", p.accent, p.ground);
    push_component(&mut c, p, "table_cell_unselected", p.text, p.ground);
    push_component(&mut c, p, "table_cell_selected", p.bright, p.accent);
    push_component(&mut c, p, "exit_code_success", p.success, p.ground);
    push_component(&mut c, p, "exit_code_error", p.danger, p.ground);
    cat3(THEME_HEAD, c.as_str(), THEME_TAIL)
}

/// Whether a line selects a theme.
pub open spec fn selects_theme(line: Seq<char>) -> bool {
    "theme "@.is_prefix_of(crate::text::trim_start_of(line))
}

/// The lines that select no theme.
pub open spec fn without_themes(lines: Seq<Seq<char>>) -> Seq<Seq<char>>
    decreases lines.len(),
{
    if lines.len() == 0 {
        lines
    } else if selects_theme(lines.last()) {
        without_themes(lines.drop_last())
    } else {
        without_themes(lines.drop_last()).push(lines.last())
    }
}

/// A session's config: the user's base config without its own theme selection,
/// so ours wins, and the theme.
pub fn session_config(base: &str, theme: &str) -> (out: String)
    ensures
        out@ == joined(without_themes(lines_of(base@)), "\n"@) + "\n"@ + theme@,
{
    let ls: Vec<String> = lines(base);
    let ghost whole = views(ls@);
    let mut kept: Vec<String> = Vec::new();
    let mut i: usize = 0;
    assert(views(kept@) =~= without_themes(whole.take(0)));
    while i < ls.len()
        invariant
            i <= ls@.len(),
            whole == views(ls@),
            views(kept@) == without_themes(whole.take(i as int)),
        decreases ls@.len() - i,
    {
        assert(whole.take(i + 1).drop_last() =~= whole.take(i as int));
        assert(whole.take(i + 1).last() == ls@[i as int]@);
        if !selects(ls[i].as_str()) {
            let ghost before = views(kept@);
            kept.push(ls[i].clone());
            assert(views(kept@) =~= before.push(ls@[i as int]@));
        }
        i += 1;
    }
    assert(whole.take(whole.len() as int) =~= whole);
    cat3(join(&kept, "\n").as_str(), "\n", theme)
}

/// See [`selects_theme`].
fn selects(line: &str) -> (yes: bool)
    ensures
        yes == selects_theme(line@),
{
    let cs: Vec<char> = chars(line);
    let word: Vec<char> = chars("theme ");
    let mut a: usize = 0;
    assert(line@.skip(0) =~= line@);
    while a < cs.len() && crate::text::is_whitespace(cs[a])
        invariant
            a <= cs@.len(),
            cs@ == line@,
            crate::text::trim_start_of(line@) == crate::text::trim_start_of(line@.skip(a as int)),
        ensures
            a <= cs@.len(),
            crate::text::trim_start_of(line@) == line@.skip(a as int),
        decreases cs@.len() - a,
    {
        assert(line@.skip(a as int).skip(1) =~= line@.skip(a + 1));
        a += 1;
    }
    starts_at(&cs, a, &word)
}

// ── Layouts ──────────────────────────────────────────────────────────────────

/// An installed status-bar build: its file name and when it was changed.
#[derive(Debug)]
pub struct Build {
    pub name: String,
    pub modified: Option<u64>,
}

/// Whether a file is a status-bar build.
pub open spec fn is_build(name: Seq<char>) -> bool {
    "tenx-statusbar-"@.is_prefix_of(name) && ".wasm"@.is_suffix_of(name)
}

/// When a build was changed, as a number that grows with time; unknown comes
/// first.
pub open spec fn age_key(b: Build) -> int {
    match b.modified {
        Some(t) => t as int,
        None => -1,
    }
}

/// The newest of the first `n` files that is a build; the last of them where
/// several are.
pub open spec fn newest_build(files: Seq<Build>, n: int) -> Option<int>
    decreases n,
{
    if n <= 0 {
        None
    } else {
        let rest = newest_build(files, n - 1);
        if is_build(files[n - 1].name@) && (rest is None || age_key(files[rest->0]) <= age_key(files[n - 1])) {
            Some(n - 1)
        } else {
            rest
        }
    }
}

/// Whether `name` is a build's.
fn build_name(name: &str) -> (yes: bool)
    ensures
        yes == is_build(name@),
{
    let cs: Vec<char> = chars(name);
    let prefix: Vec<char> = chars("tenx-statusbar-");
    let suffix: Vec<char> = chars(".wasm");
    assert(cs@.skip(0) =~= cs@);
    if !starts_at(&cs, 0, &prefix) {
        return false;
    }
    if cs.len() < suffix.len() {
        return false;
    }
    let at: usize = cs.len() - suffix.len();
    let ghost tail = name@.skip(at as int);
    assert(tail =~= name@.subrange(name@.len() - ".wasm"@.len(), name@.len() as int));
    let yes = starts_at(&cs, at, &suffix);
    assert(yes == ".wasm"@.is_suffix_of(name@)) by {
        assert(tail.subrange(0, tail.len() as int) =~= tail);
    }
    yes
}

/// Which status-bar build to load: the one the pointer names, if that is a
/// file; else the newest by modification; else the unversioned name.
pub open spec fn statusbar_spec(dir: Seq<char>, pointer: Option<Seq<char>>, files: Seq<Build>) -> Seq<char> {
    match pointer {
        Some(name) => path_join_spec(dir, trimmed(name)),
        None => match newest_build(files, files.len() as int) {
            Some(i) => path_join_spec(dir, files[i].name@),
            None => path_join_spec(dir, "tenx-statusbar.wasm"@),
        },
    }
}

/// The file that the pointer names.
pub fn statusbar_candidate(dir: &str, pointer: &str) -> (p: String)
    ensures
        p@ == path_join_spec(dir@, trimmed(pointer@)),
{
    path_join(dir, trim(pointer).as_str())
}

/// See [`statusbar_spec`]; `pointer` is what the pointer file holds where the
/// build it names is a file, `files` what the directory lists.
pub fn statusbar_wasm(dir: &str, pointer: Option<&str>, files: &Vec<Build>) -> (p: String)
    ensures
        p@ == statusbar_spec(dir@, match pointer {
            Some(n) => Some(n@),
            None => None,
        }, files@),
{
    if let Some(name) = pointer {
        return statusbar_candidate(dir, name);
    }
    let mut newest: Option<usize> = None;
    let mut i: usize = 0;
    while i < files.len()
        invariant
            i <= files@.len(),
            match (newest, newest_build(files@, i as int)) {
                (Some(a), Some(b)) => a == b && a < i,
                (None, None) => true,
                _ => false,
            },
        decreases files@.len() - i,
    {
        if build_name(files[i].name.as_str()) {
            let later: bool = match newest {
                None => true,
                Some(k) => match (files[k].modified, files[i].modified) {
                    (None, _) => true,
                    (Some(_), None) => false,
                    (Some(a), Some(b)) => a <= b,
                },
            };
            if later {
                newest = Some(i);
            }
        }
        i += 1;
    }
    match newest {
        Some(k) => path_join(dir, files[k].name.as_str()),
        None => path_join(dir, "tenx-statusbar.wasm"),
    }
}

/// What a status bar is told of its task.
pub open spec fn task_block(slug: Seq<char>, title: Seq<char>, ws_dir: Seq<char>) -> Seq<char> {
    "\n            task \""@ + slug + "\"\n            task_title \""@ + title + "\"\n            ws_dir \""@ + ws_dir
        + "\"\n        "@
}

/// A status-bar pane block for a layout, optionally bound to a task (slug,
/// title, workspace directory).
pub open spec fn pane_block(wasm: Seq<char>, task: Option<(Seq<char>, Seq<char>, Seq<char>)>) -> Seq<char> {
    "pane size=1 borderless=true {\n        plugin location=\"file:"@ + wasm + "\" {"@ + (match task {
        Some((slug, title, dir)) => task_block(slug, title, dir),
        None => ""@,
    }) + "}\n    }"@
}

/// See [`pane_block`].
pub fn statusbar_pane(wasm: &str, task: Option<(&str, &str, &str)>) -> (out: String)
    ensures
        out@ == pane_block(wasm@, match task {
            Some((slug, title, dir)) => Some((slug@, title@, dir@)),
            None => None,
        }),
{
    let cfg = match task {
        Some((slug, title, ws_dir)) => {
            let mut c = own("\n            task \"");
            c.append(slug);
            c.append("\"\n            task_title \"");
            c.append(title);
            c.append("\"\n            ws_dir \"");
            c.append(ws_dir);
            c.append("\"\n        ");
            c
        },
        None => own(""),
    };
    let mut out = own("pane size=1 borderless=true {\n        plugin location=\"file:");
    out.append(wasm);
    out.append("\" {");
    out.append(cfg.as_str());
    out.append("}\n    }");
    out
}

/// The session's home tab: the overlay running full-screen as the base pane,
/// over a status bar without a task.
pub open spec fn home_layout_spec(tenx_bin: Seq<char>, wasm: Seq<char>) -> Seq<char> {
    "layout {\n    default_tab_template {\n        children\n        "@ + pane_block(wasm, None)
        + "\n    }\n    tab name=\"home\" focus=true {\n        pane command=\""@ + tenx_bin
        + "\" {\n            args \"overlay\" \"--home\"\n        }\n    }\n}"@
}

/// See [`home_layout_spec`].
pub fn home_layout(tenx_bin: &str, wasm: &str) -> (out: String)
    ensures
        out@ == home_layout_spec(tenx_bin@, wasm@),
{
    let mut out = own("layout {\n    default_tab_template {\n        children\n        ");
    out.append(statusbar_pane(wasm, None).as_str());
    out.append("\n    }\n    tab name=\"home\" focus=true {\n        pane command=\"");
    out.append(tenx_bin);
    out.append("\" {\n            args \"overlay\" \"--home\"\n        }\n    }\n}");
    out
}

/// A task tab: its name, where it runs, and how its agent starts.
#[derive(Debug)]
pub struct TabOptions<'a> {
    pub name: &'a str,
    pub cwd: &'a str,
    pub workspace_dir: &'a str,
    /// The task's display title. Only the status bar uses it.
    pub title: &'a str,
    pub layout_file: Option<&'a str>,
    /// Resume the task's most recent conversation. Only safe when one exists.
    /// Ignored by a custom layout, which spells out its own command.
    pub resume: bool,
}

/// How a task's agent is started.
pub open spec fn claude_args_text(resume: bool) -> Seq<char> {
    if resume {
        "args \"--name\" \"{name}\" \"--continue\""@
    } else {
        "args \"--name\" \"{name}\""@
    }
}

/// What the default task layout says up to its first `{claude_args}`.
pub open spec fn layout_opening(agent: Seq<char>) -> Seq<char> {
    "layout "@ + ("{\n    default_tab_template "@ + ("{\n        children\n        "@ + (
    "{statusbar}\n    }\n    tab name=\""@ + ("{name}\" cwd=\""@ + ("{cwd}\" focus=true "@ + (
    "{\n        pane split_direction=\"vertical\" "@ + ("{\n            pane name=\""@ + (agent + (
    "\" command=\""@ + (agent + ("\" cwd=\""@ + ("{cwd}\" size=\"50%\" close_on_exit=true "@
        + "{\n                // "@))))))))))))
}

/// What the default task layout says between its two `{claude_args}`.
pub open spec fn layout_middle() -> Seq<char> {
    ": \"--name "@ + ("{name}\" plus \"--continue\" only when a prior\n                "@
        + "// conversation exists (see TabOptions::resume).\n                "@)
}

/// What the default task layout says after its last `{claude_args}`.
pub open spec fn layout_closing() -> Seq<char> {
    "\n            }\n            pane split_direction=\"horizontal\" size=\"50%\" "@ + (
    "{\n                pane name=\"nvim\" command=\"nvim\" "@ + (
    "{\n                    args \"TASK.md\"\n                }\n                pane name=\"shell\""@
        + "\n            }\n        }\n    }\n}"@))
}

/// The layout of a task's tab where the workspace names none: the agent on the
/// left, notes and a shell on the right, our status bar below.
pub open spec fn default_task_layout_text(agent: Seq<char>) -> Seq<char> {
    layout_opening(agent) + ("{claude_args}"@ + (layout_middle() + ("{claude_args}"@ + layout_closing())))
}

/// See [`default_task_layout_text`]; `agent` is the command the agent's pane
/// runs.
pub fn default_task_layout(agent: &str) -> (out: String)
    ensures
        out@ == default_task_layout_text(agent@),
{
    let mut out = own("layout ");
    out.append("{\n    default_tab_template ");
    out.append("{\n        children\n        ");
    out.append("{statusbar}\n    }\n    tab name=\"");
    out.append("{name}\" cwd=\"");
    out.append("{cwd}\" focus=true ");
    out.append("{\n        pane split_direction=\"vertical\" ");
    out.append("{\n            pane name=\"");
    out.append(agent);
    out.append("\" command=\"");
    out.append(agent);
    out.append("\" cwd=\"");
    out.append("{cwd}\" size=\"50%\" close_on_exit=true ");
    out.append("{\n                // ");
    assert(out@ =~= layout_opening(agent@));
    out.append("{claude_args}");
    let ghost first = out@;
    out.append(": \"--name ");
    out.append("{name}\" plus \"--continue\" only when a prior\n                ");
    out.append("// conversation exists (see TabOptions::resume).\n                ");
    assert(out@ =~= first + layout_middle());
    out.append("{claude_args}");
    let ghost second = out@;
    out.append("\n            }\n            pane split_direction=\"horizontal\" size=\"50%\" ");
    out.append("{\n                pane name=\"nvim\" command=\"nvim\" ");
    out.append("{\n                    args \"TASK.md\"\n                }\n                pane name=\"shell\"");
    out.append("\n            }\n        }\n    }\n}");
    assert(out@ =~= second + layout_closing());
    assert(out@ =~= default_task_layout_text(agent@));
    out
}

/// The template of a task's tab with its agent's arguments filled in. A layout
/// file spells out its own command, so whether to resume does not reach it.
pub open spec fn started_layout(file: Option<Seq<char>>, agent: Seq<char>, resume: bool) -> Seq<char> {
    match file {
        Some(template) => replaced(template, "{claude_args}"@, claude_args_text(false)),
        None => replaced(default_task_layout_text(agent), "{claude_args}"@, claude_args_text(resume)),
    }
}

/// A task tab's layout: the template with its placeholders filled in, one kind
/// after the other, and zellij's own bar replaced by ours. The template is what
/// the layout file holds where there is one, else the default layout.
pub open spec fn rendered_layout(
    file: Option<Seq<char>>,
    agent: Seq<char>,
    name: Seq<char>,
    cwd: Seq<char>,
    workspace_dir: Seq<char>,
    title: Seq<char>,
    resume: bool,
    tenx: Seq<char>,
    wasm: Seq<char>,
) -> Seq<char> {
    let a = started_layout(file, agent, resume);
    let b = replaced(a, "{statusbar}"@, pane_block(wasm, Some((name, title, workspace_dir))));
    let c = replaced(b, "{name}"@, name);
    let d = replaced(c, "{cwd}"@, cwd);
    let e = replaced(d, "{tenx}"@, tenx);
    replaced(
        e,
        "plugin location=\"zellij:status-bar\""@,
        "plugin location=\"file:"@ + wasm + "\""@,
    )
}

/// A layout file decides alone how the agent starts: whether to resume changes
/// nothing there.
pub proof fn a_layout_file_ignores_resume(
    template: Seq<char>,
    agent: Seq<char>,
    name: Seq<char>,
    cwd: Seq<char>,
    workspace_dir: Seq<char>,
    title: Seq<char>,
    tenx: Seq<char>,
    wasm: Seq<char>,
)
    ensures
        rendered_layout(Some(template), agent, name, cwd, workspace_dir, title, true, tenx, wasm)
            == rendered_layout(Some(template), agent, name, cwd, workspace_dir, title, false, tenx, wasm),
{
}

/// Whether the placeholder `{claude_args}` can start nowhere in a text, whatever
/// follows it.
spec fn inert(s: Seq<char>) -> bool {
    forall|i: int|
        0 <= i < s.len() && #[trigger] s[i] == '{' ==> i + 2 < s.len() && !(s[i + 1] == 'c' && s[i + 2] == 'l')
}

proof fn inert_joins(a: Seq<char>, b: Seq<char>)
    requires
        inert(a),
        inert(b),
    ensures
        inert(a + b),
{
    let s = a + b;
    assert forall|i: int| 0 <= i < s.len() && #[trigger] s[i] == '{' implies i + 2 < s.len() && !(s[i + 1] == 'c'
        && s[i + 2] == 'l') by {
        if i < a.len() {
            assert(a[i] == '{');
        } else {
            assert(b[i - a.len()] == '{');
        }
    }
}

/// Text in which the placeholder starts nowhere passes the replacement
/// unchanged.
proof fn replaced_past(piece: Seq<char>, rest: Seq<char>, to: Seq<char>)
    requires
        forall|i: int| 0 <= i < piece.len() ==> !"{claude_args}"@.is_prefix_of(#[trigger] (piece + rest).skip(i)),
    ensures
        replaced(piece + rest, "{claude_args}"@, to) == piece + replaced(rest, "{claude_args}"@, to),
    decreases piece.len(),
{
    let from = "{claude_args}"@;
    let s = piece + rest;
    if piece.len() == 0 {
        assert(s =~= rest);
        assert(piece + replaced(rest, from, to) =~= replaced(rest, from, to));
    } else {
        let tail = piece.skip(1);
        assert(s.skip(0) =~= s);
        assert(s.skip(1) =~= tail + rest);
        assert forall|i: int| 0 <= i < tail.len() implies !from.is_prefix_of(#[trigger] (tail + rest).skip(i)) by {
            assert((tail + rest).skip(i) =~= s.skip(i + 1));
        }
        replaced_past(tail, rest, to);
        assert(seq![s[0]] + (tail + replaced(rest, from, to)) =~= piece + replaced(rest, from, to));
    }
}

proof fn inert_past(piece: Seq<char>, rest: Seq<char>, to: Seq<char>)
    requires
        inert(piece),
    ensures
        replaced(piece + rest, "{claude_args}"@, to) == piece + replaced(rest, "{claude_args}"@, to),
{
    let from = "{claude_args}"@;
    let s = piece + rest;
    assert forall|i: int| 0 <= i < piece.len() implies !from.is_prefix_of(#[trigger] s.skip(i)) by {
        reveal_strlit("{claude_args}");
        if from.is_prefix_of(s.skip(i)) {
            assert(s.skip(i)[0] == from[0] && s.skip(i)[1] == from[1] && s.skip(i)[2] == from[2]);
            assert(piece[i] == '{');
        }
    }
    replaced_past(piece, rest, to);
}

/// A name that does not hold the placeholder passes too, as a quote follows it.
proof fn quoted_past(name: Seq<char>, rest: Seq<char>, to: Seq<char>)
    requires
        !holds(name, "{claude_args}"@),
        rest.len() > 0,
        rest[0] == '"',
    ensures
        replaced(name + rest, "{claude_args}"@, to) == name + replaced(rest, "{claude_args}"@, to),
{
    let from = "{claude_args}"@;
    let s = name + rest;
    assert forall|i: int| 0 <= i < name.len() implies !from.is_prefix_of(#[trigger] s.skip(i)) by {
        if from.is_prefix_of(s.skip(i)) {
            let n = name.len() - i;
            if from.len() <= n {
                assert(s.skip(i).take(from.len() as int) =~= name.skip(i).take(from.len() as int));
                assert(from =~= name.skip(i).take(from.len() as int));
                assert(from.is_prefix_of(name.skip(i)));
            } else {
                assert(s.skip(i)[n] == '"');
                assert(from[n] == s.skip(i)[n]);
                reveal_strlit("{claude_args}");
            }
        }
    }
    replaced_past(name, rest, to);
}

/// The placeholder itself is replaced, and what follows it goes on.
proof fn replaced_here(rest: Seq<char>, to: Seq<char>)
    ensures
        replaced("{claude_args}"@ + rest, "{claude_args}"@, to) == to + replaced(rest, "{claude_args}"@, to),
{
    reveal_strlit("{claude_args}");
    let from = "{claude_args}"@;
    assert((from + rest).skip(from.len() as int) =~= rest);
    assert(from.is_prefix_of(from + rest));
}

/// The default layout up to its agent's name.
spec fn before_agent() -> Seq<char> {
    "layout "@ + ("{\n    default_tab_template "@ + ("{\n        children\n        "@ + ("{statusbar}\n    }\n    tab name=\""@ + ("{name}\" cwd=\""@ + ("{cwd}\" focus=true "@ + ("{\n        pane split_direction=\"vertical\" "@ + ("{\n            pane name=\""@)))))))
}

/// The default layout from its agent's command to its first `{claude_args}`.
spec fn after_agent() -> Seq<char> {
    "\" cwd=\""@ + ("{cwd}\" size=\"50%\" close_on_exit=true "@ + ("{\n                // "@))
}

proof fn agent_surroundings_are_inert()
    ensures
        inert(before_agent()),
        inert("\" command=\""@),
        inert(after_agent()),
        after_agent().len() > 0,
        after_agent()[0] == '"',
        "\" command=\""@.len() > 0,
        "\" command=\""@[0] == '"',
{
    start_is_inert();
    end_is_inert();
    reveal_strlit("\" command=\"");
    reveal_strlit("\" cwd=\"");
}

proof fn start_is_inert()
    ensures
        inert(before_agent()),
{
    assert(inert("layout "@)) by {
        reveal_strlit("layout ");
    }
    assert(inert("{\n    default_tab_template "@)) by {
        reveal_strlit("{\n    default_tab_template ");
    }
    assert(inert("{\n        children\n        "@)) by {
        reveal_strlit("{\n        children\n        ");
    }
    assert(inert("{statusbar}\n    }\n    tab name=\""@)) by {
        reveal_strlit("{statusbar}\n    }\n    tab name=\"");
    }
    assert(inert("{name}\" cwd=\""@)) by {
        reveal_strlit("{name}\" cwd=\"");
    }
    assert(inert("{cwd}\" focus=true "@)) by {
        reveal_strlit("{cwd}\" focus=true ");
    }
    assert(inert("{\n        pane split_direction=\"vertical\" "@)) by {
        reveal_strlit("{\n        pane split_direction=\"vertical\" ");
    }
    assert(inert("{\n            pane name=\""@)) by {
        reveal_strlit("{\n            pane name=\"");
    }
    let t7 = "{\n            pane name=\""@;
    inert_joins("{\n        pane split_direction=\"vertical\" "@, t7);
    let t6 = "{\n        pane split_direction=\"vertical\" "@ + t7;
    inert_joins("{cwd}\" focus=true "@, t6);
    let t5 = "{cwd}\" focus=true "@ + t6;
    inert_joins("{name}\" cwd=\""@, t5);
    let t4 = "{name}\" cwd=\""@ + t5;
    inert_joins("{statusbar}\n    }\n    tab name=\""@, t4);
    let t3 = "{statusbar}\n    }\n    tab name=\""@ + t4;
    inert_joins("{\n        children\n        "@, t3);
    let t2 = "{\n        children\n        "@ + t3;
    inert_joins("{\n    default_tab_template "@, t2);
    let t1 = "{\n    default_tab_template "@ + t2;
    inert_joins("layout "@, t1);
}

proof fn end_is_inert()
    ensures
        inert(after_agent()),
{
    assert(inert("\" cwd=\""@)) by {
        reveal_strlit("\" cwd=\"");
    }
    assert(inert("{cwd}\" size=\"50%\" close_on_exit=true "@)) by {
        reveal_strlit("{cwd}\" size=\"50%\" close_on_exit=true ");
    }
    assert(inert("{\n                // "@)) by {
        reveal_strlit("{\n                // ");
    }
    let t2 = "{\n                // "@;
    inert_joins("{cwd}\" size=\"50%\" close_on_exit=true "@, t2);
    let t1 = "{cwd}\" size=\"50%\" close_on_exit=true "@ + t2;
    inert_joins("\" cwd=\""@, t1);
}

/// Nothing before the first placeholder of the default layout is taken for it.
proof fn opening_past(agent: Seq<char>, rest: Seq<char>, to: Seq<char>)
    requires
        !holds(agent, "{claude_args}"@),
    ensures
        replaced(layout_opening(agent) + rest, "{claude_args}"@, to) == layout_opening(agent) + replaced(
            rest,
            "{claude_args}"@,
            to,
        ),
{
    let a = before_agent();
    let b = "\" command=\""@;
    let c = after_agent();
    let last = replaced(rest, "{claude_args}"@, to);
    agent_surroundings_are_inert();
    assert(layout_opening(agent) =~= a + agent + b + agent + c);
    assert(layout_opening(agent) + rest =~= a + (agent + (b + (agent + (c + rest)))));
    inert_past(c, rest, to);
    assert((c + rest)[0] == '"');
    quoted_past(agent, c + rest, to);
    inert_past(b, agent + (c + rest), to);
    assert((b + (agent + (c + rest)))[0] == '"');
    quoted_past(agent, b + (agent + (c + rest)), to);
    inert_past(a, agent + (b + (agent + (c + rest))), to);
    assert(a + (agent + (b + (agent + (c + last)))) =~= layout_opening(agent) + last);
}

proof fn middle_is_inert()
    ensures
        inert(layout_middle()),
{
    assert(inert(": \"--name "@)) by {
        reveal_strlit(": \"--name ");
    }
    assert(inert("{name}\" plus \"--continue\" only when a prior\n                "@)) by {
        reveal_strlit("{name}\" plus \"--continue\" only when a prior\n                ");
    }
    assert(inert("// conversation exists (see TabOptions::resume).\n                "@)) by {
        reveal_strlit("// conversation exists (see TabOptions::resume).\n                ");
    }
    let t2 = "// conversation exists (see TabOptions::resume).\n                "@;
    inert_joins("{name}\" plus \"--continue\" only when a prior\n                "@, t2);
    let t1 = "{name}\" plus \"--continue\" only when a prior\n                "@ + t2;
    inert_joins(": \"--name "@, t1);
}

proof fn closing_is_inert()
    ensures
        inert(layout_closing()),
{
    assert(inert("\n            }\n            pane split_direction=\"horizontal\" size=\"50%\" "@)) by {
        reveal_strlit("\n            }\n            pane split_direction=\"horizontal\" size=\"50%\" ");
    }
    assert(inert("{\n                pane name=\"nvim\" command=\"nvim\" "@)) by {
        reveal_strlit("{\n                pane name=\"nvim\" command=\"nvim\" ");
    }
    assert(inert("{\n                    args \"TASK.md\"\n                }\n                pane name=\"shell\""@)) by {
        reveal_strlit("{\n                    args \"TASK.md\"\n                }\n                pane name=\"shell\"");
    }
    assert(inert("\n            }\n        }\n    }\n}"@)) by {
        reveal_strlit("\n            }\n        }\n    }\n}");
    }
    let t3 = "\n            }\n        }\n    }\n}"@;
    inert_joins("{\n                    args \"TASK.md\"\n                }\n                pane name=\"shell\""@, t3);
    let t2 = "{\n                    args \"TASK.md\"\n                }\n                pane name=\"shell\""@ + t3;
    inert_joins("{\n                pane name=\"nvim\" command=\"nvim\" "@, t2);
    let t1 = "{\n                pane name=\"nvim\" command=\"nvim\" "@ + t2;
    inert_joins("\n            }\n            pane split_direction=\"horizontal\" size=\"50%\" "@, t1);
}

/// Without a layout file, resuming is asked for exactly where it was wished
/// for: the default layout starts its agent with these arguments and says
/// nothing else anew, and `--continue` is among them if and only if the task
/// resumes.
pub proof fn the_default_layout_resumes_on_request(agent: Seq<char>, resume: bool)
    requires
        !holds(agent, "{claude_args}"@),
    ensures
        started_layout(None, agent, resume) == layout_opening(agent) + claude_args_text(resume) + layout_middle()
            + claude_args_text(resume) + layout_closing(),
        holds(claude_args_text(resume), "--continue"@) <==> resume,
{
    let from = "{claude_args}"@;
    let args = claude_args_text(resume);
    let nothing = Seq::<char>::empty();
    middle_is_inert();
    closing_is_inert();
    let end = layout_closing();
    assert(end + nothing =~= end);
    inert_past(end, nothing, args);
    assert(end + replaced(nothing, from, args) =~= end);
    replaced_here(end, args);
    inert_past(layout_middle(), from + end, args);
    replaced_here(layout_middle() + (from + end), args);
    opening_past(agent, from + (layout_middle() + (from + end)), args);
    assert(layout_opening(agent) + (args + (layout_middle() + (args + end))) =~= layout_opening(agent) + args
        + layout_middle() + args + end);
    continuing_is_said(resume);
}

proof fn continuing_is_said(resume: bool)
    ensures
        holds(claude_args_text(resume), "--continue"@) <==> resume,
{
    reveal_strlit("--continue");
    let word = "--continue"@;
    let args = claude_args_text(resume);
    if resume {
        reveal_strlit("args \"--name\" \"{name}\" \"--continue\"");
        assert(args.skip(24).take(10) =~= word);
        assert(word.is_prefix_of(args.skip(24)));
    } else {
        reveal_strlit("args \"--name\" \"{name}\"");
        assert forall|i: int| 0 <= i <= args.len() implies !word.is_prefix_of(#[trigger] args.skip(i)) by {
            if word.is_prefix_of(args.skip(i)) {
                assert(args.skip(i)[0] == word[0] && args.skip(i)[1] == word[1] && args.skip(i)[2] == word[2]);
                assert(args[i] == '-' && args[i + 1] == '-' && args[i + 2] == 'c');
            }
        }
    }
}

/// See [`rendered_layout`]; `file` is what the layout file of the options
/// holds, where they name one, and `agent` the command of the default layout's
/// agent pane.
pub fn render_layout(opts: &TabOptions, file: Option<&str>, agent: &str, tenx: &str, wasm: &str) -> (out: String)
    requires
        opts.layout_file is Some <==> file is Some,
    ensures
        out@ == rendered_layout(
            match file {
                Some(f) => Some(f@),
                None => None,
            },
            agent@,
            opts.name@,
            opts.cwd@,
            opts.workspace_dir@,
            opts.title@,
            opts.resume,
            tenx@,
            wasm@,
        ),
{
    proof {
        reveal_strlit("{claude_args}");
        reveal_strlit("{statusbar}");
        reveal_strlit("{name}");
        reveal_strlit("{cwd}");
        reveal_strlit("{tenx}");
        reveal_strlit("plugin location=\"zellij:status-bar\"");
    }
    let plain = "args \"--name\" \"{name}\"";
    let a = match file {
        Some(template) => replace(template, "{claude_args}", plain),
        None => {
            let args = if opts.resume {
                "args \"--name\" \"{name}\" \"--continue\""
            } else {
                plain
            };
            replace(default_task_layout(agent).as_str(), "{claude_args}", args)
        },
    };
    let statusbar = statusbar_pane(wasm, Some((opts.name, opts.title, opts.workspace_dir)));
    let b = replace(a.as_str(), "{statusbar}", statusbar.as_str());
    let c = replace(b.as_str(), "{name}", opts.name);
    let d = replace(c.as_str(), "{cwd}", opts.cwd);
    let e = replace(d.as_str(), "{tenx}", tenx);
    let ours = cat3("plugin location=\"file:", wasm, "\"");
    replace(e.as_str(), "plugin location=\"zellij:status-bar\"", ours.as_str())
}

/// What to run to open a new task tab with the layout `kdl`. Refused outside
/// zellij.
pub fn open_or_switch(inside: bool, opts: &TabOptions, kdl: &str) -> (r: Result<Vec<String>, String>)
    ensures
        !inside ==> (r matches Err(e) && e@ == "not inside a zellij session — start zellij or use --no-open"@),
        inside ==> (r matches Ok(a) && views(a@) == seq![
            "action"@,
            "new-tab"@,
            "--name"@,
            opts.name@,
            "--cwd"@,
            opts.cwd@,
            "--layout-string"@,
            kdl@,
        ]),
{
    if !inside {
        return Err(own("not inside a zellij session — start zellij or use --no-open"));
    }
    let args = strings(&vec!["action", "new-tab", "--name", opts.name, "--cwd", opts.cwd, "--layout-string", kdl]);
    assert(views(args@) =~= seq![
        "action"@,
        "new-tab"@,
        "--name"@,
        opts.name@,
        "--cwd"@,
        opts.cwd@,
        "--layout-string"@,
        kdl@,
    ]);
    Ok(args)
}

/// The first tab at or after `from` that is active.
pub open spec fn active_tab_from(tabs: Seq<Tab>, from: int) -> Option<int>
    decreases tabs.len() - from,
{
    if from >= tabs.len() {
        None
    } else if tabs[from].active {
        Some(from)
    } else {
        active_tab_from(tabs, from + 1)
    }
}

/// The id of the tab just opened: a new tab becomes the active one.
pub fn opened_tab(tabs: &Vec<Tab>) -> (r: Result<u32, String>)
    ensures
        match (r, active_tab_from(tabs@, 0)) {
            (Ok(id), Some(i)) => id == tabs@[i].tab_id,
            (Err(e), None) => e@ == "cannot find newly created tab"@,
            _ => false,
        },
{
    let mut i: usize = 0;
    while i < tabs.len()
        invariant
            i <= tabs@.len(),
            active_tab_from(tabs@, 0) == active_tab_from(tabs@, i as int),
        decreases tabs@.len() - i,
    {
        if tabs[i].active {
            return Ok(tabs[i].tab_id);
        }
        i += 1;
    }
    Err(own("cannot find newly created tab"))
}

} // verus!
