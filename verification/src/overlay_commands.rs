//! The overlay's commands: what each name asks for.
use vstd::prelude::*;
use vstd::string::*;

use crate::input::{KeyCode, KeyEvent, KeyModifiers};
use crate::list::{EffectView, ListView, Tab};
use crate::overlay::OverlayView;
use crate::overlay_keys::at_rest;

verus! {

/// `:o` and `:open` do what `o` does.
pub proof fn opening_has_two_names(v: OverlayView, cmd: Seq<char>, m: KeyModifiers)
    requires
        at_rest(v),
        v.list.tab == Tab::Tasks,
        cmd == "o"@ || cmd == "open"@,
    ensures
        v.run_command(cmd) == v.handle_key(KeyEvent { code: KeyCode::Char('o'), modifiers: m }),
{
    reveal_strlit("tasks");
    reveal_strlit("repos");
    reveal_strlit("q");
    reveal_strlit("quit");
    reveal_strlit("n");
    reveal_strlit("new");
    reveal_strlit("d");
    reveal_strlit("del");
    reveal_strlit("delete");
    reveal_strlit("rm");
    reveal_strlit("r");
    reveal_strlit("rename");
    reveal_strlit("e");
    reveal_strlit("edit");
    reveal_strlit("edit-repos");
    reveal_strlit("x");
    reveal_strlit("close");
    reveal_strlit("u");
    reveal_strlit("unlock");
    reveal_strlit("o");
    reveal_strlit("open");
    assert(cmd[0] == 'o');
}

/// `:x` and `:close` do what `x` does.
pub proof fn closing_has_two_names(v: OverlayView, cmd: Seq<char>, m: KeyModifiers)
    requires
        at_rest(v),
        v.list.tab == Tab::Tasks,
        cmd == "x"@ || cmd == "close"@,
    ensures
        v.run_command(cmd) == v.handle_key(KeyEvent { code: KeyCode::Char('x'), modifiers: m }),
{
    reveal_strlit("tasks");
    reveal_strlit("repos");
    reveal_strlit("q");
    reveal_strlit("quit");
    reveal_strlit("n");
    reveal_strlit("new");
    reveal_strlit("d");
    reveal_strlit("del");
    reveal_strlit("delete");
    reveal_strlit("rm");
    reveal_strlit("r");
    reveal_strlit("rename");
    reveal_strlit("e");
    reveal_strlit("edit");
    reveal_strlit("edit-repos");
    reveal_strlit("x");
    reveal_strlit("close");
    assert(cmd[0] == 'x' || cmd[0] == 'c');
}

/// `:r` and `:rename` do what `r` does.
pub proof fn renaming_has_two_names(v: OverlayView, cmd: Seq<char>, m: KeyModifiers)
    requires
        at_rest(v),
        v.list.tab == Tab::Tasks,
        cmd == "r"@ || cmd == "rename"@,
    ensures
        v.run_command(cmd) == v.handle_key(KeyEvent { code: KeyCode::Char('r'), modifiers: m }),
{
    reveal_strlit("tasks");
    reveal_strlit("repos");
    reveal_strlit("q");
    reveal_strlit("quit");
    reveal_strlit("n");
    reveal_strlit("new");
    reveal_strlit("d");
    reveal_strlit("del");
    reveal_strlit("delete");
    reveal_strlit("rm");
    reveal_strlit("r");
    reveal_strlit("rename");
    assert(cmd[0] == 'r');
    assert(cmd.len() == 1 || cmd.len() == 6);
}

/// `:e`, `:edit` and `:edit-repos` do what `e` does.
pub proof fn editing_has_three_names(v: OverlayView, cmd: Seq<char>, m: KeyModifiers)
    requires
        at_rest(v),
        v.list.tab == Tab::Tasks,
        cmd == "e"@ || cmd == "edit"@ || cmd == "edit-repos"@,
    ensures
        v.run_command(cmd) == v.handle_key(KeyEvent { code: KeyCode::Char('e'), modifiers: m }),
{
    reveal_strlit("tasks");
    reveal_strlit("repos");
    reveal_strlit("q");
    reveal_strlit("quit");
    reveal_strlit("n");
    reveal_strlit("new");
    reveal_strlit("d");
    reveal_strlit("del");
    reveal_strlit("delete");
    reveal_strlit("rm");
    reveal_strlit("r");
    reveal_strlit("rename");
    reveal_strlit("e");
    reveal_strlit("edit");
    reveal_strlit("edit-repos");
    assert(cmd[0] == 'e');
}

/// `:u` and `:unlock` do what `u` does.
pub proof fn unlocking_has_two_names(v: OverlayView, cmd: Seq<char>, m: KeyModifiers)
    requires
        at_rest(v),
        v.list.tab == Tab::Tasks,
        cmd == "u"@ || cmd == "unlock"@,
    ensures
        v.run_command(cmd) == v.handle_key(KeyEvent { code: KeyCode::Char('u'), modifiers: m }),
{
    reveal_strlit("tasks");
    reveal_strlit("repos");
    reveal_strlit("q");
    reveal_strlit("quit");
    reveal_strlit("n");
    reveal_strlit("new");
    reveal_strlit("d");
    reveal_strlit("del");
    reveal_strlit("delete");
    reveal_strlit("rm");
    reveal_strlit("r");
    reveal_strlit("rename");
    reveal_strlit("e");
    reveal_strlit("edit");
    reveal_strlit("edit-repos");
    reveal_strlit("x");
    reveal_strlit("close");
    reveal_strlit("u");
    reveal_strlit("unlock");
    assert(cmd[0] == 'u');
}

/// `:d`, `:del`, `:delete` and `:rm` do what `dd` does.
pub proof fn deleting_has_four_names(v: OverlayView, cmd: Seq<char>, m: KeyModifiers)
    requires
        at_rest(v),
        v.list.tab == Tab::Tasks,
        cmd == "d"@ || cmd == "del"@ || cmd == "delete"@ || cmd == "rm"@,
    ensures
        v.run_command(cmd) == v.handle_key(KeyEvent { code: KeyCode::Char('d'), modifiers: m }).0.handle_key(
            KeyEvent { code: KeyCode::Char('d'), modifiers: m },
        ),
{
    reveal_strlit("tasks");
    reveal_strlit("repos");
    reveal_strlit("q");
    reveal_strlit("quit");
    reveal_strlit("n");
    reveal_strlit("new");
    reveal_strlit("d");
    reveal_strlit("del");
    reveal_strlit("delete");
    reveal_strlit("rm");
    assert(cmd[0] == 'd' || cmd[0] == 'r');
    assert(cmd.len() != 5);
    let d = v.handle_key(KeyEvent { code: KeyCode::Char('d'), modifiers: m }).0;
    assert(d.list.pending == Some('d'));
    assert(d.on(ListView { pending: None, ..d.list }) == v);
}

/// `:n` and `:new` ask for a new task, as `a` does on the tasks.
pub proof fn creating_has_two_names(v: OverlayView, cmd: Seq<char>, m: KeyModifiers)
    requires
        at_rest(v),
        v.list.tab == Tab::Tasks,
        cmd == "n"@ || cmd == "new"@,
    ensures
        v.run_command(cmd) == v.handle_key(KeyEvent { code: KeyCode::Char('a'), modifiers: m }),
{
    reveal_strlit("tasks");
    reveal_strlit("repos");
    reveal_strlit("q");
    reveal_strlit("quit");
    reveal_strlit("n");
    reveal_strlit("new");
    assert(cmd[0] == 'n');
}

/// A tab's name leads to it, and `:q` wishes to close.
pub proof fn tabs_have_names(v: OverlayView)
    ensures
        v.run_command("tasks"@).0.list.tab == Tab::Tasks,
        v.run_command("repos"@).0.list.tab == Tab::Repos,
        v.run_command("repos"@).1 is ScanRepos <==> v.list.repo_rows.len() == 0,
        v.run_command("q"@) == (v, EffectView::Close),
        v.run_command("quit"@) == (v, EffectView::Close),
{
    reveal_strlit("tasks");
    reveal_strlit("repos");
    reveal_strlit("q");
    reveal_strlit("quit");
    assert("repos"@[0] == 'r' && "q"@[0] == 'q' && "tasks"@[0] == 't' && "quit"@[0] == 'q');
}

} // verus!
