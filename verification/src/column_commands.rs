//! The column's commands: what each name asks for.
use vstd::prelude::*;
use vstd::string::*;

use crate::column::{ClientRequest, ColumnView};
use crate::column_keys::at_rest;
use crate::input::{KeyCode, KeyEvent, KeyModifiers};
use crate::list::{EffectView, Tab};

verus! {

/// `:o` and `:open` do what `o` does.
pub proof fn opening_has_two_names(v: ColumnView, cmd: Seq<char>, m: KeyModifiers)
    requires
        at_rest(v),
        v.list.tab == Tab::Tasks,
        cmd == "o"@ || cmd == "open"@,
    ensures
        v.run_command(cmd) == v.handle_key(KeyEvent { code: KeyCode::Char('o'), modifiers: m }),
{
    reveal_strlit("tasks");
    reveal_strlit("repos");
    reveal_strlit("work");
    reveal_strlit("q");
    reveal_strlit("quit");
    reveal_strlit("q!");
    reveal_strlit("quit!");
    reveal_strlit("n");
    reveal_strlit("new");
    reveal_strlit("d");
    reveal_strlit("del");
    reveal_strlit("delete");
    reveal_strlit("rm");
    reveal_strlit("r");
    reveal_strlit("rename");
    reveal_strlit("e");
    reveal_strlit("edit");
    reveal_strlit("edit-repos");
    reveal_strlit("x");
    reveal_strlit("close");
    reveal_strlit("u");
    reveal_strlit("unlock");
    reveal_strlit("y");
    reveal_strlit("approve");
    reveal_strlit("allow");
    reveal_strlit("deny");
    reveal_strlit("cancel");
    reveal_strlit("hide");
    reveal_strlit("o");
    reveal_strlit("open");
    assert(cmd[0] == 'o');
}

/// `:x` and `:close` do what `x` does.
pub proof fn closing_has_two_names(v: ColumnView, cmd: Seq<char>, m: KeyModifiers)
    requires
        at_rest(v),
        v.list.tab == Tab::Tasks,
        cmd == "x"@ || cmd == "close"@,
    ensures
        v.run_command(cmd) == v.handle_key(KeyEvent { code: KeyCode::Char('x'), modifiers: m }),
{
    reveal_strlit("tasks");
    reveal_strlit("repos");
    reveal_strlit("work");
    reveal_strlit("q");
    reveal_strlit("quit");
    reveal_strlit("q!");
    reveal_strlit("quit!");
    reveal_strlit("n");
    reveal_strlit("new");
    reveal_strlit("d");
    reveal_strlit("del");
    reveal_strlit("delete");
    reveal_strlit("rm");
    reveal_strlit("r");
    reveal_strlit("rename");
    reveal_strlit("e");
    reveal_strlit("edit");
    reveal_strlit("edit-repos");
    reveal_strlit("x");
    reveal_strlit("close");
    assert(cmd[0] == 'x' || cmd[0] == 'c');
}

/// `:r` and `:rename` do what `r` does.
pub proof fn renaming_has_two_names(v: ColumnView, cmd: Seq<char>, m: KeyModifiers)
    requires
        at_rest(v),
        v.list.tab == Tab::Tasks,
        cmd == "r"@ || cmd == "rename"@,
    ensures
        v.run_command(cmd) == v.handle_key(KeyEvent { code: KeyCode::Char('r'), modifiers: m }),
{
    reveal_strlit("tasks");
    reveal_strlit("repos");
    reveal_strlit("work");
    reveal_strlit("q");
    reveal_strlit("quit");
    reveal_strlit("q!");
    reveal_strlit("quit!");
    reveal_strlit("n");
    reveal_strlit("new");
    reveal_strlit("d");
    reveal_strlit("del");
    reveal_strlit("delete");
    reveal_strlit("rm");
    reveal_strlit("r");
    reveal_strlit("rename");
    assert(cmd[0] == 'r');
    assert(cmd.len() == 1 || cmd.len() == 6);
}

/// `:e`, `:edit` and `:edit-repos` do what `e` does.
pub proof fn editing_has_three_names(v: ColumnView, cmd: Seq<char>, m: KeyModifiers)
    requires
        at_rest(v),
        v.list.tab == Tab::Tasks,
        cmd == "e"@ || cmd == "edit"@ || cmd == "edit-repos"@,
    ensures
        v.run_command(cmd) == v.handle_key(KeyEvent { code: KeyCode::Char('e'), modifiers: m }),
{
    reveal_strlit("tasks");
    reveal_strlit("repos");
    reveal_strlit("work");
    reveal_strlit("q");
    reveal_strlit("quit");
    reveal_strlit("q!");
    reveal_strlit("quit!");
    reveal_strlit("n");
    reveal_strlit("new");
    reveal_strlit("d");
    reveal_strlit("del");
    reveal_strlit("delete");
    reveal_strlit("rm");
    reveal_strlit("r");
    reveal_strlit("rename");
    reveal_strlit("e");
    reveal_strlit("edit");
    reveal_strlit("edit-repos");
    assert(cmd[0] == 'e');
}

/// `:u` and `:unlock` do what `u` does.
pub proof fn unlocking_has_two_names(v: ColumnView, cmd: Seq<char>, m: KeyModifiers)
    requires
        at_rest(v),
        v.list.tab == Tab::Tasks,
        cmd == "u"@ || cmd == "unlock"@,
    ensures
        v.run_command(cmd) == v.handle_key(KeyEvent { code: KeyCode::Char('u'), modifiers: m }),
{
    reveal_strlit("tasks");
    reveal_strlit("repos");
    reveal_strlit("work");
    reveal_strlit("q");
    reveal_strlit("quit");
    reveal_strlit("q!");
    reveal_strlit("quit!");
    reveal_strlit("n");
    reveal_strlit("new");
    reveal_strlit("d");
    reveal_strlit("del");
    reveal_strlit("delete");
    reveal_strlit("rm");
    reveal_strlit("r");
    reveal_strlit("rename");
    reveal_strlit("e");
    reveal_strlit("edit");
    reveal_strlit("edit-repos");
    reveal_strlit("x");
    reveal_strlit("close");
    reveal_strlit("u");
    reveal_strlit("unlock");
    assert(cmd[0] == 'u');
}

/// `:y`, `:approve` and `:allow` do what `y` does.
pub proof fn approving_has_three_names(v: ColumnView, cmd: Seq<char>, m: KeyModifiers)
    requires
        at_rest(v),
        v.list.tab == Tab::Tasks,
        cmd == "y"@ || cmd == "approve"@ || cmd == "allow"@,
    ensures
        v.run_command(cmd) == v.handle_key(KeyEvent { code: KeyCode::Char('y'), modifiers: m }),
{
    reveal_strlit("tasks");
    reveal_strlit("repos");
    reveal_strlit("work");
    reveal_strlit("q");
    reveal_strlit("quit");
    reveal_strlit("q!");
    reveal_strlit("quit!");
    reveal_strlit("n");
    reveal_strlit("new");
    reveal_strlit("d");
    reveal_strlit("del");
    reveal_strlit("delete");
    reveal_strlit("rm");
    reveal_strlit("r");
    reveal_strlit("rename");
    reveal_strlit("e");
    reveal_strlit("edit");
    reveal_strlit("edit-repos");
    reveal_strlit("x");
    reveal_strlit("close");
    reveal_strlit("u");
    reveal_strlit("unlock");
    reveal_strlit("y");
    reveal_strlit("approve");
    reveal_strlit("allow");
    assert(cmd[0] == 'y' || cmd[0] == 'a');
}

/// `:deny` does what `N` does.
pub proof fn denying_has_one_name(v: ColumnView, cmd: Seq<char>, m: KeyModifiers)
    requires
        at_rest(v),
        v.list.tab == Tab::Tasks,
        cmd == "deny"@,
    ensures
        v.run_command(cmd) == v.handle_key(KeyEvent { code: KeyCode::Char('N'), modifiers: m }),
{
    reveal_strlit("tasks");
    reveal_strlit("repos");
    reveal_strlit("work");
    reveal_strlit("q");
    reveal_strlit("quit");
    reveal_strlit("q!");
    reveal_strlit("quit!");
    reveal_strlit("n");
    reveal_strlit("new");
    reveal_strlit("d");
    reveal_strlit("del");
    reveal_strlit("delete");
    reveal_strlit("rm");
    reveal_strlit("r");
    reveal_strlit("rename");
    reveal_strlit("e");
    reveal_strlit("edit");
    reveal_strlit("edit-repos");
    reveal_strlit("x");
    reveal_strlit("close");
    reveal_strlit("u");
    reveal_strlit("unlock");
    reveal_strlit("y");
    reveal_strlit("approve");
    reveal_strlit("allow");
    reveal_strlit("deny");
    assert(cmd[0] == 'd');
    assert(cmd.len() == 4);
}

/// `:d`, `:del`, `:delete` and `:rm` do what `dd` does.
pub proof fn deleting_has_four_names(v: ColumnView, cmd: Seq<char>, m: KeyModifiers)
    requires
        at_rest(v),
        v.list.tab == Tab::Tasks,
        cmd == "d"@ || cmd == "del"@ || cmd == "delete"@ || cmd == "rm"@,
    ensures
        v.run_command(cmd) == v.handle_key(KeyEvent { code: KeyCode::Char('d'), modifiers: m }).0.handle_key(
            KeyEvent { code: KeyCode::Char('d'), modifiers: m },
        ),
{
    reveal_strlit("tasks");
    reveal_strlit("repos");
    reveal_strlit("work");
    reveal_strlit("q");
    reveal_strlit("quit");
    reveal_strlit("q!");
    reveal_strlit("quit!");
    reveal_strlit("n");
    reveal_strlit("new");
    reveal_strlit("d");
    reveal_strlit("del");
    reveal_strlit("delete");
    reveal_strlit("rm");
    assert(cmd[0] == 'd' || cmd[0] == 'r');
    assert(cmd.len() != 5);
    let d = v.handle_key(KeyEvent { code: KeyCode::Char('d'), modifiers: m }).0;
    assert(d.list.pending == Some('d'));
    assert(d.on(crate::list::ListView { pending: None, ..d.list }) == v);
}

/// `:n` and `:new` do what `n` does.
pub proof fn creating_has_two_names(v: ColumnView, cmd: Seq<char>, m: KeyModifiers)
    requires
        at_rest(v),
        v.list.tab == Tab::Tasks,
        cmd == "n"@ || cmd == "new"@,
    ensures
        v.run_command(cmd) == v.handle_key(KeyEvent { code: KeyCode::Char('n'), modifiers: m }),
{
    reveal_strlit("tasks");
    reveal_strlit("repos");
    reveal_strlit("work");
    reveal_strlit("q");
    reveal_strlit("quit");
    reveal_strlit("q!");
    reveal_strlit("quit!");
    reveal_strlit("n");
    reveal_strlit("new");
    assert(cmd[0] == 'n');
}

/// A tab's name leads to it.
pub proof fn tabs_have_names(v: ColumnView)
    ensures
        v.run_command("tasks"@).0.list.tab == Tab::Tasks,
        v.run_command("repos"@).0.list.tab == Tab::Repos,
        v.run_command("work"@).0.list.tab == Tab::Work,
        v.run_command("repos"@).1 is ScanRepos <==> v.list.repo_rows.len() == 0,
        v.run_command("tasks"@).0.list.selected == v.list.selected,
        v.run_command("work"@).0.list.selected == v.list.selected,
{
    reveal_strlit("tasks");
    reveal_strlit("repos");
    reveal_strlit("work");
    assert("repos"@[0] == 'r' && "work"@[0] == 'w' && "tasks"@[0] == 't');
}

/// `:hide` hides the column and changes nothing else.
pub proof fn hiding_has_a_name(v: ColumnView, cmd: Seq<char>)
    requires
        v.list.tab == Tab::Tasks,
        cmd == "hide"@,
    ensures
        v.run_command(cmd).0.client_request == Some(ClientRequest::Hide),
        v.run_command(cmd).0.list == v.list,
        v.run_command(cmd).1 is Nothing,
{
    reveal_strlit("tasks");
    reveal_strlit("repos");
    reveal_strlit("work");
    reveal_strlit("q");
    reveal_strlit("quit");
    reveal_strlit("q!");
    reveal_strlit("quit!");
    reveal_strlit("n");
    reveal_strlit("new");
    reveal_strlit("d");
    reveal_strlit("del");
    reveal_strlit("delete");
    reveal_strlit("rm");
    reveal_strlit("r");
    reveal_strlit("rename");
    reveal_strlit("e");
    reveal_strlit("edit");
    reveal_strlit("edit-repos");
    reveal_strlit("x");
    reveal_strlit("close");
    reveal_strlit("u");
    reveal_strlit("unlock");
    reveal_strlit("y");
    reveal_strlit("approve");
    reveal_strlit("allow");
    reveal_strlit("deny");
    reveal_strlit("cancel");
    reveal_strlit("hide");
    assert(cmd[0] == 'h');
}

/// `:cancel` cancels the selected task's wish for secrets, where it has one.
pub proof fn cancelling_is_for_the_selected_task(v: ColumnView, cmd: Seq<char>)
    requires
        v.list.tab == Tab::Tasks,
        cmd == "cancel"@,
    ensures
        v.list.selected_row() matches Some(r) ==> {
            &&& r.wants_secrets() ==> v.run_command(cmd) == (
                v,
                EffectView::CancelSecrets { ws_idx: r.ws_idx, slug: r.slug@ },
            )
            &&& !r.wants_secrets() ==> v.run_command(cmd).1 is Nothing && v.run_command(cmd).0.list.status_msg is Some
        },
        v.list.selected_row() is None ==> v.run_command(cmd) == (v, EffectView::Nothing),
{
    reveal_strlit("tasks");
    reveal_strlit("repos");
    reveal_strlit("work");
    reveal_strlit("q");
    reveal_strlit("quit");
    reveal_strlit("q!");
    reveal_strlit("quit!");
    reveal_strlit("n");
    reveal_strlit("new");
    reveal_strlit("d");
    reveal_strlit("del");
    reveal_strlit("delete");
    reveal_strlit("rm");
    reveal_strlit("r");
    reveal_strlit("rename");
    reveal_strlit("e");
    reveal_strlit("edit");
    reveal_strlit("edit-repos");
    reveal_strlit("x");
    reveal_strlit("close");
    reveal_strlit("u");
    reveal_strlit("unlock");
    reveal_strlit("y");
    reveal_strlit("approve");
    reveal_strlit("allow");
    reveal_strlit("deny");
    reveal_strlit("cancel");
    assert(cmd[0] == 'c' && cmd.len() == 6);
}

/// Another word is no command: nothing is done, and the column says so.
pub proof fn other_words_are_no_commands(v: ColumnView, cmd: Seq<char>)
    requires
        cmd.len() > 10,
    ensures
        v.run_command(cmd).1 is Nothing,
        v.run_command(cmd).0.list.status_msg is Some,
        v.run_command(cmd).0.list.rows == v.list.rows,
        v.run_command(cmd).0.list.mode == v.list.mode,
        v.run_command(cmd).0.client_request == v.client_request,
{
    reveal_strlit("tasks");
    reveal_strlit("repos");
    reveal_strlit("work");
    reveal_strlit("q");
    reveal_strlit("quit");
    reveal_strlit("q!");
    reveal_strlit("quit!");
    reveal_strlit("n");
    reveal_strlit("new");
    reveal_strlit("d");
    reveal_strlit("del");
    reveal_strlit("delete");
    reveal_strlit("rm");
    reveal_strlit("r");
    reveal_strlit("rename");
    reveal_strlit("e");
    reveal_strlit("edit");
    reveal_strlit("edit-repos");
    reveal_strlit("x");
    reveal_strlit("close");
    reveal_strlit("u");
    reveal_strlit("unlock");
    reveal_strlit("y");
    reveal_strlit("approve");
    reveal_strlit("allow");
    reveal_strlit("deny");
    reveal_strlit("cancel");
    reveal_strlit("hide");
    reveal_strlit("o");
    reveal_strlit("open");
}

} // verus!
