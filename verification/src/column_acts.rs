//! Acting in the column: what its keys and the mouse ask for, and of which task.
use vstd::prelude::*;
use vstd::string::*;

use crate::column::{
    item_under, mouse_step, one_item_under, span_from, ClientRequest, ColumnView,
};
use crate::column_keys::at_rest;
use crate::input::{KeyCode, KeyEvent, KeyModifiers, MouseButton, MouseEvent, MouseEventKind};
use crate::list::{filtered_in_range, EffectView, Focus, InputMode, ModeView, Row, Tab};
use crate::mouse::inside;
use crate::status::TaskStatus;

verus! {

/// On a selected task: Enter, `o` and `l` open it, `x` closes its window, `y`
/// approves and `N` denies what it asks, and each wish is about that task.
pub proof fn letters_act_on_the_selected_task(v: ColumnView, r: Row, m: KeyModifiers)
    requires
        at_rest(v),
        v.list.tab == Tab::Tasks,
        v.list.selected_row() == Some(r),
        !v.offline,
    ensures
        ({
            let o = v.handle_key(KeyEvent { code: KeyCode::Char('o'), modifiers: m });
            let l = v.handle_key(KeyEvent { code: KeyCode::Char('l'), modifiers: m });
            let enter = v.handle_key(KeyEvent { code: KeyCode::Enter, modifiers: m });
            let x = v.handle_key(KeyEvent { code: KeyCode::Char('x'), modifiers: m });
            let y = v.handle_key(KeyEvent { code: KeyCode::Char('y'), modifiers: m });
            let no = v.handle_key(KeyEvent { code: KeyCode::Char('N'), modifiers: m });
            &&& o == (v, EffectView::Open { ws_idx: r.ws_idx, slug: r.slug@ })
            &&& l == o
            &&& enter == o
            &&& x == (v, EffectView::CloseWindow { slug: r.slug@, path: r.path@, tab_id: r.tab_id })
            &&& y == (v, EffectView::Answer { yes: true, title: r.title@, path: r.path@ })
            &&& no == (v, EffectView::Answer { yes: false, title: r.title@, path: r.path@ })
        }),
{
}

/// On a selected task: `r` asks for a new title, starting from the old one,
/// `dd` asks before deleting, `n` asks for a new task in the same workspace, `u`
/// asks for its secrets where some are wanted. Nothing is done yet.
pub proof fn letters_open_forms(v: ColumnView, r: Row, m: KeyModifiers)
    requires
        at_rest(v),
        v.list.tab == Tab::Tasks,
        v.list.selected_row() == Some(r),
    ensures
        ({
            let rename = v.handle_key(KeyEvent { code: KeyCode::Char('r'), modifiers: m });
            let d = v.handle_key(KeyEvent { code: KeyCode::Char('d'), modifiers: m });
            let dd = d.0.handle_key(KeyEvent { code: KeyCode::Char('d'), modifiers: m });
            let n = v.handle_key(KeyEvent { code: KeyCode::Char('n'), modifiers: m });
            let u = v.handle_key(KeyEvent { code: KeyCode::Char('u'), modifiers: m });
            let e = v.handle_key(KeyEvent { code: KeyCode::Char('e'), modifiers: m });
            &&& rename.0.list.mode matches ModeView::Rename(f) && f.ws_idx == r.ws_idx && f.slug == r.slug@ && f.path
                == r.path@ && f.buffer == r.title@
            &&& d.0.list.mode is List && d.1 is Nothing
            &&& dd.0.list.mode matches ModeView::Confirm(f) && f.ws_idx == r.ws_idx && f.slug == r.slug@ && f.title
                == r.title@ && f.tab_id == r.tab_id
            &&& n.0.list.mode matches ModeView::Create(f) && f.ws_idx == r.ws_idx && f.name.len() == 0 && f.focus == 0
            &&& r.wants_secrets() ==> u.0.list.pending_unlock == Some((r.ws_idx, r.slug@))
            &&& !r.wants_secrets() ==> u.0.list.pending_unlock == v.list.pending_unlock
            &&& e.0.list.mode is EditRepos || e.0.list.mode is List
            &&& e.0.list.mode matches ModeView::EditRepos(f) ==> f.ws_idx == r.ws_idx && f.slug == r.slug@ && f.title
                == r.title@
            &&& rename.1 is Nothing && dd.1 is Nothing && n.1 is Nothing && u.1 is Nothing && e.1 is Nothing
            &&& rename.0.list.rows == v.list.rows && dd.0.list.rows == v.list.rows
        }),
{
}

/// What acts on a task does nothing on another tab but say so.
pub proof fn other_tabs_do_not_act_on_tasks(v: ColumnView, c: char, m: KeyModifiers)
    requires
        at_rest(v),
        v.list.tab != Tab::Tasks,
        c == 'r' || c == 'e' || c == 'x' || c == 'y' || c == 'N' || c == 'u',
    ensures
        ({
            let (w, e) = v.handle_key(KeyEvent { code: KeyCode::Char(c), modifiers: m });
            let o = v.handle_key(KeyEvent { code: KeyCode::Char('o'), modifiers: m });
            let n = v.handle_key(KeyEvent { code: KeyCode::Char('n'), modifiers: m });
            let enter = v.handle_key(KeyEvent { code: KeyCode::Enter, modifiers: m });
            &&& e is Nothing
            &&& w.list.mode is List
            &&& w.list.status_msg is Some
            &&& w.list.rows == v.list.rows
            &&& w.list.pending_unlock == v.list.pending_unlock
            &&& o == (v, EffectView::Nothing)
            &&& enter == (v, EffectView::Nothing)
            &&& n == (v, EffectView::Nothing)
        }),
{
}

/// `q`, escape and Ctrl+c hand the keys to the task on screen and change
/// nothing else; `i` and `/` go to the search field; `:` starts a command.
pub proof fn leaving_and_searching(v: ColumnView, m: KeyModifiers)
    requires
        at_rest(v),
    ensures
        ({
            let q = v.handle_key(KeyEvent { code: KeyCode::Char('q'), modifiers: m });
            let esc = v.handle_key(KeyEvent { code: KeyCode::Esc, modifiers: m });
            let c = v.handle_key(KeyEvent { code: KeyCode::Char('c'), modifiers: m });
            let i = v.handle_key(KeyEvent { code: KeyCode::Char('i'), modifiers: m });
            let slash = v.handle_key(KeyEvent { code: KeyCode::Char('/'), modifiers: m });
            let colon = v.handle_key(KeyEvent { code: KeyCode::Char(':'), modifiers: m });
            &&& q.0.client_request == Some(ClientRequest::FocusTerminal)
            &&& q.0.list == v.list
            &&& q.1 is Nothing
            &&& esc == q
            &&& m.control ==> c == q
            &&& !m.control ==> c == (v, EffectView::Nothing)
            &&& i.0.list.focus == Focus::Search && i.0.list.input_mode == InputMode::Insert
            &&& i.0.list.filter == v.list.filter && i.0.list.selected == v.list.selected
            &&& slash == i
            &&& colon.0.list.mode == ModeView::Command(Seq::empty())
            &&& colon.1 is Nothing && i.1 is Nothing
        }),
{
}

/// On the Repos tab `a` asks for a repo to add to the selected repo's workspace.
pub proof fn adding_is_for_the_selected_workspace(v: ColumnView, m: KeyModifiers)
    requires
        at_rest(v),
        v.list.tab == Tab::Repos,
        v.list.repo_selected < v.list.repo_filtered.len(),
    ensures
        ({
            let (w, e) = v.handle_key(KeyEvent { code: KeyCode::Char('a'), modifiers: m });
            let ws = v.list.repo_rows[v.list.repo_filtered[v.list.repo_selected as int] as int].ws_idx;
            &&& w.list.mode matches ModeView::AddRepo(f) && f.ws_idx == ws && f.url.len() == 0 && f.name.len() == 0
                && f.focus == 0
            &&& e is Nothing
        }),
{
}

/// In the search field characters are added to the filter's end and backspace
/// takes the last; escape goes to the list, Enter opens the first match; Ctrl+j
/// and Ctrl+k are the down and up keys.
pub proof fn the_search_field_edits_the_filter(v: ColumnView, c: char, m: KeyModifiers)
    requires
        v.list.mode is List,
        v.list.input_mode == InputMode::Insert,
    ensures
        ({
            let key = v.handle_key(KeyEvent { code: KeyCode::Char(c), modifiers: m });
            let back = v.handle_key(KeyEvent { code: KeyCode::Backspace, modifiers: m });
            let esc = v.handle_key(KeyEvent { code: KeyCode::Esc, modifiers: m });
            let down = v.handle_key(KeyEvent { code: KeyCode::Down, modifiers: m });
            let up = v.handle_key(KeyEvent { code: KeyCode::Up, modifiers: m });
            let enter = v.handle_key(KeyEvent { code: KeyCode::Enter, modifiers: m });
            let f = v.list.filter;
            &&& !m.control && c != ':' ==> key.0.list.filter == f + seq![c] && key.1 is Nothing
            &&& !m.control && c == ':' ==> key.0.list.mode == ModeView::Command(Seq::empty()) && key.0.list.filter == f
            &&& f.len() > 0 ==> back.0.list.filter == f.take(f.len() - 1)
            &&& f.len() == 0 ==> back.0.list.filter == f
            &&& back.0.list.rows == v.list.rows && key.0.list.rows == v.list.rows
            &&& esc.0.list.focus == Focus::List && esc.0.list.input_mode == InputMode::Normal
            &&& esc.0.list.filter == f && esc.0.client_request == v.client_request
            &&& m.control && c == 'j' ==> key == down
            &&& m.control && c == 'k' ==> key == up
            &&& m.control && c == 'c' ==> key.0.client_request == Some(ClientRequest::FocusTerminal) && key.0.list
                == v.list
            &&& !v.offline && v.list.tab == Tab::Tasks && v.list.focus == Focus::Search && v.list.filtered.len() > 0
                ==> enter.1 == (EffectView::Open {
                ws_idx: v.list.rows[v.list.filtered[0] as int].ws_idx,
                slug: v.list.rows[v.list.filtered[0] as int].slug@,
            })
        }),
{
    assert(v.list.filter.push(c) =~= v.list.filter + seq![c]);
    if v.list.filter.len() > 0 {
        assert(v.list.filter.drop_last() =~= v.list.filter.take(v.list.filter.len() - 1));
    }
}

/// Opening a task puts it on screen, empties the filter and hands it the keys.
pub proof fn opening_shows_the_task(v: ColumnView, ws_idx: usize, slug: Seq<char>)
    ensures
        v.opened(ws_idx, slug).list.current == Some(slug),
        v.opened(ws_idx, slug).list.filter.len() == 0,
        v.opened(ws_idx, slug).client_request == Some(ClientRequest::FocusTerminal),
        v.opened(ws_idx, slug).list.focus == Focus::Search,
        v.opened(ws_idx, slug).list.input_mode == InputMode::Insert,
        v.opened(ws_idx, slug).list.rows == v.list.rows,
        v.opened(ws_idx, slug).list.status_msg is None,
{
}

/// A finished job is taken off the list, the others stay in their order; one
/// that runs stays, and the column says so.
pub proof fn finished_jobs_are_dismissed(v: ColumnView, i: int)
    requires
        v.list.work_selected < v.list.jobs.len(),
        0 <= i < v.list.jobs.len(),
    ensures
        ({
            let s = v.list.work_selected;
            let w = v.dismiss_job();
            &&& v.list.jobs[s as int].outcome is Some ==> {
                &&& w.list.jobs.len() == v.list.jobs.len() - 1
                &&& i < s ==> w.list.jobs[i] == v.list.jobs[i]
                &&& i > s ==> w.list.jobs[i - 1] == v.list.jobs[i]
                &&& w.list.jobs.len() > 0 ==> w.list.work_selected < w.list.jobs.len()
            }
            &&& v.list.jobs[s as int].outcome is None ==> w.list.jobs == v.list.jobs && w.list.status_msg is Some
        }),
{
}

/// The wheel moves the list by one entry, never above the first nor below the
/// last, and leaves the selection.
pub proof fn the_wheel_scrolls_by_one(v: ColumnView)
    requires
        v.list.offset < v.list.item_heights.len() <= usize::MAX,
    ensures
        v.list.offset + 1 < v.list.item_heights.len() ==> v.scrolled(true).list.offset == v.list.offset + 1,
        v.list.offset + 1 == v.list.item_heights.len() ==> v.scrolled(true).list.offset == v.list.offset,
        v.list.offset > 0 ==> v.scrolled(false).list.offset == v.list.offset - 1,
        v.list.offset == 0 ==> v.scrolled(false).list.offset == 0,
        v.scrolled(true).list.selected == v.list.selected,
        v.scrolled(false).list.selected == v.list.selected,
        v.scrolled(true).list.focus == v.list.focus,
{
}

/// The wheel's two ways, and nothing else, scroll; a click in the search field
/// goes there; a click while a form is open does nothing.
pub proof fn the_mouse_does_what_it_points_at(v: ColumnView, m: MouseEvent, w: ColumnView, e: EffectView)
    requires
        mouse_step(v, m, w, e),
    ensures
        !(v.list.mode is List) ==> w == v && e is Nothing,
        v.list.mode is List && m.kind is ScrollDown && v.list.offset + 1 < v.list.item_heights.len() <= usize::MAX
            ==> w.list.offset == v.list.offset + 1 && e is Nothing,
        v.list.mode is List && m.kind is ScrollUp && 0 < v.list.offset < v.list.item_heights.len() ==> w.list.offset
            == v.list.offset - 1 && e is Nothing,
        v.list.mode is List && m.kind == MouseEventKind::Down(MouseButton::Left) && inside(
            v.list.search_area,
            m.column,
            m.row,
        ) && !inside(v.list.tabs_area, m.column, m.row) ==> w.list.focus == Focus::Search && w.list.input_mode
            == InputMode::Insert && e is Nothing,
        e is Nothing || e is Switch || e is ScanRepos,
        w.list.rows == v.list.rows,
        w.list.filter == v.list.filter,
{
}

/// A click on an entry selects the row drawn there.
pub proof fn clicks_select_what_is_drawn(v: ColumnView, m: MouseEvent, w: ColumnView, e: EffectView, i: int)
    requires
        mouse_step(v, m, w, e),
        v.list.mode is List,
        m.kind == MouseEventKind::Down(MouseButton::Left),
        !inside(v.list.tabs_area, m.column, m.row),
        !inside(v.list.search_area, m.column, m.row),
        item_under(v.list, m, i),
        i < v.list.line_to_pos.len(),
        v.list.line_to_pos[i] is Some,
    ensures
        w.list.cur_sel() == v.list.line_to_pos[i]->0,
        w.list.focus == Focus::List,
        w.list.input_mode == InputMode::Normal,
        w.list.tab == v.list.tab,
{
    let k = choose|k: int| #[trigger] item_under(v.list, m, k) && (w, e) == v.clicked(v.list.line_to_pos[k]->0);
    one_item_under(v.list, m, i, k);
}

/// A click on a tab's label goes to that tab: the labels stand for Tasks, Repos
/// and Work, in that order.
pub proof fn tab_labels_lead_to_their_tabs(v: ColumnView, col: u16, i: int)
    requires
        0 <= i < v.tab_spans.len(),
        v.tab_spans.len() == 3,
        v.tab_spans[i].0 <= col - v.list.tabs_area.x < v.tab_spans[i].1,
        forall|k: int|
            0 <= k < i ==> !((#[trigger] v.tab_spans[k]).0 <= col - v.list.tabs_area.x < v.tab_spans[k].1),
    ensures
        i == 0 ==> v.tab_click(col).0.list.tab == Tab::Tasks,
        i == 1 ==> v.tab_click(col).0.list.tab == Tab::Repos,
        i == 2 ==> v.tab_click(col).0.list.tab == Tab::Work,
        v.tab_click(col).0.list.selected == v.list.selected,
{
    reveal_with_fuel(span_from, 4);
}

/// The repos are looked for when their tab is shown with none known yet.
pub proof fn repos_are_scanned_when_first_shown(v: ColumnView, m: KeyModifiers)
    requires
        at_rest(v),
        v.list.tab == Tab::Tasks,
    ensures
        ({
            let (w, e) = v.handle_key(KeyEvent { code: KeyCode::Tab, modifiers: m });
            &&& v.list.repo_rows.len() == 0 ==> e is ScanRepos
            &&& v.list.repo_rows.len() > 0 ==> e is Nothing
        }),
{
}

/// Keys that answer a prompt while offline mark the task as at work and say
/// what was done.
pub proof fn offline_answers_are_noted(v: ColumnView, r: Row, yes: bool)
    requires
        v.list.wf(),
        v.offline,
        v.list.selected_row() == Some(r),
    ensures
        v.answer(yes).1 is Nothing,
        v.answer(yes).0.list.rows.len() == v.list.rows.len(),
        v.answer(yes).0.list.rows[v.list.filtered[v.list.selected as int] as int].status == TaskStatus::Working,
        v.answer(yes).0.list.rows[v.list.filtered[v.list.selected as int] as int].waiting_for is None,
        v.answer(yes).0.list.rows[v.list.filtered[v.list.selected as int] as int].slug == r.slug,
        yes ==> v.answer(yes).0.list.status_msg == Some("approved"@ + " '"@ + r.title@ + "'"@),
        !yes ==> v.answer(yes).0.list.status_msg == Some("denied"@ + " '"@ + r.title@ + "'"@),
{
    filtered_in_range(v.list);
}

} // verus!
