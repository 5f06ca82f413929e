//! What the overlay's keys and the mouse do, and of which task.
use vstd::prelude::*;

use crate::input::{KeyCode, KeyEvent, KeyModifiers, MouseButton, MouseEvent, MouseEventKind};
use crate::list::{EffectView, Focus, InputMode, ModeView, Row, Tab};
use crate::mouse::inside;
use crate::overlay::{OverlayView, RouteView};
use crate::zellij::SESSION;

verus! {

/// Whether the overlay is in its list, in normal mode, with no key waiting for
/// a second one.
pub open spec fn at_rest(v: OverlayView) -> bool {
    &&& v.list.mode is List
    &&& v.list.input_mode == InputMode::Normal
    &&& v.list.pending is None
}

/// In normal mode `j` is the down key and `k` the up key; so are the two ways of
/// the wheel. On a row, down selects the next and up the one before; up from
/// the first goes into the search field, and `j` then `k` come back.
pub proof fn letters_move_like_arrows(v: OverlayView, m: KeyModifiers, n: KeyModifiers)
    requires
        at_rest(v),
    ensures
        ({
            let kj = KeyEvent { code: KeyCode::Char('j'), modifiers: m };
            let kk = KeyEvent { code: KeyCode::Char('k'), modifiers: m };
            let j = v.handle_key(kj);
            let k = v.handle_key(kk);
            let s = v.list.cur_sel();
            let len = v.list.cur_len();
            &&& j == v.handle_key(KeyEvent { code: KeyCode::Down, modifiers: n })
            &&& k == v.handle_key(KeyEvent { code: KeyCode::Up, modifiers: n })
            &&& j.1 is Nothing && k.1 is Nothing
            &&& v.list.focus == Focus::List && 0 < len <= usize::MAX && s < len ==> {
                &&& s + 1 < len ==> j.0.list.cur_sel() == s + 1
                &&& s + 1 == len ==> j.0.list.cur_sel() == s
                &&& j.0.list.focus == Focus::List
                &&& s > 0 ==> k.0.list.cur_sel() == s - 1 && k.0.list.focus == Focus::List
                &&& s == 0 ==> k.0.list.focus == Focus::Search && k.0.list.input_mode == InputMode::Insert
                &&& s + 1 < len ==> j.0.handle_key(kk).0 == v
                &&& s > 0 ==> k.0.handle_key(kj).0 == v
            }
            &&& j.0.list.rows == v.list.rows && k.0.list.rows == v.list.rows
            &&& j.0.list.filtered == v.list.filtered && k.0.list.filtered == v.list.filtered
            &&& j.0.list.tab == v.list.tab && k.0.list.tab == v.list.tab
        }),
{
}

/// The wheel moves as the arrow keys do.
pub proof fn the_wheel_moves_like_arrows(v: OverlayView, m: MouseEvent, n: KeyModifiers)
    requires
        at_rest(v),
    ensures
        m.kind is ScrollDown ==> v.handle_mouse(m) == v.handle_key(KeyEvent { code: KeyCode::Down, modifiers: n }),
        m.kind is ScrollUp ==> v.handle_mouse(m) == v.handle_key(KeyEvent { code: KeyCode::Up, modifiers: n }),
{
}

/// `G` goes to the last entry and `gg` to the first; the tab key, `gt` and `gT`
/// go to the other of the two tabs.
pub proof fn ends_and_tabs_have_their_keys(v: OverlayView, m: KeyModifiers)
    requires
        at_rest(v),
        v.list.tab != Tab::Work,
    ensures
        ({
            let bottom = v.handle_key(KeyEvent { code: KeyCode::Char('G'), modifiers: m }).0;
            let g = v.handle_key(KeyEvent { code: KeyCode::Char('g'), modifiers: m }).0;
            let top = g.handle_key(KeyEvent { code: KeyCode::Char('g'), modifiers: m }).0;
            let tab = v.handle_key(KeyEvent { code: KeyCode::Tab, modifiers: m }).0;
            &&& 0 < v.list.cur_len() <= usize::MAX ==> bottom.list.cur_sel() == v.list.cur_len() - 1
            &&& bottom.list.focus == Focus::List
            &&& top.list.cur_sel() == 0
            &&& top.list.focus == Focus::List
            &&& top.list.pending is None
            &&& tab.list.tab != v.list.tab
            &&& tab.list.tab != Tab::Work
            &&& v.handle_key(KeyEvent { code: KeyCode::BackTab, modifiers: m }).0 == tab
            &&& g.handle_key(KeyEvent { code: KeyCode::Char('t'), modifiers: m }).0 == tab
            &&& g.handle_key(KeyEvent { code: KeyCode::Char('T'), modifiers: m }).0 == tab
            &&& tab.list.selected == v.list.selected
        }),
{
}

/// On a selected task: Enter, `o` and `l` open it, `x` closes its window, `y`
/// approves and `N` denies what it asks, and each wish is about that task.
pub proof fn letters_act_on_the_selected_task(v: OverlayView, r: Row, m: KeyModifiers)
    requires
        at_rest(v),
        v.list.tab == Tab::Tasks,
        v.list.selected_row() == Some(r),
    ensures
        ({
            let o = v.handle_key(KeyEvent { code: KeyCode::Char('o'), modifiers: m });
            let x = v.handle_key(KeyEvent { code: KeyCode::Char('x'), modifiers: m });
            let y = v.handle_key(KeyEvent { code: KeyCode::Char('y'), modifiers: m });
            let no = v.handle_key(KeyEvent { code: KeyCode::Char('N'), modifiers: m });
            &&& o == (v, EffectView::Open { ws_idx: r.ws_idx, slug: r.slug@ })
            &&& v.handle_key(KeyEvent { code: KeyCode::Char('l'), modifiers: m }) == o
            &&& v.handle_key(KeyEvent { code: KeyCode::Enter, modifiers: m }) == o
            &&& x == (v, EffectView::CloseWindow { slug: r.slug@, path: r.path@, tab_id: r.tab_id })
            &&& y == (v, EffectView::Answer { yes: true, title: r.title@, path: r.path@ })
            &&& no == (v, EffectView::Answer { yes: false, title: r.title@, path: r.path@ })
        }),
{
}

/// On a selected task: `r` asks for a new title, `dd` asks before deleting, `a`
/// asks for a new task in the same workspace, `u` for its secrets where some
/// are wanted. Nothing is done yet.
pub proof fn letters_open_forms(v: OverlayView, r: Row, m: KeyModifiers)
    requires
        at_rest(v),
        v.list.tab == Tab::Tasks,
        v.list.selected_row() == Some(r),
    ensures
        ({
            let rename = v.handle_key(KeyEvent { code: KeyCode::Char('r'), modifiers: m });
            let d = v.handle_key(KeyEvent { code: KeyCode::Char('d'), modifiers: m });
            let dd = d.0.handle_key(KeyEvent { code: KeyCode::Char('d'), modifiers: m });
            let a = v.handle_key(KeyEvent { code: KeyCode::Char('a'), modifiers: m });
            let u = v.handle_key(KeyEvent { code: KeyCode::Char('u'), modifiers: m });
            let e = v.handle_key(KeyEvent { code: KeyCode::Char('e'), modifiers: m });
            &&& rename.0.list.mode matches ModeView::Rename(f) && f.ws_idx == r.ws_idx && f.slug == r.slug@ && f.path
                == r.path@ && f.buffer == r.title@
            &&& d.0.list.mode is List && d.1 is Nothing
            &&& dd.0.list.mode matches ModeView::Confirm(f) && f.ws_idx == r.ws_idx && f.slug == r.slug@ && f.title
                == r.title@ && f.tab_id == r.tab_id
            &&& a.0.list.mode matches ModeView::Create(f) && f.ws_idx == r.ws_idx && f.name.len() == 0 && f.focus == 0
            &&& r.wants_secrets() ==> u.0.list.pending_unlock == Some((r.ws_idx, r.slug@))
            &&& !r.wants_secrets() ==> u.0.list.pending_unlock == v.list.pending_unlock
            &&& e.0.list.mode is EditRepos || e.0.list.mode is List
            &&& e.0.list.mode matches ModeView::EditRepos(f) ==> f.ws_idx == r.ws_idx && f.slug == r.slug@
            &&& rename.1 is Nothing && dd.1 is Nothing && a.1 is Nothing && u.1 is Nothing && e.1 is Nothing
        }),
{
}

/// What acts on a task does nothing on the other tab but say so; there `a` asks
/// for a repo to add to the selected repo's workspace.
pub proof fn the_repos_tab_is_about_repos(v: OverlayView, c: char, m: KeyModifiers)
    requires
        at_rest(v),
        v.list.tab == Tab::Repos,
        c == 'r' || c == 'e' || c == 'x' || c == 'y' || c == 'N' || c == 'u',
    ensures
        ({
            let (w, e) = v.handle_key(KeyEvent { code: KeyCode::Char(c), modifiers: m });
            let a = v.handle_key(KeyEvent { code: KeyCode::Char('a'), modifiers: m });
            &&& e is Nothing
            &&& w.list.mode is List
            &&& w.list.status_msg is Some
            &&& w.list.rows == v.list.rows
            &&& v.handle_key(KeyEvent { code: KeyCode::Char('o'), modifiers: m }) == (v, EffectView::Nothing)
            &&& v.handle_key(KeyEvent { code: KeyCode::Enter, modifiers: m }) == (v, EffectView::Nothing)
            &&& v.list.repo_selected < v.list.repo_filtered.len() ==> (a.0.list.mode matches ModeView::AddRepo(f)
                && f.ws_idx == v.list.repo_rows[v.list.repo_filtered[v.list.repo_selected as int] as int].ws_idx)
        }),
{
}

/// `q`, escape and Ctrl+c close a floating overlay and leave the home one open
/// with a hint; `i` and `/` go to the search field; `:` starts a command.
pub proof fn leaving_and_searching(v: OverlayView, m: KeyModifiers)
    requires
        at_rest(v),
    ensures
        ({
            let q = v.handle_key(KeyEvent { code: KeyCode::Char('q'), modifiers: m });
            let i = v.handle_key(KeyEvent { code: KeyCode::Char('i'), modifiers: m });
            let colon = v.handle_key(KeyEvent { code: KeyCode::Char(':'), modifiers: m });
            &&& !v.home ==> q == (v, EffectView::Close)
            &&& v.home ==> q.1 is Nothing && q.0.list.status_msg is Some && q.0.list.rows == v.list.rows
            &&& v.handle_key(KeyEvent { code: KeyCode::Esc, modifiers: m }) == q
            &&& m.control ==> v.handle_key(KeyEvent { code: KeyCode::Char('c'), modifiers: m }) == q
            &&& i.0.list.focus == Focus::Search && i.0.list.input_mode == InputMode::Insert
            &&& i.0.list.filter == v.list.filter
            &&& v.handle_key(KeyEvent { code: KeyCode::Char('/'), modifiers: m }) == i
            &&& colon.0.list.mode == ModeView::Command(Seq::empty())
        }),
{
}

/// In the search field characters are added to the filter's end and backspace
/// takes the last; escape goes to the list, Enter opens the first match; Ctrl+j
/// and Ctrl+k are the down and up keys.
pub proof fn the_search_field_edits_the_filter(v: OverlayView, c: char, m: KeyModifiers)
    requires
        v.list.mode is List,
        v.list.input_mode == InputMode::Insert,
    ensures
        ({
            let key = v.handle_key(KeyEvent { code: KeyCode::Char(c), modifiers: m });
            let back = v.handle_key(KeyEvent { code: KeyCode::Backspace, modifiers: m });
            let esc = v.handle_key(KeyEvent { code: KeyCode::Esc, modifiers: m });
            let enter = v.handle_key(KeyEvent { code: KeyCode::Enter, modifiers: m });
            let f = v.list.filter;
            &&& !m.control && c != ':' ==> key.0.list.filter == f + seq![c] && key.1 is Nothing
            &&& !m.control && c == ':' ==> key.0.list.mode == ModeView::Command(Seq::empty())
            &&& f.len() > 0 ==> back.0.list.filter == f.take(f.len() - 1)
            &&& back.0.list.rows == v.list.rows && key.0.list.rows == v.list.rows
            &&& esc.0.list.focus == Focus::List && esc.0.list.input_mode == InputMode::Normal
            &&& esc.0.list.filter == f && esc.1 is Nothing
            &&& m.control && c == 'j' ==> key == v.handle_key(KeyEvent { code: KeyCode::Down, modifiers: m })
            &&& m.control && c == 'k' ==> key == v.handle_key(KeyEvent { code: KeyCode::Up, modifiers: m })
            &&& v.list.tab == Tab::Tasks && v.list.focus == Focus::Search && v.list.filtered.len() > 0 ==> enter.1
                == (EffectView::Open {
                ws_idx: v.list.rows[v.list.filtered[0] as int].ws_idx,
                slug: v.list.rows[v.list.filtered[0] as int].slug@,
            })
        }),
{
    assert(v.list.filter.push(c) =~= v.list.filter + seq![c]);
    if v.list.filter.len() > 0 {
        assert(v.list.filter.drop_last() =~= v.list.filter.take(v.list.filter.len() - 1));
    }
}

/// A jump goes to the selected task: in place from the workspace's own session,
/// over from another one, and by attaching once the overlay is gone.
pub proof fn jumps_go_to_the_selected_task(v: OverlayView, r: Row, session: Option<Seq<char>>)
    requires
        v.list.selected_row() == Some(r),
    ensures
        session == Some(SESSION@) ==> v.jump(session) == (v, RouteView::Here { ws_idx: r.ws_idx, slug: r.slug@ }),
        session is Some && session != Some(SESSION@) ==> v.jump(session) == (
            v,
            RouteView::Over { tab_id: r.tab_id, title: r.title@ },
        ),
        session is None ==> v.jump(session).1 is Leave && v.jump(session).0.attach == Some((r.tab_id, r.title@))
            && v.jump(session).0.list == v.list,
{
}

/// The preview shows the pane of the selected task, while the list is shown.
pub proof fn the_preview_is_of_the_selected_task(v: OverlayView)
    ensures
        v.list.tab != Tab::Tasks ==> v.preview_pane() is None,
        v.list.selected_row() is None ==> v.preview_pane() is None,
        v.list.tab == Tab::Tasks && v.list.mode is List ==> (v.list.selected_row() matches Some(r) ==> {
            &&& r.pane is Some ==> v.preview_pane() == Some(r.pane->0@)
            &&& r.pane is None ==> v.preview_pane() is None
        }),
        v.list.mode is Create || v.list.mode is Rename || v.list.mode is Confirm || v.list.mode is EditRepos
            || v.list.mode is AddRepo ==> v.preview_pane() is None,
{
}

/// After a jump the home overlay is ready for the next search; a floating one
/// closes.
pub proof fn only_floating_overlays_close(v: OverlayView, rows: Seq<Row>)
    ensures
        v.opened(rows).1 == !v.home,
        v.home ==> v.opened(rows).0.list.filter.len() == 0 && v.opened(rows).0.list.selected == 0 && v.opened(
            rows,
        ).0.list.focus == Focus::Search,
        !v.home ==> v.opened(rows).0 == v,
{
}

/// A click on the left half of the tabs goes to Tasks, on the right half to
/// Repos; in the search field, there; on a line with a row, to that row.
pub proof fn clicks_go_where_they_point(v: OverlayView, m: MouseEvent)
    requires
        v.list.mode is List,
        v.list.tab != Tab::Work,
        m.kind == MouseEventKind::Down(MouseButton::Left),
    ensures
        ({
            let (w, e) = v.handle_mouse(m);
            let on_tabs = inside(v.list.tabs_area, m.column, m.row);
            &&& on_tabs && m.column - v.list.tabs_area.x < v.list.tabs_area.width / 2 ==> w.list.tab == Tab::Tasks
            &&& on_tabs && m.column - v.list.tabs_area.x >= v.list.tabs_area.width / 2 ==> w.list.tab == Tab::Repos
            &&& !on_tabs ==> w.list.tab == v.list.tab && e is Nothing
            &&& !on_tabs && inside(v.list.search_area, m.column, m.row) ==> w.list.focus == Focus::Search
            &&& !on_tabs && !inside(v.list.search_area, m.column, m.row) && v.list.list_area.x < m.column
                < v.list.list_area.x + v.list.list_area.width - 1 && v.list.list_area.y < m.row < v.list.list_area.y
                + v.list.list_area.height - 1 ==> {
                let i = v.list.offset + m.row - v.list.list_area.y - 1;
                0 <= i < v.list.line_to_pos.len() <= usize::MAX && v.list.line_to_pos[i] is Some ==> w.list.cur_sel()
                    == v.list.line_to_pos[i]->0 && w.list.focus == Focus::List
            }
            &&& w.list.rows == v.list.rows
        }),
{
}

} // verus!
