//! Moving in the column: what its keys do to the selection, the focus and the
//! tab.
use vstd::prelude::*;

use crate::column::ColumnView;
use crate::input::{KeyCode, KeyEvent, KeyModifiers};
use crate::list::{EffectView, Focus, InputMode, Tab};

verus! {

/// Whether the column is in its list, in normal mode, with no key waiting for
/// a second one.
pub open spec fn at_rest(v: ColumnView) -> bool {
    &&& v.list.mode is List
    &&& v.list.input_mode == InputMode::Normal
    &&& v.list.pending is None
}

/// In normal mode `j` is the down key and `k` the up key. On a row, down
/// selects the next one and up the one before; up from the first goes into the
/// search field, down from the last stays. Nothing else of the list changes.
pub proof fn letters_move_like_arrows(v: ColumnView, m: KeyModifiers, n: KeyModifiers)
    requires
        at_rest(v),
    ensures
        ({
            let j = v.handle_key(KeyEvent { code: KeyCode::Char('j'), modifiers: m });
            let k = v.handle_key(KeyEvent { code: KeyCode::Char('k'), modifiers: m });
            let down = v.handle_key(KeyEvent { code: KeyCode::Down, modifiers: n });
            let up = v.handle_key(KeyEvent { code: KeyCode::Up, modifiers: n });
            let s = v.list.cur_sel();
            let len = v.list.cur_len();
            &&& j == down
            &&& k == up
            &&& v.list.focus == Focus::List && 0 < len <= usize::MAX && s < len ==> {
                &&& s + 1 < len ==> j.0.list.cur_sel() == s + 1
                &&& s + 1 == len ==> j.0.list.cur_sel() == s
                &&& j.0.list.focus == Focus::List
                &&& s > 0 ==> k.0.list.cur_sel() == s - 1 && k.0.list.focus == Focus::List
                &&& s == 0 ==> k.0.list.focus == Focus::Search && k.0.list.input_mode == InputMode::Insert
                    && k.0.list.cur_sel() == 0
            }
            &&& j.0.list.rows == v.list.rows && k.0.list.rows == v.list.rows
            &&& j.0.list.filtered == v.list.filtered && k.0.list.filtered == v.list.filtered
            &&& j.0.list.filter == v.list.filter && k.0.list.filter == v.list.filter
            &&& j.0.list.tab == v.list.tab && k.0.list.tab == v.list.tab
            &&& j.0.list.mode is List && k.0.list.mode is List
            &&& j.0.client_request == v.client_request && k.0.client_request == v.client_request
        }),
{
}

/// On a row that is not the last, `j` and then `k` come back to it; on one that
/// is not the first, so do `k` and then `j`.
pub proof fn letters_undo_each_other(v: ColumnView, m: KeyModifiers, n: KeyModifiers)
    requires
        at_rest(v),
        v.list.focus == Focus::List,
        v.list.cur_sel() < v.list.cur_len() <= usize::MAX,
    ensures
        ({
            let j = KeyEvent { code: KeyCode::Char('j'), modifiers: m };
            let k = KeyEvent { code: KeyCode::Char('k'), modifiers: n };
            &&& v.list.cur_sel() + 1 < v.list.cur_len() ==> {
                &&& v.handle_key(j).0.handle_key(k).0.list.cur_sel() == v.list.cur_sel()
                &&& v.handle_key(j).0.handle_key(k).0.list.focus == Focus::List
                &&& !v.offline ==> v.handle_key(j).0.handle_key(k).0 == v
            }
            &&& v.list.cur_sel() > 0 ==> {
                &&& v.handle_key(k).0.handle_key(j).0.list.cur_sel() == v.list.cur_sel()
                &&& !v.offline ==> v.handle_key(k).0.handle_key(j).0 == v
            }
        }),
{
}

/// Moving onto a task switches to its window: one that is open and not on
/// screen already. Nothing else is wished for by moving.
pub proof fn moving_follows_the_selection(v: ColumnView, key: KeyEvent)
    requires
        at_rest(v),
        !v.offline,
        key.code == KeyCode::Down || key.code == KeyCode::Up || key.code == KeyCode::Char('G'),
    ensures
        ({
            let (w, e) = v.handle_key(key);
            let on = w.list.tab == Tab::Tasks && w.list.focus == Focus::List && w.list.selected < w.list.filtered.len();
            let r = w.list.rows[w.list.filtered[w.list.selected as int] as int];
            &&& on && r.window_id is Some && v.list.current != Some(r.slug@) ==> e == EffectView::Switch(r.slug@)
            &&& !(on && r.window_id is Some && v.list.current != Some(r.slug@)) ==> e is Nothing
            &&& w.list.current == v.list.current
        }),
{
}

/// `G` goes to the last entry, `gg` to the first; `gt` and the tab key go to the
/// next tab, `gT` and back-tab to the one before: Tasks, Repos, Work, and round.
pub proof fn ends_and_tabs_have_their_keys(v: ColumnView, m: KeyModifiers)
    requires
        at_rest(v),
    ensures
        ({
            let bottom = v.handle_key(KeyEvent { code: KeyCode::Char('G'), modifiers: m }).0;
            let g = v.handle_key(KeyEvent { code: KeyCode::Char('g'), modifiers: m }).0;
            let top = g.handle_key(KeyEvent { code: KeyCode::Char('g'), modifiers: m }).0;
            let next = v.handle_key(KeyEvent { code: KeyCode::Tab, modifiers: m }).0;
            let prev = v.handle_key(KeyEvent { code: KeyCode::BackTab, modifiers: m }).0;
            let gt = g.handle_key(KeyEvent { code: KeyCode::Char('t'), modifiers: m }).0;
            let gback = g.handle_key(KeyEvent { code: KeyCode::Char('T'), modifiers: m }).0;
            &&& 0 < v.list.cur_len() <= usize::MAX ==> bottom.list.cur_sel() == v.list.cur_len() - 1
            &&& bottom.list.focus == Focus::List
            &&& g.list.pending == Some('g')
            &&& g.list.cur_sel() == v.list.cur_sel()
            &&& top.list.cur_sel() == 0
            &&& top.list.focus == Focus::List
            &&& top.list.pending is None
            &&& v.list.tab == Tab::Tasks ==> next.list.tab == Tab::Repos && prev.list.tab == Tab::Work
            &&& v.list.tab == Tab::Repos ==> next.list.tab == Tab::Work && prev.list.tab == Tab::Tasks
            &&& v.list.tab == Tab::Work ==> next.list.tab == Tab::Tasks && prev.list.tab == Tab::Repos
            &&& gt.list.tab == next.list.tab
            &&& gback.list.tab == prev.list.tab
            &&& gt.list.pending is None && gback.list.pending is None
            &&& next.list.selected == v.list.selected && prev.list.selected == v.list.selected
        }),
{
}

} // verus!
