//! Dividing an area of the screen.
use vstd::prelude::*;

use crate::input::Rect;

verus! {

/// What a part of a divided area asks for.
#[derive(Debug, Clone, Copy, PartialEq, Eq, Structural)]
pub enum Constraint {
    /// This many cells.
    Length(u16),
    /// At least this many cells.
    Min(u16),
    /// This share of the whole.
    Percentage(u16),
}

/// Whether `part` lies within `area`.
pub open spec fn within(part: Rect, area: Rect) -> bool {
    &&& area.x <= part.x
    &&& part.x + part.width <= area.x + area.width
    &&& area.y <= part.y
    &&& part.y + part.height <= area.y + area.height
}

/// Cells that the lengths among the first `n` constraints take.
pub open spec fn lengths(cs: Seq<Constraint>, n: int) -> int
    decreases n,
{
    if n <= 0 {
        0
    } else {
        lengths(cs, n - 1) + match cs[n - 1] {
            Constraint::Length(k) => k as int,
            _ => 0,
        }
    }
}

/// Hundredths of the whole that the first `n` constraints ask for.
pub open spec fn shares(cs: Seq<Constraint>, n: int) -> int
    decreases n,
{
    if n <= 0 {
        0
    } else {
        shares(cs, n - 1) + match cs[n - 1] {
            Constraint::Percentage(k) => k as int,
            _ => 0,
        }
    }
}

/// Whether the parts are lengths but for the one at `rest`, and all of them fit
/// in `total` cells.
pub open spec fn stacks(cs: Seq<Constraint>, rest: int, total: u16) -> bool {
    &&& 0 <= rest < cs.len()
    &&& cs[rest] is Min
    &&& forall|i: int| 0 <= i < cs.len() && i != rest ==> #[trigger] cs[i] is Length
    &&& lengths(cs, cs.len() as int) + cs[rest]->Min_0 <= total
}

/// Whether the parts are shares that together are no more than the whole.
pub open spec fn shares_out(cs: Seq<Constraint>) -> bool {
    &&& forall|i: int| 0 <= i < cs.len() ==> #[trigger] cs[i] is Percentage
    &&& shares(cs, cs.len() as int) <= 100
}

/// The edge after so many hundredths of `total` cells: the nearest one.
pub open spec fn edge(total: u16, percent: int) -> int {
    (total * percent + 50) / 100
}

/// Where the part at `i` of `total` cells starts and how many it has: where all
/// fits, lengths have their length and the remaining part has the rest; shares
/// reach to the nearest edge.
pub open spec fn divides(cs: Seq<Constraint>, total: u16, i: int, at: int, size: int) -> bool {
    let left = total - lengths(cs, cs.len() as int);
    &&& forall|rest: int| #[trigger]
        stacks(cs, rest, total) ==> {
            &&& at == lengths(cs, i) + (if i > rest {
                left
            } else {
                0
            })
            &&& size == (if i == rest {
                left
            } else {
                cs[i]->Length_0 as int
            })
        }
    &&& shares_out(cs) ==> {
        &&& at == edge(total, shares(cs, i))
        &&& size == edge(total, shares(cs, i + 1)) - edge(total, shares(cs, i))
    }
}

/// `ratatui`'s `Layout::split`, from top to bottom: one part per constraint,
/// each as wide as the area and within it. A length is held to more firmly than
/// anything that could be gained by breaking it, and a single `Min` grows before
/// the space after the parts does, so lengths that fit leave one solution;
/// shares that fit are all met and rounded. Of constraints that do not fit or
/// are mixed otherwise, how the solver shares the height is not claimed: it
/// walks hash maps.
#[verifier::external_body]
pub(crate) fn split_rows(area: Rect, constraints: &Vec<Constraint>) -> (parts: Vec<Rect>)
    requires
        area.x + area.width <= u16::MAX,
        area.y + area.height <= u16::MAX,
    ensures
        parts@.len() == constraints@.len(),
        forall|i: int|
            0 <= i < parts@.len() ==> within(#[trigger] parts@[i], area) && parts@[i].x == area.x && parts@[i].width
                == area.width && divides(
                constraints@,
                area.height,
                i,
                parts@[i].y - area.y,
                parts@[i].height as int,
            ),
{
    let wanted = constraints.iter().map(|c| match *c {
        Constraint::Length(n) => ratatui::layout::Constraint::Length(n),
        Constraint::Min(n) => ratatui::layout::Constraint::Min(n),
        Constraint::Percentage(n) => ratatui::layout::Constraint::Percentage(n),
    });
    let whole = ratatui::layout::Rect { x: area.x, y: area.y, width: area.width, height: area.height };
    let parts = ratatui::layout::Layout::vertical(wanted).split(whole);
    parts.iter().map(|r| Rect { x: r.x, y: r.y, width: r.width, height: r.height }).collect()
}

/// `ratatui`'s `Layout::split`, from left to right: one part per constraint,
/// each as high as the area and within it, and otherwise as in [`split_rows`].
#[verifier::external_body]
pub(crate) fn split_columns(area: Rect, constraints: &Vec<Constraint>) -> (parts: Vec<Rect>)
    requires
        area.x + area.width <= u16::MAX,
        area.y + area.height <= u16::MAX,
    ensures
        parts@.len() == constraints@.len(),
        forall|i: int|
            0 <= i < parts@.len() ==> within(#[trigger] parts@[i], area) && parts@[i].y == area.y && parts@[i].height
                == area.height && divides(
                constraints@,
                area.width,
                i,
                parts@[i].x - area.x,
                parts@[i].width as int,
            ),
{
    let wanted = constraints.iter().map(|c| match *c {
        Constraint::Length(n) => ratatui::layout::Constraint::Length(n),
        Constraint::Min(n) => ratatui::layout::Constraint::Min(n),
        Constraint::Percentage(n) => ratatui::layout::Constraint::Percentage(n),
    });
    let whole = ratatui::layout::Rect { x: area.x, y: area.y, width: area.width, height: area.height };
    let parts = ratatui::layout::Layout::horizontal(wanted).split(whole);
    parts.iter().map(|r| Rect { x: r.x, y: r.y, width: r.width, height: r.height }).collect()
}

/// The rows of `area` from row `from` on, `n` of them.
pub open spec fn rows_of(area: Rect, from: int, n: int) -> Rect {
    Rect { x: area.x, y: (area.y + from) as u16, width: area.width, height: n as u16 }
}

/// Rows of one cell each but for the one before the last, which takes what is
/// left: where they fit, they are the first rows of the area, and its last.
pub(crate) proof fn single_rows(area: Rect, cs: Seq<Constraint>, parts: Seq<Rect>)
    requires
        cs.len() >= 2,
        cs[cs.len() - 2] == Constraint::Min(0),
        forall|i: int| 0 <= i < cs.len() && i != cs.len() - 2 ==> #[trigger] cs[i] == Constraint::Length(1),
        parts.len() == cs.len(),
        area.y + area.height <= u16::MAX,
        forall|i: int|
            0 <= i < parts.len() ==> (#[trigger] parts[i]).x == area.x && parts[i].width == area.width && area.y
                <= parts[i].y && divides(cs, area.height, i, parts[i].y - area.y, parts[i].height as int),
    ensures
        area.height >= cs.len() - 1 ==> {
            &&& forall|i: int| 0 <= i < cs.len() - 2 ==> #[trigger] parts[i] == rows_of(area, i, 1)
            &&& parts[cs.len() - 1] == rows_of(area, area.height - 1, 1)
        },
{
    let rest = cs.len() - 2;
    if area.height >= cs.len() - 1 {
        single_lengths(cs, cs.len() as int);
        single_lengths(cs, cs.len() - 1);
        assert(stacks(cs, rest, area.height));
        assert forall|i: int| 0 <= i < rest implies #[trigger] parts[i] == rows_of(area, i, 1) by {
            single_lengths(cs, i);
            assert(divides(cs, area.height, i, parts[i].y - area.y, parts[i].height as int));
        }
        let last = cs.len() - 1;
        assert(divides(cs, area.height, last, parts[last].y - area.y, parts[last].height as int));
    }
}

/// Rows of one cell each take one cell each.
proof fn single_lengths(cs: Seq<Constraint>, n: int)
    requires
        cs.len() >= 2,
        cs[cs.len() - 2] == Constraint::Min(0),
        forall|i: int| 0 <= i < cs.len() && i != cs.len() - 2 ==> #[trigger] cs[i] == Constraint::Length(1),
        0 <= n <= cs.len(),
    ensures
        lengths(cs, n) == (if n > cs.len() - 2 {
            n - 1
        } else {
            n
        }),
    decreases n,
{
    if n > 0 {
        single_lengths(cs, n - 1);
        assert(n - 1 != cs.len() - 2 ==> cs[n - 1] == Constraint::Length(1));
    }
}

/// The part of an area inside a border of one cell on each side. The border
/// takes what there is of an area too small for it.
#[verifier::allow_in_spec]
pub fn inside_frame(area: Rect) -> Rect
    returns
        (Rect {
            x: if area.width == 0 || area.x == u16::MAX { area.x } else { (area.x + 1) as u16 },
            y: if area.height == 0 || area.y == u16::MAX { area.y } else { (area.y + 1) as u16 },
            width: if area.width < 2 { 0 } else { (area.width - 2) as u16 },
            height: if area.height < 2 { 0 } else { (area.height - 2) as u16 },
        }),
{
    Rect {
        x: if area.width == 0 || area.x == u16::MAX { area.x } else { area.x + 1 },
        y: if area.height == 0 || area.y == u16::MAX { area.y } else { area.y + 1 },
        width: if area.width < 2 { 0 } else { area.width - 2 },
        height: if area.height < 2 { 0 } else { area.height - 2 },
    }
}

/// What is inside a frame is inside the area.
pub proof fn inside_frame_is_within(area: Rect)
    requires
        area.x + area.width <= u16::MAX,
        area.y + area.height <= u16::MAX,
    ensures
        within(inside_frame(area), area),
{
}

/// The middle of `total` cells: where it starts and how many it has. What is
/// left on either side is rounded down to a whole hundredth.
pub open spec fn middle(total: u16, percent: u16) -> (int, int) {
    let side = (100 - percent) / 2;
    (edge(total, side), edge(total, side + percent) - edge(total, side))
}

/// Whether a rectangle is the middle of an area.
pub open spec fn is_middle(r: Rect, percent_x: u16, percent_y: u16, area: Rect) -> bool {
    &&& within(r, area)
    &&& (r.x - area.x, r.width as int) == middle(area.width, percent_x)
    &&& (r.y - area.y, r.height as int) == middle(area.height, percent_y)
}

/// The middle of `area`: a rectangle of the given shares of its height and
/// width, split off row-wise and then column-wise.
pub fn centered_rect(percent_x: u16, percent_y: u16, area: Rect) -> (r: Rect)
    requires
        percent_x <= 100,
        percent_y <= 100,
        area.x + area.width <= u16::MAX,
        area.y + area.height <= u16::MAX,
    ensures
        is_middle(r, percent_x, percent_y, area),
{
    let side_y: u16 = (100 - percent_y) / 2;
    let side_x: u16 = (100 - percent_x) / 2;
    let down = vec![Constraint::Percentage(side_y), Constraint::Percentage(percent_y), Constraint::Percentage(side_y)];
    let across = vec![
        Constraint::Percentage(side_x),
        Constraint::Percentage(percent_x),
        Constraint::Percentage(side_x),
    ];
    let rows = split_rows(area, &down);
    let columns = split_columns(rows[1], &across);
    proof {
        reveal_with_fuel(shares, 4);
        assert(shares_out(down@));
        assert(shares_out(across@));
        assert(within(rows@[1], area));
        assert(within(columns@[1], rows@[1]));
    }
    columns[1]
}

} // verus!
