//! Mapping a click's cell onto what is drawn there.
use vstd::prelude::*;

use crate::input::Rect;

verus! {

/// Whether the cell lies in the area.
pub open spec fn inside(area: Rect, col: u16, row: u16) -> bool {
    &&& area.x <= col < area.x + area.width
    &&& area.y <= row < area.y + area.height
}

/// Whether a click at terminal (`col`, `row`) lands inside `area`.
#[verifier::allow_in_spec]
pub fn hit(area: Rect, col: u16, row: u16) -> (yes: bool)
    returns
        inside(area, col, row),
{
    col >= area.x && (col as u32) < area.x as u32 + area.width as u32 && row >= area.y && (row as u32) < area.y as u32
        + area.height as u32
}

/// `n` less `k`, not below zero.
pub open spec fn less(n: int, k: int) -> int {
    if n < k {
        0
    } else {
        n - k
    }
}

/// Whether the cell lies in the area inside a border of `border` cells.
pub open spec fn inside_border(area: Rect, border: u16, col: u16, row: u16) -> bool {
    &&& area.x + border <= col < area.x + less(area.width as int, border as int)
    &&& area.y + border <= row < area.y + less(area.height as int, border as int)
}

/// The height an item takes: at least one line.
pub open spec fn height_of(h: u16) -> int {
    if h == 0 {
        1
    } else {
        h as int
    }
}

/// Lines from the top of item `from` to the top of item `to`.
pub open spec fn lines_between(heights: Seq<u16>, from: int, to: int) -> int
    decreases to - from,
{
    if to <= from {
        0
    } else {
        lines_between(heights, from, to - 1) + height_of(heights[to - 1])
    }
}

/// Which list item sits under a click when items have differing heights
/// (`heights`, one per item, in render order): walk the visible rows from
/// the scroll `offset` (in items) until the click's row is reached. `None`
/// outside the item region or past the last item.
pub fn item_at_heights(area: Rect, border: u16, offset: usize, heights: &Vec<u16>, col: u16, row: u16) -> (item:
    Option<usize>)
    ensures
        match item {
            Some(i) => {
                &&& inside_border(area, border, col, row)
                &&& offset <= i < heights@.len()
                &&& lines_between(heights@, offset as int, i as int) <= row - (area.y + border)
                    < lines_between(heights@, offset as int, i + 1)
            },
            None => {
                ||| !inside_border(area, border, col, row)
                ||| lines_between(heights@, offset as int, heights@.len() as int) <= row - (area.y + border)
            },
        },
{
    let x0: u32 = area.x as u32 + border as u32;
    let y0: u32 = area.y as u32 + border as u32;
    let x1: u32 = area.x as u32 + area.width.saturating_sub(border) as u32;
    let y1: u32 = area.y as u32 + area.height.saturating_sub(border) as u32;
    let c: u32 = col as u32;
    let r: u32 = row as u32;
    if c < x0 || c >= x1 || r < y0 || r >= y1 {
        return None;
    }
    let mut y: u32 = y0;
    let mut i: usize = offset;
    while i < heights.len()
        invariant
            offset <= i,
            i <= heights@.len() || i == offset,
            inside_border(area, border, col, row),
            y0 == area.y + border,
            r == row,
            y == y0 + lines_between(heights@, offset as int, i as int),
            y <= r,
        decreases heights@.len() - i,
    {
        let h: u16 = heights[i];
        let next: u32 = y + if h == 0 { 1 } else { h as u32 };
        assert(lines_between(heights@, offset as int, i + 1) == lines_between(heights@, offset as int, i as int)
            + height_of(h));
        if r < next {
            return Some(i);
        }
        y = next;
        i += 1;
    }
    None
}

/// Which item of uniform `height` sits under a click, counted from the scroll
/// `offset`; `None` outside the item region. Whether there is such an item is
/// the caller's to say.
pub fn item_at(area: Rect, border: u16, offset: usize, height: u16, col: u16, row: u16) -> (item: Option<usize>)
    requires
        height > 0,
    ensures
        item == item_at_spec(area, border, offset, height, col, row),
{
    let x0: u32 = area.x as u32 + border as u32;
    let y0: u32 = area.y as u32 + border as u32;
    let x1: u32 = area.x as u32 + area.width.saturating_sub(border) as u32;
    let y1: u32 = area.y as u32 + area.height.saturating_sub(border) as u32;
    let c: u32 = col as u32;
    let r: u32 = row as u32;
    if c < x0 || c >= x1 || r < y0 || r >= y1 {
        return None;
    }
    let lines: u16 = (r - y0) as u16;
    assert(lines / height <= lines) by (nonlinear_arith)
        requires
            height > 0,
    ;
    offset.checked_add((lines / height) as usize)
}

/// The item of uniform `height` under a cell, as long as it can be counted.
pub open spec fn item_at_spec(area: Rect, border: u16, offset: usize, height: u16, col: u16, row: u16) -> Option<usize> {
    if inside_border(area, border, col, row) && offset + (row - (area.y + border)) / (height as int) <= usize::MAX {
        Some((offset + (row - (area.y + border)) / (height as int)) as usize)
    } else {
        None
    }
}

/// Tops of items never go up: a later item starts lower.
pub proof fn lines_between_grows(heights: Seq<u16>, from: int, a: int, b: int)
    requires
        from <= a <= b,
    ensures
        lines_between(heights, from, a) + (b - a) <= lines_between(heights, from, b),
    decreases b - a,
{
    if a < b {
        lines_between_grows(heights, from, a, b - 1);
    }
}

/// Every line of an item maps to that item and to no other: at most one item
/// holds a given line.
pub proof fn one_item_per_line(heights: Seq<u16>, from: int, i: int, j: int, line: int)
    requires
        from <= i,
        from <= j,
        lines_between(heights, from, i) <= line < lines_between(heights, from, i + 1),
        lines_between(heights, from, j) <= line < lines_between(heights, from, j + 1),
    ensures
        i == j,
{
    if i < j {
        lines_between_grows(heights, from, i + 1, j);
    } else if j < i {
        lines_between_grows(heights, from, j + 1, i);
    }
}

/// A cell is in an area from its first column and row up to, and not with, the
/// one behind its last.
pub proof fn areas_end_before_their_edges(area: Rect, col: u16, row: u16)
    ensures
        area.width > 0 && area.height > 0 ==> inside(area, area.x, area.y),
        col < area.x || row < area.y ==> !inside(area, col, row),
        col >= area.x + area.width || row >= area.y + area.height ==> !inside(area, col, row),
        area.x <= col && col < area.x + area.width && area.y <= row && row < area.y + area.height ==> inside(
            area,
            col,
            row,
        ),
        inside_border(area, 1, col, row) ==> inside(area, col, row) && col != area.x && row != area.y && col + 1
            != area.x + area.width && row + 1 != area.y + area.height,
        area.x < col && col + 1 < area.x + area.width && area.y < row && row + 1 < area.y + area.height
            ==> inside_border(area, 1, col, row),
{
}

/// The item under a cell is as many below the first shown as the cell's line is
/// items below the border.
pub proof fn items_are_counted_from_the_border(area: Rect, offset: usize, height: u16, col: u16, row: u16, k: int)
    requires
        height > 0,
        inside_border(area, 1, col, row),
        0 <= k,
        k * height <= row - (area.y + 1) < (k + 1) * height,
        offset + k <= usize::MAX,
    ensures
        item_at_spec(area, 1, offset, height, col, row) == Some((offset + k) as usize),
{
    let line = row - (area.y + 1);
    let h = height as int;
    assert(line / h == k) by (nonlinear_arith)
        requires
            h > 0,
            k * h <= line < (k + 1) * h,
    ;
}

} // verus!
