//! The fixed three-column layout of the dashboard.
//!
//! The panes never adapt to the drawing area: they keep their nominal size
//! and spacing, and whatever does not fit is cut off by whoever paints them.

use vstd::prelude::*;

verus! {

/// Width of every pane, in terminal columns.
pub const PANE_WIDTH: u16 = 50;

/// Height of every pane, in terminal rows.
pub const PANE_HEIGHT: u16 = 100;

/// Number of empty columns between two neighbouring panes.
pub const PANE_GAP: u16 = 1;

/// A rectangle of terminal cells: its top-left corner and its extent.
#[derive(Clone, Copy, Debug, PartialEq, Eq, Structural)]
pub struct Rect {
    pub x: u16,
    pub y: u16,
    pub width: u16,
    pub height: u16,
}

/// Column at which pane number `index` (counted from the left, starting at
/// zero) begins inside `area`. A column beyond the last one a coordinate can
/// name is pinned to that last column.
pub open spec fn pane_column(area: Rect, index: nat) -> int {
    let column = area.x + index * (PANE_WIDTH + PANE_GAP);
    if column <= u16::MAX {
        column
    } else {
        u16::MAX as int
    }
}

/// Pane number `index` of the layout anchored at the top-left corner of
/// `area`.
pub open spec fn pane_rect(area: Rect, index: nat) -> Rect {
    Rect {
        x: pane_column(area, index) as u16,
        y: area.y,
        width: PANE_WIDTH,
        height: PANE_HEIGHT,
    }
}

/// The branch pane, the commit pane and the commit-detail pane, in this
/// order, for the drawing area `area`.
pub open spec fn pane_layout(area: Rect) -> (Rect, Rect, Rect) {
    (pane_rect(area, 0), pane_rect(area, 1), pane_rect(area, 2))
}

/// Whether all three panes of the layout for `area` begin at a column that a
/// coordinate can name.
pub open spec fn panes_in_range(area: Rect) -> bool {
    area.x + 2 * (PANE_WIDTH + PANE_GAP) <= u16::MAX
}

/// Moves `x` to the right by `columns`, stopping at the last column.
fn shift_column(x: u16, columns: u16) -> (shifted: u16)
    ensures
        shifted == if x + columns <= u16::MAX {
            x + columns
        } else {
            u16::MAX as int
        },
{
    if x <= u16::MAX - columns {
        x + columns
    } else {
        u16::MAX
    }
}

/// Splits the drawing area into the three panes of the dashboard.
///
/// Only the top-left corner of `area` matters. Each pane is `PANE_WIDTH`
/// columns wide and `PANE_HEIGHT` rows high, and the panes follow one another
/// from left to right with `PANE_GAP` columns between them.
pub fn compute_panes(area: Rect) -> (panes: (Rect, Rect, Rect))
    ensures
        panes == pane_layout(area),
        panes.0.width == PANE_WIDTH && panes.1.width == PANE_WIDTH && panes.2.width == PANE_WIDTH,
        panes.0.height == PANE_HEIGHT && panes.1.height == PANE_HEIGHT && panes.2.height
            == PANE_HEIGHT,
        panes.0.x == area.x,
        panes.0.y == area.y && panes.1.y == area.y && panes.2.y == area.y,
        panes_in_range(area) ==> panes.1.x == panes.0.x + panes.0.width + PANE_GAP,
        panes_in_range(area) ==> panes.2.x == panes.1.x + panes.1.width + PANE_GAP,
{
    let stride: u16 = PANE_WIDTH + PANE_GAP;
    let branch_rect = Rect { x: area.x, y: area.y, width: PANE_WIDTH, height: PANE_HEIGHT };
    let commit_rect = Rect {
        x: shift_column(area.x, stride),
        y: area.y,
        width: PANE_WIDTH,
        height: PANE_HEIGHT,
    };
    let info_rect = Rect {
        x: shift_column(area.x, 2 * stride),
        y: area.y,
        width: PANE_WIDTH,
        height: PANE_HEIGHT,
    };
    (branch_rect, commit_rect, info_rect)
}

/// The layout does not depend on how large the drawing area is: two areas
/// with the same top-left corner get the same panes, each of the fixed width
/// and height.
pub proof fn lemma_layout_ignores_size(area: Rect, other: Rect)
    requires
        area.x == other.x,
        area.y == other.y,
    ensures
        pane_layout(area) == pane_layout(other),
        pane_layout(area).0.width == PANE_WIDTH,
        pane_layout(area).1.width == PANE_WIDTH,
        pane_layout(area).2.width == PANE_WIDTH,
        pane_layout(area).0.height == PANE_HEIGHT,
        pane_layout(area).1.height == PANE_HEIGHT,
        pane_layout(area).2.height == PANE_HEIGHT,
{
}

/// As long as every pane begins at a column that a coordinate can name, the
/// panes lie side by side on one row of the screen, the first at the corner
/// of the area, with exactly `PANE_GAP` free columns between the right edge
/// of one pane and the left edge of the next.
pub proof fn lemma_panes_evenly_spaced(area: Rect)
    requires
        panes_in_range(area),
    ensures
        pane_layout(area).0.x == area.x,
        pane_layout(area).1.x == pane_layout(area).0.x + pane_layout(area).0.width + PANE_GAP,
        pane_layout(area).2.x == pane_layout(area).1.x + pane_layout(area).1.width + PANE_GAP,
        pane_layout(area).0.y == area.y,
        pane_layout(area).1.y == area.y,
        pane_layout(area).2.y == area.y,
{
}

} // verus!
