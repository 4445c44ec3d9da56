//! The flow-layout engine: a layout frame accumulates child sizes along its
//! axis, takes the maximum along the cross axis, and advances a cursor past
//! each child. All arithmetic saturates on the `u32` range.

use vstd::prelude::*;
use crate::geometry::Rect;
use crate::geometry::Vec2;
use crate::geometry::sat_add_u32;

verus! {

/// The axis along which a layout stacks its children.
#[derive(Debug, Copy, Clone, PartialEq, Eq, PartialOrd, Ord, Hash, Structural)]
pub enum LayoutDirection {
    Vertical,
    Horizontal,
}

/// The larger of two integers.
pub open spec fn max_int(a: int, b: int) -> int {
    if a >= b {
        a
    } else {
        b
    }
}

/// One flow-layout region: its axis, the spacing between consecutive
/// children, the cursor where the next child goes, and the size accumulated
/// so far.
#[derive(Debug, Copy, Clone)]
pub struct Layout {
    pub direction: LayoutDirection,
    pub spacing: u32,
    pub top_left: Vec2,
    pub size: Vec2,
}

/// The layout after one child of the given size has contributed to it:
/// along the axis the size grows by the child (plus spacing when the child
/// is not the first), the cross size takes the maximum, and the cursor
/// advances past the child plus spacing.
pub open spec fn layout_recompute(l: Layout, child: Vec2) -> Layout {
    match l.direction {
        LayoutDirection::Vertical => {
            let stacked = if l.size.y != 0 {
                sat_add_u32(l.size.y as int, l.spacing as int)
            } else {
                l.size.y as int
            };
            Layout {
                direction: l.direction,
                spacing: l.spacing,
                size: Vec2 {
                    x: max_int(l.size.x as int, child.x as int) as u32,
                    y: sat_add_u32(stacked, child.y as int) as u32,
                },
                top_left: Vec2 {
                    x: l.top_left.x,
                    y: sat_add_u32(
                        l.top_left.y as int,
                        sat_add_u32(child.y as int, l.spacing as int),
                    ) as u32,
                },
            }
        },
        LayoutDirection::Horizontal => {
            let stacked = if l.size.x != 0 {
                sat_add_u32(l.size.x as int, l.spacing as int)
            } else {
                l.size.x as int
            };
            Layout {
                direction: l.direction,
                spacing: l.spacing,
                size: Vec2 {
                    x: sat_add_u32(stacked, child.x as int) as u32,
                    y: max_int(l.size.y as int, child.y as int) as u32,
                },
                top_left: Vec2 {
                    x: sat_add_u32(
                        l.top_left.x as int,
                        sat_add_u32(child.x as int, l.spacing as int),
                    ) as u32,
                    y: l.top_left.y,
                },
            }
        },
    }
}

impl Layout {
    pub fn new(direction: LayoutDirection, spacing: u32, top_left: Vec2, size: Vec2) -> (l: Self)
        ensures
            l.direction == direction,
            l.spacing == spacing,
            l.top_left == top_left,
            l.size == size,
    {
        Layout { direction, spacing, top_left, size }
    }

    /// Folds one child of the given size into this layout frame.
    pub fn recompute(&mut self, size: Vec2)
        ensures
            *final(self) == layout_recompute(*old(self), size),
    {
        match self.direction {
            LayoutDirection::Vertical => {
                if self.size.y != 0 {
                    self.size.y = self.size.y.saturating_add(self.spacing);
                }
                self.size.y = self.size.y.saturating_add(size.y);
                if self.size.x < size.x {
                    self.size.x = size.x;
                }
                self.top_left.y = self.top_left.y.saturating_add(size.y.saturating_add(self.spacing));
            },
            LayoutDirection::Horizontal => {
                if self.size.x != 0 {
                    self.size.x = self.size.x.saturating_add(self.spacing);
                }
                self.size.x = self.size.x.saturating_add(size.x);
                if self.size.y < size.y {
                    self.size.y = size.y;
                }
                self.top_left.x = self.top_left.x.saturating_add(size.x.saturating_add(self.spacing));
            },
        }
    }
}

impl From<Layout> for Rect {
    /// The rectangle a layout frame currently covers.
    fn from(value: Layout) -> (r: Self) {
        Rect { size: value.size, top_left: value.top_left }
    }
}

impl vstd::std_specs::convert::FromSpecImpl<Layout> for Rect {
    open spec fn obeys_from_spec() -> bool {
        true
    }

    open spec fn from_spec(value: Layout) -> Rect {
        Rect { top_left: value.top_left, size: value.size }
    }
}

/// The layout after a whole sequence of children has contributed in order.
pub open spec fn layout_fold(l: Layout, children: Seq<Vec2>) -> Layout
    decreases children.len(),
{
    if children.len() == 0 {
        l
    } else {
        layout_fold(layout_recompute(l, children[0]), children.drop_first())
    }
}

/// The sum of the heights of a sequence of sizes.
pub open spec fn sum_y(children: Seq<Vec2>) -> int
    decreases children.len(),
{
    if children.len() == 0 {
        0
    } else {
        children[0].y + sum_y(children.drop_first())
    }
}

/// The largest width among a sequence of sizes, zero when empty.
pub open spec fn max_x(children: Seq<Vec2>) -> int
    decreases children.len(),
{
    if children.len() == 0 {
        0
    } else {
        max_int(children[0].x as int, max_x(children.drop_first()))
    }
}

/// The sum of the widths of a sequence of sizes.
pub open spec fn sum_x(children: Seq<Vec2>) -> int
    decreases children.len(),
{
    if children.len() == 0 {
        0
    } else {
        children[0].x + sum_x(children.drop_first())
    }
}

/// The largest height among a sequence of sizes, zero when empty.
pub open spec fn max_y(children: Seq<Vec2>) -> int
    decreases children.len(),
{
    if children.len() == 0 {
        0
    } else {
        max_int(children[0].y as int, max_y(children.drop_first()))
    }
}

/// Folding children into a vertical layout, for any starting frame whose
/// totals stay in range: the cursor advances by the summed heights plus one
/// spacing per child, the cross size takes the running maximum, and the
/// axis size grows by the summed heights plus spacing between consecutive
/// children (every child is preceded by spacing when the frame already held
/// content).
pub proof fn lemma_layout_fold_vertical(l: Layout, children: Seq<Vec2>)
    requires
        l.direction == LayoutDirection::Vertical,
        forall|i: int| 0 <= i < children.len() ==> (#[trigger] children[i]).y > 0,
        l.size.y + sum_y(children) + children.len() * l.spacing <= u32::MAX,
        l.top_left.y + sum_y(children) + children.len() * l.spacing <= u32::MAX,
    ensures
        ({
            let r = layout_fold(l, children);
            &&& r.direction == l.direction
            &&& r.spacing == l.spacing
            &&& r.top_left.x == l.top_left.x
            &&& r.top_left.y == l.top_left.y + sum_y(children) + children.len() * l.spacing
            &&& r.size.x == max_int(l.size.x as int, max_x(children))
            &&& r.size.y == (if children.len() == 0 {
                l.size.y as int
            } else if l.size.y == 0 {
                sum_y(children) + (children.len() - 1) * l.spacing
            } else {
                l.size.y + sum_y(children) + children.len() * l.spacing
            })
        }),
    decreases children.len(),
{
    if children.len() > 0 {
        let c0 = children[0];
        let rest = children.drop_first();
        let l1 = layout_recompute(l, c0);
        assert(sum_y(children) == c0.y + sum_y(rest));
        assert(children.len() * l.spacing == rest.len() * l.spacing + l.spacing) by (nonlinear_arith)
            requires children.len() == rest.len() + 1,
        ;
        lemma_sum_y_nonneg(rest);
        lemma_layout_fold_vertical(l1, rest);
    }
}

/// Summed heights are never negative.
pub proof fn lemma_sum_y_nonneg(children: Seq<Vec2>)
    ensures
        sum_y(children) >= 0,
    decreases children.len(),
{
    if children.len() > 0 {
        lemma_sum_y_nonneg(children.drop_first());
    }
}

/// Summed widths are never negative.
pub proof fn lemma_sum_x_nonneg(children: Seq<Vec2>)
    ensures
        sum_x(children) >= 0,
    decreases children.len(),
{
    if children.len() > 0 {
        lemma_sum_x_nonneg(children.drop_first());
    }
}

/// The horizontal mirror of `lemma_layout_fold_vertical`.
pub proof fn lemma_layout_fold_horizontal(l: Layout, children: Seq<Vec2>)
    requires
        l.direction == LayoutDirection::Horizontal,
        forall|i: int| 0 <= i < children.len() ==> (#[trigger] children[i]).x > 0,
        l.size.x + sum_x(children) + children.len() * l.spacing <= u32::MAX,
        l.top_left.x + sum_x(children) + children.len() * l.spacing <= u32::MAX,
    ensures
        ({
            let r = layout_fold(l, children);
            &&& r.direction == l.direction
            &&& r.spacing == l.spacing
            &&& r.top_left.y == l.top_left.y
            &&& r.top_left.x == l.top_left.x + sum_x(children) + children.len() * l.spacing
            &&& r.size.y == max_int(l.size.y as int, max_y(children))
            &&& r.size.x == (if children.len() == 0 {
                l.size.x as int
            } else if l.size.x == 0 {
                sum_x(children) + (children.len() - 1) * l.spacing
            } else {
                l.size.x + sum_x(children) + children.len() * l.spacing
            })
        }),
    decreases children.len(),
{
    if children.len() > 0 {
        let c0 = children[0];
        let rest = children.drop_first();
        let l1 = layout_recompute(l, c0);
        assert(sum_x(children) == c0.x + sum_x(rest));
        assert(children.len() * l.spacing == rest.len() * l.spacing + l.spacing) by (nonlinear_arith)
            requires children.len() == rest.len() + 1,
        ;
        lemma_sum_x_nonneg(rest);
        lemma_layout_fold_horizontal(l1, rest);
    }
}

} // verus!
