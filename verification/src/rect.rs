use vstd::prelude::*;

verus! {

/// A rectangular region of the character grid, addressed by the column and
/// row of its top-left corner and its extent in columns and rows.
#[derive(Clone, Copy, PartialEq, Eq, Structural, Debug)]
pub struct Rect {
    pub x: u16,
    pub y: u16,
    pub width: u16,
    pub height: u16,
}

impl Rect {
    /// Column one past the right edge, saturating at the largest column.
    pub open spec fn spec_right(self) -> int {
        if self.x + self.width <= u16::MAX {
            self.x + self.width
        } else {
            u16::MAX as int
        }
    }

    /// Row one past the bottom edge, saturating at the largest row.
    pub open spec fn spec_bottom(self) -> int {
        if self.y + self.height <= u16::MAX {
            self.y + self.height
        } else {
            u16::MAX as int
        }
    }

    pub fn right(&self) -> (r: u16)
        ensures
            r == self.spec_right(),
    {
        self.x.saturating_add(self.width)
    }

    pub fn bottom(&self) -> (r: u16)
        ensures
            r == self.spec_bottom(),
    {
        self.y.saturating_add(self.height)
    }

    pub fn area(&self) -> (r: u32)
        ensures
            r == self.width * self.height,
    {
        proof {
            assert((self.width as int) * (self.height as int) <= 0xFFFF * 0xFFFF)
                by (nonlinear_arith)
                requires
                    self.width <= 0xFFFF,
                    self.height <= 0xFFFF,
            ;
        }
        (self.width as u32) * (self.height as u32)
    }
}

impl Default for Rect {
    /// The empty region at the origin.
    fn default() -> (r: Self)
        ensures
            r == (Rect { x: 0, y: 0, width: 0, height: 0 }),
    {
        Rect { x: 0, y: 0, width: 0, height: 0 }
    }
}

/// The four quadrants produced by splitting a region once horizontally and
/// once vertically.
pub struct Split2D {
    pub top_left: Rect,
    pub top_right: Rect,
    pub bottom_left: Rect,
    pub bottom_right: Rect,
}

/// Splits a region into a top part of at most `split` rows and the rest.
/// The two parts tile the region: same columns, adjacent rows.
pub fn rect_vsplit(rect: Rect, split: u16) -> (r: (Rect, Rect))
    ensures
        r.0.x == rect.x && r.1.x == rect.x,
        r.0.width == rect.width && r.1.width == rect.width,
        r.0.y == rect.y,
        r.0.height == if split <= rect.height { split as int } else { rect.height as int },
        r.1.y == if rect.y + r.0.height <= u16::MAX { rect.y + r.0.height } else { u16::MAX as int },
        r.0.height + r.1.height == rect.height,
{
    let split = if split < rect.height { split } else { rect.height };
    (
        Rect { height: split, ..rect },
        Rect {
            y: rect.y.saturating_add(split),
            height: rect.height - split,
            ..rect
        },
    )
}

/// Splits a region into a left part of at most `split` columns and the rest.
/// The two parts tile the region: same rows, adjacent columns.
pub fn rect_hsplit(rect: Rect, split: u16) -> (r: (Rect, Rect))
    ensures
        r.0.y == rect.y && r.1.y == rect.y,
        r.0.height == rect.height && r.1.height == rect.height,
        r.0.x == rect.x,
        r.0.width == if split <= rect.width { split as int } else { rect.width as int },
        r.1.x == if rect.x + r.0.width <= u16::MAX { rect.x + r.0.width } else { u16::MAX as int },
        r.0.width + r.1.width == rect.width,
{
    let split = if split < rect.width { split } else { rect.width };
    (
        Rect { width: split, ..rect },
        Rect {
            x: rect.x.saturating_add(split),
            width: rect.width - split,
            ..rect
        },
    )
}

/// Shrinks a region by `margin` rows at the top and at the bottom.
pub fn rect_vmargin(rect: Rect, margin: u16) -> (r: Rect)
    ensures
        r.x == rect.x && r.width == rect.width,
        r.y == if rect.y + margin <= u16::MAX { rect.y + margin } else { u16::MAX as int },
        r.height == if rect.height >= 2 * margin { rect.height - 2 * margin } else { 0 },
{
    let kept = if (rect.height as u32) > (margin as u32) * 2 {
        (rect.height as u32 - (margin as u32) * 2) as u16
    } else {
        0
    };
    Rect { y: rect.y.saturating_add(margin), height: kept, ..rect }
}

/// Shrinks a region by `margin` columns on the left and on the right.
pub fn rect_hmargin(rect: Rect, margin: u16) -> (r: Rect)
    ensures
        r.y == rect.y && r.height == rect.height,
        r.x == if rect.x + margin <= u16::MAX { rect.x + margin } else { u16::MAX as int },
        r.width == if rect.width >= 2 * margin { rect.width - 2 * margin } else { 0 },
{
    let kept = if (rect.width as u32) > (margin as u32) * 2 {
        (rect.width as u32 - (margin as u32) * 2) as u16
    } else {
        0
    };
    Rect { x: rect.x.saturating_add(margin), width: kept, ..rect }
}

/// The region shrunk by `hm` columns on each side and `vm` rows at each end,
/// saturating: margins larger than the region leave an empty region.
pub open spec fn spec_inner(rect: Rect, hm: int, vm: int) -> Rect {
    Rect {
        x: (if rect.x + hm <= u16::MAX {
            rect.x + hm
        } else {
            u16::MAX as int
        }) as u16,
        y: (if rect.y + vm <= u16::MAX {
            rect.y + vm
        } else {
            u16::MAX as int
        }) as u16,
        width: (if rect.width >= 2 * hm {
            rect.width - 2 * hm
        } else {
            0
        }) as u16,
        height: (if rect.height >= 2 * vm {
            rect.height - 2 * vm
        } else {
            0
        }) as u16,
    }
}

/// Shrinks a region by a horizontal and a vertical margin on every side.
pub fn rect_inner(rect: Rect, hm: u16, vm: u16) -> (r: Rect)
    ensures
        r == spec_inner(rect, hm as int, vm as int),
{
    rect_hmargin(rect_vmargin(rect, vm), hm)
}

/// Whether the cell at `(x, y)` lies inside the region, edges exclusive on
/// the right and at the bottom.
pub fn rect_contain(rect: Rect, x: u16, y: u16) -> (r: bool)
    ensures
        r == (rect.x <= x && x < rect.spec_right() && rect.y <= y && y < rect.spec_bottom()),
{
    x >= rect.x && x < rect.right() && y >= rect.y && y < rect.bottom()
}

/// Splits a region into four quadrants: `hsplit` columns on the left,
/// `vsplit` rows on top.
pub fn split_2d(rect: Rect, hsplit: u16, vsplit: u16) -> (r: Split2D)
    ensures
        r.top_left.height + r.bottom_left.height == rect.height,
        r.top_left.width + r.top_right.width == rect.width,
        r.top_left.x == rect.x && r.top_left.y == rect.y,
        r.top_left.height == if vsplit <= rect.height { vsplit as int } else { rect.height as int },
        r.top_left.width == if hsplit <= rect.width { hsplit as int } else { rect.width as int },
        r.bottom_left.x == rect.x && r.top_right.y == rect.y,
        r.bottom_right.x == r.top_right.x && r.bottom_right.y == r.bottom_left.y,
        r.bottom_right.width == r.top_right.width && r.bottom_right.height == r.bottom_left.height,
        r.top_right.height == r.top_left.height && r.bottom_left.width == r.top_left.width,
{
    let (top, bottom) = rect_vsplit(rect, vsplit);
    let (top_left, top_right) = rect_hsplit(top, hsplit);
    let (bottom_left, bottom_right) = rect_hsplit(bottom, hsplit);
    Split2D { top_left, top_right, bottom_left, bottom_right }
}

/// Whether the cell at `(column, row)` lies inside a non-empty region, edges
/// inclusive on every side.
pub trait Contain {
    fn contain(&self, column: u16, row: u16) -> bool;
}

impl Contain for Rect {
    fn contain(&self, column: u16, row: u16) -> (r: bool)
        ensures
            r == (self.width * self.height > 0 && self.x <= column && column <= self.spec_right()
                && self.y <= row && row <= self.spec_bottom()),
    {
        self.area() > 0 && column >= self.x && column <= self.right() && row >= self.y
            && row <= self.bottom()
    }
}

/// A mapping from screen cells to the labels of the regions drawn there.
pub trait Layout<L> {
    fn locate(&self, x: u16, y: u16) -> Option<L>;
}

/// Which labelled region contains the cell at `(x, y)`, inclusive edges as in
/// `Contain`; the first match in insertion order wins.
pub open spec fn spec_hit(rect: Rect, x: u16, y: u16) -> bool {
    rect.width * rect.height > 0 && rect.x <= x && x <= rect.spec_right() && rect.y <= y
        && y <= rect.spec_bottom()
}

impl<L: Copy> Layout<L> for Vec<(Rect, L)> {
    fn locate(&self, x: u16, y: u16) -> (r: Option<L>)
        ensures
            match r {
                Some(label) => exists|i: int|
                    0 <= i < self@.len() && spec_hit(self@[i].0, x, y) && label == self@[i].1
                        && (forall|j: int| 0 <= j < i ==> !spec_hit(self@[j].0, x, y)),
                None => forall|i: int| 0 <= i < self@.len() ==> !spec_hit(self@[i].0, x, y),
            },
    {
        let mut idx: usize = 0;
        while idx < self.len()
            invariant
                idx <= self@.len(),
                forall|j: int| 0 <= j < idx ==> !spec_hit(self@[j].0, x, y),
            decreases self@.len() - idx,
        {
            let (r, label) = self[idx];
            if r.contain(x, y) {
                return Some(label);
            }
            idx += 1;
        }
        None
    }
}

} // verus!
