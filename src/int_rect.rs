use vstd::prelude::*;

use crate::text::{int_text, push_int, push_separator};

use crate::helper::{in_i32, spec_abs, spec_max, spec_min, trunc_div};
use crate::int2::{int2, Int2};

verus! {

/// An axis-aligned rectangle with integer position and size.
///
/// The width and height may be negative: such a rectangle extends to the
/// left of, or above, its position.
#[derive(Default, Copy, Clone, Debug, PartialEq, Eq, Structural, Hash)]
pub struct IntRect {
    pub x: i32,
    pub y: i32,
    pub w: i32,
    pub h: i32,
}

/// Construct a rectangle.
pub fn irect(x: i32, y: i32, w: i32, h: i32) -> (r: IntRect)
    ensures
        r == (IntRect { x, y, w, h }),
{
    IntRect { x, y, w, h }
}

/// The bounds that the overlap of two rectangles spans on each axis.
pub struct OverlapBounds {
    pub lo_x: int,
    pub lo_y: int,
    pub hi_x: int,
    pub hi_y: int,
}

impl IntRect {
    /// The components as decimal text, separated by a comma and a space:
    /// `x, y, w, h`.
    pub fn to_string(&self) -> (s: String)
        ensures
            s@ == int_text(self.x as int) + seq![',', ' '] + int_text(self.y as int) + seq![',', ' '] + int_text(self.w as int) + seq![',', ' '] + int_text(self.h as int),
    {
        let mut s = String::new();
        push_int(&mut s, self.x);
        push_separator(&mut s);
        push_int(&mut s, self.y);
        push_separator(&mut s);
        push_int(&mut s, self.w);
        push_separator(&mut s);
        push_int(&mut s, self.h);
        s
    }

    /// The right edge `x + w`.
    pub open spec fn spec_right(self) -> int {
        self.x + self.w
    }

    /// The bottom edge `y + h`.
    pub open spec fn spec_bottom(self) -> int {
        self.y + self.h
    }

    /// The smaller of the two horizontal edges.
    pub open spec fn spec_min_x(self) -> int {
        spec_min(self.x as int, self.spec_right())
    }

    /// The larger of the two horizontal edges.
    pub open spec fn spec_max_x(self) -> int {
        spec_max(self.x as int, self.spec_right())
    }

    /// The smaller of the two vertical edges.
    pub open spec fn spec_min_y(self) -> int {
        spec_min(self.y as int, self.spec_bottom())
    }

    /// The larger of the two vertical edges.
    pub open spec fn spec_max_y(self) -> int {
        spec_max(self.y as int, self.spec_bottom())
    }

    /// The horizontal center `x + w / 2`, the half rounded toward zero.
    pub open spec fn spec_center_x(self) -> int {
        self.x + trunc_div(self.w as int, 2)
    }

    /// The vertical center `y + h / 2`, the half rounded toward zero.
    pub open spec fn spec_center_y(self) -> int {
        self.y + trunc_div(self.h as int, 2)
    }

    /// The right and bottom edges can be held in an `i32`.
    pub open spec fn edges_fit(self) -> bool {
        in_i32(self.spec_right()) && in_i32(self.spec_bottom())
    }

    /// The common part of the spans of two rectangles, on each axis.
    pub open spec fn overlap_bounds(self, r: IntRect) -> OverlapBounds {
        OverlapBounds {
            lo_x: spec_max(self.spec_min_x(), r.spec_min_x()),
            lo_y: spec_max(self.spec_min_y(), r.spec_min_y()),
            hi_x: spec_min(self.spec_max_x(), r.spec_max_x()),
            hi_y: spec_min(self.spec_max_y(), r.spec_max_y()),
        }
    }

    /// The rectangle with the same area and a size that is not negative.
    pub open spec fn spec_absolute(self) -> IntRect {
        IntRect {
            x: self.spec_min_x() as i32,
            y: self.spec_min_y() as i32,
            w: spec_abs(self.w as int) as i32,
            h: spec_abs(self.h as int) as i32,
        }
    }

    /// Create a new rectangle.
    pub fn new(x: i32, y: i32, w: i32, h: i32) -> (r: IntRect)
        ensures
            r == (IntRect { x, y, w, h }),
    {
        irect(x, y, w, h)
    }

    /// Create a rectangle centered on the position with the provided size.
    pub fn centered(center: Int2, w: i32, h: i32) -> (r: IntRect)
        requires
            in_i32(center.x - trunc_div(w as int, 2)),
            in_i32(center.y - trunc_div(h as int, 2)),
        ensures
            r.x == center.x - trunc_div(w as int, 2),
            r.y == center.y - trunc_div(h as int, 2),
            r.w == w,
            r.h == h,
    {
        irect(center.x - w / 2, center.y - h / 2, w, h)
    }

    /// Create a rectangle at the origin with a width and height.
    pub fn of_size(w: i32, h: i32) -> (r: IntRect)
        ensures
            r == (IntRect { x: 0, y: 0, w, h }),
    {
        irect(0, 0, w, h)
    }

    /// Return a version of the rectangle that is guaranteed not to have a
    /// negative size: a negative extent is moved into the position.
    pub fn absolute(&self) -> (r: IntRect)
        requires
            self.edges_fit(),
            self.w != i32::MIN,
            self.h != i32::MIN,
        ensures
            r == self.spec_absolute(),
    {
        let mut r = *self;
        if r.w < 0 {
            r.x = r.x + r.w;
            r.w = -r.w;
        }
        if r.h < 0 {
            r.y = r.y + r.h;
            r.h = -r.h;
        }
        r
    }

    /// If the width *or* height of the rectangle is zero.
    pub fn is_empty(&self) -> (b: bool)
        ensures
            b == (self.w == 0 || self.h == 0),
    {
        self.w == 0 || self.h == 0
    }

    /// The left edge, `x`.
    pub fn left(&self) -> (v: i32)
        ensures
            v == self.x,
    {
        self.x
    }

    /// The right edge, `x + w`.
    pub fn right(&self) -> (v: i32)
        requires
            in_i32(self.spec_right()),
        ensures
            v == self.spec_right(),
    {
        self.x + self.w
    }

    /// The top edge, `y`.
    pub fn top(&self) -> (v: i32)
        ensures
            v == self.y,
    {
        self.y
    }

    /// The bottom edge, `y + h`.
    pub fn bottom(&self) -> (v: i32)
        requires
            in_i32(self.spec_bottom()),
        ensures
            v == self.spec_bottom(),
    {
        self.y + self.h
    }

    /// The smaller of the two horizontal edges.
    pub fn min_x(&self) -> (v: i32)
        requires
            in_i32(self.spec_right()),
        ensures
            v == self.spec_min_x(),
    {
        self.x.min(self.right())
    }

    /// The larger of the two horizontal edges.
    pub fn max_x(&self) -> (v: i32)
        requires
            in_i32(self.spec_right()),
        ensures
            v == self.spec_max_x(),
    {
        self.x.max(self.right())
    }

    /// The smaller of the two vertical edges.
    pub fn min_y(&self) -> (v: i32)
        requires
            in_i32(self.spec_bottom()),
        ensures
            v == self.spec_min_y(),
    {
        self.y.min(self.bottom())
    }

    /// The larger of the two vertical edges.
    pub fn max_y(&self) -> (v: i32)
        requires
            in_i32(self.spec_bottom()),
        ensures
            v == self.spec_max_y(),
    {
        self.y.max(self.bottom())
    }

    /// The horizontal center, `x + w / 2`.
    pub fn center_x(&self) -> (v: i32)
        requires
            in_i32(self.spec_center_x()),
        ensures
            v == self.spec_center_x(),
    {
        self.x + self.w / 2
    }

    /// The vertical center, `y + h / 2`.
    pub fn center_y(&self) -> (v: i32)
        requires
            in_i32(self.spec_center_y()),
        ensures
            v == self.spec_center_y(),
    {
        self.y + self.h / 2
    }

    /// The corner at `(left, top)`.
    pub fn top_left(&self) -> (p: Int2)
        ensures
            p == (Int2 { x: self.x, y: self.y }),
    {
        int2(self.left(), self.top())
    }

    /// The corner at `(right, top)`.
    pub fn top_right(&self) -> (p: Int2)
        requires
            in_i32(self.spec_right()),
        ensures
            p.x == self.spec_right(),
            p.y == self.y,
    {
        int2(self.right(), self.top())
    }

    /// The corner at `(right, bottom)`.
    pub fn bottom_right(&self) -> (p: Int2)
        requires
            self.edges_fit(),
        ensures
            p.x == self.spec_right(),
            p.y == self.spec_bottom(),
    {
        int2(self.right(), self.bottom())
    }

    /// The corner at `(left, bottom)`.
    pub fn bottom_left(&self) -> (p: Int2)
        requires
            in_i32(self.spec_bottom()),
        ensures
            p.x == self.x,
            p.y == self.spec_bottom(),
    {
        int2(self.left(), self.bottom())
    }

    /// The size `(w, h)`.
    pub fn size(&self) -> (p: Int2)
        ensures
            p == (Int2 { x: self.w, y: self.h }),
    {
        int2(self.w, self.h)
    }

    /// The corner with the smallest coordinates.
    pub fn min(&self) -> (p: Int2)
        requires
            self.edges_fit(),
        ensures
            p.x == self.spec_min_x(),
            p.y == self.spec_min_y(),
    {
        int2(self.min_x(), self.min_y())
    }

    /// The corner with the largest coordinates.
    pub fn max(&self) -> (p: Int2)
        requires
            self.edges_fit(),
        ensures
            p.x == self.spec_max_x(),
            p.y == self.spec_max_y(),
    {
        int2(self.max_x(), self.max_y())
    }

    /// The center point.
    pub fn center(&self) -> (p: Int2)
        requires
            in_i32(self.spec_center_x()),
            in_i32(self.spec_center_y()),
        ensures
            p.x == self.spec_center_x(),
            p.y == self.spec_center_y(),
    {
        int2(self.center_x(), self.center_y())
    }

    /// The middle of the top edge.
    pub fn top_center(&self) -> (p: Int2)
        requires
            in_i32(self.spec_center_x()),
        ensures
            p.x == self.spec_center_x(),
            p.y == self.y,
    {
        int2(self.center_x(), self.top())
    }

    /// The middle of the bottom edge.
    pub fn bottom_center(&self) -> (p: Int2)
        requires
            in_i32(self.spec_center_x()),
            in_i32(self.spec_bottom()),
        ensures
            p.x == self.spec_center_x(),
            p.y == self.spec_bottom(),
    {
        int2(self.center_x(), self.bottom())
    }

    /// The middle of the left edge.
    pub fn left_center(&self) -> (p: Int2)
        requires
            in_i32(self.spec_center_y()),
        ensures
            p.x == self.x,
            p.y == self.spec_center_y(),
    {
        int2(self.left(), self.center_y())
    }

    /// The middle of the right edge.
    pub fn right_center(&self) -> (p: Int2)
        requires
            in_i32(self.spec_right()),
            in_i32(self.spec_center_y()),
        ensures
            p.x == self.spec_right(),
            p.y == self.spec_center_y(),
    {
        int2(self.right(), self.center_y())
    }

    /// The signed area `w * h`.
    pub fn area(&self) -> (v: i32)
        requires
            in_i32(self.w * self.h),
        ensures
            v == self.w * self.h,
    {
        self.w * self.h
    }

    /// The signed perimeter `2w + 2h`.
    pub fn perimeter(&self) -> (v: i32)
        requires
            in_i32(self.w * 2),
            in_i32(self.h * 2),
            in_i32(self.w * 2 + self.h * 2),
        ensures
            v == self.w * 2 + self.h * 2,
    {
        self.w * 2 + self.h * 2
    }

    /// Whether the point lies in the rectangle: at or after the top-left
    /// corner and before the right and bottom edges.
    pub fn contains(&self, p: Int2) -> (b: bool)
        requires
            self.edges_fit(),
        ensures
            b == (p.x >= self.x && p.y >= self.y && p.x < self.spec_right() && p.y
                < self.spec_bottom()),
    {
        p.x >= self.x && p.y >= self.y && p.x < self.right() && p.y < self.bottom()
    }

    /// Whether `r` lies wholly inside this rectangle.
    pub fn contains_rect(&self, r: &IntRect) -> (b: bool)
        requires
            self.edges_fit(),
            r.edges_fit(),
        ensures
            b == (r.x >= self.x && r.y >= self.y && r.spec_right() <= self.spec_right()
                && r.spec_bottom() <= self.spec_bottom()),
    {
        r.x >= self.x && r.y >= self.y && r.right() <= self.right() && r.bottom() <= self.bottom()
    }

    /// The point moved to the nearest position within the rectangle's span,
    /// edges included.
    pub fn clamp_point(&self, p: Int2) -> (q: Int2)
        requires
            self.edges_fit(),
        ensures
            q.x == spec_min(spec_max(p.x as int, self.spec_min_x()), self.spec_max_x()),
            q.y == spec_min(spec_max(p.y as int, self.spec_min_y()), self.spec_max_y()),
    {
        int2(p.x.max(self.min_x()).min(self.max_x()), p.y.max(self.min_y()).min(self.max_y()))
    }

    /// Whether the two rectangles share any area.
    pub fn overlaps(&self, r: &IntRect) -> (b: bool)
        requires
            self.edges_fit(),
            r.edges_fit(),
        ensures
            b == (self.x < r.spec_right() && self.y < r.spec_bottom() && self.spec_right() > r.x
                && self.spec_bottom() > r.y),
    {
        self.x < r.right() && self.y < r.bottom() && self.right() > r.x && self.bottom() > r.y
    }

    /// The rectangle that both rectangles cover, if it has a positive area.
    pub fn overlap(&self, r: &IntRect) -> (o: Option<IntRect>)
        requires
            self.edges_fit(),
            r.edges_fit(),
            in_i32(self.overlap_bounds(*r).hi_x - self.overlap_bounds(*r).lo_x),
            in_i32(self.overlap_bounds(*r).hi_y - self.overlap_bounds(*r).lo_y),
        ensures
            ({
                let b = self.overlap_bounds(*r);
                o == if b.hi_x > b.lo_x && b.hi_y > b.lo_y {
                    Some(
                        IntRect {
                            x: b.lo_x as i32,
                            y: b.lo_y as i32,
                            w: (b.hi_x - b.lo_x) as i32,
                            h: (b.hi_y - b.lo_y) as i32,
                        },
                    )
                } else {
                    None
                }
            }),
    {
        let min = self.min().max(r.min());
        let max = self.max().min(r.max());
        if max.x > min.x && max.y > min.y {
            Some(irect(min.x, min.y, max.x - min.x, max.y - min.y))
        } else {
            None
        }
    }

    /// The smallest rectangle, of non-negative size, that covers both.
    pub fn conflate(&self, r: &IntRect) -> (c: IntRect)
        requires
            self.edges_fit(),
            r.edges_fit(),
            in_i32(spec_max(self.spec_max_x(), r.spec_max_x()) - spec_min(
                self.spec_min_x(),
                r.spec_min_x(),
            )),
            in_i32(spec_max(self.spec_max_y(), r.spec_max_y()) - spec_min(
                self.spec_min_y(),
                r.spec_min_y(),
            )),
        ensures
            c.x == spec_min(self.spec_min_x(), r.spec_min_x()),
            c.y == spec_min(self.spec_min_y(), r.spec_min_y()),
            c.w == spec_max(self.spec_max_x(), r.spec_max_x()) - c.x,
            c.h == spec_max(self.spec_max_y(), r.spec_max_y()) - c.y,
    {
        let x = self.min_x().min(r.min_x());
        let y = self.min_y().min(r.min_y());
        let w = self.max_x().max(r.max_x());
        let h = self.max_y().max(r.max_y());
        irect(x, y, w - x, h - y)
    }

    /// The rectangle moved by `amount`.
    pub fn translate(&self, amount: Int2) -> (r: IntRect)
        requires
            in_i32(self.x + amount.x),
            in_i32(self.y + amount.y),
        ensures
            r.x == self.x + amount.x,
            r.y == self.y + amount.y,
            r.w == self.w,
            r.h == self.h,
    {
        irect(self.x + amount.x, self.y + amount.y, self.w, self.h)
    }

    /// The rectangle grown by `w` and `h`, about the same center: the
    /// position moves back by half of each amount, rounded toward zero.
    pub fn inflate(&self, w: i32, h: i32) -> (r: IntRect)
        requires
            in_i32(self.x - trunc_div(w as int, 2)),
            in_i32(self.y - trunc_div(h as int, 2)),
            in_i32(self.w + w),
            in_i32(self.h + h),
        ensures
            r.x == self.x - trunc_div(w as int, 2),
            r.y == self.y - trunc_div(h as int, 2),
            r.w == self.w + w,
            r.h == self.h + h,
    {
        irect(self.x - w / 2, self.y - h / 2, self.w + w, self.h + h)
    }

    /// An iterator over grid points, row by row. It starts at the origin
    /// `(0, 0)`, steps right, and after the column before `max_x` returns to
    /// `min_x` on the next row; it ends at row `max_y`. The smaller horizontal
    /// edge must lie below `i32::MAX`, so that each row can step once.
    pub fn iter(&self) -> (it: IntRectIter)
        requires
            self.edges_fit(),
            self.spec_min_x() < i32::MAX,
        ensures
            it@.valid(),
            it@ == (IntRectIterState {
                min_x: self.spec_min_x(),
                max_x: self.spec_max_x(),
                max_y: self.spec_max_y(),
                pos_x: 0,
                pos_y: 0,
            }),
    {
        IntRectIter {
            min_x: self.min_x(),
            max_x: self.max_x(),
            max_y: self.max_y(),
            pos: Int2 { x: 0, y: 0 },
        }
    }

    /// Return a version of the rectangle that is guaranteed not to have a
    /// negative size; the same as [`IntRect::absolute`].
    pub fn non_neg(&self) -> (r: IntRect)
        requires
            self.edges_fit(),
            self.w != i32::MIN,
            self.h != i32::MIN,
        ensures
            r == self.spec_absolute(),
    {
        let mut r = *self;
        if r.w < 0 {
            r.x = r.x + r.w;
            r.w = -r.w;
        }
        if r.h < 0 {
            r.y = r.y + r.h;
            r.h = -r.h;
        }
        r
    }
}

/// Walks the grid points of a rectangle row by row; see [`IntRect::iter`].
pub struct IntRectIter {
    min_x: i32,
    max_x: i32,
    max_y: i32,
    pos: Int2,
}

/// The state of an [`IntRectIter`]: the column that each row starts at, the
/// column and row that end the walk, and the point that comes next.
pub struct IntRectIterState {
    pub min_x: int,
    pub max_x: int,
    pub max_y: int,
    pub pos_x: int,
    pub pos_y: int,
}

impl View for IntRectIter {
    type V = IntRectIterState;

    closed spec fn view(&self) -> IntRectIterState {
        IntRectIterState {
            min_x: self.min_x as int,
            max_x: self.max_x as int,
            max_y: self.max_y as int,
            pos_x: self.pos.x as int,
            pos_y: self.pos.y as int,
        }
    }
}

impl IntRectIterState {
    /// Every step of the walk can be taken without overflow: rows start
    /// before `i32::MAX`, and so does the next point.
    pub open spec fn valid(self) -> bool {
        &&& self.min_x <= self.max_x
        &&& self.min_x < i32::MAX
        &&& self.pos_x < i32::MAX
        &&& in_i32(self.max_x)
        &&& in_i32(self.max_y)
        &&& in_i32(self.pos_y)
    }

    /// The walk has not ended: the next point lies before row `max_y`.
    pub open spec fn has_next(self) -> bool {
        self.pos_y < self.max_y
    }

    /// The state after one step: one column right, or to column `min_x` of
    /// the next row when that column would reach `max_x`.
    pub open spec fn advanced(self) -> IntRectIterState {
        if self.pos_x + 1 >= self.max_x {
            IntRectIterState { pos_x: self.min_x, pos_y: self.pos_y + 1, ..self }
        } else {
            IntRectIterState { pos_x: self.pos_x + 1, ..self }
        }
    }
}

impl IntRectIter {
    /// The next point of the walk, if it has not ended.
    pub fn next(&mut self) -> (p: Option<Int2>)
        requires
            old(self)@.valid(),
        ensures
            final(self)@.valid(),
            old(self)@.has_next() ==> p == Some(
                Int2 { x: old(self)@.pos_x as i32, y: old(self)@.pos_y as i32 },
            ) && final(self)@ == old(self)@.advanced(),
            !old(self)@.has_next() ==> p.is_none() && final(self)@ == old(self)@,
    {
        if self.pos.y < self.max_y {
            let p = self.pos;
            self.pos.x = self.pos.x + 1;
            if self.pos.x >= self.max_x {
                self.pos.x = self.min_x;
                self.pos.y = self.pos.y + 1;
            }
            Some(p)
        } else {
            None
        }
    }
}

impl core::ops::Add<Int2> for IntRect {
    type Output = IntRect;

    /// The rectangle moved by `v`.
    fn add(self, v: Int2) -> (r: IntRect)
        ensures
            r.x == self.x + v.x,
            r.y == self.y + v.y,
            r.w == self.w,
            r.h == self.h,
    {
        irect(self.x + v.x, self.y + v.y, self.w, self.h)
    }
}

impl vstd::std_specs::ops::AddSpecImpl<Int2> for IntRect {
    open spec fn obeys_add_spec() -> bool {
        true
    }

    open spec fn add_req(self, v: Int2) -> bool {
        in_i32(self.x + v.x) && in_i32(self.y + v.y)
    }

    open spec fn add_spec(self, v: Int2) -> IntRect {
        IntRect { x: (self.x + v.x) as i32, y: (self.y + v.y) as i32, w: self.w, h: self.h }
    }
}

impl core::ops::Sub<Int2> for IntRect {
    type Output = IntRect;

    /// The rectangle moved by `-v`.
    fn sub(self, v: Int2) -> (r: IntRect)
        ensures
            r.x == self.x - v.x,
            r.y == self.y - v.y,
            r.w == self.w,
            r.h == self.h,
    {
        irect(self.x - v.x, self.y - v.y, self.w, self.h)
    }
}

impl vstd::std_specs::ops::SubSpecImpl<Int2> for IntRect {
    open spec fn obeys_sub_spec() -> bool {
        true
    }

    open spec fn sub_req(self, v: Int2) -> bool {
        in_i32(self.x - v.x) && in_i32(self.y - v.y)
    }

    open spec fn sub_spec(self, v: Int2) -> IntRect {
        IntRect { x: (self.x - v.x) as i32, y: (self.y - v.y) as i32, w: self.w, h: self.h }
    }
}

} // verus!
