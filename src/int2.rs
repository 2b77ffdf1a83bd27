use vstd::prelude::*;

use crate::text::{int_text, push_int, push_separator};

use crate::helper::{
    abs_i32, div_i32, div_ok_i32, in_i32, sign_i32, spec_abs, spec_max, spec_min, spec_sign, trunc_div,
    trunc_rem, rem_i32,
};

verus! {

/// A 2D vector of `i32` components.
#[derive(Default, Copy, Clone, Debug, PartialEq, Eq, Structural, Hash)]
pub struct Int2 {
    pub x: i32,
    pub y: i32,
}

/// Construct a 2D integer vector.
pub fn int2(x: i32, y: i32) -> (v: Int2)
    ensures
        v == (Int2 { x, y }),
{
    Int2 { x, y }
}

impl Int2 {
    /// The components as decimal text, separated by a comma and a space:
    /// `x, y`.
    pub fn to_string(&self) -> (s: String)
        ensures
            s@ == int_text(self.x as int) + seq![',', ' '] + int_text(self.y as int),
    {
        let mut s = String::new();
        push_int(&mut s, self.x);
        push_separator(&mut s);
        push_int(&mut s, self.y);
        s
    }

    /// The Manhattan length `|x| + |y|`.
    pub open spec fn spec_xy_len(self) -> int {
        spec_abs(self.x as int) + spec_abs(self.y as int)
    }

    /// The Manhattan distance between two vectors.
    pub open spec fn spec_xy_dist(self, o: Int2) -> int {
        spec_abs(self.x - o.x) + spec_abs(self.y - o.y)
    }

    /// Construct a 2D integer vector.
    pub fn new(x: i32, y: i32) -> (v: Int2)
        ensures
            v == (Int2 { x, y }),
    {
        int2(x, y)
    }

    /// The Manhattan length `|x| + |y|`; it must fit in an `i32`.
    pub fn xy_len(&self) -> (r: i32)
        requires
            self.x != i32::MIN,
            self.y != i32::MIN,
            self.spec_xy_len() <= i32::MAX,
        ensures
            r == self.spec_xy_len(),
    {
        abs_i32(self.x) + abs_i32(self.y)
    }

    /// The vector turned a quarter to the left: `(y, -x)`.
    pub fn turn_left(&self) -> (v: Int2)
        requires
            self.x != i32::MIN,
        ensures
            v.x == self.y,
            v.y == -self.x,
    {
        int2(self.y, -self.x)
    }

    /// The vector turned a quarter to the right: `(-y, x)`.
    pub fn turn_right(&self) -> (v: Int2)
        requires
            self.y != i32::MIN,
        ensures
            v.x == -self.y,
            v.y == self.x,
    {
        int2(-self.y, self.x)
    }

    /// The vector with `y` set to zero.
    pub fn only_x(&self) -> (v: Int2)
        ensures
            v == (Int2 { x: self.x, y: 0 }),
    {
        int2(self.x, 0)
    }

    /// The vector with `x` set to zero.
    pub fn only_y(&self) -> (v: Int2)
        ensures
            v == (Int2 { x: 0, y: self.y }),
    {
        int2(0, self.y)
    }

    /// The absolute value of each component.
    pub fn abs(&self) -> (v: Int2)
        requires
            self.x != i32::MIN,
            self.y != i32::MIN,
        ensures
            v.x == spec_abs(self.x as int),
            v.y == spec_abs(self.y as int),
    {
        int2(abs_i32(self.x), abs_i32(self.y))
    }

    /// The smaller of each pair of components.
    pub fn min(&self, other: Int2) -> (v: Int2)
        ensures
            v.x == spec_min(self.x as int, other.x as int),
            v.y == spec_min(self.y as int, other.y as int),
    {
        int2(self.x.min(other.x), self.y.min(other.y))
    }

    /// The larger of each pair of components.
    pub fn max(&self, other: Int2) -> (v: Int2)
        ensures
            v.x == spec_max(self.x as int, other.x as int),
            v.y == spec_max(self.y as int, other.y as int),
    {
        int2(self.x.max(other.x), self.y.max(other.y))
    }

    /// The sign of each component: `1`, `-1` or `0`.
    pub fn sign(&self) -> (v: Int2)
        ensures
            v.x == spec_sign(self.x as int),
            v.y == spec_sign(self.y as int),
    {
        int2(sign_i32(self.x), sign_i32(self.y))
    }

    /// Each component raised to at least `min` and then lowered to at most
    /// `max`; where `min` exceeds `max` on an axis, `max` wins.
    pub fn clamp(&self, min: Int2, max: Int2) -> (v: Int2)
        ensures
            v.x == spec_min(spec_max(self.x as int, min.x as int), max.x as int),
            v.y == spec_min(spec_max(self.y as int, min.y as int), max.y as int),
    {
        self.max(min).min(max)
    }

    /// The Manhattan distance `|x - other.x| + |y - other.y|`; it must fit in
    /// an `i32`.
    pub fn xy_dist(&self, other: Int2) -> (r: i32)
        requires
            i32::MIN < self.x - other.x <= i32::MAX,
            i32::MIN < self.y - other.y <= i32::MAX,
            self.spec_xy_dist(other) <= i32::MAX,
        ensures
            r == self.spec_xy_dist(other),
    {
        abs_i32(self.x - other.x) + abs_i32(self.y - other.y)
    }
}

impl core::ops::Index<usize> for Int2 {
    type Output = i32;

    /// Component `index`: `x` for 0, `y` for 1.
    fn index(&self, index: usize) -> (v: &i32)
        ensures
            *v == if index == 0 {
                self.x
            } else {
                self.y
            },
    {
        if index == 0 {
            &self.x
        } else {
            &self.y
        }
    }
}

impl vstd::std_specs::core::IndexSpecImpl<usize> for Int2 {
    open spec fn index_req(&self, index: &usize) -> bool {
        *index < 2
    }
}

impl From<i32> for Int2 {
    /// The vector with both components equal to `v`.
    fn from(v: i32) -> (r: Int2)
        ensures
            r == (Int2 { x: v, y: v }),
    {
        int2(v, v)
    }
}

impl vstd::std_specs::convert::FromSpecImpl<i32> for Int2 {
    open spec fn obeys_from_spec() -> bool {
        true
    }

    open spec fn from_spec(v: i32) -> Int2 {
        Int2 { x: v, y: v }
    }
}

impl From<(i32, i32)> for Int2 {
    fn from(t: (i32, i32)) -> (r: Int2)
        ensures
            r == (Int2 { x: t.0, y: t.1 }),
    {
        int2(t.0, t.1)
    }
}

impl vstd::std_specs::convert::FromSpecImpl<(i32, i32)> for Int2 {
    open spec fn obeys_from_spec() -> bool {
        true
    }

    open spec fn from_spec(t: (i32, i32)) -> Int2 {
        Int2 { x: t.0, y: t.1 }
    }
}

impl From<Int2> for (i32, i32) {
    fn from(v: Int2) -> (t: (i32, i32))
        ensures
            t == (v.x, v.y),
    {
        (v.x, v.y)
    }
}

impl vstd::std_specs::convert::FromSpecImpl<Int2> for (i32, i32) {
    open spec fn obeys_from_spec() -> bool {
        true
    }

    open spec fn from_spec(v: Int2) -> (i32, i32) {
        (v.x, v.y)
    }
}

impl core::ops::Neg for Int2 {
    type Output = Int2;

    fn neg(self) -> (v: Int2)
        ensures
            v.x == -self.x,
            v.y == -self.y,
    {
        int2(-self.x, -self.y)
    }
}

impl vstd::std_specs::ops::NegSpecImpl for Int2 {
    open spec fn obeys_neg_spec() -> bool {
        true
    }

    open spec fn neg_req(self) -> bool {
        self.x != i32::MIN && self.y != i32::MIN
    }

    open spec fn neg_spec(self) -> Int2 {
        Int2 { x: -self.x as i32, y: -self.y as i32 }
    }
}

impl core::ops::Add<Int2> for Int2 {
    type Output = Int2;

    fn add(self, other: Int2) -> (v: Int2)
        ensures
            v.x == self.x + other.x,
            v.y == self.y + other.y,
    {
        int2(self.x + other.x, self.y + other.y)
    }
}

impl vstd::std_specs::ops::AddSpecImpl<Int2> for Int2 {
    open spec fn obeys_add_spec() -> bool {
        true
    }

    open spec fn add_req(self, other: Int2) -> bool {
        in_i32(self.x + other.x) && in_i32(self.y + other.y)
    }

    open spec fn add_spec(self, other: Int2) -> Int2 {
        Int2 { x: (self.x + other.x) as i32, y: (self.y + other.y) as i32 }
    }
}

impl core::ops::Sub<Int2> for Int2 {
    type Output = Int2;

    fn sub(self, other: Int2) -> (v: Int2)
        ensures
            v.x == self.x - other.x,
            v.y == self.y - other.y,
    {
        int2(self.x - other.x, self.y - other.y)
    }
}

impl vstd::std_specs::ops::SubSpecImpl<Int2> for Int2 {
    open spec fn obeys_sub_spec() -> bool {
        true
    }

    open spec fn sub_req(self, other: Int2) -> bool {
        in_i32(self.x - other.x) && in_i32(self.y - other.y)
    }

    open spec fn sub_spec(self, other: Int2) -> Int2 {
        Int2 { x: (self.x - other.x) as i32, y: (self.y - other.y) as i32 }
    }
}

impl core::ops::Mul<i32> for Int2 {
    type Output = Int2;

    /// Each component times `n`.
    fn mul(self, n: i32) -> (v: Int2)
        ensures
            v.x == self.x * n,
            v.y == self.y * n,
    {
        int2(self.x * n, self.y * n)
    }
}

impl vstd::std_specs::ops::MulSpecImpl<i32> for Int2 {
    open spec fn obeys_mul_spec() -> bool {
        true
    }

    open spec fn mul_req(self, n: i32) -> bool {
        in_i32(self.x * n) && in_i32(self.y * n)
    }

    open spec fn mul_spec(self, n: i32) -> Int2 {
        Int2 { x: (self.x * n) as i32, y: (self.y * n) as i32 }
    }
}

impl core::ops::Mul<Int2> for i32 {
    type Output = Int2;

    /// Each component of `v` times this number.
    fn mul(self, v: Int2) -> (r: Int2)
        ensures
            r.x == v.x * self,
            r.y == v.y * self,
    {
        int2(v.x * self, v.y * self)
    }
}

impl vstd::std_specs::ops::MulSpecImpl<Int2> for i32 {
    open spec fn obeys_mul_spec() -> bool {
        true
    }

    open spec fn mul_req(self, v: Int2) -> bool {
        in_i32(v.x * self) && in_i32(v.y * self)
    }

    open spec fn mul_spec(self, v: Int2) -> Int2 {
        Int2 { x: (v.x * self) as i32, y: (v.y * self) as i32 }
    }
}

impl core::ops::Mul<Int2> for Int2 {
    type Output = Int2;

    /// The component-wise product.
    fn mul(self, other: Int2) -> (v: Int2)
        ensures
            v.x == self.x * other.x,
            v.y == self.y * other.y,
    {
        int2(self.x * other.x, self.y * other.y)
    }
}

impl vstd::std_specs::ops::MulSpecImpl<Int2> for Int2 {
    open spec fn obeys_mul_spec() -> bool {
        true
    }

    open spec fn mul_req(self, other: Int2) -> bool {
        in_i32(self.x * other.x) && in_i32(self.y * other.y)
    }

    open spec fn mul_spec(self, other: Int2) -> Int2 {
        Int2 { x: (self.x * other.x) as i32, y: (self.y * other.y) as i32 }
    }
}

impl core::ops::Div<i32> for Int2 {
    type Output = Int2;

    /// Each component divided by `n`, rounding toward zero.
    fn div(self, n: i32) -> (v: Int2)
        ensures
            v.x == trunc_div(self.x as int, n as int),
            v.y == trunc_div(self.y as int, n as int),
    {
        int2(div_i32(self.x, n), div_i32(self.y, n))
    }
}

impl vstd::std_specs::ops::DivSpecImpl<i32> for Int2 {
    open spec fn obeys_div_spec() -> bool {
        true
    }

    open spec fn div_req(self, n: i32) -> bool {
        div_ok_i32(self.x, n) && div_ok_i32(self.y, n)
    }

    open spec fn div_spec(self, n: i32) -> Int2 {
        Int2 {
            x: trunc_div(self.x as int, n as int) as i32,
            y: trunc_div(self.y as int, n as int) as i32,
        }
    }
}

impl core::ops::Div<Int2> for Int2 {
    type Output = Int2;

    /// The component-wise quotient, rounding toward zero.
    fn div(self, other: Int2) -> (v: Int2)
        ensures
            v.x == trunc_div(self.x as int, other.x as int),
            v.y == trunc_div(self.y as int, other.y as int),
    {
        int2(div_i32(self.x, other.x), div_i32(self.y, other.y))
    }
}

impl vstd::std_specs::ops::DivSpecImpl<Int2> for Int2 {
    open spec fn obeys_div_spec() -> bool {
        true
    }

    open spec fn div_req(self, other: Int2) -> bool {
        div_ok_i32(self.x, other.x) && div_ok_i32(self.y, other.y)
    }

    open spec fn div_spec(self, other: Int2) -> Int2 {
        Int2 {
            x: trunc_div(self.x as int, other.x as int) as i32,
            y: trunc_div(self.y as int, other.y as int) as i32,
        }
    }
}

impl core::ops::Rem<Int2> for Int2 {
    type Output = Int2;

    /// The component-wise remainder, with the sign of `self`.
    fn rem(self, other: Int2) -> (v: Int2)
        ensures
            v.x == trunc_rem(self.x as int, other.x as int),
            v.y == trunc_rem(self.y as int, other.y as int),
    {
        int2(rem_i32(self.x, other.x), rem_i32(self.y, other.y))
    }
}

impl vstd::std_specs::ops::RemSpecImpl<Int2> for Int2 {
    open spec fn obeys_rem_spec() -> bool {
        true
    }

    open spec fn rem_req(self, other: Int2) -> bool {
        div_ok_i32(self.x, other.x) && div_ok_i32(self.y, other.y)
    }

    open spec fn rem_spec(self, other: Int2) -> Int2 {
        Int2 {
            x: trunc_rem(self.x as int, other.x as int) as i32,
            y: trunc_rem(self.y as int, other.y as int) as i32,
        }
    }
}

impl core::ops::Rem<i32> for Int2 {
    type Output = Int2;

    /// The remainder of each component by `n`, with the sign of the component.
    fn rem(self, n: i32) -> (v: Int2)
        ensures
            v.x == trunc_rem(self.x as int, n as int),
            v.y == trunc_rem(self.y as int, n as int),
    {
        int2(rem_i32(self.x, n), rem_i32(self.y, n))
    }
}

impl vstd::std_specs::ops::RemSpecImpl<i32> for Int2 {
    open spec fn obeys_rem_spec() -> bool {
        true
    }

    open spec fn rem_req(self, n: i32) -> bool {
        div_ok_i32(self.x, n) && div_ok_i32(self.y, n)
    }

    open spec fn rem_spec(self, n: i32) -> Int2 {
        Int2 {
            x: trunc_rem(self.x as int, n as int) as i32,
            y: trunc_rem(self.y as int, n as int) as i32,
        }
    }
}

impl core::ops::AddAssign<Int2> for Int2 {
    fn add_assign(&mut self, other: Int2)
        requires
            in_i32(old(self).x + other.x),
            in_i32(old(self).y + other.y),
        ensures
            final(self).x == old(self).x + other.x,
            final(self).y == old(self).y + other.y,
    {
        *self = *self + other;
    }
}

impl core::ops::SubAssign<Int2> for Int2 {
    fn sub_assign(&mut self, other: Int2)
        requires
            in_i32(old(self).x - other.x),
            in_i32(old(self).y - other.y),
        ensures
            final(self).x == old(self).x - other.x,
            final(self).y == old(self).y - other.y,
    {
        *self = *self - other;
    }
}

impl core::ops::MulAssign<i32> for Int2 {
    fn mul_assign(&mut self, n: i32)
        requires
            in_i32(old(self).x * n),
            in_i32(old(self).y * n),
        ensures
            final(self).x == old(self).x * n,
            final(self).y == old(self).y * n,
    {
        *self = *self * n;
    }
}

impl core::ops::MulAssign<Int2> for Int2 {
    fn mul_assign(&mut self, other: Int2)
        requires
            in_i32(old(self).x * other.x),
            in_i32(old(self).y * other.y),
        ensures
            final(self).x == old(self).x * other.x,
            final(self).y == old(self).y * other.y,
    {
        *self = *self * other;
    }
}

impl core::ops::DivAssign<i32> for Int2 {
    fn div_assign(&mut self, n: i32)
        requires
            div_ok_i32(old(self).x, n),
            div_ok_i32(old(self).y, n),
        ensures
            final(self).x == trunc_div(old(self).x as int, n as int),
            final(self).y == trunc_div(old(self).y as int, n as int),
    {
        *self = *self / n;
    }
}

impl core::ops::DivAssign<Int2> for Int2 {
    fn div_assign(&mut self, other: Int2)
        requires
            div_ok_i32(old(self).x, other.x),
            div_ok_i32(old(self).y, other.y),
        ensures
            final(self).x == trunc_div(old(self).x as int, other.x as int),
            final(self).y == trunc_div(old(self).y as int, other.y as int),
    {
        *self = *self / other;
    }
}

impl core::ops::RemAssign<Int2> for Int2 {
    fn rem_assign(&mut self, other: Int2)
        requires
            div_ok_i32(old(self).x, other.x),
            div_ok_i32(old(self).y, other.y),
        ensures
            final(self).x == trunc_rem(old(self).x as int, other.x as int),
            final(self).y == trunc_rem(old(self).y as int, other.y as int),
    {
        *self = *self % other;
    }
}

impl core::ops::RemAssign<i32> for Int2 {
    fn rem_assign(&mut self, n: i32)
        requires
            div_ok_i32(old(self).x, n),
            div_ok_i32(old(self).y, n),
        ensures
            final(self).x == trunc_rem(old(self).x as int, n as int),
            final(self).y == trunc_rem(old(self).y as int, n as int),
    {
        *self = *self % n;
    }
}

} // verus!
