use vstd::prelude::*;

use crate::text::{int_text, push_int, push_separator};

use crate::helper::{
    abs_i32, div_i32, div_ok_i32, in_i32, rem_i32, sign_i32, spec_abs, spec_max, spec_min,
    spec_sign, trunc_div, trunc_rem,
};
use crate::int2::Int2;

verus! {

/// A 3D vector of `i32` components.
#[derive(Default, Copy, Clone, Debug, PartialEq, Eq, Structural, Hash)]
pub struct Int3 {
    pub x: i32,
    pub y: i32,
    pub z: i32,
}

/// Construct a 3D integer vector.
pub fn int3(x: i32, y: i32, z: i32) -> (v: Int3)
    ensures
        v == (Int3 { x, y, z }),
{
    Int3 { x, y, z }
}

impl Int3 {
    /// The components as decimal text, separated by a comma and a space:
    /// `x, y, z`.
    pub fn to_string(&self) -> (s: String)
        ensures
            s@ == int_text(self.x as int) + seq![',', ' '] + int_text(self.y as int) + seq![',', ' '] + int_text(self.z as int),
    {
        let mut s = String::new();
        push_int(&mut s, self.x);
        push_separator(&mut s);
        push_int(&mut s, self.y);
        push_separator(&mut s);
        push_int(&mut s, self.z);
        s
    }

    /// The Manhattan length `|x| + |y| + |z|`.
    pub open spec fn spec_xyz_len(self) -> int {
        spec_abs(self.x as int) + spec_abs(self.y as int) + spec_abs(self.z as int)
    }

    /// The Manhattan distance between two vectors.
    pub open spec fn spec_xyz_dist(self, o: Int3) -> int {
        spec_abs(self.x - o.x) + spec_abs(self.y - o.y) + spec_abs(self.z - o.z)
    }

    /// Construct a 3D integer vector.
    pub fn new(x: i32, y: i32, z: i32) -> (v: Int3)
        ensures
            v == (Int3 { x, y, z }),
    {
        int3(x, y, z)
    }

    /// The Manhattan length `|x| + |y| + |z|`; it must fit in an `i32`.
    pub fn xyz_len(&self) -> (r: i32)
        requires
            self.x != i32::MIN,
            self.y != i32::MIN,
            self.z != i32::MIN,
            self.spec_xyz_len() <= i32::MAX,
        ensures
            r == self.spec_xyz_len(),
    {
        abs_i32(self.x) + abs_i32(self.y) + abs_i32(self.z)
    }

    /// The vector with `y` and `z` set to zero.
    pub fn only_x(&self) -> (v: Int3)
        ensures
            v == (Int3 { x: self.x, y: 0, z: 0 }),
    {
        int3(self.x, 0, 0)
    }

    /// The vector with `x` and `z` set to zero.
    pub fn only_y(&self) -> (v: Int3)
        ensures
            v == (Int3 { x: 0, y: self.y, z: 0 }),
    {
        int3(0, self.y, 0)
    }

    /// The vector with `x` and `y` set to zero.
    pub fn only_z(&self) -> (v: Int3)
        ensures
            v == (Int3 { x: 0, y: 0, z: self.z }),
    {
        int3(0, 0, self.z)
    }

    /// The absolute value of each component.
    pub fn abs(&self) -> (v: Int3)
        requires
            self.x != i32::MIN,
            self.y != i32::MIN,
            self.z != i32::MIN,
        ensures
            v.x == spec_abs(self.x as int),
            v.y == spec_abs(self.y as int),
            v.z == spec_abs(self.z as int),
    {
        int3(abs_i32(self.x), abs_i32(self.y), abs_i32(self.z))
    }

    /// The smaller of each pair of components.
    pub fn min(&self, other: Int3) -> (v: Int3)
        ensures
            v.x == spec_min(self.x as int, other.x as int),
            v.y == spec_min(self.y as int, other.y as int),
            v.z == spec_min(self.z as int, other.z as int),
    {
        int3(self.x.min(other.x), self.y.min(other.y), self.z.min(other.z))
    }

    /// The larger of each pair of components.
    pub fn max(&self, other: Int3) -> (v: Int3)
        ensures
            v.x == spec_max(self.x as int, other.x as int),
            v.y == spec_max(self.y as int, other.y as int),
            v.z == spec_max(self.z as int, other.z as int),
    {
        int3(self.x.max(other.x), self.y.max(other.y), self.z.max(other.z))
    }

    /// The sign of each component: `1`, `-1` or `0`.
    pub fn sign(&self) -> (v: Int3)
        ensures
            v.x == spec_sign(self.x as int),
            v.y == spec_sign(self.y as int),
            v.z == spec_sign(self.z as int),
    {
        int3(sign_i32(self.x), sign_i32(self.y), sign_i32(self.z))
    }

    /// Each component raised to at least `min` and then lowered to at most
    /// `max`; where `min` exceeds `max` on an axis, `max` wins.
    pub fn clamp(&self, min: Int3, max: Int3) -> (v: Int3)
        ensures
            v.x == spec_min(spec_max(self.x as int, min.x as int), max.x as int),
            v.y == spec_min(spec_max(self.y as int, min.y as int), max.y as int),
            v.z == spec_min(spec_max(self.z as int, min.z as int), max.z as int),
    {
        self.max(min).min(max)
    }

    /// The Manhattan distance to `other`; it must fit in an `i32`.
    pub fn xyz_dist(&self, other: Int3) -> (r: i32)
        requires
            i32::MIN < self.x - other.x <= i32::MAX,
            i32::MIN < self.y - other.y <= i32::MAX,
            i32::MIN < self.z - other.z <= i32::MAX,
            self.spec_xyz_dist(other) <= i32::MAX,
        ensures
            r == self.spec_xyz_dist(other),
    {
        abs_i32(self.x - other.x) + abs_i32(self.y - other.y) + abs_i32(self.z - other.z)
    }
}

impl core::ops::Index<usize> for Int3 {
    type Output = i32;

    /// Component `index`: `x`, `y` and `z` for 0 to 2.
    fn index(&self, index: usize) -> (v: &i32)
        ensures
            *v == if index == 0 {
                self.x
            } else if index == 1 {
                self.y
            } else {
                self.z
            },
    {
        if index == 0 {
            &self.x
        } else if index == 1 {
            &self.y
        } else {
            &self.z
        }
    }
}

impl vstd::std_specs::core::IndexSpecImpl<usize> for Int3 {
    open spec fn index_req(&self, index: &usize) -> bool {
        *index < 3
    }
}

impl From<Int2> for Int3 {
    /// The 2D vector with `z` set to zero.
    fn from(v: Int2) -> (r: Int3)
        ensures
            r == (Int3 { x: v.x, y: v.y, z: 0 }),
    {
        int3(v.x, v.y, 0)
    }
}

impl vstd::std_specs::convert::FromSpecImpl<Int2> for Int3 {
    open spec fn obeys_from_spec() -> bool {
        true
    }

    open spec fn from_spec(v: Int2) -> Int3 {
        Int3 { x: v.x, y: v.y, z: 0 }
    }
}

impl From<i32> for Int3 {
    /// The vector with all components equal to `v`.
    fn from(v: i32) -> (r: Int3)
        ensures
            r == (Int3 { x: v, y: v, z: v }),
    {
        int3(v, v, v)
    }
}

impl vstd::std_specs::convert::FromSpecImpl<i32> for Int3 {
    open spec fn obeys_from_spec() -> bool {
        true
    }

    open spec fn from_spec(v: i32) -> Int3 {
        Int3 { x: v, y: v, z: v }
    }
}

impl From<(i32, i32)> for Int3 {
    /// The vector `(t.0, t.1, 0)`.
    fn from(t: (i32, i32)) -> (r: Int3)
        ensures
            r == (Int3 { x: t.0, y: t.1, z: 0 }),
    {
        int3(t.0, t.1, 0)
    }
}

impl vstd::std_specs::convert::FromSpecImpl<(i32, i32)> for Int3 {
    open spec fn obeys_from_spec() -> bool {
        true
    }

    open spec fn from_spec(t: (i32, i32)) -> Int3 {
        Int3 { x: t.0, y: t.1, z: 0 }
    }
}

impl From<(i32, i32, i32)> for Int3 {
    fn from(t: (i32, i32, i32)) -> (r: Int3)
        ensures
            r == (Int3 { x: t.0, y: t.1, z: t.2 }),
    {
        int3(t.0, t.1, t.2)
    }
}

impl vstd::std_specs::convert::FromSpecImpl<(i32, i32, i32)> for Int3 {
    open spec fn obeys_from_spec() -> bool {
        true
    }

    open spec fn from_spec(t: (i32, i32, i32)) -> Int3 {
        Int3 { x: t.0, y: t.1, z: t.2 }
    }
}

impl From<Int3> for (i32, i32, i32) {
    fn from(v: Int3) -> (t: (i32, i32, i32))
        ensures
            t == (v.x, v.y, v.z),
    {
        (v.x, v.y, v.z)
    }
}

impl vstd::std_specs::convert::FromSpecImpl<Int3> for (i32, i32, i32) {
    open spec fn obeys_from_spec() -> bool {
        true
    }

    open spec fn from_spec(v: Int3) -> (i32, i32, i32) {
        (v.x, v.y, v.z)
    }
}

impl core::ops::Neg for Int3 {
    type Output = Int3;

    fn neg(self) -> (v: Int3)
        ensures
            v.x == -self.x,
            v.y == -self.y,
            v.z == -self.z,
    {
        int3(-self.x, -self.y, -self.z)
    }
}

impl vstd::std_specs::ops::NegSpecImpl for Int3 {
    open spec fn obeys_neg_spec() -> bool {
        true
    }

    open spec fn neg_req(self) -> bool {
        self.x != i32::MIN && self.y != i32::MIN && self.z != i32::MIN
    }

    open spec fn neg_spec(self) -> Int3 {
        Int3 { x: -self.x as i32, y: -self.y as i32, z: -self.z as i32 }
    }
}

impl core::ops::Add<Int3> for Int3 {
    type Output = Int3;

    fn add(self, other: Int3) -> (v: Int3)
        ensures
            v.x == self.x + other.x,
            v.y == self.y + other.y,
            v.z == self.z + other.z,
    {
        int3(self.x + other.x, self.y + other.y, self.z + other.z)
    }
}

impl vstd::std_specs::ops::AddSpecImpl<Int3> for Int3 {
    open spec fn obeys_add_spec() -> bool {
        true
    }

    open spec fn add_req(self, other: Int3) -> bool {
        in_i32(self.x + other.x) && in_i32(self.y + other.y) && in_i32(self.z + other.z)
    }

    open spec fn add_spec(self, other: Int3) -> Int3 {
        Int3 {
            x: (self.x + other.x) as i32,
            y: (self.y + other.y) as i32,
            z: (self.z + other.z) as i32,
        }
    }
}

impl core::ops::Sub<Int3> for Int3 {
    type Output = Int3;

    fn sub(self, other: Int3) -> (v: Int3)
        ensures
            v.x == self.x - other.x,
            v.y == self.y - other.y,
            v.z == self.z - other.z,
    {
        int3(self.x - other.x, self.y - other.y, self.z - other.z)
    }
}

impl vstd::std_specs::ops::SubSpecImpl<Int3> for Int3 {
    open spec fn obeys_sub_spec() -> bool {
        true
    }

    open spec fn sub_req(self, other: Int3) -> bool {
        in_i32(self.x - other.x) && in_i32(self.y - other.y) && in_i32(self.z - other.z)
    }

    open spec fn sub_spec(self, other: Int3) -> Int3 {
        Int3 {
            x: (self.x - other.x) as i32,
            y: (self.y - other.y) as i32,
            z: (self.z - other.z) as i32,
        }
    }
}

impl core::ops::Mul<i32> for Int3 {
    type Output = Int3;

    /// Each component times `n`.
    fn mul(self, n: i32) -> (v: Int3)
        ensures
            v.x == self.x * n,
            v.y == self.y * n,
            v.z == self.z * n,
    {
        int3(self.x * n, self.y * n, self.z * n)
    }
}

impl vstd::std_specs::ops::MulSpecImpl<i32> for Int3 {
    open spec fn obeys_mul_spec() -> bool {
        true
    }

    open spec fn mul_req(self, n: i32) -> bool {
        in_i32(self.x * n) && in_i32(self.y * n) && in_i32(self.z * n)
    }

    open spec fn mul_spec(self, n: i32) -> Int3 {
        Int3 { x: (self.x * n) as i32, y: (self.y * n) as i32, z: (self.z * n) as i32 }
    }
}

impl core::ops::Mul<Int3> for i32 {
    type Output = Int3;

    /// Each component of `v` times this number.
    fn mul(self, v: Int3) -> (r: Int3)
        ensures
            r.x == v.x * self,
            r.y == v.y * self,
            r.z == v.z * self,
    {
        int3(v.x * self, v.y * self, v.z * self)
    }
}

impl vstd::std_specs::ops::MulSpecImpl<Int3> for i32 {
    open spec fn obeys_mul_spec() -> bool {
        true
    }

    open spec fn mul_req(self, v: Int3) -> bool {
        in_i32(v.x * self) && in_i32(v.y * self) && in_i32(v.z * self)
    }

    open spec fn mul_spec(self, v: Int3) -> Int3 {
        Int3 { x: (v.x * self) as i32, y: (v.y * self) as i32, z: (v.z * self) as i32 }
    }
}

impl core::ops::Mul<Int3> for Int3 {
    type Output = Int3;

    /// The component-wise product.
    fn mul(self, other: Int3) -> (v: Int3)
        ensures
            v.x == self.x * other.x,
            v.y == self.y * other.y,
            v.z == self.z * other.z,
    {
        int3(self.x * other.x, self.y * other.y, self.z * other.z)
    }
}

impl vstd::std_specs::ops::MulSpecImpl<Int3> for Int3 {
    open spec fn obeys_mul_spec() -> bool {
        true
    }

    open spec fn mul_req(self, other: Int3) -> bool {
        in_i32(self.x * other.x) && in_i32(self.y * other.y) && in_i32(self.z * other.z)
    }

    open spec fn mul_spec(self, other: Int3) -> Int3 {
        Int3 {
            x: (self.x * other.x) as i32,
            y: (self.y * other.y) as i32,
            z: (self.z * other.z) as i32,
        }
    }
}

impl core::ops::Div<i32> for Int3 {
    type Output = Int3;

    /// Each component divided by `n`, rounding toward zero.
    fn div(self, n: i32) -> (v: Int3)
        ensures
            v.x == trunc_div(self.x as int, n as int),
            v.y == trunc_div(self.y as int, n as int),
            v.z == trunc_div(self.z as int, n as int),
    {
        int3(div_i32(self.x, n), div_i32(self.y, n), div_i32(self.z, n))
    }
}

impl vstd::std_specs::ops::DivSpecImpl<i32> for Int3 {
    open spec fn obeys_div_spec() -> bool {
        true
    }

    open spec fn div_req(self, n: i32) -> bool {
        div_ok_i32(self.x, n) && div_ok_i32(self.y, n) && div_ok_i32(self.z, n)
    }

    open spec fn div_spec(self, n: i32) -> Int3 {
        Int3 {
            x: trunc_div(self.x as int, n as int) as i32,
            y: trunc_div(self.y as int, n as int) as i32,
            z: trunc_div(self.z as int, n as int) as i32,
        }
    }
}

impl core::ops::Div<Int3> for Int3 {
    type Output = Int3;

    /// The component-wise quotient, rounding toward zero.
    fn div(self, other: Int3) -> (v: Int3)
        ensures
            v.x == trunc_div(self.x as int, other.x as int),
            v.y == trunc_div(self.y as int, other.y as int),
            v.z == trunc_div(self.z as int, other.z as int),
    {
        int3(div_i32(self.x, other.x), div_i32(self.y, other.y), div_i32(self.z, other.z))
    }
}

impl vstd::std_specs::ops::DivSpecImpl<Int3> for Int3 {
    open spec fn obeys_div_spec() -> bool {
        true
    }

    open spec fn div_req(self, other: Int3) -> bool {
        div_ok_i32(self.x, other.x) && div_ok_i32(self.y, other.y) && div_ok_i32(self.z, other.z)
    }

    open spec fn div_spec(self, other: Int3) -> Int3 {
        Int3 {
            x: trunc_div(self.x as int, other.x as int) as i32,
            y: trunc_div(self.y as int, other.y as int) as i32,
            z: trunc_div(self.z as int, other.z as int) as i32,
        }
    }
}

impl core::ops::Rem<Int3> for Int3 {
    type Output = Int3;

    /// The component-wise remainder, with the sign of `self`.
    fn rem(self, other: Int3) -> (v: Int3)
        ensures
            v.x == trunc_rem(self.x as int, other.x as int),
            v.y == trunc_rem(self.y as int, other.y as int),
            v.z == trunc_rem(self.z as int, other.z as int),
    {
        int3(rem_i32(self.x, other.x), rem_i32(self.y, other.y), rem_i32(self.z, other.z))
    }
}

impl vstd::std_specs::ops::RemSpecImpl<Int3> for Int3 {
    open spec fn obeys_rem_spec() -> bool {
        true
    }

    open spec fn rem_req(self, other: Int3) -> bool {
        div_ok_i32(self.x, other.x) && div_ok_i32(self.y, other.y) && div_ok_i32(self.z, other.z)
    }

    open spec fn rem_spec(self, other: Int3) -> Int3 {
        Int3 {
            x: trunc_rem(self.x as int, other.x as int) as i32,
            y: trunc_rem(self.y as int, other.y as int) as i32,
            z: trunc_rem(self.z as int, other.z as int) as i32,
        }
    }
}

impl core::ops::Rem<i32> for Int3 {
    type Output = Int3;

    /// The remainder of each component by `n`, with the sign of the component.
    fn rem(self, n: i32) -> (v: Int3)
        ensures
            v.x == trunc_rem(self.x as int, n as int),
            v.y == trunc_rem(self.y as int, n as int),
            v.z == trunc_rem(self.z as int, n as int),
    {
        int3(rem_i32(self.x, n), rem_i32(self.y, n), rem_i32(self.z, n))
    }
}

impl vstd::std_specs::ops::RemSpecImpl<i32> for Int3 {
    open spec fn obeys_rem_spec() -> bool {
        true
    }

    open spec fn rem_req(self, n: i32) -> bool {
        div_ok_i32(self.x, n) && div_ok_i32(self.y, n) && div_ok_i32(self.z, n)
    }

    open spec fn rem_spec(self, n: i32) -> Int3 {
        Int3 {
            x: trunc_rem(self.x as int, n as int) as i32,
            y: trunc_rem(self.y as int, n as int) as i32,
            z: trunc_rem(self.z as int, n as int) as i32,
        }
    }
}

impl core::ops::RemAssign<Int3> for Int3 {
    fn rem_assign(&mut self, other: Int3)
        requires
            div_ok_i32(old(self).x, other.x),
            div_ok_i32(old(self).y, other.y),
            div_ok_i32(old(self).z, other.z),
        ensures
            final(self).x == trunc_rem(old(self).x as int, other.x as int),
            final(self).y == trunc_rem(old(self).y as int, other.y as int),
            final(self).z == trunc_rem(old(self).z as int, other.z as int),
    {
        *self = *self % other;
    }
}

impl core::ops::RemAssign<i32> for Int3 {
    fn rem_assign(&mut self, n: i32)
        requires
            div_ok_i32(old(self).x, n),
            div_ok_i32(old(self).y, n),
            div_ok_i32(old(self).z, n),
        ensures
            final(self).x == trunc_rem(old(self).x as int, n as int),
            final(self).y == trunc_rem(old(self).y as int, n as int),
            final(self).z == trunc_rem(old(self).z as int, n as int),
    {
        *self = *self % n;
    }
}

} // verus!
