use vstd::prelude::*;

use crate::text::{hex_text, push_hex};

verus! {

/// A 32-bit RGBA color, with 8 bits per channel.
///
/// The canonical packed form is the hexadecimal value `0xRRGGBBAA`. The
/// derived ordering compares the channels in the order red, green, blue,
/// alpha, which is the numeric order of the packed values.
#[derive(Default, Copy, Clone, Debug, PartialEq, Eq, Structural, PartialOrd, Ord, Hash)]
pub struct Color {
    pub r: u8,
    pub g: u8,
    pub b: u8,
    pub a: u8,
}

/// `x + y`, held at 255 when the sum does not fit in a byte.
pub open spec fn sat_add_u8(x: u8, y: u8) -> u8 {
    if x + y > 255 {
        255
    } else {
        (x + y) as u8
    }
}

/// `x - y`, held at 0 when the difference would be negative.
pub open spec fn sat_sub_u8(x: u8, y: u8) -> u8 {
    if x < y {
        0
    } else {
        (x - y) as u8
    }
}

impl Color {
    /// Channel `i` of the color: red, green, blue and alpha for 0 to 3.
    pub open spec fn channel(self, i: int) -> u8 {
        if i == 0 {
            self.r
        } else if i == 1 {
            self.g
        } else if i == 2 {
            self.b
        } else {
            self.a
        }
    }

    /// Channel-wise sum, held at 255.
    pub open spec fn spec_add(self, o: Color) -> Color {
        Color {
            r: sat_add_u8(self.r, o.r),
            g: sat_add_u8(self.g, o.g),
            b: sat_add_u8(self.b, o.b),
            a: sat_add_u8(self.a, o.a),
        }
    }

    /// Channel-wise difference, held at 0.
    pub open spec fn spec_sub(self, o: Color) -> Color {
        Color {
            r: sat_sub_u8(self.r, o.r),
            g: sat_sub_u8(self.g, o.g),
            b: sat_sub_u8(self.b, o.b),
            a: sat_sub_u8(self.a, o.a),
        }
    }

    /// Channel-wise bitwise and.
    pub open spec fn spec_bitand(self, o: Color) -> Color {
        Color { r: self.r & o.r, g: self.g & o.g, b: self.b & o.b, a: self.a & o.a }
    }

    /// Channel-wise bitwise or.
    pub open spec fn spec_bitor(self, o: Color) -> Color {
        Color { r: self.r | o.r, g: self.g | o.g, b: self.b | o.b, a: self.a | o.a }
    }

    /// Channel-wise bitwise exclusive or.
    pub open spec fn spec_bitxor(self, o: Color) -> Color {
        Color { r: self.r ^ o.r, g: self.g ^ o.g, b: self.b ^ o.b, a: self.a ^ o.a }
    }

    /// Channel-wise remainder.
    pub open spec fn spec_rem(self, o: Color) -> Color {
        Color { r: self.r % o.r, g: self.g % o.g, b: self.b % o.b, a: self.a % o.a }
    }

    /// The remainder of each channel by `n`.
    pub open spec fn spec_rem_u8(self, n: u8) -> Color {
        Color { r: self.r % n, g: self.g % n, b: self.b % n, a: self.a % n }
    }

    /// No channel of the color is zero.
    pub open spec fn no_zero_channel(self) -> bool {
        self.r != 0 && self.g != 0 && self.b != 0 && self.a != 0
    }

    /// The packed value `0xRRGGBBAA` of the color, as a number.
    pub open spec fn spec_packed(self) -> int {
        self.r * 0x1000000 + self.g * 0x10000 + self.b * 0x100 + self.a
    }

    /// The color whose packed value is `v`: each channel is one byte of `v`,
    /// red the most significant.
    pub open spec fn spec_from_packed(v: u32) -> Color {
        Color {
            r: (v / 0x1000000) as u8,
            g: ((v / 0x10000) % 0x100) as u8,
            b: ((v / 0x100) % 0x100) as u8,
            a: (v % 0x100) as u8,
        }
    }

    /// Construct a color from RGBA components.
    pub fn rgba(r: u8, g: u8, b: u8, a: u8) -> (c: Color)
        ensures
            c == (Color { r, g, b, a }),
    {
        Color { r, g, b, a }
    }

    /// Construct a fully-opaque color from RGB components.
    pub fn rgb(r: u8, g: u8, b: u8) -> (c: Color)
        ensures
            c == (Color { r, g, b, a: 255 }),
    {
        Color::rgba(r, g, b, 255)
    }

    /// Pack the color into an RGBA hexadecimal value.
    pub fn packed(self) -> (v: u32)
        ensures
            v == self.spec_packed(),
    {
        let (r, g, b, a) = (self.r, self.g, self.b, self.a);
        proof {
            lemma_pack_bits(r, g, b, a);
        }
        (r as u32) << 24u32 | (g as u32) << 16u32 | (b as u32) << 8u32 | (a as u32)
    }

    /// The packed value as eight lowercase hexadecimal digits, `rrggbbaa`.
    pub fn to_string(&self) -> (s: String)
        ensures
            s@ == hex_text(self.spec_packed() as nat, 8),
    {
        let mut s = String::new();
        push_hex(&mut s, self.packed(), 8);
        s
    }

    /// Unpack a color from an RGBA hexadecimal value.
    pub fn from_packed(v: u32) -> (c: Color)
        ensures
            c == Color::spec_from_packed(v),
    {
        proof {
            lemma_unpack_bits(v);
        }
        Color { r: (v >> 24u32) as u8, g: (v >> 16u32) as u8, b: (v >> 8u32) as u8, a: v as u8 }
    }
}


impl core::ops::Add<Color> for Color {
    type Output = Color;

    /// Channel-wise addition, saturating at 255.
    fn add(self, other: Color) -> (c: Color)
        ensures
            c == self.spec_add(other),
    {
        Color::rgba(
            self.r.saturating_add(other.r),
            self.g.saturating_add(other.g),
            self.b.saturating_add(other.b),
            self.a.saturating_add(other.a),
        )
    }
}

impl vstd::std_specs::ops::AddSpecImpl<Color> for Color {
    open spec fn obeys_add_spec() -> bool {
        true
    }

    open spec fn add_req(self, other: Color) -> bool {
        true
    }

    open spec fn add_spec(self, other: Color) -> Color {
        self.spec_add(other)
    }
}

impl core::ops::AddAssign<Color> for Color {
    fn add_assign(&mut self, other: Color)
        ensures
            *final(self) == old(self).spec_add(other),
    {
        *self = *self + other;
    }
}

impl core::ops::Sub<Color> for Color {
    type Output = Color;

    /// Channel-wise subtraction, saturating at 0.
    fn sub(self, other: Color) -> (c: Color)
        ensures
            c == self.spec_sub(other),
    {
        Color::rgba(
            self.r.saturating_sub(other.r),
            self.g.saturating_sub(other.g),
            self.b.saturating_sub(other.b),
            self.a.saturating_sub(other.a),
        )
    }
}

impl vstd::std_specs::ops::SubSpecImpl<Color> for Color {
    open spec fn obeys_sub_spec() -> bool {
        true
    }

    open spec fn sub_req(self, other: Color) -> bool {
        true
    }

    open spec fn sub_spec(self, other: Color) -> Color {
        self.spec_sub(other)
    }
}

impl core::ops::SubAssign<Color> for Color {
    fn sub_assign(&mut self, other: Color)
        ensures
            *final(self) == old(self).spec_sub(other),
    {
        *self = *self - other;
    }
}

impl core::ops::BitAnd<Color> for Color {
    type Output = Color;

    /// Bitwise and of the packed values.
    fn bitand(self, other: Color) -> (c: Color)
        ensures
            c == self.spec_bitand(other),
    {
        let p = self.packed();
        let q = other.packed();
        proof {
            lemma_packed_bitwise(self, other);
        }
        Color::from_packed(p & q)
    }
}

impl vstd::std_specs::ops::BitAndSpecImpl<Color> for Color {
    open spec fn obeys_bitand_spec() -> bool {
        true
    }

    open spec fn bitand_req(self, other: Color) -> bool {
        true
    }

    open spec fn bitand_spec(self, other: Color) -> Color {
        self.spec_bitand(other)
    }
}

impl core::ops::BitAndAssign<Color> for Color {
    fn bitand_assign(&mut self, other: Color)
        ensures
            *final(self) == old(self).spec_bitand(other),
    {
        *self = *self & other;
    }
}

impl core::ops::BitOr<Color> for Color {
    type Output = Color;

    /// Bitwise or of the packed values.
    fn bitor(self, other: Color) -> (c: Color)
        ensures
            c == self.spec_bitor(other),
    {
        let p = self.packed();
        let q = other.packed();
        proof {
            lemma_packed_bitwise(self, other);
        }
        Color::from_packed(p | q)
    }
}

impl vstd::std_specs::ops::BitOrSpecImpl<Color> for Color {
    open spec fn obeys_bitor_spec() -> bool {
        true
    }

    open spec fn bitor_req(self, other: Color) -> bool {
        true
    }

    open spec fn bitor_spec(self, other: Color) -> Color {
        self.spec_bitor(other)
    }
}

impl core::ops::BitOrAssign<Color> for Color {
    fn bitor_assign(&mut self, other: Color)
        ensures
            *final(self) == old(self).spec_bitor(other),
    {
        *self = *self | other;
    }
}

impl core::ops::BitXor<Color> for Color {
    type Output = Color;

    /// Bitwise exclusive or of the packed values.
    fn bitxor(self, other: Color) -> (c: Color)
        ensures
            c == self.spec_bitxor(other),
    {
        let p = self.packed();
        let q = other.packed();
        proof {
            lemma_packed_bitwise(self, other);
        }
        Color::from_packed(p ^ q)
    }
}

impl vstd::std_specs::ops::BitXorSpecImpl<Color> for Color {
    open spec fn obeys_bitxor_spec() -> bool {
        true
    }

    open spec fn bitxor_req(self, other: Color) -> bool {
        true
    }

    open spec fn bitxor_spec(self, other: Color) -> Color {
        self.spec_bitxor(other)
    }
}

impl core::ops::BitXorAssign<Color> for Color {
    fn bitxor_assign(&mut self, other: Color)
        ensures
            *final(self) == old(self).spec_bitxor(other),
    {
        *self = *self ^ other;
    }
}

impl core::ops::Rem<Color> for Color {
    type Output = Color;

    /// Channel-wise remainder; no channel of `other` may be zero.
    fn rem(self, other: Color) -> (c: Color)
        ensures
            c == self.spec_rem(other),
    {
        Color::rgba(self.r % other.r, self.g % other.g, self.b % other.b, self.a % other.a)
    }
}

impl vstd::std_specs::ops::RemSpecImpl<Color> for Color {
    open spec fn obeys_rem_spec() -> bool {
        true
    }

    open spec fn rem_req(self, other: Color) -> bool {
        other.no_zero_channel()
    }

    open spec fn rem_spec(self, other: Color) -> Color {
        self.spec_rem(other)
    }
}

impl core::ops::RemAssign<Color> for Color {
    fn rem_assign(&mut self, other: Color)
        requires
            other.no_zero_channel(),
        ensures
            *final(self) == old(self).spec_rem(other),
    {
        *self = *self % other;
    }
}

impl core::ops::Rem<u8> for Color {
    type Output = Color;

    /// The remainder of each channel by `n`, which may not be zero.
    fn rem(self, n: u8) -> (c: Color)
        ensures
            c == self.spec_rem_u8(n),
    {
        Color::rgba(self.r % n, self.g % n, self.b % n, self.a % n)
    }
}

impl vstd::std_specs::ops::RemSpecImpl<u8> for Color {
    open spec fn obeys_rem_spec() -> bool {
        true
    }

    open spec fn rem_req(self, n: u8) -> bool {
        n != 0
    }

    open spec fn rem_spec(self, n: u8) -> Color {
        self.spec_rem_u8(n)
    }
}

impl core::ops::RemAssign<u8> for Color {
    fn rem_assign(&mut self, n: u8)
        requires
            n != 0,
        ensures
            *final(self) == old(self).spec_rem_u8(n),
    {
        *self = *self % n;
    }
}

impl core::ops::Index<usize> for Color {
    type Output = u8;

    /// Channel `index`: red, green, blue and alpha for 0 to 3.
    fn index(&self, index: usize) -> (v: &u8)
        ensures
            *v == self.channel(index as int),
    {
        if index == 0 {
            &self.r
        } else if index == 1 {
            &self.g
        } else if index == 2 {
            &self.b
        } else {
            &self.a
        }
    }
}

impl vstd::std_specs::core::IndexSpecImpl<usize> for Color {
    open spec fn index_req(&self, index: &usize) -> bool {
        *index < 4
    }
}

impl From<u32> for Color {
    fn from(v: u32) -> (c: Color)
        ensures
            c == Color::spec_from_packed(v),
    {
        Color::from_packed(v)
    }
}

impl vstd::std_specs::convert::FromSpecImpl<u32> for Color {
    open spec fn obeys_from_spec() -> bool {
        true
    }

    open spec fn from_spec(v: u32) -> Color {
        Color::spec_from_packed(v)
    }
}

impl From<Color> for u32 {
    fn from(c: Color) -> (v: u32)
        ensures
            v == c.spec_packed(),
    {
        c.packed()
    }
}

impl vstd::std_specs::convert::FromSpecImpl<Color> for u32 {
    open spec fn obeys_from_spec() -> bool {
        true
    }

    open spec fn from_spec(c: Color) -> u32 {
        c.spec_packed() as u32
    }
}

impl From<(u8, u8, u8, u8)> for Color {
    fn from(t: (u8, u8, u8, u8)) -> (c: Color)
        ensures
            c == (Color { r: t.0, g: t.1, b: t.2, a: t.3 }),
    {
        Color::rgba(t.0, t.1, t.2, t.3)
    }
}

impl vstd::std_specs::convert::FromSpecImpl<(u8, u8, u8, u8)> for Color {
    open spec fn obeys_from_spec() -> bool {
        true
    }

    open spec fn from_spec(t: (u8, u8, u8, u8)) -> Color {
        Color { r: t.0, g: t.1, b: t.2, a: t.3 }
    }
}

impl From<Color> for (u8, u8, u8, u8) {
    fn from(c: Color) -> (t: (u8, u8, u8, u8))
        ensures
            t == (c.r, c.g, c.b, c.a),
    {
        (c.r, c.g, c.b, c.a)
    }
}

impl vstd::std_specs::convert::FromSpecImpl<Color> for (u8, u8, u8, u8) {
    open spec fn obeys_from_spec() -> bool {
        true
    }

    open spec fn from_spec(c: Color) -> (u8, u8, u8, u8) {
        (c.r, c.g, c.b, c.a)
    }
}

impl From<[u8; 4]> for Color {
    fn from(v: [u8; 4]) -> (c: Color)
        ensures
            c == (Color { r: v@[0], g: v@[1], b: v@[2], a: v@[3] }),
    {
        Color::rgba(v[0], v[1], v[2], v[3])
    }
}

impl vstd::std_specs::convert::FromSpecImpl<[u8; 4]> for Color {
    open spec fn obeys_from_spec() -> bool {
        true
    }

    open spec fn from_spec(v: [u8; 4]) -> Color {
        Color { r: v@[0], g: v@[1], b: v@[2], a: v@[3] }
    }
}

impl From<Color> for [u8; 4] {
    fn from(c: Color) -> (v: [u8; 4])
        ensures
            v@ == seq![c.r, c.g, c.b, c.a],
    {
        [c.r, c.g, c.b, c.a]
    }
}

impl vstd::std_specs::convert::FromSpecImpl<Color> for [u8; 4] {
    open spec fn obeys_from_spec() -> bool {
        true
    }

    open spec fn from_spec(c: Color) -> [u8; 4] {
        [c.r, c.g, c.b, c.a]
    }
}

/// The packed value of a channel-wise bitwise combination is the same
/// combination of the packed values.
proof fn lemma_packed_bitwise(x: Color, y: Color)
    ensures
        Color::spec_from_packed((x.spec_packed() as u32) & (y.spec_packed() as u32))
            == x.spec_bitand(y),
        Color::spec_from_packed((x.spec_packed() as u32) | (y.spec_packed() as u32))
            == x.spec_bitor(y),
        Color::spec_from_packed((x.spec_packed() as u32) ^ (y.spec_packed() as u32))
            == x.spec_bitxor(y),
{
    lemma_pack_bits(x.r, x.g, x.b, x.a);
    lemma_pack_bits(y.r, y.g, y.b, y.a);
    let (r1, g1, b1, a1) = (x.r, x.g, x.b, x.a);
    let (r2, g2, b2, a2) = (y.r, y.g, y.b, y.a);
    let p = (r1 as u32) << 24u32 | (g1 as u32) << 16u32 | (b1 as u32) << 8u32 | (a1 as u32);
    let q = (r2 as u32) << 24u32 | (g2 as u32) << 16u32 | (b2 as u32) << 8u32 | (a2 as u32);
    assert(((p & q) / 0x1000000) as u8 == r1 & r2 && (((p & q) / 0x10000) % 0x100) as u8 == g1
        & g2 && (((p & q) / 0x100) % 0x100) as u8 == b1 & b2 && ((p & q) % 0x100) as u8 == a1
        & a2) by (bit_vector)
        requires
            p == (r1 as u32) << 24u32 | (g1 as u32) << 16u32 | (b1 as u32) << 8u32 | (a1 as u32),
            q == (r2 as u32) << 24u32 | (g2 as u32) << 16u32 | (b2 as u32) << 8u32 | (a2 as u32),
    ;
    assert(((p | q) / 0x1000000) as u8 == r1 | r2 && (((p | q) / 0x10000) % 0x100) as u8 == g1
        | g2 && (((p | q) / 0x100) % 0x100) as u8 == b1 | b2 && ((p | q) % 0x100) as u8 == a1
        | a2) by (bit_vector)
        requires
            p == (r1 as u32) << 24u32 | (g1 as u32) << 16u32 | (b1 as u32) << 8u32 | (a1 as u32),
            q == (r2 as u32) << 24u32 | (g2 as u32) << 16u32 | (b2 as u32) << 8u32 | (a2 as u32),
    ;
    assert(((p ^ q) / 0x1000000) as u8 == r1 ^ r2 && (((p ^ q) / 0x10000) % 0x100) as u8 == g1
        ^ g2 && (((p ^ q) / 0x100) % 0x100) as u8 == b1 ^ b2 && ((p ^ q) % 0x100) as u8 == a1
        ^ a2) by (bit_vector)
        requires
            p == (r1 as u32) << 24u32 | (g1 as u32) << 16u32 | (b1 as u32) << 8u32 | (a1 as u32),
            q == (r2 as u32) << 24u32 | (g2 as u32) << 16u32 | (b2 as u32) << 8u32 | (a2 as u32),
    ;
}

proof fn lemma_pack_bits(r: u8, g: u8, b: u8, a: u8)
    ensures
        ((r as u32) << 24u32 | (g as u32) << 16u32 | (b as u32) << 8u32 | (a as u32)) == r
            * 0x1000000 + g * 0x10000 + b * 0x100 + a,
{
    assert(((r as u32) << 24u32 | (g as u32) << 16u32 | (b as u32) << 8u32 | (a as u32)) == r
        * 0x1000000 + g * 0x10000 + b * 0x100 + a) by (bit_vector);
}

proof fn lemma_unpack_bits(v: u32)
    ensures
        (v >> 24u32) as u8 == (v / 0x1000000) as u8,
        (v >> 16u32) as u8 == ((v / 0x10000) % 0x100) as u8,
        (v >> 8u32) as u8 == ((v / 0x100) % 0x100) as u8,
        v as u8 == (v % 0x100) as u8,
{
    assert((v >> 24u32) as u8 == (v / 0x1000000) as u8) by (bit_vector);
    assert((v >> 16u32) as u8 == ((v / 0x10000) % 0x100) as u8) by (bit_vector);
    assert((v >> 8u32) as u8 == ((v / 0x100) % 0x100) as u8) by (bit_vector);
    assert(v as u8 == (v % 0x100) as u8) by (bit_vector);
}

/// Packing a color and unpacking the result gives the color back, and
/// unpacking a 32-bit value and packing the color gives the value back.
pub proof fn lemma_packed_round_trip(c: Color, v: u32)
    ensures
        Color::spec_from_packed(c.spec_packed() as u32) == c,
        Color::spec_from_packed(v).spec_packed() == v,
{
    let (r, g, b, a) = (c.r, c.g, c.b, c.a);
    lemma_pack_bits(r, g, b, a);
    let p = ((r as u32) << 24u32 | (g as u32) << 16u32 | (b as u32) << 8u32 | (a as u32));
    assert((p / 0x1000000) as u8 == r && ((p / 0x10000) % 0x100) as u8 == g && ((p / 0x100)
        % 0x100) as u8 == b && (p % 0x100) as u8 == a) by (bit_vector)
        requires
            p == ((r as u32) << 24u32 | (g as u32) << 16u32 | (b as u32) << 8u32 | (a as u32)),
    ;
    assert((v / 0x1000000) as u8 * 0x1000000 + ((v / 0x10000) % 0x100) as u8 * 0x10000 + ((v
        / 0x100) % 0x100) as u8 * 0x100 + (v % 0x100) as u8 == v) by (bit_vector);
}

} // verus!
