//! Packed 32-bit colors: `0x00RRGGBB`, one byte per channel.

use vstd::prelude::*;

verus! {

#[derive(Debug, PartialEq, Eq, Structural, Clone, Copy)]
pub struct Color(pub u32);

/// The packed word of three channel bytes.
pub open spec fn rgb_s(r: u8, g: u8, b: u8) -> u32 {
    ((r as u32) << 16) | ((g as u32) << 8) | (b as u32)
}

/// One channel added with saturation at the byte range.
pub open spec fn sat_add_s(a: u8, b: u8) -> u8 {
    if a + b > 255 {
        255u8
    } else {
        (a + b) as u8
    }
}

/// One channel subtracted with saturation at zero.
pub open spec fn sat_sub_s(a: u8, b: u8) -> u8 {
    if a - b < 0 {
        0u8
    } else {
        (a - b) as u8
    }
}

impl Color {
    pub fn new(color: u32) -> (r: Self)
        ensures
            r == (Color(color)),
    {
        Color(color)
    }

    pub fn from_rgb(r: u8, g: u8, b: u8) -> (c: Self)
        ensures
            c == (Color(rgb_s(r, g, b))),
    {
        let color = ((r as u32) << 16) | ((g as u32) << 8) | (b as u32);
        Color(color)
    }

    /// The three channel bytes of the packed word.
    pub open spec fn to_rgb_s(self) -> (u8, u8, u8) {
        ((self.0 >> 16) as u8, (self.0 >> 8) as u8, self.0 as u8)
    }

    pub fn to_rgb(&self) -> (r: (u8, u8, u8))
        ensures
            r == self.to_rgb_s(),
    {
        (#[verifier::truncate] ((self.0 >> 16) as u8), #[verifier::truncate] ((self.0 >> 8) as u8), #[verifier::truncate] (self.0 as u8))
    }

    /// Channelwise saturating sum.
    pub fn add(self, rhs: Self) -> (r: Self)
        ensures
            r == (Color(rgb_s(
                sat_add_s(self.to_rgb_s().0, rhs.to_rgb_s().0),
                sat_add_s(self.to_rgb_s().1, rhs.to_rgb_s().1),
                sat_add_s(self.to_rgb_s().2, rhs.to_rgb_s().2),
            ))),
    {
        let (r1, g1, b1) = self.to_rgb();
        let (r2, g2, b2) = rhs.to_rgb();
        Color::from_rgb(sat_add(r1, r2), sat_add(g1, g2), sat_add(b1, b2))
    }

    /// Channelwise saturating difference.
    pub fn sub(self, rhs: Self) -> (r: Self)
        ensures
            r == (Color(rgb_s(
                sat_sub_s(self.to_rgb_s().0, rhs.to_rgb_s().0),
                sat_sub_s(self.to_rgb_s().1, rhs.to_rgb_s().1),
                sat_sub_s(self.to_rgb_s().2, rhs.to_rgb_s().2),
            ))),
    {
        let (r1, g1, b1) = self.to_rgb();
        let (r2, g2, b2) = rhs.to_rgb();
        Color::from_rgb(sat_sub(r1, r2), sat_sub(g1, g2), sat_sub(b1, b2))
    }
}

fn sat_add(a: u8, b: u8) -> (r: u8)
    ensures
        r == sat_add_s(a, b),
{
    let s: u16 = a as u16 + b as u16;
    if s > 255 {
        255
    } else {
        s as u8
    }
}

fn sat_sub(a: u8, b: u8) -> (r: u8)
    ensures
        r == sat_sub_s(a, b),
{
    if a < b {
        0
    } else {
        a - b
    }
}

/// Packing three channel bytes and unpacking them returns the same bytes.
pub proof fn lemma_rgb_round_trip(r: u8, g: u8, b: u8)
    ensures
        Color(rgb_s(r, g, b)).to_rgb_s() == (r, g, b),
{
    assert((((r as u32) << 16) | ((g as u32) << 8) | (b as u32)) >> 16 == r as u32)
        by (bit_vector);
    assert(((((r as u32) << 16) | ((g as u32) << 8) | (b as u32)) >> 8) as u8 == g)
        by (bit_vector);
    assert(((((r as u32) << 16) | ((g as u32) << 8) | (b as u32))) as u8 == b) by (bit_vector);
}

} // verus!
