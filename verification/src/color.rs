//! Colours in RGB form, and their conversion to the normalized float
//! quadruples that the shader's vertex record carries.

use vstd::prelude::*;

use crate::fp::f32_bits;
use crate::fp::f32_from_int;

verus! {

/// A colour in RGB format, one byte per channel.
#[derive(Clone, Copy, Debug, PartialEq, Eq, Structural)]
pub struct Color(pub u8, pub u8, pub u8);

pub fn black() -> (c: Color)
    ensures
        c == Color(0, 0, 0),
{
    Color(0, 0, 0)
}

pub fn white() -> (c: Color)
    ensures
        c == Color(255, 255, 255),
{
    Color(255, 255, 255)
}

pub fn red() -> (c: Color)
    ensures
        c == Color(255, 0, 0),
{
    Color(255, 0, 0)
}

pub fn green() -> (c: Color)
    ensures
        c == Color(0, 255, 0),
{
    Color(0, 255, 0)
}

pub fn blue() -> (c: Color)
    ensures
        c == Color(0, 0, 255),
{
    Color(0, 0, 255)
}

impl Color {
    /// The normalized form of the colour: each channel divided by 255 in
    /// whole-number arithmetic, plus a full alpha channel, all four as
    /// float words.
    pub open spec fn normalized_spec(self) -> Seq<u32> {
        seq![
            f32_from_int(self.0 as int / 255),
            f32_from_int(self.1 as int / 255),
            f32_from_int(self.2 as int / 255),
            f32_from_int(1),
        ]
    }

    /// The colour as the RGBA float-word quadruple written into vertex
    /// records.
    pub fn normalized(&self) -> (r: [u32; 4])
        ensures
            r@ == self.normalized_spec(),
    {
        let words = [
            f32_bits((self.0 / 255) as i64),
            f32_bits((self.1 / 255) as i64),
            f32_bits((self.2 / 255) as i64),
            f32_bits(1),
        ];
        assert(words@ =~= self.normalized_spec());
        words
    }
}

} // verus!
