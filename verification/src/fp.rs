//! The bridge between whole-unit values and the 32-bit float words that the
//! GPU consumes.
//!
//! Verified code never computes with floats; it carries each float as its
//! bit pattern (a `u32` word). The one conversion from a whole number to
//! such a word is trusted and named by [`f32_from_int`].

use vstd::prelude::*;

verus! {

/// The bit pattern of the 32-bit float nearest to the whole number `v`.
pub uninterp spec fn f32_from_int(v: int) -> u32;

/// Relies on `glam::I64Vec2::as_vec2` to turn a whole number into the
/// nearest 32-bit float, and on `bytemuck::cast` to read its bit pattern.
/// The result depends on `v` alone.
#[verifier::external_body]
pub(crate) fn f32_bits(v: i64) -> (w: u32)
    ensures
        w == f32_from_int(v as int),
{
    let f = glam::I64Vec2::new(v, 0).as_vec2();
    bytemuck::cast(f.x)
}

} // verus!
