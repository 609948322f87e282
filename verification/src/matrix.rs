//! 4x4 model matrices, carried as 16 column-major float words.
//!
//! The three matrix constructors and their product are computed by `glam`;
//! each is a pure function of its whole-number arguments, so the library
//! names the results and composes them in verified code.

use vstd::prelude::*;

verus! {

/// The column-major words of `glam::Mat4::from_translation((x, y, 0))`.
pub uninterp spec fn translation_words(x: int, y: int) -> Seq<u32>;

/// The column-major words of `glam::Mat4::from_rotation_z(angle)`, the
/// angle handed over as a whole number.
pub uninterp spec fn rotation_z_words(angle: int) -> Seq<u32>;

/// The column-major words of the product of two matrices given by their
/// column-major words.
pub uninterp spec fn matrix_product_words(a: Seq<u32>, b: Seq<u32>) -> Seq<u32>;

/// Relies on `glam::Mat4::from_translation`: the translation matrix is a
/// pure function of the translation vector, here `(x, y, 0)` converted from
/// whole numbers by `glam::I64Vec3::as_vec3`.
#[verifier::external_body]
pub(crate) fn translation_matrix(x: i64, y: i64) -> (m: [u32; 16])
    ensures
        m@ == translation_words(x as int, y as int),
{
    let t = glam::Mat4::from_translation(glam::I64Vec3::new(x, y, 0).as_vec3());
    bytemuck::cast(t.to_cols_array())
}

/// Relies on `glam::Mat4::from_rotation_z`: the rotation matrix is a pure
/// function of the angle, here converted from a whole number by
/// `glam::I64Vec2::as_vec2`.
#[verifier::external_body]
pub(crate) fn rotation_z_matrix(angle: i64) -> (m: [u32; 16])
    ensures
        m@ == rotation_z_words(angle as int),
{
    let a = glam::I64Vec2::new(angle, 0).as_vec2();
    let r = glam::Mat4::from_rotation_z(a.x);
    bytemuck::cast(r.to_cols_array())
}

/// Relies on `glam::Mat4`'s `Mul`: the product is a pure function of the
/// two factors, carried in and out as column-major words.
#[verifier::external_body]
pub(crate) fn matrix_product(a: &[u32; 16], b: &[u32; 16]) -> (m: [u32; 16])
    ensures
        m@ == matrix_product_words(a@, b@),
{
    let fa = glam::Mat4::from_cols_array(&bytemuck::cast(*a));
    let fb = glam::Mat4::from_cols_array(&bytemuck::cast(*b));
    bytemuck::cast((fa * fb).to_cols_array())
}

} // verus!
