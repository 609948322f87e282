//! CPU-side transform state and its derived model matrix.
//!
//! A transform is four plain fields; the model matrix is always recomputed
//! in full from them — never accumulated — as
//! `translate(position) * rotate_z(rotation) * translate(-origin)`.

use vstd::prelude::*;

use crate::math::Vec2;
use crate::matrix::matrix_product;
use crate::matrix::matrix_product_words;
use crate::matrix::rotation_z_matrix;
use crate::matrix::rotation_z_words;
use crate::matrix::translation_matrix;
use crate::matrix::translation_words;

verus! {

/// Position, rotation (in degrees), scale and origin of a drawable.
///
/// The origin is the pivot subtracted before rotation. The scale is kept as
/// state but takes no part in the model matrix.
#[derive(Clone, Copy, Debug, PartialEq, Eq, Structural)]
pub struct Transform {
    pub position: Vec2,
    pub rotation: i32,
    pub scale: i32,
    pub origin: Vec2,
}

impl Default for Transform {
    fn default() -> (t: Transform)
        ensures
            t == Transform::default_spec(),
    {
        Transform {
            position: Vec2 { x: 0, y: 0 },
            rotation: 0,
            scale: 0,
            origin: Vec2 { x: 0, y: 0 },
        }
    }
}

/// What a rotation becomes when `delta` is added: past 360 degrees the
/// rotation resets to exactly 0, it does not wrap.
pub open spec fn rotated(rotation: int, delta: int) -> int {
    if rotation + delta > 360 {
        0
    } else {
        rotation + delta
    }
}

impl Transform {
    pub open spec fn default_spec() -> Transform {
        Transform {
            position: Vec2 { x: 0, y: 0 },
            rotation: 0,
            scale: 0,
            origin: Vec2 { x: 0, y: 0 },
        }
    }

    /// The column-major words of the transform's model matrix:
    /// `translate(position) * rotate_z(rotation) * translate(-origin)`,
    /// composed in exactly that order.
    pub open spec fn model_words(self) -> Seq<u32> {
        matrix_product_words(
            matrix_product_words(
                translation_words(self.position.x as int, self.position.y as int),
                rotation_z_words(self.rotation as int),
            ),
            translation_words(-(self.origin.x as int), -(self.origin.y as int)),
        )
    }

    /// Derives the model matrix from the four fields alone.
    pub fn to_model_matrix(&self) -> (m: [u32; 16])
        ensures
            m@ == self.model_words(),
    {
        let translation = translation_matrix(self.position.x as i64, self.position.y as i64);
        let rotation = rotation_z_matrix(self.rotation as i64);
        let origin = translation_matrix(-(self.origin.x as i64), -(self.origin.y as i64));
        matrix_product(&matrix_product(&translation, &rotation), &origin)
    }

    /// Adds `delta` to the rotation; a result past 360 degrees resets to 0.
    pub fn rotate(&mut self, delta: i32)
        requires
            old(self).rotation + delta >= i32::MIN,
        ensures
            final(self).rotation == rotated(old(self).rotation as int, delta as int),
            final(self).position == old(self).position,
            final(self).scale == old(self).scale,
            final(self).origin == old(self).origin,
    {
        let sum = self.rotation as i64 + delta as i64;
        if sum > 360 {
            self.rotation = 0;
        } else {
            self.rotation = sum as i32;
        }
    }
}

/// Rotating twice resets to exactly 0 whenever the second step would carry
/// the total past 360 degrees, whatever remainder a wrap would have kept.
pub proof fn lemma_rotate_overflow_resets(rotation: int, first: int, second: int)
    requires
        rotated(rotation, first) + second > 360,
    ensures
        rotated(rotated(rotation, first), second) == 0,
{
}

} // verus!
