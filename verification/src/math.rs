//! Plain 2D math values: vectors and axis-aligned rectangles.
//!
//! Coordinates are whole units stored as `i32`.

use vstd::prelude::*;

verus! {

/// A 2D vector with whole-unit coordinates.
#[derive(Clone, Copy, Debug, PartialEq, Eq, Structural)]
pub struct Vec2 {
    pub x: i32,
    pub y: i32,
}

impl Vec2 {
    pub fn new(x: i32, y: i32) -> (v: Vec2)
        ensures
            v == (Vec2 { x, y }),
    {
        Vec2 { x, y }
    }
}

impl Default for Vec2 {
    fn default() -> (v: Vec2)
        ensures
            v == (Vec2 { x: 0, y: 0 }),
    {
        Vec2 { x: 0, y: 0 }
    }
}

/// An axis-aligned rectangle: top-left corner plus extent.
#[derive(Clone, Copy, Debug, PartialEq, Eq, Structural)]
pub struct Rect {
    pub x: i32,
    pub y: i32,
    pub width: i32,
    pub height: i32,
}

impl Default for Rect {
    fn default() -> (r: Rect)
        ensures
            r == (Rect { x: 0, y: 0, width: 0, height: 0 }),
    {
        Rect { x: 0, y: 0, width: 0, height: 0 }
    }
}

impl Rect {
    /// The position of the rectangle's top-left corner.
    pub fn position(&self) -> (p: Vec2)
        ensures
            p == (Vec2 { x: self.x, y: self.y }),
    {
        Vec2 { x: self.x, y: self.y }
    }

    /// Whether `point` lies inside the rectangle, edges included.
    pub fn contains(&self, point: Vec2) -> (r: bool)
        ensures
            r == self.spec_contains(point),
    {
        let px = point.x as i64;
        let py = point.y as i64;
        px >= self.x as i64 && px <= self.x as i64 + self.width as i64 && py >= self.y as i64
            && py <= self.y as i64 + self.height as i64
    }

    pub open spec fn spec_contains(self, point: Vec2) -> bool {
        point.x >= self.x && point.x <= self.x + self.width && point.y >= self.y && point.y
            <= self.y + self.height
    }
}

} // verus!
