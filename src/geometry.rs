use vstd::prelude::*;

verus! {

/// A width and a height in physical pixels.
#[derive(Clone, Copy, Debug, PartialEq, Eq, Structural)]
pub struct Size {
    pub width: u32,
    pub height: u32,
}

/// A top-left window position in physical pixels; either coordinate may be negative.
#[derive(Clone, Copy, Debug, PartialEq, Eq, Structural)]
pub struct Position {
    pub x: i64,
    pub y: i64,
}

impl Size {
    pub fn new(width: u32, height: u32) -> (r: Size)
        ensures
            r.width == width,
            r.height == height,
    {
        Size { width, height }
    }
}

impl Position {
    pub fn new(x: i64, y: i64) -> (r: Position)
        ensures
            r.x == x,
            r.y == y,
    {
        Position { x, y }
    }

    /// The coordinates as 32-bit values, the toolkit's position type, when both fit.
    pub fn to_i32_pair(&self) -> (r: Option<(i32, i32)>)
        ensures
            r is Some <==> (i32::MIN <= self.x <= i32::MAX && i32::MIN <= self.y <= i32::MAX),
            r is Some ==> r->Some_0.0 == self.x && r->Some_0.1 == self.y,
    {
        if i32::MIN as i64 <= self.x && self.x <= i32::MAX as i64 && i32::MIN as i64 <= self.y
            && self.y <= i32::MAX as i64 {
            Some((self.x as i32, self.y as i32))
        } else {
            None
        }
    }
}

} // verus!
