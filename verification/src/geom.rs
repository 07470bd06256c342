//! Screen-space primitives over fixed-point coordinates.

use vstd::prelude::*;
use crate::fixed::Fixed;

verus! {

/// A point in screen space.
#[derive(Clone, Copy, PartialEq, Eq, Structural, Debug)]
pub struct Pos {
    pub x: Fixed,
    pub y: Fixed,
}

impl Pos {
    pub fn new(x: Fixed, y: Fixed) -> (r: Self)
        ensures
            r.x == x && r.y == y,
    {
        Pos { x, y }
    }
}

/// An extent (width and height, or a direction vector).
#[derive(Clone, Copy, PartialEq, Eq, Structural, Debug)]
pub struct Size {
    pub x: Fixed,
    pub y: Fixed,
}

impl Size {
    pub fn new(x: Fixed, y: Fixed) -> (r: Self)
        ensures
            r.x == x && r.y == y,
    {
        Size { x, y }
    }
}

/// An axis-aligned rectangle, from `min` (top left) to `max` (bottom right).
#[derive(Clone, Copy, PartialEq, Eq, Structural, Debug)]
pub struct Rect {
    pub min: Pos,
    pub max: Pos,
}

impl Rect {
    pub fn new(min: Pos, max: Pos) -> (r: Self)
        ensures
            r.min == min && r.max == max,
    {
        Rect { min, max }
    }
}

/// An opaque color, one byte per channel.
#[derive(Clone, Copy, PartialEq, Eq, Structural, Debug)]
pub struct Rgb {
    pub r: u8,
    pub g: u8,
    pub b: u8,
}

impl Rgb {
    pub fn new(r: u8, g: u8, b: u8) -> (c: Self)
        ensures
            c.r == r && c.g == g && c.b == b,
    {
        Rgb { r, g, b }
    }
}

} // verus!
