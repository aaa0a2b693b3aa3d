use vstd::prelude::*;

verus! {

/// A point on the drawing surface, in pixels.
#[derive(Clone, Copy, Debug, PartialEq, Eq, Structural)]
pub struct Point {
    pub x: i32,
    pub y: i32,
}

/// An axis-aligned rectangle: top-left corner and size, in pixels.
#[derive(Clone, Copy, Debug, PartialEq, Eq, Structural)]
pub struct Rect {
    pub x: i32,
    pub y: i32,
    pub w: i32,
    pub h: i32,
}

/// A polygon, held as its vertices. The drawing surface renders it as the
/// bare vertex sequence (not connected edges), so the vertices are all there
/// is to it.
#[derive(Debug)]
pub struct Polygon {
    pub points: Vec<Point>,
}

/// An RGBA colour as the drawing surface keeps it: one byte per channel.
#[derive(Clone, Copy, Debug, PartialEq, Eq, Structural)]
pub struct Color {
    pub r: u8,
    pub g: u8,
    pub b: u8,
    pub a: u8,
}

} // verus!
