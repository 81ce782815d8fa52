//! Geometry and draw instructions handed to a rendering backend.
use vstd::prelude::*;

verus! {

/// The largest magnitude a coordinate or extent may have: 2^40 millionths.
pub const COORD_MAX: i64 = 0x100_0000_0000;

pub open spec fn coord_ok(v: int) -> bool {
    -COORD_MAX <= v <= COORD_MAX
}

pub open spec fn max(a: int, b: int) -> int {
    if a > b { a } else { b }
}

pub open spec fn min(a: int, b: int) -> int {
    if a < b { a } else { b }
}

/// A point in fixed-point coordinates.
#[derive(Debug, Clone, Copy, PartialEq, Eq, Structural)]
pub struct Point {
    pub x: i64,
    pub y: i64,
}

/// An axis-aligned rectangle in fixed-point coordinates.
#[derive(Debug, Clone, Copy, PartialEq, Eq, Structural)]
pub struct Rectangle {
    pub x: i64,
    pub y: i64,
    pub w: i64,
    pub h: i64,
}

impl Rectangle {
    pub fn new(x: i64, y: i64, w: i64, h: i64) -> (r: Rectangle)
        ensures
            r == (Rectangle { x, y, w, h }),
    {
        Rectangle { x, y, w, h }
    }

    /// Whether every field lies within the coordinate bound.
    pub open spec fn bounded(&self) -> bool {
        &&& coord_ok(self.x as int)
        &&& coord_ok(self.y as int)
        &&& coord_ok(self.w as int)
        &&& coord_ok(self.h as int)
    }

    /// The overlap of two rectangles, where it has positive width and height.
    pub open spec fn clip_spec(&self, other: Rectangle) -> Option<Rectangle> {
        let x1 = max(self.x as int, other.x as int);
        let y1 = max(self.y as int, other.y as int);
        let x2 = min(self.x + self.w, other.x + other.w);
        let y2 = min(self.y + self.h, other.y + other.h);
        if x2 <= x1 || y2 <= y1 {
            None
        } else {
            Some(Rectangle { x: x1 as i64, y: y1 as i64, w: (x2 - x1) as i64, h: (y2 - y1) as i64 })
        }
    }

    /// The overlap of `self` and `other`, or `None` where it is empty.
    pub fn clip(&self, other: &Rectangle) -> (r: Option<Rectangle>)
        requires
            self.bounded(),
            other.bounded(),
        ensures
            r == self.clip_spec(*other),
    {
        let x1 = if self.x > other.x { self.x } else { other.x };
        let y1 = if self.y > other.y { self.y } else { other.y };
        let sx2 = self.x + self.w;
        let ox2 = other.x + other.w;
        let sy2 = self.y + self.h;
        let oy2 = other.y + other.h;
        let x2 = if sx2 < ox2 { sx2 } else { ox2 };
        let y2 = if sy2 < oy2 { sy2 } else { oy2 };
        if x2 <= x1 || y2 <= y1 {
            None
        } else {
            Some(Rectangle { x: x1, y: y1, w: x2 - x1, h: y2 - y1 })
        }
    }

    /// Whether `p` lies in the rectangle, edges included.
    pub open spec fn contains_spec(&self, p: Point) -> bool {
        self.x <= p.x <= self.x + self.w && self.y <= p.y <= self.y + self.h
    }

    /// Whether `p` lies in the rectangle, edges included.
    pub fn contains(&self, p: &Point) -> (r: bool)
        ensures
            r == self.contains_spec(*p),
    {
        let x2 = self.x as i128 + self.w as i128;
        let y2 = self.y as i128 + self.h as i128;
        self.x <= p.x && (p.x as i128) <= x2 && self.y <= p.y && (p.y as i128) <= y2
    }

    /// The top left corner.
    pub fn pos(&self) -> (r: Point)
        ensures
            r == (Point { x: self.x, y: self.y }),
    {
        Point { x: self.x, y: self.y }
    }
}

/// An RGBA color, each channel fixed-point in [0, 1].
#[derive(Debug, Clone, Copy, PartialEq, Eq, Structural)]
pub struct Color {
    pub r: i64,
    pub g: i64,
    pub b: i64,
    pub a: i64,
}

/// A mesh vertex: position, color and texture coordinates.
#[derive(Debug, Clone, Copy, PartialEq, Eq, Structural)]
pub struct Vertex {
    pub pos: Point,
    pub color: Color,
    pub uv: Point,
}

/// Mesh data ready for the backend, with an optional texture id.
#[derive(Debug)]
pub struct DrawMesh {
    pub verts: Vec<Vertex>,
    pub indices: Vec<u16>,
    pub texture: Option<u64>,
}

/// One rendering instruction.
#[derive(Debug)]
pub enum DrawInstruction {
    /// Moves the cursor by an offset.
    Move(Point),
    /// Draws a mesh at the cursor.
    Draw(DrawMesh),
    /// Clips to a rectangle and moves the origin to its corner.
    ApplyView(Rectangle),
}

/// The instructions that one visual object contributes to a frame.
#[derive(Debug)]
pub struct DrawCall {
    pub instrs: Vec<DrawInstruction>,
    pub z_index: u32,
}

impl DrawCall {
    /// An entry that draws nothing.
    pub fn empty() -> (r: DrawCall)
        ensures
            r.instrs@.len() == 0,
            r.z_index == 0,
    {
        DrawCall { instrs: Vec::new(), z_index: 0 }
    }
}

} // verus!
