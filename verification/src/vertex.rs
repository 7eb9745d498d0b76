//! Points, colours and vertices of the fixed-point drawing plane.
//!
//! Every quantity is a whole number of steps, `UNIT` steps to one. Pointer
//! positions, sizes and colour channels are 32-bit; a vertex coordinate is
//! 64-bit, so that a position moved by a size is always exact.
use vstd::prelude::*;

verus! {

/// Number of steps in one whole unit of the plane, and in a full colour channel.
pub const UNIT: i32 = 1_000_000;

/// A pointer position.
#[derive(Clone, Copy, Debug, PartialEq, Eq, Hash)]
pub struct Point {
    pub x: i32,
    pub y: i32,
}

/// Red, green, blue and alpha, each `0` for none and `UNIT` for full.
#[derive(Clone, Copy, Debug, PartialEq, Eq, Hash)]
pub struct Color {
    pub r: i32,
    pub g: i32,
    pub b: i32,
    pub a: i32,
}

/// One corner of a triangle, as the renderer consumes it.
#[derive(Clone, Copy, Debug, PartialEq, Eq, Hash)]
pub struct Vertex {
    pub x: i64,
    pub y: i64,
    pub color: Color,
}

impl Color {
    /// Opaque black.
    pub open spec fn spec_black() -> Color {
        Color { r: 0, g: 0, b: 0, a: UNIT }
    }

    /// Opaque white.
    pub open spec fn spec_white() -> Color {
        Color { r: UNIT, g: UNIT, b: UNIT, a: UNIT }
    }

    /// Opaque black.
    #[verifier::when_used_as_spec(spec_black)]
    pub fn black() -> (c: Color)
        ensures
            c == Color::spec_black(),
    {
        Color { r: 0, g: 0, b: 0, a: UNIT }
    }

    /// Opaque white.
    #[verifier::when_used_as_spec(spec_white)]
    pub fn white() -> (c: Color)
        ensures
            c == Color::spec_white(),
    {
        Color { r: UNIT, g: UNIT, b: UNIT, a: UNIT }
    }
}

/// The vertex at `at` in `color`.
pub open spec fn corner(at: (int, int), color: Color) -> Vertex {
    Vertex { x: at.0 as i64, y: at.1 as i64, color }
}

/// The two triangles `a b c` and `b d c` in one colour: the quad with the
/// sides `a b` and `c d`.
pub open spec fn quad(a: (int, int), b: (int, int), c: (int, int), d: (int, int), color: Color) -> Seq<
    Vertex,
> {
    seq![
        corner(a, color),
        corner(b, color),
        corner(c, color),
        corner(b, color),
        corner(d, color),
        corner(c, color),
    ]
}

/// The axis-aligned square around `center` that reaches `half` to each side:
/// top left, bottom left, top right; bottom left, bottom right, top right.
pub open spec fn square(center: Point, half: i32, color: Color) -> Seq<Vertex> {
    quad(
        (center.x - half, center.y + half),
        (center.x - half, center.y - half),
        (center.x + half, center.y + half),
        (center.x + half, center.y - half),
        color,
    )
}

/// Appends the square around `center` to `vertices`.
pub fn push_square(vertices: &mut Vec<Vertex>, center: Point, half: i32, color: Color)
    ensures
        final(vertices)@ == old(vertices)@ + square(center, half, color),
{
    let left: i64 = center.x as i64 - half as i64;
    let right: i64 = center.x as i64 + half as i64;
    let bottom: i64 = center.y as i64 - half as i64;
    let top: i64 = center.y as i64 + half as i64;
    vertices.push(Vertex { x: left, y: top, color });
    vertices.push(Vertex { x: left, y: bottom, color });
    vertices.push(Vertex { x: right, y: top, color });
    vertices.push(Vertex { x: left, y: bottom, color });
    vertices.push(Vertex { x: right, y: bottom, color });
    vertices.push(Vertex { x: right, y: top, color });
    assert(vertices@ =~= old(vertices)@ + square(center, half, color));
}

} // verus!
