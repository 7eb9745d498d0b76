//! The line tool: a thick segment from where the stroke began to where the
//! pointer is.
use vstd::prelude::*;
use crate::root::{div_by_root, lemma_over_root_bound, magnitude, over_root};
use crate::tools::{Tool, ToolState};
use crate::vertex::{quad, Color, Point, Vertex};

verus! {

/// The line tool.
#[derive(Debug)]
pub struct Line {
    start: Option<Point>,
    end: Option<Point>,
    color: Color,
    thickness: i32,
}

/// What a `Line` holds.
pub struct LineView {
    pub start: Option<Point>,
    pub end: Option<Point>,
    pub color: Color,
    pub thickness: i32,
}

/// The step from the middle of a segment to its side: the direction from
/// `start` to `end` turned a quarter to the left and scaled to the length
/// `thickness`, each part rounded toward zero.
pub open spec fn side_step(start: Point, end: Point, thickness: i32) -> (int, int) {
    let dx = end.x - start.x;
    let dy = end.y - start.y;
    let s = dx * dx + dy * dy;
    (over_root(-dy * thickness, s), over_root(dx * thickness, s))
}

/// The quad around the segment from `start` to `end` that reaches
/// `thickness` to each side; nothing where the two points are the same.
pub open spec fn segment_geometry(start: Point, end: Point, thickness: i32, color: Color) -> Seq<
    Vertex,
> {
    if start == end {
        Seq::empty()
    } else {
        let p = side_step(start, end, thickness);
        quad(
            (start.x + p.0, start.y + p.1),
            (start.x - p.0, start.y - p.1),
            (end.x + p.0, end.y + p.1),
            (end.x - p.0, end.y - p.1),
            color,
        )
    }
}

/// Each part of the side step is at most `thickness` in size, so that
/// every corner of a segment is within a thickness of one of its ends.
pub proof fn lemma_side_step_bound(start: Point, end: Point, thickness: i32)
    requires
        start != end,
    ensures
        magnitude(side_step(start, end, thickness).0) <= magnitude(thickness as int),
        magnitude(side_step(start, end, thickness).1) <= magnitude(thickness as int),
{
    let dx = end.x - start.x;
    let dy = end.y - start.y;
    assert(dx * dx + dy * dy > 0 && dx * dx <= dx * dx + dy * dy && (-dy) * (-dy) <= dx * dx + dy * dy)
        by (nonlinear_arith)
        requires
            dx != 0 || dy != 0,
    ;
    lemma_over_root_bound(-dy, thickness as int, dx * dx + dy * dy);
    lemma_over_root_bound(dx, thickness as int, dx * dx + dy * dy);
}

impl ToolState for LineView {
    open spec fn began(self, position: Point) -> LineView {
        LineView { start: Some(position), end: Some(position), ..self }
    }

    open spec fn moved(self, position: Point) -> LineView {
        LineView { end: Some(position), ..self }
    }

    open spec fn released(self, position: Point) -> Seq<Vertex> {
        self.moved(position).geometry()
    }

    open spec fn ended(self, position: Point) -> LineView {
        LineView { start: None, end: None, ..self }
    }

    open spec fn geometry(self) -> Seq<Vertex> {
        match (self.start, self.end) {
            (Some(start), Some(end)) => segment_geometry(start, end, self.thickness, self.color),
            _ => Seq::empty(),
        }
    }

    open spec fn recolored(self, color: Color) -> LineView {
        LineView { color, ..self }
    }

    open spec fn resized(self, size: i32) -> LineView {
        LineView { thickness: size, ..self }
    }
}

impl View for Line {
    type V = LineView;

    closed spec fn view(&self) -> LineView {
        LineView { start: self.start, end: self.end, color: self.color, thickness: self.thickness }
    }
}

/// The size of a difference of two coordinates.
fn span(d: i64) -> (a: u128)
    requires
        -0x1_0000_0000 < d < 0x1_0000_0000,
    ensures
        a == magnitude(d as int),
        a * a == d * d,
        a * a < 0x1_0000_0000 * 0x1_0000_0000,
{
    let a: u128 = if d >= 0 {
        d as u128
    } else {
        (-d) as u128
    };
    assert(a * a == d * d) by (nonlinear_arith)
        requires
            a == d || a == -d,
    ;
    assert(a * a < 0x1_0000_0000 * 0x1_0000_0000) by (nonlinear_arith)
        requires
            0 <= a < 0x1_0000_0000,
    ;
    a
}

impl Line {
    /// A line tool with no stroke begun.
    pub fn new(thickness: i32, color: Color) -> (tool: Line)
        ensures
            tool@ == (LineView { start: None, end: None, color, thickness }),
    {
        Line { start: None, end: None, color, thickness }
    }

    /// Sets the colour of the segment.
    pub fn set_color(&mut self, color: Color)
        ensures
            final(self)@ == old(self)@.recolored(color),
    {
        self.color = color;
    }

    /// Sets how far the segment reaches to each side.
    pub fn set_size(&mut self, size: i32)
        ensures
            final(self)@ == old(self)@.resized(size),
    {
        self.thickness = size;
    }

    fn generate_line_vertices(&self, start: Point, end: Point) -> (out: Vec<Vertex>)
        ensures
            out@ == segment_geometry(start, end, self.thickness, self.color),
    {
        if start.x == end.x && start.y == end.y {
            return Vec::new();
        }
        let dx: i64 = end.x as i64 - start.x as i64;
        let dy: i64 = end.y as i64 - start.y as i64;
        let ax: u128 = span(dx);
        let ay: u128 = span(dy);
        let s: u128 = ax * ax + ay * ay;
        assert(s > 0) by (nonlinear_arith)
            requires
                s == dx * dx + dy * dy,
                dx != 0 || dy != 0,
        ;
        let t: i64 = self.thickness as i64;
        assert(-0x8000_0000_0000_0000 < -dy * t < 0x8000_0000_0000_0000 && -0x8000_0000_0000_0000 < dx
            * t < 0x8000_0000_0000_0000) by (nonlinear_arith)
            requires
                -0x1_0000_0000 < dx < 0x1_0000_0000,
                -0x1_0000_0000 < dy < 0x1_0000_0000,
                -0x8000_0000 <= t < 0x8000_0000,
        ;
        let px: i64 = div_by_root(-dy * t, s);
        let py: i64 = div_by_root(dx * t, s);
        proof {
            lemma_side_step_bound(start, end, self.thickness);
        }
        let color = self.color;
        let near_left = Vertex { x: start.x as i64 + px, y: start.y as i64 + py, color };
        let near_right = Vertex { x: start.x as i64 - px, y: start.y as i64 - py, color };
        let far_left = Vertex { x: end.x as i64 + px, y: end.y as i64 + py, color };
        let far_right = Vertex { x: end.x as i64 - px, y: end.y as i64 - py, color };
        let out = vec![near_left, near_right, far_left, near_right, far_right, far_left];
        assert(out@ =~= segment_geometry(start, end, self.thickness, self.color));
        out
    }
}

impl Tool for Line {
    fn on_mouse_down(&mut self, position: Point) {
        self.start = Some(position);
        self.end = Some(position);
    }

    fn on_mouse_move(&mut self, position: Point) -> (out: Vec<Vertex>) {
        self.end = Some(position);
        self.get_vertices()
    }

    fn on_mouse_up(&mut self, position: Point) -> (out: Vec<Vertex>) {
        self.end = Some(position);
        let vertices = self.get_vertices();
        self.start = None;
        self.end = None;
        vertices
    }

    fn get_vertices(&self) -> (out: Vec<Vertex>) {
        match (self.start, self.end) {
            (Some(start), Some(end)) => self.generate_line_vertices(start, end),
            _ => Vec::new(),
        }
    }

    fn set_color(&mut self, color: Color) {
        self.color = color;
    }

    fn set_size(&mut self, size: i32) {
        self.thickness = size;
    }
}

} // verus!
