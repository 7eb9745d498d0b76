//! The freehand brush: one square per pointer sample.
use vstd::prelude::*;
use crate::tools::{Tool, ToolState};
use crate::vertex::{push_square, square, Color, Point, Vertex};

verus! {

/// The freehand brush.
#[derive(Debug)]
pub struct Brush {
    points: Vec<(Point, Color)>,
    brush_size: i32,
    color: Color,
}

/// What a `Brush` holds: the samples taken, each with the colour it was
/// taken in, and the size and colour now set.
pub struct BrushView {
    pub points: Seq<(Point, Color)>,
    pub size: i32,
    pub color: Color,
}

/// The squares of half-width `size` around `points`, six vertices each, in
/// the order of the samples.
pub open spec fn stamps(points: Seq<(Point, Color)>, size: i32) -> Seq<Vertex> {
    Seq::new(6 * points.len(), |k: int| square(points[k / 6].0, size, points[k / 6].1)[k % 6])
}

impl ToolState for BrushView {
    open spec fn began(self, position: Point) -> BrushView {
        BrushView { points: self.points.push((position, self.color)), ..self }
    }

    open spec fn moved(self, position: Point) -> BrushView {
        BrushView { points: self.points.push((position, self.color)), ..self }
    }

    open spec fn released(self, position: Point) -> Seq<Vertex> {
        self.geometry()
    }

    open spec fn ended(self, position: Point) -> BrushView {
        self
    }

    open spec fn geometry(self) -> Seq<Vertex> {
        stamps(self.points, self.size)
    }

    open spec fn recolored(self, color: Color) -> BrushView {
        BrushView { color, ..self }
    }

    open spec fn resized(self, size: i32) -> BrushView {
        BrushView { size, ..self }
    }
}

impl View for Brush {
    type V = BrushView;

    closed spec fn view(&self) -> BrushView {
        BrushView { points: self.points@, size: self.brush_size, color: self.color }
    }
}

impl Brush {
    /// A brush that has taken no sample.
    pub fn new(brush_size: i32, color: Color) -> (tool: Brush)
        ensures
            tool@ == (BrushView { points: Seq::empty(), size: brush_size, color }),
    {
        Brush { points: Vec::new(), brush_size, color }
    }

    /// Sets the colour of the samples taken from now on.
    pub fn set_color(&mut self, color: Color)
        ensures
            final(self)@ == old(self)@.recolored(color),
    {
        self.color = color;
    }

    /// Sets the half-width of every square, those of earlier samples too.
    pub fn set_size(&mut self, size: i32)
        ensures
            final(self)@ == old(self)@.resized(size),
    {
        self.brush_size = size;
    }
}

impl Tool for Brush {
    fn on_mouse_down(&mut self, position: Point) {
        self.points.push((position, self.color));
    }

    fn on_mouse_move(&mut self, position: Point) -> (out: Vec<Vertex>) {
        self.points.push((position, self.color));
        self.get_vertices()
    }

    fn on_mouse_up(&mut self, _position: Point) -> (out: Vec<Vertex>) {
        self.get_vertices()
    }

    fn get_vertices(&self) -> (out: Vec<Vertex>) {
        let mut vertices: Vec<Vertex> = Vec::new();
        let mut i: usize = 0;
        while i < self.points.len()
            invariant
                i <= self.points.len(),
                vertices@.len() == 6 * i,
                forall|k: int| 0 <= k < 6 * i ==> vertices@[k] == stamps(self.points@, self.brush_size)[k],
            decreases self.points.len() - i,
        {
            let (position, color) = self.points[i];
            push_square(&mut vertices, position, self.brush_size, color);
            i += 1;
        }
        assert(vertices@ =~= stamps(self.points@, self.brush_size));
        vertices
    }

    fn set_color(&mut self, color: Color) {
        self.color = color;
    }

    fn set_size(&mut self, size: i32) {
        self.brush_size = size;
    }
}

} // verus!
