//! The eraser: it paints opaque white squares over what is there, so it
//! erases on a white background only.
use vstd::prelude::*;
use crate::tools::{Tool, ToolState};
use crate::vertex::{push_square, square, Color, Point, Vertex};

verus! {

/// The eraser.
#[derive(Debug)]
pub struct Eraser {
    points: Vec<Point>,
    size: i32,
}

/// What an `Eraser` holds: the samples taken and the size now set.
pub struct EraserView {
    pub points: Seq<Point>,
    pub size: i32,
}

/// The white squares of half-width `size` around `points`, six vertices
/// each, in the order of the samples.
pub open spec fn white_stamps(points: Seq<Point>, size: i32) -> Seq<Vertex> {
    Seq::new(6 * points.len(), |k: int| square(points[k / 6], size, Color::spec_white())[k % 6])
}

impl ToolState for EraserView {
    open spec fn began(self, position: Point) -> EraserView {
        EraserView { points: self.points.push(position), ..self }
    }

    open spec fn moved(self, position: Point) -> EraserView {
        EraserView { points: self.points.push(position), ..self }
    }

    open spec fn released(self, position: Point) -> Seq<Vertex> {
        self.geometry()
    }

    open spec fn ended(self, position: Point) -> EraserView {
        self
    }

    open spec fn geometry(self) -> Seq<Vertex> {
        white_stamps(self.points, self.size)
    }

    open spec fn recolored(self, color: Color) -> EraserView {
        self
    }

    open spec fn resized(self, size: i32) -> EraserView {
        EraserView { size, ..self }
    }
}

impl View for Eraser {
    type V = EraserView;

    closed spec fn view(&self) -> EraserView {
        EraserView { points: self.points@, size: self.size }
    }
}

impl Eraser {
    /// An eraser that has taken no sample.
    pub fn new(size: i32) -> (tool: Eraser)
        ensures
            tool@ == (EraserView { points: Seq::empty(), size }),
    {
        Eraser { points: Vec::new(), size }
    }

    /// Sets the half-width of every square, those of earlier samples too.
    pub fn set_size(&mut self, size: i32)
        ensures
            final(self)@ == old(self)@.resized(size),
    {
        self.size = size;
    }
}

impl Tool for Eraser {
    fn on_mouse_down(&mut self, position: Point) {
        self.points.push(position);
    }

    fn on_mouse_move(&mut self, position: Point) -> (out: Vec<Vertex>) {
        self.points.push(position);
        self.get_vertices()
    }

    fn on_mouse_up(&mut self, _position: Point) -> (out: Vec<Vertex>) {
        self.get_vertices()
    }

    fn get_vertices(&self) -> (out: Vec<Vertex>) {
        let mut vertices: Vec<Vertex> = Vec::new();
        let mut i: usize = 0;
        while i < self.points.len()
            invariant
                i <= self.points.len(),
                vertices@.len() == 6 * i,
                forall|k: int| 0 <= k < 6 * i ==> vertices@[k] == white_stamps(self.points@, self.size)[k],
            decreases self.points.len() - i,
        {
            push_square(&mut vertices, self.points[i], self.size, Color::white());
            i += 1;
        }
        assert(vertices@ =~= white_stamps(self.points@, self.size));
        vertices
    }

    fn set_color(&mut self, _color: Color) {
    }

    fn set_size(&mut self, size: i32) {
        self.size = size;
    }
}

} // verus!
