//! The rectangle tool: the box spanned by where the stroke began and where
//! the pointer is.
use vstd::prelude::*;
use crate::tools::{Tool, ToolState};
use crate::vertex::{corner, Color, Point, Vertex};

verus! {

/// The rectangle tool.
#[derive(Debug)]
pub struct Rectangle {
    start: Option<Point>,
    end: Option<Point>,
    color: Color,
}

/// What a `Rectangle` holds.
pub struct RectangleView {
    pub start: Option<Point>,
    pub end: Option<Point>,
    pub color: Color,
}

/// The two triangles that cover the box with the opposite corners `start`
/// and `end`: lower left, lower right, upper right; lower left, upper
/// right, upper left.
pub open spec fn box_geometry(start: Point, end: Point, color: Color) -> Seq<Vertex> {
    let min_x = if start.x <= end.x { start.x } else { end.x };
    let max_x = if start.x <= end.x { end.x } else { start.x };
    let min_y = if start.y <= end.y { start.y } else { end.y };
    let max_y = if start.y <= end.y { end.y } else { start.y };
    seq![
        corner((min_x as int, min_y as int), color),
        corner((max_x as int, min_y as int), color),
        corner((max_x as int, max_y as int), color),
        corner((min_x as int, min_y as int), color),
        corner((max_x as int, max_y as int), color),
        corner((min_x as int, max_y as int), color),
    ]
}

impl ToolState for RectangleView {
    open spec fn began(self, position: Point) -> RectangleView {
        RectangleView { start: Some(position), end: Some(position), ..self }
    }

    open spec fn moved(self, position: Point) -> RectangleView {
        RectangleView { end: Some(position), ..self }
    }

    open spec fn released(self, position: Point) -> Seq<Vertex> {
        self.moved(position).geometry()
    }

    open spec fn ended(self, position: Point) -> RectangleView {
        RectangleView { start: None, end: None, ..self }
    }

    open spec fn geometry(self) -> Seq<Vertex> {
        match (self.start, self.end) {
            (Some(start), Some(end)) => box_geometry(start, end, self.color),
            _ => Seq::empty(),
        }
    }

    open spec fn recolored(self, color: Color) -> RectangleView {
        RectangleView { color, ..self }
    }

    open spec fn resized(self, size: i32) -> RectangleView {
        self
    }
}

impl View for Rectangle {
    type V = RectangleView;

    closed spec fn view(&self) -> RectangleView {
        RectangleView { start: self.start, end: self.end, color: self.color }
    }
}

impl Rectangle {
    /// A rectangle tool with no stroke begun.
    pub fn new(color: Color) -> (tool: Rectangle)
        ensures
            tool@ == (RectangleView { start: None, end: None, color }),
    {
        Rectangle { start: None, end: None, color }
    }

    /// Sets the colour of the box.
    pub fn set_color(&mut self, color: Color)
        ensures
            final(self)@ == old(self)@.recolored(color),
    {
        self.color = color;
    }
}

impl Tool for Rectangle {
    fn on_mouse_down(&mut self, position: Point) {
        self.start = Some(position);
        self.end = Some(position);
    }

    fn on_mouse_move(&mut self, position: Point) -> (out: Vec<Vertex>) {
        self.end = Some(position);
        self.get_vertices()
    }

    fn on_mouse_up(&mut self, position: Point) -> (out: Vec<Vertex>) {
        self.end = Some(position);
        let vertices = self.get_vertices();
        self.start = None;
        self.end = None;
        vertices
    }

    fn get_vertices(&self) -> (out: Vec<Vertex>) {
        match (self.start, self.end) {
            (Some(start), Some(end)) => {
                let min_x: i64 = (if start.x <= end.x { start.x } else { end.x }) as i64;
                let max_x: i64 = (if start.x <= end.x { end.x } else { start.x }) as i64;
                let min_y: i64 = (if start.y <= end.y { start.y } else { end.y }) as i64;
                let max_y: i64 = (if start.y <= end.y { end.y } else { start.y }) as i64;
                let out = vec![
                    Vertex { x: min_x, y: min_y, color: self.color },
                    Vertex { x: max_x, y: min_y, color: self.color },
                    Vertex { x: max_x, y: max_y, color: self.color },
                    Vertex { x: min_x, y: min_y, color: self.color },
                    Vertex { x: max_x, y: max_y, color: self.color },
                    Vertex { x: min_x, y: max_y, color: self.color },
                ];
                assert(out@ =~= box_geometry(start, end, self.color));
                out
            },
            _ => Vec::new(),
        }
    }

    fn set_color(&mut self, color: Color) {
        self.color = color;
    }

    fn set_size(&mut self, _size: i32) {
    }
}

} // verus!
