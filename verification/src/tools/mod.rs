//! The drawing tools and the dispatcher over them.
use vstd::prelude::*;
use crate::vertex::{Color, Point, Vertex};

use crate::tools::brush::{Brush, BrushView};
use crate::tools::eraser::{Eraser, EraserView};
use crate::tools::line::{Line, LineView};
use crate::tools::rectangle::{Rectangle, RectangleView};

pub mod brush;
pub mod eraser;
pub mod line;
pub mod rectangle;

verus! {

/// What a tool's state means: how each call changes it and which triangles
/// it stands for.
pub trait ToolState: Sized {
    /// The state after a stroke began at `position`.
    spec fn began(self, position: Point) -> Self;

    /// The state after the pointer moved to `position`.
    spec fn moved(self, position: Point) -> Self;

    /// The triangles handed out when the stroke ends at `position`.
    spec fn released(self, position: Point) -> Seq<Vertex>;

    /// The state after the stroke ended at `position`.
    spec fn ended(self, position: Point) -> Self;

    /// The triangles of the stroke so far.
    spec fn geometry(self) -> Seq<Vertex>;

    /// The state after the colour was set.
    spec fn recolored(self, color: Color) -> Self;

    /// The state after the size was set.
    spec fn resized(self, size: i32) -> Self;
}

/// A drawing tool: it turns the pointer positions of a stroke into triangles.
pub trait Tool: View where Self::V: ToolState {
    /// Begins a stroke.
    fn on_mouse_down(&mut self, position: Point)
        ensures
            final(self)@ == old(self)@.began(position),
    ;

    /// Takes the next position and returns the whole stroke so far.
    fn on_mouse_move(&mut self, position: Point) -> (out: Vec<Vertex>)
        ensures
            final(self)@ == old(self)@.moved(position),
            out@ == final(self)@.geometry(),
    ;

    /// Ends the stroke and returns its triangles.
    fn on_mouse_up(&mut self, position: Point) -> (out: Vec<Vertex>)
        ensures
            final(self)@ == old(self)@.ended(position),
            out@ == old(self)@.released(position),
    ;

    /// The whole stroke so far.
    fn get_vertices(&self) -> (out: Vec<Vertex>)
        ensures
            out@ == self@.geometry(),
    ;

    /// Sets the colour of what is drawn from now on.
    fn set_color(&mut self, color: Color)
        ensures
            final(self)@ == old(self)@.recolored(color),
    ;

    /// Sets the size of what is drawn.
    fn set_size(&mut self, size: i32)
        ensures
            final(self)@ == old(self)@.resized(size),
    ;
}

/// The four kinds of tool.
#[derive(Clone, Copy, Debug, PartialEq, Eq, Hash, Structural)]
pub enum ToolType {
    Brush,
    Eraser,
    Line,
    Rectangle,
}

/// The tool in use: one of the four kinds.
#[derive(Debug)]
pub enum ActiveTool {
    Brush(Brush),
    Eraser(Eraser),
    Line(Line),
    Rectangle(Rectangle),
}

/// What an `ActiveTool` holds.
pub enum ActiveToolView {
    Brush(BrushView),
    Eraser(EraserView),
    Line(LineView),
    Rectangle(RectangleView),
}

impl ActiveToolView {
    /// Which kind of tool this is.
    pub open spec fn kind(self) -> ToolType {
        match self {
            ActiveToolView::Brush(_) => ToolType::Brush,
            ActiveToolView::Eraser(_) => ToolType::Eraser,
            ActiveToolView::Line(_) => ToolType::Line,
            ActiveToolView::Rectangle(_) => ToolType::Rectangle,
        }
    }

    /// A tool of the given kind that has seen no stroke, with the size and
    /// colour it uses set; the eraser takes no colour and the rectangle no size.
    pub open spec fn fresh(kind: ToolType, size: i32, color: Color) -> ActiveToolView {
        match kind {
            ToolType::Brush => ActiveToolView::Brush(BrushView { points: Seq::empty(), size, color }),
            ToolType::Eraser => ActiveToolView::Eraser(EraserView { points: Seq::empty(), size }),
            ToolType::Line => ActiveToolView::Line(
                LineView { start: None, end: None, color, thickness: size },
            ),
            ToolType::Rectangle => ActiveToolView::Rectangle(
                RectangleView { start: None, end: None, color },
            ),
        }
    }

    /// Whether the size and the colour that the tool uses are `size` and `color`.
    pub open spec fn mirrors(self, size: i32, color: Color) -> bool {
        match self {
            ActiveToolView::Brush(t) => t.size == size && t.color == color,
            ActiveToolView::Eraser(t) => t.size == size,
            ActiveToolView::Line(t) => t.thickness == size && t.color == color,
            ActiveToolView::Rectangle(t) => t.color == color,
        }
    }
}

impl ToolState for ActiveToolView {
    open spec fn began(self, position: Point) -> ActiveToolView {
        match self {
            ActiveToolView::Brush(t) => ActiveToolView::Brush(t.began(position)),
            ActiveToolView::Eraser(t) => ActiveToolView::Eraser(t.began(position)),
            ActiveToolView::Line(t) => ActiveToolView::Line(t.began(position)),
            ActiveToolView::Rectangle(t) => ActiveToolView::Rectangle(t.began(position)),
        }
    }

    open spec fn moved(self, position: Point) -> ActiveToolView {
        match self {
            ActiveToolView::Brush(t) => ActiveToolView::Brush(t.moved(position)),
            ActiveToolView::Eraser(t) => ActiveToolView::Eraser(t.moved(position)),
            ActiveToolView::Line(t) => ActiveToolView::Line(t.moved(position)),
            ActiveToolView::Rectangle(t) => ActiveToolView::Rectangle(t.moved(position)),
        }
    }

    open spec fn released(self, position: Point) -> Seq<Vertex> {
        match self {
            ActiveToolView::Brush(t) => t.released(position),
            ActiveToolView::Eraser(t) => t.released(position),
            ActiveToolView::Line(t) => t.released(position),
            ActiveToolView::Rectangle(t) => t.released(position),
        }
    }

    open spec fn ended(self, position: Point) -> ActiveToolView {
        match self {
            ActiveToolView::Brush(t) => ActiveToolView::Brush(t.ended(position)),
            ActiveToolView::Eraser(t) => ActiveToolView::Eraser(t.ended(position)),
            ActiveToolView::Line(t) => ActiveToolView::Line(t.ended(position)),
            ActiveToolView::Rectangle(t) => ActiveToolView::Rectangle(t.ended(position)),
        }
    }

    open spec fn geometry(self) -> Seq<Vertex> {
        match self {
            ActiveToolView::Brush(t) => t.geometry(),
            ActiveToolView::Eraser(t) => t.geometry(),
            ActiveToolView::Line(t) => t.geometry(),
            ActiveToolView::Rectangle(t) => t.geometry(),
        }
    }

    open spec fn recolored(self, color: Color) -> ActiveToolView {
        match self {
            ActiveToolView::Brush(t) => ActiveToolView::Brush(t.recolored(color)),
            ActiveToolView::Eraser(t) => ActiveToolView::Eraser(t.recolored(color)),
            ActiveToolView::Line(t) => ActiveToolView::Line(t.recolored(color)),
            ActiveToolView::Rectangle(t) => ActiveToolView::Rectangle(t.recolored(color)),
        }
    }

    open spec fn resized(self, size: i32) -> ActiveToolView {
        match self {
            ActiveToolView::Brush(t) => ActiveToolView::Brush(t.resized(size)),
            ActiveToolView::Eraser(t) => ActiveToolView::Eraser(t.resized(size)),
            ActiveToolView::Line(t) => ActiveToolView::Line(t.resized(size)),
            ActiveToolView::Rectangle(t) => ActiveToolView::Rectangle(t.resized(size)),
        }
    }
}

impl View for ActiveTool {
    type V = ActiveToolView;

    open spec fn view(&self) -> ActiveToolView {
        match self {
            ActiveTool::Brush(t) => ActiveToolView::Brush(t@),
            ActiveTool::Eraser(t) => ActiveToolView::Eraser(t@),
            ActiveTool::Line(t) => ActiveToolView::Line(t@),
            ActiveTool::Rectangle(t) => ActiveToolView::Rectangle(t@),
        }
    }
}

impl ActiveTool {
    /// Which kind of tool this is.
    pub fn kind(&self) -> (kind: ToolType)
        ensures
            kind == self@.kind(),
    {
        match self {
            ActiveTool::Brush(_) => ToolType::Brush,
            ActiveTool::Eraser(_) => ToolType::Eraser,
            ActiveTool::Line(_) => ToolType::Line,
            ActiveTool::Rectangle(_) => ToolType::Rectangle,
        }
    }
}

impl Tool for ActiveTool {
    fn on_mouse_down(&mut self, position: Point) {
        match self {
            ActiveTool::Brush(t) => t.on_mouse_down(position),
            ActiveTool::Eraser(t) => t.on_mouse_down(position),
            ActiveTool::Line(t) => t.on_mouse_down(position),
            ActiveTool::Rectangle(t) => t.on_mouse_down(position),
        }
    }

    fn on_mouse_move(&mut self, position: Point) -> (out: Vec<Vertex>) {
        match self {
            ActiveTool::Brush(t) => t.on_mouse_move(position),
            ActiveTool::Eraser(t) => t.on_mouse_move(position),
            ActiveTool::Line(t) => t.on_mouse_move(position),
            ActiveTool::Rectangle(t) => t.on_mouse_move(position),
        }
    }

    fn on_mouse_up(&mut self, position: Point) -> (out: Vec<Vertex>) {
        match self {
            ActiveTool::Brush(t) => t.on_mouse_up(position),
            ActiveTool::Eraser(t) => t.on_mouse_up(position),
            ActiveTool::Line(t) => t.on_mouse_up(position),
            ActiveTool::Rectangle(t) => t.on_mouse_up(position),
        }
    }

    fn get_vertices(&self) -> (out: Vec<Vertex>) {
        match self {
            ActiveTool::Brush(t) => t.get_vertices(),
            ActiveTool::Eraser(t) => t.get_vertices(),
            ActiveTool::Line(t) => t.get_vertices(),
            ActiveTool::Rectangle(t) => t.get_vertices(),
        }
    }

    fn set_color(&mut self, color: Color) {
        match self {
            ActiveTool::Brush(t) => t.set_color(color),
            ActiveTool::Line(t) => t.set_color(color),
            ActiveTool::Rectangle(t) => t.set_color(color),
            _ => {},
        }
    }

    fn set_size(&mut self, size: i32) {
        match self {
            ActiveTool::Brush(t) => t.set_size(size),
            ActiveTool::Eraser(t) => t.set_size(size),
            ActiveTool::Line(t) => t.set_size(size),
            _ => {},
        }
    }
}

/// Every tool hands out whole quads: six vertices for each sample of a
/// brush or an eraser; six for a line between two different points and for
/// a rectangle, once a stroke has begun, and none otherwise.
pub proof fn lemma_whole_quads(tool: ActiveToolView, position: Point)
    ensures
        tool.geometry().len() % 6 == 0,
        tool.released(position).len() % 6 == 0,
        tool matches ActiveToolView::Brush(t) ==> tool.geometry().len() == 6 * t.points.len()
            && tool.released(position).len() == 6 * t.points.len(),
        tool matches ActiveToolView::Eraser(t) ==> tool.geometry().len() == 6 * t.points.len()
            && tool.released(position).len() == 6 * t.points.len(),
        tool matches ActiveToolView::Line(t) ==> tool.released(position).len() == (if t.start is Some
            && t.start != Some(position) {
            6nat
        } else {
            0nat
        }),
        tool matches ActiveToolView::Rectangle(t) ==> tool.released(position).len() == (if t.start is Some {
            6nat
        } else {
            0nat
        }),
{
}

} // verus!
