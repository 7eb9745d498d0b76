//! The canvas: the committed drawing, the stroke in progress, the tool in
//! use with its colour and size, and the history behind undo.
use vstd::prelude::*;
use crate::history::{pushed, History, HISTORY_CAPACITY};
use crate::tools::brush::Brush;
use crate::tools::eraser::Eraser;
use crate::tools::line::Line;
use crate::tools::rectangle::Rectangle;
use crate::tools::{lemma_whole_quads, ActiveTool, ActiveToolView, Tool, ToolState, ToolType};
use crate::vertex::{Color, Point, Vertex};

verus! {

/// The size that a new canvas draws with: a hundredth of a unit.
pub const DEFAULT_BRUSH_SIZE: i32 = 10_000;

/// The drawing surface.
#[derive(Debug)]
pub struct Canvas {
    current_tool: ActiveTool,
    persistent_vertices: Vec<Vertex>,
    current_vertices: Vec<Vertex>,
    current_color: Color,
    brush_size: i32,
    is_drawing: bool,
    needs_update: bool,
    history: History,
}

/// What a `Canvas` holds.
pub struct CanvasView {
    /// The tool in use.
    pub tool: ActiveToolView,
    /// The committed drawing.
    pub persistent: Seq<Vertex>,
    /// The stroke in progress.
    pub current: Seq<Vertex>,
    /// The colour set.
    pub color: Color,
    /// The size set.
    pub brush_size: i32,
    /// Whether a stroke has begun and not ended.
    pub is_drawing: bool,
    /// Whether the drawing changed since the flag was last taken down.
    pub needs_update: bool,
    /// The snapshots that undo goes back to, oldest first.
    pub history: Seq<Seq<Vertex>>,
}

impl CanvasView {
    /// A new canvas: nothing drawn, no history, an opaque black brush of
    /// the default size.
    pub open spec fn initial() -> CanvasView {
        CanvasView {
            tool: ActiveToolView::fresh(ToolType::Brush, DEFAULT_BRUSH_SIZE, Color::spec_black()),
            persistent: Seq::empty(),
            current: Seq::empty(),
            color: Color::spec_black(),
            brush_size: DEFAULT_BRUSH_SIZE,
            is_drawing: false,
            needs_update: false,
            history: Seq::empty(),
        }
    }

    /// What holds of every canvas: the drawing, the stroke in progress and
    /// every snapshot are whole triangles, the history is within its
    /// capacity, and the tool uses the colour and the size set.
    pub open spec fn wf(self) -> bool {
        &&& self.persistent.len() % 3 == 0
        &&& self.current.len() % 3 == 0
        &&& forall|i: int| 0 <= i < self.history.len() ==> (#[trigger] self.history[i]).len() % 3 == 0
        &&& self.history.len() <= HISTORY_CAPACITY
        &&& self.tool.mirrors(self.brush_size, self.color)
    }

    /// The kind of the tool in use.
    pub open spec fn tool_type(self) -> ToolType {
        self.tool.kind()
    }

    /// After another kind of tool was chosen: a fresh tool of that kind
    /// with the colour and the size set; nothing changes where the kind is
    /// the one in use.
    pub open spec fn change_tool(self, tool_type: ToolType) -> CanvasView {
        if tool_type == self.tool_type() {
            self
        } else {
            CanvasView { tool: ActiveToolView::fresh(tool_type, self.brush_size, self.color), ..self }
        }
    }

    /// After the colour was set.
    pub open spec fn set_color(self, color: Color) -> CanvasView {
        CanvasView { color, tool: self.tool.recolored(color), ..self }
    }

    /// After the size was set.
    pub open spec fn set_brush_size(self, size: i32) -> CanvasView {
        CanvasView { brush_size: size, tool: self.tool.resized(size), ..self }
    }

    /// After the pointer went down: a stroke is in progress.
    pub open spec fn pointer_down(self, position: Point) -> CanvasView {
        let tool = self.tool.began(position);
        CanvasView { tool, current: tool.geometry(), is_drawing: true, needs_update: true, ..self }
    }

    /// After the pointer moved: the stroke in progress is what the tool now
    /// makes of it; nothing changes where no stroke is in progress.
    pub open spec fn pointer_move(self, position: Point) -> CanvasView {
        if self.is_drawing {
            let tool = self.tool.moved(position);
            CanvasView { tool, current: tool.geometry(), needs_update: true, ..self }
        } else {
            self
        }
    }

    /// After the pointer went up: the stroke is appended to the drawing,
    /// and the drawing with it becomes the newest snapshot; nothing changes
    /// where no stroke is in progress.
    pub open spec fn pointer_up(self, position: Point) -> CanvasView {
        if self.is_drawing {
            let persistent = self.persistent + self.tool.released(position);
            CanvasView {
                tool: self.tool.ended(position),
                persistent,
                current: Seq::empty(),
                history: pushed(self.history, persistent),
                is_drawing: false,
                needs_update: true,
                ..self
            }
        } else {
            self
        }
    }

    /// After undo: the drawing is the newest snapshot, which leaves the
    /// history; nothing changes where the history is empty.
    pub open spec fn undo(self) -> CanvasView {
        if self.history.len() > 0 {
            CanvasView {
                persistent: self.history.last(),
                history: self.history.drop_last(),
                needs_update: true,
                ..self
            }
        } else {
            self
        }
    }

    /// After clear: the drawing becomes the newest snapshot, and nothing is
    /// left of it or of the stroke in progress.
    pub open spec fn clear(self) -> CanvasView {
        CanvasView {
            history: pushed(self.history, self.persistent),
            persistent: Seq::empty(),
            current: Seq::empty(),
            needs_update: true,
            ..self
        }
    }

    /// What the renderer draws: the drawing, then the stroke in progress.
    pub open spec fn all_vertices(self) -> Seq<Vertex> {
        self.persistent + self.current
    }
}

impl View for Canvas {
    type V = CanvasView;

    closed spec fn view(&self) -> CanvasView {
        CanvasView {
            tool: self.current_tool@,
            persistent: self.persistent_vertices@,
            current: self.current_vertices@,
            color: self.current_color,
            brush_size: self.brush_size,
            is_drawing: self.is_drawing,
            needs_update: self.needs_update,
            history: self.history@,
        }
    }
}

impl Canvas {
    /// A canvas with nothing drawn and a black brush of the default size.
    pub fn new() -> (canvas: Canvas)
        ensures
            canvas@ == CanvasView::initial(),
            canvas@.wf(),
    {
        Canvas {
            current_tool: ActiveTool::Brush(Brush::new(DEFAULT_BRUSH_SIZE, Color::black())),
            persistent_vertices: Vec::new(),
            current_vertices: Vec::new(),
            current_color: Color::black(),
            brush_size: DEFAULT_BRUSH_SIZE,
            is_drawing: false,
            needs_update: false,
            history: History::new(),
        }
    }

    /// Puts a fresh tool of another kind in use.
    pub fn change_tool(&mut self, tool_type: ToolType)
        ensures
            final(self)@ == old(self)@.change_tool(tool_type),
            old(self)@.wf() ==> final(self)@.wf(),
    {
        if tool_type == self.current_tool.kind() {
            return;
        }
        self.current_tool = match tool_type {
            ToolType::Brush => ActiveTool::Brush(Brush::new(self.brush_size, self.current_color)),
            ToolType::Eraser => ActiveTool::Eraser(Eraser::new(self.brush_size)),
            ToolType::Line => ActiveTool::Line(Line::new(self.brush_size, self.current_color)),
            ToolType::Rectangle => ActiveTool::Rectangle(Rectangle::new(self.current_color)),
        };
    }

    /// Sets the colour, of the canvas and of the tool in use.
    pub fn set_color(&mut self, color: Color)
        ensures
            final(self)@ == old(self)@.set_color(color),
            old(self)@.wf() ==> final(self)@.wf(),
    {
        self.current_color = color;
        self.current_tool.set_color(color);
    }

    /// Sets the size, of the canvas and of the tool in use.
    pub fn set_brush_size(&mut self, size: i32)
        ensures
            final(self)@ == old(self)@.set_brush_size(size),
            old(self)@.wf() ==> final(self)@.wf(),
    {
        self.brush_size = size;
        self.current_tool.set_size(size);
    }

    /// Begins a stroke at `position`.
    pub fn on_mouse_down(&mut self, position: Point)
        ensures
            final(self)@ == old(self)@.pointer_down(position),
            old(self)@.wf() ==> final(self)@.wf(),
    {
        self.is_drawing = true;
        self.current_tool.on_mouse_down(position);
        self.current_vertices = self.current_tool.get_vertices();
        self.needs_update = true;
        proof {
            lemma_whole_quads(self@.tool, position);
        }
    }

    /// Takes the stroke in progress on to `position`.
    pub fn on_mouse_move(&mut self, position: Point)
        ensures
            final(self)@ == old(self)@.pointer_move(position),
            old(self)@.wf() ==> final(self)@.wf(),
    {
        if self.is_drawing {
            self.current_vertices = self.current_tool.on_mouse_move(position);
            self.needs_update = true;
            proof {
                lemma_whole_quads(self@.tool, position);
            }
        }
    }

    /// Ends the stroke in progress at `position` and commits it.
    pub fn on_mouse_up(&mut self, position: Point)
        ensures
            final(self)@ == old(self)@.pointer_up(position),
            old(self)@.wf() ==> final(self)@.wf(),
    {
        if self.is_drawing {
            let mut new_vertices = self.current_tool.on_mouse_up(position);
            self.persistent_vertices.append(&mut new_vertices);
            self.current_vertices.clear();
            self.save_state();
            self.needs_update = true;
            proof {
                lemma_whole_quads(old(self)@.tool, position);
            }
        }
        self.is_drawing = false;
    }

    fn save_state(&mut self)
        ensures
            final(self)@ == (CanvasView {
                history: pushed(old(self)@.history, old(self)@.persistent),
                ..old(self)@
            }),
    {
        self.history.push(self.persistent_vertices.clone());
    }

    /// Goes back to the newest snapshot.
    pub fn undo(&mut self)
        ensures
            final(self)@ == old(self)@.undo(),
            old(self)@.wf() ==> final(self)@.wf(),
    {
        if let Some(previous_state) = self.history.pop() {
            self.persistent_vertices = previous_state;
            self.needs_update = true;
        }
    }

    /// Takes a snapshot and empties the drawing.
    pub fn clear(&mut self)
        ensures
            final(self)@ == old(self)@.clear(),
            old(self)@.wf() ==> final(self)@.wf(),
    {
        self.save_state();
        self.persistent_vertices.clear();
        self.current_vertices.clear();
        self.needs_update = true;
    }

    /// The kind of the tool in use.
    pub fn tool_type(&self) -> (tool_type: ToolType)
        ensures
            tool_type == self@.tool_type(),
    {
        self.current_tool.kind()
    }

    /// The colour set.
    pub fn current_color(&self) -> (color: Color)
        ensures
            color == self@.color,
    {
        self.current_color
    }

    /// The size set.
    pub fn brush_size(&self) -> (size: i32)
        ensures
            size == self@.brush_size,
    {
        self.brush_size
    }

    /// Whether a stroke is in progress.
    pub fn is_drawing(&self) -> (drawing: bool)
        ensures
            drawing == self@.is_drawing,
    {
        self.is_drawing
    }

    /// Whether the drawing changed since the flag was last taken down.
    pub fn needs_update(&self) -> (flag: bool)
        ensures
            flag == self@.needs_update,
    {
        self.needs_update
    }

    /// Raises or takes down the flag that says the drawing changed.
    pub fn set_needs_update(&mut self, flag: bool)
        ensures
            final(self)@ == (CanvasView { needs_update: flag, ..old(self)@ }),
    {
        self.needs_update = flag;
    }

    /// The number of snapshots that undo can go back to.
    pub fn history_len(&self) -> (n: usize)
        ensures
            n == self@.history.len(),
    {
        self.history.len()
    }

    /// The drawing, then the stroke in progress.
    pub fn get_all_vertices(&self) -> (all_vertices: Vec<Vertex>)
        ensures
            all_vertices@ == self@.all_vertices(),
            self@.wf() ==> all_vertices@.len() % 3 == 0,
    {
        let mut all_vertices = self.persistent_vertices.clone();
        let mut current = self.current_vertices.clone();
        all_vertices.append(&mut current);
        all_vertices
    }
}

} // verus!
