//! What holds of every canvas and of every stroke, proved from the
//! descriptions of the calls.
use vstd::prelude::*;
use crate::canvas::CanvasView;
use crate::history::{pushed, HISTORY_CAPACITY};
use crate::tools::line::{segment_geometry, LineView};
use crate::tools::rectangle::box_geometry;
use crate::tools::{lemma_whole_quads, ActiveToolView, ToolState, ToolType};
use crate::vertex::{Color, Point, Vertex};

verus! {

/// One call on a canvas.
pub enum Call {
    ChangeTool(ToolType),
    SetColor(Color),
    SetBrushSize(i32),
    PointerDown(Point),
    PointerMove(Point),
    PointerUp(Point),
    Undo,
    Clear,
}

impl CanvasView {
    /// The canvas after one call.
    pub open spec fn after(self, call: Call) -> CanvasView {
        match call {
            Call::ChangeTool(tool_type) => self.change_tool(tool_type),
            Call::SetColor(color) => self.set_color(color),
            Call::SetBrushSize(size) => self.set_brush_size(size),
            Call::PointerDown(position) => self.pointer_down(position),
            Call::PointerMove(position) => self.pointer_move(position),
            Call::PointerUp(position) => self.pointer_up(position),
            Call::Undo => self.undo(),
            Call::Clear => self.clear(),
        }
    }

    /// The canvas after the calls, first to last.
    pub open spec fn after_all(self, calls: Seq<Call>) -> CanvasView
        decreases calls.len(),
    {
        if calls.len() == 0 {
            self
        } else {
            self.after_all(calls.drop_last()).after(calls.last())
        }
    }

    /// The canvas after the pointer moved through the positions, first to last.
    pub open spec fn moved_through(self, positions: Seq<Point>) -> CanvasView
        decreases positions.len(),
    {
        if positions.len() == 0 {
            self
        } else {
            self.moved_through(positions.drop_last()).pointer_move(positions.last())
        }
    }

    /// The canvas after `n` calls of clear.
    pub open spec fn clear_times(self, n: nat) -> CanvasView
        decreases n,
    {
        if n == 0 {
            self
        } else {
            self.clear_times((n - 1) as nat).clear()
        }
    }

    /// The canvas after `k` calls of undo.
    pub open spec fn undo_times(self, k: nat) -> CanvasView
        decreases k,
    {
        if k == 0 {
            self
        } else {
            self.undo_times((k - 1) as nat).undo()
        }
    }
}

/// The history after the snapshots were pushed, first to last.
pub open spec fn pushed_all(history: Seq<Seq<Vertex>>, snapshots: Seq<Seq<Vertex>>) -> Seq<Seq<Vertex>>
    decreases snapshots.len(),
{
    if snapshots.len() == 0 {
        history
    } else {
        pushed(pushed_all(history, snapshots.drop_last()), snapshots.last())
    }
}

/// The newest `HISTORY_CAPACITY` of the snapshots, or all of them if they are fewer.
pub open spec fn newest(snapshots: Seq<Seq<Vertex>>) -> Seq<Seq<Vertex>> {
    if snapshots.len() <= HISTORY_CAPACITY {
        snapshots
    } else {
        snapshots.skip(snapshots.len() - HISTORY_CAPACITY)
    }
}

/// A call on a well-formed canvas leaves a well-formed canvas.
pub proof fn lemma_call_keeps_well_formed(canvas: CanvasView, call: Call)
    requires
        canvas.wf(),
    ensures
        canvas.after(call).wf(),
{
    match call {
        Call::PointerDown(position) => {
            lemma_whole_quads(canvas.tool.began(position), position);
        },
        Call::PointerMove(position) => {
            lemma_whole_quads(canvas.tool.moved(position), position);
        },
        Call::PointerUp(position) => {
            lemma_whole_quads(canvas.tool, position);
        },
        _ => {},
    }
}

/// Whatever is called on a new canvas, and in whatever order: the drawing,
/// the stroke in progress and every snapshot are whole triangles, the
/// history holds at most `HISTORY_CAPACITY` snapshots, and the tool uses
/// the colour and the size of the canvas.
pub proof fn lemma_always_well_formed(calls: Seq<Call>)
    ensures
        CanvasView::initial().after_all(calls).wf(),
    decreases calls.len(),
{
    if calls.len() > 0 {
        lemma_always_well_formed(calls.drop_last());
        lemma_call_keeps_well_formed(CanvasView::initial().after_all(calls.drop_last()), calls.last());
    }
}

/// A stroke is in progress from the call that begins one to the call that
/// ends it, and no other call begins or ends one.
pub proof fn lemma_drawing_flag(canvas: CanvasView, call: Call)
    ensures
        canvas.after(call).is_drawing == match call {
            Call::PointerDown(_) => true,
            Call::PointerUp(_) => false,
            _ => canvas.is_drawing,
        },
{
}

/// While the pointer only moves, a stroke stays in progress and the
/// drawing, the history, the colour and the size stay as they are; a line
/// or a rectangle keeps where it began and ends where the pointer is; a
/// brush or an eraser has one more sample for each move.
proof fn lemma_moved_through(canvas: CanvasView, positions: Seq<Point>)
    requires
        canvas.is_drawing,
    ensures
        ({
            let then = canvas.moved_through(positions);
            &&& then.is_drawing
            &&& then.persistent == canvas.persistent
            &&& then.history == canvas.history
            &&& then.color == canvas.color
            &&& then.brush_size == canvas.brush_size
            &&& match (canvas.tool, then.tool) {
                (ActiveToolView::Brush(before), ActiveToolView::Brush(after)) => {
                    &&& after.points.len() == before.points.len() + positions.len()
                    &&& after.size == before.size
                    &&& after.color == before.color
                },
                (ActiveToolView::Eraser(before), ActiveToolView::Eraser(after)) => {
                    &&& after.points.len() == before.points.len() + positions.len()
                    &&& after.size == before.size
                },
                (ActiveToolView::Line(before), ActiveToolView::Line(after)) => {
                    &&& after.start == before.start
                    &&& after.end == (if positions.len() == 0 {
                        before.end
                    } else {
                        Some(positions.last())
                    })
                    &&& after.color == before.color
                    &&& after.thickness == before.thickness
                },
                (ActiveToolView::Rectangle(before), ActiveToolView::Rectangle(after)) => {
                    &&& after.start == before.start
                    &&& after.end == (if positions.len() == 0 {
                        before.end
                    } else {
                        Some(positions.last())
                    })
                    &&& after.color == before.color
                },
                _ => false,
            }
        }),
    decreases positions.len(),
{
    if positions.len() > 0 {
        lemma_moved_through(canvas, positions.drop_last());
    }
}

/// A whole stroke, from the pointer going down through any moves to the
/// pointer going up, appends whole quads to the drawing and nothing else:
/// six vertices for each sample that a brush or an eraser holds, the
/// samples of this stroke being where it began and each move; the one box
/// between where it began and where it ended for a rectangle; the one
/// segment between the two for a line, which is nothing where they are the
/// same point.
pub proof fn lemma_stroke_appends_quads(canvas: CanvasView, down: Point, moves: Seq<Point>, up: Point)
    ensures
        ({
            let then = canvas.pointer_down(down).moved_through(moves).pointer_up(up);
            let appended = then.persistent.skip(canvas.persistent.len() as int);
            &&& then.persistent == canvas.persistent + appended
            &&& then.current == Seq::<Vertex>::empty()
            &&& !then.is_drawing
            &&& appended.len() % 6 == 0
            &&& match canvas.tool {
                ActiveToolView::Brush(t) => appended.len() == 6 * (t.points.len() + 1 + moves.len()),
                ActiveToolView::Eraser(t) => appended.len() == 6 * (t.points.len() + 1 + moves.len()),
                ActiveToolView::Line(t) => appended == segment_geometry(down, up, t.thickness, t.color)
                    && appended.len() == (if down == up {
                    0nat
                } else {
                    6nat
                }),
                ActiveToolView::Rectangle(t) => appended == box_geometry(down, up, t.color)
                    && appended.len() == 6,
            }
        }),
{
    let begun = canvas.pointer_down(down);
    let drawn = begun.moved_through(moves);
    let then = drawn.pointer_up(up);
    lemma_moved_through(begun, moves);
    lemma_whole_quads(drawn.tool, up);
    let appended = drawn.tool.released(up);
    assert(then.persistent == canvas.persistent + appended);
    assert(then.persistent.skip(canvas.persistent.len() as int) =~= appended);
}

/// The snapshot that the end of a stroke takes is the drawing with the
/// stroke in it, so the first undo after a stroke leaves the drawing as it
/// is.
pub proof fn lemma_undo_after_stroke(canvas: CanvasView, position: Point)
    requires
        canvas.is_drawing,
    ensures
        canvas.pointer_up(position).history.last() == canvas.pointer_up(position).persistent,
        canvas.pointer_up(position).undo().persistent == canvas.pointer_up(position).persistent,
{
}

/// Pushing snapshots one by one keeps the newest `HISTORY_CAPACITY` of all
/// that the history held and all that were pushed: the oldest leave first.
pub proof fn lemma_pushed_all_keeps_newest(history: Seq<Seq<Vertex>>, snapshots: Seq<Seq<Vertex>>)
    requires
        history.len() <= HISTORY_CAPACITY,
    ensures
        pushed_all(history, snapshots) == newest(history + snapshots),
    decreases snapshots.len(),
{
    if snapshots.len() == 0 {
        assert(history + snapshots =~= history);
    } else {
        let earlier = snapshots.drop_last();
        lemma_pushed_all_keeps_newest(history, earlier);
        assert(history + snapshots =~= (history + earlier).push(snapshots.last()));
        assert(pushed(newest(history + earlier), snapshots.last()) =~= newest(history + snapshots));
    }
}

/// Undo, called `k` times on a canvas whose history holds at least `k`
/// snapshots, makes the `k`-th newest snapshot the drawing and takes the
/// `k` newest out of the history; it touches nothing else but the flag
/// that says the drawing changed.
pub proof fn lemma_undo_times(canvas: CanvasView, k: nat)
    requires
        k <= canvas.history.len(),
    ensures
        canvas.undo_times(k).history == canvas.history.take(canvas.history.len() - k),
        canvas.undo_times(k).persistent == (if k == 0 {
            canvas.persistent
        } else {
            canvas.history[canvas.history.len() - k]
        }),
        canvas.undo_times(k).current == canvas.current,
        canvas.undo_times(k).tool == canvas.tool,
        canvas.undo_times(k).is_drawing == canvas.is_drawing,
    decreases k,
{
    if k == 0 {
        assert(canvas.history.take(canvas.history.len() as int) =~= canvas.history);
    } else {
        lemma_undo_times(canvas, (k - 1) as nat);
        let before = canvas.undo_times((k - 1) as nat);
        assert(before.history.drop_last() =~= canvas.history.take(canvas.history.len() - k));
    }
}

/// Undo on a canvas without snapshots changes nothing.
pub proof fn lemma_undo_without_history(canvas: CanvasView)
    requires
        canvas.history.len() == 0,
    ensures
        canvas.undo() == canvas,
{
}

/// Clear then undo brings back the drawing that was there before the clear.
pub proof fn lemma_clear_then_undo(canvas: CanvasView)
    ensures
        canvas.clear().undo().persistent == canvas.persistent,
        canvas.history.len() < HISTORY_CAPACITY ==> canvas.clear().undo().history == canvas.history,
{
    let cleared = canvas.clear();
    assert(cleared.history.last() == canvas.persistent);
    if canvas.history.len() < HISTORY_CAPACITY {
        assert(cleared.history.drop_last() =~= canvas.history);
    }
}

/// The history after `n` clears: what it held, then the drawing from
/// before the first clear, then the empty drawing for every further clear,
/// cut down to the newest `HISTORY_CAPACITY`.
proof fn lemma_clear_times(canvas: CanvasView, n: nat)
    requires
        canvas.history.len() <= HISTORY_CAPACITY,
    ensures
        canvas.clear_times(n).history == newest(canvas.history + cleared_snapshots(canvas.persistent, n)),
        n > 0 ==> canvas.clear_times(n).persistent == Seq::<Vertex>::empty(),
        n == 0 ==> canvas.clear_times(n) == canvas,
    decreases n,
{
    if n == 0 {
        assert(canvas.history + cleared_snapshots(canvas.persistent, 0) =~= canvas.history);
    } else {
        let m = (n - 1) as nat;
        lemma_clear_times(canvas, m);
        let before = canvas.clear_times(m);
        let held = canvas.history + cleared_snapshots(canvas.persistent, m);
        assert(canvas.history + cleared_snapshots(canvas.persistent, n) =~= held.push(before.persistent));
        assert(pushed(newest(held), before.persistent) =~= newest(held.push(before.persistent)));
    }
}

/// The drawings that `n` clears take snapshots of: the drawing that was
/// there, then the empty drawing.
pub open spec fn cleared_snapshots(persistent: Seq<Vertex>, n: nat) -> Seq<Seq<Vertex>> {
    Seq::new(
        n,
        |i: int|
            if i == 0 {
                persistent
            } else {
                Seq::<Vertex>::empty()
            },
    )
}

/// After `n` clears, undo called `k` times, for `k` from one to `n` and no
/// more than `HISTORY_CAPACITY`, brings back the drawing from just before
/// the `k`-th newest clear.
pub proof fn lemma_undo_after_clears(canvas: CanvasView, n: nat, k: nat)
    requires
        canvas.history.len() <= HISTORY_CAPACITY,
        1 <= k <= n,
        k <= HISTORY_CAPACITY,
    ensures
        canvas.clear_times(n).undo_times(k).persistent == canvas.clear_times((n - k) as nat).persistent,
{
    lemma_clear_times(canvas, n);
    lemma_clear_times(canvas, (n - k) as nat);
    let cleared = canvas.clear_times(n);
    lemma_undo_times(cleared, k);
}

/// After more than `HISTORY_CAPACITY` clears no number of undos brings
/// back the drawing from before the first of them: undo stops at the empty
/// drawing.
pub proof fn lemma_old_drawing_is_lost(canvas: CanvasView, n: nat, k: nat)
    requires
        canvas.history.len() <= HISTORY_CAPACITY,
        n > HISTORY_CAPACITY,
    ensures
        canvas.clear_times(n).undo_times(k).persistent == Seq::<Vertex>::empty(),
    decreases k,
{
    lemma_clear_times(canvas, n);
    let cleared = canvas.clear_times(n);
    if k > 0 {
        lemma_old_drawing_is_lost(canvas, n, (k - 1) as nat);
        let before = cleared.undo_times((k - 1) as nat);
        if k <= cleared.history.len() {
            lemma_undo_times(cleared, k);
        } else {
            lemma_undo_times(cleared, cleared.history.len());
            lemma_undo_stays(cleared, k - 1);
        }
    }
}

/// Once the history is used up, further undos change nothing.
proof fn lemma_undo_stays(canvas: CanvasView, k: int)
    requires
        k >= canvas.history.len(),
    ensures
        canvas.undo_times(k as nat).history.len() == 0,
        canvas.undo_times((k + 1) as nat) == canvas.undo_times(k as nat),
    decreases k,
{
    if k == canvas.history.len() {
        lemma_undo_times(canvas, k as nat);
    } else {
        lemma_undo_stays(canvas, k - 1);
    }
}

/// A line that begins and ends at the same point is nothing.
pub proof fn lemma_line_of_no_length(line: LineView, position: Point)
    ensures
        line.began(position).released(position) == Seq::<Vertex>::empty(),
{
}

/// Moving a line or a rectangle to where it already is changes nothing:
/// the tool and its triangles are the same after the second move as after
/// the first.
pub proof fn lemma_move_again(tool: ActiveToolView, position: Point)
    requires
        tool is Line || tool is Rectangle,
    ensures
        tool.moved(position).moved(position) == tool.moved(position),
        tool.moved(position).moved(position).geometry() == tool.moved(position).geometry(),
{
}

/// On a canvas with a line or a rectangle in use, a second move to the
/// same position changes nothing.
pub proof fn lemma_canvas_move_again(canvas: CanvasView, position: Point)
    requires
        canvas.tool is Line || canvas.tool is Rectangle,
    ensures
        canvas.pointer_move(position).pointer_move(position) == canvas.pointer_move(position),
{
}

} // verus!
