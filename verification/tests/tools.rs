use paint::tools::brush::Brush;
use paint::tools::eraser::Eraser;
use paint::tools::line::Line;
use paint::tools::rectangle::Rectangle;
use paint::tools::{ActiveTool, Tool, ToolType};
use paint::vertex::{push_square, Color, Point, Vertex, UNIT};

const BLUE: Color = Color { r: 0, g: 0, b: UNIT, a: UNIT };

const GREY: Color = Color { r: UNIT / 2, g: UNIT / 2, b: UNIT / 2, a: UNIT };

fn p(x: i32, y: i32) -> Point {
    Point { x, y }
}

fn v(x: i64, y: i64, color: Color) -> Vertex {
    Vertex { x, y, color }
}

/// The quad of a line from its four corners, as the line tool lays it down.
fn strip(a: (i64, i64), b: (i64, i64), c: (i64, i64), d: (i64, i64), color: Color) -> Vec<Vertex> {
    vec![
        v(a.0, a.1, color),
        v(b.0, b.1, color),
        v(c.0, c.1, color),
        v(b.0, b.1, color),
        v(d.0, d.1, color),
        v(c.0, c.1, color),
    ]
}

#[test]
fn colours_black_and_white() {
    assert_eq!(Color::black(), Color { r: 0, g: 0, b: 0, a: UNIT });
    assert_eq!(Color::white(), Color { r: UNIT, g: UNIT, b: UNIT, a: UNIT });
    assert_eq!(UNIT, 1_000_000);
}

#[test]
fn push_square_appends_six_corners() {
    let mut vertices = vec![v(9, 9, GREY)];
    push_square(&mut vertices, p(10, 20), 3, BLUE);
    assert_eq!(
        vertices,
        vec![
            v(9, 9, GREY),
            v(7, 23, BLUE),
            v(7, 17, BLUE),
            v(13, 23, BLUE),
            v(7, 17, BLUE),
            v(13, 17, BLUE),
            v(13, 23, BLUE),
        ]
    );
}

#[test]
fn push_square_at_the_ends_of_the_range() {
    let mut vertices = Vec::new();
    push_square(&mut vertices, p(i32::MAX, i32::MIN), i32::MAX, BLUE);
    let high = 2 * (i32::MAX as i64);
    let low = i32::MIN as i64 - i32::MAX as i64;
    assert_eq!(vertices[0], v(0, -1, BLUE));
    assert_eq!(vertices[1], v(0, low, BLUE));
    assert_eq!(vertices[2], v(high, -1, BLUE));
    assert_eq!(vertices[4], v(high, low, BLUE));
    let mut negative = Vec::new();
    push_square(&mut negative, p(0, 0), -2, BLUE);
    assert_eq!(negative[0], v(2, -2, BLUE));
    assert_eq!(negative[4], v(-2, 2, BLUE));
}

#[test]
fn brush_lays_one_square_for_each_sample() {
    let mut brush = Brush::new(2, BLUE);
    assert!(brush.get_vertices().is_empty());
    brush.on_mouse_down(p(0, 0));
    assert_eq!(brush.get_vertices().len(), 6);
    let second = brush.on_mouse_move(p(10, 0));
    assert_eq!(second.len(), 12);
    let third = brush.on_mouse_move(p(50, 60));
    assert_eq!(third.len(), 18);
    assert_eq!(
        third[12..],
        [
            v(48, 62, BLUE),
            v(48, 58, BLUE),
            v(52, 62, BLUE),
            v(48, 58, BLUE),
            v(52, 58, BLUE),
            v(52, 62, BLUE),
        ]
    );
    assert_eq!(third[..12], second[..]);
}

#[test]
fn brush_does_not_sample_where_the_stroke_ends() {
    let mut brush = Brush::new(2, BLUE);
    brush.on_mouse_down(p(0, 0));
    let released = brush.on_mouse_up(p(700, 700));
    assert_eq!(released.len(), 6);
    assert_eq!(released[0], v(-2, 2, BLUE));
    assert_eq!(brush.get_vertices(), released);
}

#[test]
fn brush_does_not_fill_the_gap_between_samples() {
    let mut brush = Brush::new(1, BLUE);
    brush.on_mouse_down(p(0, 0));
    let stroke = brush.on_mouse_move(p(1000, 0));
    assert_eq!(stroke.len(), 12);
    assert!(stroke.iter().all(|vertex| vertex.x <= 1 || vertex.x >= 999));
}

#[test]
fn brush_colour_and_size_setters() {
    let mut brush = Brush::new(1, BLUE);
    brush.on_mouse_down(p(0, 0));
    brush.set_color(GREY);
    brush.set_size(5);
    let stroke = brush.on_mouse_move(p(100, 100));
    assert_eq!(stroke[0], v(-5, 5, BLUE));
    assert_eq!(stroke[6], v(95, 105, GREY));
    Tool::set_color(&mut brush, BLUE);
    Tool::set_size(&mut brush, 6);
    let stroke = brush.on_mouse_move(p(0, 0));
    assert_eq!(stroke[6], v(94, 106, GREY));
    assert_eq!(stroke[12], v(-6, 6, BLUE));
}

#[test]
fn eraser_lays_white_squares() {
    let mut eraser = Eraser::new(3);
    assert!(eraser.get_vertices().is_empty());
    eraser.on_mouse_down(p(-10, 10));
    Tool::set_color(&mut eraser, BLUE);
    let stroke = eraser.on_mouse_move(p(0, 0));
    let white = Color::white();
    assert_eq!(
        stroke,
        vec![
            v(-13, 13, white),
            v(-13, 7, white),
            v(-7, 13, white),
            v(-13, 7, white),
            v(-7, 7, white),
            v(-7, 13, white),
            v(-3, 3, white),
            v(-3, -3, white),
            v(3, 3, white),
            v(-3, -3, white),
            v(3, -3, white),
            v(3, 3, white),
        ]
    );
    let released = eraser.on_mouse_up(p(99, 99));
    assert_eq!(released, stroke);
    eraser.set_size(1);
    assert_eq!(eraser.get_vertices()[0], v(-11, 11, white));
    Tool::set_size(&mut eraser, 2);
    assert_eq!(eraser.get_vertices()[0], v(-12, 12, white));
}

#[test]
fn line_of_no_length_is_empty() {
    let mut line = Line::new(10, BLUE);
    line.on_mouse_down(p(5, 5));
    assert!(line.get_vertices().is_empty());
    assert!(line.on_mouse_up(p(5, 5)).is_empty());
    let mut other = Line::new(0, BLUE);
    other.on_mouse_down(p(i32::MIN, i32::MAX));
    assert!(other.on_mouse_move(p(i32::MIN, i32::MAX)).is_empty());
    assert!(other.on_mouse_up(p(i32::MIN, i32::MAX)).is_empty());
}

#[test]
fn line_along_three_four_five() {
    let mut line = Line::new(UNIT / 100, BLUE);
    line.on_mouse_down(p(0, 0));
    let released = line.on_mouse_up(p(3 * UNIT, 4 * UNIT));
    let (ex, ey) = (3 * UNIT as i64, 4 * UNIT as i64);
    assert_eq!(
        released,
        strip((-8000, 6000), (8000, -6000), (ex - 8000, ey + 6000), (ex + 8000, ey - 6000), BLUE)
    );
}

#[test]
fn line_rounds_each_part_toward_zero() {
    let mut line = Line::new(10, BLUE);
    line.on_mouse_down(p(0, 0));
    let diagonal = line.on_mouse_move(p(1, 1));
    assert_eq!(diagonal, strip((-7, 7), (7, -7), (-6, 8), (8, -6), BLUE));
    let back = line.on_mouse_move(p(-1, -1));
    assert_eq!(back, strip((7, -7), (-7, 7), (6, -8), (-8, 6), BLUE));
    let shallow = line.on_mouse_move(p(3, 1));
    assert_eq!(shallow, strip((-3, 9), (3, -9), (0, 10), (6, -8), BLUE));
}

#[test]
fn line_along_the_axes() {
    let mut line = Line::new(4, GREY);
    line.on_mouse_down(p(10, 10));
    assert_eq!(
        line.on_mouse_move(p(20, 10)),
        strip((10, 14), (10, 6), (20, 14), (20, 6), GREY)
    );
    assert_eq!(
        line.on_mouse_move(p(10, 0)),
        strip((14, 10), (6, 10), (14, 0), (6, 0), GREY)
    );
    line.set_size(-4);
    assert_eq!(
        line.on_mouse_move(p(20, 10)),
        strip((10, 6), (10, 14), (20, 6), (20, 14), GREY)
    );
    line.set_size(0);
    assert_eq!(
        line.on_mouse_move(p(20, 10)),
        strip((10, 10), (10, 10), (20, 10), (20, 10), GREY)
    );
}

#[test]
fn line_across_the_whole_range() {
    let mut line = Line::new(i32::MIN, BLUE);
    line.on_mouse_down(p(i32::MIN, i32::MIN));
    let released = line.on_mouse_up(p(i32::MAX, i32::MAX));
    assert_eq!(released.len(), 6);
    let step: i64 = 1518500249;
    let (low, high) = (i32::MIN as i64, i32::MAX as i64);
    assert_eq!(
        released,
        strip(
            (low + step, low - step),
            (low - step, low + step),
            (high + step, high - step),
            (high - step, high + step),
            BLUE
        )
    );
    let mut flat = Line::new(i32::MAX, BLUE);
    flat.on_mouse_down(p(i32::MAX, 0));
    let released = flat.on_mouse_up(p(i32::MIN, 0));
    assert_eq!(
        released,
        strip((high, -high), (high, high), (low, -high), (low, high), BLUE)
    );
}

#[test]
fn line_moved_twice_to_one_position_is_the_same() {
    let mut line = Line::new(25, BLUE);
    line.on_mouse_down(p(3, 4));
    let first = line.on_mouse_move(p(300, -120));
    let second = line.on_mouse_move(p(300, -120));
    assert_eq!(first.len(), 6);
    assert_eq!(first, second);
    assert_eq!(line.get_vertices(), first);
}

#[test]
fn line_forgets_the_stroke_when_it_ends() {
    let mut line = Line::new(25, BLUE);
    assert!(line.get_vertices().is_empty());
    assert!(line.on_mouse_move(p(1, 1)).is_empty());
    line.on_mouse_down(p(0, 0));
    assert_eq!(line.on_mouse_up(p(100, 0)).len(), 6);
    assert!(line.get_vertices().is_empty());
    assert!(line.on_mouse_up(p(5, 5)).is_empty());
    Tool::set_color(&mut line, GREY);
    Tool::set_size(&mut line, 1);
    line.set_color(GREY);
    line.on_mouse_down(p(0, 0));
    assert_eq!(line.on_mouse_up(p(0, 9))[0], v(-1, 0, GREY));
}

#[test]
fn rectangle_spans_the_two_corners_whichever_way() {
    let mut rectangle = Rectangle::new(BLUE);
    let expected = vec![
        v(-2, -3, BLUE),
        v(5, -3, BLUE),
        v(5, 7, BLUE),
        v(-2, -3, BLUE),
        v(5, 7, BLUE),
        v(-2, 7, BLUE),
    ];
    for (start, end) in [
        (p(-2, -3), p(5, 7)),
        (p(5, 7), p(-2, -3)),
        (p(-2, 7), p(5, -3)),
        (p(5, -3), p(-2, 7)),
    ] {
        rectangle.on_mouse_down(start);
        assert_eq!(rectangle.on_mouse_up(end), expected);
    }
}

#[test]
fn rectangle_of_one_point_is_six_equal_vertices() {
    let mut rectangle = Rectangle::new(GREY);
    rectangle.on_mouse_down(p(i32::MAX, i32::MIN));
    let stroke = rectangle.get_vertices();
    assert_eq!(stroke, vec![v(i32::MAX as i64, i32::MIN as i64, GREY); 6]);
}

#[test]
fn rectangle_moved_twice_to_one_position_is_the_same() {
    let mut rectangle = Rectangle::new(BLUE);
    rectangle.on_mouse_down(p(0, 0));
    let first = rectangle.on_mouse_move(p(-40, 15));
    let second = rectangle.on_mouse_move(p(-40, 15));
    assert_eq!(first.len(), 6);
    assert_eq!(first, second);
}

#[test]
fn rectangle_takes_no_size_and_forgets_the_stroke() {
    let mut rectangle = Rectangle::new(BLUE);
    assert!(rectangle.get_vertices().is_empty());
    assert!(rectangle.on_mouse_move(p(1, 1)).is_empty());
    assert!(rectangle.on_mouse_up(p(1, 1)).is_empty());
    rectangle.on_mouse_down(p(0, 0));
    rectangle.set_size(50);
    rectangle.set_color(GREY);
    let released = rectangle.on_mouse_up(p(1, 1));
    assert_eq!(released[2], v(1, 1, GREY));
    assert_eq!(released[5], v(0, 1, GREY));
    assert!(rectangle.get_vertices().is_empty());
    Tool::set_color(&mut rectangle, BLUE);
    rectangle.on_mouse_down(p(0, 0));
    assert_eq!(rectangle.get_vertices()[0], v(0, 0, BLUE));
}

#[test]
fn active_tool_hands_each_call_to_its_tool() {
    let mut tools = vec![
        ActiveTool::Brush(Brush::new(1, BLUE)),
        ActiveTool::Eraser(Eraser::new(1)),
        ActiveTool::Line(Line::new(1, BLUE)),
        ActiveTool::Rectangle(Rectangle::new(BLUE)),
    ];
    let kinds = [ToolType::Brush, ToolType::Eraser, ToolType::Line, ToolType::Rectangle];
    let after_move = [12, 12, 6, 6];
    let after_up = [12, 12, 0, 0];
    for (i, tool) in tools.iter_mut().enumerate() {
        assert_eq!(tool.kind(), kinds[i]);
        assert!(tool.get_vertices().is_empty());
        tool.set_color(GREY);
        tool.set_size(2);
        tool.on_mouse_down(p(0, 0));
        let moved = tool.on_mouse_move(p(10, 0));
        assert_eq!(moved.len(), after_move[i]);
        assert_eq!(tool.get_vertices(), moved);
        let released = tool.on_mouse_up(p(10, 0));
        assert_eq!(released, moved);
        assert_eq!(tool.get_vertices().len(), after_up[i]);
        let expected = if i == 1 { Color::white() } else { GREY };
        assert!(released.iter().all(|vertex| vertex.color == expected));
    }
    let corner: Vec<(i64, i64)> = tools
        .iter_mut()
        .map(|tool| {
            tool.on_mouse_down(p(0, 0));
            let moved = tool.on_mouse_move(p(10, 0));
            (moved[0].x, moved[0].y)
        })
        .collect();
    assert_eq!(corner, vec![(-2, 2), (-2, 2), (0, 2), (0, 0)]);
}
