use egui_paint::geometry::{absolute_point, local_point, Point, Rgba, ScreenPos, StrokeStyle};
use egui_paint::painting::{CanvasInput, Painting, PolyLine};

fn pos(x: i32, y: i32) -> ScreenPos {
    ScreenPos { x, y }
}

fn pt(x: i64, y: i64) -> Point {
    Point { x, y }
}

fn drag(min: ScreenPos, x: i32, y: i32) -> CanvasInput {
    CanvasInput { canvas_min: min, pointer: Some(pos(x, y)), active: true }
}

fn idle(min: ScreenPos) -> CanvasInput {
    CanvasInput { canvas_min: min, pointer: None, active: false }
}

fn points(cmd: &PolyLine) -> Vec<Point> {
    cmd.points.clone()
}

#[test]
fn drag_of_three_points_then_release() {
    let min = pos(100, 50);
    let mut p = Painting::default();
    p.ui_content(drag(min, 100, 50));
    p.ui_content(drag(min, 105, 50));
    p.ui_content(drag(min, 105, 55));
    let cmds = p.ui_content(idle(min));
    assert_eq!(p.lines(), &vec![vec![pt(0, 0), pt(5, 0), pt(5, 5)], vec![]]);
    assert_eq!(cmds.len(), 1);
    assert_eq!(points(&cmds[0]), vec![pt(100, 50), pt(105, 50), pt(105, 55)]);
    assert_eq!(cmds[0].stroke, p.stroke());
    let again = p.ui_content(idle(min));
    assert_eq!(p.lines().len(), 2);
    assert!(p.lines()[1].is_empty());
    assert_eq!(again.len(), 1);
}

#[test]
fn stationary_pointer_adds_one_point() {
    let min = pos(0, 0);
    let mut p = Painting::default();
    let mut last = Vec::new();
    for _ in 0..3 {
        last = p.ui_content(drag(min, 2, 2));
    }
    assert_eq!(p.lines(), &vec![vec![pt(2, 2)]]);
    assert!(last.is_empty());
}

#[test]
fn clear_during_drag_starts_fresh_line() {
    let min = pos(0, 0);
    let mut p = Painting::default();
    p.ui_content(drag(min, 1, 1));
    p.ui_content(drag(min, 2, 2));
    let style = p.stroke();
    p.ui_control(style, true);
    assert!(p.lines().is_empty());
    let cmds = p.ui_content(drag(min, 3, 3));
    assert_eq!(p.lines(), &vec![vec![pt(3, 3)]]);
    assert!(cmds.is_empty());
    let cmds = p.ui_content(drag(min, 4, 4));
    assert_eq!(p.lines(), &vec![vec![pt(3, 3), pt(4, 4)]]);
    assert_eq!(points(&cmds[0]), vec![pt(3, 3), pt(4, 4)]);
}

#[test]
fn clear_empties_any_drawing() {
    let min = pos(0, 0);
    let mut empty = Painting::default();
    let style = empty.stroke();
    empty.ui_control(style, true);
    assert!(empty.lines().is_empty());

    let mut p = Painting::default();
    for i in 0..4 {
        p.ui_content(drag(min, i, 0));
        p.ui_content(drag(min, i, 1));
        p.ui_content(idle(min));
    }
    assert_eq!(p.lines().len(), 5);
    p.ui_control(style, true);
    assert!(p.lines().is_empty());
    assert!(p.ui_content(idle(min)).is_empty());
}

#[test]
fn control_without_clear_keeps_lines_and_sets_style() {
    let min = pos(0, 0);
    let mut p = Painting::default();
    p.ui_content(drag(min, 0, 0));
    p.ui_content(drag(min, 1, 0));
    let red = StrokeStyle { width: 250, color: Rgba { r: 255, g: 0, b: 0, a: 255 } };
    p.ui_control(red, false);
    assert_eq!(p.stroke(), red);
    assert_eq!(p.lines(), &vec![vec![pt(0, 0), pt(1, 0)]]);
}

#[test]
fn drag_never_repeats_consecutive_points() {
    let min = pos(-3, 7);
    let mut p = Painting::default();
    let samples = [(0, 0), (0, 0), (1, 0), (1, 0), (1, 0), (0, 0), (2, 2), (2, 2)];
    for (x, y) in samples.iter() {
        p.ui_content(drag(min, *x, *y));
    }
    let line = &p.lines()[0];
    assert_eq!(line, &vec![pt(3, -7), pt(4, -7), pt(3, -7), pt(5, -5)]);
    for w in line.windows(2) {
        assert_ne!(w[0], w[1]);
    }
}

#[test]
fn sealed_line_is_never_changed() {
    let min = pos(0, 0);
    let mut p = Painting::default();
    p.ui_content(drag(min, 0, 0));
    p.ui_content(drag(min, 9, 9));
    p.ui_content(idle(min));
    let sealed = p.lines()[0].clone();
    p.ui_content(drag(min, 9, 9));
    p.ui_content(drag(min, 1, 1));
    p.ui_content(CanvasInput { canvas_min: min, pointer: None, active: true });
    p.ui_content(idle(min));
    p.ui_content(idle(min));
    assert_eq!(p.lines()[0], sealed);
    assert_eq!(p.lines(), &vec![vec![pt(0, 0), pt(9, 9)], vec![pt(9, 9), pt(1, 1)], vec![]]);
}

#[test]
fn only_lines_of_two_points_or_more_are_drawn_once_each() {
    let min = pos(10, 10);
    let mut p = Painting::default();
    // a single click: one point
    p.ui_content(drag(min, 10, 10));
    p.ui_content(idle(min));
    // a stroke of two points
    p.ui_content(drag(min, 11, 11));
    p.ui_content(drag(min, 12, 12));
    p.ui_content(idle(min));
    // a stroke of three points
    p.ui_content(drag(min, 20, 20));
    p.ui_content(drag(min, 21, 20));
    p.ui_content(drag(min, 22, 20));
    let cmds = p.ui_content(idle(min));
    assert_eq!(p.lines().len(), 4);
    assert_eq!(cmds.len(), 2);
    assert_eq!(points(&cmds[0]), vec![pt(11, 11), pt(12, 12)]);
    assert_eq!(points(&cmds[1]), vec![pt(20, 20), pt(21, 20), pt(22, 20)]);
}

#[test]
fn same_frame_twice_changes_nothing() {
    let min = pos(0, 0);
    let mut p = Painting::default();
    p.ui_content(drag(min, 0, 0));
    let first = p.ui_content(drag(min, 4, 4));
    let lines = p.lines().clone();
    let second = p.ui_content(drag(min, 4, 4));
    assert_eq!(p.lines(), &lines);
    assert_eq!(first.len(), second.len());
    assert_eq!(points(&first[0]), points(&second[0]));
}

#[test]
fn pointer_unknown_during_drag_adds_nothing() {
    let min = pos(0, 0);
    let mut p = Painting::default();
    p.ui_content(CanvasInput { canvas_min: min, pointer: None, active: true });
    assert_eq!(p.lines(), &vec![Vec::<Point>::new()]);
}

#[test]
fn idle_frames_on_empty_drawing_keep_one_open_line() {
    let min = pos(0, 0);
    let mut p = Painting::default();
    assert!(p.lines().is_empty());
    assert!(p.ui_content(idle(min)).is_empty());
    assert!(p.ui_content(idle(min)).is_empty());
    assert_eq!(p.lines(), &vec![Vec::<Point>::new()]);
}

#[test]
fn moved_canvas_shifts_drawn_points() {
    let mut p = Painting::default();
    p.ui_content(drag(pos(0, 0), 3, 4));
    p.ui_content(drag(pos(0, 0), 6, 8));
    let cmds = p.ui_content(idle(pos(100, 200)));
    assert_eq!(points(&cmds[0]), vec![pt(103, 204), pt(106, 208)]);
}

#[test]
fn style_is_read_at_draw_time() {
    let min = pos(0, 0);
    let mut p = Painting::default();
    p.ui_content(drag(min, 0, 0));
    p.ui_content(drag(min, 1, 1));
    p.ui_content(idle(min));
    let green = StrokeStyle { width: 300, color: Rgba { r: 0, g: 255, b: 0, a: 128 } };
    p.ui_control(green, false);
    let cmds = p.ui_content(idle(min));
    assert_eq!(cmds[0].stroke, green);
}

#[test]
fn initial_style_is_one_point_light_blue() {
    let p = Painting::default();
    assert_eq!(
        p.stroke(),
        StrokeStyle { width: 100, color: Rgba { r: 140, g: 160, b: 255, a: 255 } }
    );
    assert_eq!(StrokeStyle::initial(), p.stroke());
}

#[test]
fn local_and_absolute_points() {
    assert_eq!(local_point(pos(10, 20), pos(13, 18)), pt(3, -2));
    assert_eq!(absolute_point(pos(10, 20), pt(3, -2)), pt(13, 18));
    let far = local_point(pos(i32::MIN, i32::MAX), pos(i32::MAX, i32::MIN));
    assert_eq!(far, pt(0xFFFF_FFFF, -0xFFFF_FFFF));
    assert_eq!(absolute_point(pos(i32::MAX, i32::MAX), far), pt(i32::MAX as i64 + 0xFFFF_FFFF, i32::MAX as i64 - 0xFFFF_FFFF));
}

#[test]
fn extreme_positions_are_recorded_and_drawn() {
    let min = pos(i32::MIN, i32::MIN);
    let mut p = Painting::default();
    p.ui_content(drag(min, i32::MAX, i32::MAX));
    let cmds = p.ui_content(drag(pos(i32::MAX, i32::MAX), i32::MIN, i32::MIN));
    assert_eq!(p.lines()[0], vec![pt(0xFFFF_FFFF, 0xFFFF_FFFF), pt(-0xFFFF_FFFF, -0xFFFF_FFFF)]);
    assert_eq!(
        points(&cmds[0]),
        vec![pt(i32::MAX as i64 + 0xFFFF_FFFF, i32::MAX as i64 + 0xFFFF_FFFF), pt(i32::MIN as i64, i32::MIN as i64)]
    );
}
