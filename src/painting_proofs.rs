//! Facts about recording and drawing that hold over any run of frames.
use vstd::prelude::*;

use crate::geometry::{absolute_of, Point, ScreenPos};
use crate::painting::{
    draw_list, drawing_wf, drawn_line, no_repeats, record, record_all, CanvasInput,
};

verus! {

/// One frame of input keeps the shape of a drawing.
pub proof fn record_keeps_shape(lines: Seq<Seq<Point>>, input: CanvasInput)
    requires
        drawing_wf(lines),
    ensures
        drawing_wf(record(lines, input)),
{
    let r = record(lines, input);
    let ls = if lines.len() == 0 { seq![Seq::<Point>::empty()] } else { lines };
    assert(drawing_wf(ls));
    let n = ls.len() - 1;
    if input.active && input.pointer.is_some() {
        let cur = ls.last();
        assert forall|i: int| 0 <= i < r.len() implies no_repeats(#[trigger] r[i]) by {
            if i == n {
                assert(no_repeats(cur));
                assert forall|j: int| 0 <= j < r[i].len() - 1 implies #[trigger] r[i][j] != r[i][j
                    + 1] by {
                    if j + 1 < cur.len() {
                        assert(r[i][j] == cur[j] && r[i][j + 1] == cur[j + 1]);
                    }
                }
            }
        }
        assert forall|i: int, j: int|
            0 <= i < r.len() && 0 <= j < r[i].len() implies crate::geometry::offset_in_range(
            #[trigger] r[i][j],
        ) by {
            if i == n && j < cur.len() {
                assert(r[i][j] == cur[j]);
            }
        }
    }
}

/// Over any run of frames, no line of a drawing ever holds the same point
/// twice in a row: a pointer that stays put adds nothing.
pub proof fn drag_has_no_repeated_points(lines: Seq<Seq<Point>>, frames: Seq<CanvasInput>)
    requires
        drawing_wf(lines),
    ensures
        drawing_wf(record_all(lines, frames)),
        forall|i: int|
            0 <= i < record_all(lines, frames).len() ==> no_repeats(
                #[trigger] record_all(lines, frames)[i],
            ),
    decreases frames.len(),
{
    if frames.len() > 0 {
        drag_has_no_repeated_points(lines, frames.drop_last());
        record_keeps_shape(record_all(lines, frames.drop_last()), frames.last());
    }
}

/// Over any run of frames, every line before the open one stays exactly as
/// it was, and no line is removed: new points only reach the open line or
/// lines appended after it.
pub proof fn sealed_lines_never_change(lines: Seq<Seq<Point>>, frames: Seq<CanvasInput>)
    ensures
        record_all(lines, frames).len() >= lines.len(),
        forall|i: int|
            0 <= i < lines.len() - 1 ==> #[trigger] record_all(lines, frames)[i] == lines[i],
    decreases frames.len(),
{
    if frames.len() > 0 {
        sealed_lines_never_change(lines, frames.drop_last());
    }
}

/// A frame outside a drag seals a non-empty open line by appending a new
/// empty one; from then on, whatever frames follow, the sealed line and all
/// lines before it stay exactly as they were.
pub proof fn drag_end_seals_line(
    lines: Seq<Seq<Point>>,
    end: CanvasInput,
    frames: Seq<CanvasInput>,
)
    requires
        lines.len() > 0,
        lines.last().len() > 0,
        !end.active,
    ensures
        record(lines, end) == lines.push(Seq::empty()),
        forall|i: int|
            0 <= i < lines.len() ==> #[trigger] record_all(record(lines, end), frames)[i]
                == lines[i],
{
    let sealed = record(lines, end);
    sealed_lines_never_change(sealed, frames);
    assert forall|i: int| 0 <= i < lines.len() implies #[trigger] record_all(sealed, frames)[i]
        == lines[i] by {
        assert(sealed[i] == lines[i]);
    }
}

/// The draw commands of a drawing are its lines of two or more points, each
/// drawn exactly once and in order, shifted to the canvas corner `min`;
/// shorter lines are never drawn.
pub proof fn only_long_lines_drawn(lines: Seq<Seq<Point>>, min: ScreenPos)
    ensures
        draw_list(lines, min) == lines.filter(|line: Seq<Point>| line.len() >= 2).map_values(
            |line: Seq<Point>| line.map_values(|q: Point| absolute_of(min, q)),
        ),
        forall|k: int|
            0 <= k < draw_list(lines, min).len() ==> #[trigger] draw_list(lines, min)[k].len()
                >= 2,
    decreases lines.len(),
{
    let long = |line: Seq<Point>| line.len() >= 2;
    let shift = |line: Seq<Point>| line.map_values(|q: Point| absolute_of(min, q));
    let f = |line: Seq<Point>| drawn_line(min, line);
    reveal(Seq::filter);
    if lines.len() > 0 {
        let rest = lines.drop_last();
        only_long_lines_drawn(rest, min);
        assert(draw_list(rest, min) == rest.filter_map(f));
        assert(draw_list(lines, min) == lines.filter_map(f));
        if long(lines.last()) {
            assert(lines.filter(long) == rest.filter(long).push(lines.last()));
            assert(lines.filter(long).map_values(shift) =~= rest.filter(long).map_values(shift)
                + seq![shift(lines.last())]);
        } else {
            assert(lines.filter(long) == rest.filter(long));
        }
    } else {
        assert(lines.filter(long).map_values(shift) =~= Seq::empty());
    }
}

/// Handing the same frame in twice records nothing more the second time.
pub proof fn repeated_frame_changes_nothing(lines: Seq<Seq<Point>>, input: CanvasInput)
    ensures
        record(record(lines, input), input) == record(lines, input),
{
}

} // verus!
