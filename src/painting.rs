//! The painting canvas: a drawing made of lines, each the path of one
//! pointer drag, and the per-frame step that records input and emits
//! polyline draw commands.
use vstd::prelude::*;

use crate::geometry::{
    absolute_of, absolute_point, local_of, local_point, offset_in_range, Point, Rgba, ScreenPos,
    StrokeStyle, UNITS_PER_POINT,
};

verus! {

/// What the host reports for one frame of the canvas.
#[derive(Clone, Copy, Debug, PartialEq, Eq, Structural)]
pub struct CanvasInput {
    /// Top-left corner of the region allocated to the canvas this frame.
    pub canvas_min: ScreenPos,
    /// Pointer position, when the host knows one.
    pub pointer: Option<ScreenPos>,
    /// Whether a drag gesture on the canvas is in progress.
    pub active: bool,
}

/// One draw command: a polyline through absolute points with a stroke.
#[derive(Debug)]
pub struct PolyLine {
    pub points: Vec<Point>,
    pub stroke: StrokeStyle,
}

/// A freehand drawing: its lines in draw order, and the stroke style that
/// all of them are drawn with.
pub struct Painting {
    lines: Vec<Vec<Point>>,
    stroke: StrokeStyle,
}

/// No two consecutive points of `line` are equal.
pub open spec fn no_repeats(line: Seq<Point>) -> bool {
    forall|j: int| 0 <= j < line.len() - 1 ==> #[trigger] line[j] != line[j + 1]
}

/// The shape that recording input keeps: every line free of consecutive
/// repeats and made of in-range offsets, and every line but the last
/// (the open one) holding at least one point.
pub open spec fn drawing_wf(lines: Seq<Seq<Point>>) -> bool {
    &&& forall|i: int| 0 <= i < lines.len() ==> no_repeats(#[trigger] lines[i])
    &&& forall|i: int, j: int|
        0 <= i < lines.len() && 0 <= j < lines[i].len() ==> offset_in_range(
            #[trigger] lines[i][j],
        )
    &&& forall|i: int| 0 <= i < lines.len() - 1 ==> #[trigger] lines[i].len() > 0
}

/// The drawing with a line to append to: an empty drawing gets one empty line.
pub open spec fn with_open_line(lines: Seq<Seq<Point>>) -> Seq<Seq<Point>> {
    if lines.len() == 0 {
        seq![Seq::empty()]
    } else {
        lines
    }
}

/// The drawing after one frame of input. During a drag with a known
/// pointer position, the canvas-local point is appended to the open line
/// unless it equals that line's last point. Outside a drag, a non-empty
/// open line is sealed by starting a new empty one.
pub open spec fn record(lines: Seq<Seq<Point>>, input: CanvasInput) -> Seq<Seq<Point>> {
    let ls = with_open_line(lines);
    let cur = ls.last();
    if input.active {
        match input.pointer {
            Some(p) => {
                let q = local_of(input.canvas_min, p);
                if cur.len() > 0 && cur.last() == q {
                    ls
                } else {
                    ls.update(ls.len() - 1, cur.push(q))
                }
            },
            None => ls,
        }
    } else if cur.len() > 0 {
        ls.push(Seq::empty())
    } else {
        ls
    }
}

/// The drawing after a sequence of frames, first to last.
pub open spec fn record_all(lines: Seq<Seq<Point>>, frames: Seq<CanvasInput>) -> Seq<Seq<Point>>
    decreases frames.len(),
{
    if frames.len() == 0 {
        lines
    } else {
        record(record_all(lines, frames.drop_last()), frames.last())
    }
}

/// The absolute points of a line drawn on a canvas with corner `min`, if
/// the line is long enough to be drawn at all.
pub open spec fn drawn_line(min: ScreenPos, line: Seq<Point>) -> Option<Seq<Point>> {
    if line.len() >= 2 {
        Some(line.map_values(|q: Point| absolute_of(min, q)))
    } else {
        None
    }
}

/// The point sequences of the draw commands for a drawing: one per line
/// of two or more points, in draw order.
pub open spec fn draw_list(lines: Seq<Seq<Point>>, min: ScreenPos) -> Seq<Seq<Point>> {
    lines.filter_map(|line: Seq<Point>| drawn_line(min, line))
}

impl Default for Painting {
    /// An empty drawing with the initial stroke style.
    fn default() -> (p: Painting)
        ensures
            p.wf(),
            p.lines_view() == Seq::<Seq<Point>>::empty(),
            p.style() == (StrokeStyle {
                width: UNITS_PER_POINT,
                color: Rgba { r: 140, g: 160, b: 255, a: 255 },
            }),
    {
        let p = Painting { lines: Vec::new(), stroke: StrokeStyle::initial() };
        assert(p.lines_view() =~= Seq::<Seq<Point>>::empty());
        p
    }
}

/// The point sequences held by a vector of lines.
pub open spec fn lines_of(v: Seq<Vec<Point>>) -> Seq<Seq<Point>> {
    Seq::new(v.len(), |i: int| v[i]@)
}

impl Painting {
    /// The lines of the drawing, in draw order.
    pub closed spec fn lines_view(&self) -> Seq<Seq<Point>> {
        lines_of(self.lines@)
    }

    /// The stroke style the drawing is drawn with.
    pub closed spec fn style(&self) -> StrokeStyle {
        self.stroke
    }

    /// The drawing has the shape that recording input keeps.
    pub open spec fn wf(&self) -> bool {
        drawing_wf(self.lines_view())
    }

    /// Applies one frame of the controls: the style editor's current value
    /// becomes the drawing's style, and a click of "clear" discards every line.
    pub fn ui_control(&mut self, stroke: StrokeStyle, clear_clicked: bool)
        requires
            old(self).wf(),
        ensures
            final(self).wf(),
            final(self).style() == stroke,
            clear_clicked ==> final(self).lines_view() == Seq::<Seq<Point>>::empty(),
            !clear_clicked ==> final(self).lines_view() == old(self).lines_view(),
    {
        self.stroke = stroke;
        if clear_clicked {
            self.lines.clear();
            assert(self.lines_view() =~= Seq::<Seq<Point>>::empty());
        }
    }

    /// The lines of the drawing, in draw order; the last one is open while
    /// the drawing is not empty.
    pub fn lines(&self) -> (r: &Vec<Vec<Point>>)
        ensures
            lines_of(r@) == self.lines_view(),
    {
        &self.lines
    }

    /// The stroke style the drawing is drawn with.
    pub fn stroke(&self) -> (r: StrokeStyle)
        ensures
            r == self.style(),
    {
        self.stroke
    }

    /// Records one frame of pointer input and returns the draw commands
    /// for the whole drawing, in draw order, all with the current style.
    pub fn ui_content(&mut self, input: CanvasInput) -> (cmds: Vec<PolyLine>)
        requires
            old(self).wf(),
        ensures
            final(self).wf(),
            final(self).lines_view() == record(old(self).lines_view(), input),
            final(self).style() == old(self).style(),
            cmds@.len() == draw_list(final(self).lines_view(), input.canvas_min).len(),
            forall|k: int| #![trigger cmds@[k]]
                0 <= k < cmds@.len() ==> {
                    &&& cmds@[k].points@ == draw_list(
                        final(self).lines_view(),
                        input.canvas_min,
                    )[k]
                    &&& cmds@[k].stroke == final(self).style()
                },
    {
        self.record_input(input);
        self.draw_commands(input.canvas_min)
    }

    /// Updates the lines for one frame of pointer input.
    fn record_input(&mut self, input: CanvasInput)
        requires
            old(self).wf(),
        ensures
            final(self).wf(),
            final(self).lines_view() == record(old(self).lines_view(), input),
            final(self).stroke == old(self).stroke,
    {
        let ghost before = self.lines_view();
        if self.lines.len() == 0 {
            self.lines.push(Vec::new());
            assert(self.lines_view() =~= with_open_line(before));
        }
        let ghost ls = self.lines_view();
        assert(ls == with_open_line(before));
        let mut cur = self.lines.pop().unwrap();
        assert(cur@ == ls.last());
        assert(lines_of(self.lines@) =~= ls.drop_last());
        if input.active {
            if let Some(p) = input.pointer {
                let q = local_point(input.canvas_min, p);
                let n = cur.len();
                if n == 0 || cur[n - 1] != q {
                    cur.push(q);
                }
            }
            self.lines.push(cur);
        } else {
            let sealed = cur.len() > 0;
            self.lines.push(cur);
            if sealed {
                self.lines.push(Vec::new());
            }
        }
        assert(self.lines_view() =~= record(before, input));
    }

    /// One polyline per line of two or more points, in draw order.
    fn draw_commands(&self, min: ScreenPos) -> (cmds: Vec<PolyLine>)
        requires
            self.wf(),
        ensures
            cmds@.len() == draw_list(self.lines_view(), min).len(),
            forall|k: int| #![trigger cmds@[k]]
                0 <= k < cmds@.len() ==> {
                    &&& cmds@[k].points@ == draw_list(self.lines_view(), min)[k]
                    &&& cmds@[k].stroke == self.stroke
                },
    {
        let ghost all = self.lines_view();
        let ghost f = |line: Seq<Point>| drawn_line(min, line);
        let mut cmds: Vec<PolyLine> = Vec::new();
        let mut i: usize = 0;
        while i < self.lines.len()
            invariant
                self.wf(),
                all == self.lines_view(),
                f == (|line: Seq<Point>| drawn_line(min, line)),
                i <= self.lines.len(),
                cmds@.len() == all.take(i as int).filter_map(f).len(),
                forall|k: int| #![trigger cmds@[k]]
                    0 <= k < cmds@.len() ==> {
                        &&& cmds@[k].points@ == all.take(i as int).filter_map(f)[k]
                        &&& cmds@[k].stroke == self.stroke
                    },
            decreases self.lines.len() - i,
        {
            let line = &self.lines[i];
            proof {
                all.lemma_filter_map_take_succ(f, i as int);
                assert(all[i as int] == line@);
            }
            let ghost prev = all.take(i as int).filter_map(f);
            let ghost before = cmds@;
            if line.len() >= 2 {
                let points = shifted(min, line);
                cmds.push(PolyLine { points, stroke: self.stroke });
                assert(all.take(i + 1).filter_map(f) == prev + seq![points@]);
                assert forall|k: int| 0 <= k < before.len() implies cmds@[k] == before[k] by {}
            } else {
                assert(all.take(i + 1).filter_map(f) == prev);
            }
            i = i + 1;
        }
        assert(all.take(all.len() as int) =~= all);
        assert(draw_list(all, min) == all.filter_map(f));
        cmds
    }
}

/// The absolute points of a recorded line on a canvas with corner `min`.
fn shifted(min: ScreenPos, line: &Vec<Point>) -> (points: Vec<Point>)
    requires
        forall|j: int| 0 <= j < line@.len() ==> offset_in_range(#[trigger] line@[j]),
    ensures
        points@ == line@.map_values(|q: Point| absolute_of(min, q)),
{
    let mut points: Vec<Point> = Vec::new();
    let mut j: usize = 0;
    while j < line.len()
        invariant
            j <= line@.len(),
            forall|t: int| 0 <= t < line@.len() ==> offset_in_range(#[trigger] line@[t]),
            points@ =~= line@.take(j as int).map_values(|q: Point| absolute_of(min, q)),
        decreases line@.len() - j,
    {
        points.push(absolute_point(min, line[j]));
        j = j + 1;
    }
    assert(line@.take(line@.len() as int) =~= line@);
    points
}

} // verus!
