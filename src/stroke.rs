use vstd::prelude::*;

verus! {

/// The fixed-point unit of canvas space: a point at canvas position `(1, 1)`
/// is held as `(CANVAS_UNIT, CANVAS_UNIT)`. Canvas space spans the image's
/// aspect-corrected unit square, so one unit is far below a pixel.
pub const CANVAS_UNIT: i32 = 65536;

/// A position in canvas space, in units of `1 / CANVAS_UNIT`.
#[derive(Clone, Copy, Debug, PartialEq, Eq, Structural)]
pub struct Point {
    pub x: i32,
    pub y: i32,
}

/// Width and colour of a stroke, as the drawing surface takes them.
#[verifier::external_type_specification]
#[verifier::external_body]
pub struct ExStrokeStyle(egui::Stroke);

/// Relies on `egui::Stroke::default`, the style that a fresh stroke starts
/// with before the brush settings are applied to it.
#[verifier::external_body]
fn default_style() -> (r: egui::Stroke) {
    egui::Stroke::default()
}

/// The points of a stroke with `p` appended, unless `p` repeats the last one.
pub open spec fn append_distinct(s: Seq<Point>, p: Point) -> Seq<Point> {
    if s.len() > 0 && s.last() == p {
        s
    } else {
        s.push(p)
    }
}

/// The points of a stroke that starts as `s` and is then handed each of `ps`
/// in turn.
pub open spec fn append_all(s: Seq<Point>, ps: Seq<Point>) -> Seq<Point>
    decreases ps.len(),
{
    if ps.len() == 0 {
        s
    } else {
        append_distinct(append_all(s, ps.drop_last()), ps.last())
    }
}

/// The number of maximal runs of equal consecutive positions in `ps`.
pub open spec fn run_count(ps: Seq<Point>) -> nat
    decreases ps.len(),
{
    if ps.len() == 0 {
        0
    } else if ps.len() == 1 || ps[ps.len() - 1] != ps[ps.len() - 2] {
        run_count(ps.drop_last()) + 1
    } else {
        run_count(ps.drop_last())
    }
}

/// No two consecutive points of `s` coincide.
pub open spec fn no_repeats(s: Seq<Point>) -> bool {
    forall|i: int| 0 < i < s.len() ==> #[trigger] s[i] != s[i - 1]
}

/// A stroke fed with positions `ps` from empty, one `append_distinct` (one
/// frame of a held pointer) per position, keeps one point per run of equal
/// consecutive positions: its point count is the number of distinct
/// consecutive positions, no two of its consecutive points coincide, and it
/// ends at the last position fed.
pub proof fn lemma_append_all_counts_runs(ps: Seq<Point>)
    ensures
        forall|k: int|
            0 <= k < ps.len() ==> #[trigger] append_all(seq![], ps.take(k + 1)) == append_distinct(
                append_all(seq![], ps.take(k)),
                ps[k],
            ),
        append_all(seq![], ps).len() == run_count(ps),
        no_repeats(append_all(seq![], ps)),
        ps.len() > 0 ==> append_all(seq![], ps).last() == ps.last(),
    decreases ps.len(),
{
    assert forall|k: int| 0 <= k < ps.len() implies #[trigger] append_all(seq![], ps.take(k + 1))
        == append_distinct(append_all(seq![], ps.take(k)), ps[k]) by {
        assert(ps.take(k + 1).drop_last() =~= ps.take(k));
    }
    if ps.len() > 0 {
        let pre = ps.drop_last();
        lemma_append_all_counts_runs(pre);
        if ps.len() > 1 {
            assert(pre.last() == ps[ps.len() - 2]);
        }
    }
}

/// One continuous freehand line: its points in canvas space, in drawing
/// order, and its style.
pub struct Line {
    pub points: Vec<Point>,
    pub style: egui::Stroke,
}

impl View for Line {
    type V = (Seq<Point>, egui::Stroke);

    open spec fn view(&self) -> (Seq<Point>, egui::Stroke) {
        (self.points@, self.style)
    }
}

impl Line {
    /// An empty line in the default style.
    pub fn new() -> (r: Line)
        ensures
            r.points@ == Seq::<Point>::empty(),
    {
        Line { points: Vec::new(), style: default_style() }
    }

    /// Appends `p` unless it repeats the last point, so that no segment has
    /// zero length. Returns whether the line grew.
    pub fn push_point(&mut self, p: Point) -> (grew: bool)
        ensures
            final(self).points@ == append_distinct(old(self).points@, p),
            final(self).style == old(self).style,
            grew == (final(self).points@.len() == old(self).points@.len() + 1),
    {
        let n = self.points.len();
        if n > 0 && self.points[n - 1] == p {
            false
        } else {
            self.points.push(p);
            true
        }
    }
}

} // verus!
