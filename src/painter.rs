use vstd::prelude::*;
use crate::bitmap::{decode_image, decoded_rgba, Bitmap, LoadError};
use crate::stroke::{append_distinct, Line, Point};

verus! {

/// A line as the contracts see it: its points and its style.
pub type LineModel = (Seq<Point>, egui::Stroke);

/// The history and redo stack after an undo: the last sealed line (the one
/// before the line in progress) moves onto the redo stack. Nothing changes
/// when there is no sealed line.
pub open spec fn undone(h: Seq<LineModel>, r: Seq<LineModel>) -> (Seq<LineModel>, Seq<LineModel>) {
    if h.len() >= 2 {
        (h.remove(h.len() - 2), r.push(h[h.len() - 2]))
    } else {
        (h, r)
    }
}

/// The history and redo stack after a redo: the top of the redo stack goes
/// back just before the line in progress. Nothing changes when the redo
/// stack is empty.
pub open spec fn redone(h: Seq<LineModel>, r: Seq<LineModel>) -> (Seq<LineModel>, Seq<LineModel>) {
    if r.len() > 0 {
        (h.insert(h.len() - 1, r.last()), r.drop_last())
    } else {
        (h, r)
    }
}

/// The positions in the history of the lines that hold at least one point,
/// in drawing order: the lines that are rendered and exported.
pub open spec fn drawn_indices(h: Seq<LineModel>) -> Seq<int>
    decreases h.len(),
{
    if h.len() == 0 {
        seq![]
    } else if h.last().0.len() > 0 {
        drawn_indices(h.drop_last()).push(h.len() - 1)
    } else {
        drawn_indices(h.drop_last())
    }
}

/// Undoing and then redoing at once gives back the same history and redo
/// stack, lines and order alike, whenever there is a sealed line to undo.
pub proof fn lemma_undo_then_redo(h: Seq<LineModel>, r: Seq<LineModel>)
    requires
        h.len() >= 2,
    ensures
        redone(undone(h, r).0, undone(h, r).1) == (h, r),
{
    let (h1, r1) = undone(h, r);
    let (h2, r2) = redone(h1, r1);
    assert(h2 =~= h);
    assert(r2 =~= r);
}

/// A history whose lines are all empty has nothing to render or export, so
/// an export of it is the loaded image, pixel for pixel.
pub proof fn lemma_blank_history_draws_nothing(h: Seq<LineModel>)
    requires
        forall|i: int| 0 <= i < h.len() ==> (#[trigger] h[i]).0.len() == 0,
    ensures
        drawn_indices(h) == Seq::<int>::empty(),
    decreases h.len(),
{
    if h.len() > 0 {
        let pre = h.drop_last();
        assert forall|i: int| 0 <= i < pre.len() implies (#[trigger] pre[i]).0.len() == 0 by {
            assert(pre[i] == h[i]);
        }
        lemma_blank_history_draws_nothing(pre);
        assert(h.last() == h[h.len() - 1]);
    }
}

/// Every line before the one in progress has at least one point, and so has
/// every line on the redo stack: only the line in progress may be empty.
pub open spec fn sealed_lines_drawn(h: Seq<LineModel>, r: Seq<LineModel>) -> bool {
    &&& forall|i: int| 0 <= i < h.len() - 1 ==> (#[trigger] h[i]).0.len() > 0
    &&& forall|j: int| 0 <= j < r.len() ==> (#[trigger] r[j]).0.len() > 0
}

/// The drawn layer over an image: the history of lines, whose last entry is
/// the line in progress, the lines taken back by undo, and the image.
pub struct Painter {
    lines: Vec<Line>,
    redo: Vec<Line>,
    active: bool,
    img: Option<Bitmap>,
    changed: bool,
}

impl Painter {
    /// The lines in drawing order; the last one is in progress.
    pub closed spec fn history(&self) -> Seq<LineModel> {
        self.lines@.map_values(|l: Line| l@)
    }

    /// The lines taken back by undo; the most recent is last.
    pub closed spec fn redo_stack(&self) -> Seq<LineModel> {
        self.redo@.map_values(|l: Line| l@)
    }

    /// Whether pointer movement draws.
    pub closed spec fn is_active_spec(&self) -> bool {
        self.active
    }

    /// The loaded image, if any.
    pub closed spec fn image_spec(&self) -> Option<(u32, u32, Seq<u8>)> {
        match self.img {
            Some(b) => Some(b@),
            None => None,
        }
    }

    /// Whether undo or redo changed the history since the display last
    /// asked.
    pub closed spec fn changed_spec(&self) -> bool {
        self.changed
    }

    /// Lines exist exactly while an image is loaded, with a line in progress
    /// last; only that line may be empty; a loaded image holds four bytes per
    /// pixel.
    pub closed spec fn wf(&self) -> bool {
        &&& (self.img is None) == (self.lines@.len() == 0)
        &&& self.lines@.len() == 0 ==> self.redo@.len() == 0
        &&& sealed_lines_drawn(self.history(), self.redo_stack())
        &&& match self.img {
            Some(b) => b.wf(),
            None => true,
        }
    }

    /// What every valid painter holds: a line in progress exactly while an
    /// image is loaded, nothing to redo without one, and no empty line but
    /// the one in progress.
    pub proof fn lemma_wf_shape(&self)
        requires
            self.wf(),
        ensures
            (self.image_spec() is Some) == (self.history().len() >= 1),
            self.history().len() == 0 ==> self.redo_stack().len() == 0,
            sealed_lines_drawn(self.history(), self.redo_stack()),
    {
    }

    /// A painter with no image, inactive, and no lines: nothing is drawn
    /// until an image is loaded.
    pub fn new() -> (r: Painter)
        ensures
            r.wf(),
            r.history() == Seq::<LineModel>::empty(),
            r.redo_stack() == Seq::<LineModel>::empty(),
            !r.is_active_spec(),
            r.image_spec() is None,
            !r.changed_spec(),
    {
        let r = Painter { lines: Vec::new(), redo: Vec::new(), active: false, img: None, changed: false };
        assert(r.history() =~= Seq::<LineModel>::empty());
        assert(r.redo_stack() =~= Seq::<LineModel>::empty());
        r
    }

    /// Sets the style of the line in progress; sealed lines keep theirs.
    /// Without a line in progress there is nothing to style.
    pub fn set_stroke(&mut self, stroke: egui::Stroke)
        requires
            old(self).wf(),
        ensures
            final(self).wf(),
            old(self).history().len() == 0 ==> final(self).history() == old(self).history(),
            old(self).history().len() > 0 ==> final(self).history() == old(self).history().update(
                old(self).history().len() - 1,
                (old(self).history().last().0, stroke),
            ),
            final(self).redo_stack() == old(self).redo_stack(),
            final(self).is_active_spec() == old(self).is_active_spec(),
            final(self).image_spec() == old(self).image_spec(),
            final(self).changed_spec() == old(self).changed_spec(),
    {
        if self.lines.len() == 0 {
            return;
        }
        let last = self.lines.len() - 1;
        let mut line = self.lines.remove(last);
        line.style = stroke;
        self.lines.push(line);
        assert(self.history() =~= old(self).history().update(
            old(self).history().len() - 1,
            (old(self).history().last().0, stroke),
        ));
    }

    /// Turns the capture of pointer movement on or off.
    pub fn set_active(&mut self, active: bool)
        requires
            old(self).wf(),
        ensures
            final(self).wf(),
            final(self).is_active_spec() == active,
            final(self).history() == old(self).history(),
            final(self).redo_stack() == old(self).redo_stack(),
            final(self).image_spec() == old(self).image_spec(),
            final(self).changed_spec() == old(self).changed_spec(),
    {
        self.active = active;
    }

    /// Moves the last sealed line onto the redo stack; does nothing when
    /// only the line in progress is there.
    pub fn undo(&mut self)
        requires
            old(self).wf(),
        ensures
            final(self).wf(),
            (final(self).history(), final(self).redo_stack()) == undone(
                old(self).history(),
                old(self).redo_stack(),
            ),
            final(self).is_active_spec() == old(self).is_active_spec(),
            final(self).image_spec() == old(self).image_spec(),
            final(self).changed_spec() == (old(self).changed_spec() || old(self).history().len() >= 2),
    {
        if self.lines.len() >= 2 {
            let pop_idx = self.lines.len() - 2;
            let line = self.lines.remove(pop_idx);
            self.redo.push(line);
            self.changed = true;
            assert(self.history() =~= old(self).history().remove(pop_idx as int));
            assert(self.redo_stack() =~= old(self).redo_stack().push(old(self).history()[pop_idx as int]));
        }
    }

    /// Puts the most recently undone line back just before the line in
    /// progress; does nothing when the redo stack is empty.
    pub fn redo(&mut self)
        requires
            old(self).wf(),
        ensures
            final(self).wf(),
            (final(self).history(), final(self).redo_stack()) == redone(
                old(self).history(),
                old(self).redo_stack(),
            ),
            final(self).is_active_spec() == old(self).is_active_spec(),
            final(self).image_spec() == old(self).image_spec(),
            final(self).changed_spec() == (old(self).changed_spec() || old(self).redo_stack().len() > 0),
    {
        match self.redo.pop() {
            Some(line) => {
                let push_idx = self.lines.len() - 1;
                self.lines.insert(push_idx, line);
                self.changed = true;
                assert(self.history() =~= old(self).history().insert(
                    push_idx as int,
                    old(self).redo_stack().last(),
                ));
                assert(self.redo_stack() =~= old(self).redo_stack().drop_last());
            },
            None => {},
        }
    }

    /// Takes one frame of pointer input: `pos` is where the pointer is held
    /// down, in canvas space, or `None` when it is not. Without an image
    /// nothing is shown and the pointer is ignored. While capture is on, a
    /// held pointer extends the line in progress (unless it has not moved),
    /// and a release after drawing seals that line: a fresh empty line is
    /// started and the redo stack is cleared, since a new drawing leaves
    /// nothing to redo. Returns whether the drawing changed.
    pub fn track_pointer(&mut self, pos: Option<Point>) -> (changed: bool)
        requires
            old(self).wf(),
        ensures
            final(self).wf(),
            final(self).is_active_spec() == old(self).is_active_spec(),
            final(self).image_spec() == old(self).image_spec(),
            final(self).changed_spec() == old(self).changed_spec(),
            !old(self).is_active_spec() || old(self).image_spec() is None ==> {
                &&& final(self).history() == old(self).history()
                &&& final(self).redo_stack() == old(self).redo_stack()
                &&& !changed
            },
            old(self).is_active_spec() && old(self).image_spec() is Some && pos is Some ==> {
                let h = old(self).history();
                &&& final(self).history() == h.update(
                    h.len() - 1,
                    (append_distinct(h.last().0, pos->Some_0), h.last().1),
                )
                &&& final(self).redo_stack() == old(self).redo_stack()
                &&& changed == (final(self).history().last().0.len() == h.last().0.len() + 1)
            },
            old(self).is_active_spec() && old(self).image_spec() is Some && pos is None
                && old(self).history().last().0.len() > 0 ==> {
                &&& final(self).history().len() == old(self).history().len() + 1
                &&& final(self).history().drop_last() == old(self).history()
                &&& final(self).history().last().0 == Seq::<Point>::empty()
                &&& final(self).redo_stack() == Seq::<LineModel>::empty()
                &&& changed
            },
            old(self).is_active_spec() && old(self).image_spec() is Some && pos is None
                && old(self).history().last().0.len() == 0 ==> {
                &&& final(self).history() == old(self).history()
                &&& final(self).redo_stack() == old(self).redo_stack()
                &&& !changed
            },
    {
        if !self.active || self.img.is_none() {
            return false;
        }
        let ghost h = old(self).history();
        let ghost r = old(self).redo_stack();
        match pos {
            Some(p) => {
                let last = self.lines.len() - 1;
                let mut line = self.lines.remove(last);
                let grew = line.push_point(p);
                self.lines.push(line);
                assert(self.history() =~= h.update(
                    h.len() - 1,
                    (append_distinct(h.last().0, p), h.last().1),
                ));
                assert(self.redo_stack() =~= r);
                assert forall|i: int| 0 <= i < self.history().len() - 1 implies (
                #[trigger] self.history()[i]).0.len() > 0 by {
                    assert(self.history()[i] == h[i]);
                }
                grew
            },
            None => {
                let last = self.lines.len() - 1;
                if self.lines[last].points.len() > 0 {
                    self.lines.push(Line::new());
                    self.redo = Vec::new();
                    let ghost h2 = self.history();
                    assert(h2.drop_last() =~= h);
                    assert(self.redo_stack() =~= Seq::<LineModel>::empty());
                    assert forall|i: int| 0 <= i < h2.len() - 1 implies (#[trigger] h2[i]).0.len()
                        > 0 by {
                        assert(h2[i] == h[i]);
                        if i < h.len() - 1 {
                        } else {
                            assert(h[i] == h.last());
                        }
                    }
                    true
                } else {
                    false
                }
            },
        }
    }

    /// Replaces the image with the one that `bytes` encode and starts over
    /// with one empty line and nothing to redo. Bytes that are no image leave
    /// everything as it was.
    pub fn load(&mut self, bytes: &[u8]) -> (r: Result<(), LoadError>)
        requires
            old(self).wf(),
        ensures
            final(self).wf(),
            r is Ok <==> decoded_rgba(bytes@) is Some,
            r is Ok ==> {
                &&& final(self).image_spec() == decoded_rgba(bytes@)
                &&& final(self).history().len() == 1
                &&& final(self).history()[0].0 == Seq::<Point>::empty()
                &&& final(self).redo_stack() == Seq::<LineModel>::empty()
                &&& final(self).is_active_spec() == old(self).is_active_spec()
                &&& final(self).changed_spec()
            },
            r is Err ==> *final(self) == *old(self) && r == Err::<(), LoadError>(LoadError::Decode),
    {
        match decode_image(bytes) {
            Ok(b) => {
                self.img = Some(b);
                let mut lines: Vec<Line> = Vec::new();
                lines.push(Line::new());
                self.lines = lines;
                self.redo = Vec::new();
                self.changed = true;
                assert(self.redo_stack() =~= Seq::<LineModel>::empty());
                Ok(())
            },
            Err(e) => Err(e),
        }
    }

    /// The positions of the lines with at least one point, in drawing order:
    /// what is rendered each frame and stroked onto the image on export. The
    /// empty line in progress is never among them.
    pub fn drawn_lines(&self) -> (r: Vec<usize>)
        requires
            self.wf(),
        ensures
            r@.map_values(|i: usize| i as int) == drawn_indices(self.history()),
    {
        let mut out: Vec<usize> = Vec::new();
        let mut i: usize = 0;
        while i < self.lines.len()
            invariant
                i <= self.lines@.len(),
                out@.map_values(|k: usize| k as int) == drawn_indices(
                    self.history().subrange(0, i as int),
                ),
            decreases self.lines@.len() - i,
        {
            let ghost h = self.history();
            assert(h.subrange(0, i + 1).drop_last() =~= h.subrange(0, i as int));
            assert(h.subrange(0, i + 1).last() == h[i as int]);
            if self.lines[i].points.len() > 0 {
                out.push(i);
                assert(out@.map_values(|k: usize| k as int) =~= drawn_indices(
                    h.subrange(0, i as int),
                ).push(i as int));
            }
            i = i + 1;
        }
        assert(self.history().subrange(0, self.lines@.len() as int) =~= self.history());
        out
    }

    /// A pixel copy of the loaded image, for the lines to be stroked onto;
    /// `None` when no image is loaded.
    pub fn export_base(&self) -> (r: Option<Bitmap>)
        requires
            self.wf(),
        ensures
            match r {
                Some(b) => self.image_spec() == Some(b@) && b.wf(),
                None => self.image_spec() is None,
            },
    {
        match &self.img {
            Some(b) => Some(b.copy()),
            None => None,
        }
    }

    /// The lines in drawing order; the last one is in progress.
    pub fn lines(&self) -> (r: &Vec<Line>)
        ensures
            r@.map_values(|l: Line| l@) == self.history(),
    {
        &self.lines
    }

    /// How many undone lines can be redone.
    pub fn redo_len(&self) -> (r: usize)
        ensures
            r == self.redo_stack().len(),
    {
        self.redo.len()
    }

    /// Whether pointer movement draws.
    pub fn is_active(&self) -> (r: bool)
        ensures
            r == self.is_active_spec(),
    {
        self.active
    }

    /// The loaded image, if any.
    pub fn image(&self) -> (r: Option<&Bitmap>)
        ensures
            match r {
                Some(b) => self.image_spec() == Some(b@),
                None => self.image_spec() is None,
            },
    {
        match &self.img {
            Some(b) => Some(b),
            None => None,
        }
    }

    /// Reports whether undo, redo or a load changed the drawing since the
    /// last call, and clears that mark.
    pub fn take_changed(&mut self) -> (r: bool)
        requires
            old(self).wf(),
        ensures
            final(self).wf(),
            r == old(self).changed_spec(),
            !final(self).changed_spec(),
            final(self).history() == old(self).history(),
            final(self).redo_stack() == old(self).redo_stack(),
            final(self).is_active_spec() == old(self).is_active_spec(),
            final(self).image_spec() == old(self).image_spec(),
    {
        let r = self.changed;
        self.changed = false;
        r
    }
}

impl Default for Painter {
    fn default() -> (r: Painter)
        ensures
            r.wf(),
            r.history() == Seq::<LineModel>::empty(),
            r.redo_stack() == Seq::<LineModel>::empty(),
            !r.is_active_spec(),
            r.image_spec() is None,
    {
        Painter::new()
    }
}

} // verus!
