//! The 5x5 binary frame that the renderer produces and the display shows.

use vstd::prelude::*;

verus! {

/// A 5x5 binary frame, stored row-major: cell `(x, y)` is entry `y * 5 + x`,
/// with `x` the column (0 is leftmost) and `y` the row (0 is the top).
pub struct Frame {
    cells: Vec<bool>,
}

impl Frame {
    /// The frame's cells, row-major, as a sequence of exactly 25 booleans.
    pub closed spec fn view(&self) -> Seq<bool> {
        self.cells@
    }

    /// A frame always holds exactly 25 cells.
    pub open spec fn wf(&self) -> bool {
        self@.len() == 25
    }

    /// Whether cell `(x, y)` is lit.
    pub open spec fn lit(&self, x: int, y: int) -> bool
        recommends
            0 <= x < 5,
            0 <= y < 5,
    {
        self@[y * 5 + x]
    }

    /// An all-dark frame.
    pub fn empty() -> (f: Frame)
        ensures
            f.wf(),
            f@ == Seq::new(25, |i: int| false),
    {
        let mut cells: Vec<bool> = Vec::new();
        let mut i: usize = 0;
        while i < 25
            invariant
                i <= 25,
                cells@.len() == i,
                forall|j: int| 0 <= j < i ==> !cells@[j],
            decreases 25 - i,
        {
            cells.push(false);
            i = i + 1;
        }
        let f = Frame { cells };
        proof {
            assert(f@ =~= Seq::new(25, |i: int| false));
        }
        f
    }

    /// Wraps 25 row-major cells as a frame.
    pub(crate) fn from_cells(cells: Vec<bool>) -> (f: Frame)
        requires
            cells@.len() == 25,
        ensures
            f.wf(),
            f@ == cells@,
    {
        Frame { cells }
    }

    /// Reads cell `(x, y)`.
    pub fn get(&self, x: usize, y: usize) -> (b: bool)
        requires
            self.wf(),
            x < 5,
            y < 5,
        ensures
            b == self.lit(x as int, y as int),
    {
        self.cells[y * 5 + x]
    }

    /// Lights cell `(x, y)`.
    pub fn set(&mut self, x: usize, y: usize)
        requires
            old(self).wf(),
            x < 5,
            y < 5,
        ensures
            final(self).wf(),
            final(self)@ == old(self)@.update(y * 5 + x, true),
    {
        let i: usize = y * 5 + x;
        self.cells.set(i, true);
    }
}

} // verus!
