//! A snapshot of the simulated field: position, velocity and damping rows
//! plus the scalar wave coefficient.
//!
//! The rows are ghost-cell arrays of one common logical size.  The damping
//! row and the wave coefficient are fixed at construction; position and
//! velocity evolve.  The element-wise operations a Runge-Kutta step is made
//! of — the scaled derivative of the damped wave equation and the weighted
//! accumulation — are verified here as loops over the rows; the scalar
//! arithmetic inside one cell is supplied by the caller as a closure, and the
//! contracts relate every output cell to the exact input cells it was
//! computed from.

use vstd::prelude::*;

use crate::padded::PaddedArray;

verus! {

/// Cells within this many positions of either domain edge are given a
/// non-zero damping coefficient, absorbing waves before they reflect.
pub const BORDER_WIDTH: usize = 32;

/// Whether cell `i` of a domain of `size` cells lies in the absorbing
/// border, that is within `BORDER_WIDTH` cells of either edge.
pub fn in_damping_border(i: usize, size: usize) -> (r: bool)
    requires
        i < size,
    ensures
        r == (i < BORDER_WIDTH || i > size - BORDER_WIDTH),
{
    i < BORDER_WIDTH || i > size - BORDER_WIDTH
}

/// `out`'s logical cells hold a scaled derivative of `source`: each position
/// cell is a possible result of `pos_rate` on `source`'s velocity cell, and
/// each velocity cell a possible result of `vel_rate` on the three position
/// cells the Laplacian stencil reads, the damping cell and the velocity
/// cell, all taken from `source`.
pub open spec fn scaled_derivative_of<T: Copy, FP: Fn(T) -> T, FV: Fn(T, T, T, T, T) -> T>(
    source: FieldState<T>,
    out: FieldState<T>,
    pos_rate: FP,
    vel_rate: FV,
) -> bool {
    &&& out.size == source.size
    &&& forall|i: int|
        0 <= i < source.size ==> call_ensures(
            pos_rate,
            (source.vel.cell(i),),
            #[trigger] out.pos.cell(i),
        )
    &&& forall|i: int|
        0 <= i < source.size ==> call_ensures(
            vel_rate,
            (
                source.pos.cell(i - 1),
                source.pos.cell(i),
                source.pos.cell(i + 1),
                source.damp.cell(i),
                source.vel.cell(i),
            ),
            #[trigger] out.vel.cell(i),
        )
}

/// `out`'s logical cells are `base`'s with a weighted copy of `delta`'s
/// added: each position (velocity) cell is a possible result of `combine` on
/// `base`'s and `delta`'s position (velocity) cells.
pub open spec fn accumulation_of<T: Copy, F: Fn(T, T) -> T>(
    base: FieldState<T>,
    delta: FieldState<T>,
    out: FieldState<T>,
    combine: F,
) -> bool {
    &&& out.size == base.size
    &&& forall|i: int|
        0 <= i < base.size ==> call_ensures(
            combine,
            (base.pos.cell(i), delta.pos.cell(i)),
            #[trigger] out.pos.cell(i),
        )
    &&& forall|i: int|
        0 <= i < base.size ==> call_ensures(
            combine,
            (base.vel.cell(i), delta.vel.cell(i)),
            #[trigger] out.vel.cell(i),
        )
}

/// The field of the damped wave equation over a fixed grid.
pub struct FieldState<T> {
    /// Logical number of cells of each row.
    pub size: usize,
    /// Displacement of each cell.
    pub pos: PaddedArray<T>,
    /// Velocity of each cell.
    pub vel: PaddedArray<T>,
    /// Per-cell damping coefficient; fixed at construction.
    pub damp: PaddedArray<T>,
    /// Scalar multiplying the Laplacian term; fixed at construction.
    pub wave_coeff: T,
}

impl<T: Copy> FieldState<T> {
    /// Well-formed: the three rows share the logical size, which is at least
    /// one cell.
    pub open spec fn wf(&self) -> bool {
        &&& 1 <= self.size
        &&& self.pos.wf() && self.vel.wf() && self.damp.wf()
        &&& self.pos.size() == self.size
        &&& self.vel.size() == self.size
        &&& self.damp.size() == self.size
    }

    /// The sequence of logical position cells, as the host reads them.
    pub open spec fn positions(&self) -> Seq<T> {
        Seq::new(self.size as nat, |i: int| self.pos.cell(i))
    }

    /// `self` is an element-wise image of `other`: same size and wave
    /// coefficient, and every cell of every row (guards included) equal.
    pub open spec fn mirrors(self, other: Self) -> bool {
        &&& self.size == other.size
        &&& self.wave_coeff == other.wave_coeff
        &&& forall|i: int|
            -1 <= i <= other.size ==> #[trigger] self.pos.cell(i) == other.pos.cell(i)
        &&& forall|i: int|
            -1 <= i <= other.size ==> #[trigger] self.vel.cell(i) == other.vel.cell(i)
        &&& forall|i: int|
            -1 <= i <= other.size ==> #[trigger] self.damp.cell(i) == other.damp.cell(i)
    }

    /// A field of `size` cells with every cell of every row, guards
    /// included, holding `zero`, and `zero` as the wave coefficient.
    pub fn new(size: usize, zero: T) -> (r: Self)
        requires
            1 <= size <= usize::MAX - 2,
        ensures
            r.wf(),
            r.size == size,
            r.pos.all_cells_hold(zero),
            r.vel.all_cells_hold(zero),
            r.damp.all_cells_hold(zero),
            r.wave_coeff == zero,
    {
        FieldState {
            size,
            pos: PaddedArray::create(size, zero),
            vel: PaddedArray::create(size, zero),
            damp: PaddedArray::create(size, zero),
            wave_coeff: zero,
        }
    }

    /// Copy the logical position and velocity cells from `source`.  The
    /// guard cells, the damping row and the wave coefficient — a field's own
    /// identity — keep their values.
    pub fn copy_state_from(&mut self, source: &Self)
        requires
            old(self).wf(),
            source.wf(),
            source.size == old(self).size,
        ensures
            final(self).wf(),
            final(self).size == old(self).size,
            final(self).damp == old(self).damp,
            final(self).wave_coeff == old(self).wave_coeff,
            final(self).pos.cell(-1) == old(self).pos.cell(-1),
            final(self).pos.cell(old(self).size as int) == old(self).pos.cell(
                old(self).size as int,
            ),
            final(self).vel.cell(-1) == old(self).vel.cell(-1),
            final(self).vel.cell(old(self).size as int) == old(self).vel.cell(
                old(self).size as int,
            ),
            forall|i: int|
                0 <= i < old(self).size ==> #[trigger] final(self).pos.cell(i)
                    == source.pos.cell(i),
            forall|i: int|
                0 <= i < old(self).size ==> #[trigger] final(self).vel.cell(i)
                    == source.vel.cell(i),
    {
        let n = self.size;
        let mut i: usize = 0;
        while i < n
            invariant
                i <= n,
                n == old(self).size,
                self.size == old(self).size,
                source.wf(),
                source.size == n,
                self.pos.wf() && self.vel.wf(),
                self.pos.size() == n && self.vel.size() == n,
                self.damp == old(self).damp,
                self.wave_coeff == old(self).wave_coeff,
                self.pos.cell(-1) == old(self).pos.cell(-1),
                self.pos.cell(n as int) == old(self).pos.cell(n as int),
                self.vel.cell(-1) == old(self).vel.cell(-1),
                self.vel.cell(n as int) == old(self).vel.cell(n as int),
                forall|j: int| 0 <= j < i ==> #[trigger] self.pos.cell(j) == source.pos.cell(j),
                forall|j: int| 0 <= j < i ==> #[trigger] self.vel.cell(j) == source.vel.cell(j),
            decreases n - i,
        {
            let p = source.pos.get_cell(i);
            let v = source.vel.get_cell(i);
            self.pos.set_cell(i, p);
            self.vel.set_cell(i, v);
            i = i + 1;
        }
    }

    /// The logical position cells, copied out for the host.
    pub fn read_positions(&self) -> (r: Vec<T>)
        requires
            self.wf(),
        ensures
            r@ == self.positions(),
    {
        let n = self.size;
        let mut r: Vec<T> = Vec::new();
        let mut i: usize = 0;
        while i < n
            invariant
                i <= n,
                self.wf(),
                n == self.size,
                r@.len() == i,
                forall|j: int| 0 <= j < i ==> r@[j] == self.pos.cell(j),
            decreases n - i,
        {
            r.push(self.pos.get_cell(i));
            i = i + 1;
        }
        proof {
            assert(r@ =~= self.positions());
        }
        r
    }

    /// Overwrite `output`'s logical position and velocity cells with the
    /// scaled derivative of `self` under the damped wave equation: cell by
    /// cell, the new position rate is `pos_rate` of this cell's velocity, and
    /// the new velocity rate is `vel_rate` of the three position cells the
    /// Laplacian stencil reads, the cell's damping coefficient, and its
    /// velocity — every argument taken from `self`, never from a partially
    /// written value.  `output`'s guard cells, damping row and wave
    /// coefficient keep their values.
    pub fn compute_scaled_derivative<FP: Fn(T) -> T, FV: Fn(T, T, T, T, T) -> T>(
        &self,
        output: &mut FieldState<T>,
        pos_rate: FP,
        vel_rate: FV,
    )
        requires
            self.wf(),
            old(output).wf(),
            old(output).size == self.size,
            forall|t: T| #[trigger] call_requires(pos_rate, (t,)),
            forall|a: T, b: T, c: T, d: T, v: T| #[trigger] call_requires(
                vel_rate,
                (a, b, c, d, v),
            ),
        ensures
            final(output).wf(),
            final(output).size == old(output).size,
            final(output).damp == old(output).damp,
            final(output).wave_coeff == old(output).wave_coeff,
            final(output).pos.cell(-1) == old(output).pos.cell(-1),
            final(output).pos.cell(self.size as int) == old(output).pos.cell(self.size as int),
            final(output).vel.cell(-1) == old(output).vel.cell(-1),
            final(output).vel.cell(self.size as int) == old(output).vel.cell(self.size as int),
            scaled_derivative_of(*self, *final(output), pos_rate, vel_rate),
    {
        let n = self.size;
        let mut i: usize = 0;
        while i < n
            invariant
                i <= n,
                self.wf(),
                n == self.size,
                output.size == n,
                output.pos.wf() && output.vel.wf(),
                output.pos.size() == n && output.vel.size() == n,
                output.damp == old(output).damp,
                output.wave_coeff == old(output).wave_coeff,
                output.pos.cell(-1) == old(output).pos.cell(-1),
                output.pos.cell(n as int) == old(output).pos.cell(n as int),
                output.vel.cell(-1) == old(output).vel.cell(-1),
                output.vel.cell(n as int) == old(output).vel.cell(n as int),
                forall|t: T| #[trigger] call_requires(pos_rate, (t,)),
                forall|a: T, b: T, c: T, d: T, v: T| #[trigger] call_requires(
                    vel_rate,
                    (a, b, c, d, v),
                ),
                forall|j: int|
                    0 <= j < i ==> call_ensures(
                        pos_rate,
                        (self.vel.cell(j),),
                        #[trigger] output.pos.cell(j),
                    ),
                forall|j: int|
                    0 <= j < i ==> call_ensures(
                        vel_rate,
                        (
                            self.pos.cell(j - 1),
                            self.pos.cell(j),
                            self.pos.cell(j + 1),
                            self.damp.cell(j),
                            self.vel.cell(j),
                        ),
                        #[trigger] output.vel.cell(j),
                    ),
            decreases n - i,
        {
            let (left, mid, right) = self.pos.stencil(i);
            let d = self.damp.get_cell(i);
            let v = self.vel.get_cell(i);
            let dp = pos_rate(v);
            let dv = vel_rate(left, mid, right, d, v);
            output.pos.set_cell(i, dp);
            output.vel.set_cell(i, dv);
            i = i + 1;
        }
    }

    /// Add, cell by cell, a weighted copy of `delta`'s logical position and
    /// velocity cells to this field's: each new cell is `combine` of the old
    /// cell and `delta`'s cell.  The guard cells, the damping row and the
    /// wave coefficient keep their values.
    pub fn accumulate_scaled<F: Fn(T, T) -> T>(&mut self, delta: &FieldState<T>, combine: F)
        requires
            old(self).wf(),
            delta.wf(),
            delta.size == old(self).size,
            forall|a: T, b: T| #[trigger] call_requires(combine, (a, b)),
        ensures
            final(self).wf(),
            final(self).size == old(self).size,
            final(self).damp == old(self).damp,
            final(self).wave_coeff == old(self).wave_coeff,
            final(self).pos.cell(-1) == old(self).pos.cell(-1),
            final(self).pos.cell(old(self).size as int) == old(self).pos.cell(
                old(self).size as int,
            ),
            final(self).vel.cell(-1) == old(self).vel.cell(-1),
            final(self).vel.cell(old(self).size as int) == old(self).vel.cell(
                old(self).size as int,
            ),
            accumulation_of(*old(self), *delta, *final(self), combine),
    {
        let n = self.size;
        let mut i: usize = 0;
        while i < n
            invariant
                i <= n,
                n == old(self).size,
                self.size == n,
                delta.wf(),
                delta.size == n,
                self.pos.wf() && self.vel.wf(),
                self.pos.size() == n && self.vel.size() == n,
                self.damp == old(self).damp,
                self.wave_coeff == old(self).wave_coeff,
                self.pos.cell(-1) == old(self).pos.cell(-1),
                self.pos.cell(n as int) == old(self).pos.cell(n as int),
                self.vel.cell(-1) == old(self).vel.cell(-1),
                self.vel.cell(n as int) == old(self).vel.cell(n as int),
                forall|a: T, b: T| #[trigger] call_requires(combine, (a, b)),
                forall|j: int|
                    i <= j < n ==> #[trigger] self.pos.cell(j) == old(self).pos.cell(j),
                forall|j: int|
                    i <= j < n ==> #[trigger] self.vel.cell(j) == old(self).vel.cell(j),
                forall|j: int|
                    0 <= j < i ==> call_ensures(
                        combine,
                        (old(self).pos.cell(j), delta.pos.cell(j)),
                        #[trigger] self.pos.cell(j),
                    ),
                forall|j: int|
                    0 <= j < i ==> call_ensures(
                        combine,
                        (old(self).vel.cell(j), delta.vel.cell(j)),
                        #[trigger] self.vel.cell(j),
                    ),
            decreases n - i,
        {
            let p = self.pos.get_cell(i);
            let dp = delta.pos.get_cell(i);
            let v = self.vel.get_cell(i);
            let dv = delta.vel.get_cell(i);
            let np = combine(p, dp);
            let nv = combine(v, dv);
            self.pos.set_cell(i, np);
            self.vel.set_cell(i, nv);
            i = i + 1;
        }
    }

    /// Round trip of the initial state: a field whose logical position cells
    /// were filled from `values` — as the host's constructor fills them, with
    /// no step taken in between — reads back exactly `values`.
    pub proof fn lemma_positions_round_trip(s: FieldState<T>, values: Seq<T>)
        requires
            s.wf(),
            s.size == values.len(),
            forall|i: int| 0 <= i < values.len() ==> s.pos.cell(i) == values[i],
        ensures
            s.positions() == values,
    {
        assert(s.positions() =~= values);
    }

    /// An element-wise copy: every row, guard cells included, the size and
    /// the wave coefficient equal to `self`'s.
    pub fn duplicate(&self) -> (r: Self)
        requires
            self.wf(),
        ensures
            r.wf(),
            r.mirrors(*self),
    {
        FieldState {
            size: self.size,
            pos: self.pos.duplicate(),
            vel: self.vel.duplicate(),
            damp: self.damp.duplicate(),
            wave_coeff: self.wave_coeff,
        }
    }
}

} // verus!
