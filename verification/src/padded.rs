//! A one-dimensional array with one guard (ghost) cell on each side.
//!
//! The guard cells let the finite-difference stencil read one cell past each
//! end of the logical domain without any special-casing; because they are
//! created holding the scalar zero and no verified operation writes them,
//! they silently implement a fixed zero (Dirichlet) boundary condition.

use vstd::prelude::*;

verus! {

/// `size` logical cells (indices `0..size`) plus the two guards at logical
/// indices `-1` and `size`, stored contiguously with the guards at the ends.
pub struct PaddedArray<T> {
    cells: Vec<T>,
}

impl<T: Copy> PaddedArray<T> {
    /// Number of logical cells, guards excluded.
    pub closed spec fn size(&self) -> int {
        self.cells@.len() - 2
    }

    /// Well-formed: the backing store holds the logical cells plus two
    /// guards, and (a machine limit) its length is addressable.
    pub closed spec fn wf(&self) -> bool {
        2 <= self.cells@.len() <= usize::MAX
    }

    /// The cell at logical index `i`; `-1` and `size()` address the guards.
    pub closed spec fn cell(&self, i: int) -> T {
        self.cells@[i + 1]
    }

    /// Every cell, guards included, holds `v`.
    pub open spec fn all_cells_hold(&self, v: T) -> bool {
        forall|i: int| -1 <= i <= self.size() ==> self.cell(i) == v
    }

    /// Build an array of `size` logical cells with every cell, guards
    /// included, holding `fill` (the scalar zero of the element type).
    pub fn create(size: usize, fill: T) -> (r: Self)
        requires
            size <= usize::MAX - 2,
        ensures
            r.wf(),
            r.size() == size,
            r.all_cells_hold(fill),
    {
        let n = size + 2;
        let mut cells: Vec<T> = Vec::new();
        let mut k: usize = 0;
        while k < n
            invariant
                k <= n,
                cells@.len() == k,
                forall|j: int| 0 <= j < k ==> cells@[j] == fill,
            decreases n - k,
        {
            cells.push(fill);
            k = k + 1;
        }
        PaddedArray { cells }
    }

    /// Build an array whose logical cell `i` holds `values[i]`; the guards
    /// hold `fill`.
    pub fn create_from_sequence(values: &Vec<T>, fill: T) -> (r: Self)
        requires
            values@.len() <= usize::MAX - 2,
        ensures
            r.wf(),
            r.size() == values@.len(),
            r.cell(-1) == fill,
            r.cell(values@.len() as int) == fill,
            forall|i: int| 0 <= i < values@.len() ==> r.cell(i) == values@[i],
    {
        let mut r = Self::create(values.len(), fill);
        proof {
            assert forall|j: int| 0 <= j < r.cells@.len() implies r.cells@[j] == fill by {
                assert(r.cell(j - 1) == fill);
            }
        }
        let mut i: usize = 0;
        while i < values.len()
            invariant
                i <= values@.len(),
                r.cells@.len() == values@.len() + 2,
                r.cells@[0] == fill,
                r.cells@[values@.len() as int + 1] == fill,
                forall|j: int| 1 <= j <= i ==> r.cells@[j] == values@[j - 1],
                forall|j: int| i < j <= values@.len() ==> r.cells@[j] == fill,
            decreases values@.len() - i,
        {
            r.cells[i + 1] = values[i];
            i = i + 1;
        }
        r
    }

    /// Build an array whose logical cell `i` holds a result of `f(i)`; the
    /// guards hold `fill`.
    pub fn create_from_generator<F: Fn(usize) -> T>(size: usize, fill: T, f: F) -> (r: Self)
        requires
            size <= usize::MAX - 2,
            forall|i: usize| i < size ==> #[trigger] call_requires(f, (i,)),
        ensures
            r.wf(),
            r.size() == size,
            r.cell(-1) == fill,
            r.cell(size as int) == fill,
            forall|i: int|
                0 <= i < size ==> call_ensures(f, (i as usize,), #[trigger] r.cell(i)),
    {
        let mut r = Self::create(size, fill);
        proof {
            assert forall|j: int| 0 <= j < r.cells@.len() implies r.cells@[j] == fill by {
                assert(r.cell(j - 1) == fill);
            }
        }
        let mut i: usize = 0;
        while i < size
            invariant
                i <= size,
                r.cells@.len() == size + 2,
                r.cells@[0] == fill,
                r.cells@[size as int + 1] == fill,
                forall|k: usize| k < size ==> #[trigger] call_requires(f, (k,)),
                forall|j: int|
                    1 <= j <= i ==> call_ensures(f, ((j - 1) as usize,), #[trigger] r.cells@[j]),
            decreases size - i,
        {
            let v = f(i);
            r.cells[i + 1] = v;
            i = i + 1;
        }
        r
    }

    /// Read the cell at logical index `i`, the guards at `-1` and `size()`
    /// included.
    pub fn get(&self, i: isize) -> (v: T)
        requires
            self.wf(),
            -1 <= i <= self.size(),
        ensures
            v == self.cell(i as int),
    {
        if i < 0 {
            self.cells[0]
        } else {
            self.cells[(i as usize) + 1]
        }
    }

    /// Write `v` to the cell at logical index `i`, the guards at `-1` and
    /// `size()` included; every other cell keeps its value.
    pub fn set(&mut self, i: isize, v: T)
        requires
            old(self).wf(),
            -1 <= i <= old(self).size(),
        ensures
            final(self).wf(),
            final(self).size() == old(self).size(),
            final(self).cell(i as int) == v,
            forall|j: int|
                -1 <= j <= old(self).size() && j != i ==> final(self).cell(j) == old(self).cell(j),
    {
        if i < 0 {
            self.cells[0] = v;
        } else {
            self.cells[(i as usize) + 1] = v;
        }
    }

    /// Read the logical cell `i` (no guards).
    pub fn get_cell(&self, i: usize) -> (v: T)
        requires
            self.wf(),
            i < self.size(),
        ensures
            v == self.cell(i as int),
    {
        self.cells[i + 1]
    }

    /// Write the logical cell `i` (no guards); every other cell, the guards
    /// included, keeps its value.
    pub fn set_cell(&mut self, i: usize, v: T)
        requires
            old(self).wf(),
            i < old(self).size(),
        ensures
            final(self).wf(),
            final(self).size() == old(self).size(),
            final(self).cell(i as int) == v,
            forall|j: int|
                -1 <= j <= old(self).size() && j != i ==> final(self).cell(j) == old(self).cell(j),
    {
        self.cells[i + 1] = v;
    }

    /// Number of logical cells.
    pub fn len(&self) -> (n: usize)
        requires
            self.wf(),
        ensures
            n == self.size(),
    {
        self.cells.len() - 2
    }

    /// The three cells the discrete Laplacian stencil reads at logical index
    /// `i`: its left neighbour, itself, and its right neighbour.  At `i == 0`
    /// and `i == size() - 1` a neighbour is a guard cell.  Combining them into
    /// `left - 2*mid + right` is the scalar type's affair and stays with the
    /// caller.
    pub fn stencil(&self, i: usize) -> (r: (T, T, T))
        requires
            self.wf(),
            i < self.size(),
        ensures
            r.0 == self.cell(i as int - 1),
            r.1 == self.cell(i as int),
            r.2 == self.cell(i as int + 1),
    {
        (self.cells[i], self.cells[i + 1], self.cells[i + 2])
    }

    /// An element-wise copy: same size, every cell (guards included) equal.
    pub fn duplicate(&self) -> (r: Self)
        requires
            self.wf(),
        ensures
            r.wf(),
            r.size() == self.size(),
            forall|i: int| -1 <= i <= self.size() ==> r.cell(i) == self.cell(i),
    {
        let n = self.cells.len();
        let mut cells: Vec<T> = Vec::new();
        let mut k: usize = 0;
        while k < n
            invariant
                k <= n,
                n == self.cells@.len(),
                cells@.len() == k,
                forall|j: int| 0 <= j < k ==> cells@[j] == self.cells@[j],
            decreases n - k,
        {
            cells.push(self.cells[k]);
            k = k + 1;
        }
        PaddedArray { cells }
    }
}

/// For a field whose logical cells all hold the same value, the three cells
/// the Laplacian stencil reads at an interior index are all that value — an
/// interior stencil never touches a guard cell — so any stencil combination
/// whose coefficients sum to the scalar zero vanishes there.  The scalar half
/// of that statement belongs to the element type; this lemma pins the
/// structural half.
pub proof fn lemma_stencil_of_constant<T: Copy>(a: PaddedArray<T>, v: T, i: int)
    requires
        a.wf(),
        forall|j: int| 0 <= j < a.size() ==> a.cell(j) == v,
        1 <= i <= a.size() - 2,
    ensures
        a.cell(i - 1) == v,
        a.cell(i) == v,
        a.cell(i + 1) == v,
{
}

} // verus!
