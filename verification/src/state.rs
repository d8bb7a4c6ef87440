//! The state a solver owns: a vector of cells for the time-steppers, a grid of
//! cells for the relaxation solvers. Both are `ndarray` arrays of bit
//! patterns (see [`crate::double`]).
//!
//! Verus does not look inside an `ndarray` array. What one holds is named by
//! [`vector_cells`], and by [`grid_cells`] with [`grid_cols`]; the functions
//! marked as trusted say over those names what the `ndarray` call does.

use vstd::prelude::*;

verus! {

/// A one-dimensional array of cells.
#[verifier::external_body]
#[derive(Debug)]
pub struct StateVector {
    cells: ndarray::Array1<u64>,
}

/// A two-dimensional array of cells, indexed by row, then column.
#[verifier::external_body]
#[derive(Debug)]
pub struct StateGrid {
    cells: ndarray::Array2<u64>,
}

/// The cells of a vector, in index order.
pub uninterp spec fn vector_cells(v: StateVector) -> Seq<u64>;

/// The rows of a grid, each with its cells in column order.
pub uninterp spec fn grid_cells(g: StateGrid) -> Seq<Seq<u64>>;

/// The length of the second axis of a grid.
pub uninterp spec fn grid_cols(g: StateGrid) -> nat;

impl View for StateVector {
    type V = Seq<u64>;

    open spec fn view(&self) -> Seq<u64> {
        vector_cells(*self)
    }
}

impl View for StateGrid {
    type V = Seq<Seq<u64>>;

    open spec fn view(&self) -> Seq<Seq<u64>> {
        grid_cells(*self)
    }
}

/// Trusted: `ndarray::Array1::from_vec`, which takes the vector over as the
/// array's storage, element for element. (Its one panic is for zero-sized
/// elements.)
#[verifier::external_body]
pub(crate) fn vector_from_vec(cells: Vec<u64>) -> (v: StateVector)
    ensures
        vector_cells(v) == cells@,
{
    StateVector { cells: ndarray::Array1::from_vec(cells) }
}

/// Trusted: `ndarray::ArrayBase::len`, the number of elements.
#[verifier::external_body]
pub(crate) fn vector_len(v: &StateVector) -> (n: usize)
    ensures
        n == vector_cells(*v).len(),
{
    v.cells.len()
}

/// Trusted: `ndarray`'s `Index<usize>` for a one-dimensional array, which
/// panics when the index is out of bounds.
#[verifier::external_body]
pub(crate) fn vector_get(v: &StateVector, i: usize) -> (c: u64)
    requires
        i < vector_cells(*v).len(),
    ensures
        c == vector_cells(*v)[i as int],
{
    v.cells[i]
}

/// Trusted: `ndarray`'s `IndexMut<usize>` for a one-dimensional array, which
/// panics when the index is out of bounds; the assignment changes that one
/// element.
#[verifier::external_body]
pub(crate) fn vector_set(v: &mut StateVector, i: usize, c: u64)
    requires
        i < vector_cells(*old(v)).len(),
    ensures
        vector_cells(*final(v)) == vector_cells(*old(v)).update(i as int, c),
{
    v.cells[i] = c;
}

/// Trusted: `Clone` for an `ndarray` array, which copies shape and elements.
#[verifier::external_body]
pub(crate) fn vector_clone(v: &StateVector) -> (w: StateVector)
    ensures
        vector_cells(w) == vector_cells(*v),
{
    StateVector { cells: v.cells.clone() }
}

/// Trusted: `ndarray::Array2::from_shape_vec` with a `(rows, cols)` shape. It
/// reads the vector row by row, and refuses it when its length is not
/// `rows * cols` or when the product of the non-zero axis lengths overflows.
#[verifier::external_body]
pub(crate) fn grid_from_shape_vec(rows: usize, cols: usize, cells: Vec<u64>) -> (g: Option<
    StateGrid,
>)
    ensures
        rows > 0 && cols > 0 && rows * cols == cells@.len() ==> g is Some,
        g matches Some(grid) ==> {
            &&& rows * cols == cells@.len()
            &&& grid_cells(grid).len() == rows
            &&& grid_cols(grid) == cols
            &&& forall|i: int| 0 <= i < rows ==> (#[trigger] grid_cells(grid)[i]).len() == cols
            &&& forall|i: int, j: int|
                0 <= i < rows && 0 <= j < cols ==> #[trigger] grid_cells(grid)[i][j] == cells@[i
                    * cols + j]
        },
{
    match ndarray::Array2::from_shape_vec((rows, cols), cells) {
        Ok(cells) => Some(StateGrid { cells }),
        Err(_) => None,
    }
}

/// Trusted: `ndarray::ArrayBase::dim`, the two axis lengths; every row has as
/// many cells as the second says.
#[verifier::external_body]
pub(crate) fn grid_dim(g: &StateGrid) -> (shape: (usize, usize))
    ensures
        shape.0 == grid_cells(*g).len(),
        shape.1 == grid_cols(*g),
        forall|i: int| 0 <= i < shape.0 ==> (#[trigger] grid_cells(*g)[i]).len() == shape.1,
{
    g.cells.dim()
}

/// Trusted: `ndarray`'s `Index<[usize; 2]>` for a two-dimensional array,
/// which panics when either index is out of bounds.
#[verifier::external_body]
pub(crate) fn grid_get(g: &StateGrid, i: usize, j: usize) -> (c: u64)
    requires
        i < grid_cells(*g).len(),
        j < grid_cols(*g),
    ensures
        c == grid_cells(*g)[i as int][j as int],
{
    g.cells[[i, j]]
}

/// Trusted: `ndarray`'s `IndexMut<[usize; 2]>` for a two-dimensional array,
/// which panics when either index is out of bounds; the assignment changes
/// that one element and leaves the shape.
#[verifier::external_body]
pub(crate) fn grid_set(g: &mut StateGrid, i: usize, j: usize, c: u64)
    requires
        i < grid_cells(*old(g)).len(),
        j < grid_cols(*old(g)),
    ensures
        grid_cells(*final(g)) == grid_cells(*old(g)).update(
            i as int,
            grid_cells(*old(g))[i as int].update(j as int, c),
        ),
        grid_cols(*final(g)) == grid_cols(*old(g)),
{
    g.cells[[i, j]] = c;
}

/// Trusted: `Clone` for an `ndarray` array, which copies shape and elements.
#[verifier::external_body]
pub(crate) fn grid_clone(g: &StateGrid) -> (h: StateGrid)
    ensures
        grid_cells(h) == grid_cells(*g),
        grid_cols(h) == grid_cols(*g),
{
    StateGrid { cells: g.cells.clone() }
}

impl StateVector {
    /// A vector with the given cells.
    pub fn from_vec(cells: Vec<u64>) -> (v: Self)
        ensures
            v@ == cells@,
    {
        vector_from_vec(cells)
    }

    /// The number of cells.
    pub fn len(&self) -> (n: usize)
        ensures
            n == self@.len(),
    {
        vector_len(self)
    }

    /// The cell at `i`.
    pub fn get(&self, i: usize) -> (c: u64)
        requires
            i < self@.len(),
        ensures
            c == self@[i as int],
    {
        vector_get(self, i)
    }

    /// The cells, in index order.
    pub fn to_vec(&self) -> (cells: Vec<u64>)
        ensures
            cells@ == self@,
    {
        let n: usize = vector_len(self);
        let mut cells: Vec<u64> = Vec::new();
        let mut i: usize = 0;
        while i < n
            invariant
                n == self@.len(),
                i <= n,
                cells@ == self@.subrange(0, i as int),
            decreases n - i,
        {
            cells.push(vector_get(self, i));
            i += 1;
        }
        cells
    }
}

impl StateGrid {
    /// Whether every row has as many cells as the second axis is long; this
    /// holds of every grid.
    pub open spec fn rectangular(&self) -> bool {
        forall|i: int| 0 <= i < self@.len() ==> (#[trigger] self@[i]).len() == self.ncols()
    }

    /// The length of the first axis.
    pub open spec fn nrows(&self) -> nat {
        self@.len()
    }

    /// The length of the second axis.
    pub open spec fn ncols(&self) -> nat {
        grid_cols(*self)
    }

    /// A grid of `rows` by `cols` cells, read row by row from `cells`;
    /// `None` when `cells` does not hold `rows * cols` of them.
    pub fn from_shape_vec(rows: usize, cols: usize, cells: Vec<u64>) -> (g: Option<Self>)
        ensures
            rows > 0 && cols > 0 && rows * cols == cells@.len() ==> g is Some,
            g matches Some(grid) ==> {
                &&& rows * cols == cells@.len()
                &&& grid.nrows() == rows
                &&& grid.ncols() == cols
                &&& grid.rectangular()
                &&& forall|i: int, j: int|
                    0 <= i < rows && 0 <= j < cols ==> #[trigger] grid@[i][j] == cells@[i * cols
                        + j]
            },
    {
        grid_from_shape_vec(rows, cols, cells)
    }

    /// The length of the first axis.
    pub fn rows(&self) -> (n: usize)
        ensures
            n == self.nrows(),
            self.rectangular(),
    {
        grid_dim(self).0
    }

    /// The length of the second axis.
    pub fn cols(&self) -> (n: usize)
        ensures
            n == self.ncols(),
            self.rectangular(),
    {
        grid_dim(self).1
    }

    /// The cell in row `i`, column `j`.
    pub fn get(&self, i: usize, j: usize) -> (c: u64)
        requires
            i < self.nrows(),
            j < self.ncols(),
        ensures
            c == self@[i as int][j as int],
    {
        grid_get(self, i, j)
    }
}

} // verus!
