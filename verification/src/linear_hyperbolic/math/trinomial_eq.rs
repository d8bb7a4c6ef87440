//! Tridiagonal linear systems, solved by forward elimination and back
//! substitution without pivoting.
//!
//! The recurrence is written once, over the three operations it is made of
//! ([`Arithmetic`]). The solver computes it in doubles ([`rounded`]); what it
//! gives in exact arithmetic is the subject of [`super::round_trip`].

use crate::double::{fdiff, fdiv, fmul, fprod, fquot, fsub};
use crate::error::LengthMismatchError;
use crate::state::{vector_from_vec, vector_get, vector_len, vector_set, StateVector};
use vstd::prelude::*;

verus! {

/// The three operations that elimination and substitution are made of.
#[verifier::reject_recursive_types(T)]
pub struct Arithmetic<T> {
    /// The difference of two numbers.
    pub diff: spec_fn(T, T) -> T,
    /// The product of two numbers.
    pub prod: spec_fn(T, T) -> T,
    /// The quotient of two numbers.
    pub quot: spec_fn(T, T) -> T,
}

/// The arithmetic of doubles: every result rounded.
pub open spec fn rounded() -> Arithmetic<u64> {
    Arithmetic {
        diff: |a: u64, b: u64| fdiff(a, b),
        prod: |a: u64, b: u64| fprod(a, b),
        quot: |a: u64, b: u64| fquot(a, b),
    }
}

/// Row `i` of the matrix after elimination: the lower entry is divided by the
/// diagonal of the row above as elimination left it, and the diagonal loses
/// the product of that quotient with the upper entry of the row above.
pub open spec fn decomposed_row_by<T>(ops: Arithmetic<T>, rows: Seq<(T, T, T)>, i: int) -> (T, T, T)
    decreases i,
{
    if i <= 0 {
        rows[0]
    } else {
        let above = decomposed_row_by(ops, rows, i - 1);
        let lower = (ops.quot)(rows[i].0, above.1);
        (lower, (ops.diff)(rows[i].1, (ops.prod)(lower, above.2)), rows[i].2)
    }
}

/// The matrix after elimination.
pub open spec fn decomposed_by<T>(ops: Arithmetic<T>, rows: Seq<(T, T, T)>) -> Seq<(T, T, T)> {
    Seq::new(rows.len(), |i: int| decomposed_row_by(ops, rows, i))
}

/// Entry `i` of the right-hand side after forward elimination over the
/// decomposed rows `coef`.
pub open spec fn forward_cell_by<T>(
    ops: Arithmetic<T>,
    coef: Seq<(T, T, T)>,
    rhs: Seq<T>,
    i: int,
) -> T
    decreases i,
{
    if i <= 0 {
        rhs[0]
    } else {
        (ops.diff)(rhs[i], (ops.prod)(coef[i].0, forward_cell_by(ops, coef, rhs, i - 1)))
    }
}

/// The right-hand side after forward elimination.
pub open spec fn forward_eliminated_by<T>(
    ops: Arithmetic<T>,
    coef: Seq<(T, T, T)>,
    rhs: Seq<T>,
) -> Seq<T> {
    Seq::new(rhs.len(), |i: int| forward_cell_by(ops, coef, rhs, i))
}

/// Entry `i` of the solution, by back substitution from the last entry of the
/// eliminated right-hand side `mid`.
pub open spec fn backward_cell_by<T>(
    ops: Arithmetic<T>,
    coef: Seq<(T, T, T)>,
    mid: Seq<T>,
    i: int,
) -> T
    decreases mid.len() - i,
{
    if i >= mid.len() - 1 {
        (ops.quot)(mid[i], coef[i].1)
    } else {
        (ops.quot)(
            (ops.diff)(mid[i], (ops.prod)(coef[i].2, backward_cell_by(ops, coef, mid, i + 1))),
            coef[i].1,
        )
    }
}

/// The solution for the right-hand side `rhs`, over the decomposed rows
/// `coef`.
pub open spec fn solution_by<T>(ops: Arithmetic<T>, coef: Seq<(T, T, T)>, rhs: Seq<T>) -> Seq<T> {
    let mid = forward_eliminated_by(ops, coef, rhs);
    Seq::new(rhs.len(), |i: int| backward_cell_by(ops, coef, mid, i))
}

/// Row `i` of a matrix of doubles after elimination.
pub open spec fn decomposed_row(rows: Seq<(u64, u64, u64)>, i: int) -> (u64, u64, u64) {
    decomposed_row_by(rounded(), rows, i)
}

/// A matrix of doubles after elimination.
pub open spec fn decomposed(rows: Seq<(u64, u64, u64)>) -> Seq<(u64, u64, u64)> {
    decomposed_by(rounded(), rows)
}

/// Entry `i` of a right-hand side of doubles after forward elimination over
/// the decomposed rows `coef`.
pub open spec fn forward_cell(coef: Seq<(u64, u64, u64)>, rhs: Seq<u64>, i: int) -> u64 {
    forward_cell_by(rounded(), coef, rhs, i)
}

/// A right-hand side of doubles after forward elimination.
pub open spec fn forward_eliminated(coef: Seq<(u64, u64, u64)>, rhs: Seq<u64>) -> Seq<u64> {
    forward_eliminated_by(rounded(), coef, rhs)
}

/// Entry `i` of the solution in doubles, by back substitution from the
/// eliminated right-hand side `mid`.
pub open spec fn backward_cell(coef: Seq<(u64, u64, u64)>, mid: Seq<u64>, i: int) -> u64 {
    backward_cell_by(rounded(), coef, mid, i)
}

/// What `solve` leaves in the right-hand side `rhs`, over the decomposed rows
/// `coef`.
pub open spec fn solution(coef: Seq<(u64, u64, u64)>, rhs: Seq<u64>) -> Seq<u64> {
    solution_by(rounded(), coef, rhs)
}

/// In doubles, a row after elimination is made of rounded results.
pub proof fn lemma_decomposed_row(rows: Seq<(u64, u64, u64)>, i: int)
    ensures
        i <= 0 ==> decomposed_row(rows, i) == rows[0],
        i > 0 ==> decomposed_row(rows, i) == ({
            let above = decomposed_row(rows, i - 1);
            let lower = fquot(rows[i].0, above.1);
            (lower, fdiff(rows[i].1, fprod(lower, above.2)), rows[i].2)
        }),
{
}

/// In doubles, an entry after forward elimination is made of rounded
/// results.
pub proof fn lemma_forward_cell(coef: Seq<(u64, u64, u64)>, rhs: Seq<u64>, i: int)
    ensures
        i <= 0 ==> forward_cell(coef, rhs, i) == rhs[0],
        i > 0 ==> forward_cell(coef, rhs, i) == fdiff(
            rhs[i],
            fprod(coef[i].0, forward_cell(coef, rhs, i - 1)),
        ),
{
}

/// In doubles, an entry after back substitution is made of rounded results.
pub proof fn lemma_backward_cell(coef: Seq<(u64, u64, u64)>, mid: Seq<u64>, i: int)
    ensures
        i >= mid.len() - 1 ==> backward_cell(coef, mid, i) == fquot(mid[i], coef[i].1),
        i < mid.len() - 1 ==> backward_cell(coef, mid, i) == fquot(
            fdiff(mid[i], fprod(coef[i].2, backward_cell(coef, mid, i + 1))),
            coef[i].1,
        ),
{
}

/// Whether the rows `a` and `b` are the same but, at most, for the first
/// row's lower entry and the last row's upper entry, which lie outside the
/// matrix.
pub open spec fn same_matrix(a: Seq<(u64, u64, u64)>, b: Seq<(u64, u64, u64)>) -> bool {
    &&& a.len() == b.len()
    &&& forall|i: int|
        0 <= i < a.len() ==> {
            &&& (#[trigger] a[i]).1 == b[i].1
            &&& (i > 0 ==> a[i].0 == b[i].0)
            &&& (i < a.len() - 1 ==> a[i].2 == b[i].2)
        }
}

/// Elimination reads neither the first row's lower entry nor the last row's
/// upper entry.
pub proof fn lemma_decomposed_same_matrix(a: Seq<(u64, u64, u64)>, b: Seq<(u64, u64, u64)>, i: int)
    requires
        same_matrix(a, b),
        0 <= i < a.len(),
    ensures
        decomposed_row(a, i).1 == decomposed_row(b, i).1,
        i > 0 ==> decomposed_row(a, i).0 == decomposed_row(b, i).0,
        i < a.len() - 1 ==> decomposed_row(a, i).2 == decomposed_row(b, i).2,
    decreases i,
{
    if i > 0 {
        lemma_decomposed_same_matrix(a, b, i - 1);
    }
}

/// The first row has no lower entry and the last row no upper one: whatever
/// stands in their places, the solution is the same.
pub proof fn lemma_corner_entries_ignored(
    a: Seq<(u64, u64, u64)>,
    b: Seq<(u64, u64, u64)>,
    rhs: Seq<u64>,
)
    requires
        same_matrix(a, b),
        rhs.len() == a.len(),
    ensures
        solution(decomposed(a), rhs) == solution(decomposed(b), rhs),
{
    let (da, db) = (decomposed(a), decomposed(b));
    assert(same_matrix(da, db)) by {
        assert forall|i: int| 0 <= i < da.len() implies {
            &&& (#[trigger] da[i]).1 == db[i].1
            &&& (i > 0 ==> da[i].0 == db[i].0)
            &&& (i < da.len() - 1 ==> da[i].2 == db[i].2)
        } by {
            lemma_decomposed_same_matrix(a, b, i);
        }
    }
    let (ma, mb) = (forward_eliminated(da, rhs), forward_eliminated(db, rhs));
    assert(ma =~= mb) by {
        assert forall|i: int| 0 <= i < rhs.len() implies ma[i] == mb[i] by {
            lemma_forward_same_matrix(da, db, rhs, i);
        }
    }
    let (xa, xb) = (solution(da, rhs), solution(db, rhs));
    assert(xa =~= xb) by {
        assert forall|i: int| 0 <= i < rhs.len() implies xa[i] == xb[i] by {
            lemma_backward_same_matrix(da, db, ma, i);
        }
    }
}

proof fn lemma_forward_same_matrix(
    a: Seq<(u64, u64, u64)>,
    b: Seq<(u64, u64, u64)>,
    rhs: Seq<u64>,
    i: int,
)
    requires
        same_matrix(a, b),
        rhs.len() == a.len(),
        0 <= i < rhs.len(),
    ensures
        forward_cell(a, rhs, i) == forward_cell(b, rhs, i),
    decreases i,
{
    if i > 0 {
        lemma_forward_same_matrix(a, b, rhs, i - 1);
    }
}

proof fn lemma_backward_same_matrix(
    a: Seq<(u64, u64, u64)>,
    b: Seq<(u64, u64, u64)>,
    mid: Seq<u64>,
    i: int,
)
    requires
        same_matrix(a, b),
        mid.len() == a.len(),
        0 <= i < mid.len(),
    ensures
        backward_cell(a, mid, i) == backward_cell(b, mid, i),
    decreases mid.len() - i,
{
    if i < mid.len() - 1 {
        lemma_backward_same_matrix(a, b, mid, i + 1);
    }
}

/// A tridiagonal system, held decomposed.
#[derive(Debug)]
pub struct TrinomialEq {
    lower: StateVector,
    diag: StateVector,
    upper: StateVector,
}

impl View for TrinomialEq {
    type V = Seq<(u64, u64, u64)>;

    /// The decomposed rows.
    closed spec fn view(&self) -> Seq<(u64, u64, u64)> {
        Seq::new(self.diag@.len(), |i: int| (self.lower@[i], self.diag@[i], self.upper@[i]))
    }
}

impl TrinomialEq {
    /// The three diagonals have one length.
    pub closed spec fn wf(&self) -> bool {
        self.lower@.len() == self.diag@.len() && self.upper@.len() == self.diag@.len()
    }

    /// Decomposes the matrix whose rows are `mat_coef`: of each row the entry
    /// left of the diagonal, the entry on it and the entry right of it. The
    /// first row's left entry and the last row's right entry are never read.
    pub fn new(mat_coef: Vec<(u64, u64, u64)>) -> (eq: Self)
        ensures
            eq.wf(),
            eq@ == decomposed(mat_coef@),
    {
        let mut mat_coef = mat_coef;
        Self::decompose_mat_coef(&mut mat_coef);
        let n: usize = mat_coef.len();
        let mut lower: Vec<u64> = Vec::new();
        let mut diag: Vec<u64> = Vec::new();
        let mut upper: Vec<u64> = Vec::new();
        let mut i: usize = 0;
        while i < n
            invariant
                n == mat_coef@.len(),
                i <= n,
                lower@.len() == i,
                diag@.len() == i,
                upper@.len() == i,
                forall|k: int|
                    0 <= k < i ==> (lower@[k], diag@[k], upper@[k]) == #[trigger] mat_coef@[k],
            decreases n - i,
        {
            let row = mat_coef[i];
            lower.push(row.0);
            diag.push(row.1);
            upper.push(row.2);
            i += 1;
        }
        let eq = TrinomialEq {
            lower: vector_from_vec(lower),
            diag: vector_from_vec(diag),
            upper: vector_from_vec(upper),
        };
        assert(eq@ =~= mat_coef@);
        eq
    }

    /// Solves the system for the right-hand side `vec_rhs`, which becomes the
    /// solution. A right-hand side of another length than the matrix is
    /// refused and left as it is.
    pub fn solve(&self, vec_rhs: &mut StateVector) -> (r: Result<(), LengthMismatchError>)
        requires
            self.wf(),
        ensures
            old(vec_rhs)@.len() == self@.len() ==> r is Ok && final(vec_rhs)@ == solution(
                self@,
                old(vec_rhs)@,
            ),
            old(vec_rhs)@.len() != self@.len() ==> *final(vec_rhs) == *old(vec_rhs) && r == Err::<
                (),
                LengthMismatchError,
            >(
                (LengthMismatchError {
                    expected: self@.len() as usize,
                    found: old(vec_rhs)@.len() as usize,
                }),
            ),
    {
        let n: usize = vector_len(vec_rhs);
        let expected: usize = vector_len(&self.diag);
        if n != expected {
            return Err(LengthMismatchError { expected, found: n });
        }
        let ghost coef = self@;
        let ghost rhs = vec_rhs@;
        let ghost mid = forward_eliminated(coef, rhs);

        // Forward elimination
        let mut i: usize = 1;
        while i < n
            invariant
                self.wf(),
                coef == self@,
                n == coef.len(),
                n == rhs.len(),
                vec_rhs@.len() == n,
                1 <= i,
                forall|k: int|
                    0 <= k < i && k < n ==> #[trigger] vec_rhs@[k] == forward_cell(coef, rhs, k),
                forall|k: int| i <= k < n ==> vec_rhs@[k] == rhs[k],
            decreases n - i,
        {
            let above: u64 = vector_get(vec_rhs, i - 1);
            let here: u64 = vector_get(vec_rhs, i);
            let lower: u64 = vector_get(&self.lower, i);
            vector_set(vec_rhs, i, fsub(here, fmul(lower, above)));
            proof {
                lemma_forward_cell(coef, rhs, i as int);
            }
            i += 1;
        }
        assert(vec_rhs@ =~= mid);

        // Back substitution
        let mut i: usize = n;
        while i > 0
            invariant
                self.wf(),
                coef == self@,
                mid == forward_eliminated(coef, rhs),
                n == coef.len(),
                n == rhs.len(),
                vec_rhs@.len() == n,
                i <= n,
                forall|k: int| 0 <= k < i ==> vec_rhs@[k] == mid[k],
                forall|k: int|
                    i <= k < n ==> #[trigger] vec_rhs@[k] == backward_cell(coef, mid, k),
            decreases i,
        {
            i -= 1;
            let here: u64 = vector_get(vec_rhs, i);
            let diag: u64 = vector_get(&self.diag, i);
            proof {
                assert(coef[i as int] == (self.lower@[i as int], diag, self.upper@[i as int]));
            }
            proof {
                lemma_backward_cell(coef, mid, i as int);
            }
            if i == n - 1 {
                vector_set(vec_rhs, i, fdiv(here, diag));
            } else {
                let below: u64 = vector_get(vec_rhs, i + 1);
                let upper: u64 = vector_get(&self.upper, i);
                vector_set(vec_rhs, i, fdiv(fsub(here, fmul(upper, below)), diag));
            }
        }
        assert(vec_rhs@ =~= solution(coef, rhs));
        Ok(())
    }

    /// Eliminates the lower diagonal in place, from the second row down.
    fn decompose_mat_coef(mat_coef: &mut Vec<(u64, u64, u64)>)
        ensures
            final(mat_coef)@ == decomposed(old(mat_coef)@),
    {
        let ghost rows = mat_coef@;
        let n: usize = mat_coef.len();
        let mut i: usize = 1;
        while i < n
            invariant
                n == rows.len(),
                mat_coef@.len() == n,
                1 <= i,
                forall|k: int|
                    0 <= k < i && k < n ==> #[trigger] mat_coef@[k] == decomposed_row(rows, k),
                forall|k: int| i <= k < n ==> mat_coef@[k] == rows[k],
            decreases n - i,
        {
            let above = mat_coef[i - 1];
            let here = mat_coef[i];
            let lower: u64 = fdiv(here.0, above.1);
            let diag: u64 = fsub(here.1, fmul(lower, above.2));
            mat_coef.set(i, (lower, diag, here.2));
            proof {
                assert(above == decomposed_row(rows, i - 1));
                lemma_decomposed_row(rows, i as int);
            }
            i += 1;
        }
        assert(mat_coef@ =~= decomposed(rows));
    }
}

} // verus!
