//! The tridiagonal round-trip: what elimination and substitution give when
//! no operation is rounded.

use super::trinomial_eq::{
    backward_cell_by, decomposed_by, decomposed_row_by, forward_cell_by, forward_eliminated_by,
    solution_by, Arithmetic,
};
use vstd::prelude::*;

verus! {

/// The product of two real numbers.
#[verifier::opaque]
pub open spec fn product(a: real, b: real) -> real {
    a * b
}

/// The quotient of two real numbers.
#[verifier::opaque]
pub open spec fn quotient(a: real, b: real) -> real {
    a / b
}

/// The arithmetic of the real numbers: every result exact.
pub open spec fn exact() -> Arithmetic<real> {
    Arithmetic {
        diff: |a: real, b: real| a - b,
        prod: |a: real, b: real| product(a, b),
        quot: |a: real, b: real| quotient(a, b),
    }
}

/// The left-hand side of equation `i` of the system with the rows `rows`,
/// taken at `x`: the first equation has no lower term and the last no upper
/// one.
pub open spec fn row_value(rows: Seq<(real, real, real)>, x: Seq<real>, i: int) -> real {
    let lower = if i > 0 {
        product(rows[i].0, x[i - 1])
    } else {
        0real
    };
    let upper = if i < rows.len() - 1 {
        product(rows[i].2, x[i + 1])
    } else {
        0real
    };
    lower + product(rows[i].1, x[i]) + upper
}

/// Whether `x` solves the system with the rows `rows` and the right-hand
/// side `rhs`.
pub open spec fn solves(rows: Seq<(real, real, real)>, x: Seq<real>, rhs: Seq<real>) -> bool {
    &&& x.len() == rows.len()
    &&& forall|i: int| 0 <= i < rows.len() ==> #[trigger] row_value(rows, x, i) == rhs[i]
}

/// Whether elimination in exact arithmetic leaves no zero on the diagonal.
pub open spec fn pivots_nonzero(rows: Seq<(real, real, real)>) -> bool {
    forall|i: int|
        0 <= i < rows.len() ==> (#[trigger] decomposed_row_by(exact(), rows, i)).1 != 0real
}

proof fn lemma_quotient(q: real, p: real)
    requires
        p != 0real,
    ensures
        product(p, quotient(q, p)) == q,
{
    reveal(product);
    reveal(quotient);
    assert(p * (q / p) == q) by (nonlinear_arith)
        requires
            p != 0real,
    ;
}

proof fn lemma_product_swapped(a: real, b: real, c: real)
    ensures
        product(product(a, b), c) == product(b, product(a, c)),
{
    reveal(product);
    assert((a * b) * c == b * (a * c)) by (nonlinear_arith);
}

proof fn lemma_product_nested(a: real, b: real, c: real)
    ensures
        product(product(a, b), c) == product(a, product(b, c)),
{
    reveal(product);
    assert((a * b) * c == a * (b * c)) by (nonlinear_arith);
}

proof fn lemma_product_of_sum(a: real, b: real, c: real)
    ensures
        product(a + b, c) == product(a, c) + product(b, c),
        product(c, a + b) == product(c, a) + product(c, b),
{
    reveal(product);
    assert((a + b) * c == a * c + b * c) by (nonlinear_arith);
    assert(c * (a + b) == c * a + c * b) by (nonlinear_arith);
}

proof fn lemma_equation(
    l: real,
    d: real,
    b: real,
    factor: real,
    pivot_above: real,
    upper_above: real,
    pivot: real,
    mid_above: real,
    mid: real,
    x_above: real,
    x: real,
    below: real,
)
    requires
        product(pivot_above, factor) == l,
        pivot == d - product(factor, upper_above),
        mid == b - product(factor, mid_above),
        product(pivot_above, x_above) + product(upper_above, x) == mid_above,
        product(pivot, x) + below == mid,
    ensures
        product(l, x_above) + product(d, x) + below == b,
{
    lemma_product_swapped(pivot_above, factor, x_above);
    lemma_product_of_sum(pivot, product(factor, upper_above), x);
    lemma_product_nested(factor, upper_above, x);
    lemma_product_of_sum(product(pivot_above, x_above), product(upper_above, x), factor);
}

/// What back substitution leaves in row `i`: the pivot times the solution,
/// with the upper term where there is one, is the eliminated right-hand
/// side.
proof fn lemma_back_substituted(coef: Seq<(real, real, real)>, mid: Seq<real>, i: int)
    requires
        0 <= i < mid.len(),
        coef[i].1 != 0real,
    ensures
        i < mid.len() - 1 ==> product(coef[i].1, backward_cell_by(exact(), coef, mid, i))
            + product(coef[i].2, backward_cell_by(exact(), coef, mid, i + 1)) == mid[i],
        i == mid.len() - 1 ==> product(coef[i].1, backward_cell_by(exact(), coef, mid, i))
            == mid[i],
{
    if i < mid.len() - 1 {
        lemma_quotient(
            mid[i] - product(coef[i].2, backward_cell_by(exact(), coef, mid, i + 1)),
            coef[i].1,
        );
    } else {
        lemma_quotient(mid[i], coef[i].1);
    }
}

/// Tridiagonal round-trip: carried out in exact arithmetic, decomposition
/// and `solve` give the solution of the system, whenever elimination leaves
/// no zero on the diagonal. (In doubles every operation is rounded, and how
/// far the result then is from this solution is not stated.)
pub proof fn lemma_exact_solution_solves(rows: Seq<(real, real, real)>, rhs: Seq<real>)
    requires
        rows.len() == rhs.len(),
        pivots_nonzero(rows),
    ensures
        solves(rows, solution_by(exact(), decomposed_by(exact(), rows), rhs), rhs),
{
    let n = rows.len() as int;
    let coef = decomposed_by(exact(), rows);
    let mid = forward_eliminated_by(exact(), coef, rhs);
    let x = solution_by(exact(), coef, rhs);
    assert forall|i: int| 0 <= i < n implies #[trigger] row_value(rows, x, i) == rhs[i] by {
        let below = if i < n - 1 {
            product(rows[i].2, x[i + 1])
        } else {
            0real
        };
        assert(coef[i] == decomposed_row_by(exact(), rows, i));
        assert(x[i] == backward_cell_by(exact(), coef, mid, i));
        assert(mid[i] == forward_cell_by(exact(), coef, rhs, i));
        if i < n - 1 {
            assert(x[i + 1] == backward_cell_by(exact(), coef, mid, i + 1));
        }
        lemma_back_substituted(coef, mid, i);
        assert(product(coef[i].1, x[i]) + below == mid[i]);
        if i > 0 {
            let j = i - 1;
            assert(coef[j] == decomposed_row_by(exact(), rows, j));
            assert(x[j] == backward_cell_by(exact(), coef, mid, j));
            assert(mid[j] == forward_cell_by(exact(), coef, rhs, j));
            lemma_back_substituted(coef, mid, j);
            lemma_quotient(rows[i].0, coef[j].1);
            lemma_equation(
                rows[i].0,
                rows[i].1,
                rhs[i],
                coef[i].0,
                coef[j].1,
                rows[j].2,
                coef[i].1,
                mid[j],
                mid[i],
                x[j],
                x[i],
                below,
            );
        }
    }
}

} // verus!
