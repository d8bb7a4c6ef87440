//! The three-point stencil that the explicit schemes share: a rule gives the
//! new value of every interior cell from the cell and its two neighbours,
//! and the two boundary cells are held fixed.

use crate::state::{vector_clone, vector_get, vector_len, vector_set, StateVector};
use vstd::prelude::*;

verus! {

/// The cells `u` with every interior cell replaced by `cell` of the number
/// `nu`, the left neighbour, the cell and the right neighbour. The first and
/// the last cell stay: this is the boundary condition of every scheme.
pub open spec fn interior_updated(
    u: Seq<u64>,
    nu: u64,
    cell: spec_fn(u64, u64, u64, u64) -> u64,
) -> Seq<u64> {
    Seq::new(
        u.len(),
        |i: int|
            if i == 0 || i == u.len() - 1 {
                u[i]
            } else {
                cell(nu, u[i - 1], u[i], u[i + 1])
            },
    )
}

/// The cells `around` with every interior cell replaced by `cell` of the
/// number `nu`, the cell of `own` at that place, and the left neighbour, the
/// cell and the right neighbour in `around`. The first and the last cell of
/// `around` stay.
pub open spec fn interior_blended(
    own: Seq<u64>,
    around: Seq<u64>,
    nu: u64,
    cell: spec_fn(u64, u64, u64, u64, u64) -> u64,
) -> Seq<u64> {
    Seq::new(
        around.len(),
        |i: int|
            if i == 0 || i == around.len() - 1 {
                around[i]
            } else {
                cell(nu, own[i], around[i - 1], around[i], around[i + 1])
            },
    )
}

/// Applies `rule` to every interior cell of `u` with its two neighbours, and
/// keeps the boundary cells.
pub(crate) fn update_interior<F: Fn(u64, u64, u64, u64) -> u64>(
    u: &StateVector,
    nu: u64,
    rule: F,
    Ghost(cell): Ghost<spec_fn(u64, u64, u64, u64) -> u64>,
) -> (next: StateVector)
    requires
        forall|n: u64, l: u64, c: u64, r: u64| rule.requires((n, l, c, r)),
        forall|n: u64, l: u64, c: u64, r: u64, out: u64|
            rule.ensures((n, l, c, r), out) ==> out == cell(n, l, c, r),
    ensures
        next@ == interior_updated(u@, nu, cell),
{
    let n: usize = vector_len(u);
    let mut next = vector_clone(u);
    if n < 3 {
        assert(next@ =~= interior_updated(u@, nu, cell));
        return next;
    }
    let mut i: usize = 1;
    while i < n - 1
        invariant
            n == u@.len(),
            next@.len() == n,
            1 <= i <= n - 1,
            forall|n: u64, l: u64, c: u64, r: u64| rule.requires((n, l, c, r)),
            forall|n: u64, l: u64, c: u64, r: u64, out: u64|
                rule.ensures((n, l, c, r), out) ==> out == cell(n, l, c, r),
            forall|k: int| 0 <= k < i ==> next@[k] == interior_updated(u@, nu, cell)[k],
            forall|k: int| i <= k < n ==> next@[k] == u@[k],
        decreases n - i,
    {
        let out: u64 = rule(nu, vector_get(u, i - 1), vector_get(u, i), vector_get(u, i + 1));
        vector_set(&mut next, i, out);
        i += 1;
    }
    assert(next@ =~= interior_updated(u@, nu, cell));
    next
}

/// Applies `rule` to every interior cell of `own` with the cell of `around`
/// at that place and its two neighbours, and takes the boundary cells from
/// `around`.
pub(crate) fn blend_interior<F: Fn(u64, u64, u64, u64, u64) -> u64>(
    own: &StateVector,
    around: &StateVector,
    nu: u64,
    rule: F,
    Ghost(cell): Ghost<spec_fn(u64, u64, u64, u64, u64) -> u64>,
) -> (next: StateVector)
    requires
        own@.len() == around@.len(),
        forall|n: u64, o: u64, l: u64, c: u64, r: u64| rule.requires((n, o, l, c, r)),
        forall|n: u64, o: u64, l: u64, c: u64, r: u64, out: u64|
            rule.ensures((n, o, l, c, r), out) ==> out == cell(n, o, l, c, r),
    ensures
        next@ == interior_blended(own@, around@, nu, cell),
{
    let n: usize = vector_len(around);
    let mut next = vector_clone(around);
    if n < 3 {
        assert(next@ =~= interior_blended(own@, around@, nu, cell));
        return next;
    }
    let mut i: usize = 1;
    while i < n - 1
        invariant
            n == around@.len(),
            n == own@.len(),
            next@.len() == n,
            1 <= i <= n - 1,
            forall|n: u64, o: u64, l: u64, c: u64, r: u64| rule.requires((n, o, l, c, r)),
            forall|n: u64, o: u64, l: u64, c: u64, r: u64, out: u64|
                rule.ensures((n, o, l, c, r), out) ==> out == cell(n, o, l, c, r),
            forall|k: int|
                0 <= k < i ==> next@[k] == interior_blended(own@, around@, nu, cell)[k],
            forall|k: int| i <= k < n ==> next@[k] == around@[k],
        decreases n - i,
    {
        let out: u64 = rule(
            nu,
            vector_get(own, i),
            vector_get(around, i - 1),
            vector_get(around, i),
            vector_get(around, i + 1),
        );
        vector_set(&mut next, i, out);
        i += 1;
    }
    assert(next@ =~= interior_blended(own@, around@, nu, cell));
    next
}

} // verus!
