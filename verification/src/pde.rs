//! Index structure of the discrete Laplacian used by the reaction–diffusion
//! step over capability dimensions.

use vstd::prelude::*;

verus! {

/// Left neighbour of position `i` under the reflecting boundary: the position
/// itself at the left end.
pub open spec fn left_neighbor(i: int) -> int {
    if i > 0 { i - 1 } else { i }
}

/// Right neighbour of position `i` of `len` positions under the reflecting
/// boundary: the position itself at the right end.
pub open spec fn right_neighbor(i: int, len: int) -> int {
    if i + 1 < len { i + 1 } else { i }
}

/// The two neighbours that the discrete Laplacian
/// `Δu_i = u_left - 2 u_i + u_right` reads at position `i` of `len` positions.
pub fn laplacian_neighbors(i: usize, len: usize) -> (n: (usize, usize))
    requires
        i < len,
    ensures
        n.0 == left_neighbor(i as int),
        n.1 == right_neighbor(i as int, len as int),
        n.0 < len,
        n.1 < len,
{
    let left = if i > 0 { i - 1 } else { i };
    let right = if i + 1 < len { i + 1 } else { i };
    (left, right)
}

/// The neighbour relation is symmetric inside the interval: `j` is the right
/// neighbour of `i` exactly when `i` is the left neighbour of `j`, for distinct positions.
pub proof fn lemma_neighbors_symmetric(i: int, j: int, len: int)
    requires
        0 <= i < len,
        0 <= j < len,
        i != j,
    ensures
        (right_neighbor(i, len) == j) <==> (left_neighbor(j) == i),
{
}

/// Each neighbour is at most one position away, inside the interval; a
/// position is its own left neighbour only at the left end and its own right
/// neighbour only at the right end.
pub proof fn lemma_neighbors_local(i: int, len: int)
    requires
        0 <= i < len,
    ensures
        0 <= left_neighbor(i) < len,
        0 <= right_neighbor(i, len) < len,
        i - 1 <= left_neighbor(i) <= i,
        i <= right_neighbor(i, len) <= i + 1,
        (left_neighbor(i) == i) <==> i == 0,
        (right_neighbor(i, len) == i) <==> i == len - 1,
{
}

} // verus!
