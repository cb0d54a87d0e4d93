use vstd::prelude::*;
use vstd::arithmetic::div_mod::{
    lemma_div_pos_is_pos, lemma_fundamental_div_mod, lemma_fundamental_div_mod_converse,
    lemma_mod_bound, lemma_multiply_divide_lt,
};

verus! {

/// A cell of the lattice, by its three integer coordinates.
#[derive(Debug, Clone, Copy, PartialEq, Eq, Structural)]
pub struct LatticeCoordinate {
    pub x: i32,
    pub y: i32,
    pub z: i32,
}

impl LatticeCoordinate {
    /// The cell lies in the cube `[-radius, radius)` on every axis.
    pub open spec fn within(&self, radius: int) -> bool {
        &&& -radius <= self.x < radius
        &&& -radius <= self.y < radius
        &&& -radius <= self.z < radius
    }
}

/// The number of cells along one edge of the cube of the given radius.
pub open spec fn side(radius: int) -> int {
    2 * radius
}

/// The number of cells in the cube of the given radius: `(2 * radius)^3`.
pub open spec fn cell_count(radius: int) -> int {
    (2 * radius) * (2 * radius) * (2 * radius)
}

/// The position of a cell in the enumeration of the cube: `x` varies slowest,
/// `z` fastest.
pub open spec fn index_of(c: LatticeCoordinate, radius: int) -> int {
    ((c.x + radius) * side(radius) + (c.y + radius)) * side(radius) + (c.z + radius)
}

/// The cell at position `i` of the enumeration of the cube.
pub open spec fn coord_at(i: int, radius: int) -> LatticeCoordinate {
    let d = side(radius);
    LatticeCoordinate {
        x: ((i / d) / d - radius) as i32,
        y: ((i / d) % d - radius) as i32,
        z: (i % d - radius) as i32,
    }
}

proof fn lemma_digits_bound(a: int, b: int, c: int, d: int)
    by (nonlinear_arith)
    requires
        0 <= a < d,
        0 <= b < d,
        0 <= c < d,
    ensures
        0 <= a * d + b < d * d,
        0 <= (a * d + b) * d + c < d * d * d,
{
}

/// Every cell of the cube has a position below the cell count, and the cell
/// at that position is the cell itself.
pub proof fn lemma_index_round_trip(c: LatticeCoordinate, radius: i32)
    requires
        radius > 0,
        c.within(radius as int),
    ensures
        0 <= index_of(c, radius as int) < cell_count(radius as int),
        coord_at(index_of(c, radius as int), radius as int) == c,
{
    let r = radius as int;
    let d = side(r);
    let a = c.x + r;
    let b = c.y + r;
    let e = c.z + r;
    let row = a * d + b;
    let n = row * d + e;
    lemma_digits_bound(a, b, e, d);
    lemma_fundamental_div_mod_converse(n, d, row, e);
    lemma_fundamental_div_mod_converse(row, d, a, b);
}

/// Every position below the cell count holds a cell of the cube, and that
/// cell has this position.
pub proof fn lemma_coord_round_trip(i: int, radius: i32)
    requires
        radius > 0,
        0 <= i < cell_count(radius as int),
    ensures
        coord_at(i, radius as int).within(radius as int),
        index_of(coord_at(i, radius as int), radius as int) == i,
{
    let r = radius as int;
    let d = side(r);
    let row = i / d;
    let e = i % d;
    let a = row / d;
    let b = row % d;
    lemma_fundamental_div_mod(i, d);
    lemma_fundamental_div_mod(row, d);
    lemma_mod_bound(i, d);
    lemma_mod_bound(row, d);
    lemma_div_pos_is_pos(i, d);
    lemma_div_pos_is_pos(row, d);
    assert(d * d * d == d * (d * d)) by (nonlinear_arith);
    lemma_multiply_divide_lt(i, d, d * d);
    lemma_multiply_divide_lt(row, d, d);
    assert(d * row == row * d && d * a == a * d) by (nonlinear_arith);
}

/// Two different positions below the cell count hold two different cells.
pub proof fn lemma_coords_distinct(i: int, j: int, radius: i32)
    requires
        radius > 0,
        0 <= i < cell_count(radius as int),
        0 <= j < cell_count(radius as int),
        i != j,
    ensures
        coord_at(i, radius as int) != coord_at(j, radius as int),
{
    lemma_coord_round_trip(i, radius);
    lemma_coord_round_trip(j, radius);
}

} // verus!
