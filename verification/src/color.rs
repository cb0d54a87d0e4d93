use vstd::prelude::*;
use crate::lattice::LatticeCoordinate;
use crate::ratio::Ratio;

verus! {

/// A colour with red, green, blue and alpha channels. A channel in use lies
/// between zero and one.
#[derive(Debug, Clone, Copy, PartialEq, Eq, Structural)]
pub struct Color {
    pub red: Ratio,
    pub green: Ratio,
    pub blue: Ratio,
    pub alpha: Ratio,
}

/// The colour channel of one lattice component:
/// `(component + radius) / (2 * radius)`.
pub open spec fn channel(component: int, radius: int) -> Ratio {
    Ratio { num: (component + radius) as i64, den: (2 * radius) as i64 }
}

impl Color {
    /// The colour of a cell: red follows `x`, green `y`, blue `z`, and the
    /// cell is opaque.
    pub open spec fn of(coord: LatticeCoordinate, radius: int) -> Color {
        Color {
            red: channel(coord.x as int, radius),
            green: channel(coord.y as int, radius),
            blue: channel(coord.z as int, radius),
            alpha: Ratio { num: 1, den: 1 },
        }
    }
}

fn channel_for(component: i32, radius: i32) -> (c: Ratio)
    requires
        radius > 0,
    ensures
        c == channel(component as int, radius as int),
{
    let r: i64 = radius as i64;
    Ratio { num: component as i64 + r, den: 2 * r }
}

/// The colour of the cell `coord` in a lattice of radius `radius`.
pub fn color_for(coord: LatticeCoordinate, radius: i32) -> (c: Color)
    requires
        radius > 0,
    ensures
        c == Color::of(coord, radius as int),
{
    Color {
        red: channel_for(coord.x, radius),
        green: channel_for(coord.y, radius),
        blue: channel_for(coord.z, radius),
        alpha: Ratio::whole(1),
    }
}

/// A channel of a component inside `[-radius, radius)` lies in `[0, 1)`.
pub proof fn lemma_channel_in_unit_interval(component: i32, radius: i32)
    requires
        radius > 0,
        -radius <= component < radius,
    ensures
        channel(component as int, radius as int).wf(),
        0real <= channel(component as int, radius as int).value() < 1real,
{
    let x = component as int;
    let r = radius as int;
    assert(0real <= ((x + r) as real) / ((2 * r) as real) < 1real) by (nonlinear_arith)
        requires
            r > 0,
            -r <= x < r,
    ;
}

/// A channel grows strictly with its component.
pub proof fn lemma_channel_increasing(lower: i32, upper: i32, radius: i32)
    requires
        radius > 0,
        lower < upper,
    ensures
        channel(lower as int, radius as int).value() < channel(upper as int, radius as int).value(),
{
    let a = lower as int;
    let b = upper as int;
    let r = radius as int;
    assert(((a + r) as real) / ((2 * r) as real) < ((b + r) as real) / ((2 * r) as real))
        by (nonlinear_arith)
        requires
            r > 0,
            a < b,
    ;
}

/// The colour of a cell of the cube has red, green and blue in `[0, 1)` and
/// alpha equal to one.
pub proof fn lemma_color_in_unit_interval(coord: LatticeCoordinate, radius: i32)
    requires
        radius > 0,
        coord.within(radius as int),
    ensures
        0real <= Color::of(coord, radius as int).red.value() < 1real,
        0real <= Color::of(coord, radius as int).green.value() < 1real,
        0real <= Color::of(coord, radius as int).blue.value() < 1real,
        Color::of(coord, radius as int).alpha.value() == 1real,
{
    lemma_channel_in_unit_interval(coord.x, radius);
    lemma_channel_in_unit_interval(coord.y, radius);
    lemma_channel_in_unit_interval(coord.z, radius);
    assert((1int as real) / (1int as real) == 1real) by (nonlinear_arith);
}

/// Each of red, green and blue grows strictly with its own coordinate.
pub proof fn lemma_color_increasing(a: LatticeCoordinate, b: LatticeCoordinate, radius: i32)
    requires
        radius > 0,
    ensures
        a.x < b.x ==> Color::of(a, radius as int).red.value() < Color::of(b, radius as int).red.value(),
        a.y < b.y ==> Color::of(a, radius as int).green.value() < Color::of(b, radius as int).green.value(),
        a.z < b.z ==> Color::of(a, radius as int).blue.value() < Color::of(b, radius as int).blue.value(),
{
    if a.x < b.x {
        lemma_channel_increasing(a.x, b.x, radius);
    }
    if a.y < b.y {
        lemma_channel_increasing(a.y, b.y, radius);
    }
    if a.z < b.z {
        lemma_channel_increasing(a.z, b.z, radius);
    }
}

} // verus!
