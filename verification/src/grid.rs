use vstd::prelude::*;
use crate::color::{color_for, Color};
use crate::error::SceneError;
use crate::geometry::{Transform, Vector3};
use crate::lattice::{
    cell_count, coord_at, index_of, lemma_coord_round_trip, lemma_index_round_trip, side,
    LatticeCoordinate,
};
use crate::ratio::Ratio;

verus! {

/// The transform of a cell: the cell's coordinates scaled by the cell size,
/// with no rotation and unit scale.
pub open spec fn transform_of(coord: LatticeCoordinate, cell_size: Ratio) -> Transform {
    Transform::at(
        Vector3 {
            x: cell_size.times(coord.x as int),
            y: cell_size.times(coord.y as int),
            z: cell_size.times(coord.z as int),
        },
    )
}

/// The colour and transform of the cell at position `i` of the enumeration.
pub open spec fn voxel_at(i: int, radius: int, cell_size: Ratio) -> (Color, Transform) {
    (Color::of(coord_at(i, radius), radius), transform_of(coord_at(i, radius), cell_size))
}

/// The colour and transform of every cell of the cube, in enumeration order.
pub open spec fn grid(radius: int, cell_size: Ratio) -> Seq<(Color, Transform)> {
    Seq::new(cell_count(radius) as nat, |i: int| voxel_at(i, radius, cell_size))
}

/// A lattice can be generated for a positive radius and a positive cell size.
pub open spec fn valid_parameters(radius: int, cell_size: Ratio) -> bool {
    radius > 0 && cell_size.positive()
}

/// The largest translation of the lattice, `radius * cell_size`, has a
/// numerator that fits the fraction type.
pub open spec fn representable(radius: int, cell_size: Ratio) -> bool {
    radius * cell_size.num <= i64::MAX
}

/// The transforms that occur in a list of cells.
pub open spec fn transform_set(cells: Seq<(Color, Transform)>) -> Set<Transform> {
    Set::new(|t: Transform| exists|i: int| 0 <= i < cells.len() && (#[trigger] cells[i]).1 == t)
}

proof fn lemma_component_fits(component: int, radius: int, num: int)
    by (nonlinear_arith)
    requires
        -radius <= component < radius,
        num > 0,
        radius * num <= i64::MAX,
    ensures
        i64::MIN <= component * num <= i64::MAX,
{
}

proof fn lemma_next_row(row: int, d: int)
    by (nonlinear_arith)
    ensures
        (row + 1) * d == row * d + d,
{
}

proof fn lemma_scaling_injective(a: int, b: int, num: int)
    by (nonlinear_arith)
    requires
        num > 0,
        a != b,
    ensures
        a * num != b * num,
{
}

fn transform_for(coord: LatticeCoordinate, cell_size: Ratio) -> (t: Transform)
    requires
        i64::MIN <= coord.x * cell_size.num <= i64::MAX,
        i64::MIN <= coord.y * cell_size.num <= i64::MAX,
        i64::MIN <= coord.z * cell_size.num <= i64::MAX,
    ensures
        t == transform_of(coord, cell_size),
{
    Transform::from_translation(
        Vector3 {
            x: cell_size.scaled(coord.x),
            y: cell_size.scaled(coord.y),
            z: cell_size.scaled(coord.z),
        },
    )
}

/// Generates the colour and transform of every cell of the cube
/// `[-radius, radius)^3`, `x` varying slowest and `z` fastest.
///
/// A radius or a cell size that is not strictly positive is rejected before
/// anything is generated.
pub fn generate_grid(radius: i32, cell_size: Ratio) -> (res: Result<
    Vec<(Color, Transform)>,
    SceneError,
>)
    requires
        valid_parameters(radius as int, cell_size) ==> representable(radius as int, cell_size),
    ensures
        match res {
            Ok(cells) => {
                &&& valid_parameters(radius as int, cell_size)
                &&& cells@ == grid(radius as int, cell_size)
                &&& cells@.len() == cell_count(radius as int)
            },
            Err(e) => {
                &&& !valid_parameters(radius as int, cell_size)
                &&& e == SceneError::PreconditionViolation
            },
        },
{
    if radius <= 0 || !cell_size.is_positive() {
        return Err(SceneError::PreconditionViolation);
    }
    let ghost r = radius as int;
    let ghost d = side(r);
    let mut comps: Vec<(Color, Transform)> = Vec::new();
    let mut x: i32 = -radius;
    assert((x + r) * d * d == 0) by (nonlinear_arith)
        requires
            x + r == 0,
    ;
    while x < radius
        invariant
            radius > 0,
            cell_size.positive(),
            representable(radius as int, cell_size),
            r == radius,
            d == side(r),
            -radius <= x <= radius,
            comps@.len() == (x + r) * d * d,
            forall|i: int| 0 <= i < comps@.len() ==> comps@[i] == voxel_at(i, r, cell_size),
        decreases radius - x,
    {
        let mut y: i32 = -radius;
        while y < radius
            invariant
                radius > 0,
                cell_size.positive(),
                representable(radius as int, cell_size),
                r == radius,
                d == side(r),
                -radius <= x < radius,
                -radius <= y <= radius,
                comps@.len() == ((x + r) * d + (y + r)) * d,
                forall|i: int| 0 <= i < comps@.len() ==> comps@[i] == voxel_at(i, r, cell_size),
            decreases radius - y,
        {
            let mut z: i32 = -radius;
            while z < radius
                invariant
                    radius > 0,
                    cell_size.positive(),
                    representable(radius as int, cell_size),
                    r == radius,
                    d == side(r),
                    -radius <= x < radius,
                    -radius <= y < radius,
                    -radius <= z <= radius,
                    comps@.len() == ((x + r) * d + (y + r)) * d + (z + r),
                    forall|i: int|
                        0 <= i < comps@.len() ==> comps@[i] == voxel_at(i, r, cell_size),
                decreases radius - z,
            {
                let coord = LatticeCoordinate { x, y, z };
                proof {
                    lemma_index_round_trip(coord, radius);
                    lemma_component_fits(x as int, r, cell_size.num as int);
                    lemma_component_fits(y as int, r, cell_size.num as int);
                    lemma_component_fits(z as int, r, cell_size.num as int);
                }
                let color = color_for(coord, radius);
                let trans = transform_for(coord, cell_size);
                comps.push((color, trans));
                z = z + 1;
            }
            proof {
                lemma_next_row((x + r) * d + (y + r), d);
            }
            y = y + 1;
        }
        proof {
            lemma_next_row(x + r, d);
        }
        x = x + 1;
    }
    assert(comps@ =~= grid(r, cell_size));
    Ok(comps)
}

/// The generated list has `(2 * radius)^3` entries; every entry belongs to a
/// cell inside the cube; two different entries belong to two different
/// cells; and every cell of the cube has its entry.
pub proof fn lemma_grid_enumerates_cube(radius: i32, cell_size: Ratio)
    requires
        radius > 0,
    ensures
        grid(radius as int, cell_size).len() == (2 * radius) * (2 * radius) * (2 * radius),
        forall|i: int|
            0 <= i < grid(radius as int, cell_size).len() ==> (#[trigger] coord_at(
                i,
                radius as int,
            )).within(radius as int),
        forall|i: int, j: int|
            0 <= i < grid(radius as int, cell_size).len() && 0 <= j < grid(
                radius as int,
                cell_size,
            ).len() && i != j ==> #[trigger] coord_at(i, radius as int) != #[trigger] coord_at(
                j,
                radius as int,
            ),
        forall|c: LatticeCoordinate|
            c.within(radius as int) ==> 0 <= #[trigger] index_of(c, radius as int) < grid(
                radius as int,
                cell_size,
            ).len() && grid(radius as int, cell_size)[index_of(c, radius as int)] == (
                Color::of(c, radius as int),
                transform_of(c, cell_size),
            ),
{
    let r = radius as int;
    assert(cell_count(r) > 0) by (nonlinear_arith)
        requires
            r > 0,
            cell_count(r) == (2 * r) * (2 * r) * (2 * r),
    ;
    assert forall|i: int| 0 <= i < grid(r, cell_size).len() implies (#[trigger] coord_at(
        i,
        r,
    )).within(r) by {
        lemma_coord_round_trip(i, radius);
    }
    assert forall|i: int, j: int|
        0 <= i < grid(r, cell_size).len() && 0 <= j < grid(r, cell_size).len() && i
            != j implies #[trigger] coord_at(i, r) != #[trigger] coord_at(j, r) by {
        lemma_coord_round_trip(i, radius);
        lemma_coord_round_trip(j, radius);
    }
    assert forall|c: LatticeCoordinate| c.within(r) implies 0 <= #[trigger] index_of(c, r) < grid(
        r,
        cell_size,
    ).len() && grid(r, cell_size)[index_of(c, r)] == (
        Color::of(c, r),
        transform_of(c, cell_size),
    ) by {
        lemma_index_round_trip(c, radius);
    }
}

/// For a well-formed cell size, the parameters are valid exactly when the
/// radius and the value of the cell size are both greater than zero.
pub proof fn lemma_valid_parameters(radius: i32, cell_size: Ratio)
    requires
        cell_size.wf(),
    ensures
        valid_parameters(radius as int, cell_size) <==> radius > 0 && cell_size.value() > 0real,
{
    Ratio::lemma_positive_value(cell_size);
}

/// Each component of a cell's translation is the cell's coordinate times
/// the cell size, as real numbers.
pub proof fn lemma_translation_scales_coordinate(
    coord: LatticeCoordinate,
    radius: i32,
    cell_size: Ratio,
)
    requires
        valid_parameters(radius as int, cell_size),
        representable(radius as int, cell_size),
        coord.within(radius as int),
    ensures
        transform_of(coord, cell_size).translation.wf(),
        transform_of(coord, cell_size).translation.x.value() == (coord.x as real)
            * cell_size.value(),
        transform_of(coord, cell_size).translation.y.value() == (coord.y as real)
            * cell_size.value(),
        transform_of(coord, cell_size).translation.z.value() == (coord.z as real)
            * cell_size.value(),
{
    let r = radius as int;
    let n = cell_size.num as int;
    lemma_component_fits(coord.x as int, r, n);
    lemma_component_fits(coord.y as int, r, n);
    lemma_component_fits(coord.z as int, r, n);
    Ratio::lemma_times_value(cell_size, coord.x as int);
    Ratio::lemma_times_value(cell_size, coord.y as int);
    Ratio::lemma_times_value(cell_size, coord.z as int);
}

/// For a positive cell size, two different entries of the generated list
/// have two different transforms.
pub proof fn lemma_grid_transforms_distinct(radius: i32, cell_size: Ratio, i: int, j: int)
    requires
        valid_parameters(radius as int, cell_size),
        representable(radius as int, cell_size),
        0 <= i < grid(radius as int, cell_size).len(),
        0 <= j < grid(radius as int, cell_size).len(),
        i != j,
    ensures
        grid(radius as int, cell_size)[i].1 != grid(radius as int, cell_size)[j].1,
{
    let r = radius as int;
    let n = cell_size.num as int;
    let a = coord_at(i, r);
    let b = coord_at(j, r);
    lemma_grid_enumerates_cube(radius, cell_size);
    assert(a.within(r) && b.within(r));
    assert(a != b);
    lemma_component_fits(a.x as int, r, n);
    lemma_component_fits(a.y as int, r, n);
    lemma_component_fits(a.z as int, r, n);
    lemma_component_fits(b.x as int, r, n);
    lemma_component_fits(b.y as int, r, n);
    lemma_component_fits(b.z as int, r, n);
    if a.x != b.x {
        lemma_scaling_injective(a.x as int, b.x as int, n);
    } else if a.y != b.y {
        lemma_scaling_injective(a.y as int, b.y as int, n);
    } else {
        lemma_scaling_injective(a.z as int, b.z as int, n);
    }
}

/// Two runs with the same radius and cell size give the same transforms,
/// whatever order each run lists its cells in.
pub proof fn lemma_transforms_order_independent(
    radius: i32,
    cell_size: Ratio,
    first: Seq<(Color, Transform)>,
    second: Seq<(Color, Transform)>,
)
    requires
        first.to_multiset() == grid(radius as int, cell_size).to_multiset(),
        second.to_multiset() == grid(radius as int, cell_size).to_multiset(),
    ensures
        transform_set(first) == transform_set(second),
{
    lemma_same_entries_same_transforms(first, second);
    lemma_same_entries_same_transforms(second, first);
    assert(transform_set(first) =~= transform_set(second));
}

proof fn lemma_same_entries_same_transforms(
    first: Seq<(Color, Transform)>,
    second: Seq<(Color, Transform)>,
)
    requires
        first.to_multiset() == second.to_multiset(),
    ensures
        transform_set(first).subset_of(transform_set(second)),
{
    assert forall|t: Transform| transform_set(first).contains(t) implies transform_set(
        second,
    ).contains(t) by {
        let i = choose|i: int| 0 <= i < first.len() && (#[trigger] first[i]).1 == t;
        first.to_multiset_ensures();
        second.to_multiset_ensures();
        assert(first.contains(first[i]));
        assert(first.to_multiset().count(first[i]) > 0);
        assert(second.to_multiset().count(first[i]) > 0);
        assert(second.contains(first[i]));
        let j = choose|j: int| 0 <= j < second.len() && second[j] == first[i];
        assert(second[j].1 == t);
    }
}

} // verus!
