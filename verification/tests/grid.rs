use std::collections::HashSet;
use voxel_scene::color::color_for;
use voxel_scene::error::SceneError;
use voxel_scene::geometry::{Quaternion, Vector3};
use voxel_scene::grid::generate_grid;
use voxel_scene::lattice::LatticeCoordinate;
use voxel_scene::ratio::Ratio;

fn unit() -> Ratio {
    Ratio { num: 1, den: 1 }
}

fn cell_of(v: &Vector3, cell_size: Ratio) -> (i64, i64, i64) {
    assert_eq!(v.x.den, cell_size.den);
    assert_eq!(v.y.den, cell_size.den);
    assert_eq!(v.z.den, cell_size.den);
    assert_eq!(v.x.num % cell_size.num, 0);
    assert_eq!(v.y.num % cell_size.num, 0);
    assert_eq!(v.z.num % cell_size.num, 0);
    (v.x.num / cell_size.num, v.y.num / cell_size.num, v.z.num / cell_size.num)
}

#[test]
fn emits_the_cube_of_twice_the_radius() {
    for radius in 1..6 {
        let cells = generate_grid(radius, unit()).unwrap();
        let side = 2 * radius as usize;
        assert_eq!(cells.len(), side * side * side);
    }
}

#[test]
fn cells_are_distinct_and_inside_the_cube() {
    for radius in 1..5 {
        let size = Ratio { num: 3, den: 2 };
        let cells = generate_grid(radius, size).unwrap();
        let mut seen = HashSet::new();
        for (_, t) in cells.iter() {
            let (x, y, z) = cell_of(&t.translation, size);
            let r = radius as i64;
            assert!(-r <= x && x < r);
            assert!(-r <= y && y < r);
            assert!(-r <= z && z < r);
            assert!(seen.insert((x, y, z)));
        }
        assert_eq!(seen.len(), cells.len());
    }
}

#[test]
fn every_cell_of_the_cube_is_emitted_once() {
    let radius = 2;
    let cells = generate_grid(radius, unit()).unwrap();
    for x in -radius..radius {
        for y in -radius..radius {
            for z in -radius..radius {
                let n = cells
                    .iter()
                    .filter(|(_, t)| {
                        cell_of(&t.translation, unit()) == (x as i64, y as i64, z as i64)
                    })
                    .count();
                assert_eq!(n, 1);
            }
        }
    }
}

#[test]
fn x_varies_slowest_and_z_fastest() {
    let cells = generate_grid(2, unit()).unwrap();
    assert_eq!(cell_of(&cells[0].1.translation, unit()), (-2, -2, -2));
    assert_eq!(cell_of(&cells[1].1.translation, unit()), (-2, -2, -1));
    assert_eq!(cell_of(&cells[4].1.translation, unit()), (-2, -1, -2));
    assert_eq!(cell_of(&cells[16].1.translation, unit()), (-1, -2, -2));
    assert_eq!(cell_of(&cells[63].1.translation, unit()), (1, 1, 1));
}

#[test]
fn translation_is_the_coordinate_times_the_cell_size() {
    let size = Ratio { num: 5, den: 4 };
    let cells = generate_grid(1, size).unwrap();
    let first = cells[0].1;
    assert_eq!(first.translation.x, Ratio { num: -5, den: 4 });
    assert_eq!(first.translation.y, Ratio { num: -5, den: 4 });
    assert_eq!(first.translation.z, Ratio { num: -5, den: 4 });
    let last = cells[7].1;
    assert_eq!(last.translation.x, Ratio { num: 0, den: 4 });
    let x = first.translation.x;
    assert_eq!(x.num as f32 / x.den as f32, -1.25);
}

#[test]
fn transforms_neither_turn_nor_scale() {
    let cells = generate_grid(2, unit()).unwrap();
    for (_, t) in cells.iter() {
        assert_eq!(t.rotation, Quaternion::one());
        assert_eq!(t.scale, Vector3::from_value(1));
    }
}

#[test]
fn colors_follow_the_coordinates() {
    let radius = 3;
    let cells = generate_grid(radius, unit()).unwrap();
    for (color, t) in cells.iter() {
        let (x, y, z) = cell_of(&t.translation, unit());
        let coord = LatticeCoordinate { x: x as i32, y: y as i32, z: z as i32 };
        assert_eq!(*color, color_for(coord, radius));
    }
}

#[test]
fn two_runs_give_the_same_transforms() {
    let size = Ratio { num: 2, den: 3 };
    let first = generate_grid(3, size).unwrap();
    let mut second = generate_grid(3, size).unwrap();
    assert_eq!(first, second);
    second.reverse();
    let a: HashSet<(i64, i64, i64)> =
        first.iter().map(|(_, t)| cell_of(&t.translation, size)).collect();
    let b: HashSet<(i64, i64, i64)> =
        second.iter().map(|(_, t)| cell_of(&t.translation, size)).collect();
    assert_eq!(a, b);
    assert_eq!(a.len(), 216);
}

#[test]
fn rejects_a_radius_that_is_not_positive() {
    assert_eq!(generate_grid(0, unit()), Err(SceneError::PreconditionViolation));
    assert_eq!(generate_grid(-1, unit()), Err(SceneError::PreconditionViolation));
    assert_eq!(generate_grid(i32::MIN, unit()), Err(SceneError::PreconditionViolation));
}

#[test]
fn rejects_a_cell_size_that_is_not_positive() {
    assert_eq!(generate_grid(2, Ratio { num: 0, den: 1 }), Err(SceneError::PreconditionViolation));
    assert_eq!(generate_grid(2, Ratio { num: -1, den: 1 }), Err(SceneError::PreconditionViolation));
    assert_eq!(generate_grid(2, Ratio { num: 1, den: 0 }), Err(SceneError::PreconditionViolation));
    assert_eq!(generate_grid(2, Ratio { num: 1, den: -1 }), Err(SceneError::PreconditionViolation));
    assert_eq!(
        generate_grid(0, Ratio { num: 0, den: 0 }),
        Err(SceneError::PreconditionViolation)
    );
}

#[test]
fn accepts_the_largest_cell_size_that_fits() {
    let size = Ratio { num: i64::MAX / 2, den: 1 };
    let cells = generate_grid(1, size).unwrap();
    assert_eq!(cells.len(), 8);
    assert_eq!(cells[0].1.translation.x, Ratio { num: -(i64::MAX / 2), den: 1 });
    let size = Ratio { num: i64::MAX, den: 7 };
    let cells = generate_grid(1, size).unwrap();
    assert_eq!(cells[0].1.translation.z, Ratio { num: -i64::MAX, den: 7 });
    assert_eq!(cells[7].1.translation.z, Ratio { num: 0, den: 7 });
}
