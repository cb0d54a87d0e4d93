use voxel_scene::color::{color_for, Color};
use voxel_scene::lattice::LatticeCoordinate;
use voxel_scene::ratio::Ratio;

fn as_float(r: Ratio) -> f32 {
    r.num as f32 / r.den as f32
}

fn rgba(c: Color) -> [f32; 4] {
    [as_float(c.red), as_float(c.green), as_float(c.blue), as_float(c.alpha)]
}

#[test]
fn lowest_corner_of_radius_four_is_black() {
    let c = color_for(LatticeCoordinate { x: -4, y: -4, z: -4 }, 4);
    assert_eq!(rgba(c), [0.0, 0.0, 0.0, 1.0]);
    assert_eq!(c.red, Ratio { num: 0, den: 8 });
    assert_eq!(c.green, Ratio { num: 0, den: 8 });
    assert_eq!(c.blue, Ratio { num: 0, den: 8 });
    assert_eq!(c.alpha, Ratio { num: 1, den: 1 });
}

#[test]
fn highest_corner_of_radius_four() {
    let c = color_for(LatticeCoordinate { x: 3, y: 3, z: 3 }, 4);
    assert_eq!(rgba(c), [0.875, 0.875, 0.875, 1.0]);
    assert_eq!(c.red, Ratio { num: 7, den: 8 });
}

#[test]
fn each_channel_follows_its_own_axis() {
    let c = color_for(LatticeCoordinate { x: -4, y: 0, z: 2 }, 4);
    assert_eq!(c.red, Ratio { num: 0, den: 8 });
    assert_eq!(c.green, Ratio { num: 4, den: 8 });
    assert_eq!(c.blue, Ratio { num: 6, den: 8 });
    assert_eq!(rgba(c), [0.0, 0.5, 0.75, 1.0]);
}

#[test]
fn channels_lie_in_the_unit_interval() {
    for radius in 1..6 {
        for x in -radius..radius {
            let c = color_for(LatticeCoordinate { x, y: -x - 1, z: x }, radius);
            for ch in [c.red, c.green, c.blue] {
                assert!(ch.den > 0);
                assert!(0 <= ch.num && ch.num < ch.den);
                assert!(0.0 <= as_float(ch) && as_float(ch) < 1.0);
            }
            assert_eq!(as_float(c.alpha), 1.0);
        }
    }
}

#[test]
fn channels_grow_with_their_coordinate() {
    let radius = 5;
    for x in -radius..radius - 1 {
        let a = color_for(LatticeCoordinate { x, y: x, z: x }, radius);
        let b = color_for(LatticeCoordinate { x: x + 1, y: x + 1, z: x + 1 }, radius);
        assert_eq!(a.red.den, b.red.den);
        assert!(a.red.num < b.red.num);
        assert!(a.green.num < b.green.num);
        assert!(a.blue.num < b.blue.num);
        assert!(as_float(a.red) < as_float(b.red));
        assert!(as_float(a.green) < as_float(b.green));
        assert!(as_float(a.blue) < as_float(b.blue));
    }
}

#[test]
fn color_of_the_largest_radius() {
    let c = color_for(LatticeCoordinate { x: i32::MAX - 1, y: -i32::MAX, z: 0 }, i32::MAX);
    assert_eq!(c.red, Ratio { num: 2 * (i32::MAX as i64) - 1, den: 2 * (i32::MAX as i64) });
    assert_eq!(c.green, Ratio { num: 0, den: 2 * (i32::MAX as i64) });
    assert_eq!(c.blue, Ratio { num: i32::MAX as i64, den: 2 * (i32::MAX as i64) });
}
