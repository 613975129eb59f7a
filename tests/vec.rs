use uhouse::vec::{Vec2, FIXED_ONE};

const ROT_3_DEG: Vec2 = Vec2 { x: 0xffa, y: 0xd6 };

#[test]
fn rotate_unit_x_gives_the_rotation() {
    let unit_x = Vec2 { x: FIXED_ONE, y: 0 };
    assert_eq!(unit_x.rotate(ROT_3_DEG), ROT_3_DEG);
    let r = Vec2 { x: -1234, y: 3000 };
    assert_eq!(unit_x.rotate(r), r);
}

#[test]
fn rotate_by_quarter_turn() {
    let i = Vec2 { x: 0, y: FIXED_ONE };
    assert_eq!(Vec2 { x: 0x800, y: 0 }.rotate(i), Vec2 { x: 0, y: 0x800 });
    assert_eq!(Vec2 { x: 0x800, y: 0x800 }.rotate(i), Vec2 { x: -0x800, y: 0x800 });
}

#[test]
fn rotate_rescales_with_floor_shift() {
    // (100 + 200i)(300 - 400i) = 110000 + 20000i, shifted right by 12.
    let r = Vec2 { x: 100, y: 200 }.rotate(Vec2 { x: 300, y: -400 });
    assert_eq!(r, Vec2 { x: 26, y: 4 });
    // -1 / 4096 rounds down, not toward zero.
    let n = Vec2 { x: -1, y: 0 }.rotate(Vec2 { x: 1, y: 0 });
    assert_eq!(n, Vec2 { x: -1, y: 0 });
}

#[test]
fn rotate_at_the_representable_extremes() {
    let min = Vec2 { x: i16::MIN, y: i16::MIN };
    assert_eq!(min.rotate(min), Vec2 { x: 0, y: 0 });
    let max = Vec2 { x: i16::MAX, y: i16::MAX };
    assert_eq!(max.rotate(max), Vec2 { x: 0, y: -32 });
}

#[test]
fn rotate_revolution_drift_is_small() {
    for v in [
        Vec2 { x: 4096, y: 0 },
        Vec2 { x: 0, y: 4096 },
        Vec2 { x: 2896, y: 2896 },
        Vec2 { x: -4096, y: 0 },
    ] {
        let mut r = v;
        for _ in 0..120 {
            r = r.rotate(ROT_3_DEG);
        }
        assert!((r.x as i32 - v.x as i32).abs() <= 96, "{:?} -> {:?}", v, r);
        assert!((r.y as i32 - v.y as i32).abs() <= 96, "{:?} -> {:?}", v, r);
    }
    let mut r = Vec2 { x: 4096, y: 0 };
    for _ in 0..120 {
        r = r.rotate(ROT_3_DEG);
    }
    assert_eq!(r, Vec2 { x: 4040, y: -42 });
}

#[test]
fn swap_exchanges_components() {
    assert_eq!(Vec2 { x: 3, y: -7 }.swap(), Vec2 { x: -7, y: 3 });
}

#[test]
fn component_abs_values() {
    assert_eq!(Vec2 { x: -5, y: 9 }.component_abs(), Vec2 { x: 5, y: 9 });
    assert_eq!(Vec2 { x: 0, y: -32767 }.component_abs(), Vec2 { x: 0, y: 32767 });
    assert_eq!(Vec2 { x: i16::MIN, y: 1 }.component_abs(), Vec2 { x: i16::MIN, y: 1 });
}

#[test]
fn add_and_sub_wrap() {
    let a = Vec2 { x: 1, y: -2 };
    let b = Vec2 { x: 10, y: 20 };
    assert_eq!(a + b, Vec2 { x: 11, y: 18 });
    assert_eq!(a - b, Vec2 { x: -9, y: -22 });
    let big = Vec2 { x: i16::MAX, y: i16::MIN };
    assert_eq!(big + Vec2 { x: 1, y: 0 }, Vec2 { x: i16::MIN, y: i16::MIN });
    assert_eq!(big - Vec2 { x: 0, y: 1 }, Vec2 { x: i16::MAX, y: i16::MAX });
}

#[test]
fn default_is_zero() {
    assert_eq!(Vec2::default(), Vec2 { x: 0, y: 0 });
}
