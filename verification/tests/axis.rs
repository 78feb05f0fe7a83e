use bvh::axis::Axis;

const TRIPLES: [(f32, f32, f32); 6] = [
    (0.0, 0.0, 0.0),
    (1.0, 0.5, 42.0),
    (-1.5, 2.25, -3.125),
    (f32::MAX, f32::MIN, f32::MIN_POSITIVE),
    (f32::INFINITY, f32::NEG_INFINITY, -0.0),
    (1.0e-40, 3.4e38, -7.0e-12),
];

#[test]
fn test_index_by_axis() {
    for tpl in TRIPLES {
        let a = [tpl.0, tpl.1, tpl.2];
        assert!(a[0] == a[Axis::X] && a[1] == a[Axis::Y] && a[2] == a[Axis::Z]);
    }
}

#[test]
fn test_set_by_axis() {
    for tpl in TRIPLES {
        let mut a = [0.0, 0.0, 0.0];

        a[Axis::X] = tpl.0;
        a[Axis::Y] = tpl.1;
        a[Axis::Z] = tpl.2;

        assert!(a[0] == tpl.0 && a[1] == tpl.1 && a[2] == tpl.2);
    }
}

#[test]
fn read_by_axis_is_read_by_position() {
    let s = [1.0f32, 0.5, 42.0];
    assert_eq!(s[Axis::X], 1.0);
    assert_eq!(s[Axis::Y], 0.5);
    assert_eq!(s[Axis::Z], 42.0);
}

#[test]
fn write_then_read_is_bit_exact() {
    let values = [0.1f32, -0.0, f32::from_bits(0x7fc0_1234)];
    let mut s = [0.0f32; 3];
    s[Axis::X] = values[0];
    s[Axis::Y] = values[1];
    s[Axis::Z] = values[2];
    assert_eq!(s[Axis::X].to_bits(), values[0].to_bits());
    assert_eq!(s[Axis::Y].to_bits(), values[1].to_bits());
    assert_eq!(s[Axis::Z].to_bits(), values[2].to_bits());
}

#[test]
fn write_leaves_the_other_components() {
    for (axis, expected) in [
        (Axis::X, [9.0f32, 2.0, 3.0]),
        (Axis::Y, [1.0, 9.0, 3.0]),
        (Axis::Z, [1.0, 2.0, 9.0]),
    ] {
        let mut s = [1.0f32, 2.0, 3.0];
        s[axis] = 9.0;
        assert_eq!(s, expected);
    }
}

#[test]
fn multiply_through_y() {
    let mut position = [1.0, 0.5, 42.0];
    position[Axis::Y] *= 4.0;

    assert_eq!(position[Axis::Y], 2.0);
    assert_eq!(position[Axis::X], 1.0);
    assert_eq!(position[Axis::Z], 42.0);
}

#[test]
fn slices_of_any_scalar_are_indexed() {
    let mut counts = vec![10u64, 20, 30, 40];
    let slice = counts.as_mut_slice();
    assert_eq!(slice[Axis::X], 10);
    assert_eq!(slice[Axis::Z], 30);
    slice[Axis::Y] += 1;
    assert_eq!(counts, vec![10, 21, 30, 40]);

    let names = ["east", "north", "up"];
    assert_eq!(names[Axis::Z], "up");
}

#[test]
fn a_slice_need_only_reach_the_axis() {
    let mut short = [5i32, 6];
    let slice = &mut short[..];
    assert_eq!(slice[Axis::X], 5);
    slice[Axis::Y] = 7;
    assert_eq!(short, [5, 7]);
}

#[test]
fn ordinals_are_zero_one_two() {
    assert_eq!(Axis::X.as_usize(), 0);
    assert_eq!(Axis::Y.as_usize(), 1);
    assert_eq!(Axis::Z.as_usize(), 2);
    assert_eq!(Axis::X as usize, 0);
    assert_eq!(Axis::Y as usize, 1);
    assert_eq!(Axis::Z as usize, 2);
}

#[test]
fn display_is_lowercase_letter() {
    assert_eq!(Axis::X.to_string(), "x");
    assert_eq!(Axis::Y.to_string(), "y");
    assert_eq!(Axis::Z.to_string(), "z");
}

#[test]
fn display_is_stable() {
    for axis in [Axis::X, Axis::Y, Axis::Z] {
        let first = axis.to_string();
        let second = axis.to_string();
        assert_eq!(first, second);
        assert_eq!(first.chars().count(), 1);
    }
}

#[test]
fn equality_is_variant_identity() {
    let all = [Axis::X, Axis::Y, Axis::Z];
    for a in all {
        for b in all {
            assert_eq!(a == b, a.as_usize() == b.as_usize());
        }
    }
    assert_ne!(Axis::X, Axis::Y);
    assert_ne!(Axis::Y, Axis::Z);
    assert_ne!(Axis::X, Axis::Z);
}

#[test]
fn axis_is_a_copyable_value() {
    let a = Axis::Y;
    let b = a;
    let c = a.clone();
    assert_eq!(a, b);
    assert_eq!(a, c);
    assert_eq!(format!("{:?}", a), "Y");
}
