use gfxmath::{int2, int3, Int3};

#[test]
fn int3_constructors_agree() {
    assert_eq!(Int3::new(1, 2, 3), int3(1, 2, 3));
    assert_eq!(Int3::from(4), int3(4, 4, 4));
    assert_eq!(Int3::from((1, 2)), int3(1, 2, 0));
    assert_eq!(Int3::from((1, 2, 3)), int3(1, 2, 3));
    assert_eq!(Int3::from(int2(5, 6)), int3(5, 6, 0));
    let t: (i32, i32, i32) = int3(7, 8, 9).into();
    assert_eq!(t, (7, 8, 9));
}

#[test]
fn int3_manhattan_length_and_distance() {
    assert_eq!(int3(1, -2, 3).xyz_len(), 6);
    assert_eq!(int3(1, 1, 1).xyz_dist(int3(-1, 4, 1)), 5);
}

#[test]
fn int3_component_helpers() {
    let v = int3(-3, 4, -5);
    assert_eq!(v.only_x(), int3(-3, 0, 0));
    assert_eq!(v.only_y(), int3(0, 4, 0));
    assert_eq!(v.only_z(), int3(0, 0, -5));
    assert_eq!(v.abs(), int3(3, 4, 5));
    assert_eq!(v.sign(), int3(-1, 1, -1));
    assert_eq!(v.min(int3(0, 0, 0)), int3(-3, 0, -5));
    assert_eq!(v.max(int3(0, 0, 0)), int3(0, 4, 0));
    assert_eq!(v.clamp(int3(-1, -1, -1), int3(1, 1, 1)), int3(-1, 1, -1));
}

#[test]
fn int3_index() {
    let v = int3(7, -9, 11);
    assert_eq!((v[0], v[1], v[2]), (7, -9, 11));
}

#[test]
fn int3_arithmetic() {
    let a = int3(6, -4, 2);
    let b = int3(2, 3, -1);
    assert_eq!(-a, int3(-6, 4, -2));
    assert_eq!(a + b, int3(8, -1, 1));
    assert_eq!(a - b, int3(4, -7, 3));
    assert_eq!(a * 2, int3(12, -8, 4));
    assert_eq!(2 * a, int3(12, -8, 4));
    assert_eq!(a * b, int3(12, -12, -2));
    assert_eq!(int3(7, -7, 8) / 2, int3(3, -3, 4));
    assert_eq!(int3(7, -7, 8) / int3(2, 3, -3), int3(3, -2, -2));
    assert_eq!(int3(7, -7, 8) % 4, int3(3, -3, 0));
    assert_eq!(int3(7, -7, 8) % int3(2, 3, -3), int3(1, -1, 2));
}

#[test]
fn int3_remainder_assign() {
    let mut v = int3(-7, 7, 9);
    v %= 4;
    assert_eq!(v, int3(-3, 3, 1));
    v %= int3(2, 2, 2);
    assert_eq!(v, int3(-1, 1, 1));
}

#[test]
fn int3_text() {
    assert_eq!(int3(1, -20, 300).to_string(), "1, -20, 300");
}
