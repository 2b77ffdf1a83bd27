use gfxmath::{int2, sign_i32, Int2};

#[test]
fn sign_of_integers() {
    assert_eq!(sign_i32(42), 1);
    assert_eq!(sign_i32(-7), -1);
    assert_eq!(sign_i32(0), 0);
    assert_eq!(sign_i32(i32::MIN), -1);
    assert_eq!(sign_i32(i32::MAX), 1);
}

#[test]
fn int2_constructors_agree() {
    assert_eq!(Int2::new(3, -4), int2(3, -4));
    assert_eq!(Int2::from(5), int2(5, 5));
    assert_eq!(Int2::from((1, 2)), int2(1, 2));
    let t: (i32, i32) = int2(7, 8).into();
    assert_eq!(t, (7, 8));
}

#[test]
fn int2_manhattan_length_and_distance() {
    assert_eq!(int2(3, -4).xy_len(), 7);
    assert_eq!(int2(0, 0).xy_len(), 0);
    assert_eq!(int2(1, 1).xy_dist(int2(-2, 5)), 7);
    assert_eq!(int2(-5, 2).xy_dist(int2(-5, 2)), 0);
}

#[test]
fn int2_turns() {
    assert_eq!(int2(1, 0).turn_left(), int2(0, -1));
    assert_eq!(int2(1, 0).turn_right(), int2(0, 1));
    assert_eq!(int2(2, 3).turn_left().turn_right(), int2(2, 3));
}

#[test]
fn int2_component_helpers() {
    let v = int2(-3, 4);
    assert_eq!(v.only_x(), int2(-3, 0));
    assert_eq!(v.only_y(), int2(0, 4));
    assert_eq!(v.abs(), int2(3, 4));
    assert_eq!(v.sign(), int2(-1, 1));
    assert_eq!(int2(0, 0).sign(), int2(0, 0));
    assert_eq!(v.min(int2(0, 0)), int2(-3, 0));
    assert_eq!(v.max(int2(0, 0)), int2(0, 4));
}

#[test]
fn int2_clamp_components() {
    let lo = int2(0, 0);
    let hi = int2(10, 10);
    assert_eq!(int2(-5, 15).clamp(lo, hi), int2(0, 10));
    assert_eq!(int2(5, 6).clamp(lo, hi), int2(5, 6));
    assert_eq!(int2(5, 6).clamp(int2(8, 8), int2(2, 2)), int2(2, 2));
}

#[test]
fn int2_index() {
    let v = int2(7, -9);
    assert_eq!(v[0], 7);
    assert_eq!(v[1], -9);
}

#[test]
fn int2_arithmetic() {
    let a = int2(6, -4);
    let b = int2(2, 3);
    assert_eq!(-a, int2(-6, 4));
    assert_eq!(a + b, int2(8, -1));
    assert_eq!(a - b, int2(4, -7));
    assert_eq!(a * 3, int2(18, -12));
    assert_eq!(3 * a, int2(18, -12));
    assert_eq!(a * b, int2(12, -12));
}

#[test]
fn int2_division_rounds_toward_zero() {
    assert_eq!(int2(7, -7) / 2, int2(3, -3));
    assert_eq!(int2(7, -7) / -2, int2(-3, 3));
    assert_eq!(int2(9, -9) / int2(4, 4), int2(2, -2));
    assert_eq!(int2(i32::MIN, 5) / int2(1, -5), int2(i32::MIN, -1));
}

#[test]
fn int2_remainder_keeps_sign_of_dividend() {
    assert_eq!(int2(7, -7) % 3, int2(1, -1));
    assert_eq!(int2(7, -7) % -3, int2(1, -1));
    assert_eq!(int2(10, -10) % int2(4, 6), int2(2, -4));
}

#[test]
fn int2_assign_operators() {
    let mut v = int2(6, -4);
    v += int2(1, 1);
    assert_eq!(v, int2(7, -3));
    v -= int2(2, 2);
    assert_eq!(v, int2(5, -5));
    v *= 2;
    assert_eq!(v, int2(10, -10));
    v *= int2(1, -1);
    assert_eq!(v, int2(10, 10));
    v /= 3;
    assert_eq!(v, int2(3, 3));
    v /= int2(2, -2);
    assert_eq!(v, int2(1, -1));
    let mut w = int2(-7, 7);
    w %= 4;
    assert_eq!(w, int2(-3, 3));
    w %= int2(2, 2);
    assert_eq!(w, int2(-1, 1));
}

#[test]
fn int2_text() {
    assert_eq!(int2(-12, 5).to_string(), "-12, 5");
    assert_eq!(int2(0, i32::MIN).to_string(), "0, -2147483648");
    assert_eq!(int2(i32::MAX, 100).to_string(), "2147483647, 100");
}
