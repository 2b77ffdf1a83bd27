use gfxmath::Color;

#[test]
fn packed_matches_hex_layout() {
    assert_eq!(Color::rgba(0x12, 0x34, 0x56, 0x78).packed(), 0x12345678);
    assert_eq!(Color::rgb(255, 0, 0).packed(), 0xff0000ff);
    assert_eq!(Color::rgba(0, 0, 0, 0).packed(), 0);
    assert_eq!(Color::rgba(255, 255, 255, 255).packed(), 0xffffffff);
}

#[test]
fn from_packed_splits_bytes() {
    let c = Color::from_packed(0x80402010);
    assert_eq!(c, Color::rgba(0x80, 0x40, 0x20, 0x10));
    assert_eq!(Color::from(0x00ff00ffu32), Color::rgb(0, 255, 0));
}

#[test]
fn packed_round_trip() {
    for v in [0u32, 1, 0xff, 0x100, 0x12345678, 0xdeadbeef, 0x7fffffff, 0x80000000, u32::MAX] {
        assert_eq!(Color::from_packed(v).packed(), v);
        let c = Color::from_packed(v);
        assert_eq!(Color::from_packed(c.packed()), c);
    }
    let c = Color::rgba(1, 2, 3, 4);
    assert_eq!(Color::from(u32::from(c)), c);
}

#[test]
fn rgb_is_opaque() {
    let c = Color::rgb(10, 20, 30);
    assert_eq!(c.a, 255);
    assert_eq!((c.r, c.g, c.b), (10, 20, 30));
}

#[test]
fn add_saturates() {
    let c = Color::rgba(200, 10, 0, 255) + Color::rgba(100, 10, 0, 1);
    assert_eq!(c, Color::rgba(255, 20, 0, 255));
    let mut d = Color::rgba(1, 2, 3, 4);
    d += Color::rgba(1, 1, 1, 1);
    assert_eq!(d, Color::rgba(2, 3, 4, 5));
}

#[test]
fn sub_saturates() {
    let c = Color::rgba(10, 200, 0, 255) - Color::rgba(20, 100, 5, 0);
    assert_eq!(c, Color::rgba(0, 100, 0, 255));
    let mut d = Color::rgba(5, 5, 5, 5);
    d -= Color::rgba(6, 1, 0, 5);
    assert_eq!(d, Color::rgba(0, 4, 5, 0));
}

#[test]
fn bitwise_ops_work_per_channel() {
    let a = Color::rgba(0xf0, 0x0f, 0xff, 0x00);
    let b = Color::rgba(0xff, 0xff, 0x0f, 0xaa);
    assert_eq!(a & b, Color::rgba(0xf0, 0x0f, 0x0f, 0x00));
    assert_eq!(a | b, Color::rgba(0xff, 0xff, 0xff, 0xaa));
    assert_eq!(a ^ b, Color::rgba(0x0f, 0xf0, 0xf0, 0xaa));
    let mut c = a;
    c &= b;
    assert_eq!(c, a & b);
    let mut c = a;
    c |= b;
    assert_eq!(c, a | b);
    let mut c = a;
    c ^= b;
    assert_eq!(c, a ^ b);
}

#[test]
fn remainder_per_channel() {
    let c = Color::rgba(10, 20, 30, 40) % Color::rgba(3, 7, 30, 9);
    assert_eq!(c, Color::rgba(1, 6, 0, 4));
    assert_eq!(Color::rgba(10, 20, 30, 40) % 7u8, Color::rgba(3, 6, 2, 5));
}

#[test]
fn index_reads_channels() {
    let c = Color::rgba(1, 2, 3, 4);
    assert_eq!((c[0], c[1], c[2], c[3]), (1, 2, 3, 4));
}

#[test]
fn tuple_and_array_conversions() {
    let c = Color::from((1u8, 2u8, 3u8, 4u8));
    assert_eq!(c, Color::rgba(1, 2, 3, 4));
    let t: (u8, u8, u8, u8) = c.into();
    assert_eq!(t, (1, 2, 3, 4));
    let c = Color::from([9u8, 8, 7, 6]);
    assert_eq!(c, Color::rgba(9, 8, 7, 6));
    let a: [u8; 4] = c.into();
    assert_eq!(a, [9, 8, 7, 6]);
}

#[test]
fn order_follows_packed_value() {
    let a = Color::rgba(1, 255, 255, 255);
    let b = Color::rgba(2, 0, 0, 0);
    assert!(a < b);
    assert_eq!(a.packed() < b.packed(), a < b);
    assert!(Color::rgba(0, 0, 0, 1) > Color::rgba(0, 0, 0, 0));
}

#[test]
fn remainder_assign_per_channel() {
    let mut c = Color::rgba(10, 20, 30, 40);
    c %= Color::rgba(3, 7, 30, 9);
    assert_eq!(c, Color::rgba(1, 6, 0, 4));
    let mut d = Color::rgba(10, 20, 30, 40);
    d %= 7u8;
    assert_eq!(d, Color::rgba(3, 6, 2, 5));
}

#[test]
fn color_text_is_packed_hex() {
    assert_eq!(Color::rgba(0x12, 0x34, 0xab, 0x0f).to_string(), "1234ab0f");
    assert_eq!(Color::rgba(0, 0, 0, 0).to_string(), "00000000");
    assert_eq!(Color::rgb(255, 255, 255).to_string(), "ffffffff");
}
