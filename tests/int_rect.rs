use gfxmath::{int2, irect, IntRect};

#[test]
fn rect_constructors() {
    assert_eq!(IntRect::new(1, 2, 3, 4), irect(1, 2, 3, 4));
    assert_eq!(IntRect::of_size(3, 4), irect(0, 0, 3, 4));
    assert_eq!(IntRect::centered(int2(10, 10), 4, 6), irect(8, 7, 4, 6));
    assert_eq!(IntRect::centered(int2(0, 0), 5, -5), irect(-2, 2, 5, -5));
}

#[test]
fn rect_edges_of_negative_size() {
    let r = irect(10, 10, -4, -6);
    assert_eq!(r.left(), 10);
    assert_eq!(r.right(), 6);
    assert_eq!(r.top(), 10);
    assert_eq!(r.bottom(), 4);
    assert_eq!((r.min_x(), r.max_x(), r.min_y(), r.max_y()), (6, 10, 4, 10));
    assert_eq!(r.min(), int2(6, 4));
    assert_eq!(r.max(), int2(10, 10));
}

#[test]
fn rect_absolute_moves_negative_extent() {
    assert_eq!(irect(10, 10, -4, -6).absolute(), irect(6, 4, 4, 6));
    assert_eq!(irect(10, 10, 4, -6).non_neg(), irect(10, 4, 4, 6));
    assert_eq!(irect(1, 2, 3, 4).absolute(), irect(1, 2, 3, 4));
}

#[test]
fn rect_is_empty_on_either_axis() {
    assert!(irect(5, 5, 0, 3).is_empty());
    assert!(irect(5, 5, 3, 0).is_empty());
    assert!(!irect(5, 5, -1, 1).is_empty());
}

#[test]
fn rect_points() {
    let r = irect(0, 0, 10, 20);
    assert_eq!(r.center_x(), 5);
    assert_eq!(r.center_y(), 10);
    assert_eq!(r.top_left(), int2(0, 0));
    assert_eq!(r.top_right(), int2(10, 0));
    assert_eq!(r.bottom_right(), int2(10, 20));
    assert_eq!(r.bottom_left(), int2(0, 20));
    assert_eq!(r.size(), int2(10, 20));
    assert_eq!(r.center(), int2(5, 10));
    assert_eq!(r.top_center(), int2(5, 0));
    assert_eq!(r.bottom_center(), int2(5, 20));
    assert_eq!(r.left_center(), int2(0, 10));
    assert_eq!(r.right_center(), int2(10, 10));
    assert_eq!(irect(0, 0, -5, -5).center(), int2(-2, -2));
}

#[test]
fn rect_area_and_perimeter() {
    assert_eq!(irect(3, 3, 4, 5).area(), 20);
    assert_eq!(irect(3, 3, -4, 5).area(), -20);
    assert_eq!(irect(3, 3, 4, 5).perimeter(), 18);
}

#[test]
fn rect_contains_point_half_open() {
    let r = irect(0, 0, 10, 10);
    assert!(r.contains(int2(0, 0)));
    assert!(r.contains(int2(9, 9)));
    assert!(!r.contains(int2(10, 5)));
    assert!(!r.contains(int2(-1, 5)));
}

#[test]
fn rect_contains_rect() {
    let r = irect(0, 0, 10, 10);
    assert!(r.contains_rect(&irect(2, 2, 8, 8)));
    assert!(r.contains_rect(&r));
    assert!(!r.contains_rect(&irect(2, 2, 9, 8)));
}

#[test]
fn rect_clamp_point_includes_edges() {
    let r = irect(0, 0, 10, 10);
    assert_eq!(r.clamp_point(int2(-5, 20)), int2(0, 10));
    assert_eq!(r.clamp_point(int2(4, 6)), int2(4, 6));
    assert_eq!(irect(10, 10, -10, -10).clamp_point(int2(20, -3)), int2(10, 0));
}

#[test]
fn rect_overlaps() {
    let a = irect(0, 0, 10, 10);
    assert!(a.overlaps(&irect(5, 5, 10, 10)));
    assert!(!a.overlaps(&irect(10, 0, 5, 5)));
    assert!(!a.overlaps(&irect(20, 20, 1, 1)));
}

#[test]
fn rect_overlap_of_crossing_squares() {
    assert_eq!(irect(0, 0, 10, 10).overlap(&irect(5, 5, 10, 10)), Some(irect(5, 5, 5, 5)));
}

#[test]
fn rect_overlap_touching_or_apart_is_none() {
    assert_eq!(irect(0, 0, 10, 10).overlap(&irect(10, 0, 5, 5)), None);
    assert_eq!(irect(0, 0, 10, 10).overlap(&irect(30, 30, 5, 5)), None);
    assert_eq!(irect(10, 10, -10, -10).overlap(&irect(5, 5, 10, 10)), Some(irect(5, 5, 5, 5)));
}

#[test]
fn rect_conflate_covers_both() {
    assert_eq!(irect(0, 0, 5, 5).conflate(&irect(10, 10, 5, 5)), irect(0, 0, 15, 15));
    assert_eq!(irect(0, 0, -5, 5).conflate(&irect(1, 1, 1, 1)), irect(-5, 0, 7, 5));
}

#[test]
fn rect_translate_and_ops() {
    let r = irect(1, 2, 3, 4);
    assert_eq!(r.translate(int2(10, -10)), irect(11, -8, 3, 4));
    assert_eq!(r + int2(10, -10), irect(11, -8, 3, 4));
    assert_eq!(r - int2(1, 2), irect(0, 0, 3, 4));
}

#[test]
fn rect_inflate_about_center() {
    assert_eq!(irect(10, 10, 10, 10).inflate(4, 6), irect(8, 7, 14, 16));
    assert_eq!(irect(10, 10, 10, 10).inflate(-3, -3), irect(11, 11, 7, 7));
}

#[test]
fn rect_iter_walks_rows_from_origin() {
    let mut it = irect(0, 0, 2, 2).iter();
    assert_eq!(it.next(), Some(int2(0, 0)));
    assert_eq!(it.next(), Some(int2(1, 0)));
    assert_eq!(it.next(), Some(int2(0, 1)));
    assert_eq!(it.next(), Some(int2(1, 1)));
    assert_eq!(it.next(), None);
    assert_eq!(it.next(), None);
}

#[test]
fn rect_iter_rows_restart_at_min_x() {
    let mut it = irect(1, 0, 2, 1).iter();
    assert_eq!(it.next(), Some(int2(0, 0)));
    assert_eq!(it.next(), Some(int2(1, 0)));
    assert_eq!(it.next(), Some(int2(2, 0)));
    assert_eq!(it.next(), None);
}

#[test]
fn rect_iter_of_empty_rect_ends_at_once() {
    let mut it = irect(0, 0, 3, 0).iter();
    assert_eq!(it.next(), None);
}

#[test]
fn rect_text() {
    assert_eq!(irect(1, 2, -3, 40).to_string(), "1, 2, -3, 40");
}
