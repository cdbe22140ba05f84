use eangine::geom::{Extent, Rect, Vec2};
use eangine::num::{integrate64, sat_add64};
use eangine::text::i64_to_string;

#[test]
fn it_works() {
    assert_eq!(2 + 2, 4);
}

#[test]
fn saturating_addition_is_exact_in_range() {
    assert_eq!(sat_add64(3, 4), 7);
    assert_eq!(sat_add64(-3, 4), 1);
    assert_eq!(sat_add64(i64::MAX, 1), i64::MAX);
    assert_eq!(sat_add64(i64::MIN, -1), i64::MIN);
}

#[test]
fn integration_is_exact() {
    // 16 ms at 250 units/s moves exactly 4000 milli-units.
    assert_eq!(integrate64(425_000, 250, 16), 429_000);
    // Negative velocity moves left.
    assert_eq!(integrate64(0, -125, 8), -1_000);
    // A huge delta saturates instead of wrapping.
    assert_eq!(integrate64(0, i64::MAX, u64::MAX), i64::MAX);
}

#[test]
fn rect_overlap_is_strict() {
    let a = Rect { x: 0, y: 0, width: 10_000, height: 10_000 };
    let b = Rect { x: 10_000, y: 0, width: 10_000, height: 10_000 };
    // Shared edge only: no overlap.
    assert!(!a.overlaps(&b));
    let c = Rect { x: 9_999, y: 9_999, width: 10_000, height: 10_000 };
    assert!(a.overlaps(&c));
}

#[test]
fn with_center_floors_halves() {
    let r = Rect { x: 0, y: 0, width: 10_000, height: 4_000 };
    let c = r.with_center(Vec2 { x: 20_000, y: 10_000 });
    assert_eq!(c.x, 15_000);
    assert_eq!(c.y, 8_000);
    assert_eq!(c.width, 10_000);
    assert_eq!(c.height, 4_000);
}

#[test]
fn box_overlap_by_centre_and_extent() {
    let e = Extent { width: 10_000, height: 10_000 };
    assert!(eangine::geom::check_boxes_overlap(
        Vec2 { x: 0, y: 0 },
        e,
        Vec2 { x: 9_000, y: 0 },
        e
    ));
    assert!(!eangine::geom::check_boxes_overlap(
        Vec2 { x: 0, y: 0 },
        e,
        Vec2 { x: 10_000, y: 0 },
        e
    ));
}

#[test]
fn decimal_rendering() {
    assert_eq!(i64_to_string(0), "0");
    assert_eq!(i64_to_string(5), "5");
    assert_eq!(i64_to_string(210), "210");
    assert_eq!(i64_to_string(-42), "-42");
    assert_eq!(i64_to_string(i64::MIN), "-9223372036854775808");
}
