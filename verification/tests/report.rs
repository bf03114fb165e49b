use tilescene::input::Key;
use tilescene::report::{debug_key, format_point, i64_to_decimal, report_on_key, u64_to_decimal};
use tilescene::scene::placements;
use tilescene::units::Vec3Fixed;

#[test]
fn unsigned_decimals_render_exactly() {
    assert_eq!(u64_to_decimal(0), "0");
    assert_eq!(u64_to_decimal(7), "7");
    assert_eq!(u64_to_decimal(42), "42");
    assert_eq!(u64_to_decimal(1000), "1000");
    assert_eq!(u64_to_decimal(u64::MAX), "18446744073709551615");
}

#[test]
fn signed_decimals_render_exactly() {
    assert_eq!(i64_to_decimal(0), "0");
    assert_eq!(i64_to_decimal(-1), "-1");
    assert_eq!(i64_to_decimal(-2000), "-2000");
    assert_eq!(i64_to_decimal(i64::MAX), "9223372036854775807");
    assert_eq!(i64_to_decimal(i64::MIN), "-9223372036854775808");
}

#[test]
fn a_point_renders_as_its_three_coordinates() {
    let p = Vec3Fixed { x_milli: 1000, y_milli: 0, z_milli: -1000 };
    assert_eq!(format_point(&p), "(1000, 0, -1000)");
}

#[test]
fn the_debug_key_reports_one_line_per_placement() {
    let ps = placements(3);
    let lines = report_on_key(debug_key(), true, &ps);
    assert_eq!(lines.len(), 3);
    assert_eq!(lines[0], "(0, 0, -1000)");
    assert_eq!(lines[1], "(1000, 0, -1000)");
    assert_eq!(lines[2], "(2000, 0, -1000)");
}

#[test]
fn other_keys_report_nothing() {
    let ps = placements(3);
    for key in [Key::Comma, Key::O, Key::A, Key::E, Key::LShift, Key::Escape] {
        assert!(report_on_key(key, true, &ps).is_empty());
    }
}

#[test]
fn a_held_debug_key_reports_nothing() {
    let ps = placements(3);
    assert!(report_on_key(debug_key(), false, &ps).is_empty());
}

#[test]
fn no_placements_mean_an_empty_report() {
    let ps = placements(0);
    assert!(report_on_key(debug_key(), true, &ps).is_empty());
}
