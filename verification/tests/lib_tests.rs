use my_dashboard::golden_hour::{AstroError, CalendarDate};
use my_dashboard::render::{format_deci, format_hhmm, u64_to_string};
use my_dashboard::{process_golden_hour, process_photography_tips, validate_coordinates};

// Coordinates are in microdegrees: 55.7558 degrees is 55_755_800.

fn create_test_date() -> CalendarDate {
    CalendarDate { year: 2024, month: 6, day: 15 }
}

// Noon UTC on the test date.
fn create_test_instant() -> i64 {
    1_718_452_800
}

#[test]
fn lib_test_validate_coordinates() {
    assert!(validate_coordinates(55_755_800, 37_617_600));
    assert!(!validate_coordinates(100_000_000, 200_000_000));
}

#[test]
fn test_process_golden_hour_smoke() {
    let (_is_golden, output) = process_golden_hour(
        55_755_800,
        37_617_600,
        create_test_date(),
        create_test_instant(),
        3 * 3600,
    )
    .unwrap();
    assert!(output.sunrise_sunset.contains(":"));
    assert!(output.golden_hours.contains(":"));
    assert!(output.blue_hours.contains(":"));
    assert!(!output.current_condition.is_empty());
}

#[test]
fn test_process_photography_tips_smoke() {
    let tips = process_photography_tips(800, true, 700);
    assert!(!tips.equipment_recommendations.is_empty());
    assert!(!tips.shooting_tips.is_empty());
    assert!(!tips.location_suggestions.is_empty());
    assert!(!tips.technical_settings.is_empty());
    assert!(!tips.general_recommendations.is_empty());
}

#[test]
fn test_process_golden_hour_edge_coords() {
    // The north pole at midsummer has no sunset: the typed polar failure
    // comes back instead of a crash.
    let result = process_golden_hour(
        90_000_000,
        180_000_000,
        create_test_date(),
        create_test_instant(),
        0,
    );
    assert_eq!(result.unwrap_err(), AstroError::PolarDayOrNight);
}

#[test]
fn test_process_photography_tips_extremes() {
    let tips_min = process_photography_tips(0, false, 0);
    assert!(!tips_min.equipment_recommendations.is_empty());
    let tips_max = process_photography_tips(1000, true, 1000);
    assert!(!tips_max.equipment_recommendations.is_empty());
    assert!(!tips_max.shooting_tips.is_empty());
    assert!(!tips_max.location_suggestions.is_empty());
    assert!(!tips_max.technical_settings.is_empty());
}

#[test]
fn test_validate_coordinates_edge_cases() {
    assert!(validate_coordinates(90_000_000, 180_000_000));
    assert!(validate_coordinates(-90_000_000, -180_000_000));
    assert!(!validate_coordinates(90_100_000, 0));
    assert!(!validate_coordinates(0, 180_100_000));
}

#[test]
fn main_test_validate_coordinates() {
    assert!(validate_coordinates(55_755_800, 37_617_600)); // Moscow
    assert!(validate_coordinates(0, 0));
    assert!(validate_coordinates(90_000_000, 180_000_000));
    assert!(validate_coordinates(-90_000_000, -180_000_000));

    assert!(!validate_coordinates(91_000_000, 37_617_600));
    assert!(!validate_coordinates(-91_000_000, 37_617_600));
    assert!(!validate_coordinates(55_755_800, 181_000_000));
    assert!(!validate_coordinates(55_755_800, -181_000_000));
}

#[test]
fn test_validate_coordinates_comprehensive() {
    assert!(validate_coordinates(90_000_000, 180_000_000));
    assert!(validate_coordinates(-90_000_000, -180_000_000));
    assert!(validate_coordinates(0, 0));
    assert!(validate_coordinates(45_000_000, 90_000_000));
    assert!(validate_coordinates(-45_000_000, -90_000_000));

    assert!(!validate_coordinates(90_100_000, 180_000_000));
    assert!(!validate_coordinates(-90_100_000, -180_000_000));
    assert!(!validate_coordinates(0, 180_100_000));
    assert!(!validate_coordinates(0, -180_100_000));
}

#[test]
fn test_format_deci_values() {
    assert_eq!(format_deci(205), "20.5");
    assert_eq!(format_deci(200), "20");
    assert_eq!(format_deci(-30), "-3");
    assert_eq!(format_deci(-55), "-5.5");
    assert_eq!(format_deci(0), "0");
    assert_eq!(format_deci(7), "0.7");
}

#[test]
fn test_format_hhmm_values() {
    // 2024-06-15 12:00:00 UTC.
    assert_eq!(format_hhmm(1_718_452_800), "12:00");
    assert_eq!(format_hhmm(1_718_452_800 + 9 * 60), "12:09");
    assert_eq!(format_hhmm(0), "00:00");
    assert_eq!(format_hhmm(86399), "23:59");
    // An instant before 1970 still reads as a clock time of its day.
    assert_eq!(format_hhmm(-60), "23:59");
}

#[test]
fn test_u64_to_string_values() {
    assert_eq!(u64_to_string(0), "0");
    assert_eq!(u64_to_string(7), "7");
    assert_eq!(u64_to_string(4051), "4051");
}
