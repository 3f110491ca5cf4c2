use my_dashboard::golden_hour::{AstroError, CalendarDate, GoldenHourService};

// Coordinates are in microdegrees (55_755_800 is 55.7558 degrees) and all
// window times are Unix seconds, so two hours are 7200 and thirty minutes
// are 1800 seconds.

fn create_test_service() -> GoldenHourService {
    GoldenHourService::new(55_755_800, 37_617_600) // Moscow
}

fn create_test_date() -> CalendarDate {
    CalendarDate { year: 2024, month: 6, day: 15 }
}

fn create_winter_date() -> CalendarDate {
    CalendarDate { year: 2024, month: 12, day: 21 }
}

#[test]
fn test_golden_hour_info_structure() {
    let service = create_test_service();
    let info = service.calculate_golden_hours(create_test_date()).unwrap();
    assert!(info.sunrise > info.golden_hour_morning_start);
    assert!(info.sunrise < info.golden_hour_morning_end);
    assert!(info.sunset > info.golden_hour_evening_start);
    assert!(info.sunset < info.golden_hour_evening_end);
    assert_eq!(info.golden_hour_morning_end - info.golden_hour_morning_start, 7200);
    assert_eq!(info.golden_hour_evening_end - info.golden_hour_evening_start, 7200);
    assert_eq!(info.blue_hour_morning_end - info.blue_hour_morning_start, 1800);
    assert_eq!(info.blue_hour_evening_end - info.blue_hour_evening_start, 1800);
}

#[test]
fn test_golden_hour_timing() {
    let service = create_test_service();
    let info = service.calculate_golden_hours(create_test_date()).unwrap();
    assert_eq!(info.golden_hour_morning_start, info.sunrise - 3600);
    assert_eq!(info.golden_hour_morning_end, info.sunrise + 3600);
    assert_eq!(info.golden_hour_evening_start, info.sunset - 3600);
    assert_eq!(info.golden_hour_evening_end, info.sunset + 3600);
}

#[test]
fn test_blue_hour_timing() {
    let service = create_test_service();
    let info = service.calculate_golden_hours(create_test_date()).unwrap();
    assert_eq!(info.blue_hour_morning_start, info.sunrise - 1800);
    assert_eq!(info.blue_hour_morning_end, info.sunrise);
    assert_eq!(info.blue_hour_evening_start, info.sunset);
    assert_eq!(info.blue_hour_evening_end, info.sunset + 1800);
}

#[test]
fn test_day_night_cycle() {
    let service = create_test_service();
    let info = service.calculate_golden_hours(create_test_date()).unwrap();
    assert!(info.sunrise < info.sunset);
    assert!(info.golden_hour_morning_start < info.golden_hour_evening_start);
    assert!(info.golden_hour_morning_end < info.golden_hour_evening_end);
    assert!(info.blue_hour_morning_start < info.blue_hour_evening_start);
    assert!(info.blue_hour_morning_end < info.blue_hour_evening_end);
}

#[test]
fn test_lighting_conditions() {
    let service = create_test_service();
    let info = service.calculate_golden_hours(create_test_date()).unwrap();

    let morning_golden = service
        .get_current_lighting_condition(&info, info.blue_hour_morning_end + 60)
        .text();
    assert_eq!(morning_golden, "Золотой час (утро)");

    let evening_golden = service
        .get_current_lighting_condition(&info, info.golden_hour_evening_start + 1800)
        .text();
    assert_eq!(evening_golden, "Золотой час (вечер)");

    let morning_blue = service
        .get_current_lighting_condition(&info, info.blue_hour_morning_start + 300)
        .text();
    assert_eq!(morning_blue, "Синий час (утро)");

    let evening_blue = service
        .get_current_lighting_condition(&info, info.blue_hour_evening_start + 300)
        .text();
    assert_eq!(evening_blue, "Синий час (вечер)");

    let daytime = service
        .get_current_lighting_condition(&info, info.sunrise + 6 * 3600)
        .text();
    assert_eq!(daytime, "Дневное время");

    let nighttime = service
        .get_current_lighting_condition(&info, info.blue_hour_morning_start - 3600)
        .text();
    assert_eq!(nighttime, "Ночное время");
}

#[test]
fn test_seasonal_variations() {
    let service = create_test_service();
    let summer_info = service.calculate_golden_hours(create_test_date()).unwrap();
    let winter_info = service.calculate_golden_hours(create_winter_date()).unwrap();
    let summer_day_length = summer_info.sunset - summer_info.sunrise;
    let winter_day_length = winter_info.sunset - winter_info.sunrise;
    assert!(summer_day_length > winter_day_length);
}

#[test]
fn test_coordinate_validation() {
    let moscow = GoldenHourService::new(55_755_800, 37_617_600);
    let spb = GoldenHourService::new(59_931_100, 30_360_900);
    let murmansk = GoldenHourService::new(68_979_200, 33_092_500);
    let test_date = create_test_date();
    assert!(moscow.calculate_golden_hours(test_date).is_ok());
    assert!(spb.calculate_golden_hours(test_date).is_ok());
    // Midsummer above the polar circle: the sun does not set.
    let _murmansk_result = murmansk.calculate_golden_hours(test_date);
}

#[test]
fn golden_hour_test_golden_hour_detection() {
    let service = create_test_service();
    let info = service.calculate_golden_hours(create_test_date()).unwrap();
    let blue_morning_time = info.blue_hour_morning_start + 300;
    let golden_evening_time = info.golden_hour_evening_start + 1800;
    let non_golden_time = info.sunrise + 6 * 3600;

    let morning_condition = service.get_current_lighting_condition(&info, blue_morning_time);
    let evening_condition = service.get_current_lighting_condition(&info, golden_evening_time);
    let non_golden_condition = service.get_current_lighting_condition(&info, non_golden_time);

    assert_eq!(morning_condition.text(), "Синий час (утро)");
    assert_eq!(evening_condition.text(), "Золотой час (вечер)");
    assert_eq!(non_golden_condition.text(), "Дневное время");
}

#[test]
fn golden_hour_test_edge_cases() {
    let service = create_test_service();
    let info = service.calculate_golden_hours(create_test_date()).unwrap();
    let hours = [
        info.sunrise,
        info.sunset,
        info.golden_hour_morning_start,
        info.golden_hour_evening_start,
    ];
    for t in hours {
        let hour_of_day = t.rem_euclid(86400) / 3600;
        assert!((0..=23).contains(&hour_of_day));
    }
    assert!(info.golden_hour_morning_end < info.golden_hour_evening_start);
}

#[test]
fn test_invalid_coordinate_rejected() {
    let bad = GoldenHourService::new(91_000_000, 0);
    let result = bad.calculate_golden_hours(create_test_date());
    assert_eq!(result.unwrap_err(), AstroError::InvalidCoordinate);
}

#[test]
fn test_polar_day_reported() {
    // The north pole at midsummer has no sunset.
    let pole = GoldenHourService::new(90_000_000, 0);
    let result = pole.calculate_golden_hours(create_test_date());
    assert_eq!(result.unwrap_err(), AstroError::PolarDayOrNight);
}

#[test]
fn test_blue_hour_beats_golden_hour_near_sunrise() {
    // Ten minutes before sunrise lies inside both the blue-hour and the
    // golden-hour morning windows; the blue hour must win.
    let service = create_test_service();
    let info = service.calculate_golden_hours(create_test_date()).unwrap();
    let t = info.sunrise - 600;
    assert!(t >= info.golden_hour_morning_start && t <= info.golden_hour_morning_end);
    let condition = service.get_current_lighting_condition(&info, t);
    assert_eq!(condition.text(), "Синий час (утро)");
}

#[test]
fn test_calendar_date_validity() {
    assert!(CalendarDate { year: 2024, month: 2, day: 29 }.is_valid());
    assert!(!CalendarDate { year: 2023, month: 2, day: 29 }.is_valid());
    assert!(!CalendarDate { year: 2024, month: 4, day: 31 }.is_valid());
    assert!(!CalendarDate { year: 2024, month: 13, day: 1 }.is_valid());
    assert!(CalendarDate { year: 1900, month: 2, day: 28 }.is_valid());
    assert!(!CalendarDate { year: 1900, month: 2, day: 29 }.is_valid());
    assert!(CalendarDate { year: 2000, month: 2, day: 29 }.is_valid());
}
