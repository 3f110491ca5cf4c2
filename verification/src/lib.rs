//! Photography-planning dashboard core: weather scoring, astronomical
//! lighting windows, aurora-visibility prediction, and the composite
//! recommendation engine.
//!
//! Physical quantities are carried as scaled integers so that every rule can
//! be stated and checked exactly: angles in microdegrees, temperatures and
//! percentages in tenths of a unit, scores in tenths or hundredths of a
//! point, probabilities in thousandths, and instants as Unix seconds.

pub mod dashboard;
pub mod golden_hour;
pub mod hours;
pub mod photography_tips;
pub mod render;
pub mod solar;
pub mod weather;

use vstd::prelude::*;
use vstd::string::StringExecFns;
use crate::golden_hour::{
    date_valid, in_golden_hour, lighting_condition_spec, lighting_text, microdeg_text,
    solar_event_unix, windows_from, windows_of, AstroError, CalendarDate, GoldenHourInfo,
    GoldenHourService,
};
use crate::photography_tips::{
    equipment_tips, general_tips, location_tips, shooting_tips_spec, technical_tips,
    PhotographyTipsService,
};
use crate::render::{format_hhmm, hhmm_text};

verus! {

/// Largest valid latitude, in microdegrees (90 degrees).
pub const LAT_LIMIT_MICRODEG: i64 = 90_000_000;

/// Largest valid longitude, in microdegrees (180 degrees).
pub const LON_LIMIT_MICRODEG: i64 = 180_000_000;

/// A latitude/longitude pair (in microdegrees) lies on the globe.
pub open spec fn coordinates_valid(latitude: int, longitude: int) -> bool {
    -(LAT_LIMIT_MICRODEG as int) <= latitude <= LAT_LIMIT_MICRODEG as int
        && -(LON_LIMIT_MICRODEG as int) <= longitude <= LON_LIMIT_MICRODEG as int
}

/// Checks that a coordinate pair (in microdegrees) is within the valid
/// latitude and longitude ranges.
pub fn validate_coordinates(latitude: i64, longitude: i64) -> (r: bool)
    ensures
        r == coordinates_valid(latitude as int, longitude as int),
{
    -LAT_LIMIT_MICRODEG <= latitude && latitude <= LAT_LIMIT_MICRODEG
        && -LON_LIMIT_MICRODEG <= longitude && longitude <= LON_LIMIT_MICRODEG
}


/// Solar-activity strings for display; assembled by the presentation
/// layer from an aurora forecast.
#[derive(Debug, Clone)]
pub struct SolarOutput {
    pub solar_wind: String,
    pub geomagnetic: String,
    pub aurora_forecast: String,
    pub best_viewing_hours: String,
}

/// Golden- and blue-hour display strings for one day.
#[derive(Debug, Clone)]
pub struct GoldenHourOutput {
    pub sunrise_sunset: String,
    pub golden_hours: String,
    pub blue_hours: String,
    pub current_condition: String,
}

/// The personalised tip lists together with the general recommendations.
#[derive(Debug, Clone)]
pub struct PhotographyTipsOutput {
    pub equipment_recommendations: Vec<String>,
    pub shooting_tips: Vec<String>,
    pub location_suggestions: Vec<String>,
    pub technical_settings: Vec<String>,
    pub general_recommendations: Vec<String>,
}

/// The display strings that a day's lighting windows determine, with all
/// clock readings shifted into local time by the UTC offset.
pub open spec fn golden_output_matches(
    out: GoldenHourOutput,
    info: GoldenHourInfo,
    now: int,
    utc_offset: int,
) -> bool {
    &&& out.sunrise_sunset@ == "🌅 Восход: "@ + hhmm_text(info.sunrise + utc_offset)
        + " | 🌆 Закат: "@ + hhmm_text(info.sunset + utc_offset)
    &&& out.golden_hours@ == "🌅 Золотой час утро: "@ + hhmm_text(
        info.golden_hour_morning_start + utc_offset,
    ) + "-"@ + hhmm_text(info.golden_hour_morning_end + utc_offset)
        + " | 🌆 Золотой час вечер: "@ + hhmm_text(
        info.golden_hour_evening_start + utc_offset,
    ) + "-"@ + hhmm_text(info.golden_hour_evening_end + utc_offset)
    &&& out.blue_hours@ == "🌅 Синий час утро: "@ + hhmm_text(
        info.blue_hour_morning_start + utc_offset,
    ) + "-"@ + hhmm_text(info.blue_hour_morning_end + utc_offset)
        + " | 🌆 Синий час вечер: "@ + hhmm_text(info.blue_hour_evening_start + utc_offset)
        + "-"@ + hhmm_text(info.blue_hour_evening_end + utc_offset)
    &&& out.current_condition@ == lighting_text(lighting_condition_spec(info, now))
}

/// Renders a day's lighting windows as display strings, shifting each
/// clock reading into local time by the UTC offset, and classifies the
/// given instant.
pub fn generate_golden_hour_output(
    service: &GoldenHourService,
    info: &GoldenHourInfo,
    now: i64,
    utc_offset: i64,
) -> (r: GoldenHourOutput)
    requires
        windows_from(*info, info.sunrise as int, info.sunset as int),
        -100_000_000_000_000 <= info.sunrise <= 100_000_000_000_000,
        -100_000_000_000_000 <= info.sunset <= 100_000_000_000_000,
        -86400 <= utc_offset <= 86400,
    ensures
        golden_output_matches(r, *info, now as int, utc_offset as int),
{
    let current_condition = service.get_current_lighting_condition(info, now).text();
    let mut sunrise_sunset = "🌅 Восход: ".to_string();
    sunrise_sunset.append(format_hhmm(info.sunrise + utc_offset).as_str());
    sunrise_sunset.append(" | 🌆 Закат: ");
    sunrise_sunset.append(format_hhmm(info.sunset + utc_offset).as_str());
    let mut golden_hours = "🌅 Золотой час утро: ".to_string();
    golden_hours.append(format_hhmm(info.golden_hour_morning_start + utc_offset).as_str());
    golden_hours.append("-");
    golden_hours.append(format_hhmm(info.golden_hour_morning_end + utc_offset).as_str());
    golden_hours.append(" | 🌆 Золотой час вечер: ");
    golden_hours.append(format_hhmm(info.golden_hour_evening_start + utc_offset).as_str());
    golden_hours.append("-");
    golden_hours.append(format_hhmm(info.golden_hour_evening_end + utc_offset).as_str());
    let mut blue_hours = "🌅 Синий час утро: ".to_string();
    blue_hours.append(format_hhmm(info.blue_hour_morning_start + utc_offset).as_str());
    blue_hours.append("-");
    blue_hours.append(format_hhmm(info.blue_hour_morning_end + utc_offset).as_str());
    blue_hours.append(" | 🌆 Синий час вечер: ");
    blue_hours.append(format_hhmm(info.blue_hour_evening_start + utc_offset).as_str());
    blue_hours.append("-");
    blue_hours.append(format_hhmm(info.blue_hour_evening_end + utc_offset).as_str());
    GoldenHourOutput { sunrise_sunset, golden_hours, blue_hours, current_condition }
}

/// Computes the lighting windows for a date at a coordinate and renders
/// them: the golden-hour flag for the given instant together with the
/// display strings.  Fails as the window calculation does.
pub fn process_golden_hour(
    latitude: i64,
    longitude: i64,
    date: CalendarDate,
    now: i64,
    utc_offset: i64,
) -> (r: Result<(bool, GoldenHourOutput), AstroError>)
    requires
        date_valid(date),
        -86400 <= utc_offset <= 86400,
    ensures
        !coordinates_valid(latitude as int, longitude as int) ==> r == Result::<
            (bool, GoldenHourOutput),
            AstroError,
        >::Err(AstroError::InvalidCoordinate),
        coordinates_valid(latitude as int, longitude as int) ==> match r {
            Result::Ok(p) => {
                let sr = solar_event_unix(
                    microdeg_text(latitude as int),
                    microdeg_text(longitude as int),
                    date.year as int,
                    date.month as int,
                    date.day as int,
                    true,
                );
                let ss = solar_event_unix(
                    microdeg_text(latitude as int),
                    microdeg_text(longitude as int),
                    date.year as int,
                    date.month as int,
                    date.day as int,
                    false,
                );
                &&& sr is Some && ss is Some
                &&& p.0 == in_golden_hour(windows_of(sr->Some_0, ss->Some_0), now as int)
                &&& golden_output_matches(
                    p.1,
                    windows_of(sr->Some_0, ss->Some_0),
                    now as int,
                    utc_offset as int,
                )
            },
            Result::Err(e) => {
                &&& e == AstroError::PolarDayOrNight
                &&& (solar_event_unix(
                    microdeg_text(latitude as int),
                    microdeg_text(longitude as int),
                    date.year as int,
                    date.month as int,
                    date.day as int,
                    true,
                ) is None || solar_event_unix(
                    microdeg_text(latitude as int),
                    microdeg_text(longitude as int),
                    date.year as int,
                    date.month as int,
                    date.day as int,
                    false,
                ) is None)
            },
        },
{
    let service = GoldenHourService::new(latitude, longitude);
    let info = match service.calculate_golden_hours(date) {
        Result::Ok(info) => info,
        Result::Err(e) => {
            return Result::Err(e);
        },
    };
    let is_golden = service.is_golden_hour(&info, now);
    let output = generate_golden_hour_output(&service, &info, now, utc_offset);
    Result::Ok((is_golden, output))
}

/// Gathers the personalised tips for the current conditions together with
/// the general recommendations.
pub fn process_photography_tips(
    weather_score: i64,
    is_golden_hour: bool,
    aurora_probability: i64,
) -> (r: PhotographyTipsOutput)
    ensures
        r.equipment_recommendations.deep_view() == equipment_tips(
            weather_score as int,
            is_golden_hour,
            aurora_probability as int,
        ),
        r.shooting_tips.deep_view() == shooting_tips_spec(
            weather_score as int,
            is_golden_hour,
            aurora_probability as int,
        ),
        r.location_suggestions.deep_view() == location_tips(
            is_golden_hour,
            aurora_probability as int,
        ),
        r.technical_settings.deep_view() == technical_tips(
            is_golden_hour,
            aurora_probability as int,
        ),
        r.general_recommendations.deep_view() == general_tips(),
{
    let tips_service = PhotographyTipsService::new();
    let personalized = tips_service.get_tips_for_weather(
        weather_score,
        is_golden_hour,
        aurora_probability,
    );
    let general = tips_service.get_general_recommendations();
    PhotographyTipsOutput {
        equipment_recommendations: personalized.equipment_recommendations,
        shooting_tips: personalized.shooting_tips,
        location_suggestions: personalized.location_suggestions,
        technical_settings: personalized.technical_settings,
        general_recommendations: general,
    }
}

} // verus!

