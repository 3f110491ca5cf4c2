//! Astronomical lighting windows: sunrise, sunset, the golden hours and the
//! blue hours of a calendar date at a coordinate, and the classification of
//! an instant against those windows.
//!
//! The solar events themselves come from an astronomical library through one
//! trusted wrapper; everything derived from them — window arithmetic,
//! golden-hour membership, lighting classification — is verified.  Instants
//! are Unix seconds; coordinates are microdegrees.

use vstd::prelude::*;
use vstd::string::StringExecFns;
use crate::coordinates_valid;
use crate::render::{dec_digits, format_two_digit, two_digit_text, u64_to_string};

verus! {

/// A calendar date in the proleptic Gregorian calendar, years 1 and up.
#[derive(Clone, Copy, Debug, PartialEq, Eq, Structural)]
pub struct CalendarDate {
    pub year: i32,
    pub month: u8,
    pub day: u8,
}

/// A failure of the astronomical calculation: the coordinate is off the
/// globe, or the sun does not rise or set on that date at that latitude.
#[derive(Clone, Copy, Debug, PartialEq, Eq, Structural)]
pub enum AstroError {
    InvalidCoordinate,
    PolarDayOrNight,
}

/// The lighting regime of an instant, judged against the day's windows.
/// The blue hours nest inside the golden hours around sunrise and sunset
/// and take precedence over them.
#[derive(Clone, Copy, Debug, PartialEq, Eq, Structural)]
pub enum LightingCondition {
    BlueHourMorning,
    BlueHourEvening,
    GoldenHourMorning,
    GoldenHourEvening,
    Daytime,
    Nighttime,
}

/// The day's lighting windows, all in Unix seconds.
#[derive(Debug, Clone)]
pub struct GoldenHourInfo {
    pub sunrise: i64,
    pub sunset: i64,
    pub golden_hour_morning_start: i64,
    pub golden_hour_morning_end: i64,
    pub golden_hour_evening_start: i64,
    pub golden_hour_evening_end: i64,
    pub blue_hour_morning_start: i64,
    pub blue_hour_morning_end: i64,
    pub blue_hour_evening_start: i64,
    pub blue_hour_evening_end: i64,
}

/// Whether a year is a leap year in the Gregorian calendar.
pub open spec fn leap_year(y: int) -> bool {
    y % 4 == 0 && (y % 100 != 0 || y % 400 == 0)
}

/// The number of days in a month of a year.
pub open spec fn days_in_month(y: int, m: int) -> int {
    if m == 2 {
        if leap_year(y) {
            29
        } else {
            28
        }
    } else if m == 4 || m == 6 || m == 9 || m == 11 {
        30
    } else {
        31
    }
}

/// The date names a real day, in the year range the astronomical library
/// accepts.
pub open spec fn date_valid(d: CalendarDate) -> bool {
    &&& 1 <= d.year <= 262_000
    &&& 1 <= d.month <= 12
    &&& 1 <= d.day <= days_in_month(d.year as int, d.month as int)
}

/// A coordinate component held in microdegrees, rendered as the plain
/// decimal-degree text the astronomical library is given, with six
/// fractional digits: `55755800` becomes `55.755800`.
pub open spec fn microdeg_text(v: int) -> Seq<char> {
    let a = if v < 0 {
        -v
    } else {
        v
    };
    (if v < 0 {
        seq!['-']
    } else {
        Seq::<char>::empty()
    }) + dec_digits(a / 1_000_000) + seq!['.'] + two_digit_text((a % 1_000_000) / 10_000)
        + two_digit_text(((a % 1_000_000) / 100) % 100) + two_digit_text(a % 100)
}

/// Renders a microdegree coordinate component as decimal-degree text.
pub fn microdeg_string(v: i64) -> (r: String)
    requires
        -1_000_000_000 <= v <= 1_000_000_000,
    ensures
        r@ == microdeg_text(v as int),
{
    let mut s = String::new();
    let a: u64 = if v < 0 {
        proof {
            reveal_strlit("-");
        }
        s.append("-");
        assert(s@ =~= seq!['-']);
        (-v) as u64
    } else {
        v as u64
    };
    s.append(u64_to_string(a / 1_000_000).as_str());
    proof {
        reveal_strlit(".");
    }
    s.append(".");
    s.append(format_two_digit((a % 1_000_000) / 10_000).as_str());
    s.append(format_two_digit(((a % 1_000_000) / 100) % 100).as_str());
    s.append(format_two_digit(a % 100).as_str());
    proof {
        assert(s@ =~= microdeg_text(v as int));
    }
    s
}

/// The Unix second at which the named solar event occurs on the given date
/// at the coordinate whose components are given as decimal-degree text,
/// `morning` selecting sunrise and `!morning` sunset — or `None` when the
/// event does not occur there (polar day or polar night).
pub uninterp spec fn solar_event_unix(
    lat_text: Seq<char>,
    lon_text: Seq<char>,
    year: int,
    month: int,
    day: int,
    morning: bool,
) -> Option<int>;

/// Relies on `sunrise::SolarDay::event_time` (with `Coordinates::new`
/// parsing the decimal-degree texts and `chrono::NaiveDate::from_ymd_opt`
/// converting the date): it computes the sunrise and sunset instants of
/// the date at the coordinate and returns `None` for an event that does
/// not occur.  Sunrise never falls after sunset (the morning hour angle is
/// the negated evening one), and both instants are bounded by the
/// library's representable date range.
#[verifier::external_body]
fn solar_events_for_date(lat_s: &str, lon_s: &str, year: i32, month: u8, day: u8) -> (r: Option<
    (i64, i64),
>)
    requires
        exists|la: int, lo: int|
            {
                &&& coordinates_valid(la, lo)
                &&& lat_s@ == #[trigger] microdeg_text(la)
                &&& lon_s@ == #[trigger] microdeg_text(lo)
            },
        date_valid(CalendarDate { year, month, day }),
    ensures
        r is Some <==> (solar_event_unix(
            lat_s@,
            lon_s@,
            year as int,
            month as int,
            day as int,
            true,
        ) is Some && solar_event_unix(
            lat_s@,
            lon_s@,
            year as int,
            month as int,
            day as int,
            false,
        ) is Some),
        r matches Some(p) ==> {
            &&& Some(p.0 as int) == solar_event_unix(
                lat_s@,
                lon_s@,
                year as int,
                month as int,
                day as int,
                true,
            )
            &&& Some(p.1 as int) == solar_event_unix(
                lat_s@,
                lon_s@,
                year as int,
                month as int,
                day as int,
                false,
            )
            &&& p.0 <= p.1
            &&& -100_000_000_000_000 <= p.0 <= 100_000_000_000_000
            &&& -100_000_000_000_000 <= p.1 <= 100_000_000_000_000
        },
{
    let c = sunrise::Coordinates::new(lat_s.parse().ok()?, lon_s.parse().ok()?)?;
    let d = chrono::NaiveDate::from_ymd_opt(year, month as u32, day as u32)?;
    let sd = sunrise::SolarDay::new(c, d);
    let ev = (
        sd.event_time(sunrise::SolarEvent::Sunrise),
        sd.event_time(sunrise::SolarEvent::Sunset),
    );
    match ev {
        (Some(a), Some(b)) => Some((a.timestamp(), b.timestamp())),
        _ => None,
    }
}

/// The windows a day's sunrise and sunset determine: each golden hour runs
/// from one hour before the event to one hour after it, and each blue hour
/// is the half hour ending at sunrise or beginning at sunset.
pub open spec fn windows_from(info: GoldenHourInfo, sunrise: int, sunset: int) -> bool {
    &&& info.sunrise == sunrise
    &&& info.sunset == sunset
    &&& info.golden_hour_morning_start == sunrise - 3600
    &&& info.golden_hour_morning_end == sunrise + 3600
    &&& info.golden_hour_evening_start == sunset - 3600
    &&& info.golden_hour_evening_end == sunset + 3600
    &&& info.blue_hour_morning_start == sunrise - 1800
    &&& info.blue_hour_morning_end == sunrise
    &&& info.blue_hour_evening_start == sunset
    &&& info.blue_hour_evening_end == sunset + 1800
}

/// The instant lies in one of the two golden-hour windows (boundaries
/// inclusive).
pub open spec fn in_golden_hour(info: GoldenHourInfo, t: int) -> bool {
    (info.golden_hour_morning_start <= t <= info.golden_hour_morning_end)
        || (info.golden_hour_evening_start <= t <= info.golden_hour_evening_end)
}

/// The lighting regime of an instant: the blue hours are checked before
/// the golden hours (they nest inside them near sunrise and sunset), then
/// daytime between sunrise and sunset, else night.
pub open spec fn lighting_condition_spec(info: GoldenHourInfo, t: int) -> LightingCondition {
    if info.blue_hour_morning_start <= t <= info.blue_hour_morning_end {
        LightingCondition::BlueHourMorning
    } else if info.blue_hour_evening_start <= t <= info.blue_hour_evening_end {
        LightingCondition::BlueHourEvening
    } else if info.golden_hour_morning_start <= t <= info.golden_hour_morning_end {
        LightingCondition::GoldenHourMorning
    } else if info.golden_hour_evening_start <= t <= info.golden_hour_evening_end {
        LightingCondition::GoldenHourEvening
    } else if info.sunrise <= t <= info.sunset {
        LightingCondition::Daytime
    } else {
        LightingCondition::Nighttime
    }
}

impl CalendarDate {
    /// Checks that the date names a real day.
    pub fn is_valid(&self) -> (r: bool)
        ensures
            r == date_valid(*self),
    {
        if !(1 <= self.year && self.year <= 262_000) {
            return false;
        }
        if !(1 <= self.month && self.month <= 12) {
            return false;
        }
        let leap = self.year % 4 == 0 && (self.year % 100 != 0 || self.year % 400 == 0);
        let dim: u8 = if self.month == 2 {
            if leap {
                29
            } else {
                28
            }
        } else if self.month == 4 || self.month == 6 || self.month == 9 || self.month == 11 {
            30
        } else {
            31
        };
        1 <= self.day && self.day <= dim
    }
}

/// The display text of a lighting regime.
pub open spec fn lighting_text(c: LightingCondition) -> Seq<char> {
    match c {
        LightingCondition::BlueHourMorning => "Синий час (утро)"@,
        LightingCondition::BlueHourEvening => "Синий час (вечер)"@,
        LightingCondition::GoldenHourMorning => "Золотой час (утро)"@,
        LightingCondition::GoldenHourEvening => "Золотой час (вечер)"@,
        LightingCondition::Daytime => "Дневное время"@,
        LightingCondition::Nighttime => "Ночное время"@,
    }
}

/// The lighting windows derived from a sunrise and sunset instant.
pub open spec fn windows_of(sunrise: int, sunset: int) -> GoldenHourInfo {
    GoldenHourInfo {
        sunrise: sunrise as i64,
        sunset: sunset as i64,
        golden_hour_morning_start: (sunrise - 3600) as i64,
        golden_hour_morning_end: (sunrise + 3600) as i64,
        golden_hour_evening_start: (sunset - 3600) as i64,
        golden_hour_evening_end: (sunset + 3600) as i64,
        blue_hour_morning_start: (sunrise - 1800) as i64,
        blue_hour_morning_end: sunrise as i64,
        blue_hour_evening_start: sunset as i64,
        blue_hour_evening_end: (sunset + 1800) as i64,
    }
}

impl LightingCondition {
    /// The display text of the regime.
    pub fn text(&self) -> (r: String)
        ensures
            r@ == lighting_text(*self),
    {
        match self {
            LightingCondition::BlueHourMorning => "Синий час (утро)".to_string(),
            LightingCondition::BlueHourEvening => "Синий час (вечер)".to_string(),
            LightingCondition::GoldenHourMorning => "Золотой час (утро)".to_string(),
            LightingCondition::GoldenHourEvening => "Золотой час (вечер)".to_string(),
            LightingCondition::Daytime => "Дневное время".to_string(),
            LightingCondition::Nighttime => "Ночное время".to_string(),
        }
    }
}

/// Computes golden- and blue-hour windows for dates at a fixed coordinate.
pub struct GoldenHourService {
    /// Latitude, microdegrees.
    pub latitude: i64,
    /// Longitude, microdegrees.
    pub longitude: i64,
}

impl GoldenHourService {
    /// Creates a service for a coordinate given in microdegrees.
    pub fn new(latitude: i64, longitude: i64) -> (r: GoldenHourService)
        ensures
            r.latitude == latitude,
            r.longitude == longitude,
    {
        GoldenHourService { latitude, longitude }
    }

    /// Computes the day's lighting windows.  Fails with
    /// `InvalidCoordinate` when the coordinate is off the globe, and with
    /// `PolarDayOrNight` when the sun does not rise or does not set there
    /// on that date; otherwise every window is derived exactly from the
    /// sunrise and sunset instants.
    pub fn calculate_golden_hours(&self, date: CalendarDate) -> (r: Result<
        GoldenHourInfo,
        AstroError,
    >)
        requires
            date_valid(date),
        ensures
            !coordinates_valid(self.latitude as int, self.longitude as int) ==> r == Result::<
                GoldenHourInfo,
                AstroError,
            >::Err(AstroError::InvalidCoordinate),
            coordinates_valid(self.latitude as int, self.longitude as int) ==> match r {
                Result::Ok(info) => {
                    &&& solar_event_unix(
                        microdeg_text(self.latitude as int),
                        microdeg_text(self.longitude as int),
                        date.year as int,
                        date.month as int,
                        date.day as int,
                        true,
                    ) == Some(info.sunrise as int)
                    &&& solar_event_unix(
                        microdeg_text(self.latitude as int),
                        microdeg_text(self.longitude as int),
                        date.year as int,
                        date.month as int,
                        date.day as int,
                        false,
                    ) == Some(info.sunset as int)
                    &&& windows_from(info, info.sunrise as int, info.sunset as int)
                    &&& info.sunrise <= info.sunset
                    &&& -100_000_000_000_000 <= info.sunrise <= 100_000_000_000_000
                    &&& -100_000_000_000_000 <= info.sunset <= 100_000_000_000_000
                },
                Result::Err(e) => {
                    &&& e == AstroError::PolarDayOrNight
                    &&& (solar_event_unix(
                        microdeg_text(self.latitude as int),
                        microdeg_text(self.longitude as int),
                        date.year as int,
                        date.month as int,
                        date.day as int,
                        true,
                    ) is None || solar_event_unix(
                        microdeg_text(self.latitude as int),
                        microdeg_text(self.longitude as int),
                        date.year as int,
                        date.month as int,
                        date.day as int,
                        false,
                    ) is None)
                },
            },
    {
        if !crate::validate_coordinates(self.latitude, self.longitude) {
            return Result::Err(AstroError::InvalidCoordinate);
        }
        let lat_s = microdeg_string(self.latitude);
        let lon_s = microdeg_string(self.longitude);
        match solar_events_for_date(lat_s.as_str(), lon_s.as_str(), date.year, date.month, date.day) {
            Option::None => Result::Err(AstroError::PolarDayOrNight),
            Option::Some((sunrise, sunset)) => Result::Ok(
                GoldenHourInfo {
                    sunrise,
                    sunset,
                    golden_hour_morning_start: sunrise - 3600,
                    golden_hour_morning_end: sunrise + 3600,
                    golden_hour_evening_start: sunset - 3600,
                    golden_hour_evening_end: sunset + 3600,
                    blue_hour_morning_start: sunrise - 1800,
                    blue_hour_morning_end: sunrise,
                    blue_hour_evening_start: sunset,
                    blue_hour_evening_end: sunset + 1800,
                },
            ),
        }
    }

    /// True exactly when the instant falls in either golden-hour window,
    /// boundaries inclusive.
    pub fn is_golden_hour(&self, info: &GoldenHourInfo, now: i64) -> (r: bool)
        ensures
            r == in_golden_hour(*info, now as int),
    {
        (info.golden_hour_morning_start <= now && now <= info.golden_hour_morning_end)
            || (info.golden_hour_evening_start <= now && now <= info.golden_hour_evening_end)
    }

    /// Classifies an instant against the day's windows, checking the blue
    /// hours before the golden hours.
    pub fn get_current_lighting_condition(&self, info: &GoldenHourInfo, time: i64) -> (r:
        LightingCondition)
        ensures
            r == lighting_condition_spec(*info, time as int),
    {
        if info.blue_hour_morning_start <= time && time <= info.blue_hour_morning_end {
            LightingCondition::BlueHourMorning
        } else if info.blue_hour_evening_start <= time && time <= info.blue_hour_evening_end {
            LightingCondition::BlueHourEvening
        } else if info.golden_hour_morning_start <= time && time <= info.golden_hour_morning_end {
            LightingCondition::GoldenHourMorning
        } else if info.golden_hour_evening_start <= time && time <= info.golden_hour_evening_end {
            LightingCondition::GoldenHourEvening
        } else if info.sunrise <= time && time <= info.sunset {
            LightingCondition::Daytime
        } else {
            LightingCondition::Nighttime
        }
    }
}

/// The shape of a day's lighting windows: both golden hours last exactly
/// two hours and both blue hours exactly thirty minutes; the morning blue
/// hour ends at sunrise and the evening one starts at sunset; sunrise
/// precedes the end of the morning golden hour and the start of the
/// evening golden hour precedes the end of the evening one; and whenever
/// the day is longer than two hours, sunrise, the end of the morning
/// golden hour, the start of the evening golden hour and sunset are
/// strictly ordered.  (On a day shorter than two hours — possible just
/// inside a polar circle — the two golden hours overlap and that middle
/// ordering does not hold, so it is stated only for longer days.)
pub proof fn lemma_lighting_windows_shape(info: GoldenHourInfo, sunrise: int, sunset: int)
    requires
        windows_from(info, sunrise, sunset),
        sunrise <= sunset,
    ensures
        info.golden_hour_morning_end - info.golden_hour_morning_start == 7200,
        info.golden_hour_evening_end - info.golden_hour_evening_start == 7200,
        info.blue_hour_morning_end - info.blue_hour_morning_start == 1800,
        info.blue_hour_evening_end - info.blue_hour_evening_start == 1800,
        info.blue_hour_morning_end == info.sunrise,
        info.blue_hour_evening_start == info.sunset,
        info.sunrise < info.golden_hour_morning_end,
        info.golden_hour_evening_start < info.sunset,
        sunset - sunrise > 7200 ==> info.sunrise < info.golden_hour_morning_end
            < info.golden_hour_evening_start < info.sunset,
{
}

/// The tie-break between nested windows: any instant inside the morning
/// blue hour is classified as blue hour, never as golden hour, although
/// the morning golden-hour window also contains it.
pub proof fn lemma_blue_hour_wins(info: GoldenHourInfo, sunrise: int, sunset: int, t: int)
    requires
        windows_from(info, sunrise, sunset),
        info.blue_hour_morning_start <= t <= info.blue_hour_morning_end,
    ensures
        info.golden_hour_morning_start <= t <= info.golden_hour_morning_end,
        lighting_condition_spec(info, t) == LightingCondition::BlueHourMorning,
{
}

} // verus!
