//! Aurora-visibility prediction from solar-wind and geomagnetic inputs.
//!
//! Activity accumulates on a 0-10 scale from the Kp index, the solar-wind
//! speed and the solar-wind density, then becomes a visibility probability
//! and an ordinal intensity level.  To keep every step exact the activity
//! is carried in fifteenths of a point (0..=150) and the probability in
//! thousandths; physical inputs are in tenths of their unit.

use vstd::prelude::*;

verus! {

/// Solar-wind observations, in tenths of their unit (speed in tenths of a
/// km/s, density in tenths of a particle/cm^3, temperature in tenths of a
/// Kelvin).
#[derive(Debug, Clone)]
pub struct SolarWindData {
    pub speed: i64,
    pub density: i64,
    pub temperature: i64,
    /// Magnetic field, tenths of a nT; absent from the speed/density feed.
    pub magnetic_field: Option<i64>,
    /// Instant of the observation, Unix seconds.
    pub timestamp: i64,
}

/// Geomagnetic observations: the Kp index in tenths (0..=90 nominally) and
/// the derived aurora activity in thousandths of a point (0..=10000).
#[derive(Debug, Clone)]
pub struct GeomagneticData {
    pub kp_index: i64,
    pub aurora_activity: i64,
    /// Solar radiation; absent from the Kp feed.
    pub solar_radiation: Option<i64>,
    /// Instant of the observation, Unix seconds.
    pub timestamp: i64,
}

/// The five ordinal intensity labels, weakest first.
#[derive(Clone, Copy, Debug, PartialEq, Eq, Structural)]
pub enum IntensityLevel {
    Minimal,
    Low,
    Moderate,
    High,
    VeryHigh,
}

/// An aurora forecast derived from solar-wind and geomagnetic inputs.
#[derive(Debug, Clone)]
pub struct AuroraForecast {
    pub solar_wind: SolarWindData,
    pub geomagnetic: GeomagneticData,
    /// Visibility probability, thousandths (0..=1000 for inputs in range).
    pub visibility_probability: i64,
    pub intensity_level: IntensityLevel,
    /// Always the fixed nocturnal block 22,23,0,1,2,3,4,5.
    pub best_viewing_hours: Vec<usize>,
    /// Viewing-conditions text, chosen by probability bucket.
    pub conditions: String,
}

/// One record of the solar-wind feed, already reduced to plain scaled
/// values; measurement fields are absent where the instrument gave none.
#[derive(Debug, Clone)]
pub struct SwepamRecord {
    pub dsflag: i64,
    pub dens: Option<i64>,
    pub speed: Option<i64>,
    pub temperature: Option<i64>,
}

/// Numeric inputs lie in the generous range that keeps the arithmetic
/// exact.
pub open spec fn aurora_inputs_in_range(kp_deci: int, speed_deci: int, density_deci: int) -> bool {
    &&& -1_000_000_000 <= kp_deci <= 1_000_000_000
    &&& -1_000_000_000 <= speed_deci <= 1_000_000_000
    &&& -1_000_000_000 <= density_deci <= 1_000_000_000
}

/// Aurora activity in fifteenths of a point, capped at 10 points: the Kp
/// index contributes `min(kp/9, 1) * 6` points, the solar-wind speed 2
/// points above 600 km/s or 1 above 400, and the density 2 points above
/// 10 particles/cm^3 or 1 above 5.
pub open spec fn aurora_activity_spec(kp_deci: int, speed_deci: int, density_deci: int) -> int {
    let kp_part = if kp_deci <= 90 {
        kp_deci
    } else {
        90
    };
    let speed_part: int = if speed_deci > 6000 {
        30
    } else if speed_deci > 4000 {
        15
    } else {
        0
    };
    let density_part: int = if density_deci > 100 {
        30
    } else if density_deci > 50 {
        15
    } else {
        0
    };
    let total = kp_part + speed_part + density_part;
    if total <= 150 {
        total
    } else {
        150
    }
}

/// The visibility probability in thousandths for an activity in
/// fifteenths: `activity / 10`, i.e. `act15 * 20 / 3` thousandths,
/// clamped into [0, 1] (the activity cap already bounds it above).
pub open spec fn probability_milli_spec(act15: int) -> int {
    if act15 >= 0 {
        act15 * 20 / 3
    } else {
        0
    }
}

/// The intensity label for an activity in fifteenths, by descending
/// probability bucket: above 0.8, 0.6, 0.4, 0.2, else minimal.
pub open spec fn intensity_spec(act15: int) -> IntensityLevel {
    if act15 > 120 {
        IntensityLevel::VeryHigh
    } else if act15 > 90 {
        IntensityLevel::High
    } else if act15 > 60 {
        IntensityLevel::Moderate
    } else if act15 > 30 {
        IntensityLevel::Low
    } else {
        IntensityLevel::Minimal
    }
}

/// The viewing-conditions text for an activity in fifteenths, by
/// descending probability bucket: above 0.6, 0.4, 0.2, else poor.
pub open spec fn conditions_text_spec(act15: int) -> Seq<char> {
    if act15 > 90 {
        "Отличные условия для наблюдения северных сияний"@
    } else if act15 > 60 {
        "Хорошие условия, возможны сияния"@
    } else if act15 > 30 {
        "Умеренные условия, сияния маловероятны"@
    } else {
        "Плохие условия для наблюдения сияний"@
    }
}

/// The aurora activity that the geomagnetic feed derives from the Kp index
/// alone, in thousandths of a point and capped at 10 points.
pub open spec fn kp_activity_spec(kp_deci: int) -> int {
    let raw: int = if kp_deci >= 50 {
        8000 + (kp_deci - 50) * 40
    } else if kp_deci >= 30 {
        4000 + (kp_deci - 30) * 200
    } else {
        kp_deci * 133
    };
    if raw <= 10000 {
        raw
    } else {
        10000
    }
}

/// A solar-wind record is usable: its instrument flag is clear and every
/// measurement is present.
pub open spec fn swepam_record_valid(r: SwepamRecord) -> bool {
    r.dsflag == 0 && r.dens is Some && r.speed is Some && r.temperature is Some
}

/// The start of the window holding the last (at most) 50 records.
pub open spec fn swepam_window_start(len: int) -> int {
    if len > 50 {
        len - 50
    } else {
        0
    }
}

impl IntensityLevel {
    /// The display text of the label.
    pub fn text(&self) -> (r: String)
        ensures
            r@ == (match *self {
                IntensityLevel::VeryHigh => "Очень высокая"@,
                IntensityLevel::High => "Высокая"@,
                IntensityLevel::Moderate => "Умеренная"@,
                IntensityLevel::Low => "Низкая"@,
                IntensityLevel::Minimal => "Минимальная"@,
            }),
    {
        match self {
            IntensityLevel::VeryHigh => "Очень высокая".to_string(),
            IntensityLevel::High => "Высокая".to_string(),
            IntensityLevel::Moderate => "Умеренная".to_string(),
            IntensityLevel::Low => "Низкая".to_string(),
            IntensityLevel::Minimal => "Минимальная".to_string(),
        }
    }
}

/// Accumulates aurora activity from the Kp index, the solar-wind speed and
/// the solar-wind density, in fifteenths of a point, capped at 10 points.
pub fn calculate_aurora_activity(solar_wind: &SolarWindData, geomagnetic: &GeomagneticData) -> (r:
    i64)
    requires
        aurora_inputs_in_range(
            geomagnetic.kp_index as int,
            solar_wind.speed as int,
            solar_wind.density as int,
        ),
    ensures
        r == aurora_activity_spec(
            geomagnetic.kp_index as int,
            solar_wind.speed as int,
            solar_wind.density as int,
        ),
{
    let kp_part = if geomagnetic.kp_index <= 90 {
        geomagnetic.kp_index
    } else {
        90
    };
    let mut activity = kp_part;
    if solar_wind.speed > 6000 {
        activity = activity + 30;
    } else if solar_wind.speed > 4000 {
        activity = activity + 15;
    }
    if solar_wind.density > 100 {
        activity = activity + 30;
    } else if solar_wind.density > 50 {
        activity = activity + 15;
    }
    if activity > 150 {
        activity = 150;
    }
    activity
}

/// Derives the aurora activity that the geomagnetic feed reports from the
/// Kp index alone, in thousandths of a point.
pub fn kp_to_aurora_activity(kp_index: i64) -> (r: i64)
    requires
        -1_000_000_000 <= kp_index <= 1_000_000_000,
    ensures
        r == kp_activity_spec(kp_index as int),
{
    let raw = if kp_index >= 50 {
        8000 + (kp_index - 50) * 40
    } else if kp_index >= 30 {
        4000 + (kp_index - 30) * 200
    } else {
        kp_index * 133
    };
    if raw <= 10000 {
        raw
    } else {
        10000
    }
}

/// Picks the solar-wind record to use: within the window of the last 50
/// records, the first usable one.  Returns its index, or `None` when no
/// record in the window is usable.
pub fn select_solar_wind_record(records: &Vec<SwepamRecord>) -> (r: Option<usize>)
    ensures
        match r {
            Option::Some(i) => {
                &&& swepam_window_start(records@.len() as int) <= i < records@.len()
                &&& swepam_record_valid(records@[i as int])
                &&& forall|j: int|
                    swepam_window_start(records@.len() as int) <= j < i
                        ==> !swepam_record_valid(#[trigger] records@[j])
            },
            Option::None => forall|j: int|
                swepam_window_start(records@.len() as int) <= j < records@.len()
                    ==> !swepam_record_valid(#[trigger] records@[j]),
        },
{
    let start: usize = if records.len() > 50 {
        records.len() - 50
    } else {
        0
    };
    let mut i: usize = start;
    while i < records.len()
        invariant
            start == swepam_window_start(records@.len() as int),
            start <= i <= records@.len(),
            forall|j: int| start <= j < i ==> !swepam_record_valid(#[trigger] records@[j]),
        decreases records@.len() - i,
    {
        let r = &records[i];
        let valid = r.dsflag == 0 && r.dens.is_some() && r.speed.is_some()
            && r.temperature.is_some();
        if valid {
            return Some(i);
        }
        i = i + 1;
    }
    None
}

/// Predicts aurora visibility from the two observation sets: accumulates
/// the activity, converts it to a probability, classifies the intensity
/// and the viewing conditions, and fixes the nocturnal viewing block.
pub fn predict_aurora(solar_wind: SolarWindData, geomagnetic: GeomagneticData) -> (r: AuroraForecast)
    requires
        aurora_inputs_in_range(
            geomagnetic.kp_index as int,
            solar_wind.speed as int,
            solar_wind.density as int,
        ),
    ensures
        r.solar_wind == solar_wind,
        r.geomagnetic == geomagnetic,
        r.visibility_probability == probability_milli_spec(
            aurora_activity_spec(
                geomagnetic.kp_index as int,
                solar_wind.speed as int,
                solar_wind.density as int,
            ),
        ),
        r.intensity_level == intensity_spec(
            aurora_activity_spec(
                geomagnetic.kp_index as int,
                solar_wind.speed as int,
                solar_wind.density as int,
            ),
        ),
        r.conditions@ == conditions_text_spec(
            aurora_activity_spec(
                geomagnetic.kp_index as int,
                solar_wind.speed as int,
                solar_wind.density as int,
            ),
        ),
        r.best_viewing_hours@ == seq![22usize, 23usize, 0usize, 1usize, 2usize, 3usize, 4usize, 5usize],
{
    let activity = calculate_aurora_activity(&solar_wind, &geomagnetic);
    let probability = if activity >= 0 {
        activity * 20 / 3
    } else {
        0
    };
    let intensity_level = if activity > 120 {
        IntensityLevel::VeryHigh
    } else if activity > 90 {
        IntensityLevel::High
    } else if activity > 60 {
        IntensityLevel::Moderate
    } else if activity > 30 {
        IntensityLevel::Low
    } else {
        IntensityLevel::Minimal
    };
    let conditions = if activity > 90 {
        "Отличные условия для наблюдения северных сияний".to_string()
    } else if activity > 60 {
        "Хорошие условия, возможны сияния".to_string()
    } else if activity > 30 {
        "Умеренные условия, сияния маловероятны".to_string()
    } else {
        "Плохие условия для наблюдения сияний".to_string()
    };
    let mut best_viewing_hours: Vec<usize> = Vec::new();
    best_viewing_hours.push(22);
    best_viewing_hours.push(23);
    best_viewing_hours.push(0);
    best_viewing_hours.push(1);
    best_viewing_hours.push(2);
    best_viewing_hours.push(3);
    best_viewing_hours.push(4);
    best_viewing_hours.push(5);
    proof {
        assert(best_viewing_hours@ =~= seq![
            22usize,
            23usize,
            0usize,
            1usize,
            2usize,
            3usize,
            4usize,
            5usize,
        ]);
    }
    AuroraForecast {
        solar_wind,
        geomagnetic,
        visibility_probability: probability,
        intensity_level,
        best_viewing_hours,
        conditions,
    }
}

} // verus!
