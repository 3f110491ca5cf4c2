//! Weather-condition scoring for photography.
//!
//! An hourly forecast is scored against five independent criteria plus a
//! fixed hour-of-day bonus; a parallel analysis judges each hour's fitness
//! for astrophotography.  Quantities are carried in tenths of their unit
//! (tenths of a degree Celsius, tenths of a percent, tenths of a km and of
//! a m/s); scores accumulate in tenths of a point and the overall score is
//! reported in hundredths of a point.

use vstd::prelude::*;
use vstd::string::StringExecFns;
use crate::hours::{hours_in_day, hours_sorted_unique};
use crate::render::{deci_text, format_deci};

verus! {

/// One hourly weather sample.  Numeric fields are in tenths of their unit;
/// `timestamp` is in Unix seconds.
#[derive(Debug, Clone)]
pub struct WeatherData {
    /// Air temperature, tenths of a degree Celsius.
    pub temperature: i64,
    /// Relative humidity, tenths of a percent.
    pub humidity: i64,
    /// Wind speed, tenths of a metre per second.
    pub wind_speed: i64,
    /// Cloud cover, tenths of a percent.
    pub cloud_cover: i64,
    /// Visibility, tenths of a kilometre.
    pub visibility: i64,
    /// Precipitation probability, tenths of a percent.
    pub precipitation_probability: i64,
    /// Short textual description of the conditions.
    pub description: String,
    /// Instant the sample describes, Unix seconds.
    pub timestamp: i64,
}

/// An hourly forecast; index `h` describes hour-of-day `h`.
#[derive(Debug, Clone)]
pub struct WeatherForecast {
    pub hourly: Vec<WeatherData>,
}

/// The outcome of scoring a forecast for general photography.
#[derive(Debug, Clone)]
pub struct WeatherAnalysis {
    /// Average hourly score, hundredths of a point (750 is 7.5 points).
    pub overall_score: i64,
    /// Exactly one overall recommendation, chosen by score bucket.
    pub recommendations: Vec<String>,
    /// Ascending hour indices whose own score reached 7 points.
    pub best_hours: Vec<usize>,
    /// Every per-hour concern, in hour order; duplicates are kept.
    pub concerns: Vec<String>,
}

/// The outcome of judging a forecast for astrophotography.
#[derive(Debug, Clone)]
pub struct AstrophotographyAnalysis {
    pub is_suitable: bool,
    pub cloud_cover_issues: Vec<String>,
    pub recommendations: Vec<String>,
    pub best_hours: Vec<usize>,
    pub concerns: Vec<String>,
}

/// The temperature earns points: between 10 and 25 degrees inclusive.
pub open spec fn temp_ok(w: WeatherData) -> bool {
    100 <= w.temperature <= 250
}

/// The wind earns points: below 10 m/s.
pub open spec fn wind_ok(w: WeatherData) -> bool {
    w.wind_speed < 100
}

/// The visibility earns points: above 8 km.
pub open spec fn visibility_ok(w: WeatherData) -> bool {
    w.visibility > 80
}

/// The precipitation probability earns points: below 20 percent.
pub open spec fn precipitation_ok(w: WeatherData) -> bool {
    w.precipitation_probability < 200
}

/// The hour receives the fixed calendar golden-hour bonus.
pub open spec fn bonus_hour(hour: int) -> bool {
    6 <= hour <= 8 || 18 <= hour <= 20
}

/// The score one sample earns for its hour, in tenths of a point
/// (at most 120).  Cloud cover below 30% earns 3 points, the 30-70% band
/// (inclusive at both ends) 1.5 points, and only cover above 70% earns
/// nothing and raises a concern.
pub open spec fn hour_score(w: WeatherData, hour: int) -> int {
    (if temp_ok(w) {
        20int
    } else {
        0int
    }) + (if wind_ok(w) {
        20int
    } else {
        0int
    }) + (if w.cloud_cover < 300 {
        30int
    } else if w.cloud_cover <= 700 {
        15int
    } else {
        0int
    }) + (if visibility_ok(w) {
        20int
    } else {
        0int
    }) + (if precipitation_ok(w) {
        10int
    } else {
        0int
    }) + (if bonus_hour(hour) {
        20int
    } else {
        0int
    })
}

/// Sum of the first `n` hourly scores, tenths of a point.
pub open spec fn score_sum(ws: Seq<WeatherData>, n: int) -> int
    decreases n,
{
    if n <= 0 {
        0
    } else {
        score_sum(ws, n - 1) + hour_score(ws[n - 1], n - 1)
    }
}

/// The hours among the first `n` whose score reaches 7 points, ascending.
pub open spec fn best_hours_spec(ws: Seq<WeatherData>, n: int) -> Seq<usize>
    decreases n,
{
    if n <= 0 {
        Seq::empty()
    } else {
        best_hours_spec(ws, n - 1) + (if hour_score(ws[n - 1], n - 1) >= 70 {
            seq![(n - 1) as usize]
        } else {
            Seq::empty()
        })
    }
}

/// The concern text for an uncomfortable temperature.
pub open spec fn concern_temperature_text(t: int) -> Seq<char> {
    "Неудобная температура: "@ + deci_text(t) + "°C"@
}

/// The concern text for strong wind.
pub open spec fn concern_wind_text(v: int) -> Seq<char> {
    "Сильный ветер: "@ + deci_text(v) + " м/с"@
}

/// The concern text for heavy cloud cover.
pub open spec fn concern_cloud_text(v: int) -> Seq<char> {
    "Высокая облачность: "@ + deci_text(v) + "%"@
}

/// The concern text for poor visibility.
pub open spec fn concern_visibility_text(v: int) -> Seq<char> {
    "Плохая видимость: "@ + deci_text(v) + " км"@
}

/// The concern text for likely precipitation.
pub open spec fn concern_precipitation_text(v: int) -> Seq<char> {
    "Вероятность осадков: "@ + deci_text(v) + "%"@
}

/// The concerns one sample raises, in the order they are checked:
/// temperature, wind, cloud cover, visibility, precipitation.
pub open spec fn hour_concerns(w: WeatherData) -> Seq<Seq<char>> {
    (if temp_ok(w) {
        Seq::<Seq<char>>::empty()
    } else {
        seq![concern_temperature_text(w.temperature as int)]
    }) + (if wind_ok(w) {
        Seq::<Seq<char>>::empty()
    } else {
        seq![concern_wind_text(w.wind_speed as int)]
    }) + (if w.cloud_cover <= 700 {
        Seq::<Seq<char>>::empty()
    } else {
        seq![concern_cloud_text(w.cloud_cover as int)]
    }) + (if visibility_ok(w) {
        Seq::<Seq<char>>::empty()
    } else {
        seq![concern_visibility_text(w.visibility as int)]
    }) + (if precipitation_ok(w) {
        Seq::<Seq<char>>::empty()
    } else {
        seq![concern_precipitation_text(w.precipitation_probability as int)]
    })
}

/// All concerns of the first `n` hours, flattened in hour order.
pub open spec fn concerns_spec(ws: Seq<WeatherData>, n: int) -> Seq<Seq<char>>
    decreases n,
{
    if n <= 0 {
        Seq::empty()
    } else {
        concerns_spec(ws, n - 1) + hour_concerns(ws[n - 1])
    }
}

/// The single overall recommendation, chosen from the average score in
/// hundredths of a point: at least 7 points, at least 5 points, or below.
pub open spec fn weather_recommendation_text(score_centi: int) -> Seq<char> {
    if score_centi >= 700 {
        "Отличные условия для фотографии!"@
    } else if score_centi >= 500 {
        "Хорошие условия для съемки"@
    } else {
        "Условия не идеальны для фотографии"@
    }
}

/// Fields a sample may hold without arithmetic on it overflowing: a
/// generous bound far beyond any physical value.
pub open spec fn sample_in_range(w: WeatherData) -> bool {
    &&& -1_000_000_000 <= w.temperature <= 1_000_000_000
    &&& -1_000_000_000 <= w.humidity <= 1_000_000_000
    &&& -1_000_000_000 <= w.wind_speed <= 1_000_000_000
    &&& -1_000_000_000 <= w.cloud_cover <= 1_000_000_000
    &&& -1_000_000_000 <= w.visibility <= 1_000_000_000
    &&& -1_000_000_000 <= w.precipitation_probability <= 1_000_000_000
}

fn concern_temperature(t: i64) -> (r: String)
    requires
        t > i64::MIN,
    ensures
        r@ == concern_temperature_text(t as int),
{
    let mut s = "Неудобная температура: ".to_string();
    s.append(format_deci(t).as_str());
    s.append("°C");
    s
}

fn concern_wind(v: i64) -> (r: String)
    requires
        v > i64::MIN,
    ensures
        r@ == concern_wind_text(v as int),
{
    let mut s = "Сильный ветер: ".to_string();
    s.append(format_deci(v).as_str());
    s.append(" м/с");
    s
}

fn concern_cloud(v: i64) -> (r: String)
    requires
        v > i64::MIN,
    ensures
        r@ == concern_cloud_text(v as int),
{
    let mut s = "Высокая облачность: ".to_string();
    s.append(format_deci(v).as_str());
    s.append("%");
    s
}

fn concern_visibility(v: i64) -> (r: String)
    requires
        v > i64::MIN,
    ensures
        r@ == concern_visibility_text(v as int),
{
    let mut s = "Плохая видимость: ".to_string();
    s.append(format_deci(v).as_str());
    s.append(" км");
    s
}

fn concern_precipitation(v: i64) -> (r: String)
    requires
        v > i64::MIN,
    ensures
        r@ == concern_precipitation_text(v as int),
{
    let mut s = "Вероятность осадков: ".to_string();
    s.append(format_deci(v).as_str());
    s.append("%");
    s
}

/// Scores every hour of the forecast against the five criteria and the
/// fixed hour-of-day bonus.  The overall score is the sum of the hourly
/// scores divided by 24 (regardless of how many hours are present, as the
/// forecast nominally covers a full day); an hour whose own score reaches
/// 7 points is a best hour; every concern is collected in hour order; and
/// exactly one overall recommendation is chosen by score bucket.
#[verifier::rlimit(80)]
pub fn analyze_weather_for_photography(forecast: &WeatherForecast) -> (r: WeatherAnalysis)
    requires
        forecast.hourly@.len() <= 24,
        forall|i: int|
            0 <= i < forecast.hourly@.len() ==> sample_in_range(#[trigger] forecast.hourly@[i]),
    ensures
        r.overall_score == score_sum(forecast.hourly@, forecast.hourly@.len() as int) * 5 / 12,
        r.best_hours@ == best_hours_spec(forecast.hourly@, forecast.hourly@.len() as int),
        hours_sorted_unique(r.best_hours@),
        hours_in_day(r.best_hours@),
        r.concerns.deep_view() == concerns_spec(forecast.hourly@, forecast.hourly@.len() as int),
        r.recommendations.deep_view() == seq![weather_recommendation_text(r.overall_score as int)],
{
    let ghost ws = forecast.hourly@;
    let mut sum: i64 = 0;
    let mut best_hours: Vec<usize> = Vec::new();
    let mut concerns: Vec<String> = Vec::new();
    let mut hour: usize = 0;
    proof {
        assert(concerns.deep_view() =~= concerns_spec(ws, 0));
        assert(best_hours@ =~= best_hours_spec(ws, 0));
    }
    while hour < forecast.hourly.len()
        invariant
            hour <= ws.len() <= 24,
            ws == forecast.hourly@,
            forall|i: int| 0 <= i < ws.len() ==> sample_in_range(#[trigger] ws[i]),
            0 <= sum <= 120 * hour,
            sum == score_sum(ws, hour as int),
            best_hours@ == best_hours_spec(ws, hour as int),
            forall|i: int| 0 <= i < best_hours@.len() ==> #[trigger] best_hours@[i] < hour,
            hours_sorted_unique(best_hours@),
            concerns.deep_view() == concerns_spec(ws, hour as int),
        decreases ws.len() - hour,
    {
        let w = &forecast.hourly[hour];
        let mut hour_score_v: i64 = 0;
        let ghost old_concerns = concerns.deep_view();
        if 100 <= w.temperature && w.temperature <= 250 {
            hour_score_v = hour_score_v + 20;
        } else {
            concerns.push(concern_temperature(w.temperature));
        }
        if w.wind_speed < 100 {
            hour_score_v = hour_score_v + 20;
        } else {
            concerns.push(concern_wind(w.wind_speed));
        }
        if w.cloud_cover < 300 {
            hour_score_v = hour_score_v + 30;
        } else if w.cloud_cover <= 700 {
            hour_score_v = hour_score_v + 15;
        } else {
            concerns.push(concern_cloud(w.cloud_cover));
        }
        if w.visibility > 80 {
            hour_score_v = hour_score_v + 20;
        } else {
            concerns.push(concern_visibility(w.visibility));
        }
        if w.precipitation_probability < 200 {
            hour_score_v = hour_score_v + 10;
        } else {
            concerns.push(concern_precipitation(w.precipitation_probability));
        }
        if (6 <= hour && hour <= 8) || (18 <= hour && hour <= 20) {
            hour_score_v = hour_score_v + 20;
        }
        proof {
            assert(hour_score_v == hour_score(ws[hour as int], hour as int));
            assert(concerns.deep_view() =~= old_concerns + hour_concerns(ws[hour as int]));
        }
        if hour_score_v >= 70 {
            best_hours.push(hour);
            proof {
                assert(best_hours@ =~= best_hours_spec(ws, hour as int) + seq![hour]);
            }
        } else {
            proof {
                assert(best_hours@ =~= best_hours_spec(ws, hour as int) + Seq::<usize>::empty());
            }
        }
        sum = sum + hour_score_v;
        hour = hour + 1;
    }
    let overall_score: i64 = (sum * 5) / 12;
    let mut recommendations: Vec<String> = Vec::new();
    if overall_score >= 700 {
        recommendations.push("Отличные условия для фотографии!".to_string());
    } else if overall_score >= 500 {
        recommendations.push("Хорошие условия для съемки".to_string());
    } else {
        recommendations.push("Условия не идеальны для фотографии".to_string());
    }
    proof {
        assert(recommendations.deep_view() =~= seq![
            weather_recommendation_text(overall_score as int),
        ]);
        assert(hours_in_day(best_hours@));
    }
    WeatherAnalysis { overall_score, recommendations, best_hours, concerns }
}


/// A sample is fit for astrophotography: little cloud, far visibility,
/// hardly any precipitation.
pub open spec fn astro_hour_suitable(w: WeatherData) -> bool {
    w.cloud_cover <= 200 && w.visibility >= 100 && w.precipitation_probability <= 100
}

/// A night hour, when aurora and stars can be photographed.
pub open spec fn night_hour(hour: int) -> bool {
    hour >= 22 || hour <= 4
}

/// The astrophotography concern text for cloud cover.
pub open spec fn astro_cloud_text(v: int) -> Seq<char> {
    "Облачность "@ + deci_text(v) + "% - не подходит для астрофотографии"@
}

/// The astrophotography concern text for visibility.
pub open spec fn astro_visibility_text(v: int) -> Seq<char> {
    "Плохая видимость "@ + deci_text(v) + " км"@
}

/// The astrophotography concern text for precipitation.
pub open spec fn astro_precipitation_text(v: int) -> Seq<char> {
    "Вероятность осадков "@ + deci_text(v) + "%"@
}

/// The astrophotography concern text for wind.
pub open spec fn astro_wind_text(v: int) -> Seq<char> {
    "Сильный ветер "@ + deci_text(v) + " м/с может влиять на качество"@
}

/// The astrophotography concern text for the day's average cloud cover.
pub open spec fn astro_avg_cloud_text(v: int) -> Seq<char> {
    "Высокая средняя облачность "@ + deci_text(v)
        + "% - неблагоприятно для астрофотографии"@
}

/// The concerns one sample raises for astrophotography, in check order:
/// cloud cover, visibility, precipitation, wind.  The wind concern is
/// recorded but does not by itself make the hour unsuitable.
pub open spec fn astro_hour_concerns(w: WeatherData) -> Seq<Seq<char>> {
    (if w.cloud_cover > 200 {
        seq![astro_cloud_text(w.cloud_cover as int)]
    } else {
        Seq::<Seq<char>>::empty()
    }) + (if w.visibility < 100 {
        seq![astro_visibility_text(w.visibility as int)]
    } else {
        Seq::<Seq<char>>::empty()
    }) + (if w.precipitation_probability > 100 {
        seq![astro_precipitation_text(w.precipitation_probability as int)]
    } else {
        Seq::<Seq<char>>::empty()
    }) + (if w.wind_speed > 150 {
        seq![astro_wind_text(w.wind_speed as int)]
    } else {
        Seq::<Seq<char>>::empty()
    })
}

/// The suitable night hours among the first `n`, ascending.
pub open spec fn astro_best_hours_spec(ws: Seq<WeatherData>, n: int) -> Seq<usize>
    decreases n,
{
    if n <= 0 {
        Seq::empty()
    } else {
        astro_best_hours_spec(ws, n - 1) + (if astro_hour_suitable(ws[n - 1]) && night_hour(
            n - 1,
        ) {
            seq![(n - 1) as usize]
        } else {
            Seq::empty()
        })
    }
}

/// The concerns of every unsuitable hour among the first `n`, flattened.
pub open spec fn astro_issues_spec(ws: Seq<WeatherData>, n: int) -> Seq<Seq<char>>
    decreases n,
{
    if n <= 0 {
        Seq::empty()
    } else {
        astro_issues_spec(ws, n - 1) + (if astro_hour_suitable(ws[n - 1]) {
            Seq::<Seq<char>>::empty()
        } else {
            astro_hour_concerns(ws[n - 1])
        })
    }
}

/// Sum of the first `n` cloud-cover values, tenths of a percent.
pub open spec fn cloud_sum(ws: Seq<WeatherData>, n: int) -> int
    decreases n,
{
    if n <= 0 {
        0
    } else {
        cloud_sum(ws, n - 1) + ws[n - 1].cloud_cover
    }
}

fn astro_concern_cloud(v: i64) -> (r: String)
    requires
        v > i64::MIN,
    ensures
        r@ == astro_cloud_text(v as int),
{
    let mut s = "Облачность ".to_string();
    s.append(format_deci(v).as_str());
    s.append("% - не подходит для астрофотографии");
    s
}

fn astro_concern_visibility(v: i64) -> (r: String)
    requires
        v > i64::MIN,
    ensures
        r@ == astro_visibility_text(v as int),
{
    let mut s = "Плохая видимость ".to_string();
    s.append(format_deci(v).as_str());
    s.append(" км");
    s
}

fn astro_concern_precipitation(v: i64) -> (r: String)
    requires
        v > i64::MIN,
    ensures
        r@ == astro_precipitation_text(v as int),
{
    let mut s = "Вероятность осадков ".to_string();
    s.append(format_deci(v).as_str());
    s.append("%");
    s
}

fn astro_concern_wind(v: i64) -> (r: String)
    requires
        v > i64::MIN,
    ensures
        r@ == astro_wind_text(v as int),
{
    let mut s = "Сильный ветер ".to_string();
    s.append(format_deci(v).as_str());
    s.append(" м/с может влиять на качество");
    s
}

fn astro_concern_avg_cloud(v: i64) -> (r: String)
    requires
        v > i64::MIN,
    ensures
        r@ == astro_avg_cloud_text(v as int),
{
    let mut s = "Высокая средняя облачность ".to_string();
    s.append(format_deci(v).as_str());
    s.append("% - неблагоприятно для астрофотографии");
    s
}

/// Judges each hour of the forecast for astrophotography.  The whole day is
/// suitable only when every hour is; a suitable night hour (22:00-04:00) is
/// a best hour; the concerns of each unsuitable hour are collected in
/// order; and a note is added when the average cloud cover exceeds 50%.
#[verifier::rlimit(80)]
pub fn analyze_astrophotography_conditions(forecast: &WeatherForecast) -> (r:
    AstrophotographyAnalysis)
    requires
        forecast.hourly@.len() <= 24,
        forall|i: int|
            0 <= i < forecast.hourly@.len() ==> sample_in_range(#[trigger] forecast.hourly@[i]),
    ensures
        r.is_suitable == (forall|i: int|
            0 <= i < forecast.hourly@.len() ==> astro_hour_suitable(#[trigger] forecast.hourly@[i])),
        r.best_hours@ == astro_best_hours_spec(forecast.hourly@, forecast.hourly@.len() as int),
        hours_sorted_unique(r.best_hours@),
        hours_in_day(r.best_hours@),
        r.cloud_cover_issues.deep_view() == astro_issues_spec(
            forecast.hourly@,
            forecast.hourly@.len() as int,
        ),
        r.concerns.deep_view() == (if forecast.hourly@.len() > 0 && cloud_sum(
            forecast.hourly@,
            forecast.hourly@.len() as int,
        ) > 500 * forecast.hourly@.len() {
            seq![
                astro_avg_cloud_text(
                    cloud_sum(forecast.hourly@, forecast.hourly@.len() as int) / forecast.hourly@.len() as int,
                ),
            ]
        } else {
            Seq::<Seq<char>>::empty()
        }),
        r.recommendations.deep_view() == (if r.is_suitable {
            seq![
                "Отличные условия для астрофотографии!"@,
                "Ищите темные места вдали от городских огней"@,
                "Используйте штатив для длительных экспозиций"@,
            ]
        } else {
            seq![
                "Условия не подходят для астрофотографии"@,
                "Рекомендуется перенести съемку на другой день"@,
            ]
        }),
{
    let ghost ws = forecast.hourly@;
    let mut is_suitable = true;
    let mut issues: Vec<String> = Vec::new();
    let mut best_hours: Vec<usize> = Vec::new();
    let mut csum: i64 = 0;
    let mut hour: usize = 0;
    proof {
        assert(issues.deep_view() =~= astro_issues_spec(ws, 0));
        assert(best_hours@ =~= astro_best_hours_spec(ws, 0));
    }
    while hour < forecast.hourly.len()
        invariant
            hour <= ws.len() <= 24,
            ws == forecast.hourly@,
            forall|i: int| 0 <= i < ws.len() ==> sample_in_range(#[trigger] ws[i]),
            is_suitable == (forall|i: int|
                0 <= i < hour ==> astro_hour_suitable(#[trigger] ws[i])),
            best_hours@ == astro_best_hours_spec(ws, hour as int),
            forall|i: int| 0 <= i < best_hours@.len() ==> #[trigger] best_hours@[i] < hour,
            hours_sorted_unique(best_hours@),
            issues.deep_view() == astro_issues_spec(ws, hour as int),
            csum == cloud_sum(ws, hour as int),
            -1_000_000_000 * (hour as int) <= csum <= 1_000_000_000 * (hour as int),
        decreases ws.len() - hour,
    {
        let w = &forecast.hourly[hour];
        let mut hour_suitable = true;
        let mut hc: Vec<String> = Vec::new();
        if w.cloud_cover > 200 {
            hour_suitable = false;
            hc.push(astro_concern_cloud(w.cloud_cover));
        }
        if w.visibility < 100 {
            hour_suitable = false;
            hc.push(astro_concern_visibility(w.visibility));
        }
        if w.precipitation_probability > 100 {
            hour_suitable = false;
            hc.push(astro_concern_precipitation(w.precipitation_probability));
        }
        if w.wind_speed > 150 {
            hc.push(astro_concern_wind(w.wind_speed));
        }
        proof {
            assert(hour_suitable == astro_hour_suitable(ws[hour as int]));
            assert(hc.deep_view() =~= astro_hour_concerns(ws[hour as int]));
        }
        let is_night = hour >= 22 || hour <= 4;
        if hour_suitable && is_night {
            best_hours.push(hour);
            proof {
                assert(best_hours@ =~= astro_best_hours_spec(ws, hour as int) + seq![hour]);
            }
        } else {
            proof {
                assert(best_hours@ =~= astro_best_hours_spec(ws, hour as int)
                    + Seq::<usize>::empty());
            }
        }
        let ghost old_issues = issues.deep_view();
        if !hour_suitable {
            is_suitable = false;
            issues.append(&mut hc);
            proof {
                assert(issues.deep_view() =~= old_issues + astro_hour_concerns(ws[hour as int]));
            }
        } else {
            proof {
                assert(issues.deep_view() =~= old_issues + Seq::<Seq<char>>::empty());
            }
        }
        csum = csum + w.cloud_cover;
        hour = hour + 1;
    }
    let mut recommendations: Vec<String> = Vec::new();
    if is_suitable {
        recommendations.push("Отличные условия для астрофотографии!".to_string());
        recommendations.push("Ищите темные места вдали от городских огней".to_string());
        recommendations.push("Используйте штатив для длительных экспозиций".to_string());
    } else {
        recommendations.push("Условия не подходят для астрофотографии".to_string());
        recommendations.push("Рекомендуется перенести съемку на другой день".to_string());
    }
    let mut concerns: Vec<String> = Vec::new();
    let n = forecast.hourly.len();
    if n > 0 && csum > 500 * (n as i64) {
        concerns.push(astro_concern_avg_cloud(csum / (n as i64)));
    }
    proof {
        if is_suitable {
            assert(recommendations.deep_view() =~= seq![
                "Отличные условия для астрофотографии!"@,
                "Ищите темные места вдали от городских огней"@,
                "Используйте штатив для длительных экспозиций"@,
            ]);
        } else {
            assert(recommendations.deep_view() =~= seq![
                "Условия не подходят для астрофотографии"@,
                "Рекомендуется перенести съемку на другой день"@,
            ]);
        }
        if n > 0 && csum > 500 * (n as i64) {
            assert(concerns.deep_view() =~= seq![astro_avg_cloud_text(csum as int / n as int)]);
        } else {
            assert(concerns.deep_view() =~= Seq::<Seq<char>>::empty());
        }
        assert(hours_in_day(best_hours@));
    }
    AstrophotographyAnalysis { is_suitable, cloud_cover_issues: issues, recommendations, best_hours, concerns }
}


/// Access point for weather data.  The demo flag replaces the ambient
/// environment switch of a typical deployment: callers choose explicitly
/// whether the fixed demonstration forecast is used.
pub struct WeatherService {
    pub api_key: String,
    pub city: String,
    pub demo_mode: bool,
}

/// Current conditions reported by a weather provider, as plain scaled
/// values: temperature in tenths of a degree, percentages in tenths of a
/// percent, wind in tenths of a m/s, visibility in tenths of a km.
#[derive(Debug, Clone)]
pub struct CurrentConditions {
    pub temperature: i64,
    pub humidity: i64,
    pub wind_speed: i64,
    pub cloud_cover: i64,
    pub visibility: i64,
    pub description: Option<String>,
}

/// All numeric fields of the reported conditions are within the generous
/// range that keeps derived arithmetic exact.
pub open spec fn current_in_range(c: CurrentConditions) -> bool {
    &&& -999_999_000 <= c.temperature <= 999_999_000
    &&& -999_999_000 <= c.humidity <= 999_999_000
    &&& -999_999_000 <= c.wind_speed <= 999_999_000
    &&& -999_999_000 <= c.cloud_cover <= 999_999_000
    &&& -999_999_000 <= c.visibility <= 999_999_000
}

/// Clamps a value into an inclusive range.
pub open spec fn clamp_spec(v: int, lo: int, hi: int) -> int {
    if v < lo {
        lo
    } else if v > hi {
        hi
    } else {
        v
    }
}

/// Daily temperature swing for an hour of day, tenths of a degree.
pub open spec fn temp_variation(hd: int) -> int {
    if 6 <= hd <= 8 {
        -20
    } else if 9 <= hd <= 11 {
        -10
    } else if 12 <= hd <= 16 {
        0
    } else if 17 <= hd <= 19 {
        -10
    } else if 20 <= hd <= 22 {
        -20
    } else {
        -30
    }
}

/// Daily humidity swing for an hour of day, tenths of a percent.
pub open spec fn humidity_variation(hd: int) -> int {
    if 6 <= hd <= 8 {
        -50
    } else if 12 <= hd <= 16 {
        50
    } else if 20 <= hd <= 22 {
        -30
    } else {
        0
    }
}

/// Daily wind swing for an hour of day, tenths of a m/s.
pub open spec fn wind_variation(hd: int) -> int {
    if 12 <= hd <= 16 {
        10
    } else {
        0
    }
}

/// Daily cloud-cover swing for an hour of day, tenths of a percent.
pub open spec fn cloud_variation(hd: int) -> int {
    if 6 <= hd <= 8 {
        -100
    } else if 12 <= hd <= 16 {
        50
    } else {
        0
    }
}

/// The sample that the daily-cycle synthesis derives from the current
/// conditions for forecast position `h`, starting at hour `start_hour`.
pub open spec fn derived_sample_matches(
    w: WeatherData,
    c: CurrentConditions,
    h: int,
    start_hour: int,
    now: int,
) -> bool {
    let hd = (start_hour + h) % 24;
    &&& w.temperature == clamp_spec(c.temperature + temp_variation(hd), -200, 500)
    &&& w.humidity == clamp_spec(c.humidity + humidity_variation(hd), 0, 1000)
    &&& w.wind_speed == (if c.wind_speed + wind_variation(hd) >= 0 {
        c.wind_speed + wind_variation(hd)
    } else {
        0
    })
    &&& w.cloud_cover == clamp_spec(c.cloud_cover + cloud_variation(hd), 0, 1000)
    &&& w.visibility == c.visibility
    &&& w.precipitation_probability == (if c.cloud_cover > 700 {
        200int
    } else {
        50int
    })
    &&& w.description@ == (match c.description {
        Option::Some(s) => s@,
        Option::None => "Неизвестно"@,
    })
    &&& w.timestamp == now + 3600 * h
}

/// The description of the fixed demonstration forecast at an hour.
pub open spec fn mock_description(h: int) -> Seq<char> {
    if 6 <= h <= 8 {
        "Ясное утро"@
    } else if 9 <= h <= 11 {
        "Солнечно"@
    } else if 12 <= h <= 14 {
        "Переменная облачность"@
    } else if 15 <= h <= 17 {
        "Облачно"@
    } else if 18 <= h <= 20 {
        "Закат"@
    } else {
        "Ночь"@
    }
}

/// The fixed demonstration sample for forecast position `h`.
pub open spec fn mock_sample_matches(w: WeatherData, h: int, now: int) -> bool {
    &&& w.temperature == 90 + 5 * h
    &&& w.humidity == 600 + (20 * h) % 400
    &&& w.wind_speed == 50 + (3 * h) % 150
    &&& w.cloud_cover == (if 6 <= h <= 18 {
        600int
    } else {
        200int
    })
    &&& w.visibility == 100 - h % 50
    &&& w.precipitation_probability == (if 12 < h < 18 {
        300int
    } else {
        50int
    })
    &&& w.description@ == mock_description(h)
    &&& w.timestamp == now + 3600 * h
}

impl WeatherService {
    /// Creates a weather service for a city.
    pub fn new(api_key: String, city: String, demo_mode: bool) -> (r: WeatherService)
        ensures
            r.api_key == api_key,
            r.city == city,
            r.demo_mode == demo_mode,
    {
        WeatherService { api_key, city, demo_mode }
    }

    /// Produces the fixed 24-hour demonstration forecast, hour by hour from
    /// the given instant.
    pub fn get_mock_forecast(&self, now: i64) -> (r: WeatherForecast)
        requires
            0 <= now <= 10_000_000_000,
        ensures
            r.hourly@.len() == 24,
            forall|h: int| 0 <= h < 24 ==> mock_sample_matches(#[trigger] r.hourly@[h], h, now as int),
            forall|h: int| 0 <= h < 24 ==> sample_in_range(#[trigger] r.hourly@[h]),
    {
        let mut hourly: Vec<WeatherData> = Vec::new();
        let mut h: i64 = 0;
        while h < 24
            invariant
                0 <= h <= 24,
                0 <= now <= 10_000_000_000,
                hourly@.len() == h,
                forall|i: int| 0 <= i < h ==> mock_sample_matches(#[trigger] hourly@[i], i, now as int),
                forall|i: int| 0 <= i < h ==> sample_in_range(#[trigger] hourly@[i]),
            decreases 24 - h,
        {
            let description = if 6 <= h && h <= 8 {
                "Ясное утро".to_string()
            } else if 9 <= h && h <= 11 {
                "Солнечно".to_string()
            } else if 12 <= h && h <= 14 {
                "Переменная облачность".to_string()
            } else if 15 <= h && h <= 17 {
                "Облачно".to_string()
            } else if 18 <= h && h <= 20 {
                "Закат".to_string()
            } else {
                "Ночь".to_string()
            };
            let w = WeatherData {
                temperature: 90 + 5 * h,
                humidity: 600 + (20 * h) % 400,
                wind_speed: 50 + (3 * h) % 150,
                cloud_cover: if 6 <= h && h <= 18 {
                    600
                } else {
                    200
                },
                visibility: 100 - h % 50,
                precipitation_probability: if 12 < h && h < 18 {
                    300
                } else {
                    50
                },
                description,
                timestamp: now + 3600 * h,
            };
            hourly.push(w);
            h = h + 1;
        }
        WeatherForecast { hourly }
    }

    /// Derives a 24-hour forecast from a single current-conditions report by
    /// applying the fixed daily cycles: temperature, humidity, wind and
    /// cloud cover swing with the hour of day, visibility is carried over,
    /// and the precipitation probability is 20% under heavy cloud and 5%
    /// otherwise.
    pub fn forecast_from_current(
        &self,
        current: &CurrentConditions,
        start_hour: u32,
        now: i64,
    ) -> (r: WeatherForecast)
        requires
            current_in_range(*current),
            start_hour < 24,
            0 <= now <= 10_000_000_000,
        ensures
            r.hourly@.len() == 24,
            forall|h: int|
                0 <= h < 24 ==> derived_sample_matches(
                    #[trigger] r.hourly@[h],
                    *current,
                    h,
                    start_hour as int,
                    now as int,
                ),
            forall|h: int| 0 <= h < 24 ==> sample_in_range(#[trigger] r.hourly@[h]),
    {
        let description: String = match &current.description {
            Option::Some(s) => s.clone(),
            Option::None => "Неизвестно".to_string(),
        };
        let precipitation_probability: i64 = if current.cloud_cover > 700 {
            200
        } else {
            50
        };
        let mut hourly: Vec<WeatherData> = Vec::new();
        let mut h: i64 = 0;
        while h < 24
            invariant
                0 <= h <= 24,
                0 <= now <= 10_000_000_000,
                start_hour < 24,
                current_in_range(*current),
                hourly@.len() == h,
                description@ == (match current.description {
                    Option::Some(s) => s@,
                    Option::None => "Неизвестно"@,
                }),
                precipitation_probability == (if current.cloud_cover > 700 {
                    200int
                } else {
                    50int
                }),
                forall|i: int|
                    0 <= i < h ==> derived_sample_matches(
                        #[trigger] hourly@[i],
                        *current,
                        i,
                        start_hour as int,
                        now as int,
                    ),
                forall|i: int| 0 <= i < h ==> sample_in_range(#[trigger] hourly@[i]),
            decreases 24 - h,
        {
            let hd = (start_hour as i64 + h) % 24;
            let temp_raw = current.temperature + (if 6 <= hd && hd <= 8 {
                -20
            } else if 9 <= hd && hd <= 11 {
                -10
            } else if 12 <= hd && hd <= 16 {
                0
            } else if 17 <= hd && hd <= 19 {
                -10
            } else if 20 <= hd && hd <= 22 {
                -20
            } else {
                -30
            });
            let temperature = if temp_raw < -200 {
                -200
            } else if temp_raw > 500 {
                500
            } else {
                temp_raw
            };
            let hum_raw = current.humidity + (if 6 <= hd && hd <= 8 {
                -50
            } else if 12 <= hd && hd <= 16 {
                50
            } else if 20 <= hd && hd <= 22 {
                -30
            } else {
                0
            });
            let humidity = if hum_raw < 0 {
                0
            } else if hum_raw > 1000 {
                1000
            } else {
                hum_raw
            };
            let wind_raw = current.wind_speed + (if 12 <= hd && hd <= 16 {
                10
            } else {
                0
            });
            let wind_speed = if wind_raw >= 0 {
                wind_raw
            } else {
                0
            };
            let cloud_raw = current.cloud_cover + (if 6 <= hd && hd <= 8 {
                -100
            } else if 12 <= hd && hd <= 16 {
                50
            } else {
                0
            });
            let cloud_cover = if cloud_raw < 0 {
                0
            } else if cloud_raw > 1000 {
                1000
            } else {
                cloud_raw
            };
            let w = WeatherData {
                temperature,
                humidity,
                wind_speed,
                cloud_cover,
                visibility: current.visibility,
                precipitation_probability,
                description: description.clone(),
                timestamp: now + 3600 * h,
            };
            hourly.push(w);
            h = h + 1;
        }
        WeatherForecast { hourly }
    }
}


/// Hourly scores are non-negative and at most 12 points, so the sum over
/// `n` hours lies between 0 and `120 * n`.
pub proof fn lemma_overall_score_bounds(ws: Seq<WeatherData>, n: int)
    ensures
        0 <= score_sum(ws, n),
        n >= 0 ==> score_sum(ws, n) <= 120 * n,
    decreases (if n >= 0 { n } else { 0 }),
{
    if n > 0 {
        lemma_overall_score_bounds(ws, n - 1);
    }
}

} // verus!



