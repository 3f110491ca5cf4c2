//! The composite recommendation engine: merges the weather score, the
//! aurora probability and the golden-hour state into one weighted
//! recommendation tier, and assembles the dashboard summary with its
//! highlights, warnings and merged best shooting hours.
//!
//! The composite score is
//! `weather * 0.4 + aurora_probability * 10 * 0.3 + (golden_hour ? 3 : 0)`
//! points; carried in thousandths of a point it is exactly
//! `weather_centi * 4 + aurora_milli * 3 + 3000`.

use vstd::prelude::*;
use crate::golden_hour::{
    in_golden_hour, solar_event_unix, date_valid, microdeg_text, AstroError, CalendarDate,
    GoldenHourInfo, GoldenHourService,
};
use crate::hours::{hours_in_day, hours_sorted_unique, merge_best_hours};
use crate::weather::{
    analyze_weather_for_photography, best_hours_spec, sample_in_range, score_sum, WeatherAnalysis,
    WeatherForecast,
};

verus! {

/// The four recommendation tiers, carrying their lower score boundary.
#[derive(Clone, Copy, Debug, PartialEq, Eq, Structural)]
pub enum RecommendationTier {
    Excellent,
    Good,
    Moderate,
    NotRecommended,
}

/// The dashboard summary handed to the presentation layer.
#[derive(Debug, Clone)]
pub struct DashboardSummary {
    pub overall_recommendation: RecommendationTier,
    /// Weather score, hundredths of a point.
    pub weather_score: i64,
    /// Aurora visibility probability, thousandths.
    pub aurora_probability: i64,
    pub is_golden_hour_today: bool,
    /// Sorted, deduplicated union of the weather best hours and the fixed
    /// nocturnal aurora viewing block.
    pub best_shooting_hours: Vec<usize>,
    pub key_highlights: Vec<String>,
    pub warnings: Vec<String>,
}

/// The photographer's dashboard for one location.
pub struct PhotographyDashboard {
    pub city: String,
    pub golden_hour_service: GoldenHourService,
}

/// The composite score in thousandths of a point.
pub open spec fn composite_milli(
    weather_centi: int,
    aurora_milli: int,
    is_golden_hour: bool,
) -> int {
    weather_centi * 4 + aurora_milli * 3 + (if is_golden_hour {
        3000int
    } else {
        0int
    })
}

/// The tier a composite score falls in: at least 8 points, 6, 4, or below.
pub open spec fn tier_spec(composite: int) -> RecommendationTier {
    if composite >= 8000 {
        RecommendationTier::Excellent
    } else if composite >= 6000 {
        RecommendationTier::Good
    } else if composite >= 4000 {
        RecommendationTier::Moderate
    } else {
        RecommendationTier::NotRecommended
    }
}

/// An hour belongs to the fixed nocturnal aurora viewing block.
pub open spec fn aurora_viewing_hour(h: usize) -> bool {
    h == 22 || h == 23 || h <= 5
}

/// The highlights the weather score earns: one for at least 8 points, a
/// lesser one for at least 6, none below.
pub open spec fn weather_highlights(score_centi: int) -> Seq<Seq<char>> {
    if score_centi >= 800 {
        seq!["Отличные погодные условия для съемки!"@]
    } else if score_centi >= 600 {
        seq!["Хорошие погодные условия"@]
    } else {
        Seq::<Seq<char>>::empty()
    }
}

/// The warnings the weather score earns: one below 6 points.
pub open spec fn weather_warnings(score_centi: int) -> Seq<Seq<char>> {
    if score_centi >= 600 {
        Seq::<Seq<char>>::empty()
    } else {
        seq!["Погодные условия не идеальны для съемки"@]
    }
}

/// The golden-hour highlight: the day note when the golden-hour flag is
/// set, else a now-note when the instant falls in one of the windows.
pub open spec fn golden_highlights(
    info: GoldenHourInfo,
    is_golden_hour_today: bool,
    now: int,
) -> Seq<Seq<char>> {
    if is_golden_hour_today {
        seq!["Сегодня золотой час - идеальное время для съемки!"@]
    } else if info.golden_hour_morning_start <= now <= info.golden_hour_morning_end {
        seq!["Сейчас золотой час утром!"@]
    } else if info.golden_hour_evening_start <= now <= info.golden_hour_evening_end {
        seq!["Сейчас золотой час вечером!"@]
    } else {
        Seq::<Seq<char>>::empty()
    }
}

/// Whether the instant falls in a golden-hour window of the date at the
/// coordinate — false when the sun does not both rise and set there.
pub open spec fn golden_now_spec(
    lat_microdeg: int,
    lon_microdeg: int,
    date: CalendarDate,
    now: int,
) -> bool {
    let sr = solar_event_unix(
        microdeg_text(lat_microdeg),
        microdeg_text(lon_microdeg),
        date.year as int,
        date.month as int,
        date.day as int,
        true,
    );
    let ss = solar_event_unix(
        microdeg_text(lat_microdeg),
        microdeg_text(lon_microdeg),
        date.year as int,
        date.month as int,
        date.day as int,
        false,
    );
    match (sr, ss) {
        (Option::Some(a), Option::Some(b)) => (a - 3600 <= now <= a + 3600) || (b - 3600 <= now
            <= b + 3600),
        _ => false,
    }
}

impl RecommendationTier {
    /// The lower boundary of the tier, thousandths of a point.
    pub fn boundary_milli(&self) -> (r: i64)
        ensures
            r == (match *self {
                RecommendationTier::Excellent => 8000int,
                RecommendationTier::Good => 6000int,
                RecommendationTier::Moderate => 4000int,
                RecommendationTier::NotRecommended => 0int,
            }),
    {
        match self {
            RecommendationTier::Excellent => 8000,
            RecommendationTier::Good => 6000,
            RecommendationTier::Moderate => 4000,
            RecommendationTier::NotRecommended => 0,
        }
    }

    /// The display text of the tier.
    pub fn text(&self) -> (r: String)
        ensures
            r@ == (match *self {
                RecommendationTier::Excellent => (
                "Отличный день для фотографии! Идеальные условия и золотой час."@),
                RecommendationTier::Good => (
                "Хороший день для съемки. Погодные условия благоприятны."@),
                RecommendationTier::Moderate => (
                "Умеренные условия для съемки. Возможны некоторые ограничения."@),
                RecommendationTier::NotRecommended => (
                "Сложные условия для съемки. Рекомендуется перенести съемку."@),
            }),
    {
        match self {
            RecommendationTier::Excellent => {
                "Отличный день для фотографии! Идеальные условия и золотой час.".to_string()
            },
            RecommendationTier::Good => {
                "Хороший день для съемки. Погодные условия благоприятны.".to_string()
            },
            RecommendationTier::Moderate => {
                "Умеренные условия для съемки. Возможны некоторые ограничения.".to_string()
            },
            RecommendationTier::NotRecommended => {
                "Сложные условия для съемки. Рекомендуется перенести съемку.".to_string()
            },
        }
    }
}

impl PhotographyDashboard {
    /// Creates a dashboard for a city at a coordinate in microdegrees.
    pub fn new(city: String, latitude: i64, longitude: i64) -> (r: PhotographyDashboard)
        ensures
            r.city == city,
            r.golden_hour_service.latitude == latitude,
            r.golden_hour_service.longitude == longitude,
    {
        PhotographyDashboard { city, golden_hour_service: GoldenHourService::new(latitude, longitude) }
    }

    /// True exactly when the instant falls in either golden-hour window of
    /// the day.
    pub fn is_golden_hour_today(&self, golden_hour_info: &GoldenHourInfo, current_time: i64) -> (r:
        bool)
        ensures
            r == in_golden_hour(*golden_hour_info, current_time as int),
    {
        (current_time >= golden_hour_info.golden_hour_morning_start && current_time
            <= golden_hour_info.golden_hour_morning_end) || (current_time
            >= golden_hour_info.golden_hour_evening_start && current_time
            <= golden_hour_info.golden_hour_evening_end)
    }

    /// The composite recommendation: the weighted sum of the weather score
    /// (weight 0.4), the aurora probability scaled to ten points (weight
    /// 0.3) and the golden-hour contribution (3 points when active),
    /// returned in thousandths of a point together with its tier.
    pub fn determine_overall_recommendation(
        &self,
        weather_score: i64,
        aurora_probability: i64,
        is_golden_hour: bool,
    ) -> (r: (i64, RecommendationTier))
        requires
            0 <= weather_score <= 1200,
            0 <= aurora_probability <= 1000,
        ensures
            r.0 == composite_milli(
                weather_score as int,
                aurora_probability as int,
                is_golden_hour,
            ),
            r.1 == tier_spec(r.0 as int),
    {
        let composite = weather_score * 4 + aurora_probability * 3 + (if is_golden_hour {
            3000
        } else {
            0
        });
        let tier = if composite >= 8000 {
            RecommendationTier::Excellent
        } else if composite >= 6000 {
            RecommendationTier::Good
        } else if composite >= 4000 {
            RecommendationTier::Moderate
        } else {
            RecommendationTier::NotRecommended
        };
        (composite, tier)
    }

    /// Assembles the dashboard summary: the weather highlight or warning,
    /// the golden-hour highlight, the composite recommendation tier, and
    /// the sorted deduplicated union of the weather best hours with the
    /// fixed nocturnal aurora viewing block.
    pub fn create_summary(
        &self,
        weather_analysis: &WeatherAnalysis,
        golden_hour_info: &GoldenHourInfo,
        is_golden_hour_today: bool,
        current_time: i64,
        aurora_probability: i64,
    ) -> (r: DashboardSummary)
        requires
            0 <= weather_analysis.overall_score <= 1200,
            0 <= aurora_probability <= 1000,
            hours_in_day(weather_analysis.best_hours@),
        ensures
            r.weather_score == weather_analysis.overall_score,
            r.aurora_probability == aurora_probability,
            r.is_golden_hour_today == is_golden_hour_today,
            r.overall_recommendation == tier_spec(
                composite_milli(
                    weather_analysis.overall_score as int,
                    aurora_probability as int,
                    is_golden_hour_today,
                ),
            ),
            hours_sorted_unique(r.best_shooting_hours@),
            hours_in_day(r.best_shooting_hours@),
            forall|h: usize|
                r.best_shooting_hours@.contains(h) <==> (weather_analysis.best_hours@.contains(h)
                    || aurora_viewing_hour(h)),
            r.key_highlights.deep_view() == weather_highlights(
                weather_analysis.overall_score as int,
            ) + golden_highlights(*golden_hour_info, is_golden_hour_today, current_time as int),
            r.warnings.deep_view() == weather_warnings(weather_analysis.overall_score as int),
    {
        let mut key_highlights: Vec<String> = Vec::new();
        let mut warnings: Vec<String> = Vec::new();
        if weather_analysis.overall_score >= 800 {
            key_highlights.push("Отличные погодные условия для съемки!".to_string());
        } else if weather_analysis.overall_score >= 600 {
            key_highlights.push("Хорошие погодные условия".to_string());
        } else {
            warnings.push("Погодные условия не идеальны для съемки".to_string());
        }
        let ghost wh = key_highlights.deep_view();
        if is_golden_hour_today {
            key_highlights.push(
                "Сегодня золотой час - идеальное время для съемки!".to_string(),
            );
        } else if current_time >= golden_hour_info.golden_hour_morning_start && current_time
            <= golden_hour_info.golden_hour_morning_end {
            key_highlights.push("Сейчас золотой час утром!".to_string());
        } else if current_time >= golden_hour_info.golden_hour_evening_start && current_time
            <= golden_hour_info.golden_hour_evening_end {
            key_highlights.push("Сейчас золотой час вечером!".to_string());
        }
        let (_, overall_recommendation) = self.determine_overall_recommendation(
            weather_analysis.overall_score,
            aurora_probability,
            is_golden_hour_today,
        );
        let mut night_block: Vec<usize> = Vec::new();
        night_block.push(22);
        night_block.push(23);
        night_block.push(0);
        night_block.push(1);
        night_block.push(2);
        night_block.push(3);
        night_block.push(4);
        night_block.push(5);
        proof {
            assert(forall|h: usize| night_block@.contains(h) ==> aurora_viewing_hour(h)) by {
                assert forall|h: usize| night_block@.contains(h) implies aurora_viewing_hour(
                    h,
                ) by {
                    let w = choose|w: int|
                        0 <= w < night_block@.len() && #[trigger] night_block@[w] == h;
                }
            }
            assert(forall|h: usize| aurora_viewing_hour(h) ==> night_block@.contains(h)) by {
                assert forall|h: usize| aurora_viewing_hour(h) implies night_block@.contains(
                    h,
                ) by {
                    if h == 22 {
                        assert(night_block@[0] == 22usize);
                    } else if h == 23 {
                        assert(night_block@[1] == 23usize);
                    } else if h == 0 {
                        assert(night_block@[2] == 0usize);
                    } else if h == 1 {
                        assert(night_block@[3] == 1usize);
                    } else if h == 2 {
                        assert(night_block@[4] == 2usize);
                    } else if h == 3 {
                        assert(night_block@[5] == 3usize);
                    } else if h == 4 {
                        assert(night_block@[6] == 4usize);
                    } else {
                        assert(night_block@[7] == 5usize);
                    }
                }
            }
            assert(hours_in_day(night_block@)) by {
                assert forall|i: int| 0 <= i < night_block@.len() implies night_block@[i]
                    <= 23 by {
                    assert(night_block@.contains(night_block@[i]));
                }
            }
        }
        let best_shooting_hours = merge_best_hours(&weather_analysis.best_hours, &night_block);
        proof {
            assert(key_highlights.deep_view() =~= weather_highlights(
                weather_analysis.overall_score as int,
            ) + golden_highlights(*golden_hour_info, is_golden_hour_today, current_time as int));
            assert(warnings.deep_view() =~= weather_warnings(
                weather_analysis.overall_score as int,
            ));
        }
        DashboardSummary {
            overall_recommendation,
            weather_score: weather_analysis.overall_score,
            aurora_probability,
            is_golden_hour_today,
            best_shooting_hours,
            key_highlights,
            warnings,
        }
    }

    /// Generates the dashboard summary for a date and instant: scores the
    /// forecast, computes the day's lighting windows, and joins everything
    /// through the composite engine.  An off-globe coordinate is an error;
    /// on a polar day or night the summary simply carries no golden hour,
    /// as the day has none.
    pub fn generate_dashboard(
        &self,
        weather_forecast: &WeatherForecast,
        aurora_probability: i64,
        date: CalendarDate,
        now: i64,
    ) -> (r: Result<DashboardSummary, AstroError>)
        requires
            date_valid(date),
            0 <= aurora_probability <= 1000,
            weather_forecast.hourly@.len() <= 24,
            forall|i: int|
                0 <= i < weather_forecast.hourly@.len() ==> sample_in_range(
                    #[trigger] weather_forecast.hourly@[i],
                ),
        ensures
            r is Err <==> !crate::coordinates_valid(
                self.golden_hour_service.latitude as int,
                self.golden_hour_service.longitude as int,
            ),
            r matches Err(e) ==> e == AstroError::InvalidCoordinate,
            r matches Ok(s) ==> {
                let score = score_sum(
                    weather_forecast.hourly@,
                    weather_forecast.hourly@.len() as int,
                ) * 5 / 12;
                &&& s.weather_score == score
                &&& s.aurora_probability == aurora_probability
                &&& s.is_golden_hour_today == golden_now_spec(
                    self.golden_hour_service.latitude as int,
                    self.golden_hour_service.longitude as int,
                    date,
                    now as int,
                )
                &&& s.overall_recommendation == tier_spec(
                    composite_milli(score, aurora_probability as int, s.is_golden_hour_today),
                )
                &&& hours_sorted_unique(s.best_shooting_hours@)
                &&& forall|h: usize|
                    s.best_shooting_hours@.contains(h) <==> (best_hours_spec(
                        weather_forecast.hourly@,
                        weather_forecast.hourly@.len() as int,
                    ).contains(h) || aurora_viewing_hour(h))
                &&& s.warnings.deep_view() == weather_warnings(score)
            },
    {
        let weather_analysis = analyze_weather_for_photography(weather_forecast);
        proof {
            crate::weather::lemma_overall_score_bounds(
                weather_forecast.hourly@,
                weather_forecast.hourly@.len() as int,
            );
        }
        match self.golden_hour_service.calculate_golden_hours(date) {
            Result::Err(AstroError::InvalidCoordinate) => Result::Err(
                AstroError::InvalidCoordinate,
            ),
            Result::Err(AstroError::PolarDayOrNight) => {
                let summary = self.create_summary_without_windows(
                    &weather_analysis,
                    aurora_probability,
                );
                proof {
                    assert forall|h: usize| #[trigger] summary.best_shooting_hours@.contains(h)
                        <==> (best_hours_spec(
                        weather_forecast.hourly@,
                        weather_forecast.hourly@.len() as int,
                    ).contains(h) || aurora_viewing_hour(h)) by {
                        // Mention the membership terms so the summary's
                        // postcondition instantiates at this hour.
                        let b1 = weather_analysis.best_hours@.contains(h);
                        let b2 = aurora_viewing_hour(h);
                        let b3 = summary.best_shooting_hours@.contains(h);
                    }
                }
                Result::Ok(summary)
            },
            Result::Ok(info) => {
                let is_golden = self.is_golden_hour_today(&info, now);
                let summary = self.create_summary(
                    &weather_analysis,
                    &info,
                    is_golden,
                    now,
                    aurora_probability,
                );
                proof {
                    assert forall|h: usize| #[trigger] summary.best_shooting_hours@.contains(h)
                        <==> (best_hours_spec(
                        weather_forecast.hourly@,
                        weather_forecast.hourly@.len() as int,
                    ).contains(h) || aurora_viewing_hour(h)) by {
                        // Mention the membership terms so the summary's
                        // postcondition instantiates at this hour.
                        let b1 = weather_analysis.best_hours@.contains(h);
                        let b2 = aurora_viewing_hour(h);
                        let b3 = summary.best_shooting_hours@.contains(h);
                    }
                }
                Result::Ok(summary)
            },
        }
    }

    /// Assembles the summary for a day without sunrise and sunset: there
    /// is no golden hour, so only the weather highlight or warning and the
    /// composite tier without the golden-hour contribution appear.
    fn create_summary_without_windows(
        &self,
        weather_analysis: &WeatherAnalysis,
        aurora_probability: i64,
    ) -> (r: DashboardSummary)
        requires
            0 <= weather_analysis.overall_score <= 1200,
            0 <= aurora_probability <= 1000,
            hours_in_day(weather_analysis.best_hours@),
        ensures
            r.weather_score == weather_analysis.overall_score,
            r.aurora_probability == aurora_probability,
            r.is_golden_hour_today == false,
            r.overall_recommendation == tier_spec(
                composite_milli(
                    weather_analysis.overall_score as int,
                    aurora_probability as int,
                    false,
                ),
            ),
            hours_sorted_unique(r.best_shooting_hours@),
            hours_in_day(r.best_shooting_hours@),
            forall|h: usize|
                r.best_shooting_hours@.contains(h) <==> (weather_analysis.best_hours@.contains(h)
                    || aurora_viewing_hour(h)),
            r.key_highlights.deep_view() == weather_highlights(
                weather_analysis.overall_score as int,
            ),
            r.warnings.deep_view() == weather_warnings(weather_analysis.overall_score as int),
    {
        let no_windows = GoldenHourInfo {
            sunrise: 0,
            sunset: 0,
            golden_hour_morning_start: 0,
            golden_hour_morning_end: -1,
            golden_hour_evening_start: 0,
            golden_hour_evening_end: -1,
            blue_hour_morning_start: 0,
            blue_hour_morning_end: -1,
            blue_hour_evening_start: 0,
            blue_hour_evening_end: -1,
        };
        let summary = self.create_summary(
            weather_analysis,
            &no_windows,
            false,
            0,
            aurora_probability,
        );
        proof {
            assert(golden_highlights(no_windows, false, 0) =~= Seq::<Seq<char>>::empty());
            assert(summary.key_highlights.deep_view() =~= weather_highlights(
                weather_analysis.overall_score as int,
            ));
            assert forall|h: usize| #[trigger] summary.best_shooting_hours@.contains(h) <==> (
            weather_analysis.best_hours@.contains(h) || aurora_viewing_hour(h)) by {
                // Mention the membership terms so the summary's
                // postcondition instantiates at this hour.
                let b1 = weather_analysis.best_hours@.contains(h);
                let b2 = aurora_viewing_hour(h);
            }
        }
        summary
    }
}

} // verus!
