//! Personalised photography tips chosen from the weather score, the
//! golden-hour state and the aurora probability.  Every tip list is pinned
//! exactly: which entries appear, and in which order, follows from the
//! three inputs alone.

use vstd::prelude::*;

verus! {

/// Tip lists for the current conditions.
#[derive(Debug)]
pub struct PhotographyTips {
    pub equipment_recommendations: Vec<String>,
    pub shooting_tips: Vec<String>,
    pub location_suggestions: Vec<String>,
    pub technical_settings: Vec<String>,
}

/// Generates the personalised and the general photography tips.
pub struct PhotographyTipsService;

/// The weather score (hundredths of a point) calls for protective gear.
pub open spec fn bad_weather(score_centi: int) -> bool {
    score_centi < 500
}

/// The weather score is excellent.
pub open spec fn excellent_weather(score_centi: int) -> bool {
    score_centi >= 700
}

/// The aurora probability (thousandths) is high enough for aurora tips.
pub open spec fn aurora_likely(aurora_milli: int) -> bool {
    aurora_milli > 500
}

/// The equipment recommendations, in order: protection under a poor score,
/// aurora gear under a likely aurora, filters during the golden hour.
pub open spec fn equipment_tips(score_centi: int, golden: bool, aurora_milli: int) -> Seq<
    Seq<char>,
> {
    (if bad_weather(score_centi) {
        seq![
            "Возьмите защиту от дождя для камеры"@,
            "Используйте штатив для стабилизации"@,
        ]
    } else {
        Seq::<Seq<char>>::empty()
    }) + (if aurora_likely(aurora_milli) {
        seq![
            "Широкоугольный объектив для северных сияний"@,
            "Удаленный спуск затвора"@,
            "Теплая одежда - съемка может занять время"@,
        ]
    } else {
        Seq::<Seq<char>>::empty()
    }) + (if golden {
        seq![
            "Градиентные фильтры для баланса экспозиции"@,
            "Поляризационный фильтр"@,
        ]
    } else {
        Seq::<Seq<char>>::empty()
    })
}

/// The shooting tips, in order: golden-hour craft, aurora technique,
/// encouragement under an excellent score.
pub open spec fn shooting_tips_spec(score_centi: int, golden: bool, aurora_milli: int) -> Seq<
    Seq<char>,
> {
    (if golden {
        seq![
            "Используйте теплые тона для создания атмосферы"@,
            "Экспериментируйте с силуэтами"@,
            "Ищите отражающие поверхности (вода, стекло)"@,
        ]
    } else {
        Seq::<Seq<char>>::empty()
    }) + (if aurora_likely(aurora_milli) {
        seq![
            "Используйте длинные выдержки (15-30 секунд)"@,
            "Фокусируйтесь на бесконечность"@,
            "Снимайте в RAW формате"@,
        ]
    } else {
        Seq::<Seq<char>>::empty()
    }) + (if excellent_weather(score_centi) {
        seq![
            "Отличные условия - экспериментируйте с композицией"@,
            "Попробуйте разные ракурсы"@,
        ]
    } else {
        Seq::<Seq<char>>::empty()
    })
}

/// The location suggestions, in order: dark aurora sites, golden-hour
/// spots.
pub open spec fn location_tips(golden: bool, aurora_milli: int) -> Seq<Seq<char>> {
    (if aurora_likely(aurora_milli) {
        seq![
            "Отправляйтесь за город, подальше от светового загрязнения"@,
            "Ищите открытые пространства с хорошим обзором севера"@,
        ]
    } else {
        Seq::<Seq<char>>::empty()
    }) + (if golden {
        seq![
            "Парки и природные зоны"@,
            "Городские набережные"@,
            "Смотровые площадки"@,
        ]
    } else {
        Seq::<Seq<char>>::empty()
    })
}

/// The technical settings, in order: golden-hour exposure, aurora
/// exposure.
pub open spec fn technical_tips(golden: bool, aurora_milli: int) -> Seq<Seq<char>> {
    (if golden {
        seq![
            "ISO: 100-400"@,
            "Диафрагма: f/8-f/16 для пейзажей"@,
            "Выдержка: 1/60 - 1/250 секунды"@,
        ]
    } else {
        Seq::<Seq<char>>::empty()
    }) + (if aurora_likely(aurora_milli) {
        seq![
            "ISO: 800-3200"@,
            "Диафрагма: f/2.8-f/4"@,
            "Выдержка: 15-30 секунд"@,
            "Баланс белого: 3500-4500K"@,
        ]
    } else {
        Seq::<Seq<char>>::empty()
    })
}

/// The five general recommendations, in order.
pub open spec fn general_tips() -> Seq<Seq<char>> {
    seq![
        "Всегда проверяйте прогноз погоды перед съемкой"@,
        "Планируйте локации заранее"@,
        "Берите запасные батареи и карты памяти"@,
        "Изучите правила съемки в выбранных местах"@,
        "Не забудьте о безопасности - особенно при съемке в дикой природе"@,
    ]
}

impl PhotographyTipsService {
    /// Creates the tips service.
    pub fn new() -> (r: PhotographyTipsService) {
        PhotographyTipsService
    }

    /// Chooses the personalised tips for the given weather score
    /// (hundredths of a point), golden-hour state and aurora probability
    /// (thousandths).
    pub fn get_tips_for_weather(
        &self,
        weather_score: i64,
        is_golden_hour: bool,
        aurora_probability: i64,
    ) -> (r: PhotographyTips)
        ensures
            r.equipment_recommendations.deep_view() == equipment_tips(
                weather_score as int,
                is_golden_hour,
                aurora_probability as int,
            ),
            r.shooting_tips.deep_view() == shooting_tips_spec(
                weather_score as int,
                is_golden_hour,
                aurora_probability as int,
            ),
            r.location_suggestions.deep_view() == location_tips(
                is_golden_hour,
                aurora_probability as int,
            ),
            r.technical_settings.deep_view() == technical_tips(
                is_golden_hour,
                aurora_probability as int,
            ),
    {
        let mut equipment_recommendations: Vec<String> = Vec::new();
        let mut shooting_tips: Vec<String> = Vec::new();
        let mut location_suggestions: Vec<String> = Vec::new();
        let mut technical_settings: Vec<String> = Vec::new();
        if weather_score < 500 {
            equipment_recommendations.push("Возьмите защиту от дождя для камеры".to_string());
            equipment_recommendations.push("Используйте штатив для стабилизации".to_string());
        }
        if aurora_probability > 500 {
            equipment_recommendations.push(
                "Широкоугольный объектив для северных сияний".to_string(),
            );
            equipment_recommendations.push("Удаленный спуск затвора".to_string());
            equipment_recommendations.push(
                "Теплая одежда - съемка может занять время".to_string(),
            );
        }
        if is_golden_hour {
            equipment_recommendations.push(
                "Градиентные фильтры для баланса экспозиции".to_string(),
            );
            equipment_recommendations.push("Поляризационный фильтр".to_string());
        }
        if is_golden_hour {
            shooting_tips.push("Используйте теплые тона для создания атмосферы".to_string());
            shooting_tips.push("Экспериментируйте с силуэтами".to_string());
            shooting_tips.push("Ищите отражающие поверхности (вода, стекло)".to_string());
        }
        if aurora_probability > 500 {
            shooting_tips.push("Используйте длинные выдержки (15-30 секунд)".to_string());
            shooting_tips.push("Фокусируйтесь на бесконечность".to_string());
            shooting_tips.push("Снимайте в RAW формате".to_string());
        }
        if weather_score >= 700 {
            shooting_tips.push(
                "Отличные условия - экспериментируйте с композицией".to_string(),
            );
            shooting_tips.push("Попробуйте разные ракурсы".to_string());
        }
        if aurora_probability > 500 {
            location_suggestions.push(
                "Отправляйтесь за город, подальше от светового загрязнения".to_string(),
            );
            location_suggestions.push(
                "Ищите открытые пространства с хорошим обзором севера".to_string(),
            );
        }
        if is_golden_hour {
            location_suggestions.push("Парки и природные зоны".to_string());
            location_suggestions.push("Городские набережные".to_string());
            location_suggestions.push("Смотровые площадки".to_string());
        }
        if is_golden_hour {
            technical_settings.push("ISO: 100-400".to_string());
            technical_settings.push("Диафрагма: f/8-f/16 для пейзажей".to_string());
            technical_settings.push("Выдержка: 1/60 - 1/250 секунды".to_string());
        }
        if aurora_probability > 500 {
            technical_settings.push("ISO: 800-3200".to_string());
            technical_settings.push("Диафрагма: f/2.8-f/4".to_string());
            technical_settings.push("Выдержка: 15-30 секунд".to_string());
            technical_settings.push("Баланс белого: 3500-4500K".to_string());
        }
        proof {
            assert(equipment_recommendations.deep_view() =~= equipment_tips(
                weather_score as int,
                is_golden_hour,
                aurora_probability as int,
            ));
            assert(shooting_tips.deep_view() =~= shooting_tips_spec(
                weather_score as int,
                is_golden_hour,
                aurora_probability as int,
            ));
            assert(location_suggestions.deep_view() =~= location_tips(
                is_golden_hour,
                aurora_probability as int,
            ));
            assert(technical_settings.deep_view() =~= technical_tips(
                is_golden_hour,
                aurora_probability as int,
            ));
        }
        PhotographyTips {
            equipment_recommendations,
            shooting_tips,
            location_suggestions,
            technical_settings,
        }
    }

    /// The five general recommendations that apply in any conditions.
    pub fn get_general_recommendations(&self) -> (r: Vec<String>)
        ensures
            r.deep_view() == general_tips(),
    {
        let mut r: Vec<String> = Vec::new();
        r.push("Всегда проверяйте прогноз погоды перед съемкой".to_string());
        r.push("Планируйте локации заранее".to_string());
        r.push("Берите запасные батареи и карты памяти".to_string());
        r.push("Изучите правила съемки в выбранных местах".to_string());
        r.push(
            "Не забудьте о безопасности - особенно при съемке в дикой природе".to_string(),
        );
        proof {
            assert(r.deep_view() =~= general_tips());
        }
        r
    }
}

impl Default for PhotographyTipsService {
    /// The default service is the plain service.
    fn default() -> (r: PhotographyTipsService) {
        PhotographyTipsService::new()
    }
}

} // verus!
