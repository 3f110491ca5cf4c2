use my_dashboard::photography_tips::PhotographyTipsService;

// The weather score is in hundredths of a point (800 is 8.0) and the
// aurora probability in thousandths (700 is 0.7).

#[test]
fn test_get_tips_for_weather_good_conditions() {
    let service = PhotographyTipsService::new();
    let tips = service.get_tips_for_weather(800, true, 700);
    assert!(!tips.equipment_recommendations.is_empty());
    assert!(!tips.shooting_tips.is_empty());
    assert!(!tips.location_suggestions.is_empty());
    assert!(!tips.technical_settings.is_empty());
}

#[test]
fn test_get_tips_for_weather_bad_conditions() {
    let service = PhotographyTipsService::new();
    let tips = service.get_tips_for_weather(300, false, 100);
    let has_protection_tips = tips
        .equipment_recommendations
        .iter()
        .any(|tip| tip.contains("защиту") || tip.contains("штатив"));
    assert!(has_protection_tips);
    let has_aurora_tips = tips
        .equipment_recommendations
        .iter()
        .any(|tip| tip.contains("широкоугольный"));
    assert!(!has_aurora_tips);
}

#[test]
fn test_get_tips_for_weather_golden_hour_only() {
    let service = PhotographyTipsService::new();
    let tips = service.get_tips_for_weather(600, true, 100);

    let has_golden_hour_equipment = tips
        .equipment_recommendations
        .iter()
        .any(|tip| tip.contains("фильтр"));
    assert!(has_golden_hour_equipment);

    let has_golden_hour_shooting = tips
        .shooting_tips
        .iter()
        .any(|tip| tip.contains("теплые тона"));
    assert!(has_golden_hour_shooting);

    let has_golden_hour_locations = tips
        .location_suggestions
        .iter()
        .any(|tip| tip.contains("парки") || tip.contains("набережные"));
    assert!(has_golden_hour_locations);

    let has_golden_hour_settings = tips
        .technical_settings
        .iter()
        .any(|tip| tip.contains("f/8") || tip.contains("f/16"));
    assert!(has_golden_hour_settings);
}

#[test]
fn test_get_tips_for_weather_aurora_only() {
    let service = PhotographyTipsService::new();
    let tips = service.get_tips_for_weather(600, false, 800);

    let has_aurora_equipment = tips
        .equipment_recommendations
        .iter()
        .any(|tip| tip.contains("Широкоугольный"));
    assert!(has_aurora_equipment);

    let has_aurora_shooting = tips
        .shooting_tips
        .iter()
        .any(|tip| tip.contains("длинные выдержки"));
    assert!(has_aurora_shooting);

    let has_aurora_locations = tips
        .location_suggestions
        .iter()
        .any(|tip| tip.contains("город") || tip.contains("открытые пространства"));
    assert!(has_aurora_locations);

    let has_aurora_settings = tips
        .technical_settings
        .iter()
        .any(|tip| tip.contains("15-30 секунд"));
    assert!(has_aurora_settings);
}

#[test]
fn test_get_tips_for_weather_excellent_conditions() {
    let service = PhotographyTipsService::new();
    let tips = service.get_tips_for_weather(900, false, 100);

    let has_excellent_tips = tips
        .shooting_tips
        .iter()
        .any(|tip| tip.contains("Отличные условия"));
    assert!(has_excellent_tips);

    let has_experiment_tips = tips
        .shooting_tips
        .iter()
        .any(|tip| tip.contains("экспериментируйте"));
    assert!(has_experiment_tips);
}

#[test]
fn test_get_tips_for_weather_all_conditions() {
    let service = PhotographyTipsService::new();
    let tips = service.get_tips_for_weather(800, true, 800);

    assert!(tips.equipment_recommendations.len() >= 4);
    assert!(tips.shooting_tips.len() >= 4);
    assert!(tips.location_suggestions.len() >= 3);
    assert!(tips.technical_settings.len() >= 4);

    let has_golden_hour_tips = tips
        .equipment_recommendations
        .iter()
        .any(|tip| tip.contains("фильтр"));
    let has_aurora_tips = tips
        .equipment_recommendations
        .iter()
        .any(|tip| tip.contains("Широкоугольный"));
    let has_excellent_tips = tips
        .shooting_tips
        .iter()
        .any(|tip| tip.contains("Отличные условия"));

    assert!(has_golden_hour_tips);
    assert!(has_aurora_tips);
    assert!(has_excellent_tips);
}

#[test]
fn test_get_general_recommendations() {
    let service = PhotographyTipsService::new();
    let recommendations = service.get_general_recommendations();

    assert_eq!(recommendations.len(), 5);

    let has_weather_check = recommendations
        .iter()
        .any(|rec| rec.contains("прогноз погоды"));
    let has_planning = recommendations.iter().any(|rec| rec.contains("Планируйте"));
    let has_safety = recommendations
        .iter()
        .any(|rec| rec.contains("безопасности"));

    assert!(has_weather_check);
    assert!(has_planning);
    assert!(has_safety);
}

#[test]
fn test_photography_tips_structure() {
    let service = PhotographyTipsService::new();
    let tips = service.get_tips_for_weather(400, true, 600);

    assert!(!tips.equipment_recommendations.is_empty());
    assert!(!tips.shooting_tips.is_empty());
    assert!(!tips.location_suggestions.is_empty());
    assert!(!tips.technical_settings.is_empty());

    for tip in &tips.equipment_recommendations {
        assert!(!tip.is_empty());
    }
    for tip in &tips.shooting_tips {
        assert!(!tip.is_empty());
    }
    for tip in &tips.location_suggestions {
        assert!(!tip.is_empty());
    }
    for tip in &tips.technical_settings {
        assert!(!tip.is_empty());
    }
}

#[test]
fn photography_tips_test_edge_cases() {
    let service = PhotographyTipsService::new();

    let tips_min = service.get_tips_for_weather(0, false, 0);
    let tips_max = service.get_tips_for_weather(1000, true, 1000);

    let has_protection_min = tips_min
        .equipment_recommendations
        .iter()
        .any(|tip| tip.contains("защиту") || tip.contains("штатив"));
    assert!(has_protection_min);

    assert!(!tips_max.equipment_recommendations.is_empty());
    assert!(!tips_max.shooting_tips.is_empty());
    assert!(!tips_max.location_suggestions.is_empty());
    assert!(!tips_max.technical_settings.is_empty());
}

#[test]
fn test_technical_settings_consistency() {
    let service = PhotographyTipsService::new();
    let tips = service.get_tips_for_weather(700, true, 600);

    for setting in &tips.technical_settings {
        if setting.contains("ISO") {
            assert!(
                setting.contains("100")
                    || setting.contains("400")
                    || setting.contains("800")
                    || setting.contains("3200")
            );
        }
        if setting.contains("f/") {
            assert!(
                setting.contains("f/2.8")
                    || setting.contains("f/4")
                    || setting.contains("f/8")
                    || setting.contains("f/16")
            );
        }
        if setting.contains("секунд") {
            assert!(
                setting.contains("1/60")
                    || setting.contains("1/250")
                    || setting.contains("15-30")
            );
        }
    }
}
