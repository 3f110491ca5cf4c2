use my_dashboard::weather::{
    analyze_astrophotography_conditions, analyze_weather_for_photography, WeatherData,
    WeatherForecast, WeatherService,
};

// Numeric fields are in tenths of their unit: 200 is 20.0 degrees Celsius,
// 300 is a 30.0% cloud cover, and so on.  The overall score is in
// hundredths of a point: 750 is 7.5 points.

fn create_test_weather_data() -> WeatherData {
    WeatherData {
        temperature: 200,
        humidity: 600,
        wind_speed: 50,
        cloud_cover: 300,
        visibility: 100,
        precipitation_probability: 50,
        description: "ясно".to_string(),
        timestamp: 1_700_000_000,
    }
}

fn create_test_forecast() -> WeatherForecast {
    let mut hourly = Vec::new();
    for hour in 0..24i64 {
        hourly.push(WeatherData {
            temperature: 150 + hour * 5 - 60,
            humidity: 600 + (hour * 20) % 400,
            wind_speed: 50 + (hour * 3) % 150,
            cloud_cover: if !(6..=18).contains(&hour) { 200 } else { 600 },
            visibility: 100 - hour % 50,
            precipitation_probability: if hour > 12 && hour < 18 { 300 } else { 50 },
            description: match hour {
                6..=8 => "ясное утро".to_string(),
                9..=11 => "солнечно".to_string(),
                12..=14 => "переменная облачность".to_string(),
                15..=17 => "облачно".to_string(),
                18..=20 => "закат".to_string(),
                _ => "ночь".to_string(),
            },
            timestamp: 1_700_000_000 + 3600 * hour,
        });
    }
    WeatherForecast { hourly }
}

fn create_bad_weather_forecast() -> WeatherForecast {
    let mut hourly = Vec::new();
    for hour in 0..24i64 {
        hourly.push(WeatherData {
            temperature: -50,
            humidity: 900,
            wind_speed: 250,
            cloud_cover: 950,
            visibility: 20,
            precipitation_probability: 800,
            description: "сильный дождь".to_string(),
            timestamp: 1_700_000_000 + 3600 * hour,
        });
    }
    WeatherForecast { hourly }
}

#[test]
fn test_weather_service_new() {
    let service = WeatherService::new("test_key".to_string(), "TestCity".to_string(), false);
    assert_eq!(service.api_key, "test_key");
    assert_eq!(service.city, "TestCity");
}

#[test]
fn test_weather_analysis_calculation() {
    let forecast = create_test_forecast();
    let analysis = analyze_weather_for_photography(&forecast);
    assert!(analysis.overall_score >= 0);
    assert!(analysis.overall_score <= 1000);
    assert!(!analysis.recommendations.is_empty());
    assert!(!analysis.best_hours.is_empty());
}

#[test]
fn test_weather_analysis_bad_conditions() {
    let forecast = create_bad_weather_forecast();
    let analysis = analyze_weather_for_photography(&forecast);
    assert!(analysis.overall_score < 500);
    assert!(!analysis.concerns.is_empty());
}

#[test]
fn test_astrophotography_analysis() {
    let forecast = create_test_forecast();
    let analysis = analyze_astrophotography_conditions(&forecast);
    assert!(!analysis.recommendations.is_empty());
}

#[test]
fn test_astrophotography_analysis_bad_conditions() {
    let forecast = create_bad_weather_forecast();
    let analysis = analyze_astrophotography_conditions(&forecast);
    assert!(!analysis.is_suitable);
    assert!(!analysis.cloud_cover_issues.is_empty());
}

#[test]
fn test_weather_data_validation() {
    let weather_data = create_test_weather_data();
    assert!(weather_data.temperature >= -500 && weather_data.temperature <= 600);
    assert!(weather_data.humidity >= 0 && weather_data.humidity <= 1000);
    assert!(weather_data.wind_speed >= 0);
    assert!(weather_data.cloud_cover >= 0 && weather_data.cloud_cover <= 1000);
    assert!(weather_data.visibility >= 0);
    assert!(
        weather_data.precipitation_probability >= 0
            && weather_data.precipitation_probability <= 1000
    );
}

#[test]
fn test_forecast_structure() {
    let forecast = create_test_forecast();
    assert_eq!(forecast.hourly.len(), 24);
    for (hour, weather) in forecast.hourly.iter().enumerate() {
        assert!(weather.temperature >= -500 && weather.temperature <= 600);
        assert!(weather.humidity >= 0 && weather.humidity <= 1000);
        assert!(weather.wind_speed >= 0);
        assert!(weather.cloud_cover >= 0 && weather.cloud_cover <= 1000);
        assert!(weather.visibility >= 0);
        assert!(
            weather.precipitation_probability >= 0 && weather.precipitation_probability <= 1000
        );
        assert!(!weather.description.is_empty());
        if hour > 0 {
            assert!(weather.timestamp > forecast.hourly[hour - 1].timestamp);
        }
    }
}

#[test]
fn test_weather_analysis_edge_cases() {
    let empty_forecast = WeatherForecast { hourly: Vec::new() };
    let analysis = analyze_weather_for_photography(&empty_forecast);
    assert_eq!(analysis.overall_score, 0);
    assert!(analysis.best_hours.is_empty());
}

#[test]
fn weather_test_golden_hour_detection() {
    let forecast = create_test_forecast();
    let analysis = analyze_weather_for_photography(&forecast);
    let golden_hours: Vec<usize> = vec![6, 7, 8, 18, 19, 20];
    let has_golden_hours = golden_hours
        .iter()
        .any(|&hour| analysis.best_hours.contains(&hour));
    assert!(has_golden_hours || analysis.best_hours.is_empty());
}

#[test]
fn test_weather_data_edge_cases() {
    let min_data = WeatherData {
        temperature: -500,
        humidity: 0,
        wind_speed: 0,
        cloud_cover: 0,
        visibility: 0,
        precipitation_probability: 0,
        description: "".to_string(),
        timestamp: 1_700_000_000,
    };
    let max_data = WeatherData {
        temperature: 600,
        humidity: 1000,
        wind_speed: 1000,
        cloud_cover: 1000,
        visibility: 500,
        precipitation_probability: 1000,
        description: "экстремальные условия".to_string(),
        timestamp: 1_700_000_000,
    };
    assert_eq!(min_data.temperature, -500);
    assert_eq!(max_data.temperature, 600);
    assert_eq!(min_data.humidity, 0);
    assert_eq!(max_data.humidity, 1000);
}

#[test]
fn test_weather_analysis_components() {
    let forecast = create_test_forecast();
    let analysis = analyze_weather_for_photography(&forecast);
    assert!(analysis.overall_score >= 0);
    assert!(analysis.overall_score <= 1000);
    assert!(!analysis.recommendations.is_empty() || !analysis.concerns.is_empty());
    for &hour in &analysis.best_hours {
        assert!((0..=23).contains(&hour));
    }
}

#[test]
fn test_astrophotography_analysis_components() {
    let forecast = create_test_forecast();
    let analysis = analyze_astrophotography_conditions(&forecast);
    assert!(!analysis.recommendations.is_empty());
    for &hour in &analysis.best_hours {
        assert!((0..=23).contains(&hour));
    }
}

#[test]
fn test_weather_service_demo_mode() {
    let service = WeatherService::new("demo_key".to_string(), "TestCity".to_string(), true);
    assert_eq!(service.city, "TestCity");
    assert_eq!(service.api_key, "demo_key");
}

#[test]
fn test_weather_analysis_extreme_conditions() {
    let mut hourly = Vec::new();
    for hour in 0..24i64 {
        hourly.push(WeatherData {
            temperature: if hour < 12 { 500 } else { -300 },
            humidity: if hour % 2 == 0 { 0 } else { 1000 },
            wind_speed: 500,
            cloud_cover: if hour % 3 == 0 { 0 } else { 1000 },
            visibility: if hour % 4 == 0 { 1 } else { 500 },
            precipitation_probability: if hour % 2 == 0 { 0 } else { 1000 },
            description: "экстремальные условия".to_string(),
            timestamp: 1_700_000_000 + 3600 * hour,
        });
    }
    let extreme_forecast = WeatherForecast { hourly };
    let analysis = analyze_weather_for_photography(&extreme_forecast);
    assert!(analysis.overall_score < 500);
    assert!(!analysis.concerns.is_empty());
}

#[test]
fn test_astrophotography_extreme_conditions() {
    let mut hourly = Vec::new();
    for hour in 0..24i64 {
        hourly.push(WeatherData {
            temperature: 200,
            humidity: 800,
            wind_speed: 100,
            cloud_cover: 1000,
            visibility: 10,
            precipitation_probability: 900,
            description: "полная облачность".to_string(),
            timestamp: 1_700_000_000 + 3600 * hour,
        });
    }
    let extreme_forecast = WeatherForecast { hourly };
    let analysis = analyze_astrophotography_conditions(&extreme_forecast);
    assert!(!analysis.is_suitable);
    assert!(!analysis.cloud_cover_issues.is_empty());
}

#[test]
fn test_weather_analysis_perfect_conditions() {
    let mut hourly = Vec::new();
    for hour in 0..24i64 {
        hourly.push(WeatherData {
            temperature: 200,
            humidity: 500,
            wind_speed: 20,
            cloud_cover: 100,
            visibility: 200,
            precipitation_probability: 0,
            description: "идеальные условия".to_string(),
            timestamp: 1_700_000_000 + 3600 * hour,
        });
    }
    let perfect_forecast = WeatherForecast { hourly };
    let analysis = analyze_weather_for_photography(&perfect_forecast);
    assert!(analysis.overall_score >= 800);
    assert!(analysis.concerns.is_empty());
    // The bonus hours qualify as best hours, along with every other hour
    // (each plain hour already scores 10.0).
    for hour in [6, 7, 8, 18, 19, 20] {
        assert!(analysis.best_hours.contains(&hour));
    }
    assert_eq!(analysis.best_hours.len(), 24);
    // Every plain hour scores 10.0 and the six bonus hours 12.0, so the
    // average is exactly 10.5 points.
    assert_eq!(analysis.overall_score, 1050);
}

#[test]
fn test_astrophotography_perfect_conditions() {
    let mut hourly = Vec::new();
    for hour in 0..24i64 {
        hourly.push(WeatherData {
            temperature: 150,
            humidity: 300,
            wind_speed: 10,
            cloud_cover: 0,
            visibility: 300,
            precipitation_probability: 0,
            description: "идеальная ночь".to_string(),
            timestamp: 1_700_000_000 + 3600 * hour,
        });
    }
    let perfect_forecast = WeatherForecast { hourly };
    let analysis = analyze_astrophotography_conditions(&perfect_forecast);
    assert!(analysis.is_suitable);
    assert!(analysis.cloud_cover_issues.is_empty());
}

#[test]
fn test_weather_analysis_single_hour() {
    let mut hourly = Vec::new();
    hourly.push(create_test_weather_data());
    let single_hour_forecast = WeatherForecast { hourly };
    let analysis = analyze_weather_for_photography(&single_hour_forecast);
    assert!(analysis.overall_score >= 0);
    assert!(analysis.overall_score <= 1000);
    assert_eq!(analysis.best_hours.len(), 1);
}

#[test]
fn test_weather_analysis_mixed_conditions() {
    let mut hourly = Vec::new();
    for hour in 0..24i64 {
        hourly.push(WeatherData {
            temperature: if hour < 12 { 250 } else { 150 },
            humidity: if hour % 2 == 0 { 400 } else { 700 },
            wind_speed: if hour % 3 == 0 { 30 } else { 80 },
            cloud_cover: if !(6..=18).contains(&hour) { 200 } else { 600 },
            visibility: if hour % 4 == 0 { 50 } else { 150 },
            precipitation_probability: if hour > 10 && hour < 14 { 400 } else { 100 },
            description: "переменная погода".to_string(),
            timestamp: 1_700_000_000 + 3600 * hour,
        });
    }
    let mixed_forecast = WeatherForecast { hourly };
    let analysis = analyze_weather_for_photography(&mixed_forecast);
    assert!(analysis.overall_score >= 0);
    assert!(analysis.overall_score <= 1000);
    assert!(!analysis.best_hours.is_empty());
}

#[test]
fn test_mock_forecast_values() {
    let service = WeatherService::new("demo_key".to_string(), "Moscow".to_string(), true);
    let forecast = service.get_mock_forecast(1_700_000_000);
    assert_eq!(forecast.hourly.len(), 24);
    assert_eq!(forecast.hourly[0].temperature, 90);
    assert_eq!(forecast.hourly[12].temperature, 150);
    assert_eq!(forecast.hourly[0].cloud_cover, 200);
    assert_eq!(forecast.hourly[12].cloud_cover, 600);
    assert_eq!(forecast.hourly[5].timestamp, 1_700_000_000 + 5 * 3600);
    assert_eq!(forecast.hourly[7].description, "Ясное утро");
}

#[test]
fn test_concern_texts_carry_values() {
    let mut hourly = Vec::new();
    hourly.push(WeatherData {
        temperature: -55,
        humidity: 500,
        wind_speed: 155,
        cloud_cover: 900,
        visibility: 10,
        precipitation_probability: 800,
        description: "пасмурно".to_string(),
        timestamp: 1_700_000_000,
    });
    let forecast = WeatherForecast { hourly };
    let analysis = analyze_weather_for_photography(&forecast);
    assert_eq!(analysis.concerns.len(), 5);
    assert_eq!(analysis.concerns[0], "Неудобная температура: -5.5°C");
    assert_eq!(analysis.concerns[1], "Сильный ветер: 15.5 м/с");
    assert_eq!(analysis.concerns[2], "Высокая облачность: 90%");
    assert_eq!(analysis.concerns[3], "Плохая видимость: 1 км");
    assert_eq!(analysis.concerns[4], "Вероятность осадков: 80%");
}

#[test]
fn test_cloud_cover_boundary_inclusive() {
    // Cloud cover of exactly 70.0% still falls in the 30-70% band: it
    // earns the 1.5 cloud points and raises no concern.
    let mut hourly = Vec::new();
    for hour in 0..24i64 {
        hourly.push(WeatherData {
            temperature: 200,
            humidity: 500,
            wind_speed: 20,
            cloud_cover: 700,
            visibility: 200,
            precipitation_probability: 0,
            description: "облачно".to_string(),
            timestamp: 1_700_000_000 + 3600 * hour,
        });
    }
    let forecast = WeatherForecast { hourly };
    let analysis = analyze_weather_for_photography(&forecast);
    assert!(analysis.concerns.is_empty());
    // Every plain hour scores 8.5 and the six bonus hours 10.5, so the
    // average is exactly 9.0 points.
    assert_eq!(analysis.overall_score, 900);
}
