use crusty::weather::{
    summarize_weather, weather_url, CurrentCondition, NearestArea, ValueWrapper, WttrResponse,
};

fn v(s: &str) -> ValueWrapper {
    ValueWrapper { value: s.to_string() }
}

#[test]
fn url_for_location() {
    assert_eq!(weather_url("Hanoi"), "https://wttr.in/Hanoi?format=j1");
}

#[test]
fn summary_of_answer() {
    let r = WttrResponse {
        current_condition: vec![CurrentCondition {
            temp_c: "30".to_string(),
            feels_like_c: Some("35".to_string()),
            humidity: "80".to_string(),
            weather_desc: vec![v("Sunny")],
        }],
        nearest_area: vec![NearestArea { area_name: vec![v("Hanoi")] }],
    };
    assert_eq!(
        summarize_weather(&r).unwrap(),
        "Location: Hanoi Temperature: 30°C (Feels like: 35°C) Humidity: 80% State: Sunny"
    );
}

#[test]
fn summary_defaults_and_error() {
    let r = WttrResponse {
        current_condition: vec![CurrentCondition {
            temp_c: "1".to_string(),
            feels_like_c: None,
            humidity: "2".to_string(),
            weather_desc: vec![],
        }],
        nearest_area: vec![],
    };
    assert_eq!(
        summarize_weather(&r).unwrap(),
        "Location: Unknown Temperature: 1°C (Feels like: Unknown°C) Humidity: 2% State: No description"
    );
    let empty = WttrResponse { current_condition: vec![], nearest_area: vec![] };
    assert_eq!(summarize_weather(&empty).unwrap_err(), "No weather data found");
}
