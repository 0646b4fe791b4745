use weather_time_server::dispatch::{
    default_registry, finish_weather, plan_dispatch, prepare_weather, DispatchStep, ServerConfig,
    ToolCallRequest, UpstreamCall,
};
use weather_time_server::args::ArgValue;
use weather_time_server::models::{TempUnit, WeatherRequest};
use weather_time_server::result::{ContentBlock, ErrorCode, ToolCallResult};
use weather_time_server::upstream::{
    CurrentWeather, UpstreamError, WeatherCondition, WeatherFetch, WeatherResponse,
};

fn test_config() -> ServerConfig {
    ServerConfig {
        weather_api_key: Some("test_api_key".to_string()),
        geo_location_api_key: Some("test_api_key".to_string()),
    }
}

#[test]
fn empty_location_parameters_are_not_allowed() {
    let api_key = "123";

    let weather_request_empty_city = WeatherRequest {
        city: "".to_string(),
        country: "US".to_string(),
        unit: TempUnit::C,
    };

    let result1 = prepare_weather(api_key, &weather_request_empty_city, None);
    assert!(result1.is_err());

    let weather_request_empty_country = WeatherRequest {
        city: "New York".to_string(),
        country: "".to_string(),
        unit: TempUnit::C,
    };

    let result2 = prepare_weather(api_key, &weather_request_empty_country, None);
    assert!(result2.is_err());
}

#[test]
fn successful_weather_request() {
    let request = WeatherRequest {
        city: "London".to_string(),
        country: "UK".to_string(),
        unit: TempUnit::C,
    };

    let url = prepare_weather("test_api_key", &request, Some("http://mock")).unwrap();
    assert_eq!(url, "http://mock?key=test_api_key&q=London,UK");

    let fetch = WeatherFetch::Fetched(WeatherResponse {
        current: CurrentWeather {
            temp_c_tenths: 150,
            temp_f_tenths: 590,
            condition: WeatherCondition {
                text: "Partly cloudy".to_string(),
            },
            humidity_tenths: 720,
        },
    });

    let result = finish_weather(&request, &fetch);
    match result {
        ToolCallResult::Success(blocks) => {
            assert_eq!(blocks.len(), 1);
            match &blocks[0] {
                ContentBlock::Weather(weather) => {
                    assert_eq!(weather.city, "London");
                    assert_eq!(weather.country, "UK");
                    assert_eq!(weather.unit, TempUnit::C);
                    assert_eq!(weather.temperature_tenths, 150);
                    assert_eq!(weather.conditions, "Partly cloudy");
                    assert_eq!(weather.humidity_tenths, 720);
                }
                ContentBlock::Time(_) => panic!("wrong content block"),
            }
        }
        ToolCallResult::Failure(f) => panic!("Error: {}", f.message),
    }
}

#[test]
fn failed_weather_request() {
    let request = WeatherRequest {
        city: "NonExistent".to_string(),
        country: "NoCountry".to_string(),
        unit: TempUnit::C,
    };

    let url = prepare_weather("test_api_key", &request, Some("http://mock")).unwrap();
    assert_eq!(url, "http://mock?key=test_api_key&q=NonExistent,NoCountry");

    let fetch = WeatherFetch::Failed(UpstreamError::NonSuccessStatus(400));
    let result = finish_weather(&request, &fetch);
    match result {
        ToolCallResult::Success(_) => panic!("expected a failure"),
        ToolCallResult::Failure(f) => {
            assert_eq!(f.code, ErrorCode::UpstreamFailure);
            assert!(f.message.contains("Failed to fetch weather data"));
        }
    }
}

#[test]
fn fahrenheit_unit_selects_fahrenheit_reading() {
    let request = WeatherRequest {
        city: "London".to_string(),
        country: "UK".to_string(),
        unit: TempUnit::F,
    };
    let fetch = WeatherFetch::Fetched(WeatherResponse {
        current: CurrentWeather {
            temp_c_tenths: 150,
            temp_f_tenths: 590,
            condition: WeatherCondition {
                text: "Partly cloudy".to_string(),
            },
            humidity_tenths: 720,
        },
    });
    match finish_weather(&request, &fetch) {
        ToolCallResult::Success(blocks) => match &blocks[0] {
            ContentBlock::Weather(weather) => {
                assert_eq!(weather.unit, TempUnit::F);
                assert_eq!(weather.temperature_tenths, 590);
            }
            ContentBlock::Time(_) => panic!("wrong content block"),
        },
        ToolCallResult::Failure(f) => panic!("Error: {}", f.message),
    }
}

/// Scenario: get_weather for London, UK in Celsius against an upstream
/// reading of 15.0 C / 59.0 F, partly cloudy, 72% humidity.
#[test]
fn weather_london_celsius_end_to_end() {
    let reg = default_registry();
    let config = test_config();
    let request = ToolCallRequest {
        tool_name: "get_weather".to_string(),
        arguments: vec![
            ("city".to_string(), ArgValue::Str("London".to_string())),
            ("country".to_string(), ArgValue::Str("UK".to_string())),
            ("unit".to_string(), ArgValue::Str("C".to_string())),
        ],
    };
    let step = plan_dispatch(&reg, &config, &request);
    let call = match step {
        DispatchStep::CallUpstream(call) => call,
        DispatchStep::Done(_) => panic!("expected an outbound call"),
    };
    let (wreq, url) = match call {
        UpstreamCall::Weather { request, url } => (request, url),
        UpstreamCall::Time { .. } => panic!("wrong tool routed"),
    };
    assert_eq!(
        url,
        "https://api.weatherapi.com/v1/current.json?key=test_api_key&q=London,UK"
    );
    let fetch = WeatherFetch::Fetched(WeatherResponse {
        current: CurrentWeather {
            temp_c_tenths: 150,
            temp_f_tenths: 590,
            condition: WeatherCondition {
                text: "Partly cloudy".to_string(),
            },
            humidity_tenths: 720,
        },
    });
    match finish_weather(&wreq, &fetch) {
        ToolCallResult::Success(blocks) => {
            assert_eq!(blocks.len(), 1);
            match &blocks[0] {
                ContentBlock::Weather(weather) => {
                    assert_eq!(weather.city, "London");
                    assert_eq!(weather.country, "UK");
                    assert_eq!(weather.unit, TempUnit::C);
                    assert_eq!(weather.temperature_tenths, 150);
                    assert_eq!(weather.conditions, "Partly cloudy");
                    assert_eq!(weather.humidity_tenths, 720);
                }
                ContentBlock::Time(_) => panic!("wrong content block"),
            }
        }
        ToolCallResult::Failure(f) => panic!("Error: {}", f.message),
    }
}

/// Scenario: get_weather with an empty city fails with a domain validation
/// error before any outbound call is prepared.
#[test]
fn weather_empty_city_rejected_without_call() {
    let reg = default_registry();
    let config = test_config();
    let request = ToolCallRequest {
        tool_name: "get_weather".to_string(),
        arguments: vec![
            ("city".to_string(), ArgValue::Str("".to_string())),
            ("country".to_string(), ArgValue::Str("US".to_string())),
        ],
    };
    match plan_dispatch(&reg, &config, &request) {
        DispatchStep::Done(ToolCallResult::Failure(f)) => {
            assert_eq!(f.code, ErrorCode::DomainValidationError);
            assert_eq!(f.message, "City and country cannot be empty");
            assert!(!f.retryable);
        }
        _ => panic!("expected a final domain validation failure"),
    }
}

/// Two identical requests against a stable upstream produce structurally
/// identical success payloads; nothing is cached between them.
#[test]
fn identical_weather_requests_identical_payloads() {
    let reg = default_registry();
    let config = test_config();
    let make_request = || ToolCallRequest {
        tool_name: "get_weather".to_string(),
        arguments: vec![
            ("city".to_string(), ArgValue::Str("London".to_string())),
            ("country".to_string(), ArgValue::Str("UK".to_string())),
        ],
    };
    let stable_upstream = || {
        WeatherFetch::Fetched(WeatherResponse {
            current: CurrentWeather {
                temp_c_tenths: 150,
                temp_f_tenths: 590,
                condition: WeatherCondition {
                    text: "Partly cloudy".to_string(),
                },
                humidity_tenths: 720,
            },
        })
    };
    let run = |req: ToolCallRequest| -> Vec<(String, String, TempUnit, i64, String, i64)> {
        match plan_dispatch(&reg, &config, &req) {
            DispatchStep::CallUpstream(UpstreamCall::Weather { request, .. }) => {
                match finish_weather(&request, &stable_upstream()) {
                    ToolCallResult::Success(blocks) => blocks
                        .iter()
                        .map(|b| match b {
                            ContentBlock::Weather(w) => (
                                w.city.clone(),
                                w.country.clone(),
                                w.unit,
                                w.temperature_tenths,
                                w.conditions.clone(),
                                w.humidity_tenths,
                            ),
                            ContentBlock::Time(_) => panic!("wrong content block"),
                        })
                        .collect(),
                    ToolCallResult::Failure(f) => panic!("Error: {}", f.message),
                }
            }
            _ => panic!("expected an outbound call"),
        }
    };
    let first = run(make_request());
    let second = run(make_request());
    assert_eq!(first, second);
}
