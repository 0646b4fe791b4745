use weather_time_server::args::ArgValue;
use weather_time_server::dispatch::{
    default_registry, finish_time, plan_dispatch, prepare_time, DispatchStep, ServerConfig,
    ToolCallRequest, UpstreamCall,
};
use weather_time_server::models::TimeRequest;
use weather_time_server::result::{ContentBlock, ErrorCode, ToolCallResult};
use weather_time_server::upstream::{TimeFetch, TimeResponse, UpstreamError};

fn test_config() -> ServerConfig {
    ServerConfig {
        weather_api_key: Some("test_api_key".to_string()),
        geo_location_api_key: Some("test_api_key".to_string()),
    }
}

#[test]
fn empty_city_or_country_not_allowed() {
    let api_key = "test_api_key";
    let mut request = TimeRequest {
        city: "New York".to_string(),
        country: "United States".to_string(),
    };

    request.city = "".to_string();
    let result = prepare_time(api_key, &request, None);
    assert!(result.is_err());

    request.city = "New York".to_string();
    request.country = "".to_string();
    let result = prepare_time(api_key, &request, None);
    assert!(result.is_err());
}

#[test]
fn successful_time_request() {
    let request = TimeRequest {
        city: "London".to_string(),
        country: "UK".to_string(),
    };

    let url = prepare_time("test_api_key", &request, Some("http://mock")).unwrap();
    assert_eq!(url, "http://mock?apiKey=test_api_key&location=London,UK");

    let fetch = TimeFetch::Fetched(TimeResponse {
        time_12: "08:30 PM".to_string(),
        date: "2023-05-14".to_string(),
    });

    match finish_time(&request, &fetch) {
        ToolCallResult::Success(blocks) => {
            assert_eq!(blocks.len(), 1);
            match &blocks[0] {
                ContentBlock::Time(time) => {
                    assert_eq!(time.city, "London");
                    assert_eq!(time.country, "UK");
                    assert_eq!(time.local_time, "08:30 PM");
                    assert_eq!(time.date, "2023-05-14");
                }
                ContentBlock::Weather(_) => panic!("wrong content block"),
            }
        }
        ToolCallResult::Failure(f) => panic!("Error: {}", f.message),
    }
}

#[test]
fn failed_time_request() {
    let request = TimeRequest {
        city: "Invalid".to_string(),
        country: "Location".to_string(),
    };

    let url = prepare_time("test_api_key", &request, Some("http://mock")).unwrap();
    assert_eq!(url, "http://mock?apiKey=test_api_key&location=Invalid,Location");

    let fetch = TimeFetch::Failed(UpstreamError::NonSuccessStatus(404));
    let result = finish_time(&request, &fetch);
    assert!(matches!(result, ToolCallResult::Failure(_)));
}

/// Scenario: get_local_time for an unknown location, answered upstream with
/// a non-success status, fails as an upstream failure with the fixed
/// message.
#[test]
fn time_invalid_location_upstream_failure() {
    let reg = default_registry();
    let config = test_config();
    let request = ToolCallRequest {
        tool_name: "get_local_time".to_string(),
        arguments: vec![
            ("city".to_string(), ArgValue::Str("Invalid".to_string())),
            ("country".to_string(), ArgValue::Str("Location".to_string())),
        ],
    };
    let treq = match plan_dispatch(&reg, &config, &request) {
        DispatchStep::CallUpstream(UpstreamCall::Time { request, .. }) => request,
        _ => panic!("expected an outbound call"),
    };
    let fetch = TimeFetch::Failed(UpstreamError::NonSuccessStatus(404));
    match finish_time(&treq, &fetch) {
        ToolCallResult::Failure(f) => {
            assert_eq!(f.code, ErrorCode::UpstreamFailure);
            assert_eq!(f.message, "Failed to fetch time data");
            assert!(!f.retryable);
        }
        ToolCallResult::Success(_) => panic!("expected a failure"),
    }
}

/// A network-level failure of the outbound call surfaces its own
/// description as an upstream failure.
#[test]
fn time_network_error_surfaces_message() {
    let request = TimeRequest {
        city: "London".to_string(),
        country: "UK".to_string(),
    };
    let fetch = TimeFetch::Failed(UpstreamError::Network("connection refused".to_string()));
    match finish_time(&request, &fetch) {
        ToolCallResult::Failure(f) => {
            assert_eq!(f.code, ErrorCode::UpstreamFailure);
            assert_eq!(f.message, "connection refused");
        }
        ToolCallResult::Success(_) => panic!("expected a failure"),
    }
}

/// A success status with an unparseable body is an upstream failure too.
#[test]
fn time_malformed_body_surfaces_message() {
    let request = TimeRequest {
        city: "London".to_string(),
        country: "UK".to_string(),
    };
    let fetch = TimeFetch::Failed(UpstreamError::MalformedBody(
        "missing field time_12".to_string(),
    ));
    match finish_time(&request, &fetch) {
        ToolCallResult::Failure(f) => {
            assert_eq!(f.code, ErrorCode::UpstreamFailure);
            assert_eq!(f.message, "missing field time_12");
        }
        ToolCallResult::Success(_) => panic!("expected a failure"),
    }
}
