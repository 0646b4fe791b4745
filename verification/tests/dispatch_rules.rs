use weather_time_server::args::ArgValue;
use weather_time_server::dispatch::{
    decode_weather, default_registry, plan_dispatch, weather_schema, DispatchStep, ServerConfig,
    ToolCallRequest,
};
use weather_time_server::schema::conforms;
use weather_time_server::models::{default_temperature_unit, TempUnit};
use weather_time_server::result::{ErrorCode, ToolCallResult};

fn full_config() -> ServerConfig {
    ServerConfig {
        weather_api_key: Some("test_api_key".to_string()),
        geo_location_api_key: Some("test_api_key".to_string()),
    }
}

fn expect_failure(step: DispatchStep) -> (ErrorCode, String, bool) {
    match step {
        DispatchStep::Done(ToolCallResult::Failure(f)) => (f.code, f.message, f.retryable),
        _ => panic!("expected a final failure"),
    }
}

/// An unregistered tool name is rejected with UnknownCapability and no
/// handler is invoked: the step is final, no outbound call is named.
#[test]
fn unknown_tool_rejected() {
    let reg = default_registry();
    let request = ToolCallRequest {
        tool_name: "no_such_tool".to_string(),
        arguments: vec![],
    };
    let (code, message, retryable) = expect_failure(plan_dispatch(&reg, &full_config(), &request));
    assert_eq!(code, ErrorCode::UnknownCapability);
    assert_eq!(message, "Unknown tool: no_such_tool");
    assert!(!retryable);
}

/// A payload missing a required field is rejected with InvalidArguments
/// before any handler runs.
#[test]
fn missing_required_field_rejected() {
    let reg = default_registry();
    let request = ToolCallRequest {
        tool_name: "get_weather".to_string(),
        arguments: vec![("city".to_string(), ArgValue::Str("London".to_string()))],
    };
    let (code, _, _) = expect_failure(plan_dispatch(&reg, &full_config(), &request));
    assert_eq!(code, ErrorCode::InvalidArguments);
}

/// An enumerated field bound outside its declared set is rejected with
/// InvalidArguments.
#[test]
fn enumerated_field_outside_set_rejected() {
    let reg = default_registry();
    let request = ToolCallRequest {
        tool_name: "get_weather".to_string(),
        arguments: vec![
            ("city".to_string(), ArgValue::Str("London".to_string())),
            ("country".to_string(), ArgValue::Str("UK".to_string())),
            ("unit".to_string(), ArgValue::Str("K".to_string())),
        ],
    };
    let (code, _, _) = expect_failure(plan_dispatch(&reg, &full_config(), &request));
    assert_eq!(code, ErrorCode::InvalidArguments);
}

/// A field of the wrong shape (a number where a string is declared) is
/// rejected with InvalidArguments.
#[test]
fn wrong_shape_field_rejected() {
    let reg = default_registry();
    let request = ToolCallRequest {
        tool_name: "get_local_time".to_string(),
        arguments: vec![
            ("city".to_string(), ArgValue::Int(7)),
            ("country".to_string(), ArgValue::Str("UK".to_string())),
        ],
    };
    let (code, _, _) = expect_failure(plan_dispatch(&reg, &full_config(), &request));
    assert_eq!(code, ErrorCode::InvalidArguments);
}

/// A missing secret produces a ConfigurationMissing failure for the
/// affected capability only; the other capability still dispatches.
#[test]
fn missing_secret_fails_only_its_capability() {
    let reg = default_registry();
    let config = ServerConfig {
        weather_api_key: None,
        geo_location_api_key: Some("test_api_key".to_string()),
    };
    let weather = ToolCallRequest {
        tool_name: "get_weather".to_string(),
        arguments: vec![
            ("city".to_string(), ArgValue::Str("London".to_string())),
            ("country".to_string(), ArgValue::Str("UK".to_string())),
        ],
    };
    let (code, message, _) = expect_failure(plan_dispatch(&reg, &config, &weather));
    assert_eq!(code, ErrorCode::ConfigurationMissing);
    assert_eq!(message, "WEATHER_API_KEY environment variable not set");

    let time = ToolCallRequest {
        tool_name: "get_local_time".to_string(),
        arguments: vec![
            ("city".to_string(), ArgValue::Str("London".to_string())),
            ("country".to_string(), ArgValue::Str("UK".to_string())),
        ],
    };
    assert!(matches!(
        plan_dispatch(&reg, &config, &time),
        DispatchStep::CallUpstream(_)
    ));
}

/// An omitted unit field takes its declared default, Celsius.
#[test]
fn omitted_unit_defaults_to_celsius() {
    let args = vec![
        ("city".to_string(), ArgValue::Str("London".to_string())),
        ("country".to_string(), ArgValue::Str("UK".to_string())),
    ];
    let decoded = decode_weather(&args).unwrap();
    assert_eq!(decoded.unit, TempUnit::C);
    assert_eq!(default_temperature_unit(), TempUnit::C);
}

/// Conformance to the declared weather schema, checked directly: required
/// fields must be bound to strings, the enumerated unit must stay in its
/// set, unknown keys are ignored.
#[test]
fn weather_schema_conformance_direct() {
    let schema = weather_schema();
    let good = vec![
        ("city".to_string(), ArgValue::Str("London".to_string())),
        ("country".to_string(), ArgValue::Str("UK".to_string())),
        ("unit".to_string(), ArgValue::Str("F".to_string())),
        ("extra".to_string(), ArgValue::Null),
    ];
    assert!(conforms(&schema, &good));

    let missing_country = vec![("city".to_string(), ArgValue::Str("London".to_string()))];
    assert!(!conforms(&schema, &missing_country));

    let bad_unit = vec![
        ("city".to_string(), ArgValue::Str("London".to_string())),
        ("country".to_string(), ArgValue::Str("UK".to_string())),
        ("unit".to_string(), ArgValue::Str("Kelvin".to_string())),
    ];
    assert!(!conforms(&schema, &bad_unit));

    let wrong_shape = vec![
        ("city".to_string(), ArgValue::Bool(true)),
        ("country".to_string(), ArgValue::Str("UK".to_string())),
    ];
    assert!(!conforms(&schema, &wrong_shape));
}

/// The wire spelling of each temperature unit is its single letter.
#[test]
fn unit_letters() {
    assert_eq!(TempUnit::C.letter(), "C");
    assert_eq!(TempUnit::F.letter(), "F");
}

/// When two pairs bind the same name, the first one wins.
#[test]
fn first_binding_of_a_duplicated_name_wins() {
    let args = vec![
        ("city".to_string(), ArgValue::Str("London".to_string())),
        ("city".to_string(), ArgValue::Str("Paris".to_string())),
        ("country".to_string(), ArgValue::Str("UK".to_string())),
        ("unit".to_string(), ArgValue::Str("F".to_string())),
    ];
    let decoded = decode_weather(&args).unwrap();
    assert_eq!(decoded.city, "London");
    assert_eq!(decoded.unit, TempUnit::F);
}
