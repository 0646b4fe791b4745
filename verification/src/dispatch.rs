//! The tool dispatcher: routes an incoming tool-call request to the matching
//! capability, validates and decodes the untyped payload against the
//! capability's declared schema, and wraps every outcome — success or any
//! failure — into the result envelope.
//!
//! The one outbound collaborator call a handler makes is I/O and stands
//! outside this crate, so a dispatch is split into two verified halves:
//! [`plan_dispatch`] runs every decision up to the call and either finishes
//! the request or names the call to make, and [`finish_weather`] /
//! [`finish_time`] turn the call's outcome — whatever it was — into the
//! final result. The serving loop performs the named call in between and
//! nothing else.

use crate::args::ArgValue;
use crate::args::ArgValueV;
use crate::args::Args;
use crate::args::ArgsV;
use crate::args::spec_lookup;
use crate::models::TempUnit;
use crate::models::TimeRequest;
use crate::models::TimeRequestV;
use crate::models::WeatherRequest;
use crate::models::WeatherRequestV;
use crate::schema::FieldSpec;
use crate::schema::FieldSpecV;
use crate::schema::Schema;
use crate::schema::SchemaV;
use crate::result::ContentBlock;
use crate::result::ContentBlockV;
use crate::result::ErrorCode;
use crate::result::ToolCallResult;
use crate::result::ToolCallResultV;
use crate::result::ToolFailure;
use crate::result::ToolFailureV;
use crate::schema::spec_conforms;
use crate::schema::spec_field_ok;
use crate::upstream::TimeFetch;
use crate::upstream::TimeFetchV;
use crate::upstream::UpstreamError;
use crate::upstream::UpstreamErrorV;
use crate::upstream::WeatherFetch;
use crate::upstream::WeatherFetchV;
use vstd::prelude::*;
use vstd::string::StringExecFns;

verus! {

/// One incoming tool-call request: a tool name and an untyped payload.
/// Created per message, consumed once by the dispatcher.
pub struct ToolCallRequest {
    pub tool_name: String,
    pub arguments: Args,
}

/// Mathematical image of a [`ToolCallRequest`].
pub struct ToolCallRequestV {
    pub tool_name: Seq<char>,
    pub arguments: ArgsV,
}

impl View for ToolCallRequest {
    type V = ToolCallRequestV;

    open spec fn view(&self) -> ToolCallRequestV {
        ToolCallRequestV { tool_name: self.tool_name@, arguments: self.arguments.deep_view() }
    }
}

/// The read-only process configuration the dispatcher consults: one secret
/// per outbound collaborator, absent when the environment did not supply it.
pub struct ServerConfig {
    pub weather_api_key: Option<String>,
    pub geo_location_api_key: Option<String>,
}

/// Mathematical image of a [`ServerConfig`].
pub struct ServerConfigV {
    pub weather_api_key: Option<Seq<char>>,
    pub geo_location_api_key: Option<Seq<char>>,
}

impl View for ServerConfig {
    type V = ServerConfigV;

    open spec fn view(&self) -> ServerConfigV {
        ServerConfigV {
            weather_api_key: match self.weather_api_key {
                Option::Some(k) => Option::Some(k@),
                Option::None => Option::None,
            },
            geo_location_api_key: match self.geo_location_api_key {
                Option::Some(k) => Option::Some(k@),
                Option::None => Option::None,
            },
        }
    }
}

/// Whether the payload decodes into a weather request: both location fields
/// bound to strings, and the optional unit field, when bound, one of the
/// enumerated spellings.
pub open spec fn spec_weather_args_ok(args: ArgsV) -> bool {
    &&& spec_lookup(args, "city"@) matches Some(ArgValueV::Str(_))
    &&& spec_lookup(args, "country"@) matches Some(ArgValueV::Str(_))
    &&& match spec_lookup(args, "unit"@) {
        Option::None => true,
        Option::Some(ArgValueV::Str(u)) => u == "C"@ || u == "F"@,
        Option::Some(_) => false,
    }
}

/// The string bound in an argument lookup, empty when none is.
pub open spec fn spec_str_of(v: Option<ArgValueV>) -> Seq<char> {
    match v {
        Option::Some(ArgValueV::Str(s)) => s,
        _ => Seq::empty(),
    }
}

/// The weather request a conforming payload decodes to; an omitted unit
/// field takes its declared default, Celsius.
pub open spec fn spec_weather_request(args: ArgsV) -> WeatherRequestV {
    WeatherRequestV {
        city: spec_str_of(spec_lookup(args, "city"@)),
        country: spec_str_of(spec_lookup(args, "country"@)),
        unit: if spec_lookup(args, "unit"@) == Some(ArgValueV::Str("F"@)) {
            TempUnit::F
        } else {
            TempUnit::C
        },
    }
}

/// Whether the payload decodes into a local-time request: both location
/// fields bound to strings.
pub open spec fn spec_time_args_ok(args: ArgsV) -> bool {
    &&& spec_lookup(args, "city"@) matches Some(ArgValueV::Str(_))
    &&& spec_lookup(args, "country"@) matches Some(ArgValueV::Str(_))
}

/// The local-time request a conforming payload decodes to.
pub open spec fn spec_time_request(args: ArgsV) -> TimeRequestV {
    TimeRequestV {
        city: spec_str_of(spec_lookup(args, "city"@)),
        country: spec_str_of(spec_lookup(args, "country"@)),
    }
}

/// Decode an untyped payload into a typed weather request. Succeeds exactly
/// on payloads that satisfy the weather capability's schema.
pub fn decode_weather(args: &Args) -> (r: Option<WeatherRequest>)
    ensures
        r is Some <==> spec_weather_args_ok(args.deep_view()),
        r matches Some(req) ==> req@ == spec_weather_request(args.deep_view()),
{
    let city: String = match crate::args::lookup_arg(args, &"city".to_owned()) {
        Option::Some(ArgValue::Str(s)) => s.clone(),
        _ => {
            return Option::None;
        },
    };
    let country: String = match crate::args::lookup_arg(args, &"country".to_owned()) {
        Option::Some(ArgValue::Str(s)) => s.clone(),
        _ => {
            return Option::None;
        },
    };
    let unit: TempUnit = match crate::args::lookup_arg(args, &"unit".to_owned()) {
        Option::None => crate::models::default_temperature_unit(),
        Option::Some(ArgValue::Str(u)) => {
            if *u == "F".to_owned() {
                TempUnit::F
            } else if *u == "C".to_owned() {
                TempUnit::C
            } else {
                return Option::None;
            }
        },
        Option::Some(_) => {
            return Option::None;
        },
    };
    Option::Some(WeatherRequest { city, country, unit })
}

/// Decode an untyped payload into a typed local-time request. Succeeds
/// exactly on payloads that satisfy the local-time capability's schema.
pub fn decode_time(args: &Args) -> (r: Option<TimeRequest>)
    ensures
        r is Some <==> spec_time_args_ok(args.deep_view()),
        r matches Some(req) ==> req@ == spec_time_request(args.deep_view()),
{
    let city: String = match crate::args::lookup_arg(args, &"city".to_owned()) {
        Option::Some(ArgValue::Str(s)) => s.clone(),
        _ => {
            return Option::None;
        },
    };
    let country: String = match crate::args::lookup_arg(args, &"country".to_owned()) {
        Option::Some(ArgValue::Str(s)) => s.clone(),
        _ => {
            return Option::None;
        },
    };
    Option::Some(TimeRequest { city, country })
}

/// The declared input schema of the `get_weather` capability.
pub open spec fn spec_weather_schema() -> SchemaV {
    seq![
        FieldSpecV {
            name: "city"@,
            description: "City name"@,
            required: true,
            allowed: Option::None,
            default_value: Option::None,
        },
        FieldSpecV {
            name: "country"@,
            description: "Country name"@,
            required: true,
            allowed: Option::None,
            default_value: Option::None,
        },
        FieldSpecV {
            name: "unit"@,
            description: "Temperature unit (C or F)"@,
            required: false,
            allowed: Option::Some(seq!["C"@, "F"@]),
            default_value: Option::Some("C"@),
        },
    ]
}

/// The declared input schema of the `get_local_time` capability.
pub open spec fn spec_time_schema() -> SchemaV {
    seq![
        FieldSpecV {
            name: "city"@,
            description: "City name"@,
            required: true,
            allowed: Option::None,
            default_value: Option::None,
        },
        FieldSpecV {
            name: "country"@,
            description: "Country name"@,
            required: true,
            allowed: Option::None,
            default_value: Option::None,
        },
    ]
}

/// Build the weather capability's schema value.
pub fn weather_schema() -> (s: Schema)
    ensures
        s@ == spec_weather_schema(),
{
    let allowed: Vec<String> = vec!["C".to_owned(), "F".to_owned()];
    proof {
        assert(allowed.deep_view() =~= seq!["C"@, "F"@]);
    }
    let fields: Vec<FieldSpec> = vec![
        FieldSpec {
            name: "city".to_owned(),
            description: "City name".to_owned(),
            required: true,
            allowed: Option::None,
            default_value: Option::None,
        },
        FieldSpec {
            name: "country".to_owned(),
            description: "Country name".to_owned(),
            required: true,
            allowed: Option::None,
            default_value: Option::None,
        },
        FieldSpec {
            name: "unit".to_owned(),
            description: "Temperature unit (C or F)".to_owned(),
            required: false,
            allowed: Option::Some(allowed),
            default_value: Option::Some("C".to_owned()),
        },
    ];
    let s = Schema { fields };
    proof {
        assert(s@ =~= spec_weather_schema());
    }
    s
}

/// Build the local-time capability's schema value.
pub fn time_schema() -> (s: Schema)
    ensures
        s@ == spec_time_schema(),
{
    let fields: Vec<FieldSpec> = vec![
        FieldSpec {
            name: "city".to_owned(),
            description: "City name".to_owned(),
            required: true,
            allowed: Option::None,
            default_value: Option::None,
        },
        FieldSpec {
            name: "country".to_owned(),
            description: "Country name".to_owned(),
            required: true,
            allowed: Option::None,
            default_value: Option::None,
        },
    ];
    let s = Schema { fields };
    proof {
        assert(s@ =~= spec_time_schema());
    }
    s
}

/// Law: the weather capability's declared schema accepts a payload exactly
/// when the typed decode succeeds — the negotiated description and the
/// dispatcher's validation agree.
pub proof fn lemma_weather_schema_matches_decode(args: ArgsV)
    ensures
        spec_conforms(spec_weather_schema(), args) == spec_weather_args_ok(args),
{
    let schema = spec_weather_schema();
    if spec_weather_args_ok(args) {
        assert forall|i: int| 0 <= i < schema.len() implies spec_field_ok(
            #[trigger] schema[i],
            args,
        ) by {
            if i == 2 {
                match spec_lookup(args, "unit"@) {
                    Option::Some(ArgValueV::Str(u)) => {
                        let set = seq!["C"@, "F"@];
                        if u == "C"@ {
                            assert(set[0] == u);
                        } else {
                            assert(set[1] == u);
                        }
                    },
                    _ => {},
                }
            }
        }
    }
    if spec_conforms(schema, args) {
        assert(spec_field_ok(schema[0], args));
        assert(spec_field_ok(schema[1], args));
        assert(spec_field_ok(schema[2], args));
        match spec_lookup(args, "unit"@) {
            Option::Some(ArgValueV::Str(u)) => {
                let set = seq!["C"@, "F"@];
                let i = choose|i: int| 0 <= i < set.len() && set[i] == u;
                assert(u == "C"@ || u == "F"@);
            },
            _ => {},
        }
    }
}

/// Law: the local-time capability's declared schema accepts a payload
/// exactly when the typed decode succeeds.
pub proof fn lemma_time_schema_matches_decode(args: ArgsV)
    ensures
        spec_conforms(spec_time_schema(), args) == spec_time_args_ok(args),
{
    let schema = spec_time_schema();
    if spec_conforms(schema, args) {
        assert(spec_field_ok(schema[0], args));
        assert(spec_field_ok(schema[1], args));
    }
}

/// Handler-level precondition of both capabilities: neither location field
/// may be empty.
pub open spec fn spec_location_ok(city: Seq<char>, country: Seq<char>) -> bool {
    city.len() > 0 && country.len() > 0
}

/// The weather-service endpoint used when none is supplied.
pub open spec fn spec_default_weather_endpoint() -> Seq<char> {
    "https://api.weatherapi.com/v1/current.json"@
}

/// The geolocation-service endpoint used when none is supplied.
pub open spec fn spec_default_time_endpoint() -> Seq<char> {
    "https://api.ipgeolocation.io/timezone"@
}

/// The weather-service endpoint used when none is supplied.
pub fn default_weather_endpoint() -> (r: &'static str)
    ensures
        r@ == spec_default_weather_endpoint(),
{
    "https://api.weatherapi.com/v1/current.json"
}

/// The geolocation-service endpoint used when none is supplied.
pub fn default_time_endpoint() -> (r: &'static str)
    ensures
        r@ == spec_default_time_endpoint(),
{
    "https://api.ipgeolocation.io/timezone"
}

/// The full weather-lookup URL for a location.
pub open spec fn spec_weather_url(
    endpoint: Seq<char>,
    api_key: Seq<char>,
    city: Seq<char>,
    country: Seq<char>,
) -> Seq<char> {
    endpoint + "?key="@ + api_key + "&q="@ + city + ","@ + country
}

/// The full time-lookup URL for a location.
pub open spec fn spec_time_url(
    endpoint: Seq<char>,
    api_key: Seq<char>,
    city: Seq<char>,
    country: Seq<char>,
) -> Seq<char> {
    endpoint + "?apiKey="@ + api_key + "&location="@ + city + ","@ + country
}

/// Build the weather-lookup URL.
pub fn weather_url(endpoint: &str, api_key: &str, city: &str, country: &str) -> (r: String)
    ensures
        r@ == spec_weather_url(endpoint@, api_key@, city@, country@),
{
    let mut r = endpoint.to_owned();
    r.append("?key=");
    r.append(api_key);
    r.append("&q=");
    r.append(city);
    r.append(",");
    r.append(country);
    r
}

/// Build the time-lookup URL.
pub fn time_url(endpoint: &str, api_key: &str, city: &str, country: &str) -> (r: String)
    ensures
        r@ == spec_time_url(endpoint@, api_key@, city@, country@),
{
    let mut r = endpoint.to_owned();
    r.append("?apiKey=");
    r.append(api_key);
    r.append("&location=");
    r.append(city);
    r.append(",");
    r.append(country);
    r
}

/// Validate a weather request's location fields and, when they pass, build
/// the URL its outbound call must use. No outbound call is prepared for an
/// empty city or country.
pub fn prepare_weather(api_key: &str, request: &WeatherRequest, endpoint: Option<&str>) -> (r:
    Result<String, ToolFailure>)
    ensures
        r is Ok <==> spec_location_ok(request@.city, request@.country),
        r matches Ok(url) ==> url@ == spec_weather_url(
            match endpoint {
                Option::Some(e) => e@,
                Option::None => spec_default_weather_endpoint(),
            },
            api_key@,
            request@.city,
            request@.country,
        ),
        r matches Err(f) ==> f@ == (ToolFailureV {
            code: ErrorCode::DomainValidationError,
            message: "City and country cannot be empty"@,
            retryable: false,
        }),
{
    if request.city.as_str().is_empty() || request.country.as_str().is_empty() {
        return Result::Err(
            ToolFailure::new(
                ErrorCode::DomainValidationError,
                "City and country cannot be empty",
            ),
        );
    }
    let ep: &str = match endpoint {
        Option::Some(e) => e,
        Option::None => default_weather_endpoint(),
    };
    Result::Ok(weather_url(ep, api_key, request.city.as_str(), request.country.as_str()))
}

/// Validate a local-time request's location fields and, when they pass,
/// build the URL its outbound call must use.
pub fn prepare_time(api_key: &str, request: &TimeRequest, endpoint: Option<&str>) -> (r: Result<
    String,
    ToolFailure,
>)
    ensures
        r is Ok <==> spec_location_ok(request@.city, request@.country),
        r matches Ok(url) ==> url@ == spec_time_url(
            match endpoint {
                Option::Some(e) => e@,
                Option::None => spec_default_time_endpoint(),
            },
            api_key@,
            request@.city,
            request@.country,
        ),
        r matches Err(f) ==> f@ == (ToolFailureV {
            code: ErrorCode::DomainValidationError,
            message: "City and country cannot be empty"@,
            retryable: false,
        }),
{
    if request.city.as_str().is_empty() || request.country.as_str().is_empty() {
        return Result::Err(
            ToolFailure::new(
                ErrorCode::DomainValidationError,
                "City and country cannot be empty",
            ),
        );
    }
    let ep: &str = match endpoint {
        Option::Some(e) => e,
        Option::None => default_time_endpoint(),
    };
    Result::Ok(time_url(ep, api_key, request.city.as_str(), request.country.as_str()))
}

/// The result a weather call's outcome is wrapped into: a success payload
/// echoing the request's location and unit with the upstream reading in the
/// requested unit, or an upstream failure.
pub open spec fn spec_finish_weather(req: WeatherRequestV, fetch: WeatherFetchV) -> ToolCallResultV {
    match fetch {
        WeatherFetchV::Fetched(u) => ToolCallResultV::Success(
            seq![
                ContentBlockV::Weather(
                    crate::models::WeatherResponseV {
                        city: req.city,
                        country: req.country,
                        unit: req.unit,
                        temperature_tenths: if req.unit == TempUnit::F {
                            u.current.temp_f_tenths
                        } else {
                            u.current.temp_c_tenths
                        },
                        conditions: u.current.condition,
                        humidity_tenths: u.current.humidity_tenths,
                    },
                ),
            ],
        ),
        WeatherFetchV::Failed(e) => ToolCallResultV::Failure(
            ToolFailureV {
                code: ErrorCode::UpstreamFailure,
                message: match e {
                    UpstreamErrorV::NonSuccessStatus(_) => "Failed to fetch weather data"@,
                    UpstreamErrorV::Network(m) => m,
                    UpstreamErrorV::MalformedBody(m) => m,
                },
                retryable: false,
            },
        ),
    }
}

/// The result a time call's outcome is wrapped into.
pub open spec fn spec_finish_time(req: TimeRequestV, fetch: TimeFetchV) -> ToolCallResultV {
    match fetch {
        TimeFetchV::Fetched(u) => ToolCallResultV::Success(
            seq![
                ContentBlockV::Time(
                    crate::models::TimeResponseV {
                        city: req.city,
                        country: req.country,
                        local_time: u.time_12,
                        date: u.date,
                    },
                ),
            ],
        ),
        TimeFetchV::Failed(e) => ToolCallResultV::Failure(
            ToolFailureV {
                code: ErrorCode::UpstreamFailure,
                message: match e {
                    UpstreamErrorV::NonSuccessStatus(_) => "Failed to fetch time data"@,
                    UpstreamErrorV::Network(m) => m,
                    UpstreamErrorV::MalformedBody(m) => m,
                },
                retryable: false,
            },
        ),
    }
}

/// Wrap the outcome of a weather call — whatever it was — into the result
/// envelope.
pub fn finish_weather(request: &WeatherRequest, fetch: &WeatherFetch) -> (r: ToolCallResult)
    ensures
        r@ == spec_finish_weather(request@, fetch@),
{
    match fetch {
        WeatherFetch::Fetched(u) => {
            let resp = crate::models::WeatherResponse {
                city: request.city.clone(),
                country: request.country.clone(),
                unit: request.unit,
                temperature_tenths: match request.unit {
                    TempUnit::F => u.current.temp_f_tenths,
                    TempUnit::C => u.current.temp_c_tenths,
                },
                conditions: u.current.condition.text.clone(),
                humidity_tenths: u.current.humidity_tenths,
            };
            let blocks: Vec<ContentBlock> = vec![ContentBlock::Weather(resp)];
            proof {
                assert(blocks.deep_view() =~= seq![blocks@[0]@]);
            }
            ToolCallResult::Success(blocks)
        },
        WeatherFetch::Failed(e) => {
            let f = match e {
                UpstreamError::NonSuccessStatus(_) => ToolFailure::new(
                    ErrorCode::UpstreamFailure,
                    "Failed to fetch weather data",
                ),
                UpstreamError::Network(m) => ToolFailure::new(
                    ErrorCode::UpstreamFailure,
                    m.as_str(),
                ),
                UpstreamError::MalformedBody(m) => ToolFailure::new(
                    ErrorCode::UpstreamFailure,
                    m.as_str(),
                ),
            };
            ToolCallResult::Failure(f)
        },
    }
}

/// Wrap the outcome of a time call — whatever it was — into the result
/// envelope.
pub fn finish_time(request: &TimeRequest, fetch: &TimeFetch) -> (r: ToolCallResult)
    ensures
        r@ == spec_finish_time(request@, fetch@),
{
    match fetch {
        TimeFetch::Fetched(u) => {
            let resp = crate::models::TimeResponse {
                city: request.city.clone(),
                country: request.country.clone(),
                local_time: u.time_12.clone(),
                date: u.date.clone(),
            };
            let blocks: Vec<ContentBlock> = vec![ContentBlock::Time(resp)];
            proof {
                assert(blocks.deep_view() =~= seq![blocks@[0]@]);
            }
            ToolCallResult::Success(blocks)
        },
        TimeFetch::Failed(e) => {
            let f = match e {
                UpstreamError::NonSuccessStatus(_) => ToolFailure::new(
                    ErrorCode::UpstreamFailure,
                    "Failed to fetch time data",
                ),
                UpstreamError::Network(m) => ToolFailure::new(
                    ErrorCode::UpstreamFailure,
                    m.as_str(),
                ),
                UpstreamError::MalformedBody(m) => ToolFailure::new(
                    ErrorCode::UpstreamFailure,
                    m.as_str(),
                ),
            };
            ToolCallResult::Failure(f)
        },
    }
}

/// The one outbound call a planned dispatch asks the serving loop to make:
/// which typed request it serves, and the exact URL to fetch.
pub enum UpstreamCall {
    Weather { request: WeatherRequest, url: String },
    Time { request: TimeRequest, url: String },
}

/// Mathematical image of an [`UpstreamCall`].
pub enum UpstreamCallV {
    Weather { request: WeatherRequestV, url: Seq<char> },
    Time { request: TimeRequestV, url: Seq<char> },
}

impl View for UpstreamCall {
    type V = UpstreamCallV;

    open spec fn view(&self) -> UpstreamCallV {
        match self {
            UpstreamCall::Weather { request, url } => UpstreamCallV::Weather {
                request: request@,
                url: url@,
            },
            UpstreamCall::Time { request, url } => UpstreamCallV::Time {
                request: request@,
                url: url@,
            },
        }
    }
}

/// What planning a dispatch yields: either the final result (no handler was
/// invoked, or none needed to be), or the single outbound call to perform.
pub enum DispatchStep {
    Done(ToolCallResult),
    CallUpstream(UpstreamCall),
}

/// Mathematical image of a [`DispatchStep`].
pub enum DispatchStepV {
    Done(ToolCallResultV),
    CallUpstream(UpstreamCallV),
}

impl View for DispatchStep {
    type V = DispatchStepV;

    open spec fn view(&self) -> DispatchStepV {
        match self {
            DispatchStep::Done(r) => DispatchStepV::Done(r@),
            DispatchStep::CallUpstream(c) => DispatchStepV::CallUpstream(c@),
        }
    }
}

/// A final failure step with the given code and message.
pub open spec fn spec_fail_step(code: ErrorCode, message: Seq<char>) -> DispatchStepV {
    DispatchStepV::Done(
        ToolCallResultV::Failure(ToolFailureV { code, message, retryable: false }),
    )
}

/// Every decision of one dispatch up to (and excluding) the outbound call:
/// resolve the tool name, validate the payload against the capability's
/// declared schema, decode it, check the capability's configuration and the
/// handler's domain precondition, and name the call to make.
pub open spec fn spec_plan(
    caps: Seq<crate::registry::CapabilityV>,
    config: ServerConfigV,
    req: ToolCallRequestV,
) -> DispatchStepV {
    match crate::registry::spec_find(caps, req.tool_name) {
        Option::None => spec_fail_step(
            ErrorCode::UnknownCapability,
            "Unknown tool: "@ + req.tool_name,
        ),
        Option::Some(cap) => {
            if !spec_conforms(cap.input_schema, req.arguments) {
                spec_fail_step(ErrorCode::InvalidArguments, "Invalid arguments"@)
            } else {
                match cap.tool {
                    crate::registry::ToolId::Weather => {
                        if !spec_weather_args_ok(req.arguments) {
                            spec_fail_step(ErrorCode::InvalidArguments, "Invalid arguments"@)
                        } else {
                            match config.weather_api_key {
                                Option::None => spec_fail_step(
                                    ErrorCode::ConfigurationMissing,
                                    "WEATHER_API_KEY environment variable not set"@,
                                ),
                                Option::Some(key) => {
                                    let w = spec_weather_request(req.arguments);
                                    if !spec_location_ok(w.city, w.country) {
                                        spec_fail_step(
                                            ErrorCode::DomainValidationError,
                                            "City and country cannot be empty"@,
                                        )
                                    } else {
                                        DispatchStepV::CallUpstream(
                                            UpstreamCallV::Weather {
                                                request: w,
                                                url: spec_weather_url(
                                                    spec_default_weather_endpoint(),
                                                    key,
                                                    w.city,
                                                    w.country,
                                                ),
                                            },
                                        )
                                    }
                                },
                            }
                        }
                    },
                    crate::registry::ToolId::LocalTime => {
                        if !spec_time_args_ok(req.arguments) {
                            spec_fail_step(ErrorCode::InvalidArguments, "Invalid arguments"@)
                        } else {
                            match config.geo_location_api_key {
                                Option::None => spec_fail_step(
                                    ErrorCode::ConfigurationMissing,
                                    "IP_GEOLOCATION_API_KEY environment variable not set"@,
                                ),
                                Option::Some(key) => {
                                    let t = spec_time_request(req.arguments);
                                    if !spec_location_ok(t.city, t.country) {
                                        spec_fail_step(
                                            ErrorCode::DomainValidationError,
                                            "City and country cannot be empty"@,
                                        )
                                    } else {
                                        DispatchStepV::CallUpstream(
                                            UpstreamCallV::Time {
                                                request: t,
                                                url: spec_time_url(
                                                    spec_default_time_endpoint(),
                                                    key,
                                                    t.city,
                                                    t.country,
                                                ),
                                            },
                                        )
                                    }
                                },
                            }
                        }
                    },
                }
            }
        },
    }
}

/// Plan one dispatch: run every decision up to the outbound call.
pub fn plan_dispatch(
    reg: &crate::registry::Registry,
    config: &ServerConfig,
    req: &ToolCallRequest,
) -> (s: DispatchStep)
    ensures
        s@ == spec_plan(reg@, config@, req@),
{
    let cap = match reg.lookup(&req.tool_name) {
        Option::None => {
            let mut m = "Unknown tool: ".to_owned();
            m.append(req.tool_name.as_str());
            return DispatchStep::Done(
                ToolCallResult::Failure(
                    ToolFailure { code: ErrorCode::UnknownCapability, message: m, retryable: false },
                ),
            );
        },
        Option::Some(c) => c,
    };
    if !crate::schema::conforms(&cap.input_schema, &req.arguments) {
        return DispatchStep::Done(
            ToolCallResult::Failure(
                ToolFailure::new(ErrorCode::InvalidArguments, "Invalid arguments"),
            ),
        );
    }
    match cap.tool {
        crate::registry::ToolId::Weather => {
            let wreq = match decode_weather(&req.arguments) {
                Option::None => {
                    return DispatchStep::Done(
                        ToolCallResult::Failure(
                            ToolFailure::new(ErrorCode::InvalidArguments, "Invalid arguments"),
                        ),
                    );
                },
                Option::Some(w) => w,
            };
            let key = match &config.weather_api_key {
                Option::None => {
                    return DispatchStep::Done(
                        ToolCallResult::Failure(
                            ToolFailure::new(
                                ErrorCode::ConfigurationMissing,
                                "WEATHER_API_KEY environment variable not set",
                            ),
                        ),
                    );
                },
                Option::Some(k) => k,
            };
            match prepare_weather(key.as_str(), &wreq, Option::None) {
                Result::Err(f) => DispatchStep::Done(ToolCallResult::Failure(f)),
                Result::Ok(url) => DispatchStep::CallUpstream(
                    UpstreamCall::Weather { request: wreq, url },
                ),
            }
        },
        crate::registry::ToolId::LocalTime => {
            let treq = match decode_time(&req.arguments) {
                Option::None => {
                    return DispatchStep::Done(
                        ToolCallResult::Failure(
                            ToolFailure::new(ErrorCode::InvalidArguments, "Invalid arguments"),
                        ),
                    );
                },
                Option::Some(t) => t,
            };
            let key = match &config.geo_location_api_key {
                Option::None => {
                    return DispatchStep::Done(
                        ToolCallResult::Failure(
                            ToolFailure::new(
                                ErrorCode::ConfigurationMissing,
                                "IP_GEOLOCATION_API_KEY environment variable not set",
                            ),
                        ),
                    );
                },
                Option::Some(k) => k,
            };
            match prepare_time(key.as_str(), &treq, Option::None) {
                Result::Err(f) => DispatchStep::Done(ToolCallResult::Failure(f)),
                Result::Ok(url) => DispatchStep::CallUpstream(
                    UpstreamCall::Time { request: treq, url },
                ),
            }
        },
    }
}

/// Law: the server caches nothing and keeps no per-request state — the
/// wrapped result is a function of the request and the upstream outcome
/// alone, so two identical requests against a stable upstream produce
/// structurally identical payloads.
pub proof fn lemma_weather_idempotent(
    req1: WeatherRequestV,
    req2: WeatherRequestV,
    fetch1: WeatherFetchV,
    fetch2: WeatherFetchV,
)
    requires
        req1 == req2,
        fetch1 == fetch2,
    ensures
        spec_finish_weather(req1, fetch1) == spec_finish_weather(req2, fetch2),
{
}

/// Law: a request whose tool name is not registered is rejected with
/// `UnknownCapability`, and no handler is invoked — the planned step is
/// final and asks for no outbound call.
pub proof fn lemma_unknown_tool_rejected(
    caps: Seq<crate::registry::CapabilityV>,
    config: ServerConfigV,
    req: ToolCallRequestV,
)
    requires
        !crate::registry::spec_contains_name(caps, req.tool_name),
    ensures
        spec_plan(caps, config, req) == spec_fail_step(
            ErrorCode::UnknownCapability,
            "Unknown tool: "@ + req.tool_name,
        ),
{
    crate::registry::lemma_find_props(caps, req.tool_name);
    if crate::registry::spec_find(caps, req.tool_name) is Some {
        assert(crate::registry::spec_contains_name(caps, req.tool_name));
    }
}

/// Law: a payload that breaks the resolved capability's declared schema —
/// a required field missing, a value of the wrong shape, an enumerated
/// field outside its declared set — is rejected with `InvalidArguments`,
/// and no handler is invoked.
pub proof fn lemma_invalid_args_rejected(
    caps: Seq<crate::registry::CapabilityV>,
    config: ServerConfigV,
    req: ToolCallRequestV,
    cap: crate::registry::CapabilityV,
)
    requires
        crate::registry::spec_find(caps, req.tool_name) == Some(cap),
        !spec_conforms(cap.input_schema, req.arguments),
    ensures
        spec_plan(caps, config, req) == spec_fail_step(
            ErrorCode::InvalidArguments,
            "Invalid arguments"@,
        ),
{
}

/// Law, corollary: a payload that leaves a required field of the resolved
/// capability's schema unbound is rejected with `InvalidArguments`.
pub proof fn lemma_missing_required_field_rejected(
    caps: Seq<crate::registry::CapabilityV>,
    config: ServerConfigV,
    req: ToolCallRequestV,
    cap: crate::registry::CapabilityV,
    i: int,
)
    requires
        crate::registry::spec_find(caps, req.tool_name) == Some(cap),
        0 <= i < cap.input_schema.len(),
        cap.input_schema[i].required,
        spec_lookup(req.arguments, cap.input_schema[i].name) is None,
    ensures
        spec_plan(caps, config, req) == spec_fail_step(
            ErrorCode::InvalidArguments,
            "Invalid arguments"@,
        ),
{
    assert(!spec_field_ok(cap.input_schema[i], req.arguments));
    lemma_invalid_args_rejected(caps, config, req, cap);
}

/// Law, corollary: a payload that binds an enumerated field of the resolved
/// capability's schema to a string outside its declared set is rejected
/// with `InvalidArguments`.
pub proof fn lemma_enum_outside_set_rejected(
    caps: Seq<crate::registry::CapabilityV>,
    config: ServerConfigV,
    req: ToolCallRequestV,
    cap: crate::registry::CapabilityV,
    i: int,
    bound: Seq<char>,
)
    requires
        crate::registry::spec_find(caps, req.tool_name) == Some(cap),
        0 <= i < cap.input_schema.len(),
        cap.input_schema[i].allowed matches Some(set)
            && !crate::schema::spec_set_contains(set, bound),
        spec_lookup(req.arguments, cap.input_schema[i].name) == Some(ArgValueV::Str(bound)),
    ensures
        spec_plan(caps, config, req) == spec_fail_step(
            ErrorCode::InvalidArguments,
            "Invalid arguments"@,
        ),
{
    assert(!spec_field_ok(cap.input_schema[i], req.arguments));
    lemma_invalid_args_rejected(caps, config, req, cap);
}

/// Law: on a well-formed request — registered tool, conforming payload,
/// configured secret, non-empty location — planning always reaches the
/// outbound call: the handler is invoked exactly once with the decoded
/// request, and no failure is returned in its place.
pub proof fn lemma_valid_weather_call_dispatched(
    caps: Seq<crate::registry::CapabilityV>,
    config: ServerConfigV,
    req: ToolCallRequestV,
    cap: crate::registry::CapabilityV,
    key: Seq<char>,
)
    requires
        crate::registry::spec_find(caps, req.tool_name) == Some(cap),
        cap.tool == crate::registry::ToolId::Weather,
        spec_conforms(cap.input_schema, req.arguments),
        spec_weather_args_ok(req.arguments),
        config.weather_api_key == Some(key),
        spec_location_ok(
            spec_weather_request(req.arguments).city,
            spec_weather_request(req.arguments).country,
        ),
    ensures
        spec_plan(caps, config, req) == DispatchStepV::CallUpstream(
            UpstreamCallV::Weather {
                request: spec_weather_request(req.arguments),
                url: spec_weather_url(
                    spec_default_weather_endpoint(),
                    key,
                    spec_weather_request(req.arguments).city,
                    spec_weather_request(req.arguments).country,
                ),
            },
        ),
{
}

/// Law: the same, for the local-time capability.
pub proof fn lemma_valid_time_call_dispatched(
    caps: Seq<crate::registry::CapabilityV>,
    config: ServerConfigV,
    req: ToolCallRequestV,
    cap: crate::registry::CapabilityV,
    key: Seq<char>,
)
    requires
        crate::registry::spec_find(caps, req.tool_name) == Some(cap),
        cap.tool == crate::registry::ToolId::LocalTime,
        spec_conforms(cap.input_schema, req.arguments),
        spec_time_args_ok(req.arguments),
        config.geo_location_api_key == Some(key),
        spec_location_ok(
            spec_time_request(req.arguments).city,
            spec_time_request(req.arguments).country,
        ),
    ensures
        spec_plan(caps, config, req) == DispatchStepV::CallUpstream(
            UpstreamCallV::Time {
                request: spec_time_request(req.arguments),
                url: spec_time_url(
                    spec_default_time_endpoint(),
                    key,
                    spec_time_request(req.arguments).city,
                    spec_time_request(req.arguments).country,
                ),
            },
        ),
{
}

/// Build the registry this server starts with: its two capabilities, with
/// their negotiable descriptions and declared input schemas.
pub fn default_registry() -> (r: crate::registry::Registry)
    ensures
        r.wf(),
        r@.len() == 2,
        r@[0] == (crate::registry::CapabilityV {
            name: "get_weather"@,
            description: "Get weather data"@,
            input_schema: spec_weather_schema(),
            tool: crate::registry::ToolId::Weather,
        }),
        r@[1] == (crate::registry::CapabilityV {
            name: "get_local_time"@,
            description: "Get local time"@,
            input_schema: spec_time_schema(),
            tool: crate::registry::ToolId::LocalTime,
        }),
{
    let mut r = crate::registry::Registry::new();
    r.register(
        crate::registry::Capability {
            name: "get_weather".to_owned(),
            description: "Get weather data".to_owned(),
            input_schema: weather_schema(),
            tool: crate::registry::ToolId::Weather,
        },
    );
    proof {
        reveal_strlit("get_weather");
        reveal_strlit("get_local_time");
        assert("get_weather"@.len() == 11);
        assert("get_local_time"@.len() == 14);
    }
    r.register(
        crate::registry::Capability {
            name: "get_local_time".to_owned(),
            description: "Get local time".to_owned(),
            input_schema: time_schema(),
            tool: crate::registry::ToolId::LocalTime,
        },
    );
    r
}

} // verus!
