//! Shapes of what the two outbound collaborators return, and the taxonomy of
//! the ways an outbound call can go wrong.
//!
//! The transport edge performs the HTTP call and parses the body into these
//! plain shapes; the verified completion functions in `dispatch` consume
//! them, so every possible outcome of a call is handled by verified code.

use vstd::prelude::*;

verus! {

/// Parsed body of a successful weather-service response.
pub struct WeatherResponse {
    pub current: CurrentWeather,
}

/// The `current` object of a weather-service response, fixed-point in tenths.
pub struct CurrentWeather {
    pub temp_c_tenths: i64,
    pub temp_f_tenths: i64,
    pub condition: WeatherCondition,
    pub humidity_tenths: i64,
}

/// The `condition` object of a weather-service response.
pub struct WeatherCondition {
    pub text: String,
}

/// Parsed body of a successful geolocation-service response.
pub struct TimeResponse {
    pub time_12: String,
    pub date: String,
}

/// Mathematical image of an upstream [`WeatherResponse`].
pub struct WeatherResponseV {
    pub current: CurrentWeatherV,
}

/// Mathematical image of a [`CurrentWeather`].
pub struct CurrentWeatherV {
    pub temp_c_tenths: i64,
    pub temp_f_tenths: i64,
    pub condition: Seq<char>,
    pub humidity_tenths: i64,
}

impl View for WeatherResponse {
    type V = WeatherResponseV;

    open spec fn view(&self) -> WeatherResponseV {
        WeatherResponseV {
            current: CurrentWeatherV {
                temp_c_tenths: self.current.temp_c_tenths,
                temp_f_tenths: self.current.temp_f_tenths,
                condition: self.current.condition.text@,
                humidity_tenths: self.current.humidity_tenths,
            },
        }
    }
}

/// Mathematical image of an upstream [`TimeResponse`].
pub struct TimeResponseV {
    pub time_12: Seq<char>,
    pub date: Seq<char>,
}

impl View for TimeResponse {
    type V = TimeResponseV;

    open spec fn view(&self) -> TimeResponseV {
        TimeResponseV { time_12: self.time_12@, date: self.date@ }
    }
}

/// Why an outbound collaborator call produced no usable body.
pub enum UpstreamError {
    /// The request never completed: connection failure, timeout, and the like.
    /// Carries the transport's own description.
    Network(String),
    /// The service answered with a non-success HTTP status.
    NonSuccessStatus(u16),
    /// The service answered success but the body could not be parsed.
    /// Carries the parser's own description.
    MalformedBody(String),
}

/// Mathematical image of an [`UpstreamError`].
pub enum UpstreamErrorV {
    Network(Seq<char>),
    NonSuccessStatus(u16),
    MalformedBody(Seq<char>),
}

impl View for UpstreamError {
    type V = UpstreamErrorV;

    open spec fn view(&self) -> UpstreamErrorV {
        match self {
            UpstreamError::Network(m) => UpstreamErrorV::Network(m@),
            UpstreamError::NonSuccessStatus(s) => UpstreamErrorV::NonSuccessStatus(*s),
            UpstreamError::MalformedBody(m) => UpstreamErrorV::MalformedBody(m@),
        }
    }
}

/// Outcome of the weather lookup, as handed in by the transport edge.
pub enum WeatherFetch {
    Fetched(WeatherResponse),
    Failed(UpstreamError),
}

/// Mathematical image of a [`WeatherFetch`].
pub enum WeatherFetchV {
    Fetched(WeatherResponseV),
    Failed(UpstreamErrorV),
}

impl View for WeatherFetch {
    type V = WeatherFetchV;

    open spec fn view(&self) -> WeatherFetchV {
        match self {
            WeatherFetch::Fetched(r) => WeatherFetchV::Fetched(r@),
            WeatherFetch::Failed(e) => WeatherFetchV::Failed(e@),
        }
    }
}

/// Outcome of the local-time lookup, as handed in by the transport edge.
pub enum TimeFetch {
    Fetched(TimeResponse),
    Failed(UpstreamError),
}

/// Mathematical image of a [`TimeFetch`].
pub enum TimeFetchV {
    Fetched(TimeResponseV),
    Failed(UpstreamErrorV),
}

impl View for TimeFetch {
    type V = TimeFetchV;

    open spec fn view(&self) -> TimeFetchV {
        match self {
            TimeFetch::Fetched(r) => TimeFetchV::Fetched(r@),
            TimeFetch::Failed(e) => TimeFetchV::Failed(e@),
        }
    }
}

} // verus!
