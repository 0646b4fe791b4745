//! Typed request and response shapes of the two capabilities.
//!
//! Handlers only ever see these types; the dispatcher alone crosses the
//! untyped-to-typed boundary. Temperatures and humidity travel through the
//! protocol layer as fixed-point integers in tenths of a unit, so that the
//! layer itself never computes with machine floating point; the transport
//! edge renders them as decimal numbers.

use vstd::prelude::*;

verus! {

/// Temperature unit of a weather request, an enumerated field.
#[derive(Clone, Copy, PartialEq, Eq, Structural, Debug)]
pub enum TempUnit {
    C,
    F,
}

impl TempUnit {
    /// The single-letter spelling used on the wire ("C" or "F").
    pub fn letter(&self) -> (r: &'static str)
        ensures
            *self == TempUnit::C ==> r@ == "C"@,
            *self == TempUnit::F ==> r@ == "F"@,
    {
        match self {
            TempUnit::C => "C",
            TempUnit::F => "F",
        }
    }
}

/// The unit a weather request uses when the field is omitted.
pub fn default_temperature_unit() -> (u: TempUnit)
    ensures
        u == TempUnit::C,
{
    TempUnit::C
}

/// Decoded input of the `get_weather` capability.
pub struct WeatherRequest {
    pub city: String,
    pub country: String,
    pub unit: TempUnit,
}

/// Mathematical image of a [`WeatherRequest`].
pub struct WeatherRequestV {
    pub city: Seq<char>,
    pub country: Seq<char>,
    pub unit: TempUnit,
}

impl View for WeatherRequest {
    type V = WeatherRequestV;

    open spec fn view(&self) -> WeatherRequestV {
        WeatherRequestV { city: self.city@, country: self.country@, unit: self.unit }
    }
}

impl Clone for WeatherRequest {
    fn clone(&self) -> (res: Self)
        ensures
            res == *self,
    {
        WeatherRequest { city: self.city.clone(), country: self.country.clone(), unit: self.unit }
    }
}

/// Decoded input of the `get_local_time` capability.
pub struct TimeRequest {
    pub city: String,
    pub country: String,
}

/// Mathematical image of a [`TimeRequest`].
pub struct TimeRequestV {
    pub city: Seq<char>,
    pub country: Seq<char>,
}

impl View for TimeRequest {
    type V = TimeRequestV;

    open spec fn view(&self) -> TimeRequestV {
        TimeRequestV { city: self.city@, country: self.country@ }
    }
}

impl Clone for TimeRequest {
    fn clone(&self) -> (res: Self)
        ensures
            res == *self,
    {
        TimeRequest { city: self.city.clone(), country: self.country.clone() }
    }
}

/// Typed output of the `get_weather` capability.
pub struct WeatherResponse {
    pub city: String,
    pub country: String,
    pub unit: TempUnit,
    /// Temperature in tenths of a degree, in the requested unit.
    pub temperature_tenths: i64,
    pub conditions: String,
    /// Relative humidity in tenths of a percent.
    pub humidity_tenths: i64,
}

/// Mathematical image of a [`WeatherResponse`].
pub struct WeatherResponseV {
    pub city: Seq<char>,
    pub country: Seq<char>,
    pub unit: TempUnit,
    pub temperature_tenths: i64,
    pub conditions: Seq<char>,
    pub humidity_tenths: i64,
}

impl View for WeatherResponse {
    type V = WeatherResponseV;

    open spec fn view(&self) -> WeatherResponseV {
        WeatherResponseV {
            city: self.city@,
            country: self.country@,
            unit: self.unit,
            temperature_tenths: self.temperature_tenths,
            conditions: self.conditions@,
            humidity_tenths: self.humidity_tenths,
        }
    }
}

impl Clone for WeatherResponse {
    fn clone(&self) -> (res: Self)
        ensures
            res == *self,
    {
        WeatherResponse {
            city: self.city.clone(),
            country: self.country.clone(),
            unit: self.unit,
            temperature_tenths: self.temperature_tenths,
            conditions: self.conditions.clone(),
            humidity_tenths: self.humidity_tenths,
        }
    }
}

/// Typed output of the `get_local_time` capability.
pub struct TimeResponse {
    pub city: String,
    pub country: String,
    pub local_time: String,
    pub date: String,
}

/// Mathematical image of a [`TimeResponse`].
pub struct TimeResponseV {
    pub city: Seq<char>,
    pub country: Seq<char>,
    pub local_time: Seq<char>,
    pub date: Seq<char>,
}

impl View for TimeResponse {
    type V = TimeResponseV;

    open spec fn view(&self) -> TimeResponseV {
        TimeResponseV {
            city: self.city@,
            country: self.country@,
            local_time: self.local_time@,
            date: self.date@,
        }
    }
}

impl Clone for TimeResponse {
    fn clone(&self) -> (res: Self)
        ensures
            res == *self,
    {
        TimeResponse {
            city: self.city.clone(),
            country: self.country.clone(),
            local_time: self.local_time.clone(),
            date: self.date.clone(),
        }
    }
}

} // verus!
