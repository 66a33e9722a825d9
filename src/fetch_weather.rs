use vstd::prelude::*;

verus! {

/// The part of a weather service answer that the manager reads.
#[derive(Debug, Clone)]
pub struct WeatherResponse {
    pub weather: Vec<Weather>,
    pub sys: Sys,
}

/// One reported weather condition.
#[derive(Debug, Clone)]
pub struct Weather {
    pub id: i32,
    pub main: String,
}

/// Sunrise and sunset of the current day, in seconds since the epoch.
#[derive(Debug, Clone, Copy)]
pub struct Sys {
    pub sunrise: i32,
    pub sunset: i32,
}

} // verus!
