//! Current conditions and a short forecast for a city, read from the
//! responses of a weather-data provider and laid out as text.
pub mod datetime;
pub mod json;
pub mod report;
pub mod weather;
