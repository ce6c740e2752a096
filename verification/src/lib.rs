//! Driver core for the Sensirion SHT4x family of temperature and humidity
//! sensors.
//!
//! The crate holds everything about the sensor that can be decided without
//! touching a bus: the command table, the order of the steps of a
//! transaction, the checksum test and decoding of a response, and the
//! conversion of raw counts into degrees Celsius and percent relative
//! humidity. The caller performs the bus transfers and the waiting that the
//! drivers ask for, and hands the outcome back.

pub mod async_sht4x;
pub mod commands;
pub mod error;
pub mod fixed_point;
pub mod responses;
pub mod sht4x;
pub mod transaction;
pub mod types;

pub use crate::async_sht4x::AsyncSht4x;
pub use crate::commands::Command;
pub use crate::error::Error;
pub use crate::fixed_point::Fixed;
pub use crate::sht4x::Sht4x;
pub use crate::transaction::{Progress, Step};
pub use crate::types::{
    Address, HeatingDuration, HeatingPower, Measurement, Precision, SensorData,
};
