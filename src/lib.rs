//! Driver logic for the ADS1015 / ADS1115 family of analog-to-digital
//! converters: the configuration-register codec, the bus transactions that
//! each driver operation performs, and the interpretation of raw readings.
//!
//! The library never touches the bus itself. Each operation hands out a
//! [`Transaction`]: the caller performs the [`BusAction`]s it asks for on a
//! real bus and feeds back what the bus answered.

pub mod chip_model;
pub mod driver;
pub mod error;
pub mod reading;
pub mod registers;
pub mod transaction;

pub use driver::QwiicADC;
pub use error::AdcError;
pub use reading::{DeviceModel, Millivolts, QwiicADCConfig};
pub use registers::{
    Addresses, Clat, Cmode, Cpol, Cque, Modes, Mux, Pointers, SampleRates, OS, PGA,
};
pub use transaction::{BusAction, Op, Transaction};
