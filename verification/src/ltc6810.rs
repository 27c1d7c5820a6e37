//! Register-payload builders specific to the LTC6810 variant.

pub mod config;
pub mod pwm;
