//! Driver core for the LTC681X family of multi-cell battery monitors on a
//! daisy-chained serial bus.
//!
//! The protocol engine lives in [`monitor`]: command framing, checksum
//! verification, chip-select sequencing, multi-device response handling and
//! completion polling. The packet-error-code itself is in [`pec15`], command
//! framing in [`framer`]. The bus and the chip-select pin are caller-supplied
//! collaborators behind the traits in [`bus`]; [`sim`] holds scripted
//! in-memory implementations of them. Register-payload builders for the
//! LTC6810 variant are under [`ltc6810`], with their selector types in
//! [`config`] and [`pwm`].

// Re-exported so that unverified adapters can write out the signatures of
// the collaborator traits' specification-only observers.
pub use vstd::prelude::Seq;

pub mod bus;
pub mod config;
pub mod framer;
pub mod ltc6810;
pub mod monitor;
pub mod pec15;
pub mod pwm;
pub mod sim;
