//! Register-level driver core for the Sinilink XY family of programmable
//! power supplies, speaking Modbus RTU over a half-duplex serial link.
//!
//! The crate is organised bottom-up:
//! * [`codec`] builds and parses Modbus RTU frames, CRC included;
//! * [`transport`] is the byte-channel interface the engine consumes;
//! * [`buffer`] is the fixed-capacity accumulation buffer for responses;
//! * [`register`] names the device's holding registers and small domain types;
//! * [`scaling`] converts raw register integers to and from physical units;
//! * [`preset`] lays out the per-group preset/protection register blocks;
//! * [`psu`] composes everything into the device facade;
//! * [`mock_serial`] is an in-memory transport for exercising the engine.

pub mod buffer;
pub mod codec;
pub mod error;
pub mod mock_serial;
pub mod preset;
pub mod psu;
pub mod register;
pub mod scaling;
pub mod transport;
