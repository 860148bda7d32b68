//! Core of a BMP280 weather station.
//!
//! - [`bmp280`] drives the sensor over a [`bus::Bus`]: the register map
//!   ([`registers`]), the decoding of register bytes ([`codec`]), the
//!   calibration profile ([`calibration`]) and the integer side of
//!   compensation ([`compensation`]).
//! - [`network_service`] holds the telemetry wire format and the protocol
//!   that serves one reading per inbound connection.
//! - [`wifi_service`] holds the state machine that keeps the wireless uplink
//!   associated.
//! - [`config`] reads the process configuration.
//!
//! The two services do no input or output of their own: the caller performs
//! the action it is handed and reports what came of it. The compensation
//! polynomials are double-precision arithmetic and are evaluated by the
//! caller; the library works on integers and bytes throughout.

pub mod bmp280;
pub mod bus;
pub mod calibration;
pub mod codec;
pub mod compensation;
pub mod config;
pub mod network_service;
pub mod registers;
pub mod wifi_service;
