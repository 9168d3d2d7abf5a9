//! A LoRa telemetry gateway library.
//!
//! - `packet`, `conversions`, `frame_laws`: the on-air frame codec and its laws.
//! - `json`, `mqtt`: what the broker receives for a frame, and on which topic.
//! - `defines`, `registers`: the SX1278 register map and every bit field the
//!   driver writes or reads.
//! - `bus_plan`, `sx1278`: the driver's register choreography as data, and the
//!   modem modelled as a register file that executes it.
//! - `config`, `post`, `radio`, `csv_writer`: configuration, the self-test
//!   verdicts, and the decisions of the radio, sensor and CSV workers.

pub mod bus_plan;
pub mod config;
pub mod conversions;
pub mod csv_writer;
pub mod defines;
pub mod frame_laws;
pub mod json;
pub mod mqtt;
pub mod packet;
pub mod post;
pub mod radio;
pub mod registers;
pub mod sx1278;
