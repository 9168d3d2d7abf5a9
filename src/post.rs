//! The power-on self-test's verdicts, and which workers start from them.

use crate::config::{Config, Mode};
use vstd::prelude::*;

verus! {

/// Which subsystems passed the self-test.
#[derive(Debug, Clone, Copy, PartialEq, Eq, Structural)]
pub struct ModulesState {
    pub lora: bool,
    pub mqtt: bool,
    pub bme280: bool,
}

/// Why the modem failed its self-test.
#[derive(Debug, Clone, Copy, PartialEq, Eq, Structural)]
pub enum PostError {
    /// `OP_MODE` read as 0: nothing answers on the SPI bus.
    SpiUnavailable,
    /// `OP_MODE` did not return to its reset value: the reset line does not reach the chip.
    GpioUnavailable,
}

/// `OP_MODE` of the chip right after a reset (LoRa off, standby, low-frequency mode).
pub const RESET_OP_MODE: u8 = 9;

/// The modem's verdict from two reads of `OP_MODE`: one before anything is
/// done, one after standby and a reset.
pub fn lora_post_verdict(first_read: u8, after_reset: u8) -> (r: Result<(), PostError>)
    ensures
        r == (if first_read == 0 || after_reset == 0 {
            Err::<(), PostError>(PostError::SpiUnavailable)
        } else if after_reset != RESET_OP_MODE {
            Err::<(), PostError>(PostError::GpioUnavailable)
        } else {
            Ok::<(), PostError>(())
        }),
{
    if first_read == 0 || after_reset == 0 {
        Err(PostError::SpiUnavailable)
    } else if after_reset != RESET_OP_MODE {
        Err(PostError::GpioUnavailable)
    } else {
        Ok(())
    }
}

/// The self-test result: a subsystem is healthy when its section is present
/// and its probe passed (the probe's result counts only for a present section).
pub fn post_result(config: &Config, lora_ok: bool, mqtt_ok: bool, bme280_ok: bool) -> (r:
    ModulesState)
    ensures
        r.lora == (config.lora_config is Some && lora_ok),
        r.mqtt == (config.mqtt_config is Some && mqtt_ok),
        r.bme280 == (config.bme_config is Some && bme280_ok),
{
    ModulesState {
        lora: config.lora_config.is_some() && lora_ok,
        mqtt: config.mqtt_config.is_some() && mqtt_ok,
        bme280: config.bme_config.is_some() && bme280_ok,
    }
}

/// The workers the orchestrator starts.
#[derive(Debug, Clone, Copy, PartialEq, Eq, Structural)]
pub struct WorkerPlan {
    pub broker: bool,
    pub sensor: bool,
    pub radio: bool,
    pub csv: bool,
}

/// A worker starts when its subsystem passed the self-test and its section
/// enables it; the CSV worker runs beside a range-testing radio.
pub fn plan_workers(config: &Config, state: &ModulesState) -> (r: WorkerPlan)
    ensures
        r.broker == (config.mqtt_config matches Some(m) && m.enabled && state.mqtt),
        r.sensor == (config.bme_config matches Some(b) && b.enabled && state.bme280),
        r.radio == (config.lora_config is Some && state.lora),
        r.csv == (config.lora_config matches Some(l) && state.lora && (l.mode == Mode::RX_RANGE_TEST
            || l.mode == Mode::TX_RANGE_TEST)),
{
    let broker = match &config.mqtt_config {
        Some(m) => m.enabled && state.mqtt,
        None => false,
    };
    let sensor = match &config.bme_config {
        Some(b) => b.enabled && state.bme280,
        None => false,
    };
    let (radio, csv) = match &config.lora_config {
        Some(l) => (
            state.lora,
            state.lora && (l.mode == Mode::RX_RANGE_TEST || l.mode == Mode::TX_RANGE_TEST),
        ),
        None => (false, false),
    };
    WorkerPlan { broker, sensor, radio, csv }
}

} // verus!
