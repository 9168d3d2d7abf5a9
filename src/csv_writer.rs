//! The range-test log: what the radio worker hands the CSV worker, and the
//! names and parameters of the file it writes.

use crate::config::{LoRaConfig, Mode, RadioConfig};
use crate::json::{append_data_text, append_decimal, data_text, decimal, decimal_string};
use crate::packet::{DataType, Packet};
use vstd::prelude::*;
use vstd::string::StringExecFns;

verus! {

/// One row's subject: a frame, or the news that a frame failed its CRC.
#[allow(non_camel_case_types)]
#[derive(Debug)]
pub enum CSVPacketWrapper {
    Packet(Packet),
    CRC_ERROR,
}

/// Where and with which radio parameters range-test rows are logged.
pub struct CSVWriter {
    radio_config: RadioConfig,
    mode: Mode,
    path: String,
}

/// The name a role has in file names and logs.
pub open spec fn mode_name(m: Mode) -> Seq<char> {
    match m {
        Mode::RX => "RX"@,
        Mode::TX => "TX"@,
        Mode::RX_RANGE_TEST => "RX_RANGE_TEST"@,
        Mode::TX_RANGE_TEST => "TX_RANGE_TEST"@,
    }
}

/// The directory range-test logs go to.
pub open spec fn csv_directory() -> Seq<char> {
    "/home/debian/rusty-beagle-csv/"@
}

pub fn mode_name_str(m: Mode) -> (r: &'static str)
    ensures
        r@ == mode_name(m),
{
    match m {
        Mode::RX => "RX",
        Mode::TX => "TX",
        Mode::RX_RANGE_TEST => "RX_RANGE_TEST",
        Mode::TX_RANGE_TEST => "TX_RANGE_TEST",
    }
}

impl CSVWriter {
    pub fn new(lora_config: &LoRaConfig) -> (r: Self)
        ensures
            r.radio_config() == lora_config.radio_config,
            r.mode() == lora_config.mode,
            r.path()@ == csv_directory(),
    {
        CSVWriter {
            radio_config: lora_config.radio_config,
            mode: lora_config.mode,
            path: "/home/debian/rusty-beagle-csv/".to_owned(),
        }
    }

    pub closed spec fn radio_config(&self) -> RadioConfig {
        self.radio_config
    }

    pub closed spec fn mode(&self) -> Mode {
        self.mode
    }

    pub closed spec fn path(&self) -> String {
        self.path
    }

    /// The radio parameters written beside each row.
    pub fn get_radio_config(&self) -> (r: RadioConfig)
        ensures
            r == self.radio_config(),
    {
        self.radio_config
    }

    /// The directory the log file goes to.
    pub fn get_path(&self) -> (r: &String)
        ensures
            r@ == self.path()@,
    {
        &self.path
    }

    /// The log file's name for a run started at `timestamp`
    /// (`YYYYMMDDhhmmss`): `<timestamp>-<frequency in Hz>-<role>.csv`.
    pub fn file_name(&self, timestamp: &str) -> (r: String)
        ensures
            r@ == timestamp@ + "-"@ + decimal(self.radio_config().frequency as nat) + "-"@
                + mode_name(self.mode()) + ".csv"@,
    {
        let mut s = String::new();
        s.append(timestamp);
        s.append("-");
        let frequency = decimal_string(self.radio_config.frequency as u128);
        s.append(frequency.as_str());
        s.append("-");
        s.append(mode_name_str(self.mode));
        s.append(".csv");
        s
    }
}

/// The name a log shows for a payload variant.
pub open spec fn data_type_name(t: DataType) -> Seq<char> {
    match t {
        DataType::BME280 => "BME280"@,
        DataType::BMA400 => "BMA400"@,
        DataType::MQ2 => "MQ2"@,
        DataType::Gps => "Gps"@,
        DataType::Sms => "Sms"@,
    }
}

fn data_type_name_str(t: DataType) -> (r: &'static str)
    ensures
        r@ == data_type_name(t),
{
    match t {
        DataType::BME280 => "BME280",
        DataType::BMA400 => "BMA400",
        DataType::MQ2 => "MQ2",
        DataType::Gps => "Gps",
        DataType::Sms => "Sms",
    }
}

/// The Packet cell of a log row: the frame with its header fields and
/// payload text, or `CRC_ERROR`.
pub open spec fn csv_cell(c: CSVPacketWrapper) -> Seq<char> {
    match c {
        CSVPacketWrapper::CRC_ERROR => "CRC_ERROR"@,
        CSVPacketWrapper::Packet(p) => "Packet(Packet { version: "@ + decimal(p.version as nat)
            + ", id: "@ + decimal(p.id as nat) + ", msg_id: "@ + decimal(p.msg_id as nat)
            + ", msg_count: "@ + decimal(p.msg_count as nat) + ", data_type: "@
            + data_type_name(p.data_type) + ", data: "@ + data_text(p.data@) + " })"@,
    }
}

impl CSVPacketWrapper {
    /// The Packet cell of this row.
    pub fn cell(&self) -> (r: String)
        ensures
            r@ == csv_cell(*self),
    {
        let mut s = String::new();
        match self {
            CSVPacketWrapper::CRC_ERROR => {
                s.append("CRC_ERROR");
            },
            CSVPacketWrapper::Packet(p) => {
                s.append("Packet(Packet { version: ");
                append_decimal(&mut s, p.version as u128);
                s.append(", id: ");
                append_decimal(&mut s, p.id as u128);
                s.append(", msg_id: ");
                append_decimal(&mut s, p.msg_id as u128);
                s.append(", msg_count: ");
                append_decimal(&mut s, p.msg_count as u128);
                s.append(", data_type: ");
                s.append(data_type_name_str(p.data_type));
                s.append(", data: ");
                append_data_text(&mut s, &p.data);
                s.append(" })");
            },
        }
        assert(s@ =~= csv_cell(*self));
        s
    }
}

} // verus!
