//! Decisions of the radio and sensor workers: where a received frame goes,
//! and which frames they build to send.

use crate::config::Mode;
use crate::csv_writer::CSVPacketWrapper;
use crate::mqtt::MQTTMessage;
use crate::packet::{decode_spec, DataType, Data, DecodeError, Metadata, Packet, PacketView,
    PacketWrapper, BME280};
use vstd::prelude::*;

verus! {

/// Where one received frame goes.
pub struct Reception {
    /// The record for the broker queue, if any.
    pub broker: Option<MQTTMessage>,
    /// The row for the range-test log, if any.
    pub csv: Option<CSVPacketWrapper>,
}

/// What a receiver does with the bytes of one reception. A range-testing
/// receiver logs every reception: a CRC failure as a `CRC_ERROR` row whether
/// or not its bytes decode, any other reception as its frame. Otherwise a
/// frame that does not decode is dropped with its error, and a receiver in
/// `RX` role hands a decoded frame with its link metadata to the broker when
/// the broker is enabled and the CRC held.
pub fn on_reception(
    mode: Mode,
    bytes: &[u8],
    crc_error: bool,
    snr: u8,
    rssi: i16,
    broker_enabled: bool,
) -> (r: Result<Reception, DecodeError>)
    ensures
        mode == Mode::RX_RANGE_TEST && crc_error ==> (r matches Ok(rec) && rec.broker is None
            && rec.csv matches Some(CSVPacketWrapper::CRC_ERROR)),
        !(mode == Mode::RX_RANGE_TEST && crc_error) ==> match decode_spec(bytes@) {
            Err(e) => r == Err::<Reception, DecodeError>(e),
            Ok(v) => r matches Ok(rec) && {
                &&& (mode == Mode::RX && broker_enabled && !crc_error) <==> rec.broker is Some
                &&& rec.broker matches Some(m) ==> (m matches MQTTMessage::PacketWrapper(w)
                    && w.packet@ == v && w.metadata == (Metadata { snr, rssi }))
                &&& (mode == Mode::RX_RANGE_TEST) <==> rec.csv is Some
                &&& rec.csv matches Some(c) ==> (c matches CSVPacketWrapper::Packet(p) && p@
                    == v)
            },
        },
{
    if mode == Mode::RX_RANGE_TEST && crc_error {
        return Ok(Reception { broker: None, csv: Some(CSVPacketWrapper::CRC_ERROR) });
    }
    let packet = match Packet::new(bytes) {
        Ok(p) => p,
        Err(e) => return Err(e),
    };
    let mut rec = Reception { broker: None, csv: None };
    if mode == Mode::RX {
        if broker_enabled && !crc_error {
            rec.broker = Some(
                MQTTMessage::PacketWrapper(
                    PacketWrapper { packet, metadata: Metadata { snr, rssi } },
                ),
            );
        }
    } else if mode == Mode::RX_RANGE_TEST {
        rec.csv = Some(CSVPacketWrapper::Packet(packet));
    }
    Ok(rec)
}

/// The frame a transmitter sends during bring-up: device 255, a BME280
/// reading of -3.2 °C, 45.6 %RH and 996.6 hPa in compressed units.
pub open spec fn bring_up_frame_spec() -> PacketView {
    Packet {
        version: 0x33,
        id: 255,
        msg_id: 0x11,
        msg_count: 0x00,
        data_type: DataType::BME280,
        data: Data::Bme280(BME280 { temperature: 250, humidity: 46, pressure: 253 }),
    }@
}

pub fn bring_up_frame() -> (r: Packet)
    ensures
        r@ == bring_up_frame_spec(),
{
    Packet {
        version: 0x33,
        id: 255,
        msg_id: 0x11,
        msg_count: 0x00,
        data_type: DataType::BME280,
        data: Data::Bme280(BME280 { temperature: 250, humidity: 46, pressure: 253 }),
    }
}

/// The frame the sensor worker publishes for one reading.
pub fn sensor_frame(device_id: u8, reading: BME280) -> (r: Packet)
    ensures
        r@ == (Packet {
            version: 0,
            id: device_id,
            msg_id: 0,
            msg_count: 0,
            data_type: DataType::BME280,
            data: Data::Bme280(reading),
        })@,
{
    Packet {
        version: 0,
        id: device_id,
        msg_id: 0,
        msg_count: 0,
        data_type: DataType::BME280,
        data: Data::Bme280(reading),
    }
}

} // verus!
