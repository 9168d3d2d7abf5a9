//! The on-air telemetry frame: a five-byte header followed by a payload whose
//! layout is chosen by the `data_type` byte.

use crate::conversions::{vec_to_i32, vec_to_u128, vec_to_u16, vec_to_u64};
use vstd::bytes::*;
use vstd::prelude::*;
use vstd::utf8::*;

verus! {

broadcast use vstd::utf8::group_utf8_lib;

pub const DATA_SIZE: usize = 59;

pub const META_DATA_SIZE: usize = 5;

pub const PACKET_SIZE: usize = DATA_SIZE + META_DATA_SIZE;

pub const PACKET_VERSION_IDX: usize = 0;

pub const PACKET_ID_IDX: usize = 1;

pub const PACKET_MSG_ID_IDX: usize = 2;

pub const PACKET_MSG_COUNT_IDX: usize = 3;

pub const PACKET_DATA_TYPE_IDX: usize = 4;

/// Why a byte string is not a frame.
#[derive(Debug, Clone, Copy, PartialEq, Eq, Structural)]
pub enum DecodeError {
    /// Fewer than the five header bytes.
    ShortHeader,
    /// The `data_type` byte names no payload variant.
    UnknownTag(u8),
    /// The total length is not the one the tag requires (or exceeds the frame limit).
    LengthMismatch { expected: usize, actual: usize },
    /// The text of an SMS frame is not UTF-8.
    BadUtf8InSms,
}

/// Why an in-memory frame cannot be put on the air.
#[derive(Debug, Clone, Copy, PartialEq, Eq, Structural)]
pub enum EncodeError {
    /// `data_type` does not name the variant held in `data`.
    TagMismatch,
    /// The SMS text, `payload_len` bytes long, would make a frame shorter
    /// than 6 or longer than 64 bytes.
    BadLength { payload_len: usize },
}

/// The payload variant, carried on the wire as the byte `tag_of(t)`.
#[derive(Debug, Clone, Copy, PartialEq, Eq, Structural, Hash)]
pub enum DataType {
    BME280,
    BMA400,
    MQ2,
    Gps,
    Sms,
}

pub open spec fn tag_of(t: DataType) -> u8 {
    match t {
        DataType::BME280 => 1,
        DataType::BMA400 => 2,
        DataType::MQ2 => 3,
        DataType::Gps => 4,
        DataType::Sms => 32,
    }
}

pub open spec fn data_type_from_tag(byte: u8) -> Option<DataType> {
    if byte == 1 {
        Some(DataType::BME280)
    } else if byte == 2 {
        Some(DataType::BMA400)
    } else if byte == 3 {
        Some(DataType::MQ2)
    } else if byte == 4 {
        Some(DataType::Gps)
    } else if byte == 32 {
        Some(DataType::Sms)
    } else {
        None
    }
}

impl DataType {
    /// The variant that `byte` names, or `UnknownTag`.
    pub fn new(byte: u8) -> (r: Result<Self, DecodeError>)
        ensures
            match data_type_from_tag(byte) {
                Some(t) => r == Ok::<DataType, DecodeError>(t),
                None => r == Err::<DataType, DecodeError>(DecodeError::UnknownTag(byte)),
            },
    {
        match byte {
            1 => Ok(DataType::BME280),
            2 => Ok(DataType::BMA400),
            3 => Ok(DataType::MQ2),
            4 => Ok(DataType::Gps),
            32 => Ok(DataType::Sms),
            _ => Err(DecodeError::UnknownTag(byte)),
        }
    }

    /// The wire byte of this variant.
    pub fn tag(&self) -> (r: u8)
        ensures
            r == tag_of(*self),
    {
        match self {
            DataType::BME280 => 1,
            DataType::BMA400 => 2,
            DataType::MQ2 => 3,
            DataType::Gps => 4,
            DataType::Sms => 32,
        }
    }
}

/// Compressed weather reading: temperature in half degrees Celsius,
/// relative humidity in percent, pressure in hPa above 1000.
#[derive(Debug, Clone, Copy, PartialEq, Eq, Structural, Hash)]
pub struct BME280 {
    pub temperature: u8,
    pub humidity: u8,
    pub pressure: u8,
}

#[derive(Debug, Clone, Copy, PartialEq, Eq, Structural, Hash)]
pub struct BMA400 {
    pub x: u64,
    pub y: u64,
    pub z: u64,
}

#[derive(Debug, Clone, Copy, PartialEq, Eq, Structural, Hash)]
pub struct MQ2 {
    pub gas_type: u8,
    pub value: u128,
}

#[derive(Debug, Clone, Copy, PartialEq, Eq, Structural, Hash)]
pub struct Gps {
    pub status: u8,
    pub altitude: u16,
    pub latitude: i32,
    pub longitude: i32,
}

#[derive(Debug, Clone, PartialEq, Eq, Hash)]
pub enum Data {
    Bme280(BME280),
    Bma400(BMA400),
    Mq2(MQ2),
    Gps(Gps),
    Sms(String),
}

/// A payload as a mathematical value: the SMS text is its sequence of characters.
pub ghost enum DataView {
    Bme280(BME280),
    Bma400(BMA400),
    Mq2(MQ2),
    Gps(Gps),
    Sms(Seq<char>),
}

impl View for Data {
    type V = DataView;

    open spec fn view(&self) -> DataView {
        match self {
            Data::Bme280(d) => DataView::Bme280(*d),
            Data::Bma400(d) => DataView::Bma400(*d),
            Data::Mq2(d) => DataView::Mq2(*d),
            Data::Gps(d) => DataView::Gps(*d),
            Data::Sms(s) => DataView::Sms(s@),
        }
    }
}

#[derive(Debug, Clone, PartialEq, Eq, Hash)]
pub struct Packet {
    pub version: u8,
    pub id: u8,
    pub msg_id: u8,
    pub msg_count: u8,
    pub data_type: DataType,
    pub data: Data,
}

pub ghost struct PacketView {
    pub version: u8,
    pub id: u8,
    pub msg_id: u8,
    pub msg_count: u8,
    pub data_type: DataType,
    pub data: DataView,
}

impl View for Packet {
    type V = PacketView;

    open spec fn view(&self) -> PacketView {
        PacketView {
            version: self.version,
            id: self.id,
            msg_id: self.msg_id,
            msg_count: self.msg_count,
            data_type: self.data_type,
            data: self.data@,
        }
    }
}

/// The variant a payload belongs to.
pub open spec fn data_type_of(d: DataView) -> DataType {
    match d {
        DataView::Bme280(_) => DataType::BME280,
        DataView::Bma400(_) => DataType::BMA400,
        DataView::Mq2(_) => DataType::MQ2,
        DataView::Gps(_) => DataType::Gps,
        DataView::Sms(_) => DataType::Sms,
    }
}

/// The frame length a tag requires; for SMS, the shortest frame allowed.
pub open spec fn required_len(t: DataType) -> nat {
    match t {
        DataType::BME280 => 8,
        DataType::BMA400 => 29,
        DataType::MQ2 => 22,
        DataType::Gps => 16,
        DataType::Sms => 6,
    }
}

/// Whether a frame of `n` bytes has the length that tag `t` asks for.
pub open spec fn length_fits(t: DataType, n: nat) -> bool {
    if t == DataType::Sms {
        6 <= n <= 64
    } else {
        n == required_len(t)
    }
}

/// The payload bytes of a frame, little-endian where wider than a byte.
pub open spec fn payload_bytes(d: DataView) -> Seq<u8> {
    match d {
        DataView::Bme280(b) => seq![b.temperature, b.humidity, b.pressure],
        DataView::Bma400(b) => spec_u64_to_le_bytes(b.x) + spec_u64_to_le_bytes(b.y)
            + spec_u64_to_le_bytes(b.z),
        DataView::Mq2(m) => seq![m.gas_type] + spec_u128_to_le_bytes(m.value),
        DataView::Gps(g) => seq![g.status] + spec_u16_to_le_bytes(g.altitude)
            + spec_u32_to_le_bytes(g.latitude as u32) + spec_u32_to_le_bytes(g.longitude as u32),
        DataView::Sms(s) => encode_utf8(s),
    }
}

/// The bytes that go on the air for frame `p`.
pub open spec fn encode_spec(p: PacketView) -> Seq<u8> {
    seq![p.version, p.id, p.msg_id, p.msg_count, tag_of(p.data_type)] + payload_bytes(p.data)
}

/// A frame that can go on the air: its tag names its payload, and its length
/// is within the frame limit (an SMS carries at least one byte of text).
pub open spec fn well_formed(p: PacketView) -> bool {
    &&& p.data_type == data_type_of(p.data)
    &&& length_fits(p.data_type, encode_spec(p).len())
}

/// The payload read from a frame `b` whose tag is `t` and whose length fits.
pub open spec fn payload_view(t: DataType, b: Seq<u8>) -> DataView {
    match t {
        DataType::BME280 => DataView::Bme280(
            BME280 { temperature: b[5], humidity: b[6], pressure: b[7] },
        ),
        DataType::BMA400 => DataView::Bma400(
            BMA400 {
                x: spec_u64_from_le_bytes(b.subrange(5, 13)),
                y: spec_u64_from_le_bytes(b.subrange(13, 21)),
                z: spec_u64_from_le_bytes(b.subrange(21, 29)),
            },
        ),
        DataType::MQ2 => DataView::Mq2(
            MQ2 { gas_type: b[5], value: spec_u128_from_le_bytes(b.subrange(6, 22)) },
        ),
        DataType::Gps => DataView::Gps(
            Gps {
                status: b[5],
                altitude: spec_u16_from_le_bytes(b.subrange(6, 8)),
                latitude: spec_u32_from_le_bytes(b.subrange(8, 12)) as i32,
                longitude: spec_u32_from_le_bytes(b.subrange(12, 16)) as i32,
            },
        ),
        DataType::Sms => DataView::Sms(decode_utf8(b.subrange(5, b.len() as int))),
    }
}

/// What decoding `b` gives: the frame, or the first rule it breaks, checked in
/// this order: header present, total length at most 64, known tag, the tag's
/// length, UTF-8 text.
pub open spec fn decode_spec(b: Seq<u8>) -> Result<PacketView, DecodeError> {
    if b.len() < 5 {
        Err(DecodeError::ShortHeader)
    } else if b.len() > 64 {
        Err(DecodeError::LengthMismatch { expected: 64, actual: b.len() as usize })
    } else {
        match data_type_from_tag(b[4]) {
            None => Err(DecodeError::UnknownTag(b[4])),
            Some(t) => if !length_fits(t, b.len()) {
                Err(
                    DecodeError::LengthMismatch {
                        expected: required_len(t) as usize,
                        actual: b.len() as usize,
                    },
                )
            } else if t == DataType::Sms && !valid_utf8(b.subrange(5, b.len() as int)) {
                Err(DecodeError::BadUtf8InSms)
            } else {
                Ok(
                    PacketView {
                        version: b[0],
                        id: b[1],
                        msg_id: b[2],
                        msg_count: b[3],
                        data_type: t,
                        data: payload_view(t, b),
                    },
                )
            },
        }
    }
}

/// Relies on String::from_utf8: it succeeds exactly on valid UTF-8 and then
/// holds the decoded characters.
#[verifier::external_body]
fn string_from_utf8(bytes: Vec<u8>) -> (r: Option<String>)
    ensures
        r is Some <==> valid_utf8(bytes@),
        r matches Some(s) ==> s@ == decode_utf8(bytes@),
{
    String::from_utf8(bytes).ok()
}

/// Appends `src` to `dst`.
fn push_all(dst: &mut Vec<u8>, src: &[u8])
    ensures
        final(dst)@ == old(dst)@ + src@,
{
    let n = src.len();
    let mut i: usize = 0;
    while i < n
        invariant
            n == src@.len(),
            i <= n,
            dst@ == old(dst)@ + src@.subrange(0, i as int),
        decreases n - i,
    {
        dst.push(src[i]);
        i = i + 1;
        assert(src@.subrange(0, i as int) == src@.subrange(0, i - 1) + seq![src@[i - 1]]);
    }
    assert(src@.subrange(0, n as int) == src@);
}

impl Data {
    /// Decodes the payload of the frame `bytes` (header included).
    pub fn from_bytes(bytes: &[u8]) -> (r: Result<Self, DecodeError>)
        ensures
            match r {
                Ok(d) => decode_spec(bytes@) matches Ok(v) && v.data == d@,
                Err(e) => decode_spec(bytes@) == Err::<PacketView, DecodeError>(e),
            },
    {
        let n = bytes.len();
        if n < META_DATA_SIZE {
            return Err(DecodeError::ShortHeader);
        }
        if n > PACKET_SIZE {
            return Err(DecodeError::LengthMismatch { expected: PACKET_SIZE, actual: n });
        }
        let data_type = match DataType::new(bytes[PACKET_DATA_TYPE_IDX]) {
            Ok(t) => t,
            Err(e) => return Err(e),
        };
        match data_type {
            DataType::BME280 => {
                if n != 8 {
                    return Err(DecodeError::LengthMismatch { expected: 8, actual: n });
                }
                Ok(
                    Data::Bme280(
                        BME280 {
                            temperature: bytes[META_DATA_SIZE],
                            humidity: bytes[META_DATA_SIZE + 1],
                            pressure: bytes[META_DATA_SIZE + 2],
                        },
                    ),
                )
            },
            DataType::BMA400 => {
                if n != 29 {
                    return Err(DecodeError::LengthMismatch { expected: 29, actual: n });
                }
                Ok(
                    Data::Bma400(
                        BMA400 {
                            x: vec_to_u64(bytes, META_DATA_SIZE),
                            y: vec_to_u64(bytes, META_DATA_SIZE + 8),
                            z: vec_to_u64(bytes, META_DATA_SIZE + 16),
                        },
                    ),
                )
            },
            DataType::MQ2 => {
                if n != 22 {
                    return Err(DecodeError::LengthMismatch { expected: 22, actual: n });
                }
                Ok(
                    Data::Mq2(
                        MQ2 {
                            gas_type: bytes[META_DATA_SIZE],
                            value: vec_to_u128(bytes, META_DATA_SIZE + 1),
                        },
                    ),
                )
            },
            DataType::Gps => {
                if n != 16 {
                    return Err(DecodeError::LengthMismatch { expected: 16, actual: n });
                }
                Ok(
                    Data::Gps(
                        Gps {
                            status: bytes[META_DATA_SIZE],
                            altitude: vec_to_u16(bytes, META_DATA_SIZE + 1),
                            latitude: vec_to_i32(bytes, META_DATA_SIZE + 3),
                            longitude: vec_to_i32(bytes, META_DATA_SIZE + 7),
                        },
                    ),
                )
            },
            DataType::Sms => {
                if n < 6 {
                    return Err(DecodeError::LengthMismatch { expected: 6, actual: n });
                }
                let mut text: Vec<u8> = Vec::new();
                push_all(&mut text, vstd::slice::slice_subrange(bytes, META_DATA_SIZE, n));
                match string_from_utf8(text) {
                    Some(s) => Ok(Data::Sms(s)),
                    None => Err(DecodeError::BadUtf8InSms),
                }
            },
        }
    }
}

impl Packet {
    /// Decodes a frame received from the air.
    pub fn new(bytes: &[u8]) -> (r: Result<Self, DecodeError>)
        ensures
            match r {
                Ok(p) => decode_spec(bytes@) == Ok::<PacketView, DecodeError>(p@),
                Err(e) => decode_spec(bytes@) == Err::<PacketView, DecodeError>(e),
            },
    {
        let data = match Data::from_bytes(bytes) {
            Ok(d) => d,
            Err(e) => return Err(e),
        };
        let data_type = match DataType::new(bytes[PACKET_DATA_TYPE_IDX]) {
            Ok(t) => t,
            Err(e) => return Err(e),
        };
        Ok(
            Packet {
                version: bytes[PACKET_VERSION_IDX],
                id: bytes[PACKET_ID_IDX],
                msg_id: bytes[PACKET_MSG_ID_IDX],
                msg_count: bytes[PACKET_MSG_COUNT_IDX],
                data_type,
                data,
            },
        )
    }

    /// The bytes to put on the air, or why this frame cannot go there.
    pub fn to_bytes(&self) -> (r: Result<Vec<u8>, EncodeError>)
        ensures
            match r {
                Ok(bytes) => well_formed(self@) && bytes@ == encode_spec(self@),
                Err(EncodeError::TagMismatch) => self.data_type != data_type_of(self.data@),
                Err(EncodeError::BadLength { payload_len }) => self.data_type == data_type_of(
                    self.data@,
                ) && !well_formed(self@) && payload_len == payload_bytes(self.data@).len(),
            },
    {
        let mut packet: Vec<u8> = Vec::new();
        packet.push(self.version);
        packet.push(self.id);
        packet.push(self.msg_id);
        packet.push(self.msg_count);
        packet.push(self.data_type.tag());
        match &self.data {
            Data::Bme280(d) => {
                if self.data_type != DataType::BME280 {
                    return Err(EncodeError::TagMismatch);
                }
                packet.push(d.temperature);
                packet.push(d.humidity);
                packet.push(d.pressure);
            },
            Data::Bma400(d) => {
                if self.data_type != DataType::BMA400 {
                    return Err(EncodeError::TagMismatch);
                }
                let mut x = u64_to_le_bytes(d.x);
                let mut y = u64_to_le_bytes(d.y);
                let mut z = u64_to_le_bytes(d.z);
                packet.append(&mut x);
                packet.append(&mut y);
                packet.append(&mut z);
            },
            Data::Mq2(d) => {
                if self.data_type != DataType::MQ2 {
                    return Err(EncodeError::TagMismatch);
                }
                packet.push(d.gas_type);
                let mut value = u128_to_le_bytes(d.value);
                packet.append(&mut value);
            },
            Data::Gps(d) => {
                if self.data_type != DataType::Gps {
                    return Err(EncodeError::TagMismatch);
                }
                packet.push(d.status);
                let mut altitude = u16_to_le_bytes(d.altitude);
                let mut latitude = u32_to_le_bytes(d.latitude as u32);
                let mut longitude = u32_to_le_bytes(d.longitude as u32);
                packet.append(&mut altitude);
                packet.append(&mut latitude);
                packet.append(&mut longitude);
            },
            Data::Sms(s) => {
                if self.data_type != DataType::Sms {
                    return Err(EncodeError::TagMismatch);
                }
                let text = s.as_str().as_bytes();
                let n = text.len();
                if n < 1 || n > DATA_SIZE {
                    return Err(EncodeError::BadLength { payload_len: n });
                }
                push_all(&mut packet, text);
            },
        }
        assert(packet@ == encode_spec(self@));
        Ok(packet)
    }
}

/// Link quality of a received frame, as the modem reported it.
#[derive(Debug, Clone, Copy, PartialEq, Eq, Structural, Hash)]
pub struct Metadata {
    pub snr: u8,
    pub rssi: i16,
}

/// A received frame with the SNR (signal to noise ratio) and RSSI (received
/// signal strength indicator) of its reception.
#[derive(Debug, Clone, PartialEq, Eq, Hash)]
pub struct PacketWrapper {
    pub packet: Packet,
    pub metadata: Metadata,
}

} // verus!
