//! Laws of the frame codec: encoding and decoding are inverse, and the
//! decoder's errors come exactly where the length and tag rules say.

use crate::packet::{
    data_type_from_tag, decode_spec, encode_spec, payload_bytes, required_len, tag_of, well_formed,
    DataType, DataView, DecodeError, PacketView,
};
use vstd::bytes::*;
use vstd::prelude::*;
use vstd::utf8::*;

verus! {

broadcast use vstd::utf8::group_utf8_lib;

proof fn lemma_i32_u32_round_trip(x: i32, y: u32)
    ensures
        (x as u32) as i32 == x,
        (y as i32) as u32 == y,
{
    assert((x as u32) as i32 == x) by (bit_vector);
    assert((y as i32) as u32 == y) by (bit_vector);
}

proof fn lemma_le_bytes_round_trips()
    ensures
        forall|x: u16|
            #![trigger spec_u16_to_le_bytes(x)]
            spec_u16_to_le_bytes(x).len() == 2 && spec_u16_from_le_bytes(spec_u16_to_le_bytes(x))
                == x,
        forall|s: Seq<u8>|
            #![trigger spec_u16_to_le_bytes(spec_u16_from_le_bytes(s))]
            s.len() == 2 ==> spec_u16_to_le_bytes(spec_u16_from_le_bytes(s)) == s,
        forall|x: u32|
            #![trigger spec_u32_to_le_bytes(x)]
            spec_u32_to_le_bytes(x).len() == 4 && spec_u32_from_le_bytes(spec_u32_to_le_bytes(x))
                == x,
        forall|s: Seq<u8>|
            #![trigger spec_u32_to_le_bytes(spec_u32_from_le_bytes(s))]
            s.len() == 4 ==> spec_u32_to_le_bytes(spec_u32_from_le_bytes(s)) == s,
        forall|x: u64|
            #![trigger spec_u64_to_le_bytes(x)]
            spec_u64_to_le_bytes(x).len() == 8 && spec_u64_from_le_bytes(spec_u64_to_le_bytes(x))
                == x,
        forall|s: Seq<u8>|
            #![trigger spec_u64_to_le_bytes(spec_u64_from_le_bytes(s))]
            s.len() == 8 ==> spec_u64_to_le_bytes(spec_u64_from_le_bytes(s)) == s,
        forall|x: u128|
            #![trigger spec_u128_to_le_bytes(x)]
            spec_u128_to_le_bytes(x).len() == 16 && spec_u128_from_le_bytes(
                spec_u128_to_le_bytes(x),
            ) == x,
        forall|s: Seq<u8>|
            #![trigger spec_u128_to_le_bytes(spec_u128_from_le_bytes(s))]
            s.len() == 16 ==> spec_u128_to_le_bytes(spec_u128_from_le_bytes(s)) == s,
{
    lemma_auto_spec_u16_to_from_le_bytes();
    lemma_auto_spec_u32_to_from_le_bytes();
    lemma_auto_spec_u64_to_from_le_bytes();
    lemma_auto_spec_u128_to_from_le_bytes();
}

/// Decoding the bytes of a well-formed frame gives that frame back.
pub proof fn lemma_decode_encode(p: PacketView)
    requires
        well_formed(p),
    ensures
        decode_spec(encode_spec(p)) == Ok::<PacketView, DecodeError>(p),
{
    lemma_le_bytes_round_trips();
    let b = encode_spec(p);
    let header = seq![p.version, p.id, p.msg_id, p.msg_count, tag_of(p.data_type)];
    assert(b.subrange(0, 5) == header);
    assert(b.subrange(5, b.len() as int) == payload_bytes(p.data));
    match p.data {
        DataView::Bme280(d) => {},
        DataView::Bma400(d) => {
            let bx = spec_u64_to_le_bytes(d.x);
            let by = spec_u64_to_le_bytes(d.y);
            let bz = spec_u64_to_le_bytes(d.z);
            assert(b.subrange(5, 13) == bx);
            assert(b.subrange(13, 21) == by);
            assert(b.subrange(21, 29) == bz);
        },
        DataView::Mq2(d) => {
            assert(b.subrange(6, 22) == spec_u128_to_le_bytes(d.value));
        },
        DataView::Gps(d) => {
            lemma_i32_u32_round_trip(d.latitude, 0);
            lemma_i32_u32_round_trip(d.longitude, 0);
            assert(b.subrange(6, 8) == spec_u16_to_le_bytes(d.altitude));
            assert(b.subrange(8, 12) == spec_u32_to_le_bytes(d.latitude as u32));
            assert(b.subrange(12, 16) == spec_u32_to_le_bytes(d.longitude as u32));
        },
        DataView::Sms(s) => {},
    }
    assert(decode_spec(b) == Ok::<PacketView, DecodeError>(p));
}

/// Encoding a frame that decoding produced gives back the bytes it came from;
/// such a frame is well formed.
pub proof fn lemma_encode_decode(b: Seq<u8>)
    requires
        decode_spec(b) is Ok,
    ensures
        well_formed(decode_spec(b)->Ok_0),
        encode_spec(decode_spec(b)->Ok_0) == b,
{
    lemma_le_bytes_round_trips();
    let p = decode_spec(b)->Ok_0;
    let t = p.data_type;
    let payload = b.subrange(5, b.len() as int);
    assert(b == b.subrange(0, 5) + payload);
    assert(b.subrange(0, 5) == seq![p.version, p.id, p.msg_id, p.msg_count, tag_of(t)]);
    match t {
        DataType::BME280 => {
            assert(payload == payload_bytes(p.data));
        },
        DataType::BMA400 => {
            assert(payload == b.subrange(5, 13) + b.subrange(13, 21) + b.subrange(21, 29));
            assert(payload == payload_bytes(p.data));
        },
        DataType::MQ2 => {
            assert(payload == seq![b[5]] + b.subrange(6, 22));
            assert(payload == payload_bytes(p.data));
        },
        DataType::Gps => {
            let lat = spec_u32_from_le_bytes(b.subrange(8, 12));
            let lon = spec_u32_from_le_bytes(b.subrange(12, 16));
            lemma_i32_u32_round_trip(0, lat);
            lemma_i32_u32_round_trip(0, lon);
            assert(payload == seq![b[5]] + b.subrange(6, 8) + b.subrange(8, 12) + b.subrange(
                12,
                16,
            ));
            assert(payload == payload_bytes(p.data));
        },
        DataType::Sms => {
            assert(payload == payload_bytes(p.data));
        },
    }
    assert(encode_spec(p) == b);
}

/// A frame whose tag is one of the fixed-size variants but whose length is not
/// that variant's length is refused with `LengthMismatch`.
pub proof fn lemma_fixed_length_mismatch(b: Seq<u8>)
    requires
        b.len() >= 5,
        1 <= b[4] <= 4,
        b.len() != required_len(data_type_from_tag(b[4])->Some_0),
    ensures
        decode_spec(b) is Err,
        decode_spec(b)->Err_0 is LengthMismatch,
{
}

/// A frame of at most 64 bytes whose tag names no variant is refused with
/// `UnknownTag`.
pub proof fn lemma_unknown_tag(b: Seq<u8>)
    requires
        5 <= b.len() <= 64,
        !(1 <= b[4] <= 4),
        b[4] != 32,
    ensures
        decode_spec(b) == Err::<PacketView, DecodeError>(DecodeError::UnknownTag(b[4])),
{
}

} // verus!
