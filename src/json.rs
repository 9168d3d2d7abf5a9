//! The broker's JSON rendering of frames and link metadata. Numbers are
//! written as the broker expects them: BME280 readings in physical units
//! (temperature halved, pressure plus 1000 hPa) and GPS coordinates in
//! degrees (the stored value divided by 100000), with no trailing zeros.

use crate::packet::{Data, DataView, Metadata, Packet, PacketWrapper};
use vstd::prelude::*;
use vstd::string::StringExecFns;

verus! {

/// The character of decimal digit `d`.
pub open spec fn digit_char(d: nat) -> char {
    (48 + d) as char
}

/// The decimal digits of `n`, most significant first, without leading zeros.
pub open spec fn decimal(n: nat) -> Seq<char>
    decreases n,
{
    if n < 10 {
        seq![digit_char(n)]
    } else {
        decimal(n / 10) + seq![digit_char(n % 10)]
    }
}

/// `v` in decimal, with a minus sign when negative.
pub open spec fn signed_decimal(v: int) -> Seq<char> {
    if v < 0 {
        seq!['-'] + decimal((-v) as nat)
    } else {
        decimal(v as nat)
    }
}

/// `t / 2` in decimal: a whole number, or one ending in `.5`.
pub open spec fn half_decimal(t: nat) -> Seq<char> {
    if t % 2 == 1 {
        decimal(t / 2) + seq!['.', '5']
    } else {
        decimal(t / 2)
    }
}

/// The place value of fraction digit `i` (0 to 4) of a number of 1/100000 units.
pub open spec fn place_value(i: nat) -> nat {
    if i == 0 {
        10000
    } else if i == 1 {
        1000
    } else if i == 2 {
        100
    } else if i == 3 {
        10
    } else {
        1
    }
}

/// Digit `i` after the decimal point of `r / 100000`.
pub open spec fn fraction_digit(r: nat, i: nat) -> nat {
    (r / place_value(i)) % 10
}

/// How many digits after the point `r / 100000` needs, trailing zeros dropped.
pub open spec fn fraction_len(r: nat) -> nat {
    if r % 10 != 0 {
        5
    } else if r % 100 != 0 {
        4
    } else if r % 1000 != 0 {
        3
    } else if r % 10000 != 0 {
        2
    } else {
        1
    }
}

/// The first `m` digits after the point of `r / 100000`.
pub open spec fn fraction_text(r: nat, m: nat) -> Seq<char>
    decreases m,
{
    if m == 0 {
        seq![]
    } else {
        fraction_text(r, (m - 1) as nat) + decimal(fraction_digit(r, (m - 1) as nat))
    }
}

/// `v / 100000` in decimal, as the shortest text that denotes it exactly.
pub open spec fn degrees_text(v: int) -> Seq<char> {
    let a: nat = if v < 0 {
        (-v) as nat
    } else {
        v as nat
    };
    let sign = if v < 0 {
        seq!['-']
    } else {
        seq![]
    };
    let r = a % 100000;
    if r == 0 {
        sign + decimal(a / 100000)
    } else {
        sign + decimal(a / 100000) + seq!['.'] + fraction_text(r, fraction_len(r))
    }
}

/// The JSON member for a payload, keyed by its variant's name.
pub open spec fn payload_json(d: DataView) -> Seq<char> {
    match d {
        DataView::Bme280(b) => "\"BME280\": { \"temperature\": "@ + half_decimal(
            b.temperature as nat,
        ) + ", \"humidity\": "@ + decimal(b.humidity as nat) + ", \"pressure\": "@ + decimal(
            (b.pressure + 1000) as nat,
        ) + " }"@,
        DataView::Bma400(b) => "\"BMA400\": { \"x\": "@ + decimal(b.x as nat) + ", \"y\": "@
            + decimal(b.y as nat) + ", \"z\": "@ + decimal(b.z as nat) + " }"@,
        DataView::Mq2(m) => "\"MQ2\": { \"gas_type\": "@ + decimal(m.gas_type as nat)
            + ", \"value\": "@ + decimal(m.value as nat) + " }"@,
        DataView::Gps(g) => "\"GPS\": { \"status\": "@ + decimal(g.status as nat)
            + ", \"altitude\": "@ + decimal(g.altitude as nat) + ", \"latitude\": "@
            + degrees_text(g.latitude as int) + ", \"longitude\": "@ + degrees_text(
            g.longitude as int,
        ) + " }"@,
        DataView::Sms(t) => "\"SMS\": { \"text\": \""@ + t + "\" }"@,
    }
}

/// The JSON member for link metadata.
pub open spec fn metadata_json(m: Metadata) -> Seq<char> {
    "\"META\": { \"snr\": "@ + decimal(m.snr as nat) + ", \"rssi\": "@ + signed_decimal(
        m.rssi as int,
    ) + " }"@
}

/// The JSON object for a received frame with its link metadata.
pub open spec fn wrapper_json(p: DataView, m: Metadata) -> Seq<char> {
    "{ "@ + payload_json(p) + ", "@ + metadata_json(m) + " }"@
}

/// The one-character text of decimal digit `d`.
fn digit_str(d: u8) -> (r: &'static str)
    requires
        d < 10,
    ensures
        r@ == seq![digit_char(d as nat)],
{
    proof {
        reveal_strlit("0");
        reveal_strlit("1");
        reveal_strlit("2");
        reveal_strlit("3");
        reveal_strlit("4");
        reveal_strlit("5");
        reveal_strlit("6");
        reveal_strlit("7");
        reveal_strlit("8");
        reveal_strlit("9");
    }
    match d {
        0 => "0",
        1 => "1",
        2 => "2",
        3 => "3",
        4 => "4",
        5 => "5",
        6 => "6",
        7 => "7",
        8 => "8",
        _ => "9",
    }
}

/// Appends `v` in decimal.
pub(crate) fn append_decimal(s: &mut String, v: u128)
    ensures
        final(s)@ == old(s)@ + decimal(v as nat),
    decreases v,
{
    if v >= 10 {
        append_decimal(s, v / 10);
    }
    s.append(digit_str((v % 10) as u8));
    assert(final(s)@ =~= old(s)@ + decimal(v as nat));
}

/// `v` in decimal.
pub(crate) fn decimal_string(v: u128) -> (r: String)
    ensures
        r@ == decimal(v as nat),
{
    let mut s = String::new();
    append_decimal(&mut s, v);
    assert(s@ =~= decimal(v as nat));
    s
}

fn append_signed_decimal(s: &mut String, v: i64)
    requires
        v > i64::MIN,
    ensures
        final(s)@ == old(s)@ + signed_decimal(v as int),
{
    if v < 0 {
        s.append("-");
        proof {
            reveal_strlit("-");
        }
        append_decimal(s, (-v) as u128);
        assert(final(s)@ =~= old(s)@ + signed_decimal(v as int));
    } else {
        append_decimal(s, v as u128);
    }
}

fn append_half(s: &mut String, t: u8)
    ensures
        final(s)@ == old(s)@ + half_decimal(t as nat),
{
    append_decimal(s, (t / 2) as u128);
    if t % 2 == 1 {
        s.append(".5");
        proof {
            reveal_strlit(".5");
        }
        assert(final(s)@ =~= old(s)@ + half_decimal(t as nat));
    }
}

fn fraction_len_of(r: u32) -> (m: u32)
    ensures
        m == fraction_len(r as nat),
{
    if r % 10 != 0 {
        5
    } else if r % 100 != 0 {
        4
    } else if r % 1000 != 0 {
        3
    } else if r % 10000 != 0 {
        2
    } else {
        1
    }
}

fn place_value_of(i: u32) -> (p: u32)
    ensures
        p == place_value(i as nat),
        p > 0,
{
    if i == 0 {
        10000
    } else if i == 1 {
        1000
    } else if i == 2 {
        100
    } else if i == 3 {
        10
    } else {
        1
    }
}

fn append_degrees(s: &mut String, v: i32)
    ensures
        final(s)@ == old(s)@ + degrees_text(v as int),
{
    let a: u32 = if v < 0 {
        (-(v as i64)) as u32
    } else {
        v as u32
    };
    let ghost sign: Seq<char> = if v < 0 {
        seq!['-']
    } else {
        seq![]
    };
    if v < 0 {
        s.append("-");
        proof {
            reveal_strlit("-");
        }
    }
    assert(s@ =~= old(s)@ + sign);
    append_decimal(s, (a / 100000) as u128);
    let r = a % 100000;
    if r != 0 {
        s.append(".");
        proof {
            reveal_strlit(".");
        }
        let ghost base = s@;
        let m = fraction_len_of(r);
        let mut i: u32 = 0;
        while i < m
            invariant
                i <= m,
                m == fraction_len(r as nat),
                m <= 5,
                s@ == base + fraction_text(r as nat, i as nat),
            decreases m - i,
        {
            let p = place_value_of(i);
            append_decimal(s, ((r / p) % 10) as u128);
            i = i + 1;
            assert(s@ =~= base + fraction_text(r as nat, i as nat));
        }
    }
    assert(s@ =~= old(s)@ + degrees_text(v as int));
}

impl Packet {
    /// The JSON member for this frame's payload.
    pub fn to_json(&self) -> (r: String)
        ensures
            r@ == payload_json(self.data@),
    {
        let mut s = String::new();
        append_payload_json(&mut s, &self.data);
        s
    }
}

fn append_payload_json(s: &mut String, data: &Data)
    ensures
        final(s)@ == old(s)@ + payload_json(data@),
{
    match data {
        Data::Bme280(d) => {
            s.append("\"BME280\": { \"temperature\": ");
            append_half(s, d.temperature);
            s.append(", \"humidity\": ");
            append_decimal(s, d.humidity as u128);
            s.append(", \"pressure\": ");
            append_decimal(s, d.pressure as u128 + 1000);
            s.append(" }");
        },
        Data::Bma400(d) => {
            s.append("\"BMA400\": { \"x\": ");
            append_decimal(s, d.x as u128);
            s.append(", \"y\": ");
            append_decimal(s, d.y as u128);
            s.append(", \"z\": ");
            append_decimal(s, d.z as u128);
            s.append(" }");
        },
        Data::Mq2(d) => {
            s.append("\"MQ2\": { \"gas_type\": ");
            append_decimal(s, d.gas_type as u128);
            s.append(", \"value\": ");
            append_decimal(s, d.value);
            s.append(" }");
        },
        Data::Gps(d) => {
            s.append("\"GPS\": { \"status\": ");
            append_decimal(s, d.status as u128);
            s.append(", \"altitude\": ");
            append_decimal(s, d.altitude as u128);
            s.append(", \"latitude\": ");
            append_degrees(s, d.latitude);
            s.append(", \"longitude\": ");
            append_degrees(s, d.longitude);
            s.append(" }");
        },
        Data::Sms(text) => {
            s.append("\"SMS\": { \"text\": \"");
            s.append(text.as_str());
            s.append("\" }");
        },
    }
    assert(s@ =~= old(s)@ + payload_json(data@));
}

impl Metadata {
    /// The JSON member for this link metadata.
    pub fn to_json(&self) -> (r: String)
        ensures
            r@ == metadata_json(*self),
    {
        let mut s = String::new();
        s.append("\"META\": { \"snr\": ");
        append_decimal(&mut s, self.snr as u128);
        s.append(", \"rssi\": ");
        append_signed_decimal(&mut s, self.rssi as i64);
        s.append(" }");
        assert(s@ =~= metadata_json(*self));
        s
    }
}

impl PacketWrapper {
    /// The JSON object for this frame and its link metadata.
    pub fn to_json(&self) -> (r: String)
        ensures
            r@ == wrapper_json(self.packet.data@, self.metadata),
    {
        let mut s = String::new();
        s.append("{ ");
        append_payload_json(&mut s, &self.packet.data);
        s.append(", ");
        let meta = self.metadata.to_json();
        s.append(meta.as_str());
        s.append(" }");
        assert(s@ =~= wrapper_json(self.packet.data@, self.metadata));
        s
    }
}

/// The text a log shows for a payload: its fields by name, or the SMS text
/// in quotes.
pub open spec fn data_text(d: DataView) -> Seq<char> {
    match d {
        DataView::Bme280(b) => "{ temperature: "@ + decimal(b.temperature as nat)
            + ", humidity: "@ + decimal(b.humidity as nat) + ", pressure: "@ + decimal(
            b.pressure as nat,
        ) + " }"@,
        DataView::Bma400(b) => "{ x: "@ + decimal(b.x as nat) + ", y: "@ + decimal(b.y as nat)
            + ", z: "@ + decimal(b.z as nat) + " }"@,
        DataView::Mq2(m) => "{ gas_type: "@ + decimal(m.gas_type as nat) + ", value: "@
            + decimal(m.value as nat) + " }"@,
        DataView::Gps(g) => "{ status: "@ + decimal(g.status as nat) + ", altitude: "@
            + decimal(g.altitude as nat) + ", latitude: "@ + signed_decimal(g.latitude as int)
            + ", longitude: "@ + signed_decimal(g.longitude as int) + " }"@,
        DataView::Sms(t) => "\""@ + t + "\""@,
    }
}

pub(crate) fn append_data_text(s: &mut String, data: &Data)
    ensures
        final(s)@ == old(s)@ + data_text(data@),
{
    match data {
        Data::Bme280(d) => {
            s.append("{ temperature: ");
            append_decimal(s, d.temperature as u128);
            s.append(", humidity: ");
            append_decimal(s, d.humidity as u128);
            s.append(", pressure: ");
            append_decimal(s, d.pressure as u128);
            s.append(" }");
        },
        Data::Bma400(d) => {
            s.append("{ x: ");
            append_decimal(s, d.x as u128);
            s.append(", y: ");
            append_decimal(s, d.y as u128);
            s.append(", z: ");
            append_decimal(s, d.z as u128);
            s.append(" }");
        },
        Data::Mq2(d) => {
            s.append("{ gas_type: ");
            append_decimal(s, d.gas_type as u128);
            s.append(", value: ");
            append_decimal(s, d.value);
            s.append(" }");
        },
        Data::Gps(d) => {
            s.append("{ status: ");
            append_decimal(s, d.status as u128);
            s.append(", altitude: ");
            append_decimal(s, d.altitude as u128);
            s.append(", latitude: ");
            append_signed_decimal(s, d.latitude as i64);
            s.append(", longitude: ");
            append_signed_decimal(s, d.longitude as i64);
            s.append(" }");
        },
        Data::Sms(text) => {
            s.append("\"");
            s.append(text.as_str());
            s.append("\"");
        },
    }
    assert(s@ =~= old(s)@ + data_text(data@));
}

impl Data {
    /// The text a log shows for this payload.
    pub fn describe(&self) -> (r: String)
        ensures
            r@ == data_text(self@),
    {
        let mut s = String::new();
        append_data_text(&mut s, self);
        s
    }
}

} // verus!
