//! Values written to and read from the modem's registers: every bit field the
//! driver touches, computed from and decoded to plain values.

use crate::config::Mode;
use crate::defines::{
    bandwidth_code, coding_rate_code, mode_bits, spreading_factor_code, Bandwidth, CodingRate,
    IRQMask, LoRaMode, PAConfiguration, SpreadingFactor, SPIIO,
};
use vstd::prelude::*;

verus! {

/// The two bytes sent to read a register: the address with the read direction (0x00).
pub open spec fn read_command_spec(addr: u8) -> (u8, u8) {
    (addr | 0x00, 0x00)
}

/// The two bytes sent to write `value` to a register: address with the direction bit set.
pub open spec fn write_command_spec(addr: u8, value: u8) -> (u8, u8) {
    (addr | 0x80, value)
}

pub fn read_command(addr: u8) -> (r: (u8, u8))
    ensures
        r == read_command_spec(addr),
{
    (addr | SPIIO::SPI_READ.bits(), 0x00)
}

pub fn write_command(addr: u8, value: u8) -> (r: (u8, u8))
    ensures
        r == write_command_spec(addr, value),
{
    (addr | SPIIO::SPI_WRITE.bits(), value)
}

/// `OP_MODE` for operating mode `m`, always with LoRa selected.
pub open spec fn op_mode_value(m: LoRaMode) -> u8 {
    0x80u8 | mode_bits(m)
}

pub fn op_mode_for(m: LoRaMode) -> (r: u8)
    ensures
        r == op_mode_value(m),
{
    LoRaMode::LONG_RANGE.bits() | m.bits()
}

/// The transmit power the chip accepts on the boost pin: `level` clamped to 2..=17.
pub open spec fn clamp_tx_power(level: u8) -> u8 {
    if level < 2 {
        2
    } else if level > 17 {
        17
    } else {
        level
    }
}

/// `PA_CONFIG` for `level`: the boost pin with the clamped power.
pub open spec fn pa_config_value(level: u8) -> u8 {
    0x80u8 | clamp_tx_power(level)
}

pub fn pa_config_for(level: u8) -> (r: u8)
    ensures
        r == pa_config_value(level),
{
    let correct_level: u8 = if level < 2 {
        2
    } else if level > 17 {
        17
    } else {
        level
    };
    PAConfiguration::PA_BOOST.bits() | correct_level
}

/// The carrier frequency register value: `(frequency << 19) / 32 MHz`.
pub open spec fn frf_of(frequency: u64) -> u64 {
    ((frequency << 19u64) / 32_000_000u64) as u64
}

/// The three FRF register bytes for `frequency`, most significant first.
pub open spec fn frf_bytes_spec(frequency: u64) -> (u8, u8, u8) {
    ((frf_of(frequency) >> 16u64) as u8, (frf_of(frequency) >> 8u64) as u8, frf_of(frequency) as u8)
}

pub fn frf_bytes(frequency: u64) -> (r: (u8, u8, u8))
    ensures
        r == frf_bytes_spec(frequency),
{
    let frf: u64 = (frequency << 19u64) / 32_000_000u64;
    (#[verifier::truncate] ((frf >> 16u64) as u8), #[verifier::truncate] ((frf >> 8u64) as u8), #[verifier::truncate] (frf as u8))
}

/// The frequency in Hz that the FRF bytes select: `frf * 32 MHz / 2^19`, rounded down.
pub open spec fn frequency_of(msb: u8, mid: u8, lsb: u8) -> int {
    ((msb as int) * 65536 + (mid as int) * 256 + (lsb as int)) * 32_000_000 / 524288
}

pub fn frequency_from_frf(msb: u8, mid: u8, lsb: u8) -> (r: u64)
    ensures
        r == frequency_of(msb, mid, lsb),
{
    let frf: u64 = (msb as u64) * 65536 + (mid as u64) * 256 + (lsb as u64);
    assert(frf * 32_000_000 <= 16777215 * 32_000_000) by (nonlinear_arith)
        requires
            frf <= 16777215,
    ;
    (frf * 32_000_000) / 524288
}

/// `MODEM_CONFIG_1` with its bandwidth nibble replaced.
pub open spec fn with_bandwidth(reg: u8, b: Bandwidth) -> u8 {
    (reg & 0x0f) | (bandwidth_code(b) << 4u8)
}

/// The bandwidth code held in `MODEM_CONFIG_1`.
pub open spec fn bandwidth_of(reg: u8) -> u8 {
    (reg & 0xf0) >> 4u8
}

/// `MODEM_CONFIG_1` with its coding rate field (bits 3..1) set to `c - 4`.
pub open spec fn with_coding_rate(reg: u8, c: CodingRate) -> u8 {
    (reg & 0xf1) | (((coding_rate_code(c) - 4) as u8) << 1u8)
}

/// The coding rate code (5 to 8 for a valid field) held in `MODEM_CONFIG_1`.
pub open spec fn coding_rate_of(reg: u8) -> u8 {
    (((reg & 0x0e) >> 1u8) + 4) as u8
}

/// `MODEM_CONFIG_2` with its spreading factor nibble replaced.
pub open spec fn with_spreading_factor(reg: u8, s: SpreadingFactor) -> u8 {
    (reg & 0x0f) | ((spreading_factor_code(s) << 4u8) & 0xf0)
}

/// The spreading factor held in `MODEM_CONFIG_2`.
pub open spec fn spreading_factor_of(reg: u8) -> u8 {
    reg >> 4u8
}

/// `MODEM_CONFIG_2` with the payload CRC switched on.
pub open spec fn with_crc(reg: u8) -> u8 {
    reg | 0x04
}

pub fn bandwidth_field(reg: u8, b: Bandwidth) -> (r: u8)
    ensures
        r == with_bandwidth(reg, b),
{
    (reg & 0x0f) | (b.code() << 4u8)
}

pub fn bandwidth_from_field(reg: u8) -> (r: u8)
    ensures
        r == bandwidth_of(reg),
{
    (reg & 0xf0) >> 4u8
}

pub fn coding_rate_field(reg: u8, c: CodingRate) -> (r: u8)
    ensures
        r == with_coding_rate(reg, c),
{
    let cr: u8 = c.code() - 4;
    (reg & 0xf1) | (cr << 1u8)
}

pub fn coding_rate_from_field(reg: u8) -> (r: u8)
    ensures
        r == coding_rate_of(reg),
{
    let field: u8 = (reg & 0x0e) >> 1u8;
    assert(field <= 7) by (bit_vector)
        requires
            field == (reg & 0x0e) >> 1u8,
    ;
    field + 4
}

pub fn spreading_factor_field(reg: u8, s: SpreadingFactor) -> (r: u8)
    ensures
        r == with_spreading_factor(reg, s),
{
    (reg & 0x0f) | ((s.code() << 4u8) & 0xf0)
}

pub fn spreading_factor_from_field(reg: u8) -> (r: u8)
    ensures
        r == spreading_factor_of(reg),
{
    reg >> 4u8
}

pub fn crc_field(reg: u8) -> (r: u8)
    ensures
        r == with_crc(reg),
{
    reg | 0x04
}

/// `DIO_MAPPING_1` for a role: a transmitter maps DIO0 to TxDone, a receiver
/// keeps the register (DIO0 = RxDone).
pub open spec fn dio_mapping_value(initial: u8, mode: Mode) -> u8 {
    if mode == Mode::TX || mode == Mode::TX_RANGE_TEST {
        initial | 0x40
    } else {
        initial
    }
}

pub fn dio_mapping_for(initial: u8, mode: Mode) -> (r: u8)
    ensures
        r == dio_mapping_value(initial, mode),
{
    if mode.is_transmitter() {
        initial | 0x40
    } else {
        initial
    }
}

/// Whether `IRQ_FLAGS` reports a payload CRC error.
pub open spec fn crc_error_in(irq: u8) -> bool {
    irq & 0x20 == 0x20
}

pub fn crc_error_flagged(irq: u8) -> (r: bool)
    ensures
        r == crc_error_in(irq),
{
    let mask = IRQMask::IRQ_PAYLOAD_CRC_ERROR.bits();
    irq & mask == mask
}

/// The SNR report of the last packet: the raw register byte negated modulo
/// 256, then divided by 4.
pub open spec fn snr_value(raw: u8) -> u8 {
    (((256 - raw) % 256) / 4) as u8
}

pub fn snr_from_raw(raw: u8) -> (r: u8)
    ensures
        r == snr_value(raw),
{
    let negated: u16 = (256u16 - raw as u16) % 256;
    (negated / 4) as u8
}

/// The RSSI in dBm of the last packet: the raw byte offset by -164 below
/// 868 MHz and by -157 from there on.
pub open spec fn rssi_value(frequency: int, raw: u8) -> i16 {
    if frequency < 868_000_000 {
        (raw - 164) as i16
    } else {
        (raw - 157) as i16
    }
}

pub fn rssi_from_raw(frequency: u64, raw: u8) -> (r: i16)
    ensures
        r == rssi_value(frequency as int, raw),
{
    if frequency < 868_000_000 {
        raw as i16 - 164
    } else {
        raw as i16 - 157
    }
}

/// Reading back a bandwidth just written gives its code.
pub proof fn lemma_bandwidth_round_trip(reg: u8, b: Bandwidth)
    ensures
        bandwidth_of(with_bandwidth(reg, b)) == bandwidth_code(b),
{
    let c = bandwidth_code(b);
    assert(c <= 9);
    assert(c <= 9 ==> ((reg & 0x0f) | (c << 4u8)) & 0xf0 == c << 4u8) by (bit_vector);
    assert(c <= 9 ==> (c << 4u8) >> 4u8 == c) by (bit_vector);
}

/// Reading back a coding rate just written gives its code.
pub proof fn lemma_coding_rate_round_trip(reg: u8, c: CodingRate)
    ensures
        coding_rate_of(with_coding_rate(reg, c)) == coding_rate_code(c),
{
    let f = (coding_rate_code(c) - 4) as u8;
    assert(1 <= f <= 4);
    assert(1 <= f <= 4 ==> (((reg & 0xf1) | (f << 1u8)) & 0x0e) >> 1u8 == f) by (bit_vector);
}

/// Reading back a spreading factor just written gives its code.
pub proof fn lemma_spreading_factor_round_trip(reg: u8, s: SpreadingFactor)
    ensures
        spreading_factor_of(with_spreading_factor(reg, s)) == spreading_factor_code(s),
{
    let c = spreading_factor_code(s);
    assert(7 <= c <= 12);
    assert(c <= 15 ==> ((reg & 0x0f) | ((c << 4u8) & 0xf0)) >> 4u8 == c) by (bit_vector);
}

/// Switching the CRC on leaves the spreading factor alone.
pub proof fn lemma_crc_keeps_spreading_factor(reg: u8)
    ensures
        spreading_factor_of(with_crc(reg)) == spreading_factor_of(reg),
{
    assert((reg | 0x04) >> 4u8 == reg >> 4u8) by (bit_vector);
}

/// Setting the coding rate leaves the bandwidth alone, and setting the
/// bandwidth leaves the coding rate alone.
pub proof fn lemma_modem_config_1_fields_independent(reg: u8, b: Bandwidth, c: CodingRate)
    ensures
        bandwidth_of(with_coding_rate(reg, c)) == bandwidth_of(reg),
        coding_rate_of(with_bandwidth(reg, b)) == coding_rate_of(reg),
{
    let f = (coding_rate_code(c) - 4) as u8;
    let k = bandwidth_code(b);
    assert(1 <= f <= 4);
    assert(k <= 9);
    assert(f <= 7 ==> (((reg & 0xf1) | (f << 1u8)) & 0xf0) >> 4u8 == (reg & 0xf0) >> 4u8)
        by (bit_vector);
    assert(k <= 15 ==> (((reg & 0x0f) | (k << 4u8)) & 0x0e) >> 1u8 == (reg & 0x0e) >> 1u8)
        by (bit_vector);
}

/// The power amplifier register holds the boost pin and the clamped level.
pub proof fn lemma_pa_config(level: u8)
    ensures
        pa_config_value(level) & 0x80 == 0x80,
        pa_config_value(level) & 0x7f == clamp_tx_power(level),
        2 <= clamp_tx_power(level) <= 17,
        2 <= level <= 17 ==> clamp_tx_power(level) == level,
{
    let c = clamp_tx_power(level);
    assert(2 <= c <= 17);
    assert(c <= 0x7f ==> (0x80u8 | c) & 0x80 == 0x80) by (bit_vector);
    assert(c <= 0x7f ==> (0x80u8 | c) & 0x7f == c) by (bit_vector);
}

/// `OP_MODE` holds the LoRa bit and the mode.
pub proof fn lemma_op_mode(m: LoRaMode)
    ensures
        op_mode_value(m) == 0x80u8 | mode_bits(m),
        m == LoRaMode::SLEEP ==> op_mode_value(m) == 0x80,
        m == LoRaMode::STDBY ==> op_mode_value(m) == 0x81,
        m == LoRaMode::TX ==> op_mode_value(m) == 0x83,
        m == LoRaMode::RX_CONTINUOUS ==> op_mode_value(m) == 0x85,
{
    assert(0x80u8 | 0x00u8 == 0x80u8) by (bit_vector);
    assert(0x80u8 | 0x01u8 == 0x81u8) by (bit_vector);
    assert(0x80u8 | 0x03u8 == 0x83u8) by (bit_vector);
    assert(0x80u8 | 0x05u8 == 0x85u8) by (bit_vector);
}

/// Reading back a frequency just written gives it to within one synthesizer
/// step (32 MHz / 2^19, about 61 Hz), rounded down; the FRF registers hold
/// 24 bits, so this holds below 1.024 GHz.
pub proof fn lemma_frequency_round_trip(frequency: u64)
    requires
        frequency < 1_024_000_000,
    ensures
        ({
            let (msb, mid, lsb) = frf_bytes_spec(frequency);
            frequency - 62 <= frequency_of(msb, mid, lsb) <= frequency
        }),
{
    let f = frequency;
    assert(f < 1_024_000_000 ==> f << 19u64 == f * 524288) by (bit_vector);
    let q = frf_of(f);
    assert(q as int == (f as int * 524288) / 32_000_000);
    assert(q < 16777216) by (nonlinear_arith)
        requires
            q as int == (f as int * 524288) / 32_000_000,
            f < 1_024_000_000,
    ;
    assert(q < 16777216 ==> ((q >> 16u64) as u8) as int * 65536 + ((q >> 8u64) as u8) as int
        * 256 + (q as u8) as int == q) by (bit_vector);
    let g = (q as int * 32_000_000) / 524288;
    assert(g <= f && f - 62 <= g) by (nonlinear_arith)
        requires
            q as int == (f as int * 524288) / 32_000_000,
            g == (q as int * 32_000_000) / 524288,
            f >= 0,
    ;
}

/// `LNA` with the boost bits (0x03) set.
pub open spec fn lna_boost_value(reg: u8) -> u8 {
    reg | 0x03
}

pub fn lna_boost(reg: u8) -> (r: u8)
    ensures
        r == lna_boost_value(reg),
{
    reg | 0x03
}

} // verus!
