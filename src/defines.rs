//! Register map and field encodings of the SX1278 LoRa modem.

use vstd::prelude::*;

verus! {

/// Registers of the modem in LoRa mode.
#[allow(non_camel_case_types)]
#[derive(Debug, Clone, Copy, PartialEq, Eq, Structural)]
pub enum LoRaRegister {
    FIFO,
    OP_MODE,
    FRF_MSB,
    FRF_MID,
    FRF_LSB,
    PA_CONFIG,
    LNA,
    FIFO_ADDR_PTR,
    FIFO_TX_BASE_ADDR,
    FIFO_RX_BASE_ADDR,
    FIFO_RX_CURRENT_ADDR,
    IRQ_FLAGS,
    RX_NB_BYTES,
    PKT_SNR_VALUE,
    PKT_RSSI_VALUE,
    MODEM_CONFIG_1,
    MODEM_CONFIG_2,
    PREAMBLE_MSB,
    PREAMBLE_LSB,
    PAYLOAD_LENGTH,
    MODEM_CONFIG_3,
    RSSI_WIDEBAND,
    DETECTION_OPTIMIZE,
    DETECTION_THRESHOLD,
    SYNC_WORD,
    REG_IRQ_FLAGS_2,
    DIO_MAPPING_1,
    DIO_MAPPING_2,
    VERSION,
}

/// The address of a register.
pub open spec fn reg_addr(r: LoRaRegister) -> u8 {
    match r {
        LoRaRegister::FIFO => 0x00,
        LoRaRegister::OP_MODE => 0x01,
        LoRaRegister::FRF_MSB => 0x06,
        LoRaRegister::FRF_MID => 0x07,
        LoRaRegister::FRF_LSB => 0x08,
        LoRaRegister::PA_CONFIG => 0x09,
        LoRaRegister::LNA => 0x0C,
        LoRaRegister::FIFO_ADDR_PTR => 0x0D,
        LoRaRegister::FIFO_TX_BASE_ADDR => 0x0E,
        LoRaRegister::FIFO_RX_BASE_ADDR => 0x0F,
        LoRaRegister::FIFO_RX_CURRENT_ADDR => 0x10,
        LoRaRegister::IRQ_FLAGS => 0x12,
        LoRaRegister::RX_NB_BYTES => 0x13,
        LoRaRegister::PKT_SNR_VALUE => 0x19,
        LoRaRegister::PKT_RSSI_VALUE => 0x1A,
        LoRaRegister::MODEM_CONFIG_1 => 0x1D,
        LoRaRegister::MODEM_CONFIG_2 => 0x1E,
        LoRaRegister::PREAMBLE_MSB => 0x20,
        LoRaRegister::PREAMBLE_LSB => 0x21,
        LoRaRegister::PAYLOAD_LENGTH => 0x22,
        LoRaRegister::MODEM_CONFIG_3 => 0x26,
        LoRaRegister::RSSI_WIDEBAND => 0x2C,
        LoRaRegister::DETECTION_OPTIMIZE => 0x31,
        LoRaRegister::DETECTION_THRESHOLD => 0x37,
        LoRaRegister::SYNC_WORD => 0x39,
        LoRaRegister::REG_IRQ_FLAGS_2 => 0x3F,
        LoRaRegister::DIO_MAPPING_1 => 0x40,
        LoRaRegister::DIO_MAPPING_2 => 0x41,
        LoRaRegister::VERSION => 0x42,
    }
}

impl LoRaRegister {
    pub fn addr(&self) -> (r: u8)
        ensures
            r == reg_addr(*self),
            r < 0x43,
    {
        match self {
            LoRaRegister::FIFO => 0x00,
            LoRaRegister::OP_MODE => 0x01,
            LoRaRegister::FRF_MSB => 0x06,
            LoRaRegister::FRF_MID => 0x07,
            LoRaRegister::FRF_LSB => 0x08,
            LoRaRegister::PA_CONFIG => 0x09,
            LoRaRegister::LNA => 0x0C,
            LoRaRegister::FIFO_ADDR_PTR => 0x0D,
            LoRaRegister::FIFO_TX_BASE_ADDR => 0x0E,
            LoRaRegister::FIFO_RX_BASE_ADDR => 0x0F,
            LoRaRegister::FIFO_RX_CURRENT_ADDR => 0x10,
            LoRaRegister::IRQ_FLAGS => 0x12,
            LoRaRegister::RX_NB_BYTES => 0x13,
            LoRaRegister::PKT_SNR_VALUE => 0x19,
            LoRaRegister::PKT_RSSI_VALUE => 0x1A,
            LoRaRegister::MODEM_CONFIG_1 => 0x1D,
            LoRaRegister::MODEM_CONFIG_2 => 0x1E,
            LoRaRegister::PREAMBLE_MSB => 0x20,
            LoRaRegister::PREAMBLE_LSB => 0x21,
            LoRaRegister::PAYLOAD_LENGTH => 0x22,
            LoRaRegister::MODEM_CONFIG_3 => 0x26,
            LoRaRegister::RSSI_WIDEBAND => 0x2C,
            LoRaRegister::DETECTION_OPTIMIZE => 0x31,
            LoRaRegister::DETECTION_THRESHOLD => 0x37,
            LoRaRegister::SYNC_WORD => 0x39,
            LoRaRegister::REG_IRQ_FLAGS_2 => 0x3F,
            LoRaRegister::DIO_MAPPING_1 => 0x40,
            LoRaRegister::DIO_MAPPING_2 => 0x41,
            LoRaRegister::VERSION => 0x42,
        }
    }
}

/// Operating modes, as written to `OP_MODE`; `LONG_RANGE` selects LoRa.
#[allow(non_camel_case_types)]
#[derive(Debug, Clone, Copy, PartialEq, Eq, Structural)]
pub enum LoRaMode {
    LONG_RANGE,
    SLEEP,
    STDBY,
    TX,
    RX_CONTINUOUS,
    RX_SINGLE,
}

pub open spec fn mode_bits(m: LoRaMode) -> u8 {
    match m {
        LoRaMode::LONG_RANGE => 0x80,
        LoRaMode::SLEEP => 0x00,
        LoRaMode::STDBY => 0x01,
        LoRaMode::TX => 0x03,
        LoRaMode::RX_CONTINUOUS => 0x05,
        LoRaMode::RX_SINGLE => 0x06,
    }
}

impl LoRaMode {
    pub fn bits(&self) -> (r: u8)
        ensures
            r == mode_bits(*self),
    {
        match self {
            LoRaMode::LONG_RANGE => 0x80,
            LoRaMode::SLEEP => 0x00,
            LoRaMode::STDBY => 0x01,
            LoRaMode::TX => 0x03,
            LoRaMode::RX_CONTINUOUS => 0x05,
            LoRaMode::RX_SINGLE => 0x06,
        }
    }
}

/// Power amplifier selection in `PA_CONFIG`.
#[allow(non_camel_case_types)]
#[derive(Debug, Clone, Copy, PartialEq, Eq, Structural)]
pub enum PAConfiguration {
    PA_BOOST,
}

impl PAConfiguration {
    pub fn bits(&self) -> (r: u8)
        ensures
            r == 0x80,
    {
        0x80
    }
}

/// Bits of `IRQ_FLAGS`, and the two power amplifier pins.
#[allow(non_camel_case_types)]
#[derive(Debug, Clone, Copy, PartialEq, Eq, Structural)]
pub enum IRQMask {
    IRQ_TX_DONE_MASK,
    IRQ_RX_DONE_MASK,
    IRQ_PAYLOAD_CRC_ERROR,
    PA_OUTPUT_RFO_PIN,
    PA_OUTPUT_PA_BOOST_PIN,
}

pub open spec fn irq_bits(m: IRQMask) -> u8 {
    match m {
        IRQMask::IRQ_TX_DONE_MASK => 0x08,
        IRQMask::IRQ_RX_DONE_MASK => 0x40,
        IRQMask::IRQ_PAYLOAD_CRC_ERROR => 0x20,
        IRQMask::PA_OUTPUT_RFO_PIN => 0,
        IRQMask::PA_OUTPUT_PA_BOOST_PIN => 1,
    }
}

impl IRQMask {
    pub const IRQ_PAYLOAD_CRC_ERROR_MASK: IRQMask = IRQMask::IRQ_PAYLOAD_CRC_ERROR;

    pub fn bits(&self) -> (r: u8)
        ensures
            r == irq_bits(*self),
    {
        match self {
            IRQMask::IRQ_TX_DONE_MASK => 0x08,
            IRQMask::IRQ_RX_DONE_MASK => 0x40,
            IRQMask::IRQ_PAYLOAD_CRC_ERROR => 0x20,
            IRQMask::PA_OUTPUT_RFO_PIN => 0,
            IRQMask::PA_OUTPUT_PA_BOOST_PIN => 1,
        }
    }
}

/// Waits of the modem protocol, in milliseconds.
#[allow(non_camel_case_types)]
#[derive(Debug, Clone, Copy, PartialEq, Eq, Structural)]
pub enum LoRaDelay {
    LORA_DELAY_10MS,
    LORA_DELAY_20MS,
    TIMEOUT_RESET,
}

impl LoRaDelay {
    pub fn millis(&self) -> (r: u64)
        ensures
            r == match *self {
                LoRaDelay::LORA_DELAY_10MS => 10u64,
                LoRaDelay::LORA_DELAY_20MS => 20u64,
                LoRaDelay::TIMEOUT_RESET => 100u64,
            },
    {
        match self {
            LoRaDelay::LORA_DELAY_10MS => 10,
            LoRaDelay::LORA_DELAY_20MS => 20,
            LoRaDelay::TIMEOUT_RESET => 100,
        }
    }
}

/// Direction bit of the first byte of a register transfer.
#[allow(non_camel_case_types)]
#[derive(Debug, Clone, Copy, PartialEq, Eq, Structural)]
pub enum SPIIO {
    SPI_READ,
    SPI_WRITE,
}

impl SPIIO {
    pub fn bits(&self) -> (r: u8)
        ensures
            r == (if *self == SPIIO::SPI_READ {
                0x00u8
            } else {
                0x80u8
            }),
    {
        match self {
            SPIIO::SPI_READ => 0x00,
            SPIIO::SPI_WRITE => 0x80,
        }
    }
}

/// Signal bandwidth; its code (0 to 9) is the high nibble of `MODEM_CONFIG_1`.
#[allow(non_camel_case_types)]
#[derive(Debug, Clone, Copy, PartialEq, Eq, Structural)]
pub enum Bandwidth {
    bandwidth_7_8kHz,
    bandwidth_10_4kHz,
    bandwidth_15_6kHz,
    bandwidth_20_8kHz,
    bandwidth_31_25kHz,
    bandwidth_41_7kHz,
    bandwidth_62_5kHz,
    bandwidth_125kHz,
    bandwidth_250kHz,
    bandwidth_500kHz,
}

pub open spec fn bandwidth_code(b: Bandwidth) -> u8 {
    match b {
        Bandwidth::bandwidth_7_8kHz => 0,
        Bandwidth::bandwidth_10_4kHz => 1,
        Bandwidth::bandwidth_15_6kHz => 2,
        Bandwidth::bandwidth_20_8kHz => 3,
        Bandwidth::bandwidth_31_25kHz => 4,
        Bandwidth::bandwidth_41_7kHz => 5,
        Bandwidth::bandwidth_62_5kHz => 6,
        Bandwidth::bandwidth_125kHz => 7,
        Bandwidth::bandwidth_250kHz => 8,
        Bandwidth::bandwidth_500kHz => 9,
    }
}

impl Bandwidth {
    pub fn code(&self) -> (r: u8)
        ensures
            r == bandwidth_code(*self),
            r <= 9,
    {
        match self {
            Bandwidth::bandwidth_7_8kHz => 0,
            Bandwidth::bandwidth_10_4kHz => 1,
            Bandwidth::bandwidth_15_6kHz => 2,
            Bandwidth::bandwidth_20_8kHz => 3,
            Bandwidth::bandwidth_31_25kHz => 4,
            Bandwidth::bandwidth_41_7kHz => 5,
            Bandwidth::bandwidth_62_5kHz => 6,
            Bandwidth::bandwidth_125kHz => 7,
            Bandwidth::bandwidth_250kHz => 8,
            Bandwidth::bandwidth_500kHz => 9,
        }
    }
}

/// Forward error correction rate 4/5 to 4/8, coded 5 to 8.
#[allow(non_camel_case_types)]
#[derive(Debug, Clone, Copy, PartialEq, Eq, Structural)]
pub enum CodingRate {
    coding_4_5,
    coding_4_6,
    coding_4_7,
    coding_4_8,
}

pub open spec fn coding_rate_code(c: CodingRate) -> u8 {
    match c {
        CodingRate::coding_4_5 => 5,
        CodingRate::coding_4_6 => 6,
        CodingRate::coding_4_7 => 7,
        CodingRate::coding_4_8 => 8,
    }
}

impl CodingRate {
    pub fn code(&self) -> (r: u8)
        ensures
            r == coding_rate_code(*self),
            5 <= r <= 8,
    {
        match self {
            CodingRate::coding_4_5 => 5,
            CodingRate::coding_4_6 => 6,
            CodingRate::coding_4_7 => 7,
            CodingRate::coding_4_8 => 8,
        }
    }
}

/// Spreading factor 7 to 12 (128 to 4096 chips per symbol).
#[allow(non_camel_case_types)]
#[derive(Debug, Clone, Copy, PartialEq, Eq, Structural)]
pub enum SpreadingFactor {
    spreading_factor_128,
    spreading_factor_256,
    spreading_factor_512,
    spreading_factor_1024,
    spreading_factor_2048,
    spreading_factor_4096,
}

pub open spec fn spreading_factor_code(s: SpreadingFactor) -> u8 {
    match s {
        SpreadingFactor::spreading_factor_128 => 7,
        SpreadingFactor::spreading_factor_256 => 8,
        SpreadingFactor::spreading_factor_512 => 9,
        SpreadingFactor::spreading_factor_1024 => 10,
        SpreadingFactor::spreading_factor_2048 => 11,
        SpreadingFactor::spreading_factor_4096 => 12,
    }
}

impl SpreadingFactor {
    pub fn code(&self) -> (r: u8)
        ensures
            r == spreading_factor_code(*self),
            7 <= r <= 12,
    {
        match self {
            SpreadingFactor::spreading_factor_128 => 7,
            SpreadingFactor::spreading_factor_256 => 8,
            SpreadingFactor::spreading_factor_512 => 9,
            SpreadingFactor::spreading_factor_1024 => 10,
            SpreadingFactor::spreading_factor_2048 => 11,
            SpreadingFactor::spreading_factor_4096 => 12,
        }
    }
}

} // verus!
