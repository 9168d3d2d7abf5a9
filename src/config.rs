//! Deployment configuration: which subsystems run, and with which parameters.

use crate::defines::{Bandwidth, CodingRate, SpreadingFactor};
use vstd::prelude::*;
use vstd::string::StringSliceAdditionalSpecFns;

verus! {

/// The whole configuration; an absent section disables its subsystem.
#[derive(Debug, Clone)]
pub struct Config {
    pub mqtt_config: Option<MQTTConfig>,
    pub lora_config: Option<LoRaConfig>,
    pub bme_config: Option<BME280Config>,
}

/// Broker connection; `topic` may hold `{device_id}`.
#[derive(Debug, Clone)]
pub struct MQTTConfig {
    pub ip: String,
    pub port: String,
    pub login: String,
    pub password: String,
    pub topic: String,
    pub device_id: u8,
    pub reconnect_interval: u64,
    pub enabled: bool,
}

#[derive(Debug, Clone)]
pub struct BME280Config {
    pub i2c_bus_path: String,
    pub i2c_address: u8,
    pub measurement_interval: u64,
    pub enabled: bool,
}

#[derive(Debug, Clone)]
pub struct SPIConfig {
    pub spidev_path: String,
    pub bits_per_word: u8,
    pub max_speed_hz: u32,
    pub lsb_first: bool,
    pub spi_mode: SpiFlags,
}

#[derive(Debug, Clone)]
pub struct LoRaConfig {
    pub chip: Chip,
    pub mode: Mode,
    pub reset_gpio: GPIOPinNumber,
    pub dio0_gpio: GPIOPinNumber,
    pub spi_config: SPIConfig,
    pub radio_config: RadioConfig,
}

#[derive(Debug, Clone, Copy, PartialEq, Eq, Structural)]
pub struct RadioConfig {
    pub frequency: u64,
    pub bandwidth: Bandwidth,
    pub coding_rate: CodingRate,
    pub spreading_factor: SpreadingFactor,
    pub tx_power: u8,
}

/// The modem chips the driver knows.
#[derive(Debug, Clone, Copy, PartialEq, Eq, Structural)]
pub enum Chip {
    SX1278,
}

/// The role of the radio, fixed at start.
#[allow(non_camel_case_types)]
#[derive(Debug, Clone, Copy, PartialEq, Eq, Structural)]
pub enum Mode {
    RX,
    TX,
    RX_RANGE_TEST,
    TX_RANGE_TEST,
}

impl Mode {
    /// Whether the radio sends in this role.
    pub fn is_transmitter(&self) -> (r: bool)
        ensures
            r == (*self == Mode::TX || *self == Mode::TX_RANGE_TEST),
    {
        match self {
            Mode::TX | Mode::TX_RANGE_TEST => true,
            Mode::RX | Mode::RX_RANGE_TEST => false,
        }
    }
}

/// The SoC pins the modem's reset and DIO0 lines may be wired to.
#[allow(non_camel_case_types)]
#[derive(Debug, Clone, Copy, PartialEq, Eq, Structural)]
pub enum GPIOPinNumber {
    GPIO_26,
    GPIO_27,
    GPIO_40,
    GPIO_44,
    GPIO_45,
    GPIO_46,
    GPIO_47,
    GPIO_60,
    GPIO_61,
    GPIO_65,
    GPIO_66,
    GPIO_67,
    GPIO_68,
    GPIO_69,
}

pub open spec fn pin_number(p: GPIOPinNumber) -> u32 {
    match p {
        GPIOPinNumber::GPIO_26 => 26,
        GPIOPinNumber::GPIO_27 => 27,
        GPIOPinNumber::GPIO_40 => 40,
        GPIOPinNumber::GPIO_44 => 44,
        GPIOPinNumber::GPIO_45 => 45,
        GPIOPinNumber::GPIO_46 => 46,
        GPIOPinNumber::GPIO_47 => 47,
        GPIOPinNumber::GPIO_60 => 60,
        GPIOPinNumber::GPIO_61 => 61,
        GPIOPinNumber::GPIO_65 => 65,
        GPIOPinNumber::GPIO_66 => 66,
        GPIOPinNumber::GPIO_67 => 67,
        GPIOPinNumber::GPIO_68 => 68,
        GPIOPinNumber::GPIO_69 => 69,
    }
}

impl GPIOPinNumber {
    /// The SoC-wide number of this pin.
    pub fn number(&self) -> (r: u32)
        ensures
            r == pin_number(*self),
    {
        match self {
            GPIOPinNumber::GPIO_26 => 26,
            GPIOPinNumber::GPIO_27 => 27,
            GPIOPinNumber::GPIO_40 => 40,
            GPIOPinNumber::GPIO_44 => 44,
            GPIOPinNumber::GPIO_45 => 45,
            GPIOPinNumber::GPIO_46 => 46,
            GPIOPinNumber::GPIO_47 => 47,
            GPIOPinNumber::GPIO_60 => 60,
            GPIOPinNumber::GPIO_61 => 61,
            GPIOPinNumber::GPIO_65 => 65,
            GPIOPinNumber::GPIO_66 => 66,
            GPIOPinNumber::GPIO_67 => 67,
            GPIOPinNumber::GPIO_68 => 68,
            GPIOPinNumber::GPIO_69 => 69,
        }
    }
}

/// A GPIO line as the kernel names it: a chip device and an offset on it.
pub struct GPIOPin {
    pub chip: String,
    pub offset: u32,
}

/// The name of the GPIO chip that serves bank `bank` (banks past 3 go to the last chip).
pub open spec fn chip_name(bank: u32) -> Seq<char> {
    if bank == 0 {
        "gpiochip0"@
    } else if bank == 1 {
        "gpiochip1"@
    } else if bank == 2 {
        "gpiochip2"@
    } else {
        "gpiochip3"@
    }
}

impl GPIOPin {
    /// Pin `n` lies on chip `n / 32` at offset `n % 32`.
    pub fn from_gpio_pin_number(gpio_pin_number: GPIOPinNumber) -> (r: GPIOPin)
        ensures
            r.chip@ == chip_name(pin_number(gpio_pin_number) / 32),
            r.offset == pin_number(gpio_pin_number) % 32,
    {
        let pin_number = gpio_pin_number.number();
        let chip = if pin_number < 32 {
            "gpiochip0".to_owned()
        } else if pin_number < 64 {
            "gpiochip1".to_owned()
        } else if pin_number < 96 {
            "gpiochip2".to_owned()
        } else {
            "gpiochip3".to_owned()
        };
        GPIOPin { chip, offset: pin_number % 32 }
    }
}

/// SPI mode flags of the Linux spidev interface.
#[allow(non_camel_case_types)]
#[derive(Debug, Clone, Copy, PartialEq, Eq, Structural, PartialOrd, Ord, Hash)]
pub enum SpiFlags {
    /// Clock Phase
    SPI_CPHA,
    /// Clock Polarity
    SPI_CPOL,
    /// Chipselect Active High?
    SPI_CS_HIGH,
    /// Per-word Bits On Wire
    SPI_LSB_FIRST,
    /// SI/SO Signals Shared
    SPI_3WIRE,
    /// Loopback Mode
    SPI_LOOP,
    /// 1 dev/bus, no chipselect
    SPI_NO_CS,
    /// Slave pulls low to pause
    SPI_READY,
    SPI_MODE_0,
    /// Transmit with 2 wires
    SPI_TX_DUAL,
    /// Transmit with 4 wires
    SPI_TX_QUAD,
    /// Receive with 2 wires
    SPI_RX_DUAL,
    /// Receive with 4 wires
    SPI_RX_QUAD,
}

pub open spec fn spi_flag_bits(f: SpiFlags) -> u32 {
    match f {
        SpiFlags::SPI_CPHA => 0x01,
        SpiFlags::SPI_CPOL => 0x02,
        SpiFlags::SPI_CS_HIGH => 0x04,
        SpiFlags::SPI_LSB_FIRST => 0x08,
        SpiFlags::SPI_3WIRE => 0x10,
        SpiFlags::SPI_LOOP => 0x20,
        SpiFlags::SPI_NO_CS => 0x40,
        SpiFlags::SPI_READY => 0x80,
        SpiFlags::SPI_MODE_0 => 0x00,
        SpiFlags::SPI_TX_DUAL => 0x100,
        SpiFlags::SPI_TX_QUAD => 0x200,
        SpiFlags::SPI_RX_DUAL => 0x400,
        SpiFlags::SPI_RX_QUAD => 0x800,
    }
}

impl SpiFlags {
    pub const SPI_MODE_1: SpiFlags = SpiFlags::SPI_CPHA;

    pub const SPI_MODE_2: SpiFlags = SpiFlags::SPI_CPOL;

    pub const SPI_MODE_3: SpiFlags = SpiFlags::SPI_MODE_0;

    /// The flag's bit in the kernel's mode word.
    pub fn bits(&self) -> (r: u32)
        ensures
            r == spi_flag_bits(*self),
    {
        match self {
            SpiFlags::SPI_CPHA => 0x01,
            SpiFlags::SPI_CPOL => 0x02,
            SpiFlags::SPI_CS_HIGH => 0x04,
            SpiFlags::SPI_LSB_FIRST => 0x08,
            SpiFlags::SPI_3WIRE => 0x10,
            SpiFlags::SPI_LOOP => 0x20,
            SpiFlags::SPI_NO_CS => 0x40,
            SpiFlags::SPI_READY => 0x80,
            SpiFlags::SPI_MODE_0 => 0x00,
            SpiFlags::SPI_TX_DUAL => 0x100,
            SpiFlags::SPI_TX_QUAD => 0x200,
            SpiFlags::SPI_RX_DUAL => 0x400,
            SpiFlags::SPI_RX_QUAD => 0x800,
        }
    }
}

/// Whether every byte of `b` is an ASCII digit.
pub open spec fn all_digits(b: Seq<u8>) -> bool {
    forall|i: int| 0 <= i < b.len() ==> 48 <= #[trigger] b[i] <= 57
}

/// The number the ASCII digits `b` spell in decimal.
pub open spec fn digits_value(b: Seq<u8>) -> nat
    decreases b.len(),
{
    if b.len() == 0 {
        0
    } else {
        digits_value(b.drop_last()) * 10 + (b.last() - 48) as nat
    }
}

/// The port number a text spells: an optional `+`, then one or more ASCII
/// digits whose value is at most 65535.
pub open spec fn port_value(b: Seq<u8>) -> Option<u16> {
    let d = if b.len() > 0 && b[0] == 43 {
        b.drop_first()
    } else {
        b
    };
    if d.len() > 0 && all_digits(d) && digits_value(d) <= 65535 {
        Some(digits_value(d) as u16)
    } else {
        None
    }
}

/// The port number `text` spells, or `None`.
pub fn parse_port(text: &str) -> (r: Option<u16>)
    ensures
        r == port_value(text.spec_bytes()),
{
    let b = text.as_bytes();
    let n = b.len();
    let start: usize = if n > 0 && b[0] == 43 {
        1
    } else {
        0
    };
    let ghost d = if n > 0 && b@[0] == 43 {
        b@.drop_first()
    } else {
        b@
    };
    assert(d =~= b@.subrange(start as int, n as int));
    if start == n {
        return None;
    }
    let mut value: u32 = 0;
    let mut i: usize = start;
    while i < n
        invariant
            start <= i <= n,
            n == b@.len(),
            b@ == text.spec_bytes(),
            d == b@.subrange(start as int, n as int),
            d == (if b@.len() > 0 && b@[0] == 43 {
                b@.drop_first()
            } else {
                b@
            }),
            all_digits(b@.subrange(start as int, i as int)),
            value as nat == if digits_value(b@.subrange(start as int, i as int)) < 65536 {
                digits_value(b@.subrange(start as int, i as int))
            } else {
                65536
            },
        decreases n - i,
    {
        let c = b[i];
        if c < 48 || c > 57 {
            assert(d[i - start] == c);
            assert(!all_digits(d));
            return None;
        }
        let ghost prefix = b@.subrange(start as int, i as int);
        let ghost next = b@.subrange(start as int, i + 1);
        assert(next.drop_last() =~= prefix);
        assert(next.last() == c);
        assert(digits_value(next) == digits_value(prefix) * 10 + (c - 48) as nat);
        let v = value * 10 + (c - 48) as u32;
        assert(digits_value(prefix) >= 65536 ==> digits_value(next) >= 65536) by (nonlinear_arith)
            requires
                digits_value(next) == digits_value(prefix) * 10 + (c - 48) as nat,
        ;
        value = if v > 65536 {
            65536
        } else {
            v
        };
        i = i + 1;
    }
    assert(b@.subrange(start as int, n as int) == d);
    if value > 65535 {
        None
    } else {
        Some(value as u16)
    }
}

} // verus!
