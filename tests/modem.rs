use rusty_beagle::bus_plan::{
    apply_field, configure_plan, fifo_read_plan, mode_plan, receive_plan, transmit_prepare_plan,
    BusOp, Field,
};
use rusty_beagle::config::{Chip, GPIOPinNumber, LoRaConfig, Mode, RadioConfig, SPIConfig, SpiFlags};
use rusty_beagle::defines::{Bandwidth, CodingRate, LoRaMode, LoRaRegister, SpreadingFactor};
use rusty_beagle::registers::{
    frequency_from_frf, frf_bytes, op_mode_for, pa_config_for, read_command, rssi_from_raw,
    snr_from_raw, write_command,
};
use rusty_beagle::sx1278::SX1278;

fn radio_config() -> RadioConfig {
    RadioConfig {
        frequency: 433_000_000,
        bandwidth: Bandwidth::bandwidth_125kHz,
        coding_rate: CodingRate::coding_4_8,
        spreading_factor: SpreadingFactor::spreading_factor_4096,
        tx_power: 17,
    }
}

fn lora_config(mode: Mode) -> LoRaConfig {
    LoRaConfig {
        chip: Chip::SX1278,
        mode,
        reset_gpio: GPIOPinNumber::GPIO_66,
        dio0_gpio: GPIOPinNumber::GPIO_69,
        spi_config: SPIConfig {
            spidev_path: String::from("/dev/spidev0.0"),
            bits_per_word: 8,
            max_speed_hz: 500_000,
            lsb_first: false,
            spi_mode: SpiFlags::SPI_MODE_0,
        },
        radio_config: radio_config(),
    }
}

fn read(lora: &mut SX1278, register: LoRaRegister) -> u8 {
    let mut value: u8 = 0x00;
    lora.spi_read_register(register, &mut value);
    value
}

#[test]
fn spi_read_register_correct() {
    let mut lora = SX1278::from_config(&lora_config(Mode::RX));
    let mut value: u8 = 0x00;
    lora.spi_read_register(LoRaRegister::PAYLOAD_LENGTH, &mut value);
    assert_eq!(value, 1);
}

#[test]
fn spi_write_register_correct() {
    let mut lora = SX1278::from_config(&lora_config(Mode::RX));
    lora.spi_write_register(LoRaRegister::PAYLOAD_LENGTH, 0xFF);
    assert_eq!(read(&mut lora, LoRaRegister::PAYLOAD_LENGTH), 0xFF);
}

#[test]
fn standby_mode_correct() {
    let mut lora = SX1278::from_config(&lora_config(Mode::RX));
    lora.standby_mode();
    assert_eq!(read(&mut lora, LoRaRegister::OP_MODE), 0x81);
}

#[test]
fn sleep_mode_correct() {
    let mut lora = SX1278::from_config(&lora_config(Mode::RX));
    lora.sleep_mode();
    assert_eq!(read(&mut lora, LoRaRegister::OP_MODE), 0x80);
}

#[test]
fn receive_mode_correct() {
    let mut lora = SX1278::from_config(&lora_config(Mode::RX));
    lora.receive_mode();
    assert_eq!(read(&mut lora, LoRaRegister::OP_MODE), 0x85);
}

#[test]
fn transmit_mode_correct() {
    let mut lora = SX1278::from_config(&lora_config(Mode::RX));
    lora.transmit_mode();
    assert_eq!(read(&mut lora, LoRaRegister::OP_MODE), 0x83);
}

#[test]
fn mode_register_sequence() {
    let mut lora = SX1278::from_config(&lora_config(Mode::RX));
    lora.standby_mode();
    assert_eq!(read(&mut lora, LoRaRegister::OP_MODE), 0x81);
    lora.sleep_mode();
    assert_eq!(read(&mut lora, LoRaRegister::OP_MODE), 0x80);
    lora.receive_mode();
    assert_eq!(read(&mut lora, LoRaRegister::OP_MODE), 0x85);
    lora.transmit_mode();
    assert_eq!(read(&mut lora, LoRaRegister::OP_MODE), 0x83);
    assert_eq!(op_mode_for(LoRaMode::STDBY), 0x81);
}

#[test]
fn set_then_get_parameters() {
    let mut lora = SX1278::from_config(&lora_config(Mode::RX));
    for (b, code) in [(Bandwidth::bandwidth_7_8kHz, 0u8), (Bandwidth::bandwidth_125kHz, 7), (Bandwidth::bandwidth_500kHz, 9)] {
        lora.set_bandwidth(b);
        assert_eq!(lora.get_bandwidth(), code);
    }
    for (c, code) in [(CodingRate::coding_4_5, 5u8), (CodingRate::coding_4_8, 8)] {
        lora.set_coding_rate(c);
        assert_eq!(lora.get_coding_rate(), code);
    }
    for (s, code) in [(SpreadingFactor::spreading_factor_128, 7u8), (SpreadingFactor::spreading_factor_4096, 12)] {
        lora.set_spreading_factor(s);
        assert_eq!(lora.get_spreading_factor(), code);
    }
    lora.enable_crc();
    assert_eq!(lora.get_spreading_factor(), 12);
    assert_eq!(read(&mut lora, LoRaRegister::MODEM_CONFIG_2) & 0x04, 0x04);
    lora.set_frequency(433_000_000);
    let f = lora.get_frequency();
    assert!(f <= 433_000_000 && 433_000_000 - f <= 62, "{}", f);
    assert_eq!(read(&mut lora, LoRaRegister::FRF_MSB), 0x6C);
    assert_eq!(read(&mut lora, LoRaRegister::FRF_MID), 0x40);
    assert_eq!(read(&mut lora, LoRaRegister::FRF_LSB), 0x00);
}

#[test]
fn tx_power_is_clamped() {
    let mut lora = SX1278::from_config(&lora_config(Mode::TX));
    for (level, expected) in [(0u8, 0x82u8), (1, 0x82), (2, 0x82), (10, 0x8A), (17, 0x91), (18, 0x91), (255, 0x91)] {
        lora.set_tx_power(level);
        assert_eq!(read(&mut lora, LoRaRegister::PA_CONFIG), expected);
        assert_eq!(pa_config_for(level), expected);
    }
}

#[test]
fn configure_lora_sets_everything() {
    let mut lora = SX1278::from_config(&lora_config(Mode::TX));
    lora.spi_write_register(LoRaRegister::VERSION, 0x12);
    lora.configure_lora(&radio_config());
    assert_eq!(read(&mut lora, LoRaRegister::VERSION), 1);
    assert_eq!(read(&mut lora, LoRaRegister::OP_MODE), 0x80);
    assert_eq!(lora.get_bandwidth(), 7);
    assert_eq!(lora.get_coding_rate(), 8);
    assert_eq!(lora.get_spreading_factor(), 12);
    assert_eq!(read(&mut lora, LoRaRegister::PA_CONFIG), 0x91);
    assert_eq!(read(&mut lora, LoRaRegister::MODEM_CONFIG_3), 0x04);
    assert_eq!(read(&mut lora, LoRaRegister::DIO_MAPPING_1), 0x41);
    let mut rx = SX1278::from_config(&lora_config(Mode::RX));
    rx.configure_lora(&radio_config());
    assert_eq!(read(&mut rx, LoRaRegister::DIO_MAPPING_1), 0x01);
    assert_eq!(rx.get_mode(), Mode::RX);
}

#[test]
fn receive_and_send_on_the_register_model() {
    let mut lora = SX1278::from_config(&lora_config(Mode::RX));
    lora.spi_write_register(LoRaRegister::FIFO_ADDR_PTR, 0x20);
    for b in [0x41u8, 0x42, 0x43] {
        lora.spi_write_register(LoRaRegister::FIFO, b);
    }
    lora.spi_write_register(LoRaRegister::RX_NB_BYTES, 3);
    lora.spi_write_register(LoRaRegister::FIFO_RX_CURRENT_ADDR, 0x20);
    lora.spi_write_register(LoRaRegister::FIFO_ADDR_PTR, 0x00);
    lora.spi_write_register(LoRaRegister::IRQ_FLAGS, 0x20);
    let mut crc_error = false;
    let bytes = lora.receive_packet(&mut crc_error);
    assert_eq!(bytes, vec![0x41, 0x42, 0x43]);
    assert!(crc_error);
    assert_eq!(read(&mut lora, LoRaRegister::OP_MODE), 0x81);
    assert_eq!(read(&mut lora, LoRaRegister::FIFO_ADDR_PTR), 0x23);

    lora.spi_write_register(LoRaRegister::FIFO_TX_BASE_ADDR, 0x80);
    lora.send_packet(vec![1, 2, 3, 4]);
    assert_eq!(read(&mut lora, LoRaRegister::FIFO_ADDR_PTR), 0x84);
    assert_eq!(read(&mut lora, LoRaRegister::PAYLOAD_LENGTH), 4);
    assert_eq!(read(&mut lora, LoRaRegister::OP_MODE), 0x80);

    lora.spi_write_register(LoRaRegister::FIFO_ADDR_PTR, 0x80);
    let mut buffer = vec![0u8; 5];
    lora.read_fifo(&mut buffer);
    assert_eq!(buffer, vec![1, 2, 3, 4, 0]);
    lora.reset();
    lora.spi_write_register(LoRaRegister::FIFO_ADDR_PTR, 0x21);
    assert_eq!(read(&mut lora, LoRaRegister::FIFO), 0x42);
}

#[test]
fn fifo_pointer_wraps() {
    let mut lora = SX1278::from_config(&lora_config(Mode::TX));
    lora.spi_write_register(LoRaRegister::FIFO_TX_BASE_ADDR, 0xFE);
    lora.send_packet(vec![9, 8, 7]);
    assert_eq!(read(&mut lora, LoRaRegister::FIFO_ADDR_PTR), 0x01);
    lora.spi_write_register(LoRaRegister::FIFO_RX_CURRENT_ADDR, 0xFE);
    lora.spi_write_register(LoRaRegister::RX_NB_BYTES, 3);
    lora.spi_write_register(LoRaRegister::IRQ_FLAGS, 0x40);
    let mut crc_error = false;
    assert_eq!(lora.receive_packet(&mut crc_error), vec![9, 8, 7]);
    assert!(!crc_error);
    lora.spi_write_register(LoRaRegister::FIFO_ADDR_PTR, 0x10);
    lora.write_fifo(vec![5, 6]);
    assert_eq!(read(&mut lora, LoRaRegister::FIFO_ADDR_PTR), 0x12);
}

#[test]
fn receive_and_transmit_plans() {
    let plan = receive_plan();
    assert_eq!(plan[0], BusOp::Write(LoRaRegister::OP_MODE, 0x85));
    assert_eq!(plan[2], BusOp::WaitDio0);
    assert_eq!(plan.len(), 8);
    let rest = fifo_read_plan(&vec![0x00, 2, 0x40]);
    assert_eq!(
        rest,
        vec![
            BusOp::Write(LoRaRegister::FIFO_ADDR_PTR, 0x40),
            BusOp::Read(LoRaRegister::FIFO),
            BusOp::Read(LoRaRegister::FIFO),
        ]
    );
    let prepare = transmit_prepare_plan();
    assert_eq!(prepare[0], BusOp::Modify(LoRaRegister::LNA, Field::LnaBoost));
    assert_eq!(apply_field(Field::LnaBoost, 0x20), 0x23);
    let mut lora = SX1278::from_config(&lora_config(Mode::TX));
    let reads = lora.execute(&vec![BusOp::Read(LoRaRegister::OP_MODE), BusOp::Read(LoRaRegister::LNA)]);
    assert_eq!(reads, vec![1, 1]);
    lora.execute(&prepare);
    assert_eq!(read(&mut lora, LoRaRegister::LNA), 0x03);
    assert_eq!(read(&mut lora, LoRaRegister::OP_MODE), 0x81);
}

#[test]
fn link_quality_readouts() {
    assert_eq!(snr_from_raw(0), 0);
    assert_eq!(snr_from_raw(0xF0), 4);
    assert_eq!(snr_from_raw(40), 54);
    assert_eq!(rssi_from_raw(433_000_000, 100), -64);
    assert_eq!(rssi_from_raw(868_000_000, 100), -57);
    let mut lora = SX1278::from_config(&lora_config(Mode::RX));
    lora.set_frequency(433_000_000);
    lora.spi_write_register(LoRaRegister::PKT_RSSI_VALUE, 60);
    lora.spi_write_register(LoRaRegister::PKT_SNR_VALUE, 0xF8);
    assert_eq!(lora.get_packet_rssi(), -104);
    assert_eq!(lora.get_packet_snr(), 2);
}

#[test]
fn register_commands_and_frequency() {
    assert_eq!(read_command(0x42), (0x42, 0x00));
    assert_eq!(write_command(0x01, 0x81), (0x81, 0x81));
    assert_eq!(frf_bytes(433_000_000), (0x6C, 0x40, 0x00));
    assert_eq!(frequency_from_frf(0x6C, 0x40, 0x00), 433_000_000);
    assert_eq!(frf_bytes(868_100_000), (0xD9, 0x06, 0x66));
    let f = frequency_from_frf(0xD9, 0x06, 0x66);
    assert!(f <= 868_100_000 && 868_100_000 - f <= 62, "{}", f);
}

#[test]
fn plans_drive_the_register_model() {
    let plan = mode_plan(LoRaMode::RX_CONTINUOUS);
    assert_eq!(plan, vec![BusOp::Write(LoRaRegister::OP_MODE, 0x85), BusOp::Settle(10)]);
    let plan = configure_plan(&radio_config(), Mode::TX);
    assert_eq!(plan[0], BusOp::Reset);
    assert_eq!(plan[plan.len() - 1], BusOp::Settle(10));
    assert!(plan.contains(&BusOp::Modify(LoRaRegister::DIO_MAPPING_1, Field::Dio0(Mode::TX))));
    assert!(plan.contains(&BusOp::Write(LoRaRegister::PA_CONFIG, 0x91)));
    let mut lora = SX1278::from_config(&lora_config(Mode::TX));
    lora.spi_write_register(LoRaRegister::MODEM_CONFIG_1, 0xFF);
    lora.execute(&plan);
    assert_eq!(lora.get_bandwidth(), 7);
    assert_eq!(lora.get_coding_rate(), 8);
    assert_eq!(read(&mut lora, LoRaRegister::OP_MODE), 0x80);
    assert_eq!(apply_field(Field::Crc, 0x70), 0x74);
    assert_eq!(apply_field(Field::Dio0(Mode::RX), 0x01), 0x01);
    assert_eq!(apply_field(Field::Bandwidth(Bandwidth::bandwidth_250kHz), 0x7A), 0x8A);
}
