use rusty_beagle::config::{
    parse_port, BME280Config, Chip, Config, GPIOPin, GPIOPinNumber, LoRaConfig, MQTTConfig, Mode, RadioConfig,
    SPIConfig, SpiFlags,
};
use rusty_beagle::csv_writer::{CSVPacketWrapper, CSVWriter};
use rusty_beagle::defines::{Bandwidth, CodingRate, SpreadingFactor};
use rusty_beagle::mqtt::MQTTMessage;
use rusty_beagle::packet::{Data, DataType, DecodeError, Metadata, BME280};
use rusty_beagle::post::{lora_post_verdict, plan_workers, post_result, ModulesState, PostError};
use rusty_beagle::radio::{bring_up_frame, on_reception, sensor_frame};

const BME_FRAME: [u8; 8] = [0x33, 0x22, 0x11, 0x00, 0x01, 0x17, 0x2D, 0x43];

fn lora_config(mode: Mode) -> LoRaConfig {
    LoRaConfig {
        chip: Chip::SX1278,
        mode,
        reset_gpio: GPIOPinNumber::GPIO_66,
        dio0_gpio: GPIOPinNumber::GPIO_69,
        spi_config: SPIConfig {
            spidev_path: String::from("/dev/spidev0.0"),
            bits_per_word: 8,
            max_speed_hz: 500_000,
            lsb_first: false,
            spi_mode: SpiFlags::SPI_MODE_0,
        },
        radio_config: RadioConfig {
            frequency: 433_000_000,
            bandwidth: Bandwidth::bandwidth_125kHz,
            coding_rate: CodingRate::coding_4_8,
            spreading_factor: SpreadingFactor::spreading_factor_4096,
            tx_power: 17,
        },
    }
}

fn mqtt_config() -> MQTTConfig {
    MQTTConfig {
        ip: String::from("127.0.0.1"),
        port: String::from("1883"),
        login: String::from("user"),
        password: String::from("pass"),
        topic: String::from("devices/{device_id}"),
        device_id: 7,
        reconnect_interval: 5,
        enabled: true,
    }
}

#[test]
fn receiver_forwards_enriched_frames() {
    let rec = on_reception(Mode::RX, &BME_FRAME, false, 7, -100, true).unwrap();
    match rec.broker {
        Some(MQTTMessage::PacketWrapper(w)) => {
            assert_eq!(w.packet.id, 0x22);
            assert_eq!(w.packet.data, Data::Bme280(BME280 { temperature: 23, humidity: 45, pressure: 67 }));
            assert_eq!(w.metadata, Metadata { snr: 7, rssi: -100 });
        }
        _ => panic!("expected an enriched record"),
    }
    assert!(rec.csv.is_none());
    let crc = on_reception(Mode::RX, &BME_FRAME, true, 7, -100, true).unwrap();
    assert!(crc.broker.is_none());
    let off = on_reception(Mode::RX, &BME_FRAME, false, 7, -100, false).unwrap();
    assert!(off.broker.is_none());
    assert_eq!(
        on_reception(Mode::RX, &BME_FRAME[..7], false, 0, 0, true).err(),
        Some(DecodeError::LengthMismatch { expected: 8, actual: 7 })
    );
}

#[test]
fn range_test_receiver_logs_frames_and_crc_errors() {
    let rec = on_reception(Mode::RX_RANGE_TEST, &BME_FRAME, false, 1, -90, true).unwrap();
    assert!(rec.broker.is_none());
    assert!(matches!(rec.csv, Some(CSVPacketWrapper::Packet(ref p)) if p.id == 0x22));
    let crc = on_reception(Mode::RX_RANGE_TEST, &BME_FRAME, true, 1, -90, true).unwrap();
    assert!(matches!(crc.csv, Some(CSVPacketWrapper::CRC_ERROR)));
}

#[test]
fn bring_up_and_sensor_frames() {
    let frame = bring_up_frame();
    assert_eq!(frame.to_bytes().unwrap(), vec![0x33, 0xFF, 0x11, 0x00, 0x01, 250, 46, 253]);
    let reading = BME280 { temperature: 46, humidity: 40, pressure: 13 };
    let frame = sensor_frame(9, reading);
    assert_eq!(frame.id, 9);
    assert_eq!(frame.version, 0);
    assert_eq!(frame.data_type, DataType::BME280);
    assert_eq!(frame.data, Data::Bme280(reading));
}

#[test]
fn post_shape_without_network() {
    let config = Config { mqtt_config: Some(mqtt_config()), lora_config: None, bme_config: None };
    let state = post_result(&config, true, false, true);
    assert_eq!(state, ModulesState { lora: false, mqtt: false, bme280: false });
    let plan = plan_workers(&config, &state);
    assert!(!plan.broker && !plan.sensor && !plan.radio && !plan.csv);
}

#[test]
fn workers_follow_post_and_configuration() {
    let config = Config {
        mqtt_config: Some(mqtt_config()),
        lora_config: Some(lora_config(Mode::TX_RANGE_TEST)),
        bme_config: Some(BME280Config {
            i2c_bus_path: String::from("/dev/i2c-2"),
            i2c_address: 0x76,
            measurement_interval: 10,
            enabled: false,
        }),
    };
    let state = post_result(&config, true, true, true);
    assert_eq!(state, ModulesState { lora: true, mqtt: true, bme280: true });
    let plan = plan_workers(&config, &state);
    assert!(plan.broker && !plan.sensor && plan.radio && plan.csv);
}

#[test]
fn lora_post_verdicts() {
    assert_eq!(lora_post_verdict(0, 9), Err(PostError::SpiUnavailable));
    assert_eq!(lora_post_verdict(0x81, 0), Err(PostError::SpiUnavailable));
    assert_eq!(lora_post_verdict(0x81, 0x81), Err(PostError::GpioUnavailable));
    assert_eq!(lora_post_verdict(0x81, 9), Ok(()));
}

#[test]
fn generate_csv_filename_correct() {
    let writer = CSVWriter::new(&lora_config(Mode::RX));
    let name = writer.file_name("20240102030405");
    assert_eq!(name, "20240102030405-433000000-RX.csv");
    assert_eq!(writer.get_path(), "/home/debian/rusty-beagle-csv/");
    assert_eq!(writer.get_radio_config().tx_power, 17);
    let tx = CSVWriter::new(&lora_config(Mode::TX_RANGE_TEST));
    assert_eq!(tx.file_name("x"), "x-433000000-TX_RANGE_TEST.csv");
}

#[test]
fn gpio_pins_map_to_chips() {
    let pin = GPIOPin::from_gpio_pin_number(GPIOPinNumber::GPIO_26);
    assert_eq!((pin.chip.as_str(), pin.offset), ("gpiochip0", 26));
    let pin = GPIOPin::from_gpio_pin_number(GPIOPinNumber::GPIO_44);
    assert_eq!((pin.chip.as_str(), pin.offset), ("gpiochip1", 12));
    let pin = GPIOPin::from_gpio_pin_number(GPIOPinNumber::GPIO_69);
    assert_eq!((pin.chip.as_str(), pin.offset), ("gpiochip2", 5));
    assert_eq!(SpiFlags::SPI_MODE_1.bits(), 1);
}

#[test]
fn range_test_logs_garbled_crc_failures() {
    let garbled = [0x33u8, 0x22, 0x11, 0x00, 0x07];
    let rec = on_reception(Mode::RX_RANGE_TEST, &garbled, true, 0, 0, false).unwrap();
    assert!(matches!(rec.csv, Some(CSVPacketWrapper::CRC_ERROR)));
    assert!(rec.broker.is_none());
    let short = [0x33u8];
    let rec = on_reception(Mode::RX_RANGE_TEST, &short, true, 0, 0, false).unwrap();
    assert!(matches!(rec.csv, Some(CSVPacketWrapper::CRC_ERROR)));
    assert_eq!(
        on_reception(Mode::RX_RANGE_TEST, &garbled, false, 0, 0, false).err(),
        Some(DecodeError::UnknownTag(7))
    );
    assert_eq!(
        on_reception(Mode::RX, &garbled, true, 0, 0, true).err(),
        Some(DecodeError::UnknownTag(7))
    );
}

#[test]
fn csv_cells_show_frames() {
    let sms = rusty_beagle::packet::Packet {
        version: 1,
        id: 1,
        msg_id: 1,
        msg_count: 1,
        data_type: DataType::Sms,
        data: Data::Sms(String::from("Buzzverse")),
    };
    assert_eq!(
        CSVPacketWrapper::Packet(sms).cell(),
        "Packet(Packet { version: 1, id: 1, msg_id: 1, msg_count: 1, data_type: Sms, data: \"Buzzverse\" })"
    );
    assert_eq!(CSVPacketWrapper::CRC_ERROR.cell(), "CRC_ERROR");
    assert_eq!(
        Data::Bme280(BME280 { temperature: 23, humidity: 45, pressure: 67 }).describe(),
        "{ temperature: 23, humidity: 45, pressure: 67 }"
    );
    assert_eq!(
        Data::Gps(rusty_beagle::packet::Gps { status: 1, altitude: 2, latitude: -3, longitude: 4 }).describe(),
        "{ status: 1, altitude: 2, latitude: -3, longitude: 4 }"
    );
    assert_eq!(
        Data::Mq2(rusty_beagle::packet::MQ2 { gas_type: 1, value: 10 }).describe(),
        "{ gas_type: 1, value: 10 }"
    );
    assert_eq!(
        Data::Bma400(rusty_beagle::packet::BMA400 { x: 0, y: 9, z: 100 }).describe(),
        "{ x: 0, y: 9, z: 100 }"
    );
}

#[test]
fn ports_parse_like_u16() {
    for text in ["1883", "+1883", "0", "65535", "65536", "", "+", "12a", " 1", "007", "99999999999", "-1"] {
        assert_eq!(parse_port(text), text.parse::<u16>().ok(), "{:?}", text);
    }
}
