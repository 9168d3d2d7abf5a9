use rusty_beagle::conversions::{vec_to_i32, vec_to_u128, vec_to_u16, vec_to_u64};
use rusty_beagle::packet::{Data, DataType, DecodeError, Gps, Packet, BMA400, BME280, MQ2};
use std::hash::{DefaultHasher, Hash, Hasher};

fn calculate_hash<T: Hash>(t: &T) -> u64 {
    let mut s = DefaultHasher::new();
    t.hash(&mut s);
    s.finish()
}

#[test]
fn serialize_bme280_correct() {
    let packet = Packet {
        version: 0x33,
        id: 0x22,
        msg_id: 0x11,
        msg_count: 0x00,
        data_type: DataType::BME280,
        data: Data::Bme280(BME280 {
            temperature: 23,
            humidity: 45,
            pressure: 67,
        }),
    };

    let expected_data: Vec<u8> = vec![0x33, 0x22, 0x11, 0x00, 0x01, 0x17, 0x2D, 0x43];
    let serialized_packet = packet.to_bytes().unwrap();

    assert_eq!(serialized_packet, expected_data);
}

#[test]
fn deserialize_bme280_correct() {
    let bytes: Vec<u8> = vec![0x33, 0x22, 0x11, 0x00, 0x01, 0x17, 0x2D, 0x43];

    let expected_packet = Packet {
        version: 0x33,
        id: 0x22,
        msg_id: 0x11,
        msg_count: 0x00,
        data_type: DataType::BME280,
        data: Data::Bme280(BME280 {
            temperature: 23,
            humidity: 45,
            pressure: 67,
        }),
    };

    let deserialized_data = Packet::new(&bytes).unwrap();

    assert_eq!(
        calculate_hash(&deserialized_data),
        calculate_hash(&expected_packet)
    );
}

#[test]
fn deserialize_bme280_data_too_short() {
    let bytes: Vec<u8> = vec![0x33, 0x22, 0x11, 0x00, 0x01, 0x17, 0x2D];
    assert!(Packet::new(&bytes).is_err());
}

#[test]
fn deserialize_bme280_packet_too_long() {
    let bytes: Vec<u8> = vec![0x33, 0x22, 0x11, 0x00, 0x01, 0x17, 0x2D, 0x43, 0xFF];
    assert!(Packet::new(&bytes).is_err());
}

#[test]
fn deserialize_bme280_packet_too_short() {
    let bytes: Vec<u8> = vec![0x33, 0x22, 0x11];
    assert!(Packet::new(&bytes).is_err());
}

#[test]
fn serialize_bma400_correct() {
    let packet = Packet {
        version: 0x33,
        id: 0x22,
        msg_id: 0x11,
        msg_count: 0x00,
        data_type: DataType::BMA400,
        data: Data::Bma400(BMA400 {
            x: 255,
            y: 256,
            z: 1024,
        }),
    };

    let expected_data: Vec<u8> = vec![
        0x33, 0x22, 0x11, 0x00, 0x02, 0xFF, 0x00, 0x00, 0x00, 0x00, 0x00, 0x00, 0x00, 0x00,
        0x01, 0x00, 0x00, 0x00, 0x00, 0x00, 0x00, 0x00, 0x04, 0x00, 0x00, 0x00, 0x00, 0x00,
        0x00,
    ];
    let serialized_packet = packet.to_bytes().unwrap();

    assert_eq!(serialized_packet, expected_data);
}

#[test]
fn deserialize_bma400_correct() {
    let bytes: Vec<u8> = vec![
        0x33, 0x22, 0x11, 0x00, 0x02, 0xFF, 0x00, 0x00, 0x00, 0x00, 0x00, 0x00, 0x00, 0x00,
        0x01, 0x00, 0x00, 0x00, 0x00, 0x00, 0x00, 0x00, 0x04, 0x00, 0x00, 0x00, 0x00, 0x00,
        0x00,
    ];

    let expected_packet = Packet {
        version: 0x33,
        id: 0x22,
        msg_id: 0x11,
        msg_count: 0x00,
        data_type: DataType::BMA400,
        data: Data::Bma400(BMA400 {
            x: 255,
            y: 256,
            z: 1024,
        }),
    };

    let deserialized_data = Packet::new(&bytes).unwrap();

    assert_eq!(
        calculate_hash(&deserialized_data),
        calculate_hash(&expected_packet)
    );
}

#[test]
fn deserialize_bma400_data_too_short() {
    let bytes: Vec<u8> = vec![
        0x33, 0x22, 0x11, 0x00, 0x02, 0xFF, 0x00, 0x00, 0x00, 0x00, 0x00, 0x00, 0x00, 0x00,
        0x01, 0x00, 0x00, 0x00, 0x00, 0x00, 0x00, 0x00, 0x04, 0x00, 0x00, 0x00, 0x00, 0x00,
    ];
    assert!(Packet::new(&bytes).is_err());
}

#[test]
fn deserialize_bma400_packet_too_long() {
    let bytes: Vec<u8> = vec![
        0x33, 0x22, 0x11, 0x00, 0x02, 0xFF, 0x00, 0x00, 0x00, 0x00, 0x00, 0x00, 0x00, 0x00,
        0x01, 0x00, 0x00, 0x00, 0x00, 0x00, 0x00, 0x00, 0x04, 0x00, 0x00, 0x00, 0x00, 0x00,
        0x00, 0xFF,
    ];
    assert!(Packet::new(&bytes).is_err());
}

#[test]
fn deserialize_bme400_packet_too_short() {
    let bytes: Vec<u8> = vec![0x33, 0x22, 0x11];
    assert!(Packet::new(&bytes).is_err());
}

#[test]
fn serialize_mq2_correct() {
    let packet = Packet {
        version: 0x33,
        id: 0x22,
        msg_id: 0x11,
        msg_count: 0x00,
        data_type: DataType::MQ2,
        data: Data::Mq2(MQ2 {
            gas_type: 0x01,
            value: u128::MAX,
        }),
    };

    let expected_data: Vec<u8> = vec![
        0x33, 0x22, 0x11, 0x00, 0x03, 0x01, 0xFF, 0xFF, 0xFF, 0xFF, 0xFF, 0xFF, 0xFF, 0xFF,
        0xFF, 0xFF, 0xFF, 0xFF, 0xFF, 0xFF, 0xFF, 0xFF,
    ];
    let serialized_packet = packet.to_bytes().unwrap();

    assert_eq!(serialized_packet, expected_data);
}

#[test]
fn deserialize_mq2_correct() {
    let bytes: Vec<u8> = vec![
        0x33, 0x22, 0x11, 0x00, 0x03, 0x01, 0xFF, 0xFF, 0xFF, 0xFF, 0xFF, 0xFF, 0xFF, 0xFF,
        0xFF, 0xFF, 0xFF, 0xFF, 0xFF, 0xFF, 0xFF, 0xFF,
    ];

    let expected_packet = Packet {
        version: 0x33,
        id: 0x22,
        msg_id: 0x11,
        msg_count: 0x00,
        data_type: DataType::MQ2,
        data: Data::Mq2(MQ2 {
            gas_type: 0x01,
            value: u128::MAX,
        }),
    };

    let deserialized_data = Packet::new(&bytes).unwrap();

    assert_eq!(
        calculate_hash(&deserialized_data),
        calculate_hash(&expected_packet)
    );
}

#[test]
fn deserialize_mq2_data_too_short() {
    let bytes: Vec<u8> = vec![
        0x33, 0x22, 0x11, 0x00, 0x03, 0x01, 0xFF, 0xFF, 0xFF, 0xFF, 0xFF, 0xFF, 0xFF, 0xFF,
        0xFF, 0xFF, 0xFF, 0xFF, 0xFF, 0xFF, 0xFF,
    ];
    assert!(Packet::new(&bytes).is_err());
}

#[test]
fn deserialize_mq2_packet_too_long() {
    let bytes: Vec<u8> = vec![
        0x33, 0x22, 0x11, 0x00, 0x03, 0x01, 0xFF, 0xFF, 0xFF, 0xFF, 0xFF, 0xFF, 0xFF, 0xFF,
        0xFF, 0xFF, 0xFF, 0xFF, 0xFF, 0xFF, 0xFF, 0xFF, 0xFF,
    ];
    assert!(Packet::new(&bytes).is_err());
}

#[test]
fn deserialize_mq2_packet_too_short() {
    let bytes: Vec<u8> = vec![0x33, 0x22, 0x11];
    assert!(Packet::new(&bytes).is_err());
}

#[test]
fn serialize_gps_correct() {
    let packet = Packet {
        version: 0x33,
        id: 0x22,
        msg_id: 0x11,
        msg_count: 0x00,
        data_type: DataType::Gps,
        data: Data::Gps(Gps {
            status: u8::MAX,
            altitude: u16::MAX,
            latitude: i32::MAX,
            longitude: i32::MAX,
        }),
    };

    let expected_data: Vec<u8> = vec![
        0x33, 0x22, 0x11, 0x00, 0x04, 0xFF, 0xFF, 0xFF, 0xFF, 0xFF, 0xFF, 0x7F, 0xFF, 0xFF,
        0xFF, 0x7F,
    ];
    let serialized_packet = packet.to_bytes().unwrap();

    assert_eq!(serialized_packet, expected_data);
}

#[test]
fn deserialize_gps_correct() {
    let bytes: Vec<u8> = vec![
        0x33, 0x22, 0x11, 0x00, 0x04, 0xFF, 0xFF, 0xFF, 0xFF, 0xFF, 0xFF, 0x7F, 0xFF, 0xFF,
        0xFF, 0x7F,
    ];

    let expected_packet = Packet {
        version: 0x33,
        id: 0x22,
        msg_id: 0x11,
        msg_count: 0x00,
        data_type: DataType::Gps,
        data: Data::Gps(Gps {
            status: u8::MAX,
            altitude: u16::MAX,
            latitude: i32::MAX,
            longitude: i32::MAX,
        }),
    };

    let deserialized_data = Packet::new(&bytes).unwrap();

    assert_eq!(
        calculate_hash(&deserialized_data),
        calculate_hash(&expected_packet)
    );
}

#[test]
fn deserialize_gps_data_too_short() {
    let bytes: Vec<u8> = vec![
        0x33, 0x22, 0x11, 0x00, 0x04, 0xFF, 0xFF, 0xFF, 0xFF, 0xFF, 0xFF, 0x7F, 0xFF, 0xFF,
        0xFF,
    ];
    assert!(Packet::new(&bytes).is_err());
}

#[test]
fn deserialize_gps_packet_too_long() {
    let bytes: Vec<u8> = vec![
        0x33, 0x22, 0x11, 0x00, 0x04, 0xFF, 0xFF, 0xFF, 0xFF, 0xFF, 0xFF, 0x7F, 0xFF, 0xFF,
        0xFF, 0x7F, 0xFF,
    ];
    assert!(Packet::new(&bytes).is_err());
}

#[test]
fn deserialize_gps_packet_too_short() {
    let bytes: Vec<u8> = vec![0x33, 0x22, 0x11];
    assert!(Packet::new(&bytes).is_err());
}

#[test]
fn serialize_sms_correct() {
    let packet = Packet {
        version: 0x33,
        id: 0x22,
        msg_id: 0x11,
        msg_count: 0x00,
        data_type: DataType::Sms,
        data: Data::Sms(String::from("AB")),
    };

    let expected_data: Vec<u8> = vec![0x33, 0x22, 0x11, 0x00, 0x20, 0x41, 0x42];
    let serialized_packet = packet.to_bytes().unwrap();

    assert_eq!(serialized_packet, expected_data);
}

#[test]
fn deserialize_sms_correct() {
    let bytes: Vec<u8> = vec![0x33, 0x22, 0x11, 0x00, 0x20, 0x41, 0x42];

    let expected_packet = Packet {
        version: 0x33,
        id: 0x22,
        msg_id: 0x11,
        msg_count: 0x00,
        data_type: DataType::Sms,
        data: Data::Sms(String::from("AB")),
    };

    let deserialized_data = Packet::new(&bytes).unwrap();

    assert_eq!(
        calculate_hash(&deserialized_data),
        calculate_hash(&expected_packet)
    );
}

#[test]
fn deserialize_sms_data_too_short() {
    let bytes: Vec<u8> = vec![0x33, 0x22, 0x11, 0x00, 0x20]; // 0 byte string
    assert!(Packet::new(&bytes).is_err());
}

#[test]
fn deserialize_sms_packet_too_long() {
    let bytes: Vec<u8> = vec![
        0x33, 0x22, 0x11, 0x00, 0x20, 0x20, 0x20, 0x20, 0x20, 0x20, 0x20, 0x20, 0x20, 0x20,
        0x20, 0x20, 0x20, 0x20, 0x20, 0x20, 0x20, 0x20, 0x20, 0x20, 0x20, 0x20, 0x20, 0x20,
        0x20, 0x20, 0x20, 0x20, 0x20, 0x20, 0x20, 0x20, 0x20, 0x20, 0x20, 0x20, 0x20, 0x20,
        0x20, 0x20, 0x20, 0x20, 0x20, 0x20, 0x20, 0x20, 0x20, 0x20, 0x20, 0x20, 0x20, 0x20,
        0x20, 0x20, 0x20, 0x20, 0x20, 0x20, 0x20, 0x20, 0x20,
    ];
    assert!(Packet::new(&bytes).is_err());
}

#[test]
fn deserialize_sms_packet_too_short() {
    let bytes: Vec<u8> = vec![0x33, 0x22, 0x11];
    assert!(Packet::new(&bytes).is_err());
}
fn header(tag: u8) -> Vec<u8> {
    vec![0x33, 0x22, 0x11, 0x00, tag]
}

#[test]
fn decode_errors_are_exact() {
    assert_eq!(Packet::new(&[0x33, 0x22, 0x11]).unwrap_err(), DecodeError::ShortHeader);
    assert_eq!(Packet::new(&[]).unwrap_err(), DecodeError::ShortHeader);
    let mut bme = header(1);
    bme.extend_from_slice(&[1, 2]);
    assert_eq!(
        Packet::new(&bme).unwrap_err(),
        DecodeError::LengthMismatch { expected: 8, actual: 7 }
    );
    let mut unknown = header(7);
    unknown.extend_from_slice(&[1, 2, 3]);
    assert_eq!(Packet::new(&unknown).unwrap_err(), DecodeError::UnknownTag(7));
    assert_eq!(Packet::new(&header(0)).unwrap_err(), DecodeError::UnknownTag(0));
    let mut bad_text = header(32);
    bad_text.extend_from_slice(&[0xff, 0xfe]);
    assert_eq!(Packet::new(&bad_text).unwrap_err(), DecodeError::BadUtf8InSms);
    assert_eq!(
        Packet::new(&header(32)).unwrap_err(),
        DecodeError::LengthMismatch { expected: 6, actual: 5 }
    );
}

#[test]
fn sms_length_bound() {
    let mut ab = header(32);
    ab.extend_from_slice(&[0x41, 0x42]);
    let packet = Packet::new(&ab).unwrap();
    assert_eq!(packet.data, Data::Sms(String::from("AB")));
    let mut long = header(32);
    long.extend_from_slice(&[0x41; 60]);
    assert_eq!(
        Packet::new(&long).unwrap_err(),
        DecodeError::LengthMismatch { expected: 64, actual: 65 }
    );
    let mut longest = header(32);
    longest.extend_from_slice(&[0x41; 59]);
    assert!(Packet::new(&longest).is_ok());
}

#[test]
fn fixed_length_tags_refuse_other_lengths() {
    for (tag, len) in [(1u8, 8usize), (2, 29), (3, 22), (4, 16)] {
        for n in 5..=70usize {
            let mut bytes = header(tag);
            bytes.resize(n, 0);
            let r = Packet::new(&bytes);
            if n == len {
                assert!(r.is_ok());
            } else {
                assert!(matches!(r, Err(DecodeError::LengthMismatch { .. })), "tag {} len {}", tag, n);
            }
        }
    }
}

#[test]
fn unknown_tags_refused() {
    for tag in 0..=255u8 {
        if [1, 2, 3, 4, 32].contains(&tag) {
            continue;
        }
        for n in 5..=64usize {
            let mut bytes = header(tag);
            bytes.resize(n, 0x41);
            assert_eq!(Packet::new(&bytes).unwrap_err(), DecodeError::UnknownTag(tag));
        }
    }
}

#[test]
fn round_trip_frames() {
    let frames = vec![
        Packet {
            version: 1,
            id: 2,
            msg_id: 3,
            msg_count: 4,
            data_type: DataType::Gps,
            data: Data::Gps(Gps { status: 7, altitude: 513, latitude: -5_012_345, longitude: i32::MIN }),
        },
        Packet {
            version: 9,
            id: 8,
            msg_id: 7,
            msg_count: 6,
            data_type: DataType::Sms,
            data: Data::Sms(String::from("zażółć gęślą jaźń")),
        },
        Packet {
            version: 0,
            id: 0,
            msg_id: 0,
            msg_count: 0,
            data_type: DataType::MQ2,
            data: Data::Mq2(MQ2 { gas_type: 2, value: 0x0102_0304_0506_0708_090a_0b0c_0d0e_0f10 }),
        },
        Packet {
            version: 0,
            id: 0,
            msg_id: 0,
            msg_count: 0,
            data_type: DataType::BMA400,
            data: Data::Bma400(BMA400 { x: u64::MAX, y: 0, z: 0x0102_0304_0506_0708 }),
        },
        Packet {
            version: 0,
            id: 0,
            msg_id: 0,
            msg_count: 0,
            data_type: DataType::BME280,
            data: Data::Bme280(BME280 { temperature: 250, humidity: 46, pressure: 253 }),
        },
    ];
    for frame in frames {
        let bytes = frame.to_bytes().unwrap();
        let back = Packet::new(&bytes).unwrap();
        assert_eq!(back, frame);
        assert_eq!(back.to_bytes().unwrap(), bytes);
    }
}

#[test]
fn gps_layout_is_little_endian() {
    let frame = Packet {
        version: 0x33,
        id: 0x22,
        msg_id: 0x11,
        msg_count: 0x00,
        data_type: DataType::Gps,
        data: Data::Gps(Gps { status: 1, altitude: 0x0203, latitude: -2, longitude: 0x01020304 }),
    };
    assert_eq!(
        frame.to_bytes().unwrap(),
        vec![0x33, 0x22, 0x11, 0x00, 0x04, 0x01, 0x03, 0x02, 0xFE, 0xFF, 0xFF, 0xFF, 0x04, 0x03, 0x02, 0x01]
    );
}

#[test]
fn encode_refuses_malformed_frames() {
    let mismatched = Packet {
        version: 0,
        id: 0,
        msg_id: 0,
        msg_count: 0,
        data_type: DataType::Sms,
        data: Data::Bme280(BME280 { temperature: 1, humidity: 2, pressure: 3 }),
    };
    assert_eq!(mismatched.to_bytes().unwrap_err(), rusty_beagle::packet::EncodeError::TagMismatch);
    let empty = Packet {
        version: 0,
        id: 0,
        msg_id: 0,
        msg_count: 0,
        data_type: DataType::Sms,
        data: Data::Sms(String::new()),
    };
    assert_eq!(
        empty.to_bytes().unwrap_err(),
        rusty_beagle::packet::EncodeError::BadLength { payload_len: 0 }
    );
    let long = Packet {
        version: 0,
        id: 0,
        msg_id: 0,
        msg_count: 0,
        data_type: DataType::Sms,
        data: Data::Sms("x".repeat(60)),
    };
    assert_eq!(
        long.to_bytes().unwrap_err(),
        rusty_beagle::packet::EncodeError::BadLength { payload_len: 60 }
    );
}

#[test]
fn data_type_tags() {
    assert_eq!(DataType::new(1).unwrap(), DataType::BME280);
    assert_eq!(DataType::new(32).unwrap(), DataType::Sms);
    assert_eq!(DataType::new(5).unwrap_err(), DecodeError::UnknownTag(5));
    assert_eq!(DataType::Gps.tag(), 4);
}

#[test]
fn payload_decoding_alone() {
    let bytes = vec![0x33, 0x22, 0x11, 0x00, 0x01, 0x17, 0x2D, 0x43];
    assert_eq!(
        Data::from_bytes(&bytes).unwrap(),
        Data::Bme280(BME280 { temperature: 23, humidity: 45, pressure: 67 })
    );
}

#[test]
fn little_endian_reads() {
    let bytes = [0xAA, 0x01, 0x02, 0x03, 0x04, 0x05, 0x06, 0x07, 0x08, 0xFF, 0xFF, 0xFF, 0xFF, 0xFF, 0xFF, 0xFF, 0xFF, 0xFF];
    assert_eq!(vec_to_u16(&bytes, 1), 0x0201);
    assert_eq!(vec_to_u64(&bytes, 1), 0x0807_0605_0403_0201);
    assert_eq!(vec_to_i32(&bytes, 9), -1);
    assert_eq!(vec_to_i32(&bytes, 1), 0x04030201);
    assert_eq!(vec_to_u128(&bytes, 1), 0xFFFF_FFFF_FFFF_FFFF_0807_0605_0403_0201u128);
}
