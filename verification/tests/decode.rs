//! Decoding tests: the recorded sample captures of each device type, exact
//! field values, the error taxonomy, and strict-mode integrity checking.

use fine_offset::devices::{
    decode_measurements, to_measurements, to_measurements_with_mode, ClockTime, Measured,
    Measurement,
};
use fine_offset::message::{bitstream_to_payload, payload_to_message, preamble, SensorError};

const WH31_E_SAMPLES: [[u8; 11]; 11] = [
    [
        0x30, 0xc3, 0x82, 0x0a, 0x5e, 0xdf, 0xbc, 0x07, 0x56, 0xa7, 0xae,
    ],
    [
        0x30, 0x44, 0x92, 0x1a, 0x39, 0x5a, 0xb3, 0x07, 0x45, 0x04, 0x5f,
    ],
    [
        0x30, 0xc3, 0x81, 0xd5, 0x5c, 0x2a, 0xcf, 0x08, 0x35, 0x44, 0x2c,
    ],
    [
        0x30, 0x35, 0xc2, 0x2f, 0x3c, 0x0f, 0xa1, 0x07, 0x52, 0x29, 0x9f,
    ],
    [
        0x30, 0x35, 0xc2, 0x2e, 0x3c, 0xfb, 0x8c, 0x07, 0x52, 0x29, 0x9f,
    ],
    [
        0x30, 0xc9, 0xa2, 0x1e, 0x40, 0x0c, 0x05, 0x07, 0x34, 0xc6, 0xb1,
    ],
    [
        0x30, 0x2b, 0xb2, 0x14, 0x3d, 0x94, 0xf2, 0x08, 0x53, 0x78, 0xe6,
    ],
    [
        0x30, 0xc9, 0xa2, 0x1f, 0x40, 0xf8, 0xf2, 0x07, 0x34, 0xc6, 0xb1,
    ],
    [
        0x30, 0x44, 0x92, 0x13, 0x3e, 0x0e, 0x65, 0x07, 0x45, 0x04, 0x5f,
    ],
    [
        0x30, 0x44, 0x92, 0x15, 0x3d, 0x07, 0x5f, 0x07, 0x45, 0x04, 0x5f,
    ],
    [
        0x30, 0xc3, 0x81, 0xd6, 0x5b, 0x90, 0x35, 0x08, 0x35, 0x44, 0x2c,
    ],
];

const WH31_E_RCC_SAMPLES: [[u8; 11]; 14] = [
    [
        0x52, 0x27, 0x4a, 0x20, 0x10, 0x20, 0x02, 0x06, 0x55, 0x05, 0x75,
    ],
    [
        0x52, 0x27, 0x4a, 0x20, 0x10, 0x20, 0x02, 0x08, 0x02, 0x81, 0xa0,
    ],
    [
        0x52, 0x75, 0x4a, 0x20, 0x10, 0x20, 0x07, 0x35, 0x03, 0x8a, 0x2a,
    ],
    [
        0x52, 0x58, 0x4a, 0x20, 0x10, 0x20, 0x07, 0x35, 0x51, 0x48, 0x19,
    ],
    [
        0x52, 0x75, 0x4a, 0x20, 0x10, 0x20, 0x07, 0x36, 0x05, 0x01, 0xa4,
    ],
    [
        0x52, 0x58, 0x4a, 0x20, 0x10, 0x20, 0x07, 0x36, 0x54, 0x90, 0x65,
    ],
    [
        0x52, 0x75, 0x4a, 0x20, 0x10, 0x20, 0x07, 0x37, 0x07, 0x97, 0x3d,
    ],
    [
        0x52, 0x58, 0x4a, 0x20, 0x10, 0x20, 0x07, 0x37, 0x57, 0x37, 0x10,
    ],
    [
        0x52, 0x75, 0x4a, 0x20, 0x10, 0x20, 0x07, 0x38, 0x09, 0x11, 0xba,
    ],
    [
        0x52, 0x58, 0x4a, 0x20, 0x10, 0x20, 0x07, 0x39, 0x00, 0xb3, 0x37,
    ],
    [
        0x52, 0xa0, 0x4a, 0x20, 0x10, 0x20, 0x08, 0x05, 0x50, 0x0f, 0xf8,
    ],
    [
        0x52, 0xa0, 0x4a, 0x20, 0x10, 0x20, 0x08, 0x06, 0x58, 0x9b, 0x8d,
    ],
    [
        0x52, 0xa0, 0x4a, 0x20, 0x10, 0x20, 0x08, 0x08, 0x06, 0x97, 0x39,
    ],
    [
        0x52, 0xa0, 0x4a, 0x20, 0x10, 0x20, 0x08, 0x09, 0x14, 0x42, 0xf3,
    ],
];

const WH40_SAMPLES: [[u8; 7]; 11] = [
    [0x40, 0x00, 0xcd, 0x6f, 0x10, 0x00, 0x00],
    [0x40, 0x00, 0xcd, 0x6f, 0x10, 0x00, 0x01],
    [0x40, 0x00, 0xcd, 0x6f, 0x10, 0x00, 0x02],
    [0x40, 0x00, 0xcd, 0x6f, 0x10, 0x00, 0x03],
    [0x40, 0x00, 0xcd, 0x6f, 0x10, 0x00, 0x04],
    [0x40, 0x00, 0xcd, 0x6f, 0x10, 0x00, 0x05],
    [0x40, 0x00, 0xcd, 0x6f, 0x10, 0x00, 0x06],
    [0x40, 0x00, 0xcd, 0x6f, 0x10, 0x00, 0x07],
    [0x40, 0x00, 0xcd, 0x6f, 0x10, 0x00, 0x08],
    [0x40, 0x00, 0xcd, 0x6f, 0x10, 0x00, 0x09],
    [0x40, 0x00, 0xcd, 0x6f, 0x10, 0x00, 0x0a],
];

const WS68_SAMPLES: [[u8; 13]; 6] = [
    [
        0x68, 0x00, 0x00, 0xc5, 0x00, 0x00, 0x4b, 0x0f, 0xff, 0xff, 0x00, 0x5a, 0x00,
    ],
    [
        0x68, 0x00, 0x00, 0xc5, 0x00, 0x00, 0x4b, 0x0f, 0xff, 0xff, 0x00, 0xb4, 0x00,
    ],
    [
        0x68, 0x00, 0x00, 0xc5, 0x00, 0x00, 0x4b, 0x0f, 0xff, 0xff, 0x7e, 0xe0, 0x94,
    ],
    [
        0x68, 0x00, 0x00, 0xc5, 0x00, 0x00, 0x4b, 0x2f, 0xff, 0xff, 0x00, 0x0e, 0x00,
    ],
    [
        0x68, 0x00, 0x00, 0xc5, 0x00, 0x0f, 0x4b, 0x0f, 0xff, 0xff, 0x00, 0x2e, 0x00,
    ],
    [
        0x68, 0x00, 0x00, 0xc5, 0x01, 0x07, 0x4b, 0x0f, 0xff, 0xff, 0x00, 0x2e, 0x00,
    ],
];

/// One capture: `n` sync bytes of noise, the preamble, the sample row, and a
/// trailing tail, exactly as the recorded fixtures were framed.
fn frame(noise: usize, row: &[u8]) -> Vec<u8> {
    let mut v: Vec<u8> = vec![0xaa; noise];
    v.extend_from_slice(&preamble());
    v.extend_from_slice(row);
    v.extend_from_slice(&[0x00; 4]);
    v
}

#[test]
fn test_wh31_e() {
    // Test increasing amounts of sync values at the beginning of the payload
    for (i, row) in WH31_E_SAMPLES.iter().enumerate() {
        let row_vec = frame(i, row);

        let payload = bitstream_to_payload(&row_vec).expect("Found no payload in the bitstream");
        assert_eq!(&payload[0..payload.len() - 4], row);

        let measurements = to_measurements_with_mode(&row_vec, false)
            .expect("Failed to convert payload data to content");
        assert!(measurements.len() > 0);
        for measurement in measurements {
            println!("Measurement: {:?}", measurement);
        }
    }
}

#[test]
fn test_wh31_e_rcc() {
    // Test increasing amounts of sync values at the beginning of the payload
    for (i, row) in WH31_E_RCC_SAMPLES.iter().enumerate() {
        let row_vec = frame(i, row);

        let payload = bitstream_to_payload(&row_vec).expect("Found no payload in the bitstream");
        assert_eq!(&payload[0..payload.len() - 4], row);

        let measurements = to_measurements_with_mode(&row_vec, false)
            .expect("Failed to convert payload data to content");
        assert!(measurements.len() > 0);
        for measurement in measurements {
            println!("Measurement: {:?}", measurement);
        }
    }
}

#[test]
fn test_wh40() {
    // Test increasing amounts of sync values at the beginning of the payload
    for (i, row) in WH40_SAMPLES.iter().enumerate() {
        let row_vec = frame(i, row);

        let payload = bitstream_to_payload(&row_vec).expect("Found no payload in the bitstream");
        assert_eq!(&payload[0..payload.len() - 4], row);

        let measurements = to_measurements_with_mode(&row_vec, false)
            .expect("Failed to convert payload data to content");
        assert!(measurements.len() > 0);
        for measurement in measurements {
            println!("Measurement: {:?}", measurement);
        }
    }
}

#[test]
fn test_ws68() {
    // Test increasing amounts of sync values at the beginning of the payload
    for (i, row) in WS68_SAMPLES.iter().enumerate() {
        let row_vec = frame(i, row);

        let payload = bitstream_to_payload(&row_vec).expect("Found no payload in the bitstream");
        assert_eq!(&payload[0..payload.len() - 4], row);

        let measurements = to_measurements_with_mode(&row_vec, false)
            .expect("Failed to convert payload data to content");
        assert!(measurements.len() > 0);
        for measurement in measurements {
            println!("Measurement: {:?}", measurement);
        }
    }
}

#[test]
fn wh31_exact_fields() {
    // byte2 = 0x82, byte3 = 0x0a: raw = 0x20a = 522 tenths above -40.0 C,
    // so 12.2 C; battery bit set; channel field 0 becomes channel 1.
    let stream = frame(2, &WH31_E_SAMPLES[0]);
    let m = decode_measurements(&stream, false, 42).unwrap();
    let expect = |meas: Measurement| Measured {
        timestamp: 42,
        device_id: Some(0x00c3),
        channel: Some(1),
        measurement: meas,
    };
    assert_eq!(
        m,
        vec![
            expect(Measurement::BatteryOk(true)),
            expect(Measurement::Temperature(122)),
            expect(Measurement::RelativeHumidity(0x5e)),
        ]
    );
}

#[test]
fn whrcc_exact_fields() {
    let stream = frame(0, &WH31_E_RCC_SAMPLES[0]);
    let m = decode_measurements(&stream, false, 7).unwrap();
    assert_eq!(
        m,
        vec![Measured {
            timestamp: 7,
            device_id: Some(0x0027),
            channel: None,
            measurement: Measurement::Clock(ClockTime {
                year: 2020,
                month: 10,
                day: 20,
                hour: 2,
                minute: 6,
                second: 55,
            }),
        }]
    );
}

#[test]
fn wh40_exact_fields() {
    // Device id 0x00cd<<8 | 0x6f, battery bit of byte4 clear, channel field
    // 1 becomes 2, rainfall raw 0x0000 tenths of a millimetre.
    let stream = frame(1, &WH40_SAMPLES[0]);
    let m = decode_measurements(&stream, false, 9).unwrap();
    let expect = |meas: Measurement| Measured {
        timestamp: 9,
        device_id: Some(0xcd6f),
        channel: Some(2),
        measurement: meas,
    };
    assert_eq!(
        m,
        vec![
            expect(Measurement::BatteryOk(false)),
            expect(Measurement::Rainfall(0)),
        ]
    );
}

#[test]
fn ws68_exact_fields() {
    // Battery 0x4b is above the heuristic threshold; wind direction takes
    // bit 5 of byte7 shifted high over byte11.
    let stream = frame(3, &WS68_SAMPLES[3]);
    let m = decode_measurements(&stream, false, 5).unwrap();
    let expect = |meas: Measurement| Measured {
        timestamp: 5,
        device_id: Some(0x00c5),
        channel: None,
        measurement: meas,
    };
    assert_eq!(
        m,
        vec![
            expect(Measurement::BatteryLevelRaw(0x4b)),
            expect(Measurement::BatteryOk(true)),
            expect(Measurement::Lux(0x0000)),
            expect(Measurement::WindSpeed(0x00)),
            expect(Measurement::WindGust(0x00)),
            expect(Measurement::WindDirection(0x10e)),
        ]
    );
}

/// A strict-mode message for the probe, with its CRC computed by the same
/// CRC library the decoder relies on, and the additive checksum appended.
fn strict_wh31_message(body: &[u8; 5]) -> Vec<u8> {
    let mut crc = crc_any::CRCu8::crc8maxim();
    crc.digest(body);
    let crc_byte = crc.get_crc();
    let mut msg: Vec<u8> = body.to_vec();
    msg.push(crc_byte);
    let sum = msg.iter().fold(0u8, |a, &b| a.wrapping_add(b));
    msg.push(sum);
    msg
}

#[test]
fn strict_decode_accepts_valid_crc_and_checksum() {
    let body = [0x30, 0xc3, 0x82, 0x0a, 0x5e];
    let msg = strict_wh31_message(&body);
    let mut stream = preamble();
    stream.extend_from_slice(&msg);
    let m = to_measurements(&stream).expect("strict decode of a well-formed message");
    assert_eq!(m.len(), 3);
    assert_eq!(m[0].measurement, Measurement::BatteryOk(true));
    assert_eq!(m[1].measurement, Measurement::Temperature(122));
    assert_eq!(m[2].measurement, Measurement::RelativeHumidity(0x5e));
}

#[test]
fn strict_decode_rejects_corrupt_crc_byte() {
    let body = [0x30, 0xc3, 0x82, 0x0a, 0x5e];
    let mut msg = strict_wh31_message(&body);
    msg[5] ^= 0xff;
    let mut stream = preamble();
    stream.extend_from_slice(&msg);
    assert_eq!(to_measurements(&stream).unwrap_err(), SensorError::InvalidCrc);
}

#[test]
fn strict_decode_rejects_corrupt_checksum_byte() {
    let body = [0x30, 0xc3, 0x82, 0x0a, 0x5e];
    let mut msg = strict_wh31_message(&body);
    msg[6] = msg[6].wrapping_add(1);
    let mut stream = preamble();
    stream.extend_from_slice(&msg);
    assert_eq!(
        to_measurements(&stream).unwrap_err(),
        SensorError::InvalidChecksum
    );
}

#[test]
fn strict_decode_detects_every_single_bit_flip() {
    // Flipping any one bit of the data portion (past the device-type byte)
    // must fail with InvalidCrc or InvalidChecksum, never decode silently.
    let body = [0x30, 0xc3, 0x82, 0x0a, 0x5e];
    let msg = strict_wh31_message(&body);
    for byte in 1..5 {
        for bit in 0..8 {
            let mut tampered = msg.clone();
            tampered[byte] ^= 1 << bit;
            let mut stream = preamble();
            stream.extend_from_slice(&tampered);
            match to_measurements(&stream) {
                Err(SensorError::InvalidCrc) | Err(SensorError::InvalidChecksum) => (),
                other => panic!("bit flip decoded as {:?}", other),
            }
        }
    }
}

#[test]
fn unknown_device_type_reports_the_byte() {
    let mut stream = preamble();
    stream.extend_from_slice(&[0x99, 0x01, 0x02, 0x03]);
    assert_eq!(
        to_measurements(&stream).unwrap_err(),
        SensorError::IncorrectMessageType(0x99)
    );
}

#[test]
fn truncated_payload_is_rejected() {
    let mut stream = preamble();
    stream.extend_from_slice(&[0x30, 0x01]);
    assert_eq!(
        to_measurements(&stream).unwrap_err(),
        SensorError::TruncatedMessage
    );
}

#[test]
fn empty_payload_is_rejected_by_the_validator() {
    assert_eq!(
        payload_to_message(&[], 0x30, 7, true).unwrap_err(),
        SensorError::EmptyMessage
    );
}

#[test]
fn wrong_type_byte_is_rejected_by_the_validator() {
    let payload = [0x40u8, 0x00, 0xcd, 0x6f, 0x10, 0x00, 0x00];
    assert_eq!(
        payload_to_message(&payload, 0x30, 7, false).unwrap_err(),
        SensorError::IncorrectMessageType(0x40)
    );
}

#[test]
fn noise_only_capture_yields_no_measurements() {
    let stream = [0x00u8, 0xaa, 0xaa, 0x2d, 0x00, 0xd4];
    assert!(bitstream_to_payload(&stream).is_none());
    assert_eq!(to_measurements(&stream).unwrap(), Vec::new());
}

#[test]
fn marker_at_the_very_end_yields_no_payload() {
    let stream = [0x01u8, 0x02, 0xaa, 0x2d, 0xd4];
    assert!(bitstream_to_payload(&stream).is_none());
    assert_eq!(to_measurements(&stream).unwrap(), Vec::new());
}

#[test]
fn earliest_marker_wins() {
    // Two markers: the payload starts after the first one.
    let mut stream = preamble();
    stream.push(0x11);
    stream.extend_from_slice(&preamble());
    let payload = bitstream_to_payload(&stream).unwrap();
    assert_eq!(payload, &[0x11, 0xaa, 0x2d, 0xd4]);
}

#[test]
fn arbitrary_leading_noise_does_not_change_the_decode() {
    let bare = frame(0, &WH31_E_SAMPLES[0]);
    let reference = decode_measurements(&bare, false, 11).unwrap();
    for noise in [
        &[][..],
        &[0x00][..],
        &[0x13, 0x37][..],
        &[0x01, 0x02, 0xaa, 0x2d][..],
        &[0xd4, 0xaa, 0xaa, 0x2d, 0x00, 0xff, 0xee][..],
    ] {
        let mut stream: Vec<u8> = noise.to_vec();
        stream.extend_from_slice(&bare);
        assert_eq!(decode_measurements(&stream, false, 11).unwrap(), reference);
    }
}

#[test]
fn decoding_twice_gives_identical_fields() {
    let stream = frame(4, &WH31_E_SAMPLES[1]);
    let a = to_measurements_with_mode(&stream, false).unwrap();
    let b = to_measurements_with_mode(&stream, false).unwrap();
    assert_eq!(a.len(), b.len());
    for (x, y) in a.iter().zip(b.iter()) {
        assert_eq!(x.device_id, y.device_id);
        assert_eq!(x.channel, y.channel);
        assert_eq!(x.measurement, y.measurement);
    }
}

#[test]
fn measurement_names() {
    assert_eq!(Measurement::BatteryOk(true).name_token(), "batteryok");
    assert_eq!(Measurement::Temperature(122).name_token(), "temperature");
    assert_eq!(Measurement::WindGust(3).name(), "Wind Gust");
    assert_eq!(Measurement::Rainfall(10).name(), "Rainfall");
    assert_eq!(Measurement::Clock(ClockTime {
        year: 2020,
        month: 1,
        day: 2,
        hour: 3,
        minute: 4,
        second: 5,
    })
    .name_token(), "time");
}
