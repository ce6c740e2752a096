use sensirion_i2c::crc8;
use sht4x::responses::{
    response_payload, sensor_data_from_response, serial_number_from_response, PAYLOAD_LEN,
    RESPONSE_LEN,
};
use sht4x::SensorData;

#[test]
fn lengths_are_those_of_two_words() {
    assert_eq!(RESPONSE_LEN, 6);
    assert_eq!(PAYLOAD_LEN, 4);
}

#[test]
fn payload_leaves_out_the_check_bytes() {
    assert_eq!(response_payload([1, 2, 3, 4, 5, 6]), [1, 2, 4, 5]);
    assert_eq!(
        response_payload([0xAA, 0xBB, 0x11, 0xCC, 0xDD, 0x22]),
        [0xAA, 0xBB, 0xCC, 0xDD]
    );
}

#[test]
fn sensor_data_is_two_big_endian_words() {
    let data = sensor_data_from_response(&[0x12, 0x34, 0xFF, 0x56, 0x78, 0xFF]);
    assert_eq!(
        data,
        SensorData {
            temperature: 0x1234,
            humidity: 0x5678
        }
    );
    let data = sensor_data_from_response(&[0, 0, 0, 0, 0, 0]);
    assert_eq!((data.temperature, data.humidity), (0, 0));
    let data = sensor_data_from_response(&[0xFF, 0xFF, 0, 0xFF, 0xFF, 0]);
    assert_eq!((data.temperature, data.humidity), (u16::MAX, u16::MAX));
    let data = sensor_data_from_response(&[0x00, 0x01, 0, 0x01, 0x00, 0]);
    assert_eq!((data.temperature, data.humidity), (1, 256));
}

#[test]
fn serial_number_is_one_big_endian_number() {
    assert_eq!(
        serial_number_from_response(&[0xAA, 0xBB, 0x00, 0xCC, 0xDD, 0x00]),
        0xAABBCCDD
    );
    assert_eq!(serial_number_from_response(&[0, 0, 9, 0, 0, 9]), 0);
    assert_eq!(
        serial_number_from_response(&[0xFF, 0xFF, 0, 0xFF, 0xFF, 0]),
        u32::MAX
    );
    assert_eq!(serial_number_from_response(&[0, 0, 0, 0, 1, 0]), 1);
    assert_eq!(serial_number_from_response(&[1, 0, 0, 0, 0, 0]), 0x0100_0000);
}

#[test]
fn decoding_ignores_the_check_bytes() {
    for check in [0x00, 0x5A, 0xFF] {
        let response = [0x12, 0x34, check, 0x56, 0x78, check];
        assert_eq!(serial_number_from_response(&response), 0x1234_5678);
        assert_eq!(sensor_data_from_response(&response).temperature, 0x1234);
        assert_eq!(sensor_data_from_response(&response).humidity, 0x5678);
    }
}

#[test]
fn serial_numbers_round_trip_through_a_response() {
    let serials = [0u32, 1, 0xFF, 0x100, 0xFFFF, 0x1_0000, 0x0F12_3456, 0xDEAD_BEEF, u32::MAX];
    for serial in serials {
        let bytes = serial.to_be_bytes();
        let response = [
            bytes[0],
            bytes[1],
            crc8::calculate(&bytes[0..2]),
            bytes[2],
            bytes[3],
            crc8::calculate(&bytes[2..4]),
        ];
        assert_eq!(serial_number_from_response(&response), serial);
        let data = sensor_data_from_response(&response);
        assert_eq!(u32::from(data.temperature), serial >> 16);
        assert_eq!(u32::from(data.humidity), serial & 0xFFFF);
    }
}

#[test]
fn serial_number_joins_the_two_words() {
    let mut high = 0u32;
    while high <= 0xFFFF {
        let bytes = (high as u16).to_be_bytes();
        let response = [bytes[0], bytes[1], 0, bytes[1], bytes[0], 0];
        let data = sensor_data_from_response(&response);
        assert_eq!(
            serial_number_from_response(&response),
            u32::from(data.temperature) * 65536 + u32::from(data.humidity)
        );
        high += 257;
    }
}
