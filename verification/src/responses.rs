//! The responses of the sensor: their checksums, and the raw counts and the
//! serial number that they hold.

use crate::types::SensorData;
use vstd::prelude::*;

verus! {

/// The number of data bytes in a response.
pub const PAYLOAD_LEN: usize = 4;

/// The number of bytes in a response: two words of two data bytes and a
/// check byte each.
pub const RESPONSE_LEN: usize = 6;

/// The checksum that `sensirion_i2c::crc8::calculate` returns for `data`.
pub uninterp spec fn crc8(data: Seq<u8>) -> u8;

/// Whether the word at place `word` of `response` carries the checksum of
/// its two data bytes. The word takes the three bytes from `3 * word` on.
pub open spec fn word_intact(response: Seq<u8>, word: int) -> bool {
    crc8(seq![response[3 * word], response[3 * word + 1]]) == response[3 * word + 2]
}

/// Whether both words of a response carry the checksum of their data bytes.
pub open spec fn words_intact(response: Seq<u8>) -> bool {
    word_intact(response, 0) && word_intact(response, 1)
}

/// `sensirion_i2c::crc8::validate` takes a buffer of three-byte words, each
/// two data bytes and their checksum. It calculates the checksum of the data
/// bytes of each word in turn and fails at the first that differs from the
/// byte that follows them; so it succeeds exactly when every word is intact.
/// It panics on a buffer whose length is no multiple of three; a response
/// has six bytes.
#[verifier::external_body]
pub(crate) fn checksums_match(response: &[u8; RESPONSE_LEN]) -> (intact: bool)
    ensures
        intact == (crc8(seq![response[0], response[1]]) == response[2] && crc8(
            seq![response[3], response[4]],
        ) == response[5]),
{
    sensirion_i2c::crc8::validate(response).is_ok()
}

/// The data bytes of a response: all but the check byte of each word.
pub open spec fn payload(response: Seq<u8>) -> Seq<u8> {
    seq![response[0], response[1], response[3], response[4]]
}

/// The raw counts in the response to a measurement: the first word is the
/// temperature, the second the humidity, each with its most significant byte
/// first.
pub open spec fn sensor_data(response: Seq<u8>) -> SensorData {
    SensorData {
        temperature: (response[0] * 256 + response[1]) as u16,
        humidity: (response[3] * 256 + response[4]) as u16,
    }
}

/// The serial number in the response to the command that asks for it: the
/// four data bytes as one number, the most significant byte first, so that
/// `[AA, BB, _, CC, DD, _]` gives `0xAABBCCDD`.
pub open spec fn serial_number(response: Seq<u8>) -> u32 {
    (response[0] * 16777216 + response[1] * 65536 + response[3] * 256 + response[4]) as u32
}

/// Every pair of raw counts and every serial number fits its type: the
/// bytes of a response spell them without loss.
pub proof fn lemma_decoded_without_loss(response: Seq<u8>)
    ensures
        sensor_data(response).temperature == response[0] * 256 + response[1],
        sensor_data(response).humidity == response[3] * 256 + response[4],
        serial_number(response) == response[0] * 16777216 + response[1] * 65536 + response[3] * 256
            + response[4],
{
}

/// What is decoded depends on the data bytes alone, not on the check bytes.
pub proof fn lemma_check_bytes_ignored(response: Seq<u8>, other: Seq<u8>)
    requires
        payload(response) == payload(other),
    ensures
        sensor_data(response) == sensor_data(other),
        serial_number(response) == serial_number(other),
{
}

/// A serial number and a pair of raw counts are two readings of the same
/// four bytes: the word of the temperature is the upper half of the number,
/// the word of the humidity the lower half.
pub proof fn lemma_serial_number_joins_words(response: Seq<u8>)
    ensures
        serial_number(response) == sensor_data(response).temperature * 65536 + sensor_data(
            response,
        ).humidity,
{
}

/// Every serial number comes back from a response that spells it, whatever
/// the check bytes are.
pub proof fn lemma_serial_number_round_trip(serial: u32, response: Seq<u8>)
    requires
        response[0] == serial / 16777216,
        response[1] == serial / 65536 % 256,
        response[3] == serial / 256 % 256,
        response[4] == serial % 256,
    ensures
        serial_number(response) == serial,
{
}

/// Extracts the data bytes of a response.
pub fn response_payload(response: [u8; RESPONSE_LEN]) -> (data: [u8; PAYLOAD_LEN])
    ensures
        data@ == payload(response@),
{
    // Response data comes in chunks of three bytes: [MSB, LSB, CRC]. The CRCs
    // were checked when the response came in, so only the payload is taken.
    [response[0], response[1], response[3], response[4]]
}

/// Decodes the response to a measurement.
pub fn sensor_data_from_response(response: &[u8; RESPONSE_LEN]) -> (data: SensorData)
    ensures
        data == sensor_data(response@),
{
    let bytes = response_payload(*response);
    SensorData {
        temperature: bytes[0] as u16 * 256 + bytes[1] as u16,
        humidity: bytes[2] as u16 * 256 + bytes[3] as u16,
    }
}

/// Decodes the response to the command that reads the serial number.
pub fn serial_number_from_response(response: &[u8; RESPONSE_LEN]) -> (serial: u32)
    ensures
        serial == serial_number(response@),
{
    let bytes = response_payload(*response);
    bytes[0] as u32 * 16777216 + bytes[1] as u32 * 65536 + bytes[2] as u32 * 256 + bytes[3] as u32
}

} // verus!
