use motor_link::{decode_response, encode_request, encode_response};
use motor_link::{vec_to_int, vec_to_long, vec_to_short};

fn crc8(data: &[u8]) -> u8 {
    crc::Crc::<u8>::new(&crc::CRC_8_CDMA2000).checksum(data)
}

#[test]
fn request_checksum_is_cdma2000() {
    assert_eq!(crc8(b"123456789"), 0xda);
    let f = encode_request(0x00, 0);
    assert_eq!(f[8], crc8(&[0x00, 0x04, 0x00, 0x00, 0x00, 0x00]));
    let g = encode_request(0x01, 0);
    assert_ne!(f[8], g[8]);
}

#[test]
fn request_layout() {
    let f = encode_request(0x80, 0x0102_0304);
    let crc = crc8(&[0x80, 0x04, 0x01, 0x02, 0x03, 0x04]);
    assert_eq!(
        f,
        vec![0x5a, 0x5a, 0x80, 0x04, 0x01, 0x02, 0x03, 0x04, crc, 0xa5, 0xa5]
    );
}

#[test]
fn request_negative_value_is_twos_complement() {
    let f = encode_request(0x00, -2);
    assert_eq!(&f[4..8], &[0xff, 0xff, 0xff, 0xfe]);
}

#[test]
fn response_round_trip() {
    for len in [0usize, 1, 4, 8, 120] {
        let payload: Vec<u8> = (0..len).map(|i| (i * 37 + 5) as u8).collect();
        let frame = encode_response(0x04, &payload);
        assert_eq!(frame.len(), len + 7);
        assert_eq!(decode_response(&frame), Some(payload));
    }
}

#[test]
fn response_single_bit_flips_are_rejected() {
    let payload = vec![0x00, 0x12, 0xd6, 0x87];
    let frame = encode_response(0x09, &payload);
    for i in 0..frame.len() {
        for bit in 0..8 {
            let mut g = frame.clone();
            g[i] ^= 1 << bit;
            assert_eq!(decode_response(&g), None, "byte {} bit {}", i, bit);
        }
    }
}

#[test]
fn response_too_short() {
    assert_eq!(decode_response(&[0x5a, 0x5a, 0x00, 0x00, 0x00, 0xa5]), None);
    assert_eq!(decode_response(&[]), None);
}

#[test]
fn response_length_past_data() {
    let mut frame = encode_response(0x00, &[1, 2, 3, 4]);
    frame[3] = 40;
    let n = frame.len();
    frame[n - 3] = crc8(&frame[2..n - 3]);
    assert_eq!(decode_response(&frame), None);
}

#[test]
fn response_with_trailing_bytes_uses_crc_before_end() {
    // The checksum sits three bytes before the end of what was read.
    let frame = encode_response(0x00, &[9, 8, 7, 6]);
    assert_eq!(decode_response(&frame), Some(vec![9, 8, 7, 6]));
}

#[test]
fn big_endian_words() {
    assert_eq!(vec_to_int(&[0x00, 0x00, 0x03, 0xe8]), 1000);
    assert_eq!(vec_to_int(&[0xff, 0xff, 0xfc, 0x18, 0x77]), -1000);
    assert_eq!(vec_to_short(&[0x80, 0x01]), -32767);
    assert_eq!(vec_to_short(&[0x01, 0x02]), 0x0102);
    assert_eq!(
        vec_to_long(&[0x01, 0x02, 0x03, 0x04, 0x05, 0x06, 0x07, 0x08]),
        0x0102_0304_0506_0708
    );
    assert_eq!(vec_to_long(&[0xff; 8]), -1);
}

#[test]
fn word_round_trip_through_request() {
    for v in [0i32, 1, -1, 123_456_789, i32::MIN, i32::MAX] {
        let f = encode_request(0x10, v);
        assert_eq!(vec_to_int(&f[4..8]), v);
    }
}
