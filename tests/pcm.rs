use trascri::decode_s16le;

#[test]
fn decodes_little_endian_pairs() {
    let bytes = [0x01u8, 0x00, 0xff, 0x7f, 0x00, 0x80, 0xff, 0xff];
    assert_eq!(decode_s16le(&bytes), Some(vec![1i16, 32767, -32768, -1]));
}

#[test]
fn decodes_empty_buffer() {
    assert_eq!(decode_s16le(&[]), Some(vec![]));
}

#[test]
fn refuses_trailing_half_sample() {
    assert_eq!(decode_s16le(&[0x01u8, 0x02, 0x03]), None);
    assert_eq!(decode_s16le(&[0x01u8]), None);
}
