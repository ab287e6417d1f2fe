use acpcap::reader::{BinaryReader, ReadError};

#[test]
fn read_u8_u16_u32_u64_little_endian() {
    let data = vec![
        0x01u8, 0x02, 0x03, 0x04, 0x05, 0x06, 0x07, 0x08, 0x09, 0x0A, 0x0B, 0x0C, 0x0D, 0x0E,
        0x0F,
    ];
    let mut r = BinaryReader::new(&data);
    assert_eq!(r.read_u8().unwrap(), 0x01);
    assert_eq!(r.read_u16().unwrap(), 0x0302);
    assert_eq!(r.read_u32().unwrap(), 0x07060504);
    assert_eq!(r.read_u64().unwrap(), 0x0F0E0D0C0B0A0908);
    assert_eq!(r.remaining(), 0);
    assert_eq!(r.read_u8(), Err(ReadError::TruncatedInput));
}

#[test]
fn read_i32_negative() {
    let data = vec![0xFFu8, 0xFF, 0xFF, 0xFF, 0xCE, 0xFF, 0xFF, 0xFF];
    let mut r = BinaryReader::new(&data);
    assert_eq!(r.read_i32().unwrap(), -1);
    assert_eq!(r.read_i32().unwrap(), -50);
}

#[test]
fn read_bool_nonzero_true() {
    let data = vec![0u8, 1, 7];
    let mut r = BinaryReader::new(&data);
    assert_eq!(r.read_bool().unwrap(), false);
    assert_eq!(r.read_bool().unwrap(), true);
    assert_eq!(r.read_bool().unwrap(), true);
}

#[test]
fn read_bytes_peek_skip() {
    let data = vec![10u8, 20, 30, 40, 50];
    let mut r = BinaryReader::new(&data);
    assert_eq!(r.peek(2).unwrap(), vec![10, 20]);
    assert_eq!(r.position(), 0);
    assert_eq!(r.read_bytes(3).unwrap(), vec![10, 20, 30]);
    r.skip(1).unwrap();
    assert_eq!(r.read_bytes(1).unwrap(), vec![50]);
    assert_eq!(r.skip(1), Err(ReadError::TruncatedInput));
}

#[test]
fn align_rounds_up_from_data_start() {
    let data = vec![0u8; 8];
    let mut r = BinaryReader::new(&data);
    r.skip(1).unwrap();
    r.align(4).unwrap();
    assert_eq!(r.position(), 4);
    r.align(4).unwrap();
    assert_eq!(r.position(), 4);
}

#[test]
fn string16l_round_trip_advances_by_prefix_len_and_pad() {
    // "abc": 2-byte length + 3 bytes + 3 bytes of padding to the next
    // 4-byte boundary.
    let mut data: Vec<u8> = Vec::new();
    acpcap::codec::put_string16l(&mut data, "abc");
    assert_eq!(data.len(), 8);
    data.extend_from_slice(&0x05060708u32.to_le_bytes());
    let mut r = BinaryReader::new(&data);
    let s = r.read_string16l().unwrap();
    assert_eq!(s, "abc");
    assert_eq!(r.position(), 8);
    assert_eq!(r.read_u32().unwrap(), 0x05060708);
}

#[test]
fn string16l_empty_string() {
    let mut data: Vec<u8> = Vec::new();
    acpcap::codec::put_string16l(&mut data, "");
    // 2-byte length then pad to 4.
    assert_eq!(data, vec![0, 0, 0, 0]);
    let mut r = BinaryReader::new(&data);
    assert_eq!(r.read_string16l().unwrap(), "");
    assert_eq!(r.position(), 4);
}

#[test]
fn string16l_rejects_non_ascii() {
    let data = vec![2u8, 0, 0x80, 0x41];
    let mut r = BinaryReader::new(&data);
    assert_eq!(r.read_string16l(), Err(ReadError::InvalidUtf8));
}

#[test]
fn string16l_bad_alignment_at_end_of_data() {
    // One character, so the cursor lands at 3; the 4-byte boundary is
    // past the end and there is no padding to consume.
    let data = vec![1u8, 0, b'a'];
    let mut r = BinaryReader::new(&data);
    assert_eq!(r.read_string16l(), Err(ReadError::BadAlignment));
}

#[test]
fn string16l_truncated() {
    let data = vec![5u8, 0, b'a', b'b'];
    let mut r = BinaryReader::new(&data);
    assert_eq!(r.read_string16l(), Err(ReadError::TruncatedInput));
}

#[test]
fn encode_decode_primitives_round_trip() {
    let mut buf: Vec<u8> = Vec::new();
    acpcap::codec::put_u16(&mut buf, 0xBEEF);
    acpcap::codec::put_u32(&mut buf, 0xDEADBEEF);
    acpcap::codec::put_u64(&mut buf, 0x0123456789ABCDEF);
    let mut r = BinaryReader::new(&buf);
    assert_eq!(r.read_u16().unwrap(), 0xBEEF);
    assert_eq!(r.read_u32().unwrap(), 0xDEADBEEF);
    assert_eq!(r.read_u64().unwrap(), 0x0123456789ABCDEF);
}

#[test]
fn compressed_u32_one_byte() {
    let data = vec![0x7Fu8];
    let mut r = BinaryReader::new(&data);
    assert_eq!(r.read_compressed_u32().unwrap(), 0x7F);
    assert_eq!(r.position(), 1);
}

#[test]
fn compressed_u32_two_bytes() {
    let data = vec![0x81u8, 0x23];
    let mut r = BinaryReader::new(&data);
    assert_eq!(r.read_compressed_u32().unwrap(), 0x0123);
    assert_eq!(r.position(), 2);
}

#[test]
fn compressed_u32_four_bytes() {
    let data = vec![0xC1u8, 0x02, 0x03, 0x04];
    let mut r = BinaryReader::new(&data);
    assert_eq!(r.read_compressed_u32().unwrap(), 0x01020304);
    assert_eq!(r.position(), 4);
}

#[test]
fn packable_hashtable_pairs() {
    let mut data: Vec<u8> = Vec::new();
    data.extend_from_slice(&2u16.to_le_bytes()); // count
    data.extend_from_slice(&8u16.to_le_bytes()); // bucket hint
    data.extend_from_slice(&0x11u32.to_le_bytes());
    data.extend_from_slice(&50u32.to_le_bytes());
    data.extend_from_slice(&0x05u32.to_le_bytes());
    data.extend_from_slice(&7u32.to_le_bytes());
    let mut r = BinaryReader::new(&data);
    let pairs = r.read_packable_hashtable_u32().unwrap();
    assert_eq!(pairs, vec![(0x11, 50), (0x05, 7)]);
}
