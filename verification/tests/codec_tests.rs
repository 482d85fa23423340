use leaflet::buffer::{BufferError, McBuf};

fn roundtrip_varint(v: i32) -> usize {
    let mut buf = McBuf::new();
    buf.write_var_int(v);
    let len = buf.length();
    let mut rd = McBuf::from_bytes(buf.as_slice());
    assert_eq!(rd.read_var_int().unwrap(), v);
    len
}

fn roundtrip_varlong(v: i64) -> usize {
    let mut buf = McBuf::new();
    buf.write_var_long(v);
    let len = buf.length();
    let mut rd = McBuf::from_bytes(buf.as_slice());
    assert_eq!(rd.read_var_long().unwrap(), v);
    len
}

#[test]
fn varint_round_trip_small() {
    assert_eq!(roundtrip_varint(0), 1);
    assert_eq!(roundtrip_varint(1), 1);
    assert_eq!(roundtrip_varint(127), 1);
    assert_eq!(roundtrip_varint(128), 2);
    assert_eq!(roundtrip_varint(300), 2);
    assert_eq!(roundtrip_varint(25565), 3);
}

#[test]
fn varint_round_trip_extremes() {
    assert_eq!(roundtrip_varint(i32::MAX), 5);
    assert!(roundtrip_varint(-1) <= 5);
    assert!(roundtrip_varint(i32::MIN) <= 5);
}

#[test]
fn varint_encoding_bytes() {
    let mut buf = McBuf::new();
    buf.write_var_int(300);
    assert_eq!(buf.as_slice(), &[0xAC, 0x02]);
}

#[test]
fn varlong_round_trip() {
    assert_eq!(roundtrip_varlong(0), 1);
    assert_eq!(roundtrip_varlong(127), 1);
    assert_eq!(roundtrip_varlong(128), 2);
    assert!(roundtrip_varlong(i64::MAX) <= 10);
    assert!(roundtrip_varlong(-1) <= 10);
    assert!(roundtrip_varlong(i64::MIN) <= 10);
}

#[test]
fn varint_overflow_rejected() {
    let mut buf = McBuf::from_bytes(&[0x80, 0x80, 0x80, 0x80, 0x80, 0x01]);
    assert!(matches!(buf.read_var_int(), Err(BufferError::VarIntOverflow)));
}

#[test]
fn varint_underflow_rejected() {
    let mut buf = McBuf::from_bytes(&[0x80, 0x80]);
    assert!(matches!(buf.read_var_int(), Err(BufferError::BufferUnderflow)));
}

#[test]
fn fixed_width_round_trip() {
    let mut buf = McBuf::new();
    buf.write_bool(true);
    buf.write_byte(-5);
    buf.write_ubyte(200);
    buf.write_short(-1234);
    buf.write_ushort(54321);
    buf.write_int(-100000);
    buf.write_long(-12345678901234);
    buf.write_ulong(18446744073709551615);
    let mut rd = McBuf::from_bytes(buf.as_slice());
    assert_eq!(rd.read_bool().unwrap(), true);
    assert_eq!(rd.read_byte().unwrap(), -5);
    assert_eq!(rd.read_ubyte().unwrap(), 200);
    assert_eq!(rd.read_short().unwrap(), -1234);
    assert_eq!(rd.read_ushort().unwrap(), 54321);
    assert_eq!(rd.read_int().unwrap(), -100000);
    assert_eq!(rd.read_long().unwrap(), -12345678901234);
    assert_eq!(rd.read_ulong().unwrap(), 18446744073709551615);
}

#[test]
fn fixed_width_big_endian_bytes() {
    let mut buf = McBuf::new();
    buf.write_int(1);
    assert_eq!(buf.as_slice(), &[0x00, 0x00, 0x00, 0x01]);

    let mut buf = McBuf::new();
    buf.write_ushort(0x1234);
    assert_eq!(buf.as_slice(), &[0x12, 0x34]);

    let mut buf = McBuf::new();
    buf.write_long(0x0102030405060708);
    assert_eq!(buf.as_slice(), &[1, 2, 3, 4, 5, 6, 7, 8]);
}

#[test]
fn multi_byte_read_underflow() {
    let mut buf = McBuf::from_bytes(&[1, 2]);
    assert!(matches!(buf.read_int(), Err(BufferError::BufferUnderflow)));
    // The failed read consumed nothing.
    assert_eq!(buf.read_ushort().unwrap(), 0x0102);
}

#[test]
fn string_codec_hi() {
    let mut buf = McBuf::new();
    buf.write_string("hi");
    assert_eq!(buf.as_slice(), &[0x02, 0x68, 0x69]);
    let mut rd = McBuf::from_bytes(buf.as_slice());
    assert_eq!(rd.read_string(5).unwrap(), "hi");
}

#[test]
fn string_declared_length_too_long() {
    // Declared length 16 exceeds 3 * max for max 5; no payload byte is read.
    let mut buf = McBuf::new();
    buf.write_var_int(16);
    buf.write_slice(&[0x41; 16]);
    buf.write_ubyte(0x77);
    let mut rd = McBuf::from_bytes(buf.as_slice());
    assert!(matches!(rd.read_string(5), Err(BufferError::StringTooLong)));
    // The next byte read is the first payload byte: only the prefix was
    // consumed.
    assert_eq!(rd.read_ubyte().unwrap(), 0x41);
}

#[test]
fn string_decoded_count_too_long() {
    let mut buf = McBuf::new();
    buf.write_string("abcdef");
    let mut rd = McBuf::from_bytes(buf.as_slice());
    assert!(matches!(rd.read_string(5), Err(BufferError::StringTooLong)));
}

#[test]
fn string_invalid_utf8() {
    let mut buf = McBuf::new();
    buf.write_var_int(2);
    buf.write_slice(&[0xFF, 0xFE]);
    let mut rd = McBuf::from_bytes(buf.as_slice());
    assert!(matches!(rd.read_string(5), Err(BufferError::StringDecodeError)));
}

#[test]
fn string_multibyte_characters_counted_not_bytes() {
    // One two-byte character: within a one-character maximum even though it
    // occupies two bytes.
    let mut buf = McBuf::new();
    buf.write_string("\u{e9}");
    assert_eq!(buf.length(), 3);
    let mut rd = McBuf::from_bytes(buf.as_slice());
    assert_eq!(rd.read_string(1).unwrap(), "\u{e9}");
}

#[test]
fn read_array_fixed_size() {
    let mut buf = McBuf::from_bytes(&[1, 2, 3, 4, 5]);
    let a: [u8; 3] = buf.read_array().unwrap();
    assert_eq!(a, [1, 2, 3]);
    // A failed fixed-size read consumes nothing.
    assert!(matches!(buf.read_array::<4>(), Err(BufferError::BufferUnderflow)));
    let b: [u8; 2] = buf.read_array().unwrap();
    assert_eq!(b, [4, 5]);
}

#[test]
fn read_dyn_array_exact() {
    let mut buf = McBuf::from_bytes(&[9, 8, 7, 6]);
    assert_eq!(buf.read_dyn_array(3).unwrap(), vec![9, 8, 7]);
    assert!(matches!(buf.read_dyn_array(2), Err(BufferError::BufferUnderflow)));
    assert_eq!(buf.read_dyn_array(1).unwrap(), vec![6]);
}
