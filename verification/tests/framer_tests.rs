use leaflet::packet_reader::PacketReader;

#[test]
fn one_complete_frame_plus_partial_second() {
    let mut reader = PacketReader::new();
    // Frame one: length 3, payload [10, 20, 30]; then the first byte of a
    // second frame (its length prefix, 2).
    reader.append(&[3, 10, 20, 30, 2]);
    let frame = reader.read_packet().expect("first frame should be complete");
    assert_eq!(frame.as_slice(), &[10, 20, 30]);
    // The second frame is incomplete: nothing more comes out, and the
    // partial byte is retained.
    assert!(reader.read_packet().is_none());
    // Feeding the remainder yields exactly the second frame.
    reader.append(&[40, 50]);
    let frame2 = reader.read_packet().expect("second frame should now be complete");
    assert_eq!(frame2.as_slice(), &[40, 50]);
    assert!(reader.read_packet().is_none());
}

#[test]
fn empty_reader_yields_nothing() {
    let mut reader = PacketReader::new();
    assert!(reader.read_packet().is_none());
}

#[test]
fn partial_length_prefix_retained() {
    let mut reader = PacketReader::new();
    // A multi-byte varint length, delivered one byte at a time.
    reader.append(&[0xAC]);
    assert!(reader.read_packet().is_none());
    reader.append(&[0x02]);
    // Length 300 declared, no payload yet.
    assert!(reader.read_packet().is_none());
    let payload: Vec<u8> = (0..300u32).map(|i| (i % 256) as u8).collect();
    reader.append(&payload);
    let frame = reader.read_packet().expect("frame complete");
    assert_eq!(frame.as_slice().len(), 300);
    assert_eq!(frame.as_slice()[0], 0);
    assert_eq!(frame.as_slice()[299], (299 % 256) as u8);
}

#[test]
fn zero_length_frame() {
    let mut reader = PacketReader::new();
    reader.append(&[0, 5]);
    let frame = reader.read_packet().expect("empty frame is complete");
    assert_eq!(frame.as_slice().len(), 0);
    assert!(reader.read_packet().is_none());
}
