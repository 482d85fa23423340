use leaflet::buffer::McBuf;
use leaflet::connection::Connection;
use leaflet::protocol::ConnectionState;

/// Builds the framed byte stream for one frame payload.
fn frame(payload: &[u8]) -> Vec<u8> {
    let mut buf = McBuf::new();
    buf.write_var_int(payload.len() as i32);
    buf.write_slice(payload);
    buf.as_slice().to_vec()
}

#[test]
fn handshake_intent_one_selects_status() {
    let mut conn = Connection::new();
    // Handshake packet: id 0, protocol 774, address "x", port 25565, intent 1.
    let mut payload = McBuf::new();
    payload.write_var_int(0);
    payload.write_var_int(774);
    payload.write_string("x");
    payload.write_ushort(25565);
    payload.write_var_int(1);
    conn.feed_bytes(&frame(payload.as_slice()));
    conn.process_incoming_packets().unwrap();
    assert!(matches!(conn.state, ConnectionState::Handshake) == false);
    assert!(matches!(conn.state, ConnectionState::Status));
}

#[test]
fn handshake_intent_two_selects_login() {
    let mut conn = Connection::new();
    let mut payload = McBuf::new();
    payload.write_var_int(0);
    payload.write_var_int(774);
    payload.write_string("localhost");
    payload.write_ushort(25565);
    payload.write_var_int(2);
    conn.feed_bytes(&frame(payload.as_slice()));
    conn.process_incoming_packets().unwrap();
    assert!(matches!(conn.state, ConnectionState::Login));
}

#[test]
fn invalid_handshake_intent_is_fatal() {
    let mut conn = Connection::new();
    let mut payload = McBuf::new();
    payload.write_var_int(0);
    payload.write_var_int(774);
    payload.write_string("x");
    payload.write_ushort(25565);
    payload.write_var_int(9);
    conn.feed_bytes(&frame(payload.as_slice()));
    assert!(conn.process_incoming_packets().is_err());
}

#[test]
fn ping_is_answered_with_echoed_pong() {
    let mut conn = Connection::new();
    conn.state = ConnectionState::Status;
    // Ping packet: id 1, payload 0x0102030405060708.
    let mut payload = McBuf::new();
    payload.write_var_int(1);
    payload.write_long(0x0102030405060708);
    conn.feed_bytes(&frame(payload.as_slice()));
    conn.process_incoming_packets().unwrap();
    let out = conn.encode_outgoing();
    // One frame: length 9, id 1, then the echoed payload big-endian.
    assert_eq!(out, vec![9, 1, 1, 2, 3, 4, 5, 6, 7, 8]);
}

#[test]
fn status_request_queues_response() {
    let mut conn = Connection::new();
    conn.state = ConnectionState::Status;
    let mut payload = McBuf::new();
    payload.write_var_int(0);
    conn.feed_bytes(&frame(payload.as_slice()));
    conn.process_incoming_packets().unwrap();
    let out = conn.encode_outgoing();
    assert!(out.len() > 2);
    // The response frame carries packet id 0 and a JSON string mentioning
    // the protocol version.
    let text = String::from_utf8_lossy(&out);
    assert!(text.contains("774"));
}

#[test]
fn login_start_records_profile_and_answers_success() {
    let mut conn = Connection::new();
    conn.state = ConnectionState::Login;
    let mut payload = McBuf::new();
    payload.write_var_int(0);
    payload.write_string("alice");
    payload.write_ulong(0x1111222233334444);
    payload.write_ulong(0x5555666677778888);
    conn.feed_bytes(&frame(payload.as_slice()));
    conn.process_incoming_packets().unwrap();
    let profile = conn.gameprofile.as_ref().expect("profile recorded");
    assert_eq!(profile.username, "alice");
    assert_eq!(profile.uuid.msb, 0x1111222233334444);
    assert_eq!(profile.uuid.lsb, 0x5555666677778888);
    assert_eq!(profile.properties.len(), 0);
    let out = conn.encode_outgoing();
    // Login success: frame length, id 2, uuid, "alice", empty properties.
    assert_eq!(out[1], 2);
    let text = String::from_utf8_lossy(&out);
    assert!(text.contains("alice"));
}

#[test]
fn unknown_packet_id_reaches_fallback_and_connection_continues() {
    let mut conn = Connection::new();
    conn.state = ConnectionState::Status;
    // Id 2 is not declared for Status serverbound: the fallback runs and
    // nothing else changes.
    let mut payload = McBuf::new();
    payload.write_var_int(2);
    conn.feed_bytes(&frame(payload.as_slice()));
    conn.process_incoming_packets().unwrap();
    assert!(matches!(conn.state, ConnectionState::Status));
    assert_eq!(conn.encode_outgoing().len(), 0);
}

#[test]
fn keep_alive_queued_per_state() {
    let mut conn = Connection::new();
    conn.enqueue_keep_alive();
    assert_eq!(conn.encode_outgoing().len(), 0);

    conn.state = ConnectionState::Configuration;
    conn.enqueue_keep_alive();
    let out = conn.encode_outgoing();
    // Frame: length 9, id 4, i64 zero.
    assert_eq!(out, vec![9, 4, 0, 0, 0, 0, 0, 0, 0, 0]);

    conn.state = ConnectionState::Play;
    conn.enqueue_keep_alive();
    let out = conn.encode_outgoing();
    assert_eq!(out[1], 0x2B);
}

#[test]
fn outgoing_frames_keep_fifo_order() {
    let mut conn = Connection::new();
    conn.state = ConnectionState::Status;
    let mut p1 = McBuf::new();
    p1.write_var_int(1);
    p1.write_long(1);
    let mut p2 = McBuf::new();
    p2.write_var_int(1);
    p2.write_long(2);
    let mut stream = frame(p1.as_slice());
    stream.extend_from_slice(&frame(p2.as_slice()));
    conn.feed_bytes(&stream);
    conn.process_incoming_packets().unwrap();
    let out = conn.encode_outgoing();
    // Two pong frames, echoing 1 then 2, in that order.
    assert_eq!(out[..10], [9, 1, 0, 0, 0, 0, 0, 0, 0, 1]);
    assert_eq!(out[10..], [9, 1, 0, 0, 0, 0, 0, 0, 0, 2]);
}

#[test]
fn configuration_acknowledge_moves_to_play() {
    let mut conn = Connection::new();
    conn.state = ConnectionState::Configuration;
    let mut payload = McBuf::new();
    payload.write_var_int(3);
    conn.feed_bytes(&frame(payload.as_slice()));
    conn.process_incoming_packets().unwrap();
    assert!(matches!(conn.state, ConnectionState::Play));
    let out = conn.encode_outgoing();
    // The queued Play login frame starts with id 0x30.
    assert_eq!(out[1], 0x30);
}

#[test]
fn known_packs_answers_with_registry_frames() {
    let mut conn = Connection::new();
    conn.state = ConnectionState::Configuration;
    // Serverbound known packs: id 7, empty pack list.
    let mut payload = McBuf::new();
    payload.write_var_int(7);
    payload.write_var_int(0);
    conn.feed_bytes(&frame(payload.as_slice()));
    conn.process_incoming_packets().unwrap();
    let out = conn.encode_outgoing();
    let text = String::from_utf8_lossy(&out);
    assert!(text.contains("minecraft:dimension_type"));
    assert!(text.contains("minecraft:damage_type"));
    assert!(text.contains("minecraft:timeline"));
}
