use leaflet::buffer::{BufferResult, McBuf};
use leaflet::dispatch::{StatusServerboundHandler, handle_status_serverbound};
use leaflet::packets::status::{ServerboundPingPacket, ServerboundStatusRequestPacket};

/// A handler that records every callback it receives: declared packets as
/// their ids, the fallback as the raw id it was given.
struct RecordingHandler;

impl StatusServerboundHandler for RecordingHandler {
    type ClientType = Vec<i32>;

    // The `_spec` items are the trait's specification hooks; they are never
    // called at run time.
    fn on_status_request_spec(
        &self,
        _pre: Vec<i32>,
        _packet: ServerboundStatusRequestPacket,
        _post: Vec<i32>,
        _r: BufferResult<()>,
    ) -> bool {
        true
    }

    fn on_ping_spec(
        &self,
        _pre: Vec<i32>,
        _packet: ServerboundPingPacket,
        _post: Vec<i32>,
        _r: BufferResult<()>,
    ) -> bool {
        true
    }

    fn on_unknown_spec(&self, _pre: Vec<i32>, _id: i32, _post: Vec<i32>) -> bool {
        true
    }

    fn on_status_request(
        &self,
        connection: &mut Vec<i32>,
        _packet: ServerboundStatusRequestPacket,
    ) -> BufferResult<()> {
        connection.push(0);
        Ok(())
    }

    fn on_ping(&self, connection: &mut Vec<i32>, _packet: ServerboundPingPacket) -> BufferResult<
        (),
    > {
        connection.push(1);
        Ok(())
    }

    fn on_unknown(&self, connection: &mut Vec<i32>, id: i32, _buf: &mut McBuf) {
        connection.push(1000 + id);
    }
}

#[test]
fn declared_ids_reach_their_callbacks() {
    let handler = RecordingHandler;
    let mut log: Vec<i32> = Vec::new();

    let mut frame = McBuf::new();
    frame.write_var_int(0);
    handle_status_serverbound(&mut log, &mut frame, &handler).unwrap();

    let mut frame = McBuf::new();
    frame.write_var_int(1);
    frame.write_long(77);
    handle_status_serverbound(&mut log, &mut frame, &handler).unwrap();

    assert_eq!(log, vec![0, 1]);
}

#[test]
fn unmatched_id_reaches_fallback_exactly_once_with_that_id() {
    let handler = RecordingHandler;
    let mut log: Vec<i32> = Vec::new();
    // The Status serverbound table declares ids 0 and 1; a frame carrying
    // id 2 must reach the fallback exactly once, with id 2.
    let mut frame = McBuf::new();
    frame.write_var_int(2);
    handle_status_serverbound(&mut log, &mut frame, &handler).unwrap();
    assert_eq!(log, vec![1002]);
}

#[test]
fn decode_failure_is_reported() {
    let handler = RecordingHandler;
    let mut log: Vec<i32> = Vec::new();
    // Id 1 declares a ping, but its 8-byte payload is missing.
    let mut frame = McBuf::new();
    frame.write_var_int(1);
    frame.write_ubyte(5);
    assert!(handle_status_serverbound(&mut log, &mut frame, &handler).is_err());
    assert_eq!(log, Vec::<i32>::new());
}
