//! Packets of the Status state: the server list query and ping.

use vstd::prelude::*;
use crate::buffer::{BufferResult, McBuf, NetworkType};
use crate::protocol::{ConnectionState, Packet, PacketDirection};
use crate::codec::{be8, be8_val, fixed_end, lemma_be8_round_trip};

verus! {

#[derive(Debug, Clone, Copy, PartialEq, Eq, Structural)]
pub struct ServerboundStatusRequestPacket;

impl NetworkType for ServerboundStatusRequestPacket {
    open spec fn wire(&self) -> Seq<u8> {
        Seq::<u8>::empty()
    }

    open spec fn dec_end(data: Seq<u8>, pos: int) -> Option<int> {
        Some(pos)
    }

    open spec fn decodes_to(data: Seq<u8>, pos: int, v: &Self) -> bool {
        true
    }

    open spec fn wire_ok(&self) -> bool {
        true
    }

    fn read(buf: &mut McBuf) -> (r: BufferResult<Self>) {
        Ok(ServerboundStatusRequestPacket)
    }

    fn write(&self, buf: &mut McBuf) {
        proof {
            assert(buf@.data =~= old(buf)@.data + self.wire());
        }
    }

    proof fn lemma_wire_round_trip(&self, data: Seq<u8>, pos: int) {
    }
}

impl Packet for ServerboundStatusRequestPacket {
    open spec fn spec_state() -> ConnectionState {
        ConnectionState::Status
    }

    open spec fn spec_direction() -> PacketDirection {
        PacketDirection::Serverbound
    }

    open spec fn spec_id() -> i32 {
        0
    }

    fn id() -> (r: i32) {
        0
    }
}

#[derive(Debug, Clone, Copy, PartialEq, Eq, Structural)]
pub struct ServerboundPingPacket {
    pub payload: i64,
}

impl NetworkType for ServerboundPingPacket {
    open spec fn wire(&self) -> Seq<u8> {
        be8(self.payload as u64)
    }

    open spec fn dec_end(data: Seq<u8>, pos: int) -> Option<int> {
        fixed_end(data, pos, 8)
    }

    open spec fn decodes_to(data: Seq<u8>, pos: int, v: &Self) -> bool {
        fixed_end(data, pos, 8) is Some && v.payload == be8_val(data, pos) as i64
    }

    open spec fn wire_ok(&self) -> bool {
        true
    }

    fn read(buf: &mut McBuf) -> (r: BufferResult<Self>) {
        match buf.read_long() {
            Ok(v) => Ok(ServerboundPingPacket { payload: v }),
            Err(e) => Err(e),
        }
    }

    fn write(&self, buf: &mut McBuf) {
        buf.write_long(self.payload);
    }

    proof fn lemma_wire_round_trip(&self, data: Seq<u8>, pos: int) {
        lemma_be8_round_trip(data, pos, self.payload as u64);
        crate::codec::lemma_cast_i64_round_trip(self.payload);
    }
}

impl Packet for ServerboundPingPacket {
    open spec fn spec_state() -> ConnectionState {
        ConnectionState::Status
    }

    open spec fn spec_direction() -> PacketDirection {
        PacketDirection::Serverbound
    }

    open spec fn spec_id() -> i32 {
        1
    }

    fn id() -> (r: i32) {
        1
    }
}

#[derive(Debug, Clone)]
pub struct ClientboundStatusResponsePacket {
    pub response_payload: String,
}

impl NetworkType for ClientboundStatusResponsePacket {
    open spec fn wire(&self) -> Seq<u8> {
        self.response_payload.wire()
    }

    open spec fn dec_end(data: Seq<u8>, pos: int) -> Option<int> {
        <String as NetworkType>::dec_end(data, pos)
    }

    open spec fn decodes_to(data: Seq<u8>, pos: int, v: &Self) -> bool {
        <String as NetworkType>::decodes_to(data, pos, &v.response_payload)
    }

    open spec fn wire_ok(&self) -> bool {
        self.response_payload.wire_ok()
    }

    fn read(buf: &mut McBuf) -> (r: BufferResult<Self>) {
        match buf.read_network_type::<String>() {
            Ok(v) => Ok(ClientboundStatusResponsePacket { response_payload: v }),
            Err(e) => Err(e),
        }
    }

    fn write(&self, buf: &mut McBuf) {
        buf.write_network_type(&self.response_payload);
    }

    proof fn lemma_wire_round_trip(&self, data: Seq<u8>, pos: int) {
        self.response_payload.lemma_wire_round_trip(data, pos);
    }
}

impl Packet for ClientboundStatusResponsePacket {
    open spec fn spec_state() -> ConnectionState {
        ConnectionState::Status
    }

    open spec fn spec_direction() -> PacketDirection {
        PacketDirection::Clientbound
    }

    open spec fn spec_id() -> i32 {
        0
    }

    fn id() -> (r: i32) {
        0
    }
}

#[derive(Debug, Clone, Copy, PartialEq, Eq, Structural)]
pub struct ClientboundPongPacket {
    pub payload: i64,
}

impl NetworkType for ClientboundPongPacket {
    open spec fn wire(&self) -> Seq<u8> {
        be8(self.payload as u64)
    }

    open spec fn dec_end(data: Seq<u8>, pos: int) -> Option<int> {
        fixed_end(data, pos, 8)
    }

    open spec fn decodes_to(data: Seq<u8>, pos: int, v: &Self) -> bool {
        fixed_end(data, pos, 8) is Some && v.payload == be8_val(data, pos) as i64
    }

    open spec fn wire_ok(&self) -> bool {
        true
    }

    fn read(buf: &mut McBuf) -> (r: BufferResult<Self>) {
        match buf.read_long() {
            Ok(v) => Ok(ClientboundPongPacket { payload: v }),
            Err(e) => Err(e),
        }
    }

    fn write(&self, buf: &mut McBuf) {
        buf.write_long(self.payload);
    }

    proof fn lemma_wire_round_trip(&self, data: Seq<u8>, pos: int) {
        lemma_be8_round_trip(data, pos, self.payload as u64);
        crate::codec::lemma_cast_i64_round_trip(self.payload);
    }
}

impl Packet for ClientboundPongPacket {
    open spec fn spec_state() -> ConnectionState {
        ConnectionState::Status
    }

    open spec fn spec_direction() -> PacketDirection {
        PacketDirection::Clientbound
    }

    open spec fn spec_id() -> i32 {
        1
    }

    fn id() -> (r: i32) {
        1
    }
}

} // verus!
