//! The serverbound Play-state tick packet.

use vstd::prelude::*;
use crate::buffer::{BufferResult, McBuf, NetworkType};
use crate::protocol::{ConnectionState, Packet, PacketDirection};

verus! {

#[derive(Debug, Clone, Copy, PartialEq, Eq, Structural)]
pub struct ClientboundPlayLoginPacket;

impl NetworkType for ClientboundPlayLoginPacket {
    open spec fn wire(&self) -> Seq<u8> {
        Seq::<u8>::empty()
    }

    open spec fn dec_end(data: Seq<u8>, pos: int) -> Option<int> {
        Some(pos)
    }

    open spec fn decodes_to(data: Seq<u8>, pos: int, v: &Self) -> bool {
        true
    }

    open spec fn wire_ok(&self) -> bool {
        true
    }

    fn read(buf: &mut McBuf) -> (r: BufferResult<Self>) {
        Ok(ClientboundPlayLoginPacket)
    }

    fn write(&self, buf: &mut McBuf) {
        proof {
            assert(buf@.data =~= old(buf)@.data + self.wire());
        }
    }

    proof fn lemma_wire_round_trip(&self, data: Seq<u8>, pos: int) {
    }
}

impl Packet for ClientboundPlayLoginPacket {
    open spec fn spec_state() -> ConnectionState {
        ConnectionState::Play
    }

    open spec fn spec_direction() -> PacketDirection {
        PacketDirection::Serverbound
    }

    open spec fn spec_id() -> i32 {
        12
    }

    fn id() -> (r: i32) {
        12
    }
}

} // verus!
