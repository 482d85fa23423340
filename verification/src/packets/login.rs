//! Packets of the Login state.

use vstd::prelude::*;
use crate::buffer::{BufferResult, McBuf, NetworkType};
use crate::protocol::{ConnectionState, Packet, PacketDirection};
use crate::codec::lemma_concat_split;
use crate::game_profile::GameProfile;
use crate::uuid::Uuid;

verus! {

#[derive(Debug, Clone)]
pub struct ServerboundLoginStartPacket {
    pub username: String,
    pub uuid: Uuid,
}

impl NetworkType for ServerboundLoginStartPacket {
    open spec fn wire(&self) -> Seq<u8> {
        self.username.wire() + self.uuid.wire()
    }

    open spec fn dec_end(data: Seq<u8>, pos: int) -> Option<int> {
        match <String as NetworkType>::dec_end(data, pos) {
            Some(p1) => <Uuid as NetworkType>::dec_end(data, p1),
            None => None,
        }
    }

    open spec fn decodes_to(data: Seq<u8>, pos: int, v: &Self) -> bool {
        match <String as NetworkType>::dec_end(data, pos) {
            Some(p1) => <String as NetworkType>::decodes_to(data, pos, &v.username) && <
                Uuid as NetworkType>::decodes_to(data, p1, &v.uuid),
            None => false,
        }
    }

    open spec fn wire_ok(&self) -> bool {
        self.username.wire_ok()
    }

    fn read(buf: &mut McBuf) -> (r: BufferResult<Self>) {
        let username = match buf.read_network_type::<String>() {
            Ok(v) => v,
            Err(e) => {
                return Err(e);
            },
        };
        let uuid = match buf.read_network_type::<Uuid>() {
            Ok(v) => v,
            Err(e) => {
                return Err(e);
            },
        };
        Ok(ServerboundLoginStartPacket { username, uuid })
    }

    fn write(&self, buf: &mut McBuf) {
        buf.write_network_type(&self.username);
        buf.write_network_type(&self.uuid);
        proof {
            assert(buf@.data =~= old(buf)@.data + self.wire());
        }
    }

    proof fn lemma_wire_round_trip(&self, data: Seq<u8>, pos: int) {
        lemma_concat_split(data, pos, self.username.wire(), self.uuid.wire());
        self.username.lemma_wire_round_trip(data, pos);
        self.uuid.lemma_wire_round_trip(data, pos + self.username.wire().len());
    }
}

impl Packet for ServerboundLoginStartPacket {
    open spec fn spec_state() -> ConnectionState {
        ConnectionState::Login
    }

    open spec fn spec_direction() -> PacketDirection {
        PacketDirection::Serverbound
    }

    open spec fn spec_id() -> i32 {
        0
    }

    fn id() -> (r: i32) {
        0
    }
}

#[derive(Debug, Clone, Copy, PartialEq, Eq, Structural)]
pub struct ServerboundLoginAcknowledgedPacket;

impl NetworkType for ServerboundLoginAcknowledgedPacket {
    open spec fn wire(&self) -> Seq<u8> {
        Seq::<u8>::empty()
    }

    open spec fn dec_end(data: Seq<u8>, pos: int) -> Option<int> {
        Some(pos)
    }

    open spec fn decodes_to(data: Seq<u8>, pos: int, v: &Self) -> bool {
        true
    }

    open spec fn wire_ok(&self) -> bool {
        true
    }

    fn read(buf: &mut McBuf) -> (r: BufferResult<Self>) {
        Ok(ServerboundLoginAcknowledgedPacket)
    }

    fn write(&self, buf: &mut McBuf) {
        proof {
            assert(buf@.data =~= old(buf)@.data + self.wire());
        }
    }

    proof fn lemma_wire_round_trip(&self, data: Seq<u8>, pos: int) {
    }
}

impl Packet for ServerboundLoginAcknowledgedPacket {
    open spec fn spec_state() -> ConnectionState {
        ConnectionState::Login
    }

    open spec fn spec_direction() -> PacketDirection {
        PacketDirection::Serverbound
    }

    open spec fn spec_id() -> i32 {
        3
    }

    fn id() -> (r: i32) {
        3
    }
}

#[derive(Debug, Clone)]
pub struct ClientboundLoginSuccessPacket {
    pub gameprofile: GameProfile,
}

impl NetworkType for ClientboundLoginSuccessPacket {
    open spec fn wire(&self) -> Seq<u8> {
        self.gameprofile.wire()
    }

    open spec fn dec_end(data: Seq<u8>, pos: int) -> Option<int> {
        <GameProfile as NetworkType>::dec_end(data, pos)
    }

    open spec fn decodes_to(data: Seq<u8>, pos: int, v: &Self) -> bool {
        <GameProfile as NetworkType>::decodes_to(data, pos, &v.gameprofile)
    }

    open spec fn wire_ok(&self) -> bool {
        self.gameprofile.wire_ok()
    }

    fn read(buf: &mut McBuf) -> (r: BufferResult<Self>) {
        match buf.read_network_type::<GameProfile>() {
            Ok(v) => Ok(ClientboundLoginSuccessPacket { gameprofile: v }),
            Err(e) => Err(e),
        }
    }

    fn write(&self, buf: &mut McBuf) {
        buf.write_network_type(&self.gameprofile);
    }

    proof fn lemma_wire_round_trip(&self, data: Seq<u8>, pos: int) {
        self.gameprofile.lemma_wire_round_trip(data, pos);
    }
}

impl Packet for ClientboundLoginSuccessPacket {
    open spec fn spec_state() -> ConnectionState {
        ConnectionState::Login
    }

    open spec fn spec_direction() -> PacketDirection {
        PacketDirection::Clientbound
    }

    open spec fn spec_id() -> i32 {
        2
    }

    fn id() -> (r: i32) {
        2
    }
}

} // verus!
