//! The handshake packet that opens every connection and selects the next
//! protocol state through its intent field.

use vstd::prelude::*;
use crate::buffer::{BufferResult, McBuf, NetworkType};
use crate::protocol::{ConnectionState, Packet, PacketDirection};
use crate::codec::{be2, be2_val, fixed_end, varint_bytes, varint_end, varint_value,
    lemma_be2_round_trip, lemma_concat_split, lemma_varint_field_round_trip};

verus! {

#[derive(Debug, Clone)]
pub struct ServerboundHandshakePacket {
    /// Travels as a varint.
    pub protocol_version: i32,
    pub server_address: String,
    pub server_port: u16,
    /// Travels as a varint; selects Status (1) or Login (2, 3).
    pub intent: i32,
}

impl NetworkType for ServerboundHandshakePacket {
    open spec fn wire(&self) -> Seq<u8> {
        varint_bytes(self.protocol_version as u32) + self.server_address.wire() + be2(
            self.server_port,
        ) + varint_bytes(self.intent as u32)
    }

    open spec fn dec_end(data: Seq<u8>, pos: int) -> Option<int> {
        match varint_end(data, pos) {
            Some(p1) => match <String as NetworkType>::dec_end(data, p1) {
                Some(p2) => match fixed_end(data, p2, 2) {
                    Some(p3) => varint_end(data, p3),
                    None => None,
                },
                None => None,
            },
            None => None,
        }
    }

    open spec fn decodes_to(data: Seq<u8>, pos: int, v: &Self) -> bool {
        match varint_end(data, pos) {
            Some(p1) => v.protocol_version == varint_value(data, pos) && match <
                String as NetworkType>::dec_end(data, p1) {
                Some(p2) => <String as NetworkType>::decodes_to(data, p1, &v.server_address)
                    && match fixed_end(data, p2, 2) {
                    Some(p3) => v.server_port == be2_val(data, p2) && varint_end(data, p3) is Some
                        && v.intent == varint_value(data, p3),
                    None => false,
                },
                None => false,
            },
            None => false,
        }
    }

    open spec fn wire_ok(&self) -> bool {
        self.server_address.wire_ok()
    }

    fn read(buf: &mut McBuf) -> (r: BufferResult<Self>) {
        let protocol_version = match buf.read_var_int() {
            Ok(v) => v,
            Err(e) => {
                return Err(e);
            },
        };
        let server_address = match buf.read_network_type::<String>() {
            Ok(v) => v,
            Err(e) => {
                return Err(e);
            },
        };
        let server_port = match buf.read_ushort() {
            Ok(v) => v,
            Err(e) => {
                return Err(e);
            },
        };
        let intent = match buf.read_var_int() {
            Ok(v) => v,
            Err(e) => {
                return Err(e);
            },
        };
        Ok(ServerboundHandshakePacket { protocol_version, server_address, server_port, intent })
    }

    fn write(&self, buf: &mut McBuf) {
        buf.write_var_int(self.protocol_version);
        buf.write_network_type(&self.server_address);
        buf.write_ushort(self.server_port);
        buf.write_var_int(self.intent);
        proof {
            assert(buf@.data =~= old(buf)@.data + self.wire());
        }
    }

    proof fn lemma_wire_round_trip(&self, data: Seq<u8>, pos: int) {
        let a = varint_bytes(self.protocol_version as u32);
        let b = self.server_address.wire();
        let c = be2(self.server_port);
        let d = varint_bytes(self.intent as u32);
        lemma_concat_split(data, pos, a + b + c, d);
        lemma_concat_split(data, pos, a + b, c);
        lemma_concat_split(data, pos, a, b);
        lemma_varint_field_round_trip(data, pos, self.protocol_version);
        let p1 = pos + a.len() as int;
        self.server_address.lemma_wire_round_trip(data, p1);
        let p2 = p1 + b.len() as int;
        lemma_be2_round_trip(data, p2, self.server_port);
        let p3 = p2 + 2;
        lemma_varint_field_round_trip(data, p3, self.intent);
    }
}

impl Packet for ServerboundHandshakePacket {
    open spec fn spec_state() -> ConnectionState {
        ConnectionState::Handshake
    }

    open spec fn spec_direction() -> PacketDirection {
        PacketDirection::Serverbound
    }

    open spec fn spec_id() -> i32 {
        0
    }

    fn id() -> (r: i32) {
        0
    }
}

} // verus!
