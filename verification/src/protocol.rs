//! Protocol metadata: the connection states, packet directions, and the
//! packet trait binding a value type to its `(state, direction, id)` triple.

use vstd::prelude::*;
use crate::buffer::NetworkType;
use crate::codec::varint_bytes;

verus! {

/// The five protocol states of a connection, forward-only in normal
/// operation: Handshake, then Status or Login, then Configuration, then
/// Play.
#[derive(Debug, Clone, Copy, PartialEq, Eq, Structural)]
pub enum ConnectionState {
    Handshake,
    Status,
    Login,
    Configuration,
    Play,
}

/// Which way a packet travels; packet ids are scoped per state and
/// direction.
#[derive(Debug, Clone, Copy, PartialEq, Eq, Structural)]
pub enum PacketDirection {
    Serverbound,
    Clientbound,
}

/// A packet: a serializable value type bound to exactly one
/// `(state, direction, id)` triple. The triple is static metadata of the
/// type, never a runtime field.
pub trait Packet: NetworkType {
    spec fn spec_state() -> ConnectionState;

    spec fn spec_direction() -> PacketDirection;

    spec fn spec_id() -> i32;

    fn id() -> (r: i32)
        ensures
            r == Self::spec_id(),
    ;
}

/// The full frame payload of a packet: its varint id followed by its
/// encoded fields.
pub open spec fn packet_payload<T: Packet>(p: T) -> Seq<u8> {
    varint_bytes(T::spec_id() as u32) + p.wire()
}

} // verus!
