//! A verified protocol engine for a length-prefixed binary client-server
//! protocol: wire buffer and varint codec, type-directed serialization,
//! packet framing, per-state packet dispatch, and a paletted block container.

pub mod buffer;
pub mod codec;
pub mod connection;
pub mod dispatch;
pub mod game_profile;
pub mod handlers;
pub mod identifier;
pub mod location;
pub mod nbt;
pub mod packet_reader;
pub mod packets;
pub mod palette;
pub mod protocol;
pub mod registry;
pub mod extra;
pub mod uuid;
pub mod varint;

use vstd::prelude::*;

verus! {

} // verus!
