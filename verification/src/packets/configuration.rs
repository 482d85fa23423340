//! Packets of the Configuration state: client settings, known resource
//! packs, tag data, the code of conduct, and keep-alives.

use vstd::prelude::*;
use crate::buffer::{BufferError, BufferResult, McBuf, NetworkType};
use crate::protocol::{ConnectionState, Packet, PacketDirection};
use crate::codec::{be8, be8_val, byte_end, fixed_end, varint_bytes, varint_end, varint_value,
    lemma_be8_round_trip, lemma_byte_field, lemma_concat_split, lemma_varint_field_round_trip};
use crate::identifier::Identifier;
use crate::nbt::{NBTTag, content_wire, spec_type_id};
use crate::varint::VarInt;

verus! {

#[derive(Debug, Clone)]
pub struct ServerboundClientInformationPacket {
    pub locale: String,
    pub view_distance: i8,
    /// Travels as a varint.
    pub chat_mode: i32,
    pub chat_colors: bool,
    pub displayed_skin_parts: u8,
    /// Travels as a varint.
    pub main_hand: i32,
    pub enable_text_filtering: bool,
    pub allow_server_listings: bool,
    /// Travels as a varint.
    pub particle_status: i32,
}

impl NetworkType for ServerboundClientInformationPacket {
    open spec fn wire(&self) -> Seq<u8> {
        self.locale.wire() + seq![self.view_distance as u8] + varint_bytes(self.chat_mode as u32) + seq![(if self.chat_colors { 1u8 } else { 0u8 })] + seq![self.displayed_skin_parts] + varint_bytes(self.main_hand as u32) + seq![(if self.enable_text_filtering { 1u8 } else { 0u8 })] + seq![(if self.allow_server_listings { 1u8 } else { 0u8 })] + varint_bytes(self.particle_status as u32)
    }

    open spec fn dec_end(data: Seq<u8>, pos: int) -> Option<int> {
        match <String as NetworkType>::dec_end(data, pos) {
            Some(p1) => {
            match byte_end(data, p1) {
                Some(p2) => {
                match varint_end(data, p2) {
                    Some(p3) => {
                    match byte_end(data, p3) {
                        Some(p4) => {
                        match byte_end(data, p4) {
                            Some(p5) => {
                            match varint_end(data, p5) {
                                Some(p6) => {
                                match byte_end(data, p6) {
                                    Some(p7) => {
                                    match byte_end(data, p7) {
                                        Some(p8) => {
                                        varint_end(data, p8)
                                        },
                                        None => None,
                                    }
                                    },
                                    None => None,
                                }
                                },
                                None => None,
                            }
                            },
                            None => None,
                        }
                        },
                        None => None,
                    }
                    },
                    None => None,
                }
                },
                None => None,
            }
            },
            None => None,
        }
    }

    open spec fn decodes_to(data: Seq<u8>, pos: int, v: &Self) -> bool {
        match <String as NetworkType>::dec_end(data, pos) {
            Some(p1) => <String as NetworkType>::decodes_to(data, pos, &v.locale) && {
            match byte_end(data, p1) {
                Some(p2) => v.view_distance == data[p1] as i8 && {
                match varint_end(data, p2) {
                    Some(p3) => v.chat_mode == varint_value(data, p2) && {
                    match byte_end(data, p3) {
                        Some(p4) => v.chat_colors == (data[p3] != 0) && {
                        match byte_end(data, p4) {
                            Some(p5) => v.displayed_skin_parts == data[p4] && {
                            match varint_end(data, p5) {
                                Some(p6) => v.main_hand == varint_value(data, p5) && {
                                match byte_end(data, p6) {
                                    Some(p7) => v.enable_text_filtering == (data[p6] != 0) && {
                                    match byte_end(data, p7) {
                                        Some(p8) => v.allow_server_listings == (data[p7] != 0) && {
                                        varint_end(data, p8) is Some && v.particle_status == varint_value(data, p8)
                                        },
                                        None => false,
                                    }
                                    },
                                    None => false,
                                }
                                },
                                None => false,
                            }
                            },
                            None => false,
                        }
                        },
                        None => false,
                    }
                    },
                    None => false,
                }
                },
                None => false,
            }
            },
            None => false,
        }
    }

    open spec fn wire_ok(&self) -> bool {
        self.locale.wire_ok()
    }

    fn read(buf: &mut McBuf) -> (r: BufferResult<Self>) {
        let locale = match buf.read_network_type::<String>() {
            Ok(v) => v,
            Err(e) => {
                return Err(e);
            },
        };
        let view_distance = match buf.read_byte() {
            Ok(v) => v,
            Err(e) => {
                return Err(e);
            },
        };
        let chat_mode = match buf.read_var_int() {
            Ok(v) => v,
            Err(e) => {
                return Err(e);
            },
        };
        let chat_colors = match buf.read_bool() {
            Ok(v) => v,
            Err(e) => {
                return Err(e);
            },
        };
        let displayed_skin_parts = match buf.read_ubyte() {
            Ok(v) => v,
            Err(e) => {
                return Err(e);
            },
        };
        let main_hand = match buf.read_var_int() {
            Ok(v) => v,
            Err(e) => {
                return Err(e);
            },
        };
        let enable_text_filtering = match buf.read_bool() {
            Ok(v) => v,
            Err(e) => {
                return Err(e);
            },
        };
        let allow_server_listings = match buf.read_bool() {
            Ok(v) => v,
            Err(e) => {
                return Err(e);
            },
        };
        let particle_status = match buf.read_var_int() {
            Ok(v) => v,
            Err(e) => {
                return Err(e);
            },
        };
        Ok(ServerboundClientInformationPacket { locale, view_distance, chat_mode, chat_colors, displayed_skin_parts, main_hand, enable_text_filtering, allow_server_listings, particle_status })
    }

    #[verifier::rlimit(60)]
    fn write(&self, buf: &mut McBuf) {
        let ghost d0 = buf@.data;
        buf.write_network_type(&self.locale);
        proof {
            assert(buf@.data =~= d0 + (self.locale.wire()));
        }
        buf.write_byte(self.view_distance);
        proof {
            assert(buf@.data =~= d0 + (self.locale.wire() + seq![self.view_distance as u8]));
        }
        buf.write_var_int(self.chat_mode);
        proof {
            assert(buf@.data =~= d0 + (self.locale.wire() + seq![self.view_distance as u8] + varint_bytes(self.chat_mode as u32)));
        }
        buf.write_bool(self.chat_colors);
        proof {
            assert(buf@.data =~= d0 + (self.locale.wire() + seq![self.view_distance as u8] + varint_bytes(self.chat_mode as u32) + seq![(if self.chat_colors { 1u8 } else { 0u8 })]));
        }
        buf.write_ubyte(self.displayed_skin_parts);
        proof {
            assert(buf@.data =~= d0 + (self.locale.wire() + seq![self.view_distance as u8] + varint_bytes(self.chat_mode as u32) + seq![(if self.chat_colors { 1u8 } else { 0u8 })] + seq![self.displayed_skin_parts]));
        }
        buf.write_var_int(self.main_hand);
        proof {
            assert(buf@.data =~= d0 + (self.locale.wire() + seq![self.view_distance as u8] + varint_bytes(self.chat_mode as u32) + seq![(if self.chat_colors { 1u8 } else { 0u8 })] + seq![self.displayed_skin_parts] + varint_bytes(self.main_hand as u32)));
        }
        buf.write_bool(self.enable_text_filtering);
        proof {
            assert(buf@.data =~= d0 + (self.locale.wire() + seq![self.view_distance as u8] + varint_bytes(self.chat_mode as u32) + seq![(if self.chat_colors { 1u8 } else { 0u8 })] + seq![self.displayed_skin_parts] + varint_bytes(self.main_hand as u32) + seq![(if self.enable_text_filtering { 1u8 } else { 0u8 })]));
        }
        buf.write_bool(self.allow_server_listings);
        proof {
            assert(buf@.data =~= d0 + (self.locale.wire() + seq![self.view_distance as u8] + varint_bytes(self.chat_mode as u32) + seq![(if self.chat_colors { 1u8 } else { 0u8 })] + seq![self.displayed_skin_parts] + varint_bytes(self.main_hand as u32) + seq![(if self.enable_text_filtering { 1u8 } else { 0u8 })] + seq![(if self.allow_server_listings { 1u8 } else { 0u8 })]));
        }
        buf.write_var_int(self.particle_status);
        proof {
            assert(buf@.data =~= d0 + (self.locale.wire() + seq![self.view_distance as u8] + varint_bytes(self.chat_mode as u32) + seq![(if self.chat_colors { 1u8 } else { 0u8 })] + seq![self.displayed_skin_parts] + varint_bytes(self.main_hand as u32) + seq![(if self.enable_text_filtering { 1u8 } else { 0u8 })] + seq![(if self.allow_server_listings { 1u8 } else { 0u8 })] + varint_bytes(self.particle_status as u32)));
        }
    }

    #[verifier::rlimit(60)]
    proof fn lemma_wire_round_trip(&self, data: Seq<u8>, pos: int) {
        let w0 = self.locale.wire();
        let w1 = seq![self.view_distance as u8];
        let w2 = varint_bytes(self.chat_mode as u32);
        let w3 = seq![(if self.chat_colors { 1u8 } else { 0u8 })];
        let w4 = seq![self.displayed_skin_parts];
        let w5 = varint_bytes(self.main_hand as u32);
        let w6 = seq![(if self.enable_text_filtering { 1u8 } else { 0u8 })];
        let w7 = seq![(if self.allow_server_listings { 1u8 } else { 0u8 })];
        let w8 = varint_bytes(self.particle_status as u32);
        lemma_concat_split(data, pos, w0 + w1 + w2 + w3 + w4 + w5 + w6 + w7, w8);
        lemma_concat_split(data, pos, w0 + w1 + w2 + w3 + w4 + w5 + w6, w7);
        lemma_concat_split(data, pos, w0 + w1 + w2 + w3 + w4 + w5, w6);
        lemma_concat_split(data, pos, w0 + w1 + w2 + w3 + w4, w5);
        lemma_concat_split(data, pos, w0 + w1 + w2 + w3, w4);
        lemma_concat_split(data, pos, w0 + w1 + w2, w3);
        lemma_concat_split(data, pos, w0 + w1, w2);
        lemma_concat_split(data, pos, w0, w1);
        self.locale.lemma_wire_round_trip(data, pos);
        let q1 = pos + w0.len() as int;
        lemma_byte_field(data, q1, self.view_distance as u8);
        crate::codec::lemma_cast_i8_round_trip(self.view_distance);
        let q2 = q1 + w1.len() as int;
        lemma_varint_field_round_trip(data, q2, self.chat_mode);
        let q3 = q2 + w2.len() as int;
        lemma_byte_field(data, q3, (if self.chat_colors { 1u8 } else { 0u8 }));
        let q4 = q3 + w3.len() as int;
        lemma_byte_field(data, q4, self.displayed_skin_parts);
        let q5 = q4 + w4.len() as int;
        lemma_varint_field_round_trip(data, q5, self.main_hand);
        let q6 = q5 + w5.len() as int;
        lemma_byte_field(data, q6, (if self.enable_text_filtering { 1u8 } else { 0u8 }));
        let q7 = q6 + w6.len() as int;
        lemma_byte_field(data, q7, (if self.allow_server_listings { 1u8 } else { 0u8 }));
        let q8 = q7 + w7.len() as int;
        lemma_varint_field_round_trip(data, q8, self.particle_status);
    }
}

impl Packet for ServerboundClientInformationPacket {
    open spec fn spec_state() -> ConnectionState {
        ConnectionState::Configuration
    }

    open spec fn spec_direction() -> PacketDirection {
        PacketDirection::Serverbound
    }

    open spec fn spec_id() -> i32 {
        0
    }

    fn id() -> (r: i32) {
        0
    }
}
#[derive(Debug, Clone, Copy, PartialEq, Eq, Structural)]
pub struct ServerboundAcknowledgeFinishConfigurationPacket;

impl NetworkType for ServerboundAcknowledgeFinishConfigurationPacket {
    open spec fn wire(&self) -> Seq<u8> {
        Seq::<u8>::empty()
    }

    open spec fn dec_end(data: Seq<u8>, pos: int) -> Option<int> {
        Some(pos)
    }

    open spec fn decodes_to(data: Seq<u8>, pos: int, v: &Self) -> bool {
        true
    }

    open spec fn wire_ok(&self) -> bool {
        true
    }

    fn read(buf: &mut McBuf) -> (r: BufferResult<Self>) {
        Ok(ServerboundAcknowledgeFinishConfigurationPacket)
    }

    fn write(&self, buf: &mut McBuf) {
        proof {
            assert(buf@.data =~= old(buf)@.data + self.wire());
        }
    }

    proof fn lemma_wire_round_trip(&self, data: Seq<u8>, pos: int) {
    }
}

impl Packet for ServerboundAcknowledgeFinishConfigurationPacket {
    open spec fn spec_state() -> ConnectionState {
        ConnectionState::Configuration
    }

    open spec fn spec_direction() -> PacketDirection {
        PacketDirection::Serverbound
    }

    open spec fn spec_id() -> i32 {
        3
    }

    fn id() -> (r: i32) {
        3
    }
}

#[derive(Debug, Clone, Copy, PartialEq, Eq, Structural)]
pub struct ServerboundAcceptCodeOfConductPacket;

impl NetworkType for ServerboundAcceptCodeOfConductPacket {
    open spec fn wire(&self) -> Seq<u8> {
        Seq::<u8>::empty()
    }

    open spec fn dec_end(data: Seq<u8>, pos: int) -> Option<int> {
        Some(pos)
    }

    open spec fn decodes_to(data: Seq<u8>, pos: int, v: &Self) -> bool {
        true
    }

    open spec fn wire_ok(&self) -> bool {
        true
    }

    fn read(buf: &mut McBuf) -> (r: BufferResult<Self>) {
        Ok(ServerboundAcceptCodeOfConductPacket)
    }

    fn write(&self, buf: &mut McBuf) {
        proof {
            assert(buf@.data =~= old(buf)@.data + self.wire());
        }
    }

    proof fn lemma_wire_round_trip(&self, data: Seq<u8>, pos: int) {
    }
}

impl Packet for ServerboundAcceptCodeOfConductPacket {
    open spec fn spec_state() -> ConnectionState {
        ConnectionState::Configuration
    }

    open spec fn spec_direction() -> PacketDirection {
        PacketDirection::Serverbound
    }

    open spec fn spec_id() -> i32 {
        9
    }

    fn id() -> (r: i32) {
        9
    }
}

#[derive(Debug, Clone)]
pub struct ServerboundConfigurationKeepAliveResponsePacket {
    pub id: i64,
}

impl NetworkType for ServerboundConfigurationKeepAliveResponsePacket {
    open spec fn wire(&self) -> Seq<u8> {
        be8(self.id as u64)
    }

    open spec fn dec_end(data: Seq<u8>, pos: int) -> Option<int> {
        fixed_end(data, pos, 8)
    }

    open spec fn decodes_to(data: Seq<u8>, pos: int, v: &Self) -> bool {
        fixed_end(data, pos, 8) is Some && v.id == be8_val(data, pos) as i64
    }

    open spec fn wire_ok(&self) -> bool {
        true
    }

    fn read(buf: &mut McBuf) -> (r: BufferResult<Self>) {
        let id = match buf.read_long() {
            Ok(v) => v,
            Err(e) => {
                return Err(e);
            },
        };
        Ok(ServerboundConfigurationKeepAliveResponsePacket { id })
    }

    fn write(&self, buf: &mut McBuf) {
        buf.write_long(self.id);
        proof {
            assert(buf@.data =~= old(buf)@.data + self.wire());
        }
    }

    proof fn lemma_wire_round_trip(&self, data: Seq<u8>, pos: int) {
        let w0 = be8(self.id as u64);

        lemma_be8_round_trip(data, pos, self.id as u64);
        crate::codec::lemma_cast_i64_round_trip(self.id);
    }
}

impl Packet for ServerboundConfigurationKeepAliveResponsePacket {
    open spec fn spec_state() -> ConnectionState {
        ConnectionState::Configuration
    }

    open spec fn spec_direction() -> PacketDirection {
        PacketDirection::Serverbound
    }

    open spec fn spec_id() -> i32 {
        4
    }

    fn id() -> (r: i32) {
        4
    }
}

#[derive(Debug, Clone)]
pub struct KnownPack {
    pub namespace: String,
    pub path: String,
    pub version: String,
}

impl NetworkType for KnownPack {
    open spec fn wire(&self) -> Seq<u8> {
        self.namespace.wire() + self.path.wire() + self.version.wire()
    }

    open spec fn dec_end(data: Seq<u8>, pos: int) -> Option<int> {
        match <String as NetworkType>::dec_end(data, pos) {
            Some(p1) => {
            match <String as NetworkType>::dec_end(data, p1) {
                Some(p2) => {
                <String as NetworkType>::dec_end(data, p2)
                },
                None => None,
            }
            },
            None => None,
        }
    }

    open spec fn decodes_to(data: Seq<u8>, pos: int, v: &Self) -> bool {
        match <String as NetworkType>::dec_end(data, pos) {
            Some(p1) => <String as NetworkType>::decodes_to(data, pos, &v.namespace) && {
            match <String as NetworkType>::dec_end(data, p1) {
                Some(p2) => <String as NetworkType>::decodes_to(data, p1, &v.path) && {
                <String as NetworkType>::dec_end(data, p2) is Some && <String as NetworkType>::decodes_to(data, p2, &v.version)
                },
                None => false,
            }
            },
            None => false,
        }
    }

    open spec fn wire_ok(&self) -> bool {
        self.namespace.wire_ok() && self.path.wire_ok() && self.version.wire_ok()
    }

    fn read(buf: &mut McBuf) -> (r: BufferResult<Self>) {
        let namespace = match buf.read_network_type::<String>() {
            Ok(v) => v,
            Err(e) => {
                return Err(e);
            },
        };
        let path = match buf.read_network_type::<String>() {
            Ok(v) => v,
            Err(e) => {
                return Err(e);
            },
        };
        let version = match buf.read_network_type::<String>() {
            Ok(v) => v,
            Err(e) => {
                return Err(e);
            },
        };
        Ok(KnownPack { namespace, path, version })
    }

    fn write(&self, buf: &mut McBuf) {
        buf.write_network_type(&self.namespace);
        buf.write_network_type(&self.path);
        buf.write_network_type(&self.version);
        proof {
            assert(buf@.data =~= old(buf)@.data + self.wire());
        }
    }

    proof fn lemma_wire_round_trip(&self, data: Seq<u8>, pos: int) {
        let w0 = self.namespace.wire();
        let w1 = self.path.wire();
        let w2 = self.version.wire();
        lemma_concat_split(data, pos, w0 + w1, w2);
        lemma_concat_split(data, pos, w0, w1);
        self.namespace.lemma_wire_round_trip(data, pos);
        let q1 = pos + w0.len() as int;
        self.path.lemma_wire_round_trip(data, q1);
        let q2 = q1 + w1.len() as int;
        self.version.lemma_wire_round_trip(data, q2);
    }
}

#[derive(Debug, Clone)]
pub struct ServerboundKnownPacksPacket {
    pub known_packs: Vec<KnownPack>,
}

impl NetworkType for ServerboundKnownPacksPacket {
    open spec fn wire(&self) -> Seq<u8> {
        self.known_packs.wire()
    }

    open spec fn dec_end(data: Seq<u8>, pos: int) -> Option<int> {
        <Vec<KnownPack> as NetworkType>::dec_end(data, pos)
    }

    open spec fn decodes_to(data: Seq<u8>, pos: int, v: &Self) -> bool {
        <Vec<KnownPack> as NetworkType>::dec_end(data, pos) is Some && <Vec<KnownPack> as NetworkType>::decodes_to(data, pos, &v.known_packs)
    }

    open spec fn wire_ok(&self) -> bool {
        self.known_packs.wire_ok()
    }

    fn read(buf: &mut McBuf) -> (r: BufferResult<Self>) {
        let known_packs = match buf.read_network_type::<Vec<KnownPack>>() {
            Ok(v) => v,
            Err(e) => {
                return Err(e);
            },
        };
        Ok(ServerboundKnownPacksPacket { known_packs })
    }

    fn write(&self, buf: &mut McBuf) {
        buf.write_network_type(&self.known_packs);
        proof {
            assert(buf@.data =~= old(buf)@.data + self.wire());
        }
    }

    proof fn lemma_wire_round_trip(&self, data: Seq<u8>, pos: int) {
        let w0 = self.known_packs.wire();

        self.known_packs.lemma_wire_round_trip(data, pos);
    }
}

impl Packet for ServerboundKnownPacksPacket {
    open spec fn spec_state() -> ConnectionState {
        ConnectionState::Configuration
    }

    open spec fn spec_direction() -> PacketDirection {
        PacketDirection::Serverbound
    }

    open spec fn spec_id() -> i32 {
        7
    }

    fn id() -> (r: i32) {
        7
    }
}

#[derive(Debug, Clone)]
pub struct ClientboundKnownPacksPacket {
    pub known_packs: Vec<KnownPack>,
}

impl NetworkType for ClientboundKnownPacksPacket {
    open spec fn wire(&self) -> Seq<u8> {
        self.known_packs.wire()
    }

    open spec fn dec_end(data: Seq<u8>, pos: int) -> Option<int> {
        <Vec<KnownPack> as NetworkType>::dec_end(data, pos)
    }

    open spec fn decodes_to(data: Seq<u8>, pos: int, v: &Self) -> bool {
        <Vec<KnownPack> as NetworkType>::dec_end(data, pos) is Some && <Vec<KnownPack> as NetworkType>::decodes_to(data, pos, &v.known_packs)
    }

    open spec fn wire_ok(&self) -> bool {
        self.known_packs.wire_ok()
    }

    fn read(buf: &mut McBuf) -> (r: BufferResult<Self>) {
        let known_packs = match buf.read_network_type::<Vec<KnownPack>>() {
            Ok(v) => v,
            Err(e) => {
                return Err(e);
            },
        };
        Ok(ClientboundKnownPacksPacket { known_packs })
    }

    fn write(&self, buf: &mut McBuf) {
        buf.write_network_type(&self.known_packs);
        proof {
            assert(buf@.data =~= old(buf)@.data + self.wire());
        }
    }

    proof fn lemma_wire_round_trip(&self, data: Seq<u8>, pos: int) {
        let w0 = self.known_packs.wire();

        self.known_packs.lemma_wire_round_trip(data, pos);
    }
}

impl Packet for ClientboundKnownPacksPacket {
    open spec fn spec_state() -> ConnectionState {
        ConnectionState::Configuration
    }

    open spec fn spec_direction() -> PacketDirection {
        PacketDirection::Clientbound
    }

    open spec fn spec_id() -> i32 {
        14
    }

    fn id() -> (r: i32) {
        14
    }
}

#[derive(Debug, Clone)]
pub struct ClientboundCodeOfConductPacket {
    pub message: String,
}

impl NetworkType for ClientboundCodeOfConductPacket {
    open spec fn wire(&self) -> Seq<u8> {
        self.message.wire()
    }

    open spec fn dec_end(data: Seq<u8>, pos: int) -> Option<int> {
        <String as NetworkType>::dec_end(data, pos)
    }

    open spec fn decodes_to(data: Seq<u8>, pos: int, v: &Self) -> bool {
        <String as NetworkType>::dec_end(data, pos) is Some && <String as NetworkType>::decodes_to(data, pos, &v.message)
    }

    open spec fn wire_ok(&self) -> bool {
        self.message.wire_ok()
    }

    fn read(buf: &mut McBuf) -> (r: BufferResult<Self>) {
        let message = match buf.read_network_type::<String>() {
            Ok(v) => v,
            Err(e) => {
                return Err(e);
            },
        };
        Ok(ClientboundCodeOfConductPacket { message })
    }

    fn write(&self, buf: &mut McBuf) {
        buf.write_network_type(&self.message);
        proof {
            assert(buf@.data =~= old(buf)@.data + self.wire());
        }
    }

    proof fn lemma_wire_round_trip(&self, data: Seq<u8>, pos: int) {
        let w0 = self.message.wire();

        self.message.lemma_wire_round_trip(data, pos);
    }
}

impl Packet for ClientboundCodeOfConductPacket {
    open spec fn spec_state() -> ConnectionState {
        ConnectionState::Configuration
    }

    open spec fn spec_direction() -> PacketDirection {
        PacketDirection::Clientbound
    }

    open spec fn spec_id() -> i32 {
        19
    }

    fn id() -> (r: i32) {
        19
    }
}

#[derive(Debug, Clone)]
pub struct ClientboundConfigurationKeepAlivePacket {
    pub id: i64,
}

impl NetworkType for ClientboundConfigurationKeepAlivePacket {
    open spec fn wire(&self) -> Seq<u8> {
        be8(self.id as u64)
    }

    open spec fn dec_end(data: Seq<u8>, pos: int) -> Option<int> {
        fixed_end(data, pos, 8)
    }

    open spec fn decodes_to(data: Seq<u8>, pos: int, v: &Self) -> bool {
        fixed_end(data, pos, 8) is Some && v.id == be8_val(data, pos) as i64
    }

    open spec fn wire_ok(&self) -> bool {
        true
    }

    fn read(buf: &mut McBuf) -> (r: BufferResult<Self>) {
        let id = match buf.read_long() {
            Ok(v) => v,
            Err(e) => {
                return Err(e);
            },
        };
        Ok(ClientboundConfigurationKeepAlivePacket { id })
    }

    fn write(&self, buf: &mut McBuf) {
        buf.write_long(self.id);
        proof {
            assert(buf@.data =~= old(buf)@.data + self.wire());
        }
    }

    proof fn lemma_wire_round_trip(&self, data: Seq<u8>, pos: int) {
        let w0 = be8(self.id as u64);

        lemma_be8_round_trip(data, pos, self.id as u64);
        crate::codec::lemma_cast_i64_round_trip(self.id);
    }
}

impl Packet for ClientboundConfigurationKeepAlivePacket {
    open spec fn spec_state() -> ConnectionState {
        ConnectionState::Configuration
    }

    open spec fn spec_direction() -> PacketDirection {
        PacketDirection::Clientbound
    }

    open spec fn spec_id() -> i32 {
        4
    }

    fn id() -> (r: i32) {
        4
    }
}

#[derive(Debug, Clone, Copy, PartialEq, Eq, Structural)]
pub struct ClientboundFinishConfigurationPacket;

impl NetworkType for ClientboundFinishConfigurationPacket {
    open spec fn wire(&self) -> Seq<u8> {
        Seq::<u8>::empty()
    }

    open spec fn dec_end(data: Seq<u8>, pos: int) -> Option<int> {
        Some(pos)
    }

    open spec fn decodes_to(data: Seq<u8>, pos: int, v: &Self) -> bool {
        true
    }

    open spec fn wire_ok(&self) -> bool {
        true
    }

    fn read(buf: &mut McBuf) -> (r: BufferResult<Self>) {
        Ok(ClientboundFinishConfigurationPacket)
    }

    fn write(&self, buf: &mut McBuf) {
        proof {
            assert(buf@.data =~= old(buf)@.data + self.wire());
        }
    }

    proof fn lemma_wire_round_trip(&self, data: Seq<u8>, pos: int) {
    }
}

impl Packet for ClientboundFinishConfigurationPacket {
    open spec fn spec_state() -> ConnectionState {
        ConnectionState::Configuration
    }

    open spec fn spec_direction() -> PacketDirection {
        PacketDirection::Clientbound
    }

    open spec fn spec_id() -> i32 {
        3
    }

    fn id() -> (r: i32) {
        3
    }
}

#[derive(Debug, Clone)]
pub struct TagEntry {
    pub tag_name: Identifier,
    pub entries: Vec<VarInt>,
}

impl NetworkType for TagEntry {
    open spec fn wire(&self) -> Seq<u8> {
        self.tag_name.wire() + self.entries.wire()
    }

    open spec fn dec_end(data: Seq<u8>, pos: int) -> Option<int> {
        match <Identifier as NetworkType>::dec_end(data, pos) {
            Some(p1) => {
            <Vec<VarInt> as NetworkType>::dec_end(data, p1)
            },
            None => None,
        }
    }

    open spec fn decodes_to(data: Seq<u8>, pos: int, v: &Self) -> bool {
        match <Identifier as NetworkType>::dec_end(data, pos) {
            Some(p1) => <Identifier as NetworkType>::decodes_to(data, pos, &v.tag_name) && {
            <Vec<VarInt> as NetworkType>::dec_end(data, p1) is Some && <Vec<VarInt> as NetworkType>::decodes_to(data, p1, &v.entries)
            },
            None => false,
        }
    }

    open spec fn wire_ok(&self) -> bool {
        self.tag_name.wire_ok() && self.entries.wire_ok()
    }

    fn read(buf: &mut McBuf) -> (r: BufferResult<Self>) {
        let tag_name = match buf.read_network_type::<Identifier>() {
            Ok(v) => v,
            Err(e) => {
                return Err(e);
            },
        };
        let entries = match buf.read_network_type::<Vec<VarInt>>() {
            Ok(v) => v,
            Err(e) => {
                return Err(e);
            },
        };
        Ok(TagEntry { tag_name, entries })
    }

    fn write(&self, buf: &mut McBuf) {
        buf.write_network_type(&self.tag_name);
        buf.write_network_type(&self.entries);
        proof {
            assert(buf@.data =~= old(buf)@.data + self.wire());
        }
    }

    proof fn lemma_wire_round_trip(&self, data: Seq<u8>, pos: int) {
        let w0 = self.tag_name.wire();
        let w1 = self.entries.wire();
        lemma_concat_split(data, pos, w0, w1);
        self.tag_name.lemma_wire_round_trip(data, pos);
        let q1 = pos + w0.len() as int;
        self.entries.lemma_wire_round_trip(data, q1);
    }
}

impl TagEntry {
    pub fn new(tag_name: Identifier, entries: Vec<VarInt>) -> (r: Self)
        ensures
            r.tag_name == tag_name,
            r.entries == entries,
    {
        TagEntry { tag_name, entries }
    }

    pub fn empty(tag_name: Identifier) -> (r: Self)
        ensures
            r.tag_name == tag_name,
            r.entries@ == Seq::<VarInt>::empty(),
    {
        TagEntry { tag_name, entries: Vec::new() }
    }
}

#[derive(Debug, Clone)]
pub struct RegistryTags {
    pub registry_id: Identifier,
    pub entries: Vec<TagEntry>,
}

impl NetworkType for RegistryTags {
    open spec fn wire(&self) -> Seq<u8> {
        self.registry_id.wire() + self.entries.wire()
    }

    open spec fn dec_end(data: Seq<u8>, pos: int) -> Option<int> {
        match <Identifier as NetworkType>::dec_end(data, pos) {
            Some(p1) => {
            <Vec<TagEntry> as NetworkType>::dec_end(data, p1)
            },
            None => None,
        }
    }

    open spec fn decodes_to(data: Seq<u8>, pos: int, v: &Self) -> bool {
        match <Identifier as NetworkType>::dec_end(data, pos) {
            Some(p1) => <Identifier as NetworkType>::decodes_to(data, pos, &v.registry_id) && {
            <Vec<TagEntry> as NetworkType>::dec_end(data, p1) is Some && <Vec<TagEntry> as NetworkType>::decodes_to(data, p1, &v.entries)
            },
            None => false,
        }
    }

    open spec fn wire_ok(&self) -> bool {
        self.registry_id.wire_ok() && self.entries.wire_ok()
    }

    fn read(buf: &mut McBuf) -> (r: BufferResult<Self>) {
        let registry_id = match buf.read_network_type::<Identifier>() {
            Ok(v) => v,
            Err(e) => {
                return Err(e);
            },
        };
        let entries = match buf.read_network_type::<Vec<TagEntry>>() {
            Ok(v) => v,
            Err(e) => {
                return Err(e);
            },
        };
        Ok(RegistryTags { registry_id, entries })
    }

    fn write(&self, buf: &mut McBuf) {
        buf.write_network_type(&self.registry_id);
        buf.write_network_type(&self.entries);
        proof {
            assert(buf@.data =~= old(buf)@.data + self.wire());
        }
    }

    proof fn lemma_wire_round_trip(&self, data: Seq<u8>, pos: int) {
        let w0 = self.registry_id.wire();
        let w1 = self.entries.wire();
        lemma_concat_split(data, pos, w0, w1);
        self.registry_id.lemma_wire_round_trip(data, pos);
        let q1 = pos + w0.len() as int;
        self.entries.lemma_wire_round_trip(data, q1);
    }
}

#[derive(Debug, Clone)]
pub struct ClientboundUpdateTagsPacket {
    pub tagged_registries: Vec<RegistryTags>,
}

impl NetworkType for ClientboundUpdateTagsPacket {
    open spec fn wire(&self) -> Seq<u8> {
        self.tagged_registries.wire()
    }

    open spec fn dec_end(data: Seq<u8>, pos: int) -> Option<int> {
        <Vec<RegistryTags> as NetworkType>::dec_end(data, pos)
    }

    open spec fn decodes_to(data: Seq<u8>, pos: int, v: &Self) -> bool {
        <Vec<RegistryTags> as NetworkType>::dec_end(data, pos) is Some && <Vec<RegistryTags> as NetworkType>::decodes_to(data, pos, &v.tagged_registries)
    }

    open spec fn wire_ok(&self) -> bool {
        self.tagged_registries.wire_ok()
    }

    fn read(buf: &mut McBuf) -> (r: BufferResult<Self>) {
        let tagged_registries = match buf.read_network_type::<Vec<RegistryTags>>() {
            Ok(v) => v,
            Err(e) => {
                return Err(e);
            },
        };
        Ok(ClientboundUpdateTagsPacket { tagged_registries })
    }

    fn write(&self, buf: &mut McBuf) {
        buf.write_network_type(&self.tagged_registries);
        proof {
            assert(buf@.data =~= old(buf)@.data + self.wire());
        }
    }

    proof fn lemma_wire_round_trip(&self, data: Seq<u8>, pos: int) {
        let w0 = self.tagged_registries.wire();

        self.tagged_registries.lemma_wire_round_trip(data, pos);
    }
}

impl Packet for ClientboundUpdateTagsPacket {
    open spec fn spec_state() -> ConnectionState {
        ConnectionState::Configuration
    }

    open spec fn spec_direction() -> PacketDirection {
        PacketDirection::Clientbound
    }

    open spec fn spec_id() -> i32 {
        13
    }

    fn id() -> (r: i32) {
        13
    }
}

/// One registry entry: its identifier and an optional structured payload.
/// The engine emits payload data but does not parse it back: decoding is
/// defined only for entries without payload, and `read` reports an error on
/// an entry that carries one.
#[derive(Debug)]
pub struct RegistryEntry {
    pub identifier: Identifier,
    pub data: Option<NBTTag>,
}

impl RegistryEntry {
    pub fn new(identifier: Identifier, data: NBTTag) -> (r: Self)
        ensures
            r.identifier == identifier,
            r.data == Some(data),
    {
        RegistryEntry { identifier, data: Some(data) }
    }

    pub fn empty(identifier: Identifier) -> (r: Self)
        ensures
            r.identifier == identifier,
            r.data is None,
    {
        RegistryEntry { identifier, data: None }
    }
}

impl NetworkType for RegistryEntry {
    open spec fn wire(&self) -> Seq<u8> {
        self.identifier.wire() + match self.data {
            None => seq![0u8],
            Some(t) => seq![1u8, spec_type_id(t.content)] + content_wire(t.content),
        }
    }

    open spec fn dec_end(data: Seq<u8>, pos: int) -> Option<int> {
        match <Identifier as NetworkType>::dec_end(data, pos) {
            Some(p1) => {
                if p1 < data.len() && data[p1] == 0 {
                    Some(p1 + 1)
                } else {
                    None
                }
            },
            None => None,
        }
    }

    open spec fn decodes_to(data: Seq<u8>, pos: int, v: &Self) -> bool {
        match <Identifier as NetworkType>::dec_end(data, pos) {
            Some(p1) => <Identifier as NetworkType>::decodes_to(data, pos, &v.identifier) && p1
                < data.len() && data[p1] == 0 && v.data is None,
            None => false,
        }
    }

    open spec fn wire_ok(&self) -> bool {
        self.identifier.wire_ok() && self.data is None
    }

    fn read(buf: &mut McBuf) -> (r: BufferResult<Self>) {
        let identifier = match buf.read_network_type::<Identifier>() {
            Ok(v) => v,
            Err(e) => {
                return Err(e);
            },
        };
        let present = match buf.read_bool() {
            Ok(v) => v,
            Err(e) => {
                return Err(e);
            },
        };
        if present {
            return Err(BufferError::Generic("structured registry payloads cannot be decoded"));
        }
        Ok(RegistryEntry { identifier, data: None })
    }

    fn write(&self, buf: &mut McBuf) {
        buf.write_network_type(&self.identifier);
        match &self.data {
            None => {
                buf.write_bool(false);
            },
            Some(tag) => {
                buf.write_bool(true);
                tag.write_root(buf);
            },
        }
        proof {
            assert(buf@.data =~= old(buf)@.data + self.wire());
        }
    }

    proof fn lemma_wire_round_trip(&self, data: Seq<u8>, pos: int) {
        lemma_concat_split(data, pos, self.identifier.wire(), seq![0u8]);
        self.identifier.lemma_wire_round_trip(data, pos);
        let p1 = pos + self.identifier.wire().len() as int;
        assert(data[p1] == 0) by {
            assert(data.subrange(p1, p1 + 1)[0] == seq![0u8][0]);
        }
    }
}

#[derive(Debug)]
pub struct ClientboundRegistryDataPacket {
    pub registry_id: Identifier,
    pub entries: Vec<RegistryEntry>,
}

impl NetworkType for ClientboundRegistryDataPacket {
    open spec fn wire(&self) -> Seq<u8> {
        self.registry_id.wire() + self.entries.wire()
    }

    open spec fn dec_end(data: Seq<u8>, pos: int) -> Option<int> {
        match <Identifier as NetworkType>::dec_end(data, pos) {
            Some(p1) => {
            <Vec<RegistryEntry> as NetworkType>::dec_end(data, p1)
            },
            None => None,
        }
    }

    open spec fn decodes_to(data: Seq<u8>, pos: int, v: &Self) -> bool {
        match <Identifier as NetworkType>::dec_end(data, pos) {
            Some(p1) => <Identifier as NetworkType>::decodes_to(data, pos, &v.registry_id) && {
            <Vec<RegistryEntry> as NetworkType>::dec_end(data, p1) is Some && <Vec<RegistryEntry> as NetworkType>::decodes_to(data, p1, &v.entries)
            },
            None => false,
        }
    }

    open spec fn wire_ok(&self) -> bool {
        self.registry_id.wire_ok() && self.entries.wire_ok()
    }

    fn read(buf: &mut McBuf) -> (r: BufferResult<Self>) {
        let registry_id = match buf.read_network_type::<Identifier>() {
            Ok(v) => v,
            Err(e) => {
                return Err(e);
            },
        };
        let entries = match buf.read_network_type::<Vec<RegistryEntry>>() {
            Ok(v) => v,
            Err(e) => {
                return Err(e);
            },
        };
        Ok(ClientboundRegistryDataPacket { registry_id, entries })
    }

    fn write(&self, buf: &mut McBuf) {
        let ghost d0 = buf@.data;
        buf.write_network_type(&self.registry_id);
        proof {
            assert(buf@.data =~= d0 + (self.registry_id.wire()));
        }
        buf.write_network_type(&self.entries);
        proof {
            assert(buf@.data =~= d0 + (self.registry_id.wire() + self.entries.wire()));
        }
    }

    proof fn lemma_wire_round_trip(&self, data: Seq<u8>, pos: int) {
        let w0 = self.registry_id.wire();
        let w1 = self.entries.wire();
        lemma_concat_split(data, pos, w0, w1);
        self.registry_id.lemma_wire_round_trip(data, pos);
        let q1 = pos + w0.len() as int;
        self.entries.lemma_wire_round_trip(data, q1);
    }
}

impl Packet for ClientboundRegistryDataPacket {
    open spec fn spec_state() -> ConnectionState {
        ConnectionState::Configuration
    }

    open spec fn spec_direction() -> PacketDirection {
        PacketDirection::Clientbound
    }

    open spec fn spec_id() -> i32 {
        7
    }

    fn id() -> (r: i32) {
        7
    }
}

} // verus!
