//! Packets of the Play state.

use vstd::prelude::*;
use crate::buffer::{BufferResult, McBuf, NetworkType};
use crate::protocol::{ConnectionState, Packet, PacketDirection};
use crate::codec::{be4, be4_val, be8, be8_val, byte_end, fixed_end, varint_bytes, varint_end,
    varint_value, lemma_be4_round_trip, lemma_be8_round_trip, lemma_byte_field,
    lemma_concat_split, lemma_varint_field_round_trip};
use crate::identifier::Identifier;
use crate::location::Location;

verus! {

#[derive(Debug, Clone)]
pub struct ClientboundKeepAlivePacket {
    pub id: i64,
}

impl NetworkType for ClientboundKeepAlivePacket {
    open spec fn wire(&self) -> Seq<u8> {
        be8(self.id as u64)
    }

    open spec fn dec_end(data: Seq<u8>, pos: int) -> Option<int> {
        fixed_end(data, pos, 8)
    }

    open spec fn decodes_to(data: Seq<u8>, pos: int, v: &Self) -> bool {
        fixed_end(data, pos, 8) is Some && v.id == be8_val(data, pos) as i64
    }

    open spec fn wire_ok(&self) -> bool {
        true
    }

    fn read(buf: &mut McBuf) -> (r: BufferResult<Self>) {
        let id = match buf.read_long() {
            Ok(v) => v,
            Err(e) => {
                return Err(e);
            },
        };
        Ok(ClientboundKeepAlivePacket { id })
    }

    fn write(&self, buf: &mut McBuf) {
        let ghost d0 = buf@.data;
        buf.write_long(self.id);
        proof {
            assert(buf@.data =~= d0 + (be8(self.id as u64)));
        }
    }

    proof fn lemma_wire_round_trip(&self, data: Seq<u8>, pos: int) {
        let w0 = be8(self.id as u64);

        lemma_be8_round_trip(data, pos, self.id as u64);
        crate::codec::lemma_cast_i64_round_trip(self.id);
    }
}

impl Packet for ClientboundKeepAlivePacket {
    open spec fn spec_state() -> ConnectionState {
        ConnectionState::Play
    }

    open spec fn spec_direction() -> PacketDirection {
        PacketDirection::Clientbound
    }

    open spec fn spec_id() -> i32 {
        43
    }

    fn id() -> (r: i32) {
        43
    }
}

#[derive(Debug, Clone)]
pub struct ClientboundPlayLoginPacket {
    pub entity_id: i32,
    pub is_hardcore: bool,
    pub dimension_names: Vec<Identifier>,
    /// Travels as a varint.
    pub max_players: i32,
    /// Travels as a varint.
    pub view_distance: i32,
    /// Travels as a varint.
    pub simulation_distance: i32,
    pub reduced_debug_info: bool,
    pub enable_respawn_screen: bool,
    pub do_limited_crafting: bool,
    /// Travels as a varint.
    pub dimension_type: i32,
    pub world_name: Identifier,
    pub hashed_seed: i64,
    pub game_mode: u8,
    pub previous_game_mode: i8,
    pub is_debug: bool,
    pub is_flat: bool,
    pub death_location: Option<Location>,
    /// Travels as a varint.
    pub portal_cooldown: i32,
    /// Travels as a varint.
    pub sea_level: i32,
    pub enforces_secure_chat: bool,
}

impl NetworkType for ClientboundPlayLoginPacket {
    open spec fn wire(&self) -> Seq<u8> {
        be4(self.entity_id as u32) + seq![(if self.is_hardcore { 1u8 } else { 0u8 })] + self.dimension_names.wire() + varint_bytes(self.max_players as u32) + varint_bytes(self.view_distance as u32) + varint_bytes(self.simulation_distance as u32) + seq![(if self.reduced_debug_info { 1u8 } else { 0u8 })] + seq![(if self.enable_respawn_screen { 1u8 } else { 0u8 })] + seq![(if self.do_limited_crafting { 1u8 } else { 0u8 })] + varint_bytes(self.dimension_type as u32) + self.world_name.wire() + be8(self.hashed_seed as u64) + seq![self.game_mode] + seq![self.previous_game_mode as u8] + seq![(if self.is_debug { 1u8 } else { 0u8 })] + seq![(if self.is_flat { 1u8 } else { 0u8 })] + self.death_location.wire() + varint_bytes(self.portal_cooldown as u32) + varint_bytes(self.sea_level as u32) + seq![(if self.enforces_secure_chat { 1u8 } else { 0u8 })]
    }

    open spec fn dec_end(data: Seq<u8>, pos: int) -> Option<int> {
        match fixed_end(data, pos, 4) {
            Some(p1) => {
            match byte_end(data, p1) {
                Some(p2) => {
                match <Vec<Identifier> as NetworkType>::dec_end(data, p2) {
                    Some(p3) => {
                    match varint_end(data, p3) {
                        Some(p4) => {
                        match varint_end(data, p4) {
                            Some(p5) => {
                            match varint_end(data, p5) {
                                Some(p6) => {
                                match byte_end(data, p6) {
                                    Some(p7) => {
                                    match byte_end(data, p7) {
                                        Some(p8) => {
                                        match byte_end(data, p8) {
                                            Some(p9) => {
                                            match varint_end(data, p9) {
                                                Some(p10) => {
                                                match <Identifier as NetworkType>::dec_end(data, p10) {
                                                    Some(p11) => {
                                                    match fixed_end(data, p11, 8) {
                                                        Some(p12) => {
                                                        match byte_end(data, p12) {
                                                            Some(p13) => {
                                                            match byte_end(data, p13) {
                                                                Some(p14) => {
                                                                match byte_end(data, p14) {
                                                                    Some(p15) => {
                                                                    match byte_end(data, p15) {
                                                                        Some(p16) => {
                                                                        match <Option<Location> as NetworkType>::dec_end(data, p16) {
                                                                            Some(p17) => {
                                                                            match varint_end(data, p17) {
                                                                                Some(p18) => {
                                                                                match varint_end(data, p18) {
                                                                                    Some(p19) => {
                                                                                    byte_end(data, p19)
                                                                                    },
                                                                                    None => None,
                                                                                }
                                                                                },
                                                                                None => None,
                                                                            }
                                                                            },
                                                                            None => None,
                                                                        }
                                                                        },
                                                                        None => None,
                                                                    }
                                                                    },
                                                                    None => None,
                                                                }
                                                                },
                                                                None => None,
                                                            }
                                                            },
                                                            None => None,
                                                        }
                                                        },
                                                        None => None,
                                                    }
                                                    },
                                                    None => None,
                                                }
                                                },
                                                None => None,
                                            }
                                            },
                                            None => None,
                                        }
                                        },
                                        None => None,
                                    }
                                    },
                                    None => None,
                                }
                                },
                                None => None,
                            }
                            },
                            None => None,
                        }
                        },
                        None => None,
                    }
                    },
                    None => None,
                }
                },
                None => None,
            }
            },
            None => None,
        }
    }

    open spec fn decodes_to(data: Seq<u8>, pos: int, v: &Self) -> bool {
        match fixed_end(data, pos, 4) {
            Some(p1) => v.entity_id == be4_val(data, pos) as i32 && {
            match byte_end(data, p1) {
                Some(p2) => v.is_hardcore == (data[p1] != 0) && {
                match <Vec<Identifier> as NetworkType>::dec_end(data, p2) {
                    Some(p3) => <Vec<Identifier> as NetworkType>::decodes_to(data, p2, &v.dimension_names) && {
                    match varint_end(data, p3) {
                        Some(p4) => v.max_players == varint_value(data, p3) && {
                        match varint_end(data, p4) {
                            Some(p5) => v.view_distance == varint_value(data, p4) && {
                            match varint_end(data, p5) {
                                Some(p6) => v.simulation_distance == varint_value(data, p5) && {
                                match byte_end(data, p6) {
                                    Some(p7) => v.reduced_debug_info == (data[p6] != 0) && {
                                    match byte_end(data, p7) {
                                        Some(p8) => v.enable_respawn_screen == (data[p7] != 0) && {
                                        match byte_end(data, p8) {
                                            Some(p9) => v.do_limited_crafting == (data[p8] != 0) && {
                                            match varint_end(data, p9) {
                                                Some(p10) => v.dimension_type == varint_value(data, p9) && {
                                                match <Identifier as NetworkType>::dec_end(data, p10) {
                                                    Some(p11) => <Identifier as NetworkType>::decodes_to(data, p10, &v.world_name) && {
                                                    match fixed_end(data, p11, 8) {
                                                        Some(p12) => v.hashed_seed == be8_val(data, p11) as i64 && {
                                                        match byte_end(data, p12) {
                                                            Some(p13) => v.game_mode == data[p12] && {
                                                            match byte_end(data, p13) {
                                                                Some(p14) => v.previous_game_mode == data[p13] as i8 && {
                                                                match byte_end(data, p14) {
                                                                    Some(p15) => v.is_debug == (data[p14] != 0) && {
                                                                    match byte_end(data, p15) {
                                                                        Some(p16) => v.is_flat == (data[p15] != 0) && {
                                                                        match <Option<Location> as NetworkType>::dec_end(data, p16) {
                                                                            Some(p17) => <Option<Location> as NetworkType>::decodes_to(data, p16, &v.death_location) && {
                                                                            match varint_end(data, p17) {
                                                                                Some(p18) => v.portal_cooldown == varint_value(data, p17) && {
                                                                                match varint_end(data, p18) {
                                                                                    Some(p19) => v.sea_level == varint_value(data, p18) && {
                                                                                    byte_end(data, p19) is Some && v.enforces_secure_chat == (data[p19] != 0)
                                                                                    },
                                                                                    None => false,
                                                                                }
                                                                                },
                                                                                None => false,
                                                                            }
                                                                            },
                                                                            None => false,
                                                                        }
                                                                        },
                                                                        None => false,
                                                                    }
                                                                    },
                                                                    None => false,
                                                                }
                                                                },
                                                                None => false,
                                                            }
                                                            },
                                                            None => false,
                                                        }
                                                        },
                                                        None => false,
                                                    }
                                                    },
                                                    None => false,
                                                }
                                                },
                                                None => false,
                                            }
                                            },
                                            None => false,
                                        }
                                        },
                                        None => false,
                                    }
                                    },
                                    None => false,
                                }
                                },
                                None => false,
                            }
                            },
                            None => false,
                        }
                        },
                        None => false,
                    }
                    },
                    None => false,
                }
                },
                None => false,
            }
            },
            None => false,
        }
    }

    open spec fn wire_ok(&self) -> bool {
        self.dimension_names.wire_ok() && self.world_name.wire_ok() && self.death_location.wire_ok()
    }

    #[verifier::rlimit(100)]
    #[verifier::spinoff_prover]
    fn read(buf: &mut McBuf) -> (r: BufferResult<Self>) {
        let entity_id = match buf.read_int() {
            Ok(v) => v,
            Err(e) => {
                return Err(e);
            },
        };
        let is_hardcore = match buf.read_bool() {
            Ok(v) => v,
            Err(e) => {
                return Err(e);
            },
        };
        let dimension_names = match buf.read_network_type::<Vec<Identifier>>() {
            Ok(v) => v,
            Err(e) => {
                return Err(e);
            },
        };
        let max_players = match buf.read_var_int() {
            Ok(v) => v,
            Err(e) => {
                return Err(e);
            },
        };
        let view_distance = match buf.read_var_int() {
            Ok(v) => v,
            Err(e) => {
                return Err(e);
            },
        };
        let simulation_distance = match buf.read_var_int() {
            Ok(v) => v,
            Err(e) => {
                return Err(e);
            },
        };
        let reduced_debug_info = match buf.read_bool() {
            Ok(v) => v,
            Err(e) => {
                return Err(e);
            },
        };
        let enable_respawn_screen = match buf.read_bool() {
            Ok(v) => v,
            Err(e) => {
                return Err(e);
            },
        };
        let do_limited_crafting = match buf.read_bool() {
            Ok(v) => v,
            Err(e) => {
                return Err(e);
            },
        };
        let dimension_type = match buf.read_var_int() {
            Ok(v) => v,
            Err(e) => {
                return Err(e);
            },
        };
        let world_name = match buf.read_network_type::<Identifier>() {
            Ok(v) => v,
            Err(e) => {
                return Err(e);
            },
        };
        let hashed_seed = match buf.read_long() {
            Ok(v) => v,
            Err(e) => {
                return Err(e);
            },
        };
        let game_mode = match buf.read_ubyte() {
            Ok(v) => v,
            Err(e) => {
                return Err(e);
            },
        };
        let previous_game_mode = match buf.read_byte() {
            Ok(v) => v,
            Err(e) => {
                return Err(e);
            },
        };
        let is_debug = match buf.read_bool() {
            Ok(v) => v,
            Err(e) => {
                return Err(e);
            },
        };
        let is_flat = match buf.read_bool() {
            Ok(v) => v,
            Err(e) => {
                return Err(e);
            },
        };
        let death_location = match buf.read_network_type::<Option<Location>>() {
            Ok(v) => v,
            Err(e) => {
                return Err(e);
            },
        };
        let portal_cooldown = match buf.read_var_int() {
            Ok(v) => v,
            Err(e) => {
                return Err(e);
            },
        };
        let sea_level = match buf.read_var_int() {
            Ok(v) => v,
            Err(e) => {
                return Err(e);
            },
        };
        let enforces_secure_chat = match buf.read_bool() {
            Ok(v) => v,
            Err(e) => {
                return Err(e);
            },
        };
        Ok(ClientboundPlayLoginPacket { entity_id, is_hardcore, dimension_names, max_players, view_distance, simulation_distance, reduced_debug_info, enable_respawn_screen, do_limited_crafting, dimension_type, world_name, hashed_seed, game_mode, previous_game_mode, is_debug, is_flat, death_location, portal_cooldown, sea_level, enforces_secure_chat })
    }

    #[verifier::rlimit(100)]
    fn write(&self, buf: &mut McBuf) {
        let ghost d0 = buf@.data;
        buf.write_int(self.entity_id);
        proof {
            assert(buf@.data =~= d0 + (be4(self.entity_id as u32)));
        }
        buf.write_bool(self.is_hardcore);
        proof {
            assert(buf@.data =~= d0 + (be4(self.entity_id as u32) + seq![(if self.is_hardcore { 1u8 } else { 0u8 })]));
        }
        buf.write_network_type(&self.dimension_names);
        proof {
            assert(buf@.data =~= d0 + (be4(self.entity_id as u32) + seq![(if self.is_hardcore { 1u8 } else { 0u8 })] + self.dimension_names.wire()));
        }
        buf.write_var_int(self.max_players);
        proof {
            assert(buf@.data =~= d0 + (be4(self.entity_id as u32) + seq![(if self.is_hardcore { 1u8 } else { 0u8 })] + self.dimension_names.wire() + varint_bytes(self.max_players as u32)));
        }
        buf.write_var_int(self.view_distance);
        proof {
            assert(buf@.data =~= d0 + (be4(self.entity_id as u32) + seq![(if self.is_hardcore { 1u8 } else { 0u8 })] + self.dimension_names.wire() + varint_bytes(self.max_players as u32) + varint_bytes(self.view_distance as u32)));
        }
        buf.write_var_int(self.simulation_distance);
        proof {
            assert(buf@.data =~= d0 + (be4(self.entity_id as u32) + seq![(if self.is_hardcore { 1u8 } else { 0u8 })] + self.dimension_names.wire() + varint_bytes(self.max_players as u32) + varint_bytes(self.view_distance as u32) + varint_bytes(self.simulation_distance as u32)));
        }
        buf.write_bool(self.reduced_debug_info);
        proof {
            assert(buf@.data =~= d0 + (be4(self.entity_id as u32) + seq![(if self.is_hardcore { 1u8 } else { 0u8 })] + self.dimension_names.wire() + varint_bytes(self.max_players as u32) + varint_bytes(self.view_distance as u32) + varint_bytes(self.simulation_distance as u32) + seq![(if self.reduced_debug_info { 1u8 } else { 0u8 })]));
        }
        buf.write_bool(self.enable_respawn_screen);
        proof {
            assert(buf@.data =~= d0 + (be4(self.entity_id as u32) + seq![(if self.is_hardcore { 1u8 } else { 0u8 })] + self.dimension_names.wire() + varint_bytes(self.max_players as u32) + varint_bytes(self.view_distance as u32) + varint_bytes(self.simulation_distance as u32) + seq![(if self.reduced_debug_info { 1u8 } else { 0u8 })] + seq![(if self.enable_respawn_screen { 1u8 } else { 0u8 })]));
        }
        buf.write_bool(self.do_limited_crafting);
        proof {
            assert(buf@.data =~= d0 + (be4(self.entity_id as u32) + seq![(if self.is_hardcore { 1u8 } else { 0u8 })] + self.dimension_names.wire() + varint_bytes(self.max_players as u32) + varint_bytes(self.view_distance as u32) + varint_bytes(self.simulation_distance as u32) + seq![(if self.reduced_debug_info { 1u8 } else { 0u8 })] + seq![(if self.enable_respawn_screen { 1u8 } else { 0u8 })] + seq![(if self.do_limited_crafting { 1u8 } else { 0u8 })]));
        }
        buf.write_var_int(self.dimension_type);
        proof {
            assert(buf@.data =~= d0 + (be4(self.entity_id as u32) + seq![(if self.is_hardcore { 1u8 } else { 0u8 })] + self.dimension_names.wire() + varint_bytes(self.max_players as u32) + varint_bytes(self.view_distance as u32) + varint_bytes(self.simulation_distance as u32) + seq![(if self.reduced_debug_info { 1u8 } else { 0u8 })] + seq![(if self.enable_respawn_screen { 1u8 } else { 0u8 })] + seq![(if self.do_limited_crafting { 1u8 } else { 0u8 })] + varint_bytes(self.dimension_type as u32)));
        }
        buf.write_network_type(&self.world_name);
        proof {
            assert(buf@.data =~= d0 + (be4(self.entity_id as u32) + seq![(if self.is_hardcore { 1u8 } else { 0u8 })] + self.dimension_names.wire() + varint_bytes(self.max_players as u32) + varint_bytes(self.view_distance as u32) + varint_bytes(self.simulation_distance as u32) + seq![(if self.reduced_debug_info { 1u8 } else { 0u8 })] + seq![(if self.enable_respawn_screen { 1u8 } else { 0u8 })] + seq![(if self.do_limited_crafting { 1u8 } else { 0u8 })] + varint_bytes(self.dimension_type as u32) + self.world_name.wire()));
        }
        buf.write_long(self.hashed_seed);
        proof {
            assert(buf@.data =~= d0 + (be4(self.entity_id as u32) + seq![(if self.is_hardcore { 1u8 } else { 0u8 })] + self.dimension_names.wire() + varint_bytes(self.max_players as u32) + varint_bytes(self.view_distance as u32) + varint_bytes(self.simulation_distance as u32) + seq![(if self.reduced_debug_info { 1u8 } else { 0u8 })] + seq![(if self.enable_respawn_screen { 1u8 } else { 0u8 })] + seq![(if self.do_limited_crafting { 1u8 } else { 0u8 })] + varint_bytes(self.dimension_type as u32) + self.world_name.wire() + be8(self.hashed_seed as u64)));
        }
        buf.write_ubyte(self.game_mode);
        proof {
            assert(buf@.data =~= d0 + (be4(self.entity_id as u32) + seq![(if self.is_hardcore { 1u8 } else { 0u8 })] + self.dimension_names.wire() + varint_bytes(self.max_players as u32) + varint_bytes(self.view_distance as u32) + varint_bytes(self.simulation_distance as u32) + seq![(if self.reduced_debug_info { 1u8 } else { 0u8 })] + seq![(if self.enable_respawn_screen { 1u8 } else { 0u8 })] + seq![(if self.do_limited_crafting { 1u8 } else { 0u8 })] + varint_bytes(self.dimension_type as u32) + self.world_name.wire() + be8(self.hashed_seed as u64) + seq![self.game_mode]));
        }
        buf.write_byte(self.previous_game_mode);
        proof {
            assert(buf@.data =~= d0 + (be4(self.entity_id as u32) + seq![(if self.is_hardcore { 1u8 } else { 0u8 })] + self.dimension_names.wire() + varint_bytes(self.max_players as u32) + varint_bytes(self.view_distance as u32) + varint_bytes(self.simulation_distance as u32) + seq![(if self.reduced_debug_info { 1u8 } else { 0u8 })] + seq![(if self.enable_respawn_screen { 1u8 } else { 0u8 })] + seq![(if self.do_limited_crafting { 1u8 } else { 0u8 })] + varint_bytes(self.dimension_type as u32) + self.world_name.wire() + be8(self.hashed_seed as u64) + seq![self.game_mode] + seq![self.previous_game_mode as u8]));
        }
        buf.write_bool(self.is_debug);
        proof {
            assert(buf@.data =~= d0 + (be4(self.entity_id as u32) + seq![(if self.is_hardcore { 1u8 } else { 0u8 })] + self.dimension_names.wire() + varint_bytes(self.max_players as u32) + varint_bytes(self.view_distance as u32) + varint_bytes(self.simulation_distance as u32) + seq![(if self.reduced_debug_info { 1u8 } else { 0u8 })] + seq![(if self.enable_respawn_screen { 1u8 } else { 0u8 })] + seq![(if self.do_limited_crafting { 1u8 } else { 0u8 })] + varint_bytes(self.dimension_type as u32) + self.world_name.wire() + be8(self.hashed_seed as u64) + seq![self.game_mode] + seq![self.previous_game_mode as u8] + seq![(if self.is_debug { 1u8 } else { 0u8 })]));
        }
        buf.write_bool(self.is_flat);
        proof {
            assert(buf@.data =~= d0 + (be4(self.entity_id as u32) + seq![(if self.is_hardcore { 1u8 } else { 0u8 })] + self.dimension_names.wire() + varint_bytes(self.max_players as u32) + varint_bytes(self.view_distance as u32) + varint_bytes(self.simulation_distance as u32) + seq![(if self.reduced_debug_info { 1u8 } else { 0u8 })] + seq![(if self.enable_respawn_screen { 1u8 } else { 0u8 })] + seq![(if self.do_limited_crafting { 1u8 } else { 0u8 })] + varint_bytes(self.dimension_type as u32) + self.world_name.wire() + be8(self.hashed_seed as u64) + seq![self.game_mode] + seq![self.previous_game_mode as u8] + seq![(if self.is_debug { 1u8 } else { 0u8 })] + seq![(if self.is_flat { 1u8 } else { 0u8 })]));
        }
        buf.write_network_type(&self.death_location);
        proof {
            assert(buf@.data =~= d0 + (be4(self.entity_id as u32) + seq![(if self.is_hardcore { 1u8 } else { 0u8 })] + self.dimension_names.wire() + varint_bytes(self.max_players as u32) + varint_bytes(self.view_distance as u32) + varint_bytes(self.simulation_distance as u32) + seq![(if self.reduced_debug_info { 1u8 } else { 0u8 })] + seq![(if self.enable_respawn_screen { 1u8 } else { 0u8 })] + seq![(if self.do_limited_crafting { 1u8 } else { 0u8 })] + varint_bytes(self.dimension_type as u32) + self.world_name.wire() + be8(self.hashed_seed as u64) + seq![self.game_mode] + seq![self.previous_game_mode as u8] + seq![(if self.is_debug { 1u8 } else { 0u8 })] + seq![(if self.is_flat { 1u8 } else { 0u8 })] + self.death_location.wire()));
        }
        buf.write_var_int(self.portal_cooldown);
        proof {
            assert(buf@.data =~= d0 + (be4(self.entity_id as u32) + seq![(if self.is_hardcore { 1u8 } else { 0u8 })] + self.dimension_names.wire() + varint_bytes(self.max_players as u32) + varint_bytes(self.view_distance as u32) + varint_bytes(self.simulation_distance as u32) + seq![(if self.reduced_debug_info { 1u8 } else { 0u8 })] + seq![(if self.enable_respawn_screen { 1u8 } else { 0u8 })] + seq![(if self.do_limited_crafting { 1u8 } else { 0u8 })] + varint_bytes(self.dimension_type as u32) + self.world_name.wire() + be8(self.hashed_seed as u64) + seq![self.game_mode] + seq![self.previous_game_mode as u8] + seq![(if self.is_debug { 1u8 } else { 0u8 })] + seq![(if self.is_flat { 1u8 } else { 0u8 })] + self.death_location.wire() + varint_bytes(self.portal_cooldown as u32)));
        }
        buf.write_var_int(self.sea_level);
        proof {
            assert(buf@.data =~= d0 + (be4(self.entity_id as u32) + seq![(if self.is_hardcore { 1u8 } else { 0u8 })] + self.dimension_names.wire() + varint_bytes(self.max_players as u32) + varint_bytes(self.view_distance as u32) + varint_bytes(self.simulation_distance as u32) + seq![(if self.reduced_debug_info { 1u8 } else { 0u8 })] + seq![(if self.enable_respawn_screen { 1u8 } else { 0u8 })] + seq![(if self.do_limited_crafting { 1u8 } else { 0u8 })] + varint_bytes(self.dimension_type as u32) + self.world_name.wire() + be8(self.hashed_seed as u64) + seq![self.game_mode] + seq![self.previous_game_mode as u8] + seq![(if self.is_debug { 1u8 } else { 0u8 })] + seq![(if self.is_flat { 1u8 } else { 0u8 })] + self.death_location.wire() + varint_bytes(self.portal_cooldown as u32) + varint_bytes(self.sea_level as u32)));
        }
        buf.write_bool(self.enforces_secure_chat);
        proof {
            assert(buf@.data =~= d0 + (be4(self.entity_id as u32) + seq![(if self.is_hardcore { 1u8 } else { 0u8 })] + self.dimension_names.wire() + varint_bytes(self.max_players as u32) + varint_bytes(self.view_distance as u32) + varint_bytes(self.simulation_distance as u32) + seq![(if self.reduced_debug_info { 1u8 } else { 0u8 })] + seq![(if self.enable_respawn_screen { 1u8 } else { 0u8 })] + seq![(if self.do_limited_crafting { 1u8 } else { 0u8 })] + varint_bytes(self.dimension_type as u32) + self.world_name.wire() + be8(self.hashed_seed as u64) + seq![self.game_mode] + seq![self.previous_game_mode as u8] + seq![(if self.is_debug { 1u8 } else { 0u8 })] + seq![(if self.is_flat { 1u8 } else { 0u8 })] + self.death_location.wire() + varint_bytes(self.portal_cooldown as u32) + varint_bytes(self.sea_level as u32) + seq![(if self.enforces_secure_chat { 1u8 } else { 0u8 })]));
        }
    }

    #[verifier::rlimit(100)]
    proof fn lemma_wire_round_trip(&self, data: Seq<u8>, pos: int) {
        let w0 = be4(self.entity_id as u32);
        let w1 = seq![(if self.is_hardcore { 1u8 } else { 0u8 })];
        let w2 = self.dimension_names.wire();
        let w3 = varint_bytes(self.max_players as u32);
        let w4 = varint_bytes(self.view_distance as u32);
        let w5 = varint_bytes(self.simulation_distance as u32);
        let w6 = seq![(if self.reduced_debug_info { 1u8 } else { 0u8 })];
        let w7 = seq![(if self.enable_respawn_screen { 1u8 } else { 0u8 })];
        let w8 = seq![(if self.do_limited_crafting { 1u8 } else { 0u8 })];
        let w9 = varint_bytes(self.dimension_type as u32);
        let w10 = self.world_name.wire();
        let w11 = be8(self.hashed_seed as u64);
        let w12 = seq![self.game_mode];
        let w13 = seq![self.previous_game_mode as u8];
        let w14 = seq![(if self.is_debug { 1u8 } else { 0u8 })];
        let w15 = seq![(if self.is_flat { 1u8 } else { 0u8 })];
        let w16 = self.death_location.wire();
        let w17 = varint_bytes(self.portal_cooldown as u32);
        let w18 = varint_bytes(self.sea_level as u32);
        let w19 = seq![(if self.enforces_secure_chat { 1u8 } else { 0u8 })];
        lemma_concat_split(data, pos, w0 + w1 + w2 + w3 + w4 + w5 + w6 + w7 + w8 + w9 + w10 + w11 + w12 + w13 + w14 + w15 + w16 + w17 + w18, w19);
        lemma_concat_split(data, pos, w0 + w1 + w2 + w3 + w4 + w5 + w6 + w7 + w8 + w9 + w10 + w11 + w12 + w13 + w14 + w15 + w16 + w17, w18);
        lemma_concat_split(data, pos, w0 + w1 + w2 + w3 + w4 + w5 + w6 + w7 + w8 + w9 + w10 + w11 + w12 + w13 + w14 + w15 + w16, w17);
        lemma_concat_split(data, pos, w0 + w1 + w2 + w3 + w4 + w5 + w6 + w7 + w8 + w9 + w10 + w11 + w12 + w13 + w14 + w15, w16);
        lemma_concat_split(data, pos, w0 + w1 + w2 + w3 + w4 + w5 + w6 + w7 + w8 + w9 + w10 + w11 + w12 + w13 + w14, w15);
        lemma_concat_split(data, pos, w0 + w1 + w2 + w3 + w4 + w5 + w6 + w7 + w8 + w9 + w10 + w11 + w12 + w13, w14);
        lemma_concat_split(data, pos, w0 + w1 + w2 + w3 + w4 + w5 + w6 + w7 + w8 + w9 + w10 + w11 + w12, w13);
        lemma_concat_split(data, pos, w0 + w1 + w2 + w3 + w4 + w5 + w6 + w7 + w8 + w9 + w10 + w11, w12);
        lemma_concat_split(data, pos, w0 + w1 + w2 + w3 + w4 + w5 + w6 + w7 + w8 + w9 + w10, w11);
        lemma_concat_split(data, pos, w0 + w1 + w2 + w3 + w4 + w5 + w6 + w7 + w8 + w9, w10);
        lemma_concat_split(data, pos, w0 + w1 + w2 + w3 + w4 + w5 + w6 + w7 + w8, w9);
        lemma_concat_split(data, pos, w0 + w1 + w2 + w3 + w4 + w5 + w6 + w7, w8);
        lemma_concat_split(data, pos, w0 + w1 + w2 + w3 + w4 + w5 + w6, w7);
        lemma_concat_split(data, pos, w0 + w1 + w2 + w3 + w4 + w5, w6);
        lemma_concat_split(data, pos, w0 + w1 + w2 + w3 + w4, w5);
        lemma_concat_split(data, pos, w0 + w1 + w2 + w3, w4);
        lemma_concat_split(data, pos, w0 + w1 + w2, w3);
        lemma_concat_split(data, pos, w0 + w1, w2);
        lemma_concat_split(data, pos, w0, w1);
        lemma_be4_round_trip(data, pos, self.entity_id as u32);
        crate::codec::lemma_cast_i32_round_trip(self.entity_id);
        let q1 = pos + w0.len() as int;
        lemma_byte_field(data, q1, (if self.is_hardcore { 1u8 } else { 0u8 }));
        let q2 = q1 + w1.len() as int;
        self.dimension_names.lemma_wire_round_trip(data, q2);
        let q3 = q2 + w2.len() as int;
        lemma_varint_field_round_trip(data, q3, self.max_players);
        let q4 = q3 + w3.len() as int;
        lemma_varint_field_round_trip(data, q4, self.view_distance);
        let q5 = q4 + w4.len() as int;
        lemma_varint_field_round_trip(data, q5, self.simulation_distance);
        let q6 = q5 + w5.len() as int;
        lemma_byte_field(data, q6, (if self.reduced_debug_info { 1u8 } else { 0u8 }));
        let q7 = q6 + w6.len() as int;
        lemma_byte_field(data, q7, (if self.enable_respawn_screen { 1u8 } else { 0u8 }));
        let q8 = q7 + w7.len() as int;
        lemma_byte_field(data, q8, (if self.do_limited_crafting { 1u8 } else { 0u8 }));
        let q9 = q8 + w8.len() as int;
        lemma_varint_field_round_trip(data, q9, self.dimension_type);
        let q10 = q9 + w9.len() as int;
        self.world_name.lemma_wire_round_trip(data, q10);
        let q11 = q10 + w10.len() as int;
        lemma_be8_round_trip(data, q11, self.hashed_seed as u64);
        crate::codec::lemma_cast_i64_round_trip(self.hashed_seed);
        let q12 = q11 + w11.len() as int;
        lemma_byte_field(data, q12, self.game_mode);
        let q13 = q12 + w12.len() as int;
        lemma_byte_field(data, q13, self.previous_game_mode as u8);
        crate::codec::lemma_cast_i8_round_trip(self.previous_game_mode);
        let q14 = q13 + w13.len() as int;
        lemma_byte_field(data, q14, (if self.is_debug { 1u8 } else { 0u8 }));
        let q15 = q14 + w14.len() as int;
        lemma_byte_field(data, q15, (if self.is_flat { 1u8 } else { 0u8 }));
        let q16 = q15 + w15.len() as int;
        self.death_location.lemma_wire_round_trip(data, q16);
        let q17 = q16 + w16.len() as int;
        lemma_varint_field_round_trip(data, q17, self.portal_cooldown);
        let q18 = q17 + w17.len() as int;
        lemma_varint_field_round_trip(data, q18, self.sea_level);
        let q19 = q18 + w18.len() as int;
        lemma_byte_field(data, q19, (if self.enforces_secure_chat { 1u8 } else { 0u8 }));
    }
}

impl Packet for ClientboundPlayLoginPacket {
    open spec fn spec_state() -> ConnectionState {
        ConnectionState::Play
    }

    open spec fn spec_direction() -> PacketDirection {
        PacketDirection::Clientbound
    }

    open spec fn spec_id() -> i32 {
        48
    }

    fn id() -> (r: i32) {
        48
    }
}

} // verus!
