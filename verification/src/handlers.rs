//! The server's packet handler: one stateless value implementing every
//! serverbound handler interface. All mutable state lives on the connection
//! passed into each callback, so one handler value serves all connections.

use vstd::prelude::*;
use crate::buffer::{BufferError, BufferResult, McBuf, NetworkType, string_wire};
use crate::codec::{be4, be8, varint_bytes};
use crate::connection::{Connection, appended_frames, appended_some_frames};
use crate::dispatch::{ConfigurationServerboundHandler, HandshakeServerboundHandler,
    LoginServerboundHandler, StatusServerboundHandler};
use crate::extra::vec_wire;
use crate::game_profile::{GameProfile, GameProfileProperty};
use crate::identifier::Identifier;
use crate::packets::configuration::{ClientboundCodeOfConductPacket,
    ClientboundFinishConfigurationPacket, ClientboundKnownPacksPacket,
    ClientboundRegistryDataPacket, ClientboundUpdateTagsPacket, KnownPack, RegistryEntry,
    RegistryTags, ServerboundAcceptCodeOfConductPacket,
    ServerboundAcknowledgeFinishConfigurationPacket, ServerboundClientInformationPacket,
    ServerboundConfigurationKeepAliveResponsePacket, ServerboundKnownPacksPacket, TagEntry};
use crate::packets::handshake::ServerboundHandshakePacket;
use crate::packets::login::{ClientboundLoginSuccessPacket, ServerboundLoginAcknowledgedPacket,
    ServerboundLoginStartPacket};
use crate::packets::play::ClientboundPlayLoginPacket;
use crate::packets::status::{ClientboundPongPacket, ClientboundStatusResponsePacket,
    ServerboundPingPacket, ServerboundStatusRequestPacket};
use crate::protocol::ConnectionState;

verus! {

/// The status response body sent for every server list query.
pub const STATUS_RESPONSE_JSON: &'static str =
    "{\"version\":{\"name\":\"1.21.11\",\"protocol\":774},\"description\":{\"text\":\"Hello, world!\"}}";

/// The frame queued for a status request.
pub open spec fn status_response_frame() -> Seq<u8> {
    varint_bytes(0) + string_wire(STATUS_RESPONSE_JSON@)
}

/// The frame queued for a ping: a pong echoing the payload.
pub open spec fn pong_frame(payload: i64) -> Seq<u8> {
    varint_bytes(1) + be8(payload as u64)
}

/// The frame queued for a login start: success with the profile formed
/// from the request, with no properties.
pub open spec fn login_success_frame(p: ServerboundLoginStartPacket) -> Seq<u8> {
    varint_bytes(2) + (be8(p.uuid.msb) + be8(p.uuid.lsb)) + string_wire(p.username@)
        + varint_bytes(0)
}

/// The frame advertising the server's known resource packs.
pub open spec fn known_packs_frame() -> Seq<u8> {
    varint_bytes(0x0E) + varint_bytes(1) + string_wire("minecraft"@) + string_wire("core"@)
        + string_wire("1.21.11"@)
}

/// The frame that finishes the configuration phase.
pub open spec fn finish_configuration_frame() -> Seq<u8> {
    varint_bytes(3)
}

/// The wire form of the `minecraft:overworld` identifier.
pub open spec fn overworld_wire() -> Seq<u8> {
    string_wire("minecraft"@ + seq![':'] + "overworld"@)
}

/// The Play login frame sent when configuration is acknowledged.
pub open spec fn play_login_frame() -> Seq<u8> {
    varint_bytes(0x30) + (be4(0) + seq![0u8] + (varint_bytes(1) + overworld_wire())
        + varint_bytes(20) + varint_bytes(8) + varint_bytes(8) + seq![0u8] + seq![1u8] + seq![0u8]
        + varint_bytes(0) + overworld_wire() + be8(0) + seq![0u8] + seq![255u8] + seq![0u8]
        + seq![0u8] + seq![0u8] + varint_bytes(0) + varint_bytes(63) + seq![0u8])
}

/// The connection changed only by appending the given frames to its
/// outbound queue.
pub open spec fn only_queued(pre: Connection, post: Connection, frames: Seq<Seq<u8>>) -> bool {
    &&& post.state == pre.state
    &&& post.gameprofile == pre.gameprofile
    &&& post.packet_reader == pre.packet_reader
    &&& appended_frames(pre.packet_queue@, post.packet_queue@, frames)
}

/// The stateless handler of every serverbound packet.
pub struct PacketHandler;

impl HandshakeServerboundHandler for PacketHandler {
    type ClientType = Connection;

    /// The handshake intent selects the next state: 1 is Status, 2 and 3
    /// are Login; anything else is a fatal protocol error.
    open spec fn on_handshake_spec(
        &self,
        pre: Connection,
        packet: ServerboundHandshakePacket,
        post: Connection,
        r: BufferResult<()>,
    ) -> bool {
        if packet.intent == 1 {
            r is Ok && post == Connection { state: ConnectionState::Status, ..pre }
        } else if packet.intent == 2 || packet.intent == 3 {
            r is Ok && post == Connection { state: ConnectionState::Login, ..pre }
        } else {
            r is Err && post == pre
        }
    }

    open spec fn on_unknown_spec(&self, pre: Connection, id: i32, post: Connection) -> bool {
        post == pre
    }

    fn on_handshake(&self, connection: &mut Connection, packet: ServerboundHandshakePacket) -> (r:
        BufferResult<()>) {
        match packet.intent {
            1 => {
                connection.state = ConnectionState::Status;
                Ok(())
            },
            2 | 3 => {
                connection.state = ConnectionState::Login;
                Ok(())
            },
            _ => Err(BufferError::Generic("invalid handshake intent")),
        }
    }

    fn on_unknown(&self, connection: &mut Connection, id: i32, buf: &mut McBuf) {
    }
}

impl StatusServerboundHandler for PacketHandler {
    type ClientType = Connection;

    open spec fn on_status_request_spec(
        &self,
        pre: Connection,
        packet: ServerboundStatusRequestPacket,
        post: Connection,
        r: BufferResult<()>,
    ) -> bool {
        r is Ok && only_queued(pre, post, seq![status_response_frame()])
    }

    open spec fn on_ping_spec(
        &self,
        pre: Connection,
        packet: ServerboundPingPacket,
        post: Connection,
        r: BufferResult<()>,
    ) -> bool {
        r is Ok && only_queued(pre, post, seq![pong_frame(packet.payload)])
    }

    open spec fn on_unknown_spec(&self, pre: Connection, id: i32, post: Connection) -> bool {
        post == pre
    }

    fn on_status_request(
        &self,
        connection: &mut Connection,
        packet: ServerboundStatusRequestPacket,
    ) -> (r: BufferResult<()>) {
        let response_packet = ClientboundStatusResponsePacket {
            response_payload: STATUS_RESPONSE_JSON.to_owned(),
        };
        connection.queue_packet(&response_packet);
        proof {
            assert(crate::protocol::packet_payload(response_packet)
                =~= status_response_frame());
            assert(seq![crate::protocol::packet_payload(response_packet)]
                =~= seq![status_response_frame()]);
        }
        Ok(())
    }

    fn on_ping(&self, connection: &mut Connection, packet: ServerboundPingPacket) -> (r:
        BufferResult<()>) {
        let response_packet = ClientboundPongPacket { payload: packet.payload };
        connection.queue_packet(&response_packet);
        proof {
            assert(crate::protocol::packet_payload(response_packet) =~= pong_frame(
                packet.payload,
            ));
            assert(seq![crate::protocol::packet_payload(response_packet)] =~= seq![
                pong_frame(packet.payload),
            ]);
        }
        Ok(())
    }

    fn on_unknown(&self, connection: &mut Connection, id: i32, buf: &mut McBuf) {
    }
}

impl LoginServerboundHandler for PacketHandler {
    type ClientType = Connection;

    /// Login start records the identity and answers with login success.
    open spec fn on_login_start_spec(
        &self,
        pre: Connection,
        packet: ServerboundLoginStartPacket,
        post: Connection,
        r: BufferResult<()>,
    ) -> bool {
        &&& r is Ok
        &&& post.state == pre.state
        &&& post.packet_reader == pre.packet_reader
        &&& post.gameprofile matches Some(g) && g.uuid == packet.uuid && g.username
            == packet.username && g.properties@.len() == 0
        &&& appended_frames(
            pre.packet_queue@,
            post.packet_queue@,
            seq![login_success_frame(packet)],
        )
    }

    open spec fn on_login_acknowledged_spec(
        &self,
        pre: Connection,
        packet: ServerboundLoginAcknowledgedPacket,
        post: Connection,
        r: BufferResult<()>,
    ) -> bool {
        r is Ok && post == Connection { state: ConnectionState::Configuration, ..pre }
    }

    open spec fn on_unknown_spec(&self, pre: Connection, id: i32, post: Connection) -> bool {
        post == pre
    }

    fn on_login_start(&self, connection: &mut Connection, packet: ServerboundLoginStartPacket)
        -> (r: BufferResult<()>) {
        let username_copy = packet.username.clone();
        connection.gameprofile = Some(
            GameProfile { uuid: packet.uuid, username: username_copy, properties: Vec::new() },
        );
        let response_packet = ClientboundLoginSuccessPacket {
            gameprofile: GameProfile {
                uuid: packet.uuid,
                username: packet.username,
                properties: Vec::new(),
            },
        };
        connection.queue_packet(&response_packet);
        proof {
            assert(vec_wire::<GameProfileProperty>(
                response_packet.gameprofile.properties@,
            ) =~= Seq::<u8>::empty());
            assert(crate::protocol::packet_payload(response_packet) =~= login_success_frame(
                packet,
            ));
            assert(seq![crate::protocol::packet_payload(response_packet)] =~= seq![
                login_success_frame(packet),
            ]);
        }
        Ok(())
    }

    fn on_login_acknowledged(
        &self,
        connection: &mut Connection,
        packet: ServerboundLoginAcknowledgedPacket,
    ) -> (r: BufferResult<()>) {
        connection.state = ConnectionState::Configuration;
        Ok(())
    }

    fn on_unknown(&self, connection: &mut Connection, id: i32, buf: &mut McBuf) {
    }
}

/// Queues one registry-data packet; the registry contents are application
/// data, so only the queue extension is tracked.
fn queue_registry(connection: &mut Connection, registry_id: Identifier, entries: Vec<RegistryEntry>)
    ensures
        final(connection).state == old(connection).state,
        final(connection).gameprofile == old(connection).gameprofile,
        final(connection).packet_reader == old(connection).packet_reader,
        final(connection).packet_queue@.len() == old(connection).packet_queue@.len() + 1,
        appended_some_frames(old(connection).packet_queue@, final(connection).packet_queue@),
{
    connection.queue_packet(&ClientboundRegistryDataPacket { registry_id, entries });
    proof {
        assert forall|j: int|
            old(connection).packet_queue@.len() <= j < connection.packet_queue@.len() implies (
        #[trigger] connection.packet_queue@[j]).wf() by {
            assert(connection.packet_queue@[old(connection).packet_queue@.len() + (j - old(
                connection,
            ).packet_queue@.len())].wf());
        }
    }
}

impl ConfigurationServerboundHandler for PacketHandler {
    type ClientType = Connection;

    open spec fn on_client_information_spec(
        &self,
        pre: Connection,
        packet: ServerboundClientInformationPacket,
        post: Connection,
        r: BufferResult<()>,
    ) -> bool {
        r is Ok && only_queued(pre, post, seq![known_packs_frame()])
    }

    open spec fn on_acknowledge_finish_configuration_spec(
        &self,
        pre: Connection,
        packet: ServerboundAcknowledgeFinishConfigurationPacket,
        post: Connection,
        r: BufferResult<()>,
    ) -> bool {
        &&& r is Ok
        &&& post.state == ConnectionState::Play
        &&& post.gameprofile == pre.gameprofile
        &&& post.packet_reader == pre.packet_reader
        &&& appended_frames(pre.packet_queue@, post.packet_queue@, seq![play_login_frame()])
    }

    /// The registry payloads answered here are application data; the
    /// shape of the change is pinned: exactly fifteen frames (the registry
    /// data, the tag data and the code of conduct) are appended, and
    /// nothing else moves.
    open spec fn on_known_packs_spec(
        &self,
        pre: Connection,
        packet: ServerboundKnownPacksPacket,
        post: Connection,
        r: BufferResult<()>,
    ) -> bool {
        &&& r is Ok
        &&& post.state == pre.state
        &&& post.gameprofile == pre.gameprofile
        &&& post.packet_reader == pre.packet_reader
        &&& post.packet_queue@.len() == pre.packet_queue@.len() + 15
        &&& appended_some_frames(pre.packet_queue@, post.packet_queue@)
    }

    open spec fn on_accept_code_of_conduct_spec(
        &self,
        pre: Connection,
        packet: ServerboundAcceptCodeOfConductPacket,
        post: Connection,
        r: BufferResult<()>,
    ) -> bool {
        r is Ok && only_queued(pre, post, seq![finish_configuration_frame()])
    }

    open spec fn on_configuration_keep_alive_response_spec(
        &self,
        pre: Connection,
        packet: ServerboundConfigurationKeepAliveResponsePacket,
        post: Connection,
        r: BufferResult<()>,
    ) -> bool {
        r is Ok && post == pre
    }

    open spec fn on_unknown_spec(&self, pre: Connection, id: i32, post: Connection) -> bool {
        post == pre
    }

    fn on_client_information(
        &self,
        connection: &mut Connection,
        packet: ServerboundClientInformationPacket,
    ) -> (r: BufferResult<()>) {
        let response_packet = ClientboundKnownPacksPacket {
            known_packs: vec![
                KnownPack {
                    namespace: "minecraft".to_owned(),
                    path: "core".to_owned(),
                    version: "1.21.11".to_owned(),
                },
            ],
        };
        connection.queue_packet(&response_packet);
        proof {
            let packs = response_packet.known_packs@;
            assert(vec_wire::<KnownPack>(packs.drop_first()) =~= Seq::<u8>::empty());
            assert(crate::protocol::packet_payload(response_packet) =~= known_packs_frame());
            assert(seq![crate::protocol::packet_payload(response_packet)] =~= seq![
                known_packs_frame(),
            ]);
        }
        Ok(())
    }

    #[verifier::rlimit(100)]
    fn on_known_packs(&self, connection: &mut Connection, packet: ServerboundKnownPacksPacket)
        -> (r: BufferResult<()>) {
        let ghost q0 = connection.packet_queue@;
        queue_registry(
            connection,
            Identifier::minecraft("dimension_type"),
            vec![
                RegistryEntry::empty(Identifier::minecraft("overworld")),
            ],
        );
        let ghost qs = connection.packet_queue@;
        queue_registry(
            connection,
            Identifier::minecraft("worldgen/biome"),
            vec![
                RegistryEntry::empty(Identifier::minecraft("plains")),
            ],
        );
        proof {
            crate::connection::lemma_appended_some_trans(q0, qs, connection.packet_queue@);
        }
        let ghost qs = connection.packet_queue@;
        queue_registry(
            connection,
            Identifier::minecraft("damage_type"),
            vec![
                RegistryEntry::empty(Identifier::minecraft("cactus")),
                RegistryEntry::empty(Identifier::minecraft("campfire")),
                RegistryEntry::empty(Identifier::minecraft("cramming")),
                RegistryEntry::empty(Identifier::minecraft("dragon_breath")),
                RegistryEntry::empty(Identifier::minecraft("drown")),
                RegistryEntry::empty(Identifier::minecraft("dry_out")),
                RegistryEntry::empty(Identifier::minecraft("ender_pearl")),
                RegistryEntry::empty(Identifier::minecraft("fall")),
                RegistryEntry::empty(Identifier::minecraft("fly_into_wall")),
                RegistryEntry::empty(Identifier::minecraft("freeze")),
                RegistryEntry::empty(Identifier::minecraft("generic")),
                RegistryEntry::empty(Identifier::minecraft("generic_kill")),
                RegistryEntry::empty(Identifier::minecraft("hot_floor")),
                RegistryEntry::empty(Identifier::minecraft("in_fire")),
                RegistryEntry::empty(Identifier::minecraft("in_wall")),
                RegistryEntry::empty(Identifier::minecraft("lava")),
                RegistryEntry::empty(Identifier::minecraft("lightning_bolt")),
                RegistryEntry::empty(Identifier::minecraft("magic")),
                RegistryEntry::empty(Identifier::minecraft("on_fire")),
                RegistryEntry::empty(Identifier::minecraft("out_of_world")),
                RegistryEntry::empty(Identifier::minecraft("outside_border")),
                RegistryEntry::empty(Identifier::minecraft("stalagmite")),
                RegistryEntry::empty(Identifier::minecraft("starve")),
                RegistryEntry::empty(Identifier::minecraft("sweet_berry_bush")),
                RegistryEntry::empty(Identifier::minecraft("wither")),
            ],
        );
        proof {
            crate::connection::lemma_appended_some_trans(q0, qs, connection.packet_queue@);
        }
        let ghost qs = connection.packet_queue@;
        queue_registry(
            connection,
            Identifier::minecraft("cat_variant"),
            vec![
                RegistryEntry::empty(Identifier::minecraft("all_black")),
            ],
        );
        proof {
            crate::connection::lemma_appended_some_trans(q0, qs, connection.packet_queue@);
        }
        let ghost qs = connection.packet_queue@;
        queue_registry(
            connection,
            Identifier::minecraft("chicken_variant"),
            vec![
                RegistryEntry::empty(Identifier::minecraft("warm")),
            ],
        );
        proof {
            crate::connection::lemma_appended_some_trans(q0, qs, connection.packet_queue@);
        }
        let ghost qs = connection.packet_queue@;
        queue_registry(
            connection,
            Identifier::minecraft("cow_variant"),
            vec![
                RegistryEntry::empty(Identifier::minecraft("warm")),
            ],
        );
        proof {
            crate::connection::lemma_appended_some_trans(q0, qs, connection.packet_queue@);
        }
        let ghost qs = connection.packet_queue@;
        queue_registry(
            connection,
            Identifier::minecraft("frog_variant"),
            vec![
                RegistryEntry::empty(Identifier::minecraft("warm")),
            ],
        );
        proof {
            crate::connection::lemma_appended_some_trans(q0, qs, connection.packet_queue@);
        }
        let ghost qs = connection.packet_queue@;
        queue_registry(
            connection,
            Identifier::minecraft("painting_variant"),
            vec![
                RegistryEntry::empty(Identifier::minecraft("kebab")),
            ],
        );
        proof {
            crate::connection::lemma_appended_some_trans(q0, qs, connection.packet_queue@);
        }
        let ghost qs = connection.packet_queue@;
        queue_registry(
            connection,
            Identifier::minecraft("pig_variant"),
            vec![
                RegistryEntry::empty(Identifier::minecraft("warm")),
            ],
        );
        proof {
            crate::connection::lemma_appended_some_trans(q0, qs, connection.packet_queue@);
        }
        let ghost qs = connection.packet_queue@;
        queue_registry(
            connection,
            Identifier::minecraft("wolf_sound_variant"),
            vec![
                RegistryEntry::empty(Identifier::minecraft("classic")),
            ],
        );
        proof {
            crate::connection::lemma_appended_some_trans(q0, qs, connection.packet_queue@);
        }
        let ghost qs = connection.packet_queue@;
        queue_registry(
            connection,
            Identifier::minecraft("wolf_variant"),
            vec![
                RegistryEntry::empty(Identifier::minecraft("ashen")),
            ],
        );
        proof {
            crate::connection::lemma_appended_some_trans(q0, qs, connection.packet_queue@);
        }
        let ghost qs = connection.packet_queue@;
        queue_registry(
            connection,
            Identifier::minecraft("zombie_nautilus_variant"),
            vec![
                RegistryEntry::empty(Identifier::minecraft("warm")),
            ],
        );
        proof {
            crate::connection::lemma_appended_some_trans(q0, qs, connection.packet_queue@);
        }
        let ghost qs = connection.packet_queue@;
        queue_registry(
            connection,
            Identifier::minecraft("timeline"),
            vec![
                RegistryEntry::empty(Identifier::minecraft("villager_schedule")),
                RegistryEntry::empty(Identifier::minecraft("early_game")),
                RegistryEntry::empty(Identifier::minecraft("day")),
                RegistryEntry::empty(Identifier::minecraft("moon")),
            ],
        );
        proof {
            crate::connection::lemma_appended_some_trans(q0, qs, connection.packet_queue@);
        }
        let ghost qs = connection.packet_queue@;
        let tags_packet = ClientboundUpdateTagsPacket {
            tagged_registries: vec![
                RegistryTags {
                    registry_id: Identifier::minecraft("timeline"),
                    entries: vec![TagEntry::empty(Identifier::minecraft("in_overworld"))],
                },
            ],
        };
        connection.queue_packet(&tags_packet);
        proof {
            crate::connection::lemma_appended_one_some(
                qs,
                connection.packet_queue@,
                seq![crate::protocol::packet_payload(tags_packet)],
            );
            crate::connection::lemma_appended_some_trans(q0, qs, connection.packet_queue@);
        }
        let ghost qs2 = connection.packet_queue@;
        let conduct_packet = ClientboundCodeOfConductPacket {
            message: "By joining this server, you agree to the terms outlined in the Terms and Conditions and Privacy Policy at https://ultradev.app/terms. You further agree to the harvesting of your organs at an unspecified later date.".to_owned(),
        };
        connection.queue_packet(&conduct_packet);
        proof {
            crate::connection::lemma_appended_one_some(
                qs2,
                connection.packet_queue@,
                seq![crate::protocol::packet_payload(conduct_packet)],
            );
            crate::connection::lemma_appended_some_trans(q0, qs2, connection.packet_queue@);
        }
        Ok(())
        }

    fn on_configuration_keep_alive_response(
        &self,
        connection: &mut Connection,
        packet: ServerboundConfigurationKeepAliveResponsePacket,
    ) -> (r: BufferResult<()>) {
        Ok(())
    }

    fn on_accept_code_of_conduct(
        &self,
        connection: &mut Connection,
        packet: ServerboundAcceptCodeOfConductPacket,
    ) -> (r: BufferResult<()>) {
        let response_packet = ClientboundFinishConfigurationPacket;
        connection.queue_packet(&response_packet);
        proof {
            assert(crate::protocol::packet_payload(response_packet)
                =~= finish_configuration_frame());
            assert(seq![crate::protocol::packet_payload(response_packet)] =~= seq![
                finish_configuration_frame(),
            ]);
        }
        Ok(())
    }

    #[verifier::rlimit(100)]
    #[verifier::spinoff_prover]
    fn on_acknowledge_finish_configuration(
        &self,
        connection: &mut Connection,
        packet: ServerboundAcknowledgeFinishConfigurationPacket,
    ) -> (r: BufferResult<()>) {
        connection.state = ConnectionState::Play;
        let response_packet = ClientboundPlayLoginPacket {
            entity_id: 0,
            is_hardcore: false,
            dimension_names: vec![Identifier::minecraft("overworld")],
            max_players: 20,
            view_distance: 8,
            simulation_distance: 8,
            reduced_debug_info: false,
            enable_respawn_screen: true,
            do_limited_crafting: false,
            dimension_type: 0,
            world_name: Identifier::minecraft("overworld"),
            hashed_seed: 0,
            game_mode: 0,
            previous_game_mode: -1,
            is_debug: false,
            is_flat: false,
            death_location: None,
            portal_cooldown: 0,
            sea_level: 63,
            enforces_secure_chat: false,
        };
        connection.queue_packet(&response_packet);
        proof {
            assert(vec_wire::<Identifier>(response_packet.dimension_names@.drop_first())
                =~= Seq::<u8>::empty());
            assert(response_packet.dimension_names@[0].wire() =~= overworld_wire());
            assert(response_packet.dimension_names.wire() =~= varint_bytes(1) + overworld_wire());
            assert(response_packet.world_name.wire() =~= overworld_wire());
            assert(response_packet.death_location.wire() =~= seq![0u8]);
            assert((-1i8) as u8 == 255u8) by (bit_vector);
            assert(response_packet.wire() =~= be4(0) + seq![0u8] + (varint_bytes(1)
                + overworld_wire()) + varint_bytes(20) + varint_bytes(8) + varint_bytes(8)
                + seq![0u8] + seq![1u8] + seq![0u8] + varint_bytes(0) + overworld_wire() + be8(0)
                + seq![0u8] + seq![255u8] + seq![0u8] + seq![0u8] + seq![0u8] + varint_bytes(0)
                + varint_bytes(63) + seq![0u8]);
            assert(crate::protocol::packet_payload(response_packet) == play_login_frame());
            assert(seq![crate::protocol::packet_payload(response_packet)] =~= seq![
                play_login_frame(),
            ]);
        }
        Ok(())
    }

    fn on_unknown(&self, connection: &mut Connection, id: i32, buf: &mut McBuf) {
    }
}

} // verus!
