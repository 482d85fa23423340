//! The per-connection protocol engine state: the current protocol state,
//! the framer for inbound bytes, the outbound frame queue, and the session
//! identity once login completes. The socket and the clock live with the
//! caller, which feeds received bytes in and writes encoded bytes out.

use vstd::prelude::*;
use crate::buffer::{BufferResult, McBuf, NetworkType};
use crate::codec::{varint_at, varint_bytes, varint_value};
use crate::dispatch::{ConfigurationServerboundHandler, HandshakeServerboundHandler,
    LoginServerboundHandler, StatusServerboundHandler, handle_configuration_serverbound,
    handle_handshake_serverbound, handle_login_serverbound, handle_status_serverbound};
use crate::game_profile::GameProfile;
use crate::handlers::PacketHandler;
use crate::packet_reader::{PacketReader, frame_len, frame_prefix_size, frame_ready};
use crate::packets::configuration::{ClientboundConfigurationKeepAlivePacket,
    ServerboundAcceptCodeOfConductPacket, ServerboundAcknowledgeFinishConfigurationPacket,
    ServerboundClientInformationPacket, ServerboundConfigurationKeepAliveResponsePacket,
    ServerboundKnownPacksPacket};
use crate::packets::handshake::ServerboundHandshakePacket;
use crate::packets::login::{ServerboundLoginAcknowledgedPacket, ServerboundLoginStartPacket};
use crate::packets::play::ClientboundKeepAlivePacket;
use crate::packets::status::{ServerboundPingPacket, ServerboundStatusRequestPacket};
use crate::protocol::{ConnectionState, Packet, packet_payload};

verus! {

/// One client connection's protocol state.
pub struct Connection {
    pub state: ConnectionState,
    pub packet_reader: PacketReader,
    pub packet_queue: Vec<McBuf>,
    pub gameprofile: Option<GameProfile>,
}

/// `postq` is `preq` with exactly the given frame payloads appended, each
/// as a fresh well-formed buffer.
pub open spec fn appended_frames(preq: Seq<McBuf>, postq: Seq<McBuf>, frames: Seq<Seq<u8>>) -> bool {
    &&& postq.len() == preq.len() + frames.len()
    &&& (forall|i: int| 0 <= i < preq.len() ==> postq[i] == preq[i])
    &&& (forall|j: int|
        0 <= j < frames.len() ==> (#[trigger] postq[preq.len() + j])@.data == frames[j] && postq[
            preq.len() + j
        ]@.read == 0 && postq[preq.len() + j].wf())
}

/// `postq` extends `preq` with zero or more well-formed frames, of
/// unspecified content.
pub open spec fn appended_some_frames(preq: Seq<McBuf>, postq: Seq<McBuf>) -> bool {
    &&& postq.len() >= preq.len()
    &&& (forall|i: int| 0 <= i < preq.len() ==> postq[i] == preq[i])
    &&& (forall|j: int| preq.len() <= j < postq.len() ==> (#[trigger] postq[j]).wf())
}

/// A single exact append is in particular an extension.
pub proof fn lemma_appended_one_some(preq: Seq<McBuf>, postq: Seq<McBuf>, frames: Seq<Seq<u8>>)
    requires
        appended_frames(preq, postq, frames),
    ensures
        appended_some_frames(preq, postq),
{
    assert forall|j: int| preq.len() <= j < postq.len() implies (#[trigger] postq[j]).wf() by {
        assert(postq[preq.len() + (j - preq.len())].wf());
    }
}

/// Extending twice extends.
pub proof fn lemma_appended_some_trans(q1: Seq<McBuf>, q2: Seq<McBuf>, q3: Seq<McBuf>)
    requires
        appended_some_frames(q1, q2),
        appended_some_frames(q2, q3),
    ensures
        appended_some_frames(q1, q3),
{
    assert forall|j: int| q1.len() <= j < q3.len() implies (#[trigger] q3[j]).wf() by {
        if j < q2.len() {
            assert(q3[j] == q2[j]);
            assert(q2[j].wf());
        }
    }
    assert forall|i: int| 0 <= i < q1.len() implies q3[i] == q1[i] by {
        assert(q3[i] == q2[i]);
    }
}

/// The concatenated wire image of a frame queue: each frame length-prefixed
/// with a varint, in queue order.
pub open spec fn framed_queue(q: Seq<McBuf>) -> Seq<u8>
    decreases q.len(),
{
    if q.len() == 0 {
        Seq::<u8>::empty()
    } else {
        varint_bytes(q[0]@.data.len() as u32) + q[0]@.data + framed_queue(q.drop_first())
    }
}

/// One more frame extends the wire image of a queue prefix.
proof fn lemma_framed_queue_take_push(q: Seq<McBuf>, i: int)
    requires
        0 <= i < q.len(),
    ensures
        framed_queue(q.take(i + 1)) == framed_queue(q.take(i)) + (varint_bytes(
            q[i]@.data.len() as u32,
        ) + q[i]@.data),
    decreases i,
{
    if i == 0 {
        assert(q.take(1)[0] == q[0]);
        assert(q.take(1).drop_first() =~= Seq::<McBuf>::empty());
        assert(q.take(0) =~= Seq::<McBuf>::empty());
        assert(framed_queue(q.take(1)) =~= framed_queue(q.take(0)) + (varint_bytes(
            q[0]@.data.len() as u32,
        ) + q[0]@.data));
    } else {
        assert(q.take(i + 1)[0] == q[0] && q.take(i)[0] == q[0]);
        assert(q.take(i + 1).drop_first() =~= q.drop_first().take(i));
        assert(q.take(i).drop_first() =~= q.drop_first().take(i - 1));
        lemma_framed_queue_take_push(q.drop_first(), i - 1);
        assert(q.drop_first()[i - 1] == q[i]);
        assert(framed_queue(q.take(i + 1)) =~= framed_queue(q.take(i)) + (varint_bytes(
            q[i]@.data.len() as u32,
        ) + q[i]@.data));
    }
}


/// The payload of the complete frame at the front of the stream.
pub open spec fn first_frame_payload(d: Seq<u8>) -> Seq<u8> {
    d.subrange(frame_prefix_size(d), frame_prefix_size(d) + frame_len(d))
}

/// What dispatching one frame payload against the table of `pre.state`
/// does to the connection, with the engine's own handler: the leading
/// varint selects a declared packet of that state, whose decoded value
/// goes to its callback; an unmatched id goes to the no-op fallback; a
/// decode failure leaves the connection untouched and fails.
pub open spec fn table_dispatch(
    pre: Connection,
    payload: Seq<u8>,
    post: Connection,
    r: BufferResult<()>,
) -> bool {
    let h = PacketHandler;
    if varint_at(payload, 0) {
        let id = varint_value(payload, 0);
        let q = frame_prefix_size(payload);
        match pre.state {
            ConnectionState::Handshake => {
                if id == ServerboundHandshakePacket::spec_id() {
                    match ServerboundHandshakePacket::dec_end(payload, q) {
                        Some(_end) => exists|pk: ServerboundHandshakePacket|
                            #[trigger] ServerboundHandshakePacket::decodes_to(payload, q, &pk)
                                && h.on_handshake_spec(pre, pk, post, r),
                        None => r is Err && post == pre,
                    }
                } else {
                    HandshakeServerboundHandler::on_unknown_spec(&h, pre, id, post) && r is Ok
                }
            },
            ConnectionState::Status => {
                if id == ServerboundStatusRequestPacket::spec_id() {
                    match ServerboundStatusRequestPacket::dec_end(payload, q) {
                        Some(_end) => exists|pk: ServerboundStatusRequestPacket|
                            #[trigger] ServerboundStatusRequestPacket::decodes_to(payload, q, &pk)
                                && h.on_status_request_spec(pre, pk, post, r),
                        None => r is Err && post == pre,
                    }
                } else if id == ServerboundPingPacket::spec_id() {
                    match ServerboundPingPacket::dec_end(payload, q) {
                        Some(_end) => exists|pk: ServerboundPingPacket|
                            #[trigger] ServerboundPingPacket::decodes_to(payload, q, &pk)
                                && h.on_ping_spec(pre, pk, post, r),
                        None => r is Err && post == pre,
                    }
                } else {
                    StatusServerboundHandler::on_unknown_spec(&h, pre, id, post) && r is Ok
                }
            },
            ConnectionState::Login => {
                if id == ServerboundLoginStartPacket::spec_id() {
                    match ServerboundLoginStartPacket::dec_end(payload, q) {
                        Some(_end) => exists|pk: ServerboundLoginStartPacket|
                            #[trigger] ServerboundLoginStartPacket::decodes_to(payload, q, &pk)
                                && h.on_login_start_spec(pre, pk, post, r),
                        None => r is Err && post == pre,
                    }
                } else if id == ServerboundLoginAcknowledgedPacket::spec_id() {
                    match ServerboundLoginAcknowledgedPacket::dec_end(payload, q) {
                        Some(_end) => exists|pk: ServerboundLoginAcknowledgedPacket|
                            #[trigger] ServerboundLoginAcknowledgedPacket::decodes_to(
                                payload,
                                q,
                                &pk,
                            ) && h.on_login_acknowledged_spec(pre, pk, post, r),
                        None => r is Err && post == pre,
                    }
                } else {
                    LoginServerboundHandler::on_unknown_spec(&h, pre, id, post) && r is Ok
                }
            },
            ConnectionState::Configuration => {
                if id == ServerboundClientInformationPacket::spec_id() {
                    match ServerboundClientInformationPacket::dec_end(payload, q) {
                        Some(_end) => exists|pk: ServerboundClientInformationPacket|
                            #[trigger] ServerboundClientInformationPacket::decodes_to(
                                payload,
                                q,
                                &pk,
                            ) && h.on_client_information_spec(pre, pk, post, r),
                        None => r is Err && post == pre,
                    }
                } else if id == ServerboundAcknowledgeFinishConfigurationPacket::spec_id() {
                    match ServerboundAcknowledgeFinishConfigurationPacket::dec_end(payload, q) {
                        Some(_end) => exists|pk: ServerboundAcknowledgeFinishConfigurationPacket|
                            #[trigger] ServerboundAcknowledgeFinishConfigurationPacket::decodes_to(
                                payload,
                                q,
                                &pk,
                            ) && h.on_acknowledge_finish_configuration_spec(pre, pk, post, r),
                        None => r is Err && post == pre,
                    }
                } else if id == ServerboundKnownPacksPacket::spec_id() {
                    match ServerboundKnownPacksPacket::dec_end(payload, q) {
                        Some(_end) => exists|pk: ServerboundKnownPacksPacket|
                            #[trigger] ServerboundKnownPacksPacket::decodes_to(payload, q, &pk)
                                && h.on_known_packs_spec(pre, pk, post, r),
                        None => r is Err && post == pre,
                    }
                } else if id == ServerboundAcceptCodeOfConductPacket::spec_id() {
                    match ServerboundAcceptCodeOfConductPacket::dec_end(payload, q) {
                        Some(_end) => exists|pk: ServerboundAcceptCodeOfConductPacket|
                            #[trigger] ServerboundAcceptCodeOfConductPacket::decodes_to(
                                payload,
                                q,
                                &pk,
                            ) && h.on_accept_code_of_conduct_spec(pre, pk, post, r),
                        None => r is Err && post == pre,
                    }
                } else if id == ServerboundConfigurationKeepAliveResponsePacket::spec_id() {
                    match ServerboundConfigurationKeepAliveResponsePacket::dec_end(payload, q) {
                        Some(_end) => exists|pk: ServerboundConfigurationKeepAliveResponsePacket|
                            #[trigger] ServerboundConfigurationKeepAliveResponsePacket::decodes_to(
                                payload,
                                q,
                                &pk,
                            ) && h.on_configuration_keep_alive_response_spec(pre, pk, post, r),
                        None => r is Err && post == pre,
                    }
                } else {
                    ConfigurationServerboundHandler::on_unknown_spec(&h, pre, id, post) && r is Ok
                }
            },
            ConnectionState::Play => {
                // No serverbound Play packets are declared: every id falls
                // through to the no-op fallback.
                post == pre && r is Ok
            },
        }
    } else {
        r is Err && post == pre
    }
}

/// One step of the per-tick drain: the complete frame at the front leaves
/// the framer, and its payload goes through the current state's table.
pub open spec fn frame_step(pre: Connection, post: Connection, r: BufferResult<()>) -> bool {
    &&& frame_ready(pre.packet_reader@)
    &&& exists|mid: Connection|
        {
            &&& mid.state == pre.state
            &&& mid.gameprofile == pre.gameprofile
            &&& mid.packet_queue == pre.packet_queue
            &&& mid.packet_reader@ == pre.packet_reader@.skip(
                frame_prefix_size(pre.packet_reader@) + frame_len(pre.packet_reader@),
            )
            &&& #[trigger] table_dispatch(mid, first_frame_payload(pre.packet_reader@), post, r)
        }
}

/// The drain relation: from `pre`, complete frames are dispatched in
/// arrival order, ending `Ok` with no complete frame left, or ending at
/// the first dispatch failure with the connection as that failing step
/// left it. `steps` bounds the number of frames taken.
pub open spec fn drains_to(
    pre: Connection,
    post: Connection,
    r: BufferResult<()>,
    steps: nat,
) -> bool
    decreases steps,
{
    if !frame_ready(pre.packet_reader@) {
        post == pre && r is Ok
    } else if steps == 0 {
        false
    } else {
        exists|mid: Connection, step_r: BufferResult<()>|
            #[trigger] frame_step(pre, mid, step_r) && (match step_r {
                Ok(_) => drains_to(mid, post, r, (steps - 1) as nat),
                Err(_) => r == step_r && post == mid,
            })
    }
}

impl Connection {
    /// Every queued outbound frame is a well-formed buffer.
    pub open spec fn wf(self) -> bool {
        forall|i: int| 0 <= i < self.packet_queue@.len() ==> (#[trigger] self.packet_queue@[i]).wf()
    }

    pub fn new() -> (r: Self)
        ensures
            r.state == ConnectionState::Handshake,
            r.packet_reader@ == Seq::<u8>::empty(),
            r.packet_queue@.len() == 0,
            r.gameprofile is None,
    {
        Connection {
            state: ConnectionState::Handshake,
            packet_reader: PacketReader::new(),
            packet_queue: Vec::new(),
            gameprofile: None,
        }
    }

    /// Encodes a packet into a frame payload (varint id, then fields) and
    /// appends it to the outbound queue.
    pub fn queue_packet<T: Packet>(&mut self, packet: &T)
        ensures
            final(self).state == old(self).state,
            final(self).gameprofile == old(self).gameprofile,
            final(self).packet_reader == old(self).packet_reader,
            appended_frames(
                old(self).packet_queue@,
                final(self).packet_queue@,
                seq![packet_payload(*packet)],
            ),
    {
        let mut buf = McBuf::new();
        buf.write_var_int(T::id());
        buf.write_network_type(packet);
        proof {
            assert(buf@.data =~= packet_payload(*packet));
        }
        self.packet_queue.push(buf);
    }

    /// Feeds freshly received bytes to the framer.
    pub fn feed_bytes(&mut self, bytes: &[u8])
        ensures
            final(self).state == old(self).state,
            final(self).gameprofile == old(self).gameprofile,
            final(self).packet_queue == old(self).packet_queue,
            final(self).packet_reader@ == old(self).packet_reader@ + bytes@,
    {
        self.packet_reader.append(bytes);
    }

    /// Enqueues the state-appropriate keep-alive packet: only the
    /// Configuration and Play states carry keep-alives.
    pub fn enqueue_keep_alive(&mut self)
        ensures
            final(self).state == old(self).state,
            final(self).gameprofile == old(self).gameprofile,
            final(self).packet_reader == old(self).packet_reader,
            old(self).state == ConnectionState::Configuration ==> appended_frames(
                old(self).packet_queue@,
                final(self).packet_queue@,
                seq![
                    packet_payload(
                        ClientboundConfigurationKeepAlivePacket { id: 0 },
                    ),
                ],
            ),
            old(self).state == ConnectionState::Play ==> appended_frames(
                old(self).packet_queue@,
                final(self).packet_queue@,
                seq![packet_payload(ClientboundKeepAlivePacket { id: 0 })],
            ),
            old(self).state != ConnectionState::Configuration && old(self).state
                != ConnectionState::Play ==> *final(self) == *old(self),
    {
        match self.state {
            ConnectionState::Configuration => {
                self.queue_packet(&ClientboundConfigurationKeepAlivePacket { id: 0 });
            },
            ConnectionState::Play => {
                self.queue_packet(&ClientboundKeepAlivePacket { id: 0 });
            },
            _ => {},
        }
    }

    /// Empties the outbound queue into its wire image: each frame prefixed
    /// by a varint length, strictly in enqueue order.
    pub fn encode_outgoing(&mut self) -> (r: Vec<u8>)
        ensures
            final(self).state == old(self).state,
            final(self).gameprofile == old(self).gameprofile,
            final(self).packet_reader == old(self).packet_reader,
            final(self).packet_queue@.len() == 0,
            r@ == framed_queue(old(self).packet_queue@),
    {
        let mut out = McBuf::new();
        let mut i: usize = 0;
        proof {
            assert(framed_queue(self.packet_queue@.take(0)) =~= Seq::<u8>::empty());
        }
        while i < self.packet_queue.len()
            invariant
                self == old(self),
                i <= self.packet_queue@.len(),
                out.wf(),
                out@.data == framed_queue(self.packet_queue@.take(i as int)),
            decreases self.packet_queue@.len() - i,
        {
            let frame = &self.packet_queue[i];
            let n32: u32 = frame.length() as u32;
            proof {
                crate::codec::lemma_cast_u32_round_trip(n32);
            }
            out.write_var_int(n32 as i32);
            out.write_slice(frame.as_slice());
            proof {
                lemma_framed_queue_take_push(self.packet_queue@, i as int);
                assert(out@.data =~= framed_queue(self.packet_queue@.take(i + 1)));
            }
            i = i + 1;
        }
        proof {
            assert(self.packet_queue@.take(self.packet_queue@.len() as int)
                =~= self.packet_queue@);
        }
        self.packet_queue.clear();
        vstd::slice::slice_to_vec(out.as_slice())
    }

    /// Drains every complete frame from the framer through the current
    /// state's dispatch table, strictly in arrival order. Stops cleanly
    /// when no complete frame remains; stops at the first dispatch failure,
    /// which the caller treats as fatal to the connection.
    pub fn process_incoming_packets(&mut self) -> (r: BufferResult<()>)
        ensures
            exists|steps: nat| #[trigger] drains_to(*old(self), *final(self), r, steps),
            r is Ok ==> !frame_ready(final(self).packet_reader@),
    {
        let handler = PacketHandler;
        let ghost mut k: nat = 0;
        loop
            invariant
                forall|post: Connection, rr: BufferResult<()>, n: nat|
                    #[trigger] drains_to(*self, post, rr, n) ==> drains_to(
                        *old(self),
                        post,
                        rr,
                        n + k,
                    ),
            decreases self.packet_reader@.len(),
        {
            let ghost c_prev = *self;
            let mut frame = match self.packet_reader.read_packet() {
                Some(f) => f,
                None => {
                    proof {
                        let done: BufferResult<()> = Ok(());
                        assert(drains_to(*self, *self, done, 0));
                        assert(drains_to(*old(self), *self, done, 0 + k));
                    }
                    return Ok(());
                },
            };
            let ghost c_mid = *self;
            let ghost payload = first_frame_payload(c_prev.packet_reader@);
            let res = match self.state {
                ConnectionState::Handshake => handle_handshake_serverbound(
                    self,
                    &mut frame,
                    &handler,
                ),
                ConnectionState::Status => handle_status_serverbound(self, &mut frame, &handler),
                ConnectionState::Login => handle_login_serverbound(self, &mut frame, &handler),
                ConnectionState::Configuration => handle_configuration_serverbound(
                    self,
                    &mut frame,
                    &handler,
                ),
                ConnectionState::Play => {
                    // No serverbound Play packets are declared: after its
                    // varint id is read, every frame falls through to the
                    // no-op fallback.
                    match frame.read_var_int() {
                        Ok(_id) => Ok(()),
                        Err(e) => Err(e),
                    }
                },
            };
            proof {
                assert(self.packet_reader@ == c_mid.packet_reader@);
                assert(table_dispatch(c_mid, payload, *self, res));
                assert(frame_step(c_prev, *self, res));
            }
            match res {
                Ok(()) => {
                    proof {
                        assert forall|post: Connection, rr: BufferResult<()>, n: nat| #[trigger]
                            drains_to(*self, post, rr, n) implies drains_to(
                            *old(self),
                            post,
                            rr,
                            n + (k + 1),
                        ) by {
                            assert(drains_to(c_prev, post, rr, n + 1));
                            assert(drains_to(*old(self), post, rr, (n + 1) + k));
                        }
                        k = k + 1;
                    }
                },
                Err(e) => {
                    proof {
                        assert(drains_to(c_prev, *self, res, 1));
                        assert(drains_to(*old(self), *self, res, 1 + k));
                    }
                    return Err(e);
                },
            }
        }
    }
}

} // verus!
