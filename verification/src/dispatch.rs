//! Per-state, per-direction packet routing: for each pair with declared
//! packets, a handler interface with one callback per packet type plus a
//! fallback for unrecognized ids, and a dispatch function that reads the
//! leading varint packet id, decodes the matched packet, and invokes the
//! bound callback. Each callback's effect is pinned by a companion spec
//! function that its implementor defines.

use vstd::prelude::*;
use crate::buffer::{BufferResult, McBuf, NetworkType};
use crate::codec::{varint_at, varint_size, varint_value};
use crate::protocol::Packet;
use crate::packets::handshake::ServerboundHandshakePacket;
use crate::packets::status::{ServerboundStatusRequestPacket, ServerboundPingPacket,
    ClientboundStatusResponsePacket, ClientboundPongPacket};
use crate::packets::login::{ServerboundLoginStartPacket, ServerboundLoginAcknowledgedPacket,
    ClientboundLoginSuccessPacket};
use crate::packets::configuration::{ServerboundClientInformationPacket,
    ServerboundAcknowledgeFinishConfigurationPacket, ServerboundKnownPacksPacket,
    ServerboundAcceptCodeOfConductPacket, ServerboundConfigurationKeepAliveResponsePacket};

verus! {

pub trait HandshakeServerboundHandler {
    type ClientType;

    /// What `on_handshake` did to the connection, defined by the implementor.
    spec fn on_handshake_spec(
        &self,
        pre: Self::ClientType,
        packet: ServerboundHandshakePacket,
        post: Self::ClientType,
        r: BufferResult<()>,
    ) -> bool;
    /// What the fallback did to the connection.
    spec fn on_unknown_spec(&self, pre: Self::ClientType, id: i32, post: Self::ClientType) -> bool;

    fn on_handshake(&self, connection: &mut Self::ClientType, packet: ServerboundHandshakePacket) -> (r: BufferResult<()>)
        ensures
            self.on_handshake_spec(*old(connection), packet, *final(connection), r),
    ;
    /// The fallback for unrecognized packet ids: receives the raw id and
    /// the still-undecoded payload buffer.
    fn on_unknown(&self, connection: &mut Self::ClientType, id: i32, buf: &mut McBuf)
        requires
            old(buf).wf(),
        ensures
            final(buf).wf(),
            self.on_unknown_spec(*old(connection), id, *final(connection)),
    ;
}

/// Reads the varint packet id at the front of `buf`, decodes the matched
/// Handshake serverbound packet and invokes its callback; an
/// unmatched id goes to the fallback. A decode failure leaves the
/// connection untouched and is reported to the caller.
pub fn handle_handshake_serverbound<H: HandshakeServerboundHandler>(
    connection: &mut H::ClientType,
    buf: &mut McBuf,
    handler: &H,
) -> (r: BufferResult<()>)
    requires
        old(buf).wf(),
    ensures
        final(buf).wf(),
        ({
            let d = old(buf)@.data;
            let p = old(buf)@.read;
            if varint_at(d, p) {
                let id = varint_value(d, p);
                let q = p + (varint_size(d, p, 5)->Some_0);
                if id == ServerboundHandshakePacket::spec_id() {
                    match ServerboundHandshakePacket::dec_end(d, q) {
                        Some(_end) => exists|pk: ServerboundHandshakePacket|
                            #[trigger] ServerboundHandshakePacket::decodes_to(d, q, &pk) && handler.on_handshake_spec(
                                *old(connection),
                                pk,
                                *final(connection),
                                r,
                            ),
                        None => r is Err && *final(connection) == *old(connection),
                    }
                } else {
                    handler.on_unknown_spec(*old(connection), id, *final(connection)) && r is Ok
                }
            } else {
                r is Err && *final(connection) == *old(connection)
            }
        }),
{
    let ghost d = buf@.data;
    let ghost p = buf@.read;
    let id = match buf.read_var_int() {
        Ok(v) => v,
        Err(e) => {
            return Err(e);
        },
    };
    let ghost q = buf@.read;
            if id == ServerboundHandshakePacket::id() {
            let pk = match ServerboundHandshakePacket::read(buf) {
                Ok(pk) => pk,
                Err(e) => {
                    return Err(e);
                },
            };
            let r = handler.on_handshake(connection, pk);
            proof {
                assert(exists|pk2: ServerboundHandshakePacket|
                    #[trigger] ServerboundHandshakePacket::decodes_to(d, q, &pk2) && handler.on_handshake_spec(
                        *old(connection),
                        pk2,
                        *final(connection),
                        r,
                    ));
            }
            r
        } else {
            handler.on_unknown(connection, id, buf);
            Ok(())
        }
}

pub trait StatusServerboundHandler {
    type ClientType;

    /// What `on_status_request` did to the connection, defined by the implementor.
    spec fn on_status_request_spec(
        &self,
        pre: Self::ClientType,
        packet: ServerboundStatusRequestPacket,
        post: Self::ClientType,
        r: BufferResult<()>,
    ) -> bool;
    /// What `on_ping` did to the connection, defined by the implementor.
    spec fn on_ping_spec(
        &self,
        pre: Self::ClientType,
        packet: ServerboundPingPacket,
        post: Self::ClientType,
        r: BufferResult<()>,
    ) -> bool;
    /// What the fallback did to the connection.
    spec fn on_unknown_spec(&self, pre: Self::ClientType, id: i32, post: Self::ClientType) -> bool;

    fn on_status_request(&self, connection: &mut Self::ClientType, packet: ServerboundStatusRequestPacket) -> (r: BufferResult<()>)
        ensures
            self.on_status_request_spec(*old(connection), packet, *final(connection), r),
    ;
    fn on_ping(&self, connection: &mut Self::ClientType, packet: ServerboundPingPacket) -> (r: BufferResult<()>)
        ensures
            self.on_ping_spec(*old(connection), packet, *final(connection), r),
    ;
    /// The fallback for unrecognized packet ids: receives the raw id and
    /// the still-undecoded payload buffer.
    fn on_unknown(&self, connection: &mut Self::ClientType, id: i32, buf: &mut McBuf)
        requires
            old(buf).wf(),
        ensures
            final(buf).wf(),
            self.on_unknown_spec(*old(connection), id, *final(connection)),
    ;
}

/// Reads the varint packet id at the front of `buf`, decodes the matched
/// Status serverbound packet and invokes its callback; an
/// unmatched id goes to the fallback. A decode failure leaves the
/// connection untouched and is reported to the caller.
pub fn handle_status_serverbound<H: StatusServerboundHandler>(
    connection: &mut H::ClientType,
    buf: &mut McBuf,
    handler: &H,
) -> (r: BufferResult<()>)
    requires
        old(buf).wf(),
    ensures
        final(buf).wf(),
        ({
            let d = old(buf)@.data;
            let p = old(buf)@.read;
            if varint_at(d, p) {
                let id = varint_value(d, p);
                let q = p + (varint_size(d, p, 5)->Some_0);
                if id == ServerboundStatusRequestPacket::spec_id() {
                    match ServerboundStatusRequestPacket::dec_end(d, q) {
                        Some(_end) => exists|pk: ServerboundStatusRequestPacket|
                            #[trigger] ServerboundStatusRequestPacket::decodes_to(d, q, &pk) && handler.on_status_request_spec(
                                *old(connection),
                                pk,
                                *final(connection),
                                r,
                            ),
                        None => r is Err && *final(connection) == *old(connection),
                    }
                } else if id == ServerboundPingPacket::spec_id() {
                    match ServerboundPingPacket::dec_end(d, q) {
                        Some(_end) => exists|pk: ServerboundPingPacket|
                            #[trigger] ServerboundPingPacket::decodes_to(d, q, &pk) && handler.on_ping_spec(
                                *old(connection),
                                pk,
                                *final(connection),
                                r,
                            ),
                        None => r is Err && *final(connection) == *old(connection),
                    }
                } else {
                    handler.on_unknown_spec(*old(connection), id, *final(connection)) && r is Ok
                }
            } else {
                r is Err && *final(connection) == *old(connection)
            }
        }),
{
    let ghost d = buf@.data;
    let ghost p = buf@.read;
    let id = match buf.read_var_int() {
        Ok(v) => v,
        Err(e) => {
            return Err(e);
        },
    };
    let ghost q = buf@.read;
            if id == ServerboundStatusRequestPacket::id() {
            let pk = match ServerboundStatusRequestPacket::read(buf) {
                Ok(pk) => pk,
                Err(e) => {
                    return Err(e);
                },
            };
            let r = handler.on_status_request(connection, pk);
            proof {
                assert(exists|pk2: ServerboundStatusRequestPacket|
                    #[trigger] ServerboundStatusRequestPacket::decodes_to(d, q, &pk2) && handler.on_status_request_spec(
                        *old(connection),
                        pk2,
                        *final(connection),
                        r,
                    ));
            }
            r
        } else if id == ServerboundPingPacket::id() {
            let pk = match ServerboundPingPacket::read(buf) {
                Ok(pk) => pk,
                Err(e) => {
                    return Err(e);
                },
            };
            let r = handler.on_ping(connection, pk);
            proof {
                assert(exists|pk2: ServerboundPingPacket|
                    #[trigger] ServerboundPingPacket::decodes_to(d, q, &pk2) && handler.on_ping_spec(
                        *old(connection),
                        pk2,
                        *final(connection),
                        r,
                    ));
            }
            r
        } else {
            handler.on_unknown(connection, id, buf);
            Ok(())
        }
}

pub trait StatusClientboundHandler {
    type ClientType;

    /// What `on_status_response` did to the connection, defined by the implementor.
    spec fn on_status_response_spec(
        &self,
        pre: Self::ClientType,
        packet: ClientboundStatusResponsePacket,
        post: Self::ClientType,
        r: BufferResult<()>,
    ) -> bool;
    /// What `on_pong` did to the connection, defined by the implementor.
    spec fn on_pong_spec(
        &self,
        pre: Self::ClientType,
        packet: ClientboundPongPacket,
        post: Self::ClientType,
        r: BufferResult<()>,
    ) -> bool;
    /// What the fallback did to the connection.
    spec fn on_unknown_spec(&self, pre: Self::ClientType, id: i32, post: Self::ClientType) -> bool;

    fn on_status_response(&self, connection: &mut Self::ClientType, packet: ClientboundStatusResponsePacket) -> (r: BufferResult<()>)
        ensures
            self.on_status_response_spec(*old(connection), packet, *final(connection), r),
    ;
    fn on_pong(&self, connection: &mut Self::ClientType, packet: ClientboundPongPacket) -> (r: BufferResult<()>)
        ensures
            self.on_pong_spec(*old(connection), packet, *final(connection), r),
    ;
    /// The fallback for unrecognized packet ids: receives the raw id and
    /// the still-undecoded payload buffer.
    fn on_unknown(&self, connection: &mut Self::ClientType, id: i32, buf: &mut McBuf)
        requires
            old(buf).wf(),
        ensures
            final(buf).wf(),
            self.on_unknown_spec(*old(connection), id, *final(connection)),
    ;
}

/// Reads the varint packet id at the front of `buf`, decodes the matched
/// Status clientbound packet and invokes its callback; an
/// unmatched id goes to the fallback. A decode failure leaves the
/// connection untouched and is reported to the caller.
pub fn handle_status_clientbound<H: StatusClientboundHandler>(
    connection: &mut H::ClientType,
    buf: &mut McBuf,
    handler: &H,
) -> (r: BufferResult<()>)
    requires
        old(buf).wf(),
    ensures
        final(buf).wf(),
        ({
            let d = old(buf)@.data;
            let p = old(buf)@.read;
            if varint_at(d, p) {
                let id = varint_value(d, p);
                let q = p + (varint_size(d, p, 5)->Some_0);
                if id == ClientboundStatusResponsePacket::spec_id() {
                    match ClientboundStatusResponsePacket::dec_end(d, q) {
                        Some(_end) => exists|pk: ClientboundStatusResponsePacket|
                            #[trigger] ClientboundStatusResponsePacket::decodes_to(d, q, &pk) && handler.on_status_response_spec(
                                *old(connection),
                                pk,
                                *final(connection),
                                r,
                            ),
                        None => r is Err && *final(connection) == *old(connection),
                    }
                } else if id == ClientboundPongPacket::spec_id() {
                    match ClientboundPongPacket::dec_end(d, q) {
                        Some(_end) => exists|pk: ClientboundPongPacket|
                            #[trigger] ClientboundPongPacket::decodes_to(d, q, &pk) && handler.on_pong_spec(
                                *old(connection),
                                pk,
                                *final(connection),
                                r,
                            ),
                        None => r is Err && *final(connection) == *old(connection),
                    }
                } else {
                    handler.on_unknown_spec(*old(connection), id, *final(connection)) && r is Ok
                }
            } else {
                r is Err && *final(connection) == *old(connection)
            }
        }),
{
    let ghost d = buf@.data;
    let ghost p = buf@.read;
    let id = match buf.read_var_int() {
        Ok(v) => v,
        Err(e) => {
            return Err(e);
        },
    };
    let ghost q = buf@.read;
            if id == ClientboundStatusResponsePacket::id() {
            let pk = match ClientboundStatusResponsePacket::read(buf) {
                Ok(pk) => pk,
                Err(e) => {
                    return Err(e);
                },
            };
            let r = handler.on_status_response(connection, pk);
            proof {
                assert(exists|pk2: ClientboundStatusResponsePacket|
                    #[trigger] ClientboundStatusResponsePacket::decodes_to(d, q, &pk2) && handler.on_status_response_spec(
                        *old(connection),
                        pk2,
                        *final(connection),
                        r,
                    ));
            }
            r
        } else if id == ClientboundPongPacket::id() {
            let pk = match ClientboundPongPacket::read(buf) {
                Ok(pk) => pk,
                Err(e) => {
                    return Err(e);
                },
            };
            let r = handler.on_pong(connection, pk);
            proof {
                assert(exists|pk2: ClientboundPongPacket|
                    #[trigger] ClientboundPongPacket::decodes_to(d, q, &pk2) && handler.on_pong_spec(
                        *old(connection),
                        pk2,
                        *final(connection),
                        r,
                    ));
            }
            r
        } else {
            handler.on_unknown(connection, id, buf);
            Ok(())
        }
}

pub trait LoginServerboundHandler {
    type ClientType;

    /// What `on_login_start` did to the connection, defined by the implementor.
    spec fn on_login_start_spec(
        &self,
        pre: Self::ClientType,
        packet: ServerboundLoginStartPacket,
        post: Self::ClientType,
        r: BufferResult<()>,
    ) -> bool;
    /// What `on_login_acknowledged` did to the connection, defined by the implementor.
    spec fn on_login_acknowledged_spec(
        &self,
        pre: Self::ClientType,
        packet: ServerboundLoginAcknowledgedPacket,
        post: Self::ClientType,
        r: BufferResult<()>,
    ) -> bool;
    /// What the fallback did to the connection.
    spec fn on_unknown_spec(&self, pre: Self::ClientType, id: i32, post: Self::ClientType) -> bool;

    fn on_login_start(&self, connection: &mut Self::ClientType, packet: ServerboundLoginStartPacket) -> (r: BufferResult<()>)
        ensures
            self.on_login_start_spec(*old(connection), packet, *final(connection), r),
    ;
    fn on_login_acknowledged(&self, connection: &mut Self::ClientType, packet: ServerboundLoginAcknowledgedPacket) -> (r: BufferResult<()>)
        ensures
            self.on_login_acknowledged_spec(*old(connection), packet, *final(connection), r),
    ;
    /// The fallback for unrecognized packet ids: receives the raw id and
    /// the still-undecoded payload buffer.
    fn on_unknown(&self, connection: &mut Self::ClientType, id: i32, buf: &mut McBuf)
        requires
            old(buf).wf(),
        ensures
            final(buf).wf(),
            self.on_unknown_spec(*old(connection), id, *final(connection)),
    ;
}

/// Reads the varint packet id at the front of `buf`, decodes the matched
/// Login serverbound packet and invokes its callback; an
/// unmatched id goes to the fallback. A decode failure leaves the
/// connection untouched and is reported to the caller.
pub fn handle_login_serverbound<H: LoginServerboundHandler>(
    connection: &mut H::ClientType,
    buf: &mut McBuf,
    handler: &H,
) -> (r: BufferResult<()>)
    requires
        old(buf).wf(),
    ensures
        final(buf).wf(),
        ({
            let d = old(buf)@.data;
            let p = old(buf)@.read;
            if varint_at(d, p) {
                let id = varint_value(d, p);
                let q = p + (varint_size(d, p, 5)->Some_0);
                if id == ServerboundLoginStartPacket::spec_id() {
                    match ServerboundLoginStartPacket::dec_end(d, q) {
                        Some(_end) => exists|pk: ServerboundLoginStartPacket|
                            #[trigger] ServerboundLoginStartPacket::decodes_to(d, q, &pk) && handler.on_login_start_spec(
                                *old(connection),
                                pk,
                                *final(connection),
                                r,
                            ),
                        None => r is Err && *final(connection) == *old(connection),
                    }
                } else if id == ServerboundLoginAcknowledgedPacket::spec_id() {
                    match ServerboundLoginAcknowledgedPacket::dec_end(d, q) {
                        Some(_end) => exists|pk: ServerboundLoginAcknowledgedPacket|
                            #[trigger] ServerboundLoginAcknowledgedPacket::decodes_to(d, q, &pk) && handler.on_login_acknowledged_spec(
                                *old(connection),
                                pk,
                                *final(connection),
                                r,
                            ),
                        None => r is Err && *final(connection) == *old(connection),
                    }
                } else {
                    handler.on_unknown_spec(*old(connection), id, *final(connection)) && r is Ok
                }
            } else {
                r is Err && *final(connection) == *old(connection)
            }
        }),
{
    let ghost d = buf@.data;
    let ghost p = buf@.read;
    let id = match buf.read_var_int() {
        Ok(v) => v,
        Err(e) => {
            return Err(e);
        },
    };
    let ghost q = buf@.read;
            if id == ServerboundLoginStartPacket::id() {
            let pk = match ServerboundLoginStartPacket::read(buf) {
                Ok(pk) => pk,
                Err(e) => {
                    return Err(e);
                },
            };
            let r = handler.on_login_start(connection, pk);
            proof {
                assert(exists|pk2: ServerboundLoginStartPacket|
                    #[trigger] ServerboundLoginStartPacket::decodes_to(d, q, &pk2) && handler.on_login_start_spec(
                        *old(connection),
                        pk2,
                        *final(connection),
                        r,
                    ));
            }
            r
        } else if id == ServerboundLoginAcknowledgedPacket::id() {
            let pk = match ServerboundLoginAcknowledgedPacket::read(buf) {
                Ok(pk) => pk,
                Err(e) => {
                    return Err(e);
                },
            };
            let r = handler.on_login_acknowledged(connection, pk);
            proof {
                assert(exists|pk2: ServerboundLoginAcknowledgedPacket|
                    #[trigger] ServerboundLoginAcknowledgedPacket::decodes_to(d, q, &pk2) && handler.on_login_acknowledged_spec(
                        *old(connection),
                        pk2,
                        *final(connection),
                        r,
                    ));
            }
            r
        } else {
            handler.on_unknown(connection, id, buf);
            Ok(())
        }
}

pub trait LoginClientboundHandler {
    type ClientType;

    /// What `on_login_success` did to the connection, defined by the implementor.
    spec fn on_login_success_spec(
        &self,
        pre: Self::ClientType,
        packet: ClientboundLoginSuccessPacket,
        post: Self::ClientType,
        r: BufferResult<()>,
    ) -> bool;
    /// What the fallback did to the connection.
    spec fn on_unknown_spec(&self, pre: Self::ClientType, id: i32, post: Self::ClientType) -> bool;

    fn on_login_success(&self, connection: &mut Self::ClientType, packet: ClientboundLoginSuccessPacket) -> (r: BufferResult<()>)
        ensures
            self.on_login_success_spec(*old(connection), packet, *final(connection), r),
    ;
    /// The fallback for unrecognized packet ids: receives the raw id and
    /// the still-undecoded payload buffer.
    fn on_unknown(&self, connection: &mut Self::ClientType, id: i32, buf: &mut McBuf)
        requires
            old(buf).wf(),
        ensures
            final(buf).wf(),
            self.on_unknown_spec(*old(connection), id, *final(connection)),
    ;
}

/// Reads the varint packet id at the front of `buf`, decodes the matched
/// Login clientbound packet and invokes its callback; an
/// unmatched id goes to the fallback. A decode failure leaves the
/// connection untouched and is reported to the caller.
pub fn handle_login_clientbound<H: LoginClientboundHandler>(
    connection: &mut H::ClientType,
    buf: &mut McBuf,
    handler: &H,
) -> (r: BufferResult<()>)
    requires
        old(buf).wf(),
    ensures
        final(buf).wf(),
        ({
            let d = old(buf)@.data;
            let p = old(buf)@.read;
            if varint_at(d, p) {
                let id = varint_value(d, p);
                let q = p + (varint_size(d, p, 5)->Some_0);
                if id == ClientboundLoginSuccessPacket::spec_id() {
                    match ClientboundLoginSuccessPacket::dec_end(d, q) {
                        Some(_end) => exists|pk: ClientboundLoginSuccessPacket|
                            #[trigger] ClientboundLoginSuccessPacket::decodes_to(d, q, &pk) && handler.on_login_success_spec(
                                *old(connection),
                                pk,
                                *final(connection),
                                r,
                            ),
                        None => r is Err && *final(connection) == *old(connection),
                    }
                } else {
                    handler.on_unknown_spec(*old(connection), id, *final(connection)) && r is Ok
                }
            } else {
                r is Err && *final(connection) == *old(connection)
            }
        }),
{
    let ghost d = buf@.data;
    let ghost p = buf@.read;
    let id = match buf.read_var_int() {
        Ok(v) => v,
        Err(e) => {
            return Err(e);
        },
    };
    let ghost q = buf@.read;
            if id == ClientboundLoginSuccessPacket::id() {
            let pk = match ClientboundLoginSuccessPacket::read(buf) {
                Ok(pk) => pk,
                Err(e) => {
                    return Err(e);
                },
            };
            let r = handler.on_login_success(connection, pk);
            proof {
                assert(exists|pk2: ClientboundLoginSuccessPacket|
                    #[trigger] ClientboundLoginSuccessPacket::decodes_to(d, q, &pk2) && handler.on_login_success_spec(
                        *old(connection),
                        pk2,
                        *final(connection),
                        r,
                    ));
            }
            r
        } else {
            handler.on_unknown(connection, id, buf);
            Ok(())
        }
}

pub trait ConfigurationServerboundHandler {
    type ClientType;

    /// What `on_client_information` did to the connection, defined by the implementor.
    spec fn on_client_information_spec(
        &self,
        pre: Self::ClientType,
        packet: ServerboundClientInformationPacket,
        post: Self::ClientType,
        r: BufferResult<()>,
    ) -> bool;
    /// What `on_acknowledge_finish_configuration` did to the connection, defined by the implementor.
    spec fn on_acknowledge_finish_configuration_spec(
        &self,
        pre: Self::ClientType,
        packet: ServerboundAcknowledgeFinishConfigurationPacket,
        post: Self::ClientType,
        r: BufferResult<()>,
    ) -> bool;
    /// What `on_known_packs` did to the connection, defined by the implementor.
    spec fn on_known_packs_spec(
        &self,
        pre: Self::ClientType,
        packet: ServerboundKnownPacksPacket,
        post: Self::ClientType,
        r: BufferResult<()>,
    ) -> bool;
    /// What `on_accept_code_of_conduct` did to the connection, defined by the implementor.
    spec fn on_accept_code_of_conduct_spec(
        &self,
        pre: Self::ClientType,
        packet: ServerboundAcceptCodeOfConductPacket,
        post: Self::ClientType,
        r: BufferResult<()>,
    ) -> bool;
    /// What `on_configuration_keep_alive_response` did to the connection, defined by the implementor.
    spec fn on_configuration_keep_alive_response_spec(
        &self,
        pre: Self::ClientType,
        packet: ServerboundConfigurationKeepAliveResponsePacket,
        post: Self::ClientType,
        r: BufferResult<()>,
    ) -> bool;
    /// What the fallback did to the connection.
    spec fn on_unknown_spec(&self, pre: Self::ClientType, id: i32, post: Self::ClientType) -> bool;

    fn on_client_information(&self, connection: &mut Self::ClientType, packet: ServerboundClientInformationPacket) -> (r: BufferResult<()>)
        ensures
            self.on_client_information_spec(*old(connection), packet, *final(connection), r),
    ;
    fn on_acknowledge_finish_configuration(&self, connection: &mut Self::ClientType, packet: ServerboundAcknowledgeFinishConfigurationPacket) -> (r: BufferResult<()>)
        ensures
            self.on_acknowledge_finish_configuration_spec(*old(connection), packet, *final(connection), r),
    ;
    fn on_known_packs(&self, connection: &mut Self::ClientType, packet: ServerboundKnownPacksPacket) -> (r: BufferResult<()>)
        ensures
            self.on_known_packs_spec(*old(connection), packet, *final(connection), r),
    ;
    fn on_accept_code_of_conduct(&self, connection: &mut Self::ClientType, packet: ServerboundAcceptCodeOfConductPacket) -> (r: BufferResult<()>)
        ensures
            self.on_accept_code_of_conduct_spec(*old(connection), packet, *final(connection), r),
    ;
    fn on_configuration_keep_alive_response(&self, connection: &mut Self::ClientType, packet: ServerboundConfigurationKeepAliveResponsePacket) -> (r: BufferResult<()>)
        ensures
            self.on_configuration_keep_alive_response_spec(*old(connection), packet, *final(connection), r),
    ;
    /// The fallback for unrecognized packet ids: receives the raw id and
    /// the still-undecoded payload buffer.
    fn on_unknown(&self, connection: &mut Self::ClientType, id: i32, buf: &mut McBuf)
        requires
            old(buf).wf(),
        ensures
            final(buf).wf(),
            self.on_unknown_spec(*old(connection), id, *final(connection)),
    ;
}

/// Reads the varint packet id at the front of `buf`, decodes the matched
/// Configuration serverbound packet and invokes its callback; an
/// unmatched id goes to the fallback. A decode failure leaves the
/// connection untouched and is reported to the caller.
pub fn handle_configuration_serverbound<H: ConfigurationServerboundHandler>(
    connection: &mut H::ClientType,
    buf: &mut McBuf,
    handler: &H,
) -> (r: BufferResult<()>)
    requires
        old(buf).wf(),
    ensures
        final(buf).wf(),
        ({
            let d = old(buf)@.data;
            let p = old(buf)@.read;
            if varint_at(d, p) {
                let id = varint_value(d, p);
                let q = p + (varint_size(d, p, 5)->Some_0);
                if id == ServerboundClientInformationPacket::spec_id() {
                    match ServerboundClientInformationPacket::dec_end(d, q) {
                        Some(_end) => exists|pk: ServerboundClientInformationPacket|
                            #[trigger] ServerboundClientInformationPacket::decodes_to(d, q, &pk) && handler.on_client_information_spec(
                                *old(connection),
                                pk,
                                *final(connection),
                                r,
                            ),
                        None => r is Err && *final(connection) == *old(connection),
                    }
                } else if id == ServerboundAcknowledgeFinishConfigurationPacket::spec_id() {
                    match ServerboundAcknowledgeFinishConfigurationPacket::dec_end(d, q) {
                        Some(_end) => exists|pk: ServerboundAcknowledgeFinishConfigurationPacket|
                            #[trigger] ServerboundAcknowledgeFinishConfigurationPacket::decodes_to(d, q, &pk) && handler.on_acknowledge_finish_configuration_spec(
                                *old(connection),
                                pk,
                                *final(connection),
                                r,
                            ),
                        None => r is Err && *final(connection) == *old(connection),
                    }
                } else if id == ServerboundKnownPacksPacket::spec_id() {
                    match ServerboundKnownPacksPacket::dec_end(d, q) {
                        Some(_end) => exists|pk: ServerboundKnownPacksPacket|
                            #[trigger] ServerboundKnownPacksPacket::decodes_to(d, q, &pk) && handler.on_known_packs_spec(
                                *old(connection),
                                pk,
                                *final(connection),
                                r,
                            ),
                        None => r is Err && *final(connection) == *old(connection),
                    }
                } else if id == ServerboundAcceptCodeOfConductPacket::spec_id() {
                    match ServerboundAcceptCodeOfConductPacket::dec_end(d, q) {
                        Some(_end) => exists|pk: ServerboundAcceptCodeOfConductPacket|
                            #[trigger] ServerboundAcceptCodeOfConductPacket::decodes_to(d, q, &pk) && handler.on_accept_code_of_conduct_spec(
                                *old(connection),
                                pk,
                                *final(connection),
                                r,
                            ),
                        None => r is Err && *final(connection) == *old(connection),
                    }
                } else if id == ServerboundConfigurationKeepAliveResponsePacket::spec_id() {
                    match ServerboundConfigurationKeepAliveResponsePacket::dec_end(d, q) {
                        Some(_end) => exists|pk: ServerboundConfigurationKeepAliveResponsePacket|
                            #[trigger] ServerboundConfigurationKeepAliveResponsePacket::decodes_to(d, q, &pk) && handler.on_configuration_keep_alive_response_spec(
                                *old(connection),
                                pk,
                                *final(connection),
                                r,
                            ),
                        None => r is Err && *final(connection) == *old(connection),
                    }
                } else {
                    handler.on_unknown_spec(*old(connection), id, *final(connection)) && r is Ok
                }
            } else {
                r is Err && *final(connection) == *old(connection)
            }
        }),
{
    let ghost d = buf@.data;
    let ghost p = buf@.read;
    let id = match buf.read_var_int() {
        Ok(v) => v,
        Err(e) => {
            return Err(e);
        },
    };
    let ghost q = buf@.read;
            if id == ServerboundClientInformationPacket::id() {
            let pk = match ServerboundClientInformationPacket::read(buf) {
                Ok(pk) => pk,
                Err(e) => {
                    return Err(e);
                },
            };
            let r = handler.on_client_information(connection, pk);
            proof {
                assert(exists|pk2: ServerboundClientInformationPacket|
                    #[trigger] ServerboundClientInformationPacket::decodes_to(d, q, &pk2) && handler.on_client_information_spec(
                        *old(connection),
                        pk2,
                        *final(connection),
                        r,
                    ));
            }
            r
        } else if id == ServerboundAcknowledgeFinishConfigurationPacket::id() {
            let pk = match ServerboundAcknowledgeFinishConfigurationPacket::read(buf) {
                Ok(pk) => pk,
                Err(e) => {
                    return Err(e);
                },
            };
            let r = handler.on_acknowledge_finish_configuration(connection, pk);
            proof {
                assert(exists|pk2: ServerboundAcknowledgeFinishConfigurationPacket|
                    #[trigger] ServerboundAcknowledgeFinishConfigurationPacket::decodes_to(d, q, &pk2) && handler.on_acknowledge_finish_configuration_spec(
                        *old(connection),
                        pk2,
                        *final(connection),
                        r,
                    ));
            }
            r
        } else if id == ServerboundKnownPacksPacket::id() {
            let pk = match ServerboundKnownPacksPacket::read(buf) {
                Ok(pk) => pk,
                Err(e) => {
                    return Err(e);
                },
            };
            let r = handler.on_known_packs(connection, pk);
            proof {
                assert(exists|pk2: ServerboundKnownPacksPacket|
                    #[trigger] ServerboundKnownPacksPacket::decodes_to(d, q, &pk2) && handler.on_known_packs_spec(
                        *old(connection),
                        pk2,
                        *final(connection),
                        r,
                    ));
            }
            r
        } else if id == ServerboundAcceptCodeOfConductPacket::id() {
            let pk = match ServerboundAcceptCodeOfConductPacket::read(buf) {
                Ok(pk) => pk,
                Err(e) => {
                    return Err(e);
                },
            };
            let r = handler.on_accept_code_of_conduct(connection, pk);
            proof {
                assert(exists|pk2: ServerboundAcceptCodeOfConductPacket|
                    #[trigger] ServerboundAcceptCodeOfConductPacket::decodes_to(d, q, &pk2) && handler.on_accept_code_of_conduct_spec(
                        *old(connection),
                        pk2,
                        *final(connection),
                        r,
                    ));
            }
            r
        } else if id == ServerboundConfigurationKeepAliveResponsePacket::id() {
            let pk = match ServerboundConfigurationKeepAliveResponsePacket::read(buf) {
                Ok(pk) => pk,
                Err(e) => {
                    return Err(e);
                },
            };
            let r = handler.on_configuration_keep_alive_response(connection, pk);
            proof {
                assert(exists|pk2: ServerboundConfigurationKeepAliveResponsePacket|
                    #[trigger] ServerboundConfigurationKeepAliveResponsePacket::decodes_to(d, q, &pk2) && handler.on_configuration_keep_alive_response_spec(
                        *old(connection),
                        pk2,
                        *final(connection),
                        r,
                    ));
            }
            r
        } else {
            handler.on_unknown(connection, id, buf);
            Ok(())
        }
}

} // verus!
