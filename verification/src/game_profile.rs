//! Authenticated player identity records.

use vstd::prelude::*;
use crate::buffer::{BufferResult, McBuf, NetworkType};
use crate::codec::lemma_concat_split;
use crate::uuid::Uuid;

verus! {

/// One property of a game profile: a name, a value, and an optional
/// signature.
#[derive(Debug, Clone)]
pub struct GameProfileProperty {
    pub name: String,
    pub value: String,
    pub signature: Option<String>,
}

impl NetworkType for GameProfileProperty {
    open spec fn wire(&self) -> Seq<u8> {
        self.name.wire() + self.value.wire() + self.signature.wire()
    }

    open spec fn dec_end(data: Seq<u8>, pos: int) -> Option<int> {
        match <String as NetworkType>::dec_end(data, pos) {
            Some(p1) => match <String as NetworkType>::dec_end(data, p1) {
                Some(p2) => <Option<String> as NetworkType>::dec_end(data, p2),
                None => None,
            },
            None => None,
        }
    }

    open spec fn decodes_to(data: Seq<u8>, pos: int, v: &Self) -> bool {
        match <String as NetworkType>::dec_end(data, pos) {
            Some(p1) => <String as NetworkType>::decodes_to(data, pos, &v.name) && match <
                String as NetworkType>::dec_end(data, p1) {
                Some(p2) => <String as NetworkType>::decodes_to(data, p1, &v.value) && <Option<
                    String,
                > as NetworkType>::decodes_to(data, p2, &v.signature),
                None => false,
            },
            None => false,
        }
    }

    open spec fn wire_ok(&self) -> bool {
        self.name.wire_ok() && self.value.wire_ok() && self.signature.wire_ok()
    }

    fn read(buf: &mut McBuf) -> (r: BufferResult<Self>) {
        let name = match buf.read_network_type::<String>() {
            Ok(v) => v,
            Err(e) => {
                return Err(e);
            },
        };
        let value = match buf.read_network_type::<String>() {
            Ok(v) => v,
            Err(e) => {
                return Err(e);
            },
        };
        let signature = match buf.read_network_type::<Option<String>>() {
            Ok(v) => v,
            Err(e) => {
                return Err(e);
            },
        };
        Ok(GameProfileProperty { name, value, signature })
    }

    fn write(&self, buf: &mut McBuf) {
        buf.write_network_type(&self.name);
        buf.write_network_type(&self.value);
        buf.write_network_type(&self.signature);
        proof {
            assert(buf@.data =~= old(buf)@.data + self.wire());
        }
    }

    proof fn lemma_wire_round_trip(&self, data: Seq<u8>, pos: int) {
        lemma_concat_split(
            data,
            pos,
            self.name.wire() + self.value.wire(),
            self.signature.wire(),
        );
        lemma_concat_split(data, pos, self.name.wire(), self.value.wire());
        self.name.lemma_wire_round_trip(data, pos);
        let p1 = pos + self.name.wire().len();
        self.value.lemma_wire_round_trip(data, p1);
        let p2 = p1 + self.value.wire().len();
        self.signature.lemma_wire_round_trip(data, p2);
    }
}

/// A player identity: its unique id, username, and properties.
#[derive(Debug, Clone)]
pub struct GameProfile {
    pub uuid: Uuid,
    pub username: String,
    pub properties: Vec<GameProfileProperty>,
}

impl NetworkType for GameProfile {
    open spec fn wire(&self) -> Seq<u8> {
        self.uuid.wire() + self.username.wire() + self.properties.wire()
    }

    open spec fn dec_end(data: Seq<u8>, pos: int) -> Option<int> {
        match <Uuid as NetworkType>::dec_end(data, pos) {
            Some(p1) => match <String as NetworkType>::dec_end(data, p1) {
                Some(p2) => <Vec<GameProfileProperty> as NetworkType>::dec_end(data, p2),
                None => None,
            },
            None => None,
        }
    }

    open spec fn decodes_to(data: Seq<u8>, pos: int, v: &Self) -> bool {
        match <Uuid as NetworkType>::dec_end(data, pos) {
            Some(p1) => <Uuid as NetworkType>::decodes_to(data, pos, &v.uuid) && match <
                String as NetworkType>::dec_end(data, p1) {
                Some(p2) => <String as NetworkType>::decodes_to(data, p1, &v.username) && <Vec<
                    GameProfileProperty,
                > as NetworkType>::decodes_to(data, p2, &v.properties),
                None => false,
            },
            None => false,
        }
    }

    open spec fn wire_ok(&self) -> bool {
        self.uuid.wire_ok() && self.username.wire_ok() && self.properties.wire_ok()
    }

    fn read(buf: &mut McBuf) -> (r: BufferResult<Self>) {
        let uuid = match buf.read_network_type::<Uuid>() {
            Ok(v) => v,
            Err(e) => {
                return Err(e);
            },
        };
        let username = match buf.read_network_type::<String>() {
            Ok(v) => v,
            Err(e) => {
                return Err(e);
            },
        };
        let properties = match buf.read_network_type::<Vec<GameProfileProperty>>() {
            Ok(v) => v,
            Err(e) => {
                return Err(e);
            },
        };
        Ok(GameProfile { uuid, username, properties })
    }

    fn write(&self, buf: &mut McBuf) {
        buf.write_network_type(&self.uuid);
        buf.write_network_type(&self.username);
        buf.write_network_type(&self.properties);
        proof {
            assert(buf@.data =~= old(buf)@.data + self.wire());
        }
    }

    proof fn lemma_wire_round_trip(&self, data: Seq<u8>, pos: int) {
        lemma_concat_split(
            data,
            pos,
            self.uuid.wire() + self.username.wire(),
            self.properties.wire(),
        );
        lemma_concat_split(data, pos, self.uuid.wire(), self.username.wire());
        self.uuid.lemma_wire_round_trip(data, pos);
        let p1 = pos + self.uuid.wire().len();
        self.username.lemma_wire_round_trip(data, p1);
        let p2 = p1 + self.username.wire().len();
        self.properties.lemma_wire_round_trip(data, p2);
    }
}

} // verus!
