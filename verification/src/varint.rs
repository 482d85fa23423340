//! A 32-bit integer that travels on the wire in varint form, for use as a
//! field or sequence element wherever the variable-length encoding is wanted.

use vstd::prelude::*;
use crate::buffer::{BufferResult, McBuf, NetworkType};
use crate::codec::{varint_bytes, varint_size, varint_val32, lemma_varint_len,
    lemma_varint_round_trip};

verus! {

#[derive(Debug, Clone, Copy, PartialEq, Eq, Structural)]
pub struct VarInt(pub i32);

impl From<i32> for VarInt {
    fn from(value: i32) -> (r: Self) {
        VarInt(value)
    }
}

impl vstd::std_specs::convert::FromSpecImpl<i32> for VarInt {
    open spec fn obeys_from_spec() -> bool {
        true
    }

    open spec fn from_spec(value: i32) -> Self {
        VarInt(value)
    }
}

impl From<VarInt> for i32 {
    fn from(value: VarInt) -> (r: Self) {
        value.0
    }
}

impl vstd::std_specs::convert::FromSpecImpl<VarInt> for i32 {
    open spec fn obeys_from_spec() -> bool {
        true
    }

    open spec fn from_spec(value: VarInt) -> Self {
        value.0
    }
}

impl NetworkType for VarInt {
    open spec fn wire(&self) -> Seq<u8> {
        varint_bytes(self.0 as u32)
    }

    open spec fn dec_end(data: Seq<u8>, pos: int) -> Option<int> {
        match varint_size(data, pos, 5) {
            Some(sz) => Some(pos + sz),
            None => None,
        }
    }

    open spec fn decodes_to(data: Seq<u8>, pos: int, v: &Self) -> bool {
        match varint_size(data, pos, 5) {
            Some(sz) => v.0 == varint_val32(data, pos, sz) as i32,
            None => false,
        }
    }

    open spec fn wire_ok(&self) -> bool {
        true
    }

    fn read(buf: &mut McBuf) -> (r: BufferResult<Self>) {
        match buf.read_var_int() {
            Ok(value) => Ok(VarInt(value)),
            Err(e) => Err(e),
        }
    }

    fn write(&self, buf: &mut McBuf) {
        buf.write_var_int(self.0);
    }

    proof fn lemma_wire_round_trip(&self, data: Seq<u8>, pos: int) {
        lemma_varint_len(self.0 as u32);
        lemma_varint_round_trip(data, pos, self.0 as u32, 5);
        let x = self.0;
        assert((x as u32) as i32 == x) by (bit_vector);
    }
}

} // verus!
