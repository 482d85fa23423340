//! A 128-bit identity value carried on the wire as 16 big-endian bytes.

use vstd::prelude::*;
use crate::buffer::{BufferResult, McBuf, NetworkType};
use crate::codec::{be8, be8_val, lemma_be8_round_trip, lemma_concat_split};

verus! {

/// A universally unique identifier, stored as its most and least significant
/// 64-bit halves. The wire form is the 16 bytes, big-endian, most significant
/// half first.
#[derive(Debug, Clone, Copy, PartialEq, Eq, Hash, Structural)]
pub struct Uuid {
    pub msb: u64,
    pub lsb: u64,
}

impl Uuid {
    pub fn new(msb: u64, lsb: u64) -> (r: Self)
        ensures
            r.msb == msb,
            r.lsb == lsb,
    {
        Uuid { msb, lsb }
    }
}

impl NetworkType for Uuid {
    open spec fn wire(&self) -> Seq<u8> {
        be8(self.msb) + be8(self.lsb)
    }

    open spec fn dec_end(data: Seq<u8>, pos: int) -> Option<int> {
        if 0 <= pos && pos + 16 <= data.len() {
            Some(pos + 16)
        } else {
            None
        }
    }

    open spec fn decodes_to(data: Seq<u8>, pos: int, v: &Self) -> bool {
        0 <= pos && pos + 16 <= data.len() && v.msb == be8_val(data, pos) && v.lsb == be8_val(
            data,
            pos + 8,
        )
    }

    open spec fn wire_ok(&self) -> bool {
        true
    }

    fn read(buf: &mut McBuf) -> (r: BufferResult<Self>) {
        let msb = match buf.read_ulong() {
            Ok(v) => v,
            Err(e) => {
                return Err(e);
            },
        };
        let lsb = match buf.read_ulong() {
            Ok(v) => v,
            Err(e) => {
                return Err(e);
            },
        };
        Ok(Uuid { msb, lsb })
    }

    fn write(&self, buf: &mut McBuf) {
        buf.write_ulong(self.msb);
        buf.write_ulong(self.lsb);
        proof {
            assert(buf@.data =~= old(buf)@.data + self.wire());
        }
    }

    proof fn lemma_wire_round_trip(&self, data: Seq<u8>, pos: int) {
        lemma_concat_split(data, pos, be8(self.msb), be8(self.lsb));
        lemma_be8_round_trip(data, pos, self.msb);
        lemma_be8_round_trip(data, pos + 8, self.lsb);
    }
}

} // verus!
