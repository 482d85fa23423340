//! Block positions and world locations. A position travels as one 64-bit
//! word holding the x, z and y fields at fixed bit offsets
//! (`x << 38 | z << 12 | y`).

use vstd::prelude::*;
use crate::buffer::{BufferResult, McBuf, NetworkType};
use crate::codec::{be8, be8_val, lemma_be8_round_trip, lemma_concat_split};
use crate::identifier::Identifier;

verus! {

/// A block position packed on the wire into one 64-bit word: 26 bits of x,
/// 26 bits of z, 12 bits of y.
#[derive(Debug, Clone, Copy, PartialEq, Eq, Structural)]
pub struct Position {
    pub x: i32,
    pub y: i32,
    pub z: i32,
}

impl Position {
    pub fn new(x: i32, y: i32, z: i32) -> (r: Self)
        ensures
            r == (Position { x, y, z }),
    {
        Position { x, y, z }
    }

    /// The packed 64-bit wire word of this position.
    pub open spec fn packed(self) -> u64 {
        ((((self.x & 0x3FFFFFF) as u64) << 38) | (((self.z & 0x3FFFFFF) as u64) << 12) | ((self.y
            & 0xFFF) as u64)) as u64
    }
}

impl NetworkType for Position {
    open spec fn wire(&self) -> Seq<u8> {
        be8(self.packed())
    }

    open spec fn dec_end(data: Seq<u8>, pos: int) -> Option<int> {
        if 0 <= pos && pos + 8 <= data.len() {
            Some(pos + 8)
        } else {
            None
        }
    }

    open spec fn decodes_to(data: Seq<u8>, pos: int, v: &Self) -> bool {
        0 <= pos && pos + 8 <= data.len() && {
            let packed = be8_val(data, pos);
            v.x == ((packed as i64) >> 38) as i32 && v.y == (((packed << 52) as i64) >> 52) as i32
                && v.z == (((packed << 26) as i64) >> 38) as i32
        }
    }

    /// The fields are signed, so every position whose coordinates fit the
    /// 26/26/12-bit fields travels losslessly.
    open spec fn wire_ok(&self) -> bool {
        -0x2000000 <= self.x < 0x2000000 && -0x2000000 <= self.z < 0x2000000 && -0x800 <= self.y
            < 0x800
    }

    fn read(buf: &mut McBuf) -> (r: BufferResult<Self>) {
        let packed = match buf.read_ulong() {
            Ok(v) => v,
            Err(e) => {
                return Err(e);
            },
        };
        Ok(
            Position {
                x: ((packed as i64) >> 38) as i32,
                y: (((packed << 52) as i64) >> 52) as i32,
                z: (((packed << 26) as i64) >> 38) as i32,
            },
        )
    }

    fn write(&self, buf: &mut McBuf) {
        let packed = (((self.x & 0x3FFFFFF) as u64) << 38) | (((self.z & 0x3FFFFFF) as u64) << 12)
            | ((self.y & 0xFFF) as u64);
        buf.write_ulong(packed);
    }

    proof fn lemma_wire_round_trip(&self, data: Seq<u8>, pos: int) {
        lemma_be8_round_trip(data, pos, self.packed());
        let x = self.x;
        let y = self.y;
        let z = self.z;
        let packed = self.packed();
        assert(packed == ((((x & 0x3FFFFFF) as u64) << 38) | (((z & 0x3FFFFFF) as u64) << 12) | ((y
            & 0xFFF) as u64)) as u64);
        assert((((((((x & 0x3FFFFFF) as u64) << 38) | (((z & 0x3FFFFFF) as u64) << 12) | ((y
            & 0xFFF) as u64)) as u64) as i64) >> 38) as i32 == x && ((((((((x
            & 0x3FFFFFF) as u64) << 38) | (((z & 0x3FFFFFF) as u64) << 12) | ((y
            & 0xFFF) as u64)) as u64) << 52) as i64) >> 52) as i32 == y && ((((((((x
            & 0x3FFFFFF) as u64) << 38) | (((z & 0x3FFFFFF) as u64) << 12) | ((y
            & 0xFFF) as u64)) as u64) << 26) as i64) >> 38) as i32 == z) by (bit_vector)
            requires
                -0x2000000 <= x && x < 0x2000000 && -0x2000000 <= z && z < 0x2000000 && -0x800 <= y
                    && y < 0x800,
        ;
    }
}

/// A world identifier together with a position in that world.
#[derive(Debug, Clone)]
pub struct Location {
    pub world: Identifier,
    pub location: Position,
}

impl NetworkType for Location {
    open spec fn wire(&self) -> Seq<u8> {
        self.world.wire() + self.location.wire()
    }

    open spec fn dec_end(data: Seq<u8>, pos: int) -> Option<int> {
        match <Identifier as NetworkType>::dec_end(data, pos) {
            Some(p1) => <Position as NetworkType>::dec_end(data, p1),
            None => None,
        }
    }

    open spec fn decodes_to(data: Seq<u8>, pos: int, v: &Self) -> bool {
        match <Identifier as NetworkType>::dec_end(data, pos) {
            Some(p1) => <Identifier as NetworkType>::decodes_to(data, pos, &v.world) && <
                Position as NetworkType>::decodes_to(data, p1, &v.location),
            None => false,
        }
    }

    open spec fn wire_ok(&self) -> bool {
        self.world.wire_ok() && self.location.wire_ok()
    }

    fn read(buf: &mut McBuf) -> (r: BufferResult<Self>) {
        let world = match buf.read_network_type::<Identifier>() {
            Ok(v) => v,
            Err(e) => {
                return Err(e);
            },
        };
        let location = match buf.read_network_type::<Position>() {
            Ok(v) => v,
            Err(e) => {
                return Err(e);
            },
        };
        Ok(Location { world, location })
    }

    fn write(&self, buf: &mut McBuf) {
        buf.write_network_type(&self.world);
        buf.write_network_type(&self.location);
        proof {
            assert(buf@.data =~= old(buf)@.data + self.wire());
        }
    }

    proof fn lemma_wire_round_trip(&self, data: Seq<u8>, pos: int) {
        lemma_concat_split(data, pos, self.world.wire(), self.location.wire());
        self.world.lemma_wire_round_trip(data, pos);
        self.location.lemma_wire_round_trip(data, pos + self.world.wire().len());
    }
}

} // verus!
