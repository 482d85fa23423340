//! The packet framer: reassembles an inbound byte stream into discrete
//! length-prefixed frames. Bytes are accumulated until a complete varint
//! length prefix and that many payload bytes are present; extraction then
//! consumes exactly the prefix and the payload, and a partial frame is
//! retained untouched for the next attempt.

use vstd::prelude::*;
use crate::buffer::McBuf;
use crate::codec::{varint_at, varint_size, varint_val32, varint_value,
    lemma_varint_size_terminated, lemma_varint_size_overflow, lemma_varint_size_underflow,
    lemma_varint_val32_extend};

verus! {

/// The byte count of the varint length prefix at the front of the stream
/// (meaningful when `varint_at(d, 0)` holds).
pub open spec fn frame_prefix_size(d: Seq<u8>) -> int {
    varint_size(d, 0, 5)->Some_0
}

/// The declared payload length at the front of the stream, read as a signed
/// 32-bit value.
pub open spec fn frame_len(d: Seq<u8>) -> int {
    varint_value(d, 0) as int
}

/// A complete frame sits at the front of the stream: a full varint prefix
/// declaring a non-negative length, and at least that many payload bytes
/// after it.
pub open spec fn frame_ready(d: Seq<u8>) -> bool {
    varint_at(d, 0) && 0 <= frame_len(d) && frame_prefix_size(d) + frame_len(d) <= d.len()
}

/// Accumulates inbound bytes and yields one complete frame at a time.
pub struct PacketReader {
    data: Vec<u8>,
}

impl View for PacketReader {
    type V = Seq<u8>;

    closed spec fn view(&self) -> Seq<u8> {
        self.data@
    }
}

impl PacketReader {
    pub fn new() -> (r: Self)
        ensures
            r@ == Seq::<u8>::empty(),
    {
        PacketReader { data: Vec::new() }
    }

    /// Feeds freshly received bytes into the accumulation buffer.
    pub fn append(&mut self, bytes: &[u8])
        ensures
            final(self)@ == old(self)@ + bytes@,
    {
        self.data.extend_from_slice(bytes);
    }

    /// Decodes the varint at `start_index` without consuming anything,
    /// returning its value and its byte count once it is complete.
    fn try_read_varint(&self, start_index: usize) -> (r: Option<(i32, usize)>)
        requires
            start_index <= self@.len(),
        ensures
            r is Some <==> varint_size(self@, start_index as int, 5) is Some,
            r matches Some(t) ==> varint_size(self@, start_index as int, 5) == Some(t.1 as int)
                && t.0 == varint_val32(self@, start_index as int, t.1 as int) as i32 && start_index
                + t.1 <= self@.len() && t.1 >= 1,
    {
        let ghost d = self@;
        let ghost p = start_index as int;
        let mut i: u32 = 0;
        let mut index: usize = 0;
        loop
            invariant
                d == self@,
                p == start_index as int,
                0 <= index <= 5,
                p + index <= d.len(),
                i == varint_val32(d, p, index as int),
                forall|j: int| p <= j < p + index ==> d[j] >= 0x80,
            decreases 5 - index,
        {
            if index >= 5 {
                proof {
                    lemma_varint_size_overflow(d, p, 5);
                }
                return None;
            }
            if index >= self.data.len() - start_index {
                proof {
                    lemma_varint_size_underflow(d, p, 5);
                }
                return None;
            }
            let byte = self.data[start_index + index];
            proof {
                lemma_varint_val32_extend(d, p, index as int);
            }
            proof {
                assert((byte & 0x80 == 0) <==> byte < 0x80) by (bit_vector);
            }
            i = i | (((byte & 0x7f) as u32) << (7 * (index as u32)));
            index = index + 1;
            if byte & 0x80 == 0 {
                proof {
                    lemma_varint_size_terminated(d, p, index - 1, 5);
                }
                return Some((i as i32, index));
            }
        }
    }

    /// Extracts the frame at the front of the stream, if one is complete:
    /// consumes exactly the length prefix and the payload, and hands the
    /// payload back as an independent buffer positioned at its start. When
    /// no complete frame is available, nothing is consumed.
    pub fn read_packet(&mut self) -> (r: Option<McBuf>)
        ensures
            r is Some <==> frame_ready(old(self)@),
            r matches Some(frame) ==> frame.wf() && frame@.read == 0 && frame@.data == old(
                self,
            )@.subrange(
                frame_prefix_size(old(self)@),
                frame_prefix_size(old(self)@) + frame_len(old(self)@),
            ) && final(self)@ == old(self)@.skip(
                frame_prefix_size(old(self)@) + frame_len(old(self)@),
            ),
            r is Some ==> final(self)@.len() < old(self)@.len(),
            r is None ==> *final(self) == *old(self),
    {
        let (length_signed, offset) = match self.try_read_varint(0) {
            Some(t) => t,
            None => {
                return None;
            },
        };
        if length_signed < 0 {
            return None;
        }
        let length = length_signed as usize;
        if self.data.len() - offset < length {
            return None;
        }
        let ghost d0 = self@;
        let mut payload = self.data.split_off(offset);
        let rest = payload.split_off(length);
        let frame = McBuf::from_bytes(payload.as_slice());
        self.data = rest;
        proof {
            assert(frame@.data =~= d0.subrange(
                frame_prefix_size(d0),
                frame_prefix_size(d0) + frame_len(d0),
            ));
            assert(self@ =~= d0.skip(frame_prefix_size(d0) + frame_len(d0)));
        }
        Some(frame)
    }
}

} // verus!
