//! The wire buffer: a growable byte sequence with a read cursor and a write
//! cursor, offering big-endian fixed-width codecs, varint/varlong codecs and
//! the length-prefixed string codec, plus the serialization capability trait.

use vstd::prelude::*;
use vstd::utf8::{decode_utf8, valid_utf8};
use crate::codec::{be2, be4, be8, be2_val, be4_val, be8_val, lemma_cast_u32_round_trip,
    varint_bytes, varlong_bytes,
    varint_size, varint_val32, varint_val64, varint_value, varint_at, varlong_at,
    varint_overflows,
    lemma_varint_val32_extend, lemma_varint_val64_extend, lemma_varint_size_terminated,
    lemma_varint_size_overflow, lemma_varint_size_underflow};

verus! {

/// Errors of the buffer and codec layer. All failures are reported as
/// values; no read ever panics or touches bytes out of bounds.
#[derive(Debug)]
pub enum BufferError {
    /// A read past the available bytes.
    BufferUnderflow,
    /// A declared or decoded string length exceeds the caller's maximum.
    StringTooLong,
    /// String bytes are not valid UTF-8.
    StringDecodeError,
    /// More varint continuation groups than the format's 5/10-group bound.
    VarIntOverflow,
    /// Catch-all, e.g. an unknown tag in a nested format.
    Generic(&'static str),
}

pub type BufferResult<T> = Result<T, BufferError>;

/// The abstract state of a wire buffer: its bytes and both cursors.
pub ghost struct BufView {
    pub data: Seq<u8>,
    pub read: int,
    pub write: int,
}

/// A byte buffer with independent read and write cursors. All writes append
/// at the end; reads consume from the read cursor.
#[derive(Debug)]
pub struct McBuf {
    data: Vec<u8>,
    read_index: usize,
    write_index: usize,
}

impl View for McBuf {
    type V = BufView;

    closed spec fn view(&self) -> BufView {
        BufView {
            data: self.data@,
            read: self.read_index as int,
            write: self.write_index as int,
        }
    }
}

impl McBuf {
    /// Well-formed: the read cursor never passes the end, and the write
    /// cursor sits at the end (all writes append).
    pub open spec fn wf(self) -> bool {
        0 <= self@.read <= self@.data.len() && self@.write == self@.data.len()
    }

    pub fn new() -> (r: Self)
        ensures
            r.wf(),
            r@.data == Seq::<u8>::empty(),
            r@.read == 0,
    {
        McBuf { data: Vec::new(), read_index: 0, write_index: 0 }
    }

    pub fn from_bytes(bytes: &[u8]) -> (r: Self)
        ensures
            r.wf(),
            r@.data == bytes@,
            r@.read == 0,
    {
        let data = vstd::slice::slice_to_vec(bytes);
        let n = data.len();
        McBuf { data, read_index: 0, write_index: n }
    }

    pub fn write_u8(&mut self, value: u8)
        requires
            old(self).wf(),
        ensures
            final(self).wf(),
            final(self)@.read == old(self)@.read,
            final(self)@.data == old(self)@.data.push(value),
    {
        self.data.push(value);
        self.write_index = self.data.len();
    }

    pub fn write_slice(&mut self, value: &[u8])
        requires
            old(self).wf(),
        ensures
            final(self).wf(),
            final(self)@.read == old(self)@.read,
            final(self)@.data == old(self)@.data + value@,
    {
        self.data.extend_from_slice(value);
        self.write_index = self.data.len();
    }

    pub fn read_u8(&mut self) -> (r: BufferResult<u8>)
        requires
            old(self).wf(),
        ensures
            final(self).wf(),
            final(self)@.data == old(self)@.data,
            final(self)@.write == old(self)@.write,
            r is Ok <==> old(self)@.read < old(self)@.data.len(),
            r matches Ok(b) ==> b == old(self)@.data[old(self)@.read] && final(self)@.read == old(self)@.read + 1,
            r is Err ==> r == Err::<u8, BufferError>(BufferError::BufferUnderflow) && *final(self)
                == *old(self),
    {
        if self.read_index >= self.data.len() {
            return Err(BufferError::BufferUnderflow);
        }
        let dat = self.data[self.read_index];
        self.read_index = self.read_index + 1;
        Ok(dat)
    }

    /// Reads `length` bytes as an owned vector; fails without moving the
    /// cursor when fewer bytes remain.
    pub fn read_dyn_array(&mut self, length: usize) -> (r: BufferResult<Vec<u8>>)
        requires
            old(self).wf(),
        ensures
            final(self).wf(),
            final(self)@.data == old(self)@.data,
            final(self)@.write == old(self)@.write,
            r is Ok <==> old(self)@.read + length <= old(self)@.data.len(),
            r matches Ok(v) ==> v@ == old(self)@.data.subrange(
                old(self)@.read,
                old(self)@.read + length,
            ) && final(self)@.read == old(self)@.read + length,
            r is Err ==> r == Err::<Vec<u8>, BufferError>(BufferError::BufferUnderflow) && final(self)@.read == old(self)@.read,
    {
        if self.data.len() - self.read_index < length {
            return Err(BufferError::BufferUnderflow);
        }
        let mut out: Vec<u8> = Vec::new();
        let mut i: usize = 0;
        while i < length
            invariant
                self == old(self),
                self.wf(),
                i <= length,
                self@.read + length <= self@.data.len(),
                out@ == self@.data.subrange(self@.read, self@.read + i),
            decreases length - i,
        {
            out.push(self.data[self.read_index + i]);
            i = i + 1;
            proof {
                assert(out@ =~= self@.data.subrange(self@.read, self@.read + i));
            }
        }
        self.read_index = self.read_index + length;
        Ok(out)
    }


    /// Reads a fixed-size block of bytes; fails without moving the cursor
    /// when fewer bytes remain.
    pub fn read_array<const N: usize>(&mut self) -> (r: BufferResult<[u8; N]>)
        requires
            old(self).wf(),
        ensures
            final(self).wf(),
            final(self)@.data == old(self)@.data,
            final(self)@.write == old(self)@.write,
            r is Ok <==> old(self)@.read + N <= old(self)@.data.len(),
            r matches Ok(a) ==> a@ == old(self)@.data.subrange(
                old(self)@.read,
                old(self)@.read + N,
            ) && final(self)@.read == old(self)@.read + N,
            r is Err ==> r == Err::<[u8; N], BufferError>(BufferError::BufferUnderflow) && *final(self) == *old(self),
    {
        if self.data.len() - self.read_index < N {
            return Err(BufferError::BufferUnderflow);
        }
        let mut out: [u8; N] = [0u8; N];
        let mut i: usize = 0;
        while i < N
            invariant
                self == old(self),
                self.wf(),
                i <= N,
                self@.read + N <= self@.data.len(),
                forall|j: int| 0 <= j < i ==> out@[j] == self@.data[self@.read + j],
            decreases N - i,
        {
            out[i] = self.data[self.read_index + i];
            i = i + 1;
        }
        self.read_index = self.read_index + N;
        proof {
            assert(out@ =~= old(self)@.data.subrange(old(self)@.read, old(self)@.read + N));
        }
        Ok(out)
    }

    pub fn as_slice(&self) -> (r: &[u8])
        ensures
            r@ == self@.data,
    {
        self.data.as_slice()
    }

    pub fn length(&self) -> (r: usize)
        ensures
            r == self@.data.len(),
    {
        self.data.len()
    }
}

// Fixed-width big-endian write methods.
impl McBuf {
    pub fn write_bool(&mut self, value: bool)
        requires
            old(self).wf(),
        ensures
            final(self).wf(),
            final(self)@.read == old(self)@.read,
            final(self)@.data == old(self)@.data.push(if value {
                1u8
            } else {
                0u8
            }),
    {
        self.write_u8(if value {
            1
        } else {
            0
        });
    }

    pub fn write_byte(&mut self, value: i8)
        requires
            old(self).wf(),
        ensures
            final(self).wf(),
            final(self)@.read == old(self)@.read,
            final(self)@.data == old(self)@.data.push(value as u8),
    {
        self.write_u8(value as u8);
    }

    pub fn write_ubyte(&mut self, value: u8)
        requires
            old(self).wf(),
        ensures
            final(self).wf(),
            final(self)@.read == old(self)@.read,
            final(self)@.data == old(self)@.data.push(value),
    {
        self.write_u8(value);
    }

    pub fn write_ushort(&mut self, value: u16)
        requires
            old(self).wf(),
        ensures
            final(self).wf(),
            final(self)@.read == old(self)@.read,
            final(self)@.data == old(self)@.data + be2(value),
    {
        self.write_u8((value >> 8) as u8);
        self.write_u8(value as u8);
        proof {
            assert(self@.data =~= old(self)@.data + be2(value));
        }
    }

    pub fn write_short(&mut self, value: i16)
        requires
            old(self).wf(),
        ensures
            final(self).wf(),
            final(self)@.read == old(self)@.read,
            final(self)@.data == old(self)@.data + be2(value as u16),
    {
        self.write_ushort(value as u16);
    }

    pub fn write_uint(&mut self, value: u32)
        requires
            old(self).wf(),
        ensures
            final(self).wf(),
            final(self)@.read == old(self)@.read,
            final(self)@.data == old(self)@.data + be4(value),
    {
        self.write_u8((value >> 24) as u8);
        self.write_u8((value >> 16) as u8);
        self.write_u8((value >> 8) as u8);
        self.write_u8(value as u8);
        proof {
            assert(self@.data =~= old(self)@.data + be4(value));
        }
    }

    pub fn write_int(&mut self, value: i32)
        requires
            old(self).wf(),
        ensures
            final(self).wf(),
            final(self)@.read == old(self)@.read,
            final(self)@.data == old(self)@.data + be4(value as u32),
    {
        self.write_uint(value as u32);
    }

    pub fn write_ulong(&mut self, value: u64)
        requires
            old(self).wf(),
        ensures
            final(self).wf(),
            final(self)@.read == old(self)@.read,
            final(self)@.data == old(self)@.data + be8(value),
    {
        self.write_u8((value >> 56) as u8);
        self.write_u8((value >> 48) as u8);
        self.write_u8((value >> 40) as u8);
        self.write_u8((value >> 32) as u8);
        self.write_u8((value >> 24) as u8);
        self.write_u8((value >> 16) as u8);
        self.write_u8((value >> 8) as u8);
        self.write_u8(value as u8);
        proof {
            assert(self@.data =~= old(self)@.data + be8(value));
        }
    }

    pub fn write_long(&mut self, value: i64)
        requires
            old(self).wf(),
        ensures
            final(self).wf(),
            final(self)@.read == old(self)@.read,
            final(self)@.data == old(self)@.data + be8(value as u64),
    {
        self.write_ulong(value as u64);
    }
}

// Fixed-width big-endian read methods.
impl McBuf {
    pub fn read_bool(&mut self) -> (r: BufferResult<bool>)
        requires
            old(self).wf(),
        ensures
            final(self).wf(),
            final(self)@.data == old(self)@.data,
            final(self)@.write == old(self)@.write,
            r is Ok <==> old(self)@.read < old(self)@.data.len(),
            r matches Ok(b) ==> b == (old(self)@.data[old(self)@.read] != 0) && final(self)@.read
                == old(self)@.read + 1,
            r is Err ==> r == Err::<bool, BufferError>(BufferError::BufferUnderflow) && *final(self)
                == *old(self),
    {
        match self.read_u8() {
            Ok(b) => Ok(b != 0),
            Err(e) => Err(e),
        }
    }

    pub fn read_byte(&mut self) -> (r: BufferResult<i8>)
        requires
            old(self).wf(),
        ensures
            final(self).wf(),
            final(self)@.data == old(self)@.data,
            final(self)@.write == old(self)@.write,
            r is Ok <==> old(self)@.read < old(self)@.data.len(),
            r matches Ok(b) ==> b == old(self)@.data[old(self)@.read] as i8 && final(self)@.read
                == old(self)@.read + 1,
            r is Err ==> r == Err::<i8, BufferError>(BufferError::BufferUnderflow) && *final(self)
                == *old(self),
    {
        match self.read_u8() {
            Ok(b) => Ok(b as i8),
            Err(e) => Err(e),
        }
    }

    pub fn read_ubyte(&mut self) -> (r: BufferResult<u8>)
        requires
            old(self).wf(),
        ensures
            final(self).wf(),
            final(self)@.data == old(self)@.data,
            final(self)@.write == old(self)@.write,
            r is Ok <==> old(self)@.read < old(self)@.data.len(),
            r matches Ok(b) ==> b == old(self)@.data[old(self)@.read] && final(self)@.read == old(self)@.read + 1,
            r is Err ==> r == Err::<u8, BufferError>(BufferError::BufferUnderflow) && *final(self)
                == *old(self),
    {
        self.read_u8()
    }

    pub fn read_ushort(&mut self) -> (r: BufferResult<u16>)
        requires
            old(self).wf(),
        ensures
            final(self).wf(),
            final(self)@.data == old(self)@.data,
            final(self)@.write == old(self)@.write,
            r is Ok <==> old(self)@.read + 2 <= old(self)@.data.len(),
            r matches Ok(v) ==> v == be2_val(old(self)@.data, old(self)@.read) && final(self)@.read
                == old(self)@.read + 2,
            r is Err ==> r == Err::<u16, BufferError>(BufferError::BufferUnderflow) && *final(self)
                == *old(self),
    {
        if self.data.len() - self.read_index < 2 {
            return Err(BufferError::BufferUnderflow);
        }
        let b0 = self.data[self.read_index];
        let b1 = self.data[self.read_index + 1];
        self.read_index = self.read_index + 2;
        Ok(((b0 as u16) << 8) | (b1 as u16))
    }

    pub fn read_short(&mut self) -> (r: BufferResult<i16>)
        requires
            old(self).wf(),
        ensures
            final(self).wf(),
            final(self)@.data == old(self)@.data,
            final(self)@.write == old(self)@.write,
            r is Ok <==> old(self)@.read + 2 <= old(self)@.data.len(),
            r matches Ok(v) ==> v == be2_val(old(self)@.data, old(self)@.read) as i16 && final(self)@.read == old(self)@.read + 2,
            r is Err ==> r == Err::<i16, BufferError>(BufferError::BufferUnderflow) && *final(self)
                == *old(self),
    {
        match self.read_ushort() {
            Ok(v) => Ok(v as i16),
            Err(e) => Err(e),
        }
    }

    pub fn read_uint(&mut self) -> (r: BufferResult<u32>)
        requires
            old(self).wf(),
        ensures
            final(self).wf(),
            final(self)@.data == old(self)@.data,
            final(self)@.write == old(self)@.write,
            r is Ok <==> old(self)@.read + 4 <= old(self)@.data.len(),
            r matches Ok(v) ==> v == be4_val(old(self)@.data, old(self)@.read) && final(self)@.read
                == old(self)@.read + 4,
            r is Err ==> r == Err::<u32, BufferError>(BufferError::BufferUnderflow) && *final(self)
                == *old(self),
    {
        if self.data.len() - self.read_index < 4 {
            return Err(BufferError::BufferUnderflow);
        }
        let b0 = self.data[self.read_index];
        let b1 = self.data[self.read_index + 1];
        let b2 = self.data[self.read_index + 2];
        let b3 = self.data[self.read_index + 3];
        self.read_index = self.read_index + 4;
        Ok(((b0 as u32) << 24) | ((b1 as u32) << 16) | ((b2 as u32) << 8) | (b3 as u32))
    }

    pub fn read_int(&mut self) -> (r: BufferResult<i32>)
        requires
            old(self).wf(),
        ensures
            final(self).wf(),
            final(self)@.data == old(self)@.data,
            final(self)@.write == old(self)@.write,
            r is Ok <==> old(self)@.read + 4 <= old(self)@.data.len(),
            r matches Ok(v) ==> v == be4_val(old(self)@.data, old(self)@.read) as i32 && final(self)@.read == old(self)@.read + 4,
            r is Err ==> r == Err::<i32, BufferError>(BufferError::BufferUnderflow) && *final(self)
                == *old(self),
    {
        match self.read_uint() {
            Ok(v) => Ok(v as i32),
            Err(e) => Err(e),
        }
    }

    pub fn read_ulong(&mut self) -> (r: BufferResult<u64>)
        requires
            old(self).wf(),
        ensures
            final(self).wf(),
            final(self)@.data == old(self)@.data,
            final(self)@.write == old(self)@.write,
            r is Ok <==> old(self)@.read + 8 <= old(self)@.data.len(),
            r matches Ok(v) ==> v == be8_val(old(self)@.data, old(self)@.read) && final(self)@.read
                == old(self)@.read + 8,
            r is Err ==> r == Err::<u64, BufferError>(BufferError::BufferUnderflow) && *final(self)
                == *old(self),
    {
        if self.data.len() - self.read_index < 8 {
            return Err(BufferError::BufferUnderflow);
        }
        let b0 = self.data[self.read_index];
        let b1 = self.data[self.read_index + 1];
        let b2 = self.data[self.read_index + 2];
        let b3 = self.data[self.read_index + 3];
        let b4 = self.data[self.read_index + 4];
        let b5 = self.data[self.read_index + 5];
        let b6 = self.data[self.read_index + 6];
        let b7 = self.data[self.read_index + 7];
        self.read_index = self.read_index + 8;
        Ok(
            ((b0 as u64) << 56) | ((b1 as u64) << 48) | ((b2 as u64) << 40) | ((b3 as u64) << 32)
                | ((b4 as u64) << 24) | ((b5 as u64) << 16) | ((b6 as u64) << 8) | (b7 as u64),
        )
    }

    pub fn read_long(&mut self) -> (r: BufferResult<i64>)
        requires
            old(self).wf(),
        ensures
            final(self).wf(),
            final(self)@.data == old(self)@.data,
            final(self)@.write == old(self)@.write,
            r is Ok <==> old(self)@.read + 8 <= old(self)@.data.len(),
            r matches Ok(v) ==> v == be8_val(old(self)@.data, old(self)@.read) as i64 && final(self)@.read == old(self)@.read + 8,
            r is Err ==> r == Err::<i64, BufferError>(BufferError::BufferUnderflow) && *final(self)
                == *old(self),
    {
        match self.read_ulong() {
            Ok(v) => Ok(v as i64),
            Err(e) => Err(e),
        }
    }
}

// Varint / varlong methods.
impl McBuf {
    pub fn write_var_int(&mut self, value: i32)
        requires
            old(self).wf(),
        ensures
            final(self).wf(),
            final(self)@.read == old(self)@.read,
            final(self)@.data == old(self)@.data + varint_bytes(value as u32),
    {
        let ghost d0 = self@.data;
        let ghost v0 = value as u32;
        let mut rem: u32 = value as u32;
        while (rem & 0xffff_ff80u32) != 0
            invariant
                self.wf(),
                self@.read == old(self)@.read,
                d0 + varint_bytes(v0) == self@.data + varint_bytes(rem),
            decreases rem,
        {
            proof {
                assert(rem >= 0x80 && rem >> 7 < rem && (((rem & 0x7f) as u8) | 0x80) == ((rem
                    & 0x7f) | 0x80) as u8) by (bit_vector)
                    requires
                        (rem & 0xffff_ff80u32) != 0,
                ;
            }
            let ghost pre = self@.data;
            self.write_u8(((rem & 0x7f) as u8) | 0x80);
            proof {
                assert(self@.data + varint_bytes(rem >> 7) =~= pre + varint_bytes(rem));
            }
            rem = rem >> 7;
        }
        proof {
            assert(rem < 0x80) by (bit_vector)
                requires
                    (rem & 0xffff_ff80u32) == 0,
            ;
        }
        let ghost pre = self@.data;
        self.write_u8(rem as u8);
        proof {
            assert(self@.data =~= pre + varint_bytes(rem));
            assert(self@.data =~= d0 + varint_bytes(v0));
        }
    }

    pub fn write_var_long(&mut self, value: i64)
        requires
            old(self).wf(),
        ensures
            final(self).wf(),
            final(self)@.read == old(self)@.read,
            final(self)@.data == old(self)@.data + varlong_bytes(value as u64),
    {
        let ghost d0 = self@.data;
        let ghost v0 = value as u64;
        let mut rem: u64 = value as u64;
        while (rem & 0xffff_ffff_ffff_ff80u64) != 0
            invariant
                self.wf(),
                self@.read == old(self)@.read,
                d0 + varlong_bytes(v0) == self@.data + varlong_bytes(rem),
            decreases rem,
        {
            proof {
                assert(rem >= 0x80 && rem >> 7 < rem && (((rem & 0x7f) as u8) | 0x80) == ((rem
                    & 0x7f) | 0x80) as u8) by (bit_vector)
                    requires
                        (rem & 0xffff_ffff_ffff_ff80u64) != 0,
                ;
            }
            let ghost pre = self@.data;
            self.write_u8(((rem & 0x7f) as u8) | 0x80);
            proof {
                assert(self@.data + varlong_bytes(rem >> 7) =~= pre + varlong_bytes(rem));
            }
            rem = rem >> 7;
        }
        proof {
            assert(rem < 0x80) by (bit_vector)
                requires
                    (rem & 0xffff_ffff_ffff_ff80u64) == 0,
            ;
        }
        let ghost pre = self@.data;
        self.write_u8(rem as u8);
        proof {
            assert(self@.data =~= pre + varlong_bytes(rem));
            assert(self@.data =~= d0 + varlong_bytes(v0));
        }
    }

    pub fn read_var_int(&mut self) -> (r: BufferResult<i32>)
        requires
            old(self).wf(),
        ensures
            final(self).wf(),
            final(self)@.data == old(self)@.data,
            final(self)@.write == old(self)@.write,
            old(self)@.read <= final(self)@.read <= old(self)@.data.len(),
            r is Ok <==> varint_at(old(self)@.data, old(self)@.read),
            r matches Ok(v) ==> varint_size(old(self)@.data, old(self)@.read, 5) == Some(
                final(self)@.read - old(self)@.read,
            ) && v == varint_val32(
                old(self)@.data,
                old(self)@.read,
                final(self)@.read - old(self)@.read,
            ) as i32,
            !varint_at(old(self)@.data, old(self)@.read) && varint_overflows(
                old(self)@.data,
                old(self)@.read,
                5,
            ) ==> r == Err::<i32, BufferError>(BufferError::VarIntOverflow) && final(self)@.read
                == old(self)@.read + 5,
            !varint_at(old(self)@.data, old(self)@.read) && !varint_overflows(
                old(self)@.data,
                old(self)@.read,
                5,
            ) ==> r == Err::<i32, BufferError>(BufferError::BufferUnderflow) && final(self)@.read
                == old(self)@.data.len(),
    {
        let ghost d = self@.data;
        let ghost p = self@.read;
        let mut i: u32 = 0;
        let mut position: u32 = 0;
        loop
            invariant
                self.wf(),
                d == old(self)@.data,
                p == old(self)@.read,
                self@.data == d,
                self@.write == old(self)@.write,
                0 <= p <= self@.read <= d.len(),
                self@.read - p <= 5,
                position == 7 * (self@.read - p),
                i == varint_val32(d, p, self@.read - p),
                forall|j: int| p <= j < self@.read ==> d[j] >= 0x80,
            decreases 35 - position,
        {
            if position >= 35 {
                proof {
                    lemma_varint_size_overflow(d, p, 5);
                }
                return Err(BufferError::VarIntOverflow);
            }
            let byte = match self.read_u8() {
                Ok(b) => b,
                Err(_) => {
                    proof {
                        lemma_varint_size_underflow(d, p, 5);
                    }
                    return Err(BufferError::BufferUnderflow);
                },
            };
            proof {
                lemma_varint_val32_extend(d, p, self@.read - 1 - p);
            }
            proof {
                assert((byte & 0x80 == 0) <==> byte < 0x80) by (bit_vector);
            }
            i = i | (((byte & 0x7f) as u32) << position);
            position = position + 7;
            if byte & 0x80 == 0 {
                proof {
                    lemma_varint_size_terminated(d, p, self@.read - 1 - p, 5);
                }
                return Ok(i as i32);
            }
        }
    }

    pub fn read_var_long(&mut self) -> (r: BufferResult<i64>)
        requires
            old(self).wf(),
        ensures
            final(self).wf(),
            final(self)@.data == old(self)@.data,
            final(self)@.write == old(self)@.write,
            old(self)@.read <= final(self)@.read <= old(self)@.data.len(),
            r is Ok <==> varlong_at(old(self)@.data, old(self)@.read),
            r matches Ok(v) ==> varint_size(old(self)@.data, old(self)@.read, 10) == Some(
                final(self)@.read - old(self)@.read,
            ) && v == varint_val64(
                old(self)@.data,
                old(self)@.read,
                final(self)@.read - old(self)@.read,
            ) as i64,
            !varlong_at(old(self)@.data, old(self)@.read) && varint_overflows(
                old(self)@.data,
                old(self)@.read,
                10,
            ) ==> r == Err::<i64, BufferError>(BufferError::VarIntOverflow) && final(self)@.read
                == old(self)@.read + 10,
            !varlong_at(old(self)@.data, old(self)@.read) && !varint_overflows(
                old(self)@.data,
                old(self)@.read,
                10,
            ) ==> r == Err::<i64, BufferError>(BufferError::BufferUnderflow) && final(self)@.read
                == old(self)@.data.len(),
    {
        let ghost d = self@.data;
        let ghost p = self@.read;
        let mut i: u64 = 0;
        let mut position: u64 = 0;
        loop
            invariant
                self.wf(),
                d == old(self)@.data,
                p == old(self)@.read,
                self@.data == d,
                self@.write == old(self)@.write,
                0 <= p <= self@.read <= d.len(),
                self@.read - p <= 10,
                position == 7 * (self@.read - p),
                i == varint_val64(d, p, self@.read - p),
                forall|j: int| p <= j < self@.read ==> d[j] >= 0x80,
            decreases 70 - position,
        {
            if position >= 70 {
                proof {
                    lemma_varint_size_overflow(d, p, 10);
                }
                return Err(BufferError::VarIntOverflow);
            }
            let byte = match self.read_u8() {
                Ok(b) => b,
                Err(_) => {
                    proof {
                        lemma_varint_size_underflow(d, p, 10);
                    }
                    return Err(BufferError::BufferUnderflow);
                },
            };
            proof {
                lemma_varint_val64_extend(d, p, self@.read - 1 - p);
            }
            proof {
                assert((byte & 0x80 == 0) <==> byte < 0x80) by (bit_vector);
            }
            i = i | (((byte & 0x7f) as u64) << position);
            position = position + 7;
            if byte & 0x80 == 0 {
                proof {
                    lemma_varint_size_terminated(d, p, self@.read - 1 - p, 10);
                }
                return Ok(i as i64);
            }
        }
    }
}

// ---------------------------------------------------------------------------
// Length-prefixed UTF-8 strings
// ---------------------------------------------------------------------------

/// The wire form of a string: a varint byte-length prefix, then UTF-8 bytes.
pub open spec fn string_wire(s: Seq<char>) -> Seq<u8> {
    varint_bytes(vstd::utf8::encode_utf8(s).len() as u32) + vstd::utf8::encode_utf8(s)
}

/// Where a string bounded by `max` characters decodes at `p`, if it does:
/// a valid varint length prefix within `3 * max`, enough bytes, valid UTF-8,
/// and at most `max` decoded characters.
pub open spec fn string_dec_end(d: Seq<u8>, p: int, max: int) -> Option<int> {
    match varint_size(d, p, 5) {
        Some(sz) => {
            let len = varint_val32(d, p, sz) as i32 as int;
            if 0 <= len && len <= 3 * max && p + sz + len <= d.len() && valid_utf8(
                d.subrange(p + sz, p + sz + len),
            ) && decode_utf8(d.subrange(p + sz, p + sz + len)).len() <= max {
                Some(p + sz + len)
            } else {
                None
            }
        },
        None => None,
    }
}

/// The characters of the string decoded at `p` (meaningful when
/// `string_dec_end` is `Some`).
pub open spec fn string_dec_chars(d: Seq<u8>, p: int) -> Seq<char> {
    let sz = varint_size(d, p, 5)->Some_0;
    let len = varint_val32(d, p, sz) as i32 as int;
    decode_utf8(d.subrange(p + sz, p + sz + len))
}

/// Relies on `String::from_utf8`: it succeeds exactly on valid UTF-8 input
/// and decodes those bytes to the corresponding character sequence.
#[verifier::external_body]
pub(crate) fn string_from_utf8_checked(bytes: Vec<u8>) -> (r: Option<String>)
    ensures
        r is Some <==> valid_utf8(bytes@),
        r matches Some(s) ==> s@ == decode_utf8(bytes@),
{
    String::from_utf8(bytes).ok()
}

impl McBuf {
    /// Writes the varint byte-length prefix, then the UTF-8 bytes.
    pub fn write_string(&mut self, value: &str)
        requires
            old(self).wf(),
        ensures
            final(self).wf(),
            final(self)@.read == old(self)@.read,
            final(self)@.data == old(self)@.data + string_wire(value@),
    {
        let bytes = value.as_bytes();
        let n32: u32 = bytes.len() as u32;
        proof {
            lemma_cast_u32_round_trip(n32);
        }
        self.write_var_int(n32 as i32);
        self.write_slice(bytes);
        proof {
            assert(self@.data =~= old(self)@.data + string_wire(value@));
        }
    }

    /// Reads a length-prefixed UTF-8 string of at most `max_length`
    /// characters; the declared byte length may not exceed `3 * max_length`.
    pub fn read_string(&mut self, max_length: usize) -> (r: BufferResult<String>)
        requires
            old(self).wf(),
            3 * max_length <= usize::MAX,
        ensures
            final(self).wf(),
            final(self)@.data == old(self)@.data,
            final(self)@.write == old(self)@.write,
            old(self)@.read <= final(self)@.read <= old(self)@.data.len(),
            r is Ok <==> string_dec_end(old(self)@.data, old(self)@.read, max_length as int)
                is Some,
            r matches Ok(s) ==> s@ == string_dec_chars(old(self)@.data, old(self)@.read)
                && string_dec_end(old(self)@.data, old(self)@.read, max_length as int) == Some(
                final(self)@.read,
            ),
            !varint_at(old(self)@.data, old(self)@.read) && varint_overflows(
                old(self)@.data,
                old(self)@.read,
                5,
            ) ==> r == Err::<String, BufferError>(BufferError::VarIntOverflow),
            !varint_at(old(self)@.data, old(self)@.read) && !varint_overflows(
                old(self)@.data,
                old(self)@.read,
                5,
            ) ==> r == Err::<String, BufferError>(BufferError::BufferUnderflow),
            varint_at(old(self)@.data, old(self)@.read) ==> ({
                let d = old(self)@.data;
                let p = old(self)@.read;
                let sz = varint_size(d, p, 5)->Some_0;
                let len = varint_value(d, p) as int;
                let m = max_length as int;
                &&& (len < 0 || len > 3 * m) ==> r == Err::<String, BufferError>(
                    BufferError::StringTooLong,
                ) && final(self)@.read == p + sz
                &&& (0 <= len <= 3 * m && p + sz + len > d.len()) ==> r == Err::<
                    String,
                    BufferError,
                >(BufferError::BufferUnderflow) && final(self)@.read == p + sz
                &&& (0 <= len <= 3 * m && p + sz + len <= d.len() && !valid_utf8(
                    d.subrange(p + sz, p + sz + len),
                )) ==> r == Err::<String, BufferError>(BufferError::StringDecodeError) && final(self)@.read == p + sz + len
                &&& (0 <= len <= 3 * m && p + sz + len <= d.len() && valid_utf8(
                    d.subrange(p + sz, p + sz + len),
                ) && decode_utf8(d.subrange(p + sz, p + sz + len)).len() > m) ==> r == Err::<
                    String,
                    BufferError,
                >(BufferError::StringTooLong) && final(self)@.read == p + sz + len
            }),
    {
        let ghost d = self@.data;
        let ghost p = self@.read;
        let length_signed = match self.read_var_int() {
            Ok(v) => v,
            Err(e) => {
                return Err(e);
            },
        };
        let ghost sz = self@.read - p;
        if length_signed < 0 {
            return Err(BufferError::StringTooLong);
        }
        let length = length_signed as usize;
        if length > max_length * 3 {
            return Err(BufferError::StringTooLong);
        }
        let raw = match self.read_dyn_array(length) {
            Ok(v) => v,
            Err(e) => {
                return Err(e);
            },
        };
        let string = match string_from_utf8_checked(raw) {
            Some(s) => s,
            None => {
                return Err(BufferError::StringDecodeError);
            },
        };
        let chars = string.as_str().unicode_len();
        if chars > max_length {
            return Err(BufferError::StringTooLong);
        }
        Ok(string)
    }
}

// ---------------------------------------------------------------------------
// The serialization capability
// ---------------------------------------------------------------------------

/// A static serializer interface for a value type, for callers that want to
/// keep the codec separate from the value type itself.
pub trait NetworkSerializer<T> where T: Sized {
    fn read(buf: &mut McBuf) -> BufferResult<T>
        requires
            old(buf).wf(),
    ;

    fn write(buf: &mut McBuf, value: &T)
        requires
            old(buf).wf(),
    ;
}

/// The wire-codec capability: any serializable value type provides `read`
/// and `write` together with a specification of its encoding.
///
/// `wire` is the canonical encoding; `dec_end`/`decodes_to` describe the
/// (possibly more lenient) decoder; `wire_ok` bounds the values whose
/// canonical encoding is accepted back by the decoder.
pub trait NetworkType where Self: Sized {
    /// The canonical byte encoding of this value.
    spec fn wire(&self) -> Seq<u8>;

    /// Whether a value decodes from `data` at `pos`, and where it ends.
    spec fn dec_end(data: Seq<u8>, pos: int) -> Option<int>;

    /// `v` is a value decoded from `data` at `pos`.
    spec fn decodes_to(data: Seq<u8>, pos: int, v: &Self) -> bool;

    /// The value is within the format's bounds, so that its canonical
    /// encoding decodes back to it.
    spec fn wire_ok(&self) -> bool;

    fn read(buf: &mut McBuf) -> (r: BufferResult<Self>)
        requires
            old(buf).wf(),
        ensures
            final(buf).wf(),
            final(buf)@.data == old(buf)@.data,
            final(buf)@.write == old(buf)@.write,
            final(buf)@.read >= old(buf)@.read,
            r is Ok <==> Self::dec_end(old(buf)@.data, old(buf)@.read) is Some,
            r matches Ok(v) ==> Self::decodes_to(old(buf)@.data, old(buf)@.read, &v)
                && Self::dec_end(old(buf)@.data, old(buf)@.read) == Some(final(buf)@.read),
    ;

    fn write(&self, buf: &mut McBuf)
        requires
            old(buf).wf(),
        ensures
            final(buf).wf(),
            final(buf)@.read == old(buf)@.read,
            final(buf)@.data == old(buf)@.data + self.wire(),
    ;

    /// Round trip: the canonical encoding of an in-bounds value, wherever it
    /// sits in a byte sequence, decodes back to that value and ends exactly
    /// after the encoding.
    proof fn lemma_wire_round_trip(&self, data: Seq<u8>, pos: int)
        requires
            self.wire_ok(),
            0 <= pos,
            pos + self.wire().len() <= data.len(),
            data.subrange(pos, pos + self.wire().len() as int) == self.wire(),
        ensures
            Self::dec_end(data, pos) == Some(pos + self.wire().len() as int),
            Self::decodes_to(data, pos, self),
    ;
}

impl McBuf {
    pub fn write_network_type<T: NetworkType>(&mut self, value: &T)
        requires
            old(self).wf(),
        ensures
            final(self).wf(),
            final(self)@.read == old(self)@.read,
            final(self)@.data == old(self)@.data + value.wire(),
    {
        value.write(self);
    }

    pub fn read_network_type<T: NetworkType>(&mut self) -> (r: BufferResult<T>)
        requires
            old(self).wf(),
        ensures
            final(self).wf(),
            final(self)@.data == old(self)@.data,
            final(self)@.write == old(self)@.write,
            final(self)@.read >= old(self)@.read,
            r is Ok <==> T::dec_end(old(self)@.data, old(self)@.read) is Some,
            r matches Ok(v) ==> T::decodes_to(old(self)@.data, old(self)@.read, &v) && T::dec_end(
                old(self)@.data,
                old(self)@.read,
            ) == Some(final(self)@.read),
    {
        T::read(self)
    }
}

} // verus!
