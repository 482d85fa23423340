//! Wire-codec capability for common value shapes: strings, sequences and
//! optionals. A sequence is a varint element count followed by each element;
//! an optional is a boolean presence flag followed by the payload if present.

use vstd::prelude::*;
use vstd::utf8::{encode_utf8, encode_utf8_valid_utf8, encode_utf8_decode_utf8};
use crate::buffer::{BufferResult, McBuf, NetworkType, string_wire, string_dec_end,
    string_dec_chars};
use crate::codec::{varint_bytes, varint_size, varint_val32, lemma_cast_u32_round_trip,
    lemma_varint_len,
    lemma_varint_round_trip, lemma_concat_split};

verus! {

/// The maximum character count of a string field.
pub const STRING_FIELD_MAX: usize = 32767;

impl NetworkType for String {
    open spec fn wire(&self) -> Seq<u8> {
        string_wire(self@)
    }

    open spec fn dec_end(data: Seq<u8>, pos: int) -> Option<int> {
        string_dec_end(data, pos, STRING_FIELD_MAX as int)
    }

    open spec fn decodes_to(data: Seq<u8>, pos: int, v: &Self) -> bool {
        string_dec_end(data, pos, STRING_FIELD_MAX as int) is Some && v@ == string_dec_chars(
            data,
            pos,
        )
    }

    open spec fn wire_ok(&self) -> bool {
        encode_utf8(self@).len() <= 3 * STRING_FIELD_MAX && self@.len() <= STRING_FIELD_MAX
    }

    fn read(buf: &mut McBuf) -> (r: BufferResult<Self>) {
        buf.read_string(STRING_FIELD_MAX)
    }

    fn write(&self, buf: &mut McBuf) {
        buf.write_string(self.as_str());
    }

    proof fn lemma_wire_round_trip(&self, data: Seq<u8>, pos: int) {
        lemma_string_round_trip(self@, data, pos, STRING_FIELD_MAX as int);
    }
}

/// Round trip of the length-prefixed string codec: the canonical encoding of
/// a string within the `max` bounds decodes back to the same characters.
pub proof fn lemma_string_round_trip(s: Seq<char>, data: Seq<u8>, pos: int, max: int)
    requires
        0 <= pos,
        0 < max,
        3 * max < 0x8000_0000,
        encode_utf8(s).len() <= 3 * max,
        s.len() <= max,
        pos + string_wire(s).len() <= data.len(),
        data.subrange(pos, pos + string_wire(s).len() as int) == string_wire(s),
    ensures
        string_dec_end(data, pos, max) == Some(pos + string_wire(s).len() as int),
        string_dec_chars(data, pos) == s,
{
    let bytes = encode_utf8(s);
    let blen = bytes.len() as u32;
    let prefix = varint_bytes(blen);
    lemma_varint_len(blen);
    lemma_concat_split(data, pos, prefix, bytes);
    lemma_varint_round_trip(data, pos, blen, 5);
    let sz = prefix.len() as int;
    assert(varint_size(data, pos, 5) == Some(sz));
    assert(varint_val32(data, pos, sz) == blen);
    assert(bytes.len() < 0x80000000);
    assert((blen as i32) as int == blen as int) by (bit_vector)
        requires
            blen < 0x80000000,
    ;
    assert(data.subrange(pos + sz, pos + sz + bytes.len()) == bytes);
    encode_utf8_valid_utf8(s);
    encode_utf8_decode_utf8(s);
}

// ---------------------------------------------------------------------------
// Sequences
// ---------------------------------------------------------------------------

/// The concatenated canonical encodings of a sequence of values.
pub open spec fn vec_wire<T: NetworkType>(s: Seq<T>) -> Seq<u8>
    decreases s.len(),
{
    if s.len() == 0 {
        Seq::<u8>::empty()
    } else {
        s[0].wire() + vec_wire(s.drop_first())
    }
}

/// Where `n` consecutive values decode starting at `p`, if they all do.
pub open spec fn vec_dec_end<T: NetworkType>(d: Seq<u8>, p: int, n: int) -> Option<int>
    decreases n,
{
    if n <= 0 {
        Some(p)
    } else {
        match T::dec_end(d, p) {
            Some(q) => vec_dec_end::<T>(d, q, n - 1),
            None => None,
        }
    }
}

/// The values of `s` are decoded one after another starting at `p`.
pub open spec fn vec_decodes_to<T: NetworkType>(d: Seq<u8>, p: int, s: Seq<T>) -> bool
    decreases s.len(),
{
    if s.len() == 0 {
        true
    } else {
        T::decodes_to(d, p, &s[0]) && match T::dec_end(d, p) {
            Some(q) => vec_decodes_to::<T>(d, q, s.drop_first()),
            None => false,
        }
    }
}

/// Decoding `m + n` values is decoding `m`, then `n` more from where that
/// ended.
pub proof fn lemma_vec_dec_end_split<T: NetworkType>(d: Seq<u8>, p: int, m: int, n: int)
    requires
        0 <= m,
        0 <= n,
    ensures
        vec_dec_end::<T>(d, p, m + n) == match vec_dec_end::<T>(d, p, m) {
            Some(q) => vec_dec_end::<T>(d, q, n),
            None => None::<int>,
        },
    decreases m,
{
    if m > 0 {
        match T::dec_end(d, p) {
            Some(q) => {
                lemma_vec_dec_end_split::<T>(d, q, m - 1, n);
            },
            None => {},
        }
    }
}

/// Extending a decoded run by one more decoded value.
pub proof fn lemma_vec_decodes_to_push<T: NetworkType>(d: Seq<u8>, p: int, s: Seq<T>, x: T)
    requires
        vec_decodes_to::<T>(d, p, s),
        vec_dec_end::<T>(d, p, s.len() as int) is Some,
        T::decodes_to(d, vec_dec_end::<T>(d, p, s.len() as int)->Some_0, &x),
        T::dec_end(d, vec_dec_end::<T>(d, p, s.len() as int)->Some_0) is Some,
    ensures
        vec_decodes_to::<T>(d, p, s.push(x)),
    decreases s.len(),
{
    if s.len() == 0 {
        assert(vec_dec_end::<T>(d, p, 0) == Some(p));
        assert(s.push(x)[0] == x);
        assert(s.push(x).drop_first() =~= Seq::<T>::empty());
        assert(vec_decodes_to::<T>(d, T::dec_end(d, p)->Some_0, Seq::<T>::empty()));
    } else {
        let q = T::dec_end(d, p)->Some_0;
        assert(s.push(x)[0] == s[0]);
        assert(s.push(x).drop_first() =~= s.drop_first().push(x));
        lemma_vec_decodes_to_push::<T>(d, q, s.drop_first(), x);
    }
}

/// Round trip for a sequence of in-bounds values laid out back to back.
pub proof fn lemma_vec_wire_round_trip<T: NetworkType>(s: Seq<T>, d: Seq<u8>, p: int)
    requires
        0 <= p,
        forall|i: int| 0 <= i < s.len() ==> #[trigger] s[i].wire_ok(),
        p + vec_wire(s).len() <= d.len(),
        d.subrange(p, p + vec_wire(s).len() as int) == vec_wire(s),
    ensures
        vec_dec_end::<T>(d, p, s.len() as int) == Some(p + vec_wire(s).len() as int),
        vec_decodes_to::<T>(d, p, s),
    decreases s.len(),
{
    if s.len() > 0 {
        let head = s[0].wire();
        let tail = vec_wire(s.drop_first());
        lemma_concat_split(d, p, head, tail);
        s[0].lemma_wire_round_trip(d, p);
        let q = p + head.len() as int;
        assert(forall|i: int|
            0 <= i < s.drop_first().len() ==> #[trigger] s.drop_first()[i].wire_ok());
        lemma_vec_wire_round_trip::<T>(s.drop_first(), d, q);
    }
}

impl<T: NetworkType> NetworkType for Vec<T> {
    open spec fn wire(&self) -> Seq<u8> {
        varint_bytes(self@.len() as u32) + vec_wire(self@)
    }

    open spec fn dec_end(data: Seq<u8>, pos: int) -> Option<int> {
        match varint_size(data, pos, 5) {
            Some(sz) => {
                let n = varint_val32(data, pos, sz) as i32 as int;
                vec_dec_end::<T>(data, pos + sz, if n >= 0 {
                    n
                } else {
                    0
                })
            },
            None => None,
        }
    }

    open spec fn decodes_to(data: Seq<u8>, pos: int, v: &Self) -> bool {
        match varint_size(data, pos, 5) {
            Some(sz) => {
                let n = varint_val32(data, pos, sz) as i32 as int;
                v@.len() == (if n >= 0 {
                    n
                } else {
                    0
                }) && vec_decodes_to::<T>(data, pos + sz, v@)
            },
            None => false,
        }
    }

    open spec fn wire_ok(&self) -> bool {
        self@.len() < 0x8000_0000 && (forall|i: int|
            0 <= i < self@.len() ==> #[trigger] self@[i].wire_ok())
    }

    fn read(buf: &mut McBuf) -> (r: BufferResult<Self>) {
        let ghost d = buf@.data;
        let ghost p0 = buf@.read;
        let length = match buf.read_var_int() {
            Ok(v) => v,
            Err(e) => {
                return Err(e);
            },
        };
        let ghost p1 = buf@.read;
        let ghost count = if length >= 0 {
            length as int
        } else {
            0
        };
        let mut vec: Vec<T> = Vec::new();
        let mut k: i32 = 0;
        proof {
            assert(vec_dec_end::<T>(d, p1, 0) == Some(p1));
        }
        while k < length
            invariant
                buf.wf(),
                buf@.data == d,
                buf@.write == old(buf)@.write,
                d == old(buf)@.data,
                p0 == old(buf)@.read,
                p0 <= p1 <= buf@.read,
                varint_size(d, p0, 5) == Some(p1 - p0),
                length == varint_val32(d, p0, p1 - p0) as i32,
                count == if length >= 0 {
                    length as int
                } else {
                    0
                },
                0 <= k,
                length >= 0 ==> k <= length,
                length < 0 ==> k == 0,
                vec@.len() == k as int,
                vec_dec_end::<T>(d, p1, k as int) == Some(buf@.read),
                vec_decodes_to::<T>(d, p1, vec@),
            decreases length - k,
        {
            let ghost cur = buf@.read;
            let ghost pre = vec@;
            let item = match buf.read_network_type::<T>() {
                Ok(v) => v,
                Err(e) => {
                    proof {
                        lemma_vec_dec_end_split::<T>(d, p1, k as int, count - k);
                        assert(vec_dec_end::<T>(d, cur, count - k) is None);
                    }
                    return Err(e);
                },
            };
            proof {
                lemma_vec_decodes_to_push::<T>(d, p1, pre, item);
            }
            vec.push(item);
            k = k + 1;
            proof {
                lemma_vec_dec_end_split::<T>(d, p1, k - 1, 1);
                assert(vec_dec_end::<T>(d, buf@.read, 0) == Some(buf@.read));
                assert(vec_dec_end::<T>(d, cur, 1) == Some(buf@.read));
                assert(vec_dec_end::<T>(d, p1, (k - 1) + 1) == Some(buf@.read));
            }
        }
        proof {
            lemma_vec_dec_end_split::<T>(d, p1, count, 0);
        }
        Ok(vec)
    }

    fn write(&self, buf: &mut McBuf) {
        let n32: u32 = self.len() as u32;
        proof {
            lemma_cast_u32_round_trip(n32);
        }
        buf.write_var_int(n32 as i32);
        let ghost base = buf@.data;
        let mut idx: usize = 0;
        proof {
            assert(vec_wire(self@.take(0)) =~= Seq::<u8>::empty());
            assert(buf@.data =~= base + vec_wire(self@.take(0)));
        }
        while idx < self.len()
            invariant
                buf.wf(),
                buf@.read == old(buf)@.read,
                idx <= self@.len(),
                base == old(buf)@.data + varint_bytes(self@.len() as u32),
                buf@.data == base + vec_wire(self@.take(idx as int)),
            decreases self@.len() - idx,
        {
            let ghost pre = buf@.data;
            buf.write_network_type(&self[idx]);
            proof {
                lemma_vec_wire_take_push(self@, idx as int);
                assert(buf@.data =~= base + vec_wire(self@.take(idx + 1)));
            }
            idx = idx + 1;
        }
        proof {
            assert(self@.take(self@.len() as int) =~= self@);
            assert(buf@.data =~= old(buf)@.data + self.wire());
        }
    }

    proof fn lemma_wire_round_trip(&self, data: Seq<u8>, pos: int) {
        let n32 = self@.len() as u32;
        let prefix = varint_bytes(n32);
        let body = vec_wire(self@);
        lemma_varint_len(n32);
        lemma_concat_split(data, pos, prefix, body);
        lemma_varint_round_trip(data, pos, n32, 5);
        assert((n32 as i32) >= 0 && (n32 as i32) as int == n32 as int) by (bit_vector)
            requires
                n32 < 0x8000_0000,
        ;
        lemma_vec_wire_round_trip::<T>(self@, data, pos + prefix.len() as int);
    }
}

/// One more element extends the concatenated encoding of a prefix.
proof fn lemma_vec_wire_take_push<T: NetworkType>(s: Seq<T>, i: int)
    requires
        0 <= i < s.len(),
    ensures
        vec_wire(s.take(i + 1)) == vec_wire(s.take(i)) + s[i].wire(),
    decreases i,
{
    if i == 0 {
        assert(s.take(1)[0] == s[0]);
        assert(s.take(1).drop_first() =~= Seq::<T>::empty());
        assert(s.take(0) =~= Seq::<T>::empty());
        assert(vec_wire(s.take(1)) =~= vec_wire(s.take(0)) + s[0].wire());
    } else {
        assert(s.take(i + 1)[0] == s[0] && s.take(i)[0] == s[0]);
        assert(s.take(i + 1).drop_first() =~= s.drop_first().take(i));
        assert(s.take(i).drop_first() =~= s.drop_first().take(i - 1));
        lemma_vec_wire_take_push(s.drop_first(), i - 1);
        assert(s.drop_first()[i - 1] == s[i]);
        assert(vec_wire(s.take(i + 1)) =~= vec_wire(s.take(i)) + s[i].wire());
    }
}

// ---------------------------------------------------------------------------
// Optionals
// ---------------------------------------------------------------------------

impl<T: NetworkType> NetworkType for Option<T> {
    open spec fn wire(&self) -> Seq<u8> {
        match self {
            Some(item) => seq![1u8] + item.wire(),
            None => seq![0u8],
        }
    }

    open spec fn dec_end(data: Seq<u8>, pos: int) -> Option<int> {
        if 0 <= pos < data.len() {
            if data[pos] != 0 {
                T::dec_end(data, pos + 1)
            } else {
                Some(pos + 1)
            }
        } else {
            None
        }
    }

    open spec fn decodes_to(data: Seq<u8>, pos: int, v: &Self) -> bool {
        if 0 <= pos < data.len() {
            if data[pos] != 0 {
                match v {
                    Some(item) => T::decodes_to(data, pos + 1, item),
                    None => false,
                }
            } else {
                v is None
            }
        } else {
            false
        }
    }

    open spec fn wire_ok(&self) -> bool {
        match self {
            Some(item) => item.wire_ok(),
            None => true,
        }
    }

    fn read(buf: &mut McBuf) -> (r: BufferResult<Self>) {
        let present = match buf.read_bool() {
            Ok(b) => b,
            Err(e) => {
                return Err(e);
            },
        };
        if present {
            match buf.read_network_type::<T>() {
                Ok(item) => Ok(Some(item)),
                Err(e) => Err(e),
            }
        } else {
            Ok(None)
        }
    }

    fn write(&self, buf: &mut McBuf) {
        match self {
            Some(item) => {
                buf.write_bool(true);
                buf.write_network_type(item);
                proof {
                    assert(buf@.data =~= old(buf)@.data + self.wire());
                }
            },
            None => {
                buf.write_bool(false);
                proof {
                    assert(buf@.data =~= old(buf)@.data + self.wire());
                }
            },
        }
    }

    proof fn lemma_wire_round_trip(&self, data: Seq<u8>, pos: int) {
        match self {
            Some(item) => {
                lemma_concat_split(data, pos, seq![1u8], item.wire());
                assert(data[pos] == 1) by {
                    assert(data.subrange(pos, pos + 1)[0] == seq![1u8][0]);
                }
                item.lemma_wire_round_trip(data, pos + 1);
            },
            None => {
                assert(data[pos] == 0) by {
                    assert(data.subrange(pos, pos + 1)[0] == seq![0u8][0]);
                }
            },
        }
    }
}

} // verus!
