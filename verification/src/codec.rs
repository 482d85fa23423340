//! Mathematical model of the wire format: big-endian fixed-width encodings
//! and the 7-bit variable-length integer (varint / varlong) encoding.

use vstd::prelude::*;

verus! {

// ---------------------------------------------------------------------------
// Big-endian fixed-width encodings
// ---------------------------------------------------------------------------

/// The two big-endian bytes of a 16-bit value.
pub open spec fn be2(v: u16) -> Seq<u8> {
    seq![(v >> 8) as u8, v as u8]
}

/// The four big-endian bytes of a 32-bit value.
pub open spec fn be4(v: u32) -> Seq<u8> {
    seq![(v >> 24) as u8, (v >> 16) as u8, (v >> 8) as u8, v as u8]
}

/// The eight big-endian bytes of a 64-bit value.
pub open spec fn be8(v: u64) -> Seq<u8> {
    seq![
        (v >> 56) as u8,
        (v >> 48) as u8,
        (v >> 40) as u8,
        (v >> 32) as u8,
        (v >> 24) as u8,
        (v >> 16) as u8,
        (v >> 8) as u8,
        v as u8,
    ]
}

/// The 16-bit value read big-endian from `d` at position `p`.
pub open spec fn be2_val(d: Seq<u8>, p: int) -> u16 {
    (((d[p] as u16) << 8) | (d[p + 1] as u16)) as u16
}

/// The 32-bit value read big-endian from `d` at position `p`.
pub open spec fn be4_val(d: Seq<u8>, p: int) -> u32 {
    (((d[p] as u32) << 24) | ((d[p + 1] as u32) << 16) | ((d[p + 2] as u32) << 8) | (d[p
        + 3] as u32)) as u32
}

/// The 64-bit value read big-endian from `d` at position `p`.
pub open spec fn be8_val(d: Seq<u8>, p: int) -> u64 {
    (((d[p] as u64) << 56) | ((d[p + 1] as u64) << 48) | ((d[p + 2] as u64) << 40) | ((d[p
        + 3] as u64) << 32) | ((d[p + 4] as u64) << 24) | ((d[p + 5] as u64) << 16) | ((d[p
        + 6] as u64) << 8) | (d[p + 7] as u64)) as u64
}

/// Reading back the two bytes of `be2(v)` recovers `v`.
pub proof fn lemma_be2_round_trip(d: Seq<u8>, p: int, v: u16)
    requires
        0 <= p,
        p + 2 <= d.len(),
        d.subrange(p, p + 2) == be2(v),
    ensures
        be2_val(d, p) == v,
{
    assert(d[p] == (v >> 8) as u8 && d[p + 1] == v as u8) by {
        assert(d.subrange(p, p + 2)[0] == d[p] && d.subrange(p, p + 2)[1] == d[p + 1]);
    }
    assert(((((v >> 8) as u8) as u16) << 8 | ((v as u8) as u16)) == v) by (bit_vector);
}

/// Reading back the four bytes of `be4(v)` recovers `v`.
pub proof fn lemma_be4_round_trip(d: Seq<u8>, p: int, v: u32)
    requires
        0 <= p,
        p + 4 <= d.len(),
        d.subrange(p, p + 4) == be4(v),
    ensures
        be4_val(d, p) == v,
{
    assert(d[p] == (v >> 24) as u8 && d[p + 1] == (v >> 16) as u8 && d[p + 2] == (v >> 8) as u8
        && d[p + 3] == v as u8) by {
        assert(forall|i: int| 0 <= i < 4 ==> #[trigger] d.subrange(p, p + 4)[i] == d[p + i]);
    }
    assert(((((v >> 24) as u8) as u32) << 24 | (((v >> 16) as u8) as u32) << 16 | (((v
        >> 8) as u8) as u32) << 8 | ((v as u8) as u32)) == v) by (bit_vector);
}

/// Reading back the eight bytes of `be8(v)` recovers `v`.
pub proof fn lemma_be8_round_trip(d: Seq<u8>, p: int, v: u64)
    requires
        0 <= p,
        p + 8 <= d.len(),
        d.subrange(p, p + 8) == be8(v),
    ensures
        be8_val(d, p) == v,
{
    assert(d[p] == (v >> 56) as u8 && d[p + 1] == (v >> 48) as u8 && d[p + 2] == (v >> 40) as u8
        && d[p + 3] == (v >> 32) as u8 && d[p + 4] == (v >> 24) as u8 && d[p + 5] == (v
        >> 16) as u8 && d[p + 6] == (v >> 8) as u8 && d[p + 7] == v as u8) by {
        assert(forall|i: int| 0 <= i < 8 ==> #[trigger] d.subrange(p, p + 8)[i] == d[p + i]);
    }
    assert(((((v >> 56) as u8) as u64) << 56 | (((v >> 48) as u8) as u64) << 48 | (((v
        >> 40) as u8) as u64) << 40 | (((v >> 32) as u8) as u64) << 32 | (((v >> 24) as u8) as u64)
        << 24 | (((v >> 16) as u8) as u64) << 16 | (((v >> 8) as u8) as u64) << 8 | ((
    v as u8) as u64)) == v) by (bit_vector);
}

// ---------------------------------------------------------------------------
// Varint / varlong encodings: 7 payload bits per byte, least-significant
// group first, the high bit of a byte marking continuation.
// ---------------------------------------------------------------------------

/// The canonical varint encoding of a 32-bit value.
pub open spec fn varint_bytes(v: u32) -> Seq<u8>
    decreases v,
    via varint_bytes_dec
{
    if v < 0x80 {
        seq![v as u8]
    } else {
        seq![((v & 0x7f) | 0x80) as u8] + varint_bytes(v >> 7)
    }
}

#[via_fn]
proof fn varint_bytes_dec(v: u32) {
    assert(v >= 0x80 ==> v >> 7 < v) by (bit_vector);
}

/// The canonical varlong encoding of a 64-bit value.
pub open spec fn varlong_bytes(v: u64) -> Seq<u8>
    decreases v,
    via varlong_bytes_dec
{
    if v < 0x80 {
        seq![v as u8]
    } else {
        seq![((v & 0x7f) | 0x80) as u8] + varlong_bytes(v >> 7)
    }
}

#[via_fn]
proof fn varlong_bytes_dec(v: u64) {
    assert(v >= 0x80 ==> v >> 7 < v) by (bit_vector);
}

/// How many bytes a terminated group sequence occupies at position `p`,
/// if one terminates within `max` bytes of available data.
pub open spec fn varint_size(d: Seq<u8>, p: int, max: int) -> Option<int>
    decreases max,
{
    if p < 0 || p >= d.len() || max <= 0 {
        None
    } else if d[p] < 0x80 {
        Some(1)
    } else {
        match varint_size(d, p + 1, max - 1) {
            Some(n) => Some(n + 1),
            None => None,
        }
    }
}

/// The 32-bit value assembled from `n` groups at position `p`
/// (least-significant group first; bits beyond 32 are discarded).
pub open spec fn varint_val32(d: Seq<u8>, p: int, n: int) -> u32
    decreases n,
{
    if n <= 0 {
        0
    } else {
        (((d[p] & 0x7f) as u32) | (varint_val32(d, p + 1, n - 1) << 7)) as u32
    }
}

/// The 64-bit value assembled from `n` groups at position `p`.
pub open spec fn varint_val64(d: Seq<u8>, p: int, n: int) -> u64
    decreases n,
{
    if n <= 0 {
        0
    } else {
        (((d[p] & 0x7f) as u64) | (varint_val64(d, p + 1, n - 1) << 7)) as u64
    }
}

/// The bytes at `p` hold more than `max` consecutive continuation groups,
/// which the decoder rejects as malformed.
pub open spec fn varint_overflows(d: Seq<u8>, p: int, max: int) -> bool {
    p + max <= d.len() && (forall|i: int| p <= i < p + max ==> d[i] >= 0x80)
}

/// A complete varint (at most 5 bytes) starts at position `p`.
pub open spec fn varint_at(d: Seq<u8>, p: int) -> bool {
    varint_size(d, p, 5) is Some
}

/// A complete varlong (at most 10 bytes) starts at position `p`.
pub open spec fn varlong_at(d: Seq<u8>, p: int) -> bool {
    varint_size(d, p, 10) is Some
}

/// The exact length of the canonical varint encoding, between 1 and 5 bytes.
pub proof fn lemma_varint_len(v: u32)
    ensures
        varint_bytes(v).len() == if v < 0x80 {
            1int
        } else if v < 0x4000 {
            2int
        } else if v < 0x200000 {
            3int
        } else if v < 0x10000000 {
            4int
        } else {
            5int
        },
    decreases v,
{
    if v < 0x80 {
    } else {
        assert(v >> 7 < v && (v < 0x4000 ==> v >> 7 < 0x80) && (v < 0x200000 ==> v >> 7 < 0x4000)
            && (v < 0x10000000 ==> v >> 7 < 0x200000) && (v >> 7 < 0x10000000) && (v >= 0x4000
            ==> v >> 7 >= 0x80) && (v >= 0x200000 ==> v >> 7 >= 0x4000) && (v >= 0x10000000 ==> v
            >> 7 >= 0x200000)) by (bit_vector)
            requires
                v >= 0x80,
        ;
        lemma_varint_len(v >> 7);
    }
}

/// The exact length of the canonical varlong encoding, between 1 and 10 bytes.
pub proof fn lemma_varlong_len(v: u64)
    ensures
        1 <= varlong_bytes(v).len() <= 10,
        v < 0x80 ==> varlong_bytes(v).len() == 1,
    decreases v,
{
    if v < 0x80 {
    } else {
        assert(v >> 7 < v && v >> 7 < (1u64 << 63u64)) by (bit_vector)
            requires
                v >= 0x80,
        ;
        lemma_varlong_len_bounded(v >> 7, 9, 63);
    }
}

/// Helper: a value below `2^s` (with `s == 7 * max`) encodes in at most
/// `max` bytes.
proof fn lemma_varlong_len_bounded(v: u64, max: int, s: u64)
    requires
        1 <= max <= 10,
        s == 7 * max,
        max < 10 ==> v < (1u64 << s),
    ensures
        1 <= varlong_bytes(v).len() <= max,
    decreases max,
{
    if v < 0x80 {
    } else {
        if max < 10 {
            assert(s >= 8) by (bit_vector)
                requires
                    v >= 0x80 && v < (1u64 << s) && s <= 63,
            ;
        }
        assert(max >= 2);
        if max == 10 {
            assert((v >> 7) < (1u64 << 63u64)) by (bit_vector);
        } else {
            assert((v >> 7) < (1u64 << ((s - 7) as u64))) by (bit_vector)
                requires
                    v < (1u64 << s) && 14 <= s <= 63,
            ;
        }
        lemma_varlong_len_bounded(v >> 7, max - 1, (s - 7) as u64);
    }
}

/// Pointwise view of a subrange equality.
proof fn lemma_seq_at(d: Seq<u8>, p: int, s: Seq<u8>)
    requires
        0 <= p,
        p + s.len() <= d.len(),
        d.subrange(p, p + s.len() as int) == s,
    ensures
        forall|i: int| 0 <= i < s.len() ==> d[p + i] == #[trigger] s[i],
{
    assert forall|i: int| 0 <= i < s.len() implies d[p + i] == #[trigger] s[i] by {
        assert(d.subrange(p, p + s.len() as int)[i] == s[i]);
    }
}

/// Decoding the canonical varint encoding recovers the value: the group
/// sequence terminates after exactly `varint_bytes(v).len()` bytes and
/// reassembles to `v`.
pub proof fn lemma_varint_round_trip(d: Seq<u8>, p: int, v: u32, max: int)
    requires
        0 <= p,
        varint_bytes(v).len() <= max,
        p + varint_bytes(v).len() <= d.len(),
        d.subrange(p, p + varint_bytes(v).len() as int) == varint_bytes(v),
    ensures
        varint_size(d, p, max) == Some(varint_bytes(v).len() as int),
        varint_val32(d, p, varint_bytes(v).len() as int) == v,
    decreases v,
{
    let n = varint_bytes(v).len() as int;
    let enc = varint_bytes(v);
    lemma_seq_at(d, p, enc);
    if v < 0x80 {
        assert(enc[0] == v as u8);
        assert(varint_val32(d, p + 1, 0) == 0);
        assert((v as u8) < 0x80 && (((v as u8) & 0x7f) as u32 | (0u32 << 7u32)) == v)
            by (bit_vector)
            requires
                v < 0x80,
        ;
    } else {
        assert(enc[0] == ((v & 0x7f) | 0x80) as u8);
        assert((((v & 0x7f) | 0x80) as u8) >= 0x80 && v >> 7 < v && ((((v & 0x7f) | 0x80) as u8
            & 0x7f) as u32 | ((v >> 7) << 7)) == v) by (bit_vector)
            requires
                v >= 0x80,
        ;
        let tail = varint_bytes(v >> 7);
        assert(d.subrange(p + 1, p + 1 + tail.len() as int) =~= tail) by {
            assert forall|i: int|
                0 <= i < tail.len() implies d.subrange(p + 1, p + 1 + tail.len() as int)[i]
                == tail[i] by {
                assert(enc[i + 1] == tail[i]);
                assert(d[p + (i + 1)] == enc[i + 1]);
            }
        }
        lemma_varint_round_trip(d, p + 1, v >> 7, max - 1);
    }
}

/// Decoding the canonical varlong encoding recovers the value.
pub proof fn lemma_varlong_round_trip(d: Seq<u8>, p: int, v: u64, max: int)
    requires
        0 <= p,
        varlong_bytes(v).len() <= max,
        p + varlong_bytes(v).len() <= d.len(),
        d.subrange(p, p + varlong_bytes(v).len() as int) == varlong_bytes(v),
    ensures
        varint_size(d, p, max) == Some(varlong_bytes(v).len() as int),
        varint_val64(d, p, varlong_bytes(v).len() as int) == v,
    decreases v,
{
    let n = varlong_bytes(v).len() as int;
    let enc = varlong_bytes(v);
    lemma_seq_at(d, p, enc);
    if v < 0x80 {
        assert(enc[0] == v as u8);
        assert(varint_val64(d, p + 1, 0) == 0);
        assert((v as u8) < 0x80 && (((v as u8) & 0x7f) as u64 | (0u64 << 7u64)) == v)
            by (bit_vector)
            requires
                v < 0x80,
        ;
    } else {
        assert(enc[0] == ((v & 0x7f) | 0x80) as u8);
        assert((((v & 0x7f) | 0x80) as u8) >= 0x80 && v >> 7 < v && ((((v & 0x7f) | 0x80) as u8
            & 0x7f) as u64 | ((v >> 7) << 7)) == v) by (bit_vector)
            requires
                v >= 0x80,
        ;
        let tail = varlong_bytes(v >> 7);
        assert(d.subrange(p + 1, p + 1 + tail.len() as int) =~= tail) by {
            assert forall|i: int|
                0 <= i < tail.len() implies d.subrange(p + 1, p + 1 + tail.len() as int)[i]
                == tail[i] by {
                assert(enc[i + 1] == tail[i]);
                assert(d[p + (i + 1)] == enc[i + 1]);
            }
        }
        lemma_varlong_round_trip(d, p + 1, v >> 7, max - 1);
    }
}

/// One more group extends the assembled 32-bit value at bit offset `7 * k`.
pub proof fn lemma_varint_val32_extend(d: Seq<u8>, p: int, k: int)
    requires
        0 <= k <= 4,
        0 <= p,
        p + k < d.len(),
    ensures
        varint_val32(d, p, k + 1) == (varint_val32(d, p, k) | (((d[p + k] & 0x7f) as u32) << (7
            * k) as u32)) as u32,
    decreases k,
{
    if k == 0 {
        assert(varint_val32(d, p, 0) == 0 && varint_val32(d, p + 1, 0) == 0);
        assert(forall|g: u32| ((0u32 | (g << 0u32)) == g && (g | (0u32 << 7u32)) == g))
            by (bit_vector);
    } else {
        lemma_varint_val32_extend(d, p + 1, k - 1);
        let a = (d[p] & 0x7f) as u32;
        let x = varint_val32(d, p + 1, k - 1);
        let g = (d[p + k] & 0x7f) as u32;
        let s = (7 * (k - 1)) as u32;
        assert((a | ((x | (g << s)) << 7)) == ((a | (x << 7)) | (g << (s + 7)))) by (bit_vector)
            requires
                s <= 21,
        ;
    }
}

/// One more group extends the assembled 64-bit value at bit offset `7 * k`.
pub proof fn lemma_varint_val64_extend(d: Seq<u8>, p: int, k: int)
    requires
        0 <= k <= 9,
        0 <= p,
        p + k < d.len(),
    ensures
        varint_val64(d, p, k + 1) == (varint_val64(d, p, k) | (((d[p + k] & 0x7f) as u64) << (7
            * k) as u64)) as u64,
    decreases k,
{
    if k == 0 {
        assert(varint_val64(d, p, 0) == 0 && varint_val64(d, p + 1, 0) == 0);
        assert(forall|g: u64| ((0u64 | (g << 0u64)) == g && (g | (0u64 << 7u64)) == g))
            by (bit_vector);
    } else {
        lemma_varint_val64_extend(d, p + 1, k - 1);
        let a = (d[p] & 0x7f) as u64;
        let x = varint_val64(d, p + 1, k - 1);
        let g = (d[p + k] & 0x7f) as u64;
        let s = (7 * (k - 1)) as u64;
        assert((a | ((x | (g << s)) << 7)) == ((a | (x << 7)) | (g << (s + 7)))) by (bit_vector)
            requires
                s <= 56,
        ;
    }
}


/// A terminated group sequence: `k` continuation bytes followed by a final
/// byte determine the size.
pub proof fn lemma_varint_size_terminated(d: Seq<u8>, p: int, k: int, max: int)
    requires
        0 <= p,
        0 <= k < max,
        p + k < d.len(),
        forall|j: int| p <= j < p + k ==> d[j] >= 0x80,
        d[p + k] < 0x80,
    ensures
        varint_size(d, p, max) == Some(k + 1),
    decreases k,
{
    if k == 0 {
        assert(d[p + 0] < 0x80);
    } else {
        assert(d[p] >= 0x80);
        lemma_varint_size_terminated(d, p + 1, k - 1, max - 1);
    }
}

/// With `max` continuation bytes in a row, no group terminates in time.
pub proof fn lemma_varint_size_overflow(d: Seq<u8>, p: int, max: int)
    requires
        0 <= p,
        0 <= max,
        p + max <= d.len(),
        forall|j: int| p <= j < p + max ==> d[j] >= 0x80,
    ensures
        varint_size(d, p, max) is None,
    decreases max,
{
    if max > 0 {
        assert(d[p] >= 0x80);
        lemma_varint_size_overflow(d, p + 1, max - 1);
    }
}

/// When the data ends before any group terminates, there is no varint.
pub proof fn lemma_varint_size_underflow(d: Seq<u8>, p: int, max: int)
    requires
        0 <= p <= d.len(),
        d.len() - p < max,
        forall|j: int| p <= j < d.len() ==> d[j] >= 0x80,
    ensures
        varint_size(d, p, max) is None,
    decreases max,
{
    if p < d.len() {
        assert(d[p] >= 0x80);
        lemma_varint_size_underflow(d, p + 1, max - 1);
    }
}


/// Splitting a known concatenation out of a longer byte sequence.
pub proof fn lemma_concat_split(d: Seq<u8>, p: int, a: Seq<u8>, b: Seq<u8>)
    requires
        0 <= p,
        p + a.len() + b.len() <= d.len(),
        d.subrange(p, p + a.len() + b.len()) == a + b,
    ensures
        d.subrange(p, p + a.len() as int) == a,
        d.subrange(p + a.len(), p + a.len() + b.len()) == b,
{
    let n = a.len() as int;
    let m = b.len() as int;
    assert forall|i: int| 0 <= i < n + m implies d[p + i] == #[trigger] (a + b)[i] by {
        assert(d.subrange(p, p + n + m)[i] == (a + b)[i]);
    }
    assert(d.subrange(p, p + n) =~= a) by {
        assert(forall|i: int| 0 <= i < n ==> #[trigger] d.subrange(p, p + n)[i] == (a + b)[i]);
    }
    assert(d.subrange(p + n, p + n + m) =~= b) by {
        assert(forall|i: int|
            0 <= i < m ==> #[trigger] d.subrange(p + n, p + n + m)[i] == (a + b)[n + i]);
    }
}




/// Varint round trip: every 32-bit value decodes from its own canonical
/// encoding, which is at most 5 bytes long.
pub proof fn lemma_varint_i32_round_trip(v: i32)
    ensures
        varint_bytes(v as u32).len() <= 5,
        varint_at(varint_bytes(v as u32), 0),
        varint_size(varint_bytes(v as u32), 0, 5) == Some(varint_bytes(v as u32).len() as int),
        varint_val32(varint_bytes(v as u32), 0, varint_bytes(v as u32).len() as int) as i32 == v,
{
    let enc = varint_bytes(v as u32);
    lemma_varint_len(v as u32);
    assert(enc.subrange(0, enc.len() as int) =~= enc);
    lemma_varint_round_trip(enc, 0, v as u32, 5);
    lemma_cast_i32_round_trip(v);
}

/// Varlong round trip: every 64-bit value decodes from its own canonical
/// encoding, which is at most 10 bytes long.
pub proof fn lemma_varlong_i64_round_trip(v: i64)
    ensures
        varlong_bytes(v as u64).len() <= 10,
        varlong_at(varlong_bytes(v as u64), 0),
        varint_size(varlong_bytes(v as u64), 0, 10) == Some(varlong_bytes(v as u64).len() as int),
        varint_val64(varlong_bytes(v as u64), 0, varlong_bytes(v as u64).len() as int) as i64 == v,
{
    let enc = varlong_bytes(v as u64);
    lemma_varlong_len(v as u64);
    assert(enc.subrange(0, enc.len() as int) =~= enc);
    lemma_varlong_round_trip(enc, 0, v as u64, 10);
    lemma_cast_i64_round_trip(v);
}

// ---------------------------------------------------------------------------
// Signed/unsigned reinterpretation round trips
// ---------------------------------------------------------------------------

pub proof fn lemma_cast_u32_round_trip(x: u32)
    ensures
        (x as i32) as u32 == x,
{
    assert((x as i32) as u32 == x) by (bit_vector);
}

pub proof fn lemma_cast_i32_round_trip(x: i32)
    ensures
        (x as u32) as i32 == x,
{
    assert((x as u32) as i32 == x) by (bit_vector);
}

pub proof fn lemma_cast_i64_round_trip(x: i64)
    ensures
        (x as u64) as i64 == x,
{
    assert((x as u64) as i64 == x) by (bit_vector);
}

pub proof fn lemma_cast_i8_round_trip(x: i8)
    ensures
        (x as u8) as i8 == x,
{
    assert((x as u8) as i8 == x) by (bit_vector);
}

// ---------------------------------------------------------------------------
// Field-level decode helpers
// ---------------------------------------------------------------------------

/// Where a single byte field ends.
pub open spec fn byte_end(d: Seq<u8>, p: int) -> Option<int> {
    if 0 <= p < d.len() {
        Some(p + 1)
    } else {
        None
    }
}

/// Where an `n`-byte fixed-width field ends.
pub open spec fn fixed_end(d: Seq<u8>, p: int, n: int) -> Option<int> {
    if 0 <= p && p + n <= d.len() {
        Some(p + n)
    } else {
        None
    }
}

/// Where a varint field ends.
pub open spec fn varint_end(d: Seq<u8>, p: int) -> Option<int> {
    match varint_size(d, p, 5) {
        Some(sz) => Some(p + sz),
        None => None,
    }
}

/// The 32-bit value of a varint field (meaningful when `varint_end` is
/// `Some`).
pub open spec fn varint_value(d: Seq<u8>, p: int) -> i32 {
    varint_val32(d, p, varint_size(d, p, 5)->Some_0) as i32
}

/// Round trip of one varint-encoded 32-bit field.
pub proof fn lemma_varint_field_round_trip(d: Seq<u8>, p: int, x: i32)
    requires
        0 <= p,
        p + varint_bytes(x as u32).len() <= d.len(),
        d.subrange(p, p + varint_bytes(x as u32).len() as int) == varint_bytes(x as u32),
    ensures
        varint_end(d, p) == Some(p + varint_bytes(x as u32).len() as int),
        varint_value(d, p) == x,
{
    lemma_varint_len(x as u32);
    lemma_varint_round_trip(d, p, x as u32, 5);
    assert((x as u32) as i32 == x) by (bit_vector);
}


/// A single known byte sitting at `p`.
pub proof fn lemma_byte_field(d: Seq<u8>, p: int, b: u8)
    requires
        0 <= p,
        p + 1 <= d.len(),
        d.subrange(p, p + 1) == seq![b],
    ensures
        byte_end(d, p) == Some(p + 1),
        d[p] == b,
{
    assert(seq![b][0] == b);
    assert(d.subrange(p, p + 1)[0] == d[p]);
}

} // verus!
