//! The recursive tagged binary format used for structured metadata payloads
//! embedded in certain packets. This engine emits such payloads; it does not
//! parse them (they are a downstream consumer of the codec, and the server
//! only ever sends them).
//!
//! Floating-point tags carry their raw IEEE-754 bit patterns, which is all
//! the codec needs: the wire form of a float is exactly its bits.

use vstd::prelude::*;
use vstd::utf8::{decode_utf8, encode_utf8, valid_utf8};
use crate::buffer::{BufferError, BufferResult, McBuf, string_from_utf8_checked};
use crate::codec::{be2, be2_val, be4, be8};

verus! {

/// The content of one tag.
#[derive(Debug)]
pub enum TagContent {
    End,
    Byte(i8),
    Short(i16),
    Int(i32),
    Long(i64),
    /// A 32-bit IEEE-754 value, held as its raw bits.
    Float(u32),
    /// A 64-bit IEEE-754 value, held as its raw bits.
    Double(u64),
    ByteArray(Vec<i8>),
    String(String),
    List(Vec<NBTTag>),
    Compound(Vec<NBTTag>),
    IntArray(Vec<i32>),
    LongArray(Vec<i64>),
}

/// A tag: its content and an optional name.
#[derive(Debug)]
pub struct NBTTag {
    pub content: TagContent,
    pub name: Option<String>,
}

impl NBTTag {
    pub fn boolean(name: Option<String>, value: bool) -> (r: Self)
        ensures
            r.content == TagContent::Byte(
                if value {
                    1i8
                } else {
                    0i8
                },
            ),
            r.name == name,
    {
        NBTTag {
            content: TagContent::Byte(
                if value {
                    1
                } else {
                    0
                },
            ),
            name,
        }
    }

    pub fn byte(name: Option<String>, value: i8) -> (r: Self)
        ensures
            r.content == TagContent::Byte(value),
            r.name == name,
    {
        NBTTag { content: TagContent::Byte(value), name }
    }

    pub fn short(name: Option<String>, value: i16) -> (r: Self)
        ensures
            r.content == TagContent::Short(value),
            r.name == name,
    {
        NBTTag { content: TagContent::Short(value), name }
    }

    pub fn int_tag(name: Option<String>, value: i32) -> (r: Self)
        ensures
            r.content == TagContent::Int(value),
            r.name == name,
    {
        NBTTag { content: TagContent::Int(value), name }
    }

    pub fn long(name: Option<String>, value: i64) -> (r: Self)
        ensures
            r.content == TagContent::Long(value),
            r.name == name,
    {
        NBTTag { content: TagContent::Long(value), name }
    }

    /// Takes the raw bits of a 32-bit IEEE-754 value.
    pub fn float_bits(name: Option<String>, bits: u32) -> (r: Self)
        ensures
            r.content == TagContent::Float(bits),
            r.name == name,
    {
        NBTTag { content: TagContent::Float(bits), name }
    }

    /// Takes the raw bits of a 64-bit IEEE-754 value.
    pub fn double_bits(name: Option<String>, bits: u64) -> (r: Self)
        ensures
            r.content == TagContent::Double(bits),
            r.name == name,
    {
        NBTTag { content: TagContent::Double(bits), name }
    }

    pub fn byte_array(name: Option<String>, value: Vec<i8>) -> (r: Self)
        ensures
            r.content == TagContent::ByteArray(value),
            r.name == name,
    {
        NBTTag { content: TagContent::ByteArray(value), name }
    }

    pub fn string(name: Option<String>, value: String) -> (r: Self)
        ensures
            r.content == TagContent::String(value),
            r.name == name,
    {
        NBTTag { content: TagContent::String(value), name }
    }

    /// Every tag of a list must share one content kind; a mixed list
    /// produces bytes that no reader can decode.
    pub fn list(name: Option<String>, tags: Vec<NBTTag>) -> (r: Self)
        ensures
            r.content == TagContent::List(tags),
            r.name == name,
    {
        NBTTag { content: TagContent::List(tags), name }
    }

    pub fn compound(name: Option<String>, tags: Vec<NBTTag>) -> (r: Self)
        ensures
            r.content == TagContent::Compound(tags),
            r.name == name,
    {
        NBTTag { content: TagContent::Compound(tags), name }
    }

    pub fn int_array(name: Option<String>, values: Vec<i32>) -> (r: Self)
        ensures
            r.content == TagContent::IntArray(values),
            r.name == name,
    {
        NBTTag { content: TagContent::IntArray(values), name }
    }

    pub fn long_array(name: Option<String>, values: Vec<i64>) -> (r: Self)
        ensures
            r.content == TagContent::LongArray(values),
            r.name == name,
    {
        NBTTag { content: TagContent::LongArray(values), name }
    }
}

// ---------------------------------------------------------------------------
// Wire form
// ---------------------------------------------------------------------------

/// The type discriminant byte of a content kind.
pub open spec fn spec_type_id(c: TagContent) -> u8 {
    match c {
        TagContent::End => 0,
        TagContent::Byte(_) => 1,
        TagContent::Short(_) => 2,
        TagContent::Int(_) => 3,
        TagContent::Long(_) => 4,
        TagContent::Float(_) => 5,
        TagContent::Double(_) => 6,
        TagContent::ByteArray(_) => 7,
        TagContent::String(_) => 8,
        TagContent::List(_) => 9,
        TagContent::Compound(_) => 10,
        TagContent::IntArray(_) => 11,
        TagContent::LongArray(_) => 12,
    }
}

/// The wire form of a name: a 16-bit byte length then UTF-8 bytes; an
/// absent name travels as length zero.
pub open spec fn name_wire(name: Option<String>) -> Seq<u8> {
    match name {
        Some(n) => be2(encode_utf8(n@).len() as u16) + encode_utf8(n@),
        None => be2(0),
    }
}

/// The wire form of a tag's content.
pub open spec fn content_wire(c: TagContent) -> Seq<u8>
    decreases c,
{
    match c {
        TagContent::End => Seq::<u8>::empty(),
        TagContent::Byte(v) => seq![v as u8],
        TagContent::Short(v) => be2(v as u16),
        TagContent::Int(v) => be4(v as u32),
        TagContent::Long(v) => be8(v as u64),
        TagContent::Float(bits) => be4(bits),
        TagContent::Double(bits) => be8(bits),
        TagContent::ByteArray(v) => be4(v@.len() as u32) + Seq::new(
            v@.len(),
            |i: int| v@[i] as u8,
        ),
        TagContent::String(s) => be2(encode_utf8(s@).len() as u16) + encode_utf8(s@),
        TagContent::List(v) => {
            if v@.len() == 0 {
                seq![0u8] + be4(0)
            } else {
                seq![spec_type_id(v@[0].content)] + be4(v@.len() as u32) + list_items_wire(v@, 0)
            }
        },
        TagContent::Compound(v) => compound_items_wire(v@, 0) + seq![0u8],
        TagContent::IntArray(v) => be4(v@.len() as u32) + ints_wire(v@, 0),
        TagContent::LongArray(v) => be4(v@.len() as u32) + longs_wire(v@, 0),
    }
}

/// The wire form of the items of a list from index `i` on: each item's name
/// and content, without its type id.
pub open spec fn list_items_wire(s: Seq<NBTTag>, i: int) -> Seq<u8>
    decreases s, s.len() - i,
{
    if i < 0 || i >= s.len() {
        Seq::<u8>::empty()
    } else {
        name_wire(s[i].name) + content_wire(s[i].content) + list_items_wire(s, i + 1)
    }
}

/// The wire form of the items of a compound from index `i` on: each item's
/// type id, name and content.
pub open spec fn compound_items_wire(s: Seq<NBTTag>, i: int) -> Seq<u8>
    decreases s, s.len() - i,
{
    if i < 0 || i >= s.len() {
        Seq::<u8>::empty()
    } else {
        seq![spec_type_id(s[i].content)] + name_wire(s[i].name) + content_wire(s[i].content)
            + compound_items_wire(s, i + 1)
    }
}

pub open spec fn ints_wire(s: Seq<i32>, i: int) -> Seq<u8>
    decreases s.len() - i,
{
    if i < 0 || i >= s.len() {
        Seq::<u8>::empty()
    } else {
        be4(s[i] as u32) + ints_wire(s, i + 1)
    }
}

pub open spec fn longs_wire(s: Seq<i64>, i: int) -> Seq<u8>
    decreases s.len() - i,
{
    if i < 0 || i >= s.len() {
        Seq::<u8>::empty()
    } else {
        be8(s[i] as u64) + longs_wire(s, i + 1)
    }
}

/// The full wire form of a named tag: type id, name, content.
pub open spec fn tag_wire(t: NBTTag) -> Seq<u8> {
    seq![spec_type_id(t.content)] + name_wire(t.name) + content_wire(t.content)
}

impl TagContent {
    pub fn type_id(&self) -> (r: u8)
        ensures
            r == spec_type_id(*self),
    {
        match self {
            TagContent::End => 0,
            TagContent::Byte(_) => 1,
            TagContent::Short(_) => 2,
            TagContent::Int(_) => 3,
            TagContent::Long(_) => 4,
            TagContent::Float(_) => 5,
            TagContent::Double(_) => 6,
            TagContent::ByteArray(_) => 7,
            TagContent::String(_) => 8,
            TagContent::List(_) => 9,
            TagContent::Compound(_) => 10,
            TagContent::IntArray(_) => 11,
            TagContent::LongArray(_) => 12,
        }
    }

    pub fn write_id(&self, buf: &mut McBuf)
        requires
            old(buf).wf(),
        ensures
            final(buf).wf(),
            final(buf)@.read == old(buf)@.read,
            final(buf)@.data == old(buf)@.data.push(spec_type_id(*self)),
    {
        buf.write_u8(self.type_id())
    }

    /// Writes the content in its wire form. A list writes the type id of
    /// its first item once and then each item's name and content; a mixed
    /// list therefore produces undecodable bytes.
    pub fn write_content(&self, buf: &mut McBuf)
        requires
            old(buf).wf(),
        ensures
            final(buf).wf(),
            final(buf)@.read == old(buf)@.read,
            final(buf)@.data == old(buf)@.data + content_wire(*self),
        decreases *self,
    {
        let ghost base = buf@.data;
        match self {
            TagContent::End => {
                proof {
                    assert(buf@.data =~= base + content_wire(*self));
                }
            },
            TagContent::Byte(value) => {
                buf.write_byte(*value);
                proof {
                    assert(buf@.data =~= base + content_wire(*self));
                }
            },
            TagContent::Short(value) => {
                buf.write_short(*value);
            },
            TagContent::Int(value) => {
                buf.write_int(*value);
            },
            TagContent::Long(value) => {
                buf.write_long(*value);
            },
            TagContent::Float(bits) => {
                buf.write_uint(*bits);
            },
            TagContent::Double(bits) => {
                buf.write_ulong(*bits);
            },
            TagContent::ByteArray(value) => {
                let n32: u32 = value.len() as u32;
                proof {
                    crate::codec::lemma_cast_u32_round_trip(n32);
                }
                buf.write_int(n32 as i32);
                let mut i: usize = 0;
                while i < value.len()
                    invariant
                        buf.wf(),
                        buf@.read == old(buf)@.read,
                        i <= value@.len(),
                        buf@.data == base + be4(value@.len() as u32) + Seq::new(
                            i as nat,
                            |j: int| value@[j] as u8,
                        ),
                    decreases value@.len() - i,
                {
                    buf.write_byte(value[i]);
                    i = i + 1;
                    proof {
                        assert(buf@.data =~= base + be4(value@.len() as u32) + Seq::new(
                            i as nat,
                            |j: int| value@[j] as u8,
                        ));
                    }
                }
                proof {
                    assert(Seq::new(value@.len(), |j: int| value@[j] as u8) =~= Seq::new(
                        value@.len() as nat,
                        |j: int| value@[j] as u8,
                    ));
                    assert(buf@.data =~= base + content_wire(*self));
                }
            },
            TagContent::String(value) => {
                let bytes = value.as_str().as_bytes();
                let n16: u16 = bytes.len() as u16;
                buf.write_ushort(n16);
                buf.write_slice(bytes);
                proof {
                    assert(buf@.data =~= base + content_wire(*self));
                }
            },
            TagContent::List(value) => {
                if value.len() == 0 {
                    buf.write_u8(0);
                    buf.write_int(0);
                    proof {
                        assert(content_wire(*self) =~= seq![0u8] + be4(0));
                        assert(buf@.data =~= base + content_wire(*self));
                    }
                } else {
                    let type_id = value[0].content.type_id();
                    buf.write_u8(type_id);
                    let n32: u32 = value.len() as u32;
                    proof {
                        assert((n32 as i32) as u32 == n32) by (bit_vector);
                    }
                    buf.write_int(n32 as i32);
                    let ghost hdr = base + seq![spec_type_id(value@[0].content)] + be4(
                        value@.len() as u32,
                    );
                    proof {
                        assert(buf@.data =~= hdr + list_items_wire(value@, value@.len() as int));
                    }
                    let mut i: usize = 0;
                    while i < value.len()
                        invariant
                            *self == TagContent::List(*value),
                            buf.wf(),
                            buf@.read == old(buf)@.read,
                            i <= value@.len(),
                            hdr + list_items_wire(value@, 0) == buf@.data + list_items_wire(
                                value@,
                                i as int,
                            ),
                        decreases value@.len() - i,
                    {
                        proof {
                            assert(*self == TagContent::List(*value));
                            assert(decreases_to!(*self => (*self)->List_0));
                            assert(decreases_to!((*self)->List_0 => (*self)->List_0@));
                            assert(decreases_to!((*self)->List_0@ => (*self)->List_0@[i as int]));
                        }
                        let ghost pre = buf@.data;
                        value[i].write_name_and_content(buf);
                        proof {
                            assert(hdr + list_items_wire(value@, 0) =~= buf@.data
                                + list_items_wire(value@, i + 1));
                        }
                        i = i + 1;
                    }
                    proof {
                        assert(list_items_wire(value@, value@.len() as int)
                            =~= Seq::<u8>::empty());
                        assert(buf@.data =~= hdr + list_items_wire(value@, 0));
                        assert(buf@.data =~= base + content_wire(*self));
                    }
                }
            },
            TagContent::Compound(value) => {
                let mut i: usize = 0;
                proof {
                    assert(compound_items_wire(value@, value@.len() as int) =~= Seq::<u8>::empty());
                    assert(base + compound_items_wire(value@, 0) =~= buf@.data
                        + compound_items_wire(value@, 0));
                }
                while i < value.len()
                    invariant
                        *self == TagContent::Compound(*value),
                        buf.wf(),
                        buf@.read == old(buf)@.read,
                        i <= value@.len(),
                        base + compound_items_wire(value@, 0) == buf@.data + compound_items_wire(
                            value@,
                            i as int,
                        ),
                    decreases value@.len() - i,
                {
                    proof {
                        assert(*self == TagContent::Compound(*value));
                        assert(decreases_to!(*self => (*self)->Compound_0));
                        assert(decreases_to!((*self)->Compound_0 => (*self)->Compound_0@));
                        assert(decreases_to!((*self)->Compound_0@ => (*self)->Compound_0@[
                            i as int
                        ]));
                    }
                    value[i].content.write_id(buf);
                    value[i].write_name_and_content(buf);
                    proof {
                        assert(base + compound_items_wire(value@, 0) =~= buf@.data
                            + compound_items_wire(value@, i + 1));
                    }
                    i = i + 1;
                }
                buf.write_u8(0);
                proof {
                    assert(buf@.data =~= base + content_wire(*self));
                }
            },
            TagContent::IntArray(value) => {
                let n32: u32 = value.len() as u32;
                proof {
                    crate::codec::lemma_cast_u32_round_trip(n32);
                }
                buf.write_int(n32 as i32);
                let ghost hdr = base + be4(value@.len() as u32);
                let mut i: usize = 0;
                proof {
                    assert(ints_wire(value@, value@.len() as int) =~= Seq::<u8>::empty());
                    assert(hdr + ints_wire(value@, 0) =~= buf@.data + ints_wire(value@, 0));
                }
                while i < value.len()
                    invariant
                        buf.wf(),
                        buf@.read == old(buf)@.read,
                        i <= value@.len(),
                        hdr + ints_wire(value@, 0) == buf@.data + ints_wire(value@, i as int),
                    decreases value@.len() - i,
                {
                    buf.write_int(value[i]);
                    proof {
                        assert(hdr + ints_wire(value@, 0) =~= buf@.data + ints_wire(
                            value@,
                            i + 1,
                        ));
                    }
                    i = i + 1;
                }
                proof {
                    assert(buf@.data =~= base + content_wire(*self));
                }
            },
            TagContent::LongArray(value) => {
                let n32: u32 = value.len() as u32;
                proof {
                    crate::codec::lemma_cast_u32_round_trip(n32);
                }
                buf.write_int(n32 as i32);
                let ghost hdr = base + be4(value@.len() as u32);
                let mut i: usize = 0;
                proof {
                    assert(longs_wire(value@, value@.len() as int) =~= Seq::<u8>::empty());
                    assert(hdr + longs_wire(value@, 0) =~= buf@.data + longs_wire(value@, 0));
                }
                while i < value.len()
                    invariant
                        buf.wf(),
                        buf@.read == old(buf)@.read,
                        i <= value@.len(),
                        hdr + longs_wire(value@, 0) == buf@.data + longs_wire(value@, i as int),
                    decreases value@.len() - i,
                {
                    buf.write_long(value[i]);
                    proof {
                        assert(hdr + longs_wire(value@, 0) =~= buf@.data + longs_wire(
                            value@,
                            i + 1,
                        ));
                    }
                    i = i + 1;
                }
                proof {
                    assert(buf@.data =~= base + content_wire(*self));
                }
            },
        }
    }
}

impl NBTTag {
    pub fn write_name(&self, buf: &mut McBuf)
        requires
            old(buf).wf(),
        ensures
            final(buf).wf(),
            final(buf)@.read == old(buf)@.read,
            final(buf)@.data == old(buf)@.data + name_wire(self.name),
    {
        match &self.name {
            Some(name) => {
                let bytes = name.as_str().as_bytes();
                let n16: u16 = bytes.len() as u16;
                buf.write_ushort(n16);
                buf.write_slice(bytes);
                proof {
                    assert(buf@.data =~= old(buf)@.data + name_wire(self.name));
                }
            },
            None => {
                buf.write_ushort(0);
            },
        }
    }

    pub fn write_name_and_content(&self, buf: &mut McBuf)
        requires
            old(buf).wf(),
        ensures
            final(buf).wf(),
            final(buf)@.read == old(buf)@.read,
            final(buf)@.data == old(buf)@.data + name_wire(self.name) + content_wire(self.content),
        decreases *self,
    {
        self.write_name(buf);
        self.content.write_content(buf);
    }


    /// Reads a name field back: a 16-bit byte length, then that many UTF-8
    /// bytes; length zero stands for no name.
    pub fn read_name(buf: &mut McBuf) -> (r: BufferResult<Option<String>>)
        requires
            old(buf).wf(),
        ensures
            final(buf).wf(),
            final(buf)@.data == old(buf)@.data,
            ({
                let d = old(buf)@.data;
                let p = old(buf)@.read;
                &&& (r is Ok <==> p + 2 <= d.len() && p + 2 + be2_val(d, p) <= d.len()
                    && valid_utf8(d.subrange(p + 2, p + 2 + be2_val(d, p))))
                &&& r matches Ok(name) ==> final(buf)@.read == p + 2 + be2_val(d, p) && (
                if be2_val(d, p) == 0 {
                    name is None
                } else {
                    name matches Some(n) && n@ == decode_utf8(
                        d.subrange(p + 2, p + 2 + be2_val(d, p)),
                    )
                })
            }),
    {
        let len = match buf.read_ushort() {
            Ok(v) => v,
            Err(e) => {
                return Err(e);
            },
        };
        if len == 0 {
            proof {
                assert(old(buf)@.data.subrange(
                    old(buf)@.read + 2,
                    old(buf)@.read + 2 + 0,
                ) =~= Seq::<u8>::empty());
                vstd::utf8::encode_utf8_valid_utf8(Seq::<char>::empty());
                assert(encode_utf8(Seq::<char>::empty()) =~= Seq::<u8>::empty());
            }
            return Ok(None);
        }
        let raw = match buf.read_dyn_array(len as usize) {
            Ok(v) => v,
            Err(e) => {
                return Err(e);
            },
        };
        match string_from_utf8_checked(raw) {
            Some(s) => Ok(Some(s)),
            None => Err(BufferError::StringDecodeError),
        }
    }

    /// Writes the tag with its type id and content, but no name: the root
    /// form used when a tag is embedded in a packet.
    pub fn write_root(&self, buf: &mut McBuf)
        requires
            old(buf).wf(),
        ensures
            final(buf).wf(),
            final(buf)@.read == old(buf)@.read,
            final(buf)@.data == old(buf)@.data.push(spec_type_id(self.content)) + content_wire(
                self.content,
            ),
    {
        self.content.write_id(buf);
        self.content.write_content(buf);
    }
}

} // verus!
