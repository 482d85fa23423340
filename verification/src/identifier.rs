//! Namespaced identifiers. On the wire an identifier is a single string,
//! the namespace and the value joined by the first `:`.

use vstd::prelude::*;
use vstd::string::StrSliceExecFns;
use vstd::utf8::encode_utf8;
use crate::buffer::{BufferError, BufferResult, McBuf, NetworkType, string_wire, string_dec_end,
    string_dec_chars};
use crate::extra::{STRING_FIELD_MAX, lemma_string_round_trip};

verus! {

/// The first position of `c` in `cs`, if any.
pub open spec fn find_char(cs: Seq<char>, c: char) -> Option<int>
    decreases cs.len(),
{
    if cs.len() == 0 {
        None
    } else if cs[0] == c {
        Some(0)
    } else {
        match find_char(cs.drop_first(), c) {
            Some(i) => Some(i + 1),
            None => None,
        }
    }
}

/// `find_char` returns the first hit: it is characterized by the character
/// at the hit and the absence of the character before it.
pub proof fn lemma_find_char_at(cs: Seq<char>, c: char, i: int)
    requires
        0 <= i < cs.len(),
        cs[i] == c,
        forall|j: int| 0 <= j < i ==> cs[j] != c,
    ensures
        find_char(cs, c) == Some(i),
    decreases i,
{
    if i > 0 {
        assert(forall|j: int| 0 <= j < i - 1 ==> cs.drop_first()[j] != c);
        assert(cs.drop_first()[i - 1] == c);
        lemma_find_char_at(cs.drop_first(), c, i - 1);
    }
}

/// When the character occurs nowhere, `find_char` finds nothing.
pub proof fn lemma_find_char_none(cs: Seq<char>, c: char)
    requires
        forall|j: int| 0 <= j < cs.len() ==> cs[j] != c,
    ensures
        find_char(cs, c) is None,
    decreases cs.len(),
{
    if cs.len() > 0 {
        assert(forall|j: int| 0 <= j < cs.drop_first().len() ==> cs.drop_first()[j] != c);
        lemma_find_char_none(cs.drop_first(), c);
    }
}

/// The abstract content of an identifier.
pub ghost struct IdentifierView {
    pub namespace: Seq<char>,
    pub value: Seq<char>,
}

/// A namespaced identifier such as `minecraft:overworld`.
#[derive(Debug, Clone)]
pub struct Identifier {
    namespace: String,
    value: String,
}

impl View for Identifier {
    type V = IdentifierView;

    closed spec fn view(&self) -> IdentifierView {
        IdentifierView { namespace: self.namespace@, value: self.value@ }
    }
}

impl Identifier {
    pub fn new(namespace: &str, value: &str) -> (r: Self)
        ensures
            r@.namespace == namespace@,
            r@.value == value@,
    {
        Identifier { namespace: namespace.to_owned(), value: value.to_owned() }
    }

    pub fn minecraft(value: &str) -> (r: Self)
        ensures
            r@.namespace == "minecraft"@,
            r@.value == value@,
    {
        Identifier::new("minecraft", value)
    }

    /// The combined `namespace:value` form.
    pub open spec fn joined(self) -> Seq<char> {
        self@.namespace + seq![':'] + self@.value
    }

    /// Renders the identifier in its combined `namespace:value` form.
    pub fn full_name(&self) -> (r: String)
        ensures
            r@ == self.joined(),
    {
        let mut out = self.namespace.clone();
        out.append(":");
        out.append(self.value.as_str());
        proof {
            reveal_strlit(":");
            assert(":"@ =~= seq![':']);
            assert(out@ =~= self.joined());
        }
        out
    }
}

impl NetworkType for Identifier {
    open spec fn wire(&self) -> Seq<u8> {
        string_wire(self.joined())
    }

    open spec fn dec_end(data: Seq<u8>, pos: int) -> Option<int> {
        match string_dec_end(data, pos, STRING_FIELD_MAX as int) {
            Some(end) => {
                if find_char(string_dec_chars(data, pos), ':') is Some {
                    Some(end)
                } else {
                    None
                }
            },
            None => None,
        }
    }

    open spec fn decodes_to(data: Seq<u8>, pos: int, v: &Self) -> bool {
        string_dec_end(data, pos, STRING_FIELD_MAX as int) is Some && {
            let cs = string_dec_chars(data, pos);
            match find_char(cs, ':') {
                Some(i) => v@.namespace == cs.take(i) && v@.value == cs.skip(i + 1),
                None => false,
            }
        }
    }

    open spec fn wire_ok(&self) -> bool {
        encode_utf8(self.joined()).len() <= 3 * STRING_FIELD_MAX && self.joined().len()
            <= STRING_FIELD_MAX && find_char(self@.namespace, ':') is None
    }

    fn read(buf: &mut McBuf) -> (r: BufferResult<Self>) {
        let s = match buf.read_string(STRING_FIELD_MAX) {
            Ok(s) => s,
            Err(e) => {
                return Err(e);
            },
        };
        let n = s.as_str().unicode_len();
        let mut i: usize = 0;
        while i < n && s.as_str().get_char(i) != ':'
            invariant
                n == s@.len(),
                0 <= i <= n,
                forall|j: int| 0 <= j < i ==> s@[j] != ':',
            decreases n - i,
        {
            i = i + 1;
        }
        if i >= n {
            proof {
                lemma_find_char_none(s@, ':');
            }
            return Err(BufferError::Generic("identifier without a namespace separator"));
        }
        proof {
            lemma_find_char_at(s@, ':', i as int);
        }
        let namespace = s.as_str().substring_char(0, i).to_owned();
        let value = s.as_str().substring_char(i + 1, n).to_owned();
        proof {
            assert(namespace@ =~= s@.take(i as int));
            assert(value@ =~= s@.skip(i + 1));
        }
        Ok(Identifier { namespace, value })
    }

    fn write(&self, buf: &mut McBuf) {
        let combined = self.full_name();
        buf.write_string(combined.as_str());
    }

    proof fn lemma_wire_round_trip(&self, data: Seq<u8>, pos: int) {
        lemma_string_round_trip(self.joined(), data, pos, STRING_FIELD_MAX as int);
        let cs = string_dec_chars(data, pos);
        assert(cs == self.joined());
        let i = self@.namespace.len() as int;
        assert(cs[i] == ':');
        lemma_find_char_none_inv(self@.namespace, ':');
        assert forall|j: int| 0 <= j < i implies cs[j] != ':' by {
            assert(cs[j] == self@.namespace[j]);
        }
        lemma_find_char_at(cs, ':', i);
        assert(cs.take(i) =~= self@.namespace);
        assert(cs.skip(i + 1) =~= self@.value);
    }
}

/// When `find_char` finds nothing, the character occurs nowhere.
pub proof fn lemma_find_char_none_inv(cs: Seq<char>, c: char)
    requires
        find_char(cs, c) is None,
    ensures
        forall|j: int| 0 <= j < cs.len() ==> cs[j] != c,
    decreases cs.len(),
{
    if cs.len() > 0 {
        lemma_find_char_none_inv(cs.drop_first(), c);
        assert forall|j: int| 0 <= j < cs.len() implies cs[j] != c by {
            if j > 0 {
                assert(cs.drop_first()[j - 1] == cs[j]);
            }
        }
    }
}

} // verus!
