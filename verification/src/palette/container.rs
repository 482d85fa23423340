//! The paletted block container: a fixed `L * L * L` grid of small block
//! ids, stored at a dynamic bit width behind a palette that grows on
//! overflow without losing any stored value.

use vstd::prelude::*;
use vstd::arithmetic::power2::pow2;
use crate::palette::content::PaletteContent;
use crate::palette::palette::{PaletteType, grown_once, palette_has};

verus! {

/// The format's maximum bit width; a Direct palette stores raw ids at this
/// width.
pub const MAX_BPE: u8 = 7;

pub struct PalettedContainer<const L: usize> {
    pub palette: PaletteType,
    pub content: PaletteContent<L>,
}

impl<const L: usize> PalettedContainer<L> {
    /// Well-formed: palette and backing array agree on the bit width, and
    /// every stored index resolves through the palette.
    pub open spec fn wf(self) -> bool {
        &&& self.palette.wf(MAX_BPE)
        &&& self.content.wf()
        &&& self.content.bits_per_entry == self.palette.spec_bpe(MAX_BPE)
        &&& (forall|i: int|
            0 <= i < self.content.total() ==> #[trigger] self.content.entry(i) < self.index_bound())
    }

    /// The exclusive upper bound on stored raw values: the table length for
    /// an indirect palette, the format bound otherwise.
    pub open spec fn index_bound(self) -> u64 {
        match self.palette {
            PaletteType::SingleValue(_) => 1,
            PaletteType::Indirect(_, t) => t@.len() as u64,
            PaletteType::Direct => pow2(MAX_BPE as nat) as u64,
        }
    }

    /// The abstract grid: the external id stored at every position.
    pub open spec fn ids(self) -> Seq<int> {
        Seq::new(
            self.content.total() as nat,
            |i: int| self.palette.spec_get_id(self.content.entry(i) as int),
        )
    }

    pub fn new() -> (r: Self)
        requires
            (L as int) * (L as int) * (L as int) + 63 <= usize::MAX,
        ensures
            r.wf(),
            r.ids() == Seq::new(((L as int) * (L as int) * (L as int)) as nat, |i: int| 0int),
    {
        let r = PalettedContainer {
            palette: PaletteType::SingleValue(0),
            content: PaletteContent::new(0),
        };
        proof {
            vstd::arithmetic::power2::lemma_pow2_pos(MAX_BPE as nat);
            assert(r.ids() =~= Seq::new(
                ((L as int) * (L as int) * (L as int)) as nat,
                |i: int| 0int,
            ));
        }
        r
    }

    /// A stored entry is small, and the id it resolves to fits the format.
    proof fn lemma_entry_small(self, i: int)
        requires
            self.wf(),
            0 <= i < self.content.total(),
        ensures
            self.content.entry(i) <= self.content.mask(),
            self.content.entry(i) < self.index_bound(),
            self.content.entry(i) < pow2(MAX_BPE as nat),
            self.index_bound() as int <= pow2(MAX_BPE as nat),
            0 <= self.ids()[i] < pow2(MAX_BPE as nat),
    {
        vstd::arithmetic::power2::lemma2_to64();
        let e = self.content.entry(i);
        assert(e <= self.content.mask()) by {
            if self.content.bits_per_entry != 0 {
                let b = self.content.bits_per_entry as u64;
                let w = self.content.data@[i / self.content.epl()];
                let sh = ((i % self.content.epl()) * self.content.bits_per_entry) as u64;
                assert((w >> sh) & (((1u64 << b) - 1) as u64) <= (((1u64 << b) - 1) as u64))
                    by (bit_vector);
            }
        }
        match self.palette {
            PaletteType::SingleValue(_) => {},
            PaletteType::Indirect(bpe, t) => {
                vstd::bits::lemma_u64_pow2_no_overflow(bpe as nat);
                vstd::bits::lemma_u64_shl_is_mul(1u64, bpe as u64);
                if (bpe as nat) < (MAX_BPE as nat) {
                    vstd::arithmetic::power2::lemma_pow2_strictly_increases(
                        bpe as nat,
                        MAX_BPE as nat,
                    );
                }
            },
            PaletteType::Direct => {
                vstd::bits::lemma_u64_pow2_no_overflow(MAX_BPE as nat);
                vstd::bits::lemma_u64_shl_is_mul(1u64, MAX_BPE as u64);
            },
        }
    }

    /// The id stored at `index`.
    pub fn get(&self, index: usize) -> (r: i32)
        requires
            self.wf(),
            (index as int) < self.content.total(),
        ensures
            r as int == self.ids()[index as int],
    {
        proof {
            self.lemma_entry_small(index as int);
        }
        let e = self.content.get(index);
        proof {
            vstd::arithmetic::power2::lemma2_to64();
            assert((e as u64) < 0x8000_0000u64 ==> e < 0x8000_0000usize) by (bit_vector);
        }
        self.palette.get_id(e)
    }

    /// Stores `value` at `index`. When the palette lacks the id, exactly
    /// one growth step (`grown_once`) makes it representable; every other
    /// position keeps its id, so growth never loses stored data.
    pub fn set(&mut self, index: usize, value: i32)
        requires
            old(self).wf(),
            (index as int) < old(self).content.total(),
            0 <= value < pow2(MAX_BPE as nat),
        ensures
            final(self).wf(),
            final(self).ids() == old(self).ids().update(index as int, value as int),
            palette_has(old(self).palette, value) ==> final(self).palette == old(self).palette,
            !palette_has(old(self).palette, value) ==> grown_once(
                old(self).palette,
                value,
                MAX_BPE,
                final(self).palette,
            ),
    {
        let p = self.palette.get_index(value);
        if let Some(idx) = p {
            proof {
                match &self.palette {
                    PaletteType::SingleValue(_) => {},
                    PaletteType::Indirect(_, t) => {
                        assert(t@[idx as int] == value);
                    },
                    PaletteType::Direct => {},
                }
            }
            self.store_index(index, value, idx);
            return ;
        }
        proof {
            match &self.palette {
                PaletteType::SingleValue(_) => {},
                PaletteType::Indirect(_, t) => {
                    assert(forall|j: int| 0 <= j < t@.len() ==> t@[j] != value);
                },
                PaletteType::Direct => {
                    // Direct lookup always succeeds, so a miss cannot
                    // happen here.
                    assert(false);
                },
            }
            assert(!palette_has(self.palette, value));
        }
        self.grow(value);
        let p2 = self.palette.get_index(value);
        match p2 {
            Some(idx) => {
                proof {
                    match &self.palette {
                        PaletteType::SingleValue(_) => {},
                        PaletteType::Indirect(_, t) => {
                            assert(t@[idx as int] == value);
                        },
                        PaletteType::Direct => {},
                    }
                }
                self.store_index(index, value, idx);
            },
            None => {
                proof {
                    // The grown palette holds the id, so the second lookup
                    // cannot miss.
                    assert(false);
                }
            },
        }
    }

    /// Writes the already-resolved palette index of `value` at `index`.
    fn store_index(&mut self, index: usize, value: i32, idx: usize)
        requires
            old(self).wf(),
            (index as int) < old(self).content.total(),
            0 <= value < pow2(MAX_BPE as nat),
            match old(self).palette {
                PaletteType::SingleValue(v) => idx == 0 && v == value,
                PaletteType::Indirect(_, t) => idx < t@.len() && t@[idx as int] == value,
                PaletteType::Direct => idx == value as usize,
            },
        ensures
            final(self).wf(),
            final(self).palette == old(self).palette,
            final(self).ids() == old(self).ids().update(index as int, value as int),
    {
        proof {
            vstd::arithmetic::power2::lemma2_to64();
            match &self.palette {
                PaletteType::SingleValue(_) => {},
                PaletteType::Indirect(bpe, _t) => {
                    vstd::bits::lemma_u64_pow2_no_overflow(*bpe as nat);
                    vstd::bits::lemma_u64_shl_is_mul(1u64, *bpe as u64);
                },
                PaletteType::Direct => {
                    vstd::bits::lemma_u64_pow2_no_overflow(MAX_BPE as nat);
                    vstd::bits::lemma_u64_shl_is_mul(1u64, MAX_BPE as u64);
                    assert((0 <= value && value < 0x80) ==> (((value as usize) as u64) < 0x80u64))
                        by (bit_vector);
                },
            }
        }
        let ghost pre = *self;
        self.content.set(index, idx);
        proof {
            assert forall|i: int|
                0 <= i < self.content.total() && i != index implies #[trigger] self.content.entry(
                i,
            ) == pre.content.entry(i) by {}
            assert(self.palette.spec_get_id(self.content.entry(index as int) as int) == value) by {
                if self.palette is Direct {
                    assert((0 <= value && value < 0x80) ==> ((value as usize) as int
                        == value as int)) by (bit_vector);
                    vstd::arithmetic::power2::lemma2_to64();
                }
            }
            assert(self.ids() =~= pre.ids().update(index as int, value as int));
        }
    }

    /// One growth step: the palette takes `value` in as `grown_once`
    /// describes, and the backing array is re-encoded so that every
    /// position keeps its id. An indirect table that merely appended keeps
    /// its raw indices as they are; a widened table has them copied over
    /// unchanged (the old table is a prefix of the new); promotion to
    /// Direct re-resolves every stored index through the old palette to
    /// its raw id.
    fn grow(&mut self, value: i32)
        requires
            old(self).wf(),
            !(old(self).palette is Direct),
            !palette_has(old(self).palette, value),
            0 <= value < pow2(MAX_BPE as nat),
        ensures
            final(self).wf(),
            final(self).ids() == old(self).ids(),
            final(self).content.total() == old(self).content.total(),
            grown_once(old(self).palette, value, MAX_BPE, final(self).palette),
            palette_has(final(self).palette, value),
    {
        proof {
            let l = L as int;
            if l >= 1 {
                vstd::arithmetic::mul::lemma_mul_nonnegative(l, l);
                vstd::arithmetic::mul::lemma_mul_inequality(1, l, l * l);
                vstd::arithmetic::mul::lemma_mul_is_commutative(l, l * l);
            } else {
                vstd::arithmetic::mul::lemma_mul_by_zero_is_zero(l);
            }
            vstd::arithmetic::power2::lemma2_to64();
        }
        let old_bpe = self.palette.bpe(MAX_BPE);
        let new_palette = self.palette.grow_with(value, MAX_BPE);
        let new_bpe = new_palette.bpe(MAX_BPE);
        let appended_in_place = match &new_palette {
            PaletteType::Indirect(_, _) => new_bpe == old_bpe,
            _ => false,
        };
        if appended_in_place {
            // The table only appended: stored indices keep their meaning
            // and their width.
            let ghost pre = *self;
            self.palette = new_palette;
            proof {
                assert forall|i: int| 0 <= i < self.content.total() implies #[trigger] self.ids()[i]
                    == pre.ids()[i] && self.content.entry(i) < self.index_bound() by {
                    pre.lemma_entry_small(i);
                    let e = pre.content.entry(i) as int;
                    match (&pre.palette, &self.palette) {
                        (PaletteType::Indirect(_, t), PaletteType::Indirect(_, t2)) => {
                            assert(t2@ == t@.push(value));
                            assert(t2@[e] == t@[e]);
                            assert(t2@.len() == t@.len() + 1);
                        },
                        _ => {
                            assert(false);
                        },
                    }
                }
                assert(self.ids() =~= pre.ids());
            }
            return ;
        }
        let mut new_content: PaletteContent<L> = PaletteContent::new(new_bpe as usize);
        let total = L * L * L;
        let ghost new_bound: u64 = match &new_palette {
            PaletteType::SingleValue(_) => 1u64,
            PaletteType::Indirect(_, t) => t@.len() as u64,
            PaletteType::Direct => 128u64,
        };
        proof {
            lemma_width_mask(new_palette, new_content);
        }
        match &new_palette {
            PaletteType::Indirect(_, _p) => {
                // The old table is a prefix of the new one, so raw indices
                // carry over unchanged.
                let mut i: usize = 0;
                while i < total
                    invariant
                        self == old(self),
                        self.wf(),
                        total == self.content.total(),
                        new_palette.wf(MAX_BPE),
                        new_palette matches PaletteType::Indirect(_, _),
                        new_content.wf(),
                        new_content.bits_per_entry == new_palette.spec_bpe(MAX_BPE),
                        new_content.bits_per_entry > 0,
                        new_content.total() == self.content.total(),
                        (new_bound as int) <= pow2(new_palette.spec_bpe(MAX_BPE) as nat),
                        new_bound == match new_palette {
                            PaletteType::SingleValue(_) => 1u64,
                            PaletteType::Indirect(_, t) => t@.len() as u64,
                            PaletteType::Direct => 128u64,
                        },
                        (new_content.mask() as int) + 1 == pow2(
                            new_palette.spec_bpe(MAX_BPE) as nat,
                        ),
                        i <= total,
                        forall|j: int|
                            0 <= j < i ==> #[trigger] new_content.entry(j) == self.content.entry(j)
                                && new_content.entry(j) < new_bound,
                        forall|j: int| i <= j < total ==> #[trigger] new_content.entry(j) == 0,
                        self.index_bound() <= new_bound,
                    decreases total - i,
                {
                    let e = self.content.get(i);
                    proof {
                        self.lemma_entry_small(i as int);
                    }
                    new_content.set(i, e);
                    i = i + 1;
                }
                proof {
                    assert forall|j: int| 0 <= j < total implies #[trigger] new_content.entry(j)
                        == self.content.entry(j) && new_content.entry(j) < new_bound by {}
                }
            },
            PaletteType::Direct => {
                // Stored values change meaning from table index to raw id,
                // so every position is re-resolved through the old palette.
                let mut i: usize = 0;
                while i < total
                    invariant
                        self == old(self),
                        self.wf(),
                        total == self.content.total(),
                        new_palette is Direct,
                        new_bound == 128u64,
                        new_content.wf(),
                        new_content.bits_per_entry == MAX_BPE as usize,
                        new_content.total() == self.content.total(),
                        (new_content.mask() as int) + 1 == pow2(MAX_BPE as nat),
                        i <= total,
                        forall|j: int|
                            0 <= j < i ==> #[trigger] new_content.entry(j) as int == self.ids()[j]
                                && new_content.entry(j) < 128,
                    decreases total - i,
                {
                    proof {
                        self.lemma_entry_small(i as int);
                        vstd::arithmetic::power2::lemma2_to64();
                    }
                    let e = self.content.get(i);
                    let id = self.palette.get_id(e);
                    proof {
                        assert((0 <= id && id < 0x80) ==> ((id as usize) as u64 == id as u64))
                            by (bit_vector);
                    }
                    new_content.set(i, id as usize);
                    i = i + 1;
                }
            },
            PaletteType::SingleValue(_) => {
                proof {
                    assert(false);
                }
            },
        }
        let ghost pre = *self;
        self.palette = new_palette;
        self.content = new_content;
        proof {
            assert forall|i: int| 0 <= i < self.content.total() implies #[trigger] self.ids()[i]
                == pre.ids()[i] by {
                pre.lemma_entry_small(i);
            }
            assert(self.ids() =~= pre.ids());
        }
    }
}

/// The mask of a backing array at a palette's width covers every value
/// below `2^width`.
proof fn lemma_width_mask<const L: usize>(p: PaletteType, c: PaletteContent<L>)
    requires
        c.bits_per_entry == p.spec_bpe(MAX_BPE),
        p.wf(MAX_BPE),
        !(p is SingleValue),
    ensures
        (c.mask() as int) + 1 == pow2(p.spec_bpe(MAX_BPE) as nat),
        p matches PaletteType::Indirect(_, t) ==> t@.len() <= pow2(p.spec_bpe(MAX_BPE) as nat),
{
    let b = p.spec_bpe(MAX_BPE);
    vstd::bits::lemma_u64_pow2_no_overflow(b as nat);
    vstd::bits::lemma_u64_shl_is_mul(1u64, b as u64);
    vstd::arithmetic::power2::lemma_pow2_pos(b as nat);
}

/// After promotion to the Direct palette, every stored index resolves to
/// itself: `get_id(index) == index`.
pub proof fn lemma_direct_palette_identity(index: int)
    ensures
        PaletteType::Direct.spec_get_id(index) == index,
{
}

} // verus!
