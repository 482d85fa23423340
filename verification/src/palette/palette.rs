//! The palette of a block container: a mapping from small storage indices
//! to external block ids, in one of three variants.

use vstd::prelude::*;
use vstd::arithmetic::power2::pow2;

verus! {

/// The table of an indirect palette.
#[derive(Debug, Clone)]
pub struct IndirectPalette {
    palette: Vec<i32>,
}

impl View for IndirectPalette {
    type V = Seq<i32>;

    closed spec fn view(&self) -> Seq<i32> {
        self.palette@
    }
}

/// A palette variant: a single id at width zero, a small ordered id table at
/// a given width, or the identity mapping at the format's maximum width.
#[derive(Debug)]
pub enum PaletteType {
    SingleValue(i32),
    Indirect(u8, IndirectPalette),
    Direct,
}

impl Default for PaletteType {
    fn default() -> (r: Self)
        ensures
            r == PaletteType::SingleValue(0),
    {
        PaletteType::SingleValue(0)
    }
}

impl PaletteType {
    /// The bit width this palette stores entries at.
    pub open spec fn spec_bpe(self, max_bpe: u8) -> u8 {
        match self {
            PaletteType::SingleValue(_) => 0,
            PaletteType::Indirect(bpe, _) => bpe,
            PaletteType::Direct => max_bpe,
        }
    }

    /// The external id a stored index resolves to.
    pub open spec fn spec_get_id(self, index: int) -> int {
        match self {
            PaletteType::SingleValue(v) => v as int,
            PaletteType::Indirect(_, p) => p@[index] as int,
            PaletteType::Direct => index,
        }
    }

    /// Well-formed for a format of maximum width `max_bpe`: ids fit the
    /// format, and an indirect table fits its declared width.
    pub open spec fn wf(self, max_bpe: u8) -> bool {
        match self {
            PaletteType::SingleValue(v) => 0 <= v < pow2(max_bpe as nat),
            PaletteType::Indirect(bpe, p) => 1 <= bpe <= max_bpe && p@.len() <= pow2(bpe as nat)
                && (forall|j: int|
                0 <= j < p@.len() ==> 0 <= #[trigger] p@[j] < pow2(max_bpe as nat)),
            PaletteType::Direct => true,
        }
    }

    pub fn get_id(&self, index: usize) -> (r: i32)
        requires
            self matches PaletteType::Indirect(_, p) ==> index < p@.len(),
            self is Direct ==> index < 0x8000_0000,
        ensures
            r as int == self.spec_get_id(index as int),
    {
        match self {
            PaletteType::SingleValue(v) => *v,
            PaletteType::Indirect(_, p) => p.palette[index],
            PaletteType::Direct => {
                let r = index as i32;
                proof {
                    assert(index < 0x8000_0000 ==> (index as i32) as int == index as int)
                        by (bit_vector);
                }
                r
            },
        }
    }

    /// Looks the id up: the first index mapping to it, `None` if the
    /// palette does not hold it (which forces growth).
    pub fn get_index(&self, id: i32) -> (r: Option<usize>)
        ensures
            self matches PaletteType::SingleValue(v) ==> r == (if v == id {
                Some(0usize)
            } else {
                None::<usize>
            }),
            self matches PaletteType::Indirect(_, p) ==> {
                &&& r matches Some(i) ==> 0 <= i < p@.len() && p@[i as int] == id && (forall|
                    j: int,
                |
                    0 <= j < i ==> p@[j] != id)
                &&& r is None ==> forall|j: int| 0 <= j < p@.len() ==> p@[j] != id
            },
            self is Direct ==> r == Some(id as usize),
    {
        match self {
            PaletteType::SingleValue(v) => {
                if *v == id {
                    Some(0)
                } else {
                    None
                }
            },
            PaletteType::Indirect(_, p) => {
                let mut i: usize = 0;
                while i < p.palette.len()
                    invariant
                        self matches PaletteType::Indirect(_, q) && q == p,
                        i <= p@.len(),
                        forall|j: int| 0 <= j < i ==> p@[j] != id,
                    decreases p@.len() - i,
                {
                    if p.palette[i] == id {
                        return Some(i);
                    }
                    i = i + 1;
                }
                None
            },
            PaletteType::Direct => Some(id as usize),
        }
    }

    pub fn bpe(&self, max_bpe: u8) -> (r: u8)
        ensures
            r == self.spec_bpe(max_bpe),
    {
        match self {
            PaletteType::SingleValue(_) => 0,
            PaletteType::Indirect(bpe, _) => *bpe,
            PaletteType::Direct => max_bpe,
        }
    }


    /// Grows just enough to represent `id` in one step, as `grown_once`
    /// describes.
    pub fn grow_with(&self, id: i32, max_bpe: u8) -> (r: Self)
        requires
            self.wf(max_bpe),
            4 <= max_bpe <= 16,
            !(self is Direct),
            0 <= id < pow2(max_bpe as nat),
        ensures
            r.wf(max_bpe),
            grown_once(*self, id, max_bpe, r),
            palette_has(r, id),
            r.spec_bpe(max_bpe) >= self.spec_bpe(max_bpe),
    {
        match self {
            PaletteType::SingleValue(v) => {
                let mut table: Vec<i32> = Vec::new();
                table.push(*v);
                table.push(id);
                proof {
                    vstd::arithmetic::power2::lemma2_to64();
                    assert(table@ =~= seq![*v, id]);
                    assert(table@[1] == id);
                }
                let r = PaletteType::Indirect(4, IndirectPalette { palette: table });
                proof {
                    assert(r->Indirect_1@[1] == id);
                }
                r
            },
            PaletteType::Indirect(b, t) => {
                proof {
                    vstd::bits::lemma_u64_pow2_no_overflow(*b as nat);
                    vstd::bits::lemma_u64_shl_is_mul(1u64, *b as u64);
                }
                let capacity: u64 = 1u64 << (*b as u64);
                let mut table: Vec<i32> = Vec::new();
                let mut i: usize = 0;
                while i < t.palette.len()
                    invariant
                        i <= t@.len(),
                        table@ == t@.take(i as int),
                    decreases t@.len() - i,
                {
                    table.push(t.palette[i]);
                    i = i + 1;
                    proof {
                        assert(table@ =~= t@.take(i as int));
                    }
                }
                proof {
                    assert(table@ =~= t@);
                }
                table.push(id);
                proof {
                    assert(table@ =~= t@.push(id));
                    assert(table@[t@.len() as int] == id);
                }
                if (t.palette.len() as u64) < capacity {
                    let r = PaletteType::Indirect(*b, IndirectPalette { palette: table });
                    proof {
                        assert(r->Indirect_1@[t@.len() as int] == id);
                    }
                    r
                } else if *b + 1 >= max_bpe {
                    PaletteType::Direct
                } else {
                    proof {
                        vstd::arithmetic::power2::lemma_pow2_adds(*b as nat, 1);
                        vstd::arithmetic::power2::lemma2_to64();
                    }
                    let r = PaletteType::Indirect(*b + 1, IndirectPalette { palette: table });
                    proof {
                        assert(r->Indirect_1@[t@.len() as int] == id);
                    }
                    r
                }
            },
            PaletteType::Direct => {
                proof {
                    assert(false);
                }
                PaletteType::Direct
            },
        }
    }

    /// Grows to a strictly wider palette. Widening an indirect palette
    /// keeps its table, so the old table is a prefix of the new one; once
    /// the requested width reaches the format's maximum the palette becomes
    /// Direct. A single-value palette is promoted to an indirect palette of
    /// width at least 4, seeded with its single value.
    pub fn grow(&self, bpe: u8, max_bpe: u8) -> (r: Self)
        requires
            self.wf(max_bpe),
            4 <= max_bpe <= 16,
            self.spec_bpe(max_bpe) < bpe,
        ensures
            r.wf(max_bpe),
            bpe >= max_bpe ==> r is Direct,
            bpe < max_bpe ==> {
                &&& r matches PaletteType::Indirect(b2, t)
                &&& b2 == if bpe < 4 {
                    4u8
                } else {
                    bpe
                }
                &&& match self {
                    PaletteType::SingleValue(v) => t@ =~= seq![*v],
                    PaletteType::Indirect(_, p) => t@ == p@,
                    PaletteType::Direct => false,
                }
            },
    {
        if bpe >= max_bpe {
            PaletteType::Direct
        } else {
            let indirect_bpe: u8 = if bpe < 4 {
                4
            } else {
                bpe
            };
            let mut initial_palette: Vec<i32> = Vec::new();
            match self {
                PaletteType::SingleValue(t) => initial_palette.push(*t),
                PaletteType::Indirect(_, p) => {
                    let mut i: usize = 0;
                    while i < p.palette.len()
                        invariant
                            i <= p@.len(),
                            initial_palette@ == p@.take(i as int),
                        decreases p@.len() - i,
                    {
                        initial_palette.push(p.palette[i]);
                        i = i + 1;
                        proof {
                            assert(initial_palette@ =~= p@.take(i as int));
                        }
                    }
                    proof {
                        assert(initial_palette@ =~= p@);
                    }
                },
                PaletteType::Direct => {
                    proof {
                        assert(false);
                    }
                },
            }
            proof {
                vstd::arithmetic::power2::lemma_pow2_pos(indirect_bpe as nat);
                let ob = self.spec_bpe(max_bpe) as nat;
                if ob < indirect_bpe as nat {
                    vstd::arithmetic::power2::lemma_pow2_strictly_increases(
                        ob,
                        indirect_bpe as nat,
                    );
                }
            }
            PaletteType::Indirect(indirect_bpe, IndirectPalette { palette: initial_palette })
        }
    }
}


/// Whether the palette can already represent `id`.
pub open spec fn palette_has(p: PaletteType, id: i32) -> bool {
    match p {
        PaletteType::SingleValue(v) => v == id,
        PaletteType::Indirect(_, t) => exists|j: int| 0 <= j < t@.len() && t@[j] == id,
        PaletteType::Direct => true,
    }
}

/// The single growth step taken for an id the palette lacks: a
/// single-value palette becomes a width-4 indirect table seeded with both
/// ids; an indirect table with room appends the id at its old width; a
/// full indirect table appends it one bit wider, or promotes to Direct
/// once the next width would reach the format's maximum. The old table is
/// always a prefix of the new one.
pub open spec fn grown_once(p: PaletteType, id: i32, max_bpe: u8, r: PaletteType) -> bool {
    match p {
        PaletteType::SingleValue(v) => r matches PaletteType::Indirect(b2, t2) && b2 == 4 && t2@
            == seq![v, id],
        PaletteType::Indirect(b, t) => {
            if t@.len() < pow2(b as nat) {
                r matches PaletteType::Indirect(b2, t2) && b2 == b && t2@ == t@.push(id)
            } else if b + 1 >= max_bpe {
                r is Direct
            } else {
                r matches PaletteType::Indirect(b2, t2) && b2 == b + 1 && t2@ == t@.push(id)
            }
        },
        PaletteType::Direct => false,
    }
}

} // verus!
