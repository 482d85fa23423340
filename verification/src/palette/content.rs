//! The bit-packed backing array of a paletted container: `L * L * L` entries
//! stored at a fixed bit width, packed into 64-bit words. A width of zero
//! stores nothing and reads as zero everywhere.

use vstd::prelude::*;
use vstd::pervasive::VecAdditionalExecFns;

verus! {

pub struct PaletteContent<const L: usize> {
    pub bits_per_entry: usize,
    pub data: Vec<u64>,
}

impl<const L: usize> PaletteContent<L> {
    /// The entry count of the container.
    pub open spec fn total(self) -> int {
        (L as int) * (L as int) * (L as int)
    }

    /// How many entries one 64-bit word holds.
    pub open spec fn epl(self) -> int {
        64int / (self.bits_per_entry as int)
    }

    /// The value mask of one entry.
    pub open spec fn mask(self) -> u64 {
        if self.bits_per_entry == 0 {
            0
        } else {
            (((1u64 << (self.bits_per_entry as u64)) - 1) as u64)
        }
    }

    /// Well-formed: the word array holds exactly enough words for the entry
    /// count at the current width.
    pub open spec fn wf(self) -> bool {
        self.total() + 63 <= usize::MAX && if self.bits_per_entry == 0 {
            self.data@.len() == 0
        } else {
            self.bits_per_entry < 32 && self.data@.len() == (self.total() + self.epl() - 1)
                / self.epl()
        }
    }

    /// The raw value stored at entry `i`.
    pub open spec fn entry(self, i: int) -> u64 {
        if self.bits_per_entry == 0 {
            0
        } else {
            ((self.data@[i / self.epl()] >> (((i % self.epl()) * self.bits_per_entry) as u64))
                & self.mask()) as u64
        }
    }

    /// Layout facts for an in-range entry at a non-zero width.
    proof fn lemma_layout(self, i: int)
        requires
            self.wf(),
            self.bits_per_entry >= 1,
            0 <= i < self.total(),
        ensures
            1 <= self.epl(),
            self.epl() * self.bits_per_entry <= 64,
            0 <= i % self.epl() < self.epl(),
            (i % self.epl()) * self.bits_per_entry + self.bits_per_entry <= 64,
            0 <= i / self.epl() < self.data@.len(),
    {
        let b = self.bits_per_entry as int;
        let epl = self.epl();
        let total = self.total();
        vstd::arithmetic::div_mod::lemma_div_by_self(b);
        vstd::arithmetic::div_mod::lemma_div_is_ordered(b, 64, b);
        vstd::arithmetic::div_mod::lemma_fundamental_div_mod(64, b);
        assert(0 <= 64int % b < b) by {
            vstd::arithmetic::div_mod::lemma_mod_bound(64, b);
        }
        assert(epl * b <= 64);
        vstd::arithmetic::div_mod::lemma_fundamental_div_mod(i, epl);
        assert(0 <= i % epl < epl) by {
            vstd::arithmetic::div_mod::lemma_mod_bound(i, epl);
        }
        assert((i % epl) * b + b <= epl * b) by {
            vstd::arithmetic::mul::lemma_mul_inequality(i % epl + 1, epl, b);
            vstd::arithmetic::mul::lemma_mul_is_distributive_add_other_way(b, i % epl, 1);
        }
        let len = (total + epl - 1) / epl;
        vstd::arithmetic::div_mod::lemma_fundamental_div_mod(total + epl - 1, epl);
        assert(0 <= (total + epl - 1) % epl < epl) by {
            vstd::arithmetic::div_mod::lemma_mod_bound(total + epl - 1, epl);
        }
        assert(len * epl >= total);
        assert(0 <= i / epl) by {
            vstd::arithmetic::div_mod::lemma_div_pos_is_pos(i, epl);
        }
        if i / epl >= len {
            vstd::arithmetic::mul::lemma_mul_inequality(len, i / epl, epl);
            assert((i / epl) * epl <= i);
            assert(false);
        }
    }

    pub fn new(bits_per_entry: usize) -> (r: Self)
        requires
            (L as int) * (L as int) * (L as int) + 63 <= usize::MAX,
            bits_per_entry == 0 || bits_per_entry < 32,
        ensures
            r.wf(),
            r.bits_per_entry == bits_per_entry,
            forall|i: int| 0 <= i < r.total() ==> r.entry(i) == 0,
    {
        if bits_per_entry == 0 {
            let r = PaletteContent { bits_per_entry, data: Vec::new() };
            return r;
        }
        proof {
            let l = L as int;
            if l >= 1 {
                vstd::arithmetic::mul::lemma_mul_nonnegative(l, l);
                vstd::arithmetic::mul::lemma_mul_inequality(1, l, l * l);
                vstd::arithmetic::mul::lemma_mul_is_commutative(l, l * l);
            } else {
                vstd::arithmetic::mul::lemma_mul_by_zero_is_zero(l);
            }
            vstd::arithmetic::div_mod::lemma_div_by_self(bits_per_entry as int);
            vstd::arithmetic::div_mod::lemma_div_is_ordered(
                bits_per_entry as int,
                64,
                bits_per_entry as int,
            );
            vstd::arithmetic::div_mod::lemma_div_nonincreasing(64, bits_per_entry as int);
        }
        let entries_per_long = 64 / bits_per_entry;
        let total_entries = L * L * L;
        let long_count = (total_entries + (entries_per_long - 1)) / entries_per_long;
        let r = PaletteContent { bits_per_entry, data: vec![0u64; long_count] };
        proof {
            assert forall|i: int| 0 <= i < r.total() implies r.entry(i) == 0 by {
                r.lemma_layout(i);
                let sh = ((i % r.epl()) * r.bits_per_entry) as u64;
                let m = r.mask();
                assert(((0u64 >> sh) & m) == 0) by (bit_vector);
            }
        }
        r
    }

    pub fn get(&self, index: usize) -> (r: usize)
        requires
            self.wf(),
            (index as int) < self.total(),
        ensures
            r as u64 == self.entry(index as int),
            r as u64 <= self.mask(),
    {
        if self.bits_per_entry == 0 {
            return 0;
        }
        proof {
            self.lemma_layout(index as int);
            let b = self.bits_per_entry as u64;
            assert(1u64 << b >= 1) by (bit_vector)
                requires
                    b < 32,
            ;
        }
        let entry_mask: u64 = (1u64 << (self.bits_per_entry as u64)) - 1;
        let entries_per_long = 64 / self.bits_per_entry;
        let l_index = index / entries_per_long;
        let r_index = index % entries_per_long;
        let v = (self.data[l_index] >> ((r_index * self.bits_per_entry) as u64)) & entry_mask;
        proof {
            let b = self.bits_per_entry as u64;
            let w = self.data@[l_index as int];
            let sh = (r_index * self.bits_per_entry) as u64;
            assert((w >> sh) & (((1u64 << b) - 1) as u64) <= (((1u64 << b) - 1) as u64) && (((
            1u64 << b) - 1) as u64) < 0x8000_0000u64) by (bit_vector)
                requires
                    1 <= b < 32,
            ;
        }
        v as usize
    }

    /// At width zero nothing is stored and the write is a no-op; at any
    /// other width the value must fit the entry mask.
    pub fn set(&mut self, index: usize, value: usize)
        requires
            old(self).wf(),
            (index as int) < old(self).total(),
            old(self).bits_per_entry > 0 ==> value as u64 <= old(self).mask(),
        ensures
            final(self).wf(),
            final(self).bits_per_entry == old(self).bits_per_entry,
            final(self).entry(index as int) == if old(self).bits_per_entry == 0 {
                0u64
            } else {
                value as u64
            },
            forall|j: int|
                0 <= j < old(self).total() && j != index ==> final(self).entry(j) == old(
                    self,
                ).entry(j),
    {
        if self.bits_per_entry == 0 {
            return ;
        }
        proof {
            self.lemma_layout(index as int);
            let b = self.bits_per_entry as u64;
            assert(1u64 << b >= 1) by (bit_vector)
                requires
                    b < 32,
            ;
        }
        let entry_mask: u64 = (1u64 << (self.bits_per_entry as u64)) - 1;
        let entries_per_long = 64 / self.bits_per_entry;
        let l_index = index / entries_per_long;
        let r_index = (index % entries_per_long) * self.bits_per_entry;
        let w = self.data[l_index];
        let neww = (w & !(entry_mask << (r_index as u64))) | ((value as u64) << (r_index as u64));
        self.data.set(l_index, neww);
        proof {
            let b = self.bits_per_entry as u64;
            let m = old(self).mask();
            let epl = old(self).epl();
            let ri = r_index as u64;
            lemma_bits_set_same(w, value as u64, m, ri, b);
            assert forall|j: int|
                0 <= j < old(self).total() && j != index implies self.entry(j) == old(self).entry(
                j,
            ) by {
                old(self).lemma_layout(j);
                if j / epl == (index as int) / epl {
                    let rj = ((j % epl) * old(self).bits_per_entry) as u64;
                    assert(j % epl != (index as int) % epl) by {
                        vstd::arithmetic::div_mod::lemma_fundamental_div_mod(j, epl);
                        vstd::arithmetic::div_mod::lemma_fundamental_div_mod(index as int, epl);
                    }
                    assert(rj + b <= ri || ri + b <= rj) by {
                        if j % epl < (index as int) % epl {
                            vstd::arithmetic::mul::lemma_mul_inequality(
                                j % epl + 1,
                                (index as int) % epl,
                                b as int,
                            );
                            vstd::arithmetic::mul::lemma_mul_is_distributive_add_other_way(
                                b as int,
                                j % epl,
                                1,
                            );
                        } else {
                            vstd::arithmetic::mul::lemma_mul_inequality(
                                (index as int) % epl + 1,
                                j % epl,
                                b as int,
                            );
                            vstd::arithmetic::mul::lemma_mul_is_distributive_add_other_way(
                                b as int,
                                (index as int) % epl,
                                1,
                            );
                        }
                    }
                    lemma_bits_set_other(w, value as u64, m, ri, rj, b);
                }
            }
        }
    }
}

/// Writing a slot and reading it back yields the written value.
proof fn lemma_bits_set_same(w: u64, v: u64, m: u64, r: u64, b: u64)
    requires
        1 <= b < 32,
        r + b <= 64,
        m == ((1u64 << b) - 1) as u64,
        v <= m,
    ensures
        (((w & !(m << r)) | (v << r)) >> r) & m == v,
{
    assert((((w & !((((1u64 << b) - 1) as u64) << r)) | (v << r)) >> r) & (((1u64 << b)
        - 1) as u64) == v) by (bit_vector)
        requires
            1 <= b < 32 && r + b <= 64 && v <= (((1u64 << b) - 1) as u64),
    ;
}

/// Writing one slot leaves every disjoint slot of the word unchanged.
proof fn lemma_bits_set_other(w: u64, v: u64, m: u64, r: u64, r2: u64, b: u64)
    requires
        1 <= b < 32,
        r + b <= 64,
        r2 + b <= 64,
        r2 + b <= r || r + b <= r2,
        m == ((1u64 << b) - 1) as u64,
        v <= m,
    ensures
        (((w & !(m << r)) | (v << r)) >> r2) & m == (w >> r2) & m,
{
    assert((((w & !((((1u64 << b) - 1) as u64) << r)) | (v << r)) >> r2) & (((1u64 << b)
        - 1) as u64) == (w >> r2) & (((1u64 << b) - 1) as u64)) by (bit_vector)
        requires
            1 <= b < 32 && r + b <= 64 && r2 + b <= 64 && (r2 + b <= r || r + b <= r2) && v <= (((
            1u64 << b) - 1) as u64),
    ;
}

} // verus!
