//! Page-table entries in the Sv39 layout: ten flag bits, then the physical
//! page number.

use vstd::prelude::*;

verus! {

/// The low ten bits of an entry hold its flags.
pub const FLAGS_MASK: u64 = 0x3ff;

pub const PTE_V: u64 = 1;
pub const PTE_R: u64 = 2;
pub const PTE_W: u64 = 4;
pub const PTE_X: u64 = 8;
pub const PTE_U: u64 = 16;

/// The physical address an entry points at: its page number shifted to a
/// page boundary.
pub open spec fn pte_target(bits: u64) -> u64 {
    (bits >> 10u64) << 12u64
}

pub open spec fn pte_flags(bits: u64) -> u64 {
    bits & FLAGS_MASK
}

pub open spec fn pte_valid(bits: u64) -> bool {
    bits & PTE_V == PTE_V
}

/// The entry that points at `addr`'s page and keeps the flags of `bits`.
pub open spec fn pte_with_target(bits: u64, addr: u64) -> u64 {
    ((addr >> 12u64) << 10u64) | (bits & FLAGS_MASK)
}

/// Pointing an entry at a new page keeps its valid bit and makes it point
/// at that page.
pub proof fn lemma_with_target(bits: u64, addr: u64)
    ensures
        pte_valid(pte_with_target(bits, addr)) == pte_valid(bits),
        pte_flags(pte_with_target(bits, addr)) == pte_flags(bits),
        pte_target(pte_with_target(bits, addr)) == (addr >> 12u64) << 12u64,
{
    assert(((((addr >> 12u64) << 10u64) | (bits & 0x3ffu64)) & 0x3ffu64) == (bits & 0x3ffu64))
        by (bit_vector);
    assert((((((addr >> 12u64) << 10u64) | (bits & 0x3ffu64)) >> 10u64) << 12u64) == ((addr
        >> 12u64) << 12u64)) by (bit_vector);
    assert(((((addr >> 12u64) << 10u64) | (bits & 0x3ffu64)) & 1u64 == 1u64) == (bits & 1u64
        == 1u64)) by (bit_vector);
}

/// One page-table entry.
#[derive(Clone, Copy, PartialEq, Eq, Structural, Debug)]
pub struct PTE(pub u64);

impl PTE {
    pub fn get_paddr(&self) -> (r: u64)
        ensures
            r == pte_target(self.0),
    {
        let r: u64 = (self.0 & !FLAGS_MASK) << 2u64;
        let b: u64 = self.0;
        assert(((b & !0x3ffu64) << 2u64) == ((b >> 10u64) << 12u64)) by (bit_vector);
        r
    }

    pub fn set_paddr(&mut self, addr: u64)
        ensures
            final(self).0 == pte_with_target(old(self).0, addr),
            pte_flags(final(self).0) == pte_flags(old(self).0),
            pte_valid(final(self).0) == pte_valid(old(self).0),
            pte_target(final(self).0) == (addr >> 12u64) << 12u64,
    {
        let b: u64 = self.0;
        *self = PTE(((addr >> 2u64) & !FLAGS_MASK) | (self.0 & FLAGS_MASK));
        assert((((addr >> 2u64) & !0x3ffu64) | (b & 0x3ffu64)) == (((addr >> 12u64) << 10u64) | (b
            & 0x3ffu64))) by (bit_vector);
        proof {
            lemma_with_target(b, addr);
        }
    }

    pub fn is_valid(&self) -> (r: bool)
        ensures
            r == pte_valid(self.0),
    {
        self.0 & PTE_V == PTE_V
    }
}

} // verus!
