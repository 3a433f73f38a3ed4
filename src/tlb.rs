//! A direct-mapped cache of translations, and the remapping that keeps it
//! coherent by flushing one page only.

use vstd::prelude::*;
use crate::page_table::{remapped, resolve_result, translate, NotMapped, PhysMem};

verus! {

/// Number of cache slots; page `p` may sit only in slot `p % TLB_SLOTS`.
pub const TLB_SLOTS: usize = 64;

pub open spec fn slot_of(va: u64) -> int {
    ((va >> 12u64) % (TLB_SLOTS as u64)) as int
}

/// The cached translation of `va`, if its page sits in its slot.
pub open spec fn cached(s: Seq<Option<(u64, u64)>>, va: u64) -> Option<u64> {
    match s[slot_of(va)] {
        Some((vpn, page)) => if vpn == va >> 12u64 {
            Some(page | (va & 0xfffu64))
        } else {
            None
        },
        None => None,
    }
}

/// What a lookup gives: the cached translation first, else the walk.
pub open spec fn translate_cached(
    s: Seq<Option<(u64, u64)>>,
    m: Seq<Seq<u64>>,
    root: u64,
    va: u64,
) -> Option<u64> {
    match cached(s, va) {
        Some(pa) => Some(pa),
        None => translate(m, root, va),
    }
}

/// Each slot holds a virtual page number and the page address it maps to.
pub struct Tlb {
    pub slots: Vec<Option<(u64, u64)>>,
}

impl View for Tlb {
    type V = Seq<Option<(u64, u64)>>;

    open spec fn view(&self) -> Seq<Option<(u64, u64)>> {
        self.slots@
    }
}

impl Tlb {
    pub open spec fn wf(&self) -> bool {
        self@.len() == TLB_SLOTS
    }

    /// An empty cache.
    pub fn new() -> (r: Tlb)
        ensures
            r.wf(),
            forall|va: u64| cached(r@, va) is None,
    {
        let mut slots: Vec<Option<(u64, u64)>> = Vec::new();
        let mut k: usize = 0;
        while k < TLB_SLOTS
            invariant
                k <= TLB_SLOTS,
                slots@.len() == k,
                forall|j: int| 0 <= j < k ==> slots@[j] is None,
            decreases TLB_SLOTS - k,
        {
            slots.push(None);
            k = k + 1;
        }
        Tlb { slots }
    }

    /// Caches that `va`'s page maps to the page of `pa`, evicting whatever
    /// shared its slot.
    pub fn fill(&mut self, va: u64, pa: u64)
        requires
            old(self).wf(),
        ensures
            final(self).wf(),
            final(self)@ == old(self)@.update(
                slot_of(va),
                Some((va >> 12u64, pa & !0xfffu64)),
            ),
    {
        let s: usize = ((va >> 12u64) % 64u64) as usize;
        self.slots.set(s, Some((va >> 12u64, pa & !0xfffu64)));
    }

    pub fn lookup(&self, va: u64) -> (r: Option<u64>)
        requires
            self.wf(),
        ensures
            r == cached(self@, va),
    {
        let s: usize = ((va >> 12u64) % 64u64) as usize;
        match self.slots[s] {
            Some((vpn, page)) => if vpn == va >> 12u64 {
                Some(page | (va & 0xfffu64))
            } else {
                None
            },
            None => None,
        }
    }

    /// Drops the cached translation of `va`'s page, and no other.
    pub fn flush_page(&mut self, va: u64)
        requires
            old(self).wf(),
        ensures
            final(self).wf(),
            cached(final(self)@, va) is None,
            forall|x: u64| x >> 12u64 != va >> 12u64 ==> #[trigger] cached(final(self)@, x) == cached(old(self)@, x),
    {
        let s: usize = ((va >> 12u64) % 64u64) as usize;
        match self.slots[s] {
            Some((vpn, _)) => if vpn == va >> 12u64 {
                self.slots.set(s, None);
            },
            None => {},
        }
    }

    /// Translates through the cache, walking the tables on a miss.
    pub fn translate(&self, mem: &PhysMem, root: u64, va: u64) -> (r: Result<u64, NotMapped>)
        requires
            self.wf(),
            mem.wf(),
        ensures
            match translate_cached(self@, mem@, root, va) {
                Some(pa) => r == Ok::<u64, NotMapped>(pa),
                None => r == Err::<u64, NotMapped>(NotMapped::NotMapped),
            },
    {
        match self.lookup(va) {
            Some(pa) => Ok(pa),
            None => mem.resolve(root, va),
        }
    }
}

/// Makes `src` reach the physical page that `dst` reaches: the leaf that
/// maps `src` is pointed at `dst`'s frame, and only `src`'s cached
/// translation is flushed. Fails, changing nothing, when `dst` is not
/// mapped or `src` has no leaf.
pub fn map(mem: &mut PhysMem, tlb: &mut Tlb, root: u64, src: u64, dst: u64) -> (r: Result<
    (),
    NotMapped,
>)
    requires
        old(mem).wf(),
        old(tlb).wf(),
    ensures
        final(mem).wf(),
        final(tlb).wf(),
        match resolve_result(old(mem)@, root, dst) {
            Err(e) => r == Err::<(), NotMapped>(e) && final(mem)@ == old(mem)@ && final(tlb)@
                == old(tlb)@,
            Ok(dst_pa) => {
                &&& final(mem)@ == remapped(old(mem)@, root, src, dst_pa)
                &&& (r is Ok <==> crate::page_table::leaf_slot(old(mem)@, root, src) is Some)
                &&& r is Ok ==> cached(final(tlb)@, src) is None && forall|x: u64|
                    x >> 12u64 != src >> 12u64 ==> #[trigger] cached(final(tlb)@, x) == cached(
                        old(tlb)@,
                        x,
                    )
                &&& r is Err ==> final(tlb)@ == old(tlb)@
            },
        },
{
    let dst_pa: u64 = match mem.resolve(root, dst) {
        Err(e) => {
            return Err(e);
        },
        Ok(pa) => pa,
    };
    match mem.remap(root, src, dst_pa) {
        Err(e) => Err(e),
        Ok(()) => {
            tlb.flush_page(src);
            Ok(())
        },
    }
}

} // verus!
