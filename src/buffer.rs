//! A one-page byte buffer holding a NUL-terminated string, as used to show
//! two virtual pages sharing one frame.

use vstd::prelude::*;
use vstd::string::StringSliceAdditionalSpecFns;
use crate::page_table::PAGE_SIZE;

verus! {

/// One page of bytes and the virtual address it was allocated at.
#[derive(Debug)]
pub struct Buffer {
    pub vaddr: usize,
    pub data: Vec<u8>,
}

impl Buffer {
    /// The buffer covers exactly one page.
    pub open spec fn wf(&self) -> bool {
        self.data@.len() == PAGE_SIZE
    }

    /// A zeroed buffer for the page allocated at `vaddr`.
    pub fn new(vaddr: usize) -> (r: Buffer)
        ensures
            r.wf(),
            r.vaddr == vaddr,
            forall|k: int| 0 <= k < PAGE_SIZE ==> r.data@[k] == 0,
    {
        let mut data: Vec<u8> = Vec::new();
        let mut k: usize = 0;
        while k < 4096
            invariant
                k <= 4096,
                data@.len() == k,
                forall|j: int| 0 <= j < k ==> data@[j] == 0,
            decreases 4096 - k,
        {
            data.push(0u8);
            k = k + 1;
        }
        Buffer { vaddr, data }
    }

    /// Copies the bytes of `data` to the start of the page; the rest of
    /// the page keeps what it held.
    pub fn set_data(&mut self, data: &str)
        requires
            old(self).wf(),
            data.spec_bytes().len() <= PAGE_SIZE,
        ensures
            final(self).wf(),
            final(self).vaddr == old(self).vaddr,
            final(self).data@ == data.spec_bytes() + old(self).data@.subrange(
                data.spec_bytes().len() as int,
                PAGE_SIZE as int,
            ),
    {
        let bytes: &[u8] = data.as_bytes();
        let n: usize = bytes.len();
        let mut k: usize = 0;
        while k < n
            invariant
                self.wf(),
                k <= n,
                n == bytes@.len(),
                bytes@ == data.spec_bytes(),
                n <= PAGE_SIZE,
                self.vaddr == old(self).vaddr,
                forall|j: int| 0 <= j < k ==> self.data@[j] == bytes@[j],
                forall|j: int| k <= j < PAGE_SIZE ==> self.data@[j] == old(self).data@[j],
            decreases n - k,
        {
            self.data.set(k, bytes[k]);
            k = k + 1;
        }
        assert(self.data@ =~= data.spec_bytes() + old(self).data@.subrange(n as int, PAGE_SIZE as int));
    }

    /// The bytes before the first NUL, or the whole page if it has none.
    pub fn get_data(&self) -> (r: Vec<u8>)
        requires
            self.wf(),
        ensures
            r@ == self.data@.subrange(0, r@.len() as int),
            forall|j: int| 0 <= j < r@.len() ==> r@[j] != 0,
            r@.len() == PAGE_SIZE || self.data@[r@.len() as int] == 0,
    {
        let mut r: Vec<u8> = Vec::new();
        let mut k: usize = 0;
        while k < self.data.len() && self.data[k] != 0
            invariant
                self.wf(),
                k <= PAGE_SIZE,
                r@ == self.data@.subrange(0, k as int),
                forall|j: int| 0 <= j < k ==> self.data@[j] != 0,
            decreases PAGE_SIZE - k,
        {
            r.push(self.data[k]);
            k = k + 1;
        }
        r
    }
}

} // verus!
