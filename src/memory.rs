//! What user code sees through its tables: bytes and words behind a
//! virtual address, ranges checked for user access, and pages loaded whole.

use vstd::prelude::*;
use crate::page_table::{
    frame_index, frames_wf, leaf_slot, lemma_index_bounds, lemma_translate_local,
    reads_entry, set_word, translate, vpn, PhysMem, ENTRIES, PAGE_SIZE,
};
use crate::pte::{pte_target, PTE_R, PTE_U, PTE_V};

verus! {

/// The flags a leaf needs before user memory behind it is read for a
/// syscall: valid, readable, user-accessible.
pub const USER_READ: u64 = PTE_V | PTE_R | PTE_U;

/// A user-memory access that could not be carried out.
#[derive(Clone, Copy, PartialEq, Eq, Structural, Debug)]
pub enum MemFault {
    /// The address is not translated for this access (for a user access:
    /// not valid, readable and user-accessible), or lands outside physical
    /// memory.
    Unmapped,
    /// A word access at an address that is not a multiple of eight.
    Misaligned,
    /// The range wraps around the end of the address space.
    Overflow,
}

/// The frame and word that hold the byte at `va`.
pub open spec fn word_slot(m: Seq<Seq<u64>>, root: u64, va: u64) -> Option<(int, int)> {
    match translate(m, root, va) {
        Some(pa) => if frame_index(pa) < m.len() {
            Some((frame_index(pa), ((va & 0xfffu64) >> 3u64) as int))
        } else {
            None
        },
        None => None,
    }
}

/// Byte `k` of the word `w`, counting from the least significant.
pub open spec fn byte_of(w: u64, k: u64) -> u8 {
    ((w >> (8 * k)) & 0xffu64) as u8
}

/// The byte that an access at `va` reads, whatever the leaf's permissions.
pub open spec fn read_byte(m: Seq<Seq<u64>>, root: u64, va: u64) -> Option<u8> {
    match word_slot(m, root, va) {
        Some((f, w)) => Some(byte_of(m[f][w], va & 7u64)),
        None => None,
    }
}

/// Whether the leaf that maps `va` lets user mode read it: valid, with the
/// user and read bits set.
pub open spec fn user_readable(m: Seq<Seq<u64>>, root: u64, va: u64) -> bool {
    match leaf_slot(m, root, va) {
        Some((t, i)) => m[t][i] & USER_READ == USER_READ,
        None => false,
    }
}

/// The byte at `va` as user mode may read it.
pub open spec fn user_byte(m: Seq<Seq<u64>>, root: u64, va: u64) -> Option<u8> {
    if user_readable(m, root, va) {
        read_byte(m, root, va)
    } else {
        None
    }
}

/// The `len` bytes from `va` on, if user mode may read every one of them.
pub open spec fn user_bytes(m: Seq<Seq<u64>>, root: u64, va: u64, len: nat) -> Option<Seq<u8>> {
    if va + len <= u64::MAX + 1 && forall|k: int|
        0 <= k < len ==> (#[trigger] user_byte(m, root, (va + k) as u64)).is_some() {
        Some(Seq::new(len, |k: int| user_byte(m, root, (va + k) as u64).unwrap()))
    } else {
        None
    }
}

/// Isolation: the word that `write_u64` stores at `va` through one address
/// space is not seen at `x` through another, when the two reach different
/// frames and the written frame holds none of the tables on the other's
/// walk of `x`. With `x == va` this is two spaces mapping the same address
/// to different pages.
pub proof fn lemma_isolation(
    m: Seq<Seq<u64>>,
    root_a: u64,
    root_b: u64,
    va: u64,
    x: u64,
    v: u64,
)
    requires
        frames_wf(m),
        word_slot(m, root_a, va) is Some,
        word_slot(m, root_b, x) is Some,
        word_slot(m, root_a, va).unwrap().0 != word_slot(m, root_b, x).unwrap().0,
        forall|j: int| !reads_entry(m, root_b, x, word_slot(m, root_a, va).unwrap().0, j),
    ensures
        ({
            let (f, w) = word_slot(m, root_a, va).unwrap();
            read_byte(set_word(m, f, w, v), root_b, x) == read_byte(m, root_b, x)
        }),
{
    let (f, w) = word_slot(m, root_a, va).unwrap();
    let (g, u) = word_slot(m, root_b, x).unwrap();
    lemma_index_bounds(va);
    lemma_index_bounds(x);
    assert(!reads_entry(m, root_b, x, f, w));
    lemma_translate_local(m, root_b, x, f, w, v);
    assert(set_word(m, f, w, v)[g][u] == m[g][u]);
}

/// Byte `j` of the `i`-th little-endian word of `bytes`.
pub open spec fn packed_byte(bytes: Seq<u8>, i: int, j: int) -> u8 {
    bytes[8 * i + j]
}

/// Each byte of eight packed into a word comes back out where it went in.
proof fn lemma_pack(b0: u64, b1: u64, b2: u64, b3: u64, b4: u64, b5: u64, b6: u64, b7: u64)
    requires
        b0 < 256 && b1 < 256 && b2 < 256 && b3 < 256,
        b4 < 256 && b5 < 256 && b6 < 256 && b7 < 256,
    ensures
        ({
            let w: u64 = b0 | (b1 << 8u64) | (b2 << 16u64) | (b3 << 24u64) | (b4 << 32u64) | (b5
                << 40u64) | (b6 << 48u64) | (b7 << 56u64);
            &&& (w >> 0u64) & 0xffu64 == b0
            &&& (w >> 8u64) & 0xffu64 == b1
            &&& (w >> 16u64) & 0xffu64 == b2
            &&& (w >> 24u64) & 0xffu64 == b3
            &&& (w >> 32u64) & 0xffu64 == b4
            &&& (w >> 40u64) & 0xffu64 == b5
            &&& (w >> 48u64) & 0xffu64 == b6
            &&& (w >> 56u64) & 0xffu64 == b7
        }),
{
    assert(({
        let w: u64 = b0 | (b1 << 8u64) | (b2 << 16u64) | (b3 << 24u64) | (b4 << 32u64) | (b5 << 40u64)
            | (b6 << 48u64) | (b7 << 56u64);
        &&& (w >> 0u64) & 0xffu64 == b0
        &&& (w >> 8u64) & 0xffu64 == b1
        &&& (w >> 16u64) & 0xffu64 == b2
        &&& (w >> 24u64) & 0xffu64 == b3
        &&& (w >> 32u64) & 0xffu64 == b4
        &&& (w >> 40u64) & 0xffu64 == b5
        &&& (w >> 48u64) & 0xffu64 == b6
        &&& (w >> 56u64) & 0xffu64 == b7
    })) by (bit_vector)
        requires
            b0 < 256 && b1 < 256 && b2 < 256 && b3 < 256,
            b4 < 256 && b5 < 256 && b6 < 256 && b7 < 256,
    ;
}

/// Packs bytes `8 * i` to `8 * i + 7` of `bytes` into one little-endian
/// word.
pub fn pack_word(bytes: &Vec<u8>, i: usize) -> (r: u64)
    requires
        8 * i + 8 <= bytes@.len(),
    ensures
        forall|j: int| 0 <= j < 8 ==> #[trigger] byte_of(r, j as u64) == packed_byte(bytes@, i as int, j),
{
    // The length is a usize, so `8 * i` below it is one too.
    let n: usize = bytes.len();
    let k: usize = 8 * i;
    let b0: u64 = bytes[k] as u64;
    let b1: u64 = bytes[k + 1] as u64;
    let b2: u64 = bytes[k + 2] as u64;
    let b3: u64 = bytes[k + 3] as u64;
    let b4: u64 = bytes[k + 4] as u64;
    let b5: u64 = bytes[k + 5] as u64;
    let b6: u64 = bytes[k + 6] as u64;
    let b7: u64 = bytes[k + 7] as u64;
    let w: u64 = b0 | (b1 << 8u64) | (b2 << 16u64) | (b3 << 24u64) | (b4 << 32u64) | (b5 << 40u64) | (
    b6 << 48u64) | (b7 << 56u64);
    proof {
        lemma_pack(b0, b1, b2, b3, b4, b5, b6, b7);
        assert forall|j: int| 0 <= j < 8 implies #[trigger] byte_of(w, j as u64) == packed_byte(
            bytes@,
            i as int,
            j,
        ) by {
            if j == 0 {
                assert(w >> 0u64 == w) by (bit_vector);
            }
        }
    }
    w
}

/// Byte `k` of the page at a page-aligned `base` sits at offset `k`, on the
/// same walk as `base`.
pub proof fn lemma_same_page(base: u64, k: u64)
    requires
        base & 0xfffu64 == 0,
        k < 4096,
    ensures
        base + k <= u64::MAX,
        vpn((base + k) as u64, 30) == vpn(base, 30),
        vpn((base + k) as u64, 21) == vpn(base, 21),
        vpn((base + k) as u64, 12) == vpn(base, 12),
        ((base + k) as u64) & 0xfffu64 == k,
        ((base + k) as u64) & 7u64 == k & 7u64,
{
    assert(base & 0xfffu64 == 0 ==> base % 4096 == 0) by (bit_vector);
    assert(base <= u64::MAX - 4095) by (nonlinear_arith)
        requires
            base % 4096 == 0,
            base <= u64::MAX,
    {}
    let x: u64 = (base + k) as u64;
    assert(x == base + k);
    assert(x >> 12u64 == x / 4096 && x & 0xfffu64 == x % 4096 && base >> 12u64 == base / 4096)
        by (bit_vector);
    assert(x / 4096 == base / 4096 && x % 4096 == k) by (nonlinear_arith)
        requires
            x == base + k,
            base % 4096 == 0,
            k < 4096,
    {}
    let e: u64 = base;
    assert(x >> 12u64 == e >> 12u64 ==> (x >> 30u64) & 0x1ffu64 == (e >> 30u64) & 0x1ffu64 && (x
        >> 21u64) & 0x1ffu64 == (e >> 21u64) & 0x1ffu64 && (x >> 12u64) & 0x1ffu64 == (e >> 12u64)
        & 0x1ffu64) by (bit_vector);
    assert((x & 0xfffu64) & 7u64 == x & 7u64) by (bit_vector);
}

/// Offset `k` of the page that entry `bits` points at lies in that page's
/// frame, at word `k >> 3` and byte `k & 7` of it.
pub proof fn lemma_offset_frame(bits: u64, k: u64)
    requires
        k < 4096,
    ensures
        frame_index(pte_target(bits) | k) == frame_index(pte_target(bits)),
        frame_index(pte_target(bits) | 0u64) == frame_index(pte_target(bits)),
        (k >> 3u64) < ENTRIES,
        (k & 7u64) < 8,
        8 * (k >> 3u64) + (k & 7u64) == k,
{
    assert((((bits >> 10u64) << 12u64) | k) >> 12u64 == ((bits >> 10u64) << 12u64) >> 12u64)
        by (bit_vector)
        requires
            k < 4096,
    ;
    assert((((bits >> 10u64) << 12u64) | 0u64) == ((bits >> 10u64) << 12u64)) by (bit_vector);
    assert((k >> 3u64) < 512 && k >> 3u64 == k / 8 && k & 7u64 == k % 8 && k & 7u64 < 8)
        by (bit_vector)
        requires
            k < 4096,
    ;
}

impl PhysMem {
    /// The frame and word that hold the byte at `va`.
    pub fn word_slot(&self, root: u64, va: u64) -> (r: Option<(usize, usize)>)
        requires
            self.wf(),
        ensures
            r is Some <==> word_slot(self@, root, va) is Some,
            r is Some ==> word_slot(self@, root, va) == Some(
                (r.unwrap().0 as int, r.unwrap().1 as int),
            ),
            r is Some ==> r.unwrap().0 < self@.len() && r.unwrap().1 < ENTRIES,
    {
        match self.resolve(root, va) {
            Err(_) => None,
            Ok(pa) => {
                let f: u64 = pa >> 12u64;
                if f < self.frames.len() as u64 {
                    let w: u64 = (va & 0xfffu64) >> 3u64;
                    assert((va & 0xfffu64) >> 3u64 <= 511u64) by (bit_vector);
                    Some((f as usize, w as usize))
                } else {
                    None
                }
            },
        }
    }

    /// Reads the byte at `va` in the address space rooted at `root`,
    /// whatever the leaf's permissions.
    pub fn read_u8(&self, root: u64, va: u64) -> (r: Result<u8, MemFault>)
        requires
            self.wf(),
        ensures
            match read_byte(self@, root, va) {
                Some(b) => r == Ok::<u8, MemFault>(b),
                None => r == Err::<u8, MemFault>(MemFault::Unmapped),
            },
    {
        match self.word_slot(root, va) {
            None => Err(MemFault::Unmapped),
            Some((f, w)) => {
                let k: u64 = va & 7u64;
                assert(va & 7u64 <= 7u64) by (bit_vector);
                Ok(((self.word(f, w) >> (8 * k)) & 0xffu64) as u8)
            },
        }
    }

    /// Reads the byte at `va` on behalf of user mode: the leaf must carry
    /// the user and read bits.
    pub fn read_user_u8(&self, root: u64, va: u64) -> (r: Result<u8, MemFault>)
        requires
            self.wf(),
        ensures
            match user_byte(self@, root, va) {
                Some(b) => r == Ok::<u8, MemFault>(b),
                None => r == Err::<u8, MemFault>(MemFault::Unmapped),
            },
    {
        match self.leaf_slot(root, va) {
            None => Err(MemFault::Unmapped),
            Some((t, i)) => {
                if self.word(t, i) & USER_READ != USER_READ {
                    return Err(MemFault::Unmapped);
                }
                self.read_u8(root, va)
            },
        }
    }

    /// Reads the aligned word at `va`.
    pub fn read_u64(&self, root: u64, va: u64) -> (r: Result<u64, MemFault>)
        requires
            self.wf(),
        ensures
            va & 7u64 != 0 ==> r == Err::<u64, MemFault>(MemFault::Misaligned),
            va & 7u64 == 0 ==> match word_slot(self@, root, va) {
                Some((f, w)) => r == Ok::<u64, MemFault>(self@[f][w]),
                None => r == Err::<u64, MemFault>(MemFault::Unmapped),
            },
    {
        if va & 7u64 != 0 {
            return Err(MemFault::Misaligned);
        }
        match self.word_slot(root, va) {
            None => Err(MemFault::Unmapped),
            Some((f, w)) => Ok(self.word(f, w)),
        }
    }

    /// Writes the aligned word at `va`.
    pub fn write_u64(&mut self, root: u64, va: u64, v: u64) -> (r: Result<(), MemFault>)
        requires
            old(self).wf(),
        ensures
            final(self).wf(),
            va & 7u64 != 0 ==> r == Err::<(), MemFault>(MemFault::Misaligned) && final(self)@ == old(
                self,
            )@,
            va & 7u64 == 0 ==> match word_slot(old(self)@, root, va) {
                Some((f, w)) => r == Ok::<(), MemFault>(()) && final(self)@ == set_word(
                    old(self)@,
                    f,
                    w,
                    v,
                ),
                None => r == Err::<(), MemFault>(MemFault::Unmapped) && final(self)@ == old(
                    self,
                )@,
            },
    {
        if va & 7u64 != 0 {
            return Err(MemFault::Misaligned);
        }
        match self.word_slot(root, va) {
            None => Err(MemFault::Unmapped),
            Some((f, w)) => {
                self.set_word(f, w, v);
                Ok(())
            },
        }
    }

    /// Copies the `len` bytes at `va` out of the address space for user
    /// mode, checking every one of them against the tables and their user
    /// and read bits first.
    pub fn read_user_bytes(&self, root: u64, va: u64, len: usize) -> (r: Result<Vec<u8>, MemFault>)
        requires
            self.wf(),
        ensures
            va + len > u64::MAX + 1 ==> r == Err::<Vec<u8>, MemFault>(MemFault::Overflow),
            va + len <= u64::MAX + 1 ==> match user_bytes(self@, root, va, len as nat) {
                Some(b) => r is Ok && r.unwrap()@ == b,
                None => r == Err::<Vec<u8>, MemFault>(MemFault::Unmapped),
            },
    {
        if va as u128 + len as u128 > u64::MAX as u128 + 1 {
            return Err(MemFault::Overflow);
        }
        let mut out: Vec<u8> = Vec::new();
        let mut k: usize = 0;
        while k < len
            invariant
                self.wf(),
                k <= len,
                va + len <= u64::MAX + 1,
                out@.len() == k,
                forall|j: int|
                    0 <= j < k ==> (#[trigger] user_byte(self@, root, (va + j) as u64)) == Some(
                        out@[j],
                    ),
            decreases len - k,
        {
            let a: u64 = (va as u128 + k as u128) as u64;
            match self.read_user_u8(root, a) {
                Err(_) => {
                    assert(user_byte(self@, root, (va + k) as u64) is None);
                    return Err(MemFault::Unmapped);
                },
                Ok(b) => {
                    out.push(b);
                },
            }
            k = k + 1;
        }
        assert(out@ =~= Seq::new(len as nat, |j: int| user_byte(self@, root, (va + j) as u64).unwrap()));
        Ok(out)
    }

    /// Fills frame `f` with the 4096 bytes of `bytes`, little-endian.
    pub fn load_page(&mut self, f: usize, bytes: &Vec<u8>)
        requires
            old(self).wf(),
            f < old(self)@.len(),
            bytes@.len() == PAGE_SIZE,
        ensures
            final(self).wf(),
            final(self)@.len() == old(self)@.len(),
            forall|g: int| 0 <= g < old(self)@.len() && g != f ==> final(self)@[g] == old(self)@[g],
            forall|i: int, j: int|
                0 <= i < ENTRIES && 0 <= j < 8 ==> #[trigger] byte_of(final(self)@[f as int][i], j as u64)
                    == packed_byte(bytes@, i, j),
    {
        let mut i: usize = 0;
        while i < ENTRIES
            invariant
                self.wf(),
                i <= ENTRIES,
                f < self@.len(),
                bytes@.len() == PAGE_SIZE,
                self@.len() == old(self)@.len(),
                forall|g: int| 0 <= g < old(self)@.len() && g != f ==> self@[g] == old(self)@[g],
                forall|i2: int, j: int|
                    0 <= i2 < i && 0 <= j < 8 ==> #[trigger] byte_of(self@[f as int][i2], j as u64)
                        == packed_byte(bytes@, i2, j),
            decreases ENTRIES - i,
        {
            let w: u64 = pack_word(bytes, i);
            self.set_word(f, i, w);
            i = i + 1;
        }
    }
}

} // verus!
