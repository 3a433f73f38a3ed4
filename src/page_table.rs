//! Physical memory as an array of 4 KiB frames of 512 words, and the
//! three-level walker that translates a virtual address through a table
//! tree held in those frames, or points one leaf elsewhere.

use vstd::prelude::*;
use crate::pte::{lemma_with_target, pte_target, pte_valid, pte_with_target, PTE};

verus! {

pub const PAGE_SIZE: u64 = 4096;

/// Entries in one table, and words in one frame.
pub const ENTRIES: usize = 512;

/// The walk failed: an entry on the way, or the leaf, is not valid, or it
/// points outside physical memory.
#[derive(Clone, Copy, PartialEq, Eq, Structural, Debug)]
pub enum NotMapped {
    NotMapped,
}

/// The index into the table of one level: nine bits of `va` from `shift`.
pub open spec fn vpn(va: u64, shift: u64) -> int {
    ((va >> shift) & 0x1ffu64) as int
}

pub open spec fn frame_index(pa: u64) -> int {
    (pa >> 12u64) as int
}

pub open spec fn page_offset(va: u64) -> u64 {
    va & 0xfffu64
}

pub open spec fn frames_wf(m: Seq<Seq<u64>>) -> bool {
    forall|i: int| 0 <= i < m.len() ==> (#[trigger] m[i]).len() == ENTRIES
}

/// The table that entry `idx` of table `table` leads to, if it is valid and
/// in memory.
pub open spec fn next_table(m: Seq<Seq<u64>>, table: int, idx: int) -> Option<int> {
    let e: u64 = m[table][idx];
    if pte_valid(e) && frame_index(pte_target(e)) < m.len() {
        Some(frame_index(pte_target(e)))
    } else {
        None
    }
}

/// The three tables visited when translating `va` from `root`, top first.
pub open spec fn walk_tables(m: Seq<Seq<u64>>, root: u64, va: u64) -> Option<(int, int, int)> {
    let t2: int = frame_index(root);
    if t2 >= m.len() {
        None
    } else {
        match next_table(m, t2, vpn(va, 30)) {
            None => None,
            Some(t1) => match next_table(m, t1, vpn(va, 21)) {
                None => None,
                Some(t0) => Some((t2, t1, t0)),
            },
        }
    }
}

/// The leaf entry that maps `va`: its table and its index there.
pub open spec fn leaf_slot(m: Seq<Seq<u64>>, root: u64, va: u64) -> Option<(int, int)> {
    match walk_tables(m, root, va) {
        Some((t2, t1, t0)) => Some((t0, vpn(va, 12))),
        None => None,
    }
}

/// The physical address that `va` translates to.
pub open spec fn translate(m: Seq<Seq<u64>>, root: u64, va: u64) -> Option<u64> {
    match leaf_slot(m, root, va) {
        Some((t, i)) => if pte_valid(m[t][i]) {
            Some(pte_target(m[t][i]) | page_offset(va))
        } else {
            None
        },
        None => None,
    }
}

/// Whether translating `va` reads entry `i` of frame `f`.
pub open spec fn reads_entry(m: Seq<Seq<u64>>, root: u64, va: u64, f: int, i: int) -> bool {
    let t2: int = frame_index(root);
    ||| (f == t2 && i == vpn(va, 30))
    ||| (t2 < m.len() && next_table(m, t2, vpn(va, 30)) == Some(f) && i == vpn(va, 21))
    ||| (exists|t1: int|
        t2 < m.len() && next_table(m, t2, vpn(va, 30)) == Some(t1) && #[trigger] next_table(
            m,
            t1,
            vpn(va, 21),
        ) == Some(f) && i == vpn(va, 12))
}

/// Memory with entry `i` of frame `f` set to `v`.
pub open spec fn set_word(m: Seq<Seq<u64>>, f: int, i: int, v: u64) -> Seq<Seq<u64>> {
    m.update(f, m[f].update(i, v))
}

/// Memory after the leaf that maps `va` is pointed at `new_pa`.
pub open spec fn remapped(m: Seq<Seq<u64>>, root: u64, va: u64, new_pa: u64) -> Seq<Seq<u64>> {
    match leaf_slot(m, root, va) {
        Some((t, i)) => set_word(m, t, i, pte_with_target(m[t][i], new_pa)),
        None => m,
    }
}

/// What `resolve` returns for `va`.
pub open spec fn resolve_result(m: Seq<Seq<u64>>, root: u64, va: u64) -> Result<u64, NotMapped> {
    match translate(m, root, va) {
        Some(pa) => Ok(pa),
        None => Err(NotMapped::NotMapped),
    }
}

/// Every table index, and the word index within a page, is below 512.
pub proof fn lemma_index_bounds(va: u64)
    ensures
        0 <= vpn(va, 30) < ENTRIES,
        0 <= vpn(va, 21) < ENTRIES,
        0 <= vpn(va, 12) < ENTRIES,
        0 <= ((va & 0xfffu64) >> 3u64) < ENTRIES,
{
    assert((va >> 30u64) & 0x1ffu64 <= 0x1ffu64) by (bit_vector);
    assert((va >> 21u64) & 0x1ffu64 <= 0x1ffu64) by (bit_vector);
    assert((va >> 12u64) & 0x1ffu64 <= 0x1ffu64) by (bit_vector);
    assert((va & 0xfffu64) >> 3u64 <= 511u64) by (bit_vector);
}

/// Translating `va` reads only the three entries on its walk: storing into
/// any other entry leaves the walk, and so `resolve`, as it was. Queries of a
/// mapping that nothing on its walk has changed give the same answer.
pub proof fn lemma_translate_local(m: Seq<Seq<u64>>, root: u64, va: u64, f: int, i: int, v: u64)
    requires
        frames_wf(m),
        0 <= f < m.len(),
        0 <= i < ENTRIES,
        !reads_entry(m, root, va, f, i),
    ensures
        walk_tables(set_word(m, f, i, v), root, va) == walk_tables(m, root, va),
        translate(set_word(m, f, i, v), root, va) == translate(m, root, va),
        resolve_result(set_word(m, f, i, v), root, va) == resolve_result(m, root, va),
{
    let m2 = set_word(m, f, i, v);
    let t2: int = frame_index(root);
    lemma_index_bounds(va);
    if t2 < m.len() {
        assert(m2[t2][vpn(va, 30)] == m[t2][vpn(va, 30)]);
        match next_table(m, t2, vpn(va, 30)) {
            None => {},
            Some(t1) => {
                assert(m2[t1][vpn(va, 21)] == m[t1][vpn(va, 21)]);
                match next_table(m, t1, vpn(va, 21)) {
                    None => {},
                    Some(t0) => {
                        assert(m2[t0][vpn(va, 12)] == m[t0][vpn(va, 12)]);
                    },
                }
            },
        }
    }
}

/// After the leaf of a mapped `va` is pointed at `new_pa`, `va` translates
/// into `new_pa`'s page at the same offset, and an address whose walk does
/// not read that leaf translates as before. The walk of `va` is assumed to
/// pass through three distinct entries, as in a tree of tables.
pub proof fn lemma_remap_then_resolve(
    m: Seq<Seq<u64>>,
    root: u64,
    va: u64,
    new_pa: u64,
    other: u64,
)
    requires
        frames_wf(m),
        translate(m, root, va) is Some,
        ({
            let (t2, t1, t0) = walk_tables(m, root, va).unwrap();
            (t0, vpn(va, 12)) != (t2, vpn(va, 30)) && (t0, vpn(va, 12)) != (t1, vpn(va, 21))
        }),
        ({
            let (t, i) = leaf_slot(m, root, va).unwrap();
            !reads_entry(m, root, other, t, i)
        }),
    ensures
        translate(remapped(m, root, va, new_pa), root, va) == Some(
            ((new_pa >> 12u64) << 12u64) | page_offset(va),
        ),
        resolve_result(remapped(m, root, va, new_pa), root, va) == Ok::<u64, NotMapped>(
            ((new_pa >> 12u64) << 12u64) | page_offset(va),
        ),
        translate(remapped(m, root, va, new_pa), root, other) == translate(m, root, other),
{
    let (t2, t1, t0) = walk_tables(m, root, va).unwrap();
    let (t, i) = leaf_slot(m, root, va).unwrap();
    let e: u64 = pte_with_target(m[t][i], new_pa);
    let m2 = set_word(m, t, i, e);
    lemma_index_bounds(va);
    lemma_with_target(m[t][i], new_pa);
    assert(m2[t2][vpn(va, 30)] == m[t2][vpn(va, 30)]);
    assert(m2[t1][vpn(va, 21)] == m[t1][vpn(va, 21)]);
    assert(walk_tables(m2, root, va) == walk_tables(m, root, va));
    assert(m2[t][i] == e);
    lemma_translate_local(m, root, other, t, i, e);
}

/// The non-zero words among the first `n` of `row`, each with its index, in
/// index order.
pub open spec fn non_zero_prefix(row: Seq<u64>, n: int) -> Seq<(usize, u64)>
    decreases n,
{
    if n <= 0 {
        Seq::empty()
    } else if row[n - 1] != 0 {
        non_zero_prefix(row, n - 1).push(((n - 1) as usize, row[n - 1]))
    } else {
        non_zero_prefix(row, n - 1)
    }
}

/// Translating `va` reads no entry of frame `f`, so replacing that frame's
/// contents leaves the translation as it was.
pub proof fn lemma_translate_frame_local(m: Seq<Seq<u64>>, m2: Seq<Seq<u64>>, root: u64, va: u64, f: int)
    requires
        frames_wf(m),
        frames_wf(m2),
        m2.len() == m.len(),
        forall|g: int| 0 <= g < m.len() && g != f ==> m2[g] == m[g],
        forall|j: int| !reads_entry(m, root, va, f, j),
    ensures
        leaf_slot(m2, root, va) == leaf_slot(m, root, va),
        translate(m2, root, va) == translate(m, root, va),
{
    let t2 = frame_index(root);
    lemma_index_bounds(va);
    if t2 < m.len() {
        assert(!reads_entry(m, root, va, f, vpn(va, 30)));
        assert(m2[t2] == m[t2]);
        match next_table(m, t2, vpn(va, 30)) {
            None => {},
            Some(t1) => {
                assert(!reads_entry(m, root, va, f, vpn(va, 21)));
                assert(m2[t1] == m[t1]);
                match next_table(m, t1, vpn(va, 21)) {
                    None => {},
                    Some(t0) => {
                        assert(!reads_entry(m, root, va, f, vpn(va, 12)));
                        assert(m2[t0] == m[t0]);
                    },
                }
            },
        }
    }
}

/// Physical memory: frame `k` starts at physical address `k * PAGE_SIZE`.
pub struct PhysMem {
    pub frames: Vec<Vec<u64>>,
}

impl View for PhysMem {
    type V = Seq<Seq<u64>>;

    open spec fn view(&self) -> Seq<Seq<u64>> {
        Seq::new(self.frames@.len(), |i: int| self.frames@[i]@)
    }
}

impl PhysMem {
    pub open spec fn wf(&self) -> bool {
        frames_wf(self@)
    }

    /// `n` zeroed frames.
    pub fn new(n: usize) -> (r: PhysMem)
        ensures
            r.wf(),
            r@.len() == n,
            forall|f: int, i: int| 0 <= f < n && 0 <= i < ENTRIES ==> r@[f][i] == 0,
    {
        let mut frames: Vec<Vec<u64>> = Vec::new();
        let mut k: usize = 0;
        while k < n
            invariant
                k <= n,
                frames@.len() == k,
                forall|f: int| 0 <= f < k ==> (#[trigger] frames@[f])@.len() == ENTRIES,
                forall|f: int, i: int|
                    0 <= f < k && 0 <= i < ENTRIES ==> #[trigger] frames@[f]@[i] == 0,
            decreases n - k,
        {
            let mut frame: Vec<u64> = Vec::new();
            let mut j: usize = 0;
            while j < ENTRIES
                invariant
                    j <= ENTRIES,
                    frame@.len() == j,
                    forall|i: int| 0 <= i < j ==> frame@[i] == 0,
                decreases ENTRIES - j,
            {
                frame.push(0);
                j = j + 1;
            }
            frames.push(frame);
            k = k + 1;
        }
        PhysMem { frames }
    }

    pub fn num_frames(&self) -> (r: usize)
        ensures
            r == self@.len(),
    {
        self.frames.len()
    }

    /// The word `i` of frame `f`.
    pub fn word(&self, f: usize, i: usize) -> (r: u64)
        requires
            self.wf(),
            f < self@.len(),
            i < ENTRIES,
        ensures
            r == self@[f as int][i as int],
    {
        assert(self@[f as int].len() == ENTRIES);
        self.frames[f][i]
    }

    /// Stores `v` as word `i` of frame `f`.
    pub fn set_word(&mut self, f: usize, i: usize, v: u64)
        requires
            old(self).wf(),
            f < old(self)@.len(),
            i < ENTRIES,
        ensures
            final(self).wf(),
            final(self)@ == set_word(old(self)@, f as int, i as int, v),
    {
        assert(old(self)@[f as int].len() == ENTRIES);
        let mut row: Vec<u64> = Vec::new();
        std::mem::swap(&mut row, &mut self.frames[f]);
        row.set(i, v);
        std::mem::swap(&mut row, &mut self.frames[f]);
        assert(self@ =~= set_word(old(self)@, f as int, i as int, v));
    }
    /// The table that entry `idx` of table `table` leads to.
    fn next_table(&self, table: usize, idx: usize) -> (r: Option<usize>)
        requires
            self.wf(),
            table < self@.len(),
            idx < ENTRIES,
        ensures
            r is Some <==> next_table(self@, table as int, idx as int) is Some,
            r is Some ==> next_table(self@, table as int, idx as int) == Some(r.unwrap() as int),
            r is Some ==> r.unwrap() < self@.len(),
    {
        let e = PTE(self.word(table, idx));
        if e.is_valid() {
            let t: u64 = e.get_paddr() >> 12u64;
            if t < self.frames.len() as u64 {
                Some(t as usize)
            } else {
                None
            }
        } else {
            None
        }
    }

    /// The leaf entry that maps `va`, found by walking from `root`.
    pub fn leaf_slot(&self, root: u64, va: u64) -> (r: Option<(usize, usize)>)
        requires
            self.wf(),
        ensures
            r is Some <==> leaf_slot(self@, root, va) is Some,
            r is Some ==> leaf_slot(self@, root, va) == Some(
                (r.unwrap().0 as int, r.unwrap().1 as int),
            ),
            r is Some ==> r.unwrap().0 < self@.len() && r.unwrap().1 < ENTRIES,
    {
        let i2: usize = ((va >> 30u64) & 0x1ffu64) as usize;
        let i1: usize = ((va >> 21u64) & 0x1ffu64) as usize;
        let i0: usize = ((va >> 12u64) & 0x1ffu64) as usize;
        assert((va >> 30u64) & 0x1ffu64 <= 0x1ffu64) by (bit_vector);
        assert((va >> 21u64) & 0x1ffu64 <= 0x1ffu64) by (bit_vector);
        assert((va >> 12u64) & 0x1ffu64 <= 0x1ffu64) by (bit_vector);
        let t2: u64 = root >> 12u64;
        if t2 >= self.frames.len() as u64 {
            return None;
        }
        let t2: usize = t2 as usize;
        match self.next_table(t2, i2) {
            None => None,
            Some(t1) => match self.next_table(t1, i1) {
                None => None,
                Some(t0) => Some((t0, i0)),
            },
        }
    }

    /// Translates `va` through the tables rooted at physical address `root`.
    pub fn resolve(&self, root: u64, va: u64) -> (r: Result<u64, NotMapped>)
        requires
            self.wf(),
        ensures
            r == resolve_result(self@, root, va),
    {
        match self.leaf_slot(root, va) {
            None => Err(NotMapped::NotMapped),
            Some((t, i)) => {
                let e = PTE(self.word(t, i));
                if e.is_valid() {
                    Ok(e.get_paddr() | (va & 0xfffu64))
                } else {
                    Err(NotMapped::NotMapped)
                }
            },
        }
    }

    /// Points the leaf entry that maps `va` at `new_pa`'s page, keeping its
    /// flags. Walks exactly as `resolve` does and allocates no table.
    pub fn remap(&mut self, root: u64, va: u64, new_pa: u64) -> (r: Result<(), NotMapped>)
        requires
            old(self).wf(),
        ensures
            final(self).wf(),
            final(self)@ == remapped(old(self)@, root, va, new_pa),
            r is Ok <==> leaf_slot(old(self)@, root, va) is Some,
    {
        match self.leaf_slot(root, va) {
            None => Err(NotMapped::NotMapped),
            Some((t, i)) => {
                let mut e = PTE(self.word(t, i));
                e.set_paddr(new_pa);
                self.set_word(t, i, e.0);
                Ok(())
            },
        }
    }

    /// The non-zero entries of the table in frame `f`, with their indices.
    pub fn non_zero_entries(&self, f: usize) -> (r: Vec<(usize, u64)>)
        requires
            self.wf(),
            f < self@.len(),
        ensures
            r@ == non_zero_prefix(self@[f as int], ENTRIES as int),
    {
        let mut r: Vec<(usize, u64)> = Vec::new();
        let mut i: usize = 0;
        while i < ENTRIES
            invariant
                self.wf(),
                f < self@.len(),
                i <= ENTRIES,
                r@ == non_zero_prefix(self@[f as int], i as int),
            decreases ENTRIES - i,
        {
            let e: u64 = self.word(f, i);
            if e != 0 {
                r.push((i, e));
            }
            i = i + 1;
        }
        r
    }
}

} // verus!
