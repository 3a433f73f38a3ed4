//! Launching a user task: placing its image in the entry page, and laying
//! out its stack and first context.

use vstd::prelude::*;
use crate::context::{UspaceContext, NUM_REGS, REG_SP, USER_SSTATUS};
use crate::task::{spawn_user_task, TaskState, UserTask};
use crate::memory::{byte_of, lemma_offset_frame, lemma_same_page, packed_byte, read_byte, word_slot};
use crate::page_table::{
    frames_wf, leaf_slot, lemma_translate_frame_local, reads_entry, PhysMem, ENTRIES, PAGE_SIZE,
};

verus! {

pub const APP_ENTRY: usize = 0x1000;
pub const USER_STACK_SIZE: usize = 0x10000;

/// Why a launch was abandoned; no task exists after either.
#[derive(Clone, Copy, PartialEq, Eq, Structural, Debug)]
pub enum LaunchError {
    /// The entry page or the stack cannot be mapped where asked.
    MappingFailure,
    /// The image is empty.
    LoadFailure,
}

/// The image cut or padded with zeros to one page.
pub open spec fn image_page(image: Seq<u8>) -> Seq<u8> {
    Seq::new(PAGE_SIZE as nat, |k: int| if k < image.len() { image[k] } else { 0u8 })
}

/// Builds `image_page(image)`.
pub fn page_of_image(image: &Vec<u8>) -> (r: Vec<u8>)
    ensures
        r@ == image_page(image@),
{
    let mut page: Vec<u8> = Vec::new();
    let mut k: usize = 0;
    while k < 4096
        invariant
            k <= 4096,
            page@ == image_page(image@).subrange(0, k as int),
        decreases 4096 - k,
    {
        if k < image.len() {
            page.push(image[k]);
        } else {
            page.push(0u8);
        }
        k = k + 1;
        assert(page@ =~= image_page(image@).subrange(0, k as int));
    }
    assert(page@ =~= image_page(image@));
    page
}

/// Copies `image`, cut or padded to one page, into the frame that backs the
/// page at `entry` in the address space rooted at `root`.
pub fn load_user_app(mem: &mut PhysMem, root: u64, entry: u64, image: &Vec<u8>) -> (r: Result<
    (),
    LaunchError,
>)
    requires
        old(mem).wf(),
    ensures
        final(mem).wf(),
        image@.len() == 0 ==> r == Err::<(), LaunchError>(LaunchError::LoadFailure) && final(mem)@ == old(mem)@,
        image@.len() > 0 && (entry & 0xfffu64 != 0 || word_slot(old(mem)@, root, entry) is None)
            ==> r == Err::<(), LaunchError>(LaunchError::MappingFailure) && final(mem)@ == old(mem)@,
        image@.len() > 0 && entry & 0xfffu64 == 0 && word_slot(old(mem)@, root, entry) is Some
            ==> {
            let f = word_slot(old(mem)@, root, entry).unwrap().0;
            &&& r is Ok
            &&& final(mem)@.len() == old(mem)@.len()
            &&& forall|g: int| 0 <= g < old(mem)@.len() && g != f ==> final(mem)@[g] == old(mem)@[g]
            &&& forall|i: int, j: int|
                0 <= i < ENTRIES && 0 <= j < 8 ==> #[trigger] byte_of(final(mem)@[f][i], j as u64)
                    == image_page(image@)[8 * i + j]
        },
{
    if image.len() == 0 {
        return Err(LaunchError::LoadFailure);
    }
    if entry & 0xfffu64 != 0 {
        return Err(LaunchError::MappingFailure);
    }
    match mem.word_slot(root, entry) {
        None => Err(LaunchError::MappingFailure),
        Some((f, _)) => {
            let page = page_of_image(image);
            mem.load_page(f, &page);
            assert forall|i: int, j: int| 0 <= i < ENTRIES && 0 <= j < 8 implies #[trigger] byte_of(
                mem@[f as int][i],
                j as u64,
            ) == image_page(image@)[8 * i + j] by {
                assert(packed_byte(page@, i, j) == page@[8 * i + j]);
            }
            Ok(())
        },
    }
}

/// Once the image is loaded, user reads of the entry page see it: byte `k`
/// of the page reads as byte `k` of the image cut or padded to a page. The
/// frame behind the page must hold none of the tables on the page's walk.
pub proof fn lemma_loaded_image_visible(
    m: Seq<Seq<u64>>,
    m2: Seq<Seq<u64>>,
    root: u64,
    entry: u64,
    image: Seq<u8>,
    k: u64,
)
    requires
        frames_wf(m),
        frames_wf(m2),
        entry & 0xfffu64 == 0,
        word_slot(m, root, entry) is Some,
        ({
            let f = word_slot(m, root, entry).unwrap().0;
            &&& m2.len() == m.len()
            &&& forall|g: int| 0 <= g < m.len() && g != f ==> m2[g] == m[g]
            &&& forall|i: int, j: int|
                0 <= i < ENTRIES && 0 <= j < 8 ==> #[trigger] byte_of(m2[f][i], j as u64)
                    == image_page(image)[8 * i + j]
            &&& forall|j: int| !reads_entry(m, root, entry, f, j)
        }),
        k < 4096,
    ensures
        read_byte(m2, root, (entry + k) as u64) == Some(image_page(image)[k as int]),
{
    let f = word_slot(m, root, entry).unwrap().0;
    lemma_same_page(entry, k);
    let x: u64 = (entry + k) as u64;
    assert(leaf_slot(m, root, x) == leaf_slot(m, root, entry));
    assert forall|j: int| !reads_entry(m, root, x, f, j) by {
        assert(!reads_entry(m, root, entry, f, j));
    }
    lemma_translate_frame_local(m, m2, root, x, f);
    let (t, i) = leaf_slot(m, root, entry).unwrap();
    lemma_offset_frame(m[t][i], k);
    let w: int = (k >> 3u64) as int;
    let b: int = (k & 7u64) as int;
    assert(word_slot(m2, root, x) == Some((f, w)));
    assert(byte_of(m2[f][w], b as u64) == image_page(image)[8 * w + b]);
}

/// Where the pieces of a new task go.
#[derive(Debug)]
pub struct LaunchPlan {
    pub stack_base: usize,
    pub stack_top: usize,
    pub ctx: UspaceContext,
}

/// Whether an entry page at `entry` and a stack of `stack_size` bytes at the
/// top of `[base, end)` fit without overlapping, on page boundaries.
pub open spec fn layout_ok(entry: usize, stack_size: usize, base: usize, end: usize) -> bool {
    &&& entry as int % 4096 == 0
    &&& stack_size as int % 4096 == 0
    &&& 0 < stack_size
    &&& base <= entry
    &&& entry + 4096 + stack_size <= end
}

/// Lays out a task that starts at `entry` with a stack of `stack_size`
/// bytes just below `end`, the top of the address space `[base, end)`: the
/// first context runs at `entry` on the top of that stack.
pub fn plan_launch(entry: usize, stack_size: usize, base: usize, end: usize) -> (r: Result<
    LaunchPlan,
    LaunchError,
>)
    ensures
        !layout_ok(entry, stack_size, base, end) ==> r is Err && r->Err_0
            == LaunchError::MappingFailure,
        layout_ok(entry, stack_size, base, end) ==> r is Ok && {
            let p = r->Ok_0;
            &&& p.stack_top == end
            &&& p.stack_base == end - stack_size
            &&& p.ctx.0.wf()
            &&& p.ctx.0.sepc == entry
            &&& p.ctx.0.regs@[REG_SP as int] == end
            &&& forall|k: int| 0 <= k < NUM_REGS && k != REG_SP ==> p.ctx.0.regs@[k] == 0
            &&& p.ctx.0.sstatus == USER_SSTATUS
        },
{
    if entry % 4096 != 0 || stack_size % 4096 != 0 || stack_size == 0 || base > entry {
        return Err(LaunchError::MappingFailure);
    }
    if entry > end || end - entry < 4096 || end - entry - 4096 < stack_size {
        return Err(LaunchError::MappingFailure);
    }
    let stack_base: usize = end - stack_size;
    Ok(LaunchPlan { stack_base, stack_top: end, ctx: UspaceContext::new(entry, end) })
}

/// Launches a user task on the address space rooted at `root`: lays out
/// its entry page at `entry` and a stack of `stack_size` bytes at the top
/// of `[base, end)`, copies the image into the entry page, and creates the
/// task, unstarted, with its first context. Any failure leaves memory as it
/// was and creates no task.
pub fn launch(
    mem: &mut PhysMem,
    root: u64,
    image: &Vec<u8>,
    entry: usize,
    stack_size: usize,
    base: usize,
    end: usize,
    kstack_top: usize,
) -> (r: Result<UserTask, LaunchError>)
    requires
        old(mem).wf(),
    ensures
        final(mem).wf(),
        r is Err ==> final(mem)@ == old(mem)@,
        !layout_ok(entry, stack_size, base, end) ==> r is Err && r->Err_0
            == LaunchError::MappingFailure,
        layout_ok(entry, stack_size, base, end) && image@.len() == 0 ==> r is Err && r->Err_0
            == LaunchError::LoadFailure,
        layout_ok(entry, stack_size, base, end) && image@.len() > 0 && word_slot(
            old(mem)@,
            root,
            entry as u64,
        ) is None ==> r is Err && r->Err_0 == LaunchError::MappingFailure,
        layout_ok(entry, stack_size, base, end) && image@.len() > 0 && word_slot(
            old(mem)@,
            root,
            entry as u64,
        ) is Some ==> r is Ok && {
            let t = r->Ok_0;
            let f = word_slot(old(mem)@, root, entry as u64).unwrap().0;
            &&& t.wf()
            &&& t.state == TaskState::Unstarted
            &&& t.ext.root == root
            &&& t.kstack_top == kstack_top
            &&& t.ext.uctx.0.sepc == entry
            &&& t.ext.uctx.0.regs@[REG_SP as int] == end
            &&& forall|k: int| 0 <= k < NUM_REGS && k != REG_SP ==> t.ext.uctx.0.regs@[k] == 0
            &&& t.ext.uctx.0.sstatus == USER_SSTATUS
            &&& final(mem)@.len() == old(mem)@.len()
            &&& forall|g: int| 0 <= g < old(mem)@.len() && g != f ==> final(mem)@[g] == old(mem)@[g]
            &&& forall|i: int, j: int|
                0 <= i < ENTRIES && 0 <= j < 8 ==> #[trigger] byte_of(final(mem)@[f][i], j as u64)
                    == image_page(image@)[8 * i + j]
        },
{
    let plan = match plan_launch(entry, stack_size, base, end) {
        Ok(p) => p,
        Err(e) => {
            return Err(e);
        },
    };
    assert(entry as int % 4096 == 0);
    assert((entry as u64) & 0xfffu64 == 0) by (bit_vector)
        requires
            (entry as u64) % 4096 == 0,
    ;
    match load_user_app(mem, root, entry as u64, image) {
        Ok(()) => Ok(spawn_user_task(root, plan.ctx, kstack_top)),
        Err(e) => Err(e),
    }
}

} // verus!
