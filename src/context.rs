//! The saved register context of a user task, and the ordered steps that
//! hand it to the hardware when entering user mode.

use vstd::prelude::*;

verus! {

/// General registers saved in a frame: x1 (ra) to x31 (t6), in order.
pub const NUM_REGS: usize = 31;

/// Index of a register in the frame: register x`n` sits at `n - 1`.
pub const REG_SP: usize = 1;
pub const REG_A0: usize = 9;
pub const REG_A7: usize = 16;

/// Bytes of a saved frame: the general registers, then `sepc`, `sstatus`.
pub const TRAP_FRAME_SIZE: usize = 33 * 8;

/// `sstatus.SPIE`: interrupts are enabled once `sret` has run.
pub const SSTATUS_SPIE: usize = 0x20;
/// `sstatus.SPP`: set when the trap came from supervisor mode.
pub const SSTATUS_SPP: usize = 0x100;
/// `sstatus.SUM`: supervisor code may touch user pages.
pub const SSTATUS_SUM: usize = 0x40000;

/// The status a fresh user context starts with: `sret` goes to user mode
/// with interrupts enabled.
pub const USER_SSTATUS: usize = SSTATUS_SPIE | SSTATUS_SUM;

/// A complete snapshot of a flow: general registers, program counter and
/// status flags.
#[derive(Debug)]
pub struct TrapFrame {
    pub regs: Vec<usize>,
    pub sepc: usize,
    pub sstatus: usize,
}

impl TrapFrame {
    /// Every register slot is present.
    pub open spec fn wf(&self) -> bool {
        self.regs@.len() == NUM_REGS
    }

    /// A frame with every register and flag zero.
    pub fn zeroed() -> (r: TrapFrame)
        ensures
            r.wf(),
            forall|k: int| 0 <= k < NUM_REGS ==> r.regs@[k] == 0,
            r.sepc == 0,
            r.sstatus == 0,
    {
        let mut regs: Vec<usize> = Vec::new();
        let mut k: usize = 0;
        while k < NUM_REGS
            invariant
                k <= NUM_REGS,
                regs@.len() == k,
                forall|j: int| 0 <= j < k ==> regs@[j] == 0,
            decreases NUM_REGS - k,
        {
            regs.push(0);
            k = k + 1;
        }
        TrapFrame { regs, sepc: 0, sstatus: 0 }
    }

    pub fn reg(&self, k: usize) -> (r: usize)
        requires
            self.wf(),
            k < NUM_REGS,
        ensures
            r == self.regs@[k as int],
    {
        self.regs[k]
    }

    pub fn set_reg(&mut self, k: usize, v: usize)
        requires
            old(self).wf(),
            k < NUM_REGS,
        ensures
            final(self).wf(),
            final(self).regs@ == old(self).regs@.update(k as int, v),
            final(self).sepc == old(self).sepc,
            final(self).sstatus == old(self).sstatus,
    {
        self.regs.set(k, v);
    }

    /// Syscall argument `k` (0 to 5): registers a0 to a5.
    pub fn arg(&self, k: usize) -> (r: usize)
        requires
            self.wf(),
            k < 6,
        ensures
            r == self.regs@[REG_A0 + k],
    {
        self.regs[REG_A0 + k]
    }

    /// The syscall number: register a7.
    pub fn syscall_num(&self) -> (r: usize)
        requires
            self.wf(),
        ensures
            r == self.regs@[REG_A7 as int],
    {
        self.regs[REG_A7]
    }

    /// Stores a syscall result in a0, in its two's-complement bits.
    pub fn set_ret(&mut self, v: isize)
        requires
            old(self).wf(),
        ensures
            final(self).wf(),
            final(self).regs@ == old(self).regs@.update(REG_A0 as int, v as usize),
            final(self).sepc == old(self).sepc,
            final(self).sstatus == old(self).sstatus,
    {
        self.regs.set(REG_A0, v as usize);
    }

    /// Moves the saved program counter past the 4-byte instruction that
    /// trapped.
    pub fn skip_instruction(&mut self)
        ensures
            final(self).sepc == old(self).sepc.wrapping_add(4),
            final(self).regs == old(self).regs,
            final(self).sstatus == old(self).sstatus,
    {
        self.sepc = self.sepc.wrapping_add(4);
    }

    /// Whether `sret` from this frame lowers the privilege to user mode.
    pub fn returns_to_user(&self) -> (r: bool)
        ensures
            r == (self.sstatus & SSTATUS_SPP == 0),
    {
        self.sstatus & SSTATUS_SPP == 0
    }
}

/// The context a user task is first entered with.
#[derive(Debug)]
pub struct UspaceContext(pub TrapFrame);

impl UspaceContext {
    /// Program counter `entry`, stack pointer `ustack_top`, user mode with
    /// interrupts enabled, and every other register zero.
    pub fn new(entry: usize, ustack_top: usize) -> (r: UspaceContext)
        ensures
            r.0.wf(),
            r.0.sepc == entry,
            r.0.regs@[REG_SP as int] == ustack_top,
            forall|k: int| 0 <= k < NUM_REGS && k != REG_SP ==> r.0.regs@[k] == 0,
            r.0.sstatus == USER_SSTATUS,
    {
        let mut tf = TrapFrame::zeroed();
        tf.set_reg(REG_SP, ustack_top);
        tf.sepc = entry;
        tf.sstatus = USER_SSTATUS;
        UspaceContext(tf)
    }

    pub fn get_ip(&self) -> (r: usize)
        ensures
            r == self.0.sepc,
    {
        self.0.sepc
    }

    pub fn get_sp(&self) -> (r: usize)
        requires
            self.0.wf(),
        ensures
            r == self.0.regs@[REG_SP as int],
    {
        self.0.reg(REG_SP)
    }
}

/// One hardware step of entering user mode.
#[derive(Clone, Copy, PartialEq, Eq, Structural, Debug)]
pub enum EnterStep {
    /// Clear `sstatus.SIE`: no interrupt may land mid-switch.
    DisableInterrupts,
    /// Write `sscratch`: where the next trap from user mode finds the
    /// kernel stack.
    SetScratch(usize),
    /// Write `sepc`: where `sret` resumes.
    SetResumePc(usize),
    /// Keep the kernel's `gp` and `tp` in the frame just below the kernel
    /// stack top, where the trap entry reloads them.
    SaveKernelPointers(usize),
    /// Load every register and `sstatus` from the context at this address.
    LoadContext(usize),
    /// `sret`: drop to user mode and jump to `sepc`.
    ReturnToUser,
}

/// Entering needs room for one frame below the kernel stack top.
#[derive(Clone, Copy, PartialEq, Eq, Structural, Debug)]
pub enum EnterError {
    KernelStackTooSmall,
}

/// The steps that enter user mode from the context stored at `ctx_addr`,
/// resuming at `entry` with the kernel stack topped at `kstack_top`.
pub open spec fn enter_steps(ctx_addr: usize, entry: usize, kstack_top: usize) -> Seq<EnterStep> {
    seq![
        EnterStep::DisableInterrupts,
        EnterStep::SetScratch(kstack_top),
        EnterStep::SetResumePc(entry),
        EnterStep::SaveKernelPointers((kstack_top - TRAP_FRAME_SIZE) as usize),
        EnterStep::LoadContext(ctx_addr),
        EnterStep::ReturnToUser,
    ]
}

/// Plans the one-way switch into user mode. The context must be complete
/// and return to user mode; the kernel stack must hold one frame.
pub fn enter_user(ctx: &UspaceContext, ctx_addr: usize, kstack_top: usize) -> (r: Result<
    Vec<EnterStep>,
    EnterError,
>)
    requires
        ctx.0.wf(),
        ctx.0.sstatus & SSTATUS_SPP == 0,
    ensures
        kstack_top < TRAP_FRAME_SIZE ==> r == Err::<Vec<EnterStep>, EnterError>(
            EnterError::KernelStackTooSmall,
        ),
        kstack_top >= TRAP_FRAME_SIZE ==> r is Ok && r.unwrap()@ == enter_steps(
            ctx_addr,
            ctx.0.sepc,
            kstack_top,
        ),
{
    if kstack_top < TRAP_FRAME_SIZE {
        return Err(EnterError::KernelStackTooSmall);
    }
    let entry: usize = ctx.get_ip();
    let mut steps: Vec<EnterStep> = Vec::new();
    steps.push(EnterStep::DisableInterrupts);
    steps.push(EnterStep::SetScratch(kstack_top));
    steps.push(EnterStep::SetResumePc(entry));
    steps.push(EnterStep::SaveKernelPointers(kstack_top - TRAP_FRAME_SIZE));
    steps.push(EnterStep::LoadContext(ctx_addr));
    steps.push(EnterStep::ReturnToUser);
    assert(steps@ =~= enter_steps(ctx_addr, entry, kstack_top));
    Ok(steps)
}

} // verus!
