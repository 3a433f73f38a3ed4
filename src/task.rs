//! A user task's lifecycle: it is entered once, then alternates between
//! running in user mode and sitting trapped in the kernel, until an exit
//! request ends it for good.

use vstd::prelude::*;
use crate::context::{
    enter_user, EnterError, EnterStep, TrapFrame, UspaceContext, NUM_REGS, REG_A0, REG_A7, SSTATUS_SPP,
};
use crate::page_table::PhysMem;
use crate::syscall::{handle_syscall, syscall_spec, SyscallOutcome, SYS_EXIT};
use crate::trap::{action_of, cause_of, example_trap_handler, TrapAction, TrapCause};

verus! {

/// Where a task stands with respect to privilege.
#[derive(Clone, Copy, PartialEq, Eq, Structural, Debug)]
pub enum TaskState {
    /// Created, not yet entered.
    Unstarted,
    /// Running in user mode.
    User,
    /// Trapped into the kernel, its context saved.
    Kernel,
    /// Ended with this exit code; final.
    Terminated(i32),
}

/// A request that the task's current state does not allow.
#[derive(Clone, Copy, PartialEq, Eq, Structural, Debug)]
pub enum TaskError {
    /// The request does not fit the task's state, or its context would not
    /// return to user mode.
    WrongState,
    /// The kernel stack has no room for the frame a trap saves.
    KernelStackTooSmall,
}

/// What a user task carries: its saved context and the root of its tables.
#[derive(Debug)]
pub struct TaskExt {
    pub uctx: UspaceContext,
    pub root: u64,
}

impl TaskExt {
    /// Bundles a task's context with its address space's root.
    pub fn new(uctx: UspaceContext, root: u64) -> (r: TaskExt)
        ensures
            r.uctx == uctx,
            r.root == root,
    {
        TaskExt { uctx, root }
    }
}

/// A user task as the kernel tracks it.
#[derive(Debug)]
pub struct UserTask {
    pub ext: TaskExt,
    pub state: TaskState,
    pub kstack_top: usize,
}

/// The exit code of a task ended by a fault it cannot recover from.
pub const FAULT_EXIT_CODE: i32 = -1;

/// The state after the trap path classifies a trap with action `a`.
pub open spec fn state_after_trap(a: TrapAction) -> TaskState {
    match a {
        TrapAction::Resume => TaskState::User,
        TrapAction::ClearTimerAndResume => TaskState::User,
        TrapAction::Syscall => TaskState::Kernel,
        TrapAction::Fatal(_) => TaskState::Terminated(FAULT_EXIT_CODE),
    }
}

/// What `join` reports in a given state: the exit code once terminated.
pub open spec fn join_spec(s: TaskState) -> Option<i32> {
    match s {
        TaskState::Terminated(c) => Some(c),
        _ => None,
    }
}

/// The state after serving a syscall with outcome `o`.
pub open spec fn state_after(o: SyscallOutcome) -> TaskState {
    match o {
        SyscallOutcome::Exit(c) => TaskState::Terminated(c),
        SyscallOutcome::Return(_) => TaskState::User,
    }
}

/// Creates a task that will enter user mode with `uctx` on the address
/// space rooted at `root`, its kernel stack topped at `kstack_top`.
pub fn spawn_user_task(root: u64, uctx: UspaceContext, kstack_top: usize) -> (r: UserTask)
    requires
        uctx.0.wf(),
    ensures
        r.wf(),
        r.state == TaskState::Unstarted,
        r.ext.root == root,
        r.ext.uctx == uctx,
        r.kstack_top == kstack_top,
{
    UserTask { ext: TaskExt::new(uctx, root), state: TaskState::Unstarted, kstack_top }
}

impl UserTask {
    /// The saved context is complete.
    pub open spec fn wf(&self) -> bool {
        self.ext.uctx.0.wf()
    }

    /// The first entry into user mode: the steps that restore the context
    /// stored at `ctx_addr`. Only an unstarted task whose context returns to
    /// user mode may be entered.
    pub fn start(&mut self, ctx_addr: usize) -> (r: Result<Vec<EnterStep>, TaskError>)
        requires
            old(self).wf(),
        ensures
            final(self).wf(),
            final(self).ext == old(self).ext,
            final(self).kstack_top == old(self).kstack_top,
            (old(self).state != TaskState::Unstarted || old(self).ext.uctx.0.sstatus & SSTATUS_SPP
                != 0) ==> r == Err::<Vec<EnterStep>, TaskError>(TaskError::WrongState)
                && final(self).state == old(self).state,
            (old(self).state == TaskState::Unstarted && old(self).ext.uctx.0.sstatus & SSTATUS_SPP
                == 0) ==> match r {
                Ok(steps) => steps@ == crate::context::enter_steps(
                    ctx_addr,
                    old(self).ext.uctx.0.sepc,
                    old(self).kstack_top,
                ) && final(self).state == TaskState::User,
                Err(e) => e == TaskError::KernelStackTooSmall && old(self).kstack_top
                    < crate::context::TRAP_FRAME_SIZE && final(self).state == old(self).state,
            },
    {
        if self.state != TaskState::Unstarted || !self.ext.uctx.0.returns_to_user() {
            return Err(TaskError::WrongState);
        }
        match enter_user(&self.ext.uctx, ctx_addr, self.kstack_top) {
            Ok(steps) => {
                self.state = TaskState::User;
                Ok(steps)
            },
            Err(EnterError::KernelStackTooSmall) => Err(TaskError::KernelStackTooSmall),
        }
    }

    /// A trap from user mode: the trap path has saved the complete context
    /// `tf`, which replaces the task's save point.
    pub fn trap(&mut self, tf: TrapFrame) -> (r: Result<(), TaskError>)
        requires
            old(self).wf(),
            tf.wf(),
        ensures
            final(self).wf(),
            final(self).ext.root == old(self).ext.root,
            final(self).kstack_top == old(self).kstack_top,
            old(self).state == TaskState::User ==> r is Ok && final(self).state == TaskState::Kernel
                && final(self).ext.uctx.0 == tf,
            old(self).state != TaskState::User ==> r == Err::<(), TaskError>(TaskError::WrongState)
                && final(self).state == old(self).state && final(self).ext == old(self).ext,
    {
        if self.state != TaskState::User {
            return Err(TaskError::WrongState);
        }
        self.ext.uctx = UspaceContext(tf);
        self.state = TaskState::Kernel;
        Ok(())
    }

    /// Resumes a trapped task where its context says, without a syscall.
    pub fn resume(&mut self) -> (r: Result<(), TaskError>)
        ensures
            final(self).ext == old(self).ext,
            final(self).kstack_top == old(self).kstack_top,
            old(self).state == TaskState::Kernel ==> r is Ok && final(self).state == TaskState::User,
            old(self).state != TaskState::Kernel ==> r == Err::<(), TaskError>(TaskError::WrongState)
                && final(self).state == old(self).state,
    {
        if self.state != TaskState::Kernel {
            return Err(TaskError::WrongState);
        }
        self.state = TaskState::User;
        Ok(())
    }

    /// Classifies the trap that brought the task into the kernel, with cause
    /// `scause`. A load page fault is skipped and the task resumed, as is a
    /// timer interrupt once acknowledged; an environment call stays trapped
    /// for the syscall dispatcher; any other cause ends the task.
    pub fn on_trap(&mut self, scause: u64) -> (r: Result<TrapAction, TaskError>)
        requires
            old(self).wf(),
        ensures
            final(self).wf(),
            final(self).ext.root == old(self).ext.root,
            final(self).kstack_top == old(self).kstack_top,
            final(self).ext.uctx.0.regs == old(self).ext.uctx.0.regs,
            final(self).ext.uctx.0.sstatus == old(self).ext.uctx.0.sstatus,
            old(self).state != TaskState::Kernel ==> r == Err::<TrapAction, TaskError>(
                TaskError::WrongState,
            ) && final(self).state == old(self).state && final(self).ext == old(self).ext,
            old(self).state == TaskState::Kernel ==> r == Ok::<TrapAction, TaskError>(
                action_of(cause_of(scause)),
            ) && final(self).state == state_after_trap(action_of(cause_of(scause)))
                && final(self).ext.uctx.0.sepc == if cause_of(scause) == TrapCause::LoadPageFault {
                old(self).ext.uctx.0.sepc.wrapping_add(4)
            } else {
                old(self).ext.uctx.0.sepc
            },
    {
        if self.state != TaskState::Kernel {
            return Err(TaskError::WrongState);
        }
        let a = example_trap_handler(&mut self.ext.uctx.0, scause);
        match a {
            TrapAction::Resume => {
                self.state = TaskState::User;
            },
            TrapAction::ClearTimerAndResume => {
                self.state = TaskState::User;
            },
            TrapAction::Syscall => {},
            TrapAction::Fatal(_) => {
                self.state = TaskState::Terminated(FAULT_EXIT_CODE);
            },
        }
        Ok(a)
    }

    /// Serves the syscall a trapped task raised. An exit ends the task; any
    /// other request leaves its result in a0, moves past the `ecall` and
    /// resumes the task.
    pub fn on_syscall(&mut self, mem: &PhysMem, out: &mut Vec<u8>) -> (r: Result<
        SyscallOutcome,
        TaskError,
    >)
        requires
            old(self).wf(),
            mem.wf(),
        ensures
            final(self).wf(),
            final(self).ext.root == old(self).ext.root,
            final(self).kstack_top == old(self).kstack_top,
            old(self).state != TaskState::Kernel ==> r == Err::<SyscallOutcome, TaskError>(
                TaskError::WrongState,
            ) && final(self).state == old(self).state && final(self).ext == old(self).ext
                && final(out)@ == old(out)@,
            old(self).state == TaskState::Kernel ==> {
                let regs = old(self).ext.uctx.0.regs@;
                let (o, bytes) = syscall_spec(regs, regs[REG_A7 as int], mem@, old(self).ext.root);
                &&& r == Ok::<SyscallOutcome, TaskError>(o)
                &&& final(self).state == state_after(o)
                &&& final(out)@ == old(out)@ + bytes
                &&& match o {
                    SyscallOutcome::Return(v) => final(self).ext.uctx.0.regs@ == regs.update(
                        REG_A0 as int,
                        v as usize,
                    ) && final(self).ext.uctx.0.sepc == old(self).ext.uctx.0.sepc.wrapping_add(4)
                        && final(self).ext.uctx.0.sstatus == old(self).ext.uctx.0.sstatus,
                    SyscallOutcome::Exit(_) => final(self).ext == old(self).ext,
                }
            },
    {
        if self.state != TaskState::Kernel {
            return Err(TaskError::WrongState);
        }
        let num: usize = self.ext.uctx.0.syscall_num();
        let o = handle_syscall(&self.ext.uctx.0, num, mem, self.ext.root, out);
        match o {
            SyscallOutcome::Exit(c) => {
                self.state = TaskState::Terminated(c);
            },
            SyscallOutcome::Return(v) => {
                self.ext.uctx.0.set_ret(v);
                self.ext.uctx.0.skip_instruction();
                self.state = TaskState::User;
            },
        }
        Ok(o)
    }

    /// The exit code, once the task has terminated; `None` while it may
    /// still run.
    pub fn join(&self) -> (r: Option<i32>)
        ensures
            r == join_spec(self.state),
    {
        match self.state {
            TaskState::Terminated(c) => Some(c),
            _ => None,
        }
    }
}

/// An exit request ends the task, and `join` then reports exactly the code
/// in a0 read as the ABI's signed 32-bit exit code; a non-negative code
/// comes back unchanged.
pub proof fn lemma_exit_code_joined(regs: Seq<usize>, m: Seq<Seq<u64>>, root: u64)
    requires
        regs.len() == NUM_REGS,
        regs[REG_A7 as int] == SYS_EXIT,
    ensures
        join_spec(state_after(syscall_spec(regs, regs[REG_A7 as int], m, root).0)) == Some(
            regs[REG_A0 as int] as i32,
        ),
        regs[REG_A0 as int] <= i32::MAX ==> join_spec(
            state_after(syscall_spec(regs, regs[REG_A7 as int], m, root).0),
        ) == Some(regs[REG_A0 as int] as i32) && (regs[REG_A0 as int] as i32) as int
            == regs[REG_A0 as int] as int,
{
}

} // verus!
