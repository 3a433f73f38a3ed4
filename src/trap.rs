//! Classifying a trap from its `scause` bits, and what the kernel does with
//! each kind.

use vstd::prelude::*;
use crate::context::TrapFrame;
use riscv::register::scause::{Exception, Interrupt};

verus! {

pub const EXC_USER_ENV_CALL: u64 = 8;
pub const EXC_LOAD_PAGE_FAULT: u64 = 13;
pub const IRQ_SUPERVISOR_TIMER: u64 = 5;

/// The top bit of `scause` (64 bits wide on this target) marks an interrupt.
pub const INTERRUPT_BIT: u64 = 0x8000_0000_0000_0000;

/// The causes the kernel tells apart.
#[derive(Clone, Copy, PartialEq, Eq, Structural, Debug)]
pub enum TrapCause {
    LoadPageFault,
    UserEnvCall,
    OtherException(u64),
    SupervisorTimer,
    OtherInterrupt(u64),
}

pub open spec fn exception_of(code: u64) -> TrapCause {
    if code == EXC_LOAD_PAGE_FAULT {
        TrapCause::LoadPageFault
    } else if code == EXC_USER_ENV_CALL {
        TrapCause::UserEnvCall
    } else {
        TrapCause::OtherException(code)
    }
}

pub open spec fn interrupt_of(code: u64) -> TrapCause {
    if code == IRQ_SUPERVISOR_TIMER {
        TrapCause::SupervisorTimer
    } else {
        TrapCause::OtherInterrupt(code)
    }
}

/// The cause that `scause` holds: the interrupt bit, then the code below it.
pub open spec fn cause_of(scause: u64) -> TrapCause {
    let code: u64 = scause & !INTERRUPT_BIT;
    if scause & INTERRUPT_BIT != 0 {
        interrupt_of(code)
    } else {
        exception_of(code)
    }
}

/// Relies on riscv's `Exception::from`: code 13 is a load page fault and 8
/// an environment call from user mode.
#[verifier::external_body]
fn exception_from(code: usize) -> (r: TrapCause)
    ensures
        r == exception_of(code as u64),
{
    match Exception::from(code) {
        Exception::LoadPageFault => TrapCause::LoadPageFault,
        Exception::UserEnvCall => TrapCause::UserEnvCall,
        _ => TrapCause::OtherException(code as u64),
    }
}

/// Relies on riscv's `Interrupt::from`: code 5 is the supervisor timer.
#[verifier::external_body]
fn interrupt_from(code: usize) -> (r: TrapCause)
    ensures
        r == interrupt_of(code as u64),
{
    match Interrupt::from(code) {
        Interrupt::SupervisorTimer => TrapCause::SupervisorTimer,
        _ => TrapCause::OtherInterrupt(code as u64),
    }
}

/// Decodes the `scause` register's bits.
pub fn decode_cause(scause: u64) -> (r: TrapCause)
    ensures
        r == cause_of(scause),
{
    let code: u64 = scause & !INTERRUPT_BIT;
    if code > usize::MAX as u64 {
        // No cause that the kernel tells apart has a code this large.
        if scause & INTERRUPT_BIT != 0 {
            TrapCause::OtherInterrupt(code)
        } else {
            TrapCause::OtherException(code)
        }
    } else if scause & INTERRUPT_BIT != 0 {
        interrupt_from(code as usize)
    } else {
        exception_from(code as usize)
    }
}

/// What the trap path does next.
#[derive(Clone, Copy, PartialEq, Eq, Structural, Debug)]
pub enum TrapAction {
    /// Return to the interrupted code.
    Resume,
    /// Clear the pending timer interrupt, then resume.
    ClearTimerAndResume,
    /// Hand the frame to the syscall dispatcher.
    Syscall,
    /// Nothing can recover: halt and report the cause and `sepc`.
    Fatal(TrapCause),
}

pub open spec fn action_of(cause: TrapCause) -> TrapAction {
    match cause {
        TrapCause::LoadPageFault => TrapAction::Resume,
        TrapCause::SupervisorTimer => TrapAction::ClearTimerAndResume,
        TrapCause::UserEnvCall => TrapAction::Syscall,
        _ => TrapAction::Fatal(cause),
    }
}

/// Handles a trap: a load page fault is skipped over (the faulting
/// instruction is not run again), a timer interrupt is acknowledged, an
/// environment call goes to the syscall dispatcher, and anything else is
/// fatal.
pub fn example_trap_handler(tf: &mut TrapFrame, scause: u64) -> (r: TrapAction)
    ensures
        r == action_of(cause_of(scause)),
        final(tf).regs == old(tf).regs,
        final(tf).sstatus == old(tf).sstatus,
        final(tf).sepc == if cause_of(scause) == TrapCause::LoadPageFault {
            old(tf).sepc.wrapping_add(4)
        } else {
            old(tf).sepc
        },
{
    let cause = decode_cause(scause);
    match cause {
        TrapCause::LoadPageFault => {
            tf.skip_instruction();
            TrapAction::Resume
        },
        TrapCause::SupervisorTimer => TrapAction::ClearTimerAndResume,
        TrapCause::UserEnvCall => TrapAction::Syscall,
        _ => TrapAction::Fatal(cause),
    }
}

} // verus!
