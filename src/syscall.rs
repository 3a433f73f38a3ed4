//! Syscall dispatch: a trapped context read as a request, answered with a
//! signed result, never trusting the user's pointers.

use vstd::prelude::*;
use crate::context::{TrapFrame, NUM_REGS, REG_A0};
use crate::memory::user_bytes;
use crate::page_table::{PhysMem, PAGE_SIZE};

verus! {

pub const SYS_WRITE: usize = 64;
pub const SYS_EXIT: usize = 93;

pub const STDOUT: usize = 1;
pub const STDERR: usize = 2;

/// The errors a syscall reports to user code.
#[derive(Clone, Copy, PartialEq, Eq, Structural, Debug)]
pub enum Errno {
    /// `EINVAL`
    InvalidArgument,
    /// `EFAULT`
    BadAddress,
    /// `ENOSYS`
    NotImplemented,
}

/// The Linux number of each error, as `errno.h` gives it.
pub open spec fn errno_code(e: Errno) -> i32 {
    match e {
        Errno::InvalidArgument => 22,
        Errno::BadAddress => 14,
        Errno::NotImplemented => 38,
    }
}

/// Relies on axerrno's `LinuxError::code`: each variant's number is its
/// `errno.h` value.
#[verifier::external_body]
fn linux_code(e: Errno) -> (r: i32)
    ensures
        r == errno_code(e),
{
    match e {
        Errno::InvalidArgument => axerrno::LinuxError::EINVAL.code(),
        Errno::BadAddress => axerrno::LinuxError::EFAULT.code(),
        Errno::NotImplemented => axerrno::LinuxError::ENOSYS.code(),
    }
}

/// The negated code that a failed syscall returns.
pub fn errno_result(e: Errno) -> (r: isize)
    ensures
        r == -errno_code(e),
{
    -(linux_code(e) as isize)
}

/// What the trap path does after a syscall.
#[derive(Clone, Copy, PartialEq, Eq, Structural, Debug)]
pub enum SyscallOutcome {
    /// The task ends with this exit code and is never resumed.
    Exit(i32),
    /// The task resumes with this value in a0.
    Return(isize),
}

/// The outcome of the syscall in `regs`, and the bytes it writes out, for a
/// task whose tables are rooted at `root`.
pub open spec fn syscall_spec(regs: Seq<usize>, num: usize, m: Seq<Seq<u64>>, root: u64) -> (
    SyscallOutcome,
    Seq<u8>,
) {
    let a0: usize = regs[REG_A0 as int];
    let a1: usize = regs[REG_A0 + 1];
    let a2: usize = regs[REG_A0 + 2];
    if num == SYS_EXIT {
        (SyscallOutcome::Exit(a0 as i32), Seq::empty())
    } else if num == SYS_WRITE {
        if a0 != STDOUT && a0 != STDERR {
            (SyscallOutcome::Return(-errno_code(Errno::InvalidArgument) as isize), Seq::empty())
        } else if a2 > isize::MAX {
            (SyscallOutcome::Return(-errno_code(Errno::BadAddress) as isize), Seq::empty())
        } else {
            match user_bytes(m, root, a1 as u64, a2 as nat) {
                Some(b) => (SyscallOutcome::Return(a2 as isize), b),
                None => (
                    SyscallOutcome::Return(-errno_code(Errno::BadAddress) as isize),
                    Seq::empty(),
                ),
            }
        }
    } else {
        (SyscallOutcome::Return(-errno_code(Errno::NotImplemented) as isize), Seq::empty())
    }
}

/// `write` to stdout or stderr of `n` bytes, `n` up to a page, that user
/// mode may read returns exactly `n` and emits exactly those bytes; to any
/// other descriptor it returns `-EINVAL` and emits nothing; over a range
/// that user mode cannot read whole it returns `-EFAULT` and emits nothing.
pub proof fn lemma_write_results(regs: Seq<usize>, m: Seq<Seq<u64>>, root: u64)
    requires
        regs.len() == NUM_REGS,
    ensures
        ({
            let fd = regs[REG_A0 as int];
            let ptr = regs[REG_A0 + 1];
            let n = regs[REG_A0 + 2];
            let (o, bytes) = syscall_spec(regs, SYS_WRITE, m, root);
            &&& (fd == STDOUT || fd == STDERR) && n <= PAGE_SIZE && user_bytes(
                m,
                root,
                ptr as u64,
                n as nat,
            ) is Some ==> o == SyscallOutcome::Return(n as isize) && bytes == user_bytes(
                m,
                root,
                ptr as u64,
                n as nat,
            ).unwrap() && bytes.len() == n
            &&& fd != STDOUT && fd != STDERR ==> o == SyscallOutcome::Return(-22isize) && bytes.len()
                == 0
            &&& (fd == STDOUT || fd == STDERR) && user_bytes(m, root, ptr as u64, n as nat) is None
                ==> o == SyscallOutcome::Return(-14isize) && bytes.len() == 0
        }),
{
}

/// Serves syscall `syscall_num` raised with the registers in `tf`.
///
/// `exit` ends the task with a0 as its code. `write` accepts stdout and
/// stderr only, checks the whole range `[a1, a1 + a2)` against the task's
/// tables before reading it, appends the bytes to `out` and returns their
/// count. Any other number is not implemented. No input makes it fail other
/// than by a negative result.
pub fn handle_syscall(
    tf: &TrapFrame,
    syscall_num: usize,
    mem: &PhysMem,
    root: u64,
    out: &mut Vec<u8>,
) -> (r: SyscallOutcome)
    requires
        tf.wf(),
        mem.wf(),
    ensures
        r == syscall_spec(tf.regs@, syscall_num, mem@, root).0,
        final(out)@ == old(out)@ + syscall_spec(tf.regs@, syscall_num, mem@, root).1,
{
    if syscall_num == SYS_EXIT {
        SyscallOutcome::Exit(#[verifier::truncate] (tf.arg(0) as i32))
    } else if syscall_num == SYS_WRITE {
        let fd: usize = tf.arg(0);
        let ptr: usize = tf.arg(1);
        let len: usize = tf.arg(2);
        if fd != STDOUT && fd != STDERR {
            return SyscallOutcome::Return(errno_result(Errno::InvalidArgument));
        }
        if len > isize::MAX as usize {
            return SyscallOutcome::Return(errno_result(Errno::BadAddress));
        }
        match mem.read_user_bytes(root, ptr as u64, len) {
            Ok(bytes) => {
                let mut k: usize = 0;
                while k < bytes.len()
                    invariant
                        k <= bytes@.len(),
                        out@ == old(out)@ + bytes@.subrange(0, k as int),
                    decreases bytes@.len() - k,
                {
                    out.push(bytes[k]);
                    k = k + 1;
                    assert(bytes@.subrange(0, k as int) =~= bytes@.subrange(0, k - 1) + seq![bytes@[k - 1]]);
                }
                assert(bytes@.subrange(0, bytes@.len() as int) =~= bytes@);
                SyscallOutcome::Return(len as isize)
            },
            Err(_) => SyscallOutcome::Return(errno_result(Errno::BadAddress)),
        }
    } else {
        SyscallOutcome::Return(errno_result(Errno::NotImplemented))
    }
}

} // verus!
