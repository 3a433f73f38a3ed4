//! A verified model of launching a user task on a three-level RISC-V
//! (Sv39) address space: page-table walking and rewriting, the saved
//! register context, trap and syscall dispatch, and the task lifecycle.

pub mod buffer;
pub mod context;
pub mod launch;
pub mod memory;
pub mod page_table;
pub mod pte;
pub mod syscall;
pub mod task;
pub mod tlb;
pub mod trap;
