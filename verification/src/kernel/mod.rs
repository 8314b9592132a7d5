//! Kernel subsystems.

pub mod memory;
pub mod process;
pub mod process_syscalls;
pub mod profiler;
pub mod sync;
pub mod syscall;
pub mod task;
