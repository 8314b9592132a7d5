//! Records shared across the architecture boundary: page-fault reports,
//! timer interrupt frames, and the syscall ABI.

use vstd::prelude::*;

pub mod page_fault_report;
pub mod syscall_contract;
pub mod timer_interrupt_frame;

verus! {

/// Number of scheduler timer ticks produced each second.
///
/// The `x86_64` boot path programs the PIT to this frequency; kernel time users
/// depend on this value when converting wall-clock durations to ticks.
pub const TIMER_TICKS_PER_SECOND: u64 = 1000;

} // verus!
