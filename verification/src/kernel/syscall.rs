//! Syscall ABI decisions: Linux-style error results, trace accounting, and
//! the argument checks of `mmap`, `munmap`, `nanosleep` and `waitpid`.

use vstd::prelude::*;

use crate::kernel::memory::address::{UserPageStart, UserVirtualAddress, VirtAddr, is_user_address};
use crate::kernel::memory::user_mapping::{UserMappingError, UserMappingPlacement};
use crate::shared::syscall_contract::{MAP_ANONYMOUS, MAP_FIXED_NOREPLACE, MAP_PRIVATE, PROT_EXEC, PROT_READ, PROT_WRITE};

verus! {

/// Linux-compatible fixed-placement mapping flag.
pub const MAP_FIXED: u64 = 0x10;

/// Linux-compatible `waitpid` option that returns at once when no child exited.
pub const WNOHANG: u64 = 1;

/// Largest Linux error number a syscall result encodes.
pub const LINUX_ERRNO_MAX: u64 = 4095;

/// Internal sentinel telling the syscall entry code to return to the kernel.
pub const USER_EXIT_SENTINEL: u64 = 0xffff_ffff_ffff_f000;

/// Internal sentinel telling the syscall entry code to block and return to the kernel.
pub const USER_BLOCK_SENTINEL: u64 = 0xffff_ffff_ffff_efff;

/// Internal sentinel telling the syscall entry code to resume in a new image.
pub const USER_EXECVE_SENTINEL: u64 = 0xffff_ffff_ffff_effe;

const NANOSECONDS_PER_SECOND: u64 = 1_000_000_000;
const NANOSECONDS_PER_TIMER_TICK: u64 = 1_000_000;
const PAGE_SIZE: u64 = 4096;

/// The syscall result that reports Linux error number `errno`: its two's
/// complement negation.
pub open spec fn linux_error_value(errno: u64) -> u64 {
    if errno == 0 {
        0
    } else {
        (u64::MAX - errno + 1) as u64
    }
}

/// Encode Linux error number `errno` as a syscall result.
pub fn linux_error(errno: u64) -> (r: u64)
    ensures
        r == linux_error_value(errno),
{
    0u64.wrapping_sub(errno)
}

/// The sentinels sit just below the range of encoded error results.
pub proof fn law_sentinels_below_error_range()
    ensures
        USER_EXIT_SENTINEL == u64::MAX - LINUX_ERRNO_MAX,
        USER_BLOCK_SENTINEL == u64::MAX - LINUX_ERRNO_MAX - 1,
        USER_EXECVE_SENTINEL == u64::MAX - LINUX_ERRNO_MAX - 2,
        forall|errno: u64|
            1 <= errno <= LINUX_ERRNO_MAX ==> linux_error_value(errno) > USER_EXIT_SENTINEL,
{
}

/// Snapshot of syscall trace state and recent trace accounting.
#[derive(Clone, Copy, Debug, PartialEq, Eq, Structural)]
pub struct SyscallTraceDiagnostics {
    enabled: bool,
    record_count: u64,
    last_task_id: Option<u64>,
    last_syscall_number: Option<u64>,
    last_result: Option<u64>,
}

impl View for SyscallTraceDiagnostics {
    type V = (bool, u64, Option<u64>, Option<u64>, Option<u64>);

    closed spec fn view(&self) -> (bool, u64, Option<u64>, Option<u64>, Option<u64>) {
        (self.enabled, self.record_count, self.last_task_id, self.last_syscall_number, self.last_result)
    }
}

impl SyscallTraceDiagnostics {
    /// Create syscall trace diagnostics from raw accounting state.
    pub fn new(
        enabled: bool,
        record_count: u64,
        last_task_id: Option<u64>,
        last_syscall_number: Option<u64>,
        last_result: Option<u64>,
    ) -> (r: Self)
        ensures
            r@ == (enabled, record_count, last_task_id, last_syscall_number, last_result),
    {
        Self { enabled, record_count, last_task_id, last_syscall_number, last_result }
    }

    /// Return whether syscall trace logging is enabled.
    pub fn enabled(self) -> (r: bool)
        ensures
            r == self@.0,
    {
        self.enabled
    }

    /// Return the number of syscall trace records emitted since the last reset.
    pub fn record_count(self) -> (r: u64)
        ensures
            r == self@.1,
    {
        self.record_count
    }

    /// Return the last traced task identifier, if any syscall has been traced.
    pub fn last_task_id(self) -> (r: Option<u64>)
        ensures
            r == self@.2,
    {
        self.last_task_id
    }

    /// Return the last traced syscall number, if any syscall has been traced.
    pub fn last_syscall_number(self) -> (r: Option<u64>)
        ensures
            r == self@.3,
    {
        self.last_syscall_number
    }

    /// Return the last traced syscall result, if any syscall has been traced.
    pub fn last_result(self) -> (r: Option<u64>)
        ensures
            r == self@.4,
    {
        self.last_result
    }
}

/// Syscall trace accounting: whether tracing is on, how many syscalls were
/// recorded since the last reset, and the last one recorded.
pub struct SyscallTrace {
    enabled: bool,
    record_count: u64,
    last: Option<(u64, u64, u64)>,
}

impl SyscallTrace {
    /// The enabled flag, the record count, and the last task identifier,
    /// syscall number and result.
    pub closed spec fn state(&self) -> (bool, u64, Option<(u64, u64, u64)>) {
        (self.enabled, self.record_count, self.last)
    }

    /// Tracing off, with nothing recorded.
    pub fn new() -> (r: Self)
        ensures
            r.state() == (false, 0u64, None::<(u64, u64, u64)>),
    {
        Self { enabled: false, record_count: 0, last: None }
    }

    /// Enable or disable syscall trace logging.
    pub fn set_trace_enabled(&mut self, enabled: bool)
        ensures
            final(self).state() == (enabled, old(self).state().1, old(self).state().2),
    {
        self.enabled = enabled;
    }

    /// Clear syscall trace accounting while preserving the enabled state.
    pub fn reset_trace(&mut self)
        ensures
            final(self).state() == (old(self).state().0, 0u64, None::<(u64, u64, u64)>),
    {
        self.record_count = 0;
        self.last = None;
    }

    /// Return syscall trace diagnostics.
    pub fn get_trace_diagnostics(&self) -> (r: SyscallTraceDiagnostics)
        ensures
            r@ == match self.state().2 {
                None => (self.state().0, self.state().1, None, None, None),
                Some((task, number, result)) => (
                    self.state().0,
                    self.state().1,
                    Some(task),
                    Some(number),
                    Some(result),
                ),
            },
    {
        match self.last {
            None => SyscallTraceDiagnostics::new(self.enabled, self.record_count, None, None, None),
            Some((task_id, syscall_number, result)) => SyscallTraceDiagnostics::new(
                self.enabled,
                self.record_count,
                Some(task_id),
                Some(syscall_number),
                Some(result),
            ),
        }
    }

    /// Record one finished syscall when tracing is on, and return the
    /// record's one-based index; a syscall with no current task is recorded
    /// under task zero.
    pub fn record_syscall_trace(&mut self, task_id: Option<u64>, syscall_number: u64, result: u64) -> (r: Option<u64>)
        ensures
            !old(self).state().0 ==> r is None && final(self).state() == old(self).state(),
            old(self).state().0 ==> {
                let count = if old(self).state().1 == u64::MAX {
                    u64::MAX
                } else {
                    (old(self).state().1 + 1) as u64
                };
                &&& final(self).state() == (
                    true,
                    if old(self).state().1 == u64::MAX {
                        0u64
                    } else {
                        (old(self).state().1 + 1) as u64
                    },
                    Some(
                        (
                            match task_id {
                                Some(id) => id,
                                None => 0,
                            },
                            syscall_number,
                            result,
                        ),
                    ),
                )
                &&& r == Some(count)
            },
    {
        if !self.enabled {
            return None;
        }
        let task_id = match task_id {
            Some(id) => id,
            None => 0,
        };
        self.last = Some((task_id, syscall_number, result));
        let record_index = self.record_count.saturating_add(1);
        self.record_count = self.record_count.wrapping_add(1);
        Some(record_index)
    }
}

/// Which child a `waitpid` waits for.
#[derive(Clone, Copy, Debug, PartialEq, Eq, Structural)]
pub enum WaitProcessSelector {
    /// Any child of the caller.
    AnyChild,
    /// The child with the task identifier.
    ChildIdentifier(u64),
}

/// The selector a raw `waitpid` process argument names: `-1` for any child,
/// a positive identifier for that child, nothing otherwise.
pub open spec fn wait_selector_for(process_identifier: u64) -> Option<WaitProcessSelector> {
    if process_identifier == u64::MAX {
        Some(WaitProcessSelector::AnyChild)
    } else if 0 < process_identifier <= i64::MAX {
        Some(WaitProcessSelector::ChildIdentifier(process_identifier))
    } else {
        None
    }
}

impl WaitProcessSelector {
    /// Decode a raw `waitpid` process argument read as a signed integer.
    pub fn from_syscall_argument(process_identifier: u64) -> (r: Option<Self>)
        ensures
            r == wait_selector_for(process_identifier),
    {
        if process_identifier == u64::MAX {
            Some(Self::AnyChild)
        } else if process_identifier > 0 && process_identifier <= i64::MAX as u64 {
            Some(Self::ChildIdentifier(process_identifier))
        } else {
            None
        }
    }

    /// The child identifier waited for, or `None` for any child.
    pub fn child_task_id(self) -> (r: Option<u64>)
        ensures
            r == match self {
                WaitProcessSelector::AnyChild => None,
                WaitProcessSelector::ChildIdentifier(id) => Some(id),
            },
    {
        match self {
            Self::AnyChild => None,
            Self::ChildIdentifier(child_task_id) => Some(child_task_id),
        }
    }
}

/// The number of timer ticks a `nanosleep` of `seconds` and `nanoseconds`
/// lasts, rounding part ticks up; `None` for a nanosecond field of a whole
/// second or more, or when the tick count overflows.
pub open spec fn sleep_ticks(seconds: u64, nanoseconds: u64) -> Option<u64> {
    if nanoseconds >= 1_000_000_000 || seconds * 1000 > u64::MAX {
        None
    } else {
        let ticks = seconds * 1000 + (nanoseconds + 999_999) / 1_000_000;
        if ticks > u64::MAX {
            None
        } else {
            Some(ticks as u64)
        }
    }
}

/// Convert a `nanosleep` request into timer ticks.
pub fn nanosleep_duration_ticks(seconds: u64, nanoseconds: u64) -> (r: Option<u64>)
    ensures
        r == sleep_ticks(seconds, nanoseconds),
        nanoseconds >= 1_000_000_000 ==> r is None,
        r matches Some(ticks) ==> ticks * 1_000_000 >= seconds * 1_000_000_000 + nanoseconds
            && ticks * 1_000_000 < seconds * 1_000_000_000 + nanoseconds + 1_000_000,
{
    proof {
        law_sleep_lasts_the_request_rounded_up_to_whole_ticks(seconds, nanoseconds);
    }
    if nanoseconds >= NANOSECONDS_PER_SECOND {
        return None;
    }
    let second_ticks = match seconds.checked_mul(crate::shared::TIMER_TICKS_PER_SECOND) {
        Some(ticks) => ticks,
        None => return None,
    };
    let nanosecond_ticks = nanoseconds / NANOSECONDS_PER_TIMER_TICK + if nanoseconds
        % NANOSECONDS_PER_TIMER_TICK != 0 {
        1
    } else {
        0
    };
    proof {
        assert(nanosecond_ticks == (nanoseconds + 999_999) / 1_000_000) by (nonlinear_arith)
            requires
                nanosecond_ticks == nanoseconds / 1_000_000 + if nanoseconds % 1_000_000 != 0 {
                    1int
                } else {
                    0int
                },
        ;
    }
    second_ticks.checked_add(nanosecond_ticks)
}

/// A `nanosleep` lasts the requested time rounded up to whole timer ticks
/// of one millisecond (1000 ticks per second): the ticks cover the request,
/// and one tick fewer would not. A request with a nanosecond field below a
/// second is refused only when the tick count does not fit in 64 bits.
pub proof fn law_sleep_lasts_the_request_rounded_up_to_whole_ticks(seconds: u64, nanoseconds: u64)
    ensures
        nanoseconds >= 1_000_000_000 ==> sleep_ticks(seconds, nanoseconds) is None,
        nanoseconds < 1_000_000_000 && seconds * 1000 + 1000 <= u64::MAX ==> sleep_ticks(seconds, nanoseconds) is Some,
        sleep_ticks(seconds, nanoseconds) matches Some(ticks) ==> {
            &&& ticks * 1_000_000 >= seconds * 1_000_000_000 + nanoseconds
            &&& ticks * 1_000_000 < seconds * 1_000_000_000 + nanoseconds + 1_000_000
        },
{
    if nanoseconds < 1_000_000_000 && seconds * 1000 <= u64::MAX {
        let q = (nanoseconds + 999_999) / 1_000_000;
        assert(q * 1_000_000 <= nanoseconds + 999_999 < q * 1_000_000 + 1_000_000) by (nonlinear_arith)
            requires
                q == (nanoseconds + 999_999) / 1_000_000,
        ;
        assert(q <= 1000);
    }
}

/// A sleep of a whole number of milliseconds lasts exactly that many ticks.
pub proof fn law_whole_milliseconds_sleep_that_many_ticks(seconds: u64, milliseconds: u64)
    requires
        milliseconds < 1000,
        seconds * 1000 + 1000 <= u64::MAX,
    ensures
        sleep_ticks(seconds, (milliseconds * 1_000_000) as u64) == Some((seconds * 1000 + milliseconds) as u64),
{
    law_sleep_lasts_the_request_rounded_up_to_whole_ticks(seconds, (milliseconds * 1_000_000) as u64);
}

/// Whether an `mmap` request asks only for what private mappings support:
/// a non-zero length, read or write access without execute, and private
/// placement flags only.
pub open spec fn mapping_request_supported(length: u64, protection: u64, flags: u64) -> bool {
    let supported_protection = PROT_READ | PROT_WRITE | PROT_EXEC;
    let supported_flags = MAP_PRIVATE | MAP_FIXED | MAP_ANONYMOUS | MAP_FIXED_NOREPLACE;
    &&& length != 0
    &&& protection & !supported_protection == 0
    &&& protection & PROT_EXEC == 0
    &&& protection & (PROT_READ | PROT_WRITE) != 0
    &&& flags & !supported_flags == 0
    &&& flags & MAP_PRIVATE == MAP_PRIVATE
}

/// Check the length, protection and flags of an `mmap` request.
pub fn is_supported_mapping_request(length: u64, protection: u64, flags: u64) -> (r: bool)
    ensures
        r == mapping_request_supported(length, protection, flags),
{
    let supported_protection = PROT_READ | PROT_WRITE | PROT_EXEC;
    let supported_flags = MAP_PRIVATE | MAP_FIXED | MAP_ANONYMOUS | MAP_FIXED_NOREPLACE;
    length != 0 && (protection & !supported_protection) == 0 && (protection & PROT_EXEC) == 0
        && (protection & (PROT_READ | PROT_WRITE)) != 0 && (flags & !supported_flags) == 0 && (
    flags & MAP_PRIVATE) == MAP_PRIVATE
}

/// The placement an `mmap` request asks for: a fixed placement needs a
/// non-null, page-aligned user address, `MAP_FIXED_NOREPLACE` winning over
/// `MAP_FIXED`; without either, only a null address is accepted.
pub open spec fn placement_kind(requested_address: u64, flags: u64) -> Option<u8> {
    if flags & MAP_FIXED_NOREPLACE != 0 {
        if is_user_address(requested_address as int) && requested_address % 4096 == 0 {
            Some(1u8)
        } else {
            None
        }
    } else if flags & MAP_FIXED != 0 {
        if is_user_address(requested_address as int) && requested_address % 4096 == 0 {
            Some(2u8)
        } else {
            None
        }
    } else if requested_address == 0 {
        Some(0u8)
    } else {
        None
    }
}

/// Whether `placement` is the placement an `mmap` request with
/// `requested_address` and `flags` asks for (see `placement_kind`).
pub open spec fn placement_requested(placement: UserMappingPlacement, requested_address: u64, flags: u64) -> bool {
    match placement_kind(requested_address, flags) {
        None => false,
        Some(kind) => if kind == 0 {
            placement == UserMappingPlacement::Any
        } else if kind == 1 {
            placement matches UserMappingPlacement::FixedNoReplace(start) && start@ == requested_address
        } else {
            placement matches UserMappingPlacement::FixedReplace(start) && start@ == requested_address
        },
    }
}

/// The placement `mmap` decodes follows its flags: with
/// `MAP_FIXED_NOREPLACE` a valid address is placed there without replacing
/// anything (whatever else the flags hold); with `MAP_FIXED` alone it is
/// placed there replacing what is mapped; with neither, the kernel picks
/// the place and the address must be null. A fixed request needs a
/// non-null, page-aligned user address.
pub proof fn law_mmap_placement_follows_the_fixed_flags(requested_address: u64, flags: u64)
    ensures
        ({
            let valid = is_user_address(requested_address as int) && requested_address % 4096 == 0;
            &&& flags & MAP_FIXED_NOREPLACE != 0 ==> (placement_kind(requested_address, flags) is Some
                <==> valid)
            &&& flags & MAP_FIXED_NOREPLACE != 0 && valid ==> forall|p: UserMappingPlacement|
                placement_requested(p, requested_address, flags) <==> (p matches UserMappingPlacement::FixedNoReplace(
                    start,
                ) && start@ == requested_address)
            &&& flags & MAP_FIXED_NOREPLACE == 0 && flags & MAP_FIXED != 0 ==> (placement_kind(
                requested_address,
                flags,
            ) is Some <==> valid)
            &&& flags & MAP_FIXED_NOREPLACE == 0 && flags & MAP_FIXED != 0 && valid ==> forall|
                p: UserMappingPlacement,
            |
                placement_requested(p, requested_address, flags) <==> (p matches UserMappingPlacement::FixedReplace(
                    start,
                ) && start@ == requested_address)
            &&& flags & (MAP_FIXED_NOREPLACE | MAP_FIXED) == 0 ==> (placement_kind(requested_address, flags) is Some
                <==> requested_address == 0)
            &&& flags & (MAP_FIXED_NOREPLACE | MAP_FIXED) == 0 && requested_address == 0 ==> forall|
                p: UserMappingPlacement,
            | placement_requested(p, requested_address, flags) <==> p == UserMappingPlacement::Any
        }),
{
    assert(flags & (MAP_FIXED_NOREPLACE | MAP_FIXED) == 0 <==> (flags & MAP_FIXED_NOREPLACE == 0 && flags
        & MAP_FIXED == 0)) by (bit_vector)
        requires
            MAP_FIXED_NOREPLACE == 0x0010_0000u64,
            MAP_FIXED == 0x10u64,
    ;
}

/// Decode the placement of an `mmap` request.
pub fn mapping_placement(requested_address: u64, flags: u64) -> (r: Option<UserMappingPlacement>)
    ensures
        match placement_kind(requested_address, flags) {
            None => r is None,
            Some(kind) => if kind == 0 {
                r == Some(UserMappingPlacement::Any)
            } else if kind == 1 {
                r matches Some(UserMappingPlacement::FixedNoReplace(start)) && start@
                    == requested_address
            } else {
                r matches Some(UserMappingPlacement::FixedReplace(start)) && start@
                    == requested_address
            },
        },
        r matches Some(placement) ==> placement_requested(placement, requested_address, flags),
        flags & MAP_FIXED_NOREPLACE != 0 && is_user_address(requested_address as int)
            && requested_address % 4096 == 0 ==> (r matches Some(
            UserMappingPlacement::FixedNoReplace(start),
        ) && start@ == requested_address),
        flags & MAP_FIXED_NOREPLACE == 0 && flags & MAP_FIXED != 0 && is_user_address(
            requested_address as int,
        ) && requested_address % 4096 == 0 ==> (r matches Some(UserMappingPlacement::FixedReplace(start))
            && start@ == requested_address),
        flags & (MAP_FIXED_NOREPLACE | MAP_FIXED) == 0 ==> (r == if requested_address == 0 {
            Some(UserMappingPlacement::Any)
        } else {
            None::<UserMappingPlacement>
        }),
{
    proof {
        law_mmap_placement_follows_the_fixed_flags(requested_address, flags);
    }
    let fixed_no_replace = flags & MAP_FIXED_NOREPLACE != 0;
    let fixed_replace = flags & MAP_FIXED != 0;
    if fixed_no_replace || fixed_replace {
        if requested_address == 0 || requested_address % PAGE_SIZE != 0 {
            return None;
        }
        let address = match UserVirtualAddress::new(VirtAddr::new(requested_address)) {
            Some(address) => address,
            None => return None,
        };
        let start = match UserPageStart::new(address) {
            Some(start) => start,
            None => return None,
        };
        if fixed_no_replace {
            Some(UserMappingPlacement::FixedNoReplace(start))
        } else {
            Some(UserMappingPlacement::FixedReplace(start))
        }
    } else if requested_address == 0 {
        Some(UserMappingPlacement::Any)
    } else {
        None
    }
}

/// The Linux error a rejected private mapping request reports.
pub open spec fn mapping_error_errno(error: UserMappingError) -> u64 {
    match error {
        UserMappingError::InvalidRequest => 22,
        UserMappingError::AddressInUse => 17,
        UserMappingError::OutOfMemory => 12,
        UserMappingError::InitializationFailed => 95,
    }
}

/// Encode a rejected private mapping request as a syscall result.
pub fn user_mapping_error_to_linux(error: UserMappingError) -> (r: u64)
    ensures
        r == linux_error_value(mapping_error_errno(error)),
{
    match error {
        UserMappingError::InvalidRequest => linux_error(22),
        UserMappingError::AddressInUse => linux_error(17),
        UserMappingError::OutOfMemory => linux_error(12),
        UserMappingError::InitializationFailed => linux_error(95),
    }
}

/// Whether `munmap` arguments pass the syscall's own checks: a non-null,
/// page-aligned start and a non-zero length.
pub fn munmap_arguments_valid(start_address: u64, length: u64) -> (r: bool)
    ensures
        r == (start_address != 0 && length != 0 && start_address % 4096 == 0),
{
    !(start_address == 0 || length == 0 || start_address % PAGE_SIZE != 0)
}


/// An error result is the two's complement negation of its error number:
/// adding the two wraps to zero, every error number of Linux gives a result
/// in the top 4095 values, and different error numbers give different
/// results.
pub proof fn law_error_results_negate_their_errno(errno: u64, other: u64)
    ensures
        linux_error_value(errno) == (if errno == 0 { 0 } else { 0x1_0000_0000_0000_0000 - errno }),
        1 <= errno <= LINUX_ERRNO_MAX ==> linux_error_value(errno) >= u64::MAX - LINUX_ERRNO_MAX + 1,
        (linux_error_value(errno) == linux_error_value(other)) <==> errno == other,
{
}

} // verus!
