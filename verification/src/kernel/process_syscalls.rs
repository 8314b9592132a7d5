//! Handlers of the process syscalls that work on the scheduler: `waitpid`,
//! `nanosleep`, `exit`, `getpid` and `getppid`.
//!
//! A handler decides the syscall result and changes the scheduler. What it
//! needs from user memory or from the clock comes in as arguments, and a
//! store into user memory that the result depends on goes out in the
//! outcome, for the caller that owns the page tables to perform.

use vstd::prelude::*;

use crate::kernel::memory::address::{syscall_range_accepted, UserWritableRange};
use crate::kernel::memory::user_mapping::{UserMappingPlacement, UserMappingSource};
use crate::kernel::syscall::{
    is_supported_mapping_request, linux_error, linux_error_value, mapping_placement,
    mapping_request_supported, nanosleep_duration_ticks, placement_kind, placement_requested,
    sleep_ticks, wait_selector_for, WaitProcessSelector, USER_BLOCK_SENTINEL, USER_EXIT_SENTINEL,
    WNOHANG,
};
use crate::shared::syscall_contract::{MAP_ANONYMOUS, PROT_WRITE};
use crate::kernel::task::process_lifecycle::wait_status_word;
use crate::kernel::task::scheduler::{
    collected_record_at, is_user_child_of, PreemptionControl, Scheduler, UserMappingRequest,
    UserTaskRuntime, UserWaitpidRequest,
};
use crate::kernel::task::diagnostics::PreemptionStateDiagnostics;

verus! {

/// A store into user memory that a syscall result depends on.
#[derive(Clone, Copy, Debug)]
pub enum UserMemoryWrite {
    /// Store `value` in the four bytes at the start of `range`.
    WaitStatus { range: UserWritableRange, value: u32 },
    /// Fill `range` with zero bytes.
    Zero { range: UserWritableRange },
}

/// What a syscall handler hands back: the value for user space and the
/// store to perform before it is returned.
#[derive(Clone, Copy, Debug)]
pub struct SyscallOutcome {
    /// Value returned to user space.
    pub result: u64,
    /// Store into user memory, if any.
    pub write: Option<UserMemoryWrite>,
}

/// The outcome that gives `value` and stores nothing.
pub open spec fn answers(r: SyscallOutcome, value: u64) -> bool {
    r.result == value && r.write is None
}

fn plain(result: u64) -> (r: SyscallOutcome)
    ensures
        answers(r, result),
{
    SyscallOutcome { result, write: None }
}

/// The child a decoded `waitpid` selector names.
pub open spec fn selector_child(selector: WaitProcessSelector) -> Option<u64> {
    match selector {
        WaitProcessSelector::AnyChild => None,
        WaitProcessSelector::ChildIdentifier(id) => Some(id),
    }
}

/// Whether `waitpid` arguments pass the syscall's own checks: no option but
/// `WNOHANG`, and a process argument naming any child or one child.
pub open spec fn waitpid_arguments_valid(process_identifier: u64, options: u64) -> bool {
    (options == 0 || options == WNOHANG) && wait_selector_for(process_identifier) is Some
}

/// Whether the running task of `s` is a user task with a user child that
/// `child_task_id` selects.
pub open spec fn current_has_child(s: &Scheduler, child_task_id: Option<u64>) -> bool {
    exists|i: int|
        0 <= i < s.tasks@.len() && is_user_child_of(
            #[trigger] s.tasks@[i],
            s.current_index as u64,
            child_task_id,
        )
}

/// Handle `waitpid` for the running task.
///
/// `status_mapped` tells whether the four status bytes at `status_pointer`
/// are mapped writable in the caller's address space; it counts only when
/// `status_pointer` is not null. A retained exit of a matching child is
/// collected and its identifier returned, with its wait status to store; with
/// none, `WNOHANG` gives 0 and otherwise the caller is set to wait and the
/// block sentinel returned.
pub fn sys_waitpid(
    scheduler: &mut Scheduler,
    process_identifier: u64,
    status_pointer: u64,
    options: u64,
    status_mapped: bool,
) -> (r: SyscallOutcome)
    requires
        old(scheduler).wf(),
    ensures
        final(scheduler).wf(),
        !waitpid_arguments_valid(process_identifier, options) ==> answers(r, linux_error_value(22))
            && old(scheduler).spec_unchanged(final(scheduler)),
        waitpid_arguments_valid(process_identifier, options) ==> {
            let child = selector_child(wait_selector_for(process_identifier)->0);
            let cur = old(scheduler).current_index;
            let status_ok = status_pointer == 0 || (syscall_range_accepted(status_pointer, 4)
                && status_mapped);
            if !old(scheduler).tasks@[cur as int].is_user() {
                answers(r, linux_error_value(38)) && old(scheduler).spec_unchanged(final(scheduler))
            } else if !current_has_child(old(scheduler), child) {
                answers(r, linux_error_value(10)) && old(scheduler).spec_unchanged(final(scheduler))
            } else if !status_ok {
                answers(r, linux_error_value(14)) && old(scheduler).spec_unchanged(final(scheduler))
            } else if old(scheduler).spec_has_waitable(cur as u64, child) {
                exists|j: int, exit|
                    old(scheduler).spec_first_waitable(cur as u64, child, j) && collected_record_at(
                        old(scheduler),
                        final(scheduler),
                        j,
                        exit,
                    ) && r.result == exit@.0 && if status_pointer == 0 {
                        r.write is None
                    } else {
                        r.write matches Some(UserMemoryWrite::WaitStatus { range, value })
                            && range@ == (status_pointer, 4usize) && value == wait_status_word(exit@.1)
                    }
            } else if options == WNOHANG {
                answers(r, 0) && old(scheduler).spec_unchanged(final(scheduler))
            } else if old(scheduler).spec_current_user_running()
                && old(scheduler).spec_current_wait_free() {
                {
                    let request = final(scheduler).current_runtime().waitpid_request;
                    &&& answers(r, USER_BLOCK_SENTINEL)
                    &&& request matches Some(waiting) && waiting.child_task_id == child && if status_pointer
                        == 0 {
                        waiting.status_buffer is None
                    } else {
                        waiting.status_buffer matches Some(range) && range@ == (status_pointer, 4usize)
                    }
                    &&& old(scheduler).spec_current_runtime_becomes(
                        final(scheduler),
                        UserTaskRuntime { waitpid_request: request, ..old(scheduler).current_runtime() },
                    )
                }
            } else {
                answers(r, linux_error_value(38)) && old(scheduler).spec_unchanged(final(scheduler))
            }
        },
{
    proof {
        assert(options & !1u64 == 0 <==> options <= 1) by (bit_vector);
        assert(options <= 1 ==> (options & 1u64 != 0 <==> options == 1)) by (bit_vector);
    }
    if options & !WNOHANG != 0 {
        return plain(linux_error(22));
    }
    let selector = match WaitProcessSelector::from_syscall_argument(process_identifier) {
        Some(selector) => selector,
        None => return plain(linux_error(22)),
    };
    let child = selector.child_task_id();
    let parent_task_id = scheduler.get_current_task_id();
    let has_matching_child = match scheduler.current_user_task_has_child(child) {
        Some(found) => found,
        None => return plain(linux_error(38)),
    };
    if !has_matching_child {
        return plain(linux_error(10));
    }
    let status_buffer = if status_pointer == 0 {
        None
    } else {
        match UserWritableRange::from_syscall_arguments(status_pointer, 4) {
            Some(range) => {
                if !status_mapped {
                    return plain(linux_error(14));
                }
                Some(range)
            },
            None => return plain(linux_error(14)),
        }
    };
    match scheduler.collect_waitable_child_exit(parent_task_id, child) {
        Some(exit) => {
            let write = match status_buffer {
                Some(range) => Some(UserMemoryWrite::WaitStatus { range, value: exit.wait_status() }),
                None => None,
            };
            return SyscallOutcome { result: exit.task_id(), write };
        },
        None => {},
    }
    if options & WNOHANG != 0 {
        return plain(0);
    }
    match scheduler.prepare_current_user_waitpid(child, status_buffer) {
        Some(_) => plain(USER_BLOCK_SENTINEL),
        None => plain(linux_error(38)),
    }
}

/// The ticks a read `nanosleep` request of `(seconds, nanoseconds)` lasts.
pub open spec fn requested_ticks(request: Option<(u64, u64)>) -> Option<u64> {
    match request {
        Some((seconds, nanoseconds)) => sleep_ticks(seconds, nanoseconds),
        None => None,
    }
}

/// Handle `nanosleep` for the running task at tick `now_ticks`.
///
/// `request` is the `(seconds, nanoseconds)` read from the request pointer,
/// or `None` when it could not be read; `remaining_mapped` tells whether the
/// timespec at a non-null `remaining_pointer` is mapped writable. A valid
/// request zeroes the remaining timespec; a zero-tick sleep gives 0, a
/// longer one sets the caller to sleep until its wake tick and gives the
/// block sentinel.
pub fn sys_nanosleep(
    scheduler: &mut Scheduler,
    request: Option<(u64, u64)>,
    remaining_pointer: u64,
    remaining_mapped: bool,
    now_ticks: u64,
) -> (r: SyscallOutcome)
    requires
        old(scheduler).wf(),
    ensures
        final(scheduler).wf(),
        ({
            let remaining_ok = remaining_pointer == 0 || (syscall_range_accepted(remaining_pointer, 16)
                && remaining_mapped);
            if request is None || !remaining_ok {
                answers(r, linux_error_value(14)) && old(scheduler).spec_unchanged(final(scheduler))
            } else if requested_ticks(request) is None {
                answers(r, linux_error_value(22)) && old(scheduler).spec_unchanged(final(scheduler))
            } else {
                let ticks = requested_ticks(request)->0;
                &&& if remaining_pointer == 0 {
                    r.write is None
                } else {
                    r.write matches Some(UserMemoryWrite::Zero { range }) && range@ == (remaining_pointer, 16usize)
                }
                &&& if ticks == 0 {
                    r.result == 0 && old(scheduler).spec_unchanged(final(scheduler))
                } else if now_ticks + ticks > u64::MAX {
                    r.result == linux_error_value(22) && old(scheduler).spec_unchanged(final(scheduler))
                } else if old(scheduler).spec_current_user_running() {
                    r.result == USER_BLOCK_SENTINEL && old(scheduler).spec_current_runtime_becomes(
                        final(scheduler),
                        UserTaskRuntime {
                            sleep_wake_tick: Some((now_ticks + ticks) as u64),
                            ..old(scheduler).current_runtime()
                        },
                    )
                } else {
                    r.result == linux_error_value(38) && old(scheduler).spec_unchanged(final(scheduler))
                }
            }
        }),
{
    let (seconds, nanoseconds) = match request {
        Some(request) => request,
        None => return plain(linux_error(14)),
    };
    let remaining = if remaining_pointer == 0 {
        None
    } else {
        match UserWritableRange::from_syscall_arguments(remaining_pointer, 16) {
            Some(range) => {
                if !remaining_mapped {
                    return plain(linux_error(14));
                }
                Some(range)
            },
            None => return plain(linux_error(14)),
        }
    };
    let duration_ticks = match nanosleep_duration_ticks(seconds, nanoseconds) {
        Some(ticks) => ticks,
        None => return plain(linux_error(22)),
    };
    let write = match remaining {
        Some(range) => Some(UserMemoryWrite::Zero { range }),
        None => None,
    };
    if duration_ticks == 0 {
        return SyscallOutcome { result: 0, write };
    }
    let wake_tick = match now_ticks.checked_add(duration_ticks) {
        Some(tick) => tick,
        None => return SyscallOutcome { result: linux_error(22), write },
    };
    match scheduler.prepare_current_user_sleep(wake_tick) {
        Some(_) => SyscallOutcome { result: USER_BLOCK_SENTINEL, write },
        None => SyscallOutcome { result: linux_error(38), write },
    }
}

/// Handle `exit` for the running task: finish it with `exit_code`, close the
/// user-return preemption window for it, and return the exit sentinel. With
/// no running user task nothing changes.
pub fn sys_exit(scheduler: &mut Scheduler, preemption: &mut PreemptionControl, exit_code: u64) -> (r:
    u64)
    requires
        old(scheduler).wf(),
        old(scheduler).spec_exit_wakes_parent() ==> old(scheduler).tasks@[old(
            scheduler,
        ).spec_current_parent() as int].state == crate::kernel::task::state::TaskState::Blocked,
    ensures
        final(scheduler).wf(),
        r == USER_EXIT_SENTINEL,
        ({
            let cur = old(scheduler).current_index as int;
            if old(scheduler).tasks@[cur].is_user() && old(scheduler).tasks@[cur].state
                == crate::kernel::task::state::TaskState::Running {
                &&& exists|exit| old(scheduler).spec_finished_current(final(scheduler), exit_code, exit)
                &&& final(preemption).state == PreemptionStateDiagnostics::UserReturn
                &&& final(preemption).user_return_window_closes == crate::kernel::task::scheduler::wrapping_next(
                    old(preemption).user_return_window_closes,
                )
            } else {
                &&& old(scheduler).spec_unchanged(final(scheduler))
                &&& *final(preemption) == *old(preemption)
            }
        }),
{
    match scheduler.finish_current_task(exit_code) {
        Some(exit) => {
            preemption.close_user_return_preemption_window(exit.task_id());
        },
        None => {},
    }
    USER_EXIT_SENTINEL
}

/// Handle `getpid`: the running task's identifier.
pub fn sys_getpid(scheduler: &Scheduler) -> (r: u64)
    requires
        scheduler.wf(),
    ensures
        r == scheduler.current_index,
{
    scheduler.get_current_task_id()
}

/// Handle `getppid`: the running task's parent identifier, or the
/// not-implemented error for a task without a parent.
pub fn sys_getppid(scheduler: &Scheduler) -> (r: u64)
    requires
        scheduler.wf(),
    ensures
        r == match scheduler.tasks@[scheduler.current_index as int].metadata@.1 {
            Some(parent) => parent,
            None => linux_error_value(38),
        },
{
    match scheduler.get_current_parent_task_id() {
        Some(parent_task_id) => parent_task_id,
        None => linux_error(38),
    }
}


/// What an `mmap` call asks for, once its arguments are checked.
#[derive(Clone, Copy, Debug)]
pub enum MmapDecision {
    /// The call fails with this result.
    Refused(u64),
    /// A private mapping of the file behind the descriptor, with this
    /// placement, from a page-aligned offset.
    FileBacked(UserMappingPlacement),
    /// A private anonymous mapping.
    Anonymous(UserMappingRequest),
}

/// Check the arguments of `mmap` in the order the call does: the placement,
/// then the supported lengths, protections and flags (both `EINVAL`), then,
/// for a file-backed mapping, a page-aligned offset (`EINVAL`). An
/// anonymous mapping becomes a request with the caller's arguments,
/// writable when `PROT_WRITE` is asked for.
pub fn decide_mmap(requested_address: u64, length: u64, protection: u64, flags: u64, offset: u64) -> (r:
    MmapDecision)
    ensures
        placement_kind(requested_address, flags) is None ==> r == MmapDecision::Refused(
            linux_error_value(22),
        ),
        placement_kind(requested_address, flags) is Some && !mapping_request_supported(
            length,
            protection,
            flags,
        ) ==> r == MmapDecision::Refused(linux_error_value(22)),
        placement_kind(requested_address, flags) is Some && mapping_request_supported(length, protection, flags)
            ==> if flags & MAP_ANONYMOUS != 0 {
            r matches MmapDecision::Anonymous(request) && {
                &&& placement_requested(request.spec_placement(), requested_address, flags)
                &&& request.spec_requested_address() == requested_address
                &&& request.spec_source() == UserMappingSource::Anonymous
                &&& request.spec_length() == length
                &&& request.spec_writable() == (protection & PROT_WRITE != 0)
                &&& request.spec_protection() == protection
                &&& request.spec_flags() == flags
            }
        } else if offset % 4096 != 0 {
            r == MmapDecision::Refused(linux_error_value(22))
        } else {
            r matches MmapDecision::FileBacked(placement) && placement_requested(
                placement,
                requested_address,
                flags,
            )
        },
{
    let placement = match mapping_placement(requested_address, flags) {
        Some(placement) => placement,
        None => return MmapDecision::Refused(linux_error(22)),
    };
    if !is_supported_mapping_request(length, protection, flags) {
        return MmapDecision::Refused(linux_error(22));
    }
    if flags & MAP_ANONYMOUS == 0 {
        if offset % 4096 != 0 {
            return MmapDecision::Refused(linux_error(22));
        }
        return MmapDecision::FileBacked(placement);
    }
    MmapDecision::Anonymous(
        UserMappingRequest::new(
            requested_address,
            placement,
            UserMappingSource::Anonymous,
            length,
            protection & PROT_WRITE != 0,
            protection,
            flags,
        ),
    )
}

} // verus!
