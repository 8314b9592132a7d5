//! Scheduler diagnostics snapshots.
//!
//! Plain records the scheduler fills in for console diagnostics and boot
//! smoke checks. Each accessor returns the value the record was built with;
//! the derived answers (process lifecycle, exit code, totals) are stated in
//! terms of those values.

use vstd::prelude::*;

use super::state::TaskState;
use crate::kernel::memory::address::{PhysicalFrameStart, VirtAddr};

verus! {

/// Maximum bytes retained for a task image path diagnostic.
pub const USER_IMAGE_PATH_DIAGNOSTIC_BYTES: usize = 256;

/// Number of tasks currently in each lifecycle state.
#[derive(Clone, Copy, Debug, Default, PartialEq, Eq, Structural)]
pub struct TaskStateDiagnostics {
    ready: u64,
    running: u64,
    blocked: u64,
    finished: u64,
}

impl TaskStateDiagnostics {
    /// The recorded `ready` value.
    pub closed spec fn spec_ready(self) -> u64 {
        self.ready
    }

    /// The recorded `running` value.
    pub closed spec fn spec_running(self) -> u64 {
        self.running
    }

    /// The recorded `blocked` value.
    pub closed spec fn spec_blocked(self) -> u64 {
        self.blocked
    }

    /// The recorded `finished` value.
    pub closed spec fn spec_finished(self) -> u64 {
        self.finished
    }

    /// Create task state diagnostics from individual state counts.
    pub fn new(ready: u64, running: u64, blocked: u64, finished: u64) -> (r: Self)
        ensures
            r.spec_ready() == ready,
            r.spec_running() == running,
            r.spec_blocked() == blocked,
            r.spec_finished() == finished,
    {
        Self { ready, running, blocked, finished }
    }

    /// Return the number of ready tasks.
    pub fn ready(self) -> (r: u64)
        ensures
            r == self.spec_ready(),
    {
        self.ready
    }

    /// Return the number of running tasks.
    pub fn running(self) -> (r: u64)
        ensures
            r == self.spec_running(),
    {
        self.running
    }

    /// Return the number of blocked tasks.
    pub fn blocked(self) -> (r: u64)
        ensures
            r == self.spec_blocked(),
    {
        self.blocked
    }

    /// Return the number of finished tasks.
    pub fn finished(self) -> (r: u64)
        ensures
            r == self.spec_finished(),
    {
        self.finished
    }

}

/// Schedulable task kind reported by scheduler diagnostics.
#[derive(Clone, Copy, Debug, PartialEq, Eq, Structural)]
pub enum TaskKindDiagnostics {
    /// A kernel-mode task.
    Kernel,
    /// A user-mode task.
    User,
}

impl TaskKindDiagnostics {
    /// Return a stable label for console diagnostics.
    pub fn as_str(self) -> (r: &'static str)
        ensures
            r@ == match self {
                TaskKindDiagnostics::Kernel => "kernel"@,
                TaskKindDiagnostics::User => "user"@,
            },
    {
        match self {
            Self::Kernel => "kernel",
            Self::User => "user",
        }
    }
}

/// Process-facing lifecycle state reported by scheduler task snapshots.
#[derive(Clone, Copy, Debug, PartialEq, Eq, Structural)]
pub enum TaskProcessLifecycleDiagnostics {
    /// The task is ready to run.
    Ready,
    /// The task is currently running.
    Running,
    /// The task is blocked while waiting for an event.
    Waiting,
    /// The task finished without a retained child-exit status.
    Finished,
    /// The task finished and has a child-exit status waiting for parent reap.
    Zombie,
    /// The task finished and its child-exit status was reaped by its parent.
    Reaped,
}

impl TaskProcessLifecycleDiagnostics {
    /// Return a stable label for console diagnostics.
    pub fn as_str(self) -> (r: &'static str)
        ensures
            r@ == match self {
                TaskProcessLifecycleDiagnostics::Ready => "ready"@,
                TaskProcessLifecycleDiagnostics::Running => "running"@,
                TaskProcessLifecycleDiagnostics::Waiting => "waiting"@,
                TaskProcessLifecycleDiagnostics::Finished => "finished"@,
                TaskProcessLifecycleDiagnostics::Zombie => "zombie"@,
                TaskProcessLifecycleDiagnostics::Reaped => "reaped"@,
            },
    {
        match self {
            Self::Ready => "ready",
            Self::Running => "running",
            Self::Waiting => "waiting",
            Self::Finished => "finished",
            Self::Zombie => "zombie",
            Self::Reaped => "reaped",
        }
    }
}

/// Timer-driven scheduler preemption state.
#[derive(Clone, Copy, Debug, PartialEq, Eq, Structural, Default)]
pub enum PreemptionStateDiagnostics {
    /// Timer-driven task switching is enabled.
    #[default]
    Enabled,
    /// Timer-driven task switching is disabled for a generic kernel reason.
    Disabled,
    /// Timer-driven task switching is disabled while returning to lifecycle code.
    UserReturn,
}

impl PreemptionStateDiagnostics {
    /// Return a stable label for console diagnostics.
    pub fn as_str(self) -> (r: &'static str)
        ensures
            r@ == match self {
                PreemptionStateDiagnostics::Enabled => "enabled"@,
                PreemptionStateDiagnostics::Disabled => "disabled"@,
                PreemptionStateDiagnostics::UserReturn => "user_return"@,
            },
    {
        match self {
            Self::Enabled => "enabled",
            Self::Disabled => "disabled",
            Self::UserReturn => "user_return",
        }
    }

    /// Return whether timer-driven task switching may run.
    pub fn is_enabled(self) -> (r: bool)
        ensures
            r == (self == PreemptionStateDiagnostics::Enabled),
    {
        match self {
            Self::Enabled => true,
            _ => false,
        }
    }

    /// The compact encoding of this state: enabled 0, disabled 1, user
    /// return 2.
    pub fn as_raw(self) -> (r: u8)
        ensures
            r == preemption_state_raw(self),
    {
        match self {
            Self::Enabled => 0,
            Self::Disabled => 1,
            Self::UserReturn => 2,
        }
    }

    /// Decode a compact preemption state; every unknown value reads as
    /// disabled.
    pub fn from_raw(raw: u8) -> (r: Self)
        ensures
            r == preemption_state_from_raw(raw),
    {
        if raw == 0 {
            Self::Enabled
        } else if raw == 2 {
            Self::UserReturn
        } else {
            Self::Disabled
        }
    }
}

/// The compact encoding of a preemption state.
pub open spec fn preemption_state_raw(state: PreemptionStateDiagnostics) -> u8 {
    match state {
        PreemptionStateDiagnostics::Enabled => 0,
        PreemptionStateDiagnostics::Disabled => 1,
        PreemptionStateDiagnostics::UserReturn => 2,
    }
}

/// The preemption state a compact value decodes to.
pub open spec fn preemption_state_from_raw(raw: u8) -> PreemptionStateDiagnostics {
    if raw == 0 {
        PreemptionStateDiagnostics::Enabled
    } else if raw == 2 {
        PreemptionStateDiagnostics::UserReturn
    } else {
        PreemptionStateDiagnostics::Disabled
    }
}

/// Decoding the encoding of a preemption state gives the state back.
pub proof fn law_preemption_state_round_trip(state: PreemptionStateDiagnostics)
    ensures
        preemption_state_from_raw(preemption_state_raw(state)) == state,
{
}

/// Last scheduler preemption reason recorded for one user task.
#[derive(Clone, Copy, Debug, PartialEq, Eq, Structural, Default)]
pub enum UserPreemptionReasonDiagnostics {
    /// The task has not been preempted by the scheduler.
    #[default]
    NotPreempted,
    /// The task was last preempted by a timer interrupt.
    Timer,
}

impl UserPreemptionReasonDiagnostics {
    /// Return a stable label for console diagnostics.
    pub fn as_str(self) -> (r: &'static str)
        ensures
            r@ == match self {
                UserPreemptionReasonDiagnostics::NotPreempted => "none"@,
                UserPreemptionReasonDiagnostics::Timer => "timer"@,
            },
    {
        match self {
            Self::NotPreempted => "none",
            Self::Timer => "timer",
        }
    }
}

/// Last scheduler path that entered or resumed one user task.
#[derive(Clone, Copy, Debug, PartialEq, Eq, Structural, Default)]
pub enum UserResumePathDiagnostics {
    /// The task has not entered user mode.
    #[default]
    NotEntered,
    /// The task entered through the lifecycle return path.
    LifecycleEntry,
    /// The task first entered user mode from timer scheduling.
    TimerEntry,
    /// The task resumed a saved timer context.
    TimerResume,
}

impl UserResumePathDiagnostics {
    /// Return a stable label for console diagnostics.
    pub fn as_str(self) -> (r: &'static str)
        ensures
            r@ == match self {
                UserResumePathDiagnostics::NotEntered => "none"@,
                UserResumePathDiagnostics::LifecycleEntry => "lifecycle_entry"@,
                UserResumePathDiagnostics::TimerEntry => "timer_entry"@,
                UserResumePathDiagnostics::TimerResume => "timer_resume"@,
            },
    {
        match self {
            Self::NotEntered => "none",
            Self::LifecycleEntry => "lifecycle_entry",
            Self::TimerEntry => "timer_entry",
            Self::TimerResume => "timer_resume",
        }
    }
}

/// Last `execve` replacement lifecycle state reported for one user image.
#[derive(Clone, Copy, Debug, PartialEq, Eq, Structural, Default)]
pub enum UserExecveReplacementStateDiagnostics {
    /// No `execve` replacement candidate has been observed for this image.
    #[default]
    NoCandidate,
    /// The last replacement candidate was dropped before publication.
    CandidateDropped,
    /// The last replacement candidate was published as the active image.
    Published,
}

impl UserExecveReplacementStateDiagnostics {
    /// Return a stable label for console diagnostics.
    pub fn as_str(self) -> (r: &'static str)
        ensures
            r@ == match self {
                UserExecveReplacementStateDiagnostics::NoCandidate => "none"@,
                UserExecveReplacementStateDiagnostics::CandidateDropped => "candidate_dropped"@,
                UserExecveReplacementStateDiagnostics::Published => "published"@,
            },
    {
        match self {
            Self::NoCandidate => "none",
            Self::CandidateDropped => "candidate_dropped",
            Self::Published => "published",
        }
    }
}

/// Snapshot of the last `execve` replacement diagnostics for one user image.
#[derive(Clone, Copy, Debug, PartialEq, Eq, Structural)]
pub struct UserExecveDiagnosticsSnapshot {
    state: UserExecveReplacementStateDiagnostics,
    old_user_pages: u64,
    old_page_table_pages: u64,
}

impl UserExecveDiagnosticsSnapshot {
    /// The recorded `state` value.
    pub closed spec fn spec_state(self) -> UserExecveReplacementStateDiagnostics {
        self.state
    }

    /// The recorded `old_user_pages` value.
    pub closed spec fn spec_old_user_pages(self) -> u64 {
        self.old_user_pages
    }

    /// The recorded `old_page_table_pages` value.
    pub closed spec fn spec_old_page_table_pages(self) -> u64 {
        self.old_page_table_pages
    }

    /// The snapshot `new` makes from these values.
    pub closed spec fn spec_new(state: UserExecveReplacementStateDiagnostics, old_user_pages: u64, old_page_table_pages: u64) -> Self {
        Self { state, old_user_pages, old_page_table_pages }
    }

    /// Create an `execve` replacement diagnostics snapshot.
    pub fn new(state: UserExecveReplacementStateDiagnostics, old_user_pages: u64, old_page_table_pages: u64) -> (r: Self)
        ensures
            r == Self::spec_new(state, old_user_pages, old_page_table_pages),
            r.spec_state() == state,
            r.spec_old_user_pages() == old_user_pages,
            r.spec_old_page_table_pages() == old_page_table_pages,
    {
        Self { state, old_user_pages, old_page_table_pages }
    }

    /// Return the last observed `execve` replacement lifecycle state.
    pub fn state(self) -> (r: UserExecveReplacementStateDiagnostics)
        ensures
            r == self.spec_state(),
    {
        self.state
    }

    /// Return the old user pages reclaimed by the last successful `execve`.
    pub fn old_user_pages(self) -> (r: u64)
        ensures
            r == self.spec_old_user_pages(),
    {
        self.old_user_pages
    }

    /// Return the old page-table pages reclaimed by the last successful `execve`.
    pub fn old_page_table_pages(self) -> (r: u64)
        ensures
            r == self.spec_old_page_table_pages(),
    {
        self.old_page_table_pages
    }

}

/// Snapshot of one user task's current image diagnostics.
#[derive(Clone, Copy, Debug, PartialEq, Eq)]
pub struct UserImageDiagnosticsSnapshot {
    generation: u64,
    origin_path_len: usize,
    origin_path_bytes: [u8; 256],
    path_len: usize,
    path_bytes: [u8; 256],
    last_execve: UserExecveDiagnosticsSnapshot,
}

impl UserImageDiagnosticsSnapshot {
    /// The recorded image generation.
    pub closed spec fn spec_generation(self) -> u64 {
        self.generation
    }

    /// The recorded spawn origin path length and bytes.
    pub closed spec fn spec_origin_path(self) -> (usize, Seq<u8>) {
        (self.origin_path_len, self.origin_path_bytes@)
    }

    /// The recorded image path length and bytes.
    pub closed spec fn spec_path(self) -> (usize, Seq<u8>) {
        (self.path_len, self.path_bytes@)
    }

    /// The recorded last `execve` diagnostics.
    pub closed spec fn spec_last_execve(self) -> UserExecveDiagnosticsSnapshot {
        self.last_execve
    }

    /// The snapshot `new` makes from these values.
    pub closed spec fn spec_new(generation: u64,
        origin_path_len: usize,
        origin_path_bytes: [u8; 256],
        path_len: usize,
        path_bytes: [u8; 256],
        last_execve: UserExecveDiagnosticsSnapshot) -> Self {
        Self { generation, origin_path_len, origin_path_bytes, path_len, path_bytes, last_execve }
    }

    /// Create a user image diagnostics snapshot.
    pub fn new(
        generation: u64,
        origin_path_len: usize,
        origin_path_bytes: [u8; 256],
        path_len: usize,
        path_bytes: [u8; 256],
        last_execve: UserExecveDiagnosticsSnapshot,
    ) -> (r: Self)
        ensures
            r == Self::spec_new(generation, origin_path_len, origin_path_bytes, path_len, path_bytes, last_execve),
            r.spec_generation() == generation,
            r.spec_origin_path() == (origin_path_len, origin_path_bytes@),
            r.spec_path() == (path_len, path_bytes@),
            r.spec_last_execve() == last_execve,
    {
        Self { generation, origin_path_len, origin_path_bytes, path_len, path_bytes, last_execve }
    }

    /// Return the current image generation.
    pub fn generation(&self) -> (r: u64)
        ensures
            r == self.spec_generation(),
    {
        self.generation
    }

    /// Return the number of valid bytes in the retained spawn origin path.
    pub fn origin_path_len(&self) -> (r: usize)
        ensures
            r == self.spec_origin_path().0,
    {
        self.origin_path_len
    }

    /// Return the retained spawn origin path bytes.
    pub fn origin_path_bytes(&self) -> (r: &[u8; 256])
        ensures
            r@ == self.spec_origin_path().1,
    {
        &self.origin_path_bytes
    }

    /// Return the number of valid bytes in the retained image path.
    pub fn path_len(&self) -> (r: usize)
        ensures
            r == self.spec_path().0,
    {
        self.path_len
    }

    /// Return the retained image path bytes.
    pub fn path_bytes(&self) -> (r: &[u8; 256])
        ensures
            r@ == self.spec_path().1,
    {
        &self.path_bytes
    }

    /// Return the last observed `execve` replacement lifecycle state.
    pub fn last_execve_state(&self) -> (r: UserExecveReplacementStateDiagnostics)
        ensures
            r == self.spec_last_execve().spec_state(),
    {
        self.last_execve.state()
    }

    /// Return the old user pages reclaimed by the last successful `execve`.
    pub fn last_execve_old_user_pages(&self) -> (r: u64)
        ensures
            r == self.spec_last_execve().spec_old_user_pages(),
    {
        self.last_execve.old_user_pages()
    }

    /// Return the old page-table pages reclaimed by the last successful `execve`.
    pub fn last_execve_old_page_table_pages(&self) -> (r: u64)
        ensures
            r == self.spec_last_execve().spec_old_page_table_pages(),
    {
        self.last_execve.old_page_table_pages()
    }
}

/// Snapshot of one user task's heap bookkeeping.
#[derive(Clone, Copy, Debug, PartialEq, Eq, Structural)]
pub struct UserHeapDiagnosticsSnapshot {
    base: u64,
    current_break: u64,
    mapped_pages: u64,
}

impl UserHeapDiagnosticsSnapshot {
    /// The recorded `base` value.
    pub closed spec fn spec_base(self) -> u64 {
        self.base
    }

    /// The recorded `current_break` value.
    pub closed spec fn spec_current_break(self) -> u64 {
        self.current_break
    }

    /// The recorded `mapped_pages` value.
    pub closed spec fn spec_mapped_pages(self) -> u64 {
        self.mapped_pages
    }

    /// The snapshot `new` makes from these values.
    pub closed spec fn spec_new(base: u64, current_break: u64, mapped_pages: u64) -> Self {
        Self { base, current_break, mapped_pages }
    }

    /// Create a user heap diagnostics snapshot.
    pub fn new(base: u64, current_break: u64, mapped_pages: u64) -> (r: Self)
        ensures
            r == Self::spec_new(base, current_break, mapped_pages),
            r.spec_base() == base,
            r.spec_current_break() == current_break,
            r.spec_mapped_pages() == mapped_pages,
    {
        Self { base, current_break, mapped_pages }
    }

}

/// Snapshot of one user task's active private mapping state.
#[derive(Clone, Copy, Debug, PartialEq, Eq, Structural)]
pub struct UserMappingActiveDiagnosticsSnapshot {
    next_start: u64,
    active_pages: u64,
    active_records: u64,
    file_private_records: u64,
}

impl UserMappingActiveDiagnosticsSnapshot {
    /// The recorded `next_start` value.
    pub closed spec fn spec_next_start(self) -> u64 {
        self.next_start
    }

    /// The recorded `active_pages` value.
    pub closed spec fn spec_active_pages(self) -> u64 {
        self.active_pages
    }

    /// The recorded `active_records` value.
    pub closed spec fn spec_active_records(self) -> u64 {
        self.active_records
    }

    /// The recorded `file_private_records` value.
    pub closed spec fn spec_file_private_records(self) -> u64 {
        self.file_private_records
    }

    /// The snapshot `new` makes from these values.
    pub closed spec fn spec_new(next_start: u64, active_pages: u64, active_records: u64, file_private_records: u64) -> Self {
        Self { next_start, active_pages, active_records, file_private_records }
    }

    /// Create active private mapping diagnostics.
    pub fn new(next_start: u64, active_pages: u64, active_records: u64, file_private_records: u64) -> (r: Self)
        ensures
            r == Self::spec_new(next_start, active_pages, active_records, file_private_records),
            r.spec_next_start() == next_start,
            r.spec_active_pages() == active_pages,
            r.spec_active_records() == active_records,
            r.spec_file_private_records() == file_private_records,
    {
        Self { next_start, active_pages, active_records, file_private_records }
    }

}

/// Snapshot of one user task's private mapping lifecycle counters.
#[derive(Clone, Copy, Debug, PartialEq, Eq, Structural)]
pub struct UserMappingLifecycleDiagnosticsSnapshot {
    total_mapped_pages: u64,
    total_released_pages: u64,
    peak_active_pages: u64,
    peak_active_records: u64,
    file_private_map_count: u64,
}

impl UserMappingLifecycleDiagnosticsSnapshot {
    /// The recorded `total_mapped_pages` value.
    pub closed spec fn spec_total_mapped_pages(self) -> u64 {
        self.total_mapped_pages
    }

    /// The recorded `total_released_pages` value.
    pub closed spec fn spec_total_released_pages(self) -> u64 {
        self.total_released_pages
    }

    /// The recorded `peak_active_pages` value.
    pub closed spec fn spec_peak_active_pages(self) -> u64 {
        self.peak_active_pages
    }

    /// The recorded `peak_active_records` value.
    pub closed spec fn spec_peak_active_records(self) -> u64 {
        self.peak_active_records
    }

    /// The recorded `file_private_map_count` value.
    pub closed spec fn spec_file_private_map_count(self) -> u64 {
        self.file_private_map_count
    }

    /// The snapshot `new` makes from these values.
    pub closed spec fn spec_new(total_mapped_pages: u64, total_released_pages: u64, peak_active_pages: u64, peak_active_records: u64, file_private_map_count: u64) -> Self {
        Self { total_mapped_pages, total_released_pages, peak_active_pages, peak_active_records, file_private_map_count }
    }

    /// Create private mapping lifecycle diagnostics.
    pub fn new(total_mapped_pages: u64, total_released_pages: u64, peak_active_pages: u64, peak_active_records: u64, file_private_map_count: u64) -> (r: Self)
        ensures
            r == Self::spec_new(total_mapped_pages, total_released_pages, peak_active_pages, peak_active_records, file_private_map_count),
            r.spec_total_mapped_pages() == total_mapped_pages,
            r.spec_total_released_pages() == total_released_pages,
            r.spec_peak_active_pages() == peak_active_pages,
            r.spec_peak_active_records() == peak_active_records,
            r.spec_file_private_map_count() == file_private_map_count,
    {
        Self { total_mapped_pages, total_released_pages, peak_active_pages, peak_active_records, file_private_map_count }
    }

}

/// Snapshot of one user task's virtual memory bookkeeping.
#[derive(Clone, Copy, Debug, PartialEq, Eq, Structural)]
pub struct UserVirtualMemorySnapshot {
    heap: UserHeapDiagnosticsSnapshot,
    mapping_active: UserMappingActiveDiagnosticsSnapshot,
    mapping_lifecycle: UserMappingLifecycleDiagnosticsSnapshot,
}

impl UserVirtualMemorySnapshot {
    /// The recorded heap part.
    pub closed spec fn spec_heap(self) -> UserHeapDiagnosticsSnapshot {
        self.heap
    }

    /// The recorded active mapping part.
    pub closed spec fn spec_mapping_active(self) -> UserMappingActiveDiagnosticsSnapshot {
        self.mapping_active
    }

    /// The recorded mapping lifecycle part.
    pub closed spec fn spec_mapping_lifecycle(self) -> UserMappingLifecycleDiagnosticsSnapshot {
        self.mapping_lifecycle
    }

    /// The snapshot `new` makes from these values.
    pub closed spec fn spec_new(heap: UserHeapDiagnosticsSnapshot,
        mapping_active: UserMappingActiveDiagnosticsSnapshot,
        mapping_lifecycle: UserMappingLifecycleDiagnosticsSnapshot) -> Self {
        Self { heap, mapping_active, mapping_lifecycle }
    }

    /// Create a user virtual memory snapshot from scheduler-owned runtime state.
    pub fn new(
        heap: UserHeapDiagnosticsSnapshot,
        mapping_active: UserMappingActiveDiagnosticsSnapshot,
        mapping_lifecycle: UserMappingLifecycleDiagnosticsSnapshot,
    ) -> (r: Self)
        ensures
            r == Self::spec_new(heap, mapping_active, mapping_lifecycle),
            r.spec_heap() == heap,
            r.spec_mapping_active() == mapping_active,
            r.spec_mapping_lifecycle() == mapping_lifecycle,
    {
        Self { heap, mapping_active, mapping_lifecycle }
    }

    /// Return the first virtual address managed by `brk`.
    pub fn heap_base(self) -> (r: u64)
        ensures
            r == self.spec_heap().spec_base(),
    {
        self.heap.base
    }

    /// Return the current user heap break.
    pub fn heap_break(self) -> (r: u64)
        ensures
            r == self.spec_heap().spec_current_break(),
    {
        self.heap.current_break
    }

    /// Return the number of heap pages currently tracked by the user runtime.
    pub fn heap_mapped_pages(self) -> (r: u64)
        ensures
            r == self.spec_heap().spec_mapped_pages(),
    {
        self.heap.mapped_pages
    }

    /// Return the next private mapping address candidate.
    pub fn mapping_next_start(self) -> (r: u64)
        ensures
            r == self.spec_mapping_active().spec_next_start(),
    {
        self.mapping_active.next_start
    }

    /// Return the number of active private mapping pages.
    pub fn mapping_active_pages(self) -> (r: u64)
        ensures
            r == self.spec_mapping_active().spec_active_pages(),
    {
        self.mapping_active.active_pages
    }

    /// Return the number of active private mapping records.
    pub fn mapping_active_records(self) -> (r: u64)
        ensures
            r == self.spec_mapping_active().spec_active_records(),
    {
        self.mapping_active.active_records
    }

    /// Return the number of active file-private mapping records.
    pub fn mapping_file_private_records(self) -> (r: u64)
        ensures
            r == self.spec_mapping_active().spec_file_private_records(),
    {
        self.mapping_active.file_private_records
    }

    /// Return the total pages mapped by successful private mapping syscalls.
    pub fn mapping_total_mapped_pages(self) -> (r: u64)
        ensures
            r == self.spec_mapping_lifecycle().spec_total_mapped_pages(),
    {
        self.mapping_lifecycle.total_mapped_pages
    }

    /// Return the total private mapping pages released by unmap or replacement.
    pub fn mapping_total_released_pages(self) -> (r: u64)
        ensures
            r == self.spec_mapping_lifecycle().spec_total_released_pages(),
    {
        self.mapping_lifecycle.total_released_pages
    }

    /// Return the highest active private mapping page count observed.
    pub fn mapping_peak_active_pages(self) -> (r: u64)
        ensures
            r == self.spec_mapping_lifecycle().spec_peak_active_pages(),
    {
        self.mapping_lifecycle.peak_active_pages
    }

    /// Return the highest active private mapping record count observed.
    pub fn mapping_peak_active_records(self) -> (r: u64)
        ensures
            r == self.spec_mapping_lifecycle().spec_peak_active_records(),
    {
        self.mapping_lifecycle.peak_active_records
    }

    /// Return the number of successful file-private mapping calls.
    pub fn mapping_file_private_map_count(self) -> (r: u64)
        ensures
            r == self.spec_mapping_lifecycle().spec_file_private_map_count(),
    {
        self.mapping_lifecycle.file_private_map_count
    }

}

/// Snapshot of saved user trap frame state for one scheduler task.
#[derive(Clone, Copy, Debug, PartialEq, Eq, Structural)]
pub struct UserTrapFrameDiagnosticsSnapshot {
    saved_user_trap_frame_bytes: usize,
    syscall_frame_recorded: bool,
    interrupt_frame_recorded: bool,
    runtime_trap_frame_record_count: u64,
    restored_user_trap_frame_bytes: usize,
    runtime_trap_frame_restore_count: u64,
}

impl UserTrapFrameDiagnosticsSnapshot {
    /// The recorded `saved_user_trap_frame_bytes` value.
    pub closed spec fn spec_saved_user_trap_frame_bytes(self) -> usize {
        self.saved_user_trap_frame_bytes
    }

    /// The recorded `syscall_frame_recorded` value.
    pub closed spec fn spec_syscall_frame_recorded(self) -> bool {
        self.syscall_frame_recorded
    }

    /// The recorded `interrupt_frame_recorded` value.
    pub closed spec fn spec_interrupt_frame_recorded(self) -> bool {
        self.interrupt_frame_recorded
    }

    /// The recorded `runtime_trap_frame_record_count` value.
    pub closed spec fn spec_runtime_trap_frame_record_count(self) -> u64 {
        self.runtime_trap_frame_record_count
    }

    /// The recorded `restored_user_trap_frame_bytes` value.
    pub closed spec fn spec_restored_user_trap_frame_bytes(self) -> usize {
        self.restored_user_trap_frame_bytes
    }

    /// The recorded `runtime_trap_frame_restore_count` value.
    pub closed spec fn spec_runtime_trap_frame_restore_count(self) -> u64 {
        self.runtime_trap_frame_restore_count
    }

    /// The snapshot `new` makes from these values.
    pub closed spec fn spec_new(saved_user_trap_frame_bytes: usize, syscall_frame_recorded: bool, interrupt_frame_recorded: bool, runtime_trap_frame_record_count: u64, restored_user_trap_frame_bytes: usize, runtime_trap_frame_restore_count: u64) -> Self {
        Self { saved_user_trap_frame_bytes, syscall_frame_recorded, interrupt_frame_recorded, runtime_trap_frame_record_count, restored_user_trap_frame_bytes, runtime_trap_frame_restore_count }
    }

    /// Create a user trap frame diagnostics snapshot.
    pub fn new(saved_user_trap_frame_bytes: usize, syscall_frame_recorded: bool, interrupt_frame_recorded: bool, runtime_trap_frame_record_count: u64, restored_user_trap_frame_bytes: usize, runtime_trap_frame_restore_count: u64) -> (r: Self)
        ensures
            r == Self::spec_new(saved_user_trap_frame_bytes, syscall_frame_recorded, interrupt_frame_recorded, runtime_trap_frame_record_count, restored_user_trap_frame_bytes, runtime_trap_frame_restore_count),
            r.spec_saved_user_trap_frame_bytes() == saved_user_trap_frame_bytes,
            r.spec_syscall_frame_recorded() == syscall_frame_recorded,
            r.spec_interrupt_frame_recorded() == interrupt_frame_recorded,
            r.spec_runtime_trap_frame_record_count() == runtime_trap_frame_record_count,
            r.spec_restored_user_trap_frame_bytes() == restored_user_trap_frame_bytes,
            r.spec_runtime_trap_frame_restore_count() == runtime_trap_frame_restore_count,
    {
        Self { saved_user_trap_frame_bytes, syscall_frame_recorded, interrupt_frame_recorded, runtime_trap_frame_record_count, restored_user_trap_frame_bytes, runtime_trap_frame_restore_count }
    }

}

/// Snapshot of runtime ownership flags for one scheduler task.
#[derive(Clone, Copy, Debug, PartialEq, Eq, Structural)]
pub struct TaskRuntimeDiagnosticsSnapshot {
    active: bool,
    address_space_owned: bool,
    kernel_stack_owned: bool,
    resume_handoff_count: u64,
    last_resume_address_space_root: Option<PhysicalFrameStart>,
    last_resume_kernel_stack_top: Option<VirtAddr>,
    trap_frame: UserTrapFrameDiagnosticsSnapshot,
}

impl TaskRuntimeDiagnosticsSnapshot {
    /// The recorded `active` value.
    pub closed spec fn spec_active(self) -> bool {
        self.active
    }

    /// The recorded `address_space_owned` value.
    pub closed spec fn spec_address_space_owned(self) -> bool {
        self.address_space_owned
    }

    /// The recorded `kernel_stack_owned` value.
    pub closed spec fn spec_kernel_stack_owned(self) -> bool {
        self.kernel_stack_owned
    }

    /// The recorded `resume_handoff_count` value.
    pub closed spec fn spec_resume_handoff_count(self) -> u64 {
        self.resume_handoff_count
    }

    /// The recorded `last_resume_address_space_root` value.
    pub closed spec fn spec_last_resume_address_space_root(self) -> Option<PhysicalFrameStart> {
        self.last_resume_address_space_root
    }

    /// The recorded `last_resume_kernel_stack_top` value.
    pub closed spec fn spec_last_resume_kernel_stack_top(self) -> Option<VirtAddr> {
        self.last_resume_kernel_stack_top
    }

    /// The recorded `trap_frame` value.
    pub closed spec fn spec_trap_frame(self) -> UserTrapFrameDiagnosticsSnapshot {
        self.trap_frame
    }

    /// The snapshot `new` makes from these values.
    pub closed spec fn spec_new(active: bool, address_space_owned: bool, kernel_stack_owned: bool, resume_handoff_count: u64, last_resume_address_space_root: Option<PhysicalFrameStart>, last_resume_kernel_stack_top: Option<VirtAddr>, trap_frame: UserTrapFrameDiagnosticsSnapshot) -> Self {
        Self { active, address_space_owned, kernel_stack_owned, resume_handoff_count, last_resume_address_space_root, last_resume_kernel_stack_top, trap_frame }
    }

    /// Create a runtime ownership diagnostics snapshot.
    pub fn new(active: bool, address_space_owned: bool, kernel_stack_owned: bool, resume_handoff_count: u64, last_resume_address_space_root: Option<PhysicalFrameStart>, last_resume_kernel_stack_top: Option<VirtAddr>, trap_frame: UserTrapFrameDiagnosticsSnapshot) -> (r: Self)
        ensures
            r == Self::spec_new(active, address_space_owned, kernel_stack_owned, resume_handoff_count, last_resume_address_space_root, last_resume_kernel_stack_top, trap_frame),
            r.spec_active() == active,
            r.spec_address_space_owned() == address_space_owned,
            r.spec_kernel_stack_owned() == kernel_stack_owned,
            r.spec_resume_handoff_count() == resume_handoff_count,
            r.spec_last_resume_address_space_root() == last_resume_address_space_root,
            r.spec_last_resume_kernel_stack_top() == last_resume_kernel_stack_top,
            r.spec_trap_frame() == trap_frame,
    {
        Self { active, address_space_owned, kernel_stack_owned, resume_handoff_count, last_resume_address_space_root, last_resume_kernel_stack_top, trap_frame }
    }

}

/// Retained process exit status state for one scheduler task.
#[derive(Clone, Copy, Debug, PartialEq, Eq, Structural)]
pub enum TaskExitStatusDiagnostics {
    /// The task has not retained an exit status.
    NoStatus,
    /// The task has an exit status that the parent has not collected.
    Waitable(u64),
    /// The task has an exit status that the parent already collected.
    Collected(u64),
}

impl TaskExitStatusDiagnostics {
    /// Create an empty exit-status diagnostic state.
    pub fn none() -> (r: Self)
        ensures
            r == TaskExitStatusDiagnostics::NoStatus,
    {
        Self::NoStatus
    }

    /// Create an uncollected exit-status diagnostic state.
    pub fn waitable(exit_code: u64) -> (r: Self)
        ensures
            r == TaskExitStatusDiagnostics::Waitable(exit_code),
    {
        Self::Waitable(exit_code)
    }

    /// Create a collected exit-status diagnostic state.
    pub fn collected(exit_code: u64) -> (r: Self)
        ensures
            r == TaskExitStatusDiagnostics::Collected(exit_code),
    {
        Self::Collected(exit_code)
    }

    /// The retained exit code, when one exists.
    pub open spec fn spec_exit_code(self) -> Option<u64> {
        match self {
            TaskExitStatusDiagnostics::NoStatus => None,
            TaskExitStatusDiagnostics::Waitable(code) => Some(code),
            TaskExitStatusDiagnostics::Collected(code) => Some(code),
        }
    }

    /// Return the retained exit code when one exists.
    pub fn exit_code(self) -> (r: Option<u64>)
        ensures
            r == self.spec_exit_code(),
    {
        match self {
            Self::NoStatus => None,
            Self::Waitable(exit_code) => Some(exit_code),
            Self::Collected(exit_code) => Some(exit_code),
        }
    }

    /// Return whether this retained exit status has been collected.
    pub fn wait_collected(self) -> (r: bool)
        ensures
            r == (self is Collected),
    {
        match self {
            Self::Collected(_) => true,
            _ => false,
        }
    }
}

/// Snapshot of runtime ownership, exit status, and scheduler path state.
#[derive(Clone, Copy, Debug, PartialEq, Eq, Structural)]
pub struct TaskStatusDiagnosticsSnapshot {
    runtime: TaskRuntimeDiagnosticsSnapshot,
    exit_status: TaskExitStatusDiagnostics,
    last_preemption_reason: UserPreemptionReasonDiagnostics,
    last_resume_path: UserResumePathDiagnostics,
}

impl TaskStatusDiagnosticsSnapshot {
    /// The recorded `runtime` value.
    pub closed spec fn spec_runtime(self) -> TaskRuntimeDiagnosticsSnapshot {
        self.runtime
    }

    /// The recorded `exit_status` value.
    pub closed spec fn spec_exit_status(self) -> TaskExitStatusDiagnostics {
        self.exit_status
    }

    /// The recorded `last_preemption_reason` value.
    pub closed spec fn spec_last_preemption_reason(self) -> UserPreemptionReasonDiagnostics {
        self.last_preemption_reason
    }

    /// The recorded `last_resume_path` value.
    pub closed spec fn spec_last_resume_path(self) -> UserResumePathDiagnostics {
        self.last_resume_path
    }

    /// The snapshot `new` makes from these values.
    pub closed spec fn spec_new(runtime: TaskRuntimeDiagnosticsSnapshot, exit_status: TaskExitStatusDiagnostics, last_preemption_reason: UserPreemptionReasonDiagnostics, last_resume_path: UserResumePathDiagnostics) -> Self {
        Self { runtime, exit_status, last_preemption_reason, last_resume_path }
    }

    /// Create combined task status diagnostics.
    pub fn new(runtime: TaskRuntimeDiagnosticsSnapshot, exit_status: TaskExitStatusDiagnostics, last_preemption_reason: UserPreemptionReasonDiagnostics, last_resume_path: UserResumePathDiagnostics) -> (r: Self)
        ensures
            r == Self::spec_new(runtime, exit_status, last_preemption_reason, last_resume_path),
            r.spec_runtime() == runtime,
            r.spec_exit_status() == exit_status,
            r.spec_last_preemption_reason() == last_preemption_reason,
            r.spec_last_resume_path() == last_resume_path,
    {
        Self { runtime, exit_status, last_preemption_reason, last_resume_path }
    }

}

/// The process-facing lifecycle of a task: a retained exit status decides
/// between zombie and reaped, otherwise the scheduler state decides.
pub open spec fn process_lifecycle_of(
    exit_status: TaskExitStatusDiagnostics,
    state: TaskState,
) -> TaskProcessLifecycleDiagnostics {
    match exit_status {
        TaskExitStatusDiagnostics::Waitable(_) => TaskProcessLifecycleDiagnostics::Zombie,
        TaskExitStatusDiagnostics::Collected(_) => TaskProcessLifecycleDiagnostics::Reaped,
        TaskExitStatusDiagnostics::NoStatus => match state {
            TaskState::Ready => TaskProcessLifecycleDiagnostics::Ready,
            TaskState::Running => TaskProcessLifecycleDiagnostics::Running,
            TaskState::Blocked => TaskProcessLifecycleDiagnostics::Waiting,
            TaskState::Finished => TaskProcessLifecycleDiagnostics::Finished,
        },
    }
}

/// Snapshot of one scheduler task record.
#[derive(Clone, Copy, Debug, PartialEq, Eq)]
pub struct SchedulerTaskSnapshot {
    task_id: u64,
    parent_task_id: Option<u64>,
    kind: TaskKindDiagnostics,
    state: TaskState,
    status: TaskStatusDiagnosticsSnapshot,
    user_image: Option<UserImageDiagnosticsSnapshot>,
    user_virtual_memory: Option<UserVirtualMemorySnapshot>,
}

impl SchedulerTaskSnapshot {
    /// The recorded task identifier, parent, kind and state.
    pub closed spec fn spec_identity(self) -> (u64, Option<u64>, TaskKindDiagnostics, TaskState) {
        (self.task_id, self.parent_task_id, self.kind, self.state)
    }

    /// The recorded status.
    pub closed spec fn spec_status(self) -> TaskStatusDiagnosticsSnapshot {
        self.status
    }

    /// The recorded user image and virtual memory parts.
    pub closed spec fn spec_user(self) -> (Option<UserImageDiagnosticsSnapshot>, Option<UserVirtualMemorySnapshot>) {
        (self.user_image, self.user_virtual_memory)
    }

    /// The snapshot `new_kernel` makes from these values.
    pub closed spec fn spec_new_kernel(
        task_id: u64,
        parent_task_id: Option<u64>,
        state: TaskState,
        status: TaskStatusDiagnosticsSnapshot,
    ) -> Self {
        Self {
            task_id,
            parent_task_id,
            kind: TaskKindDiagnostics::Kernel,
            state,
            status,
            user_image: None,
            user_virtual_memory: None,
        }
    }

    /// The snapshot `new_user` makes from these values.
    pub closed spec fn spec_new_user(
        task_id: u64,
        parent_task_id: Option<u64>,
        state: TaskState,
        status: TaskStatusDiagnosticsSnapshot,
        user_image: UserImageDiagnosticsSnapshot,
        user_virtual_memory: UserVirtualMemorySnapshot,
    ) -> Self {
        Self {
            task_id,
            parent_task_id,
            kind: TaskKindDiagnostics::User,
            state,
            status,
            user_image: Some(user_image),
            user_virtual_memory: Some(user_virtual_memory),
        }
    }

    /// Create a kernel task snapshot from scheduler-owned task metadata.
    pub fn new_kernel(
        task_id: u64,
        parent_task_id: Option<u64>,
        state: TaskState,
        status: TaskStatusDiagnosticsSnapshot,
    ) -> (r: Self)
        ensures
            r == Self::spec_new_kernel(task_id, parent_task_id, state, status),
            r.spec_identity() == (task_id, parent_task_id, TaskKindDiagnostics::Kernel, state),
            r.spec_status() == status,
            r.spec_user() == (None::<UserImageDiagnosticsSnapshot>, None::<UserVirtualMemorySnapshot>),
    {
        Self {
            task_id,
            parent_task_id,
            kind: TaskKindDiagnostics::Kernel,
            state,
            status,
            user_image: None,
            user_virtual_memory: None,
        }
    }

    /// Create a user task snapshot from scheduler-owned task metadata.
    pub fn new_user(
        task_id: u64,
        parent_task_id: Option<u64>,
        state: TaskState,
        status: TaskStatusDiagnosticsSnapshot,
        user_image: &UserImageDiagnosticsSnapshot,
        user_virtual_memory: UserVirtualMemorySnapshot,
    ) -> (r: Self)
        ensures
            r == Self::spec_new_user(task_id, parent_task_id, state, status, *user_image, user_virtual_memory),
            r.spec_identity() == (task_id, parent_task_id, TaskKindDiagnostics::User, state),
            r.spec_status() == status,
            r.spec_user() == (Some(*user_image), Some(user_virtual_memory)),
    {
        Self {
            task_id,
            parent_task_id,
            kind: TaskKindDiagnostics::User,
            state,
            status,
            user_image: Some(*user_image),
            user_virtual_memory: Some(user_virtual_memory),
        }
    }

    /// Return the scheduler-local task identifier.
    pub fn task_id(&self) -> (r: u64)
        ensures
            r == self.spec_identity().0,
    {
        self.task_id
    }

    /// Return the parent task identifier if the task was spawned by another task.
    pub fn parent_task_id(&self) -> (r: Option<u64>)
        ensures
            r == self.spec_identity().1,
    {
        self.parent_task_id
    }

    /// Return the scheduler task kind.
    pub fn kind(&self) -> (r: TaskKindDiagnostics)
        ensures
            r == self.spec_identity().2,
    {
        self.kind
    }

    /// Return the current scheduler lifecycle state.
    pub fn state(&self) -> (r: TaskState)
        ensures
            r == self.spec_identity().3,
    {
        self.state
    }

    /// Return the process-facing lifecycle state for console diagnostics.
    pub fn process_lifecycle(&self) -> (r: TaskProcessLifecycleDiagnostics)
        ensures
            r == process_lifecycle_of(
                self.spec_status().spec_exit_status(),
                self.spec_identity().3,
            ),
    {
        match self.status.exit_status {
            TaskExitStatusDiagnostics::Waitable(_) => TaskProcessLifecycleDiagnostics::Zombie,
            TaskExitStatusDiagnostics::Collected(_) => TaskProcessLifecycleDiagnostics::Reaped,
            TaskExitStatusDiagnostics::NoStatus => match self.state {
                TaskState::Ready => TaskProcessLifecycleDiagnostics::Ready,
                TaskState::Running => TaskProcessLifecycleDiagnostics::Running,
                TaskState::Blocked => TaskProcessLifecycleDiagnostics::Waiting,
                TaskState::Finished => TaskProcessLifecycleDiagnostics::Finished,
            },
        }
    }

    /// Return whether this user task is in the active scheduling set.
    pub fn active(&self) -> (r: bool)
        ensures
            r == self.spec_status().spec_runtime().spec_active(),
    {
        self.status.runtime.active
    }

    /// Return whether the task still owns a user address space.
    pub fn address_space_owned(&self) -> (r: bool)
        ensures
            r == self.spec_status().spec_runtime().spec_address_space_owned(),
    {
        self.status.runtime.address_space_owned
    }

    /// Return whether the task still owns a scheduler-managed kernel stack.
    pub fn kernel_stack_owned(&self) -> (r: bool)
        ensures
            r == self.spec_status().spec_runtime().spec_kernel_stack_owned(),
    {
        self.status.runtime.kernel_stack_owned
    }

    /// Return the number of scheduler handoffs that entered or resumed this user task.
    pub fn resume_handoff_count(&self) -> (r: u64)
        ensures
            r == self.spec_status().spec_runtime().spec_resume_handoff_count(),
    {
        self.status.runtime.resume_handoff_count
    }

    /// Return the last user address-space root selected before entry or
    /// resume, or zero when there is none.
    pub fn last_resume_address_space_root(&self) -> (r: u64)
        ensures
            r == match self.spec_status().spec_runtime().spec_last_resume_address_space_root() {
                Some(root) => root@,
                None => 0,
            },
    {
        match self.status.runtime.last_resume_address_space_root {
            Some(address_space_root) => address_space_root.as_u64(),
            None => 0,
        }
    }

    /// Return the typed last user address-space root selected before entry or resume.
    pub fn last_resume_address_space_root_frame(&self) -> (r: Option<PhysicalFrameStart>)
        ensures
            r == self.spec_status().spec_runtime().spec_last_resume_address_space_root(),
    {
        self.status.runtime.last_resume_address_space_root
    }

    /// Return the last kernel stack top selected before user entry or
    /// resume, or zero when there is none.
    pub fn last_resume_kernel_stack_top(&self) -> (r: u64)
        ensures
            r == match self.spec_status().spec_runtime().spec_last_resume_kernel_stack_top() {
                Some(top) => top@,
                None => 0,
            },
    {
        match self.status.runtime.last_resume_kernel_stack_top {
            Some(kernel_stack_top) => kernel_stack_top.as_u64(),
            None => 0,
        }
    }

    /// Return the typed last kernel stack top selected before user entry or resume.
    pub fn last_resume_kernel_stack_top_address(&self) -> (r: Option<VirtAddr>)
        ensures
            r == self.spec_status().spec_runtime().spec_last_resume_kernel_stack_top(),
    {
        self.status.runtime.last_resume_kernel_stack_top
    }

    /// Return the byte size of the saved user trap frame, or zero for kernel tasks.
    pub fn saved_user_trap_frame_bytes(&self) -> (r: usize)
        ensures
            r == self.spec_status().spec_runtime().spec_trap_frame().spec_saved_user_trap_frame_bytes(),
    {
        self.status.runtime.trap_frame.saved_user_trap_frame_bytes
    }

    /// Return whether a returning syscall frame has been recorded for the task.
    pub fn syscall_frame_recorded(&self) -> (r: bool)
        ensures
            r == self.spec_status().spec_runtime().spec_trap_frame().spec_syscall_frame_recorded(),
    {
        self.status.runtime.trap_frame.syscall_frame_recorded
    }

    /// Return whether a timer interrupt frame has been recorded for the task.
    pub fn interrupt_frame_recorded(&self) -> (r: bool)
        ensures
            r == self.spec_status().spec_runtime().spec_trap_frame().spec_interrupt_frame_recorded(),
    {
        self.status.runtime.trap_frame.interrupt_frame_recorded
    }

    /// Return the number of captured runtime user trap frames recorded by the scheduler.
    pub fn runtime_trap_frame_record_count(&self) -> (r: u64)
        ensures
            r == self.spec_status().spec_runtime().spec_trap_frame().spec_runtime_trap_frame_record_count(),
    {
        self.status.runtime.trap_frame.runtime_trap_frame_record_count
    }

    /// Return the byte size of the last restored user trap frame, or zero before entry.
    pub fn restored_user_trap_frame_bytes(&self) -> (r: usize)
        ensures
            r == self.spec_status().spec_runtime().spec_trap_frame().spec_restored_user_trap_frame_bytes(),
    {
        self.status.runtime.trap_frame.restored_user_trap_frame_bytes
    }

    /// Return the number of restores from a saved runtime user trap frame.
    pub fn runtime_trap_frame_restore_count(&self) -> (r: u64)
        ensures
            r == self.spec_status().spec_runtime().spec_trap_frame().spec_runtime_trap_frame_restore_count(),
    {
        self.status.runtime.trap_frame.runtime_trap_frame_restore_count
    }

    /// Return the retained exit code for finished task records.
    pub fn exit_code(&self) -> (r: Option<u64>)
        ensures
            r == self.spec_status().spec_exit_status().spec_exit_code(),
    {
        self.status.exit_status.exit_code()
    }

    /// Return whether the retained exit code has been collected by the parent.
    pub fn wait_collected(&self) -> (r: bool)
        ensures
            r == (self.spec_status().spec_exit_status() is Collected),
    {
        self.status.exit_status.wait_collected()
    }

    /// Return the last scheduler preemption reason recorded for the task.
    pub fn last_preemption_reason(&self) -> (r: UserPreemptionReasonDiagnostics)
        ensures
            r == self.spec_status().spec_last_preemption_reason(),
    {
        self.status.last_preemption_reason
    }

    /// Return the last scheduler path that entered or resumed the task.
    pub fn last_resume_path(&self) -> (r: UserResumePathDiagnostics)
        ensures
            r == self.spec_status().spec_last_resume_path(),
    {
        self.status.last_resume_path
    }

    /// Return user image diagnostics for user task records.
    pub fn user_image(&self) -> (r: Option<&UserImageDiagnosticsSnapshot>)
        ensures
            r == match self.spec_user().0 {
                Some(image) => Some(&image),
                None => None::<&UserImageDiagnosticsSnapshot>,
            },
    {
        self.user_image.as_ref()
    }

    /// Return user virtual memory bookkeeping for user task records.
    pub fn user_virtual_memory(&self) -> (r: Option<UserVirtualMemorySnapshot>)
        ensures
            r == self.spec_user().1,
    {
        self.user_virtual_memory
    }
}

/// A task that retains an exit status is a zombie until the parent collects
/// it and reaped afterwards, whatever its scheduler state.
pub proof fn law_retained_exit_status_decides_lifecycle(
    exit_status: TaskExitStatusDiagnostics,
    state: TaskState,
)
    requires
        exit_status !is NoStatus,
    ensures
        process_lifecycle_of(exit_status, state) == if exit_status is Collected {
            TaskProcessLifecycleDiagnostics::Reaped
        } else {
            TaskProcessLifecycleDiagnostics::Zombie
        },
{
}

/// Snapshot of scheduler task counts and lifecycle accounting.
#[derive(Clone, Copy, Debug, Default, PartialEq, Eq, Structural)]
pub struct SchedulerDiagnostics {
    /// Total number of task records retained by the scheduler.
    pub total_tasks: u64,
    /// Number of kernel task records.
    pub kernel_tasks: u64,
    /// Number of user task records.
    pub user_tasks: u64,
    /// Number of user tasks in the active scheduling set.
    pub active_user_tasks: u64,
    /// Number of user tasks that still own an address space.
    pub active_user_address_spaces: u64,
    /// Lifecycle state counts for all task records.
    pub states: TaskStateDiagnostics,
    /// Number of timer-driven scheduler context switches.
    pub context_switches: u64,
    /// Number of timer preemptions from user mode.
    pub timer_preemptions: u64,
    /// Number of entries into a user task.
    pub user_entries: u64,
    /// Number of returnable lifecycle entries into a user task.
    pub one_shot_user_entries: u64,
    /// Number of first user entries started by timer scheduling.
    pub timer_user_entries: u64,
    /// Number of timer-started user entries from a preempted user task.
    pub timer_user_entries_from_preempted_user: u64,
    /// Number of resumes into an already-started user task.
    pub user_resumes: u64,
    /// Number of user tasks blocked by sleep syscalls.
    pub user_sleep_blocks: u64,
    /// Number of user tasks woken after sleep deadlines.
    pub user_sleep_wakes: u64,
    /// Number of user tasks blocked by waitpid syscalls.
    pub user_waitpid_blocks: u64,
    /// Number of user tasks woken after matching child exits.
    pub user_waitpid_wakes: u64,
    /// Number of user tasks blocked by read syscalls.
    pub user_read_blocks: u64,
    /// Number of user tasks woken after readable input arrived.
    pub user_read_wakes: u64,
    /// Number of tasks marked finished through the scheduler.
    pub finished_tasks: u64,
    /// Number of finished user exits waiting to be reported.
    pub pending_user_exits: u64,
    /// Number of retained finished user exit statuses.
    pub retained_user_exit_statuses: u64,
    /// Number of retained user exits still available to a parent wait.
    pub waitable_user_exit_statuses: u64,
    /// Number of retained user exits already collected by a parent wait.
    pub collected_user_exit_statuses: u64,
    /// Number of finished user child tasks waiting for parent reap.
    pub zombie_user_tasks: u64,
    /// Number of user child tasks already reaped by their parent.
    pub reaped_user_tasks: u64,
    /// Current timer-driven scheduler preemption state.
    pub preemption_state: PreemptionStateDiagnostics,
    /// Number of user stop syscalls that closed the preemption window.
    pub user_return_preemption_window_closes: u64,
    /// Number of returnable user stacks stored before Ring 3 entry.
    pub user_return_stack_sets: u64,
    /// Number of returnable user stacks consumed by user stop syscalls.
    pub user_return_stack_takes: u64,
    /// Number of finished user task resource reclaim records.
    pub reclaimed_user_resource_records: u64,
    /// Number of finished user address spaces reclaimed.
    pub reclaimed_user_address_spaces: u64,
    /// Number of user data pages reclaimed from finished address spaces.
    pub reclaimed_user_pages: u64,
    /// Number of page-table pages reclaimed from finished address spaces.
    pub reclaimed_user_page_table_pages: u64,
    /// Number of finished user task kernel stacks reclaimed.
    pub reclaimed_user_kernel_stacks: u64,
    /// Number of writable kernel stack pages reclaimed from user tasks.
    pub reclaimed_user_kernel_stack_writable_pages: u64,
    /// Number of reserved kernel stack virtual pages reclaimed from user tasks.
    pub reclaimed_user_kernel_stack_virtual_pages: u64,
    /// Number of reclaim-time scheduling guard checks.
    pub address_space_reclaim_guard_checks: u64,
    /// Number of explicit scheduler transition invariant checks.
    pub scheduler_transition_invariant_checks: u64,
}

impl SchedulerDiagnostics {
    /// Return the total number of task records retained by the scheduler.
    pub fn total_tasks(self) -> (r: u64)
        ensures
            r == self.total_tasks,
    {
        self.total_tasks
    }

    /// Return the number of kernel task records.
    pub fn kernel_tasks(self) -> (r: u64)
        ensures
            r == self.kernel_tasks,
    {
        self.kernel_tasks
    }

    /// Return the number of user task records.
    pub fn user_tasks(self) -> (r: u64)
        ensures
            r == self.user_tasks,
    {
        self.user_tasks
    }

    /// Return the number of user tasks in the active scheduling set.
    pub fn active_user_tasks(self) -> (r: u64)
        ensures
            r == self.active_user_tasks,
    {
        self.active_user_tasks
    }

    /// Return the number of user tasks that still own an address space.
    pub fn active_user_address_spaces(self) -> (r: u64)
        ensures
            r == self.active_user_address_spaces,
    {
        self.active_user_address_spaces
    }

    /// Return the lifecycle state counts for all task records.
    pub fn states(self) -> (r: TaskStateDiagnostics)
        ensures
            r == self.states,
    {
        self.states
    }

    /// Return the number of timer-driven scheduler context switches.
    pub fn context_switches(self) -> (r: u64)
        ensures
            r == self.context_switches,
    {
        self.context_switches
    }

    /// Return the number of timer preemptions from user mode.
    pub fn timer_preemptions(self) -> (r: u64)
        ensures
            r == self.timer_preemptions,
    {
        self.timer_preemptions
    }

    /// Return the number of entries into a user task.
    pub fn user_entries(self) -> (r: u64)
        ensures
            r == self.user_entries,
    {
        self.user_entries
    }

    /// Return the number of returnable lifecycle entries into a user task.
    pub fn one_shot_user_entries(self) -> (r: u64)
        ensures
            r == self.one_shot_user_entries,
    {
        self.one_shot_user_entries
    }

    /// Return the number of first user entries started by timer scheduling.
    pub fn timer_user_entries(self) -> (r: u64)
        ensures
            r == self.timer_user_entries,
    {
        self.timer_user_entries
    }

    /// Return the number of timer-started user entries from a preempted user task.
    pub fn timer_user_entries_from_preempted_user(self) -> (r: u64)
        ensures
            r == self.timer_user_entries_from_preempted_user,
    {
        self.timer_user_entries_from_preempted_user
    }

    /// Return the number of resumes into an already-started user task.
    pub fn user_resumes(self) -> (r: u64)
        ensures
            r == self.user_resumes,
    {
        self.user_resumes
    }

    /// Return the number of user tasks blocked by sleep syscalls.
    pub fn user_sleep_blocks(self) -> (r: u64)
        ensures
            r == self.user_sleep_blocks,
    {
        self.user_sleep_blocks
    }

    /// Return the number of user tasks woken after sleep deadlines.
    pub fn user_sleep_wakes(self) -> (r: u64)
        ensures
            r == self.user_sleep_wakes,
    {
        self.user_sleep_wakes
    }

    /// Return the number of user tasks blocked by waitpid syscalls.
    pub fn user_waitpid_blocks(self) -> (r: u64)
        ensures
            r == self.user_waitpid_blocks,
    {
        self.user_waitpid_blocks
    }

    /// Return the number of user tasks woken after matching child exits.
    pub fn user_waitpid_wakes(self) -> (r: u64)
        ensures
            r == self.user_waitpid_wakes,
    {
        self.user_waitpid_wakes
    }

    /// Return the number of user tasks blocked by read syscalls.
    pub fn user_read_blocks(self) -> (r: u64)
        ensures
            r == self.user_read_blocks,
    {
        self.user_read_blocks
    }

    /// Return the number of user tasks woken after readable input arrived.
    pub fn user_read_wakes(self) -> (r: u64)
        ensures
            r == self.user_read_wakes,
    {
        self.user_read_wakes
    }

    /// Return the number of tasks marked finished through the scheduler.
    pub fn finished_tasks(self) -> (r: u64)
        ensures
            r == self.finished_tasks,
    {
        self.finished_tasks
    }

    /// Return the number of finished user exits waiting to be reported.
    pub fn pending_user_exits(self) -> (r: u64)
        ensures
            r == self.pending_user_exits,
    {
        self.pending_user_exits
    }

    /// Return the number of retained finished user exit statuses.
    pub fn retained_user_exit_statuses(self) -> (r: u64)
        ensures
            r == self.retained_user_exit_statuses,
    {
        self.retained_user_exit_statuses
    }

    /// Return the number of retained user exits still available to a parent wait.
    pub fn waitable_user_exit_statuses(self) -> (r: u64)
        ensures
            r == self.waitable_user_exit_statuses,
    {
        self.waitable_user_exit_statuses
    }

    /// Return the number of retained user exits already collected by a parent wait.
    pub fn collected_user_exit_statuses(self) -> (r: u64)
        ensures
            r == self.collected_user_exit_statuses,
    {
        self.collected_user_exit_statuses
    }

    /// Return the number of finished user child tasks waiting for parent reap.
    pub fn zombie_user_tasks(self) -> (r: u64)
        ensures
            r == self.zombie_user_tasks,
    {
        self.zombie_user_tasks
    }

    /// Return the number of user child tasks already reaped by their parent.
    pub fn reaped_user_tasks(self) -> (r: u64)
        ensures
            r == self.reaped_user_tasks,
    {
        self.reaped_user_tasks
    }

    /// Return whether timer-driven task switching is currently enabled.
    pub fn preemption_enabled(self) -> (r: bool)
        ensures
            r == (self.preemption_state == PreemptionStateDiagnostics::Enabled),
    {
        self.preemption_state.is_enabled()
    }

    /// Return the current timer-driven scheduler preemption state.
    pub fn preemption_state(self) -> (r: PreemptionStateDiagnostics)
        ensures
            r == self.preemption_state,
    {
        self.preemption_state
    }

    /// Return the number of user stop syscalls that closed the preemption window.
    pub fn user_return_preemption_window_closes(self) -> (r: u64)
        ensures
            r == self.user_return_preemption_window_closes,
    {
        self.user_return_preemption_window_closes
    }

    /// Return the number of returnable user stacks stored before Ring 3 entry.
    pub fn user_return_stack_sets(self) -> (r: u64)
        ensures
            r == self.user_return_stack_sets,
    {
        self.user_return_stack_sets
    }

    /// Return the number of returnable user stacks consumed by user stop syscalls.
    pub fn user_return_stack_takes(self) -> (r: u64)
        ensures
            r == self.user_return_stack_takes,
    {
        self.user_return_stack_takes
    }

    /// Return the number of finished user task resource reclaim records.
    pub fn reclaimed_user_resource_records(self) -> (r: u64)
        ensures
            r == self.reclaimed_user_resource_records,
    {
        self.reclaimed_user_resource_records
    }

    /// Return the number of finished user address spaces reclaimed.
    pub fn reclaimed_user_address_spaces(self) -> (r: u64)
        ensures
            r == self.reclaimed_user_address_spaces,
    {
        self.reclaimed_user_address_spaces
    }

    /// Return the number of user data pages reclaimed from finished address spaces.
    pub fn reclaimed_user_pages(self) -> (r: u64)
        ensures
            r == self.reclaimed_user_pages,
    {
        self.reclaimed_user_pages
    }

    /// Return the number of page-table pages reclaimed from finished address spaces.
    pub fn reclaimed_user_page_table_pages(self) -> (r: u64)
        ensures
            r == self.reclaimed_user_page_table_pages,
    {
        self.reclaimed_user_page_table_pages
    }

    /// Return the number of finished user task kernel stacks reclaimed.
    pub fn reclaimed_user_kernel_stacks(self) -> (r: u64)
        ensures
            r == self.reclaimed_user_kernel_stacks,
    {
        self.reclaimed_user_kernel_stacks
    }

    /// Return the number of writable kernel stack pages reclaimed from user tasks.
    pub fn reclaimed_user_kernel_stack_writable_pages(self) -> (r: u64)
        ensures
            r == self.reclaimed_user_kernel_stack_writable_pages,
    {
        self.reclaimed_user_kernel_stack_writable_pages
    }

    /// Return the number of reserved kernel stack virtual pages reclaimed from user tasks.
    pub fn reclaimed_user_kernel_stack_virtual_pages(self) -> (r: u64)
        ensures
            r == self.reclaimed_user_kernel_stack_virtual_pages,
    {
        self.reclaimed_user_kernel_stack_virtual_pages
    }

    /// Return the number of reclaim-time scheduling guard checks.
    pub fn address_space_reclaim_guard_checks(self) -> (r: u64)
        ensures
            r == self.address_space_reclaim_guard_checks,
    {
        self.address_space_reclaim_guard_checks
    }

    /// Return the number of explicit scheduler transition invariant checks.
    pub fn scheduler_transition_invariant_checks(self) -> (r: u64)
        ensures
            r == self.scheduler_transition_invariant_checks,
    {
        self.scheduler_transition_invariant_checks
    }

}

} // verus!
