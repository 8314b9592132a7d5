//! Scheduler state: the task records, the set of active user tasks, the
//! retained child exits, and the decisions that move tasks between states.
//!
//! Task identifiers are handed out in order and tasks are never dropped, so
//! the task with identifier `i` is the record at index `i`; the bootstrap
//! kernel task is the record at index zero. The hardware side (kernel
//! stacks, page tables and the context switch itself) acts on what these
//! decisions return.

use vstd::prelude::*;

use crate::kernel::memory::address::{PhysicalFrameStart, UserVirtualAddress, UserWritableRange};
use crate::kernel::task::kernel_stacks::{kernel_stack_top_of, TaskKernelStacks};
use crate::kernel::memory::user_heap::UserHeap;
use crate::kernel::memory::user_layout::USER_HEAP_END;
use crate::kernel::memory::user_mapping::{UserMappingPlacement, UserMappingSource};
use crate::kernel::task::context::{TaskContext, UserTaskContext, UserTrapFrame};
use crate::kernel::task::diagnostics::{
    PreemptionStateDiagnostics, SchedulerDiagnostics, TaskStateDiagnostics,
    UserExecveReplacementStateDiagnostics, UserPreemptionReasonDiagnostics,
    UserResumePathDiagnostics,
};
use crate::kernel::task::metadata::{TaskIdentifier, TaskMetadata};
use crate::kernel::task::process_lifecycle::{wait_status_word, UserReturnWindow, UserTaskExit};
use crate::kernel::task::mapping_statistics::{
    larger, no_mapping_statistics, saturating_sum, UserMappingStatistics,
};
use crate::kernel::task::state::TaskState;
use crate::kernel::task::user_image::{
    initial_image_view, replaced_image_view, UserImageRuntime, UserImageView,
};
use vstd::string::StringSliceAdditionalSpecFns;

verus! {

/// Syscall-time private user mapping request.
#[derive(Clone, Copy, Debug, PartialEq, Eq, Structural)]
pub struct UserMappingRequest {
    requested_address: u64,
    placement: UserMappingPlacement,
    source: UserMappingSource,
    length: u64,
    writable: bool,
    protection: u64,
    flags: u64,
}

impl UserMappingRequest {
    /// Create a private user mapping request.
    pub fn new(
        requested_address: u64,
        placement: UserMappingPlacement,
        source: UserMappingSource,
        length: u64,
        writable: bool,
        protection: u64,
        flags: u64,
    ) -> (r: Self)
        ensures
            r.spec_requested_address() == requested_address,
            r.spec_placement() == placement,
            r.spec_source() == source,
            r.spec_length() == length,
            r.spec_writable() == writable,
            r.spec_protection() == protection,
            r.spec_flags() == flags,
    {
        Self { requested_address, placement, source, length, writable, protection, flags }
    }

    /// The raw requested address.
    pub closed spec fn spec_requested_address(self) -> u64 {
        self.requested_address
    }

    /// The placement policy.
    pub closed spec fn spec_placement(self) -> UserMappingPlacement {
        self.placement
    }

    /// The data source.
    pub closed spec fn spec_source(self) -> UserMappingSource {
        self.source
    }

    /// The requested length in bytes.
    pub closed spec fn spec_length(self) -> u64 {
        self.length
    }

    /// Whether the mapping is to be writable.
    pub closed spec fn spec_writable(self) -> bool {
        self.writable
    }

    /// The raw protection argument.
    pub closed spec fn spec_protection(self) -> u64 {
        self.protection
    }

    /// The raw flags argument.
    pub closed spec fn spec_flags(self) -> u64 {
        self.flags
    }

    /// Return the raw requested address syscall argument.
    pub fn requested_address(self) -> (r: u64)
        ensures
            r == self.spec_requested_address(),
    {
        self.requested_address
    }

    /// Return the placement policy for this mapping.
    pub fn placement(self) -> (r: UserMappingPlacement)
        ensures
            r == self.spec_placement(),
    {
        self.placement
    }

    /// Return the data source used to initialize this mapping.
    pub fn source(self) -> (r: UserMappingSource)
        ensures
            r == self.spec_source(),
    {
        self.source
    }

    /// Return the requested mapping length in bytes.
    pub fn length(self) -> (r: u64)
        ensures
            r == self.spec_length(),
    {
        self.length
    }

    /// Return whether the mapping should be writable.
    pub fn writable(self) -> (r: bool)
        ensures
            r == self.spec_writable(),
    {
        self.writable
    }

    /// Return the raw protection syscall argument.
    pub fn protection(self) -> (r: u64)
        ensures
            r == self.spec_protection(),
    {
        self.protection
    }

    /// Return the raw mapping flags syscall argument.
    pub fn flags(self) -> (r: u64)
        ensures
            r == self.spec_flags(),
    {
        self.flags
    }
}

/// Pending user read syscall state that waits for device input.
#[derive(Clone, Copy, Debug, PartialEq, Eq, Structural)]
pub struct UserReadRequest {
    file_descriptor: usize,
    user_buffer: UserWritableRange,
}

impl UserReadRequest {
    /// Create a pending user read request.
    pub fn new(file_descriptor: usize, user_buffer: UserWritableRange) -> (r: Self)
        ensures
            r.spec_file_descriptor() == file_descriptor,
            r.spec_user_buffer() == user_buffer,
    {
        Self { file_descriptor, user_buffer }
    }

    /// The file descriptor being read.
    pub closed spec fn spec_file_descriptor(self) -> usize {
        self.file_descriptor
    }

    /// The destination user buffer.
    pub closed spec fn spec_user_buffer(self) -> UserWritableRange {
        self.user_buffer
    }

    /// Return the file descriptor being read.
    pub fn file_descriptor(self) -> (r: usize)
        ensures
            r == self.spec_file_descriptor(),
    {
        self.file_descriptor
    }

    /// Return the destination user buffer.
    pub fn user_buffer(self) -> (r: UserWritableRange)
        ensures
            r == self.spec_user_buffer(),
    {
        self.user_buffer
    }

    /// Return the requested byte length.
    pub fn byte_len(self) -> (r: usize)
        ensures
            r == self.spec_user_buffer()@.1,
    {
        self.user_buffer.as_range().byte_len()
    }
}

/// Source of a captured runtime user trap frame.
#[derive(Clone, Copy, Debug, PartialEq, Eq, Structural)]
pub enum UserTrapFrameSource {
    /// Trap frame captured by the SYSCALL return path.
    Syscall,
    /// Trap frame captured by the timer interrupt path.
    TimerInterrupt,
}

/// A `waitpid` the task blocked in: the child it waits for (`None` for any
/// child) and where the status word goes.
#[derive(Clone, Copy, Debug, PartialEq, Eq, Structural)]
pub struct UserWaitpidRequest {
    /// Awaited child, or `None` for any child.
    pub child_task_id: Option<u64>,
    /// User buffer receiving the wait status, if any.
    pub status_buffer: Option<UserWritableRange>,
}

impl UserWaitpidRequest {
    /// Whether an exit of `child_task_id` satisfies this request.
    pub open spec fn spec_matches_child(self, child_task_id: u64) -> bool {
        match self.child_task_id {
            Some(requested) => requested == child_task_id,
            None => true,
        }
    }

    /// Return whether an exit of `child_task_id` satisfies this request.
    pub fn matches_child(self, child_task_id: u64) -> (r: bool)
        ensures
            r == self.spec_matches_child(child_task_id),
            self.child_task_id is None ==> r,
            self.child_task_id matches Some(requested) ==> (r <==> requested == child_task_id),
    {
        match self.child_task_id {
            Some(requested) => requested == child_task_id,
            None => true,
        }
    }
}

/// A satisfied `waitpid` whose status word still has to be stored.
#[derive(Clone, Copy, Debug, PartialEq, Eq, Structural)]
pub struct UserWaitpidCompletion {
    /// The collected child.
    pub child_task_id: u64,
    /// User buffer receiving the wait status, if any.
    pub status_buffer: Option<UserWritableRange>,
    /// The encoded wait status.
    pub wait_status: u32,
}

/// A retained child exit, waiting for its parent to collect it.
#[derive(Clone, Copy, Debug, PartialEq, Eq, Structural)]
pub struct ChildExitRecord {
    /// The task that may collect the exit.
    pub parent_task_id: u64,
    /// The task that exited.
    pub child_task_id: u64,
    /// The exit code.
    pub exit_code: u64,
    /// Whether the parent collected it.
    pub collected: bool,
}

impl ChildExitRecord {
    /// Whether the record waits for `parent_task_id`, for the given child
    /// or, with `None`, for any child.
    pub open spec fn spec_waitable_for_parent(self, parent_task_id: u64, child_task_id: Option<u64>) -> bool {
        &&& self.parent_task_id == parent_task_id
        &&& !self.collected
        &&& match child_task_id {
            Some(child) => self.child_task_id == child,
            None => true,
        }
    }

    /// Return whether the record waits for `parent_task_id`.
    pub fn waitable_for_parent(self, parent_task_id: u64, child_task_id: Option<u64>) -> (r: bool)
        ensures
            r == self.spec_waitable_for_parent(parent_task_id, child_task_id),
    {
        if self.parent_task_id != parent_task_id || self.collected {
            return false;
        }
        match child_task_id {
            Some(child) => self.child_task_id == child,
            None => true,
        }
    }
}

/// Scheduler-side state of a user task.
#[derive(Clone, Copy, Debug)]
pub struct UserTaskRuntime {
    /// Root page-table frame of the task's address space, while it has one.
    pub address_space_root: Option<PhysicalFrameStart>,
    /// Register frame the task resumes with.
    pub saved_frame: UserTrapFrame,
    /// The image the task runs and where it came from.
    pub image: UserImageRuntime,
    /// The task's heap break.
    pub heap: UserHeap,
    /// Lifetime accounting of the task's private mappings.
    pub mapping_statistics: UserMappingStatistics,
    /// Tick at which a sleeping task wakes.
    pub sleep_wake_tick: Option<u64>,
    /// A pending `waitpid`.
    pub waitpid_request: Option<UserWaitpidRequest>,
    /// A satisfied `waitpid` whose status is still to be stored.
    pub waitpid_completion: Option<UserWaitpidCompletion>,
    /// A pending read from the keyboard.
    pub read_request: Option<UserReadRequest>,
    /// Whether a syscall trap frame was recorded.
    pub syscall_frame_recorded: bool,
    /// Whether a timer trap frame was recorded.
    pub interrupt_frame_recorded: bool,
    /// Number of runtime trap frames recorded.
    pub runtime_trap_frame_record_count: u64,
    /// Whether the address space is being torn down.
    pub address_space_reclaiming: bool,
    /// Bytes of the register frame last restored for the task.
    pub restored_user_trap_frame_bytes: usize,
    /// Number of restores of a recorded runtime trap frame.
    pub runtime_trap_frame_restore_count: u64,
    /// Why the task last stopped running.
    pub last_preemption_reason: UserPreemptionReasonDiagnostics,
    /// How the task was last entered or resumed.
    pub last_resume_path: UserResumePathDiagnostics,
    /// Number of entries and resumes handed to the task.
    pub resume_handoff_count: u64,
    /// Address space root of the last entry or resume.
    pub last_resume_address_space_root: Option<PhysicalFrameStart>,
    /// Kernel stack top installed for the last entry or resume.
    pub last_resume_kernel_stack_top: Option<u64>,
}

impl UserTaskRuntime {
    /// Whether the task owns an address space that is not being reclaimed.
    pub open spec fn spec_has_schedulable_address_space(self) -> bool {
        self.address_space_root is Some && !self.address_space_reclaiming
    }

    /// Return whether the task owns an address space that is not being
    /// reclaimed.
    pub fn has_schedulable_address_space(&self) -> (r: bool)
        ensures
            r == self.spec_has_schedulable_address_space(),
    {
        self.address_space_root.is_some() && !self.address_space_reclaiming
    }
}

/// What kind of code a task runs.
#[derive(Clone, Copy, Debug)]
pub enum TaskKind {
    /// A kernel task.
    Kernel,
    /// A user task with its runtime state.
    User(UserTaskRuntime),
}

/// A schedulable task.
#[derive(Clone, Copy, Debug)]
pub struct Task {
    /// Identity, parent and exit status.
    pub metadata: TaskMetadata,
    /// Lifecycle state.
    pub state: TaskState,
    /// Kernel or user, with the user runtime state.
    pub kind: TaskKind,
    /// Saved kernel context; empty until the task first ran or was given a
    /// stack.
    pub context: TaskContext,
}

impl Task {
    /// The task's identifier.
    pub open spec fn spec_id(self) -> u64 {
        self.metadata@.0
    }

    /// Whether the task is a user task.
    pub open spec fn is_user(self) -> bool {
        self.kind is User
    }

    /// The user runtime state of a user task.
    pub open spec fn runtime(self) -> UserTaskRuntime
        recommends
            self.kind is User,
    {
        self.kind->User_0
    }

    /// Return the task's unique identifier.
    pub fn get_id(&self) -> (r: u64)
        ensures
            r == self.spec_id(),
    {
        self.metadata.get_identifier().as_u64()
    }
}

/// The scheduler's state.
pub struct Scheduler {
    /// Task records, indexed by task identifier.
    pub tasks: Vec<Task>,
    /// Index of the running task.
    pub current_index: usize,
    /// The identifier the next spawned task gets.
    pub next_task_identifier: TaskIdentifier,
    /// User tasks taking part in scheduling, each once.
    pub active_user_task_identifiers: Vec<u64>,
    /// Exits of user tasks not yet taken by the lifecycle loop, oldest first.
    pub finished_user_exits: Vec<UserTaskExit>,
    /// Retained child exits.
    pub child_exit_records: Vec<ChildExitRecord>,
    /// Timer ticks the running task has had since it was picked.
    pub current_timer_quantum_ticks: u64,
    /// Event counters.
    pub counters: SchedulerCounters,
}

/// Scheduler event counters; each saturates at the largest value.
#[derive(Clone, Copy, Debug, PartialEq, Eq, Structural)]
pub struct SchedulerCounters {
    /// Number of tasks that finished.
    pub finished_task_count: u64,
    /// Number of tasks blocked in a sleep.
    pub user_sleep_block_count: u64,
    /// Number of sleeping tasks woken.
    pub user_sleep_wake_count: u64,
    /// Number of tasks blocked in a `waitpid`.
    pub user_waitpid_block_count: u64,
    /// Number of `waitpid` waiters woken.
    pub user_waitpid_wake_count: u64,
    /// Number of tasks blocked in a read.
    pub user_read_block_count: u64,
    /// Number of readers woken.
    pub user_read_wake_count: u64,
    /// Number of transition invariant checks asked for.
    pub transition_invariant_check_count: u64,
    /// Number of timer-driven context switches.
    pub context_switch_count: u64,
    /// Number of user tasks preempted by the timer.
    pub timer_preemption_count: u64,
    /// Number of first entries into user tasks.
    pub user_entry_count: u64,
    /// Number of first entries through the one-shot path.
    pub one_shot_user_entry_count: u64,
    /// Number of first entries through a timer switch.
    pub timer_user_entry_count: u64,
    /// Number of timer first entries that preempted a user task.
    pub timer_user_entry_from_preempted_user_count: u64,
    /// Number of user tasks resumed through their kernel context.
    pub user_resume_count: u64,
    /// Number of address space reclaims begun.
    pub address_space_reclaim_guard_check_count: u64,
    /// Number of user address spaces reclaimed.
    pub reclaimed_user_address_space_count: u64,
    /// Number of user pages reclaimed with them.
    pub reclaimed_user_page_count: u64,
    /// Number of page-table pages reclaimed with them.
    pub reclaimed_user_page_table_page_count: u64,
    /// Number of reclaim passes that released anything.
    pub reclaimed_user_resource_record_count: u64,
    /// Number of user task kernel stacks reclaimed.
    pub reclaimed_user_kernel_stack_count: u64,
    /// Number of writable kernel stack pages reclaimed with them.
    pub reclaimed_user_kernel_stack_writable_pages: u64,
    /// Number of reserved kernel stack virtual pages reclaimed with them.
    pub reclaimed_user_kernel_stack_virtual_pages: u64,
}

/// Task identity: the record at index `i` has identifier `i`, the next
/// identifier is the number of records, index zero is the bootstrap kernel
/// task without a parent, and every other task's parent was spawned before
/// it.
pub open spec fn tasks_identity_wf(tasks: Seq<Task>, current_index: int, next_id: int) -> bool {
    &&& 1 <= tasks.len() < u64::MAX
    &&& 0 <= current_index < tasks.len()
    &&& next_id == tasks.len()
    &&& forall|i: int| 0 <= i < tasks.len() ==> #[trigger] tasks[i].spec_id() == i
    &&& tasks[0].kind is Kernel
    &&& tasks[0].metadata@.1 is None
    &&& forall|i: int| 0 < i < tasks.len() ==> (#[trigger] tasks[i].metadata@.1 matches Some(p) && p < i)
}

/// Exit statuses: only finished tasks have one, and each retained child
/// exit names a distinct user task whose status it mirrors.
pub open spec fn records_wf(tasks: Seq<Task>, records: Seq<ChildExitRecord>) -> bool {
    &&& forall|i: int|
        0 <= i < tasks.len() && #[trigger] tasks[i].state != TaskState::Finished
            ==> tasks[i].metadata@.2 is None
    &&& forall|j: int|
        0 <= j < records.len() ==> {
            let record = #[trigger] records[j];
            &&& record.child_task_id < tasks.len()
            &&& tasks[record.child_task_id as int].is_user()
            &&& tasks[record.child_task_id as int].metadata@.2 == Some((record.exit_code, record.collected))
        }
    &&& forall|j: int, k: int|
        0 <= j < k < records.len() ==> #[trigger] records[j].child_task_id
            != #[trigger] records[k].child_task_id
}

/// The active set and the user task lifecycle: active tasks are distinct,
/// unfinished user tasks with a schedulable address space; a running user
/// task is active; a finished one, or one without an address space, is not;
/// an address space is reclaimed only from a finished task that still owns
/// it.
pub open spec fn active_wf(tasks: Seq<Task>, active: Seq<u64>) -> bool {
    &&& forall|j: int|
        0 <= j < active.len() ==> {
            let id = #[trigger] active[j];
            &&& id < tasks.len()
            &&& tasks[id as int].is_user()
            &&& tasks[id as int].state != TaskState::Finished
            &&& tasks[id as int].runtime().spec_has_schedulable_address_space()
        }
    &&& forall|j: int, k: int| 0 <= j < k < active.len() ==> #[trigger] active[j] != #[trigger] active[k]
    &&& forall|i: int|
        0 <= i < tasks.len() && (#[trigger] tasks[i]).is_user() ==> {
            let task = tasks[i];
            &&& task.state == TaskState::Running ==> active.contains(i as u64)
            &&& task.state == TaskState::Finished ==> !active.contains(i as u64)
            &&& task.runtime().address_space_reclaiming ==> task.state == TaskState::Finished
                && task.runtime().address_space_root is Some
            &&& task.runtime().address_space_root is None ==> !active.contains(i as u64)
        }
}

/// Replacing task `i` by `t` keeps the invariant when `t` keeps the task's
/// identity and kind, has a parent spawned before it (none for the
/// bootstrap task), has an exit status only when finished and the same one
/// if a retained exit names it, keeps a user task's reclaim flag and
/// whether it owns an address space, is newly finished only if it is not active, and is a
/// running user task only if it is active.
pub proof fn lemma_task_update_keeps_wf(
    tasks: Seq<Task>,
    current_index: int,
    next_id: int,
    active: Seq<u64>,
    records: Seq<ChildExitRecord>,
    i: int,
    t: Task,
)
    requires
        tasks_identity_wf(tasks, current_index, next_id),
        records_wf(tasks, records),
        active_wf(tasks, active),
        0 <= i < tasks.len(),
        t.metadata@.0 == tasks[i].metadata@.0,
        i == 0 ==> t.metadata@.1 is None,
        0 < i ==> (t.metadata@.1 matches Some(p) && p < i),
        t.state != TaskState::Finished ==> t.metadata@.2 is None,
        forall|j: int|
            0 <= j < records.len() && (#[trigger] records[j]).child_task_id == i ==> t.metadata@.2
                == tasks[i].metadata@.2,
        t.is_user() == tasks[i].is_user(),
        t.is_user() ==> (t.runtime().address_space_root is Some) == (tasks[i].runtime().address_space_root is Some)
            && t.runtime().address_space_reclaiming == tasks[i].runtime().address_space_reclaiming,
        t.state == TaskState::Finished ==> tasks[i].state == TaskState::Finished || !active.contains(
            i as u64,
        ),
        t.is_user() && t.state == TaskState::Running ==> active.contains(i as u64),
        t.is_user() && t.runtime().address_space_reclaiming ==> t.state == TaskState::Finished,
    ensures
        tasks_identity_wf(tasks.update(i, t), current_index, next_id),
        records_wf(tasks.update(i, t), records),
        active_wf(tasks.update(i, t), active),
{
    let updated = tasks.update(i, t);
    assert forall|k: int| 0 <= k < tasks.len() implies #[trigger] updated[k].spec_id() == k by {
        assert(tasks[k].spec_id() == k);
    }
    assert forall|k: int| 0 < k < tasks.len() implies (#[trigger] updated[k].metadata@.1 matches Some(p)
        && p < k) by {
        assert(tasks[k].metadata@.1 matches Some(p) && p < k);
    }
    assert forall|k: int| 0 <= k < tasks.len() && #[trigger] updated[k].state != TaskState::Finished
        implies updated[k].metadata@.2 is None by {
        if k != i {
            assert(tasks[k].state != TaskState::Finished);
        }
    }
    assert forall|j: int| 0 <= j < records.len() implies {
        let record = #[trigger] records[j];
        &&& record.child_task_id < updated.len()
        &&& updated[record.child_task_id as int].is_user()
        &&& updated[record.child_task_id as int].metadata@.2 == Some((record.exit_code, record.collected))
    } by {
        let record = records[j];
        assert(tasks[record.child_task_id as int].is_user());
    }
    assert forall|j: int| 0 <= j < active.len() implies {
        let id = #[trigger] active[j];
        &&& id < updated.len()
        &&& updated[id as int].is_user()
        &&& updated[id as int].state != TaskState::Finished
        &&& updated[id as int].runtime().spec_has_schedulable_address_space()
    } by {
        let id = active[j];
        assert(tasks[id as int].is_user());
    }
    assert forall|k: int| 0 <= k < tasks.len() && (#[trigger] updated[k]).is_user() implies {
        let task = updated[k];
        &&& task.state == TaskState::Running ==> active.contains(k as u64)
        &&& task.state == TaskState::Finished ==> !active.contains(k as u64)
        &&& task.runtime().address_space_reclaiming ==> task.state == TaskState::Finished
            && task.runtime().address_space_root is Some
        &&& task.runtime().address_space_root is None ==> !active.contains(k as u64)
    } by {
        assert(tasks[k].is_user());
    }
}

/// Add one, stopping at the largest value.
pub open spec fn saturating_next(count: u64) -> u64 {
    if count == u64::MAX {
        count
    } else {
        (count + 1) as u64
    }
}

impl Scheduler {
    /// Task identity; see `tasks_identity_wf`.
    pub open spec fn identity_wf(&self) -> bool {
        tasks_identity_wf(self.tasks@, self.current_index as int, self.next_task_identifier@ as int)
    }

    /// Exit statuses and retained child exits; see `records_wf`.
    pub open spec fn exit_wf(&self) -> bool {
        records_wf(self.tasks@, self.child_exit_records@)
    }

    /// Whether `task_id` is in the active user task set.
    pub open spec fn spec_is_active(&self, task_id: u64) -> bool {
        self.active_user_task_identifiers@.contains(task_id)
    }

    /// The active set and the user task lifecycle; see `active_wf`.
    pub open spec fn lifecycle_wf(&self) -> bool {
        active_wf(self.tasks@, self.active_user_task_identifiers@)
    }

    /// The scheduler's invariant.
    pub open spec fn wf(&self) -> bool {
        &&& self.identity_wf()
        &&& self.exit_wf()
        &&& self.lifecycle_wf()
    }

    /// A scheduler holding only the running bootstrap task.
    pub fn new() -> (r: Self)
        ensures
            r.wf(),
            r.tasks@.len() == 1,
            r.tasks@[0].state == TaskState::Running,
            r.current_index == 0,
            r.active_user_task_identifiers@.len() == 0,
            r.finished_user_exits@.len() == 0,
            r.child_exit_records@.len() == 0,
    {
        let bootstrap = Task {
            metadata: TaskMetadata::bootstrap(),
            state: TaskState::Running,
            kind: TaskKind::Kernel,
            context: TaskContext::new(),
        };
        let mut tasks: Vec<Task> = Vec::new();
        tasks.push(bootstrap);
        let r = Scheduler {
            tasks,
            current_index: 0,
            next_task_identifier: TaskIdentifier::first_dynamic(),
            active_user_task_identifiers: Vec::new(),
            finished_user_exits: Vec::new(),
            child_exit_records: Vec::new(),
            current_timer_quantum_ticks: 0,
            counters: SchedulerCounters {
                finished_task_count: 0,
                user_sleep_block_count: 0,
                user_sleep_wake_count: 0,
                user_waitpid_block_count: 0,
                user_waitpid_wake_count: 0,
                user_read_block_count: 0,
                user_read_wake_count: 0,
                transition_invariant_check_count: 0,
                context_switch_count: 0,
                timer_preemption_count: 0,
                user_entry_count: 0,
                one_shot_user_entry_count: 0,
                timer_user_entry_count: 0,
                timer_user_entry_from_preempted_user_count: 0,
                user_resume_count: 0,
                address_space_reclaim_guard_check_count: 0,
                reclaimed_user_address_space_count: 0,
                reclaimed_user_page_count: 0,
                reclaimed_user_page_table_page_count: 0,
                reclaimed_user_resource_record_count: 0,
                reclaimed_user_kernel_stack_count: 0,
                reclaimed_user_kernel_stack_writable_pages: 0,
                reclaimed_user_kernel_stack_virtual_pages: 0,
            },
        };
        assert(r.tasks@[0].spec_id() == 0);
        r
    }

    /// Record a kernel task spawned by the running task, ready to run from
    /// `context`; return its identifier.
    pub fn spawn(&mut self, context: TaskContext) -> (r: u64)
        requires
            old(self).wf(),
            old(self).tasks@.len() + 1 < u64::MAX,
        ensures
            final(self).wf(),
            r == old(self).tasks@.len(),
            final(self).tasks@.len() == old(self).tasks@.len() + 1,
            final(self).tasks@.subrange(0, r as int) == old(self).tasks@,
            final(self).tasks@[r as int].metadata@ == (r, Some(old(self).current_index as u64), None::<(u64, bool)>),
            final(self).tasks@[r as int].state == TaskState::Ready,
            final(self).tasks@[r as int].kind is Kernel,
            final(self).tasks@[r as int].context == context,
            final(self).current_index == old(self).current_index,
            final(self).active_user_task_identifiers@ == old(self).active_user_task_identifiers@,
            final(self).child_exit_records@ == old(self).child_exit_records@,
            final(self).finished_user_exits@ == old(self).finished_user_exits@,
    {
        let task_identifier = self.next_task_identifier.allocate();
        let parent_identifier = self.tasks[self.current_index].metadata.get_identifier();
        let metadata = TaskMetadata::child(task_identifier, parent_identifier);
        let task = Task { metadata, state: TaskState::Ready, kind: TaskKind::Kernel, context };
        self.tasks.push(task);
        proof {
            assert(old(self).tasks@[old(self).current_index as int].spec_id() == old(self).current_index);
            assert(self.tasks@[task_identifier@ as int].spec_id() == task_identifier@);
            assert(self.tasks@.subrange(0, old(self).tasks@.len() as int) =~= old(self).tasks@);
            assert forall|i: int| 0 <= i < old(self).tasks@.len() implies self.tasks@[i] == old(self).tasks@[i] by {}
            assert(self.identity_wf());
            assert(self.exit_wf());
            assert(self.lifecycle_wf());
        }
        task_identifier.as_u64()
    }

    /// Record a user task spawned by the running task, ready for its first
    /// entry with `user_context`, owning the address space rooted at
    /// `address_space_root` and a heap starting at `heap_start`; return its
    /// identifier. The task takes part in scheduling once activated.
    pub fn spawn_user_task(
        &mut self,
        address_space_root: PhysicalFrameStart,
        user_context: UserTaskContext,
        heap_start: UserVirtualAddress,
        spawn_origin_path: &str,
    ) -> (r: u64)
        requires
            old(self).wf(),
            old(self).tasks@.len() + 1 < u64::MAX,
            heap_start@ % 4096 == 0,
            heap_start@ < USER_HEAP_END,
        ensures
            final(self).wf(),
            r == old(self).tasks@.len(),
            final(self).tasks@.len() == old(self).tasks@.len() + 1,
            final(self).tasks@.subrange(0, r as int) == old(self).tasks@,
            final(self).tasks@[r as int].metadata@ == (r, Some(old(self).current_index as u64), None::<(u64, bool)>),
            final(self).tasks@[r as int].state == TaskState::Ready,
            final(self).tasks@[r as int].is_user(),
            final(self).tasks@[r as int].context.stack_pointer == 0,
            ({
                let runtime = final(self).tasks@[r as int].runtime();
                &&& runtime.address_space_root == Some(address_space_root)
                &&& runtime.saved_frame == user_context.spec_to_trap_frame()
                &&& runtime.image.spec_view() == initial_image_view(spawn_origin_path.spec_bytes())
                &&& runtime.heap.parts() == (heap_start@, heap_start@, heap_start@)
                &&& runtime.mapping_statistics == no_mapping_statistics()
                &&& runtime.sleep_wake_tick is None
                &&& runtime.waitpid_request is None
                &&& runtime.waitpid_completion is None
                &&& runtime.read_request is None
                &&& !runtime.syscall_frame_recorded
                &&& !runtime.interrupt_frame_recorded
                &&& runtime.runtime_trap_frame_record_count == 0
                &&& !runtime.address_space_reclaiming
                &&& runtime.restored_user_trap_frame_bytes == 0
                &&& runtime.runtime_trap_frame_restore_count == 0
                &&& runtime.last_preemption_reason == UserPreemptionReasonDiagnostics::NotPreempted
                &&& runtime.last_resume_path == UserResumePathDiagnostics::NotEntered
                &&& runtime.resume_handoff_count == 0
                &&& runtime.last_resume_address_space_root is None
                &&& runtime.last_resume_kernel_stack_top is None
            }),
            final(self).current_index == old(self).current_index,
            final(self).active_user_task_identifiers@ == old(self).active_user_task_identifiers@,
            final(self).child_exit_records@ == old(self).child_exit_records@,
            final(self).finished_user_exits@ == old(self).finished_user_exits@,
    {
        let task_identifier = self.next_task_identifier.allocate();
        let parent_identifier = self.tasks[self.current_index].metadata.get_identifier();
        let metadata = TaskMetadata::child(task_identifier, parent_identifier);
        let runtime = UserTaskRuntime {
            address_space_root: Some(address_space_root),
            saved_frame: user_context.to_trap_frame(),
            image: UserImageRuntime::new(spawn_origin_path),
            heap: UserHeap::new(heap_start),
            mapping_statistics: UserMappingStatistics::new(),
            sleep_wake_tick: None,
            waitpid_request: None,
            waitpid_completion: None,
            read_request: None,
            syscall_frame_recorded: false,
            interrupt_frame_recorded: false,
            runtime_trap_frame_record_count: 0,
            address_space_reclaiming: false,
            restored_user_trap_frame_bytes: 0,
            runtime_trap_frame_restore_count: 0,
            last_preemption_reason: UserPreemptionReasonDiagnostics::NotPreempted,
            last_resume_path: UserResumePathDiagnostics::NotEntered,
            resume_handoff_count: 0,
            last_resume_address_space_root: None,
            last_resume_kernel_stack_top: None,
        };
        let task = Task {
            metadata,
            state: TaskState::Ready,
            kind: TaskKind::User(runtime),
            context: TaskContext::new(),
        };
        self.tasks.push(task);
        proof {
            assert(old(self).tasks@[old(self).current_index as int].spec_id() == old(self).current_index);
            assert(self.tasks@[task_identifier@ as int].spec_id() == task_identifier@);
            assert(self.tasks@.subrange(0, old(self).tasks@.len() as int) =~= old(self).tasks@);
            assert forall|i: int| 0 <= i < old(self).tasks@.len() implies self.tasks@[i] == old(self).tasks@[i] by {}
            assert(self.identity_wf());
            assert(self.exit_wf());
            assert(self.lifecycle_wf());
        }
        task_identifier.as_u64()
    }

    /// Return the running task's identifier.
    pub fn get_current_task_id(&self) -> (r: u64)
        requires
            self.wf(),
        ensures
            r == self.current_index,
    {
        self.tasks[self.current_index].get_id()
    }

    /// Return the running task's parent, if it has one.
    pub fn get_current_parent_task_id(&self) -> (r: Option<u64>)
        requires
            self.wf(),
        ensures
            r == self.tasks@[self.current_index as int].metadata@.1,
    {
        match self.tasks[self.current_index].metadata.get_parent_identifier() {
            Some(parent) => Some(parent.as_u64()),
            None => None,
        }
    }

    /// Return the index of the task with identifier `task_id`, if there is
    /// one. Identifiers equal indices, so the lookup is a bounds check.
    pub fn get_task_index(&self, task_id: u64) -> (r: Option<usize>)
        requires
            self.wf(),
        ensures
            r is Some <==> task_id < self.tasks@.len(),
            r matches Some(index) ==> index == task_id && self.tasks@[index as int].spec_id() == task_id,
    {
        if task_id < self.tasks.len() as u64 {
            Some(task_id as usize)
        } else {
            None
        }
    }

    /// Return whether `task_id` is in the active user task set.
    pub fn is_user_task_active(&self, task_id: u64) -> (r: bool)
        ensures
            r == self.spec_is_active(task_id),
    {
        let mut index: usize = 0;
        while index < self.active_user_task_identifiers.len()
            invariant
                index <= self.active_user_task_identifiers@.len(),
                forall|j: int| 0 <= j < index ==> self.active_user_task_identifiers@[j] != task_id,
            decreases self.active_user_task_identifiers@.len() - index,
        {
            if self.active_user_task_identifiers[index] == task_id {
                return true;
            }
            index = index + 1;
        }
        proof {
            if self.spec_is_active(task_id) {
                let j = choose|j: int|
                    0 <= j < self.active_user_task_identifiers@.len()
                        && self.active_user_task_identifiers@[j] == task_id;
                assert(self.active_user_task_identifiers@[j] != task_id);
            }
        }
        false
    }

    /// Whether `task_id` names a user task that may be activated: one that
    /// is not finished and owns a schedulable address space.
    pub open spec fn spec_activatable(&self, task_id: u64) -> bool {
        &&& task_id < self.tasks@.len()
        &&& self.tasks@[task_id as int].is_user()
        &&& self.tasks@[task_id as int].state != TaskState::Finished
        &&& self.tasks@[task_id as int].runtime().spec_has_schedulable_address_space()
    }

    /// Add a user task to the active set; refused, changing nothing, for a
    /// task that is not an activatable user task. An active task stays in
    /// the set once.
    pub fn activate_user_task(&mut self, task_id: u64) -> (r: bool)
        requires
            old(self).wf(),
        ensures
            final(self).wf(),
            r == old(self).spec_activatable(task_id),
            final(self).active_user_task_identifiers@ == if r && !old(self).spec_is_active(task_id) {
                old(self).active_user_task_identifiers@.push(task_id)
            } else {
                old(self).active_user_task_identifiers@
            },
            final(self).tasks@ == old(self).tasks@,
            final(self).current_index == old(self).current_index,
            final(self).next_task_identifier == old(self).next_task_identifier,
            final(self).child_exit_records@ == old(self).child_exit_records@,
            final(self).finished_user_exits@ == old(self).finished_user_exits@,
            final(self).current_timer_quantum_ticks == old(self).current_timer_quantum_ticks,
            final(self).counters == old(self).counters,
    {
        let task_index = match self.get_task_index(task_id) {
            Some(index) => index,
            None => return false,
        };
        let task = self.tasks[task_index];
        match task.kind {
            TaskKind::User(runtime) => {
                if !runtime.has_schedulable_address_space() || task.state == TaskState::Finished {
                    return false;
                }
            },
            TaskKind::Kernel => return false,
        }
        if !self.is_user_task_active(task_id) {
            self.active_user_task_identifiers.push(task_id);
            proof {
                let active = self.active_user_task_identifiers@;
                assert forall|j: int, k: int| 0 <= j < k < active.len() implies #[trigger] active[j]
                    != #[trigger] active[k] by {
                    if k == active.len() - 1 {
                        assert(old(self).active_user_task_identifiers@[j] != task_id);
                    }
                }
                assert(task == self.tasks@[task_id as int]);
                assert forall|x: u64| #[trigger] self.active_user_task_identifiers@.contains(x) == (
                    old(self).active_user_task_identifiers@.contains(x) || x == task_id) by {
                    if x == task_id {
                        assert(active[active.len() - 1] == task_id);
                    }
                    if old(self).spec_is_active(x) {
                        let j = choose|j: int| 0 <= j < old(self).active_user_task_identifiers@.len()
                            && old(self).active_user_task_identifiers@[j] == x;
                        assert(active[j] == x);
                    }
                }
                assert(self.lifecycle_wf());
            }
        }
        true
    }
}

impl Scheduler {
    /// Whether `task_id` is an active user task that can be entered now:
    /// ready, with a schedulable address space.
    pub open spec fn spec_active_candidate(&self, task_id: u64) -> bool {
        &&& task_id < self.tasks@.len()
        &&& self.tasks@[task_id as int].is_user()
        &&& self.tasks@[task_id as int].state == TaskState::Ready
        &&& self.tasks@[task_id as int].runtime().spec_has_schedulable_address_space()
    }

    /// Return the first active user task, in activation order, that can be
    /// entered now.
    pub fn next_active_user_task_id(&self) -> (r: Option<u64>)
        requires
            self.wf(),
        ensures
            match r {
                Some(task_id) => exists|j: int|
                    0 <= j < self.active_user_task_identifiers@.len()
                        && self.active_user_task_identifiers@[j] == task_id
                        && self.spec_active_candidate(task_id) && forall|k: int|
                        0 <= k < j ==> !self.spec_active_candidate(
                            #[trigger] self.active_user_task_identifiers@[k],
                        ),
                None => forall|j: int|
                    0 <= j < self.active_user_task_identifiers@.len() ==> !self.spec_active_candidate(
                        #[trigger] self.active_user_task_identifiers@[j],
                    ),
            },
    {
        let mut index: usize = 0;
        while index < self.active_user_task_identifiers.len()
            invariant
                self.wf(),
                index <= self.active_user_task_identifiers@.len(),
                forall|k: int|
                    0 <= k < index ==> !self.spec_active_candidate(
                        #[trigger] self.active_user_task_identifiers@[k],
                    ),
            decreases self.active_user_task_identifiers@.len() - index,
        {
            let task_id = self.active_user_task_identifiers[index];
            if let Some(task_index) = self.get_task_index(task_id) {
                let task = self.tasks[task_index];
                if let TaskKind::User(runtime) = task.kind {
                    if task.state.is_ready() && runtime.has_schedulable_address_space() {
                        return Some(task_id);
                    }
                }
            }
            index = index + 1;
        }
        None
    }

    /// Return whether any user task is active.
    pub fn has_active_user_tasks(&self) -> (r: bool)
        ensures
            r == (self.active_user_task_identifiers@.len() > 0),
    {
        self.active_user_task_identifiers.len() > 0
    }

    /// Whether record `j` is the first retained exit that `parent_task_id`
    /// may collect for `child_task_id` (`None` for any child).
    pub open spec fn spec_first_waitable(&self, parent_task_id: u64, child_task_id: Option<u64>, j: int) -> bool {
        first_waitable(self.child_exit_records@, parent_task_id, child_task_id, j)
    }

    /// Whether `parent_task_id` may collect a retained exit for
    /// `child_task_id`.
    pub open spec fn spec_has_waitable(&self, parent_task_id: u64, child_task_id: Option<u64>) -> bool {
        exists|j: int|
            0 <= j < self.child_exit_records@.len()
                && (#[trigger] self.child_exit_records@[j]).spec_waitable_for_parent(
                parent_task_id,
                child_task_id,
            )
    }

    fn find_waitable_record(&self, parent_task_id: u64, child_task_id: Option<u64>) -> (r: Option<usize>)
        ensures
            r is Some <==> self.spec_has_waitable(parent_task_id, child_task_id),
            r matches Some(j) ==> self.spec_first_waitable(parent_task_id, child_task_id, j as int),
    {
        let mut index: usize = 0;
        while index < self.child_exit_records.len()
            invariant
                index <= self.child_exit_records@.len(),
                forall|k: int|
                    0 <= k < index ==> !(#[trigger] self.child_exit_records@[k]).spec_waitable_for_parent(
                        parent_task_id,
                        child_task_id,
                    ),
            decreases self.child_exit_records@.len() - index,
        {
            if self.child_exit_records[index].waitable_for_parent(parent_task_id, child_task_id) {
                return Some(index);
            }
            index = index + 1;
        }
        None
    }

    /// Collect the first retained exit that `parent_task_id` may collect
    /// for `child_task_id` (`None` for any child): the record and the
    /// child's exit status are marked collected. `None`, changing nothing,
    /// when there is none.
    pub fn collect_waitable_child_exit(&mut self, parent_task_id: u64, child_task_id: Option<u64>) -> (r: Option<UserTaskExit>)
        requires
            old(self).wf(),
        ensures
            final(self).wf(),
            r is Some <==> old(self).spec_has_waitable(parent_task_id, child_task_id),
            r is None ==> final(self).child_exit_records@ == old(self).child_exit_records@
                && final(self).tasks@ == old(self).tasks@,
            r matches Some(exit) ==> exists|j: int|
                old(self).spec_first_waitable(parent_task_id, child_task_id, j)
                    && collected_record_at(old(self), final(self), j, exit),
            final(self).current_index == old(self).current_index,
            final(self).next_task_identifier == old(self).next_task_identifier,
            final(self).active_user_task_identifiers@ == old(self).active_user_task_identifiers@,
            final(self).finished_user_exits@ == old(self).finished_user_exits@,
            final(self).current_timer_quantum_ticks == old(self).current_timer_quantum_ticks,
            final(self).counters == old(self).counters,
    {
        let j = match self.find_waitable_record(parent_task_id, child_task_id) {
            Some(j) => j,
            None => return None,
        };
        let record = self.child_exit_records[j];
        let child = record.child_task_id;
        let task_count = self.tasks.len();
        proof {
            assert(child < task_count);
        }
        let task_index = child as usize;
        let task = self.tasks[task_index];
        proof {
            assert(old(self).tasks@[child as int].metadata@.2 == Some((record.exit_code, false)));
        }
        let mut metadata = task.metadata;
        let _collected = metadata.collect_waitable_exit();
        let task = Task { metadata, ..task };
        self.tasks.set(task_index, task);
        proof {
            assert(self.tasks@[child as int] == task);
            assert(self.tasks@[child as int].metadata@ == (
                old(self).tasks@[child as int].metadata@.0,
                old(self).tasks@[child as int].metadata@.1,
                Some((record.exit_code, true)),
            ));
        }
        let collected_record = ChildExitRecord { collected: true, ..record };
        self.child_exit_records.set(j, collected_record);
        let exit = UserTaskExit::new(child, record.exit_code);
        proof {
            assert(collected_record_at(old(self), self, j as int, exit));
            assert(self.identity_wf()) by {
                assert forall|i: int| 0 <= i < self.tasks@.len() implies #[trigger] self.tasks@[i].metadata@.0
                    == old(self).tasks@[i].metadata@.0 && self.tasks@[i].metadata@.1 == old(self).tasks@[i].metadata@.1
                    && self.tasks@[i].kind == old(self).tasks@[i].kind && self.tasks@[i].spec_id() == i by {
                    assert(old(self).tasks@[i].spec_id() == i);
                    if i != child {
                        assert(self.tasks@[i] == old(self).tasks@[i]);
                    }
                }
                assert(self.tasks@[0].spec_id() == 0);
            }
            assert(self.exit_wf()) by {
                assert(forall|i: int| 0 <= i < self.tasks@.len() && i != child ==> self.tasks@[i] == old(self).tasks@[i]);
                assert forall|k: int| 0 <= k < self.child_exit_records@.len() && k != j implies
                    (#[trigger] self.child_exit_records@[k]).child_task_id != child by {
                    if k < j {
                        assert(old(self).child_exit_records@[k].child_task_id != old(self).child_exit_records@[j as int].child_task_id);
                    } else {
                        assert(old(self).child_exit_records@[j as int].child_task_id != old(self).child_exit_records@[k].child_task_id);
                    }
                }
            }
            assert(self.lifecycle_wf()) by {
                assert(forall|i: int| 0 <= i < self.tasks@.len() && i != child ==> self.tasks@[i] == old(self).tasks@[i]);
            }
        }
        Some(exit)
    }

    /// Take the oldest exit not yet taken by the lifecycle loop.
    pub fn take_finished_user_exit(&mut self) -> (r: Option<UserTaskExit>)
        requires
            old(self).wf(),
        ensures
            final(self).wf(),
            r is Some <==> old(self).finished_user_exits@.len() > 0,
            r matches Some(exit) ==> exit == old(self).finished_user_exits@[0]
                && final(self).finished_user_exits@ == old(self).finished_user_exits@.drop_first(),
            r is None ==> final(self).finished_user_exits@ == old(self).finished_user_exits@,
            final(self).tasks@ == old(self).tasks@,
            final(self).current_index == old(self).current_index,
            final(self).next_task_identifier == old(self).next_task_identifier,
            final(self).active_user_task_identifiers@ == old(self).active_user_task_identifiers@,
            final(self).child_exit_records@ == old(self).child_exit_records@,
            final(self).current_timer_quantum_ticks == old(self).current_timer_quantum_ticks,
            final(self).counters == old(self).counters,
    {
        if self.finished_user_exits.len() == 0 {
            return None;
        }
        let exit = self.finished_user_exits.remove(0);
        proof {
            assert(self.finished_user_exits@ =~= old(self).finished_user_exits@.drop_first());
        }
        Some(exit)
    }

    /// Whether the running task, which must be a user task, has a user
    /// child: the given one, or with `None` any. `None` when the running
    /// task is a kernel task.
    pub fn current_user_task_has_child(&self, child_task_id: Option<u64>) -> (r: Option<bool>)
        requires
            self.wf(),
        ensures
            r is Some <==> self.tasks@[self.current_index as int].is_user(),
            r matches Some(found) ==> found == exists|i: int|
                0 <= i < self.tasks@.len() && is_user_child_of(
                    #[trigger] self.tasks@[i],
                    self.current_index as u64,
                    child_task_id,
                ),
    {
        let parent_task_id = self.tasks[self.current_index].get_id();
        if let TaskKind::Kernel = self.tasks[self.current_index].kind {
            return None;
        }
        let mut index: usize = 0;
        while index < self.tasks.len()
            invariant
                self.wf(),
                self.tasks@[self.current_index as int].is_user(),
                parent_task_id == self.current_index,
                index <= self.tasks@.len(),
                forall|k: int|
                    0 <= k < index ==> !is_user_child_of(
                        #[trigger] self.tasks@[k],
                        parent_task_id,
                        child_task_id,
                    ),
            decreases self.tasks@.len() - index,
        {
            let task = self.tasks[index];
            let is_child = match task.metadata.get_parent_identifier() {
                Some(parent) => parent.as_u64() == parent_task_id,
                None => false,
            };
            if is_child {
                if let TaskKind::User(_) = task.kind {
                    let matches = match child_task_id {
                        Some(child) => task.get_id() == child,
                        None => true,
                    };
                    if matches {
                        return Some(true);
                    }
                }
            }
            index = index + 1;
        }
        Some(false)
    }
}

impl Scheduler {
    /// The running task's user runtime state.
    pub open spec fn current_runtime(&self) -> UserTaskRuntime {
        self.tasks@[self.current_index as int].runtime()
    }

    /// Whether the running task is a user task that owns an address space
    /// and is running.
    pub open spec fn spec_current_user_running(&self) -> bool {
        &&& self.tasks@[self.current_index as int].is_user()
        &&& self.current_runtime().address_space_root is Some
        &&& self.tasks@[self.current_index as int].state == TaskState::Running
    }

    /// Whether the running user task has no wait in progress.
    pub open spec fn spec_current_wait_free(&self) -> bool {
        &&& self.current_runtime().sleep_wake_tick is None
        &&& self.current_runtime().waitpid_request is None
        &&& self.current_runtime().waitpid_completion is None
    }

    /// `after` differs from `before` only in the running task's user
    /// runtime state, which becomes `runtime`.
    pub open spec fn spec_current_runtime_becomes(&self, after: &Scheduler, runtime: UserTaskRuntime) -> bool {
        &&& after.tasks@ == self.tasks@.update(
            self.current_index as int,
            with_runtime(self.tasks@[self.current_index as int], runtime),
        )
        &&& after.current_index == self.current_index
        &&& after.next_task_identifier == self.next_task_identifier
        &&& after.active_user_task_identifiers@ == self.active_user_task_identifiers@
        &&& after.child_exit_records@ == self.child_exit_records@
        &&& after.finished_user_exits@ == self.finished_user_exits@
        &&& after.current_timer_quantum_ticks == self.current_timer_quantum_ticks
        &&& after.counters == self.counters
    }

    /// `after` is `self`, field for field.
    pub open spec fn spec_unchanged(&self, after: &Scheduler) -> bool {
        &&& after.tasks@ == self.tasks@
        &&& after.current_index == self.current_index
        &&& after.next_task_identifier == self.next_task_identifier
        &&& after.active_user_task_identifiers@ == self.active_user_task_identifiers@
        &&& after.child_exit_records@ == self.child_exit_records@
        &&& after.finished_user_exits@ == self.finished_user_exits@
        &&& after.current_timer_quantum_ticks == self.current_timer_quantum_ticks
        &&& after.counters == self.counters
    }

    /// Replace the running task's user runtime state, keeping its address
    /// space and reclaim flag.
    fn set_current_runtime(&mut self, runtime: UserTaskRuntime)
        requires
            old(self).wf(),
            old(self).tasks@[old(self).current_index as int].is_user(),
            runtime.address_space_root == old(self).current_runtime().address_space_root,
            runtime.address_space_reclaiming == old(self).current_runtime().address_space_reclaiming,
        ensures
            final(self).wf(),
            old(self).spec_current_runtime_becomes(final(self), runtime),
    {
        let index = self.current_index;
        let task = self.tasks[index];
        let updated = Task { kind: TaskKind::User(runtime), ..task };
        proof {
            assert(updated == with_runtime(task, runtime));
            let i = index as int;
            if updated.state == TaskState::Running {
                assert(old(self).tasks@[i].is_user());
            }
            lemma_task_update_keeps_wf(
                old(self).tasks@,
                old(self).current_index as int,
                old(self).next_task_identifier@ as int,
                old(self).active_user_task_identifiers@,
                old(self).child_exit_records@,
                i,
                updated,
            );
        }
        self.tasks.set(index, updated);
    }

    /// Record a `waitpid` of the running user task for `child_task_id`
    /// (`None` for any child), storing the status in `status_buffer`;
    /// return the task's identifier. Refused, changing nothing, unless the
    /// running task is a running user task with an address space and no
    /// sleep or `waitpid` in progress.
    pub fn prepare_current_user_waitpid(
        &mut self,
        child_task_id: Option<u64>,
        status_buffer: Option<UserWritableRange>,
    ) -> (r: Option<u64>)
        requires
            old(self).wf(),
        ensures
            final(self).wf(),
            r is Some <==> old(self).spec_current_user_running() && old(self).spec_current_wait_free(),
            r matches Some(task_id) ==> task_id == old(self).current_index
                && old(self).spec_current_runtime_becomes(
                final(self),
                UserTaskRuntime {
                    waitpid_request: Some(UserWaitpidRequest { child_task_id, status_buffer }),
                    ..old(self).current_runtime()
                },
            ),
            r is None ==> old(self).spec_unchanged(final(self)),
    {
        let index = self.current_index;
        let task = self.tasks[index];
        let task_id = task.get_id();
        match task.kind {
            TaskKind::User(runtime) => {
                if runtime.address_space_root.is_none() || task.state != TaskState::Running
                    || runtime.sleep_wake_tick.is_some() || runtime.waitpid_request.is_some()
                    || runtime.waitpid_completion.is_some() {
                    return None;
                }
                let request = UserWaitpidRequest { child_task_id, status_buffer };
                self.set_current_runtime(UserTaskRuntime { waitpid_request: Some(request), ..runtime });
                Some(task_id)
            },
            TaskKind::Kernel => None,
        }
    }

    /// Record a sleep of the running user task until `wake_tick`; return the
    /// task's identifier. Refused, changing nothing, unless the running task
    /// is a running user task with an address space.
    pub fn prepare_current_user_sleep(&mut self, wake_tick: u64) -> (r: Option<u64>)
        requires
            old(self).wf(),
        ensures
            final(self).wf(),
            r is Some <==> old(self).spec_current_user_running(),
            r matches Some(task_id) ==> task_id == old(self).current_index
                && old(self).spec_current_runtime_becomes(
                final(self),
                UserTaskRuntime { sleep_wake_tick: Some(wake_tick), ..old(self).current_runtime() },
            ),
            r is None ==> old(self).spec_unchanged(final(self)),
    {
        let index = self.current_index;
        let task = self.tasks[index];
        let task_id = task.get_id();
        match task.kind {
            TaskKind::User(runtime) => {
                if runtime.address_space_root.is_none() || task.state != TaskState::Running {
                    return None;
                }
                self.set_current_runtime(UserTaskRuntime { sleep_wake_tick: Some(wake_tick), ..runtime });
                Some(task_id)
            },
            TaskKind::Kernel => None,
        }
    }

    /// Replace the user runtime state of task `index`, keeping its address
    /// space and reclaim flag.
    fn set_runtime_at(&mut self, index: usize, runtime: UserTaskRuntime)
        requires
            old(self).wf(),
            index < old(self).tasks@.len(),
            old(self).tasks@[index as int].is_user(),
            runtime.address_space_root == old(self).tasks@[index as int].runtime().address_space_root,
            runtime.address_space_reclaiming == old(self).tasks@[index as int].runtime().address_space_reclaiming,
        ensures
            final(self).wf(),
            final(self).tasks@ == old(self).tasks@.update(
                index as int,
                with_runtime(old(self).tasks@[index as int], runtime),
            ),
            final(self).current_index == old(self).current_index,
            final(self).next_task_identifier == old(self).next_task_identifier,
            final(self).active_user_task_identifiers@ == old(self).active_user_task_identifiers@,
            final(self).child_exit_records@ == old(self).child_exit_records@,
            final(self).finished_user_exits@ == old(self).finished_user_exits@,
            final(self).current_timer_quantum_ticks == old(self).current_timer_quantum_ticks,
            final(self).counters == old(self).counters,
    {
        let task = self.tasks[index];
        let updated = Task { kind: TaskKind::User(runtime), ..task };
        proof {
            assert(updated == with_runtime(task, runtime));
            let i = index as int;
            assert(self.tasks@[i].spec_id() == i);
            lemma_task_update_keeps_wf(
                old(self).tasks@,
                old(self).current_index as int,
                old(self).next_task_identifier@ as int,
                old(self).active_user_task_identifiers@,
                old(self).child_exit_records@,
                i,
                updated,
            );
        }
        self.tasks.set(index, updated);
    }

    /// Record the user and page-table pages reclaimed from the old image
    /// when `execve` replaced the image of user task `task_id`; false,
    /// changing nothing, when `task_id` names no user task.
    pub fn record_current_user_execve_reclaim(&mut self, task_id: u64, user_pages: u64, page_table_pages: u64) -> (r: bool)
        requires
            old(self).wf(),
        ensures
            final(self).wf(),
            r == (task_id < old(self).tasks@.len() && old(self).tasks@[task_id as int].is_user()),
            !r ==> old(self).spec_unchanged(final(self)),
            r ==> {
                let task = old(self).tasks@[task_id as int];
                &&& final(self).tasks@.len() == old(self).tasks@.len()
                &&& forall|i: int| 0 <= i < old(self).tasks@.len() && i != task_id ==> final(self).tasks@[i] == old(self).tasks@[i]
                &&& final(self).tasks@[task_id as int] == with_runtime(
                    task,
                    UserTaskRuntime { image: final(self).tasks@[task_id as int].runtime().image, ..task.runtime() },
                )
                &&& final(self).tasks@[task_id as int].runtime().image.spec_view() == (UserImageView {
                    last_execve: (task.runtime().image.spec_view().last_execve.0, user_pages, page_table_pages),
                    ..task.runtime().image.spec_view()
                })
                &&& final(self).current_index == old(self).current_index
                &&& final(self).next_task_identifier == old(self).next_task_identifier
                &&& final(self).active_user_task_identifiers@ == old(self).active_user_task_identifiers@
                &&& final(self).child_exit_records@ == old(self).child_exit_records@
                &&& final(self).finished_user_exits@ == old(self).finished_user_exits@
                &&& final(self).current_timer_quantum_ticks == old(self).current_timer_quantum_ticks
                &&& final(self).counters == old(self).counters
            },
    {
        let index = match self.get_task_index(task_id) {
            Some(index) => index,
            None => return false,
        };
        match self.tasks[index].kind {
            TaskKind::User(runtime) => {
                let mut image = runtime.image;
                image.record_last_execve_reclaim(user_pages, page_table_pages);
                self.set_runtime_at(index, UserTaskRuntime { image, ..runtime });
                true
            },
            TaskKind::Kernel => false,
        }
    }

    /// Record that the running user task dropped a prepared `execve`
    /// candidate; false, changing nothing, for a kernel task.
    pub fn record_current_user_execve_candidate_drop(&mut self) -> (r: bool)
        requires
            old(self).wf(),
        ensures
            final(self).wf(),
            r == old(self).tasks@[old(self).current_index as int].is_user(),
            !r ==> old(self).spec_unchanged(final(self)),
            r ==> {
                let before = old(self).current_runtime().image.spec_view();
                let image = final(self).current_runtime().image;
                &&& image.spec_view() == (UserImageView {
                    last_execve: (
                        UserExecveReplacementStateDiagnostics::CandidateDropped,
                        before.last_execve.1,
                        before.last_execve.2,
                    ),
                    ..before
                })
                &&& old(self).spec_current_runtime_becomes(
                    final(self),
                    UserTaskRuntime { image, ..old(self).current_runtime() },
                )
            },
    {
        let index = self.current_index;
        match self.tasks[index].kind {
            TaskKind::User(runtime) => {
                let mut image = runtime.image;
                image.record_candidate_drop();
                self.set_current_runtime(UserTaskRuntime { image, ..runtime });
                true
            },
            TaskKind::Kernel => false,
        }
    }

    /// Account a private mapping of the running user task: `mapped_pages`
    /// pages mapped, replacing `replaced_pages` pages, leaving
    /// `active_pages` pages in `active_records` records; return the task's
    /// identifier. Refused, changing nothing, for a kernel task.
    pub fn record_current_user_mapping(
        &mut self,
        mapped_pages: u64,
        replaced_pages: u64,
        active_pages: u64,
        active_records: u64,
        file_private: bool,
    ) -> (r: Option<u64>)
        requires
            old(self).wf(),
        ensures
            final(self).wf(),
            r is Some <==> old(self).tasks@[old(self).current_index as int].is_user(),
            r is None ==> old(self).spec_unchanged(final(self)),
            r matches Some(task_id) ==> {
                let before = old(self).current_runtime().mapping_statistics;
                &&& task_id == old(self).current_index
                &&& old(self).spec_current_runtime_becomes(
                    final(self),
                    UserTaskRuntime {
                        mapping_statistics: UserMappingStatistics {
                            total_mapped_pages: saturating_sum(before.total_mapped_pages, mapped_pages),
                            total_released_pages: saturating_sum(before.total_released_pages, replaced_pages),
                            peak_active_pages: larger(before.peak_active_pages, active_pages),
                            peak_active_records: larger(before.peak_active_records, active_records),
                            file_private_map_count: if file_private {
                                saturating_sum(before.file_private_map_count, 1)
                            } else {
                                before.file_private_map_count
                            },
                        },
                        ..old(self).current_runtime()
                    },
                )
            },
    {
        let index = self.current_index;
        let task_id = self.tasks[index].get_id();
        match self.tasks[index].kind {
            TaskKind::User(runtime) => {
                let mut mapping_statistics = runtime.mapping_statistics;
                mapping_statistics.record_mapping(mapped_pages, replaced_pages, active_pages, active_records, file_private);
                self.set_current_runtime(UserTaskRuntime { mapping_statistics, ..runtime });
                Some(task_id)
            },
            TaskKind::Kernel => None,
        }
    }

    /// Account an unmapping of the running user task: `unmapped_pages`
    /// pages released, leaving `active_pages` pages in `active_records`
    /// records; return the task's identifier. Refused, changing nothing,
    /// for a kernel task.
    pub fn record_current_user_unmapping(&mut self, unmapped_pages: u64, active_pages: u64, active_records: u64) -> (r: Option<u64>)
        requires
            old(self).wf(),
        ensures
            final(self).wf(),
            r is Some <==> old(self).tasks@[old(self).current_index as int].is_user(),
            r is None ==> old(self).spec_unchanged(final(self)),
            r matches Some(task_id) ==> {
                let before = old(self).current_runtime().mapping_statistics;
                &&& task_id == old(self).current_index
                &&& old(self).spec_current_runtime_becomes(
                    final(self),
                    UserTaskRuntime {
                        mapping_statistics: UserMappingStatistics {
                            total_released_pages: saturating_sum(before.total_released_pages, unmapped_pages),
                            peak_active_pages: larger(before.peak_active_pages, active_pages),
                            peak_active_records: larger(before.peak_active_records, active_records),
                            ..before
                        },
                        ..old(self).current_runtime()
                    },
                )
            },
    {
        let index = self.current_index;
        let task_id = self.tasks[index].get_id();
        match self.tasks[index].kind {
            TaskKind::User(runtime) => {
                let mut mapping_statistics = runtime.mapping_statistics;
                mapping_statistics.record_unmapping(unmapped_pages, active_pages, active_records);
                self.set_current_runtime(UserTaskRuntime { mapping_statistics, ..runtime });
                Some(task_id)
            },
            TaskKind::Kernel => None,
        }
    }

    /// Return the heap of the running task, if it is a user task.
    pub fn current_user_heap(&self) -> (r: Option<UserHeap>)
        requires
            self.wf(),
        ensures
            r is Some <==> self.tasks@[self.current_index as int].is_user(),
            r matches Some(heap) ==> heap == self.current_runtime().heap,
    {
        match self.tasks[self.current_index].kind {
            TaskKind::User(runtime) => Some(runtime.heap),
            TaskKind::Kernel => None,
        }
    }

    /// Store `heap` as the heap of the running user task, after a break
    /// request moved its break or mapped extent; return the task's
    /// identifier. Refused, changing nothing, for a kernel task.
    pub fn set_current_user_heap(&mut self, heap: UserHeap) -> (r: Option<u64>)
        requires
            old(self).wf(),
        ensures
            final(self).wf(),
            r is Some <==> old(self).tasks@[old(self).current_index as int].is_user(),
            r matches Some(task_id) ==> task_id == old(self).current_index
                && old(self).spec_current_runtime_becomes(
                final(self),
                UserTaskRuntime { heap, ..old(self).current_runtime() },
            ),
            r is None ==> old(self).spec_unchanged(final(self)),
    {
        let index = self.current_index;
        let task = self.tasks[index];
        let task_id = task.get_id();
        match task.kind {
            TaskKind::User(runtime) => {
                self.set_current_runtime(UserTaskRuntime { heap, ..runtime });
                Some(task_id)
            },
            TaskKind::Kernel => None,
        }
    }

    /// Record a keyboard read of the running user task; return the task's
    /// identifier. Refused, changing nothing, unless the running task is a
    /// running user task with an address space and no sleep, `waitpid` or
    /// read in progress.
    pub fn prepare_current_user_read(&mut self, request: UserReadRequest) -> (r: Option<u64>)
        requires
            old(self).wf(),
        ensures
            final(self).wf(),
            r is Some <==> old(self).spec_current_user_running() && old(self).spec_current_wait_free()
                && old(self).current_runtime().read_request is None,
            r matches Some(task_id) ==> task_id == old(self).current_index
                && old(self).spec_current_runtime_becomes(
                final(self),
                UserTaskRuntime { read_request: Some(request), ..old(self).current_runtime() },
            ),
            r is None ==> old(self).spec_unchanged(final(self)),
    {
        let index = self.current_index;
        let task = self.tasks[index];
        let task_id = task.get_id();
        match task.kind {
            TaskKind::User(runtime) => {
                if runtime.address_space_root.is_none() || task.state != TaskState::Running
                    || runtime.sleep_wake_tick.is_some() || runtime.waitpid_request.is_some()
                    || runtime.waitpid_completion.is_some() || runtime.read_request.is_some() {
                    return None;
                }
                self.set_current_runtime(UserTaskRuntime { read_request: Some(request), ..runtime });
                Some(task_id)
            },
            TaskKind::Kernel => None,
        }
    }

    /// Make `next_index` the running task's index, restarting its timer
    /// quantum when the index changes.
    fn set_current_index(&mut self, next_index: usize)
        requires
            old(self).wf(),
            next_index < old(self).tasks@.len(),
        ensures
            final(self).wf(),
            final(self).current_index == next_index,
            final(self).current_timer_quantum_ticks == if old(self).current_index != next_index {
                0
            } else {
                old(self).current_timer_quantum_ticks
            },
            final(self).tasks@ == old(self).tasks@,
            final(self).next_task_identifier == old(self).next_task_identifier,
            final(self).active_user_task_identifiers@ == old(self).active_user_task_identifiers@,
            final(self).child_exit_records@ == old(self).child_exit_records@,
            final(self).finished_user_exits@ == old(self).finished_user_exits@,
            final(self).counters == old(self).counters,
    {
        if self.current_index != next_index {
            self.current_timer_quantum_ticks = 0;
        }
        self.current_index = next_index;
    }

    /// Block the running user task in the wait it prepared, clearing its
    /// kernel context, and hand the processor back to the bootstrap task,
    /// which resumes if it was blocked and runs if it was ready; return the
    /// blocked task's identifier. The block counter of the wait kind (sleep
    /// before `waitpid` before read) goes up by one, saturating. Refused,
    /// changing nothing, unless the running task is a running user task
    /// with a wait prepared.
    pub fn block_current_user_after_syscall(&mut self) -> (r: Option<u64>)
        requires
            old(self).wf(),
        ensures
            final(self).wf(),
            r is Some <==> old(self).tasks@[old(self).current_index as int].is_user()
                && old(self).tasks@[old(self).current_index as int].state == TaskState::Running
                && has_prepared_wait(old(self).current_runtime()),
            r is None ==> old(self).spec_unchanged(final(self)),
            r matches Some(task_id) ==> {
                let blocked = old(self).current_index as int;
                let runtime = old(self).current_runtime();
                &&& task_id == blocked
                &&& final(self).current_index == 0
                &&& final(self).tasks@.len() == old(self).tasks@.len()
                &&& final(self).tasks@[blocked] == (Task {
                    state: TaskState::Blocked,
                    context: TaskContext::spec_new(),
                    ..old(self).tasks@[blocked]
                })
                &&& final(self).tasks@[0] == (Task {
                    state: bootstrap_after_handoff(old(self).tasks@[0].state),
                    ..old(self).tasks@[0]
                })
                &&& forall|i: int|
                    0 < i < old(self).tasks@.len() && i != blocked ==> final(self).tasks@[i]
                        == old(self).tasks@[i]
                &&& final(self).counters == if runtime.sleep_wake_tick is Some {
                    SchedulerCounters {
                        user_sleep_block_count: saturating_next(old(self).counters.user_sleep_block_count),
                        ..old(self).counters
                    }
                } else if runtime.waitpid_request is Some {
                    SchedulerCounters {
                        user_waitpid_block_count: saturating_next(old(self).counters.user_waitpid_block_count),
                        ..old(self).counters
                    }
                } else {
                    SchedulerCounters {
                        user_read_block_count: saturating_next(old(self).counters.user_read_block_count),
                        ..old(self).counters
                    }
                }
            },

            final(self).next_task_identifier == old(self).next_task_identifier,
            final(self).active_user_task_identifiers@ == old(self).active_user_task_identifiers@,
            final(self).child_exit_records@ == old(self).child_exit_records@,
            final(self).finished_user_exits@ == old(self).finished_user_exits@,
    {
        let index = self.current_index;
        let task = self.tasks[index];
        let task_id = task.get_id();
        let runtime = match task.kind {
            TaskKind::User(runtime) => runtime,
            TaskKind::Kernel => return None,
        };
        if runtime.sleep_wake_tick.is_none() && runtime.waitpid_request.is_none()
            && runtime.read_request.is_none() {
            return None;
        }
        let mut state = task.state;
        if !state.prepare_to_block() {
            return None;
        }
        let mut context = task.context;
        context.clear();
        let blocked = Task { state, context, ..task };
        proof {
            lemma_task_update_keeps_wf(
                old(self).tasks@,
                old(self).current_index as int,
                old(self).next_task_identifier@ as int,
                old(self).active_user_task_identifiers@,
                old(self).child_exit_records@,
                index as int,
                blocked,
            );
        }
        self.tasks.set(index, blocked);
        self.hand_off_to_bootstrap();
        if runtime.sleep_wake_tick.is_some() {
            self.counters.user_sleep_block_count = saturating_increment(
                self.counters.user_sleep_block_count,
            );
        } else if runtime.waitpid_request.is_some() {
            self.counters.user_waitpid_block_count = saturating_increment(
                self.counters.user_waitpid_block_count,
            );
        } else {
            self.counters.user_read_block_count = saturating_increment(
                self.counters.user_read_block_count,
            );
        }
        Some(task_id)
    }

    /// Give the processor back to the bootstrap task: it resumes if it was
    /// blocked and runs if it was ready, and becomes the running task.
    fn hand_off_to_bootstrap(&mut self)
        requires
            old(self).wf(),
        ensures
            final(self).wf(),
            final(self).current_index == 0,
            final(self).current_timer_quantum_ticks == if old(self).current_index != 0 {
                0
            } else {
                old(self).current_timer_quantum_ticks
            },
            final(self).tasks@ == old(self).tasks@.update(
                0,
                Task { state: bootstrap_after_handoff(old(self).tasks@[0].state), ..old(self).tasks@[0] },
            ),
            final(self).next_task_identifier == old(self).next_task_identifier,
            final(self).active_user_task_identifiers@ == old(self).active_user_task_identifiers@,
            final(self).child_exit_records@ == old(self).child_exit_records@,
            final(self).finished_user_exits@ == old(self).finished_user_exits@,
            final(self).counters == old(self).counters,
    {
        let bootstrap = self.tasks[0];
        let mut state = bootstrap.state;
        if !state.resume_blocked() {
            state.prepare_to_run();
        }
        let resumed = Task { state, ..bootstrap };
        proof {
            assert(resumed.state == bootstrap_after_handoff(old(self).tasks@[0].state));
            lemma_task_update_keeps_wf(
                old(self).tasks@,
                old(self).current_index as int,
                old(self).next_task_identifier@ as int,
                old(self).active_user_task_identifiers@,
                old(self).child_exit_records@,
                0,
                resumed,
            );
        }
        self.tasks.set(0, resumed);
        self.set_current_index(0);
    }
}

impl Scheduler {
    fn find_active_position(&self, task_id: u64) -> (r: usize)
        requires
            self.active_user_task_identifiers@.contains(task_id),
        ensures
            r < self.active_user_task_identifiers@.len(),
            self.active_user_task_identifiers@[r as int] == task_id,
    {
        let mut index: usize = 0;
        while index < self.active_user_task_identifiers.len()
            invariant
                self.active_user_task_identifiers@.contains(task_id),
                index <= self.active_user_task_identifiers@.len(),
                forall|k: int| 0 <= k < index ==> self.active_user_task_identifiers@[k] != task_id,
            decreases self.active_user_task_identifiers@.len() - index,
        {
            if self.active_user_task_identifiers[index] == task_id {
                return index;
            }
            index = index + 1;
        }
        proof {
            let k = choose|k: int|
                0 <= k < self.active_user_task_identifiers@.len()
                    && self.active_user_task_identifiers@[k] == task_id;
            assert(self.active_user_task_identifiers@[k] != task_id);
        }
        0
    }

    /// Finish the running user task with `exit_code` and take it out of the
    /// active set.
    fn retire_current_task(&mut self, exit_code: u64)
        requires
            old(self).wf(),
            old(self).tasks@[old(self).current_index as int].is_user(),
            old(self).tasks@[old(self).current_index as int].state == TaskState::Running,
        ensures
            final(self).wf(),
            ({
                let cur = old(self).current_index as int;
                &&& final(self).tasks@.len() == old(self).tasks@.len()
                &&& forall|i: int| 0 <= i < old(self).tasks@.len() && i != cur ==> final(self).tasks@[i] == old(self).tasks@[i]
                &&& final(self).tasks@[cur].state == TaskState::Finished
                &&& final(self).tasks@[cur].kind == old(self).tasks@[cur].kind
                &&& final(self).tasks@[cur].context == old(self).tasks@[cur].context
                &&& final(self).tasks@[cur].metadata@ == (
                    cur as u64,
                    old(self).tasks@[cur].metadata@.1,
                    Some((exit_code, false)),
                )
                &&& exists|k: int|
                    0 <= k < old(self).active_user_task_identifiers@.len()
                        && old(self).active_user_task_identifiers@[k] == cur
                        && final(self).active_user_task_identifiers@
                        == old(self).active_user_task_identifiers@.remove(k)
                &&& forall|j: int|
                    0 <= j < old(self).child_exit_records@.len()
                        ==> (#[trigger] old(self).child_exit_records@[j]).child_task_id != cur
            }),
            final(self).current_index == old(self).current_index,
            final(self).next_task_identifier == old(self).next_task_identifier,
            final(self).child_exit_records@ == old(self).child_exit_records@,
            final(self).finished_user_exits@ == old(self).finished_user_exits@,
            final(self).current_timer_quantum_ticks == old(self).current_timer_quantum_ticks,
            final(self).counters == old(self).counters,
    {
        let index = self.current_index;
        let task = self.tasks[index];
        let task_id = task.get_id();
        let mut state = task.state;
        state.finish_running();
        let mut metadata = task.metadata;
        proof {
            assert(old(self).tasks@[index as int].spec_id() == index);
        }
        metadata.record_exit_status(exit_code);
        let finished = Task { state, metadata, ..task };
        proof {
            assert(old(self).tasks@[index as int].is_user());
        }
        let position = self.find_active_position(task_id);
        self.active_user_task_identifiers.remove(position);
        self.tasks.set(index, finished);
        proof {
            let cur = index as int;
            let old_tasks = old(self).tasks@;
            let old_active = old(self).active_user_task_identifiers@;
            let active = self.active_user_task_identifiers@;
            let tasks = self.tasks@;
            let records = self.child_exit_records@;
            assert forall|j: int| 0 <= j < records.len() implies (#[trigger] records[j]).child_task_id != cur by {
                let record = records[j];
                if record.child_task_id == cur {
                    assert(old_tasks[cur].state != TaskState::Finished);
                }
            }
            assert forall|x: u64| #[trigger] active.contains(x) == (old_active.contains(x) && x != cur as u64) by {
                if active.contains(x) {
                    let m = choose|m: int| 0 <= m < active.len() && active[m] == x;
                    if m < position {
                        assert(old_active[m] == x);
                        assert(old_active[m] != old_active[position as int]);
                    } else {
                        assert(old_active[m + 1] == x);
                        assert(old_active[position as int] != old_active[m + 1]);
                    }
                }
                if old_active.contains(x) && x != cur as u64 {
                    let m = choose|m: int| 0 <= m < old_active.len() && old_active[m] == x;
                    if m < position {
                        assert(active[m] == x);
                    } else {
                        assert(m != position);
                        assert(active[m - 1] == x);
                    }
                }
            }
            assert forall|i: int| 0 <= i < tasks.len() implies #[trigger] tasks[i].spec_id() == i
                && (0 < i ==> (tasks[i].metadata@.1 matches Some(p) && p < i)) by {
                assert(old_tasks[i].spec_id() == i);
                if 0 < i {
                    assert(old_tasks[i].metadata@.1 matches Some(p) && p < i);
                }
            }
            assert(self.identity_wf());
            assert forall|i: int| 0 <= i < tasks.len() && #[trigger] tasks[i].state != TaskState::Finished
                implies tasks[i].metadata@.2 is None by {
                assert(old_tasks[i].state != TaskState::Finished);
            }
            assert forall|j: int| 0 <= j < records.len() implies {
                let record = #[trigger] records[j];
                &&& record.child_task_id < tasks.len()
                &&& tasks[record.child_task_id as int].is_user()
                &&& tasks[record.child_task_id as int].metadata@.2 == Some((record.exit_code, record.collected))
            } by {
                let record = records[j];
                assert(record.child_task_id != cur);
            }
            assert(self.exit_wf());
            assert forall|j: int| 0 <= j < active.len() implies {
                let id = #[trigger] active[j];
                &&& id < tasks.len()
                &&& tasks[id as int].is_user()
                &&& tasks[id as int].state != TaskState::Finished
                &&& tasks[id as int].runtime().spec_has_schedulable_address_space()
            } by {
                let id = active[j];
                assert(active.contains(id));
                if j < position {
                    assert(old_active[j] == id);
                } else {
                    assert(old_active[j + 1] == id);
                }
            }
            assert forall|j: int, k: int| 0 <= j < k < active.len() implies #[trigger] active[j]
                != #[trigger] active[k] by {
                let oj = if j < position { j } else { j + 1 };
                let ok = if k < position { k } else { k + 1 };
                assert(active[j] == old_active[oj]);
                assert(active[k] == old_active[ok]);
            }
            assert forall|i: int| 0 <= i < tasks.len() && (#[trigger] tasks[i]).is_user() implies {
                let task = tasks[i];
                &&& task.state == TaskState::Running ==> active.contains(i as u64)
                &&& task.state == TaskState::Finished ==> !active.contains(i as u64)
                &&& task.runtime().address_space_reclaiming ==> task.state == TaskState::Finished
                    && task.runtime().address_space_root is Some
                &&& task.runtime().address_space_root is None ==> !active.contains(i as u64)
            } by {
                assert(old_tasks[i].is_user());
                assert(active.contains(i as u64) == (old_active.contains(i as u64) && i != cur));
                if i == cur {
                    assert(old_active.contains(cur as u64));
                    let m = choose|m: int| 0 <= m < old_active.len() && old_active[m] == cur as u64;
                    assert(old_tasks[cur].runtime().spec_has_schedulable_address_space());
                }
            }
            assert(self.lifecycle_wf());
            assert(old_active[position as int] == cur);
        }
    }
}

impl Scheduler {
    /// Hand the user children of `exiting_parent_task_id` whose exit was
    /// not collected, and their retained exits not yet collected, to the
    /// bootstrap task.
    fn reparent_orphaned_children_to_initial_process(&mut self, exiting_parent_task_id: u64)
        requires
            old(self).wf(),
        ensures
            final(self).wf(),
            final(self).tasks@.len() == old(self).tasks@.len(),
            forall|i: int|
                0 <= i < old(self).tasks@.len() ==> {
                    &&& (#[trigger] final(self).tasks@[i]).metadata@ == reparented_view(
                        old(self).tasks@[i],
                        exiting_parent_task_id,
                    )
                    &&& final(self).tasks@[i].state == old(self).tasks@[i].state
                    &&& final(self).tasks@[i].kind == old(self).tasks@[i].kind
                    &&& final(self).tasks@[i].context == old(self).tasks@[i].context
                },
            final(self).child_exit_records@ == old(self).child_exit_records@.map_values(
                |record: ChildExitRecord| reparented_record(record, exiting_parent_task_id),
            ),
            final(self).current_index == old(self).current_index,
            final(self).next_task_identifier == old(self).next_task_identifier,
            final(self).active_user_task_identifiers@ == old(self).active_user_task_identifiers@,
            final(self).finished_user_exits@ == old(self).finished_user_exits@,
            final(self).current_timer_quantum_ticks == old(self).current_timer_quantum_ticks,
            final(self).counters == old(self).counters,
    {
        let mut index: usize = 0;
        while index < self.tasks.len()
            invariant
                self.wf(),
                index <= self.tasks@.len(),
                self.tasks@.len() == old(self).tasks@.len(),
                forall|i: int|
                    0 <= i < index ==> {
                        &&& (#[trigger] self.tasks@[i]).metadata@ == reparented_view(
                            old(self).tasks@[i],
                            exiting_parent_task_id,
                        )
                        &&& self.tasks@[i].state == old(self).tasks@[i].state
                        &&& self.tasks@[i].kind == old(self).tasks@[i].kind
                        &&& self.tasks@[i].context == old(self).tasks@[i].context
                    },
                forall|i: int| index <= i < self.tasks@.len() ==> #[trigger] self.tasks@[i] == old(self).tasks@[i],
                self.child_exit_records@ == old(self).child_exit_records@,
                self.current_index == old(self).current_index,
                self.next_task_identifier == old(self).next_task_identifier,
                self.active_user_task_identifiers@ == old(self).active_user_task_identifiers@,
                self.finished_user_exits@ == old(self).finished_user_exits@,
                self.current_timer_quantum_ticks == old(self).current_timer_quantum_ticks,
                self.counters == old(self).counters,
            decreases self.tasks@.len() - index,
        {
            let task = self.tasks[index];
            let is_orphan = match task.kind {
                TaskKind::User(_) => match task.metadata.get_parent_identifier() {
                    Some(parent) => parent.as_u64() == exiting_parent_task_id
                        && !task.metadata.wait_collected(),
                    None => false,
                },
                TaskKind::Kernel => false,
            };
            if is_orphan {
                let mut metadata = task.metadata;
                metadata.reparent_to_initial_process();
                let reparented = Task { metadata, ..task };
                proof {
                    let i = index as int;
                    assert(self.tasks@[i] == old(self).tasks@[i]);
                    assert(self.tasks@[i].spec_id() == i);
                    assert(i != 0);
                    assert forall|j: int|
                        0 <= j < self.child_exit_records@.len()
                            && (#[trigger] self.child_exit_records@[j]).child_task_id == i implies reparented.metadata@.2
                        == self.tasks@[i].metadata@.2 by {}
                    lemma_task_update_keeps_wf(
                        self.tasks@,
                        self.current_index as int,
                        self.next_task_identifier@ as int,
                        self.active_user_task_identifiers@,
                        self.child_exit_records@,
                        i,
                        reparented,
                    );
                }
                self.tasks.set(index, reparented);
            }
            index = index + 1;
        }
        let mut record_index: usize = 0;
        while record_index < self.child_exit_records.len()
            invariant
                self.wf(),
                record_index <= self.child_exit_records@.len(),
                self.child_exit_records@.len() == old(self).child_exit_records@.len(),
                forall|j: int|
                    0 <= j < record_index ==> #[trigger] self.child_exit_records@[j] == reparented_record(
                        old(self).child_exit_records@[j],
                        exiting_parent_task_id,
                    ),
                forall|j: int|
                    record_index <= j < self.child_exit_records@.len() ==> #[trigger] self.child_exit_records@[j]
                        == old(self).child_exit_records@[j],
                forall|i: int|
                    0 <= i < old(self).tasks@.len() ==> {
                        &&& (#[trigger] self.tasks@[i]).metadata@ == reparented_view(
                            old(self).tasks@[i],
                            exiting_parent_task_id,
                        )
                        &&& self.tasks@[i].state == old(self).tasks@[i].state
                        &&& self.tasks@[i].kind == old(self).tasks@[i].kind
                        &&& self.tasks@[i].context == old(self).tasks@[i].context
                    },
                self.tasks@.len() == old(self).tasks@.len(),
                self.current_index == old(self).current_index,
                self.next_task_identifier == old(self).next_task_identifier,
                self.active_user_task_identifiers@ == old(self).active_user_task_identifiers@,
                self.finished_user_exits@ == old(self).finished_user_exits@,
                self.current_timer_quantum_ticks == old(self).current_timer_quantum_ticks,
                self.counters == old(self).counters,
            decreases self.child_exit_records@.len() - record_index,
        {
            let record = self.child_exit_records[record_index];
            if record.parent_task_id == exiting_parent_task_id && !record.collected {
                let reparented = ChildExitRecord { parent_task_id: TaskIdentifier::bootstrap().as_u64(), ..record };
                self.child_exit_records.set(record_index, reparented);
                proof {
                    let records = self.child_exit_records@;
                    assert forall|j: int| 0 <= j < records.len() implies (#[trigger] records[j]).child_task_id
                        == old(self).child_exit_records@[j].child_task_id && records[j].exit_code
                        == old(self).child_exit_records@[j].exit_code && records[j].collected
                        == old(self).child_exit_records@[j].collected by {}
                    assert(self.exit_wf());
                }
            }
            record_index = record_index + 1;
        }
        proof {
            assert(self.child_exit_records@ =~= old(self).child_exit_records@.map_values(
                |record: ChildExitRecord| reparented_record(record, exiting_parent_task_id),
            ));
        }
    }
}

impl Scheduler {
    /// Whether an exit of `child_task_id` wakes `parent_task_id`: a user
    /// task waiting in a `waitpid` the exit satisfies.
    pub open spec fn spec_wakes_parent(&self, parent_task_id: u64, child_task_id: u64) -> bool {
        &&& parent_task_id < self.tasks@.len()
        &&& self.tasks@[parent_task_id as int].is_user()
        &&& self.tasks@[parent_task_id as int].runtime().waitpid_request matches Some(request)
            && request.spec_matches_child(child_task_id)
    }

    /// After the exit of `child_task_id`, complete the `waitpid` of
    /// `parent_task_id` it satisfies: collect the first retained exit the
    /// request accepts, record the completion and the child's identifier as
    /// the syscall result, wake the parent and count the wake. Nothing
    /// changes when the exit wakes no one.
    fn wake_waiting_parent_for_child_exit(&mut self, parent_task_id: u64, child_task_id: u64)
        requires
            old(self).wf(),
            old(self).spec_has_waitable(parent_task_id, Some(child_task_id)),
            old(self).spec_wakes_parent(parent_task_id, child_task_id) ==> old(self).tasks@[parent_task_id as int].state
                == TaskState::Blocked,
        ensures
            final(self).wf(),
            !old(self).spec_wakes_parent(parent_task_id, child_task_id) ==> old(self).spec_unchanged(final(self)),
            old(self).spec_wakes_parent(parent_task_id, child_task_id) ==> woke_parent(
                old(self),
                final(self),
                parent_task_id,
            ),
    {
        let parent_index = match self.get_task_index(parent_task_id) {
            Some(index) => index,
            None => return,
        };
        let parent = self.tasks[parent_index];
        let runtime = match parent.kind {
            TaskKind::User(runtime) => runtime,
            TaskKind::Kernel => return,
        };
        let request = match runtime.waitpid_request {
            Some(request) => request,
            None => return,
        };
        if !request.matches_child(child_task_id) {
            return;
        }
        let ghost before = self.tasks@;
        let exit = match self.collect_waitable_child_exit(parent_task_id, request.child_task_id) {
            Some(exit) => exit,
            None => {
                proof {
                    let j = choose|j: int|
                        0 <= j < old(self).child_exit_records@.len()
                            && (#[trigger] old(self).child_exit_records@[j]).spec_waitable_for_parent(
                            parent_task_id,
                            Some(child_task_id),
                        );
                    assert(old(self).child_exit_records@[j].spec_waitable_for_parent(
                        parent_task_id,
                        request.child_task_id,
                    ));
                }
                return;
            },
        };
        let ghost j = choose|j: int|
            old(self).spec_first_waitable(parent_task_id, request.child_task_id, j)
                && collected_record_at(old(self), self, j, exit);
        let ghost mid_tasks = self.tasks@;
        proof {
            let k = old(self).child_exit_records@[j].child_task_id as int;
            assert(old(self).tasks@[k].state == TaskState::Finished);
            assert(k != parent_index);
            assert(self.tasks@[parent_index as int] == parent);
        }
        let completion = UserWaitpidCompletion {
            child_task_id: exit.task_id(),
            status_buffer: request.status_buffer,
            wait_status: exit.wait_status(),
        };
        let saved_frame = UserTrapFrame { rax: exit.task_id(), ..runtime.saved_frame };
        let woken_runtime = UserTaskRuntime {
            waitpid_request: None,
            waitpid_completion: Some(completion),
            saved_frame,
            ..runtime
        };
        let mut state = parent.state;
        state.wake_blocked();
        let woken = Task { state, kind: TaskKind::User(woken_runtime), ..parent };
        proof {
            assert forall|m: int|
                0 <= m < self.child_exit_records@.len() && (#[trigger] self.child_exit_records@[m]).child_task_id
                    == parent_index implies woken.metadata@.2 == self.tasks@[parent_index as int].metadata@.2 by {}
            lemma_task_update_keeps_wf(
                self.tasks@,
                self.current_index as int,
                self.next_task_identifier@ as int,
                self.active_user_task_identifiers@,
                self.child_exit_records@,
                parent_index as int,
                woken,
            );
        }
        self.tasks.set(parent_index, woken);
        self.counters.user_waitpid_wake_count = saturating_increment(self.counters.user_waitpid_wake_count);
        proof {
            let record = old(self).child_exit_records@[j];
            let child = record.child_task_id as int;
            let p = parent_index as int;
            assert(self.tasks@ == mid_tasks.update(p, woken));
            assert(exit@ == (record.child_task_id, record.exit_code));
            assert(old(self).tasks@[p] == parent);
            assert(self.tasks@[p] == (Task {
                state: TaskState::Ready,
                kind: TaskKind::User(
                    UserTaskRuntime {
                        waitpid_request: None,
                        waitpid_completion: Some(
                            UserWaitpidCompletion {
                                child_task_id: record.child_task_id,
                                status_buffer: request.status_buffer,
                                wait_status: wait_status_word(record.exit_code),
                            },
                        ),
                        saved_frame: UserTrapFrame { rax: record.child_task_id, ..runtime.saved_frame },
                        ..runtime
                    },
                ),
                ..old(self).tasks@[p]
            }));
            assert forall|i: int|
                0 <= i < old(self).tasks@.len() && i != child && i != p implies self.tasks@[i]
                    == old(self).tasks@[i] by {
                assert(mid_tasks[i] == old(self).tasks@[i]);
            }
            assert(self.tasks@[child] == mid_tasks[child]);
        }
    }
}

impl Scheduler {
    /// The running task's parent.
    pub open spec fn spec_current_parent(&self) -> u64 {
        self.tasks@[self.current_index as int].metadata@.1->0
    }

    /// Whether the exit of the running task wakes its parent.
    pub open spec fn spec_exit_wakes_parent(&self) -> bool {
        self.spec_wakes_parent(self.spec_current_parent(), self.current_index as u64)
    }

    /// The metadata view of task `i` once the running task exited with
    /// `exit_code` and its children went to the bootstrap task.
    pub open spec fn spec_exit_metadata(&self, i: int, exit_code: u64) -> (u64, Option<u64>, Option<(u64, bool)>) {
        let cur = self.current_index as int;
        if i == cur {
            (cur as u64, self.tasks@[cur].metadata@.1, Some((exit_code, false)))
        } else {
            reparented_view(self.tasks@[i], cur as u64)
        }
    }

    /// The retained exits once the running task exited with `exit_code`:
    /// those waiting for it go to the bootstrap task and its own is added
    /// for its parent.
    pub open spec fn spec_exit_records(&self, exit_code: u64) -> Seq<ChildExitRecord> {
        let cur = self.current_index as u64;
        self.child_exit_records@.map_values(|record: ChildExitRecord| reparented_record(record, cur)).push(
            ChildExitRecord {
                parent_task_id: self.spec_current_parent(),
                child_task_id: cur,
                exit_code,
                collected: false,
            },
        )
    }

    /// `after` is `self` once the running user task exited with
    /// `exit_code`, reported as `exit`: the task is finished with its exit
    /// status retained and out of the active set; its children whose exit
    /// was not collected, and the exits waiting for it, go to the bootstrap
    /// task; the bootstrap task gets the processor back; the exit is queued
    /// for the lifecycle loop and retained for the parent; a parent waiting
    /// in a `waitpid` the exit satisfies collects the first retained exit
    /// its request accepts and wakes.
    pub open spec fn spec_finished_current(&self, after: &Scheduler, exit_code: u64, exit: UserTaskExit) -> bool {
        let cur = self.current_index as int;
        let parent = self.spec_current_parent() as int;
        let records = self.spec_exit_records(exit_code);
        let wakes = self.spec_exit_wakes_parent();
        &&& exit@ == (cur as u64, exit_code)
        &&& after.current_index == 0
        &&& after.current_timer_quantum_ticks == 0
        &&& after.next_task_identifier == self.next_task_identifier
        &&& after.finished_user_exits@ == self.finished_user_exits@.push(exit)
        &&& exists|k: int|
            0 <= k < self.active_user_task_identifiers@.len() && self.active_user_task_identifiers@[k] == cur
                && after.active_user_task_identifiers@ == self.active_user_task_identifiers@.remove(k)
        &&& after.tasks@.len() == self.tasks@.len()
        &&& after.tasks@[cur].state == TaskState::Finished
        &&& after.tasks@[0].state == bootstrap_after_handoff(self.tasks@[0].state)
        &&& forall|i: int|
            0 < i < self.tasks@.len() && i != cur && !(wakes && i == parent)
                ==> (#[trigger] after.tasks@[i]).state == self.tasks@[i].state
        &&& forall|i: int|
            0 <= i < self.tasks@.len() && !(wakes && i == parent)
                ==> (#[trigger] after.tasks@[i]).kind == self.tasks@[i].kind
        &&& forall|i: int| 0 <= i < self.tasks@.len() ==> (#[trigger] after.tasks@[i]).context == self.tasks@[i].context
        &&& !wakes ==> {
            &&& after.child_exit_records@ == records
            &&& forall|i: int|
                0 <= i < self.tasks@.len() ==> (#[trigger] after.tasks@[i]).metadata@ == self.spec_exit_metadata(
                    i,
                    exit_code,
                )
            &&& after.counters == (SchedulerCounters {
                finished_task_count: saturating_next(self.counters.finished_task_count),
                ..self.counters
            })
        }
        &&& wakes ==> {
            let runtime = self.tasks@[parent].runtime();
            let request = runtime.waitpid_request->0;
            exists|j: int|
                #[trigger] first_waitable(records, self.spec_current_parent(), request.child_task_id, j) && {
                    let record = records[j];
                    let child = record.child_task_id as int;
                    &&& after.child_exit_records@ == records.update(
                        j,
                        ChildExitRecord { collected: true, ..record },
                    )
                    &&& forall|i: int|
                        0 <= i < self.tasks@.len() && i != child ==> (#[trigger] after.tasks@[i]).metadata@
                            == self.spec_exit_metadata(i, exit_code)
                    &&& after.tasks@[child].metadata@ == (
                        self.spec_exit_metadata(child, exit_code).0,
                        self.spec_exit_metadata(child, exit_code).1,
                        Some((record.exit_code, true)),
                    )
                    &&& after.tasks@[parent].state == TaskState::Ready
                    &&& after.tasks@[parent].kind == TaskKind::User(
                        UserTaskRuntime {
                            waitpid_request: None,
                            waitpid_completion: Some(
                                UserWaitpidCompletion {
                                    child_task_id: record.child_task_id,
                                    status_buffer: request.status_buffer,
                                    wait_status: wait_status_word(record.exit_code),
                                },
                            ),
                            saved_frame: UserTrapFrame { rax: record.child_task_id, ..runtime.saved_frame },
                            ..runtime
                        },
                    )
                    &&& after.counters == (SchedulerCounters {
                        finished_task_count: saturating_next(self.counters.finished_task_count),
                        user_waitpid_wake_count: saturating_next(self.counters.user_waitpid_wake_count),
                        ..self.counters
                    })
                }
        }
    }

    /// Finish the running user task with `exit_code` and return its exit;
    /// see `spec_finished_current`. Refused, changing nothing, unless the
    /// running task is a running user task.
    pub fn finish_current_task(&mut self, exit_code: u64) -> (r: Option<UserTaskExit>)
        requires
            old(self).wf(),
            old(self).spec_exit_wakes_parent() ==> old(self).tasks@[old(self).spec_current_parent() as int].state
                == TaskState::Blocked,
        ensures
            final(self).wf(),
            r is Some <==> old(self).tasks@[old(self).current_index as int].is_user()
                && old(self).tasks@[old(self).current_index as int].state == TaskState::Running,
            r is None ==> old(self).spec_unchanged(final(self)),
            r matches Some(exit) ==> old(self).spec_finished_current(final(self), exit_code, exit),
    {
        let index = self.current_index;
        let task = self.tasks[index];
        let task_id = task.get_id();
        if let TaskKind::Kernel = task.kind {
            return None;
        }
        if task.state != TaskState::Running {
            return None;
        }
        let parent_task_id = match task.metadata.get_parent_identifier() {
            Some(parent) => parent.as_u64(),
            None => return None,
        };
        let ghost old_records = self.child_exit_records@;
        self.retire_current_task(exit_code);
        let ghost retired_tasks = self.tasks@;
        self.reparent_orphaned_children_to_initial_process(task_id);
        let ghost reparented_tasks = self.tasks@;
        self.hand_off_to_bootstrap();
        let ghost handed_tasks = self.tasks@;
        self.counters.finished_task_count = saturating_increment(self.counters.finished_task_count);
        let exit = UserTaskExit::new(task_id, exit_code);
        self.finished_user_exits.push(exit);
        let record = ChildExitRecord {
            parent_task_id,
            child_task_id: task_id,
            exit_code,
            collected: false,
        };
        self.child_exit_records.push(record);
        proof {
            let cur = index as int;
            assert(task_id == cur);
            assert(self.child_exit_records@ =~= old(self).spec_exit_records(exit_code));
            assert forall|i: int| 0 <= i < self.tasks@.len() implies (#[trigger] self.tasks@[i]).metadata@
                == old(self).spec_exit_metadata(i, exit_code) by {
                if i == 0 {
                    assert(handed_tasks[0].metadata == reparented_tasks[0].metadata);
                }
                assert(reparented_tasks[i].metadata@ == reparented_view(retired_tasks[i], cur as u64));
                if i != cur {
                    assert(retired_tasks[i] == old(self).tasks@[i]);
                } else {
                    assert(!retired_tasks[cur].is_user() || retired_tasks[cur].metadata@.1 != Some(cur as u64));
                }
            }
            assert(self.tasks@[cur].metadata@.2 == Some((exit_code, false)));
            let records = self.child_exit_records@;
            assert forall|j: int| 0 <= j < old_records.len() implies (#[trigger] records[j]).child_task_id
                != cur by {
                assert(old_records[j].child_task_id != cur);
            }
            assert(self.exit_wf());
            assert(self.wf());
            assert(self.child_exit_records@[old_records.len() as int].spec_waitable_for_parent(
                parent_task_id,
                Some(task_id),
            ));
        }
        let ghost pushed_tasks = self.tasks@;
        let ghost pushed_records = self.child_exit_records@;
        let ghost pushed_counters = self.counters;
        let ghost pushed: Scheduler = *self;
        proof {
            let p = parent_task_id as int;
            if self.spec_wakes_parent(parent_task_id, task_id) {
                assert(p != 0);
                assert(p != index);
                assert(self.tasks@[p].state == old(self).tasks@[p].state);
                assert(self.tasks@[p].kind == old(self).tasks@[p].kind);
            }
        }
        self.wake_waiting_parent_for_child_exit(parent_task_id, task_id);
        proof {
            let cur = index as int;
            let p = parent_task_id as int;
            assert(old(self).spec_current_parent() == parent_task_id);
            if p != 0 {
                assert(pushed_tasks[p].kind == old(self).tasks@[p].kind);
            }
            let after = &*self;
            let before = old(self);
            let wakes = before.spec_exit_wakes_parent();
            assert(exit@ == (cur as u64, exit_code));
            assert(after.current_index == 0);
            assert(after.current_timer_quantum_ticks == 0);
            assert(after.finished_user_exits@ == before.finished_user_exits@.push(exit));
            assert(exists|k: int|
                0 <= k < before.active_user_task_identifiers@.len() && before.active_user_task_identifiers@[k] == cur
                    && after.active_user_task_identifiers@ == before.active_user_task_identifiers@.remove(k));
            assert(after.tasks@.len() == before.tasks@.len());
            assert(after.tasks@[cur].state == TaskState::Finished);
            assert(after.tasks@[0].state == bootstrap_after_handoff(before.tasks@[0].state));
            assert(forall|i: int|
                0 < i < before.tasks@.len() && i != cur && !(wakes && i == p)
                    ==> (#[trigger] after.tasks@[i]).state == before.tasks@[i].state);
            assert(forall|i: int|
                0 <= i < before.tasks@.len() && !(wakes && i == p)
                    ==> (#[trigger] after.tasks@[i]).kind == before.tasks@[i].kind);
            assert(forall|i: int| 0 <= i < before.tasks@.len() ==> (#[trigger] after.tasks@[i]).context == before.tasks@[i].context);
            assert(pushed.tasks@ == pushed_tasks);
            if !wakes {
                assert(after.tasks@ == pushed.tasks@);
                assert forall|i: int| 0 <= i < before.tasks@.len() implies (#[trigger] after.tasks@[i]).metadata@
                    == before.spec_exit_metadata(i, exit_code) by {
                    assert(pushed.tasks@[i].metadata@ == before.spec_exit_metadata(i, exit_code));
                }
                assert(after.child_exit_records@ == before.spec_exit_records(exit_code));
                assert(after.counters == (SchedulerCounters {
                    finished_task_count: saturating_next(before.counters.finished_task_count),
                    ..before.counters
                }));
                assert(before.spec_finished_current(after, exit_code, exit));
            } else {
                assert(woke_parent(&pushed, after, parent_task_id));
                let runtime = before.tasks@[p].runtime();
                let request = runtime.waitpid_request->0;
                assert(pushed.tasks@[p].runtime() == runtime);
                let j = choose|j: int|
                    pushed.spec_first_waitable(parent_task_id, request.child_task_id, j) && {
                        let record = pushed.child_exit_records@[j];
                        let child = record.child_task_id as int;
                        &&& child != p
                        &&& after.child_exit_records@ == pushed.child_exit_records@.update(
                            j,
                            ChildExitRecord { collected: true, ..record },
                        )
                        &&& after.tasks@.len() == pushed.tasks@.len()
                        &&& forall|i: int|
                            0 <= i < pushed.tasks@.len() && i != child && i != p ==> after.tasks@[i]
                                == pushed.tasks@[i]
                        &&& after.tasks@[child].metadata@ == (
                            pushed.tasks@[child].metadata@.0,
                            pushed.tasks@[child].metadata@.1,
                            Some((record.exit_code, true)),
                        )
                        &&& after.tasks@[child].state == pushed.tasks@[child].state
                        &&& after.tasks@[child].kind == pushed.tasks@[child].kind
                        &&& after.tasks@[child].context == pushed.tasks@[child].context
                        &&& after.tasks@[p] == (Task {
                            state: TaskState::Ready,
                            kind: TaskKind::User(
                                UserTaskRuntime {
                                    waitpid_request: None,
                                    waitpid_completion: Some(
                                        UserWaitpidCompletion {
                                            child_task_id: record.child_task_id,
                                            status_buffer: request.status_buffer,
                                            wait_status: wait_status_word(record.exit_code),
                                        },
                                    ),
                                    saved_frame: UserTrapFrame { rax: record.child_task_id, ..runtime.saved_frame },
                                    ..runtime
                                },
                            ),
                            ..pushed.tasks@[p]
                        })
                        &&& after.counters == (SchedulerCounters {
                            user_waitpid_wake_count: saturating_next(pushed.counters.user_waitpid_wake_count),
                            ..pushed.counters
                        })
                    };
                let records = before.spec_exit_records(exit_code);
                assert(pushed.child_exit_records@ == records);
                assert(first_waitable(records, before.spec_current_parent(), request.child_task_id, j));
                let record = records[j];
                let child = record.child_task_id as int;
                assert(after.child_exit_records@ == records.update(j, ChildExitRecord { collected: true, ..record }));
                assert forall|i: int|
                    0 <= i < before.tasks@.len() && i != child implies (#[trigger] after.tasks@[i]).metadata@
                        == before.spec_exit_metadata(i, exit_code) by {
                    assert(pushed.tasks@[i].metadata@ == before.spec_exit_metadata(i, exit_code));
                }
                assert(pushed.tasks@[child].metadata@ == before.spec_exit_metadata(child, exit_code));
                assert(after.tasks@[p].state == TaskState::Ready);
                assert(after.counters == (SchedulerCounters {
                    finished_task_count: saturating_next(before.counters.finished_task_count),
                    user_waitpid_wake_count: saturating_next(before.counters.user_waitpid_wake_count),
                    ..before.counters
                }));
                assert(before.spec_finished_current(after, exit_code, exit));
            }
        }
        Some(exit)
    }
}

/// `after` is `before` once the `waitpid` of `parent_task_id` completed:
/// the first retained exit its request accepts was collected, the parent
/// is ready with its request replaced by the completion and the child's
/// identifier as its syscall result, and the wake was counted.
pub open spec fn woke_parent(before: &Scheduler, after: &Scheduler, parent_task_id: u64) -> bool {
    let parent = parent_task_id as int;
    let runtime = before.tasks@[parent].runtime();
    let request = runtime.waitpid_request->0;
    exists|j: int|
        before.spec_first_waitable(parent_task_id, request.child_task_id, j) && {
            let record = before.child_exit_records@[j];
            let child = record.child_task_id as int;
            &&& child != parent
            &&& after.child_exit_records@ == before.child_exit_records@.update(
                j,
                ChildExitRecord { collected: true, ..record },
            )
            &&& after.tasks@.len() == before.tasks@.len()
            &&& forall|i: int|
                0 <= i < before.tasks@.len() && i != child && i != parent ==> after.tasks@[i]
                    == before.tasks@[i]
            &&& after.tasks@[child].metadata@ == (
                before.tasks@[child].metadata@.0,
                before.tasks@[child].metadata@.1,
                Some((record.exit_code, true)),
            )
            &&& after.tasks@[child].state == before.tasks@[child].state
            &&& after.tasks@[child].kind == before.tasks@[child].kind
            &&& after.tasks@[child].context == before.tasks@[child].context
            &&& after.tasks@[parent] == (Task {
                state: TaskState::Ready,
                kind: TaskKind::User(
                    UserTaskRuntime {
                        waitpid_request: None,
                        waitpid_completion: Some(
                            UserWaitpidCompletion {
                                child_task_id: record.child_task_id,
                                status_buffer: request.status_buffer,
                                wait_status: wait_status_word(record.exit_code),
                            },
                        ),
                        saved_frame: UserTrapFrame { rax: record.child_task_id, ..runtime.saved_frame },
                        ..runtime
                    },
                ),
                ..before.tasks@[parent]
            })
            &&& after.counters == (SchedulerCounters {
                user_waitpid_wake_count: saturating_next(before.counters.user_waitpid_wake_count),
                ..before.counters
            })
            &&& after.current_index == before.current_index
            &&& after.next_task_identifier == before.next_task_identifier
            &&& after.active_user_task_identifiers@ == before.active_user_task_identifiers@
            &&& after.finished_user_exits@ == before.finished_user_exits@
            &&& after.current_timer_quantum_ticks == before.current_timer_quantum_ticks
        }
}

/// The metadata view of `task` once the task `exiting` exited: a user
/// child of it whose exit was not collected gets the bootstrap task as its
/// parent.
pub open spec fn reparented_view(task: Task, exiting: u64) -> (u64, Option<u64>, Option<(u64, bool)>) {
    let view = task.metadata@;
    if task.is_user() && view.1 == Some(exiting) && !(view.2 matches Some(status) && status.1) {
        (view.0, Some(0u64), view.2)
    } else {
        view
    }
}

/// A retained exit once the task `exiting` exited: one waiting for it goes
/// to the bootstrap task.
pub open spec fn reparented_record(record: ChildExitRecord, exiting: u64) -> ChildExitRecord {
    if record.parent_task_id == exiting && !record.collected {
        ChildExitRecord { parent_task_id: 0, ..record }
    } else {
        record
    }
}

impl Scheduler {
    /// Wake the first user task, in identifier order, blocked in a keyboard
    /// read, count the wake, and return its identifier; the read stays
    /// pending until the task takes it. `None`, changing nothing, when no
    /// task is blocked in a read.
    pub fn wake_keyboard_readers(&mut self) -> (r: Option<u64>)
        requires
            old(self).wf(),
        ensures
            final(self).wf(),
            r matches Some(task_id) ==> {
                &&& task_id < old(self).tasks@.len()
                &&& is_blocked_reader(old(self).tasks@[task_id as int])
                &&& forall|k: int| 0 <= k < task_id ==> !is_blocked_reader(#[trigger] old(self).tasks@[k])
                &&& final(self).tasks@ == old(self).tasks@.update(
                    task_id as int,
                    Task { state: TaskState::Ready, ..old(self).tasks@[task_id as int] },
                )
                &&& final(self).counters == (SchedulerCounters {
                    user_read_wake_count: saturating_next(old(self).counters.user_read_wake_count),
                    ..old(self).counters
                })
            },
            r is None ==> forall|k: int|
                0 <= k < old(self).tasks@.len() ==> !is_blocked_reader(#[trigger] old(self).tasks@[k]),
            r is None ==> old(self).spec_unchanged(final(self)),
            final(self).current_index == old(self).current_index,
            final(self).next_task_identifier == old(self).next_task_identifier,
            final(self).active_user_task_identifiers@ == old(self).active_user_task_identifiers@,
            final(self).child_exit_records@ == old(self).child_exit_records@,
            final(self).finished_user_exits@ == old(self).finished_user_exits@,
            final(self).current_timer_quantum_ticks == old(self).current_timer_quantum_ticks,
    {
        let mut index: usize = 0;
        while index < self.tasks.len()
            invariant
                self.wf(),
                old(self).spec_unchanged(self),
                index <= self.tasks@.len(),
                forall|k: int| 0 <= k < index ==> !is_blocked_reader(#[trigger] self.tasks@[k]),
            decreases self.tasks@.len() - index,
        {
            let task = self.tasks[index];
            if let TaskKind::User(runtime) = task.kind {
                if runtime.read_request.is_some() {
                    let mut state = task.state;
                    if state.wake_blocked() {
                        let woken = Task { state, ..task };
                        proof {
                            assert forall|m: int|
                                0 <= m < self.child_exit_records@.len()
                                    && (#[trigger] self.child_exit_records@[m]).child_task_id == index implies woken.metadata@.2
                                == self.tasks@[index as int].metadata@.2 by {}
                            assert(self.tasks@[index as int].spec_id() == index);
                            lemma_task_update_keeps_wf(
                                self.tasks@,
                                self.current_index as int,
                                self.next_task_identifier@ as int,
                                self.active_user_task_identifiers@,
                                self.child_exit_records@,
                                index as int,
                                woken,
                            );
                        }
                        self.tasks.set(index, woken);
                        self.counters.user_read_wake_count = saturating_increment(
                            self.counters.user_read_wake_count,
                        );
                        return Some(task.get_id());
                    }
                }
            }
            index = index + 1;
        }
        None
    }

    /// Return whether `task_id` is a user task blocked in a keyboard read.
    pub fn is_user_task_blocked_for_read(&self, task_id: u64) -> (r: bool)
        requires
            self.wf(),
        ensures
            r == (task_id < self.tasks@.len() && is_blocked_reader(self.tasks@[task_id as int])),
    {
        let index = match self.get_task_index(task_id) {
            Some(index) => index,
            None => return false,
        };
        let task = self.tasks[index];
        match task.kind {
            TaskKind::User(runtime) => task.state == TaskState::Blocked && runtime.read_request.is_some(),
            TaskKind::Kernel => false,
        }
    }

    /// Take the pending read of the running user task `task_id`. `None`,
    /// changing nothing, when `task_id` is not the running task or not a
    /// user task; otherwise the pending read, if any, which is cleared.
    pub fn take_current_user_read_request(&mut self, task_id: u64) -> (r: Option<UserReadRequest>)
        requires
            old(self).wf(),
        ensures
            final(self).wf(),
            !(task_id == old(self).current_index && old(self).tasks@[old(self).current_index as int].is_user())
                ==> r is None && old(self).spec_unchanged(final(self)),
            task_id == old(self).current_index && old(self).tasks@[old(self).current_index as int].is_user() ==> {
                &&& r == old(self).current_runtime().read_request
                &&& old(self).spec_current_runtime_becomes(
                    final(self),
                    UserTaskRuntime { read_request: None, ..old(self).current_runtime() },
                )
            },
    {
        let index = self.current_index;
        let task = self.tasks[index];
        if task.get_id() != task_id {
            return None;
        }
        match task.kind {
            TaskKind::User(runtime) => {
                let request = runtime.read_request;
                self.set_current_runtime(UserTaskRuntime { read_request: None, ..runtime });
                request
            },
            TaskKind::Kernel => None,
        }
    }

    /// Store `result` as the syscall result of the running user task
    /// `task_id`. `None`, changing nothing, when `task_id` is not the
    /// running task or not a user task.
    pub fn complete_current_user_read(&mut self, task_id: u64, result: u64) -> (r: Option<()>)
        requires
            old(self).wf(),
        ensures
            final(self).wf(),
            r is Some <==> task_id == old(self).current_index && old(self).tasks@[old(self).current_index as int].is_user(),
            r is None ==> old(self).spec_unchanged(final(self)),
            r is Some ==> old(self).spec_current_runtime_becomes(
                final(self),
                UserTaskRuntime {
                    saved_frame: UserTrapFrame { rax: result, ..old(self).current_runtime().saved_frame },
                    ..old(self).current_runtime()
                },
            ),
    {
        let index = self.current_index;
        let task = self.tasks[index];
        if task.get_id() != task_id {
            return None;
        }
        match task.kind {
            TaskKind::User(runtime) => {
                let saved_frame = UserTrapFrame { rax: result, ..runtime.saved_frame };
                self.set_current_runtime(UserTaskRuntime { saved_frame, ..runtime });
                Some(())
            },
            TaskKind::Kernel => None,
        }
    }

    /// Take the completed `waitpid` of user task `task_id`, whose status
    /// word the caller stores in the user buffer it names. `None`, changing
    /// nothing, when there is no such task or no completion.
    pub fn complete_pending_user_waitpid_status(&mut self, task_id: u64) -> (r: Option<UserWaitpidCompletion>)
        requires
            old(self).wf(),
        ensures
            final(self).wf(),
            r is Some <==> task_id < old(self).tasks@.len() && old(self).tasks@[task_id as int].is_user()
                && old(self).tasks@[task_id as int].runtime().waitpid_completion is Some,
            r is None ==> old(self).spec_unchanged(final(self)),
            r matches Some(completion) ==> {
                let task = old(self).tasks@[task_id as int];
                &&& completion == task.runtime().waitpid_completion->0
                &&& final(self).tasks@ == old(self).tasks@.update(
                    task_id as int,
                    with_runtime(task, UserTaskRuntime { waitpid_completion: None, ..task.runtime() }),
                )
                &&& final(self).current_index == old(self).current_index
                &&& final(self).next_task_identifier == old(self).next_task_identifier
                &&& final(self).active_user_task_identifiers@ == old(self).active_user_task_identifiers@
                &&& final(self).child_exit_records@ == old(self).child_exit_records@
                &&& final(self).finished_user_exits@ == old(self).finished_user_exits@
                &&& final(self).current_timer_quantum_ticks == old(self).current_timer_quantum_ticks
                &&& final(self).counters == old(self).counters
            },
    {
        let index = match self.get_task_index(task_id) {
            Some(index) => index,
            None => return None,
        };
        let task = self.tasks[index];
        let runtime = match task.kind {
            TaskKind::User(runtime) => runtime,
            TaskKind::Kernel => return None,
        };
        let completion = match runtime.waitpid_completion {
            Some(completion) => completion,
            None => return None,
        };
        let updated = Task { kind: TaskKind::User(UserTaskRuntime { waitpid_completion: None, ..runtime }), ..task };
        proof {
            assert forall|m: int|
                0 <= m < self.child_exit_records@.len()
                    && (#[trigger] self.child_exit_records@[m]).child_task_id == index implies updated.metadata@.2
                == self.tasks@[index as int].metadata@.2 by {}
            assert(self.tasks@[index as int].spec_id() == index);
            if updated.state == TaskState::Running {
                assert(self.tasks@[index as int].is_user());
            }
            lemma_task_update_keeps_wf(
                self.tasks@,
                self.current_index as int,
                self.next_task_identifier@ as int,
                self.active_user_task_identifiers@,
                self.child_exit_records@,
                index as int,
                updated,
            );
        }
        self.tasks.set(index, updated);
        Some(completion)
    }
}

impl Scheduler {
    /// End every user sleep due at `current_tick`: the sleep is cleared and
    /// a blocked sleeper is woken and counted.
    pub fn wake_sleeping_user_tasks(&mut self, current_tick: u64)
        requires
            old(self).wf(),
        ensures
            final(self).wf(),
            final(self).tasks@ == old(self).tasks@.map_values(|task: Task| after_sleep_check(task, current_tick)),
            final(self).counters == (SchedulerCounters {
                user_sleep_wake_count: saturating_add_count(
                    old(self).counters.user_sleep_wake_count,
                    sleepers_woken(old(self).tasks@, current_tick),
                ),
                ..old(self).counters
            }),
            final(self).current_index == old(self).current_index,
            final(self).next_task_identifier == old(self).next_task_identifier,
            final(self).active_user_task_identifiers@ == old(self).active_user_task_identifiers@,
            final(self).child_exit_records@ == old(self).child_exit_records@,
            final(self).finished_user_exits@ == old(self).finished_user_exits@,
            final(self).current_timer_quantum_ticks == old(self).current_timer_quantum_ticks,
    {
        let mut index: usize = 0;
        while index < self.tasks.len()
            invariant
                self.wf(),
                index <= self.tasks@.len(),
                self.tasks@.len() == old(self).tasks@.len(),
                forall|k: int|
                    0 <= k < index ==> #[trigger] self.tasks@[k] == after_sleep_check(old(self).tasks@[k], current_tick),
                forall|k: int| index <= k < self.tasks@.len() ==> #[trigger] self.tasks@[k] == old(self).tasks@[k],
                self.counters == (SchedulerCounters {
                    user_sleep_wake_count: saturating_add_count(
                        old(self).counters.user_sleep_wake_count,
                        sleepers_woken(old(self).tasks@.take(index as int), current_tick),
                    ),
                    ..old(self).counters
                }),
                self.current_index == old(self).current_index,
                self.next_task_identifier == old(self).next_task_identifier,
                self.active_user_task_identifiers@ == old(self).active_user_task_identifiers@,
                self.child_exit_records@ == old(self).child_exit_records@,
                self.finished_user_exits@ == old(self).finished_user_exits@,
                self.current_timer_quantum_ticks == old(self).current_timer_quantum_ticks,
            decreases self.tasks@.len() - index,
        {
            let task = self.tasks[index];
            proof {
                let prefix = old(self).tasks@.take(index as int + 1);
                assert(prefix.drop_last() =~= old(self).tasks@.take(index as int));
                assert(prefix.last() == task);
            }
            if let TaskKind::User(runtime) = task.kind {
                if let Some(wake_tick) = runtime.sleep_wake_tick {
                    if current_tick >= wake_tick {
                        let mut state = task.state;
                        let woke = state.wake_blocked();
                        let updated = Task {
                            state,
                            kind: TaskKind::User(UserTaskRuntime { sleep_wake_tick: None, ..runtime }),
                            ..task
                        };
                        proof {
                            assert forall|m: int|
                                0 <= m < self.child_exit_records@.len()
                                    && (#[trigger] self.child_exit_records@[m]).child_task_id == index implies updated.metadata@.2
                                == self.tasks@[index as int].metadata@.2 by {}
                            assert(self.tasks@[index as int].spec_id() == index);
                            lemma_task_update_keeps_wf(
                                self.tasks@,
                                self.current_index as int,
                                self.next_task_identifier@ as int,
                                self.active_user_task_identifiers@,
                                self.child_exit_records@,
                                index as int,
                                updated,
                            );
                        }
                        self.tasks.set(index, updated);
                        if woke {
                            self.counters.user_sleep_wake_count = saturating_increment(
                                self.counters.user_sleep_wake_count,
                            );
                        }
                    }
                }
            }
            index = index + 1;
        }
        proof {
            assert(old(self).tasks@.take(index as int) =~= old(self).tasks@);
            assert(self.tasks@ =~= old(self).tasks@.map_values(|task: Task| after_sleep_check(task, current_tick)));
        }
    }
}

/// Whether user tasks take part in timer scheduling.
pub const USER_TASK_PREEMPTION_ENABLED: bool = true;

impl Scheduler {
    /// Whether task `i` may be picked: it is ready, and a kernel task has a
    /// saved context while a user task is active with a schedulable
    /// address space.
    pub open spec fn spec_can_schedule(&self, i: int) -> bool {
        let task = self.tasks@[i];
        &&& task.state == TaskState::Ready
        &&& match task.kind {
            TaskKind::Kernel => task.context.stack_pointer != 0,
            TaskKind::User(runtime) => USER_TASK_PREEMPTION_ENABLED && self.spec_is_active(i as u64)
                && runtime.spec_has_schedulable_address_space(),
        }
    }

    /// Whether task `i` is an active user task with a schedulable address
    /// space that never ran.
    pub open spec fn spec_first_entry_candidate(&self, i: int) -> bool {
        let task = self.tasks@[i];
        &&& task.is_user()
        &&& task.context.stack_pointer == 0
        &&& self.spec_is_active(i as u64)
        &&& task.runtime().spec_has_schedulable_address_space()
    }

    /// The index `offset` steps after `current`, wrapping around.
    pub open spec fn ring_index(&self, current: int, offset: int) -> int {
        (current + offset) % (self.tasks@.len() as int)
    }

    /// Whether the task `offset` steps after `current` may be picked, and,
    /// with `entry_only`, is a first-entry user candidate.
    pub open spec fn ring_pick(&self, current: int, entry_only: bool, offset: int) -> bool {
        let i = self.ring_index(current, offset);
        &&& self.spec_can_schedule(i)
        &&& entry_only ==> self.spec_first_entry_candidate(i)
    }

    /// Whether `offset` is the first step after `current` at which a pick
    /// succeeds.
    pub open spec fn first_pick_offset(&self, current: int, entry_only: bool, offset: int) -> bool {
        &&& 1 <= offset <= self.tasks@.len()
        &&& self.ring_pick(current, entry_only, offset)
        &&& forall|earlier: int| 1 <= earlier < offset ==> !#[trigger] self.ring_pick(current, entry_only, earlier)
    }

    /// The task picked after `current`: going round from the next index,
    /// the first first-entry user candidate when the current task is a
    /// kernel task and there is one, otherwise the first task that may be
    /// picked; none with fewer than two tasks.
    pub open spec fn spec_next_ready_index(&self, current: int) -> Option<int> {
        if self.tasks@.len() < 2 {
            None
        } else if self.tasks@[current].kind is Kernel && exists|offset: int| self.first_pick_offset(current, true, offset) {
            Some(self.ring_index(current, choose|offset: int| self.first_pick_offset(current, true, offset)))
        } else if exists|offset: int| self.first_pick_offset(current, false, offset) {
            Some(self.ring_index(current, choose|offset: int| self.first_pick_offset(current, false, offset)))
        } else {
            None
        }
    }

    /// Return whether task `candidate_index` may be picked.
    pub fn can_schedule_task(&self, candidate_index: usize) -> (r: bool)
        requires
            self.wf(),
            candidate_index < self.tasks@.len(),
        ensures
            r == self.spec_can_schedule(candidate_index as int),
    {
        let task = self.tasks[candidate_index];
        if !task.state.is_ready() {
            return false;
        }
        match task.kind {
            TaskKind::Kernel => !task.context.is_empty(),
            TaskKind::User(runtime) => {
                if !USER_TASK_PREEMPTION_ENABLED || !self.is_user_task_active(task.get_id())
                    || !runtime.has_schedulable_address_space() {
                    return false;
                }
                true
            },
        }
    }

    /// Return whether task `index` is an active user task that never ran.
    pub fn is_first_entry_user_candidate(&self, index: usize) -> (r: bool)
        requires
            self.wf(),
            index < self.tasks@.len(),
        ensures
            r == self.spec_first_entry_candidate(index as int),
    {
        let task = self.tasks[index];
        match task.kind {
            TaskKind::User(runtime) => task.context.is_empty() && self.is_user_task_active(task.get_id())
                && runtime.has_schedulable_address_space(),
            TaskKind::Kernel => false,
        }
    }

    fn ring_index_of(&self, current: usize, offset: usize) -> (r: usize)
        requires
            current < self.tasks@.len(),
            1 <= offset <= self.tasks@.len(),
        ensures
            r == self.ring_index(current as int, offset as int),
            r < self.tasks@.len(),
    {
        let len = self.tasks.len();
        if offset < len - current {
            proof {
                assert((current + offset) % (len as int) == current + offset) by (nonlinear_arith)
                    requires
                        current + offset < len,
                        0 <= current + offset,
                {}
            }
            current + offset
        } else {
            proof {
                assert((current + offset) % (len as int) == current + offset - len) by (nonlinear_arith)
                    requires
                        len <= current + offset < 2 * len,
                {}
            }
            offset - (len - current)
        }
    }

    fn find_first_pick(&self, current: usize, entry_only: bool) -> (r: Option<usize>)
        requires
            self.wf(),
            current < self.tasks@.len(),
        ensures
            r is Some <==> exists|offset: int| self.first_pick_offset(current as int, entry_only, offset),
            r matches Some(index) ==> index == self.ring_index(
                current as int,
                choose|offset: int| self.first_pick_offset(current as int, entry_only, offset),
            ),
    {
        let len = self.tasks.len();
        let mut step: usize = 0;
        while step < len
            invariant
                self.wf(),
                current < self.tasks@.len(),
                len == self.tasks@.len(),
                step <= len,
                forall|earlier: int| 1 <= earlier <= step ==> !#[trigger] self.ring_pick(current as int, entry_only, earlier),
            decreases len - step,
        {
            let offset = step + 1;
            let index = self.ring_index_of(current, offset);
            let pick = if entry_only {
                self.can_schedule_task(index) && self.is_first_entry_user_candidate(index)
            } else {
                self.can_schedule_task(index)
            };
            if pick {
                proof {
                    assert(self.first_pick_offset(current as int, entry_only, offset as int));
                    let chosen = choose|o: int| self.first_pick_offset(current as int, entry_only, o);
                    if chosen < offset {
                        assert(!self.ring_pick(current as int, entry_only, chosen));
                    }
                    if chosen > offset {
                        assert(!self.ring_pick(current as int, entry_only, offset as int));
                    }
                }
                return Some(index);
            }
            step = step + 1;
        }
        proof {
            if exists|o: int| self.first_pick_offset(current as int, entry_only, o) {
                let o = choose|o: int| self.first_pick_offset(current as int, entry_only, o);
                assert(!self.ring_pick(current as int, entry_only, o));
            }
        }
        None
    }

    /// Return the task to pick after `current_index`; see
    /// `spec_next_ready_index`.
    pub fn get_next_ready_index(&self, current_index: usize) -> (r: Option<usize>)
        requires
            self.wf(),
            current_index < self.tasks@.len(),
        ensures
            match self.spec_next_ready_index(current_index as int) {
                Some(index) => r == Some(index as usize),
                None => r is None,
            },
    {
        if self.tasks.len() < 2 {
            return None;
        }
        if let TaskKind::Kernel = self.tasks[current_index].kind {
            if let Some(index) = self.find_first_pick(current_index, true) {
                return Some(index);
            }
        }
        self.find_first_pick(current_index, false)
    }

    /// Whether the timer may switch away from the running task: always for
    /// a kernel task; for a user task only when the interrupt came from
    /// user mode and its timer trap frame was recorded.
    pub open spec fn spec_can_switch_away(&self, interrupted_user_mode: bool) -> bool {
        match self.tasks@[self.current_index as int].kind {
            TaskKind::Kernel => true,
            TaskKind::User(runtime) => interrupted_user_mode && runtime.interrupt_frame_recorded,
        }
    }

    /// Return whether the timer may switch away from the running task.
    pub fn can_switch_current_task_away(&self, interrupted_user_mode: bool) -> (r: bool)
        requires
            self.wf(),
        ensures
            r == self.spec_can_switch_away(interrupted_user_mode),
    {
        match self.tasks[self.current_index].kind {
            TaskKind::Kernel => true,
            TaskKind::User(runtime) => interrupted_user_mode && runtime.interrupt_frame_recorded,
        }
    }

    /// The address space of task `index` that may be entered: a user
    /// task's, unless it is being reclaimed.
    pub open spec fn spec_user_address_space(&self, index: int) -> Option<PhysicalFrameStart> {
        match self.tasks@[index].kind {
            TaskKind::User(runtime) => if runtime.address_space_reclaiming {
                None
            } else {
                runtime.address_space_root
            },
            TaskKind::Kernel => None,
        }
    }

    /// Return the address space of task `index` that may be entered.
    pub fn user_address_space(&self, index: usize) -> (r: Option<PhysicalFrameStart>)
        requires
            self.wf(),
            index < self.tasks@.len(),
        ensures
            r == self.spec_user_address_space(index as int),
    {
        match self.tasks[index].kind {
            TaskKind::User(runtime) => {
                if runtime.address_space_reclaiming {
                    return None;
                }
                runtime.address_space_root
            },
            TaskKind::Kernel => None,
        }
    }

    /// Return the running task's address space that may be entered.
    pub fn current_user_address_space(&self) -> (r: Option<PhysicalFrameStart>)
        requires
            self.wf(),
        ensures
            r == self.spec_user_address_space(self.current_index as int),
    {
        self.user_address_space(self.current_index)
    }

    /// Record the trap frame of the running user task captured on `source`:
    /// it becomes the frame the task resumes with, the record count goes up
    /// by one, saturating, and the source is marked recorded. Nothing
    /// changes for a kernel task.
    pub fn record_current_user_trap_frame(&mut self, trap_frame: UserTrapFrame, source: UserTrapFrameSource)
        requires
            old(self).wf(),
        ensures
            final(self).wf(),
            !old(self).tasks@[old(self).current_index as int].is_user() ==> old(self).spec_unchanged(final(self)),
            old(self).tasks@[old(self).current_index as int].is_user() ==> old(self).spec_current_runtime_becomes(
                final(self),
                UserTaskRuntime {
                    saved_frame: trap_frame,
                    runtime_trap_frame_record_count: saturating_next(
                        old(self).current_runtime().runtime_trap_frame_record_count,
                    ),
                    syscall_frame_recorded: old(self).current_runtime().syscall_frame_recorded || source
                        == UserTrapFrameSource::Syscall,
                    interrupt_frame_recorded: old(self).current_runtime().interrupt_frame_recorded || source
                        == UserTrapFrameSource::TimerInterrupt,
                    ..old(self).current_runtime()
                },
            ),
    {
        let task = self.tasks[self.current_index];
        let runtime = match task.kind {
            TaskKind::User(runtime) => runtime,
            TaskKind::Kernel => return,
        };
        let mut updated = UserTaskRuntime {
            saved_frame: trap_frame,
            runtime_trap_frame_record_count: saturating_increment(runtime.runtime_trap_frame_record_count),
            ..runtime
        };
        match source {
            UserTrapFrameSource::Syscall => updated.syscall_frame_recorded = true,
            UserTrapFrameSource::TimerInterrupt => updated.interrupt_frame_recorded = true,
        }
        self.set_current_runtime(updated);
    }

    /// Count a check of the scheduler's transition invariants and report
    /// that they hold, which the invariant `wf` guarantees.
    pub fn verify_transition_invariants(&mut self) -> (r: bool)
        requires
            old(self).wf(),
        ensures
            final(self).wf(),
            r,
            final(self).counters == (SchedulerCounters {
                transition_invariant_check_count: saturating_next(old(self).counters.transition_invariant_check_count),
                ..old(self).counters
            }),
            final(self).tasks@ == old(self).tasks@,
            final(self).current_index == old(self).current_index,
            final(self).next_task_identifier == old(self).next_task_identifier,
            final(self).active_user_task_identifiers@ == old(self).active_user_task_identifiers@,
            final(self).child_exit_records@ == old(self).child_exit_records@,
            final(self).finished_user_exits@ == old(self).finished_user_exits@,
            final(self).current_timer_quantum_ticks == old(self).current_timer_quantum_ticks,
    {
        self.counters.transition_invariant_check_count = saturating_increment(
            self.counters.transition_invariant_check_count,
        );
        true
    }
}

/// What the hardware side does for a timer switch.
#[derive(Clone, Copy, Debug)]
pub enum SwitchDecision {
    /// Switch kernel contexts from task `current_index` to task
    /// `next_index`; a user task resumed this way runs in the address space
    /// rooted at `next_user_address_space`.
    SwitchKernel { current_index: usize, next_index: usize, next_user_address_space: Option<PhysicalFrameStart> },
    /// Save the kernel context of task `current_index` and enter user task
    /// `task_id` for the first time with `trap_frame` in the address space
    /// rooted at `address_space`.
    EnterUser { current_index: usize, task_id: u64, trap_frame: UserTrapFrame, address_space: PhysicalFrameStart },
}

/// A first entry into a user task through the one-shot path.
#[derive(Clone, Copy, Debug)]
pub struct OneShotUserEntry {
    /// The frame the task starts with.
    pub trap_frame: UserTrapFrame,
    /// Root of the task's address space.
    pub address_space: PhysicalFrameStart,
    /// Top of the kernel stack installed for the task, if it has one.
    pub kernel_stack_top: Option<u64>,
}

impl Scheduler {
    /// Whether the one-shot path may enter user task `task_id`: a ready
    /// user task with a schedulable address space, while the running task
    /// is running.
    pub open spec fn spec_one_shot_accepted(&self, task_id: u64) -> bool {
        &&& task_id < self.tasks@.len()
        &&& self.tasks@[task_id as int].is_user()
        &&& self.tasks@[task_id as int].runtime().spec_has_schedulable_address_space()
        &&& self.tasks@[task_id as int].state == TaskState::Ready
        &&& self.tasks@[self.current_index as int].state == TaskState::Running
    }

    /// Enter user task `task_id` through the one-shot path: the running
    /// task blocks, the user task runs with a cleared kernel context,
    /// becomes the running task and is activated, and the entry is counted.
    /// The task records the handoff along the lifecycle path on the kernel
    /// stack `kernel_stacks` holds for it (see `resumed_runtime`).
    /// Refused, changing nothing, unless `spec_one_shot_accepted`.
    pub fn prepare_one_shot_user_task(&mut self, task_id: u64, kernel_stacks: &TaskKernelStacks) -> (r: Option<OneShotUserEntry>)
        requires
            old(self).wf(),
        ensures
            final(self).wf(),
            r is Some <==> old(self).spec_one_shot_accepted(task_id),
            r is None ==> old(self).spec_unchanged(final(self)),
            r matches Some(entry) ==> {
                let target = task_id as int;
                let current = old(self).current_index as int;
                let runtime = old(self).tasks@[target].runtime();
                let stack_top = kernel_stack_top_of(kernel_stacks@, target);
                &&& entry.trap_frame == runtime.saved_frame
                &&& Some(entry.address_space) == runtime.address_space_root
                &&& entry.kernel_stack_top == stack_top
                &&& final(self).tasks@ == old(self).tasks@.update(
                    current,
                    Task { state: TaskState::Blocked, ..old(self).tasks@[current] },
                ).update(
                    target,
                    Task {
                        state: TaskState::Running,
                        context: TaskContext::spec_new(),
                        kind: resumed_kind(
                            old(self).tasks@[target].kind,
                            UserResumePathDiagnostics::LifecycleEntry,
                            stack_top,
                        ),
                        ..old(self).tasks@[target]
                    },
                )
                &&& final(self).current_index == task_id
                &&& final(self).current_timer_quantum_ticks == 0
                &&& final(self).active_user_task_identifiers@ == if old(self).spec_is_active(task_id) {
                    old(self).active_user_task_identifiers@
                } else {
                    old(self).active_user_task_identifiers@.push(task_id)
                }
                &&& final(self).counters == (SchedulerCounters {
                    user_entry_count: saturating_next(old(self).counters.user_entry_count),
                    one_shot_user_entry_count: saturating_next(old(self).counters.one_shot_user_entry_count),
                    ..old(self).counters
                })
                &&& final(self).next_task_identifier == old(self).next_task_identifier
                &&& final(self).child_exit_records@ == old(self).child_exit_records@
                &&& final(self).finished_user_exits@ == old(self).finished_user_exits@
            },
    {
        let target_index = match self.get_task_index(task_id) {
            Some(index) => index,
            None => return None,
        };
        let target = self.tasks[target_index];
        let runtime = match target.kind {
            TaskKind::User(runtime) => runtime,
            TaskKind::Kernel => return None,
        };
        if !runtime.has_schedulable_address_space() {
            return None;
        }
        let address_space = match runtime.address_space_root {
            Some(root) => root,
            None => return None,
        };
        if !target.state.is_ready() {
            return None;
        }
        let current_index = self.current_index;
        let current = self.tasks[current_index];
        let mut current_state = current.state;
        if !current_state.prepare_to_block() {
            return None;
        }
        proof {
            assert(target_index != current_index);
        }
        self.activate_user_task(task_id);
        let blocked = Task { state: current_state, ..current };
        proof {
            assert forall|m: int|
                0 <= m < self.child_exit_records@.len()
                    && (#[trigger] self.child_exit_records@[m]).child_task_id == current_index implies blocked.metadata@.2
                == self.tasks@[current_index as int].metadata@.2 by {}
            assert(self.tasks@[current_index as int].spec_id() == current_index);
            lemma_task_update_keeps_wf(
                self.tasks@,
                self.current_index as int,
                self.next_task_identifier@ as int,
                self.active_user_task_identifiers@,
                self.child_exit_records@,
                current_index as int,
                blocked,
            );
        }
        self.tasks.set(current_index, blocked);
        let mut target_state = target.state;
        target_state.prepare_to_run();
        let mut context = target.context;
        context.clear();
        let kernel_stack_top = kernel_stacks.stack_top_address(target_index);
        let kind = resume_kind(target.kind, UserResumePathDiagnostics::LifecycleEntry, kernel_stack_top);
        let running = Task { state: target_state, context, kind, ..target };
        proof {
            assert(self.tasks@[target_index as int] == target);
            assert forall|m: int|
                0 <= m < self.child_exit_records@.len()
                    && (#[trigger] self.child_exit_records@[m]).child_task_id == target_index implies running.metadata@.2
                == self.tasks@[target_index as int].metadata@.2 by {}
            assert(self.tasks@[target_index as int].spec_id() == target_index);
            assert(self.active_user_task_identifiers@.contains(task_id)) by {
                if old(self).spec_is_active(task_id) {
                } else {
                    assert(self.active_user_task_identifiers@[self.active_user_task_identifiers@.len() - 1] == task_id);
                }
            }
            lemma_task_update_keeps_wf(
                self.tasks@,
                self.current_index as int,
                self.next_task_identifier@ as int,
                self.active_user_task_identifiers@,
                self.child_exit_records@,
                target_index as int,
                running,
            );
        }
        self.tasks.set(target_index, running);
        self.set_current_index(target_index);
        self.counters.user_entry_count = saturating_increment(self.counters.user_entry_count);
        self.counters.one_shot_user_entry_count = saturating_increment(self.counters.one_shot_user_entry_count);
        Some(OneShotUserEntry { trap_frame: runtime.saved_frame, address_space, kernel_stack_top })
    }
}

/// The counters after a timer switch: one more switch; one more timer
/// preemption when the preempted task is a user task; for a user task
/// entered for the first time one more entry and timer entry, and one more
/// entry from a preempted user task when a user task was preempted; for a
/// user task resumed through its kernel context one more resume.
pub open spec fn switch_counters(
    counters: SchedulerCounters,
    preempted_user: bool,
    next_user: bool,
    next_fresh: bool,
) -> SchedulerCounters {
    SchedulerCounters {
        context_switch_count: saturating_next(counters.context_switch_count),
        timer_preemption_count: if preempted_user {
            saturating_next(counters.timer_preemption_count)
        } else {
            counters.timer_preemption_count
        },
        user_entry_count: if next_user && next_fresh {
            saturating_next(counters.user_entry_count)
        } else {
            counters.user_entry_count
        },
        timer_user_entry_count: if next_user && next_fresh {
            saturating_next(counters.timer_user_entry_count)
        } else {
            counters.timer_user_entry_count
        },
        timer_user_entry_from_preempted_user_count: if next_user && next_fresh && preempted_user {
            saturating_next(counters.timer_user_entry_from_preempted_user_count)
        } else {
            counters.timer_user_entry_from_preempted_user_count
        },
        user_resume_count: if next_user && !next_fresh {
            saturating_next(counters.user_resume_count)
        } else {
            counters.user_resume_count
        },
        ..counters
    }
}

impl Scheduler {
    /// `after` is `self` with only the running task's timer quantum set to
    /// `ticks`.
    pub open spec fn spec_only_quantum(&self, after: &Scheduler, ticks: u64) -> bool {
        &&& after.tasks@ == self.tasks@
        &&& after.current_index == self.current_index
        &&& after.next_task_identifier == self.next_task_identifier
        &&& after.active_user_task_identifiers@ == self.active_user_task_identifiers@
        &&& after.child_exit_records@ == self.child_exit_records@
        &&& after.finished_user_exits@ == self.finished_user_exits@
        &&& after.current_timer_quantum_ticks == ticks
        &&& after.counters == self.counters
    }

    /// Whether a timer tick with `quantum_ticks` per quantum switches
    /// tasks: the running task may be switched away from, its quantum is
    /// used up, it is running, and another task is picked.
    pub open spec fn spec_switches(&self, interrupted_user_mode: bool, quantum_ticks: u64) -> bool {
        let current = self.current_index as int;
        &&& self.spec_can_switch_away(interrupted_user_mode)
        &&& saturating_next(self.current_timer_quantum_ticks) >= quantum_ticks
        &&& self.spec_next_ready_index(current) matches Some(next) && next != current
        &&& self.tasks@[current].state == TaskState::Running
    }

    /// Account a timer tick for the running task and, once its quantum of
    /// `quantum_ticks` ticks is used up, switch to the task picked after it
    /// (see `spec_next_ready_index`): the running task becomes ready, the
    /// picked one running and current, and the switch is counted (see
    /// `switch_counters`). A preempted user task records the timer as the
    /// reason; a picked user task records the handoff, as a first entry or
    /// as a resume, on the kernel stack `kernel_stacks` holds for it (see
    /// `resumed_runtime`). Without a switch only the tick is counted, and
    /// not even that when the running task may not be switched away from.
    pub fn prepare_next_switch(
        &mut self,
        interrupted_user_mode: bool,
        quantum_ticks: u64,
        kernel_stacks: &TaskKernelStacks,
    ) -> (r: Option<SwitchDecision>)
        requires
            old(self).wf(),
        ensures
            final(self).wf(),
            r is Some <==> old(self).spec_switches(interrupted_user_mode, quantum_ticks),
            !old(self).spec_can_switch_away(interrupted_user_mode) ==> old(self).spec_unchanged(final(self)),
            old(self).spec_can_switch_away(interrupted_user_mode) && !old(self).spec_switches(
                interrupted_user_mode,
                quantum_ticks,
            ) ==> old(self).spec_only_quantum(final(self), saturating_next(old(self).current_timer_quantum_ticks)),
            r matches Some(decision) ==> {
                let current = old(self).current_index as int;
                let next = old(self).spec_next_ready_index(current)->0;
                let next_task = old(self).tasks@[next];
                let next_fresh = next_task.context.stack_pointer == 0;
                let path = if next_fresh {
                    UserResumePathDiagnostics::TimerEntry
                } else {
                    UserResumePathDiagnostics::TimerResume
                };
                &&& final(self).tasks@ == old(self).tasks@.update(
                    current,
                    Task {
                        state: TaskState::Ready,
                        kind: preempted_kind(old(self).tasks@[current].kind),
                        ..old(self).tasks@[current]
                    },
                ).update(
                    next,
                    Task {
                        state: TaskState::Running,
                        kind: resumed_kind(next_task.kind, path, kernel_stack_top_of(kernel_stacks@, next)),
                        ..next_task
                    },
                )
                &&& final(self).current_index == next
                &&& final(self).current_timer_quantum_ticks == 0
                &&& final(self).counters == switch_counters(
                    old(self).counters,
                    old(self).tasks@[current].is_user(),
                    next_task.is_user(),
                    next_fresh,
                )
                &&& final(self).next_task_identifier == old(self).next_task_identifier
                &&& final(self).active_user_task_identifiers@ == old(self).active_user_task_identifiers@
                &&& final(self).child_exit_records@ == old(self).child_exit_records@
                &&& final(self).finished_user_exits@ == old(self).finished_user_exits@
                &&& decision == if next_task.is_user() {
                    if next_fresh {
                        SwitchDecision::EnterUser {
                            current_index: current as usize,
                            task_id: next as u64,
                            trap_frame: next_task.runtime().saved_frame,
                            address_space: next_task.runtime().address_space_root->0,
                        }
                    } else {
                        SwitchDecision::SwitchKernel {
                            current_index: current as usize,
                            next_index: next as usize,
                            next_user_address_space: next_task.runtime().address_space_root,
                        }
                    }
                } else {
                    SwitchDecision::SwitchKernel {
                        current_index: current as usize,
                        next_index: next as usize,
                        next_user_address_space: None,
                    }
                }
            },
    {
        if !self.can_switch_current_task_away(interrupted_user_mode) {
            return None;
        }
        let current_index = self.current_index;
        let count = self.tasks.len();
        proof {
            law_picked_task_is_schedulable(self, current_index as int);
        }
        let picked = self.get_next_ready_index(current_index);
        self.current_timer_quantum_ticks = saturating_increment(self.current_timer_quantum_ticks);
        if self.current_timer_quantum_ticks < quantum_ticks {
            return None;
        }
        let next_index = match picked {
            Some(index) => index,
            None => return None,
        };
        proof {
            assert(old(self).spec_next_ready_index(current_index as int)->0 < count);
        }
        if next_index == current_index {
            return None;
        }
        let current = self.tasks[current_index];
        let mut current_state = current.state;
        if !current_state.prepare_to_wait() {
            return None;
        }
        let ghost before_switch = self.tasks@;
        let task_count = self.tasks.len();
        proof {
            let picked_index = old(self).spec_next_ready_index(current_index as int);
            assert(0 <= picked_index->0 < task_count);
            assert(next_index as int == picked_index->0);
            assert(old(self).spec_can_schedule(next_index as int));
            assert(self.tasks@ == old(self).tasks@);
            assert(self.active_user_task_identifiers@ == old(self).active_user_task_identifiers@);
            assert(self.spec_can_schedule(next_index as int));
        }
        let waiting = Task { state: current_state, kind: preempt_kind(current.kind), ..current };
        proof {
            assert forall|m: int|
                0 <= m < self.child_exit_records@.len()
                    && (#[trigger] self.child_exit_records@[m]).child_task_id == current_index implies waiting.metadata@.2
                == self.tasks@[current_index as int].metadata@.2 by {}
            assert(self.tasks@[current_index as int].spec_id() == current_index);
            lemma_task_update_keeps_wf(
                self.tasks@,
                self.current_index as int,
                self.next_task_identifier@ as int,
                self.active_user_task_identifiers@,
                self.child_exit_records@,
                current_index as int,
                waiting,
            );
        }
        self.tasks.set(current_index, waiting);
        let next = self.tasks[next_index];
        let mut next_state = next.state;
        next_state.prepare_to_run();
        let path = if next.context.is_empty() {
            UserResumePathDiagnostics::TimerEntry
        } else {
            UserResumePathDiagnostics::TimerResume
        };
        let kind = resume_kind(next.kind, path, kernel_stacks.stack_top_address(next_index));
        let running = Task { state: next_state, kind, ..next };
        proof {
            assert(next == before_switch[next_index as int]);
            assert forall|m: int|
                0 <= m < self.child_exit_records@.len()
                    && (#[trigger] self.child_exit_records@[m]).child_task_id == next_index implies running.metadata@.2
                == self.tasks@[next_index as int].metadata@.2 by {}
            assert(self.tasks@[next_index as int].spec_id() == next_index);
            lemma_task_update_keeps_wf(
                self.tasks@,
                self.current_index as int,
                self.next_task_identifier@ as int,
                self.active_user_task_identifiers@,
                self.child_exit_records@,
                next_index as int,
                running,
            );
        }
        self.tasks.set(next_index, running);
        self.set_current_index(next_index);
        let preempted_user = match current.kind {
            TaskKind::User(_) => true,
            TaskKind::Kernel => false,
        };
        self.counters.context_switch_count = saturating_increment(self.counters.context_switch_count);
        if preempted_user {
            self.counters.timer_preemption_count = saturating_increment(self.counters.timer_preemption_count);
        }
        match next.kind {
            TaskKind::User(runtime) => {
                let address_space = match runtime.address_space_root {
                    Some(root) => root,
                    None => return None,
                };
                if next.context.is_empty() {
                    self.counters.user_entry_count = saturating_increment(self.counters.user_entry_count);
                    self.counters.timer_user_entry_count = saturating_increment(
                        self.counters.timer_user_entry_count,
                    );
                    if preempted_user {
                        self.counters.timer_user_entry_from_preempted_user_count = saturating_increment(
                            self.counters.timer_user_entry_from_preempted_user_count,
                        );
                    }
                    Some(
                        SwitchDecision::EnterUser {
                            current_index,
                            task_id: next.get_id(),
                            trap_frame: runtime.saved_frame,
                            address_space,
                        },
                    )
                } else {
                    self.counters.user_resume_count = saturating_increment(self.counters.user_resume_count);
                    Some(
                        SwitchDecision::SwitchKernel {
                            current_index,
                            next_index,
                            next_user_address_space: Some(address_space),
                        },
                    )
                }
            },
            TaskKind::Kernel => Some(
                SwitchDecision::SwitchKernel { current_index, next_index, next_user_address_space: None },
            ),
        }
    }
}

/// Add `amount` to a counter, stopping at the largest value.
pub fn saturating_add_to(count: u64, amount: u64) -> (r: u64)
    ensures
        r == saturating_sum(count, amount),
{
    count.saturating_add(amount)
}

impl Scheduler {
    /// Replace the image of the running user task: it gets the address
    /// space rooted at `address_space_root`, starts again from `trap_frame`
    /// with a fresh heap at `heap_start`, loses every wait and recorded
    /// frame, and its kernel context is cleared; return its identifier and
    /// the root of the address space it gave up. Refused, changing nothing,
    /// unless the running task is a running user task with an address
    /// space.
    pub fn replace_current_user_image(
        &mut self,
        address_space_root: PhysicalFrameStart,
        trap_frame: UserTrapFrame,
        heap_start: UserVirtualAddress,
        image_path: &str,
    ) -> (r: Option<(u64, PhysicalFrameStart)>)
        requires
            old(self).wf(),
            heap_start@ % 4096 == 0,
            heap_start@ < USER_HEAP_END,
        ensures
            final(self).wf(),
            r is Some <==> old(self).spec_current_user_running(),
            r is None ==> old(self).spec_unchanged(final(self)),
            r matches Some((task_id, old_root)) ==> {
                let current = old(self).current_index as int;
                let runtime = final(self).current_runtime();
                &&& task_id == current
                &&& Some(old_root) == old(self).current_runtime().address_space_root
                &&& final(self).tasks@.len() == old(self).tasks@.len()
                &&& forall|i: int| 0 <= i < old(self).tasks@.len() && i != current ==> final(self).tasks@[i] == old(self).tasks@[i]
                &&& final(self).tasks@[current].metadata == old(self).tasks@[current].metadata
                &&& final(self).tasks@[current].state == TaskState::Running
                &&& final(self).tasks@[current].context == TaskContext::spec_new()
                &&& final(self).tasks@[current].is_user()
                &&& runtime.address_space_root == Some(address_space_root)
                &&& runtime.saved_frame == trap_frame
                &&& runtime.image.spec_view() == replaced_image_view(
                    old(self).current_runtime().image.spec_view(),
                    image_path.spec_bytes(),
                )
                &&& runtime.heap.parts() == (heap_start@, heap_start@, heap_start@)
                &&& runtime.mapping_statistics == no_mapping_statistics()
                &&& runtime.sleep_wake_tick is None
                &&& runtime.waitpid_request is None
                &&& runtime.waitpid_completion is None
                &&& runtime.read_request is None
                &&& !runtime.syscall_frame_recorded
                &&& !runtime.interrupt_frame_recorded
                &&& runtime.runtime_trap_frame_record_count == 0
                &&& !runtime.address_space_reclaiming
                &&& runtime.restored_user_trap_frame_bytes == 0
                &&& runtime.runtime_trap_frame_restore_count == 0
                &&& runtime.last_preemption_reason == old(self).current_runtime().last_preemption_reason
                &&& runtime.last_resume_path == old(self).current_runtime().last_resume_path
                &&& runtime.resume_handoff_count == 0
                &&& runtime.last_resume_address_space_root is None
                &&& runtime.last_resume_kernel_stack_top is None
                &&& final(self).current_index == old(self).current_index
                &&& final(self).next_task_identifier == old(self).next_task_identifier
                &&& final(self).active_user_task_identifiers@ == old(self).active_user_task_identifiers@
                &&& final(self).child_exit_records@ == old(self).child_exit_records@
                &&& final(self).finished_user_exits@ == old(self).finished_user_exits@
                &&& final(self).current_timer_quantum_ticks == old(self).current_timer_quantum_ticks
                &&& final(self).counters == old(self).counters
            },
    {
        let index = self.current_index;
        let task = self.tasks[index];
        let task_id = task.get_id();
        if task.state != TaskState::Running {
            return None;
        }
        let runtime = match task.kind {
            TaskKind::User(runtime) => runtime,
            TaskKind::Kernel => return None,
        };
        let old_root = match runtime.address_space_root {
            Some(root) => root,
            None => return None,
        };
        let mut image = runtime.image;
        image.replace_with_path(image_path);
        let replaced = UserTaskRuntime {
            address_space_root: Some(address_space_root),
            saved_frame: trap_frame,
            image,
            heap: UserHeap::new(heap_start),
            mapping_statistics: UserMappingStatistics::new(),
            sleep_wake_tick: None,
            waitpid_request: None,
            waitpid_completion: None,
            read_request: None,
            syscall_frame_recorded: false,
            interrupt_frame_recorded: false,
            runtime_trap_frame_record_count: 0,
            address_space_reclaiming: false,
            restored_user_trap_frame_bytes: 0,
            runtime_trap_frame_restore_count: 0,
            resume_handoff_count: 0,
            last_resume_address_space_root: None,
            last_resume_kernel_stack_top: None,
            ..runtime
        };
        let mut context = task.context;
        context.clear();
        let updated = Task { kind: TaskKind::User(replaced), context, ..task };
        proof {
            assert(self.tasks@[index as int].is_user());
            assert forall|m: int|
                0 <= m < self.child_exit_records@.len()
                    && (#[trigger] self.child_exit_records@[m]).child_task_id == index implies updated.metadata@.2
                == self.tasks@[index as int].metadata@.2 by {}
            assert(self.tasks@[index as int].spec_id() == index);
            lemma_task_update_keeps_wf(
                self.tasks@,
                self.current_index as int,
                self.next_task_identifier@ as int,
                self.active_user_task_identifiers@,
                self.child_exit_records@,
                index as int,
                updated,
            );
        }
        self.tasks.set(index, updated);
        Some((task_id, old_root))
    }

    /// Whether the address space of task `task_id` may start being
    /// reclaimed: a finished user task that still owns one and is not
    /// already reclaiming it.
    pub open spec fn spec_reclaim_accepted(&self, task_id: u64) -> bool {
        &&& task_id < self.tasks@.len()
        &&& self.tasks@[task_id as int].is_user()
        &&& self.tasks@[task_id as int].state == TaskState::Finished
        &&& self.tasks@[task_id as int].runtime().address_space_root is Some
        &&& !self.tasks@[task_id as int].runtime().address_space_reclaiming
    }

    /// Start reclaiming the address space of finished user task `task_id`:
    /// mark it reclaiming, so that the task cannot be picked or entered,
    /// count the guard check, and return the root to tear down. `None`,
    /// changing nothing, unless `spec_reclaim_accepted`.
    pub fn begin_finished_user_address_space_reclaim(&mut self, task_id: u64) -> (r: Option<PhysicalFrameStart>)
        requires
            old(self).wf(),
        ensures
            final(self).wf(),
            r is Some <==> old(self).spec_reclaim_accepted(task_id),
            r is None ==> old(self).spec_unchanged(final(self)),
            r matches Some(root) ==> {
                let task = old(self).tasks@[task_id as int];
                &&& Some(root) == task.runtime().address_space_root
                &&& final(self).tasks@ == old(self).tasks@.update(
                    task_id as int,
                    with_runtime(task, UserTaskRuntime { address_space_reclaiming: true, ..task.runtime() }),
                )
                &&& !final(self).spec_can_schedule(task_id as int)
                &&& final(self).spec_user_address_space(task_id as int) is None
                &&& final(self).counters == (SchedulerCounters {
                    address_space_reclaim_guard_check_count: saturating_next(
                        old(self).counters.address_space_reclaim_guard_check_count,
                    ),
                    ..old(self).counters
                })
                &&& final(self).current_index == old(self).current_index
                &&& final(self).next_task_identifier == old(self).next_task_identifier
                &&& final(self).active_user_task_identifiers@ == old(self).active_user_task_identifiers@
                &&& final(self).child_exit_records@ == old(self).child_exit_records@
                &&& final(self).finished_user_exits@ == old(self).finished_user_exits@
                &&& final(self).current_timer_quantum_ticks == old(self).current_timer_quantum_ticks
            },
    {
        let index = match self.get_task_index(task_id) {
            Some(index) => index,
            None => return None,
        };
        let task = self.tasks[index];
        if task.state != TaskState::Finished {
            return None;
        }
        let runtime = match task.kind {
            TaskKind::User(runtime) => runtime,
            TaskKind::Kernel => return None,
        };
        let root = match runtime.address_space_root {
            Some(root) => root,
            None => return None,
        };
        if runtime.address_space_reclaiming {
            return None;
        }
        let updated = Task {
            kind: TaskKind::User(UserTaskRuntime { address_space_reclaiming: true, ..runtime }),
            ..task
        };
        proof {
            assert forall|m: int|
                0 <= m < self.child_exit_records@.len()
                    && (#[trigger] self.child_exit_records@[m]).child_task_id == index implies updated.metadata@.2
                == self.tasks@[index as int].metadata@.2 by {}
            assert(self.tasks@[index as int].spec_id() == index);
            assert(self.tasks@[index as int].is_user());
            assert(!self.spec_is_active(task_id));
            assert forall|j: int|
                0 <= j < self.active_user_task_identifiers@.len() implies #[trigger] self.active_user_task_identifiers@[j]
                != task_id by {
                let id = self.active_user_task_identifiers@[j];
                assert(self.tasks@[id as int].state != TaskState::Finished);
            }
        }
        self.tasks.set(index, updated);
        proof {
            let tasks = self.tasks@;
            let old_tasks = old(self).tasks@;
            let active = self.active_user_task_identifiers@;
            assert forall|i: int| 0 <= i < tasks.len() implies #[trigger] tasks[i].spec_id() == i
                && (0 < i ==> (tasks[i].metadata@.1 matches Some(p) && p < i)) by {
                assert(old_tasks[i].spec_id() == i);
                if 0 < i {
                    assert(old_tasks[i].metadata@.1 matches Some(p) && p < i);
                }
            }
            assert(self.identity_wf());
            assert forall|i: int| 0 <= i < tasks.len() && #[trigger] tasks[i].state != TaskState::Finished
                implies tasks[i].metadata@.2 is None by {
                assert(old_tasks[i].state != TaskState::Finished);
            }
            assert forall|j: int| 0 <= j < self.child_exit_records@.len() implies {
                let record = #[trigger] self.child_exit_records@[j];
                &&& record.child_task_id < tasks.len()
                &&& tasks[record.child_task_id as int].is_user()
                &&& tasks[record.child_task_id as int].metadata@.2 == Some((record.exit_code, record.collected))
            } by {
                let record = self.child_exit_records@[j];
                assert(old_tasks[record.child_task_id as int].is_user());
            }
            assert(self.exit_wf());
            assert forall|j: int| 0 <= j < active.len() implies {
                let id = #[trigger] active[j];
                &&& id < tasks.len()
                &&& tasks[id as int].is_user()
                &&& tasks[id as int].state != TaskState::Finished
                &&& tasks[id as int].runtime().spec_has_schedulable_address_space()
            } by {
                let id = active[j];
                assert(id != task_id);
            }
            assert forall|i: int| 0 <= i < tasks.len() && (#[trigger] tasks[i]).is_user() implies {
                let task = tasks[i];
                &&& task.state == TaskState::Running ==> active.contains(i as u64)
                &&& task.state == TaskState::Finished ==> !active.contains(i as u64)
                &&& task.runtime().address_space_reclaiming ==> task.state == TaskState::Finished
                    && task.runtime().address_space_root is Some
                &&& task.runtime().address_space_root is None ==> !active.contains(i as u64)
            } by {
                assert(old_tasks[i].is_user());
            }
            assert(self.lifecycle_wf());
        }
        self.counters.address_space_reclaim_guard_check_count = saturating_increment(
            self.counters.address_space_reclaim_guard_check_count,
        );
        Some(root)
    }

    /// Finish reclaiming the address space of task `task_id`, torn down with
    /// `user_pages` user pages and `page_table_pages` page-table pages: the
    /// task no longer owns an address space and the reclaim is counted.
    /// Refused, changing nothing, unless the task is reclaiming one.
    pub fn finish_finished_user_address_space_reclaim(&mut self, task_id: u64, user_pages: u64, page_table_pages: u64) -> (r: bool)
        requires
            old(self).wf(),
        ensures
            final(self).wf(),
            r == (task_id < old(self).tasks@.len() && old(self).tasks@[task_id as int].is_user()
                && old(self).tasks@[task_id as int].runtime().address_space_reclaiming),
            !r ==> old(self).spec_unchanged(final(self)),
            r ==> {
                let task = old(self).tasks@[task_id as int];
                &&& final(self).tasks@ == old(self).tasks@.update(
                    task_id as int,
                    with_runtime(
                        task,
                        UserTaskRuntime {
                            address_space_root: None,
                            address_space_reclaiming: false,
                            ..task.runtime()
                        },
                    ),
                )
                &&& final(self).counters == (SchedulerCounters {
                    reclaimed_user_address_space_count: saturating_next(
                        old(self).counters.reclaimed_user_address_space_count,
                    ),
                    reclaimed_user_page_count: saturating_sum(old(self).counters.reclaimed_user_page_count, user_pages),
                    reclaimed_user_page_table_page_count: saturating_sum(
                        old(self).counters.reclaimed_user_page_table_page_count,
                        page_table_pages,
                    ),
                    ..old(self).counters
                })
                &&& final(self).current_index == old(self).current_index
                &&& final(self).next_task_identifier == old(self).next_task_identifier
                &&& final(self).active_user_task_identifiers@ == old(self).active_user_task_identifiers@
                &&& final(self).child_exit_records@ == old(self).child_exit_records@
                &&& final(self).finished_user_exits@ == old(self).finished_user_exits@
                &&& final(self).current_timer_quantum_ticks == old(self).current_timer_quantum_ticks
            },
    {
        let index = match self.get_task_index(task_id) {
            Some(index) => index,
            None => return false,
        };
        let task = self.tasks[index];
        let runtime = match task.kind {
            TaskKind::User(runtime) => runtime,
            TaskKind::Kernel => return false,
        };
        if !runtime.address_space_reclaiming {
            return false;
        }
        let updated = Task {
            kind: TaskKind::User(
                UserTaskRuntime { address_space_root: None, address_space_reclaiming: false, ..runtime },
            ),
            ..task
        };
        proof {
            assert(self.tasks@[index as int].is_user());
            assert(!self.spec_is_active(task_id));
        }
        self.tasks.set(index, updated);
        proof {
            let tasks = self.tasks@;
            let old_tasks = old(self).tasks@;
            let active = self.active_user_task_identifiers@;
            assert forall|j: int| 0 <= j < active.len() implies #[trigger] active[j] != task_id by {
                assert(active.contains(active[j]));
            }
            assert forall|i: int| 0 <= i < tasks.len() implies #[trigger] tasks[i].spec_id() == i
                && (0 < i ==> (tasks[i].metadata@.1 matches Some(p) && p < i)) by {
                assert(old_tasks[i].spec_id() == i);
                if 0 < i {
                    assert(old_tasks[i].metadata@.1 matches Some(p) && p < i);
                }
            }
            assert(self.identity_wf());
            assert forall|i: int| 0 <= i < tasks.len() && #[trigger] tasks[i].state != TaskState::Finished
                implies tasks[i].metadata@.2 is None by {
                assert(old_tasks[i].state != TaskState::Finished);
            }
            assert forall|j: int| 0 <= j < self.child_exit_records@.len() implies {
                let record = #[trigger] self.child_exit_records@[j];
                &&& record.child_task_id < tasks.len()
                &&& tasks[record.child_task_id as int].is_user()
                &&& tasks[record.child_task_id as int].metadata@.2 == Some((record.exit_code, record.collected))
            } by {
                let record = self.child_exit_records@[j];
                assert(old_tasks[record.child_task_id as int].is_user());
            }
            assert(self.exit_wf());
            assert forall|j: int| 0 <= j < active.len() implies {
                let id = #[trigger] active[j];
                &&& id < tasks.len()
                &&& tasks[id as int].is_user()
                &&& tasks[id as int].state != TaskState::Finished
                &&& tasks[id as int].runtime().spec_has_schedulable_address_space()
            } by {
                let id = active[j];
                assert(id != task_id);
            }
            assert forall|i: int| 0 <= i < tasks.len() && (#[trigger] tasks[i]).is_user() implies {
                let task = tasks[i];
                &&& task.state == TaskState::Running ==> active.contains(i as u64)
                &&& task.state == TaskState::Finished ==> !active.contains(i as u64)
                &&& task.runtime().address_space_reclaiming ==> task.state == TaskState::Finished
                    && task.runtime().address_space_root is Some
                &&& task.runtime().address_space_root is None ==> !active.contains(i as u64)
            } by {
                assert(old_tasks[i].is_user());
            }
            assert(self.lifecycle_wf());
        }
        self.counters.reclaimed_user_address_space_count = saturating_increment(
            self.counters.reclaimed_user_address_space_count,
        );
        self.counters.reclaimed_user_page_count = saturating_add_to(self.counters.reclaimed_user_page_count, user_pages);
        self.counters.reclaimed_user_page_table_page_count = saturating_add_to(
            self.counters.reclaimed_user_page_table_page_count,
            page_table_pages,
        );
        true
    }
}

/// A collected child exit cannot be collected again: once a parent
/// collected the exit of a given child, no retained exit of that child
/// waits for the parent any more.
pub proof fn law_child_exit_collected_once(
    before: &Scheduler,
    after: &Scheduler,
    parent_task_id: u64,
    child_task_id: u64,
    j: int,
    exit: UserTaskExit,
)
    requires
        before.wf(),
        before.spec_first_waitable(parent_task_id, Some(child_task_id), j),
        collected_record_at(before, after, j, exit),
    ensures
        !after.spec_has_waitable(parent_task_id, Some(child_task_id)),
{
    if after.spec_has_waitable(parent_task_id, Some(child_task_id)) {
        let k = choose|k: int|
            0 <= k < after.child_exit_records@.len()
                && (#[trigger] after.child_exit_records@[k]).spec_waitable_for_parent(
                parent_task_id,
                Some(child_task_id),
            );
        assert(k != j);
        if k < j {
            assert(before.child_exit_records@[k].child_task_id != before.child_exit_records@[j].child_task_id);
        } else {
            assert(before.child_exit_records@[j].child_task_id != before.child_exit_records@[k].child_task_id);
        }
    }
}

/// A finished task is never picked: no finished task may be scheduled, and
/// the task picked after any task is one that may be scheduled, other than
/// a finished one.
pub proof fn law_picked_task_is_schedulable(scheduler: &Scheduler, current: int)
    requires
        scheduler.wf(),
        0 <= current < scheduler.tasks@.len(),
    ensures
        forall|i: int|
            0 <= i < scheduler.tasks@.len() && scheduler.tasks@[i].state == TaskState::Finished
                ==> !#[trigger] scheduler.spec_can_schedule(i),
        scheduler.spec_next_ready_index(current) matches Some(next) ==> 0 <= next < scheduler.tasks@.len()
            && scheduler.spec_can_schedule(next) && scheduler.tasks@[next].state != TaskState::Finished,
{
    if scheduler.spec_next_ready_index(current) is Some {
        let len = scheduler.tasks@.len() as int;
        if scheduler.tasks@[current].kind is Kernel && exists|offset: int| scheduler.first_pick_offset(current, true, offset) {
            let offset = choose|offset: int| scheduler.first_pick_offset(current, true, offset);
            assert(scheduler.ring_pick(current, true, offset));
            assert(0 <= (current + offset) % len < len) by (nonlinear_arith)
                requires
                    len > 0,
            {}
        } else {
            let offset = choose|offset: int| scheduler.first_pick_offset(current, false, offset);
            assert(scheduler.ring_pick(current, false, offset));
            assert(0 <= (current + offset) % len < len) by (nonlinear_arith)
                requires
                    len > 0,
            {}
        }
    }
}

/// Whether timer-driven switching runs, and how often returns to lifecycle
/// code closed it.
#[derive(Clone, Copy, Debug)]
pub struct PreemptionControl {
    /// The current preemption state.
    pub state: PreemptionStateDiagnostics,
    /// Number of user returns that closed the preemption window, wrapping.
    pub user_return_window_closes: u64,
}

impl PreemptionControl {
    /// Preemption enabled, with no window closed yet.
    pub fn new() -> (r: Self)
        ensures
            r.state == PreemptionStateDiagnostics::Enabled,
            r.user_return_window_closes == 0,
    {
        Self { state: PreemptionStateDiagnostics::Enabled, user_return_window_closes: 0 }
    }

    /// Enable or disable timer-driven task switching.
    pub fn set_preemption_enabled(&mut self, enabled: bool)
        ensures
            final(self).state == if enabled {
                PreemptionStateDiagnostics::Enabled
            } else {
                PreemptionStateDiagnostics::Disabled
            },
            final(self).user_return_window_closes == old(self).user_return_window_closes,
    {
        self.state = if enabled {
            PreemptionStateDiagnostics::Enabled
        } else {
            PreemptionStateDiagnostics::Disabled
        };
    }

    /// Disable timer-driven task switching while task `task_id` returns to
    /// user lifecycle code, and count the close (wrapping).
    pub fn close_user_return_preemption_window(&mut self, task_id: u64)
        ensures
            final(self).state == PreemptionStateDiagnostics::UserReturn,
            final(self).user_return_window_closes == wrapping_next(old(self).user_return_window_closes),
    {
        self.state = PreemptionStateDiagnostics::UserReturn;
        self.user_return_window_closes = self.user_return_window_closes.wrapping_add(1);
    }

    /// Return whether timer-driven switching runs.
    pub fn is_enabled(&self) -> (r: bool)
        ensures
            r == (self.state == PreemptionStateDiagnostics::Enabled),
    {
        self.state.is_enabled()
    }
}

/// Add one, wrapping at the largest value.
pub open spec fn wrapping_next(count: u64) -> u64 {
    if count == u64::MAX {
        0
    } else {
        (count + 1) as u64
    }
}

/// The task populations the scheduler diagnostics count.
#[derive(Clone, Copy, Debug, PartialEq, Eq, Structural)]
pub enum TaskPopulation {
    /// Ready tasks.
    Ready,
    /// Running tasks.
    Running,
    /// Blocked tasks.
    Blocked,
    /// Finished tasks.
    Finished,
    /// Kernel tasks.
    Kernel,
    /// User tasks.
    User,
    /// User tasks that own an address space.
    UserWithAddressSpace,
    /// User tasks with a retained exit status.
    UserRetainedExit,
    /// User tasks whose exit waits for the parent.
    UserWaitableExit,
    /// User tasks whose exit the parent collected.
    UserCollectedExit,
}

/// Whether `task` belongs to `population`.
pub open spec fn in_population(task: Task, population: TaskPopulation) -> bool {
    match population {
        TaskPopulation::Ready => task.state == TaskState::Ready,
        TaskPopulation::Running => task.state == TaskState::Running,
        TaskPopulation::Blocked => task.state == TaskState::Blocked,
        TaskPopulation::Finished => task.state == TaskState::Finished,
        TaskPopulation::Kernel => !task.is_user(),
        TaskPopulation::User => task.is_user(),
        TaskPopulation::UserWithAddressSpace => task.is_user() && task.runtime().address_space_root is Some,
        TaskPopulation::UserRetainedExit => task.is_user() && task.metadata@.2 is Some,
        TaskPopulation::UserWaitableExit => task.is_user() && (task.metadata@.2 matches Some(status) && !status.1),
        TaskPopulation::UserCollectedExit => task.is_user() && (task.metadata@.2 matches Some(status) && status.1),
    }
}

/// Number of tasks of `tasks` in `population`.
pub open spec fn population_count(tasks: Seq<Task>, population: TaskPopulation) -> nat
    decreases tasks.len(),
{
    if tasks.len() == 0 {
        0
    } else {
        population_count(tasks.drop_last(), population) + if in_population(tasks.last(), population) {
            1nat
        } else {
            0nat
        }
    }
}

/// A population never outnumbers the tasks it is drawn from.
pub proof fn lemma_population_count_bounded(tasks: Seq<Task>, population: TaskPopulation)
    ensures
        population_count(tasks, population) <= tasks.len(),
    decreases tasks.len(),
{
    if tasks.len() > 0 {
        lemma_population_count_bounded(tasks.drop_last(), population);
    }
}

/// Every task is ready, running, blocked or finished, so the four state
/// populations add up to all tasks.
pub proof fn law_state_populations_cover_all_tasks(tasks: Seq<Task>)
    ensures
        population_count(tasks, TaskPopulation::Ready) + population_count(tasks, TaskPopulation::Running)
            + population_count(tasks, TaskPopulation::Blocked) + population_count(tasks, TaskPopulation::Finished)
            == tasks.len(),
        population_count(tasks, TaskPopulation::Kernel) + population_count(tasks, TaskPopulation::User)
            == tasks.len(),
    decreases tasks.len(),
{
    if tasks.len() > 0 {
        law_state_populations_cover_all_tasks(tasks.drop_last());
    }
}

impl Scheduler {
    /// Return the number of tasks in `population`.
    pub fn count_population(&self, population: TaskPopulation) -> (r: u64)
        requires
            self.wf(),
        ensures
            r == population_count(self.tasks@, population),
    {
        let mut count: u64 = 0;
        let mut index: usize = 0;
        while index < self.tasks.len()
            invariant
                self.wf(),
                index <= self.tasks@.len(),
                count == population_count(self.tasks@.take(index as int), population),
            decreases self.tasks@.len() - index,
        {
            let task = self.tasks[index];
            proof {
                let prefix = self.tasks@.take(index as int + 1);
                assert(prefix.drop_last() =~= self.tasks@.take(index as int));
                assert(prefix.last() == task);
                lemma_population_count_bounded(prefix, population);
            }
            let member = match population {
                TaskPopulation::Ready => task.state == TaskState::Ready,
                TaskPopulation::Running => task.state == TaskState::Running,
                TaskPopulation::Blocked => task.state == TaskState::Blocked,
                TaskPopulation::Finished => task.state == TaskState::Finished,
                TaskPopulation::Kernel => match task.kind {
                    TaskKind::Kernel => true,
                    TaskKind::User(_) => false,
                },
                TaskPopulation::User => match task.kind {
                    TaskKind::Kernel => false,
                    TaskKind::User(_) => true,
                },
                TaskPopulation::UserWithAddressSpace => match task.kind {
                    TaskKind::Kernel => false,
                    TaskKind::User(runtime) => runtime.address_space_root.is_some(),
                },
                TaskPopulation::UserRetainedExit => match task.kind {
                    TaskKind::Kernel => false,
                    TaskKind::User(_) => task.metadata.get_exit_code().is_some(),
                },
                TaskPopulation::UserWaitableExit => match task.kind {
                    TaskKind::Kernel => false,
                    TaskKind::User(_) => task.metadata.is_waitable(),
                },
                TaskPopulation::UserCollectedExit => match task.kind {
                    TaskKind::Kernel => false,
                    TaskKind::User(_) => task.metadata.wait_collected(),
                },
            };
            if member {
                count = count + 1;
            }
            index = index + 1;
        }
        proof {
            assert(self.tasks@.take(index as int) =~= self.tasks@);
        }
        count
    }

    /// Count a reclaimed user task kernel stack of `writable_pages`
    /// writable pages in `virtual_pages` reserved pages, saturating.
    pub fn record_user_kernel_stack_reclaim(&mut self, writable_pages: u64, virtual_pages: u64)
        requires
            old(self).wf(),
        ensures
            final(self).wf(),
            final(self).counters == (SchedulerCounters {
                reclaimed_user_kernel_stack_count: saturating_next(old(self).counters.reclaimed_user_kernel_stack_count),
                reclaimed_user_kernel_stack_writable_pages: saturating_sum(
                    old(self).counters.reclaimed_user_kernel_stack_writable_pages,
                    writable_pages,
                ),
                reclaimed_user_kernel_stack_virtual_pages: saturating_sum(
                    old(self).counters.reclaimed_user_kernel_stack_virtual_pages,
                    virtual_pages,
                ),
                ..old(self).counters
            }),
            final(self).tasks@ == old(self).tasks@,
            final(self).current_index == old(self).current_index,
            final(self).next_task_identifier == old(self).next_task_identifier,
            final(self).active_user_task_identifiers@ == old(self).active_user_task_identifiers@,
            final(self).child_exit_records@ == old(self).child_exit_records@,
            final(self).finished_user_exits@ == old(self).finished_user_exits@,
            final(self).current_timer_quantum_ticks == old(self).current_timer_quantum_ticks,
    {
        self.counters.reclaimed_user_kernel_stack_count = saturating_increment(
            self.counters.reclaimed_user_kernel_stack_count,
        );
        self.counters.reclaimed_user_kernel_stack_writable_pages = saturating_add_to(
            self.counters.reclaimed_user_kernel_stack_writable_pages,
            writable_pages,
        );
        self.counters.reclaimed_user_kernel_stack_virtual_pages = saturating_add_to(
            self.counters.reclaimed_user_kernel_stack_virtual_pages,
            virtual_pages,
        );
    }

    /// Count a reclaim pass of a finished user task, which is recorded when
    /// it released its address space or its kernel stack.
    pub fn record_user_resource_reclaim(&mut self, reclaimed_address_space: bool, reclaimed_kernel_stack: bool)
        requires
            old(self).wf(),
        ensures
            final(self).wf(),
            final(self).counters == if reclaimed_address_space || reclaimed_kernel_stack {
                SchedulerCounters {
                    reclaimed_user_resource_record_count: saturating_next(
                        old(self).counters.reclaimed_user_resource_record_count,
                    ),
                    ..old(self).counters
                }
            } else {
                old(self).counters
            },
            final(self).tasks@ == old(self).tasks@,
            final(self).current_index == old(self).current_index,
            final(self).next_task_identifier == old(self).next_task_identifier,
            final(self).active_user_task_identifiers@ == old(self).active_user_task_identifiers@,
            final(self).child_exit_records@ == old(self).child_exit_records@,
            final(self).finished_user_exits@ == old(self).finished_user_exits@,
            final(self).current_timer_quantum_ticks == old(self).current_timer_quantum_ticks,
    {
        if reclaimed_address_space || reclaimed_kernel_stack {
            self.counters.reclaimed_user_resource_record_count = saturating_increment(
                self.counters.reclaimed_user_resource_record_count,
            );
        }
    }

    /// Collect the scheduler diagnostics: task populations, the event
    /// counters, the preemption state from `preemption` and the return
    /// stack accounting of `window`.
    pub fn get_diagnostics(&self, preemption: &PreemptionControl, window: &UserReturnWindow) -> (r: SchedulerDiagnostics)
        requires
            self.wf(),
        ensures
            r.total_tasks == self.tasks@.len(),
            r.kernel_tasks == population_count(self.tasks@, TaskPopulation::Kernel),
            r.user_tasks == population_count(self.tasks@, TaskPopulation::User),
            r.active_user_tasks == self.active_user_task_identifiers@.len(),
            r.active_user_address_spaces == population_count(self.tasks@, TaskPopulation::UserWithAddressSpace),
            r.states.spec_ready() == population_count(self.tasks@, TaskPopulation::Ready),
            r.states.spec_running() == population_count(self.tasks@, TaskPopulation::Running),
            r.states.spec_blocked() == population_count(self.tasks@, TaskPopulation::Blocked),
            r.states.spec_finished() == population_count(self.tasks@, TaskPopulation::Finished),
            r.context_switches == self.counters.context_switch_count,
            r.timer_preemptions == self.counters.timer_preemption_count,
            r.user_entries == self.counters.user_entry_count,
            r.one_shot_user_entries == self.counters.one_shot_user_entry_count,
            r.timer_user_entries == self.counters.timer_user_entry_count,
            r.timer_user_entries_from_preempted_user == self.counters.timer_user_entry_from_preempted_user_count,
            r.user_resumes == self.counters.user_resume_count,
            r.user_sleep_blocks == self.counters.user_sleep_block_count,
            r.user_sleep_wakes == self.counters.user_sleep_wake_count,
            r.user_waitpid_blocks == self.counters.user_waitpid_block_count,
            r.user_waitpid_wakes == self.counters.user_waitpid_wake_count,
            r.user_read_blocks == self.counters.user_read_block_count,
            r.user_read_wakes == self.counters.user_read_wake_count,
            r.finished_tasks == self.counters.finished_task_count,
            r.pending_user_exits == self.finished_user_exits@.len(),
            r.retained_user_exit_statuses == population_count(self.tasks@, TaskPopulation::UserRetainedExit),
            r.waitable_user_exit_statuses == population_count(self.tasks@, TaskPopulation::UserWaitableExit),
            r.collected_user_exit_statuses == population_count(self.tasks@, TaskPopulation::UserCollectedExit),
            r.zombie_user_tasks == population_count(self.tasks@, TaskPopulation::UserWaitableExit),
            r.reaped_user_tasks == population_count(self.tasks@, TaskPopulation::UserCollectedExit),
            r.preemption_state == preemption.state,
            r.user_return_preemption_window_closes == preemption.user_return_window_closes,
            r.user_return_stack_sets == window.state().2,
            r.user_return_stack_takes == window.state().3,
            r.reclaimed_user_resource_records == self.counters.reclaimed_user_resource_record_count,
            r.reclaimed_user_address_spaces == self.counters.reclaimed_user_address_space_count,
            r.reclaimed_user_pages == self.counters.reclaimed_user_page_count,
            r.reclaimed_user_page_table_pages == self.counters.reclaimed_user_page_table_page_count,
            r.reclaimed_user_kernel_stacks == self.counters.reclaimed_user_kernel_stack_count,
            r.reclaimed_user_kernel_stack_writable_pages == self.counters.reclaimed_user_kernel_stack_writable_pages,
            r.reclaimed_user_kernel_stack_virtual_pages == self.counters.reclaimed_user_kernel_stack_virtual_pages,
            r.address_space_reclaim_guard_checks == self.counters.address_space_reclaim_guard_check_count,
            r.scheduler_transition_invariant_checks == self.counters.transition_invariant_check_count,
    {
        let waitable = self.count_population(TaskPopulation::UserWaitableExit);
        let collected = self.count_population(TaskPopulation::UserCollectedExit);
        let exit_count = self.finished_user_exits.len();
        let active_count = self.active_user_task_identifiers.len();
        proof {
            assert(self.tasks@.len() < u64::MAX);
            assert(exit_count <= u64::MAX) by {
                assert(usize::MAX <= u64::MAX);
            }
        }
        SchedulerDiagnostics {
            total_tasks: self.tasks.len() as u64,
            kernel_tasks: self.count_population(TaskPopulation::Kernel),
            user_tasks: self.count_population(TaskPopulation::User),
            active_user_tasks: active_count as u64,
            active_user_address_spaces: self.count_population(TaskPopulation::UserWithAddressSpace),
            states: TaskStateDiagnostics::new(
                self.count_population(TaskPopulation::Ready),
                self.count_population(TaskPopulation::Running),
                self.count_population(TaskPopulation::Blocked),
                self.count_population(TaskPopulation::Finished),
            ),
            context_switches: self.counters.context_switch_count,
            timer_preemptions: self.counters.timer_preemption_count,
            user_entries: self.counters.user_entry_count,
            one_shot_user_entries: self.counters.one_shot_user_entry_count,
            timer_user_entries: self.counters.timer_user_entry_count,
            timer_user_entries_from_preempted_user: self.counters.timer_user_entry_from_preempted_user_count,
            user_resumes: self.counters.user_resume_count,
            user_sleep_blocks: self.counters.user_sleep_block_count,
            user_sleep_wakes: self.counters.user_sleep_wake_count,
            user_waitpid_blocks: self.counters.user_waitpid_block_count,
            user_waitpid_wakes: self.counters.user_waitpid_wake_count,
            user_read_blocks: self.counters.user_read_block_count,
            user_read_wakes: self.counters.user_read_wake_count,
            finished_tasks: self.counters.finished_task_count,
            pending_user_exits: exit_count as u64,
            retained_user_exit_statuses: self.count_population(TaskPopulation::UserRetainedExit),
            waitable_user_exit_statuses: waitable,
            collected_user_exit_statuses: collected,
            zombie_user_tasks: waitable,
            reaped_user_tasks: collected,
            preemption_state: preemption.state,
            user_return_preemption_window_closes: preemption.user_return_window_closes,
            user_return_stack_sets: window.user_return_stack_set_count(),
            user_return_stack_takes: window.user_return_stack_take_count(),
            reclaimed_user_resource_records: self.counters.reclaimed_user_resource_record_count,
            reclaimed_user_address_spaces: self.counters.reclaimed_user_address_space_count,
            reclaimed_user_pages: self.counters.reclaimed_user_page_count,
            reclaimed_user_page_table_pages: self.counters.reclaimed_user_page_table_page_count,
            reclaimed_user_kernel_stacks: self.counters.reclaimed_user_kernel_stack_count,
            reclaimed_user_kernel_stack_writable_pages: self.counters.reclaimed_user_kernel_stack_writable_pages,
            reclaimed_user_kernel_stack_virtual_pages: self.counters.reclaimed_user_kernel_stack_virtual_pages,
            address_space_reclaim_guard_checks: self.counters.address_space_reclaim_guard_check_count,
            scheduler_transition_invariant_checks: self.counters.transition_invariant_check_count,
        }
    }
}

/// Whether `task` is a user task whose sleep is due at `tick`.
pub open spec fn sleep_expired(task: Task, tick: u64) -> bool {
    &&& task.is_user()
    &&& task.runtime().sleep_wake_tick matches Some(wake_tick) && tick >= wake_tick
}

/// `task` once the sleeps due at `tick` ended: its sleep cleared, and
/// woken if it was blocked.
pub open spec fn after_sleep_check(task: Task, tick: u64) -> Task {
    if sleep_expired(task, tick) {
        Task {
            state: if task.state == TaskState::Blocked {
                TaskState::Ready
            } else {
                task.state
            },
            kind: TaskKind::User(UserTaskRuntime { sleep_wake_tick: None, ..task.runtime() }),
            ..task
        }
    } else {
        task
    }
}

/// Number of blocked tasks among `tasks` whose sleep is due at `tick`.
pub open spec fn sleepers_woken(tasks: Seq<Task>, tick: u64) -> nat
    decreases tasks.len(),
{
    if tasks.len() == 0 {
        0
    } else {
        let last = tasks.last();
        sleepers_woken(tasks.drop_last(), tick) + if sleep_expired(last, tick) && last.state
            == TaskState::Blocked {
            1nat
        } else {
            0nat
        }
    }
}

/// `count` plus `n`, stopping at the largest value.
pub open spec fn saturating_add_count(count: u64, n: nat) -> u64 {
    if count + n > u64::MAX {
        u64::MAX
    } else {
        (count + n) as u64
    }
}

/// Whether `task` is a user task blocked in a keyboard read.
pub open spec fn is_blocked_reader(task: Task) -> bool {
    &&& task.is_user()
    &&& task.runtime().read_request is Some
    &&& task.state == TaskState::Blocked
}

/// `task` with its user runtime state replaced by `runtime`.
/// Bytes of a saved user register frame: twenty 64-bit registers.
pub const USER_TRAP_FRAME_BYTES: usize = 160;

/// The user runtime `runtime` once the processor was handed to the task
/// along `path`, in its address space and on the kernel stack whose top is
/// `kernel_stack_top`: the handoff is counted (saturating) and recorded, and
/// a restore of its saved frame is recorded, counted when the frame was
/// recorded at runtime.
pub open spec fn resumed_runtime(
    runtime: UserTaskRuntime,
    path: UserResumePathDiagnostics,
    kernel_stack_top: Option<u64>,
) -> UserTaskRuntime {
    UserTaskRuntime {
        last_resume_path: path,
        resume_handoff_count: saturating_next(runtime.resume_handoff_count),
        last_resume_address_space_root: runtime.address_space_root,
        last_resume_kernel_stack_top: kernel_stack_top,
        restored_user_trap_frame_bytes: USER_TRAP_FRAME_BYTES,
        runtime_trap_frame_restore_count: if runtime.syscall_frame_recorded
            || runtime.interrupt_frame_recorded {
            saturating_next(runtime.runtime_trap_frame_restore_count)
        } else {
            runtime.runtime_trap_frame_restore_count
        },
        ..runtime
    }
}

/// The kind of a task once it was handed the processor along `path` (see
/// `resumed_runtime`); a kernel task's kind stays.
pub open spec fn resumed_kind(kind: TaskKind, path: UserResumePathDiagnostics, kernel_stack_top: Option<u64>) -> TaskKind {
    match kind {
        TaskKind::User(runtime) => TaskKind::User(resumed_runtime(runtime, path, kernel_stack_top)),
        TaskKind::Kernel => TaskKind::Kernel,
    }
}

/// The kind of a task the timer switched away from: a user task records
/// the timer as the reason.
pub open spec fn preempted_kind(kind: TaskKind) -> TaskKind {
    match kind {
        TaskKind::User(runtime) => TaskKind::User(
            UserTaskRuntime { last_preemption_reason: UserPreemptionReasonDiagnostics::Timer, ..runtime },
        ),
        TaskKind::Kernel => TaskKind::Kernel,
    }
}

fn resume_kind(kind: TaskKind, path: UserResumePathDiagnostics, kernel_stack_top: Option<u64>) -> (r: TaskKind)
    ensures
        r == resumed_kind(kind, path, kernel_stack_top),
{
    match kind {
        TaskKind::User(runtime) => {
            let restore_count = if runtime.syscall_frame_recorded || runtime.interrupt_frame_recorded {
                saturating_increment(runtime.runtime_trap_frame_restore_count)
            } else {
                runtime.runtime_trap_frame_restore_count
            };
            TaskKind::User(
                UserTaskRuntime {
                    last_resume_path: path,
                    resume_handoff_count: saturating_increment(runtime.resume_handoff_count),
                    last_resume_address_space_root: runtime.address_space_root,
                    last_resume_kernel_stack_top: kernel_stack_top,
                    restored_user_trap_frame_bytes: USER_TRAP_FRAME_BYTES,
                    runtime_trap_frame_restore_count: restore_count,
                    ..runtime
                },
            )
        },
        TaskKind::Kernel => TaskKind::Kernel,
    }
}

fn preempt_kind(kind: TaskKind) -> (r: TaskKind)
    ensures
        r == preempted_kind(kind),
{
    match kind {
        TaskKind::User(runtime) => TaskKind::User(
            UserTaskRuntime { last_preemption_reason: UserPreemptionReasonDiagnostics::Timer, ..runtime },
        ),
        TaskKind::Kernel => TaskKind::Kernel,
    }
}

pub open spec fn with_runtime(task: Task, runtime: UserTaskRuntime) -> Task {
    Task { kind: TaskKind::User(runtime), ..task }
}

/// Whether a user task prepared a sleep, a `waitpid` or a read.
pub open spec fn has_prepared_wait(runtime: UserTaskRuntime) -> bool {
    runtime.sleep_wake_tick is Some || runtime.waitpid_request is Some || runtime.read_request is Some
}

/// The bootstrap task's state after it gets the processor back: running if
/// it was blocked or ready, unchanged otherwise.
pub open spec fn bootstrap_after_handoff(state: TaskState) -> TaskState {
    match state {
        TaskState::Blocked | TaskState::Ready => TaskState::Running,
        _ => state,
    }
}

/// Add one to a counter, stopping at the largest value.
pub fn saturating_increment(count: u64) -> (r: u64)
    ensures
        r == saturating_next(count),
{
    if count == u64::MAX {
        count
    } else {
        count + 1
    }
}

/// Whether record `j` is the first in `records` that `parent_task_id` may
/// collect for `child_task_id`.
pub open spec fn first_waitable(records: Seq<ChildExitRecord>, parent_task_id: u64, child_task_id: Option<u64>, j: int) -> bool {
    &&& 0 <= j < records.len()
    &&& records[j].spec_waitable_for_parent(parent_task_id, child_task_id)
    &&& forall|k: int|
        0 <= k < j ==> !(#[trigger] records[k]).spec_waitable_for_parent(parent_task_id, child_task_id)
}

/// `after` is `before` with record `j` collected: the record is marked
/// collected, its child's exit status is marked collected, nothing else
/// changed, and `exit` reports the child and its code.
pub open spec fn collected_record_at(before: &Scheduler, after: &Scheduler, j: int, exit: UserTaskExit) -> bool {
    let record = before.child_exit_records@[j];
    let child = record.child_task_id as int;
    &&& exit@ == (record.child_task_id, record.exit_code)
    &&& after.child_exit_records@ == before.child_exit_records@.update(
        j,
        ChildExitRecord { collected: true, ..record },
    )
    &&& after.tasks@.len() == before.tasks@.len()
    &&& forall|i: int| 0 <= i < before.tasks@.len() && i != child ==> after.tasks@[i] == before.tasks@[i]
    &&& after.tasks@[child].metadata@ == (
        before.tasks@[child].metadata@.0,
        before.tasks@[child].metadata@.1,
        Some((record.exit_code, true)),
    )
    &&& after.tasks@[child].state == before.tasks@[child].state
    &&& after.tasks@[child].kind == before.tasks@[child].kind
    &&& after.tasks@[child].context == before.tasks@[child].context
}

/// Whether `task` is a user task whose parent is `parent_task_id` and which
/// is `child_task_id` (any, with `None`).
pub open spec fn is_user_child_of(task: Task, parent_task_id: u64, child_task_id: Option<u64>) -> bool {
    &&& task.metadata@.1 == Some(parent_task_id)
    &&& task.is_user()
    &&& match child_task_id {
        Some(child) => task.spec_id() == child,
        None => true,
    }
}


/// A `waitpid` for any child is satisfied by the exit of every child, and
/// one for a given child by that child's exit alone: a parent blocked in
/// such a `waitpid` is woken by the exit of every child it accepts, and an
/// exit of its task `child_task_id` then completes the `waitpid` (see
/// `finish_current_task` and `woke_parent`).
pub proof fn law_waitpid_accepts_the_children_it_names(
    scheduler: &Scheduler,
    parent_task_id: u64,
    child_task_id: u64,
    request: UserWaitpidRequest,
)
    requires
        parent_task_id < scheduler.tasks@.len(),
        scheduler.tasks@[parent_task_id as int].is_user(),
        scheduler.tasks@[parent_task_id as int].runtime().waitpid_request == Some(request),
    ensures
        request.child_task_id is None ==> request.spec_matches_child(child_task_id)
            && scheduler.spec_wakes_parent(parent_task_id, child_task_id),
        request.child_task_id matches Some(awaited) ==> (scheduler.spec_wakes_parent(
            parent_task_id,
            child_task_id,
        ) <==> awaited == child_task_id),
{
}

} // verus!
