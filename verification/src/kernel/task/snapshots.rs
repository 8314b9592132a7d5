//! Per-task diagnostics snapshots of the scheduler's task records.

use vstd::prelude::*;

use crate::kernel::memory::address::VirtAddr;
use crate::kernel::memory::user_mapping::{
    active_page_total, file_private_count, occupied_count, UserMappings,
};
use crate::kernel::task::diagnostics::{
    SchedulerTaskSnapshot, TaskExitStatusDiagnostics, TaskRuntimeDiagnosticsSnapshot,
    TaskStatusDiagnosticsSnapshot, UserHeapDiagnosticsSnapshot, UserMappingActiveDiagnosticsSnapshot,
    UserMappingLifecycleDiagnosticsSnapshot, UserPreemptionReasonDiagnostics,
    UserResumePathDiagnostics, UserTrapFrameDiagnosticsSnapshot, UserVirtualMemorySnapshot,
};
use crate::kernel::task::kernel_stacks::{kernel_stack_top_of, TaskKernelStacks};
use crate::kernel::task::scheduler::{Scheduler, Task, TaskKind, UserTaskRuntime, USER_TRAP_FRAME_BYTES};
use crate::kernel::task::stack::KernelStack;

verus! {

/// The retained exit status of `task`: collected, waitable, or none.
pub open spec fn exit_status_of(task: Task) -> TaskExitStatusDiagnostics {
    match task.metadata@.2 {
        Some((exit_code, true)) => TaskExitStatusDiagnostics::Collected(exit_code),
        Some((exit_code, false)) => TaskExitStatusDiagnostics::Waitable(exit_code),
        None => TaskExitStatusDiagnostics::NoStatus,
    }
}

/// The active private mappings of task `i` as `mappings` holds them: where
/// the next placement search starts, the active pages, records and
/// file-backed records; all zero when no table is held for the task.
pub open spec fn mapping_activity_of(
    mappings: Seq<Option<UserMappings>>,
    i: int,
) -> UserMappingActiveDiagnosticsSnapshot {
    if 0 <= i < mappings.len() && mappings[i] is Some {
        let table = mappings[i]->0;
        UserMappingActiveDiagnosticsSnapshot::spec_new(
            table.search_start(),
            active_page_total(table.records()) as u64,
            occupied_count(table.records()) as u64,
            file_private_count(table.records()) as u64,
        )
    } else {
        UserMappingActiveDiagnosticsSnapshot::spec_new(0, 0, 0, 0)
    }
}

/// The runtime part of a user task's snapshot.
pub open spec fn user_runtime_snapshot(
    runtime: UserTaskRuntime,
    active: bool,
    kernel_stack_owned: bool,
) -> TaskRuntimeDiagnosticsSnapshot {
    TaskRuntimeDiagnosticsSnapshot::spec_new(
        active,
        runtime.address_space_root is Some,
        kernel_stack_owned,
        runtime.resume_handoff_count,
        runtime.last_resume_address_space_root,
        match runtime.last_resume_kernel_stack_top {
            Some(top) => Some(VirtAddr::spec_new(top)),
            None => None,
        },
        UserTrapFrameDiagnosticsSnapshot::spec_new(
            USER_TRAP_FRAME_BYTES,
            runtime.syscall_frame_recorded,
            runtime.interrupt_frame_recorded,
            runtime.runtime_trap_frame_record_count,
            runtime.restored_user_trap_frame_bytes,
            runtime.runtime_trap_frame_restore_count,
        ),
    )
}

/// The virtual memory part of a user task's snapshot: its heap, its
/// active mappings and its mapping accounting.
pub open spec fn user_memory_snapshot(
    runtime: UserTaskRuntime,
    active_mappings: UserMappingActiveDiagnosticsSnapshot,
) -> UserVirtualMemorySnapshot {
    let heap = runtime.heap.parts();
    let statistics = runtime.mapping_statistics;
    UserVirtualMemorySnapshot::spec_new(
        UserHeapDiagnosticsSnapshot::spec_new(heap.0, heap.1, ((heap.2 - heap.0) / 4096) as u64),
        active_mappings,
        UserMappingLifecycleDiagnosticsSnapshot::spec_new(
            statistics.total_mapped_pages,
            statistics.total_released_pages,
            statistics.peak_active_pages,
            statistics.peak_active_records,
            statistics.file_private_map_count,
        ),
    )
}

impl Scheduler {
    /// The snapshot of task `i`, with the kernel stacks `stacks` and the
    /// private mapping tables `mappings` held for the tasks.
    pub open spec fn task_snapshot(
        &self,
        stacks: Seq<Option<KernelStack>>,
        mappings: Seq<Option<UserMappings>>,
        i: int,
    ) -> SchedulerTaskSnapshot {
        let task = self.tasks@[i];
        let active = self.spec_is_active(task.spec_id());
        let stack_owned = kernel_stack_top_of(stacks, i) is Some;
        match task.kind {
            TaskKind::Kernel => SchedulerTaskSnapshot::spec_new_kernel(
                task.spec_id(),
                task.metadata@.1,
                task.state,
                TaskStatusDiagnosticsSnapshot::spec_new(
                    TaskRuntimeDiagnosticsSnapshot::spec_new(
                        active,
                        false,
                        stack_owned,
                        0,
                        None,
                        None,
                        UserTrapFrameDiagnosticsSnapshot::spec_new(0, false, false, 0, 0, 0),
                    ),
                    exit_status_of(task),
                    UserPreemptionReasonDiagnostics::NotPreempted,
                    UserResumePathDiagnostics::NotEntered,
                ),
            ),
            TaskKind::User(runtime) => SchedulerTaskSnapshot::spec_new_user(
                task.spec_id(),
                task.metadata@.1,
                task.state,
                TaskStatusDiagnosticsSnapshot::spec_new(
                    user_runtime_snapshot(runtime, active, stack_owned),
                    exit_status_of(task),
                    runtime.last_preemption_reason,
                    runtime.last_resume_path,
                ),
                runtime.image.spec_snapshot(),
                user_memory_snapshot(runtime, mapping_activity_of(mappings, i)),
            ),
        }
    }

    fn exit_status_at(&self, index: usize) -> (r: TaskExitStatusDiagnostics)
        requires
            index < self.tasks@.len(),
        ensures
            r == exit_status_of(self.tasks@[index as int]),
    {
        let metadata = &self.tasks[index].metadata;
        match metadata.get_exit_code() {
            Some(exit_code) => if metadata.wait_collected() {
                TaskExitStatusDiagnostics::collected(exit_code)
            } else {
                TaskExitStatusDiagnostics::waitable(exit_code)
            },
            None => TaskExitStatusDiagnostics::none(),
        }
    }

    fn mapping_activity_at(mappings: &Vec<Option<UserMappings>>, index: usize) -> (r:
        UserMappingActiveDiagnosticsSnapshot)
        requires
            forall|i: int| 0 <= i < mappings@.len() && mappings@[i] is Some ==> (#[trigger] mappings@[i])->0.wf(),
        ensures
            r == mapping_activity_of(mappings@, index as int),
    {
        if index < mappings.len() {
            match &mappings[index] {
                Some(table) => UserMappingActiveDiagnosticsSnapshot::new(
                    table.next_start().as_u64(),
                    table.active_pages(),
                    table.active_records(),
                    table.active_file_private_records(),
                ),
                None => UserMappingActiveDiagnosticsSnapshot::new(0, 0, 0, 0),
            }
        } else {
            UserMappingActiveDiagnosticsSnapshot::new(0, 0, 0, 0)
        }
    }

    fn task_snapshot_at(
        &self,
        index: usize,
        kernel_stacks: &TaskKernelStacks,
        mappings: &Vec<Option<UserMappings>>,
    ) -> (r: SchedulerTaskSnapshot)
        requires
            self.wf(),
            index < self.tasks@.len(),
            forall|i: int| 0 <= i < mappings@.len() && mappings@[i] is Some ==> (#[trigger] mappings@[i])->0.wf(),
        ensures
            r == self.task_snapshot(kernel_stacks@, mappings@, index as int),
    {
        let task = &self.tasks[index];
        let task_id = task.get_id();
        let parent_task_id = match task.metadata.get_parent_identifier() {
            Some(parent) => Some(parent.as_u64()),
            None => None,
        };
        let active = self.is_user_task_active(task_id);
        let stack_owned = kernel_stacks.stack_top_address(index).is_some();
        let exit_status = self.exit_status_at(index);
        match task.kind {
            TaskKind::Kernel => SchedulerTaskSnapshot::new_kernel(
                task_id,
                parent_task_id,
                task.state,
                TaskStatusDiagnosticsSnapshot::new(
                    TaskRuntimeDiagnosticsSnapshot::new(
                        active,
                        false,
                        stack_owned,
                        0,
                        None,
                        None,
                        UserTrapFrameDiagnosticsSnapshot::new(0, false, false, 0, 0, 0),
                    ),
                    exit_status,
                    UserPreemptionReasonDiagnostics::NotPreempted,
                    UserResumePathDiagnostics::NotEntered,
                ),
            ),
            TaskKind::User(runtime) => {
                let stack_top = match runtime.last_resume_kernel_stack_top {
                    Some(top) => Some(VirtAddr::new(top)),
                    None => None,
                };
                let status = TaskStatusDiagnosticsSnapshot::new(
                    TaskRuntimeDiagnosticsSnapshot::new(
                        active,
                        runtime.address_space_root.is_some(),
                        stack_owned,
                        runtime.resume_handoff_count,
                        runtime.last_resume_address_space_root,
                        stack_top,
                        UserTrapFrameDiagnosticsSnapshot::new(
                            USER_TRAP_FRAME_BYTES,
                            runtime.syscall_frame_recorded,
                            runtime.interrupt_frame_recorded,
                            runtime.runtime_trap_frame_record_count,
                            runtime.restored_user_trap_frame_bytes,
                            runtime.runtime_trap_frame_restore_count,
                        ),
                    ),
                    exit_status,
                    runtime.last_preemption_reason,
                    runtime.last_resume_path,
                );
                let image = runtime.image.snapshot();
                let statistics = runtime.mapping_statistics;
                let memory = UserVirtualMemorySnapshot::new(
                    UserHeapDiagnosticsSnapshot::new(
                        runtime.heap.base().as_u64(),
                        runtime.heap.current_break().as_u64(),
                        runtime.heap.mapped_pages(),
                    ),
                    Self::mapping_activity_at(mappings, index),
                    UserMappingLifecycleDiagnosticsSnapshot::new(
                        statistics.total_mapped_pages,
                        statistics.total_released_pages,
                        statistics.peak_active_pages,
                        statistics.peak_active_records,
                        statistics.file_private_map_count,
                    ),
                );
                SchedulerTaskSnapshot::new_user(task_id, parent_task_id, task.state, status, &image, memory)
            },
        }
    }

    /// Snapshot every task record, in task order (see `task_snapshot`),
    /// with the kernel stacks `kernel_stacks` and the private mapping
    /// tables `mappings` (by task index) held for the tasks.
    pub fn get_task_snapshots(
        &self,
        kernel_stacks: &TaskKernelStacks,
        mappings: &Vec<Option<UserMappings>>,
    ) -> (r: Vec<SchedulerTaskSnapshot>)
        requires
            self.wf(),
            forall|i: int| 0 <= i < mappings@.len() && mappings@[i] is Some ==> (#[trigger] mappings@[i])->0.wf(),
        ensures
            r@.len() == self.tasks@.len(),
            forall|i: int| 0 <= i < r@.len() ==> #[trigger] r@[i] == self.task_snapshot(kernel_stacks@, mappings@, i),
    {
        let mut snapshots: Vec<SchedulerTaskSnapshot> = Vec::new();
        let mut index: usize = 0;
        while index < self.tasks.len()
            invariant
                self.wf(),
                forall|i: int| 0 <= i < mappings@.len() && mappings@[i] is Some ==> (#[trigger] mappings@[i])->0.wf(),
                index <= self.tasks@.len(),
                snapshots@.len() == index,
                forall|i: int| 0 <= i < index ==> #[trigger] snapshots@[i] == self.task_snapshot(kernel_stacks@, mappings@, i),
            decreases self.tasks@.len() - index,
        {
            let snapshot = self.task_snapshot_at(index, kernel_stacks, mappings);
            snapshots.push(snapshot);
            index = index + 1;
        }
        snapshots
    }
}

} // verus!
