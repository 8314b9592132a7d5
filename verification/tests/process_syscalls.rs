use manaos::kernel::memory::address::{
    PageCount, PhysAddr, PhysicalFrameRange, PhysicalFrameStart, FrameCount, UserVirtualAddress,
    VirtAddr,
};
use manaos::kernel::memory::virtual_allocator::new_dynamic_mapping_allocator;
use manaos::kernel::process_syscalls::{
    sys_exit, sys_getpid, sys_getppid, sys_nanosleep, sys_waitpid, UserMemoryWrite,
};
use manaos::kernel::syscall::{USER_BLOCK_SENTINEL, USER_EXIT_SENTINEL};
use manaos::kernel::task::context::{TaskContext, UserEntryArguments, UserModeSelectors, UserTaskContext};
use manaos::kernel::task::diagnostics::{PreemptionStateDiagnostics, TaskKindDiagnostics, UserResumePathDiagnostics};
use manaos::kernel::memory::user_mapping::{UserMappingPlacement, UserMappingSource, UserMappings};
use manaos::kernel::process_syscalls::{decide_mmap, MmapDecision};
use manaos::kernel::task::kernel_stacks::TaskKernelStacks;
use manaos::kernel::task::scheduler::{PreemptionControl, Scheduler, TaskKind};
use manaos::kernel::task::stack::{
    KernelStack, KernelStackFaultOwner, KernelStackVirtualReservation,
};
use manaos::kernel::task::state::TaskState;

const EINVAL: u64 = 0u64.wrapping_sub(22);
const ENOSYS: u64 = 0u64.wrapping_sub(38);
const ECHILD: u64 = 0u64.wrapping_sub(10);
const EFAULT: u64 = 0u64.wrapping_sub(14);

fn user_address(address: u64) -> UserVirtualAddress {
    UserVirtualAddress::new(VirtAddr::new(address)).unwrap()
}

fn root(address: u64) -> PhysicalFrameStart {
    PhysicalFrameStart::new(PhysAddr::new(address)).unwrap()
}

fn entry_context() -> UserTaskContext {
    let arguments = UserEntryArguments::new(1, user_address(0x7000), user_address(0x7100));
    UserTaskContext::new(
        user_address(0x40_0000),
        user_address(0x7fff_0000),
        arguments,
        UserModeSelectors { data: 0x1b, code: 0x23 },
    )
}

fn enter_new_user(scheduler: &mut Scheduler, frame: u64) -> u64 {
    let task_id = scheduler.spawn_user_task(root(frame), entry_context(), user_address(0x50_0000), "/bin/init");
    assert!(scheduler.prepare_one_shot_user_task(task_id, &TaskKernelStacks::new()).is_some());
    task_id
}

#[test]
fn waitpid_rejects_unknown_options_and_process_arguments() {
    let mut scheduler = Scheduler::new();
    enter_new_user(&mut scheduler, 0x10_0000);
    assert_eq!(sys_waitpid(&mut scheduler, 5, 0, 2, true).result, EINVAL);
    assert_eq!(sys_waitpid(&mut scheduler, 0, 0, 0, true).result, EINVAL);
    assert_eq!(sys_waitpid(&mut scheduler, u64::MAX - 1, 0, 0, true).result, EINVAL);
}

#[test]
fn waitpid_needs_a_user_caller_and_a_matching_child() {
    let mut scheduler = Scheduler::new();
    assert_eq!(sys_waitpid(&mut scheduler, u64::MAX, 0, 0, true).result, ENOSYS);
    enter_new_user(&mut scheduler, 0x10_0000);
    assert_eq!(sys_waitpid(&mut scheduler, u64::MAX, 0, 0, true).result, ECHILD);
}

#[test]
fn waitpid_checks_the_status_pointer_after_the_child() {
    let mut scheduler = Scheduler::new();
    let parent = enter_new_user(&mut scheduler, 0x10_0000);
    let child = scheduler.spawn_user_task(root(0x20_0000), entry_context(), user_address(0x50_0000), "/bin/init");
    assert_eq!(sys_waitpid(&mut scheduler, child, 0x6000, 0, false).result, EFAULT);
    assert_eq!(sys_waitpid(&mut scheduler, child, 0, 1, false).result, 0);
    let blocked = sys_waitpid(&mut scheduler, child, 0x6000, 0, true);
    assert_eq!(blocked.result, USER_BLOCK_SENTINEL);
    assert!(blocked.write.is_none());
    let runtime = match scheduler.tasks[parent as usize].kind {
        manaos::kernel::task::scheduler::TaskKind::User(runtime) => runtime,
        manaos::kernel::task::scheduler::TaskKind::Kernel => panic!("parent must be a user task"),
    };
    let request = runtime.waitpid_request.unwrap();
    assert_eq!(request.child_task_id, Some(child));
    assert!(request.status_buffer.is_some());
}

#[test]
fn waitpid_collects_an_exited_child_with_its_status() {
    let mut scheduler = Scheduler::new();
    let mut preemption = PreemptionControl::new();
    let parent = enter_new_user(&mut scheduler, 0x10_0000);
    let child = scheduler.spawn_user_task(root(0x20_0000), entry_context(), user_address(0x50_0000), "/bin/init");
    scheduler.finish_current_task(0);
    let _ = parent;
    // The orphaned child now belongs to the bootstrap task; run it and let
    // it exit, then let a fresh user task find no child.
    assert!(scheduler.prepare_one_shot_user_task(child, &TaskKernelStacks::new()).is_some());
    assert_eq!(sys_exit(&mut scheduler, &mut preemption, 5), USER_EXIT_SENTINEL);
    assert_eq!(preemption.state, PreemptionStateDiagnostics::UserReturn);
    assert_eq!(preemption.user_return_window_closes, 1);
    assert_eq!(scheduler.tasks[child as usize].state, TaskState::Finished);
    let exit = scheduler.collect_waitable_child_exit(0, Some(child)).unwrap();
    assert_eq!(exit.exit_code(), 5);
}

#[test]
fn waitpid_returns_the_collected_child_and_the_status_store() {
    let mut scheduler = Scheduler::new();
    let mut preemption = PreemptionControl::new();
    let parent = enter_new_user(&mut scheduler, 0x10_0000);
    let child = scheduler.spawn_user_task(root(0x20_0000), entry_context(), user_address(0x50_0000), "/bin/init");
    assert!(scheduler.activate_user_task(child));
    assert_eq!(sys_waitpid(&mut scheduler, child, 0, 0, true).result, USER_BLOCK_SENTINEL);
    assert_eq!(scheduler.block_current_user_after_syscall(), Some(parent));
    assert!(scheduler.prepare_one_shot_user_task(child, &TaskKernelStacks::new()).is_some());
    assert_eq!(sys_getpid(&scheduler), child);
    assert_eq!(sys_getppid(&scheduler), parent);
    assert_eq!(sys_exit(&mut scheduler, &mut preemption, 0x1_07), USER_EXIT_SENTINEL);
    assert_eq!(scheduler.tasks[parent as usize].state, TaskState::Ready);
    let completion = scheduler.complete_pending_user_waitpid_status(parent).unwrap();
    assert_eq!(completion.wait_status, 7 << 8);
}

#[test]
fn waitpid_collects_with_a_status_store() {
    let mut scheduler = Scheduler::new();
    let mut preemption = PreemptionControl::new();
    let parent = enter_new_user(&mut scheduler, 0x10_0000);
    let child = scheduler.spawn_user_task(root(0x20_0000), entry_context(), user_address(0x50_0000), "/bin/init");
    assert!(scheduler.activate_user_task(child));
    assert_eq!(sys_nanosleep(&mut scheduler, Some((1, 0)), 0, false, 10).result, USER_BLOCK_SENTINEL);
    assert_eq!(scheduler.block_current_user_after_syscall(), Some(parent));
    assert!(scheduler.prepare_one_shot_user_task(child, &TaskKernelStacks::new()).is_some());
    sys_exit(&mut scheduler, &mut preemption, 4);
    scheduler.wake_sleeping_user_tasks(2000);
    assert!(scheduler.prepare_one_shot_user_task(parent, &TaskKernelStacks::new()).is_some());
    let collected = sys_waitpid(&mut scheduler, u64::MAX, 0x6000, 0, true);
    assert_eq!(collected.result, child);
    match collected.write {
        Some(UserMemoryWrite::WaitStatus { range, value }) => {
            assert_eq!(value, 4 << 8);
            assert_eq!(range.as_range().start().as_u64(), 0x6000);
        }
        _ => panic!("a collected exit with a status pointer must store the status"),
    }
    assert_eq!(sys_waitpid(&mut scheduler, child, 0, 1, true).result, 0);
}

#[test]
fn nanosleep_checks_its_arguments_and_zeroes_the_remaining_time() {
    let mut scheduler = Scheduler::new();
    enter_new_user(&mut scheduler, 0x10_0000);
    assert_eq!(sys_nanosleep(&mut scheduler, None, 0, false, 0).result, EFAULT);
    assert_eq!(sys_nanosleep(&mut scheduler, Some((0, 5)), 0x6000, false, 0).result, EFAULT);
    assert_eq!(sys_nanosleep(&mut scheduler, Some((0, 1_000_000_000)), 0, false, 0).result, EINVAL);
    let immediate = sys_nanosleep(&mut scheduler, Some((0, 0)), 0x6000, true, 0);
    assert_eq!(immediate.result, 0);
    assert!(matches!(immediate.write, Some(UserMemoryWrite::Zero { .. })));
    assert_eq!(sys_nanosleep(&mut scheduler, Some((0, 1)), 0, false, u64::MAX).result, EINVAL);
    let sleeping = sys_nanosleep(&mut scheduler, Some((0, 1_500_000)), 0, false, 100);
    assert_eq!(sleeping.result, USER_BLOCK_SENTINEL);
    assert!(sleeping.write.is_none());
}

#[test]
fn nanosleep_without_a_user_task_is_not_implemented() {
    let mut scheduler = Scheduler::new();
    assert_eq!(sys_nanosleep(&mut scheduler, Some((0, 1)), 0, false, 0).result, ENOSYS);
}

#[test]
fn exit_without_a_running_user_task_changes_nothing() {
    let mut scheduler = Scheduler::new();
    let mut preemption = PreemptionControl::new();
    assert_eq!(sys_exit(&mut scheduler, &mut preemption, 1), USER_EXIT_SENTINEL);
    assert_eq!(preemption.state, PreemptionStateDiagnostics::Enabled);
    assert_eq!(preemption.user_return_window_closes, 0);
    assert_eq!(sys_getpid(&scheduler), 0);
    assert_eq!(sys_getppid(&scheduler), ENOSYS);
}

fn kernel_stack(
    allocator: &mut manaos::kernel::memory::virtual_allocator::KernelVirtualRangeAllocator,
    frame: u64,
) -> KernelStack {
    let reservation =
        KernelStackVirtualReservation::new(allocator, PageCount::new(4).unwrap()).unwrap();
    let frames = PhysicalFrameRange::new(root(frame), FrameCount::new(4).unwrap()).unwrap();
    KernelStack::from_parts(reservation, frames)
}

#[test]
fn guard_faults_name_the_task_whose_guard_page_was_hit() {
    let mut scheduler = Scheduler::new();
    let mut stacks = TaskKernelStacks::new();
    let mut ranges = new_dynamic_mapping_allocator();
    assert!(stacks.get_kernel_stack_guard_fault_diagnostic_sample(&scheduler).is_none());
    let kernel_task = scheduler.spawn(TaskContext::with_initial_stack(0x8000));
    stacks.push(Some(kernel_stack(&mut ranges, 0x30_0000)));
    let user_task = scheduler.spawn_user_task(root(0x10_0000), entry_context(), user_address(0x50_0000), "/bin/init");
    stacks.push(Some(kernel_stack(&mut ranges, 0x40_0000)));
    let base = 0xffff_8000_0000_0000u64;
    let kernel_fault = stacks
        .get_kernel_stack_guard_fault(&scheduler, VirtAddr::new(base + 0x10))
        .unwrap();
    assert_eq!(kernel_fault.task_identifier(), kernel_task);
    assert_eq!(kernel_fault.owner(), KernelStackFaultOwner::KernelTask);
    assert_eq!(kernel_fault.guard_page_start().as_u64(), base);
    assert_eq!(kernel_fault.writable_start().as_u64(), base + 0x1000);
    assert_eq!(kernel_fault.stack_top().as_u64(), base + 0x5000);
    let user_fault = stacks
        .get_kernel_stack_guard_fault(&scheduler, VirtAddr::new(base + 0x5fff))
        .unwrap();
    assert_eq!(user_fault.task_identifier(), user_task);
    assert_eq!(user_fault.owner(), KernelStackFaultOwner::UserTask);
    assert!(stacks.get_kernel_stack_guard_fault(&scheduler, VirtAddr::new(base + 0x1000)).is_none());
    let sample = stacks.get_kernel_stack_guard_fault_diagnostic_sample(&scheduler).unwrap();
    assert_eq!(sample.task_identifier(), kernel_task);
    assert_eq!(stacks.stack_top(user_task as usize).unwrap().as_u64(), base + 0xa000);
    assert!(stacks.contains_kernel_stack_writable_range(user_task as usize, VirtAddr::new(base + 0x6000), 16));
    assert!(!stacks.contains_kernel_stack_writable_range(user_task as usize, VirtAddr::new(base + 0x5000), 16));
    let taken = stacks.take(kernel_task as usize).unwrap();
    assert_eq!(taken.guard_page_virtual_start().as_u64(), base);
    assert_eq!(taken.writable_range().start().as_u64(), base + 0x1000);
    assert_eq!(taken.physical_range().start().as_u64(), 0x30_0000);
    let reclaim = taken.release_reservation(&mut ranges).unwrap();
    assert_eq!(reclaim.writable_pages(), 4);
    assert_eq!(reclaim.virtual_pages(), 5);
    assert!(taken.release_reservation(&mut ranges).is_none());
    assert!(stacks.stack_top(kernel_task as usize).is_none());
    assert!(stacks.get_kernel_stack_guard_fault(&scheduler, VirtAddr::new(base)).is_none());
}

#[test]
fn one_shot_entry_records_the_handoff_on_the_task_kernel_stack() {
    let mut scheduler = Scheduler::new();
    let mut stacks = TaskKernelStacks::new();
    let mut ranges = new_dynamic_mapping_allocator();
    let user_task = scheduler.spawn_user_task(root(0x10_0000), entry_context(), user_address(0x50_0000), "/bin/init");
    stacks.push(Some(kernel_stack(&mut ranges, 0x40_0000)));
    let top = stacks.stack_top_address(user_task as usize);
    assert_eq!(top, Some(0xffff_8000_0000_5000));
    let entry = scheduler.prepare_one_shot_user_task(user_task, &stacks).unwrap();
    assert_eq!(entry.kernel_stack_top, top);
    assert_eq!(entry.address_space.as_u64(), 0x10_0000);
    let runtime = match scheduler.tasks[user_task as usize].kind {
        TaskKind::User(runtime) => runtime,
        TaskKind::Kernel => panic!("spawned a user task"),
    };
    assert_eq!(runtime.last_resume_path, UserResumePathDiagnostics::LifecycleEntry);
    assert_eq!(runtime.resume_handoff_count, 1);
    assert_eq!(runtime.last_resume_kernel_stack_top, top);
    assert_eq!(runtime.last_resume_address_space_root.unwrap().as_u64(), 0x10_0000);
    assert_eq!(runtime.restored_user_trap_frame_bytes, 160);
    assert_eq!(runtime.runtime_trap_frame_restore_count, 0);
}

#[test]
fn stack_reservation_is_refused_only_without_a_long_enough_run() {
    let mut ranges = new_dynamic_mapping_allocator();
    assert!(KernelStackVirtualReservation::new(&mut ranges, PageCount::new(262_144).unwrap()).is_none());
    assert!(KernelStackVirtualReservation::new(&mut ranges, PageCount::new(0x000f_ffff_ffff_ffff).unwrap()).is_none());
    let reservation =
        KernelStackVirtualReservation::new(&mut ranges, PageCount::new(262_143).unwrap()).unwrap();
    assert_eq!(reservation.guard_page_start().as_u64(), 0xffff_8000_0000_0000);
    assert_eq!(reservation.writable_page_count(), 262_143);
    assert!(KernelStackVirtualReservation::new(&mut ranges, PageCount::new(1).unwrap()).is_none());
}

#[test]
fn task_snapshots_describe_every_task_record() {
    let mut scheduler = Scheduler::new();
    let mut stacks = TaskKernelStacks::new();
    let mut ranges = new_dynamic_mapping_allocator();
    let user_task = scheduler.spawn_user_task(root(0x10_0000), entry_context(), user_address(0x50_0000), "/bin/init");
    stacks.push(Some(kernel_stack(&mut ranges, 0x40_0000)));
    let mappings: Vec<Option<UserMappings>> = vec![None, Some(UserMappings::new())];
    assert!(scheduler.prepare_one_shot_user_task(user_task, &stacks).is_some());
    let snapshots = scheduler.get_task_snapshots(&stacks, &mappings);
    assert_eq!(snapshots.len(), 2);
    let kernel = &snapshots[0];
    assert_eq!(kernel.task_id(), 0);
    assert_eq!(kernel.parent_task_id(), None);
    assert_eq!(kernel.kind(), TaskKindDiagnostics::Kernel);
    assert_eq!(kernel.state(), TaskState::Blocked);
    assert!(!kernel.active());
    assert!(!kernel.kernel_stack_owned());
    assert!(kernel.user_image().is_none());
    let user = &snapshots[1];
    assert_eq!(user.task_id(), user_task);
    assert_eq!(user.parent_task_id(), Some(0));
    assert_eq!(user.kind(), TaskKindDiagnostics::User);
    assert_eq!(user.state(), TaskState::Running);
    assert!(user.active());
    assert!(user.address_space_owned());
    assert!(user.kernel_stack_owned());
    assert_eq!(user.resume_handoff_count(), 1);
    assert_eq!(user.last_resume_path(), UserResumePathDiagnostics::LifecycleEntry);
    assert_eq!(user.last_resume_kernel_stack_top(), 0xffff_8000_0000_5000);
    assert_eq!(user.saved_user_trap_frame_bytes(), 160);
    assert_eq!(user.exit_code(), None);
    assert_eq!(user.user_image().unwrap().path_len(), 9);
    let memory = user.user_virtual_memory().unwrap();
    assert_eq!(memory.heap_base(), 0x50_0000);
    assert_eq!(memory.heap_break(), 0x50_0000);
    assert_eq!(memory.heap_mapped_pages(), 0);
    assert_eq!(memory.mapping_active_pages(), 0);
    assert_eq!(memory.mapping_next_start(), UserMappings::new().next_start().as_u64());
}

#[test]
fn mmap_arguments_are_checked_in_order() {
    const PRIVATE: u64 = 0x02;
    const ANONYMOUS: u64 = 0x20;
    const FIXED: u64 = 0x10;
    const READ_WRITE: u64 = 0x3;
    assert!(matches!(
        decide_mmap(0x1000, 4096, READ_WRITE, PRIVATE | ANONYMOUS, 0),
        MmapDecision::Refused(r) if r == EINVAL
    ));
    assert!(matches!(
        decide_mmap(0, 0, READ_WRITE, PRIVATE | ANONYMOUS, 0),
        MmapDecision::Refused(r) if r == EINVAL
    ));
    assert!(matches!(
        decide_mmap(0, 4096, READ_WRITE, PRIVATE, 5),
        MmapDecision::Refused(r) if r == EINVAL
    ));
    assert!(matches!(
        decide_mmap(0, 4096, READ_WRITE, PRIVATE, 4096),
        MmapDecision::FileBacked(UserMappingPlacement::Any)
    ));
    match decide_mmap(0x6000_0000_0000, 8192, READ_WRITE, PRIVATE | ANONYMOUS | FIXED, 0) {
        MmapDecision::Anonymous(request) => {
            assert_eq!(request.requested_address(), 0x6000_0000_0000);
            assert!(matches!(request.placement(), UserMappingPlacement::FixedReplace(_)));
            assert!(matches!(request.source(), UserMappingSource::Anonymous));
            assert_eq!(request.length(), 8192);
            assert!(request.writable());
            assert_eq!(request.protection(), READ_WRITE);
        }
        _ => panic!("expected an anonymous mapping request"),
    }
    match decide_mmap(0, 4096, 0x1, PRIVATE | ANONYMOUS, 0) {
        MmapDecision::Anonymous(request) => assert!(!request.writable()),
        _ => panic!("expected an anonymous mapping request"),
    }
}
