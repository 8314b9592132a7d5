use manaos::kernel::memory::address::{
    PhysAddr, PhysicalFrameStart, UserVirtualAddress, UserWritableRange, VirtAddr,
};
use manaos::kernel::task::context::{
    TaskContext, UserEntryArguments, UserModeSelectors, UserTaskContext, UserTrapFrame,
};
use manaos::kernel::task::diagnostics::{
    PreemptionStateDiagnostics, UserExecveReplacementStateDiagnostics, UserResumePathDiagnostics,
};
use manaos::kernel::task::user_image::copy_path_to_diagnostic;
use manaos::kernel::task::process_lifecycle::UserReturnWindow;
use manaos::kernel::task::scheduler::{
    saturating_increment, PreemptionControl, Scheduler, SwitchDecision, TaskKind, TaskPopulation,
    UserReadRequest, UserTrapFrameSource,
};
use manaos::kernel::task::kernel_stacks::TaskKernelStacks;
use manaos::kernel::task::state::TaskState;

fn user_address(address: u64) -> UserVirtualAddress {
    UserVirtualAddress::new(VirtAddr::new(address)).unwrap()
}

fn root(address: u64) -> PhysicalFrameStart {
    PhysicalFrameStart::new(PhysAddr::new(address)).unwrap()
}

fn entry_context() -> UserTaskContext {
    let arguments = UserEntryArguments::new(1, user_address(0x7000), user_address(0x7100));
    UserTaskContext::new(
        user_address(0x40_0000),
        user_address(0x7fff_0000),
        arguments,
        UserModeSelectors { data: 0x1b, code: 0x23 },
    )
}

fn spawn_user(scheduler: &mut Scheduler, frame: u64) -> u64 {
    scheduler.spawn_user_task(root(frame), entry_context(), user_address(0x50_0000), "/bin/init")
}

/// Spawn a user task from the bootstrap task and enter it.
fn enter_new_user(scheduler: &mut Scheduler, frame: u64) -> u64 {
    let task_id = spawn_user(scheduler, frame);
    assert!(scheduler.prepare_one_shot_user_task(task_id, &TaskKernelStacks::new()).is_some());
    task_id
}

#[test]
fn new_scheduler_runs_the_bootstrap_task() {
    let scheduler = Scheduler::new();
    assert_eq!(scheduler.get_current_task_id(), 0);
    assert_eq!(scheduler.get_current_parent_task_id(), None);
    assert!(!scheduler.has_active_user_tasks());
    assert_eq!(scheduler.tasks[0].state, TaskState::Running);
}

#[test]
fn spawned_tasks_get_increasing_identifiers_and_their_parent() {
    let mut scheduler = Scheduler::new();
    let kernel_id = scheduler.spawn(TaskContext::with_initial_stack(0x8000));
    let user_id = spawn_user(&mut scheduler, 0x10_0000);
    assert_eq!(kernel_id, 1);
    assert_eq!(user_id, 2);
    assert_eq!(scheduler.get_task_index(2), Some(2));
    assert_eq!(scheduler.get_task_index(3), None);
    assert_eq!(scheduler.tasks[2].metadata.get_parent_identifier().unwrap().as_u64(), 0);
    assert_eq!(scheduler.tasks[2].state, TaskState::Ready);
}

#[test]
fn activation_is_idempotent_and_refused_for_kernel_tasks() {
    let mut scheduler = Scheduler::new();
    let kernel_id = scheduler.spawn(TaskContext::with_initial_stack(0x8000));
    let user_id = spawn_user(&mut scheduler, 0x10_0000);
    assert!(!scheduler.activate_user_task(kernel_id));
    assert!(!scheduler.activate_user_task(99));
    assert!(scheduler.activate_user_task(user_id));
    assert!(scheduler.activate_user_task(user_id));
    assert_eq!(scheduler.active_user_task_identifiers, vec![user_id]);
    assert_eq!(scheduler.next_active_user_task_id(), Some(user_id));
}

#[test]
fn one_shot_entry_blocks_the_bootstrap_and_runs_the_user_task() {
    let mut scheduler = Scheduler::new();
    let user_id = spawn_user(&mut scheduler, 0x10_0000);
    let entry = scheduler.prepare_one_shot_user_task(user_id, &TaskKernelStacks::new()).unwrap();
    assert_eq!(entry.address_space.as_u64(), 0x10_0000);
    assert_eq!(entry.trap_frame.instruction_pointer, 0x40_0000);
    assert_eq!(entry.trap_frame.rdi, 1);
    assert_eq!(scheduler.get_current_task_id(), user_id);
    assert_eq!(scheduler.tasks[0].state, TaskState::Blocked);
    assert_eq!(scheduler.tasks[user_id as usize].state, TaskState::Running);
    assert!(scheduler.is_user_task_active(user_id));
    assert_eq!(scheduler.counters.one_shot_user_entry_count, 1);
    assert!(scheduler.prepare_one_shot_user_task(user_id, &TaskKernelStacks::new()).is_none());
}

#[test]
fn finish_retains_the_exit_for_the_parent_and_hands_back_the_processor() {
    let mut scheduler = Scheduler::new();
    let user_id = enter_new_user(&mut scheduler, 0x10_0000);
    let exit = scheduler.finish_current_task(7).unwrap();
    assert_eq!(exit.task_id(), user_id);
    assert_eq!(exit.exit_code(), 7);
    assert_eq!(exit.wait_status(), 7 << 8);
    assert_eq!(scheduler.get_current_task_id(), 0);
    assert_eq!(scheduler.tasks[0].state, TaskState::Running);
    assert_eq!(scheduler.tasks[user_id as usize].state, TaskState::Finished);
    assert!(!scheduler.is_user_task_active(user_id));
    assert_eq!(scheduler.take_finished_user_exit().unwrap().task_id(), user_id);
    assert!(scheduler.take_finished_user_exit().is_none());
    assert!(scheduler.finish_current_task(1).is_none());
}

#[test]
fn child_exit_is_collected_exactly_once() {
    let mut scheduler = Scheduler::new();
    let user_id = enter_new_user(&mut scheduler, 0x10_0000);
    scheduler.finish_current_task(3);
    assert!(scheduler.collect_waitable_child_exit(5, None).is_none());
    let exit = scheduler.collect_waitable_child_exit(0, Some(user_id)).unwrap();
    assert_eq!(exit.task_id(), user_id);
    assert_eq!(exit.exit_code(), 3);
    assert!(scheduler.collect_waitable_child_exit(0, Some(user_id)).is_none());
    assert!(scheduler.collect_waitable_child_exit(0, None).is_none());
}

#[test]
fn orphans_go_to_the_bootstrap_task() {
    let mut scheduler = Scheduler::new();
    let parent = enter_new_user(&mut scheduler, 0x10_0000);
    let child = spawn_user(&mut scheduler, 0x20_0000);
    assert_eq!(scheduler.current_user_task_has_child(Some(child)), Some(true));
    assert_eq!(scheduler.current_user_task_has_child(Some(parent)), Some(false));
    scheduler.finish_current_task(0);
    let new_parent = scheduler.tasks[child as usize].metadata.get_parent_identifier().unwrap();
    assert_eq!(new_parent.as_u64(), 0);
    assert_eq!(scheduler.current_user_task_has_child(None), None);
}

#[test]
fn waitpid_parent_wakes_when_its_child_exits() {
    let mut scheduler = Scheduler::new();
    let parent = enter_new_user(&mut scheduler, 0x10_0000);
    let child = spawn_user(&mut scheduler, 0x20_0000);
    assert!(scheduler.activate_user_task(child));
    let status = UserWritableRange::from_syscall_arguments(0x6000, 4);
    assert_eq!(scheduler.prepare_current_user_waitpid(Some(child), status), Some(parent));
    assert_eq!(scheduler.prepare_current_user_waitpid(None, None), None);
    assert_eq!(scheduler.block_current_user_after_syscall(), Some(parent));
    assert_eq!(scheduler.tasks[parent as usize].state, TaskState::Blocked);
    assert_eq!(scheduler.counters.user_waitpid_block_count, 1);
    assert!(scheduler.prepare_one_shot_user_task(child, &TaskKernelStacks::new()).is_some());
    let exit = scheduler.finish_current_task(9).unwrap();
    assert_eq!(exit.task_id(), child);
    assert_eq!(scheduler.tasks[parent as usize].state, TaskState::Ready);
    assert_eq!(scheduler.counters.user_waitpid_wake_count, 1);
    let completion = scheduler.complete_pending_user_waitpid_status(parent).unwrap();
    assert_eq!(completion.child_task_id, child);
    assert_eq!(completion.wait_status, 9 << 8);
    assert!(completion.status_buffer.is_some());
    assert!(scheduler.complete_pending_user_waitpid_status(parent).is_none());
    assert!(scheduler.collect_waitable_child_exit(parent, Some(child)).is_none());
}

#[test]
fn sleeping_task_wakes_at_its_tick() {
    let mut scheduler = Scheduler::new();
    let user_id = enter_new_user(&mut scheduler, 0x10_0000);
    assert_eq!(scheduler.prepare_current_user_sleep(100), Some(user_id));
    assert_eq!(scheduler.block_current_user_after_syscall(), Some(user_id));
    scheduler.wake_sleeping_user_tasks(99);
    assert_eq!(scheduler.tasks[user_id as usize].state, TaskState::Blocked);
    scheduler.wake_sleeping_user_tasks(100);
    assert_eq!(scheduler.tasks[user_id as usize].state, TaskState::Ready);
    assert_eq!(scheduler.counters.user_sleep_wake_count, 1);
    assert_eq!(scheduler.counters.user_sleep_block_count, 1);
}

#[test]
fn keyboard_reader_blocks_and_wakes() {
    let mut scheduler = Scheduler::new();
    let user_id = enter_new_user(&mut scheduler, 0x10_0000);
    let buffer = UserWritableRange::from_syscall_arguments(0x9000, 16).unwrap();
    let request = UserReadRequest::new(0, buffer);
    assert_eq!(request.byte_len(), 16);
    assert_eq!(scheduler.prepare_current_user_read(request), Some(user_id));
    assert_eq!(scheduler.prepare_current_user_read(request), None);
    assert_eq!(scheduler.block_current_user_after_syscall(), Some(user_id));
    assert!(scheduler.is_user_task_blocked_for_read(user_id));
    assert_eq!(scheduler.wake_keyboard_readers(), Some(user_id));
    assert!(!scheduler.is_user_task_blocked_for_read(user_id));
    assert_eq!(scheduler.wake_keyboard_readers(), None);
    assert!(scheduler.prepare_one_shot_user_task(user_id, &TaskKernelStacks::new()).is_some());
    assert_eq!(scheduler.take_current_user_read_request(user_id), Some(request));
    assert_eq!(scheduler.take_current_user_read_request(user_id), None);
    assert_eq!(scheduler.complete_current_user_read(user_id, 5), Some(()));
    assert_eq!(scheduler.complete_current_user_read(user_id + 1, 5), None);
}

#[test]
fn block_without_a_prepared_wait_is_refused() {
    let mut scheduler = Scheduler::new();
    enter_new_user(&mut scheduler, 0x10_0000);
    assert_eq!(scheduler.block_current_user_after_syscall(), None);
}

#[test]
fn round_robin_prefers_first_entry_user_tasks_from_kernel_tasks() {
    let mut scheduler = Scheduler::new();
    let kernel_id = scheduler.spawn(TaskContext::with_initial_stack(0x8000));
    let user_id = spawn_user(&mut scheduler, 0x10_0000);
    assert_eq!(scheduler.get_next_ready_index(0), Some(kernel_id as usize));
    assert!(scheduler.activate_user_task(user_id));
    assert_eq!(scheduler.get_next_ready_index(0), Some(user_id as usize));
    assert!(scheduler.can_schedule_task(kernel_id as usize));
    assert!(scheduler.is_first_entry_user_candidate(user_id as usize));
}

#[test]
fn single_task_never_switches() {
    let mut scheduler = Scheduler::new();
    assert_eq!(scheduler.get_next_ready_index(0), None);
    assert!(scheduler.prepare_next_switch(false, 1, &TaskKernelStacks::new()).is_none());
    assert_eq!(scheduler.current_timer_quantum_ticks, 1);
}

#[test]
fn timer_switch_enters_a_fresh_user_task_after_the_quantum() {
    let mut scheduler = Scheduler::new();
    let user_id = spawn_user(&mut scheduler, 0x10_0000);
    assert!(scheduler.activate_user_task(user_id));
    assert!(scheduler.prepare_next_switch(false, 2, &TaskKernelStacks::new()).is_none());
    match scheduler.prepare_next_switch(false, 2, &TaskKernelStacks::new()) {
        Some(SwitchDecision::EnterUser { current_index, task_id, trap_frame, address_space }) => {
            assert_eq!(current_index, 0);
            assert_eq!(task_id, user_id);
            assert_eq!(trap_frame.stack_pointer, 0x7fff_0000);
            assert_eq!(address_space.as_u64(), 0x10_0000);
        }
        _ => panic!("expected a first user entry"),
    }
    assert_eq!(scheduler.get_current_task_id(), user_id);
    assert_eq!(scheduler.tasks[0].state, TaskState::Ready);
    assert_eq!(scheduler.current_timer_quantum_ticks, 0);
    assert_eq!(scheduler.counters.timer_user_entry_count, 1);
    match scheduler.tasks[user_id as usize].kind {
        TaskKind::User(runtime) => {
            assert_eq!(runtime.last_resume_path, UserResumePathDiagnostics::TimerEntry);
            assert_eq!(runtime.resume_handoff_count, 1);
            assert_eq!(runtime.last_resume_kernel_stack_top, None);
        }
        TaskKind::Kernel => panic!("expected a user task"),
    }
    assert!(!scheduler.can_switch_current_task_away(true));
}

#[test]
fn recorded_timer_frame_lets_the_user_task_be_preempted() {
    let mut scheduler = Scheduler::new();
    let user_id = enter_new_user(&mut scheduler, 0x10_0000);
    let mut frame: UserTrapFrame = entry_context().to_trap_frame();
    frame.rax = 42;
    scheduler.record_current_user_trap_frame(frame, UserTrapFrameSource::TimerInterrupt);
    assert!(scheduler.can_switch_current_task_away(true));
    assert!(!scheduler.can_switch_current_task_away(false));
    match scheduler.tasks[user_id as usize].kind {
        TaskKind::User(runtime) => {
            assert_eq!(runtime.saved_frame.rax, 42);
            assert_eq!(runtime.runtime_trap_frame_record_count, 1);
            assert!(runtime.interrupt_frame_recorded);
            assert!(!runtime.syscall_frame_recorded);
        }
        TaskKind::Kernel => panic!("expected a user task"),
    }
}

#[test]
fn image_replacement_resets_the_user_runtime() {
    let mut scheduler = Scheduler::new();
    let user_id = enter_new_user(&mut scheduler, 0x10_0000);
    scheduler.prepare_current_user_sleep(10);
    let frame = entry_context().to_trap_frame();
    let (task_id, old_root) = scheduler
        .replace_current_user_image(root(0x30_0000), frame, user_address(0x60_0000), "/bin/sh")
        .unwrap();
    assert_eq!(task_id, user_id);
    assert_eq!(old_root.as_u64(), 0x10_0000);
    assert_eq!(scheduler.current_user_address_space().unwrap().as_u64(), 0x30_0000);
    assert!(scheduler.prepare_current_user_waitpid(None, None).is_some());
}

#[test]
fn address_space_reclaim_runs_only_for_finished_tasks() {
    let mut scheduler = Scheduler::new();
    let user_id = enter_new_user(&mut scheduler, 0x10_0000);
    assert!(scheduler.begin_finished_user_address_space_reclaim(user_id).is_none());
    scheduler.finish_current_task(0);
    let root = scheduler.begin_finished_user_address_space_reclaim(user_id).unwrap();
    assert_eq!(root.as_u64(), 0x10_0000);
    assert!(scheduler.user_address_space(user_id as usize).is_none());
    assert!(scheduler.begin_finished_user_address_space_reclaim(user_id).is_none());
    assert!(scheduler.finish_finished_user_address_space_reclaim(user_id, 12, 4));
    assert!(!scheduler.finish_finished_user_address_space_reclaim(user_id, 12, 4));
    assert_eq!(scheduler.counters.reclaimed_user_page_count, 12);
    assert_eq!(scheduler.counters.reclaimed_user_page_table_page_count, 4);
    assert_eq!(scheduler.counters.address_space_reclaim_guard_check_count, 1);
}

#[test]
fn transition_invariant_check_is_counted() {
    let mut scheduler = Scheduler::new();
    assert!(scheduler.verify_transition_invariants());
    assert_eq!(scheduler.counters.transition_invariant_check_count, 1);
}

#[test]
fn counters_saturate() {
    assert_eq!(saturating_increment(u64::MAX), u64::MAX);
    assert_eq!(saturating_increment(4), 5);
}

#[test]
fn diagnostics_count_tasks_by_state_and_kind() {
    let mut scheduler = Scheduler::new();
    let mut preemption = PreemptionControl::new();
    let window = UserReturnWindow::new();
    scheduler.spawn(TaskContext::with_initial_stack(0x8000));
    let user_id = enter_new_user(&mut scheduler, 0x10_0000);
    scheduler.finish_current_task(2);
    preemption.close_user_return_preemption_window(user_id);
    let diagnostics = scheduler.get_diagnostics(&preemption, &window);
    assert_eq!(diagnostics.total_tasks, 3);
    assert_eq!(diagnostics.kernel_tasks, 2);
    assert_eq!(diagnostics.user_tasks, 1);
    assert_eq!(diagnostics.states.ready(), 1);
    assert_eq!(diagnostics.states.running(), 1);
    assert_eq!(diagnostics.states.blocked(), 0);
    assert_eq!(diagnostics.states.finished(), 1);
    assert_eq!(diagnostics.waitable_user_exit_statuses, 1);
    assert_eq!(diagnostics.zombie_user_tasks, 1);
    assert_eq!(diagnostics.pending_user_exits, 1);
    assert_eq!(diagnostics.finished_tasks, 1);
    assert_eq!(diagnostics.preemption_state, PreemptionStateDiagnostics::UserReturn);
    assert_eq!(diagnostics.user_return_preemption_window_closes, 1);
    assert_eq!(
        scheduler.count_population(TaskPopulation::UserWithAddressSpace),
        1
    );
}

#[test]
fn preemption_can_be_switched_off_and_on() {
    let mut preemption = PreemptionControl::new();
    assert!(preemption.is_enabled());
    preemption.set_preemption_enabled(false);
    assert!(!preemption.is_enabled());
    assert_eq!(preemption.state, PreemptionStateDiagnostics::Disabled);
    preemption.set_preemption_enabled(true);
    assert!(preemption.is_enabled());
}

#[test]
fn kernel_stack_reclaims_are_counted() {
    let mut scheduler = Scheduler::new();
    scheduler.record_user_kernel_stack_reclaim(4, 5);
    scheduler.record_user_resource_reclaim(false, true);
    scheduler.record_user_resource_reclaim(false, false);
    assert_eq!(scheduler.counters.reclaimed_user_kernel_stack_count, 1);
    assert_eq!(scheduler.counters.reclaimed_user_kernel_stack_writable_pages, 4);
    assert_eq!(scheduler.counters.reclaimed_user_kernel_stack_virtual_pages, 5);
    assert_eq!(scheduler.counters.reclaimed_user_resource_record_count, 1);
}

#[test]
fn the_running_user_task_heap_can_be_read_and_replaced() {
    let mut scheduler = Scheduler::new();
    assert!(scheduler.current_user_heap().is_none());
    let user_id = enter_new_user(&mut scheduler, 0x10_0000);
    let mut heap = scheduler.current_user_heap().unwrap();
    assert_eq!(heap.current_break().as_u64(), 0x50_0000);
    let (new_break, mapped_end) = heap.plan_break(0x50_1800).unwrap();
    assert_eq!(mapped_end, 0x50_2000);
    heap.record_mapped_page();
    heap.record_mapped_page();
    heap.set_break(new_break);
    assert_eq!(scheduler.set_current_user_heap(heap), Some(user_id));
    let stored = scheduler.current_user_heap().unwrap();
    assert_eq!(stored.current_break().as_u64(), 0x50_1800);
    assert_eq!(stored.mapped_pages(), 2);
}

fn runtime_of(scheduler: &Scheduler, task_id: u64) -> manaos::kernel::task::scheduler::UserTaskRuntime {
    match scheduler.tasks[task_id as usize].kind {
        TaskKind::User(runtime) => runtime,
        TaskKind::Kernel => panic!("task must be a user task"),
    }
}

#[test]
fn image_records_follow_spawn_replacement_and_reclaim() {
    let mut scheduler = Scheduler::new();
    let user_id = enter_new_user(&mut scheduler, 0x10_0000);
    let image = runtime_of(&scheduler, user_id).image.snapshot();
    assert_eq!(image.generation(), 0);
    assert_eq!(image.origin_path_len(), 9);
    assert_eq!(&image.origin_path_bytes()[..9], b"/bin/init");
    assert_eq!(image.last_execve_state(), UserExecveReplacementStateDiagnostics::NoCandidate);
    assert!(scheduler.record_current_user_execve_candidate_drop());
    let image = runtime_of(&scheduler, user_id).image.snapshot();
    assert_eq!(image.last_execve_state(), UserExecveReplacementStateDiagnostics::CandidateDropped);
    let frame = entry_context().to_trap_frame();
    scheduler
        .replace_current_user_image(root(0x30_0000), frame, user_address(0x60_0000), "/bin/sh")
        .unwrap();
    assert!(scheduler.record_current_user_execve_reclaim(user_id, 7, 3));
    assert!(!scheduler.record_current_user_execve_reclaim(0, 7, 3));
    assert!(!scheduler.record_current_user_execve_reclaim(99, 7, 3));
    let image = runtime_of(&scheduler, user_id).image.snapshot();
    assert_eq!(image.generation(), 1);
    assert_eq!(image.path_len(), 7);
    assert_eq!(&image.path_bytes()[..8], b"/bin/sh\0");
    assert_eq!(&image.origin_path_bytes()[..9], b"/bin/init");
    assert_eq!(image.last_execve_state(), UserExecveReplacementStateDiagnostics::Published);
    assert_eq!(image.last_execve_old_user_pages(), 7);
    assert_eq!(image.last_execve_old_page_table_pages(), 3);
}

#[test]
fn long_paths_are_cut_on_a_character_boundary() {
    let mut destination = [7u8; 256];
    let path = format!("/{}é", "a".repeat(254));
    assert_eq!(path.len(), 257);
    assert_eq!(copy_path_to_diagnostic(&path, &mut destination), 255);
    assert_eq!(destination[254], b'a');
    assert_eq!(destination[255], 7);
    let mut short = [1u8; 256];
    assert_eq!(copy_path_to_diagnostic("é", &mut short), 2);
    assert_eq!(&short[..3], &[0xc3, 0xa9, 1]);
}

#[test]
fn mapping_accounting_saturates_and_keeps_peaks() {
    let mut scheduler = Scheduler::new();
    assert!(scheduler.record_current_user_mapping(1, 0, 1, 1, false).is_none());
    let user_id = enter_new_user(&mut scheduler, 0x10_0000);
    assert_eq!(scheduler.record_current_user_mapping(4, 1, 6, 2, true), Some(user_id));
    assert_eq!(scheduler.record_current_user_unmapping(3, 3, 1), Some(user_id));
    assert_eq!(scheduler.record_current_user_mapping(u64::MAX, 0, 2, 1, false), Some(user_id));
    let statistics = runtime_of(&scheduler, user_id).mapping_statistics;
    assert_eq!(statistics.total_mapped_pages, u64::MAX);
    assert_eq!(statistics.total_released_pages, 4);
    assert_eq!(statistics.peak_active_pages, 6);
    assert_eq!(statistics.peak_active_records, 2);
    assert_eq!(statistics.file_private_map_count, 1);
}
