use manaos::kernel::memory::address::VirtAddr;
use manaos::kernel::sync::ring_buffer::LockFreeRingBuffer;
use manaos::kernel::task::context::{first_entry_stack_pointer, TaskContext};
use manaos::kernel::task::metadata::{TaskIdentifier, TaskMetadata};
use manaos::kernel::task::process_lifecycle::{
    user_return_stack_from_abi, user_return_stack_to_abi, verify_typed_user_return_stack_address,
    UserReturnWindow, UserTaskExit,
};
use manaos::kernel::task::state::TaskState;

#[test]
fn task_state_transitions_refuse_wrong_states() {
    let mut state = TaskState::Ready;
    assert!(!state.prepare_to_wait());
    assert!(state.prepare_to_run());
    assert_eq!(state, TaskState::Running);
    assert!(state.prepare_to_block());
    assert_eq!(state, TaskState::Blocked);
    assert!(!state.finish_running());
    assert!(state.wake_blocked());
    assert_eq!(state, TaskState::Ready);
    assert!(state.prepare_to_run());
    assert!(state.finish_running());
    assert_eq!(state, TaskState::Finished);
    assert!(!state.prepare_to_run());
    assert!(!state.resume_blocked());
}

#[test]
fn identifiers_are_handed_out_in_order() {
    let mut next = TaskIdentifier::first_dynamic();
    assert_eq!(next.allocate().as_u64(), 1);
    assert_eq!(next.allocate().as_u64(), 2);
    assert_eq!(TaskIdentifier::bootstrap().as_u64(), 0);
}

#[test]
fn exit_status_is_recorded_and_collected_once() {
    let mut metadata = TaskMetadata::child(TaskIdentifier::first_dynamic(), TaskIdentifier::bootstrap());
    assert!(!metadata.is_waitable());
    assert!(metadata.record_exit_status(4));
    assert!(!metadata.record_exit_status(5));
    assert!(metadata.is_waitable());
    assert_eq!(metadata.collect_waitable_exit(), Some(4));
    assert_eq!(metadata.collect_waitable_exit(), None);
    assert!(metadata.wait_collected());
    assert_eq!(metadata.get_exit_code(), Some(4));
    assert!(!metadata.reparent_to_initial_process());
}

#[test]
fn wait_status_holds_the_low_exit_byte() {
    assert_eq!(UserTaskExit::new(3, 0x1ff).wait_status(), 0xff00);
    assert_eq!(UserTaskExit::new(3, 0).wait_status(), 0);
}

#[test]
fn return_window_stores_and_takes_the_stack_once() {
    let mut window = UserReturnWindow::new();
    window.begin(7);
    assert!(!window.is_consumed());
    window.set_user_return_stack(VirtAddr::new(0xffff_8000_0010_0000));
    assert_eq!(window.get_user_return_stack().as_u64(), 0xffff_8000_0010_0000);
    assert!(window.is_consumed());
    assert_eq!(window.user_return_stack_set_count(), 1);
    assert_eq!(window.user_return_stack_take_count(), 1);
    assert!(verify_typed_user_return_stack_address());
    assert_eq!(user_return_stack_to_abi(user_return_stack_from_abi(0x1234)), 0x1234);
}

#[test]
fn fresh_kernel_context_starts_below_the_aligned_top() {
    assert_eq!(first_entry_stack_pointer(0x8008), 0x7ff0);
    assert!(TaskContext::new().is_empty());
    assert!(!TaskContext::with_initial_stack(0x8000).is_empty());
}

#[test]
fn ring_buffer_is_first_in_first_out() {
    let mut buffer: LockFreeRingBuffer<u8, 4> = LockFreeRingBuffer::new();
    assert!(buffer.is_empty());
    assert_eq!(buffer.push(1), Ok(()));
    assert_eq!(buffer.push(2), Ok(()));
    assert_eq!(buffer.push(3), Ok(()));
    assert_eq!(buffer.push(4), Err(4));
    assert_eq!(buffer.len(), 3);
    assert_eq!(buffer.pop(), Some(1));
    assert_eq!(buffer.pop(), Some(2));
    assert_eq!(buffer.pop(), Some(3));
    assert_eq!(buffer.pop(), None);
}
