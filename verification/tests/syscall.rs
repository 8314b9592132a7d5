use manaos::kernel::memory::user_mapping::{UserMappingError, UserMappingPlacement};
use manaos::kernel::syscall::{
    is_supported_mapping_request, linux_error, mapping_placement, munmap_arguments_valid,
    nanosleep_duration_ticks, user_mapping_error_to_linux, SyscallTrace, MAP_FIXED,
    USER_BLOCK_SENTINEL, USER_EXECVE_SENTINEL, USER_EXIT_SENTINEL,
};

const PROT_READ: u64 = 1;
const PROT_WRITE: u64 = 2;
const PROT_EXEC: u64 = 4;
const MAP_PRIVATE: u64 = 2;
const MAP_ANONYMOUS: u64 = 0x20;

#[test]
fn errors_encode_as_negative_numbers() {
    assert_eq!(linux_error(22), (-22i64) as u64);
    assert_eq!(linux_error(1), u64::MAX);
    assert!(linux_error(4095) > USER_EXIT_SENTINEL);
    assert!(USER_BLOCK_SENTINEL < USER_EXIT_SENTINEL);
    assert!(USER_EXECVE_SENTINEL < USER_BLOCK_SENTINEL);
}

#[test]
fn nanosleep_rounds_part_ticks_up() {
    assert_eq!(nanosleep_duration_ticks(0, 0), Some(0));
    assert_eq!(nanosleep_duration_ticks(2, 1), Some(2001));
    assert_eq!(nanosleep_duration_ticks(0, 1_000_000), Some(1));
    assert_eq!(nanosleep_duration_ticks(0, 1_000_000_000), None);
    assert_eq!(nanosleep_duration_ticks(u64::MAX, 0), None);
}

#[test]
fn only_private_read_write_mappings_are_supported() {
    let flags = MAP_PRIVATE | MAP_ANONYMOUS;
    assert!(is_supported_mapping_request(4096, PROT_READ | PROT_WRITE, flags));
    assert!(!is_supported_mapping_request(0, PROT_READ, flags));
    assert!(!is_supported_mapping_request(4096, PROT_READ | PROT_EXEC, flags));
    assert!(!is_supported_mapping_request(4096, 0, flags));
    assert!(!is_supported_mapping_request(4096, PROT_READ, MAP_ANONYMOUS));
}

#[test]
fn placement_follows_the_fixed_flags() {
    assert_eq!(mapping_placement(0, 0), Some(UserMappingPlacement::Any));
    assert_eq!(mapping_placement(0x1000, 0), None);
    match mapping_placement(0x40_0000, MAP_FIXED) {
        Some(UserMappingPlacement::FixedReplace(start)) => assert_eq!(start.as_u64(), 0x40_0000),
        _ => panic!("expected a fixed placement"),
    }
    assert_eq!(mapping_placement(0x40_0001, MAP_FIXED), None);
    assert_eq!(mapping_placement(0, MAP_FIXED), None);
}

#[test]
fn mapping_errors_map_to_linux_errors() {
    assert_eq!(user_mapping_error_to_linux(UserMappingError::InvalidRequest), linux_error(22));
    assert_eq!(user_mapping_error_to_linux(UserMappingError::AddressInUse), linux_error(17));
    assert_eq!(user_mapping_error_to_linux(UserMappingError::OutOfMemory), linux_error(12));
    assert_eq!(
        user_mapping_error_to_linux(UserMappingError::InitializationFailed),
        linux_error(95)
    );
}

#[test]
fn munmap_needs_an_aligned_user_range() {
    assert!(munmap_arguments_valid(0x40_0000, 0x1000));
    assert!(!munmap_arguments_valid(0x40_0001, 0x1000));
    assert!(!munmap_arguments_valid(0x40_0000, 0));
}

#[test]
fn trace_records_only_while_enabled() {
    let mut trace = SyscallTrace::new();
    trace.record_syscall_trace(Some(1), 60, 0);
    assert_eq!(trace.get_trace_diagnostics().record_count(), 0);
    trace.set_trace_enabled(true);
    trace.record_syscall_trace(Some(3), 39, 3);
    let diagnostics = trace.get_trace_diagnostics();
    assert!(diagnostics.enabled());
    assert_eq!(diagnostics.record_count(), 1);
    assert_eq!(diagnostics.last_task_id(), Some(3));
    assert_eq!(diagnostics.last_syscall_number(), Some(39));
    assert_eq!(diagnostics.last_result(), Some(3));
    trace.reset_trace();
    assert_eq!(trace.get_trace_diagnostics().record_count(), 0);
}
