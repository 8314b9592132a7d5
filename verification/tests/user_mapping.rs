use manaos::kernel::memory::address::UserPageStart;
use manaos::kernel::memory::user_layout::USER_MAPPING_BASE;
use manaos::kernel::memory::user_mapping::{
    user_page_flags, UserMappingError, UserMappingLength, UserMappingPlacement, UserMappingPlan,
    UserMappingSource, UserMappingUnmapRequest, UserMappings,
};

fn plan(placement: UserMappingPlacement, bytes: u64) -> UserMappingPlan {
    UserMappingPlan::new(
        placement,
        UserMappingLength::from_syscall_argument(bytes).unwrap(),
        true,
        UserMappingSource::Anonymous,
    )
}

#[test]
fn private_mapping_is_placed_committed_and_released() {
    let mut mappings = UserMappings::new();
    assert_eq!(mappings.next_start().as_u64(), USER_MAPPING_BASE);
    let reservation = mappings
        .reserve_private_mapping(plan(UserMappingPlacement::Any, 0x2001))
        .unwrap();
    assert_eq!(reservation.range().first_page().as_u64(), USER_MAPPING_BASE);
    assert_eq!(reservation.range().pages_in_range().as_u64(), 3);
    assert!(mappings.can_commit(&reservation));
    let allocation = mappings.commit_private_mapping(reservation);
    assert_eq!(allocation.start().as_u64(), USER_MAPPING_BASE);
    assert_eq!(allocation.page_count().as_u64(), 3);
    assert_eq!(mappings.active_pages(), 3);
    assert_eq!(mappings.active_records(), 1);
    assert_eq!(mappings.next_start().as_u64(), USER_MAPPING_BASE + 0x3000);
    let middle = UserMappingUnmapRequest::from_syscall_arguments(USER_MAPPING_BASE + 0x1000, 0x1000)
        .unwrap();
    assert_eq!(mappings.release_private_range(middle).unwrap().as_u64(), 1);
    assert_eq!(mappings.active_pages(), 2);
    assert_eq!(mappings.active_records(), 2);
    assert!(mappings.release_private_range(middle).is_none());
}

#[test]
fn fixed_no_replace_refuses_an_occupied_range() {
    let mut mappings = UserMappings::new();
    let reservation = mappings
        .reserve_private_mapping(plan(UserMappingPlacement::Any, 0x1000))
        .unwrap();
    mappings.commit_private_mapping(reservation);
    let start = UserPageStart::new(
        manaos::kernel::memory::address::UserVirtualAddress::new(
            manaos::kernel::memory::address::VirtAddr::new(USER_MAPPING_BASE),
        )
        .unwrap(),
    )
    .unwrap();
    let result = mappings.reserve_private_mapping(plan(UserMappingPlacement::FixedNoReplace(start), 0x1000));
    assert_eq!(result.err(), Some(UserMappingError::AddressInUse));
}

#[test]
fn fixed_replace_takes_over_the_pages_it_covers() {
    let mut mappings = UserMappings::new();
    let reservation = mappings
        .reserve_private_mapping(plan(UserMappingPlacement::Any, 0x4000))
        .unwrap();
    mappings.commit_private_mapping(reservation);
    let start = UserPageStart::new(
        manaos::kernel::memory::address::UserVirtualAddress::new(
            manaos::kernel::memory::address::VirtAddr::new(USER_MAPPING_BASE + 0x1000),
        )
        .unwrap(),
    )
    .unwrap();
    let replacement = mappings
        .reserve_private_mapping(plan(UserMappingPlacement::FixedReplace(start), 0x2000))
        .unwrap();
    assert_eq!(replacement.replaced_page_count(), 2);
    assert_eq!(mappings.active_pages(), 2);
    let allocation = mappings.commit_private_mapping(replacement);
    assert_eq!(allocation.start().as_u64(), USER_MAPPING_BASE + 0x1000);
    assert_eq!(mappings.active_pages(), 4);
}

#[test]
fn zero_length_is_not_a_mapping_length() {
    assert!(UserMappingLength::from_syscall_argument(0).is_none());
    assert!(UserMappingLength::from_syscall_argument(u64::MAX).is_none());
    assert!(UserMappingUnmapRequest::from_syscall_arguments(USER_MAPPING_BASE + 1, 0x1000).is_none());
}

#[test]
fn user_pages_are_user_accessible_and_never_executable() {
    assert_eq!(user_page_flags(false), 1 | 4 | (1 << 63));
    assert_eq!(user_page_flags(true), 1 | 2 | 4 | (1 << 63));
}
