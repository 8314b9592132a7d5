use manaos::kernel::memory::address::{FrameCount, PhysAddr};
use manaos::kernel::memory::frame_allocator::{
    FrameAllocatorStatistics, FrameRangeOwner, PhysicalFrameAllocator,
};
use manaos::kernel::memory::self_checks::{
    verify_contiguous_allocation_boundaries, verify_duplicate_allocation_rejection,
    verify_explicit_owner_coverage, verify_owner_tracking, verify_released_frame_reuse,
    verify_reserved_range_exclusion, verify_reserved_used_and_free_range_tracking,
    verify_zero_address_skip_for_multi_frame_allocations,
};

fn count(n: u64) -> FrameCount {
    FrameCount::new(n).unwrap()
}

#[test]
fn self_check_zero_address_skip() {
    assert!(verify_zero_address_skip_for_multi_frame_allocations());
}

#[test]
fn self_check_reserved_used_free_tracking() {
    assert!(verify_reserved_used_and_free_range_tracking());
}

#[test]
fn self_check_duplicate_allocation_rejection() {
    assert!(verify_duplicate_allocation_rejection());
}

#[test]
fn self_check_contiguous_allocation_boundaries() {
    assert!(verify_contiguous_allocation_boundaries());
}

#[test]
fn self_check_reserved_range_exclusion() {
    assert!(verify_reserved_range_exclusion());
}

#[test]
fn self_check_owner_tracking() {
    assert!(verify_owner_tracking());
}

#[test]
fn self_check_released_frame_reuse() {
    assert!(verify_released_frame_reuse());
}

#[test]
fn self_check_explicit_owner_coverage() {
    assert!(verify_explicit_owner_coverage());
}

#[test]
fn allocation_moves_free_frames_to_owner_on_values() {
    let mut allocator = PhysicalFrameAllocator::new();
    allocator.add_region(PhysAddr::new(0x10_0000), count(16));
    let before = allocator.statistics();
    let range = allocator
        .allocate_frames_for(count(5), FrameRangeOwner::KernelHeap)
        .unwrap();
    let after = allocator.statistics();
    assert_eq!(range.start().as_u64(), 0x10_0000);
    assert_eq!(range.frame_count().as_u64(), 5);
    assert_eq!(before.free - after.free, 5);
    assert_eq!(after.used - before.used, 5);
    assert_eq!(allocator.pages_owned_by(FrameRangeOwner::KernelHeap), 5);
}

#[test]
fn release_returns_frames_to_free_pool_on_values() {
    let mut allocator = PhysicalFrameAllocator::new();
    allocator.add_region(PhysAddr::new(0x20_0000), count(8));
    let range = allocator
        .allocate_frames_for(count(3), FrameRangeOwner::UserStack)
        .unwrap();
    assert!(allocator.free_frames_for(range, FrameRangeOwner::UserStack));
    assert_eq!(
        allocator.statistics(),
        FrameAllocatorStatistics {
            reserved: 0,
            free: 8,
            used: 0
        }
    );
    assert_eq!(allocator.pages_owned_by(FrameRangeOwner::UserStack), 0);
}

#[test]
fn allocation_refused_when_no_range_is_large_enough() {
    let mut allocator = PhysicalFrameAllocator::new();
    allocator.add_region(PhysAddr::new(0x1000), count(2));
    assert!(allocator.allocate_frames(count(3)).is_none());
    assert_eq!(allocator.statistics().free, 2);
}

#[test]
fn free_refused_for_free_owner_and_unknown_range() {
    let mut allocator = PhysicalFrameAllocator::new();
    allocator.add_region(PhysAddr::new(0x1000), count(4));
    let range = allocator
        .allocate_frames_for(count(1), FrameRangeOwner::PageTable)
        .unwrap();
    assert!(!allocator.free_frames_for(range, FrameRangeOwner::Free));
    assert!(!allocator.free_frames_for(range, FrameRangeOwner::KernelHeap));
    assert_eq!(allocator.pages_owned_by(FrameRangeOwner::PageTable), 1);
}

#[test]
fn unaligned_region_is_trimmed_to_whole_frames() {
    let mut allocator = PhysicalFrameAllocator::new();
    allocator.add_region(PhysAddr::new(0x1800), count(2));
    let frame = allocator.allocate_frame().unwrap();
    assert_eq!(frame.as_u64(), 0x2000);
    assert!(allocator.allocate_frame().is_none());
}

#[test]
fn region_checks_refuse_overlaps_and_full_tracking() {
    let mut allocator = PhysicalFrameAllocator::new();
    assert!(allocator.can_add_region(PhysAddr::new(0x10_0000), count(16)));
    allocator.add_region(PhysAddr::new(0x10_0000), count(16));
    assert!(!allocator.can_add_region(PhysAddr::new(0x10_8000), count(16)));
    assert!(allocator.can_add_region(PhysAddr::new(0x11_0000), count(16)));
    assert!(allocator.can_add_region(PhysAddr::new(u64::MAX - 0xfff), count(16)));
    assert!(allocator.can_reserve_region_for(
        PhysAddr::new(0x10_2000),
        count(1),
        FrameRangeOwner::FirmwareReserved
    ));
    allocator.reserve_region_for(PhysAddr::new(0x10_2000), count(1), FrameRangeOwner::FirmwareReserved);
    assert_eq!(allocator.statistics().reserved, 1);
    let mut added = 0u64;
    while allocator.can_add_region(PhysAddr::new(0x100_0000 + added * 0x2_0000), count(1)) {
        allocator.add_region(PhysAddr::new(0x100_0000 + added * 0x2_0000), count(1));
        added += 1;
    }
    assert_eq!(added, 509);
    assert!(!allocator.can_reserve_region_for(
        PhysAddr::new(0x20_0000),
        count(1),
        FrameRangeOwner::FirmwareReserved
    ));
}

#[test]
fn release_check_follows_the_owner_and_the_tracking_capacity() {
    let mut allocator = PhysicalFrameAllocator::new();
    allocator.add_region(PhysAddr::new(0x10_0000), count(8));
    let range = allocator.allocate_frames_for(count(4), FrameRangeOwner::UserHeap).unwrap();
    assert!(allocator.can_free_frames_for(range, FrameRangeOwner::UserHeap));
    assert!(allocator.can_free_frames_for(range, FrameRangeOwner::UserStack));
    assert!(allocator.can_free_frames_for(range, FrameRangeOwner::Free));
    assert!(allocator.free_frames_for(range, FrameRangeOwner::UserHeap));
    assert_eq!(allocator.pages_owned_by(FrameRangeOwner::UserHeap), 0);
}

#[test]
fn region_checks_refuse_frames_already_recorded() {
    let mut allocator = PhysicalFrameAllocator::new();
    allocator.reserve_region(PhysAddr::new(0x1000), count(1));
    assert!(!allocator.can_add_region(PhysAddr::new(0x1000), count(1)));
    assert!(allocator.can_add_region(PhysAddr::new(0x2000), count(2)));
    allocator.add_region(PhysAddr::new(0x2000), count(2));
    let frame = allocator.allocate_frame_for(FrameRangeOwner::PageTable).unwrap();
    assert_eq!(frame.as_u64(), 0x2000);
    assert!(!allocator.can_reserve_region_for(PhysAddr::new(0x2000), count(1), FrameRangeOwner::Mmio));
    assert!(allocator.can_reserve_region_for(PhysAddr::new(0x3000), count(1), FrameRangeOwner::Mmio));
    assert!(!allocator.can_add_region(PhysAddr::new(0x3000), count(1)));
}

#[test]
fn allocation_release_round_trip_restores_the_totals() {
    let mut allocator = PhysicalFrameAllocator::new();
    allocator.add_region(PhysAddr::new(0x10_0000), count(8));
    allocator.reserve_region(PhysAddr::new(0x10_6000), count(1));
    let statistics = allocator.statistics();
    let owners = allocator.owner_statistics();
    let range = allocator.allocate_frames_for(count(2), FrameRangeOwner::UserStack).unwrap();
    assert!(!allocator.free_frames_for(range, FrameRangeOwner::UserHeap));
    assert!(allocator.free_frames_for(range, FrameRangeOwner::UserStack));
    assert_eq!(allocator.statistics(), statistics);
    assert_eq!(allocator.owner_statistics(), owners);
    assert!(!allocator.free_frames_for(range, FrameRangeOwner::UserStack));
    assert_eq!(allocator.statistics(), statistics);
}
