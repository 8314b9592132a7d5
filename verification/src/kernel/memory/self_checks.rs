//! Frame allocator self-check routines: fixed scenarios whose outcome the
//! allocator's contracts determine, each proved to report success.

use vstd::prelude::*;

use crate::kernel::memory::address::{FrameCount, PhysAddr};
use crate::kernel::memory::frame_allocator::{
    allocation_fits_capacity, apart_from_regions, carve_free, conventional_region, first_fit, first_fit_part,
    first_owned_covering, merge_regions, merge_tracked, pages_in_state, pages_of_owner,
    region_insertion_point, release_fits_capacity, release_part, reservation_fits_capacity,
    reservation_result, reserved_region, allocation_result, split_count, tracked_insertion_point,
    FrameAllocatorOwnerStatistics, FrameAllocatorStatistics, FrameRangeOwner, FrameRangeState,
    PhysicalFrameAllocator, Region, TrackedRange,
};

verus! {

/// A free run of `pages` frames at `start`.
pub open spec fn free_run(start: u64, pages: u64) -> TrackedRange {
    TrackedRange { region: Region { start, pages }, state: FrameRangeState::Free, owner: FrameRangeOwner::Free }
}

/// A run of `pages` frames at `start` in `state` for `owner`.
pub open spec fn held_run(start: u64, pages: u64, state: FrameRangeState, owner: FrameRangeOwner) -> TrackedRange {
    TrackedRange { region: Region { start, pages }, state, owner }
}

/// The tracked list after registering the conventional region `region`
/// into `s` (a non-empty region).
pub open spec fn with_free_region(s: Seq<TrackedRange>, region: Region) -> Seq<TrackedRange> {
    merge_tracked(
        s.insert(
            tracked_insertion_point(s, region.start),
            TrackedRange { region, state: FrameRangeState::Free, owner: FrameRangeOwner::Free },
        ),
    )
}

/// The region list after registering `region` into `s`.
pub open spec fn with_region(s: Seq<Region>, region: Region) -> Seq<Region> {
    merge_regions(s.insert(region_insertion_point(s, region.start), region))
}

/// Verify the frame-zero skip behavior for multi-frame allocations.
#[verifier::spinoff_prover]
#[verifier::rlimit(100)]
pub fn verify_zero_address_skip_for_multi_frame_allocations() -> (r: bool)
    ensures
        r,
{
    let mut frame_allocator = PhysicalFrameAllocator::new();
    let three = FrameCount::new(3).unwrap();
    let two = FrameCount::new(2).unwrap();
    proof {
        assert(conventional_region(0, 3) == Some(Region { start: 4096, pages: 2 }));
        assert(with_free_region(seq![], Region { start: 4096, pages: 2 }) == seq![free_run(4096, 2)]) by {
            reveal_with_fuel(merge_tracked, 16); reveal_with_fuel(tracked_insertion_point, 16);
        }
    }
    frame_allocator.add_region(PhysAddr::new(0), three);
    proof {
        assert(allocation_fits_capacity(seq![free_run(4096, 2)], 2)) by {
            reveal_with_fuel(first_fit, 16);
        }
        assert(first_fit(seq![free_run(4096, 2)], 2) == 0) by {
            reveal_with_fuel(first_fit, 16);
        }
        assert(first_fit_part(seq![free_run(4096, 2)], 2) == Region { start: 4096, pages: 2 }) by {
            reveal_with_fuel(first_fit, 16);
        }
    }
    match frame_allocator.allocate_frames(two) {
        Some(range) => range.start().as_u64() == 4096,
        None => false,
    }
}

/// Verify that contiguous allocations do not cross registered region gaps.
#[verifier::spinoff_prover]
#[verifier::rlimit(100)]
pub fn verify_contiguous_allocation_boundaries() -> (r: bool)
    ensures
        r,
{
    let mut frame_allocator = PhysicalFrameAllocator::new();
    let one = FrameCount::new(1).unwrap();
    let two = FrameCount::new(2).unwrap();
    proof {
        assert(conventional_region(4096, 1) == Some(Region { start: 4096, pages: 1 }));
        assert(conventional_region(12288, 2) == Some(Region { start: 12288, pages: 2 }));
        assert(with_free_region(seq![], Region { start: 4096, pages: 1 }) == seq![free_run(4096, 1)]) by {
            reveal_with_fuel(merge_tracked, 16); reveal_with_fuel(tracked_insertion_point, 16);
        }
        assert(with_region(seq![], Region { start: 4096, pages: 1 }) == seq![Region { start: 4096, pages: 1 }]) by {
            reveal_with_fuel(merge_regions, 16); reveal_with_fuel(region_insertion_point, 16);
        }
    }
    frame_allocator.add_region(PhysAddr::new(4096), one);
    proof {
        assert(apart_from_regions(seq![Region { start: 4096, pages: 1 }], Region { start: 12288, pages: 2 }));
        assert(with_free_region(seq![free_run(4096, 1)], Region { start: 12288, pages: 2 })
            == seq![free_run(4096, 1), free_run(12288, 2)]) by {
            reveal_with_fuel(merge_tracked, 16); reveal_with_fuel(tracked_insertion_point, 16);
        }
    }
    frame_allocator.add_region(PhysAddr::new(12288), two);
    proof {
        let s = seq![free_run(4096, 1), free_run(12288, 2)];
        assert(allocation_fits_capacity(s, 2)) by {
            reveal_with_fuel(first_fit, 16);
        }
        assert(first_fit(s, 2) == 1) by {
            reveal_with_fuel(first_fit, 16);
        }
        assert(first_fit_part(s, 2) == Region { start: 12288, pages: 2 }) by {
            reveal_with_fuel(first_fit, 16);
        }
    }
    match frame_allocator.allocate_frames(two) {
        Some(range) => range.start().as_u64() == 12288,
        None => false,
    }
}

/// Verify reserved, used, and free frame range tracking.
#[verifier::spinoff_prover]
#[verifier::rlimit(100)]
pub fn verify_reserved_used_and_free_range_tracking() -> (r: bool)
    ensures
        r,
{
    let mut frame_allocator = PhysicalFrameAllocator::new();
    let one = FrameCount::new(1).unwrap();
    let four = FrameCount::new(4).unwrap();
    let two = FrameCount::new(2).unwrap();
    let ghost reserved = held_run(0, 1, FrameRangeState::Reserved, FrameRangeOwner::FirmwareReserved);
    proof {
        assert(reserved_region(0, 1) == Some(Region { start: 0, pages: 1 }));
        assert(reservation_fits_capacity(seq![], Region { start: 0, pages: 1 }, FrameRangeOwner::FirmwareReserved)) by {
            reveal_with_fuel(split_count, 16); reveal_with_fuel(merge_tracked, 16); reveal_with_fuel(tracked_insertion_point, 16);
        }
        assert(reservation_result(seq![], Region { start: 0, pages: 1 }, FrameRangeOwner::FirmwareReserved)
            == seq![reserved]) by {
            reveal_with_fuel(merge_tracked, 16); reveal_with_fuel(carve_free, 16); reveal_with_fuel(tracked_insertion_point, 16);
        }
    }
    frame_allocator.reserve_region(PhysAddr::new(0), one);
    proof {
        assert(conventional_region(4096, 4) == Some(Region { start: 4096, pages: 4 }));
        assert(with_free_region(seq![reserved], Region { start: 4096, pages: 4 }) == seq![reserved, free_run(4096, 4)]) by {
            reveal_with_fuel(merge_tracked, 16); reveal_with_fuel(tracked_insertion_point, 16);
        }
    }
    frame_allocator.add_region(PhysAddr::new(4096), four);
    let ghost listed = seq![reserved, free_run(4096, 4)];
    proof {
        assert(allocation_fits_capacity(listed, 2)) by {
            reveal_with_fuel(first_fit, 16);
        }
        assert(first_fit(listed, 2) == 1) by {
            reveal_with_fuel(first_fit, 16);
        }
        assert(allocation_result(listed, 2, FrameRangeOwner::UnknownUsed) == seq![
            reserved,
            held_run(4096, 2, FrameRangeState::Used, FrameRangeOwner::UnknownUsed),
            free_run(12288, 2),
        ]) by {
            reveal_with_fuel(merge_tracked, 16); reveal_with_fuel(first_fit, 16);
        }
    }
    if frame_allocator.allocate_frames(two).is_none() {
        return false;
    }
    proof {
        let s = seq![
            reserved,
            held_run(4096, 2, FrameRangeState::Used, FrameRangeOwner::UnknownUsed),
            free_run(12288, 2),
        ];
        assert(pages_in_state(s, FrameRangeState::Reserved) == 1) by {
            reveal_with_fuel(pages_in_state, 16);
        }
        assert(pages_in_state(s, FrameRangeState::Free) == 2) by {
            reveal_with_fuel(pages_in_state, 16);
        }
        assert(pages_in_state(s, FrameRangeState::Used) == 2) by {
            reveal_with_fuel(pages_in_state, 16);
        }
    }
    frame_allocator.statistics() == FrameAllocatorStatistics { reserved: 1, free: 2, used: 2 }
}

/// Verify that allocations never return the same physical frame twice.
#[verifier::spinoff_prover]
#[verifier::rlimit(100)]
pub fn verify_duplicate_allocation_rejection() -> (r: bool)
    ensures
        r,
{
    let mut frame_allocator = PhysicalFrameAllocator::new();
    let four = FrameCount::new(4).unwrap();
    proof {
        assert(conventional_region(0, 4) == Some(Region { start: 4096, pages: 3 }));
        assert(with_free_region(seq![], Region { start: 4096, pages: 3 }) == seq![free_run(4096, 3)]) by {
            reveal_with_fuel(merge_tracked, 16); reveal_with_fuel(tracked_insertion_point, 16);
        }
    }
    frame_allocator.add_region(PhysAddr::new(0), four);
    let ghost used_one = held_run(4096, 1, FrameRangeState::Used, FrameRangeOwner::UnknownUsed);
    proof {
        assert(allocation_fits_capacity(seq![free_run(4096, 3)], 1)) by {
            reveal_with_fuel(first_fit, 16);
        }
        assert(first_fit(seq![free_run(4096, 3)], 1) == 0) by {
            reveal_with_fuel(first_fit, 16);
        }
        assert(first_fit_part(seq![free_run(4096, 3)], 1).start == 4096) by {
            reveal_with_fuel(first_fit, 16);
        }
        assert(allocation_result(seq![free_run(4096, 3)], 1, FrameRangeOwner::UnknownUsed) == seq![
            used_one,
            free_run(8192, 2),
        ]) by {
            reveal_with_fuel(merge_tracked, 16); reveal_with_fuel(first_fit, 16);
        }
    }
    let first_frame = match frame_allocator.allocate_frame() {
        Some(frame) => frame,
        None => return false,
    };
    let ghost after_first = seq![used_one, free_run(8192, 2)];
    proof {
        assert(allocation_fits_capacity(after_first, 1)) by {
            reveal_with_fuel(first_fit, 16);
        }
        assert(first_fit(after_first, 1) == 1) by {
            reveal_with_fuel(first_fit, 16);
        }
        assert(first_fit_part(after_first, 1).start == 8192) by {
            reveal_with_fuel(first_fit, 16);
        }
        assert(allocation_result(after_first, 1, FrameRangeOwner::UnknownUsed) == seq![
            held_run(4096, 2, FrameRangeState::Used, FrameRangeOwner::UnknownUsed),
            free_run(12288, 1),
        ]) by {
            reveal_with_fuel(merge_tracked, 16); reveal_with_fuel(first_fit, 16);
        }
    }
    let second_frame = match frame_allocator.allocate_frame() {
        Some(frame) => frame,
        None => return false,
    };
    proof {
        let s = seq![
            held_run(4096, 2, FrameRangeState::Used, FrameRangeOwner::UnknownUsed),
            free_run(12288, 1),
        ];
        assert(pages_in_state(s, FrameRangeState::Reserved) == 0) by {
            reveal_with_fuel(pages_in_state, 16);
        }
        assert(pages_in_state(s, FrameRangeState::Free) == 1) by {
            reveal_with_fuel(pages_in_state, 16);
        }
        assert(pages_in_state(s, FrameRangeState::Used) == 2) by {
            reveal_with_fuel(pages_in_state, 16);
        }
    }
    first_frame.as_u64() != second_frame.as_u64() && frame_allocator.statistics()
        == FrameAllocatorStatistics { reserved: 0, free: 1, used: 2 }
}

/// Verify that reserved ranges inside a free region are not allocated.
#[verifier::spinoff_prover]
#[verifier::rlimit(100)]
pub fn verify_reserved_range_exclusion() -> (r: bool)
    ensures
        r,
{
    let mut frame_allocator = PhysicalFrameAllocator::new();
    let one = FrameCount::new(1).unwrap();
    let four = FrameCount::new(4).unwrap();
    proof {
        assert(conventional_region(4096, 4) == Some(Region { start: 4096, pages: 4 }));
        assert(with_free_region(seq![], Region { start: 4096, pages: 4 }) == seq![free_run(4096, 4)]) by {
            reveal_with_fuel(merge_tracked, 16); reveal_with_fuel(tracked_insertion_point, 16);
        }
    }
    frame_allocator.add_region(PhysAddr::new(4096), four);
    let ghost reserved = held_run(8192, 1, FrameRangeState::Reserved, FrameRangeOwner::FirmwareReserved);
    let ghost carved = seq![free_run(4096, 1), free_run(12288, 2), reserved];
    proof {
        assert(reserved_region(8192, 1) == Some(Region { start: 8192, pages: 1 }));
        assert(reservation_fits_capacity(
            seq![free_run(4096, 4)],
            Region { start: 8192, pages: 1 },
            FrameRangeOwner::FirmwareReserved,
        )) by {
            reveal_with_fuel(split_count, 16); reveal_with_fuel(merge_tracked, 16); reveal_with_fuel(tracked_insertion_point, 16);
        }
        assert(reservation_result(
            seq![free_run(4096, 4)],
            Region { start: 8192, pages: 1 },
            FrameRangeOwner::FirmwareReserved,
        ) == carved) by {
            reveal_with_fuel(merge_tracked, 16); reveal_with_fuel(carve_free, 16); reveal_with_fuel(tracked_insertion_point, 16);
        }
    }
    frame_allocator.reserve_region(PhysAddr::new(8192), one);
    let ghost after_first = seq![
        held_run(4096, 1, FrameRangeState::Used, FrameRangeOwner::UnknownUsed),
        free_run(12288, 2),
        reserved,
    ];
    proof {
        assert(allocation_fits_capacity(carved, 1)) by {
            reveal_with_fuel(first_fit, 16);
        }
        assert(first_fit(carved, 1) == 0) by {
            reveal_with_fuel(first_fit, 16);
        }
        assert(first_fit_part(carved, 1).start == 4096) by {
            reveal_with_fuel(first_fit, 16);
        }
        assert(allocation_result(carved, 1, FrameRangeOwner::UnknownUsed) == after_first) by {
            reveal_with_fuel(merge_tracked, 16); reveal_with_fuel(first_fit, 16);
        }
    }
    let first_frame = match frame_allocator.allocate_frame() {
        Some(frame) => frame,
        None => return false,
    };
    let ghost after_second = seq![
        held_run(4096, 1, FrameRangeState::Used, FrameRangeOwner::UnknownUsed),
        held_run(12288, 1, FrameRangeState::Used, FrameRangeOwner::UnknownUsed),
        free_run(16384, 1),
        reserved,
    ];
    proof {
        assert(allocation_fits_capacity(after_first, 1)) by {
            reveal_with_fuel(first_fit, 16);
        }
        assert(first_fit(after_first, 1) == 1) by {
            reveal_with_fuel(first_fit, 16);
        }
        assert(first_fit_part(after_first, 1).start == 12288) by {
            reveal_with_fuel(first_fit, 16);
        }
        assert(allocation_result(after_first, 1, FrameRangeOwner::UnknownUsed) == after_second) by {
            reveal_with_fuel(merge_tracked, 16); reveal_with_fuel(first_fit, 16);
        }
    }
    let second_frame = match frame_allocator.allocate_frame() {
        Some(frame) => frame,
        None => return false,
    };
    proof {
        assert(pages_in_state(after_second, FrameRangeState::Reserved) == 1) by {
            reveal_with_fuel(pages_in_state, 16);
        }
        assert(pages_in_state(after_second, FrameRangeState::Free) == 1) by {
            reveal_with_fuel(pages_in_state, 16);
        }
        assert(pages_in_state(after_second, FrameRangeState::Used) == 2) by {
            reveal_with_fuel(pages_in_state, 16);
        }
    }
    first_frame.as_u64() == 4096 && second_frame.as_u64() == 12288 && frame_allocator.statistics()
        == FrameAllocatorStatistics { reserved: 1, free: 1, used: 2 }
}

/// Verify that used frame ranges record their explicit owners.
#[verifier::spinoff_prover]
#[verifier::rlimit(100)]
pub fn verify_owner_tracking() -> (r: bool)
    ensures
        r,
{
    let mut frame_allocator = PhysicalFrameAllocator::new();
    let eight = FrameCount::new(8).unwrap();
    let two = FrameCount::new(2).unwrap();
    let three = FrameCount::new(3).unwrap();
    proof {
        assert(conventional_region(4096, 8) == Some(Region { start: 4096, pages: 8 }));
        assert(with_free_region(seq![], Region { start: 4096, pages: 8 }) == seq![free_run(4096, 8)]) by {
            reveal_with_fuel(merge_tracked, 16); reveal_with_fuel(tracked_insertion_point, 16);
        }
    }
    frame_allocator.add_region(PhysAddr::new(4096), eight);
    let ghost heap = held_run(4096, 2, FrameRangeState::Used, FrameRangeOwner::KernelHeap);
    let ghost after_heap = seq![heap, free_run(12288, 6)];
    proof {
        assert(allocation_fits_capacity(seq![free_run(4096, 8)], 2)) by {
            reveal_with_fuel(first_fit, 16);
        }
        assert(first_fit(seq![free_run(4096, 8)], 2) == 0) by {
            reveal_with_fuel(first_fit, 16);
        }
        assert(allocation_result(seq![free_run(4096, 8)], 2, FrameRangeOwner::KernelHeap) == after_heap) by {
            reveal_with_fuel(merge_tracked, 16); reveal_with_fuel(first_fit, 16);
        }
    }
    if frame_allocator.allocate_frames_for(two, FrameRangeOwner::KernelHeap).is_none() {
        return false;
    }
    let ghost after_elf = seq![
        heap,
        held_run(12288, 3, FrameRangeState::Used, FrameRangeOwner::UserElf),
        free_run(24576, 3),
    ];
    proof {
        assert(allocation_fits_capacity(after_heap, 3)) by {
            reveal_with_fuel(first_fit, 16);
        }
        assert(first_fit(after_heap, 3) == 1) by {
            reveal_with_fuel(first_fit, 16);
        }
        assert(allocation_result(after_heap, 3, FrameRangeOwner::UserElf) == after_elf) by {
            reveal_with_fuel(merge_tracked, 16); reveal_with_fuel(first_fit, 16);
        }
    }
    if frame_allocator.allocate_frames_for(three, FrameRangeOwner::UserElf).is_none() {
        return false;
    }
    proof {
        assert(pages_of_owner(after_elf, FrameRangeOwner::KernelHeap) == 2) by {
            reveal_with_fuel(pages_of_owner, 16);
        }
        assert(pages_of_owner(after_elf, FrameRangeOwner::UserElf) == 3) by {
            reveal_with_fuel(pages_of_owner, 16);
        }
        assert(pages_in_state(after_elf, FrameRangeState::Reserved) == 0) by {
            reveal_with_fuel(pages_in_state, 16);
        }
        assert(pages_in_state(after_elf, FrameRangeState::Free) == 3) by {
            reveal_with_fuel(pages_in_state, 16);
        }
        assert(pages_in_state(after_elf, FrameRangeState::Used) == 5) by {
            reveal_with_fuel(pages_in_state, 16);
        }
    }
    frame_allocator.pages_owned_by(FrameRangeOwner::KernelHeap) == 2 && frame_allocator.pages_owned_by(
        FrameRangeOwner::UserElf,
    ) == 3 && frame_allocator.statistics() == FrameAllocatorStatistics { reserved: 0, free: 3, used: 5 }
}

/// Verify that released physical frames are reused and owner checked.
#[verifier::spinoff_prover]
#[verifier::rlimit(100)]
pub fn verify_released_frame_reuse() -> (r: bool)
    ensures
        r,
{
    let mut frame_allocator = PhysicalFrameAllocator::new();
    let three = FrameCount::new(3).unwrap();
    let two = FrameCount::new(2).unwrap();
    proof {
        assert(conventional_region(4096, 3) == Some(Region { start: 4096, pages: 3 }));
        assert(with_free_region(seq![], Region { start: 4096, pages: 3 }) == seq![free_run(4096, 3)]) by {
            reveal_with_fuel(merge_tracked, 16); reveal_with_fuel(tracked_insertion_point, 16);
        }
    }
    frame_allocator.add_region(PhysAddr::new(4096), three);
    let ghost dynamic = held_run(4096, 2, FrameRangeState::Used, FrameRangeOwner::DynamicKernelMapping);
    let ghost after_dynamic = seq![dynamic, free_run(12288, 1)];
    proof {
        assert(allocation_fits_capacity(seq![free_run(4096, 3)], 2)) by {
            reveal_with_fuel(first_fit, 16);
        }
        assert(first_fit(seq![free_run(4096, 3)], 2) == 0) by {
            reveal_with_fuel(first_fit, 16);
        }
        assert(first_fit_part(seq![free_run(4096, 3)], 2) == Region { start: 4096, pages: 2 }) by {
            reveal_with_fuel(first_fit, 16);
        }
        assert(allocation_result(seq![free_run(4096, 3)], 2, FrameRangeOwner::DynamicKernelMapping)
            == after_dynamic) by {
            reveal_with_fuel(merge_tracked, 16); reveal_with_fuel(first_fit, 16);
        }
    }
    let dynamic_range = match frame_allocator.allocate_frames_for(two, FrameRangeOwner::DynamicKernelMapping) {
        Some(range) => range,
        None => return false,
    };
    let ghost stack = held_run(12288, 1, FrameRangeState::Used, FrameRangeOwner::UserStack);
    let ghost after_stack = seq![dynamic, stack];
    proof {
        assert(allocation_fits_capacity(after_dynamic, 1)) by {
            reveal_with_fuel(first_fit, 16);
        }
        assert(first_fit(after_dynamic, 1) == 1) by {
            reveal_with_fuel(first_fit, 16);
        }
        assert(allocation_result(after_dynamic, 1, FrameRangeOwner::UserStack) == after_stack) by {
            reveal_with_fuel(merge_tracked, 16); reveal_with_fuel(first_fit, 16);
        }
    }
    if frame_allocator.allocate_frame_for(FrameRangeOwner::UserStack).is_none() {
        return false;
    }
    let ghost run = Region { start: 4096, pages: 2 };
    let ghost released = seq![free_run(4096, 2), stack];
    proof {
        assert(release_fits_capacity(after_stack, FrameRangeOwner::KernelStack, run)) by {
            reveal_with_fuel(first_owned_covering, 16);
        }
        assert(first_owned_covering(after_stack, FrameRangeOwner::KernelStack, run) == 2) by {
            reveal_with_fuel(first_owned_covering, 16);
        }
        assert(release_fits_capacity(after_stack, FrameRangeOwner::DynamicKernelMapping, run)) by {
            reveal_with_fuel(first_owned_covering, 16);
        }
        assert(first_owned_covering(after_stack, FrameRangeOwner::DynamicKernelMapping, run) == 0) by {
            reveal_with_fuel(first_owned_covering, 16);
        }
        assert(release_part(after_stack, 0, run, FrameRangeOwner::DynamicKernelMapping) == released) by {
            reveal_with_fuel(merge_tracked, 16);
        }
        assert(release_fits_capacity(released, FrameRangeOwner::DynamicKernelMapping, run)) by {
            reveal_with_fuel(first_owned_covering, 16);
        }
        assert(first_owned_covering(released, FrameRangeOwner::DynamicKernelMapping, run) == 2) by {
            reveal_with_fuel(first_owned_covering, 16);
        }
    }
    let wrong_owner_rejected = !frame_allocator.free_frames_for(dynamic_range, FrameRangeOwner::KernelStack);
    let released_ok = frame_allocator.free_frames_for(dynamic_range, FrameRangeOwner::DynamicKernelMapping);
    let double_free_rejected = !frame_allocator.free_frames_for(
        dynamic_range,
        FrameRangeOwner::DynamicKernelMapping,
    );
    let ghost reused = seq![held_run(4096, 2, FrameRangeState::Used, FrameRangeOwner::KernelStack), stack];
    proof {
        assert(allocation_fits_capacity(released, 2)) by {
            reveal_with_fuel(first_fit, 16);
        }
        assert(first_fit(released, 2) == 0) by {
            reveal_with_fuel(first_fit, 16);
        }
        assert(first_fit_part(released, 2) == Region { start: 4096, pages: 2 }) by {
            reveal_with_fuel(first_fit, 16);
        }
        assert(allocation_result(released, 2, FrameRangeOwner::KernelStack) == reused) by {
            reveal_with_fuel(merge_tracked, 16); reveal_with_fuel(first_fit, 16);
        }
    }
    let reused_range = match frame_allocator.allocate_frames_for(two, FrameRangeOwner::KernelStack) {
        Some(range) => range,
        None => return false,
    };
    proof {
        assert(pages_of_owner(reused, FrameRangeOwner::DynamicKernelMapping) == 0) by {
            reveal_with_fuel(pages_of_owner, 16);
        }
        assert(pages_of_owner(reused, FrameRangeOwner::KernelStack) == 2) by {
            reveal_with_fuel(pages_of_owner, 16);
        }
        assert(pages_in_state(reused, FrameRangeState::Reserved) == 0) by {
            reveal_with_fuel(pages_in_state, 16);
        }
        assert(pages_in_state(reused, FrameRangeState::Free) == 0) by {
            reveal_with_fuel(pages_in_state, 16);
        }
        assert(pages_in_state(reused, FrameRangeState::Used) == 3) by {
            reveal_with_fuel(pages_in_state, 16);
        }
    }
    let same_range = reused_range.start().as_u64() == dynamic_range.start().as_u64()
        && reused_range.frame_count().as_u64() == dynamic_range.frame_count().as_u64();
    wrong_owner_rejected && released_ok && double_free_rejected && same_range
        && frame_allocator.pages_owned_by(FrameRangeOwner::DynamicKernelMapping) == 0
        && frame_allocator.pages_owned_by(FrameRangeOwner::KernelStack) == 2 && frame_allocator.statistics()
        == FrameAllocatorStatistics { reserved: 0, free: 0, used: 3 }
}

#[verifier::rlimit(100)]
proof fn lemma_owner_coverage_step_0()
    ensures
        (reserved_region(0, 1) == Some(Region { start: 0, pages: 1 })),
        (reservation_fits_capacity(seq![], Region { start: 0, pages: 1 }, FrameRangeOwner::KernelImage)),
        (reservation_result(seq![], Region { start: 0, pages: 1 }, FrameRangeOwner::KernelImage)
            == seq![held_run(0, 1, FrameRangeState::Reserved, FrameRangeOwner::KernelImage)]),
{
        assert(reserved_region(0, 1) == Some(Region { start: 0, pages: 1 }));
        assert(reservation_fits_capacity(seq![], Region { start: 0, pages: 1 }, FrameRangeOwner::KernelImage)) by {
            reveal_with_fuel(split_count, 5); reveal_with_fuel(merge_tracked, 5); reveal_with_fuel(tracked_insertion_point, 5);
        }
        assert(reservation_result(seq![], Region { start: 0, pages: 1 }, FrameRangeOwner::KernelImage)
            == seq![held_run(0, 1, FrameRangeState::Reserved, FrameRangeOwner::KernelImage)]) by {
            reveal_with_fuel(merge_tracked, 5); reveal_with_fuel(carve_free, 5); reveal_with_fuel(tracked_insertion_point, 5);
        }
    }

#[verifier::rlimit(100)]
proof fn lemma_owner_coverage_step_1()
    ensures
        (reserved_region(4096, 1) == Some(Region { start: 4096, pages: 1 })),
        (reservation_fits_capacity(seq![held_run(0, 1, FrameRangeState::Reserved, FrameRangeOwner::KernelImage)], Region { start: 4096, pages: 1 }, FrameRangeOwner::Mmio)),
        (reservation_result(seq![held_run(0, 1, FrameRangeState::Reserved, FrameRangeOwner::KernelImage)], Region { start: 4096, pages: 1 }, FrameRangeOwner::Mmio)
            == seq![held_run(0, 1, FrameRangeState::Reserved, FrameRangeOwner::KernelImage), held_run(4096, 1, FrameRangeState::Reserved, FrameRangeOwner::Mmio)]),
{
        assert(reserved_region(4096, 1) == Some(Region { start: 4096, pages: 1 }));
        assert(reservation_fits_capacity(seq![held_run(0, 1, FrameRangeState::Reserved, FrameRangeOwner::KernelImage)], Region { start: 4096, pages: 1 }, FrameRangeOwner::Mmio)) by {
            reveal_with_fuel(split_count, 5); reveal_with_fuel(merge_tracked, 5); reveal_with_fuel(tracked_insertion_point, 5);
        }
        assert(reservation_result(seq![held_run(0, 1, FrameRangeState::Reserved, FrameRangeOwner::KernelImage)], Region { start: 4096, pages: 1 }, FrameRangeOwner::Mmio)
            == seq![held_run(0, 1, FrameRangeState::Reserved, FrameRangeOwner::KernelImage), held_run(4096, 1, FrameRangeState::Reserved, FrameRangeOwner::Mmio)]) by {
            reveal_with_fuel(merge_tracked, 5); reveal_with_fuel(carve_free, 5); reveal_with_fuel(tracked_insertion_point, 5);
        }
    }

#[verifier::rlimit(100)]
proof fn lemma_owner_coverage_step_2()
    ensures
        (reserved_region(8192, 1) == Some(Region { start: 8192, pages: 1 })),
        (reservation_fits_capacity(seq![held_run(0, 1, FrameRangeState::Reserved, FrameRangeOwner::KernelImage), held_run(4096, 1, FrameRangeState::Reserved, FrameRangeOwner::Mmio)], Region { start: 8192, pages: 1 }, FrameRangeOwner::GuardPage)),
        (reservation_result(seq![held_run(0, 1, FrameRangeState::Reserved, FrameRangeOwner::KernelImage), held_run(4096, 1, FrameRangeState::Reserved, FrameRangeOwner::Mmio)], Region { start: 8192, pages: 1 }, FrameRangeOwner::GuardPage)
            == seq![held_run(0, 1, FrameRangeState::Reserved, FrameRangeOwner::KernelImage), held_run(4096, 1, FrameRangeState::Reserved, FrameRangeOwner::Mmio), held_run(8192, 1, FrameRangeState::Reserved, FrameRangeOwner::GuardPage)]),
{
        assert(reserved_region(8192, 1) == Some(Region { start: 8192, pages: 1 }));
        assert(reservation_fits_capacity(seq![held_run(0, 1, FrameRangeState::Reserved, FrameRangeOwner::KernelImage), held_run(4096, 1, FrameRangeState::Reserved, FrameRangeOwner::Mmio)], Region { start: 8192, pages: 1 }, FrameRangeOwner::GuardPage)) by {
            reveal_with_fuel(split_count, 5); reveal_with_fuel(merge_tracked, 5); reveal_with_fuel(tracked_insertion_point, 5);
        }
        assert(reservation_result(seq![held_run(0, 1, FrameRangeState::Reserved, FrameRangeOwner::KernelImage), held_run(4096, 1, FrameRangeState::Reserved, FrameRangeOwner::Mmio)], Region { start: 8192, pages: 1 }, FrameRangeOwner::GuardPage)
            == seq![held_run(0, 1, FrameRangeState::Reserved, FrameRangeOwner::KernelImage), held_run(4096, 1, FrameRangeState::Reserved, FrameRangeOwner::Mmio), held_run(8192, 1, FrameRangeState::Reserved, FrameRangeOwner::GuardPage)]) by {
            reveal_with_fuel(merge_tracked, 5); reveal_with_fuel(carve_free, 5); reveal_with_fuel(tracked_insertion_point, 5);
        }
    }

#[verifier::rlimit(100)]
proof fn lemma_owner_coverage_step_3()
    ensures
        (conventional_region(12288, 20) == Some(Region { start: 12288, pages: 20 })),
        (with_free_region(seq![held_run(0, 1, FrameRangeState::Reserved, FrameRangeOwner::KernelImage), held_run(4096, 1, FrameRangeState::Reserved, FrameRangeOwner::Mmio), held_run(8192, 1, FrameRangeState::Reserved, FrameRangeOwner::GuardPage)], Region { start: 12288, pages: 20 }) == seq![held_run(0, 1, FrameRangeState::Reserved, FrameRangeOwner::KernelImage), held_run(4096, 1, FrameRangeState::Reserved, FrameRangeOwner::Mmio), held_run(8192, 1, FrameRangeState::Reserved, FrameRangeOwner::GuardPage), free_run(12288, 20)]),
{
        assert(conventional_region(12288, 20) == Some(Region { start: 12288, pages: 20 }));
        assert(with_free_region(seq![held_run(0, 1, FrameRangeState::Reserved, FrameRangeOwner::KernelImage), held_run(4096, 1, FrameRangeState::Reserved, FrameRangeOwner::Mmio), held_run(8192, 1, FrameRangeState::Reserved, FrameRangeOwner::GuardPage)], Region { start: 12288, pages: 20 }) == seq![held_run(0, 1, FrameRangeState::Reserved, FrameRangeOwner::KernelImage), held_run(4096, 1, FrameRangeState::Reserved, FrameRangeOwner::Mmio), held_run(8192, 1, FrameRangeState::Reserved, FrameRangeOwner::GuardPage), free_run(12288, 20)]) by {
            reveal_with_fuel(merge_tracked, 16); reveal_with_fuel(tracked_insertion_point, 16);
        }
    }

#[verifier::rlimit(100)]
proof fn lemma_owner_coverage_step_4()
    ensures
        allocation_fits_capacity(seq![held_run(0, 1, FrameRangeState::Reserved, FrameRangeOwner::KernelImage), held_run(4096, 1, FrameRangeState::Reserved, FrameRangeOwner::Mmio), held_run(8192, 1, FrameRangeState::Reserved, FrameRangeOwner::GuardPage), free_run(12288, 20)], 1),
        first_fit(seq![held_run(0, 1, FrameRangeState::Reserved, FrameRangeOwner::KernelImage), held_run(4096, 1, FrameRangeState::Reserved, FrameRangeOwner::Mmio), held_run(8192, 1, FrameRangeState::Reserved, FrameRangeOwner::GuardPage), free_run(12288, 20)], 1) == 3,
        allocation_result(seq![held_run(0, 1, FrameRangeState::Reserved, FrameRangeOwner::KernelImage), held_run(4096, 1, FrameRangeState::Reserved, FrameRangeOwner::Mmio), held_run(8192, 1, FrameRangeState::Reserved, FrameRangeOwner::GuardPage), free_run(12288, 20)], 1, FrameRangeOwner::PageTable) == seq![held_run(0, 1, FrameRangeState::Reserved, FrameRangeOwner::KernelImage), held_run(4096, 1, FrameRangeState::Reserved, FrameRangeOwner::Mmio), held_run(8192, 1, FrameRangeState::Reserved, FrameRangeOwner::GuardPage), held_run(12288, 1, FrameRangeState::Used, FrameRangeOwner::PageTable), free_run(16384, 19)],
{
        assert(allocation_fits_capacity(seq![held_run(0, 1, FrameRangeState::Reserved, FrameRangeOwner::KernelImage), held_run(4096, 1, FrameRangeState::Reserved, FrameRangeOwner::Mmio), held_run(8192, 1, FrameRangeState::Reserved, FrameRangeOwner::GuardPage), free_run(12288, 20)], 1)) by {
            reveal_with_fuel(first_fit, 16);
        }
        assert(first_fit(seq![held_run(0, 1, FrameRangeState::Reserved, FrameRangeOwner::KernelImage), held_run(4096, 1, FrameRangeState::Reserved, FrameRangeOwner::Mmio), held_run(8192, 1, FrameRangeState::Reserved, FrameRangeOwner::GuardPage), free_run(12288, 20)], 1) == 3) by {
            reveal_with_fuel(first_fit, 16);
        }
        assert(allocation_result(seq![held_run(0, 1, FrameRangeState::Reserved, FrameRangeOwner::KernelImage), held_run(4096, 1, FrameRangeState::Reserved, FrameRangeOwner::Mmio), held_run(8192, 1, FrameRangeState::Reserved, FrameRangeOwner::GuardPage), free_run(12288, 20)], 1, FrameRangeOwner::PageTable) == seq![held_run(0, 1, FrameRangeState::Reserved, FrameRangeOwner::KernelImage), held_run(4096, 1, FrameRangeState::Reserved, FrameRangeOwner::Mmio), held_run(8192, 1, FrameRangeState::Reserved, FrameRangeOwner::GuardPage), held_run(12288, 1, FrameRangeState::Used, FrameRangeOwner::PageTable), free_run(16384, 19)]) by {
            reveal_with_fuel(merge_tracked, 16); reveal_with_fuel(first_fit, 16);
        }
    }

#[verifier::rlimit(100)]
proof fn lemma_owner_coverage_step_5()
    ensures
        allocation_fits_capacity(seq![held_run(0, 1, FrameRangeState::Reserved, FrameRangeOwner::KernelImage), held_run(4096, 1, FrameRangeState::Reserved, FrameRangeOwner::Mmio), held_run(8192, 1, FrameRangeState::Reserved, FrameRangeOwner::GuardPage), held_run(12288, 1, FrameRangeState::Used, FrameRangeOwner::PageTable), free_run(16384, 19)], 2),
        first_fit(seq![held_run(0, 1, FrameRangeState::Reserved, FrameRangeOwner::KernelImage), held_run(4096, 1, FrameRangeState::Reserved, FrameRangeOwner::Mmio), held_run(8192, 1, FrameRangeState::Reserved, FrameRangeOwner::GuardPage), held_run(12288, 1, FrameRangeState::Used, FrameRangeOwner::PageTable), free_run(16384, 19)], 2) == 4,
        allocation_result(seq![held_run(0, 1, FrameRangeState::Reserved, FrameRangeOwner::KernelImage), held_run(4096, 1, FrameRangeState::Reserved, FrameRangeOwner::Mmio), held_run(8192, 1, FrameRangeState::Reserved, FrameRangeOwner::GuardPage), held_run(12288, 1, FrameRangeState::Used, FrameRangeOwner::PageTable), free_run(16384, 19)], 2, FrameRangeOwner::KernelHeap) == seq![held_run(0, 1, FrameRangeState::Reserved, FrameRangeOwner::KernelImage), held_run(4096, 1, FrameRangeState::Reserved, FrameRangeOwner::Mmio), held_run(8192, 1, FrameRangeState::Reserved, FrameRangeOwner::GuardPage), held_run(12288, 1, FrameRangeState::Used, FrameRangeOwner::PageTable), held_run(16384, 2, FrameRangeState::Used, FrameRangeOwner::KernelHeap), free_run(24576, 17)],
{
        assert(allocation_fits_capacity(seq![held_run(0, 1, FrameRangeState::Reserved, FrameRangeOwner::KernelImage), held_run(4096, 1, FrameRangeState::Reserved, FrameRangeOwner::Mmio), held_run(8192, 1, FrameRangeState::Reserved, FrameRangeOwner::GuardPage), held_run(12288, 1, FrameRangeState::Used, FrameRangeOwner::PageTable), free_run(16384, 19)], 2)) by {
            reveal_with_fuel(first_fit, 16);
        }
        assert(first_fit(seq![held_run(0, 1, FrameRangeState::Reserved, FrameRangeOwner::KernelImage), held_run(4096, 1, FrameRangeState::Reserved, FrameRangeOwner::Mmio), held_run(8192, 1, FrameRangeState::Reserved, FrameRangeOwner::GuardPage), held_run(12288, 1, FrameRangeState::Used, FrameRangeOwner::PageTable), free_run(16384, 19)], 2) == 4) by {
            reveal_with_fuel(first_fit, 16);
        }
        assert(allocation_result(seq![held_run(0, 1, FrameRangeState::Reserved, FrameRangeOwner::KernelImage), held_run(4096, 1, FrameRangeState::Reserved, FrameRangeOwner::Mmio), held_run(8192, 1, FrameRangeState::Reserved, FrameRangeOwner::GuardPage), held_run(12288, 1, FrameRangeState::Used, FrameRangeOwner::PageTable), free_run(16384, 19)], 2, FrameRangeOwner::KernelHeap) == seq![held_run(0, 1, FrameRangeState::Reserved, FrameRangeOwner::KernelImage), held_run(4096, 1, FrameRangeState::Reserved, FrameRangeOwner::Mmio), held_run(8192, 1, FrameRangeState::Reserved, FrameRangeOwner::GuardPage), held_run(12288, 1, FrameRangeState::Used, FrameRangeOwner::PageTable), held_run(16384, 2, FrameRangeState::Used, FrameRangeOwner::KernelHeap), free_run(24576, 17)]) by {
            reveal_with_fuel(merge_tracked, 16); reveal_with_fuel(first_fit, 16);
        }
    }

#[verifier::rlimit(100)]
proof fn lemma_owner_coverage_step_6()
    ensures
        allocation_fits_capacity(seq![held_run(0, 1, FrameRangeState::Reserved, FrameRangeOwner::KernelImage), held_run(4096, 1, FrameRangeState::Reserved, FrameRangeOwner::Mmio), held_run(8192, 1, FrameRangeState::Reserved, FrameRangeOwner::GuardPage), held_run(12288, 1, FrameRangeState::Used, FrameRangeOwner::PageTable), held_run(16384, 2, FrameRangeState::Used, FrameRangeOwner::KernelHeap), free_run(24576, 17)], 2),
        first_fit(seq![held_run(0, 1, FrameRangeState::Reserved, FrameRangeOwner::KernelImage), held_run(4096, 1, FrameRangeState::Reserved, FrameRangeOwner::Mmio), held_run(8192, 1, FrameRangeState::Reserved, FrameRangeOwner::GuardPage), held_run(12288, 1, FrameRangeState::Used, FrameRangeOwner::PageTable), held_run(16384, 2, FrameRangeState::Used, FrameRangeOwner::KernelHeap), free_run(24576, 17)], 2) == 5,
        allocation_result(seq![held_run(0, 1, FrameRangeState::Reserved, FrameRangeOwner::KernelImage), held_run(4096, 1, FrameRangeState::Reserved, FrameRangeOwner::Mmio), held_run(8192, 1, FrameRangeState::Reserved, FrameRangeOwner::GuardPage), held_run(12288, 1, FrameRangeState::Used, FrameRangeOwner::PageTable), held_run(16384, 2, FrameRangeState::Used, FrameRangeOwner::KernelHeap), free_run(24576, 17)], 2, FrameRangeOwner::KernelStack) == seq![held_run(0, 1, FrameRangeState::Reserved, FrameRangeOwner::KernelImage), held_run(4096, 1, FrameRangeState::Reserved, FrameRangeOwner::Mmio), held_run(8192, 1, FrameRangeState::Reserved, FrameRangeOwner::GuardPage), held_run(12288, 1, FrameRangeState::Used, FrameRangeOwner::PageTable), held_run(16384, 2, FrameRangeState::Used, FrameRangeOwner::KernelHeap), held_run(24576, 2, FrameRangeState::Used, FrameRangeOwner::KernelStack), free_run(32768, 15)],
{
        assert(allocation_fits_capacity(seq![held_run(0, 1, FrameRangeState::Reserved, FrameRangeOwner::KernelImage), held_run(4096, 1, FrameRangeState::Reserved, FrameRangeOwner::Mmio), held_run(8192, 1, FrameRangeState::Reserved, FrameRangeOwner::GuardPage), held_run(12288, 1, FrameRangeState::Used, FrameRangeOwner::PageTable), held_run(16384, 2, FrameRangeState::Used, FrameRangeOwner::KernelHeap), free_run(24576, 17)], 2)) by {
            reveal_with_fuel(first_fit, 16);
        }
        assert(first_fit(seq![held_run(0, 1, FrameRangeState::Reserved, FrameRangeOwner::KernelImage), held_run(4096, 1, FrameRangeState::Reserved, FrameRangeOwner::Mmio), held_run(8192, 1, FrameRangeState::Reserved, FrameRangeOwner::GuardPage), held_run(12288, 1, FrameRangeState::Used, FrameRangeOwner::PageTable), held_run(16384, 2, FrameRangeState::Used, FrameRangeOwner::KernelHeap), free_run(24576, 17)], 2) == 5) by {
            reveal_with_fuel(first_fit, 16);
        }
        assert(allocation_result(seq![held_run(0, 1, FrameRangeState::Reserved, FrameRangeOwner::KernelImage), held_run(4096, 1, FrameRangeState::Reserved, FrameRangeOwner::Mmio), held_run(8192, 1, FrameRangeState::Reserved, FrameRangeOwner::GuardPage), held_run(12288, 1, FrameRangeState::Used, FrameRangeOwner::PageTable), held_run(16384, 2, FrameRangeState::Used, FrameRangeOwner::KernelHeap), free_run(24576, 17)], 2, FrameRangeOwner::KernelStack) == seq![held_run(0, 1, FrameRangeState::Reserved, FrameRangeOwner::KernelImage), held_run(4096, 1, FrameRangeState::Reserved, FrameRangeOwner::Mmio), held_run(8192, 1, FrameRangeState::Reserved, FrameRangeOwner::GuardPage), held_run(12288, 1, FrameRangeState::Used, FrameRangeOwner::PageTable), held_run(16384, 2, FrameRangeState::Used, FrameRangeOwner::KernelHeap), held_run(24576, 2, FrameRangeState::Used, FrameRangeOwner::KernelStack), free_run(32768, 15)]) by {
            reveal_with_fuel(merge_tracked, 16); reveal_with_fuel(first_fit, 16);
        }
    }

#[verifier::rlimit(100)]
proof fn lemma_owner_coverage_step_7()
    ensures
        allocation_fits_capacity(seq![held_run(0, 1, FrameRangeState::Reserved, FrameRangeOwner::KernelImage), held_run(4096, 1, FrameRangeState::Reserved, FrameRangeOwner::Mmio), held_run(8192, 1, FrameRangeState::Reserved, FrameRangeOwner::GuardPage), held_run(12288, 1, FrameRangeState::Used, FrameRangeOwner::PageTable), held_run(16384, 2, FrameRangeState::Used, FrameRangeOwner::KernelHeap), held_run(24576, 2, FrameRangeState::Used, FrameRangeOwner::KernelStack), free_run(32768, 15)], 2),
        first_fit(seq![held_run(0, 1, FrameRangeState::Reserved, FrameRangeOwner::KernelImage), held_run(4096, 1, FrameRangeState::Reserved, FrameRangeOwner::Mmio), held_run(8192, 1, FrameRangeState::Reserved, FrameRangeOwner::GuardPage), held_run(12288, 1, FrameRangeState::Used, FrameRangeOwner::PageTable), held_run(16384, 2, FrameRangeState::Used, FrameRangeOwner::KernelHeap), held_run(24576, 2, FrameRangeState::Used, FrameRangeOwner::KernelStack), free_run(32768, 15)], 2) == 6,
        allocation_result(seq![held_run(0, 1, FrameRangeState::Reserved, FrameRangeOwner::KernelImage), held_run(4096, 1, FrameRangeState::Reserved, FrameRangeOwner::Mmio), held_run(8192, 1, FrameRangeState::Reserved, FrameRangeOwner::GuardPage), held_run(12288, 1, FrameRangeState::Used, FrameRangeOwner::PageTable), held_run(16384, 2, FrameRangeState::Used, FrameRangeOwner::KernelHeap), held_run(24576, 2, FrameRangeState::Used, FrameRangeOwner::KernelStack), free_run(32768, 15)], 2, FrameRangeOwner::FramebufferBackbuffer) == seq![held_run(0, 1, FrameRangeState::Reserved, FrameRangeOwner::KernelImage), held_run(4096, 1, FrameRangeState::Reserved, FrameRangeOwner::Mmio), held_run(8192, 1, FrameRangeState::Reserved, FrameRangeOwner::GuardPage), held_run(12288, 1, FrameRangeState::Used, FrameRangeOwner::PageTable), held_run(16384, 2, FrameRangeState::Used, FrameRangeOwner::KernelHeap), held_run(24576, 2, FrameRangeState::Used, FrameRangeOwner::KernelStack), held_run(32768, 2, FrameRangeState::Used, FrameRangeOwner::FramebufferBackbuffer), free_run(40960, 13)],
{
        assert(allocation_fits_capacity(seq![held_run(0, 1, FrameRangeState::Reserved, FrameRangeOwner::KernelImage), held_run(4096, 1, FrameRangeState::Reserved, FrameRangeOwner::Mmio), held_run(8192, 1, FrameRangeState::Reserved, FrameRangeOwner::GuardPage), held_run(12288, 1, FrameRangeState::Used, FrameRangeOwner::PageTable), held_run(16384, 2, FrameRangeState::Used, FrameRangeOwner::KernelHeap), held_run(24576, 2, FrameRangeState::Used, FrameRangeOwner::KernelStack), free_run(32768, 15)], 2)) by {
            reveal_with_fuel(first_fit, 16);
        }
        assert(first_fit(seq![held_run(0, 1, FrameRangeState::Reserved, FrameRangeOwner::KernelImage), held_run(4096, 1, FrameRangeState::Reserved, FrameRangeOwner::Mmio), held_run(8192, 1, FrameRangeState::Reserved, FrameRangeOwner::GuardPage), held_run(12288, 1, FrameRangeState::Used, FrameRangeOwner::PageTable), held_run(16384, 2, FrameRangeState::Used, FrameRangeOwner::KernelHeap), held_run(24576, 2, FrameRangeState::Used, FrameRangeOwner::KernelStack), free_run(32768, 15)], 2) == 6) by {
            reveal_with_fuel(first_fit, 16);
        }
        assert(allocation_result(seq![held_run(0, 1, FrameRangeState::Reserved, FrameRangeOwner::KernelImage), held_run(4096, 1, FrameRangeState::Reserved, FrameRangeOwner::Mmio), held_run(8192, 1, FrameRangeState::Reserved, FrameRangeOwner::GuardPage), held_run(12288, 1, FrameRangeState::Used, FrameRangeOwner::PageTable), held_run(16384, 2, FrameRangeState::Used, FrameRangeOwner::KernelHeap), held_run(24576, 2, FrameRangeState::Used, FrameRangeOwner::KernelStack), free_run(32768, 15)], 2, FrameRangeOwner::FramebufferBackbuffer) == seq![held_run(0, 1, FrameRangeState::Reserved, FrameRangeOwner::KernelImage), held_run(4096, 1, FrameRangeState::Reserved, FrameRangeOwner::Mmio), held_run(8192, 1, FrameRangeState::Reserved, FrameRangeOwner::GuardPage), held_run(12288, 1, FrameRangeState::Used, FrameRangeOwner::PageTable), held_run(16384, 2, FrameRangeState::Used, FrameRangeOwner::KernelHeap), held_run(24576, 2, FrameRangeState::Used, FrameRangeOwner::KernelStack), held_run(32768, 2, FrameRangeState::Used, FrameRangeOwner::FramebufferBackbuffer), free_run(40960, 13)]) by {
            reveal_with_fuel(merge_tracked, 16); reveal_with_fuel(first_fit, 16);
        }
    }

#[verifier::rlimit(100)]
proof fn lemma_owner_coverage_step_8()
    ensures
        allocation_fits_capacity(seq![held_run(0, 1, FrameRangeState::Reserved, FrameRangeOwner::KernelImage), held_run(4096, 1, FrameRangeState::Reserved, FrameRangeOwner::Mmio), held_run(8192, 1, FrameRangeState::Reserved, FrameRangeOwner::GuardPage), held_run(12288, 1, FrameRangeState::Used, FrameRangeOwner::PageTable), held_run(16384, 2, FrameRangeState::Used, FrameRangeOwner::KernelHeap), held_run(24576, 2, FrameRangeState::Used, FrameRangeOwner::KernelStack), held_run(32768, 2, FrameRangeState::Used, FrameRangeOwner::FramebufferBackbuffer), free_run(40960, 13)], 3),
        first_fit(seq![held_run(0, 1, FrameRangeState::Reserved, FrameRangeOwner::KernelImage), held_run(4096, 1, FrameRangeState::Reserved, FrameRangeOwner::Mmio), held_run(8192, 1, FrameRangeState::Reserved, FrameRangeOwner::GuardPage), held_run(12288, 1, FrameRangeState::Used, FrameRangeOwner::PageTable), held_run(16384, 2, FrameRangeState::Used, FrameRangeOwner::KernelHeap), held_run(24576, 2, FrameRangeState::Used, FrameRangeOwner::KernelStack), held_run(32768, 2, FrameRangeState::Used, FrameRangeOwner::FramebufferBackbuffer), free_run(40960, 13)], 3) == 7,
        allocation_result(seq![held_run(0, 1, FrameRangeState::Reserved, FrameRangeOwner::KernelImage), held_run(4096, 1, FrameRangeState::Reserved, FrameRangeOwner::Mmio), held_run(8192, 1, FrameRangeState::Reserved, FrameRangeOwner::GuardPage), held_run(12288, 1, FrameRangeState::Used, FrameRangeOwner::PageTable), held_run(16384, 2, FrameRangeState::Used, FrameRangeOwner::KernelHeap), held_run(24576, 2, FrameRangeState::Used, FrameRangeOwner::KernelStack), held_run(32768, 2, FrameRangeState::Used, FrameRangeOwner::FramebufferBackbuffer), free_run(40960, 13)], 3, FrameRangeOwner::AhciDma) == seq![held_run(0, 1, FrameRangeState::Reserved, FrameRangeOwner::KernelImage), held_run(4096, 1, FrameRangeState::Reserved, FrameRangeOwner::Mmio), held_run(8192, 1, FrameRangeState::Reserved, FrameRangeOwner::GuardPage), held_run(12288, 1, FrameRangeState::Used, FrameRangeOwner::PageTable), held_run(16384, 2, FrameRangeState::Used, FrameRangeOwner::KernelHeap), held_run(24576, 2, FrameRangeState::Used, FrameRangeOwner::KernelStack), held_run(32768, 2, FrameRangeState::Used, FrameRangeOwner::FramebufferBackbuffer), held_run(40960, 3, FrameRangeState::Used, FrameRangeOwner::AhciDma), free_run(53248, 10)],
{
        assert(allocation_fits_capacity(seq![held_run(0, 1, FrameRangeState::Reserved, FrameRangeOwner::KernelImage), held_run(4096, 1, FrameRangeState::Reserved, FrameRangeOwner::Mmio), held_run(8192, 1, FrameRangeState::Reserved, FrameRangeOwner::GuardPage), held_run(12288, 1, FrameRangeState::Used, FrameRangeOwner::PageTable), held_run(16384, 2, FrameRangeState::Used, FrameRangeOwner::KernelHeap), held_run(24576, 2, FrameRangeState::Used, FrameRangeOwner::KernelStack), held_run(32768, 2, FrameRangeState::Used, FrameRangeOwner::FramebufferBackbuffer), free_run(40960, 13)], 3)) by {
            reveal_with_fuel(first_fit, 16);
        }
        assert(first_fit(seq![held_run(0, 1, FrameRangeState::Reserved, FrameRangeOwner::KernelImage), held_run(4096, 1, FrameRangeState::Reserved, FrameRangeOwner::Mmio), held_run(8192, 1, FrameRangeState::Reserved, FrameRangeOwner::GuardPage), held_run(12288, 1, FrameRangeState::Used, FrameRangeOwner::PageTable), held_run(16384, 2, FrameRangeState::Used, FrameRangeOwner::KernelHeap), held_run(24576, 2, FrameRangeState::Used, FrameRangeOwner::KernelStack), held_run(32768, 2, FrameRangeState::Used, FrameRangeOwner::FramebufferBackbuffer), free_run(40960, 13)], 3) == 7) by {
            reveal_with_fuel(first_fit, 16);
        }
        assert(allocation_result(seq![held_run(0, 1, FrameRangeState::Reserved, FrameRangeOwner::KernelImage), held_run(4096, 1, FrameRangeState::Reserved, FrameRangeOwner::Mmio), held_run(8192, 1, FrameRangeState::Reserved, FrameRangeOwner::GuardPage), held_run(12288, 1, FrameRangeState::Used, FrameRangeOwner::PageTable), held_run(16384, 2, FrameRangeState::Used, FrameRangeOwner::KernelHeap), held_run(24576, 2, FrameRangeState::Used, FrameRangeOwner::KernelStack), held_run(32768, 2, FrameRangeState::Used, FrameRangeOwner::FramebufferBackbuffer), free_run(40960, 13)], 3, FrameRangeOwner::AhciDma) == seq![held_run(0, 1, FrameRangeState::Reserved, FrameRangeOwner::KernelImage), held_run(4096, 1, FrameRangeState::Reserved, FrameRangeOwner::Mmio), held_run(8192, 1, FrameRangeState::Reserved, FrameRangeOwner::GuardPage), held_run(12288, 1, FrameRangeState::Used, FrameRangeOwner::PageTable), held_run(16384, 2, FrameRangeState::Used, FrameRangeOwner::KernelHeap), held_run(24576, 2, FrameRangeState::Used, FrameRangeOwner::KernelStack), held_run(32768, 2, FrameRangeState::Used, FrameRangeOwner::FramebufferBackbuffer), held_run(40960, 3, FrameRangeState::Used, FrameRangeOwner::AhciDma), free_run(53248, 10)]) by {
            reveal_with_fuel(merge_tracked, 16); reveal_with_fuel(first_fit, 16);
        }
    }

#[verifier::rlimit(100)]
proof fn lemma_owner_coverage_step_9()
    ensures
        allocation_fits_capacity(seq![held_run(0, 1, FrameRangeState::Reserved, FrameRangeOwner::KernelImage), held_run(4096, 1, FrameRangeState::Reserved, FrameRangeOwner::Mmio), held_run(8192, 1, FrameRangeState::Reserved, FrameRangeOwner::GuardPage), held_run(12288, 1, FrameRangeState::Used, FrameRangeOwner::PageTable), held_run(16384, 2, FrameRangeState::Used, FrameRangeOwner::KernelHeap), held_run(24576, 2, FrameRangeState::Used, FrameRangeOwner::KernelStack), held_run(32768, 2, FrameRangeState::Used, FrameRangeOwner::FramebufferBackbuffer), held_run(40960, 3, FrameRangeState::Used, FrameRangeOwner::AhciDma), free_run(53248, 10)], 1),
        first_fit(seq![held_run(0, 1, FrameRangeState::Reserved, FrameRangeOwner::KernelImage), held_run(4096, 1, FrameRangeState::Reserved, FrameRangeOwner::Mmio), held_run(8192, 1, FrameRangeState::Reserved, FrameRangeOwner::GuardPage), held_run(12288, 1, FrameRangeState::Used, FrameRangeOwner::PageTable), held_run(16384, 2, FrameRangeState::Used, FrameRangeOwner::KernelHeap), held_run(24576, 2, FrameRangeState::Used, FrameRangeOwner::KernelStack), held_run(32768, 2, FrameRangeState::Used, FrameRangeOwner::FramebufferBackbuffer), held_run(40960, 3, FrameRangeState::Used, FrameRangeOwner::AhciDma), free_run(53248, 10)], 1) == 8,
        allocation_result(seq![held_run(0, 1, FrameRangeState::Reserved, FrameRangeOwner::KernelImage), held_run(4096, 1, FrameRangeState::Reserved, FrameRangeOwner::Mmio), held_run(8192, 1, FrameRangeState::Reserved, FrameRangeOwner::GuardPage), held_run(12288, 1, FrameRangeState::Used, FrameRangeOwner::PageTable), held_run(16384, 2, FrameRangeState::Used, FrameRangeOwner::KernelHeap), held_run(24576, 2, FrameRangeState::Used, FrameRangeOwner::KernelStack), held_run(32768, 2, FrameRangeState::Used, FrameRangeOwner::FramebufferBackbuffer), held_run(40960, 3, FrameRangeState::Used, FrameRangeOwner::AhciDma), free_run(53248, 10)], 1, FrameRangeOwner::DynamicKernelMapping) == seq![held_run(0, 1, FrameRangeState::Reserved, FrameRangeOwner::KernelImage), held_run(4096, 1, FrameRangeState::Reserved, FrameRangeOwner::Mmio), held_run(8192, 1, FrameRangeState::Reserved, FrameRangeOwner::GuardPage), held_run(12288, 1, FrameRangeState::Used, FrameRangeOwner::PageTable), held_run(16384, 2, FrameRangeState::Used, FrameRangeOwner::KernelHeap), held_run(24576, 2, FrameRangeState::Used, FrameRangeOwner::KernelStack), held_run(32768, 2, FrameRangeState::Used, FrameRangeOwner::FramebufferBackbuffer), held_run(40960, 3, FrameRangeState::Used, FrameRangeOwner::AhciDma), held_run(53248, 1, FrameRangeState::Used, FrameRangeOwner::DynamicKernelMapping), free_run(57344, 9)],
{
        assert(allocation_fits_capacity(seq![held_run(0, 1, FrameRangeState::Reserved, FrameRangeOwner::KernelImage), held_run(4096, 1, FrameRangeState::Reserved, FrameRangeOwner::Mmio), held_run(8192, 1, FrameRangeState::Reserved, FrameRangeOwner::GuardPage), held_run(12288, 1, FrameRangeState::Used, FrameRangeOwner::PageTable), held_run(16384, 2, FrameRangeState::Used, FrameRangeOwner::KernelHeap), held_run(24576, 2, FrameRangeState::Used, FrameRangeOwner::KernelStack), held_run(32768, 2, FrameRangeState::Used, FrameRangeOwner::FramebufferBackbuffer), held_run(40960, 3, FrameRangeState::Used, FrameRangeOwner::AhciDma), free_run(53248, 10)], 1)) by {
            reveal_with_fuel(first_fit, 16);
        }
        assert(first_fit(seq![held_run(0, 1, FrameRangeState::Reserved, FrameRangeOwner::KernelImage), held_run(4096, 1, FrameRangeState::Reserved, FrameRangeOwner::Mmio), held_run(8192, 1, FrameRangeState::Reserved, FrameRangeOwner::GuardPage), held_run(12288, 1, FrameRangeState::Used, FrameRangeOwner::PageTable), held_run(16384, 2, FrameRangeState::Used, FrameRangeOwner::KernelHeap), held_run(24576, 2, FrameRangeState::Used, FrameRangeOwner::KernelStack), held_run(32768, 2, FrameRangeState::Used, FrameRangeOwner::FramebufferBackbuffer), held_run(40960, 3, FrameRangeState::Used, FrameRangeOwner::AhciDma), free_run(53248, 10)], 1) == 8) by {
            reveal_with_fuel(first_fit, 16);
        }
        assert(allocation_result(seq![held_run(0, 1, FrameRangeState::Reserved, FrameRangeOwner::KernelImage), held_run(4096, 1, FrameRangeState::Reserved, FrameRangeOwner::Mmio), held_run(8192, 1, FrameRangeState::Reserved, FrameRangeOwner::GuardPage), held_run(12288, 1, FrameRangeState::Used, FrameRangeOwner::PageTable), held_run(16384, 2, FrameRangeState::Used, FrameRangeOwner::KernelHeap), held_run(24576, 2, FrameRangeState::Used, FrameRangeOwner::KernelStack), held_run(32768, 2, FrameRangeState::Used, FrameRangeOwner::FramebufferBackbuffer), held_run(40960, 3, FrameRangeState::Used, FrameRangeOwner::AhciDma), free_run(53248, 10)], 1, FrameRangeOwner::DynamicKernelMapping) == seq![held_run(0, 1, FrameRangeState::Reserved, FrameRangeOwner::KernelImage), held_run(4096, 1, FrameRangeState::Reserved, FrameRangeOwner::Mmio), held_run(8192, 1, FrameRangeState::Reserved, FrameRangeOwner::GuardPage), held_run(12288, 1, FrameRangeState::Used, FrameRangeOwner::PageTable), held_run(16384, 2, FrameRangeState::Used, FrameRangeOwner::KernelHeap), held_run(24576, 2, FrameRangeState::Used, FrameRangeOwner::KernelStack), held_run(32768, 2, FrameRangeState::Used, FrameRangeOwner::FramebufferBackbuffer), held_run(40960, 3, FrameRangeState::Used, FrameRangeOwner::AhciDma), held_run(53248, 1, FrameRangeState::Used, FrameRangeOwner::DynamicKernelMapping), free_run(57344, 9)]) by {
            reveal_with_fuel(merge_tracked, 16); reveal_with_fuel(first_fit, 16);
        }
    }

#[verifier::rlimit(100)]
proof fn lemma_owner_coverage_step_10()
    ensures
        allocation_fits_capacity(seq![held_run(0, 1, FrameRangeState::Reserved, FrameRangeOwner::KernelImage), held_run(4096, 1, FrameRangeState::Reserved, FrameRangeOwner::Mmio), held_run(8192, 1, FrameRangeState::Reserved, FrameRangeOwner::GuardPage), held_run(12288, 1, FrameRangeState::Used, FrameRangeOwner::PageTable), held_run(16384, 2, FrameRangeState::Used, FrameRangeOwner::KernelHeap), held_run(24576, 2, FrameRangeState::Used, FrameRangeOwner::KernelStack), held_run(32768, 2, FrameRangeState::Used, FrameRangeOwner::FramebufferBackbuffer), held_run(40960, 3, FrameRangeState::Used, FrameRangeOwner::AhciDma), held_run(53248, 1, FrameRangeState::Used, FrameRangeOwner::DynamicKernelMapping), free_run(57344, 9)], 2),
        first_fit(seq![held_run(0, 1, FrameRangeState::Reserved, FrameRangeOwner::KernelImage), held_run(4096, 1, FrameRangeState::Reserved, FrameRangeOwner::Mmio), held_run(8192, 1, FrameRangeState::Reserved, FrameRangeOwner::GuardPage), held_run(12288, 1, FrameRangeState::Used, FrameRangeOwner::PageTable), held_run(16384, 2, FrameRangeState::Used, FrameRangeOwner::KernelHeap), held_run(24576, 2, FrameRangeState::Used, FrameRangeOwner::KernelStack), held_run(32768, 2, FrameRangeState::Used, FrameRangeOwner::FramebufferBackbuffer), held_run(40960, 3, FrameRangeState::Used, FrameRangeOwner::AhciDma), held_run(53248, 1, FrameRangeState::Used, FrameRangeOwner::DynamicKernelMapping), free_run(57344, 9)], 2) == 9,
        allocation_result(seq![held_run(0, 1, FrameRangeState::Reserved, FrameRangeOwner::KernelImage), held_run(4096, 1, FrameRangeState::Reserved, FrameRangeOwner::Mmio), held_run(8192, 1, FrameRangeState::Reserved, FrameRangeOwner::GuardPage), held_run(12288, 1, FrameRangeState::Used, FrameRangeOwner::PageTable), held_run(16384, 2, FrameRangeState::Used, FrameRangeOwner::KernelHeap), held_run(24576, 2, FrameRangeState::Used, FrameRangeOwner::KernelStack), held_run(32768, 2, FrameRangeState::Used, FrameRangeOwner::FramebufferBackbuffer), held_run(40960, 3, FrameRangeState::Used, FrameRangeOwner::AhciDma), held_run(53248, 1, FrameRangeState::Used, FrameRangeOwner::DynamicKernelMapping), free_run(57344, 9)], 2, FrameRangeOwner::UserStack) == seq![held_run(0, 1, FrameRangeState::Reserved, FrameRangeOwner::KernelImage), held_run(4096, 1, FrameRangeState::Reserved, FrameRangeOwner::Mmio), held_run(8192, 1, FrameRangeState::Reserved, FrameRangeOwner::GuardPage), held_run(12288, 1, FrameRangeState::Used, FrameRangeOwner::PageTable), held_run(16384, 2, FrameRangeState::Used, FrameRangeOwner::KernelHeap), held_run(24576, 2, FrameRangeState::Used, FrameRangeOwner::KernelStack), held_run(32768, 2, FrameRangeState::Used, FrameRangeOwner::FramebufferBackbuffer), held_run(40960, 3, FrameRangeState::Used, FrameRangeOwner::AhciDma), held_run(53248, 1, FrameRangeState::Used, FrameRangeOwner::DynamicKernelMapping), held_run(57344, 2, FrameRangeState::Used, FrameRangeOwner::UserStack), free_run(65536, 7)],
{
        assert(allocation_fits_capacity(seq![held_run(0, 1, FrameRangeState::Reserved, FrameRangeOwner::KernelImage), held_run(4096, 1, FrameRangeState::Reserved, FrameRangeOwner::Mmio), held_run(8192, 1, FrameRangeState::Reserved, FrameRangeOwner::GuardPage), held_run(12288, 1, FrameRangeState::Used, FrameRangeOwner::PageTable), held_run(16384, 2, FrameRangeState::Used, FrameRangeOwner::KernelHeap), held_run(24576, 2, FrameRangeState::Used, FrameRangeOwner::KernelStack), held_run(32768, 2, FrameRangeState::Used, FrameRangeOwner::FramebufferBackbuffer), held_run(40960, 3, FrameRangeState::Used, FrameRangeOwner::AhciDma), held_run(53248, 1, FrameRangeState::Used, FrameRangeOwner::DynamicKernelMapping), free_run(57344, 9)], 2)) by {
            reveal_with_fuel(first_fit, 16);
        }
        assert(first_fit(seq![held_run(0, 1, FrameRangeState::Reserved, FrameRangeOwner::KernelImage), held_run(4096, 1, FrameRangeState::Reserved, FrameRangeOwner::Mmio), held_run(8192, 1, FrameRangeState::Reserved, FrameRangeOwner::GuardPage), held_run(12288, 1, FrameRangeState::Used, FrameRangeOwner::PageTable), held_run(16384, 2, FrameRangeState::Used, FrameRangeOwner::KernelHeap), held_run(24576, 2, FrameRangeState::Used, FrameRangeOwner::KernelStack), held_run(32768, 2, FrameRangeState::Used, FrameRangeOwner::FramebufferBackbuffer), held_run(40960, 3, FrameRangeState::Used, FrameRangeOwner::AhciDma), held_run(53248, 1, FrameRangeState::Used, FrameRangeOwner::DynamicKernelMapping), free_run(57344, 9)], 2) == 9) by {
            reveal_with_fuel(first_fit, 16);
        }
        assert(allocation_result(seq![held_run(0, 1, FrameRangeState::Reserved, FrameRangeOwner::KernelImage), held_run(4096, 1, FrameRangeState::Reserved, FrameRangeOwner::Mmio), held_run(8192, 1, FrameRangeState::Reserved, FrameRangeOwner::GuardPage), held_run(12288, 1, FrameRangeState::Used, FrameRangeOwner::PageTable), held_run(16384, 2, FrameRangeState::Used, FrameRangeOwner::KernelHeap), held_run(24576, 2, FrameRangeState::Used, FrameRangeOwner::KernelStack), held_run(32768, 2, FrameRangeState::Used, FrameRangeOwner::FramebufferBackbuffer), held_run(40960, 3, FrameRangeState::Used, FrameRangeOwner::AhciDma), held_run(53248, 1, FrameRangeState::Used, FrameRangeOwner::DynamicKernelMapping), free_run(57344, 9)], 2, FrameRangeOwner::UserStack) == seq![held_run(0, 1, FrameRangeState::Reserved, FrameRangeOwner::KernelImage), held_run(4096, 1, FrameRangeState::Reserved, FrameRangeOwner::Mmio), held_run(8192, 1, FrameRangeState::Reserved, FrameRangeOwner::GuardPage), held_run(12288, 1, FrameRangeState::Used, FrameRangeOwner::PageTable), held_run(16384, 2, FrameRangeState::Used, FrameRangeOwner::KernelHeap), held_run(24576, 2, FrameRangeState::Used, FrameRangeOwner::KernelStack), held_run(32768, 2, FrameRangeState::Used, FrameRangeOwner::FramebufferBackbuffer), held_run(40960, 3, FrameRangeState::Used, FrameRangeOwner::AhciDma), held_run(53248, 1, FrameRangeState::Used, FrameRangeOwner::DynamicKernelMapping), held_run(57344, 2, FrameRangeState::Used, FrameRangeOwner::UserStack), free_run(65536, 7)]) by {
            reveal_with_fuel(merge_tracked, 16); reveal_with_fuel(first_fit, 16);
        }
    }

#[verifier::rlimit(100)]
proof fn lemma_owner_coverage_step_11()
    ensures
        allocation_fits_capacity(seq![held_run(0, 1, FrameRangeState::Reserved, FrameRangeOwner::KernelImage), held_run(4096, 1, FrameRangeState::Reserved, FrameRangeOwner::Mmio), held_run(8192, 1, FrameRangeState::Reserved, FrameRangeOwner::GuardPage), held_run(12288, 1, FrameRangeState::Used, FrameRangeOwner::PageTable), held_run(16384, 2, FrameRangeState::Used, FrameRangeOwner::KernelHeap), held_run(24576, 2, FrameRangeState::Used, FrameRangeOwner::KernelStack), held_run(32768, 2, FrameRangeState::Used, FrameRangeOwner::FramebufferBackbuffer), held_run(40960, 3, FrameRangeState::Used, FrameRangeOwner::AhciDma), held_run(53248, 1, FrameRangeState::Used, FrameRangeOwner::DynamicKernelMapping), held_run(57344, 2, FrameRangeState::Used, FrameRangeOwner::UserStack), free_run(65536, 7)], 4),
        first_fit(seq![held_run(0, 1, FrameRangeState::Reserved, FrameRangeOwner::KernelImage), held_run(4096, 1, FrameRangeState::Reserved, FrameRangeOwner::Mmio), held_run(8192, 1, FrameRangeState::Reserved, FrameRangeOwner::GuardPage), held_run(12288, 1, FrameRangeState::Used, FrameRangeOwner::PageTable), held_run(16384, 2, FrameRangeState::Used, FrameRangeOwner::KernelHeap), held_run(24576, 2, FrameRangeState::Used, FrameRangeOwner::KernelStack), held_run(32768, 2, FrameRangeState::Used, FrameRangeOwner::FramebufferBackbuffer), held_run(40960, 3, FrameRangeState::Used, FrameRangeOwner::AhciDma), held_run(53248, 1, FrameRangeState::Used, FrameRangeOwner::DynamicKernelMapping), held_run(57344, 2, FrameRangeState::Used, FrameRangeOwner::UserStack), free_run(65536, 7)], 4) == 10,
        allocation_result(seq![held_run(0, 1, FrameRangeState::Reserved, FrameRangeOwner::KernelImage), held_run(4096, 1, FrameRangeState::Reserved, FrameRangeOwner::Mmio), held_run(8192, 1, FrameRangeState::Reserved, FrameRangeOwner::GuardPage), held_run(12288, 1, FrameRangeState::Used, FrameRangeOwner::PageTable), held_run(16384, 2, FrameRangeState::Used, FrameRangeOwner::KernelHeap), held_run(24576, 2, FrameRangeState::Used, FrameRangeOwner::KernelStack), held_run(32768, 2, FrameRangeState::Used, FrameRangeOwner::FramebufferBackbuffer), held_run(40960, 3, FrameRangeState::Used, FrameRangeOwner::AhciDma), held_run(53248, 1, FrameRangeState::Used, FrameRangeOwner::DynamicKernelMapping), held_run(57344, 2, FrameRangeState::Used, FrameRangeOwner::UserStack), free_run(65536, 7)], 4, FrameRangeOwner::UserElf) == seq![held_run(0, 1, FrameRangeState::Reserved, FrameRangeOwner::KernelImage), held_run(4096, 1, FrameRangeState::Reserved, FrameRangeOwner::Mmio), held_run(8192, 1, FrameRangeState::Reserved, FrameRangeOwner::GuardPage), held_run(12288, 1, FrameRangeState::Used, FrameRangeOwner::PageTable), held_run(16384, 2, FrameRangeState::Used, FrameRangeOwner::KernelHeap), held_run(24576, 2, FrameRangeState::Used, FrameRangeOwner::KernelStack), held_run(32768, 2, FrameRangeState::Used, FrameRangeOwner::FramebufferBackbuffer), held_run(40960, 3, FrameRangeState::Used, FrameRangeOwner::AhciDma), held_run(53248, 1, FrameRangeState::Used, FrameRangeOwner::DynamicKernelMapping), held_run(57344, 2, FrameRangeState::Used, FrameRangeOwner::UserStack), held_run(65536, 4, FrameRangeState::Used, FrameRangeOwner::UserElf), free_run(81920, 3)],
{
        assert(allocation_fits_capacity(seq![held_run(0, 1, FrameRangeState::Reserved, FrameRangeOwner::KernelImage), held_run(4096, 1, FrameRangeState::Reserved, FrameRangeOwner::Mmio), held_run(8192, 1, FrameRangeState::Reserved, FrameRangeOwner::GuardPage), held_run(12288, 1, FrameRangeState::Used, FrameRangeOwner::PageTable), held_run(16384, 2, FrameRangeState::Used, FrameRangeOwner::KernelHeap), held_run(24576, 2, FrameRangeState::Used, FrameRangeOwner::KernelStack), held_run(32768, 2, FrameRangeState::Used, FrameRangeOwner::FramebufferBackbuffer), held_run(40960, 3, FrameRangeState::Used, FrameRangeOwner::AhciDma), held_run(53248, 1, FrameRangeState::Used, FrameRangeOwner::DynamicKernelMapping), held_run(57344, 2, FrameRangeState::Used, FrameRangeOwner::UserStack), free_run(65536, 7)], 4)) by {
            reveal_with_fuel(first_fit, 16);
        }
        assert(first_fit(seq![held_run(0, 1, FrameRangeState::Reserved, FrameRangeOwner::KernelImage), held_run(4096, 1, FrameRangeState::Reserved, FrameRangeOwner::Mmio), held_run(8192, 1, FrameRangeState::Reserved, FrameRangeOwner::GuardPage), held_run(12288, 1, FrameRangeState::Used, FrameRangeOwner::PageTable), held_run(16384, 2, FrameRangeState::Used, FrameRangeOwner::KernelHeap), held_run(24576, 2, FrameRangeState::Used, FrameRangeOwner::KernelStack), held_run(32768, 2, FrameRangeState::Used, FrameRangeOwner::FramebufferBackbuffer), held_run(40960, 3, FrameRangeState::Used, FrameRangeOwner::AhciDma), held_run(53248, 1, FrameRangeState::Used, FrameRangeOwner::DynamicKernelMapping), held_run(57344, 2, FrameRangeState::Used, FrameRangeOwner::UserStack), free_run(65536, 7)], 4) == 10) by {
            reveal_with_fuel(first_fit, 16);
        }
        assert(allocation_result(seq![held_run(0, 1, FrameRangeState::Reserved, FrameRangeOwner::KernelImage), held_run(4096, 1, FrameRangeState::Reserved, FrameRangeOwner::Mmio), held_run(8192, 1, FrameRangeState::Reserved, FrameRangeOwner::GuardPage), held_run(12288, 1, FrameRangeState::Used, FrameRangeOwner::PageTable), held_run(16384, 2, FrameRangeState::Used, FrameRangeOwner::KernelHeap), held_run(24576, 2, FrameRangeState::Used, FrameRangeOwner::KernelStack), held_run(32768, 2, FrameRangeState::Used, FrameRangeOwner::FramebufferBackbuffer), held_run(40960, 3, FrameRangeState::Used, FrameRangeOwner::AhciDma), held_run(53248, 1, FrameRangeState::Used, FrameRangeOwner::DynamicKernelMapping), held_run(57344, 2, FrameRangeState::Used, FrameRangeOwner::UserStack), free_run(65536, 7)], 4, FrameRangeOwner::UserElf) == seq![held_run(0, 1, FrameRangeState::Reserved, FrameRangeOwner::KernelImage), held_run(4096, 1, FrameRangeState::Reserved, FrameRangeOwner::Mmio), held_run(8192, 1, FrameRangeState::Reserved, FrameRangeOwner::GuardPage), held_run(12288, 1, FrameRangeState::Used, FrameRangeOwner::PageTable), held_run(16384, 2, FrameRangeState::Used, FrameRangeOwner::KernelHeap), held_run(24576, 2, FrameRangeState::Used, FrameRangeOwner::KernelStack), held_run(32768, 2, FrameRangeState::Used, FrameRangeOwner::FramebufferBackbuffer), held_run(40960, 3, FrameRangeState::Used, FrameRangeOwner::AhciDma), held_run(53248, 1, FrameRangeState::Used, FrameRangeOwner::DynamicKernelMapping), held_run(57344, 2, FrameRangeState::Used, FrameRangeOwner::UserStack), held_run(65536, 4, FrameRangeState::Used, FrameRangeOwner::UserElf), free_run(81920, 3)]) by {
            reveal_with_fuel(merge_tracked, 16); reveal_with_fuel(first_fit, 16);
        }
    }

#[verifier::rlimit(100)]
proof fn lemma_owner_coverage_step_12()
    ensures
        allocation_fits_capacity(seq![held_run(0, 1, FrameRangeState::Reserved, FrameRangeOwner::KernelImage), held_run(4096, 1, FrameRangeState::Reserved, FrameRangeOwner::Mmio), held_run(8192, 1, FrameRangeState::Reserved, FrameRangeOwner::GuardPage), held_run(12288, 1, FrameRangeState::Used, FrameRangeOwner::PageTable), held_run(16384, 2, FrameRangeState::Used, FrameRangeOwner::KernelHeap), held_run(24576, 2, FrameRangeState::Used, FrameRangeOwner::KernelStack), held_run(32768, 2, FrameRangeState::Used, FrameRangeOwner::FramebufferBackbuffer), held_run(40960, 3, FrameRangeState::Used, FrameRangeOwner::AhciDma), held_run(53248, 1, FrameRangeState::Used, FrameRangeOwner::DynamicKernelMapping), held_run(57344, 2, FrameRangeState::Used, FrameRangeOwner::UserStack), held_run(65536, 4, FrameRangeState::Used, FrameRangeOwner::UserElf), free_run(81920, 3)], 1),
        first_fit(seq![held_run(0, 1, FrameRangeState::Reserved, FrameRangeOwner::KernelImage), held_run(4096, 1, FrameRangeState::Reserved, FrameRangeOwner::Mmio), held_run(8192, 1, FrameRangeState::Reserved, FrameRangeOwner::GuardPage), held_run(12288, 1, FrameRangeState::Used, FrameRangeOwner::PageTable), held_run(16384, 2, FrameRangeState::Used, FrameRangeOwner::KernelHeap), held_run(24576, 2, FrameRangeState::Used, FrameRangeOwner::KernelStack), held_run(32768, 2, FrameRangeState::Used, FrameRangeOwner::FramebufferBackbuffer), held_run(40960, 3, FrameRangeState::Used, FrameRangeOwner::AhciDma), held_run(53248, 1, FrameRangeState::Used, FrameRangeOwner::DynamicKernelMapping), held_run(57344, 2, FrameRangeState::Used, FrameRangeOwner::UserStack), held_run(65536, 4, FrameRangeState::Used, FrameRangeOwner::UserElf), free_run(81920, 3)], 1) == 11,
        allocation_result(seq![held_run(0, 1, FrameRangeState::Reserved, FrameRangeOwner::KernelImage), held_run(4096, 1, FrameRangeState::Reserved, FrameRangeOwner::Mmio), held_run(8192, 1, FrameRangeState::Reserved, FrameRangeOwner::GuardPage), held_run(12288, 1, FrameRangeState::Used, FrameRangeOwner::PageTable), held_run(16384, 2, FrameRangeState::Used, FrameRangeOwner::KernelHeap), held_run(24576, 2, FrameRangeState::Used, FrameRangeOwner::KernelStack), held_run(32768, 2, FrameRangeState::Used, FrameRangeOwner::FramebufferBackbuffer), held_run(40960, 3, FrameRangeState::Used, FrameRangeOwner::AhciDma), held_run(53248, 1, FrameRangeState::Used, FrameRangeOwner::DynamicKernelMapping), held_run(57344, 2, FrameRangeState::Used, FrameRangeOwner::UserStack), held_run(65536, 4, FrameRangeState::Used, FrameRangeOwner::UserElf), free_run(81920, 3)], 1, FrameRangeOwner::UserHeap) == seq![held_run(0, 1, FrameRangeState::Reserved, FrameRangeOwner::KernelImage), held_run(4096, 1, FrameRangeState::Reserved, FrameRangeOwner::Mmio), held_run(8192, 1, FrameRangeState::Reserved, FrameRangeOwner::GuardPage), held_run(12288, 1, FrameRangeState::Used, FrameRangeOwner::PageTable), held_run(16384, 2, FrameRangeState::Used, FrameRangeOwner::KernelHeap), held_run(24576, 2, FrameRangeState::Used, FrameRangeOwner::KernelStack), held_run(32768, 2, FrameRangeState::Used, FrameRangeOwner::FramebufferBackbuffer), held_run(40960, 3, FrameRangeState::Used, FrameRangeOwner::AhciDma), held_run(53248, 1, FrameRangeState::Used, FrameRangeOwner::DynamicKernelMapping), held_run(57344, 2, FrameRangeState::Used, FrameRangeOwner::UserStack), held_run(65536, 4, FrameRangeState::Used, FrameRangeOwner::UserElf), held_run(81920, 1, FrameRangeState::Used, FrameRangeOwner::UserHeap), free_run(86016, 2)],
{
        assert(allocation_fits_capacity(seq![held_run(0, 1, FrameRangeState::Reserved, FrameRangeOwner::KernelImage), held_run(4096, 1, FrameRangeState::Reserved, FrameRangeOwner::Mmio), held_run(8192, 1, FrameRangeState::Reserved, FrameRangeOwner::GuardPage), held_run(12288, 1, FrameRangeState::Used, FrameRangeOwner::PageTable), held_run(16384, 2, FrameRangeState::Used, FrameRangeOwner::KernelHeap), held_run(24576, 2, FrameRangeState::Used, FrameRangeOwner::KernelStack), held_run(32768, 2, FrameRangeState::Used, FrameRangeOwner::FramebufferBackbuffer), held_run(40960, 3, FrameRangeState::Used, FrameRangeOwner::AhciDma), held_run(53248, 1, FrameRangeState::Used, FrameRangeOwner::DynamicKernelMapping), held_run(57344, 2, FrameRangeState::Used, FrameRangeOwner::UserStack), held_run(65536, 4, FrameRangeState::Used, FrameRangeOwner::UserElf), free_run(81920, 3)], 1)) by {
            reveal_with_fuel(first_fit, 16);
        }
        assert(first_fit(seq![held_run(0, 1, FrameRangeState::Reserved, FrameRangeOwner::KernelImage), held_run(4096, 1, FrameRangeState::Reserved, FrameRangeOwner::Mmio), held_run(8192, 1, FrameRangeState::Reserved, FrameRangeOwner::GuardPage), held_run(12288, 1, FrameRangeState::Used, FrameRangeOwner::PageTable), held_run(16384, 2, FrameRangeState::Used, FrameRangeOwner::KernelHeap), held_run(24576, 2, FrameRangeState::Used, FrameRangeOwner::KernelStack), held_run(32768, 2, FrameRangeState::Used, FrameRangeOwner::FramebufferBackbuffer), held_run(40960, 3, FrameRangeState::Used, FrameRangeOwner::AhciDma), held_run(53248, 1, FrameRangeState::Used, FrameRangeOwner::DynamicKernelMapping), held_run(57344, 2, FrameRangeState::Used, FrameRangeOwner::UserStack), held_run(65536, 4, FrameRangeState::Used, FrameRangeOwner::UserElf), free_run(81920, 3)], 1) == 11) by {
            reveal_with_fuel(first_fit, 16);
        }
        assert(allocation_result(seq![held_run(0, 1, FrameRangeState::Reserved, FrameRangeOwner::KernelImage), held_run(4096, 1, FrameRangeState::Reserved, FrameRangeOwner::Mmio), held_run(8192, 1, FrameRangeState::Reserved, FrameRangeOwner::GuardPage), held_run(12288, 1, FrameRangeState::Used, FrameRangeOwner::PageTable), held_run(16384, 2, FrameRangeState::Used, FrameRangeOwner::KernelHeap), held_run(24576, 2, FrameRangeState::Used, FrameRangeOwner::KernelStack), held_run(32768, 2, FrameRangeState::Used, FrameRangeOwner::FramebufferBackbuffer), held_run(40960, 3, FrameRangeState::Used, FrameRangeOwner::AhciDma), held_run(53248, 1, FrameRangeState::Used, FrameRangeOwner::DynamicKernelMapping), held_run(57344, 2, FrameRangeState::Used, FrameRangeOwner::UserStack), held_run(65536, 4, FrameRangeState::Used, FrameRangeOwner::UserElf), free_run(81920, 3)], 1, FrameRangeOwner::UserHeap) == seq![held_run(0, 1, FrameRangeState::Reserved, FrameRangeOwner::KernelImage), held_run(4096, 1, FrameRangeState::Reserved, FrameRangeOwner::Mmio), held_run(8192, 1, FrameRangeState::Reserved, FrameRangeOwner::GuardPage), held_run(12288, 1, FrameRangeState::Used, FrameRangeOwner::PageTable), held_run(16384, 2, FrameRangeState::Used, FrameRangeOwner::KernelHeap), held_run(24576, 2, FrameRangeState::Used, FrameRangeOwner::KernelStack), held_run(32768, 2, FrameRangeState::Used, FrameRangeOwner::FramebufferBackbuffer), held_run(40960, 3, FrameRangeState::Used, FrameRangeOwner::AhciDma), held_run(53248, 1, FrameRangeState::Used, FrameRangeOwner::DynamicKernelMapping), held_run(57344, 2, FrameRangeState::Used, FrameRangeOwner::UserStack), held_run(65536, 4, FrameRangeState::Used, FrameRangeOwner::UserElf), held_run(81920, 1, FrameRangeState::Used, FrameRangeOwner::UserHeap), free_run(86016, 2)]) by {
            reveal_with_fuel(merge_tracked, 16); reveal_with_fuel(first_fit, 16);
        }
    }

#[verifier::rlimit(100)]
proof fn lemma_owner_coverage_step_13()
    ensures
        allocation_fits_capacity(seq![held_run(0, 1, FrameRangeState::Reserved, FrameRangeOwner::KernelImage), held_run(4096, 1, FrameRangeState::Reserved, FrameRangeOwner::Mmio), held_run(8192, 1, FrameRangeState::Reserved, FrameRangeOwner::GuardPage), held_run(12288, 1, FrameRangeState::Used, FrameRangeOwner::PageTable), held_run(16384, 2, FrameRangeState::Used, FrameRangeOwner::KernelHeap), held_run(24576, 2, FrameRangeState::Used, FrameRangeOwner::KernelStack), held_run(32768, 2, FrameRangeState::Used, FrameRangeOwner::FramebufferBackbuffer), held_run(40960, 3, FrameRangeState::Used, FrameRangeOwner::AhciDma), held_run(53248, 1, FrameRangeState::Used, FrameRangeOwner::DynamicKernelMapping), held_run(57344, 2, FrameRangeState::Used, FrameRangeOwner::UserStack), held_run(65536, 4, FrameRangeState::Used, FrameRangeOwner::UserElf), held_run(81920, 1, FrameRangeState::Used, FrameRangeOwner::UserHeap), free_run(86016, 2)], 2),
        first_fit(seq![held_run(0, 1, FrameRangeState::Reserved, FrameRangeOwner::KernelImage), held_run(4096, 1, FrameRangeState::Reserved, FrameRangeOwner::Mmio), held_run(8192, 1, FrameRangeState::Reserved, FrameRangeOwner::GuardPage), held_run(12288, 1, FrameRangeState::Used, FrameRangeOwner::PageTable), held_run(16384, 2, FrameRangeState::Used, FrameRangeOwner::KernelHeap), held_run(24576, 2, FrameRangeState::Used, FrameRangeOwner::KernelStack), held_run(32768, 2, FrameRangeState::Used, FrameRangeOwner::FramebufferBackbuffer), held_run(40960, 3, FrameRangeState::Used, FrameRangeOwner::AhciDma), held_run(53248, 1, FrameRangeState::Used, FrameRangeOwner::DynamicKernelMapping), held_run(57344, 2, FrameRangeState::Used, FrameRangeOwner::UserStack), held_run(65536, 4, FrameRangeState::Used, FrameRangeOwner::UserElf), held_run(81920, 1, FrameRangeState::Used, FrameRangeOwner::UserHeap), free_run(86016, 2)], 2) == 12,
        allocation_result(seq![held_run(0, 1, FrameRangeState::Reserved, FrameRangeOwner::KernelImage), held_run(4096, 1, FrameRangeState::Reserved, FrameRangeOwner::Mmio), held_run(8192, 1, FrameRangeState::Reserved, FrameRangeOwner::GuardPage), held_run(12288, 1, FrameRangeState::Used, FrameRangeOwner::PageTable), held_run(16384, 2, FrameRangeState::Used, FrameRangeOwner::KernelHeap), held_run(24576, 2, FrameRangeState::Used, FrameRangeOwner::KernelStack), held_run(32768, 2, FrameRangeState::Used, FrameRangeOwner::FramebufferBackbuffer), held_run(40960, 3, FrameRangeState::Used, FrameRangeOwner::AhciDma), held_run(53248, 1, FrameRangeState::Used, FrameRangeOwner::DynamicKernelMapping), held_run(57344, 2, FrameRangeState::Used, FrameRangeOwner::UserStack), held_run(65536, 4, FrameRangeState::Used, FrameRangeOwner::UserElf), held_run(81920, 1, FrameRangeState::Used, FrameRangeOwner::UserHeap), free_run(86016, 2)], 2, FrameRangeOwner::UserMapping) == seq![held_run(0, 1, FrameRangeState::Reserved, FrameRangeOwner::KernelImage), held_run(4096, 1, FrameRangeState::Reserved, FrameRangeOwner::Mmio), held_run(8192, 1, FrameRangeState::Reserved, FrameRangeOwner::GuardPage), held_run(12288, 1, FrameRangeState::Used, FrameRangeOwner::PageTable), held_run(16384, 2, FrameRangeState::Used, FrameRangeOwner::KernelHeap), held_run(24576, 2, FrameRangeState::Used, FrameRangeOwner::KernelStack), held_run(32768, 2, FrameRangeState::Used, FrameRangeOwner::FramebufferBackbuffer), held_run(40960, 3, FrameRangeState::Used, FrameRangeOwner::AhciDma), held_run(53248, 1, FrameRangeState::Used, FrameRangeOwner::DynamicKernelMapping), held_run(57344, 2, FrameRangeState::Used, FrameRangeOwner::UserStack), held_run(65536, 4, FrameRangeState::Used, FrameRangeOwner::UserElf), held_run(81920, 1, FrameRangeState::Used, FrameRangeOwner::UserHeap), held_run(86016, 2, FrameRangeState::Used, FrameRangeOwner::UserMapping)],
{
        assert(allocation_fits_capacity(seq![held_run(0, 1, FrameRangeState::Reserved, FrameRangeOwner::KernelImage), held_run(4096, 1, FrameRangeState::Reserved, FrameRangeOwner::Mmio), held_run(8192, 1, FrameRangeState::Reserved, FrameRangeOwner::GuardPage), held_run(12288, 1, FrameRangeState::Used, FrameRangeOwner::PageTable), held_run(16384, 2, FrameRangeState::Used, FrameRangeOwner::KernelHeap), held_run(24576, 2, FrameRangeState::Used, FrameRangeOwner::KernelStack), held_run(32768, 2, FrameRangeState::Used, FrameRangeOwner::FramebufferBackbuffer), held_run(40960, 3, FrameRangeState::Used, FrameRangeOwner::AhciDma), held_run(53248, 1, FrameRangeState::Used, FrameRangeOwner::DynamicKernelMapping), held_run(57344, 2, FrameRangeState::Used, FrameRangeOwner::UserStack), held_run(65536, 4, FrameRangeState::Used, FrameRangeOwner::UserElf), held_run(81920, 1, FrameRangeState::Used, FrameRangeOwner::UserHeap), free_run(86016, 2)], 2)) by {
            reveal_with_fuel(first_fit, 16);
        }
        assert(first_fit(seq![held_run(0, 1, FrameRangeState::Reserved, FrameRangeOwner::KernelImage), held_run(4096, 1, FrameRangeState::Reserved, FrameRangeOwner::Mmio), held_run(8192, 1, FrameRangeState::Reserved, FrameRangeOwner::GuardPage), held_run(12288, 1, FrameRangeState::Used, FrameRangeOwner::PageTable), held_run(16384, 2, FrameRangeState::Used, FrameRangeOwner::KernelHeap), held_run(24576, 2, FrameRangeState::Used, FrameRangeOwner::KernelStack), held_run(32768, 2, FrameRangeState::Used, FrameRangeOwner::FramebufferBackbuffer), held_run(40960, 3, FrameRangeState::Used, FrameRangeOwner::AhciDma), held_run(53248, 1, FrameRangeState::Used, FrameRangeOwner::DynamicKernelMapping), held_run(57344, 2, FrameRangeState::Used, FrameRangeOwner::UserStack), held_run(65536, 4, FrameRangeState::Used, FrameRangeOwner::UserElf), held_run(81920, 1, FrameRangeState::Used, FrameRangeOwner::UserHeap), free_run(86016, 2)], 2) == 12) by {
            reveal_with_fuel(first_fit, 16);
        }
        assert(allocation_result(seq![held_run(0, 1, FrameRangeState::Reserved, FrameRangeOwner::KernelImage), held_run(4096, 1, FrameRangeState::Reserved, FrameRangeOwner::Mmio), held_run(8192, 1, FrameRangeState::Reserved, FrameRangeOwner::GuardPage), held_run(12288, 1, FrameRangeState::Used, FrameRangeOwner::PageTable), held_run(16384, 2, FrameRangeState::Used, FrameRangeOwner::KernelHeap), held_run(24576, 2, FrameRangeState::Used, FrameRangeOwner::KernelStack), held_run(32768, 2, FrameRangeState::Used, FrameRangeOwner::FramebufferBackbuffer), held_run(40960, 3, FrameRangeState::Used, FrameRangeOwner::AhciDma), held_run(53248, 1, FrameRangeState::Used, FrameRangeOwner::DynamicKernelMapping), held_run(57344, 2, FrameRangeState::Used, FrameRangeOwner::UserStack), held_run(65536, 4, FrameRangeState::Used, FrameRangeOwner::UserElf), held_run(81920, 1, FrameRangeState::Used, FrameRangeOwner::UserHeap), free_run(86016, 2)], 2, FrameRangeOwner::UserMapping) == seq![held_run(0, 1, FrameRangeState::Reserved, FrameRangeOwner::KernelImage), held_run(4096, 1, FrameRangeState::Reserved, FrameRangeOwner::Mmio), held_run(8192, 1, FrameRangeState::Reserved, FrameRangeOwner::GuardPage), held_run(12288, 1, FrameRangeState::Used, FrameRangeOwner::PageTable), held_run(16384, 2, FrameRangeState::Used, FrameRangeOwner::KernelHeap), held_run(24576, 2, FrameRangeState::Used, FrameRangeOwner::KernelStack), held_run(32768, 2, FrameRangeState::Used, FrameRangeOwner::FramebufferBackbuffer), held_run(40960, 3, FrameRangeState::Used, FrameRangeOwner::AhciDma), held_run(53248, 1, FrameRangeState::Used, FrameRangeOwner::DynamicKernelMapping), held_run(57344, 2, FrameRangeState::Used, FrameRangeOwner::UserStack), held_run(65536, 4, FrameRangeState::Used, FrameRangeOwner::UserElf), held_run(81920, 1, FrameRangeState::Used, FrameRangeOwner::UserHeap), held_run(86016, 2, FrameRangeState::Used, FrameRangeOwner::UserMapping)]) by {
            reveal_with_fuel(merge_tracked, 16); reveal_with_fuel(first_fit, 16);
        }
    }

#[verifier::rlimit(100)]
proof fn lemma_owner_coverage_step_14()
    ensures
        ({ let s = seq![held_run(0, 1, FrameRangeState::Reserved, FrameRangeOwner::KernelImage), held_run(4096, 1, FrameRangeState::Reserved, FrameRangeOwner::Mmio), held_run(8192, 1, FrameRangeState::Reserved, FrameRangeOwner::GuardPage), held_run(12288, 1, FrameRangeState::Used, FrameRangeOwner::PageTable), held_run(16384, 2, FrameRangeState::Used, FrameRangeOwner::KernelHeap), held_run(24576, 2, FrameRangeState::Used, FrameRangeOwner::KernelStack), held_run(32768, 2, FrameRangeState::Used, FrameRangeOwner::FramebufferBackbuffer), held_run(40960, 3, FrameRangeState::Used, FrameRangeOwner::AhciDma), held_run(53248, 1, FrameRangeState::Used, FrameRangeOwner::DynamicKernelMapping), held_run(57344, 2, FrameRangeState::Used, FrameRangeOwner::UserStack), held_run(65536, 4, FrameRangeState::Used, FrameRangeOwner::UserElf), held_run(81920, 1, FrameRangeState::Used, FrameRangeOwner::UserHeap), held_run(86016, 2, FrameRangeState::Used, FrameRangeOwner::UserMapping)]; pages_of_owner(s, FrameRangeOwner::Free) == 0 }),
        ({ let s = seq![held_run(0, 1, FrameRangeState::Reserved, FrameRangeOwner::KernelImage), held_run(4096, 1, FrameRangeState::Reserved, FrameRangeOwner::Mmio), held_run(8192, 1, FrameRangeState::Reserved, FrameRangeOwner::GuardPage), held_run(12288, 1, FrameRangeState::Used, FrameRangeOwner::PageTable), held_run(16384, 2, FrameRangeState::Used, FrameRangeOwner::KernelHeap), held_run(24576, 2, FrameRangeState::Used, FrameRangeOwner::KernelStack), held_run(32768, 2, FrameRangeState::Used, FrameRangeOwner::FramebufferBackbuffer), held_run(40960, 3, FrameRangeState::Used, FrameRangeOwner::AhciDma), held_run(53248, 1, FrameRangeState::Used, FrameRangeOwner::DynamicKernelMapping), held_run(57344, 2, FrameRangeState::Used, FrameRangeOwner::UserStack), held_run(65536, 4, FrameRangeState::Used, FrameRangeOwner::UserElf), held_run(81920, 1, FrameRangeState::Used, FrameRangeOwner::UserHeap), held_run(86016, 2, FrameRangeState::Used, FrameRangeOwner::UserMapping)]; pages_of_owner(s, FrameRangeOwner::FirmwareReserved) == 0 }),
        ({ let s = seq![held_run(0, 1, FrameRangeState::Reserved, FrameRangeOwner::KernelImage), held_run(4096, 1, FrameRangeState::Reserved, FrameRangeOwner::Mmio), held_run(8192, 1, FrameRangeState::Reserved, FrameRangeOwner::GuardPage), held_run(12288, 1, FrameRangeState::Used, FrameRangeOwner::PageTable), held_run(16384, 2, FrameRangeState::Used, FrameRangeOwner::KernelHeap), held_run(24576, 2, FrameRangeState::Used, FrameRangeOwner::KernelStack), held_run(32768, 2, FrameRangeState::Used, FrameRangeOwner::FramebufferBackbuffer), held_run(40960, 3, FrameRangeState::Used, FrameRangeOwner::AhciDma), held_run(53248, 1, FrameRangeState::Used, FrameRangeOwner::DynamicKernelMapping), held_run(57344, 2, FrameRangeState::Used, FrameRangeOwner::UserStack), held_run(65536, 4, FrameRangeState::Used, FrameRangeOwner::UserElf), held_run(81920, 1, FrameRangeState::Used, FrameRangeOwner::UserHeap), held_run(86016, 2, FrameRangeState::Used, FrameRangeOwner::UserMapping)]; pages_of_owner(s, FrameRangeOwner::KernelImage) == 1 }),
        ({ let s = seq![held_run(0, 1, FrameRangeState::Reserved, FrameRangeOwner::KernelImage), held_run(4096, 1, FrameRangeState::Reserved, FrameRangeOwner::Mmio), held_run(8192, 1, FrameRangeState::Reserved, FrameRangeOwner::GuardPage), held_run(12288, 1, FrameRangeState::Used, FrameRangeOwner::PageTable), held_run(16384, 2, FrameRangeState::Used, FrameRangeOwner::KernelHeap), held_run(24576, 2, FrameRangeState::Used, FrameRangeOwner::KernelStack), held_run(32768, 2, FrameRangeState::Used, FrameRangeOwner::FramebufferBackbuffer), held_run(40960, 3, FrameRangeState::Used, FrameRangeOwner::AhciDma), held_run(53248, 1, FrameRangeState::Used, FrameRangeOwner::DynamicKernelMapping), held_run(57344, 2, FrameRangeState::Used, FrameRangeOwner::UserStack), held_run(65536, 4, FrameRangeState::Used, FrameRangeOwner::UserElf), held_run(81920, 1, FrameRangeState::Used, FrameRangeOwner::UserHeap), held_run(86016, 2, FrameRangeState::Used, FrameRangeOwner::UserMapping)]; pages_of_owner(s, FrameRangeOwner::Mmio) == 1 }),
        ({ let s = seq![held_run(0, 1, FrameRangeState::Reserved, FrameRangeOwner::KernelImage), held_run(4096, 1, FrameRangeState::Reserved, FrameRangeOwner::Mmio), held_run(8192, 1, FrameRangeState::Reserved, FrameRangeOwner::GuardPage), held_run(12288, 1, FrameRangeState::Used, FrameRangeOwner::PageTable), held_run(16384, 2, FrameRangeState::Used, FrameRangeOwner::KernelHeap), held_run(24576, 2, FrameRangeState::Used, FrameRangeOwner::KernelStack), held_run(32768, 2, FrameRangeState::Used, FrameRangeOwner::FramebufferBackbuffer), held_run(40960, 3, FrameRangeState::Used, FrameRangeOwner::AhciDma), held_run(53248, 1, FrameRangeState::Used, FrameRangeOwner::DynamicKernelMapping), held_run(57344, 2, FrameRangeState::Used, FrameRangeOwner::UserStack), held_run(65536, 4, FrameRangeState::Used, FrameRangeOwner::UserElf), held_run(81920, 1, FrameRangeState::Used, FrameRangeOwner::UserHeap), held_run(86016, 2, FrameRangeState::Used, FrameRangeOwner::UserMapping)]; pages_of_owner(s, FrameRangeOwner::GuardPage) == 1 }),
        ({ let s = seq![held_run(0, 1, FrameRangeState::Reserved, FrameRangeOwner::KernelImage), held_run(4096, 1, FrameRangeState::Reserved, FrameRangeOwner::Mmio), held_run(8192, 1, FrameRangeState::Reserved, FrameRangeOwner::GuardPage), held_run(12288, 1, FrameRangeState::Used, FrameRangeOwner::PageTable), held_run(16384, 2, FrameRangeState::Used, FrameRangeOwner::KernelHeap), held_run(24576, 2, FrameRangeState::Used, FrameRangeOwner::KernelStack), held_run(32768, 2, FrameRangeState::Used, FrameRangeOwner::FramebufferBackbuffer), held_run(40960, 3, FrameRangeState::Used, FrameRangeOwner::AhciDma), held_run(53248, 1, FrameRangeState::Used, FrameRangeOwner::DynamicKernelMapping), held_run(57344, 2, FrameRangeState::Used, FrameRangeOwner::UserStack), held_run(65536, 4, FrameRangeState::Used, FrameRangeOwner::UserElf), held_run(81920, 1, FrameRangeState::Used, FrameRangeOwner::UserHeap), held_run(86016, 2, FrameRangeState::Used, FrameRangeOwner::UserMapping)]; pages_of_owner(s, FrameRangeOwner::UnknownUsed) == 0 }),
        ({ let s = seq![held_run(0, 1, FrameRangeState::Reserved, FrameRangeOwner::KernelImage), held_run(4096, 1, FrameRangeState::Reserved, FrameRangeOwner::Mmio), held_run(8192, 1, FrameRangeState::Reserved, FrameRangeOwner::GuardPage), held_run(12288, 1, FrameRangeState::Used, FrameRangeOwner::PageTable), held_run(16384, 2, FrameRangeState::Used, FrameRangeOwner::KernelHeap), held_run(24576, 2, FrameRangeState::Used, FrameRangeOwner::KernelStack), held_run(32768, 2, FrameRangeState::Used, FrameRangeOwner::FramebufferBackbuffer), held_run(40960, 3, FrameRangeState::Used, FrameRangeOwner::AhciDma), held_run(53248, 1, FrameRangeState::Used, FrameRangeOwner::DynamicKernelMapping), held_run(57344, 2, FrameRangeState::Used, FrameRangeOwner::UserStack), held_run(65536, 4, FrameRangeState::Used, FrameRangeOwner::UserElf), held_run(81920, 1, FrameRangeState::Used, FrameRangeOwner::UserHeap), held_run(86016, 2, FrameRangeState::Used, FrameRangeOwner::UserMapping)]; pages_of_owner(s, FrameRangeOwner::PageTable) == 1 }),
        ({ let s = seq![held_run(0, 1, FrameRangeState::Reserved, FrameRangeOwner::KernelImage), held_run(4096, 1, FrameRangeState::Reserved, FrameRangeOwner::Mmio), held_run(8192, 1, FrameRangeState::Reserved, FrameRangeOwner::GuardPage), held_run(12288, 1, FrameRangeState::Used, FrameRangeOwner::PageTable), held_run(16384, 2, FrameRangeState::Used, FrameRangeOwner::KernelHeap), held_run(24576, 2, FrameRangeState::Used, FrameRangeOwner::KernelStack), held_run(32768, 2, FrameRangeState::Used, FrameRangeOwner::FramebufferBackbuffer), held_run(40960, 3, FrameRangeState::Used, FrameRangeOwner::AhciDma), held_run(53248, 1, FrameRangeState::Used, FrameRangeOwner::DynamicKernelMapping), held_run(57344, 2, FrameRangeState::Used, FrameRangeOwner::UserStack), held_run(65536, 4, FrameRangeState::Used, FrameRangeOwner::UserElf), held_run(81920, 1, FrameRangeState::Used, FrameRangeOwner::UserHeap), held_run(86016, 2, FrameRangeState::Used, FrameRangeOwner::UserMapping)]; pages_of_owner(s, FrameRangeOwner::KernelHeap) == 2 }),
        ({ let s = seq![held_run(0, 1, FrameRangeState::Reserved, FrameRangeOwner::KernelImage), held_run(4096, 1, FrameRangeState::Reserved, FrameRangeOwner::Mmio), held_run(8192, 1, FrameRangeState::Reserved, FrameRangeOwner::GuardPage), held_run(12288, 1, FrameRangeState::Used, FrameRangeOwner::PageTable), held_run(16384, 2, FrameRangeState::Used, FrameRangeOwner::KernelHeap), held_run(24576, 2, FrameRangeState::Used, FrameRangeOwner::KernelStack), held_run(32768, 2, FrameRangeState::Used, FrameRangeOwner::FramebufferBackbuffer), held_run(40960, 3, FrameRangeState::Used, FrameRangeOwner::AhciDma), held_run(53248, 1, FrameRangeState::Used, FrameRangeOwner::DynamicKernelMapping), held_run(57344, 2, FrameRangeState::Used, FrameRangeOwner::UserStack), held_run(65536, 4, FrameRangeState::Used, FrameRangeOwner::UserElf), held_run(81920, 1, FrameRangeState::Used, FrameRangeOwner::UserHeap), held_run(86016, 2, FrameRangeState::Used, FrameRangeOwner::UserMapping)]; pages_of_owner(s, FrameRangeOwner::KernelStack) == 2 }),
        ({ let s = seq![held_run(0, 1, FrameRangeState::Reserved, FrameRangeOwner::KernelImage), held_run(4096, 1, FrameRangeState::Reserved, FrameRangeOwner::Mmio), held_run(8192, 1, FrameRangeState::Reserved, FrameRangeOwner::GuardPage), held_run(12288, 1, FrameRangeState::Used, FrameRangeOwner::PageTable), held_run(16384, 2, FrameRangeState::Used, FrameRangeOwner::KernelHeap), held_run(24576, 2, FrameRangeState::Used, FrameRangeOwner::KernelStack), held_run(32768, 2, FrameRangeState::Used, FrameRangeOwner::FramebufferBackbuffer), held_run(40960, 3, FrameRangeState::Used, FrameRangeOwner::AhciDma), held_run(53248, 1, FrameRangeState::Used, FrameRangeOwner::DynamicKernelMapping), held_run(57344, 2, FrameRangeState::Used, FrameRangeOwner::UserStack), held_run(65536, 4, FrameRangeState::Used, FrameRangeOwner::UserElf), held_run(81920, 1, FrameRangeState::Used, FrameRangeOwner::UserHeap), held_run(86016, 2, FrameRangeState::Used, FrameRangeOwner::UserMapping)]; pages_of_owner(s, FrameRangeOwner::FramebufferBackbuffer) == 2 }),
        ({ let s = seq![held_run(0, 1, FrameRangeState::Reserved, FrameRangeOwner::KernelImage), held_run(4096, 1, FrameRangeState::Reserved, FrameRangeOwner::Mmio), held_run(8192, 1, FrameRangeState::Reserved, FrameRangeOwner::GuardPage), held_run(12288, 1, FrameRangeState::Used, FrameRangeOwner::PageTable), held_run(16384, 2, FrameRangeState::Used, FrameRangeOwner::KernelHeap), held_run(24576, 2, FrameRangeState::Used, FrameRangeOwner::KernelStack), held_run(32768, 2, FrameRangeState::Used, FrameRangeOwner::FramebufferBackbuffer), held_run(40960, 3, FrameRangeState::Used, FrameRangeOwner::AhciDma), held_run(53248, 1, FrameRangeState::Used, FrameRangeOwner::DynamicKernelMapping), held_run(57344, 2, FrameRangeState::Used, FrameRangeOwner::UserStack), held_run(65536, 4, FrameRangeState::Used, FrameRangeOwner::UserElf), held_run(81920, 1, FrameRangeState::Used, FrameRangeOwner::UserHeap), held_run(86016, 2, FrameRangeState::Used, FrameRangeOwner::UserMapping)]; pages_of_owner(s, FrameRangeOwner::AhciDma) == 3 }),
        ({ let s = seq![held_run(0, 1, FrameRangeState::Reserved, FrameRangeOwner::KernelImage), held_run(4096, 1, FrameRangeState::Reserved, FrameRangeOwner::Mmio), held_run(8192, 1, FrameRangeState::Reserved, FrameRangeOwner::GuardPage), held_run(12288, 1, FrameRangeState::Used, FrameRangeOwner::PageTable), held_run(16384, 2, FrameRangeState::Used, FrameRangeOwner::KernelHeap), held_run(24576, 2, FrameRangeState::Used, FrameRangeOwner::KernelStack), held_run(32768, 2, FrameRangeState::Used, FrameRangeOwner::FramebufferBackbuffer), held_run(40960, 3, FrameRangeState::Used, FrameRangeOwner::AhciDma), held_run(53248, 1, FrameRangeState::Used, FrameRangeOwner::DynamicKernelMapping), held_run(57344, 2, FrameRangeState::Used, FrameRangeOwner::UserStack), held_run(65536, 4, FrameRangeState::Used, FrameRangeOwner::UserElf), held_run(81920, 1, FrameRangeState::Used, FrameRangeOwner::UserHeap), held_run(86016, 2, FrameRangeState::Used, FrameRangeOwner::UserMapping)]; pages_of_owner(s, FrameRangeOwner::DynamicKernelMapping) == 1 }),
        ({ let s = seq![held_run(0, 1, FrameRangeState::Reserved, FrameRangeOwner::KernelImage), held_run(4096, 1, FrameRangeState::Reserved, FrameRangeOwner::Mmio), held_run(8192, 1, FrameRangeState::Reserved, FrameRangeOwner::GuardPage), held_run(12288, 1, FrameRangeState::Used, FrameRangeOwner::PageTable), held_run(16384, 2, FrameRangeState::Used, FrameRangeOwner::KernelHeap), held_run(24576, 2, FrameRangeState::Used, FrameRangeOwner::KernelStack), held_run(32768, 2, FrameRangeState::Used, FrameRangeOwner::FramebufferBackbuffer), held_run(40960, 3, FrameRangeState::Used, FrameRangeOwner::AhciDma), held_run(53248, 1, FrameRangeState::Used, FrameRangeOwner::DynamicKernelMapping), held_run(57344, 2, FrameRangeState::Used, FrameRangeOwner::UserStack), held_run(65536, 4, FrameRangeState::Used, FrameRangeOwner::UserElf), held_run(81920, 1, FrameRangeState::Used, FrameRangeOwner::UserHeap), held_run(86016, 2, FrameRangeState::Used, FrameRangeOwner::UserMapping)]; pages_of_owner(s, FrameRangeOwner::UserStack) == 2 }),
        ({ let s = seq![held_run(0, 1, FrameRangeState::Reserved, FrameRangeOwner::KernelImage), held_run(4096, 1, FrameRangeState::Reserved, FrameRangeOwner::Mmio), held_run(8192, 1, FrameRangeState::Reserved, FrameRangeOwner::GuardPage), held_run(12288, 1, FrameRangeState::Used, FrameRangeOwner::PageTable), held_run(16384, 2, FrameRangeState::Used, FrameRangeOwner::KernelHeap), held_run(24576, 2, FrameRangeState::Used, FrameRangeOwner::KernelStack), held_run(32768, 2, FrameRangeState::Used, FrameRangeOwner::FramebufferBackbuffer), held_run(40960, 3, FrameRangeState::Used, FrameRangeOwner::AhciDma), held_run(53248, 1, FrameRangeState::Used, FrameRangeOwner::DynamicKernelMapping), held_run(57344, 2, FrameRangeState::Used, FrameRangeOwner::UserStack), held_run(65536, 4, FrameRangeState::Used, FrameRangeOwner::UserElf), held_run(81920, 1, FrameRangeState::Used, FrameRangeOwner::UserHeap), held_run(86016, 2, FrameRangeState::Used, FrameRangeOwner::UserMapping)]; pages_of_owner(s, FrameRangeOwner::UserElf) == 4 }),
        ({ let s = seq![held_run(0, 1, FrameRangeState::Reserved, FrameRangeOwner::KernelImage), held_run(4096, 1, FrameRangeState::Reserved, FrameRangeOwner::Mmio), held_run(8192, 1, FrameRangeState::Reserved, FrameRangeOwner::GuardPage), held_run(12288, 1, FrameRangeState::Used, FrameRangeOwner::PageTable), held_run(16384, 2, FrameRangeState::Used, FrameRangeOwner::KernelHeap), held_run(24576, 2, FrameRangeState::Used, FrameRangeOwner::KernelStack), held_run(32768, 2, FrameRangeState::Used, FrameRangeOwner::FramebufferBackbuffer), held_run(40960, 3, FrameRangeState::Used, FrameRangeOwner::AhciDma), held_run(53248, 1, FrameRangeState::Used, FrameRangeOwner::DynamicKernelMapping), held_run(57344, 2, FrameRangeState::Used, FrameRangeOwner::UserStack), held_run(65536, 4, FrameRangeState::Used, FrameRangeOwner::UserElf), held_run(81920, 1, FrameRangeState::Used, FrameRangeOwner::UserHeap), held_run(86016, 2, FrameRangeState::Used, FrameRangeOwner::UserMapping)]; pages_of_owner(s, FrameRangeOwner::UserHeap) == 1 }),
        ({ let s = seq![held_run(0, 1, FrameRangeState::Reserved, FrameRangeOwner::KernelImage), held_run(4096, 1, FrameRangeState::Reserved, FrameRangeOwner::Mmio), held_run(8192, 1, FrameRangeState::Reserved, FrameRangeOwner::GuardPage), held_run(12288, 1, FrameRangeState::Used, FrameRangeOwner::PageTable), held_run(16384, 2, FrameRangeState::Used, FrameRangeOwner::KernelHeap), held_run(24576, 2, FrameRangeState::Used, FrameRangeOwner::KernelStack), held_run(32768, 2, FrameRangeState::Used, FrameRangeOwner::FramebufferBackbuffer), held_run(40960, 3, FrameRangeState::Used, FrameRangeOwner::AhciDma), held_run(53248, 1, FrameRangeState::Used, FrameRangeOwner::DynamicKernelMapping), held_run(57344, 2, FrameRangeState::Used, FrameRangeOwner::UserStack), held_run(65536, 4, FrameRangeState::Used, FrameRangeOwner::UserElf), held_run(81920, 1, FrameRangeState::Used, FrameRangeOwner::UserHeap), held_run(86016, 2, FrameRangeState::Used, FrameRangeOwner::UserMapping)]; pages_of_owner(s, FrameRangeOwner::UserMapping) == 2 }),
{
        let s = seq![held_run(0, 1, FrameRangeState::Reserved, FrameRangeOwner::KernelImage), held_run(4096, 1, FrameRangeState::Reserved, FrameRangeOwner::Mmio), held_run(8192, 1, FrameRangeState::Reserved, FrameRangeOwner::GuardPage), held_run(12288, 1, FrameRangeState::Used, FrameRangeOwner::PageTable), held_run(16384, 2, FrameRangeState::Used, FrameRangeOwner::KernelHeap), held_run(24576, 2, FrameRangeState::Used, FrameRangeOwner::KernelStack), held_run(32768, 2, FrameRangeState::Used, FrameRangeOwner::FramebufferBackbuffer), held_run(40960, 3, FrameRangeState::Used, FrameRangeOwner::AhciDma), held_run(53248, 1, FrameRangeState::Used, FrameRangeOwner::DynamicKernelMapping), held_run(57344, 2, FrameRangeState::Used, FrameRangeOwner::UserStack), held_run(65536, 4, FrameRangeState::Used, FrameRangeOwner::UserElf), held_run(81920, 1, FrameRangeState::Used, FrameRangeOwner::UserHeap), held_run(86016, 2, FrameRangeState::Used, FrameRangeOwner::UserMapping)];
        assert(pages_of_owner(s, FrameRangeOwner::Free) == 0) by {
            reveal_with_fuel(pages_of_owner, 16);
        }
        assert(pages_of_owner(s, FrameRangeOwner::FirmwareReserved) == 0) by {
            reveal_with_fuel(pages_of_owner, 16);
        }
        assert(pages_of_owner(s, FrameRangeOwner::KernelImage) == 1) by {
            reveal_with_fuel(pages_of_owner, 16);
        }
        assert(pages_of_owner(s, FrameRangeOwner::Mmio) == 1) by {
            reveal_with_fuel(pages_of_owner, 16);
        }
        assert(pages_of_owner(s, FrameRangeOwner::GuardPage) == 1) by {
            reveal_with_fuel(pages_of_owner, 16);
        }
        assert(pages_of_owner(s, FrameRangeOwner::UnknownUsed) == 0) by {
            reveal_with_fuel(pages_of_owner, 16);
        }
        assert(pages_of_owner(s, FrameRangeOwner::PageTable) == 1) by {
            reveal_with_fuel(pages_of_owner, 16);
        }
        assert(pages_of_owner(s, FrameRangeOwner::KernelHeap) == 2) by {
            reveal_with_fuel(pages_of_owner, 16);
        }
        assert(pages_of_owner(s, FrameRangeOwner::KernelStack) == 2) by {
            reveal_with_fuel(pages_of_owner, 16);
        }
        assert(pages_of_owner(s, FrameRangeOwner::FramebufferBackbuffer) == 2) by {
            reveal_with_fuel(pages_of_owner, 16);
        }
        assert(pages_of_owner(s, FrameRangeOwner::AhciDma) == 3) by {
            reveal_with_fuel(pages_of_owner, 16);
        }
        assert(pages_of_owner(s, FrameRangeOwner::DynamicKernelMapping) == 1) by {
            reveal_with_fuel(pages_of_owner, 16);
        }
        assert(pages_of_owner(s, FrameRangeOwner::UserStack) == 2) by {
            reveal_with_fuel(pages_of_owner, 16);
        }
        assert(pages_of_owner(s, FrameRangeOwner::UserElf) == 4) by {
            reveal_with_fuel(pages_of_owner, 16);
        }
        assert(pages_of_owner(s, FrameRangeOwner::UserHeap) == 1) by {
            reveal_with_fuel(pages_of_owner, 16);
        }
        assert(pages_of_owner(s, FrameRangeOwner::UserMapping) == 2) by {
            reveal_with_fuel(pages_of_owner, 16);
        }
    }

/// Verify that tracked reserved and used ranges can record every current
/// owner class.
#[verifier::spinoff_prover]
#[verifier::rlimit(100)]
pub fn verify_explicit_owner_coverage() -> (r: bool)
    ensures
        r,
{
    let mut frame_allocator = PhysicalFrameAllocator::new();
    let one = FrameCount::new(1).unwrap();
    let two = FrameCount::new(2).unwrap();
    let three = FrameCount::new(3).unwrap();
    let four = FrameCount::new(4).unwrap();
    let twenty = FrameCount::new(20).unwrap();
    proof {
        lemma_owner_coverage_step_0();
    }
    frame_allocator.reserve_region_for(PhysAddr::new(0), one, FrameRangeOwner::KernelImage);
    proof {
        lemma_owner_coverage_step_1();
    }
    frame_allocator.reserve_region_for(PhysAddr::new(4096), one, FrameRangeOwner::Mmio);
    proof {
        lemma_owner_coverage_step_2();
    }
    frame_allocator.reserve_region_for(PhysAddr::new(8192), one, FrameRangeOwner::GuardPage);
    proof {
        lemma_owner_coverage_step_3();
    }
    frame_allocator.add_region(PhysAddr::new(12288), twenty);
    proof {
        lemma_owner_coverage_step_4();
    }
    if frame_allocator.allocate_frames_for(one, FrameRangeOwner::PageTable).is_none() {
        return false;
    }
    proof {
        lemma_owner_coverage_step_5();
    }
    if frame_allocator.allocate_frames_for(two, FrameRangeOwner::KernelHeap).is_none() {
        return false;
    }
    proof {
        lemma_owner_coverage_step_6();
    }
    if frame_allocator.allocate_frames_for(two, FrameRangeOwner::KernelStack).is_none() {
        return false;
    }
    proof {
        lemma_owner_coverage_step_7();
    }
    if frame_allocator.allocate_frames_for(two, FrameRangeOwner::FramebufferBackbuffer).is_none() {
        return false;
    }
    proof {
        lemma_owner_coverage_step_8();
    }
    if frame_allocator.allocate_frames_for(three, FrameRangeOwner::AhciDma).is_none() {
        return false;
    }
    proof {
        lemma_owner_coverage_step_9();
    }
    if frame_allocator.allocate_frames_for(one, FrameRangeOwner::DynamicKernelMapping).is_none() {
        return false;
    }
    proof {
        lemma_owner_coverage_step_10();
    }
    if frame_allocator.allocate_frames_for(two, FrameRangeOwner::UserStack).is_none() {
        return false;
    }
    proof {
        lemma_owner_coverage_step_11();
    }
    if frame_allocator.allocate_frames_for(four, FrameRangeOwner::UserElf).is_none() {
        return false;
    }
    proof {
        lemma_owner_coverage_step_12();
    }
    if frame_allocator.allocate_frames_for(one, FrameRangeOwner::UserHeap).is_none() {
        return false;
    }
    proof {
        lemma_owner_coverage_step_13();
    }
    if frame_allocator.allocate_frames_for(two, FrameRangeOwner::UserMapping).is_none() {
        return false;
    }
    proof {
        lemma_owner_coverage_step_14();
    }
    frame_allocator.owner_statistics() == FrameAllocatorOwnerStatistics {
            free: 0,
            firmware_reserved: 0,
            kernel_image: 1,
            mmio: 1,
            guard_page: 1,
            unknown_used: 0,
            page_table: 1,
            kernel_heap: 2,
            kernel_stack: 2,
            framebuffer_backbuffer: 2,
            ahci_dma: 3,
            dynamic_kernel_mapping: 1,
            user_stack: 2,
            user_elf: 4,
            user_heap: 1,
            user_mapping: 2,
        }
}

} // verus!
