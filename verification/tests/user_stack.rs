use manaos::kernel::memory::address::{FrameCount, PhysAddr};
use manaos::kernel::memory::frame_allocator::{FrameRangeOwner, PhysicalFrameAllocator};
use manaos::kernel::memory::user_layout::{USER_STACK_REGION_BASE, USER_STACK_SLOT_BYTES};
use manaos::kernel::memory::user_stack::{reserve_user_stack, UserStackSlots};

fn allocator_with(frames: u64) -> PhysicalFrameAllocator {
    let mut allocator = PhysicalFrameAllocator::new();
    allocator.add_region(PhysAddr::new(0x10_0000), FrameCount::new(frames).unwrap());
    allocator
}

#[test]
fn user_stacks_take_consecutive_slots_and_their_frames() {
    let mut allocator = allocator_with(16);
    let mut slots = UserStackSlots::new();
    let first = reserve_user_stack(&mut slots, &mut allocator, 4).unwrap();
    assert_eq!(first.base().as_u64(), USER_STACK_REGION_BASE);
    assert_eq!(first.top().as_u64(), USER_STACK_REGION_BASE + 4 * 4096);
    assert_eq!(first.physical_range().start().as_u64(), 0x10_0000);
    assert_eq!(first.page_count(), 4);
    let second = reserve_user_stack(&mut slots, &mut allocator, 2).unwrap();
    assert_eq!(second.base().as_u64(), USER_STACK_REGION_BASE + USER_STACK_SLOT_BYTES);
    assert_eq!(second.physical_range().start().as_u64(), 0x10_0000 + 4 * 4096);
    assert_eq!(allocator.pages_owned_by(FrameRangeOwner::UserStack), 6);
    let (page, frame) = second.page_mapping(1);
    assert_eq!(page.as_u64(), USER_STACK_REGION_BASE + USER_STACK_SLOT_BYTES + 4096);
    assert_eq!(frame.as_u64(), 0x10_0000 + 5 * 4096);
}

#[test]
fn user_stack_reservation_fails_without_frames_and_takes_nothing() {
    let mut allocator = allocator_with(2);
    let mut slots = UserStackSlots::new();
    assert!(reserve_user_stack(&mut slots, &mut allocator, 4).is_none());
    assert_eq!(allocator.pages_owned_by(FrameRangeOwner::UserStack), 0);
    let stack = reserve_user_stack(&mut slots, &mut allocator, 2).unwrap();
    assert_eq!(stack.base().as_u64(), USER_STACK_REGION_BASE);
}

#[test]
fn user_stack_slots_run_out_at_the_end_of_user_space() {
    let mut allocator = allocator_with(512);
    let mut slots = UserStackSlots::new();
    let mut reserved = 0;
    while reserve_user_stack(&mut slots, &mut allocator, 1).is_some() {
        reserved += 1;
    }
    assert_eq!(reserved, 256);
    assert_eq!(allocator.pages_owned_by(FrameRangeOwner::UserStack), 256);
}
