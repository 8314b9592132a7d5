use manaos::kernel::memory::address::{
    verify_checked_address_conversions, verify_typed_frame_count, verify_typed_page_count,
    verify_typed_user_copy_ranges, verify_typed_user_page_start, verify_typed_user_virtual_address,
    verify_typed_user_virtual_range, verify_typed_user_virtual_range_page_bounds, PageCount,
    UserVirtualAddress, VirtAddr,
};
use manaos::kernel::memory::paging::{
    framebuffer_flags, huge_region_flags, is_executable_memory_type, memory_region_flags,
    mmio_flags, page_flags_allow, readable_user_data_flags, user_range_pages,
    writable_user_data_flags, UserRangePages,
};
use manaos::kernel::memory::user_heap::{align_up_to_page, UserHeap};
use manaos::kernel::memory::user_pointer::cstr_bytes_before_terminator;
use manaos::kernel::memory::virtual_allocator::{
    new_dynamic_mapping_allocator, verify_kernel_virtual_range_allocation,
    verify_kernel_virtual_range_exhaustion, KernelVirtualRangeAllocator,
};

const PRESENT: u64 = 1;
const WRITABLE: u64 = 2;
const USER: u64 = 4;
const NO_CACHE: u64 = 16;
const HUGE: u64 = 128;
const NO_EXECUTE: u64 = 1 << 63;

#[test]
fn typed_address_self_checks_pass() {
    assert!(verify_typed_user_virtual_address());
    assert!(verify_typed_user_page_start());
    assert!(verify_typed_user_virtual_range());
    assert!(verify_typed_user_virtual_range_page_bounds());
    assert!(verify_typed_user_copy_ranges());
    assert!(verify_checked_address_conversions());
    assert!(verify_typed_frame_count());
    assert!(verify_typed_page_count());
}

#[test]
fn kernel_virtual_range_self_checks_pass() {
    assert!(verify_kernel_virtual_range_allocation());
    assert!(verify_kernel_virtual_range_exhaustion());
}

#[test]
fn code_memory_types_stay_executable() {
    assert!(is_executable_memory_type(1));
    assert!(is_executable_memory_type(3));
    assert!(is_executable_memory_type(5));
    assert!(!is_executable_memory_type(2));
    assert!(!is_executable_memory_type(7));
    assert_eq!(memory_region_flags(1), PRESENT | WRITABLE);
    assert_eq!(memory_region_flags(7), PRESENT | WRITABLE | NO_EXECUTE);
}

#[test]
fn special_mappings_carry_their_flag_bits() {
    assert_eq!(mmio_flags(), PRESENT | WRITABLE | NO_CACHE | NO_EXECUTE);
    assert_eq!(framebuffer_flags(), PRESENT | WRITABLE | NO_EXECUTE);
    assert_eq!(huge_region_flags(PRESENT), PRESENT | HUGE);
    assert_eq!(readable_user_data_flags(), NO_EXECUTE);
    assert_eq!(writable_user_data_flags(), WRITABLE | NO_EXECUTE);
}

#[test]
fn user_data_checks_need_presence_and_user_access() {
    let page = PRESENT | USER | WRITABLE | NO_EXECUTE;
    assert!(page_flags_allow(page, writable_user_data_flags()));
    assert!(!page_flags_allow(PRESENT | WRITABLE | NO_EXECUTE, writable_user_data_flags()));
    assert!(!page_flags_allow(PRESENT | USER | NO_EXECUTE, writable_user_data_flags()));
}

#[test]
fn user_range_pages_cover_first_to_last_page() {
    assert_eq!(user_range_pages(0x1234, 0), UserRangePages::Empty);
    assert_eq!(user_range_pages(0, 4), UserRangePages::Rejected);
    assert_eq!(user_range_pages(0x7fff_ffff_f000, 0x2000), UserRangePages::Rejected);
    assert_eq!(user_range_pages(0x1ff0, 0x20), UserRangePages::Pages(0x1000, 0x2000));
}

#[test]
fn dynamic_mapping_allocator_hands_out_and_takes_back_pages() {
    let mut allocator: KernelVirtualRangeAllocator = new_dynamic_mapping_allocator();
    let before = allocator.remaining_pages();
    let range = allocator.allocate_pages(PageCount::new(4).unwrap()).unwrap();
    assert_eq!(allocator.remaining_pages(), before - 4);
    let second = allocator.allocate_pages(PageCount::new(1).unwrap()).unwrap();
    assert_eq!(second.start().as_u64(), range.start().as_u64() + 4 * 4096);
    assert!(allocator.free_pages(range));
    assert!(!allocator.free_pages(range));
    assert_eq!(allocator.remaining_pages(), before - 1);
}

#[test]
fn allocator_below_the_kernel_half_is_refused() {
    assert!(KernelVirtualRangeAllocator::new(VirtAddr::new(0x1000_0000), PageCount::new(2).unwrap())
        .is_none());
}

#[test]
fn small_allocator_is_exhausted_then_refills() {
    let mut allocator =
        KernelVirtualRangeAllocator::new(VirtAddr::new(0xffff_9000_0000_0000), PageCount::new(2).unwrap())
            .unwrap();
    let range = allocator.allocate_pages(PageCount::new(2).unwrap()).unwrap();
    assert!(allocator.allocate_pages(PageCount::new(1).unwrap()).is_none());
    assert_eq!(allocator.remaining_pages(), 0);
    assert!(allocator.free_pages(range));
    assert_eq!(allocator.remaining_pages(), 2);
}

#[test]
fn heap_break_plan_rounds_to_pages() {
    let base = UserVirtualAddress::new(VirtAddr::new(0x60_0000)).unwrap();
    let heap = UserHeap::new(base);
    assert!(heap.plan_break(0).is_none());
    assert!(heap.plan_break(0x5f_f000).is_none());
    let (new_break, target) = heap.plan_break(0x60_0001).unwrap();
    assert_eq!(new_break.as_u64(), 0x60_0001);
    assert_eq!(target, 0x60_1000);
    assert_eq!(align_up_to_page(0x1001), 0x2000);
    assert_eq!(align_up_to_page(0x2000), 0x2000);
}

#[test]
fn cstr_bytes_stop_at_the_first_nul() {
    assert_eq!(cstr_bytes_before_terminator(b"init\0rest\0"), Some(b"init".to_vec()));
    assert_eq!(cstr_bytes_before_terminator(b"\0"), Some(Vec::new()));
    assert_eq!(cstr_bytes_before_terminator(b"unterminated"), None);
}
