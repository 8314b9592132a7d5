//! Static user virtual address layout.
//!
//! The user half of the address space holds, from low to high: linked user
//! executables, the `brk`-managed heap, the private mapping region, and the
//! fixed user stack slots.

use vstd::prelude::*;

verus! {

/// Virtual base used by linked user executables.
pub const USER_PROGRAM_BASE: u64 = 0x0000_4000_0000_0000;

/// Exclusive upper bound for the first `brk`-managed user heap model.
pub const USER_HEAP_END: u64 = 0x0000_6000_0000_0000;

/// Inclusive start of the private user mapping region.
pub const USER_MAPPING_BASE: u64 = 0x0000_6000_0000_0000;

/// Exclusive end of the private user mapping region.
pub const USER_MAPPING_END: u64 = 0x0000_7000_0000_0000;

/// Inclusive start of the fixed user stack slot region.
pub const USER_STACK_REGION_BASE: u64 = 0x0000_7fff_f000_0000;

/// Bytes reserved for each fixed user stack slot.
pub const USER_STACK_SLOT_BYTES: u64 = 0x0010_0000;

/// The regions follow one another in the documented order, the heap ends
/// where the mapping region begins, and every region boundary used as an
/// address is a page-aligned user address.
pub proof fn law_user_layout_is_ordered()
    ensures
        USER_HEAP_END == USER_MAPPING_BASE,
        USER_PROGRAM_BASE < USER_HEAP_END,
        USER_MAPPING_BASE < USER_MAPPING_END,
        USER_MAPPING_END < USER_STACK_REGION_BASE,
        crate::kernel::memory::address::is_user_address(USER_PROGRAM_BASE as int),
        crate::kernel::memory::address::is_user_address(USER_MAPPING_BASE as int),
        crate::kernel::memory::address::is_user_address(USER_MAPPING_END - 4096),
        crate::kernel::memory::address::is_user_address(USER_STACK_REGION_BASE as int),
        USER_PROGRAM_BASE % 4096 == 0,
        USER_MAPPING_BASE % 4096 == 0,
        USER_MAPPING_END % 4096 == 0,
        USER_STACK_REGION_BASE % 4096 == 0,
        USER_STACK_SLOT_BYTES % 4096 == 0,
{
}

} // verus!
