//! Page-table policy: which flags identity-mapped memory gets, how a region
//! is cut into huge and small pages, which pages an MMIO or framebuffer
//! range covers, and what a user-range permission check demands of each
//! page's flags. The page tables themselves are written by the caller.

use vstd::prelude::*;

use uefi::mem::memory_map::MemoryType;

use super::address::{page_floor, FramebufferPhysicalRange, PhysAddr, VirtAddr};
use super::page_flags::{
    has_flags, huge_page_bit, huge_page_flag, no_cache_bit, no_cache_flag, no_execute_bit,
    no_execute_flag, present_bit, present_flag, user_accessible_bit, user_accessible_flag,
    writable_bit, writable_flag,
};

verus! {

const PAGE_SIZE: u64 = 4096;
const HUGE_PAGE_SIZE: u64 = 0x20_0000;
const USER_SPACE_END: u64 = 0x0000_8000_0000_0000;

/// The raw value of `MemoryType::LOADER_CODE`; the crate declares it 1.
#[verifier::external_body]
fn loader_code_type() -> (r: u32)
    ensures
        r == 1,
{
    MemoryType::LOADER_CODE.0
}

/// The raw value of `MemoryType::BOOT_SERVICES_CODE`; the crate declares it 3.
#[verifier::external_body]
fn boot_services_code_type() -> (r: u32)
    ensures
        r == 3,
{
    MemoryType::BOOT_SERVICES_CODE.0
}

/// The raw value of `MemoryType::RUNTIME_SERVICES_CODE`; the crate declares
/// it 5.
#[verifier::external_body]
fn runtime_services_code_type() -> (r: u32)
    ensures
        r == 5,
{
    MemoryType::RUNTIME_SERVICES_CODE.0
}

/// Whether firmware memory of type `memory_type` holds code: loader,
/// boot-services or runtime-services code.
pub open spec fn executable_memory_type(memory_type: u32) -> bool {
    memory_type == 1 || memory_type == 3 || memory_type == 5
}

/// Return whether firmware memory of this raw type holds code.
pub fn is_executable_memory_type(memory_type: u32) -> (r: bool)
    ensures
        r == executable_memory_type(memory_type),
{
    memory_type == loader_code_type() || memory_type == boot_services_code_type() || memory_type
        == runtime_services_code_type()
}

/// The flags of identity-mapped firmware memory: present and writable, and
/// not executable unless it holds code.
pub open spec fn region_flag_bits(memory_type: u32) -> u64 {
    if executable_memory_type(memory_type) {
        present_bit() | writable_bit()
    } else {
        present_bit() | writable_bit() | no_execute_bit()
    }
}

/// Return the page-table flags of identity-mapped memory of this raw type.
pub fn memory_region_flags(memory_type: u32) -> (r: u64)
    ensures
        r == region_flag_bits(memory_type),
{
    let mut flags = present_flag() | writable_flag();
    if !is_executable_memory_type(memory_type) {
        flags = flags | no_execute_flag();
    }
    flags
}

/// The flags of a 2 MiB identity mapping: the region's flags with the
/// huge-page bit.
pub fn huge_region_flags(region_flags: u64) -> (r: u64)
    ensures
        r == region_flags | huge_page_bit(),
{
    region_flags | huge_page_flag()
}

/// The flags of an MMIO page: present, writable, uncached, not executable.
pub fn mmio_flags() -> (r: u64)
    ensures
        r == present_bit() | writable_bit() | no_cache_bit() | no_execute_bit(),
{
    present_flag() | writable_flag() | no_cache_flag() | no_execute_flag()
}

/// The flags of a framebuffer page: present, writable, not executable.
pub fn framebuffer_flags() -> (r: u64)
    ensures
        r == present_bit() | writable_bit() | no_execute_bit(),
{
    present_flag() | writable_flag() | no_execute_flag()
}

/// The byte range `[start, end)` of a firmware region of `page_count` pages.
pub fn region_byte_span(phys_start: u64, page_count: u64) -> (r: (u64, u64))
    requires
        phys_start + page_count * 4096 <= u64::MAX,
    ensures
        r == (phys_start, (phys_start + page_count * 4096) as u64),
{
    (phys_start, phys_start + page_count * PAGE_SIZE)
}

/// Whether the identity mapping of `[current, end)` continues with a 2 MiB
/// page at `current`: it is 2 MiB aligned and the whole huge page fits.
pub open spec fn huge_step(current: u64, end: u64) -> bool {
    current % 0x20_0000 == 0 && current + 0x20_0000 <= end
}

/// The next identity-mapping step at `current` below `end`: whether it is a
/// 2 MiB page, and the address after it.
pub fn identity_mapping_step(current: u64, end: u64) -> (r: (bool, u64))
    requires
        current < end,
        current + 0x20_0000 <= u64::MAX,
    ensures
        r.0 == huge_step(current, end),
        r.1 == if r.0 {
            current + 0x20_0000
        } else {
            current + 4096
        },
{
    let next_huge_page_start = current + HUGE_PAGE_SIZE;
    if current % HUGE_PAGE_SIZE == 0 && next_huge_page_start <= end {
        (true, next_huge_page_start)
    } else {
        (false, current + PAGE_SIZE)
    }
}

/// Pages identity-mapped so far, split by whether they may execute.
pub struct IdentityMappingTally {
    /// Pages mapped executable.
    pub executable_pages: u64,
    /// Pages mapped non-executable.
    pub non_executable_pages: u64,
}

impl IdentityMappingTally {
    /// Nothing counted yet.
    pub fn new() -> (r: Self)
        ensures
            r.executable_pages == 0 && r.non_executable_pages == 0,
    {
        Self { executable_pages: 0, non_executable_pages: 0 }
    }

    /// Count a region of `page_count` pages mapped with `flags`, saturating.
    pub fn record_region(&mut self, flags: u64, page_count: u64)
        ensures
            has_flags(flags, no_execute_bit()) ==> final(self).non_executable_pages == if old(
                self,
            ).non_executable_pages + page_count > u64::MAX {
                u64::MAX
            } else {
                (old(self).non_executable_pages + page_count) as u64
            } && final(self).executable_pages == old(self).executable_pages,
            !has_flags(flags, no_execute_bit()) ==> final(self).executable_pages == if old(
                self,
            ).executable_pages + page_count > u64::MAX {
                u64::MAX
            } else {
                (old(self).executable_pages + page_count) as u64
            } && final(self).non_executable_pages == old(self).non_executable_pages,
    {
        let no_execute = no_execute_flag();
        if flags & no_execute == no_execute {
            self.non_executable_pages = self.non_executable_pages.saturating_add(page_count);
        } else {
            self.executable_pages = self.executable_pages.saturating_add(page_count);
        }
    }
}

/// The first page and the page count an MMIO mapping of `size` bytes at
/// `physical_start` covers.
pub fn mmio_page_span(physical_start: PhysAddr, size: u64) -> (r: (u64, u64))
    requires
        size > 0,
        physical_start@ + size - 1 <= u64::MAX,
    ensures
        r.0 == page_floor(physical_start@ as int),
        r.1 == (page_floor(physical_start@ + size - 1) - page_floor(physical_start@ as int)) / 4096
            + 1,
{
    let start_page_address = physical_start.align_down_to_page();
    let end_address = physical_start.checked_add(size - 1).expect(
        "MMIO mapping end address overflowed",
    );
    let end_page_address = end_address.align_down_to_page();
    proof {
        assert(page_floor(physical_start@ as int) <= page_floor(physical_start@ + size - 1));
    }
    (
        start_page_address.as_u64(),
        ((end_page_address.as_u64() - start_page_address.as_u64()) / PAGE_SIZE) + 1,
    )
}

/// The first and last page a framebuffer covers.
pub fn framebuffer_page_span(framebuffer_range: FramebufferPhysicalRange) -> (r: (u64, u64))
    requires
        framebuffer_range@.1 > 0,
        framebuffer_range@.0 + framebuffer_range@.1 - 1 <= u64::MAX,
    ensures
        r.0 == page_floor(framebuffer_range@.0 as int),
        r.1 == page_floor(framebuffer_range@.0 + framebuffer_range@.1 - 1),
{
    let framebuffer_start = framebuffer_range.start();
    let framebuffer_size = framebuffer_range.byte_len();
    let end_address = framebuffer_start.checked_add(framebuffer_size - 1).expect(
        "framebuffer end address overflowed",
    );
    (framebuffer_start.align_down_to_page().as_u64(), end_address.align_down_to_page().as_u64())
}

/// What a user-range permission check looks at.
#[derive(Clone, Copy, Debug, PartialEq, Eq, Structural)]
pub enum UserRangePages {
    /// An empty range passes without looking at any page.
    Empty,
    /// A null pointer, an overflowing range, or one reaching past user space
    /// fails without looking at any page.
    Rejected,
    /// The range's first and last page starts; every page from the first to
    /// the last must pass.
    Pages(u64, u64),
}

/// Decide which pages a check of `length` bytes at `user_pointer` covers.
pub fn user_range_pages(user_pointer: u64, length: u64) -> (r: UserRangePages)
    ensures
        length == 0 ==> r == UserRangePages::Empty,
        length != 0 && (user_pointer == 0 || user_pointer + length - 1 > u64::MAX || user_pointer
            + length - 1 >= 0x0000_8000_0000_0000) ==> r == UserRangePages::Rejected,
        length != 0 && user_pointer != 0 && user_pointer + length - 1 < 0x0000_8000_0000_0000 ==> r
            == UserRangePages::Pages(
            page_floor(user_pointer as int) as u64,
            page_floor(user_pointer + length - 1) as u64,
        ),
{
    if length == 0 {
        return UserRangePages::Empty;
    }
    if user_pointer == 0 {
        return UserRangePages::Rejected;
    }
    let last_byte_pointer = match user_pointer.checked_add(length - 1) {
        Some(last) => last,
        None => return UserRangePages::Rejected,
    };
    if last_byte_pointer >= USER_SPACE_END {
        return UserRangePages::Rejected;
    }
    let first = VirtAddr::new(user_pointer).align_down_to_page().as_u64();
    let last = VirtAddr::new(last_byte_pointer).align_down_to_page().as_u64();
    UserRangePages::Pages(first, last)
}

/// Whether a page mapped with `flags` passes a user-data check that demands
/// `required`: the page must also be present and reachable from user mode.
pub fn page_flags_allow(flags: u64, required: u64) -> (r: bool)
    ensures
        r == has_flags(flags, required | present_bit() | user_accessible_bit()),
{
    let required = required | present_flag() | user_accessible_flag();
    flags & required == required
}

/// The flags a readable user-data page must carry besides presence and user
/// access: not executable.
pub fn readable_user_data_flags() -> (r: u64)
    ensures
        r == no_execute_bit(),
{
    no_execute_flag()
}

/// The flags a writable user-data page must carry besides presence and user
/// access: writable and not executable.
pub fn writable_user_data_flags() -> (r: u64)
    ensures
        r == writable_bit() | no_execute_bit(),
{
    writable_flag() | no_execute_flag()
}

/// Whether representative mappings have the permissions the kernel relies
/// on, given the flags of the kernel, user stack and user entry pages
/// (`None` for an unmapped page): the kernel page is present and not
/// user-accessible; the stack page is present, user-accessible, writable and
/// not executable; the entry page is present, user-accessible, executable
/// and read-only.
pub open spec fn kernel_user_permissions(kernel: Option<u64>, stack: Option<u64>, entry: Option<u64>) -> bool {
    &&& kernel matches Some(k) && has_flags(k, present_bit()) && !has_flags(k, user_accessible_bit())
    &&& stack matches Some(s) && has_flags(s, present_bit() | user_accessible_bit()) && has_flags(
        s,
        writable_bit(),
    ) && has_flags(s, no_execute_bit())
    &&& entry matches Some(e) && has_flags(e, present_bit() | user_accessible_bit()) && !has_flags(
        e,
        writable_bit(),
    ) && !has_flags(e, no_execute_bit())
}

/// Check the permissions of the kernel, user stack and user entry pages.
pub fn kernel_user_mapping_permissions_hold(
    kernel_flags: Option<u64>,
    user_stack_flags: Option<u64>,
    user_entry_flags: Option<u64>,
) -> (r: bool)
    ensures
        r == kernel_user_permissions(kernel_flags, user_stack_flags, user_entry_flags),
{
    let present = present_flag();
    let user = user_accessible_flag();
    let writable = writable_flag();
    let no_execute = no_execute_flag();
    let kernel = match kernel_flags {
        Some(flags) => flags,
        None => return false,
    };
    if kernel & present != present || kernel & user == user {
        return false;
    }
    let stack = match user_stack_flags {
        Some(flags) => flags,
        None => return false,
    };
    if stack & (present | user) != (present | user) || stack & writable != writable || stack
        & no_execute != no_execute {
        return false;
    }
    let entry = match user_entry_flags {
        Some(flags) => flags,
        None => return false,
    };
    entry & (present | user) == (present | user) && entry & writable != writable && entry
        & no_execute != no_execute
}

/// Verify syscall user-data permission enforcement from the four checks a
/// syscall makes: the writable stack must pass both the readable and the
/// writable user-data check, and the executable entry must fail both.
pub fn verify_syscall_user_data_permissions(
    stack_readable: bool,
    stack_writable: bool,
    entry_readable: bool,
    entry_writable: bool,
) -> (r: bool)
    ensures
        r == (stack_readable && stack_writable && !entry_readable && !entry_writable),
{
    stack_readable && stack_writable && !entry_readable && !entry_writable
}

} // verus!
