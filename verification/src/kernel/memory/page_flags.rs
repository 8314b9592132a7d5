//! Page-table entry flag bits, as plain `u64` masks.
//!
//! The bit values come from the `x86_64` crate's `PageTableFlags`; the
//! library combines and tests them as integers.

use vstd::prelude::*;

use x86_64::structures::paging::PageTableFlags;

verus! {

/// Bit of a present entry.
pub open spec fn present_bit() -> u64 {
    1
}

/// Bit of a writable entry.
pub open spec fn writable_bit() -> u64 {
    2
}

/// Bit of an entry reachable from ring 3.
pub open spec fn user_accessible_bit() -> u64 {
    4
}

/// Bit of an uncached entry.
pub open spec fn no_cache_bit() -> u64 {
    16
}

/// Bit of an entry that maps a huge frame.
pub open spec fn huge_page_bit() -> u64 {
    128
}

/// Bit of an entry whose frames may not be executed.
pub open spec fn no_execute_bit() -> u64 {
    0x8000_0000_0000_0000
}

/// The bits of `PageTableFlags::PRESENT`; the crate declares it as bit 0.
#[verifier::external_body]
pub(crate) fn present_flag() -> (r: u64)
    ensures
        r == present_bit(),
{
    PageTableFlags::PRESENT.bits()
}

/// The bits of `PageTableFlags::WRITABLE`; the crate declares it as bit 1.
#[verifier::external_body]
pub(crate) fn writable_flag() -> (r: u64)
    ensures
        r == writable_bit(),
{
    PageTableFlags::WRITABLE.bits()
}

/// The bits of `PageTableFlags::USER_ACCESSIBLE`; the crate declares it as
/// bit 2.
#[verifier::external_body]
pub(crate) fn user_accessible_flag() -> (r: u64)
    ensures
        r == user_accessible_bit(),
{
    PageTableFlags::USER_ACCESSIBLE.bits()
}

/// The bits of `PageTableFlags::NO_CACHE`; the crate declares it as bit 4.
#[verifier::external_body]
pub(crate) fn no_cache_flag() -> (r: u64)
    ensures
        r == no_cache_bit(),
{
    PageTableFlags::NO_CACHE.bits()
}

/// The bits of `PageTableFlags::HUGE_PAGE`; the crate declares it as bit 7.
#[verifier::external_body]
pub(crate) fn huge_page_flag() -> (r: u64)
    ensures
        r == huge_page_bit(),
{
    PageTableFlags::HUGE_PAGE.bits()
}

/// The bits of `PageTableFlags::NO_EXECUTE`; the crate declares it as bit 63.
#[verifier::external_body]
pub(crate) fn no_execute_flag() -> (r: u64)
    ensures
        r == no_execute_bit(),
{
    PageTableFlags::NO_EXECUTE.bits()
}

/// Whether every bit of `required` is set in `flags`.
pub open spec fn has_flags(flags: u64, required: u64) -> bool {
    flags & required == required
}

} // verus!
