//! User private mapping records and the decisions behind `mmap` and `munmap`.
//!
//! A task's private mappings are kept as a fixed table of records, each a
//! page-aligned run inside the private mapping region with the source its
//! pages were filled from. The table's invariant is that every record lies
//! in the region and that no two records share a page. The functions here
//! decide where a mapping goes, which records a fixed replacement cuts, and
//! how an unmapping splits a record; the caller maps and unmaps the pages
//! themselves.

use vstd::prelude::*;

use super::address::{
    is_user_address, FrameCount, PageCount, UserPageStart, UserVirtualAddress, VirtAddr,
    MAX_PAGE_COUNT,
};
use super::page_flags::{
    no_execute_bit, no_execute_flag, present_bit, present_flag, user_accessible_bit,
    user_accessible_flag, writable_bit, writable_flag,
};
use super::user_layout::{USER_MAPPING_BASE, USER_MAPPING_END};

verus! {

const PAGE_SIZE: u64 = 4096;
const MAX_USER_MAPPINGS: usize = 32;

/// Number of records in a mapping table.
pub open spec fn max_user_mappings() -> int {
    32
}

/// Whether `[start, end)` lies inside the private mapping region.
pub open spec fn in_mapping_region(start: int, end: int) -> bool {
    USER_MAPPING_BASE <= start && end <= USER_MAPPING_END
}

/// Whether the byte ranges `[a_start, a_end)` and `[b_start, b_end)` share a byte.
pub open spec fn spans_overlap(a_start: int, a_end: int, b_start: int, b_end: int) -> bool {
    a_start < b_end && b_start < a_end
}

/// Result of one private user mapping allocation.
///
/// The view is the start address, the page count, and the number of pages
/// released while replacing overlapping mappings.
#[derive(Clone, Copy, Debug, PartialEq, Eq, Structural)]
pub struct UserMappingAllocation {
    start: UserVirtualAddress,
    page_count: PageCount,
    replaced_page_count: u64,
}

impl View for UserMappingAllocation {
    type V = (u64, u64, u64);

    closed spec fn view(&self) -> (u64, u64, u64) {
        (self.start@, self.page_count@, self.replaced_page_count)
    }
}

impl UserMappingAllocation {
    /// Return the first virtual address in the mapping.
    pub fn start(self) -> (r: UserVirtualAddress)
        ensures
            r@ == self@.0,
    {
        self.start
    }

    /// Return the typed count of mapped 4 KiB pages.
    pub fn page_count(self) -> (r: PageCount)
        ensures
            r@ == self@.1,
    {
        self.page_count
    }

    /// Return pages released while replacing overlapping mappings.
    pub fn replaced_page_count(self) -> (r: u64)
        ensures
            r == self@.2,
    {
        self.replaced_page_count
    }
}

/// Source used to initialize a private user mapping.
#[derive(Clone, Copy, Debug, PartialEq, Eq, Structural)]
pub enum UserMappingSource {
    /// Mapping pages start as zero-filled anonymous memory.
    Anonymous,
    /// Mapping pages start as a private copy of file bytes.
    FilePrivate,
}

impl UserMappingSource {
    /// Return a stable diagnostic label for this mapping source.
    pub fn as_str(self) -> (r: &'static str)
        ensures
            r@ == match self {
                UserMappingSource::Anonymous => "anonymous"@,
                UserMappingSource::FilePrivate => "file_private"@,
            },
    {
        match self {
            Self::Anonymous => "anonymous",
            Self::FilePrivate => "file_private",
        }
    }
}

/// One tracked private mapping: a page run and the source it was filled from.
///
/// The view is the start address, the page count and the source.
#[derive(Clone, Copy, Debug, PartialEq, Eq, Structural)]
pub struct UserMapping {
    start: UserPageStart,
    page_count: PageCount,
    source: UserMappingSource,
}

impl View for UserMapping {
    type V = (u64, u64, UserMappingSource);

    closed spec fn view(&self) -> (u64, u64, UserMappingSource) {
        (self.start@, self.page_count@, self.source)
    }
}

impl UserMapping {
    /// One byte past the last page of the record.
    pub open spec fn end(self) -> int {
        self@.0 + self@.1 * 4096
    }

    /// A non-empty, page-aligned run inside the private mapping region.
    pub open spec fn valid(self) -> bool {
        &&& self@.1 > 0
        &&& self@.0 % 4096 == 0
        &&& in_mapping_region(self@.0 as int, self.end())
    }

    /// Whether the page starting at `page` belongs to this record.
    pub open spec fn holds_page(self, page: int) -> bool {
        self@.0 <= page < self.end() && page % 4096 == 0
    }

    /// The page-aligned byte range of the record, when it lies in the region.
    fn range(self) -> (r: Option<UserMappingRange>)
        ensures
            r is Some <==> in_mapping_region(self@.0 as int, self.end()),
            r matches Some(range) ==> range@ == (self@.0, self.end() as u64),
    {
        UserMappingRange::new(self.start, self.page_count)
    }
}

/// A page-aligned byte range inside the private mapping region.
///
/// The view is the pair of start and end addresses.
#[derive(Clone, Copy, Debug, PartialEq, Eq, Structural)]
pub struct UserMappingRange {
    start: UserPageStart,
    end_exclusive: UserPageStart,
    page_count: PageCount,
}

impl View for UserMappingRange {
    type V = (u64, u64);

    closed spec fn view(&self) -> (u64, u64) {
        (self.start@, self.end_exclusive@)
    }
}

impl UserMappingRange {
    #[verifier::type_invariant]
    spec fn inv(self) -> bool {
        &&& self.end_exclusive@ == self.start@ + self.page_count@ * 4096
        &&& in_mapping_region(self.start@ as int, self.end_exclusive@ as int)
    }

    /// Whether this view is a range the type can hold: non-empty, aligned,
    /// inside the region.
    pub open spec fn shape(view: (u64, u64)) -> bool {
        &&& view.0 < view.1
        &&& view.0 % 4096 == 0
        &&& view.1 % 4096 == 0
        &&& in_mapping_region(view.0 as int, view.1 as int)
    }

    /// Establish that this range has the shape its type promises.
    fn check_shape(self)
        ensures
            Self::shape(self@),
    {
        proof {
            use_type_invariant(&self);
        }
        let _ = self.start.as_u64();
        let _ = self.end_exclusive.as_u64();
        let _ = self.page_count.as_u64();
    }

    /// The range of `page_count` pages from `start`, when it lies in the
    /// private mapping region.
    fn new(start: UserPageStart, page_count: PageCount) -> (r: Option<Self>)
        ensures
            r is Some <==> in_mapping_region(start@ as int, start@ + page_count@ * 4096),
            r matches Some(range) ==> range@ == (start@, (start@ + page_count@ * 4096) as u64)
                && range.pages() == page_count@,
    {
        let byte_len = page_count.byte_len();
        let start_address = start.as_u64();
        proof {
            assert((start_address + byte_len) % 4096 == 0) by (nonlinear_arith)
                requires
                    start_address % 4096 == 0,
                    byte_len == page_count@ * 4096,
            ;
        }
        let end_exclusive = match start.checked_add(byte_len) {
            Some(end) => end,
            None => return None,
        };
        if start.as_u64() < USER_MAPPING_BASE || end_exclusive.as_u64() > USER_MAPPING_END {
            return None;
        }
        Some(Self { start, end_exclusive, page_count })
    }

    /// The range of `byte_len` bytes from `start`, when the length is a
    /// non-zero multiple of the page size and the range lies in the region.
    fn from_byte_len(start: UserPageStart, byte_len: u64) -> (r: Option<Self>)
        ensures
            r is Some <==> byte_len > 0 && byte_len % 4096 == 0 && in_mapping_region(
                start@ as int,
                start@ + byte_len,
            ),
            r matches Some(range) ==> range@ == (start@, (start@ + byte_len) as u64),
    {
        if byte_len == 0 || byte_len % PAGE_SIZE != 0 {
            return None;
        }
        let count = match PageCount::new(byte_len / PAGE_SIZE) {
            Some(count) => count,
            None => return None,
        };
        Self::new(start, count)
    }

    /// Number of pages in the range.
    pub closed spec fn pages(self) -> u64 {
        self.page_count@
    }

    fn start(self) -> (r: UserPageStart)
        ensures
            r@ == self@.0,
    {
        self.start
    }

    fn page_count(self) -> (r: PageCount)
        ensures
            r@ == self.pages(),
            self@.1 == self@.0 + r@ * 4096,
    {
        proof {
            use_type_invariant(&self);
        }
        self.page_count
    }

    fn end_exclusive(self) -> (r: UserPageStart)
        ensures
            r@ == self@.1,
    {
        self.end_exclusive
    }

    fn start_address(self) -> (r: u64)
        ensures
            r == self@.0,
            Self::shape(self@),
    {
        self.check_shape();
        self.start.as_u64()
    }

    fn end_address(self) -> (r: u64)
        ensures
            r == self@.1,
            Self::shape(self@),
    {
        self.check_shape();
        self.end_exclusive.as_u64()
    }

    fn overlaps(self, other: Self) -> (r: bool)
        ensures
            r == spans_overlap(self@.0 as int, self@.1 as int, other@.0 as int, other@.1 as int),
    {
        self.start_address() < other.end_address() && other.start_address() < self.end_address()
    }

    fn contains(self, other: Self) -> (r: bool)
        ensures
            r == (self@.0 <= other@.0 && other@.1 <= self@.1),
    {
        self.start_address() <= other.start_address() && other.end_address()
            <= self.end_address()
    }
}

/// The page count covered by a mapping length: the length rounded up to
/// whole pages, when it is non-zero and the rounding fits in `u64`.
pub open spec fn length_page_count(length: u64) -> Option<u64> {
    if length == 0 || length + 4095 > u64::MAX {
        None
    } else {
        Some(((length + 4095) / 4096) as u64)
    }
}

/// Non-empty private mapping syscall length with its rounded page count.
///
/// The view is the raw byte length and the rounded page count.
#[derive(Clone, Copy, Debug, PartialEq, Eq, Structural)]
pub struct UserMappingLength {
    byte_len: u64,
    page_count: PageCount,
}

impl View for UserMappingLength {
    type V = (u64, u64);

    closed spec fn view(&self) -> (u64, u64) {
        (self.byte_len, self.page_count@)
    }
}

impl UserMappingLength {
    #[verifier::type_invariant]
    spec fn inv(self) -> bool {
        length_page_count(self.byte_len) == Some(self.page_count@)
    }

    /// Convert a raw syscall mapping length into a typed mapping length.
    ///
    /// Returns `None` for a zero length or one whose rounding overflows.
    pub fn from_syscall_argument(byte_len: u64) -> (r: Option<Self>)
        ensures
            r is Some <==> length_page_count(byte_len) is Some,
            r matches Some(length) ==> length@ == (byte_len, length_page_count(byte_len)->0),
    {
        let page_count = match page_count_for_length(byte_len) {
            Some(count) => count,
            None => return None,
        };
        Some(Self { byte_len, page_count })
    }

    /// Return the raw requested byte length for diagnostics and page preload.
    pub fn byte_len(self) -> (r: u64)
        ensures
            r == self@.0,
            length_page_count(r) == Some(self@.1),
    {
        proof {
            use_type_invariant(&self);
        }
        self.byte_len
    }

    /// Return the rounded 4 KiB page count covered by this length.
    pub fn page_count(self) -> (r: PageCount)
        ensures
            r@ == self@.1,
            length_page_count(self@.0) == Some(self@.1),
    {
        proof {
            use_type_invariant(&self);
        }
        self.page_count
    }
}

/// Placement policy for a private user mapping request.
#[derive(Clone, Copy, Debug, PartialEq, Eq, Structural)]
pub enum UserMappingPlacement {
    /// Choose the next available address in the user mapping region.
    Any,
    /// Use the requested address only when the range is currently unmapped.
    FixedNoReplace(UserPageStart),
    /// Use the requested address after replacing overlapping private mappings.
    FixedReplace(UserPageStart),
}

impl UserMappingPlacement {
    /// Return a stable diagnostic label for this placement policy.
    pub fn as_str(self) -> (r: &'static str)
        ensures
            r@ == match self {
                UserMappingPlacement::Any => "any"@,
                UserMappingPlacement::FixedNoReplace(_) => "fixed_noreplace"@,
                UserMappingPlacement::FixedReplace(_) => "fixed_replace"@,
            },
    {
        match self {
            Self::Any => "any",
            Self::FixedNoReplace(_) => "fixed_noreplace",
            Self::FixedReplace(_) => "fixed_replace",
        }
    }
}

/// Mapping parameters shared by anonymous and file-private mappings.
#[derive(Clone, Copy, Debug, PartialEq, Eq, Structural)]
pub struct UserMappingPlan {
    placement: UserMappingPlacement,
    length: UserMappingLength,
    writable: bool,
    source: UserMappingSource,
}

impl UserMappingPlan {
    /// The plan's placement, length, writability and source.
    pub closed spec fn parts(self) -> (UserMappingPlacement, UserMappingLength, bool, UserMappingSource) {
        (self.placement, self.length, self.writable, self.source)
    }

    /// Create mapping parameters for one private user mapping.
    pub fn new(
        placement: UserMappingPlacement,
        length: UserMappingLength,
        writable: bool,
        source: UserMappingSource,
    ) -> (r: Self)
        ensures
            r.parts() == (placement, length, writable, source),
    {
        Self { placement, length, writable, source }
    }

    /// Return the placement policy for the mapping.
    pub fn placement(self) -> (r: UserMappingPlacement)
        ensures
            r == self.parts().0,
    {
        self.placement
    }

    /// Return the requested mapping length in bytes.
    pub fn length(self) -> (r: u64)
        ensures
            r == self.parts().1@.0,
    {
        self.length.byte_len()
    }

    /// Return the rounded page count for the requested mapping length.
    pub fn page_count(self) -> (r: PageCount)
        ensures
            r@ == self.parts().1@.1,
            length_page_count(self.parts().1@.0) == Some(r@),
    {
        self.length.page_count()
    }

    /// Return whether user code may write the mapped pages.
    pub fn writable(self) -> (r: bool)
        ensures
            r == self.parts().2,
    {
        self.writable
    }

    /// Return the data source used to initialize the mapping.
    pub fn source(self) -> (r: UserMappingSource)
        ensures
            r == self.parts().3,
    {
        self.source
    }
}

/// The page start for a raw address: a non-null, page-aligned user address.
pub open spec fn raw_page_start(address: u64) -> bool {
    is_user_address(address as int) && address % 4096 == 0
}

/// A private user unmapping request after syscall ABI address classification.
///
/// The view is the start address, the raw byte length and the rounded page
/// count.
#[derive(Clone, Copy, Debug, PartialEq, Eq, Structural)]
pub struct UserMappingUnmapRequest {
    start: UserPageStart,
    length: UserMappingLength,
}

impl View for UserMappingUnmapRequest {
    type V = (u64, u64, u64);

    closed spec fn view(&self) -> (u64, u64, u64) {
        (self.start@, self.length@.0, self.length@.1)
    }
}

impl UserMappingUnmapRequest {
    /// Convert raw syscall `munmap` arguments into a private unmapping request.
    ///
    /// The start must be a non-null, page-aligned user address and the length
    /// a non-zero length whose rounding to pages does not overflow.
    pub fn from_syscall_arguments(start_address: u64, length: u64) -> (r: Option<Self>)
        ensures
            r is Some <==> raw_page_start(start_address) && length_page_count(length) is Some,
            r matches Some(request) ==> request@ == (
                start_address,
                length,
                length_page_count(length)->0,
            ),
    {
        let start = match user_page_start_from_raw(start_address) {
            Some(start) => start,
            None => return None,
        };
        let length = match UserMappingLength::from_syscall_argument(length) {
            Some(length) => length,
            None => return None,
        };
        Some(Self { start, length })
    }

    /// Return the first page in the unmapping request.
    pub fn start(self) -> (r: UserPageStart)
        ensures
            r@ == self@.0,
    {
        self.start
    }

    /// Return the raw requested byte length for diagnostics.
    pub fn length(self) -> (r: u64)
        ensures
            r == self@.1,
    {
        self.length.byte_len()
    }

    /// Return the rounded 4 KiB page count covered by this request.
    pub fn page_count(self) -> (r: PageCount)
        ensures
            r@ == self@.2,
            length_page_count(self@.1) == Some(self@.2),
    {
        self.length.page_count()
    }
}

/// Reason a private mapping request was rejected.
#[derive(Clone, Copy, Debug, PartialEq, Eq, Structural)]
pub enum UserMappingError {
    /// The request could not fit the user mapping region.
    InvalidRequest,
    /// The requested fixed range overlaps an active mapping.
    AddressInUse,
    /// The request ran out of physical frames or mapping records.
    OutOfMemory,
    /// Page initialization failed after the virtual range was reserved.
    InitializationFailed,
}

/// The page-table flag bits of a private user page: present, reachable from
/// user mode, never executable, and writable when asked.
pub open spec fn user_page_flag_bits(writable: bool) -> u64 {
    if writable {
        present_bit() | user_accessible_bit() | no_execute_bit() | writable_bit()
    } else {
        present_bit() | user_accessible_bit() | no_execute_bit()
    }
}

/// The page-table flags for one private user page.
pub fn user_page_flags(writable: bool) -> (r: u64)
    ensures
        r == user_page_flag_bits(writable),
{
    let mut flags = present_flag() | user_accessible_flag() | no_execute_flag();
    if writable {
        flags = flags | writable_flag();
    }
    flags
}

/// The rounded page count for a mapping length.
fn page_count_for_length(length: u64) -> (r: Option<PageCount>)
    ensures
        r is Some <==> length_page_count(length) is Some,
        r matches Some(count) ==> count@ == length_page_count(length)->0,
{
    if length == 0 {
        return None;
    }
    let raised = match length.checked_add(PAGE_SIZE - 1) {
        Some(raised) => raised,
        None => return None,
    };
    let rounded_length = raised & !(PAGE_SIZE - 1);
    proof {
        assert(raised & !4095u64 == raised - raised % 4096) by (bit_vector);
    }
    PageCount::new(rounded_length / PAGE_SIZE)
}

/// How many bytes of page `page_index` a mapping of `length` bytes fills:
/// what remains of the length past the page's offset, at most one page.
pub open spec fn page_fill_length(length: u64, page_index: u64) -> Option<usize> {
    if page_index * 4096 > u64::MAX {
        None
    } else {
        let remaining = if length > page_index * 4096 {
            length - page_index * 4096
        } else {
            0
        };
        Some(
            (if remaining < 4096 {
                remaining
            } else {
                4096
            }) as usize,
        )
    }
}

/// The number of bytes of page `page_index` that a mapping of `length`
/// bytes initializes from its source.
pub fn page_initialize_length(length: u64, page_index: u64) -> (r: Option<usize>)
    ensures
        r == page_fill_length(length, page_index),
{
    let page_start_offset = match page_index.checked_mul(PAGE_SIZE) {
        Some(offset) => offset,
        None => return None,
    };
    let remaining = length.saturating_sub(page_start_offset);
    let fill = if remaining < PAGE_SIZE {
        remaining
    } else {
        PAGE_SIZE
    };
    Some(fill as usize)
}

/// Whether a fixed mapping of `byte_len` bytes at `start` fits the region.
pub open spec fn fixed_start_fits(start: u64, byte_len: u64) -> bool {
    start + byte_len <= u64::MAX && in_mapping_region(start as int, start + byte_len)
}

/// Check that a fixed mapping of `byte_len` bytes at `start` lies in the
/// private mapping region.
pub fn fixed_start_address(start: UserPageStart, byte_len: u64) -> (r: Result<
    UserPageStart,
    UserMappingError,
>)
    ensures
        fixed_start_fits(start@, byte_len) ==> r == Ok::<UserPageStart, UserMappingError>(start),
        !fixed_start_fits(start@, byte_len) ==> r == Err::<UserPageStart, UserMappingError>(
            UserMappingError::InvalidRequest,
        ),
{
    let start_address = start.as_u64();
    let end_address = match start_address.checked_add(byte_len) {
        Some(end) => end,
        None => return Err(UserMappingError::InvalidRequest),
    };
    if start_address < USER_MAPPING_BASE || end_address > USER_MAPPING_END {
        return Err(UserMappingError::InvalidRequest);
    }
    Ok(start)
}

/// The user page start at a raw address, when it is a non-null, page-aligned
/// user address.
pub fn user_page_start_from_raw(address: u64) -> (r: Option<UserPageStart>)
    ensures
        r is Some <==> raw_page_start(address),
        r matches Some(page) ==> page@ == address,
{
    let address = match UserVirtualAddress::new(VirtAddr::new(address)) {
        Some(address) => address,
        None => return None,
    };
    UserPageStart::new(address)
}

/// The frame count of one frame.
pub fn single_frame_count() -> (r: FrameCount)
    ensures
        r@ == 1,
{
    FrameCount::new(1).expect("single-frame count must be valid")
}

/// A page count known to be valid.
pub fn page_count(count: u64) -> (r: PageCount)
    requires
        0 < count <= MAX_PAGE_COUNT,
    ensures
        r@ == count,
{
    PageCount::new(count).expect("user mapping page count must be valid")
}

/// The start of page `page_index` of a mapping that begins at `start`, when
/// it is a user page start.
pub fn user_page_start(start: UserPageStart, page_index: u64) -> (r: Option<UserPageStart>)
    ensures
        r is Some <==> page_index * 4096 <= u64::MAX && is_user_address(
            start@ + page_index * 4096,
        ) && (start@ + page_index * 4096) % 4096 == 0,
        r matches Some(page) ==> page@ == start@ + page_index * 4096,
{
    let offset = match page_index.checked_mul(PAGE_SIZE) {
        Some(offset) => offset,
        None => return None,
    };
    start.checked_add(offset)
}


/// Whether table slot `m` holds a record that has the page `page`.
pub open spec fn slot_holds_page(m: Option<UserMapping>, page: int) -> bool {
    m matches Some(r) && r.holds_page(page)
}

/// Whether table slot `m` holds a record that shares a byte with `[start, end)`.
pub open spec fn slot_overlaps(m: Option<UserMapping>, start: int, end: int) -> bool {
    m matches Some(r) && spans_overlap(r@.0 as int, r.end(), start, end)
}

/// The table invariant: the fixed number of slots, every record valid, and
/// no two records sharing a byte.
pub open spec fn table_valid(s: Seq<Option<UserMapping>>) -> bool {
    &&& s.len() == max_user_mappings()
    &&& forall|i: int| 0 <= i < s.len() ==> (#[trigger] s[i] matches Some(r) ==> r.valid())
    &&& forall|i: int, j: int|
        #![trigger s[i], s[j]]
        0 <= i < s.len() && 0 <= j < s.len() && i != j && s[i] is Some && s[j] is Some
            ==> !spans_overlap(s[i]->0@.0 as int, s[i]->0.end(), s[j]->0@.0 as int, s[j]->0.end())
}

/// Whether `[start, start + byte_len)` is a free slot for a new mapping: a
/// non-empty page-multiple length, inside the region, sharing no byte with
/// any record.
pub open spec fn slot_free(s: Seq<Option<UserMapping>>, start: int, byte_len: int) -> bool {
    &&& byte_len > 0
    &&& byte_len % 4096 == 0
    &&& in_mapping_region(start, start + byte_len)
    &&& forall|i: int| 0 <= i < s.len() ==> !slot_overlaps(#[trigger] s[i], start, start + byte_len)
}

/// Whether `start` is the lowest page-aligned free slot at or above `preferred`.
pub open spec fn is_least_free(s: Seq<Option<UserMapping>>, preferred: int, byte_len: int, start: int) -> bool {
    &&& preferred <= start
    &&& start % 4096 == 0
    &&& slot_free(s, start, byte_len)
    &&& forall|b: int| preferred <= b < start && b % 4096 == 0 ==> !slot_free(s, b, byte_len)
}

/// The lowest page-aligned free slot at or above `preferred`, if any.
pub open spec fn least_free_slot(s: Seq<Option<UserMapping>>, preferred: int, byte_len: int) -> Option<int> {
    if exists|a: int| is_least_free(s, preferred, byte_len, a) {
        Some(choose|a: int| is_least_free(s, preferred, byte_len, a))
    } else {
        None
    }
}

/// The number of records a fixed replacement of `[start, end)` leaves: each
/// record it misses stays, and each record it touches leaves its parts on
/// either side.
pub open spec fn replace_record_count(s: Seq<Option<UserMapping>>, start: int, end: int) -> int
    decreases s.len(),
{
    if s.len() == 0 {
        0
    } else {
        replace_record_count(s.drop_last(), start, end) + match s.last() {
            None => 0int,
            Some(r) => if !spans_overlap(r@.0 as int, r.end(), start, end) {
                1int
            } else {
                (if r@.0 < start {
                    1int
                } else {
                    0int
                }) + (if end < r.end() {
                    1int
                } else {
                    0int
                })
            },
        }
    }
}

/// Number of occupied slots.
pub open spec fn occupied_count(s: Seq<Option<UserMapping>>) -> int
    decreases s.len(),
{
    if s.len() == 0 {
        0
    } else {
        occupied_count(s.drop_last()) + if s.last() is Some {
            1int
        } else {
            0int
        }
    }
}

/// Number of occupied slots whose record was filled from a file.
pub open spec fn file_private_count(s: Seq<Option<UserMapping>>) -> int
    decreases s.len(),
{
    if s.len() == 0 {
        0
    } else {
        file_private_count(s.drop_last()) + if s.last() matches Some(r) && r@.2
            == UserMappingSource::FilePrivate {
            1int
        } else {
            0int
        }
    }
}

/// The page total of the records, saturating at `u64::MAX` at each step.
pub open spec fn active_page_total(s: Seq<Option<UserMapping>>) -> int
    decreases s.len(),
{
    if s.len() == 0 {
        0
    } else {
        let previous = active_page_total(s.drop_last());
        let pages = match s.last() {
            Some(r) => r@.1 as int,
            None => 0int,
        };
        if previous + pages > u64::MAX {
            u64::MAX as int
        } else {
            previous + pages
        }
    }
}

/// Private user mappings owned by one user task.
pub struct UserMappings {
    next_start: UserPageStart,
    records: Vec<Option<UserMapping>>,
}

impl UserMappings {
    /// The record table, slot by slot.
    pub closed spec fn records(&self) -> Seq<Option<UserMapping>> {
        self.records@
    }

    /// Where the search for a placement of `Any` begins.
    pub closed spec fn search_start(&self) -> u64 {
        self.next_start@
    }

    /// The table invariant.
    pub open spec fn wf(&self) -> bool {
        table_valid(self.records())
    }

    /// Create an empty private mapping table.
    pub fn new() -> (r: Self)
        ensures
            r.wf(),
            r.records() == Seq::new(32, |i: int| None::<UserMapping>),
            r.search_start() == USER_MAPPING_BASE,
    {
        let base = UserVirtualAddress::new(VirtAddr::new(USER_MAPPING_BASE)).expect(
            "user mapping base must be a valid user virtual address",
        );
        let next_start = UserPageStart::new(base).expect("user mapping base must be page-aligned");
        let mut records: Vec<Option<UserMapping>> = Vec::new();
        while records.len() < MAX_USER_MAPPINGS
            invariant
                records.len() <= 32,
                forall|i: int| 0 <= i < records.len() ==> records@[i] is None,
            decreases 32 - records.len(),
        {
            records.push(None);
        }
        let r = Self { next_start, records };
        proof {
            assert(r.records@ =~= Seq::new(32, |i: int| None::<UserMapping>));
        }
        r
    }

    /// Return the next mapping search start.
    pub fn next_start(&self) -> (r: UserVirtualAddress)
        ensures
            r@ == self.search_start(),
    {
        self.next_start.as_address()
    }

    /// Return currently mapped private user pages.
    pub fn active_pages(&self) -> (r: u64)
        ensures
            r == active_page_total(self.records()),
    {
        let ghost s = self.records@;
        let mut total: u64 = 0;
        let mut index: usize = 0;
        while index < self.records.len()
            invariant
                0 <= index <= s.len(),
                s == self.records@,
                total == active_page_total(s.subrange(0, index as int)),
            decreases s.len() - index,
        {
            proof {
                assert(s.subrange(0, index as int + 1).drop_last() == s.subrange(0, index as int));
                assert(s.subrange(0, index as int + 1).last() == s[index as int]);
            }
            match self.records[index] {
                Some(mapping) => {
                    total = total.saturating_add(mapping.page_count.as_u64());
                },
                None => {},
            }
            index = index + 1;
        }
        proof {
            assert(s.subrange(0, s.len() as int) == s);
        }
        total
    }

    /// Return the number of active private mapping records.
    pub fn active_records(&self) -> (r: u64)
        requires
            self.wf(),
        ensures
            r == occupied_count(self.records()),
    {
        let ghost s = self.records@;
        let mut count: u64 = 0;
        let mut index: usize = 0;
        while index < self.records.len()
            invariant
                0 <= index <= s.len(),
                s == self.records@,
                s.len() == 32,
                count == occupied_count(s.subrange(0, index as int)),
                count <= index,
            decreases s.len() - index,
        {
            proof {
                assert(s.subrange(0, index as int + 1).drop_last() == s.subrange(0, index as int));
                assert(s.subrange(0, index as int + 1).last() == s[index as int]);
            }
            if self.records[index].is_some() {
                count = count + 1;
            }
            index = index + 1;
        }
        proof {
            assert(s.subrange(0, s.len() as int) == s);
        }
        count
    }

    /// Return the number of active file-private mapping records.
    pub fn active_file_private_records(&self) -> (r: u64)
        requires
            self.wf(),
        ensures
            r == file_private_count(self.records()),
    {
        let ghost s = self.records@;
        let mut count: u64 = 0;
        let mut index: usize = 0;
        while index < self.records.len()
            invariant
                0 <= index <= s.len(),
                s == self.records@,
                s.len() == 32,
                count == file_private_count(s.subrange(0, index as int)),
                count <= index,
            decreases s.len() - index,
        {
            proof {
                assert(s.subrange(0, index as int + 1).drop_last() == s.subrange(0, index as int));
                assert(s.subrange(0, index as int + 1).last() == s[index as int]);
            }
            match self.records[index] {
                Some(mapping) => {
                    if mapping.source == UserMappingSource::FilePrivate {
                        count = count + 1;
                    }
                },
                None => {},
            }
            index = index + 1;
        }
        proof {
            assert(s.subrange(0, s.len() as int) == s);
        }
        count
    }

    /// Index of the first empty slot, if any.
    fn next_empty_record_index(&self) -> (r: Option<usize>)
        ensures
            r matches Some(i) ==> i < self.records().len() && self.records()[i as int] is None
                && forall|j: int| 0 <= j < i ==> self.records()[j] is Some,
            r is None ==> forall|j: int|
                0 <= j < self.records().len() ==> self.records()[j] is Some,
    {
        let mut index: usize = 0;
        while index < self.records.len()
            invariant
                0 <= index <= self.records@.len(),
                forall|j: int| 0 <= j < index ==> self.records@[j] is Some,
            decreases self.records@.len() - index,
        {
            if self.records[index].is_none() {
                return Some(index);
            }
            index = index + 1;
        }
        None
    }

    /// The largest end among the records that share a byte with `range`.
    fn overlapping_record_end(&self, range: UserMappingRange) -> (r: Option<UserPageStart>)
        requires
            self.wf(),
        ensures
            r is None <==> forall|i: int|
                0 <= i < self.records().len() ==> !slot_overlaps(
                    #[trigger] self.records()[i],
                    range@.0 as int,
                    range@.1 as int,
                ),
            r matches Some(end) ==> {
                &&& exists|i: int|
                    0 <= i < self.records().len() && slot_overlaps(
                        #[trigger] self.records()[i],
                        range@.0 as int,
                        range@.1 as int,
                    ) && self.records()[i]->0.end() == end@
                &&& forall|i: int|
                    0 <= i < self.records().len() && slot_overlaps(
                        #[trigger] self.records()[i],
                        range@.0 as int,
                        range@.1 as int,
                    ) ==> self.records()[i]->0.end() <= end@
            },
    {
        let ghost s = self.records@;
        let mut best: Option<UserPageStart> = None;
        let mut index: usize = 0;
        while index < self.records.len()
            invariant
                0 <= index <= s.len(),
                s == self.records@,
                table_valid(s),
                best is None <==> forall|i: int|
                    0 <= i < index ==> !slot_overlaps(#[trigger] s[i], range@.0 as int, range@.1 as int),
                best matches Some(end) ==> {
                    &&& exists|i: int|
                        0 <= i < index && slot_overlaps(#[trigger] s[i], range@.0 as int, range@.1 as int)
                            && s[i]->0.end() == end@
                    &&& forall|i: int|
                        0 <= i < index && slot_overlaps(#[trigger] s[i], range@.0 as int, range@.1 as int)
                            ==> s[i]->0.end() <= end@
                },
            decreases s.len() - index,
        {
            match self.records[index] {
                Some(mapping) => {
                    proof {
                        assert(s[index as int] matches Some(r) ==> r.valid());
                    }
                    match mapping.range() {
                        Some(mapping_range) => {
                            if range.overlaps(mapping_range) {
                                let end = mapping_range.end_exclusive();
                                let replace = match best {
                                    Some(current) => current.as_u64() <= end.as_u64(),
                                    None => true,
                                };
                                if replace {
                                    best = Some(end);
                                }
                            }
                        },
                        None => {
                            proof {
                                assert(false);
                            }
                        },
                    }
                },
                None => {},
            }
            index = index + 1;
        }
        best
    }

    /// Index of the first record that contains all of `range`, if any.
    fn find_containing_record_index(&self, range: UserMappingRange) -> (r: Option<usize>)
        requires
            self.wf(),
        ensures
            r matches Some(i) ==> {
                &&& i < self.records().len()
                &&& self.records()[i as int] matches Some(m) && m@.0 <= range@.0 && range@.1
                    <= m.end()
                &&& forall|j: int|
                    0 <= j < i ==> !(#[trigger] self.records()[j] matches Some(m) && m@.0
                        <= range@.0 && range@.1 <= m.end())
            },
            r is None ==> forall|j: int|
                0 <= j < self.records().len() ==> !(#[trigger] self.records()[j] matches Some(m)
                    && m@.0 <= range@.0 && range@.1 <= m.end()),
    {
        let ghost s = self.records@;
        let mut index: usize = 0;
        while index < self.records.len()
            invariant
                0 <= index <= s.len(),
                s == self.records@,
                table_valid(s),
                forall|j: int|
                    0 <= j < index ==> !(#[trigger] s[j] matches Some(m) && m@.0 <= range@.0
                        && range@.1 <= m.end()),
            decreases s.len() - index,
        {
            match self.records[index] {
                Some(mapping) => {
                    proof {
                        assert(s[index as int] matches Some(r) ==> r.valid());
                    }
                    match mapping.range() {
                        Some(mapping_range) => {
                            if mapping_range.contains(range) {
                                return Some(index);
                            }
                        },
                        None => {
                            proof {
                                assert(false);
                            }
                        },
                    }
                },
                None => {},
            }
            index = index + 1;
        }
        None
    }
}


/// There is at most one lowest free slot.
pub proof fn lemma_least_free_unique(
    s: Seq<Option<UserMapping>>,
    preferred: int,
    byte_len: int,
    a: int,
)
    requires
        is_least_free(s, preferred, byte_len, a),
    ensures
        least_free_slot(s, preferred, byte_len) == Some(a),
{
    let c = choose|c: int| is_least_free(s, preferred, byte_len, c);
    assert(is_least_free(s, preferred, byte_len, c));
    if c < a {
        assert(!slot_free(s, c, byte_len));
    } else if a < c {
        assert(!slot_free(s, a, byte_len));
    }
}

proof fn lemma_replace_count_step(s: Seq<Option<UserMapping>>, start: int, end: int, i: int)
    requires
        0 <= i < s.len(),
    ensures
        replace_record_count(s.subrange(0, i + 1), start, end) == replace_record_count(
            s.subrange(0, i),
            start,
            end,
        ) + match s[i] {
            None => 0int,
            Some(r) => if !spans_overlap(r@.0 as int, r.end(), start, end) {
                1int
            } else {
                (if r@.0 < start {
                    1int
                } else {
                    0int
                }) + (if end < r.end() {
                    1int
                } else {
                    0int
                })
            },
        },
{
    assert(s.subrange(0, i + 1).drop_last() == s.subrange(0, i));
    assert(s.subrange(0, i + 1).last() == s[i]);
}

proof fn lemma_replace_count_bounds(s: Seq<Option<UserMapping>>, start: int, end: int)
    ensures
        0 <= replace_record_count(s, start, end) <= 2 * s.len(),
    decreases s.len(),
{
    if s.len() > 0 {
        lemma_replace_count_bounds(s.drop_last(), start, end);
    }
}

impl UserMappings {
    /// The lowest page-aligned start at or above `preferred_start` where
    /// `byte_len` bytes fit the region without touching any record.
    ///
    /// Each step jumps past the furthest-reaching record that overlaps the
    /// current candidate; no start in between can be free.
    fn next_available_start(&self, preferred_start: UserPageStart, byte_len: u64) -> (r: Option<
        UserPageStart,
    >)
        requires
            self.wf(),
        ensures
            r matches Some(start) ==> is_least_free(
                self.records(),
                preferred_start@ as int,
                byte_len as int,
                start@ as int,
            ),
            r is None ==> preferred_start@ < USER_MAPPING_BASE || least_free_slot(
                self.records(),
                preferred_start@ as int,
                byte_len as int,
            ) is None,
    {
        let ghost s = self.records@;
        let ghost p = preferred_start@ as int;
        let ghost len = byte_len as int;
        let mut candidate = preferred_start;
        let _ = candidate.as_u64();
        loop
            invariant
                s == self.records@,
                table_valid(s),
                p == preferred_start@ as int,
                len == byte_len as int,
                p <= candidate@,
                candidate@ % 4096 == 0,
                candidate@ < 0x0000_8000_0000_0000,
                candidate@ == p || USER_MAPPING_BASE <= candidate@,
                forall|b: int| p <= b < candidate@ && b % 4096 == 0 ==> !slot_free(s, b, len),
            decreases 0x0000_8000_0000_0000 - candidate@,
        {
            let ghost c = candidate@ as int;
            let candidate_range = match UserMappingRange::from_byte_len(candidate, byte_len) {
                Some(range) => range,
                None => {
                    proof {
                        if c >= USER_MAPPING_BASE {
                            assert forall|a: int| is_least_free(s, p, len, a) implies false by {
                                assert(slot_free(s, a, len));
                                if a >= c {
                                    assert(in_mapping_region(c, c + len));
                                }
                            }
                        }
                    }
                    return None;
                },
            };
            match self.overlapping_record_end(candidate_range) {
                None => {
                    proof {
                        assert(slot_free(s, c, len));
                    }
                    return Some(candidate);
                },
                Some(overlap_end) => {
                    let ghost e = overlap_end@ as int;
                    proof {
                        let i = choose|i: int|
                            0 <= i < s.len() && slot_overlaps(
                                #[trigger] s[i],
                                candidate_range@.0 as int,
                                candidate_range@.1 as int,
                            ) && s[i]->0.end() == e;
                        assert(candidate_range@.1 == c + len);
                        assert(slot_overlaps(s[i], c, c + len));
                        assert forall|b: int| p <= b < e && b % 4096 == 0 implies !slot_free(
                            s,
                            b,
                            len,
                        ) by {
                            if b >= c {
                                assert(slot_overlaps(s[i], b, b + len));
                            }
                        }
                    }
                    let _ = overlap_end.as_u64();
                    candidate = overlap_end;
                },
            }
        }
    }

    /// The start a mapping of `byte_len` bytes gets under `placement`.
    ///
    /// `Any` takes the lowest free slot from the search start, or fails with
    /// `OutOfMemory`; a fixed placement must fit the region, and
    /// `FixedNoReplace` must also not touch any record.
    fn start_address_for_placement(&self, placement: UserMappingPlacement, byte_len: u64) -> (r:
        Result<UserPageStart, UserMappingError>)
        requires
            self.wf(),
            USER_MAPPING_BASE <= self.search_start(),
        ensures
            match placement {
                UserMappingPlacement::Any => match least_free_slot(
                    self.records(),
                    self.search_start() as int,
                    byte_len as int,
                ) {
                    Some(a) => r matches Ok(start) && start@ == a,
                    None => r == Err::<UserPageStart, UserMappingError>(
                        UserMappingError::OutOfMemory,
                    ),
                },
                UserMappingPlacement::FixedReplace(start) => if fixed_start_fits(start@, byte_len) {
                    r == Ok::<UserPageStart, UserMappingError>(start)
                } else {
                    r == Err::<UserPageStart, UserMappingError>(UserMappingError::InvalidRequest)
                },
                UserMappingPlacement::FixedNoReplace(start) => if !fixed_start_fits(
                    start@,
                    byte_len,
                ) || byte_len == 0 || byte_len % 4096 != 0 {
                    r == Err::<UserPageStart, UserMappingError>(UserMappingError::InvalidRequest)
                } else if !slot_free(self.records(), start@ as int, byte_len as int) {
                    r == Err::<UserPageStart, UserMappingError>(UserMappingError::AddressInUse)
                } else {
                    r == Ok::<UserPageStart, UserMappingError>(start)
                },
            },
    {
        match placement {
            UserMappingPlacement::Any => {
                match self.next_available_start(self.next_start, byte_len) {
                    Some(start) => {
                        proof {
                            lemma_least_free_unique(
                                self.records(),
                                self.search_start() as int,
                                byte_len as int,
                                start@ as int,
                            );
                        }
                        Ok(start)
                    },
                    None => Err(UserMappingError::OutOfMemory),
                }
            },
            UserMappingPlacement::FixedReplace(start) => fixed_start_address(start, byte_len),
            UserMappingPlacement::FixedNoReplace(start) => {
                let start = match fixed_start_address(start, byte_len) {
                    Ok(start) => start,
                    Err(error) => return Err(error),
                };
                let requested_range = match UserMappingRange::from_byte_len(start, byte_len) {
                    Some(range) => range,
                    None => return Err(UserMappingError::InvalidRequest),
                };
                if self.overlapping_record_end(requested_range).is_some() {
                    return Err(UserMappingError::AddressInUse);
                }
                Ok(start)
            },
        }
    }

    /// Check that replacing `range` leaves room in the table for the records
    /// it splits.
    fn ensure_replace_record_capacity(&self, range: UserMappingRange) -> (r: Result<
        (),
        UserMappingError,
    >)
        requires
            self.wf(),
        ensures
            replace_record_count(self.records(), range@.0 as int, range@.1 as int) < 32 ==> r
                == Ok::<(), UserMappingError>(()),
            replace_record_count(self.records(), range@.0 as int, range@.1 as int) >= 32 ==> r
                == Err::<(), UserMappingError>(UserMappingError::OutOfMemory),
    {
        let ghost s = self.records@;
        let ghost a = range@.0 as int;
        let ghost b = range@.1 as int;
        let mut record_count: u64 = 0;
        let mut index: usize = 0;
        while index < self.records.len()
            invariant
                0 <= index <= s.len(),
                s == self.records@,
                table_valid(s),
                record_count == replace_record_count(s.subrange(0, index as int), a, b),
                record_count <= 2 * index,
                a == range@.0 as int,
                b == range@.1 as int,
            decreases s.len() - index,
        {
            proof {
                lemma_replace_count_step(s, a, b, index as int);
            }
            match self.records[index] {
                Some(mapping) => {
                    proof {
                        assert(s[index as int] matches Some(r) ==> r.valid());
                    }
                    let mapping_range = match mapping.range() {
                        Some(mapping_range) => mapping_range,
                        None => {
                            proof {
                                assert(false);
                            }
                            return Err(UserMappingError::InvalidRequest);
                        },
                    };
                    proof {
                        assert(mapping_range@.1 == mapping.end());
                        assert(mapping@ == s[index as int]->0@);
                    }
                    let overlapping = range.overlaps(mapping_range);
                    if !overlapping {
                        record_count = record_count + 1;
                    } else {
                        if mapping_range.start_address() < range.start_address() {
                            record_count = record_count + 1;
                        }
                        if range.end_address() < mapping_range.end_address() {
                            record_count = record_count + 1;
                        }
                    }
                    proof {
                        let m = s[index as int]->0;
                        assert(s[index as int] == Some(mapping));
                        if !spans_overlap(m@.0 as int, m.end(), a, b) {
                            assert(!overlapping);
                        }
                    }
                    assert(record_count == replace_record_count(s.subrange(0, index as int + 1), a, b));
                },
                None => {},
            }
            index = index + 1;
        }
        proof {
            assert(s.subrange(0, s.len() as int) == s);
        }
        if record_count < MAX_USER_MAPPINGS as u64 {
            Ok(())
        } else {
            Err(UserMappingError::OutOfMemory)
        }
    }

    /// Record that the pages of `record` in slot `record_index` were cut
    /// down to `left_pages` pages at its start and `right_pages` pages from
    /// `right_start`; a record cut in the middle keeps its right part in slot
    /// `split_record_index`.
    fn apply_record_unmap(
        &mut self,
        record_index: usize,
        split_record_index: Option<usize>,
        record: UserMapping,
        left_pages: u64,
        right_pages: u64,
        right_start: UserPageStart,
    )
        requires
            record_index < old(self).records().len(),
            left_pages <= MAX_PAGE_COUNT,
            right_pages <= MAX_PAGE_COUNT,
            left_pages > 0 && right_pages > 0 ==> (split_record_index matches Some(j) && j
                < old(self).records().len()),
        ensures
            final(self).search_start() == old(self).search_start(),
            final(self).records().len() == old(self).records().len(),
            left_pages == 0 && right_pages == 0 ==> final(self).records() == old(self).records().update(record_index as int, None),
            left_pages > 0 && right_pages == 0 ==> {
                &&& final(self).records()[record_index as int] matches Some(m) && m@ == (
                    record@.0,
                    left_pages,
                    record@.2,
                )
                &&& forall|j: int|
                    0 <= j < old(self).records().len() && j != record_index ==> final(self).records()[j] == old(self).records()[j]
            },
            left_pages == 0 && right_pages > 0 ==> {
                &&& final(self).records()[record_index as int] matches Some(m) && m@ == (
                    right_start@,
                    right_pages,
                    record@.2,
                )
                &&& forall|j: int|
                    0 <= j < old(self).records().len() && j != record_index ==> final(self).records()[j] == old(self).records()[j]
            },
            left_pages > 0 && right_pages > 0 ==> {
                &&& final(self).records()[split_record_index->0 as int] matches Some(m) && m@ == (
                    right_start@,
                    right_pages,
                    record@.2,
                )
                &&& split_record_index->0 != record_index ==> (final(self).records()[record_index as int] matches Some(m) && m@ == (
                    record@.0,
                    left_pages,
                    record@.2,
                ))
                &&& forall|j: int|
                    0 <= j < old(self).records().len() && j != record_index && j
                        != split_record_index->0 ==> final(self).records()[j] == old(self).records()[j]
            },
    {
        if left_pages == 0 && right_pages == 0 {
            self.records.set(record_index, None);
        } else if right_pages == 0 {
            self.records.set(
                record_index,
                Some(
                    UserMapping {
                        start: record.start,
                        page_count: page_count(left_pages),
                        source: record.source,
                    },
                ),
            );
        } else if left_pages == 0 {
            self.records.set(
                record_index,
                Some(
                    UserMapping {
                        start: right_start,
                        page_count: page_count(right_pages),
                        source: record.source,
                    },
                ),
            );
        } else {
            let split_record_index = split_record_index.expect(
                "middle unmap must reserve a split record",
            );
            self.records.set(
                record_index,
                Some(
                    UserMapping {
                        start: record.start,
                        page_count: page_count(left_pages),
                        source: record.source,
                    },
                ),
            );
            self.records.set(
                split_record_index,
                Some(
                    UserMapping {
                        start: right_start,
                        page_count: page_count(right_pages),
                        source: record.source,
                    },
                ),
            );
        }
    }
}


/// The source of the record that has page `page`, if any record has it.
pub open spec fn page_source(s: Seq<Option<UserMapping>>, page: int) -> Option<UserMappingSource> {
    if exists|i: int| 0 <= i < s.len() && slot_holds_page(#[trigger] s[i], page) {
        Some(s[choose|i: int| 0 <= i < s.len() && slot_holds_page(#[trigger] s[i], page)]->0@.2)
    } else {
        None
    }
}

/// Whether some slot at or after `from` has page `page`.
pub open spec fn held_from(s: Seq<Option<UserMapping>>, from: int, page: int) -> bool {
    exists|j: int| from <= j < s.len() && slot_holds_page(#[trigger] s[j], page)
}

/// Whether the record in slot `m` reaches past both ends of `[start, end)`.
pub open spec fn strictly_around(m: Option<UserMapping>, start: int, end: int) -> bool {
    m matches Some(r) && r@.0 < start && end < r.end()
}

/// The pages a replacement of `[start, end)` takes from record `m`.
pub open spec fn overlap_pages(m: Option<UserMapping>, start: int, end: int) -> int {
    match m {
        Some(r) => if spans_overlap(r@.0 as int, r.end(), start, end) {
            ((if r.end() < end {
                r.end()
            } else {
                end
            }) - (if r@.0 < start {
                start
            } else {
                r@.0 as int
            })) / 4096
        } else {
            0
        },
        None => 0,
    }
}

/// The pages a replacement of `[start, end)` takes from the records of `s`,
/// saturating at `u64::MAX` at each step.
pub open spec fn replaced_page_total(s: Seq<Option<UserMapping>>, start: int, end: int) -> int
    decreases s.len(),
{
    if s.len() == 0 {
        0
    } else {
        let previous = replaced_page_total(s.drop_last(), start, end);
        if previous + overlap_pages(s.last(), start, end) > u64::MAX {
            u64::MAX as int
        } else {
            previous + overlap_pages(s.last(), start, end)
        }
    }
}

/// The byte ranges a replacement of `[start, end)` cuts out of the records
/// of `s`, in slot order.
pub open spec fn replaced_spans(s: Seq<Option<UserMapping>>, start: int, end: int) -> Seq<(u64, u64)>
    decreases s.len(),
{
    if s.len() == 0 {
        Seq::empty()
    } else {
        let previous = replaced_spans(s.drop_last(), start, end);
        match s.last() {
            Some(r) => if spans_overlap(r@.0 as int, r.end(), start, end) {
                previous.push(
                    (
                        (if r@.0 < start {
                            start
                        } else {
                            r@.0 as int
                        }) as u64,
                        (if r.end() < end {
                            r.end()
                        } else {
                            end
                        }) as u64,
                    ),
                )
            } else {
                previous
            },
            None => previous,
        }
    }
}

proof fn lemma_page_source_at(s: Seq<Option<UserMapping>>, page: int, i: int)
    requires
        table_valid(s),
        0 <= i < s.len(),
        slot_holds_page(s[i], page),
    ensures
        page_source(s, page) == Some(s[i]->0@.2),
{
    let j = choose|j: int| 0 <= j < s.len() && slot_holds_page(#[trigger] s[j], page);
    assert(slot_holds_page(s[j], page));
    if j != i {
        assert(!spans_overlap(
            s[i]->0@.0 as int,
            s[i]->0.end(),
            s[j]->0@.0 as int,
            s[j]->0.end(),
        ));
    }
}

proof fn lemma_page_source_none(s: Seq<Option<UserMapping>>, page: int)
    requires
        forall|j: int| 0 <= j < s.len() ==> !slot_holds_page(#[trigger] s[j], page),
    ensures
        page_source(s, page) is None,
{
}

proof fn lemma_occupied_bound(s: Seq<Option<UserMapping>>)
    ensures
        0 <= occupied_count(s) <= s.len(),
        occupied_count(s) == s.len() ==> forall|j: int| 0 <= j < s.len() ==> s[j] is Some,
        (forall|j: int| 0 <= j < s.len() ==> s[j] is Some) ==> occupied_count(s) == s.len(),
    decreases s.len(),
{
    if s.len() > 0 {
        lemma_occupied_bound(s.drop_last());
        if forall|j: int| 0 <= j < s.len() ==> s[j] is Some {
            assert forall|j: int| 0 <= j < s.len() - 1 implies s.drop_last()[j] is Some by {
                assert(s.drop_last()[j] == s[j]);
            }
            assert(s.last() == s[s.len() - 1]);
        }
        if occupied_count(s) == s.len() {
            assert forall|j: int| 0 <= j < s.len() implies s[j] is Some by {
                if j < s.len() - 1 {
                    assert(s.drop_last()[j] == s[j]);
                }
            }
        }
    }
}

/// When one record reaches past both ends of `[start, end)` and no other
/// record touches it, a replacement leaves one more record than there are.
proof fn lemma_replace_count_single_split(s: Seq<Option<UserMapping>>, start: int, end: int, j: int)
    requires
        0 <= j,
        j < s.len() ==> strictly_around(s[j], start, end),
        forall|k: int| 0 <= k < s.len() && k != j ==> !slot_overlaps(#[trigger] s[k], start, end),
        start < end,
    ensures
        replace_record_count(s, start, end) == occupied_count(s) + if j < s.len() {
            1int
        } else {
            0int
        },
    decreases s.len(),
{
    if s.len() > 0 {
        let p = s.drop_last();
        assert forall|k: int| 0 <= k < p.len() && k != j implies !slot_overlaps(
            #[trigger] p[k],
            start,
            end,
        ) by {
            assert(p[k] == s[k]);
        }
        if j < p.len() {
            assert(p[j] == s[j]);
        }
        lemma_replace_count_single_split(p, start, end, j);
        assert(s.last() == s[s.len() - 1]);
    }
}


/// The state of a replacement of `[start, end)` after the first `i` slots of
/// the starting table `s` were cut: `cur` is the table at that point.
pub open spec fn replace_progress(
    s: Seq<Option<UserMapping>>,
    cur: Seq<Option<UserMapping>>,
    i: int,
    start: int,
    end: int,
) -> bool {
    &&& table_valid(cur)
    &&& cur.len() == s.len()
    &&& forall|j: int| 0 <= j < i ==> !slot_overlaps(#[trigger] cur[j], start, end)
    &&& forall|j: int|
        i <= j < s.len() ==> (#[trigger] s[j] is Some ==> cur[j] == s[j]) && (s[j] is None
            && cur[j] is Some ==> !slot_overlaps(cur[j], start, end))
    &&& forall|page: int|
        #![trigger page_source(cur, page)]
        page_source(cur, page) == if start <= page < end && !held_from(s, i, page) {
            None
        } else {
            page_source(s, page)
        }
}

/// One cut of a replacement keeps its progress: slot `i` of `cur`, the
/// old record, is replaced by what lies outside `[start, end)`, with a
/// right-hand part that needs a slot of its own put in the empty slot `k`.
proof fn lemma_cut_step(
    s: Seq<Option<UserMapping>>,
    cur: Seq<Option<UserMapping>>,
    next: Seq<Option<UserMapping>>,
    i: int,
    k: int,
    start: int,
    end: int,
)
    requires
        table_valid(s),
        replace_progress(s, cur, i, start, end),
        0 <= i < s.len(),
        start < end,
        start % 4096 == 0,
        end % 4096 == 0,
        slot_overlaps(s[i], start, end),
        next.len() == cur.len(),
        0 <= k < s.len(),
        ({
            let r = s[i]->0;
            let lo = if r@.0 < start {
                start
            } else {
                r@.0 as int
            };
            let hi = if r.end() < end {
                r.end()
            } else {
                end
            };
            let left = (lo - r@.0) / 4096;
            let right = (r.end() - hi) / 4096;
            &&& left > 0 && right > 0 ==> k != i && cur[k] is None && (next[k] matches Some(m)
                && m@ == (hi as u64, right as u64, r@.2))
            &&& left > 0 ==> (next[i] matches Some(m) && m@ == (r@.0, left as u64, r@.2))
            &&& left == 0 && right > 0 ==> (next[i] matches Some(m) && m@ == (
                hi as u64,
                right as u64,
                r@.2,
            ))
            &&& left == 0 && right == 0 ==> next[i] is None
            &&& forall|j: int|
                0 <= j < next.len() && j != i && !(left > 0 && right > 0 && j == k) ==> next[j]
                    == cur[j]
        }),
    ensures
        replace_progress(s, next, i + 1, start, end),
{
    let r = s[i]->0;
    let lo = if r@.0 < start {
        start
    } else {
        r@.0 as int
    };
    let hi = if r.end() < end {
        r.end()
    } else {
        end
    };
    let left = (lo - r@.0) / 4096;
    let right = (r.end() - hi) / 4096;
    let split = left > 0 && right > 0;
    assert(r.valid());
    assert((lo - r@.0) % 4096 == 0);
    assert((r.end() - hi) % 4096 == 0);
    assert(left * 4096 == lo - r@.0);
    assert(right * 4096 == r.end() - hi);
    assert(cur[i] == s[i]);
    // Validity of the new pieces.
    assert forall|j: int| 0 <= j < next.len() implies (#[trigger] next[j] matches Some(m)
        ==> m.valid()) by {
        if j == i || (split && j == k) {
        } else {
            assert(next[j] == cur[j]);
        }
    }
    assert forall|x: int, y: int|
        0 <= x < next.len() && 0 <= y < next.len() && x != y && next[x] is Some && next[y] is Some
            implies !spans_overlap(
        next[x]->0@.0 as int,
        next[x]->0.end(),
        next[y]->0@.0 as int,
        next[y]->0.end(),
    ) by {
        let cx = x == i || (split && x == k);
        let cy = y == i || (split && y == k);
        if cx && cy {
        } else if cx {
            assert(next[y] == cur[y]);
            assert(y != i);
            assert(!spans_overlap(
                cur[i]->0@.0 as int,
                cur[i]->0.end(),
                cur[y]->0@.0 as int,
                cur[y]->0.end(),
            ));
        } else if cy {
            assert(next[x] == cur[x]);
            assert(x != i);
            assert(!spans_overlap(
                cur[x]->0@.0 as int,
                cur[x]->0.end(),
                cur[i]->0@.0 as int,
                cur[i]->0.end(),
            ));
        } else {
            assert(next[x] == cur[x]);
            assert(next[y] == cur[y]);
        }
    }
    assert(table_valid(next));
    assert forall|j: int| 0 <= j < i + 1 implies !slot_overlaps(#[trigger] next[j], start, end) by {
        if j == i || (split && j == k) {
        } else {
            assert(next[j] == cur[j]);
        }
    }
    assert forall|j: int| i + 1 <= j < s.len() implies (#[trigger] s[j] is Some ==> next[j] == s[j])
        && (s[j] is None && next[j] is Some ==> !slot_overlaps(next[j], start, end)) by {
        if split && j == k {
            assert(cur[k] is None);
        } else {
            assert(next[j] == cur[j]);
        }
    }
    assert forall|page: int|
        #![trigger page_source(next, page)]
        page_source(next, page) == if start <= page < end && !held_from(s, i + 1, page) {
            None
        } else {
            page_source(s, page)
        } by {
        if r.holds_page(page) {
            lemma_page_source_at(s, page, i);
            if start <= page < end {
                assert forall|j: int| 0 <= j < next.len() implies !slot_holds_page(
                    #[trigger] next[j],
                    page,
                ) by {
                    if j == i || (split && j == k) {
                    } else {
                        assert(next[j] == cur[j]);
                        if slot_holds_page(cur[j], page) {
                            assert(!spans_overlap(
                                cur[i]->0@.0 as int,
                                cur[i]->0.end(),
                                cur[j]->0@.0 as int,
                                cur[j]->0.end(),
                            ));
                        }
                    }
                }
                lemma_page_source_none(next, page);
                assert forall|j: int| i + 1 <= j < s.len() implies !slot_holds_page(
                    #[trigger] s[j],
                    page,
                ) by {
                    if slot_holds_page(s[j], page) {
                        assert(!spans_overlap(
                            s[i]->0@.0 as int,
                            s[i]->0.end(),
                            s[j]->0@.0 as int,
                            s[j]->0.end(),
                        ));
                    }
                }
            } else {
                if page < start {
                    assert(left > 0);
                    assert(slot_holds_page(next[i], page));
                    lemma_page_source_at(next, page, i);
                } else {
                    assert(right > 0);
                    if left > 0 {
                        assert(slot_holds_page(next[k], page));
                        lemma_page_source_at(next, page, k);
                    } else {
                        assert(slot_holds_page(next[i], page));
                        lemma_page_source_at(next, page, i);
                    }
                }
            }
        } else {
            assert(held_from(s, i, page) == held_from(s, i + 1, page)) by {
                if held_from(s, i, page) {
                    let j = choose|j: int| i <= j < s.len() && slot_holds_page(#[trigger] s[j], page);
                    assert(j != i);
                }
            }
            if exists|j: int| 0 <= j < next.len() && slot_holds_page(#[trigger] next[j], page) {
                let j = choose|j: int| 0 <= j < next.len() && slot_holds_page(#[trigger] next[j], page);
                assert(j != i && !(split && j == k));
                assert(next[j] == cur[j]);
                lemma_page_source_at(next, page, j);
                lemma_page_source_at(cur, page, j);
                assert(page_source(cur, page) == page_source(cur, page));
            } else {
                lemma_page_source_none(next, page);
                assert forall|j: int| 0 <= j < cur.len() implies !slot_holds_page(
                    #[trigger] cur[j],
                    page,
                ) by {
                    if j == i {
                    } else if split && j == k {
                    } else {
                        assert(next[j] == cur[j]);
                    }
                }
                lemma_page_source_none(cur, page);
                assert(page_source(cur, page) == page_source(cur, page));
            }
        }
    }
}


/// A cut that touches nothing keeps the progress of a replacement.
proof fn lemma_skip_step(
    s: Seq<Option<UserMapping>>,
    cur: Seq<Option<UserMapping>>,
    i: int,
    start: int,
    end: int,
)
    requires
        replace_progress(s, cur, i, start, end),
        0 <= i < s.len(),
        !slot_overlaps(s[i], start, end),
        !slot_overlaps(cur[i], start, end),
    ensures
        replace_progress(s, cur, i + 1, start, end),
{
    assert forall|page: int|
        #![trigger page_source(cur, page)]
        page_source(cur, page) == if start <= page < end && !held_from(s, i + 1, page) {
            None
        } else {
            page_source(s, page)
        } by {
        if start <= page < end && held_from(s, i, page) {
            let j = choose|j: int| i <= j < s.len() && slot_holds_page(#[trigger] s[j], page);
            if j == i {
                assert(slot_overlaps(s[i], start, end));
            }
            assert(held_from(s, i + 1, page));
        }
    }
}

proof fn lemma_replace_totals_step(s: Seq<Option<UserMapping>>, start: int, end: int, i: int)
    requires
        0 <= i < s.len(),
    ensures
        replaced_page_total(s.subrange(0, i + 1), start, end) == if replaced_page_total(
            s.subrange(0, i),
            start,
            end,
        ) + overlap_pages(s[i], start, end) > u64::MAX {
            u64::MAX as int
        } else {
            replaced_page_total(s.subrange(0, i), start, end) + overlap_pages(s[i], start, end)
        },
        replaced_spans(s.subrange(0, i + 1), start, end) == match s[i] {
            Some(r) => if spans_overlap(r@.0 as int, r.end(), start, end) {
                replaced_spans(s.subrange(0, i), start, end).push(
                    (
                        (if r@.0 < start {
                            start
                        } else {
                            r@.0 as int
                        }) as u64,
                        (if r.end() < end {
                            r.end()
                        } else {
                            end
                        }) as u64,
                    ),
                )
            } else {
                replaced_spans(s.subrange(0, i), start, end)
            },
            None => replaced_spans(s.subrange(0, i), start, end),
        },
{
    assert(s.subrange(0, i + 1).drop_last() == s.subrange(0, i));
    assert(s.subrange(0, i + 1).last() == s[i]);
}

impl UserMappings {
    /// Cut the span of `requested_range` out of every record that touches it,
    /// in slot order, and return the pages taken with the spans they came
    /// from.
    ///
    /// A record cut in the middle keeps its right part in the first empty
    /// slot. Afterwards no record touches the span, and every page outside it
    /// still belongs to a record filled from the same source as before.
    #[verifier::rlimit(40)]
    #[verifier::spinoff_prover]
    pub fn replace_overlapping_pages(&mut self, requested_range: UserMappingRange) -> (r: (
        u64,
        Vec<UserMappingRange>,
    ))
        requires
            old(self).wf(),
            replace_record_count(old(self).records(), requested_range@.0 as int, requested_range@.1 as int)
                < 32,
        ensures
            final(self).wf(),
            final(self).search_start() == old(self).search_start(),
            forall|j: int|
                0 <= j < final(self).records().len() ==> !slot_overlaps(
                    #[trigger] final(self).records()[j],
                    requested_range@.0 as int,
                    requested_range@.1 as int,
                ),
            forall|page: int|
                #![trigger page_source(final(self).records(), page)]
                page_source(final(self).records(), page) == if requested_range@.0 <= page
                    < requested_range@.1 {
                    None
                } else {
                    page_source(old(self).records(), page)
                },
            r.0 == replaced_page_total(
                old(self).records(),
                requested_range@.0 as int,
                requested_range@.1 as int,
            ),
            r.1@.map_values(|x: UserMappingRange| x@) == replaced_spans(
                old(self).records(),
                requested_range@.0 as int,
                requested_range@.1 as int,
            ),
            active_page_total(final(self).records()) == active_page_total(old(self).records()) - r.0,
    {
        let ghost s = self.records@;
        let ghost a = requested_range@.0 as int;
        let ghost b = requested_range@.1 as int;
        let request_start = requested_range.start_address();
        let request_end = requested_range.end_address();
        let mut replaced_pages: u64 = 0;
        let mut spans: Vec<UserMappingRange> = Vec::new();
        let mut record_index: usize = 0;
        proof {
            assert(s.subrange(0, 0) =~= Seq::<Option<UserMapping>>::empty());
            assert forall|page: int|
                #![trigger page_source(s, page)]
                page_source(s, page) == if a <= page < b && !held_from(s, 0, page) {
                    None
                } else {
                    page_source(s, page)
                } by {
                if a <= page < b && !held_from(s, 0, page) {
                    lemma_page_source_none(s, page);
                }
            }
            assert(spans@.map_values(|x: UserMappingRange| x@) =~= Seq::<(u64, u64)>::empty());
        }
        while record_index < self.records.len()
            invariant
                0 <= record_index <= s.len(),
                table_valid(s),
                s.len() == 32,
                a == requested_range@.0 as int,
                b == requested_range@.1 as int,
                request_start == a,
                request_end == b,
                UserMappingRange::shape(requested_range@),
                replace_progress(s, self.records@, record_index as int, a, b),
                self.search_start() == old(self).search_start(),
                (exists|j: int| record_index <= j < s.len() && strictly_around(#[trigger] s[j], a, b))
                    ==> self.records@ == s,
                replace_record_count(s, a, b) < 32,
                replaced_pages == replaced_page_total(s.subrange(0, record_index as int), a, b),
                plain_page_sum(self.records@) + replaced_pages == plain_page_sum(s),
                self.records@.len() == s.len(),
                spans@.map_values(|x: UserMappingRange| x@) == replaced_spans(
                    s.subrange(0, record_index as int),
                    a,
                    b,
                ),
            decreases s.len() - record_index,
        {
            let ghost i = record_index as int;
            let ghost cur = self.records@;
            proof {
                lemma_replace_totals_step(s, a, b, i);
                assert(cur[i] matches Some(m) ==> m.valid());
            }
            let record = match self.records[record_index] {
                Some(record) => record,
                None => {
                    proof {
                        lemma_skip_step(s, cur, i, a, b);
                        if exists|j: int| i + 1 <= j < s.len() && strictly_around(#[trigger] s[j], a, b) {
                            let j = choose|j: int| i + 1 <= j < s.len() && strictly_around(#[trigger] s[j], a, b);
                            assert(strictly_around(s[j], a, b));
                        }
                    }
                    record_index = record_index + 1;
                    continue;
                },
            };
            let record_range = match record.range() {
                Some(range) => range,
                None => {
                    proof {
                        assert(false);
                    }
                    return (replaced_pages, spans);
                },
            };
            let overlapping = requested_range.overlaps(record_range);
            if !overlapping {
                proof {
                    assert(!slot_overlaps(cur[i], a, b));
                    if s[i] is Some {
                        assert(cur[i] == s[i]);
                    }
                    lemma_skip_step(s, cur, i, a, b);
                    if exists|j: int| i + 1 <= j < s.len() && strictly_around(#[trigger] s[j], a, b) {
                        let j = choose|j: int| i + 1 <= j < s.len() && strictly_around(#[trigger] s[j], a, b);
                        assert(strictly_around(s[j], a, b));
                    }
                }
                record_index = record_index + 1;
                continue;
            }
            proof {
                assert(slot_overlaps(cur[i], a, b));
                assert(s[i] is Some);
                assert(cur[i] == s[i]);
                assert forall|j: int| i + 1 <= j < s.len() implies !strictly_around(#[trigger] s[j], a, b) by {
                    if strictly_around(s[j], a, b) {
                        assert(!spans_overlap(
                            s[i]->0@.0 as int,
                            s[i]->0.end(),
                            s[j]->0@.0 as int,
                            s[j]->0.end(),
                        ));
                    }
                }
            }
            let record_start = record_range.start_address();
            let record_end = record_range.end_address();
            let overlap_start_address = if record_start < request_start {
                request_start
            } else {
                record_start
            };
            let overlap_end_address = if record_end < request_end {
                record_end
            } else {
                request_end
            };
            let overlap_page_total = (overlap_end_address - overlap_start_address) / PAGE_SIZE;
            proof {
                assert(is_user_address(overlap_start_address as int));
                assert(overlap_page_total > 0);
            }
            let overlap_start = user_page_start_from_raw(overlap_start_address).expect(
                "replacement overlap start must be a valid user address",
            );
            let overlap_pages = page_count(overlap_page_total);
            let overlap_range = UserMappingRange::new(overlap_start, overlap_pages).expect(
                "replacement overlap range must be valid",
            );
            proof {
                lemma_plain_page_sum_element(cur, i);
                lemma_page_total_unsaturated(s);
                assert(cur[i] == Some(record));
                assert(overlap_page_total <= record@.1);
                assert(replaced_pages + overlap_page_total <= plain_page_sum(s));
            }
            replaced_pages = replaced_pages.saturating_add(overlap_range.page_count().as_u64());
            let left_pages = (overlap_range.start_address() - record_start) / PAGE_SIZE;
            let right_pages = (record_end - overlap_range.end_address()) / PAGE_SIZE;
            let right_start = overlap_range.end_exclusive();
            let split_record_index = if left_pages > 0 && right_pages > 0 {
                proof {
                    assert(strictly_around(s[i], a, b));
                    assert(self.records@ == s);
                    assert forall|k: int| 0 <= k < s.len() && k != i implies !slot_overlaps(
                        #[trigger] s[k],
                        a,
                        b,
                    ) by {
                        if slot_overlaps(s[k], a, b) {
                            assert(!spans_overlap(
                                s[i]->0@.0 as int,
                                s[i]->0.end(),
                                s[k]->0@.0 as int,
                                s[k]->0.end(),
                            ));
                        }
                    }
                    lemma_replace_count_single_split(s, a, b, i);
                    lemma_occupied_bound(s);
                }
                Some(
                    self.next_empty_record_index().expect(
                        "replacement preflight must reserve split records",
                    ),
                )
            } else {
                None
            };
            let ghost k: int = match split_record_index {
                Some(k) => k as int,
                None => 0,
            };
            proof {
                lemma_plain_page_sum_element(cur, i);
                assert(left_pages + overlap_page_total + right_pages == record@.1);
            }
            self.apply_record_unmap(
                record_index,
                split_record_index,
                record,
                left_pages,
                right_pages,
                right_start,
            );
            spans.push(overlap_range);
            proof {
                let f = self.records@;
                if left_pages == 0 && right_pages == 0 {
                    lemma_plain_page_sum_update(cur, i, None);
                } else if right_pages == 0 || left_pages == 0 {
                    assert(f =~= cur.update(i, f[i]));
                    lemma_plain_page_sum_update(cur, i, f[i]);
                } else {
                    assert(cur[k] is None);
                    assert(k != i);
                    let g = cur.update(i, f[i]);
                    assert(f =~= g.update(k, f[k]));
                    lemma_plain_page_sum_update(cur, i, f[i]);
                    lemma_plain_page_sum_update(g, k, f[k]);
                }
                lemma_cut_step(s, cur, self.records@, i, k, a, b);
                assert(spans@.map_values(|x: UserMappingRange| x@) =~= replaced_spans(
                    s.subrange(0, i + 1),
                    a,
                    b,
                ));
            }
            record_index = record_index + 1;
        }
        proof {
            assert(s.subrange(0, s.len() as int) == s);
            assert forall|page: int|
                #![trigger page_source(self.records@, page)]
                page_source(self.records@, page) == if a <= page < b {
                    None
                } else {
                    page_source(s, page)
                } by {
                assert(!held_from(s, s.len() as int, page));
            }
            lemma_page_total_unsaturated(s);
            lemma_page_total_unsaturated(self.records@);
        }
        (replaced_pages, spans)
    }
}


/// Index of the first record that contains all of `[start, end)`, or the
/// table length when none does.
pub open spec fn first_containing(s: Seq<Option<UserMapping>>, start: int, end: int) -> int
    decreases s.len(),
{
    if s.len() == 0 {
        0
    } else if s[0] matches Some(m) && m@.0 <= start && end <= m.end() {
        0
    } else {
        1 + first_containing(s.subrange(1, s.len() as int), start, end)
    }
}

proof fn lemma_first_containing(s: Seq<Option<UserMapping>>, start: int, end: int, k: int)
    requires
        0 <= k <= s.len(),
        forall|j: int|
            0 <= j < k ==> !(#[trigger] s[j] matches Some(m) && m@.0 <= start && end <= m.end()),
        k < s.len() ==> (s[k] matches Some(m) && m@.0 <= start && end <= m.end()),
    ensures
        first_containing(s, start, end) == k,
    decreases k,
{
    if k > 0 {
        let t = s.subrange(1, s.len() as int);
        assert(!(s[0] matches Some(m) && m@.0 <= start && end <= m.end()));
        assert forall|j: int| 0 <= j < k - 1 implies !(#[trigger] t[j] matches Some(m) && m@.0
            <= start && end <= m.end()) by {
            assert(t[j] == s[j + 1]);
        }
        if k < s.len() {
            assert(t[k - 1] == s[k]);
        }
        lemma_first_containing(t, start, end, k - 1);
    }
}

/// Index of the first empty slot, or the table length when all are full.
pub open spec fn first_empty(s: Seq<Option<UserMapping>>) -> int
    decreases s.len(),
{
    if s.len() == 0 {
        0
    } else if s[0] is None {
        0
    } else {
        1 + first_empty(s.subrange(1, s.len() as int))
    }
}

proof fn lemma_first_empty(s: Seq<Option<UserMapping>>, k: int)
    requires
        0 <= k <= s.len(),
        forall|j: int| 0 <= j < k ==> (#[trigger] s[j]) is Some,
        k < s.len() ==> s[k] is None,
    ensures
        first_empty(s) == k,
    decreases k,
{
    if k > 0 {
        let t = s.subrange(1, s.len() as int);
        assert forall|j: int| 0 <= j < k - 1 implies (#[trigger] t[j]) is Some by {
            assert(t[j] == s[j + 1]);
        }
        if k < s.len() {
            assert(t[k - 1] == s[k]);
        }
        lemma_first_empty(t, k - 1);
    }
}

/// Putting a record over a free span into an empty slot keeps the table
/// valid and gives the record every page of that span.
proof fn lemma_insert_record(s: Seq<Option<UserMapping>>, k: int, m: UserMapping)
    requires
        table_valid(s),
        0 <= k < s.len(),
        s[k] is None,
        m.valid(),
        forall|j: int| 0 <= j < s.len() ==> !slot_overlaps(#[trigger] s[j], m@.0 as int, m.end()),
    ensures
        table_valid(s.update(k, Some(m))),
        forall|page: int|
            #![trigger page_source(s.update(k, Some(m)), page)]
            page_source(s.update(k, Some(m)), page) == if m.holds_page(page) {
                Some(m@.2)
            } else {
                page_source(s, page)
            },
{
    let t = s.update(k, Some(m));
    assert forall|x: int, y: int|
        0 <= x < t.len() && 0 <= y < t.len() && x != y && t[x] is Some && t[y] is Some implies !spans_overlap(
        t[x]->0@.0 as int,
        t[x]->0.end(),
        t[y]->0@.0 as int,
        t[y]->0.end(),
    ) by {
        if x == k {
            assert(!slot_overlaps(s[y], m@.0 as int, m.end()));
        } else if y == k {
            assert(!slot_overlaps(s[x], m@.0 as int, m.end()));
        }
    }
    assert(table_valid(t));
    assert forall|page: int|
        #![trigger page_source(t, page)]
        page_source(t, page) == if m.holds_page(page) {
            Some(m@.2)
        } else {
            page_source(s, page)
        } by {
        if m.holds_page(page) {
            assert(slot_holds_page(t[k], page));
            lemma_page_source_at(t, page, k);
        } else if exists|j: int| 0 <= j < t.len() && slot_holds_page(#[trigger] t[j], page) {
            let j = choose|j: int| 0 <= j < t.len() && slot_holds_page(#[trigger] t[j], page);
            assert(j != k);
            lemma_page_source_at(t, page, j);
            lemma_page_source_at(s, page, j);
        } else {
            lemma_page_source_none(t, page);
            assert forall|j: int| 0 <= j < s.len() implies !slot_holds_page(#[trigger] s[j], page) by {
                if j != k {
                    assert(t[j] == s[j]);
                }
            }
            lemma_page_source_none(s, page);
        }
    }
}

/// What a private mapping was granted before its pages are mapped: the
/// range, the pages replaced to make room for it, and the slot its record
/// takes.
pub struct UserMappingReservation {
    range: UserMappingRange,
    placement: UserMappingPlacement,
    source: UserMappingSource,
    replaced_page_count: u64,
    record_index: usize,
    replaced_spans: Vec<UserMappingRange>,
}

impl UserMappingReservation {
    /// The granted range.
    pub closed spec fn span(&self) -> (u64, u64) {
        self.range@
    }

    /// The slot the record takes.
    pub closed spec fn slot(&self) -> usize {
        self.record_index
    }

    /// The pages released to make room, and the spans they came from.
    pub closed spec fn replaced(&self) -> (u64, Seq<(u64, u64)>) {
        (self.replaced_page_count, self.replaced_spans@.map_values(|x: UserMappingRange| x@))
    }

    /// The placement and source of the planned record.
    pub closed spec fn kind(&self) -> (UserMappingPlacement, UserMappingSource) {
        (self.placement, self.source)
    }

    /// Return the granted range.
    pub fn range(&self) -> (r: UserMappingRange)
        ensures
            r@ == self.span(),
    {
        self.range
    }

    /// Return the spans whose pages were released to make room.
    pub fn replaced_spans(&self) -> (r: &Vec<UserMappingRange>)
        ensures
            r@.map_values(|x: UserMappingRange| x@) == self.replaced().1,
    {
        &self.replaced_spans
    }

    /// Return the number of pages released to make room.
    pub fn replaced_page_count(&self) -> (r: u64)
        ensures
            r == self.replaced().0,
    {
        self.replaced_page_count
    }
}

/// Whether a reservation can be turned into a record of `s`: its slot is
/// empty and no record touches its span.
pub open spec fn reservation_fits(s: Seq<Option<UserMapping>>, reservation: UserMappingReservation) -> bool {
    &&& reservation.slot() < s.len()
    &&& s[reservation.slot() as int] is None
    &&& forall|j: int|
        0 <= j < s.len() ==> !slot_overlaps(
            #[trigger] s[j],
            reservation.span().0 as int,
            reservation.span().1 as int,
        )
}

impl UserMappingRange {
    /// Return the first page of the range.
    pub fn first_page(self) -> (r: UserPageStart)
        ensures
            r@ == self@.0,
    {
        self.start
    }

    /// Return the number of pages of the range.
    pub fn pages_in_range(self) -> (r: PageCount)
        ensures
            r@ == self.pages(),
            self@.1 == self@.0 + r@ * 4096,
    {
        self.page_count()
    }
}

impl UserMappings {
    /// Decide where a private mapping goes and make room for it.
    ///
    /// The start comes from the plan's placement; `FixedReplace` first checks
    /// that the table can hold the records it splits, then cuts the range out
    /// of every record it touches. The mapping then needs an empty slot.
    /// Nothing changes on an error, except that a replacement that succeeded
    /// stays done when no slot is left.
    pub fn reserve_private_mapping(&mut self, plan: UserMappingPlan) -> (r: Result<
        UserMappingReservation,
        UserMappingError,
    >)
        requires
            old(self).wf(),
            USER_MAPPING_BASE <= old(self).search_start(),
        ensures
            final(self).wf(),
            final(self).search_start() == old(self).search_start(),
            r matches Ok(reservation) ==> {
                &&& reservation_fits(final(self).records(), reservation)
                &&& reservation.kind() == (plan.parts().0, plan.parts().3)
                &&& reservation.span().1 == reservation.span().0 + plan.parts().1@.1 * 4096
                &&& reservation.slot() == first_empty(final(self).records())
            },
            ({
                let byte_len = plan.parts().1@.1 * 4096;
                match plan.parts().0 {
                    UserMappingPlacement::Any => match least_free_slot(
                        old(self).records(),
                        old(self).search_start() as int,
                        byte_len,
                    ) {
                        None => r == Err::<UserMappingReservation, UserMappingError>(
                            UserMappingError::OutOfMemory,
                        ),
                        Some(a) => {
                            &&& final(self).records() == old(self).records()
                            &&& first_empty(old(self).records()) < 32 ==> (r matches Ok(
                                reservation,
                            ) && reservation.span().0 == a && reservation.replaced().0 == 0)
                            &&& first_empty(old(self).records()) >= 32 ==> r == Err::<
                                UserMappingReservation,
                                UserMappingError,
                            >(UserMappingError::OutOfMemory)
                        },
                    },
                    UserMappingPlacement::FixedNoReplace(start) => {
                        &&& final(self).records() == old(self).records()
                        &&& !fixed_start_fits(start@, byte_len as u64) ==> r == Err::<
                            UserMappingReservation,
                            UserMappingError,
                        >(UserMappingError::InvalidRequest)
                        &&& fixed_start_fits(start@, byte_len as u64) && !slot_free(
                            old(self).records(),
                            start@ as int,
                            byte_len,
                        ) ==> r == Err::<UserMappingReservation, UserMappingError>(
                            UserMappingError::AddressInUse,
                        )
                        &&& fixed_start_fits(start@, byte_len as u64) && slot_free(
                            old(self).records(),
                            start@ as int,
                            byte_len,
                        ) ==> if first_empty(old(self).records()) < 32 {
                            r matches Ok(reservation) && reservation.span().0 == start@
                                && reservation.replaced().0 == 0
                        } else {
                            r == Err::<UserMappingReservation, UserMappingError>(
                                UserMappingError::OutOfMemory,
                            )
                        }
                    },
                    UserMappingPlacement::FixedReplace(start) => {
                        &&& !fixed_start_fits(start@, byte_len as u64) ==> r == Err::<
                            UserMappingReservation,
                            UserMappingError,
                        >(UserMappingError::InvalidRequest) && final(self).records() == old(
                            self,
                        ).records()
                        &&& fixed_start_fits(start@, byte_len as u64) && replace_record_count(
                            old(self).records(),
                            start@ as int,
                            start@ + byte_len,
                        ) >= 32 ==> r == Err::<UserMappingReservation, UserMappingError>(
                            UserMappingError::OutOfMemory,
                        ) && final(self).records() == old(self).records()
                        &&& fixed_start_fits(start@, byte_len as u64) && replace_record_count(
                            old(self).records(),
                            start@ as int,
                            start@ + byte_len,
                        ) < 32 ==> {
                            &&& forall|page: int|
                                #![trigger page_source(final(self).records(), page)]
                                page_source(final(self).records(), page) == if start@ <= page
                                    < start@ + byte_len {
                                    None
                                } else {
                                    page_source(old(self).records(), page)
                                }
                            &&& r matches Ok(reservation) ==> reservation.span().0 == start@
                                && reservation.replaced() == (
                                replaced_page_total(
                                    old(self).records(),
                                    start@ as int,
                                    start@ + byte_len,
                                ) as u64,
                                replaced_spans(old(self).records(), start@ as int, start@ + byte_len),
                            )
                            &&& r is Err ==> r == Err::<UserMappingReservation, UserMappingError>(
                                UserMappingError::OutOfMemory,
                            ) && first_empty(final(self).records()) >= 32
                        }
                    },
                }
            }),
    {
        let page_count = plan.page_count();
        let byte_len = page_count.byte_len();
        let placement = plan.placement();
        let start = match self.start_address_for_placement(placement, byte_len) {
            Ok(start) => start,
            Err(error) => return Err(error),
        };
        let requested_range = match UserMappingRange::new(start, page_count) {
            Some(range) => range,
            None => {
                proof {
                    match placement {
                        UserMappingPlacement::Any => {
                            let a = least_free_slot(
                                self.records(),
                                self.search_start() as int,
                                byte_len as int,
                            )->0;
                            assert(is_least_free(
                                self.records(),
                                self.search_start() as int,
                                byte_len as int,
                                a,
                            )) by {
                                assert(exists|x: int| is_least_free(
                                    self.records(),
                                    self.search_start() as int,
                                    byte_len as int,
                                    x,
                                ));
                            }
                        },
                        _ => {},
                    }
                }
                return Err(UserMappingError::InvalidRequest);
            },
        };
        let mut replaced_page_count: u64 = 0;
        let mut replaced_spans: Vec<UserMappingRange> = Vec::new();
        let replacing = match placement {
            UserMappingPlacement::FixedReplace(_) => true,
            _ => false,
        };
        if replacing {
            match self.ensure_replace_record_capacity(requested_range) {
                Ok(()) => {},
                Err(error) => return Err(error),
            }
            let (count, spans) = self.replace_overlapping_pages(requested_range);
            replaced_page_count = count;
            replaced_spans = spans;
        }
        proof {
            match placement {
                UserMappingPlacement::Any => {
                    let a = least_free_slot(
                        old(self).records(),
                        old(self).search_start() as int,
                        byte_len as int,
                    )->0;
                    assert(is_least_free(
                        old(self).records(),
                        old(self).search_start() as int,
                        byte_len as int,
                        a,
                    )) by {
                        assert(exists|x: int| is_least_free(
                            old(self).records(),
                            old(self).search_start() as int,
                            byte_len as int,
                            x,
                        ));
                    }
                },
                _ => {},
            }
        }
        let record_index = match self.next_empty_record_index() {
            Some(index) => index,
            None => {
                proof {
                    lemma_first_empty(self.records(), 32);
                }
                return Err(UserMappingError::OutOfMemory);
            },
        };
        proof {
            lemma_first_empty(self.records(), record_index as int);
            if !replacing {
                lemma_first_empty(old(self).records(), record_index as int);
            }
            assert(replaced_spans@.map_values(|x: UserMappingRange| x@) =~= Seq::<(u64, u64)>::empty()
                || replacing);
        }
        Ok(
            UserMappingReservation {
                range: requested_range,
                placement,
                source: plan.source(),
                replaced_page_count,
                record_index,
                replaced_spans,
            },
        )
    }

    /// Whether `reservation` can still be turned into a record of this table.
    pub fn can_commit(&self, reservation: &UserMappingReservation) -> (r: bool)
        requires
            self.wf(),
        ensures
            r == reservation_fits(self.records(), *reservation),
    {
        if reservation.record_index >= self.records.len() {
            return false;
        }
        if self.records[reservation.record_index].is_some() {
            return false;
        }
        self.overlapping_record_end(reservation.range).is_none()
    }

    /// Record a private mapping whose pages are now mapped.
    ///
    /// The record takes the reserved slot; a mapping placed with `Any` moves
    /// the search start to its end.
    pub fn commit_private_mapping(&mut self, reservation: UserMappingReservation) -> (r:
        UserMappingAllocation)
        requires
            old(self).wf(),
            reservation_fits(old(self).records(), reservation),
        ensures
            final(self).wf(),
            final(self).search_start() == if reservation.kind().0 == UserMappingPlacement::Any {
                reservation.span().1
            } else {
                old(self).search_start()
            },
            forall|page: int|
                #![trigger page_source(final(self).records(), page)]
                page_source(final(self).records(), page) == if reservation.span().0 <= page
                    < reservation.span().1 && page % 4096 == 0 {
                    Some(reservation.kind().1)
                } else {
                    page_source(old(self).records(), page)
                },
            final(self).records() == old(self).records().update(
                reservation.slot() as int,
                final(self).records()[reservation.slot() as int],
            ),
            r@ == (
                reservation.span().0,
                ((reservation.span().1 - reservation.span().0) / 4096) as u64,
                reservation.replaced().0,
            ),
    {
        let range = reservation.range;
        let mapping = UserMapping {
            start: range.start(),
            page_count: range.page_count(),
            source: reservation.source,
        };
        range.check_shape();
        proof {
            lemma_insert_record(self.records@, reservation.record_index as int, mapping);
        }
        self.records.set(reservation.record_index, Some(mapping));
        match reservation.placement {
            UserMappingPlacement::Any => {
                self.next_start = range.end_exclusive();
            },
            _ => {},
        }
        UserMappingAllocation {
            start: range.start().as_address(),
            page_count: range.page_count(),
            replaced_page_count: reservation.replaced_page_count,
        }
    }

    /// Cut the pages of an unmapping request out of the record that holds
    /// them all, and return how many pages were unmapped.
    ///
    /// Returns `None`, changing nothing, when the request leaves the mapping
    /// region, no single record contains it, or a record cut in the middle
    /// finds no empty slot for its right part.
    pub fn release_private_range(&mut self, request: UserMappingUnmapRequest) -> (r: Option<
        PageCount,
    >)
        requires
            old(self).wf(),
        ensures
            final(self).wf(),
            final(self).search_start() == old(self).search_start(),
            ({
                let a = request@.0 as int;
                let b = request@.0 + request@.2 * 4096;
                let k = first_containing(old(self).records(), a, b);
                let split = k < 32 && old(self).records()[k]->0@.0 < a && b < old(
                    self,
                ).records()[k]->0.end();
                &&& r is Some <==> in_mapping_region(a, b) && k < 32 && (!split || first_empty(
                    old(self).records(),
                ) < 32)
                &&& r matches Some(count) ==> count@ == request@.2
                &&& r is Some ==> forall|page: int|
                    #![trigger page_source(final(self).records(), page)]
                    page_source(final(self).records(), page) == if a <= page < b {
                        None
                    } else {
                        page_source(old(self).records(), page)
                    }
                &&& r is None ==> final(self).records() == old(self).records()
            }),
            r matches Some(count) ==> active_page_total(final(self).records()) == active_page_total(
                old(self).records(),
            ) - count@,
    {
        let start = request.start();
        let page_count = request.page_count();
        let ghost s = self.records@;
        let ghost a = request@.0 as int;
        let ghost b = request@.0 + request@.2 * 4096;
        let requested_range = match UserMappingRange::new(start, page_count) {
            Some(range) => range,
            None => return None,
        };
        requested_range.check_shape();
        let record_index = match self.find_containing_record_index(requested_range) {
            Some(index) => index,
            None => {
                proof {
                    lemma_first_containing(s, a, b, s.len() as int);
                }
                return None;
            },
        };
        proof {
            lemma_first_containing(s, a, b, record_index as int);
            assert(s[record_index as int] matches Some(m) ==> m.valid());
        }
        let record = self.records[record_index].expect("containing record must exist");
        let record_range = record.range().expect("containing record range must be valid");
        let record_start = record_range.start_address();
        let record_end = record_range.end_address();
        let start_address = requested_range.start_address();
        let end_address = requested_range.end_address();
        let left_pages = (start_address - record_start) / PAGE_SIZE;
        let right_pages = (record_end - end_address) / PAGE_SIZE;
        let split_record_index = if left_pages > 0 && right_pages > 0 {
            match self.next_empty_record_index() {
                Some(index) => Some(index),
                None => {
                    proof {
                        lemma_first_empty(s, s.len() as int);
                    }
                    return None;
                },
            }
        } else {
            None
        };
        proof {
            if left_pages > 0 && right_pages > 0 {
                lemma_first_empty(s, split_record_index->0 as int);
            }
        }
        let ghost k: int = match split_record_index {
            Some(k) => k as int,
            None => 0,
        };
        let right_start = requested_range.end_exclusive();
        self.apply_record_unmap(
            record_index,
            split_record_index,
            record,
            left_pages,
            right_pages,
            right_start,
        );
        proof {
            let i = record_index as int;
            assert forall|j: int| 0 <= j < s.len() && j != i implies !slot_overlaps(
                #[trigger] s[j],
                a,
                b,
            ) by {
                if slot_overlaps(s[j], a, b) {
                    assert(!spans_overlap(
                        s[i]->0@.0 as int,
                        s[i]->0.end(),
                        s[j]->0@.0 as int,
                        s[j]->0.end(),
                    ));
                }
            }
            assert forall|page: int|
                #![trigger page_source(s, page)]
                page_source(s, page) == if a <= page < b && !held_from(s, i, page) {
                    None
                } else {
                    page_source(s, page)
                } by {
            }
            assert(replace_progress(s, s, i, a, b));
            lemma_cut_step(s, s, self.records@, i, k, a, b);
            assert forall|page: int|
                #![trigger page_source(self.records@, page)]
                page_source(self.records@, page) == if a <= page < b {
                    None
                } else {
                    page_source(s, page)
                } by {
                if a <= page < b && held_from(s, i + 1, page) {
                    let j = choose|j: int| i + 1 <= j < s.len() && slot_holds_page(#[trigger] s[j], page);
                    assert(slot_overlaps(s[j], a, b));
                }
            }
            let f = self.records@;
            let n = request@.2 as int;
            assert(s[i] == Some(record));
            assert(left_pages + n + right_pages == record@.1);
            lemma_page_total_unsaturated(s);
            lemma_page_total_unsaturated(f);
            if left_pages == 0 && right_pages == 0 {
                lemma_plain_page_sum_update(s, i, None);
            } else if right_pages == 0 || left_pages == 0 {
                assert(f =~= s.update(i, f[i]));
                lemma_plain_page_sum_update(s, i, f[i]);
            } else {
                assert(s[k] is None);
                assert(k != i);
                let g = s.update(i, f[i]);
                assert(f =~= g.update(k, f[k]));
                lemma_plain_page_sum_update(s, i, f[i]);
                lemma_plain_page_sum_update(g, k, f[k]);
            }
        }
        Some(page_count)
    }
}


/// The pages of the record in a slot; none for an empty slot.
pub open spec fn slot_pages(m: Option<UserMapping>) -> int {
    match m {
        Some(r) => r@.1 as int,
        None => 0,
    }
}

/// The page total of the records, without saturation.
pub open spec fn plain_page_sum(s: Seq<Option<UserMapping>>) -> int
    decreases s.len(),
{
    if s.len() == 0 {
        0
    } else {
        plain_page_sum(s.drop_last()) + slot_pages(s.last())
    }
}

proof fn lemma_page_total_unsaturated(s: Seq<Option<UserMapping>>)
    requires
        s.len() <= max_user_mappings(),
        forall|i: int| 0 <= i < s.len() ==> (#[trigger] s[i] matches Some(r) ==> r.valid()),
    ensures
        active_page_total(s) == plain_page_sum(s),
        0 <= plain_page_sum(s) <= s.len() * 0x1_0000_0000,
    decreases s.len(),
{
    if s.len() > 0 {
        let p = s.drop_last();
        assert forall|i: int| 0 <= i < p.len() implies (#[trigger] p[i] matches Some(r) ==> r.valid()) by {
            assert(p[i] == s[i]);
        }
        lemma_page_total_unsaturated(p);
        assert(s.last() == s[s.len() - 1]);
        if s.last() is Some {
            let r = s.last()->0;
            assert(r.valid());
            assert(r@.1 * 4096 <= USER_MAPPING_END);
            assert(r@.1 <= 0x1_0000_0000);
        }
    }
}

proof fn lemma_plain_page_sum_update(s: Seq<Option<UserMapping>>, i: int, x: Option<UserMapping>)
    requires
        0 <= i < s.len(),
    ensures
        plain_page_sum(s.update(i, x)) == plain_page_sum(s) - slot_pages(s[i]) + slot_pages(x),
    decreases s.len(),
{
    let t = s.update(i, x);
    if i == s.len() - 1 {
        assert(t.drop_last() =~= s.drop_last());
        assert(t.last() == x);
        assert(s.last() == s[i]);
    } else {
        assert(t.drop_last() =~= s.drop_last().update(i, x));
        assert(t.last() == s.last());
        lemma_plain_page_sum_update(s.drop_last(), i, x);
        assert(s.drop_last()[i] == s[i]);
    }
}


proof fn lemma_plain_page_sum_element(s: Seq<Option<UserMapping>>, i: int)
    requires
        0 <= i < s.len(),
    ensures
        0 <= slot_pages(s[i]) <= plain_page_sum(s),
        0 <= plain_page_sum(s),
    decreases s.len(),
{
    lemma_plain_page_sum_nonnegative(s.drop_last());
    if i < s.len() - 1 {
        assert(s.drop_last()[i] == s[i]);
        lemma_plain_page_sum_element(s.drop_last(), i);
    } else {
        assert(s.last() == s[i]);
    }
}

proof fn lemma_plain_page_sum_nonnegative(s: Seq<Option<UserMapping>>)
    ensures
        0 <= plain_page_sum(s),
    decreases s.len(),
{
    if s.len() > 0 {
        lemma_plain_page_sum_nonnegative(s.drop_last());
    }
}

} // verus!
