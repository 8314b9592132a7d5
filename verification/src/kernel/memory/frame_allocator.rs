//! A reusable physical frame allocator with owner tracking.
//!
//! The allocator keeps two ordered lists. `regions` records registered
//! conventional memory, sorted by start address with touching regions merged.
//! `tracked_ranges` records every recorded frame range with its state and
//! owner; neighbouring entries with the same state and owner whose frames
//! touch are merged after every change. Contracts describe each operation as
//! the exact transformation of these two lists.

use vstd::prelude::*;

use super::address::{FrameCount, PhysAddr, PhysicalFrameRange, PhysicalFrameStart};

verus! {

const MAX_REGIONS: usize = 128;
const MAX_TRACKED_RANGES: usize = 512;
const FRAME_SIZE: u64 = 4096;

/// Capacity of the registered conventional region list.
pub open spec fn max_regions() -> int {
    128
}

/// Capacity of the recorded frame range list.
pub open spec fn max_tracked_ranges() -> int {
    512
}

/// A run of 4 KiB frames: a start address and a frame count.
#[derive(Clone, Copy, Debug, PartialEq, Eq, Structural)]
pub struct Region {
    /// First byte address of the run.
    pub start: u64,
    /// Number of 4 KiB frames in the run.
    pub pages: u64,
}

impl Region {
    /// One byte past the last frame of the run.
    pub open spec fn end(self) -> int {
        self.start + self.pages * 4096
    }

    /// A non-empty, 4 KiB-aligned run whose end fits in `u64`.
    pub open spec fn well_formed(self) -> bool {
        &&& self.pages > 0
        &&& self.start % 4096 == 0
        &&& self.end() <= u64::MAX
    }

    /// A 4 KiB-aligned run, possibly empty, whose end fits in `u64`.
    pub open spec fn fits(self) -> bool {
        &&& self.start % 4096 == 0
        &&& self.end() <= u64::MAX
    }

    /// Whether `other` lies inside this run.
    pub open spec fn covers(self, other: Region) -> bool {
        self.start <= other.start && other.end() <= self.end()
    }
}

/// Physical frame range state recorded by the frame allocator.
#[derive(Clone, Copy, Debug, PartialEq, Eq, Structural)]
pub enum FrameRangeState {
    /// Frames are unavailable for allocation.
    Reserved,
    /// Frames are available for allocation.
    Free,
    /// Frames are owned by a kernel subsystem, user mapping, page table, or device.
    Used,
}

/// Owner recorded for a recorded physical frame range.
#[derive(Clone, Copy, Debug, PartialEq, Eq, Structural)]
pub enum FrameRangeOwner {
    /// Frames are available and have no active owner.
    Free,
    /// Frames are unavailable because firmware did not report them as conventional memory.
    FirmwareReserved,
    /// Frames contain the loaded kernel image and must never be reused.
    KernelImage,
    /// Frames are reserved for memory-mapped I/O and must never be allocated as RAM.
    Mmio,
    /// Frames are reserved as unmapped guard pages.
    GuardPage,
    /// Frames are used by an owner that has not been classified yet.
    UnknownUsed,
    /// Frames store page-table structures.
    PageTable,
    /// Frames back the kernel heap.
    KernelHeap,
    /// Frames back guarded kernel stacks.
    KernelStack,
    /// Frames back the display backbuffer.
    FramebufferBackbuffer,
    /// Frames back Advanced Host Controller Interface DMA buffers.
    AhciDma,
    /// Frames back temporary dynamic kernel mappings.
    DynamicKernelMapping,
    /// Frames back a user stack.
    UserStack,
    /// Frames back loaded user ELF segments.
    UserElf,
    /// Frames back user heap growth.
    UserHeap,
    /// Frames back private user memory mappings.
    UserMapping,
}

/// One recorded frame range with its state and owner.
#[derive(Clone, Copy, Debug, PartialEq, Eq, Structural)]
pub struct TrackedRange {
    /// The frames of this range.
    pub region: Region,
    /// Whether the frames are reserved, free, or used.
    pub state: FrameRangeState,
    /// The subsystem the frames belong to.
    pub owner: FrameRangeOwner,
}

/// Whether `next` directly follows `previous` with the same state and owner,
/// so that the merge pass joins them.
pub open spec fn tracked_mergeable(previous: TrackedRange, next: TrackedRange) -> bool {
    &&& previous.state == next.state
    &&& previous.owner == next.owner
    &&& previous.region.end() == next.region.start
}

/// The single range that covers two mergeable neighbours.
pub open spec fn tracked_joined(previous: TrackedRange, next: TrackedRange) -> TrackedRange {
    TrackedRange {
        region: Region {
            start: previous.region.start,
            pages: (previous.region.pages + next.region.pages) as u64,
        },
        state: previous.state,
        owner: previous.owner,
    }
}

/// The list left by one left-to-right pass that joins each range into the
/// previous output range whenever the two are mergeable.
pub open spec fn merge_tracked(s: Seq<TrackedRange>) -> Seq<TrackedRange>
    decreases s.len(),
{
    if s.len() <= 1 {
        s
    } else {
        let m = merge_tracked(s.drop_last());
        if tracked_mergeable(m.last(), s.last()) {
            m.drop_last().push(tracked_joined(m.last(), s.last()))
        } else {
            m.push(s.last())
        }
    }
}

/// Whether `next` directly follows `previous`, so that the region merge pass
/// joins them.
pub open spec fn region_mergeable(previous: Region, next: Region) -> bool {
    previous.end() == next.start
}

/// The single region that covers two touching regions.
pub open spec fn region_joined(previous: Region, next: Region) -> Region {
    Region { start: previous.start, pages: (previous.pages + next.pages) as u64 }
}

/// The region list left by one left-to-right pass that joins touching regions.
pub open spec fn merge_regions(s: Seq<Region>) -> Seq<Region>
    decreases s.len(),
{
    if s.len() <= 1 {
        s
    } else {
        let m = merge_regions(s.drop_last());
        if region_mergeable(m.last(), s.last()) {
            m.drop_last().push(region_joined(m.last(), s.last()))
        } else {
            m.push(s.last())
        }
    }
}

/// Index of the first recorded range whose start is not below `start`, or the
/// list length when there is none: where a new range is inserted.
pub open spec fn tracked_insertion_point(s: Seq<TrackedRange>, start: u64) -> int
    decreases s.len(),
{
    if s.len() == 0 {
        0
    } else if !(s[0].region.start < start) {
        0
    } else {
        1 + tracked_insertion_point(s.subrange(1, s.len() as int), start)
    }
}

/// Index of the first region whose start is not below `start`, or the list
/// length when there is none.
pub open spec fn region_insertion_point(s: Seq<Region>, start: u64) -> int
    decreases s.len(),
{
    if s.len() == 0 {
        0
    } else if !(s[0].start < start) {
        0
    } else {
        1 + region_insertion_point(s.subrange(1, s.len() as int), start)
    }
}

/// Whether a recorded range is free and has at least `frames` frames.
pub open spec fn fits_request(e: TrackedRange, frames: u64) -> bool {
    e.state == FrameRangeState::Free && e.region.pages >= frames
}

/// Index of the first free recorded range with at least `frames` frames, or
/// the list length when there is none.
pub open spec fn first_fit(s: Seq<TrackedRange>, frames: u64) -> int
    decreases s.len(),
{
    if s.len() == 0 {
        0
    } else if fits_request(s[0], frames) {
        0
    } else {
        1 + first_fit(s.subrange(1, s.len() as int), frames)
    }
}

/// Whether a recorded range is free and covers `part`.
pub open spec fn free_covering(e: TrackedRange, part: Region) -> bool {
    e.state == FrameRangeState::Free && e.region.covers(part)
}

/// Whether a recorded range is used by `owner` and covers `part`.
pub open spec fn owned_covering(e: TrackedRange, owner: FrameRangeOwner, part: Region) -> bool {
    e.state == FrameRangeState::Used && e.owner == owner && e.region.covers(part)
}

/// Index of the first free recorded range covering `part`, or the list length
/// when there is none.
pub open spec fn first_free_covering(s: Seq<TrackedRange>, part: Region) -> int
    decreases s.len(),
{
    if s.len() == 0 {
        0
    } else if free_covering(s[0], part) {
        0
    } else {
        1 + first_free_covering(s.subrange(1, s.len() as int), part)
    }
}

/// Index of the first recorded range used by `owner` covering `part`, or the
/// list length when there is none.
pub open spec fn first_owned_covering(
    s: Seq<TrackedRange>,
    owner: FrameRangeOwner,
    part: Region,
) -> int
    decreases s.len(),
{
    if s.len() == 0 {
        0
    } else if owned_covering(s[0], owner, part) {
        0
    } else {
        1 + first_owned_covering(s.subrange(1, s.len() as int), owner, part)
    }
}

/// The ranges that replace `e` when its sub-range `part` changes to
/// `state`/`owner`: the frames of `e` before `part` and after it keep
/// `outer_state`/`outer_owner`, each only when non-empty.
pub open spec fn split_pieces(
    e: TrackedRange,
    part: Region,
    outer_state: FrameRangeState,
    outer_owner: FrameRangeOwner,
    state: FrameRangeState,
    owner: FrameRangeOwner,
) -> Seq<TrackedRange> {
    let before = Region {
        start: e.region.start,
        pages: ((part.start - e.region.start) / 4096) as u64,
    };
    let after = Region {
        start: part.end() as u64,
        pages: ((e.region.end() - part.end()) / 4096) as u64,
    };
    let middle = seq![TrackedRange { region: part, state, owner }];
    let with_before = if before.pages > 0 {
        seq![TrackedRange { region: before, state: outer_state, owner: outer_owner }] + middle
    } else {
        middle
    };
    if after.pages > 0 {
        with_before.push(TrackedRange { region: after, state: outer_state, owner: outer_owner })
    } else {
        with_before
    }
}

/// `s` with the element at `i` replaced by the sequence `pieces`.
pub open spec fn replace_at(
    s: Seq<TrackedRange>,
    i: int,
    pieces: Seq<TrackedRange>,
) -> Seq<TrackedRange> {
    s.subrange(0, i) + pieces + s.subrange(i + 1, s.len() as int)
}

/// The list after the free frames `part` of the `i`-th range are handed to
/// `owner`, followed by the merge pass.
pub open spec fn take_part(
    s: Seq<TrackedRange>,
    i: int,
    part: Region,
    owner: FrameRangeOwner,
) -> Seq<TrackedRange> {
    merge_tracked(
        replace_at(
            s,
            i,
            split_pieces(
                s[i],
                part,
                FrameRangeState::Free,
                FrameRangeOwner::Free,
                FrameRangeState::Used,
                owner,
            ),
        ),
    )
}

/// The list after the frames `part` used by `owner` in the `i`-th range are
/// returned to the free pool, followed by the merge pass.
pub open spec fn release_part(
    s: Seq<TrackedRange>,
    i: int,
    part: Region,
    owner: FrameRangeOwner,
) -> Seq<TrackedRange> {
    merge_tracked(
        replace_at(
            s,
            i,
            split_pieces(
                s[i],
                part,
                FrameRangeState::Used,
                owner,
                FrameRangeState::Free,
                FrameRangeOwner::Free,
            ),
        ),
    )
}

/// The first `frames` frames of the first free range with room for them.
pub open spec fn first_fit_part(s: Seq<TrackedRange>, frames: u64) -> Region {
    Region { start: s[first_fit(s, frames)].region.start, pages: frames }
}

/// The list after an allocation of `frames` frames for `owner`.
pub open spec fn allocation_result(
    s: Seq<TrackedRange>,
    frames: u64,
    owner: FrameRangeOwner,
) -> Seq<TrackedRange> {
    take_part(s, first_fit(s, frames), first_fit_part(s, frames), owner)
}

/// First byte shared by a range and `reserved` (meaningful when they overlap).
pub open spec fn overlap_start(e: TrackedRange, reserved: Region) -> int {
    if e.region.start < reserved.start {
        reserved.start as int
    } else {
        e.region.start as int
    }
}

/// One past the last byte shared by a range and `reserved`.
pub open spec fn overlap_end(e: TrackedRange, reserved: Region) -> int {
    if e.region.end() < reserved.end() {
        e.region.end()
    } else {
        reserved.end()
    }
}

/// Whether a recorded range is free and shares at least one byte with `reserved`.
pub open spec fn free_overlaps(e: TrackedRange, reserved: Region) -> bool {
    e.state == FrameRangeState::Free && overlap_start(e, reserved) < overlap_end(e, reserved)
}

/// What remains of `e` once the frames of `reserved` are taken out of it, if
/// it is a free range sharing frames with `reserved`; otherwise `e` itself.
/// A remaining part before the overlap keeps `e`'s owner; a part after it
/// keeps `e`'s owner too, unless both parts remain, in which case the part
/// after is a new free range.
pub open spec fn carve_one(e: TrackedRange, reserved: Region) -> Seq<TrackedRange> {
    if free_overlaps(e, reserved) {
        let before_pages = (overlap_start(e, reserved) - e.region.start) / 4096;
        let after_pages = (e.region.end() - overlap_end(e, reserved)) / 4096;
        let before = TrackedRange {
            region: Region { start: e.region.start, pages: before_pages as u64 },
            state: e.state,
            owner: e.owner,
        };
        let after_region = Region {
            start: overlap_end(e, reserved) as u64,
            pages: after_pages as u64,
        };
        if before_pages > 0 && after_pages > 0 {
            seq![
                before,
                TrackedRange {
                    region: after_region,
                    state: FrameRangeState::Free,
                    owner: FrameRangeOwner::Free,
                },
            ]
        } else if before_pages > 0 {
            seq![before]
        } else if after_pages > 0 {
            seq![TrackedRange { region: after_region, state: e.state, owner: e.owner }]
        } else {
            Seq::empty()
        }
    } else {
        seq![e]
    }
}

/// Number of ranges of `s` that `reserved` splits in two.
pub open spec fn split_count(s: Seq<TrackedRange>, reserved: Region) -> int
    decreases s.len(),
{
    if s.len() == 0 {
        0
    } else {
        split_count(s.drop_last(), reserved) + if carve_one(s.last(), reserved).len() == 2 {
            1int
        } else {
            0
        }
    }
}

/// The list the reservation pass starts from: `s` with the reserved range
/// inserted and merged.
pub open spec fn with_reservation(
    s: Seq<TrackedRange>,
    reserved: Region,
    owner: FrameRangeOwner,
) -> Seq<TrackedRange> {
    if reserved.pages == 0 {
        s
    } else {
        merge_tracked(
            s.insert(
                tracked_insertion_point(s, reserved.start),
                TrackedRange { region: reserved, state: FrameRangeState::Reserved, owner },
            ),
        )
    }
}

/// The list after reserving `reserved` for `owner`.
pub open spec fn reservation_result(
    s: Seq<TrackedRange>,
    reserved: Region,
    owner: FrameRangeOwner,
) -> Seq<TrackedRange> {
    merge_tracked(carve_free(with_reservation(s, reserved, owner), reserved))
}

/// Whether reserving `reserved` for `owner` stays within the range capacity.
pub open spec fn reservation_fits_capacity(
    s: Seq<TrackedRange>,
    reserved: Region,
    owner: FrameRangeOwner,
) -> bool {
    &&& reserved.pages > 0 ==> s.len() < max_tracked_ranges()
    &&& with_reservation(s, reserved, owner).len() + split_count(
        with_reservation(s, reserved, owner),
        reserved,
    ) <= max_tracked_ranges()
}

/// Each range of `s` replaced, in order, by what remains of it once the frames
/// of `reserved` are taken out of the free ranges.
pub open spec fn carve_free(s: Seq<TrackedRange>, reserved: Region) -> Seq<TrackedRange>
    decreases s.len(),
{
    if s.len() == 0 {
        Seq::empty()
    } else {
        carve_free(s.drop_last(), reserved) + carve_one(s.last(), reserved)
    }
}

/// Round `value` up to a 4 KiB boundary when that fits in `u64`.
pub open spec fn round_up_to_frame(value: int) -> Option<int> {
    if value + 4095 > u64::MAX {
        None
    } else {
        Some(value + 4095 - (value + 4095) % 4096)
    }
}

/// The frame-aligned run inside `[start, start + frame_count * 4096)`, after
/// first raising `start` to `minimum_start`, if that run is non-empty.
pub open spec fn normalized(start: u64, frame_count: u64, minimum_start: u64) -> Option<Region> {
    let end = start + frame_count * 4096;
    let raised = if start < minimum_start {
        minimum_start as int
    } else {
        start as int
    };
    if end > u64::MAX {
        None
    } else {
        match round_up_to_frame(raised) {
            None => None,
            Some(aligned_start) => if aligned_start >= end {
                None
            } else {
                Some(
                    Region {
                        start: aligned_start as u64,
                        pages: ((end - aligned_start) / 4096) as u64,
                    },
                )
            },
        }
    }
}

/// The region registered for a conventional memory report: frame zero is
/// never handed out.
pub open spec fn conventional_region(start: u64, frame_count: u64) -> Option<Region> {
    normalized(start, frame_count, 4096)
}

/// The region recorded for a reservation report.
pub open spec fn reserved_region(start: u64, frame_count: u64) -> Option<Region> {
    normalized(start, frame_count, 0)
}

/// Sum of the frame counts of the ranges of `s` in state `state`.
pub open spec fn pages_in_state(s: Seq<TrackedRange>, state: FrameRangeState) -> int
    decreases s.len(),
{
    if s.len() == 0 {
        0
    } else {
        pages_in_state(s.drop_last(), state) + if s.last().state == state {
            s.last().region.pages as int
        } else {
            0
        }
    }
}

/// Sum of the frame counts of the ranges of `s` owned by `owner`.
pub open spec fn pages_of_owner(s: Seq<TrackedRange>, owner: FrameRangeOwner) -> int
    decreases s.len(),
{
    if s.len() == 0 {
        0
    } else {
        pages_of_owner(s.drop_last(), owner) + if s.last().owner == owner {
            s.last().region.pages as int
        } else {
            0
        }
    }
}

/// Sum of the byte lengths of `s`.
pub open spec fn region_bytes(s: Seq<Region>) -> int
    decreases s.len(),
{
    if s.len() == 0 {
        0
    } else {
        region_bytes(s.drop_last()) + s.last().pages * 4096
    }
}

/// Whether every recorded range is well formed.
pub open spec fn tracked_well_formed(s: Seq<TrackedRange>) -> bool {
    forall|i: int| 0 <= i < s.len() ==> (#[trigger] s[i]).region.well_formed()
}

/// Whether every free recorded range has no owner.
pub open spec fn free_ranges_unowned(s: Seq<TrackedRange>) -> bool {
    forall|i: int|
        0 <= i < s.len() && (#[trigger] s[i]).state == FrameRangeState::Free ==> s[i].owner
            == FrameRangeOwner::Free
}

/// Whether the regions are aligned, sorted, and pairwise apart.
pub open spec fn regions_sorted(s: Seq<Region>) -> bool {
    &&& forall|i: int| 0 <= i < s.len() ==> (#[trigger] s[i]).fits()
    &&& forall|i: int, j: int| #![trigger s[i], s[j]] 0 <= i < j < s.len() ==> s[i].end() <= s[j].start
}

/// Page totals for recorded physical frame ranges.
#[derive(Clone, Copy, Debug, Default, PartialEq, Eq, Structural)]
pub struct FrameAllocatorStatistics {
    /// Number of recorded reserved 4 KiB frames.
    pub reserved: u64,
    /// Number of recorded free 4 KiB frames.
    pub free: u64,
    /// Number of recorded used 4 KiB frames.
    pub used: u64,
}

/// Page totals grouped by recorded frame-range owner.
#[derive(Clone, Copy, Debug, Default, PartialEq, Eq, Structural)]
pub struct FrameAllocatorOwnerStatistics {
    /// Number of frames with no active owner.
    pub free: u64,
    /// Number of firmware-reserved frames.
    pub firmware_reserved: u64,
    /// Number of frames containing the loaded kernel image.
    pub kernel_image: u64,
    /// Number of memory-mapped I/O frames.
    pub mmio: u64,
    /// Number of guard-page frames.
    pub guard_page: u64,
    /// Number of used frames whose owner has not been classified.
    pub unknown_used: u64,
    /// Number of page-table frames.
    pub page_table: u64,
    /// Number of kernel heap frames.
    pub kernel_heap: u64,
    /// Number of guarded kernel stack frames.
    pub kernel_stack: u64,
    /// Number of framebuffer backbuffer frames.
    pub framebuffer_backbuffer: u64,
    /// Number of AHCI DMA frames.
    pub ahci_dma: u64,
    /// Number of temporary dynamic kernel mapping frames.
    pub dynamic_kernel_mapping: u64,
    /// Number of user stack frames.
    pub user_stack: u64,
    /// Number of user ELF frames.
    pub user_elf: u64,
    /// Number of user heap frames.
    pub user_heap: u64,
    /// Number of private user mapping frames.
    pub user_mapping: u64,
}

/// Whether `stats` holds, field by field, the owner page totals of `s`.
pub open spec fn owner_totals_match(stats: FrameAllocatorOwnerStatistics, s: Seq<TrackedRange>) -> bool {
    &&& stats.free == pages_of_owner(s, FrameRangeOwner::Free)
    &&& stats.firmware_reserved == pages_of_owner(s, FrameRangeOwner::FirmwareReserved)
    &&& stats.kernel_image == pages_of_owner(s, FrameRangeOwner::KernelImage)
    &&& stats.mmio == pages_of_owner(s, FrameRangeOwner::Mmio)
    &&& stats.guard_page == pages_of_owner(s, FrameRangeOwner::GuardPage)
    &&& stats.unknown_used == pages_of_owner(s, FrameRangeOwner::UnknownUsed)
    &&& stats.page_table == pages_of_owner(s, FrameRangeOwner::PageTable)
    &&& stats.kernel_heap == pages_of_owner(s, FrameRangeOwner::KernelHeap)
    &&& stats.kernel_stack == pages_of_owner(s, FrameRangeOwner::KernelStack)
    &&& stats.framebuffer_backbuffer == pages_of_owner(s, FrameRangeOwner::FramebufferBackbuffer)
    &&& stats.ahci_dma == pages_of_owner(s, FrameRangeOwner::AhciDma)
    &&& stats.dynamic_kernel_mapping == pages_of_owner(s, FrameRangeOwner::DynamicKernelMapping)
    &&& stats.user_stack == pages_of_owner(s, FrameRangeOwner::UserStack)
    &&& stats.user_elf == pages_of_owner(s, FrameRangeOwner::UserElf)
    &&& stats.user_heap == pages_of_owner(s, FrameRangeOwner::UserHeap)
    &&& stats.user_mapping == pages_of_owner(s, FrameRangeOwner::UserMapping)
}

/// A reusable allocator for 4 KiB physical frames registered from UEFI memory map
/// regions.
pub struct PhysicalFrameAllocator {
    regions: Vec<Region>,
    tracked_ranges: Vec<TrackedRange>,
}

impl PhysicalFrameAllocator {
    /// The registered conventional memory regions.
    pub closed spec fn regions(&self) -> Seq<Region> {
        self.regions@
    }

    /// The recorded frame ranges, in list order.
    pub closed spec fn range_list(&self) -> Seq<TrackedRange> {
        self.tracked_ranges@
    }

    /// The allocator's invariant: both lists within capacity, every range
    /// well formed, regions sorted and apart, no two recorded ranges sharing
    /// a frame, and every free range without an owner.
    pub open spec fn wf(&self) -> bool {
        &&& self.regions().len() <= max_regions()
        &&& self.range_list().len() <= max_tracked_ranges()
        &&& regions_sorted(self.regions())
        &&& tracked_well_formed(self.range_list())
        &&& tracked_disjoint(self.range_list())
        &&& free_ranges_unowned(self.range_list())
    }
}

proof fn lemma_prefix_well_formed(s: Seq<TrackedRange>)
    requires
        tracked_well_formed(s),
        s.len() > 0,
    ensures
        tracked_well_formed(s.drop_last()),
        s.last().region.well_formed(),
{
    let p = s.drop_last();
    assert forall|i: int| 0 <= i < p.len() implies (#[trigger] p[i]).region.well_formed() by {
        assert(p[i] == s[i]);
    }
    assert(s.last() == s[s.len() - 1]);
}

/// Merging keeps every range well formed and never lengthens the list.
pub proof fn lemma_merge_tracked(s: Seq<TrackedRange>)
    requires
        tracked_well_formed(s),
    ensures
        tracked_well_formed(merge_tracked(s)),
        merge_tracked(s).len() <= s.len(),
        s.len() >= 1 ==> merge_tracked(s).len() >= 1,
        s.len() == 0 ==> merge_tracked(s).len() == 0,
    decreases s.len(),
{
    if s.len() > 1 {
        let p = s.drop_last();
        lemma_prefix_well_formed(s);
        lemma_merge_tracked(p);
        let m = merge_tracked(p);
        let last = s.last();
        assert(m.last() == m[m.len() - 1]);
        if tracked_mergeable(m.last(), last) {
            let j = tracked_joined(m.last(), last);
            let md = m.drop_last();
            assert(j.region.well_formed());
            assert(merge_tracked(s) == md.push(j));
            assert forall|i: int| 0 <= i < md.push(j).len() implies (#[trigger] md.push(
                j,
            )[i]).region.well_formed() by {
                if i < md.len() {
                    assert(md.push(j)[i] == m[i]);
                }
            }
        } else {
            assert(merge_tracked(s) == m.push(last));
            assert forall|i: int| 0 <= i < m.push(last).len() implies (#[trigger] m.push(
                last,
            )[i]).region.well_formed() by {
                if i < m.len() {
                    assert(m.push(last)[i] == m[i]);
                }
            }
        }
    }
}

/// Merging keeps the page total of every state.
pub proof fn lemma_merge_pages_in_state(s: Seq<TrackedRange>, st: FrameRangeState)
    requires
        tracked_well_formed(s),
    ensures
        pages_in_state(merge_tracked(s), st) == pages_in_state(s, st),
    decreases s.len(),
{
    if s.len() > 1 {
        let p = s.drop_last();
        lemma_prefix_well_formed(s);
        lemma_merge_tracked(p);
        lemma_merge_pages_in_state(p, st);
        let m = merge_tracked(p);
        let last = s.last();
        let md = m.drop_last();
        assert(m.last() == m[m.len() - 1]);
        assert(pages_in_state(m, st) == pages_in_state(md, st) + if m.last().state == st {
            m.last().region.pages as int
        } else {
            0
        });
        if tracked_mergeable(m.last(), last) {
            let j = tracked_joined(m.last(), last);
            assert(md.push(j).drop_last() == md);
            assert(pages_in_state(md.push(j), st) == pages_in_state(md, st) + if j.state == st {
                j.region.pages as int
            } else {
                0
            });
        } else {
            assert(m.push(last).drop_last() == m);
            assert(pages_in_state(m.push(last), st) == pages_in_state(m, st) + if last.state
                == st {
                last.region.pages as int
            } else {
                0
            });
        }
    }
}

/// Merging keeps the page total of every owner.
pub proof fn lemma_merge_pages_of_owner(s: Seq<TrackedRange>, ow: FrameRangeOwner)
    requires
        tracked_well_formed(s),
    ensures
        pages_of_owner(merge_tracked(s), ow) == pages_of_owner(s, ow),
    decreases s.len(),
{
    if s.len() > 1 {
        let p = s.drop_last();
        lemma_prefix_well_formed(s);
        lemma_merge_tracked(p);
        lemma_merge_pages_of_owner(p, ow);
        let m = merge_tracked(p);
        let last = s.last();
        let md = m.drop_last();
        assert(m.last() == m[m.len() - 1]);
        assert(pages_of_owner(m, ow) == pages_of_owner(md, ow) + if m.last().owner == ow {
            m.last().region.pages as int
        } else {
            0
        });
        if tracked_mergeable(m.last(), last) {
            let j = tracked_joined(m.last(), last);
            assert(md.push(j).drop_last() == md);
            assert(pages_of_owner(md.push(j), ow) == pages_of_owner(md, ow) + if j.owner == ow {
                j.region.pages as int
            } else {
                0
            });
        } else {
            assert(m.push(last).drop_last() == m);
            assert(pages_of_owner(m.push(last), ow) == pages_of_owner(m, ow) + if last.owner
                == ow {
                last.region.pages as int
            } else {
                0
            });
        }
    }
}

/// The page sums of a list of well-formed ranges stay far below `u64::MAX`.
pub proof fn lemma_page_sums_bounded(s: Seq<TrackedRange>, st: FrameRangeState, ow: FrameRangeOwner)
    requires
        tracked_well_formed(s),
    ensures
        0 <= pages_in_state(s, st) <= s.len() * 0x000f_ffff_ffff_ffff,
        0 <= pages_of_owner(s, ow) <= s.len() * 0x000f_ffff_ffff_ffff,
    decreases s.len(),
{
    if s.len() > 0 {
        lemma_prefix_well_formed(s);
        lemma_page_sums_bounded(s.drop_last(), st, ow);
    }
}

/// Page sums distribute over concatenation.
pub proof fn lemma_page_sums_concat(
    a: Seq<TrackedRange>,
    b: Seq<TrackedRange>,
    st: FrameRangeState,
    ow: FrameRangeOwner,
)
    ensures
        pages_in_state(a + b, st) == pages_in_state(a, st) + pages_in_state(b, st),
        pages_of_owner(a + b, ow) == pages_of_owner(a, ow) + pages_of_owner(b, ow),
    decreases b.len(),
{
    if b.len() == 0 {
        assert(a + b == a);
    } else {
        lemma_page_sums_concat(a, b.drop_last(), st, ow);
        assert((a + b).drop_last() == a + b.drop_last());
        assert((a + b).last() == b.last());
    }
}

/// The frame-run facts of merging one more region onto a merged prefix.
pub proof fn lemma_merge_regions(s: Seq<Region>)
    requires
        regions_sorted(s),
    ensures
        regions_sorted(merge_regions(s)),
        merge_regions(s).len() <= s.len(),
        s.len() >= 1 ==> merge_regions(s).len() >= 1,
        s.len() >= 1 ==> merge_regions(s)[0].start == s[0].start,
        s.len() >= 1 ==> merge_regions(s).last().end() == s.last().end(),
        region_bytes(merge_regions(s)) == region_bytes(s),
    decreases s.len(),
{
    if s.len() > 1 {
        let p = s.drop_last();
        assert(regions_sorted(p)) by {
            assert forall|i: int| 0 <= i < p.len() implies (#[trigger] p[i]).fits() by {
                assert(p[i] == s[i]);
            }
            assert forall|i: int, j: int| 0 <= i < j < p.len() implies p[i].end() <= p[j].start by {
                assert(p[i] == s[i]);
                assert(p[j] == s[j]);
            }
        }
        lemma_merge_regions(p);
        let m = merge_regions(p);
        let last = s.last();
        assert(last == s[s.len() - 1]);
        assert(p.last() == s[s.len() - 2]);
        assert(m.last() == m[m.len() - 1]);
        assert(m.last().end() <= last.start);
        if region_mergeable(m.last(), last) {
            let j = region_joined(m.last(), last);
            let md = m.drop_last();
            assert(md.push(j).drop_last() == md);
            assert(m.drop_last() == md);
            assert(regions_sorted(md.push(j))) by {
                assert forall|i: int| 0 <= i < md.push(j).len() implies (#[trigger] md.push(
                    j,
                )[i]).fits() by {
                    if i < md.len() {
                        assert(md.push(j)[i] == m[i]);
                    }
                }
                assert forall|i: int, k: int| 0 <= i < k < md.push(j).len() implies md.push(
                    j,
                )[i].end() <= md.push(j)[k].start by {
                    assert(md.push(j)[i] == m[i]);
                    if k < md.len() {
                        assert(md.push(j)[k] == m[k]);
                    } else {
                        assert(m[i].end() <= m[m.len() - 1].start || i == m.len() - 1);
                    }
                }
            }
            if md.len() > 0 {
                assert(md.push(j)[0] == m[0]);
            }
        } else {
            assert(m.push(last).drop_last() == m);
            assert(regions_sorted(m.push(last))) by {
                assert forall|i: int| 0 <= i < m.push(last).len() implies (#[trigger] m.push(
                    last,
                )[i]).fits() by {
                    if i < m.len() {
                        assert(m.push(last)[i] == m[i]);
                    }
                }
                assert forall|i: int, k: int| 0 <= i < k < m.push(last).len() implies m.push(
                    last,
                )[i].end() <= m.push(last)[k].start by {
                    assert(m.push(last)[i] == m[i]);
                    if k < m.len() {
                        assert(m.push(last)[k] == m[k]);
                    } else {
                        assert(m[i].end() <= m[m.len() - 1].end());
                    }
                }
            }
            assert(m.push(last)[0] == m[0]);
        }
    }
}

/// The registered byte total of sorted regions fits within their span.
pub proof fn lemma_region_bytes_span(s: Seq<Region>)
    requires
        regions_sorted(s),
        s.len() >= 1,
    ensures
        region_bytes(s) <= s.last().end() - s[0].start,
    decreases s.len(),
{
    if s.len() > 1 {
        let p = s.drop_last();
        assert(regions_sorted(p)) by {
            assert forall|i: int| 0 <= i < p.len() implies (#[trigger] p[i]).fits() by {
                assert(p[i] == s[i]);
            }
            assert forall|i: int, j: int| 0 <= i < j < p.len() implies p[i].end() <= p[j].start by {
                assert(p[i] == s[i]);
                assert(p[j] == s[j]);
            }
        }
        lemma_region_bytes_span(p);
        assert(region_bytes(s) == region_bytes(p) + s.last().pages * 4096);
        assert(p.last() == s[s.len() - 2]);
        assert(s.last() == s[s.len() - 1]);
        assert(p[0] == s[0]);
    } else {
        assert(s.drop_last().len() == 0);
        assert(region_bytes(s.drop_last()) == 0);
        assert(region_bytes(s) == region_bytes(s.drop_last()) + s.last().pages * 4096);
        assert(s.last() == s[0]);
    }
}

proof fn lemma_tracked_insertion_point(s: Seq<TrackedRange>, start: u64, k: int)
    requires
        0 <= k <= s.len(),
        forall|j: int| 0 <= j < k ==> (#[trigger] s[j]).region.start < start,
        k == s.len() || !(s[k].region.start < start),
    ensures
        tracked_insertion_point(s, start) == k,
    decreases k,
{
    if k > 0 {
        let t = s.subrange(1, s.len() as int);
        assert(s[0].region.start < start);
        assert forall|j: int| 0 <= j < k - 1 implies (#[trigger] t[j]).region.start < start by {
            assert(t[j] == s[j + 1]);
        }
        if k < s.len() {
            assert(t[k - 1] == s[k]);
        }
        lemma_tracked_insertion_point(t, start, k - 1);
    }
}

proof fn lemma_region_insertion_point(s: Seq<Region>, start: u64, k: int)
    requires
        0 <= k <= s.len(),
        forall|j: int| 0 <= j < k ==> (#[trigger] s[j]).start < start,
        k == s.len() || !(s[k].start < start),
    ensures
        region_insertion_point(s, start) == k,
    decreases k,
{
    if k > 0 {
        let t = s.subrange(1, s.len() as int);
        assert(s[0].start < start);
        assert forall|j: int| 0 <= j < k - 1 implies (#[trigger] t[j]).start < start by {
            assert(t[j] == s[j + 1]);
        }
        if k < s.len() {
            assert(t[k - 1] == s[k]);
        }
        lemma_region_insertion_point(t, start, k - 1);
    }
}

proof fn lemma_first_fit(s: Seq<TrackedRange>, frames: u64, k: int)
    requires
        0 <= k <= s.len(),
        forall|j: int| 0 <= j < k ==> !fits_request(#[trigger] s[j], frames),
        k == s.len() || fits_request(s[k], frames),
    ensures
        first_fit(s, frames) == k,
    decreases k,
{
    if k > 0 {
        let t = s.subrange(1, s.len() as int);
        assert(!fits_request(s[0], frames));
        assert forall|j: int| 0 <= j < k - 1 implies !fits_request(#[trigger] t[j], frames) by {
            assert(t[j] == s[j + 1]);
        }
        if k < s.len() {
            assert(t[k - 1] == s[k]);
        }
        lemma_first_fit(t, frames, k - 1);
    }
}

proof fn lemma_first_free_covering(s: Seq<TrackedRange>, part: Region, k: int)
    requires
        0 <= k <= s.len(),
        forall|j: int| 0 <= j < k ==> !free_covering(#[trigger] s[j], part),
        k == s.len() || free_covering(s[k], part),
    ensures
        first_free_covering(s, part) == k,
    decreases k,
{
    if k > 0 {
        let t = s.subrange(1, s.len() as int);
        assert(!free_covering(s[0], part));
        assert forall|j: int| 0 <= j < k - 1 implies !free_covering(#[trigger] t[j], part) by {
            assert(t[j] == s[j + 1]);
        }
        if k < s.len() {
            assert(t[k - 1] == s[k]);
        }
        lemma_first_free_covering(t, part, k - 1);
    }
}

proof fn lemma_first_owned_covering(
    s: Seq<TrackedRange>,
    owner: FrameRangeOwner,
    part: Region,
    k: int,
)
    requires
        0 <= k <= s.len(),
        forall|j: int| 0 <= j < k ==> !owned_covering(#[trigger] s[j], owner, part),
        k == s.len() || owned_covering(s[k], owner, part),
    ensures
        first_owned_covering(s, owner, part) == k,
    decreases k,
{
    if k > 0 {
        let t = s.subrange(1, s.len() as int);
        assert(!owned_covering(s[0], owner, part));
        assert forall|j: int| 0 <= j < k - 1 implies !owned_covering(#[trigger] t[j], owner, part) by {
            assert(t[j] == s[j + 1]);
        }
        if k < s.len() {
            assert(t[k - 1] == s[k]);
        }
        lemma_first_owned_covering(t, owner, part, k - 1);
    }
}

proof fn lemma_merge_tracked_step(s: Seq<TrackedRange>, r: int)
    requires
        1 <= r < s.len(),
    ensures
        merge_tracked(s.subrange(0, r + 1)) == if tracked_mergeable(
            merge_tracked(s.subrange(0, r)).last(),
            s[r],
        ) {
            merge_tracked(s.subrange(0, r)).drop_last().push(
                tracked_joined(merge_tracked(s.subrange(0, r)).last(), s[r]),
            )
        } else {
            merge_tracked(s.subrange(0, r)).push(s[r])
        },
{
    assert(s.subrange(0, r + 1).drop_last() == s.subrange(0, r));
    assert(s.subrange(0, r + 1).last() == s[r]);
}

proof fn lemma_merge_regions_step(s: Seq<Region>, r: int)
    requires
        1 <= r < s.len(),
    ensures
        merge_regions(s.subrange(0, r + 1)) == if region_mergeable(
            merge_regions(s.subrange(0, r)).last(),
            s[r],
        ) {
            merge_regions(s.subrange(0, r)).drop_last().push(
                region_joined(merge_regions(s.subrange(0, r)).last(), s[r]),
            )
        } else {
            merge_regions(s.subrange(0, r)).push(s[r])
        },
{
    assert(s.subrange(0, r + 1).drop_last() == s.subrange(0, r));
    assert(s.subrange(0, r + 1).last() == s[r]);
}

proof fn lemma_subrange_well_formed(s: Seq<TrackedRange>, lo: int, hi: int)
    requires
        tracked_well_formed(s),
        0 <= lo <= hi <= s.len(),
    ensures
        tracked_well_formed(s.subrange(lo, hi)),
{
    assert forall|i: int| 0 <= i < s.subrange(lo, hi).len() implies (#[trigger] s.subrange(
        lo,
        hi,
    )[i]).region.well_formed() by {
        assert(s.subrange(lo, hi)[i] == s[lo + i]);
    }
}

proof fn lemma_regions_subrange_sorted(s: Seq<Region>, lo: int, hi: int)
    requires
        regions_sorted(s),
        0 <= lo <= hi <= s.len(),
    ensures
        regions_sorted(s.subrange(lo, hi)),
{
    let t = s.subrange(lo, hi);
    assert forall|i: int| 0 <= i < t.len() implies (#[trigger] t[i]).fits() by {
        assert(t[i] == s[lo + i]);
    }
    assert forall|i: int, j: int| 0 <= i < j < t.len() implies t[i].end() <= t[j].start by {
        assert(t[i] == s[lo + i]);
        assert(t[j] == s[lo + j]);
    }
}

/// `value` raised by `alignment - 1` with the bits below the alignment
/// cleared; `None` for a zero alignment or when the raise overflows.
pub open spec fn aligned_up(value: u64, alignment: u64) -> Option<u64> {
    if alignment == 0 || value + (alignment - 1) > u64::MAX {
        None
    } else {
        Some(((value + (alignment - 1)) as u64) & !((alignment - 1) as u64))
    }
}

/// Round `value` up to a multiple of `alignment`.
fn align_up(value: u64, alignment: u64) -> (r: Option<u64>)
    ensures
        r == aligned_up(value, alignment),
        alignment == 4096 ==> r == match round_up_to_frame(value as int) {
            Some(v) => Some(v as u64),
            None => None::<u64>,
        },
{
    let mask = match alignment.checked_sub(1) {
        Some(mask) => mask,
        None => return None,
    };
    match value.checked_add(mask) {
        Some(raised) => {
            assert(raised & !4095u64 == raised - raised % 4096) by (bit_vector);
            Some(raised & !mask)
        },
        None => None,
    }
}

/// One byte past the last frame of `region`, when that fits in `u64`.
/// Whether reserving `reserved` splits the recorded range `e` in two: `e` is
/// free and extends past `reserved` on both sides.
fn splits_free_range(e: TrackedRange, reserved: Region) -> (r: bool)
    requires
        e.region.well_formed(),
        reserved.fits(),
    ensures
        r == (carve_one(e, reserved).len() == 2),
{
    let e_end = match region_end(e.region) {
        Some(end) => end,
        None => return false,
    };
    let reserved_end = match region_end(reserved) {
        Some(end) => end,
        None => return false,
    };
    e.state == FrameRangeState::Free && reserved.pages > 0 && e.region.start < reserved.start
        && reserved_end < e_end
}

fn region_end(region: Region) -> (r: Option<u64>)
    ensures
        r is Some <==> region.end() <= u64::MAX,
        r matches Some(end) ==> end == region.end(),
{
    match region.pages.checked_mul(FRAME_SIZE) {
        Some(byte_count) => region.start.checked_add(byte_count),
        None => None,
    }
}

fn normalize_region(start: PhysAddr, frame_count: FrameCount) -> (r: Option<Region>)
    ensures
        r == conventional_region(start@, frame_count@),
{
    let start = start.as_u64();
    let byte_count = frame_count.byte_len();
    let end = match start.checked_add(byte_count) {
        Some(end) => end,
        None => return None,
    };
    let raised = if start < FRAME_SIZE {
        FRAME_SIZE
    } else {
        start
    };
    let aligned_start = match align_up(raised, FRAME_SIZE) {
        Some(aligned_start) => aligned_start,
        None => return None,
    };
    if aligned_start >= end {
        return None;
    }
    Some(Region { start: aligned_start, pages: (end - aligned_start) / FRAME_SIZE })
}

fn normalize_reserved_region(start: PhysAddr, frame_count: FrameCount) -> (r: Option<Region>)
    ensures
        r == reserved_region(start@, frame_count@),
{
    let start = start.as_u64();
    let byte_count = frame_count.byte_len();
    let end = match start.checked_add(byte_count) {
        Some(end) => end,
        None => return None,
    };
    let aligned_start = match align_up(start, FRAME_SIZE) {
        Some(aligned_start) => aligned_start,
        None => return None,
    };
    if aligned_start >= end {
        return None;
    }
    Some(Region { start: aligned_start, pages: (end - aligned_start) / FRAME_SIZE })
}

/// A normalized region is well formed.
pub proof fn lemma_normalized_well_formed(start: u64, frame_count: u64, minimum_start: u64)
    requires
        minimum_start % 4096 == 0,
    ensures
        normalized(start, frame_count, minimum_start) matches Some(r) ==> r.fits() && (r.pages
            > 0 ==> r.well_formed()),
{
    let end = start + frame_count * 4096;
    let raised: int = if start < minimum_start {
        minimum_start as int
    } else {
        start as int
    };
    if end <= u64::MAX {
        if let Some(a) = round_up_to_frame(raised) {
            if a < end {
                assert(a % 4096 == 0);
                let pages = (end - a) / 4096;
                assert(pages * 4096 <= end - a);
            }
        }
    }
}

/// Whether `region` shares no frame with any registered region.
pub open spec fn apart_from_regions(s: Seq<Region>, region: Region) -> bool {
    forall|i: int|
        0 <= i < s.len() ==> if (#[trigger] s[i]).start < region.start {
            s[i].end() <= region.start
        } else {
            region.end() <= s[i].start
        }
}

proof fn lemma_regions_insert_sorted(s: Seq<Region>, region: Region)
    requires
        regions_sorted(s),
        region.fits(),
        apart_from_regions(s, region),
    ensures
        regions_sorted(s.insert(region_insertion_point(s, region.start), region)),
        0 <= region_insertion_point(s, region.start) <= s.len(),
{
    let k = lemma_region_insertion_point_exists(s, region.start);
    let t = s.insert(k, region);
    assert forall|i: int| 0 <= i < t.len() implies (#[trigger] t[i]).fits() by {
        if i < k {
            assert(t[i] == s[i]);
        } else if i > k {
            assert(t[i] == s[i - 1]);
        }
    }
    assert forall|i: int, j: int| 0 <= i < j < t.len() implies t[i].end() <= t[j].start by {
        if j < k {
            assert(t[i] == s[i] && t[j] == s[j]);
        } else if j == k {
            assert(t[i] == s[i]);
            assert(s[i].start < region.start);
        } else if i < k {
            assert(t[i] == s[i] && t[j] == s[j - 1]);
        } else if i == k {
            assert(t[j] == s[j - 1]);
            assert(!(s[k].start < region.start));
            assert(s[k].end() <= s[j - 1].start || k == j - 1);
        } else {
            assert(t[i] == s[i - 1] && t[j] == s[j - 1]);
        }
    }
}

proof fn lemma_region_insertion_point_exists(s: Seq<Region>, start: u64) -> (k: int)
    ensures
        k == region_insertion_point(s, start),
        0 <= k <= s.len(),
        forall|j: int| 0 <= j < k ==> (#[trigger] s[j]).start < start,
        k == s.len() || !(s[k].start < start),
    decreases s.len(),
{
    if s.len() == 0 {
        0
    } else if !(s[0].start < start) {
        0
    } else {
        let t = s.subrange(1, s.len() as int);
        let k1 = lemma_region_insertion_point_exists(t, start);
        assert forall|j: int| 0 <= j < k1 + 1 implies (#[trigger] s[j]).start < start by {
            if j > 0 {
                assert(s[j] == t[j - 1]);
            }
        }
        if k1 < t.len() {
            assert(s[k1 + 1] == t[k1]);
        }
        k1 + 1
    }
}

impl PhysicalFrameAllocator {
    /// Create an empty physical frame allocator.
    pub fn new() -> (r: Self)
        ensures
            r.wf(),
            r.regions() == Seq::<Region>::empty(),
            r.range_list() == Seq::<TrackedRange>::empty(),
    {
        Self { regions: Vec::new(), tracked_ranges: Vec::new() }
    }

    fn merge_adjacent_regions(&mut self)
        requires
            regions_sorted(old(self).regions@),
            old(self).regions@.len() <= max_regions(),
        ensures
            final(self).regions@ == merge_regions(old(self).regions@),
            final(self).tracked_ranges@ == old(self).tracked_ranges@,
    {
        let n = self.regions.len();
        if n < 2 {
            return;
        }
        let ghost initial_list = self.regions@;
        let mut write_index: usize = 0;
        let mut read_index: usize = 1;
        proof {
            assert(initial_list.subrange(0, 1).len() == 1);
            assert(initial_list.subrange(0, 1) == self.regions@.subrange(0, 1));
        }
        while read_index < n
            invariant
                1 <= read_index <= n,
                write_index < read_index,
                n == initial_list.len(),
                n <= max_regions(),
                self.regions@.len() == n,
                regions_sorted(initial_list),
                self.regions@.subrange(0, write_index as int + 1) == merge_regions(
                    initial_list.subrange(0, read_index as int),
                ),
                self.regions@.subrange(read_index as int, n as int) == initial_list.subrange(
                    read_index as int,
                    n as int,
                ),
                self.tracked_ranges@ == old(self).tracked_ranges@,
            decreases n - read_index,
        {
            let ghost prefix = initial_list.subrange(0, read_index as int);
            proof {
                lemma_regions_subrange_sorted(initial_list, 0, read_index as int);
                lemma_merge_regions(prefix);
                lemma_merge_regions_step(initial_list, read_index as int);
                assert(self.regions@[read_index as int] == initial_list[read_index as int]) by {
                    assert(self.regions@.subrange(read_index as int, n as int)[0]
                        == self.regions@[read_index as int]);
                }
                assert(self.regions@[write_index as int] == merge_regions(prefix).last()) by {
                    assert(self.regions@.subrange(0, write_index as int + 1)[write_index as int]
                        == self.regions@[write_index as int]);
                }
                assert(initial_list[read_index as int].fits());
                assert(merge_regions(prefix).last().fits()) by {
                    assert(merge_regions(prefix).last() == merge_regions(prefix)[merge_regions(
                        prefix,
                    ).len() - 1]);
                }
            }
            let ghost old_regions = self.regions@;
            let current = self.regions[write_index];
            let next = self.regions[read_index];
            let mergeable = match region_end(current) {
                Some(end) => end == next.start,
                None => false,
            };
            if mergeable {
                self.regions[write_index].pages = self.regions[write_index].pages.saturating_add(
                    next.pages,
                );
                proof {
                    let m = merge_regions(prefix);
                    assert(self.regions@.subrange(0, write_index as int + 1) == m.drop_last().push(
                        region_joined(m.last(), initial_list[read_index as int]),
                    ));
                }
            } else {
                write_index = write_index + 1;
                self.regions[write_index] = next;
                proof {
                    let m = merge_regions(prefix);
                    assert(self.regions@.subrange(0, write_index as int + 1) == m.push(
                        initial_list[read_index as int],
                    ));
                }
            }
            proof {
                let ri = read_index as int + 1;
                assert forall|k: int| 0 <= k < n - ri implies self.regions@.subrange(ri, n as int)[k]
                    == initial_list.subrange(ri, n as int)[k] by {
                    assert(self.regions@[ri + k] == old_regions[ri + k]);
                    assert(old_regions.subrange(read_index as int, n as int)[k + 1] == old_regions[ri + k]);
                }
                assert(self.regions@.subrange(ri, n as int) =~= initial_list.subrange(ri, n as int));
            }
            read_index = read_index + 1;
        }
        self.regions.truncate(write_index + 1);
        proof {
            assert(initial_list.subrange(0, n as int) == initial_list);
        }
    }

    fn insert_region(&mut self, region: Region)
        requires
            old(self).wf(),
            region.fits(),
            apart_from_regions(old(self).regions(), region),
        ensures
            final(self).wf(),
            final(self).range_list() == old(self).range_list(),
            final(self).regions() == if old(self).regions().len() >= max_regions() {
                old(self).regions()
            } else {
                merge_regions(
                    old(self).regions().insert(
                        region_insertion_point(old(self).regions(), region.start),
                        region,
                    ),
                )
            },
    {
        proof {
            lemma_regions_insert_sorted(self.regions@, region);
        }
        if self.regions.len() == 0 {
            self.regions.push(region);
            proof {
                assert(old(self).regions@.insert(0, region) == seq![region]);
                assert(region_insertion_point(old(self).regions@, region.start) == 0);
            }
            return;
        }
        let mut index: usize = 0;
        while index < self.regions.len() && self.regions[index].start < region.start
            invariant
                0 <= index <= self.regions@.len(),
                self.regions@ == old(self).regions@,
                self.tracked_ranges@ == old(self).tracked_ranges@,
                forall|j: int| 0 <= j < index ==> (#[trigger] self.regions@[j]).start < region.start,
            decreases self.regions@.len() - index,
        {
            index = index + 1;
        }
        proof {
            lemma_region_insertion_point(self.regions@, region.start, index as int);
        }
        if self.regions.len() >= MAX_REGIONS {
            return;
        }
        self.regions.insert(index, region);
        self.merge_adjacent_regions();
        proof {
            lemma_merge_regions(old(self).regions@.insert(index as int, region));
        }
    }

    /// Total number of registered conventional memory in bytes.
    pub fn total_bytes(&self) -> (r: u64)
        requires
            self.wf(),
        ensures
            r == region_bytes(self.regions()),
    {
        let mut total: u64 = 0;
        let mut i: usize = 0;
        proof {
            if self.regions@.len() > 0 {
                lemma_region_bytes_span(self.regions@);
                assert(self.regions@.last() == self.regions@[self.regions@.len() - 1]);
            }
        }
        while i < self.regions.len()
            invariant
                0 <= i <= self.regions@.len(),
                self.wf(),
                total == region_bytes(self.regions@.subrange(0, i as int)),
                self.regions@.len() > 0 ==> region_bytes(self.regions@) <= u64::MAX,
            decreases self.regions@.len() - i,
        {
            proof {
                let s = self.regions@;
                lemma_regions_subrange_sorted(s, 0, i as int + 1);
                lemma_regions_subrange_sorted(s, i as int + 1, s.len() as int);
                assert(s.subrange(0, i as int + 1).drop_last() == s.subrange(0, i as int));
                assert(s.subrange(0, i as int + 1).last() == s[i as int]);
                lemma_region_bytes_concat(s.subrange(0, i as int + 1), s.subrange(i as int + 1, s.len() as int));
                assert(s.subrange(0, i as int + 1) + s.subrange(i as int + 1, s.len() as int) == s);
                lemma_region_bytes_nonnegative(s.subrange(i as int + 1, s.len() as int));
            }
            total = total + self.regions[i].pages * FRAME_SIZE;
            i = i + 1;
        }
        proof {
            assert(self.regions@.subrange(0, i as int) == self.regions@);
        }
        total
    }
}

proof fn lemma_region_bytes_concat(a: Seq<Region>, b: Seq<Region>)
    ensures
        region_bytes(a + b) == region_bytes(a) + region_bytes(b),
    decreases b.len(),
{
    if b.len() == 0 {
        assert(a + b == a);
    } else {
        lemma_region_bytes_concat(a, b.drop_last());
        assert((a + b).drop_last() == a + b.drop_last());
        assert((a + b).last() == b.last());
    }
}

proof fn lemma_region_bytes_nonnegative(s: Seq<Region>)
    ensures
        region_bytes(s) >= 0,
    decreases s.len(),
{
    if s.len() > 0 {
        lemma_region_bytes_nonnegative(s.drop_last());
    }
}

proof fn lemma_tracked_insertion_point_exists(s: Seq<TrackedRange>, start: u64) -> (k: int)
    ensures
        k == tracked_insertion_point(s, start),
        0 <= k <= s.len(),
    decreases s.len(),
{
    if s.len() == 0 {
        0
    } else if !(s[0].region.start < start) {
        0
    } else {
        let t = s.subrange(1, s.len() as int);
        let k1 = lemma_tracked_insertion_point_exists(t, start);
        k1 + 1
    }
}

proof fn lemma_insert_well_formed(s: Seq<TrackedRange>, k: int, e: TrackedRange)
    requires
        tracked_well_formed(s),
        0 <= k <= s.len(),
        e.region.well_formed(),
    ensures
        tracked_well_formed(s.insert(k, e)),
{
    let t = s.insert(k, e);
    assert forall|i: int| 0 <= i < t.len() implies (#[trigger] t[i]).region.well_formed() by {
        if i < k {
            assert(t[i] == s[i]);
        } else if i > k {
            assert(t[i] == s[i - 1]);
        }
    }
}

impl PhysicalFrameAllocator {
    fn merge_adjacent_tracked_ranges(&mut self)
        requires
            tracked_well_formed(old(self).tracked_ranges@),
        ensures
            final(self).tracked_ranges@ == merge_tracked(old(self).tracked_ranges@),
            final(self).regions@ == old(self).regions@,
    {
        let n = self.tracked_ranges.len();
        if n < 2 {
            return;
        }
        let ghost initial_list = self.tracked_ranges@;
        let mut write_index: usize = 0;
        let mut read_index: usize = 1;
        proof {
            assert(initial_list.subrange(0, 1) == self.tracked_ranges@.subrange(0, 1));
        }
        while read_index < n
            invariant
                1 <= read_index <= n,
                write_index < read_index,
                n == initial_list.len(),
                self.tracked_ranges@.len() == n,
                tracked_well_formed(initial_list),
                self.tracked_ranges@.subrange(0, write_index as int + 1) == merge_tracked(
                    initial_list.subrange(0, read_index as int),
                ),
                self.tracked_ranges@.subrange(read_index as int, n as int) == initial_list.subrange(
                    read_index as int,
                    n as int,
                ),
                self.regions@ == old(self).regions@,
            decreases n - read_index,
        {
            let ghost prefix = initial_list.subrange(0, read_index as int);
            let ghost before = self.tracked_ranges@;
            proof {
                lemma_subrange_well_formed(initial_list, 0, read_index as int);
                lemma_merge_tracked(prefix);
                lemma_merge_tracked_step(initial_list, read_index as int);
                assert(self.tracked_ranges@[read_index as int] == initial_list[read_index as int]) by {
                    assert(self.tracked_ranges@.subrange(read_index as int, n as int)[0]
                        == self.tracked_ranges@[read_index as int]);
                }
                assert(self.tracked_ranges@[write_index as int] == merge_tracked(prefix).last())
                    by {
                    assert(self.tracked_ranges@.subrange(0, write_index as int + 1)[
                        write_index as int] == self.tracked_ranges@[write_index as int]);
                }
                assert(initial_list[read_index as int].region.well_formed());
                assert(merge_tracked(prefix).last().region.well_formed()) by {
                    assert(merge_tracked(prefix).last() == merge_tracked(prefix)[merge_tracked(
                        prefix,
                    ).len() - 1]);
                }
            }
            let current = self.tracked_ranges[write_index];
            let next = self.tracked_ranges[read_index];
            let touching = match region_end(current.region) {
                Some(end) => end == next.region.start,
                None => false,
            };
            if current.state == next.state && current.owner == next.owner && touching {
                self.tracked_ranges[write_index].region.pages = self.tracked_ranges[write_index].region.pages.saturating_add(
                next.region.pages);
                proof {
                    let m = merge_tracked(prefix);
                    assert(self.tracked_ranges@.subrange(0, write_index as int + 1)
                        == m.drop_last().push(tracked_joined(m.last(), initial_list[read_index as int])));
                }
            } else {
                write_index = write_index + 1;
                self.tracked_ranges[write_index] = next;
                proof {
                    let m = merge_tracked(prefix);
                    assert(self.tracked_ranges@.subrange(0, write_index as int + 1) == m.push(
                        initial_list[read_index as int],
                    ));
                }
            }
            proof {
                let ri = read_index as int + 1;
                assert forall|k: int| 0 <= k < n - ri implies self.tracked_ranges@.subrange(
                    ri,
                    n as int,
                )[k] == initial_list.subrange(ri, n as int)[k] by {
                    assert(self.tracked_ranges@[ri + k] == before[ri + k]);
                    assert(before.subrange(read_index as int, n as int)[k + 1] == before[ri + k]);
                }
                assert(self.tracked_ranges@.subrange(ri, n as int) =~= initial_list.subrange(
                    ri,
                    n as int,
                ));
            }
            read_index = read_index + 1;
        }
        self.tracked_ranges.truncate(write_index + 1);
        proof {
            assert(initial_list.subrange(0, n as int) == initial_list);
        }
    }

    fn insert_tracked_range_at(&mut self, index: usize, range: TrackedRange)
        requires
            old(self).tracked_ranges@.len() < max_tracked_ranges(),
            index <= old(self).tracked_ranges@.len(),
        ensures
            final(self).tracked_ranges@ == old(self).tracked_ranges@.insert(index as int, range),
            final(self).regions@ == old(self).regions@,
    {
        self.tracked_ranges.insert(index, range);
    }

    fn remove_tracked_range_at(&mut self, index: usize)
        requires
            index < old(self).tracked_ranges@.len(),
        ensures
            final(self).tracked_ranges@ == old(self).tracked_ranges@.remove(index as int),
            final(self).regions@ == old(self).regions@,
    {
        self.tracked_ranges.remove(index);
    }

    fn insert_tracked_range(&mut self, region: Region, state: FrameRangeState, owner: FrameRangeOwner)
        requires
            tracked_well_formed(old(self).tracked_ranges@),
            region.fits(),
            region.pages > 0 ==> old(self).tracked_ranges@.len() < max_tracked_ranges(),
        ensures
            final(self).regions@ == old(self).regions@,
            final(self).tracked_ranges@ == if region.pages == 0 {
                old(self).tracked_ranges@
            } else {
                merge_tracked(
                    old(self).tracked_ranges@.insert(
                        tracked_insertion_point(old(self).tracked_ranges@, region.start),
                        TrackedRange { region, state, owner },
                    ),
                )
            },
            tracked_well_formed(final(self).tracked_ranges@),
    {
        if region.pages == 0 {
            return;
        }
        let mut index: usize = 0;
        while index < self.tracked_ranges.len() && self.tracked_ranges[index].region.start
            < region.start
            invariant
                0 <= index <= self.tracked_ranges@.len(),
                self.tracked_ranges@ == old(self).tracked_ranges@,
                self.regions@ == old(self).regions@,
                forall|j: int|
                    0 <= j < index ==> (#[trigger] self.tracked_ranges@[j]).region.start
                        < region.start,
            decreases self.tracked_ranges@.len() - index,
        {
            index = index + 1;
        }
        proof {
            lemma_tracked_insertion_point(self.tracked_ranges@, region.start, index as int);
            lemma_insert_well_formed(
                self.tracked_ranges@,
                index as int,
                TrackedRange { region, state, owner },
            );
        }
        self.insert_tracked_range_at(index, TrackedRange { region, state, owner });
        self.merge_adjacent_tracked_ranges();
        proof {
            lemma_merge_tracked(
                old(self).tracked_ranges@.insert(index as int, TrackedRange { region, state, owner }),
            );
        }
    }

    /// Register a conventional memory region (call before `ExitBootServices`).
    ///
    /// Frame zero is never registered; a report that covers no whole frame
    /// above it is ignored. The region is recorded in the sorted region list
    /// (dropped when that list is full) and recorded as free. The firmware
    /// memory map is disjoint, so the region shares no frame with a
    /// registered region or a recorded range; `can_add_region` tests it.
    pub fn add_region(&mut self, start: PhysAddr, frame_count: FrameCount)
        requires
            old(self).wf(),
            conventional_region(start@, frame_count@) matches Some(region) ==> {
                &&& apart_from_regions(old(self).regions(), region)
                &&& apart_from_recorded(old(self).range_list(), region)
                &&& region.pages > 0 ==> old(self).range_list().len() < max_tracked_ranges()
            },
        ensures
            final(self).wf(),
            match conventional_region(start@, frame_count@) {
                None => final(self).regions() == old(self).regions() && final(self).range_list()
                    == old(self).range_list(),
                Some(region) => {
                    &&& final(self).regions() == if old(self).regions().len() >= max_regions() {
                        old(self).regions()
                    } else {
                        merge_regions(
                            old(self).regions().insert(
                                region_insertion_point(old(self).regions(), region.start),
                                region,
                            ),
                        )
                    }
                    &&& final(self).range_list() == if region.pages == 0 {
                        old(self).range_list()
                    } else {
                        merge_tracked(
                            old(self).range_list().insert(
                                tracked_insertion_point(old(self).range_list(), region.start),
                                TrackedRange {
                                    region,
                                    state: FrameRangeState::Free,
                                    owner: FrameRangeOwner::Free,
                                },
                            ),
                        )
                    }
                },
            },
    {
        proof {
            lemma_normalized_well_formed(start@, frame_count@, 4096);
        }
        let region = match normalize_region(start, frame_count) {
            Some(region) => region,
            None => return,
        };
        self.insert_region(region);
        self.insert_tracked_range(region, FrameRangeState::Free, FrameRangeOwner::Free);
        proof {
            if region.pages > 0 {
                let k = lemma_tracked_insertion_point_exists(old(self).tracked_ranges@, region.start);
                lemma_insert_well_formed(
                    old(self).tracked_ranges@,
                    k,
                    TrackedRange { region, state: FrameRangeState::Free, owner: FrameRangeOwner::Free },
                );
                lemma_merge_tracked(
                    old(self).tracked_ranges@.insert(
                        k,
                        TrackedRange {
                            region,
                            state: FrameRangeState::Free,
                            owner: FrameRangeOwner::Free,
                        },
                    ),
                );
                lemma_insert_merge_keeps_layout(
                    old(self).tracked_ranges@,
                    k,
                    TrackedRange { region, state: FrameRangeState::Free, owner: FrameRangeOwner::Free },
                );
            }
        }
    }
}

proof fn lemma_page_sums_step(s: Seq<TrackedRange>, i: int)
    requires
        0 <= i < s.len(),
    ensures
        forall|st: FrameRangeState| #[trigger]
            pages_in_state(s.subrange(0, i + 1), st) == pages_in_state(s.subrange(0, i), st)
                + if s[i].state == st {
                s[i].region.pages as int
            } else {
                0
            },
        forall|ow: FrameRangeOwner| #[trigger]
            pages_of_owner(s.subrange(0, i + 1), ow) == pages_of_owner(s.subrange(0, i), ow)
                + if s[i].owner == ow {
                s[i].region.pages as int
            } else {
                0
            },
{
    assert(s.subrange(0, i + 1).drop_last() == s.subrange(0, i));
    assert(s.subrange(0, i + 1).last() == s[i]);
}

proof fn lemma_prefix_sums_bounded(s: Seq<TrackedRange>, i: int)
    requires
        tracked_well_formed(s),
        0 <= i <= s.len(),
        s.len() <= max_tracked_ranges(),
    ensures
        forall|st: FrameRangeState|
            0 <= #[trigger] pages_in_state(s.subrange(0, i), st) <= i * 0x000f_ffff_ffff_ffff,
        forall|ow: FrameRangeOwner|
            0 <= #[trigger] pages_of_owner(s.subrange(0, i), ow) <= i * 0x000f_ffff_ffff_ffff,
{
    lemma_subrange_well_formed(s, 0, i);
    assert forall|st: FrameRangeState|
        0 <= #[trigger] pages_in_state(s.subrange(0, i), st) <= i * 0x000f_ffff_ffff_ffff by {
        lemma_page_sums_bounded(s.subrange(0, i), st, FrameRangeOwner::Free);
    }
    assert forall|ow: FrameRangeOwner|
        0 <= #[trigger] pages_of_owner(s.subrange(0, i), ow) <= i * 0x000f_ffff_ffff_ffff by {
        lemma_page_sums_bounded(s.subrange(0, i), FrameRangeState::Free, ow);
    }
}

impl PhysicalFrameAllocator {
    /// Return page totals for reserved, free, and used recorded frame ranges.
    pub fn statistics(&self) -> (r: FrameAllocatorStatistics)
        requires
            self.wf(),
        ensures
            r.reserved == pages_in_state(self.range_list(), FrameRangeState::Reserved),
            r.free == pages_in_state(self.range_list(), FrameRangeState::Free),
            r.used == pages_in_state(self.range_list(), FrameRangeState::Used),
    {
        let mut statistics = FrameAllocatorStatistics { reserved: 0, free: 0, used: 0 };
        let mut index: usize = 0;
        let ghost s = self.tracked_ranges@;
        while index < self.tracked_ranges.len()
            invariant
                0 <= index <= s.len(),
                s == self.tracked_ranges@,
                self.wf(),
                statistics.reserved == pages_in_state(s.subrange(0, index as int), FrameRangeState::Reserved),
                statistics.free == pages_in_state(s.subrange(0, index as int), FrameRangeState::Free),
                statistics.used == pages_in_state(s.subrange(0, index as int), FrameRangeState::Used),
            decreases s.len() - index,
        {
            proof {
                lemma_page_sums_step(s, index as int);
                lemma_prefix_sums_bounded(s, index as int + 1);
            }
            let range = self.tracked_ranges[index];
            match range.state {
                FrameRangeState::Reserved => {
                    statistics.reserved = statistics.reserved.saturating_add(range.region.pages);
                },
                FrameRangeState::Free => {
                    statistics.free = statistics.free.saturating_add(range.region.pages);
                },
                FrameRangeState::Used => {
                    statistics.used = statistics.used.saturating_add(range.region.pages);
                },
            }
            index = index + 1;
        }
        proof {
            assert(s.subrange(0, s.len() as int) == s);
        }
        statistics
    }

    /// Return page totals grouped by recorded frame-range owner.
    pub fn owner_statistics(&self) -> (r: FrameAllocatorOwnerStatistics)
        requires
            self.wf(),
        ensures
            owner_totals_match(r, self.range_list()),
    {
        let mut statistics = FrameAllocatorOwnerStatistics {
            free: 0,
            firmware_reserved: 0,
            kernel_image: 0,
            mmio: 0,
            guard_page: 0,
            unknown_used: 0,
            page_table: 0,
            kernel_heap: 0,
            kernel_stack: 0,
            framebuffer_backbuffer: 0,
            ahci_dma: 0,
            dynamic_kernel_mapping: 0,
            user_stack: 0,
            user_elf: 0,
            user_heap: 0,
            user_mapping: 0,
        };
        let mut index: usize = 0;
        let ghost s = self.tracked_ranges@;
        while index < self.tracked_ranges.len()
            invariant
                0 <= index <= s.len(),
                s == self.tracked_ranges@,
                self.wf(),
                owner_totals_match(statistics, s.subrange(0, index as int)),
            decreases s.len() - index,
        {
            proof {
                lemma_page_sums_step(s, index as int);
                lemma_prefix_sums_bounded(s, index as int + 1);
            }
            let range = self.tracked_ranges[index];
            let pages = range.region.pages;
            match range.owner {
                FrameRangeOwner::Free => statistics.free = statistics.free.saturating_add(pages),
                FrameRangeOwner::FirmwareReserved => {
                    statistics.firmware_reserved = statistics.firmware_reserved.saturating_add(pages);
                },
                FrameRangeOwner::KernelImage => {
                    statistics.kernel_image = statistics.kernel_image.saturating_add(pages);
                },
                FrameRangeOwner::Mmio => statistics.mmio = statistics.mmio.saturating_add(pages),
                FrameRangeOwner::GuardPage => {
                    statistics.guard_page = statistics.guard_page.saturating_add(pages);
                },
                FrameRangeOwner::UnknownUsed => {
                    statistics.unknown_used = statistics.unknown_used.saturating_add(pages);
                },
                FrameRangeOwner::PageTable => {
                    statistics.page_table = statistics.page_table.saturating_add(pages);
                },
                FrameRangeOwner::KernelHeap => {
                    statistics.kernel_heap = statistics.kernel_heap.saturating_add(pages);
                },
                FrameRangeOwner::KernelStack => {
                    statistics.kernel_stack = statistics.kernel_stack.saturating_add(pages);
                },
                FrameRangeOwner::FramebufferBackbuffer => {
                    statistics.framebuffer_backbuffer = statistics.framebuffer_backbuffer.saturating_add(pages);
                },
                FrameRangeOwner::AhciDma => {
                    statistics.ahci_dma = statistics.ahci_dma.saturating_add(pages);
                },
                FrameRangeOwner::DynamicKernelMapping => {
                    statistics.dynamic_kernel_mapping = statistics.dynamic_kernel_mapping.saturating_add(pages);
                },
                FrameRangeOwner::UserStack => {
                    statistics.user_stack = statistics.user_stack.saturating_add(pages);
                },
                FrameRangeOwner::UserElf => {
                    statistics.user_elf = statistics.user_elf.saturating_add(pages);
                },
                FrameRangeOwner::UserHeap => {
                    statistics.user_heap = statistics.user_heap.saturating_add(pages);
                },
                FrameRangeOwner::UserMapping => {
                    statistics.user_mapping = statistics.user_mapping.saturating_add(pages);
                },
            }
            index = index + 1;
        }
        proof {
            assert(s.subrange(0, s.len() as int) == s);
        }
        statistics
    }

    /// Return the number of recorded frames owned by `owner`.
    pub fn pages_owned_by(&self, owner: FrameRangeOwner) -> (r: u64)
        requires
            self.wf(),
        ensures
            r == pages_of_owner(self.range_list(), owner),
    {
        let mut pages: u64 = 0;
        let mut index: usize = 0;
        let ghost s = self.tracked_ranges@;
        while index < self.tracked_ranges.len()
            invariant
                0 <= index <= s.len(),
                s == self.tracked_ranges@,
                self.wf(),
                pages == pages_of_owner(s.subrange(0, index as int), owner),
            decreases s.len() - index,
        {
            proof {
                lemma_page_sums_step(s, index as int);
                lemma_prefix_sums_bounded(s, index as int + 1);
            }
            let range = self.tracked_ranges[index];
            if range.owner == owner {
                pages = pages.saturating_add(range.region.pages);
            }
            index = index + 1;
        }
        proof {
            assert(s.subrange(0, s.len() as int) == s);
        }
        pages
    }
}

proof fn lemma_replace_at(s: Seq<TrackedRange>, i: int, pieces: Seq<TrackedRange>)
    requires
        tracked_well_formed(s),
        tracked_well_formed(pieces),
        0 <= i < s.len(),
    ensures
        tracked_well_formed(replace_at(s, i, pieces)),
        replace_at(s, i, pieces).len() == s.len() - 1 + pieces.len(),
{
    let t = replace_at(s, i, pieces);
    assert forall|k: int| 0 <= k < t.len() implies (#[trigger] t[k]).region.well_formed() by {
        if k < i {
            assert(t[k] == s[k]);
        } else if k < i + pieces.len() {
            assert(t[k] == pieces[k - i]);
        } else {
            assert(t[k] == s[k - pieces.len() + 1]);
        }
    }
}

proof fn lemma_split_pieces_well_formed(
    e: TrackedRange,
    part: Region,
    outer_state: FrameRangeState,
    outer_owner: FrameRangeOwner,
    state: FrameRangeState,
    owner: FrameRangeOwner,
)
    requires
        e.region.well_formed(),
        part.well_formed(),
        e.region.covers(part),
    ensures
        tracked_well_formed(split_pieces(e, part, outer_state, outer_owner, state, owner)),
        1 <= split_pieces(e, part, outer_state, outer_owner, state, owner).len() <= 3,
{
    let p = split_pieces(e, part, outer_state, outer_owner, state, owner);
    assert((part.start - e.region.start) % 4096 == 0);
    assert((e.region.end() - part.end()) % 4096 == 0);
    assert forall|k: int| 0 <= k < p.len() implies (#[trigger] p[k]).region.well_formed() by {
    }
}

impl PhysicalFrameAllocator {
    fn mark_range_used(&mut self, used_region: Region, owner: FrameRangeOwner) -> (r: bool)
        requires
            tracked_well_formed(old(self).tracked_ranges@),
            used_region.well_formed(),
            first_free_covering(old(self).tracked_ranges@, used_region)
                < old(self).tracked_ranges@.len() ==> old(self).tracked_ranges@.len()
                + split_pieces(
                old(self).tracked_ranges@[first_free_covering(
                    old(self).tracked_ranges@,
                    used_region,
                )],
                used_region,
                FrameRangeState::Free,
                FrameRangeOwner::Free,
                FrameRangeState::Used,
                owner,
            ).len() - 1 <= max_tracked_ranges(),
        ensures
            r == (first_free_covering(old(self).tracked_ranges@, used_region)
                < old(self).tracked_ranges@.len()),
            r ==> final(self).tracked_ranges@ == take_part(
                old(self).tracked_ranges@,
                first_free_covering(old(self).tracked_ranges@, used_region),
                used_region,
                owner,
            ),
            !r ==> final(self).tracked_ranges@ == old(self).tracked_ranges@,
            final(self).regions@ == old(self).regions@,
            tracked_well_formed(final(self).tracked_ranges@),
    {
        let used_end = match region_end(used_region) {
            Some(end) => end,
            None => return false,
        };
        let ghost s = self.tracked_ranges@;
        let mut index: usize = 0;
        while index < self.tracked_ranges.len()
            invariant
                0 <= index <= s.len(),
                s == self.tracked_ranges@,
                self.regions@ == old(self).regions@,
                s == old(self).tracked_ranges@,
                tracked_well_formed(s),
                used_end == used_region.end(),
                used_region.well_formed(),
                first_free_covering(s, used_region) < s.len() ==> s.len() + split_pieces(
                    s[first_free_covering(s, used_region)],
                    used_region,
                    FrameRangeState::Free,
                    FrameRangeOwner::Free,
                    FrameRangeState::Used,
                    owner,
                ).len() - 1 <= max_tracked_ranges(),
                forall|j: int| 0 <= j < index ==> !free_covering(#[trigger] s[j], used_region),
            decreases s.len() - index,
        {
            let entry = self.tracked_ranges[index];
            proof {
                assert(entry.region.well_formed());
            }
            if entry.state != FrameRangeState::Free {
                index = index + 1;
                continue;
            }
            let tracked_end = match region_end(entry.region) {
                Some(end) => end,
                None => return false,
            };
            if used_region.start < entry.region.start || used_end > tracked_end {
                index = index + 1;
                continue;
            }
            proof {
                lemma_first_free_covering(s, used_region, index as int);
                lemma_split_pieces_well_formed(
                    entry,
                    used_region,
                    FrameRangeState::Free,
                    FrameRangeOwner::Free,
                    FrameRangeState::Used,
                    owner,
                );
            }
            let ghost pieces = split_pieces(
                entry,
                used_region,
                FrameRangeState::Free,
                FrameRangeOwner::Free,
                FrameRangeState::Used,
                owner,
            );
            let before_pages = (used_region.start - entry.region.start) / FRAME_SIZE;
            let after_pages = (tracked_end - used_end) / FRAME_SIZE;
            let used = TrackedRange { region: used_region, state: FrameRangeState::Used, owner };
            self.tracked_ranges[index] = used;
            if before_pages > 0 {
                self.tracked_ranges[index] = TrackedRange {
                    region: Region { start: entry.region.start, pages: before_pages },
                    state: FrameRangeState::Free,
                    owner: FrameRangeOwner::Free,
                };
                self.insert_tracked_range_at(index + 1, used);
                if after_pages > 0 {
                    self.insert_tracked_range_at(
                        index + 2,
                        TrackedRange {
                            region: Region { start: used_end, pages: after_pages },
                            state: FrameRangeState::Free,
                            owner: FrameRangeOwner::Free,
                        },
                    );
                }
            } else if after_pages > 0 {
                self.insert_tracked_range_at(
                    index + 1,
                    TrackedRange {
                        region: Region { start: used_end, pages: after_pages },
                        state: FrameRangeState::Free,
                        owner: FrameRangeOwner::Free,
                    },
                );
            }
            proof {
                assert(self.tracked_ranges@ =~= replace_at(s, index as int, pieces));
                lemma_replace_at(s, index as int, pieces);
                lemma_merge_tracked(replace_at(s, index as int, pieces));
            }
            self.merge_adjacent_tracked_ranges();
            return true;
        }
        proof {
            lemma_first_free_covering(s, used_region, s.len() as int);
        }
        false
    }

    fn mark_range_free(&mut self, freed_region: Region, owner: FrameRangeOwner) -> (r: bool)
        requires
            tracked_well_formed(old(self).tracked_ranges@),
            freed_region.well_formed(),
            first_owned_covering(old(self).tracked_ranges@, owner, freed_region)
                < old(self).tracked_ranges@.len() ==> old(self).tracked_ranges@.len()
                + split_pieces(
                old(self).tracked_ranges@[first_owned_covering(
                    old(self).tracked_ranges@,
                    owner,
                    freed_region,
                )],
                freed_region,
                FrameRangeState::Used,
                owner,
                FrameRangeState::Free,
                FrameRangeOwner::Free,
            ).len() - 1 <= max_tracked_ranges(),
        ensures
            r == (first_owned_covering(old(self).tracked_ranges@, owner, freed_region)
                < old(self).tracked_ranges@.len()),
            r ==> final(self).tracked_ranges@ == release_part(
                old(self).tracked_ranges@,
                first_owned_covering(old(self).tracked_ranges@, owner, freed_region),
                freed_region,
                owner,
            ),
            !r ==> final(self).tracked_ranges@ == old(self).tracked_ranges@,
            final(self).regions@ == old(self).regions@,
            tracked_well_formed(final(self).tracked_ranges@),
    {
        let freed_end = match region_end(freed_region) {
            Some(end) => end,
            None => return false,
        };
        let ghost s = self.tracked_ranges@;
        let mut index: usize = 0;
        while index < self.tracked_ranges.len()
            invariant
                0 <= index <= s.len(),
                s == self.tracked_ranges@,
                self.regions@ == old(self).regions@,
                s == old(self).tracked_ranges@,
                tracked_well_formed(s),
                freed_end == freed_region.end(),
                freed_region.well_formed(),
                first_owned_covering(s, owner, freed_region) < s.len() ==> s.len() + split_pieces(
                    s[first_owned_covering(s, owner, freed_region)],
                    freed_region,
                    FrameRangeState::Used,
                    owner,
                    FrameRangeState::Free,
                    FrameRangeOwner::Free,
                ).len() - 1 <= max_tracked_ranges(),
                forall|j: int|
                    0 <= j < index ==> !owned_covering(#[trigger] s[j], owner, freed_region),
            decreases s.len() - index,
        {
            let entry = self.tracked_ranges[index];
            proof {
                assert(entry.region.well_formed());
            }
            if entry.state != FrameRangeState::Used || entry.owner != owner {
                index = index + 1;
                continue;
            }
            let tracked_end = match region_end(entry.region) {
                Some(end) => end,
                None => return false,
            };
            if freed_region.start < entry.region.start || freed_end > tracked_end {
                index = index + 1;
                continue;
            }
            proof {
                lemma_first_owned_covering(s, owner, freed_region, index as int);
                lemma_split_pieces_well_formed(
                    entry,
                    freed_region,
                    FrameRangeState::Used,
                    owner,
                    FrameRangeState::Free,
                    FrameRangeOwner::Free,
                );
            }
            let ghost pieces = split_pieces(
                entry,
                freed_region,
                FrameRangeState::Used,
                owner,
                FrameRangeState::Free,
                FrameRangeOwner::Free,
            );
            let before_pages = (freed_region.start - entry.region.start) / FRAME_SIZE;
            let after_pages = (tracked_end - freed_end) / FRAME_SIZE;
            let freed = TrackedRange {
                region: freed_region,
                state: FrameRangeState::Free,
                owner: FrameRangeOwner::Free,
            };
            self.tracked_ranges[index] = freed;
            if before_pages > 0 {
                self.tracked_ranges[index] = TrackedRange {
                    region: Region { start: entry.region.start, pages: before_pages },
                    state: FrameRangeState::Used,
                    owner,
                };
                self.insert_tracked_range_at(index + 1, freed);
                if after_pages > 0 {
                    self.insert_tracked_range_at(
                        index + 2,
                        TrackedRange {
                            region: Region { start: freed_end, pages: after_pages },
                            state: FrameRangeState::Used,
                            owner,
                        },
                    );
                }
            } else if after_pages > 0 {
                self.insert_tracked_range_at(
                    index + 1,
                    TrackedRange {
                        region: Region { start: freed_end, pages: after_pages },
                        state: FrameRangeState::Used,
                        owner,
                    },
                );
            }
            proof {
                assert(self.tracked_ranges@ =~= replace_at(s, index as int, pieces));
                lemma_replace_at(s, index as int, pieces);
                lemma_merge_tracked(replace_at(s, index as int, pieces));
            }
            self.merge_adjacent_tracked_ranges();
            return true;
        }
        proof {
            lemma_first_owned_covering(s, owner, freed_region, s.len() as int);
        }
        false
    }
}

/// Whether an allocation of `frames` frames can be recorded without
/// exceeding the tracked range capacity.
pub open spec fn allocation_fits_capacity(s: Seq<TrackedRange>, frames: u64) -> bool {
    first_fit(s, frames) < s.len() && s[first_fit(s, frames)].region.pages > frames
        ==> s.len() < max_tracked_ranges()
}

/// Whether releasing `part` for `owner` can be recorded without exceeding the
/// tracked range capacity.
pub open spec fn release_fits_capacity(
    s: Seq<TrackedRange>,
    owner: FrameRangeOwner,
    part: Region,
) -> bool {
    first_owned_covering(s, owner, part) < s.len() ==> s.len() + split_pieces(
        s[first_owned_covering(s, owner, part)],
        part,
        FrameRangeState::Used,
        owner,
        FrameRangeState::Free,
        FrameRangeOwner::Free,
    ).len() - 1 <= max_tracked_ranges()
}

/// The frames of a physical frame range, as a run.
pub open spec fn frame_run(range: PhysicalFrameRange) -> Region {
    Region { start: range@.0, pages: range@.1 }
}

impl PhysicalFrameAllocator {
    /// Allocate a single 4KiB frame.
    pub fn allocate_frame(&mut self) -> (r: Option<PhysicalFrameStart>)
        requires
            old(self).wf(),
            allocation_fits_capacity(old(self).range_list(), 1),
        ensures
            final(self).wf(),
            final(self).regions() == old(self).regions(),
            r is Some <==> first_fit(old(self).range_list(), 1) < old(self).range_list().len(),
            r matches Some(frame) ==> {
                &&& frame@ == first_fit_part(old(self).range_list(), 1).start
                &&& apart_from_held(old(self).range_list(), Region { start: frame@, pages: 1 })
                &&& final(self).range_list() == allocation_result(
                    old(self).range_list(),
                    1,
                    FrameRangeOwner::UnknownUsed,
                )
            },
            r is None ==> final(self).range_list() == old(self).range_list(),
    {
        self.allocate_frame_for(FrameRangeOwner::UnknownUsed)
    }

    /// Allocate a single 4KiB frame for `owner`.
    pub fn allocate_frame_for(&mut self, owner: FrameRangeOwner) -> (r: Option<PhysicalFrameStart>)
        requires
            old(self).wf(),
            owner != FrameRangeOwner::Free,
            allocation_fits_capacity(old(self).range_list(), 1),
        ensures
            final(self).wf(),
            final(self).regions() == old(self).regions(),
            r is Some <==> first_fit(old(self).range_list(), 1) < old(self).range_list().len(),
            r matches Some(frame) ==> {
                &&& frame@ == first_fit_part(old(self).range_list(), 1).start
                &&& apart_from_held(old(self).range_list(), Region { start: frame@, pages: 1 })
                &&& final(self).range_list() == allocation_result(
                    old(self).range_list(),
                    1,
                    owner,
                )
            },
            r is None ==> final(self).range_list() == old(self).range_list(),
    {
        let count = FrameCount::new(1).expect("single-frame count must be valid");
        match self.allocate_frames_for(count, owner) {
            Some(range) => Some(range.start()),
            None => None,
        }
    }

    /// Allocate a contiguous 4KiB frame range.
    /// Contiguous allocation is only guaranteed within a single region.
    pub fn allocate_frames(&mut self, frame_count: FrameCount) -> (r: Option<PhysicalFrameRange>)
        requires
            old(self).wf(),
            allocation_fits_capacity(old(self).range_list(), frame_count@),
        ensures
            final(self).wf(),
            final(self).regions() == old(self).regions(),
            r is Some <==> first_fit(old(self).range_list(), frame_count@)
                < old(self).range_list().len(),
            r matches Some(range) ==> {
                &&& frame_run(range) == first_fit_part(old(self).range_list(), frame_count@)
                &&& apart_from_held(old(self).range_list(), frame_run(range))
                &&& final(self).range_list() == allocation_result(
                    old(self).range_list(),
                    frame_count@,
                    FrameRangeOwner::UnknownUsed,
                )
            },
            r is None ==> final(self).range_list() == old(self).range_list(),
    {
        self.allocate_frames_for(frame_count, FrameRangeOwner::UnknownUsed)
    }

    /// Allocate a contiguous 4KiB frame range for `owner`.
    ///
    /// The frames are taken from the start of the first free tracked range,
    /// in list order, that holds at least `frame_count` frames.
    pub fn allocate_frames_for(&mut self, frame_count: FrameCount, owner: FrameRangeOwner) -> (r:
        Option<PhysicalFrameRange>)
        requires
            old(self).wf(),
            owner != FrameRangeOwner::Free,
            allocation_fits_capacity(old(self).range_list(), frame_count@),
        ensures
            final(self).wf(),
            final(self).regions() == old(self).regions(),
            r is Some <==> first_fit(old(self).range_list(), frame_count@)
                < old(self).range_list().len(),
            r matches Some(range) ==> {
                &&& frame_run(range) == first_fit_part(old(self).range_list(), frame_count@)
                &&& apart_from_held(old(self).range_list(), frame_run(range))
                &&& final(self).range_list() == allocation_result(
                    old(self).range_list(),
                    frame_count@,
                    owner,
                )
            },
            r is None ==> final(self).range_list() == old(self).range_list(),
    {
        let frames = frame_count.as_u64();
        let ghost s = self.tracked_ranges@;
        let mut index: usize = 0;
        while index < self.tracked_ranges.len()
            invariant
                0 <= index <= s.len(),
                s == self.tracked_ranges@,
                s == old(self).tracked_ranges@,
                self.regions@ == old(self).regions@,
                old(self).wf(),
                frames == frame_count@,
                0 < frames <= 0x000f_ffff_ffff_ffff,
                owner != FrameRangeOwner::Free,
                allocation_fits_capacity(s, frames),
                forall|j: int| 0 <= j < index ==> !fits_request(#[trigger] s[j], frames),
            decreases s.len() - index,
        {
            let entry = self.tracked_ranges[index];
            if entry.state != FrameRangeState::Free || entry.region.pages < frames {
                index = index + 1;
                continue;
            }
            let candidate = Region { start: entry.region.start, pages: frames };
            proof {
                lemma_first_fit(s, frames, index as int);
                assert(entry.region.well_formed());
                assert(candidate.well_formed());
                assert forall|j: int| 0 <= j < index implies !free_covering(#[trigger] s[j], candidate) by {
                    assert(!fits_request(s[j], frames));
                }
                lemma_first_free_covering(s, candidate, index as int);
                lemma_split_pieces_well_formed(
                    entry,
                    candidate,
                    FrameRangeState::Free,
                    FrameRangeOwner::Free,
                    FrameRangeState::Used,
                    owner,
                );
            }
            if self.mark_range_used(candidate, owner) {
                let start = PhysicalFrameStart::new(PhysAddr::new(candidate.start)).expect(
                    "frame allocator returned an unaligned physical frame",
                );
                proof {
                    let t = replace_at(s, index as int, split_pieces(
                        entry,
                        candidate,
                        FrameRangeState::Free,
                        FrameRangeOwner::Free,
                        FrameRangeState::Used,
                        owner,
                    ));
                    lemma_replace_at(s, index as int, split_pieces(
                        entry,
                        candidate,
                        FrameRangeState::Free,
                        FrameRangeOwner::Free,
                        FrameRangeState::Used,
                        owner,
                    ));
                    lemma_merge_tracked(t);
                    lemma_split_merge_keeps_layout(
                        s,
                        index as int,
                        candidate,
                        FrameRangeState::Free,
                        FrameRangeOwner::Free,
                        FrameRangeState::Used,
                        owner,
                    );
                    assert forall|k: int|
                        0 <= k < s.len() && (#[trigger] s[k]).state != FrameRangeState::Free implies !regions_overlap(
                            s[k].region,
                            candidate,
                        ) by {
                        assert(k != index);
                        assert(!regions_overlap(s[k].region, s[index as int].region));
                    }
                }
                return PhysicalFrameRange::new(start, frame_count);
            }
            index = index + 1;
        }
        proof {
            lemma_first_fit(s, frames, s.len() as int);
        }
        None
    }

    /// Whether an allocation of `frame_count` frames can be recorded: when
    /// it takes only part of the free range it comes from, the range list
    /// needs room for one more range. Callers test this before allocating.
    pub fn allocation_fits(&self, frame_count: u64) -> (r: bool)
        requires
            self.wf(),
        ensures
            r == allocation_fits_capacity(self.range_list(), frame_count),
    {
        let ghost s = self.tracked_ranges@;
        let mut index: usize = 0;
        while index < self.tracked_ranges.len()
            invariant
                0 <= index <= s.len(),
                s == self.tracked_ranges@,
                forall|j: int| 0 <= j < index ==> !fits_request(#[trigger] s[j], frame_count),
            decreases s.len() - index,
        {
            let entry = self.tracked_ranges[index];
            if entry.state == FrameRangeState::Free && entry.region.pages >= frame_count {
                proof {
                    lemma_first_fit(s, frame_count, index as int);
                }
                return entry.region.pages <= frame_count || self.tracked_ranges.len() < MAX_TRACKED_RANGES;
            }
            index = index + 1;
        }
        proof {
            lemma_first_fit(s, frame_count, s.len() as int);
        }
        true
    }

    /// Return owned frames to the free pool when the expected owner matches.
    ///
    /// The first tracked range used by `owner` that covers the frames is
    /// split around them; nothing changes when there is none.
    pub fn free_frames_for(&mut self, range: PhysicalFrameRange, owner: FrameRangeOwner) -> (r:
        bool)
        requires
            old(self).wf(),
            owner != FrameRangeOwner::Free ==> release_fits_capacity(
                old(self).range_list(),
                owner,
                frame_run(range),
            ),
        ensures
            final(self).wf(),
            final(self).regions() == old(self).regions(),
            r == (owner != FrameRangeOwner::Free && first_owned_covering(
                old(self).range_list(),
                owner,
                frame_run(range),
            ) < old(self).range_list().len()),
            r ==> final(self).range_list() == release_part(
                old(self).range_list(),
                first_owned_covering(old(self).range_list(), owner, frame_run(range)),
                frame_run(range),
                owner,
            ),
            !r ==> final(self).range_list() == old(self).range_list(),
    {
        if owner == FrameRangeOwner::Free {
            return false;
        }
        let start = range.start().as_u64();
        let pages = range.frame_count().as_u64();
        let region = Region { start, pages };
        proof {
            assert(region == frame_run(range));
            let s = old(self).tracked_ranges@;
            let i = first_owned_covering(s, owner, region);
            if i < s.len() {
                lemma_first_owned_covering_found(s, owner, region);
                lemma_split_pieces_well_formed(
                    s[i],
                    region,
                    FrameRangeState::Used,
                    owner,
                    FrameRangeState::Free,
                    FrameRangeOwner::Free,
                );
                lemma_replace_at(s, i, split_pieces(
                    s[i],
                    region,
                    FrameRangeState::Used,
                    owner,
                    FrameRangeState::Free,
                    FrameRangeOwner::Free,
                ));
                lemma_merge_tracked(replace_at(s, i, split_pieces(
                    s[i],
                    region,
                    FrameRangeState::Used,
                    owner,
                    FrameRangeState::Free,
                    FrameRangeOwner::Free,
                )));
                lemma_split_merge_keeps_layout(
                    s,
                    i,
                    region,
                    FrameRangeState::Used,
                    owner,
                    FrameRangeState::Free,
                    FrameRangeOwner::Free,
                );
            }
        }
        self.mark_range_free(region, owner)
    }
}

proof fn lemma_first_owned_covering_found(s: Seq<TrackedRange>, owner: FrameRangeOwner, part: Region)
    requires
        first_owned_covering(s, owner, part) < s.len(),
    ensures
        0 <= first_owned_covering(s, owner, part),
        owned_covering(s[first_owned_covering(s, owner, part)], owner, part),
    decreases s.len(),
{
    if s.len() > 0 && !owned_covering(s[0], owner, part) {
        let t = s.subrange(1, s.len() as int);
        lemma_first_owned_covering_found(t, owner, part);
        assert(s[first_owned_covering(s, owner, part)] == t[first_owned_covering(t, owner, part)]);
    }
}

proof fn lemma_carve_step(t: Seq<TrackedRange>, reserved: Region, j: int)
    requires
        0 <= j < t.len(),
    ensures
        carve_free(t.subrange(0, j + 1), reserved) == carve_free(t.subrange(0, j), reserved)
            + carve_one(t[j], reserved),
        split_count(t.subrange(0, j + 1), reserved) == split_count(t.subrange(0, j), reserved)
            + if carve_one(t[j], reserved).len() == 2 {
            1int
        } else {
            0
        },
{
    assert(t.subrange(0, j + 1).drop_last() == t.subrange(0, j));
    assert(t.subrange(0, j + 1).last() == t[j]);
}

proof fn lemma_split_count_nonnegative(t: Seq<TrackedRange>, reserved: Region)
    ensures
        split_count(t, reserved) >= 0,
    decreases t.len(),
{
    if t.len() > 0 {
        lemma_split_count_nonnegative(t.drop_last(), reserved);
    }
}

proof fn lemma_split_count_prefix(t: Seq<TrackedRange>, reserved: Region, j: int)
    requires
        0 <= j <= t.len(),
    ensures
        0 <= split_count(t.subrange(0, j), reserved) <= split_count(t, reserved),
    decreases t.len() - j,
{
    if j == t.len() {
        assert(t.subrange(0, j) == t);
        lemma_split_count_nonnegative(t, reserved);
    } else {
        lemma_split_count_prefix(t, reserved, j + 1);
        lemma_carve_step(t, reserved, j);
        lemma_split_count_nonnegative(t.subrange(0, j), reserved);
    }
}

proof fn lemma_carve_one_well_formed(e: TrackedRange, reserved: Region)
    requires
        e.region.well_formed(),
        reserved.fits(),
    ensures
        tracked_well_formed(carve_one(e, reserved)),
        carve_one(e, reserved).len() <= 2,
        carve_one(e, reserved).len() == 2 ==> free_overlaps(e, reserved),
{
    let c = carve_one(e, reserved);
    if free_overlaps(e, reserved) {
        assert((overlap_start(e, reserved) - e.region.start) % 4096 == 0);
        assert((e.region.end() - overlap_end(e, reserved)) % 4096 == 0);
    }
    assert forall|k: int| 0 <= k < c.len() implies (#[trigger] c[k]).region.well_formed() by {
    }
}

proof fn lemma_carve_well_formed(t: Seq<TrackedRange>, reserved: Region)
    requires
        tracked_well_formed(t),
        reserved.fits(),
    ensures
        tracked_well_formed(carve_free(t, reserved)),
        carve_free(t, reserved).len() <= t.len() + split_count(t, reserved),
    decreases t.len(),
{
    if t.len() > 0 {
        lemma_prefix_well_formed(t);
        lemma_carve_well_formed(t.drop_last(), reserved);
        lemma_carve_one_well_formed(t.last(), reserved);
        let a = carve_free(t.drop_last(), reserved);
        let b = carve_one(t.last(), reserved);
        assert forall|k: int| 0 <= k < (a + b).len() implies (#[trigger] (a
            + b)[k]).region.well_formed() by {
            if k < a.len() {
                assert((a + b)[k] == a[k]);
            } else {
                assert((a + b)[k] == b[k - a.len()]);
            }
        }
    }
}

impl PhysicalFrameAllocator {
    fn remove_reserved_region_from_free_ranges(&mut self, reserved_region: Region)
        requires
            tracked_well_formed(old(self).tracked_ranges@),
            reserved_region.fits(),
            old(self).tracked_ranges@.len() + split_count(
                old(self).tracked_ranges@,
                reserved_region,
            ) <= max_tracked_ranges(),
        ensures
            final(self).tracked_ranges@ == merge_tracked(
                carve_free(old(self).tracked_ranges@, reserved_region),
            ),
            final(self).regions@ == old(self).regions@,
            tracked_well_formed(final(self).tracked_ranges@),
            final(self).tracked_ranges@.len() <= max_tracked_ranges(),
    {
        let ghost t = self.tracked_ranges@;
        proof {
            lemma_carve_well_formed(t, reserved_region);
            lemma_merge_tracked(carve_free(t, reserved_region));
        }
        let reserved_end = match region_end(reserved_region) {
            Some(end) => end,
            None => {
                proof {
                    assert(false);
                }
                return;
            },
        };
        let mut index: usize = 0;
        let ghost mut j: int = 0;
        proof {
            assert(carve_free(t.subrange(0, 0), reserved_region) == Seq::<TrackedRange>::empty());
            assert(self.tracked_ranges@ =~= carve_free(t.subrange(0, 0), reserved_region)
                + t.subrange(0, t.len() as int));
        }
        while index < self.tracked_ranges.len()
            invariant
                0 <= j <= t.len(),
                index == carve_free(t.subrange(0, j), reserved_region).len(),
                self.tracked_ranges@ == carve_free(t.subrange(0, j), reserved_region)
                    + t.subrange(j, t.len() as int),
                self.regions@ == old(self).regions@,
                t == old(self).tracked_ranges@,
                tracked_well_formed(t),
                reserved_region.fits(),
                reserved_end == reserved_region.end(),
                carve_free(t.subrange(0, j), reserved_region).len() <= j + split_count(
                    t.subrange(0, j),
                    reserved_region,
                ),
                t.len() + split_count(t, reserved_region) <= max_tracked_ranges(),
            decreases t.len() - j,
        {
            let ghost before = self.tracked_ranges@;
            let ghost done = carve_free(t.subrange(0, j), reserved_region);
            proof {
                assert(before[index as int] == t[j]);
                lemma_carve_step(t, reserved_region, j);
                lemma_carve_one_well_formed(t[j], reserved_region);
                lemma_split_count_prefix(t, reserved_region, j + 1);
                assert(t[j].region.well_formed());
            }
            let entry = self.tracked_ranges[index];
            if entry.state != FrameRangeState::Free {
                index = index + 1;
            } else {
                let entry_end = match region_end(entry.region) {
                    Some(end) => end,
                    None => {
                        proof {
                            assert(false);
                        }
                        return;
                    },
                };
                let overlap_start = if entry.region.start < reserved_region.start {
                    reserved_region.start
                } else {
                    entry.region.start
                };
                let overlap_end = if entry_end < reserved_end {
                    entry_end
                } else {
                    reserved_end
                };
                if overlap_start >= overlap_end {
                    index = index + 1;
                } else {
                    let before_pages = (overlap_start - entry.region.start) / FRAME_SIZE;
                    let after_pages = (entry_end - overlap_end) / FRAME_SIZE;
                    if before_pages > 0 && after_pages > 0 {
                        self.tracked_ranges[index].region.pages = before_pages;
                        self.insert_tracked_range_at(
                            index + 1,
                            TrackedRange {
                                region: Region { start: overlap_end, pages: after_pages },
                                state: FrameRangeState::Free,
                                owner: FrameRangeOwner::Free,
                            },
                        );
                        index = index + 2;
                    } else if before_pages > 0 {
                        self.tracked_ranges[index].region.pages = before_pages;
                        index = index + 1;
                    } else if after_pages > 0 {
                        self.tracked_ranges[index].region.start = overlap_end;
                        self.tracked_ranges[index].region.pages = after_pages;
                        index = index + 1;
                    } else {
                        self.remove_tracked_range_at(index);
                    }
                }
            }
            proof {
                let c = carve_one(t[j], reserved_region);
                assert(before =~= done + t.subrange(j, t.len() as int));
                assert(self.tracked_ranges@ =~= (done + c) + t.subrange(j + 1, t.len() as int));
                j = j + 1;
            }
        }
        proof {
            assert(t.subrange(0, t.len() as int) == t);
            assert(self.tracked_ranges@ =~= carve_free(t, reserved_region));
        }
        self.merge_adjacent_tracked_ranges();
    }
}


impl PhysicalFrameAllocator {
    /// Register a reserved physical memory region.
    pub fn reserve_region(&mut self, start: PhysAddr, frame_count: FrameCount)
        requires
            old(self).wf(),
            reserved_region(start@, frame_count@) matches Some(region) ==> {
                &&& reservation_fits_capacity(old(self).range_list(), region, FrameRangeOwner::FirmwareReserved)
                &&& apart_from_held(old(self).range_list(), region)
            },
        ensures
            final(self).wf(),
            final(self).regions() == old(self).regions(),
            final(self).range_list() == match reserved_region(start@, frame_count@) {
                None => old(self).range_list(),
                Some(region) => reservation_result(
                    old(self).range_list(),
                    region,
                    FrameRangeOwner::FirmwareReserved,
                ),
            },
    {
        self.reserve_region_for(start, frame_count, FrameRangeOwner::FirmwareReserved);
    }

    /// Register a reserved physical memory region with an explicit owner.
    ///
    /// The frames are recorded as reserved for `owner`, and then taken out
    /// of every free range that overlaps them. They share no frame with a
    /// reserved or used range; `can_reserve_region_for` tests it.
    pub fn reserve_region_for(&mut self, start: PhysAddr, frame_count: FrameCount, owner: FrameRangeOwner)
        requires
            old(self).wf(),
            reserved_region(start@, frame_count@) matches Some(region) ==> {
                &&& reservation_fits_capacity(old(self).range_list(), region, owner)
                &&& apart_from_held(old(self).range_list(), region)
            },
        ensures
            final(self).wf(),
            final(self).regions() == old(self).regions(),
            final(self).range_list() == match reserved_region(start@, frame_count@) {
                None => old(self).range_list(),
                Some(region) => reservation_result(old(self).range_list(), region, owner),
            },
    {
        proof {
            lemma_normalized_well_formed(start@, frame_count@, 0);
        }
        let region = match normalize_reserved_region(start, frame_count) {
            Some(region) => region,
            None => return,
        };
        self.insert_tracked_range(region, FrameRangeState::Reserved, owner);
        proof {
            let s = old(self).tracked_ranges@;
            if region.pages > 0 {
                let k = lemma_tracked_insertion_point_exists(s, region.start);
                let e = TrackedRange { region, state: FrameRangeState::Reserved, owner };
                lemma_insert_well_formed(s, k, e);
                lemma_merge_tracked(s.insert(k, e));
            }
            assert(self.tracked_ranges@ == with_reservation(s, region, owner));
            lemma_reservation_layout(s, region, owner);
        }
        self.remove_reserved_region_from_free_ranges(region);
    }

    /// Whether `free_frames_for` can record the release of `range` for
    /// `owner` within the tracking capacity.
    pub fn can_free_frames_for(&self, range: PhysicalFrameRange, owner: FrameRangeOwner) -> (r: bool)
        requires
            self.wf(),
        ensures
            r == (owner != FrameRangeOwner::Free ==> release_fits_capacity(
                self.range_list(),
                owner,
                frame_run(range),
            )),
    {
        if owner == FrameRangeOwner::Free {
            return true;
        }
        let part = Region { start: range.start().as_u64(), pages: range.frame_count().as_u64() };
        let part_end = match region_end(part) {
            Some(end) => end,
            None => return false,
        };
        let ghost s = self.tracked_ranges@;
        let mut index: usize = 0;
        while index < self.tracked_ranges.len()
            invariant
                0 <= index <= s.len(),
                s == self.tracked_ranges@,
                self.wf(),
                part == frame_run(range),
                part.start % 4096 == 0,
                part_end == part.end(),
                owner != FrameRangeOwner::Free,
                forall|j: int| 0 <= j < index ==> !owned_covering(#[trigger] s[j], owner, part),
            decreases s.len() - index,
        {
            let entry = self.tracked_ranges[index];
            proof {
                assert(entry.region.well_formed());
            }
            let entry_end = match region_end(entry.region) {
                Some(end) => end,
                None => {
                    index = index + 1;
                    continue;
                },
            };
            if entry.state == FrameRangeState::Used && entry.owner == owner && entry.region.start
                <= part.start && part_end <= entry_end {
                proof {
                    lemma_first_owned_covering(s, owner, part, index as int);
                }
                let before: usize = if part.start > entry.region.start {
                    1
                } else {
                    0
                };
                let after: usize = if part_end < entry_end {
                    1
                } else {
                    0
                };
                proof {
                    let pieces = split_pieces(
                        entry,
                        part,
                        FrameRangeState::Used,
                        owner,
                        FrameRangeState::Free,
                        FrameRangeOwner::Free,
                    );
                    assert(entry.region.start % 4096 == 0);
                    assert(part.start % 4096 == 0);
                    assert((part.start > entry.region.start) == ((part.start - entry.region.start) / 4096 > 0));
                    assert((part_end < entry_end) == ((entry_end - part_end) / 4096 > 0));
                    assert(pieces.len() == 1 + before + after);
                }
                return self.tracked_ranges.len() + before + after <= MAX_TRACKED_RANGES;
            }
            index = index + 1;
        }
        proof {
            lemma_first_owned_covering(s, owner, part, s.len() as int);
        }
        true
    }

    /// Whether `region` shares no frame with the recorded ranges: with every
    /// one, or when `held_only`, with every reserved or used one.
    fn region_apart_from_ranges(&self, region: Region, held_only: bool) -> (r: bool)
        requires
            self.wf(),
            region.fits(),
        ensures
            r == if held_only {
                apart_from_held(self.range_list(), region)
            } else {
                apart_from_recorded(self.range_list(), region)
            },
    {
        let region_last = match region_end(region) {
            Some(end) => end,
            None => return false,
        };
        let ghost s = self.tracked_ranges@;
        let mut index: usize = 0;
        while index < self.tracked_ranges.len()
            invariant
                index <= s.len(),
                s == self.tracked_ranges@,
                tracked_well_formed(s),
                region_last == region.end(),
                forall|k: int|
                    0 <= k < index && (!held_only || (#[trigger] s[k]).state != FrameRangeState::Free)
                        ==> !regions_overlap(s[k].region, region),
            decreases s.len() - index,
        {
            let entry = self.tracked_ranges[index];
            proof {
                assert(s[index as int].region.well_formed());
            }
            let entry_end = match region_end(entry.region) {
                Some(end) => end,
                None => return false,
            };
            if (!held_only || entry.state != FrameRangeState::Free) && entry.region.start < region_last
                && region.start < entry_end {
                proof {
                    assert(regions_overlap(s[index as int].region, region));
                }
                return false;
            }
            index += 1;
        }
        true
    }

    /// Whether `add_region` can register this region: it lies apart from
    /// every registered region and its range fits in the tracking capacity.
    pub fn can_add_region(&self, start: PhysAddr, frame_count: FrameCount) -> (r: bool)
        requires
            self.wf(),
        ensures
            r == (conventional_region(start@, frame_count@) matches Some(region) ==> {
                &&& apart_from_regions(self.regions(), region)
                &&& apart_from_recorded(self.range_list(), region)
                &&& region.pages > 0 ==> self.range_list().len() < max_tracked_ranges()
            }),
    {
        proof {
            lemma_normalized_well_formed(start@, frame_count@, 4096);
        }
        let region = match normalize_region(start, frame_count) {
            Some(region) => region,
            None => return true,
        };
        if region.pages > 0 && self.tracked_ranges.len() >= MAX_TRACKED_RANGES {
            return false;
        }
        let new_end = match region_end(region) {
            Some(end) => end,
            None => return true,
        };
        let mut index: usize = 0;
        while index < self.regions.len()
            invariant
                index <= self.regions@.len(),
                new_end == region.end(),
                conventional_region(start@, frame_count@) == Some(region),
                region.pages > 0 ==> self.tracked_ranges@.len() < max_tracked_ranges(),
                regions_sorted(self.regions@),
                forall|i: int|
                    0 <= i < index ==> if (#[trigger] self.regions@[i]).start < region.start {
                        self.regions@[i].end() <= region.start
                    } else {
                        region.end() <= self.regions@[i].start
                    },
            decreases self.regions@.len() - index,
        {
            let existing = self.regions[index];
            let existing_end = match region_end(existing) {
                Some(end) => end,
                None => {
                    proof {
                        assert(self.regions@[index as int].fits());
                    }
                    return false;
                },
            };
            let apart = if existing.start < region.start {
                existing_end <= region.start
            } else {
                new_end <= existing.start
            };
            if !apart {
                proof {
                    assert(self.regions@[index as int] == existing);
                    assert(!apart_from_regions(self.regions(), region));
                }
                return false;
            }
            index += 1;
        }
        self.region_apart_from_ranges(region, false)
    }

    /// Whether `reserve_region_for` can record this reservation within the
    /// tracking capacity.
    pub fn can_reserve_region_for(
        &self,
        start: PhysAddr,
        frame_count: FrameCount,
        owner: FrameRangeOwner,
    ) -> (r: bool)
        requires
            self.wf(),
        ensures
            r == (reserved_region(start@, frame_count@) matches Some(region) ==> {
                &&& reservation_fits_capacity(self.range_list(), region, owner)
                &&& apart_from_held(self.range_list(), region)
            }),
    {
        proof {
            lemma_normalized_well_formed(start@, frame_count@, 0);
        }
        let region = match normalize_reserved_region(start, frame_count) {
            Some(region) => region,
            None => return true,
        };
        if region.pages > 0 && self.tracked_ranges.len() >= MAX_TRACKED_RANGES {
            return false;
        }
        let ghost s = self.tracked_ranges@;
        let mut scratch = PhysicalFrameAllocator {
            regions: Vec::new(),
            tracked_ranges: Vec::new(),
        };
        let mut copied: usize = 0;
        while copied < self.tracked_ranges.len()
            invariant
                copied <= s.len(),
                s == self.tracked_ranges@,
                scratch.tracked_ranges@ == s.subrange(0, copied as int),
            decreases s.len() - copied,
        {
            scratch.tracked_ranges.push(self.tracked_ranges[copied]);
            copied += 1;
            proof {
                assert(scratch.tracked_ranges@ =~= s.subrange(0, copied as int));
            }
        }
        proof {
            assert(scratch.tracked_ranges@ =~= s);
        }
        scratch.insert_tracked_range(region, FrameRangeState::Reserved, owner);
        let ghost w = scratch.tracked_ranges@;
        proof {
            if region.pages > 0 {
                let k = lemma_tracked_insertion_point_exists(s, region.start);
                let e = TrackedRange { region, state: FrameRangeState::Reserved, owner };
                lemma_insert_well_formed(s, k, e);
                lemma_merge_tracked(s.insert(k, e));
            }
            assert(w == with_reservation(s, region, owner));
        }
        let mut index: usize = 0;
        let mut splits: usize = 0;
        while index < scratch.tracked_ranges.len()
            invariant
                index <= w.len(),
                w == scratch.tracked_ranges@,
                tracked_well_formed(w),
                region.fits(),
                splits <= index,
                splits == split_count(w.subrange(0, index as int), region),
            decreases w.len() - index,
        {
            let split = splits_free_range(scratch.tracked_ranges[index], region);
            proof {
                assert(w.subrange(0, index + 1).drop_last() =~= w.subrange(0, index as int));
                assert(w.subrange(0, index + 1).last() == w[index as int]);
            }
            if split {
                splits += 1;
            }
            index += 1;
        }
        proof {
            assert(w.subrange(0, w.len() as int) =~= w);
        }
        splits <= MAX_TRACKED_RANGES && scratch.tracked_ranges.len() <= MAX_TRACKED_RANGES - splits
            && self.region_apart_from_ranges(region, true)
    }
}


proof fn lemma_first_fit_found(s: Seq<TrackedRange>, frames: u64)
    requires
        first_fit(s, frames) < s.len(),
    ensures
        0 <= first_fit(s, frames),
        fits_request(s[first_fit(s, frames)], frames),
    decreases s.len(),
{
    if s.len() > 0 && !fits_request(s[0], frames) {
        let t = s.subrange(1, s.len() as int);
        lemma_first_fit_found(t, frames);
        assert(s[first_fit(s, frames)] == t[first_fit(t, frames)]);
    }
}

proof fn lemma_page_sums_single(x: TrackedRange, st: FrameRangeState, ow: FrameRangeOwner)
    ensures
        pages_in_state(seq![x], st) == if x.state == st {
            x.region.pages as int
        } else {
            0
        },
        pages_of_owner(seq![x], ow) == if x.owner == ow {
            x.region.pages as int
        } else {
            0
        },
{
    reveal_with_fuel(pages_in_state, 2);
    reveal_with_fuel(pages_of_owner, 2);
    assert(seq![x].drop_last() == Seq::<TrackedRange>::empty());
    assert(seq![x].last() == x);
}

proof fn lemma_replace_sums(
    s: Seq<TrackedRange>,
    i: int,
    pieces: Seq<TrackedRange>,
    st: FrameRangeState,
    ow: FrameRangeOwner,
)
    requires
        0 <= i < s.len(),
    ensures
        pages_in_state(replace_at(s, i, pieces), st) == pages_in_state(s, st) - pages_in_state(
            seq![s[i]],
            st,
        ) + pages_in_state(pieces, st),
        pages_of_owner(replace_at(s, i, pieces), ow) == pages_of_owner(s, ow) - pages_of_owner(
            seq![s[i]],
            ow,
        ) + pages_of_owner(pieces, ow),
{
    let a = s.subrange(0, i);
    let c = s.subrange(i + 1, s.len() as int);
    assert(s =~= a + seq![s[i]] + c);
    lemma_page_sums_concat(a, seq![s[i]], st, ow);
    lemma_page_sums_concat(a + seq![s[i]], c, st, ow);
    lemma_page_sums_concat(a, pieces, st, ow);
    lemma_page_sums_concat(a + pieces, c, st, ow);
}

proof fn lemma_split_sums(
    e: TrackedRange,
    part: Region,
    outer_state: FrameRangeState,
    outer_owner: FrameRangeOwner,
    state: FrameRangeState,
    owner: FrameRangeOwner,
    st: FrameRangeState,
    ow: FrameRangeOwner,
)
    requires
        e.region.well_formed(),
        part.well_formed(),
        e.region.covers(part),
    ensures
        pages_in_state(split_pieces(e, part, outer_state, outer_owner, state, owner), st) == (
        if outer_state == st {
            e.region.pages - part.pages
        } else {
            0
        }) + (if state == st {
            part.pages as int
        } else {
            0
        }),
        pages_of_owner(split_pieces(e, part, outer_state, outer_owner, state, owner), ow) == (
        if outer_owner == ow {
            e.region.pages - part.pages
        } else {
            0
        }) + (if owner == ow {
            part.pages as int
        } else {
            0
        }),
{
    let bp = (part.start - e.region.start) / 4096;
    let ap = (e.region.end() - part.end()) / 4096;
    assert((part.start - e.region.start) % 4096 == 0);
    assert((e.region.end() - part.end()) % 4096 == 0);
    assert(bp * 4096 == part.start - e.region.start);
    assert(ap * 4096 == e.region.end() - part.end());
    assert(bp + part.pages + ap == e.region.pages) by (nonlinear_arith)
        requires
            bp * 4096 == part.start - e.region.start,
            ap * 4096 == e.region.end() - part.end(),
            e.region.end() == e.region.start + e.region.pages * 4096,
            part.end() == part.start + part.pages * 4096,
    ;
    let before = TrackedRange {
        region: Region { start: e.region.start, pages: bp as u64 },
        state: outer_state,
        owner: outer_owner,
    };
    let after = TrackedRange {
        region: Region { start: part.end() as u64, pages: ap as u64 },
        state: outer_state,
        owner: outer_owner,
    };
    let middle = TrackedRange { region: part, state, owner };
    lemma_page_sums_single(before, st, ow);
    lemma_page_sums_single(after, st, ow);
    lemma_page_sums_single(middle, st, ow);
    let with_before = if bp > 0 {
        seq![before] + seq![middle]
    } else {
        seq![middle]
    };
    lemma_page_sums_concat(seq![before], seq![middle], st, ow);
    assert(seq![before] + seq![middle] =~= seq![before, middle]);
    lemma_page_sums_concat(with_before, seq![after], st, ow);
    assert(with_before.push(after) =~= with_before + seq![after]);
    assert(split_pieces(e, part, outer_state, outer_owner, state, owner) == if ap > 0 {
        with_before.push(after)
    } else {
        with_before
    });
}

/// An allocation of `frames` frames for `owner` takes exactly that many
/// frames out of the free pool and gives them to `owner` as used frames;
/// reserved frames and the frames of every other owner stay as they were.
pub proof fn law_allocation_moves_free_frames_to_owner(
    s: Seq<TrackedRange>,
    frames: u64,
    owner: FrameRangeOwner,
    other: FrameRangeOwner,
)
    requires
        tracked_well_formed(s),
        free_ranges_unowned(s),
        0 < frames,
        owner != FrameRangeOwner::Free,
        other != owner,
        other != FrameRangeOwner::Free,
        first_fit(s, frames) < s.len(),
    ensures
        pages_in_state(allocation_result(s, frames, owner), FrameRangeState::Free) == pages_in_state(
            s,
            FrameRangeState::Free,
        ) - frames,
        pages_in_state(allocation_result(s, frames, owner), FrameRangeState::Used) == pages_in_state(
            s,
            FrameRangeState::Used,
        ) + frames,
        pages_in_state(allocation_result(s, frames, owner), FrameRangeState::Reserved)
            == pages_in_state(s, FrameRangeState::Reserved),
        pages_of_owner(allocation_result(s, frames, owner), owner) == pages_of_owner(s, owner)
            + frames,
        pages_of_owner(allocation_result(s, frames, owner), other) == pages_of_owner(s, other),
{
    lemma_first_fit_found(s, frames);
    let i = first_fit(s, frames);
    let e = s[i];
    let part = first_fit_part(s, frames);
    assert(e.region.well_formed());
    assert(part.well_formed());
    let pieces = split_pieces(
        e,
        part,
        FrameRangeState::Free,
        FrameRangeOwner::Free,
        FrameRangeState::Used,
        owner,
    );
    lemma_split_pieces_well_formed(
        e,
        part,
        FrameRangeState::Free,
        FrameRangeOwner::Free,
        FrameRangeState::Used,
        owner,
    );
    lemma_replace_at(s, i, pieces);
    let t = replace_at(s, i, pieces);
    lemma_merge_pages_in_state(t, FrameRangeState::Free);
    lemma_merge_pages_in_state(t, FrameRangeState::Used);
    lemma_merge_pages_in_state(t, FrameRangeState::Reserved);
    lemma_merge_pages_of_owner(t, owner);
    lemma_merge_pages_of_owner(t, other);
    lemma_replace_sums(s, i, pieces, FrameRangeState::Free, owner);
    lemma_replace_sums(s, i, pieces, FrameRangeState::Used, other);
    lemma_replace_sums(s, i, pieces, FrameRangeState::Reserved, other);
    lemma_page_sums_single(e, FrameRangeState::Free, owner);
    lemma_page_sums_single(e, FrameRangeState::Used, other);
    lemma_page_sums_single(e, FrameRangeState::Reserved, FrameRangeOwner::Free);
    lemma_split_sums(
        e,
        part,
        FrameRangeState::Free,
        FrameRangeOwner::Free,
        FrameRangeState::Used,
        owner,
        FrameRangeState::Free,
        owner,
    );
    lemma_split_sums(
        e,
        part,
        FrameRangeState::Free,
        FrameRangeOwner::Free,
        FrameRangeState::Used,
        owner,
        FrameRangeState::Used,
        other,
    );
    lemma_split_sums(
        e,
        part,
        FrameRangeState::Free,
        FrameRangeOwner::Free,
        FrameRangeState::Used,
        owner,
        FrameRangeState::Reserved,
        FrameRangeOwner::Free,
    );
}

/// Freeing frames that `owner` holds returns exactly those frames to the
/// free pool; reserved frames and the frames of every other owner stay as
/// they were.
pub proof fn law_release_returns_frames_to_free_pool(
    s: Seq<TrackedRange>,
    part: Region,
    owner: FrameRangeOwner,
    other: FrameRangeOwner,
)
    requires
        tracked_well_formed(s),
        part.well_formed(),
        owner != FrameRangeOwner::Free,
        other != owner,
        other != FrameRangeOwner::Free,
        first_owned_covering(s, owner, part) < s.len(),
    ensures
        pages_in_state(
            release_part(s, first_owned_covering(s, owner, part), part, owner),
            FrameRangeState::Free,
        ) == pages_in_state(s, FrameRangeState::Free) + part.pages,
        pages_in_state(
            release_part(s, first_owned_covering(s, owner, part), part, owner),
            FrameRangeState::Used,
        ) == pages_in_state(s, FrameRangeState::Used) - part.pages,
        pages_in_state(
            release_part(s, first_owned_covering(s, owner, part), part, owner),
            FrameRangeState::Reserved,
        ) == pages_in_state(s, FrameRangeState::Reserved),
        pages_of_owner(release_part(s, first_owned_covering(s, owner, part), part, owner), owner)
            == pages_of_owner(s, owner) - part.pages,
        pages_of_owner(release_part(s, first_owned_covering(s, owner, part), part, owner), other)
            == pages_of_owner(s, other),
{
    lemma_first_owned_covering_found(s, owner, part);
    let i = first_owned_covering(s, owner, part);
    let e = s[i];
    assert(e.region.well_formed());
    let pieces = split_pieces(
        e,
        part,
        FrameRangeState::Used,
        owner,
        FrameRangeState::Free,
        FrameRangeOwner::Free,
    );
    lemma_split_pieces_well_formed(
        e,
        part,
        FrameRangeState::Used,
        owner,
        FrameRangeState::Free,
        FrameRangeOwner::Free,
    );
    lemma_replace_at(s, i, pieces);
    let t = replace_at(s, i, pieces);
    lemma_merge_pages_in_state(t, FrameRangeState::Free);
    lemma_merge_pages_in_state(t, FrameRangeState::Used);
    lemma_merge_pages_in_state(t, FrameRangeState::Reserved);
    lemma_merge_pages_of_owner(t, owner);
    lemma_merge_pages_of_owner(t, other);
    lemma_replace_sums(s, i, pieces, FrameRangeState::Free, owner);
    lemma_replace_sums(s, i, pieces, FrameRangeState::Used, other);
    lemma_replace_sums(s, i, pieces, FrameRangeState::Reserved, other);
    lemma_page_sums_single(e, FrameRangeState::Free, owner);
    lemma_page_sums_single(e, FrameRangeState::Used, other);
    lemma_page_sums_single(e, FrameRangeState::Reserved, FrameRangeOwner::Free);
    lemma_split_sums(
        e,
        part,
        FrameRangeState::Used,
        owner,
        FrameRangeState::Free,
        FrameRangeOwner::Free,
        FrameRangeState::Free,
        owner,
    );
    lemma_split_sums(
        e,
        part,
        FrameRangeState::Used,
        owner,
        FrameRangeState::Free,
        FrameRangeOwner::Free,
        FrameRangeState::Used,
        other,
    );
    lemma_split_sums(
        e,
        part,
        FrameRangeState::Used,
        owner,
        FrameRangeState::Free,
        FrameRangeOwner::Free,
        FrameRangeState::Reserved,
        FrameRangeOwner::Free,
    );
}


/// Whether two runs share a frame.
pub open spec fn regions_overlap(a: Region, b: Region) -> bool {
    a.start < b.end() && b.start < a.end()
}

/// Whether no two recorded ranges share a frame.
pub open spec fn tracked_disjoint(s: Seq<TrackedRange>) -> bool {
    forall|i: int, j: int|
        #![trigger s[i], s[j]]
        0 <= i < s.len() && 0 <= j < s.len() && i != j ==> !regions_overlap(s[i].region, s[j].region)
}

/// Whether no range that `owner` uses shares a frame with `part`.
pub open spec fn owner_clear_of(s: Seq<TrackedRange>, owner: FrameRangeOwner, part: Region) -> bool {
    forall|k: int|
        0 <= k < s.len() && (#[trigger] s[k]).state == FrameRangeState::Used && s[k].owner == owner
            ==> !regions_overlap(s[k].region, part)
}

proof fn lemma_owner_clear_not_covering(s: Seq<TrackedRange>, owner: FrameRangeOwner, part: Region)
    requires
        owner_clear_of(s, owner, part),
        part.pages > 0,
    ensures
        !(first_owned_covering(s, owner, part) < s.len()),
{
    if first_owned_covering(s, owner, part) < s.len() {
        lemma_first_owned_covering_found(s, owner, part);
        let k = first_owned_covering(s, owner, part);
        assert(regions_overlap(s[k].region, part));
    }
}

proof fn lemma_merge_keeps_owner_clear(s: Seq<TrackedRange>, owner: FrameRangeOwner, part: Region)
    requires
        tracked_well_formed(s),
        owner_clear_of(s, owner, part),
        part.pages > 0,
    ensures
        owner_clear_of(merge_tracked(s), owner, part),
    decreases s.len(),
{
    if s.len() > 1 {
        let p = s.drop_last();
        lemma_prefix_well_formed(s);
        assert forall|k: int|
            0 <= k < p.len() && (#[trigger] p[k]).state == FrameRangeState::Used && p[k].owner == owner
                implies !regions_overlap(p[k].region, part) by {
            assert(p[k] == s[k]);
        }
        lemma_merge_keeps_owner_clear(p, owner, part);
        lemma_merge_tracked(p);
        let m = merge_tracked(p);
        let last = s.last();
        assert(last == s[s.len() - 1]);
        assert(m.last() == m[m.len() - 1]);
        if tracked_mergeable(m.last(), last) {
            let a = m.last();
            let joined = tracked_joined(a, last);
            assert(a.region.well_formed());
            assert(last.region.well_formed());
            assert(joined.region.end() == last.region.end());
            if joined.state == FrameRangeState::Used && joined.owner == owner {
                assert(!regions_overlap(a.region, part));
                assert(!regions_overlap(last.region, part));
            }
            let r = m.drop_last().push(joined);
            assert(merge_tracked(s) == r);
            assert forall|k: int|
                0 <= k < r.len() && (#[trigger] r[k]).state == FrameRangeState::Used && r[k].owner == owner
                    implies !regions_overlap(r[k].region, part) by {
                if k < r.len() - 1 {
                    assert(r[k] == m[k]);
                }
            }
        } else {
            let r = m.push(last);
            assert(merge_tracked(s) == r);
            assert forall|k: int|
                0 <= k < r.len() && (#[trigger] r[k]).state == FrameRangeState::Used && r[k].owner == owner
                    implies !regions_overlap(r[k].region, part) by {
                if k < r.len() - 1 {
                    assert(r[k] == m[k]);
                }
            }
        }
    }
}

/// Freeing frames for an owner other than the one that holds them is
/// refused: when a range that `other` uses covers `part`, no range that
/// `owner` uses covers it, so `free_frames_for` answers `false` and changes
/// nothing.
pub proof fn law_release_for_another_owner_is_refused(
    s: Seq<TrackedRange>,
    part: Region,
    owner: FrameRangeOwner,
    other: FrameRangeOwner,
    j: int,
)
    requires
        tracked_well_formed(s),
        tracked_disjoint(s),
        part.well_formed(),
        0 <= j < s.len(),
        owned_covering(s[j], other, part),
        other != owner,
    ensures
        !(first_owned_covering(s, owner, part) < s.len()),
{
    if first_owned_covering(s, owner, part) < s.len() {
        lemma_first_owned_covering_found(s, owner, part);
        let k = first_owned_covering(s, owner, part);
        assert(regions_overlap(s[k].region, s[j].region));
    }
}

/// Freeing the same frames twice is refused: once `owner`'s frames `part`
/// were released, no range that `owner` uses covers them any more, so a
/// second `free_frames_for` answers `false` and changes nothing.
pub proof fn law_second_release_is_refused(s: Seq<TrackedRange>, part: Region, owner: FrameRangeOwner)
    requires
        tracked_well_formed(s),
        tracked_disjoint(s),
        part.well_formed(),
        owner != FrameRangeOwner::Free,
        first_owned_covering(s, owner, part) < s.len(),
    ensures
        !(first_owned_covering(
            release_part(s, first_owned_covering(s, owner, part), part, owner),
            owner,
            part,
        ) < release_part(s, first_owned_covering(s, owner, part), part, owner).len()),
{
    lemma_first_owned_covering_found(s, owner, part);
    let i = first_owned_covering(s, owner, part);
    let e = s[i];
    assert(e.region.well_formed());
    let pieces = split_pieces(e, part, FrameRangeState::Used, owner, FrameRangeState::Free, FrameRangeOwner::Free);
    lemma_split_pieces_well_formed(e, part, FrameRangeState::Used, owner, FrameRangeState::Free, FrameRangeOwner::Free);
    lemma_replace_at(s, i, pieces);
    let t = replace_at(s, i, pieces);
    let before = Region { start: e.region.start, pages: ((part.start - e.region.start) / 4096) as u64 };
    let after = Region { start: part.end() as u64, pages: ((e.region.end() - part.end()) / 4096) as u64 };
    assert((part.start - e.region.start) % 4096 == 0);
    assert(before.end() == part.start);
    assert forall|k: int|
        0 <= k < pieces.len() && (#[trigger] pieces[k]).state == FrameRangeState::Used && pieces[k].owner == owner
            implies !regions_overlap(pieces[k].region, part) by {
        let middle = seq![TrackedRange { region: part, state: FrameRangeState::Free, owner: FrameRangeOwner::Free }];
        let with_before = if before.pages > 0 {
            seq![TrackedRange { region: before, state: FrameRangeState::Used, owner }] + middle
        } else {
            middle
        };
        if before.pages > 0 {
            assert(with_before[0].region == before);
            assert(with_before[1].state == FrameRangeState::Free);
        } else {
            assert(with_before[0].state == FrameRangeState::Free);
        }
        if after.pages > 0 {
            assert(pieces == with_before.push(TrackedRange { region: after, state: FrameRangeState::Used, owner }));
        } else {
            assert(pieces == with_before);
        }
    }
    assert forall|k: int|
        0 <= k < t.len() && (#[trigger] t[k]).state == FrameRangeState::Used && t[k].owner == owner
            implies !regions_overlap(t[k].region, part) by {
        if k < i {
            assert(t[k] == s[k]);
            assert(!regions_overlap(s[k].region, s[i].region));
        } else if k < i + pieces.len() {
            assert(t[k] == pieces[k - i]);
        } else {
            assert(t[k] == s[k - pieces.len() + 1]);
            assert(!regions_overlap(s[k - pieces.len() + 1].region, s[i].region));
        }
    }
    lemma_merge_keeps_owner_clear(t, owner, part);
    lemma_owner_clear_not_covering(merge_tracked(t), owner, part);
}


/// Whether two recorded ranges that share frames are one free and one not,
/// sharing frames only inside `r`.
pub open spec fn pair_confined(a: TrackedRange, b: TrackedRange, r: Region) -> bool {
    regions_overlap(a.region, b.region) ==> {
        &&& (a.state == FrameRangeState::Free) != (b.state == FrameRangeState::Free)
        &&& (a.region.start >= r.start || b.region.start >= r.start)
        &&& (a.region.end() <= r.end() || b.region.end() <= r.end())
    }
}

/// Whether every two recorded ranges of `s` are confined to `r` (see
/// `pair_confined`).
pub open spec fn overlaps_confined(s: Seq<TrackedRange>, r: Region) -> bool {
    forall|i: int, j: int|
        #![trigger s[i], s[j]]
        0 <= i < s.len() && 0 <= j < s.len() && i != j ==> pair_confined(s[i], s[j], r)
}

proof fn lemma_disjoint_confined(s: Seq<TrackedRange>, r: Region)
    requires
        tracked_disjoint(s),
    ensures
        overlaps_confined(s, r),
{
}

proof fn lemma_confined_at_zero_disjoint(s: Seq<TrackedRange>)
    requires
        overlaps_confined(s, Region { start: 0, pages: 0 }),
    ensures
        tracked_disjoint(s),
{
    assert forall|i: int, j: int|
        0 <= i < s.len() && 0 <= j < s.len() && i != j implies !regions_overlap(
            #[trigger] s[i].region,
            #[trigger] s[j].region,
        ) by {
        assert(pair_confined(s[i], s[j], Region { start: 0, pages: 0 }));
    }
}

proof fn lemma_join_confined(x: TrackedRange, a: TrackedRange, b: TrackedRange, r: Region)
    requires
        x.region.well_formed(),
        a.region.well_formed(),
        b.region.well_formed(),
        tracked_mergeable(a, b),
        pair_confined(x, a, r),
        pair_confined(x, b, r),
    ensures
        pair_confined(x, tracked_joined(a, b), r),
{
    let j = tracked_joined(a, b);
    assert(a.region.pages + b.region.pages <= u64::MAX);
    assert(j.region.pages == a.region.pages + b.region.pages);
    assert(j.region.end() == b.region.end());
    assert(j.region.start == a.region.start);
    assert(j.state == a.state && j.state == b.state);
    if regions_overlap(x.region, j.region) {
        if regions_overlap(x.region, a.region) {
            if regions_overlap(x.region, b.region) {
            } else {
                assert(x.region.end() <= a.region.end());
            }
        } else {
            assert(regions_overlap(x.region, b.region));
            assert(x.region.start >= b.region.start);
        }
    }
}

proof fn lemma_merge_keeps_confined_to(x: TrackedRange, s: Seq<TrackedRange>, r: Region)
    requires
        x.region.well_formed(),
        tracked_well_formed(s),
        forall|k: int| 0 <= k < s.len() ==> pair_confined(x, #[trigger] s[k], r),
    ensures
        forall|k: int| 0 <= k < merge_tracked(s).len() ==> pair_confined(x, #[trigger] merge_tracked(s)[k], r),
    decreases s.len(),
{
    if s.len() > 1 {
        let p = s.drop_last();
        lemma_prefix_well_formed(s);
        assert forall|k: int| 0 <= k < p.len() implies pair_confined(x, #[trigger] p[k], r) by {
            assert(p[k] == s[k]);
        }
        lemma_merge_keeps_confined_to(x, p, r);
        lemma_merge_tracked(p);
        let m = merge_tracked(p);
        let last = s.last();
        assert(last == s[s.len() - 1]);
        assert(m.last() == m[m.len() - 1]);
        if tracked_mergeable(m.last(), last) {
            let joined = tracked_joined(m.last(), last);
            lemma_join_confined(x, m.last(), last, r);
            let t = m.drop_last().push(joined);
            assert(merge_tracked(s) == t);
            assert forall|k: int| 0 <= k < t.len() implies pair_confined(x, #[trigger] t[k], r) by {
                if k < t.len() - 1 {
                    assert(t[k] == m[k]);
                }
            }
        } else {
            let t = m.push(last);
            assert(merge_tracked(s) == t);
            assert forall|k: int| 0 <= k < t.len() implies pair_confined(x, #[trigger] t[k], r) by {
                if k < t.len() - 1 {
                    assert(t[k] == m[k]);
                }
            }
        }
    }
}

proof fn lemma_merge_keeps_confined(s: Seq<TrackedRange>, r: Region)
    requires
        tracked_well_formed(s),
        overlaps_confined(s, r),
    ensures
        overlaps_confined(merge_tracked(s), r),
    decreases s.len(),
{
    if s.len() > 1 {
        let p = s.drop_last();
        lemma_prefix_well_formed(s);
        let last = s.last();
        assert(last == s[s.len() - 1]);
        assert forall|i: int, j: int|
            0 <= i < p.len() && 0 <= j < p.len() && i != j implies pair_confined(#[trigger] p[i], #[trigger] p[j], r) by {
            assert(p[i] == s[i] && p[j] == s[j]);
        }
        assert forall|k: int| 0 <= k < p.len() implies pair_confined(last, #[trigger] p[k], r) by {
            assert(p[k] == s[k]);
            assert(pair_confined(s[s.len() - 1], s[k], r));
        }
        lemma_merge_keeps_confined(p, r);
        lemma_merge_keeps_confined_to(last, p, r);
        lemma_merge_tracked(p);
        let m = merge_tracked(p);
        assert(m.last() == m[m.len() - 1]);
        if tracked_mergeable(m.last(), last) {
            let joined = tracked_joined(m.last(), last);
            let t = m.drop_last().push(joined);
            assert(merge_tracked(s) == t);
            assert forall|k: int| 0 <= k < m.len() - 1 implies pair_confined(#[trigger] m[k], joined, r) by {
                assert(pair_confined(m[k], m[m.len() - 1], r));
                assert(pair_confined(last, m[k], r));
                lemma_join_confined(m[k], m.last(), last, r);
            }
            assert forall|i: int, j: int|
                0 <= i < t.len() && 0 <= j < t.len() && i != j implies pair_confined(#[trigger] t[i], #[trigger] t[j], r) by {
                if i < t.len() - 1 && j < t.len() - 1 {
                    assert(t[i] == m[i] && t[j] == m[j]);
                } else if i < t.len() - 1 {
                    assert(t[i] == m[i] && t[j] == joined);
                } else {
                    assert(t[j] == m[j] && t[i] == joined);
                    assert(pair_confined(m[j], joined, r));
                }
            }
        } else {
            let t = m.push(last);
            assert(merge_tracked(s) == t);
            assert forall|i: int, j: int|
                0 <= i < t.len() && 0 <= j < t.len() && i != j implies pair_confined(#[trigger] t[i], #[trigger] t[j], r) by {
                if i < t.len() - 1 && j < t.len() - 1 {
                    assert(t[i] == m[i] && t[j] == m[j]);
                } else if i < t.len() - 1 {
                    assert(t[i] == m[i] && t[j] == last);
                    assert(pair_confined(last, m[i], r));
                } else {
                    assert(t[j] == m[j] && t[i] == last);
                    assert(pair_confined(last, m[j], r));
                }
            }
        }
    }
}

proof fn lemma_merge_keeps_unowned(s: Seq<TrackedRange>)
    requires
        tracked_well_formed(s),
        free_ranges_unowned(s),
    ensures
        free_ranges_unowned(merge_tracked(s)),
    decreases s.len(),
{
    if s.len() > 1 {
        let p = s.drop_last();
        lemma_prefix_well_formed(s);
        assert forall|k: int| 0 <= k < p.len() && (#[trigger] p[k]).state == FrameRangeState::Free implies p[k].owner
            == FrameRangeOwner::Free by {
            assert(p[k] == s[k]);
        }
        lemma_merge_keeps_unowned(p);
        lemma_merge_tracked(p);
        let m = merge_tracked(p);
        let last = s.last();
        assert(last == s[s.len() - 1]);
        assert(m.last() == m[m.len() - 1]);
        if tracked_mergeable(m.last(), last) {
            let t = m.drop_last().push(tracked_joined(m.last(), last));
            assert(merge_tracked(s) == t);
            assert forall|k: int| 0 <= k < t.len() && (#[trigger] t[k]).state == FrameRangeState::Free implies t[k].owner
                == FrameRangeOwner::Free by {
                if k < t.len() - 1 {
                    assert(t[k] == m[k]);
                }
            }
        } else {
            let t = m.push(last);
            assert(merge_tracked(s) == t);
            assert forall|k: int| 0 <= k < t.len() && (#[trigger] t[k]).state == FrameRangeState::Free implies t[k].owner
                == FrameRangeOwner::Free by {
                if k < t.len() - 1 {
                    assert(t[k] == m[k]);
                }
            }
        }
    }
}

proof fn lemma_insert_keeps_confined(s: Seq<TrackedRange>, k: int, e: TrackedRange, r: Region)
    requires
        0 <= k <= s.len(),
        overlaps_confined(s, r),
        forall|j: int| 0 <= j < s.len() ==> pair_confined(e, #[trigger] s[j], r),
    ensures
        overlaps_confined(s.insert(k, e), r),
{
    let t = s.insert(k, e);
    assert forall|i: int, j: int|
        0 <= i < t.len() && 0 <= j < t.len() && i != j implies pair_confined(#[trigger] t[i], #[trigger] t[j], r) by {
        if i != k && j != k {
            let si = if i < k { i } else { i - 1 };
            let sj = if j < k { j } else { j - 1 };
            assert(t[i] == s[si] && t[j] == s[sj]);
        } else if i == k {
            let sj = if j < k { j } else { j - 1 };
            assert(t[j] == s[sj] && t[i] == e);
        } else {
            let si = if i < k { i } else { i - 1 };
            assert(t[i] == s[si] && t[j] == e);
            assert(pair_confined(e, s[si], r));
        }
    }
}

proof fn lemma_insert_keeps_unowned(s: Seq<TrackedRange>, k: int, e: TrackedRange)
    requires
        0 <= k <= s.len(),
        free_ranges_unowned(s),
        e.state == FrameRangeState::Free ==> e.owner == FrameRangeOwner::Free,
    ensures
        free_ranges_unowned(s.insert(k, e)),
{
    let t = s.insert(k, e);
    assert forall|i: int| 0 <= i < t.len() && (#[trigger] t[i]).state == FrameRangeState::Free implies t[i].owner
        == FrameRangeOwner::Free by {
        if i < k {
            assert(t[i] == s[i]);
        } else if i > k {
            assert(t[i] == s[i - 1]);
        }
    }
}


/// Whether `q` is a well-formed part of `e`, apart from `r` when `e` is a
/// free range sharing frames with `r`.
pub open spec fn derived_from(q: TrackedRange, e: TrackedRange, r: Region) -> bool {
    &&& q.region.well_formed()
    &&& e.region.covers(q.region)
    &&& free_overlaps(e, r) ==> !regions_overlap(q.region, r)
}

proof fn lemma_carve_one_parts(e: TrackedRange, r: Region)
    requires
        e.region.well_formed(),
        r.fits(),
    ensures
        forall|k: int| 0 <= k < carve_one(e, r).len() ==> derived_from(#[trigger] carve_one(e, r)[k], e, r),
        tracked_disjoint(carve_one(e, r)),
        e.state == FrameRangeState::Free ==> e.owner == FrameRangeOwner::Free ==> free_ranges_unowned(carve_one(e, r)),
        e.state != FrameRangeState::Free ==> carve_one(e, r) == seq![e],
{
    lemma_carve_one_well_formed(e, r);
    let c = carve_one(e, r);
    if free_overlaps(e, r) {
        assert((overlap_start(e, r) - e.region.start) % 4096 == 0);
        assert((e.region.end() - overlap_end(e, r)) % 4096 == 0);
    }
    assert forall|k: int| 0 <= k < c.len() implies derived_from(#[trigger] c[k], e, r) by {
        assert(c[k].region.well_formed());
    }
}

proof fn lemma_derived_apart(q1: TrackedRange, e1: TrackedRange, q2: TrackedRange, e2: TrackedRange, r: Region)
    requires
        e1.region.well_formed(),
        e2.region.well_formed(),
        derived_from(q1, e1, r),
        derived_from(q2, e2, r),
        pair_confined(e1, e2, r),
    ensures
        !regions_overlap(q1.region, q2.region),
{
    if regions_overlap(q1.region, q2.region) {
        assert(regions_overlap(e1.region, e2.region));
        if e1.state == FrameRangeState::Free {
            assert(free_overlaps(e1, r));
        } else {
            assert(free_overlaps(e2, r));
        }
    }
}

/// Index of the range of `t` that the `n`-th range of `carve_free(t, r)`
/// was cut from.
pub open spec fn carve_source(t: Seq<TrackedRange>, r: Region, n: int) -> int
    decreases t.len(),
{
    if t.len() == 0 {
        0
    } else if n < carve_free(t.drop_last(), r).len() {
        carve_source(t.drop_last(), r, n)
    } else {
        t.len() - 1
    }
}

proof fn lemma_carve_part(t: Seq<TrackedRange>, r: Region, n: int)
    requires
        tracked_well_formed(t),
        r.fits(),
        0 <= n < carve_free(t, r).len(),
    ensures
        0 <= carve_source(t, r, n) < t.len(),
        derived_from(carve_free(t, r)[n], t[carve_source(t, r, n)], r),
    decreases t.len(),
{
    if t.len() > 0 {
        let p = t.drop_last();
        let last = t.last();
        assert(last == t[t.len() - 1]);
        lemma_prefix_well_formed(t);
        let a = carve_free(p, r);
        let b = carve_one(last, r);
        assert(carve_free(t, r) == a + b);
        if n < a.len() {
            lemma_carve_part(p, r, n);
            let k = carve_source(p, r, n);
            assert(p[k] == t[k]);
            assert(carve_free(t, r)[n] == a[n]);
        } else {
            lemma_carve_one_parts(last, r);
            assert(carve_free(t, r)[n] == b[n - a.len()]);
        }
    }
}

proof fn lemma_carve_parts(t: Seq<TrackedRange>, r: Region)
    requires
        tracked_well_formed(t),
        r.fits(),
        overlaps_confined(t, r),
    ensures
        tracked_disjoint(carve_free(t, r)),
    decreases t.len(),
{
    if t.len() > 0 {
        let p = t.drop_last();
        let last = t.last();
        assert(last == t[t.len() - 1]);
        lemma_prefix_well_formed(t);
        assert forall|i: int, j: int|
            0 <= i < p.len() && 0 <= j < p.len() && i != j implies pair_confined(#[trigger] p[i], #[trigger] p[j], r) by {
            assert(p[i] == t[i] && p[j] == t[j]);
        }
        lemma_carve_parts(p, r);
        lemma_carve_one_parts(last, r);
        let a = carve_free(p, r);
        let b = carve_one(last, r);
        let c = a + b;
        assert(carve_free(t, r) == c);
        assert forall|i: int, j: int|
            0 <= i < c.len() && 0 <= j < c.len() && i != j implies !regions_overlap(
                #[trigger] c[i].region,
                #[trigger] c[j].region,
            ) by {
            if i < a.len() && j < a.len() {
                assert(c[i] == a[i] && c[j] == a[j]);
            } else if i >= a.len() && j >= a.len() {
                assert(c[i] == b[i - a.len()] && c[j] == b[j - a.len()]);
            } else if i < a.len() {
                assert(c[i] == a[i] && c[j] == b[j - a.len()]);
                lemma_carve_part(p, r, i);
                let k = carve_source(p, r, i);
                assert(p[k] == t[k]);
                assert(pair_confined(t[k], t[t.len() - 1], r));
                lemma_derived_apart(a[i], t[k], b[j - a.len()], last, r);
            } else {
                assert(c[j] == a[j] && c[i] == b[i - a.len()]);
                lemma_carve_part(p, r, j);
                let k = carve_source(p, r, j);
                assert(p[k] == t[k]);
                assert(pair_confined(t[k], t[t.len() - 1], r));
                lemma_derived_apart(a[j], t[k], b[i - a.len()], last, r);
            }
        }
    }
}

proof fn lemma_carve_keeps_unowned(t: Seq<TrackedRange>, r: Region)
    requires
        tracked_well_formed(t),
        r.fits(),
        free_ranges_unowned(t),
    ensures
        free_ranges_unowned(carve_free(t, r)),
    decreases t.len(),
{
    if t.len() > 0 {
        let p = t.drop_last();
        let last = t.last();
        assert(last == t[t.len() - 1]);
        lemma_prefix_well_formed(t);
        assert forall|k: int| 0 <= k < p.len() && (#[trigger] p[k]).state == FrameRangeState::Free implies p[k].owner
            == FrameRangeOwner::Free by {
            assert(p[k] == t[k]);
        }
        lemma_carve_keeps_unowned(p, r);
        lemma_carve_one_parts(last, r);
        let a = carve_free(p, r);
        let b = carve_one(last, r);
        assert(carve_free(t, r) == a + b);
        assert forall|k: int| 0 <= k < (a + b).len() && (#[trigger] (a + b)[k]).state == FrameRangeState::Free implies (a
            + b)[k].owner == FrameRangeOwner::Free by {
            if k < a.len() {
                assert((a + b)[k] == a[k]);
            } else {
                assert((a + b)[k] == b[k - a.len()]);
            }
        }
    }
}

/// The pieces of `e` split around `part` lie inside `e`, do not share
/// frames, and carry either `e`'s outer state and owner or the new ones.
proof fn lemma_split_pieces_inside(
    e: TrackedRange,
    part: Region,
    outer_state: FrameRangeState,
    outer_owner: FrameRangeOwner,
    state: FrameRangeState,
    owner: FrameRangeOwner,
)
    requires
        e.region.well_formed(),
        part.well_formed(),
        e.region.covers(part),
    ensures
        forall|k: int|
            0 <= k < split_pieces(e, part, outer_state, outer_owner, state, owner).len() ==> {
                let q = #[trigger] split_pieces(e, part, outer_state, outer_owner, state, owner)[k];
                &&& e.region.covers(q.region)
                &&& (q.state == outer_state && q.owner == outer_owner) || (q.state == state && q.owner == owner)
            },
        tracked_disjoint(split_pieces(e, part, outer_state, outer_owner, state, owner)),
{
    let p = split_pieces(e, part, outer_state, outer_owner, state, owner);
    lemma_split_pieces_well_formed(e, part, outer_state, outer_owner, state, owner);
    assert((part.start - e.region.start) % 4096 == 0);
    assert((e.region.end() - part.end()) % 4096 == 0);
    let before = Region { start: e.region.start, pages: ((part.start - e.region.start) / 4096) as u64 };
    let after = Region { start: part.end() as u64, pages: ((e.region.end() - part.end()) / 4096) as u64 };
    assert(before.end() == part.start);
    assert(after.end() == e.region.end());
    let middle = seq![TrackedRange { region: part, state, owner }];
    let with_before = if before.pages > 0 {
        seq![TrackedRange { region: before, state: outer_state, owner: outer_owner }] + middle
    } else {
        middle
    };
    if before.pages > 0 {
        assert(with_before[0].region == before);
        assert(with_before[1].region == part);
    } else {
        assert(with_before[0].region == part);
    }
    if after.pages > 0 {
        assert(p == with_before.push(TrackedRange { region: after, state: outer_state, owner: outer_owner }));
    } else {
        assert(p == with_before);
    }
}

proof fn lemma_replace_keeps_disjoint(s: Seq<TrackedRange>, i: int, pieces: Seq<TrackedRange>)
    requires
        tracked_disjoint(s),
        0 <= i < s.len(),
        tracked_disjoint(pieces),
        forall|k: int| 0 <= k < pieces.len() ==> s[i].region.covers(#[trigger] pieces[k].region),
    ensures
        tracked_disjoint(replace_at(s, i, pieces)),
{
    let t = replace_at(s, i, pieces);
    let n = pieces.len();
    assert(t.len() == s.len() - 1 + n);
    assert forall|a: int, b: int|
        0 <= a < t.len() && 0 <= b < t.len() && a != b implies !regions_overlap(
            #[trigger] t[a].region,
            #[trigger] t[b].region,
        ) by {
        let a_piece = i <= a < i + n;
        let b_piece = i <= b < i + n;
        let sa = if a < i { a } else { a - n + 1 };
        let sb = if b < i { b } else { b - n + 1 };
        if a_piece {
            assert(t[a] == pieces[a - i]);
        } else {
            assert(t[a] == s[sa]);
        }
        if b_piece {
            assert(t[b] == pieces[b - i]);
        } else {
            assert(t[b] == s[sb]);
        }
        if a_piece && !b_piece {
            assert(!regions_overlap(s[i].region, s[sb].region));
        } else if !a_piece && b_piece {
            assert(!regions_overlap(s[sa].region, s[i].region));
        } else if !a_piece && !b_piece {
            assert(!regions_overlap(s[sa].region, s[sb].region));
        }
    }
}

proof fn lemma_replace_keeps_unowned(s: Seq<TrackedRange>, i: int, pieces: Seq<TrackedRange>)
    requires
        free_ranges_unowned(s),
        free_ranges_unowned(pieces),
        0 <= i < s.len(),
    ensures
        free_ranges_unowned(replace_at(s, i, pieces)),
{
    let t = replace_at(s, i, pieces);
    let n = pieces.len();
    assert forall|a: int| 0 <= a < t.len() && (#[trigger] t[a]).state == FrameRangeState::Free implies t[a].owner
        == FrameRangeOwner::Free by {
        if a < i {
            assert(t[a] == s[a]);
        } else if a < i + n {
            assert(t[a] == pieces[a - i]);
        } else {
            assert(t[a] == s[a - n + 1]);
        }
    }
}


/// Whether `region` shares no frame with any recorded range of `s`.
pub open spec fn apart_from_recorded(s: Seq<TrackedRange>, region: Region) -> bool {
    forall|k: int| 0 <= k < s.len() ==> !regions_overlap(#[trigger] s[k].region, region)
}

/// Whether `region` shares no frame with any reserved or used range of `s`.
pub open spec fn apart_from_held(s: Seq<TrackedRange>, region: Region) -> bool {
    forall|k: int|
        0 <= k < s.len() && (#[trigger] s[k]).state != FrameRangeState::Free ==> !regions_overlap(
            s[k].region,
            region,
        )
}

/// Merging keeps ranges apart and free ranges unowned.
proof fn lemma_merge_keeps_layout(s: Seq<TrackedRange>)
    requires
        tracked_well_formed(s),
        tracked_disjoint(s),
        free_ranges_unowned(s),
    ensures
        tracked_disjoint(merge_tracked(s)),
        free_ranges_unowned(merge_tracked(s)),
{
    let zero = Region { start: 0, pages: 0 };
    lemma_disjoint_confined(s, zero);
    lemma_merge_keeps_confined(s, zero);
    lemma_confined_at_zero_disjoint(merge_tracked(s));
    lemma_merge_keeps_unowned(s);
}

/// Inserting a range apart from every recorded one, then merging, keeps
/// ranges apart and free ranges unowned.
proof fn lemma_insert_merge_keeps_layout(s: Seq<TrackedRange>, k: int, e: TrackedRange)
    requires
        tracked_well_formed(s),
        tracked_disjoint(s),
        free_ranges_unowned(s),
        0 <= k <= s.len(),
        e.region.well_formed(),
        apart_from_recorded(s, e.region),
        e.state == FrameRangeState::Free ==> e.owner == FrameRangeOwner::Free,
    ensures
        tracked_disjoint(merge_tracked(s.insert(k, e))),
        free_ranges_unowned(merge_tracked(s.insert(k, e))),
{
    let zero = Region { start: 0, pages: 0 };
    lemma_disjoint_confined(s, zero);
    assert forall|j: int| 0 <= j < s.len() implies pair_confined(e, #[trigger] s[j], zero) by {
        assert(!regions_overlap(s[j].region, e.region));
    }
    lemma_insert_keeps_confined(s, k, e, zero);
    lemma_confined_at_zero_disjoint(s.insert(k, e));
    lemma_insert_keeps_unowned(s, k, e);
    lemma_insert_well_formed(s, k, e);
    lemma_merge_keeps_layout(s.insert(k, e));
}

/// Splitting the `i`-th range around `part` and merging keeps ranges apart
/// and free ranges unowned, when a free piece has no owner.
proof fn lemma_split_merge_keeps_layout(
    s: Seq<TrackedRange>,
    i: int,
    part: Region,
    outer_state: FrameRangeState,
    outer_owner: FrameRangeOwner,
    state: FrameRangeState,
    owner: FrameRangeOwner,
)
    requires
        tracked_well_formed(s),
        tracked_disjoint(s),
        free_ranges_unowned(s),
        0 <= i < s.len(),
        part.well_formed(),
        s[i].region.covers(part),
        outer_state == FrameRangeState::Free ==> outer_owner == FrameRangeOwner::Free,
        state == FrameRangeState::Free ==> owner == FrameRangeOwner::Free,
    ensures
        tracked_disjoint(merge_tracked(replace_at(s, i, split_pieces(s[i], part, outer_state, outer_owner, state, owner)))),
        free_ranges_unowned(merge_tracked(replace_at(s, i, split_pieces(s[i], part, outer_state, outer_owner, state, owner)))),
{
    let pieces = split_pieces(s[i], part, outer_state, outer_owner, state, owner);
    assert(s[i].region.well_formed());
    lemma_split_pieces_well_formed(s[i], part, outer_state, outer_owner, state, owner);
    lemma_split_pieces_inside(s[i], part, outer_state, outer_owner, state, owner);
    assert forall|k: int| 0 <= k < pieces.len() implies s[i].region.covers(#[trigger] pieces[k].region) by {}
    lemma_replace_keeps_disjoint(s, i, pieces);
    assert forall|k: int| 0 <= k < pieces.len() && (#[trigger] pieces[k]).state == FrameRangeState::Free implies pieces[k].owner
        == FrameRangeOwner::Free by {}
    lemma_replace_keeps_unowned(s, i, pieces);
    lemma_replace_at(s, i, pieces);
    lemma_merge_keeps_layout(replace_at(s, i, pieces));
}


/// Reserving `region`, apart from every reserved and used range, keeps
/// ranges apart and free ranges unowned once the free ranges are carved.
proof fn lemma_reservation_layout(s: Seq<TrackedRange>, region: Region, owner: FrameRangeOwner)
    requires
        tracked_well_formed(s),
        tracked_disjoint(s),
        free_ranges_unowned(s),
        region.fits(),
        apart_from_held(s, region),
    ensures
        tracked_disjoint(merge_tracked(carve_free(with_reservation(s, region, owner), region))),
        free_ranges_unowned(merge_tracked(carve_free(with_reservation(s, region, owner), region))),
{
    let t = with_reservation(s, region, owner);
    lemma_disjoint_confined(s, region);
    if region.pages > 0 {
        let k = lemma_tracked_insertion_point_exists(s, region.start);
        let e = TrackedRange { region, state: FrameRangeState::Reserved, owner };
        assert(region.well_formed());
        assert forall|j: int| 0 <= j < s.len() implies pair_confined(e, #[trigger] s[j], region) by {
            if regions_overlap(e.region, s[j].region) {
                assert(s[j].state == FrameRangeState::Free);
            }
        }
        lemma_insert_keeps_confined(s, k, e, region);
        lemma_insert_keeps_unowned(s, k, e);
        lemma_insert_well_formed(s, k, e);
        lemma_merge_keeps_confined(s.insert(k, e), region);
        lemma_merge_keeps_unowned(s.insert(k, e));
        lemma_merge_tracked(s.insert(k, e));
    }
    lemma_carve_parts(t, region);
    lemma_carve_keeps_unowned(t, region);
    lemma_carve_well_formed(t, region);
    lemma_merge_keeps_layout(carve_free(t, region));
}


proof fn lemma_first_owned_covering_at_most(s: Seq<TrackedRange>, owner: FrameRangeOwner, part: Region, j: int)
    requires
        0 <= j < s.len(),
        owned_covering(s[j], owner, part),
    ensures
        first_owned_covering(s, owner, part) <= j,
    decreases s.len(),
{
    if !owned_covering(s[0], owner, part) {
        let t = s.subrange(1, s.len() as int);
        assert(t[j - 1] == s[j]);
        lemma_first_owned_covering_at_most(t, owner, part, j - 1);
    }
}

/// A range that `owner` uses and that covers `part` survives the merge pass
/// inside a range of the same owner.
proof fn lemma_merge_keeps_owned_cover(t: Seq<TrackedRange>, owner: FrameRangeOwner, part: Region, k: int)
    requires
        tracked_well_formed(t),
        0 <= k < t.len(),
        owned_covering(t[k], owner, part),
    ensures
        first_owned_covering(merge_tracked(t), owner, part) < merge_tracked(t).len(),
    decreases t.len(),
{
    lemma_merge_tracked(t);
    let m_all = merge_tracked(t);
    if t.len() <= 1 {
        lemma_first_owned_covering_at_most(t, owner, part, k);
    } else {
        let p = t.drop_last();
        let last = t.last();
        assert(last == t[t.len() - 1]);
        lemma_prefix_well_formed(t);
        lemma_merge_tracked(p);
        let m = merge_tracked(p);
        assert(m.last() == m[m.len() - 1]);
        if k == t.len() - 1 {
            if tracked_mergeable(m.last(), last) {
                let joined = tracked_joined(m.last(), last);
                assert(m.last().region.well_formed());
                assert(joined.region.end() == last.region.end());
                let r = m.drop_last().push(joined);
                assert(m_all == r);
                assert(owned_covering(r[r.len() - 1], owner, part));
                lemma_first_owned_covering_at_most(r, owner, part, r.len() - 1);
            } else {
                let r = m.push(last);
                assert(m_all == r);
                assert(owned_covering(r[r.len() - 1], owner, part));
                lemma_first_owned_covering_at_most(r, owner, part, r.len() - 1);
            }
        } else {
            assert(p[k] == t[k]);
            lemma_merge_keeps_owned_cover(p, owner, part, k);
            lemma_first_owned_covering_found(m, owner, part);
            let j = first_owned_covering(m, owner, part);
            if tracked_mergeable(m.last(), last) {
                let joined = tracked_joined(m.last(), last);
                assert(m.last().region.well_formed());
                assert(last.region.well_formed());
                assert(joined.region.end() == last.region.end());
                let r = m.drop_last().push(joined);
                assert(m_all == r);
                if j < m.len() - 1 {
                    assert(r[j] == m[j]);
                    lemma_first_owned_covering_at_most(r, owner, part, j);
                } else {
                    assert(owned_covering(r[r.len() - 1], owner, part));
                    lemma_first_owned_covering_at_most(r, owner, part, r.len() - 1);
                }
            } else {
                let r = m.push(last);
                assert(m_all == r);
                assert(r[j] == m[j]);
                lemma_first_owned_covering_at_most(r, owner, part, j);
            }
        }
    }
}

/// What the allocator promises of an allocation and its release: the
/// frames allocated for `owner` cannot be freed for any `other` owner;
/// freeing them for `owner` succeeds and restores every page total, free,
/// used and reserved, and the pages of every owner; freeing them again is
/// refused.
pub proof fn law_allocation_release_round_trip(
    s: Seq<TrackedRange>,
    frames: u64,
    owner: FrameRangeOwner,
    other: FrameRangeOwner,
)
    requires
        tracked_well_formed(s),
        tracked_disjoint(s),
        free_ranges_unowned(s),
        0 < frames,
        owner != FrameRangeOwner::Free,
        other != owner,
        first_fit(s, frames) < s.len(),
    ensures
        ({
            let a = allocation_result(s, frames, owner);
            let part = first_fit_part(s, frames);
            let b = release_part(a, first_owned_covering(a, owner, part), part, owner);
            &&& !(first_owned_covering(a, other, part) < a.len())
            &&& first_owned_covering(a, owner, part) < a.len()
            &&& pages_in_state(b, FrameRangeState::Free) == pages_in_state(s, FrameRangeState::Free)
            &&& pages_in_state(b, FrameRangeState::Used) == pages_in_state(s, FrameRangeState::Used)
            &&& pages_in_state(b, FrameRangeState::Reserved) == pages_in_state(s, FrameRangeState::Reserved)
            &&& pages_of_owner(b, owner) == pages_of_owner(s, owner)
            &&& (other != FrameRangeOwner::Free ==> pages_of_owner(b, other) == pages_of_owner(s, other))
            &&& !(first_owned_covering(b, owner, part) < b.len())
        }),
{
    lemma_first_fit_found(s, frames);
    let i = first_fit(s, frames);
    let e = s[i];
    let part = first_fit_part(s, frames);
    assert(e.region.well_formed());
    assert(part.well_formed());
    let pieces = split_pieces(e, part, FrameRangeState::Free, FrameRangeOwner::Free, FrameRangeState::Used, owner);
    lemma_split_pieces_well_formed(e, part, FrameRangeState::Free, FrameRangeOwner::Free, FrameRangeState::Used, owner);
    lemma_replace_at(s, i, pieces);
    let t = replace_at(s, i, pieces);
    assert(pieces[0] == TrackedRange { region: part, state: FrameRangeState::Used, owner });
    assert(t[i] == pieces[0]);
    lemma_merge_keeps_owned_cover(t, owner, part, i);
    lemma_merge_tracked(t);
    lemma_split_merge_keeps_layout(s, i, part, FrameRangeState::Free, FrameRangeOwner::Free, FrameRangeState::Used, owner);
    let a = allocation_result(s, frames, owner);
    assert(a == merge_tracked(t));
    lemma_first_owned_covering_found(a, owner, part);
    let j = first_owned_covering(a, owner, part);
    if other != FrameRangeOwner::Free {
        law_release_for_another_owner_is_refused(a, part, other, owner, j);
    } else {
        if first_owned_covering(a, other, part) < a.len() {
            lemma_first_owned_covering_found(a, other, part);
            let k = first_owned_covering(a, other, part);
            assert(a[k].state == FrameRangeState::Used && a[k].owner == FrameRangeOwner::Free);
            law_release_for_another_owner_is_refused(a, part, other, owner, j);
        }
    }
    let helper = if owner == FrameRangeOwner::UnknownUsed {
        FrameRangeOwner::FirmwareReserved
    } else {
        FrameRangeOwner::UnknownUsed
    };
    let witness = if other == FrameRangeOwner::Free { helper } else { other };
    law_allocation_moves_free_frames_to_owner(s, frames, owner, witness);
    law_release_returns_frames_to_free_pool(a, part, owner, witness);
    law_second_release_is_refused(a, part, owner);
}

} // verus!
