//! Frame allocator diagnostics snapshots for console and boot smoke checks.
//!
//! A snapshot copies the allocator's state and owner page totals at one
//! point of boot; the store keeps the latest snapshot until it is read.

use vstd::prelude::*;

use super::frame_allocator::{
    owner_totals_match, pages_in_state, FrameAllocatorOwnerStatistics, FrameRangeState,
    PhysicalFrameAllocator,
};

verus! {

/// The sum `a + b`, or `u64::MAX` when it does not fit.
pub open spec fn saturated_sum(a: int, b: int) -> int {
    if a + b > u64::MAX {
        u64::MAX as int
    } else {
        a + b
    }
}

/// Physical frame allocator owner totals captured at a specific boot point.
#[derive(Clone, Copy, Debug, Default, PartialEq, Eq, Structural)]
pub struct FrameAllocatorOwnerDiagnostics {
    free: u64,
    firmware_reserved: u64,
    kernel_image: u64,
    mmio: u64,
    guard_page: u64,
    unknown_used: u64,
    page_table: u64,
    kernel_heap: u64,
    kernel_stack: u64,
    framebuffer_backbuffer: u64,
    ahci_dma: u64,
    dynamic_kernel_mapping: u64,
    user_stack: u64,
    user_elf: u64,
    user_heap: u64,
    user_mapping: u64,
}

impl FrameAllocatorOwnerDiagnostics {
    /// The captured owner totals, as the allocator reported them.
    pub closed spec fn totals(self) -> FrameAllocatorOwnerStatistics {
        FrameAllocatorOwnerStatistics {
            free: self.free,
            firmware_reserved: self.firmware_reserved,
            kernel_image: self.kernel_image,
            mmio: self.mmio,
            guard_page: self.guard_page,
            unknown_used: self.unknown_used,
            page_table: self.page_table,
            kernel_heap: self.kernel_heap,
            kernel_stack: self.kernel_stack,
            framebuffer_backbuffer: self.framebuffer_backbuffer,
            ahci_dma: self.ahci_dma,
            dynamic_kernel_mapping: self.dynamic_kernel_mapping,
            user_stack: self.user_stack,
            user_elf: self.user_elf,
            user_heap: self.user_heap,
            user_mapping: self.user_mapping,
        }
    }

    /// Capture the owner totals reported by the allocator.
    pub fn from_statistics(owners: FrameAllocatorOwnerStatistics) -> (r: Self)
        ensures
            r.totals() == owners,
    {
        Self {
            free: owners.free,
            firmware_reserved: owners.firmware_reserved,
            kernel_image: owners.kernel_image,
            mmio: owners.mmio,
            guard_page: owners.guard_page,
            unknown_used: owners.unknown_used,
            page_table: owners.page_table,
            kernel_heap: owners.kernel_heap,
            kernel_stack: owners.kernel_stack,
            framebuffer_backbuffer: owners.framebuffer_backbuffer,
            ahci_dma: owners.ahci_dma,
            dynamic_kernel_mapping: owners.dynamic_kernel_mapping,
            user_stack: owners.user_stack,
            user_elf: owners.user_elf,
            user_heap: owners.user_heap,
            user_mapping: owners.user_mapping,
        }
    }

    /// Return pages with no active frame owner.
    pub fn free(self) -> (r: u64)
        ensures
            r == self.totals().free,
    {
        self.free
    }

    /// Return firmware-reserved pages.
    pub fn firmware_reserved(self) -> (r: u64)
        ensures
            r == self.totals().firmware_reserved,
    {
        self.firmware_reserved
    }

    /// Return pages containing the loaded kernel image.
    pub fn kernel_image(self) -> (r: u64)
        ensures
            r == self.totals().kernel_image,
    {
        self.kernel_image
    }

    /// Return pages reserved for memory-mapped I/O.
    pub fn mmio(self) -> (r: u64)
        ensures
            r == self.totals().mmio,
    {
        self.mmio
    }

    /// Return pages reserved as explicit guard pages.
    pub fn guard_page(self) -> (r: u64)
        ensures
            r == self.totals().guard_page,
    {
        self.guard_page
    }

    /// Return used pages whose owner is not yet classified.
    pub fn unknown_used(self) -> (r: u64)
        ensures
            r == self.totals().unknown_used,
    {
        self.unknown_used
    }

    /// Return page-table pages.
    pub fn page_table(self) -> (r: u64)
        ensures
            r == self.totals().page_table,
    {
        self.page_table
    }

    /// Return kernel heap pages.
    pub fn kernel_heap(self) -> (r: u64)
        ensures
            r == self.totals().kernel_heap,
    {
        self.kernel_heap
    }

    /// Return guarded kernel stack pages.
    pub fn kernel_stack(self) -> (r: u64)
        ensures
            r == self.totals().kernel_stack,
    {
        self.kernel_stack
    }

    /// Return framebuffer backbuffer pages.
    pub fn framebuffer_backbuffer(self) -> (r: u64)
        ensures
            r == self.totals().framebuffer_backbuffer,
    {
        self.framebuffer_backbuffer
    }

    /// Return AHCI DMA pages.
    pub fn ahci_dma(self) -> (r: u64)
        ensures
            r == self.totals().ahci_dma,
    {
        self.ahci_dma
    }

    /// Return temporary dynamic kernel mapping pages.
    pub fn dynamic_kernel_mapping(self) -> (r: u64)
        ensures
            r == self.totals().dynamic_kernel_mapping,
    {
        self.dynamic_kernel_mapping
    }

    /// Return user stack pages.
    pub fn user_stack(self) -> (r: u64)
        ensures
            r == self.totals().user_stack,
    {
        self.user_stack
    }

    /// Return user ELF segment pages.
    pub fn user_elf(self) -> (r: u64)
        ensures
            r == self.totals().user_elf,
    {
        self.user_elf
    }

    /// Return user heap pages.
    pub fn user_heap(self) -> (r: u64)
        ensures
            r == self.totals().user_heap,
    {
        self.user_heap
    }

    /// Return private user mapping pages.
    pub fn user_mapping(self) -> (r: u64)
        ensures
            r == self.totals().user_mapping,
    {
        self.user_mapping
    }

    /// Return all currently user-owned physical pages.
    ///
    /// The sum of the user stack, ELF, heap and mapping pages, saturating at
    /// `u64::MAX` at each step.
    pub fn user_pages(self) -> (r: u64)
        ensures
            r == saturated_sum(
                saturated_sum(
                    saturated_sum(self.totals().user_stack as int, self.totals().user_elf as int),
                    self.totals().user_heap as int,
                ),
                self.totals().user_mapping as int,
            ),
    {
        self.user_stack.saturating_add(self.user_elf).saturating_add(self.user_heap).saturating_add(
            self.user_mapping,
        )
    }
}

/// Physical frame allocator totals captured at a specific boot point.
#[derive(Clone, Copy, Debug, Default, PartialEq, Eq, Structural)]
pub struct FrameAllocatorDiagnostics {
    reserved: u64,
    free: u64,
    used: u64,
    owners: FrameAllocatorOwnerDiagnostics,
}

impl FrameAllocatorDiagnostics {
    /// Reserved, free and used page totals, in that order.
    pub closed spec fn state_totals(self) -> (u64, u64, u64) {
        (self.reserved, self.free, self.used)
    }

    /// The captured owner totals.
    pub closed spec fn owner_totals(self) -> FrameAllocatorOwnerDiagnostics {
        self.owners
    }

    /// Capture the allocator's current state and owner page totals.
    pub fn capture(frame_allocator: &PhysicalFrameAllocator) -> (r: Self)
        requires
            frame_allocator.wf(),
        ensures
            r.state_totals().0 == pages_in_state(frame_allocator.range_list(), FrameRangeState::Reserved),
            r.state_totals().1 == pages_in_state(frame_allocator.range_list(), FrameRangeState::Free),
            r.state_totals().2 == pages_in_state(frame_allocator.range_list(), FrameRangeState::Used),
            owner_totals_match(r.owner_totals().totals(), frame_allocator.range_list()),
    {
        let statistics = frame_allocator.statistics();
        let owners = frame_allocator.owner_statistics();
        Self {
            reserved: statistics.reserved,
            free: statistics.free,
            used: statistics.used,
            owners: FrameAllocatorOwnerDiagnostics::from_statistics(owners),
        }
    }

    /// Return recorded reserved pages.
    pub fn reserved(self) -> (r: u64)
        ensures
            r == self.state_totals().0,
    {
        self.reserved
    }

    /// Return recorded free pages.
    pub fn free(self) -> (r: u64)
        ensures
            r == self.state_totals().1,
    {
        self.free
    }

    /// Return recorded used pages.
    pub fn used(self) -> (r: u64)
        ensures
            r == self.state_totals().2,
    {
        self.used
    }

    /// Return all recorded pages: reserved, free and used, saturating at
    /// `u64::MAX` at each step.
    pub fn total(self) -> (r: u64)
        ensures
            r == saturated_sum(
                saturated_sum(self.state_totals().0 as int, self.state_totals().1 as int),
                self.state_totals().2 as int,
            ),
    {
        self.reserved.saturating_add(self.free).saturating_add(self.used)
    }

    /// Return captured owner totals.
    pub fn owners(self) -> (r: FrameAllocatorOwnerDiagnostics)
        ensures
            r == self.owner_totals(),
    {
        self.owners
    }
}

/// Where the latest frame allocator snapshot is kept until it is read.
pub struct FrameAllocatorSnapshotStore {
    latest: Option<FrameAllocatorDiagnostics>,
}

impl FrameAllocatorSnapshotStore {
    /// The recorded snapshot, if one was recorded.
    pub closed spec fn latest(&self) -> Option<FrameAllocatorDiagnostics> {
        self.latest
    }

    /// A store with no snapshot recorded yet.
    pub fn new() -> (r: Self)
        ensures
            r.latest() is None,
    {
        Self { latest: None }
    }
}

/// Record the current physical frame allocator statistics for later diagnostics.
///
/// The snapshot replaces any earlier one.
pub fn record_frame_allocator_snapshot(
    store: &mut FrameAllocatorSnapshotStore,
    frame_allocator: &PhysicalFrameAllocator,
)
    requires
        frame_allocator.wf(),
    ensures
        final(store).latest() matches Some(snapshot) && {
            &&& snapshot.state_totals().0 == pages_in_state(
                frame_allocator.range_list(),
                FrameRangeState::Reserved,
            )
            &&& snapshot.state_totals().1 == pages_in_state(
                frame_allocator.range_list(),
                FrameRangeState::Free,
            )
            &&& snapshot.state_totals().2 == pages_in_state(
                frame_allocator.range_list(),
                FrameRangeState::Used,
            )
            &&& owner_totals_match(snapshot.owner_totals().totals(), frame_allocator.range_list())
        },
{
    store.latest = Some(FrameAllocatorDiagnostics::capture(frame_allocator));
}

/// Return the latest recorded physical frame allocator diagnostics.
///
/// `None` until a snapshot has been recorded.
pub fn get_frame_allocator_diagnostics(store: &FrameAllocatorSnapshotStore) -> (r: Option<
    FrameAllocatorDiagnostics,
>)
    ensures
        r == store.latest(),
{
    store.latest
}

} // verus!
