//! Kernel task stack owner metadata.
//!
//! A guarded kernel stack reserves one more virtual page than it maps: the
//! lowest page stays unmapped as a guard, and the writable pages follow it
//! up to the stack top.

use vstd::prelude::*;

use crate::kernel::memory::address::{
    valid_kernel_virtual_range, KernelVirtualRange, MAX_PAGE_COUNT, PageCount, PhysicalFrameRange, VirtAddr,
};
use crate::kernel::memory::virtual_allocator::{
    first_fit, release_accepted, take_front, KernelVirtualRangeAllocator,
};

verus! {

const PAGE_SIZE_U64: u64 = 4096;
const KERNEL_STACK_GUARD_PAGES: u64 = 1;

/// The schedulable task kind that owns a guarded kernel stack.
#[derive(Clone, Copy, Debug, PartialEq, Eq, Structural)]
pub enum KernelStackFaultOwner {
    /// A kernel task owns the guarded stack.
    KernelTask,
    /// A user task owns the guarded kernel stack.
    UserTask,
}

impl KernelStackFaultOwner {
    /// Return a stable diagnostic label for this stack owner.
    pub fn as_str(self) -> (r: &'static str)
        ensures
            r@ == match self {
                KernelStackFaultOwner::KernelTask => "kernel_task"@,
                KernelStackFaultOwner::UserTask => "user_task"@,
            },
    {
        match self {
            Self::KernelTask => "kernel_task",
            Self::UserTask => "user_task",
        }
    }
}

/// Diagnostic metadata for a fault inside a known kernel stack guard page.
///
/// The view is the task identifier, the owner, the guard page start, the
/// writable start and the stack top.
#[derive(Clone, Copy, Debug, PartialEq, Eq, Structural)]
pub struct KernelStackGuardFault {
    task_identifier: u64,
    owner: KernelStackFaultOwner,
    guard_page_start: VirtAddr,
    writable_start: VirtAddr,
    stack_top: VirtAddr,
}

impl View for KernelStackGuardFault {
    type V = (u64, KernelStackFaultOwner, u64, u64, u64);

    closed spec fn view(&self) -> (u64, KernelStackFaultOwner, u64, u64, u64) {
        (
            self.task_identifier,
            self.owner,
            self.guard_page_start@,
            self.writable_start@,
            self.stack_top@,
        )
    }
}

impl KernelStackGuardFault {
    /// Create a kernel stack guard-fault diagnostic record.
    pub fn new(
        task_identifier: u64,
        owner: KernelStackFaultOwner,
        guard_page_start: VirtAddr,
        writable_start: VirtAddr,
        stack_top: VirtAddr,
    ) -> (r: Self)
        ensures
            r@ == (task_identifier, owner, guard_page_start@, writable_start@, stack_top@),
    {
        Self { task_identifier, owner, guard_page_start, writable_start, stack_top }
    }

    /// Return the task identifier that owns the guard page.
    pub fn task_identifier(self) -> (r: u64)
        ensures
            r == self@.0,
    {
        self.task_identifier
    }

    /// Return the owner kind for the guarded stack.
    pub fn owner(self) -> (r: KernelStackFaultOwner)
        ensures
            r == self@.1,
    {
        self.owner
    }

    /// Return the start address of the unmapped guard page.
    pub fn guard_page_start(self) -> (r: VirtAddr)
        ensures
            r@ == self@.2,
    {
        self.guard_page_start
    }

    /// Return the first mapped writable stack address.
    pub fn writable_start(self) -> (r: VirtAddr)
        ensures
            r@ == self@.3,
    {
        self.writable_start
    }

    /// Return the guarded stack top address.
    pub fn stack_top(self) -> (r: VirtAddr)
        ensures
            r@ == self@.4,
    {
        self.stack_top
    }
}

/// The virtual pages of one guarded kernel stack: the guard page followed by
/// the writable pages.
///
/// The view is the reserved range and the writable page count.
#[derive(Clone, Copy, Debug)]
pub struct KernelStackVirtualReservation {
    range: KernelVirtualRange,
    writable_page_count: PageCount,
}

impl View for KernelStackVirtualReservation {
    type V = ((u64, u64), u64);

    closed spec fn view(&self) -> ((u64, u64), u64) {
        (self.range@, self.writable_page_count@)
    }
}

impl KernelStackVirtualReservation {
    #[verifier::type_invariant]
    spec fn inv(self) -> bool {
        &&& self.range@.1 == self.writable_page_count@ + 1
        &&& valid_kernel_virtual_range(self.range@.0 as int, self.range@.1 as int)
    }

    /// Reserve the guard page and `writable_page_count` writable pages from
    /// `allocator`; `None` when the allocator has no run long enough or the
    /// total page count is not a valid page count.
    pub fn new(allocator: &mut KernelVirtualRangeAllocator, writable_page_count: PageCount) -> (r:
        Option<Self>)
        requires
            old(allocator).wf(),
        ensures
            final(allocator).wf(),
            final(allocator).managed() == old(allocator).managed(),
            r is Some <==> writable_page_count@ + 1 <= MAX_PAGE_COUNT && first_fit(
                old(allocator).free_list(),
                (writable_page_count@ + 1) as u64,
            ) < old(allocator).free_list().len(),
            r matches Some(reservation) ==> {
                &&& reservation@.1 == writable_page_count@
                &&& reservation@.0.1 == writable_page_count@ + 1
                &&& first_fit(old(allocator).free_list(), reservation@.0.1) < old(
                    allocator,
                ).free_list().len()
                &&& reservation@.0.0 == old(allocator).free_list()[first_fit(
                    old(allocator).free_list(),
                    reservation@.0.1,
                )].start
                &&& final(allocator).free_list() == take_front(
                    old(allocator).free_list(),
                    first_fit(old(allocator).free_list(), reservation@.0.1),
                    reservation@.0.1,
                )
            },
            r is None ==> final(allocator).free_list() == old(allocator).free_list(),
    {
        let reserved = match writable_page_count.as_u64().checked_add(KERNEL_STACK_GUARD_PAGES) {
            Some(count) => count,
            None => return None,
        };
        let reserved_page_count = match PageCount::new(reserved) {
            Some(count) => count,
            None => return None,
        };
        let range = match allocator.allocate_pages(reserved_page_count) {
            Some(range) => range,
            None => return None,
        };
        let _ = range.start();
        Some(Self { range, writable_page_count })
    }

    /// Return the first address of the guard page.
    pub fn guard_page_start(&self) -> (r: VirtAddr)
        ensures
            r@ == self@.0.0,
    {
        self.range.start()
    }

    /// Return the guard page as a one-page range.
    pub fn guard_range(&self) -> (r: KernelVirtualRange)
        ensures
            r@ == (self@.0.0, 1u64),
    {
        let one = PageCount::new(KERNEL_STACK_GUARD_PAGES).expect(
            "kernel stack page count must be valid",
        );
        proof {
            use_type_invariant(self);
        }
        KernelVirtualRange::new(self.guard_page_start(), one).expect(
            "kernel stack guard range must be valid",
        )
    }

    /// Return the first writable address, one page above the guard.
    pub fn writable_start(&self) -> (r: VirtAddr)
        ensures
            r@ == self@.0.0 + 4096,
    {
        proof {
            use_type_invariant(self);
        }
        self.range.start().checked_add(PAGE_SIZE_U64).expect(
            "kernel stack writable range must follow the guard page",
        )
    }

    /// Return the writable pages as a range.
    pub fn writable_range(&self) -> (r: KernelVirtualRange)
        ensures
            r@ == ((self@.0.0 + 4096) as u64, self@.1),
    {
        proof {
            use_type_invariant(self);
        }
        let _ = self.writable_page_count.as_u64();
        KernelVirtualRange::new(self.writable_start(), self.writable_page_count).expect(
            "kernel stack writable range must be valid",
        )
    }

    /// Return the whole reserved range, guard page included.
    pub fn reserved_range(&self) -> (r: KernelVirtualRange)
        ensures
            r@ == self@.0,
    {
        self.range
    }

    /// Return one byte past the highest writable address.
    pub fn stack_top(&self) -> (r: VirtAddr)
        ensures
            r@ == self@.0.0 + self@.0.1 * 4096,
    {
        self.range.end_exclusive()
    }

    /// Return the number of reserved pages, guard page included.
    pub fn reserved_page_count(&self) -> (r: u64)
        ensures
            r == self@.0.1,
    {
        self.range.page_count()
    }

    /// Return the number of writable pages.
    pub fn writable_page_count(&self) -> (r: u64)
        ensures
            r == self@.1,
    {
        self.writable_page_count.as_u64()
    }
}

/// Page counts reclaimed while destroying one finished task kernel stack.
#[derive(Clone, Copy, Debug, PartialEq, Eq, Structural)]
pub struct KernelStackReclaim {
    writable_pages: u64,
    virtual_pages: u64,
}

impl View for KernelStackReclaim {
    type V = (u64, u64);

    closed spec fn view(&self) -> (u64, u64) {
        (self.writable_pages, self.virtual_pages)
    }
}

impl KernelStackReclaim {
    /// Return the number of mapped writable stack pages returned to the frame allocator.
    pub fn writable_pages(self) -> (r: u64)
        ensures
            r == self@.0,
    {
        self.writable_pages
    }

    /// Return the number of reserved virtual pages returned to the range allocator.
    pub fn virtual_pages(self) -> (r: u64)
        ensures
            r == self@.1,
    {
        self.virtual_pages
    }
}

/// Guarded mapped kernel stack owned by one schedulable task.
///
/// The lowest reserved virtual page is intentionally unmapped as the guard
/// page. Writable pages are mapped kernel-only and non-executable.
#[derive(Clone, Copy, Debug)]
pub struct KernelStack {
    virtual_reservation: KernelStackVirtualReservation,
    physical_range: PhysicalFrameRange,
}

impl KernelStack {
    /// The virtual reservation and the physical frames.
    pub closed spec fn parts(&self) -> (((u64, u64), u64), (u64, u64)) {
        (self.virtual_reservation@, self.physical_range@)
    }

    /// A stack whose writable pages were mapped onto `physical_range`.
    pub fn from_parts(virtual_reservation: KernelStackVirtualReservation, physical_range: PhysicalFrameRange) -> (r: Self)
        ensures
            r.parts() == (virtual_reservation@, physical_range@),
    {
        Self { virtual_reservation, physical_range }
    }

    /// Return the reserved guard page virtual start address.
    pub fn guard_page_virtual_start(&self) -> (r: VirtAddr)
        ensures
            r@ == self.parts().0.0.0,
    {
        self.virtual_reservation.guard_page_start()
    }

    /// Return the first virtual address of the writable pages.
    pub fn writable_virtual_start(&self) -> (r: VirtAddr)
        ensures
            r@ == self.parts().0.0.0 + 4096,
    {
        self.virtual_reservation.writable_start()
    }

    /// Return the guarded stack virtual top address.
    pub fn virtual_top(&self) -> (r: VirtAddr)
        ensures
            r@ == self.parts().0.0.0 + self.parts().0.0.1 * 4096,
    {
        self.virtual_reservation.stack_top()
    }

    /// Return the number of reserved virtual pages including the guard page.
    pub fn reserved_page_count(&self) -> (r: u64)
        ensures
            r == self.parts().0.0.1,
    {
        self.virtual_reservation.reserved_page_count()
    }

    /// Return the number of writable stack pages.
    pub fn writable_page_count(&self) -> (r: u64)
        ensures
            r == self.parts().0.1,
    {
        self.virtual_reservation.writable_page_count()
    }

    /// Return whether `address` is inside this stack's unmapped guard page.
    pub fn contains_guard_address(&self, address: VirtAddr) -> (r: bool)
        ensures
            r == (self.parts().0.0.0 <= address@ < self.parts().0.0.0 + 4096),
    {
        let guard_start = self.guard_page_virtual_start().as_u64();
        proof {
            use_type_invariant(&self.virtual_reservation);
        }
        let guard_end = guard_start.checked_add(PAGE_SIZE_U64).expect(
            "kernel stack guard range end overflowed",
        );
        address.as_u64() >= guard_start && address.as_u64() < guard_end
    }

    /// Return whether a non-empty byte range lies inside the writable pages.
    pub fn contains_writable_range(&self, start_address: VirtAddr, byte_len: u64) -> (r: bool)
        ensures
            r == (byte_len > 0 && start_address@ + byte_len <= u64::MAX && self.parts().0.0.0
                + 4096 <= start_address@ && start_address@ + byte_len <= self.parts().0.0.0
                + self.parts().0.0.1 * 4096),
    {
        if byte_len == 0 {
            return false;
        }
        let end_address = match start_address.checked_add(byte_len) {
            Some(end) => end,
            None => return false,
        };
        start_address.as_u64() >= self.writable_virtual_start().as_u64() && end_address.as_u64()
            <= self.virtual_top().as_u64()
    }

    /// The writable pages of the stack, above the guard page.
    pub fn writable_range(&self) -> (r: KernelVirtualRange)
        ensures
            r@ == ((self.parts().0.0.0 + 4096) as u64, self.parts().0.1),
    {
        self.virtual_reservation.writable_range()
    }

    /// The frames behind the writable pages.
    pub fn physical_range(&self) -> (r: PhysicalFrameRange)
        ensures
            r@ == self.parts().1,
    {
        self.physical_range
    }

    /// Return the virtual reservation to `virtual_range_allocator` once the
    /// writable pages were unmapped and their frames freed, and report what
    /// was reclaimed; `None`, with nothing returned, when the allocator
    /// refuses the range.
    pub fn release_reservation(self, virtual_range_allocator: &mut KernelVirtualRangeAllocator) -> (r:
        Option<KernelStackReclaim>)
        requires
            old(virtual_range_allocator).wf(),
        ensures
            final(virtual_range_allocator).wf(),
            r is Some <==> release_accepted(
                old(virtual_range_allocator).free_list(),
                old(virtual_range_allocator).low(),
                old(virtual_range_allocator).high(),
                self.parts().0.0.0,
                self.parts().0.0.1,
            ),
            r is Some ==> final(virtual_range_allocator).free_list()
                == crate::kernel::memory::virtual_allocator::release_result(
                old(virtual_range_allocator).free_list(),
                self.parts().0.0.0,
                self.parts().0.0.1,
            ),
            r is None ==> final(virtual_range_allocator).free_list() == old(
                virtual_range_allocator,
            ).free_list(),
            r matches Some(reclaim) ==> reclaim@ == (self.parts().1.1, self.parts().0.0.1),
    {
        let reserved_range = self.virtual_reservation.reserved_range();
        let writable_pages = self.physical_range.page_count();
        let virtual_pages = self.virtual_reservation.reserved_page_count();
        if virtual_range_allocator.free_pages(reserved_range) {
            Some(KernelStackReclaim { writable_pages, virtual_pages })
        } else {
            None
        }
    }
}

} // verus!
