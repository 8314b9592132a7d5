//! User heap break tracking.
//!
//! A heap covers `[base, current_break)`; the pages from `base` up to
//! `mapped_end` are mapped. A `brk` request is checked and turned into a new
//! break and the page boundary the mapping must reach; the caller maps or
//! unmaps pages one at a time, recording each, and then sets the break.

use vstd::prelude::*;

use super::address::{is_user_address, page_floor, UserPageStart, UserVirtualAddress, VirtAddr};
use super::user_layout::USER_HEAP_END;

verus! {

const PAGE_SIZE: u64 = 4096;

/// `address` rounded up to a page boundary.
pub open spec fn page_ceiling(address: int) -> int {
    page_floor(address + 4095)
}

/// Per-user-task heap break and mapped extent.
#[derive(Clone, Copy, Debug, PartialEq, Eq, Structural)]
pub struct UserHeap {
    base: UserVirtualAddress,
    current_break: UserVirtualAddress,
    mapped_end: UserVirtualAddress,
}

/// What a `brk` request asks for: `None` keeps the current break, otherwise
/// the new break and the page boundary the mapped extent must move to.
pub open spec fn break_request_plan(base: u64, requested_break: u64) -> Option<(u64, u64)> {
    if requested_break == 0 || requested_break < base || requested_break >= USER_HEAP_END {
        None
    } else {
        Some((requested_break, page_ceiling(requested_break as int) as u64))
    }
}

impl UserHeap {
    /// The heap's base, break, and mapped end.
    pub closed spec fn parts(self) -> (u64, u64, u64) {
        (self.base@, self.current_break@, self.mapped_end@)
    }

    /// The heap's invariant: page-aligned base and mapped end, the break
    /// and the mapped end at or above the base, and the mapped end within
    /// the heap ceiling. Every heap keeps it.
    #[verifier::type_invariant]
    pub closed spec fn wf(self) -> bool {
        let (base, current_break, mapped_end) = self.parts();
        &&& base % 4096 == 0
        &&& mapped_end % 4096 == 0
        &&& base <= current_break < USER_HEAP_END
        &&& base <= mapped_end <= USER_HEAP_END
    }

    /// Create a heap whose initial break starts after loaded user segments.
    pub fn new(initial_break: UserVirtualAddress) -> (r: Self)
        requires
            initial_break@ % 4096 == 0,
            initial_break@ < USER_HEAP_END,
        ensures
            r.parts() == (initial_break@, initial_break@, initial_break@),
    {
        Self { base: initial_break, current_break: initial_break, mapped_end: initial_break }
    }

    /// Return the heap base address.
    pub fn base(self) -> (r: UserVirtualAddress)
        ensures
            r@ == self.parts().0,
    {
        self.base
    }

    /// Return the current heap break.
    pub fn current_break(self) -> (r: UserVirtualAddress)
        ensures
            r@ == self.parts().1,
    {
        self.current_break
    }

    /// Return the first unmapped page after heap-backed mappings.
    pub fn mapped_end(self) -> (r: UserVirtualAddress)
        ensures
            r@ == self.parts().2,
    {
        self.mapped_end
    }

    /// Return the number of pages currently mapped for this heap.
    pub fn mapped_pages(self) -> (r: u64)
        ensures
            r == (self.parts().2 - self.parts().0) / 4096,
    {
        proof {
            use_type_invariant(&self);
        }
        (self.mapped_end.as_u64() - self.base.as_u64()) / PAGE_SIZE
    }

    /// Check a Linux-like `brk` request against this heap.
    ///
    /// Zero, a break below the base, or one at or above the heap ceiling
    /// keeps the current break; otherwise the request gives the new break
    /// and the page boundary the mapping must reach.
    pub fn plan_break(self, requested_break: u64) -> (r: Option<(UserVirtualAddress, u64)>)
        ensures
            match break_request_plan(self.parts().0, requested_break) {
                None => r is None,
                Some((new_break, target)) => r matches Some((b, t)) && b@ == new_break && t
                    == target,
            },
    {
        if requested_break == 0 {
            return None;
        }
        if requested_break < self.base.as_u64() || requested_break >= USER_HEAP_END {
            return None;
        }
        let requested = match UserVirtualAddress::new(VirtAddr::new(requested_break)) {
            Some(address) => address,
            None => return None,
        };
        Some((requested, align_up_to_page(requested_break)))
    }

    /// The next page to map when the heap grows.
    pub fn next_unmapped_page(self) -> (r: UserPageStart)
        requires
            self.parts().2 < USER_HEAP_END,
        ensures
            r@ == self.parts().2,
    {
        proof {
            use_type_invariant(&self);
        }
        UserPageStart::new(self.mapped_end).expect("user heap mapped end must be page-aligned")
    }

    /// The last mapped page, which goes first when the heap shrinks.
    pub fn last_mapped_page(self) -> (r: UserPageStart)
        requires
            self.parts().0 < self.parts().2,
        ensures
            r@ == self.parts().2 - 4096,
    {
        proof {
            use_type_invariant(&self);
        }
        let _ = self.base.as_u64();
        let page = UserPageStart::new(self.mapped_end).expect(
            "user heap mapped end must be page-aligned",
        );
        page.checked_sub(PAGE_SIZE).expect("user heap unmapping address underflowed")
    }

    /// Record that the page at the mapped end is now mapped.
    pub fn record_mapped_page(&mut self)
        requires
            old(self).parts().2 < USER_HEAP_END,
        ensures
            final(self).parts() == (
                old(self).parts().0,
                old(self).parts().1,
                (old(self).parts().2 + 4096) as u64,
            ),
    {
        proof {
            use_type_invariant(&*self);
        }
        let page = self.next_unmapped_page();
        let next = page.checked_add(PAGE_SIZE).expect("user heap mapping address overflowed");
        self.mapped_end = next.as_address();
    }

    /// Record that the last mapped page is no longer mapped.
    pub fn record_unmapped_page(&mut self)
        requires
            old(self).parts().0 < old(self).parts().2,
        ensures
            final(self).parts() == (
                old(self).parts().0,
                old(self).parts().1,
                (old(self).parts().2 - 4096) as u64,
            ),
    {
        proof {
            use_type_invariant(&*self);
        }
        let page = self.last_mapped_page();
        self.mapped_end = page.as_address();
    }

    /// Move the break to a value a request was granted.
    pub fn set_break(&mut self, new_break: UserVirtualAddress)
        requires
            old(self).parts().0 <= new_break@ < USER_HEAP_END,
        ensures
            final(self).parts() == (old(self).parts().0, new_break@, old(self).parts().2),
    {
        proof {
            use_type_invariant(&*self);
        }
        self.current_break = new_break;
    }
}

/// Round `address` up to a 4 KiB boundary.
pub fn align_up_to_page(address: u64) -> (r: u64)
    requires
        address + 4095 <= u64::MAX,
    ensures
        r == page_ceiling(address as int),
{
    let raised = address + (PAGE_SIZE - 1);
    proof {
        assert(raised & !4095u64 == raised - raised % 4096) by (bit_vector);
    }
    raised & !(PAGE_SIZE - 1)
}

} // verus!
