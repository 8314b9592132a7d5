//! Lifetime accounting of a user task's private mappings: pages mapped and
//! released in total, the peaks of active pages and records, and the number
//! of file-backed mappings. Every count saturates at the largest value.

use vstd::prelude::*;

verus! {

/// Private mapping accounting of one user task.
#[derive(Clone, Copy, Debug, PartialEq, Eq, Structural)]
pub struct UserMappingStatistics {
    /// Pages mapped by private mappings.
    pub total_mapped_pages: u64,
    /// Pages released by unmapping or replacement.
    pub total_released_pages: u64,
    /// Largest number of active pages seen after a change.
    pub peak_active_pages: u64,
    /// Largest number of active records seen after a change.
    pub peak_active_records: u64,
    /// Number of file-backed private mappings made.
    pub file_private_map_count: u64,
}

/// `a + b`, or the largest value when that overflows.
pub open spec fn saturating_sum(a: u64, b: u64) -> u64 {
    if a + b > u64::MAX {
        u64::MAX
    } else {
        (a + b) as u64
    }
}

/// The larger of `a` and `b`.
pub open spec fn larger(a: u64, b: u64) -> u64 {
    if a < b {
        b
    } else {
        a
    }
}

/// Accounting with nothing recorded.
pub open spec fn no_mapping_statistics() -> UserMappingStatistics {
    UserMappingStatistics {
        total_mapped_pages: 0,
        total_released_pages: 0,
        peak_active_pages: 0,
        peak_active_records: 0,
        file_private_map_count: 0,
    }
}

impl UserMappingStatistics {
    /// Accounting with nothing recorded.
    pub fn new() -> (r: Self)
        ensures
            r == no_mapping_statistics(),
    {
        Self {
            total_mapped_pages: 0,
            total_released_pages: 0,
            peak_active_pages: 0,
            peak_active_records: 0,
            file_private_map_count: 0,
        }
    }

    /// Record a private mapping of `mapped_pages` pages that replaced
    /// `replaced_pages` pages, after which the task has `active_pages` pages
    /// in `active_records` records.
    pub fn record_mapping(
        &mut self,
        mapped_pages: u64,
        replaced_pages: u64,
        active_pages: u64,
        active_records: u64,
        file_private: bool,
    )
        ensures
            *final(self) == (UserMappingStatistics {
                total_mapped_pages: saturating_sum(old(self).total_mapped_pages, mapped_pages),
                total_released_pages: saturating_sum(old(self).total_released_pages, replaced_pages),
                peak_active_pages: larger(old(self).peak_active_pages, active_pages),
                peak_active_records: larger(old(self).peak_active_records, active_records),
                file_private_map_count: if file_private {
                    saturating_sum(old(self).file_private_map_count, 1)
                } else {
                    old(self).file_private_map_count
                },
            }),
    {
        self.total_mapped_pages = self.total_mapped_pages.saturating_add(mapped_pages);
        self.total_released_pages = self.total_released_pages.saturating_add(replaced_pages);
        if self.peak_active_pages < active_pages {
            self.peak_active_pages = active_pages;
        }
        if self.peak_active_records < active_records {
            self.peak_active_records = active_records;
        }
        if file_private {
            self.file_private_map_count = self.file_private_map_count.saturating_add(1);
        }
    }

    /// Record an unmapping of `unmapped_pages` pages, after which the task
    /// has `active_pages` pages in `active_records` records.
    pub fn record_unmapping(&mut self, unmapped_pages: u64, active_pages: u64, active_records: u64)
        ensures
            *final(self) == (UserMappingStatistics {
                total_released_pages: saturating_sum(old(self).total_released_pages, unmapped_pages),
                peak_active_pages: larger(old(self).peak_active_pages, active_pages),
                peak_active_records: larger(old(self).peak_active_records, active_records),
                ..*old(self)
            }),
    {
        self.total_released_pages = self.total_released_pages.saturating_add(unmapped_pages);
        if self.peak_active_pages < active_pages {
            self.peak_active_pages = active_pages;
        }
        if self.peak_active_records < active_records {
            self.peak_active_records = active_records;
        }
    }
}

} // verus!
