//! Reusable allocation of non-overlapping kernel virtual page ranges.
//!
//! The allocator manages one page-aligned kernel virtual range and keeps the
//! pages not yet handed out as a list of free runs, sorted by start address,
//! pairwise apart, and with touching runs joined after every release.
//! Contracts describe each operation as the exact change of that list; the
//! laws at the end state what it means for the set of free pages.

use vstd::prelude::*;

use super::address::{
    lemma_kernel_virtual_range_view_injective, valid_kernel_virtual_range, KernelVirtualRange, PageCount,
    VirtAddr, MAX_PAGE_COUNT,
};

verus! {

const PAGE_SIZE: u64 = 4096;
const DYNAMIC_MAPPING_START: u64 = 0xffff_8000_0000_0000;
const DYNAMIC_MAPPING_PAGE_COUNT: u64 = 262_144;
const MAX_FREE_RANGES: usize = 128;

/// Capacity of the free run list.
pub open spec fn max_free_ranges() -> int {
    128
}

/// A run of free kernel virtual pages.
#[derive(Clone, Copy, Debug, PartialEq, Eq, Structural)]
pub struct VirtualFreeRange {
    /// First address of the run.
    pub start: u64,
    /// Number of 4 KiB pages in the run.
    pub page_count: u64,
}

impl VirtualFreeRange {
    /// One byte past the last page of the run.
    pub open spec fn end(self) -> int {
        self.start + self.page_count * 4096
    }

    /// Whether the page starting at `page` lies in this run.
    pub open spec fn holds_page(self, page: int) -> bool {
        &&& self.start <= page < self.end()
        &&& page % 4096 == 0
    }
}

/// The page start addresses covered by the pages `[start, start + count * 4096)`.
pub open spec fn pages_of(start: int, page_count: int) -> Set<int> {
    Set::new(|page: int| start <= page < start + page_count * 4096 && page % 4096 == 0)
}

/// The page start addresses covered by the runs of `s`.
pub open spec fn free_page_set(s: Seq<VirtualFreeRange>) -> Set<int> {
    Set::new(|page: int| exists|i: int| 0 <= i < s.len() && (#[trigger] s[i]).holds_page(page))
}

/// Whether a run is non-empty, page aligned and inside `[low, high)`.
pub open spec fn run_valid(r: VirtualFreeRange, low: int, high: int) -> bool {
    &&& r.page_count > 0
    &&& r.start % 4096 == 0
    &&& low <= r.start
    &&& r.end() <= high
}

/// The shape every free run list keeps: within capacity, every run valid,
/// runs sorted by address and pairwise apart.
pub open spec fn free_list_valid(s: Seq<VirtualFreeRange>, low: int, high: int) -> bool {
    &&& s.len() <= max_free_ranges()
    &&& forall|i: int| 0 <= i < s.len() ==> run_valid(#[trigger] s[i], low, high)
    &&& forall|i: int, j: int| #![trigger s[i], s[j]] 0 <= i < j < s.len() ==> s[i].end() <= s[j].start
}

/// Sum of the page counts of the runs of `s`.
pub open spec fn free_page_total(s: Seq<VirtualFreeRange>) -> int
    decreases s.len(),
{
    if s.len() == 0 {
        0
    } else {
        free_page_total(s.drop_last()) + s.last().page_count
    }
}

/// The run list left by one left-to-right pass that joins each run into the
/// previous output run whenever the two touch.
pub open spec fn merge_free(s: Seq<VirtualFreeRange>) -> Seq<VirtualFreeRange>
    decreases s.len(),
{
    if s.len() <= 1 {
        s
    } else {
        let m = merge_free(s.drop_last());
        if m.last().end() == s.last().start {
            m.drop_last().push(
                VirtualFreeRange {
                    start: m.last().start,
                    page_count: (m.last().page_count + s.last().page_count) as u64,
                },
            )
        } else {
            m.push(s.last())
        }
    }
}

/// Index of the first run with at least `pages` pages, or the list length
/// when there is none.
pub open spec fn first_fit(s: Seq<VirtualFreeRange>, pages: u64) -> int
    decreases s.len(),
{
    if s.len() == 0 {
        0
    } else if s[0].page_count >= pages {
        0
    } else {
        1 + first_fit(s.subrange(1, s.len() as int), pages)
    }
}

/// The run list after `pages` pages are taken from the front of run `i`.
pub open spec fn take_front(s: Seq<VirtualFreeRange>, i: int, pages: u64) -> Seq<
    VirtualFreeRange,
> {
    if s[i].page_count == pages {
        s.remove(i)
    } else {
        s.update(
            i,
            VirtualFreeRange {
                start: (s[i].start + pages * 4096) as u64,
                page_count: (s[i].page_count - pages) as u64,
            },
        )
    }
}

/// Index of the first run whose start is not below `start`, or the list
/// length when there is none: where a released range is inserted.
pub open spec fn insertion_point(s: Seq<VirtualFreeRange>, start: u64) -> int
    decreases s.len(),
{
    if s.len() == 0 {
        0
    } else if s[0].start >= start {
        0
    } else {
        1 + insertion_point(s.subrange(1, s.len() as int), start)
    }
}

/// Whether releasing the pages `[start, start + pages * 4096)` is accepted:
/// they lie in the managed range, overlap neither neighbouring free run, and
/// the list has room for one more run.
pub open spec fn release_accepted(
    s: Seq<VirtualFreeRange>,
    low: int,
    high: int,
    start: u64,
    pages: u64,
) -> bool {
    let k = insertion_point(s, start);
    &&& low <= start
    &&& start + pages * 4096 <= high
    &&& k > 0 ==> s[k - 1].end() <= start
    &&& k < s.len() ==> start + pages * 4096 <= s[k].start
    &&& s.len() < max_free_ranges()
}

/// The run list after the pages `[start, start + pages * 4096)` are released.
pub open spec fn release_result(s: Seq<VirtualFreeRange>, start: u64, pages: u64) -> Seq<
    VirtualFreeRange,
> {
    merge_free(
        s.insert(insertion_point(s, start), VirtualFreeRange { start, page_count: pages }),
    )
}

/// A reusable allocator for reserved kernel virtual page ranges.
pub struct KernelVirtualRangeAllocator {
    managed_start: VirtAddr,
    managed_page_count: PageCount,
    free_ranges: Vec<VirtualFreeRange>,
}

impl KernelVirtualRangeAllocator {
    /// The managed range, as its start address and page count.
    pub closed spec fn managed(&self) -> (u64, u64) {
        (self.managed_start@, self.managed_page_count@)
    }

    /// First address of the managed range.
    pub open spec fn low(&self) -> int {
        self.managed().0 as int
    }

    /// One byte past the managed range.
    pub open spec fn high(&self) -> int {
        self.managed().0 + self.managed().1 * 4096
    }

    /// The free runs, in address order.
    pub closed spec fn free_list(&self) -> Seq<VirtualFreeRange> {
        self.free_ranges@
    }

    /// The allocator's invariant: a valid managed range and a valid free run
    /// list inside it.
    pub open spec fn wf(&self) -> bool {
        &&& valid_kernel_virtual_range(
            self.managed().0 as int,
            self.managed().1 as int,
        )
        &&& free_list_valid(self.free_list(), self.low(), self.high())
    }
}

proof fn lemma_first_fit(s: Seq<VirtualFreeRange>, pages: u64, k: int)
    requires
        0 <= k <= s.len(),
        forall|j: int| 0 <= j < k ==> (#[trigger] s[j]).page_count < pages,
        k == s.len() || s[k].page_count >= pages,
    ensures
        first_fit(s, pages) == k,
    decreases k,
{
    if k > 0 {
        let t = s.subrange(1, s.len() as int);
        assert(s[0].page_count < pages);
        assert forall|j: int| 0 <= j < k - 1 implies (#[trigger] t[j]).page_count < pages by {
            assert(t[j] == s[j + 1]);
        }
        if k < s.len() {
            assert(t[k - 1] == s[k]);
        }
        lemma_first_fit(t, pages, k - 1);
    }
}

proof fn lemma_first_fit_found(s: Seq<VirtualFreeRange>, pages: u64)
    requires
        first_fit(s, pages) < s.len(),
    ensures
        0 <= first_fit(s, pages),
        s[first_fit(s, pages)].page_count >= pages,
    decreases s.len(),
{
    if s.len() > 0 && s[0].page_count < pages {
        let t = s.subrange(1, s.len() as int);
        lemma_first_fit_found(t, pages);
        assert(s[first_fit(s, pages)] == t[first_fit(t, pages)]);
    }
}

proof fn lemma_insertion_point(s: Seq<VirtualFreeRange>, start: u64, k: int)
    requires
        0 <= k <= s.len(),
        forall|j: int| 0 <= j < k ==> (#[trigger] s[j]).start < start,
        k == s.len() || s[k].start >= start,
    ensures
        insertion_point(s, start) == k,
    decreases k,
{
    if k > 0 {
        let t = s.subrange(1, s.len() as int);
        assert(s[0].start < start);
        assert forall|j: int| 0 <= j < k - 1 implies (#[trigger] t[j]).start < start by {
            assert(t[j] == s[j + 1]);
        }
        if k < s.len() {
            assert(t[k - 1] == s[k]);
        }
        lemma_insertion_point(t, start, k - 1);
    }
}

proof fn lemma_insertion_point_bounds(s: Seq<VirtualFreeRange>, start: u64)
    ensures
        0 <= insertion_point(s, start) <= s.len(),
    decreases s.len(),
{
    if s.len() > 0 && s[0].start < start {
        lemma_insertion_point_bounds(s.subrange(1, s.len() as int), start);
    }
}

proof fn lemma_valid_prefix(s: Seq<VirtualFreeRange>, low: int, high: int)
    requires
        free_list_valid(s, low, high),
        s.len() > 0,
    ensures
        free_list_valid(s.drop_last(), low, high),
        run_valid(s.last(), low, high),
        forall|i: int| 0 <= i < s.len() - 1 ==> (#[trigger] s[i]).end() <= s.last().start,
{
    let p = s.drop_last();
    assert forall|i: int| 0 <= i < p.len() implies run_valid(#[trigger] p[i], low, high) by {
        assert(p[i] == s[i]);
    }
    assert forall|i: int, j: int| 0 <= i < j < p.len() implies #[trigger] p[i].end()
        <= #[trigger] p[j].start by {
        assert(p[i] == s[i]);
        assert(p[j] == s[j]);
    }
    assert(s.last() == s[s.len() - 1]);
    assert forall|i: int| 0 <= i < s.len() - 1 implies (#[trigger] s[i]).end() <= s.last().start by {
        assert(s[i].end() <= s[s.len() - 1].start);
    }
}

proof fn lemma_page_set_push(s: Seq<VirtualFreeRange>, e: VirtualFreeRange)
    ensures
        free_page_set(s.push(e)) == free_page_set(s).union(pages_of(e.start as int, e.page_count as int)),
{
    let t = s.push(e);
    assert forall|page: int| #[trigger] free_page_set(t).contains(page) implies free_page_set(
        s,
    ).union(pages_of(e.start as int, e.page_count as int)).contains(page) by {
        let i = choose|i: int| 0 <= i < t.len() && (#[trigger] t[i]).holds_page(page);
        if i < s.len() {
            assert(t[i] == s[i]);
            assert(free_page_set(s).contains(page));
        }
    }
    assert forall|page: int| #[trigger] free_page_set(s).union(
        pages_of(e.start as int, e.page_count as int),
    ).contains(page) implies free_page_set(t).contains(page) by {
        if free_page_set(s).contains(page) {
            let i = choose|i: int| 0 <= i < s.len() && (#[trigger] s[i]).holds_page(page);
            assert(t[i] == s[i]);
        } else {
            assert(t[s.len() as int] == e);
            assert(t[s.len() as int].holds_page(page));
        }
    }
    assert(free_page_set(t) =~= free_page_set(s).union(
        pages_of(e.start as int, e.page_count as int),
    ));
}

proof fn lemma_page_set_drop_last(s: Seq<VirtualFreeRange>)
    requires
        s.len() > 0,
    ensures
        free_page_set(s) == free_page_set(s.drop_last()).union(
            pages_of(s.last().start as int, s.last().page_count as int),
        ),
{
    lemma_page_set_push(s.drop_last(), s.last());
    assert(s.drop_last().push(s.last()) == s);
}

/// Merging keeps the run list valid and covers the same pages.
proof fn lemma_merge_free(s: Seq<VirtualFreeRange>, low: int, high: int)
    requires
        free_list_valid(s, low, high),
        high <= u64::MAX,
    ensures
        free_list_valid(merge_free(s), low, high),
        merge_free(s).len() <= s.len(),
        free_page_set(merge_free(s)) == free_page_set(s),
        free_page_total(merge_free(s)) == free_page_total(s),
        s.len() > 0 ==> forall|i: int|
            0 <= i < merge_free(s).len() ==> (#[trigger] merge_free(s)[i]).end()
                <= s.last().end(),
    decreases s.len(),
{
    if s.len() == 1 {
        assert(s.last() == s[0]);
    }
    if s.len() > 1 {
        let p = s.drop_last();
        let last = s.last();
        lemma_valid_prefix(s, low, high);
        lemma_merge_free(p, low, high);
        let m = merge_free(p);
        assert(p.last() == s[s.len() - 2]);
        assert(p.last().end() <= last.start);
        assert(m.last() == m[m.len() - 1]);
        lemma_page_set_drop_last(s);
        lemma_page_set_drop_last(m);
        assert(m.drop_last().push(m.last()) == m);
        if m.last().end() == last.start {
            let md = m.drop_last();
            let j = VirtualFreeRange {
                start: m.last().start,
                page_count: (m.last().page_count + last.page_count) as u64,
            };
            assert(j.end() == last.end());
            let r = md.push(j);
            assert(merge_free(s) == r);
            assert forall|i: int| 0 <= i < r.len() implies run_valid(#[trigger] r[i], low, high) by {
                if i < md.len() {
                    assert(r[i] == m[i]);
                }
            }
            assert forall|i: int, k: int| 0 <= i < k < r.len() implies #[trigger] r[i].end()
                <= #[trigger] r[k].start by {
                assert(r[i] == m[i]);
                if k < md.len() {
                    assert(r[k] == m[k]);
                } else {
                    assert(m[i].end() <= m[m.len() - 1].start);
                }
            }
            assert forall|i: int| 0 <= i < r.len() implies (#[trigger] r[i]).end() <= s.last().end() by {
                if i < md.len() {
                    assert(r[i] == m[i]);
                }
            }
            lemma_page_set_push(md, j);
            assert(pages_of(j.start as int, j.page_count as int) =~= pages_of(
                m.last().start as int,
                m.last().page_count as int,
            ).union(pages_of(last.start as int, last.page_count as int)));
            assert(free_page_set(r) =~= free_page_set(s));
            assert(r.drop_last() == md);
            assert(m.drop_last() == md);
        } else {
            let r = m.push(last);
            assert(merge_free(s) == r);
            assert forall|i: int| 0 <= i < r.len() implies run_valid(#[trigger] r[i], low, high) by {
                if i < m.len() {
                    assert(r[i] == m[i]);
                }
            }
            assert forall|i: int, k: int| 0 <= i < k < r.len() implies #[trigger] r[i].end()
                <= #[trigger] r[k].start by {
                assert(r[i] == m[i]);
                if k < m.len() {
                    assert(r[k] == m[k]);
                }
            }
            assert forall|i: int| 0 <= i < r.len() implies (#[trigger] r[i]).end() <= s.last().end() by {
                if i < m.len() {
                    assert(r[i] == m[i]);
                }
            }
            lemma_page_set_push(m, last);
            assert(r.drop_last() == m);
        }
    }
}

proof fn lemma_merge_free_step(s: Seq<VirtualFreeRange>, r: int)
    requires
        1 <= r < s.len(),
    ensures
        merge_free(s.subrange(0, r + 1)) == if merge_free(s.subrange(0, r)).last().end()
            == s[r].start {
            merge_free(s.subrange(0, r)).drop_last().push(
                VirtualFreeRange {
                    start: merge_free(s.subrange(0, r)).last().start,
                    page_count: (merge_free(s.subrange(0, r)).last().page_count
                        + s[r].page_count) as u64,
                },
            )
        } else {
            merge_free(s.subrange(0, r)).push(s[r])
        },
{
    assert(s.subrange(0, r + 1).drop_last() == s.subrange(0, r));
    assert(s.subrange(0, r + 1).last() == s[r]);
}

proof fn lemma_valid_subrange(s: Seq<VirtualFreeRange>, low: int, high: int, hi: int)
    requires
        free_list_valid(s, low, high),
        0 <= hi <= s.len(),
    ensures
        free_list_valid(s.subrange(0, hi), low, high),
{
    let t = s.subrange(0, hi);
    assert forall|i: int| 0 <= i < t.len() implies run_valid(#[trigger] t[i], low, high) by {
        assert(t[i] == s[i]);
    }
    assert forall|i: int, j: int| 0 <= i < j < t.len() implies #[trigger] t[i].end()
        <= #[trigger] t[j].start by {
        assert(t[i] == s[i]);
        assert(t[j] == s[j]);
    }
}

/// The total page count of a valid run list fits in the managed range.
proof fn lemma_total_bounded(s: Seq<VirtualFreeRange>, low: int, high: int)
    requires
        free_list_valid(s, low, high),
    ensures
        0 <= free_page_total(s),
        s.len() > 0 ==> free_page_total(s) * 4096 <= s.last().end() - low,
        free_page_total(s) * 4096 <= if high >= low {
            high - low
        } else {
            0
        },
    decreases s.len(),
{
    if s.len() > 0 {
        lemma_valid_prefix(s, low, high);
        lemma_total_bounded(s.drop_last(), low, high);
        if s.len() > 1 {
            assert(s.drop_last().last() == s[s.len() - 2]);
        }
    }
}

impl KernelVirtualRangeAllocator {
    /// Create a kernel virtual range allocator from a page-aligned start and
    /// total page count.
    ///
    /// Returns `None` exactly when the pair does not form a valid kernel
    /// virtual range; otherwise the whole range starts out free.
    pub fn new(start: VirtAddr, page_count: PageCount) -> (r: Option<Self>)
        ensures
            r is Some <==> valid_kernel_virtual_range(
                start@ as int,
                page_count@ as int,
            ),
            r matches Some(allocator) ==> {
                &&& allocator.wf()
                &&& allocator.managed() == (start@, page_count@)
                &&& allocator.free_list() == seq![
                    VirtualFreeRange { start: start@, page_count: page_count@ },
                ]
            },
    {
        match KernelVirtualRange::new(start, page_count) {
            Some(_) => {},
            None => return None,
        }
        let mut free_ranges: Vec<VirtualFreeRange> = Vec::new();
        free_ranges.push(VirtualFreeRange { start: start.as_u64(), page_count: page_count.as_u64() });
        let allocator = Self { managed_start: start, managed_page_count: page_count, free_ranges };
        proof {
            assert(allocator.free_ranges@ =~= seq![
                VirtualFreeRange { start: start@, page_count: page_count@ },
            ]);
        }
        Some(allocator)
    }

    fn remove_free_range_at(&mut self, index: usize)
        requires
            index < old(self).free_ranges@.len(),
        ensures
            final(self).free_ranges@ == old(self).free_ranges@.remove(index as int),
            final(self).managed() == old(self).managed(),
    {
        self.free_ranges.remove(index);
    }

    /// Allocate a non-overlapping kernel virtual range with `page_count` pages.
    ///
    /// The pages are taken from the front of the first free run, in address
    /// order, that holds at least `page_count` pages.
    pub fn allocate_pages(&mut self, page_count: PageCount) -> (r: Option<KernelVirtualRange>)
        requires
            old(self).wf(),
        ensures
            final(self).wf(),
            final(self).managed() == old(self).managed(),
            r is Some <==> first_fit(old(self).free_list(), page_count@) < old(
                self,
            ).free_list().len(),
            r matches Some(range) ==> {
                &&& range@ == (
                    old(self).free_list()[first_fit(old(self).free_list(), page_count@)].start,
                    page_count@,
                )
                &&& final(self).free_list() == take_front(
                    old(self).free_list(),
                    first_fit(old(self).free_list(), page_count@),
                    page_count@,
                )
            },
            r is None ==> final(self).free_list() == old(self).free_list(),
    {
        let pages = page_count.as_u64();
        let ghost s = self.free_ranges@;
        let mut index: usize = 0;
        while index < self.free_ranges.len()
            invariant
                0 <= index <= s.len(),
                s == self.free_ranges@,
                s == old(self).free_ranges@,
                self.managed() == old(self).managed(),
                old(self).wf(),
                pages == page_count@,
                0 < pages <= MAX_PAGE_COUNT,
                forall|j: int| 0 <= j < index ==> (#[trigger] s[j]).page_count < pages,
            decreases s.len() - index,
        {
            let free_range = self.free_ranges[index];
            if free_range.page_count < pages {
                index = index + 1;
                continue;
            }
            proof {
                lemma_first_fit(s, pages, index as int);
                assert(run_valid(s[index as int], self.low(), self.high()));
                assert(free_range.start + pages * 4096 <= free_range.start + free_range.page_count * 4096) by (nonlinear_arith)
                    requires pages <= free_range.page_count;
                assert(valid_kernel_virtual_range(
                    free_range.start as int,
                    pages as int,
                ));
            }
            let range = match KernelVirtualRange::new(VirtAddr::new(free_range.start), page_count) {
                Some(range) => range,
                None => {
                    proof {
                        assert(false);
                    }
                    return None;
                },
            };
            if free_range.page_count == pages {
                self.remove_free_range_at(index);
            } else {
                let byte_len = page_count.byte_len();
                self.free_ranges.set(
                    index,
                    VirtualFreeRange {
                        start: free_range.start + byte_len,
                        page_count: free_range.page_count - pages,
                    },
                );
            }
            proof {
                let t = self.free_ranges@;
                let low = self.low();
                let high = self.high();
                let i = index as int;
                assert(t == take_front(s, i, pages));
                assert forall|a: int| 0 <= a < t.len() implies run_valid(#[trigger] t[a], low, high) by {
                    if free_range.page_count == pages {
                        if a < i {
                            assert(t[a] == s[a]);
                        } else {
                            assert(t[a] == s[a + 1]);
                        }
                    } else if a != i {
                        assert(t[a] == s[a]);
                    }
                }
                assert forall|a: int, b: int| 0 <= a < b < t.len() implies #[trigger] t[a].end()
                    <= #[trigger] t[b].start by {
                    if free_range.page_count == pages {
                        if a < i {
                            assert(t[a] == s[a]);
                        } else {
                            assert(t[a] == s[a + 1]);
                        }
                        if b < i {
                            assert(t[b] == s[b]);
                        } else {
                            assert(t[b] == s[b + 1]);
                        }
                    } else {
                        if a != i {
                            assert(t[a] == s[a]);
                        }
                        if b != i {
                            assert(t[b] == s[b]);
                        }
                        assert(s[a].end() <= s[b].start);
                    }
                }
            }
            return Some(range);
        }
        proof {
            lemma_first_fit(s, pages, s.len() as int);
        }
        None
    }

    fn contains_range(&self, range: KernelVirtualRange) -> (r: bool)
        requires
            self.wf(),
        ensures
            r == (self.low() <= range@.0 && range@.0 + range@.1 * 4096 <= self.high()),
    {
        let managed_byte_len = self.managed_page_count.byte_len();
        let managed_end = match self.managed_start.checked_add(managed_byte_len) {
            Some(end) => end,
            None => return false,
        };
        range.start().as_u64() >= self.managed_start.as_u64() && range.end_exclusive().as_u64()
            <= managed_end.as_u64()
    }

    fn merge_adjacent_free_ranges(&mut self)
        requires
            free_list_valid(old(self).free_ranges@, old(self).low(), old(self).high()),
            old(self).high() <= u64::MAX,
        ensures
            final(self).free_ranges@ == merge_free(old(self).free_ranges@),
            final(self).managed() == old(self).managed(),
    {
        let n = self.free_ranges.len();
        if n < 2 {
            return;
        }
        let ghost initial_runs = self.free_ranges@;
        let ghost low = self.low();
        let ghost high = self.high();
        let mut write_index: usize = 0;
        let mut read_index: usize = 1;
        proof {
            assert(initial_runs.subrange(0, 1) == self.free_ranges@.subrange(0, 1));
        }
        while read_index < n
            invariant
                1 <= read_index <= n,
                write_index < read_index,
                n == initial_runs.len(),
                self.free_ranges@.len() == n,
                free_list_valid(initial_runs, low, high),
                high <= u64::MAX,
                self.free_ranges@.subrange(0, write_index as int + 1) == merge_free(
                    initial_runs.subrange(0, read_index as int),
                ),
                self.free_ranges@.subrange(read_index as int, n as int) == initial_runs.subrange(
                    read_index as int,
                    n as int,
                ),
                self.managed() == old(self).managed(),
            decreases n - read_index,
        {
            let ghost prefix = initial_runs.subrange(0, read_index as int);
            let ghost before = self.free_ranges@;
            proof {
                lemma_valid_subrange(initial_runs, low, high, read_index as int);
                lemma_merge_free(prefix, low, high);
                lemma_merge_free_step(initial_runs, read_index as int);
                assert(self.free_ranges@[read_index as int] == initial_runs[read_index as int]) by {
                    assert(self.free_ranges@.subrange(read_index as int, n as int)[0]
                        == self.free_ranges@[read_index as int]);
                }
                assert(self.free_ranges@[write_index as int] == merge_free(prefix).last()) by {
                    assert(self.free_ranges@.subrange(0, write_index as int + 1)[write_index as int]
                        == self.free_ranges@[write_index as int]);
                }
                assert(merge_free(prefix).last() == merge_free(prefix)[merge_free(prefix).len()
                    - 1]);
                assert(run_valid(merge_free(prefix).last(), low, high));
                assert(run_valid(initial_runs[read_index as int], low, high));
            }
            let current = self.free_ranges[write_index];
            let next = self.free_ranges[read_index];
            if current.start + current.page_count * PAGE_SIZE == next.start {
                proof {
                    assert(current.end() == next.start);
                    assert(next.end() <= high);
                }
                let joined = VirtualFreeRange {
                    start: current.start,
                    page_count: current.page_count.saturating_add(next.page_count),
                };
                self.free_ranges.set(write_index, joined);
                proof {
                    let m = merge_free(prefix);
                    assert(self.free_ranges@.subrange(0, write_index as int + 1) =~= m.drop_last().push(
                        VirtualFreeRange {
                            start: m.last().start,
                            page_count: (m.last().page_count
                                + initial_runs[read_index as int].page_count) as u64,
                        },
                    ));
                }
            } else {
                write_index = write_index + 1;
                self.free_ranges.set(write_index, next);
                proof {
                    let m = merge_free(prefix);
                    assert(self.free_ranges@.subrange(0, write_index as int + 1) =~= m.push(
                        initial_runs[read_index as int],
                    ));
                }
            }
            proof {
                let ri = read_index as int + 1;
                assert forall|k: int| 0 <= k < n - ri implies self.free_ranges@.subrange(
                    ri,
                    n as int,
                )[k] == initial_runs.subrange(ri, n as int)[k] by {
                    assert(self.free_ranges@[ri + k] == before[ri + k]);
                    assert(before.subrange(read_index as int, n as int)[k + 1] == before[ri + k]);
                }
                assert(self.free_ranges@.subrange(ri, n as int) =~= initial_runs.subrange(
                    ri,
                    n as int,
                ));
            }
            read_index = read_index + 1;
        }
        self.free_ranges.truncate(write_index + 1);
        proof {
            assert(initial_runs.subrange(0, n as int) == initial_runs);
        }
    }
}


proof fn lemma_insert_valid(
    s: Seq<VirtualFreeRange>,
    low: int,
    high: int,
    start: u64,
    pages: u64,
)
    requires
        free_list_valid(s, low, high),
        release_accepted(s, low, high, start, pages),
        start % 4096 == 0,
        pages > 0,
    ensures
        free_list_valid(
            s.insert(insertion_point(s, start), VirtualFreeRange { start, page_count: pages }),
            low,
            high,
        ),
        free_page_set(
            s.insert(insertion_point(s, start), VirtualFreeRange { start, page_count: pages }),
        ) == free_page_set(s).union(pages_of(start as int, pages as int)),
{
    lemma_insertion_point_bounds(s, start);
    let k = insertion_point(s, start);
    let e = VirtualFreeRange { start, page_count: pages };
    let t = s.insert(k, e);
    assert forall|i: int| 0 <= i < t.len() implies run_valid(#[trigger] t[i], low, high) by {
        if i < k {
            assert(t[i] == s[i]);
        } else if i > k {
            assert(t[i] == s[i - 1]);
        }
    }
    assert forall|i: int, j: int| 0 <= i < j < t.len() implies #[trigger] t[i].end()
        <= #[trigger] t[j].start by {
        if j < k {
            assert(t[i] == s[i]);
            assert(t[j] == s[j]);
        } else if j == k {
            assert(t[i] == s[i]);
            if i < k - 1 {
                assert(s[i].end() <= s[k - 1].start);
            }
        } else if i == k {
            assert(t[j] == s[j - 1]);
            if j - 1 > k {
                assert(s[k].end() <= s[j - 1].start);
            }
        } else if i < k {
            assert(t[i] == s[i]);
            assert(t[j] == s[j - 1]);
        } else {
            assert(t[i] == s[i - 1]);
            assert(t[j] == s[j - 1]);
        }
    }
    assert forall|page: int| #[trigger] free_page_set(t).contains(page) implies free_page_set(
        s,
    ).union(pages_of(start as int, pages as int)).contains(page) by {
        let i = choose|i: int| 0 <= i < t.len() && (#[trigger] t[i]).holds_page(page);
        if i < k {
            assert(t[i] == s[i]);
            assert(free_page_set(s).contains(page));
        } else if i > k {
            assert(t[i] == s[i - 1]);
            assert(free_page_set(s).contains(page));
        }
    }
    assert forall|page: int| #[trigger] free_page_set(s).union(
        pages_of(start as int, pages as int),
    ).contains(page) implies free_page_set(t).contains(page) by {
        if free_page_set(s).contains(page) {
            let i = choose|i: int| 0 <= i < s.len() && (#[trigger] s[i]).holds_page(page);
            if i < k {
                assert(t[i] == s[i]);
            } else {
                assert(t[i + 1] == s[i]);
            }
        } else {
            assert(t[k] == e);
            assert(t[k].holds_page(page));
        }
    }
    assert(free_page_set(t) =~= free_page_set(s).union(pages_of(start as int, pages as int)));
}

proof fn lemma_total_step(s: Seq<VirtualFreeRange>, i: int)
    requires
        0 <= i < s.len(),
    ensures
        free_page_total(s.subrange(0, i + 1)) == free_page_total(s.subrange(0, i))
            + s[i].page_count,
{
    assert(s.subrange(0, i + 1).drop_last() == s.subrange(0, i));
    assert(s.subrange(0, i + 1).last() == s[i]);
}

impl KernelVirtualRangeAllocator {
    /// Release a previously allocated kernel virtual range.
    ///
    /// The release is refused, and nothing changes, when the range leaves the
    /// managed range, overlaps a free neighbour, or the free run list is full;
    /// otherwise the range is inserted in address order and touching runs are
    /// joined.
    pub fn free_pages(&mut self, range: KernelVirtualRange) -> (r: bool)
        requires
            old(self).wf(),
        ensures
            final(self).wf(),
            final(self).managed() == old(self).managed(),
            r == release_accepted(
                old(self).free_list(),
                old(self).low(),
                old(self).high(),
                range@.0,
                range@.1,
            ),
            r ==> final(self).free_list() == release_result(
                old(self).free_list(),
                range@.0,
                range@.1,
            ),
            !r ==> final(self).free_list() == old(self).free_list(),
    {
        if !self.contains_range(range) {
            return false;
        }
        let start = range.start().as_u64();
        let pages = range.page_count();
        let end = range.end_exclusive().as_u64();
        let ghost s = self.free_ranges@;
        let mut insert_index: usize = 0;
        while insert_index < self.free_ranges.len() && self.free_ranges[insert_index].start < start
            invariant
                0 <= insert_index <= s.len(),
                s == self.free_ranges@,
                forall|j: int| 0 <= j < insert_index ==> (#[trigger] s[j]).start < start,
            decreases s.len() - insert_index,
        {
            insert_index = insert_index + 1;
        }
        proof {
            lemma_insertion_point(s, start, insert_index as int);
        }
        if insert_index > 0 {
            let previous = self.free_ranges[insert_index - 1];
            proof {
                assert(run_valid(s[insert_index - 1], self.low(), self.high()));
            }
            if previous.start + previous.page_count * PAGE_SIZE > start {
                return false;
            }
        }
        if insert_index < self.free_ranges.len() {
            let next = self.free_ranges[insert_index];
            if end > next.start {
                return false;
            }
        }
        if self.free_ranges.len() >= MAX_FREE_RANGES {
            return false;
        }
        proof {
            lemma_insert_valid(s, self.low(), self.high(), start, pages);
        }
        self.free_ranges.insert(insert_index, VirtualFreeRange { start, page_count: pages });
        self.merge_adjacent_free_ranges();
        proof {
            lemma_merge_free(
                s.insert(insert_index as int, VirtualFreeRange { start, page_count: pages }),
                self.low(),
                self.high(),
            );
        }
        true
    }

    /// Return the number of unallocated pages left in the allocator.
    pub fn remaining_pages(&self) -> (r: u64)
        requires
            self.wf(),
        ensures
            r == free_page_total(self.free_list()),
            r <= self.managed().1,
    {
        let ghost s = self.free_ranges@;
        proof {
            lemma_total_bounded(s, self.low(), self.high());
        }
        let mut pages: u64 = 0;
        let mut index: usize = 0;
        while index < self.free_ranges.len()
            invariant
                0 <= index <= s.len(),
                s == self.free_ranges@,
                free_list_valid(s, self.low(), self.high()),
                pages == free_page_total(s.subrange(0, index as int)),
                free_page_total(s) <= self.managed().1,
            decreases s.len() - index,
        {
            proof {
                lemma_total_step(s, index as int);
                lemma_valid_subrange(s, self.low(), self.high(), index as int + 1);
                lemma_total_bounded(s.subrange(0, index as int + 1), self.low(), self.high());
            }
            pages = pages.saturating_add(self.free_ranges[index].page_count);
            index = index + 1;
        }
        proof {
            assert(s.subrange(0, s.len() as int) == s);
        }
        pages
    }
}


proof fn lemma_total_concat(a: Seq<VirtualFreeRange>, b: Seq<VirtualFreeRange>)
    ensures
        free_page_total(a + b) == free_page_total(a) + free_page_total(b),
    decreases b.len(),
{
    if b.len() == 0 {
        assert(a + b == a);
    } else {
        lemma_total_concat(a, b.drop_last());
        assert((a + b).drop_last() == a + b.drop_last());
        assert((a + b).last() == b.last());
    }
}

proof fn lemma_total_single(e: VirtualFreeRange)
    ensures
        free_page_total(seq![e]) == e.page_count,
{
    reveal_with_fuel(free_page_total, 2);
    assert(seq![e].drop_last() == Seq::<VirtualFreeRange>::empty());
    assert(seq![e].last() == e);
}

/// Taking pages for an allocation hands out only free pages, removes exactly
/// those pages from the free set, and lowers the free page total by their
/// number.
pub proof fn law_allocation_takes_free_pages(s: Seq<VirtualFreeRange>, low: int, high: int, pages: u64)
    requires
        free_list_valid(s, low, high),
        high <= u64::MAX,
        pages > 0,
        first_fit(s, pages) < s.len(),
    ensures
        pages_of(s[first_fit(s, pages)].start as int, pages as int).subset_of(free_page_set(s)),
        free_page_set(take_front(s, first_fit(s, pages), pages)) == free_page_set(s).difference(
            pages_of(s[first_fit(s, pages)].start as int, pages as int),
        ),
        free_page_total(take_front(s, first_fit(s, pages), pages)) == free_page_total(s) - pages,
{
    lemma_first_fit_found(s, pages);
    let i = first_fit(s, pages);
    let e = s[i];
    let taken = pages_of(e.start as int, pages as int);
    let t = take_front(s, i, pages);
    assert(run_valid(e, low, high));
    assert(e.start + pages * 4096 <= e.end()) by (nonlinear_arith)
        requires
            pages <= e.page_count,
            e.end() == e.start + e.page_count * 4096,
    ;
    assert forall|page: int| #[trigger] taken.contains(page) implies free_page_set(s).contains(page) by {
        assert(e.holds_page(page));
    }
    assert forall|page: int| #[trigger] free_page_set(t).contains(page) implies free_page_set(
        s,
    ).difference(taken).contains(page) by {
        let j = choose|j: int| 0 <= j < t.len() && (#[trigger] t[j]).holds_page(page);
        if e.page_count == pages {
            let o = if j < i {
                j
            } else {
                j + 1
            };
            assert(t[j] == s[o]);
            assert(s[o].holds_page(page));
            if o < i {
                assert(s[o].end() <= s[i].start);
            } else {
                assert(s[i].end() <= s[o].start);
            }
        } else {
            if j != i {
                assert(t[j] == s[j]);
                if j < i {
                    assert(s[j].end() <= s[i].start);
                } else {
                    assert(s[i].end() <= s[j].start);
                }
                assert(s[j].holds_page(page));
            } else {
                let shrunk = t[i];
                assert(shrunk.start == e.start + pages * 4096);
                assert(shrunk.end() == e.end());
                assert(e.holds_page(page));
                assert(!taken.contains(page));
            }
        }
    }
    assert forall|page: int| #[trigger] free_page_set(s).difference(taken).contains(
        page,
    ) implies free_page_set(t).contains(page) by {
        let j = choose|j: int| 0 <= j < s.len() && (#[trigger] s[j]).holds_page(page);
        if e.page_count == pages {
            if j < i {
                assert(t[j] == s[j]);
            } else {
                assert(j != i);
                assert(t[j - 1] == s[j]);
            }
        } else {
            assert(t[j].holds_page(page));
        }
    }
    assert(free_page_set(t) =~= free_page_set(s).difference(taken));
    let a = s.subrange(0, i);
    let c = s.subrange(i + 1, s.len() as int);
    assert(s =~= a + seq![e] + c);
    lemma_total_concat(a, seq![e]);
    lemma_total_concat(a + seq![e], c);
    lemma_total_single(e);
    if e.page_count == pages {
        assert(t =~= a + c);
        lemma_total_concat(a, c);
    } else {
        let shrunk = t[i];
        assert(t =~= a + seq![shrunk] + c);
        lemma_total_concat(a, seq![shrunk]);
        lemma_total_concat(a + seq![shrunk], c);
        lemma_total_single(shrunk);
    }
}

/// An accepted release frees only pages that were not free, adds exactly
/// those pages to the free set, and raises the free page total by their
/// number.
pub proof fn law_release_returns_pages(
    s: Seq<VirtualFreeRange>,
    low: int,
    high: int,
    start: u64,
    pages: u64,
)
    requires
        free_list_valid(s, low, high),
        high <= u64::MAX,
        start % 4096 == 0,
        pages > 0,
        release_accepted(s, low, high, start, pages),
    ensures
        free_page_set(s).disjoint(pages_of(start as int, pages as int)),
        free_page_set(release_result(s, start, pages)) == free_page_set(s).union(
            pages_of(start as int, pages as int),
        ),
        free_page_total(release_result(s, start, pages)) == free_page_total(s) + pages,
        free_list_valid(release_result(s, start, pages), low, high),
{
    lemma_insertion_point_bounds(s, start);
    let k = insertion_point(s, start);
    let e = VirtualFreeRange { start, page_count: pages };
    let t = s.insert(k, e);
    lemma_insert_valid(s, low, high, start, pages);
    lemma_merge_free(t, low, high);
    assert forall|page: int| #[trigger] free_page_set(s).contains(page) implies !pages_of(
        start as int,
        pages as int,
    ).contains(page) by {
        let j = choose|j: int| 0 <= j < s.len() && (#[trigger] s[j]).holds_page(page);
        if j < k {
            if j < k - 1 {
                assert(s[j].end() <= s[k - 1].start);
            }
        } else {
            if j > k {
                assert(s[k].end() <= s[j].start);
            }
        }
    }
    let a = s.subrange(0, k);
    let c = s.subrange(k, s.len() as int);
    assert(s =~= a + c);
    assert(t =~= a + seq![e] + c);
    lemma_total_concat(a, c);
    lemma_total_concat(a, seq![e]);
    lemma_total_concat(a + seq![e], c);
    lemma_total_single(e);
}


/// A page count known to be valid.
fn page_count(count: u64) -> (r: PageCount)
    requires
        0 < count <= MAX_PAGE_COUNT,
    ensures
        r@ == count,
{
    PageCount::new(count).expect("virtual allocator page count must be valid")
}

/// Create the default kernel dynamic mapping range allocator.
///
/// It manages 262 144 pages from `0xffff_8000_0000_0000`, all free.
pub fn new_dynamic_mapping_allocator() -> (r: KernelVirtualRangeAllocator)
    ensures
        r.wf(),
        r.managed() == (0xffff_8000_0000_0000u64, 262_144u64),
        r.free_list() == seq![
            VirtualFreeRange { start: 0xffff_8000_0000_0000u64, page_count: 262_144u64 },
        ],
{
    let page_count = PageCount::new(DYNAMIC_MAPPING_PAGE_COUNT).expect(
        "dynamic mapping page count must be valid",
    );
    KernelVirtualRangeAllocator::new(VirtAddr::new(DYNAMIC_MAPPING_START), page_count).expect(
        "kernel dynamic mapping virtual range must be valid",
    )
}

/// Verify that kernel virtual range allocation is non-overlapping and reusable.
///
/// Two allocations come back back to back from the start of the dynamic
/// mapping range, and a released range is handed out again.
pub fn verify_kernel_virtual_range_allocation() -> (r: bool)
    ensures
        r,
{
    let mut allocator = new_dynamic_mapping_allocator();
    let ghost s0 = allocator.free_list();
    let first_range = match allocator.allocate_pages(page_count(1)) {
        Some(range) => range,
        None => return false,
    };
    let ghost s1 = allocator.free_list();
    let second_range = match allocator.allocate_pages(page_count(2)) {
        Some(range) => range,
        None => return false,
    };
    let ghost s2 = allocator.free_list();
    proof {
        assert(s1 == seq![
            VirtualFreeRange {
                start: (DYNAMIC_MAPPING_START + 4096) as u64,
                page_count: (DYNAMIC_MAPPING_PAGE_COUNT - 1) as u64,
            },
        ]);
        assert(s2 == seq![
            VirtualFreeRange {
                start: (DYNAMIC_MAPPING_START + 3 * 4096) as u64,
                page_count: (DYNAMIC_MAPPING_PAGE_COUNT - 3) as u64,
            },
        ]);
        lemma_insertion_point(s2, first_range@.0, 0);
        let e = VirtualFreeRange { start: first_range@.0, page_count: 1 };
        let t = s2.insert(0, e);
        assert(t.drop_last() == seq![e]);
        assert(merge_free(seq![e]) == seq![e]);
        assert(t =~= seq![e, s2[0]]);
    }
    if !allocator.free_pages(first_range) {
        return false;
    }
    let ghost s3 = allocator.free_list();
    proof {
        assert(s3[0].page_count == 1);
    }
    let reused_range = match allocator.allocate_pages(page_count(1)) {
        Some(range) => range,
        None => return false,
    };
    proof {
        lemma_kernel_virtual_range_view_injective(reused_range, first_range);
        let s4 = allocator.free_list();
        assert(s4 =~= seq![s2[0]]);
        lemma_total_single(s2[0]);
    }
    let first_at_start = first_range.start().as_u64() == DYNAMIC_MAPPING_START;
    let first_single = first_range.page_count() == 1 && first_range.byte_len() == PAGE_SIZE;
    let back_to_back = first_range.end_exclusive().as_u64() == second_range.start().as_u64();
    let second_double = second_range.page_count() == 2 && second_range.byte_len() == PAGE_SIZE * 2;
    let reused = reused_range == first_range;
    let remaining = allocator.remaining_pages() == DYNAMIC_MAPPING_PAGE_COUNT - 3;
    first_at_start && first_single && back_to_back && second_double && reused && remaining
}

/// Verify that invalid and exhausted kernel virtual allocations are rejected.
///
/// A two-page allocator serves two single pages and then refuses a third; a
/// zero page count, a misaligned start, and a range below the managed one
/// are refused too.
pub fn verify_kernel_virtual_range_exhaustion() -> (r: bool)
    ensures
        r,
{
    let mut allocator = match KernelVirtualRangeAllocator::new(
        VirtAddr::new(DYNAMIC_MAPPING_START),
        page_count(2),
    ) {
        Some(allocator) => allocator,
        None => return false,
    };
    let zero_page_rejected = PageCount::new(0).is_none();
    let first_page_allocated = allocator.allocate_pages(page_count(1)).is_some();
    let second_page_allocated = allocator.allocate_pages(page_count(1)).is_some();
    proof {
        assert(allocator.free_list().len() == 0);
    }
    let exhausted_rejected = allocator.allocate_pages(page_count(1)).is_none();
    let misaligned_rejected = KernelVirtualRangeAllocator::new(
        VirtAddr::new(DYNAMIC_MAPPING_START + 1),
        page_count(1),
    ).is_none();
    let outside_range_rejected = match KernelVirtualRange::new(
        VirtAddr::new(DYNAMIC_MAPPING_START - PAGE_SIZE),
        page_count(1),
    ) {
        Some(range) => !allocator.free_pages(range),
        None => true,
    };
    zero_page_rejected && first_page_allocated && second_page_allocated && exhausted_rejected
        && misaligned_rejected && outside_range_rejected && allocator.remaining_pages() == 0
}

} // verus!
