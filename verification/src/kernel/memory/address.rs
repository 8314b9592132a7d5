//! Typed memory address wrappers.
//!
//! Every wrapper keeps a raw `u64` address (or a pair of address and length)
//! and states, as a type invariant, the properties its constructor checked.

use vstd::prelude::*;

verus! {

const PAGE_SIZE: u64 = 4096;
const KERNEL_DYNAMIC_MAPPING_START: u64 = 0xffff_8000_0000_0000;
const USER_SPACE_END: u64 = 0x0000_8000_0000_0000;

/// Largest page or frame count whose byte length fits in `u64`.
pub const MAX_PAGE_COUNT: u64 = 0x000f_ffff_ffff_ffff;

/// Size in bytes of one page or frame.
pub open spec fn page_bytes() -> int {
    4096
}

/// The address `a` rounded down to a 4 KiB boundary.
pub open spec fn page_floor(a: int) -> int {
    a - a % 4096
}

/// Lowest kernel virtual address usable for dynamic mappings.
pub open spec fn kernel_dynamic_mapping_start() -> int {
    0xffff_8000_0000_0000
}

/// Exclusive upper bound of the user half of the address space.
pub open spec fn user_space_end() -> int {
    0x0000_8000_0000_0000
}

/// Whether `a` is a non-null address below the user-space ceiling.
pub open spec fn is_user_address(a: int) -> bool {
    0 < a < user_space_end()
}

proof fn lemma_align_down(x: u64)
    ensures
        x & !4095u64 == x - x % 4096,
        (x & !4095u64) % 4096 == 0,
{
    assert(x & !4095u64 == x - x % 4096) by (bit_vector);
}

/// Round `address` down to a 4 KiB boundary.
fn align_down(address: u64) -> (r: u64)
    ensures
        r == page_floor(address as int),
{
    proof {
        lemma_align_down(address);
    }
    address & !(PAGE_SIZE - 1)
}

/// Failure returned when a typed address cannot lower to a host-width integer.
#[derive(Clone, Copy, Debug, PartialEq, Eq, Structural)]
pub enum AddressConversionError {
    /// The address does not fit in `usize` on the current target.
    DoesNotFitUsize,
}

/// What converting the raw address `a` to `usize` gives.
pub open spec fn usize_conversion(a: u64) -> Result<usize, AddressConversionError> {
    if a <= usize::MAX {
        Ok(a as usize)
    } else {
        Err(AddressConversionError::DoesNotFitUsize)
    }
}

fn u64_to_usize(a: u64) -> (r: Result<usize, AddressConversionError>)
    ensures
        r == usize_conversion(a),
{
    if a <= usize::MAX as u64 {
        Ok(a as usize)
    } else {
        Err(AddressConversionError::DoesNotFitUsize)
    }
}

/// A raw physical byte address kept distinct from virtual addresses.
#[derive(Clone, Copy, Debug, PartialEq, Eq, Structural)]
pub struct PhysAddr(u64);

impl View for PhysAddr {
    type V = u64;

    closed spec fn view(&self) -> u64 {
        self.0
    }
}

impl PhysAddr {
    /// Create a physical byte address.
    pub fn new(address: u64) -> (r: Self)
        ensures
            r@ == address,
    {
        Self(address)
    }

    /// Return the raw physical address as a `u64`.
    pub fn as_u64(self) -> (r: u64)
        ensures
            r == self@,
    {
        self.0
    }

    /// Try to return the raw physical address as a `usize`.
    pub fn try_as_usize(self) -> (r: Result<usize, AddressConversionError>)
        ensures
            r == usize_conversion(self@),
    {
        u64_to_usize(self.0)
    }

    /// Return the raw physical address as a `usize`.
    pub fn as_usize(self) -> (r: usize)
        requires
            self@ <= usize::MAX,
        ensures
            r == self@,
    {
        self.0 as usize
    }

    /// Return a physical address advanced by `offset` bytes.
    pub fn checked_add(self, offset: u64) -> (r: Option<Self>)
        ensures
            r is Some <==> self@ + offset <= u64::MAX,
            r matches Some(a) ==> a@ == self@ + offset,
    {
        match self.0.checked_add(offset) {
            Some(address) => Some(Self(address)),
            None => None,
        }
    }

    /// Return this physical address rounded down to a 4 KiB page boundary.
    pub fn align_down_to_page(self) -> (r: Self)
        ensures
            r@ == page_floor(self@ as int),
    {
        Self(align_down(self.0))
    }
}

/// A physical byte address owned by a DMA-capable device descriptor.
#[derive(Clone, Copy, Debug, PartialEq, Eq, Structural)]
pub struct DmaPhysicalAddress(PhysAddr);

impl View for DmaPhysicalAddress {
    type V = u64;

    closed spec fn view(&self) -> u64 {
        self.0@
    }
}

impl DmaPhysicalAddress {
    /// Create a DMA physical address from an owned physical address.
    pub fn new(address: PhysAddr) -> (r: Self)
        ensures
            r@ == address@,
    {
        Self(address)
    }

    /// Return the raw DMA physical address as a `u64`.
    pub fn as_u64(self) -> (r: u64)
        ensures
            r == self@,
    {
        self.0.as_u64()
    }

    /// Try to return the raw DMA physical address as a `usize`.
    pub fn try_as_usize(self) -> (r: Result<usize, AddressConversionError>)
        ensures
            r == usize_conversion(self@),
    {
        self.0.try_as_usize()
    }

    /// Return the raw DMA physical address as a `usize`.
    pub fn as_usize(self) -> (r: usize)
        requires
            self@ <= usize::MAX,
        ensures
            r == self@,
    {
        self.0.as_usize()
    }
}

/// A physical DMA data buffer address used by storage parsers.
#[derive(Clone, Copy, Debug, PartialEq, Eq, Structural)]
pub struct StorageDataAddress(DmaPhysicalAddress);

impl View for StorageDataAddress {
    type V = u64;

    closed spec fn view(&self) -> u64 {
        self.0@
    }
}

impl StorageDataAddress {
    /// Create a storage data-buffer address from a DMA physical address.
    pub fn new(address: DmaPhysicalAddress) -> (r: Self)
        ensures
            r@ == address@,
    {
        Self(address)
    }

    /// Return the raw storage data-buffer address as a `u64`.
    pub fn as_u64(self) -> (r: u64)
        ensures
            r == self@,
    {
        self.0.as_u64()
    }

    /// Try to return the raw storage data-buffer address as a `usize`.
    pub fn try_as_usize(self) -> (r: Result<usize, AddressConversionError>)
        ensures
            r == usize_conversion(self@),
    {
        self.0.try_as_usize()
    }

    /// Return the raw storage data-buffer address as a `usize`.
    pub fn as_usize(self) -> (r: usize)
        requires
            self@ <= usize::MAX,
        ensures
            r == self@,
    {
        self.0.as_usize()
    }
}

/// A raw virtual byte address kept distinct from physical addresses.
#[derive(Clone, Copy, Debug, PartialEq, Eq, Structural)]
pub struct VirtAddr(u64);

impl View for VirtAddr {
    type V = u64;

    closed spec fn view(&self) -> u64 {
        self.0
    }
}

impl VirtAddr {
    /// The address `new` makes from `address`.
    pub closed spec fn spec_new(address: u64) -> Self {
        VirtAddr(address)
    }

    /// Create a virtual byte address.
    pub fn new(address: u64) -> (r: Self)
        ensures
            r@ == address,
            r == Self::spec_new(address),
    {
        Self(address)
    }

    /// Return the raw virtual address as a `u64`.
    pub fn as_u64(self) -> (r: u64)
        ensures
            r == self@,
    {
        self.0
    }

    /// Try to return the raw virtual address as a `usize`.
    pub fn try_as_usize(self) -> (r: Result<usize, AddressConversionError>)
        ensures
            r == usize_conversion(self@),
    {
        u64_to_usize(self.0)
    }

    /// Return a virtual address advanced by `offset` bytes.
    pub fn checked_add(self, offset: u64) -> (r: Option<Self>)
        ensures
            r is Some <==> self@ + offset <= u64::MAX,
            r matches Some(a) ==> a@ == self@ + offset,
    {
        match self.0.checked_add(offset) {
            Some(address) => Some(Self(address)),
            None => None,
        }
    }

    /// Return this virtual address rounded down to a 4 KiB page boundary.
    pub fn align_down_to_page(self) -> (r: Self)
        ensures
            r@ == page_floor(self@ as int),
    {
        Self(align_down(self.0))
    }
}

/// A mapped kernel virtual byte address.
#[derive(Clone, Copy, Debug, PartialEq, Eq, Structural)]
pub struct KernelVirtualAddress(VirtAddr);

impl View for KernelVirtualAddress {
    type V = u64;

    closed spec fn view(&self) -> u64 {
        self.0@
    }
}

impl KernelVirtualAddress {
    /// Create a mapped kernel virtual address.
    pub fn new(address: VirtAddr) -> (r: Self)
        ensures
            r@ == address@,
    {
        Self(address)
    }

    /// Return the raw kernel virtual address as a `u64`.
    pub fn as_u64(self) -> (r: u64)
        ensures
            r == self@,
    {
        self.0.as_u64()
    }

    /// Try to return the raw kernel virtual address as a `usize`.
    pub fn try_as_usize(self) -> (r: Result<usize, AddressConversionError>)
        ensures
            r == usize_conversion(self@),
    {
        self.0.try_as_usize()
    }
}

/// A non-zero count of 4 KiB pages.
#[derive(Clone, Copy, Debug, PartialEq, Eq, Structural)]
pub struct PageCount(u64);

impl View for PageCount {
    type V = u64;

    closed spec fn view(&self) -> u64 {
        self.0
    }
}

impl PageCount {
    #[verifier::type_invariant]
    spec fn inv(self) -> bool {
        0 < self.0 <= MAX_PAGE_COUNT
    }

    /// Create a non-zero page count with a representable byte length.
    pub fn new(count: u64) -> (r: Option<Self>)
        ensures
            r is Some <==> 0 < count <= MAX_PAGE_COUNT,
            r matches Some(c) ==> c@ == count,
    {
        if count == 0 || count > u64::MAX / PAGE_SIZE {
            None
        } else {
            Some(Self(count))
        }
    }

    /// Return the raw page count as a `u64`.
    pub fn as_u64(self) -> (r: u64)
        ensures
            r == self@,
            0 < r <= MAX_PAGE_COUNT,
    {
        proof {
            use_type_invariant(&self);
        }
        self.0
    }

    /// Return the byte length represented by this page count.
    pub fn byte_len(self) -> (r: u64)
        ensures
            r == self@ * 4096,
            0 < self@ <= MAX_PAGE_COUNT,
    {
        proof {
            use_type_invariant(&self);
        }
        self.0 * PAGE_SIZE
    }
}

/// A reserved kernel virtual range for dynamic mappings.
///
/// The view is the pair of start address and page count.
#[derive(Clone, Copy, Debug, PartialEq, Eq, Structural)]
pub struct KernelVirtualRange {
    start: VirtAddr,
    page_count: PageCount,
}

/// Whether a kernel virtual range with this start and page count is valid.
pub open spec fn valid_kernel_virtual_range(start: int, page_count: int) -> bool {
    &&& start % 4096 == 0
    &&& start >= kernel_dynamic_mapping_start()
    &&& 0 < page_count <= MAX_PAGE_COUNT
    &&& start + page_count * 4096 <= u64::MAX
}

impl View for KernelVirtualRange {
    type V = (u64, u64);

    closed spec fn view(&self) -> (u64, u64) {
        (self.start@, self.page_count@)
    }
}

impl KernelVirtualRange {
    #[verifier::type_invariant]
    spec fn inv(self) -> bool {
        valid_kernel_virtual_range(self.start@ as int, self.page_count@ as int)
    }

    /// Create a non-empty 4 KiB-aligned kernel virtual range.
    pub fn new(start: VirtAddr, page_count: PageCount) -> (r: Option<Self>)
        ensures
            r is Some <==> valid_kernel_virtual_range(start@ as int, page_count@ as int),
            r matches Some(range) ==> range@ == (start@, page_count@),
    {
        let byte_len = page_count.byte_len();
        if start.as_u64() % PAGE_SIZE != 0 || start.as_u64() < KERNEL_DYNAMIC_MAPPING_START {
            return None;
        }
        if start.as_u64().checked_add(byte_len).is_none() {
            return None;
        }
        Some(Self { start, page_count })
    }

    /// Return the first virtual address in the range.
    pub fn start(self) -> (r: VirtAddr)
        ensures
            r@ == self@.0,
            valid_kernel_virtual_range(self@.0 as int, self@.1 as int),
    {
        proof {
            use_type_invariant(&self);
        }
        self.start
    }

    /// Return the number of 4 KiB pages in the range.
    pub fn page_count(self) -> (r: u64)
        ensures
            r == self@.1,
            valid_kernel_virtual_range(self@.0 as int, self@.1 as int),
    {
        proof {
            use_type_invariant(&self);
        }
        self.page_count.as_u64()
    }

    /// Return the byte length of the range.
    pub fn byte_len(self) -> (r: u64)
        ensures
            r == self@.1 * 4096,
            valid_kernel_virtual_range(self@.0 as int, self@.1 as int),
    {
        proof {
            use_type_invariant(&self);
        }
        self.page_count.byte_len()
    }

    /// Return the first virtual address after this range.
    pub fn end_exclusive(self) -> (r: VirtAddr)
        ensures
            r@ == self@.0 + self@.1 * 4096,
            valid_kernel_virtual_range(self@.0 as int, self@.1 as int),
    {
        proof {
            use_type_invariant(&self);
        }
        let byte_len = self.page_count.byte_len();
        VirtAddr(self.start.0 + byte_len)
    }
}

/// Two kernel virtual ranges with the same view are the same range.
pub broadcast proof fn lemma_kernel_virtual_range_view_injective(a: KernelVirtualRange, b: KernelVirtualRange)
    ensures
        #[trigger] a@ == #[trigger] b@ ==> a == b,
{
}

/// A physical framebuffer range reported by the active graphics mode.
///
/// The view is the pair of start address and byte length.
#[derive(Clone, Copy, Debug, PartialEq, Eq, Structural)]
pub struct FramebufferPhysicalRange {
    start: PhysAddr,
    byte_len: u64,
}

impl View for FramebufferPhysicalRange {
    type V = (u64, u64);

    closed spec fn view(&self) -> (u64, u64) {
        (self.start@, self.byte_len)
    }
}

impl FramebufferPhysicalRange {
    #[verifier::type_invariant]
    spec fn inv(self) -> bool {
        self.byte_len > 0
    }

    /// Create a non-empty framebuffer physical range.
    pub fn new(start: PhysAddr, byte_len: u64) -> (r: Option<Self>)
        ensures
            r is Some <==> byte_len > 0,
            r matches Some(range) ==> range@ == (start@, byte_len),
    {
        if byte_len == 0 {
            return None;
        }
        Some(Self { start, byte_len })
    }

    /// Return the framebuffer physical base address.
    pub fn start(self) -> (r: PhysAddr)
        ensures
            r@ == self@.0,
    {
        self.start
    }

    /// Return the framebuffer range length in bytes.
    pub fn byte_len(self) -> (r: u64)
        ensures
            r == self@.1,
            r > 0,
    {
        proof {
            use_type_invariant(&self);
        }
        self.byte_len
    }
}

/// A 4 KiB-aligned physical frame start address.
#[derive(Clone, Copy, Debug, PartialEq, Eq, Structural)]
pub struct PhysicalFrameStart(PhysAddr);

impl View for PhysicalFrameStart {
    type V = u64;

    closed spec fn view(&self) -> u64 {
        self.0@
    }
}

impl PhysicalFrameStart {
    #[verifier::type_invariant]
    spec fn inv(self) -> bool {
        self.0@ % 4096 == 0
    }

    /// Create a physical frame start address if `address` is 4 KiB-aligned.
    pub fn new(address: PhysAddr) -> (r: Option<Self>)
        ensures
            r is Some <==> address@ % 4096 == 0,
            r matches Some(f) ==> f@ == address@,
    {
        if address.as_u64() % PAGE_SIZE == 0 {
            Some(Self(address))
        } else {
            None
        }
    }

    /// Return the raw physical address as a `u64`.
    pub fn as_u64(self) -> (r: u64)
        ensures
            r == self@,
            r % 4096 == 0,
    {
        proof {
            use_type_invariant(&self);
        }
        self.0.as_u64()
    }

    /// Try to return the raw physical address as a `usize`.
    pub fn try_as_usize(self) -> (r: Result<usize, AddressConversionError>)
        ensures
            r == usize_conversion(self@),
    {
        self.0.try_as_usize()
    }

    /// Return this frame start as a physical byte address.
    pub fn as_address(self) -> (r: PhysAddr)
        ensures
            r@ == self@,
            r@ % 4096 == 0,
    {
        proof {
            use_type_invariant(&self);
        }
        self.0
    }

    /// Return this identity-mapped frame start as a kernel virtual address.
    pub fn as_identity_mapped_kernel_address(self) -> (r: KernelVirtualAddress)
        ensures
            r@ == self@,
    {
        KernelVirtualAddress::new(VirtAddr::new(self.0.as_u64()))
    }

    /// Return this frame start as a DMA physical byte address.
    pub fn as_dma_address(self) -> (r: DmaPhysicalAddress)
        ensures
            r@ == self@,
    {
        DmaPhysicalAddress::new(self.as_address())
    }

    /// Return the raw physical address as a `usize`.
    pub fn as_usize(self) -> (r: usize)
        requires
            self@ <= usize::MAX,
        ensures
            r == self@,
    {
        self.0.as_usize()
    }
}

/// A non-zero count of 4 KiB physical frames.
#[derive(Clone, Copy, Debug, PartialEq, Eq, Structural)]
pub struct FrameCount(u64);

impl View for FrameCount {
    type V = u64;

    closed spec fn view(&self) -> u64 {
        self.0
    }
}

impl FrameCount {
    #[verifier::type_invariant]
    spec fn inv(self) -> bool {
        0 < self.0 <= MAX_PAGE_COUNT
    }

    /// Create a non-zero frame count with a representable byte length.
    pub fn new(count: u64) -> (r: Option<Self>)
        ensures
            r is Some <==> 0 < count <= MAX_PAGE_COUNT,
            r matches Some(c) ==> c@ == count,
    {
        if count == 0 || count > u64::MAX / PAGE_SIZE {
            None
        } else {
            Some(Self(count))
        }
    }

    /// Return the raw frame count as a `u64`.
    pub fn as_u64(self) -> (r: u64)
        ensures
            r == self@,
            0 < r <= MAX_PAGE_COUNT,
    {
        proof {
            use_type_invariant(&self);
        }
        self.0
    }

    /// Return the byte length represented by this frame count.
    pub fn byte_len(self) -> (r: u64)
        ensures
            r == self@ * 4096,
            0 < self@ <= MAX_PAGE_COUNT,
    {
        proof {
            use_type_invariant(&self);
        }
        self.0 * PAGE_SIZE
    }
}

/// A contiguous owned range of 4 KiB physical frames.
///
/// The view is the pair of start address and frame count.
#[derive(Clone, Copy, Debug, PartialEq, Eq, Structural)]
pub struct PhysicalFrameRange {
    start: PhysicalFrameStart,
    frame_count: FrameCount,
}

/// Whether a physical frame range with this start and frame count is valid.
pub open spec fn valid_physical_frame_range(start: int, frame_count: int) -> bool {
    &&& start % 4096 == 0
    &&& 0 < frame_count <= MAX_PAGE_COUNT
    &&& start + frame_count * 4096 <= u64::MAX
}

impl View for PhysicalFrameRange {
    type V = (u64, u64);

    closed spec fn view(&self) -> (u64, u64) {
        (self.start@, self.frame_count@)
    }
}

impl PhysicalFrameRange {
    #[verifier::type_invariant]
    spec fn inv(self) -> bool {
        valid_physical_frame_range(self.start@ as int, self.frame_count@ as int)
    }

    /// Create a physical frame range from a start address and frame count.
    pub fn new(start: PhysicalFrameStart, frame_count: FrameCount) -> (r: Option<Self>)
        ensures
            r is Some <==> start@ + frame_count@ * 4096 <= u64::MAX,
            r matches Some(range) ==> range@ == (start@, frame_count@),
    {
        let start_address = start.as_u64();
        let byte_len = frame_count.byte_len();
        if start_address.checked_add(byte_len).is_none() {
            return None;
        }
        Some(Self { start, frame_count })
    }

    /// Return the first physical frame in the range.
    pub fn start(self) -> (r: PhysicalFrameStart)
        ensures
            r@ == self@.0,
            valid_physical_frame_range(self@.0 as int, self@.1 as int),
    {
        proof {
            use_type_invariant(&self);
        }
        self.start
    }

    /// Return the number of 4 KiB pages in the range.
    pub fn page_count(self) -> (r: u64)
        ensures
            r == self@.1,
            valid_physical_frame_range(self@.0 as int, self@.1 as int),
    {
        proof {
            use_type_invariant(&self);
        }
        self.frame_count.as_u64()
    }

    /// Return the number of 4 KiB frames in the range.
    pub fn frame_count(self) -> (r: FrameCount)
        ensures
            r@ == self@.1,
            valid_physical_frame_range(self@.0 as int, self@.1 as int),
    {
        proof {
            use_type_invariant(&self);
        }
        self.frame_count
    }

    /// Return the byte length of the range.
    pub fn byte_len(self) -> (r: u64)
        ensures
            r == self@.1 * 4096,
            valid_physical_frame_range(self@.0 as int, self@.1 as int),
    {
        proof {
            use_type_invariant(&self);
        }
        self.frame_count.byte_len()
    }
}

/// A non-null virtual address in the user half of the address space.
#[derive(Clone, Copy, Debug, PartialEq, Eq, Structural)]
pub struct UserVirtualAddress(VirtAddr);

impl View for UserVirtualAddress {
    type V = u64;

    closed spec fn view(&self) -> u64 {
        self.0@
    }
}

impl UserVirtualAddress {
    #[verifier::type_invariant]
    spec fn inv(self) -> bool {
        is_user_address(self.0@ as int)
    }

    /// Create a user virtual address if `address` is non-zero and below the
    /// user-space ceiling.
    pub fn new(address: VirtAddr) -> (r: Option<Self>)
        ensures
            r is Some <==> is_user_address(address@ as int),
            r matches Some(a) ==> a@ == address@,
    {
        if address.as_u64() != 0 && address.as_u64() < USER_SPACE_END {
            Some(Self(address))
        } else {
            None
        }
    }

    /// Return the raw virtual address as a `u64`.
    pub fn as_u64(self) -> (r: u64)
        ensures
            r == self@,
            is_user_address(r as int),
    {
        proof {
            use_type_invariant(&self);
        }
        self.0.as_u64()
    }

    /// Try to return the raw virtual address as a `usize`.
    pub fn try_as_usize(self) -> (r: Result<usize, AddressConversionError>)
        ensures
            r == usize_conversion(self@),
    {
        self.0.try_as_usize()
    }

    /// Return this user virtual address as a virtual byte address.
    pub fn as_address(self) -> (r: VirtAddr)
        ensures
            r@ == self@,
            is_user_address(r@ as int),
    {
        proof {
            use_type_invariant(&self);
        }
        self.0
    }

    /// Return the raw virtual address as a `usize`.
    pub fn as_usize(self) -> (r: usize)
        requires
            self@ <= usize::MAX,
        ensures
            r == self@,
    {
        self.0.as_u64() as usize
    }

    /// Return a user virtual address advanced by `offset` bytes.
    pub fn checked_add(self, offset: u64) -> (r: Option<Self>)
        ensures
            r is Some <==> is_user_address(self@ + offset),
            r matches Some(a) ==> a@ == self@ + offset,
    {
        proof {
            use_type_invariant(&self);
        }
        match self.0.checked_add(offset) {
            Some(address) => Self::new(address),
            None => None,
        }
    }

    /// Return this user virtual address rounded down to a 4 KiB page boundary.
    pub fn align_down_to_page(self) -> (r: Option<UserPageStart>)
        ensures
            r is Some <==> page_floor(self@ as int) > 0,
            r matches Some(p) ==> p@ == page_floor(self@ as int),
    {
        proof {
            use_type_invariant(&self);
        }
        match Self::new(self.0.align_down_to_page()) {
            Some(address) => UserPageStart::new(address),
            None => None,
        }
    }

    /// Return a user virtual address moved backward by `offset` bytes.
    pub fn checked_sub(self, offset: u64) -> (r: Option<Self>)
        ensures
            r is Some <==> is_user_address(self@ - offset),
            r matches Some(a) ==> a@ == self@ - offset,
    {
        proof {
            use_type_invariant(&self);
        }
        match self.0.as_u64().checked_sub(offset) {
            Some(address) => Self::new(VirtAddr::new(address)),
            None => None,
        }
    }
}

/// A 4 KiB-aligned user virtual page start address.
#[derive(Clone, Copy, Debug, PartialEq, Eq, Structural)]
pub struct UserPageStart(UserVirtualAddress);

impl View for UserPageStart {
    type V = u64;

    closed spec fn view(&self) -> u64 {
        self.0@
    }
}

impl UserPageStart {
    #[verifier::type_invariant]
    spec fn inv(self) -> bool {
        self.0@ % 4096 == 0
    }

    /// Create a user page start address if `address` is 4 KiB-aligned.
    pub fn new(address: UserVirtualAddress) -> (r: Option<Self>)
        ensures
            r is Some <==> address@ % 4096 == 0,
            r matches Some(p) ==> p@ == address@,
    {
        if address.as_u64() % PAGE_SIZE == 0 {
            Some(Self(address))
        } else {
            None
        }
    }

    /// Return this page start as a user virtual address.
    pub fn as_address(self) -> (r: UserVirtualAddress)
        ensures
            r@ == self@,
            is_user_address(self@ as int),
            self@ % 4096 == 0,
    {
        proof {
            use_type_invariant(&self);
            use_type_invariant(&self.0);
        }
        self.0
    }

    /// Return the raw virtual address as a `u64`.
    pub fn as_u64(self) -> (r: u64)
        ensures
            r == self@,
            is_user_address(r as int),
            r % 4096 == 0,
    {
        proof {
            use_type_invariant(&self);
        }
        self.0.as_u64()
    }

    /// Return the raw virtual address as a `usize`.
    pub fn try_as_usize(self) -> (r: Result<usize, AddressConversionError>)
        ensures
            r == usize_conversion(self@),
    {
        self.0.try_as_usize()
    }

    /// Return a user page start address advanced by `offset` bytes.
    pub fn checked_add(self, offset: u64) -> (r: Option<Self>)
        ensures
            r is Some <==> is_user_address(self@ + offset) && (self@ + offset) % 4096 == 0,
            r matches Some(p) ==> p@ == self@ + offset,
    {
        match self.0.checked_add(offset) {
            Some(address) => Self::new(address),
            None => None,
        }
    }

    /// Return a user page start address moved backward by `offset` bytes.
    pub fn checked_sub(self, offset: u64) -> (r: Option<Self>)
        ensures
            r is Some <==> is_user_address(self@ - offset) && (self@ - offset) % 4096 == 0,
            r matches Some(p) ==> p@ == self@ - offset,
    {
        match self.0.checked_sub(offset) {
            Some(address) => Self::new(address),
            None => None,
        }
    }
}

/// A non-empty byte range fully contained in user virtual address space.
///
/// The view is the pair of start address and byte length.
#[derive(Clone, Copy, Debug, PartialEq, Eq, Structural)]
pub struct UserVirtualRange {
    start: UserVirtualAddress,
    byte_len: usize,
}

/// Whether a user range with this start and byte length is valid.
pub open spec fn valid_user_range(start: int, byte_len: int) -> bool {
    &&& is_user_address(start)
    &&& byte_len > 0
    &&& start + byte_len <= user_space_end()
}

/// Whether raw syscall pointer and length arguments describe a valid user range.
pub open spec fn syscall_range_accepted(user_pointer: u64, byte_len: u64) -> bool {
    byte_len <= usize::MAX && valid_user_range(user_pointer as int, byte_len as int)
}

impl View for UserVirtualRange {
    type V = (u64, usize);

    closed spec fn view(&self) -> (u64, usize) {
        (self.start@, self.byte_len)
    }
}

impl UserVirtualRange {
    #[verifier::type_invariant]
    spec fn inv(self) -> bool {
        valid_user_range(self.start@ as int, self.byte_len as int)
    }

    /// Create a non-empty user virtual byte range.
    pub fn new(start: UserVirtualAddress, byte_len: usize) -> (r: Option<Self>)
        ensures
            r is Some <==> byte_len > 0 && start@ + byte_len <= user_space_end(),
            r matches Some(range) ==> range@ == (start@, byte_len),
    {
        let start_address = start.as_u64();
        if byte_len == 0 {
            return None;
        }
        let byte_len_u64 = byte_len as u64;
        let end = match start_address.checked_add(byte_len_u64) {
            Some(end) => end,
            None => return None,
        };
        if end > USER_SPACE_END {
            return None;
        }
        Some(Self { start, byte_len })
    }

    /// Convert raw syscall ABI pointer and length arguments into a user range.
    pub fn from_syscall_arguments(user_pointer: u64, byte_len: u64) -> (r: Option<Self>)
        ensures
            r is Some <==> syscall_range_accepted(user_pointer, byte_len),
            r matches Some(range) ==> range@.0 == user_pointer && range@.1 == byte_len,
    {
        if byte_len > usize::MAX as u64 {
            return None;
        }
        let byte_len = byte_len as usize;
        let start = match UserVirtualAddress::new(VirtAddr::new(user_pointer)) {
            Some(start) => start,
            None => return None,
        };
        Self::new(start, byte_len)
    }

    /// Return the first address in the range.
    pub fn start(self) -> (r: UserVirtualAddress)
        ensures
            r@ == self@.0,
            valid_user_range(self@.0 as int, self@.1 as int),
    {
        proof {
            use_type_invariant(&self);
        }
        self.start
    }

    /// Return the range length in bytes.
    pub fn byte_len(self) -> (r: usize)
        ensures
            r == self@.1,
            valid_user_range(self@.0 as int, self@.1 as int),
    {
        proof {
            use_type_invariant(&self);
        }
        self.byte_len
    }

    /// Return the first address after this range.
    pub fn end_exclusive(self) -> (r: u64)
        ensures
            r == self@.0 + self@.1,
            valid_user_range(self@.0 as int, self@.1 as int),
    {
        proof {
            use_type_invariant(&self);
        }
        self.start.as_u64() + self.byte_len as u64
    }

    /// Return the first user page touched by this range.
    pub fn first_page_start(self) -> (r: Option<UserPageStart>)
        ensures
            r is Some <==> page_floor(self@.0 as int) > 0,
            r matches Some(p) ==> p@ == page_floor(self@.0 as int),
    {
        self.start.align_down_to_page()
    }

    /// Return the last user page touched by this range.
    pub fn last_page_start(self) -> (r: Option<UserPageStart>)
        ensures
            r is Some <==> page_floor(self@.0 + self@.1 - 1) > 0,
            r matches Some(p) ==> p@ == page_floor(self@.0 + self@.1 - 1),
    {
        let end = self.end_exclusive();
        let last_byte = end - 1;
        match UserVirtualAddress::new(VirtAddr::new(last_byte)) {
            Some(last_address) => last_address.align_down_to_page(),
            None => None,
        }
    }
}

/// A user virtual range intended for kernel reads from user memory.
#[derive(Clone, Copy, Debug, PartialEq, Eq, Structural)]
pub struct UserReadableRange(UserVirtualRange);

impl View for UserReadableRange {
    type V = (u64, usize);

    closed spec fn view(&self) -> (u64, usize) {
        self.0@
    }
}

impl UserReadableRange {
    /// Create a readable user range from a validated user virtual range.
    pub fn new(range: UserVirtualRange) -> (r: Self)
        ensures
            r@ == range@,
    {
        Self(range)
    }

    /// Convert raw syscall ABI pointer and length arguments into a readable range.
    pub fn from_syscall_arguments(user_pointer: u64, byte_len: u64) -> (r: Option<Self>)
        ensures
            r is Some <==> syscall_range_accepted(user_pointer, byte_len),
            r matches Some(range) ==> range@.0 == user_pointer && range@.1 == byte_len,
    {
        match UserVirtualRange::from_syscall_arguments(user_pointer, byte_len) {
            Some(range) => Some(Self::new(range)),
            None => None,
        }
    }

    /// Return the underlying user virtual range.
    pub fn as_range(self) -> (r: UserVirtualRange)
        ensures
            r@ == self@,
    {
        self.0
    }
}

/// A readable user range intended to contain a NUL-terminated C string.
#[derive(Clone, Copy, Debug, PartialEq, Eq, Structural)]
pub struct UserCString(UserReadableRange);

impl View for UserCString {
    type V = (u64, usize);

    closed spec fn view(&self) -> (u64, usize) {
        self.0@
    }
}

impl UserCString {
    /// Create a user C-string candidate from a readable user range.
    pub fn new(range: UserReadableRange) -> (r: Self)
        ensures
            r@ == range@,
    {
        Self(range)
    }

    /// Convert raw syscall ABI pointer and length arguments into a C-string candidate.
    pub fn from_syscall_arguments(user_pointer: u64, byte_len: u64) -> (r: Option<Self>)
        ensures
            r is Some <==> syscall_range_accepted(user_pointer, byte_len),
            r matches Some(range) ==> range@.0 == user_pointer && range@.1 == byte_len,
    {
        match UserReadableRange::from_syscall_arguments(user_pointer, byte_len) {
            Some(range) => Some(Self::new(range)),
            None => None,
        }
    }

    /// Return the underlying readable user range.
    pub fn as_readable_range(self) -> (r: UserReadableRange)
        ensures
            r@ == self@,
    {
        self.0
    }
}

/// A user virtual range intended for kernel writes to user memory.
#[derive(Clone, Copy, Debug, PartialEq, Eq, Structural)]
pub struct UserWritableRange(UserVirtualRange);

impl View for UserWritableRange {
    type V = (u64, usize);

    closed spec fn view(&self) -> (u64, usize) {
        self.0@
    }
}

impl UserWritableRange {
    /// Create a writable user range from a validated user virtual range.
    pub fn new(range: UserVirtualRange) -> (r: Self)
        ensures
            r@ == range@,
    {
        Self(range)
    }

    /// Convert raw syscall ABI pointer and length arguments into a writable range.
    pub fn from_syscall_arguments(user_pointer: u64, byte_len: u64) -> (r: Option<Self>)
        ensures
            r is Some <==> syscall_range_accepted(user_pointer, byte_len),
            r matches Some(range) ==> range@.0 == user_pointer && range@.1 == byte_len,
    {
        match UserVirtualRange::from_syscall_arguments(user_pointer, byte_len) {
            Some(range) => Some(Self::new(range)),
            None => None,
        }
    }

    /// Return the underlying user virtual range.
    pub fn as_range(self) -> (r: UserVirtualRange)
        ensures
            r@ == self@,
    {
        self.0
    }
}

/// Verify the typed user virtual address construction contract.
pub fn verify_typed_user_virtual_address() -> (r: bool)
    ensures
        r,
{
    let valid_user_address = UserVirtualAddress::new(VirtAddr::new(PAGE_SIZE));
    let zero_user_address = UserVirtualAddress::new(VirtAddr::new(0));
    let ceiling_user_address = UserVirtualAddress::new(VirtAddr::new(USER_SPACE_END));

    let valid = match valid_user_address {
        Some(address) => {
            let aligned = match address.align_down_to_page() {
                Some(page_start) => page_start.as_u64() == PAGE_SIZE,
                None => false,
            };
            let advanced = match address.checked_add(PAGE_SIZE) {
                Some(next_address) => next_address.as_u64() == 2 * PAGE_SIZE,
                None => false,
            };
            address.as_u64() == PAGE_SIZE && address.as_address() == VirtAddr::new(PAGE_SIZE)
                && aligned && advanced
        },
        None => false,
    };
    valid && zero_user_address.is_none() && ceiling_user_address.is_none()
}

/// Verify the typed user page start construction contract.
pub fn verify_typed_user_page_start() -> (r: bool)
    ensures
        r,
{
    let aligned_address = UserVirtualAddress::new(VirtAddr::new(PAGE_SIZE));
    let unaligned_address = UserVirtualAddress::new(VirtAddr::new(PAGE_SIZE + 1));
    let low_address = UserVirtualAddress::new(VirtAddr::new(1));

    let aligned_ok = match aligned_address {
        Some(address) => match UserPageStart::new(address) {
            Some(page_start) => {
                let next_ok = match page_start.checked_add(PAGE_SIZE) {
                    Some(next_page) => next_page.as_u64() == 2 * PAGE_SIZE,
                    None => false,
                };
                page_start.as_address() == address && page_start.as_u64() == PAGE_SIZE && next_ok
            },
            None => false,
        },
        None => false,
    };
    let unaligned_ok = match unaligned_address {
        Some(address) => UserPageStart::new(address).is_none(),
        None => false,
    };
    let low_ok = match low_address {
        Some(address) => address.align_down_to_page().is_none(),
        None => false,
    };
    aligned_ok && unaligned_ok && low_ok
}

/// Verify the typed user virtual range and copy-direction wrapper contracts.
pub fn verify_typed_user_virtual_range() -> (r: bool)
    ensures
        r,
{
    let start = match UserVirtualAddress::new(VirtAddr::new(PAGE_SIZE)) {
        Some(start) => start,
        None => return false,
    };
    let valid_range = UserVirtualRange::new(start, 8);
    let zero_length_rejected = UserVirtualRange::new(start, 0).is_none();
    let ceiling_start = match UserVirtualAddress::new(VirtAddr::new(USER_SPACE_END - 1)) {
        Some(address) => address,
        None => return false,
    };
    let overflow_rejected = UserVirtualRange::new(ceiling_start, 2).is_none();
    let syscall_range = UserVirtualRange::from_syscall_arguments(PAGE_SIZE, 4);
    let valid_ok = match valid_range {
        Some(range) => {
            let readable_range = UserReadableRange::new(range);
            let writable_range = UserWritableRange::new(range);
            range.start() == start && range.byte_len() == 8 && range.end_exclusive() == PAGE_SIZE
                + 8 && readable_range.as_range() == range && writable_range.as_range() == range
        },
        None => false,
    };
    let syscall_ok = match syscall_range {
        Some(range) => range.start() == start && range.byte_len() == 4 && range.end_exclusive()
            == PAGE_SIZE + 4,
        None => false,
    };
    valid_ok && zero_length_rejected && overflow_rejected && syscall_ok
}

/// Verify typed user virtual range page-boundary helper contracts.
pub fn verify_typed_user_virtual_range_page_bounds() -> (r: bool)
    ensures
        r,
{
    let start = match UserVirtualAddress::new(VirtAddr::new(PAGE_SIZE)) {
        Some(start) => start,
        None => return false,
    };
    let byte_len: usize = 4096 + 8;
    let valid_range = UserVirtualRange::new(start, byte_len);
    let low_start = match UserVirtualAddress::new(VirtAddr::new(1)) {
        Some(start) => start,
        None => return false,
    };
    let low_range = UserVirtualRange::new(low_start, 1);

    let valid_ok = match valid_range {
        Some(range) => {
            let first_ok = match range.first_page_start() {
                Some(page_start) => page_start.as_u64() == PAGE_SIZE,
                None => false,
            };
            let last_ok = match range.last_page_start() {
                Some(page_start) => page_start.as_u64() == 2 * PAGE_SIZE,
                None => false,
            };
            first_ok && last_ok
        },
        None => false,
    };
    let low_ok = match low_range {
        Some(range) => range.first_page_start().is_none() && range.last_page_start().is_none(),
        None => false,
    };
    valid_ok && low_ok
}

/// Verify typed syscall copy-direction range constructor contracts.
pub fn verify_typed_user_copy_ranges() -> (r: bool)
    ensures
        r,
{
    let valid_start = PAGE_SIZE;
    let readable_range = UserReadableRange::from_syscall_arguments(valid_start, 4);
    let writable_range = UserWritableRange::from_syscall_arguments(valid_start, 4);
    let string_range = UserCString::from_syscall_arguments(valid_start, 4);
    let zero_pointer_rejected = UserReadableRange::from_syscall_arguments(0, 1).is_none();
    let zero_length_rejected = UserWritableRange::from_syscall_arguments(valid_start, 0).is_none();

    let readable_ok = match readable_range {
        Some(range) => range.as_range().start().as_u64() == valid_start,
        None => false,
    };
    let writable_ok = match writable_range {
        Some(range) => range.as_range().byte_len() == 4,
        None => false,
    };
    let string_ok = match string_range {
        Some(range) => range.as_readable_range().as_range().end_exclusive() == valid_start + 4,
        None => false,
    };
    readable_ok && writable_ok && string_ok && zero_pointer_rejected && zero_length_rejected
}

fn converts_to(r: Result<usize, AddressConversionError>, expected: usize) -> (b: bool)
    ensures
        b <==> (r matches Ok(v) && v == expected),
{
    match r {
        Ok(value) => value == expected,
        Err(_) => false,
    }
}

fn conversion_rejected(r: Result<usize, AddressConversionError>) -> (b: bool)
    ensures
        b <==> r is Err,
{
    match r {
        Ok(_) => false,
        Err(AddressConversionError::DoesNotFitUsize) => true,
    }
}

/// Verify typed address-to-`usize` conversion helper contracts.
pub fn verify_checked_address_conversions() -> (r: bool)
    ensures
        r,
{
    let page_size: usize = 4096;
    let physical = PhysAddr::new(PAGE_SIZE);
    let dma = DmaPhysicalAddress::new(physical);
    let storage = StorageDataAddress::new(dma);
    let virtual_address = VirtAddr::new(PAGE_SIZE);
    let kernel = KernelVirtualAddress::new(virtual_address);
    let frame_start = match PhysicalFrameStart::new(physical) {
        Some(frame_start) => frame_start,
        None => return false,
    };
    let user = match UserVirtualAddress::new(virtual_address) {
        Some(user) => user,
        None => return false,
    };
    let user_page = match UserPageStart::new(user) {
        Some(user_page) => user_page,
        None => return false,
    };

    converts_to(physical.try_as_usize(), page_size) && converts_to(dma.try_as_usize(), page_size)
        && converts_to(storage.try_as_usize(), page_size) && converts_to(
        virtual_address.try_as_usize(),
        page_size,
    ) && converts_to(kernel.try_as_usize(), page_size) && converts_to(
        frame_start.try_as_usize(),
        page_size,
    ) && converts_to(user.try_as_usize(), page_size) && converts_to(
        user_page.try_as_usize(),
        page_size,
    ) && over_usize_address_is_rejected()
}

fn over_usize_address_is_rejected() -> (r: bool)
    ensures
        r,
{
    let max_address = usize::MAX as u64;
    if max_address == u64::MAX {
        return true;
    }
    let address = max_address + 1;
    conversion_rejected(PhysAddr::new(address).try_as_usize()) && conversion_rejected(
        VirtAddr::new(address).try_as_usize(),
    )
}

/// Verify the typed physical frame count construction contract.
pub fn verify_typed_frame_count() -> (r: bool)
    ensures
        r,
{
    let valid_count = FrameCount::new(2);
    let zero_count = FrameCount::new(0);
    let overflowing_count = FrameCount::new((u64::MAX / PAGE_SIZE) + 1);

    let valid_ok = match valid_count {
        Some(frame_count) => frame_count.as_u64() == 2 && frame_count.byte_len() == 2 * PAGE_SIZE,
        None => false,
    };
    valid_ok && zero_count.is_none() && overflowing_count.is_none()
}

/// Verify the typed virtual page count construction contract.
pub fn verify_typed_page_count() -> (r: bool)
    ensures
        r,
{
    let valid_count = PageCount::new(2);
    let zero_count = PageCount::new(0);
    let overflowing_count = PageCount::new((u64::MAX / PAGE_SIZE) + 1);

    let valid_ok = match valid_count {
        Some(page_count) => page_count.as_u64() == 2 && page_count.byte_len() == 2 * PAGE_SIZE,
        None => false,
    };
    valid_ok && zero_count.is_none() && overflowing_count.is_none()
}


/// Two physical addresses with the same view are the same value.
pub broadcast proof fn lemma_phys_addr_view_injective(a: PhysAddr, b: PhysAddr)
    ensures
        #[trigger] a@ == #[trigger] b@ ==> a == b,
{
}

/// Two DMA addresses with the same view are the same value.
pub broadcast proof fn lemma_dma_physical_address_view_injective(a: DmaPhysicalAddress, b: DmaPhysicalAddress)
    ensures
        #[trigger] a@ == #[trigger] b@ ==> a == b,
{
}

/// Two storage data addresses with the same view are the same value.
pub broadcast proof fn lemma_storage_data_address_view_injective(a: StorageDataAddress, b: StorageDataAddress)
    ensures
        #[trigger] a@ == #[trigger] b@ ==> a == b,
{
}

/// Two virtual addresses with the same view are the same value.
pub broadcast proof fn lemma_virt_addr_view_injective(a: VirtAddr, b: VirtAddr)
    ensures
        #[trigger] a@ == #[trigger] b@ ==> a == b,
{
}

/// Two kernel virtual addresses with the same view are the same value.
pub broadcast proof fn lemma_kernel_virtual_address_view_injective(a: KernelVirtualAddress, b: KernelVirtualAddress)
    ensures
        #[trigger] a@ == #[trigger] b@ ==> a == b,
{
}

/// Two page counts with the same view are the same value.
pub broadcast proof fn lemma_page_count_view_injective(a: PageCount, b: PageCount)
    ensures
        #[trigger] a@ == #[trigger] b@ ==> a == b,
{
}

/// Two framebuffer ranges with the same view are the same value.
pub broadcast proof fn lemma_framebuffer_physical_range_view_injective(a: FramebufferPhysicalRange, b: FramebufferPhysicalRange)
    ensures
        #[trigger] a@ == #[trigger] b@ ==> a == b,
{
}

/// Two frame starts with the same view are the same value.
pub broadcast proof fn lemma_physical_frame_start_view_injective(a: PhysicalFrameStart, b: PhysicalFrameStart)
    ensures
        #[trigger] a@ == #[trigger] b@ ==> a == b,
{
}

/// Two frame counts with the same view are the same value.
pub broadcast proof fn lemma_frame_count_view_injective(a: FrameCount, b: FrameCount)
    ensures
        #[trigger] a@ == #[trigger] b@ ==> a == b,
{
}

/// Two physical frame ranges with the same view are the same value.
pub broadcast proof fn lemma_physical_frame_range_view_injective(a: PhysicalFrameRange, b: PhysicalFrameRange)
    ensures
        #[trigger] a@ == #[trigger] b@ ==> a == b,
{
}

/// Two user addresses with the same view are the same value.
pub broadcast proof fn lemma_user_virtual_address_view_injective(a: UserVirtualAddress, b: UserVirtualAddress)
    ensures
        #[trigger] a@ == #[trigger] b@ ==> a == b,
{
}

/// Two user page starts with the same view are the same value.
pub broadcast proof fn lemma_user_page_start_view_injective(a: UserPageStart, b: UserPageStart)
    ensures
        #[trigger] a@ == #[trigger] b@ ==> a == b,
{
}

/// Two user ranges with the same view are the same value.
pub broadcast proof fn lemma_user_virtual_range_view_injective(a: UserVirtualRange, b: UserVirtualRange)
    ensures
        #[trigger] a@ == #[trigger] b@ ==> a == b,
{
}

/// Two readable user ranges with the same view are the same value.
pub broadcast proof fn lemma_user_readable_range_view_injective(a: UserReadableRange, b: UserReadableRange)
    ensures
        #[trigger] a@ == #[trigger] b@ ==> a == b,
{
}

/// Two user C-string ranges with the same view are the same value.
pub broadcast proof fn lemma_user_c_string_view_injective(a: UserCString, b: UserCString)
    ensures
        #[trigger] a@ == #[trigger] b@ ==> a == b,
{
}

/// Two writable user ranges with the same view are the same value.
pub broadcast proof fn lemma_user_writable_range_view_injective(a: UserWritableRange, b: UserWritableRange)
    ensures
        #[trigger] a@ == #[trigger] b@ ==> a == b,
{
}

/// Equal views of the typed values of this module mean equal values.
pub broadcast group group_typed_value_views {
    lemma_phys_addr_view_injective,
    lemma_dma_physical_address_view_injective,
    lemma_storage_data_address_view_injective,
    lemma_virt_addr_view_injective,
    lemma_kernel_virtual_address_view_injective,
    lemma_page_count_view_injective,
    lemma_framebuffer_physical_range_view_injective,
    lemma_physical_frame_start_view_injective,
    lemma_frame_count_view_injective,
    lemma_physical_frame_range_view_injective,
    lemma_kernel_virtual_range_view_injective,
    lemma_user_virtual_address_view_injective,
    lemma_user_page_start_view_injective,
    lemma_user_virtual_range_view_injective,
    lemma_user_readable_range_view_injective,
    lemma_user_c_string_view_injective,
    lemma_user_writable_range_view_injective,

}


/// Rounding down to a page gives the page boundary at or below the address:
/// page aligned, no larger than the address, and less than a page below
/// it; an aligned address stays as it is.
pub proof fn law_page_floor_is_the_page_boundary_below(address: u64)
    ensures
        page_floor(address as int) % 4096 == 0,
        page_floor(address as int) <= address < page_floor(address as int) + 4096,
        address % 4096 == 0 ==> page_floor(address as int) == address,
        page_floor(page_floor(address as int)) == page_floor(address as int),
{
}

} // verus!
