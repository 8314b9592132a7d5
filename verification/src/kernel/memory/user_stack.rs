//! User-space stacks: slot placement and the initial argument layout.
//!
//! Every user stack gets its own fixed slot above the stack region base.
//! Before first entry the stack is filled from its top down: the argument
//! strings (last first), the environment strings (last first), an 8-byte
//! alignment, the environment pointer array, the argument pointer array,
//! and a final 16-byte alignment of the stack pointer. The layout is
//! computed here; the caller copies the bytes into the stack's frames.

use vstd::prelude::*;

use super::address::{
    is_user_address, FrameCount, PhysicalFrameRange, PhysicalFrameStart, UserPageStart,
    UserVirtualAddress, VirtAddr, PhysAddr,
};
use super::frame_allocator::{
    allocation_fits_capacity, allocation_result, first_fit, FrameRangeOwner,
    PhysicalFrameAllocator,
};
use super::user_layout::{USER_STACK_REGION_BASE, USER_STACK_SLOT_BYTES};

verus! {

const PAGE_SIZE: u64 = 4096;
const USER_SPACE_LIMIT: u64 = 0x0000_8000_0000_0000;
/// Stack slots between the stack region base and the end of user space.
const MAX_USER_STACK_SLOTS: u64 = 256;
const MAX_USER_ENTRY_ARGUMENTS: usize = 8;
const MAX_USER_ENTRY_ENVIRONMENT: usize = 8;

/// Allocated user stack virtual range.
#[derive(Clone, Copy, Debug)]
pub struct AllocatedUserStack {
    base: UserVirtualAddress,
    top: UserVirtualAddress,
    physical_range: PhysicalFrameRange,
    page_count: u64,
}

impl View for AllocatedUserStack {
    type V = (u64, u64, (u64, u64), u64);

    closed spec fn view(&self) -> (u64, u64, (u64, u64), u64) {
        (self.base@, self.top@, self.physical_range@, self.page_count)
    }
}

impl AllocatedUserStack {
    /// The stack's shape: `page_count` pages from `base` up to `top`, backed
    /// by as many frames.
    pub open spec fn shape(view: (u64, u64, (u64, u64), u64)) -> bool {
        &&& view.3 > 0
        &&& view.1 == view.0 + view.3 * 4096
        &&& view.2.1 == view.3
        &&& is_user_address(view.0 as int)
        &&& is_user_address(view.1 as int)
    }

    /// Return the first writable byte in this user stack.
    pub fn base(&self) -> (r: UserVirtualAddress)
        ensures
            r@ == self@.0,
    {
        self.base
    }

    /// Return the user stack pointer one byte past the writable range.
    pub fn top(&self) -> (r: UserVirtualAddress)
        ensures
            r@ == self@.1,
    {
        self.top
    }

    /// Return the number of writable 4 KiB pages in this stack.
    pub fn page_count(&self) -> (r: u64)
        ensures
            r == self@.3,
    {
        self.page_count
    }

    /// Return the physical frames backing this user stack.
    pub fn physical_range(&self) -> (r: PhysicalFrameRange)
        ensures
            r@ == self@.2,
    {
        self.physical_range
    }

    /// Return the stack's byte length.
    pub fn byte_len(&self) -> (r: u64)
        requires
            Self::shape(self@),
        ensures
            r == self@.3 * 4096,
    {
        self.page_count * PAGE_SIZE
    }

    /// The virtual page and the frame of page `index` of the stack.
    pub fn page_mapping(&self, index: u64) -> (r: (UserPageStart, PhysicalFrameStart))
        requires
            Self::shape(self@),
            self@.0 % 4096 == 0,
            index < self@.3,
        ensures
            r.0@ == self@.0 + index * 4096,
            r.1@ == self@.2.0 + index * 4096,
    {
        let offset = index * PAGE_SIZE;
        let base_page = UserPageStart::new(self.base).expect("user stack base must be page-aligned");
        let start = self.physical_range.start();
        proof {
            assert(offset < self@.3 * 4096) by (nonlinear_arith)
                requires
                    index < self@.3,
                    offset == index * 4096,
            ;
            assert((self@.0 + offset) % 4096 == 0) by (nonlinear_arith)
                requires
                    self@.0 % 4096 == 0,
                    offset == index * 4096,
            ;
            assert((self@.2.0 + offset) % 4096 == 0) by (nonlinear_arith)
                requires
                    self@.2.0 % 4096 == 0,
                    offset == index * 4096,
            ;
        }
        let virtual_page = base_page.checked_add(offset).expect(
            "user stack virtual address overflowed",
        );
        let physical = start.as_address().checked_add(offset).expect(
            "user stack physical address overflowed",
        );
        let physical_start = PhysicalFrameStart::new(physical).expect(
            "user stack physical page must remain aligned",
        );
        (virtual_page, physical_start)
    }

    /// The physical address behind the user stack address `address`.
    pub fn physical_address_of(&self, address: u64) -> (r: u64)
        requires
            Self::shape(self@),
            self@.0 <= address < self@.1,
        ensures
            r == self@.2.0 + (address - self@.0),
    {
        let offset = address - self.base.as_u64();
        let _ = self.physical_range.byte_len();
        self.physical_range.start().as_u64() + offset
    }
}

/// Prepared user stack metadata for first user-mode entry.
#[derive(Clone, Copy, Debug)]
pub struct PreparedUserStack {
    stack_pointer: UserVirtualAddress,
    argument_count: u64,
    argument_values_pointer: UserVirtualAddress,
    environment_values_pointer: UserVirtualAddress,
}

impl View for PreparedUserStack {
    type V = (u64, u64, u64, u64);

    closed spec fn view(&self) -> (u64, u64, u64, u64) {
        (
            self.stack_pointer@,
            self.argument_count,
            self.argument_values_pointer@,
            self.environment_values_pointer@,
        )
    }
}

impl PreparedUserStack {
    /// Return the initial user stack pointer.
    pub fn stack_pointer(&self) -> (r: UserVirtualAddress)
        ensures
            r@ == self@.0,
    {
        self.stack_pointer
    }

    /// Return the number of entries in the user `argv` array.
    pub fn argument_count(&self) -> (r: u64)
        ensures
            r == self@.1,
    {
        self.argument_count
    }

    /// Return the user virtual address of the `argv` pointer array.
    pub fn argument_values_pointer(&self) -> (r: UserVirtualAddress)
        ensures
            r@ == self@.2,
    {
        self.argument_values_pointer
    }

    /// Return the user virtual address of the environment pointer array.
    pub fn environment_values_pointer(&self) -> (r: UserVirtualAddress)
        ensures
            r@ == self@.3,
    {
        self.environment_values_pointer
    }
}

/// The next fixed stack slot to hand out.
pub struct UserStackSlots {
    next_slot: u64,
}

/// The first address of stack slot `slot`.
pub open spec fn slot_base(slot: u64) -> int {
    USER_STACK_REGION_BASE + slot * USER_STACK_SLOT_BYTES
}

impl UserStackSlots {
    /// The next slot number.
    pub closed spec fn next(&self) -> u64 {
        self.next_slot
    }

    /// Slots from zero.
    pub fn new() -> (r: Self)
        ensures
            r.next() == 0,
    {
        Self { next_slot: 0 }
    }
}

/// Take `pages` frames for a user stack and the next virtual stack slot.
///
/// `None`, with nothing taken, when the slot's stack would leave user space
/// or no free range holds `pages` frames.
pub fn reserve_user_stack(
    slots: &mut UserStackSlots,
    frame_allocator: &mut PhysicalFrameAllocator,
    pages: u64,
) -> (r: Option<AllocatedUserStack>)
    requires
        pages > 0,
        pages * 4096 < USER_STACK_SLOT_BYTES - 4096,
        old(frame_allocator).wf(),
        allocation_fits_capacity(old(frame_allocator).range_list(), pages),
    ensures
        final(frame_allocator).wf(),
        r is Some <==> is_user_address(slot_base(old(slots).next()) + pages * 4096) && first_fit(
            old(frame_allocator).range_list(),
            pages,
        ) < old(frame_allocator).range_list().len(),
        r is None ==> final(frame_allocator).range_list() == old(frame_allocator).range_list()
            && final(slots).next() == old(slots).next(),
        r matches Some(stack) ==> {
            &&& final(frame_allocator).range_list() == allocation_result(
                old(frame_allocator).range_list(),
                pages,
                FrameRangeOwner::UserStack,
            )
            &&& final(slots).next() == old(slots).next() + 1
            &&& AllocatedUserStack::shape(stack@)
            &&& stack@.0 == slot_base(old(slots).next())
            &&& stack@.0 % 4096 == 0
            &&& stack@.3 == pages
            &&& stack@.2.0 == old(frame_allocator).range_list()[first_fit(
                old(frame_allocator).range_list(),
                pages,
            )].region.start
        },
{
    let stack_size = pages * PAGE_SIZE;
    let stack_slot = slots.next_slot;
    if stack_slot >= MAX_USER_STACK_SLOTS {
        return None;
    }
    let stack_slot_offset = stack_slot * USER_STACK_SLOT_BYTES;
    let stack_base_raw = USER_STACK_REGION_BASE + stack_slot_offset;
    if stack_base_raw + stack_size >= USER_SPACE_LIMIT {
        return None;
    }
    let frame_count = FrameCount::new(pages).expect("user stack frame count must be valid");
    let physical_range = match frame_allocator.allocate_frames_for(
        frame_count,
        FrameRangeOwner::UserStack,
    ) {
        Some(range) => range,
        None => return None,
    };
    slots.next_slot = slots.next_slot + 1;
    proof {
        assert(stack_slot_offset % 4096 == 0) by (nonlinear_arith)
            requires
                stack_slot_offset == stack_slot * 0x0010_0000,
        ;
    }
    let stack_base = UserVirtualAddress::new(VirtAddr::new(stack_base_raw)).expect(
        "user stack base must be a valid user address",
    );
    let stack_top = stack_base.checked_add(stack_size).expect("user stack top address overflowed");
    Some(AllocatedUserStack { base: stack_base, top: stack_top, physical_range, page_count: pages })
}

pub open spec fn strings_size_from(values: Seq<Seq<u8>>, i: int) -> int
    decreases values.len() - i,
{
    if i < 0 || i >= values.len() {
        0
    } else {
        values[i].len() + 1 + strings_size_from(values, i + 1)
    }
}

proof fn lemma_strings_size_nonneg(values: Seq<Seq<u8>>, i: int)
    ensures
        0 <= strings_size_from(values, i),
    decreases values.len() - i,
{
    if 0 <= i < values.len() {
        lemma_strings_size_nonneg(values, i + 1);
    }
}

proof fn lemma_strings_size_monotone(values: Seq<Seq<u8>>, i: int, j: int)
    requires
        0 <= i <= j <= values.len(),
    ensures
        0 <= strings_size_from(values, j) <= strings_size_from(values, i),
    decreases j - i,
{
    lemma_strings_size_nonneg(values, j);
    if i < j {
        lemma_strings_size_monotone(values, i + 1, j);
    }
}

/// The contents of a byte-string slice.
pub open spec fn string_bytes(values: Seq<&[u8]>) -> Seq<Seq<u8>> {
    Seq::new(values.len(), |i: int| values[i]@)
}

/// The initial stack layout for `arguments` and `environment` under a stack
/// whose top is `top`: where each argument string starts, where each
/// environment string starts, the environment and argument pointer arrays,
/// and the final stack pointer.
pub open spec fn argument_string_address(top: int, arguments: Seq<Seq<u8>>, i: int) -> int {
    top - strings_size_from(arguments, i)
}

/// Where environment string `i` starts.
pub open spec fn environment_string_address(
    top: int,
    arguments: Seq<Seq<u8>>,
    environment: Seq<Seq<u8>>,
    i: int,
) -> int {
    top - strings_size_from(arguments, 0) - strings_size_from(environment, i)
}

/// Where the environment pointer array starts: below the strings rounded
/// down to 8 bytes, with one slot per entry and a terminator.
pub open spec fn environment_array_address(
    top: int,
    arguments: Seq<Seq<u8>>,
    environment: Seq<Seq<u8>>,
) -> int {
    let after_strings = environment_string_address(top, arguments, environment, 0);
    after_strings - after_strings % 8 - (environment.len() + 1) * 8
}

/// Where the argument pointer array starts, right below the environment one.
pub open spec fn argument_array_address(
    top: int,
    arguments: Seq<Seq<u8>>,
    environment: Seq<Seq<u8>>,
) -> int {
    environment_array_address(top, arguments, environment) - (arguments.len() + 1) * 8
}

/// The initial stack pointer: the argument array start rounded down to 16.
pub open spec fn initial_user_stack_pointer(
    top: int,
    arguments: Seq<Seq<u8>>,
    environment: Seq<Seq<u8>>,
) -> int {
    let argv = argument_array_address(top, arguments, environment);
    argv - argv % 16
}

/// The pointer words the layout stores, in the order they are written: the
/// environment entries and their terminator, then the argument entries and
/// theirs.
pub open spec fn pointer_words(
    top: int,
    arguments: Seq<Seq<u8>>,
    environment: Seq<Seq<u8>>,
) -> Seq<(u64, u64)> {
    let envp = environment_array_address(top, arguments, environment);
    let argv = argument_array_address(top, arguments, environment);
    Seq::new(
        (environment.len() + 1 + arguments.len() + 1) as nat,
        |k: int|
            if k < environment.len() {
                (
                    (envp + k * 8) as u64,
                    environment_string_address(top, arguments, environment, k) as u64,
                )
            } else if k == environment.len() {
                ((envp + k * 8) as u64, 0u64)
            } else if k < environment.len() + 1 + arguments.len() {
                let i = k - environment.len() - 1;
                ((argv + i * 8) as u64, argument_string_address(top, arguments, i) as u64)
            } else {
                ((argv + arguments.len() * 8) as u64, 0u64)
            },
    )
}

/// What the caller copies into a prepared stack: each argument string's
/// address, each environment string's address (each string followed by a
/// NUL), and the pointer words.
pub struct InitialStackImage {
    /// Start of argument string `i`.
    pub argument_strings: Vec<u64>,
    /// Start of environment string `i`.
    pub environment_strings: Vec<u64>,
    /// Each pointer word with the address it goes to.
    pub pointer_words: Vec<(u64, u64)>,
}

/// Lay out `arguments` and `environment` on `stack` for first user entry.
///
/// The strings must hold no NUL byte, there may be at most eight of each,
/// and the whole layout must fit between the stack's base and top.
pub fn prepare_initial_stack_bytes(
    stack: AllocatedUserStack,
    arguments: &[&[u8]],
    environment: &[&[u8]],
) -> (r: (PreparedUserStack, InitialStackImage))
    requires
        AllocatedUserStack::shape(stack@),
        arguments@.len() <= 8,
        environment@.len() <= 8,
        forall|i: int, k: int|
            0 <= i < arguments@.len() && 0 <= k < arguments@[i]@.len() ==> arguments@[i]@[k] != 0,
        forall|i: int, k: int|
            0 <= i < environment@.len() && 0 <= k < environment@[i]@.len()
                ==> environment@[i]@[k] != 0,
        initial_user_stack_pointer(
            stack@.1 as int,
            string_bytes(arguments@),
            string_bytes(environment@),
        ) >= stack@.0,
    ensures
        ({
            let top = stack@.1 as int;
            let a = string_bytes(arguments@);
            let e = string_bytes(environment@);
            &&& r.0@ == (
                initial_user_stack_pointer(top, a, e) as u64,
                arguments@.len() as u64,
                argument_array_address(top, a, e) as u64,
                environment_array_address(top, a, e) as u64,
            )
            &&& r.1.argument_strings@.len() == a.len()
            &&& forall|i: int|
                0 <= i < a.len() ==> r.1.argument_strings@[i] == argument_string_address(top, a, i)
            &&& r.1.environment_strings@.len() == e.len()
            &&& forall|i: int|
                0 <= i < e.len() ==> r.1.environment_strings@[i] == environment_string_address(
                    top,
                    a,
                    e,
                    i,
                )
            &&& r.1.pointer_words@ == pointer_words(top, a, e)
            &&& forall|i: int|
                0 <= i < a.len() ==> #[trigger] r.1.pointer_words@[e.len() + 1 + i] == (
                    (r.0@.2 + i * 8) as u64,
                    r.1.argument_strings@[i],
                )
            &&& forall|k: int|
                0 <= k < e.len() ==> #[trigger] r.1.pointer_words@[k] == (
                    (r.0@.3 + k * 8) as u64,
                    r.1.environment_strings@[k],
                )
            &&& forall|i: int|
                0 <= i < a.len() ==> #[trigger] r.1.argument_strings@[i] + a[i].len() + 1 == if i + 1
                    < a.len() {
                    r.1.argument_strings@[i + 1] as int
                } else {
                    top
                }
            &&& forall|k: int|
                0 <= k < e.len() ==> #[trigger] r.1.environment_strings@[k] + e[k].len() + 1 == if k
                    + 1 < e.len() {
                    r.1.environment_strings@[k + 1] as int
                } else if a.len() > 0 {
                    r.1.argument_strings@[0] as int
                } else {
                    top
                }
        }),
{
    let ghost a = string_bytes(arguments@);
    let ghost e = string_bytes(environment@);
    let ghost top = stack.top@ as int;
    let ghost sp = initial_user_stack_pointer(top, a, e);
    let base = stack.base.as_u64();
    let stack_top = stack.top.as_u64();
    proof {
        lemma_strings_size_monotone(a, 0, a.len() as int);
        lemma_strings_size_monotone(e, 0, e.len() as int);
    }
    let mut cursor: u64 = stack_top;
    let mut argument_strings: Vec<u64> = Vec::new();
    let mut fill: usize = 0;
    while fill < arguments.len()
        invariant
            fill <= arguments@.len(),
            argument_strings@.len() == fill,
        decreases arguments@.len() - fill,
    {
        argument_strings.push(0);
        fill = fill + 1;
    }
    let mut index: usize = arguments.len();
    while index > 0
        invariant
            index <= arguments@.len(),
            a == string_bytes(arguments@),
            top == stack_top,
            cursor == top - strings_size_from(a, index as int),
            argument_strings@.len() == a.len(),
            forall|j: int|
                index <= j < a.len() ==> argument_strings@[j] == argument_string_address(top, a, j),
            base <= sp,
            sp <= top - strings_size_from(a, 0) - strings_size_from(e, 0),
            0 <= strings_size_from(e, 0),
        decreases index,
    {
        let value = arguments[index - 1];
        proof {
            lemma_strings_size_monotone(a, 0, index as int - 1);
            assert(a[index as int - 1] == value@);
        }
        let length = value.len() as u64 + 1;
        cursor = cursor - length;
        argument_strings.set(index - 1, cursor);
        index = index - 1;
    }
    let after_arguments = cursor;
    let mut environment_strings: Vec<u64> = Vec::new();
    fill = 0;
    while fill < environment.len()
        invariant
            fill <= environment@.len(),
            environment_strings@.len() == fill,
        decreases environment@.len() - fill,
    {
        environment_strings.push(0);
        fill = fill + 1;
    }
    index = environment.len();
    while index > 0
        invariant
            index <= environment@.len(),
            e == string_bytes(environment@),
            after_arguments == top - strings_size_from(a, 0),
            cursor == after_arguments - strings_size_from(e, index as int),
            environment_strings@.len() == e.len(),
            forall|j: int|
                index <= j < e.len() ==> environment_strings@[j] == environment_string_address(
                    top,
                    a,
                    e,
                    j,
                ),
            base <= sp,
            sp <= after_arguments - strings_size_from(e, 0),
        decreases index,
    {
        let value = environment[index - 1];
        proof {
            lemma_strings_size_monotone(e, 0, index as int - 1);
            assert(e[index as int - 1] == value@);
        }
        let length = value.len() as u64 + 1;
        cursor = cursor - length;
        environment_strings.set(index - 1, cursor);
        index = index - 1;
    }
    let aligned = cursor - cursor % 8;
    let environment_count = environment.len() as u64;
    let argument_count = arguments.len() as u64;
    let environment_array = aligned - (environment_count + 1) * 8;
    let argument_array = environment_array - (argument_count + 1) * 8;
    let stack_pointer = argument_array - argument_array % 16;
    let mut pointer_words_out: Vec<(u64, u64)> = Vec::new();
    let mut k: usize = 0;
    while k < environment.len()
        invariant
            k <= e.len(),
            e.len() == environment@.len(),
            environment_strings@.len() == e.len(),
            forall|j: int|
                0 <= j < e.len() ==> environment_strings@[j] == environment_string_address(
                    top,
                    a,
                    e,
                    j,
                ),
            environment_array == environment_array_address(top, a, e),
            argument_array == argument_array_address(top, a, e),
            base <= sp,
            sp <= argument_array,
            environment_array + (e.len() + 1) * 8 <= top,
            top <= u64::MAX,
            pointer_words_out@ == pointer_words(top, a, e).subrange(0, k as int),
        decreases e.len() - k,
    {
        pointer_words_out.push((environment_array + (k as u64) * 8, environment_strings[k]));
        proof {
            assert(pointer_words_out@ =~= pointer_words(top, a, e).subrange(0, k as int + 1));
        }
        k = k + 1;
    }
    pointer_words_out.push((environment_array + environment_count * 8, 0));
    proof {
        assert(pointer_words_out@ =~= pointer_words(top, a, e).subrange(0, e.len() + 1 as int));
    }
    k = 0;
    while k < arguments.len()
        invariant
            k <= a.len(),
            a.len() == arguments@.len(),
            argument_strings@.len() == a.len(),
            forall|j: int|
                0 <= j < a.len() ==> argument_strings@[j] == argument_string_address(top, a, j),
            argument_array == argument_array_address(top, a, e),
            base <= sp,
            sp <= argument_array,
            argument_array + (a.len() + 1) * 8 <= top,
            top <= u64::MAX,
            pointer_words_out@ == pointer_words(top, a, e).subrange(0, e.len() + 1 + k as int),
        decreases a.len() - k,
    {
        pointer_words_out.push((argument_array + (k as u64) * 8, argument_strings[k]));
        proof {
            assert(pointer_words_out@ =~= pointer_words(top, a, e).subrange(
                0,
                e.len() + 1 + k as int + 1,
            ));
        }
        k = k + 1;
    }
    pointer_words_out.push((argument_array + argument_count * 8, 0));
    proof {
        assert(pointer_words_out@ =~= pointer_words(top, a, e));
    }
    proof {
        law_initial_stack_names_each_string_in_order(top, a, e);
        if a.len() == 0 {
            assert(strings_size_from(a, 0) == 0);
        }
    }
    let stack_pointer_address = UserVirtualAddress::new(VirtAddr::new(stack_pointer)).expect(
        "aligned user stack pointer must remain valid",
    );
    let argument_values_pointer = UserVirtualAddress::new(VirtAddr::new(argument_array)).expect(
        "user entry pointer array must remain valid",
    );
    let environment_values_pointer = UserVirtualAddress::new(
        VirtAddr::new(environment_array),
    ).expect("user entry pointer array must remain valid");
    (
        PreparedUserStack {
            stack_pointer: stack_pointer_address,
            argument_count,
            argument_values_pointer,
            environment_values_pointer,
        },
        InitialStackImage {
            argument_strings,
            environment_strings,
            pointer_words: pointer_words_out,
        },
    )
}


/// The initial stack layout holds each string right after the one before
/// it, with its NUL between: the argument strings in order end at the stack
/// top, and the environment strings in order end where the first argument
/// string begins. The pointer arrays name the strings in the same order:
/// entry `i` of the argument array holds the address of argument string
/// `i`, entry `k` of the environment array that of environment string `k`,
/// and each array ends with a null entry.
pub proof fn law_initial_stack_names_each_string_in_order(
    top: int,
    arguments: Seq<Seq<u8>>,
    environment: Seq<Seq<u8>>,
)
    requires
        0 <= initial_user_stack_pointer(top, arguments, environment),
        top <= u64::MAX,
    ensures
        forall|i: int|
            0 <= i < arguments.len() ==> #[trigger] argument_string_address(top, arguments, i)
                + arguments[i].len() + 1 == if i + 1 < arguments.len() {
                argument_string_address(top, arguments, i + 1)
            } else {
                top
            },
        forall|k: int|
            0 <= k < environment.len() ==> #[trigger] environment_string_address(top, arguments, environment, k)
                + environment[k].len() + 1 == if k + 1 < environment.len() {
                environment_string_address(top, arguments, environment, k + 1)
            } else {
                top - strings_size_from(arguments, 0)
            },
        arguments.len() > 0 ==> argument_string_address(top, arguments, 0) == top - strings_size_from(arguments, 0),
        forall|i: int|
            0 <= i < arguments.len() ==> #[trigger] pointer_words(top, arguments, environment)[environment.len() + 1 + i]
                == ((argument_array_address(top, arguments, environment) + i * 8) as u64, argument_string_address(
                top,
                arguments,
                i,
            ) as u64),
        forall|k: int|
            0 <= k < environment.len() ==> #[trigger] pointer_words(top, arguments, environment)[k] == ((
            environment_array_address(top, arguments, environment) + k * 8) as u64, environment_string_address(
                top,
                arguments,
                environment,
                k,
            ) as u64),
        pointer_words(top, arguments, environment)[environment.len() as int].1 == 0,
        pointer_words(top, arguments, environment)[(environment.len() + 1 + arguments.len()) as int].1 == 0,
        pointer_words(top, arguments, environment).len() == environment.len() + 1 + arguments.len() + 1,
{
    assert forall|i: int| 0 <= i < arguments.len() implies #[trigger] argument_string_address(top, arguments, i)
        + arguments[i].len() + 1 == if i + 1 < arguments.len() {
        argument_string_address(top, arguments, i + 1)
    } else {
        top
    } by {
        assert(strings_size_from(arguments, i) == arguments[i].len() + 1 + strings_size_from(arguments, i + 1));
    }
    assert forall|k: int| 0 <= k < environment.len() implies #[trigger] environment_string_address(
        top,
        arguments,
        environment,
        k,
    ) + environment[k].len() + 1 == if k + 1 < environment.len() {
        environment_string_address(top, arguments, environment, k + 1)
    } else {
        top - strings_size_from(arguments, 0)
    } by {
        assert(strings_size_from(environment, k) == environment[k].len() + 1 + strings_size_from(
            environment,
            k + 1,
        ));
    }
}

} // verus!
