//! User process lifecycle records: exit results and the return window of a
//! returnable user entry.
//!
//! A returnable entry opens a window for one task, the entry path stores the
//! kernel stack to come back to exactly once, and the stop syscall takes it
//! back exactly once, closing the window.

use vstd::prelude::*;

use crate::kernel::memory::address::VirtAddr;

verus! {

/// Result reported by a user task that exited through `SYS_EXIT`.
#[derive(Clone, Copy, Debug, PartialEq, Eq, Structural)]
pub struct UserTaskExit {
    task_id: u64,
    exit_code: u64,
}

impl View for UserTaskExit {
    type V = (u64, u64);

    closed spec fn view(&self) -> (u64, u64) {
        (self.task_id, self.exit_code)
    }
}

/// The normal-process wait status word of an exit code: its low byte in
/// bits 8 to 15.
pub open spec fn wait_status_word(exit_code: u64) -> u32 {
    ((exit_code % 256) * 256) as u32
}

impl UserTaskExit {
    /// Create an exit result for a finished user task.
    pub fn new(task_id: u64, exit_code: u64) -> (r: Self)
        ensures
            r@ == (task_id, exit_code),
    {
        Self { task_id, exit_code }
    }

    /// Return the task identifier that exited.
    pub fn task_id(&self) -> (r: u64)
        ensures
            r == self@.0,
    {
        self.task_id
    }

    /// Return the exit code reported by the task.
    pub fn exit_code(&self) -> (r: u64)
        ensures
            r == self@.1,
    {
        self.exit_code
    }

    /// Return the normal-process wait status word for this exit.
    pub fn wait_status(&self) -> (r: u32)
        ensures
            r == wait_status_word(self@.1),
    {
        let low = self.exit_code & 0xff;
        proof {
            let code = self.exit_code;
            assert(code & 0xff == code % 256) by (bit_vector);
            assert((code & 0xff) << 8 == (code & 0xff) * 256) by (bit_vector);
        }
        (low << 8) as u32
    }
}

/// The return window of returnable user entries, with its accounting.
pub struct UserReturnWindow {
    stack: u64,
    window_task_id: u64,
    set_count: u64,
    take_count: u64,
}

/// `count` plus one, wrapping at the `u64` range.
pub open spec fn next_count(count: u64) -> u64 {
    if count == u64::MAX {
        0
    } else {
        (count + 1) as u64
    }
}

impl UserReturnWindow {
    /// The stored stack (zero when none), the window's task (zero when
    /// closed), and how many stacks were stored and taken.
    pub closed spec fn state(&self) -> (u64, u64, u64, u64) {
        (self.stack, self.window_task_id, self.set_count, self.take_count)
    }

    /// A closed window with nothing stored or counted.
    pub fn new() -> (r: Self)
        ensures
            r.state() == (0u64, 0u64, 0u64, 0u64),
    {
        Self { stack: 0, window_task_id: 0, set_count: 0, take_count: 0 }
    }

    /// Open the window for `task_id` before entering user mode.
    pub fn begin(&mut self, task_id: u64)
        requires
            task_id != 0,
            old(self).state().0 == 0,
            old(self).state().1 == 0,
        ensures
            final(self).state() == (0u64, task_id, old(self).state().2, old(self).state().3),
    {
        self.window_task_id = task_id;
    }

    /// Whether the stored stack and the window were both consumed.
    pub fn is_consumed(&self) -> (r: bool)
        ensures
            r == (self.state().0 == 0 && self.state().1 == 0),
    {
        self.stack == 0 && self.window_task_id == 0
    }

    /// Save the kernel return stack used by a returnable user task entry.
    pub fn set_user_return_stack(&mut self, stack_pointer: VirtAddr)
        requires
            stack_pointer@ != 0,
            old(self).state().1 != 0,
            old(self).state().0 == 0,
        ensures
            final(self).state() == (
                stack_pointer@,
                old(self).state().1,
                next_count(old(self).state().2),
                old(self).state().3,
            ),
    {
        self.stack = stack_pointer.as_u64();
        self.set_count = self.set_count.wrapping_add(1);
    }

    /// Take back the kernel stack pointer after a user stop syscall, closing
    /// the window.
    pub fn get_user_return_stack(&mut self) -> (r: VirtAddr)
        requires
            old(self).state().0 != 0,
            old(self).state().1 != 0,
        ensures
            r@ == old(self).state().0,
            final(self).state() == (
                0u64,
                0u64,
                old(self).state().2,
                next_count(old(self).state().3),
            ),
    {
        let stack_pointer = VirtAddr::new(self.stack);
        self.stack = 0;
        self.window_task_id = 0;
        self.take_count = self.take_count.wrapping_add(1);
        stack_pointer
    }

    /// Return the number of returnable user stacks stored by the entry path.
    pub fn user_return_stack_set_count(&self) -> (r: u64)
        ensures
            r == self.state().2,
    {
        self.set_count
    }

    /// Return the number of returnable user stacks consumed after user stop syscalls.
    pub fn user_return_stack_take_count(&self) -> (r: u64)
        ensures
            r == self.state().3,
    {
        self.take_count
    }
}

/// The stack address an entry path hands over as a machine word.
pub fn user_return_stack_from_abi(stack_pointer: usize) -> (r: VirtAddr)
    ensures
        r@ == stack_pointer,
{
    user_return_stack_from_storage(stack_pointer as u64)
}

/// The stack address kept in the window's storage word.
pub fn user_return_stack_from_storage(stack_pointer: u64) -> (r: VirtAddr)
    ensures
        r@ == stack_pointer,
{
    VirtAddr::new(stack_pointer)
}

/// The machine word handed back to the entry path.
pub fn user_return_stack_to_abi(stack_pointer: VirtAddr) -> (r: usize)
    requires
        stack_pointer@ <= usize::MAX,
    ensures
        r == stack_pointer@,
{
    match stack_pointer.try_as_usize() {
        Ok(value) => value,
        Err(_) => {
            proof {
                assert(false);
            }
            0
        },
    }
}

/// Verify user-return stack ABI conversion rules. The representative
/// kernel-half stack address needs a 64-bit machine word, so the check
/// passes exactly where `usize` is 64 bits wide.
pub fn verify_typed_user_return_stack_address() -> (r: bool)
    ensures
        r == (usize::MAX == u64::MAX),
{
    if (usize::MAX as u64) < u64::MAX {
        return false;
    }
    let representative_stack: u64 = 0xffff_8000_0000_4000;
    let stack_pointer = user_return_stack_from_abi(representative_stack as usize);
    stack_pointer.as_u64() == representative_stack && user_return_stack_from_storage(
        stack_pointer.as_u64(),
    ).as_u64() == stack_pointer.as_u64() && user_return_stack_to_abi(stack_pointer) as u64
        == representative_stack
}


/// The wait status of an exit reports a normal exit: its low byte is zero
/// and the byte above it is the low byte of the exit code, so two exit
/// codes give the same status exactly when their low bytes agree.
pub proof fn law_wait_status_reports_the_exit_code_byte(exit_code: u64, other_code: u64)
    ensures
        wait_status_word(exit_code) % 256 == 0,
        wait_status_word(exit_code) / 256 == exit_code % 256,
        wait_status_word(exit_code) < 65536,
        (wait_status_word(exit_code) == wait_status_word(other_code)) <==> (exit_code % 256 == other_code % 256),
{
}

} // verus!
