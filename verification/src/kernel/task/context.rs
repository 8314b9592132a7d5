//! Task register contexts: the saved kernel context, the first user entry
//! state, and the full user trap frame.
//!
//! The field layouts the assembly entry paths rely on are kept by the
//! architecture side; these records carry the values and the rules that
//! build them.

use vstd::prelude::*;

use crate::kernel::memory::address::UserVirtualAddress;

verus! {

/// The CPU flags every fresh context starts with: interrupts enabled and the
/// always-set reserved bit.
pub const INITIAL_CPU_FLAGS: u64 = 0x202;

/// Saved callee-saved context for an `x86_64` kernel task.
#[derive(Clone, Copy, Debug)]
pub struct TaskContext {
    /// Saved stack pointer.
    pub stack_pointer: u64,
    /// Saved `r15`.
    pub register_15: u64,
    /// Saved `r14`.
    pub register_14: u64,
    /// Saved `r13`.
    pub register_13: u64,
    /// Saved `r12`.
    pub register_12: u64,
    /// Saved `rbx`.
    pub register_bx: u64,
    /// Saved `rbp`.
    pub base_pointer: u64,
    /// Saved CPU flags.
    pub flags: u64,
}

impl TaskContext {
    /// Create an empty task context.
    pub fn new() -> (r: Self)
        ensures
            r == Self::spec_new(),
            r.stack_pointer == 0,
            r.register_15 == 0,
            r.register_14 == 0,
            r.register_13 == 0,
            r.register_12 == 0,
            r.register_bx == 0,
            r.base_pointer == 0,
            r.flags == INITIAL_CPU_FLAGS,
    {
        Self {
            stack_pointer: 0,
            register_15: 0,
            register_14: 0,
            register_13: 0,
            register_12: 0,
            register_bx: 0,
            base_pointer: 0,
            flags: INITIAL_CPU_FLAGS,
        }
    }

    /// An initial context whose first switch pops the entry address stored
    /// in the 16 bytes below the 16-byte-aligned stack top.
    pub fn with_initial_stack(stack_top: u64) -> (r: Self)
        requires
            stack_top >= 32,
        ensures
            r.stack_pointer == initial_stack_pointer(stack_top),
            r.flags == INITIAL_CPU_FLAGS,
            r.register_15 == 0 && r.register_14 == 0 && r.register_13 == 0 && r.register_12 == 0
                && r.register_bx == 0 && r.base_pointer == 0,
    {
        let mut context = Self::new();
        context.stack_pointer = first_entry_stack_pointer(stack_top);
        context
    }

    /// Drop the saved state, leaving an empty context.
    pub fn clear(&mut self)
        ensures
            *final(self) == Self::spec_new(),
    {
        *self = Self::new();
    }

    /// The empty context.
    pub open spec fn spec_new() -> Self {
        TaskContext {
            stack_pointer: 0,
            register_15: 0,
            register_14: 0,
            register_13: 0,
            register_12: 0,
            register_bx: 0,
            base_pointer: 0,
            flags: INITIAL_CPU_FLAGS,
        }
    }

    /// Return true when this context has never been initialized with a stack.
    pub fn is_empty(&self) -> (r: bool)
        ensures
            r == (self.stack_pointer == 0),
    {
        self.stack_pointer == 0
    }
}

/// The stack pointer of a fresh kernel task: the stack top rounded down to
/// 16 bytes, less the 16 bytes that hold the entry address.
pub open spec fn initial_stack_pointer(stack_top: u64) -> u64 {
    (stack_top - stack_top % 16 - 16) as u64
}

/// Compute the stack pointer of a fresh kernel task.
pub fn first_entry_stack_pointer(stack_top: u64) -> (r: u64)
    requires
        stack_top >= 32,
    ensures
        r == initial_stack_pointer(stack_top),
        r % 16 == 0,
{
    let aligned = stack_top & !0x0fu64;
    proof {
        assert(stack_top & !0x0fu64 == stack_top - stack_top % 16) by (bit_vector);
    }
    aligned - 16
}

/// Selectors required for a ring 3 transition.
#[derive(Clone, Copy, Debug)]
pub struct UserModeSelectors {
    /// User data segment selector value.
    pub data: u16,
    /// User code segment selector value.
    pub code: u16,
}

/// General-purpose user entry registers supplied at first instruction.
#[derive(Clone, Copy, Debug)]
pub struct UserEntryArguments {
    argument_count: u64,
    argument_values_pointer: UserVirtualAddress,
    environment_values_pointer: UserVirtualAddress,
}

impl View for UserEntryArguments {
    type V = (u64, u64, u64);

    closed spec fn view(&self) -> (u64, u64, u64) {
        (self.argument_count, self.argument_values_pointer@, self.environment_values_pointer@)
    }
}

impl UserEntryArguments {
    /// Create user entry argument registers from typed user-space pointers.
    pub fn new(
        argument_count: u64,
        argument_values_pointer: UserVirtualAddress,
        environment_values_pointer: UserVirtualAddress,
    ) -> (r: Self)
        ensures
            r@ == (argument_count, argument_values_pointer@, environment_values_pointer@),
    {
        Self { argument_count, argument_values_pointer, environment_values_pointer }
    }

    /// Return the number of entries in the `argv` pointer array.
    pub fn argument_count(self) -> (r: u64)
        ensures
            r == self@.0,
    {
        self.argument_count
    }

    /// Return the user virtual address of the null-terminated `argv` pointer array.
    pub fn argument_values_pointer(self) -> (r: UserVirtualAddress)
        ensures
            r@ == self@.1,
    {
        self.argument_values_pointer
    }

    /// Return the user virtual address of the null-terminated environment pointer array.
    pub fn environment_values_pointer(self) -> (r: UserVirtualAddress)
        ensures
            r@ == self@.2,
    {
        self.environment_values_pointer
    }
}

/// Full user-mode register frame required to resume a preempted user task.
#[derive(Clone, Copy, Debug)]
pub struct UserTrapFrame {
    /// User instruction pointer restored by `iretq`.
    pub instruction_pointer: u64,
    /// Ring 3 code segment selector restored by `iretq`.
    pub code_segment: u64,
    /// User CPU flags restored by `iretq`.
    pub cpu_flags: u64,
    /// User stack pointer restored by `iretq`.
    pub stack_pointer: u64,
    /// Ring 3 stack segment selector restored by `iretq`.
    pub stack_segment: u64,
    /// General-purpose `rax` register.
    pub rax: u64,
    /// General-purpose `rbx` register.
    pub rbx: u64,
    /// General-purpose `rcx` register.
    pub rcx: u64,
    /// General-purpose `rdx` register.
    pub rdx: u64,
    /// General-purpose `rsi` register.
    pub rsi: u64,
    /// General-purpose `rdi` register.
    pub rdi: u64,
    /// General-purpose `rbp` register.
    pub rbp: u64,
    /// General-purpose `r8` register.
    pub r8: u64,
    /// General-purpose `r9` register.
    pub r9: u64,
    /// General-purpose `r10` register.
    pub r10: u64,
    /// General-purpose `r11` register.
    pub r11: u64,
    /// General-purpose `r12` register.
    pub r12: u64,
    /// General-purpose `r13` register.
    pub r13: u64,
    /// General-purpose `r14` register.
    pub r14: u64,
    /// General-purpose `r15` register.
    pub r15: u64,
}

/// User-mode first-entry state and argument registers.
#[derive(Clone, Copy, Debug)]
pub struct UserTaskContext {
    /// First user instruction.
    pub instruction_pointer: u64,
    /// Ring 3 code segment selector.
    pub code_segment: u64,
    /// Initial CPU flags.
    pub cpu_flags: u64,
    /// Initial user stack pointer.
    pub stack_pointer: u64,
    /// Ring 3 stack segment selector.
    pub stack_segment: u64,
    /// Number of `argv` entries.
    pub argument_count: u64,
    /// Address of the `argv` pointer array.
    pub argument_values_pointer: u64,
    /// Address of the environment pointer array.
    pub environment_values_pointer: u64,
}

impl UserTaskContext {
    /// Create an initial user-space context with the registered ring 3
    /// selectors.
    pub fn new(
        entry_point: UserVirtualAddress,
        stack_top: UserVirtualAddress,
        entry_arguments: UserEntryArguments,
        selectors: UserModeSelectors,
    ) -> (r: Self)
        requires
            selectors.code != 0,
            selectors.data != 0,
        ensures
            r.instruction_pointer == entry_point@,
            r.code_segment == selectors.code,
            r.cpu_flags == INITIAL_CPU_FLAGS,
            r.stack_pointer == stack_top@,
            r.stack_segment == selectors.data,
            r.argument_count == entry_arguments@.0,
            r.argument_values_pointer == entry_arguments@.1,
            r.environment_values_pointer == entry_arguments@.2,
    {
        Self {
            instruction_pointer: entry_point.as_u64(),
            code_segment: selectors.code as u64,
            cpu_flags: INITIAL_CPU_FLAGS,
            stack_pointer: stack_top.as_u64(),
            stack_segment: selectors.data as u64,
            argument_count: entry_arguments.argument_count(),
            argument_values_pointer: entry_arguments.argument_values_pointer().as_u64(),
            environment_values_pointer: entry_arguments.environment_values_pointer().as_u64(),
        }
    }

    /// The full user trap frame built from this entry state.
    pub open spec fn spec_to_trap_frame(self) -> UserTrapFrame {
        UserTrapFrame {
            instruction_pointer: self.instruction_pointer,
            code_segment: self.code_segment,
            cpu_flags: self.cpu_flags,
            stack_pointer: self.stack_pointer,
            stack_segment: self.stack_segment,
            rax: 0,
            rbx: 0,
            rcx: 0,
            rdx: self.environment_values_pointer,
            rsi: self.argument_values_pointer,
            rdi: self.argument_count,
            rbp: 0,
            r8: 0,
            r9: 0,
            r10: 0,
            r11: 0,
            r12: 0,
            r13: 0,
            r14: 0,
            r15: 0,
        }
    }

    /// Build the full user trap frame used by resume-capable entry paths:
    /// the entry state, `argc` in `rdi`, `argv` in `rsi`, the environment
    /// in `rdx`, and every other register zero.
    pub fn to_trap_frame(self) -> (r: UserTrapFrame)
        ensures
            r == self.spec_to_trap_frame(),
            r.instruction_pointer == self.instruction_pointer,
            r.code_segment == self.code_segment,
            r.cpu_flags == self.cpu_flags,
            r.stack_pointer == self.stack_pointer,
            r.stack_segment == self.stack_segment,
            r.rdi == self.argument_count,
            r.rsi == self.argument_values_pointer,
            r.rdx == self.environment_values_pointer,
            r.rax == 0 && r.rbx == 0 && r.rcx == 0 && r.rbp == 0,
            r.r8 == 0 && r.r9 == 0 && r.r10 == 0 && r.r11 == 0,
            r.r12 == 0 && r.r13 == 0 && r.r14 == 0 && r.r15 == 0,
    {
        UserTrapFrame {
            instruction_pointer: self.instruction_pointer,
            code_segment: self.code_segment,
            cpu_flags: self.cpu_flags,
            stack_pointer: self.stack_pointer,
            stack_segment: self.stack_segment,
            rax: 0,
            rbx: 0,
            rcx: 0,
            rdx: self.environment_values_pointer,
            rsi: self.argument_values_pointer,
            rdi: self.argument_count,
            rbp: 0,
            r8: 0,
            r9: 0,
            r10: 0,
            r11: 0,
            r12: 0,
            r13: 0,
            r14: 0,
            r15: 0,
        }
    }
}

} // verus!
