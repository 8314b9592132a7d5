//! Page-fault diagnostic records shared across architecture and kernel code.

use vstd::prelude::*;

verus! {

/// Virtual address that triggered a page fault.
#[derive(Clone, Copy, Debug, PartialEq, Eq, Structural)]
pub struct PageFaultAddress(u64);

impl View for PageFaultAddress {
    type V = u64;

    closed spec fn view(&self) -> u64 {
        self.0
    }
}

impl PageFaultAddress {
    /// Create a page-fault address from the architecture CR2 value.
    pub fn new(value: u64) -> (r: Self)
        ensures
            r@ == value,
    {
        Self(value)
    }

    /// Return the raw virtual address for final diagnostics or conversion.
    pub fn as_u64(self) -> (r: u64)
        ensures
            r == self@,
    {
        self.0
    }
}

/// Raw `x86_64` page-fault error-code bits.
#[derive(Clone, Copy, Debug, PartialEq, Eq, Structural)]
pub struct PageFaultErrorBits(u64);

impl View for PageFaultErrorBits {
    type V = u64;

    closed spec fn view(&self) -> u64 {
        self.0
    }
}

impl PageFaultErrorBits {
    /// Create an error-code wrapper from the architecture exception frame.
    pub fn new(value: u64) -> (r: Self)
        ensures
            r@ == value,
    {
        Self(value)
    }

    /// Return the raw error-code bits for final diagnostics.
    pub fn as_u64(self) -> (r: u64)
        ensures
            r == self@,
    {
        self.0
    }
}

/// Virtual instruction pointer captured with a page fault.
#[derive(Clone, Copy, Debug, PartialEq, Eq, Structural)]
pub struct PageFaultInstructionPointer(u64);

impl View for PageFaultInstructionPointer {
    type V = u64;

    closed spec fn view(&self) -> u64 {
        self.0
    }
}

impl PageFaultInstructionPointer {
    /// Create an instruction-pointer wrapper from the architecture exception frame.
    pub fn new(value: u64) -> (r: Self)
        ensures
            r@ == value,
    {
        Self(value)
    }

    /// Return the raw virtual instruction pointer for final diagnostics.
    pub fn as_u64(self) -> (r: u64)
        ensures
            r == self@,
    {
        self.0
    }
}

/// Page-fault report passed from architecture exception handling to the kernel.
///
/// The view is the fault address, the error bits and the instruction pointer.
#[derive(Clone, Copy, Debug, PartialEq, Eq, Structural)]
pub struct PageFaultReport {
    fault_address: PageFaultAddress,
    error_bits: PageFaultErrorBits,
    instruction_pointer: PageFaultInstructionPointer,
}

impl View for PageFaultReport {
    type V = (u64, u64, u64);

    closed spec fn view(&self) -> (u64, u64, u64) {
        (self.fault_address@, self.error_bits@, self.instruction_pointer@)
    }
}

impl PageFaultReport {
    /// Create a page-fault report from typed architecture boundary values.
    pub fn new(
        fault_address: PageFaultAddress,
        error_bits: PageFaultErrorBits,
        instruction_pointer: PageFaultInstructionPointer,
    ) -> (r: Self)
        ensures
            r@ == (fault_address@, error_bits@, instruction_pointer@),
    {
        Self { fault_address, error_bits, instruction_pointer }
    }

    /// Return the virtual address that triggered the page fault.
    pub fn fault_address(self) -> (r: PageFaultAddress)
        ensures
            r@ == self@.0,
    {
        self.fault_address
    }

    /// Return the raw `x86_64` page-fault error-code bits.
    pub fn error_bits(self) -> (r: PageFaultErrorBits)
        ensures
            r@ == self@.1,
    {
        self.error_bits
    }

    /// Return the virtual instruction pointer captured with the fault.
    pub fn instruction_pointer(self) -> (r: PageFaultInstructionPointer)
        ensures
            r@ == self@.2,
    {
        self.instruction_pointer
    }
}

/// Verify the page-fault report wrappers preserve their typed fields.
pub fn verify_typed_page_fault_report() -> (r: bool)
    ensures
        r,
{
    let report = PageFaultReport::new(
        PageFaultAddress::new(0x1000),
        PageFaultErrorBits::new(0b101),
        PageFaultInstructionPointer::new(0x2000),
    );
    report.fault_address().as_u64() == 0x1000 && report.error_bits().as_u64() == 0b101
        && report.instruction_pointer().as_u64() == 0x2000
}

} // verus!
