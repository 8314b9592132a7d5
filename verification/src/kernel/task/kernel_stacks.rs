//! The guarded kernel stacks of the scheduler's tasks, and the lookup that
//! names the task whose guard page a faulting address hit.

use vstd::prelude::*;

use crate::kernel::memory::address::VirtAddr;
use crate::kernel::task::scheduler::{Scheduler, TaskKind};
use crate::kernel::task::stack::{KernelStack, KernelStackFaultOwner, KernelStackGuardFault};

verus! {

/// The kernel stacks of the tasks, indexed like the scheduler's task list;
/// the bootstrap task has none.
pub struct TaskKernelStacks {
    stacks: Vec<Option<KernelStack>>,
}

impl View for TaskKernelStacks {
    type V = Seq<Option<KernelStack>>;

    closed spec fn view(&self) -> Seq<Option<KernelStack>> {
        self.stacks@
    }
}

/// First address of a stack's guard page.
pub open spec fn guard_start(stack: KernelStack) -> int {
    stack.parts().0.0.0 as int
}

/// One byte past a stack's highest writable address.
pub open spec fn stack_top_of(stack: KernelStack) -> int {
    stack.parts().0.0.0 + stack.parts().0.0.1 * 4096
}

/// The top of the stack of task `i`, if it has one.
pub open spec fn kernel_stack_top_of(stacks: Seq<Option<KernelStack>>, i: int) -> Option<u64> {
    if 0 <= i < stacks.len() && stacks[i] is Some {
        Some(stack_top_of(stacks[i]->0) as u64)
    } else {
        None
    }
}

/// Whether `address` lies in the guard page of the stack `entry` holds.
pub open spec fn guard_hit(entry: Option<KernelStack>, address: int) -> bool {
    entry matches Some(stack) && guard_start(stack) <= address < guard_start(stack) + 4096
}

/// Whether the non-empty byte range at `start` of `byte_len` bytes lies in
/// the writable pages of the stack `entry` holds.
pub open spec fn writable_hit(entry: Option<KernelStack>, start: int, byte_len: int) -> bool {
    &&& entry matches Some(stack)
    &&& byte_len > 0
    &&& start + byte_len <= u64::MAX
    &&& guard_start(entry->0) + 4096 <= start
    &&& start + byte_len <= stack_top_of(entry->0)
}

/// Who owns the stack of `task`, by the task's kind.
pub open spec fn fault_owner(task_kind: TaskKind) -> KernelStackFaultOwner {
    match task_kind {
        TaskKind::Kernel => KernelStackFaultOwner::KernelTask,
        TaskKind::User(_) => KernelStackFaultOwner::UserTask,
    }
}

/// Number of tasks that both lists describe.
pub open spec fn described(stacks: Seq<Option<KernelStack>>, scheduler: &Scheduler) -> int {
    if stacks.len() < scheduler.tasks@.len() {
        stacks.len() as int
    } else {
        scheduler.tasks@.len() as int
    }
}

/// The fault report for the guard page of the stack of task `i`.
pub open spec fn guard_fault_view(
    stacks: Seq<Option<KernelStack>>,
    scheduler: &Scheduler,
    i: int,
) -> (u64, KernelStackFaultOwner, u64, u64, u64) {
    let stack = stacks[i]->0;
    (
        scheduler.tasks@[i].spec_id(),
        fault_owner(scheduler.tasks@[i].kind),
        guard_start(stack) as u64,
        (guard_start(stack) + 4096) as u64,
        stack_top_of(stack) as u64,
    )
}

/// Task `i` is the first described task whose guard page holds `address`.
pub open spec fn first_guard_hit(
    stacks: Seq<Option<KernelStack>>,
    scheduler: &Scheduler,
    address: int,
    i: int,
) -> bool {
    &&& 0 <= i < described(stacks, scheduler)
    &&& guard_hit(stacks[i], address)
    &&& forall|j: int| 0 <= j < i ==> !guard_hit(#[trigger] stacks[j], address)
}

/// Task `i` is the first described task that has a stack.
pub open spec fn first_with_stack(stacks: Seq<Option<KernelStack>>, scheduler: &Scheduler, i: int) -> bool {
    &&& 0 <= i < described(stacks, scheduler)
    &&& stacks[i] is Some
    &&& forall|j: int| 0 <= j < i ==> (#[trigger] stacks[j]) is None
}

impl TaskKernelStacks {
    /// The table for a scheduler holding only the bootstrap task, which
    /// runs on the stack it was started with.
    pub fn new() -> (r: Self)
        ensures
            r@ == seq![Option::<KernelStack>::None],
    {
        let mut stacks = Vec::new();
        stacks.push(None);
        Self { stacks }
    }

    /// Record the stack of the task spawned next.
    pub fn push(&mut self, stack: Option<KernelStack>)
        ensures
            final(self)@ == old(self)@.push(stack),
    {
        self.stacks.push(stack);
    }

    /// Return the top of the stack of task `task_index`, as an address, if
    /// it has one.
    pub fn stack_top_address(&self, task_index: usize) -> (r: Option<u64>)
        ensures
            r == kernel_stack_top_of(self@, task_index as int),
    {
        match self.stack_top(task_index) {
            Some(top) => Some(top.as_u64()),
            None => None,
        }
    }

    /// Return the top of the stack of task `task_index`, if it has one.
    pub fn stack_top(&self, task_index: usize) -> (r: Option<VirtAddr>)
        ensures
            r is Some <==> task_index < self@.len() && self@[task_index as int] is Some,
            r matches Some(top) ==> top@ == stack_top_of(self@[task_index as int]->0),
    {
        if task_index >= self.stacks.len() {
            return None;
        }
        match &self.stacks[task_index] {
            Some(stack) => Some(stack.virtual_top()),
            None => None,
        }
    }

    /// Take the stack of task `task_index` out of the table, for its pages to
    /// be unmapped and released.
    pub fn take(&mut self, task_index: usize) -> (r: Option<KernelStack>)
        ensures
            task_index < old(self)@.len() ==> r == old(self)@[task_index as int] && final(self)@
                == old(self)@.update(task_index as int, None),
            task_index >= old(self)@.len() ==> r is None && final(self)@ == old(self)@,
    {
        if task_index >= self.stacks.len() {
            return None;
        }
        let taken = self.stacks[task_index];
        self.stacks.set(task_index, None);
        taken
    }

    /// Return whether a non-empty byte range lies inside the writable pages
    /// of the stack of task `task_index`.
    pub fn contains_kernel_stack_writable_range(
        &self,
        task_index: usize,
        start_address: VirtAddr,
        byte_len: u64,
    ) -> (r: bool)
        ensures
            r == (task_index < self@.len() && writable_hit(
                self@[task_index as int],
                start_address@ as int,
                byte_len as int,
            )),
    {
        if task_index >= self.stacks.len() {
            return false;
        }
        match &self.stacks[task_index] {
            Some(stack) => stack.contains_writable_range(start_address, byte_len),
            None => false,
        }
    }

    /// Name the first task whose kernel stack guard page holds
    /// `fault_address`, with its stack's layout; `None` when no guard page
    /// holds it.
    pub fn get_kernel_stack_guard_fault(&self, scheduler: &Scheduler, fault_address: VirtAddr) -> (r:
        Option<KernelStackGuardFault>)
        requires
            scheduler.wf(),
        ensures
            r is Some <==> exists|i: int| first_guard_hit(self@, scheduler, fault_address@ as int, i),
            r matches Some(fault) ==> exists|i: int|
                first_guard_hit(self@, scheduler, fault_address@ as int, i) && fault@
                    == guard_fault_view(self@, scheduler, i),
    {
        let ghost address = fault_address@ as int;
        let mut index: usize = 0;
        while index < self.stacks.len() && index < scheduler.tasks.len()
            invariant
                index <= self@.len(),
                index <= scheduler.tasks@.len(),
                address == fault_address@,
                forall|j: int| 0 <= j < index ==> !guard_hit(#[trigger] self@[j], address),
            decreases self@.len() - index,
        {
            match &self.stacks[index] {
                Some(stack) => {
                    if stack.contains_guard_address(fault_address) {
                        let task = &scheduler.tasks[index];
                        let owner = match task.kind {
                            TaskKind::Kernel => KernelStackFaultOwner::KernelTask,
                            TaskKind::User(_) => KernelStackFaultOwner::UserTask,
                        };
                        let fault = KernelStackGuardFault::new(
                            task.get_id(),
                            owner,
                            stack.guard_page_virtual_start(),
                            stack.writable_virtual_start(),
                            stack.virtual_top(),
                        );
                        proof {
                            assert(first_guard_hit(self@, scheduler, address, index as int));
                            assert(self@[index as int] == Some(*stack));
                            assert(fault@ == guard_fault_view(self@, scheduler, index as int));
                        }
                        return Some(fault);
                    }
                },
                None => {},
            }
            index += 1;
        }
        proof {
            assert forall|i: int| !first_guard_hit(self@, scheduler, address, i) by {
                if 0 <= i < described(self@, scheduler) {
                    assert(!guard_hit(self@[i], address));
                }
            }
        }
        None
    }

    /// Report the guard fault the guard page of the first task with a stack
    /// would give, as a diagnostic sample; `None` when no task has a stack.
    pub fn get_kernel_stack_guard_fault_diagnostic_sample(&self, scheduler: &Scheduler) -> (r: Option<
        KernelStackGuardFault,
    >)
        requires
            scheduler.wf(),
        ensures
            r is Some <==> exists|i: int| first_with_stack(self@, scheduler, i),
            r matches Some(fault) ==> exists|i: int|
                first_with_stack(self@, scheduler, i) && fault@ == guard_fault_view(self@, scheduler, i),
    {
        let mut index: usize = 0;
        while index < self.stacks.len() && index < scheduler.tasks.len()
            invariant
                index <= self@.len(),
                index <= scheduler.tasks@.len(),
                scheduler.wf(),
                forall|j: int| 0 <= j < index ==> (#[trigger] self@[j]) is None,
            decreases self@.len() - index,
        {
            match &self.stacks[index] {
                Some(stack) => {
                    let sample = stack.guard_page_virtual_start();
                    let r = self.get_kernel_stack_guard_fault(scheduler, sample);
                    proof {
                        assert(first_with_stack(self@, scheduler, index as int));
                        assert(first_guard_hit(self@, scheduler, sample@ as int, index as int));
                        assert forall|i: int| #[trigger]
                            first_guard_hit(self@, scheduler, sample@ as int, i) implies i
                            == index by {
                            if i < index {
                                assert(self@[i] is None);
                            } else if i > index {
                                assert(!guard_hit(self@[index as int], sample@ as int));
                            }
                        }
                    }
                    return r;
                },
                None => {},
            }
            index += 1;
        }
        proof {
            assert forall|i: int| !first_with_stack(self@, scheduler, i) by {
                if 0 <= i < described(self@, scheduler) {
                    assert(self@[i] is None);
                }
            }
        }
        None
    }
}

} // verus!
