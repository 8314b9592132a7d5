//! Task identity metadata used before process ownership exists.
//!
//! A task records one exit status at most, and a parent collects it at most
//! once.

use vstd::prelude::*;

verus! {

/// A scheduler-local task identifier.
#[derive(Clone, Copy, Debug, PartialEq, Eq, Structural)]
pub struct TaskIdentifier(u64);

impl View for TaskIdentifier {
    type V = u64;

    closed spec fn view(&self) -> u64 {
        self.0
    }
}

impl TaskIdentifier {
    /// The bootstrap kernel task identifier.
    pub fn bootstrap() -> (r: Self)
        ensures
            r@ == 0,
    {
        Self(0)
    }

    /// The first identifier handed to a spawned task.
    pub fn first_dynamic() -> (r: Self)
        ensures
            r@ == 1,
    {
        Self(1)
    }

    /// Hand out this identifier and move on to the next one.
    pub fn allocate(&mut self) -> (r: Self)
        requires
            old(self)@ < u64::MAX,
        ensures
            r@ == old(self)@,
            final(self)@ == old(self)@ + 1,
    {
        let identifier = *self;
        self.0 = self.0 + 1;
        identifier
    }

    /// Return the task identifier as the current syscall-facing integer.
    pub fn as_u64(self) -> (r: u64)
        ensures
            r == self@,
    {
        self.0
    }
}

/// An exit status a task retained: its code and whether the parent
/// collected it.
#[derive(Clone, Copy, Debug, PartialEq, Eq, Structural)]
pub struct TaskExitStatus {
    exit_code: u64,
    wait_collected: bool,
}

impl View for TaskExitStatus {
    type V = (u64, bool);

    closed spec fn view(&self) -> (u64, bool) {
        (self.exit_code, self.wait_collected)
    }
}

impl TaskExitStatus {
    /// A freshly retained, uncollected exit status.
    pub fn new(exit_code: u64) -> (r: Self)
        ensures
            r@ == (exit_code, false),
    {
        Self { exit_code, wait_collected: false }
    }

    /// Return the retained exit code.
    pub fn exit_code(self) -> (r: u64)
        ensures
            r == self@.0,
    {
        self.exit_code
    }

    /// Return whether the parent collected this status.
    pub fn wait_collected(self) -> (r: bool)
        ensures
            r == self@.1,
    {
        self.wait_collected
    }

    /// Mark this status collected.
    pub fn mark_wait_collected(&mut self)
        ensures
            final(self)@ == (old(self)@.0, true),
    {
        self.wait_collected = true;
    }
}

/// Scheduler metadata that will become process ownership metadata later.
///
/// The view is the identifier, the parent identifier, and the retained exit
/// status with its collected flag.
#[derive(Clone, Copy, Debug)]
pub struct TaskMetadata {
    identifier: TaskIdentifier,
    parent_identifier: Option<TaskIdentifier>,
    exit_status: Option<TaskExitStatus>,
}

impl View for TaskMetadata {
    type V = (u64, Option<u64>, Option<(u64, bool)>);

    closed spec fn view(&self) -> (u64, Option<u64>, Option<(u64, bool)>) {
        (
            self.identifier@,
            match self.parent_identifier {
                Some(parent) => Some(parent@),
                None => None,
            },
            match self.exit_status {
                Some(status) => Some(status@),
                None => None,
            },
        )
    }
}

impl TaskMetadata {
    /// Metadata of the bootstrap task: identifier zero, no parent, no exit.
    pub fn bootstrap() -> (r: Self)
        ensures
            r@ == (0u64, None::<u64>, None::<(u64, bool)>),
    {
        Self { identifier: TaskIdentifier::bootstrap(), parent_identifier: None, exit_status: None }
    }

    /// Metadata of a task spawned by `parent_identifier`.
    pub fn child(identifier: TaskIdentifier, parent_identifier: TaskIdentifier) -> (r: Self)
        ensures
            r@ == (identifier@, Some(parent_identifier@), None::<(u64, bool)>),
    {
        Self { identifier, parent_identifier: Some(parent_identifier), exit_status: None }
    }

    /// Return the task's scheduler-local identifier.
    pub fn get_identifier(&self) -> (r: TaskIdentifier)
        ensures
            r@ == self@.0,
    {
        self.identifier
    }

    /// Return the parent task identifier recorded when the task was spawned.
    pub fn get_parent_identifier(&self) -> (r: Option<TaskIdentifier>)
        ensures
            r is Some <==> self@.1 is Some,
            r matches Some(parent) ==> parent@ == self@.1->0,
    {
        self.parent_identifier
    }

    /// Hand a task whose parent exited to the bootstrap task; refused,
    /// changing nothing, for the bootstrap task itself (it has no parent)
    /// and once the exit status was collected.
    pub fn reparent_to_initial_process(&mut self) -> (r: bool)
        ensures
            r == (old(self)@.1 is Some && !(old(self)@.2 matches Some(status) && status.1)),
            final(self)@ == if r {
                (old(self)@.0, Some(0u64), old(self)@.2)
            } else {
                old(self)@
            },
    {
        if self.parent_identifier.is_none() || self.wait_collected() {
            return false;
        }
        self.parent_identifier = Some(TaskIdentifier::bootstrap());
        true
    }

    /// Retain `exit_code` as the task's exit status; refused, changing
    /// nothing, once a status was retained.
    pub fn record_exit_status(&mut self, exit_code: u64) -> (r: bool)
        ensures
            r == (old(self)@.2 is None),
            final(self)@ == if r {
                (old(self)@.0, old(self)@.1, Some((exit_code, false)))
            } else {
                old(self)@
            },
    {
        if self.exit_status.is_some() {
            return false;
        }
        self.exit_status = Some(TaskExitStatus::new(exit_code));
        true
    }

    /// Return the retained exit code, if any.
    pub fn get_exit_code(&self) -> (r: Option<u64>)
        ensures
            r == match self@.2 {
                Some(status) => Some(status.0),
                None => None,
            },
    {
        match self.exit_status {
            Some(status) => Some(status.exit_code()),
            None => None,
        }
    }

    /// Whether a retained exit status waits for the parent.
    pub fn is_waitable(&self) -> (r: bool)
        ensures
            r == (self@.2 matches Some(status) && !status.1),
    {
        match self.exit_status {
            Some(status) => !status.wait_collected(),
            None => false,
        }
    }

    /// Whether the parent collected the retained exit status.
    pub fn wait_collected(&self) -> (r: bool)
        ensures
            r == (self@.2 matches Some(status) && status.1),
    {
        match self.exit_status {
            Some(status) => status.wait_collected(),
            None => false,
        }
    }

    /// Collect a waiting exit status for the parent and return its code;
    /// `None`, changing nothing, when there is none to collect.
    pub fn collect_waitable_exit(&mut self) -> (r: Option<u64>)
        ensures
            r == match old(self)@.2 {
                Some(status) => if status.1 {
                    None
                } else {
                    Some(status.0)
                },
                None => None,
            },
            final(self)@ == match old(self)@.2 {
                Some(status) => (old(self)@.0, old(self)@.1, Some((status.0, true))),
                None => old(self)@,
            },
    {
        match self.exit_status {
            Some(status) => {
                if status.wait_collected() {
                    return None;
                }
                let mut collected = status;
                collected.mark_wait_collected();
                self.exit_status = Some(collected);
                Some(status.exit_code())
            },
            None => None,
        }
    }
}

} // verus!
