//! Task scheduler lifecycle states and transitions.
//!
//! A task moves from `Ready` to `Running` when it is picked, back to `Ready`
//! when it yields, from `Running` to `Blocked` when it waits for an event,
//! from `Blocked` back to `Running` when it resumes in place or to `Ready`
//! when the event wakes it, and from `Running` to `Finished` when it ends.
//! Every transition is refused, leaving the state as it was, from any other
//! state.

use vstd::prelude::*;

verus! {

/// Current lifecycle state of a schedulable task.
#[derive(Clone, Copy, Debug, PartialEq, Eq, Structural)]
pub enum TaskState {
    /// The task is ready to run.
    Ready,
    /// The task is currently running on the CPU.
    Running,
    /// The task is blocked and must not be scheduled.
    Blocked,
    /// The task has finished and must not be scheduled.
    Finished,
}

impl TaskState {
    /// Whether the task may be picked to run.
    pub fn is_ready(self) -> (r: bool)
        ensures
            r == (self == TaskState::Ready),
    {
        self == Self::Ready
    }

    /// Move a ready task to running; refused from any other state.
    pub fn prepare_to_run(&mut self) -> (r: bool)
        ensures
            r == (*old(self) == TaskState::Ready),
            *final(self) == if r {
                TaskState::Running
            } else {
                *old(self)
            },
    {
        if *self != Self::Ready {
            return false;
        }
        *self = Self::Running;
        true
    }

    /// Move a running task back to ready; refused from any other state.
    pub fn prepare_to_wait(&mut self) -> (r: bool)
        ensures
            r == (*old(self) == TaskState::Running),
            *final(self) == if r {
                TaskState::Ready
            } else {
                *old(self)
            },
    {
        if *self != Self::Running {
            return false;
        }
        *self = Self::Ready;
        true
    }

    /// Move a running task to blocked; refused from any other state.
    pub fn prepare_to_block(&mut self) -> (r: bool)
        ensures
            r == (*old(self) == TaskState::Running),
            *final(self) == if r {
                TaskState::Blocked
            } else {
                *old(self)
            },
    {
        if *self != Self::Running {
            return false;
        }
        *self = Self::Blocked;
        true
    }

    /// Resume a blocked task in place as running; refused from any other
    /// state.
    pub fn resume_blocked(&mut self) -> (r: bool)
        ensures
            r == (*old(self) == TaskState::Blocked),
            *final(self) == if r {
                TaskState::Running
            } else {
                *old(self)
            },
    {
        if *self != Self::Blocked {
            return false;
        }
        *self = Self::Running;
        true
    }

    /// Wake a blocked task so that it may be picked again; refused from any
    /// other state.
    pub fn wake_blocked(&mut self) -> (r: bool)
        ensures
            r == (*old(self) == TaskState::Blocked),
            *final(self) == if r {
                TaskState::Ready
            } else {
                *old(self)
            },
    {
        if *self != Self::Blocked {
            return false;
        }
        *self = Self::Ready;
        true
    }

    /// Move a running task to finished; refused from any other state.
    pub fn finish_running(&mut self) -> (r: bool)
        ensures
            r == (*old(self) == TaskState::Running),
            *final(self) == if r {
                TaskState::Finished
            } else {
                *old(self)
            },
    {
        if *self != Self::Running {
            return false;
        }
        *self = Self::Finished;
        true
    }
}

} // verus!
