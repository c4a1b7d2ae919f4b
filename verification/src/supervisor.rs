//! What the end of a task means for the whole process.
//!
//! The chat client, the responder and the group of catch-up workers run side
//! by side. None of them is restarted alone: the first of them to end, well
//! or badly, ends the process. Within the group of catch-up workers the
//! first failure ends the group; when all have come to their end without one,
//! the group stays alive and idle.

use vstd::prelude::*;

verus! {

/// The tasks that the process is made of.
#[derive(Clone, Copy, Debug, PartialEq, Eq, Structural)]
pub enum Task {
    /// The client of the chat service.
    Chat,
    /// The responder.
    Responder,
    /// The group of catch-up workers.
    Catchup,
}

/// The code with which the process ends once a task has ended.
pub const EXIT_FAILURE: u8 = 1;

/// How the process ends.
#[derive(Debug)]
pub struct Verdict {
    /// The code the process exits with; never zero.
    pub exit_code: u8,
    /// Which part of the service has ended.
    pub context: &'static str,
    /// The error that ended it, if it ended with one.
    pub cause: Option<String>,
}

/// The words that name `task` in a verdict.
pub open spec fn context_of(task: Task) -> Seq<char> {
    match task {
        Task::Chat => "error in discord client service"@,
        Task::Responder => "error in responder service"@,
        Task::Catchup => "error in catchup service"@,
    }
}

/// The verdict on the process when `task` has ended with `outcome`: the
/// process ends with a failure code whatever the outcome was.
pub fn verdict(task: Task, outcome: Result<(), String>) -> (verdict: Verdict)
    ensures
        verdict.exit_code == EXIT_FAILURE,
        verdict.exit_code != 0,
        verdict.context@ == context_of(task),
        verdict.cause == match outcome {
            Ok(_) => None::<String>,
            Err(error) => Some(error),
        },
{
    let context = match task {
        Task::Chat => "error in discord client service",
        Task::Responder => "error in responder service",
        Task::Catchup => "error in catchup service",
    };
    let cause = match outcome {
        Ok(_) => None,
        Err(error) => Some(error),
    };
    Verdict { exit_code: EXIT_FAILURE, context, cause }
}

/// What the group of catch-up workers does after one of them has ended.
#[derive(Debug)]
pub enum GroupStep {
    /// Other workers still run: wait for the next of them to end.
    Continue,
    /// Every worker has come to its end without a failure: stay idle for good.
    Park,
    /// A worker failed with this error: the group ends with it.
    Fail(String),
}

/// The group of catch-up workers, as far as its supervision goes.
#[derive(Clone, Copy, Debug, PartialEq, Eq, Structural)]
pub struct CatchupGroup {
    /// The number of workers that have not ended yet.
    pub running: usize,
    /// A worker has failed.
    pub failed: bool,
}

impl CatchupGroup {
    /// A group of `workers` running workers.
    pub fn new(workers: usize) -> (group: CatchupGroup)
        ensures
            group == (CatchupGroup { running: workers, failed: false }),
    {
        CatchupGroup { running: workers, failed: false }
    }

    /// What the group does first: it waits for a worker to end if it has
    /// any, and is idle for good if it has none.
    pub fn start(&self) -> (step: GroupStep)
        ensures
            step == if self.running == 0 {
                GroupStep::Park
            } else {
                GroupStep::Continue
            },
    {
        if self.running == 0 {
            GroupStep::Park
        } else {
            GroupStep::Continue
        }
    }

    /// The group after one of its workers ended with `outcome`.
    pub open spec fn after(self, outcome: Result<(), String>) -> CatchupGroup {
        CatchupGroup {
            running: if self.running > 0 {
                (self.running - 1) as usize
            } else {
                0
            },
            failed: self.failed || outcome is Err,
        }
    }

    /// Takes note that a worker ended with `outcome`. A failure ends the
    /// group at once, whatever else still runs; otherwise the group goes on
    /// while workers run, and is idle for good when the last has ended.
    pub fn ended(&mut self, outcome: Result<(), String>) -> (step: GroupStep)
        ensures
            *final(self) == old(self).after(outcome),
            step == match outcome {
                Err(error) => GroupStep::Fail(error),
                Ok(_) => if final(self).running == 0 {
                    GroupStep::Park
                } else {
                    GroupStep::Continue
                },
            },
    {
        if self.running > 0 {
            self.running = self.running - 1;
        }
        match outcome {
            Err(error) => {
                self.failed = true;
                GroupStep::Fail(error)
            },
            Ok(_) => if self.running == 0 {
                GroupStep::Park
            } else {
                GroupStep::Continue
            },
        }
    }
}

} // verus!
