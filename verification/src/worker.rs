//! The transfer worker: the single owner of the connection to the funds
//! issuer.
//!
//! Callers hand in jobs; the worker gives each a ticket, lets the jobs wait
//! in the order of their tickets, and has at most one transfer under way at
//! any time. Before it takes any job it has to be told that the one-time
//! synchronization with the ledger went well. The worker decides; performing
//! the synchronization and the transfers is the caller's business.

use crate::value::{values_model, Value, ValueModel};
use std::collections::VecDeque;
use vstd::prelude::*;

verus! {

/// From which of the wallet's accounts a transfer is paid.
#[derive(Clone, Copy, Debug, PartialEq, Eq, Structural)]
pub enum Source {
    /// From whatever funds are available.
    Any,
    /// From the account with this index.
    Index(u32),
}

/// How far the worker is with the one-time synchronization.
#[derive(Clone, Copy, Debug, PartialEq, Eq, Structural)]
pub enum Readiness {
    /// The synchronization has not ended yet.
    Unsynchronized,
    /// The synchronization went well: jobs are taken.
    Ready,
    /// The synchronization failed: the worker will never take a job.
    Broken,
}

/// A transfer that was handed in: its ticket, the address and the values.
#[derive(Debug)]
pub struct Job {
    pub ticket: u64,
    pub address: String,
    pub values: Vec<Value>,
}

/// A job as contracts see it.
pub struct JobModel {
    pub ticket: u64,
    pub address: Seq<char>,
    pub values: Seq<ValueModel>,
}

impl View for Job {
    type V = JobModel;

    open spec fn view(&self) -> JobModel {
        JobModel {
            ticket: self.ticket,
            address: self.address@,
            values: values_model(self.values@),
        }
    }
}

/// The models of `jobs`, in their order.
pub open spec fn jobs_model(jobs: Seq<Job>) -> Seq<JobModel> {
    Seq::new(jobs.len(), |i: int| jobs[i]@)
}

/// Why a job was not taken.
#[derive(Clone, Copy, Debug, PartialEq, Eq, Structural)]
pub enum SubmitError {
    /// The worker is not synchronized, or never will be.
    NotReady,
    /// Every ticket has been given out.
    Exhausted,
}

/// Why a report on the synchronization was refused.
#[derive(Clone, Copy, Debug, PartialEq, Eq, Structural)]
pub enum SyncError {
    /// The synchronization failed. This is fatal: nothing will be served.
    Failed,
    /// The synchronization had already ended when the report came.
    Repeated,
}

/// A worker as contracts see it.
pub struct WorkerModel {
    pub source: Source,
    /// The fee paid for each transfer.
    pub fee: u64,
    pub readiness: Readiness,
    /// The jobs that wait, the oldest first.
    pub waiting: Seq<JobModel>,
    /// The ticket of the job whose transfer is under way.
    pub in_flight: Option<u64>,
    /// The number of jobs taken so far.
    pub submitted: nat,
    /// The number of transfers begun so far.
    pub started: nat,
    /// The number of transfers ended so far.
    pub finished: nat,
}

impl WorkerModel {
    /// Every job taken is waiting, under way or ended, and is so exactly
    /// once; at most one is under way; the jobs are begun in the order of
    /// their tickets; and no job was taken before the worker was ready.
    pub open spec fn valid(self) -> bool {
        &&& self.submitted == self.started + self.waiting.len()
        &&& self.started == self.finished + (if self.in_flight is Some {
            1nat
        } else {
            0nat
        })
        &&& self.submitted <= u64::MAX
        &&& forall|k: int|
            0 <= k < self.waiting.len() ==> (#[trigger] self.waiting[k]).ticket == self.started + k
        &&& self.in_flight matches Some(ticket) ==> ticket == self.finished
        &&& self.readiness != Readiness::Ready ==> self.submitted == 0
    }

    /// A worker that has not been synchronized yet.
    pub open spec fn fresh(source: Source, fee: u64) -> WorkerModel {
        WorkerModel {
            source,
            fee,
            readiness: Readiness::Unsynchronized,
            waiting: Seq::empty(),
            in_flight: None,
            submitted: 0,
            started: 0,
            finished: 0,
        }
    }

    /// A job can be taken.
    pub open spec fn accepts(self) -> bool {
        self.readiness == Readiness::Ready && self.submitted < u64::MAX
    }

    /// A transfer can begin: the worker is ready, none is under way, and a
    /// job waits.
    pub open spec fn can_begin(self) -> bool {
        self.readiness == Readiness::Ready && self.in_flight is None && self.waiting.len() > 0
    }

    /// The worker after it took a job for `address` and `values`.
    pub open spec fn after_submit(self, address: Seq<char>, values: Seq<ValueModel>) -> WorkerModel {
        WorkerModel {
            waiting: self.waiting.push(
                JobModel { ticket: self.submitted as u64, address, values },
            ),
            submitted: self.submitted + 1,
            ..self
        }
    }

    /// The worker after the transfer of the oldest waiting job began.
    pub open spec fn after_begin(self) -> WorkerModel {
        WorkerModel {
            waiting: self.waiting.skip(1),
            in_flight: Some(self.waiting[0].ticket),
            started: self.started + 1,
            ..self
        }
    }

    /// The worker after the transfer under way ended.
    pub open spec fn after_complete(self) -> WorkerModel {
        WorkerModel { in_flight: None, finished: self.finished + 1, ..self }
    }

    /// Nothing waits and nothing is under way.
    pub open spec fn idle(self) -> bool {
        self.waiting.len() == 0 && self.in_flight is None
    }
}

/// A transfer that is to be performed now.
#[derive(Debug)]
pub struct Transfer {
    pub ticket: u64,
    pub address: String,
    pub values: Vec<Value>,
    pub source: Source,
    pub fee: u64,
}

/// How a transfer ended: the transaction's identifier, or the error's text.
#[derive(Debug)]
pub struct Completion {
    pub ticket: u64,
    pub result: Result<String, String>,
}

/// The transfer worker.
#[derive(Debug)]
pub struct TransferWorker {
    source: Source,
    fee: u64,
    readiness: Readiness,
    waiting: VecDeque<Job>,
    in_flight: Option<u64>,
    submitted: u64,
    started: u64,
    finished: u64,
}

impl View for TransferWorker {
    type V = WorkerModel;

    closed spec fn view(&self) -> WorkerModel {
        WorkerModel {
            source: self.source,
            fee: self.fee,
            readiness: self.readiness,
            waiting: jobs_model(self.waiting@),
            in_flight: self.in_flight,
            submitted: self.submitted as nat,
            started: self.started as nat,
            finished: self.finished as nat,
        }
    }
}

impl TransferWorker {
    #[verifier::type_invariant]
    spec fn well_formed(self) -> bool {
        self@.valid()
    }

    /// A worker that pays from `source`, with `fee` for each transfer, and
    /// has not been synchronized yet.
    pub fn new(source: Source, fee: u64) -> (worker: TransferWorker)
        ensures
            worker@ == WorkerModel::fresh(source, fee),
            worker@.valid(),
    {
        let worker = TransferWorker {
            source,
            fee,
            readiness: Readiness::Unsynchronized,
            waiting: VecDeque::new(),
            in_flight: None,
            submitted: 0,
            started: 0,
            finished: 0,
        };
        assert(worker@.waiting =~= Seq::empty());
        worker
    }

    /// How far the worker is with the synchronization.
    pub fn readiness(&self) -> (readiness: Readiness)
        ensures
            readiness == self@.readiness,
            self@.valid(),
    {
        proof {
            use_type_invariant(self);
        }
        self.readiness
    }

    /// The number of jobs that wait.
    pub fn waiting(&self) -> (n: usize)
        ensures
            n == self@.waiting.len(),
            self@.valid(),
    {
        proof {
            use_type_invariant(self);
        }
        self.waiting.len()
    }

    /// The ticket of the job whose transfer is under way, if one is.
    pub fn in_flight(&self) -> (ticket: Option<u64>)
        ensures
            ticket == self@.in_flight,
            self@.valid(),
    {
        proof {
            use_type_invariant(self);
        }
        self.in_flight
    }

    /// Tells the worker how the one-time synchronization ended. A worker
    /// that waited for it becomes ready if it went well and broken for good
    /// if it failed; a worker that did not wait for it stays as it is.
    pub fn synchronized(&mut self, ok: bool) -> (res: Result<(), SyncError>)
        ensures
            final(self)@.valid(),
            old(self)@.readiness == Readiness::Unsynchronized && ok ==> res is Ok && final(self)@
                == (WorkerModel { readiness: Readiness::Ready, ..old(self)@ }),
            old(self)@.readiness == Readiness::Unsynchronized && !ok ==> res == Err::<
                (),
                SyncError,
            >(SyncError::Failed) && final(self)@ == (WorkerModel {
                readiness: Readiness::Broken,
                ..old(self)@
            }),
            old(self)@.readiness != Readiness::Unsynchronized ==> res == Err::<(), SyncError>(
                SyncError::Repeated,
            ) && final(self)@ == old(self)@,
    {
        let mut held = TransferWorker::new(Source::Any, 0);
        core::mem::swap(self, &mut held);
        proof {
            use_type_invariant(&held);
        }
        let TransferWorker { source, fee, readiness, waiting, in_flight, submitted, started, finished } =
            held;
        let (next, res) = match readiness {
            Readiness::Unsynchronized => if ok {
                (Readiness::Ready, Ok(()))
            } else {
                (Readiness::Broken, Err(SyncError::Failed))
            },
            _ => (readiness, Err(SyncError::Repeated)),
        };
        *self =
        TransferWorker { source, fee, readiness: next, waiting, in_flight, submitted, started, finished };
        res
    }

    /// Hands in a transfer of `values` to `address`. A ready worker takes it
    /// as the youngest waiting job and answers with its ticket, which is the
    /// number of jobs taken before it; a worker that is not ready, or that
    /// has no ticket left, takes nothing.
    pub fn submit(&mut self, address: String, values: Vec<Value>) -> (res: Result<u64, SubmitError>)
        ensures
            final(self)@.valid(),
            old(self)@.accepts() ==> res == Ok::<u64, SubmitError>(old(self)@.submitted as u64)
                && final(self)@ == old(self)@.after_submit(address@, values_model(values@)),
            old(self)@.readiness != Readiness::Ready ==> res == Err::<u64, SubmitError>(
                SubmitError::NotReady,
            ) && final(self)@ == old(self)@,
            old(self)@.readiness == Readiness::Ready && !old(self)@.accepts() ==> res == Err::<
                u64,
                SubmitError,
            >(SubmitError::Exhausted) && final(self)@ == old(self)@,
    {
        let mut held = TransferWorker::new(Source::Any, 0);
        core::mem::swap(self, &mut held);
        proof {
            use_type_invariant(&held);
        }
        let TransferWorker {
            source,
            fee,
            readiness,
            mut waiting,
            in_flight,
            mut submitted,
            started,
            finished,
        } = held;
        let res = match readiness {
            Readiness::Ready => if submitted < u64::MAX {
                let ticket = submitted;
                let ghost before = waiting@;
                waiting.push_back(Job { ticket, address, values });
                submitted = submitted + 1;
                proof {
                    assert(jobs_model(waiting@) =~= jobs_model(before).push(
                        JobModel { ticket, address: address@, values: values_model(values@) },
                    ));
                }
                Ok(ticket)
            } else {
                Err(SubmitError::Exhausted)
            },
            _ => Err(SubmitError::NotReady),
        };
        *self =
        TransferWorker { source, fee, readiness, waiting, in_flight, submitted, started, finished };
        res
    }

    /// Begins the transfer of the oldest waiting job, if a transfer can
    /// begin: the worker is ready, no transfer is under way and a job waits.
    /// The transfer is paid from the worker's source and with its fee.
    pub fn begin(&mut self) -> (res: Option<Transfer>)
        ensures
            final(self)@.valid(),
            old(self)@.can_begin() ==> final(self)@ == old(self)@.after_begin() && res is Some && ({
                let transfer = res->Some_0;
                let job = old(self)@.waiting[0];
                &&& transfer.ticket == job.ticket
                &&& transfer.ticket == old(self)@.started
                &&& transfer.address@ == job.address
                &&& values_model(transfer.values@) == job.values
                &&& transfer.source == old(self)@.source
                &&& transfer.fee == old(self)@.fee
            }),
            !old(self)@.can_begin() ==> res is None && final(self)@ == old(self)@,
    {
        let mut held = TransferWorker::new(Source::Any, 0);
        core::mem::swap(self, &mut held);
        proof {
            use_type_invariant(&held);
        }
        let TransferWorker {
            source,
            fee,
            readiness,
            mut waiting,
            mut in_flight,
            submitted,
            mut started,
            finished,
        } = held;
        let ghost before = waiting@;
        let mut res: Option<Transfer> = None;
        if readiness == Readiness::Ready && in_flight.is_none() {
            match waiting.pop_front() {
                Some(job) => {
                    assert(job@ == jobs_model(before)[0]);
                    assert(jobs_model(waiting@) =~= jobs_model(before).skip(1));
                    in_flight = Some(job.ticket);
                    started = started + 1;
                    res =
                    Some(
                        Transfer {
                            ticket: job.ticket,
                            address: job.address,
                            values: job.values,
                            source,
                            fee,
                        },
                    );
                },
                None => {},
            }
        }
        *self =
        TransferWorker { source, fee, readiness, waiting, in_flight, submitted, started, finished };
        res
    }

    /// Ends the transfer under way with its `result`, and says which job it
    /// was. Where no transfer is under way, nothing changes.
    pub fn complete(&mut self, result: Result<String, String>) -> (res: Option<Completion>)
        ensures
            final(self)@.valid(),
            match old(self)@.in_flight {
                Some(ticket) => final(self)@ == old(self)@.after_complete() && res == Some(
                    Completion { ticket, result },
                ),
                None => final(self)@ == old(self)@ && res is None,
            },
    {
        let mut held = TransferWorker::new(Source::Any, 0);
        core::mem::swap(self, &mut held);
        proof {
            use_type_invariant(&held);
        }
        let TransferWorker { source, fee, readiness, waiting, in_flight, submitted, started, mut finished } =
            held;
        let res = match in_flight {
            Some(ticket) => {
                finished = finished + 1;
                Some(Completion { ticket, result })
            },
            None => None,
        };
        *self =
        TransferWorker { source, fee, readiness, waiting, in_flight: None, submitted, started, finished };
        res
    }
}

/// A fresh worker is valid.
pub proof fn lemma_fresh_valid(source: Source, fee: u64)
    ensures
        WorkerModel::fresh(source, fee).valid(),
{
}

/// Taking a job, beginning a transfer and ending one each leave a valid
/// worker valid.
pub proof fn lemma_steps_valid(worker: WorkerModel, address: Seq<char>, values: Seq<ValueModel>)
    requires
        worker.valid(),
    ensures
        worker.accepts() ==> worker.after_submit(address, values).valid(),
        worker.can_begin() ==> worker.after_begin().valid(),
        worker.in_flight is Some ==> worker.after_complete().valid(),
{
}

/// At most one transfer is under way at any time, and none can begin while
/// one is: two transfers never overlap.
pub proof fn lemma_never_two_in_flight(worker: WorkerModel)
    requires
        worker.valid(),
    ensures
        worker.started - worker.finished <= 1,
        worker.in_flight is Some ==> !worker.can_begin(),
{
}

/// Once nothing waits and nothing is under way, as many transfers have
/// begun and ended as jobs were taken: each job ran, and ran once.
pub proof fn lemma_idle_ran_all(worker: WorkerModel)
    requires
        worker.valid(),
        worker.idle(),
    ensures
        worker.started == worker.submitted,
        worker.finished == worker.submitted,
{
}

/// Transfers begin in the order in which their jobs were taken: the job
/// that begins next holds the ticket that equals the number of transfers
/// begun before it, and every job that waits behind it holds a later one.
pub proof fn lemma_begins_in_ticket_order(worker: WorkerModel)
    requires
        worker.valid(),
        worker.can_begin(),
    ensures
        worker.waiting[0].ticket == worker.started,
        forall|k: int| 0 < k < worker.waiting.len() ==> (#[trigger] worker.waiting[k]).ticket
            > worker.waiting[0].ticket,
{
}

} // verus!
