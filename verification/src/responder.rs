//! The responder's work on one request: which entries of the request are
//! taken up, what is asked of the outside for each, and how the outcomes are
//! collected into the response.
//!
//! A [`Batch`] is a small state machine. It names the entry in work and the
//! question that is open for it: is the entry a well-formed address, or, once
//! it is, did the transfer to it succeed. The caller answers with an
//! [`Event`]; the batch records the outcome and moves on. A failed transfer
//! or a malformed entry never stops the batch.

use crate::response::{remaining_header, Response, ResponseModel};
use crate::text::{joined, texts_model};
use crate::value::{clone_values, values_model, Value, ValueModel};
use vstd::prelude::*;

verus! {

/// What a batch waits for.
#[derive(Clone, Copy, Debug, PartialEq, Eq, Structural)]
pub enum Phase {
    /// The entry in work has to be checked for being a well-formed address.
    Validating,
    /// The entry in work is a well-formed address; the transfer to it is due.
    Transferring,
    /// Every entry within the limit has its outcome.
    Done,
}

/// What the outside reports on the entry in work.
#[derive(Debug)]
pub enum Event {
    /// The entry is a well-formed address.
    WellFormed,
    /// The entry is no well-formed address.
    Malformed,
    /// The transfer to the entry succeeded.
    Sent,
    /// The transfer to the entry failed, with this error text.
    Failed(String),
}

/// An event as contracts see it.
pub enum EventModel {
    WellFormed,
    Malformed,
    Sent,
    Failed(Seq<char>),
}

impl View for Event {
    type V = EventModel;

    open spec fn view(&self) -> EventModel {
        match self {
            Event::WellFormed => EventModel::WellFormed,
            Event::Malformed => EventModel::Malformed,
            Event::Sent => EventModel::Sent,
            Event::Failed(error) => EventModel::Failed(error@),
        }
    }
}

/// An event came that the batch does not wait for; the batch is unchanged.
#[derive(Clone, Copy, Debug, PartialEq, Eq, Structural)]
pub struct Unexpected {
    /// The phase the batch was and is in.
    pub phase: Phase,
}

/// A batch as contracts see it.
pub struct BatchModel {
    /// The raw entries of the request, in the order given.
    pub addresses: Seq<Seq<char>>,
    /// The largest number of entries that one request may have taken up.
    pub limit: nat,
    /// The values sent to each address.
    pub values: Seq<ValueModel>,
    pub phase: Phase,
    pub succeeded: Seq<(Seq<char>, Seq<ValueModel>)>,
    pub failed: Seq<(Seq<char>, Seq<char>)>,
    pub unparsed: Seq<Seq<char>>,
}

impl BatchModel {
    /// The number of entries that are taken up in all: the first `limit`, or
    /// all of them if there are fewer.
    pub open spec fn quota(self) -> nat {
        if self.addresses.len() <= self.limit {
            self.addresses.len()
        } else {
            self.limit
        }
    }

    /// The number of entries that have their outcome.
    pub open spec fn processed(self) -> nat {
        self.succeeded.len() + self.failed.len() + self.unparsed.len()
    }

    /// No more entries have an outcome than are taken up, and the batch is
    /// done exactly when all of those have one.
    pub open spec fn valid(self) -> bool {
        &&& self.processed() <= self.quota()
        &&& self.phase == Phase::Done <==> self.processed() == self.quota()
    }

    /// The entry in work.
    pub open spec fn current(self) -> Seq<char>
        recommends
            self.processed() < self.addresses.len(),
    {
        self.addresses[self.processed() as int]
    }

    /// A batch that has taken up nothing yet.
    pub open spec fn start(
        addresses: Seq<Seq<char>>,
        limit: nat,
        values: Seq<ValueModel>,
    ) -> BatchModel {
        BatchModel {
            addresses,
            limit,
            values,
            phase: if addresses.len() == 0 || limit == 0 {
                Phase::Done
            } else {
                Phase::Validating
            },
            succeeded: Seq::empty(),
            failed: Seq::empty(),
            unparsed: Seq::empty(),
        }
    }

    /// The phase after the entry in work got its outcome: the next entry is
    /// checked, unless the quota is used up.
    pub open spec fn phase_after_outcome(self) -> Phase {
        if self.processed() + 1 < self.quota() {
            Phase::Validating
        } else {
            Phase::Done
        }
    }

    /// The batch after `event`, or `None` where the batch does not wait for
    /// such an event.
    pub open spec fn step(self, event: EventModel) -> Option<BatchModel> {
        match (self.phase, event) {
            (Phase::Validating, EventModel::WellFormed) => Some(
                BatchModel { phase: Phase::Transferring, ..self },
            ),
            (Phase::Validating, EventModel::Malformed) => Some(
                BatchModel {
                    phase: self.phase_after_outcome(),
                    unparsed: self.unparsed.push(self.current()),
                    ..self
                },
            ),
            (Phase::Transferring, EventModel::Sent) => Some(
                BatchModel {
                    phase: self.phase_after_outcome(),
                    succeeded: self.succeeded.push((self.current(), self.values)),
                    ..self
                },
            ),
            (Phase::Transferring, EventModel::Failed(error)) => Some(
                BatchModel {
                    phase: self.phase_after_outcome(),
                    failed: self.failed.push((self.current(), error)),
                    ..self
                },
            ),
            _ => None,
        }
    }

    /// The response of a batch: the three lists of outcomes, and as
    /// remaining every entry beyond the quota.
    pub open spec fn response(self) -> ResponseModel {
        ResponseModel {
            succeeded: self.succeeded,
            failed: self.failed,
            unparsed: self.unparsed,
            remaining: self.addresses.skip(self.quota() as int),
        }
    }
}

/// Every batch starts out valid.
pub proof fn lemma_start_valid(addresses: Seq<Seq<char>>, limit: nat, values: Seq<ValueModel>)
    ensures
        BatchModel::start(addresses, limit, values).valid(),
{
}

/// An event that a valid batch waits for leaves it valid, with the same
/// entries, limit and values, and with the lists of outcomes only grown at
/// their ends: by one entry in one list, or not at all.
pub proof fn lemma_step_valid(batch: BatchModel, event: EventModel)
    requires
        batch.valid(),
        batch.step(event) is Some,
    ensures
        batch.step(event).unwrap().valid(),
        batch.step(event).unwrap().addresses == batch.addresses,
        batch.step(event).unwrap().limit == batch.limit,
        batch.step(event).unwrap().values == batch.values,
        batch.step(event).unwrap().processed() == batch.processed() + (if event
            == EventModel::WellFormed {
            0nat
        } else {
            1nat
        }),
{
}

/// Of a request with more entries than the limit, a finished batch has taken
/// up as many entries as the limit allows, split over succeeded, failed and
/// unparsed, and the rest remains, in the order given. Of a request within
/// the limit every entry is taken up and nothing remains.
pub proof fn lemma_done_takes_quota(batch: BatchModel)
    requires
        batch.valid(),
        batch.phase == Phase::Done,
    ensures
        batch.addresses.len() > batch.limit ==> {
            &&& batch.response().processed() == batch.limit
            &&& batch.response().remaining.len() == batch.addresses.len() - batch.limit
            &&& batch.response().remaining == batch.addresses.skip(batch.limit as int)
        },
        batch.addresses.len() <= batch.limit ==> {
            &&& batch.response().processed() == batch.addresses.len()
            &&& batch.response().remaining.len() == 0
        },
{
}

/// Where a finished batch left entries out, the summary of its response
/// names the limit in the heading of the addresses that remain.
pub proof fn lemma_summary_names_limit(batch: BatchModel)
    requires
        batch.valid(),
        batch.phase == Phase::Done,
        batch.response().remaining.len() > 0,
    ensures
        batch.response().remaining_section() == remaining_header(batch.limit) + joined(
            batch.response().remaining_lines(),
        ),
{
}

/// At every moment no more entries have an outcome than the limit allows.
pub proof fn lemma_processed_within_limit(batch: BatchModel)
    requires
        batch.valid(),
    ensures
        batch.processed() <= batch.limit,
        batch.processed() <= batch.addresses.len(),
{
}

/// The work on one request.
#[derive(Debug)]
pub struct Batch {
    addresses: Vec<String>,
    limit: usize,
    values: Vec<Value>,
    phase: Phase,
    succeeded: Vec<(String, Vec<Value>)>,
    failed: Vec<(String, String)>,
    unparsed: Vec<String>,
}

impl View for Batch {
    type V = BatchModel;

    closed spec fn view(&self) -> BatchModel {
        BatchModel {
            addresses: texts_model(self.addresses@),
            limit: self.limit as nat,
            values: values_model(self.values@),
            phase: self.phase,
            succeeded: Seq::new(
                self.succeeded@.len(),
                |i: int| (self.succeeded@[i].0@, values_model(self.succeeded@[i].1@)),
            ),
            failed: Seq::new(
                self.failed@.len(),
                |i: int| (self.failed@[i].0@, self.failed@[i].1@),
            ),
            unparsed: texts_model(self.unparsed@),
        }
    }
}

impl Batch {
    #[verifier::type_invariant]
    spec fn well_formed(self) -> bool {
        self@.valid()
    }

    /// Starts the work on a request with the raw entries `addresses`, of
    /// which at most `limit` are taken up, each well-formed one being sent
    /// `values`.
    pub fn new(addresses: Vec<String>, limit: usize, values: Vec<Value>) -> (batch: Batch)
        ensures
            batch@ == BatchModel::start(texts_model(addresses@), limit as nat, values_model(values@)),
            batch@.valid(),
    {
        let phase = if addresses.len() == 0 || limit == 0 {
            Phase::Done
        } else {
            Phase::Validating
        };
        let batch = Batch {
            addresses,
            limit,
            values,
            phase,
            succeeded: Vec::new(),
            failed: Vec::new(),
            unparsed: Vec::new(),
        };
        proof {
            let model = BatchModel::start(
                texts_model(addresses@),
                limit as nat,
                values_model(values@),
            );
            assert(batch@.succeeded =~= model.succeeded);
            assert(batch@.failed =~= model.failed);
            assert(batch@.unparsed =~= model.unparsed);
        }
        batch
    }

    /// What the batch waits for.
    pub fn phase(&self) -> (phase: Phase)
        ensures
            phase == self@.phase,
            self@.valid(),
    {
        proof {
            use_type_invariant(self);
        }
        self.phase
    }

    /// The entry in work, or `None` when the batch is done.
    pub fn current(&self) -> (entry: Option<&String>)
        ensures
            self@.valid(),
            self@.phase == Phase::Done <==> entry is None,
            entry matches Some(text) ==> text@ == self@.current(),
    {
        proof {
            use_type_invariant(self);
        }
        match self.phase {
            Phase::Done => None,
            _ => {
                let at = self.succeeded.len() + self.failed.len() + self.unparsed.len();
                Some(&self.addresses[at])
            },
        }
    }

    /// Records what the outside reports on the entry in work and moves on.
    ///
    /// While the entry is being checked, `WellFormed` makes the transfer due
    /// and `Malformed` files the entry as unparsed. While the transfer is
    /// due, `Sent` files the entry as succeeded, with the values, and
    /// `Failed` files it as failed, with the error. After an outcome the next
    /// entry within the limit is checked, whatever the outcome was. Any other
    /// event is refused and changes nothing.
    pub fn step(&mut self, event: Event) -> (res: Result<Phase, Unexpected>)
        ensures
            final(self)@.valid(),
            match old(self)@.step(event@) {
                Some(next) => final(self)@ == next && res == Ok::<Phase, Unexpected>(next.phase),
                None => final(self)@ == old(self)@ && res == Err::<Phase, Unexpected>(
                    Unexpected { phase: old(self)@.phase },
                ),
            },
    {
        let mut held = Batch::new(Vec::new(), 0, Vec::new());
        core::mem::swap(self, &mut held);
        let (next, res) = held.advance(event);
        *self = next;
        res
    }

    fn advance(self, event: Event) -> (out: (Batch, Result<Phase, Unexpected>))
        ensures
            out.0@.valid(),
            match self@.step(event@) {
                Some(next) => out.0@ == next && out.1 == Ok::<Phase, Unexpected>(next.phase),
                None => out.0@ == self@ && out.1 == Err::<Phase, Unexpected>(
                    Unexpected { phase: self@.phase },
                ),
            },
    {
        proof {
            use_type_invariant(&self);
        }
        let Batch { addresses, limit, values, phase, mut succeeded, mut failed, mut unparsed } =
            self;
        let at = succeeded.len() + failed.len() + unparsed.len();
        let quota = if addresses.len() <= limit {
            addresses.len()
        } else {
            limit
        };
        let after = if quota - at > 1 {
            Phase::Validating
        } else {
            Phase::Done
        };
        let mut next = phase;
        let res = match (phase, event) {
            (Phase::Validating, Event::WellFormed) => {
                next = Phase::Transferring;
                Ok(Phase::Transferring)
            },
            (Phase::Validating, Event::Malformed) => {
                unparsed.push(addresses[at].clone());
                next = after;
                Ok(after)
            },
            (Phase::Transferring, Event::Sent) => {
                succeeded.push((addresses[at].clone(), clone_values(&values)));
                next = after;
                Ok(after)
            },
            (Phase::Transferring, Event::Failed(error)) => {
                failed.push((addresses[at].clone(), error));
                next = after;
                Ok(after)
            },
            _ => Err(Unexpected { phase }),
        };
        let batch = Batch { addresses, limit, values, phase: next, succeeded, failed, unparsed };
        proof {
            match self@.step(event@) {
                Some(model) => {
                    assert(batch@.succeeded =~= model.succeeded);
                    assert(batch@.failed =~= model.failed);
                    assert(batch@.unparsed =~= model.unparsed);
                },
                None => {
                    assert(batch@.succeeded =~= self@.succeeded);
                    assert(batch@.failed =~= self@.failed);
                    assert(batch@.unparsed =~= self@.unparsed);
                },
            }
        }
        (batch, res)
    }

    /// Hands out the response once the batch is done; until then the batch
    /// comes back unchanged.
    pub fn finish(self) -> (res: Result<Response, Batch>)
        ensures
            self@.valid(),
            match res {
                Ok(response) => self@.phase == Phase::Done && response@ == self@.response(),
                Err(batch) => self@.phase != Phase::Done && batch@ == self@,
            },
    {
        proof {
            use_type_invariant(&self);
        }
        match self.phase {
            Phase::Done => {
                let quota = if self.addresses.len() <= self.limit {
                    self.addresses.len()
                } else {
                    self.limit
                };
                let mut remaining: Vec<String> = Vec::new();
                let mut i: usize = quota;
                while i < self.addresses.len()
                    invariant
                        quota <= i <= self.addresses@.len(),
                        remaining@.len() == i - quota,
                        forall|j: int|
                            0 <= j < remaining@.len() ==> (#[trigger] remaining@[j])@
                                == self.addresses@[quota + j]@,
                    decreases self.addresses.len() - i,
                {
                    remaining.push(self.addresses[i].clone());
                    i += 1;
                }
                let response = Response {
                    succeeded: self.succeeded,
                    failed: self.failed,
                    unparsed: self.unparsed,
                    remaining,
                };
                assert(response@.remaining =~= self@.response().remaining);
                assert(response@ =~= self@.response());
                Ok(response)
            },
            _ => Err(self),
        }
    }
}

} // verus!
