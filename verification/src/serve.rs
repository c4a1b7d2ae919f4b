//! The settings of the service, and what is set up from them before the
//! first request is served.

use crate::catchup::{Catchup, CatchupModel};
use crate::limiter::{RateLimitEntry, RateLimiter};
use crate::value::{all_positive, validate_values, Value, ValuesError};
use crate::worker::{Source, TransferWorker, WorkerModel};
use vstd::prelude::*;

verus! {

/// A place in the history of a channel from which to catch up.
#[derive(Clone, Copy, Debug, PartialEq, Eq, Structural)]
pub struct ChannelIdAndMessageId {
    pub channel_id: u64,
    pub message_id: u64,
}

/// The settings of the service.
#[derive(Debug)]
pub struct Serve {
    /// The fee paid for each transfer.
    pub fee: u64,
    /// The length of the per-user rate-limit window, in nanoseconds.
    pub rate_limit: u128,
    /// The largest number of notices to one user in one window.
    pub reply_limit: usize,
    /// The largest number of addresses served per message.
    pub max_addresses: usize,
    /// The directory for the service's data; `None` for the platform's own.
    pub data_dir: Option<String>,
    /// The address of the node to talk to.
    pub node: String,
    /// The account that pays; `None` to pay from whatever funds there are.
    pub source_address: Option<u32>,
    /// The places from which to catch up on unanswered requests.
    pub catch_up: Vec<ChannelIdAndMessageId>,
    /// The number of messages in one page of history.
    pub catch_up_batch_size: usize,
    /// The amounts sent to each address.
    pub values: Vec<Value>,
}

/// Everything that serves requests, set up and at rest.
#[derive(Debug)]
pub struct Service {
    /// The limiter, which has seen no request.
    pub limiter: RateLimiter,
    /// The transfer worker, which waits for the synchronization.
    pub worker: TransferWorker,
    /// One catch-up worker for each place given, in the order given.
    pub catch_ups: Vec<Catchup>,
    /// The largest number of addresses served per message.
    pub max_addresses: usize,
    /// The amounts sent to each address.
    pub values: Vec<Value>,
    /// The fee paid for each transfer.
    pub fee: u64,
}

/// The source that a configured account stands for.
pub open spec fn source_of(account: Option<u32>) -> Source {
    match account {
        Some(index) => Source::Index(index),
        None => Source::Any,
    }
}

/// The models of `workers`, in their order.
pub open spec fn catch_ups_model(workers: Seq<Catchup>) -> Seq<CatchupModel> {
    Seq::new(workers.len(), |i: int| workers[i]@)
}

/// The catch-up workers that are set up for `targets` with pages of
/// `batch_size` messages.
pub open spec fn catch_ups_for(
    targets: Seq<ChannelIdAndMessageId>,
    batch_size: usize,
) -> Seq<CatchupModel> {
    Seq::new(
        targets.len(),
        |i: int| CatchupModel::start(targets[i].channel_id, batch_size, targets[i].message_id),
    )
}

impl Serve {
    /// Sets the service up.
    ///
    /// The values are checked first, and nothing is set up unless they can
    /// be dispensed. Then the limiter starts empty with the configured
    /// window and limit of notices, the transfer worker starts
    /// unsynchronized with the configured source and fee, and one catch-up worker
    /// starts for each place to catch up from.
    pub fn exec(self) -> (res: Result<Service, ValuesError>)
        ensures
            match validate_outcome(self.values@) {
                Err(error) => res == Err::<Service, ValuesError>(error),
                Ok(_) => res matches Ok(service) && {
                    &&& service.limiter@.window == self.rate_limit
                    &&& service.limiter@.reply_limit == self.reply_limit
                    &&& service.limiter@.entries == Map::<u64, RateLimitEntry>::empty()
                    &&& service.limiter@.valid()
                    &&& service.worker@ == WorkerModel::fresh(source_of(self.source_address), self.fee)
                    &&& service.worker@.valid()
                    &&& catch_ups_model(service.catch_ups@) == catch_ups_for(
                        self.catch_up@,
                        self.catch_up_batch_size,
                    )
                    &&& service.max_addresses == self.max_addresses
                    &&& service.values == self.values
                    &&& service.fee == self.fee
                },
            },
    {
        match validate_values(&self.values) {
            Err(error) => {
                return Err(error);
            },
            Ok(_) => {},
        }
        let source = match self.source_address {
            Some(index) => Source::Index(index),
            None => Source::Any,
        };
        let mut catch_ups: Vec<Catchup> = Vec::new();
        let mut i: usize = 0;
        while i < self.catch_up.len()
            invariant
                i <= self.catch_up.len(),
                catch_ups@.len() == i,
                forall|j: int|
                    0 <= j < i ==> (#[trigger] catch_ups@[j])@ == CatchupModel::start(
                        self.catch_up@[j].channel_id,
                        self.catch_up_batch_size,
                        self.catch_up@[j].message_id,
                    ),
            decreases self.catch_up.len() - i,
        {
            let target = self.catch_up[i];
            catch_ups.push(
                Catchup::new(target.channel_id, self.catch_up_batch_size, target.message_id),
            );
            i += 1;
        }
        assert(catch_ups_model(catch_ups@) =~= catch_ups_for(
            self.catch_up@,
            self.catch_up_batch_size,
        ));
        Ok(
            Service {
                limiter: RateLimiter::new(self.rate_limit, self.reply_limit),
                worker: TransferWorker::new(source, self.fee),
                catch_ups,
                max_addresses: self.max_addresses,
                values: self.values,
                fee: self.fee,
            },
        )
    }
}

/// What the check of `values` comes to.
pub open spec fn validate_outcome(values: Seq<Value>) -> Result<(), ValuesError> {
    if values.len() == 0 {
        Err(ValuesError::Empty)
    } else if !all_positive(values) {
        Err(ValuesError::ZeroAmount)
    } else {
        Ok(())
    }
}

} // verus!
