//! What becomes of a message that arrives while the service runs.

use crate::limiter::{Decision, RateLimiter};
use crate::request::{DispenseRequest, Origin, ReplyTarget, RequestModel};
use crate::text::texts_model;
use vstd::prelude::*;

verus! {

/// A message that arrived: who wrote it, where it stands, and the raw
/// entries in it that may be addresses, in their order.
#[derive(Debug)]
pub struct Incoming {
    pub author_id: u64,
    pub channel_id: u64,
    pub message_id: u64,
    pub addresses: Vec<String>,
}

/// What is done about a message.
#[derive(Debug)]
pub enum Reaction {
    /// The message is a request that was admitted: it goes into the queue.
    Enqueue(DispenseRequest),
    /// The request was turned away, and its author is told to wait.
    Notify,
    /// Nothing is done, and nothing is said.
    Ignore,
}

/// The request that a message with the given fields becomes.
pub open spec fn live_request(
    author_id: u64,
    channel_id: u64,
    message_id: u64,
    addresses: Seq<Seq<char>>,
) -> RequestModel {
    RequestModel {
        requester_id: author_id,
        reply_target: ReplyTarget { channel_id, message_id },
        addresses,
        origin: Origin::Live,
    }
}

/// Decides what to do about `message`, which arrived at the moment `now`.
///
/// A message that holds no entry is no request: it is ignored and the
/// limiter does not hear of it. Any other message is put before the limiter.
/// Allowed, it becomes a request for the queue; denied, its author is
/// notified or passed over in silence, as the limiter says.
pub fn receive(limiter: &mut RateLimiter, message: Incoming, now: u128) -> (reaction: Reaction)
    ensures
        message.addresses@.len() == 0 ==> reaction is Ignore && final(limiter)@ == old(limiter)@,
        message.addresses@.len() > 0 ==> {
            &&& final(limiter)@ == old(limiter)@.after(message.author_id, now)
            &&& match old(limiter)@.decide(message.author_id, now) {
                Decision::Allow => reaction matches Reaction::Enqueue(request) && request@
                    == live_request(
                    message.author_id,
                    message.channel_id,
                    message.message_id,
                    texts_model(message.addresses@),
                ),
                Decision::Deny { notify: true } => reaction is Notify,
                Decision::Deny { notify: false } => reaction is Ignore,
            }
        },
{
    if message.addresses.len() == 0 {
        return Reaction::Ignore;
    }
    match limiter.check(message.author_id, now) {
        Decision::Allow => Reaction::Enqueue(
            DispenseRequest {
                requester_id: message.author_id,
                reply_target: ReplyTarget {
                    channel_id: message.channel_id,
                    message_id: message.message_id,
                },
                addresses: message.addresses,
                origin: Origin::Live,
            },
        ),
        Decision::Deny { notify } => if notify {
            Reaction::Notify
        } else {
            Reaction::Ignore
        },
    }
}

} // verus!
