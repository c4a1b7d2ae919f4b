//! One ask for funds, as it travels from a message to the responder.

use crate::text::texts_model;
use vstd::prelude::*;

verus! {

/// Where a request came from.
#[derive(Clone, Copy, Debug, PartialEq, Eq, Structural)]
pub enum Origin {
    /// A message that arrived while the service was running.
    Live,
    /// A message found in the history of a channel.
    Backlog,
}

/// The message that a response is a reply to.
#[derive(Clone, Copy, Debug, PartialEq, Eq, Structural)]
pub struct ReplyTarget {
    pub channel_id: u64,
    pub message_id: u64,
}

/// One user's ask: who asks, where the answer goes, and the raw entries that
/// may be addresses, in the order in which the message held them.
#[derive(Debug)]
pub struct DispenseRequest {
    pub requester_id: u64,
    pub reply_target: ReplyTarget,
    pub addresses: Vec<String>,
    pub origin: Origin,
}

/// A request as contracts see it.
pub struct RequestModel {
    pub requester_id: u64,
    pub reply_target: ReplyTarget,
    pub addresses: Seq<Seq<char>>,
    pub origin: Origin,
}

impl View for DispenseRequest {
    type V = RequestModel;

    open spec fn view(&self) -> RequestModel {
        RequestModel {
            requester_id: self.requester_id,
            reply_target: self.reply_target,
            addresses: texts_model(self.addresses@),
            origin: self.origin,
        }
    }
}

} // verus!
