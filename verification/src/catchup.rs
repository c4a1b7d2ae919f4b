//! Catching up on the history of a channel: which page to read next, which
//! of its messages become requests, and when the backlog is exhausted.
//!
//! A [`Catchup`] owns a cursor into one channel. The caller reads the page
//! that the worker asks for and hands it over; the worker answers with the
//! requests to put into the queue and moves its cursor.

use crate::request::{DispenseRequest, Origin, ReplyTarget, RequestModel};
use crate::text::{clone_texts, texts_model};
use vstd::prelude::*;

verus! {

/// A message of the history, as far as catching up needs it.
#[derive(Debug)]
pub struct HistoryMessage {
    pub id: u64,
    pub author_id: u64,
    /// The raw entries of the message that may be addresses, in their order.
    pub addresses: Vec<String>,
    /// The message has been answered already.
    pub answered: bool,
}

/// A message of the history as contracts see it.
pub struct MessageModel {
    pub id: u64,
    pub author_id: u64,
    pub addresses: Seq<Seq<char>>,
    pub answered: bool,
}

impl View for HistoryMessage {
    type V = MessageModel;

    open spec fn view(&self) -> MessageModel {
        MessageModel {
            id: self.id,
            author_id: self.author_id,
            addresses: texts_model(self.addresses@),
            answered: self.answered,
        }
    }
}

/// The models of `page`, in their order.
pub open spec fn page_model(page: Seq<HistoryMessage>) -> Seq<MessageModel> {
    Seq::new(page.len(), |i: int| page[i]@)
}

/// The models of `requests`, in their order.
pub open spec fn requests_model(requests: Seq<DispenseRequest>) -> Seq<RequestModel> {
    Seq::new(requests.len(), |i: int| requests[i]@)
}

/// Where a worker stands in its channel.
#[derive(Clone, Copy, Debug, PartialEq, Eq, Structural)]
pub struct CatchupCursor {
    /// The channel whose history is read.
    pub target_id: u64,
    /// The position up to which the history has been read.
    pub last_seen: u64,
    /// The largest number of messages in one page.
    pub batch_size: usize,
}

/// The page that the worker wants to read next.
#[derive(Clone, Copy, Debug, PartialEq, Eq, Structural)]
pub struct Fetch {
    pub channel_id: u64,
    /// The position at which the page starts.
    pub from: u64,
    /// Whether the message at `from` itself belongs to the page, or only
    /// those after it.
    pub inclusive: bool,
    /// The largest number of messages to read.
    pub limit: usize,
}

/// A worker as contracts see it.
pub struct CatchupModel {
    pub cursor: CatchupCursor,
    /// No page has been handed over yet: the message at the cursor is still
    /// to be read.
    pub inclusive: bool,
    /// The backlog is exhausted.
    pub exhausted: bool,
}

/// The larger of two positions.
pub open spec fn later(a: u64, b: u64) -> u64 {
    if a >= b {
        a
    } else {
        b
    }
}

/// The latest position of any message in `page`, and 0 for an empty page.
pub open spec fn latest(page: Seq<MessageModel>) -> u64
    decreases page.len(),
{
    if page.len() == 0 {
        0
    } else {
        later(latest(page.drop_last()), page.last().id)
    }
}

impl CatchupModel {
    /// A worker that is to read `channel_id` from the message
    /// `start_message_id` on, that message included.
    pub open spec fn start(channel_id: u64, batch_size: usize, start_message_id: u64) -> CatchupModel {
        CatchupModel {
            cursor: CatchupCursor {
                target_id: channel_id,
                last_seen: start_message_id,
                batch_size,
            },
            inclusive: true,
            exhausted: false,
        }
    }

    /// The message at position `id` has not been read yet.
    pub open spec fn is_fresh(self, id: u64) -> bool {
        if self.inclusive {
            id >= self.cursor.last_seen
        } else {
            id > self.cursor.last_seen
        }
    }

    /// `message` becomes a request: it has not been read yet, it has not
    /// been answered, and it asks for at least one address.
    pub open spec fn eligible(self, message: MessageModel) -> bool {
        self.is_fresh(message.id) && !message.answered && message.addresses.len() > 0
    }

    /// The request that `message` becomes.
    pub open spec fn request_for(self, message: MessageModel) -> RequestModel {
        RequestModel {
            requester_id: message.author_id,
            reply_target: ReplyTarget {
                channel_id: self.cursor.target_id,
                message_id: message.id,
            },
            addresses: message.addresses,
            origin: Origin::Backlog,
        }
    }

    /// The requests that `page` gives rise to, in the order of the page.
    pub open spec fn requests(self, page: Seq<MessageModel>) -> Seq<RequestModel>
        decreases page.len(),
    {
        if self.exhausted || page.len() == 0 {
            Seq::empty()
        } else if self.eligible(page.last()) {
            self.requests(page.drop_last()).push(self.request_for(page.last()))
        } else {
            self.requests(page.drop_last())
        }
    }

    /// Some message of `page` has not been read yet.
    pub open spec fn any_fresh(self, page: Seq<MessageModel>) -> bool {
        exists|i: int| 0 <= i < page.len() && self.is_fresh(#[trigger] page[i].id)
    }

    /// The worker after `page` was handed over: the cursor stands at the
    /// latest position seen so far, and the backlog is exhausted if the page
    /// held nothing new.
    pub open spec fn after(self, page: Seq<MessageModel>) -> CatchupModel {
        if self.exhausted {
            self
        } else {
            CatchupModel {
                cursor: CatchupCursor {
                    last_seen: later(self.cursor.last_seen, latest(page)),
                    ..self.cursor
                },
                inclusive: false,
                exhausted: !self.any_fresh(page),
            }
        }
    }
}

/// The latest position of a page is no earlier than any of its messages.
pub proof fn lemma_latest_bounds(page: Seq<MessageModel>, i: int)
    requires
        0 <= i < page.len(),
    ensures
        page[i].id <= latest(page),
    decreases page.len(),
{
    if i < page.len() - 1 {
        lemma_latest_bounds(page.drop_last(), i);
    }
}

/// Every request that a page gives rise to answers a message of that page
/// which was fresh, unanswered and asked for something: a message that has
/// been answered never becomes a request.
pub proof fn lemma_requests_come_from_eligible(
    worker: CatchupModel,
    page: Seq<MessageModel>,
    k: int,
)
    requires
        0 <= k < worker.requests(page).len(),
    ensures
        exists|i: int|
            0 <= i < page.len() && worker.eligible(#[trigger] page[i]) && worker.requests(page)[k]
                == worker.request_for(page[i]),
    decreases page.len(),
{
    if worker.eligible(page.last()) && k == worker.requests(page).len() - 1 {
        assert(worker.eligible(page[page.len() - 1]));
    } else {
        lemma_requests_come_from_eligible(worker, page.drop_last(), k);
        let i = choose|i: int|
            0 <= i < page.drop_last().len() && worker.eligible(#[trigger] page.drop_last()[i])
                && worker.requests(page.drop_last())[k] == worker.request_for(page.drop_last()[i]);
        assert(page.drop_last()[i] == page[i]);
    }
}

/// A page of messages that have all been answered gives no request.
pub proof fn lemma_answered_page_gives_nothing(worker: CatchupModel, page: Seq<MessageModel>)
    requires
        forall|i: int| 0 <= i < page.len() ==> (#[trigger] page[i]).answered,
    ensures
        worker.requests(page).len() == 0,
    decreases page.len(),
{
    if page.len() > 0 {
        assert(page.last().answered);
        assert forall|i: int| 0 <= i < page.drop_last().len() implies (#[trigger] page.drop_last()[i]).answered by {
            assert(page.drop_last()[i] == page[i]);
        }
        lemma_answered_page_gives_nothing(worker, page.drop_last());
    }
}

/// The cursor never moves back.
pub proof fn lemma_cursor_monotone(worker: CatchupModel, page: Seq<MessageModel>)
    ensures
        worker.after(page).cursor.last_seen >= worker.cursor.last_seen,
        worker.after(page).cursor.target_id == worker.cursor.target_id,
        worker.after(page).cursor.batch_size == worker.cursor.batch_size,
{
}

/// A message that was handed over in one page gives no request when it
/// comes again in a later page: no message is taken up twice.
pub proof fn lemma_no_replay(
    worker: CatchupModel,
    first: Seq<MessageModel>,
    second: Seq<MessageModel>,
    i: int,
)
    requires
        0 <= i < first.len(),
    ensures
        forall|k: int|
            0 <= k < worker.after(first).requests(second).len() ==> (#[trigger] worker.after(
                first,
            ).requests(second)[k]).reply_target.message_id != first[i].id,
{
    let next = worker.after(first);
    lemma_latest_bounds(first, i);
    assert forall|k: int| 0 <= k < next.requests(second).len() implies (#[trigger] next.requests(
        second,
    )[k]).reply_target.message_id != first[i].id by {
        lemma_requests_come_from_eligible(next, second, k);
    }
}

/// The worker that catches up on one channel.
#[derive(Debug)]
pub struct Catchup {
    cursor: CatchupCursor,
    inclusive: bool,
    exhausted: bool,
}

impl View for Catchup {
    type V = CatchupModel;

    closed spec fn view(&self) -> CatchupModel {
        CatchupModel { cursor: self.cursor, inclusive: self.inclusive, exhausted: self.exhausted }
    }
}

impl Catchup {
    /// A worker that reads the history of `channel_id` in pages of at most
    /// `batch_size` messages, from the message `start_message_id` on, that
    /// message included.
    pub fn new(channel_id: u64, batch_size: usize, start_message_id: u64) -> (worker: Catchup)
        ensures
            worker@ == CatchupModel::start(channel_id, batch_size, start_message_id),
    {
        Catchup {
            cursor: CatchupCursor {
                target_id: channel_id,
                last_seen: start_message_id,
                batch_size,
            },
            inclusive: true,
            exhausted: false,
        }
    }

    /// Where the worker stands.
    pub fn cursor(&self) -> (cursor: CatchupCursor)
        ensures
            cursor == self@.cursor,
    {
        self.cursor
    }

    /// Whether the backlog is exhausted.
    pub fn is_exhausted(&self) -> (exhausted: bool)
        ensures
            exhausted == self@.exhausted,
    {
        self.exhausted
    }

    /// The page to read next, or `None` once the backlog is exhausted.
    pub fn next_fetch(&self) -> (fetch: Option<Fetch>)
        ensures
            fetch == if self@.exhausted {
                None
            } else {
                Some(
                    Fetch {
                        channel_id: self@.cursor.target_id,
                        from: self@.cursor.last_seen,
                        inclusive: self@.inclusive,
                        limit: self@.cursor.batch_size,
                    },
                )
            },
    {
        if self.exhausted {
            None
        } else {
            Some(
                Fetch {
                    channel_id: self.cursor.target_id,
                    from: self.cursor.last_seen,
                    inclusive: self.inclusive,
                    limit: self.cursor.batch_size,
                },
            )
        }
    }

    /// Takes the page that was read and answers with the requests to put
    /// into the queue, in the order of the page: one for each message that
    /// has not been read before, has not been answered and asks for at least
    /// one address. The cursor moves to the latest position seen; a page
    /// without anything new exhausts the backlog.
    pub fn consume(&mut self, page: &Vec<HistoryMessage>) -> (requests: Vec<DispenseRequest>)
        ensures
            final(self)@ == old(self)@.after(page_model(page@)),
            requests_model(requests@) == old(self)@.requests(page_model(page@)),
    {
        let mut requests: Vec<DispenseRequest> = Vec::new();
        if self.exhausted {
            assert(requests_model(requests@) =~= old(self)@.requests(page_model(page@)));
            return requests;
        }
        let ghost model = page_model(page@);
        let mut latest_seen: u64 = 0;
        let mut any_fresh = false;
        let mut i: usize = 0;
        while i < page.len()
            invariant
                i <= page.len(),
                model == page_model(page@),
                *self == *old(self),
                !self.exhausted,
                latest_seen == latest(model.take(i as int)),
                any_fresh == self@.any_fresh(model.take(i as int)),
                requests_model(requests@) == self@.requests(model.take(i as int)),
            decreases page.len() - i,
        {
            let message = &page[i];
            let fresh = if self.inclusive {
                message.id >= self.cursor.last_seen
            } else {
                message.id > self.cursor.last_seen
            };
            proof {
                let before = model.take(i as int);
                let now = model.take(i + 1);
                assert(now.drop_last() =~= before);
                assert(now.last() == message@);
                if self@.any_fresh(before) {
                    let w = choose|w: int|
                        0 <= w < before.len() && self@.is_fresh(#[trigger] before[w].id);
                    assert(now[w] == before[w]);
                }
                if fresh {
                    assert(self@.is_fresh(now[i as int].id));
                }
                if self@.any_fresh(now) && !fresh {
                    let w = choose|w: int| 0 <= w < now.len() && self@.is_fresh(#[trigger] now[w].id);
                    assert(before[w] == now[w]);
                }
            }
            if fresh {
                any_fresh = true;
            }
            if message.id > latest_seen {
                latest_seen = message.id;
            }
            if fresh && !message.answered && message.addresses.len() > 0 {
                let ghost earlier = requests_model(requests@);
                let request = DispenseRequest {
                    requester_id: message.author_id,
                    reply_target: ReplyTarget {
                        channel_id: self.cursor.target_id,
                        message_id: message.id,
                    },
                    addresses: clone_texts(&message.addresses),
                    origin: Origin::Backlog,
                };
                requests.push(request);
                assert(requests_model(requests@) =~= earlier.push(self@.request_for(message@)));
            }
            i += 1;
        }
        assert(model.take(page.len() as int) =~= model);
        if latest_seen > self.cursor.last_seen {
            self.cursor.last_seen = latest_seen;
        }
        self.inclusive = false;
        self.exhausted = !any_fresh;
        requests
    }
}

} // verus!
