//! Admission control: at most one admitted request per user and window, and
//! a bounded number of notices to a user who asks again too early.
//!
//! Time is a number of nanoseconds since an origin of the caller's choice.
//! The limiter never reads a clock; the caller passes the moment of each
//! request.

use std::collections::HashMap;
use vstd::prelude::*;

verus! {

broadcast use vstd::std_specs::hash::group_hash_axioms;

/// What the limiter says of one request.
#[derive(Clone, Copy, Debug, PartialEq, Eq, Structural)]
pub enum Decision {
    /// The request is admitted; it opens a window for its user.
    Allow,
    /// The request is turned away. With `notify` the user is told to wait;
    /// without it the request gets no reply at all.
    Deny { notify: bool },
}

/// What the limiter remembers of one user.
#[derive(Clone, Copy, Debug, PartialEq, Eq, Structural)]
pub struct RateLimitEntry {
    /// The moment of the request that opened the current window.
    pub window_start: u128,
    /// The requests seen in the current window, the opening one included;
    /// the count stops at the largest `u64`.
    pub requests: u64,
    /// The notices sent in the current window.
    pub notices: usize,
}

impl RateLimitEntry {
    /// The window that this entry opened is over at the moment `now`, the
    /// window being `window` long.
    pub open spec fn expired(self, window: nat, now: u128) -> bool {
        now >= self.window_start + window
    }
}

/// A limiter as contracts see it.
pub struct LimiterModel {
    /// The length of a window.
    pub window: nat,
    /// The largest number of notices to one user in one window.
    pub reply_limit: usize,
    /// The entry of each user who has asked so far.
    pub entries: Map<u64, RateLimitEntry>,
}

/// One request as the limiter sees it: who asks, and when.
pub struct Arrival {
    pub user: u64,
    pub at: u128,
}

impl LimiterModel {
    /// No user has been sent more notices in a window than the limit allows.
    pub open spec fn valid(self) -> bool {
        forall|user: u64| #[trigger]
            self.entries.contains_key(user) ==> self.entries[user].notices <= self.reply_limit
    }

    /// The request of `user` at `now` finds a window of that user open.
    pub open spec fn in_window(self, user: u64, now: u128) -> bool {
        self.entries.contains_key(user) && !self.entries[user].expired(self.window, now)
    }

    /// The decision on a request of `user` at `now`.
    pub open spec fn decide(self, user: u64, now: u128) -> Decision {
        if self.in_window(user, now) {
            Decision::Deny { notify: self.entries[user].notices < self.reply_limit }
        } else {
            Decision::Allow
        }
    }

    /// The entry of `user` after a request at `now`.
    pub open spec fn entry_after(self, user: u64, now: u128) -> RateLimitEntry {
        if self.in_window(user, now) {
            let entry = self.entries[user];
            RateLimitEntry {
                window_start: entry.window_start,
                requests: if entry.requests < u64::MAX {
                    (entry.requests + 1) as u64
                } else {
                    entry.requests
                },
                notices: if entry.notices < self.reply_limit {
                    (entry.notices + 1) as usize
                } else {
                    entry.notices
                },
            }
        } else {
            RateLimitEntry { window_start: now, requests: 1, notices: 0 }
        }
    }

    /// The limiter after a request of `user` at `now`.
    pub open spec fn after(self, user: u64, now: u128) -> LimiterModel {
        LimiterModel { entries: self.entries.insert(user, self.entry_after(user, now)), ..self }
    }

    /// The limiter after all of `arrivals`, taken in their order.
    pub open spec fn after_all(self, arrivals: Seq<Arrival>) -> LimiterModel
        decreases arrivals.len(),
    {
        if arrivals.len() == 0 {
            self
        } else {
            self.after_all(arrivals.drop_last()).after(arrivals.last().user, arrivals.last().at)
        }
    }

    /// The decision on the request `arrivals[i]`, those before it having been
    /// taken in their order.
    pub open spec fn decision_at(self, arrivals: Seq<Arrival>, i: int) -> Decision
        recommends
            0 <= i < arrivals.len(),
    {
        self.after_all(arrivals.take(i)).decide(arrivals[i].user, arrivals[i].at)
    }
}

/// A request leaves a valid limiter valid, and touches no other user's entry.
pub proof fn lemma_after_valid(limiter: LimiterModel, user: u64, now: u128)
    requires
        limiter.valid(),
    ensures
        limiter.after(user, now).valid(),
        limiter.after(user, now).entries.dom() == limiter.entries.dom().insert(user),
        forall|other: u64|
            other != user && limiter.entries.contains_key(other) ==> limiter.after(
                user,
                now,
            ).entries[other] == limiter.entries[other],
{
    let next = limiter.after(user, now);
    assert forall|u: u64| #[trigger] next.entries.contains_key(u) implies next.entries[u].notices
        <= next.reply_limit by {
        if u != user {
            assert(limiter.entries.contains_key(u));
        } else if limiter.in_window(user, now) {
            assert(limiter.entries.contains_key(user));
        }
    }
}

/// Once a request of a user has been admitted, that user has an entry whose
/// window opened no earlier than that request, whatever requests follow.
proof fn lemma_window_opened(limiter: LimiterModel, arrivals: Seq<Arrival>, i: int, k: int)
    requires
        0 <= i < k <= arrivals.len(),
        limiter.decision_at(arrivals, i) == Decision::Allow,
    ensures
        limiter.after_all(arrivals.take(k)).entries.contains_key(arrivals[i].user),
        limiter.after_all(arrivals.take(k)).entries[arrivals[i].user].window_start
            >= arrivals[i].at,
    decreases k - i,
{
    let before = limiter.after_all(arrivals.take(k - 1));
    assert(arrivals.take(k).drop_last() =~= arrivals.take(k - 1));
    assert(arrivals.take(k).last() == arrivals[k - 1]);
    assert(limiter.after_all(arrivals.take(k)) == before.after(
        arrivals[k - 1].user,
        arrivals[k - 1].at,
    ));
    if k - 1 > i {
        lemma_window_opened(limiter, arrivals, i, k - 1);
    }
}

/// Of two requests of one user that are both admitted, the later comes at
/// least a whole window after the earlier: no two requests of a user within
/// one window are both admitted. This holds from any state of the limiter,
/// whatever other requests come in between and in whatever order the
/// moments reach the limiter.
pub proof fn lemma_one_allow_per_window(
    limiter: LimiterModel,
    arrivals: Seq<Arrival>,
    i: int,
    j: int,
)
    requires
        0 <= i < j < arrivals.len(),
        arrivals[i].user == arrivals[j].user,
        limiter.decision_at(arrivals, i) == Decision::Allow,
        limiter.decision_at(arrivals, j) == Decision::Allow,
    ensures
        arrivals[j].at >= arrivals[i].at + limiter.window,
{
    lemma_window_opened(limiter, arrivals, i, j);
    lemma_after_all_keeps_settings(limiter, arrivals.take(j));
}

/// Requests change neither the window nor the limit of notices.
pub proof fn lemma_after_all_keeps_settings(limiter: LimiterModel, arrivals: Seq<Arrival>)
    ensures
        limiter.after_all(arrivals).window == limiter.window,
        limiter.after_all(arrivals).reply_limit == limiter.reply_limit,
    decreases arrivals.len(),
{
    if arrivals.len() > 0 {
        lemma_after_all_keeps_settings(limiter, arrivals.drop_last());
    }
}

/// Within one window a user is sent a notice for each of the first
/// `reply_limit` requests that are turned away, and none after that: the
/// count of notices in an entry never passes the limit.
pub proof fn lemma_after_all_valid(limiter: LimiterModel, arrivals: Seq<Arrival>)
    requires
        limiter.valid(),
    ensures
        limiter.after_all(arrivals).valid(),
    decreases arrivals.len(),
{
    if arrivals.len() > 0 {
        lemma_after_all_valid(limiter, arrivals.drop_last());
        lemma_after_valid(
            limiter.after_all(arrivals.drop_last()),
            arrivals.last().user,
            arrivals.last().at,
        );
    }
}

/// The requests `arrivals` all come from `user`.
pub open spec fn all_from(arrivals: Seq<Arrival>, user: u64) -> bool {
    forall|i: int| 0 <= i < arrivals.len() ==> (#[trigger] arrivals[i]).user == user
}

/// The smaller of a count and a limit.
pub open spec fn capped(count: int, limit: usize) -> int {
    if count <= limit {
        count
    } else {
        limit as int
    }
}

/// After a request that was admitted and `k - 1` more requests of the same
/// user inside the window it opened, the user's entry still holds that
/// window, with one notice for each of the later requests up to the limit.
proof fn lemma_entry_in_window(limiter: LimiterModel, arrivals: Seq<Arrival>, k: int)
    requires
        0 < k <= arrivals.len(),
        all_from(arrivals, arrivals[0].user),
        forall|i: int| 0 <= i < arrivals.len() ==> (#[trigger] arrivals[i]).at < arrivals[0].at
            + limiter.window,
        limiter.decision_at(arrivals, 0) == Decision::Allow,
    ensures
        limiter.after_all(arrivals.take(k)).entries.contains_key(arrivals[0].user),
        limiter.after_all(arrivals.take(k)).entries[arrivals[0].user].window_start
            == arrivals[0].at,
        limiter.after_all(arrivals.take(k)).entries[arrivals[0].user].notices == capped(
            k - 1,
            limiter.reply_limit,
        ),
    decreases k,
{
    let before = limiter.after_all(arrivals.take(k - 1));
    assert(arrivals.take(k).drop_last() =~= arrivals.take(k - 1));
    assert(arrivals.take(k).last() == arrivals[k - 1]);
    assert(arrivals[k - 1].user == arrivals[0].user);
    lemma_after_all_keeps_settings(limiter, arrivals.take(k - 1));
    if k > 1 {
        lemma_entry_in_window(limiter, arrivals, k - 1);
    }
}

/// Of the requests that a user sends inside one window, the first is
/// allowed and every later one is denied; the user is notified of the
/// denials up to the limit of notices, and of none after that.
pub proof fn lemma_notices_then_silence(limiter: LimiterModel, arrivals: Seq<Arrival>, j: int)
    requires
        0 < j < arrivals.len(),
        all_from(arrivals, arrivals[0].user),
        forall|i: int| 0 <= i < arrivals.len() ==> (#[trigger] arrivals[i]).at < arrivals[0].at
            + limiter.window,
        limiter.decision_at(arrivals, 0) == Decision::Allow,
    ensures
        limiter.decision_at(arrivals, j) == (Decision::Deny { notify: j <= limiter.reply_limit }),
{
    lemma_entry_in_window(limiter, arrivals, j);
    lemma_after_all_keeps_settings(limiter, arrivals.take(j));
    assert(arrivals[j].user == arrivals[0].user);
}

/// The per-user rate limiter.
#[derive(Debug)]
pub struct RateLimiter {
    window: u128,
    reply_limit: usize,
    entries: HashMap<u64, RateLimitEntry>,
}

impl View for RateLimiter {
    type V = LimiterModel;

    closed spec fn view(&self) -> LimiterModel {
        LimiterModel {
            window: self.window as nat,
            reply_limit: self.reply_limit,
            entries: self.entries@,
        }
    }
}

impl RateLimiter {
    #[verifier::type_invariant]
    spec fn well_formed(self) -> bool {
        self@.valid()
    }

    /// A limiter that has seen no request, with windows of `window`
    /// nanoseconds and at most `reply_limit` notices per user and window.
    pub fn new(window: u128, reply_limit: usize) -> (limiter: RateLimiter)
        ensures
            limiter@.window == window,
            limiter@.reply_limit == reply_limit,
            limiter@.entries == Map::<u64, RateLimitEntry>::empty(),
            limiter@.valid(),
    {
        RateLimiter { window, reply_limit, entries: HashMap::new() }
    }

    /// What the limiter remembers of `user`, if the user has asked before.
    pub fn entry(&self, user: u64) -> (entry: Option<RateLimitEntry>)
        ensures
            self@.valid(),
            entry == if self@.entries.contains_key(user) {
                Some(self@.entries[user])
            } else {
                None
            },
    {
        proof {
            use_type_invariant(self);
        }
        match self.entries.get(&user) {
            Some(entry) => Some(*entry),
            None => None,
        }
    }

    /// Decides on a request of `user` that comes at the moment `now`, and
    /// remembers it.
    ///
    /// The first request of a user, and the first after the user's window is
    /// over, is allowed and opens a window at `now`. Every other request is
    /// denied; the user is notified until `reply_limit` notices were sent in
    /// the window, and passed over in silence after that.
    pub fn check(&mut self, user: u64, now: u128) -> (decision: Decision)
        ensures
            decision == old(self)@.decide(user, now),
            final(self)@ == old(self)@.after(user, now),
            final(self)@.valid(),
    {
        let mut held = RateLimiter::new(0, 0);
        core::mem::swap(self, &mut held);
        let (next, decision) = held.judge(user, now);
        *self = next;
        decision
    }

    fn judge(self, user: u64, now: u128) -> (out: (RateLimiter, Decision))
        ensures
            out.1 == self@.decide(user, now),
            out.0@ == self@.after(user, now),
            out.0@.valid(),
    {
        proof {
            use_type_invariant(&self);
            lemma_after_valid(self@, user, now);
        }
        let RateLimiter { window, reply_limit, mut entries } = self;
        let known = match entries.get(&user) {
            Some(entry) => Some(*entry),
            None => None,
        };
        let (entry, decision) = match known {
            Some(entry) if !(now >= entry.window_start && now - entry.window_start >= window) => {
                let notify = entry.notices < reply_limit;
                (
                    RateLimitEntry {
                        window_start: entry.window_start,
                        requests: if entry.requests < u64::MAX {
                            entry.requests + 1
                        } else {
                            entry.requests
                        },
                        notices: if notify {
                            entry.notices + 1
                        } else {
                            entry.notices
                        },
                    },
                    Decision::Deny { notify },
                )
            },
            _ => (RateLimitEntry { window_start: now, requests: 1, notices: 0 }, Decision::Allow),
        };
        entries.insert(user, entry);
        let next = RateLimiter { window, reply_limit, entries };
        assert(next@ == self@.after(user, now));
        (next, decision)
    }
}

} // verus!
