//! What the table of calls in flight is, as a value: the calls that are
//! pending and the outcomes that were handed out so far.
//!
//! The operations of the table are stated here as functions from one such value
//! to the next. What holds of every table follows from them, and is proved at
//! the end of this file.

use crate::client::in_flight_requests::{DeadlineExceededError, RequestData};
use crate::context::Timestamp;
use tokio::sync::oneshot::Sender;
use vstd::prelude::*;

verus! {

/// One outcome handed to the channel on which a caller waits.
#[verifier::reject_recursive_types(Resp)]
pub struct Delivery<Resp> {
    /// The channel that the call was inserted with.
    pub channel: Sender<Result<Resp, DeadlineExceededError>>,
    /// What was sent on it.
    pub outcome: Result<Resp, DeadlineExceededError>,
}

/// The calls in flight on one connection.
#[verifier::ext_equal]
#[verifier::reject_recursive_types(Resp)]
pub struct PendingCalls<Resp> {
    /// The record of each call that was inserted and is not resolved yet, by
    /// its identifier.
    pub calls: Map<u64, RequestData<Resp>>,
    /// Every outcome that was handed to a completion channel, oldest first.
    pub delivered: Seq<Delivery<Resp>>,
}

/// Something that happens to the table.
#[verifier::reject_recursive_types(Resp)]
pub enum Step<Resp> {
    /// A call is inserted.
    Insert { id: u64, data: RequestData<Resp> },
    /// A response comes in.
    Complete { id: u64, payload: Resp },
    /// A caller gives up.
    Cancel { id: u64 },
    /// The table is polled for expired calls.
    Poll { now: Timestamp },
}

/// The order in which calls expire: by deadline, and by identifier among
/// calls with one deadline. A call is written as its deadline in nanoseconds
/// and its identifier.
pub open spec fn expires_no_later(a: (i128, u64), b: (i128, u64)) -> bool {
    a.0 < b.0 || (a.0 == b.0 && a.1 <= b.1)
}

/// The place of the call `id` in the order of expiry.
pub open spec fn expiry_of<Resp>(calls: Map<u64, RequestData<Resp>>, id: u64) -> (i128, u64) {
    (calls[id].ctx.deadline.unix_nanos, id)
}

/// Whether `id` is the call among `calls` that expires first.
pub open spec fn expires_first<Resp>(calls: Map<u64, RequestData<Resp>>, id: u64) -> bool {
    &&& calls.contains_key(id)
    &&& forall|other: u64| #[trigger]
        calls.contains_key(other) ==> expires_no_later(
            expiry_of(calls, id),
            expiry_of(calls, other),
        )
}

impl<Resp> PendingCalls<Resp> {
    /// No call in flight, nothing delivered.
    pub open spec fn empty() -> Self {
        PendingCalls { calls: Map::empty(), delivered: Seq::empty() }
    }

    /// Whether the call `id` is pending.
    pub open spec fn is_pending(self, id: u64) -> bool {
        self.calls.contains_key(id)
    }

    /// The deadline of the pending call `id`.
    pub open spec fn deadline_of(self, id: u64) -> Timestamp {
        self.calls[id].ctx.deadline
    }

    /// Whether the call `id` is pending and its deadline is reached at `now`.
    pub open spec fn is_due(self, id: u64, now: Timestamp) -> bool {
        self.is_pending(id) && self.deadline_of(id).unix_nanos <= now.unix_nanos
    }

    /// The state after an attempt to insert a call: unchanged where `id` is
    /// pending already.
    pub open spec fn insert(self, id: u64, data: RequestData<Resp>) -> Self {
        if self.is_pending(id) {
            self
        } else {
            PendingCalls { calls: self.calls.insert(id, data), delivered: self.delivered }
        }
    }

    /// The state after the call `id` was resolved with `outcome`: the call has
    /// left, and the outcome went to its channel. Unchanged where `id` is not
    /// pending.
    pub open spec fn resolve(self, id: u64, outcome: Result<Resp, DeadlineExceededError>) -> Self {
        if self.is_pending(id) {
            PendingCalls {
                calls: self.calls.remove(id),
                delivered: self.delivered.push(
                    Delivery { channel: self.calls[id].response_completion, outcome },
                ),
            }
        } else {
            self
        }
    }

    /// The state after a response to the call `id` came in.
    pub open spec fn complete(self, id: u64, payload: Resp) -> Self {
        self.resolve(id, Ok(payload))
    }

    /// The state after the call `id` ran out of time.
    pub open spec fn expire(self, id: u64) -> Self {
        self.resolve(id, Err(DeadlineExceededError))
    }

    /// The state after the caller gave up the call `id`: the call has left,
    /// and nothing is delivered.
    pub open spec fn cancel(self, id: u64) -> Self {
        PendingCalls { calls: self.calls.remove(id), delivered: self.delivered }
    }

    /// The pending call that expires first, if any call is pending.
    pub open spec fn next(self) -> Option<u64> {
        if exists|id: u64| expires_first(self.calls, id) {
            Some(choose|id: u64| expires_first(self.calls, id))
        } else {
            None
        }
    }

    /// The call that expires at `now`: the pending call that expires first,
    /// where its deadline is reached.
    pub open spec fn next_due(self, now: Timestamp) -> Option<u64> {
        match self.next() {
            Some(id) => if self.is_due(id, now) {
                Some(id)
            } else {
                None
            },
            None => None,
        }
    }

    /// The state after one poll for expired calls at `now`.
    pub open spec fn poll(self, now: Timestamp) -> Self {
        match self.next_due(now) {
            Some(id) => self.expire(id),
            None => self,
        }
    }

    /// Whether the calls that are pending can be counted. Of the state of a
    /// table this always holds.
    pub open spec fn is_finite(self) -> bool {
        self.calls.dom().finite()
    }

    /// The state after `step`.
    pub open spec fn step(self, step: Step<Resp>) -> Self {
        match step {
            Step::Insert { id, data } => self.insert(id, data),
            Step::Complete { id, payload } => self.complete(id, payload),
            Step::Cancel { id } => self.cancel(id),
            Step::Poll { now } => self.poll(now),
        }
    }

    /// The state after `steps`, one after the other.
    pub open spec fn run(self, steps: Seq<Step<Resp>>) -> Self
        decreases steps.len(),
    {
        if steps.len() == 0 {
            self
        } else {
            self.step(steps.first()).run(steps.drop_first())
        }
    }

    /// How many of `steps` insert a call: those that are not refused.
    pub open spec fn inserted_by(self, steps: Seq<Step<Resp>>) -> nat
        decreases steps.len(),
    {
        if steps.len() == 0 {
            0
        } else {
            let here: nat = match steps.first() {
                Step::Insert { id, .. } => if self.is_pending(id) {
                    0
                } else {
                    1
                },
                _ => 0,
            };
            here + self.step(steps.first()).inserted_by(steps.drop_first())
        }
    }

    /// How many of `steps` cancel a call: those that find the call pending.
    pub open spec fn canceled_by(self, steps: Seq<Step<Resp>>) -> nat
        decreases steps.len(),
    {
        if steps.len() == 0 {
            0
        } else {
            let here: nat = match steps.first() {
                Step::Cancel { id } => if self.is_pending(id) {
                    1
                } else {
                    0
                },
                _ => 0,
            };
            here + self.step(steps.first()).canceled_by(steps.drop_first())
        }
    }

    /// The state after `n` polls for expired calls at `now`.
    pub open spec fn poll_times(self, now: Timestamp, n: nat) -> Self
        decreases n,
    {
        if n == 0 {
            self
        } else {
            self.poll(now).poll_times(now, (n - 1) as nat)
        }
    }
}

/// At most one call expires first.
pub proof fn lemma_expires_first_is_unique<Resp>(
    calls: Map<u64, RequestData<Resp>>,
    a: u64,
    b: u64,
)
    requires
        expires_first(calls, a),
        expires_first(calls, b),
    ensures
        a == b,
{
}

/// Among calls that can be counted, and are not none, one expires first.
pub proof fn lemma_some_call_expires_first<Resp>(calls: Map<u64, RequestData<Resp>>)
    requires
        calls.dom().finite(),
        calls.len() > 0,
    ensures
        exists|id: u64| expires_first(calls, id),
    decreases calls.len(),
{
    let x = calls.dom().choose();
    let rest = calls.remove(x);
    if rest.len() == 0 {
        assert forall|other: u64| #[trigger] calls.contains_key(other) implies other == x by {
            if other != x {
                assert(rest.contains_key(other));
                assert(rest.dom().contains(other));
            }
        }
        assert(expires_first(calls, x));
    } else {
        lemma_some_call_expires_first(rest);
        let m = choose|id: u64| expires_first(rest, id);
        let first = if expires_no_later(expiry_of(calls, x), expiry_of(calls, m)) {
            x
        } else {
            m
        };
        assert forall|other: u64| #[trigger] calls.contains_key(other) implies expires_no_later(
            expiry_of(calls, first),
            expiry_of(calls, other),
        ) by {
            if other != x {
                assert(rest.contains_key(other));
                assert(expires_no_later(expiry_of(rest, m), expiry_of(rest, other)));
            }
        }
        assert(expires_first(calls, first));
    }
}

/// An identifier is refused while its call is pending and at no other time:
/// once the call is resolved, by a response, by the caller or by its deadline,
/// the identifier is free, and the next call that is inserted under it is
/// recorded as it is given.
pub proof fn lemma_identifier_is_free_once_resolved<Resp>(
    state: PendingCalls<Resp>,
    id: u64,
    payload: Resp,
    data: RequestData<Resp>,
)
    ensures
        state.is_pending(id) ==> state.insert(id, data) == state,
        !state.is_pending(id) ==> state.insert(id, data).is_pending(id) && state.insert(
            id,
            data,
        ).calls[id] == data,
        !state.complete(id, payload).is_pending(id),
        !state.cancel(id).is_pending(id),
        !state.expire(id).is_pending(id),
        state.complete(id, payload).insert(id, data).calls[id] == data,
        state.cancel(id).insert(id, data).calls[id] == data,
        state.expire(id).insert(id, data).calls[id] == data,
{
}

/// A call stays pending, with the record that it was inserted with, until it
/// is resolved itself: what happens to other calls does not touch it, a second
/// insertion under its identifier does not replace it, and a poll leaves it
/// unless it is the call that the poll yields.
pub proof fn lemma_pending_call_is_kept<Resp>(
    state: PendingCalls<Resp>,
    id: u64,
    other: u64,
    data: RequestData<Resp>,
    outcome: Result<Resp, DeadlineExceededError>,
    now: Timestamp,
)
    requires
        state.is_pending(id),
    ensures
        state.insert(id, data).calls[id] == state.calls[id],
        state.insert(other, data).is_pending(id),
        other != id ==> state.insert(other, data).calls[id] == state.calls[id],
        other != id ==> state.resolve(other, outcome).is_pending(id) && state.resolve(
            other,
            outcome,
        ).calls[id] == state.calls[id],
        other != id ==> state.cancel(other).is_pending(id) && state.cancel(other).calls[id]
            == state.calls[id],
        state.next_due(now) != Some(id) ==> state.poll(now).is_pending(id) && state.poll(
            now,
        ).calls[id] == state.calls[id],
{
}

/// A pending call is resolved once. The response, or the deadline, that
/// resolves it hands one outcome to the channel of the call and takes the
/// call out of the table, which then holds one call less. Whatever is tried
/// on the identifier afterwards changes nothing: nothing more is delivered.
pub proof fn lemma_outcome_is_delivered_once<Resp>(
    state: PendingCalls<Resp>,
    id: u64,
    outcome: Result<Resp, DeadlineExceededError>,
    later: Result<Resp, DeadlineExceededError>,
)
    requires
        state.is_finite(),
        state.is_pending(id),
    ensures
        ({
            let after = state.resolve(id, outcome);
            &&& !after.is_pending(id)
            &&& after.calls.len() == state.calls.len() - 1
            &&& after.delivered == state.delivered.push(
                Delivery { channel: state.calls[id].response_completion, outcome },
            )
            &&& after.resolve(id, later) == after
            &&& after.cancel(id) == after
        }),
{
    let after = state.resolve(id, outcome);
    assert(after.calls.remove(id) == after.calls);
}

/// A pending call that its caller gives up leaves the table, which then
/// holds one call less, and nothing is delivered for it: not then, and not by
/// a response or a deadline that comes later.
pub proof fn lemma_canceled_call_gets_no_outcome<Resp>(
    state: PendingCalls<Resp>,
    id: u64,
    later: Result<Resp, DeadlineExceededError>,
)
    requires
        state.is_finite(),
        state.is_pending(id),
    ensures
        ({
            let after = state.cancel(id);
            &&& !after.is_pending(id)
            &&& after.calls.len() == state.calls.len() - 1
            &&& after.delivered == state.delivered
            &&& after.resolve(id, later) == after
            &&& after.cancel(id) == after
        }),
{
    let after = state.cancel(id);
    assert(after.calls.remove(id) == after.calls);
}

/// Where a response and a cancellation for one call race, the one that the
/// table sees first decides, and the other finds no call and does nothing. So
/// does a response that races with the deadline.
pub proof fn lemma_second_of_a_race_does_nothing<Resp>(
    state: PendingCalls<Resp>,
    id: u64,
    payload: Resp,
)
    ensures
        state.complete(id, payload).cancel(id) == state.complete(id, payload),
        state.cancel(id).complete(id, payload) == state.cancel(id),
        state.expire(id).complete(id, payload) == state.expire(id),
        state.complete(id, payload).expire(id) == state.complete(id, payload),
        state.is_pending(id) ==> state.complete(id, payload).cancel(id).delivered
            == state.delivered.push(
            Delivery { channel: state.calls[id].response_completion, outcome: Ok(payload) },
        ),
        state.cancel(id).complete(id, payload).delivered == state.delivered,
{
    assert(state.calls.remove(id).remove(id) == state.calls.remove(id));
    if !state.is_pending(id) {
        assert(state.calls.remove(id) == state.calls);
    }
}

/// Whatever happens to a table, in whatever order, every call that was
/// inserted is either still pending, or was canceled, or got one outcome: the
/// calls that were inserted are as many as those three together. No call gets
/// two outcomes, and none is lost.
pub proof fn lemma_every_call_ends_once<Resp>(state: PendingCalls<Resp>, steps: Seq<Step<Resp>>)
    requires
        state.is_finite(),
    ensures
        state.run(steps).is_finite(),
        state.run(steps).calls.len() + state.run(steps).delivered.len() + state.canceled_by(steps)
            == state.calls.len() + state.delivered.len() + state.inserted_by(steps),
    decreases steps.len(),
{
    if steps.len() > 0 {
        lemma_every_call_ends_once(state.step(steps.first()), steps.drop_first());
    }
}

/// A poll does not yield a call before its deadline, from the moment the call
/// is inserted.
pub proof fn lemma_poll_waits_for_the_deadline<Resp>(
    state: PendingCalls<Resp>,
    id: u64,
    data: RequestData<Resp>,
    now: Timestamp,
)
    ensures
        state.next_due(now) == Some(id) ==> state.is_pending(id) && state.deadline_of(
            id,
        ).unix_nanos <= now.unix_nanos,
        !state.is_pending(id) && now.unix_nanos < data.ctx.deadline.unix_nanos ==> state.insert(
            id,
            data,
        ).next_due(now) != Some(id),
{
}

/// A poll yields a call only once its deadline is reached, and yields one
/// whenever the deadline of some pending call is reached: the one among them
/// that expires first.
pub proof fn lemma_poll_yields_what_is_due<Resp>(state: PendingCalls<Resp>, now: Timestamp)
    requires
        state.is_finite(),
    ensures
        match state.next_due(now) {
            Some(id) => state.is_due(id, now) && expires_first(state.calls, id),
            None => forall|id: u64| !state.is_due(id, now),
        },
{
    if exists|id: u64| state.calls.contains_key(id) {
        let some = choose|id: u64| state.calls.contains_key(id);
        assert(state.calls.dom().contains(some));
        assert(state.calls.len() > 0);
        lemma_some_call_expires_first(state.calls);
        let first = choose|id: u64| expires_first(state.calls, id);
        assert(state.next() == Some(first));
        assert forall|id: u64| state.is_due(id, now) implies state.is_due(first, now) by {
            assert(expires_no_later(expiry_of(state.calls, first), expiry_of(state.calls, id)));
        }
    }
}

/// A pending call whose deadline is reached is yielded in the end: polled
/// again and again at `now`, the table yields it after fewer polls than it
/// holds calls, and keeps it until then.
pub proof fn lemma_due_call_is_yielded<Resp>(state: PendingCalls<Resp>, id: u64, now: Timestamp)
    requires
        state.is_finite(),
        state.is_due(id, now),
    ensures
        exists|n: nat|
            n < state.calls.len() && (#[trigger] state.poll_times(now, n)).next_due(now) == Some(
                id,
            ),
    decreases state.calls.len(),
{
    lemma_poll_yields_what_is_due(state, now);
    assert(state.calls.dom().contains(id));
    assert(state.calls.len() > 0);
    let first = state.next_due(now)->Some_0;
    if first == id {
        assert(state.poll_times(now, 0) == state);
    } else {
        let after = state.poll(now);
        assert(after.is_due(id, now));
        lemma_due_call_is_yielded(after, id, now);
        let n = choose|n: nat|
            n < after.calls.len() && (#[trigger] after.poll_times(now, n)).next_due(now) == Some(
                id,
            );
        assert(state.poll_times(now, n + 1) == after.poll_times(now, n));
    }
}

} // verus!
