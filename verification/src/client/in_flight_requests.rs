//! The calls that were written to the wire and have not been resolved yet.

use crate::client::pending::{
    expires_first, expires_no_later, expiry_of, lemma_expires_first_is_unique, Delivery,
    PendingCalls,
};
use crate::context::{Context, Timestamp};
use crate::util::{
    compact, map_capacity, map_contains, map_insert, map_len, map_remove, SLOTS_PER_ENTRY,
};
use crate::Response;
use fnv::FnvHashMap;
use std::collections::BTreeSet;
use tokio::sync::oneshot::Sender;
use tracing::Span;
use vstd::prelude::*;

verus! {

/// `tokio::sync::oneshot::Sender`: the sending half of a channel that carries
/// one value. Nothing is known of what is inside.
#[verifier::external_type_specification]
#[verifier::external_body]
#[verifier::reject_recursive_types(T)]
pub struct ExSender<T>(tokio::sync::oneshot::Sender<T>);

/// `tracing::Span`: a handle to a span of a trace. It is carried with a call
/// and handed back; nothing is known of what is inside.
#[verifier::external_type_specification]
#[verifier::external_body]
pub struct ExSpan(tracing::Span);

/// `Sender::send` hands the value to the receiving half and uses the sender
/// up. Whether the value arrives depends on the receiver, so all that is
/// claimed is what the method documents: a value that could not be sent comes
/// back as it was.
pub assume_specification<T>[ tokio::sync::oneshot::Sender::<T>::send ](
    sender: Sender<T>,
    value: T,
) -> (unsent: Result<(), T>)
    ensures
        unsent matches Err(back) ==> back == value,
;

/// Calls `BTreeSet::first`.
///
/// Taken on trust: an empty set has no first item; otherwise the result is the
/// item of the set that the order of tuples puts first, which compares the
/// first parts and, where they are equal, the second.
#[verifier::external_body]
fn set_first(set: &BTreeSet<(i128, u64)>) -> (first: Option<&(i128, u64)>)
    ensures
        match first {
            Some(item) => set@.contains(*item) && forall|other: (i128, u64)| #[trigger]
                set@.contains(other) ==> expires_no_later(*item, other),
            None => forall|other: (i128, u64)| !set@.contains(other),
        },
{
    set.first()
}

/// The request exceeded its deadline.
#[derive(Debug)]
pub struct DeadlineExceededError;

/// An error returned when an attempt is made to insert a request with an ID
/// that is already in use.
#[derive(Debug)]
pub struct AlreadyExistsError;

impl DeadlineExceededError {
    /// What went wrong, in words.
    pub fn to_string(&self) -> (text: String)
        ensures
            text@ == "the request exceeded its deadline"@,
    {
        "the request exceeded its deadline".to_string()
    }
}

/// What the table keeps of one call in flight.
#[derive(Debug)]
#[verifier::reject_recursive_types(Resp)]
pub struct RequestData<Resp> {
    /// The context that the call was made with.
    pub ctx: Context,
    /// The span of the trace that the call belongs to.
    pub span: Span,
    /// The channel on which the caller waits for the outcome.
    pub response_completion: Sender<Result<Resp, DeadlineExceededError>>,
}

/// The records of the pending calls, and the same calls in the order in which
/// they expire.
#[verifier::reject_recursive_types(Resp)]
struct Records<Resp> {
    request_data: FnvHashMap<u64, RequestData<Resp>>,
    deadlines: BTreeSet<(i128, u64)>,
}

impl<Resp> Records<Resp> {
    /// The records by identifier.
    spec fn calls(&self) -> Map<u64, RequestData<Resp>> {
        self.request_data@
    }

    /// The order of expiry holds exactly the calls that have a record, each
    /// under the deadline of its record.
    spec fn wf(&self) -> bool {
        &&& self.calls().dom().finite()
        &&& forall|deadline: i128, id: u64| #[trigger]
            self.deadlines@.contains((deadline, id)) <==> self.calls().contains_key(id)
                && self.calls()[id].ctx.deadline.unix_nanos == deadline
    }

    fn new() -> (records: Self)
        ensures
            records.wf(),
            records.calls() == Map::<u64, RequestData<Resp>>::empty(),
    {
        Records { request_data: FnvHashMap::default(), deadlines: BTreeSet::new() }
    }

    fn len(&self) -> (n: usize)
        ensures
            n == self.calls().len(),
    {
        map_len(&self.request_data)
    }

    fn capacity(&self) -> usize {
        map_capacity(&self.request_data)
    }

    fn contains(&self, id: u64) -> (found: bool)
        ensures
            found == self.calls().contains_key(id),
    {
        map_contains(&self.request_data, id)
    }

    fn insert(&mut self, id: u64, data: RequestData<Resp>)
        requires
            old(self).wf(),
            !old(self).calls().contains_key(id),
        ensures
            final(self).wf(),
            final(self).calls() == old(self).calls().insert(id, data),
    {
        self.deadlines.insert((data.ctx.deadline.unix_nanos, id));
        map_insert(&mut self.request_data, id, data);
    }

    fn remove(&mut self, id: u64) -> (removed: Option<RequestData<Resp>>)
        requires
            old(self).wf(),
        ensures
            final(self).wf(),
            final(self).calls() == old(self).calls().remove(id),
            removed == (if old(self).calls().contains_key(id) {
                Some(old(self).calls()[id])
            } else {
                None
            }),
    {
        let removed = map_remove(&mut self.request_data, id);
        if let Some(data) = &removed {
            self.deadlines.remove(&(data.ctx.deadline.unix_nanos, id));
            compact(&mut self.request_data, SLOTS_PER_ENTRY);
        }
        removed
    }

    fn first(&self) -> (first: Option<(Timestamp, u64)>)
        requires
            self.wf(),
        ensures
            match first {
                Some((deadline, id)) => expires_first(self.calls(), id)
                    && self.calls()[id].ctx.deadline == deadline,
                None => forall|id: u64| !self.calls().contains_key(id),
            },
    {
        match set_first(&self.deadlines) {
            Some(item) => {
                let (nanos, id) = *item;
                assert forall|other: u64| #[trigger]
                    self.calls().contains_key(other) implies expires_no_later(
                    expiry_of(self.calls(), id),
                    expiry_of(self.calls(), other),
                ) by {
                    assert(self.deadlines@.contains(expiry_of(self.calls(), other)));
                }
                Some((Timestamp { unix_nanos: nanos }, id))
            },
            None => {
                assert forall|id: u64| !self.calls().contains_key(id) by {
                    if self.calls().contains_key(id) {
                        assert(self.deadlines@.contains(expiry_of(self.calls(), id)));
                    }
                }
                None
            },
        }
    }
}

/// Requests already written to the wire that haven't yet received responses.
#[verifier::reject_recursive_types(Resp)]
pub struct InFlightRequests<Resp> {
    records: Records<Resp>,
    delivered: Ghost<Seq<Delivery<Resp>>>,
}

impl<Resp> View for InFlightRequests<Resp> {
    type V = PendingCalls<Resp>;

    closed spec fn view(&self) -> PendingCalls<Resp> {
        PendingCalls { calls: self.records.calls(), delivered: self.delivered@ }
    }
}

impl<Resp> Default for InFlightRequests<Resp> {
    fn default() -> (table: Self)
        ensures
            table@ == PendingCalls::<Resp>::empty(),
    {
        InFlightRequests { records: Records::new(), delivered: Ghost(Seq::empty()) }
    }
}

impl<Resp> InFlightRequests<Resp> {
    #[verifier::type_invariant]
    spec fn wf(self) -> bool {
        self.records.wf()
    }

    /// Takes the records out and leaves none behind, so that they can change
    /// step by step; `put_back` ends what this begins.
    fn take_records(&mut self) -> (records: Records<Resp>)
        ensures
            records.wf(),
            records.calls() == old(self)@.calls,
            final(self)@.delivered == old(self)@.delivered,
    {
        proof {
            use_type_invariant(&*self);
        }
        let mut records = Records::new();
        std::mem::swap(&mut self.records, &mut records);
        records
    }

    fn put_back(&mut self, records: Records<Resp>)
        requires
            records.wf(),
        ensures
            final(self)@.calls == records.calls(),
            final(self)@.delivered == old(self)@.delivered,
    {
        self.records = records;
    }

    /// Hands `outcome` to the channel of a call, and notes that it did.
    fn deliver(
        &mut self,
        channel: Sender<Result<Resp, DeadlineExceededError>>,
        outcome: Result<Resp, DeadlineExceededError>,
    )
        ensures
            final(self)@.calls == old(self)@.calls,
            final(self)@.delivered == old(self)@.delivered.push(Delivery { channel, outcome }),
    {
        proof {
            use_type_invariant(&*self);
        }
        let ghost delivery = Delivery { channel, outcome };
        // The caller may have stopped waiting: then the outcome is dropped.
        let _ = channel.send(outcome);
        self.delivered = Ghost(self.delivered@.push(delivery));
    }

    /// Returns the number of in-flight requests.
    pub fn len(&self) -> (n: usize)
        ensures
            n == self@.calls.len(),
            self@.is_finite(),
    {
        proof {
            use_type_invariant(self);
        }
        self.records.len()
    }

    /// Returns true iff there are no requests in flight.
    pub fn is_empty(&self) -> (empty: bool)
        ensures
            empty == (self@.calls.len() == 0),
            empty == (forall|id: u64| !self@.is_pending(id)),
            self@.is_finite(),
    {
        proof {
            use_type_invariant(self);
            if self@.calls.len() == 0 {
                assert forall|id: u64| !self@.is_pending(id) by {
                    if self@.is_pending(id) {
                        assert(self@.calls.dom().contains(id));
                    }
                }
            } else {
                assert(self@.calls.dom().len() != 0);
                assert(self@.is_pending(self@.calls.dom().choose()));
            }
        }
        self.records.len() == 0
    }

    /// The number of requests that the table has room for before it asks for
    /// more memory. The table gives room back as requests leave; how much it
    /// holds at a time is the allocator's answer, of which nothing is stated.
    pub fn capacity(&self) -> usize {
        self.records.capacity()
    }

    /// Starts a request, unless a request with the same ID is already in flight.
    pub fn insert_request(
        &mut self,
        request_id: u64,
        ctx: Context,
        span: Span,
        response_completion: Sender<Result<Resp, DeadlineExceededError>>,
    ) -> (r: Result<(), AlreadyExistsError>)
        ensures
            r is Err <==> old(self)@.is_pending(request_id),
            final(self)@ == old(self)@.insert(
                request_id,
                RequestData { ctx, span, response_completion },
            ),
    {
        let mut records = self.take_records();
        let r = if records.contains(request_id) {
            Err(AlreadyExistsError)
        } else {
            records.insert(request_id, RequestData { ctx, span, response_completion });
            Ok(())
        };
        self.put_back(records);
        r
    }

    /// Removes a request without aborting. Returns true iff the request was found.
    pub fn complete_request(&mut self, response: Response<Resp>) -> (found: bool)
        ensures
            found == old(self)@.is_pending(response.request_id),
            final(self)@ == old(self)@.complete(response.request_id, response.payload),
    {
        let mut records = self.take_records();
        let removed = records.remove(response.request_id);
        self.put_back(records);
        match removed {
            Some(data) => {
                self.deliver(data.response_completion, Ok(response.payload));
                true
            },
            None => false,
        }
    }

    /// Cancels a request without completing (typically used when a request handle was dropped
    /// before the request completed).
    pub fn cancel_request(&mut self, request_id: u64) -> (canceled: Option<(Context, Span)>)
        ensures
            canceled == (if old(self)@.is_pending(request_id) {
                Some((old(self)@.calls[request_id].ctx, old(self)@.calls[request_id].span))
            } else {
                None
            }),
            final(self)@ == old(self)@.cancel(request_id),
    {
        let mut records = self.take_records();
        let removed = records.remove(request_id);
        self.put_back(records);
        match removed {
            Some(data) => Some((data.ctx, data.span)),
            None => None,
        }
    }

    /// The deadline that is reached first among the requests in flight, if
    /// there is any: until then `poll_expired` yields nothing.
    pub fn next_deadline(&self) -> (deadline: Option<Timestamp>)
        ensures
            deadline == (match self@.next() {
                Some(id) => Some(self@.deadline_of(id)),
                None => None,
            }),
    {
        proof {
            use_type_invariant(self);
        }
        match self.records.first() {
            Some((deadline, id)) => {
                proof {
                    let chosen = choose|id: u64| expires_first(self@.calls, id);
                    lemma_expires_first_is_unique(self@.calls, id, chosen);
                }
                Some(deadline)
            },
            None => None,
        }
    }

    /// Yields a request that has expired at `now`, completing it with a
    /// `DeadlineExceededError`. The caller should send cancellation messages
    /// for any yielded request ID.
    ///
    /// Each call yields one request, the one whose deadline was reached
    /// first; `None` says that no deadline is reached yet.
    pub fn poll_expired(&mut self, now: Timestamp) -> (expired: Option<u64>)
        ensures
            expired == old(self)@.next_due(now),
            final(self)@ == old(self)@.poll(now),
    {
        let mut records = self.take_records();
        let due = match records.first() {
            Some((deadline, id)) => {
                proof {
                    let chosen = choose|id: u64| expires_first(records.calls(), id);
                    lemma_expires_first_is_unique(records.calls(), id, chosen);
                }
                if deadline.has_passed(now) {
                    Some(id)
                } else {
                    None
                }
            },
            None => None,
        };
        let removed = match due {
            Some(id) => records.remove(id),
            None => None,
        };
        self.put_back(records);
        match removed {
            Some(data) => {
                self.deliver(data.response_completion, Err(DeadlineExceededError));
            },
            None => {},
        }
        due
    }
}

} // verus!
