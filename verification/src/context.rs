//! A request context that carries the deadline of a call.
//!
//! The context travels with a call from the client to the server, which uses it
//! to stop working on a call that nobody waits for any more. Between peers the
//! deadline is written as the time that remains, never as a point in time, so
//! that two clocks that disagree still agree on how long a call may take.

use vstd::prelude::*;

verus! {

/// The number of nanoseconds in one second.
pub const NANOS_PER_SEC: i128 = 1_000_000_000;

/// The longest time that a [`Remaining`] with less than a second in its second
/// part can hold, in nanoseconds.
pub const MAX_REMAINING_NANOS: i128 = 18_446_744_073_709_551_615_999_999_999;

/// How long a call may take when nothing else was asked for, in seconds.
pub const DEFAULT_TIMEOUT_SECS: u64 = 10;

/// A point in time, counted in nanoseconds since the Unix epoch in UTC.
#[derive(Clone, Copy, Debug, PartialEq, Eq, Structural)]
pub struct Timestamp {
    /// Nanoseconds since 1970-01-01 00:00:00 UTC; negative before it.
    pub unix_nanos: i128,
}

/// A span of time that is never negative: the form in which a deadline crosses
/// the wire.
#[derive(Clone, Copy, Debug, PartialEq, Eq, Structural)]
pub struct Remaining {
    /// Whole seconds.
    pub secs: u64,
    /// The part below one second, in nanoseconds.
    pub subsec_nanos: u32,
}

/// A request context that carries request-scoped information: the deadline.
///
/// The context should not be stored in a server implementation, because it is
/// different for each request.
#[derive(Clone, Copy, Debug)]
#[non_exhaustive]
pub struct Context {
    /// When the client expects the request to be complete by. The server should
    /// cancel the request if it is not complete by this time.
    pub deadline: Timestamp,
}

/// The time that is left at `now` until `deadline`, in nanoseconds: nothing
/// once the deadline has passed, and no more than [`Remaining`] can hold.
pub open spec fn remaining_nanos(deadline: Timestamp, now: Timestamp) -> int {
    let left = deadline.unix_nanos - now.unix_nanos;
    if left <= 0 {
        0
    } else if left >= MAX_REMAINING_NANOS {
        MAX_REMAINING_NANOS as int
    } else {
        left
    }
}

/// The point in time that lies `nanos` after `now`, or the last point that a
/// [`Timestamp`] can hold where that lies earlier.
pub open spec fn instant_after(now: Timestamp, nanos: int) -> Timestamp {
    if now.unix_nanos + nanos >= i128::MAX {
        Timestamp { unix_nanos: i128::MAX }
    } else {
        Timestamp { unix_nanos: (now.unix_nanos + nanos) as i128 }
    }
}

/// The deadline of a call that starts at `now` and asked for none of its own:
/// ten seconds later.
pub open spec fn default_deadline(now: Timestamp) -> Timestamp {
    instant_after(now, DEFAULT_TIMEOUT_SECS * NANOS_PER_SEC)
}

impl Remaining {
    /// The whole span in nanoseconds.
    pub open spec fn as_nanos(self) -> int {
        self.secs * NANOS_PER_SEC + self.subsec_nanos
    }

    /// Whether the part below one second is below one second.
    pub open spec fn is_normal(self) -> bool {
        self.subsec_nanos < NANOS_PER_SEC
    }

    /// A span of whole seconds.
    pub fn from_secs(secs: u64) -> (r: Self)
        ensures
            r.secs == secs,
            r.subsec_nanos == 0,
    {
        Remaining { secs, subsec_nanos: 0 }
    }

    /// The span of `nanos` nanoseconds, split into seconds and the rest.
    fn from_nanos(nanos: i128) -> (r: Self)
        requires
            0 <= nanos <= MAX_REMAINING_NANOS,
        ensures
            r.is_normal(),
            r.as_nanos() == nanos,
    {
        let secs: i128 = nanos / NANOS_PER_SEC;
        let rest: i128 = nanos % NANOS_PER_SEC;
        Remaining { secs: secs as u64, subsec_nanos: rest as u32 }
    }

    /// The whole span in nanoseconds.
    pub fn total_nanos(&self) -> (n: i128)
        ensures
            n == self.as_nanos(),
    {
        (self.secs as i128) * NANOS_PER_SEC + (self.subsec_nanos as i128)
    }
}

impl Timestamp {
    /// The time that the system clock shows. Which time that is cannot be
    /// said beforehand; it is one that the clock can show.
    pub fn now() -> (now: Self)
        ensures
            now.is_clock_reading(),
    {
        Timestamp { unix_nanos: unix_nanos_now() }
    }

    /// Whether the clock can show this point in time: whether it lies within
    /// the horizon of the clock on either side of the epoch.
    pub open spec fn is_clock_reading(self) -> bool {
        -CLOCK_HORIZON_NANOS < self.unix_nanos < CLOCK_HORIZON_NANOS
    }

    /// Whether this point in time is reached at `now`.
    pub fn has_passed(&self, now: Timestamp) -> (passed: bool)
        ensures
            passed == (self.unix_nanos <= now.unix_nanos),
    {
        self.unix_nanos <= now.unix_nanos
    }

    /// The point in time that lies `span` after this one; the last point that
    /// can be held, where the sum lies beyond it.
    pub fn after(&self, span: Remaining) -> (later: Timestamp)
        ensures
            later == instant_after(*self, span.as_nanos()),
    {
        let nanos: i128 = span.total_nanos();
        if self.unix_nanos >= i128::MAX - nanos {
            Timestamp { unix_nanos: i128::MAX }
        } else {
            Timestamp { unix_nanos: self.unix_nanos + nanos }
        }
    }
}

/// No reading of the clock lies this far from the epoch, in nanoseconds. The
/// clock is read as a date and time whose year has at most six digits, and a
/// million years are less than a third of this.
pub const CLOCK_HORIZON_NANOS: i128 = 100_000_000_000_000_000_000_000;

/// Reads the system clock through `time::OffsetDateTime::now_utc` and hands
/// back `unix_timestamp_nanos` of that reading.
///
/// Which time the clock says is not claimed. Taken on trust is how far from
/// the epoch it can lie: `now_utc` gives a date and time in UTC, and a date of
/// `time` holds no year beyond 9999 before or after the year zero (beyond
/// 999,999 with the feature `large-dates`), so the reading lies less than
/// 1,002,000 years from 1970, which is less than 10^23 nanoseconds. A clock
/// that shows a year which `OffsetDateTime` cannot hold makes the call panic.
#[verifier::external_body]
fn unix_nanos_now() -> (nanos: i128)
    ensures
        -CLOCK_HORIZON_NANOS < nanos < CLOCK_HORIZON_NANOS,
{
    time::OffsetDateTime::now_utc().unix_timestamp_nanos()
}

/// Turns a deadline into its wire form: the time that is left at `now`.
///
/// A deadline that has passed is sent as no time left.
pub fn serialize(deadline: &Timestamp, now: Timestamp) -> (left: Remaining)
    ensures
        left.is_normal(),
        left.as_nanos() == remaining_nanos(*deadline, now),
{
    if deadline.unix_nanos <= now.unix_nanos {
        Remaining { secs: 0, subsec_nanos: 0 }
    } else if now.unix_nanos < 0 && deadline.unix_nanos >= MAX_REMAINING_NANOS + now.unix_nanos {
        Remaining::from_nanos(MAX_REMAINING_NANOS)
    } else {
        let left: i128 = deadline.unix_nanos - now.unix_nanos;
        if left >= MAX_REMAINING_NANOS {
            Remaining::from_nanos(MAX_REMAINING_NANOS)
        } else {
            Remaining::from_nanos(left)
        }
    }
}

/// Turns the wire form back into a deadline: `left` after `now`, the
/// receiver's own clock reading.
pub fn deserialize(left: Remaining, now: Timestamp) -> (deadline: Timestamp)
    ensures
        deadline == instant_after(now, left.as_nanos()),
{
    now.after(left)
}

/// The deadline of a call that starts at `now` and asked for none of its own.
pub fn ten_seconds_from(now: Timestamp) -> (deadline: Timestamp)
    ensures
        deadline == default_deadline(now),
{
    now.after(Remaining::from_secs(DEFAULT_TIMEOUT_SECS))
}

/// Whether `deadline` is the default deadline of a call that starts at `now`,
/// a reading of the clock: the point in time ten seconds after `now`.
pub open spec fn is_default_deadline_at(deadline: Timestamp, now: Timestamp) -> bool {
    &&& now.is_clock_reading()
    &&& deadline == default_deadline(now)
    &&& deadline.unix_nanos == now.unix_nanos + DEFAULT_TIMEOUT_SECS * NANOS_PER_SEC
}

fn ten_seconds_from_now() -> (deadline: Timestamp)
    ensures
        exists|now: Timestamp| is_default_deadline_at(deadline, now),
{
    let now = Timestamp::now();
    let deadline = ten_seconds_from(now);
    assert(is_default_deadline_at(deadline, now));
    deadline
}

/// The context of code that runs at `now`: the context of the request that it
/// serves, where it serves one, so that the calls it makes inherit what is
/// left of that request's time; otherwise a default context, whose deadline
/// lies ten seconds after `now`.
pub fn current_at(ambient: Option<Context>, now: Timestamp) -> (ctx: Context)
    ensures
        ctx.deadline == (match ambient {
            Some(active) => active.deadline,
            None => default_deadline(now),
        }),
{
    match ambient {
        Some(active) => active,
        None => Context { deadline: ten_seconds_from(now) },
    }
}

/// Returns the default context, for code that serves no request: one whose
/// deadline lies ten seconds after the clock's reading.
pub fn current() -> (ctx: Context)
    ensures
        exists|now: Timestamp| is_default_deadline_at(ctx.deadline, now),
{
    Context::current()
}

impl Context {
    /// A context with the given deadline.
    pub fn with_deadline(deadline: Timestamp) -> (ctx: Self)
        ensures
            ctx.deadline == deadline,
    {
        Context { deadline }
    }

    /// Returns the default context, for code that serves no request: one whose
    /// deadline lies ten seconds after the clock's reading.
    pub fn current() -> (ctx: Self)
        ensures
            exists|now: Timestamp| is_default_deadline_at(ctx.deadline, now),
    {
        let deadline = ten_seconds_from_now();
        let ctx = Context { deadline };
        proof {
            let now = choose|now: Timestamp| is_default_deadline_at(deadline, now);
            assert(is_default_deadline_at(ctx.deadline, now));
        }
        ctx
    }
}

/// A deadline that went over the wire never lies before the receiver's own
/// clock reading. Short of the last instant that can be held, it lies as far
/// after the receiver's clock as it lay after the sender's, however far the two
/// clocks are apart; so the receiver's deadline differs from the sender's by
/// the offset between the clocks, and by nothing else.
pub proof fn lemma_round_trip_tolerates_skew(
    deadline: Timestamp,
    sender_now: Timestamp,
    receiver_now: Timestamp,
)
    ensures
        ({
            let left = remaining_nanos(deadline, sender_now);
            let rebuilt = instant_after(receiver_now, left);
            &&& left >= 0
            &&& rebuilt.unix_nanos >= receiver_now.unix_nanos
            &&& receiver_now.unix_nanos + left <= i128::MAX ==> rebuilt.unix_nanos
                - receiver_now.unix_nanos == left
            &&& receiver_now.unix_nanos + left <= i128::MAX && 0 <= deadline.unix_nanos
                - sender_now.unix_nanos <= MAX_REMAINING_NANOS ==> rebuilt.unix_nanos
                - deadline.unix_nanos == receiver_now.unix_nanos - sender_now.unix_nanos
        }),
{
}

} // verus!
