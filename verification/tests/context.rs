use std::time::Duration;
use tarpc::client::in_flight_requests::DeadlineExceededError;
use tarpc::context::{
    current, current_at, deserialize, serialize, ten_seconds_from, Context, Remaining, Timestamp,
    CLOCK_HORIZON_NANOS, DEFAULT_TIMEOUT_SECS, MAX_REMAINING_NANOS, NANOS_PER_SEC,
};

const SECOND: i128 = 1_000_000_000;

fn at(unix_nanos: i128) -> Timestamp {
    Timestamp { unix_nanos }
}

#[test]
fn test_serialize() {
    let now = Timestamp::now();
    let deadline = now.after(Remaining::from_secs(10));
    let left = serialize(&deadline, Timestamp::now());
    let serialized_deadline =
        bincode::serialize(&Duration::new(left.secs, left.subsec_nanos)).unwrap();
    let deserialized_deadline: Duration = bincode::deserialize(&serialized_deadline).unwrap();
    assert!(deserialized_deadline > Duration::from_secs(9));
}

#[test]
fn test_deserialize() {
    let deadline = Duration::from_secs(10);
    let serialized_deadline = bincode::serialize(&deadline).unwrap();
    let wire: Duration = bincode::deserialize(&serialized_deadline).unwrap();
    let left = Remaining { secs: wire.as_secs(), subsec_nanos: wire.subsec_nanos() };
    let deserialized_deadline = deserialize(left, Timestamp::now());
    let nine_seconds_from_now = Timestamp::now().after(Remaining::from_secs(9));
    assert!(deserialized_deadline.unix_nanos > nine_seconds_from_now.unix_nanos);
}

#[test]
fn serialize_gives_the_time_that_is_left() {
    let left = serialize(&at(15 * SECOND), at(10 * SECOND));
    assert_eq!(left, Remaining { secs: 5, subsec_nanos: 0 });
    let left = serialize(&at(10 * SECOND + 500_000_001), at(10 * SECOND));
    assert_eq!(left, Remaining { secs: 0, subsec_nanos: 500_000_001 });
    let left = serialize(&at(3 * SECOND + 1), at(-2 * SECOND - 1));
    assert_eq!(left, Remaining { secs: 5, subsec_nanos: 2 });
    let left = serialize(&at(-SECOND), at(-3 * SECOND + 1));
    assert_eq!(left, Remaining { secs: 1, subsec_nanos: 999_999_999 });
}

#[test]
fn serialize_of_a_passed_deadline_is_zero() {
    let zero = Remaining { secs: 0, subsec_nanos: 0 };
    assert_eq!(serialize(&at(9 * SECOND), at(10 * SECOND)), zero);
    assert_eq!(serialize(&at(10 * SECOND), at(10 * SECOND)), zero);
    assert_eq!(serialize(&at(i128::MIN), at(i128::MAX)), zero);
    assert_eq!(serialize(&at(10 * SECOND + 1), at(10 * SECOND)), Remaining {
        secs: 0,
        subsec_nanos: 1
    });
}

#[test]
fn serialize_stops_at_the_longest_span() {
    let longest = Remaining { secs: u64::MAX, subsec_nanos: 999_999_999 };
    assert_eq!(longest.total_nanos(), MAX_REMAINING_NANOS);
    assert_eq!(serialize(&at(i128::MAX), at(i128::MIN)), longest);
    assert_eq!(serialize(&at(i128::MAX), at(-1)), longest);
    assert_eq!(serialize(&at(MAX_REMAINING_NANOS), at(0)), longest);
    assert_eq!(serialize(&at(MAX_REMAINING_NANOS + 5), at(0)), longest);
    assert_eq!(serialize(&at(MAX_REMAINING_NANOS - 1), at(0)), Remaining {
        secs: u64::MAX,
        subsec_nanos: 999_999_998
    });
    assert_eq!(serialize(&at(MAX_REMAINING_NANOS - 7), at(-7)), longest);
}

#[test]
fn deserialize_adds_to_the_receivers_clock() {
    let left = Remaining { secs: 5, subsec_nanos: 250 };
    assert_eq!(deserialize(left, at(12 * SECOND)), at(17 * SECOND + 250));
    assert_eq!(deserialize(left, at(-20 * SECOND)), at(-15 * SECOND + 250));
    assert_eq!(deserialize(Remaining { secs: 0, subsec_nanos: 0 }, at(42)), at(42));
    // A part below one second that is not below one second still counts in full.
    let odd = Remaining { secs: 1, subsec_nanos: 2_000_000_000 };
    assert_eq!(odd.total_nanos(), 3 * SECOND);
    assert_eq!(deserialize(odd, at(0)), at(3 * SECOND));
}

#[test]
fn deserialize_stops_at_the_last_instant() {
    let left = Remaining { secs: 1, subsec_nanos: 0 };
    assert_eq!(deserialize(left, at(i128::MAX)), at(i128::MAX));
    assert_eq!(deserialize(left, at(i128::MAX - SECOND)), at(i128::MAX));
    assert_eq!(deserialize(left, at(i128::MAX - SECOND - 1)), at(i128::MAX - 1));
    let longest = Remaining { secs: u64::MAX, subsec_nanos: 999_999_999 };
    assert_eq!(deserialize(longest, at(0)), at(MAX_REMAINING_NANOS));
}

#[test]
fn round_trip_tolerates_clock_skew() {
    let sender_now = at(1_000 * SECOND);
    let deadline = sender_now.after(Remaining::from_secs(5));
    let wire = serialize(&deadline, sender_now);
    assert_eq!(wire, Remaining { secs: 5, subsec_nanos: 0 });
    for offset in [-2 * SECOND, -SECOND, -1, 0, 1, SECOND, 2 * SECOND] {
        let receiver_now = at(sender_now.unix_nanos + offset);
        let rebuilt = deserialize(wire, receiver_now);
        // The same time is left on the receiver's clock,
        assert_eq!(rebuilt.unix_nanos - receiver_now.unix_nanos, 5 * SECOND);
        // so the deadlines differ by the offset of the clocks and by no more.
        assert_eq!(rebuilt.unix_nanos - deadline.unix_nanos, offset);
        assert!((rebuilt.unix_nanos - deadline.unix_nanos).abs() <= 2 * SECOND);
        assert!(rebuilt.unix_nanos >= receiver_now.unix_nanos);
    }
}

#[test]
fn round_trip_of_a_passed_deadline_is_not_in_the_receivers_past() {
    let sender_now = at(1_000 * SECOND);
    let deadline = at(999 * SECOND);
    let wire = serialize(&deadline, sender_now);
    let receiver_now = at(500 * SECOND);
    let rebuilt = deserialize(wire, receiver_now);
    assert_eq!(rebuilt, receiver_now);
}

#[test]
fn default_deadline_is_ten_seconds_later() {
    assert_eq!(DEFAULT_TIMEOUT_SECS, 10);
    assert_eq!(NANOS_PER_SEC, 1_000_000_000);
    assert_eq!(ten_seconds_from(at(0)), at(10_000_000_000));
    assert_eq!(ten_seconds_from(at(-4 * SECOND + 3)), at(6 * SECOND + 3));
    assert_eq!(ten_seconds_from(at(i128::MAX - 5)), at(i128::MAX));
}

#[test]
fn current_context_expires_in_ten_seconds() {
    let before = Timestamp::now();
    let ctx = current();
    let method: Context = Context::current();
    let after = Timestamp::now();
    for deadline in [ctx.deadline, method.deadline] {
        assert!(deadline.unix_nanos >= before.unix_nanos + 10 * SECOND);
        assert!(deadline.unix_nanos <= after.unix_nanos + 11 * SECOND);
    }
}

#[test]
fn request_in_scope_hands_down_its_deadline() {
    let active = Context::with_deadline(at(3 * SECOND));
    assert_eq!(current_at(Some(active), at(0)).deadline, at(3 * SECOND));
    assert_eq!(current_at(Some(active), at(50 * SECOND)).deadline, at(3 * SECOND));
    assert_eq!(current_at(None, at(0)).deadline, at(10 * SECOND));
    assert_eq!(current_at(None, at(50 * SECOND)).deadline, at(60 * SECOND));
}

#[test]
fn context_is_made_with_its_deadline() {
    assert_eq!(Context::with_deadline(at(-5)).deadline, at(-5));
    assert_eq!(Context::with_deadline(at(i128::MAX)).deadline, at(i128::MAX));
}

#[test]
fn context_is_copied_with_its_deadline() {
    let mut ctx = current();
    ctx.deadline = at(77);
    let copy = ctx;
    assert_eq!(copy.deadline, at(77));
    assert_eq!(ctx.deadline, at(77));
}

#[test]
fn clock_reads_a_time_of_this_century() {
    let now = Timestamp::now();
    // 2020-01-01 and 2100-01-01, in seconds since the epoch.
    assert!(now.unix_nanos > 1_577_836_800 * SECOND);
    assert!(now.unix_nanos < 4_102_444_800 * SECOND);
    let later = Timestamp::now();
    assert!(later.unix_nanos + SECOND > now.unix_nanos);
}

#[test]
fn clock_cannot_read_beyond_its_horizon() {
    assert_eq!(CLOCK_HORIZON_NANOS, 10i128.pow(23));
    let now = Timestamp::now();
    assert!(-CLOCK_HORIZON_NANOS < now.unix_nanos && now.unix_nanos < CLOCK_HORIZON_NANOS);
    // The first and the last instant that a date and time can hold.
    let first = time::Date::MIN.midnight().assume_utc().unix_timestamp_nanos();
    let last = time::Date::MAX.with_time(time::Time::MAX).assume_utc().unix_timestamp_nanos();
    assert!(-CLOCK_HORIZON_NANOS < first && first < 0);
    assert!(0 < last && last < CLOCK_HORIZON_NANOS);
    // Ten seconds after any reading is no later than the last instant that is held.
    assert_eq!(
        ten_seconds_from(at(last)).unix_nanos,
        last + 10 * SECOND
    );
    assert_eq!(
        ten_seconds_from(at(CLOCK_HORIZON_NANOS - 1)).unix_nanos,
        CLOCK_HORIZON_NANOS - 1 + 10 * SECOND
    );
}

#[test]
fn deadline_is_passed_from_its_instant_on() {
    let deadline = at(100);
    assert!(!deadline.has_passed(at(99)));
    assert!(deadline.has_passed(at(100)));
    assert!(deadline.has_passed(at(101)));
    assert!(!at(-1).has_passed(at(-2)));
}

#[test]
fn remaining_counts_in_nanoseconds() {
    assert_eq!(Remaining::from_secs(10), Remaining { secs: 10, subsec_nanos: 0 });
    assert_eq!(Remaining::from_secs(10).total_nanos(), 10 * SECOND);
    assert_eq!(Remaining { secs: 2, subsec_nanos: 7 }.total_nanos(), 2_000_000_007);
    assert_eq!(Remaining::from_secs(u64::MAX).total_nanos(), u64::MAX as i128 * SECOND);
}

#[test]
fn instant_after_a_span() {
    assert_eq!(at(5).after(Remaining { secs: 1, subsec_nanos: 2 }), at(SECOND + 7));
    assert_eq!(at(-SECOND).after(Remaining::from_secs(1)), at(0));
    assert_eq!(at(i128::MAX).after(Remaining::from_secs(0)), at(i128::MAX));
}

#[test]
fn deadline_exceeded_says_so() {
    let ctx_free: Result<(), DeadlineExceededError> = {
        let mut table = tarpc::client::in_flight_requests::InFlightRequests::<()>::default();
        let (tx, mut rx) = tokio::sync::oneshot::channel();
        let mut ctx = current();
        ctx.deadline = at(0);
        table.insert_request(1, ctx, tracing::Span::none(), tx).unwrap();
        assert_eq!(table.poll_expired(at(0)), Some(1));
        rx.try_recv().unwrap()
    };
    let error = ctx_free.unwrap_err();
    assert_eq!(error.to_string(), "the request exceeded its deadline");
}
