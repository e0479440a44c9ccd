//! Points in time, and the clocks that they are read from.

use vstd::prelude::*;

use crate::duration::{length, magnitude, Duration, SignedDuration, MAX_NANOS, MAX_SIGNED_NANOS};

verus! {

/// How far from a clock's origin an [`Instant`] can be, either way, in
/// nanoseconds: more than twice the longest [`Duration`], so that every reading of a
/// clock is an instant, and so is what lies any duration before it.
pub const INSTANT_LIMIT: i128 = 36_893_488_147_419_103_232_000_000_000;

/// A point in time: its distance from the origin of the clock that it was read
/// from, in nanoseconds, negative if it lies before the origin. The view is that
/// number.
#[derive(Clone, Copy, Debug, PartialEq, Eq, Structural)]
pub struct Instant {
    nanos: i128,
}

impl View for Instant {
    type V = int;

    closed spec fn view(&self) -> int {
        self.nanos as int
    }
}

/// The time from `earlier` to `later`, or nothing if they are the wrong way round.
pub open spec fn elapsed_between(earlier: int, later: int) -> nat {
    if later >= earlier {
        (later - earlier) as nat
    } else {
        0
    }
}

impl Instant {
    /// The instant is within [`INSTANT_LIMIT`] of the origin.
    #[verifier::type_invariant]
    pub closed spec fn wf(self) -> bool {
        -INSTANT_LIMIT <= self.nanos <= INSTANT_LIMIT
    }

    /// The instant that lies `nanos` nanoseconds after the origin, or `None` if
    /// that is too far.
    pub fn from_nanos(nanos: i128) -> (r: Option<Instant>)
        ensures
            r is Some <==> -INSTANT_LIMIT <= nanos <= INSTANT_LIMIT,
            r matches Some(t) ==> t.wf() && t@ == nanos,
    {
        if -INSTANT_LIMIT <= nanos && nanos <= INSTANT_LIMIT {
            Some(Instant { nanos })
        } else {
            None
        }
    }

    /// The instant that lies `length` before this one, or `None` if that is too
    /// far from the origin.
    pub fn checked_sub(self, length: Duration) -> (r: Option<Instant>)
        ensures
            r is Some <==> self@ - length@ >= -INSTANT_LIMIT,
            r matches Some(t) ==> t.wf() && t@ == self@ - length@,
    {
        proof {
            use_type_invariant(self);
        }
        Instant::from_nanos(self.nanos - length.as_nanos() as i128)
    }

    /// The instant that lies `length` before this one, or after it where
    /// `length` is negative; `None` if that is too far from the origin.
    pub fn checked_sub_signed(self, length: SignedDuration) -> (r: Option<Instant>)
        ensures
            r is Some <==> -INSTANT_LIMIT <= self@ - length@ <= INSTANT_LIMIT,
            r matches Some(t) ==> t.wf() && t@ == self@ - length@,
    {
        proof {
            use_type_invariant(self);
        }
        let back: i128 = length.whole_seconds() as i128 * 1_000_000_000
            + length.subsec_nanoseconds() as i128;
        Instant::from_nanos(self.nanos - back)
    }

    /// The time that has passed from `earlier` to this instant: none, if
    /// `earlier` is the later one, and `None` where no duration is so long.
    pub fn duration_since(self, earlier: Instant) -> (r: Option<Duration>)
        ensures
            r is Some <==> elapsed_between(earlier@, self@) <= MAX_NANOS,
            r matches Some(d) ==> d.wf() && d@ == elapsed_between(earlier@, self@),
    {
        proof {
            use_type_invariant(self);
            use_type_invariant(earlier);
        }
        if self.nanos >= earlier.nanos {
            let count: i128 = self.nanos - earlier.nanos;
            Duration::from_nanos(count as u128)
        } else {
            Some(Duration::zero())
        }
    }

    /// The time from `other` to this instant, negative if `other` is later. `None`
    /// where the two are farther apart than the longest signed duration.
    pub fn signed_since(self, other: Instant) -> (r: Option<SignedDuration>)
        ensures
            r is Some <==> magnitude(self@ - other@) <= MAX_SIGNED_NANOS,
            r matches Some(d) ==> d.wf() && d@ == self@ - other@,
    {
        proof {
            use_type_invariant(self);
            use_type_invariant(other);
        }
        let count: i128 = self.nanos - other.nanos;
        if count < -MAX_SIGNED_NANOS {
            return None;
        }
        SignedDuration::from_nanos(count)
    }
}

#[verifier::external_type_specification]
#[verifier::external_body]
pub struct ExInstant(std::time::Instant);

/// `std::time::Instant::now`: the current reading of the monotonic clock. Nothing
/// is claimed of it.
pub assume_specification[ std::time::Instant::now ]() -> (r: std::time::Instant);

/// `std::time::Instant::elapsed`: the time that has passed since `origin`. It is
/// a duration, and nothing else is claimed of it.
#[verifier::external_body]
fn std_elapsed(origin: &std::time::Instant) -> (r: Duration)
    ensures
        r.wf(),
{
    let d = origin.elapsed();
    Duration { secs: d.as_secs(), nanos: d.subsec_nanos() }
}

/// `std::time::SystemTime::elapsed` on the Unix epoch: the time that has passed
/// since then by the system clock, or `None` where that clock is set to before
/// it. Nothing else is claimed of it.
#[verifier::external_body]
fn std_unix_elapsed() -> (r: Option<Duration>)
    ensures
        r matches Some(d) ==> d.wf(),
{
    match std::time::SystemTime::UNIX_EPOCH.elapsed() {
        Ok(d) => Some(Duration { secs: d.as_secs(), nanos: d.subsec_nanos() }),
        Err(_) => None,
    }
}

/// A monotonic clock. Its origin is the moment at which it was made.
pub struct Clock {
    origin: std::time::Instant,
}

/// Whether the system clock can give this Unix time, in nanoseconds: `None` stands for
/// a time before the Unix epoch.
pub closed spec fn unix_clock_reads(unix: Option<nat>) -> bool {
    exists|r: Option<Duration>| #[trigger]
        call_ensures(std_unix_elapsed, (), r) && length(r) == unix
}

/// No Unix time that the system clock gives is longer than a duration can be.
pub proof fn lemma_unix_clock_reads(unix: nat)
    requires
        unix_clock_reads(Some(unix)),
    ensures
        unix <= MAX_NANOS,
{
    let r = choose|r: Option<Duration>| #[trigger]
        call_ensures(std_unix_elapsed, (), r) && length(r) == Some(unix);
    r->0.lemma_bounded();
}

/// The Unix time by the system clock, or `None` where that clock is set to before the
/// Unix epoch.
pub fn unix_time() -> (r: Option<Duration>)
    ensures
        unix_clock_reads(length(r)),
        r matches Some(d) ==> d.wf(),
{
    std_unix_elapsed()
}

impl Clock {
    /// A clock with its origin now.
    pub fn new() -> Clock {
        Clock { origin: std::time::Instant::now() }
    }

    /// Whether the clock can give this reading: the time since its origin, in
    /// nanoseconds.
    pub closed spec fn reads(self, now: int) -> bool {
        exists|r: Duration| #[trigger] call_ensures(std_elapsed, (&self.origin,), r) && r@ == now
    }

    /// No reading lies before the origin, or farther from it than a duration can be
    /// long.
    pub proof fn lemma_reads(self, now: int)
        requires
            self.reads(now),
        ensures
            0 <= now <= MAX_NANOS,
    {
        let r = choose|r: Duration| #[trigger]
            call_ensures(std_elapsed, (&self.origin,), r) && r@ == now;
        r.lemma_bounded();
    }

    /// The time since the origin.
    pub fn elapsed(&self) -> (r: Duration)
        ensures
            self.reads(r@ as int),
            r.wf(),
    {
        std_elapsed(&self.origin)
    }

    /// The current instant. It does not lie before the origin.
    pub fn now(&self) -> (r: Instant)
        ensures
            self.reads(r@),
            r.wf(),
            0 <= r@ <= MAX_NANOS,
    {
        Instant { nanos: self.elapsed().as_nanos() as i128 }
    }
}

/// What lies a duration before an instant is exactly that duration before it, whichever way
/// the distance is taken; the other way round nothing has passed.
pub proof fn law_distance_is_what_was_taken_off(
    instant: Instant,
    length: Duration,
    before: Option<Instant>,
    passed: Option<Duration>,
    back: Option<Duration>,
    distance: Option<SignedDuration>,
)
    requires
        instant.wf(),
        length.wf(),
        call_ensures(Instant::checked_sub, (instant, length), before),
        before matches Some(before) ==> {
            &&& call_ensures(Instant::duration_since, (instant, before), passed)
            &&& call_ensures(Instant::duration_since, (before, instant), back)
            &&& call_ensures(Instant::signed_since, (before, instant), distance)
        },
    ensures
        instant@ >= 0 ==> before is Some,
        before is Some ==> {
            &&& before->0@ + length@ == instant@
            &&& passed is Some && passed->0@ == length@
            &&& back is Some && back->0@ == 0
            &&& length@ <= 9_223_372_036_854_775_807_999_999_999 ==> distance is Some
            &&& distance matches Some(d) ==> d@ == -length@
        },
{
    length.lemma_bounded();
}

/// Two instants at known distances from the origin are as far apart as those are.
pub proof fn law_instants_are_apart(
    a: i128,
    b: i128,
    first: Instant,
    second: Instant,
    passed: Option<Duration>,
    distance: Option<SignedDuration>,
    length: SignedDuration,
    before: Option<Instant>,
)
    requires
        call_ensures(Instant::from_nanos, (a,), Some(first)),
        call_ensures(Instant::from_nanos, (b,), Some(second)),
        call_ensures(Instant::duration_since, (second, first), passed),
        call_ensures(Instant::signed_since, (second, first), distance),
        call_ensures(Instant::checked_sub_signed, (second, length), before),
    ensures
        first@ == a,
        second@ == b,
        a <= b && b - a <= 18_446_744_073_709_551_615_999_999_999 ==> (passed matches Some(d) && d@
            == b - a),
        a > b ==> (passed matches Some(d) && d@ == 0),
        -9_223_372_036_854_775_807_999_999_999 <= b - a <= 9_223_372_036_854_775_807_999_999_999
            <==> distance is Some,
        distance matches Some(d) ==> d@ == b - a,
        before matches Some(t) ==> t@ + length@ == b,
        -36_000_000_000_000_000_000_000_000_000 <= b - length@
            <= 36_000_000_000_000_000_000_000_000_000 ==> before is Some,
{
}

/// What has elapsed is the difference, and nothing where the two are the wrong way round.
pub proof fn law_elapsed_between(earlier: int, length: nat)
    ensures
        elapsed_between(earlier, earlier + length) == length,
        elapsed_between(earlier + length, earlier) == 0,
{
}

/// An instant that is read now is a reading of the clock.
pub proof fn law_now_is_a_reading(clock: Clock, now: Instant, elapsed: Duration)
    requires
        call_ensures(Clock::now, (&clock,), now),
        call_ensures(Clock::elapsed, (&clock,), elapsed),
    ensures
        clock.reads(now@),
        clock.reads(elapsed@ as int),
        0 <= now@ <= 18_446_744_073_709_551_615_999_999_999,
{
}

} // verus!
