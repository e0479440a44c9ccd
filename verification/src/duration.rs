//! Lengths of time: [`Duration`], which is never negative, and
//! [`SignedDuration`], which may be.
//!
//! Both count whole nanoseconds. The view of a value is that count.

use vstd::prelude::*;

verus! {

/// The longest [`Duration`], in nanoseconds.
pub const MAX_NANOS: u128 = 18_446_744_073_709_551_615_999_999_999;

/// A length of time that is not negative: whole seconds, and nanoseconds below
/// one second.
#[derive(Clone, Copy, Debug, PartialEq, Eq, Structural)]
pub struct Duration {
    pub(crate) secs: u64,
    pub(crate) nanos: u32,
}

impl View for Duration {
    type V = nat;

    closed spec fn view(&self) -> nat {
        (self.secs * 1_000_000_000 + self.nanos) as nat
    }
}

impl Duration {
    /// The nanosecond part is below one second.
    #[verifier::type_invariant]
    pub closed spec fn wf(self) -> bool {
        self.nanos < 1_000_000_000
    }

    /// No duration is longer than [`MAX_NANOS`].
    pub proof fn lemma_bounded(self)
        requires
            self.wf(),
        ensures
            self@ <= MAX_NANOS,
    {
    }

    /// The duration of `secs` seconds and `nanos` nanoseconds. Nanoseconds
    /// beyond one second are carried over; `None` if the seconds overflow.
    pub fn new(secs: u64, nanos: u32) -> (r: Option<Duration>)
        ensures
            r is Some <==> secs * 1_000_000_000 + nanos <= MAX_NANOS,
            r matches Some(d) ==> d.wf() && d@ == secs * 1_000_000_000 + nanos,
    {
        Duration::from_nanos(secs as u128 * 1_000_000_000 + nanos as u128)
    }

    /// The duration of `count` nanoseconds, or `None` if there is none so long.
    pub fn from_nanos(count: u128) -> (r: Option<Duration>)
        ensures
            r is Some <==> count <= MAX_NANOS,
            r matches Some(d) ==> d.wf() && d@ == count,
    {
        if count <= MAX_NANOS {
            let per_sec: u128 = 1_000_000_000;
            Some(Duration { secs: (count / per_sec) as u64, nanos: (count % per_sec) as u32 })
        } else {
            None
        }
    }

    /// The empty duration.
    pub fn zero() -> (r: Duration)
        ensures
            r.wf(),
            r@ == 0,
    {
        Duration { secs: 0, nanos: 0 }
    }

    /// The whole seconds of the duration.
    pub fn as_secs(&self) -> (r: u64)
        ensures
            r == self@ / 1_000_000_000,
    {
        proof {
            use_type_invariant(self);
        }
        self.secs
    }

    /// What is left of the duration after its whole seconds, in nanoseconds.
    pub fn subsec_nanos(&self) -> (r: u32)
        ensures
            r == self@ % 1_000_000_000,
    {
        proof {
            use_type_invariant(self);
        }
        self.nanos
    }

    /// The whole duration in nanoseconds.
    pub fn as_nanos(&self) -> (r: u128)
        ensures
            r == self@,
            r <= MAX_NANOS,
            self.wf(),
    {
        proof {
            use_type_invariant(self);
        }
        self.secs as u128 * 1_000_000_000 + self.nanos as u128
    }

    /// The sum of two durations, or `None` if it is too long.
    pub fn checked_add(self, other: Duration) -> (r: Option<Duration>)
        ensures
            r is Some <==> self@ + other@ <= MAX_NANOS,
            r matches Some(d) ==> d.wf() && d@ == self@ + other@,
    {
        Duration::from_nanos(self.as_nanos() + other.as_nanos())
    }

    /// What is left of `self` without `other`, or `None` if `other` is longer.
    pub fn checked_sub(self, other: Duration) -> (r: Option<Duration>)
        ensures
            r is Some <==> self@ >= other@,
            r matches Some(d) ==> d.wf() && d@ == self@ - other@,
    {
        let (mine, theirs): (u128, u128) = (self.as_nanos(), other.as_nanos());
        if mine >= theirs {
            Duration::from_nanos(mine - theirs)
        } else {
            None
        }
    }

    /// One of `parts` equal parts of the duration, rounded down.
    pub fn div(self, parts: u32) -> (r: Duration)
        requires
            parts > 0,
        ensures
            r.wf(),
            r@ == self@ / parts as nat,
    {
        let count: u128 = self.as_nanos();
        let part: u128 = count / parts as u128;
        assert(part <= count) by (nonlinear_arith)
            requires
                part == count / parts as u128,
                parts > 0,
        ;
        let per_sec: u128 = 1_000_000_000;
        Duration { secs: (part / per_sec) as u64, nanos: (part % per_sec) as u32 }
    }
}

/// The length of a duration, if there is one.
pub open spec fn length(duration: Option<Duration>) -> Option<nat> {
    match duration {
        Some(duration) => Some(duration@),
        None => None,
    }
}

/// The longest negative [`SignedDuration`], in nanoseconds.
pub const MIN_SIGNED_NANOS: i128 = -9_223_372_036_854_775_808_999_999_999;

/// The longest positive [`SignedDuration`], in nanoseconds.
pub const MAX_SIGNED_NANOS: i128 = 9_223_372_036_854_775_807_999_999_999;

/// A length of time with a sign: whole seconds, and nanoseconds below one
/// second that have the sign of the seconds. It has the range of the duration
/// type of the `time` crate, which does its arithmetic.
#[derive(Clone, Copy, Debug, PartialEq, Eq, Structural)]
pub struct SignedDuration {
    secs: i64,
    nanos: i32,
}

impl View for SignedDuration {
    type V = int;

    closed spec fn view(&self) -> int {
        self.secs * 1_000_000_000 + self.nanos
    }
}

/// Whether a count of nanoseconds is one that a [`SignedDuration`] can have.
pub open spec fn in_signed_range(nanos: int) -> bool {
    MIN_SIGNED_NANOS <= nanos <= MAX_SIGNED_NANOS
}

/// The absolute value.
pub open spec fn magnitude(nanos: int) -> int {
    if nanos < 0 {
        -nanos
    } else {
        nanos
    }
}

/// Whether the difference of two durations is in range, and that of their whole
/// seconds fits an `i64` too. (The second follows from the first unless the whole
/// seconds of `b` are the least `i64`.)
pub open spec fn sub_fits(a: SignedDuration, b: SignedDuration) -> bool {
    &&& in_signed_range(a@ - b@)
    &&& i64::MIN <= a.seconds() - b.seconds() <= i64::MAX
}

impl SignedDuration {
    /// The nanosecond part is below one second, and the two parts are not of
    /// opposite sign.
    #[verifier::type_invariant]
    pub closed spec fn wf(self) -> bool {
        &&& -1_000_000_000 < self.nanos < 1_000_000_000
        &&& self.secs > 0 ==> self.nanos >= 0
        &&& self.secs < 0 ==> self.nanos <= 0
    }

    /// The seconds part: the count of nanoseconds over a thousand million,
    /// rounded towards zero.
    pub closed spec fn seconds(self) -> int {
        self.secs as int
    }

    /// Every duration is in range, and its whole seconds are the least `i64` only
    /// where its negative is not.
    pub proof fn lemma_bounded(self)
        requires
            self.wf(),
        ensures
            in_signed_range(self@),
            self.seconds() == i64::MIN <==> self@ < -MAX_SIGNED_NANOS,
    {
    }

    /// Unless the whole seconds of `other` are the least `i64`, a difference that
    /// is in range is one that can be computed.
    pub proof fn lemma_sub_fits(self, other: SignedDuration)
        requires
            self.wf(),
            other.wf(),
            other@ >= -MAX_SIGNED_NANOS,
        ensures
            sub_fits(self, other) <==> in_signed_range(self@ - other@),
    {
    }

    /// A difference that is in range can be computed, too, where `self` is not
    /// negative.
    pub proof fn lemma_sub_fits_from_positive(self, other: SignedDuration)
        requires
            self.wf(),
            other.wf(),
            self@ >= 0,
        ensures
            sub_fits(self, other) <==> in_signed_range(self@ - other@),
    {
    }

    /// The duration of `secs` seconds and `nanos` nanoseconds, if these are the
    /// parts of one: the nanoseconds are below one second, and the two are not
    /// of opposite sign.
    pub fn from_parts(secs: i64, nanos: i32) -> (r: Option<SignedDuration>)
        ensures
            r is Some <==> {
                &&& -1_000_000_000 < nanos < 1_000_000_000
                &&& secs > 0 ==> nanos >= 0
                &&& secs < 0 ==> nanos <= 0
            },
            r matches Some(d) ==> d.wf() && d@ == secs * 1_000_000_000 + nanos,
    {
        if -1_000_000_000 < nanos && nanos < 1_000_000_000 && !(secs > 0 && nanos < 0)
            && !(secs < 0 && nanos > 0) {
            Some(SignedDuration { secs, nanos })
        } else {
            None
        }
    }

    /// The empty duration.
    pub fn zero() -> (r: SignedDuration)
        ensures
            r.wf(),
            r@ == 0,
    {
        SignedDuration { secs: 0, nanos: 0 }
    }

    /// The duration of `secs` seconds.
    pub fn from_secs(secs: i64) -> (r: SignedDuration)
        ensures
            r.wf(),
            r@ == secs * 1_000_000_000,
    {
        SignedDuration { secs, nanos: 0 }
    }

    /// The whole seconds, rounded towards zero.
    pub fn whole_seconds(&self) -> (r: i64)
        ensures
            r == self.seconds(),
            magnitude(self@ - r * 1_000_000_000) < 1_000_000_000,
            r > 0 ==> self@ >= r * 1_000_000_000,
            r < 0 ==> self@ <= r * 1_000_000_000,
    {
        proof {
            use_type_invariant(self);
        }
        self.secs
    }

    /// What is left after the whole seconds, in nanoseconds, with the
    /// duration's sign.
    pub fn subsec_nanoseconds(&self) -> (r: i32)
        ensures
            self@ == self.seconds() * 1_000_000_000 + r,
    {
        self.nanos
    }

    /// Whether `self` is greater than `other`.
    pub fn exceeds(&self, other: &SignedDuration) -> (r: bool)
        ensures
            r == (self@ > other@),
    {
        proof {
            use_type_invariant(self);
            use_type_invariant(other);
        }
        self.secs > other.secs || (self.secs == other.secs && self.nanos > other.nanos)
    }

    /// The duration of `count` nanoseconds, or `None` if there is none so long.
    pub fn from_nanos(count: i128) -> (r: Option<SignedDuration>)
        ensures
            r is Some <==> in_signed_range(count as int),
            r matches Some(d) ==> d.wf() && d@ == count,
    {
        if count < MIN_SIGNED_NANOS || count > MAX_SIGNED_NANOS {
            return None;
        }
        if count >= 0 {
            let size: u128 = count as u128;
            Some(
                SignedDuration {
                    secs: (size / 1_000_000_000) as i64,
                    nanos: (size % 1_000_000_000) as i32,
                },
            )
        } else {
            let size: u128 = (-count) as u128;
            let secs: i128 = (size / 1_000_000_000) as i128;
            let nanos: i128 = (size % 1_000_000_000) as i128;
            Some(SignedDuration { secs: (-secs) as i64, nanos: (-nanos) as i32 })
        }
    }
}

/// `time::Duration::try_from` on a `std::time::Duration`: fails exactly when the
/// whole seconds do not fit an `i64`, and keeps the length otherwise.
#[verifier::external_body]
pub(crate) fn time_from_std(d: Duration) -> (r: Option<SignedDuration>)
    ensures
        r is Some <==> d@ <= MAX_SIGNED_NANOS,
        r matches Some(s) ==> s.wf() && s@ == d@,
{
    match time::Duration::try_from(std::time::Duration::new(d.secs, d.nanos)) {
        Ok(t) => Some(SignedDuration { secs: t.whole_seconds(), nanos: t.subsec_nanoseconds() }),
        Err(_) => None,
    }
}

/// `std::time::Duration::try_from` on a `time::Duration`: fails exactly when the
/// duration is negative, and keeps the length otherwise.
#[verifier::external_body]
pub(crate) fn std_from_time(s: SignedDuration) -> (r: Option<Duration>)
    ensures
        r is Some <==> s@ >= 0,
        r matches Some(d) ==> d.wf() && d@ == s@,
{
    match std::time::Duration::try_from(time::Duration::new(s.secs, s.nanos)) {
        Ok(d) => Some(Duration { secs: d.as_secs(), nanos: d.subsec_nanos() }),
        Err(_) => None,
    }
}

/// `time::Duration::checked_add`: the sum, or `None` exactly when it is out of
/// the type's range.
#[verifier::external_body]
pub(crate) fn time_checked_add(a: SignedDuration, b: SignedDuration) -> (r: Option<SignedDuration>)
    ensures
        r is Some <==> in_signed_range(a@ + b@),
        r matches Some(s) ==> s.wf() && s@ == a@ + b@,
{
    match time::Duration::new(a.secs, a.nanos).checked_add(time::Duration::new(b.secs, b.nanos)) {
        Some(t) => Some(SignedDuration { secs: t.whole_seconds(), nanos: t.subsec_nanoseconds() }),
        None => None,
    }
}

/// `time::Duration::checked_sub`: the difference, or `None` exactly when it, or
/// the difference of the whole seconds alone, is out of range.
#[verifier::external_body]
pub(crate) fn time_checked_sub(a: SignedDuration, b: SignedDuration) -> (r: Option<SignedDuration>)
    ensures
        r is Some <==> sub_fits(a, b),
        r matches Some(s) ==> s.wf() && s@ == a@ - b@,
{
    match time::Duration::new(a.secs, a.nanos).checked_sub(time::Duration::new(b.secs, b.nanos)) {
        Some(t) => Some(SignedDuration { secs: t.whole_seconds(), nanos: t.subsec_nanoseconds() }),
        None => None,
    }
}

/// `time::Duration::abs`: the absolute value, or the longest duration of the type
/// where the whole seconds have no absolute value that fits an `i64`.
#[verifier::external_body]
pub(crate) fn time_abs(a: SignedDuration) -> (r: SignedDuration)
    ensures
        r.wf(),
        r@ == if a.seconds() == i64::MIN { MAX_SIGNED_NANOS as int } else { magnitude(a@) },
{
    let t = time::Duration::new(a.secs, a.nanos).abs();
    SignedDuration { secs: t.whole_seconds(), nanos: t.subsec_nanoseconds() }
}

/// The parts of a duration make it up, and it is what it was made from.
pub proof fn law_parts_make_up_a_duration(
    secs: u64,
    nanos: u32,
    d: Option<Duration>,
    count: u128,
    counted: Option<Duration>,
    whole: u64,
    rest: u32,
    all: u128,
)
    requires
        call_ensures(Duration::new, (secs, nanos), d),
        call_ensures(Duration::from_nanos, (count,), counted),
        d matches Some(d) ==> {
            &&& call_ensures(Duration::as_secs, (&d,), whole)
            &&& call_ensures(Duration::subsec_nanos, (&d,), rest)
            &&& call_ensures(Duration::as_nanos, (&d,), all)
        },
    ensures
        nanos < 1_000_000_000 ==> d is Some,
        d is Some ==> {
            &&& whole * 1_000_000_000 + rest == secs * 1_000_000_000 + nanos
            &&& rest < 1_000_000_000
            &&& all == secs * 1_000_000_000 + nanos
        },
        counted is Some <==> count <= 18_446_744_073_709_551_615_999_999_999,
        counted matches Some(d) ==> d@ == count,
        d is Some && counted is Some && all == count ==> d == counted,
{
    if let (Some(a), Some(b)) = (d, counted) {
        if a@ == b@ {
            assert(a.secs == b.secs && a.nanos == b.nanos);
        }
    }
}

/// What was added can be taken off again, and taking a duration off itself leaves nothing.
pub proof fn law_sum_and_difference(
    a: Duration,
    b: Duration,
    sum: Option<Duration>,
    back: Option<Duration>,
    difference: Option<Duration>,
)
    requires
        call_ensures(Duration::checked_add, (a, b), sum),
        sum matches Some(sum) ==> call_ensures(Duration::checked_sub, (sum, b), back),
        call_ensures(Duration::checked_sub, (a, b), difference),
    ensures
        sum is Some <==> a@ + b@ <= 18_446_744_073_709_551_615_999_999_999,
        sum is Some ==> sum->0@ == a@ + b@ && back is Some && back->0@ == a@,
        difference is Some <==> a@ >= b@,
        difference matches Some(d) ==> d@ + b@ == a@,
{
}

/// As many times a part as there are parts is the whole, up to less than a nanosecond for
/// each.
pub proof fn law_parts_of_a_duration(whole: Duration, parts: u32, part: Duration)
    requires
        parts > 0,
        call_ensures(Duration::div, (whole, parts), part),
    ensures
        parts * part@ <= whole@ < parts * part@ + parts,
{
    let (n, m, p) = (whole@ as int, parts as int, part@ as int);
    assert(m * p <= n < m * p + m) by (nonlinear_arith)
        requires
            m > 0,
            n >= 0,
            p == n / m,
    ;
}

/// A signed duration is what it was made from, and its parts make it up; comparing two
/// compares what they were made from.
pub proof fn law_signed_durations(
    count: i128,
    d: Option<SignedDuration>,
    secs: i64,
    nanos: i32,
    made: Option<SignedDuration>,
    seconds: i64,
    whole: SignedDuration,
    first: SignedDuration,
    second: SignedDuration,
    exceeds: bool,
    whole_seconds: i64,
    rest: i32,
)
    requires
        call_ensures(SignedDuration::from_nanos, (count,), d),
        call_ensures(SignedDuration::from_parts, (secs, nanos), made),
        call_ensures(SignedDuration::from_secs, (seconds,), whole),
        call_ensures(SignedDuration::exceeds, (&first, &second), exceeds),
        call_ensures(SignedDuration::whole_seconds, (&first,), whole_seconds),
        call_ensures(SignedDuration::subsec_nanoseconds, (&first,), rest),
    ensures
        d is Some <==> -9_223_372_036_854_775_808_999_999_999 <= count
            <= 9_223_372_036_854_775_807_999_999_999,
        d matches Some(d) ==> d@ == count,
        made matches Some(d) ==> d@ == secs * 1_000_000_000 + nanos,
        made is Some <==> -1_000_000_000 < nanos < 1_000_000_000 && !(secs > 0 && nanos < 0) && !(
        secs < 0 && nanos > 0),
        whole@ == seconds * 1_000_000_000,
        exceeds <==> first@ > second@,
        whole_seconds * 1_000_000_000 + rest == first@,
        -1_000_000_000 < rest < 1_000_000_000,
{
}

/// The absolute value is not negative, and is the number or its opposite.
pub proof fn law_magnitude(n: int)
    ensures
        magnitude(n) >= 0,
        magnitude(n) == n || magnitude(n) == -n,
{
}

/// The empty durations are empty.
pub proof fn law_empty_durations(d: Duration, signed: SignedDuration)
    requires
        call_ensures(Duration::zero, (), d),
        call_ensures(SignedDuration::zero, (), signed),
    ensures
        d@ == 0,
        signed@ == 0,
{
}

} // verus!
