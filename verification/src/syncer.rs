//! Agreeing with a server on what time it is.

use vstd::prelude::*;

use crate::clock::{elapsed_between, unix_clock_reads, unix_time, Clock};
use crate::duration::{length, std_from_time, time_checked_add, time_checked_sub, time_from_std, Duration,
    SignedDuration, MAX_NANOS, MAX_SIGNED_NANOS};

verus! {

/// How many round-trip times are kept.
pub const MAX_SAMPLES: usize = 10;

/// The sum of all the numbers of a sequence.
pub open spec fn total(samples: Seq<nat>) -> nat
    decreases samples.len(),
{
    if samples.len() == 0 {
        0
    } else {
        total(samples.drop_last()) + samples.last()
    }
}

/// The mean of a sequence of numbers, rounded down.
pub open spec fn mean(samples: Seq<nat>) -> nat {
    total(samples) / samples.len()
}

/// What a [`TimeSyncer`] knows, in nanoseconds.
pub struct SyncState {
    /// The Unix epoch, on the syncer's own clock.
    pub epoch: int,
    /// How far the server's time is ahead of the time since `epoch`.
    pub offset: int,
    /// When the last round trip began, on the syncer's own clock.
    pub sync_start: int,
    /// The latest round-trip times, the newest first.
    pub samples: Seq<nat>,
}

/// The state of a new syncer that takes `now` on its clock and the Unix time
/// `unix` for the same moment.
pub open spec fn fresh(now: int, unix: nat, sync_start: int) -> SyncState {
    SyncState { epoch: now - unix, offset: 0, sync_start, samples: Seq::empty() }
}

impl SyncState {
    /// What holds of the state at all times: the server's time is never behind,
    /// and no more than [`MAX_SAMPLES`] round trips are remembered.
    pub open spec fn inv(self) -> bool {
        &&& 0 <= self.offset <= MAX_SIGNED_NANOS
        &&& self.samples.len() <= MAX_SAMPLES
    }

    /// The state when a round trip begins at `now`, at the Unix time `unix`.
    pub open spec fn started(self, now: int, unix: nat) -> SyncState {
        SyncState { epoch: now - unix, sync_start: now, ..self }
    }

    /// The Unix time at which the last round trip began, by the syncer's clock.
    pub open spec fn local_start(self) -> nat {
        elapsed_between(self.epoch, self.sync_start)
    }

    /// The samples with that of a round trip that ends at `now` put first, and
    /// the oldest dropped.
    pub open spec fn samples_at(self, now: int) -> Seq<nat> {
        let all = seq![elapsed_between(self.sync_start, now)] + self.samples;
        if all.len() > MAX_SAMPLES {
            all.take(MAX_SAMPLES as int)
        } else {
            all
        }
    }

    /// The offset that follows from a round trip that ends at `now` with the
    /// server's time `since_epoch`: how far that time is ahead of the start of
    /// the round trip, and half the mean round-trip time.
    pub open spec fn offset_at(self, now: int, since_epoch: nat) -> int {
        since_epoch - self.local_start() + mean(self.samples_at(now)) / 2
    }

    /// Whether that offset can be computed: the server's time is not before the
    /// start of the round trip, and nothing is too long.
    pub open spec fn can_finish(self, now: int, since_epoch: nat) -> bool {
        &&& total(self.samples_at(now)) <= MAX_NANOS
        &&& since_epoch >= self.local_start()
        &&& self.offset_at(now, since_epoch) <= MAX_SIGNED_NANOS
    }

    /// The state after a round trip that ends at `now` with the server's time
    /// `since_epoch`. Where the offset cannot be computed, it stays.
    pub open spec fn finished(self, now: int, since_epoch: nat) -> SyncState {
        SyncState {
            samples: self.samples_at(now),
            offset: if self.can_finish(now, since_epoch) {
                self.offset_at(now, since_epoch)
            } else {
                self.offset
            },
            ..self
        }
    }

    /// The server's time at the instant `now`.
    pub open spec fn server_time(self, now: int) -> int {
        elapsed_between(self.epoch, now) + self.offset
    }

    /// The server's time at `now`, where a duration can hold it.
    pub open spec fn time_at(self, now: int) -> Option<nat> {
        if self.server_time(now) <= MAX_SIGNED_NANOS {
            Some(self.server_time(now) as nat)
        } else {
            None
        }
    }

    /// The time from `timestamp` to `now` on the server, nothing if `timestamp`
    /// is later; `None` where either is too long.
    pub open spec fn since_at(self, now: int, timestamp: nat) -> Option<nat> {
        if self.server_time(now) <= MAX_SIGNED_NANOS && timestamp <= MAX_SIGNED_NANOS {
            Some(elapsed_between(timestamp as int, self.server_time(now)))
        } else {
            None
        }
    }
}

/// Keeps track of a server's time.
///
/// It notes when it asks the server for its time, and on the answer estimates from
/// the round-trip times how far the server's time is ahead of its own.
pub struct TimeSyncer {
    clock: Clock,
    /// The Unix epoch: nanoseconds after the clock's origin.
    epoch: i128,
    offset: SignedDuration,
    /// When the last round trip began: the time since the clock's origin.
    sync_start: Duration,
    rtt_samples: Vec<Duration>,
}

/// The lengths of the durations of a sequence.
pub open spec fn lengths(samples: Seq<Duration>) -> Seq<nat> {
    samples.map_values(|d: Duration| d@)
}

impl View for TimeSyncer {
    type V = SyncState;

    closed spec fn view(&self) -> SyncState {
        SyncState {
            epoch: self.epoch as int,
            offset: self.offset@,
            sync_start: self.sync_start@ as int,
            samples: lengths(self.rtt_samples@),
        }
    }
}

/// The sum of the samples, in nanoseconds.
fn sum_nanos(samples: &Vec<Duration>) -> (r: u128)
    requires
        samples.len() <= MAX_SAMPLES,
    ensures
        r == total(lengths(samples@)),
{
    let mut sum: u128 = 0;
    let mut i: usize = 0;
    while i < samples.len()
        invariant
            i <= samples.len() <= MAX_SAMPLES,
            sum == total(lengths(samples@).take(i as int)),
            sum <= i * MAX_NANOS,
        decreases samples.len() - i,
    {
        let ghost before = lengths(samples@).take(i as int);
        let ghost after = lengths(samples@).take(i + 1);
        assert(after.drop_last() =~= before);
        assert(after.last() == samples@[i as int]@);
        let next: u128 = samples[i].as_nanos();
        sum = sum + next;
        i = i + 1;
    }
    assert(lengths(samples@).take(i as int) =~= lengths(samples@));
    sum
}

impl TimeSyncer {
    /// The clock that the syncer reads.
    pub closed spec fn clock(self) -> Clock {
        self.clock
    }

    /// The state is one that a syncer can have.
    #[verifier::type_invariant]
    pub closed spec fn wf(self) -> bool {
        &&& self@.inv()
        &&& -MAX_NANOS <= self.epoch <= MAX_NANOS
        &&& self.offset.wf()
        &&& self.sync_start.wf()
    }

    /// A syncer on `clock` that takes the reading `now` of that clock and the Unix
    /// time `unix` to be the same moment. It believes the server's time to be the
    /// Unix time. There is none if there is no Unix time.
    pub fn new_at(
        clock: Clock,
        now: Duration,
        unix: Option<Duration>,
        sync_start: Duration,
    ) -> (r: Option<TimeSyncer>)
        ensures
            r is Some <==> unix is Some,
            r matches Some(s) ==> s.wf() && s.clock() == clock && s@ == fresh(
                now@ as int,
                unix->0@,
                sync_start@ as int,
            ),
    {
        proof {
            use_type_invariant(sync_start);
        }
        let rtt_samples: Vec<Duration> = Vec::with_capacity(MAX_SAMPLES);
        assert(lengths(rtt_samples@) =~= Seq::empty());
        match unix {
            Some(unix) => {
                let epoch: i128 = now.as_nanos() as i128 - unix.as_nanos() as i128;
                Some(
                    TimeSyncer {
                        clock,
                        epoch,
                        offset: SignedDuration::zero(),
                        sync_start,
                        rtt_samples,
                    },
                )
            },
            None => None,
        }
    }

    /// Begins a round trip at the reading `now`, at the Unix time `unix`. Returns
    /// whether that was possible: there must be a Unix time. Otherwise nothing
    /// changes.
    pub fn start_sync_at(&mut self, now: Duration, unix: Option<Duration>) -> (r: bool)
        ensures
            r <==> unix is Some,
            r ==> final(self)@ == old(self)@.started(now@ as int, unix->0@),
            !r ==> final(self)@ == old(self)@,
            final(self).clock() == old(self).clock(),
    {
        proof {
            use_type_invariant(&*self);
            use_type_invariant(now);
        }
        match unix {
            Some(unix) => {
                let epoch: i128 = now.as_nanos() as i128 - unix.as_nanos() as i128;
                self.sync_start = now;
                self.epoch = epoch;
                true
            },
            None => false,
        }
    }

    /// The time from the Unix epoch to the reading `at`: `None` where it is too
    /// long.
    fn since_epoch(&self, at: Duration) -> (r: Option<Duration>)
        ensures
            r is Some <==> elapsed_between(self@.epoch, at@ as int) <= MAX_NANOS,
            r matches Some(d) ==> d.wf() && d@ == elapsed_between(self@.epoch, at@ as int),
    {
        proof {
            use_type_invariant(self);
        }
        let at: i128 = at.as_nanos() as i128;
        if at >= self.epoch {
            Duration::from_nanos((at - self.epoch) as u128)
        } else {
            Some(Duration::zero())
        }
    }

    /// Ends the round trip at the reading `now`, with the server's time
    /// `since_epoch`. Returns whether the offset could be computed; where it could
    /// not, it stays.
    pub fn finish_sync_at(&mut self, now: Duration, since_epoch: Duration) -> (r: bool)
        ensures
            r <==> old(self)@.can_finish(now@ as int, since_epoch@),
            final(self)@ == old(self)@.finished(now@ as int, since_epoch@),
            final(self).clock() == old(self).clock(),
    {
        proof {
            use_type_invariant(&*self);
            use_type_invariant(since_epoch);
            since_epoch.lemma_bounded();
        }
        let mut samples: Vec<Duration> = Vec::new();
        std::mem::swap(&mut samples, &mut self.rtt_samples);
        let rtt = match now.checked_sub(self.sync_start) {
            Some(rtt) => rtt,
            None => Duration::zero(),
        };
        samples.insert(0, rtt);
        samples.truncate(MAX_SAMPLES);
        assert(lengths(samples@) =~= old(self)@.samples_at(now@ as int));
        let sum: u128 = sum_nanos(&samples);
        let count: usize = samples.len();
        self.rtt_samples = samples;

        let sum = match Duration::from_nanos(sum) {
            Some(sum) => sum,
            None => return false,
        };
        let avg_rtt = sum.div(count as u32);
        let local_start = match self.since_epoch(self.sync_start) {
            Some(local_start) => local_start,
            None => return false,
        };
        let ahead = match since_epoch.checked_sub(local_start) {
            Some(ahead) => ahead,
            None => return false,
        };
        let offset = match ahead.checked_add(avg_rtt.div(2)) {
            Some(offset) => offset,
            None => return false,
        };
        match time_from_std(offset) {
            Some(offset) => {
                self.offset = offset;
                true
            },
            None => false,
        }
    }

    /// The server's time at the reading `now` as a signed duration: `None` where it
    /// is too long.
    fn server_time_at(&self, now: Duration) -> (r: Option<SignedDuration>)
        ensures
            r is Some <==> self@.server_time(now@ as int) <= MAX_SIGNED_NANOS,
            r matches Some(t) ==> t.wf() && t@ == self@.server_time(now@ as int) && t@ >= 0,
    {
        proof {
            use_type_invariant(self);
        }
        match self.since_epoch(now) {
            Some(elapsed) => match time_from_std(elapsed) {
                Some(elapsed) => time_checked_add(elapsed, self.offset),
                None => None,
            },
            None => None,
        }
    }

    /// The time from `timestamp` to the reading `now` on the server, nothing if
    /// `timestamp` is later; `None` where either is too long.
    pub fn since_at(&self, now: Duration, timestamp: Duration) -> (r: Option<Duration>)
        ensures
            length(r) == self@.since_at(now@ as int, timestamp@),
            r matches Some(d) ==> d.wf(),
    {
        let time = match self.server_time_at(now) {
            Some(time) => time,
            None => return None,
        };
        let timestamp = match time_from_std(timestamp) {
            Some(timestamp) => timestamp,
            None => return None,
        };
        proof {
            time.lemma_sub_fits(timestamp);
        }
        match time_checked_sub(time, timestamp) {
            Some(age) => match std_from_time(age) {
                Some(age) => Some(age),
                None => Some(Duration::zero()),
            },
            None => None,
        }
    }

    /// The server's time at the reading `now`; `None` where it is too long.
    pub fn now_at(&self, now: Duration) -> (r: Option<Duration>)
        ensures
            length(r) == self@.time_at(now@ as int),
            r matches Some(d) ==> d.wf(),
    {
        match self.server_time_at(now) {
            Some(time) => std_from_time(time),
            None => None,
        }
    }

    /// A syncer on a clock of its own that believes the server's time to be the Unix
    /// time by the system clock. There is none if that clock is set to before the Unix
    /// epoch, and only then.
    pub fn new() -> (r: Option<TimeSyncer>)
        ensures
            r is None ==> unix_clock_reads(None),
            r matches Some(s) ==> s.wf() && call_ensures(Clock::new, (), s.clock()),
            r matches Some(s) ==> exists|now: int, unix: nat, start: int|
                s.clock().reads(now) && unix_clock_reads(Some(unix)) && s.clock().reads(start) && s@
                    == (#[trigger] fresh(now, unix, start)),
    {
        let clock = Clock::new();
        let now = clock.elapsed();
        let unix = unix_time();
        let start = clock.elapsed();
        proof {
            if let Some(unix) = unix {
                let _ = fresh(now@ as int, unix@, start@ as int);
            }
        }
        TimeSyncer::new_at(clock, now, unix, start)
    }

    /// Begins a round trip now. Returns whether that was possible: the system
    /// clock must not be set to before the Unix epoch. Otherwise nothing changes.
    pub fn start_sync(&mut self) -> (r: bool)
        ensures
            r ==> exists|now: int, unix: nat|
                old(self).clock().reads(now) && unix_clock_reads(Some(unix)) && final(self)@ == (
                #[trigger] old(self)@.started(now, unix)),
            !r ==> unix_clock_reads(None) && final(self)@ == old(self)@,
            final(self).clock() == old(self).clock(),
    {
        let now = self.clock.elapsed();
        let unix = unix_time();
        proof {
            if let Some(unix) = unix {
                let _ = old(self)@.started(now@ as int, unix@);
            }
        }
        self.start_sync_at(now, unix)
    }

    /// Ends the round trip now, with the server's time `since_epoch`. Returns
    /// whether the offset could be computed; where it could not, it stays. The
    /// duration of the round trip is remembered either way.
    pub fn finish_sync(&mut self, since_epoch: Duration) -> (r: bool)
        ensures
            exists|now: int|
                old(self).clock().reads(now) && final(self)@ == (#[trigger] old(self)@.finished(
                    now,
                    since_epoch@,
                )) && r == old(self)@.can_finish(now, since_epoch@),
            final(self).clock() == old(self).clock(),
    {
        let now = self.clock.elapsed();
        proof {
            let _ = old(self)@.finished(now@ as int, since_epoch@);
        }
        self.finish_sync_at(now, since_epoch)
    }

    /// The time that has passed on the server since `timestamp`, nothing if that
    /// is yet to come; `None` where `timestamp` or the server's time is too long.
    pub fn since(&self, timestamp: Duration) -> (r: Option<Duration>)
        ensures
            exists|now: int|
                self.clock().reads(now) && length(r) == (#[trigger] self@.since_at(
                    now,
                    timestamp@,
                )),
            r matches Some(d) ==> d.wf(),
    {
        let now = self.clock.elapsed();
        proof {
            let _ = self@.since_at(now@ as int, timestamp@);
        }
        self.since_at(now, timestamp)
    }

    /// The server's time now; `None` where it is too long.
    pub fn now(&self) -> (r: Option<Duration>)
        ensures
            exists|now: int|
                self.clock().reads(now) && length(r) == (#[trigger] self@.time_at(now)),
            r matches Some(d) ==> d.wf(),
    {
        let now = self.clock.elapsed();
        proof {
            let _ = self@.time_at(now@ as int);
        }
        self.now_at(now)
    }
}

/// Every syncer is in a state that satisfies the invariant.
pub proof fn law_syncer_invariant(syncer: TimeSyncer)
    requires
        syncer.wf(),
    ensures
        syncer@.inv(),
{
}

/// A new syncer, a round trip that begins and one that ends keep the invariant: at
/// no time are there more than [`MAX_SAMPLES`] samples, or a negative offset.
pub proof fn law_invariant(state: SyncState, now: int, unix: nat, start: int, since_epoch: nat)
    requires
        state.inv(),
    ensures
        fresh(now, unix, start).inv(),
        state.started(now, unix).inv(),
        state.finished(now, since_epoch).inv(),
{
}

/// The end of a round trip puts its duration before the samples that there were,
/// of which only the oldest is dropped, and only where there would be too many.
pub proof fn law_newest_sample_first(state: SyncState, now: int, since_epoch: nat)
    requires
        state.inv(),
    ensures
        ({
            let after = state.finished(now, since_epoch).samples;
            &&& after.len() == if state.samples.len() < MAX_SAMPLES {
                state.samples.len() + 1
            } else {
                MAX_SAMPLES as nat
            }
            &&& after[0] == elapsed_between(state.sync_start, now)
            &&& forall|i: int| 1 <= i < after.len() ==> after[i] == state.samples[i - 1]
        }),
{
}

/// After a round trip that began at `start` and brought the server's time
/// `since_epoch`, the syncer's time runs on from `since_epoch` plus half the mean
/// round-trip time, counted from `start`. The system clock has no part in it.
pub proof fn law_time_follows_server(
    state: SyncState,
    start: int,
    unix: nat,
    end: int,
    since_epoch: nat,
    now: int,
)
    requires
        state.started(start, unix).can_finish(end, since_epoch),
        now >= start - unix,
    ensures
        state.started(start, unix).finished(end, since_epoch).server_time(now) == since_epoch + mean(
            state.started(start, unix).samples_at(end),
        ) / 2 + (now - start),
{
}

/// Between two synchronisations the syncer's time advances with the clock, and
/// never goes back.
pub proof fn law_time_advances(state: SyncState, earlier: int, later: int)
    requires
        earlier <= later,
    ensures
        state.server_time(earlier) <= state.server_time(later),
        state.epoch <= earlier ==> state.server_time(later) == state.server_time(earlier) + (later
            - earlier),
{
}

/// The time since a timestamp that the syncer itself gave is the time that has
/// passed between the two readings of the clock.
pub proof fn law_since_own_timestamp(state: SyncState, stamped: int, now: int)
    requires
        state.inv(),
        state.epoch <= stamped <= now,
        state.time_at(now) is Some,
    ensures
        state.time_at(stamped) is Some,
        state.since_at(now, state.time_at(stamped)->0) == Some((now - stamped) as nat),
{
}

/// The time since a timestamp of the future is nothing.
pub proof fn law_since_future_timestamp(state: SyncState, now: int, timestamp: nat)
    requires
        state.inv(),
        state.since_at(now, timestamp) is Some,
        timestamp >= state.server_time(now),
    ensures
        state.since_at(now, timestamp) == Some(0nat),
{
}

/// The total is the sum: nothing of nothing, one number more adds exactly that number,
/// and the total of two sequences is that of one and that of the other.
pub proof fn law_total_adds_up(samples: Seq<nat>, next: nat, more: Seq<nat>)
    ensures
        total(Seq::empty()) == 0,
        total(samples.push(next)) == total(samples) + next,
        total(samples + more) == total(samples) + total(more),
        total(samples) == samples.fold_left(0int, |sum: int, n: nat| sum + n),
    decreases more.len() + samples.len(),
{
    assert(samples.push(next).drop_last() =~= samples);
    if more.len() == 0 {
        assert(samples + more =~= samples);
        assert(total(more) == 0);
    } else {
        law_total_adds_up(samples, next, more.drop_last());
        assert((samples + more).drop_last() =~= samples + more.drop_last());
    }
    if samples.len() > 0 {
        law_total_adds_up(samples.drop_last(), next, Seq::empty());
    }
}

/// Numbers between two bounds have a total between as many times the bounds.
proof fn lemma_total_bounds(samples: Seq<nat>, least: nat, greatest: nat)
    requires
        forall|i: int| 0 <= i < samples.len() ==> least <= #[trigger] samples[i] <= greatest,
    ensures
        samples.len() * least <= total(samples) <= samples.len() * greatest,
    decreases samples.len(),
{
    if samples.len() > 0 {
        let start = samples.drop_last();
        assert forall|i: int| 0 <= i < start.len() implies least <= #[trigger] start[i]
            <= greatest by {
            assert(start[i] == samples[i]);
        }
        lemma_total_bounds(start, least, greatest);
        assert(least <= samples[samples.len() - 1] <= greatest);
        let n = start.len();
        assert((n + 1) * least == n * least + least) by (nonlinear_arith);
        assert((n + 1) * greatest == n * greatest + greatest) by (nonlinear_arith);
    }
}

/// The mean, as many times as there are numbers, is their sum, up to what the rounding
/// loses. It lies between the least and the greatest of them; where they are all the
/// same, it is that number.
pub proof fn law_mean_is_in_the_middle(samples: Seq<nat>, least: nat, greatest: nat)
    requires
        samples.len() > 0,
        forall|i: int| 0 <= i < samples.len() ==> least <= #[trigger] samples[i] <= greatest,
    ensures
        least <= mean(samples) <= greatest,
        samples.len() * mean(samples) <= samples.fold_left(0int, |sum: int, n: nat| sum + n),
        samples.fold_left(0int, |sum: int, n: nat| sum + n) < samples.len() * mean(samples)
            + samples.len(),
{
    lemma_total_bounds(samples, least, greatest);
    law_total_adds_up(samples, 0, Seq::empty());
    let (sum, n, m) = (total(samples) as int, samples.len() as int, mean(samples) as int);
    assert(n * m <= sum < n * m + n) by (nonlinear_arith)
        requires
            n > 0,
            sum >= 0,
            m == sum / n,
    ;
    assert(least <= m <= greatest) by (nonlinear_arith)
        requires
            n > 0,
            n * m <= sum < n * m + n,
            n * least <= sum <= n * greatest,
    ;
}

/// A new syncer's time at its first reading is the Unix time, and runs on from there.
pub proof fn law_new_syncer_has_unix_time(
    clock: Clock,
    first: Duration,
    unix: Duration,
    start: Duration,
    syncer: TimeSyncer,
    now: Duration,
    time: Option<Duration>,
)
    requires
        call_ensures(TimeSyncer::new_at, (clock, first, Some(unix), start), Some(syncer)),
        call_ensures(TimeSyncer::now_at, (&syncer, now), time),
        first@ <= now@,
    ensures
        syncer.clock() == clock,
        syncer@.sync_start == start@,
        syncer@.samples.len() == 0,
        time is Some <==> unix@ + (now@ - first@) <= 9_223_372_036_854_775_807_999_999_999,
        time matches Some(time) ==> time@ == unix@ + (now@ - first@),
{
}

/// The end of a round trip is remembered, whatever comes of it: its duration is the newest
/// sample, those that there were follow, and at most ten are kept.
pub proof fn law_ten_round_trips_are_kept(
    syncer: &mut TimeSyncer,
    now: Duration,
    since_epoch: Duration,
    r: bool,
)
    requires
        call_ensures(TimeSyncer::finish_sync_at, (syncer, now, since_epoch), r),
        old(syncer)@.samples.len() <= 10,
    ensures
        ({
            let (before, after) = (old(syncer)@, final(syncer)@);
            &&& after.samples.len() == if before.samples.len() < 10 {
                before.samples.len() + 1
            } else {
                10
            }
            &&& before.sync_start <= now@ ==> after.samples[0] == now@ - before.sync_start
            &&& before.sync_start > now@ ==> after.samples[0] == 0
            &&& forall|i: int| 1 <= i < after.samples.len() ==> after.samples[i] == before.samples[i
                - 1]
            &&& after.epoch == before.epoch
            &&& after.sync_start == before.sync_start
            &&& !r ==> after.offset == before.offset
            &&& final(syncer).clock() == old(syncer).clock()
        }),
{
}

/// Where all the kept round trips took between `least` and `greatest`, the syncer's time is
/// what the server answered, and as much more as has passed since the round trip began,
/// and half of something between `least` and `greatest`. The Unix time has no part in it.
pub proof fn law_estimate_of_server_time(
    begun: &mut TimeSyncer,
    begin: Duration,
    unix: Duration,
    ended: &mut TimeSyncer,
    end: Duration,
    server: Duration,
    syncer: TimeSyncer,
    now: Duration,
    time: Duration,
    least: nat,
    greatest: nat,
)
    requires
        old(begun)@.samples.len() <= 10,
        call_ensures(TimeSyncer::start_sync_at, (begun, begin, Some(unix)), true),
        *old(ended) == *final(begun),
        call_ensures(TimeSyncer::finish_sync_at, (ended, end, server), true),
        syncer == *final(ended),
        call_ensures(TimeSyncer::now_at, (&syncer, now), Some(time)),
        begin@ <= end@,
        begin@ <= now@,
        least <= end@ - begin@ <= greatest,
        forall|i: int|
            0 <= i < old(begun)@.samples.len() && i < 9 ==> least <= #[trigger] old(
                begun,
            )@.samples[i] <= greatest,
    ensures
        server@ + least / 2 + (now@ - begin@) <= time@,
        time@ <= server@ + greatest / 2 + (now@ - begin@),
{
    let kept = syncer@.samples;
    assert forall|i: int| 0 <= i < kept.len() implies least <= #[trigger] kept[i] <= greatest by {
        if i > 0 {
            assert(kept[i] == old(begun)@.samples[i - 1]);
        }
    }
    law_mean_is_in_the_middle(kept, least, greatest);
}

/// The first round trip of a syncer succeeds exactly where the server is not behind and no
/// time is too long. Then the syncer's time is what the server answered, and half the
/// round trip, and as much more as has passed since the round trip began.
pub proof fn law_first_round_trip(
    begun: &mut TimeSyncer,
    begin: Duration,
    unix: Duration,
    ended: &mut TimeSyncer,
    end: Duration,
    server: Duration,
    r: bool,
    syncer: TimeSyncer,
    now: Duration,
    time: Option<Duration>,
)
    requires
        begin.wf(),
        end.wf(),
        old(begun)@.samples.len() == 0,
        call_ensures(TimeSyncer::start_sync_at, (begun, begin, Some(unix)), true),
        *old(ended) == *final(begun),
        call_ensures(TimeSyncer::finish_sync_at, (ended, end, server), r),
        syncer == *final(ended),
        call_ensures(TimeSyncer::now_at, (&syncer, now), time),
        begin@ <= end@,
        begin@ <= now@,
    ensures
        r <==> server@ >= unix@ && (server@ - unix@) + (end@ - begin@) / 2
            <= 9_223_372_036_854_775_807_999_999_999,
        r ==> (time is Some <==> server@ + (end@ - begin@) / 2 + (now@ - begin@)
            <= 9_223_372_036_854_775_807_999_999_999),
        r && time is Some ==> time->0@ == server@ + (end@ - begin@) / 2 + (now@ - begin@),
{
    let rtt = (end@ - begin@) as nat;
    let kept = syncer@.samples;
    assert(kept =~= seq![rtt]);
    law_mean_is_in_the_middle(kept, rtt, rtt);
    law_total_adds_up(Seq::empty(), rtt, Seq::empty());
    assert(Seq::<nat>::empty().push(rtt) =~= kept);
    end.lemma_bounded();
}

/// A round trip that begins keeps what is known of earlier ones. At its reading the
/// syncer's time is the Unix time and what the server is known to be ahead.
pub proof fn law_begun_round_trip(
    syncer: &mut TimeSyncer,
    begin: Duration,
    unix: Option<Duration>,
    r: bool,
    now: Duration,
    time: Option<Duration>,
)
    requires
        final(syncer).wf(),
        call_ensures(TimeSyncer::start_sync_at, (syncer, begin, unix), r),
        call_ensures(TimeSyncer::now_at, (&*final(syncer), now), time),
    ensures
        r <==> unix is Some,
        final(syncer)@.samples == old(syncer)@.samples,
        final(syncer)@.offset == old(syncer)@.offset,
        final(syncer).clock() == old(syncer).clock(),
        !r ==> final(syncer)@ == old(syncer)@,
        r ==> final(syncer)@.sync_start == begin@,
        r && begin@ <= now@ && time is Some ==> time->0@ == unix->0@ + old(syncer)@.offset + (now@
            - begin@),
{
}

/// The age of a timestamp is how far the syncer's time is past it, and nothing where it is
/// not: whenever there is a time, every timestamp that is not too long has an age.
pub proof fn law_age_is_difference(
    syncer: TimeSyncer,
    now: Duration,
    time: Option<Duration>,
    timestamp: Duration,
    age: Option<Duration>,
)
    requires
        syncer.wf(),
        call_ensures(TimeSyncer::now_at, (&syncer, now), time),
        call_ensures(TimeSyncer::since_at, (&syncer, now, timestamp), age),
    ensures
        age is Some <==> time is Some && timestamp@ <= 9_223_372_036_854_775_807_999_999_999,
        age is Some && timestamp@ <= time->0@ ==> age->0@ == time->0@ - timestamp@,
        age is Some && timestamp@ > time->0@ ==> age->0@ == 0,
{
}

/// The syncer's time advances exactly as its clock does.
pub proof fn law_time_runs_with_the_clock(
    syncer: TimeSyncer,
    earlier: Duration,
    then: Duration,
    later: Duration,
    now: Option<Duration>,
)
    requires
        syncer.wf(),
        call_ensures(TimeSyncer::now_at, (&syncer, earlier), Some(then)),
        call_ensures(TimeSyncer::now_at, (&syncer, later), now),
        syncer@.epoch <= earlier@ <= later@,
    ensures
        now is Some <==> then@ + (later@ - earlier@) <= 9_223_372_036_854_775_807_999_999_999,
        now matches Some(now) ==> now@ == then@ + (later@ - earlier@),
{
}

/// What the syncer says now, and of the age of a timestamp now, is what it says of some
/// reading of its clock.
pub proof fn law_now_is_a_reading(
    syncer: TimeSyncer,
    time: Option<Duration>,
    timestamp: Duration,
    age: Option<Duration>,
)
    requires
        syncer.wf(),
        call_ensures(TimeSyncer::now, (&syncer,), time),
        call_ensures(TimeSyncer::since, (&syncer, timestamp), age),
    ensures
        time matches Some(time) ==> exists|now: int| #[trigger]
            syncer.clock().reads(now) && time@ == syncer@.offset + if now >= syncer@.epoch {
                now - syncer@.epoch
            } else {
                0
            },
        age matches Some(age) ==> exists|now: int| #[trigger]
            syncer.clock().reads(now) && ({
                let time = syncer@.offset + if now >= syncer@.epoch {
                    now - syncer@.epoch
                } else {
                    0
                };
                age@ == if time >= timestamp@ {
                    time - timestamp@
                } else {
                    0
                }
            }),
        time is None ==> exists|now: int| #[trigger]
            syncer.clock().reads(now) && syncer@.offset + (now - syncer@.epoch)
                > 9_223_372_036_854_775_807_999_999_999,
{
}

/// The end of a round trip, exactly: `mean` is the mean of the kept round trips, rounded
/// down, since as many times that is their sum, up to less than their number. The offset
/// is what the server's time is ahead of the Unix time at which the round trip began, and
/// half of `mean`; it is taken on exactly where it is not negative without that half and
/// nothing is too long.
pub proof fn law_offset_is_half_the_mean(
    syncer: &mut TimeSyncer,
    now: Duration,
    server: Duration,
    r: bool,
    sum: int,
    mean: nat,
)
    requires
        call_ensures(TimeSyncer::finish_sync_at, (syncer, now, server), r),
        sum == final(syncer)@.samples.fold_left(0int, |sum: int, n: nat| sum + n),
        final(syncer)@.samples.len() * mean <= sum,
        sum < final(syncer)@.samples.len() * mean + final(syncer)@.samples.len(),
    ensures
        ({
            let (epoch, start) = (old(syncer)@.epoch, old(syncer)@.sync_start);
            let ahead = server@ - if epoch <= start {
                start - epoch
            } else {
                0
            };
            &&& r <==> {
                &&& sum <= 18_446_744_073_709_551_615_999_999_999
                &&& ahead >= 0
                &&& ahead + mean / 2 <= 9_223_372_036_854_775_807_999_999_999
            }
            &&& final(syncer)@.offset == if r {
                ahead + mean / 2
            } else {
                old(syncer)@.offset
            }
        }),
{
    lemma_finished(old(syncer)@, now@ as int, server@, sum, mean);
}

/// The same of the states.
proof fn lemma_finished(state: SyncState, now: int, server: nat, sum: int, mean: nat)
    requires
        sum == state.samples_at(now).fold_left(0int, |sum: int, n: nat| sum + n),
        state.samples_at(now).len() * mean <= sum < state.samples_at(now).len() * mean
            + state.samples_at(now).len(),
    ensures
        ({
            let (epoch, start) = (state.epoch, state.sync_start);
            let ahead = server - if epoch <= start {
                start - epoch
            } else {
                0
            };
            &&& state.can_finish(now, server) <==> {
                &&& sum <= 18_446_744_073_709_551_615_999_999_999
                &&& ahead >= 0
                &&& ahead + mean / 2 <= 9_223_372_036_854_775_807_999_999_999
            }
            &&& state.can_finish(now, server) ==> state.finished(now, server).offset == ahead + mean
                / 2
        }),
{
    let kept = state.samples_at(now);
    law_total_adds_up(kept, 0, Seq::empty());
    let (n, m, q) = (kept.len() as int, mean as int, sum / (kept.len() as int));
    assert(m == q) by (nonlinear_arith)
        requires
            n > 0,
            sum >= 0,
            n * m <= sum < n * m + n,
            q == sum / n,
    ;
}

/// With the clocks read, a new syncer, a round trip that begins and one that ends are what
/// they are for some readings of these clocks.
pub proof fn law_clocks_are_read(
    fresh: Option<TimeSyncer>,
    begun: &mut TimeSyncer,
    began: bool,
    ended: &mut TimeSyncer,
    server: Duration,
    finished: bool,
)
    requires
        call_ensures(TimeSyncer::new, (), fresh),
        call_ensures(TimeSyncer::start_sync, (begun,), began),
        call_ensures(TimeSyncer::finish_sync, (ended, server), finished),
        old(ended)@.samples.len() <= 10,
    ensures
        fresh is None || !began ==> unix_clock_reads(None),
        fresh matches Some(syncer) ==> {
            &&& syncer@.offset == 0 && syncer@.samples.len() == 0
            &&& syncer.clock().reads(syncer@.sync_start)
            &&& exists|now: int, unix: nat| #[trigger]
                syncer.clock().reads(now) && #[trigger] unix_clock_reads(Some(unix))
                    && syncer@.epoch + unix == now
        },
        began ==> {
            &&& old(begun).clock().reads(final(begun)@.sync_start)
            &&& exists|unix: nat| #[trigger]
                unix_clock_reads(Some(unix)) && final(begun)@.epoch + unix
                    == final(begun)@.sync_start
        },
        !began ==> final(begun)@ == old(begun)@,
        final(begun)@.offset == old(begun)@.offset,
        final(begun)@.samples == old(begun)@.samples,
        final(begun).clock() == old(begun).clock(),
        exists|now: int| #[trigger]
            old(ended).clock().reads(now) && final(ended)@.samples[0] == if now
                >= old(ended)@.sync_start {
                now - old(ended)@.sync_start
            } else {
                0
            },
        forall|i: int|
            1 <= i < final(ended)@.samples.len() ==> final(ended)@.samples[i] == old(
                ended,
            )@.samples[i - 1],
        final(ended)@.samples.len() == if old(ended)@.samples.len() < 10 {
            old(ended)@.samples.len() + 1
        } else {
            10
        },
        final(ended)@.epoch == old(ended)@.epoch,
        final(ended)@.sync_start == old(ended)@.sync_start,
        final(ended).clock() == old(ended).clock(),
        !finished ==> final(ended)@.offset == old(ended)@.offset,
{
}

/// The offset that a round trip with the clock read gives is that of
/// [`law_offset_is_half_the_mean`].
pub proof fn law_offset_by_the_clock(
    syncer: &mut TimeSyncer,
    server: Duration,
    r: bool,
    sum: int,
    mean: nat,
)
    requires
        call_ensures(TimeSyncer::finish_sync, (syncer, server), r),
        sum == final(syncer)@.samples.fold_left(0int, |sum: int, n: nat| sum + n),
        final(syncer)@.samples.len() * mean <= sum,
        sum < final(syncer)@.samples.len() * mean + final(syncer)@.samples.len(),
    ensures
        ({
            let (epoch, start) = (old(syncer)@.epoch, old(syncer)@.sync_start);
            let ahead = server@ - if epoch <= start {
                start - epoch
            } else {
                0
            };
            &&& r <==> {
                &&& sum <= 18_446_744_073_709_551_615_999_999_999
                &&& ahead >= 0
                &&& ahead + mean / 2 <= 9_223_372_036_854_775_807_999_999_999
            }
            &&& r ==> final(syncer)@.offset == ahead + mean / 2
        }),
{
    let now = choose|now: int|
        old(syncer).clock().reads(now) && final(syncer)@ == (#[trigger] old(syncer)@.finished(
            now,
            server@,
        )) && r == old(syncer)@.can_finish(now, server@);
    lemma_finished(old(syncer)@, now, server@, sum, mean);
}

/// At a reading of its clock a syncer's time is how far that is past its epoch, if it is,
/// and what the server is known to be ahead; there is none exactly where that is too long.
/// Without a Unix time there is no syncer.
pub proof fn law_time_at_a_reading(
    syncer: TimeSyncer,
    now: Duration,
    time: Option<Duration>,
    clock: Clock,
    start: Duration,
    none: Option<TimeSyncer>,
)
    requires
        syncer.wf(),
        call_ensures(TimeSyncer::now_at, (&syncer, now), time),
        call_ensures(TimeSyncer::new_at, (clock, now, None, start), none),
    ensures
        ({
            let expected = syncer@.offset + if now@ >= syncer@.epoch {
                now@ - syncer@.epoch
            } else {
                0
            };
            &&& time is Some <==> expected <= 9_223_372_036_854_775_807_999_999_999
            &&& time matches Some(time) ==> time@ == expected
        }),
        none is None,
{
}

} // verus!
