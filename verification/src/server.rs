//! What a server decides.

use vstd::prelude::*;

use crate::clock::{elapsed_between, Instant, INSTANT_LIMIT};
use crate::duration::{Duration, MAX_NANOS};
use crate::packet::{Packet, PROTOCOL_VERSION};
use crate::syncer::{law_syncer_invariant, TimeSyncer};

verus! {

/// The port that a server listens on.
pub const PORT: u16 = 8998;

/// The code that a connection with another protocol version is closed with.
pub const WRONG_VERSION_CODE: u32 = 69;

/// How many seconds lie between two updates.
pub const UPDATE_INTERVAL_SECS: u64 = 1;

/// The reason that a connection with another protocol version is closed for.
pub fn wrong_version_reason() -> (r: &'static str)
    ensures
        r@ == "wrong version"@,
{
    "wrong version"
}

/// The common playback, in nanoseconds.
pub struct Playback {
    /// When it began, on the server's clock, if it is not paused.
    pub start: int,
    /// Where it is paused, if it is.
    pub paused: Option<nat>,
}

impl Playback {
    /// Where the playback is at the instant `now`.
    pub open spec fn position(self, now: int) -> nat {
        match self.paused {
            Some(elapsed) => elapsed,
            None => elapsed_between(self.start, now),
        }
    }

    /// Whether a duration can say where the playback is at the instant `now`.
    pub open spec fn position_fits(self, now: int) -> bool {
        self.paused is Some || elapsed_between(self.start, now) <= MAX_NANOS
    }

    /// The playback after it was told, at `arrived`, to go on or to be paused at
    /// `elapsed`, by somebody who said so `latency` before.
    pub open spec fn controlled(
        self,
        paused: bool,
        elapsed: nat,
        latency: nat,
        arrived: int,
    ) -> Playback {
        Playback {
            start: arrived - (elapsed + latency),
            paused: if paused {
                Some(elapsed)
            } else {
                None
            },
        }
    }
}

/// The playback that began at `start`, and is paused where `paused` says.
pub open spec fn playback_of(start: Instant, paused: Option<Duration>) -> Playback {
    Playback {
        start: start@,
        paused: match paused {
            Some(elapsed) => Some(elapsed@),
            None => None,
        },
    }
}

/// Whether the times that a control packet brings are in range.
pub open spec fn control_fits(elapsed: nat, latency: nat, arrived: int) -> bool {
    &&& elapsed + latency <= MAX_NANOS
    &&& arrived - (elapsed + latency) >= -INSTANT_LIMIT
}

/// Whether a packet says where the playback is at `now`.
pub open spec fn tells(packet: Packet, playback: Playback, timestamp: Duration, now: int) -> bool {
    packet matches Packet::PlaybackControl { timestamp: sent, paused, elapsed } && sent == timestamp
        && paused == (playback.paused is Some) && elapsed@ == playback.position(now)
}

/// What a server does on a packet.
#[derive(Debug, PartialEq, Eq)]
pub enum Reply {
    /// The sender is to be told where the playback is, over a stream. If `refuse`, the
    /// connection is to be closed first.
    Welcome { refuse: bool, packet: Packet },
    /// The packet is for these connections, over a stream each.
    Relay { packet: Packet, to: Vec<usize> },
    /// The packet is for the sender, as a datagram.
    Datagram(Packet),
    /// Nothing.
    Ignore,
}

/// The common playback, and the numbers of the connections.
pub struct Server {
    playback_start: Instant,
    pause_state: Option<Duration>,
    connections: Vec<usize>,
}

/// The elements of `ids` other than `id`, in their order.
pub open spec fn others(ids: Seq<usize>, id: usize) -> Seq<usize> {
    ids.filter(|other: usize| other != id)
}

impl Server {
    /// No connection is there twice.
    #[verifier::type_invariant]
    pub closed spec fn wf(self) -> bool {
        self.connections@.no_duplicates()
    }

    /// The common playback.
    pub closed spec fn playback(self) -> Playback {
        playback_of(self.playback_start, self.pause_state)
    }

    /// The numbers of the connections, in the order in which they came.
    pub closed spec fn ids(self) -> Seq<usize> {
        self.connections@
    }

    /// A server without connections whose playback begins at `now`.
    pub fn new(now: Instant) -> (r: Server)
        ensures
            r.wf(),
            r.playback() == (Playback { start: now@, paused: None }),
            r.ids() == Seq::<usize>::empty(),
    {
        Server { playback_start: now, pause_state: None, connections: Vec::new() }
    }

    /// Whether there is a connection with this number.
    fn is_connected(&self, id: usize) -> (r: bool)
        ensures
            r == self.ids().contains(id),
    {
        let mut i: usize = 0;
        while i < self.connections.len()
            invariant
                i <= self.connections.len(),
                forall|j: int| 0 <= j < i ==> self.connections@[j] != id,
            decreases self.connections.len() - i,
        {
            if self.connections[i] == id {
                assert(self.ids().contains(self.connections@[i as int]));
                return true;
            }
            i = i + 1;
        }
        false
    }

    /// Adds a connection, if it is not there yet.
    pub fn connect(&mut self, id: usize)
        ensures
            final(self).playback() == old(self).playback(),
            final(self).ids() == if old(self).ids().contains(id) {
                old(self).ids()
            } else {
                old(self).ids().push(id)
            },
    {
        proof {
            use_type_invariant(&*self);
        }
        if !self.is_connected(id) {
            let mut connections: Vec<usize> = Vec::new();
            std::mem::swap(&mut connections, &mut self.connections);
            let ghost before = connections@;
            connections.push(id);
            assert(connections@.no_duplicates()) by {
                assert forall|i: int, j: int|
                    0 <= i < j < connections@.len() implies connections@[i] != connections@[j] by {
                    if j == before.len() {
                        assert(before.contains(before[i]));
                    }
                }
            }
            self.connections = connections;
        }
    }

    /// The connections other than this one.
    pub fn recipients(&self, except: usize) -> (r: Vec<usize>)
        ensures
            r@ == others(self.ids(), except),
    {
        let mut found: Vec<usize> = Vec::new();
        let mut i: usize = 0;
        assert(others(self.connections@.take(0), except) =~= Seq::empty()) by {
            reveal(Seq::filter);
        }
        while i < self.connections.len()
            invariant
                i <= self.connections.len(),
                found@ == others(self.connections@.take(i as int), except),
            decreases self.connections.len() - i,
        {
            let ghost after = self.connections@.take(i + 1);
            assert(after.drop_last() =~= self.connections@.take(i as int));
            assert(after.last() == self.connections@[i as int]);
            proof {
                reveal(Seq::filter);
            }
            if self.connections[i] != except {
                found.push(self.connections[i]);
            }
            assert(found@ =~= others(after, except));
            i = i + 1;
        }
        assert(self.connections@.take(i as int) =~= self.connections@);
        found
    }

    /// All the connections.
    pub fn everyone(&self) -> (r: Vec<usize>)
        ensures
            r@ == self.ids(),
    {
        self.connections.clone()
    }

    /// Takes a connection away, if it is there.
    pub fn disconnect(&mut self, id: usize)
        ensures
            final(self).playback() == old(self).playback(),
            final(self).ids() == others(old(self).ids(), id),
    {
        proof {
            use_type_invariant(&*self);
        }
        let left = self.recipients(id);
        proof {
            lemma_others(self.ids(), id);
        }
        self.connections = left;
    }
}

/// The packet that says where the playback is at `now`, when the server's time is
/// `timestamp`: none, where no duration is so long.
fn status(start: Instant, pause_state: Option<Duration>, timestamp: Duration, now: Instant) -> (r:
    Option<Packet>)
    ensures
        r is Some <==> playback_of(start, pause_state).position_fits(now@),
        r matches Some(packet) ==> tells(
            packet,
            playback_of(start, pause_state),
            timestamp,
            now@,
        ),
{
    match pause_state {
        Some(elapsed) => Some(Packet::PlaybackControl { timestamp, paused: true, elapsed }),
        None => match now.duration_since(start) {
            Some(elapsed) => Some(Packet::PlaybackControl { timestamp, paused: false, elapsed }),
            None => None,
        },
    }
}

impl Server {
    /// Lets the playback go on, or pauses it, at `elapsed`, as somebody said `latency`
    /// before `arrived`. Returns the packet that says where it is then, at `now`, when
    /// the server's time is `timestamp`. `None` if a time is out of range; then nothing
    /// changes.
    fn control(
        &mut self,
        paused: bool,
        elapsed: Duration,
        latency: Duration,
        arrived: Instant,
        timestamp: Duration,
        now: Instant,
    ) -> (r: Option<Packet>)
        ensures
            final(self).ids() == old(self).ids(),
            ({
                let next = old(self).playback().controlled(paused, elapsed@, latency@, arrived@);
                if control_fits(elapsed@, latency@, arrived@) && next.position_fits(now@) {
                    &&& final(self).playback() == next
                    &&& r matches Some(packet)
                    &&& tells(packet, next, timestamp, now@)
                } else {
                    r is None && final(self).playback() == old(self).playback()
                }
            }),
    {
        proof {
            use_type_invariant(&*self);
        }
        let age = match elapsed.checked_add(latency) {
            Some(age) => age,
            None => return None,
        };
        let start = match arrived.checked_sub(age) {
            Some(start) => start,
            None => return None,
        };
        let pause_state = if paused {
            Some(elapsed)
        } else {
            None
        };
        match status(start, pause_state, timestamp, now) {
            Some(packet) => {
                self.playback_start = start;
                self.pause_state = pause_state;
                Some(packet)
            },
            None => None,
        }
    }

    /// What the server does on a packet from the connection `from`. The packet was sent
    /// `latency` ago and has arrived at `arrived`; the answer is put together at `now`,
    /// when the server's time is `timestamp`. `None` if a time is out of range; then
    /// nothing changes.
    ///
    /// A client that says its version is told where the playback is, and refused if
    /// the version is another. A control packet changes the playback, and all the other
    /// clients are told where it is now. A request for the time is answered.
    pub fn react(
        &mut self,
        from: usize,
        packet: &Packet,
        latency: Duration,
        arrived: Instant,
        timestamp: Duration,
        now: Instant,
    ) -> (r: Option<Reply>)
        ensures
            final(self).ids() == old(self).ids(),
            match packet {
                Packet::PlaybackControl { paused, elapsed, .. } => {
                    let next = old(self).playback().controlled(
                        *paused,
                        elapsed@,
                        latency@,
                        arrived@,
                    );
                    if control_fits(elapsed@, latency@, arrived@) && next.position_fits(now@) {
                        &&& final(self).playback() == next
                        &&& r matches Some(Reply::Relay { packet: status, to })
                        &&& tells(status, next, timestamp, now@)
                        &&& to@ == others(old(self).ids(), from)
                    } else {
                        r is None && final(self).playback() == old(self).playback()
                    }
                },
                _ => final(self).playback() == old(self).playback() && match packet {
                    Packet::Version(version) => if old(self).playback().position_fits(now@) {
                        &&& r matches Some(Reply::Welcome { refuse, packet: status })
                        &&& refuse == (*version != PROTOCOL_VERSION)
                        &&& tells(status, old(self).playback(), timestamp, now@)
                    } else {
                        r is None
                    },
                    Packet::TimeSyncRequest => r == Some(
                        Reply::Datagram(Packet::TimeSyncResponse(timestamp)),
                    ),
                    _ => r == Some(Reply::Ignore),
                },
            },
    {
        match packet {
            Packet::Version(version) => match status(
                self.playback_start,
                self.pause_state,
                timestamp,
                now,
            ) {
                Some(packet) => Some(
                    Reply::Welcome { refuse: *version != PROTOCOL_VERSION, packet },
                ),
                None => None,
            },
            Packet::PlaybackControl { paused, elapsed, .. } => match self.control(
                *paused,
                *elapsed,
                latency,
                arrived,
                timestamp,
                now,
            ) {
                Some(packet) => Some(Reply::Relay { packet, to: self.recipients(from) }),
                None => None,
            },
            Packet::TimeSyncRequest => Some(
                Reply::Datagram(Packet::TimeSyncResponse(timestamp)),
            ),
            _ => Some(Reply::Ignore),
        }
    }

    /// Whether the playback is paused.
    pub fn is_paused(&self) -> (r: bool)
        ensures
            r == (self.playback().paused is Some),
    {
        self.pause_state.is_some()
    }

    /// What everybody is told from time to time: where the playback is at `now`, when
    /// the server's time is `timestamp`. Nothing, while it is paused, or where no
    /// duration is so long.
    pub fn update(&self, timestamp: Duration, now: Instant) -> (r: Option<Packet>)
        ensures
            r is Some <==> self.playback().paused is None && self.playback().position_fits(now@),
            r matches Some(packet) ==> (packet matches Packet::PlaybackUpdate {
                timestamp: sent,
                elapsed,
            } && sent == timestamp && elapsed@ == self.playback().position(now@)),
    {
        match self.pause_state {
            Some(_) => None,
            None => match now.duration_since(self.playback_start) {
                Some(elapsed) => Some(Packet::PlaybackUpdate { timestamp, elapsed }),
                None => None,
            },
        }
    }
}

/// The timestamp of a packet whose age has to be known for the reaction to it.
pub fn timestamp_of(packet: &Packet) -> (r: Option<Duration>)
    ensures
        r == match packet {
            Packet::PlaybackControl { timestamp, .. } => Some(*timestamp),
            _ => None,
        },
{
    match packet {
        Packet::PlaybackControl { timestamp, .. } => Some(*timestamp),
        _ => None,
    }
}

/// What is relayed goes to every connection but the sender's, and to each once.
pub proof fn law_relayed_to_all_others(server: Server, from: usize)
    requires
        server.wf(),
    ensures
        others(server.ids(), from).no_duplicates(),
        forall|id: usize| #[trigger]
            others(server.ids(), from).contains(id) <==> server.ids().contains(id) && id != from,
{
    lemma_others(server.ids(), from);
}

/// The playback runs on from where it was put, corrected by the latency; paused, it
/// stays exactly where it was put.
pub proof fn law_playback_runs_on(
    playback: Playback,
    paused: bool,
    elapsed: nat,
    latency: nat,
    arrived: int,
    now: int,
)
    requires
        arrived <= now,
    ensures
        playback.controlled(paused, elapsed, latency, arrived).position(now) == if paused {
            elapsed
        } else {
            (elapsed + latency + (now - arrived)) as nat
        },
{
}

/// Where the playback was before it is told to be somewhere does not matter.
pub proof fn law_last_control_decides(
    first: Playback,
    second: Playback,
    paused: bool,
    elapsed: nat,
    latency: nat,
    arrived: int,
)
    ensures
        first.controlled(paused, elapsed, latency, arrived) == second.controlled(
            paused,
            elapsed,
            latency,
            arrived,
        ),
{
}

/// The other elements of a sequence without duplicates are a sequence without
/// duplicates of exactly the elements that are different.
pub proof fn lemma_others(ids: Seq<usize>, id: usize)
    requires
        ids.no_duplicates(),
    ensures
        others(ids, id).no_duplicates(),
        forall|other: usize| #[trigger]
            others(ids, id).contains(other) <==> ids.contains(other) && other != id,
    decreases ids.len(),
{
    reveal(Seq::filter);
    if ids.len() > 0 {
        let start = ids.drop_last();
        lemma_others(start, id);
        let before = others(start, id);
        let after = others(ids, id);
        assert forall|other: usize| after.contains(other) <==> ids.contains(other) && other
            != id by {
            assert(ids =~= start.push(ids.last()));
            if ids.last() != id {
                assert(after =~= before.push(ids.last()));
                if before.contains(other) {
                    let k = choose|k: int| 0 <= k < before.len() && before[k] == other;
                    assert(after[k] == other);
                }
                assert(after[before.len() as int] == ids.last());
            }
            if start.contains(other) {
                let k = choose|k: int| 0 <= k < start.len() && start[k] == other;
                assert(ids[k] == other);
            }
        }
        assert(after.no_duplicates()) by {
            if ids.last() != id {
                assert(after =~= before.push(ids.last()));
                assert(!start.contains(ids.last()));
                assert(!before.contains(ids.last()));
                assert forall|i: int, j: int| 0 <= i < j < after.len() implies after[i]
                    != after[j] by {
                    if j == before.len() {
                        assert(before.contains(before[i]));
                    }
                }
            }
        }
    }
}

/// A newcomer is told where the playback is, and when that was by the server's time: on a
/// server that has just begun, that is the time since then. It is refused exactly where it
/// has another version.
pub proof fn law_newcomer_is_told(
    begun: Instant,
    fresh: Server,
    server: &mut Server,
    from: usize,
    version: u8,
    latency: Duration,
    arrived: Instant,
    timestamp: Duration,
    now: Instant,
    r: Option<Reply>,
)
    requires
        call_ensures(Server::new, (begun,), fresh),
        *old(server) == fresh,
        call_ensures(
            Server::react,
            (server, from, &Packet::Version(version), latency, arrived, timestamp, now),
            r,
        ),
        begun@ <= now@ <= begun@ + 18_446_744_073_709_551_615_999_999_999,
    ensures
        r matches Some(Reply::Welcome {
            refuse,
            packet: Packet::PlaybackControl { timestamp: sent, paused, elapsed },
        }) && refuse == (version != 69) && sent == timestamp && !paused && elapsed@ == now@ - begun@,
        final(server).playback() == old(server).playback(),
{
}

/// After a control packet everybody is told the same: paused, the playback stays exactly
/// where it was put, and otherwise it is where it was put, and as much farther as the
/// packet was late and as has passed since it arrived. That goes for those that it is
/// relayed to, for newcomers, and for updates, of which there are none while it is paused.
pub proof fn law_playback_after_control(
    server: &mut Server,
    from: usize,
    said: Duration,
    paused: bool,
    elapsed: Duration,
    latency: Duration,
    arrived: Instant,
    timestamp: Duration,
    now: Instant,
    r: Option<Reply>,
    welcoming: &mut Server,
    newcomer: usize,
    stamp: Duration,
    later: Instant,
    welcome: Option<Reply>,
    update: Option<Packet>,
    is_paused: bool,
)
    requires
        call_ensures(
            Server::react,
            (
                server,
                from,
                &Packet::PlaybackControl { timestamp: said, paused, elapsed },
                latency,
                arrived,
                timestamp,
                now,
            ),
            r,
        ),
        *old(welcoming) == *final(server),
        call_ensures(
            Server::react,
            (welcoming, newcomer, &Packet::Version(69), latency, later, stamp, later),
            welcome,
        ),
        call_ensures(Server::update, (&*final(server), stamp, later), update),
        call_ensures(Server::is_paused, (&*final(server),), is_paused),
        0 <= arrived@ <= now@ <= later@,
        elapsed@ + latency@ + (later@ - arrived@) <= 18_446_744_073_709_551_615_999_999_999,
    ensures
        r matches Some(Reply::Relay {
            packet: Packet::PlaybackControl { timestamp: sent, paused: pause, elapsed: position },
            to,
        }) && sent == timestamp && pause == paused && position@ == if paused {
            elapsed@ as int
        } else {
            elapsed@ + latency@ + (now@ - arrived@)
        },
        welcome matches Some(Reply::Welcome {
            refuse,
            packet: Packet::PlaybackControl { timestamp: sent, paused: pause, elapsed: position },
        }) && !refuse && sent == stamp && pause == paused && position@ == if paused {
            elapsed@ as int
        } else {
            elapsed@ + latency@ + (later@ - arrived@)
        },
        is_paused == paused,
        paused ==> update is None,
        !paused ==> (update matches Some(Packet::PlaybackUpdate { timestamp: sent, elapsed: position })
            && sent == stamp && position@ == elapsed@ + latency@ + (later@ - arrived@)),
{
}

/// A control packet whose times are too long changes nothing, and nobody is told of it.
pub proof fn law_overlong_control_is_refused(
    server: &mut Server,
    from: usize,
    said: Duration,
    paused: bool,
    elapsed: Duration,
    latency: Duration,
    arrived: Instant,
    timestamp: Duration,
    now: Instant,
    r: Option<Reply>,
)
    requires
        call_ensures(
            Server::react,
            (
                server,
                from,
                &Packet::PlaybackControl { timestamp: said, paused, elapsed },
                latency,
                arrived,
                timestamp,
                now,
            ),
            r,
        ),
        elapsed@ + latency@ > 18_446_744_073_709_551_615_999_999_999,
    ensures
        r is None,
        final(server).playback() == old(server).playback(),
        final(server).ids() == old(server).ids(),
{
}

/// What a server says at its time `stamped` carries that time: a client whose time agrees
/// with the server's then, and that gets the packet later, finds that it took exactly as
/// long as has passed. That goes for what newcomers are told, for what is relayed, and for
/// updates.
pub proof fn law_latency_is_how_long_it_took(
    server: &mut Server,
    from: usize,
    packet: Packet,
    latency: Duration,
    arrived: Instant,
    stamped: Duration,
    now: Instant,
    r: Option<Reply>,
    update: Option<Packet>,
    sent: Packet,
    timestamp: Duration,
    client: TimeSyncer,
    before: Duration,
    after: Duration,
    age: Option<Duration>,
)
    requires
        call_ensures(
            Server::react,
            (server, from, &packet, latency, arrived, stamped, now),
            r,
        ),
        call_ensures(Server::update, (&*old(server), stamped, now), update),
        (r matches Some(Reply::Welcome { packet, .. }) && packet == sent) || (
        r matches Some(Reply::Relay { packet, .. }) && packet == sent) || update == Some(sent),
        sent matches Packet::PlaybackControl { timestamp: carried, .. } ==> timestamp == carried,
        sent matches Packet::PlaybackUpdate { timestamp: carried, .. } ==> timestamp == carried,
        client.wf(),
        call_ensures(TimeSyncer::now_at, (&client, before), Some(stamped)),
        client@.epoch <= before@ <= after@,
        stamped@ + (after@ - before@) <= 9_223_372_036_854_775_807_999_999_999,
        call_ensures(TimeSyncer::since_at, (&client, after, timestamp), age),
    ensures
        timestamp == stamped,
        age is Some,
        age->0@ == after@ - before@,
{
    law_syncer_invariant(client);
}

/// A request for the time is answered with the server's time, and changes nothing. What is
/// no business of a server is ignored, and changes nothing either.
pub proof fn law_time_is_told(
    server: &mut Server,
    from: usize,
    packet: Packet,
    latency: Duration,
    arrived: Instant,
    timestamp: Duration,
    now: Instant,
    r: Option<Reply>,
)
    requires
        call_ensures(
            Server::react,
            (server, from, &packet, latency, arrived, timestamp, now),
            r,
        ),
        !(packet is Version) && !(packet is PlaybackControl),
    ensures
        final(server).playback() == old(server).playback(),
        final(server).ids() == old(server).ids(),
        packet is TimeSyncRequest ==> r == Some(
            Reply::Datagram(Packet::TimeSyncResponse(timestamp)),
        ),
        !(packet is TimeSyncRequest) ==> r == Some(Reply::Ignore),
{
}

/// The age of a packet matters to a server exactly where it is a control packet.
pub proof fn law_whose_age_matters(packet: Packet, r: Option<Duration>)
    requires
        call_ensures(timestamp_of, (&packet,), r),
    ensures
        packet matches Packet::PlaybackControl { timestamp, .. } ==> r == Some(timestamp),
        !(packet is PlaybackControl) ==> r is None,
{
}

/// A control packet is for everybody who is there but its sender: for each once, and for
/// nobody else. Who is there stays the same.
pub proof fn law_relayed_to_each_other_one(
    server: &mut Server,
    from: usize,
    packet: Packet,
    latency: Duration,
    arrived: Instant,
    timestamp: Duration,
    now: Instant,
    relayed: Packet,
    to: Vec<usize>,
    everyone: Vec<usize>,
)
    requires
        old(server).wf(),
        call_ensures(
            Server::react,
            (server, from, &packet, latency, arrived, timestamp, now),
            Some(Reply::Relay { packet: relayed, to }),
        ),
        call_ensures(Server::everyone, (&*old(server),), everyone),
    ensures
        to@.no_duplicates(),
        everyone@.no_duplicates(),
        forall|id: usize| #[trigger] to@.contains(id) <==> everyone@.contains(id) && id != from,
        final(server).ids() == everyone@,
{
    lemma_others(old(server).ids(), from);
}

/// Nobody is there at first. Who connects is there from then on, once, and who disconnects
/// no longer; for all others nothing changes, and nothing changes of the playback.
pub proof fn law_who_is_there(
    begun: Instant,
    fresh: Server,
    nobody: Vec<usize>,
    joined: &mut Server,
    left: &mut Server,
    id: usize,
    before: Vec<usize>,
    after_join: Vec<usize>,
    after_leave: Vec<usize>,
)
    requires
        call_ensures(Server::new, (begun,), fresh),
        call_ensures(Server::everyone, (&fresh,), nobody),
        *old(joined) == *old(left),
        old(joined).wf(),
        final(joined).wf(),
        call_ensures(Server::connect, (joined, id), ()),
        call_ensures(Server::disconnect, (left, id), ()),
        call_ensures(Server::everyone, (&*old(joined),), before),
        call_ensures(Server::everyone, (&*final(joined),), after_join),
        call_ensures(Server::everyone, (&*final(left),), after_leave),
    ensures
        nobody@.len() == 0,
        after_join@.no_duplicates(),
        after_join@.contains(id),
        forall|other: usize|
            other != id ==> (#[trigger] after_join@.contains(other) <==> before@.contains(other)),
        after_leave@.no_duplicates(),
        !after_leave@.contains(id),
        forall|other: usize|
            other != id ==> (#[trigger] after_leave@.contains(other) <==> before@.contains(other)),
        final(joined).playback() == old(joined).playback(),
        final(left).playback() == old(left).playback(),
{
    lemma_others(old(left).ids(), id);
    let ids = old(joined).ids();
    assert(ids.push(id)[ids.len() as int] == id);
    assert forall|other: usize| other != id implies (#[trigger] ids.push(id).contains(other)
        <==> ids.contains(other)) by {
        if ids.contains(other) {
            let k = choose|k: int| 0 <= k < ids.len() && ids[k] == other;
            assert(ids.push(id)[k] == other);
        }
    }
}

/// A server that nobody has told anything plays on from when it began, and everybody is
/// told so from time to time.
pub proof fn law_playback_from_the_beginning(
    begun: Instant,
    server: Server,
    stamp: Duration,
    now: Instant,
    update: Option<Packet>,
    is_paused: bool,
)
    requires
        call_ensures(Server::new, (begun,), server),
        call_ensures(Server::update, (&server, stamp, now), update),
        call_ensures(Server::is_paused, (&server,), is_paused),
    ensures
        !is_paused,
        update is Some <==> now@ - begun@ <= 18_446_744_073_709_551_615_999_999_999,
        update is Some ==> (update matches Some(Packet::PlaybackUpdate { timestamp, elapsed })
            && timestamp == stamp && elapsed@ == if now@ >= begun@ {
            now@ - begun@
        } else {
            0
        }),
{
}

/// All but one are those who are there, without that one, each once.
pub proof fn law_all_but_one(server: Server, except: usize, r: Vec<usize>, everyone: Vec<usize>)
    requires
        server.wf(),
        call_ensures(Server::recipients, (&server, except), r),
        call_ensures(Server::everyone, (&server,), everyone),
    ensures
        r@.no_duplicates(),
        forall|id: usize| #[trigger] r@.contains(id) <==> everyone@.contains(id) && id != except,
{
    lemma_others(server.ids(), except);
}

/// The numbers of the protocol: where a server listens, which version it speaks, what it
/// says to others, and how often it says where the playback is.
pub proof fn law_numbers_of_a_server(reason: &'static str)
    requires
        call_ensures(wrong_version_reason, (), reason),
    ensures
        PORT == 8998,
        PROTOCOL_VERSION == 69,
        WRONG_VERSION_CODE == 69,
        reason@ == "wrong version"@,
        UPDATE_INTERVAL_SECS == 1,
{
}

} // verus!
