//! What a client decides.

use vstd::prelude::*;

use std::sync::Arc;

use crate::clock::{elapsed_between, Instant, INSTANT_LIMIT};
use crate::duration::{in_signed_range, magnitude, std_from_time, time_abs, time_checked_sub,
    time_from_std, Duration, SignedDuration, MAX_NANOS, MAX_SIGNED_NANOS};
use crate::mpv::command::{Command, LoadFileOptions, SeekOptions};
use crate::mpv::json::Json;
use crate::packet::{Packet, PlaybackState};
use crate::server::Playback;

verus! {

/// A verifier of server certificates that accepts every one. It protects from
/// nobody who is in between, but is convenient for trying things out.
#[derive(Clone, Copy, Debug, PartialEq, Eq, Structural)]
pub struct SkipServerVerification;

impl SkipServerVerification {
    /// A verifier that can be shared.
    pub fn new() -> (r: Arc<SkipServerVerification>)
        ensures
            *r == SkipServerVerification,
    {
        Arc::new(SkipServerVerification)
    }

    /// Whether a server may have this certificate. Any certificate is treated as
    /// valid.
    pub fn verify_server_cert(&self, end_entity: &[u8]) -> (r: bool)
        ensures
            r,
    {
        true
    }
}

/// How many seconds lie between two requests for the server's time.
pub const SYNC_INTERVAL_SECS: u64 = 5;

/// How many milliseconds pass before a command that must succeed is tried again.
pub const RETRY_DELAY_MILLIS: u64 = 100;

/// How far apart two positions of a player are that count as different, in
/// nanoseconds.
pub const JUMP_NANOS: u128 = 1_000_000_000;

/// How far the player may drift from the server, in nanoseconds.
pub const DRIFT_NANOS: u128 = 2_000_000_000;

/// The commands that a player gets first: report when it is paused, and play the
/// file.
pub fn first_commands(filename: String) -> (r: (Command, Command))
    ensures
        r.0 matches Command::Observe(id, property) && id == 2 && property@ == "pause"@,
        r.1 == Command::LoadFile(filename, LoadFileOptions::Replace),
{
    (Command::Observe(2, "pause"), Command::LoadFile(filename, LoadFileOptions::Replace))
}

/// The command to pause, or to go on.
pub fn pause_command(paused: bool) -> (r: Command)
    ensures
        r.wf(),
        r matches Command::SetProperty(property, value) && property@ == "pause"@ && value@
            == if paused { "true"@ } else { "false"@ },
{
    Command::SetProperty("pause", Json::boolean(paused))
}

/// The command to play from `position`, a number of seconds from the beginning.
pub fn seek_command(position: Json) -> (r: Command)
    ensures
        r == Command::Seek(position, SeekOptions::Absolute),
{
    Command::Seek(position, SeekOptions::Absolute)
}

/// How far the question is what the player does.
#[derive(Clone, Copy, Debug, PartialEq, Eq)]
pub enum StateQuery {
    /// It is to be asked how much it has played.
    AskTime,
    /// It is to be asked whether it is paused.
    AskPause { time: SignedDuration },
    /// It plays nothing.
    Stopped,
}

impl StateQuery {
    /// The command that asks, if there is something to ask.
    pub fn command(&self) -> (r: Option<Command>)
        ensures
            match self {
                StateQuery::AskTime => r matches Some(Command::GetProperty(property)) && property@
                    == "playback-time"@,
                StateQuery::AskPause { .. } => r matches Some(Command::GetProperty(property))
                    && property@ == "pause"@,
                StateQuery::Stopped => r is None,
            },
    {
        match self {
            StateQuery::AskTime => Some(Command::GetProperty("playback-time")),
            StateQuery::AskPause { .. } => Some(Command::GetProperty("pause")),
            StateQuery::Stopped => None,
        }
    }
}

/// What follows from the answer to how much has been played: the time, if there was
/// one. Without, the player plays nothing.
pub fn on_time_reply(reply: Option<SignedDuration>) -> (r: StateQuery)
    ensures
        r == match reply {
            Some(time) => StateQuery::AskPause { time },
            None => StateQuery::Stopped,
        },
{
    match reply {
        Some(time) => StateQuery::AskPause { time },
        None => StateQuery::Stopped,
    }
}

/// What the player does that has played for `time` by `now`, from the answer to
/// whether it is paused. Without an answer, it plays nothing. A negative time counts
/// as none where it is paused. `None` if the playback began at no instant that there
/// is.
pub fn on_pause_reply(time: SignedDuration, reply: Option<bool>, now: Instant) -> (r: Option<
    PlaybackState,
>)
    ensures
        match reply {
            None => r == Some(PlaybackState::Stopped),
            Some(true) => r matches Some(PlaybackState::Paused { elapsed }) && elapsed.wf()
                && elapsed@ == elapsed_between(0, time@),
            Some(false) => if -INSTANT_LIMIT <= now@ - time@ <= INSTANT_LIMIT {
                r matches Some(PlaybackState::Playing { start }) && start.wf() && start@ == now@
                    - time@
            } else {
                r is None
            },
        },
{
    match reply {
        None => Some(PlaybackState::Stopped),
        Some(true) => {
            let elapsed = match std_from_time(time) {
                Some(elapsed) => elapsed,
                None => Duration::zero(),
            };
            Some(PlaybackState::Paused { elapsed })
        },
        Some(false) => match now.checked_sub_signed(time) {
            Some(start) => Some(PlaybackState::Playing { start }),
            None => None,
        },
    }
}

/// Whether a change of what the player does is a jump that others have to be told of:
/// it began or ceased to play or to be paused, or is now somewhere else.
pub open spec fn is_jump(state: PlaybackState, new_state: PlaybackState) -> bool {
    match (state, new_state) {
        (PlaybackState::Stopped, PlaybackState::Stopped) => false,
        (
            PlaybackState::Playing { start },
            PlaybackState::Playing { start: new_start },
        ) => magnitude(start@ - new_start@) > JUMP_NANOS,
        (
            PlaybackState::Paused { elapsed },
            PlaybackState::Paused { elapsed: new_elapsed },
        ) => magnitude(elapsed@ - new_elapsed@) > JUMP_NANOS,
        _ => true,
    }
}

/// Whether a change of what the player does is a jump that others have to be told of.
pub fn must_announce(state: &PlaybackState, new_state: &PlaybackState) -> (r: bool)
    ensures
        r == is_jump(*state, *new_state),
{
    match (state, new_state) {
        (PlaybackState::Stopped, PlaybackState::Stopped) => false,
        (PlaybackState::Playing { start }, PlaybackState::Playing { start: new_start }) => {
            match start.signed_since(*new_start) {
                Some(distance) => {
                    proof {
                        distance.lemma_bounded();
                    }
                    time_abs(distance).exceeds(&SignedDuration::from_secs(1))
                },
                None => true,
            }
        },
        (PlaybackState::Paused { elapsed }, PlaybackState::Paused { elapsed: new_elapsed }) => {
            let (old_nanos, new_nanos): (u128, u128) = (elapsed.as_nanos(), new_elapsed.as_nanos());
            if old_nanos >= new_nanos {
                old_nanos - new_nanos > JUMP_NANOS
            } else {
                new_nanos - old_nanos > JUMP_NANOS
            }
        },
        _ => true,
    }
}

/// What is sent to tell others that the player does something else since `now`, when
/// the server's time is `timestamp`. That it plays nothing cannot be told. `None` if it
/// has played for longer than a duration can be.
pub fn announcement(new_state: &PlaybackState, timestamp: Duration, now: Instant) -> (r: Option<
    Packet,
>)
    requires
        !(new_state is Stopped),
    ensures
        r is None <==> (new_state matches PlaybackState::Playing { start } && elapsed_between(
            start@,
            now@,
        ) > MAX_NANOS),
        r matches Some(packet) ==> (packet matches Packet::PlaybackControl {
            timestamp: sent,
            paused,
            elapsed,
        } && sent == timestamp && match new_state {
            PlaybackState::Playing { start } => !paused && elapsed.wf() && elapsed@
                == elapsed_between(start@, now@),
            PlaybackState::Paused { elapsed: at } => paused && elapsed == at,
            PlaybackState::Stopped => false,
        }),
{
    match new_state {
        PlaybackState::Playing { start } => match now.duration_since(*start) {
            Some(elapsed) => Some(Packet::PlaybackControl { timestamp, paused: false, elapsed }),
            None => None,
        },
        PlaybackState::Paused { elapsed } => Some(
            Packet::PlaybackControl { timestamp, paused: true, elapsed: *elapsed },
        ),
        PlaybackState::Stopped => None,
    }
}

/// What a client does on a packet from the server.
#[derive(Clone, Copy, Debug, PartialEq, Eq)]
pub enum Reaction {
    /// The player is to play from `seek`, if that is a time, and then to be paused or
    /// to go on. The second must succeed, and if `insist` the first too: each is then
    /// tried again until it does.
    Control { seek: Option<SignedDuration>, insist: bool, paused: bool },
    /// The player is to play from this time on.
    Seek(SignedDuration),
    /// The server has answered with its time.
    FinishSync(Duration),
    /// Nothing.
    Ignore,
}

/// What is to be done next to put the player where the server is.
#[derive(Clone, Copy, Debug, PartialEq, Eq)]
pub enum ControlStep {
    /// It is to play from `time`, and then to be paused or to go on.
    Seek { time: SignedDuration, insist: bool, paused: bool },
    /// It is to be paused, or to go on.
    Pause { paused: bool },
    /// Nothing.
    Done,
}

/// The first step of a [`Reaction::Control`].
pub fn first_control(seek: Option<SignedDuration>, insist: bool, paused: bool) -> (r: ControlStep)
    ensures
        r == match seek {
            Some(time) => ControlStep::Seek { time, insist, paused },
            None => ControlStep::Pause { paused },
        },
{
    match seek {
        Some(time) => ControlStep::Seek { time, insist, paused },
        None => ControlStep::Pause { paused },
    }
}

/// The step that follows on one that succeeded or failed, and whether to wait before
/// it. What must succeed is tried again until it does.
pub open spec fn control_after(step: ControlStep, succeeded: bool) -> (ControlStep, bool) {
    match step {
        ControlStep::Seek { insist, paused, .. } => if succeeded || !insist {
            (ControlStep::Pause { paused }, false)
        } else {
            (step, true)
        },
        ControlStep::Pause { .. } => if succeeded {
            (ControlStep::Done, false)
        } else {
            (step, true)
        },
        ControlStep::Done => (ControlStep::Done, false),
    }
}

/// The step that follows on one that succeeded or failed, and whether to wait before
/// it.
pub fn next_control(step: ControlStep, succeeded: bool) -> (r: (ControlStep, bool))
    ensures
        r == control_after(step, succeeded),
{
    match step {
        ControlStep::Seek { insist, paused, .. } => if succeeded || !insist {
            (ControlStep::Pause { paused }, false)
        } else {
            (step, true)
        },
        ControlStep::Pause { .. } => if succeeded {
            (ControlStep::Done, false)
        } else {
            (step, true)
        },
        ControlStep::Done => (ControlStep::Done, false),
    }
}

/// A player that is being controlled is done with only when it was paused, or went on:
/// until then there is a next step, which says the same of that, and there is a wait
/// exactly where a step is tried again.
pub proof fn law_control_ends_with_pause(step: ControlStep, succeeded: bool)
    ensures
        control_after(step, succeeded).0 is Done <==> step is Done || (step is Pause && succeeded),
        !(step is Done) ==> (control_after(step, succeeded).1 <==> control_after(step, succeeded).0
            == step),
        step matches ControlStep::Seek { paused, .. } ==> (match control_after(step, succeeded).0 {
            ControlStep::Seek { paused: next, .. } => next == paused,
            ControlStep::Pause { paused: next } => next == paused,
            ControlStep::Done => false,
        }),
{
}

/// The timestamp of a packet whose age has to be known for the reaction to it, where
/// the player does this.
pub fn timestamp_of(packet: &Packet, state: &PlaybackState) -> (r: Option<Duration>)
    ensures
        r == match (packet, state) {
            (Packet::PlaybackControl { timestamp, .. }, _) => Some(*timestamp),
            (Packet::PlaybackUpdate { timestamp, .. }, PlaybackState::Playing { .. }) => Some(
                *timestamp,
            ),
            _ => None,
        },
{
    match packet {
        Packet::PlaybackControl { timestamp, .. } => Some(*timestamp),
        Packet::PlaybackUpdate { timestamp, .. } => match state {
            PlaybackState::Playing { .. } => Some(*timestamp),
            _ => None,
        },
        _ => None,
    }
}

/// Whether a control packet puts a player that does `state` to `target`: not if it plays
/// and is a second or more away from there.
pub open spec fn control_seeks(state: PlaybackState, target: int, now: int) -> bool {
    match state {
        PlaybackState::Playing { start } => magnitude((now - start@) - target) < JUMP_NANOS,
        _ => true,
    }
}

/// Whether the times that the reaction to a control packet needs are in range.
pub open spec fn control_fits(state: PlaybackState, elapsed: nat, latency: nat, now: int) -> bool {
    &&& elapsed <= MAX_SIGNED_NANOS
    &&& latency <= MAX_SIGNED_NANOS
    &&& state matches PlaybackState::Playing { start } ==> magnitude(now - start@)
        <= MAX_SIGNED_NANOS && in_signed_range((now - start@) - (elapsed - latency))
}

/// The reaction to a control packet that was sent `latency` ago.
fn on_control(
    state: &PlaybackState,
    paused: bool,
    elapsed: Duration,
    latency: Duration,
    now: Instant,
) -> (r: Option<Reaction>)
    ensures
        r is Some <==> control_fits(*state, elapsed@, latency@, now@),
        r matches Some(reaction) ==> (reaction matches Reaction::Control {
            seek,
            insist,
            paused: pause,
        } && pause == paused && insist == (*state is Stopped) && match seek {
            Some(time) => time.wf() && time@ == elapsed@ - latency@ && control_seeks(
                *state,
                elapsed@ - latency@,
                now@,
            ),
            None => !control_seeks(*state, elapsed@ - latency@, now@),
        }),
{
    let time = match (time_from_std(elapsed), time_from_std(latency)) {
        (Some(elapsed), Some(latency)) => {
            proof {
                elapsed.lemma_sub_fits_from_positive(latency);
            }
            match time_checked_sub(elapsed, latency) {
                Some(time) => time,
                None => return None,
            }
        },
        _ => return None,
    };
    match state {
        PlaybackState::Stopped => Some(Reaction::Control { seek: Some(time), insist: true, paused }),
        PlaybackState::Playing { start } => {
            let played = match now.signed_since(*start) {
                Some(played) => played,
                None => return None,
            };
            proof {
                played.lemma_sub_fits(time);
            }
            let distance = match time_checked_sub(played, time) {
                Some(distance) => distance,
                None => return None,
            };
            proof {
                distance.lemma_bounded();
            }
            if SignedDuration::from_secs(1).exceeds(&time_abs(distance)) {
                Some(Reaction::Control { seek: Some(time), insist: false, paused })
            } else {
                Some(Reaction::Control { seek: None, insist: false, paused })
            }
        },
        PlaybackState::Paused { .. } => Some(
            Reaction::Control { seek: Some(time), insist: false, paused },
        ),
    }
}

/// Whether the times that the reaction to an update needs are in range.
pub open spec fn update_fits(start: int, elapsed: nat, latency: nat, now: int) -> bool {
    &&& elapsed <= MAX_SIGNED_NANOS
    &&& latency <= MAX_SIGNED_NANOS
    &&& magnitude(now - start) <= MAX_SIGNED_NANOS
    &&& in_signed_range((now - start) - latency)
    &&& in_signed_range(elapsed - ((now - start) - latency))
    &&& in_signed_range(elapsed - (now - start))
}

/// Whether a player that began at `start` has drifted too far from a server that is at
/// `elapsed`.
pub open spec fn has_drifted(start: int, elapsed: nat, now: int) -> bool {
    magnitude(elapsed - (now - start)) > DRIFT_NANOS
}

/// How far a server that is at `elapsed`, as it said `latency` ago, is ahead of a player
/// that began at `start`. `None` if a time is out of range.
pub fn drift(start: Instant, elapsed: Duration, latency: Duration, now: Instant) -> (r: Option<
    SignedDuration,
>)
    ensures
        r is Some <==> update_fits(start@, elapsed@, latency@, now@),
        r matches Some(drift) ==> drift.wf() && drift@ == elapsed@ - (now@ - start@),
{
    let (elapsed, latency) = match (time_from_std(elapsed), time_from_std(latency)) {
        (Some(elapsed), Some(latency)) => (elapsed, latency),
        _ => return None,
    };
    let played = match now.signed_since(start) {
        Some(played) => played,
        None => return None,
    };
    proof {
        played.lemma_sub_fits(latency);
    }
    let client_elapsed = match time_checked_sub(played, latency) {
        Some(client_elapsed) => client_elapsed,
        None => return None,
    };
    proof {
        elapsed.lemma_sub_fits_from_positive(client_elapsed);
    }
    let ahead = match time_checked_sub(elapsed, client_elapsed) {
        Some(ahead) => ahead,
        None => return None,
    };
    proof {
        ahead.lemma_sub_fits(latency);
    }
    time_checked_sub(ahead, latency)
}

/// The reaction to an update that was sent `latency` ago, of a player that began at
/// `start`.
fn on_update(start: Instant, elapsed: Duration, latency: Duration, now: Instant) -> (r: Option<
    Reaction,
>)
    ensures
        r is Some <==> update_fits(start@, elapsed@, latency@, now@),
        r matches Some(reaction) ==> if has_drifted(start@, elapsed@, now@) {
            reaction matches Reaction::Seek(time) && time.wf() && time@ == elapsed@ - latency@
        } else {
            reaction == Reaction::Ignore
        },
{
    let drift = match drift(start, elapsed, latency, now) {
        Some(drift) => drift,
        None => return None,
    };
    let (elapsed, latency) = match (time_from_std(elapsed), time_from_std(latency)) {
        (Some(elapsed), Some(latency)) => (elapsed, latency),
        _ => return None,
    };
    proof {
        drift.lemma_bounded();
        elapsed.lemma_sub_fits_from_positive(latency);
    }
    let time = match time_checked_sub(elapsed, latency) {
        Some(time) => time,
        None => return None,
    };
    if time_abs(drift).exceeds(&SignedDuration::from_secs(2)) {
        Some(Reaction::Seek(time))
    } else {
        Some(Reaction::Ignore)
    }
}

/// What a client does on a packet from the server, where the player does `state` and
/// the packet was sent `latency` ago. `None` if a time is out of range.
///
/// On a control packet the player is put to where the server was when the packet was
/// sent, less the latency, unless it plays and is a second or more away from that; then
/// it is paused or goes on. On an update, a player that has drifted too far is put to
/// the same place.
pub fn react(packet: &Packet, state: &PlaybackState, latency: Duration, now: Instant) -> (r: Option<
    Reaction,
>)
    ensures
        match (packet, state) {
            (Packet::PlaybackControl { timestamp, paused, elapsed }, _) => if control_fits(
                *state,
                elapsed@,
                latency@,
                now@,
            ) {
                r matches Some(Reaction::Control { seek, insist, paused: pause }) && pause
                    == *paused && insist == (*state is Stopped) && match seek {
                    Some(time) => time.wf() && time@ == elapsed@ - latency@ && control_seeks(
                        *state,
                        elapsed@ - latency@,
                        now@,
                    ),
                    None => !control_seeks(*state, elapsed@ - latency@, now@),
                }
            } else {
                r is None
            },
            (
                Packet::PlaybackUpdate { timestamp, elapsed },
                PlaybackState::Playing { start },
            ) => if !update_fits(start@, elapsed@, latency@, now@) {
                r is None
            } else if has_drifted(start@, elapsed@, now@) {
                r matches Some(Reaction::Seek(time)) && time.wf() && time@ == elapsed@ - latency@
            } else {
                r == Some(Reaction::Ignore)
            },
            (Packet::TimeSyncResponse(time), _) => r == Some(Reaction::FinishSync(*time)),
            _ => r == Some(Reaction::Ignore),
        },
{
    match packet {
        Packet::PlaybackControl { paused, elapsed, .. } => on_control(
            state,
            *paused,
            *elapsed,
            latency,
            now,
        ),
        Packet::PlaybackUpdate { elapsed, .. } => match state {
            PlaybackState::Playing { start } => on_update(*start, *elapsed, latency, now),
            _ => Some(Reaction::Ignore),
        },
        Packet::TimeSyncResponse(time) => Some(Reaction::FinishSync(*time)),
        _ => Some(Reaction::Ignore),
    }
}

/// A player that had played for `time` at `now` is announced at `later` to have played
/// for as much longer as has passed in between.
pub proof fn law_announced_position(time: int, now: int, later: int)
    requires
        time + (later - now) >= 0,
    ensures
        elapsed_between(now - time, later) == time + (later - now),
{
}

/// A client that is in step with the server is left where it is by an update, unless
/// that took longer to arrive than the drift that is allowed.
pub proof fn law_client_in_step_is_left_alone(
    playback: Playback,
    sent: int,
    latency: nat,
    start: int,
    now: int,
)
    requires
        playback.paused is None,
        playback.start <= sent,
        now - start == playback.position(sent + latency),
    ensures
        has_drifted(start, playback.position(sent), now) <==> latency > DRIFT_NANOS,
{
}

/// Whether a change is a jump does not depend on its direction, and no change is none.
pub proof fn law_jump_is_symmetric(state: PlaybackState, new_state: PlaybackState)
    ensures
        is_jump(state, new_state) == is_jump(new_state, state),
        !is_jump(state, state),
{
}

/// Every change from one kind of state to another is announced, whatever the positions
/// are. Between two states of one kind it is announced exactly where the player is more
/// than a second away from where it was, on either side.
pub proof fn law_what_is_announced(state: PlaybackState, new_state: PlaybackState, r: bool)
    requires
        call_ensures(must_announce, (&state, &new_state), r),
    ensures
        (state is Stopped) != (new_state is Stopped) ==> r,
        (state is Playing) != (new_state is Playing) ==> r,
        (state is Paused) != (new_state is Paused) ==> r,
        state is Stopped && new_state is Stopped ==> !r,
        state matches PlaybackState::Playing { start } ==> (
        new_state matches PlaybackState::Playing { start: new_start } ==> (!r <==> -1_000_000_000
            <= start@ - new_start@ <= 1_000_000_000)),
        state matches PlaybackState::Paused { elapsed } ==> (
        new_state matches PlaybackState::Paused { elapsed: new_elapsed } ==> (!r <==> -1_000_000_000
            <= elapsed@ - new_elapsed@ <= 1_000_000_000)),
{
}

/// On a control packet a player that does not play is always sent to where the server was,
/// less the latency, wherever it is, and whichever way that lies; only times that are too
/// long prevent it. A player that plays nothing is sent there with insistence.
pub proof fn law_idle_player_is_moved(
    timestamp: Duration,
    paused: bool,
    elapsed: Duration,
    state: PlaybackState,
    latency: Duration,
    now: Instant,
    r: Option<Reaction>,
)
    requires
        call_ensures(
            react,
            (&Packet::PlaybackControl { timestamp, paused, elapsed }, &state, latency, now),
            r,
        ),
        !(state is Playing),
    ensures
        r is Some <==> elapsed@ <= 9_223_372_036_854_775_807_999_999_999 && latency@
            <= 9_223_372_036_854_775_807_999_999_999,
        r is Some ==> (r matches Some(Reaction::Control { seek: Some(time), insist, paused: pause })
            && time@ == elapsed@ - latency@ && pause == paused && insist == (state is Stopped)),
{
}

/// On a control packet a player that plays is sent to where the server was, less the
/// latency, exactly where it is less than a second away from there. It is paused, or goes
/// on, in any case.
pub proof fn law_playing_player_is_controlled(
    timestamp: Duration,
    paused: bool,
    elapsed: Duration,
    start: Instant,
    latency: Duration,
    now: Instant,
    r: Option<Reaction>,
)
    requires
        call_ensures(
            react,
            (
                &Packet::PlaybackControl { timestamp, paused, elapsed },
                &PlaybackState::Playing { start },
                latency,
                now,
            ),
            r,
        ),
    ensures
        ({
            let target = elapsed@ - latency@;
            let played = now@ - start@;
            &&& r is Some <==> {
                &&& elapsed@ <= 9_223_372_036_854_775_807_999_999_999
                &&& latency@ <= 9_223_372_036_854_775_807_999_999_999
                &&& -9_223_372_036_854_775_807_999_999_999 <= played
                    <= 9_223_372_036_854_775_807_999_999_999
                &&& -9_223_372_036_854_775_808_999_999_999 <= played - target
                    <= 9_223_372_036_854_775_807_999_999_999
            }
            &&& r matches Some(reaction) ==> {
                &&& reaction matches Reaction::Control { seek, insist, paused: pause }
                &&& pause == paused && !insist
                &&& seek is Some <==> -1_000_000_000 < played - target < 1_000_000_000
                &&& seek matches Some(time) ==> time@ == target
            }
        }),
{
}

/// On an update a player is left alone exactly where it is within two seconds of the
/// server, on either side; otherwise it is sent to where the server was, less the latency.
pub proof fn law_drifted_player_is_moved(
    timestamp: Duration,
    elapsed: Duration,
    start: Instant,
    latency: Duration,
    now: Instant,
    r: Option<Reaction>,
)
    requires
        call_ensures(
            react,
            (
                &Packet::PlaybackUpdate { timestamp, elapsed },
                &PlaybackState::Playing { start },
                latency,
                now,
            ),
            r,
        ),
    ensures
        ({
            let ahead = elapsed@ - (now@ - start@);
            &&& r is Some <==> {
                &&& elapsed@ <= 9_223_372_036_854_775_807_999_999_999
                &&& latency@ <= 9_223_372_036_854_775_807_999_999_999
                &&& -9_223_372_036_854_775_807_999_999_999 <= now@ - start@
                    <= 9_223_372_036_854_775_807_999_999_999
                &&& -9_223_372_036_854_775_808_999_999_999 <= now@ - start@ - latency@
                &&& -9_223_372_036_854_775_808_999_999_999 <= ahead
                &&& ahead + latency@ <= 9_223_372_036_854_775_807_999_999_999
            }
            &&& r is Some ==> (r == Some(Reaction::Ignore) <==> -2_000_000_000 <= ahead
                <= 2_000_000_000)
            &&& r is Some && (ahead > 2_000_000_000 || ahead < -2_000_000_000) ==> (
            r matches Some(Reaction::Seek(time)) && time@ == elapsed@ - latency@)
        }),
{
}

/// Where an update has a player sent elsewhere, so does one that finds it farther away on
/// the same side.
pub proof fn law_farther_drift_is_corrected_too(
    timestamp: Duration,
    first: Duration,
    second: Duration,
    start: Instant,
    latency: Duration,
    now: Instant,
    r: Option<Reaction>,
    s: Option<Reaction>,
)
    requires
        call_ensures(
            react,
            (
                &Packet::PlaybackUpdate { timestamp, elapsed: first },
                &PlaybackState::Playing { start },
                latency,
                now,
            ),
            r,
        ),
        call_ensures(
            react,
            (
                &Packet::PlaybackUpdate { timestamp, elapsed: second },
                &PlaybackState::Playing { start },
                latency,
                now,
            ),
            s,
        ),
        r is Some && s is Some,
        (now@ - start@ <= first@ <= second@) || (second@ <= first@ <= now@ - start@),
    ensures
        r->0 is Seek ==> s->0 is Seek,
        s->0 is Ignore ==> r->0 is Ignore,
{
}

/// A player that does not play is left alone by updates. The server's time ends a round
/// trip, and no other packet has a client do anything.
pub proof fn law_other_packets(
    packet: Packet,
    state: PlaybackState,
    latency: Duration,
    now: Instant,
    r: Option<Reaction>,
)
    requires
        call_ensures(react, (&packet, &state, latency, now), r),
    ensures
        packet is PlaybackUpdate && !(state is Playing) ==> r == Some(Reaction::Ignore),
        packet matches Packet::TimeSyncResponse(time) ==> r == Some(Reaction::FinishSync(time)),
        packet is Version || packet is TimeSyncRequest || packet is MediaInfo ==> r == Some(
            Reaction::Ignore,
        ),
{
}

/// The drift is how far the server is ahead of the player: as far as the server is, less
/// what has passed since the player began.
pub proof fn law_drift_is_distance(
    start: Instant,
    elapsed: Duration,
    latency: Duration,
    now: Instant,
    r: Option<SignedDuration>,
)
    requires
        call_ensures(drift, (start, elapsed, latency, now), r),
    ensures
        r matches Some(ahead) ==> start@ + elapsed@ - ahead@ == now@,
        r is Some <==> {
            &&& elapsed@ <= 9_223_372_036_854_775_807_999_999_999
            &&& latency@ <= 9_223_372_036_854_775_807_999_999_999
            &&& -9_223_372_036_854_775_807_999_999_999 <= now@ - start@
                <= 9_223_372_036_854_775_807_999_999_999
            &&& -9_223_372_036_854_775_808_999_999_999 <= now@ - start@ - latency@
            &&& -9_223_372_036_854_775_808_999_999_999 <= elapsed@ - (now@ - start@)
            &&& elapsed@ - (now@ - start@) + latency@ <= 9_223_372_036_854_775_807_999_999_999
        },
{
}

/// What is announced of a player is where it is: a paused one where it is paused, and one
/// that had played for `time` at `asked` as much farther as has passed since.
pub proof fn law_announcement_is_where_the_player_is(
    time: SignedDuration,
    reply: Option<bool>,
    asked: Instant,
    state: PlaybackState,
    timestamp: Duration,
    now: Instant,
    r: Option<Packet>,
)
    requires
        call_ensures(on_pause_reply, (time, reply, asked), Some(state)),
        reply is Some,
        call_ensures(announcement, (&state, timestamp, now), r),
    ensures
        r matches Some(packet) ==> (packet matches Packet::PlaybackControl {
            timestamp: sent,
            paused,
            elapsed,
        } && sent == timestamp && paused == reply->0 && ({
            let position = if paused {
                time@
            } else {
                time@ + (now@ - asked@)
            };
            elapsed@ == if position >= 0 {
                position
            } else {
                0
            }
        })),
        reply == Some(true) || time@ + (now@ - asked@)
            <= 18_446_744_073_709_551_615_999_999_999 ==> r is Some,
{
}

/// What the player does follows from its answers: it is stopped where one of them is
/// missing, and otherwise plays or is paused, as it says.
pub proof fn law_state_follows_answers(
    answer: Option<SignedDuration>,
    query: StateQuery,
    reply: Option<bool>,
    now: Instant,
    r: Option<PlaybackState>,
)
    requires
        call_ensures(on_time_reply, (answer,), query),
        answer matches Some(time) ==> call_ensures(on_pause_reply, (time, reply, now), r),
    ensures
        query == match answer {
            Some(time) => StateQuery::AskPause { time },
            None => StateQuery::Stopped,
        },
        answer is Some && reply is None ==> r == Some(PlaybackState::Stopped),
        answer is Some && reply == Some(true) ==> (r matches Some(PlaybackState::Paused { elapsed })
            && (answer->0@ >= 0 ==> elapsed@ == answer->0@)),
        answer is Some && reply == Some(false) && r is Some ==> (
        r matches Some(PlaybackState::Playing { start }) && start@ + answer->0@ == now@),
        answer is Some && reply == Some(false) && -18_000_000_000_000_000_000_000_000_000 <= now@
            - answer->0@ <= 18_000_000_000_000_000_000_000_000_000 ==> r is Some,
{
}

/// The age of a packet matters exactly where the reaction to it depends on it: it is a
/// control packet, or an update for a player that plays.
pub proof fn law_whose_age_matters(packet: Packet, state: PlaybackState, r: Option<Duration>)
    requires
        call_ensures(timestamp_of, (&packet, &state), r),
    ensures
        packet matches Packet::PlaybackControl { timestamp, .. } ==> r == Some(timestamp),
        packet matches Packet::PlaybackUpdate { timestamp, .. } ==> r == if state is Playing {
            Some(timestamp)
        } else {
            None
        },
        !(packet is PlaybackControl) && !(packet is PlaybackUpdate) ==> r is None,
{
}

/// A seek comes first where there is one, and is tried again until it succeeds only where
/// that is insisted on; then the player is paused, or goes on, which is tried again until
/// it succeeds. There is a wait before each step that is tried again.
pub proof fn law_steps_of_control(
    seek: Option<SignedDuration>,
    insist: bool,
    paused: bool,
    first: ControlStep,
    succeeded: bool,
    next: (ControlStep, bool),
    pause: (ControlStep, bool),
)
    requires
        call_ensures(first_control, (seek, insist, paused), first),
        call_ensures(next_control, (first, succeeded), next),
        call_ensures(next_control, (ControlStep::Pause { paused }, succeeded), pause),
    ensures
        seek is None ==> first == (ControlStep::Pause { paused }),
        seek matches Some(time) ==> first == (ControlStep::Seek { time, insist, paused }),
        seek is Some && (succeeded || !insist) ==> next == (ControlStep::Pause { paused }, false),
        seek is Some && !succeeded && insist ==> next == (first, true),
        succeeded ==> pause == (ControlStep::Done, false),
        !succeeded ==> pause == (ControlStep::Pause { paused }, true),
{
}

/// The player is asked for what it has played and then for whether it is paused, and for
/// nothing more.
pub proof fn law_questions(query: StateQuery, r: Option<Command>)
    requires
        call_ensures(StateQuery::command, (&query,), r),
    ensures
        query is AskTime ==> (r matches Some(Command::GetProperty(name)) && name@
            == "playback-time"@),
        query is AskPause ==> (r matches Some(Command::GetProperty(name)) && name@ == "pause"@),
        query is Stopped ==> r is None,
{
}

/// The player is told to report on its being paused and to play the file, to be paused or
/// to go on, and to play from a position.
pub proof fn law_commands_of_a_client(
    filename: String,
    first: (Command, Command),
    paused: bool,
    pause: Command,
    position: Json,
    seek: Command,
)
    requires
        call_ensures(first_commands, (filename,), first),
        call_ensures(pause_command, (paused,), pause),
        call_ensures(seek_command, (position,), seek),
    ensures
        first.0 matches Command::Observe(id, name) && id == 2 && name@ == "pause"@,
        first.1 == Command::LoadFile(filename, LoadFileOptions::Replace),
        pause matches Command::SetProperty(name, value) && name@ == "pause"@ && (paused ==> value@
            == "true"@) && (!paused ==> value@ == "false"@),
        seek == Command::Seek(position, SeekOptions::Absolute),
{
}

/// Every certificate is accepted.
pub proof fn law_every_certificate_is_accepted(
    verifier: SkipServerVerification,
    certificate: &[u8],
    r: bool,
)
    requires
        call_ensures(SkipServerVerification::verify_server_cert, (&verifier, certificate), r),
    ensures
        r,
{
}

/// What is announced of a player that plays is the time since it began, and nothing where
/// that is yet to come; what is announced of one that is paused is where it is paused.
pub proof fn law_announced_state(
    state: PlaybackState,
    timestamp: Duration,
    now: Instant,
    r: Option<Packet>,
)
    requires
        !(state is Stopped),
        call_ensures(announcement, (&state, timestamp, now), r),
    ensures
        state matches PlaybackState::Paused { elapsed } ==> r == Some(
            Packet::PlaybackControl { timestamp, paused: true, elapsed },
        ),
        state matches PlaybackState::Playing { start } ==> {
            &&& r is Some <==> now@ - start@ <= 18_446_744_073_709_551_615_999_999_999
            &&& r is Some ==> (r matches Some(
                Packet::PlaybackControl { timestamp: sent, paused, elapsed },
            ) && sent == timestamp && !paused && elapsed@ == if now@ >= start@ {
                now@ - start@
            } else {
                0
            })
        },
{
}

/// How often a client asks for the time, and how long it waits before it tries again.
pub proof fn law_numbers_of_a_client()
    ensures
        SYNC_INTERVAL_SECS == 5,
        RETRY_DELAY_MILLIS == 100,
{
}

} // verus!
