use syncplay::client::{
    announcement, drift, first_commands, first_control, must_announce, next_control, on_pause_reply, on_time_reply,
    pause_command, react, seek_command, timestamp_of, ControlStep, Reaction, SkipServerVerification, StateQuery,
};
use syncplay::clock::{Instant, INSTANT_LIMIT};
use syncplay::duration::{Duration, SignedDuration, MAX_NANOS, MAX_SIGNED_NANOS};
use syncplay::mpv::command::{Command, LoadFileOptions, SeekOptions};
use syncplay::mpv::json::Json;
use syncplay::packet::{Packet, PlaybackState};
use syncplay::server;
use syncplay::server::{wrong_version_reason, Reply, Server};

const SEC: i128 = 1_000_000_000;

fn at(nanos: i128) -> Instant {
    Instant::from_nanos(nanos).unwrap()
}

fn ns(nanos: i128) -> Duration {
    Duration::from_nanos(nanos as u128).unwrap()
}

fn signed(nanos: i128) -> SignedDuration {
    SignedDuration::from_nanos(nanos).unwrap()
}

fn playing(start: i128) -> PlaybackState {
    PlaybackState::Playing { start: at(start) }
}

fn paused(elapsed: i128) -> PlaybackState {
    PlaybackState::Paused { elapsed: ns(elapsed) }
}

fn control(timestamp: i128, paused: bool, elapsed: i128) -> Packet {
    Packet::PlaybackControl { timestamp: ns(timestamp), paused, elapsed: ns(elapsed) }
}

#[test]
fn accepts_all_certificates() {
    let verifier = SkipServerVerification::new();
    assert_eq!(*verifier, SkipServerVerification);
    assert!(verifier.verify_server_cert(&[]));
    assert!(verifier.verify_server_cert(&[0x30, 0x82]));
}

#[test]
fn commands_of_a_client() {
    let (observe, load) = first_commands("film.mkv".to_string());
    assert_eq!(observe, Command::Observe(2, "pause"));
    assert_eq!(load, Command::LoadFile("film.mkv".to_string(), LoadFileOptions::Replace));
    assert_eq!(pause_command(true), Command::SetProperty("pause", Json::boolean(true)));
    assert_eq!(pause_command(false), Command::SetProperty("pause", Json::boolean(false)));
    let position = || Json::from_text("12.5".to_string()).unwrap();
    assert_eq!(seek_command(position()), Command::Seek(position(), SeekOptions::Absolute));
}

#[test]
fn asks_what_the_player_does() {
    assert_eq!(StateQuery::AskTime.command(), Some(Command::GetProperty("playback-time")));
    assert_eq!(on_time_reply(None), StateQuery::Stopped);
    assert_eq!(StateQuery::Stopped.command(), None);
    let query = on_time_reply(Some(signed(5)));
    assert_eq!(query, StateQuery::AskPause { time: signed(5) });
    assert_eq!(query.command(), Some(Command::GetProperty("pause")));
}

#[test]
fn knows_what_the_player_does() {
    assert_eq!(on_pause_reply(signed(5 * SEC), Some(false), at(7 * SEC)), Some(playing(2 * SEC)));
    assert_eq!(on_pause_reply(signed(-SEC), Some(false), at(0)), Some(playing(SEC)));
    assert_eq!(on_pause_reply(signed(5 * SEC), Some(true), at(0)), Some(paused(5 * SEC)));
    assert_eq!(on_pause_reply(signed(-SEC), Some(true), at(0)), Some(paused(0)));
    assert_eq!(on_pause_reply(signed(5), None, at(0)), Some(PlaybackState::Stopped));
    assert_eq!(on_pause_reply(signed(1), Some(false), at(-INSTANT_LIMIT)), None);
}

#[test]
fn announces_jumps() {
    let stopped = PlaybackState::Stopped;
    assert!(!must_announce(&stopped, &stopped));
    assert!(must_announce(&stopped, &playing(0)));
    assert!(must_announce(&stopped, &paused(0)));
    assert!(must_announce(&playing(0), &stopped));
    assert!(must_announce(&playing(0), &paused(0)));
    assert!(must_announce(&paused(0), &stopped));
    assert!(must_announce(&paused(0), &playing(0)));
    assert!(!must_announce(&playing(0), &playing(SEC)));
    assert!(must_announce(&playing(0), &playing(SEC + 1)));
    assert!(must_announce(&playing(SEC + 1), &playing(0)));
    assert!(must_announce(&playing(-INSTANT_LIMIT), &playing(INSTANT_LIMIT)));
    assert!(!must_announce(&paused(3 * SEC), &paused(2 * SEC)));
    assert!(must_announce(&paused(3 * SEC), &paused(2 * SEC - 1)));
    assert!(must_announce(&paused(2 * SEC - 1), &paused(3 * SEC)));
}

#[test]
fn announces_the_position() {
    assert_eq!(announcement(&playing(3 * SEC), ns(9), at(10 * SEC)), Some(control(9, false, 7 * SEC)));
    assert_eq!(announcement(&playing(3 * SEC), ns(9), at(2 * SEC)), Some(control(9, false, 0)));
    assert_eq!(announcement(&paused(4 * SEC), ns(9), at(10 * SEC)), Some(control(9, true, 4 * SEC)));
    let longest = MAX_NANOS as i128;
    assert_eq!(announcement(&playing(-longest), ns(9), at(0)), Some(control(9, false, longest)));
    assert_eq!(announcement(&playing(-longest), ns(9), at(1)), None);
}

#[test]
fn age_matters_to_a_client() {
    assert_eq!(timestamp_of(&control(8, true, 0), &PlaybackState::Stopped), Some(ns(8)));
    let update = Packet::PlaybackUpdate { timestamp: ns(8), elapsed: ns(0) };
    assert_eq!(timestamp_of(&update, &playing(0)), Some(ns(8)));
    assert_eq!(timestamp_of(&update, &paused(0)), None);
    assert_eq!(timestamp_of(&Packet::TimeSyncRequest, &playing(0)), None);
}

#[test]
fn client_is_controlled() {
    let packet = control(0, true, 10 * SEC);
    let seek = Some(signed(9 * SEC));
    assert_eq!(
        react(&packet, &PlaybackState::Stopped, ns(SEC), at(0)),
        Some(Reaction::Control { seek, insist: true, paused: true })
    );
    assert_eq!(
        react(&packet, &paused(0), ns(SEC), at(0)),
        Some(Reaction::Control { seek, insist: false, paused: true })
    );
    // It has played for a little under ten seconds, and for ten.
    assert_eq!(
        react(&packet, &playing(0), ns(SEC), at(10 * SEC - 1)),
        Some(Reaction::Control { seek, insist: false, paused: true })
    );
    assert_eq!(
        react(&packet, &playing(0), ns(SEC), at(10 * SEC)),
        Some(Reaction::Control { seek: None, insist: false, paused: true })
    );
    assert_eq!(
        react(&control(0, false, SEC), &paused(0), ns(3 * SEC), at(0)),
        Some(Reaction::Control { seek: Some(signed(-2 * SEC)), insist: false, paused: false })
    );
}

#[test]
fn client_catches_up() {
    let update = |elapsed: i128| Packet::PlaybackUpdate { timestamp: ns(0), elapsed: ns(elapsed) };
    let now = at(20 * SEC);
    assert_eq!(react(&update(12 * SEC), &playing(10 * SEC), ns(SEC), now), Some(Reaction::Ignore));
    assert_eq!(react(&update(8 * SEC), &playing(10 * SEC), ns(SEC), now), Some(Reaction::Ignore));
    assert_eq!(
        react(&update(12 * SEC + 1), &playing(10 * SEC), ns(SEC), now),
        Some(Reaction::Seek(signed(11 * SEC + 1)))
    );
    assert_eq!(
        react(&update(8 * SEC - 1), &playing(10 * SEC), ns(SEC), now),
        Some(Reaction::Seek(signed(7 * SEC - 1)))
    );
    assert_eq!(react(&update(0), &paused(90 * SEC), ns(SEC), now), Some(Reaction::Ignore));
    assert_eq!(react(&update(0), &PlaybackState::Stopped, ns(SEC), now), Some(Reaction::Ignore));
}

#[test]
fn drift_is_how_far_the_server_is_ahead() {
    assert_eq!(drift(at(10 * SEC), ns(12 * SEC), ns(SEC), at(20 * SEC)), Some(signed(2 * SEC)));
    assert_eq!(drift(at(10 * SEC), ns(7 * SEC), ns(5 * SEC), at(20 * SEC)), Some(signed(-3 * SEC)));
    assert_eq!(drift(at(0), Duration::from_nanos(MAX_NANOS).unwrap(), ns(0), at(0)), None);
}

#[test]
fn client_in_step_is_left_alone() {
    // The server began at 100 on its clock, the client at 500 on its own.
    let server = Server::new(at(100 * SEC));
    let (sent, latency) = (130 * SEC, 2 * SEC);
    let update = server.update(ns(0), at(sent)).unwrap();
    let arrived = at(500 * SEC + 30 * SEC + latency);
    assert_eq!(react(&update, &playing(500 * SEC), ns(latency), arrived), Some(Reaction::Ignore));
    let late = at(500 * SEC + 30 * SEC + latency + 1);
    assert_eq!(
        react(&update, &playing(500 * SEC), ns(latency + 1), late),
        Some(Reaction::Seek(signed(28 * SEC - 1)))
    );
}

#[test]
fn client_takes_the_time_and_ignores_the_rest() {
    let state = playing(0);
    assert_eq!(
        react(&Packet::TimeSyncResponse(ns(5)), &state, ns(0), at(0)),
        Some(Reaction::FinishSync(ns(5)))
    );
    assert_eq!(react(&Packet::TimeSyncRequest, &state, ns(0), at(0)), Some(Reaction::Ignore));
    assert_eq!(react(&Packet::Version(69), &state, ns(0), at(0)), Some(Reaction::Ignore));
    let info = Packet::MediaInfo { name: "film".to_string(), duration: ns(1) };
    assert_eq!(react(&info, &state, ns(0), at(0)), Some(Reaction::Ignore));
}

#[test]
fn client_refuses_times_that_are_too_long() {
    let longest = Duration::from_nanos(MAX_NANOS).unwrap();
    let packet = Packet::PlaybackControl { timestamp: ns(0), paused: true, elapsed: longest };
    assert_eq!(react(&packet, &PlaybackState::Stopped, ns(0), at(0)), None);
    let update = Packet::PlaybackUpdate { timestamp: ns(0), elapsed: longest };
    assert_eq!(react(&update, &playing(0), ns(0), at(0)), None);
    assert_eq!(react(&control(0, true, 0), &PlaybackState::Stopped, longest, at(0)), None);
    // The player has played for too long.
    let early = playing(-MAX_SIGNED_NANOS);
    assert!(react(&control(0, true, 0), &early, ns(0), at(0)).is_some());
    assert_eq!(react(&control(0, true, 0), &early, ns(0), at(1)), None);
    let update = Packet::PlaybackUpdate { timestamp: ns(0), elapsed: ns(0) };
    assert_eq!(react(&update, &early, ns(0), at(0)), Some(Reaction::Seek(signed(0))));
    assert_eq!(react(&update, &early, ns(0), at(1)), None);
    // It is to play from too far ahead of where it is.
    let late = playing(MAX_SIGNED_NANOS);
    let update = Packet::PlaybackUpdate { timestamp: ns(0), elapsed: ns(1) };
    assert_eq!(react(&update, &late, ns(1), at(0)), None);
}

#[test]
fn control_is_insisted_on() {
    let time = signed(SEC);
    let must = first_control(Some(time), true, false);
    assert_eq!(must, ControlStep::Seek { time, insist: true, paused: false });
    let pause = ControlStep::Pause { paused: false };
    assert_eq!(next_control(must, false), (must, true));
    assert_eq!(next_control(must, true), (pause, false));
    let may = first_control(Some(time), false, false);
    assert_eq!(next_control(may, false), (pause, false));
    assert_eq!(next_control(may, true), (pause, false));
    assert_eq!(first_control(None, true, false), pause);
    assert_eq!(next_control(pause, false), (pause, true));
    assert_eq!(next_control(pause, true), (ControlStep::Done, false));
    assert_eq!(next_control(ControlStep::Done, false), (ControlStep::Done, false));
}

#[test]
fn server_welcomes() {
    let mut s = Server::new(at(SEC));
    s.connect(5);
    assert_eq!(
        s.react(5, &Packet::Version(69), ns(0), at(2 * SEC), ns(77), at(3 * SEC)),
        Some(Reply::Welcome { refuse: false, packet: control(77, false, 2 * SEC) })
    );
    assert_eq!(
        s.react(5, &Packet::Version(70), ns(0), at(2 * SEC), ns(78), at(4 * SEC)),
        Some(Reply::Welcome { refuse: true, packet: control(78, false, 3 * SEC) })
    );
    assert_eq!(server::WRONG_VERSION_CODE, 69);
    assert_eq!(wrong_version_reason(), "wrong version");
}

#[test]
fn server_relays_to_all_others() {
    let mut s = Server::new(at(0));
    for id in [4, 2, 9, 2] {
        s.connect(id);
    }
    assert_eq!(s.everyone(), vec![4, 2, 9]);
    let reply = s.react(2, &control(0, false, 10 * SEC), ns(SEC), at(100 * SEC), ns(5), at(100 * SEC + 1));
    assert_eq!(reply, Some(Reply::Relay { packet: control(5, false, 11 * SEC + 1), to: vec![4, 9] }));
    s.disconnect(4);
    s.disconnect(4);
    assert_eq!(s.everyone(), vec![2, 9]);
    assert_eq!(s.recipients(9), vec![2]);
    assert_eq!(s.recipients(4), vec![2, 9]);
}

#[test]
fn server_pauses_and_goes_on() {
    let mut s = Server::new(at(0));
    s.connect(1);
    assert_eq!(
        s.update(ns(3), at(2 * SEC)),
        Some(Packet::PlaybackUpdate { timestamp: ns(3), elapsed: ns(2 * SEC) })
    );
    let reply = s.react(1, &control(0, true, 30 * SEC), ns(SEC), at(50 * SEC), ns(5), at(60 * SEC));
    assert_eq!(reply, Some(Reply::Relay { packet: control(5, true, 30 * SEC), to: vec![] }));
    assert_eq!(s.update(ns(3), at(70 * SEC)), None);
    let reply = s.react(1, &control(0, false, 30 * SEC), ns(SEC), at(80 * SEC), ns(6), at(80 * SEC));
    assert_eq!(reply, Some(Reply::Relay { packet: control(6, false, 31 * SEC), to: vec![] }));
    assert_eq!(
        s.update(ns(3), at(90 * SEC)),
        Some(Packet::PlaybackUpdate { timestamp: ns(3), elapsed: ns(41 * SEC) })
    );
}

#[test]
fn server_tells_the_time_and_ignores_the_rest() {
    let mut s = Server::new(at(0));
    assert_eq!(
        s.react(1, &Packet::TimeSyncRequest, ns(0), at(0), ns(5), at(0)),
        Some(Reply::Datagram(Packet::TimeSyncResponse(ns(5))))
    );
    assert_eq!(s.react(1, &Packet::TimeSyncResponse(ns(1)), ns(0), at(0), ns(5), at(0)), Some(Reply::Ignore));
    let update = Packet::PlaybackUpdate { timestamp: ns(0), elapsed: ns(0) };
    assert_eq!(s.react(1, &update, ns(0), at(0), ns(5), at(0)), Some(Reply::Ignore));
    assert_eq!(server::timestamp_of(&update), None);
    assert_eq!(server::timestamp_of(&control(6, true, 0)), Some(ns(6)));
}

#[test]
fn server_takes_long_times() {
    let mut s = Server::new(at(0));
    for secs in [3_000_000_000_000_000_000, 9_000_000_000_000_000_000] {
        let reply = s.react(1, &control(0, false, secs * SEC), ns(SEC), at(5 * SEC), ns(5), at(7 * SEC));
        assert_eq!(reply, Some(Reply::Relay { packet: control(5, false, (secs + 3) * SEC), to: vec![] }));
    }
    let longest = Duration::from_nanos(MAX_NANOS).unwrap();
    let packet = || Packet::PlaybackControl { timestamp: ns(5), paused: true, elapsed: longest };
    let reply = s.react(1, &packet(), ns(0), at(0), ns(5), at(9));
    assert_eq!(reply, Some(Reply::Relay { packet: packet(), to: vec![] }));
    // It goes on, until it has gone on for too long.
    let go_on = Packet::PlaybackControl { timestamp: ns(5), paused: false, elapsed: longest };
    assert!(s.react(1, &go_on, ns(0), at(0), ns(5), at(0)).is_some());
    assert!(s.update(ns(0), at(0)).is_some());
    assert_eq!(s.update(ns(0), at(1)), None);
    assert_eq!(s.react(1, &Packet::Version(69), ns(0), at(1), ns(0), at(1)), None);
}

#[test]
fn server_refuses_times_that_are_too_long() {
    let mut s = Server::new(at(0));
    let longest = Duration::from_nanos(MAX_NANOS).unwrap();
    let packet = Packet::PlaybackControl { timestamp: ns(0), paused: true, elapsed: longest };
    assert_eq!(s.react(1, &packet, ns(1), at(0), ns(0), at(0)), None);
    let packet = Packet::PlaybackControl { timestamp: ns(0), paused: false, elapsed: longest };
    assert_eq!(s.react(1, &packet, ns(0), at(0), ns(0), at(1)), None);
    assert_eq!(
        s.update(ns(3), at(2 * SEC)),
        Some(Packet::PlaybackUpdate { timestamp: ns(3), elapsed: ns(2 * SEC) })
    );
}
