//! A running player, and the exchanges with it.

use vstd::prelude::*;

use crate::mpv::command::{Command, TaggedCommand};
use crate::mpv::error::{CodecError, CommandError, Error};
use crate::mpv::json::Json;
use crate::mpv::response::MpvResult;
use crate::mpv::text::{decimal, push_decimal};

verus! {

/// How to start a player, and where it will listen for commands.
#[derive(Debug, PartialEq, Eq)]
pub struct Launch {
    /// The program to run.
    pub program: &'static str,
    /// The arguments to run it with.
    pub arguments: Vec<String>,
    /// The path of the socket to connect to.
    pub socket: String,
}

/// The path of the socket of the player that the process with this number starts.
pub open spec fn socket_path(process_id: int) -> Seq<char> {
    "/tmp/mpv."@ + decimal(process_id) + ".sock"@
}

/// This program's side of a connection to a player.
#[derive(Debug, PartialEq, Eq)]
pub struct Mpv {
    next_request_id: i64,
}

impl Mpv {
    /// The number that the next command will carry.
    pub closed spec fn next_id(self) -> int {
        self.next_request_id as int
    }

    /// Begins to start a player, one that has had no commands yet: how the process with
    /// this number starts it, idle, without a terminal, and with a socket of its own.
    pub fn spawn(process_id: u32) -> (r: (Startup, Launch))
        ensures
            r.0 matches Startup::Starting(mpv) && mpv.next_id() == 0,
            r.1.program@ == "mpv"@,
            r.1.socket@ == socket_path(process_id as int),
            r.1.arguments@.len() == 3,
            r.1.arguments@[0]@ == "--input-ipc-server="@ + socket_path(process_id as int),
            r.1.arguments@[1]@ == "--idle"@,
            r.1.arguments@[2]@ == "--no-terminal"@,
    {
        let mut socket: String = "/tmp/mpv.".to_owned();
        push_decimal(&mut socket, process_id as i64);
        socket.append(".sock");

        let mut server: String = "--input-ipc-server=".to_owned();
        server.append(socket.as_str());
        let mut arguments: Vec<String> = Vec::new();
        arguments.push(server);
        arguments.push("--idle".to_owned());
        arguments.push("--no-terminal".to_owned());

        (Startup::Starting(Mpv { next_request_id: 0 }), Launch { program: "mpv", arguments, socket })
    }

    /// Begins to have a command carried out: the command to be sent, with a number
    /// that no other has, and the exchange that is to follow.
    pub fn send_command(&mut self, command: Command) -> (r: (TaggedCommand, Exchange))
        requires
            old(self).next_id() < i64::MAX,
        ensures
            r.0 == (TaggedCommand { command, request_id: r.0.request_id }),
            r.0.request_id == old(self).next_id(),
            r.1 == Exchange::Sending,
            final(self).next_id() == old(self).next_id() + 1,
    {
        let request_id: i64 = self.next_request_id;
        self.next_request_id = request_id + 1;
        (TaggedCommand { command, request_id }, Exchange::Sending)
    }

    /// Whether there is a number left for another command.
    pub fn has_request_id(&self) -> (r: bool)
        ensures
            r == (self.next_id() < i64::MAX),
    {
        self.next_request_id < i64::MAX
    }
}

/// How far the start of a player is.
#[derive(Debug, PartialEq, Eq)]
pub enum Startup {
    /// The process is being started.
    Starting(Mpv),
    /// The process runs; the connection to it is being made.
    Connecting(Mpv),
    /// There is a player, or there will be none.
    Finished(Result<Mpv, Error>),
}

/// What happens while a player is started.
#[derive(Debug, PartialEq, Eq)]
pub enum StartupEvent {
    /// The process has been started.
    Started,
    /// The process could not be started, for this reason.
    NotStarted(String),
    /// The connection has been made.
    Connected,
    /// The connection could not be made.
    NotConnected,
}

impl Startup {
    /// Whether this can happen now.
    pub open spec fn accepts(self, event: StartupEvent) -> bool {
        match self {
            Startup::Starting(_) => event is Started || event is NotStarted,
            Startup::Connecting(_) => event is Connected || event is NotConnected,
            Startup::Finished(_) => false,
        }
    }

    /// Where the start is after this has happened. A process that cannot be started is
    /// an error; a connection that cannot be made is tried again.
    pub open spec fn after(self, event: StartupEvent) -> Startup {
        match (self, event) {
            (Startup::Starting(mpv), StartupEvent::Started) => Startup::Connecting(mpv),
            (Startup::Starting(_), StartupEvent::NotStarted(reason)) => Startup::Finished(
                Err(Error::StartProcessError(reason)),
            ),
            (Startup::Connecting(mpv), StartupEvent::Connected) => Startup::Finished(Ok(mpv)),
            _ => self,
        }
    }

    /// Takes the start one step on.
    pub fn step(self, event: StartupEvent) -> (r: Startup)
        requires
            self.accepts(event),
        ensures
            r == self.after(event),
    {
        match self {
            Startup::Starting(mpv) => match event {
                StartupEvent::NotStarted(reason) => Startup::Finished(
                    Err(Error::StartProcessError(reason)),
                ),
                _ => Startup::Connecting(mpv),
            },
            Startup::Connecting(mpv) => match event {
                StartupEvent::Connected => Startup::Finished(Ok(mpv)),
                _ => Startup::Connecting(mpv),
            },
            Startup::Finished(result) => Startup::Finished(result),
        }
    }

    /// Where the start is after `times` attempts in vain to make the connection.
    pub open spec fn after_failures(self, times: nat) -> Startup
        decreases times,
    {
        if times == 0 {
            self
        } else {
            self.after_failures((times - 1) as nat).after(StartupEvent::NotConnected)
        }
    }
}

/// Whether there is a player is decided by the start of the process alone. Where that
/// fails, its reason is the error, and no connection is attempted. Where it succeeds,
/// attempts in vain to make the connection change nothing, however many there are, and
/// the first that succeeds gives the player.
pub proof fn law_start_decides(mpv: Mpv, start: StartupEvent, failures: nat)
    requires
        Startup::Starting(mpv).accepts(start),
    ensures
        match start {
            StartupEvent::NotStarted(reason) => Startup::Starting(mpv).after(start)
                == Startup::Finished(Err::<Mpv, Error>(Error::StartProcessError(reason))),
            _ => {
                let connecting = Startup::Starting(mpv).after(start).after_failures(failures);
                &&& connecting == Startup::Connecting(mpv)
                &&& connecting.accepts(StartupEvent::NotConnected)
                &&& connecting.after(StartupEvent::Connected) == Startup::Finished(
                    Ok::<Mpv, Error>(mpv),
                )
            },
        },
    decreases failures,
{
    if failures > 0 {
        law_start_decides(mpv, start, (failures - 1) as nat);
    }
}

/// How far an exchange with the player is.
#[derive(Debug, PartialEq, Eq)]
pub enum Exchange {
    /// The command is being sent.
    Sending,
    /// The command is sent; a listener for the answer is being registered.
    Registering,
    /// The answer is awaited.
    Awaiting,
    /// There is a result.
    Finished(Result<Json, Error>),
}

/// What happens in an exchange with the player.
#[derive(Debug, PartialEq, Eq)]
pub enum ExchangeEvent {
    /// The command has been sent.
    Sent,
    /// The command could not be sent.
    NotSent(CodecError),
    /// The listener has been registered.
    Registered,
    /// The listener could not be registered, for this reason.
    NotRegistered(String),
    /// The answer has come.
    Answered(MpvResult),
    /// The answer will never come, for this reason.
    Lost(String),
}

impl Exchange {
    /// Whether this can happen now.
    pub open spec fn accepts(self, event: ExchangeEvent) -> bool {
        match self {
            Exchange::Sending => event is Sent || event is NotSent,
            Exchange::Registering => event is Registered || event is NotRegistered,
            Exchange::Awaiting => event is Answered || event is Lost,
            Exchange::Finished(_) => false,
        }
    }

    /// Where the exchange is after this has happened.
    pub open spec fn after(self, event: ExchangeEvent) -> Exchange {
        match event {
            ExchangeEvent::Sent => Exchange::Registering,
            ExchangeEvent::NotSent(e) => Exchange::Finished(Err(Error::CodecError(e))),
            ExchangeEvent::Registered => Exchange::Awaiting,
            ExchangeEvent::NotRegistered(reason) => Exchange::Finished(
                Err(Error::CommandError(CommandError::SendError(reason))),
            ),
            ExchangeEvent::Answered(Ok(data)) => Exchange::Finished(Ok(data)),
            ExchangeEvent::Answered(Err(error)) => Exchange::Finished(
                Err(Error::CommandError(CommandError::MpvError(error))),
            ),
            ExchangeEvent::Lost(reason) => Exchange::Finished(
                Err(Error::CommandError(CommandError::RecvError(reason))),
            ),
        }
    }

    /// Takes the exchange one step on.
    pub fn step(self, event: ExchangeEvent) -> (r: Exchange)
        requires
            self.accepts(event),
        ensures
            r == self.after(event),
    {
        match event {
            ExchangeEvent::Sent => Exchange::Registering,
            ExchangeEvent::NotSent(e) => Exchange::Finished(Err(Error::CodecError(e))),
            ExchangeEvent::Registered => Exchange::Awaiting,
            ExchangeEvent::NotRegistered(reason) => Exchange::Finished(
                Err(Error::CommandError(CommandError::SendError(reason))),
            ),
            ExchangeEvent::Answered(Ok(data)) => Exchange::Finished(Ok(data)),
            ExchangeEvent::Answered(Err(error)) => Exchange::Finished(
                Err(Error::CommandError(CommandError::MpvError(error))),
            ),
            ExchangeEvent::Lost(reason) => Exchange::Finished(
                Err(Error::CommandError(CommandError::RecvError(reason))),
            ),
        }
    }
}

/// An exchange succeeds exactly where the command is sent, its listener registered and
/// the player's answer is data, and the result is that data.
pub proof fn law_exchange_succeeds(sent: ExchangeEvent, registered: ExchangeEvent, answer: ExchangeEvent)
    requires
        Exchange::Sending.accepts(sent),
        Exchange::Sending.after(sent).accepts(registered),
        Exchange::Sending.after(sent).after(registered).accepts(answer),
    ensures
        sent == ExchangeEvent::Sent,
        registered == ExchangeEvent::Registered,
        match Exchange::Sending.after(sent).after(registered).after(answer) {
            Exchange::Finished(Ok(data)) => answer == ExchangeEvent::Answered(Ok(data)),
            Exchange::Finished(Err(_)) => !(answer matches ExchangeEvent::Answered(Ok(_))),
            _ => false,
        },
{
}

/// The player is started by its name, idle, without a terminal, and with a socket whose
/// path holds the number of the process that starts it, which is where to connect to.
pub proof fn law_how_a_player_is_started(process_id: u32, startup: Startup, launch: Launch)
    requires
        call_ensures(Mpv::spawn, (process_id,), (startup, launch)),
    ensures
        launch.program@ == "mpv"@,
        launch.socket@ == "/tmp/mpv."@ + decimal(process_id as int) + ".sock"@,
        launch.arguments@.len() == 3,
        launch.arguments@[0]@ == "--input-ipc-server="@ + launch.socket@,
        launch.arguments@[1]@ == "--idle"@,
        launch.arguments@[2]@ == "--no-terminal"@,
        startup is Starting,
{
}

/// A started player has had no commands, and its commands are numbered from 0 on, each by
/// one more than the one before; each is sent as it is.
pub proof fn law_commands_are_numbered(
    process_id: u32,
    mpv: Mpv,
    launch: Launch,
    player: &mut Mpv,
    first: Command,
    one: (TaggedCommand, Exchange),
    later: &mut Mpv,
    second: Command,
    two: (TaggedCommand, Exchange),
    has_request_id: bool,
)
    requires
        call_ensures(Mpv::spawn, (process_id,), (Startup::Starting(mpv), launch)),
        old(player).next_id() < i64::MAX - 1,
        call_ensures(Mpv::send_command, (player, first), one),
        *old(later) == *final(player),
        call_ensures(Mpv::send_command, (later, second), two),
        call_ensures(Mpv::has_request_id, (&*old(player),), has_request_id),
    ensures
        *old(player) == mpv ==> one.0.request_id == 0,
        two.0.request_id == one.0.request_id + 1,
        one.0.command == first,
        two.0.command == second,
        one.1 == Exchange::Sending,
        two.1 == Exchange::Sending,
        has_request_id,
{
}

/// Starting a player goes on, fails or succeeds as what happens says: only a process that
/// does not start is an error, with its reason, and a connection that is not made is tried
/// again.
pub proof fn law_steps_of_a_start(
    mpv: Mpv,
    reason: String,
    started: Startup,
    not_started: Startup,
    connected: Startup,
    not_connected: Startup,
)
    requires
        call_ensures(Startup::step, (Startup::Starting(mpv), StartupEvent::Started), started),
        call_ensures(
            Startup::step,
            (Startup::Starting(mpv), StartupEvent::NotStarted(reason)),
            not_started,
        ),
        call_ensures(Startup::step, (started, StartupEvent::Connected), connected),
        call_ensures(Startup::step, (started, StartupEvent::NotConnected), not_connected),
    ensures
        started == Startup::Connecting(mpv),
        not_started == Startup::Finished(Err::<Mpv, Error>(Error::StartProcessError(reason))),
        connected == Startup::Finished(Ok::<Mpv, Error>(mpv)),
        not_connected == started,
{
}

/// An exchange ends with the player's data exactly where all goes well, and otherwise with
/// the error of the step that failed, and its reason.
pub proof fn law_steps_of_an_exchange(
    codec_error: CodecError,
    reason: String,
    answer: MpvResult,
    sent: Exchange,
    not_sent: Exchange,
    registered: Exchange,
    not_registered: Exchange,
    answered: Exchange,
    lost: Exchange,
)
    requires
        call_ensures(Exchange::step, (Exchange::Sending, ExchangeEvent::Sent), sent),
        call_ensures(
            Exchange::step,
            (Exchange::Sending, ExchangeEvent::NotSent(codec_error)),
            not_sent,
        ),
        call_ensures(Exchange::step, (sent, ExchangeEvent::Registered), registered),
        call_ensures(Exchange::step, (sent, ExchangeEvent::NotRegistered(reason)), not_registered),
        call_ensures(Exchange::step, (registered, ExchangeEvent::Answered(answer)), answered),
        call_ensures(Exchange::step, (registered, ExchangeEvent::Lost(reason)), lost),
    ensures
        sent == Exchange::Registering,
        registered == Exchange::Awaiting,
        not_sent == Exchange::Finished(Err(Error::CodecError(codec_error))),
        not_registered == Exchange::Finished(
            Err(Error::CommandError(CommandError::SendError(reason))),
        ),
        lost == Exchange::Finished(Err(Error::CommandError(CommandError::RecvError(reason)))),
        answer matches Ok(data) ==> answered == Exchange::Finished(Ok(data)),
        answer matches Err(text) ==> answered == Exchange::Finished(
            Err(Error::CommandError(CommandError::MpvError(text))),
        ),
{
}

} // verus!
