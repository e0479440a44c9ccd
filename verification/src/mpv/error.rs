//! What can go wrong between this program and the player.

use vstd::prelude::*;

verus! {

/// Why a line could not be read or written.
#[derive(Debug, PartialEq, Eq)]
pub enum LineError {
    /// The line is longer than it may be.
    MaxLineLengthExceeded,
    /// Reading or writing failed, for this reason.
    Io(String),
}

/// Why a message could not be read or written.
#[derive(Debug, PartialEq, Eq)]
pub enum CodecError {
    /// There is no line to be had.
    LinesCodec(LineError),
    /// The message has no JSON form, for this reason.
    Serialization(String),
    /// Reading or writing failed, for this reason.
    Io(String),
    /// Formatting failed, for this reason.
    Fmt(String),
}

/// Why a command has no result.
#[derive(Debug, PartialEq, Eq)]
pub enum CommandError {
    /// Nobody listens for the player's answers any more, for this reason.
    SendError(String),
    /// The answer will never come, for this reason.
    RecvError(String),
    /// The player answered with this error.
    MpvError(String),
}

/// What can go wrong with a player.
#[derive(Debug, PartialEq, Eq)]
pub enum Error {
    /// The player could not be started, for this reason.
    StartProcessError(String),
    /// A message could not be read or written.
    CodecError(CodecError),
    /// A command has no result.
    CommandError(CommandError),
}

/// `prefix` and `reason`, one after the other.
fn explained(prefix: &str, reason: &str) -> (r: String)
    ensures
        r@ == prefix@ + reason@,
{
    let mut text: String = prefix.to_owned();
    text.append(reason);
    text
}

impl LineError {
    /// What went wrong, in words.
    pub open spec fn text(self) -> Seq<char> {
        match self {
            LineError::MaxLineLengthExceeded => "max line length exceeded"@,
            LineError::Io(reason) => reason@,
        }
    }

    /// What went wrong, in words.
    pub fn message(&self) -> (r: String)
        ensures
            r@ == self.text(),
    {
        match self {
            LineError::MaxLineLengthExceeded => "max line length exceeded".to_owned(),
            LineError::Io(reason) => reason.clone(),
        }
    }
}

impl CodecError {
    /// What went wrong, in words.
    pub open spec fn text(self) -> Seq<char> {
        match self {
            CodecError::LinesCodec(e) => "lines codec error: "@ + e.text(),
            CodecError::Serialization(reason) => "serialization error: "@ + reason@,
            CodecError::Io(reason) => "io error: "@ + reason@,
            CodecError::Fmt(reason) => "fmt error: "@ + reason@,
        }
    }

    /// What went wrong, in words.
    pub fn message(&self) -> (r: String)
        ensures
            r@ == self.text(),
    {
        match self {
            CodecError::LinesCodec(e) => explained("lines codec error: ", e.message().as_str()),
            CodecError::Serialization(reason) => explained(
                "serialization error: ",
                reason.as_str(),
            ),
            CodecError::Io(reason) => explained("io error: ", reason.as_str()),
            CodecError::Fmt(reason) => explained("fmt error: ", reason.as_str()),
        }
    }
}

impl CommandError {
    /// What went wrong, in words.
    pub open spec fn text(self) -> Seq<char> {
        match self {
            CommandError::SendError(reason) => "error sending command: "@ + reason@,
            CommandError::RecvError(reason) => "error receiving result: "@ + reason@,
            CommandError::MpvError(reason) => "mpv responded with error: "@ + reason@,
        }
    }

    /// What went wrong, in words.
    pub fn message(&self) -> (r: String)
        ensures
            r@ == self.text(),
    {
        match self {
            CommandError::SendError(reason) => explained(
                "error sending command: ",
                reason.as_str(),
            ),
            CommandError::RecvError(reason) => explained(
                "error receiving result: ",
                reason.as_str(),
            ),
            CommandError::MpvError(reason) => explained(
                "mpv responded with error: ",
                reason.as_str(),
            ),
        }
    }
}

impl Error {
    /// What went wrong, in words.
    pub open spec fn text(self) -> Seq<char> {
        match self {
            Error::StartProcessError(reason) => "failed to start process: "@ + reason@,
            Error::CodecError(e) => "ipc codec error: "@ + e.text(),
            Error::CommandError(e) => e.text(),
        }
    }

    /// What went wrong, in words.
    pub fn message(&self) -> (r: String)
        ensures
            r@ == self.text(),
    {
        match self {
            Error::StartProcessError(reason) => explained(
                "failed to start process: ",
                reason.as_str(),
            ),
            Error::CodecError(e) => explained("ipc codec error: ", e.message().as_str()),
            Error::CommandError(e) => e.message(),
        }
    }
}

/// What went wrong is said in words that end with the reason, and that say before it where
/// it went wrong.
pub proof fn law_errors_in_words(
    reason: String,
    line: LineError,
    line_text: String,
    codec: CodecError,
    codec_text: String,
    command: CommandError,
    command_text: String,
    error: Error,
    text: String,
)
    requires
        call_ensures(LineError::message, (&line,), line_text),
        call_ensures(CodecError::message, (&codec,), codec_text),
        call_ensures(CommandError::message, (&command,), command_text),
        call_ensures(Error::message, (&error,), text),
    ensures
        line is MaxLineLengthExceeded ==> line_text@ == "max line length exceeded"@,
        line == LineError::Io(reason) ==> line_text@ == reason@,
        codec == CodecError::LinesCodec(line) ==> codec_text@ == "lines codec error: "@ + line_text@,
        codec == CodecError::Serialization(reason) ==> codec_text@ == "serialization error: "@
            + reason@,
        codec == CodecError::Io(reason) ==> codec_text@ == "io error: "@ + reason@,
        codec == CodecError::Fmt(reason) ==> codec_text@ == "fmt error: "@ + reason@,
        command == CommandError::SendError(reason) ==> command_text@ == "error sending command: "@
            + reason@,
        command == CommandError::RecvError(reason) ==> command_text@ == "error receiving result: "@
            + reason@,
        command == CommandError::MpvError(reason) ==> command_text@ == "mpv responded with error: "@
            + reason@,
        error == Error::StartProcessError(reason) ==> text@ == "failed to start process: "@
            + reason@,
        error == Error::CodecError(codec) ==> text@ == "ipc codec error: "@ + codec_text@,
        error == Error::CommandError(command) ==> text@ == command_text@,
{
}

} // verus!
