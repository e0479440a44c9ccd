//! The control protocol of the `mpv` media player: one JSON document a line, both
//! ways.

pub mod codec;
pub mod command;
pub mod error;
pub mod json;
pub mod listeners;
pub mod response;
pub mod session;
pub mod text;

pub use command::{Command, LoadFileOptions, SeekOptions};
pub use error::{CodecError, CommandError, Error};
pub use response::{Event, PropertyChange};
pub use session::Mpv;
