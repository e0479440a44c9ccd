//! Keeping several media players in step: the framing of the wire protocol, clock
//! synchronisation, the control protocol of the `mpv` player, and the decisions
//! that the client and the server take.

pub mod buffer;
pub mod client;
pub mod clock;
pub mod duration;
pub mod mpv;
pub mod packet;
pub mod server;
pub mod syncer;

pub use packet::{Packet, PacketDecoder, PlaybackState};
pub use syncer::TimeSyncer;
