//! What client and server say to each other, and how the bytes of it are framed.
//!
//! Every packet takes up the same number of bytes, so that a stream of packets is
//! cut into frames of that size.

use vstd::prelude::*;

use bytes::BytesMut;
use vstd::slice::slice_subrange;

use crate::buffer::contents;
use crate::clock::Instant;
use crate::duration::Duration;

verus! {

/// The version of the protocol.
pub const PROTOCOL_VERSION: u8 = 69;

/// A message between client and server.
#[derive(Debug, PartialEq, Eq)]
pub enum Packet {
    /// The client's protocol version, the first thing that it sends.
    Version(u8),
    /// The client asks for the server's time.
    TimeSyncRequest,
    /// The server's time.
    TimeSyncResponse(Duration),
    /// What is being played.
    MediaInfo { name: String, duration: Duration },
    /// How far the playback is, for those that play along.
    PlaybackUpdate { timestamp: Duration, elapsed: Duration },
    /// Playback is to go on, or to be paused, at `elapsed`.
    PlaybackControl { timestamp: Duration, paused: bool, elapsed: Duration },
}

/// What a player does.
#[derive(Clone, Copy, Debug, PartialEq, Eq)]
pub enum PlaybackState {
    /// Nothing is being played.
    Stopped,
    /// It plays what it began to play at `start`.
    Playing { start: Instant },
    /// It is paused, `elapsed` after the beginning.
    Paused { elapsed: Duration },
}

/// Why no packet could be read.
#[derive(Clone, Copy, Debug, PartialEq, Eq, Structural)]
pub enum ReadError {
    /// The other end has closed the stream.
    StreamClosed,
}

impl ReadError {
    /// What went wrong, in words.
    pub fn message(&self) -> (r: &'static str)
        ensures
            r@ == "stream closed"@,
    {
        "stream closed"
    }
}

impl Packet {
    /// The bytes of the packet that a read put into `buffer`: its first `n`, as
    /// many as were read. A read of nothing means that the stream is closed.
    pub fn read_from(buffer: &[u8], n: usize) -> (r: Result<&[u8], ReadError>)
        requires
            n <= buffer@.len(),
        ensures
            r is Err <==> n == 0,
            r matches Ok(bytes) ==> bytes@ == buffer@.take(n as int),
            r matches Err(e) ==> e == ReadError::StreamClosed,
    {
        if n == 0 {
            return Err(ReadError::StreamClosed);
        }
        Ok(slice_subrange(buffer, 0, n))
    }
}

/// The complete frames of `size` bytes at the front of `bytes`.
pub open spec fn frames(bytes: Seq<u8>, size: nat) -> Seq<Seq<u8>>
    decreases bytes.len(),
{
    if size == 0 || bytes.len() < size {
        Seq::empty()
    } else {
        seq![bytes.take(size as int)] + frames(bytes.skip(size as int), size)
    }
}

/// What is left of `bytes` after its complete frames of `size` bytes.
pub open spec fn remainder(bytes: Seq<u8>, size: nat) -> Seq<u8>
    decreases bytes.len(),
{
    if size == 0 || bytes.len() < size {
        bytes
    } else {
        remainder(bytes.skip(size as int), size)
    }
}

/// Cuts a stream of bytes into the frames of packets.
#[derive(Clone, Copy, Debug, PartialEq, Eq)]
pub struct PacketDecoder {
    frame_size: usize,
}

impl PacketDecoder {
    /// The number of bytes in a frame.
    pub closed spec fn size(self) -> nat {
        self.frame_size as nat
    }

    /// A decoder of frames of `frame_size` bytes.
    pub fn new(frame_size: usize) -> (r: PacketDecoder)
        ensures
            r.size() == frame_size,
    {
        PacketDecoder { frame_size }
    }

    /// Takes the next frame out of `src`, or nothing if it is not complete yet.
    pub fn decode(&mut self, src: &mut BytesMut) -> (r: Option<BytesMut>)
        ensures
            *final(self) == *old(self),
            r is Some <==> contents(*old(src)).len() >= old(self).size(),
            r matches Some(frame) ==> {
                &&& contents(frame) == contents(*old(src)).take(old(self).size() as int)
                &&& contents(*final(src)) == contents(*old(src)).skip(old(self).size() as int)
            },
            r is None ==> *final(src) == *old(src),
    {
        if src.len() < self.frame_size {
            return None;
        }
        Some(src.split_to(self.frame_size))
    }

    /// The frame that a datagram is: all of it, where it has a frame's size, and
    /// none otherwise.
    pub fn datagram<'a>(&self, bytes: &'a [u8]) -> (r: Option<&'a [u8]>)
        ensures
            r is Some <==> bytes@.len() == self.size(),
            r matches Some(frame) ==> frame@ == bytes@,
    {
        if bytes.len() == self.frame_size {
            Some(bytes)
        } else {
            None
        }
    }
}

/// A decoder that is called until it finds no more hands out exactly the frames at
/// the front of the buffer, one by one, and leaves the remainder: each call takes
/// the first of the frames, and there is none to take where there are none.
pub proof fn law_decode_takes_first_frame(bytes: Seq<u8>, size: nat)
    requires
        size > 0,
    ensures
        bytes.len() >= size <==> frames(bytes, size).len() > 0,
        bytes.len() >= size ==> {
            &&& frames(bytes, size)[0] == bytes.take(size as int)
            &&& frames(bytes.skip(size as int), size) == frames(bytes, size).skip(1)
            &&& remainder(bytes.skip(size as int), size) == remainder(bytes, size)
        },
        bytes.len() < size ==> remainder(bytes, size) == bytes,
{
    if bytes.len() >= size {
        assert(frames(bytes, size).skip(1) =~= frames(bytes.skip(size as int), size));
    }
}

/// It does not matter in which pieces the bytes of a stream arrive: the frames of
/// all of them are those of the first piece, and then those of what that left over
/// together with the second piece.
pub proof fn law_pieces_do_not_matter(first: Seq<u8>, second: Seq<u8>, size: nat)
    requires
        size > 0,
    ensures
        frames(first + second, size) == frames(first, size) + frames(
            remainder(first, size) + second,
            size,
        ),
        remainder(first + second, size) == remainder(remainder(first, size) + second, size),
    decreases first.len(),
{
    if first.len() >= size {
        let n = size as int;
        law_pieces_do_not_matter(first.skip(n), second, size);
        assert((first + second).take(n) =~= first.take(n));
        assert((first + second).skip(n) =~= first.skip(n) + second);
        assert(seq![first.take(n)] + (frames(first.skip(n), size) + frames(
            remainder(first, size) + second,
            size,
        )) =~= frames(first, size) + frames(remainder(first, size) + second, size));
    } else {
        assert(frames(first, size) =~= Seq::empty());
        assert(frames(first, size) + frames(first + second, size) =~= frames(
            first + second,
            size,
        ));
    }
}

/// The frames that were written one after the other are those that are read.
pub proof fn law_written_frames_are_read(written: Seq<Seq<u8>>, size: nat)
    requires
        size > 0,
        forall|i: int| 0 <= i < written.len() ==> (#[trigger] written[i]).len() == size,
    ensures
        frames(written.flatten(), size) == written,
        remainder(written.flatten(), size) == Seq::<u8>::empty(),
    decreases written.len(),
{
    if written.len() > 0 {
        let n = size as int;
        let rest = written.drop_first();
        law_written_frames_are_read(rest, size);
        assert(written.flatten() == written.first() + rest.flatten());
        assert(written.flatten().take(n) =~= written.first());
        assert(written.flatten().skip(n) =~= rest.flatten());
        assert(seq![written.first()] + rest =~= written);
    } else {
        assert(frames(written.flatten(), size) =~= written);
    }
}

/// A decoder takes a frame of its size exactly where there are bytes enough. The frame and
/// what is left are what there was, in that order; otherwise everything is left.
pub proof fn law_frame_and_rest(
    size: usize,
    decoder: PacketDecoder,
    decoding: &mut PacketDecoder,
    src: &mut BytesMut,
    r: Option<BytesMut>,
)
    requires
        call_ensures(PacketDecoder::new, (size,), decoder),
        *old(decoding) == decoder,
        call_ensures(PacketDecoder::decode, (decoding, src), r),
    ensures
        r is Some <==> contents(*old(src)).len() >= size,
        r matches Some(frame) ==> contents(frame).len() == size && contents(frame) + contents(
            *final(src),
        ) == contents(*old(src)),
        r is None ==> contents(*final(src)) == contents(*old(src)),
        *final(decoding) == decoder,
{
    if let Some(frame) = r {
        assert(contents(frame) + contents(*final(src)) =~= contents(*old(src)));
    }
}

/// A datagram of a frame's size is that frame, and no other datagram is one.
pub proof fn law_datagram_is_a_frame(
    size: usize,
    decoder: PacketDecoder,
    bytes: &[u8],
    r: Option<&[u8]>,
)
    requires
        call_ensures(PacketDecoder::new, (size,), decoder),
        call_ensures(PacketDecoder::datagram, (&decoder, bytes), r),
    ensures
        r is Some <==> bytes@.len() == size,
        r matches Some(frame) ==> frame@ == bytes@,
{
}

/// What was read is the beginning of the buffer, as much as was read; a read of nothing
/// means that the stream is closed, and no other does.
pub proof fn law_read_is_the_beginning(buffer: &[u8], n: usize, r: Result<&[u8], ReadError>)
    requires
        n <= buffer@.len(),
        call_ensures(Packet::read_from, (buffer, n), r),
    ensures
        n == 0 ==> r == Err::<&[u8], ReadError>(ReadError::StreamClosed),
        n > 0 ==> (r matches Ok(bytes) && bytes@.len() == n && bytes@.is_prefix_of(buffer@)),
{
}

/// That a stream is closed is said in these words.
pub proof fn law_closed_stream_in_words(error: ReadError, r: &'static str)
    requires
        call_ensures(ReadError::message, (&error,), r),
    ensures
        r@ == "stream closed"@,
{
}

} // verus!
