//! How messages are laid out on the connection to the player: a line each.

use vstd::prelude::*;

use bytes::BytesMut;
use tokio_util::codec::{Decoder, Encoder, LinesCodec, LinesCodecError};
use vstd::utf8::{decode_utf8, decode_utf8_encode_utf8, encode_scalar, encode_utf8, encode_utf8_decode_utf8, encode_utf8_valid_utf8,
    valid_utf8};

use crate::buffer::contents;
use crate::mpv::command::{law_command_is_one_line, TaggedCommand};
use crate::mpv::error::{CodecError, LineError};
use crate::mpv::text::one_line;

verus! {

/// Where the first line feed is, if there is one.
pub open spec fn line_end(bytes: Seq<u8>) -> Option<nat>
    decreases bytes.len(),
{
    if bytes.len() == 0 {
        None
    } else if bytes[0] == 10 {
        Some(0)
    } else {
        match line_end(bytes.drop_first()) {
            Some(i) => Some(i + 1),
            None => None,
        }
    }
}

/// A line without the carriage return that it may end with.
pub open spec fn without_carriage_return(line: Seq<u8>) -> Seq<u8> {
    if line.len() > 0 && line.last() == 13 {
        line.drop_last()
    } else {
        line
    }
}

/// The first complete line, without its end, if there is one.
pub open spec fn first_line(bytes: Seq<u8>) -> Option<Seq<u8>> {
    match line_end(bytes) {
        Some(i) => Some(without_carriage_return(bytes.take(i as int))),
        None => None,
    }
}

/// What is left after the first line and its end: everything, if no line is
/// complete.
pub open spec fn after_first_line(bytes: Seq<u8>) -> Seq<u8> {
    match line_end(bytes) {
        Some(i) => bytes.skip(i as int + 1),
        None => bytes,
    }
}

/// `tokio_util::codec::LinesCodec::decode`, by a codec without a limit on the
/// length of a line that begins at the front of the buffer: takes the first line
/// with its end out of the buffer, and hands it out without the end. It fails
/// exactly where that line is not UTF-8; the line is gone from the buffer then too.
#[verifier::external_body]
fn lines_decode(src: &mut BytesMut) -> (r: Result<Option<String>, LineError>)
    ensures
        contents(*final(src)) == after_first_line(contents(*old(src))),
        r matches Ok(None) <==> first_line(contents(*old(src))) is None,
        r matches Ok(Some(line)) ==> first_line(contents(*old(src))) == Some(encode_utf8(line@)),
        r matches Err(e) ==> (e matches LineError::Io(reason) && reason@
            == "Unable to decode input as UTF8"@),
        r is Err <==> first_line(contents(*old(src))) is Some && !valid_utf8(
            first_line(contents(*old(src)))->0,
        ),
{
    match LinesCodec::new().decode(src) {
        Ok(line) => Ok(line),
        Err(LinesCodecError::MaxLineLengthExceeded) => Err(LineError::MaxLineLengthExceeded),
        Err(LinesCodecError::Io(e)) => Err(LineError::Io(e.to_string())),
    }
}

/// `tokio_util::codec::LinesCodec::encode`: appends a line and a line feed to the
/// buffer. It does not fail, but panics where the buffer would be too long.
#[verifier::external_body]
fn lines_encode(line: String, dst: &mut BytesMut) -> (r: Result<(), LineError>)
    requires
        contents(*old(dst)).len() + encode_utf8(line@).len() + 1 <= isize::MAX,
    ensures
        r is Ok,
        contents(*final(dst)) == contents(*old(dst)) + encode_utf8(line@) + seq![10u8],
{
    match LinesCodec::new().encode(line, dst) {
        Ok(()) => Ok(()),
        Err(LinesCodecError::MaxLineLengthExceeded) => Err(LineError::MaxLineLengthExceeded),
        Err(LinesCodecError::Io(e)) => Err(LineError::Io(e.to_string())),
    }
}

/// Reads and writes the messages on the connection to the player.
#[derive(Clone, Copy, Debug, PartialEq, Eq, Structural)]
pub struct MpvCodec;

impl MpvCodec {
    /// A codec.
    pub fn new() -> (r: MpvCodec)
        ensures
            r == MpvCodec,
    {
        MpvCodec
    }

    /// Takes the next line out of `src`, or nothing if it is not complete yet. A
    /// line that is not UTF-8 is taken out too, and is an error.
    pub fn decode(&mut self, src: &mut BytesMut) -> (r: Result<Option<String>, CodecError>)
        ensures
            contents(*final(src)) == after_first_line(contents(*old(src))),
            match first_line(contents(*old(src))) {
                None => r == Ok::<Option<String>, CodecError>(None),
                Some(line) => if valid_utf8(line) {
                    r matches Ok(Some(text)) && text@ == decode_utf8(line)
                } else {
                    r matches Err(CodecError::LinesCodec(LineError::Io(reason))) && reason@
                        == "Unable to decode input as UTF8"@
                },
            },
    {
        match lines_decode(src) {
            Ok(Some(line)) => {
                proof {
                    encode_utf8_valid_utf8(line@);
                    encode_utf8_decode_utf8(line@);
                }
                Ok(Some(line))
            },
            Ok(None) => Ok(None),
            Err(e) => Err(CodecError::LinesCodec(e)),
        }
    }

    /// Appends a command to `dst`, as a line: a JSON object, with no line feed in it.
    pub fn encode(&mut self, item: TaggedCommand, dst: &mut BytesMut) -> (r: Result<
        (),
        CodecError,
    >)
        requires
            contents(*old(dst)).len() + encode_utf8(item.line()).len() + 1 <= isize::MAX,
        ensures
            r is Ok,
            contents(*final(dst)) == contents(*old(dst)) + encode_utf8(item.line()) + seq![10u8],
            one_line(item.line()),
            item.is_object(),
    {
        match lines_encode(item.to_line(), dst) {
            Ok(()) => Ok(()),
            Err(e) => Err(CodecError::LinesCodec(e)),
        }
    }
}

/// The first line feed is a line feed, and none comes before it.
proof fn lemma_line_end(bytes: Seq<u8>)
    ensures
        match line_end(bytes) {
            Some(i) => i < bytes.len() && bytes[i as int] == 10 && forall|j: int|
                0 <= j < i ==> bytes[j] != 10,
            None => !bytes.contains(10),
        },
    decreases bytes.len(),
{
    if bytes.len() > 0 && bytes[0] != 10 {
        let rest = bytes.drop_first();
        lemma_line_end(rest);
        assert(forall|j: int| 1 <= j < bytes.len() ==> bytes[j] == rest[j - 1]);
        if line_end(rest) is None && bytes.contains(10) {
            let j = choose|j: int| 0 <= j < bytes.len() && bytes[j] == 10;
            assert(rest[j - 1] == 10);
        }
    }
}

/// What has no line feed before `i` and one there, has its first one there.
proof fn lemma_line_end_is(bytes: Seq<u8>, i: int)
    requires
        0 <= i < bytes.len(),
        bytes[i] == 10,
        forall|j: int| 0 <= j < i ==> bytes[j] != 10,
    ensures
        line_end(bytes) == Some(i as nat),
{
    lemma_line_end(bytes);
    if line_end(bytes) is None {
        assert(bytes.contains(bytes[i]));
    }
}

/// A line that is complete stays as it is when more bytes arrive, and these are put
/// after what it leaves.
pub proof fn law_later_bytes_do_not_matter(first: Seq<u8>, second: Seq<u8>)
    requires
        first_line(first) is Some,
    ensures
        first_line(first + second) == first_line(first),
        after_first_line(first + second) == after_first_line(first) + second,
{
    lemma_line_end(first);
    let i = line_end(first)->0 as int;
    lemma_line_end_is(first + second, i);
    assert((first + second).take(i) =~= first.take(i));
    assert((first + second).skip(i + 1) =~= first.skip(i + 1) + second);
}

/// While no line is complete, nothing is taken out of the buffer: what arrives
/// later is read as if it had arrived together with what was there.
pub proof fn law_incomplete_line_stays(bytes: Seq<u8>)
    ensures
        first_line(bytes) is None <==> !bytes.contains(10),
        first_line(bytes) is None ==> after_first_line(bytes) == bytes,
{
    lemma_line_end(bytes);
    if let Some(i) = line_end(bytes) {
        assert(bytes.contains(bytes[i as int]));
    }
}

/// The bytes of a character other than a line feed hold no line feed.
proof fn lemma_scalar_has_no_line_feed(c: char)
    requires
        c != '\n',
    ensures
        !encode_scalar(c as u32).contains(10),
{
    let s = c as u32;
    assert(s < 0x80 ==> (s & 0x7F) as u8 == s as u8) by (bit_vector);
    assert(0xC0u8 | ((s >> 6) & 0x1F) as u8 >= 0x80) by (bit_vector);
    assert(0xE0u8 | ((s >> 12) & 0x0F) as u8 >= 0x80) by (bit_vector);
    assert(0xF0u8 | ((s >> 18) & 0x7) as u8 >= 0x80) by (bit_vector);
    assert(0x80u8 | (s & 0x3F) as u8 >= 0x80) by (bit_vector);
    assert(0x80u8 | ((s >> 6) & 0x3F) as u8 >= 0x80) by (bit_vector);
    assert(0x80u8 | ((s >> 12) & 0x3F) as u8 >= 0x80) by (bit_vector);
}

/// The bytes of a single line of text hold no line feed.
proof fn lemma_line_has_no_line_feed(text: Seq<char>)
    requires
        one_line(text),
    ensures
        !encode_utf8(text).contains(10),
    decreases text.len(),
{
    if text.len() > 0 {
        let rest = text.drop_first();
        assert(text.contains(text[0]));
        assert forall|i: int| 0 <= i < rest.len() implies rest[i] != '\n' by {
            assert(text.contains(text[i + 1]));
        }
        lemma_line_has_no_line_feed(rest);
        lemma_scalar_has_no_line_feed(text[0]);
        let head = encode_scalar(text[0] as u32);
        let tail = encode_utf8(rest);
        assert forall|i: int| 0 <= i < (head + tail).len() implies (head + tail)[i] != 10 by {
            if i < head.len() {
                assert(head.contains(head[i]));
            } else {
                assert(tail.contains(tail[i - head.len()]));
            }
        }
    }
}

/// The bytes of two texts, one after the other, are those of the whole.
proof fn lemma_encode_concat(a: Seq<char>, b: Seq<char>)
    ensures
        encode_utf8(a + b) == encode_utf8(a) + encode_utf8(b),
    decreases a.len(),
{
    if a.len() == 0 {
        assert(a + b =~= b);
        assert(encode_utf8(a) + encode_utf8(b) =~= encode_utf8(b));
    } else {
        lemma_encode_concat(a.drop_first(), b);
        assert((a + b).drop_first() =~= a.drop_first() + b);
        assert(encode_utf8(a + b) =~= encode_utf8(a) + encode_utf8(b));
    }
}

/// A command that was written is read back: whatever follows it, it is the first
/// line, and what follows it is left.
pub proof fn law_written_command_is_read_back(item: TaggedCommand, rest: Seq<u8>)
    requires
        item.command.wf(),
    ensures
        ({
            let written = encode_utf8(item.line()) + seq![10u8] + rest;
            &&& first_line(written) == Some(encode_utf8(item.line()))
            &&& after_first_line(written) == rest
            &&& valid_utf8(encode_utf8(item.line()))
            &&& decode_utf8(encode_utf8(item.line())) == item.line()
        }),
{
    let line = encode_utf8(item.line());
    let written = line + seq![10u8] + rest;
    law_command_is_one_line(item);
    lemma_line_has_no_line_feed(item.line());
    assert forall|j: int| 0 <= j < line.len() implies written[j] != 10 by {
        assert(line.contains(line[j]));
    }
    lemma_line_end_is(written, line.len() as int);
    assert(written.take(line.len() as int) =~= line);
    assert(written.skip(line.len() as int + 1) =~= rest);
    assert(line.len() > 0 && line.last() == 125) by {
        reveal_strlit("}");
        let start = item.line().drop_last();
        assert(item.line() =~= start + "}"@);
        lemma_encode_concat(start, "}"@);
        let last = encode_utf8("}"@);
        assert(encode_utf8("}"@.drop_first()) =~= Seq::empty());
        assert((125u32 & 0x7F) as u8 == 125) by (bit_vector);
        assert(last =~= seq![125u8]);
    }
    encode_utf8_valid_utf8(item.line());
    encode_utf8_decode_utf8(item.line());
}

/// The line that is taken out of a buffer is what stands before the first line feed,
/// without a carriage return at its end; it and the line feed are gone then, and nothing
/// else is. It is handed out as the text that its bytes are, or is an error where they are
/// none.
pub proof fn law_decoded_line(
    codec: &mut MpvCodec,
    src: &mut BytesMut,
    r: Result<Option<String>, CodecError>,
    line: Seq<u8>,
    rest: Seq<u8>,
)
    requires
        call_ensures(MpvCodec::decode, (codec, src), r),
        contents(*old(src)) == line + seq![10u8] + rest,
        !line.contains(10),
    ensures
        contents(*final(src)) == rest,
        ({
            let bytes = if line.len() > 0 && line.last() == 13 {
                line.drop_last()
            } else {
                line
            };
            &&& r is Ok <==> valid_utf8(bytes)
            &&& r is Ok ==> (r matches Ok(Some(text)) && encode_utf8(text@) == bytes)
            &&& r is Err ==> (r matches Err(CodecError::LinesCodec(LineError::Io(reason))) && reason@
                == "Unable to decode input as UTF8"@)
        }),
{
    let all = contents(*old(src));
    assert forall|j: int| 0 <= j < line.len() implies all[j] != 10 by {
        assert(line.contains(line[j]));
    }
    lemma_line_end_is(all, line.len() as int);
    assert(all.take(line.len() as int) =~= line);
    assert(all.skip(line.len() as int + 1) =~= rest);
    let bytes = without_carriage_return(line);
    if valid_utf8(bytes) {
        decode_utf8_encode_utf8(bytes);
    }
}

/// Without a line feed there is no line: nothing is handed out, and nothing taken out.
pub proof fn law_no_line_without_line_feed(
    codec: &mut MpvCodec,
    src: &mut BytesMut,
    r: Result<Option<String>, CodecError>,
)
    requires
        call_ensures(MpvCodec::decode, (codec, src), r),
        !contents(*old(src)).contains(10),
    ensures
        r matches Ok(None),
        contents(*final(src)) == contents(*old(src)),
{
    law_incomplete_line_stays(contents(*old(src)));
}

/// A command that is encoded into an empty buffer is decoded as the text that it is
/// written as, and the buffer is empty again.
pub proof fn law_encoded_command_is_decoded(
    encoder: &mut MpvCodec,
    decoder: &mut MpvCodec,
    item: TaggedCommand,
    text: String,
    written: &mut BytesMut,
    sent: Result<(), CodecError>,
    read: &mut BytesMut,
    r: Result<Option<String>, CodecError>,
)
    requires
        item.command.wf(),
        encode_utf8(item.line()).len() + 1 <= isize::MAX,
        call_ensures(TaggedCommand::to_line, (&item,), text),
        contents(*old(written)).len() == 0,
        call_ensures(MpvCodec::encode, (encoder, item, written), sent),
        *old(read) == *final(written),
        call_ensures(MpvCodec::decode, (decoder, read), r),
    ensures
        sent is Ok,
        r matches Ok(Some(line)) && line@ == text@,
        contents(*final(read)).len() == 0,
{
    law_written_command_is_read_back(item, Seq::empty());
    assert(contents(*final(written)) =~= encode_utf8(item.line()) + seq![10u8] + Seq::empty());
}

/// A command is put after what is in the buffer, and nothing of that changes.
pub proof fn law_encoded_command_is_appended(
    codec: &mut MpvCodec,
    item: TaggedCommand,
    text: String,
    dst: &mut BytesMut,
    r: Result<(), CodecError>,
)
    requires
        contents(*old(dst)).len() + encode_utf8(item.line()).len() + 1 <= isize::MAX,
        call_ensures(TaggedCommand::to_line, (&item,), text),
        call_ensures(MpvCodec::encode, (codec, item, dst), r),
    ensures
        r is Ok,
        contents(*final(dst)) == contents(*old(dst)) + encode_utf8(text@) + seq![10u8],
{
}

} // verus!
