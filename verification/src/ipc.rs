//! The framing of messages on the channel to the monitor: a 4-byte
//! little-endian length prefix, then that many bytes of payload.

use crate::text::prefixed;
use crate::text::u64_to_decimal;
use crate::text::decimal_digits;
use vstd::prelude::*;
use vstd::string::*;

verus! {

/// The longest payload a reader accepts: 16 MiB.
pub const MAX_MESSAGE_LEN: usize = 16 * 1024 * 1024;

/// Why a frame could not be read, or not be written.
#[derive(Debug, Clone, Copy, PartialEq, Eq)]
pub enum FrameError {
    /// The stream ended inside a frame.
    UnexpectedEof,
    /// The prefix declares a payload longer than [`MAX_MESSAGE_LEN`].
    TooLarge { declared: usize },
    /// The payload has more bytes than the four bytes of a prefix can count.
    TooLong { len: usize },
}

/// The text of a frame error.
pub open spec fn error_text(error: FrameError) -> Seq<char> {
    match error {
        FrameError::UnexpectedEof => "failed to fill whole buffer"@,
        FrameError::TooLarge { declared } => "message too large: "@ + decimal_digits(
            declared as nat,
        ) + " bytes"@,
        FrameError::TooLong { len } => "message too long for its length prefix: "@
            + decimal_digits(len as nat) + " bytes"@,
    }
}

impl FrameError {
    /// Describes the error in words.
    pub fn message(&self) -> (text: String)
        ensures
            text@ == error_text(*self),
    {
        match self {
            FrameError::UnexpectedEof => String::from_str("failed to fill whole buffer"),
            FrameError::TooLarge { declared } => {
                let digits = u64_to_decimal(*declared as u64);
                let mut text = prefixed("message too large: ", digits.as_str());
                text.append(" bytes");
                text
            },
            FrameError::TooLong { len } => {
                let digits = u64_to_decimal(*len as u64);
                let mut text = prefixed(
                    "message too long for its length prefix: ",
                    digits.as_str(),
                );
                text.append(" bytes");
                text
            },
        }
    }
}

/// The four bytes that write `value`, least significant first.
pub open spec fn le_bytes(value: u32) -> Seq<u8> {
    seq![
        (value % 256) as u8,
        (value / 256 % 256) as u8,
        (value / 65536 % 256) as u8,
        (value / 16777216) as u8,
    ]
}

/// The number that four bytes write, least significant first.
pub open spec fn le_value(bytes: Seq<u8>) -> nat
    recommends
        bytes.len() == 4,
{
    (bytes[0] + bytes[1] * 256 + bytes[2] * 65536 + bytes[3] * 16777216) as nat
}

/// Whether a prefix can write the length `len`: whether it fits four bytes.
pub open spec fn fits_prefix(len: nat) -> bool {
    len <= u32::MAX
}

/// The prefix of a payload of `len` bytes: the four bytes that write `len`.
pub open spec fn prefix_of(len: nat) -> Seq<u8>
    recommends
        fits_prefix(len),
{
    le_bytes(len as u32)
}

/// The frame that carries a payload: the prefix that writes its length, then
/// the payload itself.
pub open spec fn frame_of(payload: Seq<u8>) -> Seq<u8>
    recommends
        fits_prefix(payload.len()),
{
    prefix_of(payload.len()) + payload
}

/// What reading one frame gives, and what it leaves of the stream.
pub struct FrameRead {
    pub result: Result<Seq<u8>, FrameError>,
    pub rest: Seq<u8>,
}

/// Reads one frame from the head of a stream.
///
/// A stream too short for the prefix, or for the payload the prefix declares,
/// is used up and gives `UnexpectedEof`. A prefix that declares more than
/// [`MAX_MESSAGE_LEN`] gives `TooLarge`, and nothing behind the prefix is
/// consumed. Otherwise the payload comes back and the stream goes on behind it.
pub open spec fn read_frame(stream: Seq<u8>) -> FrameRead {
    if stream.len() < 4 {
        FrameRead { result: Err(FrameError::UnexpectedEof), rest: Seq::empty() }
    } else {
        let declared = le_value(stream.take(4));
        if declared > MAX_MESSAGE_LEN {
            FrameRead {
                result: Err(FrameError::TooLarge { declared: declared as usize }),
                rest: stream.skip(4),
            }
        } else if stream.len() - 4 < declared {
            FrameRead { result: Err(FrameError::UnexpectedEof), rest: Seq::empty() }
        } else {
            FrameRead {
                result: Ok(stream.subrange(4, 4 + declared as int)),
                rest: stream.skip(4 + declared as int),
            }
        }
    }
}

/// The content of what [`read_message`] returns.
pub open spec fn result_model(result: Result<Vec<u8>, FrameError>) -> Result<Seq<u8>, FrameError> {
    match result {
        Ok(payload) => Ok(payload@),
        Err(error) => Err(error),
    }
}

/// The length prefix of a payload of `len` bytes, or `TooLong` where four
/// bytes cannot write `len`.
pub fn length_prefix(len: usize) -> (prefix: Result<[u8; 4], FrameError>)
    ensures
        match prefix {
            Ok(bytes) => fits_prefix(len as nat) && bytes@ == prefix_of(len as nat),
            Err(error) => !fits_prefix(len as nat) && error == (FrameError::TooLong { len }),
        },
{
    if len as u64 > 0xffff_ffff {
        return Err(FrameError::TooLong { len });
    }
    let value: u32 = len as u32;
    Ok(
        [
            (value % 256) as u8,
            (value / 256 % 256) as u8,
            (value / 65536 % 256) as u8,
            (value / 16777216) as u8,
        ],
    )
}

/// The payload length that a prefix declares, provided a reader accepts it.
pub fn declared_length(prefix: [u8; 4]) -> (length: Result<usize, FrameError>)
    ensures
        length == if le_value(prefix@) > MAX_MESSAGE_LEN {
            Err::<usize, FrameError>(FrameError::TooLarge { declared: le_value(prefix@) as usize })
        } else {
            Ok(le_value(prefix@) as usize)
        },
{
    let value: u32 = prefix[0] as u32 + prefix[1] as u32 * 256 + prefix[2] as u32 * 65536
        + prefix[3] as u32 * 16777216;
    let declared = value as usize;
    if declared > MAX_MESSAGE_LEN {
        Err(FrameError::TooLarge { declared })
    } else {
        Ok(declared)
    }
}

/// Appends the frame of `payload` to `writer`. A payload whose length four
/// bytes cannot write is refused with `TooLong`, and nothing is written.
pub fn write_message(writer: &mut Vec<u8>, payload: &[u8]) -> (written: Result<(), FrameError>)
    ensures
        match written {
            Ok(_) => {
                &&& fits_prefix(payload@.len())
                &&& final(writer)@ == old(writer)@ + frame_of(payload@)
            },
            Err(error) => {
                &&& !fits_prefix(payload@.len())
                &&& error == (FrameError::TooLong { len: payload@.len() as usize })
                &&& final(writer)@ == old(writer)@
            },
        },
{
    match length_prefix(payload.len()) {
        Ok(prefix) => {
            writer.extend_from_slice(prefix.as_slice());
            writer.extend_from_slice(payload);
            assert(writer@ =~= old(writer)@ + frame_of(payload@));
            Ok(())
        },
        Err(error) => Err(error),
    }
}

/// Reads one frame from the head of `reader` and moves `reader` behind what
/// was consumed.
pub fn read_message(reader: &mut &[u8]) -> (result: Result<Vec<u8>, FrameError>)
    ensures
        result_model(result) == read_frame(old(reader)@).result,
        final(reader)@ == read_frame(old(reader)@).rest,
{
    let stream: &[u8] = *reader;
    let len = stream.len();
    if len < 4 {
        *reader = vstd::slice::slice_subrange(stream, len, len);
        return Err(FrameError::UnexpectedEof);
    }
    let prefix = [stream[0], stream[1], stream[2], stream[3]];
    match declared_length(prefix) {
        Err(error) => {
            *reader = vstd::slice::slice_subrange(stream, 4, len);
            Err(error)
        },
        Ok(declared) => {
            if len - 4 < declared {
                *reader = vstd::slice::slice_subrange(stream, len, len);
                Err(FrameError::UnexpectedEof)
            } else {
                let payload = vstd::slice::slice_to_vec(
                    vstd::slice::slice_subrange(stream, 4, 4 + declared),
                );
                *reader = vstd::slice::slice_subrange(stream, 4 + declared, len);
                Ok(payload)
            }
        },
    }
}

/// Round trip: reading the frame of a payload that a reader accepts gives the
/// payload back and leaves exactly what followed the frame.
pub proof fn lemma_frame_round_trip(payload: Seq<u8>, rest: Seq<u8>)
    requires
        payload.len() <= MAX_MESSAGE_LEN,
    ensures
        read_frame(frame_of(payload) + rest) == (FrameRead { result: Ok(payload), rest }),
{
    let stream = frame_of(payload) + rest;
    lemma_prefix_writes_the_length(payload);
    assert(stream.take(4) =~= frame_of(payload).take(4));
    assert(stream.subrange(4, 4 + payload.len() as int) =~= payload);
    assert(stream.skip(4 + payload.len() as int) =~= rest);
}

/// The prefix of a frame writes the true length of its payload: the first four
/// bytes of the frame of a payload that fits are its length, and the payload
/// follows them unchanged.
pub proof fn lemma_prefix_writes_the_length(payload: Seq<u8>)
    requires
        fits_prefix(payload.len()),
    ensures
        frame_of(payload).len() == 4 + payload.len(),
        le_value(frame_of(payload).take(4)) == payload.len(),
        frame_of(payload).skip(4) == payload,
{
    lemma_le_round_trip(payload.len() as u32);
    assert(frame_of(payload).take(4) =~= le_bytes(payload.len() as u32));
    assert(frame_of(payload).skip(4) =~= payload);
}

/// The four bytes of a number write that number.
pub proof fn lemma_le_round_trip(value: u32)
    ensures
        le_bytes(value).len() == 4,
        le_value(le_bytes(value)) == value,
{
}

/// A frame that claims more than a reader accepts is rejected on its prefix
/// alone: the error names the claimed length, and what lies behind the prefix
/// stays unread, however much or little of it there is.
pub proof fn lemma_oversized_frame_rejected(stream: Seq<u8>)
    requires
        stream.len() >= 4,
        le_value(stream.take(4)) > MAX_MESSAGE_LEN,
    ensures
        read_frame(stream).result == Err::<Seq<u8>, FrameError>(
            FrameError::TooLarge { declared: le_value(stream.take(4)) as usize },
        ),
        read_frame(stream).rest == stream.skip(4),
{
}

} // verus!
