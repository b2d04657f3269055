//! Length-prefixed framing of control messages.
//!
//! A frame is a four-byte big-endian payload length followed by exactly that
//! many payload bytes. Payloads are capped so that a corrupted or hostile
//! length prefix cannot make a reader reserve unbounded memory.

use crate::octets::{from_octets, join_seq, lemma_join_split, split_word, to_octets};
use vstd::prelude::*;

verus! {

/// Number of bytes taken by the length prefix.
pub const LEN_PREFIX_BYTES: usize = 4;

/// Largest payload, in bytes, that a frame may carry (16 KiB).
pub const BINCODE_BYTE_LIMIT: usize = 16384;

/// Why a frame could not be produced or read.
#[derive(Clone, Copy, Debug, PartialEq, Eq, Structural)]
pub enum FrameError {
    /// The input ended before the prefix or the announced payload was complete.
    Insufficient,
    /// The payload is longer than [`BINCODE_BYTE_LIMIT`].
    TooLarge,
    /// The payload is not a message of the expected shape.
    Malformed,
}

/// The frame that carries `payload`.
pub open spec fn frame_of(payload: Seq<u8>) -> Seq<u8> {
    split_word(payload.len() as u32) + payload
}

/// What reading a length prefix out of `prefix` yields.
pub open spec fn announced_len(prefix: Seq<u8>) -> Result<usize, FrameError> {
    if prefix.len() < LEN_PREFIX_BYTES {
        Err(FrameError::Insufficient)
    } else if join_seq(prefix) > BINCODE_BYTE_LIMIT {
        Err(FrameError::TooLarge)
    } else {
        Ok(join_seq(prefix) as usize)
    }
}

/// What reading one frame from the start of `buf` yields: its payload, or
/// the reason why there is none.
pub open spec fn payload_of(buf: Seq<u8>) -> Result<Seq<u8>, FrameError> {
    match announced_len(buf) {
        Err(e) => Err(e),
        Ok(len) => if buf.len() < LEN_PREFIX_BYTES + len {
            Err(FrameError::Insufficient)
        } else {
            Ok(buf.subrange(LEN_PREFIX_BYTES as int, LEN_PREFIX_BYTES + len))
        },
    }
}

/// Reads the payload length that the first four bytes of `prefix` announce.
///
/// Fails with `Insufficient` when fewer than four bytes are present and with
/// `TooLarge` when the announced length is over the limit; bytes after the
/// fourth are not looked at.
pub fn read_stream_len(prefix: &[u8]) -> (res: Result<usize, FrameError>)
    ensures
        res == announced_len(prefix@),
{
    if prefix.len() < LEN_PREFIX_BYTES {
        return Err(FrameError::Insufficient);
    }
    let word: u32 = from_octets([prefix[0], prefix[1], prefix[2], prefix[3]]);
    if word > 16384 {
        Err(FrameError::TooLarge)
    } else {
        Ok(word as usize)
    }
}

/// Wraps a payload into a frame.
///
/// Fails with `TooLarge`, producing nothing, when the payload is over the
/// limit.
pub fn serialise_stream(payload: &[u8]) -> (res: Result<Vec<u8>, FrameError>)
    ensures
        payload@.len() > BINCODE_BYTE_LIMIT ==> res == Err::<Vec<u8>, FrameError>(
            FrameError::TooLarge,
        ),
        payload@.len() <= BINCODE_BYTE_LIMIT ==> res is Ok && res->Ok_0@ == frame_of(payload@),
{
    let len: usize = payload.len();
    if len > BINCODE_BYTE_LIMIT {
        return Err(FrameError::TooLarge);
    }
    let prefix: [u8; 4] = to_octets(len as u32);
    let mut frame: Vec<u8> = Vec::with_capacity(len + LEN_PREFIX_BYTES);
    frame.push(prefix[0]);
    frame.push(prefix[1]);
    frame.push(prefix[2]);
    frame.push(prefix[3]);
    assert(frame@ =~= split_word(len as u32));
    let mut i: usize = 0;
    while i < len
        invariant
            i <= len,
            len == payload@.len(),
            frame@ == split_word(len as u32) + payload@.subrange(0, i as int),
        decreases len - i,
    {
        frame.push(payload[i]);
        i = i + 1;
        assert(frame@ =~= split_word(len as u32) + payload@.subrange(0, i as int));
    }
    assert(payload@.subrange(0, len as int) =~= payload@);
    Ok(frame)
}

/// Reads one frame from the start of `buf` and returns its payload.
///
/// Fails with `Insufficient` when `buf` ends before the prefix or the
/// announced payload is complete, and with `TooLarge` when the announced
/// length is over the limit. Bytes after the frame are left alone.
pub fn deserialise_stream(buf: &[u8]) -> (res: Result<Vec<u8>, FrameError>)
    ensures
        match res {
            Ok(payload) => payload_of(buf@) == Ok::<Seq<u8>, FrameError>(payload@),
            Err(e) => payload_of(buf@) == Err::<Seq<u8>, FrameError>(e),
        },
{
    let len: usize = match read_stream_len(buf) {
        Ok(len) => len,
        Err(e) => {
            return Err(e);
        },
    };
    if buf.len() - LEN_PREFIX_BYTES < len {
        return Err(FrameError::Insufficient);
    }
    let mut payload: Vec<u8> = Vec::with_capacity(len);
    let mut i: usize = 0;
    while i < len
        invariant
            i <= len,
            len <= BINCODE_BYTE_LIMIT,
            LEN_PREFIX_BYTES + len <= buf@.len(),
            payload@ == buf@.subrange(LEN_PREFIX_BYTES as int, LEN_PREFIX_BYTES + i),
        decreases len - i,
    {
        payload.push(buf[i + LEN_PREFIX_BYTES]);
        i = i + 1;
        assert(payload@ =~= buf@.subrange(LEN_PREFIX_BYTES as int, LEN_PREFIX_BYTES + i));
    }
    Ok(payload)
}

/// Number of bytes that the frame at the start of `buf` occupies, when
/// `buf` holds a whole frame.
pub fn frame_span(buf: &[u8]) -> (res: Option<usize>)
    ensures
        match res {
            Some(n) => payload_of(buf@) is Ok && n == LEN_PREFIX_BYTES + payload_of(
                buf@,
            )->Ok_0.len(),
            None => payload_of(buf@) is Err,
        },
{
    match read_stream_len(buf) {
        Ok(len) => if buf.len() - LEN_PREFIX_BYTES < len {
            None
        } else {
            Some(len + LEN_PREFIX_BYTES)
        },
        Err(_) => None,
    }
}

/// Reading back a frame gives the payload it was made from, whatever
/// follows the frame in the buffer.
pub proof fn lemma_frame_round_trip(payload: Seq<u8>, rest: Seq<u8>)
    requires
        payload.len() <= BINCODE_BYTE_LIMIT,
    ensures
        payload_of(frame_of(payload) + rest) == Ok::<Seq<u8>, FrameError>(payload),
        payload_of(frame_of(payload)) == Ok::<Seq<u8>, FrameError>(payload),
{
    lemma_frame_followed_by(payload, rest);
    lemma_frame_followed_by(payload, Seq::<u8>::empty());
    assert(frame_of(payload) + Seq::<u8>::empty() =~= frame_of(payload));
}

proof fn lemma_frame_followed_by(payload: Seq<u8>, rest: Seq<u8>)
    requires
        payload.len() <= BINCODE_BYTE_LIMIT,
    ensures
        payload_of(frame_of(payload) + rest) == Ok::<Seq<u8>, FrameError>(payload),
{
    let word: u32 = payload.len() as u32;
    lemma_join_split(word);
    let buf: Seq<u8> = frame_of(payload) + rest;
    assert(buf.len() == 4 + payload.len() + rest.len());
    assert(join_seq(buf) == word);
    assert(buf.subrange(4, 4 + payload.len() as int) =~= payload);
}

/// A buffer of fewer than four bytes never holds a frame.
pub proof fn lemma_short_buffer_insufficient(buf: Seq<u8>)
    requires
        buf.len() < LEN_PREFIX_BYTES,
    ensures
        payload_of(buf) == Err::<Seq<u8>, FrameError>(FrameError::Insufficient),
{
}

} // verus!
