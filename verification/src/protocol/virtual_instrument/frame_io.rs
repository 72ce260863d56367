//! Frames over byte streams: blocking reads and writes, and an incremental decoder that finds
//! frames in a buffer that bytes are pushed into.
use vstd::prelude::*;

use std::io::{Read, Write};

use crate::bytes::{copy_range, push_bytes};
use crate::protocol::virtual_instrument::{
    decode_frame_header, decode_frame_spec, decode_header_spec, encode_frame_bytes,
    frame_error_text, header_bytes, kind_code, lemma_frame_round_trip, lemma_kind_code_round_trip,
    FrameView, VirtualFrameError, VirtualInstrumentFrame, CRC_LENGTH, HEADER_LENGTH, MAGIC_FIRST,
    MAGIC_SECOND, MAX_PAYLOAD_LENGTH,
};
use crate::bytes::{lemma_u16_round_trip, u16_le_bytes};
use crate::protocol::crc::crc16;
use crate::text::push_str;

verus! {

/// `std::io::Error`, carried through unchanged.
#[verifier::external_type_specification]
#[verifier::external_body]
pub struct ExIoError(std::io::Error);

/// `Read::read_exact` into a fresh buffer of `length` bytes: on success the buffer is full. Gives
/// the record of the call: the length asked for and the bytes read, or `None` on failure.
#[verifier::external_body]
fn read_exact_bytes<R: Read + ?Sized>(reader: &mut R, length: usize) -> (outcome: (Result<Vec<u8>, std::io::Error>, Ghost<StreamCall>))
    ensures
        outcome.0 matches Ok(bytes) ==> bytes@.len() == length,
        outcome.1@ == (StreamCall::Read {
            length: length as nat,
            bytes: match outcome.0 {
                Ok(bytes) => Some(bytes@),
                Err(_) => None,
            },
        }),
{
    let mut bytes = vec![0_u8; length];
    let result = match reader.read_exact(&mut bytes) {
        Ok(()) => Ok(bytes),
        Err(error) => Err(error),
    };
    (result, Ghost(vstd::pervasive::arbitrary()))
}

/// `Write::write_all` of the given bytes. Gives the record of the call: the bytes handed over and
/// whether the write succeeded.
#[verifier::external_body]
fn write_all_bytes<W: Write + ?Sized>(writer: &mut W, bytes: &[u8]) -> (outcome: (Result<(), std::io::Error>, Ghost<StreamCall>))
    ensures
        outcome.1@ == (StreamCall::Write { bytes: bytes@, succeeded: outcome.0 is Ok }),
{
    (writer.write_all(bytes), Ghost(vstd::pervasive::arbitrary()))
}

/// `Write::flush`. Gives the record of the call: whether the flush succeeded.
#[verifier::external_body]
fn flush_writer<W: Write + ?Sized>(writer: &mut W) -> (outcome: (Result<(), std::io::Error>, Ghost<StreamCall>))
    ensures
        outcome.1@ == (StreamCall::Flush { succeeded: outcome.0 is Ok }),
{
    (writer.flush(), Ghost(vstd::pervasive::arbitrary()))
}

/// The `Display` text of an I/O error.
#[verifier::external_body]
pub(crate) fn io_error_text(error: &std::io::Error) -> (text: String) {
    format!("{}", error)
}

#[derive(Debug)]
pub enum VirtualFrameIoError {
    Io(std::io::Error),
    Frame(VirtualFrameError),
}

impl VirtualFrameIoError {
    /// The human-readable description of the error.
    pub fn to_string(&self) -> (text: String)
        ensures
            match self {
                VirtualFrameIoError::Io(_) => text@.len() >= 31 && text@.take(31)
                    == "Virtual instrument I/O failed: "@,
                VirtualFrameIoError::Frame(error) => text@ == frame_error_text(*error),
            },
    {
        match self {
            VirtualFrameIoError::Io(error) => {
                let mut text = String::new();
                proof {
                    reveal_strlit("Virtual instrument I/O failed: ");
                }
                push_str(&mut text, "Virtual instrument I/O failed: ");
                let detail = io_error_text(error);
                push_str(&mut text, detail.as_str());
                assert(text@.take(31) =~= "Virtual instrument I/O failed: "@);
                text
            },
            VirtualFrameIoError::Frame(error) => error.to_string(),
        }
    }
}

/// One operation on a byte stream and what came of it.
pub enum StreamCall {
    /// `read_exact` of `length` bytes: the bytes read, or `None` when the read failed.
    Read { length: nat, bytes: Option<Seq<u8>> },
    /// `write_all` of the bytes, and whether it succeeded.
    Write { bytes: Seq<u8>, succeeded: bool },
    /// `flush`, and whether it succeeded.
    Flush { succeeded: bool },
    /// Discarding pending input, and whether it succeeded.
    ClearInput { succeeded: bool },
}

/// What reading a frame through these calls comes to: the frame; or `Err(Some(error))` for bytes
/// that do not form a frame; or `Err(None)` for a failed read. The calls must be a read of the
/// `HEADER_LENGTH` header bytes, and, when the header is valid, a read of the payload and CRC
/// that it announces; the decoded frame is that of the header followed by the rest. A header
/// that is not valid stops the reading after those first bytes. `None` for calls of another shape.
pub open spec fn read_log_outcome(calls: Seq<StreamCall>) -> Option<Result<FrameView, Option<VirtualFrameError>>> {
    if calls.len() == 0 {
        None
    } else {
        match calls[0] {
            StreamCall::Read { length, bytes } => if length != HEADER_LENGTH {
                None
            } else {
                match bytes {
                    None => if calls.len() == 1 {
                        Some(Err(None))
                    } else {
                        None
                    },
                    Some(header) => if header.len() != HEADER_LENGTH {
                        None
                    } else {
                        match decode_header_spec(header) {
                            Err(error) => if calls.len() == 1 {
                                Some(Err(Some(error)))
                            } else {
                                None
                            },
                            Ok((_, payload_length)) => if calls.len() != 2 {
                                None
                            } else {
                                match calls[1] {
                                    StreamCall::Read { length: rest_length, bytes: rest } => if rest_length
                                        != payload_length + CRC_LENGTH {
                                        None
                                    } else {
                                        match rest {
                                            None => Some(Err(None)),
                                            Some(rest) => if rest.len() != rest_length {
                                                None
                                            } else {
                                                match decode_frame_spec(header + rest) {
                                                    Ok(frame) => Some(Ok(frame)),
                                                    Err(error) => Some(Err(Some(error))),
                                                }
                                            },
                                        }
                                    },
                                    _ => None,
                                }
                            },
                        }
                    },
                }
            },
            _ => None,
        }
    }
}

/// The outcome of a frame read as `read_log_outcome` gives it.
pub open spec fn read_result_outcome(result: Result<VirtualInstrumentFrame, VirtualFrameIoError>) -> Result<FrameView, Option<VirtualFrameError>> {
    match result {
        Ok(frame) => Ok(frame@),
        Err(VirtualFrameIoError::Frame(error)) => Err(Some(error)),
        Err(VirtualFrameIoError::Io(_)) => Err(None),
    }
}

/// Whether these calls write `bytes` with one `write_all` and then, if that succeeded, flush;
/// `succeeded` tells whether both succeeded.
pub open spec fn write_log_outcome(calls: Seq<StreamCall>, bytes: Seq<u8>, succeeded: bool) -> bool {
    ||| calls == seq![StreamCall::Write { bytes, succeeded: false }] && !succeeded
    ||| calls == seq![StreamCall::Write { bytes, succeeded: true }, StreamCall::Flush { succeeded }]
}

/// Reads one frame: the `HEADER_LENGTH` header bytes first, which are checked before anything
/// more is read, then the payload and CRC that the header announces; the frame is the decoding
/// of the two together. Gives the calls it made on the reader, which `read_log_outcome` relates
/// to the result.
pub fn read_frame<R: Read + ?Sized>(reader: &mut R) -> (outcome: (Result<VirtualInstrumentFrame, VirtualFrameIoError>, Ghost<Seq<StreamCall>>))
    ensures
        read_log_outcome(outcome.1@) == Some(read_result_outcome(outcome.0)),
{
    let (header, header_call) = read_exact_bytes(reader, HEADER_LENGTH);
    let header = match header {
        Ok(header) => header,
        Err(error) => {
            let ghost calls = seq![header_call@];
            return (Err(VirtualFrameIoError::Io(error)), Ghost(calls));
        },
    };
    let payload_length = match decode_frame_header(header.as_slice()) {
        Ok((_, payload_length)) => payload_length,
        Err(error) => {
            let ghost calls = seq![header_call@];
            return (Err(VirtualFrameIoError::Frame(error)), Ghost(calls));
        },
    };
    let remaining_length = payload_length + CRC_LENGTH;
    let (rest, rest_call) = read_exact_bytes(reader, remaining_length);
    let rest = match rest {
        Ok(rest) => rest,
        Err(error) => {
            let ghost calls = seq![header_call@, rest_call@];
            return (Err(VirtualFrameIoError::Io(error)), Ghost(calls));
        },
    };
    let ghost calls = seq![header_call@, rest_call@];
    let ghost header_bytes = header@;
    let mut encoded = header;
    push_bytes(&mut encoded, rest.as_slice());
    assert(encoded@ =~= header_bytes + rest@);
    match VirtualInstrumentFrame::decode(encoded.as_slice()) {
        Ok(frame) => (Ok(frame), Ghost(calls)),
        Err(error) => (Err(VirtualFrameIoError::Frame(error)), Ghost(calls)),
    }
}

/// Writes a frame's encoding with one `write_all`, then, if that succeeded, flushes; only I/O can
/// fail. Gives the calls it made on the writer (see `write_log_outcome`).
pub fn write_frame<W: Write + ?Sized>(writer: &mut W, frame: &VirtualInstrumentFrame) -> (outcome: (Result<(), VirtualFrameIoError>, Ghost<Seq<StreamCall>>))
    ensures
        write_log_outcome(outcome.1@, encode_frame_bytes(frame@), outcome.0 is Ok),
        outcome.0 matches Err(error) ==> error is Io,
{
    let encoded = frame.encode();
    let (written, write_call) = write_all_bytes(writer, encoded.as_slice());
    match written {
        Ok(()) => {},
        Err(error) => {
            let ghost calls = seq![write_call@];
            return (Err(VirtualFrameIoError::Io(error)), Ghost(calls));
        },
    }
    let (flushed, flush_call) = flush_writer(writer);
    let ghost calls = seq![write_call@, flush_call@];
    match flushed {
        Ok(()) => (Ok(()), Ghost(calls)),
        Err(error) => (Err(VirtualFrameIoError::Io(error)), Ghost(calls)),
    }
}

// ---------------------------------------------------------------------------------------------
// Incremental decoding
// ---------------------------------------------------------------------------------------------

/// Whether the two magic bytes start at `position`.
pub open spec fn is_magic_at(buffer: Seq<u8>, position: int) -> bool {
    0 <= position && position + 1 < buffer.len() && buffer[position] == MAGIC_FIRST
        && buffer[position + 1] == MAGIC_SECOND
}

/// Whether `position` is the first place where the magic bytes start.
pub open spec fn is_first_magic(buffer: Seq<u8>, position: int) -> bool {
    &&& is_magic_at(buffer, position)
    &&& forall|earlier: int| 0 <= earlier < position ==> !is_magic_at(buffer, earlier)
}

/// Whether the magic bytes occur in the buffer.
pub open spec fn has_magic(buffer: Seq<u8>) -> bool {
    exists|position: int| is_magic_at(buffer, position)
}

/// The first place where the magic bytes start (meaningful when they occur).
pub open spec fn first_magic(buffer: Seq<u8>) -> int {
    choose|position: int| is_first_magic(buffer, position)
}

/// Whether a start of frame was found, and the buffer after dropping what precedes it. Without a
/// start of frame only a trailing first magic byte is kept, since the next bytes may complete it.
pub open spec fn aligned_buffer(buffer: Seq<u8>) -> (bool, Seq<u8>) {
    if buffer.len() < 2 {
        (false, buffer)
    } else if has_magic(buffer) {
        (true, buffer.skip(first_magic(buffer)))
    } else if buffer.last() == MAGIC_FIRST {
        (false, seq![MAGIC_FIRST])
    } else {
        (false, Seq::empty())
    }
}

/// What taking a frame from a buffer that starts with the magic bytes gives, and the buffer it
/// leaves: nothing until a whole frame is buffered; an invalid header drops one byte so that the
/// search resumes after it.
pub open spec fn take_aligned_frame(aligned: Seq<u8>) -> (Result<Option<FrameView>, VirtualFrameError>, Seq<u8>) {
    if aligned.len() < HEADER_LENGTH {
        (Ok(None), aligned)
    } else {
        match decode_header_spec(aligned.take(HEADER_LENGTH as int)) {
            Err(error) => (Err(error), aligned.skip(1)),
            Ok((_, payload_length)) => {
                let frame_length = HEADER_LENGTH + payload_length + CRC_LENGTH;
                if aligned.len() < frame_length {
                    (Ok(None), aligned)
                } else {
                    (
                        match decode_frame_spec(aligned.take(frame_length)) {
                            Ok(frame) => Ok(Some(frame)),
                            Err(error) => Err(error),
                        },
                        aligned.skip(frame_length),
                    )
                }
            },
        }
    }
}

/// What one attempt to take a frame from the buffer gives, and the buffer it leaves.
pub open spec fn next_frame_step(buffer: Seq<u8>) -> (Result<Option<FrameView>, VirtualFrameError>, Seq<u8>) {
    let (found, aligned) = aligned_buffer(buffer);
    if !found {
        (Ok(None), aligned)
    } else {
        take_aligned_frame(aligned)
    }
}

proof fn lemma_first_magic(buffer: Seq<u8>, position: int)
    requires
        is_first_magic(buffer, position),
    ensures
        has_magic(buffer),
        first_magic(buffer) == position,
{
    let chosen = first_magic(buffer);
    assert(is_first_magic(buffer, chosen));
    if chosen < position {
        assert(!is_magic_at(buffer, chosen));
    } else if position < chosen {
        assert(!is_magic_at(buffer, position));
    }
}

proof fn lemma_aligned_at_start(buffer: Seq<u8>)
    requires
        buffer.len() >= 2,
        buffer[0] == MAGIC_FIRST,
        buffer[1] == MAGIC_SECOND,
    ensures
        aligned_buffer(buffer) == (true, buffer),
{
    lemma_first_magic(buffer, 0);
    assert(buffer.skip(0) =~= buffer);
}

/// A buffer that starts with a frame's encoding gives that frame and keeps what follows it.
#[verifier::rlimit(30)]
pub proof fn lemma_next_frame_of_encoding(frame: FrameView, rest: Seq<u8>)
    requires
        frame.payload.len() <= MAX_PAYLOAD_LENGTH,
    ensures
        next_frame_step(encode_frame_bytes(frame) + rest) == (
            Ok::<Option<FrameView>, VirtualFrameError>(Some(frame)),
            rest,
        ),
{
    let encoded = encode_frame_bytes(frame);
    let buffer = encoded + rest;
    let length = frame.payload.len() as u16;
    let frame_length = HEADER_LENGTH + frame.payload.len() + CRC_LENGTH;
    assert(encoded.len() == frame_length) by {
        lemma_u16_round_trip(length);
        lemma_u16_round_trip(crc16(header_bytes(frame.kind, length) + frame.payload));
    }
    assert(buffer.take(HEADER_LENGTH as int) =~= header_bytes(frame.kind, length));
    assert(buffer[0] == MAGIC_FIRST && buffer[1] == MAGIC_SECOND);
    lemma_aligned_at_start(buffer);
    assert(decode_header_spec(header_bytes(frame.kind, length)) == Ok::<(crate::protocol::virtual_instrument::MessageKind, nat), VirtualFrameError>((frame.kind, frame.payload.len()))) by {
        lemma_u16_round_trip(length);
        lemma_kind_code_round_trip(frame.kind);
    }
    assert(buffer.take(frame_length) =~= encoded);
    assert(buffer.skip(frame_length) =~= rest);
    lemma_frame_round_trip(frame);
}

/// Bytes without a first magic byte before a frame are skipped.
pub proof fn lemma_next_frame_skips_noise(noise: Seq<u8>, frame: FrameView, rest: Seq<u8>)
    requires
        frame.payload.len() <= MAX_PAYLOAD_LENGTH,
        forall|i: int| 0 <= i < noise.len() ==> noise[i] != MAGIC_FIRST,
    ensures
        next_frame_step(noise + (encode_frame_bytes(frame) + rest)) == (
            Ok::<Option<FrameView>, VirtualFrameError>(Some(frame)),
            rest,
        ),
{
    let tail = encode_frame_bytes(frame) + rest;
    let buffer = noise + tail;
    let length = frame.payload.len() as u16;
    lemma_u16_round_trip(length);
    assert(tail[0] == MAGIC_FIRST && tail[1] == MAGIC_SECOND);
    assert(is_first_magic(buffer, noise.len() as int)) by {
        assert forall|earlier: int| 0 <= earlier < noise.len() implies !is_magic_at(buffer, earlier) by {
            assert(buffer[earlier] == noise[earlier]);
        }
    }
    lemma_first_magic(buffer, noise.len() as int);
    assert(buffer.skip(noise.len() as int) =~= tail);
    lemma_aligned_at_start(tail);
    lemma_next_frame_of_encoding(frame, rest);
}

/// Every proper prefix of a frame's encoding gives nothing and is kept whole, so a frame that
/// arrives in pieces is decoded once its last byte is pushed.
pub proof fn lemma_partial_frame_is_kept(frame: FrameView, count: int)
    requires
        frame.payload.len() <= MAX_PAYLOAD_LENGTH,
        0 <= count < encode_frame_bytes(frame).len(),
    ensures
        next_frame_step(encode_frame_bytes(frame).take(count)) == (
            Ok::<Option<FrameView>, VirtualFrameError>(None),
            encode_frame_bytes(frame).take(count),
        ),
{
    let encoded = encode_frame_bytes(frame);
    let buffer = encoded.take(count);
    let length = frame.payload.len() as u16;
    lemma_u16_round_trip(length);
    lemma_kind_code_round_trip(frame.kind);
    lemma_u16_round_trip(crc16(header_bytes(frame.kind, length) + frame.payload));
    if count >= 2 {
        assert(buffer[0] == MAGIC_FIRST && buffer[1] == MAGIC_SECOND);
        lemma_aligned_at_start(buffer);
        if count >= HEADER_LENGTH {
            assert(buffer.take(HEADER_LENGTH as int) =~= header_bytes(frame.kind, length));
        }
    }
}

/// A decoder that buffers pushed bytes and takes whole frames from them.
pub struct VirtualFrameDecoder {
    buffer: Vec<u8>,
}

impl View for VirtualFrameDecoder {
    type V = Seq<u8>;

    closed spec fn view(&self) -> Seq<u8> {
        self.buffer@
    }
}

/// The abstract result of taking a frame.
pub open spec fn next_frame_view(result: Result<Option<VirtualInstrumentFrame>, VirtualFrameError>) -> Result<Option<FrameView>, VirtualFrameError> {
    match result {
        Ok(Some(frame)) => Ok(Some(frame@)),
        Ok(None) => Ok(None),
        Err(error) => Err(error),
    }
}

impl VirtualFrameDecoder {
    /// A decoder with an empty buffer.
    pub fn new() -> (decoder: Self)
        ensures
            decoder@ == Seq::<u8>::empty(),
    {
        VirtualFrameDecoder { buffer: Vec::new() }
    }

    /// Appends bytes to the buffer.
    pub fn push(&mut self, bytes: &[u8])
        ensures
            final(self)@ == old(self)@ + bytes@,
    {
        push_bytes(&mut self.buffer, bytes);
    }

    /// Takes the next whole frame from the buffer, if there is one (see `next_frame_step`).
    pub fn next_frame(&mut self) -> (result: Result<Option<VirtualInstrumentFrame>, VirtualFrameError>)
        ensures
            (next_frame_view(result), final(self)@) == next_frame_step(old(self)@),
    {
        let ghost original = self.buffer@;
        if !self.align_to_magic() {
            return Ok(None);
        }
        let ghost aligned = self.buffer@;
        if self.buffer.len() < HEADER_LENGTH {
            return Ok(None);
        }
        let payload_length = match decode_frame_header(&self.buffer.as_slice()[0..HEADER_LENGTH]) {
            Ok((_, payload_length)) => payload_length,
            Err(error) => {
                let length = self.buffer.len();
                self.buffer = copy_range(self.buffer.as_slice(), 1, length);
                assert(self.buffer@ =~= aligned.skip(1));
                return Err(error);
            },
        };
        let frame_length = HEADER_LENGTH + payload_length + CRC_LENGTH;
        if self.buffer.len() < frame_length {
            return Ok(None);
        }
        let length = self.buffer.len();
        let encoded = copy_range(self.buffer.as_slice(), 0, frame_length);
        self.buffer = copy_range(self.buffer.as_slice(), frame_length, length);
        assert(encoded@ =~= aligned.take(frame_length as int));
        assert(self.buffer@ =~= aligned.skip(frame_length as int));
        match VirtualInstrumentFrame::decode(encoded.as_slice()) {
            Ok(frame) => Ok(Some(frame)),
            Err(error) => Err(error),
        }
    }

    /// Drops the bytes before the first start of frame (see `aligned_buffer`).
    fn align_to_magic(&mut self) -> (found: bool)
        ensures
            (found, final(self)@) == aligned_buffer(old(self)@),
    {
        let length = self.buffer.len();
        if length < 2 {
            return false;
        }
        let mut position: usize = 0;
        while position + 1 < length
            invariant
                length == self.buffer@.len(),
                self.buffer@ == old(self)@,
                length >= 2,
                position + 1 <= length,
                forall|earlier: int| 0 <= earlier < position ==> !is_magic_at(self.buffer@, earlier),
            decreases length - position,
        {
            if self.buffer[position] == MAGIC_FIRST && self.buffer[position + 1] == MAGIC_SECOND {
                proof {
                    lemma_first_magic(self.buffer@, position as int);
                }
                self.buffer = copy_range(self.buffer.as_slice(), position, length);
                assert(self.buffer@ =~= old(self)@.skip(position as int));
                return true;
            }
            position += 1;
        }
        assert(!has_magic(self.buffer@)) by {
            if has_magic(self.buffer@) {
                let p = choose|p: int| is_magic_at(self.buffer@, p);
                assert(!is_magic_at(self.buffer@, p));
            }
        }
        let keep_first_magic_byte = self.buffer[length - 1] == MAGIC_FIRST;
        self.buffer = Vec::new();
        if keep_first_magic_byte {
            self.buffer.push(MAGIC_FIRST);
            assert(self.buffer@ =~= seq![MAGIC_FIRST]);
        }
        false
    }
}

} // verus!
