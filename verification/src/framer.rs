//! The transport framer's decisions.
//!
//! The receive loop fills a buffer from the socket and asks, after each read,
//! what the buffer holds: not yet a frame, a whole frame, or a header that no
//! frame can have. Reading the socket is the caller's part.

use crate::error::LlrpError;
use crate::llrp::{result_message_view, spec_decode_message, LlrpMessage, MessageView};
use crate::wire::{buffer_as_slice, buffer_len, contents, u32_at, u32_of_be};
use bytes::BytesMut;
use vstd::prelude::*;

verus! {

/// What a receive buffer holds.
#[derive(Debug, Clone, Copy, PartialEq, Eq, Structural)]
pub enum FrameStatus {
    /// Less than a frame: more bytes have to be read.
    NeedMore,
    /// A whole frame of this many octets, perhaps with more behind it.
    Ready(usize),
    /// A header whose length field is under 10.
    Malformed,
}

/// What a receive buffer with the bytes `b` holds: nothing can be said before
/// the 10 octets of a header are there; then the 32-bit length at offset 2
/// decides.
pub open spec fn spec_frame_status(b: Seq<u8>) -> FrameStatus {
    if b.len() < 10 {
        FrameStatus::NeedMore
    } else if u32_at(b, 2) < 10 {
        FrameStatus::Malformed
    } else if b.len() < u32_at(b, 2) {
        FrameStatus::NeedMore
    } else {
        FrameStatus::Ready(u32_at(b, 2) as usize)
    }
}

/// Says what the receive buffer holds, without changing it.
pub fn frame_status(buf: &BytesMut) -> (status: FrameStatus)
    ensures
        status == spec_frame_status(contents(*buf)),
{
    if buffer_len(buf) < 10 {
        return FrameStatus::NeedMore;
    }
    let bytes = buffer_as_slice(buf);
    let message_length: u32 = u32_of_be(bytes[2], bytes[3], bytes[4], bytes[5]);
    if message_length < 10 {
        return FrameStatus::Malformed;
    }
    if buffer_len(buf) < message_length as usize {
        return FrameStatus::NeedMore;
    }
    FrameStatus::Ready(message_length as usize)
}

/// What a read from the socket means for the receive loop: a read of no bytes is
/// the end of the stream, which comes before the buffer holds a whole frame and
/// so is an `UnexpectedEof`; any other read lets the loop go on.
pub fn after_read(bytes_read: usize) -> (r: Result<(), LlrpError>)
    ensures
        r == (if bytes_read == 0 {
            Err::<(), LlrpError>(LlrpError::UnexpectedEof)
        } else {
            Ok::<(), LlrpError>(())
        }),
{
    if bytes_read == 0 {
        Err(LlrpError::UnexpectedEof)
    } else {
        Ok(())
    }
}

/// Takes the next message off the receive buffer, if the buffer holds a whole
/// frame.
///
/// `Ok(None)` says that more bytes have to be read; the buffer is as it was. A
/// header with a length under 10 is a `MalformedFrame`, and the buffer is as it
/// was. A whole frame is removed from the buffer and decoded: the result is its
/// message, or `UnknownMessageType`.
pub fn next_frame(buf: &mut BytesMut) -> (r: Result<Option<LlrpMessage>, LlrpError>)
    ensures
        match spec_frame_status(contents(*old(buf))) {
            FrameStatus::NeedMore => r == Ok::<Option<LlrpMessage>, LlrpError>(None) && contents(
                *final(buf),
            ) == contents(*old(buf)),
            FrameStatus::Malformed => r == Err::<Option<LlrpMessage>, LlrpError>(
                LlrpError::MalformedFrame,
            ) && contents(*final(buf)) == contents(*old(buf)),
            FrameStatus::Ready(n) => {
                &&& contents(*final(buf)) == contents(*old(buf)).skip(n as int)
                &&& match spec_decode_message(contents(*old(buf))) {
                    Ok(m) => r matches Ok(Some(message)) && message@ == m,
                    Err(e) => e == LlrpError::UnknownMessageType && r == Err::<
                        Option<LlrpMessage>,
                        LlrpError,
                    >(e),
                }
            },
        },
{
    match frame_status(buf) {
        FrameStatus::NeedMore => Ok(None),
        FrameStatus::Malformed => Err(LlrpError::MalformedFrame),
        FrameStatus::Ready(_) => {
            match LlrpMessage::decode(buf) {
                Ok(message) => Ok(Some(message)),
                Err(e) => Err(e),
            }
        },
    }
}

/// A buffer that holds a whole frame is never refused as malformed: its message
/// is read, or its type is unknown.
pub proof fn lemma_ready_frame_is_well_formed(b: Seq<u8>)
    requires
        spec_frame_status(b) is Ready,
    ensures
        spec_decode_message(b) != Err::<MessageView, LlrpError>(LlrpError::MalformedFrame),
{
}

} // verus!
