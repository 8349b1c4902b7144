//! What the audio decoder assumes of a stream, which packets it decodes, and
//! what it does when reading or decoding a packet fails.

use vstd::prelude::*;

use crate::text::contains_seq;
use crate::text::contains_text;

verus! {

/// Why the next packet of a stream could not be read.
#[derive(Debug, Clone, PartialEq, Eq)]
pub enum PacketReadError {
    /// The input ended in the middle of a read.
    UnexpectedEof,
    /// The input was reset.
    ConnectionReset,
    /// Another I/O failure; the text describes it.
    Io(String),
    /// The packet was malformed.
    Decode,
    /// Any other failure; the text describes it.
    Other(String),
}

/// What the decoding loop does next.
#[derive(Debug, Clone, PartialEq, Eq)]
pub enum PacketStep {
    /// Stop reading: the stream is over.
    EndOfStream,
    /// Leave this packet out and read on.
    Skip,
    /// Give up with this description.
    Fail(String),
}

/// An error text that reports the end of the stream.
pub open spec fn reports_end_of_stream(text: Seq<char>) -> bool {
    contains_seq(text, "end of stream"@) || contains_seq(text, "EOF"@) || contains_seq(
        text,
        "exhausted"@,
    )
}

/// The step after a failed packet read: an ended or reset input ends the
/// stream, a malformed packet is skipped, an error text that reports the end
/// of the stream ends it, and anything else is a failure.
pub fn packet_read_step(error: PacketReadError) -> (r: PacketStep)
    ensures
        match error {
            PacketReadError::UnexpectedEof => r == PacketStep::EndOfStream,
            PacketReadError::ConnectionReset => r == PacketStep::EndOfStream,
            PacketReadError::Io(m) => r matches PacketStep::Fail(t) && t@ == m@,
            PacketReadError::Decode => r == PacketStep::Skip,
            PacketReadError::Other(m) => if reports_end_of_stream(m@) {
                r == PacketStep::EndOfStream
            } else {
                r matches PacketStep::Fail(t) && t@ == m@
            },
        },
{
    match error {
        PacketReadError::UnexpectedEof => PacketStep::EndOfStream,
        PacketReadError::ConnectionReset => PacketStep::EndOfStream,
        PacketReadError::Io(m) => PacketStep::Fail(m),
        PacketReadError::Decode => PacketStep::Skip,
        PacketReadError::Other(m) => {
            if contains_text(m.as_str(), "end of stream") || contains_text(m.as_str(), "EOF")
                || contains_text(m.as_str(), "exhausted") {
                PacketStep::EndOfStream
            } else {
                PacketStep::Fail(m)
            }
        },
    }
}

/// The step after a packet failed to decode: a malformed packet is skipped,
/// any other failure ends the stream.
pub fn decode_failure_step(malformed: bool) -> (r: PacketStep)
    ensures
        malformed ==> r == PacketStep::Skip,
        !malformed ==> r == PacketStep::EndOfStream,
{
    if malformed {
        PacketStep::Skip
    } else {
        PacketStep::EndOfStream
    }
}

/// The sample rate assumed when a stream declares none.
pub const DEFAULT_SAMPLE_RATE: u32 = 44100;

/// The sample rate of a stream: the declared one, else 44100 Hz.
pub fn stream_sample_rate(declared: Option<u32>) -> (r: u32)
    ensures
        r == match declared {
            Some(rate) => rate,
            None => DEFAULT_SAMPLE_RATE,
        },
{
    match declared {
        Some(rate) => rate,
        None => DEFAULT_SAMPLE_RATE,
    }
}

/// The channel count of a stream: the declared one, else one channel (the
/// front centre alone).
pub fn stream_channels(declared: Option<usize>) -> (r: usize)
    ensures
        r == match declared {
            Some(count) => count,
            None => 1,
        },
{
    match declared {
        Some(count) => count,
        None => 1,
    }
}

/// Whether a packet is decoded: only packets of the track being read are.
pub fn packet_is_decoded(packet_track: u32, wanted_track: u32) -> (r: bool)
    ensures
        r == (packet_track == wanted_track),
{
    packet_track == wanted_track
}

} // verus!
