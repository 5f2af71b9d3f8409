//! The decisions of the decoding loop: what to do when a packet cannot be
//! read or decoded, when the sample buffer has to grow, and which track of a
//! container is decoded. Reading and decoding themselves happen elsewhere.

use vstd::prelude::*;

verus! {

/// How reading the next packet failed.
#[derive(Debug, Clone, Copy, PartialEq, Eq, Structural)]
pub enum ReadFault {
    /// The stream ended.
    EndOfStream,
    /// The stream changed so that a new decoder is needed.
    ResetRequired,
    /// Anything else.
    Other,
}

/// How decoding a packet failed.
#[derive(Debug, Clone, Copy, PartialEq, Eq, Structural)]
pub enum DecodeFault {
    /// The stream ended inside the packet.
    EndOfStream,
    /// The packet is malformed.
    Malformed,
    /// Anything else.
    Other,
}

/// What the decoding loop does next.
#[derive(Debug, Clone, Copy, PartialEq, Eq, Structural)]
pub enum DecodeStep {
    /// Stop reading and keep what was decoded.
    Finish,
    /// Make a new decoder and read on.
    RemakeDecoder,
    /// Drop the packet and read on.
    SkipPacket,
    /// Give up and report the fault.
    Abort,
}

/// After a packet could not be read: the end of the stream ends the loop, a
/// required reset is followed, anything else is fatal.
pub fn after_read_fault(fault: ReadFault) -> (step: DecodeStep)
    ensures
        step == match fault {
            ReadFault::EndOfStream => DecodeStep::Finish,
            ReadFault::ResetRequired => DecodeStep::RemakeDecoder,
            ReadFault::Other => DecodeStep::Abort,
        },
{
    match fault {
        ReadFault::EndOfStream => DecodeStep::Finish,
        ReadFault::ResetRequired => DecodeStep::RemakeDecoder,
        ReadFault::Other => DecodeStep::Abort,
    }
}

/// After a packet could not be decoded: the end of the stream ends the loop,
/// a malformed packet is skipped, anything else is fatal.
pub fn after_decode_fault(fault: DecodeFault) -> (step: DecodeStep)
    ensures
        step == match fault {
            DecodeFault::EndOfStream => DecodeStep::Finish,
            DecodeFault::Malformed => DecodeStep::SkipPacket,
            DecodeFault::Other => DecodeStep::Abort,
        },
{
    match fault {
        DecodeFault::EndOfStream => DecodeStep::Finish,
        DecodeFault::Malformed => DecodeStep::SkipPacket,
        DecodeFault::Other => DecodeStep::Abort,
    }
}

/// Whether a sample buffer has to be made for a packet that needs `needed`
/// frames: there is none yet, or the one at hand is too small.
pub fn needs_new_buffer(capacity: Option<usize>, needed: usize) -> (fresh: bool)
    ensures
        fresh == match capacity {
            Some(c) => c < needed,
            None => true,
        },
{
    match capacity {
        Some(c) => c < needed,
        None => true,
    }
}

/// The track to decode: the first whose codec is known. `known[i]` says
/// whether the codec of track `i` is.
pub fn select_best_track(known: &Vec<bool>) -> (track: Option<usize>)
    ensures
        match track {
            Some(i) => i < known@.len() && known@[i as int] && forall|k: int|
                0 <= k < i ==> !known@[k],
            None => forall|k: int| 0 <= k < known@.len() ==> !known@[k],
        },
{
    let mut i: usize = 0;
    while i < known.len()
        invariant
            i <= known@.len(),
            forall|k: int| 0 <= k < i ==> !known@[k],
        decreases known@.len() - i,
    {
        if known[i] {
            return Some(i);
        }
        i = i + 1;
    }
    None
}

} // verus!
