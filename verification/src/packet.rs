//! Compressed packets and the codec's drain protocol.

use vstd::prelude::*;

verus! {

/// A compressed packet as the pipeline sees it: timestamps in some time base,
/// the output stream it is tagged for, and a byte-position marker. The opaque
/// compressed payload travels with the host application; once produced, a
/// packet is immutable except for the rescaling and tagging the pipeline
/// performs before hand-off to the muxer.
#[derive(Clone, Copy, PartialEq, Eq, Structural, Debug)]
pub struct Packet {
    /// Presentation timestamp.
    pub pts: i64,
    /// Decoding timestamp.
    pub dts: i64,
    /// Index of the output stream the packet belongs to.
    pub stream_index: usize,
    /// Byte position in the container, or -1 for unknown.
    pub position: i64,
}

impl Packet {
    /// Build a packet from the timestamps the codec reported. The stream tag
    /// and position are set later, by the pipeline, before muxing.
    pub fn new(pts: i64, dts: i64) -> (r: Packet)
        ensures
            r == (Packet { pts, dts, stream_index: 0, position: 0 }),
    {
        Packet { pts, dts, stream_index: 0, position: 0 }
    }
}

/// The outcome of asking the codec for one packet. The codec may lag behind
/// submissions (B-frame reordering, lookahead), so "no packet available right
/// now" is a designated transient state, distinct both from a hard failure
/// and from "no more packets will ever come" after end-of-stream.
#[derive(Clone, Copy, PartialEq, Eq, Structural, Debug)]
pub enum DrainResult {
    /// The codec produced a packet.
    Produced(Packet),
    /// No packet is available yet; ask again after more input (transient).
    NotYet,
    /// The codec is fully drained: end-of-stream was signalled and every
    /// buffered packet has been handed out.
    Drained,
    /// A hard codec failure, with the backend's error code.
    Failed(i32),
}

} // verus!
