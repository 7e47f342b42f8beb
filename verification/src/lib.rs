//! A verified core for a single-stream video encoding pipeline.
//!
//! The pipeline accepts raw frames in a fixed pixel layout, converts them to
//! the codec's pixel format, runs them through a stateful codec, and hands the
//! compressed packets to a container muxer in presentation order. This crate
//! verifies the coordination logic: frame validation, the lazy header and
//! one-shot trailer lifecycle, key-frame cadence, timestamp rescaling between
//! time bases, and the bounded drain policy used when flushing the codec.
//!
//! The codec, pixel scaler and muxer themselves are external collaborators.
//! A host application performs those calls and drives this state machine with
//! their outcomes; every decision the pipeline makes is verified here.

use vstd::prelude::*;

pub mod encoder;
pub mod frame;
pub mod packet;
pub mod rational;
pub mod settings;

verus! {

/// Errors surfaced by pipeline operations.
#[derive(Clone, Copy, PartialEq, Eq, Structural, Debug)]
pub enum EncodeError {
    /// The caller supplied a frame whose dimensions or pixel format do not
    /// match the pipeline's configuration. Never retried.
    InvalidFrameFormat,
    /// An underlying codec, converter or muxer call failed.
    Backend,
}

} // verus!
