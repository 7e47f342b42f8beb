//! Raw frames and the pixel-format converter.
//!
//! A raw frame is a 2D pixel buffer tagged with its dimensions, pixel format
//! and presentation timestamp. The pipeline only reasons about those tags: the
//! pixel data itself is carried by the host application, which performs the
//! actual buffer reformatting when the converter asks for it.

use vstd::prelude::*;
use crate::EncodeError;

verus! {

/// The pixel formats the pipeline knows about. `Rgb24` and `Bgra` are the
/// accepted source layouts at the pipeline boundary; `Yuv420p` is the usual
/// codec-facing format.
#[derive(Clone, Copy, PartialEq, Eq, Structural, Debug)]
pub enum PixelFormat {
    /// 24-bit packed RGB.
    Rgb24,
    /// 32-bit packed BGRA.
    Bgra,
    /// Planar YUV 4:2:0.
    Yuv420p,
}

/// A decoded video frame: dimensions, pixel format, presentation timestamp in
/// an explicit time-base unit, and whether the frame is marked as a forced
/// key (intra) frame for the codec.
#[derive(Clone, Copy, PartialEq, Eq, Structural, Debug)]
pub struct RawFrame {
    /// Width in pixels.
    pub width: u32,
    /// Height in pixels.
    pub height: u32,
    /// Pixel layout of the buffer.
    pub format: PixelFormat,
    /// Presentation timestamp, in the producer's time base.
    pub pts: i64,
    /// Whether the frame is marked as a forced key frame.
    pub forced_key: bool,
}

impl RawFrame {
    /// Build a frame. Frames start unmarked: key-frame forcing is a pipeline
    /// decision applied later.
    pub fn new(width: u32, height: u32, format: PixelFormat, pts: i64) -> (r: RawFrame)
        ensures
            r == (RawFrame { width, height, format, pts, forced_key: false }),
    {
        RawFrame { width, height, format, pts, forced_key: false }
    }

    /// Replace the presentation timestamp.
    pub fn set_pts(&mut self, pts: i64)
        ensures
            *final(self) == (RawFrame { pts, ..*old(self) }),
    {
        self.pts = pts;
    }

    /// Mark the frame as a forced key (intra) frame.
    pub fn mark_key(&mut self)
        ensures
            *final(self) == (RawFrame { forced_key: true, ..*old(self) }),
    {
        self.forced_key = true;
    }
}

/// Map a per-pixel channel count to the source pixel format the pipeline
/// accepts for it: 3 channels are 24-bit RGB, 4 channels are 32-bit BGRA, and
/// anything else is not an accepted source layout.
pub fn format_for_channels(channels: usize) -> (r: Option<PixelFormat>)
    ensures
        r == (if channels == 3 {
            Some(PixelFormat::Rgb24)
        } else if channels == 4 {
            Some(PixelFormat::Bgra)
        } else {
            None::<PixelFormat>
        }),
{
    if channels == 3 {
        Some(PixelFormat::Rgb24)
    } else if channels == 4 {
        Some(PixelFormat::Bgra)
    } else {
        None
    }
}

/// A stateless-per-call pixel reformatter configured for fixed dimensions and
/// a fixed target pixel format. The host application runs the actual scaling
/// backend over the pixel data; this component decides admissibility and pins
/// down everything the reformatting must preserve.
#[derive(Clone, Copy, PartialEq, Eq, Structural, Debug)]
pub struct PixelConverter {
    /// Width every input and output frame must have.
    pub width: u32,
    /// Height every input and output frame must have.
    pub height: u32,
    /// Pixel format of every output frame.
    pub dst_format: PixelFormat,
}

impl PixelConverter {
    /// Build a converter for fixed dimensions and a target pixel format.
    pub fn new(width: u32, height: u32, dst_format: PixelFormat) -> (r: PixelConverter)
        ensures
            r == (PixelConverter { width, height, dst_format }),
    {
        PixelConverter { width, height, dst_format }
    }

    /// Reformat a frame to the target pixel format. A frame whose dimensions
    /// do not match the converter's configuration is a caller error. The
    /// output keeps the input's presentation timestamp and key mark
    /// unchanged: conversion never alters timing.
    pub fn convert(&self, frame: &RawFrame) -> (r: Result<RawFrame, EncodeError>)
        ensures
            frame.width == self.width && frame.height == self.height ==> r == Ok::<
                RawFrame,
                EncodeError,
            >(
                RawFrame {
                    width: self.width,
                    height: self.height,
                    format: self.dst_format,
                    pts: frame.pts,
                    forced_key: frame.forced_key,
                },
            ),
            !(frame.width == self.width && frame.height == self.height) ==> r == Err::<
                RawFrame,
                EncodeError,
            >(EncodeError::InvalidFrameFormat),
    {
        if frame.width == self.width && frame.height == self.height {
            Ok(
                RawFrame {
                    width: self.width,
                    height: self.height,
                    format: self.dst_format,
                    pts: frame.pts,
                    forced_key: frame.forced_key,
                },
            )
        } else {
            Err(EncodeError::InvalidFrameFormat)
        }
    }
}

} // verus!
