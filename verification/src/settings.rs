//! Immutable encoder configuration.
//!
//! A `Settings` value is built once, from a preset or a custom constructor,
//! and consumed at pipeline construction to configure the codec instance.

use vstd::prelude::*;
use crate::frame::PixelFormat;
use crate::rational::Rational;

verus! {

/// The frame rate the encoder is configured with. It does not need to match
/// the true source rate exactly; timestamps carry the real timing.
pub const FRAME_RATE: i32 = 30;

/// A codec option bag: the realtime-versus-quality preset toggle, plus any
/// further key/value options handed verbatim to the codec.
pub struct Options {
    /// True when the realtime preset was chosen over the quality preset.
    pub realtime: bool,
    /// Additional key/value codec options, applied in order.
    pub extra: Vec<(String, String)>,
}

impl Options {
    /// The quality-oriented option preset for an H.264 encode.
    pub fn new_h264() -> (r: Options)
        ensures
            !r.realtime,
            r.extra@.len() == 0,
    {
        Options { realtime: false, extra: Vec::new() }
    }

    /// The realtime (low-latency) option preset for an H.264 encode.
    pub fn new_h264_realtime() -> (r: Options)
        ensures
            r.realtime,
            r.extra@.len() == 0,
    {
        Options { realtime: true, extra: Vec::new() }
    }

    /// Append one key/value option.
    pub fn set(&mut self, key: String, value: String)
        ensures
            final(self).realtime == old(self).realtime,
            final(self).extra@ == old(self).extra@.push((key, value)),
    {
        self.extra.push((key, value));
    }
}

/// The mutable parameters of a codec instance that settings are written to,
/// exactly once, before the codec is opened.
#[derive(Clone, Copy, PartialEq, Eq, Structural, Debug)]
pub struct CodecConfig {
    /// Configured frame width.
    pub width: u32,
    /// Configured frame height.
    pub height: u32,
    /// Codec-facing pixel format.
    pub pixel_format: PixelFormat,
    /// Assumed frame rate.
    pub frame_rate: Rational,
    /// The codec's internal time base.
    pub time_base: Rational,
}

impl CodecConfig {
    /// A fresh, not-yet-configured codec parameter block with the given
    /// internal time base.
    pub fn new(time_base: Rational) -> (r: CodecConfig)
        ensures
            r == (CodecConfig {
                width: 0,
                height: 0,
                pixel_format: PixelFormat::Yuv420p,
                frame_rate: Rational { num: FRAME_RATE, den: 1 },
                time_base,
            }),
    {
        CodecConfig {
            width: 0,
            height: 0,
            pixel_format: PixelFormat::Yuv420p,
            frame_rate: Rational { num: FRAME_RATE, den: 1 },
            time_base,
        }
    }
}

/// A logical combination of encoder settings: dimensions, the codec-facing
/// pixel format, and the codec option bag. Immutable after construction.
pub struct Settings {
    /// Width of the video stream.
    pub width: u32,
    /// Height of the video stream.
    pub height: u32,
    /// Codec-facing pixel format.
    pub pixel_format: PixelFormat,
    /// Codec options.
    pub options: Options,
}

impl Settings {
    /// Settings for an H.264 stream with the YUV 4:2:0 planar pixel format,
    /// arguably the most widely compatible combination. `realtime` selects
    /// the low-latency option preset over the quality preset.
    pub fn for_h264_yuv420p(width: usize, height: usize, realtime: bool) -> (r: Settings)
        requires
            width <= u32::MAX,
            height <= u32::MAX,
        ensures
            r.width == width,
            r.height == height,
            r.pixel_format == PixelFormat::Yuv420p,
            r.options.realtime == realtime,
            r.options.extra@.len() == 0,
    {
        let options = if realtime {
            Options::new_h264_realtime()
        } else {
            Options::new_h264()
        };
        Settings { width: width as u32, height: height as u32, pixel_format: PixelFormat::Yuv420p, options }
    }

    /// Settings for an H.264 stream with a custom pixel format and option
    /// bag, for uses with specific requirements.
    pub fn for_h264_custom(
        width: usize,
        height: usize,
        pixel_format: PixelFormat,
        options: Options,
    ) -> (r: Settings)
        requires
            width <= u32::MAX,
            height <= u32::MAX,
        ensures
            r.width == width,
            r.height == height,
            r.pixel_format == pixel_format,
            r.options.realtime == options.realtime,
            r.options.extra@ == options.extra@,
    {
        Settings { width: width as u32, height: height as u32, pixel_format, options }
    }

    /// Write these settings into a codec parameter block: dimensions, pixel
    /// format and the fixed assumed frame rate. The codec's time base is not
    /// touched.
    pub fn apply_to(&self, config: &mut CodecConfig)
        ensures
            *final(config) == (CodecConfig {
                width: self.width,
                height: self.height,
                pixel_format: self.pixel_format,
                frame_rate: Rational { num: FRAME_RATE, den: 1 },
                time_base: old(config).time_base,
            }),
    {
        config.width = self.width;
        config.height = self.height;
        config.pixel_format = self.pixel_format;
        config.frame_rate = Rational { num: FRAME_RATE, den: 1 };
    }

    /// The option bag to open the codec with.
    pub fn options(&self) -> (r: &Options)
        ensures
            r.realtime == self.options.realtime,
            r.extra@ == self.options.extra@,
    {
        &self.options
    }
}

} // verus!
