use video_encode::frame::PixelFormat;
use video_encode::rational::Rational;
use video_encode::settings::{CodecConfig, Options, Settings, FRAME_RATE};

#[test]
fn h264_yuv420p_preset() {
    let s = Settings::for_h264_yuv420p(800, 600, false);
    assert_eq!((s.width, s.height), (800, 600));
    assert_eq!(s.pixel_format, PixelFormat::Yuv420p);
    assert!(!s.options.realtime);
    let rt = Settings::for_h264_yuv420p(1920, 1080, true);
    assert!(rt.options.realtime);
}

#[test]
fn custom_settings() {
    let mut options = Options::new_h264();
    options.set("crf".to_string(), "18".to_string());
    let s = Settings::for_h264_custom(1280, 720, PixelFormat::Bgra, options);
    assert_eq!((s.width, s.height), (1280, 720));
    assert_eq!(s.pixel_format, PixelFormat::Bgra);
    assert_eq!(s.options().extra.len(), 1);
    assert_eq!(s.options().extra[0], ("crf".to_string(), "18".to_string()));
}

#[test]
fn apply_writes_codec_parameters_once() {
    let s = Settings::for_h264_yuv420p(800, 600, false);
    let tb = Rational::new(1, 90000);
    let mut config = CodecConfig::new(tb);
    s.apply_to(&mut config);
    assert_eq!((config.width, config.height), (800, 600));
    assert_eq!(config.pixel_format, PixelFormat::Yuv420p);
    assert_eq!(config.frame_rate, Rational::new(FRAME_RATE, 1));
    // The codec's own time base is not touched by settings.
    assert_eq!(config.time_base, tb);
}
