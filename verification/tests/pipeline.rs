use video_encode::encoder::{
    encode_poll_outcome, flush_action, Encoder, FinishDisposition, FlushAction, Stage,
    KEY_FRAME_INTERVAL, MAX_DRAIN_ITERATIONS,
};
use video_encode::frame::{format_for_channels, PixelConverter, PixelFormat, RawFrame};
use video_encode::packet::{DrainResult, Packet};
use video_encode::rational::Rational;
use video_encode::settings::Settings;
use video_encode::EncodeError;

fn pipeline_800_600() -> Encoder {
    let settings = Settings::for_h264_yuv420p(800, 600, false);
    Encoder::open(&settings, 0, Rational::new(1, 90000))
}

#[test]
fn admits_correct_frames() {
    // Frames with the configured dimensions and an accepted source format are
    // never rejected as InvalidFrameFormat.
    let mut enc = pipeline_800_600();
    let bgra = RawFrame::new(800, 600, PixelFormat::Bgra, 0);
    assert!(enc.admit_frame(&bgra).is_ok());
    enc.note_header_written();
    let rgb = RawFrame::new(800, 600, PixelFormat::Rgb24, 1);
    assert!(enc.admit_frame(&rgb).is_ok());
}

#[test]
fn rejects_wrong_dimensions_and_formats() {
    let mut enc = pipeline_800_600();
    let wrong_size = RawFrame::new(640, 480, PixelFormat::Bgra, 0);
    assert_eq!(
        enc.admit_frame(&wrong_size),
        Err(EncodeError::InvalidFrameFormat)
    );
    let wrong_format = RawFrame::new(800, 600, PixelFormat::Yuv420p, 0);
    assert_eq!(
        enc.admit_frame(&wrong_format),
        Err(EncodeError::InvalidFrameFormat)
    );
}

#[test]
fn rejected_frame_leaves_session_unchanged() {
    // Submitting a 640x480 frame to an 800x600 pipeline fails with
    // InvalidFrameFormat and changes nothing: no header, no counted frame.
    let mut enc = pipeline_800_600();
    let wrong = RawFrame::new(640, 480, PixelFormat::Bgra, 0);
    assert_eq!(enc.admit_frame(&wrong), Err(EncodeError::InvalidFrameFormat));
    assert_eq!(enc.stage, Stage::Fresh);
    assert_eq!(enc.frame_count, 0);
    assert!(!enc.header_pending);
}

#[test]
fn single_frame_session() {
    // One correctly-sized BGRA frame with PTS 0: exactly one header write, one
    // converted and submitted frame, a trailer after finishing, and as many
    // packets written as frames submitted.
    let mut enc = pipeline_800_600();
    let frame = RawFrame::new(800, 600, PixelFormat::Bgra, 0);

    let pass = enc.admit_frame(&frame).unwrap();
    assert!(pass.write_header);
    assert!(pass.force_key);
    enc.note_header_written();
    assert_eq!(enc.stage, Stage::Started);

    let mut converted = enc.convert_frame(&frame).unwrap();
    assert_eq!(converted.format, PixelFormat::Yuv420p);
    assert_eq!(converted.pts, 0);
    if pass.force_key {
        converted.mark_key();
    }
    assert!(converted.forced_key);

    // The codec holds the frame back (lookahead): the one drain attempt of the
    // encode call reports "not yet", which is an empty result, not an error.
    let polled = encode_poll_outcome(&DrainResult::NotYet);
    assert_eq!(polled, Ok(None));

    // Finish: the buffered packet comes out during the flush.
    assert_eq!(enc.begin_finish(), FinishDisposition::RunFlush);
    let stream_tb = Rational::new(1, 90000);
    let mut codec_queue = vec![DrainResult::Produced(Packet::new(0, 0)), DrainResult::Drained];
    codec_queue.reverse();
    while enc.drain_permit() {
        match flush_action(&codec_queue.pop().unwrap()) {
            FlushAction::WritePacket => {
                let prepared = enc.prepare_packet(Packet::new(0, 0), stream_tb);
                assert_eq!(prepared.stream_index, 0);
                assert_eq!(prepared.position, -1);
                enc.note_packet_written(&prepared);
            }
            FlushAction::PollAgain => continue,
            FlushAction::Stop => break,
        }
    }
    enc.note_trailer_written();

    assert_eq!(enc.stage, Stage::Finished);
    assert_eq!(enc.frame_count, 1, "packets written must equal frames submitted");
}

#[test]
fn key_frames_every_twelfth_packet() {
    // With the output counter driving the cadence, positions 0, 12, 24, ...
    // are forced key frames and no others are.
    let mut enc = pipeline_800_600();
    let frame = RawFrame::new(800, 600, PixelFormat::Bgra, 0);
    let pass = enc.admit_frame(&frame).unwrap();
    assert!(pass.force_key, "the first frame is at output position 0");
    enc.note_header_written();
    let stream_tb = Rational::new(1, 90000);
    for i in 0..30u64 {
        assert_eq!(
            enc.force_key_now(),
            i % KEY_FRAME_INTERVAL == 0,
            "cadence wrong at output position {}",
            i
        );
        let prepared = enc.prepare_packet(Packet::new(i as i64, i as i64), stream_tb);
        enc.note_packet_written(&prepared);
    }
    assert_eq!(enc.frame_count, 30);
}

#[test]
fn finish_is_idempotent() {
    let mut enc = pipeline_800_600();
    let frame = RawFrame::new(800, 600, PixelFormat::Bgra, 0);
    enc.admit_frame(&frame).unwrap();
    enc.note_header_written();
    assert_eq!(enc.begin_finish(), FinishDisposition::RunFlush);
    // The codec is immediately drained; the trailer goes out.
    assert!(enc.drain_permit());
    assert_eq!(flush_action(&DrainResult::Drained), FlushAction::Stop);
    enc.note_trailer_written();
    let count = enc.frame_count;

    // A second finish asks for no work and changes nothing observable.
    assert_eq!(enc.begin_finish(), FinishDisposition::NothingToDo);
    assert_eq!(enc.stage, Stage::Finished);
    assert_eq!(enc.frame_count, count);
}

#[test]
fn finish_without_frames_writes_nothing() {
    // If the header was never written, finish must not write a trailer.
    let mut enc = pipeline_800_600();
    assert_eq!(enc.begin_finish(), FinishDisposition::NothingToDo);
    assert_eq!(enc.stage, Stage::Finished);
    assert_eq!(enc.frame_count, 0);
    assert_eq!(enc.begin_finish(), FinishDisposition::NothingToDo);
}

#[test]
fn flush_stops_within_drain_budget() {
    // Against a codec that never reports itself drained, the flush loop gets
    // exactly MAX_DRAIN_ITERATIONS permits and then stops.
    let mut enc = pipeline_800_600();
    let frame = RawFrame::new(800, 600, PixelFormat::Bgra, 0);
    enc.admit_frame(&frame).unwrap();
    enc.note_header_written();
    assert_eq!(enc.begin_finish(), FinishDisposition::RunFlush);
    let mut polls = 0u32;
    while enc.drain_permit() {
        // The codec answers "not yet" forever.
        assert_eq!(flush_action(&DrainResult::NotYet), FlushAction::PollAgain);
        polls += 1;
        assert!(polls <= MAX_DRAIN_ITERATIONS, "flush loop exceeded its budget");
    }
    assert_eq!(polls, MAX_DRAIN_ITERATIONS);
    assert!(!enc.drain_permit());
}

#[test]
fn encode_poll_outcomes() {
    // Mid-stream, a produced packet is handed on, "not yet" is an empty
    // result, and both hard failures and a premature end-of-stream are
    // backend errors.
    let p = Packet::new(3, 2);
    assert_eq!(encode_poll_outcome(&DrainResult::Produced(p)), Ok(Some(p)));
    assert_eq!(encode_poll_outcome(&DrainResult::NotYet), Ok(None));
    assert_eq!(
        encode_poll_outcome(&DrainResult::Drained),
        Err(EncodeError::Backend)
    );
    assert_eq!(
        encode_poll_outcome(&DrainResult::Failed(-5)),
        Err(EncodeError::Backend)
    );
}

#[test]
fn prepared_packets_keep_timestamp_order() {
    // Packets prepared from non-decreasing codec timestamps carry
    // non-decreasing rescaled timestamps.
    let enc = pipeline_800_600().interleaved();
    assert!(enc.interleaved);
    let stream_tb = Rational::new(1, 1000);
    let mut last = i64::MIN;
    for pts in [0i64, 1, 2, 2, 5, 100, 90000] {
        let prepared = enc.prepare_packet(Packet::new(pts, pts), stream_tb);
        assert!(prepared.pts >= last, "timestamp order inverted at {}", pts);
        last = prepared.pts;
    }
}

#[test]
fn converter_preserves_timing() {
    let conv = PixelConverter::new(320, 200, PixelFormat::Yuv420p);
    let mut frame = RawFrame::new(320, 200, PixelFormat::Rgb24, 0);
    frame.set_pts(42);
    let out = conv.convert(&frame).unwrap();
    assert_eq!(out.pts, 42);
    assert_eq!(out.format, PixelFormat::Yuv420p);
    assert_eq!((out.width, out.height), (320, 200));
    let bad = RawFrame::new(321, 200, PixelFormat::Rgb24, 42);
    assert_eq!(conv.convert(&bad), Err(EncodeError::InvalidFrameFormat));
}

#[test]
fn channel_count_maps_to_source_format() {
    assert_eq!(format_for_channels(3), Some(PixelFormat::Rgb24));
    assert_eq!(format_for_channels(4), Some(PixelFormat::Bgra));
    assert_eq!(format_for_channels(1), None);
    assert_eq!(format_for_channels(5), None);
}

#[test]
fn time_base_getter() {
    let enc = pipeline_800_600();
    assert_eq!(enc.time_base(), Rational::new(1, 90000));
}
