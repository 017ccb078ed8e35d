use vr_core::decoder::DecodeSession;
use vr_core::decoder::InputAction;
use vr_core::decoder::IterationStep;
use vr_core::decoder::input_action;
use vr_core::decoder::select_video_track;
use vr_core::decoder::test_pattern_frame;
use vr_core::decoder::test_pattern_position;
use vr_core::frame::FrameBuffer;

#[test]
fn seek_exactly_once() {
    let mut session = DecodeSession::new();
    session.start();
    session.configure(640, 360, 10_000_000);
    session.seek(3_000_000);
    // A position read right after the seek, before the worker ran,
    // already reports the target.
    assert_eq!(session.get_position(), 3_000_000);
    // The next live iteration consumes the request, exactly once.
    match session.begin_iteration() {
        IterationStep::PerformSeek { target_us } => assert_eq!(target_us, 3_000_000),
        _ => panic!("expected a seek"),
    }
    // Consumed: the following iteration proceeds to feed and drain.
    assert!(matches!(session.begin_iteration(), IterationStep::FeedAndDrain));
}

#[test]
fn two_seeks_last_write_wins() {
    let mut session = DecodeSession::new();
    session.start();
    session.configure(640, 360, 10_000_000);
    session.seek(3_000_000);
    session.seek(7_000_000);
    assert_eq!(session.get_position(), 7_000_000);
    match session.begin_iteration() {
        IterationStep::PerformSeek { target_us } => assert_eq!(target_us, 7_000_000),
        _ => panic!("expected a seek"),
    }
    assert!(matches!(session.begin_iteration(), IterationStep::FeedAndDrain));
}

#[test]
fn pause_freezes_position() {
    let mut session = DecodeSession::new();
    session.start();
    session.configure(640, 360, 10_000_000);
    let frame: Vec<u8> = vec![7u8; 640 * 360 * 3 / 2];
    session.on_output(1_000_000, &frame, 0);
    assert_eq!(session.get_position(), 1_000_000);
    session.pause();
    assert!(session.is_paused());
    // Many loop iterations while paused: each only sleeps; the position
    // never moves and nothing is consumed.
    for _ in 0..50 {
        assert!(matches!(session.begin_iteration(), IterationStep::SleepPaused { ms: 10 }));
        assert_eq!(session.get_position(), 1_000_000);
    }
    // Resuming lets decoded output advance the position again.
    session.resume();
    assert!(!session.is_paused());
    assert!(matches!(session.begin_iteration(), IterationStep::FeedAndDrain));
    session.on_output(1_033_000, &frame, 33);
    assert_eq!(session.get_position(), 1_033_000);
}

#[test]
fn end_to_end_two_track_container_loops_and_seeks() {
    // A two-track container: one audio track, one video track 640x360
    // of 10 s. The video track is the first whose media type is video.
    let mimes: Vec<String> = vec![String::from("audio/mp4a-latm"), String::from("video/avc")];
    assert_eq!(select_video_track(&mimes), Some(1));

    let mut session = DecodeSession::new();
    session.start();
    session.configure(640, 360, 10_000_000);
    assert_eq!(session.get_duration(), 10_000_000);

    // Decode along the whole stream; frames arrive at ~33 ms spacing.
    let plane: Vec<u8> = vec![9u8; 640 * 360 * 3 / 2];
    let mut pts: i64 = 0;
    while pts < 10_000_000 {
        assert!(matches!(session.begin_iteration(), IterationStep::FeedAndDrain));
        session.on_output(pts, &plane, 0);
        pts += 33_333;
    }
    assert!(session.get_position() > 9_900_000);

    // Past end of stream the extractor reports no more samples; the
    // loop rewinds to the start instead of stopping...
    assert_eq!(input_action(-1), InputAction::RestartAtStart);
    // ...and the next decoded frames carry timestamps near zero again.
    session.on_output(0, &plane, 0);
    assert!(session.get_position() < 100_000);

    // A seek is reflected in the position immediately.
    session.seek(5_000_000);
    assert_eq!(session.get_position(), 5_000_000);
}

#[test]
fn sample_reads_feed_or_rewind() {
    assert_eq!(input_action(0), InputAction::QueueAndAdvance);
    assert_eq!(input_action(4096), InputAction::QueueAndAdvance);
    assert_eq!(input_action(-1), InputAction::RestartAtStart);
}

#[test]
fn no_video_track_yields_none() {
    let mimes: Vec<String> = vec![String::from("audio/mp4a-latm"), String::from("text/vtt")];
    assert_eq!(select_video_track(&mimes), None);
    // The prefix must be exact: "videox/" does not count.
    let odd: Vec<String> = vec![String::from("vide/x"), String::from("video/hevc")];
    assert_eq!(select_video_track(&odd), Some(1));
}

#[test]
fn short_output_buffer_is_skipped_not_torn() {
    let mut session = DecodeSession::new();
    session.start();
    session.configure(640, 360, 10_000_000);
    // A buffer smaller than a full frame: the copy is skipped and the
    // frame is not marked dirty, but the position still advances.
    let short: Vec<u8> = vec![1u8; 100];
    session.on_output(500_000, &short, 0);
    assert_eq!(session.get_position(), 500_000);
    assert_eq!(session.get_frame(), None);
    // A full buffer lands normally afterwards.
    let full: Vec<u8> = vec![5u8; 640 * 360 * 3 / 2];
    session.on_output(533_000, &full, 0);
    let (y, uv, w, h) = session.get_frame().expect("a full frame must be delivered");
    assert_eq!(w, 640);
    assert_eq!(h, 360);
    assert_eq!(y.len(), 640 * 360);
    assert_eq!(uv.len(), 640 * 360 / 2);
    assert!(y.iter().all(|&b| b == 5));
}

#[test]
fn frame_delivery_at_most_once() {
    let mut buffer = FrameBuffer::new();
    let y: Vec<u8> = vec![11u8; 4 * 2];
    let uv: Vec<u8> = vec![128u8; 4];
    buffer.publish_planes(y, uv, 4, 2, 42);
    let first = buffer.take_frame();
    assert!(first.is_some());
    let (fy, fuv, fw, fh) = first.unwrap();
    assert_eq!((fw, fh), (4, 2));
    assert_eq!(fy, vec![11u8; 8]);
    assert_eq!(fuv, vec![128u8; 4]);
    // A second read without a new publication yields nothing.
    assert_eq!(buffer.take_frame(), None);
}

#[test]
fn publish_from_copies_both_planes() {
    let mut buffer = FrameBuffer::new();
    let mut src: Vec<u8> = Vec::new();
    for i in 0..12 {
        src.push(i as u8);
    }
    // 4x2 frame: 8 luma bytes then 4 chroma bytes.
    buffer.publish_from(&src, 4, 2, 7);
    assert!(buffer.has_new_frame);
    assert_eq!(buffer.timestamp_us, 7);
    assert_eq!(buffer.y_data, vec![0, 1, 2, 3, 4, 5, 6, 7]);
    assert_eq!(buffer.uv_data, vec![8, 9, 10, 11]);
}

#[test]
fn stopping_clears_the_frame_buffer() {
    let mut session = DecodeSession::new();
    session.start();
    session.configure(4, 2, 1_000_000);
    let src: Vec<u8> = vec![3u8; 12];
    session.on_output(10, &src, 0);
    session.stop();
    assert!(!session.is_running());
    assert_eq!(session.get_frame(), None);
}

#[test]
fn test_pattern_is_a_scrolling_diagonal_gradient() {
    let (y, uv) = test_pattern_frame(8, 4, 3);
    assert_eq!(y.len(), 32);
    assert_eq!(uv.len(), 16);
    // Byte at column c, row r is (c + r + 4*frame) mod 256.
    let offset = (3 * 4) % 256;
    for r in 0..4usize {
        for c in 0..8usize {
            assert_eq!(y[r * 8 + c] as usize, (c + r + offset) % 256);
        }
    }
    // Neutral chroma: a grey field.
    assert!(uv.iter().all(|&b| b == 128));
}

#[test]
fn test_pattern_position_wraps_at_duration() {
    assert_eq!(test_pattern_position(0, 60_000_000), 0);
    assert_eq!(test_pattern_position(59_999_999, 60_000_000), 59_999_999);
    assert_eq!(test_pattern_position(60_000_001, 60_000_000), 1);
}
