use desplio::capture;
use desplio::capture::CaptureRun;
use desplio::capture::FrameVerdict;
use desplio::config::CaptureConfig;
use desplio::config::Config;

#[test]
fn frames_become_pictures() {
    // Two pixels in each of two rows, and four bytes of padding.
    let frame = [
        1, 2, 3, 9, 4, 5, 6, 9, 0, 0, 0, 0, //
        7, 8, 9, 9, 10, 11, 12, 9, 0, 0, 0, 0,
    ];
    let rgba = capture::xrgb8888_to_rgba(2, 2, 12, &frame);
    assert_eq!(rgba, vec![3, 2, 1, 255, 6, 5, 4, 255, 9, 8, 7, 255, 12, 11, 10, 255]);
    let (path, same) = capture::write_xrgb8888_png("out", 7, 2, 2, 12, &frame);
    assert_eq!(path, "out/frame-0007.png");
    assert_eq!(same, rgba);
}

#[test]
fn whole_frames_reach_their_last_row() {
    assert!(capture::frame_is_whole(24, 2, 2, 12));
    assert!(capture::frame_is_whole(20, 2, 2, 12));
    assert!(!capture::frame_is_whole(19, 2, 2, 12));
    assert!(capture::frame_is_whole(0, 5, 0, 20));
    assert!(!capture::frame_is_whole(usize::MAX, usize::MAX, usize::MAX, usize::MAX));
}

#[test]
fn black_pictures_are_told() {
    assert!(capture::rgba_is_all_black(&[]));
    assert!(capture::rgba_is_all_black(&[0, 0, 0, 255, 0, 0, 0, 1]));
    assert!(!capture::rgba_is_all_black(&[0, 0, 0, 255, 0, 0, 1, 255]));
    assert!(capture::rgba_is_all_black(&[0, 0, 0, 255, 9]));
}

#[test]
fn black_frames_make_black_pictures() {
    let frame = [0, 0, 0, 7, 0, 0, 0, 7];
    let rgba = capture::xrgb8888_to_rgba(2, 1, 8, &frame);
    assert!(capture::rgba_is_all_black(&rgba));
    let frame = [0, 0, 0, 7, 0, 1, 0, 7];
    let rgba = capture::xrgb8888_to_rgba(2, 1, 8, &frame);
    assert!(!capture::rgba_is_all_black(&rgba));
}

#[test]
fn frame_files_have_their_names() {
    assert_eq!(capture::frame_file_name(0), "frame-0000.png");
    assert_eq!(capture::frame_file_name(12345), "frame-12345.png");
    assert_eq!(capture::frame_path("a/b", 3), "a/b/frame-0003.png");
    for index in [0, 9, 99, 100000] {
        assert!(capture::is_frame_file(capture::frame_file_name(index).as_str()));
    }
    assert!(capture::is_frame_file("frame-.png"));
    assert!(!capture::is_frame_file("frame-0001.jpg"));
    assert!(!capture::is_frame_file("latest-frame.png"));
}

#[test]
fn three_frames_with_a_picture_are_enough() {
    let mut run = CaptureRun::new(10, true);
    assert!(run.wants_more(false));
    assert!(!run.wants_more(true));
    assert_eq!(run.record(false), FrameVerdict::Continue);
    assert_eq!(run.record(true), FrameVerdict::Continue);
    assert_eq!(run.record(true), FrameVerdict::Continue);
    assert_eq!(run.record(false), FrameVerdict::Enough);
    assert!(run.is_success());
    assert_eq!(run.taken, 4);
}

#[test]
fn evdi_gives_up_on_three_black_frames() {
    let mut run = CaptureRun::new(10, true);
    assert_eq!(run.record(true), FrameVerdict::Continue);
    assert_eq!(run.record(true), FrameVerdict::Continue);
    assert_eq!(run.record(true), FrameVerdict::AllBlack);
    assert!(!run.is_success());
    let mut run = CaptureRun::new(1, true);
    assert_eq!(run.record(true), FrameVerdict::AllBlack);
}

#[test]
fn x11_keeps_waiting_for_a_picture() {
    let mut run = CaptureRun::new(5, false);
    for _ in 0..4 {
        assert_eq!(run.record(true), FrameVerdict::Continue);
    }
    assert_eq!(run.record(true), FrameVerdict::Continue);
    assert!(!run.wants_more(false));
    assert!(!run.is_success());
}

#[test]
fn the_default_configuration() {
    let config = Config::default();
    assert_eq!(config.capture.frames, 10);
    assert_eq!(config.capture.max_wait_secs, 20);
    assert_eq!(config.capture.output_dir, "artifacts/m1-frames");
    assert_eq!(config.capture.request_interval_ms, 1000);
    assert_eq!(config.display.width, 1280);
    assert_eq!(config.display.height, 800);
    assert_eq!(config.display.refresh_hz, 60);
    assert!(config.encode.enabled);
    assert_eq!(config.encode.output_path, "artifacts/m2-video/desplio-m2.mp4");
    assert_eq!(config.encode.framerate, 1);
    assert!(config.serve.enabled);
    assert_eq!(config.serve.bind_addr, "127.0.0.1:9001");
    assert_eq!(config.serve.page_path, "apps/web-client/index.html");
    assert_eq!(config.serve.latest_segment_path, "artifacts/m3-preview/latest.mp4");
    assert_eq!(config.serve.latest_frame_path, "artifacts/m3-preview/latest-frame.png");
    assert_eq!(config.serve.refresh_interval_ms, 1500);
    let capture = CaptureConfig { frames: 0, ..config.capture };
    assert_eq!(capture.frames, 0);
}
