use desplio::capture;
use desplio::config::EncodeConfig;
use desplio::config::ServeConfig;
use desplio::encoder;
use desplio::encoder::EncodeError;
use desplio::path;
use desplio::process::CommandOutput;
use desplio::process::LaunchError;

fn said(stdout: &str) -> CommandOutput {
    CommandOutput { success: true, stdout: stdout.as_bytes().to_vec(), stderr: Vec::new() }
}

fn failed(stderr: &str) -> CommandOutput {
    CommandOutput { success: false, stdout: Vec::new(), stderr: stderr.as_bytes().to_vec() }
}

fn encode(framerate: u32) -> EncodeConfig {
    EncodeConfig {
        enabled: true,
        output_path: "artifacts/m2-video/desplio-m2.mp4".to_string(),
        framerate,
    }
}

fn serve(latest_segment_path: &str) -> ServeConfig {
    ServeConfig {
        enabled: true,
        bind_addr: "127.0.0.1:9001".to_string(),
        page_path: "index.html".to_string(),
        latest_segment_path: latest_segment_path.to_string(),
        latest_frame_path: "latest-frame.png".to_string(),
        refresh_interval_ms: 1500,
    }
}

fn frames(list: &[&str]) -> Vec<String> {
    list.iter().map(|s| s.to_string()).collect()
}

#[test]
fn encode_errors_in_words() {
    let text = |s: &str| s.to_string();
    let cases = [
        (EncodeError::NoFrames, "no captured frames were available for encoding"),
        (
            EncodeError::CreateOutputDir(text("d")),
            "failed to create encoder output directory: d",
        ),
        (
            EncodeError::CopyPreviewArtifact(text("c")),
            "failed to stage preview segment output: c",
        ),
        (EncodeError::FfmpegUnavailable, "ffmpeg is not installed or not available on PATH"),
        (EncodeError::MissingLibx264, "ffmpeg does not expose the libx264 encoder"),
        (EncodeError::SpawnFailed(text("s")), "failed to invoke ffmpeg: s"),
        (EncodeError::EncodeFailed(text("e")), "ffmpeg encoding failed: e"),
    ];
    for (err, words) in cases {
        assert_eq!(err.message(), words);
    }
}

#[test]
fn ffmpeg_is_checked() {
    assert!(encoder::check_version(&Ok(said(""))).is_ok());
    assert!(matches!(
        encoder::check_version(&Ok(failed(""))),
        Err(EncodeError::FfmpegUnavailable)
    ));
    let missing = LaunchError { not_found: true, message: "m".to_string() };
    assert!(matches!(encoder::check_version(&Err(missing)), Err(EncodeError::FfmpegUnavailable)));
    let denied = LaunchError { not_found: false, message: "m".to_string() };
    assert!(matches!(
        encoder::check_version(&Err(denied)),
        Err(EncodeError::SpawnFailed(why)) if why == "m"
    ));
    assert!(encoder::check_encoders(&Ok(said(" V....D libx264 H.264"))).is_ok());
    assert!(matches!(
        encoder::check_encoders(&Ok(said("libx265"))),
        Err(EncodeError::MissingLibx264)
    ));
    assert!(matches!(
        encoder::check_encoders(&Ok(failed(""))),
        Err(EncodeError::FfmpegUnavailable)
    ));
    assert!(matches!(
        encoder::check_encoders(&Err("x".to_string())),
        Err(EncodeError::SpawnFailed(_))
    ));
    assert_eq!(encoder::version_args(), ["-hide_banner", "-version"]);
    assert_eq!(encoder::encoders_args(), ["-hide_banner", "-encoders"]);
}

#[test]
fn frames_become_annexb() {
    assert_eq!(
        encoder::annexb_args("a.png"),
        [
            "-hide_banner", "-loglevel", "error", "-y", "-loop", "1", "-i", "a.png", "-frames:v",
            "1", "-c:v", "libx264", "-profile:v", "baseline", "-level", "3.1", "-preset",
            "ultrafast", "-tune", "zerolatency", "-x264-params",
            "repeat-headers=1:annexb=1:keyint=1:min-keyint=1:scenecut=0", "-pix_fmt", "yuv420p",
            "-bf", "0", "-f", "h264", "-"
        ]
    );
    assert_eq!(encoder::encode_png_to_h264_annexb(Ok(said("\u{1}x"))).unwrap(), b"\x01x");
    assert!(matches!(
        encoder::encode_png_to_h264_annexb(Ok(failed(" bad png\n"))),
        Err(EncodeError::EncodeFailed(why)) if why == "bad png"
    ));
    assert!(matches!(
        encoder::encode_png_to_h264_annexb(Err("x".to_string())),
        Err(EncodeError::SpawnFailed(why)) if why == "x"
    ));
}

#[test]
fn frames_become_a_video() {
    let list = frames(&["out/frame-0000.png", "out/frame-0001.png"]);
    let served = serve("artifacts/m3-preview/latest.mp4");
    let plan = encoder::encode_h264_mp4_from_pngs(&encode(0), Some(&served), &list).unwrap();
    assert_eq!(
        plan.args,
        [
            "-hide_banner", "-loglevel", "error", "-y", "-framerate", "1", "-i",
            "out/frame-%04d.png", "-frames:v", "2", "-c:v", "libx264", "-preset", "ultrafast",
            "-tune", "zerolatency", "-pix_fmt", "yuv420p", "-g", "1", "-bf", "0", "-movflags",
            "+faststart", "artifacts/m2-video/desplio-m2.mp4"
        ]
    );
    assert_eq!(plan.output_dir, Some("artifacts/m2-video".to_string()));
    assert_eq!(plan.artifact.mp4_path, "artifacts/m2-video/desplio-m2.mp4");
    assert_eq!(plan.artifact.segment_path, "artifacts/m3-preview/latest.mp4");
    assert_eq!(plan.segment_dir, Some("artifacts/m3-preview".to_string()));
    assert!(plan.copies);
    let plan = encoder::encode_h264_mp4_from_pngs(&encode(30), None, &list).unwrap();
    assert_eq!(plan.args[5], "30");
    assert_eq!(plan.artifact.segment_path, plan.artifact.mp4_path);
    assert!(!plan.copies);
    let same = serve("artifacts//m2-video/./desplio-m2.mp4");
    let plan = encoder::encode_h264_mp4_from_pngs(&encode(1), Some(&same), &list).unwrap();
    assert!(!plan.copies);
}

#[test]
fn videos_need_frames_in_a_directory() {
    assert!(matches!(
        encoder::encode_h264_mp4_from_pngs(&encode(1), None, &vec![]),
        Err(EncodeError::NoFrames)
    ));
    assert!(matches!(encoder::require_frames(&vec![]), Err(EncodeError::NoFrames)));
    assert!(encoder::require_frames(&frames(&["a"])).is_ok());
    assert!(matches!(
        encoder::encode_h264_mp4_from_pngs(&encode(1), None, &frames(&["/"])),
        Err(EncodeError::EncodeFailed(why))
            if why == "captured frame path did not have a parent directory"
    ));
    let plan = encoder::encode_h264_mp4_from_pngs(&encode(1), None, &frames(&["f.png"])).unwrap();
    assert_eq!(plan.args[7], "frame-%04d.png");
}

#[test]
fn videos_are_accepted() {
    assert!(encoder::accept_video(&Ok(said(""))).is_ok());
    assert!(matches!(
        encoder::accept_video(&Ok(failed("x"))),
        Err(EncodeError::EncodeFailed(why)) if why == "x"
    ));
    assert!(matches!(
        encoder::accept_video(&Err("y".to_string())),
        Err(EncodeError::SpawnFailed(why)) if why == "y"
    ));
}

#[test]
fn frames_are_read_in_whatever_form_their_directory_is_told() {
    for dir in ["out", "out/", "out/.", "./out//./", "/out/", "/", ".", "./", "", "..", "../"] {
        let first = capture::frame_path(dir, 0);
        let plan = encoder::encode_h264_mp4_from_pngs(&encode(1), None, &vec![first]).unwrap();
        let told = path::join_path(dir, "frame-%04d.png");
        assert!(path::same_path(&plan.args[7], &told), "{dir:?}");
    }
}
