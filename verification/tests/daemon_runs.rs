use desplio::config::Config;
use desplio::daemon;
use desplio::daemon::Environment;
use desplio::daemon::HoldReason;
use desplio::daemon::Phase;
use desplio::daemon::Settings;
use desplio::display::CaptureReadiness;
use desplio::display::DisplayBackendInfo;
use desplio::display::HostDisplayEnvironment;

fn info(selected_backend: &'static str, session_type: &str) -> DisplayBackendInfo {
    DisplayBackendInfo {
        selected_backend,
        host: HostDisplayEnvironment {
            session_type: session_type.to_string(),
            display_env_present: false,
            has_dri_dir: true,
        },
        backends: Vec::new(),
    }
}

fn unset() -> Environment {
    Environment {
        keep_display_attached: None,
        hold_secs: None,
        startup_capture: None,
        continuous_preview: None,
    }
}

fn plain() -> Settings {
    Settings {
        keep_display_attached: false,
        hold_secs: 0,
        startup_capture_enabled: true,
        continuous_preview_requested: true,
        startup_capture_requested: true,
    }
}

#[test]
fn flags_are_switched_on() {
    for yes in ["1", "true", "TRUE", "yes", "YES"] {
        assert!(daemon::flag(Some(yes), false));
    }
    for no in ["", "0", "True", "on", " 1", "false"] {
        assert!(!daemon::flag(Some(no), true));
    }
    assert!(daemon::flag(None, true));
    assert!(!daemon::flag(None, false));
}

#[test]
fn holds_last_as_long_as_told() {
    assert_eq!(daemon::hold_seconds(Some("12"), true), 12);
    assert_eq!(daemon::hold_seconds(Some("soon"), true), 0);
    assert_eq!(daemon::hold_seconds(Some("-1"), false), 5);
    assert_eq!(daemon::hold_seconds(None, true), 0);
    assert_eq!(daemon::hold_seconds(None, false), 5);
    assert!(daemon::holds_on(false, 0, true));
    assert!(daemon::holds_on(false, 3, false));
    assert!(!daemon::holds_on(false, 3, true));
    assert!(!daemon::holds_on(true, 0, false));
}

#[test]
fn settings_follow_the_host() {
    let out = daemon::settings(&unset(), true, &info("x11-dummy", "x11"));
    assert_eq!(out, plain());
    let out = daemon::settings(&unset(), true, &info("evdi", "Wayland"));
    assert!(!out.startup_capture_enabled);
    assert!(!out.continuous_preview_requested);
    assert!(!out.startup_capture_requested);
    let out = daemon::settings(&unset(), false, &info("wayland-wlr", "wayland"));
    assert!(!out.startup_capture_enabled);
    assert!(out.continuous_preview_requested);
    assert!(out.startup_capture_requested);
    assert_eq!(out.hold_secs, 5);
    let env = Environment {
        keep_display_attached: Some("yes".to_string()),
        hold_secs: Some("9".to_string()),
        startup_capture: Some("1".to_string()),
        continuous_preview: Some("0".to_string()),
    };
    let out = daemon::settings(&env, true, &info("evdi", "wayland"));
    assert_eq!(
        out,
        Settings {
            keep_display_attached: true,
            hold_secs: 9,
            startup_capture_enabled: true,
            continuous_preview_requested: false,
            startup_capture_requested: true,
        }
    );
    assert!(daemon::is_evdi_on_wayland(&info("evdi", "WAYLAND")));
    assert!(!daemon::is_evdi_on_wayland(&info("evdi", "x11")));
}

#[test]
fn runs_have_their_phases() {
    let ready = CaptureReadiness::Ready;
    assert_eq!(
        daemon::phases(&plain(), &ready, true),
        [Phase::StartServer, Phase::CaptureOnce, Phase::RollingPreview, Phase::StopServer]
    );
    let paused = Settings {
        continuous_preview_requested: false,
        startup_capture_requested: false,
        ..plain()
    };
    assert_eq!(
        daemon::phases(&paused, &ready, true),
        [
            Phase::StartServer,
            Phase::SkipCapture,
            Phase::Hold(HoldReason::PreviewPaused),
            Phase::StopServer
        ]
    );
    assert_eq!(
        daemon::phases(&plain(), &ready, false),
        [
            Phase::CaptureOnce,
            Phase::ReleaseDisplay,
            Phase::Hold(HoldReason::Released),
            Phase::StopServer
        ]
    );
    let kept = Settings { keep_display_attached: true, ..plain() };
    assert_eq!(
        daemon::phases(&kept, &ready, false),
        [Phase::CaptureOnce, Phase::Hold(HoldReason::Debugging), Phase::StopServer]
    );
    let pending = CaptureReadiness::Pending("why".to_string());
    assert_eq!(
        daemon::phases(&plain(), &pending, true),
        [Phase::DescribeMonitor, Phase::Hold(HoldReason::CapturePending)]
    );
    let quiet = Settings { startup_capture_enabled: false, ..plain() };
    assert_eq!(
        daemon::phases(&quiet, &ready, true),
        [Phase::DescribeMonitor, Phase::Hold(HoldReason::Validation)]
    );
}

#[test]
fn holds_are_announced() {
    assert_eq!(
        HoldReason::Validation.message(0),
        "virtual display remains attached for Wayland validation; press Ctrl-C to disconnect"
    );
    assert_eq!(
        HoldReason::Validation.message(5),
        "virtual display remains attached for Wayland validation; it will auto-disconnect after the hold window"
    );
    assert_eq!(
        HoldReason::PreviewPaused.message(0),
        "virtual display remains attached while preview refresh is paused; press Ctrl-C to disconnect"
    );
    assert_eq!(
        HoldReason::PreviewPaused.message(5),
        "virtual display remains attached while preview refresh is paused for responsiveness"
    );
    assert_eq!(
        HoldReason::Debugging.message(0),
        "virtual display remains attached for debugging; press Ctrl-C to disconnect"
    );
    assert_eq!(
        HoldReason::Debugging.message(5),
        "virtual display remains attached for debugging; it will auto-disconnect after the hold window"
    );
    assert_eq!(
        HoldReason::CapturePending.message(0),
        "virtual display remains attached; press Ctrl-C to disconnect"
    );
    assert_eq!(
        HoldReason::CapturePending.message(5),
        "virtual display remains attached while the Wayland PipeWire capture leg is being completed"
    );
    assert_eq!(
        HoldReason::Released.message(0),
        "virtual display has been released; press Ctrl-C to stop the daemon"
    );
    assert_eq!(
        HoldReason::Released.message(5),
        "virtual display has been released; the daemon will exit after the hold window"
    );
}

#[test]
fn cycles_need_frames_and_an_encoder() {
    let mut config = Config::default();
    assert_eq!(
        daemon::refuses_frames(&vec![]),
        Some("frame capture disabled; no PNGs were written")
    );
    assert_eq!(daemon::refuses_frames(&vec!["a".to_string()]), None);
    assert_eq!(daemon::refuses_encoding(&config), None);
    config.encode.enabled = false;
    assert_eq!(
        daemon::refuses_encoding(&config),
        Some("M3 preview requires the encoder path; encoding is disabled")
    );
    assert!(daemon::served(&config).is_some());
    assert_eq!(daemon::preview_url(&config.serve), "http://127.0.0.1:9001/");
    config.serve.enabled = false;
    assert!(daemon::served(&config).is_none());
    assert_eq!(daemon::DEFAULT_LOG_FILTER, "info,desplio_daemon=debug");
}

#[test]
fn the_latest_frame_is_published() {
    let frames = vec!["out/frame-0000.png".to_string(), "out/frame-0001.png".to_string()];
    let copy = daemon::publish_latest_frame_artifact(&frames, "preview/latest.png").unwrap();
    assert_eq!(copy.source, "out/frame-0001.png");
    assert_eq!(copy.target, "preview/latest.png");
    assert_eq!(copy.target_dir, Some("preview".to_string()));
    assert!(daemon::publish_latest_frame_artifact(&vec![], "x").is_none());
}
