use desplio::config::CaptureConfig;
use desplio::display::wayland_wlr;
use desplio::display::wayland_wlr::ChildState;
use desplio::display::wayland_wlr::ChildStep;
use desplio::display::wayland_wlr::GstPlan;
use desplio::display::wayland_wlr::PortalStreamInfo;
use desplio::display::wayland_wlr::WaylandProbe;
use desplio::display::wayland_wlr::WaylandWlrBackend;
use desplio::display::wayland_wlr::WaylandWlrError;
use desplio::display::CaptureReadiness;
use desplio::display::DisplayConfig;
use desplio::process::CommandOutput;
use desplio::process::LaunchError;

fn said(stdout: &str) -> Result<CommandOutput, String> {
    Ok(CommandOutput { success: true, stdout: stdout.as_bytes().to_vec(), stderr: Vec::new() })
}

fn probe() -> WaylandProbe {
    WaylandProbe {
        wayland_display: Some("wayland-0".to_string()),
        runtime_dir: Some("/run/user/1000".to_string()),
        socket_exists: true,
        globals: Ok(vec!["wl_seat".to_string(), "zwlr_output_manager_v1".to_string()]),
        portal: said("u 7\n"),
        pipewire: true,
    }
}

fn stream() -> PortalStreamInfo {
    PortalStreamInfo {
        node_id: 52,
        position: Some((0, -10)),
        size: None,
        source_type: Some(4),
        id: Some("a\"b".to_string()),
        mapping_id: None,
    }
}

fn config() -> DisplayConfig {
    DisplayConfig { width: 1280, height: 800, refresh_hz: 60 }
}

fn capture(frames: usize) -> CaptureConfig {
    CaptureConfig {
        frames,
        max_wait_secs: 20,
        output_dir: "artifacts/m1-frames".to_string(),
        request_interval_ms: 1000,
    }
}

#[test]
fn wayland_errors_in_words() {
    let text = |s: &str| s.to_string();
    let cases = [
        (
            WaylandWlrError::MissingWaylandDisplay,
            "WAYLAND_DISPLAY is not set; wlr-virtual-output backend cannot start",
        ),
        (
            WaylandWlrError::MissingRuntimeDir,
            "XDG_RUNTIME_DIR is not set; wlr-virtual-output backend cannot find the compositor socket",
        ),
        (
            WaylandWlrError::MissingSocket(text("/s")),
            "Wayland compositor socket does not exist at /s",
        ),
        (WaylandWlrError::Connection(text("c")), "failed to connect to Wayland compositor: c"),
        (WaylandWlrError::Registry(text("r")), "failed to inspect Wayland globals: r"),
        (
            WaylandWlrError::MissingWlrOutputManagement,
            "Wayland compositor does not advertise zwlr_output_manager_v1; wlroots output-management path is unavailable",
        ),
        (
            WaylandWlrError::MissingPortalVirtualMonitor,
            "ScreenCast portal does not advertise VIRTUAL source support; compositor-native virtual monitor creation is unavailable",
        ),
        (
            WaylandWlrError::MissingPipeWireFeature,
            "Wayland virtual output exists, but the PipeWire / portal capture stack is not compiled in; enable the `wayland-pipewire` feature",
        ),
        (
            WaylandWlrError::PortalSession(text("p")),
            "failed to start Wayland ScreenCast portal session: p",
        ),
        (
            WaylandWlrError::PortalReturnedNoStreams,
            "Wayland ScreenCast portal started but returned no streams for the virtual monitor",
        ),
        (
            WaylandWlrError::GStreamerUnavailable,
            "gst-launch-1.0 with pipewiresrc is required for the current Wayland capture bridge",
        ),
        (
            WaylandWlrError::FrameWriteFailed(text("f")),
            "failed to create Wayland capture output directory: f",
        ),
        (
            WaylandWlrError::CaptureSpawnFailed(text("s")),
            "Wayland PipeWire capture process failed: s",
        ),
        (
            WaylandWlrError::CapturePipelineFailed(text("l")),
            "Wayland PipeWire capture pipeline failed: l",
        ),
        (
            WaylandWlrError::CaptureTimedOut,
            "timed out waiting for the Wayland PipeWire capture pipeline to produce frames",
        ),
        (
            WaylandWlrError::CaptureNotImplemented,
            "Wayland virtual monitor exists, but PNG frame extraction has not been completed for this backend yet",
        ),
    ];
    for (err, words) in cases {
        assert_eq!(err.message(), words);
    }
}

#[test]
fn wayland_sessions_are_detected() {
    let env = wayland_wlr::detect_wayland_environment(probe()).unwrap();
    assert_eq!(env.socket_path, "/run/user/1000/wayland-0");
    assert!(env.supports_wlr_output_management);
    assert!(env.supports_portal_virtual_monitor);
    assert!(env.capture_stack.pipewire_feature_enabled);
    assert!(env.capture_stack.portal_capture_ready);
    assert_eq!(env.advertised_globals.len(), 2);
    let env = wayland_wlr::detect_wayland_environment(WaylandProbe {
        globals: Ok(vec![]),
        portal: Err("no busctl".to_string()),
        pipewire: false,
        ..probe()
    })
    .unwrap();
    assert!(!env.supports_wlr_output_management);
    assert!(!env.supports_portal_virtual_monitor);
    assert_eq!(
        env.capture_stack.note,
        "PipeWire / portal stack is not compiled in yet; enable the `wayland-pipewire` feature"
    );
}

#[test]
fn wayland_sessions_are_missing() {
    let detect = wayland_wlr::detect_wayland_environment;
    assert!(matches!(
        detect(WaylandProbe { wayland_display: None, runtime_dir: None, ..probe() }),
        Err(WaylandWlrError::MissingWaylandDisplay)
    ));
    assert!(matches!(
        detect(WaylandProbe { runtime_dir: None, ..probe() }),
        Err(WaylandWlrError::MissingRuntimeDir)
    ));
    assert!(matches!(
        detect(WaylandProbe { socket_exists: false, ..probe() }),
        Err(WaylandWlrError::MissingSocket(path)) if path == "/run/user/1000/wayland-0"
    ));
    assert!(matches!(
        detect(WaylandProbe { globals: Err(WaylandWlrError::Connection("x".to_string())), ..probe() }),
        Err(WaylandWlrError::Connection(_))
    ));
    assert!(matches!(
        wayland_wlr::socket_path(Some("wayland-1"), Some("/run")),
        Ok(path) if path == "/run/wayland-1"
    ));
}

#[test]
fn portals_tell_their_source_types() {
    let ask = |stdout: &str| {
        wayland_wlr::detect_portal_virtual_monitor_support(&said(stdout)).map_err(|e| e.message())
    };
    assert_eq!(ask("u 4\n"), Ok(true));
    assert_eq!(ask("u 3\n"), Ok(false));
    assert_eq!(ask("s 4\n"), Ok(false));
    assert_eq!(ask(""), Ok(false));
    assert_eq!(
        ask("u"),
        Err("failed to inspect Wayland globals: cannot parse integer from empty string".to_string())
    );
    assert_eq!(
        ask("u x"),
        Err("failed to inspect Wayland globals: invalid digit found in string".to_string())
    );
    let failed = CommandOutput { success: false, stdout: b"u 4".to_vec(), stderr: Vec::new() };
    assert!(!wayland_wlr::detect_portal_virtual_monitor_support(&Ok(failed)).unwrap());
    assert!(wayland_wlr::detect_portal_virtual_monitor_support(&Err("e".to_string())).is_err());
    assert_eq!(
        wayland_wlr::portal_query_args(),
        [
            "--user", "get-property", "org.freedesktop.portal.Desktop",
            "/org/freedesktop/portal/desktop", "org.freedesktop.portal.ScreenCast",
            "AvailableSourceTypes"
        ]
    );
    assert!(wayland_wlr::require_virtual_source(4).is_ok());
    assert!(matches!(
        wayland_wlr::require_virtual_source(3),
        Err(WaylandWlrError::MissingPortalVirtualMonitor)
    ));
}

#[test]
fn the_wayland_backend_starts() {
    let env = wayland_wlr::detect_wayland_environment(probe());
    let backend = WaylandWlrBackend::start(config(), &env, Ok(vec![stream()])).unwrap();
    assert_eq!(backend.streams.unwrap().len(), 1);
    assert!(matches!(
        WaylandWlrBackend::start(config(), &env, Ok(vec![])),
        Err(WaylandWlrError::PortalReturnedNoStreams)
    ));
    assert!(matches!(
        WaylandWlrBackend::start(config(), &env, Err(WaylandWlrError::PortalSession("x".to_string()))),
        Err(WaylandWlrError::PortalSession(_))
    ));
    let env = wayland_wlr::detect_wayland_environment(WaylandProbe { portal: said("u 1"), ..probe() });
    assert!(matches!(
        wayland_wlr::check_start(&env),
        Err(WaylandWlrError::MissingPortalVirtualMonitor)
    ));
    let env = wayland_wlr::detect_wayland_environment(WaylandProbe { pipewire: false, ..probe() });
    assert!(matches!(
        wayland_wlr::check_start(&env),
        Err(WaylandWlrError::MissingPipeWireFeature)
    ));
    let env = Err(WaylandWlrError::Registry("r".to_string()));
    assert_eq!(
        wayland_wlr::check_start(&env).unwrap_err().message(),
        "failed to inspect Wayland globals: r"
    );
}

#[test]
fn wayland_monitors_are_described() {
    let mut backend = WaylandWlrBackend { config: config(), streams: Some(vec![stream(), stream()]) };
    let one = format!(
        "node_id={} id={:?} mapping_id={:?} position={:?} size={:?} source_type={:?}",
        52u32,
        Some("a\"b".to_string()),
        None::<String>,
        Some((0, -10)),
        None::<(i32, i32)>,
        Some(4u32)
    );
    assert_eq!(
        backend.external_monitor_summary(),
        format!(
            "Wayland virtual monitor session active; requested=1280x800@60; streams=[{one}; {one}]"
        )
    );
    assert!(matches!(backend.capture_readiness(), CaptureReadiness::Ready));
    backend.streams = None;
    assert_eq!(
        backend.external_monitor_summary(),
        "Wayland virtual monitor backend selected for 1280x800@60, but the portal capture feature is not compiled in"
    );
    assert!(matches!(
        backend.capture_readiness(),
        CaptureReadiness::Pending(why)
            if why == "virtual monitor creation requires the wayland-pipewire feature for capture wiring"
    ));
    assert!(matches!(
        backend.capture_frames_to_png(&capture(1)),
        Err(WaylandWlrError::CaptureNotImplemented)
    ));
}

#[test]
fn pipelines_are_launched() {
    let backend = WaylandWlrBackend { config: config(), streams: Some(vec![stream()]) };
    assert!(matches!(backend.capture_frames_to_png(&capture(0)), Ok(GstPlan::Nothing)));
    match backend.capture_frames_to_png(&capture(10)) {
        Ok(GstPlan::Launch(args)) => assert_eq!(
            args,
            [
                "-q", "pipewiresrc", "fd=198", "path=52", "num-buffers=10", "always-copy=true",
                "keepalive-time=100", "do-timestamp=true", "!", "videoconvert", "!",
                "video/x-raw,format=RGBA", "!", "pngenc", "snapshot=false", "!", "multifilesink",
                "location=artifacts/m1-frames/frame-%04d.png"
            ]
        ),
        other => panic!("{other:?}"),
    }
    assert_eq!(wayland_wlr::GST_PIPEWIRE_FD, 198);
    assert!(matches!(
        wayland_wlr::plan_gstreamer(&vec![], &capture(1)),
        Err(WaylandWlrError::PortalReturnedNoStreams)
    ));
    let missing = LaunchError { not_found: true, message: "m".to_string() };
    assert!(matches!(
        wayland_wlr::launch_failure(missing),
        WaylandWlrError::GStreamerUnavailable
    ));
    let denied = LaunchError { not_found: false, message: "m".to_string() };
    assert!(matches!(
        wayland_wlr::launch_failure(denied),
        WaylandWlrError::CaptureSpawnFailed(why) if why == "m"
    ));
}

#[test]
fn pipelines_are_watched() {
    assert!(matches!(wayland_wlr::watch_child(ChildState::Running, false), ChildStep::Wait));
    assert!(matches!(wayland_wlr::watch_child(ChildState::Running, true), ChildStep::Kill));
    assert!(matches!(
        wayland_wlr::watch_child(ChildState::Unknown("x".to_string()), false),
        ChildStep::Fail(WaylandWlrError::CaptureSpawnFailed(_))
    ));
    assert!(matches!(
        wayland_wlr::watch_child(
            ChildState::Exited { success: true, status: "0".to_string() },
            true
        ),
        ChildStep::Judge { success: true, .. }
    ));
    assert!(wayland_wlr::judge_exit(true, "exit status: 0", "warning").is_ok());
    assert!(matches!(
        wayland_wlr::judge_exit(false, "exit status: 1", " \n"),
        Err(WaylandWlrError::CapturePipelineFailed(why))
            if why == "gst-launch exited with status exit status: 1"
    ));
    assert!(matches!(
        wayland_wlr::judge_exit(false, "exit status: 1", " no element \n"),
        Err(WaylandWlrError::CapturePipelineFailed(why)) if why == "no element"
    ));
    assert!(matches!(wayland_wlr::judge_kill(""), WaylandWlrError::CaptureTimedOut));
    assert!(matches!(
        wayland_wlr::judge_kill("stuck\n"),
        WaylandWlrError::CapturePipelineFailed(why) if why == "stuck"
    ));
}

#[test]
fn captured_frames_are_listed_in_order() {
    let names: Vec<String> = ["frame-0002.png", "notes.txt", "frame-0000.png", "frame-0001.png"]
        .iter()
        .map(|s| s.to_string())
        .collect();
    assert_eq!(
        wayland_wlr::captured_frames("out", &names).unwrap(),
        ["out/frame-0000.png", "out/frame-0001.png", "out/frame-0002.png"]
    );
    assert!(matches!(
        wayland_wlr::captured_frames("out", &vec!["x".to_string()]),
        Err(WaylandWlrError::CaptureTimedOut)
    ));
}
