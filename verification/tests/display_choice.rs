use desplio::capture::CaptureRun;
use desplio::config::CaptureConfig;
use desplio::display;
use desplio::display::evdi;
use desplio::display::evdi::EvdiBackend;
use desplio::display::evdi::EvdiError;
use desplio::display::evdi::NegotiatedMode;
use desplio::display::wayland_wlr;
use desplio::display::wayland_wlr::WaylandProbe;
use desplio::display::wayland_wlr::WaylandWlrBackend;
use desplio::display::wayland_wlr::WaylandWlrError;
use desplio::display::x11_dummy::X11DummyBackend;
use desplio::display::x11_dummy::X11DummyError;
use desplio::display::BackendChoice;
use desplio::display::CaptureJob;
use desplio::display::CaptureReadiness;
use desplio::display::DisplayBackend;
use desplio::display::DisplayConfig;
use desplio::display::DisplayError;
use desplio::display::HostProbe;
use desplio::process::CommandOutput;

fn text(s: &str) -> Option<String> {
    Some(s.to_string())
}

fn said(stdout: &str) -> Result<CommandOutput, String> {
    Ok(CommandOutput { success: true, stdout: stdout.as_bytes().to_vec(), stderr: Vec::new() })
}

fn wayland(portal: &str, pipewire: bool) -> WaylandProbe {
    WaylandProbe {
        wayland_display: text("wayland-0"),
        runtime_dir: text("/run/user/1000"),
        socket_exists: true,
        globals: Ok(vec!["wl_seat".to_string(), "wl_output".to_string()]),
        portal: said(portal),
        pipewire,
    }
}

fn bare() -> HostProbe {
    HostProbe {
        wanted_backend: None,
        session_type: None,
        display: None,
        has_dri_dir: true,
        xrandr: Err("no xrandr".to_string()),
        wayland: Err(WaylandWlrError::MissingWaylandDisplay),
    }
}

fn config() -> DisplayConfig {
    DisplayConfig { width: 1280, height: 800, refresh_hz: 60 }
}

fn capture(frames: usize) -> CaptureConfig {
    CaptureConfig {
        frames,
        max_wait_secs: 20,
        output_dir: "out".to_string(),
        request_interval_ms: 1000,
    }
}

#[test]
fn hosts_are_suited_to_backends() {
    assert_eq!(display::auto_backend_choice(&bare()), BackendChoice::Evdi);
    let probe = HostProbe { display: text(":0"), ..bare() };
    assert_eq!(display::auto_backend_choice(&probe), BackendChoice::X11Dummy);
    let probe = HostProbe { display: text(""), ..bare() };
    assert_eq!(display::auto_backend_choice(&probe), BackendChoice::Evdi);
    let probe = HostProbe { session_type: text("X11"), ..bare() };
    assert_eq!(display::auto_backend_choice(&probe), BackendChoice::X11Dummy);
    let probe = HostProbe {
        session_type: text("Wayland"),
        display: text(":0"),
        wayland: wayland_wlr::detect_wayland_environment(wayland("u 4", true)),
        ..bare()
    };
    assert_eq!(display::auto_backend_choice(&probe), BackendChoice::WaylandWlr);
    let probe = HostProbe {
        session_type: text("wayland"),
        wayland: wayland_wlr::detect_wayland_environment(wayland("u 3", true)),
        ..bare()
    };
    assert_eq!(display::auto_backend_choice(&probe), BackendChoice::Evdi);
}

#[test]
fn named_backends_are_used() {
    for choice in [BackendChoice::Evdi, BackendChoice::WaylandWlr, BackendChoice::X11Dummy] {
        let probe = HostProbe { wanted_backend: text(&format!(" {} \n", choice.name())), ..bare() };
        assert_eq!(display::choose_backend(&probe), choice);
        assert_eq!(DisplayBackend::inspect(config(), &probe).selected_backend, choice.name());
    }
    for other in ["auto", "", "EVDI", "something"] {
        let probe = HostProbe { wanted_backend: text(other), display: text(":0"), ..bare() };
        assert_eq!(display::choose_backend(&probe), BackendChoice::X11Dummy);
    }
}

#[test]
fn bare_hosts_are_inspected() {
    let info = DisplayBackend::inspect(config(), &bare());
    assert_eq!(info.selected_backend, "evdi");
    assert_eq!(info.host.session_type, "unknown");
    assert!(!info.host.display_env_present);
    assert!(info.host.has_dri_dir);
    assert_eq!(info.backends.len(), 3);
    let [evdi, wayland, x11] = [&info.backends[0], &info.backends[1], &info.backends[2]];
    assert_eq!((evdi.backend, wayland.backend, x11.backend), ("evdi", "wayland-wlr", "x11-dummy"));
    assert!(evdi.usable_now && evdi.safe_for_daily_desktop && evdi.supports_multiple_virtual_displays);
    assert_eq!(evdi.estimated_max_virtual_displays, Some(16));
    assert_eq!(evdi.note, "Preferred virtual-display backend for Wayland/DRM-friendly hosts");
    assert!(!wayland.usable_now && wayland.estimated_max_virtual_displays.is_none());
    assert_eq!(wayland.note, "No Wayland compositor socket detected for wlr-virtual-output");
    assert!(!x11.usable_now && x11.requires_free_physical_pipeline);
    assert_eq!(x11.estimated_max_virtual_displays, Some(0));
    assert_eq!(x11.note, "No disconnected X11 outputs available for runtime activation");
}

#[test]
fn x11_hosts_are_inspected() {
    let probe = HostProbe {
        session_type: text("x11"),
        display: text(":0"),
        has_dri_dir: false,
        xrandr: said("HDMI-1 disconnected\nDP-3 disconnected\n"),
        ..bare()
    };
    let info = display::inspect_backends(&probe);
    assert_eq!(info.selected_backend, "x11-dummy");
    assert_eq!(info.host.session_type, "x11");
    assert!(info.host.display_env_present);
    assert!(!info.backends[0].usable_now);
    assert!(!info.backends[0].safe_for_daily_desktop);
    assert_eq!(
        info.backends[0].note,
        "Powerful backend, but current X11 sessions may experience disruptive hotplug behavior"
    );
    assert!(info.backends[2].usable_now);
    assert_eq!(info.backends[2].estimated_max_virtual_displays, Some(2));
    assert_eq!(info.backends[2].note, "Session-level X11 runtime outputs available: HDMI-1, DP-3");
}

#[test]
fn wayland_hosts_are_inspected() {
    let probe = HostProbe {
        session_type: text("wayland"),
        wayland: wayland_wlr::detect_wayland_environment(wayland("u 4", true)),
        ..bare()
    };
    let info = display::inspect_backends(&probe);
    assert_eq!(info.selected_backend, "wayland-wlr");
    assert!(info.backends[1].usable_now);
    assert_eq!(
        info.backends[1].note,
        "Wayland compositor socket detected at /run/user/1000/wayland-0; ScreenCast portal advertises VIRTUAL monitor support; wlroots output-management advertised=false ; capture stack: ashpd + zbus virtual-monitor portal session support is compiled in, and PNG frame extraction is bridged through GStreamer pipewiresrc"
    );
    let probe = HostProbe {
        wayland: wayland_wlr::detect_wayland_environment(wayland("u 1", true)),
        ..probe
    };
    assert_eq!(
        display::inspect_backends(&probe).backends[1].note,
        "Wayland compositor socket detected at /run/user/1000/wayland-0, but ScreenCast portal VIRTUAL support is unavailable; wlroots output-management advertised=false ; current Wayland compositor globals: wl_seat, wl_output"
    );
}

#[test]
fn starts_are_begun_or_refused() {
    assert_eq!(DisplayBackend::start(config(), &bare()).unwrap(), BackendChoice::Evdi);
    let none = DisplayConfig { width: 0, height: 0, refresh_hz: 0 };
    assert!(matches!(
        DisplayBackend::start(none, &bare()),
        Err(DisplayError::Evdi(EvdiError::InvalidConfig(_)))
    ));
    let probe = HostProbe { session_type: text("x11"), ..bare() };
    assert!(matches!(
        DisplayBackend::start(config(), &probe),
        Err(DisplayError::X11Dummy(X11DummyError::MissingDisplay))
    ));
    let probe = HostProbe { display: text(":0"), ..bare() };
    assert_eq!(DisplayBackend::start(none, &probe).unwrap(), BackendChoice::X11Dummy);
    let named = HostProbe { wanted_backend: text("wayland-wlr"), ..bare() };
    let err = DisplayBackend::start(config(), &named).unwrap_err();
    assert!(matches!(err, DisplayError::WaylandWlr(WaylandWlrError::MissingWaylandDisplay)));
    assert_eq!(
        err.message(),
        "WAYLAND_DISPLAY is not set; wlr-virtual-output backend cannot start"
    );
    let ready = HostProbe {
        wayland: wayland_wlr::detect_wayland_environment(wayland("u 4", true)),
        ..named
    };
    assert_eq!(DisplayBackend::start(config(), &ready).unwrap(), BackendChoice::WaylandWlr);
    let without = HostProbe {
        wayland: wayland_wlr::detect_wayland_environment(wayland("u 4", false)),
        ..ready
    };
    assert!(matches!(
        DisplayBackend::start(config(), &without),
        Err(DisplayError::WaylandWlr(WaylandWlrError::MissingPipeWireFeature))
    ));
}

#[test]
fn display_errors_speak_for_their_backend() {
    assert_eq!(DisplayError::Evdi(EvdiError::NoDrmDevices).message(), EvdiError::NoDrmDevices.message());
    assert_eq!(
        DisplayError::X11Dummy(X11DummyError::NoDummyOutput).message(),
        X11DummyError::NoDummyOutput.message()
    );
}

#[test]
fn every_backend_captures_its_way() {
    let mode = NegotiatedMode {
        width: 2,
        height: 2,
        refresh_rate: 60,
        bits_per_pixel: 32,
        pixel_format: evdi::XRGB8888,
    };
    let backend = DisplayBackend::Evdi(EvdiBackend::start(3, mode).unwrap());
    assert!(matches!(backend.capture_frames_to_png(&capture(0)), Ok(CaptureJob::Nothing)));
    assert!(matches!(
        backend.capture_frames_to_png(&capture(2)),
        Ok(CaptureJob::EvdiFrames(CaptureRun { wanted: 2, taken: 0, gives_up_on_black: true, .. }))
    ));
    assert!(matches!(backend.capture_readiness(), CaptureReadiness::Ready));
    assert!(backend.external_monitor_summary().is_none());
    let odd = NegotiatedMode { pixel_format: 9, ..mode };
    let backend = DisplayBackend::Evdi(EvdiBackend::start(3, odd).unwrap());
    assert!(matches!(
        backend.capture_frames_to_png(&capture(2)),
        Err(DisplayError::Evdi(EvdiError::UnsupportedPixelFormat(9)))
    ));
    let backend = DisplayBackend::X11Dummy(X11DummyBackend {
        active_output: "HDMI-1".to_string(),
        width: 1,
        height: 1,
        x: 0,
        y: 0,
    });
    assert!(matches!(
        backend.capture_frames_to_png(&capture(2)),
        Ok(CaptureJob::X11Frames(CaptureRun { wanted: 2, gives_up_on_black: false, .. }))
    ));
    let backend =
        DisplayBackend::WaylandWlr(WaylandWlrBackend { config: config(), streams: None });
    assert!(matches!(
        backend.capture_frames_to_png(&capture(2)),
        Err(DisplayError::WaylandWlr(WaylandWlrError::CaptureNotImplemented))
    ));
    assert!(matches!(backend.capture_readiness(), CaptureReadiness::Pending(_)));
    assert!(backend.external_monitor_summary().is_some());
}

#[test]
fn the_wayland_session_is_looked_at_where_it_matters() {
    for (wanted, session, needed) in [
        (None, None, false),
        (None, text("x11"), false),
        (None, text("Wayland"), true),
        (text("auto"), text("wayland"), true),
        (text("evdi"), text("wayland"), false),
        (text(" x11-dummy "), text("wayland"), false),
        (text("wayland-wlr"), text("x11"), true),
    ] {
        let probe = HostProbe { wanted_backend: wanted, session_type: session, ..bare() };
        assert_eq!(probe.needs_wayland(), needed, "{probe:?}");
        if !needed {
            assert_ne!(display::choose_backend(&probe), BackendChoice::WaylandWlr);
        }
    }
}
