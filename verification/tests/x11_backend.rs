use desplio::config::CaptureConfig;
use desplio::display::x11_activation::Activation;
use desplio::display::x11_activation::ActivationStep;
use desplio::display::x11_dummy;
use desplio::display::x11_dummy::X11DummyBackend;
use desplio::display::x11_dummy::X11DummyError;
use desplio::display::x11_dummy::X11StartStep;
use desplio::display::x11_layout;
use desplio::display::x11_layout::ActivationPlan;
use desplio::display::x11_layout::ShutdownStep;
use desplio::display::x11_layout::X11ActivationOutcome;
use desplio::display::x11_layout::X11OutputState;
use desplio::display::x11_layout::X11RestorePlan;
use desplio::display::x11_mode;
use desplio::display::x11_mode::ModePlan;
use desplio::display::DisplayConfig;
use desplio::process::CommandOutput;

const QUERY: &str = "Screen 0: minimum 320 x 200, current 3200 x 1080, maximum 16384 x 16384
eDP-1 connected primary 1920x1080+0+0 (normal left inverted right x axis y axis) 344mm x 194mm
   1920x1080     60.02*+
HDMI-1 disconnected (normal left inverted right x axis y axis)
DP-2 connected 1280x800+1920+40 (normal left inverted right x axis y axis) 0mm x 0mm
DVI-I-1-1 disconnected (normal left inverted right x axis y axis)
VGA-1 disconnected 0x0+0+0
odd disconnected
";

const CVT: &str = "# 1280x800 59.81 Hz (CVT 1.02MA) hsync: 49.70 kHz; pclk: 83.50 MHz
Modeline \"1280x800_60.00\"   83.50  1280 1352 1480 1680  800 803 809 831 -hsync +vsync
";

const PROVIDERS: &str = "Providers: number : 2
Provider 0: id: 0x48 cap: 0xf, Source Output, Sink Output, Source Offload, Sink Offload crtcs: 3 outputs: 5 associated providers: 0 name:modesetting
Provider 1: id: 0x49 cap: 0x2, Sink Output crtcs: 1 outputs: 1 associated providers: 0 name:modesetting
";

fn said(stdout: &str) -> CommandOutput {
    CommandOutput { success: true, stdout: stdout.as_bytes().to_vec(), stderr: Vec::new() }
}

fn failed(stderr: &str) -> CommandOutput {
    CommandOutput { success: false, stdout: Vec::new(), stderr: stderr.as_bytes().to_vec() }
}

fn ok(stdout: &str) -> Result<CommandOutput, String> {
    Ok(said(stdout))
}

fn config() -> DisplayConfig {
    DisplayConfig { width: 1280, height: 800, refresh_hz: 60 }
}

#[test]
fn x11_errors_in_words() {
    let cases = [
        (X11DummyError::MissingDisplay, "DISPLAY is not set; X11 dummy backend cannot start"),
        (
            X11DummyError::NoDummyOutput,
            "x11 runtime backend could not find a usable disconnected output (VIRTUAL, DUMMY, HDMI, DP, or VGA) to activate in this session",
        ),
        (X11DummyError::QueryFailed("q".to_string()), "xrandr query failed: q"),
        (
            X11DummyError::ActivationFailed("a".to_string()),
            "failed to create or activate the X11 dummy output: a",
        ),
        (X11DummyError::CaptureFailed("c".to_string()), "failed to capture X11 dummy output: c"),
        (
            X11DummyError::CaptureTimedOut,
            "timed out waiting for X11 dummy output to produce a non-black frame",
        ),
        (X11DummyError::FrameWriteFailed("w".to_string()), "failed to write PNG frame: w"),
    ];
    for (err, words) in cases {
        assert_eq!(err.message(), words);
    }
}

#[test]
fn outputs_that_can_be_switched_on() {
    assert_eq!(x11_dummy::runtime_output_candidates(&ok(QUERY)).unwrap(), ["HDMI-1", "VGA-1"]);
    let err = x11_dummy::runtime_output_candidates(&Ok(failed(" no display \n"))).unwrap_err();
    assert_eq!(err.message(), "xrandr query failed: no display");
    let err = x11_dummy::runtime_output_candidates(&Err("gone".to_string())).unwrap_err();
    assert_eq!(err.message(), "xrandr query failed: gone");
    assert_eq!(
        x11_dummy::candidates_in("default disconnected\nVIRTUAL-1 disconnected\nDUMMY-0 disconnected\n DP-1 disconnected"),
        ["default", "VIRTUAL-1", "DUMMY-0"]
    );
    assert_eq!(
        x11_dummy::find_runtime_output_candidate(&ok(QUERY)),
        Some("HDMI-1".to_string())
    );
    assert_eq!(x11_dummy::find_runtime_output_candidate(&ok("")), None);
}

#[test]
fn the_primary_output_and_positions() {
    assert_eq!(x11_dummy::find_primary_output(QUERY), Some("eDP-1".to_string()));
    assert_eq!(x11_dummy::find_primary_output("DP-2 connected 1x1+0+0"), None);
    assert_eq!(x11_dummy::find_output_position(QUERY, "DP-2"), Some((1920, 40)));
    assert_eq!(x11_dummy::find_output_position(QUERY, "HDMI-1"), None);
    assert_eq!(x11_dummy::find_output_position("A 1x1+x+0\nAB 2x2+3+4", "A"), Some((3, 4)));
    assert_eq!(x11_dummy::find_output_position("A 1x1+4294967296+0", "A"), None);
}

#[test]
fn the_x11_backend_starts() {
    assert!(matches!(
        X11StartStep::begin(Some("")),
        X11StartStep::Failed(X11DummyError::MissingDisplay)
    ));
    assert!(matches!(X11StartStep::begin(Some(":0")), X11StartStep::Query));
    let primary = match X11StartStep::after_query(&ok(QUERY)) {
        X11StartStep::Requery { primary } => primary,
        other => panic!("{other:?}"),
    };
    assert_eq!(primary, "eDP-1");
    let (primary, dummy) = match X11StartStep::after_requery(config(), primary, &ok(QUERY)) {
        X11StartStep::AskMode { primary, dummy, args } => {
            assert_eq!(args, ["1280", "800", "60"]);
            (primary, dummy)
        }
        other => panic!("{other:?}"),
    };
    assert_eq!(dummy, "HDMI-1");
    let (primary, dummy, mode) =
        match X11StartStep::after_mode(config(), primary, dummy, &ok(CVT)) {
            X11StartStep::DefineMode { primary, dummy, mode, newmode, addmode } => {
                assert_eq!(newmode[..3], ["--newmode", "desplio-1280x800-60", "83.50"]);
                assert_eq!(newmode.len(), 13);
                assert_eq!(addmode, ["--addmode", "HDMI-1", "desplio-1280x800-60"]);
                (primary, dummy, mode)
            }
            other => panic!("{other:?}"),
        };
    let dummy = match X11StartStep::after_define(primary, dummy, mode) {
        X11StartStep::Activate { dummy, args } => {
            assert_eq!(
                args,
                [
                    "--output", "HDMI-1", "--mode", "desplio-1280x800-60", "--right-of", "eDP-1",
                    "--auto"
                ]
            );
            dummy
        }
        other => panic!("{other:?}"),
    };
    let dummy = match X11StartStep::after_activate(dummy, &ok("")) {
        X11StartStep::ReadBack { dummy } => dummy,
        other => panic!("{other:?}"),
    };
    let now = ok("HDMI-1 connected 1280x800+1920+7 (normal)");
    match X11StartStep::after_read_back(config(), dummy, &now) {
        X11StartStep::Started(backend) => {
            assert_eq!(backend.active_output, "HDMI-1");
            assert_eq!((backend.x, backend.y), (1920, 7));
            assert_eq!((backend.width, backend.height), (1280, 800));
        }
        other => panic!("{other:?}"),
    }
}

#[test]
fn the_x11_backend_does_not_start() {
    assert!(matches!(
        X11StartStep::after_query(&Ok(failed("x"))),
        X11StartStep::Failed(X11DummyError::QueryFailed(why)) if why == "x"
    ));
    assert!(matches!(
        X11StartStep::after_query(&ok("")),
        X11StartStep::Failed(X11DummyError::NoDummyOutput)
    ));
    assert!(matches!(
        X11StartStep::after_requery(config(), "p".to_string(), &Err("x".to_string())),
        X11StartStep::Failed(X11DummyError::NoDummyOutput)
    ));
    let ask = |cvt: Result<CommandOutput, String>| {
        X11StartStep::after_mode(config(), "p".to_string(), "d".to_string(), &cvt)
    };
    assert!(matches!(
        ask(Err("no cvt".to_string())),
        X11StartStep::Failed(X11DummyError::ActivationFailed(why)) if why == "no cvt"
    ));
    assert!(matches!(
        ask(ok("nothing")),
        X11StartStep::Failed(X11DummyError::ActivationFailed(why))
            if why == "cvt did not return a usable modeline"
    ));
    assert!(matches!(
        ask(Ok(failed("x"))),
        X11StartStep::Activate { args, .. } if args[3] == "1280x800"
    ));
    assert!(matches!(
        X11StartStep::after_activate("d".to_string(), &Ok(failed("bad mode"))),
        X11StartStep::Failed(X11DummyError::ActivationFailed(why)) if why == "bad mode"
    ));
    assert!(matches!(
        X11StartStep::after_read_back(config(), "d".to_string(), &ok("d connected")),
        X11StartStep::Failed(X11DummyError::ActivationFailed(why))
            if why == "dummy output was activated but its geometry could not be read back"
    ));
    assert!(matches!(
        X11StartStep::after_read_back(config(), "d".to_string(), &Err("e".to_string())),
        X11StartStep::Failed(X11DummyError::QueryFailed(why)) if why == "e"
    ));
}

#[test]
fn x11_frames_are_grabbed() {
    let args = x11_dummy::capture_output_region_args(Some(":1"), "out/f.png", 1280, 800, 1920, 40);
    assert_eq!(
        args,
        [
            "-hide_banner", "-loglevel", "error", "-y", "-f", "x11grab", "-video_size", "1280x800",
            "-i", ":1+1920,40", "-frames:v", "1", "-update", "1", "out/f.png"
        ]
    );
    let args = x11_dummy::capture_output_region_args(None, "f", 1, 2, 3, 4);
    assert_eq!(args[9], ":0+3,4");
    assert!(x11_dummy::accept_capture(&ok("")).is_ok());
    assert_eq!(
        x11_dummy::accept_capture(&Ok(failed("x\n"))).unwrap_err().message(),
        "failed to capture X11 dummy output: x"
    );
    let backend = X11DummyBackend {
        active_output: "HDMI-1".to_string(),
        width: 1280,
        height: 800,
        x: 0,
        y: 0,
    };
    let capture = |frames| CaptureConfig {
        frames,
        max_wait_secs: 1,
        output_dir: "out".to_string(),
        request_interval_ms: 1,
    };
    assert!(backend.capture_frames_to_png(&capture(0)).is_none());
    let mut run = backend.capture_frames_to_png(&capture(4)).unwrap();
    assert!(matches!(x11_dummy::end_capture(&run), Err(X11DummyError::CaptureTimedOut)));
    run.record(false);
    assert!(x11_dummy::end_capture(&run).is_ok());
}

#[test]
fn the_background_shows_the_wallpaper() {
    let uri = x11_dummy::current_cinnamon_wallpaper_uri(&ok("'file:///a b.jpg'\n")).unwrap();
    assert_eq!(uri, "file:///a b.jpg");
    assert_eq!(
        x11_dummy::background_helper_args("s.py", 1, 2, 3, 4, uri.as_str()),
        ["s.py", "1", "2", "3", "4", "file:///a b.jpg"]
    );
    assert_eq!(
        x11_dummy::current_cinnamon_wallpaper_uri(&Ok(failed("No such schema"))).unwrap_err().message(),
        "failed to create or activate the X11 dummy output: No such schema"
    );
}

#[test]
fn modes_are_computed_by_cvt() {
    assert_eq!(x11_mode::size_text(1280, 800), "1280x800");
    assert_eq!(x11_mode::mode_name_text(1280, 800), "desplio-1280x800-60");
    match x11_mode::plan_mode(&said(CVT), 1280, 800) {
        ModePlan::Define(parts) => assert_eq!(
            parts,
            [
                "desplio-1280x800-60", "83.50", "1280", "1352", "1480", "1680", "800", "803",
                "809", "831", "-hsync", "+vsync"
            ]
        ),
        other => panic!("{other:?}"),
    }
    assert!(matches!(x11_mode::plan_mode(&failed(""), 1, 2), ModePlan::Plain(mode) if mode == "1x2"));
    assert!(matches!(x11_mode::plan_mode(&said(""), 1, 2), ModePlan::NoModeline));
}

#[test]
fn outputs_of_evdi_are_found() {
    match x11_layout::plan_activation(&said(QUERY)) {
        ActivationPlan::Activate { anchor, candidate } => {
            assert_eq!(anchor, "eDP-1");
            assert_eq!(candidate, "HDMI-1");
        }
        other => panic!("{other:?}"),
    }
    assert_eq!(
        x11_layout::activation_targets("DP-1 connected 1x1+0+0\nDVI-1 disconnected\n"),
        Some(("DP-1".to_string(), "DVI-1".to_string()))
    );
    assert!(matches!(
        x11_layout::plan_activation(&said("DP-1 connected 1x1+0+0\n")),
        ActivationPlan::Stop(X11ActivationOutcome::NoCandidate)
    ));
}

#[test]
fn providers_are_linked() {
    assert_eq!(
        x11_layout::provider_id_from_line("Provider 0: id: 0x48 cap: 0xf"),
        Some("0x48".to_string())
    );
    assert_eq!(x11_layout::provider_id_from_line("no marker"), None);
    assert_eq!(
        x11_layout::link_plan(&said(PROVIDERS)),
        Some(("0x49".to_string(), "0x48".to_string()))
    );
    assert_eq!(x11_layout::link_plan(&failed(PROVIDERS)), None);
}

#[test]
fn an_evdi_output_is_activated() {
    let request =
        Activation { width: 1280, height: 800, placement: Some("above".to_string()) };
    assert!(matches!(
        request.begin(None),
        ActivationStep::Done(X11ActivationOutcome::NoCandidate)
    ));
    assert!(matches!(request.begin(Some(":0")), ActivationStep::ListProviders));
    assert!(matches!(
        request.after_providers(&ok(PROVIDERS)),
        ActivationStep::LinkProviders(args)
            if args == ["--setprovideroutputsource", "0x49", "0x48"]
    ));
    assert!(matches!(request.after_providers(&ok("")), ActivationStep::Query));
    assert!(matches!(request.after_link(&Ok(failed("x"))), ActivationStep::Query));
    let (anchor, candidate) = match request.after_query(&ok(QUERY)) {
        ActivationStep::AskMode { anchor, candidate, args } => {
            assert_eq!(args, ["1280", "800", "60"]);
            (anchor, candidate)
        }
        other => panic!("{other:?}"),
    };
    let (anchor, candidate, mode) = match request.after_mode(anchor, candidate, &ok(CVT)) {
        ActivationStep::DefineMode { anchor, candidate, mode, args } => {
            assert_eq!(args[1], "desplio-1280x800-60");
            (anchor, candidate, mode)
        }
        other => panic!("{other:?}"),
    };
    let (anchor, candidate, mode) =
        match request.after_define(anchor, candidate, mode, &Ok(failed("x"))) {
            ActivationStep::AllowMode { anchor, candidate, mode, args } => {
                assert_eq!(args, ["--addmode", "HDMI-1", "desplio-1280x800-60"]);
                (anchor, candidate, mode)
            }
            other => panic!("{other:?}"),
        };
    let candidate = match request.after_allow(
        anchor,
        candidate,
        mode,
        &Ok(failed("mode already exists")),
    ) {
        ActivationStep::Activate { candidate, args } => {
            assert_eq!(
                args,
                [
                    "--output", "HDMI-1", "--mode", "desplio-1280x800-60", "--above", "eDP-1",
                    "--auto"
                ]
            );
            candidate
        }
        other => panic!("{other:?}"),
    };
    assert!(matches!(
        request.after_activate(candidate, &ok("")),
        ActivationStep::Done(X11ActivationOutcome::Activated { output }) if output == "HDMI-1"
    ));
}

#[test]
fn an_evdi_output_is_not_activated() {
    let request = Activation { width: 1280, height: 800, placement: None };
    let gone = || Err("gone".to_string());
    let text = |s: &str| s.to_string();
    assert!(matches!(request.after_providers(&gone()), ActivationStep::Broken(why) if why == "gone"));
    assert!(matches!(request.after_link(&gone()), ActivationStep::Broken(_)));
    assert!(matches!(request.after_query(&gone()), ActivationStep::Broken(_)));
    assert!(matches!(
        request.after_query(&Ok(failed(" bad "))),
        ActivationStep::Done(X11ActivationOutcome::Failed(why)) if why == "bad"
    ));
    assert!(matches!(
        request.after_query(&ok("")),
        ActivationStep::Done(X11ActivationOutcome::NoCandidate)
    ));
    assert!(matches!(
        request.after_mode(text("a"), text("c"), &ok("")),
        ActivationStep::Broken(why) if why == "cvt did not return a Modeline"
    ));
    assert!(matches!(
        request.after_mode(text("a"), text("c"), &Ok(failed(""))),
        ActivationStep::Activate { args, .. } if args[3] == "1280x800" && args[4] == "--right-of"
    ));
    assert!(matches!(
        request.after_allow(text("a"), text("c"), text("m"), &Ok(failed("no"))),
        ActivationStep::Broken(why) if why == "no"
    ));
    assert!(matches!(
        request.after_allow(text("a"), text("c"), text("m"), &Ok(failed("cannot find mode m"))),
        ActivationStep::Activate { .. }
    ));
    assert!(matches!(
        request.after_activate(text("c"), &Ok(failed("no"))),
        ActivationStep::Done(X11ActivationOutcome::Failed(why)) if why == "no"
    ));
}

#[test]
fn new_outputs_are_placed() {
    for (placement, side) in [
        (Some("left-of"), "--left-of"),
        (Some("above"), "--above"),
        (Some("below"), "--below"),
        (Some("right-of"), "--right-of"),
        (Some("elsewhere"), "--right-of"),
        (None, "--right-of"),
    ] {
        assert_eq!(x11_layout::x11_activation_args(placement, "P"), [side, "P", "--auto"]);
    }
}

#[test]
fn layouts_are_remembered_and_restored() {
    let layout = x11_layout::snapshot_x11_layout(Some(":0"), &said(QUERY)).unwrap();
    assert_eq!(layout.len(), 2);
    assert_eq!(layout[0].name, "eDP-1");
    assert_eq!(layout[0].mode, Some("1920x1080".to_string()));
    assert_eq!(layout[0].position, Some("0x0".to_string()));
    assert!(layout[0].primary);
    assert_eq!(layout[1].name, "DP-2");
    assert_eq!(layout[1].position, Some("1920x40".to_string()));
    assert!(!layout[1].primary);
    assert!(x11_layout::snapshot_x11_layout(None, &said(QUERY)).is_none());
    assert!(x11_layout::snapshot_x11_layout(Some(":0"), &failed("")).is_none());
    let size = x11_layout::current_x11_framebuffer_size(Some(":0"), &said(QUERY));
    assert_eq!(size, Some("3200x1080".to_string()));
    assert_eq!(x11_layout::current_x11_framebuffer_size(Some(":0"), &said("Screen 0")), None);
    let plan = x11_layout::restore_plan(Some(layout), size).unwrap();
    let plan = x11_layout::note_activation(
        Some(plan),
        &X11ActivationOutcome::Activated { output: "HDMI-1".to_string() },
    )
    .unwrap();
    assert_eq!(plan.activated_output, Some("HDMI-1".to_string()));
    let commands = x11_layout::restore_x11_layout(Some(":0"), &plan);
    assert_eq!(
        commands,
        vec![
            vec!["--output", "eDP-1", "--mode", "1920x1080", "--pos", "0x0", "--primary"],
            vec!["--output", "DP-2", "--mode", "1280x800", "--pos", "1920x40"],
            vec!["--fb", "3200x1080"],
        ]
    );
    assert!(x11_layout::restore_x11_layout(Some(""), &plan).is_empty());
}

#[test]
fn geometries_are_read() {
    assert_eq!(
        x11_layout::parse_geometry_token("1280x800+1920+40"),
        Some(("1280x800".to_string(), "1920x40".to_string()))
    );
    assert_eq!(x11_layout::parse_geometry_token("1280x800"), None);
    assert_eq!(x11_layout::parse_geometry_token("1280x800+1"), None);
}

#[test]
fn shutdowns_put_the_desktop_back() {
    assert_eq!(x11_layout::shutdown_steps(false, &None), [ShutdownStep::Close]);
    let mut plan = X11RestorePlan {
        outputs: vec![X11OutputState {
            name: "A".to_string(),
            mode: None,
            position: None,
            primary: false,
        }],
        activated_output: None,
        framebuffer_size: None,
    };
    assert_eq!(
        x11_layout::shutdown_steps(true, &Some(plan.clone())),
        [ShutdownStep::Disconnect, ShutdownStep::Close, ShutdownStep::RestoreLayout]
    );
    plan.activated_output = Some("B".to_string());
    assert_eq!(
        x11_layout::shutdown_steps(true, &Some(plan)),
        [
            ShutdownStep::DisableOutput,
            ShutdownStep::Disconnect,
            ShutdownStep::Close,
            ShutdownStep::RestoreLayout
        ]
    );
    assert_eq!(x11_layout::output_off_args("B"), ["--output", "B", "--off"]);
    assert!(x11_layout::accept_success(&said("")).is_ok());
    assert_eq!(x11_layout::accept_success(&failed(" x ")), Err("x".to_string()));
}
