use desplio::config::CaptureConfig;
use desplio::display::evdi;
use desplio::display::evdi::CardStatus;
use desplio::display::evdi::EventState;
use desplio::display::evdi::EvdiBackend;
use desplio::display::evdi::EvdiError;
use desplio::display::evdi::HandleStep;
use desplio::display::evdi::NegotiatedMode;
use desplio::display::evdi::StartStep;
use desplio::display::DisplayConfig;

fn display(width: u32, height: u32, refresh_hz: u32) -> DisplayConfig {
    DisplayConfig { width, height, refresh_hz }
}

fn mode(width: i32, height: i32, bits_per_pixel: i32) -> NegotiatedMode {
    NegotiatedMode { width, height, refresh_rate: 60, bits_per_pixel, pixel_format: evdi::XRGB8888 }
}

fn capture(frames: usize) -> CaptureConfig {
    CaptureConfig {
        frames,
        max_wait_secs: 20,
        output_dir: "out".to_string(),
        request_interval_ms: 1000,
    }
}

fn names(list: &[&str]) -> Vec<Option<String>> {
    list.iter().map(|name| Some(name.to_string())).collect()
}

#[test]
fn evdi_errors_in_words() {
    let cases = [
        (EvdiError::InvalidConfig("x".to_string()), "invalid display configuration: x"),
        (EvdiError::NoDrmDevices, "no DRM card nodes found under /dev/dri"),
        (
            EvdiError::OpenFailed,
            "failed to open an evdi device; module not loaded, no node available, or access denied",
        ),
        (
            EvdiError::ZeroInitialDeviceCount,
            "evdi module is loaded with initial_device_count=0; reload it with initial_device_count=1 so /dev/dri/card0 can be created",
        ),
        (
            EvdiError::IncompatibleLib {
                library_major: -1,
                library_minor: 2,
                expected_major: 1,
                expected_minor: 9,
            },
            "evdi userspace library -1.2 is incompatible with expected module ABI 1.9+",
        ),
        (EvdiError::ModeWaitTimedOut, "timed out waiting for compositor mode negotiation"),
        (EvdiError::PollFailed("e".to_string()), "poll on evdi event fd failed: e"),
        (EvdiError::InvalidEventFd, "event fd was invalid"),
        (EvdiError::InvalidCardName("cardx".to_string()), "failed to derive card number from cardx"),
        (
            EvdiError::InvalidNegotiatedMode("m".to_string()),
            "mode negotiated by compositor was invalid: m",
        ),
        (
            EvdiError::UnsupportedMode { width: 1, height: 2, refresh_hz: 3 },
            "M0 currently supports only 1280x800@60 for the validated EDID path; requested 1x2@3",
        ),
        (
            EvdiError::FrameCaptureAllBlack,
            "evdi monitor appeared, but the compositor only produced black frames during initial verification",
        ),
        (EvdiError::FrameCaptureTimedOut, "timed out waiting for evdi frame updates"),
        (EvdiError::FrameWriteFailed("w".to_string()), "failed to write frame image: w"),
        (EvdiError::UnsupportedPixelFormat(7), "unsupported pixel format for PNG export: 7"),
    ];
    for (err, words) in cases {
        assert_eq!(err.message(), words);
    }
}

#[test]
fn displays_need_a_size_and_a_rate() {
    assert!(evdi::validate_config(display(1280, 800, 60)).is_ok());
    for bad in [display(0, 800, 60), display(1280, 0, 60)] {
        let err = evdi::validate_config(bad).unwrap_err();
        assert_eq!(err.message(), "invalid display configuration: width and height must be greater than zero");
    }
    let err = evdi::validate_config(display(1280, 800, 0)).unwrap_err();
    assert_eq!(err.message(), "invalid display configuration: refresh_hz must be greater than zero");
}

#[test]
fn only_one_display_has_an_edid() {
    assert_eq!(evdi::require_edid_mode(display(1280, 800, 60)).unwrap(), 1_024_000);
    let err = evdi::require_edid_mode(display(1920, 1080, 60)).unwrap_err();
    assert!(matches!(err, EvdiError::UnsupportedMode { width: 1920, height: 1080, refresh_hz: 60 }));
}

#[test]
fn black_framebuffers_are_told() {
    let mut frame = vec![0u8; 24];
    frame[3] = 9;
    frame[8] = 9;
    assert!(evdi::framebuffer_is_all_black(&frame, 2, 2, 12));
    frame[12] = 1;
    assert!(!evdi::framebuffer_is_all_black(&frame, 2, 2, 12));
    // The first row decides before the missing second one is looked at.
    assert!(!evdi::framebuffer_is_all_black(&[0, 1, 0, 0], 1, 9, 4));
}

#[test]
fn cards_are_found_and_numbered() {
    assert!(evdi::ensure_drm_devices_exist(Some(&names(&["by-path", "card1"]))).is_ok());
    assert!(matches!(
        evdi::ensure_drm_devices_exist(Some(&names(&["renderD128"]))),
        Err(EvdiError::NoDrmDevices)
    ));
    assert!(matches!(evdi::ensure_drm_devices_exist(None), Err(EvdiError::NoDrmDevices)));
    let listed = names(&["card10", "renderD128", "card2", "by-path", "card0"]);
    assert_eq!(evdi::available_card_numbers(Some(&listed)).unwrap(), vec![0, 2, 10]);
    assert!(matches!(
        evdi::available_card_numbers(Some(&names(&["card0", "card0-HDMI"]))),
        Err(EvdiError::InvalidCardName(name)) if name == "card0-HDMI"
    ));
    let mut broken = names(&["card0"]);
    broken.push(None);
    assert!(matches!(evdi::available_card_numbers(Some(&broken)), Err(EvdiError::NoDrmDevices)));
    assert!(matches!(evdi::available_card_numbers(None), Err(EvdiError::NoDrmDevices)));
}

#[test]
fn the_module_may_make_no_device() {
    assert!(evdi::evdi_initial_device_count_is_zero(Some("0\n")));
    assert!(!evdi::evdi_initial_device_count_is_zero(Some("1\n")));
    assert!(!evdi::evdi_initial_device_count_is_zero(None));
}

#[test]
fn libraries_of_the_expected_version_are_taken() {
    assert!(evdi::check_library_version(1, 9, 1, 9).is_ok());
    assert!(evdi::check_library_version(1, 14, 1, 9).is_ok());
    assert!(evdi::check_library_version(1, 8, 1, 9).is_err());
    assert!(evdi::check_library_version(2, 9, 1, 9).is_err());
    assert!(evdi::check_library_version(-1, 0, u32::MAX, 0).is_ok());
}

#[test]
fn the_search_opens_the_first_usable_card() {
    assert!(matches!(
        HandleStep::begin(true),
        HandleStep::Failed(EvdiError::ZeroInitialDeviceCount)
    ));
    assert!(matches!(HandleStep::begin(false), HandleStep::OpenAttached));
    assert!(matches!(HandleStep::after_attached(true), HandleStep::Opened));
    assert!(matches!(HandleStep::after_attached(false), HandleStep::AddDevice));
    assert!(matches!(HandleStep::after_added(3), HandleStep::OpenAdded(3)));
    assert!(matches!(HandleStep::after_added(-1), HandleStep::ListCards));
    assert!(matches!(HandleStep::after_open_added(true), HandleStep::Opened));
    assert!(matches!(HandleStep::after_open_added(false), HandleStep::ListCards));
    let mut step = HandleStep::after_listed(Ok(vec![0, 1, 2, 3]));
    let mut checked = Vec::new();
    let mut opened = Vec::new();
    loop {
        step = match step {
            HandleStep::Check { cards, index } => {
                let card = cards[index];
                checked.push(card);
                let status = match card {
                    0 => CardStatus::NotPresent,
                    1 => CardStatus::Unrecognized,
                    _ => CardStatus::Available,
                };
                HandleStep::after_checked(cards, index, status)
            }
            HandleStep::Open { cards, index } => {
                opened.push(cards[index]);
                let opens = cards[index] == 3;
                HandleStep::after_opened(cards, index, opens)
            }
            other => {
                step = other;
                break;
            }
        };
    }
    assert!(matches!(step, HandleStep::Opened));
    assert_eq!(checked, vec![0, 1, 2, 3]);
    assert_eq!(opened, vec![2, 3]);
    assert!(matches!(
        HandleStep::after_listed(Ok(vec![])),
        HandleStep::Failed(EvdiError::OpenFailed)
    ));
    assert!(matches!(
        HandleStep::after_listed(Err(EvdiError::NoDrmDevices)),
        HandleStep::Failed(EvdiError::NoDrmDevices)
    ));
}

#[test]
fn events_are_noted() {
    let mut state = EventState::default();
    assert!(matches!(evdi::negotiated_mode(&state), Err(EvdiError::ModeWaitTimedOut)));
    state.dpms(2);
    assert_eq!(state.last_dpms, Some(2));
    state.mode_changed(mode(1280, 800, 32));
    assert_eq!(evdi::negotiated_mode(&state).unwrap().width, 1280);
    assert_eq!(state.last_dpms, Some(2));
    assert!(evdi::keeps_waiting_for_mode(29_999_999_999));
    assert!(!evdi::keeps_waiting_for_mode(30_000_000_000));
}

#[test]
fn polls_are_judged() {
    assert_eq!(evdi::poll_timeout(250), 250);
    assert_eq!(evdi::poll_timeout(1 << 40), i32::MAX);
    assert!(evdi::poll_outcome(1, 1, 1, String::new()).unwrap());
    assert!(!evdi::poll_outcome(1, 8, 1, String::new()).unwrap());
    assert!(!evdi::poll_outcome(0, 1, 1, String::new()).unwrap());
    let err = evdi::poll_outcome(-1, 0, 1, "bad".to_string()).unwrap_err();
    assert_eq!(err.message(), "poll on evdi event fd failed: bad");
    assert_eq!(evdi::event_descriptor(3).unwrap(), 3);
    assert!(matches!(evdi::event_descriptor(-1), Err(EvdiError::InvalidEventFd)));
}

#[test]
fn rows_take_four_bytes_for_each_pixel() {
    assert_eq!(evdi::compute_stride(mode(1280, 800, 32)).unwrap(), 5120);
    assert_eq!(evdi::compute_stride(mode(1280, 800, 24)).unwrap(), 5120);
    assert_eq!(evdi::compute_stride(mode(i32::MAX, 1, 32)).unwrap(), i32::MAX);
    assert_eq!(
        evdi::compute_stride(mode(0, 800, 32)).unwrap_err().message(),
        "mode negotiated by compositor was invalid: width and height must be positive"
    );
    assert_eq!(
        evdi::compute_stride(mode(1280, 800, 16)).unwrap_err().message(),
        "mode negotiated by compositor was invalid: unsupported bits_per_pixel 16"
    );
    assert_eq!(evdi::framebuffer_len(5120, 800), Some(4_096_000));
}

#[test]
fn the_backend_starts_step_by_step() {
    assert!(matches!(
        StartStep::begin(display(0, 1, 1)),
        StartStep::Failed(EvdiError::InvalidConfig(_))
    ));
    let config = display(1280, 800, 60);
    assert!(matches!(StartStep::begin(config), StartStep::ListDevices));
    assert!(matches!(StartStep::after_devices(None), StartStep::Failed(EvdiError::NoDrmDevices)));
    assert!(matches!(StartStep::after_devices(Some(&names(&["card0"]))), StartStep::AskVersion));
    assert!(matches!(
        StartStep::after_version(0, 0, 1, 9, None),
        StartStep::Failed(EvdiError::IncompatibleLib { .. })
    ));
    assert!(matches!(
        StartStep::after_version(1, 9, 1, 9, Some("0")),
        StartStep::Search(HandleStep::Failed(EvdiError::ZeroInitialDeviceCount))
    ));
    assert!(matches!(
        StartStep::after_version(1, 9, 1, 9, Some("1")),
        StartStep::Search(HandleStep::OpenAttached)
    ));
    assert!(matches!(
        StartStep::after_search(config, HandleStep::AddDevice),
        StartStep::Search(HandleStep::AddDevice)
    ));
    assert!(matches!(
        StartStep::after_search(config, HandleStep::Failed(EvdiError::OpenFailed)),
        StartStep::Failed(EvdiError::OpenFailed)
    ));
    assert!(matches!(
        StartStep::after_search(config, HandleStep::Opened),
        StartStep::Connect { area: 1_024_000 }
    ));
    assert!(matches!(
        StartStep::after_search(display(800, 600, 60), HandleStep::Opened),
        StartStep::Failed(EvdiError::UnsupportedMode { .. })
    ));
    assert!(matches!(
        StartStep::after_mode(Err(EvdiError::ModeWaitTimedOut), 3),
        Some(StartStep::Failed(EvdiError::ModeWaitTimedOut))
    ));
    assert!(matches!(
        StartStep::after_mode(Ok(mode(2, 2, 32)), -1),
        Some(StartStep::Failed(EvdiError::InvalidEventFd))
    ));
    match StartStep::after_mode(Ok(mode(1280, 800, 32)), 3) {
        Some(StartStep::Register { backend, len }) => {
            assert_eq!(len, 4_096_000);
            assert_eq!(backend.stride, 5120);
            assert!(backend.connected);
            assert!(!backend.buffer_registered);
            match StartStep::after_register(backend, None) {
                StartStep::Attached(backend) => assert!(backend.buffer_registered),
                other => panic!("{other:?}"),
            }
        }
        other => panic!("{other:?}"),
    }
}

#[test]
fn evdi_frames_are_captured() {
    let backend = EvdiBackend::start(3, mode(2, 2, 32)).unwrap();
    assert!(backend.capture_frames_to_png(&capture(0)).unwrap().is_none());
    let mut run = backend.capture_frames_to_png(&capture(5)).unwrap().unwrap();
    let frame = [0u8; 16];
    for index in 0..2 {
        let picture = backend.picture("out", index, &frame).unwrap();
        assert!(picture.black);
        assert_eq!(picture.path, format!("out/frame-000{index}.png"));
        assert_eq!(picture.rgba, [0, 0, 0, 255].repeat(4));
        assert!(evdi::frame_taken(&mut run, picture.black).unwrap());
    }
    let mut shown = frame;
    shown[4] = 200;
    let picture = backend.picture("out", 2, &shown).unwrap();
    assert!(!picture.black);
    assert_eq!(picture.rgba[4..8], [0, 0, 200, 255]);
    assert!(!evdi::frame_taken(&mut run, false).unwrap());
    assert!(evdi::end_capture(&run).is_ok());
    assert!(backend.picture("out", 0, &frame[..15]).is_none());
}

#[test]
fn evdi_captures_fail() {
    let backend = EvdiBackend::start(3, mode(2, 2, 32)).unwrap();
    let mut run = backend.capture_frames_to_png(&capture(2)).unwrap().unwrap();
    assert!(matches!(evdi::end_capture(&run), Err(EvdiError::FrameCaptureTimedOut)));
    assert!(evdi::frame_taken(&mut run, true).unwrap());
    assert!(matches!(
        evdi::frame_taken(&mut run, true),
        Err(EvdiError::FrameCaptureAllBlack)
    ));
    let odd = NegotiatedMode { pixel_format: 1, ..mode(2, 2, 32) };
    let backend = EvdiBackend::start(3, odd).unwrap();
    assert!(backend.capture_frames_to_png(&capture(0)).unwrap().is_none());
    assert!(matches!(
        backend.capture_frames_to_png(&capture(1)),
        Err(EvdiError::UnsupportedPixelFormat(1))
    ));
}

#[test]
fn connectors_of_the_first_card() {
    assert!(evdi::is_first_card_connector("card0-HDMI-A-1"));
    assert!(!evdi::is_first_card_connector("card1-HDMI-A-1"));
    assert!(!evdi::is_first_card_connector("card0"));
}
