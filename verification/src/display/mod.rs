//! Virtual displays: which backend to use and what it can do.
pub mod evdi;
pub mod wayland_wlr;
pub mod x11_activation;
pub mod x11_dummy;
pub mod x11_layout;
pub mod x11_mode;

use vstd::prelude::*;

use crate::capture::CaptureRun;
use crate::config::CaptureConfig;
use crate::display::evdi::EvdiBackend;
use crate::display::evdi::EvdiError;
use crate::display::wayland_wlr::GstPlan;
use crate::display::wayland_wlr::WaylandEnvironment;
use crate::display::wayland_wlr::WaylandWlrBackend;
use crate::display::wayland_wlr::WaylandWlrError;
use crate::display::x11_dummy::X11DummyBackend;
use crate::display::x11_dummy::X11DummyError;
use crate::process::CommandOutput;
use crate::text;

verus! {

/// The display that is asked for.
#[derive(Debug, Clone, Copy)]
pub struct DisplayConfig {
    pub width: u32,
    pub height: u32,
    pub refresh_hz: u32,
}

/// A virtual monitor that was started.
#[derive(Debug)]
pub enum DisplayBackend {
    Evdi(EvdiBackend),
    WaylandWlr(WaylandWlrBackend),
    X11Dummy(X11DummyBackend),
}

/// What the host offers, and which backend is used.
#[derive(Debug, Clone)]
pub struct DisplayBackendInfo {
    pub selected_backend: &'static str,
    pub host: HostDisplayEnvironment,
    pub backends: Vec<BackendCapability>,
}

/// What kind of session the host runs.
#[derive(Debug, Clone)]
pub struct HostDisplayEnvironment {
    pub session_type: String,
    pub display_env_present: bool,
    pub has_dri_dir: bool,
}

/// What a backend can do on the host.
#[derive(Debug, Clone)]
pub struct BackendCapability {
    pub backend: &'static str,
    pub usable_now: bool,
    pub safe_for_daily_desktop: bool,
    pub supports_multiple_virtual_displays: bool,
    pub requires_free_physical_pipeline: bool,
    pub estimated_max_virtual_displays: Option<usize>,
    pub note: String,
}

/// A kind of backend.
#[derive(Debug, Clone, Copy, PartialEq, Eq, Structural)]
pub enum BackendChoice {
    Evdi,
    WaylandWlr,
    X11Dummy,
}

/// Why a backend cannot show or capture its monitor.
#[derive(Debug)]
pub enum DisplayError {
    Evdi(EvdiError),
    WaylandWlr(WaylandWlrError),
    X11Dummy(X11DummyError),
}

/// Whether a backend can capture frames.
#[derive(Debug, Clone)]
pub enum CaptureReadiness {
    Ready,
    Pending(String),
}

/// Where a live picture of the monitor comes from.
#[derive(Debug, Clone)]
pub enum LiveVideoSource {
    /// A part of an X11 screen.
    X11Grab { display: String, x: u32, y: u32, width: u32, height: u32 },
}

/// What was found out about the host.
#[derive(Debug)]
pub struct HostProbe {
    /// The backend that the user names.
    pub wanted_backend: Option<String>,
    pub session_type: Option<String>,
    pub display: Option<String>,
    /// Whether `/dev/dri` is a directory.
    pub has_dri_dir: bool,
    /// The answer of `xrandr --query`, or why it could not be run.
    pub xrandr: Result<CommandOutput, String>,
    pub wayland: Result<WaylandEnvironment, WaylandWlrError>,
}

impl DisplayError {
    /// The error in words.
    pub open spec fn text(self) -> Seq<char> {
        match self {
            DisplayError::Evdi(err) => err.text(),
            DisplayError::WaylandWlr(err) => err.text(),
            DisplayError::X11Dummy(err) => err.text(),
        }
    }

    /// The error in words.
    pub fn message(&self) -> (out: String)
        ensures
            out@ == self.text(),
    {
        match self {
            DisplayError::Evdi(err) => err.message(),
            DisplayError::WaylandWlr(err) => err.message(),
            DisplayError::X11Dummy(err) => err.message(),
        }
    }
}

impl BackendChoice {
    /// The name that a backend goes by.
    pub open spec fn spelled(self) -> Seq<char> {
        match self {
            BackendChoice::Evdi => "evdi"@,
            BackendChoice::WaylandWlr => "wayland-wlr"@,
            BackendChoice::X11Dummy => "x11-dummy"@,
        }
    }

    /// The name that a backend goes by.
    pub fn name(self) -> (out: &'static str)
        ensures
            out@ == self.spelled(),
    {
        match self {
            BackendChoice::Evdi => "evdi",
            BackendChoice::WaylandWlr => "wayland-wlr",
            BackendChoice::X11Dummy => "x11-dummy",
        }
    }
}

/// The session is of this type; the case of letters does not matter.
pub open spec fn is_session(session_type: Option<String>, wanted: Seq<char>) -> bool {
    session_type matches Some(found) && text::same_ignoring_ascii_case(found@, wanted)
}

fn session_is(session_type: &Option<String>, wanted: &str) -> (yes: bool)
    ensures
        yes == is_session(*session_type, wanted@),
{
    match session_type {
        Some(found) => text::same_but_case(found.as_str(), wanted),
        None => false,
    }
}

impl HostProbe {
    /// An X11 display is named.
    pub open spec fn names_display(self) -> bool {
        x11_layout::names_display(text::opt_text(self.display))
    }

    /// A Wayland session that can make virtual monitors.
    pub open spec fn portal_ready(self) -> bool {
        self.wayland matches Ok(env) && env.supports_portal_virtual_monitor
    }

    /// The outputs that X11 can switch on; none where they cannot be told.
    pub open spec fn outputs(self) -> Seq<Seq<char>> {
        match self.xrandr {
            Ok(result) => if result.success {
                x11_dummy::candidates(result.printed())
            } else {
                Seq::empty()
            },
            Err(_) => Seq::empty(),
        }
    }

    /// The backend that the host is suited to.
    pub open spec fn automatic(self) -> BackendChoice {
        if is_session(self.session_type, "wayland"@) && self.portal_ready() {
            BackendChoice::WaylandWlr
        } else if is_session(self.session_type, "x11"@) || self.names_display() {
            BackendChoice::X11Dummy
        } else {
            BackendChoice::Evdi
        }
    }

    /// The backend to use: the one that the user names, else the one that the host is suited to.
    pub open spec fn choice(self) -> BackendChoice {
        match self.wanted_backend {
            Some(wanted) => if text::trim(wanted@) == "evdi"@ {
                BackendChoice::Evdi
            } else if text::trim(wanted@) == "wayland-wlr"@ {
                BackendChoice::WaylandWlr
            } else if text::trim(wanted@) == "x11-dummy"@ {
                BackendChoice::X11Dummy
            } else {
                self.automatic()
            },
            None => self.automatic(),
        }
    }

    /// The choice depends on the Wayland session, or falls on it: the user names its backend, or
    /// names none and runs a Wayland session.
    pub open spec fn depends_on_wayland(self) -> bool {
        match self.wanted_backend {
            Some(wanted) => if text::trim(wanted@) == "wayland-wlr"@ {
                true
            } else if text::trim(wanted@) == "evdi"@ || text::trim(wanted@) == "x11-dummy"@ {
                false
            } else {
                is_session(self.session_type, "wayland"@)
            },
            None => is_session(self.session_type, "wayland"@),
        }
    }

    /// Whether a start has to look at the Wayland session.
    pub fn needs_wayland(&self) -> (yes: bool)
        ensures
            yes == self.depends_on_wayland(),
    {
        match &self.wanted_backend {
            Some(wanted) => {
                let name: String = text::trimmed(wanted.as_str());
                if text::same(name.as_str(), "wayland-wlr") {
                    true
                } else if text::same(name.as_str(), "evdi") || text::same(
                    name.as_str(),
                    "x11-dummy",
                ) {
                    false
                } else {
                    session_is(&self.session_type, "wayland")
                }
            },
            None => session_is(&self.session_type, "wayland"),
        }
    }

    fn has_display(&self) -> (yes: bool)
        ensures
            yes == self.names_display(),
    {
        match &self.display {
            Some(name) => x11_layout::has_display(Some(name.as_str())),
            None => false,
        }
    }

    fn has_portal(&self) -> (yes: bool)
        ensures
            yes == self.portal_ready(),
    {
        match &self.wayland {
            Ok(env) => env.supports_portal_virtual_monitor,
            Err(_) => false,
        }
    }
}

/// The backend that the host is suited to.
pub fn auto_backend_choice(probe: &HostProbe) -> (out: BackendChoice)
    ensures
        out == probe.automatic(),
{
    if session_is(&probe.session_type, "wayland") && probe.has_portal() {
        BackendChoice::WaylandWlr
    } else if session_is(&probe.session_type, "x11") || probe.has_display() {
        BackendChoice::X11Dummy
    } else {
        BackendChoice::Evdi
    }
}

/// The backend to use: the one that the user names, else the one that the host is suited to.
pub fn choose_backend(probe: &HostProbe) -> (out: BackendChoice)
    ensures
        out == probe.choice(),
{
    match &probe.wanted_backend {
        Some(wanted) => {
            let name: String = text::trimmed(wanted.as_str());
            if text::same(name.as_str(), "evdi") {
                BackendChoice::Evdi
            } else if text::same(name.as_str(), "wayland-wlr") {
                BackendChoice::WaylandWlr
            } else if text::same(name.as_str(), "x11-dummy") {
                BackendChoice::X11Dummy
            } else {
                auto_backend_choice(probe)
            }
        },
        None => auto_backend_choice(probe),
    }
}

/// A truth value in words.
pub open spec fn truth(b: bool) -> Seq<char> {
    if b {
        "true"@
    } else {
        "false"@
    }
}

fn truth_text(b: bool) -> (out: &'static str)
    ensures
        out@ == truth(b),
{
    if b {
        "true"
    } else {
        "false"
    }
}

/// What is said of the Wayland backend.
pub open spec fn wayland_note(wayland: Result<WaylandEnvironment, WaylandWlrError>) -> Seq<char> {
    match wayland {
        Ok(env) => if env.supports_portal_virtual_monitor {
            "Wayland compositor socket detected at "@ + env.socket_path@
                + "; ScreenCast portal advertises VIRTUAL monitor support; wlroots output-management advertised="@
                + truth(env.supports_wlr_output_management) + " ; capture stack: "@
                + env.capture_stack.note@
        } else {
            "Wayland compositor socket detected at "@ + env.socket_path@
                + ", but ScreenCast portal VIRTUAL support is unavailable; wlroots output-management advertised="@
                + truth(env.supports_wlr_output_management)
                + " ; current Wayland compositor globals: "@ + text::join(
                text::texts(env.advertised_globals@),
                ", "@,
            )
        },
        Err(_) => "No Wayland compositor socket detected for wlr-virtual-output"@,
    }
}

/// What is said of the X11 backend.
pub open spec fn x11_note(outputs: Seq<Seq<char>>) -> Seq<char> {
    if outputs.len() == 0 {
        "No disconnected X11 outputs available for runtime activation"@
    } else {
        "Session-level X11 runtime outputs available: "@ + text::join(outputs, ", "@)
    }
}

/// What is said of the evdi backend.
pub open spec fn evdi_note(x11: bool) -> Seq<char> {
    if x11 {
        "Powerful backend, but current X11 sessions may experience disruptive hotplug behavior"@
    } else {
        "Preferred virtual-display backend for Wayland/DRM-friendly hosts"@
    }
}

/// What evdi can do on the host.
pub open spec fn is_evdi_capability(found: BackendCapability, probe: HostProbe) -> bool {
    let x11 = is_session(probe.session_type, "x11"@);
    &&& found.backend@ == "evdi"@
    &&& found.usable_now == probe.has_dri_dir
    &&& found.safe_for_daily_desktop == !x11
    &&& found.supports_multiple_virtual_displays
    &&& !found.requires_free_physical_pipeline
    &&& found.estimated_max_virtual_displays == Some(16usize)
    &&& found.note@ == evdi_note(x11)
}

/// What the Wayland backend can do on the host.
pub open spec fn is_wayland_capability(found: BackendCapability, probe: HostProbe) -> bool {
    &&& found.backend@ == "wayland-wlr"@
    &&& found.usable_now == probe.portal_ready()
    &&& found.safe_for_daily_desktop
    &&& found.supports_multiple_virtual_displays
    &&& !found.requires_free_physical_pipeline
    &&& found.estimated_max_virtual_displays is None
    &&& found.note@ == wayland_note(probe.wayland)
}

/// What the X11 backend can do on the host.
pub open spec fn is_x11_capability(found: BackendCapability, probe: HostProbe) -> bool {
    &&& found.backend@ == "x11-dummy"@
    &&& found.usable_now == (probe.names_display() && probe.outputs().len() > 0)
    &&& found.safe_for_daily_desktop
    &&& !found.supports_multiple_virtual_displays
    &&& found.requires_free_physical_pipeline
    &&& found.estimated_max_virtual_displays matches Some(n) && n == probe.outputs().len()
    &&& found.note@ == x11_note(probe.outputs())
}

/// What an inspection of the host reports.
pub open spec fn reports(info: DisplayBackendInfo, probe: HostProbe) -> bool {
    &&& info.selected_backend@ == probe.choice().spelled()
    &&& info.host.session_type@ == match probe.session_type {
        Some(found) => found@,
        None => "unknown"@,
    }
    &&& info.host.display_env_present == probe.names_display()
    &&& info.host.has_dri_dir == probe.has_dri_dir
    &&& info.backends@.len() == 3
    &&& is_evdi_capability(info.backends@[0], probe)
    &&& is_wayland_capability(info.backends@[1], probe)
    &&& is_x11_capability(info.backends@[2], probe)
}

fn evdi_capability(probe: &HostProbe) -> (out: BackendCapability)
    ensures
        is_evdi_capability(out, *probe),
{
    let x11: bool = session_is(&probe.session_type, "x11");
    let note: String = if x11 {
        "Powerful backend, but current X11 sessions may experience disruptive hotplug behavior".to_owned()
    } else {
        "Preferred virtual-display backend for Wayland/DRM-friendly hosts".to_owned()
    };
    BackendCapability {
        backend: "evdi",
        usable_now: probe.has_dri_dir,
        safe_for_daily_desktop: !x11,
        supports_multiple_virtual_displays: true,
        requires_free_physical_pipeline: false,
        estimated_max_virtual_displays: Some(16),
        note,
    }
}

fn wayland_capability(probe: &HostProbe) -> (out: BackendCapability)
    ensures
        is_wayland_capability(out, *probe),
{
    let note: String = match &probe.wayland {
        Ok(env) => {
            let mut note: String = "Wayland compositor socket detected at ".to_owned();
            note.append(env.socket_path.as_str());
            if env.supports_portal_virtual_monitor {
                note.append(
                    "; ScreenCast portal advertises VIRTUAL monitor support; wlroots output-management advertised=",
                );
                note.append(truth_text(env.supports_wlr_output_management));
                note.append(" ; capture stack: ");
                note.append(env.capture_stack.note.as_str());
            } else {
                note.append(
                    ", but ScreenCast portal VIRTUAL support is unavailable; wlroots output-management advertised=",
                );
                note.append(truth_text(env.supports_wlr_output_management));
                note.append(" ; current Wayland compositor globals: ");
                note.append(text::joined(&env.advertised_globals, ", ").as_str());
            }
            note
        },
        Err(_) => "No Wayland compositor socket detected for wlr-virtual-output".to_owned(),
    };
    BackendCapability {
        backend: "wayland-wlr",
        usable_now: probe.has_portal(),
        safe_for_daily_desktop: true,
        supports_multiple_virtual_displays: true,
        requires_free_physical_pipeline: false,
        estimated_max_virtual_displays: None,
        note,
    }
}

fn x11_capability(probe: &HostProbe) -> (out: BackendCapability)
    ensures
        is_x11_capability(out, *probe),
{
    let outputs: Vec<String> = match x11_dummy::runtime_output_candidates(&probe.xrandr) {
        Ok(names) => names,
        Err(_) => text::no_texts(),
    };
    assert(text::texts(outputs@) =~= probe.outputs());
    assert(text::texts(outputs@).len() == outputs@.len());
    let note: String = if outputs.len() == 0 {
        "No disconnected X11 outputs available for runtime activation".to_owned()
    } else {
        "Session-level X11 runtime outputs available: ".to_owned().concat(
            text::joined(&outputs, ", ").as_str(),
        )
    };
    BackendCapability {
        backend: "x11-dummy",
        usable_now: probe.has_display() && outputs.len() > 0,
        safe_for_daily_desktop: true,
        supports_multiple_virtual_displays: false,
        requires_free_physical_pipeline: true,
        estimated_max_virtual_displays: Some(outputs.len()),
        note,
    }
}

/// What the host offers, and which backend is used.
pub fn inspect_backends(probe: &HostProbe) -> (info: DisplayBackendInfo)
    ensures
        reports(info, *probe),
{
    let session_type: String = match &probe.session_type {
        Some(found) => found.clone(),
        None => "unknown".to_owned(),
    };
    let mut backends: Vec<BackendCapability> = Vec::new();
    backends.push(evdi_capability(probe));
    backends.push(wayland_capability(probe));
    backends.push(x11_capability(probe));
    DisplayBackendInfo {
        selected_backend: choose_backend(probe).name(),
        host: HostDisplayEnvironment {
            session_type,
            display_env_present: probe.has_display(),
            has_dri_dir: probe.has_dri_dir,
        },
        backends,
    }
}

/// A capture that is to be made.
#[derive(Debug)]
pub enum CaptureJob {
    /// No frame is wanted.
    Nothing,
    /// Read frames from the evdi device.
    EvdiFrames(CaptureRun),
    /// Grab frames from the X11 screen.
    X11Frames(CaptureRun),
    /// Run `gst-launch-1.0` with these arguments.
    Pipeline(Vec<String>),
}

impl DisplayBackend {
    /// What the host offers, and which backend is used. The display that is asked for has no
    /// bearing on it.
    pub fn inspect(config: DisplayConfig, probe: &HostProbe) -> (info: DisplayBackendInfo)
        ensures
            reports(info, *probe),
    {
        inspect_backends(probe)
    }

    /// Begins to start a monitor: which backend is to show it, or why that one cannot be tried.
    /// evdi refuses a display without size or refresh rate, X11 a host without display, and
    /// Wayland a session without virtual monitors or a program without PipeWire.
    pub fn start(config: DisplayConfig, probe: &HostProbe) -> (out: Result<
        BackendChoice,
        DisplayError,
    >)
        ensures
            match probe.choice() {
                BackendChoice::Evdi => match out {
                    Ok(choice) => choice == BackendChoice::Evdi && config.width > 0
                        && config.height > 0 && config.refresh_hz > 0,
                    Err(DisplayError::Evdi(EvdiError::InvalidConfig(why))) => {
                        ||| (config.width == 0 || config.height == 0) && why@
                            == "width and height must be greater than zero"@
                        ||| config.width > 0 && config.height > 0 && config.refresh_hz == 0 && why@
                            == "refresh_hz must be greater than zero"@
                    },
                    Err(_) => false,
                },
                BackendChoice::WaylandWlr => match out {
                    Ok(choice) => choice == BackendChoice::WaylandWlr && (probe.wayland matches Ok(
                        env,
                    ) && env.supports_portal_virtual_monitor
                        && env.capture_stack.pipewire_feature_enabled),
                    Err(DisplayError::WaylandWlr(err)) => match probe.wayland {
                        Ok(env) => if !env.supports_portal_virtual_monitor {
                            err is MissingPortalVirtualMonitor
                        } else {
                            !env.capture_stack.pipewire_feature_enabled
                                && err is MissingPipeWireFeature
                        },
                        Err(why) => err == why,
                    },
                    Err(_) => false,
                },
                BackendChoice::X11Dummy => match out {
                    Ok(choice) => choice == BackendChoice::X11Dummy && probe.names_display(),
                    Err(DisplayError::X11Dummy(err)) => err is MissingDisplay
                        && !probe.names_display(),
                    Err(_) => false,
                },
            },
    {
        match choose_backend(probe) {
            BackendChoice::Evdi => match evdi::validate_config(config) {
                Ok(()) => Ok(BackendChoice::Evdi),
                Err(err) => Err(DisplayError::Evdi(err)),
            },
            BackendChoice::WaylandWlr => match wayland_wlr::check_start(&probe.wayland) {
                Ok(()) => Ok(BackendChoice::WaylandWlr),
                Err(err) => Err(DisplayError::WaylandWlr(err)),
            },
            BackendChoice::X11Dummy => if probe.has_display() {
                Ok(BackendChoice::X11Dummy)
            } else {
                Err(DisplayError::X11Dummy(X11DummyError::MissingDisplay))
            },
        }
    }

    /// The capture to be made.
    pub fn capture_frames_to_png(&self, capture: &CaptureConfig) -> (out: Result<
        CaptureJob,
        DisplayError,
    >)
        ensures
            match *self {
                DisplayBackend::Evdi(backend) => match out {
                    Ok(CaptureJob::Nothing) => capture.frames == 0,
                    Ok(CaptureJob::EvdiFrames(run)) => capture.frames > 0 && backend.pixel_format
                        == evdi::XRGB8888 && run == (CaptureRun {
                        wanted: capture.frames,
                        taken: 0,
                        saw_picture: false,
                        gives_up_on_black: true,
                    }),
                    Err(DisplayError::Evdi(err)) => capture.frames > 0 && backend.pixel_format
                        != evdi::XRGB8888 && err == EvdiError::UnsupportedPixelFormat(
                        backend.pixel_format,
                    ),
                    _ => false,
                },
                DisplayBackend::X11Dummy(_) => match out {
                    Ok(CaptureJob::Nothing) => capture.frames == 0,
                    Ok(CaptureJob::X11Frames(run)) => capture.frames > 0 && run == (CaptureRun {
                        wanted: capture.frames,
                        taken: 0,
                        saw_picture: false,
                        gives_up_on_black: false,
                    }),
                    _ => false,
                },
                DisplayBackend::WaylandWlr(backend) => match (backend.streams, out) {
                    (Some(_), Ok(CaptureJob::Nothing)) => capture.frames == 0,
                    (Some(streams), Ok(CaptureJob::Pipeline(args))) => capture.frames > 0
                        && streams@.len() > 0 && text::texts(args@) == wayland_wlr::gst_args(
                        streams@[0].node_id,
                        capture.frames as nat,
                        capture.output_dir@,
                    ),
                    (Some(streams), Err(DisplayError::WaylandWlr(err))) => capture.frames > 0
                        && streams@.len() == 0 && err is PortalReturnedNoStreams,
                    (None, Err(DisplayError::WaylandWlr(err))) => err is CaptureNotImplemented,
                    _ => false,
                },
            },
    {
        match self {
            DisplayBackend::Evdi(backend) => match backend.capture_frames_to_png(capture) {
                Ok(None) => Ok(CaptureJob::Nothing),
                Ok(Some(run)) => Ok(CaptureJob::EvdiFrames(run)),
                Err(err) => Err(DisplayError::Evdi(err)),
            },
            DisplayBackend::WaylandWlr(backend) => match backend.capture_frames_to_png(capture) {
                Ok(GstPlan::Nothing) => Ok(CaptureJob::Nothing),
                Ok(GstPlan::Launch(args)) => Ok(CaptureJob::Pipeline(args)),
                Err(err) => Err(DisplayError::WaylandWlr(err)),
            },
            DisplayBackend::X11Dummy(backend) => match backend.capture_frames_to_png(capture) {
                None => Ok(CaptureJob::Nothing),
                Some(run) => Ok(CaptureJob::X11Frames(run)),
            },
        }
    }

    /// Whether frames can be captured.
    pub fn capture_readiness(&self) -> (out: CaptureReadiness)
        ensures
            match out {
                CaptureReadiness::Ready => *self matches DisplayBackend::WaylandWlr(backend)
                    ==> backend.streams is Some,
                CaptureReadiness::Pending(why) => *self matches DisplayBackend::WaylandWlr(backend)
                    && backend.streams is None && why@
                    == "virtual monitor creation requires the wayland-pipewire feature for capture wiring"@,
            },
    {
        match self {
            DisplayBackend::WaylandWlr(backend) => backend.capture_readiness(),
            _ => CaptureReadiness::Ready,
        }
    }

    /// The monitor in words, where its backend describes it.
    pub fn external_monitor_summary(&self) -> (out: Option<String>)
        ensures
            text::opt_text(out) == match *self {
                DisplayBackend::WaylandWlr(backend) => Some(backend.summary()),
                _ => None,
            },
    {
        match self {
            DisplayBackend::WaylandWlr(backend) => Some(backend.external_monitor_summary()),
            _ => None,
        }
    }
}

/// A backend that the user names is used, whatever the host is suited to.
pub proof fn named_backends_are_used(probe: HostProbe, wanted: BackendChoice)
    requires
        probe.wanted_backend matches Some(name) && text::trim(name@) == wanted.spelled(),
    ensures
        probe.choice() == wanted,
{
    reveal_strlit("evdi");
    reveal_strlit("wayland-wlr");
    reveal_strlit("x11-dummy");
    assert("evdi"@.len() == 4);
    assert("wayland-wlr"@.len() == 11);
    assert("x11-dummy"@.len() == 9);
}

/// The choice of a backend rests on what the user names, on the session and its display, and on the
/// Wayland session only where it has to be looked at; where it has not, its backend is not chosen.
pub proof fn choices_rest_on_what_is_looked_at(probe: HostProbe, other: HostProbe)
    requires
        other.wanted_backend == probe.wanted_backend,
        other.session_type == probe.session_type,
        other.display == probe.display,
        probe.depends_on_wayland() ==> other.wayland == probe.wayland,
    ensures
        other.choice() == probe.choice(),
        !probe.depends_on_wayland() ==> probe.choice() != BackendChoice::WaylandWlr,
{
    reveal_strlit("evdi");
    reveal_strlit("wayland-wlr");
    reveal_strlit("x11-dummy");
    assert("evdi"@.len() == 4);
    assert("wayland-wlr"@.len() == 11);
    assert("x11-dummy"@.len() == 9);
}

/// What an inspection selects can be named as the wanted backend, and is then selected again.
pub proof fn selections_can_be_named(info: DisplayBackendInfo, probe: HostProbe, again: HostProbe)
    requires
        reports(info, probe),
        again.wanted_backend matches Some(name) && text::trim(name@) == info.selected_backend@,
    ensures
        again.choice() == probe.choice(),
{
    named_backends_are_used(again, probe.choice());
}

/// A Wayland backend that was not named is selected only where its capability says that it can
/// be used; an X11 one only in an X11 session or where a display is named.
pub proof fn automatic_backends_fit_the_host(info: DisplayBackendInfo, probe: HostProbe)
    requires
        reports(info, probe),
        probe.wanted_backend is None,
    ensures
        info.selected_backend@ == "wayland-wlr"@ ==> info.backends@[1].usable_now,
        info.selected_backend@ == "x11-dummy"@ ==> info.host.display_env_present || is_session(
            probe.session_type,
            "x11"@,
        ),
        info.selected_backend@ == "evdi"@ ==> !info.host.display_env_present,
{
    reveal_strlit("evdi");
    reveal_strlit("wayland-wlr");
    reveal_strlit("x11-dummy");
    assert("evdi"@.len() == 4);
    assert("wayland-wlr"@.len() == 11);
    assert("x11-dummy"@.len() == 9);
}

/// A session is of a type where it has the letters of its name, capital or small; one whose type is
/// not known is of none.
pub proof fn sessions_are_recognised(found: String, wanted: Seq<char>)
    ensures
        is_session(Some(found), wanted) <==> found@.len() == wanted.len() && forall|i: int|
            0 <= i < wanted.len() ==> text::same_letter(#[trigger] found@[i], wanted[i]),
        !is_session(None, wanted),
{
    text::case_alone_is_ignored(found@, wanted);
}

/// A host without a named backend gets the one that it is suited to: the Wayland one exactly in a
/// Wayland session whose portal makes virtual monitors; else the X11 one exactly in an X11 session
/// or where a display is named; else evdi.
pub proof fn hosts_get_the_backend_that_suits_them(probe: HostProbe)
    requires
        probe.wanted_backend is None,
    ensures
        ({
            let wayland = is_session(probe.session_type, "wayland"@) && (probe.wayland matches Ok(
                env,
            ) && env.supports_portal_virtual_monitor);
            let x11 = is_session(probe.session_type, "x11"@) || (probe.display matches Some(name)
                && name@.len() > 0);
            &&& probe.choice() == BackendChoice::WaylandWlr <==> wayland
            &&& probe.choice() == BackendChoice::X11Dummy <==> !wayland && x11
            &&& probe.choice() == BackendChoice::Evdi <==> !wayland && !x11
        }),
{
}

/// White space around the name of a wanted backend makes no difference, and a name that no backend
/// goes by is as good as none.
pub proof fn backends_are_named(
    probe: HostProbe,
    unnamed: HostProbe,
    before: Seq<char>,
    name: Seq<char>,
    after: Seq<char>,
)
    requires
        text::is_blank(before),
        text::is_blank(after),
        name.len() > 0,
        !text::is_space(name[0]),
        !text::is_space(name.last()),
        probe.wanted_backend matches Some(wanted) && wanted@ == before + name + after,
        unnamed == (HostProbe { wanted_backend: None, ..probe }),
    ensures
        name == "evdi"@ ==> probe.choice() == BackendChoice::Evdi,
        name == "wayland-wlr"@ ==> probe.choice() == BackendChoice::WaylandWlr,
        name == "x11-dummy"@ ==> probe.choice() == BackendChoice::X11Dummy,
        name != "evdi"@ && name != "wayland-wlr"@ && name != "x11-dummy"@ ==> probe.choice()
            == unnamed.choice(),
{
    text::trimming_leaves_the_middle(before, name, after);
    assert("evdi"@.len() == 4) by {
        reveal_strlit("evdi");
    }
    assert("wayland-wlr"@.len() == 11) by {
        reveal_strlit("wayland-wlr");
    }
    assert("x11-dummy"@.len() == 9) by {
        reveal_strlit("x11-dummy");
    }
}

/// A start looks at the Wayland session exactly where the user names its backend, or names none
/// that there is and runs a Wayland session.
pub proof fn wayland_is_looked_at_where_it_matters(probe: HostProbe, name: Seq<char>)
    requires
        probe.wanted_backend matches Some(wanted) ==> text::trim(wanted@) == name,
        probe.wanted_backend is None ==> name.len() == 0,
    ensures
        probe.depends_on_wayland() <==> name == "wayland-wlr"@ || (name != "evdi"@ && name
            != "x11-dummy"@ && is_session(probe.session_type, "wayland"@)),
{
    assert("evdi"@.len() == 4) by {
        reveal_strlit("evdi");
    }
    assert("wayland-wlr"@.len() == 11) by {
        reveal_strlit("wayland-wlr");
    }
    assert("x11-dummy"@.len() == 9) by {
        reveal_strlit("x11-dummy");
    }
}

/// The outputs that X11 can switch on are those of the list, where it could be had, and none where
/// it could not.
pub proof fn outputs_are_those_of_the_list(probe: HostProbe)
    ensures
        probe.xrandr matches Ok(result) && result.success ==> probe.outputs()
            == x11_dummy::candidates(probe.xrandr->Ok_0.printed()),
        probe.xrandr matches Ok(result) && !result.success ==> probe.outputs().len() == 0,
        probe.xrandr is Err ==> probe.outputs().len() == 0,
        probe.names_display() <==> (probe.display matches Some(name) && name@.len() > 0),
        probe.portal_ready() <==> (probe.wayland matches Ok(env)
            && env.supports_portal_virtual_monitor),
{
}

/// What is reported of the host is what was found out: each backend under its own name, usable
/// where what it needs is there, and the X11 one with as many monitors as there are outputs for it.
pub proof fn reports_tell_what_was_found(info: DisplayBackendInfo, probe: HostProbe)
    requires
        reports(info, probe),
    ensures
        info.backends@.len() == 3,
        info.backends@[0].backend@ == "evdi"@,
        info.backends@[0].usable_now == probe.has_dri_dir,
        info.backends@[0].safe_for_daily_desktop == !is_session(probe.session_type, "x11"@),
        info.backends@[0].supports_multiple_virtual_displays,
        !info.backends@[0].requires_free_physical_pipeline,
        info.backends@[0].estimated_max_virtual_displays == Some(16usize),
        info.backends@[1].backend@ == "wayland-wlr"@,
        info.backends@[1].usable_now <==> (probe.wayland matches Ok(env)
            && env.supports_portal_virtual_monitor),
        info.backends@[1].safe_for_daily_desktop,
        info.backends@[1].supports_multiple_virtual_displays,
        !info.backends@[1].requires_free_physical_pipeline,
        info.backends@[1].estimated_max_virtual_displays is None,
        info.backends@[2].backend@ == "x11-dummy"@,
        info.backends@[2].usable_now <==> (probe.display matches Some(name) && name@.len() > 0)
            && probe.outputs().len() > 0,
        info.backends@[2].safe_for_daily_desktop,
        !info.backends@[2].supports_multiple_virtual_displays,
        info.backends@[2].requires_free_physical_pipeline,
        info.backends@[2].estimated_max_virtual_displays matches Some(n) && n
            == probe.outputs().len(),
        info.host.has_dri_dir == probe.has_dri_dir,
        info.host.display_env_present <==> (probe.display matches Some(name) && name@.len() > 0),
        probe.session_type matches Some(found) ==> info.host.session_type@ == found@,
        probe.session_type is None ==> info.host.session_type@ == "unknown"@,
        probe.choice() == BackendChoice::Evdi ==> info.selected_backend@ == "evdi"@,
        probe.choice() == BackendChoice::WaylandWlr ==> info.selected_backend@ == "wayland-wlr"@,
        probe.choice() == BackendChoice::X11Dummy ==> info.selected_backend@ == "x11-dummy"@,
{
}

/// What is said of the Wayland backend names the socket that was found and what the session is
/// lacking or how it is captured; of a session that was not found nothing else is said.
pub proof fn wayland_notes_name_the_socket(env: WaylandEnvironment)
    ensures
        ({
            let note = wayland_note(Ok(env));
            &&& text::has_prefix(note, "Wayland compositor socket detected at "@ + env.socket_path@)
            &&& env.supports_portal_virtual_monitor ==> text::has_suffix(
                note,
                " ; capture stack: "@ + env.capture_stack.note@,
            )
            &&& !env.supports_portal_virtual_monitor ==> text::has_suffix(
                note,
                " ; current Wayland compositor globals: "@ + text::join(
                    text::texts(env.advertised_globals@),
                    ", "@,
                ),
            )
            &&& env.supports_wlr_output_management ==> text::contains(
                note,
                "wlroots output-management advertised="@ + "true"@,
            )
            &&& !env.supports_wlr_output_management ==> text::contains(
                note,
                "wlroots output-management advertised="@ + "false"@,
            )
        }),
{
    let note = wayland_note(Ok(env));
    let head = "Wayland compositor socket detected at "@ + env.socket_path@;
    let said = truth(env.supports_wlr_output_management);
    let told = "wlroots output-management advertised="@;
    if env.supports_portal_virtual_monitor {
        let start = "; ScreenCast portal advertises VIRTUAL monitor support; "@;
        let end = " ; capture stack: "@ + env.capture_stack.note@;
        lemma_portal_note();
        lemma_note_parts(head, start, told, said, end);
        assert(note =~= head + (start + told) + said + end);
    } else {
        let start = ", but ScreenCast portal VIRTUAL support is unavailable; "@;
        let end = " ; current Wayland compositor globals: "@ + text::join(
            text::texts(env.advertised_globals@),
            ", "@,
        );
        lemma_no_portal_note();
        lemma_note_parts(head, start, told, said, end);
        assert(note =~= head + (start + told) + said + end);
    }
}

proof fn lemma_portal_note()
    ensures
        "; ScreenCast portal advertises VIRTUAL monitor support; wlroots output-management advertised="@
            == "; ScreenCast portal advertises VIRTUAL monitor support; "@
            + "wlroots output-management advertised="@,
{
    reveal_strlit(
        "; ScreenCast portal advertises VIRTUAL monitor support; wlroots output-management advertised=",
    );
    reveal_strlit("; ScreenCast portal advertises VIRTUAL monitor support; ");
    reveal_strlit("wlroots output-management advertised=");
    assert("; ScreenCast portal advertises VIRTUAL monitor support; wlroots output-management advertised="@
        =~= "; ScreenCast portal advertises VIRTUAL monitor support; "@
        + "wlroots output-management advertised="@);
}

proof fn lemma_no_portal_note()
    ensures
        ", but ScreenCast portal VIRTUAL support is unavailable; wlroots output-management advertised="@
            == ", but ScreenCast portal VIRTUAL support is unavailable; "@
            + "wlroots output-management advertised="@,
{
    reveal_strlit(
        ", but ScreenCast portal VIRTUAL support is unavailable; wlroots output-management advertised=",
    );
    reveal_strlit(", but ScreenCast portal VIRTUAL support is unavailable; ");
    reveal_strlit("wlroots output-management advertised=");
    assert(", but ScreenCast portal VIRTUAL support is unavailable; wlroots output-management advertised="@
        =~= ", but ScreenCast portal VIRTUAL support is unavailable; "@
        + "wlroots output-management advertised="@);
}

proof fn lemma_note_parts(
    head: Seq<char>,
    start: Seq<char>,
    told: Seq<char>,
    said: Seq<char>,
    end: Seq<char>,
)
    ensures
        text::has_prefix(head + (start + told) + said + end, head),
        text::has_suffix(head + (start + told) + said + end, end),
        text::contains(head + (start + told) + said + end, told + said),
{
    let note = head + (start + told) + said + end;
    assert(text::has_prefix(note, head)) by {
        assert(note =~= head + (start + told + said + end));
        text::parts_are_found(head, start + told + said + end);
    }
    assert(text::has_suffix(note, end)) by {
        text::parts_are_found(head + (start + told) + said, end);
    }
    assert(text::contains(note, told + said)) by {
        assert(note =~= (head + start) + (told + said) + end);
        text::middle_is_found(head + start, told + said, end);
    }
}

/// What is said of the X11 backend ends with the outputs that can be switched on, in their order.
pub proof fn x11_notes_name_the_outputs(outputs: Seq<Seq<char>>, output: Seq<char>)
    ensures
        outputs.len() > 0 ==> text::has_suffix(x11_note(outputs), text::join(outputs, ", "@)),
        x11_note(seq![output]) == "Session-level X11 runtime outputs available: "@ + output,
        outputs.len() > 0 ==> x11_note(outputs.push(output)) == x11_note(outputs) + ", "@ + output,
{
    text::parts_are_found(
        "Session-level X11 runtime outputs available: "@,
        text::join(outputs, ", "@),
    );
    if outputs.len() > 0 {
        assert(outputs.push(output).drop_last() =~= outputs);
        assert(x11_note(outputs.push(output)) =~= x11_note(outputs) + ", "@ + output);
    }
}

/// An error of a backend is told in the words of the backend.
pub proof fn errors_are_told_by_their_backend(
    evdi: EvdiError,
    wayland: WaylandWlrError,
    x11: X11DummyError,
)
    ensures
        DisplayError::Evdi(evdi).text() == evdi.text(),
        DisplayError::WaylandWlr(wayland).text() == wayland.text(),
        DisplayError::X11Dummy(x11).text() == x11.text(),
{
}

/// A start tries the backend that is chosen and no other, and refuses only what that backend cannot
/// show.
pub proof fn starts_try_the_chosen_backend(
    config: DisplayConfig,
    probe: HostProbe,
    out: Result<BackendChoice, DisplayError>,
)
    requires
        call_ensures(DisplayBackend::start, (config, &probe), out),
    ensures
        out matches Ok(choice) ==> choice == probe.choice(),
        probe.choice() == BackendChoice::Evdi ==> (out is Ok <==> config.width > 0 && config.height
            > 0 && config.refresh_hz > 0),
        probe.choice() == BackendChoice::X11Dummy ==> (out is Ok <==> probe.names_display()),
        probe.choice() == BackendChoice::WaylandWlr ==> (out is Ok <==> (probe.wayland matches Ok(
            env,
        ) && env.supports_portal_virtual_monitor && env.capture_stack.pipewire_feature_enabled)),
{
}

/// A capture is made by the backend that shows the monitor, of as many frames as are wanted; the
/// X11 one never gives up on black.
pub proof fn captures_are_made_by_the_backend(
    backend: DisplayBackend,
    capture: CaptureConfig,
    out: Result<CaptureJob, DisplayError>,
)
    requires
        call_ensures(DisplayBackend::capture_frames_to_png, (&backend, &capture), out),
    ensures
        out matches Ok(CaptureJob::Nothing) ==> capture.frames == 0,
        out matches Ok(CaptureJob::EvdiFrames(run)) ==> backend is Evdi && run.wanted
            == capture.frames && run.taken == 0 && run.gives_up_on_black,
        out matches Ok(CaptureJob::X11Frames(run)) ==> backend is X11Dummy && run.wanted
            == capture.frames && run.taken == 0 && !run.gives_up_on_black,
        out matches Ok(CaptureJob::Pipeline(args)) ==> (backend matches DisplayBackend::WaylandWlr(
            shown,
        ) && shown.streams is Some),
        backend is X11Dummy && capture.frames > 0 ==> out matches Ok(CaptureJob::X11Frames(run)),
        capture.frames == 0 && !(backend is WaylandWlr) ==> out matches Ok(CaptureJob::Nothing),
{
}

} // verus!
