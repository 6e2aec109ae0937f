//! The Wayland backend: a virtual monitor that the ScreenCast portal makes.
use vstd::prelude::*;

use crate::capture;
use crate::config::CaptureConfig;
use crate::display::CaptureReadiness;
use crate::display::DisplayConfig;
use crate::listing;
use crate::number;
use crate::path;
use crate::process::CommandOutput;
use crate::process::LaunchError;
use crate::sorting;
use crate::text;

verus! {

/// A virtual monitor of a Wayland session. Its streams are known where the program can capture
/// them at all.
#[derive(Debug, Clone)]
pub struct WaylandWlrBackend {
    pub config: DisplayConfig,
    pub streams: Option<Vec<PortalStreamInfo>>,
}

/// What is known of a Wayland session.
#[derive(Debug, Clone)]
pub struct WaylandEnvironment {
    pub wayland_display: String,
    pub runtime_dir: String,
    pub socket_path: String,
    pub supports_wlr_output_management: bool,
    pub supports_portal_virtual_monitor: bool,
    pub advertised_globals: Vec<String>,
    pub capture_stack: WaylandCaptureStack,
}

/// How the program can capture a Wayland monitor.
#[derive(Debug, Clone)]
pub struct WaylandCaptureStack {
    pub pipewire_feature_enabled: bool,
    pub portal_capture_ready: bool,
    pub note: String,
}

/// A stream of a portal session.
#[derive(Debug, Clone)]
pub struct PortalStreamInfo {
    pub node_id: u32,
    pub position: Option<(i32, i32)>,
    pub size: Option<(i32, i32)>,
    pub source_type: Option<u32>,
    pub id: Option<String>,
    pub mapping_id: Option<String>,
}

/// Why the Wayland backend cannot show or capture its monitor.
#[derive(Debug, Clone)]
pub enum WaylandWlrError {
    MissingWaylandDisplay,
    MissingRuntimeDir,
    MissingSocket(String),
    Connection(String),
    Registry(String),
    MissingWlrOutputManagement,
    MissingPortalVirtualMonitor,
    MissingPipeWireFeature,
    PortalSession(String),
    PortalReturnedNoStreams,
    GStreamerUnavailable,
    FrameWriteFailed(String),
    CaptureSpawnFailed(String),
    CapturePipelineFailed(String),
    CaptureTimedOut,
    CaptureNotImplemented,
}

impl WaylandWlrError {
    /// The error in words.
    pub open spec fn text(self) -> Seq<char> {
        match self {
            WaylandWlrError::MissingWaylandDisplay =>
                "WAYLAND_DISPLAY is not set; wlr-virtual-output backend cannot start"@,
            WaylandWlrError::MissingRuntimeDir =>
                "XDG_RUNTIME_DIR is not set; wlr-virtual-output backend cannot find the compositor socket"@,
            WaylandWlrError::MissingSocket(path) =>
                "Wayland compositor socket does not exist at "@ + path@,
            WaylandWlrError::Connection(why) =>
                "failed to connect to Wayland compositor: "@ + why@,
            WaylandWlrError::Registry(why) => "failed to inspect Wayland globals: "@ + why@,
            WaylandWlrError::MissingWlrOutputManagement =>
                "Wayland compositor does not advertise zwlr_output_manager_v1; wlroots output-management path is unavailable"@,
            WaylandWlrError::MissingPortalVirtualMonitor =>
                "ScreenCast portal does not advertise VIRTUAL source support; compositor-native virtual monitor creation is unavailable"@,
            WaylandWlrError::MissingPipeWireFeature =>
                "Wayland virtual output exists, but the PipeWire / portal capture stack is not compiled in; enable the `wayland-pipewire` feature"@,
            WaylandWlrError::PortalSession(why) =>
                "failed to start Wayland ScreenCast portal session: "@ + why@,
            WaylandWlrError::PortalReturnedNoStreams =>
                "Wayland ScreenCast portal started but returned no streams for the virtual monitor"@,
            WaylandWlrError::GStreamerUnavailable =>
                "gst-launch-1.0 with pipewiresrc is required for the current Wayland capture bridge"@,
            WaylandWlrError::FrameWriteFailed(why) =>
                "failed to create Wayland capture output directory: "@ + why@,
            WaylandWlrError::CaptureSpawnFailed(why) =>
                "Wayland PipeWire capture process failed: "@ + why@,
            WaylandWlrError::CapturePipelineFailed(why) =>
                "Wayland PipeWire capture pipeline failed: "@ + why@,
            WaylandWlrError::CaptureTimedOut =>
                "timed out waiting for the Wayland PipeWire capture pipeline to produce frames"@,
            WaylandWlrError::CaptureNotImplemented =>
                "Wayland virtual monitor exists, but PNG frame extraction has not been completed for this backend yet"@,
        }
    }

    /// The error in words.
    pub fn message(&self) -> (out: String)
        ensures
            out@ == self.text(),
    {
        match self {
            WaylandWlrError::MissingWaylandDisplay =>
                "WAYLAND_DISPLAY is not set; wlr-virtual-output backend cannot start".to_owned(),
            WaylandWlrError::MissingRuntimeDir =>
                "XDG_RUNTIME_DIR is not set; wlr-virtual-output backend cannot find the compositor socket".to_owned(),
            WaylandWlrError::MissingSocket(path) =>
                "Wayland compositor socket does not exist at ".to_owned().concat(path.as_str()),
            WaylandWlrError::Connection(why) =>
                "failed to connect to Wayland compositor: ".to_owned().concat(why.as_str()),
            WaylandWlrError::Registry(why) =>
                "failed to inspect Wayland globals: ".to_owned().concat(why.as_str()),
            WaylandWlrError::MissingWlrOutputManagement =>
                "Wayland compositor does not advertise zwlr_output_manager_v1; wlroots output-management path is unavailable".to_owned(),
            WaylandWlrError::MissingPortalVirtualMonitor =>
                "ScreenCast portal does not advertise VIRTUAL source support; compositor-native virtual monitor creation is unavailable".to_owned(),
            WaylandWlrError::MissingPipeWireFeature =>
                "Wayland virtual output exists, but the PipeWire / portal capture stack is not compiled in; enable the `wayland-pipewire` feature".to_owned(),
            WaylandWlrError::PortalSession(why) =>
                "failed to start Wayland ScreenCast portal session: ".to_owned().concat(
                why.as_str(),
            ),
            WaylandWlrError::PortalReturnedNoStreams =>
                "Wayland ScreenCast portal started but returned no streams for the virtual monitor".to_owned(),
            WaylandWlrError::GStreamerUnavailable =>
                "gst-launch-1.0 with pipewiresrc is required for the current Wayland capture bridge".to_owned(),
            WaylandWlrError::FrameWriteFailed(why) =>
                "failed to create Wayland capture output directory: ".to_owned().concat(
                why.as_str(),
            ),
            WaylandWlrError::CaptureSpawnFailed(why) =>
                "Wayland PipeWire capture process failed: ".to_owned().concat(why.as_str()),
            WaylandWlrError::CapturePipelineFailed(why) =>
                "Wayland PipeWire capture pipeline failed: ".to_owned().concat(why.as_str()),
            WaylandWlrError::CaptureTimedOut =>
                "timed out waiting for the Wayland PipeWire capture pipeline to produce frames".to_owned(),
            WaylandWlrError::CaptureNotImplemented =>
                "Wayland virtual monitor exists, but PNG frame extraction has not been completed for this backend yet".to_owned(),
        }
    }
}

/// Where the compositor listens: the session's socket in its runtime directory.
pub fn socket_path(wayland_display: Option<&str>, runtime_dir: Option<&str>) -> (out: Result<
    String,
    WaylandWlrError,
>)
    ensures
        match (wayland_display, runtime_dir) {
            (None, _) => out == Err::<String, WaylandWlrError>(
                WaylandWlrError::MissingWaylandDisplay,
            ),
            (Some(_), None) => out == Err::<String, WaylandWlrError>(
                WaylandWlrError::MissingRuntimeDir,
            ),
            (Some(display), Some(dir)) => out matches Ok(path) && path@ == path::join(
                dir@,
                display@,
            ),
        },
{
    match wayland_display {
        Some(display) => match runtime_dir {
            Some(dir) => Ok(path::join_path(dir, display)),
            None => Err(WaylandWlrError::MissingRuntimeDir),
        },
        None => Err(WaylandWlrError::MissingWaylandDisplay),
    }
}

/// What the program's build can capture.
pub open spec fn stack_note(pipewire: bool) -> Seq<char> {
    if pipewire {
        "ashpd + zbus virtual-monitor portal session support is compiled in, and PNG frame extraction is bridged through GStreamer pipewiresrc"@
    } else {
        "PipeWire / portal stack is not compiled in yet; enable the `wayland-pipewire` feature"@
    }
}

/// How a program built with or without PipeWire can capture.
pub fn detect_capture_stack(pipewire: bool) -> (stack: WaylandCaptureStack)
    ensures
        stack.pipewire_feature_enabled == pipewire,
        stack.portal_capture_ready == pipewire,
        stack.note@ == stack_note(pipewire),
{
    let note: String = if pipewire {
        "ashpd + zbus virtual-monitor portal session support is compiled in, and PNG frame extraction is bridged through GStreamer pipewiresrc".to_owned()
    } else {
        "PipeWire / portal stack is not compiled in yet; enable the `wayland-pipewire` feature".to_owned()
    };
    WaylandCaptureStack { pipewire_feature_enabled: pipewire, portal_capture_ready: pipewire, note }
}

/// The bits of the portal's source types hold the one for virtual monitors.
pub open spec fn offers_virtual(source_types: u32) -> bool {
    source_types & 4 != 0
}

/// What `busctl` printed of the portal's source types: a type code `u` and a number.
pub open spec fn portal_answer(printed: Seq<char>) -> Result<bool, number::NumberError> {
    let fields = text::fields(printed);
    if fields.len() == 0 || fields[0] != "u"@ {
        Ok(false)
    } else {
        let value = if fields.len() > 1 {
            fields[1]
        } else {
            Seq::empty()
        };
        match number::unsigned_value(value, u32::MAX as int) {
            Ok(bits) => Ok(offers_virtual(bits as u32)),
            Err(err) => Err(err),
        }
    }
}

/// Whether the text that `busctl` printed offers virtual monitors.
pub fn read_portal_answer(printed: &str) -> (out: Result<bool, number::NumberError>)
    ensures
        out == portal_answer(printed@),
{
    let fields: Vec<String> = text::split_fields(printed);
    assert(text::fields(printed@).len() == fields@.len());
    if fields.len() == 0 {
        return Ok(false);
    }
    assert(text::fields(printed@)[0] == fields@[0]@);
    if !text::same(fields[0].as_str(), "u") {
        return Ok(false);
    }
    let value: String = if fields.len() > 1 {
        assert(text::fields(printed@)[1] == fields@[1]@);
        fields[1].clone()
    } else {
        String::new()
    };
    match number::parse_u32(value.as_str()) {
        Ok(bits) => Ok(bits & 4 != 0),
        Err(err) => Err(err),
    }
}

/// Whether the portal offers virtual monitors, from the answer of `busctl`; `Err` stands for a
/// command that could not be run.
pub fn detect_portal_virtual_monitor_support(result: &Result<CommandOutput, String>) -> (out: Result<
    bool,
    WaylandWlrError,
>)
    ensures
        match *result {
            Ok(done) => if done.success {
                match portal_answer(done.printed()) {
                    Ok(yes) => out == Ok::<bool, WaylandWlrError>(yes),
                    Err(err) => out matches Err(WaylandWlrError::Registry(why)) && why@
                        == err.text(),
                }
            } else {
                out == Ok::<bool, WaylandWlrError>(false)
            },
            Err(failure) => out matches Err(WaylandWlrError::Registry(why)) && why@ == failure@,
        },
{
    match result {
        Ok(done) => {
            if !done.success {
                return Ok(false);
            }
            match read_portal_answer(done.stdout_text().as_str()) {
                Ok(yes) => Ok(yes),
                Err(err) => Err(WaylandWlrError::Registry(err.message())),
            }
        },
        Err(failure) => Err(WaylandWlrError::Registry(failure.clone())),
    }
}

/// The arguments that let `busctl` tell the portal's source types.
pub fn portal_query_args() -> (args: Vec<String>)
    ensures
        text::texts(args@) == seq![
            "--user"@,
            "get-property"@,
            "org.freedesktop.portal.Desktop"@,
            "/org/freedesktop/portal/desktop"@,
            "org.freedesktop.portal.ScreenCast"@,
            "AvailableSourceTypes"@,
        ],
{
    let mut args: Vec<String> = text::no_texts();
    text::put_str(&mut args, "--user");
    text::put_str(&mut args, "get-property");
    text::put_str(&mut args, "org.freedesktop.portal.Desktop");
    text::put_str(&mut args, "/org/freedesktop/portal/desktop");
    text::put_str(&mut args, "org.freedesktop.portal.ScreenCast");
    text::put_str(&mut args, "AvailableSourceTypes");
    args
}

/// The compositor announces output management.
pub open spec fn manages_outputs(globals: Seq<Seq<char>>) -> bool {
    exists|i: int| 0 <= i < globals.len() && #[trigger] globals[i] == "zwlr_output_manager_v1"@
}

fn announces_output_management(globals: &Vec<String>) -> (yes: bool)
    ensures
        yes == manages_outputs(text::texts(globals@)),
{
    let ghost all = text::texts(globals@);
    let mut i: usize = 0;
    while i < globals.len()
        invariant
            all == text::texts(globals@),
            i <= globals.len(),
            forall|j: int| 0 <= j < i ==> #[trigger] all[j] != "zwlr_output_manager_v1"@,
        decreases globals.len() - i,
    {
        assert(all[i as int] == globals@[i as int]@);
        if text::same(globals[i].as_str(), "zwlr_output_manager_v1") {
            return true;
        }
        i = i + 1;
    }
    false
}

/// What was found out about a Wayland session.
#[derive(Debug)]
pub struct WaylandProbe {
    pub wayland_display: Option<String>,
    pub runtime_dir: Option<String>,
    /// Whether the socket is there.
    pub socket_exists: bool,
    /// The globals that the compositor announces, or why they are not known.
    pub globals: Result<Vec<String>, WaylandWlrError>,
    /// The answer of `busctl`, or why it could not be run.
    pub portal: Result<CommandOutput, String>,
    /// Whether the program was built with PipeWire.
    pub pipewire: bool,
}

/// The portal offers virtual monitors, as far as its answer can be read.
pub open spec fn portal_offers(portal: Result<CommandOutput, String>) -> bool {
    portal matches Ok(done) && done.success && portal_answer(done.printed()) == Ok::<
        bool,
        number::NumberError,
    >(true)
}

/// The Wayland session that a probe found. The first thing that is missing decides the error:
/// the names, the socket, the globals; an unreadable portal only means that it offers nothing.
pub fn detect_wayland_environment(probe: WaylandProbe) -> (out: Result<
    WaylandEnvironment,
    WaylandWlrError,
>)
    ensures
        match out {
            Ok(env) => {
                &&& probe.wayland_display matches Some(display) && env.wayland_display == display
                &&& probe.runtime_dir matches Some(dir) && env.runtime_dir == dir
                &&& probe.socket_exists
                &&& env.socket_path@ == path::join(env.runtime_dir@, env.wayland_display@)
                &&& probe.globals matches Ok(globals) && env.advertised_globals == globals
                &&& env.supports_wlr_output_management == manages_outputs(
                    text::texts(env.advertised_globals@),
                )
                &&& env.supports_portal_virtual_monitor == portal_offers(probe.portal)
                &&& env.capture_stack.pipewire_feature_enabled == probe.pipewire
                &&& env.capture_stack.portal_capture_ready == probe.pipewire
                &&& env.capture_stack.note@ == stack_note(probe.pipewire)
            },
            Err(err) => match (probe.wayland_display, probe.runtime_dir) {
                (None, _) => err is MissingWaylandDisplay,
                (Some(_), None) => err is MissingRuntimeDir,
                (Some(display), Some(dir)) => if !probe.socket_exists {
                    err matches WaylandWlrError::MissingSocket(path) && path@ == path::join(
                        dir@,
                        display@,
                    )
                } else {
                    probe.globals == Err::<Vec<String>, WaylandWlrError>(err)
                },
            },
        },
{
    let display: String = match probe.wayland_display {
        Some(display) => display,
        None => {
            return Err(WaylandWlrError::MissingWaylandDisplay);
        },
    };
    let dir: String = match probe.runtime_dir {
        Some(dir) => dir,
        None => {
            return Err(WaylandWlrError::MissingRuntimeDir);
        },
    };
    let socket: String = path::join_path(dir.as_str(), display.as_str());
    if !probe.socket_exists {
        return Err(WaylandWlrError::MissingSocket(socket));
    }
    let globals: Vec<String> = match probe.globals {
        Ok(globals) => globals,
        Err(err) => {
            return Err(err);
        },
    };
    let portal: bool = match detect_portal_virtual_monitor_support(&probe.portal) {
        Ok(yes) => yes,
        Err(_) => false,
    };
    let management: bool = announces_output_management(&globals);
    Ok(
        WaylandEnvironment {
            wayland_display: display,
            runtime_dir: dir,
            socket_path: socket,
            supports_wlr_output_management: management,
            supports_portal_virtual_monitor: portal,
            advertised_globals: globals,
            capture_stack: detect_capture_stack(probe.pipewire),
        },
    )
}

/// Accepts a session in which a virtual monitor can be made and captured.
pub fn check_start(env: &Result<WaylandEnvironment, WaylandWlrError>) -> (out: Result<
    (),
    WaylandWlrError,
>)
    ensures
        match *env {
            Ok(found) => if !found.supports_portal_virtual_monitor {
                out == Err::<(), WaylandWlrError>(WaylandWlrError::MissingPortalVirtualMonitor)
            } else if !found.capture_stack.pipewire_feature_enabled {
                out == Err::<(), WaylandWlrError>(WaylandWlrError::MissingPipeWireFeature)
            } else {
                out == Ok::<(), WaylandWlrError>(())
            },
            Err(err) => out == Err::<(), WaylandWlrError>(err),
        },
{
    match env {
        Ok(found) => {
            if !found.supports_portal_virtual_monitor {
                return Err(WaylandWlrError::MissingPortalVirtualMonitor);
            }
            if !found.capture_stack.pipewire_feature_enabled {
                return Err(WaylandWlrError::MissingPipeWireFeature);
            }
            Ok(())
        },
        Err(err) => Err(copy_error(err)),
    }
}

fn copy_error(err: &WaylandWlrError) -> (out: WaylandWlrError)
    ensures
        out == *err,
{
    match err {
        WaylandWlrError::MissingWaylandDisplay => WaylandWlrError::MissingWaylandDisplay,
        WaylandWlrError::MissingRuntimeDir => WaylandWlrError::MissingRuntimeDir,
        WaylandWlrError::MissingSocket(s) => WaylandWlrError::MissingSocket(s.clone()),
        WaylandWlrError::Connection(s) => WaylandWlrError::Connection(s.clone()),
        WaylandWlrError::Registry(s) => WaylandWlrError::Registry(s.clone()),
        WaylandWlrError::MissingWlrOutputManagement => WaylandWlrError::MissingWlrOutputManagement,
        WaylandWlrError::MissingPortalVirtualMonitor =>
            WaylandWlrError::MissingPortalVirtualMonitor,
        WaylandWlrError::MissingPipeWireFeature => WaylandWlrError::MissingPipeWireFeature,
        WaylandWlrError::PortalSession(s) => WaylandWlrError::PortalSession(s.clone()),
        WaylandWlrError::PortalReturnedNoStreams => WaylandWlrError::PortalReturnedNoStreams,
        WaylandWlrError::GStreamerUnavailable => WaylandWlrError::GStreamerUnavailable,
        WaylandWlrError::FrameWriteFailed(s) => WaylandWlrError::FrameWriteFailed(s.clone()),
        WaylandWlrError::CaptureSpawnFailed(s) => WaylandWlrError::CaptureSpawnFailed(s.clone()),
        WaylandWlrError::CapturePipelineFailed(s) =>
            WaylandWlrError::CapturePipelineFailed(s.clone()),
        WaylandWlrError::CaptureTimedOut => WaylandWlrError::CaptureTimedOut,
        WaylandWlrError::CaptureNotImplemented => WaylandWlrError::CaptureNotImplemented,
    }
}

/// Accepts a portal whose source types hold virtual monitors.
pub fn require_virtual_source(source_types: u32) -> (out: Result<(), WaylandWlrError>)
    ensures
        out == if offers_virtual(source_types) {
            Ok::<(), WaylandWlrError>(())
        } else {
            Err::<(), WaylandWlrError>(WaylandWlrError::MissingPortalVirtualMonitor)
        },
{
    if source_types & 4 != 0 {
        Ok(())
    } else {
        Err(WaylandWlrError::MissingPortalVirtualMonitor)
    }
}

/// Accepts a portal session that has a stream.
pub fn accept_streams(streams: Vec<PortalStreamInfo>) -> (out: Result<
    Vec<PortalStreamInfo>,
    WaylandWlrError,
>)
    ensures
        out == if streams@.len() == 0 {
            Err::<Vec<PortalStreamInfo>, WaylandWlrError>(WaylandWlrError::PortalReturnedNoStreams)
        } else {
            Ok::<Vec<PortalStreamInfo>, WaylandWlrError>(streams)
        },
{
    if streams.len() == 0 {
        Err(WaylandWlrError::PortalReturnedNoStreams)
    } else {
        Ok(streams)
    }
}

/// The descriptor that `gst-launch-1.0` finds the PipeWire connection at.
pub const GST_PIPEWIRE_FD: i32 = 198;

/// What a capture of a Wayland monitor begins with.
#[derive(Debug, Clone)]
pub enum GstPlan {
    /// No frame is wanted.
    Nothing,
    /// Run `gst-launch-1.0` with these arguments.
    Launch(Vec<String>),
}

/// The arguments that let `gst-launch-1.0` write `frames` frames of a stream to files.
pub open spec fn gst_args(node_id: u32, frames: nat, output_dir: Seq<char>) -> Seq<Seq<char>> {
    seq![
        "-q"@,
        "pipewiresrc"@,
        "fd="@ + number::decimal(198),
        "path="@ + number::decimal(node_id as nat),
        "num-buffers="@ + number::decimal(frames),
        "always-copy=true"@,
        "keepalive-time=100"@,
        "do-timestamp=true"@,
        "!"@,
        "videoconvert"@,
        "!"@,
        "video/x-raw,format=RGBA"@,
        "!"@,
        "pngenc"@,
        "snapshot=false"@,
        "!"@,
        "multifilesink"@,
        "location="@ + path::join(output_dir, "frame-%04d.png"@),
    ]
}

fn launch_args(node_id: u32, frames: usize, output_dir: &str) -> (args: Vec<String>)
    ensures
        text::texts(args@) == gst_args(node_id, frames as nat, output_dir@),
{
    let mut args: Vec<String> = text::no_texts();
    text::put_str(&mut args, "-q");
    text::put_str(&mut args, "pipewiresrc");
    text::put(&mut args, "fd=".to_owned().concat(number::decimal_text(198).as_str()));
    text::put(
        &mut args,
        "path=".to_owned().concat(number::decimal_text(node_id as u64).as_str()),
    );
    text::put(
        &mut args,
        "num-buffers=".to_owned().concat(number::decimal_text(frames as u64).as_str()),
    );
    text::put_str(&mut args, "always-copy=true");
    text::put_str(&mut args, "keepalive-time=100");
    text::put_str(&mut args, "do-timestamp=true");
    text::put_str(&mut args, "!");
    text::put_str(&mut args, "videoconvert");
    text::put_str(&mut args, "!");
    text::put_str(&mut args, "video/x-raw,format=RGBA");
    text::put_str(&mut args, "!");
    text::put_str(&mut args, "pngenc");
    text::put_str(&mut args, "snapshot=false");
    text::put_str(&mut args, "!");
    text::put_str(&mut args, "multifilesink");
    text::put(
        &mut args,
        "location=".to_owned().concat(path::join_path(output_dir, "frame-%04d.png").as_str()),
    );
    args
}

/// What a capture begins with: it takes its frames from the session's first stream.
pub fn plan_gstreamer(streams: &Vec<PortalStreamInfo>, capture: &CaptureConfig) -> (out: Result<
    GstPlan,
    WaylandWlrError,
>)
    ensures
        match out {
            Ok(GstPlan::Nothing) => capture.frames == 0,
            Ok(GstPlan::Launch(args)) => capture.frames > 0 && streams@.len() > 0 && text::texts(
                args@,
            ) == gst_args(streams@[0].node_id, capture.frames as nat, capture.output_dir@)
                && args@.len() == 18 && sets(
                args@[3]@,
                "path="@,
                streams@[0].node_id as int,
                u32::MAX as int,
            ) && sets(args@[4]@, "num-buffers="@, capture.frames as int, usize::MAX as int),
            Err(err) => capture.frames > 0 && streams@.len() == 0
                && err is PortalReturnedNoStreams,
        },
{
    if capture.frames == 0 {
        return Ok(GstPlan::Nothing);
    }
    if streams.len() == 0 {
        return Err(WaylandWlrError::PortalReturnedNoStreams);
    }
    let args: Vec<String> = launch_args(
        streams[0].node_id,
        capture.frames,
        capture.output_dir.as_str(),
    );
    proof {
        captures_take_the_stream(streams@[0].node_id, capture.frames, capture.output_dir@);
        assert(text::texts(args@)[3] == args@[3]@);
        assert(text::texts(args@)[4] == args@[4]@);
    }
    Ok(GstPlan::Launch(args))
}

/// Why `gst-launch-1.0` could not be run.
pub fn launch_failure(err: LaunchError) -> (out: WaylandWlrError)
    ensures
        out == if err.not_found {
            WaylandWlrError::GStreamerUnavailable
        } else {
            WaylandWlrError::CaptureSpawnFailed(err.message)
        },
{
    if err.not_found {
        WaylandWlrError::GStreamerUnavailable
    } else {
        WaylandWlrError::CaptureSpawnFailed(err.message)
    }
}

/// How the capture process fares.
#[derive(Debug, Clone)]
pub enum ChildState {
    /// It ended; `status` tells how, in words.
    Exited { success: bool, status: String },
    /// It is running.
    Running,
    /// Its state cannot be told.
    Unknown(String),
}

/// What to do about the capture process.
#[derive(Debug, Clone)]
pub enum ChildStep {
    /// Read its complaints and judge its end.
    Judge { success: bool, status: String },
    /// Stop it: its time is over.
    Kill,
    /// Look again after a pause.
    Wait,
    /// Give up.
    Fail(WaylandWlrError),
}

/// What to do about the capture process: a running one is stopped when its time is over.
pub fn watch_child(state: ChildState, deadline_passed: bool) -> (step: ChildStep)
    ensures
        step == match state {
            ChildState::Exited { success, status } => ChildStep::Judge { success, status },
            ChildState::Running => if deadline_passed {
                ChildStep::Kill
            } else {
                ChildStep::Wait
            },
            ChildState::Unknown(why) => ChildStep::Fail(WaylandWlrError::CaptureSpawnFailed(why)),
        },
{
    match state {
        ChildState::Exited { success, status } => ChildStep::Judge { success, status },
        ChildState::Running => if deadline_passed {
            ChildStep::Kill
        } else {
            ChildStep::Wait
        },
        ChildState::Unknown(why) => ChildStep::Fail(WaylandWlrError::CaptureSpawnFailed(why)),
    }
}

/// Judges the end of the capture process; its complaints are the error where it has any.
pub fn judge_exit(success: bool, status: &str, stderr: &str) -> (out: Result<(), WaylandWlrError>)
    ensures
        match out {
            Ok(()) => success,
            Err(WaylandWlrError::CapturePipelineFailed(why)) => !success && why@ == if text::trim(
                stderr@,
            ).len() == 0 {
                "gst-launch exited with status "@ + status@
            } else {
                text::trim(stderr@)
            },
            Err(_) => false,
        },
{
    if success {
        return Ok(());
    }
    let complaint: String = text::trimmed(stderr);
    if complaint.as_str().is_empty() {
        Err(
            WaylandWlrError::CapturePipelineFailed(
                "gst-launch exited with status ".to_owned().concat(status),
            ),
        )
    } else {
        Err(WaylandWlrError::CapturePipelineFailed(complaint))
    }
}

/// The error of a capture process that was stopped.
pub fn judge_kill(stderr: &str) -> (out: WaylandWlrError)
    ensures
        match out {
            WaylandWlrError::CapturePipelineFailed(why) => text::trim(stderr@).len() > 0 && why@
                == text::trim(stderr@),
            WaylandWlrError::CaptureTimedOut => text::trim(stderr@).len() == 0,
            _ => false,
        },
{
    let complaint: String = text::trimmed(stderr);
    if complaint.as_str().is_empty() {
        WaylandWlrError::CaptureTimedOut
    } else {
        WaylandWlrError::CapturePipelineFailed(complaint)
    }
}

/// Names of captured frames.
pub open spec fn frame_file() -> spec_fn(Seq<char>) -> bool {
    |name: Seq<char>| capture::is_frame_name(name)
}

/// The path of a file in `dir`.
pub open spec fn in_dir(dir: Seq<char>) -> spec_fn(Seq<char>) -> Seq<char> {
    |name: Seq<char>| path::join(dir, name)
}

/// `paths` are the captured frames among the files `names` of `dir`, in the order of their names.
pub open spec fn lists_frames(
    paths: Seq<Seq<char>>,
    dir: Seq<char>,
    names: Seq<Seq<char>>,
) -> bool {
    exists|sorted: Seq<Seq<char>>|
        {
            &&& sorting::texts_ascending(sorted)
            &&& sorted.to_multiset() == listing::select(names, frame_file()).to_multiset()
            &&& paths == #[trigger] listing::each(sorted, in_dir(dir))
        }
}

/// The names of captured frames, in the order of `names`.
pub fn frame_names(names: &Vec<String>) -> (out: Vec<String>)
    ensures
        text::texts(out@) == listing::select(text::texts(names@), frame_file()),
{
    let ghost all = text::texts(names@);
    let mut out: Vec<String> = text::no_texts();
    let mut i: usize = 0;
    assert(text::texts(out@) =~= listing::select(all.take(0), frame_file()));
    while i < names.len()
        invariant
            all == text::texts(names@),
            i <= names.len(),
            text::texts(out@) == listing::select(all.take(i as int), frame_file()),
        decreases names.len() - i,
    {
        let name: &str = names[i].as_str();
        assert(all.take(i + 1).drop_last() =~= all.take(i as int));
        assert(all.take(i + 1).last() == name@);
        if capture::is_frame_file(name) {
            text::put_str(&mut out, name);
        }
        i = i + 1;
    }
    assert(all.take(names@.len() as int) =~= all);
    out
}

/// The frames that a capture left in `output_dir`, which holds files of these names.
pub fn captured_frames(output_dir: &str, names: &Vec<String>) -> (out: Result<
    Vec<String>,
    WaylandWlrError,
>)
    ensures
        match out {
            Ok(paths) => paths@.len() > 0 && lists_frames(
                text::texts(paths@),
                output_dir@,
                text::texts(names@),
            ),
            Err(err) => err is CaptureTimedOut && listing::select(
                text::texts(names@),
                frame_file(),
            ).len() == 0,
        },
{
    let found: Vec<String> = frame_names(names);
    let ghost chosen = listing::select(text::texts(names@), frame_file());
    assert(chosen.len() == found@.len());
    if found.len() == 0 {
        return Err(WaylandWlrError::CaptureTimedOut);
    }
    let sorted: Vec<String> = sorting::sort_texts(&found);
    let ghost order = text::texts(sorted@);
    let mut paths: Vec<String> = text::no_texts();
    let mut i: usize = 0;
    assert(text::texts(paths@) =~= listing::each(order.take(0), in_dir(output_dir@)));
    while i < sorted.len()
        invariant
            order == text::texts(sorted@),
            i <= sorted.len(),
            text::texts(paths@) == listing::each(order.take(i as int), in_dir(output_dir@)),
        decreases sorted.len() - i,
    {
        text::put(&mut paths, path::join_path(output_dir, sorted[i].as_str()));
        assert(order[i as int] == sorted@[i as int]@);
        assert(text::texts(paths@) =~= listing::each(order.take(i + 1), in_dir(output_dir@)));
        i = i + 1;
    }
    proof {
        assert(order.take(sorted@.len() as int) =~= order);
        order.to_multiset_ensures();
        chosen.to_multiset_ensures();
        assert(text::texts(paths@).len() == paths@.len());
    }
    Ok(paths)
}

/// `path` is that of a captured frame among the files `names` of `dir`, the one called `name`.
pub open spec fn is_frame_of(
    path: Seq<char>,
    dir: Seq<char>,
    names: Seq<Seq<char>>,
    name: Seq<char>,
) -> bool {
    names.contains(name) && capture::is_frame_name(name) && path == path::join(dir, name)
}

/// The frames that a capture left are all listed, and nothing else is: a path is listed exactly
/// where it is that of a file with the name of a captured frame.
pub proof fn captured_frames_are_listed(
    paths: Seq<Seq<char>>,
    dir: Seq<char>,
    names: Seq<Seq<char>>,
)
    requires
        lists_frames(paths, dir, names),
    ensures
        forall|name: Seq<char>|
            names.contains(name) && #[trigger] capture::is_frame_name(name) ==> paths.contains(
                path::join(dir, name),
            ),
        forall|path: Seq<char>| #[trigger]
            paths.contains(path) ==> exists|name: Seq<char>|
                is_frame_of(path, dir, names, name),
{
    let chosen = listing::select(names, frame_file());
    let sorted = choose|sorted: Seq<Seq<char>>|
        {
            &&& sorting::texts_ascending(sorted)
            &&& sorted.to_multiset() == chosen.to_multiset()
            &&& paths == #[trigger] listing::each(sorted, in_dir(dir))
        };
    listing::lemma_select(names, frame_file());
    sorted.to_multiset_ensures();
    chosen.to_multiset_ensures();
    assert forall|name: Seq<char>|
        names.contains(name) && #[trigger] capture::is_frame_name(name) implies paths.contains(
        path::join(dir, name),
    ) by {
        let k = choose|k: int| 0 <= k < names.len() && names[k] == name;
        assert(frame_file()(names[k]));
        assert(chosen.contains(name));
        assert(sorted.to_multiset().count(name) > 0);
        let i = choose|i: int| 0 <= i < sorted.len() && sorted[i] == name;
        assert(paths[i] == path::join(dir, name));
    }
    assert forall|path: Seq<char>| #[trigger] paths.contains(path) implies exists|name: Seq<char>|
        is_frame_of(path, dir, names, name) by {
        let i = choose|i: int| 0 <= i < paths.len() && paths[i] == path;
        let name = sorted[i];
        assert(sorted.contains(name));
        assert(chosen.to_multiset().count(name) > 0);
        let k = choose|k: int| 0 <= k < chosen.len() && chosen[k] == name;
        assert(frame_file()(chosen[k]));
        assert(is_frame_of(path, dir, names, name));
    }
}

/// How `{:?}` writes a text: in quotes, with escapes.
pub uninterp spec fn debug_text(s: Seq<char>) -> Seq<char>;

/// Calls the `Debug` formatting of `str`. What it writes depends on the text alone.
#[verifier::external_body]
fn debug_quoted(s: &str) -> (out: String)
    ensures
        out@ == debug_text(s@),
{
    format!("{s:?}")
}

/// An optional text that is already written out.
pub open spec fn optional(s: Option<Seq<char>>) -> Seq<char> {
    match s {
        Some(inner) => "Some("@ + inner + ")"@,
        None => "None"@,
    }
}

/// A pair of numbers in words.
pub open spec fn pair(p: Option<(i32, i32)>) -> Option<Seq<char>> {
    match p {
        Some((a, b)) => Some(
            "("@ + number::signed_decimal(a as int) + ", "@ + number::signed_decimal(b as int)
                + ")"@,
        ),
        None => None,
    }
}

/// A text that is already quoted, where there is one.
pub open spec fn quoted(s: Option<String>) -> Option<Seq<char>> {
    match s {
        Some(t) => Some(debug_text(t@)),
        None => None,
    }
}

/// A stream in words.
pub open spec fn stream_summary(stream: PortalStreamInfo) -> Seq<char> {
    "node_id="@ + number::decimal(stream.node_id as nat) + " id="@ + optional(quoted(stream.id))
        + " mapping_id="@ + optional(quoted(stream.mapping_id)) + " position="@ + optional(
        pair(stream.position),
    ) + " size="@ + optional(pair(stream.size)) + " source_type="@ + optional(
        match stream.source_type {
            Some(kind) => Some(number::decimal(kind as nat)),
            None => None,
        },
    )
}

/// The streams in words.
pub open spec fn stream_summaries(streams: Seq<PortalStreamInfo>) -> Seq<Seq<char>> {
    Seq::new(streams.len(), |i: int| stream_summary(streams[i]))
}

fn optional_text(s: Option<String>) -> (out: String)
    ensures
        out@ == optional(text::opt_text(s)),
{
    match s {
        Some(inner) => {
            let mut out: String = "Some(".to_owned();
            out.append(inner.as_str());
            out.append(")");
            out
        },
        None => "None".to_owned(),
    }
}

fn pair_text(p: Option<(i32, i32)>) -> (out: Option<String>)
    ensures
        text::opt_text(out) == pair(p),
{
    match p {
        Some((a, b)) => {
            let mut out: String = "(".to_owned();
            out.append(number::signed_text(a).as_str());
            out.append(", ");
            out.append(number::signed_text(b).as_str());
            out.append(")");
            Some(out)
        },
        None => None,
    }
}

fn quoted_text(s: &Option<String>) -> (out: Option<String>)
    ensures
        text::opt_text(out) == quoted(*s),
{
    match s {
        Some(t) => Some(debug_quoted(t.as_str())),
        None => None,
    }
}

/// A stream in words, its texts already quoted.
pub fn describe_stream(
    stream: &PortalStreamInfo,
    quoted_id: Option<String>,
    quoted_mapping_id: Option<String>,
) -> (out: String)
    ensures
        out@ == "node_id="@ + number::decimal(stream.node_id as nat) + " id="@ + optional(
            text::opt_text(quoted_id),
        ) + " mapping_id="@ + optional(text::opt_text(quoted_mapping_id)) + " position="@
            + optional(pair(stream.position)) + " size="@ + optional(pair(stream.size))
            + " source_type="@ + optional(
            match stream.source_type {
                Some(kind) => Some(number::decimal(kind as nat)),
                None => None,
            },
        ),
{
    let mut out: String = "node_id=".to_owned();
    out.append(number::decimal_text(stream.node_id as u64).as_str());
    out.append(" id=");
    out.append(optional_text(quoted_id).as_str());
    out.append(" mapping_id=");
    out.append(optional_text(quoted_mapping_id).as_str());
    out.append(" position=");
    out.append(optional_text(pair_text(stream.position)).as_str());
    out.append(" size=");
    out.append(optional_text(pair_text(stream.size)).as_str());
    out.append(" source_type=");
    let kind: Option<String> = match stream.source_type {
        Some(kind) => Some(number::decimal_text(kind as u64)),
        None => None,
    };
    out.append(optional_text(kind).as_str());
    out
}

/// A requested display in words.
pub open spec fn requested(config: DisplayConfig) -> Seq<char> {
    number::decimal(config.width as nat) + "x"@ + number::decimal(config.height as nat) + "@"@
        + number::decimal(config.refresh_hz as nat)
}

fn requested_text(config: &DisplayConfig) -> (out: String)
    ensures
        out@ == requested(*config),
{
    let mut out: String = number::decimal_text(config.width as u64);
    out.append("x");
    out.append(number::decimal_text(config.height as u64).as_str());
    out.append("@");
    out.append(number::decimal_text(config.refresh_hz as u64).as_str());
    out
}

impl WaylandWlrBackend {
    /// The backend in words.
    pub open spec fn summary(self) -> Seq<char> {
        match self.streams {
            Some(streams) => "Wayland virtual monitor session active; requested="@ + requested(
                self.config,
            ) + "; streams=["@ + text::join(stream_summaries(streams@), "; "@) + "]"@,
            None => "Wayland virtual monitor backend selected for "@ + requested(self.config)
                + ", but the portal capture feature is not compiled in"@,
        }
    }

    /// A backend whose portal session has these streams, after the checks of its start.
    pub fn start(
        config: DisplayConfig,
        env: &Result<WaylandEnvironment, WaylandWlrError>,
        session: Result<Vec<PortalStreamInfo>, WaylandWlrError>,
    ) -> (out: Result<WaylandWlrBackend, WaylandWlrError>)
        ensures
            match *env {
                Ok(found) => if !found.supports_portal_virtual_monitor {
                    out matches Err(err) && err is MissingPortalVirtualMonitor
                } else if !found.capture_stack.pipewire_feature_enabled {
                    out matches Err(err) && err is MissingPipeWireFeature
                } else {
                    match session {
                        Ok(streams) => if streams@.len() == 0 {
                            out matches Err(err) && err is PortalReturnedNoStreams
                        } else {
                            out == Ok::<WaylandWlrBackend, WaylandWlrError>(
                                WaylandWlrBackend { config, streams: Some(streams) },
                            )
                        },
                        Err(err) => out == Err::<WaylandWlrBackend, WaylandWlrError>(err),
                    }
                },
                Err(err) => out == Err::<WaylandWlrBackend, WaylandWlrError>(err),
            },
    {
        match check_start(env) {
            Ok(()) => match session {
                Ok(streams) => match accept_streams(streams) {
                    Ok(accepted) => Ok(WaylandWlrBackend { config, streams: Some(accepted) }),
                    Err(err) => Err(err),
                },
                Err(err) => Err(err),
            },
            Err(err) => Err(err),
        }
    }

    /// What a capture begins with.
    pub fn capture_frames_to_png(&self, capture: &CaptureConfig) -> (out: Result<
        GstPlan,
        WaylandWlrError,
    >)
        ensures
            match self.streams {
                Some(streams) => match out {
                    Ok(GstPlan::Nothing) => capture.frames == 0,
                    Ok(GstPlan::Launch(args)) => capture.frames > 0 && streams@.len() > 0
                        && text::texts(args@) == gst_args(
                        streams@[0].node_id,
                        capture.frames as nat,
                        capture.output_dir@,
                    ) && args@.len() == 18 && sets(
                        args@[3]@,
                        "path="@,
                        streams@[0].node_id as int,
                        u32::MAX as int,
                    ) && sets(
                        args@[4]@,
                        "num-buffers="@,
                        capture.frames as int,
                        usize::MAX as int,
                    ),
                    Err(err) => capture.frames > 0 && streams@.len() == 0
                        && err is PortalReturnedNoStreams,
                },
                None => out matches Err(err) && err is CaptureNotImplemented,
            },
    {
        match &self.streams {
            Some(streams) => plan_gstreamer(streams, capture),
            None => Err(WaylandWlrError::CaptureNotImplemented),
        }
    }

    /// Whether frames can be captured.
    pub fn capture_readiness(&self) -> (out: CaptureReadiness)
        ensures
            match out {
                CaptureReadiness::Ready => self.streams is Some,
                CaptureReadiness::Pending(why) => self.streams is None && why@
                    == "virtual monitor creation requires the wayland-pipewire feature for capture wiring"@,
            },
    {
        match &self.streams {
            Some(_) => CaptureReadiness::Ready,
            None => CaptureReadiness::Pending(
                "virtual monitor creation requires the wayland-pipewire feature for capture wiring".to_owned(),
            ),
        }
    }

    /// The backend in words.
    pub fn external_monitor_summary(&self) -> (out: String)
        ensures
            out@ == self.summary(),
    {
        match &self.streams {
            Some(streams) => {
                let mut list: Vec<String> = text::no_texts();
                let ghost wanted = stream_summaries(streams@);
                let mut i: usize = 0;
                assert(text::texts(list@) =~= wanted.take(0));
                while i < streams.len()
                    invariant
                        wanted == stream_summaries(streams@),
                        i <= streams.len(),
                        text::texts(list@) == wanted.take(i as int),
                    decreases streams.len() - i,
                {
                    let id: Option<String> = quoted_text(&streams[i].id);
                    let mapping: Option<String> = quoted_text(&streams[i].mapping_id);
                    text::put(&mut list, describe_stream(&streams[i], id, mapping));
                    assert(wanted[i as int] == stream_summary(streams@[i as int]));
                    assert(text::texts(list@) =~= wanted.take(i + 1));
                    i = i + 1;
                }
                assert(wanted.take(streams@.len() as int) =~= wanted);
                let mut out: String =
                    "Wayland virtual monitor session active; requested=".to_owned();
                out.append(requested_text(&self.config).as_str());
                out.append("; streams=[");
                out.append(text::joined(&list, "; ").as_str());
                out.append("]");
                out
            },
            None => {
                let mut out: String = "Wayland virtual monitor backend selected for ".to_owned();
                out.append(requested_text(&self.config).as_str());
                out.append(", but the portal capture feature is not compiled in");
                out
            },
        }
    }
}

proof fn lemma_setting(name: Seq<char>, n: nat, limit: int)
    requires
        n <= limit,
    ensures
        text::has_prefix(name + number::decimal(n), name),
        number::unsigned_value((name + number::decimal(n)).skip(name.len() as int), limit) == Ok::<
            int,
            number::NumberError,
        >(n as int),
{
    text::parts_are_found(name, number::decimal(n));
    number::decimal_reads_back(n, limit);
}

/// The text after `name` reads back as `n`.
pub open spec fn sets(argument: Seq<char>, name: Seq<char>, n: int, limit: int) -> bool {
    text::has_prefix(argument, name) && number::unsigned_value(
        argument.skip(name.len() as int),
        limit,
    ) == Ok::<int, number::NumberError>(n)
}

/// A capture takes the stream, the connection and the number of frames that it is told: the
/// arguments of `pipewiresrc` read back as the descriptor, as the stream's node and as the number
/// of frames.
pub proof fn captures_take_the_stream(node_id: u32, frames: usize, output_dir: Seq<char>)
    ensures
        gst_args(node_id, frames as nat, output_dir).len() == 18,
        gst_args(node_id, frames as nat, output_dir)[1] == "pipewiresrc"@,
        sets(
            gst_args(node_id, frames as nat, output_dir)[2],
            "fd="@,
            GST_PIPEWIRE_FD as int,
            i32::MAX as int,
        ),
        sets(
            gst_args(node_id, frames as nat, output_dir)[3],
            "path="@,
            node_id as int,
            u32::MAX as int,
        ),
        sets(
            gst_args(node_id, frames as nat, output_dir)[4],
            "num-buffers="@,
            frames as int,
            usize::MAX as int,
        ),
{
    lemma_setting("fd="@, 198, i32::MAX as int);
    lemma_setting("path="@, node_id as nat, u32::MAX as int);
    lemma_setting("num-buffers="@, frames as nat, usize::MAX as int);
}

/// The text after `name` is the path `file`.
pub open spec fn sets_path(argument: Seq<char>, name: Seq<char>, file: Seq<char>) -> bool {
    text::has_prefix(argument, name) && argument.skip(name.len() as int) == file
}

proof fn lemma_path_setting(name: Seq<char>, file: Seq<char>)
    ensures
        sets_path(name + file, name, file),
{
    text::parts_are_found(name, file);
}

/// A capture writes its frames as pictures to numbered files of the directory that it is told.
pub proof fn captures_write_to_the_directory(node_id: u32, frames: nat, output_dir: Seq<char>)
    ensures
        gst_args(node_id, frames, output_dir)[13] == "pngenc"@,
        gst_args(node_id, frames, output_dir)[16] == "multifilesink"@,
        sets_path(
            gst_args(node_id, frames, output_dir)[17],
            "location="@,
            path::join(output_dir, "frame-%04d.png"@),
        ),
{
    lemma_path_setting("location="@, path::join(output_dir, "frame-%04d.png"@));
}

/// Captures of different streams have different arguments, and so have captures of different
/// numbers of frames; nothing but these and the directory makes a difference.
pub proof fn captures_are_told_apart(
    node_id: u32,
    other_node_id: u32,
    frames: nat,
    other_frames: nat,
    dir: Seq<char>,
    other_dir: Seq<char>,
)
    ensures
        ({
            let one = gst_args(node_id, frames, dir);
            let other = gst_args(other_node_id, other_frames, other_dir);
            &&& one.len() == other.len()
            &&& one[3] == other[3] <==> node_id == other_node_id
            &&& one[4] == other[4] <==> frames == other_frames
            &&& forall|i: int|
                0 <= i < 17 && i != 3 && i != 4 ==> #[trigger] one[i] == other[i]
        }),
{
    text::parts_are_found("path="@, number::decimal(node_id as nat));
    text::parts_are_found("path="@, number::decimal(other_node_id as nat));
    text::parts_are_found("num-buffers="@, number::decimal(frames));
    text::parts_are_found("num-buffers="@, number::decimal(other_frames));
    let one = gst_args(node_id, frames, dir);
    let other = gst_args(other_node_id, other_frames, other_dir);
    if one[3] == other[3] {
        number::decimals_tell_numbers_apart(node_id as nat, other_node_id as nat);
    }
    if one[4] == other[4] {
        number::decimals_tell_numbers_apart(frames, other_frames);
    }
}

/// Of a portal's source types the third bit tells whether it offers virtual monitors, whatever the
/// others are.
pub proof fn virtual_monitors_are_the_third_bit(source_types: u32)
    ensures
        offers_virtual(source_types) <==> (source_types / 4) % 2 == 1,
{
    assert((source_types & 4 != 0) <==> (source_types / 4) % 2 == 1) by (bit_vector);
}

/// The portal's answer is read whatever number it holds: `u`, a space and the number, and then
/// nothing or white space. Any other type code means that nothing is offered.
pub proof fn portal_answers_are_read(source_types: u32, code: Seq<char>, rest: Seq<char>)
    requires
        text::is_word(code),
        text::is_blank(rest),
    ensures
        portal_answer(
            "u"@ + " "@ + (number::decimal(source_types as nat) + rest),
        ) == Ok::<bool, number::NumberError>((source_types / 4) % 2 == 1),
        code != "u"@ ==> portal_answer(code + " "@ + rest) == Ok::<bool, number::NumberError>(
            false,
        ),
        portal_answer(rest) == Ok::<bool, number::NumberError>(false),
{
    let digits = number::decimal(source_types as nat);
    reveal_strlit("u");
    number::decimal_is_digits(source_types as nat);
    number::decimal_reads_back(source_types as nat, u32::MAX as int);
    assert forall|i: int| 0 <= i < digits.len() implies !text::is_space(#[trigger] digits[i]) by {
        assert(text::is_digit(digits[i]));
    }
    assert(text::is_word(digits));
    assert(text::is_word("u"@));
    text::words_are_fields("u"@, digits + rest);
    if rest.len() > 0 {
        assert(text::is_space(rest[0]));
    }
    text::fields_begin_with_words(digits, rest);
    text::words_are_fields(code, rest);
    text::leading_space_is_skipped(rest, Seq::empty());
    assert(rest + Seq::<char>::empty() =~= rest);
    assert(text::fields(Seq::<char>::empty()).len() == 0);
    let all = text::fields("u"@ + " "@ + (digits + rest));
    assert(all =~= seq!["u"@] + (seq![digits] + text::fields(rest)));
    assert(all[0] == "u"@);
    assert(all[1] == digits);
    virtual_monitors_are_the_third_bit(source_types);
    let other = text::fields(code + " "@ + rest);
    assert(other[0] == code);
}

/// A compositor manages outputs exactly where it announces `zwlr_output_manager_v1`, wherever
/// among its globals.
pub proof fn output_management_is_announced(globals: Seq<Seq<char>>)
    ensures
        manages_outputs(globals) <==> globals.contains("zwlr_output_manager_v1"@),
{
    if globals.contains("zwlr_output_manager_v1"@) {
        let i = choose|i: int|
            0 <= i < globals.len() && globals[i] == "zwlr_output_manager_v1"@;
        assert(globals[i] == "zwlr_output_manager_v1"@);
    }
}

/// A portal that could not be asked offers nothing, and so does one whose answer is a failure.
pub proof fn failed_portals_offer_nothing(failure: String, done: CommandOutput)
    ensures
        !portal_offers(Err(failure)),
        !done.success ==> !portal_offers(Ok(done)),
        done.success ==> (portal_offers(Ok(done)) <==> portal_answer(done.printed()) == Ok::<
            bool,
            number::NumberError,
        >(true)),
{
}

proof fn lemma_six_parts(
    told: Seq<char>,
    a: Seq<char>,
    b: Seq<char>,
    c: Seq<char>,
    d: Seq<char>,
    e: Seq<char>,
    f: Seq<char>,
)
    requires
        told == a + b + c + d + e + f,
    ensures
        text::contains(told, b),
        text::contains(told, c),
        text::contains(told, d),
        text::contains(told, e),
        text::contains(told, f),
{
    assert(told =~= a + b + (c + d + e + f));
    text::middle_is_found(a, b, c + d + e + f);
    assert(told =~= (a + b) + c + (d + e + f));
    text::middle_is_found(a + b, c, d + e + f);
    assert(told =~= (a + b + c) + d + (e + f));
    text::middle_is_found(a + b + c, d, e + f);
    text::middle_is_found(a + b + c + d, e, f);
    text::parts_are_found(a + b + c + d + e, f);
}

proof fn lemma_summary_parts(
    a: Seq<char>,
    b: Seq<char>,
    c: Seq<char>,
    d: Seq<char>,
    e: Seq<char>,
    f: Seq<char>,
    g: Seq<char>,
    h: Seq<char>,
    i: Seq<char>,
    j: Seq<char>,
    k: Seq<char>,
)
    ensures
        a + b + c + d + e + f + g + h + i + j + k == a + (b + c) + (d + e) + (f + g) + (h + i) + (j
            + k),
        text::has_prefix(a + b + c + d + e + f + g + h + i + j + k, a + b),
{
    let all = a + b + c + d + e + f + g + h + i + j + k;
    assert(all =~= a + (b + c) + (d + e) + (f + g) + (h + i) + (j + k));
    assert(all =~= (a + b) + (c + d + e + f + g + h + i + j + k));
    text::parts_are_found(a + b, c + d + e + f + g + h + i + j + k);
}

/// A stream in words begins with its node, and tells its ids, its place, its size and its source
/// type, as far as they are known.
pub proof fn streams_are_told(stream: PortalStreamInfo)
    ensures
        ({
            let told = stream_summary(stream);
            let node = number::decimal(stream.node_id as nat);
            &&& text::has_prefix(told, "node_id="@ + node + " id="@)
            &&& stream.id matches Some(id) ==> text::contains(
                told,
                " id="@ + ("Some("@ + debug_text(id@) + ")"@),
            )
            &&& stream.id is None ==> text::contains(told, " id="@ + "None"@)
            &&& stream.mapping_id matches Some(id) ==> text::contains(
                told,
                " mapping_id="@ + ("Some("@ + debug_text(id@) + ")"@),
            )
            &&& stream.mapping_id is None ==> text::contains(told, " mapping_id="@ + "None"@)
            &&& stream.position matches Some((x, y)) ==> text::contains(
                told,
                " position="@ + ("Some("@ + ("("@ + number::signed_decimal(x as int) + ", "@
                    + number::signed_decimal(y as int) + ")"@) + ")"@),
            )
            &&& stream.position is None ==> text::contains(told, " position="@ + "None"@)
            &&& stream.size matches Some((width, height)) ==> text::contains(
                told,
                " size="@ + ("Some("@ + ("("@ + number::signed_decimal(width as int) + ", "@
                    + number::signed_decimal(height as int) + ")"@) + ")"@),
            )
            &&& stream.size is None ==> text::contains(told, " size="@ + "None"@)
            &&& stream.source_type matches Some(kind) ==> text::contains(
                told,
                " source_type="@ + ("Some("@ + number::decimal(kind as nat) + ")"@),
            )
            &&& stream.source_type is None ==> text::contains(told, " source_type="@ + "None"@)
        }),
{
    let told = stream_summary(stream);
    let node = number::decimal(stream.node_id as nat);
    let id = " id="@ + optional(quoted(stream.id));
    let mapping = " mapping_id="@ + optional(quoted(stream.mapping_id));
    let position = " position="@ + optional(pair(stream.position));
    let size = " size="@ + optional(pair(stream.size));
    let kind = " source_type="@ + optional(
        match stream.source_type {
            Some(kind) => Some(number::decimal(kind as nat)),
            None => None,
        },
    );
    lemma_summary_parts(
        "node_id="@ + node,
        " id="@,
        optional(quoted(stream.id)),
        " mapping_id="@,
        optional(quoted(stream.mapping_id)),
        " position="@,
        optional(pair(stream.position)),
        " size="@,
        optional(pair(stream.size)),
        " source_type="@,
        optional(
            match stream.source_type {
                Some(kind) => Some(number::decimal(kind as nat)),
                None => None,
            },
        ),
    );
    lemma_six_parts(told, "node_id="@ + node, id, mapping, position, size, kind);
}

/// A backend in words tells the width, the height and the rate that were asked for, and every
/// stream of its session.
pub proof fn summaries_tell_what_was_asked_for(backend: WaylandWlrBackend, stream: PortalStreamInfo)
    ensures
        ({
            let asked = number::decimal(backend.config.width as nat) + "x"@ + number::decimal(
                backend.config.height as nat,
            ) + "@"@ + number::decimal(backend.config.refresh_hz as nat);
            &&& requested(backend.config) == asked
            &&& text::contains(backend.summary(), asked)
            &&& backend.streams matches Some(streams) ==> text::has_suffix(
                backend.summary(),
                "; streams=["@ + text::join(stream_summaries(streams@), "; "@) + "]"@,
            ) && (streams@ == seq![stream] ==> text::has_suffix(
                backend.summary(),
                "; streams=["@ + stream_summary(stream) + "]"@,
            ))
        }),
{
    let asked = requested(backend.config);
    match backend.streams {
        Some(streams) => {
            let list = "; streams=["@ + text::join(stream_summaries(streams@), "; "@) + "]"@;
            let head = "Wayland virtual monitor session active; requested="@;
            assert(backend.summary() =~= head + asked + list);
            text::middle_is_found(head, asked, list);
            text::parts_are_found(head + asked, list);
            if streams@ == seq![stream] {
                assert(stream_summaries(streams@)[0] == stream_summary(stream));
            }
        },
        None => {
            let head = "Wayland virtual monitor backend selected for "@;
            let tail = ", but the portal capture feature is not compiled in"@;
            assert(backend.summary() =~= head + asked + tail);
            text::middle_is_found(head, asked, tail);
        },
    }
}

/// Every stream of a session is told, in the order of the streams.
pub proof fn every_stream_is_told(streams: Seq<PortalStreamInfo>, stream: PortalStreamInfo)
    ensures
        stream_summaries(streams.push(stream)) == stream_summaries(streams).push(
            stream_summary(stream),
        ),
        stream_summaries(Seq::empty()) == Seq::<Seq<char>>::empty(),
{
    assert(stream_summaries(streams.push(stream)) =~= stream_summaries(streams).push(
        stream_summary(stream),
    ));
    assert(stream_summaries(Seq::empty()) =~= Seq::<Seq<char>>::empty());
}

/// An error in words ends with the reason, or the path, that it carries.
pub proof fn errors_tell_their_reason(err: WaylandWlrError)
    ensures
        match err {
            WaylandWlrError::MissingSocket(why)
            | WaylandWlrError::Connection(why)
            | WaylandWlrError::Registry(why)
            | WaylandWlrError::PortalSession(why)
            | WaylandWlrError::FrameWriteFailed(why)
            | WaylandWlrError::CaptureSpawnFailed(why)
            | WaylandWlrError::CapturePipelineFailed(why) => text::has_suffix(err.text(), why@),
            _ => true,
        },
{
    match err {
        WaylandWlrError::MissingSocket(why) => text::parts_are_found(
            "Wayland compositor socket does not exist at "@,
            why@,
        ),
        WaylandWlrError::Connection(why) => text::parts_are_found(
            "failed to connect to Wayland compositor: "@,
            why@,
        ),
        WaylandWlrError::Registry(why) => text::parts_are_found(
            "failed to inspect Wayland globals: "@,
            why@,
        ),
        WaylandWlrError::PortalSession(why) => text::parts_are_found(
            "failed to start Wayland ScreenCast portal session: "@,
            why@,
        ),
        WaylandWlrError::FrameWriteFailed(why) => text::parts_are_found(
            "failed to create Wayland capture output directory: "@,
            why@,
        ),
        WaylandWlrError::CaptureSpawnFailed(why) => text::parts_are_found(
            "Wayland PipeWire capture process failed: "@,
            why@,
        ),
        WaylandWlrError::CapturePipelineFailed(why) => text::parts_are_found(
            "Wayland PipeWire capture pipeline failed: "@,
            why@,
        ),
        _ => {},
    }
}

/// The frames that a capture left are listed in the order in which they were captured, as far as
/// they are the first ten thousand, and each as often as its file is there.
pub proof fn captured_frames_are_in_order(
    paths: Seq<Seq<char>>,
    dir: Seq<char>,
    names: Seq<Seq<char>>,
    i: int,
    j: int,
    one: nat,
    other: nat,
)
    requires
        lists_frames(paths, dir, names),
        0 <= i < paths.len(),
        0 <= j < paths.len(),
        paths[i] == path::join(dir, capture::frame_name(one)),
        paths[j] == path::join(dir, capture::frame_name(other)),
        one < other < 10000,
    ensures
        i < j,
        paths.len() == listing::select(names, frame_file()).len(),
{
    let chosen = listing::select(names, frame_file());
    let sorted = choose|sorted: Seq<Seq<char>>|
        {
            &&& sorting::texts_ascending(sorted)
            &&& sorted.to_multiset() == chosen.to_multiset()
            &&& paths == #[trigger] listing::each(sorted, in_dir(dir))
        };
    listing::lemma_select(names, frame_file());
    sorted.to_multiset_ensures();
    chosen.to_multiset_ensures();
    assert(paths[i] == path::join(dir, sorted[i]));
    assert(paths[j] == path::join(dir, sorted[j]));
    lemma_chosen(chosen, sorted, names, i);
    lemma_chosen(chosen, sorted, names, j);
    capture::frame_names_are_recognised(one);
    capture::frame_names_are_recognised(other);
    lemma_frame_joined(dir, sorted[i], capture::frame_name(one));
    lemma_frame_joined(dir, sorted[j], capture::frame_name(other));
    capture::frame_names_are_in_order(one, other);
    if j < i {
        assert(sorting::text_le(sorted[j], sorted[i]));
    }
    if i == j {
        capture::frames_have_files_of_their_own(one, other);
    }
}

proof fn lemma_chosen(
    chosen: Seq<Seq<char>>,
    sorted: Seq<Seq<char>>,
    names: Seq<Seq<char>>,
    i: int,
)
    requires
        chosen == listing::select(names, frame_file()),
        sorted.to_multiset() == chosen.to_multiset(),
        0 <= i < sorted.len(),
    ensures
        capture::is_frame_name(sorted[i]),
{
    listing::lemma_select(names, frame_file());
    sorted.to_multiset_ensures();
    chosen.to_multiset_ensures();
    assert(sorted.contains(sorted[i]));
    assert(chosen.to_multiset().count(sorted[i]) > 0);
    let k = choose|k: int| 0 <= k < chosen.len() && chosen[k] == sorted[i];
    assert(frame_file()(chosen[k]));
}

proof fn lemma_frame_joined(dir: Seq<char>, a: Seq<char>, b: Seq<char>)
    requires
        capture::is_frame_name(a),
        capture::is_frame_name(b),
        path::join(dir, a) == path::join(dir, b),
    ensures
        a == b,
{
    assert("frame-"@.len() == 6 && "frame-"@[0] == 'f') by {
        reveal_strlit("frame-");
    }
    assert(a.subrange(0, 6)[0] == 'f');
    assert(b.subrange(0, 6)[0] == 'f');
    text::parts_are_found(dir, a);
    text::parts_are_found(dir, b);
    text::parts_are_found(dir + "/"@, a);
    text::parts_are_found(dir + "/"@, b);
}

/// A capture takes the frames that are wanted from the first stream of the session, whichever
/// streams follow it, and writes them where it is told.
pub proof fn captures_take_the_first_stream(
    streams: Vec<PortalStreamInfo>,
    capture: CaptureConfig,
    out: Result<GstPlan, WaylandWlrError>,
)
    requires
        capture.frames > 0,
        streams@.len() > 0,
        call_ensures(plan_gstreamer, (&streams, &capture), out),
    ensures
        out matches Ok(GstPlan::Launch(args)) && args@.len() == 18 && sets(
            args@[3]@,
            "path="@,
            streams@[0].node_id as int,
            u32::MAX as int,
        ) && sets(args@[4]@, "num-buffers="@, capture.frames as int, usize::MAX as int)
            && sets_path(
            args@[17]@,
            "location="@,
            path::join(capture.output_dir@, "frame-%04d.png"@),
        ),
{
    captures_take_the_stream(streams@[0].node_id, capture.frames, capture.output_dir@);
    captures_write_to_the_directory(
        streams@[0].node_id,
        capture.frames as nat,
        capture.output_dir@,
    );
    if let Ok(GstPlan::Launch(args)) = out {
        let held = text::texts(args@);
        assert(held[3] == args@[3]@ && held[4] == args@[4]@ && held[17] == args@[17]@);
    }
}

/// A running capture is stopped exactly when its time is over; one that ended is judged by how it
/// ended, whenever it did.
pub proof fn captures_are_watched(
    success: bool,
    status: String,
    deadline_passed: bool,
    ended: ChildStep,
    running: ChildStep,
)
    requires
        call_ensures(
            watch_child,
            (ChildState::Exited { success, status }, deadline_passed),
            ended,
        ),
        call_ensures(watch_child, (ChildState::Running, deadline_passed), running),
    ensures
        ended matches ChildStep::Judge { success: s, status: t } && s == success && t == status,
        running is Kill <==> deadline_passed,
        running is Wait <==> !deadline_passed,
{
}

/// A capture that failed is told by its complaint, without the white space around it, and by its
/// status only where it has none; one that was stopped is told the same way, and timed out where it
/// has none. A capture that succeeded is accepted whatever it printed.
pub proof fn failed_captures_are_told_by_their_complaint(
    success: bool,
    status: &str,
    stderr: &str,
    complaint: Seq<char>,
    judged: Result<(), WaylandWlrError>,
    killed: WaylandWlrError,
)
    requires
        text::trim(stderr@) == complaint,
        call_ensures(judge_exit, (success, status, stderr), judged),
        call_ensures(judge_kill, (stderr,), killed),
    ensures
        judged is Ok <==> success,
        judged matches Err(err) ==> err is CapturePipelineFailed && (complaint.len() > 0
            ==> text::has_suffix(err.text(), complaint)) && (complaint.len() == 0
            ==> text::has_suffix(err.text(), status@)),
        complaint.len() > 0 ==> killed is CapturePipelineFailed && text::has_suffix(
            killed.text(),
            complaint,
        ),
        complaint.len() == 0 ==> killed is CaptureTimedOut,
{
    if let Err(err) = judged {
        errors_tell_their_reason(err);
        text::parts_are_found("gst-launch exited with status "@, status@);
        if complaint.len() == 0 {
            let head = "Wayland PipeWire capture pipeline failed: "@
                + "gst-launch exited with status "@;
            assert(err.text() =~= head + status@);
            text::parts_are_found(head, status@);
        }
    }
    if complaint.len() > 0 {
        errors_tell_their_reason(killed);
    }
}

/// A session in which a monitor cannot be made or captured is refused for the first thing that it
/// lacks, and any other gets the streams of its portal session.
pub proof fn sessions_are_refused_for_what_they_lack(
    config: DisplayConfig,
    env: WaylandEnvironment,
    streams: Vec<PortalStreamInfo>,
    out: Result<WaylandWlrBackend, WaylandWlrError>,
)
    requires
        call_ensures(WaylandWlrBackend::start, (config, &Ok(env), Ok(streams)), out),
    ensures
        !env.supports_portal_virtual_monitor ==> (out matches Err(err)
            && err is MissingPortalVirtualMonitor),
        env.supports_portal_virtual_monitor && !env.capture_stack.pipewire_feature_enabled ==> (
        out matches Err(err) && err is MissingPipeWireFeature),
        env.supports_portal_virtual_monitor && env.capture_stack.pipewire_feature_enabled
            && streams@.len() == 0 ==> (out matches Err(err) && err is PortalReturnedNoStreams),
        out is Ok <==> env.supports_portal_virtual_monitor
            && env.capture_stack.pipewire_feature_enabled && streams@.len() > 0,
        out matches Ok(backend) ==> backend.config == config && backend.streams == Some(streams),
{
}

/// A compositor listens in the runtime directory under the name of the session; the name that is
/// missing is told, that of the session first.
pub proof fn sockets_are_in_the_runtime_directory(
    display: &str,
    dir: &str,
    both: Result<String, WaylandWlrError>,
    no_display: Result<String, WaylandWlrError>,
    no_dir: Result<String, WaylandWlrError>,
)
    requires
        call_ensures(socket_path, (Some(display), Some(dir)), both),
        call_ensures(socket_path, (None, Some(dir)), no_display),
        call_ensures(socket_path, (Some(display), None), no_dir),
    ensures
        both matches Ok(path) && (!path::is_absolute(display@) ==> text::has_prefix(path@, dir@)
            && text::has_suffix(path@, display@)),
        no_display matches Err(err) && err is MissingWaylandDisplay,
        no_dir matches Err(err) && err is MissingRuntimeDir,
{
    path::names_are_put_in_directories(dir@, display@);
}

} // verus!
