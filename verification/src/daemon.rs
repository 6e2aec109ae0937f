//! What the daemon does from its start to its end.
use vstd::prelude::*;

use crate::config::Config;
use crate::config::ServeConfig;
use crate::display::CaptureReadiness;
use crate::display::DisplayBackendInfo;
use crate::number;
use crate::path;
use crate::text;

verus! {

/// What is logged where the environment does not say.
pub const DEFAULT_LOG_FILTER: &'static str = "info,desplio_daemon=debug";

/// Values that switch something on.
pub open spec fn is_yes(value: Seq<char>) -> bool {
    value == "1"@ || value == "true"@ || value == "TRUE"@ || value == "yes"@ || value == "YES"@
}

/// Whether a variable of the environment switches something on; `default` where it is not set.
pub fn flag(value: Option<&str>, default: bool) -> (yes: bool)
    ensures
        yes == match value {
            Some(set) => is_yes(set@),
            None => default,
        },
{
    match value {
        Some(set) => text::same(set, "1") || text::same(set, "true") || text::same(set, "TRUE")
            || text::same(set, "yes") || text::same(set, "YES"),
        None => default,
    }
}

/// How many seconds to hold on; without end where it is zero. A value that is no number counts as
/// not set.
pub fn hold_seconds(value: Option<&str>, serving: bool) -> (secs: u64)
    ensures
        match value {
            Some(set) => match number::unsigned_value(set@, u64::MAX as int) {
                Ok(n) => secs == n,
                Err(_) => secs == if serving {
                    0int
                } else {
                    5
                },
            },
            None => secs == if serving {
                0int
            } else {
                5
            },
        },
{
    let default: u64 = if serving {
        0
    } else {
        5
    };
    match value {
        Some(set) => match number::parse_u64(set) {
            Ok(n) => n,
            Err(_) => default,
        },
        None => default,
    }
}

/// The variables of the environment that the daemon heeds.
#[derive(Debug, Clone)]
pub struct Environment {
    pub keep_display_attached: Option<String>,
    pub hold_secs: Option<String>,
    pub startup_capture: Option<String>,
    pub continuous_preview: Option<String>,
}

/// How the daemon is to run.
#[derive(Debug, Clone, Copy, PartialEq, Eq, Structural)]
pub struct Settings {
    pub keep_display_attached: bool,
    pub hold_secs: u64,
    pub startup_capture_enabled: bool,
    pub continuous_preview_requested: bool,
    pub startup_capture_requested: bool,
}

/// The session is a Wayland one.
pub open spec fn on_wayland(info: DisplayBackendInfo) -> bool {
    text::same_ignoring_ascii_case(info.host.session_type@, "wayland"@)
}

/// evdi is used in a Wayland session.
pub open spec fn evdi_on_wayland(info: DisplayBackendInfo) -> bool {
    info.selected_backend@ == "evdi"@ && on_wayland(info)
}

/// What a variable switches on; `default` where it is not set.
pub open spec fn switched(value: Option<String>, default: bool) -> bool {
    match value {
        Some(set) => is_yes(set@),
        None => default,
    }
}

fn wayland_session(info: &DisplayBackendInfo) -> (yes: bool)
    ensures
        yes == on_wayland(*info),
{
    text::same_but_case(info.host.session_type.as_str(), "wayland")
}

/// Whether evdi is used in a Wayland session, where it depends on the compositor what is shown.
pub fn is_evdi_on_wayland(info: &DisplayBackendInfo) -> (yes: bool)
    ensures
        yes == evdi_on_wayland(*info),
{
    text::same(info.selected_backend, "evdi") && wayland_session(info)
}

fn switch(value: &Option<String>, default: bool) -> (yes: bool)
    ensures
        yes == switched(*value, default),
{
    match value {
        Some(set) => flag(Some(set.as_str()), default),
        None => default,
    }
}

/// How the daemon is to run. Where the environment does not say, nothing is captured at the start
/// of a Wayland session, and evdi on Wayland is neither captured nor previewed.
pub fn settings(env: &Environment, serving: bool, info: &DisplayBackendInfo) -> (out: Settings)
    ensures
        out.keep_display_attached == switched(env.keep_display_attached, false),
        out.startup_capture_enabled == switched(env.startup_capture, !on_wayland(*info)),
        out.continuous_preview_requested == switched(
            env.continuous_preview,
            !evdi_on_wayland(*info),
        ),
        out.startup_capture_requested == switched(env.startup_capture, !evdi_on_wayland(*info)),
        match env.hold_secs {
            Some(set) => match number::unsigned_value(set@, u64::MAX as int) {
                Ok(n) => out.hold_secs == n,
                Err(_) => out.hold_secs == if serving {
                    0int
                } else {
                    5
                },
            },
            None => out.hold_secs == if serving {
                0int
            } else {
                5
            },
        },
{
    let hold_secs: u64 = match &env.hold_secs {
        Some(set) => hold_seconds(Some(set.as_str()), serving),
        None => hold_seconds(None, serving),
    };
    Settings {
        keep_display_attached: switch(&env.keep_display_attached, false),
        hold_secs,
        startup_capture_enabled: switch(&env.startup_capture, !wayland_session(info)),
        continuous_preview_requested: switch(&env.continuous_preview, !is_evdi_on_wayland(info)),
        startup_capture_requested: switch(&env.startup_capture, !is_evdi_on_wayland(info)),
    }
}

/// Why the display stays attached.
#[derive(Debug, Clone, Copy, PartialEq, Eq, Structural)]
pub enum HoldReason {
    /// Startup capture is disabled.
    Validation,
    /// The preview is not refreshed.
    PreviewPaused,
    /// The user wants it.
    Debugging,
    /// Frames cannot be captured.
    CapturePending,
    /// The display is released; only the daemon stays.
    Released,
}

impl HoldReason {
    /// What is said where the display stays attached for a time.
    pub open spec fn timed(self) -> Seq<char> {
        match self {
            HoldReason::Validation =>
                "virtual display remains attached for Wayland validation; it will auto-disconnect after the hold window"@,
            HoldReason::PreviewPaused =>
                "virtual display remains attached while preview refresh is paused for responsiveness"@,
            HoldReason::Debugging =>
                "virtual display remains attached for debugging; it will auto-disconnect after the hold window"@,
            HoldReason::CapturePending =>
                "virtual display remains attached while the Wayland PipeWire capture leg is being completed"@,
            HoldReason::Released =>
                "virtual display has been released; the daemon will exit after the hold window"@,
        }
    }

    /// What is said where the display stays attached without end.
    pub open spec fn untimed(self) -> Seq<char> {
        match self {
            HoldReason::Validation =>
                "virtual display remains attached for Wayland validation; press Ctrl-C to disconnect"@,
            HoldReason::PreviewPaused =>
                "virtual display remains attached while preview refresh is paused; press Ctrl-C to disconnect"@,
            HoldReason::Debugging =>
                "virtual display remains attached for debugging; press Ctrl-C to disconnect"@,
            HoldReason::CapturePending =>
                "virtual display remains attached; press Ctrl-C to disconnect"@,
            HoldReason::Released =>
                "virtual display has been released; press Ctrl-C to stop the daemon"@,
        }
    }

    /// What is said when the hold begins.
    pub fn message(self, hold_secs: u64) -> (out: &'static str)
        ensures
            out@ == if hold_secs == 0 {
                self.untimed()
            } else {
                self.timed()
            },
    {
        if hold_secs == 0 {
            match self {
                HoldReason::Validation =>
                    "virtual display remains attached for Wayland validation; press Ctrl-C to disconnect",
                HoldReason::PreviewPaused =>
                    "virtual display remains attached while preview refresh is paused; press Ctrl-C to disconnect",
                HoldReason::Debugging =>
                    "virtual display remains attached for debugging; press Ctrl-C to disconnect",
                HoldReason::CapturePending =>
                    "virtual display remains attached; press Ctrl-C to disconnect",
                HoldReason::Released =>
                    "virtual display has been released; press Ctrl-C to stop the daemon",
            }
        } else {
            match self {
                HoldReason::Validation =>
                    "virtual display remains attached for Wayland validation; it will auto-disconnect after the hold window",
                HoldReason::PreviewPaused =>
                    "virtual display remains attached while preview refresh is paused for responsiveness",
                HoldReason::Debugging =>
                    "virtual display remains attached for debugging; it will auto-disconnect after the hold window",
                HoldReason::CapturePending =>
                    "virtual display remains attached while the Wayland PipeWire capture leg is being completed",
                HoldReason::Released =>
                    "virtual display has been released; the daemon will exit after the hold window",
            }
        }
    }
}

/// Whether to hold on: until the daemon is told to stop, and no longer than the hold lasts.
pub fn holds_on(shutdown: bool, hold_secs: u64, deadline_passed: bool) -> (yes: bool)
    ensures
        yes == (!shutdown && (hold_secs == 0 || !deadline_passed)),
{
    !shutdown && (hold_secs == 0 || !deadline_passed)
}

/// A part of the daemon's run, once its display is started.
#[derive(Debug, Clone, Copy, PartialEq, Eq, Structural)]
pub enum Phase {
    /// Log what the monitor is, where its backend tells.
    DescribeMonitor,
    /// Start the preview server; the daemon fails where it cannot.
    StartServer,
    /// Capture and encode once.
    CaptureOnce,
    /// Log that nothing is captured at the start.
    SkipCapture,
    /// Capture and encode again and again, while the daemon holds on.
    RollingPreview,
    /// Hold on with the display attached.
    Hold(HoldReason),
    /// Release the display.
    ReleaseDisplay,
    /// Tell the server to stop and wait for it.
    StopServer,
}

/// The parts of a run that captures.
pub open spec fn capturing_run(settings: Settings, serving: bool) -> Seq<Phase> {
    let begin = if serving {
        seq![Phase::StartServer]
    } else {
        Seq::empty()
    };
    let capture = if settings.startup_capture_requested {
        Phase::CaptureOnce
    } else {
        Phase::SkipCapture
    };
    let middle = if serving {
        if settings.continuous_preview_requested {
            seq![Phase::RollingPreview]
        } else {
            seq![Phase::Hold(HoldReason::PreviewPaused)]
        }
    } else if settings.keep_display_attached {
        seq![Phase::Hold(HoldReason::Debugging)]
    } else {
        seq![Phase::ReleaseDisplay, Phase::Hold(HoldReason::Released)]
    };
    (begin.push(capture) + middle).push(Phase::StopServer)
}

/// The parts of the daemon's run, in order.
pub open spec fn run(settings: Settings, readiness: CaptureReadiness, serving: bool) -> Seq<Phase> {
    if !settings.startup_capture_enabled {
        seq![Phase::DescribeMonitor, Phase::Hold(HoldReason::Validation)]
    } else {
        match readiness {
            CaptureReadiness::Ready => capturing_run(settings, serving),
            CaptureReadiness::Pending(_) => seq![
                Phase::DescribeMonitor,
                Phase::Hold(HoldReason::CapturePending),
            ],
        }
    }
}

/// The parts of the daemon's run, in order.
pub fn phases(settings: &Settings, readiness: &CaptureReadiness, serving: bool) -> (out: Vec<Phase>)
    ensures
        out@ == run(*settings, *readiness, serving),
{
    let mut out: Vec<Phase> = Vec::new();
    if !settings.startup_capture_enabled {
        out.push(Phase::DescribeMonitor);
        out.push(Phase::Hold(HoldReason::Validation));
        return out;
    }
    match readiness {
        CaptureReadiness::Ready => {
            if serving {
                out.push(Phase::StartServer);
            }
            if settings.startup_capture_requested {
                out.push(Phase::CaptureOnce);
            } else {
                out.push(Phase::SkipCapture);
            }
            if serving {
                if settings.continuous_preview_requested {
                    out.push(Phase::RollingPreview);
                } else {
                    out.push(Phase::Hold(HoldReason::PreviewPaused));
                }
            } else if settings.keep_display_attached {
                out.push(Phase::Hold(HoldReason::Debugging));
            } else {
                out.push(Phase::ReleaseDisplay);
                out.push(Phase::Hold(HoldReason::Released));
            }
            out.push(Phase::StopServer);
            assert(out@ =~= capturing_run(*settings, serving));
        },
        CaptureReadiness::Pending(_) => {
            out.push(Phase::DescribeMonitor);
            out.push(Phase::Hold(HoldReason::CapturePending));
        },
    }
    out
}

/// A server that is started is stopped at the end of the run, and the display of a daemon that
/// serves is never released before that.
pub proof fn servers_are_stopped(settings: Settings, readiness: CaptureReadiness, serving: bool)
    ensures
        run(settings, readiness, serving).contains(Phase::StartServer) ==> run(
            settings,
            readiness,
            serving,
        ).last() == Phase::StopServer,
        serving ==> !run(settings, readiness, serving).contains(Phase::ReleaseDisplay),
        !serving ==> !run(settings, readiness, serving).contains(Phase::StartServer),
{
}

/// Nothing is captured where startup capture is disabled or frames cannot be captured, and every
/// capture comes before the display is released.
pub proof fn captures_need_a_display(
    settings: Settings,
    readiness: CaptureReadiness,
    serving: bool,
    i: int,
    j: int,
)
    requires
        0 <= i < run(settings, readiness, serving).len(),
        0 <= j < run(settings, readiness, serving).len(),
        run(settings, readiness, serving)[i] == Phase::CaptureOnce || run(
            settings,
            readiness,
            serving,
        )[i] == Phase::RollingPreview,
    ensures
        settings.startup_capture_enabled,
        readiness is Ready,
        run(settings, readiness, serving)[j] == Phase::ReleaseDisplay ==> i < j,
{
}

/// Why a capture and its encoding end the daemon, in words: no frame was wanted.
pub fn refuses_frames(frame_paths: &Vec<String>) -> (out: Option<&'static str>)
    ensures
        match out {
            Some(why) => frame_paths@.len() == 0 && why@
                == "frame capture disabled; no PNGs were written"@,
            None => frame_paths@.len() > 0,
        },
{
    if frame_paths.len() == 0 {
        Some("frame capture disabled; no PNGs were written")
    } else {
        None
    }
}

/// Why a capture and its encoding end the daemon, in words: encoding is disabled.
pub fn refuses_encoding(config: &Config) -> (out: Option<&'static str>)
    ensures
        match out {
            Some(why) => !config.encode.enabled && why@
                == "M3 preview requires the encoder path; encoding is disabled"@,
            None => config.encode.enabled,
        },
{
    if config.encode.enabled {
        None
    } else {
        Some("M3 preview requires the encoder path; encoding is disabled")
    }
}

/// What the encoder is told of the server: nothing where there is none.
pub fn served(config: &Config) -> (out: Option<&ServeConfig>)
    ensures
        out == if config.serve.enabled {
            Some(&config.serve)
        } else {
            None
        },
{
    if config.serve.enabled {
        Some(&config.serve)
    } else {
        None
    }
}

/// The latest frame that is to be published: the file that is copied, and the directory that the
/// copy is put in.
#[derive(Debug, Clone)]
pub struct FrameCopy {
    pub source: String,
    pub target: String,
    pub target_dir: Option<String>,
}

/// How the latest of the captured frames is published; not at all where there is none.
pub fn publish_latest_frame_artifact(frame_paths: &Vec<String>, latest_frame_path: &str) -> (out:
    Option<FrameCopy>)
    ensures
        match out {
            Some(copy) => frame_paths@.len() > 0 && copy.source@ == frame_paths@.last()@
                && copy.target@ == latest_frame_path@ && text::opt_text(copy.target_dir)
                == path::parent(latest_frame_path@),
            None => frame_paths@.len() == 0,
        },
{
    if frame_paths.len() == 0 {
        return None;
    }
    Some(
        FrameCopy {
            source: frame_paths[frame_paths.len() - 1].clone(),
            target: latest_frame_path.to_owned(),
            target_dir: path::parent_path(latest_frame_path),
        },
    )
}

/// Where the preview can be seen.
pub fn preview_url(serve: &ServeConfig) -> (out: String)
    ensures
        out@ == "http://"@ + serve.bind_addr@ + "/"@,
{
    let mut out: String = "http://".to_owned();
    out.append(serve.bind_addr.as_str());
    out.append("/");
    out
}

/// A variable switches something on with five values and no other; where it is not set, the default
/// decides.
pub proof fn switches_are_read(value: String, default: bool)
    ensures
        switched(Some(value), default) <==> value@ == "1"@ || value@ == "true"@ || value@ == "TRUE"@
            || value@ == "yes"@ || value@ == "YES"@,
        switched(Some(value), default) == is_yes(value@),
        switched(None, default) == default,
{
}

/// A session is a Wayland one by its type in any case of its letters; evdi is used in one exactly
/// where it is selected there.
pub proof fn wayland_sessions_are_recognised(info: DisplayBackendInfo)
    ensures
        on_wayland(info) <==> info.host.session_type@.len() == 7 && forall|i: int|
            0 <= i < 7 ==> text::same_letter(
                #[trigger] info.host.session_type@[i],
                seq!['w', 'a', 'y', 'l', 'a', 'n', 'd'][i],
            ),
        evdi_on_wayland(info) <==> info.selected_backend@ == "evdi"@ && on_wayland(info),
{
    reveal_strlit("wayland");
    assert("wayland"@ =~= seq!['w', 'a', 'y', 'l', 'a', 'n', 'd']);
    text::case_alone_is_ignored(info.host.session_type@, "wayland"@);
}

/// A run that does not capture describes the monitor and holds on, and tells why.
pub proof fn runs_without_capture_hold_on(
    settings: Settings,
    readiness: CaptureReadiness,
    serving: bool,
)
    requires
        !settings.startup_capture_enabled || readiness is Pending,
    ensures
        run(settings, readiness, serving).len() == 2,
        run(settings, readiness, serving)[0] == Phase::DescribeMonitor,
        run(settings, readiness, serving)[1] == if !settings.startup_capture_enabled {
            Phase::Hold(HoldReason::Validation)
        } else {
            Phase::Hold(HoldReason::CapturePending)
        },
{
}

/// A run that captures starts the server first where the daemon serves, captures once exactly where
/// it is asked to, and stops the server at its end. Between them a daemon that serves refreshes the
/// preview, or holds on where it is not asked to; one that does not holds on with the display where
/// it is to stay attached, and else releases it and holds on without.
pub proof fn runs_capture_as_asked(settings: Settings, readiness: CaptureReadiness, serving: bool)
    requires
        settings.startup_capture_enabled,
        readiness is Ready,
    ensures
        ({
            let parts = run(settings, readiness, serving);
            let first: int = if serving {
                1
            } else {
                0
            };
            &&& serving ==> parts[0] == Phase::StartServer
            &&& settings.startup_capture_requested ==> parts[first] == Phase::CaptureOnce
            &&& !settings.startup_capture_requested ==> parts[first] == Phase::SkipCapture
            &&& serving && settings.continuous_preview_requested ==> parts.len() == 4 && parts[2]
                == Phase::RollingPreview
            &&& serving && !settings.continuous_preview_requested ==> parts.len() == 4 && parts[2]
                == Phase::Hold(HoldReason::PreviewPaused)
            &&& !serving && settings.keep_display_attached ==> parts.len() == 3 && parts[1]
                == Phase::Hold(HoldReason::Debugging)
            &&& !serving && !settings.keep_display_attached ==> parts.len() == 4 && parts[1]
                == Phase::ReleaseDisplay && parts[2] == Phase::Hold(HoldReason::Released)
            &&& parts.last() == Phase::StopServer
        }),
{
}

/// A hold lasts as long as the environment says, whatever number of seconds that is; where it does
/// not say, it has no end for a daemon that serves and lasts five seconds for one that does not.
pub proof fn holds_last_as_long_as_asked(
    value: &str,
    n: u64,
    serving: bool,
    told: u64,
    untold: u64,
)
    requires
        value@ == number::decimal(n as nat),
        call_ensures(hold_seconds, (Some(value), serving), told),
        call_ensures(hold_seconds, (None, serving), untold),
    ensures
        told == n,
        serving ==> untold == 0,
        !serving ==> untold == 5,
{
    number::decimal_reads_back(n as nat, u64::MAX as int);
}

/// A daemon that is told to stop does not hold on; else it does until its hold is over, and without
/// end where the hold has none.
pub proof fn holds_end(shutdown: bool, hold_secs: u64, deadline_passed: bool, yes: bool)
    requires
        call_ensures(holds_on, (shutdown, hold_secs, deadline_passed), yes),
    ensures
        shutdown ==> !yes,
        !shutdown && !deadline_passed ==> yes,
        !shutdown && deadline_passed ==> (yes <==> hold_secs == 0),
{
}

/// What is published is the frame that was captured last, at the file that is told.
pub proof fn last_frame_is_published(
    frame_paths: Vec<String>,
    latest_frame_path: &str,
    out: Option<FrameCopy>,
)
    requires
        call_ensures(publish_latest_frame_artifact, (&frame_paths, latest_frame_path), out),
    ensures
        out is Some <==> frame_paths@.len() > 0,
        out matches Some(copy) ==> copy.source@ == frame_paths@[frame_paths@.len() - 1]@
            && copy.target@ == latest_frame_path@ && text::opt_text(copy.target_dir)
            == path::parent(latest_frame_path@),
{
}

/// What the environment says overrides what the host is suited to: a variable that is set decides
/// alone, and where none is set nothing is captured at the start of a Wayland session, and evdi on
/// Wayland is neither captured nor previewed.
pub proof fn environments_decide(
    env: Environment,
    serving: bool,
    info: DisplayBackendInfo,
    out: Settings,
)
    requires
        call_ensures(settings, (&env, serving, &info), out),
    ensures
        env.startup_capture matches Some(value) ==> out.startup_capture_enabled == is_yes(value@)
            && out.startup_capture_requested == is_yes(value@),
        env.continuous_preview matches Some(value) ==> out.continuous_preview_requested == is_yes(
            value@,
        ),
        env.keep_display_attached matches Some(value) ==> out.keep_display_attached == is_yes(
            value@,
        ),
        env.startup_capture is None ==> out.startup_capture_enabled == !on_wayland(info)
            && out.startup_capture_requested == !evdi_on_wayland(info),
        env.continuous_preview is None ==> out.continuous_preview_requested == !evdi_on_wayland(
            info,
        ),
        env.keep_display_attached is None ==> !out.keep_display_attached,
{
}

} // verus!
