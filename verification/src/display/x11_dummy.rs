//! The X11 backend: a disconnected output of the session, switched on as a virtual monitor.
use vstd::prelude::*;

use crate::capture::CaptureRun;
use crate::config::CaptureConfig;
use crate::display::x11_layout;
use crate::display::x11_mode;
use crate::display::DisplayConfig;
use crate::listing;
use crate::number;
use crate::process::CommandOutput;
use crate::text;

verus! {

/// A virtual monitor on an X11 output.
#[derive(Debug, Clone)]
pub struct X11DummyBackend {
    pub active_output: String,
    pub width: u32,
    pub height: u32,
    pub x: u32,
    pub y: u32,
}

/// Why the X11 backend cannot show or capture its monitor.
#[derive(Debug, Clone)]
pub enum X11DummyError {
    MissingDisplay,
    NoDummyOutput,
    QueryFailed(String),
    ActivationFailed(String),
    CaptureFailed(String),
    CaptureTimedOut,
    FrameWriteFailed(String),
}

impl X11DummyError {
    /// The error in words.
    pub open spec fn text(self) -> Seq<char> {
        match self {
            X11DummyError::MissingDisplay => "DISPLAY is not set; X11 dummy backend cannot start"@,
            X11DummyError::NoDummyOutput =>
                "x11 runtime backend could not find a usable disconnected output (VIRTUAL, DUMMY, HDMI, DP, or VGA) to activate in this session"@,
            X11DummyError::QueryFailed(why) => "xrandr query failed: "@ + why@,
            X11DummyError::ActivationFailed(why) =>
                "failed to create or activate the X11 dummy output: "@ + why@,
            X11DummyError::CaptureFailed(why) => "failed to capture X11 dummy output: "@ + why@,
            X11DummyError::CaptureTimedOut =>
                "timed out waiting for X11 dummy output to produce a non-black frame"@,
            X11DummyError::FrameWriteFailed(why) => "failed to write PNG frame: "@ + why@,
        }
    }

    /// The error in words.
    pub fn message(&self) -> (out: String)
        ensures
            out@ == self.text(),
    {
        match self {
            X11DummyError::MissingDisplay =>
                "DISPLAY is not set; X11 dummy backend cannot start".to_owned(),
            X11DummyError::NoDummyOutput =>
                "x11 runtime backend could not find a usable disconnected output (VIRTUAL, DUMMY, HDMI, DP, or VGA) to activate in this session".to_owned(),
            X11DummyError::QueryFailed(why) => "xrandr query failed: ".to_owned().concat(
                why.as_str(),
            ),
            X11DummyError::ActivationFailed(why) =>
                "failed to create or activate the X11 dummy output: ".to_owned().concat(
                why.as_str(),
            ),
            X11DummyError::CaptureFailed(why) =>
                "failed to capture X11 dummy output: ".to_owned().concat(why.as_str()),
            X11DummyError::CaptureTimedOut =>
                "timed out waiting for X11 dummy output to produce a non-black frame".to_owned(),
            X11DummyError::FrameWriteFailed(why) =>
                "failed to write PNG frame: ".to_owned().concat(why.as_str()),
        }
    }
}

/// Names of outputs that can be switched on at run time.
pub open spec fn is_runtime_name(name: Seq<char>) -> bool {
    ||| text::has_prefix(name, "VIRTUAL-"@)
    ||| text::has_prefix(name, "DUMMY-"@)
    ||| name == "default"@
    ||| text::has_prefix(name, "HDMI-"@)
    ||| text::has_prefix(name, "DP-"@)
    ||| text::has_prefix(name, "VGA-"@)
}

/// Lines of disconnected outputs that can be switched on.
pub open spec fn runtime_line() -> spec_fn(Seq<char>) -> bool {
    |line: Seq<char>|
        x11_layout::is_output_line(line) && text::contains(line, " disconnected"@) && (
        text::first_field(line) matches Some(name) && is_runtime_name(name))
}

/// The name that a line begins with.
pub open spec fn name_in_line() -> spec_fn(Seq<char>) -> Seq<char> {
    |line: Seq<char>| x11_layout::line_name(line)
}

/// The disconnected outputs that can be switched on, as `xrandr --query` lists them.
pub open spec fn candidates(query: Seq<char>) -> Seq<Seq<char>> {
    listing::each(listing::select(text::lines(query), runtime_line()), name_in_line())
}

fn runtime_name(name: &str) -> (yes: bool)
    ensures
        yes == is_runtime_name(name@),
{
    text::starts_with(name, "VIRTUAL-") || text::starts_with(name, "DUMMY-") || text::same(
        name,
        "default",
    ) || text::starts_with(name, "HDMI-") || text::starts_with(name, "DP-") || text::starts_with(
        name,
        "VGA-",
    )
}

/// The disconnected outputs that can be switched on, as `xrandr --query` lists them.
pub fn candidates_in(query: &str) -> (out: Vec<String>)
    ensures
        text::texts(out@) == candidates(query@),
{
    let lines: Vec<String> = text::split_lines(query);
    let ghost all = text::lines(query@);
    let mut out: Vec<String> = text::no_texts();
    let mut i: usize = 0;
    assert(text::texts(out@) =~= listing::each(
        listing::select(all.take(0), runtime_line()),
        name_in_line(),
    ));
    while i < lines.len()
        invariant
            text::texts(lines@) == all,
            i <= lines.len(),
            text::texts(out@) == listing::each(
                listing::select(all.take(i as int), runtime_line()),
                name_in_line(),
            ),
        decreases lines.len() - i,
    {
        let line: &str = lines[i].as_str();
        assert(all[i as int] == line@);
        assert(all.take(i + 1).drop_last() =~= all.take(i as int));
        assert(all.take(i + 1).last() == line@);
        if !line.is_empty() && !text::starts_with(line, " ") && text::holds(line, " disconnected") {
            if let Some(name) = text::first_of_fields(line) {
                if runtime_name(name.as_str()) {
                    text::put(&mut out, name);
                }
            }
        }
        assert(text::texts(out@) =~= listing::each(
            listing::select(all.take(i + 1), runtime_line()),
            name_in_line(),
        ));
        i = i + 1;
    }
    assert(all.take(lines@.len() as int) =~= all);
    out
}

/// What `xrandr --query` printed, or why it cannot be used; `Err` stands for a command that could
/// not be run.
pub fn query_text(query: &Result<CommandOutput, String>) -> (out: Result<String, X11DummyError>)
    ensures
        match out {
            Ok(printed) => *query matches Ok(result) && result.success && printed@
                == result.printed(),
            Err(X11DummyError::QueryFailed(why)) => match *query {
                Ok(result) => !result.success && why@ == result.complaint(),
                Err(failure) => why@ == failure@,
            },
            Err(_) => false,
        },
{
    match query {
        Ok(result) => {
            if result.success {
                Ok(result.stdout_text())
            } else {
                Err(X11DummyError::QueryFailed(result.stderr_message()))
            }
        },
        Err(failure) => Err(X11DummyError::QueryFailed(failure.clone())),
    }
}

/// The disconnected outputs that can be switched on, from the answer of `xrandr --query`.
pub fn runtime_output_candidates(query: &Result<CommandOutput, String>) -> (out: Result<
    Vec<String>,
    X11DummyError,
>)
    ensures
        match out {
            Ok(names) => *query matches Ok(result) && result.success && text::texts(names@)
                == candidates(result.printed()),
            Err(X11DummyError::QueryFailed(why)) => match *query {
                Ok(result) => !result.success && why@ == result.complaint(),
                Err(failure) => why@ == failure@,
            },
            Err(_) => false,
        },
{
    match query_text(query) {
        Ok(printed) => Ok(candidates_in(printed.as_str())),
        Err(err) => Err(err),
    }
}

/// Lines of the primary output.
pub open spec fn primary_line() -> spec_fn(Seq<char>) -> bool {
    |line: Seq<char>|
        text::contains(line, " connected primary"@) && text::first_field(line) is Some
}

/// The primary output: the first that a line calls so.
pub open spec fn primary_name(query: Seq<char>) -> Option<Seq<char>> {
    match listing::first_where(text::lines(query), primary_line()) {
        Some(line) => text::first_field(line),
        None => None,
    }
}

/// The primary output, as `xrandr --query` names it.
pub fn find_primary_output(query: &str) -> (out: Option<String>)
    ensures
        text::opt_text(out) == primary_name(query@),
{
    let lines: Vec<String> = text::split_lines(query);
    let ghost all = text::lines(query@);
    let mut i: usize = 0;
    while i < lines.len()
        invariant
            text::texts(lines@) == all,
            all == text::lines(query@),
            i <= lines.len(),
            listing::first_where(all.take(i as int), primary_line()) is None,
        decreases lines.len() - i,
    {
        let line: &str = lines[i].as_str();
        assert(all[i as int] == line@);
        assert(all.take(i + 1).drop_last() =~= all.take(i as int));
        assert(all.take(i + 1).last() == line@);
        if text::holds(line, " connected primary") {
            if let Some(name) = text::first_of_fields(line) {
                proof {
                    listing::lemma_first_where_take(all, primary_line(), i + 1);
                }
                return Some(name);
            }
        }
        i = i + 1;
    }
    assert(all.take(lines@.len() as int) =~= all);
    None
}

/// The output to switch on, from the answer of `xrandr --query`: the first candidate.
pub fn find_runtime_output_candidate(query: &Result<CommandOutput, String>) -> (out: Option<String>)
    ensures
        text::opt_text(out) == match *query {
            Ok(result) => if result.success && candidates(result.printed()).len() > 0 {
                Some(candidates(result.printed())[0])
            } else {
                None
            },
            Err(_) => None,
        },
{
    match runtime_output_candidates(query) {
        Ok(names) => {
            assert(text::texts(names@).len() == names@.len());
            if names.len() > 0 {
                assert(text::texts(names@)[0] == names@[0]@);
                Some(names[0].clone())
            } else {
                None
            }
        },
        Err(_) => None,
    }
}

/// The position in a geometry such as `1280x800+1280+0`.
pub open spec fn geometry_position(field: Seq<char>) -> Option<(int, int)> {
    match text::split_once(field, "+"@) {
        Some((_, rest)) => {
            let coords = text::split_char(rest, '+');
            if coords.len() >= 2 {
                match (
                    number::unsigned_value(coords[0], u32::MAX as int),
                    number::unsigned_value(coords[1], u32::MAX as int),
                ) {
                    (Ok(x), Ok(y)) => Some((x, y)),
                    _ => None,
                }
            } else {
                None
            }
        },
        None => None,
    }
}

/// The position that a line gives the output `name`.
pub open spec fn position_in_line(name: Seq<char>) -> spec_fn(Seq<char>) -> Option<(int, int)> {
    |line: Seq<char>|
        if text::has_prefix(line, name) {
            match listing::first_where(text::fields(line), x11_layout::geometry_field()) {
                Some(field) => geometry_position(field),
                None => None,
            }
        } else {
            None
        }
}

/// The position of an output: what the first line that begins with its name and tells a position
/// says.
pub open spec fn output_position(query: Seq<char>, name: Seq<char>) -> Option<(int, int)> {
    listing::first_some(text::lines(query), position_in_line(name))
}

/// A geometry that `xrandr` writes is read back: the position that it was made of.
pub proof fn position_reads_back(mode: Seq<char>, x: u32, y: u32)
    requires
        !mode.contains('+'),
    ensures
        geometry_position(
            mode + "+"@ + (number::decimal(x as nat) + "+"@ + number::decimal(y as nat)),
        ) == Some((x as int, y as int)),
{
    let a = number::decimal(x as nat);
    let b = number::decimal(y as nat);
    reveal_strlit("+");
    assert("+"@ =~= seq!['+']);
    number::decimal_is_digits(x as nat);
    number::decimal_is_digits(y as nat);
    text::divided_at_separator(mode, "+"@, a + "+"@ + b);
    text::pieces_around_separator(a, '+', b);
    number::decimal_reads_back(x as nat, u32::MAX as int);
    number::decimal_reads_back(y as nat, u32::MAX as int);
}

fn read_position(field: &str) -> (out: Option<(u32, u32)>)
    ensures
        match out {
            Some((x, y)) => geometry_position(field@) == Some((x as int, y as int)),
            None => geometry_position(field@) is None,
        },
{
    match text::divide(field, "+") {
        Some((_, rest)) => {
            let coords: Vec<String> = text::pieces(rest.as_str(), '+');
            assert(text::split_char(rest@, '+').len() == coords@.len());
            if coords.len() >= 2 {
                assert(text::split_char(rest@, '+')[0] == coords@[0]@);
                assert(text::split_char(rest@, '+')[1] == coords@[1]@);
                match (number::parse_u32(coords[0].as_str()), number::parse_u32(coords[1].as_str())) {
                    (Ok(x), Ok(y)) => Some((x, y)),
                    _ => None,
                }
            } else {
                None
            }
        },
        None => None,
    }
}

/// The position of an output, as `xrandr --query` tells it.
pub fn find_output_position(query: &str, output_name: &str) -> (out: Option<(u32, u32)>)
    ensures
        match out {
            Some((x, y)) => output_position(query@, output_name@) == Some((x as int, y as int)),
            None => output_position(query@, output_name@) is None,
        },
{
    let lines: Vec<String> = text::split_lines(query);
    let ghost all = text::lines(query@);
    let mut i: usize = 0;
    while i < lines.len()
        invariant
            text::texts(lines@) == all,
            all == text::lines(query@),
            i <= lines.len(),
            listing::first_some(all.take(i as int), position_in_line(output_name@)) is None,
        decreases lines.len() - i,
    {
        let line: &str = lines[i].as_str();
        assert(all[i as int] == line@);
        assert(all.take(i + 1).drop_last() =~= all.take(i as int));
        assert(all.take(i + 1).last() == line@);
        if text::starts_with(line, output_name) {
            if let Some(field) = x11_layout::find_geometry(&text::split_fields(line)) {
                if let Some((x, y)) = read_position(field.as_str()) {
                    proof {
                        listing::lemma_first_some_take(all, position_in_line(output_name@), i + 1);
                    }
                    return Some((x, y));
                }
            }
        }
        i = i + 1;
    }
    assert(all.take(lines@.len() as int) =~= all);
    None
}

/// The mode to use after `cvt` answered, or why none can be used: the mode's name, and what it is
/// to be defined by where it is new. `Err` stands for a `cvt` that could not be run.
pub fn ensure_x11_mode(cvt: &Result<CommandOutput, String>, width: u32, height: u32) -> (out: Result<
    (String, Option<Vec<String>>),
    X11DummyError,
>)
    ensures
        match *cvt {
            Ok(result) => match out {
                Ok((mode, None)) => !result.success && mode@ == x11_mode::size(width, height),
                Ok((mode, Some(parts))) => result.success && mode@ == x11_mode::mode_name(
                    width,
                    height,
                ) && (x11_mode::modeline(result.printed()) matches Some(line) && text::texts(
                    parts@,
                ) == x11_mode::mode_parts(line, mode@)),
                Err(X11DummyError::ActivationFailed(why)) => result.success && x11_mode::modeline(
                    result.printed(),
                ) is None && why@ == "cvt did not return a usable modeline"@,
                Err(_) => false,
            },
            Err(failure) => out matches Err(X11DummyError::ActivationFailed(why)) && why@
                == failure@,
        },
{
    match cvt {
        Ok(result) => match x11_mode::plan_mode(result, width, height) {
            x11_mode::ModePlan::Plain(mode) => Ok((mode, None)),
            x11_mode::ModePlan::Define(parts) => Ok(
                (x11_mode::mode_name_text(width, height), Some(parts)),
            ),
            x11_mode::ModePlan::NoModeline => Err(
                X11DummyError::ActivationFailed("cvt did not return a usable modeline".to_owned()),
            ),
        },
        Err(failure) => Err(X11DummyError::ActivationFailed(failure.clone())),
    }
}

/// The arguments that switch the output on to the right of the primary one.
pub fn activation_args(dummy: &str, mode: &str, primary: &str) -> (args: Vec<String>)
    ensures
        text::texts(args@) == seq![
            "--output"@,
            dummy@,
            "--mode"@,
            mode@,
            "--right-of"@,
            primary@,
            "--auto"@,
        ],
{
    let mut args: Vec<String> = text::no_texts();
    text::put_str(&mut args, "--output");
    text::put_str(&mut args, dummy);
    text::put_str(&mut args, "--mode");
    text::put_str(&mut args, mode);
    text::put_str(&mut args, "--right-of");
    text::put_str(&mut args, primary);
    text::put_str(&mut args, "--auto");
    args
}

/// Accepts the answer to an activation; `Err` stands for a command that could not be run.
pub fn accept_activation(result: &Result<CommandOutput, String>) -> (out: Result<(), X11DummyError>)
    ensures
        match out {
            Ok(()) => *result matches Ok(done) && done.success,
            Err(X11DummyError::ActivationFailed(why)) => match *result {
                Ok(done) => !done.success && why@ == done.complaint(),
                Err(failure) => why@ == failure@,
            },
            Err(_) => false,
        },
{
    match result {
        Ok(done) => {
            if done.success {
                Ok(())
            } else {
                Err(X11DummyError::ActivationFailed(done.stderr_message()))
            }
        },
        Err(failure) => Err(X11DummyError::ActivationFailed(failure.clone())),
    }
}

/// The part of the screen that `ffmpeg` grabs: the session and a corner.
pub open spec fn grab_source(display: Option<Seq<char>>, x: u32, y: u32) -> Seq<char> {
    let session = match display {
        Some(name) => name,
        None => ":0"@,
    };
    session + "+"@ + number::decimal(x as nat) + ","@ + number::decimal(y as nat)
}

/// The arguments that let `ffmpeg` write one frame of the monitor to `path`.
pub fn capture_output_region_args(
    display: Option<&str>,
    path: &str,
    width: u32,
    height: u32,
    x: u32,
    y: u32,
) -> (args: Vec<String>)
    ensures
        text::texts(args@) == seq![
            "-hide_banner"@,
            "-loglevel"@,
            "error"@,
            "-y"@,
            "-f"@,
            "x11grab"@,
            "-video_size"@,
            x11_mode::size(width, height),
            "-i"@,
            grab_source(text::opt_str(display), x, y),
            "-frames:v"@,
            "1"@,
            "-update"@,
            "1"@,
            path@,
        ],
{
    let mut source: String = match display {
        Some(name) => name.to_owned(),
        None => ":0".to_owned(),
    };
    source.append("+");
    source.append(number::decimal_text(x as u64).as_str());
    source.append(",");
    source.append(number::decimal_text(y as u64).as_str());
    let mut args: Vec<String> = text::no_texts();
    text::put_str(&mut args, "-hide_banner");
    text::put_str(&mut args, "-loglevel");
    text::put_str(&mut args, "error");
    text::put_str(&mut args, "-y");
    text::put_str(&mut args, "-f");
    text::put_str(&mut args, "x11grab");
    text::put_str(&mut args, "-video_size");
    text::put(&mut args, x11_mode::size_text(width, height));
    text::put_str(&mut args, "-i");
    text::put(&mut args, source);
    text::put_str(&mut args, "-frames:v");
    text::put_str(&mut args, "1");
    text::put_str(&mut args, "-update");
    text::put_str(&mut args, "1");
    text::put_str(&mut args, path);
    args
}

/// Accepts the answer to a grab; `Err` stands for a command that could not be run.
pub fn accept_capture(result: &Result<CommandOutput, String>) -> (out: Result<(), X11DummyError>)
    ensures
        match out {
            Ok(()) => *result matches Ok(done) && done.success,
            Err(X11DummyError::CaptureFailed(why)) => match *result {
                Ok(done) => !done.success && why@ == done.complaint(),
                Err(failure) => why@ == failure@,
            },
            Err(_) => false,
        },
{
    match result {
        Ok(done) => {
            if done.success {
                Ok(())
            } else {
                Err(X11DummyError::CaptureFailed(done.stderr_message()))
            }
        },
        Err(failure) => Err(X11DummyError::CaptureFailed(failure.clone())),
    }
}

impl X11DummyBackend {
    /// The monitor that was switched on, where a query made after it tells its position.
    pub fn start(config: DisplayConfig, dummy: String, query: &str) -> (out: Result<
        X11DummyBackend,
        X11DummyError,
    >)
        ensures
            match out {
                Ok(backend) => backend.active_output == dummy && backend.width == config.width
                    && backend.height == config.height && output_position(query@, dummy@) == Some(
                    (backend.x as int, backend.y as int),
                ),
                Err(X11DummyError::ActivationFailed(why)) => output_position(query@, dummy@) is None
                    && why@ == "dummy output was activated but its geometry could not be read back"@,
                Err(_) => false,
            },
    {
        match find_output_position(query, dummy.as_str()) {
            Some((x, y)) => Ok(
                X11DummyBackend {
                    active_output: dummy,
                    width: config.width,
                    height: config.height,
                    x,
                    y,
                },
            ),
            None => Err(
                X11DummyError::ActivationFailed(
                    "dummy output was activated but its geometry could not be read back".to_owned(),
                ),
            ),
        }
    }

    /// The capture to begin with, unless no frame is wanted.
    pub fn capture_frames_to_png(&self, capture: &CaptureConfig) -> (out: Option<CaptureRun>)
        ensures
            out == if capture.frames == 0 {
                None
            } else {
                Some(
                    CaptureRun {
                        wanted: capture.frames,
                        taken: 0,
                        saw_picture: false,
                        gives_up_on_black: false,
                    },
                )
            },
    {
        if capture.frames == 0 {
            None
        } else {
            Some(CaptureRun::new(capture.frames, false))
        }
    }
}

/// The start of the backend: what to do next.
#[derive(Debug)]
pub enum X11StartStep {
    /// Run `xrandr --query`.
    Query,
    /// Run `xrandr --query` once more.
    Requery { primary: String },
    /// Run `cvt` with these arguments.
    AskMode { primary: String, dummy: String, args: Vec<String> },
    /// Run `xrandr` with each of these lists of arguments; it does not matter whether it succeeds.
    DefineMode {
        primary: String,
        dummy: String,
        mode: String,
        newmode: Vec<String>,
        addmode: Vec<String>,
    },
    /// Run `xrandr` with these arguments.
    Activate { dummy: String, args: Vec<String> },
    /// Run `xrandr --query` to find the output that was switched on.
    ReadBack { dummy: String },
    /// The monitor is there.
    Started(X11DummyBackend),
    /// There is no monitor.
    Failed(X11DummyError),
}

/// The step switches on `dummy` to the right of `primary`.
pub open spec fn switches_on(
    step: X11StartStep,
    primary: Seq<char>,
    dummy: Seq<char>,
    mode: Seq<char>,
) -> bool {
    step matches X11StartStep::Activate { dummy: d, args } && d@ == dummy && text::texts(args@)
        == seq!["--output"@, dummy, "--mode"@, mode, "--right-of"@, primary, "--auto"@]
}

/// The step is the end because `xrandr --query` gave no answer that can be used.
pub open spec fn fails_query(step: X11StartStep, query: Result<CommandOutput, String>) -> bool {
    step matches X11StartStep::Failed(X11DummyError::QueryFailed(why)) && match query {
        Ok(result) => !result.success && why@ == result.complaint(),
        Err(failure) => why@ == failure@,
    }
}

/// The step is the end because a command gave no answer that can be used.
pub open spec fn fails_activation(step: X11StartStep, reason: Seq<char>) -> bool {
    step matches X11StartStep::Failed(X11DummyError::ActivationFailed(why)) && why@ == reason
}

/// The query can be used.
pub open spec fn usable(query: Result<CommandOutput, String>) -> bool {
    query matches Ok(result) && result.success
}

impl X11StartStep {
    /// Begins, where a display is named.
    pub fn begin(display: Option<&str>) -> (step: X11StartStep)
        ensures
            step == if x11_layout::names_display(text::opt_str(display)) {
                X11StartStep::Query
            } else {
                X11StartStep::Failed(X11DummyError::MissingDisplay)
            },
    {
        if x11_layout::has_display(display) {
            X11StartStep::Query
        } else {
            X11StartStep::Failed(X11DummyError::MissingDisplay)
        }
    }

    /// After the outputs were listed: the primary one is known, or there is none.
    pub fn after_query(query: &Result<CommandOutput, String>) -> (step: X11StartStep)
        ensures
            if usable(*query) {
                match primary_name(query->Ok_0.printed()) {
                    Some(name) => step matches X11StartStep::Requery { primary } && primary@
                        == name,
                    None => step == X11StartStep::Failed(X11DummyError::NoDummyOutput),
                }
            } else {
                fails_query(step, *query)
            },
    {
        match query_text(query) {
            Ok(printed) => match find_primary_output(printed.as_str()) {
                Some(primary) => X11StartStep::Requery { primary },
                None => X11StartStep::Failed(X11DummyError::NoDummyOutput),
            },
            Err(err) => X11StartStep::Failed(err),
        }
    }

    /// After the outputs were listed once more: the first that can be switched on is taken.
    pub fn after_requery(
        config: DisplayConfig,
        primary: String,
        query: &Result<CommandOutput, String>,
    ) -> (step: X11StartStep)
        ensures
            if usable(*query) && candidates(query->Ok_0.printed()).len() > 0 {
                step matches X11StartStep::AskMode { primary: p, dummy, args } && p == primary
                    && dummy@ == candidates(query->Ok_0.printed())[0] && text::texts(args@)
                    == x11_mode::cvt_request(config.width, config.height)
            } else {
                step == X11StartStep::Failed(X11DummyError::NoDummyOutput)
            },
    {
        match find_runtime_output_candidate(query) {
            Some(dummy) => X11StartStep::AskMode {
                primary,
                dummy,
                args: x11_mode::cvt_args(config.width, config.height),
            },
            None => X11StartStep::Failed(X11DummyError::NoDummyOutput),
        }
    }

    fn activate(primary: String, dummy: String, mode: String) -> (step: X11StartStep)
        ensures
            switches_on(step, primary@, dummy@, mode@),
    {
        let args: Vec<String> = activation_args(dummy.as_str(), mode.as_str(), primary.as_str());
        X11StartStep::Activate { dummy, args }
    }

    /// After `cvt` answered: a new mode is defined, or one that may be known is used.
    pub fn after_mode(
        config: DisplayConfig,
        primary: String,
        dummy: String,
        cvt: &Result<CommandOutput, String>,
    ) -> (step: X11StartStep)
        ensures
            match *cvt {
                Ok(answer) => if !answer.success {
                    switches_on(
                        step,
                        primary@,
                        dummy@,
                        x11_mode::size(config.width, config.height),
                    )
                } else {
                    match x11_mode::modeline(answer.printed()) {
                        Some(line) => step matches X11StartStep::DefineMode {
                            primary: p,
                            dummy: d,
                            mode,
                            newmode,
                            addmode,
                        } && p == primary && d == dummy && mode@ == x11_mode::mode_name(
                            config.width,
                            config.height,
                        ) && text::texts(newmode@) == seq!["--newmode"@] + x11_mode::mode_parts(
                            line,
                            mode@,
                        ) && text::texts(addmode@) == seq!["--addmode"@, dummy@, mode@],
                        None => fails_activation(step, "cvt did not return a usable modeline"@),
                    }
                },
                Err(failure) => fails_activation(step, failure@),
            },
    {
        match ensure_x11_mode(cvt, config.width, config.height) {
            Ok((mode, None)) => X11StartStep::activate(primary, dummy, mode),
            Ok((mode, Some(parts))) => {
                let newmode: Vec<String> = x11_mode::newmode_args(&parts);
                let addmode: Vec<String> = x11_mode::addmode_args(dummy.as_str(), mode.as_str());
                X11StartStep::DefineMode { primary, dummy, mode, newmode, addmode }
            },
            Err(err) => X11StartStep::Failed(err),
        }
    }

    /// After the mode was defined, or not.
    pub fn after_define(primary: String, dummy: String, mode: String) -> (step: X11StartStep)
        ensures
            switches_on(step, primary@, dummy@, mode@),
    {
        X11StartStep::activate(primary, dummy, mode)
    }

    /// After the output was switched on, or not.
    pub fn after_activate(dummy: String, result: &Result<CommandOutput, String>) -> (step:
        X11StartStep)
        ensures
            match *result {
                Ok(answer) => if answer.success {
                    step == (X11StartStep::ReadBack { dummy })
                } else {
                    fails_activation(step, answer.complaint())
                },
                Err(failure) => fails_activation(step, failure@),
            },
    {
        match accept_activation(result) {
            Ok(()) => X11StartStep::ReadBack { dummy },
            Err(err) => X11StartStep::Failed(err),
        }
    }

    /// After the outputs were listed to find the one that was switched on: the monitor is where
    /// they tell.
    pub fn after_read_back(
        config: DisplayConfig,
        dummy: String,
        query: &Result<CommandOutput, String>,
    ) -> (step: X11StartStep)
        ensures
            if usable(*query) {
                match output_position(query->Ok_0.printed(), dummy@) {
                    Some((x, y)) => step matches X11StartStep::Started(backend)
                        && backend.active_output == dummy && backend.width == config.width
                        && backend.height == config.height && backend.x == x && backend.y == y,
                    None => fails_activation(
                        step,
                        "dummy output was activated but its geometry could not be read back"@,
                    ),
                }
            } else {
                fails_query(step, *query)
            },
    {
        match query_text(query) {
            Ok(printed) => match X11DummyBackend::start(config, dummy, printed.as_str()) {
                Ok(backend) => X11StartStep::Started(backend),
                Err(err) => X11StartStep::Failed(err),
            },
            Err(err) => X11StartStep::Failed(err),
        }
    }
}

/// What came of a capture that is over.
pub fn end_capture(run: &CaptureRun) -> (out: Result<(), X11DummyError>)
    ensures
        out == if run.succeeded() {
            Ok::<(), X11DummyError>(())
        } else {
            Err::<(), X11DummyError>(X11DummyError::CaptureTimedOut)
        },
{
    if run.is_success() {
        Ok(())
    } else {
        Err(X11DummyError::CaptureTimedOut)
    }
}

/// The arguments of the helper that paints the monitor's background.
pub fn background_helper_args(
    script: &str,
    x: u32,
    y: u32,
    width: u32,
    height: u32,
    wallpaper_uri: &str,
) -> (args: Vec<String>)
    ensures
        text::texts(args@) == seq![
            script@,
            number::decimal(x as nat),
            number::decimal(y as nat),
            number::decimal(width as nat),
            number::decimal(height as nat),
            wallpaper_uri@,
        ],
{
    let mut args: Vec<String> = text::no_texts();
    text::put_str(&mut args, script);
    text::put(&mut args, number::decimal_text(x as u64));
    text::put(&mut args, number::decimal_text(y as u64));
    text::put(&mut args, number::decimal_text(width as u64));
    text::put(&mut args, number::decimal_text(height as u64));
    text::put_str(&mut args, wallpaper_uri);
    args
}

/// The wallpaper that `gsettings` printed: without white space and then without quotes around it.
pub open spec fn wallpaper(printed: Seq<char>) -> Seq<char> {
    text::trim_end_char(text::trim_start_char(text::trim(printed), '\''), '\'')
}

/// The session's wallpaper, from the answer of `gsettings`; `Err` stands for a command that could
/// not be run.
pub fn current_cinnamon_wallpaper_uri(result: &Result<CommandOutput, String>) -> (out: Result<
    String,
    X11DummyError,
>)
    ensures
        match out {
            Ok(uri) => *result matches Ok(done) && done.success && uri@ == wallpaper(
                done.printed(),
            ),
            Err(X11DummyError::ActivationFailed(why)) => match *result {
                Ok(done) => !done.success && why@ == done.complaint(),
                Err(failure) => why@ == failure@,
            },
            Err(_) => false,
        },
{
    match result {
        Ok(done) => {
            if done.success {
                let printed: String = text::trimmed(done.stdout_text().as_str());
                Ok(text::trimmed_of(printed.as_str(), '\''))
            } else {
                Err(X11DummyError::ActivationFailed(done.stderr_message()))
            }
        },
        Err(failure) => Err(X11DummyError::ActivationFailed(failure.clone())),
    }
}

/// Every disconnected output whose name is `VIRTUAL-`, `DUMMY-`, `HDMI-`, `DP-` or `VGA-` and
/// anything, or `default`, is among those that can be switched on.
pub proof fn disconnected_outputs_are_candidates(
    query: Seq<char>,
    suffix: Seq<char>,
    name: Seq<char>,
    between: Seq<char>,
    rest: Seq<char>,
)
    requires
        name == "VIRTUAL-"@ + suffix || name == "DUMMY-"@ + suffix || name == "HDMI-"@ + suffix
            || name == "DP-"@ + suffix || name == "VGA-"@ + suffix || name == "default"@,
        text::is_word(name),
        between.len() == 0 || text::is_space(between[0]),
        text::lines(query).contains(name + between + " disconnected"@ + rest),
    ensures
        candidates(query).contains(name),
{
    let lines = text::lines(query);
    let line = name + between + " disconnected"@ + rest;
    assert(" disconnected"@.len() > 0 && text::is_space(" disconnected"@[0])) by {
        reveal_strlit(" disconnected");
    }
    x11_layout::lines_begin_with_the_name(line, name, between, " disconnected"@, rest);
    text::parts_are_found("VIRTUAL-"@, suffix);
    text::parts_are_found("DUMMY-"@, suffix);
    text::parts_are_found("HDMI-"@, suffix);
    text::parts_are_found("DP-"@, suffix);
    text::parts_are_found("VGA-"@, suffix);
    let kept = listing::select(lines, runtime_line());
    listing::lemma_select(lines, runtime_line());
    let i = choose|i: int| 0 <= i < lines.len() && lines[i] == line;
    assert(runtime_line()(lines[i]));
    let k = choose|k: int| 0 <= k < kept.len() && kept[k] == line;
    assert(candidates(query)[k] == name);
}

/// An output that can be switched on has one of these names, and a line that begins with it calls
/// it disconnected.
pub proof fn candidates_are_disconnected_outputs(query: Seq<char>, k: int)
    requires
        0 <= k < candidates(query).len(),
    ensures
        ({
            let name = candidates(query)[k];
            &&& text::has_prefix(name, "VIRTUAL-"@) || text::has_prefix(name, "DUMMY-"@)
                || text::has_prefix(name, "HDMI-"@) || text::has_prefix(name, "DP-"@)
                || text::has_prefix(name, "VGA-"@) || name == "default"@
            &&& exists|i: int|
                0 <= i < text::lines(query).len() && text::contains(
                    #[trigger] text::lines(query)[i],
                    " disconnected"@,
                ) && text::first_field(text::lines(query)[i]) == Some(name)
        }),
{
    let lines = text::lines(query);
    let kept = listing::select(lines, runtime_line());
    listing::lemma_select(lines, runtime_line());
    let line = kept[k];
    assert(runtime_line()(kept[k]));
    let i = choose|i: int| 0 <= i < lines.len() && lines[i] == line;
    assert(lines[i] == line);
    assert(candidates(query)[k] == x11_layout::line_name(line));
}

/// Outputs that can be switched on are listed in the order of their lines: one that no disconnected
/// output comes before is the first.
pub proof fn first_disconnected_output_comes_first(
    query: Seq<char>,
    i: int,
    suffix: Seq<char>,
    name: Seq<char>,
    between: Seq<char>,
    rest: Seq<char>,
)
    requires
        0 <= i < text::lines(query).len(),
        name == "VIRTUAL-"@ + suffix || name == "DUMMY-"@ + suffix || name == "HDMI-"@ + suffix
            || name == "DP-"@ + suffix || name == "VGA-"@ + suffix || name == "default"@,
        x11_layout::says_of(text::lines(query)[i], name, between, " disconnected"@, rest),
        forall|j: int|
            0 <= j < i ==> !text::contains(#[trigger] text::lines(query)[j], " disconnected"@),
    ensures
        candidates(query).len() > 0,
        candidates(query)[0] == name,
{
    let lines = text::lines(query);
    x11_layout::lines_begin_with_the_name(lines[i], name, between, " disconnected"@, rest);
    text::parts_are_found("VIRTUAL-"@, suffix);
    text::parts_are_found("DUMMY-"@, suffix);
    text::parts_are_found("HDMI-"@, suffix);
    text::parts_are_found("DP-"@, suffix);
    text::parts_are_found("VGA-"@, suffix);
    assert(runtime_line()(lines[i]));
    listing::first_is_selected(lines, runtime_line(), i);
}

/// What is listed after other lines does not change which outputs are found in these: the outputs
/// of a list are those of its lines, one line after the other.
pub proof fn candidates_are_found_line_by_line(query: Seq<char>, line: Seq<char>)
    requires
        !line.contains('\n'),
        line.len() == 0 || line.last() != '\r',
    ensures
        candidates(line + seq!['\n'] + query) == candidates(line) + candidates(query),
{
    text::lines_end_at_newlines(line, query);
    let p = runtime_line();
    let rest = text::lines(query);
    listing::selections_keep_the_order(seq![line], rest, p, line);
    if line.len() > 0 {
        text::single_lines(line);
    } else {
        assert(text::lines(line) =~= Seq::empty());
        assert(!p(line));
    }
    assert(listing::select(text::lines(line), p) =~= listing::select(seq![line], p));
    assert(candidates(line + seq!['\n'] + query) =~= candidates(line) + candidates(query));
}

/// The primary output is the one that the first line with ` connected primary` begins with; there
/// is none where no line says so.
pub proof fn primary_outputs_are_found(
    query: Seq<char>,
    i: int,
    name: Seq<char>,
    between: Seq<char>,
    rest: Seq<char>,
)
    requires
        0 <= i <= text::lines(query).len(),
        i < text::lines(query).len() ==> x11_layout::says_of(
            text::lines(query)[i],
            name,
            between,
            " connected primary"@,
            rest,
        ),
        forall|j: int|
            0 <= j < i ==> !text::contains(
                #[trigger] text::lines(query)[j],
                " connected primary"@,
            ),
    ensures
        primary_name(query) == if i < text::lines(query).len() {
            Some(name)
        } else {
            None
        },
{
    let lines = text::lines(query);
    if i < lines.len() {
        x11_layout::lines_begin_with_the_name(
            lines[i],
            name,
            between,
            " connected primary"@,
            rest,
        );
        listing::first_is_found(lines, primary_line(), i);
    } else {
        listing::lemma_first_where(lines, primary_line());
    }
}

/// The position of an output is the one that its line tells: where a line says that `name` is
/// connected at a position, and no line before it begins with that name, this is the position.
pub proof fn positions_are_read_from_the_list(
    query: Seq<char>,
    i: int,
    name: Seq<char>,
    mode: Seq<char>,
    x: u32,
    y: u32,
    rest: Seq<char>,
)
    requires
        0 <= i < text::lines(query).len(),
        text::is_word(name),
        !text::is_digit(name[0]),
        text::is_word(mode),
        !mode.contains('+'),
        text::is_digit(mode[0]),
        rest.len() == 0 || text::is_space(rest[0]),
        text::lines(query)[i] == name + " "@ + ("connected"@ + " "@ + (mode + "+"@
            + (number::decimal(x as nat) + "+"@ + number::decimal(y as nat)) + rest)),
        forall|j: int| 0 <= j < i ==> !text::has_prefix(#[trigger] text::lines(query)[j], name),
    ensures
        output_position(query, name) == Some((x as int, y as int)),
{
    let lines = text::lines(query);
    let a = number::decimal(x as nat);
    let b = number::decimal(y as nat);
    lemma_decimal_words(x as nat);
    lemma_decimal_words(y as nat);
    assert(x11_layout::can_be_written(mode, a, b));
    let place = x11_layout::written(mode, a, b);
    x11_layout::connected_outputs_are_found(name, mode, a, b, rest);
    position_reads_back(mode, x, y);
    text::parts_are_found(name, " "@ + ("connected"@ + " "@ + (place + rest)));
    assert(lines[i] =~= name + (" "@ + ("connected"@ + " "@ + (place + rest))));
    listing::first_made_is_found(lines, position_in_line(name), i);
}

proof fn lemma_decimal_words(n: nat)
    ensures
        text::is_word(number::decimal(n)),
        !number::decimal(n).contains('+'),
{
    let digits = number::decimal(n);
    number::decimal_is_digits(n);
    assert forall|i: int| 0 <= i < digits.len() implies !text::is_space(#[trigger] digits[i]) by {
        assert(text::is_digit(digits[i]));
    }
}

/// The part of the screen that is grabbed is named by the session, a `+`, and the corner, whose
/// coordinates read back as they were given; without a session it is `:0`.
pub proof fn grabs_name_the_corner(session: Seq<char>, x: u32, y: u32)
    requires
        !session.contains('+'),
    ensures
        ({
            let corner = number::decimal(x as nat) + ","@ + number::decimal(y as nat);
            &&& text::split_once(grab_source(Some(session), x, y), "+"@) == Some((session, corner))
            &&& text::split_once(corner, ","@) == Some(
                (number::decimal(x as nat), number::decimal(y as nat)),
            )
            &&& number::unsigned_value(number::decimal(x as nat), u32::MAX as int) == Ok::<
                int,
                number::NumberError,
            >(x as int)
            &&& number::unsigned_value(number::decimal(y as nat), u32::MAX as int) == Ok::<
                int,
                number::NumberError,
            >(y as int)
            &&& grab_source(None, x, y) == grab_source(Some(":0"@), x, y)
        }),
{
    let a = number::decimal(x as nat);
    let b = number::decimal(y as nat);
    number::decimal_is_digits(x as nat);
    number::decimal_reads_back(x as nat, u32::MAX as int);
    number::decimal_reads_back(y as nat, u32::MAX as int);
    assert("+"@ =~= seq!['+']) by {
        reveal_strlit("+");
    }
    assert(","@ =~= seq![',']) by {
        reveal_strlit(",");
    }
    assert(!a.contains(','));
    text::divided_at_separator(session, "+"@, a + ","@ + b);
    assert(grab_source(Some(session), x, y) =~= session + "+"@ + (a + ","@ + b));
    text::divided_at_separator(a, ","@, b);
}

/// A step that switches an output on names that output, the mode that it is given, and the output
/// that it is put to the right of.
pub proof fn outputs_are_switched_on(
    step: X11StartStep,
    primary: Seq<char>,
    dummy: Seq<char>,
    mode: Seq<char>,
)
    requires
        switches_on(step, primary, dummy, mode),
    ensures
        step matches X11StartStep::Activate { dummy: named, args } && named@ == dummy
            && args@.len() == 7 && args@[0]@ == "--output"@ && args@[1]@ == dummy && args@[2]@
            == "--mode"@ && args@[3]@ == mode && args@[4]@ == "--right-of"@ && args@[5]@ == primary
            && args@[6]@ == "--auto"@,
{
    if let X11StartStep::Activate { dummy: named, args } = step {
        let held = text::texts(args@);
        assert(held.len() == 7);
        assert(held[0] == args@[0]@ && held[1] == args@[1]@ && held[2] == args@[2]@ && held[3]
            == args@[3]@ && held[4] == args@[4]@ && held[5] == args@[5]@ && held[6] == args@[6]@);
    }
}

/// A start that ends because a query or an activation failed tells why: what the command
/// complained of, or why it could not be run. A query can be used exactly where it succeeded.
pub proof fn failed_starts_tell_why(
    step: X11StartStep,
    query: Result<CommandOutput, String>,
    reason: Seq<char>,
)
    ensures
        usable(query) <==> (query matches Ok(done) && done.success),
        fails_query(step, query) ==> !usable(query) && step is Failed && (query matches Err(failure)
            ==> step->Failed_0.text() == "xrandr query failed: "@ + failure@) && (query matches Ok(
            done,
        ) ==> step->Failed_0.text() == "xrandr query failed: "@ + done.complaint()),
        fails_activation(step, reason) ==> step is Failed && step->Failed_0.text()
            == "failed to create or activate the X11 dummy output: "@ + reason,
{
}

/// The wallpaper is what `gsettings` printed between white space and quotes, whatever it is.
pub proof fn wallpapers_are_unquoted(before: Seq<char>, uri: Seq<char>, after: Seq<char>)
    requires
        text::is_blank(before),
        text::is_blank(after),
        uri.len() > 0,
        uri[0] != '\'',
        uri.last() != '\'',
    ensures
        wallpaper(before + (seq!['\''] + uri + seq!['\'']) + after) == uri,
        !text::is_space(uri[0]) && !text::is_space(uri.last()) ==> wallpaper(before + uri + after)
            == uri,
{
    let quoted = seq!['\''] + uri + seq!['\''];
    assert(quoted[0] == '\'' && quoted.last() == '\'');
    text::trimming_leaves_the_middle(before, quoted, after);
    text::quotes_are_taken_off(uri, '\'');
    if !text::is_space(uri[0]) && !text::is_space(uri.last()) {
        text::trimming_leaves_the_middle(before, uri, after);
    }
}

/// An error in words ends with the reason that it carries.
pub proof fn errors_tell_their_reason(err: X11DummyError)
    ensures
        match err {
            X11DummyError::QueryFailed(why)
            | X11DummyError::ActivationFailed(why)
            | X11DummyError::CaptureFailed(why)
            | X11DummyError::FrameWriteFailed(why) => text::has_suffix(err.text(), why@),
            _ => true,
        },
{
    match err {
        X11DummyError::QueryFailed(why) => text::parts_are_found("xrandr query failed: "@, why@),
        X11DummyError::ActivationFailed(why) => text::parts_are_found(
            "failed to create or activate the X11 dummy output: "@,
            why@,
        ),
        X11DummyError::CaptureFailed(why) => text::parts_are_found(
            "failed to capture X11 dummy output: "@,
            why@,
        ),
        X11DummyError::FrameWriteFailed(why) => text::parts_are_found(
            "failed to write PNG frame: "@,
            why@,
        ),
        _ => {},
    }
}

/// An output that no line begins with has no position.
pub proof fn unlisted_outputs_have_no_position(query: Seq<char>, name: Seq<char>)
    requires
        forall|i: int|
            0 <= i < text::lines(query).len() ==> !text::has_prefix(
                #[trigger] text::lines(query)[i],
                name,
            ),
    ensures
        output_position(query, name) is None,
{
    listing::first_made_is_found(
        text::lines(query),
        position_in_line(name),
        text::lines(query).len() as int,
    );
}

/// A geometry tells a position only with two numbers that 32 bits can count.
pub proof fn positions_have_two_numbers(mode: Seq<char>, x: Seq<char>, y: Seq<char>)
    requires
        !mode.contains('+'),
        !x.contains('+'),
        !y.contains('+'),
        number::unsigned_value(x, u32::MAX as int) is Err || number::unsigned_value(
            y,
            u32::MAX as int,
        ) is Err,
    ensures
        geometry_position(mode + "+"@ + (x + "+"@ + y)) is None,
        geometry_position(mode + "+"@ + x) is None,
        geometry_position(mode) is None,
{
    assert("+"@ =~= seq!['+']) by {
        reveal_strlit("+");
    }
    text::divided_at_separator(mode, "+"@, x + "+"@ + y);
    text::pieces_around_separator(x, '+', y);
    text::divided_at_separator(mode, "+"@, x);
    assert forall|i: int| 0 <= i < x.len() implies #[trigger] x[i] != '+' by {
        assert(x.contains(x[i]));
    }
    text::single_piece(x, '+');
    text::found_parts_are_there(mode, "+"@);
    if text::contains(mode, "+"@) {
        let at = choose|at: int| text::occurs_at(mode, "+"@, at);
        assert(mode.subrange(at, at + 1)[0] == '+');
        assert(mode[at] == '+');
    }
}

/// A grab takes the part of the screen that it is told, of the size that it is told, and writes one
/// picture to the file that it is told.
pub proof fn grabs_take_what_they_are_told(
    display: Option<&str>,
    path: &str,
    width: u32,
    height: u32,
    x: u32,
    y: u32,
    args: Vec<String>,
)
    requires
        call_ensures(capture_output_region_args, (display, path, width, height, x, y), args),
    ensures
        args@.len() == 15,
        args@[5]@ == "x11grab"@,
        args@[6]@ == "-video_size"@,
        args@[7]@ == x11_mode::size(width, height),
        args@[8]@ == "-i"@,
        args@[9]@ == grab_source(text::opt_str(display), x, y),
        args@[10]@ == "-frames:v"@,
        args@[11]@ == "1"@,
        args@[14]@ == path@,
{
    let held = text::texts(args@);
    assert(held.len() == 15);
    assert(held[5] == args@[5]@ && held[6] == args@[6]@ && held[7] == args@[7]@ && held[8]
        == args@[8]@ && held[9] == args@[9]@ && held[10] == args@[10]@ && held[11] == args@[11]@
        && held[14] == args@[14]@);
}

/// The helper that paints the background is told its place and its size, which read back as they
/// were given, and the wallpaper.
pub proof fn helpers_are_told_the_place(
    script: &str,
    x: u32,
    y: u32,
    width: u32,
    height: u32,
    wallpaper_uri: &str,
    args: Vec<String>,
)
    requires
        call_ensures(background_helper_args, (script, x, y, width, height, wallpaper_uri), args),
    ensures
        args@.len() == 6,
        args@[0]@ == script@,
        number::unsigned_value(args@[1]@, u32::MAX as int) == Ok::<int, number::NumberError>(
            x as int,
        ),
        number::unsigned_value(args@[2]@, u32::MAX as int) == Ok::<int, number::NumberError>(
            y as int,
        ),
        number::unsigned_value(args@[3]@, u32::MAX as int) == Ok::<int, number::NumberError>(
            width as int,
        ),
        number::unsigned_value(args@[4]@, u32::MAX as int) == Ok::<int, number::NumberError>(
            height as int,
        ),
        args@[5]@ == wallpaper_uri@,
{
    let held = text::texts(args@);
    assert(held.len() == 6);
    assert(held[0] == args@[0]@ && held[1] == args@[1]@ && held[2] == args@[2]@ && held[3]
        == args@[3]@ && held[4] == args@[4]@ && held[5] == args@[5]@);
    number::decimal_reads_back(x as nat, u32::MAX as int);
    number::decimal_reads_back(y as nat, u32::MAX as int);
    number::decimal_reads_back(width as nat, u32::MAX as int);
    number::decimal_reads_back(height as nat, u32::MAX as int);
}

/// A start goes on with the first disconnected output that is listed, whatever follows the `HDMI-`,
/// `DP-`, `VGA-`, `VIRTUAL-` or `DUMMY-` of its name, and asks for a mode of the size that is
/// wanted.
pub proof fn starts_take_the_first_disconnected_output(
    config: DisplayConfig,
    primary: String,
    answer: CommandOutput,
    i: int,
    suffix: Seq<char>,
    name: Seq<char>,
    between: Seq<char>,
    rest: Seq<char>,
    step: X11StartStep,
)
    requires
        answer.success,
        0 <= i < text::lines(answer.printed()).len(),
        name == "VIRTUAL-"@ + suffix || name == "DUMMY-"@ + suffix || name == "HDMI-"@ + suffix
            || name == "DP-"@ + suffix || name == "VGA-"@ + suffix || name == "default"@,
        x11_layout::says_of(
            text::lines(answer.printed())[i],
            name,
            between,
            " disconnected"@,
            rest,
        ),
        forall|j: int|
            0 <= j < i ==> !text::contains(
                #[trigger] text::lines(answer.printed())[j],
                " disconnected"@,
            ),
        call_ensures(X11StartStep::after_requery, (config, primary, &Ok(answer)), step),
    ensures
        step matches X11StartStep::AskMode { primary: p, dummy, args } && p == primary && dummy@
            == name && args@.len() == 3 && number::unsigned_value(args@[0]@, u32::MAX as int)
            == Ok::<int, number::NumberError>(config.width as int) && number::unsigned_value(
            args@[1]@,
            u32::MAX as int,
        ) == Ok::<int, number::NumberError>(config.height as int),
{
    first_disconnected_output_comes_first(answer.printed(), i, suffix, name, between, rest);
    x11_mode::modes_are_asked_for(config.width, config.height);
    if let X11StartStep::AskMode { primary: p, dummy, args } = step {
        let held = text::texts(args@);
        assert(held.len() == 3);
        assert(held[0] == args@[0]@ && held[1] == args@[1]@);
    }
}

/// A monitor that was switched on has the size that was wanted and the position that its line
/// tells.
pub proof fn monitors_are_where_their_line_tells(
    config: DisplayConfig,
    dummy: String,
    query: &str,
    i: int,
    mode: Seq<char>,
    x: u32,
    y: u32,
    rest: Seq<char>,
    out: Result<X11DummyBackend, X11DummyError>,
)
    requires
        0 <= i < text::lines(query@).len(),
        text::is_word(dummy@),
        !text::is_digit(dummy@[0]),
        text::is_word(mode),
        !mode.contains('+'),
        text::is_digit(mode[0]),
        rest.len() == 0 || text::is_space(rest[0]),
        text::lines(query@)[i] == dummy@ + " "@ + ("connected"@ + " "@ + (mode + "+"@
            + (number::decimal(x as nat) + "+"@ + number::decimal(y as nat)) + rest)),
        forall|j: int| 0 <= j < i ==> !text::has_prefix(#[trigger] text::lines(query@)[j], dummy@),
        call_ensures(X11DummyBackend::start, (config, dummy, query), out),
    ensures
        out == Ok::<X11DummyBackend, X11DummyError>(
            X11DummyBackend {
                active_output: dummy,
                width: config.width,
                height: config.height,
                x,
                y,
            },
        ),
{
    positions_are_read_from_the_list(query@, i, dummy@, mode, x, y, rest);
}

} // verus!
