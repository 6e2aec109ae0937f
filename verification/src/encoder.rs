//! H.264 made of captured frames by `ffmpeg`.
use vstd::prelude::*;

use crate::capture;
use crate::config::EncodeConfig;
use crate::config::ServeConfig;
use crate::number;
use crate::path;
use crate::process::CommandOutput;
use crate::process::LaunchError;
use crate::text;

verus! {

/// Why frames could not be encoded.
#[derive(Debug, Clone)]
pub enum EncodeError {
    NoFrames,
    CreateOutputDir(String),
    CopyPreviewArtifact(String),
    FfmpegUnavailable,
    MissingLibx264,
    SpawnFailed(String),
    EncodeFailed(String),
}

impl EncodeError {
    /// The error in words.
    pub open spec fn text(self) -> Seq<char> {
        match self {
            EncodeError::NoFrames => "no captured frames were available for encoding"@,
            EncodeError::CreateOutputDir(why) =>
                "failed to create encoder output directory: "@ + why@,
            EncodeError::CopyPreviewArtifact(why) =>
                "failed to stage preview segment output: "@ + why@,
            EncodeError::FfmpegUnavailable => "ffmpeg is not installed or not available on PATH"@,
            EncodeError::MissingLibx264 => "ffmpeg does not expose the libx264 encoder"@,
            EncodeError::SpawnFailed(why) => "failed to invoke ffmpeg: "@ + why@,
            EncodeError::EncodeFailed(why) => "ffmpeg encoding failed: "@ + why@,
        }
    }

    /// The error in words.
    pub fn message(&self) -> (out: String)
        ensures
            out@ == self.text(),
    {
        match self {
            EncodeError::NoFrames =>
                "no captured frames were available for encoding".to_owned(),
            EncodeError::CreateOutputDir(why) =>
                "failed to create encoder output directory: ".to_owned().concat(why.as_str()),
            EncodeError::CopyPreviewArtifact(why) =>
                "failed to stage preview segment output: ".to_owned().concat(why.as_str()),
            EncodeError::FfmpegUnavailable =>
                "ffmpeg is not installed or not available on PATH".to_owned(),
            EncodeError::MissingLibx264 =>
                "ffmpeg does not expose the libx264 encoder".to_owned(),
            EncodeError::SpawnFailed(why) => "failed to invoke ffmpeg: ".to_owned().concat(
                why.as_str(),
            ),
            EncodeError::EncodeFailed(why) => "ffmpeg encoding failed: ".to_owned().concat(
                why.as_str(),
            ),
        }
    }
}

/// A preview that was made: the video, and the copy of it that is served.
#[derive(Debug, Clone)]
pub struct EncodedPreviewArtifact {
    pub mp4_path: String,
    pub segment_path: String,
}

/// The arguments that let `ffmpeg` tell its version.
pub fn version_args() -> (args: Vec<String>)
    ensures
        text::texts(args@) == seq!["-hide_banner"@, "-version"@],
{
    let mut args: Vec<String> = text::no_texts();
    text::put_str(&mut args, "-hide_banner");
    text::put_str(&mut args, "-version");
    args
}

/// The arguments that let `ffmpeg` list its encoders.
pub fn encoders_args() -> (args: Vec<String>)
    ensures
        text::texts(args@) == seq!["-hide_banner"@, "-encoders"@],
{
    let mut args: Vec<String> = text::no_texts();
    text::put_str(&mut args, "-hide_banner");
    text::put_str(&mut args, "-encoders");
    args
}

/// Accepts an `ffmpeg` that tells its version.
pub fn check_version(version: &Result<CommandOutput, LaunchError>) -> (out: Result<(), EncodeError>)
    ensures
        match out {
            Ok(()) => *version matches Ok(done) && done.success,
            Err(EncodeError::FfmpegUnavailable) => match *version {
                Ok(done) => !done.success,
                Err(err) => err.not_found,
            },
            Err(EncodeError::SpawnFailed(why)) => *version matches Err(err) && !err.not_found
                && why@ == err.message@,
            Err(_) => false,
        },
{
    match version {
        Ok(done) => if done.success {
            Ok(())
        } else {
            Err(EncodeError::FfmpegUnavailable)
        },
        Err(err) => if err.not_found {
            Err(EncodeError::FfmpegUnavailable)
        } else {
            Err(EncodeError::SpawnFailed(err.message.clone()))
        },
    }
}

/// Accepts an `ffmpeg` that lists the encoder for H.264; `Err` stands for a command that could not
/// be run.
pub fn check_encoders(encoders: &Result<CommandOutput, String>) -> (out: Result<(), EncodeError>)
    ensures
        match out {
            Ok(()) => *encoders matches Ok(done) && done.success && text::contains(
                done.printed(),
                "libx264"@,
            ),
            Err(EncodeError::FfmpegUnavailable) => *encoders matches Ok(done) && !done.success,
            Err(EncodeError::MissingLibx264) => *encoders matches Ok(done) && done.success
                && !text::contains(done.printed(), "libx264"@),
            Err(EncodeError::SpawnFailed(why)) => *encoders matches Err(failure) && why@
                == failure@,
            Err(_) => false,
        },
{
    match encoders {
        Ok(done) => if !done.success {
            Err(EncodeError::FfmpegUnavailable)
        } else if text::holds(done.stdout_text().as_str(), "libx264") {
            Ok(())
        } else {
            Err(EncodeError::MissingLibx264)
        },
        Err(failure) => Err(EncodeError::SpawnFailed(failure.clone())),
    }
}

/// The arguments that let `ffmpeg` print one frame as H.264 with start codes.
pub open spec fn annexb(frame_path: Seq<char>) -> Seq<Seq<char>> {
    seq![
        "-hide_banner"@,
        "-loglevel"@,
        "error"@,
        "-y"@,
        "-loop"@,
        "1"@,
        "-i"@,
        frame_path,
        "-frames:v"@,
        "1"@,
        "-c:v"@,
        "libx264"@,
        "-profile:v"@,
        "baseline"@,
        "-level"@,
        "3.1"@,
        "-preset"@,
        "ultrafast"@,
        "-tune"@,
        "zerolatency"@,
        "-x264-params"@,
        "repeat-headers=1:annexb=1:keyint=1:min-keyint=1:scenecut=0"@,
        "-pix_fmt"@,
        "yuv420p"@,
        "-bf"@,
        "0"@,
        "-f"@,
        "h264"@,
        "-"@,
    ]
}

/// The arguments that let `ffmpeg` print one frame as H.264 with start codes.
pub fn annexb_args(frame_path: &str) -> (args: Vec<String>)
    ensures
        text::texts(args@) == annexb(frame_path@),
{
    let mut args: Vec<String> = text::no_texts();
    text::put_str(&mut args, "-hide_banner");
    text::put_str(&mut args, "-loglevel");
    text::put_str(&mut args, "error");
    text::put_str(&mut args, "-y");
    text::put_str(&mut args, "-loop");
    text::put_str(&mut args, "1");
    text::put_str(&mut args, "-i");
    text::put_str(&mut args, frame_path);
    text::put_str(&mut args, "-frames:v");
    text::put_str(&mut args, "1");
    text::put_str(&mut args, "-c:v");
    text::put_str(&mut args, "libx264");
    text::put_str(&mut args, "-profile:v");
    text::put_str(&mut args, "baseline");
    text::put_str(&mut args, "-level");
    text::put_str(&mut args, "3.1");
    text::put_str(&mut args, "-preset");
    text::put_str(&mut args, "ultrafast");
    text::put_str(&mut args, "-tune");
    text::put_str(&mut args, "zerolatency");
    text::put_str(&mut args, "-x264-params");
    text::put_str(&mut args, "repeat-headers=1:annexb=1:keyint=1:min-keyint=1:scenecut=0");
    text::put_str(&mut args, "-pix_fmt");
    text::put_str(&mut args, "yuv420p");
    text::put_str(&mut args, "-bf");
    text::put_str(&mut args, "0");
    text::put_str(&mut args, "-f");
    text::put_str(&mut args, "h264");
    text::put_str(&mut args, "-");
    args
}

/// The H.264 that `ffmpeg` printed of a frame; `Err` stands for a command that could not be run.
pub fn encode_png_to_h264_annexb(result: Result<CommandOutput, String>) -> (out: Result<
    Vec<u8>,
    EncodeError,
>)
    ensures
        match out {
            Ok(bytes) => result matches Ok(done) && done.success && bytes == done.stdout,
            Err(EncodeError::EncodeFailed(why)) => result matches Ok(done) && !done.success && why@
                == done.complaint(),
            Err(EncodeError::SpawnFailed(why)) => result == Err::<CommandOutput, String>(why),
            Err(_) => false,
        },
{
    match result {
        Ok(done) => if done.success {
            Ok(done.stdout)
        } else {
            Err(EncodeError::EncodeFailed(done.stderr_message()))
        },
        Err(failure) => Err(EncodeError::SpawnFailed(failure)),
    }
}

/// Accepts captured frames that there are any of.
pub fn require_frames(frame_paths: &Vec<String>) -> (out: Result<(), EncodeError>)
    ensures
        out == if frame_paths@.len() == 0 {
            Err::<(), EncodeError>(EncodeError::NoFrames)
        } else {
            Ok::<(), EncodeError>(())
        },
{
    if frame_paths.len() == 0 {
        Err(EncodeError::NoFrames)
    } else {
        Ok(())
    }
}

/// How a video is to be made of captured frames.
#[derive(Debug, Clone)]
pub struct VideoPlan {
    /// The directory that the video is written to.
    pub output_dir: Option<String>,
    /// The arguments of `ffmpeg`.
    pub args: Vec<String>,
    /// The video, and the copy of it that is served.
    pub artifact: EncodedPreviewArtifact,
    /// Whether the served file is to be copied.
    pub copies: bool,
    /// The directory that the copy is written to.
    pub segment_dir: Option<String>,
}

/// The frames per second of a video: at least one.
pub open spec fn video_rate(framerate: u32) -> nat {
    if framerate == 0 {
        1
    } else {
        framerate as nat
    }
}

/// The arguments that let `ffmpeg` make a video of `count` frames in `frame_dir`.
pub open spec fn video(
    frame_dir: Seq<char>,
    rate: nat,
    count: nat,
    output_path: Seq<char>,
) -> Seq<Seq<char>> {
    seq![
        "-hide_banner"@,
        "-loglevel"@,
        "error"@,
        "-y"@,
        "-framerate"@,
        number::decimal(rate),
        "-i"@,
        path::join(frame_dir, "frame-%04d.png"@),
        "-frames:v"@,
        number::decimal(count),
        "-c:v"@,
        "libx264"@,
        "-preset"@,
        "ultrafast"@,
        "-tune"@,
        "zerolatency"@,
        "-pix_fmt"@,
        "yuv420p"@,
        "-g"@,
        number::decimal(rate),
        "-bf"@,
        "0"@,
        "-movflags"@,
        "+faststart"@,
        output_path,
    ]
}

fn video_args(frame_dir: &str, rate: u32, count: usize, output_path: &str) -> (args: Vec<String>)
    ensures
        text::texts(args@) == video(frame_dir@, rate as nat, count as nat, output_path@),
{
    let mut args: Vec<String> = text::no_texts();
    text::put_str(&mut args, "-hide_banner");
    text::put_str(&mut args, "-loglevel");
    text::put_str(&mut args, "error");
    text::put_str(&mut args, "-y");
    text::put_str(&mut args, "-framerate");
    text::put(&mut args, number::decimal_text(rate as u64));
    text::put_str(&mut args, "-i");
    text::put(&mut args, path::join_path(frame_dir, "frame-%04d.png"));
    text::put_str(&mut args, "-frames:v");
    text::put(&mut args, number::decimal_text(count as u64));
    text::put_str(&mut args, "-c:v");
    text::put_str(&mut args, "libx264");
    text::put_str(&mut args, "-preset");
    text::put_str(&mut args, "ultrafast");
    text::put_str(&mut args, "-tune");
    text::put_str(&mut args, "zerolatency");
    text::put_str(&mut args, "-pix_fmt");
    text::put_str(&mut args, "yuv420p");
    text::put_str(&mut args, "-g");
    text::put(&mut args, number::decimal_text(rate as u64));
    text::put_str(&mut args, "-bf");
    text::put_str(&mut args, "0");
    text::put_str(&mut args, "-movflags");
    text::put_str(&mut args, "+faststart");
    text::put_str(&mut args, output_path);
    args
}

/// The file that is served: the configured segment, or the video itself where none is served.
pub open spec fn served_path(config: EncodeConfig, serve: Option<&ServeConfig>) -> Seq<char> {
    match serve {
        Some(served) => served.latest_segment_path@,
        None => config.output_path@,
    }
}

/// How a video is made of the frames: those in the directory of the first one, as many as there
/// are, at the configured rate. The video is copied to the served file where that is another one.
pub fn encode_h264_mp4_from_pngs(
    config: &EncodeConfig,
    serve: Option<&ServeConfig>,
    frame_paths: &Vec<String>,
) -> (out: Result<VideoPlan, EncodeError>)
    ensures
        match out {
            Ok(plan) => frame_paths@.len() > 0 && (path::parent(frame_paths@[0]@) matches Some(
                frame_dir,
            ) && text::texts(plan.args@) == video(
                frame_dir,
                video_rate(config.framerate),
                frame_paths@.len(),
                config.output_path@,
            )) && text::opt_text(plan.output_dir) == path::parent(config.output_path@)
                && plan.artifact.mp4_path@ == config.output_path@ && plan.artifact.segment_path@
                == served_path(*config, serve) && plan.copies == !path::same(
                served_path(*config, serve),
                config.output_path@,
            ) && text::opt_text(plan.segment_dir) == path::parent(served_path(*config, serve))
                && plan.args@.len() == 25 && plan.args@[8]@ == "-frames:v"@
                && number::unsigned_value(plan.args@[9]@, usize::MAX as int) == Ok::<
                int,
                number::NumberError,
            >(frame_paths@.len() as int),
            Err(EncodeError::NoFrames) => frame_paths@.len() == 0,
            Err(EncodeError::EncodeFailed(why)) => frame_paths@.len() > 0 && path::parent(
                frame_paths@[0]@,
            ) is None && why@ == "captured frame path did not have a parent directory"@,
            Err(_) => false,
        },
{
    match require_frames(frame_paths) {
        Ok(()) => {},
        Err(err) => {
            return Err(err);
        },
    }
    let frame_dir: String = match path::parent_path(frame_paths[0].as_str()) {
        Some(dir) => dir,
        None => {
            return Err(
                EncodeError::EncodeFailed(
                    "captured frame path did not have a parent directory".to_owned(),
                ),
            );
        },
    };
    let rate: u32 = if config.framerate == 0 {
        1
    } else {
        config.framerate
    };
    let output_path: &str = config.output_path.as_str();
    let segment_path: String = match serve {
        Some(served) => served.latest_segment_path.clone(),
        None => config.output_path.clone(),
    };
    let copies: bool = !path::same_path(segment_path.as_str(), output_path);
    let segment_dir: Option<String> = path::parent_path(segment_path.as_str());
    let args: Vec<String> = video_args(frame_dir.as_str(), rate, frame_paths.len(), output_path);
    proof {
        videos_hold_every_frame(frame_dir@, config.framerate, frame_paths.len(), output_path@);
        assert(text::texts(args@)[8] == args@[8]@);
        assert(text::texts(args@)[9] == args@[9]@);
    }
    Ok(
        VideoPlan {
            output_dir: path::parent_path(output_path),
            args,
            artifact: EncodedPreviewArtifact { mp4_path: output_path.to_owned(), segment_path },
            copies,
            segment_dir,
        },
    )
}

/// Accepts a video that `ffmpeg` made; `Err` stands for a command that could not be run.
pub fn accept_video(result: &Result<CommandOutput, String>) -> (out: Result<(), EncodeError>)
    ensures
        match out {
            Ok(()) => *result matches Ok(done) && done.success,
            Err(EncodeError::EncodeFailed(why)) => *result matches Ok(done) && !done.success && why@
                == done.complaint(),
            Err(EncodeError::SpawnFailed(why)) => *result matches Err(failure) && why@ == failure@,
            Err(_) => false,
        },
{
    match result {
        Ok(done) => if done.success {
            Ok(())
        } else {
            Err(EncodeError::EncodeFailed(done.stderr_message()))
        },
        Err(failure) => Err(EncodeError::SpawnFailed(failure.clone())),
    }
}

/// The encoder reads frames where the capture wrote them: the pattern that it is given, in the
/// directory of a captured frame, has the path of the pattern in the directory that the capture was
/// told. That directory is the one of the frame to the letter where it does not end with a
/// separator or with `.`.
pub proof fn frames_are_read_where_they_were_written(output_dir: Seq<char>, index: nat)
    ensures
        path::parent(path::join(output_dir, capture::frame_name(index))) matches Some(dir)
            && path::same(
            path::join(dir, "frame-%04d.png"@),
            path::join(output_dir, "frame-%04d.png"@),
        ),
        path::without_tail(output_dir, path::head_len(output_dir)) == output_dir ==> path::parent(
            path::join(output_dir, capture::frame_name(index)),
        ) == Some(output_dir),
{
    let name = capture::frame_name(index);
    let digits = number::decimal4(index);
    reveal_strlit("frame-");
    reveal_strlit(".png");
    reveal_strlit("000");
    reveal_strlit("00");
    reveal_strlit("0");
    reveal_strlit(".");
    number::decimal_is_digits(index);
    assert forall|i: int| 0 <= i < digits.len() implies #[trigger] digits[i] != '/' by {
        let pad = digits.len() - number::decimal(index).len();
        if i >= pad {
            assert(digits[i] == number::decimal(index)[i - pad]);
        }
    }
    assert forall|i: int| 0 <= i < name.len() implies #[trigger] name[i] != '/' by {
        if 6 <= i < 6 + digits.len() {
            assert(name[i] == digits[i - 6]);
        }
    }
    assert(name[0] == 'f');
    assert(name.len() > 1 && "."@.len() == 1);
    assert(path::is_name(name));
    path::parent_of_joined(output_dir, name);
    reveal_strlit("frame-%04d.png");
    let pattern = "frame-%04d.png"@;
    assert(pattern.len() == 14 && "."@.len() == 1);
    assert forall|i: int| 0 <= i < pattern.len() implies #[trigger] pattern[i] != '/' by {}
    assert(path::is_name(pattern));
    path::joined_without_tail(output_dir, "frame-%04d.png"@);
}

/// A video holds every captured frame, at the rate that is configured: the argument after
/// `-frames:v` reads back as the number of frames, and those after `-framerate` and `-g` as the
/// rate, or as one where none is configured. The frames are read in the directory that is told,
/// and the video is written where it is told.
pub proof fn videos_hold_every_frame(
    frame_dir: Seq<char>,
    framerate: u32,
    count: usize,
    output_path: Seq<char>,
)
    ensures
        ({
            let args = video(frame_dir, video_rate(framerate), count as nat, output_path);
            let rate: int = if framerate > 0 {
                framerate as int
            } else {
                1
            };
            &&& args.len() == 25
            &&& args[4] == "-framerate"@
            &&& number::unsigned_value(args[5], u32::MAX as int) == Ok::<int, number::NumberError>(
                rate,
            )
            &&& args[6] == "-i"@
            &&& args[7] == path::join(frame_dir, "frame-%04d.png"@)
            &&& args[8] == "-frames:v"@
            &&& number::unsigned_value(args[9], usize::MAX as int) == Ok::<
                int,
                number::NumberError,
            >(count as int)
            &&& args[10] == "-c:v"@
            &&& args[11] == "libx264"@
            &&& args[18] == "-g"@
            &&& args[19] == args[5]
            &&& args[24] == output_path
        }),
{
    number::decimal_reads_back(video_rate(framerate), u32::MAX as int);
    number::decimal_reads_back(count as nat, usize::MAX as int);
}

/// The arguments for two videos differ only where the videos do: in the directory of the frames,
/// in the rate, in the number of frames and in the file.
pub proof fn videos_differ_in_what_they_are_made_of(
    dir: Seq<char>,
    other_dir: Seq<char>,
    rate: nat,
    other_rate: nat,
    count: nat,
    other_count: nat,
    file: Seq<char>,
    other_file: Seq<char>,
)
    ensures
        ({
            let one = video(dir, rate, count, file);
            let other = video(other_dir, other_rate, other_count, other_file);
            &&& one.len() == other.len()
            &&& forall|i: int|
                0 <= i < 24 && i != 5 && i != 7 && i != 9 && i != 19 ==> #[trigger] one[i]
                    == other[i]
            &&& one[5] == other[5] <==> rate == other_rate
            &&& one[9] == other[9] <==> count == other_count
            &&& one[24] == other[24] <==> file == other_file
        }),
{
    if number::decimal(rate) == number::decimal(other_rate) {
        number::decimals_tell_numbers_apart(rate, other_rate);
    }
    if number::decimal(count) == number::decimal(other_count) {
        number::decimals_tell_numbers_apart(count, other_count);
    }
}

/// One frame is printed, whichever it is: `ffmpeg` reads the frame's own file, takes one picture,
/// encodes it as H.264 and writes it to its standard output. For another frame nothing but the file
/// changes.
pub proof fn one_frame_is_printed(frame_path: Seq<char>, other: Seq<char>)
    ensures
        ({
            let args = annexb(frame_path);
            &&& args.len() == 29
            &&& args[6] == "-i"@
            &&& args[7] == frame_path
            &&& args[8] == "-frames:v"@
            &&& args[9] == "1"@
            &&& args[10] == "-c:v"@
            &&& args[11] == "libx264"@
            &&& args[26] == "-f"@
            &&& args[27] == "h264"@
            &&& args[28] == "-"@
            &&& annexb(other) == args.update(7, other)
        }),
{
    assert(annexb(other) =~= annexb(frame_path).update(7, other));
}

/// The file that is served is the configured segment wherever one is served, and nothing else.
pub proof fn segments_are_served(config: EncodeConfig, serve: ServeConfig)
    ensures
        served_path(config, Some(&serve)) == serve.latest_segment_path@,
        served_path(config, None) == config.output_path@,
{
}

/// An error in words ends with the reason that it carries.
pub proof fn errors_tell_their_reason(err: EncodeError)
    ensures
        match err {
            EncodeError::CreateOutputDir(why)
            | EncodeError::CopyPreviewArtifact(why)
            | EncodeError::SpawnFailed(why)
            | EncodeError::EncodeFailed(why) => text::has_suffix(err.text(), why@),
            _ => true,
        },
{
    match err {
        EncodeError::CreateOutputDir(why) => text::parts_are_found(
            "failed to create encoder output directory: "@,
            why@,
        ),
        EncodeError::CopyPreviewArtifact(why) => text::parts_are_found(
            "failed to stage preview segment output: "@,
            why@,
        ),
        EncodeError::SpawnFailed(why) => text::parts_are_found(
            "failed to invoke ffmpeg: "@,
            why@,
        ),
        EncodeError::EncodeFailed(why) => text::parts_are_found(
            "ffmpeg encoding failed: "@,
            why@,
        ),
        _ => {},
    }
}

/// A video that is planned holds as many frames as were captured, in the directory of the first
/// one, whatever the others are called, and goes where it is told; it is copied exactly where
/// another file is served.
pub proof fn planned_videos_hold_every_frame(
    config: EncodeConfig,
    serve: Option<&ServeConfig>,
    frame_paths: Vec<String>,
    out: Result<VideoPlan, EncodeError>,
)
    requires
        frame_paths@.len() > 0,
        path::parent(frame_paths@[0]@) is Some,
        call_ensures(encode_h264_mp4_from_pngs, (&config, serve, &frame_paths), out),
    ensures
        out matches Ok(plan) && plan.args@.len() == 25 && plan.args@[8]@ == "-frames:v"@
            && number::unsigned_value(plan.args@[9]@, usize::MAX as int) == Ok::<
            int,
            number::NumberError,
        >(frame_paths@.len() as int) && plan.args@[24]@ == config.output_path@
            && plan.artifact.mp4_path@ == config.output_path@ && (serve matches Some(served)
            ==> plan.artifact.segment_path@ == served.latest_segment_path@) && (serve is None
            ==> plan.artifact.segment_path@ == config.output_path@ && !plan.copies),
{
    let frame_dir = path::parent(frame_paths@[0]@)->0;
    videos_hold_every_frame(
        frame_dir,
        config.framerate,
        frame_paths@.len() as usize,
        config.output_path@,
    );
    if let Ok(plan) = out {
        let held = text::texts(plan.args@);
        assert(held[24] == plan.args@[24]@);
    }
}

/// An `ffmpeg` is accepted where it tells its version and lists `libx264`, wherever in the list it
/// stands.
pub proof fn encoders_are_accepted(
    done: CommandOutput,
    version: Result<(), EncodeError>,
    encoders: Result<(), EncodeError>,
    before: Seq<char>,
    after: Seq<char>,
)
    requires
        call_ensures(check_version, (&Ok(done),), version),
        call_ensures(check_encoders, (&Ok(done),), encoders),
    ensures
        version is Ok <==> done.success,
        done.success && done.printed() == before + "libx264"@ + after ==> encoders is Ok,
        encoders is Ok ==> done.success && text::contains(done.printed(), "libx264"@),
        done.success && encoders is Err ==> encoders->Err_0 is MissingLibx264,
        !done.success ==> encoders is Err && encoders->Err_0 is FfmpegUnavailable && version is Err
            && version->Err_0 is FfmpegUnavailable,
{
    text::middle_is_found(before, "libx264"@, after);
}

/// What `ffmpeg` printed of a frame is taken as it is where it succeeded, and its complaint is told
/// where it did not.
pub proof fn printed_frames_are_taken_as_they_are(
    done: CommandOutput,
    printed: Result<Vec<u8>, EncodeError>,
    video: Result<(), EncodeError>,
)
    requires
        call_ensures(encode_png_to_h264_annexb, (Ok(done),), printed),
        call_ensures(accept_video, (&Ok(done),), video),
    ensures
        done.success ==> printed == Ok::<Vec<u8>, EncodeError>(done.stdout) && video is Ok,
        !done.success ==> (printed matches Err(err) && text::has_suffix(
            err.text(),
            done.complaint(),
        )) && (video matches Err(err) && text::has_suffix(err.text(), done.complaint())),
{
    if let Err(err) = printed {
        errors_tell_their_reason(err);
    }
    if let Err(err) = video {
        errors_tell_their_reason(err);
    }
}

} // verus!
