//! X11 outputs as `xrandr` lists them: which to activate, and how to put a layout back.
use vstd::prelude::*;

use crate::display::x11_mode;
use crate::listing;
use crate::process;
use crate::process::CommandOutput;
use crate::text;

verus! {

/// What `xrandr --query` says of an output line: it begins with the output's name.
pub open spec fn is_output_line(line: Seq<char>) -> bool {
    line.len() > 0 && !text::has_prefix(line, " "@)
}

/// The name that an output line begins with.
pub open spec fn line_name(line: Seq<char>) -> Seq<char> {
    match text::first_field(line) {
        Some(name) => name,
        None => Seq::empty(),
    }
}

/// Lines of the primary output.
pub open spec fn primary_line() -> spec_fn(Seq<char>) -> bool {
    |line: Seq<char>| is_output_line(line) && text::contains(line, " connected primary"@)
}

/// Lines of connected outputs.
pub open spec fn connected_line() -> spec_fn(Seq<char>) -> bool {
    |line: Seq<char>| is_output_line(line) && text::contains(line, " connected "@)
}

/// Names of outputs that evdi may show up as.
pub open spec fn is_evdi_name(name: Seq<char>) -> bool {
    ||| text::has_prefix(name, "DVI-I-"@)
    ||| text::has_prefix(name, "DVI-"@)
    ||| text::has_prefix(name, "VIRTUAL-"@)
    ||| text::has_prefix(name, "DP-"@)
    ||| text::has_prefix(name, "HDMI-"@)
}

/// Lines of disconnected outputs that evdi may show up as.
pub open spec fn candidate_line() -> spec_fn(Seq<char>) -> bool {
    |line: Seq<char>|
        is_output_line(line) && text::contains(line, " disconnected"@) && is_evdi_name(
            line_name(line),
        )
}

/// The output that a new one is placed beside: the primary one named last, else the connected
/// one named first.
pub open spec fn anchor_name(query: Seq<char>) -> Option<Seq<char>> {
    match listing::last_where(text::lines(query), primary_line()) {
        Some(line) => Some(line_name(line)),
        None => match listing::first_where(text::lines(query), connected_line()) {
            Some(line) => Some(line_name(line)),
            None => None,
        },
    }
}

/// The output to activate: the first disconnected one that evdi may show up as.
pub open spec fn candidate_name(query: Seq<char>) -> Option<Seq<char>> {
    match listing::first_where(text::lines(query), candidate_line()) {
        Some(line) => Some(line_name(line)),
        None => None,
    }
}

/// Both outputs that an activation needs: the anchor and the output to activate.
pub open spec fn activation_pair(query: Seq<char>) -> Option<(Seq<char>, Seq<char>)> {
    match (anchor_name(query), candidate_name(query)) {
        (Some(anchor), Some(candidate)) => Some((anchor, candidate)),
        _ => None,
    }
}

fn output_line(line: &str) -> (yes: bool)
    ensures
        yes == is_output_line(line@),
{
    !line.is_empty() && !text::starts_with(line, " ")
}

fn name_of_line(line: &str) -> (name: String)
    ensures
        name@ == line_name(line@),
{
    match text::first_of_fields(line) {
        Some(name) => name,
        None => String::new(),
    }
}

fn evdi_name(name: &str) -> (yes: bool)
    ensures
        yes == is_evdi_name(name@),
{
    text::starts_with(name, "DVI-I-") || text::starts_with(name, "DVI-") || text::starts_with(
        name,
        "VIRTUAL-",
    ) || text::starts_with(name, "DP-") || text::starts_with(name, "HDMI-")
}

/// The outputs that an activation needs, as `xrandr --query` lists them: the one to place the
/// new output beside and the one to activate.
pub fn activation_targets(query: &str) -> (out: Option<(String, String)>)
    ensures
        match out {
            Some((anchor, candidate)) => activation_pair(query@) == Some((anchor@, candidate@)),
            None => activation_pair(query@) is None,
        },
{
    let lines: Vec<String> = text::split_lines(query);
    let ghost all = text::lines(query@);
    let mut primary: Option<String> = None;
    let mut connected: Option<String> = None;
    let mut candidate: Option<String> = None;
    let mut i: usize = 0;
    while i < lines.len()
        invariant
            text::texts(lines@) == all,
            i <= lines.len(),
            match listing::last_where(all.take(i as int), primary_line()) {
                Some(line) => text::opt_text(primary) == Some(line_name(line)),
                None => primary is None,
            },
            match listing::first_where(all.take(i as int), connected_line()) {
                Some(line) => text::opt_text(connected) == Some(line_name(line)),
                None => connected is None,
            },
            match listing::first_where(all.take(i as int), candidate_line()) {
                Some(line) => text::opt_text(candidate) == Some(line_name(line)),
                None => candidate is None,
            },
        decreases lines.len() - i,
    {
        let line: &str = lines[i].as_str();
        assert(all[i as int] == line@);
        assert(all.take(i + 1).drop_last() =~= all.take(i as int));
        assert(all.take(i + 1).last() == line@);
        if output_line(line) {
            let name: String = name_of_line(line);
            if text::holds(line, " connected primary") {
                primary = Some(name.clone());
            }
            if connected.is_none() && text::holds(line, " connected ") {
                connected = Some(name.clone());
            }
            if candidate.is_none() && text::holds(line, " disconnected") && evdi_name(
                name.as_str(),
            ) {
                candidate = Some(name);
            }
        }
        i = i + 1;
    }
    assert(all.take(lines@.len() as int) =~= all);
    let anchor: Option<String> = if primary.is_some() {
        primary
    } else {
        connected
    };
    match (anchor, candidate) {
        (Some(a), Some(c)) => Some((a, c)),
        _ => None,
    }
}

/// The provider's id in a line of `xrandr --listproviders`: the field after `id:`.
pub open spec fn provider_id(line: Seq<char>) -> Option<Seq<char>> {
    match text::split_once(line, "id:"@) {
        Some((_, rest)) => text::first_field(rest),
        None => None,
    }
}

/// Lines that describe a provider with an id.
pub open spec fn is_provider_line(line: Seq<char>) -> bool {
    text::has_prefix(text::trim_start(line), "Provider "@) && provider_id(line) is Some
}

/// Lines of providers that can be a source.
pub open spec fn source_line() -> spec_fn(Seq<char>) -> bool {
    |line: Seq<char>| is_provider_line(line) && text::contains(line, "Source Output"@)
}

/// Lines of providers that can only be a sink.
pub open spec fn sink_line() -> spec_fn(Seq<char>) -> bool {
    |line: Seq<char>|
        is_provider_line(line) && text::contains(line, "Sink Output"@) && !text::contains(
            line,
            "Source Output"@,
        )
}

/// The ids of the first sink and the first source.
pub open spec fn provider_pair(listing: Seq<char>) -> Option<(Seq<char>, Seq<char>)> {
    match (
        listing::first_where(text::lines(listing), sink_line()),
        listing::first_where(text::lines(listing), source_line()),
    ) {
        (Some(sink), Some(source)) => Some((provider_id(sink)->0, provider_id(source)->0)),
        _ => None,
    }
}

/// The provider's id in a line of `xrandr --listproviders`.
pub fn provider_id_from_line(line: &str) -> (out: Option<String>)
    ensures
        text::opt_text(out) == provider_id(line@),
{
    match text::divide(line, "id:") {
        Some((_, rest)) => text::first_of_fields(rest.as_str()),
        None => None,
    }
}

/// The sink and the source to link, as `xrandr --listproviders` names them.
pub fn providers_to_link(listing: &str) -> (out: Option<(String, String)>)
    ensures
        match out {
            Some((sink, source)) => provider_pair(listing@) == Some((sink@, source@)),
            None => provider_pair(listing@) is None,
        },
{
    let lines: Vec<String> = text::split_lines(listing);
    let ghost all = text::lines(listing@);
    let mut source: Option<String> = None;
    let mut sink: Option<String> = None;
    let mut i: usize = 0;
    while i < lines.len()
        invariant
            text::texts(lines@) == all,
            i <= lines.len(),
            match listing::first_where(all.take(i as int), source_line()) {
                Some(line) => is_provider_line(line) && text::opt_text(source) == provider_id(line),
                None => source is None,
            },
            match listing::first_where(all.take(i as int), sink_line()) {
                Some(line) => is_provider_line(line) && text::opt_text(sink) == provider_id(line),
                None => sink is None,
            },
        decreases lines.len() - i,
    {
        let line: &str = lines[i].as_str();
        assert(all[i as int] == line@);
        assert(all.take(i + 1).drop_last() =~= all.take(i as int));
        assert(all.take(i + 1).last() == line@);
        if text::starts_with(text::trimmed_start(line).as_str(), "Provider ") {
            if let Some(id) = provider_id_from_line(line) {
                if source.is_none() && text::holds(line, "Source Output") {
                    source = Some(id.clone());
                }
                if sink.is_none() && text::holds(line, "Sink Output") && !text::holds(
                    line,
                    "Source Output",
                ) {
                    sink = Some(id);
                }
            }
        }
        i = i + 1;
    }
    assert(all.take(lines@.len() as int) =~= all);
    match (sink, source) {
        (Some(a), Some(b)) => Some((a, b)),
        _ => None,
    }
}

/// The sink and the source to link, from the answer of `xrandr --listproviders`.
pub fn link_plan(providers: &CommandOutput) -> (out: Option<(String, String)>)
    ensures
        match out {
            Some((sink, source)) => providers.success && provider_pair(providers.printed()) == Some(
                (sink@, source@),
            ),
            None => !providers.success || provider_pair(providers.printed()) is None,
        },
{
    if !providers.success {
        return None;
    }
    providers_to_link(providers.stdout_text().as_str())
}

/// The arguments that link a sink to a source.
pub fn link_args(sink: &str, source: &str) -> (args: Vec<String>)
    ensures
        text::texts(args@) == seq!["--setprovideroutputsource"@, sink@, source@],
{
    let mut args: Vec<String> = text::no_texts();
    text::put_str(&mut args, "--setprovideroutputsource");
    text::put_str(&mut args, sink);
    text::put_str(&mut args, source);
    args
}

/// What came of the attempt to activate an X11 output.
#[derive(Debug, Clone)]
pub enum X11ActivationOutcome {
    Activated { output: String },
    Failed(String),
    NoCandidate,
}

/// What to do with the outputs that `xrandr` lists.
#[derive(Debug, Clone)]
pub enum ActivationPlan {
    /// Activate `candidate` beside `anchor`.
    Activate { anchor: String, candidate: String },
    /// There is nothing to do, or nothing more.
    Stop(X11ActivationOutcome),
}

/// An X11 session is named.
pub open spec fn names_display(display: Option<Seq<char>>) -> bool {
    display matches Some(name) && name.len() > 0
}

/// Whether an X11 session is named.
pub fn has_display(display: Option<&str>) -> (yes: bool)
    ensures
        yes == names_display(text::opt_str(display)),
{
    match display {
        Some(name) => !name.is_empty(),
        None => false,
    }
}

/// What to activate, from the answer of `xrandr --query`.
pub fn plan_activation(query: &CommandOutput) -> (plan: ActivationPlan)
    ensures
        match plan {
            ActivationPlan::Activate { anchor, candidate } => query.success && activation_pair(
                query.printed(),
            ) == Some((anchor@, candidate@)),
            ActivationPlan::Stop(X11ActivationOutcome::NoCandidate) => query.success
                && activation_pair(query.printed()) is None,
            ActivationPlan::Stop(X11ActivationOutcome::Failed(why)) => !query.success && why@
                == query.complaint(),
            ActivationPlan::Stop(_) => false,
        },
{
    if !query.success {
        return ActivationPlan::Stop(X11ActivationOutcome::Failed(query.stderr_message()));
    }
    match activation_targets(query.stdout_text().as_str()) {
        Some((anchor, candidate)) => ActivationPlan::Activate { anchor, candidate },
        None => ActivationPlan::Stop(X11ActivationOutcome::NoCandidate),
    }
}

/// On which side of `anchor` a new output is placed; to the right unless asked otherwise.
pub open spec fn side(placement: Option<Seq<char>>) -> Seq<char> {
    if placement == Some("left-of"@) {
        "--left-of"@
    } else if placement == Some("above"@) {
        "--above"@
    } else if placement == Some("below"@) {
        "--below"@
    } else {
        "--right-of"@
    }
}

/// The arguments that place an output.
pub fn x11_activation_args(placement: Option<&str>, primary: &str) -> (args: Vec<String>)
    ensures
        text::texts(args@) == seq![side(text::opt_str(placement)), primary@, "--auto"@],
{
    let mut args: Vec<String> = text::no_texts();
    let side: &str = match placement {
        Some(place) => {
            if text::same(place, "left-of") {
                "--left-of"
            } else if text::same(place, "above") {
                "--above"
            } else if text::same(place, "below") {
                "--below"
            } else {
                "--right-of"
            }
        },
        None => "--right-of",
    };
    text::put_str(&mut args, side);
    text::put_str(&mut args, primary);
    text::put_str(&mut args, "--auto");
    args
}

/// The arguments that activate an output with a mode.
pub fn activation_args(
    candidate: &str,
    mode: &str,
    placement: Option<&str>,
    anchor: &str,
) -> (args: Vec<String>)
    ensures
        text::texts(args@) == seq![
            "--output"@,
            candidate@,
            "--mode"@,
            mode@,
            side(text::opt_str(placement)),
            anchor@,
            "--auto"@,
        ],
{
    let mut args: Vec<String> = text::no_texts();
    text::put_str(&mut args, "--output");
    text::put_str(&mut args, candidate);
    text::put_str(&mut args, "--mode");
    text::put_str(&mut args, mode);
    text::put_all(&mut args, &x11_activation_args(placement, anchor));
    assert(text::texts(args@) =~= seq![
        "--output"@,
        candidate@,
        "--mode"@,
        mode@,
        side(text::opt_str(placement)),
        anchor@,
        "--auto"@,
    ]);
    args
}

/// What came of the activation of `candidate`.
pub fn activation_outcome(candidate: String, result: &CommandOutput) -> (out: X11ActivationOutcome)
    ensures
        match out {
            X11ActivationOutcome::Activated { output } => result.success && output == candidate,
            X11ActivationOutcome::Failed(why) => !result.success && why@ == result.complaint(),
            X11ActivationOutcome::NoCandidate => false,
        },
{
    if result.success {
        X11ActivationOutcome::Activated { output: candidate }
    } else {
        X11ActivationOutcome::Failed(result.stderr_message())
    }
}

/// The mode to use after `cvt` answered, or why none can be used: the mode's name, and what it is
/// to be defined by where it is new.
pub fn mode_from_cvt(cvt: &CommandOutput, width: u32, height: u32) -> (out: Result<
    (String, Option<Vec<String>>),
    String,
>)
    ensures
        match out {
            Ok((mode, None)) => !cvt.success && mode@ == x11_mode::size(width, height),
            Ok((mode, Some(parts))) => cvt.success && mode@ == x11_mode::mode_name(width, height)
                && (x11_mode::modeline(cvt.printed()) matches Some(line) && text::texts(parts@)
                == x11_mode::mode_parts(line, mode@)),
            Err(why) => cvt.success && x11_mode::modeline(cvt.printed()) is None && why@
                == "cvt did not return a Modeline"@,
        },
{
    match x11_mode::plan_mode(cvt, width, height) {
        x11_mode::ModePlan::Plain(mode) => Ok((mode, None)),
        x11_mode::ModePlan::Define(parts) => Ok(
            (x11_mode::mode_name_text(width, height), Some(parts)),
        ),
        x11_mode::ModePlan::NoModeline => Err("cvt did not return a Modeline".to_owned()),
    }
}

/// The complaint of `xrandr --addmode` is about a mode that is there already or not needed.
pub open spec fn addmode_tolerated(complaint: Seq<char>) -> bool {
    text::contains(complaint, "already exists"@) || text::contains(complaint, "cannot find mode"@)
}

/// Accepts the answer of `xrandr --addmode`, unless it is a complaint that matters.
pub fn accept_addmode(result: &CommandOutput) -> (out: Result<(), String>)
    ensures
        match out {
            Ok(()) => result.success || addmode_tolerated(process::lossy_text(result.stderr@)),
            Err(why) => !result.success && !addmode_tolerated(process::lossy_text(result.stderr@))
                && why@ == result.complaint(),
        },
{
    if !result.success {
        let complaint: String = process::text_of(result.stderr.as_slice());
        if !text::holds(complaint.as_str(), "already exists") && !text::holds(
            complaint.as_str(),
            "cannot find mode",
        ) {
            return Err(result.stderr_message());
        }
    }
    Ok(())
}

/// An output of an X11 layout.
#[derive(Debug, Clone)]
pub struct X11OutputState {
    pub name: String,
    pub mode: Option<String>,
    pub position: Option<String>,
    pub primary: bool,
}

/// What an output of an X11 layout holds.
pub struct OutputView {
    pub name: Seq<char>,
    pub mode: Option<Seq<char>>,
    pub position: Option<Seq<char>>,
    pub primary: bool,
}

impl View for X11OutputState {
    type V = OutputView;

    open spec fn view(&self) -> OutputView {
        OutputView {
            name: self.name@,
            mode: text::opt_text(self.mode),
            position: text::opt_text(self.position),
            primary: self.primary,
        }
    }
}

/// What the outputs of a layout hold.
pub open spec fn output_views(outputs: Seq<X11OutputState>) -> Seq<OutputView> {
    Seq::new(outputs.len(), |i: int| outputs[i]@)
}

/// The mode and the position in a geometry such as `1280x800+0+0`; the position is written with
/// an `x` between its numbers.
pub open spec fn geometry(token: Seq<char>) -> Option<(Seq<char>, Seq<char>)> {
    match text::split_once(token, "+"@) {
        Some((mode, rest)) => {
            let coords = text::split_char(rest, '+');
            if coords.len() >= 2 {
                Some((mode, coords[0] + "x"@ + coords[1]))
            } else {
                None
            }
        },
        None => None,
    }
}

/// Fields that hold a geometry.
pub open spec fn geometry_field() -> spec_fn(Seq<char>) -> bool {
    |field: Seq<char>| text::contains(field, "+"@) && field.len() > 0 && text::is_digit(field[0])
}

/// Lines of connected outputs in a layout.
pub open spec fn layout_line() -> spec_fn(Seq<char>) -> bool {
    |line: Seq<char>|
        is_output_line(line) && text::contains(line, " connected"@) && text::fields(line).len() > 0
}

/// What a line of a connected output says.
pub open spec fn output_of_line() -> spec_fn(Seq<char>) -> OutputView {
    |line: Seq<char>|
        {
            let fields = text::fields(line);
            let place = match listing::first_where(fields, geometry_field()) {
                Some(field) => geometry(field),
                None => None,
            };
            OutputView {
                name: fields[0],
                mode: match place {
                    Some((mode, _)) => Some(mode),
                    None => None,
                },
                position: match place {
                    Some((_, position)) => Some(position),
                    None => None,
                },
                primary: fields.len() > 2 && fields[2] == "primary"@,
            }
        }
}

/// The connected outputs that `xrandr --query` lists.
pub open spec fn layout(query: Seq<char>) -> Seq<OutputView> {
    listing::each(listing::select(text::lines(query), layout_line()), output_of_line())
}

/// The mode and the position in a geometry.
pub fn parse_geometry_token(token: &str) -> (out: Option<(String, String)>)
    ensures
        match out {
            Some((mode, position)) => geometry(token@) == Some((mode@, position@)),
            None => geometry(token@) is None,
        },
{
    match text::divide(token, "+") {
        Some((mode, rest)) => {
            let coords: Vec<String> = text::pieces(rest.as_str(), '+');
            assert(text::split_char(rest@, '+').len() == coords@.len());
            if coords.len() >= 2 {
                assert(text::split_char(rest@, '+')[0] == coords@[0]@);
                assert(text::split_char(rest@, '+')[1] == coords@[1]@);
                let mut position: String = coords[0].clone();
                position.append("x");
                position.append(coords[1].as_str());
                Some((mode, position))
            } else {
                None
            }
        },
        None => None,
    }
}

/// A geometry that `xrandr` writes is read back: the mode and the position that it was made of.
pub proof fn geometry_reads_back(mode: Seq<char>, x: Seq<char>, y: Seq<char>)
    requires
        !mode.contains('+'),
        !x.contains('+'),
        !y.contains('+'),
    ensures
        geometry(mode + "+"@ + (x + "+"@ + y)) == Some((mode, x + "x"@ + y)),
{
    reveal_strlit("+");
    assert("+"@ =~= seq!['+']);
    text::divided_at_separator(mode, "+"@, x + "+"@ + y);
    text::pieces_around_separator(x, '+', y);
}

/// The first field that holds a geometry.
pub fn find_geometry(fields: &Vec<String>) -> (out: Option<String>)
    ensures
        text::opt_text(out) == listing::first_where(text::texts(fields@), geometry_field()),
{
    let ghost all = text::texts(fields@);
    let mut i: usize = 0;
    while i < fields.len()
        invariant
            all == text::texts(fields@),
            i <= fields.len(),
            listing::first_where(all.take(i as int), geometry_field()) is None,
        decreases fields.len() - i,
    {
        let field: &str = fields[i].as_str();
        let chars: Vec<char> = text::chars_of(field);
        assert(all.take(i + 1).drop_last() =~= all.take(i as int));
        assert(all.take(i + 1).last() == field@);
        if text::holds(field, "+") && chars.len() > 0 && '0' <= chars[0] && chars[0] <= '9' {
            proof {
                listing::lemma_first_where_take(all, geometry_field(), i + 1);
            }
            return Some(field.to_owned());
        }
        i = i + 1;
    }
    assert(all.take(fields@.len() as int) =~= all);
    None
}

fn read_output(line: &str, fields: &Vec<String>) -> (out: X11OutputState)
    requires
        text::texts(fields@) == text::fields(line@),
        fields@.len() > 0,
    ensures
        out@ == output_of_line()(line@),
{
    let ghost all = text::fields(line@);
    assert(all.len() == fields@.len());
    assert(all[0] == fields@[0]@);
    let primary: bool = if fields.len() > 2 {
        assert(all[2] == fields@[2]@);
        text::same(fields[2].as_str(), "primary")
    } else {
        false
    };
    let place: Option<(String, String)> = match find_geometry(fields) {
        Some(field) => parse_geometry_token(field.as_str()),
        None => None,
    };
    match place {
        Some((mode, position)) => X11OutputState {
            name: fields[0].clone(),
            mode: Some(mode),
            position: Some(position),
            primary,
        },
        None => X11OutputState { name: fields[0].clone(), mode: None, position: None, primary },
    }
}

/// The connected outputs that `xrandr --query` lists.
pub fn read_layout(query: &str) -> (out: Vec<X11OutputState>)
    ensures
        output_views(out@) == layout(query@),
{
    let lines: Vec<String> = text::split_lines(query);
    let ghost all = text::lines(query@);
    let mut out: Vec<X11OutputState> = Vec::new();
    let mut i: usize = 0;
    assert(output_views(out@) =~= listing::each(
        listing::select(all.take(0), layout_line()),
        output_of_line(),
    ));
    while i < lines.len()
        invariant
            text::texts(lines@) == all,
            i <= lines.len(),
            output_views(out@) == listing::each(
                listing::select(all.take(i as int), layout_line()),
                output_of_line(),
            ),
        decreases lines.len() - i,
    {
        let line: &str = lines[i].as_str();
        assert(all[i as int] == line@);
        assert(all.take(i + 1).drop_last() =~= all.take(i as int));
        assert(all.take(i + 1).last() == line@);
        if output_line(line) && text::holds(line, " connected") {
            let fields: Vec<String> = text::split_fields(line);
            assert(text::fields(line@).len() == fields@.len());
            if fields.len() > 0 {
                let output: X11OutputState = read_output(line, &fields);
                let ghost done = output_views(out@);
                let ghost held = output@;
                out.push(output);
                assert(output_views(out@) =~= done.push(held));
            }
        }
        assert(output_views(out@) =~= listing::each(
            listing::select(all.take(i + 1), layout_line()),
            output_of_line(),
        ));
        i = i + 1;
    }
    assert(all.take(lines@.len() as int) =~= all);
    out
}

/// The layout to restore later, where the session has one: `query` is the answer of
/// `xrandr --query`.
pub fn snapshot_x11_layout(display: Option<&str>, query: &CommandOutput) -> (out: Option<
    Vec<X11OutputState>,
>)
    ensures
        match out {
            Some(outputs) => names_display(text::opt_str(display)) && query.success
                && output_views(outputs@) == layout(query.printed()) && outputs@.len() > 0,
            None => !names_display(text::opt_str(display)) || !query.success || layout(
                query.printed(),
            ).len() == 0,
        },
{
    if !has_display(display) || !query.success {
        return None;
    }
    let outputs: Vec<X11OutputState> = read_layout(query.stdout_text().as_str());
    assert(layout(query.printed()).len() == outputs@.len());
    if outputs.len() == 0 {
        None
    } else {
        Some(outputs)
    }
}

/// The size of the whole screen in the first line of `xrandr --query`, such as
/// `current 1280 x 800`.
pub open spec fn screen_size(query: Seq<char>) -> Option<Seq<char>> {
    let lines = text::lines(query);
    if lines.len() == 0 {
        None
    } else {
        match text::split_once(lines[0], "current "@) {
            Some((_, rest)) => match text::split_once(rest, " x "@) {
                Some((width, tail)) => {
                    let height = tail.take(text::digits_len(tail));
                    if width.len() == 0 || height.len() == 0 {
                        None
                    } else {
                        Some(width + "x"@ + height)
                    }
                },
                None => None,
            },
            None => None,
        }
    }
}

/// The size of the whole screen that `xrandr --query` tells.
pub fn read_screen_size(query: &str) -> (out: Option<String>)
    ensures
        text::opt_text(out) == screen_size(query@),
{
    let lines: Vec<String> = text::split_lines(query);
    assert(text::lines(query@).len() == lines@.len());
    if lines.len() == 0 {
        return None;
    }
    assert(text::lines(query@)[0] == lines@[0]@);
    match text::divide(lines[0].as_str(), "current ") {
        Some((_, rest)) => match text::divide(rest.as_str(), " x ") {
            Some((width, tail)) => {
                let height: String = text::leading_digits(tail.as_str());
                if width.as_str().is_empty() || height.as_str().is_empty() {
                    return None;
                }
                let mut out: String = width;
                out.append("x");
                out.append(height.as_str());
                Some(out)
            },
            None => None,
        },
        None => None,
    }
}

/// The size of the whole screen, where the session tells it: `query` is the answer of
/// `xrandr --query`.
pub fn current_x11_framebuffer_size(display: Option<&str>, query: &CommandOutput) -> (out: Option<
    String,
>)
    ensures
        text::opt_text(out) == if names_display(text::opt_str(display)) && query.success {
            screen_size(query.printed())
        } else {
            None
        },
{
    if !has_display(display) || !query.success {
        return None;
    }
    read_screen_size(query.stdout_text().as_str())
}

/// What to put back when the backend shuts down.
#[derive(Debug, Clone)]
pub struct X11RestorePlan {
    pub outputs: Vec<X11OutputState>,
    pub activated_output: Option<String>,
    pub framebuffer_size: Option<String>,
}

/// The plan to restore `layout`, before anything was activated.
pub fn restore_plan(layout: Option<Vec<X11OutputState>>, framebuffer_size: Option<String>) -> (plan:
    Option<X11RestorePlan>)
    ensures
        match layout {
            Some(outputs) => plan == Some(
                X11RestorePlan { outputs, activated_output: None, framebuffer_size },
            ),
            None => plan is None,
        },
{
    match layout {
        Some(outputs) => Some(
            X11RestorePlan { outputs, activated_output: None, framebuffer_size },
        ),
        None => None,
    }
}

/// Takes note of the output that was activated, if one was.
pub fn note_activation(plan: Option<X11RestorePlan>, outcome: &X11ActivationOutcome) -> (out: Option<
    X11RestorePlan,
>)
    ensures
        match (plan, outcome) {
            (Some(before), X11ActivationOutcome::Activated { output }) => out matches Some(after)
                && after.outputs == before.outputs && after.framebuffer_size
                == before.framebuffer_size && text::opt_text(after.activated_output) == Some(
                output@,
            ),
            _ => out == plan,
        },
{
    match plan {
        Some(before) => match outcome {
            X11ActivationOutcome::Activated { output } => Some(
                X11RestorePlan {
                    outputs: before.outputs,
                    activated_output: Some(output.clone()),
                    framebuffer_size: before.framebuffer_size,
                },
            ),
            _ => Some(before),
        },
        None => None,
    }
}

/// The arguments that put an output back.
pub open spec fn output_args(output: OutputView) -> Seq<Seq<char>> {
    let mode = match output.mode {
        Some(mode) => seq!["--mode"@, mode],
        None => Seq::empty(),
    };
    let position = match output.position {
        Some(position) => seq!["--pos"@, position],
        None => Seq::empty(),
    };
    let primary = if output.primary {
        seq!["--primary"@]
    } else {
        Seq::empty()
    };
    seq!["--output"@, output.name] + mode + position + primary
}

/// The arguments that put each output back.
pub open spec fn args_of_output() -> spec_fn(OutputView) -> Seq<Seq<char>> {
    |output: OutputView| output_args(output)
}

/// The arguments of the commands that put a layout back: one for each output, then the size of
/// the screen.
pub open spec fn restore_args(
    outputs: Seq<OutputView>,
    framebuffer_size: Option<Seq<char>>,
) -> Seq<Seq<Seq<char>>> {
    let each = listing::each(outputs, args_of_output());
    match framebuffer_size {
        Some(size) => each.push(seq!["--fb"@, size]),
        None => each,
    }
}

/// The contents of lists of texts.
pub open spec fn command_texts(commands: Seq<Vec<String>>) -> Seq<Seq<Seq<char>>> {
    Seq::new(commands.len(), |i: int| text::texts(commands[i]@))
}

fn args_for_output(output: &X11OutputState) -> (args: Vec<String>)
    ensures
        text::texts(args@) == output_args(output@),
{
    let mut args: Vec<String> = text::no_texts();
    text::put_str(&mut args, "--output");
    text::put_str(&mut args, output.name.as_str());
    if let Some(mode) = &output.mode {
        text::put_str(&mut args, "--mode");
        text::put_str(&mut args, mode.as_str());
    }
    if let Some(position) = &output.position {
        text::put_str(&mut args, "--pos");
        text::put_str(&mut args, position.as_str());
    }
    if output.primary {
        text::put_str(&mut args, "--primary");
    }
    assert(text::texts(args@) =~= output_args(output@));
    args
}

/// The arguments of the `xrandr` commands that put the layout back, in order; the first that
/// fails ends the restoration. Without an X11 session there is nothing to do.
pub fn restore_x11_layout(display: Option<&str>, plan: &X11RestorePlan) -> (commands: Vec<
    Vec<String>,
>)
    ensures
        command_texts(commands@) == if names_display(text::opt_str(display)) {
            restore_args(output_views(plan.outputs@), text::opt_text(plan.framebuffer_size))
        } else {
            Seq::empty()
        },
{
    let mut commands: Vec<Vec<String>> = Vec::new();
    if !has_display(display) {
        assert(command_texts(commands@) =~= Seq::empty());
        return commands;
    }
    let ghost views = output_views(plan.outputs@);
    let ghost wanted = listing::each(views, args_of_output());
    let mut i: usize = 0;
    while i < plan.outputs.len()
        invariant
            views == output_views(plan.outputs@),
            wanted == listing::each(views, args_of_output()),
            i <= plan.outputs.len(),
            command_texts(commands@) == wanted.take(i as int),
        decreases plan.outputs.len() - i,
    {
        assert(wanted[i as int] == output_args(plan.outputs@[i as int]@));
        let args: Vec<String> = args_for_output(&plan.outputs[i]);
        let ghost done = command_texts(commands@);
        let ghost held = text::texts(args@);
        commands.push(args);
        assert(command_texts(commands@) =~= done.push(held));
        i = i + 1;
    }
    assert(wanted.take(plan.outputs@.len() as int) =~= wanted);
    if let Some(size) = &plan.framebuffer_size {
        let mut args: Vec<String> = text::no_texts();
        text::put_str(&mut args, "--fb");
        text::put_str(&mut args, size.as_str());
        let ghost done = command_texts(commands@);
        let ghost held = text::texts(args@);
        assert(held =~= seq!["--fb"@, size@]);
        commands.push(args);
        assert(command_texts(commands@) =~= done.push(held));
    }
    commands
}

/// Every output that `xrandr --query` listed as connected is put back, with what its line told.
pub proof fn listed_outputs_are_put_back(
    query: Seq<char>,
    framebuffer_size: Option<Seq<char>>,
    line: Seq<char>,
)
    requires
        text::lines(query).contains(line),
        layout_line()(line),
    ensures
        restore_args(layout(query), framebuffer_size).contains(
            output_args(output_of_line()(line)),
        ),
{
    let lines = text::lines(query);
    let kept = listing::select(lines, layout_line());
    listing::lemma_select(lines, layout_line());
    let i = choose|i: int| 0 <= i < lines.len() && lines[i] == line;
    assert(layout_line()(lines[i]));
    let k = choose|k: int| 0 <= k < kept.len() && kept[k] == line;
    assert(layout(query)[k] == output_of_line()(line));
    assert(restore_args(layout(query), framebuffer_size)[k] == output_args(output_of_line()(line)));
}

/// The arguments that switch an output off.
pub fn output_off_args(output: &str) -> (args: Vec<String>)
    ensures
        text::texts(args@) == seq!["--output"@, output@, "--off"@],
{
    let mut args: Vec<String> = text::no_texts();
    text::put_str(&mut args, "--output");
    text::put_str(&mut args, output);
    text::put_str(&mut args, "--off");
    args
}

/// Accepts a command that succeeded; otherwise its complaint is the error.
pub fn accept_success(result: &CommandOutput) -> (out: Result<(), String>)
    ensures
        match out {
            Ok(()) => result.success,
            Err(why) => !result.success && why@ == result.complaint(),
        },
{
    if result.success {
        Ok(())
    } else {
        Err(result.stderr_message())
    }
}

/// A step of the backend's shutdown.
#[derive(Debug, Clone, Copy, PartialEq, Eq, Structural)]
pub enum ShutdownStep {
    /// Switch off the output that was activated.
    DisableOutput,
    /// Disconnect the device.
    Disconnect,
    /// Close the device.
    Close,
    /// Put the X11 layout back.
    RestoreLayout,
}

/// The steps of a shutdown: an output that was activated goes first, the device next, and the
/// layout is put back last.
pub open spec fn shutdown(connected: bool, has_plan: bool, activated: bool) -> Seq<ShutdownStep> {
    let disable = if has_plan && activated {
        seq![ShutdownStep::DisableOutput]
    } else {
        Seq::empty()
    };
    let disconnect = if connected {
        seq![ShutdownStep::Disconnect]
    } else {
        Seq::empty()
    };
    let restore = if has_plan {
        seq![ShutdownStep::RestoreLayout]
    } else {
        Seq::empty()
    };
    disable + disconnect + seq![ShutdownStep::Close] + restore
}

/// A shutdown closes the device exactly once, and disconnects it before that. An output that was
/// activated is switched off before anything else, and the layout is put back after all.
pub proof fn shutdowns_close_the_device(
    connected: bool,
    has_plan: bool,
    activated: bool,
    i: int,
    j: int,
)
    requires
        0 <= i < shutdown(connected, has_plan, activated).len(),
        0 <= j < shutdown(connected, has_plan, activated).len(),
        shutdown(connected, has_plan, activated)[j] == ShutdownStep::Close,
    ensures
        shutdown(connected, has_plan, activated).contains(ShutdownStep::Close),
        shutdown(connected, has_plan, activated)[i] == ShutdownStep::Close ==> i == j,
        shutdown(connected, has_plan, activated)[i] == ShutdownStep::Disconnect ==> i < j,
        shutdown(connected, has_plan, activated)[i] == ShutdownStep::DisableOutput ==> i == 0,
        shutdown(connected, has_plan, activated)[i] == ShutdownStep::RestoreLayout ==> i > j,
{
}

/// The steps of the backend's shutdown, in order.
pub fn shutdown_steps(connected: bool, plan: &Option<X11RestorePlan>) -> (steps: Vec<ShutdownStep>)
    ensures
        steps@ == shutdown(
            connected,
            plan is Some,
            plan matches Some(p) && p.activated_output is Some,
        ),
{
    let mut steps: Vec<ShutdownStep> = Vec::new();
    if let Some(p) = plan {
        if p.activated_output.is_some() {
            steps.push(ShutdownStep::DisableOutput);
        }
    }
    if connected {
        steps.push(ShutdownStep::Disconnect);
    }
    steps.push(ShutdownStep::Close);
    if plan.is_some() {
        steps.push(ShutdownStep::RestoreLayout);
    }
    assert(steps@ =~= shutdown(
        connected,
        plan is Some,
        plan matches Some(p) && p.activated_output is Some,
    ));
    steps
}

/// A line of `xrandr --query` that begins with `name` and says `what` after it, perhaps after other
/// fields.
pub open spec fn says_of(
    line: Seq<char>,
    name: Seq<char>,
    between: Seq<char>,
    what: Seq<char>,
    rest: Seq<char>,
) -> bool {
    &&& text::is_word(name)
    &&& between.len() == 0 || text::is_space(between[0])
    &&& what.len() > 0 && text::is_space(what[0])
    &&& line == name + between + what + rest
}

/// What a line says is found in it, and the name that it begins with is its first field.
pub proof fn lines_begin_with_the_name(
    line: Seq<char>,
    name: Seq<char>,
    between: Seq<char>,
    what: Seq<char>,
    rest: Seq<char>,
)
    requires
        says_of(line, name, between, what, rest),
    ensures
        is_output_line(line),
        text::contains(line, what),
        text::first_field(line) == Some(name),
        line_name(line) == name,
{
    assert(line =~= (name + between) + what + rest);
    text::middle_is_found(name + between, what, rest);
    let after = between + what + rest;
    assert(line =~= name + after);
    assert(after.len() > 0 && text::is_space(after[0])) by {
        if between.len() > 0 {
            assert(after[0] == between[0]);
        } else {
            assert(after[0] == what[0]);
        }
    }
    text::fields_begin_with_words(name, after);
    assert(line[0] == name[0]);
    assert(!text::is_space(line[0]));
    reveal_strlit(" ");
    if text::has_prefix(line, " "@) {
        assert(line.subrange(0, 1)[0] == ' ');
    }
}

/// The primary output that is named last is the one that a new output is placed beside.
pub proof fn primary_outputs_are_anchors(
    query: Seq<char>,
    i: int,
    name: Seq<char>,
    between: Seq<char>,
    rest: Seq<char>,
)
    requires
        0 <= i < text::lines(query).len(),
        says_of(text::lines(query)[i], name, between, " connected primary"@, rest),
        forall|j: int|
            i < j < text::lines(query).len() ==> !text::contains(
                #[trigger] text::lines(query)[j],
                " connected primary"@,
            ),
    ensures
        anchor_name(query) == Some(name),
{
    lines_begin_with_the_name(
        text::lines(query)[i],
        name,
        between,
        " connected primary"@,
        rest,
    );
    listing::last_is_found(text::lines(query), primary_line(), i);
}

/// Where no output is primary, the connected one that is named first is the one that a new output
/// is placed beside.
pub proof fn connected_outputs_are_anchors(
    query: Seq<char>,
    i: int,
    name: Seq<char>,
    between: Seq<char>,
    rest: Seq<char>,
)
    requires
        0 <= i < text::lines(query).len(),
        says_of(text::lines(query)[i], name, between, " connected "@, rest),
        forall|j: int|
            0 <= j < text::lines(query).len() ==> !text::contains(
                #[trigger] text::lines(query)[j],
                " connected primary"@,
            ),
        forall|j: int|
            0 <= j < i ==> !text::contains(#[trigger] text::lines(query)[j], " connected "@),
    ensures
        anchor_name(query) == Some(name),
{
    lines_begin_with_the_name(text::lines(query)[i], name, between, " connected "@, rest);
    listing::last_is_found(text::lines(query), primary_line(), -1);
    listing::first_is_found(text::lines(query), connected_line(), i);
}

/// Where no line tells of a connected output, there is nothing to place a new one beside.
pub proof fn anchors_are_connected(query: Seq<char>)
    ensures
        anchor_name(query) is Some ==> exists|i: int|
            0 <= i < text::lines(query).len() && (text::contains(
                #[trigger] text::lines(query)[i],
                " connected primary"@,
            ) || text::contains(text::lines(query)[i], " connected "@)) && anchor_name(query)
                == Some(line_name(text::lines(query)[i])),
{
    let lines = text::lines(query);
    listing::lemma_first_where(lines, connected_line());
    lemma_last_where(lines, primary_line());
}

proof fn lemma_last_where(s: Seq<Seq<char>>, p: spec_fn(Seq<char>) -> bool)
    ensures
        listing::last_where(s, p) matches Some(a) ==> exists|i: int|
            0 <= i < s.len() && #[trigger] s[i] == a && p(a),
    decreases s.len(),
{
    if s.len() > 0 {
        let init = s.drop_last();
        lemma_last_where(init, p);
        if p(s.last()) {
            assert(s[s.len() - 1] == s.last());
        } else if let Some(a) = listing::last_where(init, p) {
            let i = choose|i: int| 0 <= i < init.len() && #[trigger] init[i] == a && p(a);
            assert(s[i] == a);
        }
    }
}

/// An output is switched on wherever one is listed that evdi may show up as: a disconnected one
/// whose name is `DVI-`, `VIRTUAL-`, `DP-` or `HDMI-` and anything. The first of them is taken.
pub proof fn disconnected_outputs_are_taken(
    query: Seq<char>,
    i: int,
    suffix: Seq<char>,
    name: Seq<char>,
    between: Seq<char>,
    rest: Seq<char>,
)
    requires
        0 <= i < text::lines(query).len(),
        name == "DVI-"@ + suffix || name == "VIRTUAL-"@ + suffix || name == "DP-"@ + suffix || name
            == "HDMI-"@ + suffix,
        says_of(text::lines(query)[i], name, between, " disconnected"@, rest),
    ensures
        candidate_name(query) is Some,
        (forall|j: int|
            0 <= j < i ==> !text::contains(#[trigger] text::lines(query)[j], " disconnected"@))
            ==> candidate_name(query) == Some(name),
{
    let lines = text::lines(query);
    lines_begin_with_the_name(lines[i], name, between, " disconnected"@, rest);
    text::parts_are_found("DVI-"@, suffix);
    text::parts_are_found("VIRTUAL-"@, suffix);
    text::parts_are_found("DP-"@, suffix);
    text::parts_are_found("HDMI-"@, suffix);
    assert(candidate_line()(lines[i]));
    listing::lemma_first_where(lines, candidate_line());
    if forall|j: int| 0 <= j < i ==> !text::contains(#[trigger] lines[j], " disconnected"@) {
        assert forall|j: int| 0 <= j < i implies !candidate_line()(#[trigger] lines[j]) by {
            assert(!text::contains(lines[j], " disconnected"@));
        }
        listing::first_is_found(lines, candidate_line(), i);
    }
}

/// An output that is switched on is a disconnected one with one of these names.
pub proof fn only_disconnected_outputs_are_taken(query: Seq<char>)
    ensures
        candidate_name(query) matches Some(name) ==> {
            &&& text::has_prefix(name, "DVI-"@) || text::has_prefix(name, "VIRTUAL-"@)
                || text::has_prefix(name, "DP-"@) || text::has_prefix(name, "HDMI-"@)
            &&& exists|i: int|
                0 <= i < text::lines(query).len() && text::contains(
                    #[trigger] text::lines(query)[i],
                    " disconnected"@,
                ) && line_name(text::lines(query)[i]) == name
        },
{
    listing::lemma_first_where(text::lines(query), candidate_line());
    if let Some(name) = candidate_name(query) {
        if text::has_prefix(name, "DVI-I-"@) {
            reveal_strlit("DVI-I-");
            reveal_strlit("DVI-");
            assert(name.subrange(0, 4) =~= name.subrange(0, 6).subrange(0, 4));
            assert("DVI-I-"@.subrange(0, 4) =~= "DVI-"@);
        }
    }
}

/// An activation needs both outputs, and takes the two that were found.
pub proof fn activations_need_both_outputs(query: Seq<char>)
    ensures
        activation_pair(query) is Some <==> anchor_name(query) is Some && candidate_name(
            query,
        ) is Some,
        activation_pair(query) matches Some((anchor, candidate)) ==> anchor_name(query) == Some(
            anchor,
        ) && candidate_name(query) == Some(candidate),
{
}

/// A session is named by any text but an empty one.
pub proof fn displays_are_named(name: Seq<char>)
    ensures
        names_display(Some(name)) <==> name.len() > 0,
        !names_display(None),
{
}

/// An output is placed where it is asked to be: `left-of`, `right-of`, `above` and `below` become
/// the argument of that name, and anything else places it to the right.
pub proof fn outputs_are_placed_as_asked(placement: Seq<char>)
    ensures
        placement == "left-of"@ || placement == "right-of"@ || placement == "above"@ || placement
            == "below"@ ==> side(Some(placement)) == "--"@ + placement,
        placement != "left-of"@ && placement != "above"@ && placement != "below"@ ==> side(
            Some(placement),
        ) == "--right-of"@,
        side(None) == "--right-of"@,
{
    reveal_strlit("--");
    if placement == "left-of"@ {
        reveal_strlit("left-of");
        reveal_strlit("--left-of");
        assert("--"@ + "left-of"@ =~= "--left-of"@);
    } else if placement == "above"@ {
        reveal_strlit("above");
        reveal_strlit("--above");
        assert("--"@ + "above"@ =~= "--above"@);
    } else if placement == "below"@ {
        reveal_strlit("below");
        reveal_strlit("--below");
        assert("--"@ + "below"@ =~= "--below"@);
    } else if placement == "right-of"@ {
        reveal_strlit("right-of");
        reveal_strlit("--right-of");
        assert("--"@ + "right-of"@ =~= "--right-of"@);
    }
}

/// A complaint that a mode is there already, or that it cannot be found, does not matter, whatever
/// stands around it; any other complaint does.
pub proof fn complaints_about_known_modes_do_not_matter(
    before: Seq<char>,
    after: Seq<char>,
    complaint: Seq<char>,
)
    ensures
        addmode_tolerated(before + "already exists"@ + after),
        addmode_tolerated(before + "cannot find mode"@ + after),
        addmode_tolerated(complaint) ==> text::contains(complaint, "already exists"@)
            || text::contains(complaint, "cannot find mode"@),
{
    text::middle_is_found(before, "already exists"@, after);
    text::middle_is_found(before, "cannot find mode"@, after);
}

/// The id of a provider is the field after the first `id:` of its line.
pub proof fn provider_ids_are_read(
    before: Seq<char>,
    blank: Seq<char>,
    id: Seq<char>,
    rest: Seq<char>,
)
    requires
        text::is_blank(blank),
        text::is_word(id),
        rest.len() == 0 || text::is_space(rest[0]),
        forall|j: int|
            0 <= j < before.len() ==> !#[trigger] text::occurs_at(
                before + "id:"@ + (blank + (id + rest)),
                "id:"@,
                j,
            ),
    ensures
        provider_id(before + "id:"@ + (blank + (id + rest))) == Some(id),
{
    text::divided_at_first(before, "id:"@, blank + (id + rest));
    text::leading_space_is_skipped(blank, id + rest);
    text::fields_begin_with_words(id, rest);
}

/// Providers are linked where there are both: the first that can be a sink and no source, and the
/// first that can be a source, by their ids.
pub proof fn providers_are_linked(listing: Seq<char>, sink: int, source: int)
    requires
        0 <= sink < text::lines(listing).len(),
        0 <= source < text::lines(listing).len(),
        text::has_prefix(text::trim_start(text::lines(listing)[sink]), "Provider "@),
        text::has_prefix(text::trim_start(text::lines(listing)[source]), "Provider "@),
        provider_id(text::lines(listing)[sink]) is Some,
        provider_id(text::lines(listing)[source]) is Some,
        text::contains(text::lines(listing)[sink], "Sink Output"@),
        !text::contains(text::lines(listing)[sink], "Source Output"@),
        text::contains(text::lines(listing)[source], "Source Output"@),
        forall|j: int|
            0 <= j < sink ==> !text::contains(#[trigger] text::lines(listing)[j], "Sink Output"@)
                || text::contains(text::lines(listing)[j], "Source Output"@),
        forall|j: int|
            0 <= j < source ==> !text::contains(
                #[trigger] text::lines(listing)[j],
                "Source Output"@,
            ),
    ensures
        provider_pair(listing) == Some(
            (
                provider_id(text::lines(listing)[sink])->0,
                provider_id(text::lines(listing)[source])->0,
            ),
        ),
{
    let lines = text::lines(listing);
    listing::first_is_found(lines, sink_line(), sink);
    listing::first_is_found(lines, source_line(), source);
}

/// Providers that are linked are a sink and a source of the list.
pub proof fn only_providers_are_linked(listing: Seq<char>)
    ensures
        provider_pair(listing) matches Some((sink, source)) ==> (exists|i: int|
            0 <= i < text::lines(listing).len() && text::contains(
                #[trigger] text::lines(listing)[i],
                "Sink Output"@,
            ) && !text::contains(text::lines(listing)[i], "Source Output"@) && provider_id(
                text::lines(listing)[i],
            ) == Some(sink)) && (exists|i: int|
            0 <= i < text::lines(listing).len() && text::contains(
                #[trigger] text::lines(listing)[i],
                "Source Output"@,
            ) && provider_id(text::lines(listing)[i]) == Some(source)),
{
    listing::lemma_first_where(text::lines(listing), sink_line());
    listing::lemma_first_where(text::lines(listing), source_line());
}

proof fn lemma_output_fields(name: Seq<char>, state: Seq<char>, place: Seq<char>, rest: Seq<char>)
    requires
        text::is_word(name),
        text::is_word(state),
        text::is_word(place),
        rest.len() == 0 || text::is_space(rest[0]),
    ensures
        text::fields(name + " "@ + (state + " "@ + (place + rest))) == seq![name, state, place]
            + text::fields(rest),
{
    text::words_are_fields(name, state + " "@ + (place + rest));
    text::words_are_fields(state, place + rest);
    text::fields_begin_with_words(place, rest);
    assert(seq![name] + (seq![state] + (seq![place] + text::fields(rest))) =~= seq![
        name,
        state,
        place,
    ] + text::fields(rest));
}

proof fn lemma_primary_fields(name: Seq<char>, place: Seq<char>, rest: Seq<char>)
    requires
        text::is_word(name),
        text::is_word(place),
        rest.len() == 0 || text::is_space(rest[0]),
    ensures
        text::fields(name + " "@ + ("connected"@ + " "@ + ("primary"@ + " "@ + (place + rest))))
            == seq![name, "connected"@, "primary"@, place] + text::fields(rest),
{
    assert(text::is_word("connected"@)) by {
        reveal_strlit("connected");
    }
    assert(text::is_word("primary"@)) by {
        reveal_strlit("primary");
    }
    text::words_are_fields(name, "connected"@ + " "@ + ("primary"@ + " "@ + (place + rest)));
    text::words_are_fields("connected"@, "primary"@ + " "@ + (place + rest));
    text::words_are_fields("primary"@, place + rest);
    text::fields_begin_with_words(place, rest);
    assert(seq![name] + (seq!["connected"@] + (seq!["primary"@] + (seq![place] + text::fields(
        rest,
    )))) =~= seq![name, "connected"@, "primary"@, place] + text::fields(rest));
}

/// A geometry such as `1280x800+0+0`: a mode that begins with a digit, and a position.
pub open spec fn written(mode: Seq<char>, x: Seq<char>, y: Seq<char>) -> Seq<char> {
    mode + "+"@ + (x + "+"@ + y)
}

/// A mode and coordinates as `xrandr` writes them: words without `+`, the mode's first character a
/// digit.
pub open spec fn can_be_written(mode: Seq<char>, x: Seq<char>, y: Seq<char>) -> bool {
    &&& text::is_word(mode)
    &&& text::is_word(x)
    &&& text::is_word(y)
    &&& !mode.contains('+')
    &&& !x.contains('+')
    &&& !y.contains('+')
    &&& text::is_digit(mode[0])
}

proof fn lemma_written(mode: Seq<char>, x: Seq<char>, y: Seq<char>)
    requires
        can_be_written(mode, x, y),
    ensures
        text::is_word(written(mode, x, y)),
        geometry_field()(written(mode, x, y)),
{
    let place = written(mode, x, y);
    assert("+"@ =~= seq!['+']) by {
        reveal_strlit("+");
    }
    assert forall|i: int| 0 <= i < place.len() implies !text::is_space(#[trigger] place[i]) by {
        if i < mode.len() {
            assert(place[i] == mode[i]);
        } else if i == mode.len() {
            assert(place[i] == '+');
        } else if i < mode.len() + 1 + x.len() {
            assert(place[i] == x[i - mode.len() - 1]);
        } else if i == mode.len() + 1 + x.len() {
            assert(place[i] == '+');
        } else {
            assert(place[i] == y[i - mode.len() - 1 - x.len() - 1]);
        }
    }
    text::middle_is_found(mode, "+"@, x + "+"@ + y);
    assert(place[0] == mode[0]);
}

/// The geometry in the line of a connected output is found.
pub proof fn connected_outputs_are_found(
    name: Seq<char>,
    mode: Seq<char>,
    x: Seq<char>,
    y: Seq<char>,
    rest: Seq<char>,
)
    requires
        text::is_word(name),
        !text::is_digit(name[0]),
        can_be_written(mode, x, y),
        rest.len() == 0 || text::is_space(rest[0]),
    ensures
        listing::first_where(
            text::fields(name + " "@ + ("connected"@ + " "@ + (written(mode, x, y) + rest))),
            geometry_field(),
        ) == Some(written(mode, x, y)),
{
    let place = written(mode, x, y);
    assert("connected"@[0] == 'c' && text::is_word("connected"@)) by {
        reveal_strlit("connected");
    }
    lemma_written(mode, x, y);
    lemma_output_fields(name, "connected"@, place, rest);
    let fields = text::fields(name + " "@ + ("connected"@ + " "@ + (place + rest)));
    assert(fields[0] == name && fields[1] == "connected"@ && fields[2] == place);
    listing::first_is_found(fields, geometry_field(), 2);
}

/// What a line tells of a connected output is read as it stands: its name, its mode, its position
/// with an `x` between the numbers, and that it is not the primary one.
pub proof fn connected_outputs_are_read(
    name: Seq<char>,
    mode: Seq<char>,
    x: Seq<char>,
    y: Seq<char>,
    rest: Seq<char>,
)
    requires
        text::is_word(name),
        !text::is_digit(name[0]),
        can_be_written(mode, x, y),
        rest.len() == 0 || text::is_space(rest[0]),
    ensures
        output_of_line()(name + " "@ + ("connected"@ + " "@ + (written(mode, x, y) + rest))) == (
        OutputView { name, mode: Some(mode), position: Some(x + "x"@ + y), primary: false }),
{
    let place = written(mode, x, y);
    assert("connected"@[0] == 'c' && text::is_word("connected"@)) by {
        reveal_strlit("connected");
    }
    assert("primary"@[0] == 'p') by {
        reveal_strlit("primary");
    }
    lemma_written(mode, x, y);
    lemma_output_fields(name, "connected"@, place, rest);
    let line = name + " "@ + ("connected"@ + " "@ + (place + rest));
    let fields = text::fields(line);
    assert(fields[0] == name && fields[1] == "connected"@ && fields[2] == place);
    assert(place[0] == mode[0]);
    assert(fields[2] != "primary"@);
    listing::first_is_found(fields, geometry_field(), 2);
    geometry_reads_back(mode, x, y);
}

/// What a line tells of the primary output is read as it stands: its name, its mode, its position
/// with an `x` between the numbers, and that it is the primary one.
pub proof fn primary_outputs_are_read(
    name: Seq<char>,
    mode: Seq<char>,
    x: Seq<char>,
    y: Seq<char>,
    rest: Seq<char>,
)
    requires
        text::is_word(name),
        !text::is_digit(name[0]),
        can_be_written(mode, x, y),
        rest.len() == 0 || text::is_space(rest[0]),
    ensures
        output_of_line()(
            name + " "@ + ("connected"@ + " "@ + ("primary"@ + " "@ + (written(mode, x, y)
                + rest))),
        ) == (OutputView { name, mode: Some(mode), position: Some(x + "x"@ + y), primary: true }),
{
    let place = written(mode, x, y);
    assert("connected"@[0] == 'c') by {
        reveal_strlit("connected");
    }
    assert("primary"@[0] == 'p') by {
        reveal_strlit("primary");
    }
    lemma_written(mode, x, y);
    lemma_primary_fields(name, place, rest);
    let line = name + " "@ + ("connected"@ + " "@ + ("primary"@ + " "@ + (place + rest)));
    let fields = text::fields(line);
    assert(fields[0] == name && fields[1] == "connected"@ && fields[2] == "primary"@ && fields[3]
        == place);
    listing::first_is_found(fields, geometry_field(), 3);
    geometry_reads_back(mode, x, y);
}

/// A layout holds every connected output, in the order of the lines, and no other line of the list
/// adds anything to it.
pub proof fn layouts_hold_every_connected_output(query: Seq<char>, line: Seq<char>)
    requires
        text::lines(query).contains(line),
        is_output_line(line),
        text::contains(line, " connected"@),
        text::fields(line).len() > 0,
    ensures
        layout(query).contains(output_of_line()(line)),
        layout(query).len() <= text::lines(query).len(),
{
    let lines = text::lines(query);
    let kept = listing::select(lines, layout_line());
    listing::lemma_select(lines, layout_line());
    let i = choose|i: int| 0 <= i < lines.len() && lines[i] == line;
    assert(layout_line()(lines[i]));
    let k = choose|k: int| 0 <= k < kept.len() && kept[k] == line;
    assert(layout(query)[k] == output_of_line()(line));
}

/// Every output of a layout comes from a line that calls it connected.
pub proof fn layouts_hold_only_connected_outputs(query: Seq<char>, k: int)
    requires
        0 <= k < layout(query).len(),
    ensures
        exists|i: int|
            0 <= i < text::lines(query).len() && text::contains(
                #[trigger] text::lines(query)[i],
                " connected"@,
            ) && is_output_line(text::lines(query)[i]) && layout(query)[k] == output_of_line()(
                text::lines(query)[i],
            ),
{
    let lines = text::lines(query);
    let kept = listing::select(lines, layout_line());
    listing::lemma_select(lines, layout_line());
    let line = kept[k];
    assert(layout_line()(kept[k]));
    let i = choose|i: int| 0 <= i < lines.len() && lines[i] == line;
    assert(lines[i] == line);
}

/// The size of the screen is read from the first line: the text between `current ` and ` x `, an
/// `x`, and the digits after ` x `.
pub proof fn screen_sizes_are_read(
    query: Seq<char>,
    before: Seq<char>,
    width: Seq<char>,
    height: Seq<char>,
    after: Seq<char>,
)
    requires
        text::lines(query).len() > 0,
        text::lines(query)[0] == before + "current "@ + (width + " x "@ + (height + after)),
        forall|j: int|
            0 <= j < before.len() ==> !#[trigger] text::occurs_at(
                before + "current "@ + (width + " x "@ + (height + after)),
                "current "@,
                j,
            ),
        text::is_word(width),
        height.len() > 0,
        forall|i: int| 0 <= i < height.len() ==> text::is_digit(#[trigger] height[i]),
        after.len() == 0 || !text::is_digit(after[0]),
    ensures
        screen_size(query) == Some(width + "x"@ + height),
{
    let tail = height + after;
    let rest = width + " x "@ + tail;
    text::divided_at_first(before, "current "@, rest);
    assert(" x "@.len() == 3 && " x "@[0] == ' ') by {
        reveal_strlit(" x ");
    }
    assert forall|j: int| 0 <= j < width.len() implies !#[trigger] text::occurs_at(
        width + " x "@ + tail,
        " x "@,
        j,
    ) by {
        if text::occurs_at(rest, " x "@, j) {
            assert(rest.subrange(j, j + 3)[0] == ' ');
            assert(rest[j] == width[j]);
            assert(!text::is_space(width[j]));
        }
    }
    text::divided_at_first(width, " x "@, tail);
    text::digits_lead(height, after);
}

/// An output is put back with its own name, and with its mode, its position and its rank as far as
/// it has them, and nothing else.
pub proof fn outputs_are_put_back_as_they_were(output: OutputView)
    ensures
        ({
            let args = output_args(output);
            let at: int = if output.mode is Some {
                4
            } else {
                2
            };
            let end: int = if output.position is Some {
                at + 2
            } else {
                at
            };
            &&& args[0] == "--output"@
            &&& args[1] == output.name
            &&& output.mode matches Some(mode) ==> args[2] == "--mode"@ && args[3] == mode
            &&& output.position matches Some(position) ==> args[at] == "--pos"@ && args[at + 1]
                == position
            &&& output.primary ==> args.len() == end + 1 && args[end] == "--primary"@
            &&& !output.primary ==> args.len() == end
        }),
{
}

/// A layout is put back output by output, in their order, and the size of the screen comes last
/// where it is known.
pub proof fn layouts_are_put_back_in_order(
    outputs: Seq<OutputView>,
    framebuffer_size: Option<Seq<char>>,
    i: int,
)
    requires
        0 <= i < outputs.len(),
    ensures
        restore_args(outputs, framebuffer_size)[i][1] == outputs[i].name,
        restore_args(outputs, framebuffer_size)[i] == output_args(outputs[i]),
        framebuffer_size matches Some(size) ==> restore_args(outputs, framebuffer_size).len()
            == outputs.len() + 1 && restore_args(outputs, framebuffer_size).last() == seq![
            "--fb"@,
            size,
        ],
        framebuffer_size is None ==> restore_args(outputs, framebuffer_size).len()
            == outputs.len(),
{
}

/// A shutdown does what there is to do: it disconnects a connected device, puts back a layout that
/// was kept, and switches off an output that was activated in it.
pub proof fn shutdowns_undo_what_was_done(connected: bool, has_plan: bool, activated: bool)
    ensures
        ({
            let steps = shutdown(connected, has_plan, activated);
            &&& steps.contains(ShutdownStep::Disconnect) <==> connected
            &&& steps.contains(ShutdownStep::RestoreLayout) <==> has_plan
            &&& steps.contains(ShutdownStep::DisableOutput) <==> has_plan && activated
            &&& steps.len() <= 4
        }),
{
    let steps = shutdown(connected, has_plan, activated);
    let first: int = if has_plan && activated {
        1
    } else {
        0
    };
    let second: int = if connected {
        first + 1
    } else {
        first
    };
    if has_plan && activated {
        assert(steps[0] == ShutdownStep::DisableOutput);
    }
    if connected {
        assert(steps[first] == ShutdownStep::Disconnect);
    }
    assert(steps[second] == ShutdownStep::Close);
    if has_plan {
        assert(steps[second + 1] == ShutdownStep::RestoreLayout);
    }
}

/// An output whose line tells no geometry has neither a mode nor a position.
pub proof fn outputs_without_geometry_have_no_place(line: Seq<char>)
    requires
        text::fields(line).len() > 0,
        forall|i: int|
            0 <= i < text::fields(line).len() ==> !text::contains(
                #[trigger] text::fields(line)[i],
                "+"@,
            ),
    ensures
        output_of_line()(line).name == text::fields(line)[0],
        output_of_line()(line).mode is None,
        output_of_line()(line).position is None,
{
    listing::lemma_first_where(text::fields(line), geometry_field());
}

/// A screen whose first line does not tell its size has none that is known.
pub proof fn screens_tell_their_size_in_the_first_line(query: Seq<char>)
    requires
        text::lines(query).len() == 0 || !text::contains(text::lines(query)[0], "current "@),
    ensures
        screen_size(query) is None,
{
    if text::lines(query).len() > 0 {
        text::found_parts_are_there(text::lines(query)[0], "current "@);
    }
}

/// A token without `+` is no geometry, and neither is one with a single `+`.
pub proof fn geometries_have_two_numbers(token: Seq<char>, mode: Seq<char>, x: Seq<char>)
    requires
        !text::contains(token, "+"@),
        !mode.contains('+'),
        !x.contains('+'),
    ensures
        geometry(token) is None,
        geometry(mode + "+"@ + x) is None,
{
    text::found_parts_are_there(token, "+"@);
    assert("+"@ =~= seq!['+']) by {
        reveal_strlit("+");
    }
    text::divided_at_separator(mode, "+"@, x);
    assert forall|i: int| 0 <= i < x.len() implies #[trigger] x[i] != '+' by {
        assert(x.contains(x[i]));
    }
    text::single_piece(x, '+');
}

/// The arguments of the commands name what they are about: a sink is linked to a source, an output
/// is switched off, and an output is placed on its side of another.
pub proof fn commands_name_what_they_are_about(
    sink: &str,
    source: &str,
    output: &str,
    mode: &str,
    anchor: &str,
    link: Vec<String>,
    off: Vec<String>,
    on: Vec<String>,
)
    requires
        call_ensures(link_args, (sink, source), link),
        call_ensures(output_off_args, (output,), off),
        call_ensures(activation_args, (output, mode, None, anchor), on),
    ensures
        link@.len() == 3 && link@[0]@ == "--setprovideroutputsource"@ && link@[1]@ == sink@
            && link@[2]@ == source@,
        off@.len() == 3 && off@[0]@ == "--output"@ && off@[1]@ == output@ && off@[2]@ == "--off"@,
        on@.len() == 7 && on@[1]@ == output@ && on@[3]@ == mode@ && on@[4]@ == "--right-of"@
            && on@[5]@ == anchor@,
{
    let a = text::texts(link@);
    let b = text::texts(off@);
    let c = text::texts(on@);
    assert(a.len() == 3 && b.len() == 3 && c.len() == 7);
    assert(a[0] == link@[0]@ && a[1] == link@[1]@ && a[2] == link@[2]@);
    assert(b[0] == off@[0]@ && b[1] == off@[1]@ && b[2] == off@[2]@);
    assert(c[1] == on@[1]@ && c[3] == on@[3]@ && c[4] == on@[4]@ && c[5] == on@[5]@);
}

/// An output is activated exactly where the command succeeded, and its own name is told; else its
/// complaint is.
pub proof fn activations_tell_the_output(
    candidate: String,
    result: CommandOutput,
    out: X11ActivationOutcome,
)
    requires
        call_ensures(activation_outcome, (candidate, &result), out),
    ensures
        result.success ==> out == (X11ActivationOutcome::Activated { output: candidate }),
        !result.success ==> (out matches X11ActivationOutcome::Failed(why) && why@
            == result.complaint()),
{
}

/// A mode that `cvt` did not compute goes by its size; one that it did gets a name of its own.
pub proof fn modes_go_by_their_size(
    cvt: CommandOutput,
    width: u32,
    height: u32,
    out: Result<(String, Option<Vec<String>>), String>,
)
    requires
        call_ensures(mode_from_cvt, (&cvt, width, height), out),
    ensures
        !cvt.success ==> (out matches Ok((mode, parts)) && parts is None && mode@ == x11_mode::size(
            width,
            height,
        )),
        out matches Ok((mode, Some(parts))) ==> cvt.success && mode@ == "desplio-"@
            + x11_mode::size(width, height) + "-60"@,
        out is Err <==> cvt.success && x11_mode::modeline(cvt.printed()) is None,
{
    x11_mode::modes_are_named_after_their_size(width, height, width, height);
}

/// A layout is kept in an X11 session whose outputs could be listed, where any is connected.
pub proof fn layouts_are_kept_in_x11_sessions(
    display: Option<&str>,
    query: CommandOutput,
    out: Option<Vec<X11OutputState>>,
)
    requires
        call_ensures(snapshot_x11_layout, (display, &query), out),
    ensures
        out is Some <==> (display matches Some(name) && name@.len() > 0) && query.success && layout(
            query.printed(),
        ).len() > 0,
        out matches Some(outputs) ==> outputs@.len() == layout(query.printed()).len(),
{
    if let Some(outputs) = out {
        assert(output_views(outputs@).len() == outputs@.len());
    }
}

} // verus!
