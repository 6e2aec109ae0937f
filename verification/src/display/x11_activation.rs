//! Switching on the X11 output that an evdi device shows up as, command by command.
use vstd::prelude::*;

use crate::display::x11_layout;
use crate::display::x11_layout::ActivationPlan;
use crate::display::x11_layout::X11ActivationOutcome;
use crate::display::x11_mode;
use crate::process;
use crate::process::CommandOutput;
use crate::text;

verus! {

/// What is to be switched on, and where.
#[derive(Debug, Clone)]
pub struct Activation {
    pub width: u32,
    pub height: u32,
    /// The side of the other output that the new one is put on.
    pub placement: Option<String>,
}

/// What to do next.
#[derive(Debug, Clone)]
pub enum ActivationStep {
    /// Run `xrandr --listproviders`.
    ListProviders,
    /// Run `xrandr` with these arguments; it does not matter whether it succeeds.
    LinkProviders(Vec<String>),
    /// Run `xrandr --query`.
    Query,
    /// Run `cvt` with these arguments.
    AskMode { anchor: String, candidate: String, args: Vec<String> },
    /// Run `xrandr` with these arguments; it does not matter whether it succeeds.
    DefineMode { anchor: String, candidate: String, mode: String, args: Vec<String> },
    /// Run `xrandr` with these arguments.
    AllowMode { anchor: String, candidate: String, mode: String, args: Vec<String> },
    /// Run `xrandr` with these arguments.
    Activate { candidate: String, args: Vec<String> },
    /// This came of it.
    Done(X11ActivationOutcome),
    /// A command could not be run, or its answer could not be used.
    Broken(String),
}

/// The step that switches on `candidate` beside `anchor`.
pub open spec fn activates(
    step: ActivationStep,
    request: Activation,
    anchor: Seq<char>,
    candidate: Seq<char>,
    mode: Seq<char>,
) -> bool {
    step matches ActivationStep::Activate { candidate: c, args } && c@ == candidate && text::texts(
        args@,
    ) == seq![
        "--output"@,
        candidate,
        "--mode"@,
        mode,
        x11_layout::side(text::opt_text(request.placement)),
        anchor,
        "--auto"@,
    ]
}

/// The step is the end because `failure` came in place of an answer.
pub open spec fn broken_by(step: ActivationStep, failure: Seq<char>) -> bool {
    step matches ActivationStep::Broken(why) && why@ == failure
}

impl Activation {
    fn activate(&self, anchor: String, candidate: String, mode: String) -> (step: ActivationStep)
        ensures
            activates(step, *self, anchor@, candidate@, mode@),
    {
        let args: Vec<String> = match &self.placement {
            Some(place) => x11_layout::activation_args(
                candidate.as_str(),
                mode.as_str(),
                Some(place.as_str()),
                anchor.as_str(),
            ),
            None => x11_layout::activation_args(
                candidate.as_str(),
                mode.as_str(),
                None,
                anchor.as_str(),
            ),
        };
        ActivationStep::Activate { candidate, args }
    }

    /// Begins, where an X11 display is named.
    pub fn begin(&self, display: Option<&str>) -> (step: ActivationStep)
        ensures
            step == if x11_layout::names_display(text::opt_str(display)) {
                ActivationStep::ListProviders
            } else {
                ActivationStep::Done(X11ActivationOutcome::NoCandidate)
            },
    {
        if x11_layout::has_display(display) {
            ActivationStep::ListProviders
        } else {
            ActivationStep::Done(X11ActivationOutcome::NoCandidate)
        }
    }

    /// After the providers were listed: a sink and a source are linked, where there are both.
    pub fn after_providers(&self, result: &Result<CommandOutput, String>) -> (step: ActivationStep)
        ensures
            match *result {
                Ok(answer) => match step {
                    ActivationStep::LinkProviders(args) => answer.success && (
                    x11_layout::provider_pair(answer.printed()) matches Some((sink, source))
                        && text::texts(args@) == seq![
                        "--setprovideroutputsource"@,
                        sink,
                        source,
                    ]),
                    ActivationStep::Query => !answer.success || x11_layout::provider_pair(
                        answer.printed(),
                    ) is None,
                    _ => false,
                },
                Err(failure) => broken_by(step, failure@),
            },
    {
        match result {
            Ok(answer) => match x11_layout::link_plan(answer) {
                Some((sink, source)) => ActivationStep::LinkProviders(
                    x11_layout::link_args(sink.as_str(), source.as_str()),
                ),
                None => ActivationStep::Query,
            },
            Err(failure) => ActivationStep::Broken(failure.clone()),
        }
    }

    /// After the providers were linked, or not.
    pub fn after_link(&self, result: &Result<CommandOutput, String>) -> (step: ActivationStep)
        ensures
            match *result {
                Ok(_) => step == ActivationStep::Query,
                Err(failure) => broken_by(step, failure@),
            },
    {
        match result {
            Ok(_) => ActivationStep::Query,
            Err(failure) => ActivationStep::Broken(failure.clone()),
        }
    }

    /// After the outputs were listed: a mode is asked for, where there is an output to switch on.
    pub fn after_query(&self, result: &Result<CommandOutput, String>) -> (step: ActivationStep)
        ensures
            match *result {
                Ok(answer) => match step {
                    ActivationStep::AskMode { anchor, candidate, args } => answer.success
                        && x11_layout::activation_pair(answer.printed()) == Some(
                        (anchor@, candidate@),
                    ) && text::texts(args@) == x11_mode::cvt_request(self.width, self.height),
                    ActivationStep::Done(X11ActivationOutcome::NoCandidate) => answer.success
                        && x11_layout::activation_pair(answer.printed()) is None,
                    ActivationStep::Done(X11ActivationOutcome::Failed(why)) => !answer.success
                        && why@ == answer.complaint(),
                    _ => false,
                },
                Err(failure) => broken_by(step, failure@),
            },
    {
        match result {
            Ok(answer) => match x11_layout::plan_activation(answer) {
                ActivationPlan::Activate { anchor, candidate } => ActivationStep::AskMode {
                    anchor,
                    candidate,
                    args: x11_mode::cvt_args(self.width, self.height),
                },
                ActivationPlan::Stop(outcome) => ActivationStep::Done(outcome),
            },
            Err(failure) => ActivationStep::Broken(failure.clone()),
        }
    }

    /// After `cvt` answered: a new mode is defined, or one that may be known is used.
    pub fn after_mode(
        &self,
        anchor: String,
        candidate: String,
        result: &Result<CommandOutput, String>,
    ) -> (step: ActivationStep)
        ensures
            match *result {
                Ok(answer) => if !answer.success {
                    activates(
                        step,
                        *self,
                        anchor@,
                        candidate@,
                        x11_mode::size(self.width, self.height),
                    )
                } else {
                    match x11_mode::modeline(answer.printed()) {
                        Some(line) => step matches ActivationStep::DefineMode {
                            anchor: a,
                            candidate: c,
                            mode,
                            args,
                        } && a == anchor && c == candidate && mode@ == x11_mode::mode_name(
                            self.width,
                            self.height,
                        ) && text::texts(args@) == seq!["--newmode"@] + x11_mode::mode_parts(
                            line,
                            mode@,
                        ),
                        None => broken_by(step, "cvt did not return a Modeline"@),
                    }
                },
                Err(failure) => broken_by(step, failure@),
            },
    {
        match result {
            Ok(answer) => match x11_layout::mode_from_cvt(answer, self.width, self.height) {
                Ok((mode, None)) => self.activate(anchor, candidate, mode),
                Ok((mode, Some(parts))) => ActivationStep::DefineMode {
                    anchor,
                    candidate,
                    mode,
                    args: x11_mode::newmode_args(&parts),
                },
                Err(why) => ActivationStep::Broken(why),
            },
            Err(failure) => ActivationStep::Broken(failure.clone()),
        }
    }

    /// After the mode was defined, or not: the output is to take it.
    pub fn after_define(
        &self,
        anchor: String,
        candidate: String,
        mode: String,
        result: &Result<CommandOutput, String>,
    ) -> (step: ActivationStep)
        ensures
            match *result {
                Ok(_) => step matches ActivationStep::AllowMode {
                    anchor: a,
                    candidate: c,
                    mode: m,
                    args,
                } && a == anchor && c == candidate && m == mode && text::texts(args@) == seq![
                    "--addmode"@,
                    candidate@,
                    mode@,
                ],
                Err(failure) => broken_by(step, failure@),
            },
    {
        match result {
            Ok(_) => {
                let args: Vec<String> = x11_mode::addmode_args(candidate.as_str(), mode.as_str());
                ActivationStep::AllowMode { anchor, candidate, mode, args }
            },
            Err(failure) => ActivationStep::Broken(failure.clone()),
        }
    }

    /// After the output took the mode: it is switched on, unless the complaint matters.
    pub fn after_allow(
        &self,
        anchor: String,
        candidate: String,
        mode: String,
        result: &Result<CommandOutput, String>,
    ) -> (step: ActivationStep)
        ensures
            match *result {
                Ok(answer) => if answer.success || x11_layout::addmode_tolerated(
                    process::lossy_text(answer.stderr@),
                ) {
                    activates(step, *self, anchor@, candidate@, mode@)
                } else {
                    broken_by(step, answer.complaint())
                },
                Err(failure) => broken_by(step, failure@),
            },
    {
        match result {
            Ok(answer) => match x11_layout::accept_addmode(answer) {
                Ok(()) => self.activate(anchor, candidate, mode),
                Err(why) => ActivationStep::Broken(why),
            },
            Err(failure) => ActivationStep::Broken(failure.clone()),
        }
    }

    /// After the output was switched on, or not.
    pub fn after_activate(
        &self,
        candidate: String,
        result: &Result<CommandOutput, String>,
    ) -> (step: ActivationStep)
        ensures
            match *result {
                Ok(answer) => match step {
                    ActivationStep::Done(X11ActivationOutcome::Activated { output }) =>
                        answer.success && output == candidate,
                    ActivationStep::Done(X11ActivationOutcome::Failed(why)) => !answer.success
                        && why@ == answer.complaint(),
                    _ => false,
                },
                Err(failure) => broken_by(step, failure@),
            },
    {
        match result {
            Ok(answer) => ActivationStep::Done(x11_layout::activation_outcome(candidate, answer)),
            Err(failure) => ActivationStep::Broken(failure.clone()),
        }
    }
}

/// A step that switches an output on names that output, the mode that it is given, the side that it
/// is put on, and the output beside which it is put.
pub proof fn outputs_are_switched_on(
    step: ActivationStep,
    request: Activation,
    anchor: Seq<char>,
    candidate: Seq<char>,
    mode: Seq<char>,
)
    requires
        activates(step, request, anchor, candidate, mode),
    ensures
        step matches ActivationStep::Activate { candidate: named, args } && named@ == candidate
            && args@.len() == 7 && args@[0]@ == "--output"@ && args@[1]@ == candidate && args@[2]@
            == "--mode"@ && args@[3]@ == mode && (match request.placement {
            Some(place) => if place@ == "left-of"@ {
                args@[4]@ == "--left-of"@
            } else if place@ == "above"@ {
                args@[4]@ == "--above"@
            } else if place@ == "below"@ {
                args@[4]@ == "--below"@
            } else {
                args@[4]@ == "--right-of"@
            },
            None => args@[4]@ == "--right-of"@,
        }) && args@[5]@ == anchor && args@[6]@ == "--auto"@,
{
    if let ActivationStep::Activate { candidate: named, args } = step {
        let held = text::texts(args@);
        assert(held.len() == 7);
        assert(held[0] == args@[0]@ && held[1] == args@[1]@ && held[2] == args@[2]@ && held[3]
            == args@[3]@ && held[4] == args@[4]@ && held[5] == args@[5]@ && held[6] == args@[6]@);
    }
}

/// An activation that a failure ends tells the failure as it is.
pub proof fn failures_are_told(step: ActivationStep, failure: Seq<char>)
    requires
        broken_by(step, failure),
    ensures
        step is Broken,
        step->Broken_0@ == failure,
{
}

} // verus!
