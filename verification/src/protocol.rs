//! What passes between the provisioner and its caller: the work it asks
//! for, what came of that work, and how a run ends.

use crate::error::{ErrorModel, ProvisionError};
use vstd::prelude::*;

verus! {

/// One piece of outside work.  Every path it concerns is held by the plan.
#[derive(Clone, Copy, Debug, PartialEq, Eq, Structural)]
pub enum Action {
    /// See whether the companion project's directory exists.
    ProbeCompanionProject,
    /// Create the sidecar's directory, with its parents.
    EnsureSidecarDirectory,
    /// See whether anything exists at the sidecar's path.
    ProbeSidecar,
    /// Create a file of length zero at the sidecar's path.
    CreatePlaceholder,
    /// Run the companion toolchain and wait for it to exit.
    RunToolchain,
    /// See whether the toolchain left the expected executable.
    ProbeProduced,
    /// Copy the produced executable over the sidecar's path.
    CopyProduced,
    /// Set mode 0755 on the file at the sidecar's path.
    MarkSidecarExecutable,
    /// Remove the temporary output directory and all below it.
    RemoveTempDirectory,
}

/// How the companion toolchain ended.
#[derive(Clone, Debug, PartialEq, Eq)]
pub struct BuildOutcome {
    /// The exit status; `None` where the process ended without one.
    pub status: Option<i32>,
    /// Everything the process wrote to standard error.
    pub stderr: String,
}

/// A [`BuildOutcome`] as plain values.
pub struct BuildOutcomeModel {
    pub status: Option<i32>,
    pub stderr: Seq<char>,
}

impl View for BuildOutcome {
    type V = BuildOutcomeModel;

    open spec fn view(&self) -> BuildOutcomeModel {
        BuildOutcomeModel { status: self.status, stderr: self.stderr@ }
    }
}

/// The toolchain succeeded exactly when it exited with status zero.
pub open spec fn build_succeeded(outcome: BuildOutcomeModel) -> bool {
    outcome.status == Some(0i32)
}

impl BuildOutcome {
    /// Whether the toolchain exited with status zero.
    pub fn succeeded(&self) -> (yes: bool)
        ensures
            yes == build_succeeded(self@),
    {
        match self.status {
            Some(code) => code == 0,
            None => false,
        }
    }
}

/// What came of one [`Action`].
#[derive(Clone, Debug, PartialEq, Eq)]
pub enum Outcome {
    /// The work was done.
    Succeeded,
    /// The work could not be done; the text says why.
    Failed(String),
    /// The answer to a probe.
    Found(bool),
    /// The toolchain ran and exited.
    Exited(BuildOutcome),
}

/// An [`Outcome`] as plain values.
pub enum OutcomeModel {
    Succeeded,
    Failed(Seq<char>),
    Found(bool),
    Exited(BuildOutcomeModel),
}

impl View for Outcome {
    type V = OutcomeModel;

    open spec fn view(&self) -> OutcomeModel {
        match self {
            Outcome::Succeeded => OutcomeModel::Succeeded,
            Outcome::Failed(detail) => OutcomeModel::Failed(detail@),
            Outcome::Found(found) => OutcomeModel::Found(*found),
            Outcome::Exited(build) => OutcomeModel::Exited(build@),
        }
    }
}

/// Whether `outcome` is an answer that `action` can have: a probe is
/// answered by what it found, the toolchain by its exit or by the failure to
/// start it, all other work by success or failure.
pub open spec fn answers(action: Action, outcome: OutcomeModel) -> bool {
    match action {
        Action::ProbeCompanionProject | Action::ProbeSidecar | Action::ProbeProduced => {
            outcome is Found
        },
        Action::RunToolchain => outcome is Exited || outcome is Failed,
        _ => outcome is Succeeded || outcome is Failed,
    }
}

impl Outcome {
    /// Whether this outcome is an answer that `action` can have.
    pub fn answers(&self, action: Action) -> (yes: bool)
        ensures
            yes == answers(action, self@),
    {
        match action {
            Action::ProbeCompanionProject | Action::ProbeSidecar | Action::ProbeProduced => {
                match self {
                    Outcome::Found(_) => true,
                    _ => false,
                }
            },
            Action::RunToolchain => {
                match self {
                    Outcome::Exited(_) => true,
                    Outcome::Failed(_) => true,
                    _ => false,
                }
            },
            _ => {
                match self {
                    Outcome::Succeeded => true,
                    Outcome::Failed(_) => true,
                    _ => false,
                }
            },
        }
    }
}

/// What the caller has to do next.
#[derive(Clone, Debug, PartialEq, Eq)]
pub enum Directive {
    /// Do this work and come back with its outcome.
    Perform(Action),
    /// The sidecar is in place: hand over to the packaging step.
    Finish,
    /// Halt the build with this error.
    Abort(ProvisionError),
}

/// A [`Directive`] as plain values.
pub enum DirectiveModel {
    Perform(Action),
    Finish,
    Abort(ErrorModel),
}

impl View for Directive {
    type V = DirectiveModel;

    open spec fn view(&self) -> DirectiveModel {
        match self {
            Directive::Perform(action) => DirectiveModel::Perform(*action),
            Directive::Finish => DirectiveModel::Finish,
            Directive::Abort(error) => DirectiveModel::Abort(error@),
        }
    }
}

/// One decision of the provisioner: what to do next, and the lines to log
/// before doing it, in order.
#[derive(Clone, Debug, PartialEq, Eq)]
pub struct Step {
    pub directive: Directive,
    pub notes: Vec<String>,
}

/// A [`Step`] as plain values.
pub struct StepModel {
    pub directive: DirectiveModel,
    pub notes: Seq<Seq<char>>,
}

impl View for Step {
    type V = StepModel;

    open spec fn view(&self) -> StepModel {
        StepModel { directive: self.directive@, notes: self.notes.deep_view() }
    }
}

/// The step that asks for `action` and logs nothing.
pub open spec fn silent(directive: DirectiveModel) -> StepModel {
    StepModel { directive, notes: Seq::<Seq<char>>::empty() }
}

/// The step that logs `note` and then asks for `directive`.
pub open spec fn noted(directive: DirectiveModel, note: Seq<char>) -> StepModel {
    StepModel { directive, notes: seq![note] }
}

impl Step {
    /// A step that logs nothing.
    pub fn silent(directive: Directive) -> (step: Step)
        ensures
            step@ == silent(directive@),
    {
        let notes: Vec<String> = Vec::new();
        proof {
            assert(notes.deep_view() =~= Seq::<Seq<char>>::empty());
        }
        Step { directive, notes }
    }

    /// A step that logs one line.
    pub fn noted(directive: Directive, note: String) -> (step: Step)
        ensures
            step@ == noted(directive@, note@),
    {
        let mut notes: Vec<String> = Vec::new();
        notes.push(note);
        proof {
            assert(notes.deep_view() =~= seq![note@]);
        }
        Step { directive, notes }
    }

    /// This step with `note` logged before its own lines.
    pub fn after_note(self, note: String) -> (step: Step)
        ensures
            step@.directive == self@.directive,
            step@.notes == seq![note@] + self@.notes,
    {
        let mut notes: Vec<String> = Vec::new();
        notes.push(note);
        let mut rest = self.notes;
        let ghost before = rest.deep_view();
        notes.append(&mut rest);
        proof {
            assert(notes.deep_view() =~= seq![note@] + before);
        }
        Step { directive: self.directive, notes }
    }
}

} // verus!
