//! The release path: have the companion toolchain build the real
//! executable, and stage it at the sidecar's path.

use crate::artifact::filename_of;
use crate::error::{ErrorModel, FailedStep, ProvisionError};
use crate::plan::{Plan, PlanModel};
use crate::protocol::{
    answers, build_succeeded, noted, silent, Action, Directive, DirectiveModel, Outcome,
    OutcomeModel, Step, StepModel,
};
use vstd::pervasive::unreached;
use vstd::prelude::*;
use vstd::string::StringExecFns;

verus! {

/// The work that the release path can ask for.
pub open spec fn awaits(action: Action) -> bool {
    action != Action::ProbeSidecar && action != Action::CreatePlaceholder
}

/// The line logged when the executable stands at the sidecar's path.
pub open spec fn staged_note(plan: PlanModel) -> Seq<char> {
    "Sidecar binary created: "@ + filename_of(plan.artifact)
}

/// The line logged when the temporary directory could not be removed.
pub open spec fn cleanup_note(detail: Seq<char>) -> Seq<char> {
    "Could not remove temporary build directory: "@ + detail
}

/// The last line of a release run.
pub open spec fn built_note() -> Seq<char> {
    ".NET CLI built successfully"@
}

/// How the release path opens: by looking for the companion project.
pub open spec fn first_step() -> StepModel {
    noted(
        DirectiveModel::Perform(Action::ProbeCompanionProject),
        "Building .NET project for Tauri sidecar"@,
    )
}

/// The step that gives the build up over a failure of its surroundings.
pub open spec fn refused(step: FailedStep, detail: Seq<char>) -> StepModel {
    silent(DirectiveModel::Abort(ErrorModel::Environment { step, detail }))
}

/// What the release path decides once `action` has had `outcome`.
///
/// The order of work is fixed: companion project, sidecar directory,
/// toolchain, produced executable, copy, permission, cleanup.  Each has to
/// succeed for the next to be asked for, and each failure gives the build
/// up with an error of its own, but for the cleanup, which may fail without
/// harm.
pub open spec fn next_step(plan: PlanModel, action: Action, outcome: OutcomeModel) -> StepModel {
    match (action, outcome) {
        (Action::ProbeCompanionProject, OutcomeModel::Found(true)) => silent(
            DirectiveModel::Perform(Action::EnsureSidecarDirectory),
        ),
        (Action::ProbeCompanionProject, _) => silent(
            DirectiveModel::Abort(ErrorModel::MissingCompanionProject),
        ),
        (Action::EnsureSidecarDirectory, OutcomeModel::Failed(detail)) => refused(
            FailedStep::CreateDirectory,
            detail,
        ),
        (Action::EnsureSidecarDirectory, _) => silent(
            DirectiveModel::Perform(Action::RunToolchain),
        ),
        (Action::RunToolchain, OutcomeModel::Exited(build)) => if build_succeeded(build) {
            silent(DirectiveModel::Perform(Action::ProbeProduced))
        } else {
            silent(
                DirectiveModel::Abort(ErrorModel::ExternalBuildFailure { stderr: build.stderr }),
            )
        },
        (Action::RunToolchain, OutcomeModel::Failed(detail)) => refused(
            FailedStep::StartToolchain,
            detail,
        ),
        (Action::ProbeProduced, OutcomeModel::Found(true)) => silent(
            DirectiveModel::Perform(Action::CopyProduced),
        ),
        (Action::ProbeProduced, _) => silent(
            DirectiveModel::Abort(
                ErrorModel::MissingProducedArtifact { expected: plan.produced_path },
            ),
        ),
        (Action::CopyProduced, OutcomeModel::Failed(detail)) => refused(
            FailedStep::CopyExecutable,
            detail,
        ),
        (Action::CopyProduced, _) => if plan.sets_permissions {
            silent(DirectiveModel::Perform(Action::MarkSidecarExecutable))
        } else {
            noted(DirectiveModel::Perform(Action::RemoveTempDirectory), staged_note(plan))
        },
        (Action::MarkSidecarExecutable, OutcomeModel::Failed(detail)) => refused(
            FailedStep::SetPermissions,
            detail,
        ),
        (Action::MarkSidecarExecutable, _) => noted(
            DirectiveModel::Perform(Action::RemoveTempDirectory),
            staged_note(plan),
        ),
        (_, OutcomeModel::Failed(detail)) => StepModel {
            directive: DirectiveModel::Finish,
            notes: seq![cleanup_note(detail), built_note()],
        },
        (_, _) => noted(DirectiveModel::Finish, built_note()),
    }
}

/// Whether the release path can ask for `action`.
pub fn awaited(action: Action) -> (yes: bool)
    ensures
        yes == awaits(action),
{
    match action {
        Action::ProbeSidecar => false,
        Action::CreatePlaceholder => false,
        _ => true,
    }
}

fn refuse(step: FailedStep, detail: &String) -> (out: Step)
    ensures
        out@ == refused(step, detail@),
{
    Step::silent(Directive::Abort(ProvisionError::Environment { step, detail: detail.clone() }))
}

fn staged(plan: &Plan) -> (out: Step)
    ensures
        out@ == noted(DirectiveModel::Perform(Action::RemoveTempDirectory), staged_note(plan@)),
{
    let mut note = String::from_str("Sidecar binary created: ");
    note.append(plan.artifact.filename().as_str());
    Step::noted(Directive::Perform(Action::RemoveTempDirectory), note)
}

/// Opens the release path.
pub fn begin() -> (step: Step)
    ensures
        step@ == first_step(),
{
    Step::noted(
        Directive::Perform(Action::ProbeCompanionProject),
        String::from_str("Building .NET project for Tauri sidecar"),
    )
}

/// Decides what follows `action`, now that it has had `outcome`.
pub fn next(plan: &Plan, action: Action, outcome: &Outcome) -> (step: Step)
    requires
        awaits(action),
        answers(action, outcome@),
    ensures
        step@ == next_step(plan@, action, outcome@),
{
    match action {
        Action::ProbeCompanionProject => match outcome {
            Outcome::Found(true) => Step::silent(
                Directive::Perform(Action::EnsureSidecarDirectory),
            ),
            _ => Step::silent(Directive::Abort(ProvisionError::MissingCompanionProject)),
        },
        Action::EnsureSidecarDirectory => match outcome {
            Outcome::Failed(detail) => refuse(FailedStep::CreateDirectory, detail),
            _ => Step::silent(Directive::Perform(Action::RunToolchain)),
        },
        Action::RunToolchain => match outcome {
            Outcome::Exited(build) => {
                if build.succeeded() {
                    Step::silent(Directive::Perform(Action::ProbeProduced))
                } else {
                    Step::silent(
                        Directive::Abort(
                            ProvisionError::ExternalBuildFailure { stderr: build.stderr.clone() },
                        ),
                    )
                }
            },
            Outcome::Failed(detail) => refuse(FailedStep::StartToolchain, detail),
            _ => unreached(),
        },
        Action::ProbeProduced => match outcome {
            Outcome::Found(true) => Step::silent(Directive::Perform(Action::CopyProduced)),
            _ => Step::silent(
                Directive::Abort(
                    ProvisionError::MissingProducedArtifact {
                        expected: plan.produced_path.clone(),
                    },
                ),
            ),
        },
        Action::CopyProduced => match outcome {
            Outcome::Failed(detail) => refuse(FailedStep::CopyExecutable, detail),
            _ => {
                if plan.sets_permissions {
                    Step::silent(Directive::Perform(Action::MarkSidecarExecutable))
                } else {
                    staged(plan)
                }
            },
        },
        Action::MarkSidecarExecutable => match outcome {
            Outcome::Failed(detail) => refuse(FailedStep::SetPermissions, detail),
            _ => staged(plan),
        },
        _ => {
            let built = Step::noted(
                Directive::Finish,
                String::from_str(".NET CLI built successfully"),
            );
            match outcome {
                Outcome::Failed(detail) => {
                    let mut warning = String::from_str(
                        "Could not remove temporary build directory: ",
                    );
                    warning.append(detail.as_str());
                    let step = built.after_note(warning);
                    proof {
                        assert(step@.notes =~= seq![cleanup_note(detail@), built_note()]);
                    }
                    step
                },
                _ => built,
            }
        },
    }
}

} // verus!
