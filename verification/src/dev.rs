//! The development path: make sure that something stands at the sidecar's
//! path, without building the companion program.

use crate::artifact::filename_of;
use crate::error::{ErrorModel, FailedStep, ProvisionError};
use crate::plan::{Plan, PlanModel};
use crate::protocol::{
    answers, noted, silent, Action, Directive, DirectiveModel, Outcome, OutcomeModel, Step,
    StepModel,
};
use vstd::prelude::*;
use vstd::string::StringExecFns;

verus! {

/// The work that the development path can ask for.
pub open spec fn awaits(action: Action) -> bool {
    action == Action::EnsureSidecarDirectory || action == Action::ProbeSidecar || action
        == Action::CreatePlaceholder || action == Action::MarkSidecarExecutable
}

/// The line logged when the placeholder was made.
pub open spec fn created_note(plan: PlanModel) -> Seq<char> {
    "Created dummy sidecar binary: "@ + filename_of(plan.artifact)
}

/// The line logged when something stood at the sidecar's path already.
pub open spec fn present_note(plan: PlanModel) -> Seq<char> {
    "Dummy sidecar already present: "@ + filename_of(plan.artifact)
}

/// The line logged when the placeholder could not be made executable.
pub open spec fn permission_note(detail: Seq<char>) -> Seq<char> {
    "Could not mark dummy sidecar executable: "@ + detail
}

/// How the development path opens: by asking for the sidecar's directory.
pub open spec fn first_step() -> StepModel {
    noted(
        DirectiveModel::Perform(Action::EnsureSidecarDirectory),
        "Dev profile detected - ensuring dummy sidecar binary exists"@,
    )
}

/// What the development path decides once `action` has had `outcome`.
///
/// The directory has to be there, or the build is given up.  What stands at
/// the sidecar's path is left alone.  Where nothing stands there, an empty
/// file is made, and made executable where the host has such a bit; that
/// last step may fail without harm.
pub open spec fn next_step(plan: PlanModel, action: Action, outcome: OutcomeModel) -> StepModel {
    match (action, outcome) {
        (Action::EnsureSidecarDirectory, OutcomeModel::Failed(detail)) => silent(
            DirectiveModel::Abort(
                ErrorModel::Environment { step: FailedStep::CreateDirectory, detail },
            ),
        ),
        (Action::EnsureSidecarDirectory, _) => silent(
            DirectiveModel::Perform(Action::ProbeSidecar),
        ),
        (Action::ProbeSidecar, OutcomeModel::Found(true)) => noted(
            DirectiveModel::Finish,
            present_note(plan),
        ),
        (Action::ProbeSidecar, _) => silent(DirectiveModel::Perform(Action::CreatePlaceholder)),
        (Action::CreatePlaceholder, OutcomeModel::Failed(detail)) => silent(
            DirectiveModel::Abort(
                ErrorModel::Environment { step: FailedStep::CreatePlaceholder, detail },
            ),
        ),
        (Action::CreatePlaceholder, _) => if plan.sets_permissions {
            silent(DirectiveModel::Perform(Action::MarkSidecarExecutable))
        } else {
            noted(DirectiveModel::Finish, created_note(plan))
        },
        (_, OutcomeModel::Failed(detail)) => StepModel {
            directive: DirectiveModel::Finish,
            notes: seq![permission_note(detail), created_note(plan)],
        },
        (_, _) => noted(DirectiveModel::Finish, created_note(plan)),
    }
}

/// Whether the development path can ask for `action`.
pub fn awaited(action: Action) -> (yes: bool)
    ensures
        yes == awaits(action),
{
    match action {
        Action::EnsureSidecarDirectory => true,
        Action::ProbeSidecar => true,
        Action::CreatePlaceholder => true,
        Action::MarkSidecarExecutable => true,
        _ => false,
    }
}

fn created(plan: &Plan) -> (note: String)
    ensures
        note@ == created_note(plan@),
{
    let mut note = String::from_str("Created dummy sidecar binary: ");
    note.append(plan.artifact.filename().as_str());
    note
}

/// Opens the development path.
pub fn begin() -> (step: Step)
    ensures
        step@ == first_step(),
{
    Step::noted(
        Directive::Perform(Action::EnsureSidecarDirectory),
        String::from_str("Dev profile detected - ensuring dummy sidecar binary exists"),
    )
}

/// Decides what follows `action`, now that it has had `outcome`.
pub fn next(plan: &Plan, action: Action, outcome: &Outcome) -> (step: Step)
    requires
        awaits(action),
        answers(action, outcome@),
    ensures
        step@ == next_step(plan@, action, outcome@),
{
    match action {
        Action::EnsureSidecarDirectory => match outcome {
            Outcome::Failed(detail) => Step::silent(
                Directive::Abort(
                    ProvisionError::Environment {
                        step: FailedStep::CreateDirectory,
                        detail: detail.clone(),
                    },
                ),
            ),
            _ => Step::silent(Directive::Perform(Action::ProbeSidecar)),
        },
        Action::ProbeSidecar => match outcome {
            Outcome::Found(true) => {
                let mut note = String::from_str("Dummy sidecar already present: ");
                note.append(plan.artifact.filename().as_str());
                Step::noted(Directive::Finish, note)
            },
            _ => Step::silent(Directive::Perform(Action::CreatePlaceholder)),
        },
        Action::CreatePlaceholder => match outcome {
            Outcome::Failed(detail) => Step::silent(
                Directive::Abort(
                    ProvisionError::Environment {
                        step: FailedStep::CreatePlaceholder,
                        detail: detail.clone(),
                    },
                ),
            ),
            _ => {
                if plan.sets_permissions {
                    Step::silent(Directive::Perform(Action::MarkSidecarExecutable))
                } else {
                    Step::noted(Directive::Finish, created(plan))
                }
            },
        },
        _ => match outcome {
            Outcome::Failed(detail) => {
                let mut warning = String::from_str("Could not mark dummy sidecar executable: ");
                warning.append(detail.as_str());
                let step = Step::noted(Directive::Finish, created(plan)).after_note(warning);
                proof {
                    assert(step@.notes =~= seq![permission_note(detail@), created_note(plan@)]);
                }
                step
            },
            _ => Step::noted(Directive::Finish, created(plan)),
        },
    }
}

} // verus!
