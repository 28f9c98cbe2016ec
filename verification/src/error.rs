//! Why a provisioning run is given up.  Every failure is fatal to the build.

use crate::text::{contains, occurs_at};
use vstd::prelude::*;
use vstd::string::StringExecFns;

verus! {

/// The work on the build's surroundings that can fail fatally.
#[derive(Clone, Copy, Debug, PartialEq, Eq, Structural)]
pub enum FailedStep {
    CreateDirectory,
    CreatePlaceholder,
    StartToolchain,
    CopyExecutable,
    SetPermissions,
}

/// The words that open the message of a failed step.
pub open spec fn step_label(step: FailedStep) -> Seq<char> {
    match step {
        FailedStep::CreateDirectory => "Failed to create binaries directory"@,
        FailedStep::CreatePlaceholder => "Failed to create dummy sidecar file"@,
        FailedStep::StartToolchain => "Failed to execute dotnet publish"@,
        FailedStep::CopyExecutable => "Failed to copy .NET executable to sidecar location"@,
        FailedStep::SetPermissions => "Failed to set permissions on sidecar"@,
    }
}

/// A fatal failure of the provisioning step.
#[derive(Clone, Debug, PartialEq, Eq)]
pub enum ProvisionError {
    /// The build's surroundings refused some work; `detail` is the
    /// underlying error's own text.
    Environment { step: FailedStep, detail: String },
    /// The companion project's directory does not exist.
    MissingCompanionProject,
    /// The companion toolchain ran and did not exit with status zero.
    ExternalBuildFailure { stderr: String },
    /// The toolchain reported success and the executable is not at `expected`.
    MissingProducedArtifact { expected: String },
}

/// A [`ProvisionError`] as plain values.
pub enum ErrorModel {
    Environment { step: FailedStep, detail: Seq<char> },
    MissingCompanionProject,
    ExternalBuildFailure { stderr: Seq<char> },
    MissingProducedArtifact { expected: Seq<char> },
}

impl View for ProvisionError {
    type V = ErrorModel;

    open spec fn view(&self) -> ErrorModel {
        match self {
            ProvisionError::Environment { step, detail } => ErrorModel::Environment {
                step: *step,
                detail: detail@,
            },
            ProvisionError::MissingCompanionProject => ErrorModel::MissingCompanionProject,
            ProvisionError::ExternalBuildFailure { stderr } => ErrorModel::ExternalBuildFailure {
                stderr: stderr@,
            },
            ProvisionError::MissingProducedArtifact { expected } => {
                ErrorModel::MissingProducedArtifact { expected: expected@ }
            },
        }
    }
}

/// The message that the build is halted with.
pub open spec fn message_of(error: ErrorModel) -> Seq<char> {
    match error {
        ErrorModel::Environment { step, detail } => step_label(step) + ": "@ + detail,
        ErrorModel::MissingCompanionProject => "Tempest.CLI project directory not found"@,
        ErrorModel::ExternalBuildFailure { stderr } => "Failed to build .NET project: "@ + stderr,
        ErrorModel::MissingProducedArtifact { expected } => {
            "Built .NET executable not found at: "@ + expected
        },
    }
}

impl FailedStep {
    /// The words that open the message of this step's failure.
    pub fn label(&self) -> (label: String)
        ensures
            label@ == step_label(*self),
    {
        match self {
            FailedStep::CreateDirectory => String::from_str("Failed to create binaries directory"),
            FailedStep::CreatePlaceholder => String::from_str(
                "Failed to create dummy sidecar file",
            ),
            FailedStep::StartToolchain => String::from_str("Failed to execute dotnet publish"),
            FailedStep::CopyExecutable => String::from_str(
                "Failed to copy .NET executable to sidecar location",
            ),
            FailedStep::SetPermissions => String::from_str("Failed to set permissions on sidecar"),
        }
    }
}

impl ProvisionError {
    /// The message that the build is halted with.
    pub fn message(&self) -> (message: String)
        ensures
            message@ == message_of(self@),
    {
        match self {
            ProvisionError::Environment { step, detail } => {
                let mut message = step.label();
                message.append(": ");
                message.append(detail.as_str());
                message
            },
            ProvisionError::MissingCompanionProject => String::from_str(
                "Tempest.CLI project directory not found",
            ),
            ProvisionError::ExternalBuildFailure { stderr } => {
                let mut message = String::from_str("Failed to build .NET project: ");
                message.append(stderr.as_str());
                message
            },
            ProvisionError::MissingProducedArtifact { expected } => {
                let mut message = String::from_str("Built .NET executable not found at: ");
                message.append(expected.as_str());
                message
            },
        }
    }
}

/// The message of a failed companion build holds, to the letter and at its
/// end, what the toolchain wrote to standard error; a failure of the
/// surroundings carries the underlying error's text in the same way.
pub proof fn message_carries_cause(error: ErrorModel)
    ensures
        error matches ErrorModel::ExternalBuildFailure { stderr } ==> contains(
            message_of(error),
            stderr,
        ),
        error matches ErrorModel::Environment { step, detail } ==> contains(
            message_of(error),
            detail,
        ),
        error matches ErrorModel::MissingProducedArtifact { expected } ==> contains(
            message_of(error),
            expected,
        ),
{
    let message = message_of(error);
    match error {
        ErrorModel::ExternalBuildFailure { stderr } => {
            let at = message.len() - stderr.len();
            assert(message.subrange(at, at + stderr.len()) =~= stderr);
            assert(occurs_at(message, stderr, at));
        },
        ErrorModel::Environment { step, detail } => {
            let at = message.len() - detail.len();
            assert(message.subrange(at, at + detail.len()) =~= detail);
            assert(occurs_at(message, detail, at));
        },
        ErrorModel::MissingProducedArtifact { expected } => {
            let at = message.len() - expected.len();
            assert(message.subrange(at, at + expected.len()) =~= expected);
            assert(occurs_at(message, expected, at));
        },
        ErrorModel::MissingCompanionProject => {},
    }
}

} // verus!
