//! The plan of a run: every name and path, worked out once from the
//! configuration and never again.  All paths are relative to the build root
//! and use `/` between their parts.

use crate::artifact::{path_of, sidecar_for, ArtifactModel, SidecarArtifact};
use crate::config::{BuildConfig, BuildProfile, ConfigModel};
use crate::triple::{is_windows_like, resolve_triple, resolved_triple, windows_like, HostOs};
use vstd::prelude::*;
use vstd::string::StringExecFns;

verus! {

/// What a run works with.
#[derive(Clone, Debug, PartialEq, Eq)]
pub struct Plan {
    pub profile: BuildProfile,
    pub artifact: SidecarArtifact,
    /// Where the sidecar has to be: the artifact's directory and file name.
    pub sidecar_path: String,
    /// The companion project's directory.
    pub companion_dir: String,
    /// The directory that the toolchain writes into.
    pub temp_dir: String,
    /// Where the toolchain leaves its executable.
    pub produced_path: String,
    /// Whether the host knows permission bits that have to be set.
    pub sets_permissions: bool,
}

/// A [`Plan`] as plain values.
pub struct PlanModel {
    pub profile: BuildProfile,
    pub artifact: ArtifactModel,
    pub sidecar_path: Seq<char>,
    pub companion_dir: Seq<char>,
    pub temp_dir: Seq<char>,
    pub produced_path: Seq<char>,
    pub sets_permissions: bool,
}

impl View for Plan {
    type V = PlanModel;

    open spec fn view(&self) -> PlanModel {
        PlanModel {
            profile: self.profile,
            artifact: self.artifact@,
            sidecar_path: self.sidecar_path@,
            companion_dir: self.companion_dir@,
            temp_dir: self.temp_dir@,
            produced_path: self.produced_path@,
            sets_permissions: self.sets_permissions,
        }
    }
}

/// The name that the companion toolchain gives its executable.  It follows
/// the toolchain's own convention, not the sidecar's.
pub open spec fn produced_name(triple: Seq<char>) -> Seq<char> {
    if is_windows_like(triple) {
        "Tempest.CLI.exe"@
    } else {
        "Tempest.CLI"@
    }
}

/// A host has permission bits to set unless it is Windows.
pub open spec fn host_sets_permissions(host: HostOs) -> bool {
    host != HostOs::Windows
}

/// The plan of the build that `config` describes.
pub open spec fn plan_for(config: ConfigModel) -> PlanModel {
    let triple = resolved_triple(config.explicit_triple, config.host_os);
    PlanModel {
        profile: config.profile,
        artifact: sidecar_for(triple),
        sidecar_path: path_of(sidecar_for(triple)),
        companion_dir: "../../Tempest.CLI"@,
        temp_dir: "temp-dotnet-build"@,
        produced_path: "temp-dotnet-build"@ + "/"@ + produced_name(triple),
        sets_permissions: host_sets_permissions(config.host_os),
    }
}

/// The arguments that the toolchain is run with: publish the companion
/// project, in release configuration, into the temporary directory, quietly.
pub open spec fn toolchain_arguments(plan: PlanModel) -> Seq<Seq<char>> {
    seq![
        "publish"@,
        plan.companion_dir,
        "--configuration"@,
        "Release"@,
        "--output"@,
        plan.temp_dir,
        "-v"@,
        "q"@,
    ]
}

/// A program and the arguments to run it with.
#[derive(Clone, Debug, PartialEq, Eq)]
pub struct ToolchainCommand {
    pub program: String,
    pub arguments: Vec<String>,
}

impl Plan {
    /// Works out the plan of the build that `config` describes.
    pub fn new(config: &BuildConfig) -> (plan: Plan)
        ensures
            plan@ == plan_for(config@),
    {
        let triple = match &config.explicit_triple {
            Some(given) => resolve_triple(Some(given.as_str()), config.host_os),
            None => resolve_triple(None, config.host_os),
        };
        let artifact = SidecarArtifact::for_triple(triple.as_str());
        let sidecar_path = artifact.path();
        let mut produced_path = String::from_str("temp-dotnet-build");
        produced_path.append("/");
        if windows_like(triple.as_str()) {
            produced_path.append("Tempest.CLI.exe");
        } else {
            produced_path.append("Tempest.CLI");
        }
        let sets_permissions = match config.host_os {
            HostOs::Windows => false,
            _ => true,
        };
        Plan {
            profile: config.profile,
            artifact,
            sidecar_path,
            companion_dir: String::from_str("../../Tempest.CLI"),
            temp_dir: String::from_str("temp-dotnet-build"),
            produced_path,
            sets_permissions,
        }
    }

    /// The command that builds the companion program.
    pub fn command(&self) -> (command: ToolchainCommand)
        ensures
            command.program@ == "dotnet"@,
            command.arguments.deep_view() == toolchain_arguments(self@),
    {
        let mut arguments: Vec<String> = Vec::new();
        arguments.push(String::from_str("publish"));
        arguments.push(self.companion_dir.clone());
        arguments.push(String::from_str("--configuration"));
        arguments.push(String::from_str("Release"));
        arguments.push(String::from_str("--output"));
        arguments.push(self.temp_dir.clone());
        arguments.push(String::from_str("-v"));
        arguments.push(String::from_str("q"));
        proof {
            assert(arguments.deep_view() =~= toolchain_arguments(self@));
        }
        ToolchainCommand { program: String::from_str("dotnet"), arguments }
    }
}

} // verus!
