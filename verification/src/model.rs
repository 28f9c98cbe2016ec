//! A model of the build's surroundings, and what a whole run does to them.
//!
//! The model is a file system that grants every request, and a toolchain
//! whose behaviour is given.  Nothing here is executed: it states, and
//! proves, where the decisions of the provisioner lead.

use crate::config::{BuildProfile, ConfigModel};
use crate::dev;
use crate::error::{message_carries_cause, message_of, ErrorModel};
use crate::plan::{plan_for, PlanModel};
use crate::protocol::{Action, BuildOutcomeModel, DirectiveModel, OutcomeModel, StepModel};
use crate::provisioner::{first_step, next_step};
use crate::release;
use crate::text::contains;
use vstd::prelude::*;

verus! {

/// A file: its bytes, and whether it may be executed.
pub struct FileModel {
    pub content: Seq<u8>,
    pub executable: bool,
}

/// The directories and files of the build root, by path.
pub struct FsModel {
    pub directories: Set<Seq<char>>,
    pub files: Map<Seq<char>, FileModel>,
}

/// What the companion toolchain does when it is run: how it exits, what it
/// writes to standard error, and the executable it leaves, if it leaves one.
pub struct ToolchainModel {
    pub status: Option<i32>,
    pub stderr: Seq<char>,
    pub output: Option<Seq<u8>>,
}

/// `path` lies below the directory `dir`.
pub open spec fn below(dir: Seq<char>, path: Seq<char>) -> bool {
    (dir + "/"@).is_prefix_of(path)
}

/// `path` is the directory `dir` or lies below it.
pub open spec fn within(dir: Seq<char>, path: Seq<char>) -> bool {
    path == dir || below(dir, path)
}

/// Something, file or directory, exists at `path`.
pub open spec fn exists_at(fs: FsModel, path: Seq<char>) -> bool {
    fs.files.contains_key(path) || fs.directories.contains(path)
}

/// The outcome of `action` in the surroundings `fs`.
pub open spec fn answer(
    plan: PlanModel,
    toolchain: ToolchainModel,
    fs: FsModel,
    action: Action,
) -> OutcomeModel {
    match action {
        Action::ProbeCompanionProject => OutcomeModel::Found(exists_at(fs, plan.companion_dir)),
        Action::ProbeSidecar => OutcomeModel::Found(exists_at(fs, plan.sidecar_path)),
        Action::ProbeProduced => OutcomeModel::Found(exists_at(fs, plan.produced_path)),
        Action::RunToolchain => OutcomeModel::Exited(
            BuildOutcomeModel { status: toolchain.status, stderr: toolchain.stderr },
        ),
        _ => OutcomeModel::Succeeded,
    }
}

/// The surroundings after `action` was performed in `fs`.  A new file and a
/// copy are taken to be not executable: the worst that can happen.
pub open spec fn effect(
    plan: PlanModel,
    toolchain: ToolchainModel,
    fs: FsModel,
    action: Action,
) -> FsModel {
    match action {
        Action::EnsureSidecarDirectory => FsModel {
            directories: fs.directories.insert(plan.artifact.directory),
            files: fs.files,
        },
        Action::CreatePlaceholder => FsModel {
            directories: fs.directories,
            files: fs.files.insert(
                plan.sidecar_path,
                FileModel { content: Seq::<u8>::empty(), executable: false },
            ),
        },
        Action::MarkSidecarExecutable => FsModel {
            directories: fs.directories,
            files: fs.files.insert(
                plan.sidecar_path,
                FileModel { content: fs.files[plan.sidecar_path].content, executable: true },
            ),
        },
        Action::RunToolchain => FsModel {
            directories: fs.directories.insert(plan.temp_dir),
            files: match toolchain.output {
                Some(content) => fs.files.insert(
                    plan.produced_path,
                    FileModel { content, executable: false },
                ),
                None => fs.files,
            },
        },
        Action::CopyProduced => FsModel {
            directories: fs.directories,
            files: fs.files.insert(
                plan.sidecar_path,
                FileModel { content: fs.files[plan.produced_path].content, executable: false },
            ),
        },
        Action::RemoveTempDirectory => FsModel {
            directories: Set::new(
                |path: Seq<char>| fs.directories.contains(path) && !within(plan.temp_dir, path),
            ),
            files: fs.files.restrict(Set::new(|path: Seq<char>| !within(plan.temp_dir, path))),
        },
        _ => fs,
    }
}

/// A run, told from its end: the surroundings it leaves, the directive it
/// ends with, the work it asked for and the lines it logged, each in order.
pub struct RunModel {
    pub fs: FsModel,
    pub end: DirectiveModel,
    pub performed: Seq<Action>,
    pub notes: Seq<Seq<char>>,
}

/// The run that starts with `step` in `fs` and asks for at most `limit`
/// pieces of work.
pub open spec fn run_from(
    plan: PlanModel,
    toolchain: ToolchainModel,
    fs: FsModel,
    step: StepModel,
    limit: nat,
) -> RunModel
    decreases limit,
{
    match step.directive {
        DirectiveModel::Perform(action) if limit > 0 => {
            let outcome = answer(plan, toolchain, fs, action);
            let after = effect(plan, toolchain, fs, action);
            let rest = run_from(
                plan,
                toolchain,
                after,
                next_step(plan, action, outcome),
                (limit - 1) as nat,
            );
            RunModel {
                fs: rest.fs,
                end: rest.end,
                performed: seq![action] + rest.performed,
                notes: step.notes + rest.notes,
            }
        },
        _ => RunModel {
            fs,
            end: step.directive,
            performed: Seq::<Action>::empty(),
            notes: step.notes,
        },
    }
}

/// The whole run of `plan` in `fs`.  No path asks for more than seven
/// pieces of work.
pub open spec fn run(plan: PlanModel, toolchain: ToolchainModel, fs: FsModel) -> RunModel {
    run_from(plan, toolchain, fs, first_step(plan), 7)
}

/// Every run comes to an end within its limit: it finishes or it aborts.
pub proof fn run_ends(plan: PlanModel, toolchain: ToolchainModel, fs: FsModel)
    ensures
        !(run(plan, toolchain, fs).end is Perform),
{
    reveal_with_fuel(run_from, 8);
}

/// In the planned layout the sidecar lies outside the temporary directory
/// and is not the file that the toolchain leaves, and the temporary
/// directory is not the sidecar's.
pub proof fn planned_paths_are_apart(config: ConfigModel)
    ensures
        !within(plan_for(config).temp_dir, plan_for(config).sidecar_path),
        !within(plan_for(config).temp_dir, plan_for(config).artifact.directory),
        below(plan_for(config).temp_dir, plan_for(config).produced_path),
        below(plan_for(config).artifact.directory, plan_for(config).sidecar_path),
        plan_for(config).sidecar_path != plan_for(config).artifact.directory,
        plan_for(config).sidecar_path != plan_for(config).produced_path,
        plan_for(config).produced_path != plan_for(config).artifact.directory,
        plan_for(config).produced_path != plan_for(config).temp_dir,
{
    reveal_strlit("binaries");
    reveal_strlit("temp-dotnet-build");
    reveal_strlit("/");
    let plan = plan_for(config);
    let prefix = plan.temp_dir + "/"@;
    assert(plan.sidecar_path[0] == 'b');
    assert(prefix[0] == 't');
    assert(plan.produced_path[0] == 't');
    assert(plan.temp_dir[0] == 't');
    assert(plan.artifact.directory[0] == 'b');
    if below(plan.temp_dir, plan.sidecar_path) {
        assert(plan.sidecar_path.subrange(0, prefix.len() as int)[0] == plan.sidecar_path[0]);
    }
    if below(plan.temp_dir, plan.artifact.directory) {
        assert(plan.artifact.directory.subrange(0, prefix.len() as int)[0]
            == plan.artifact.directory[0]);
    }
    assert(plan.produced_path.subrange(0, prefix.len() as int) =~= prefix);
    let home = plan.artifact.directory + "/"@;
    assert(plan.sidecar_path.subrange(0, home.len() as int) =~= home);
    assert(plan.sidecar_path.len() > plan.artifact.directory.len());
    assert(plan.produced_path.len() > plan.temp_dir.len());
}

/// A development run leaves something at the sidecar's path, and a second
/// run right after it changes nothing: it asks for the directory, finds the
/// sidecar, says so and finishes.
pub proof fn dev_run_is_idempotent(plan: PlanModel, toolchain: ToolchainModel, fs: FsModel)
    requires
        plan.profile == BuildProfile::Development,
    ensures
        run(plan, toolchain, fs).end == DirectiveModel::Finish,
        exists_at(run(plan, toolchain, fs).fs, plan.sidecar_path),
        ({
            let first = run(plan, toolchain, fs);
            let second = run(plan, toolchain, first.fs);
            &&& second.end == DirectiveModel::Finish
            &&& second.fs == first.fs
            &&& second.performed == seq![Action::EnsureSidecarDirectory, Action::ProbeSidecar]
            &&& second.notes == dev::first_step().notes + seq![dev::present_note(plan)]
        }),
{
    reveal_with_fuel(run_from, 8);
    let first = run(plan, toolchain, fs);
    let second = run(plan, toolchain, first.fs);
    assert(first.fs.directories.insert(plan.artifact.directory) =~= first.fs.directories);
    assert(second.fs.directories =~= first.fs.directories);
    assert(second.fs.files =~= first.fs.files);
    assert(second.performed =~= seq![Action::EnsureSidecarDirectory, Action::ProbeSidecar]);
    assert(second.notes =~= dev::first_step().notes + seq![dev::present_note(plan)]);
}

/// A development run that finds nothing at the sidecar's path makes an
/// empty file there, executable where the host has such a bit, and touches
/// no other file; one that finds something leaves every file as it was.
pub proof fn dev_run_makes_placeholder(plan: PlanModel, toolchain: ToolchainModel, fs: FsModel)
    requires
        plan.profile == BuildProfile::Development,
        plan.sidecar_path != plan.artifact.directory,
    ensures
        exists_at(fs, plan.sidecar_path) ==> run(plan, toolchain, fs).fs.files == fs.files,
        !exists_at(fs, plan.sidecar_path) ==> run(plan, toolchain, fs).fs.files == fs.files.insert(
            plan.sidecar_path,
            FileModel { content: Seq::<u8>::empty(), executable: plan.sets_permissions },
        ),
        run(plan, toolchain, fs).fs.directories == fs.directories.insert(plan.artifact.directory),
{
    reveal_with_fuel(run_from, 8);
    let end = run(plan, toolchain, fs).fs;
    if exists_at(fs, plan.sidecar_path) {
        assert(end.files =~= fs.files);
    } else {
        assert(end.files =~= fs.files.insert(
            plan.sidecar_path,
            FileModel { content: Seq::<u8>::empty(), executable: plan.sets_permissions },
        ));
    }
}

/// The work of a whole release run, in order, on a host with permission
/// bits or without.
pub open spec fn release_work(plan: PlanModel) -> Seq<Action> {
    if plan.sets_permissions {
        seq![
            Action::ProbeCompanionProject,
            Action::EnsureSidecarDirectory,
            Action::RunToolchain,
            Action::ProbeProduced,
            Action::CopyProduced,
            Action::MarkSidecarExecutable,
            Action::RemoveTempDirectory,
        ]
    } else {
        seq![
            Action::ProbeCompanionProject,
            Action::EnsureSidecarDirectory,
            Action::RunToolchain,
            Action::ProbeProduced,
            Action::CopyProduced,
            Action::RemoveTempDirectory,
        ]
    }
}

/// Where the companion project is there and the toolchain exits with zero
/// and leaves its executable, a release run finishes with the very bytes of
/// that executable at the sidecar's path, executable where the host has
/// such a bit, and with the temporary directory and all below it gone.
pub proof fn release_run_stages_build(
    config: ConfigModel,
    toolchain: ToolchainModel,
    fs: FsModel,
    built: Seq<u8>,
)
    requires
        config.profile == BuildProfile::Release,
        exists_at(fs, plan_for(config).companion_dir),
        toolchain.status == Some(0i32),
        toolchain.output == Some(built),
    ensures
        ({
            let plan = plan_for(config);
            let done = run(plan, toolchain, fs);
            &&& done.end == DirectiveModel::Finish
            &&& done.performed == release_work(plan)
            &&& done.fs.files.contains_key(plan.sidecar_path)
            &&& done.fs.files[plan.sidecar_path].content == built
            &&& plan.sets_permissions ==> done.fs.files[plan.sidecar_path].executable
            &&& !exists_at(done.fs, plan.temp_dir)
            &&& !exists_at(done.fs, plan.produced_path)
            &&& done.notes == release::first_step().notes + seq![
                release::staged_note(plan),
                release::built_note(),
            ]
        }),
{
    reveal_with_fuel(run_from, 8);
    planned_paths_are_apart(config);
    let plan = plan_for(config);
    let done = run(plan, toolchain, fs);
    assert(done.performed =~= release_work(plan));
    assert(done.notes =~= release::first_step().notes + seq![
        release::staged_note(plan),
        release::built_note(),
    ]);
}

/// Where the companion project is missing, a release run asks for nothing
/// but the look at its directory: no toolchain is run, nothing is created,
/// and the surroundings stay as they were.
pub proof fn missing_companion_stops_release(
    plan: PlanModel,
    toolchain: ToolchainModel,
    fs: FsModel,
)
    requires
        plan.profile == BuildProfile::Release,
        !exists_at(fs, plan.companion_dir),
    ensures
        run(plan, toolchain, fs).end == DirectiveModel::Abort(ErrorModel::MissingCompanionProject),
        run(plan, toolchain, fs).performed == seq![Action::ProbeCompanionProject],
        run(plan, toolchain, fs).fs == fs,
{
    reveal_with_fuel(run_from, 8);
    assert(run(plan, toolchain, fs).performed =~= seq![Action::ProbeCompanionProject]);
}

/// Where the toolchain does not exit with zero, a release run aborts with
/// an error whose message holds the toolchain's standard error to the
/// letter, asks for no copy, and leaves the sidecar's path as it was.
pub proof fn failed_build_is_reported(config: ConfigModel, toolchain: ToolchainModel, fs: FsModel)
    requires
        config.profile == BuildProfile::Release,
        exists_at(fs, plan_for(config).companion_dir),
        toolchain.status != Some(0i32),
    ensures
        ({
            let plan = plan_for(config);
            let done = run(plan, toolchain, fs);
            let error = ErrorModel::ExternalBuildFailure { stderr: toolchain.stderr };
            &&& done.end == DirectiveModel::Abort(error)
            &&& contains(message_of(error), toolchain.stderr)
            &&& done.performed == seq![
                Action::ProbeCompanionProject,
                Action::EnsureSidecarDirectory,
                Action::RunToolchain,
            ]
            &&& done.fs.files.contains_key(plan.sidecar_path) == fs.files.contains_key(
                plan.sidecar_path,
            )
            &&& done.fs.files[plan.sidecar_path] == fs.files[plan.sidecar_path]
        }),
{
    reveal_with_fuel(run_from, 8);
    planned_paths_are_apart(config);
    let plan = plan_for(config);
    let done = run(plan, toolchain, fs);
    message_carries_cause(ErrorModel::ExternalBuildFailure { stderr: toolchain.stderr });
    assert(done.performed =~= seq![
        Action::ProbeCompanionProject,
        Action::EnsureSidecarDirectory,
        Action::RunToolchain,
    ]);
}

/// Where the toolchain exits with zero and its executable is not there, a
/// release run aborts and names the path it looked at; nothing is copied.
pub proof fn missing_output_is_reported(config: ConfigModel, toolchain: ToolchainModel, fs: FsModel)
    requires
        config.profile == BuildProfile::Release,
        exists_at(fs, plan_for(config).companion_dir),
        toolchain.status == Some(0i32),
        toolchain.output is None,
        !exists_at(fs, plan_for(config).produced_path),
    ensures
        ({
            let plan = plan_for(config);
            let done = run(plan, toolchain, fs);
            &&& done.end == DirectiveModel::Abort(
                ErrorModel::MissingProducedArtifact { expected: plan.produced_path },
            )
            &&& done.performed == seq![
                Action::ProbeCompanionProject,
                Action::EnsureSidecarDirectory,
                Action::RunToolchain,
                Action::ProbeProduced,
            ]
            &&& done.fs.files == fs.files
        }),
{
    reveal_with_fuel(run_from, 8);
    planned_paths_are_apart(config);
    let plan = plan_for(config);
    let done = run(plan, toolchain, fs);
    assert(done.performed =~= seq![
        Action::ProbeCompanionProject,
        Action::EnsureSidecarDirectory,
        Action::RunToolchain,
        Action::ProbeProduced,
    ]);
}

} // verus!
