use tempest_launcher::config::{BuildConfig, BuildProfile};
use tempest_launcher::dev;
use tempest_launcher::error::{FailedStep, ProvisionError};
use tempest_launcher::plan::Plan;
use tempest_launcher::protocol::{Action, BuildOutcome, Directive, Outcome, Step};
use tempest_launcher::provisioner::{advance, awaited, begin, Provisioner};
use tempest_launcher::release;
use tempest_launcher::triple::HostOs;

fn config(profile: BuildProfile, triple: Option<&str>, host_os: HostOs) -> BuildConfig {
    BuildConfig { profile, explicit_triple: triple.map(String::from), host_os }
}

fn plan(profile: BuildProfile, triple: Option<&str>, host_os: HostOs) -> Plan {
    Plan::new(&config(profile, triple, host_os))
}

fn exited(status: Option<i32>, stderr: &str) -> Outcome {
    Outcome::Exited(BuildOutcome { status, stderr: String::from(stderr) })
}

fn failed(detail: &str) -> Outcome {
    Outcome::Failed(String::from(detail))
}

fn perform(action: Action) -> Step {
    Step { directive: Directive::Perform(action), notes: vec![] }
}

fn abort(error: ProvisionError) -> Step {
    Step { directive: Directive::Abort(error), notes: vec![] }
}

fn refused(step: FailedStep, detail: &str) -> Step {
    abort(ProvisionError::Environment { step, detail: String::from(detail) })
}

#[test]
fn dev_build_on_linux_creates_placeholder() {
    let (mut run, first) =
        Provisioner::start(&config(BuildProfile::Development, None, HostOs::Linux));
    assert_eq!(run.plan().sidecar_path, "binaries/tempest-cli-x86_64-unknown-linux-gnu");
    assert_eq!(run.plan().artifact.extension, "");
    assert_eq!(first.directive, Directive::Perform(Action::EnsureSidecarDirectory));
    assert_eq!(first.notes, vec!["Dev profile detected - ensuring dummy sidecar binary exists"]);
    assert_eq!(run.pending(), Some(Action::EnsureSidecarDirectory));

    let step = run.advance(&Outcome::Succeeded).unwrap();
    assert_eq!(step, perform(Action::ProbeSidecar));
    let step = run.advance(&Outcome::Found(false)).unwrap();
    assert_eq!(step, perform(Action::CreatePlaceholder));
    let step = run.advance(&Outcome::Succeeded).unwrap();
    assert_eq!(step, perform(Action::MarkSidecarExecutable));
    let step = run.advance(&Outcome::Succeeded).unwrap();
    assert_eq!(step.directive, Directive::Finish);
    assert_eq!(
        step.notes,
        vec!["Created dummy sidecar binary: tempest-cli-x86_64-unknown-linux-gnu"]
    );
    assert_eq!(run.pending(), None);
}

#[test]
fn dev_build_run_again_finds_placeholder() {
    let (mut run, _) = Provisioner::start(&config(BuildProfile::Development, None, HostOs::Linux));
    let step = run.advance(&Outcome::Succeeded).unwrap();
    assert_eq!(step, perform(Action::ProbeSidecar));
    let step = run.advance(&Outcome::Found(true)).unwrap();
    assert_eq!(step.directive, Directive::Finish);
    assert_eq!(
        step.notes,
        vec!["Dummy sidecar already present: tempest-cli-x86_64-unknown-linux-gnu"]
    );
    assert_eq!(run.pending(), None);
}

#[test]
fn dev_build_without_permission_bits_skips_marking() {
    let plan = plan(BuildProfile::Development, None, HostOs::Windows);
    let step = dev::next(&plan, Action::CreatePlaceholder, &Outcome::Succeeded);
    assert_eq!(step.directive, Directive::Finish);
    assert_eq!(
        step.notes,
        vec!["Created dummy sidecar binary: tempest-cli-x86_64-pc-windows-msvc.exe"]
    );
}

#[test]
fn dev_build_aborts_when_directory_cannot_be_made() {
    let plan = plan(BuildProfile::Development, None, HostOs::Linux);
    let step = dev::next(&plan, Action::EnsureSidecarDirectory, &failed("read-only file system"));
    assert_eq!(step, refused(FailedStep::CreateDirectory, "read-only file system"));
}

#[test]
fn dev_build_aborts_when_placeholder_cannot_be_made() {
    let plan = plan(BuildProfile::Development, None, HostOs::Linux);
    let step = dev::next(&plan, Action::CreatePlaceholder, &failed("disk full"));
    assert_eq!(step, refused(FailedStep::CreatePlaceholder, "disk full"));
}

#[test]
fn dev_build_survives_failed_permission() {
    let plan = plan(BuildProfile::Development, None, HostOs::MacOs);
    let step = dev::next(&plan, Action::MarkSidecarExecutable, &failed("not permitted"));
    assert_eq!(step.directive, Directive::Finish);
    assert_eq!(
        step.notes,
        vec![
            "Could not mark dummy sidecar executable: not permitted",
            "Created dummy sidecar binary: tempest-cli-x86_64-apple-darwin",
        ]
    );
}

#[test]
fn release_build_for_windows_stages_executable() {
    let (mut run, first) = Provisioner::start(&config(
        BuildProfile::Release,
        Some("x86_64-pc-windows-msvc"),
        HostOs::Windows,
    ));
    assert_eq!(run.plan().sidecar_path, "binaries/tempest-cli-x86_64-pc-windows-msvc.exe");
    assert_eq!(run.plan().produced_path, "temp-dotnet-build/Tempest.CLI.exe");
    assert_eq!(first.directive, Directive::Perform(Action::ProbeCompanionProject));
    assert_eq!(first.notes, vec!["Building .NET project for Tauri sidecar"]);

    let step = run.advance(&Outcome::Found(true)).unwrap();
    assert_eq!(step, perform(Action::EnsureSidecarDirectory));
    let step = run.advance(&Outcome::Succeeded).unwrap();
    assert_eq!(step, perform(Action::RunToolchain));
    let step = run.advance(&exited(Some(0), "")).unwrap();
    assert_eq!(step, perform(Action::ProbeProduced));
    let step = run.advance(&Outcome::Found(true)).unwrap();
    assert_eq!(step, perform(Action::CopyProduced));
    let step = run.advance(&Outcome::Succeeded).unwrap();
    assert_eq!(step.directive, Directive::Perform(Action::RemoveTempDirectory));
    assert_eq!(
        step.notes,
        vec!["Sidecar binary created: tempest-cli-x86_64-pc-windows-msvc.exe"]
    );
    let step = run.advance(&Outcome::Succeeded).unwrap();
    assert_eq!(step.directive, Directive::Finish);
    assert_eq!(step.notes, vec![".NET CLI built successfully"]);
    assert_eq!(run.pending(), None);
}

#[test]
fn release_build_on_posix_host_marks_executable() {
    let plan = plan(BuildProfile::Release, None, HostOs::Linux);
    let step = release::next(&plan, Action::CopyProduced, &Outcome::Succeeded);
    assert_eq!(step, perform(Action::MarkSidecarExecutable));
    let step = release::next(&plan, Action::MarkSidecarExecutable, &Outcome::Succeeded);
    assert_eq!(step.directive, Directive::Perform(Action::RemoveTempDirectory));
    assert_eq!(step.notes, vec!["Sidecar binary created: tempest-cli-x86_64-unknown-linux-gnu"]);
}

#[test]
fn release_build_without_companion_project_aborts_at_once() {
    let (mut run, first) = Provisioner::start(&config(BuildProfile::Release, None, HostOs::Linux));
    assert_eq!(first.directive, Directive::Perform(Action::ProbeCompanionProject));
    let step = run.advance(&Outcome::Found(false)).unwrap();
    assert_eq!(step, abort(ProvisionError::MissingCompanionProject));
    assert_eq!(run.pending(), None);
    assert_eq!(run.advance(&Outcome::Succeeded), None);
    assert_eq!(run.advance(&exited(Some(0), "")), None);
    assert_eq!(run.advance(&Outcome::Found(true)), None);
}

#[test]
fn release_build_reports_failed_toolchain() {
    let (mut run, _) = Provisioner::start(&config(BuildProfile::Release, None, HostOs::Linux));
    run.advance(&Outcome::Found(true)).unwrap();
    run.advance(&Outcome::Succeeded).unwrap();
    let step = run.advance(&exited(Some(1), "error X")).unwrap();
    assert_eq!(
        step,
        abort(ProvisionError::ExternalBuildFailure { stderr: String::from("error X") })
    );
    match step.directive {
        Directive::Abort(error) => {
            assert!(error.message().contains("error X"));
            assert_eq!(error.message(), "Failed to build .NET project: error X");
        }
        other => panic!("expected an abort, got {:?}", other),
    }
    assert_eq!(run.pending(), None);
    assert_eq!(run.advance(&Outcome::Succeeded), None);
}

#[test]
fn toolchain_without_exit_status_counts_as_failed() {
    let plan = plan(BuildProfile::Release, None, HostOs::Linux);
    let step = release::next(&plan, Action::RunToolchain, &exited(None, "killed"));
    assert_eq!(
        step,
        abort(ProvisionError::ExternalBuildFailure { stderr: String::from("killed") })
    );
    let step = release::next(&plan, Action::RunToolchain, &exited(Some(-1), ""));
    assert_eq!(step, abort(ProvisionError::ExternalBuildFailure { stderr: String::new() }));
}

#[test]
fn toolchain_that_cannot_start_aborts() {
    let plan = plan(BuildProfile::Release, None, HostOs::Linux);
    let step = release::next(&plan, Action::RunToolchain, &failed("No such file or directory"));
    assert_eq!(step, refused(FailedStep::StartToolchain, "No such file or directory"));
}

#[test]
fn release_build_reports_missing_output() {
    let plan = plan(BuildProfile::Release, Some("aarch64-pc-windows-msvc"), HostOs::Linux);
    let step = release::next(&plan, Action::ProbeProduced, &Outcome::Found(false));
    assert_eq!(
        step,
        abort(ProvisionError::MissingProducedArtifact {
            expected: String::from("temp-dotnet-build/Tempest.CLI.exe"),
        })
    );
}

#[test]
fn release_build_aborts_on_each_refused_step() {
    let plan = plan(BuildProfile::Release, None, HostOs::Linux);
    assert_eq!(
        release::next(&plan, Action::EnsureSidecarDirectory, &failed("a")),
        refused(FailedStep::CreateDirectory, "a")
    );
    assert_eq!(
        release::next(&plan, Action::CopyProduced, &failed("b")),
        refused(FailedStep::CopyExecutable, "b")
    );
    assert_eq!(
        release::next(&plan, Action::MarkSidecarExecutable, &failed("c")),
        refused(FailedStep::SetPermissions, "c")
    );
}

#[test]
fn release_build_survives_failed_cleanup() {
    let plan = plan(BuildProfile::Release, None, HostOs::Linux);
    let step = release::next(&plan, Action::RemoveTempDirectory, &failed("busy"));
    assert_eq!(step.directive, Directive::Finish);
    assert_eq!(
        step.notes,
        vec!["Could not remove temporary build directory: busy", ".NET CLI built successfully"]
    );
}

#[test]
fn messages_name_the_failed_step() {
    let cases = [
        (FailedStep::CreateDirectory, "Failed to create binaries directory: boom"),
        (FailedStep::CreatePlaceholder, "Failed to create dummy sidecar file: boom"),
        (FailedStep::StartToolchain, "Failed to execute dotnet publish: boom"),
        (FailedStep::CopyExecutable, "Failed to copy .NET executable to sidecar location: boom"),
        (FailedStep::SetPermissions, "Failed to set permissions on sidecar: boom"),
    ];
    for (step, expected) in cases {
        let error = ProvisionError::Environment { step, detail: String::from("boom") };
        assert_eq!(error.message(), expected);
    }
    assert_eq!(FailedStep::CreateDirectory.label(), "Failed to create binaries directory");
}

#[test]
fn messages_of_the_other_errors() {
    assert_eq!(
        ProvisionError::MissingCompanionProject.message(),
        "Tempest.CLI project directory not found"
    );
    assert_eq!(
        ProvisionError::ExternalBuildFailure { stderr: String::from("CS1002: ; expected\n") }
            .message(),
        "Failed to build .NET project: CS1002: ; expected\n"
    );
    assert_eq!(
        ProvisionError::MissingProducedArtifact {
            expected: String::from("temp-dotnet-build/Tempest.CLI"),
        }
        .message(),
        "Built .NET executable not found at: temp-dotnet-build/Tempest.CLI"
    );
}

#[test]
fn build_succeeds_only_with_status_zero() {
    assert!(BuildOutcome { status: Some(0), stderr: String::from("warning") }.succeeded());
    assert!(!BuildOutcome { status: Some(1), stderr: String::new() }.succeeded());
    assert!(!BuildOutcome { status: Some(-1), stderr: String::new() }.succeeded());
    assert!(!BuildOutcome { status: None, stderr: String::new() }.succeeded());
}

#[test]
fn outcomes_answer_only_fitting_work() {
    let probes = [Action::ProbeCompanionProject, Action::ProbeSidecar, Action::ProbeProduced];
    let plain = [
        Action::EnsureSidecarDirectory,
        Action::CreatePlaceholder,
        Action::CopyProduced,
        Action::MarkSidecarExecutable,
        Action::RemoveTempDirectory,
    ];
    for action in probes {
        assert!(Outcome::Found(true).answers(action));
        assert!(Outcome::Found(false).answers(action));
        assert!(!Outcome::Succeeded.answers(action));
        assert!(!failed("x").answers(action));
        assert!(!exited(Some(0), "").answers(action));
    }
    for action in plain {
        assert!(Outcome::Succeeded.answers(action));
        assert!(failed("x").answers(action));
        assert!(!Outcome::Found(true).answers(action));
        assert!(!exited(Some(0), "").answers(action));
    }
    assert!(exited(Some(0), "").answers(Action::RunToolchain));
    assert!(failed("x").answers(Action::RunToolchain));
    assert!(!Outcome::Succeeded.answers(Action::RunToolchain));
    assert!(!Outcome::Found(true).answers(Action::RunToolchain));
}

#[test]
fn unfitting_outcome_decides_nothing() {
    let (mut run, _) = Provisioner::start(&config(BuildProfile::Development, None, HostOs::Linux));
    assert_eq!(run.advance(&Outcome::Found(true)), None);
    assert_eq!(run.advance(&exited(Some(0), "")), None);
    assert_eq!(run.pending(), Some(Action::EnsureSidecarDirectory));
    assert_eq!(run.advance(&Outcome::Succeeded), Some(perform(Action::ProbeSidecar)));
    assert_eq!(run.advance(&Outcome::Succeeded), None);
    assert_eq!(run.pending(), Some(Action::ProbeSidecar));
}

#[test]
fn each_profile_asks_for_its_own_work() {
    let dev_work = [
        Action::EnsureSidecarDirectory,
        Action::ProbeSidecar,
        Action::CreatePlaceholder,
        Action::MarkSidecarExecutable,
    ];
    let release_work = [
        Action::ProbeCompanionProject,
        Action::EnsureSidecarDirectory,
        Action::RunToolchain,
        Action::ProbeProduced,
        Action::CopyProduced,
        Action::MarkSidecarExecutable,
        Action::RemoveTempDirectory,
    ];
    let all = [
        Action::ProbeCompanionProject,
        Action::EnsureSidecarDirectory,
        Action::ProbeSidecar,
        Action::CreatePlaceholder,
        Action::RunToolchain,
        Action::ProbeProduced,
        Action::CopyProduced,
        Action::MarkSidecarExecutable,
        Action::RemoveTempDirectory,
    ];
    for action in all {
        assert_eq!(dev::awaited(action), dev_work.contains(&action));
        assert_eq!(release::awaited(action), release_work.contains(&action));
        assert_eq!(awaited(BuildProfile::Development, action), dev_work.contains(&action));
        assert_eq!(awaited(BuildProfile::Release, action), release_work.contains(&action));
    }
}

#[test]
fn entry_follows_the_profile() {
    let dev_plan = plan(BuildProfile::Development, None, HostOs::Linux);
    let release_plan = plan(BuildProfile::Release, None, HostOs::Linux);
    assert_eq!(begin(&dev_plan), dev::begin());
    assert_eq!(begin(&release_plan), release::begin());
    assert_eq!(
        advance(&dev_plan, Action::EnsureSidecarDirectory, &Outcome::Succeeded),
        perform(Action::ProbeSidecar)
    );
    assert_eq!(
        advance(&release_plan, Action::EnsureSidecarDirectory, &Outcome::Succeeded),
        perform(Action::RunToolchain)
    );
}

#[test]
fn steps_keep_their_notes_in_order() {
    let step = Step::silent(Directive::Finish);
    assert_eq!(step, Step { directive: Directive::Finish, notes: vec![] });
    let step = Step::noted(Directive::Finish, String::from("second"));
    assert_eq!(step.notes, vec!["second"]);
    let step = step.after_note(String::from("first"));
    assert_eq!(step.directive, Directive::Finish);
    assert_eq!(step.notes, vec!["first", "second"]);
}
