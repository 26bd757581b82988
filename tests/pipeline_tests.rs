use fel4_build::command::{BuildRequest, Loudness};
use fel4_build::flags::{ConfigValue, FlagModel};
use fel4_build::invocation::{prepare, Action, BuildInvocation};
use fel4_build::pipeline::{
    advance, check_working_dir, first_stage, join_path, BuildLayout, ErrorKind, Stage,
    StageOutcome, Transition,
};
use fel4_build::target::{BuildProfile, BuildTarget};

fn request() -> BuildRequest {
    BuildRequest {
        cargo_manifest_path: "/p/Cargo.toml".to_string(),
        release: false,
        tests: false,
        loudness: Loudness::Normal,
    }
}

fn declared() -> Vec<(String, ConfigValue)> {
    vec![
        ("debug_build".to_string(), ConfigValue::Boolean(true)),
        ("log_level".to_string(), ConfigValue::String("info".to_string())),
    ]
}

fn invocation(t: BuildTarget) -> BuildInvocation {
    prepare(&request(), t, "/p", "artifacts", "target_specs", &declared(), None).unwrap()
}

fn successful_run(t: BuildTarget) -> Vec<Stage> {
    let mut stages = vec![];
    let mut s = first_stage();
    loop {
        stages.push(s);
        match advance(t, s, StageOutcome::Succeeded) {
            Transition::Run(n) => s = n,
            Transition::Complete => return stages,
            Transition::Abort(_, _) => panic!("aborted"),
        }
    }
}

#[test]
fn joining_paths() {
    assert_eq!(join_path("/p", "src"), "/p/src");
}

#[test]
fn layout_of_a_debug_build() {
    let l = BuildLayout::new(
        "/p",
        "artifacts",
        "specs",
        BuildTarget::X8664Sel4Fel4,
        BuildProfile { release: false, tests: false },
    );
    assert_eq!(l.artifact_dir, "/p/artifacts/debug");
    assert_eq!(l.target_cache_dir, "/p/target/x86_64-sel4-fel4/debug");
    assert_eq!(l.root_task_source, "/p/src/bin/root-task.rs");
    assert_eq!(l.root_task_image, "/p/target/x86_64-sel4-fel4/debug/root-task");
    assert_eq!(l.system_image, "/p/artifacts/debug/feL4img");
    assert_eq!(l.kernel, "/p/artifacts/debug/kernel");
    assert_eq!(l.image_source, l.root_task_image);
    assert_eq!(l.native_cache_file, "/p/artifacts/debug/CMakeCache.txt");
    assert_eq!(l.locations.fel4_manifest_path, "/p/fel4.toml");
    assert_eq!(l.locations.fel4_artifact_path, "/p/artifacts/debug");
    assert_eq!(l.locations.rust_target_path, "/p/specs");
}

#[test]
fn scenario_direct_image_target() {
    let inv = invocation(BuildTarget::X8664Sel4Fel4);
    assert_eq!(
        successful_run(BuildTarget::X8664Sel4Fel4),
        vec![
            Stage::GenerateEntryPoint,
            Stage::CheckWorkingDir,
            Stage::BuildRootTask,
            Stage::CreateArtifactDir,
            Stage::CopyRootTaskToImage,
            Stage::ReconcileFlags,
            Stage::VerifySystemImage,
            Stage::VerifyKernel,
        ]
    );
    assert_eq!(inv.kernel_support_command, None);
    assert_eq!(inv.action_for(Stage::BuildKernelSupport), None);
    assert_eq!(
        inv.action_for(Stage::CopyRootTaskToImage),
        Some(Action::Copy {
            from: &"/p/target/x86_64-sel4-fel4/debug/root-task".to_string(),
            to: &"/p/artifacts/debug/feL4img".to_string(),
        })
    );
    assert_eq!(
        inv.flags,
        vec![
            FlagModel::Boolish("debug_build".to_string(), true),
            FlagModel::Stringish("log_level".to_string(), "info".to_string()),
        ]
    );
    assert_eq!(inv.rustflags, "--cfg feature=\"debug_build\" ");
    assert_eq!(
        inv.root_task_command.env.last(),
        Some(&("RUSTFLAGS".to_string(), "--cfg feature=\"debug_build\" ".to_string()))
    );
}

#[test]
fn scenario_loader_target() {
    let inv = invocation(BuildTarget::Armv7Sel4Fel4);
    let run = successful_run(BuildTarget::Armv7Sel4Fel4);
    assert_eq!(run[4], Stage::BuildKernelSupport);
    assert_eq!(run[5], Stage::CopyKernelToImage);
    assert!(!run.contains(&Stage::CopyRootTaskToImage));
    let cmd = inv.kernel_support_command.as_ref().unwrap();
    assert!(cmd.env.contains(&(
        "FEL4_ROOT_TASK_IMAGE_PATH".to_string(),
        "/p/target/armv7-sel4-fel4/debug/root-task".to_string()
    )));
    assert_eq!(inv.action_for(Stage::BuildKernelSupport), Some(Action::Run(cmd)));
    assert_eq!(
        inv.action_for(Stage::CopyKernelToImage),
        Some(Action::Copy {
            from: &"/p/artifacts/debug/kernel".to_string(),
            to: &"/p/artifacts/debug/feL4img".to_string(),
        })
    );
}

#[test]
fn scenario_wrong_working_dir_aborts_before_any_command() {
    let t = BuildTarget::X8664Sel4Fel4;
    let inv = invocation(t);
    assert!(!matches!(inv.action_for(first_stage()), Some(Action::Run(_))));
    assert_eq!(
        advance(t, first_stage(), StageOutcome::Succeeded),
        Transition::Run(Stage::CheckWorkingDir)
    );
    let outcome = check_working_dir(&"/elsewhere".to_string(), &"/p".to_string());
    assert_eq!(outcome, StageOutcome::Rejected);
    assert_eq!(
        advance(t, Stage::CheckWorkingDir, outcome),
        Transition::Abort(Stage::CheckWorkingDir, ErrorKind::ExitStatus)
    );
    assert_eq!(
        check_working_dir(&"/p".to_string(), &"/p".to_string()),
        StageOutcome::Succeeded
    );
}

#[test]
fn failures_abort_with_their_class() {
    let t = BuildTarget::Aarch64Sel4Fel4;
    assert_eq!(
        advance(t, Stage::BuildKernelSupport, StageOutcome::Rejected),
        Transition::Abort(Stage::BuildKernelSupport, ErrorKind::ExitStatus)
    );
    assert_eq!(
        advance(t, Stage::GenerateEntryPoint, StageOutcome::IoFailed),
        Transition::Abort(Stage::GenerateEntryPoint, ErrorKind::Io)
    );
    assert_eq!(
        advance(t, Stage::ReconcileFlags, StageOutcome::Rejected),
        Transition::Abort(Stage::ReconcileFlags, ErrorKind::Config)
    );
    assert_eq!(
        advance(t, Stage::VerifyKernel, StageOutcome::Rejected),
        Transition::Abort(Stage::VerifyKernel, ErrorKind::Config)
    );
    assert_eq!(
        advance(t, Stage::CopyKernelToImage, StageOutcome::Rejected),
        Transition::Abort(Stage::CopyKernelToImage, ErrorKind::Io)
    );
}

#[test]
fn prepare_rejects_repeated_keys() {
    let entries = vec![
        ("a".to_string(), ConfigValue::Boolean(true)),
        ("a".to_string(), ConfigValue::Boolean(false)),
    ];
    assert!(prepare(&request(), BuildTarget::X8664Sel4Fel4, "/p", "a", "s", &entries, None).is_err());
}

#[test]
fn prepare_appends_to_existing_flags() {
    let inv = prepare(
        &request(),
        BuildTarget::X8664Sel4Fel4,
        "/p",
        "artifacts",
        "specs",
        &declared(),
        Some("-C debuginfo=2".to_string()),
    )
    .unwrap();
    assert_eq!(inv.rustflags, "-C debuginfo=2 --cfg feature=\"debug_build\" ");
}
