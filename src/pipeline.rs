//! The build pipeline: where every artifact lives, and which stage follows
//! which. The caller performs each stage and reports how it went.

use vstd::prelude::*;
use crate::command::CrossLayerLocations;
use crate::target::{BuildProfile, BuildTarget};

verus! {

/// One step of the build.
#[derive(Clone, Copy, Debug, PartialEq, Eq, Structural)]
pub enum Stage {
    GenerateEntryPoint,
    CheckWorkingDir,
    BuildRootTask,
    CreateArtifactDir,
    BuildKernelSupport,
    CopyKernelToImage,
    CopyRootTaskToImage,
    ReconcileFlags,
    VerifySystemImage,
    VerifyKernel,
}

/// How a stage went, as the caller observed it.
#[derive(Clone, Copy, Debug, PartialEq, Eq, Structural)]
pub enum StageOutcome {
    Succeeded,
    /// A file could not be written, copied or read, or a process not spawned.
    IoFailed,
    /// A command exited non-zero, or a check of the stage did not hold.
    Rejected,
}

/// The class of error that ends the pipeline.
#[derive(Clone, Copy, Debug, PartialEq, Eq, Structural)]
pub enum ErrorKind {
    Io,
    ExitStatus,
    Config,
}

/// What to do after a stage.
#[derive(Clone, Copy, Debug, PartialEq, Eq, Structural)]
pub enum Transition {
    Run(Stage),
    Abort(Stage, ErrorKind),
    Complete,
}

/// The stage after `s` when `s` succeeded, or `None` after the last.
pub open spec fn next_stage(t: BuildTarget, s: Stage) -> Option<Stage> {
    match s {
        Stage::GenerateEntryPoint => Some(Stage::CheckWorkingDir),
        Stage::CheckWorkingDir => Some(Stage::BuildRootTask),
        Stage::BuildRootTask => Some(Stage::CreateArtifactDir),
        Stage::CreateArtifactDir => if t.spec_requires_loader() {
            Some(Stage::BuildKernelSupport)
        } else {
            Some(Stage::CopyRootTaskToImage)
        },
        Stage::BuildKernelSupport => Some(Stage::CopyKernelToImage),
        Stage::CopyKernelToImage => Some(Stage::ReconcileFlags),
        Stage::CopyRootTaskToImage => Some(Stage::ReconcileFlags),
        Stage::ReconcileFlags => Some(Stage::VerifySystemImage),
        Stage::VerifySystemImage => Some(Stage::VerifyKernel),
        Stage::VerifyKernel => None,
    }
}

/// The error class of a stage whose command or check said no.
pub open spec fn rejection_kind(s: Stage) -> ErrorKind {
    match s {
        Stage::CheckWorkingDir | Stage::BuildRootTask | Stage::BuildKernelSupport => ErrorKind::ExitStatus,
        Stage::ReconcileFlags | Stage::VerifySystemImage | Stage::VerifyKernel => ErrorKind::Config,
        _ => ErrorKind::Io,
    }
}

pub open spec fn spec_advance(t: BuildTarget, s: Stage, o: StageOutcome) -> Transition {
    match o {
        StageOutcome::Succeeded => match next_stage(t, s) {
            Some(n) => Transition::Run(n),
            None => Transition::Complete,
        },
        StageOutcome::IoFailed => Transition::Abort(s, ErrorKind::Io),
        StageOutcome::Rejected => Transition::Abort(s, rejection_kind(s)),
    }
}

/// Every stage, in order, of a build that succeeds throughout.
pub open spec fn stage_plan(t: BuildTarget) -> Seq<Stage> {
    if t.spec_requires_loader() {
        seq![
            Stage::GenerateEntryPoint, Stage::CheckWorkingDir, Stage::BuildRootTask,
            Stage::CreateArtifactDir, Stage::BuildKernelSupport, Stage::CopyKernelToImage,
            Stage::ReconcileFlags, Stage::VerifySystemImage, Stage::VerifyKernel,
        ]
    } else {
        seq![
            Stage::GenerateEntryPoint, Stage::CheckWorkingDir, Stage::BuildRootTask,
            Stage::CreateArtifactDir, Stage::CopyRootTaskToImage,
            Stage::ReconcileFlags, Stage::VerifySystemImage, Stage::VerifyKernel,
        ]
    }
}

/// The stage every build starts with.
pub fn first_stage() -> (r: Stage)
    ensures
        r == Stage::GenerateEntryPoint,
        forall|t: BuildTarget| (#[trigger] stage_plan(t))[0] == r,
{
    Stage::GenerateEntryPoint
}

/// Decide what follows stage `s` of a build for target `t`: the next stage on
/// success, completion after the last, and an abort at the first failure.
pub fn advance(t: BuildTarget, s: Stage, o: StageOutcome) -> (r: Transition)
    ensures
        r == spec_advance(t, s, o),
{
    match o {
        StageOutcome::IoFailed => Transition::Abort(s, ErrorKind::Io),
        StageOutcome::Rejected => {
            let kind = match s {
                Stage::CheckWorkingDir | Stage::BuildRootTask | Stage::BuildKernelSupport => ErrorKind::ExitStatus,
                Stage::ReconcileFlags | Stage::VerifySystemImage | Stage::VerifyKernel => ErrorKind::Config,
                _ => ErrorKind::Io,
            };
            Transition::Abort(s, kind)
        },
        StageOutcome::Succeeded => match s {
            Stage::GenerateEntryPoint => Transition::Run(Stage::CheckWorkingDir),
            Stage::CheckWorkingDir => Transition::Run(Stage::BuildRootTask),
            Stage::BuildRootTask => Transition::Run(Stage::CreateArtifactDir),
            Stage::CreateArtifactDir => if t.requires_loader() {
                Transition::Run(Stage::BuildKernelSupport)
            } else {
                Transition::Run(Stage::CopyRootTaskToImage)
            },
            Stage::BuildKernelSupport => Transition::Run(Stage::CopyKernelToImage),
            Stage::CopyKernelToImage => Transition::Run(Stage::ReconcileFlags),
            Stage::CopyRootTaskToImage => Transition::Run(Stage::ReconcileFlags),
            Stage::ReconcileFlags => Transition::Run(Stage::VerifySystemImage),
            Stage::VerifySystemImage => Transition::Run(Stage::VerifyKernel),
            Stage::VerifyKernel => Transition::Complete,
        },
    }
}

proof fn lemma_plan_steps(t: BuildTarget)
    ensures
        forall|i: int| 0 <= i < stage_plan(t).len() - 1
            ==> #[trigger] spec_advance(t, stage_plan(t)[i], StageOutcome::Succeeded)
                == Transition::Run(stage_plan(t)[i + 1]),
{
    let p = stage_plan(t);
    if t.spec_requires_loader() {
        assert(p[0] == Stage::GenerateEntryPoint && p[1] == Stage::CheckWorkingDir);
        assert(p[2] == Stage::BuildRootTask && p[3] == Stage::CreateArtifactDir);
        assert(p[4] == Stage::BuildKernelSupport && p[5] == Stage::CopyKernelToImage);
        assert(p[6] == Stage::ReconcileFlags && p[7] == Stage::VerifySystemImage);
        assert(p[8] == Stage::VerifyKernel && p.len() == 9);
    } else {
        assert(p[0] == Stage::GenerateEntryPoint && p[1] == Stage::CheckWorkingDir);
        assert(p[2] == Stage::BuildRootTask && p[3] == Stage::CreateArtifactDir);
        assert(p[4] == Stage::CopyRootTaskToImage && p[5] == Stage::ReconcileFlags);
        assert(p[6] == Stage::VerifySystemImage && p[7] == Stage::VerifyKernel);
        assert(p.len() == 8);
    }
}

proof fn lemma_plan_loader_stage(t: BuildTarget)
    ensures
        stage_plan(t).contains(Stage::BuildKernelSupport) <==> t.spec_requires_loader(),
{
    let p = stage_plan(t);
    if t.spec_requires_loader() {
        assert(p[4] == Stage::BuildKernelSupport);
    } else {
        assert(p[0] == Stage::GenerateEntryPoint && p[1] == Stage::CheckWorkingDir);
        assert(p[2] == Stage::BuildRootTask && p[3] == Stage::CreateArtifactDir);
        assert(p[4] == Stage::CopyRootTaskToImage && p[5] == Stage::ReconcileFlags);
        assert(p[6] == Stage::VerifySystemImage && p[7] == Stage::VerifyKernel);
        assert(p.len() == 8);
    }
}

proof fn lemma_plan_ends(t: BuildTarget)
    ensures
        stage_plan(t)[0] == Stage::GenerateEntryPoint,
        stage_plan(t)[1] == Stage::CheckWorkingDir,
        stage_plan(t)[2] == Stage::BuildRootTask,
        spec_advance(t, stage_plan(t).last(), StageOutcome::Succeeded) == Transition::Complete,
{
    let p = stage_plan(t);
    if t.spec_requires_loader() {
        assert(p.last() == Stage::VerifyKernel);
    } else {
        assert(p.last() == Stage::VerifyKernel);
    }
}

/// A build that succeeds throughout runs exactly the stages of its plan, in
/// order, and then completes; the working-directory check precedes every
/// external command, and the kernel-support stage runs exactly for targets
/// that boot through the loader.
pub proof fn lemma_plan_is_followed(t: BuildTarget)
    ensures
        stage_plan(t)[0] == Stage::GenerateEntryPoint,
        stage_plan(t)[1] == Stage::CheckWorkingDir,
        stage_plan(t)[2] == Stage::BuildRootTask,
        forall|i: int| 0 <= i < stage_plan(t).len() - 1
            ==> #[trigger] spec_advance(t, stage_plan(t)[i], StageOutcome::Succeeded)
                == Transition::Run(stage_plan(t)[i + 1]),
        spec_advance(t, stage_plan(t).last(), StageOutcome::Succeeded) == Transition::Complete,
        stage_plan(t).contains(Stage::BuildKernelSupport) <==> t.spec_requires_loader(),
{
    lemma_plan_steps(t);
    lemma_plan_loader_stage(t);
    lemma_plan_ends(t);
}

/// The working-directory check: the build must run from the resolved root
/// directory (both given in canonical form).
pub fn check_working_dir(current_dir: &String, root_dir: &String) -> (r: StageOutcome)
    ensures
        r == (if current_dir@ == root_dir@ { StageOutcome::Succeeded } else { StageOutcome::Rejected }),
{
    if current_dir.eq(root_dir) {
        StageOutcome::Succeeded
    } else {
        StageOutcome::Rejected
    }
}

pub open spec fn spec_join(a: Seq<char>, b: Seq<char>) -> Seq<char> {
    a + "/"@ + b
}

/// `a` and `b` joined by one separator.
pub fn join_path(a: &str, b: &str) -> (r: String)
    ensures
        r@ == spec_join(a@, b@),
{
    let s = String::from_str(a);
    let s = s.concat("/");
    s.concat(b)
}

/// Where each input and output of one build lives.
#[derive(Clone, Debug, PartialEq, Eq)]
pub struct BuildLayout {
    pub artifact_dir: String,
    pub target_cache_dir: String,
    pub root_task_source: String,
    pub root_task_image: String,
    pub system_image: String,
    pub kernel: String,
    pub image_source: String,
    pub native_cache_file: String,
    pub locations: CrossLayerLocations,
}

pub open spec fn spec_artifact_dir(root: Seq<char>, artifact_path: Seq<char>, p: BuildProfile) -> Seq<char> {
    spec_join(spec_join(root, artifact_path), p.spec_artifact_subdir())
}

pub open spec fn spec_cache_dir(root: Seq<char>, t: BuildTarget, p: BuildProfile) -> Seq<char> {
    spec_join(spec_join(spec_join(root, "target"@), t.spec_full_name()), p.spec_cache_name())
}

/// The layout is the deterministic function of root directory, configured
/// paths, target and profile described field by field here.
pub open spec fn layout_is(
    l: BuildLayout,
    root: Seq<char>,
    artifact_path: Seq<char>,
    target_specs_path: Seq<char>,
    t: BuildTarget,
    p: BuildProfile,
) -> bool {
    let art = spec_artifact_dir(root, artifact_path, p);
    let cache = spec_cache_dir(root, t, p);
    &&& l.artifact_dir@ == art
    &&& l.target_cache_dir@ == cache
    &&& l.root_task_source@ == spec_join(spec_join(spec_join(root, "src"@), "bin"@), "root-task.rs"@)
    &&& l.root_task_image@ == spec_join(cache, "root-task"@)
    &&& l.system_image@ == spec_join(art, "feL4img"@)
    &&& l.kernel@ == spec_join(art, "kernel"@)
    &&& l.image_source@ == (if t.spec_requires_loader() { l.kernel@ } else { l.root_task_image@ })
    &&& l.native_cache_file@ == spec_join(art, "CMakeCache.txt"@)
    &&& l.locations.fel4_manifest_path@ == spec_join(root, "fel4.toml"@)
    &&& l.locations.fel4_artifact_path@ == art
    &&& l.locations.rust_target_path@ == spec_join(root, target_specs_path)
}

impl BuildLayout {
    /// Lay out a build under `root` with the configured artifact and target
    /// specification paths (relative to `root`).
    pub fn new(root: &str, artifact_path: &str, target_specs_path: &str, t: BuildTarget, p: BuildProfile) -> (r: BuildLayout)
        ensures
            layout_is(r, root@, artifact_path@, target_specs_path@, t, p),
    {
        let base = join_path(root, artifact_path);
        let subdir = p.artifact_subdir();
        let artifact_dir = join_path(base.as_str(), subdir.as_str());
        let target_dir = join_path(root, "target");
        let triple_dir = join_path(target_dir.as_str(), t.full_name());
        let target_cache_dir = join_path(triple_dir.as_str(), p.cache_name());
        let src_dir = join_path(root, "src");
        let bin_dir = join_path(src_dir.as_str(), "bin");
        let root_task_source = join_path(bin_dir.as_str(), "root-task.rs");
        let root_task_image = join_path(target_cache_dir.as_str(), "root-task");
        let system_image = join_path(artifact_dir.as_str(), "feL4img");
        let kernel = join_path(artifact_dir.as_str(), "kernel");
        let image_source = if t.requires_loader() { kernel.clone() } else { root_task_image.clone() };
        let native_cache_file = join_path(artifact_dir.as_str(), "CMakeCache.txt");
        let locations = CrossLayerLocations {
            fel4_manifest_path: join_path(root, "fel4.toml"),
            fel4_artifact_path: artifact_dir.clone(),
            rust_target_path: join_path(root, target_specs_path),
        };
        BuildLayout {
            artifact_dir,
            target_cache_dir,
            root_task_source,
            root_task_image,
            system_image,
            kernel,
            image_source,
            native_cache_file,
            locations,
        }
    }
}

} // verus!
