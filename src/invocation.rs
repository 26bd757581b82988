//! One build invocation: everything computed up front, and the action that
//! each stage of the pipeline performs.

use vstd::prelude::*;
use crate::command::{
    BuildRequest, CommandSpec, construct_libsel4_build_command, construct_root_task_build_command,
    kernel_support_command, root_task_command,
};
use crate::flags::{
    ConfigValue, ConversionError, FlagModel, keys_valid, translate, translated, truthy_identifiers,
    truthy_keys, views,
};
use crate::pipeline::{BuildLayout, Stage, layout_is};
use crate::rustflags::{merge_feature_flags_with_rustflags_env_var, merged_flags, option_view};
use crate::target::{BuildProfile, BuildTarget};

verus! {

/// The values that stay fixed for the whole of one build.
#[derive(Clone, Debug, PartialEq, Eq)]
pub struct BuildInvocation {
    pub target: BuildTarget,
    pub profile: BuildProfile,
    pub layout: BuildLayout,
    pub flags: Vec<FlagModel>,
    pub rustflags: String,
    pub root_task_command: CommandSpec,
    pub kernel_support_command: Option<CommandSpec>,
}

/// `inv` is the invocation that `prepare` builds from these inputs.
pub open spec fn invocation_is(
    inv: BuildInvocation,
    req: BuildRequest,
    t: BuildTarget,
    root: Seq<char>,
    artifact_path: Seq<char>,
    target_specs_path: Seq<char>,
    entries: Seq<(String, ConfigValue)>,
    existing_rustflags: Option<Seq<char>>,
) -> bool {
    let p = BuildProfile { release: req.release, tests: req.tests };
    let rf = merged_flags(existing_rustflags, truthy_keys(translated(entries)));
    &&& inv.target == t
    &&& inv.profile == p
    &&& layout_is(inv.layout, root, artifact_path, target_specs_path, t, p)
    &&& views(inv.flags@) == translated(entries)
    &&& inv.rustflags@ == rf
    &&& inv.root_task_command@ == root_task_command(req, t, inv.layout.locations, rf)
    &&& (t.spec_requires_loader() <==> inv.kernel_support_command is Some)
    &&& (inv.kernel_support_command matches Some(c) ==> c@ == kernel_support_command(
        req,
        t,
        inv.layout.locations,
        inv.layout.root_task_image@,
        rf,
    ))
}

/// Translate the declared flags, merge the enabled features into the
/// compiler-flag value, lay out the paths and construct the commands.
/// Fails exactly when a declared key is empty or repeated.
pub fn prepare(
    req: &BuildRequest,
    target: BuildTarget,
    root: &str,
    artifact_path: &str,
    target_specs_path: &str,
    entries: &Vec<(String, ConfigValue)>,
    existing_rustflags: Option<String>,
) -> (r: Result<BuildInvocation, ConversionError>)
    ensures
        r is Ok <==> keys_valid(entries@),
        r matches Ok(inv) ==> invocation_is(
            inv,
            *req,
            target,
            root@,
            artifact_path@,
            target_specs_path@,
            entries@,
            option_view(existing_rustflags),
        ),
{
    let flags = match translate(entries) {
        Ok(f) => f,
        Err(e) => return Err(e),
    };
    let profile = BuildProfile { release: req.release, tests: req.tests };
    let features = truthy_identifiers(&flags);
    let rustflags = merge_feature_flags_with_rustflags_env_var(existing_rustflags, &features);
    let layout = BuildLayout::new(root, artifact_path, target_specs_path, target, profile);
    let root_task_command = construct_root_task_build_command(
        req,
        target,
        &layout.locations,
        rustflags.as_str(),
    );
    let kernel_support_command = if target.requires_loader() {
        Some(
            construct_libsel4_build_command(
                req,
                target,
                &layout.locations,
                layout.root_task_image.as_str(),
                rustflags.as_str(),
            ),
        )
    } else {
        None
    };
    Ok(BuildInvocation {
        target,
        profile,
        layout,
        flags,
        rustflags,
        root_task_command,
        kernel_support_command,
    })
}

/// What the caller performs for one stage.
#[derive(Clone, Copy, Debug, PartialEq, Eq)]
pub enum Action<'a> {
    /// Write the entry-point source file for these flags.
    GenerateEntryPoint { path: &'a String, flags: &'a Vec<FlagModel> },
    /// Compare the working directory with the root directory.
    CheckWorkingDir,
    /// Run the command; a non-zero exit rejects the stage.
    Run(&'a CommandSpec),
    /// Create the directory and its parents.
    CreateDir(&'a String),
    /// Copy a file.
    Copy { from: &'a String, to: &'a String },
    /// Read the native cache file and reconcile these flags against it.
    Reconcile { cache_file: &'a String, flags: &'a Vec<FlagModel> },
    /// Check that the file exists.
    CheckExists(&'a String),
}

impl BuildInvocation {
    /// The action of stage `s`, or `None` for the kernel-support stage of a
    /// target that does not boot through the loader.
    pub open spec fn spec_action_for<'a>(&'a self, s: Stage) -> Option<Action<'a>> {
        match s {
            Stage::GenerateEntryPoint => Some(Action::GenerateEntryPoint {
                path: &self.layout.root_task_source,
                flags: &self.flags,
            }),
            Stage::CheckWorkingDir => Some(Action::CheckWorkingDir),
            Stage::BuildRootTask => Some(Action::Run(&self.root_task_command)),
            Stage::CreateArtifactDir => Some(Action::CreateDir(&self.layout.artifact_dir)),
            Stage::BuildKernelSupport => match &self.kernel_support_command {
                Some(c) => Some(Action::Run(c)),
                None => None,
            },
            Stage::CopyKernelToImage => Some(Action::Copy {
                from: &self.layout.kernel,
                to: &self.layout.system_image,
            }),
            Stage::CopyRootTaskToImage => Some(Action::Copy {
                from: &self.layout.root_task_image,
                to: &self.layout.system_image,
            }),
            Stage::ReconcileFlags => Some(Action::Reconcile {
                cache_file: &self.layout.native_cache_file,
                flags: &self.flags,
            }),
            Stage::VerifySystemImage => Some(Action::CheckExists(&self.layout.system_image)),
            Stage::VerifyKernel => Some(Action::CheckExists(&self.layout.kernel)),
        }
    }

    pub fn action_for<'a>(&'a self, s: Stage) -> (r: Option<Action<'a>>)
        ensures
            r == self.spec_action_for(s),
    {
        match s {
            Stage::GenerateEntryPoint => Some(Action::GenerateEntryPoint {
                path: &self.layout.root_task_source,
                flags: &self.flags,
            }),
            Stage::CheckWorkingDir => Some(Action::CheckWorkingDir),
            Stage::BuildRootTask => Some(Action::Run(&self.root_task_command)),
            Stage::CreateArtifactDir => Some(Action::CreateDir(&self.layout.artifact_dir)),
            Stage::BuildKernelSupport => match &self.kernel_support_command {
                Some(c) => Some(Action::Run(c)),
                None => None,
            },
            Stage::CopyKernelToImage => Some(Action::Copy {
                from: &self.layout.kernel,
                to: &self.layout.system_image,
            }),
            Stage::CopyRootTaskToImage => Some(Action::Copy {
                from: &self.layout.root_task_image,
                to: &self.layout.system_image,
            }),
            Stage::ReconcileFlags => Some(Action::Reconcile {
                cache_file: &self.layout.native_cache_file,
                flags: &self.flags,
            }),
            Stage::VerifySystemImage => Some(Action::CheckExists(&self.layout.system_image)),
            Stage::VerifyKernel => Some(Action::CheckExists(&self.layout.kernel)),
        }
    }
}

} // verus!
