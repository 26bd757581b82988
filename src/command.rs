//! Construction, without execution, of the external build invocations.

use vstd::prelude::*;
use crate::target::BuildTarget;

verus! {

/// The paths that both build stages and the native build system need, passed
/// to them through the environment.
#[derive(Clone, Debug, PartialEq, Eq)]
pub struct CrossLayerLocations {
    pub fel4_manifest_path: String,
    pub fel4_artifact_path: String,
    pub rust_target_path: String,
}

/// How much output the compiler is asked for.
#[derive(Clone, Copy, Debug, PartialEq, Eq, Structural)]
pub enum Loudness {
    Quiet,
    Normal,
    Verbose,
}

/// What the caller asked to build.
#[derive(Clone, Debug, PartialEq, Eq)]
pub struct BuildRequest {
    pub cargo_manifest_path: String,
    pub release: bool,
    pub tests: bool,
    pub loudness: Loudness,
}

/// A program, its arguments and the environment variables it is given, in
/// the order they were added.
#[derive(Clone, Debug, PartialEq, Eq)]
pub struct CommandSpec {
    pub program: String,
    pub args: Vec<String>,
    pub env: Vec<(String, String)>,
}

pub type EnvSeq = Seq<(Seq<char>, Seq<char>)>;

pub struct CommandView {
    pub program: Seq<char>,
    pub args: Seq<Seq<char>>,
    pub env: EnvSeq,
}

impl View for CommandSpec {
    type V = CommandView;

    open spec fn view(&self) -> CommandView {
        CommandView {
            program: self.program@,
            args: self.args@.map_values(|a: String| a@),
            env: self.env@.map_values(|e: (String, String)| (e.0@, e.1@)),
        }
    }
}

pub open spec fn when(c: bool, s: Seq<Seq<char>>) -> Seq<Seq<char>> {
    if c { s } else { seq![] }
}

pub open spec fn loudness_args(l: Loudness) -> Seq<Seq<char>> {
    match l {
        Loudness::Quiet => seq!["--quiet"@],
        Loudness::Normal => seq![],
        Loudness::Verbose => seq!["--verbose"@],
    }
}

/// The architecture-specific cross-compiler override, if the target has one.
pub open spec fn compiler_override(t: BuildTarget) -> EnvSeq {
    match t {
        BuildTarget::X8664Sel4Fel4 => seq![],
        BuildTarget::Armv7Sel4Fel4 => seq![("CC_armv7-sel4-fel4"@, "arm-linux-gnueabihf-gcc"@)],
        BuildTarget::Aarch64Sel4Fel4 => seq![("CC_aarch64-sel4-fel4"@, "aarch64-linux-gnu-gcc"@)],
    }
}

pub open spec fn location_env(l: CrossLayerLocations) -> EnvSeq {
    seq![
        ("FEL4_MANIFEST_PATH"@, l.fel4_manifest_path@),
        ("FEL4_ARTIFACT_PATH"@, l.fel4_artifact_path@),
        ("RUST_TARGET_PATH"@, l.rust_target_path@),
    ]
}

pub open spec fn root_task_args(req: BuildRequest, t: BuildTarget) -> Seq<Seq<char>> {
    seq!["rustc"@, "--bin"@, "root-task"@, "--manifest-path"@, req.cargo_manifest_path@]
        + when(req.release, seq!["--release"@])
        + loudness_args(req.loudness)
        + when(req.tests, seq!["--features"@, "test alloc"@])
        + seq!["--target"@, t.spec_full_name()]
}

pub open spec fn kernel_support_args(req: BuildRequest, t: BuildTarget) -> Seq<Seq<char>> {
    seq!["rustc"@, "--manifest-path"@, req.cargo_manifest_path@]
        + when(req.release, seq!["--release"@])
        + loudness_args(req.loudness)
        + seq!["--target"@, t.spec_full_name(), "-p"@, "libsel4-sys"@]
}

pub open spec fn root_task_command(req: BuildRequest, t: BuildTarget, l: CrossLayerLocations, rustflags: Seq<char>) -> CommandView {
    CommandView {
        program: "xargo"@,
        args: root_task_args(req, t),
        env: compiler_override(t) + location_env(l) + seq![("RUSTFLAGS"@, rustflags)],
    }
}

pub open spec fn kernel_support_command(
    req: BuildRequest,
    t: BuildTarget,
    l: CrossLayerLocations,
    root_task_image: Seq<char>,
    rustflags: Seq<char>,
) -> CommandView {
    CommandView {
        program: "xargo"@,
        args: kernel_support_args(req, t),
        env: compiler_override(t) + location_env(l) + seq![
            ("FEL4_ROOT_TASK_IMAGE_PATH"@, root_task_image),
            ("RUSTFLAGS"@, rustflags),
        ],
    }
}

impl CommandSpec {
    pub fn new(program: &str) -> (r: CommandSpec)
        ensures
            r@.program == program@,
            r@.args.len() == 0,
            r@.env.len() == 0,
    {
        let r = CommandSpec { program: String::from_str(program), args: Vec::new(), env: Vec::new() };
        assert(r@.args =~= seq![]);
        assert(r@.env =~= seq![]);
        r
    }

    pub fn arg(&mut self, a: &str)
        ensures
            final(self)@.program == old(self)@.program,
            final(self)@.args == old(self)@.args.push(a@),
            final(self)@.env == old(self)@.env,
    {
        self.args.push(String::from_str(a));
        assert(self@.args =~= old(self)@.args.push(a@));
    }

    pub fn env(&mut self, key: &str, value: &str)
        ensures
            final(self)@.program == old(self)@.program,
            final(self)@.args == old(self)@.args,
            final(self)@.env == old(self)@.env.push((key@, value@)),
    {
        self.env.push((String::from_str(key), String::from_str(value)));
        assert(self@.env =~= old(self)@.env.push((key@, value@)));
    }

    pub fn add_loudness_args(&mut self, l: Loudness)
        ensures
            final(self)@.program == old(self)@.program,
            final(self)@.args == old(self)@.args + loudness_args(l),
            final(self)@.env == old(self)@.env,
    {
        match l {
            Loudness::Quiet => self.arg("--quiet"),
            Loudness::Normal => {},
            Loudness::Verbose => self.arg("--verbose"),
        }
        assert(self@.args =~= old(self)@.args + loudness_args(l));
    }

    /// Populate the command with the location variables.
    pub fn add_locations_as_env_vars(&mut self, locations: &CrossLayerLocations)
        ensures
            final(self)@.program == old(self)@.program,
            final(self)@.args == old(self)@.args,
            final(self)@.env == old(self)@.env + location_env(*locations),
    {
        self.env("FEL4_MANIFEST_PATH", locations.fel4_manifest_path.as_str());
        self.env("FEL4_ARTIFACT_PATH", locations.fel4_artifact_path.as_str());
        self.env("RUST_TARGET_PATH", locations.rust_target_path.as_str());
        assert(self@.env =~= old(self)@.env + location_env(*locations));
    }

    /// Force the cross-compiler that builds the compiler-builtins shims on
    /// targets where the host's default would otherwise be picked.
    pub fn handle_arm_edge_case(&mut self, target: BuildTarget)
        ensures
            final(self)@.program == old(self)@.program,
            final(self)@.args == old(self)@.args,
            final(self)@.env == old(self)@.env + compiler_override(target),
    {
        match target {
            BuildTarget::Armv7Sel4Fel4 => self.env("CC_armv7-sel4-fel4", "arm-linux-gnueabihf-gcc"),
            BuildTarget::Aarch64Sel4Fel4 => self.env("CC_aarch64-sel4-fel4", "aarch64-linux-gnu-gcc"),
            BuildTarget::X8664Sel4Fel4 => {},
        }
        assert(self@.env =~= old(self)@.env + compiler_override(target));
    }
}

/// The command that builds the generated root-task binary, with the merged
/// feature-flag value in `RUSTFLAGS`.
pub fn construct_root_task_build_command(
    req: &BuildRequest,
    target: BuildTarget,
    locations: &CrossLayerLocations,
    rustflags: &str,
) -> (r: CommandSpec)
    ensures
        r@ == root_task_command(*req, target, *locations, rustflags@),
{
    let mut c = CommandSpec::new("xargo");
    c.arg("rustc");
    c.arg("--bin");
    c.arg("root-task");
    c.arg("--manifest-path");
    c.arg(req.cargo_manifest_path.as_str());
    if req.release {
        c.arg("--release");
    }
    c.add_loudness_args(req.loudness);
    c.handle_arm_edge_case(target);
    if req.tests {
        c.arg("--features");
        c.arg("test alloc");
    }
    c.arg("--target");
    c.arg(target.full_name());
    c.add_locations_as_env_vars(locations);
    c.env("RUSTFLAGS", rustflags);
    assert(c@.args =~= root_task_args(*req, target));
    assert(c@.env =~= compiler_override(target) + location_env(*locations)
        + seq![("RUSTFLAGS"@, rustflags@)]);
    c
}

/// The command that rebuilds the kernel-support package so that the loader
/// picks up the already-built root task at `root_task_image`.
pub fn construct_libsel4_build_command(
    req: &BuildRequest,
    target: BuildTarget,
    locations: &CrossLayerLocations,
    root_task_image: &str,
    rustflags: &str,
) -> (r: CommandSpec)
    ensures
        r@ == kernel_support_command(*req, target, *locations, root_task_image@, rustflags@),
{
    let mut c = CommandSpec::new("xargo");
    c.arg("rustc");
    c.arg("--manifest-path");
    c.arg(req.cargo_manifest_path.as_str());
    if req.release {
        c.arg("--release");
    }
    c.add_loudness_args(req.loudness);
    c.handle_arm_edge_case(target);
    c.add_locations_as_env_vars(locations);
    c.arg("--target");
    c.arg(target.full_name());
    c.arg("-p");
    c.arg("libsel4-sys");
    c.env("FEL4_ROOT_TASK_IMAGE_PATH", root_task_image);
    c.env("RUSTFLAGS", rustflags);
    assert(c@.args =~= kernel_support_args(*req, target));
    assert(c@.env =~= compiler_override(target) + location_env(*locations) + seq![
        ("FEL4_ROOT_TASK_IMAGE_PATH"@, root_task_image@),
        ("RUSTFLAGS"@, rustflags@),
    ]);
    c
}

} // verus!
