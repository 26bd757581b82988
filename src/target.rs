//! Supported target architectures and build profiles.

use vstd::prelude::*;

verus! {

/// A supported target architecture.
#[derive(Clone, Copy, Debug, PartialEq, Eq, Structural)]
pub enum BuildTarget {
    X8664Sel4Fel4,
    Armv7Sel4Fel4,
    Aarch64Sel4Fel4,
}

impl BuildTarget {
    /// The canonical target triple.
    pub open spec fn spec_full_name(self) -> Seq<char> {
        match self {
            BuildTarget::X8664Sel4Fel4 => "x86_64-sel4-fel4"@,
            BuildTarget::Armv7Sel4Fel4 => "armv7-sel4-fel4"@,
            BuildTarget::Aarch64Sel4Fel4 => "aarch64-sel4-fel4"@,
        }
    }

    /// Whether the system image is bootstrapped through the secondary loader,
    /// which needs the kernel-support stage.
    pub open spec fn spec_requires_loader(self) -> bool {
        match self {
            BuildTarget::X8664Sel4Fel4 => false,
            _ => true,
        }
    }

    pub fn full_name(&self) -> (r: &'static str)
        ensures
            r@ == self.spec_full_name(),
    {
        supported_target_name(*self)
    }

    pub fn requires_loader(&self) -> (r: bool)
        ensures
            r == self.spec_requires_loader(),
    {
        match self {
            BuildTarget::X8664Sel4Fel4 => false,
            _ => true,
        }
    }
}

/// Relies on `fel4_config::SupportedTarget::full_name`: the fixed triple of
/// each target.
#[verifier::external_body]
fn supported_target_name(t: BuildTarget) -> (r: &'static str)
    ensures
        r@ == t.spec_full_name(),
{
    let st = match t {
        BuildTarget::X8664Sel4Fel4 => fel4_config::SupportedTarget::X8664Sel4Fel4,
        BuildTarget::Armv7Sel4Fel4 => fel4_config::SupportedTarget::Armv7Sel4Fel4,
        BuildTarget::Aarch64Sel4Fel4 => fel4_config::SupportedTarget::Aarch64Sel4Fel4,
    };
    st.full_name()
}

/// Optimisation level and whether the test features are enabled.
#[derive(Clone, Copy, Debug, PartialEq, Eq, Structural)]
pub struct BuildProfile {
    pub release: bool,
    pub tests: bool,
}

/// Relies on `fel4_config::BuildProfile::full_name`: `debug` or `release`.
#[verifier::external_body]
fn optimisation_name(release: bool) -> (r: &'static str)
    ensures
        r@ == (if release { "release"@ } else { "debug"@ }),
{
    let p = match release {
        true => fel4_config::BuildProfile::Release,
        false => fel4_config::BuildProfile::Debug,
    };
    p.full_name()
}

impl BuildProfile {
    pub open spec fn spec_cache_name(self) -> Seq<char> {
        if self.release { "release"@ } else { "debug"@ }
    }

    pub open spec fn spec_artifact_subdir(self) -> Seq<char> {
        if self.tests { "test/"@ + self.spec_cache_name() } else { self.spec_cache_name() }
    }

    /// The name of the compiler's output subdirectory for this profile.
    pub fn cache_name(&self) -> (r: &'static str)
        ensures
            r@ == self.spec_cache_name(),
    {
        optimisation_name(self.release)
    }

    /// The artifact subdirectory for this profile: test builds live apart
    /// from ordinary ones.
    pub fn artifact_subdir(&self) -> (r: String)
        ensures
            r@ == self.spec_artifact_subdir(),
    {
        let name = self.cache_name();
        if self.tests {
            let s = String::from_str("test/");
            s.concat(name)
        } else {
            String::from_str(name)
        }
    }
}

/// No two profiles share an artifact subdirectory.
pub proof fn lemma_artifact_subdir_injective(a: BuildProfile, b: BuildProfile)
    requires
        a.spec_artifact_subdir() == b.spec_artifact_subdir(),
    ensures
        a == b,
{
    reveal_strlit("test/");
    reveal_strlit("debug");
    reveal_strlit("release");
    let sa = a.spec_artifact_subdir();
    let sb = b.spec_artifact_subdir();
    if a.tests != b.tests {
        if a.tests {
            assert(sa[0] == 't');
            assert(sb[0] == 'd' || sb[0] == 'r');
        } else {
            assert(sb[0] == 't');
            assert(sa[0] == 'd' || sa[0] == 'r');
        }
    } else if a.release != b.release {
        assert(sa.len() != sb.len());
    }
}

} // verus!
