//! Platform modules: per-OS single source of truth for app-managed artifact
//! definitions. Reading a catalog never downloads or installs anything.

pub mod artifact;
pub mod linux;
pub mod macos;
pub mod windows;

use vstd::prelude::*;

use self::artifact::ArtifactDef;
use crate::text::{concat2, to_chars};

verus! {

/// Operating system a build targets.
#[derive(Debug, Clone, Copy, PartialEq, Eq, Structural)]
pub enum PlatformId {
    Linux,
    Windows,
    Macos,
}

/// CPU architecture a build targets.
#[derive(Debug, Clone, Copy, PartialEq, Eq, Structural)]
pub enum CpuArch {
    X86_64,
    Aarch64,
}

/// Operating system and architecture of the running build.
#[derive(Debug, Clone, Copy, PartialEq, Eq, Structural)]
pub struct HostTarget {
    pub platform: PlatformId,
    pub arch: CpuArch,
}

impl PlatformId {
    /// Lower-case platform name.
    pub open spec fn name(self) -> Seq<char> {
        match self {
            PlatformId::Linux => "linux"@,
            PlatformId::Windows => "windows"@,
            PlatformId::Macos => "macos"@,
        }
    }

    /// Lower-case platform name (`linux`, `windows`, `macos`).
    pub fn as_str(self) -> (r: &'static str)
        ensures
            r@ == self.name(),
    {
        match self {
            PlatformId::Linux => "linux",
            PlatformId::Windows => "windows",
            PlatformId::Macos => "macos",
        }
    }

    /// This platform's catalog for `arch`.
    pub open spec fn catalog(self, arch: CpuArch) -> Seq<ArtifactDef> {
        match self {
            PlatformId::Linux => linux::linux_catalog(),
            PlatformId::Windows => windows::windows_catalog(),
            PlatformId::Macos => macos::macos_catalog(arch),
        }
    }

    /// The platform module's identifier (the platform itself).
    pub fn id(self) -> (r: PlatformId)
        ensures
            r == self,
    {
        self
    }

    /// App-managed artifacts of this platform for `arch`.
    pub fn artifacts(self, arch: CpuArch) -> (r: Vec<ArtifactDef>)
        ensures
            r@ == self.catalog(arch),
    {
        match self {
            PlatformId::Linux => linux::linux_artifacts(),
            PlatformId::Windows => windows::windows_artifacts(),
            PlatformId::Macos => macos::macos_artifacts(arch),
        }
    }
}

/// A Platform module: catalog of app-managed artifacts for one OS.
pub trait PlatformModule {
    /// Which OS the module describes.
    fn id(&self) -> PlatformId;

    /// The module's artifacts for `arch`.
    fn artifacts(&self, arch: CpuArch) -> Vec<ArtifactDef>;
}

/// The Platform module of `platform` (the running build passes its own).
pub fn current_module(platform: PlatformId) -> (r: PlatformId)
    ensures
        r == platform,
{
    platform
}

/// All registered Platform modules (Host and Guests).
pub fn all_modules() -> (r: Vec<PlatformId>)
    ensures
        r@ == seq![PlatformId::Linux, PlatformId::Windows, PlatformId::Macos],
{
    let mut v: Vec<PlatformId> = Vec::new();
    v.push(PlatformId::Linux);
    v.push(PlatformId::Windows);
    v.push(PlatformId::Macos);
    assert(v@ =~= seq![PlatformId::Linux, PlatformId::Windows, PlatformId::Macos]);
    v
}

/// Target-triple suffix of sidecar file names.
pub open spec fn triple_suffix(target: HostTarget) -> Seq<char> {
    match target.platform {
        PlatformId::Windows => "-x86_64-pc-windows-msvc.exe"@,
        PlatformId::Macos => match target.arch {
            CpuArch::Aarch64 => "-aarch64-apple-darwin"@,
            CpuArch::X86_64 => "-x86_64-apple-darwin"@,
        },
        PlatformId::Linux => "-x86_64-unknown-linux-gnu"@,
    }
}

/// File name of sidecar `name` for `target` (`llama-server-x86_64-unknown-linux-gnu`, ...).
pub open spec fn sidecar_filename_spec(target: HostTarget, name: Seq<char>) -> Seq<char> {
    name + triple_suffix(target)
}

/// File name of sidecar `name` for `target`.
pub fn sidecar_filename(target: HostTarget, name: &str) -> (r: String)
    ensures
        r@ == sidecar_filename_spec(target, name@),
{
    let suffix: &str = match target.platform {
        PlatformId::Windows => "-x86_64-pc-windows-msvc.exe",
        PlatformId::Macos => match target.arch {
            CpuArch::Aarch64 => "-aarch64-apple-darwin",
            CpuArch::X86_64 => "-x86_64-apple-darwin",
        },
        PlatformId::Linux => "-x86_64-unknown-linux-gnu",
    };
    concat2(name, suffix)
}

/// Index of the first `-` in `s`, if any.
pub open spec fn first_dash(s: Seq<char>) -> Option<int>
    decreases s.len(),
{
    if s.len() == 0 {
        None
    } else if s[0] == '-' {
        Some(0)
    } else {
        match first_dash(s.drop_first()) {
            Some(k) => Some(k + 1),
            None => None,
        }
    }
}

/// Short directory name of a sidecar: its name up to the first `-`
/// (`llama-server` lives under `llama/`).
pub open spec fn short_name(s: Seq<char>) -> Seq<char> {
    match first_dash(s) {
        Some(k) => s.take(k),
        None => s,
    }
}

proof fn lemma_first_dash(s: Seq<char>)
    ensures
        match first_dash(s) {
            Some(k) => 0 <= k < s.len() && s[k] == '-' && forall|j: int| 0 <= j < k ==> s[j] != '-',
            None => forall|j: int| 0 <= j < s.len() ==> s[j] != '-',
        },
    decreases s.len(),
{
    if s.len() > 0 && s[0] != '-' {
        lemma_first_dash(s.drop_first());
        assert forall|j: int| 0 < j < s.len() implies s[j] == s.drop_first()[j - 1] by {}
    }
}

/// Short directory name of sidecar `name`.
pub fn sidecar_short_name(name: &str) -> (r: String)
    ensures
        r@ == short_name(name@),
{
    let v = to_chars(name);
    proof {
        lemma_first_dash(name@);
    }
    let mut i: usize = 0;
    while i < v.len()
        invariant
            v@ == name@,
            i <= v@.len(),
            forall|j: int| 0 <= j < i ==> v@[j] != '-',
        decreases v@.len() - i,
    {
        if v[i] == '-' {
            assert(first_dash(name@) == Some(i as int)) by {
                lemma_first_dash(name@);
                match first_dash(name@) {
                    Some(k) => {
                        if k < i {
                        } else if k > i {
                        }
                    },
                    None => {},
                }
            }
            return crate::text::from_chars_range(&v, 0, i);
        }
        i = i + 1;
    }
    crate::text::owned(name)
}

} // verus!
