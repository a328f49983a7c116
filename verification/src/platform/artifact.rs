//! App-managed artifact definitions, where each one lives under the layout
//! roots, and the rules that decide whether it is ready.
//!
//! Readiness is decided from what the caller observed on disk: the metadata
//! of the resolved path (`FileStat`) and, for shared-library checks, the
//! entries of the artifact's directory (`DirEntryFact`).

use vstd::prelude::*;

use super::{short_name, sidecar_filename, sidecar_filename_spec, HostTarget, PlatformId};
use crate::paths::{join, join_str};
use crate::text::{contains_seq, ends_with_seq, to_chars};

verus! {

#[derive(Debug, Clone, Copy, PartialEq, Eq, Structural)]
pub enum ArtifactKind {
    Sidecar,
    Model,
    Data,
}

#[derive(Debug, Clone, Copy, PartialEq, Eq, Structural)]
pub enum ArtifactRoot {
    /// Under the app binaries directory (sidecars, speech-to-text assets).
    Binaries,
    /// Under the models directory (embedding model, voice files).
    Models,
}

/// Where an artifact is fetched from.
#[derive(Debug, Clone, Copy)]
pub enum ArtifactSource {
    /// Latest GitHub release asset whose name contains `pattern`.
    GithubRelease { repo: &'static str, pattern: &'static str },
    /// Direct HTTPS URL.
    Url { url: &'static str },
    /// Not downloaded automatically.
    Manual,
}

#[derive(Debug, Clone, Copy, PartialEq, Eq, Structural)]
pub enum VerifyRule {
    /// The path is a file.
    Exists,
    /// Sidecar usability gate (size floor, and the executable bit off Windows).
    SidecarUsable,
    /// The artifact's directory holds at least one shared library file.
    SharedLibPresent,
}

/// One app-managed artifact owned by a Platform module.
#[derive(Debug, Clone, Copy)]
pub struct ArtifactDef {
    pub id: &'static str,
    pub kind: ArtifactKind,
    pub root: ArtifactRoot,
    /// Directory relative to the root (may be empty).
    pub relative_dir: &'static str,
    /// Destination file name, or the logical sidecar name when `sidecar_name`.
    pub filename: &'static str,
    pub sidecar_name: bool,
    pub source: ArtifactSource,
    pub verify: VerifyRule,
    /// Required for the Core agent to be ready.
    pub required_for_core: bool,
    /// Part of the Host speech-to-text path.
    pub required_for_stt: bool,
}

/// The two directories artifacts live under.
#[derive(Debug)]
pub struct LayoutRoots {
    pub binaries: String,
    pub models: String,
}

/// Metadata observed for one path (`std::fs::metadata`): `exists` is false
/// when metadata could not be read; `mode` holds the Unix permission bits.
#[derive(Debug, Clone, Copy)]
pub struct FileStat {
    pub exists: bool,
    pub is_file: bool,
    pub len: u64,
    pub mode: u32,
}

/// One entry of a directory listing.
#[derive(Debug)]
pub struct DirEntryFact {
    pub name: String,
    pub is_file: bool,
}

/// What the caller observed for one artifact: whether the nested and the
/// alternative sidecar paths exist, the metadata of the resolved path, and
/// the listing of the artifact's directory (empty when unreadable).
#[derive(Debug)]
pub struct ArtifactProbe {
    pub nested_exists: bool,
    pub alt_exists: bool,
    pub stat: FileStat,
    pub listing: Vec<DirEntryFact>,
}

/// Readiness of one artifact as reported to the wizard.
#[derive(Debug, Clone, PartialEq, Eq)]
pub struct VerifyStatus {
    pub id: String,
    pub ready: bool,
    pub path: String,
}

impl VerifyStatus {
    /// A field-for-field copy.
    pub fn duplicate(&self) -> (r: Self)
        ensures
            r == *self,
    {
        VerifyStatus { id: self.id.clone(), ready: self.ready, path: self.path.clone() }
    }
}

impl LayoutRoots {
    /// The root an artifact lives under.
    pub open spec fn base(&self, def: ArtifactDef) -> Seq<char> {
        match def.root {
            ArtifactRoot::Binaries => self.binaries@,
            ArtifactRoot::Models => self.models@,
        }
    }

    /// The artifact's directory: its root joined with `relative_dir` (the root itself when empty).
    pub open spec fn dir(&self, def: ArtifactDef) -> Seq<char> {
        if def.relative_dir@.len() == 0 {
            self.base(def)
        } else {
            join(self.base(def), def.relative_dir@)
        }
    }

    /// Preferred sidecar location: `dir/{short}/{name}-{triple}`.
    pub open spec fn nested_path(&self, def: ArtifactDef, target: HostTarget) -> Seq<char> {
        join(
            join(self.dir(def), short_name(def.filename@)),
            sidecar_filename_spec(target, def.filename@),
        )
    }

    /// Alternative sidecar location: `root/{name}/{name}-{triple}`.
    pub open spec fn alt_path(&self, def: ArtifactDef, target: HostTarget) -> Seq<char> {
        join(join(self.base(def), def.filename@), sidecar_filename_spec(target, def.filename@))
    }

    /// Where the artifact is expected: for sidecars the nested path when it exists,
    /// else the alternative when that exists, else the nested path; otherwise
    /// `dir/filename`.
    pub open spec fn resolved(
        &self,
        def: ArtifactDef,
        target: HostTarget,
        nested_exists: bool,
        alt_exists: bool,
    ) -> Seq<char> {
        if def.sidecar_name {
            if nested_exists {
                self.nested_path(def, target)
            } else if alt_exists {
                self.alt_path(def, target)
            } else {
                self.nested_path(def, target)
            }
        } else {
            join(self.dir(def), def.filename@)
        }
    }

    fn base_str(&self, def: &ArtifactDef) -> (r: &String)
        ensures
            r@ == self.base(*def),
    {
        match def.root {
            ArtifactRoot::Binaries => &self.binaries,
            ArtifactRoot::Models => &self.models,
        }
    }

    /// The artifact's directory.
    pub fn dir_of(&self, def: &ArtifactDef) -> (r: String)
        ensures
            r@ == self.dir(*def),
    {
        let base = self.base_str(def);
        if def.relative_dir.unicode_len() == 0 {
            base.clone()
        } else {
            join_str(base.as_str(), def.relative_dir)
        }
    }

    /// The two candidate sidecar paths (nested, alternative); the caller checks
    /// which exist before calling [`Self::resolve`].
    pub fn sidecar_paths(&self, def: &ArtifactDef, target: HostTarget) -> (r: (String, String))
        ensures
            r.0@ == self.nested_path(*def, target),
            r.1@ == self.alt_path(*def, target),
    {
        let dir = self.dir_of(def);
        let short = super::sidecar_short_name(def.filename);
        let triple_name = sidecar_filename(target, def.filename);
        let nested = join_str(join_str(dir.as_str(), short.as_str()).as_str(), triple_name.as_str());
        let base = self.base_str(def);
        let alt = join_str(join_str(base.as_str(), def.filename).as_str(), triple_name.as_str());
        (nested, alt)
    }

    /// Where the artifact is expected (see [`Self::resolved`]).
    pub fn resolve(
        &self,
        def: &ArtifactDef,
        target: HostTarget,
        nested_exists: bool,
        alt_exists: bool,
    ) -> (r: String)
        ensures
            r@ == self.resolved(*def, target, nested_exists, alt_exists),
    {
        if def.sidecar_name {
            let (nested, alt) = self.sidecar_paths(def, target);
            if nested_exists {
                nested
            } else if alt_exists {
                alt
            } else {
                nested
            }
        } else {
            let dir = self.dir_of(def);
            join_str(dir.as_str(), def.filename)
        }
    }
}

/// Whether a file passes the sidecar usability gate: a regular file larger
/// than 1024 bytes on Windows; elsewhere larger than 32 bytes with an
/// executable bit set (small shell launchers count).
pub open spec fn sidecar_usable(platform: PlatformId, stat: FileStat) -> bool {
    if !stat.exists || !stat.is_file {
        false
    } else if platform == PlatformId::Windows {
        stat.len > 1024
    } else {
        stat.len > 32 && (stat.mode & 0o111u32) != 0
    }
}

/// The sidecar usability gate (see [`sidecar_usable`]).
pub fn sidecar_file_usable(platform: PlatformId, stat: &FileStat) -> (r: bool)
    ensures
        r == sidecar_usable(platform, *stat),
{
    if !stat.exists || !stat.is_file {
        false
    } else if platform == PlatformId::Windows {
        stat.len > 1024
    } else {
        stat.len > 32 && (stat.mode & 0o111u32) != 0
    }
}

/// Whether a directory entry is a shared library file (`.so` anywhere in the
/// name, or ending in `.dll`).
pub open spec fn is_shared_lib_entry(e: DirEntryFact) -> bool {
    e.is_file && (contains_seq(e.name@, ".so"@) || ends_with_seq(e.name@, ".dll"@))
}

/// Whether any listed entry is a shared library file.
pub open spec fn shared_lib_present(listing: Seq<DirEntryFact>) -> bool {
    exists|i: int| 0 <= i < listing.len() && is_shared_lib_entry(#[trigger] listing[i])
}

/// Readiness of `def` under its verify rule, from what was observed.
pub open spec fn ready_spec(def: ArtifactDef, target: HostTarget, probe: ArtifactProbe) -> bool {
    match def.verify {
        VerifyRule::Exists => probe.stat.exists && probe.stat.is_file,
        VerifyRule::SidecarUsable => sidecar_usable(target.platform, probe.stat),
        VerifyRule::SharedLibPresent => shared_lib_present(probe.listing@),
    }
}

/// Whether a listing holds a shared library file.
pub fn any_shared_lib(listing: &Vec<DirEntryFact>) -> (r: bool)
    ensures
        r == shared_lib_present(listing@),
{
    let so = to_chars(".so");
    let dll = to_chars(".dll");
    let mut i: usize = 0;
    while i < listing.len()
        invariant
            so@ == ".so"@,
            dll@ == ".dll"@,
            i <= listing@.len(),
            forall|j: int| 0 <= j < i ==> !is_shared_lib_entry(#[trigger] listing@[j]),
        decreases listing@.len() - i,
    {
        let e = &listing[i];
        let name = to_chars(e.name.as_str());
        if e.is_file && (crate::text::contains_chars(&name, &so) || crate::text::ends_with_chars(
            &name,
            &dll,
        )) {
            assert(is_shared_lib_entry(listing@[i as int]));
            return true;
        }
        i = i + 1;
    }
    false
}

/// Whether `def` is ready, from the observed probe.
pub fn artifact_ready(def: &ArtifactDef, target: HostTarget, probe: &ArtifactProbe) -> (r: bool)
    ensures
        r == ready_spec(*def, target, *probe),
{
    match def.verify {
        VerifyRule::Exists => probe.stat.exists && probe.stat.is_file,
        VerifyRule::SidecarUsable => sidecar_file_usable(target.platform, &probe.stat),
        VerifyRule::SharedLibPresent => any_shared_lib(&probe.listing),
    }
}

/// The status reported for `def`.
pub open spec fn status_spec(
    def: ArtifactDef,
    roots: LayoutRoots,
    target: HostTarget,
    probe: ArtifactProbe,
) -> (Seq<char>, bool, Seq<char>) {
    (
        def.id@,
        ready_spec(def, target, probe),
        roots.resolved(def, target, probe.nested_exists, probe.alt_exists),
    )
}

/// View of a status as (id, ready, path).
pub open spec fn status_view(s: VerifyStatus) -> (Seq<char>, bool, Seq<char>) {
    (s.id@, s.ready, s.path@)
}

/// Verifies every artifact of a catalog; `probes[i]` is what was observed for `artifacts[i]`.
pub fn verify_catalog(
    artifacts: &Vec<ArtifactDef>,
    roots: &LayoutRoots,
    target: HostTarget,
    probes: &Vec<ArtifactProbe>,
) -> (r: Vec<VerifyStatus>)
    requires
        probes@.len() == artifacts@.len(),
    ensures
        r@.len() == artifacts@.len(),
        forall|i: int|
            0 <= i < r@.len() ==> status_view(#[trigger] r@[i]) == status_spec(
                artifacts@[i],
                *roots,
                target,
                probes@[i],
            ),
{
    let mut out: Vec<VerifyStatus> = Vec::new();
    let mut i: usize = 0;
    while i < artifacts.len()
        invariant
            probes@.len() == artifacts@.len(),
            i <= artifacts@.len(),
            out@.len() == i,
            forall|j: int|
                0 <= j < i ==> status_view(#[trigger] out@[j]) == status_spec(
                    artifacts@[j],
                    *roots,
                    target,
                    probes@[j],
                ),
        decreases artifacts@.len() - i,
    {
        let def = &artifacts[i];
        let probe = &probes[i];
        let path = roots.resolve(def, target, probe.nested_exists, probe.alt_exists);
        let ready = artifact_ready(def, target, probe);
        out.push(VerifyStatus { id: crate::text::owned(def.id), ready, path });
        i = i + 1;
    }
    out
}

/// The artifact with id `id` in a catalog, if any (the first such).
pub fn find_artifact(artifacts: &Vec<ArtifactDef>, id: &str) -> (r: Option<usize>)
    ensures
        match r {
            Some(i) => i < artifacts@.len() && artifacts@[i as int].id@ == id@ && forall|j: int|
                0 <= j < i ==> artifacts@[j].id@ != id@,
            None => forall|j: int| 0 <= j < artifacts@.len() ==> artifacts@[j].id@ != id@,
        },
{
    let mut i: usize = 0;
    while i < artifacts.len()
        invariant
            i <= artifacts@.len(),
            forall|j: int| 0 <= j < i ==> artifacts@[j].id@ != id@,
        decreases artifacts@.len() - i,
    {
        if crate::text::str_eq(artifacts[i].id, id) {
            return Some(i);
        }
        i = i + 1;
    }
    None
}

/// Catalog entry as dumped for Developer setup.
#[derive(Debug, Clone, Copy)]
pub struct ArtifactProjection {
    pub id: &'static str,
    pub kind: ArtifactKind,
    pub root: ArtifactRoot,
    pub relative_dir: &'static str,
    pub filename: &'static str,
    pub sidecar_name: bool,
    pub source: ArtifactSource,
    pub required_for_core: bool,
    pub required_for_stt: bool,
}

/// A platform catalog as dumped for Developer setup.
#[derive(Debug)]
pub struct CatalogProjection {
    pub platform: String,
    pub artifacts: Vec<ArtifactProjection>,
}

/// Projection of one artifact (all fields but the verify rule).
pub open spec fn project(a: ArtifactDef) -> ArtifactProjection {
    ArtifactProjection {
        id: a.id,
        kind: a.kind,
        root: a.root,
        relative_dir: a.relative_dir,
        filename: a.filename,
        sidecar_name: a.sidecar_name,
        source: a.source,
        required_for_core: a.required_for_core,
        required_for_stt: a.required_for_stt,
    }
}

/// Projection of a catalog for `platform`.
pub fn project_catalog(platform: &str, artifacts: &Vec<ArtifactDef>) -> (r: CatalogProjection)
    ensures
        r.platform@ == platform@,
        r.artifacts@ == artifacts@.map_values(|a: ArtifactDef| project(a)),
{
    let mut out: Vec<ArtifactProjection> = Vec::new();
    let mut i: usize = 0;
    while i < artifacts.len()
        invariant
            i <= artifacts@.len(),
            out@ == artifacts@.take(i as int).map_values(|a: ArtifactDef| project(a)),
        decreases artifacts@.len() - i,
    {
        let a = &artifacts[i];
        out.push(
            ArtifactProjection {
                id: a.id,
                kind: a.kind,
                root: a.root,
                relative_dir: a.relative_dir,
                filename: a.filename,
                sidecar_name: a.sidecar_name,
                source: a.source,
                required_for_core: a.required_for_core,
                required_for_stt: a.required_for_stt,
            },
        );
        i = i + 1;
        assert(out@ =~= artifacts@.take(i as int).map_values(|a: ArtifactDef| project(a)));
    }
    assert(artifacts@.take(artifacts@.len() as int) =~= artifacts@);
    CatalogProjection { platform: crate::text::owned(platform), artifacts: out }
}

} // verus!
