//! Sidecar binaries fetched from GitHub releases: readiness summary, which
//! release asset to take, which archive entries to extract and where, and the
//! soname links created for versioned shared libraries.

use vstd::prelude::*;

use crate::paths::{file_name_of, path_file_name};
use crate::platform::artifact::{ArtifactDef, ArtifactProbe, ArtifactSource, VerifyStatus};
use crate::platform::{CpuArch, HostTarget, PlatformId};
use crate::text::{
    concat2, contains_chars, contains_seq, ends_with_chars, ends_with_seq, find_occ, first_occ,
    lowercase, owned, str_eq, to_chars, to_lower,
};

verus! {

/// Readiness of the app-managed binaries.
#[derive(Debug)]
pub struct BinariesStatus {
    pub llama_ready: bool,
    pub piper_ready: bool,
    /// ONNX Runtime shared library under `binaries/ort/`.
    pub ort_ready: bool,
    /// Note shown in the wizard for ONNX Runtime.
    pub ort_note: String,
}

/// Binaries readiness under the app's binaries directory (see
/// [`crate::setup::status::check_binaries_in`]); `probes[i]` is what was
/// observed for the running platform's `i`-th catalog artifact.
pub fn check_binaries(binaries_root: &str, target: HostTarget, probes: &Vec<ArtifactProbe>) -> (r:
    BinariesStatus)
    requires
        probes@.len() == target.platform.catalog(target.arch).len(),
    ensures
        exists|roots: crate::platform::artifact::LayoutRoots, statuses: Seq<VerifyStatus>|
            {
                &&& roots.binaries@ == binaries_root@
                &&& roots.models@ == Seq::<char>::empty()
                &&& statuses.len() == target.platform.catalog(target.arch).len()
                &&& forall|i: int|
                    0 <= i < statuses.len() ==> crate::platform::artifact::status_view(
                        #[trigger] statuses[i],
                    ) == crate::platform::artifact::status_spec(
                        target.platform.catalog(target.arch)[i],
                        roots,
                        target,
                        probes@[i],
                    )
                &&& (r.llama_ready, r.piper_ready, r.ort_ready)
                    == crate::setup::status::binaries_spec(statuses)
            },
        r.ort_note@ == crate::setup::status::ort_note_text(),
{
    crate::setup::status::check_binaries_in(binaries_root, target, probes)
}

/// The GitHub release source of artifact `id` in a catalog: (repository,
/// asset-name pattern) of its first entry, when that entry is a GitHub release.
pub open spec fn github_source(artifacts: Seq<ArtifactDef>, id: Seq<char>) -> Option<(Seq<char>, Seq<char>)> {
    if exists|i: int| 0 <= i < artifacts.len() && (#[trigger] artifacts[i]).id@ == id {
        let k = choose|k: int|
            0 <= k < artifacts.len() && (#[trigger] artifacts[k]).id@ == id && forall|j: int|
                0 <= j < k ==> artifacts[j].id@ != id;
        match artifacts[k].source {
            ArtifactSource::GithubRelease { repo, pattern } => Some((repo@, pattern@)),
            _ => None,
        }
    } else {
        None
    }
}

/// Repository and asset pattern of artifact `id` in the running platform's catalog.
pub fn catalog_github(target: HostTarget, id: &str) -> (r: Option<(&'static str, &'static str)>)
    ensures
        match github_source(target.platform.catalog(target.arch), id@) {
            Some((repo, pattern)) => r is Some && r.unwrap().0@ == repo && r.unwrap().1@ == pattern,
            None => r is None,
        },
{
    let artifacts = target.platform.artifacts(target.arch);
    match crate::platform::artifact::find_artifact(&artifacts, id) {
        None => None,
        Some(k) => {
            let ghost c = target.platform.catalog(target.arch);
            proof {
                assert(exists|i: int| 0 <= i < c.len() && (#[trigger] c[i]).id@ == id@) by {
                    assert(c[k as int].id@ == id@);
                }
                let k2 = choose|k2: int|
                    0 <= k2 < c.len() && (#[trigger] c[k2]).id@ == id@ && forall|j: int|
                        0 <= j < k2 ==> c[j].id@ != id@;
                if k2 < k {
                } else if k2 > k {
                    assert(c[k as int].id@ == id@);
                }
                assert(k2 == k);
            }
            match artifacts[k].source {
                ArtifactSource::GithubRelease { repo, pattern } => Some((repo, pattern)),
                _ => None,
            }
        },
    }
}

/// One asset of a GitHub release; a field is `None` when it is not a string.
#[derive(Debug)]
pub struct ReleaseAsset {
    pub name: Option<String>,
    pub browser_download_url: Option<String>,
}

/// Whether a lower-cased asset name is a GPU build.
pub open spec fn gpu_build(lower: Seq<char>) -> bool {
    contains_seq(lower, "gpu"@) || contains_seq(lower, "cuda"@)
}

/// The asset chosen from `assets` (scanning in order) for `pattern`: the first
/// matching non-GPU asset, else the first matching GPU asset seen (`fallback`).
/// An asset without a name, or a matching one without a URL, ends the scan
/// with nothing.
pub open spec fn asset_pick(assets: Seq<ReleaseAsset>, pattern: Seq<char>, fallback: Option<Seq<char>>) -> Option<Seq<char>>
    decreases assets.len(),
{
    if assets.len() == 0 {
        fallback
    } else {
        let a = assets[0];
        match a.name {
            None => None,
            Some(n) => if !contains_seq(n@, pattern) {
                asset_pick(assets.drop_first(), pattern, fallback)
            } else {
                match a.browser_download_url {
                    None => None,
                    Some(u) => if gpu_build(lowercase(n@)) {
                        asset_pick(
                            assets.drop_first(),
                            pattern,
                            if fallback is None {
                                Some(u@)
                            } else {
                                fallback
                            },
                        )
                    } else {
                        Some(u@)
                    },
                }
            },
        }
    }
}

/// The download URL of the release asset whose name contains `pattern`,
/// preferring non-GPU builds; `None` when the release has no asset list.
pub fn find_asset(assets: &Option<Vec<ReleaseAsset>>, pattern: &str) -> (r: Option<String>)
    ensures
        match assets {
            None => r is None,
            Some(v) => match asset_pick(v@, pattern@, None) {
                Some(u) => r is Some && r.unwrap()@ == u,
                None => r is None,
            },
        },
{
    match assets {
        None => None,
        Some(v) => find_asset_in(v, pattern),
    }
}

fn find_asset_in(v: &Vec<ReleaseAsset>, pattern: &str) -> (r: Option<String>)
    ensures
        match asset_pick(v@, pattern@, None) {
            Some(u) => r is Some && r.unwrap()@ == u,
            None => r is None,
        },
{
    let pat = to_chars(pattern);
    let gpu = to_chars("gpu");
    let cuda = to_chars("cuda");
    let mut fallback: Option<String> = None;
    let mut i: usize = 0;
    assert(v@.skip(0) =~= v@);
    while i < v.len()
        invariant
            i <= v@.len(),
            pat@ == pattern@,
            gpu@ == "gpu"@,
            cuda@ == "cuda"@,
            asset_pick(v@, pattern@, None) == asset_pick(
                v@.skip(i as int),
                pattern@,
                match fallback {
                    Some(f) => Some(f@),
                    None => None,
                },
            ),
        decreases v@.len() - i,
    {
        let ghost rest = v@.skip(i as int);
        assert(rest.len() > 0);
        assert(rest[0] == v@[i as int]);
        assert(rest.drop_first() =~= v@.skip(i + 1));
        let a = &v[i];
        let name = match &a.name {
            None => {
                assert(asset_pick(rest, pattern@, match fallback {
                    Some(f) => Some(f@),
                    None => None,
                }) is None);
                return None;
            },
            Some(n) => n,
        };
        let nv = to_chars(name.as_str());
        if contains_chars(&nv, &pat) {
            let url = match &a.browser_download_url {
                None => {
                    assert(contains_seq(rest[0].name.unwrap()@, pattern@));
                    return None;
                },
                Some(u) => u,
            };
            let lower = to_chars(to_lower(name.as_str()).as_str());
            if contains_chars(&lower, &gpu) || contains_chars(&lower, &cuda) {
                if fallback.is_none() {
                    fallback = Some(url.clone());
                }
            } else {
                return Some(url.clone());
            }
        }
        i = i + 1;
    }
    assert(v@.skip(i as int) =~= Seq::<ReleaseAsset>::empty());
    fallback
}

/// Platform-specific names used when extracting release archives.
#[derive(Debug, Clone, Copy)]
pub struct ExtractNames {
    /// Target triple in sidecar file names.
    pub triple: &'static str,
    /// The llama-server executable inside its archive.
    pub llama_exe: &'static str,
    /// The Piper executable inside its archive.
    pub piper_exe: &'static str,
    /// Piper ships as `.tar.gz` (else `.zip`).
    pub piper_is_targz: bool,
    /// llama.cpp ships as `.tar.gz` (else `.zip`).
    pub llama_is_targz: bool,
}

/// Extraction names for a target.
pub open spec fn extract_names_spec(target: HostTarget) -> (Seq<char>, Seq<char>, Seq<char>, bool, bool) {
    match target.platform {
        PlatformId::Windows => ("x86_64-pc-windows-msvc"@, "llama-server.exe"@, "piper.exe"@, false, false),
        PlatformId::Macos => match target.arch {
            CpuArch::Aarch64 => ("aarch64-apple-darwin"@, "llama-server"@, "piper"@, true, true),
            CpuArch::X86_64 => ("x86_64-apple-darwin"@, "llama-server"@, "piper"@, true, true),
        },
        PlatformId::Linux => ("x86_64-unknown-linux-gnu"@, "llama-server"@, "piper"@, true, true),
    }
}

/// The extraction names of `target`.
pub fn extract_names(target: HostTarget) -> (r: ExtractNames)
    ensures
        (r.triple@, r.llama_exe@, r.piper_exe@, r.piper_is_targz, r.llama_is_targz)
            == extract_names_spec(target),
{
    match target.platform {
        PlatformId::Windows => ExtractNames {
            triple: "x86_64-pc-windows-msvc",
            llama_exe: "llama-server.exe",
            piper_exe: "piper.exe",
            piper_is_targz: false,
            llama_is_targz: false,
        },
        PlatformId::Macos => match target.arch {
            CpuArch::Aarch64 => ExtractNames {
                triple: "aarch64-apple-darwin",
                llama_exe: "llama-server",
                piper_exe: "piper",
                piper_is_targz: true,
                llama_is_targz: true,
            },
            CpuArch::X86_64 => ExtractNames {
                triple: "x86_64-apple-darwin",
                llama_exe: "llama-server",
                piper_exe: "piper",
                piper_is_targz: true,
                llama_is_targz: true,
            },
        },
        PlatformId::Linux => ExtractNames {
            triple: "x86_64-unknown-linux-gnu",
            llama_exe: "llama-server",
            piper_exe: "piper",
            piper_is_targz: true,
            llama_is_targz: true,
        },
    }
}

/// `path` from the first occurrence of `component/` on, matched
/// case-insensitively; positions are counted in characters of the lowercase
/// form (the same as in `path` when lowercasing keeps its length).
pub open spec fn strip_to_component_spec(path: Seq<char>, component: Seq<char>) -> Option<Seq<char>> {
    match first_occ(lowercase(path), component + "/"@, 0) {
        Some(p) => if p <= path.len() {
            Some(path.skip(p))
        } else {
            None
        },
        None => None,
    }
}

/// Given `foo/bar/espeak-ng-data/en_dict` and `espeak-ng-data`, returns
/// `espeak-ng-data/en_dict` (see [`strip_to_component_spec`]).
pub fn strip_to_component(path: &str, component: &str) -> (r: Option<String>)
    ensures
        match strip_to_component_spec(path@, component@) {
            Some(s) => r is Some && r.unwrap()@ == s,
            None => r is None,
        },
{
    let lower = to_chars(to_lower(path).as_str());
    let key = to_chars(concat2(component, "/").as_str());
    let pv = to_chars(path);
    match find_occ(&lower, &key, 0) {
        None => None,
        Some(p) => {
            if p <= pv.len() {
                let s = crate::text::from_chars_range(&pv, p, pv.len());
                assert(pv@.subrange(p as int, pv@.len() as int) =~= path@.skip(p as int));
                Some(s)
            } else {
                None
            }
        },
    }
}

/// The soname links of a versioned library `libfoo.so.N.M…`: `libfoo.so.N`
/// and `libfoo.so`, where `libfoo` precedes the first `.so.` and `N` runs up
/// to the next `.` (or the end).
pub open spec fn soname_links_spec(name: Seq<char>) -> Option<(Seq<char>, Seq<char>)> {
    if !(name.len() >= 3 && name.take(3) == "lib"@) {
        None
    } else {
        match first_occ(name, ".so."@, 0) {
            None => None,
            Some(k) => {
                let stem = name.take(k);
                let rest = name.skip(k + 4);
                let major = match first_occ(rest, "."@, 0) {
                    Some(d) => rest.take(d),
                    None => rest,
                };
                Some((stem + ".so."@ + major, stem + ".so"@))
            },
        }
    }
}

/// The links to create for a library file named `name`, if it is versioned.
pub fn soname_links(name: &str) -> (r: Option<(String, String)>)
    ensures
        match soname_links_spec(name@) {
            Some((a, b)) => r is Some && r.unwrap().0@ == a && r.unwrap().1@ == b,
            None => r is None,
        },
{
    let v = to_chars(name);
    let lib = to_chars("lib");
    let sep = to_chars(".so.");
    let dot = to_chars(".");
    proof {
        reveal_strlit("lib");
        reveal_strlit(".so.");
        reveal_strlit(".");
    }
    if !(v.len() >= 3 && v[0] == 'l' && v[1] == 'i' && v[2] == 'b') {
        proof {
            if v@.len() >= 3 && v@.take(3) == "lib"@ {
                assert(v@.take(3)[0] == 'l' && v@.take(3)[1] == 'i' && v@.take(3)[2] == 'b');
            }
        }
        return None;
    }
    assert(v@.take(3) =~= "lib"@);
    match find_occ(&v, &sep, 0) {
        None => None,
        Some(k) => {
            proof {
                crate::text::lemma_first_occ(v@, ".so."@, 0);
            }
            let stem = crate::text::from_chars_range(&v, 0, k);
            let rest_v = crate::text::vec_slice(&v, k + 4, v.len());
            proof {
                crate::text::lemma_first_occ(rest_v@, "."@, 0);
            }
            let major = match find_occ(&rest_v, &dot, 0) {
                Some(d) => crate::text::from_chars_range(&rest_v, 0, d),
                None => crate::text::from_chars(&rest_v),
            };
            proof {
                crate::text::lemma_first_occ(rest_v@, "."@, 0);
                assert(v@.subrange(0, k as int) =~= v@.take(k as int));
                assert(rest_v@ =~= v@.skip(k + 4));
                match first_occ(rest_v@, "."@, 0) {
                    Some(d) => {
                        assert(rest_v@.subrange(0, d) =~= rest_v@.take(d));
                    },
                    None => {},
                }
            }
            let mut a = stem.clone();
            a.append(".so.");
            a.append(major.as_str());
            let b = concat2(stem.as_str(), ".so");
            Some((a, b))
        },
    }
}

/// Where a `.dll` entry of a zip goes: its file name, when the entry ends in
/// `.dll` (case-insensitively) and, if `needle` is given, its file name
/// contains it case-insensitively.
pub open spec fn zip_dll_target_spec(entry: Seq<char>, needle: Option<Seq<char>>) -> Option<Seq<char>> {
    let file = match path_file_name(entry) {
        Some(f) => f,
        None => Seq::empty(),
    };
    if !ends_with_seq(lowercase(entry), ".dll"@) {
        None
    } else {
        match needle {
            Some(n) => if contains_seq(lowercase(file), lowercase(n)) {
                Some(file)
            } else {
                None
            },
            None => Some(file),
        }
    }
}

/// The file name a zip entry is extracted under, if it is a wanted DLL.
pub fn zip_dll_target(entry: &str, needle: Option<&str>) -> (r: Option<String>)
    ensures
        match zip_dll_target_spec(entry@, match needle {
            Some(n) => Some(n@),
            None => None,
        }) {
            Some(f) => r is Some && r.unwrap()@ == f,
            None => r is None,
        },
{
    let lower = to_chars(to_lower(entry).as_str());
    if !ends_with_chars(&lower, &to_chars(".dll")) {
        return None;
    }
    let file = match file_name_of(entry) {
        Some(f) => f,
        None => String::new(),
    };
    match needle {
        Some(n) => {
            let lf = to_chars(to_lower(file.as_str()).as_str());
            let ln = to_chars(to_lower(n).as_str());
            if contains_chars(&lf, &ln) {
                Some(file)
            } else {
                None
            }
        },
        None => Some(file),
    }
}

/// Whether an archive entry is the single file wanted: its lowercase name
/// ends with the lowercase `wanted`.
pub fn entry_matches(entry: &str, wanted: &str) -> (r: bool)
    ensures
        r == ends_with_seq(lowercase(entry@), lowercase(wanted@)),
{
    let a = to_chars(to_lower(entry).as_str());
    let b = to_chars(to_lower(wanted).as_str());
    ends_with_chars(&a, &b)
}

/// Where a tar entry holding a shared library goes: its file name, when the
/// entry is not a directory, its lowercase name contains `.so` and, if
/// `prefix` is given, its name starts with it.
pub open spec fn tar_lib_target_spec(entry: Seq<char>, is_dir: bool, prefix: Option<Seq<char>>) -> Option<Seq<char>> {
    let file = match path_file_name(entry) {
        Some(f) => f,
        None => Seq::empty(),
    };
    if is_dir || !contains_seq(lowercase(file), ".so"@) {
        None
    } else {
        match prefix {
            Some(p) => if crate::text::starts_with_seq(file, p) {
                Some(file)
            } else {
                None
            },
            None => Some(file),
        }
    }
}

/// The file name a tar entry is extracted under, if it is a wanted shared library.
pub fn tar_lib_target(entry: &str, is_dir: bool, prefix: Option<&str>) -> (r: Option<String>)
    ensures
        match tar_lib_target_spec(entry@, is_dir, match prefix {
            Some(p) => Some(p@),
            None => None,
        }) {
            Some(f) => r is Some && r.unwrap()@ == f,
            None => r is None,
        },
{
    if is_dir {
        return None;
    }
    let file = match file_name_of(entry) {
        Some(f) => f,
        None => String::new(),
    };
    let lower = to_chars(to_lower(file.as_str()).as_str());
    if !contains_chars(&lower, &to_chars(".so")) {
        return None;
    }
    match prefix {
        Some(p) => {
            let fv = to_chars(file.as_str());
            let pv = to_chars(p);
            if fv.len() >= pv.len() && crate::text::matches_at(&fv, &pv, 0) {
                Some(file)
            } else {
                None
            }
        },
        None => Some(file),
    }
}

/// What becomes of an entry of a Piper archive.
#[derive(Debug)]
pub enum PiperEntry {
    /// The Piper executable (written under the sidecar name).
    Executable,
    /// A DLL, written under this file name.
    Library(String),
    /// Voice data, written at this relative path.
    VoiceData(String),
    /// Not extracted.
    Skip,
}

/// Classifies an entry of Piper's zip archive: the executable, a DLL, a file
/// under `espeak-ng-data/`, or nothing.
pub fn classify_zip_piper_entry(entry: &str, is_dir: bool, piper_exe: &str) -> (r: PiperEntry)
    ensures
        ends_with_seq(lowercase(entry@), lowercase(piper_exe@)) ==> r is Executable,
        !ends_with_seq(lowercase(entry@), lowercase(piper_exe@)) && ends_with_seq(
            lowercase(entry@),
            ".dll"@,
        ) ==> (r matches PiperEntry::Library(f) && f@ == match path_file_name(entry@) {
            Some(n) => n,
            None => Seq::empty(),
        }),
        !ends_with_seq(lowercase(entry@), lowercase(piper_exe@)) && !ends_with_seq(
            lowercase(entry@),
            ".dll"@,
        ) ==> if contains_seq(lowercase(entry@), "espeak-ng-data/"@) && !is_dir {
            match strip_to_component_spec(entry@, "espeak-ng-data"@) {
                Some(rel) => r matches PiperEntry::VoiceData(p) && p@ == rel,
                None => r is Skip,
            }
        } else {
            r is Skip
        },
{
    let lower = to_chars(to_lower(entry).as_str());
    let exe = to_chars(to_lower(piper_exe).as_str());
    if ends_with_chars(&lower, &exe) {
        return PiperEntry::Executable;
    }
    if ends_with_chars(&lower, &to_chars(".dll")) {
        let file = match file_name_of(entry) {
            Some(f) => f,
            None => String::new(),
        };
        return PiperEntry::Library(file);
    }
    if contains_chars(&lower, &to_chars("espeak-ng-data/")) && !is_dir {
        match strip_to_component(entry, "espeak-ng-data") {
            Some(rel) => PiperEntry::VoiceData(rel),
            None => PiperEntry::Skip,
        }
    } else {
        PiperEntry::Skip
    }
}

/// Classifies an entry of Piper's tar.gz archive: the executable (the entry
/// is the executable's name or ends in `/` and it), a file under
/// `espeak-ng-data/` (kept at its path when the component cannot be cut), or
/// nothing.
pub fn classify_tar_piper_entry(entry: &str, piper_exe: &str) -> (r: PiperEntry)
    ensures
        (ends_with_seq(lowercase(entry@), "/"@ + piper_exe@) || lowercase(entry@) == piper_exe@)
            ==> r is Executable,
        !(ends_with_seq(lowercase(entry@), "/"@ + piper_exe@) || lowercase(entry@) == piper_exe@)
            ==> if contains_seq(lowercase(entry@), "espeak-ng-data/"@) {
            r matches PiperEntry::VoiceData(p) && p@ == match strip_to_component_spec(
                entry@,
                "espeak-ng-data"@,
            ) {
                Some(rel) => rel,
                None => entry@,
            }
        } else {
            r is Skip
        },
{
    let lower_s = to_lower(entry);
    let lower = to_chars(lower_s.as_str());
    let slash_exe = to_chars(concat2("/", piper_exe).as_str());
    if ends_with_chars(&lower, &slash_exe) || str_eq(lower_s.as_str(), piper_exe) {
        return PiperEntry::Executable;
    }
    if contains_chars(&lower, &to_chars("espeak-ng-data/")) {
        let rel = match strip_to_component(entry, "espeak-ng-data") {
            Some(r) => r,
            None => owned(entry),
        };
        PiperEntry::VoiceData(rel)
    } else {
        PiperEntry::Skip
    }
}

/// Progress of one download, as shown in the setup wizard.
#[derive(Debug, Clone, PartialEq, Eq)]
pub struct DownloadProgress {
    pub filename: String,
    pub downloaded: u64,
    pub total: u64,
    pub done: bool,
    /// The Piper voice this file belongs to, if any.
    pub voice_id: Option<String>,
}

/// The final event of a step: `{label} — {msg}`, done.
pub fn done_event(label: &str, msg: &str) -> (r: DownloadProgress)
    ensures
        r.filename@ == label@ + " — "@ + msg@,
        r.downloaded == 1,
        r.total == 1,
        r.done,
        r.voice_id is None,
{
    DownloadProgress {
        filename: crate::text::concat3(label, " — ", msg),
        downloaded: 1,
        total: 1,
        done: true,
        voice_id: None,
    }
}

/// Label of the ONNX Runtime archive: by its URL's extension.
pub fn ort_archive_label(url: &str) -> (r: &'static str)
    ensures
        r@ == if ends_with_seq(url@, ".zip"@) {
            "onnxruntime.zip"@
        } else {
            "onnxruntime.tgz"@
        },
{
    if ends_with_chars(&to_chars(url), &to_chars(".zip")) {
        "onnxruntime.zip"
    } else {
        "onnxruntime.tgz"
    }
}

/// Which binaries `download_all` fetches.
#[derive(Debug, Clone, Copy, PartialEq, Eq, Structural)]
pub struct DownloadPlan {
    pub llama: bool,
    pub piper: bool,
    pub ort: bool,
}

/// Fetches exactly what is missing: llama-server and Piper when no usable
/// sidecar is found, ONNX Runtime when its library is absent.
pub fn download_plan(llama_found: bool, piper_found: bool, ort_ready: bool) -> (r: DownloadPlan)
    ensures
        r.llama == !llama_found,
        r.piper == !piper_found,
        r.ort == !ort_ready,
{
    DownloadPlan { llama: !llama_found, piper: !piper_found, ort: !ort_ready }
}

/// The GitHub API URL of a repository's latest release.
pub fn github_latest_url(repo: &str) -> (r: String)
    ensures
        r@ == "https://api.github.com/repos/"@ + repo@ + "/releases/latest"@,
{
    crate::text::concat3("https://api.github.com/repos/", repo, "/releases/latest")
}

/// Progress labels of the llama.cpp CPU and Vulkan archives.
pub fn llama_archive_labels(is_targz: bool) -> (r: (&'static str, &'static str))
    ensures
        is_targz ==> r.0@ == "llama-cpu.tar.gz"@ && r.1@ == "llama-vulkan.tar.gz"@,
        !is_targz ==> r.0@ == "llama-cpu.zip"@ && r.1@ == "llama-vulkan.zip"@,
{
    if is_targz {
        ("llama-cpu.tar.gz", "llama-vulkan.tar.gz")
    } else {
        ("llama-cpu.zip", "llama-vulkan.zip")
    }
}

/// The release's tag, or `unknown`.
pub fn release_tag(tag_name: Option<String>) -> (r: String)
    ensures
        r@ == match tag_name {
            Some(t) => t@,
            None => "unknown"@,
        },
{
    match tag_name {
        Some(t) => t,
        None => owned("unknown"),
    }
}

/// The repository retried when fetching the latest llama.cpp release from
/// `repo` fails: the project's former home, unless that was the one asked.
pub fn llama_fallback_repo(repo: &str) -> (r: Option<&'static str>)
    ensures
        repo@ == "ggerganov/llama.cpp"@ ==> r is None,
        repo@ != "ggerganov/llama.cpp"@ ==> r == Some("ggerganov/llama.cpp"),
{
    if str_eq(repo, "ggerganov/llama.cpp") {
        None
    } else {
        Some("ggerganov/llama.cpp")
    }
}

} // verus!
