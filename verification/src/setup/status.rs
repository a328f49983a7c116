//! Setup status at the command seam: Core agent and Host speech-to-text
//! readiness derive from the Platform catalog's verify results and the
//! artifacts' `required_for_core` / `required_for_stt` flags; Core also needs
//! the chat model. Piper and other optional rows are reported but gate nothing.

use vstd::prelude::*;

use crate::binary_store::BinariesStatus;
use crate::constants;
use crate::paths::{join, join_str};
use crate::platform::artifact::{
    sidecar_file_usable, sidecar_usable, verify_catalog, ArtifactDef, ArtifactProbe, DirEntryFact,
    FileStat, LayoutRoots, VerifyStatus, status_spec, status_view,
};
use crate::platform::{short_name, sidecar_filename, sidecar_filename_spec, HostTarget, PlatformId};
use crate::text::{contains_seq, ends_with_seq, to_chars};

verus! {

/// Wizard note shown for the ONNX Runtime row.
pub open spec fn ort_note_text() -> Seq<char> {
    "Host STT path: app-managed ONNX Runtime library under binaries/ort/ (repair via Setup Wizard)."@
}

/// The ONNX Runtime note.
pub fn ort_note() -> (r: String)
    ensures
        r@ == ort_note_text(),
{
    crate::text::owned(
        "Host STT path: app-managed ONNX Runtime library under binaries/ort/ (repair via Setup Wizard).",
    )
}

/// Index of the first status with id `id`.
pub open spec fn first_status(statuses: Seq<VerifyStatus>, id: Seq<char>) -> Option<int>
    decreases statuses.len(),
{
    if statuses.len() == 0 {
        None
    } else if statuses[0].id@ == id {
        Some(0)
    } else {
        match first_status(statuses.drop_first(), id) {
            Some(k) => Some(k + 1),
            None => None,
        }
    }
}

pub proof fn lemma_first_status(statuses: Seq<VerifyStatus>, id: Seq<char>)
    ensures
        match first_status(statuses, id) {
            Some(k) => 0 <= k < statuses.len() && statuses[k].id@ == id && forall|j: int|
                0 <= j < k ==> statuses[j].id@ != id,
            None => forall|j: int| 0 <= j < statuses.len() ==> statuses[j].id@ != id,
        },
    decreases statuses.len(),
{
    if statuses.len() > 0 && statuses[0].id@ != id {
        lemma_first_status(statuses.drop_first(), id);
        assert forall|j: int| 0 < j < statuses.len() implies statuses[j] == statuses.drop_first()[j
            - 1] by {}
    }
}

/// Readiness reported for id `id`: that of its first status, false when absent.
pub open spec fn ready_by_id_spec(statuses: Seq<VerifyStatus>, id: Seq<char>) -> bool {
    match first_status(statuses, id) {
        Some(k) => statuses[k].ready,
        None => false,
    }
}

/// Readiness reported for id `id` (false when no status has that id).
pub fn ready_by_id(statuses: &Vec<VerifyStatus>, id: &str) -> (r: bool)
    ensures
        r == ready_by_id_spec(statuses@, id@),
{
    proof {
        lemma_first_status(statuses@, id@);
    }
    let mut i: usize = 0;
    while i < statuses.len()
        invariant
            i <= statuses@.len(),
            forall|j: int| 0 <= j < i ==> statuses@[j].id@ != id@,
        decreases statuses@.len() - i,
    {
        if crate::text::str_eq(statuses[i].id.as_str(), id) {
            assert(first_status(statuses@, id@) == Some(i as int)) by {
                lemma_first_status(statuses@, id@);
                match first_status(statuses@, id@) {
                    Some(k) => {
                        if k < i {
                        } else if k > i {
                        }
                    },
                    None => {},
                }
            }
            return statuses[i].ready;
        }
        i = i + 1;
    }
    false
}

/// Which readiness gate an artifact flag feeds.
#[derive(Debug, Clone, Copy, PartialEq, Eq, Structural)]
pub enum ReadinessGate {
    /// `required_for_core`.
    Core,
    /// `required_for_stt`.
    Stt,
}

/// Whether `a` is required by `gate`.
pub open spec fn required_by(a: ArtifactDef, gate: ReadinessGate) -> bool {
    match gate {
        ReadinessGate::Core => a.required_for_core,
        ReadinessGate::Stt => a.required_for_stt,
    }
}

/// Every artifact required by `gate` is reported ready.
pub open spec fn required_all_ready_spec(
    artifacts: Seq<ArtifactDef>,
    statuses: Seq<VerifyStatus>,
    gate: ReadinessGate,
) -> bool {
    forall|i: int|
        0 <= i < artifacts.len() && required_by(#[trigger] artifacts[i], gate) ==> ready_by_id_spec(
            statuses,
            artifacts[i].id@,
        )
}

/// Whether every artifact required by `gate` is reported ready.
pub fn required_all_ready(
    artifacts: &Vec<ArtifactDef>,
    statuses: &Vec<VerifyStatus>,
    gate: ReadinessGate,
) -> (r: bool)
    ensures
        r == required_all_ready_spec(artifacts@, statuses@, gate),
{
    let mut i: usize = 0;
    while i < artifacts.len()
        invariant
            i <= artifacts@.len(),
            forall|j: int|
                0 <= j < i && required_by(#[trigger] artifacts@[j], gate) ==> ready_by_id_spec(
                    statuses@,
                    artifacts@[j].id@,
                ),
        decreases artifacts@.len() - i,
    {
        let a = &artifacts[i];
        let required = match gate {
            ReadinessGate::Core => a.required_for_core,
            ReadinessGate::Stt => a.required_for_stt,
        };
        if required && !ready_by_id(statuses, a.id) {
            return false;
        }
        i = i + 1;
    }
    true
}

/// Binaries readiness from catalog statuses.
pub open spec fn binaries_spec(statuses: Seq<VerifyStatus>) -> (bool, bool, bool) {
    (
        ready_by_id_spec(statuses, "llama-server"@),
        ready_by_id_spec(statuses, "piper"@),
        ready_by_id_spec(statuses, "onnxruntime"@),
    )
}

/// Binaries readiness (llama-server, piper, ONNX Runtime) from catalog statuses.
pub fn binaries_from_verify(statuses: &Vec<VerifyStatus>) -> (r: BinariesStatus)
    ensures
        (r.llama_ready, r.piper_ready, r.ort_ready) == binaries_spec(statuses@),
        r.ort_note@ == ort_note_text(),
{
    BinariesStatus {
        llama_ready: ready_by_id(statuses, "llama-server"),
        piper_ready: ready_by_id(statuses, "piper"),
        ort_ready: ready_by_id(statuses, "onnxruntime"),
        ort_note: ort_note(),
    }
}

/// The places a sidecar is looked for under a binaries root, in order:
/// `<root>/<short>/<file>`, `<root>/<name>/<file>`, `<root>/<file>`, where
/// `<short>` is the name up to its first `-` and `<file>` the target's file name.
pub open spec fn sidecar_candidates(root: Seq<char>, name: Seq<char>, target: HostTarget) -> Seq<
    Seq<char>,
> {
    let file = sidecar_filename_spec(target, name);
    seq![join(join(root, short_name(name)), file), join(join(root, name), file), join(root, file)]
}

/// The candidate paths of sidecar `name` under `binaries_root` (see [`sidecar_candidates`]).
pub fn sidecar_candidate_paths(binaries_root: &str, name: &str, target: HostTarget) -> (r: Vec<
    String,
>)
    ensures
        r@.len() == 3,
        forall|k: int| 0 <= k < 3 ==> (#[trigger] r@[k])@ == sidecar_candidates(
            binaries_root@,
            name@,
            target,
        )[k],
{
    let file = sidecar_filename(target, name);
    let short = crate::platform::sidecar_short_name(name);
    let d0 = join_str(binaries_root, short.as_str());
    let d1 = join_str(binaries_root, name);
    let mut r: Vec<String> = Vec::new();
    r.push(join_str(d0.as_str(), file.as_str()));
    r.push(join_str(d1.as_str(), file.as_str()));
    r.push(join_str(binaries_root, file.as_str()));
    r
}

/// The first candidate (in the order of [`sidecar_candidates`]) whose observed
/// stat passes the usability gate.
pub open spec fn first_usable(platform: PlatformId, stats: Seq<FileStat>) -> Option<int> {
    if sidecar_usable(platform, stats[0]) {
        Some(0)
    } else if sidecar_usable(platform, stats[1]) {
        Some(1)
    } else if sidecar_usable(platform, stats[2]) {
        Some(2)
    } else {
        None
    }
}

/// Locates sidecar `name` under `binaries_root` by the production layout
/// rules; `stats[k]` is what was observed at the `k`-th candidate path.
pub fn find_sidecar_in(
    binaries_root: &str,
    name: &str,
    target: HostTarget,
    stats: &Vec<FileStat>,
) -> (r: Option<String>)
    requires
        stats@.len() == 3,
    ensures
        match first_usable(target.platform, stats@) {
            Some(k) => r.is_some() && r.unwrap()@ == sidecar_candidates(
                binaries_root@,
                name@,
                target,
            )[k],
            None => r.is_none(),
        },
{
    let mut cands = sidecar_candidate_paths(binaries_root, name, target);
    let mut k: usize = 0;
    while k < 3
        invariant
            stats@.len() == 3,
            cands@.len() == 3,
            forall|j: int| 0 <= j < 3 ==> (#[trigger] cands@[j])@ == sidecar_candidates(
                binaries_root@,
                name@,
                target,
            )[j],
            k <= 3,
            forall|j: int| 0 <= j < k ==> !sidecar_usable(target.platform, #[trigger] stats@[j]),
        decreases 3 - k,
    {
        if sidecar_file_usable(target.platform, &stats[k]) {
            assert(!sidecar_usable(target.platform, stats@[0]) || k == 0);
            let picked = cands.swap_remove(k);
            return Some(picked);
        }
        k = k + 1;
    }
    None
}

/// Directory holding the speech-to-text model files under a binaries root.
pub open spec fn stt_models_dir_spec(binaries_root: Seq<char>) -> Seq<char> {
    join(binaries_root, constants::STT_MODEL_REL_DIR@)
}

/// The speech-to-text model directory under `binaries_root`.
pub fn stt_models_dir(binaries_root: &str) -> (r: String)
    ensures
        r@ == stt_models_dir_spec(binaries_root@),
{
    join_str(binaries_root, constants::STT_MODEL_REL_DIR)
}

/// Paths of the encoder, decoder and vocabulary files under `binaries_root`.
pub fn stt_file_paths(binaries_root: &str) -> (r: (String, String, String))
    ensures
        r.0@ == join(stt_models_dir_spec(binaries_root@), constants::STT_ENCODER_FILE@),
        r.1@ == join(stt_models_dir_spec(binaries_root@), constants::STT_DECODER_FILE@),
        r.2@ == join(stt_models_dir_spec(binaries_root@), constants::STT_VOCAB_FILE@),
{
    let dir = stt_models_dir(binaries_root);
    (
        join_str(dir.as_str(), constants::STT_ENCODER_FILE),
        join_str(dir.as_str(), constants::STT_DECODER_FILE),
        join_str(dir.as_str(), constants::STT_VOCAB_FILE),
    )
}

/// Whether the encoder and decoder files (observed at the paths of
/// [`stt_file_paths`]) are both regular files.
pub fn stt_model_ready_in(encoder: &FileStat, decoder: &FileStat) -> (r: bool)
    ensures
        r == (encoder.exists && encoder.is_file && decoder.exists && decoder.is_file),
{
    encoder.exists && encoder.is_file && decoder.exists && decoder.is_file
}

/// Whether the vocabulary file (observed at its path of [`stt_file_paths`]) is a regular file.
pub fn stt_vocab_ready_in(vocab: &FileStat) -> (r: bool)
    ensures
        r == (vocab.exists && vocab.is_file),
{
    vocab.exists && vocab.is_file
}

/// Whether a listing entry names an ONNX Runtime library file (`.so` anywhere
/// in the name, or ending in `.dll` or `.dylib`).
pub open spec fn is_ort_lib_entry(e: DirEntryFact) -> bool {
    e.is_file && (contains_seq(e.name@, ".so"@) || ends_with_seq(e.name@, ".dll"@)
        || ends_with_seq(e.name@, ".dylib"@))
}

/// Whether the listing of `<binaries_root>/ort` holds an ONNX Runtime shared
/// library (a directory that cannot be read lists nothing).
pub fn ort_lib_ready_in(listing: &Vec<DirEntryFact>) -> (r: bool)
    ensures
        r == exists|i: int| 0 <= i < listing@.len() && is_ort_lib_entry(#[trigger] listing@[i]),
{
    let so = to_chars(".so");
    let dll = to_chars(".dll");
    let dylib = to_chars(".dylib");
    let mut i: usize = 0;
    while i < listing.len()
        invariant
            so@ == ".so"@,
            dll@ == ".dll"@,
            dylib@ == ".dylib"@,
            i <= listing@.len(),
            forall|j: int| 0 <= j < i ==> !is_ort_lib_entry(#[trigger] listing@[j]),
        decreases listing@.len() - i,
    {
        let e = &listing[i];
        let name = to_chars(e.name.as_str());
        if e.is_file && (crate::text::contains_chars(&name, &so) || crate::text::ends_with_chars(
            &name,
            &dll,
        ) || crate::text::ends_with_chars(&name, &dylib)) {
            assert(is_ort_lib_entry(listing@[i as int]));
            return true;
        }
        i = i + 1;
    }
    false
}

/// Path of the ONNX Runtime directory under `binaries_root`.
pub fn ort_lib_dir_in(binaries_root: &str) -> (r: String)
    ensures
        r@ == join(binaries_root@, constants::ORT_LIB_REL_DIR@),
{
    join_str(binaries_root, constants::ORT_LIB_REL_DIR)
}

/// Path of the embedding model under a models root.
pub fn embed_model_path_in(models_dir: &str) -> (r: String)
    ensures
        r@ == join(models_dir@, constants::EMBED_MODEL_FILE@),
{
    join_str(models_dir, constants::EMBED_MODEL_FILE)
}

/// Whether the embedding model exists (observed at [`embed_model_path_in`]).
pub fn embed_model_ready_in(embed: &FileStat) -> (r: bool)
    ensures
        r == embed.exists,
{
    embed.exists
}

/// Binaries readiness under an arbitrary binaries root via catalog verify of
/// the running platform's catalog (models root empty); `probes[i]` is what was
/// observed for the catalog's `i`-th artifact.
pub fn check_binaries_in(binaries_root: &str, target: HostTarget, probes: &Vec<ArtifactProbe>) -> (r:
    BinariesStatus)
    requires
        probes@.len() == target.platform.catalog(target.arch).len(),
    ensures
        exists|roots: LayoutRoots, statuses: Seq<VerifyStatus>|
            {
                &&& roots.binaries@ == binaries_root@
                &&& roots.models@ == Seq::<char>::empty()
                &&& statuses.len() == target.platform.catalog(target.arch).len()
                &&& forall|i: int|
                    0 <= i < statuses.len() ==> status_view(#[trigger] statuses[i]) == status_spec(
                        target.platform.catalog(target.arch)[i],
                        roots,
                        target,
                        probes@[i],
                    )
                &&& (r.llama_ready, r.piper_ready, r.ort_ready) == binaries_spec(statuses)
            },
        r.ort_note@ == ort_note_text(),
{
    let artifacts = target.platform.artifacts(target.arch);
    let roots = LayoutRoots { binaries: crate::text::owned(binaries_root), models: String::new() };
    let statuses = verify_catalog(&artifacts, &roots, target, probes);
    binaries_from_verify(&statuses)
}

/// Whether the configured chat model is usable: a path is set and it exists.
pub fn chat_model_present(chat_model: &str, exists: bool) -> (r: bool)
    ensures
        r == (chat_model@.len() > 0 && exists),
{
    chat_model.unicode_len() > 0 && exists
}

/// Status payload shared with the frontend / Setup Wizard.
#[derive(Debug)]
pub struct SetupStatus {
    /// Core agent ready for the main UI (chat model + every `required_for_core` artifact).
    pub ready: bool,
    pub chat_model: String,
    pub embed_model_ready: bool,
    /// Encoder and decoder models present.
    pub stt_model_ready: bool,
    /// Vocabulary file present.
    pub stt_vocab_ready: bool,
    /// Every `required_for_stt` artifact verifies.
    pub stt_ready: bool,
    pub data_dir: String,
    pub binaries: BinariesStatus,
}

/// The setup status derived from catalog statuses and the chat model check.
pub open spec fn setup_spec(
    artifacts: Seq<ArtifactDef>,
    statuses: Seq<VerifyStatus>,
    chat_model: Seq<char>,
    chat_model_exists: bool,
) -> (bool, bool, bool, bool, bool) {
    let chat_present = chat_model.len() > 0 && chat_model_exists;
    (
        chat_present && required_all_ready_spec(artifacts, statuses, ReadinessGate::Core),
        ready_by_id_spec(statuses, "embed-model"@),
        ready_by_id_spec(statuses, "stt-encoder"@) && ready_by_id_spec(statuses, "stt-decoder"@),
        ready_by_id_spec(statuses, "stt-vocab"@),
        required_all_ready_spec(artifacts, statuses, ReadinessGate::Stt),
    )
}

/// Setup status from catalog statuses: the readiness seam shared by every caller.
pub fn status_from_verify(
    artifacts: &Vec<ArtifactDef>,
    statuses: &Vec<VerifyStatus>,
    chat_model: &str,
    chat_model_exists: bool,
    data_dir: String,
) -> (r: SetupStatus)
    ensures
        (r.ready, r.embed_model_ready, r.stt_model_ready, r.stt_vocab_ready, r.stt_ready)
            == setup_spec(artifacts@, statuses@, chat_model@, chat_model_exists),
        r.chat_model@ == chat_model@,
        r.data_dir@ == data_dir@,
        (r.binaries.llama_ready, r.binaries.piper_ready, r.binaries.ort_ready) == binaries_spec(
            statuses@,
        ),
        r.binaries.ort_note@ == ort_note_text(),
{
    let chat_present = chat_model.unicode_len() > 0 && chat_model_exists;
    let core_ready = required_all_ready(artifacts, statuses, ReadinessGate::Core);
    let stt_ready = required_all_ready(artifacts, statuses, ReadinessGate::Stt);
    let encoder = ready_by_id(statuses, "stt-encoder");
    let decoder = ready_by_id(statuses, "stt-decoder");
    SetupStatus {
        ready: chat_present && core_ready,
        chat_model: crate::text::owned(chat_model),
        embed_model_ready: ready_by_id(statuses, "embed-model"),
        stt_model_ready: encoder && decoder,
        stt_vocab_ready: ready_by_id(statuses, "stt-vocab"),
        stt_ready,
        data_dir,
        binaries: binaries_from_verify(statuses),
    }
}

/// All fields of a setup status as plain values.
pub open spec fn setup_view(r: SetupStatus) -> (
    (bool, bool, bool, bool, bool),
    Seq<char>,
    Seq<char>,
    (bool, bool, bool),
    Seq<char>,
) {
    (
        (r.ready, r.embed_model_ready, r.stt_model_ready, r.stt_vocab_ready, r.stt_ready),
        r.chat_model@,
        r.data_dir@,
        (r.binaries.llama_ready, r.binaries.piper_ready, r.binaries.ort_ready),
        r.binaries.ort_note@,
    )
}

/// What the setup status of a catalog is, under layout roots with these
/// paths and the observed probes: the gates and binaries flags of the
/// statuses [`verify_catalog`] gives, the chat model, the data directory and
/// the ONNX Runtime note.
pub open spec fn derived_status(
    r: SetupStatus,
    artifacts: Seq<ArtifactDef>,
    binaries_root: Seq<char>,
    models_root: Seq<char>,
    target: HostTarget,
    probes: Seq<ArtifactProbe>,
    chat_model: Seq<char>,
    chat_model_exists: bool,
    data_dir: Seq<char>,
) -> bool {
    &&& exists|roots: LayoutRoots, statuses: Seq<VerifyStatus>|
        #![trigger setup_spec(artifacts, statuses, chat_model, chat_model_exists), roots.binaries]
        {
            &&& roots.binaries@ == binaries_root
            &&& roots.models@ == models_root
            &&& statuses.len() == artifacts.len()
            &&& forall|i: int|
                0 <= i < statuses.len() ==> status_view(#[trigger] statuses[i]) == status_spec(
                    artifacts[i],
                    roots,
                    target,
                    probes[i],
                )
            &&& (r.ready, r.embed_model_ready, r.stt_model_ready, r.stt_vocab_ready, r.stt_ready)
                == setup_spec(artifacts, statuses, chat_model, chat_model_exists)
            &&& (r.binaries.llama_ready, r.binaries.piper_ready, r.binaries.ort_ready)
                == binaries_spec(statuses)
        }
    &&& r.chat_model@ == chat_model
    &&& r.data_dir@ == data_dir
    &&& r.binaries.ort_note@ == ort_note_text()
}

/// Whether every artifact that `gate` requires is ready by its probe.
pub open spec fn probe_gate(
    artifacts: Seq<ArtifactDef>,
    target: HostTarget,
    probes: Seq<ArtifactProbe>,
    gate: ReadinessGate,
) -> bool {
    forall|i: int|
        0 <= i < artifacts.len() && required_by(#[trigger] artifacts[i], gate)
            ==> crate::platform::artifact::ready_spec(artifacts[i], target, probes[i])
}

/// Setup status from a catalog, its layout roots and what was observed on disk
/// (`probes[i]` for `artifacts[i]`); `chat_model_exists` tells whether the
/// chat model path exists. When the catalog's ids are distinct, the Core gate
/// is the chat model plus every `required_for_core` probe and the
/// speech-to-text gate is every `required_for_stt` probe.
pub fn derive_setup_status(
    artifacts: &Vec<ArtifactDef>,
    roots: &LayoutRoots,
    target: HostTarget,
    probes: &Vec<ArtifactProbe>,
    chat_model: &str,
    chat_model_exists: bool,
    data_dir: String,
) -> (r: SetupStatus)
    requires
        probes@.len() == artifacts@.len(),
    ensures
        derived_status(
            r,
            artifacts@,
            roots.binaries@,
            roots.models@,
            target,
            probes@,
            chat_model@,
            chat_model_exists,
            data_dir@,
        ),
        ids_distinct(artifacts@) ==> r.ready == (chat_model@.len() > 0 && chat_model_exists
            && probe_gate(artifacts@, target, probes@, ReadinessGate::Core)),
        ids_distinct(artifacts@) ==> r.stt_ready == probe_gate(
            artifacts@,
            target,
            probes@,
            ReadinessGate::Stt,
        ),
{
    let ghost d = data_dir@;
    let statuses = verify_catalog(artifacts, roots, target, probes);
    let r = status_from_verify(artifacts, &statuses, chat_model, chat_model_exists, data_dir);
    proof {
        assert(setup_spec(artifacts@, statuses@, chat_model@, chat_model_exists).0 == r.ready);
        assert(roots.binaries == roots.binaries);
        if ids_distinct(artifacts@) {
            lemma_gate_from_probes(artifacts@, *roots, target, probes@, statuses@, ReadinessGate::Core);
            lemma_gate_from_probes(artifacts@, *roots, target, probes@, statuses@, ReadinessGate::Stt);
        }
    }
    r
}

/// Setup status for the running platform's catalog, under the models and
/// binaries directories given: the same status [`derive_setup_status`]
/// derives for that catalog and those roots.
pub fn build_setup_status(
    chat_model: &str,
    chat_model_exists: bool,
    models_dir: &str,
    binaries_root: &str,
    data_dir: String,
    target: HostTarget,
    probes: &Vec<ArtifactProbe>,
) -> (r: SetupStatus)
    requires
        probes@.len() == target.platform.catalog(target.arch).len(),
    ensures
        derived_status(
            r,
            target.platform.catalog(target.arch),
            binaries_root@,
            models_dir@,
            target,
            probes@,
            chat_model@,
            chat_model_exists,
            data_dir@,
        ),
{
    let artifacts = target.platform.artifacts(target.arch);
    let roots = LayoutRoots {
        binaries: crate::text::owned(binaries_root),
        models: crate::text::owned(models_dir),
    };
    derive_setup_status(
        &artifacts,
        &roots,
        target,
        probes,
        chat_model,
        chat_model_exists,
        data_dir,
    )
}

} // verus!

verus! {

/// Optional rows never gate: two sets of statuses that agree on every artifact
/// a gate needs open or close that gate alike, whatever the optional rows
/// (Piper, GPU libraries, voices, embeddings) say.
pub proof fn law_gates_follow_required_flags(
    artifacts: Seq<ArtifactDef>,
    s1: Seq<VerifyStatus>,
    s2: Seq<VerifyStatus>,
    gate: ReadinessGate,
)
    requires
        forall|i: int|
            0 <= i < artifacts.len() && required_by(#[trigger] artifacts[i], gate)
                ==> ready_by_id_spec(s1, artifacts[i].id@) == ready_by_id_spec(s2, artifacts[i].id@),
    ensures
        required_all_ready_spec(artifacts, s1, gate) == required_all_ready_spec(artifacts, s2, gate),
{
}

/// The Core agent is ready exactly when a chat model is configured and exists
/// and every `required_for_core` artifact verifies; Host speech-to-text is
/// ready exactly when every `required_for_stt` artifact verifies, whatever the
/// chat model.
pub proof fn law_setup_gates(
    artifacts: Seq<ArtifactDef>,
    statuses: Seq<VerifyStatus>,
    chat_model: Seq<char>,
    chat_model_exists: bool,
)
    ensures
        setup_spec(artifacts, statuses, chat_model, chat_model_exists).0 <==> (chat_model.len() > 0
            && chat_model_exists && forall|i: int|
            0 <= i < artifacts.len() && (#[trigger] artifacts[i]).required_for_core
                ==> ready_by_id_spec(statuses, artifacts[i].id@)),
        setup_spec(artifacts, statuses, chat_model, chat_model_exists).4 == setup_spec(
            artifacts,
            statuses,
            Seq::empty(),
            false,
        ).4,
        !setup_spec(artifacts, statuses, Seq::empty(), chat_model_exists).0,
{
    assert(forall|i: int|
        0 <= i < artifacts.len() && (#[trigger] artifacts[i]).required_for_core ==> required_by(
            artifacts[i],
            ReadinessGate::Core,
        ));
}

/// On the Host (Linux) catalog the Core gate is exactly llama-server's
/// readiness and the speech-to-text gate is exactly encoder, decoder,
/// vocabulary and ONNX Runtime together; Piper feeds neither.
pub proof fn law_linux_gates(statuses: Seq<VerifyStatus>)
    ensures
        required_all_ready_spec(crate::platform::linux::linux_catalog(), statuses, ReadinessGate::Core)
            == ready_by_id_spec(statuses, "llama-server"@),
        required_all_ready_spec(crate::platform::linux::linux_catalog(), statuses, ReadinessGate::Stt)
            == (ready_by_id_spec(statuses, "stt-encoder"@) && ready_by_id_spec(
            statuses,
            "stt-decoder"@,
        ) && ready_by_id_spec(statuses, "stt-vocab"@) && ready_by_id_spec(
            statuses,
            "onnxruntime"@,
        )),
        forall|i: int|
            0 <= i < crate::platform::linux::linux_catalog().len() && (
            #[trigger] crate::platform::linux::linux_catalog()[i]).id@ == "piper"@ ==> !crate::platform::linux::linux_catalog()[i].required_for_core
                && !crate::platform::linux::linux_catalog()[i].required_for_stt,
{
    let c = crate::platform::linux::linux_catalog();
    assert(c.len() == 9);
    assert(required_by(c[0], ReadinessGate::Core));
    assert(required_by(c[5], ReadinessGate::Stt));
    assert(required_by(c[6], ReadinessGate::Stt));
    assert(required_by(c[7], ReadinessGate::Stt));
    assert(required_by(c[8], ReadinessGate::Stt));
    reveal_strlit("piper");
    reveal_strlit("llama-server");
    reveal_strlit("stt-encoder");
    reveal_strlit("stt-decoder");
    reveal_strlit("stt-vocab");
    reveal_strlit("onnxruntime");
    assert("piper"@.len() == 5);
    assert("llama-server"@.len() != 5);
    assert("stt-encoder"@.len() != 5);
    assert("stt-decoder"@.len() != 5);
    assert("stt-vocab"@.len() != 5);
    assert("onnxruntime"@.len() != 5);
}

} // verus!

verus! {

/// No two artifacts of a catalog share an id.
pub open spec fn ids_distinct(artifacts: Seq<ArtifactDef>) -> bool {
    forall|i: int, j: int|
        0 <= i < j < artifacts.len() ==> (#[trigger] artifacts[i]).id@ != (#[trigger] artifacts[j]).id@
}

/// Statuses that answer a catalog row by row, with the rows' ids.
pub open spec fn statuses_follow(artifacts: Seq<ArtifactDef>, statuses: Seq<VerifyStatus>) -> bool {
    statuses.len() == artifacts.len() && forall|k: int|
        0 <= k < statuses.len() ==> (#[trigger] statuses[k]).id@ == artifacts[k].id@
}

proof fn lemma_ready_at(statuses: Seq<VerifyStatus>, id: Seq<char>, i: int)
    requires
        0 <= i < statuses.len(),
        statuses[i].id@ == id,
        forall|j: int| 0 <= j < i ==> (#[trigger] statuses[j]).id@ != id,
    ensures
        ready_by_id_spec(statuses, id) == statuses[i].ready,
{
    lemma_first_status(statuses, id);
    match first_status(statuses, id) {
        Some(k) => {
            if k < i {
            } else if k > i {
            }
        },
        None => {},
    }
}

/// The gates of a derived setup status follow only the rows they require:
/// for a catalog with distinct ids, two observations of the disk that agree on
/// the readiness of every `required_for_core` and `required_for_stt` artifact
/// give the same Core and speech-to-text readiness through the statuses
/// [`derive_setup_status`] computes, whatever the optional rows show.
pub proof fn law_derived_gates_follow_required_rows(
    artifacts: Seq<ArtifactDef>,
    roots: LayoutRoots,
    target: HostTarget,
    probes1: Seq<ArtifactProbe>,
    probes2: Seq<ArtifactProbe>,
    statuses1: Seq<VerifyStatus>,
    statuses2: Seq<VerifyStatus>,
    chat_model: Seq<char>,
    chat_model_exists: bool,
)
    requires
        ids_distinct(artifacts),
        probes1.len() == artifacts.len(),
        probes2.len() == artifacts.len(),
        statuses1.len() == artifacts.len(),
        statuses2.len() == artifacts.len(),
        forall|i: int|
            0 <= i < statuses1.len() ==> status_view(#[trigger] statuses1[i]) == status_spec(
                artifacts[i],
                roots,
                target,
                probes1[i],
            ),
        forall|i: int|
            0 <= i < statuses2.len() ==> status_view(#[trigger] statuses2[i]) == status_spec(
                artifacts[i],
                roots,
                target,
                probes2[i],
            ),
        forall|i: int|
            0 <= i < artifacts.len() && ((#[trigger] artifacts[i]).required_for_core
                || artifacts[i].required_for_stt) ==> crate::platform::artifact::ready_spec(
                artifacts[i],
                target,
                probes1[i],
            ) == crate::platform::artifact::ready_spec(artifacts[i], target, probes2[i]),
    ensures
        setup_spec(artifacts, statuses1, chat_model, chat_model_exists).0 == setup_spec(
            artifacts,
            statuses2,
            chat_model,
            chat_model_exists,
        ).0,
        setup_spec(artifacts, statuses1, chat_model, chat_model_exists).4 == setup_spec(
            artifacts,
            statuses2,
            chat_model,
            chat_model_exists,
        ).4,
{
    assert forall|i: int| 0 <= i < artifacts.len() implies ready_by_id_spec(
        statuses1,
        (#[trigger] artifacts[i]).id@,
    ) == statuses1[i].ready && ready_by_id_spec(statuses2, artifacts[i].id@) == statuses2[i].ready by {
        assert(status_view(statuses1[i]) == status_spec(artifacts[i], roots, target, probes1[i]));
        assert(status_view(statuses2[i]) == status_spec(artifacts[i], roots, target, probes2[i]));
        assert forall|j: int| 0 <= j < i implies (#[trigger] statuses1[j]).id@ != artifacts[i].id@ by {
            assert(status_view(statuses1[j]) == status_spec(artifacts[j], roots, target, probes1[j]));
            assert(artifacts[j].id@ != artifacts[i].id@);
        }
        assert forall|j: int| 0 <= j < i implies (#[trigger] statuses2[j]).id@ != artifacts[i].id@ by {
            assert(status_view(statuses2[j]) == status_spec(artifacts[j], roots, target, probes2[j]));
            assert(artifacts[j].id@ != artifacts[i].id@);
        }
        lemma_ready_at(statuses1, artifacts[i].id@, i);
        lemma_ready_at(statuses2, artifacts[i].id@, i);
    }
    law_gates_follow_required_flags(artifacts, statuses1, statuses2, ReadinessGate::Core);
    law_gates_follow_required_flags(artifacts, statuses1, statuses2, ReadinessGate::Stt);
}

/// On the Host (Linux) catalog the binaries summary reads exactly the rows of
/// llama-server, Piper and ONNX Runtime: with statuses that answer the
/// catalog row by row (as [`check_binaries_in`] computes them), the three
/// flags are the readiness of rows 0, 2 and 8.
pub proof fn law_linux_binaries_follow_rows(statuses: Seq<VerifyStatus>)
    requires
        statuses_follow(crate::platform::linux::linux_catalog(), statuses),
    ensures
        binaries_spec(statuses) == (statuses[0].ready, statuses[2].ready, statuses[8].ready),
{
    let c = crate::platform::linux::linux_catalog();
    reveal_strlit("llama-server");
    reveal_strlit("llama-vulkan-libs");
    reveal_strlit("piper");
    reveal_strlit("tts-voice");
    reveal_strlit("embed-model");
    reveal_strlit("stt-encoder");
    reveal_strlit("stt-decoder");
    reveal_strlit("stt-vocab");
    reveal_strlit("onnxruntime");
    assert(c.len() == 9);
    assert(statuses[0].id@ == "llama-server"@);
    assert(statuses[1].id@ == "llama-vulkan-libs"@);
    assert(statuses[2].id@ == "piper"@);
    assert(statuses[3].id@ == "tts-voice"@);
    assert(statuses[4].id@ == "embed-model"@);
    assert(statuses[5].id@ == "stt-encoder"@);
    assert(statuses[6].id@ == "stt-decoder"@);
    assert(statuses[7].id@ == "stt-vocab"@);
    assert(statuses[8].id@ == "onnxruntime"@);
    lemma_ready_at(statuses, "llama-server"@, 0);
    assert forall|j: int| 0 <= j < 2 implies (#[trigger] statuses[j]).id@ != "piper"@ by {
        if j == 0 {
            assert(statuses[0].id@.len() != "piper"@.len());
        } else {
            assert(statuses[1].id@.len() != "piper"@.len());
        }
    }
    lemma_ready_at(statuses, "piper"@, 2);
    assert forall|j: int| 0 <= j < 8 implies (#[trigger] statuses[j]).id@ != "onnxruntime"@ by {
        if j == 4 || j == 5 || j == 6 {
            assert(statuses[j].id@[0] != "onnxruntime"@[0]);
        } else {
            assert(statuses[j].id@.len() != "onnxruntime"@.len());
        }
    }
    lemma_ready_at(statuses, "onnxruntime"@, 8);
}

proof fn lemma_gate_from_probes(
    artifacts: Seq<ArtifactDef>,
    roots: LayoutRoots,
    target: HostTarget,
    probes: Seq<ArtifactProbe>,
    statuses: Seq<VerifyStatus>,
    gate: ReadinessGate,
)
    requires
        ids_distinct(artifacts),
        probes.len() == artifacts.len(),
        statuses.len() == artifacts.len(),
        forall|i: int|
            0 <= i < statuses.len() ==> status_view(#[trigger] statuses[i]) == status_spec(
                artifacts[i],
                roots,
                target,
                probes[i],
            ),
    ensures
        required_all_ready_spec(artifacts, statuses, gate) == probe_gate(artifacts, target, probes, gate),
{
    assert forall|i: int| 0 <= i < artifacts.len() implies ready_by_id_spec(
        statuses,
        (#[trigger] artifacts[i]).id@,
    ) == crate::platform::artifact::ready_spec(artifacts[i], target, probes[i]) by {
        assert(status_view(statuses[i]) == status_spec(artifacts[i], roots, target, probes[i]));
        assert forall|j: int| 0 <= j < i implies (#[trigger] statuses[j]).id@ != artifacts[i].id@ by {
            assert(status_view(statuses[j]) == status_spec(artifacts[j], roots, target, probes[j]));
            assert(artifacts[j].id@ != artifacts[i].id@);
        }
        lemma_ready_at(statuses, artifacts[i].id@, i);
    }
}

/// Optional rows never gate: two observations of the disk that agree on the
/// readiness of every artifact a gate requires open or close that gate alike.
/// With [`derive_setup_status`]'s clauses for catalogs with distinct ids, the
/// Core and speech-to-text readiness it derives depend on nothing but the
/// chat model and the required rows.
pub proof fn law_optional_rows_never_gate(
    artifacts: Seq<ArtifactDef>,
    target: HostTarget,
    probes1: Seq<ArtifactProbe>,
    probes2: Seq<ArtifactProbe>,
    gate: ReadinessGate,
)
    requires
        probes1.len() == artifacts.len(),
        probes2.len() == artifacts.len(),
        forall|i: int|
            0 <= i < artifacts.len() && required_by(#[trigger] artifacts[i], gate)
                ==> crate::platform::artifact::ready_spec(artifacts[i], target, probes1[i])
                == crate::platform::artifact::ready_spec(artifacts[i], target, probes2[i]),
    ensures
        probe_gate(artifacts, target, probes1, gate) == probe_gate(artifacts, target, probes2, gate),
{
}

proof fn lemma_first_status_same(s1: Seq<VerifyStatus>, s2: Seq<VerifyStatus>, id: Seq<char>)
    requires
        s1.len() == s2.len(),
        forall|i: int| 0 <= i < s1.len() ==> (#[trigger] s1[i]).id@ == s2[i].id@ && s1[i].ready == s2[i].ready,
    ensures
        first_status(s1, id) == first_status(s2, id),
        ready_by_id_spec(s1, id) == ready_by_id_spec(s2, id),
    decreases s1.len(),
{
    if s1.len() > 0 {
        let (t1, t2) = (s1.drop_first(), s2.drop_first());
        assert forall|i: int| 0 <= i < t1.len() implies (#[trigger] t1[i]).id@ == t2[i].id@ && t1[i].ready
            == t2[i].ready by {
            assert(t1[i] == s1[i + 1] && t2[i] == s2[i + 1]);
        }
        lemma_first_status_same(t1, t2, id);
        lemma_first_status(s1, id);
        match first_status(s1, id) {
            Some(k) => {
                if k > 0 {
                    assert(s1[k] == t1[k - 1]);
                }
            },
            None => {},
        }
    }
}

/// A setup status is determined by its inputs: two results that both meet
/// [`derived_status`] for the same catalog, roots, target, probes, chat model
/// and data directory agree field by field. In particular
/// [`build_setup_status`] gives what [`derive_setup_status`] gives for the
/// running platform's catalog and roots with those two directories.
pub proof fn law_derived_status_determines(
    r1: SetupStatus,
    r2: SetupStatus,
    artifacts: Seq<ArtifactDef>,
    binaries_root: Seq<char>,
    models_root: Seq<char>,
    target: HostTarget,
    probes: Seq<ArtifactProbe>,
    chat_model: Seq<char>,
    chat_model_exists: bool,
    data_dir: Seq<char>,
)
    requires
        derived_status(r1, artifacts, binaries_root, models_root, target, probes, chat_model, chat_model_exists, data_dir),
        derived_status(r2, artifacts, binaries_root, models_root, target, probes, chat_model, chat_model_exists, data_dir),
    ensures
        setup_view(r1) == setup_view(r2),
{
    let (roots1, s1) = choose|roots: LayoutRoots, statuses: Seq<VerifyStatus>|
        {
            &&& roots.binaries@ == binaries_root
            &&& roots.models@ == models_root
            &&& statuses.len() == artifacts.len()
            &&& forall|i: int|
                0 <= i < statuses.len() ==> status_view(#[trigger] statuses[i]) == status_spec(
                    artifacts[i],
                    roots,
                    target,
                    probes[i],
                )
            &&& (r1.ready, r1.embed_model_ready, r1.stt_model_ready, r1.stt_vocab_ready, r1.stt_ready)
                == setup_spec(artifacts, statuses, chat_model, chat_model_exists)
            &&& (r1.binaries.llama_ready, r1.binaries.piper_ready, r1.binaries.ort_ready)
                == binaries_spec(statuses)
        };
    let (roots2, s2) = choose|roots: LayoutRoots, statuses: Seq<VerifyStatus>|
        {
            &&& roots.binaries@ == binaries_root
            &&& roots.models@ == models_root
            &&& statuses.len() == artifacts.len()
            &&& forall|i: int|
                0 <= i < statuses.len() ==> status_view(#[trigger] statuses[i]) == status_spec(
                    artifacts[i],
                    roots,
                    target,
                    probes[i],
                )
            &&& (r2.ready, r2.embed_model_ready, r2.stt_model_ready, r2.stt_vocab_ready, r2.stt_ready)
                == setup_spec(artifacts, statuses, chat_model, chat_model_exists)
            &&& (r2.binaries.llama_ready, r2.binaries.piper_ready, r2.binaries.ort_ready)
                == binaries_spec(statuses)
        };
    assert forall|i: int| 0 <= i < s1.len() implies (#[trigger] s1[i]).id@ == s2[i].id@ && s1[i].ready
        == s2[i].ready by {
        assert(status_view(s1[i]) == status_spec(artifacts[i], roots1, target, probes[i]));
        assert(status_view(s2[i]) == status_spec(artifacts[i], roots2, target, probes[i]));
    }
    assert forall|id: Seq<char>| #[trigger] ready_by_id_spec(s1, id) == ready_by_id_spec(s2, id) by {
        lemma_first_status_same(s1, s2, id);
    }
    assert(setup_spec(artifacts, s1, chat_model, chat_model_exists) == setup_spec(
        artifacts,
        s2,
        chat_model,
        chat_model_exists,
    ));
}

} // verus!
