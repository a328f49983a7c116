//! Guest OS (Windows) Platform module: compile-safe catalog whose fetch
//! patterns match the Windows release assets.

use vstd::prelude::*;

use super::artifact::{ArtifactDef, ArtifactKind, ArtifactRoot, ArtifactSource, VerifyRule};
use super::{CpuArch, PlatformId, PlatformModule};

verus! {

/// Windows app-managed artifacts, in wizard order.
pub open spec fn windows_catalog() -> Seq<ArtifactDef> {
    seq![
        ArtifactDef {
            id: "llama-server",
            kind: ArtifactKind::Sidecar,
            root: ArtifactRoot::Binaries,
            relative_dir: "",
            filename: "llama-server",
            sidecar_name: true,
            source: ArtifactSource::GithubRelease { repo: "ggml-org/llama.cpp", pattern: "bin-win-cpu-x64.zip" },
            verify: VerifyRule::SidecarUsable,
            required_for_core: true,
            required_for_stt: false,
        },
        ArtifactDef {
            id: "llama-vulkan-libs",
            kind: ArtifactKind::Data,
            root: ArtifactRoot::Binaries,
            relative_dir: "llama",
            filename: "ggml-vulkan.dll",
            sidecar_name: false,
            source: ArtifactSource::GithubRelease { repo: "ggml-org/llama.cpp", pattern: "bin-win-vulkan-x64.zip" },
            verify: VerifyRule::SharedLibPresent,
            required_for_core: false,
            required_for_stt: false,
        },
        ArtifactDef {
            id: "piper",
            kind: ArtifactKind::Sidecar,
            root: ArtifactRoot::Binaries,
            relative_dir: "",
            filename: "piper",
            sidecar_name: true,
            source: ArtifactSource::GithubRelease { repo: "rhasspy/piper", pattern: "piper_windows_amd64.zip" },
            verify: VerifyRule::SidecarUsable,
            required_for_core: false,
            required_for_stt: false,
        },
        ArtifactDef {
            id: "embed-model",
            kind: ArtifactKind::Model,
            root: ArtifactRoot::Models,
            relative_dir: "",
            filename: crate::constants::EMBED_MODEL_FILE,
            sidecar_name: false,
            source: ArtifactSource::Url { url: crate::constants::EMBED_MODEL_URL },
            verify: VerifyRule::Exists,
            required_for_core: false,
            required_for_stt: false,
        },
        ArtifactDef {
            id: "stt-encoder",
            kind: ArtifactKind::Model,
            root: ArtifactRoot::Binaries,
            relative_dir: "parakeet/models",
            filename: crate::constants::STT_ENCODER_FILE,
            sidecar_name: false,
            source: ArtifactSource::Url { url: crate::constants::STT_ENCODER_URL },
            verify: VerifyRule::Exists,
            required_for_core: false,
            required_for_stt: true,
        },
        ArtifactDef {
            id: "stt-decoder",
            kind: ArtifactKind::Model,
            root: ArtifactRoot::Binaries,
            relative_dir: "parakeet/models",
            filename: crate::constants::STT_DECODER_FILE,
            sidecar_name: false,
            source: ArtifactSource::Url { url: crate::constants::STT_DECODER_URL },
            verify: VerifyRule::Exists,
            required_for_core: false,
            required_for_stt: true,
        },
        ArtifactDef {
            id: "stt-vocab",
            kind: ArtifactKind::Data,
            root: ArtifactRoot::Binaries,
            relative_dir: "parakeet/models",
            filename: crate::constants::STT_VOCAB_FILE,
            sidecar_name: false,
            source: ArtifactSource::Url { url: crate::constants::STT_VOCAB_URL },
            verify: VerifyRule::Exists,
            required_for_core: false,
            required_for_stt: true,
        },
        ArtifactDef {
            id: "onnxruntime",
            kind: ArtifactKind::Data,
            root: ArtifactRoot::Binaries,
            relative_dir: "ort",
            filename: "onnxruntime.dll",
            sidecar_name: false,
            source: ArtifactSource::GithubRelease { repo: "microsoft/onnxruntime", pattern: "onnxruntime-win-x64-" },
            verify: VerifyRule::SharedLibPresent,
            required_for_core: false,
            required_for_stt: true,
        },
    ]
}

/// The Windows Platform module.
pub struct WindowsPlatform;

/// Windows app-managed artifacts (see [`windows_catalog`]).
pub fn windows_artifacts() -> (r: Vec<ArtifactDef>)
    ensures
        r@ == windows_catalog(),
{
    let mut v: Vec<ArtifactDef> = Vec::new();
    v.push(ArtifactDef {
        id: "llama-server",
        kind: ArtifactKind::Sidecar,
        root: ArtifactRoot::Binaries,
        relative_dir: "",
        filename: "llama-server",
        sidecar_name: true,
        source: ArtifactSource::GithubRelease { repo: "ggml-org/llama.cpp", pattern: "bin-win-cpu-x64.zip" },
        verify: VerifyRule::SidecarUsable,
        required_for_core: true,
        required_for_stt: false,
    });
    v.push(ArtifactDef {
        id: "llama-vulkan-libs",
        kind: ArtifactKind::Data,
        root: ArtifactRoot::Binaries,
        relative_dir: "llama",
        filename: "ggml-vulkan.dll",
        sidecar_name: false,
        source: ArtifactSource::GithubRelease { repo: "ggml-org/llama.cpp", pattern: "bin-win-vulkan-x64.zip" },
        verify: VerifyRule::SharedLibPresent,
        required_for_core: false,
        required_for_stt: false,
    });
    v.push(ArtifactDef {
        id: "piper",
        kind: ArtifactKind::Sidecar,
        root: ArtifactRoot::Binaries,
        relative_dir: "",
        filename: "piper",
        sidecar_name: true,
        source: ArtifactSource::GithubRelease { repo: "rhasspy/piper", pattern: "piper_windows_amd64.zip" },
        verify: VerifyRule::SidecarUsable,
        required_for_core: false,
        required_for_stt: false,
    });
    v.push(ArtifactDef {
        id: "embed-model",
        kind: ArtifactKind::Model,
        root: ArtifactRoot::Models,
        relative_dir: "",
        filename: crate::constants::EMBED_MODEL_FILE,
        sidecar_name: false,
        source: ArtifactSource::Url { url: crate::constants::EMBED_MODEL_URL },
        verify: VerifyRule::Exists,
        required_for_core: false,
        required_for_stt: false,
    });
    v.push(ArtifactDef {
        id: "stt-encoder",
        kind: ArtifactKind::Model,
        root: ArtifactRoot::Binaries,
        relative_dir: "parakeet/models",
        filename: crate::constants::STT_ENCODER_FILE,
        sidecar_name: false,
        source: ArtifactSource::Url { url: crate::constants::STT_ENCODER_URL },
        verify: VerifyRule::Exists,
        required_for_core: false,
        required_for_stt: true,
    });
    v.push(ArtifactDef {
        id: "stt-decoder",
        kind: ArtifactKind::Model,
        root: ArtifactRoot::Binaries,
        relative_dir: "parakeet/models",
        filename: crate::constants::STT_DECODER_FILE,
        sidecar_name: false,
        source: ArtifactSource::Url { url: crate::constants::STT_DECODER_URL },
        verify: VerifyRule::Exists,
        required_for_core: false,
        required_for_stt: true,
    });
    v.push(ArtifactDef {
        id: "stt-vocab",
        kind: ArtifactKind::Data,
        root: ArtifactRoot::Binaries,
        relative_dir: "parakeet/models",
        filename: crate::constants::STT_VOCAB_FILE,
        sidecar_name: false,
        source: ArtifactSource::Url { url: crate::constants::STT_VOCAB_URL },
        verify: VerifyRule::Exists,
        required_for_core: false,
        required_for_stt: true,
    });
    v.push(ArtifactDef {
        id: "onnxruntime",
        kind: ArtifactKind::Data,
        root: ArtifactRoot::Binaries,
        relative_dir: "ort",
        filename: "onnxruntime.dll",
        sidecar_name: false,
        source: ArtifactSource::GithubRelease { repo: "microsoft/onnxruntime", pattern: "onnxruntime-win-x64-" },
        verify: VerifyRule::SharedLibPresent,
        required_for_core: false,
        required_for_stt: true,
    });
    assert(v@ =~= windows_catalog());
    v
}

impl PlatformModule for WindowsPlatform {
    fn id(&self) -> (r: PlatformId)
        ensures
            r == PlatformId::Windows,
    {
        PlatformId::Windows
    }

    fn artifacts(&self, arch: CpuArch) -> (r: Vec<ArtifactDef>)
        ensures
            r@ == windows_catalog(),
    {
        windows_artifacts()
    }
}

} // verus!
