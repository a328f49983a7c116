//! Guest OS (macOS) Platform module: compile-safe catalog; release asset
//! patterns depend on the CPU architecture.

use vstd::prelude::*;

use super::artifact::{ArtifactDef, ArtifactKind, ArtifactRoot, ArtifactSource, VerifyRule};
use super::{CpuArch, PlatformId, PlatformModule};

verus! {

/// macOS app-managed artifacts on Apple silicon, in wizard order.
pub open spec fn macos_catalog_arm64() -> Seq<ArtifactDef> {
    seq![
        ArtifactDef {
            id: "llama-server",
            kind: ArtifactKind::Sidecar,
            root: ArtifactRoot::Binaries,
            relative_dir: "",
            filename: "llama-server",
            sidecar_name: true,
            source: ArtifactSource::GithubRelease { repo: "ggml-org/llama.cpp", pattern: "bin-macos-arm64" },
            verify: VerifyRule::SidecarUsable,
            required_for_core: true,
            required_for_stt: false,
        },
        ArtifactDef {
            id: "piper",
            kind: ArtifactKind::Sidecar,
            root: ArtifactRoot::Binaries,
            relative_dir: "",
            filename: "piper",
            sidecar_name: true,
            source: ArtifactSource::GithubRelease { repo: "rhasspy/piper", pattern: "piper_macos_aarch64.tar.gz" },
            verify: VerifyRule::SidecarUsable,
            required_for_core: false,
            required_for_stt: false,
        },
        ArtifactDef {
            id: "embed-model",
            kind: ArtifactKind::Model,
            root: ArtifactRoot::Models,
            relative_dir: "",
            filename: crate::constants::EMBED_MODEL_FILE,
            sidecar_name: false,
            source: ArtifactSource::Url { url: crate::constants::EMBED_MODEL_URL },
            verify: VerifyRule::Exists,
            required_for_core: false,
            required_for_stt: false,
        },
        ArtifactDef {
            id: "stt-encoder",
            kind: ArtifactKind::Model,
            root: ArtifactRoot::Binaries,
            relative_dir: "parakeet/models",
            filename: crate::constants::STT_ENCODER_FILE,
            sidecar_name: false,
            source: ArtifactSource::Url { url: crate::constants::STT_ENCODER_URL },
            verify: VerifyRule::Exists,
            required_for_core: false,
            required_for_stt: true,
        },
        ArtifactDef {
            id: "stt-decoder",
            kind: ArtifactKind::Model,
            root: ArtifactRoot::Binaries,
            relative_dir: "parakeet/models",
            filename: crate::constants::STT_DECODER_FILE,
            sidecar_name: false,
            source: ArtifactSource::Url { url: crate::constants::STT_DECODER_URL },
            verify: VerifyRule::Exists,
            required_for_core: false,
            required_for_stt: true,
        },
        ArtifactDef {
            id: "stt-vocab",
            kind: ArtifactKind::Data,
            root: ArtifactRoot::Binaries,
            relative_dir: "parakeet/models",
            filename: crate::constants::STT_VOCAB_FILE,
            sidecar_name: false,
            source: ArtifactSource::Url { url: crate::constants::STT_VOCAB_URL },
            verify: VerifyRule::Exists,
            required_for_core: false,
            required_for_stt: true,
        },
        ArtifactDef {
            id: "onnxruntime",
            kind: ArtifactKind::Data,
            root: ArtifactRoot::Binaries,
            relative_dir: "ort",
            filename: "libonnxruntime.dylib",
            sidecar_name: false,
            source: ArtifactSource::GithubRelease { repo: "microsoft/onnxruntime", pattern: "onnxruntime-osx-arm64-" },
            verify: VerifyRule::SharedLibPresent,
            required_for_core: false,
            required_for_stt: true,
        },
    ]
}

/// macOS app-managed artifacts on Intel, in wizard order.
pub open spec fn macos_catalog_x64() -> Seq<ArtifactDef> {
    seq![
        ArtifactDef {
            id: "llama-server",
            kind: ArtifactKind::Sidecar,
            root: ArtifactRoot::Binaries,
            relative_dir: "",
            filename: "llama-server",
            sidecar_name: true,
            source: ArtifactSource::GithubRelease { repo: "ggml-org/llama.cpp", pattern: "bin-macos-x64" },
            verify: VerifyRule::SidecarUsable,
            required_for_core: true,
            required_for_stt: false,
        },
        ArtifactDef {
            id: "piper",
            kind: ArtifactKind::Sidecar,
            root: ArtifactRoot::Binaries,
            relative_dir: "",
            filename: "piper",
            sidecar_name: true,
            source: ArtifactSource::GithubRelease { repo: "rhasspy/piper", pattern: "piper_macos_x86_64.tar.gz" },
            verify: VerifyRule::SidecarUsable,
            required_for_core: false,
            required_for_stt: false,
        },
        ArtifactDef {
            id: "embed-model",
            kind: ArtifactKind::Model,
            root: ArtifactRoot::Models,
            relative_dir: "",
            filename: crate::constants::EMBED_MODEL_FILE,
            sidecar_name: false,
            source: ArtifactSource::Url { url: crate::constants::EMBED_MODEL_URL },
            verify: VerifyRule::Exists,
            required_for_core: false,
            required_for_stt: false,
        },
        ArtifactDef {
            id: "stt-encoder",
            kind: ArtifactKind::Model,
            root: ArtifactRoot::Binaries,
            relative_dir: "parakeet/models",
            filename: crate::constants::STT_ENCODER_FILE,
            sidecar_name: false,
            source: ArtifactSource::Url { url: crate::constants::STT_ENCODER_URL },
            verify: VerifyRule::Exists,
            required_for_core: false,
            required_for_stt: true,
        },
        ArtifactDef {
            id: "stt-decoder",
            kind: ArtifactKind::Model,
            root: ArtifactRoot::Binaries,
            relative_dir: "parakeet/models",
            filename: crate::constants::STT_DECODER_FILE,
            sidecar_name: false,
            source: ArtifactSource::Url { url: crate::constants::STT_DECODER_URL },
            verify: VerifyRule::Exists,
            required_for_core: false,
            required_for_stt: true,
        },
        ArtifactDef {
            id: "stt-vocab",
            kind: ArtifactKind::Data,
            root: ArtifactRoot::Binaries,
            relative_dir: "parakeet/models",
            filename: crate::constants::STT_VOCAB_FILE,
            sidecar_name: false,
            source: ArtifactSource::Url { url: crate::constants::STT_VOCAB_URL },
            verify: VerifyRule::Exists,
            required_for_core: false,
            required_for_stt: true,
        },
        ArtifactDef {
            id: "onnxruntime",
            kind: ArtifactKind::Data,
            root: ArtifactRoot::Binaries,
            relative_dir: "ort",
            filename: "libonnxruntime.dylib",
            sidecar_name: false,
            source: ArtifactSource::GithubRelease { repo: "microsoft/onnxruntime", pattern: "onnxruntime-osx-x86_64-" },
            verify: VerifyRule::SharedLibPresent,
            required_for_core: false,
            required_for_stt: true,
        },
    ]
}

/// macOS catalog for `arch`.
pub open spec fn macos_catalog(arch: CpuArch) -> Seq<ArtifactDef> {
    match arch {
        CpuArch::Aarch64 => macos_catalog_arm64(),
        CpuArch::X86_64 => macos_catalog_x64(),
    }
}

/// The macOS Platform module.
pub struct MacosPlatform;

/// macOS app-managed artifacts for `arch` (see [`macos_catalog`]).
pub fn macos_artifacts(arch: CpuArch) -> (r: Vec<ArtifactDef>)
    ensures
        r@ == macos_catalog(arch),
{
    match arch {
        CpuArch::Aarch64 => {
        let mut v: Vec<ArtifactDef> = Vec::new();
            v.push(ArtifactDef {
                id: "llama-server",
                kind: ArtifactKind::Sidecar,
                root: ArtifactRoot::Binaries,
                relative_dir: "",
                filename: "llama-server",
                sidecar_name: true,
                source: ArtifactSource::GithubRelease { repo: "ggml-org/llama.cpp", pattern: "bin-macos-arm64" },
                verify: VerifyRule::SidecarUsable,
                required_for_core: true,
                required_for_stt: false,
            });
            v.push(ArtifactDef {
                id: "piper",
                kind: ArtifactKind::Sidecar,
                root: ArtifactRoot::Binaries,
                relative_dir: "",
                filename: "piper",
                sidecar_name: true,
                source: ArtifactSource::GithubRelease { repo: "rhasspy/piper", pattern: "piper_macos_aarch64.tar.gz" },
                verify: VerifyRule::SidecarUsable,
                required_for_core: false,
                required_for_stt: false,
            });
            v.push(ArtifactDef {
                id: "embed-model",
                kind: ArtifactKind::Model,
                root: ArtifactRoot::Models,
                relative_dir: "",
                filename: crate::constants::EMBED_MODEL_FILE,
                sidecar_name: false,
                source: ArtifactSource::Url { url: crate::constants::EMBED_MODEL_URL },
                verify: VerifyRule::Exists,
                required_for_core: false,
                required_for_stt: false,
            });
            v.push(ArtifactDef {
                id: "stt-encoder",
                kind: ArtifactKind::Model,
                root: ArtifactRoot::Binaries,
                relative_dir: "parakeet/models",
                filename: crate::constants::STT_ENCODER_FILE,
                sidecar_name: false,
                source: ArtifactSource::Url { url: crate::constants::STT_ENCODER_URL },
                verify: VerifyRule::Exists,
                required_for_core: false,
                required_for_stt: true,
            });
            v.push(ArtifactDef {
                id: "stt-decoder",
                kind: ArtifactKind::Model,
                root: ArtifactRoot::Binaries,
                relative_dir: "parakeet/models",
                filename: crate::constants::STT_DECODER_FILE,
                sidecar_name: false,
                source: ArtifactSource::Url { url: crate::constants::STT_DECODER_URL },
                verify: VerifyRule::Exists,
                required_for_core: false,
                required_for_stt: true,
            });
            v.push(ArtifactDef {
                id: "stt-vocab",
                kind: ArtifactKind::Data,
                root: ArtifactRoot::Binaries,
                relative_dir: "parakeet/models",
                filename: crate::constants::STT_VOCAB_FILE,
                sidecar_name: false,
                source: ArtifactSource::Url { url: crate::constants::STT_VOCAB_URL },
                verify: VerifyRule::Exists,
                required_for_core: false,
                required_for_stt: true,
            });
            v.push(ArtifactDef {
                id: "onnxruntime",
                kind: ArtifactKind::Data,
                root: ArtifactRoot::Binaries,
                relative_dir: "ort",
                filename: "libonnxruntime.dylib",
                sidecar_name: false,
                source: ArtifactSource::GithubRelease { repo: "microsoft/onnxruntime", pattern: "onnxruntime-osx-arm64-" },
                verify: VerifyRule::SharedLibPresent,
                required_for_core: false,
                required_for_stt: true,
            });
            assert(v@ =~= macos_catalog_arm64());
            v
        },
        CpuArch::X86_64 => {
        let mut v: Vec<ArtifactDef> = Vec::new();
            v.push(ArtifactDef {
                id: "llama-server",
                kind: ArtifactKind::Sidecar,
                root: ArtifactRoot::Binaries,
                relative_dir: "",
                filename: "llama-server",
                sidecar_name: true,
                source: ArtifactSource::GithubRelease { repo: "ggml-org/llama.cpp", pattern: "bin-macos-x64" },
                verify: VerifyRule::SidecarUsable,
                required_for_core: true,
                required_for_stt: false,
            });
            v.push(ArtifactDef {
                id: "piper",
                kind: ArtifactKind::Sidecar,
                root: ArtifactRoot::Binaries,
                relative_dir: "",
                filename: "piper",
                sidecar_name: true,
                source: ArtifactSource::GithubRelease { repo: "rhasspy/piper", pattern: "piper_macos_x86_64.tar.gz" },
                verify: VerifyRule::SidecarUsable,
                required_for_core: false,
                required_for_stt: false,
            });
            v.push(ArtifactDef {
                id: "embed-model",
                kind: ArtifactKind::Model,
                root: ArtifactRoot::Models,
                relative_dir: "",
                filename: crate::constants::EMBED_MODEL_FILE,
                sidecar_name: false,
                source: ArtifactSource::Url { url: crate::constants::EMBED_MODEL_URL },
                verify: VerifyRule::Exists,
                required_for_core: false,
                required_for_stt: false,
            });
            v.push(ArtifactDef {
                id: "stt-encoder",
                kind: ArtifactKind::Model,
                root: ArtifactRoot::Binaries,
                relative_dir: "parakeet/models",
                filename: crate::constants::STT_ENCODER_FILE,
                sidecar_name: false,
                source: ArtifactSource::Url { url: crate::constants::STT_ENCODER_URL },
                verify: VerifyRule::Exists,
                required_for_core: false,
                required_for_stt: true,
            });
            v.push(ArtifactDef {
                id: "stt-decoder",
                kind: ArtifactKind::Model,
                root: ArtifactRoot::Binaries,
                relative_dir: "parakeet/models",
                filename: crate::constants::STT_DECODER_FILE,
                sidecar_name: false,
                source: ArtifactSource::Url { url: crate::constants::STT_DECODER_URL },
                verify: VerifyRule::Exists,
                required_for_core: false,
                required_for_stt: true,
            });
            v.push(ArtifactDef {
                id: "stt-vocab",
                kind: ArtifactKind::Data,
                root: ArtifactRoot::Binaries,
                relative_dir: "parakeet/models",
                filename: crate::constants::STT_VOCAB_FILE,
                sidecar_name: false,
                source: ArtifactSource::Url { url: crate::constants::STT_VOCAB_URL },
                verify: VerifyRule::Exists,
                required_for_core: false,
                required_for_stt: true,
            });
            v.push(ArtifactDef {
                id: "onnxruntime",
                kind: ArtifactKind::Data,
                root: ArtifactRoot::Binaries,
                relative_dir: "ort",
                filename: "libonnxruntime.dylib",
                sidecar_name: false,
                source: ArtifactSource::GithubRelease { repo: "microsoft/onnxruntime", pattern: "onnxruntime-osx-x86_64-" },
                verify: VerifyRule::SharedLibPresent,
                required_for_core: false,
                required_for_stt: true,
            });
            assert(v@ =~= macos_catalog_x64());
            v
        },
    }
}

impl PlatformModule for MacosPlatform {
    fn id(&self) -> (r: PlatformId)
        ensures
            r == PlatformId::Macos,
    {
        PlatformId::Macos
    }

    fn artifacts(&self, arch: CpuArch) -> (r: Vec<ArtifactDef>)
        ensures
            r@ == macos_catalog(arch),
    {
        macos_artifacts(arch)
    }
}

} // verus!
