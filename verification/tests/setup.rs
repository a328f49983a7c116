use proactive_agent::binary_store::check_binaries;
use proactive_agent::platform::artifact::{
    find_artifact, project_catalog, verify_catalog, ArtifactDef, ArtifactProbe, DirEntryFact,
    FileStat, LayoutRoots, VerifyRule,
};
use proactive_agent::platform::{
    all_modules, current_module, sidecar_filename, CpuArch, HostTarget, PlatformId,
};
use proactive_agent::setup::prerequisites::{
    evaluate_prerequisites, report_from_live, PrerequisiteInputs, PrerequisiteStatus, SystemDeps,
};
use proactive_agent::setup::status::{
    build_setup_status, derive_setup_status, embed_model_ready_in, find_sidecar_in,
    ort_lib_ready_in, sidecar_candidate_paths, stt_file_paths, stt_model_ready_in,
    stt_vocab_ready_in,
};

const LINUX: HostTarget = HostTarget { platform: PlatformId::Linux, arch: CpuArch::X86_64 };

fn missing() -> FileStat {
    FileStat { exists: false, is_file: false, len: 0, mode: 0 }
}

fn executable(len: u64) -> FileStat {
    FileStat { exists: true, is_file: true, len, mode: 0o755 }
}

/// Probes as if exactly the artifacts in `present` were installed.
fn probes(catalog: &[ArtifactDef], present: &[&str]) -> Vec<ArtifactProbe> {
    catalog
        .iter()
        .map(|a| {
            let here = present.contains(&a.id);
            let listing = if here && a.verify == VerifyRule::SharedLibPresent {
                vec![DirEntryFact { name: "libonnxruntime.so.1".to_string(), is_file: true }]
            } else {
                Vec::new()
            };
            ArtifactProbe {
                nested_exists: here,
                alt_exists: false,
                stat: if here { executable(64) } else { missing() },
                listing,
            }
        })
        .collect()
}

// ── platform modules ─────────────────────────────────────────────────────────

#[test]
fn guest_modules_register_without_host_side_effects() {
    let modules = all_modules();
    assert_eq!(modules.len(), 3);
    for m in modules {
        let _ = m.artifacts(CpuArch::X86_64);
        assert!(!m.id().as_str().is_empty());
    }
}

#[test]
fn current_module_matches_compile_target() {
    for p in [PlatformId::Linux, PlatformId::Windows, PlatformId::Macos] {
        assert_eq!(current_module(p).id(), p);
    }
}

#[test]
fn platform_wizard_catalog_stays_default_voice_only() {
    let curated_extras = [
        "en_US-joe-medium",
        "en_US-kristin-medium",
        "en_US-bryce-medium",
        "en_US-sam-medium",
        "en_GB-cori-medium",
    ];
    for module in all_modules() {
        for arch in [CpuArch::X86_64, CpuArch::Aarch64] {
            for def in module.artifacts(arch) {
                for extra in curated_extras {
                    assert!(
                        !def.id.contains(extra) && !def.filename.contains(extra),
                        "{} artifact {} / {} must not be a curated extra wizard step",
                        module.id().as_str(),
                        def.id,
                        def.filename
                    );
                }
            }
            for def in module.artifacts(arch).iter().filter(|d| d.id == "tts-voice") {
                assert_eq!(
                    def.filename,
                    proactive_agent::constants::TTS_MODEL_FILE,
                    "wizard TTS voice must remain the default lessac onnx"
                );
            }
        }
    }
}

#[test]
fn sidecar_names_follow_target_triple() {
    assert_eq!(sidecar_filename(LINUX, "llama-server"), "llama-server-x86_64-unknown-linux-gnu");
    let win = HostTarget { platform: PlatformId::Windows, arch: CpuArch::X86_64 };
    assert_eq!(sidecar_filename(win, "piper"), "piper-x86_64-pc-windows-msvc.exe");
    let mac = HostTarget { platform: PlatformId::Macos, arch: CpuArch::Aarch64 };
    assert_eq!(sidecar_filename(mac, "piper"), "piper-aarch64-apple-darwin");
}

#[test]
fn linux_catalog_verify_llama_and_stt_against_fixtures() {
    let catalog = PlatformId::Linux.artifacts(CpuArch::X86_64);
    let roots = LayoutRoots { binaries: "/r/binaries".to_string(), models: "/r/models".to_string() };
    let p = probes(&catalog, &["llama-server", "embed-model", "stt-encoder"]);
    let statuses = verify_catalog(&catalog, &roots, LINUX, &p);
    let by_id = |id: &str| statuses.iter().find(|s| s.id == id).unwrap();
    assert!(by_id("llama-server").ready);
    assert_eq!(by_id("llama-server").path, "/r/binaries/llama/llama-server-x86_64-unknown-linux-gnu");
    assert!(!by_id("piper").ready);
    assert!(by_id("embed-model").ready);
    assert_eq!(by_id("embed-model").path, "/r/models/nomic-embed-text-v1.5.Q8_0.gguf");
    assert!(by_id("stt-encoder").ready);
    assert!(!by_id("stt-decoder").ready);
    assert!(statuses.iter().all(|s| s.id != "parakeet-server"));
}

#[test]
fn same_definition_same_ready_answer() {
    let catalog = PlatformId::Linux.artifacts(CpuArch::X86_64);
    let roots = LayoutRoots { binaries: "/b".to_string(), models: "/m".to_string() };
    let a = verify_catalog(&catalog, &roots, LINUX, &probes(&catalog, &["piper"]));
    let b = verify_catalog(&catalog, &roots, LINUX, &probes(&catalog, &["piper"]));
    assert_eq!(a, b);
}

#[test]
fn catalog_projection_keeps_order_and_fields() {
    let catalog = PlatformId::Linux.artifacts(CpuArch::X86_64);
    let projection = project_catalog("linux", &catalog);
    assert_eq!(projection.platform, "linux");
    assert_eq!(projection.artifacts.len(), catalog.len());
    for (p, a) in projection.artifacts.iter().zip(catalog.iter()) {
        assert_eq!(p.id, a.id);
        assert_eq!(p.filename, a.filename);
        assert_eq!(p.required_for_core, a.required_for_core);
    }
    assert_eq!(find_artifact(&catalog, "llama-server"), Some(0));
    assert_eq!(find_artifact(&catalog, "nope"), None);
}

// ── setup status ─────────────────────────────────────────────────────────────

#[test]
fn host_catalog_stt_ready_means_encoder_decoder_vocab_and_ort() {
    let catalog = PlatformId::Linux.artifacts(CpuArch::X86_64);
    let roots = LayoutRoots { binaries: "/b".to_string(), models: "/m".to_string() };
    let all = ["llama-server", "stt-encoder", "stt-decoder", "stt-vocab", "onnxruntime"];
    let status = derive_setup_status(&catalog, &roots, LINUX, &probes(&catalog, &all), "/m/chat.gguf", true, "/d".to_string());
    assert!(status.ready);
    assert!(status.stt_model_ready);
    assert!(status.stt_vocab_ready);
    assert!(status.binaries.ort_ready);
    assert!(status.stt_ready);
    assert!(!status.binaries.piper_ready, "piper stays out of Core gate");
    assert_eq!(status.chat_model, "/m/chat.gguf");
    assert_eq!(status.data_dir, "/d");

    let no_vocab = ["llama-server", "stt-encoder", "stt-decoder", "onnxruntime"];
    let status = derive_setup_status(&catalog, &roots, LINUX, &probes(&catalog, &no_vocab), "/m/chat.gguf", true, "/d".to_string());
    assert!(status.ready);
    assert!(!status.stt_ready);
}

#[test]
fn derived_core_requires_chat_model_even_when_catalog_core_ready() {
    let catalog = PlatformId::Linux.artifacts(CpuArch::X86_64);
    let roots = LayoutRoots { binaries: "/b".to_string(), models: "/m".to_string() };
    let p = probes(&catalog, &["llama-server"]);
    assert!(!derive_setup_status(&catalog, &roots, LINUX, &p, "", true, String::new()).ready);
    assert!(!derive_setup_status(&catalog, &roots, LINUX, &p, "/m/gone.gguf", false, String::new()).ready);
}

#[test]
fn host_catalog_non_required_rows_do_not_gate_core() {
    let catalog = PlatformId::Linux.artifacts(CpuArch::X86_64);
    let roots = LayoutRoots { binaries: "/b".to_string(), models: "/m".to_string() };
    let status = derive_setup_status(&catalog, &roots, LINUX, &probes(&catalog, &["llama-server"]), "/m/c.gguf", true, String::new());
    assert!(status.ready);
    assert!(!status.stt_ready);
    assert!(!status.binaries.piper_ready);
    assert!(!status.embed_model_ready);
}

#[test]
fn guest_catalogs_use_same_derivation_pattern() {
    let roots = LayoutRoots { binaries: "/b".to_string(), models: "/m".to_string() };
    for target in [
        HostTarget { platform: PlatformId::Windows, arch: CpuArch::X86_64 },
        HostTarget { platform: PlatformId::Macos, arch: CpuArch::Aarch64 },
    ] {
        let catalog = target.platform.artifacts(target.arch);
        let status = derive_setup_status(&catalog, &roots, target, &probes(&catalog, &[]), "", false, String::new());
        assert!(!status.ready);
        assert!(!status.stt_ready);
    }
}

#[test]
fn fixture_reports_piper_when_present_without_changing_gate() {
    let catalog = PlatformId::Linux.artifacts(CpuArch::X86_64);
    let status = build_setup_status("/m/c.gguf", true, "/m", "/b", String::new(), LINUX, &probes(&catalog, &["llama-server", "piper"]));
    assert!(status.ready);
    assert!(status.binaries.piper_ready);
    let status = build_setup_status("/m/c.gguf", true, "/m", "/b", String::new(), LINUX, &probes(&catalog, &[]));
    assert!(!status.ready);
    assert!(!status.binaries.llama_ready);
}

#[test]
fn fixture_stt_not_ready_without_ort_even_with_model_files() {
    let catalog = PlatformId::Linux.artifacts(CpuArch::X86_64);
    let p = probes(&catalog, &["llama-server", "stt-encoder", "stt-decoder", "stt-vocab"]);
    let status = build_setup_status("/m/c.gguf", true, "/m", "/b", String::new(), LINUX, &p);
    assert!(status.ready);
    assert!(status.stt_model_ready);
    assert!(status.stt_vocab_ready);
    assert!(!status.binaries.ort_ready);
    assert!(!status.stt_ready);
}

#[test]
fn check_binaries_reads_catalog_rows() {
    let catalog = PlatformId::Linux.artifacts(CpuArch::X86_64);
    let b = check_binaries("/b", LINUX, &probes(&catalog, &["llama-server", "onnxruntime"]));
    assert!(b.llama_ready);
    assert!(!b.piper_ready);
    assert!(b.ort_ready);
    assert!(b.ort_note.contains("binaries/ort/"));
}

#[test]
fn sidecar_lookup_tries_short_then_full_then_flat() {
    let paths = sidecar_candidate_paths("/b", "llama-server", LINUX);
    assert_eq!(
        paths,
        vec![
            "/b/llama/llama-server-x86_64-unknown-linux-gnu",
            "/b/llama-server/llama-server-x86_64-unknown-linux-gnu",
            "/b/llama-server-x86_64-unknown-linux-gnu",
        ]
    );
    let stub = FileStat { exists: true, is_file: true, len: 16, mode: 0o755 };
    let not_exec = FileStat { exists: true, is_file: true, len: 4096, mode: 0o644 };
    assert_eq!(
        find_sidecar_in("/b", "llama-server", LINUX, &vec![stub, not_exec, executable(700)]),
        Some("/b/llama-server-x86_64-unknown-linux-gnu".to_string())
    );
    assert_eq!(find_sidecar_in("/b", "parakeet-server", LINUX, &vec![missing(), missing(), missing()]), None);
    let win = HostTarget { platform: PlatformId::Windows, arch: CpuArch::X86_64 };
    let small = FileStat { exists: true, is_file: true, len: 1000, mode: 0 };
    assert_eq!(find_sidecar_in("C:/b", "piper", win, &vec![small, executable(2048), missing()]),
        Some("C:/b/piper/piper-x86_64-pc-windows-msvc.exe".to_string()));
}

#[test]
fn stt_and_ort_checks_read_observed_files() {
    let (enc, dec, vocab) = stt_file_paths("/b");
    assert_eq!(enc, "/b/parakeet/models/encoder-model.int8.onnx");
    assert_eq!(dec, "/b/parakeet/models/decoder_joint-model.int8.onnx");
    assert_eq!(vocab, "/b/parakeet/models/vocab.txt");
    let f = executable(10);
    assert!(stt_model_ready_in(&f, &f));
    assert!(!stt_model_ready_in(&f, &missing()));
    assert!(stt_vocab_ready_in(&f));
    assert!(embed_model_ready_in(&f));
    assert!(!embed_model_ready_in(&missing()));
    let e = |n: &str| DirEntryFact { name: n.to_string(), is_file: true };
    assert!(ort_lib_ready_in(&vec![e("libonnxruntime.so.1.23.2")]));
    assert!(ort_lib_ready_in(&vec![e("onnxruntime.dll")]));
    assert!(ort_lib_ready_in(&vec![e("libonnxruntime.dylib")]));
    assert!(!ort_lib_ready_in(&vec![e("README.txt")]));
    assert!(!ort_lib_ready_in(&vec![DirEntryFact { name: "lib.so".to_string(), is_file: false }]));
    assert!(!ort_lib_ready_in(&Vec::new()));
}

// ── prerequisites ────────────────────────────────────────────────────────────

#[test]
fn linux_hides_vcredist_row_and_suggests_vulkan() {
    let report = evaluate_prerequisites(&PrerequisiteInputs {
        platform: "linux".into(),
        vcredist_present: false,
        vulkan_ok: false,
        llama_server_ok: true,
        llama_server_msg: "ok".into(),
    });
    assert!(report.checks.iter().all(|c| c.id != "vcredist"));
    let vulkan = report.checks.iter().find(|c| c.id == "vulkan").unwrap();
    assert_eq!(vulkan.status, PrerequisiteStatus::Missing);
    assert!(vulkan.guidance.as_ref().unwrap().contains("mesa-vulkan-drivers"));
    assert!(vulkan.install_helper_exception.is_none());
}

#[test]
fn windows_vcredist_missing_includes_guidance_and_exception_note() {
    let report = evaluate_prerequisites(&PrerequisiteInputs {
        platform: "windows".into(),
        vcredist_present: false,
        vulkan_ok: true,
        llama_server_ok: false,
        llama_server_msg: "DLL not found".into(),
    });
    let vc = report.checks.iter().find(|c| c.id == "vcredist").unwrap();
    assert_eq!(vc.status, PrerequisiteStatus::Missing);
    assert!(vc.guidance.is_some());
    assert!(vc.install_helper_exception.is_some());
}

#[test]
fn macos_does_not_surface_vcredist_failure() {
    let report = evaluate_prerequisites(&PrerequisiteInputs {
        platform: "macos".into(),
        vcredist_present: false,
        vulkan_ok: true,
        llama_server_ok: true,
        llama_server_msg: "ok".into(),
    });
    assert!(report.checks.iter().all(|c| c.id != "vcredist"));
    assert!(report.checks.iter().all(|c| c.status == PrerequisiteStatus::Satisfied));
}

#[test]
fn windows_vcredist_present_but_llama_failing_is_degraded() {
    let report = report_from_live("windows", true, true, false, "DLL version mismatch".to_string());
    let vc = report.checks.iter().find(|c| c.id == "vcredist").unwrap();
    assert_eq!(vc.status, PrerequisiteStatus::Degraded);
    let llama = report.checks.iter().find(|c| c.id == "llama_server").unwrap();
    assert_eq!(llama.status, PrerequisiteStatus::Missing);
    let deps = SystemDeps::from_report(report, "DLL version mismatch".to_string());
    assert!(!deps.vcredist_ok);
    assert!(deps.vulkan_ok);
    assert!(!deps.llama_server_ok);
    assert_eq!(deps.platform, "windows");
}

#[test]
fn legacy_summary_treats_absent_vcredist_row_as_fine() {
    let report = report_from_live("linux", false, true, true, "ok".to_string());
    let deps = SystemDeps::from_report(report, "ok".to_string());
    assert!(deps.vcredist_ok);
    assert!(deps.vulkan_ok);
    assert!(deps.llama_server_ok);
    assert_eq!(deps.prerequisites.len(), 2);
}
