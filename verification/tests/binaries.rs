use proactive_agent::binary_store::{
    catalog_github, classify_tar_piper_entry, classify_zip_piper_entry, done_event,
    download_plan, entry_matches, extract_names, find_asset, ort_archive_label, soname_links,
    strip_to_component, tar_lib_target, zip_dll_target, PiperEntry, ReleaseAsset,
};
use proactive_agent::platform::{CpuArch, HostTarget, PlatformId};

const LINUX: HostTarget = HostTarget { platform: PlatformId::Linux, arch: CpuArch::X86_64 };

fn asset(name: &str, url: &str) -> ReleaseAsset {
    ReleaseAsset { name: Some(name.to_string()), browser_download_url: Some(url.to_string()) }
}

#[test]
fn github_sources_come_from_the_catalog() {
    let (repo, _pattern) = catalog_github(LINUX, "llama-server").unwrap();
    assert!(repo.contains("llama.cpp"));
    assert!(catalog_github(LINUX, "embed-model").is_none());
    assert!(catalog_github(LINUX, "no-such-artifact").is_none());
}

#[test]
fn find_asset_prefers_cpu_builds() {
    let assets = Some(vec![
        asset("onnxruntime-linux-x64-gpu-1.23.tgz", "gpu-url"),
        asset("onnxruntime-linux-x64-1.23.tgz", "cpu-url"),
    ]);
    assert_eq!(find_asset(&assets, "onnxruntime-linux-x64-"), Some("cpu-url".to_string()));
    let only_gpu = Some(vec![asset("x-CUDA-1.zip", "cuda-url"), asset("x-gpu-2.zip", "gpu2")]);
    assert_eq!(find_asset(&only_gpu, "x-"), Some("cuda-url".to_string()));
    assert_eq!(find_asset(&None, "x"), None);
    let nameless = Some(vec![ReleaseAsset { name: None, browser_download_url: None }, asset("x-1", "u")]);
    assert_eq!(find_asset(&nameless, "x-"), None);
    assert_eq!(find_asset(&Some(vec![asset("other", "u")]), "x-"), None);
}

#[test]
fn strip_to_component_keeps_original_case() {
    assert_eq!(
        strip_to_component("piper/Espeak-NG-Data/en_dict", "espeak-ng-data"),
        Some("Espeak-NG-Data/en_dict".to_string())
    );
    assert_eq!(strip_to_component("foo/bar", "espeak-ng-data"), None);
}

#[test]
fn soname_links_for_versioned_libraries() {
    assert_eq!(
        soname_links("libonnxruntime.so.1.23.2"),
        Some(("libonnxruntime.so.1".to_string(), "libonnxruntime.so".to_string()))
    );
    assert_eq!(soname_links("libfoo.so.7"), Some(("libfoo.so.7".to_string(), "libfoo.so".to_string())));
    assert_eq!(soname_links("libfoo.so"), None);
    assert_eq!(soname_links("foo.so.1"), None);
}

#[test]
fn archive_entries_are_selected_by_name() {
    assert_eq!(zip_dll_target("bin/ggml-vulkan.DLL", Some("GGML-VULKAN")), Some("ggml-vulkan.DLL".to_string()));
    assert_eq!(zip_dll_target("bin/llama.dll", Some("ggml-vulkan")), None);
    assert_eq!(zip_dll_target("bin/llama.dll", None), Some("llama.dll".to_string()));
    assert_eq!(zip_dll_target("bin/readme.txt", None), None);
    assert!(entry_matches("build/bin/LLAMA-SERVER.exe", "llama-server.exe"));
    assert!(!entry_matches("build/bin/llama-cli", "llama-server"));
    assert_eq!(tar_lib_target("build/lib/libggml-vulkan.so", false, Some("libggml-vulkan")), Some("libggml-vulkan.so".to_string()));
    assert_eq!(tar_lib_target("build/lib/libllama.so", false, Some("libggml-vulkan")), None);
    assert_eq!(tar_lib_target("build/lib/", true, None), None);
    assert_eq!(tar_lib_target("build/lib/libllama.so.1", false, None), Some("libllama.so.1".to_string()));
}

#[test]
fn piper_archive_entries_are_classified() {
    assert!(matches!(classify_zip_piper_entry("piper/piper.exe", false, "piper.exe"), PiperEntry::Executable));
    assert!(matches!(classify_zip_piper_entry("piper/onnxruntime.dll", false, "piper.exe"), PiperEntry::Library(f) if f == "onnxruntime.dll"));
    assert!(matches!(classify_zip_piper_entry("piper/espeak-ng-data/en_dict", false, "piper.exe"), PiperEntry::VoiceData(p) if p == "espeak-ng-data/en_dict"));
    assert!(matches!(classify_zip_piper_entry("piper/espeak-ng-data/", true, "piper.exe"), PiperEntry::Skip));
    assert!(matches!(classify_tar_piper_entry("piper/piper", "piper"), PiperEntry::Executable));
    assert!(matches!(classify_tar_piper_entry("piper", "piper"), PiperEntry::Executable));
    assert!(matches!(classify_tar_piper_entry("piper/espeak-ng-data/voices/x", "piper"), PiperEntry::VoiceData(p) if p == "espeak-ng-data/voices/x"));
    assert!(matches!(classify_tar_piper_entry("piper/libpiper_phonemize.so.1", "piper"), PiperEntry::Skip));
}

#[test]
fn extraction_names_and_labels() {
    let n = extract_names(LINUX);
    assert_eq!(n.triple, "x86_64-unknown-linux-gnu");
    assert!(n.llama_is_targz);
    let w = extract_names(HostTarget { platform: PlatformId::Windows, arch: CpuArch::X86_64 });
    assert_eq!(w.piper_exe, "piper.exe");
    assert!(!w.piper_is_targz);
    assert_eq!(ort_archive_label("https://x/onnxruntime-win-x64-1.23.zip"), "onnxruntime.zip");
    assert_eq!(ort_archive_label("https://x/onnxruntime-linux-x64-1.23.tgz"), "onnxruntime.tgz");
    let e = done_event("piper", "already present");
    assert_eq!(e.filename, "piper — already present");
    assert!(e.done);
    let plan = download_plan(true, false, false);
    assert!(!plan.llama && plan.piper && plan.ort);
}
