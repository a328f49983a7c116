use proactive_agent::commands::{
    chat_probe_requests, context_window_setting, diagnosis_header, embed_probe_requests,
    embed_section_heading, installer_error, installer_succeeded, manual_deferred, merge_memories,
    no_pending_error, probe_error_line, probe_url, scheduled_reply, vcredist_dll_names,
    vcredist_targets,
};
use proactive_agent::platform::artifact::FileStat;
use proactive_agent::platform::{CpuArch, HostTarget, PlatformId};
use proactive_agent::sidecar::{
    chat_server_args, data_paths, dev_binaries_dir, embed_server_args, exit_code_description,
    find_sidecar, llama_version_outcome, output_line, pids_to_kill, ports_to_free,
    release_binaries_dir, VersionRun,
};

const LINUX: HostTarget = HostTarget { platform: PlatformId::Linux, arch: CpuArch::X86_64 };

#[test]
fn exit_codes_are_described() {
    assert_eq!(exit_code_description(0), "clean exit");
    assert_eq!(
        exit_code_description(0xC0000135u32 as i32),
        "STATUS_DLL_NOT_FOUND — a required DLL is missing from binaries/"
    );
    assert_eq!(exit_code_description(0xC0000005u32 as i32), "STATUS_ACCESS_VIOLATION — crash/segfault");
    assert_eq!(exit_code_description(1), "unknown");
}

#[test]
fn server_command_lines() {
    assert_eq!(
        chat_server_args("/m/chat.gguf", 18080),
        vec!["--model", "/m/chat.gguf", "--port", "18080", "--host", "127.0.0.1", "--ctx-size", "4096", "-ngl", "999", "--alias", "llama-chat"]
    );
    let e = embed_server_args("/m/e.gguf", 18081);
    assert_eq!(e[3], "18081");
    assert_eq!(e[7], "512");
    assert!(e.contains(&"--embedding".to_string()));
    assert_eq!(e.last().unwrap(), "nomic-embed-text");
}

#[test]
fn binaries_and_data_directories() {
    assert_eq!(dev_binaries_dir("/proj/src-tauri"), "/proj/binaries");
    assert_eq!(dev_binaries_dir("/proj"), "/proj/binaries");
    assert_eq!(
        release_binaries_dir(PlatformId::Linux, Some("/home/u")),
        "/home/u/.local/share/com.proactive.agent/binaries"
    );
    assert_eq!(
        release_binaries_dir(PlatformId::Macos, Some("/Users/u")),
        "/Users/u/Library/Application Support/com.proactive.agent/binaries"
    );
    assert_eq!(release_binaries_dir(PlatformId::Windows, None), "com.proactive.agent/binaries");
    assert_eq!(
        data_paths(true, "/proj/src-tauri", "/data"),
        ("/proj/models".to_string(), "/proj/data/memory".to_string())
    );
    assert_eq!(data_paths(false, "/x", "/data"), ("/data/models".to_string(), "/data/memory".to_string()));
}

#[test]
fn sidecar_search_falls_back_to_exe_dir() {
    let no = FileStat { exists: false, is_file: false, len: 0, mode: 0 };
    let yes = FileStat { exists: true, is_file: true, len: 700, mode: 0o755 };
    let stats = vec![no, no, no, yes, no, no];
    assert_eq!(
        find_sidecar("/b", Some("/opt/app"), "parakeet-server", LINUX, &stats),
        Some("/opt/app/parakeet/parakeet-server-x86_64-unknown-linux-gnu".to_string())
    );
    assert_eq!(find_sidecar("/b", None, "parakeet-server", LINUX, &vec![no, no, no]), None);
}

#[test]
fn process_housekeeping() {
    assert_eq!(output_line("llama (chat)", "  loaded  \n"), Some("llama (chat): loaded".to_string()));
    assert_eq!(output_line("x", "   "), None);
    assert_eq!(pids_to_kill(&vec![5, 0, 7, 5], Some(7)), vec![5, 7]);
    assert_eq!(pids_to_kill(&vec![5], Some(9)), vec![5, 9]);
    assert_eq!(ports_to_free(None), (18080, 18081));
    assert_eq!(ports_to_free(Some((1, 2))), (1, 2));
}

#[test]
fn llama_version_check_outcomes() {
    let ok = llama_version_outcome(VersionRun::Exited {
        code: Some(0),
        success: true,
        stdout: "  version: 1234 (abc)\r\nbuilt with cc\n".into(),
        stderr: String::new(),
    });
    assert_eq!(ok, (true, "OK — version: 1234 (abc)".to_string()));
    let quiet = llama_version_outcome(VersionRun::Exited { code: Some(0), success: true, stdout: " ".into(), stderr: "".into() });
    assert_eq!(quiet, (true, "OK — ready".to_string()));
    let dll = llama_version_outcome(VersionRun::Exited { code: Some(0xC0000135u32 as i32), success: false, stdout: String::new(), stderr: String::new() });
    assert_eq!(dll, (false, "DLL not found — re-run: npm run setup".to_string()));
    let other = llama_version_outcome(VersionRun::Exited { code: Some(-1), success: false, stdout: String::new(), stderr: String::new() });
    assert_eq!(other, (false, "exited with code 0xFFFFFFFF".to_string()));
    let other = llama_version_outcome(VersionRun::Exited { code: Some(3), success: false, stdout: String::new(), stderr: String::new() });
    assert_eq!(other.1, format!("exited with code {:#X}", 3));
    assert_eq!(llama_version_outcome(VersionRun::LaunchFailed("nope".into())), (false, "failed to launch: nope".to_string()));
    assert!(llama_version_outcome(VersionRun::TimedOut).0);
}

#[test]
fn manual_followups_for_testing() {
    let d = manual_deferred("ping", None, "id".to_string(), 1_000).unwrap();
    assert_eq!(d.fire_at, 61_000);
    assert_eq!(d.trigger, "manual_test");
    assert_eq!(manual_deferred("ping", Some(0), "id".to_string(), 5).unwrap().fire_at, 5);
    assert!(manual_deferred("ping", Some(i64::MIN), "id".to_string(), 5).is_none());
    assert_eq!(scheduled_reply(-2), "scheduled in -2 min — use 'Fire Now' in Scheduler panel or set after_minutes=0");
    assert_eq!(no_pending_error("x1"), "no pending message with id x1");
}

#[test]
fn command_helpers() {
    assert_eq!(merge_memories(vec!["a".into()], vec!["b".into(), "c".into()]), vec!["a", "b", "c"]);
    assert_eq!(context_window_setting(100), 512);
    assert_eq!(context_window_setting(8192), 8192);
    assert!(installer_succeeded(Some(0)));
    assert!(installer_succeeded(Some(3010)));
    assert!(!installer_succeeded(Some(1603)));
    assert!(!installer_succeeded(None));
    assert_eq!(installer_error(Some(1603)), "installer exited with code Some(1603)");
    assert_eq!(installer_error(None), "installer exited with code None");
    assert_eq!(vcredist_dll_names().len(), 5);
    assert_eq!(vcredist_targets("C:/b"), vec!["C:/b/llama", "C:/b/whisper", "C:/b"]);
    assert_eq!(chat_probe_requests().len(), 7);
    assert_eq!(embed_probe_requests()[4].path, "/v1/embeddings");
    assert_eq!(probe_url(18080, "/health"), "http://127.0.0.1:18080/health");
    assert_eq!(
        diagnosis_header(Some(42), 18080, "none"),
        "our chat child PID: Some(42)\nchat port: 18080\n\nPort 18080 owner (with process name):\nnone\n"
    );
    assert_eq!(embed_section_heading(18081), "\n\n── PORT 18081 (embed server) ──");
    assert_eq!(probe_error_line("GET", "/x", "boom"), "\nGET /x → ERROR: boom\n");
}
