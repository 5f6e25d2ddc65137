use signet::android::{
    data_dir_candidates, default_data_dir, fallback_executable, fallback_executable_dir, missing_daemon_text, pick_data_dir, DirCheck,
    AndroidManager, DaemonBinary, ModelServer, DAEMON_FILE_MODE, DAEMON_STOP_PROBES, MODEL_SERVER_STOP_PROBES,
};
use signet::process::{pid_file_contents, StopStage};

fn names(v: &[&str]) -> Vec<String> {
    v.iter().map(|s| s.to_string()).collect()
}

const DATA: &str = "/data/data/ai.signet.app/files/.agents";

#[test]
fn data_dir_candidates_next_to_exe() {
    let c = data_dir_candidates("/data/app/x/lib/arm64");
    assert_eq!(
        c,
        names(&[
            "/data/app/x/lib/arm64/../../../files/.agents",
            "/data/app/x/lib/arm64/../../files/.agents",
            "/data/app/x/lib/arm64/../files/.agents"
        ])
    );
}

#[test]
fn data_dir_choice_order() {
    let check = |path: &str, exists: bool, resolved: Option<&str>| DirCheck {
        path: path.to_string(),
        exists,
        resolved: resolved.map(|r| r.to_string()),
    };
    let checks = vec![check("/a", false, None), check("/b/../c", true, Some("/c")), check("/d", true, Some("/d"))];
    assert_eq!(pick_data_dir(Some("/custom"), &checks), "/custom");
    assert_eq!(pick_data_dir(Some(""), &checks), "");
    assert_eq!(pick_data_dir(None, &checks), "/c");
    let unresolved = vec![check("/a", false, None), check("/x/../y", true, None)];
    assert_eq!(pick_data_dir(None, &unresolved), "/x/../y");
    assert_eq!(pick_data_dir(None, &vec![check("/a", false, Some("/a"))]), DATA);
    assert_eq!(pick_data_dir(None, &vec![]), DATA);
    assert_eq!(default_data_dir(), DATA);
    assert_eq!(fallback_executable(), "/data/local/tmp/signet");
    assert_eq!(fallback_executable_dir(), "/data/local/tmp");
}

#[test]
fn directories_to_create() {
    let m = AndroidManager;
    assert_eq!(m.ensure_dirs("/d"), names(&["/d/.daemon", "/d/.daemon/logs", "/d/bin", "/d/memory"]));
}

#[test]
fn daemon_binary_existing_plain() {
    let m = AndroidManager;
    match m.extract_daemon("/d", "aarch64-linux-android", true, true, Some("/apk/daemon")) {
        DaemonBinary::Existing(p) => assert_eq!(p, "/d/bin/signet-daemon"),
        _ => panic!("expected the plain binary"),
    }
}

#[test]
fn daemon_binary_existing_named() {
    let m = AndroidManager;
    match m.extract_daemon("/d", "aarch64-linux-android", false, true, None) {
        DaemonBinary::Existing(p) => assert_eq!(p, "/d/bin/signet-daemon-aarch64-linux-android"),
        _ => panic!("expected the named binary"),
    }
}

#[test]
fn daemon_binary_installed_from_bundle() {
    let m = AndroidManager;
    match m.extract_daemon("/d", "t", false, false, Some("/apk/signet-daemon")) {
        DaemonBinary::Install { from, to, dir } => {
            assert_eq!(from, "/apk/signet-daemon");
            assert_eq!(to, "/d/bin/signet-daemon");
            assert_eq!(dir, "/d/bin");
        }
        _ => panic!("expected an install"),
    }
    assert_eq!(DAEMON_FILE_MODE, 0o755);
}

#[test]
fn daemon_binary_missing_message() {
    let m = AndroidManager;
    match m.extract_daemon("/d", "t", false, false, None) {
        DaemonBinary::Missing(msg) => {
            let expected = format!(
                "No daemon binary found at {:?}. Kotlin should have extracted it from APK assets on first launch.",
                std::path::PathBuf::from("/d/bin/signet-daemon")
            );
            assert_eq!(msg, expected);
        }
        _ => panic!("expected a missing binary"),
    }
    assert_eq!(missing_daemon_text("\"p\""), "No daemon binary found at \"p\". Kotlin should have extracted it from APK assets on first launch.");
}

#[test]
fn binary_paths() {
    let m = AndroidManager;
    let (a, b) = m.daemon_binary_paths("/d/", "x86_64");
    assert_eq!(a, "/d/bin/signet-daemon");
    assert_eq!(b, "/d/bin/signet-daemon-x86_64");
}

const LISTING: [&str; 5] = [
    "README.txt",
    ".gguf",
    "Nomic-Embed-Text-v1.5.Q4_K_M.gguf",
    "Qwen2.5-1.5B-Instruct-Q4_0_4_8.gguf",
    "nomic-embed-old.gguf",
];

#[test]
fn find_model_lowercases_names() {
    let m = AndroidManager;
    let l = names(&LISTING);
    assert_eq!(m.find_model("/d", &l, "nomic-embed"), Some("/d/models/Nomic-Embed-Text-v1.5.Q4_K_M.gguf".to_string()));
    assert_eq!(m.find_model("/d", &l, "qwen"), Some("/d/models/Qwen2.5-1.5B-Instruct-Q4_0_4_8.gguf".to_string()));
    assert_eq!(m.find_model("/d", &l, "Qwen"), None);
    assert_eq!(m.find_model("/d", &l, "readme"), None);
    assert_eq!(m.find_model("/d", &names(&[]), "qwen"), None);
}

#[test]
fn pick_model_uses_given_lower_case() {
    let m = AndroidManager;
    let l = names(&["A.gguf", "b.gguf"]);
    let lowered = names(&["zz", "b.gguf"]);
    assert_eq!(m.pick_model("/d", &l, &lowered, "b"), Some("/d/models/b.gguf".to_string()));
    assert_eq!(m.pick_model("/d", &l, &lowered, "a"), None);
}

#[test]
fn find_any_model_first_gguf() {
    let m = AndroidManager;
    assert_eq!(m.find_any_model("/d", &names(&LISTING)), Some("/d/models/Nomic-Embed-Text-v1.5.Q4_K_M.gguf".to_string()));
    assert_eq!(m.find_any_model("/d", &names(&["a.bin", ".gguf"])), None);
}

#[test]
fn llama_command_line() {
    let m = AndroidManager;
    let c = m.spawn_llama_server("/d", "/d/models/m.gguf", 8080, &names(&["--embedding"]), "embed");
    assert_eq!(c.program, "/d/bin/llama-server");
    assert_eq!(c.log_path, "/d/.daemon/logs/llama-server-embed.log");
    assert_eq!(
        c.args,
        names(&[
            "--model", "/d/models/m.gguf", "--host", "127.0.0.1", "--port", "8080", "--ctx-size", "2048", "--threads",
            "4", "--embedding"
        ])
    );
}

#[test]
fn start_llama_servers_plans_both() {
    let m = AndroidManager;
    let plan = m.start_llama_servers("/d", &names(&LISTING));
    assert_eq!(plan.len(), 2);
    assert_eq!(plan[0].server, ModelServer::Embedding);
    assert_eq!(plan[0].command.args[1], "/d/models/Nomic-Embed-Text-v1.5.Q4_K_M.gguf");
    assert_eq!(plan[0].command.args[5], "8080");
    assert_eq!(plan[0].command.args.last().unwrap(), "--embedding");
    assert_eq!(plan[1].server, ModelServer::Extraction);
    assert_eq!(plan[1].command.args[5], "8081");
    assert_eq!(plan[1].command.args.len(), 10);
    assert_eq!(plan[1].command.log_path, "/d/.daemon/logs/llama-server-llm.log");
}

#[test]
fn start_llama_servers_without_models() {
    let m = AndroidManager;
    assert!(m.start_llama_servers("/d", &names(&[])).is_empty());
    let only_qwen = m.start_llama_servers("/d", &names(&["qwen.gguf"]));
    assert_eq!(only_qwen.len(), 1);
    assert_eq!(only_qwen[0].server, ModelServer::Extraction);
}

#[test]
fn daemon_files_and_env() {
    let m = AndroidManager;
    assert_eq!(m.pid_file_path("/d"), "/d/.daemon/pid");
    assert_eq!(m.daemon_log_file("/d"), "/d/.daemon/logs/daemon.log");
    let env = m.daemon_env("/d");
    let expect: Vec<(String, String)> = [
        ("SIGNET_PATH", "/d"),
        ("SIGNET_PORT", "3850"),
        ("SIGNET_HOST", "127.0.0.1"),
        ("SIGNET_BIND", "127.0.0.1"),
        ("RUST_LOG", "info"),
    ]
    .iter()
    .map(|(a, b)| (a.to_string(), b.to_string()))
    .collect();
    assert_eq!(env, expect);
}

#[test]
fn running_after_start_checks_started_pid() {
    let m = AndroidManager;
    let text = pid_file_contents(4321);
    assert_eq!(m.is_running(Some(&text), 4321), Some(4321));
    assert_eq!(m.read_pid_file(Some(&text), 9), 4321);
}

#[test]
fn running_prefers_pid_file() {
    let m = AndroidManager;
    assert_eq!(m.is_running(Some("77\n"), 5), Some(77));
    assert_eq!(m.is_running(Some("garbage"), 5), Some(5));
    assert_eq!(m.is_running(None, 5), Some(5));
    assert_eq!(m.is_running(None, 0), None);
    assert_eq!(m.is_running(Some("0"), 5), None);
}

#[test]
fn stop_after_release_does_nothing() {
    let m = AndroidManager;
    let s = m.stop(None, 0);
    assert_eq!(s.stage, StopStage::Finished { released: false });
    let s = m.stop(Some("123"), 0);
    assert_eq!((s.pid, s.probe_limit, s.escalate), (123, DAEMON_STOP_PROBES, true));
    assert_eq!(s.stage, StopStage::Terminate);
    let l = m.stop_llama_server(9);
    assert_eq!((l.pid, l.probe_limit, l.escalate), (9, MODEL_SERVER_STOP_PROBES, false));
    assert_eq!(MODEL_SERVER_STOP_PROBES, 20);
}
