use signet::android::{AndroidManager, ModelServer};
use signet::startup::{StartAction, StartEvent, StartStage};

fn s(v: &str) -> String {
    v.to_string()
}

#[test]
fn startup_skips_running_daemon() {
    let (st, a) = AndroidManager.start(s("/d"), s("aarch64-linux-android"), 3850);
    assert!(matches!(a, StartAction::CheckRunning));
    let (st, a) = st.advance(StartEvent::Running(true));
    assert!(matches!(st.stage, StartStage::Finished));
    assert!(matches!(a, StartAction::Finish(Ok(()))));
}

#[test]
fn startup_full_sequence_with_bundled_daemon() {
    let (st, _) = AndroidManager.start(s("/d"), s("t"), 4000);
    let (st, a) = st.advance(StartEvent::Running(false));
    match a {
        StartAction::CreateDirs(d) => assert_eq!(d, vec![s("/d/.daemon"), s("/d/.daemon/logs"), s("/d/bin"), s("/d/memory")]),
        _ => panic!("expected directories"),
    }
    let (st, a) = st.advance(StartEvent::Done);
    match a {
        StartAction::ListModels(m) => assert_eq!(m, "/d/models"),
        _ => panic!("expected a listing"),
    }
    let names = vec![s("qwen2.5.gguf"), s("nomic-embed-text.gguf")];
    let (st, a) = st.advance(StartEvent::Listing(names));
    match a {
        StartAction::CheckModelServerBinary { server, program } => {
            assert_eq!(server, ModelServer::Embedding);
            assert_eq!(program, "/d/bin/llama-server");
        }
        _ => panic!("expected the embedding server's program to be checked"),
    }
    let (st, a) = st.advance(StartEvent::Present(true));
    match a {
        StartAction::LaunchModelServer(l) => {
            assert_eq!(l.server, ModelServer::Embedding);
            assert_eq!(l.command.args[1], "/d/models/nomic-embed-text.gguf");
        }
        _ => panic!("expected the embedding server"),
    }
    let (st, a) = st.advance(StartEvent::Done);
    match a {
        StartAction::CheckModelServerBinary { server, .. } => assert_eq!(server, ModelServer::Extraction),
        _ => panic!("expected the extraction server's program to be checked"),
    }
    let (st, a) = st.advance(StartEvent::Present(true));
    match a {
        StartAction::LaunchModelServer(l) => {
            assert_eq!(l.server, ModelServer::Extraction);
            assert_eq!(l.command.args[1], "/d/models/qwen2.5.gguf");
            assert_eq!(l.command.args[5], "8081");
        }
        _ => panic!("expected the extraction server"),
    }
    let (st, a) = st.advance(StartEvent::Done);
    match a {
        StartAction::LocateDaemon { plain, named } => {
            assert_eq!(plain, "/d/bin/signet-daemon");
            assert_eq!(named, "/d/bin/signet-daemon-t");
        }
        _ => panic!("expected the daemon lookup"),
    }
    let (st, a) = st.advance(StartEvent::DaemonFiles { plain_is_file: false, named_is_file: false, bundled: Some(s("/apk/d")) });
    match a {
        StartAction::InstallDaemon { from, to, dir, mode } => {
            assert_eq!((from.as_str(), to.as_str(), dir.as_str(), mode), ("/apk/d", "/d/bin/signet-daemon", "/d/bin", 0o755));
        }
        _ => panic!("expected an install"),
    }
    let (st, a) = st.advance(StartEvent::Done);
    match a {
        StartAction::SpawnDaemon { program, env, log_path } => {
            assert_eq!(program, "/d/bin/signet-daemon");
            assert_eq!(env[0], (s("SIGNET_PATH"), s("/d")));
            assert_eq!(env.len(), 5);
            assert_eq!(log_path, "/d/.daemon/logs/daemon.log");
        }
        _ => panic!("expected a spawn"),
    }
    let (st, a) = st.advance(StartEvent::Spawned(4242));
    match a {
        StartAction::RecordPid { pid, pid_path, contents } => {
            assert_eq!(pid, 4242);
            assert_eq!(pid_path, "/d/.daemon/pid");
            assert_eq!(contents, "4242");
        }
        _ => panic!("expected the pid to be recorded"),
    }
    let (st, a) = st.advance(StartEvent::Done);
    match a {
        StartAction::AwaitDaemon { port, check } => {
            assert_eq!(port, 4000);
            assert_eq!((check.timeout_ms, check.interval_ms), (10_000, 200));
        }
        _ => panic!("expected the health check"),
    }
    let (st, a) = st.advance(StartEvent::Done);
    assert!(matches!(st.stage, StartStage::Finished));
    assert!(matches!(a, StartAction::Finish(Ok(()))));
}

#[test]
fn startup_without_models_uses_existing_binary() {
    let (st, _) = AndroidManager.start(s("/d"), s("t"), 3850);
    let (st, _) = st.advance(StartEvent::Running(false));
    let (st, _) = st.advance(StartEvent::Done);
    let (st, a) = st.advance(StartEvent::Listing(vec![]));
    assert!(matches!(a, StartAction::LocateDaemon { .. }));
    let (_, a) = st.advance(StartEvent::DaemonFiles { plain_is_file: false, named_is_file: true, bundled: None });
    match a {
        StartAction::SpawnDaemon { program, .. } => assert_eq!(program, "/d/bin/signet-daemon-t"),
        _ => panic!("expected a spawn"),
    }
}

#[test]
fn startup_stops_on_missing_daemon() {
    let (st, _) = AndroidManager.start(s("/d"), s("t"), 3850);
    let (st, _) = st.advance(StartEvent::Running(false));
    let (st, _) = st.advance(StartEvent::Done);
    let (st, _) = st.advance(StartEvent::Listing(vec![]));
    let (st, a) = st.advance(StartEvent::DaemonFiles { plain_is_file: false, named_is_file: false, bundled: None });
    assert!(matches!(st.stage, StartStage::Finished));
    match a {
        StartAction::Finish(Err(m)) => assert!(m.starts_with("No daemon binary found at \"/d/bin/signet-daemon\".")),
        _ => panic!("expected an error"),
    }
}

#[test]
fn startup_stops_on_failure() {
    let (st, _) = AndroidManager.start(s("/d"), s("t"), 3850);
    let (st, _) = st.advance(StartEvent::Running(false));
    let (st, a) = st.advance(StartEvent::Failed(s("permission denied")));
    assert!(matches!(st.stage, StartStage::Finished));
    match a {
        StartAction::Finish(Err(m)) => assert_eq!(m, "permission denied"),
        _ => panic!("expected the error"),
    }
}

#[test]
fn startup_spawn_failure() {
    let (st, _) = AndroidManager.start(s("/d"), s("t"), 3850);
    let (st, _) = st.advance(StartEvent::Running(false));
    let (st, _) = st.advance(StartEvent::Done);
    let (st, _) = st.advance(StartEvent::Listing(vec![]));
    let (st, _) = st.advance(StartEvent::DaemonFiles { plain_is_file: true, named_is_file: false, bundled: None });
    let (_, a) = st.advance(StartEvent::Failed(s("exec format error")));
    assert!(matches!(a, StartAction::Finish(Err(ref m)) if m == "exec format error"));
}

#[test]
fn startup_skips_model_servers_without_program() {
    let (st, _) = AndroidManager.start(s("/d"), s("t"), 3850);
    let (st, _) = st.advance(StartEvent::Running(false));
    let (st, _) = st.advance(StartEvent::Done);
    let (st, a) = st.advance(StartEvent::Listing(vec![s("nomic-embed.gguf"), s("qwen.gguf")]));
    assert!(matches!(a, StartAction::CheckModelServerBinary { server: ModelServer::Embedding, .. }));
    let (st, a) = st.advance(StartEvent::Present(false));
    assert!(matches!(a, StartAction::CheckModelServerBinary { server: ModelServer::Extraction, .. }));
    assert!(matches!(st.stage, StartStage::CheckModelServer { .. }));
    let (st, a) = st.advance(StartEvent::Present(false));
    assert!(matches!(st.stage, StartStage::LocateDaemon));
    assert!(matches!(a, StartAction::LocateDaemon { .. }));
}

#[test]
fn model_server_ports_and_labels() {
    assert_eq!(ModelServer::Embedding.port(), 8080);
    assert_eq!(ModelServer::Extraction.port(), 8081);
    assert_eq!(ModelServer::Embedding.label(), "embed");
    assert_eq!(ModelServer::Extraction.label(), "llm");
}
