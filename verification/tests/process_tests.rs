use signet::process::{
    daemon_health, model_server_health, pid_file_contents, read_pid_text, signal_target, HealthCheck, HealthVerdict, Shutdown,
    Signal, StopAction, StopStage,
};

#[test]
fn signal_target_wraps_like_as() {
    for p in [0u32, 1, 4242, 0x7fff_ffff, 0x8000_0000, 0xffff_fffe, 0xffff_ffff] {
        assert_eq!(signal_target(p), p as i32);
    }
    assert_eq!(signal_target(0xffff_ffff), -1);
}

#[test]
fn pid_file_round_trip() {
    for p in [0u32, 1, 31337, 4294967295] {
        let text = pid_file_contents(p);
        assert_eq!(text, p.to_string());
        assert_eq!(read_pid_text(&text), Some(p));
    }
}

#[test]
fn pid_file_tolerates_white_space() {
    assert_eq!(read_pid_text(" 1234\n"), Some(1234));
    assert_eq!(read_pid_text("\t+77 "), Some(77));
    assert_eq!(read_pid_text("12 34"), None);
    assert_eq!(read_pid_text(""), None);
    assert_eq!(read_pid_text("-1"), None);
    assert_eq!(read_pid_text("4294967296"), None);
}

/// Runs a shutdown against a process that dies after `lives` checks found it alive
/// (`None`: never), and returns the actions taken.
fn run(mut s: Shutdown, lives: Option<u32>) -> Vec<StopAction> {
    let mut seen = 0u32;
    let mut out = Vec::new();
    loop {
        let a = s.action();
        out.push(a);
        let alive = match a {
            StopAction::Probe(_) => {
                let alive = lives.map(|l| seen < l).unwrap_or(true);
                if alive {
                    seen += 1;
                }
                alive
            }
            StopAction::Done => break,
            _ => false,
        };
        s = s.advance(alive);
        assert!(out.len() < 200);
    }
    out
}

#[test]
fn shutdown_of_no_process_does_nothing() {
    assert_eq!(run(Shutdown::new(0, 30, true), None), vec![StopAction::Done]);
}

#[test]
fn shutdown_of_quick_exit() {
    let acts = run(Shutdown::new(99, 30, true), Some(0));
    assert_eq!(
        acts,
        vec![
            StopAction::Send(Signal::Terminate, 99),
            StopAction::Probe(99),
            StopAction::Probe(99),
            StopAction::Release,
            StopAction::Done
        ]
    );
}

#[test]
fn daemon_shutdown_escalates() {
    let acts = run(Shutdown::new(99, 30, true), None);
    let probes = acts.iter().filter(|a| matches!(a, StopAction::Probe(_))).count();
    let sleeps = acts.iter().filter(|a| matches!(a, StopAction::Sleep(100))).count();
    assert_eq!(probes, 31);
    assert_eq!(sleeps, 30);
    let n = acts.len();
    assert_eq!(acts[n - 3], StopAction::Send(Signal::Kill, 99));
    assert_eq!(acts[n - 2], StopAction::Release);
    assert_eq!(acts[n - 1], StopAction::Done);
}

#[test]
fn model_server_shutdown_never_kills() {
    let acts = run(Shutdown::new(5, 20, false), None);
    assert!(!acts.contains(&StopAction::Send(Signal::Kill, 5)));
    let probes = acts.iter().filter(|a| matches!(a, StopAction::Probe(_))).count();
    assert_eq!(probes, 20);
    assert_eq!(acts[acts.len() - 2], StopAction::Release);
}

#[test]
fn shutdown_after_some_waiting() {
    let acts = run(Shutdown::new(8, 20, false), Some(2));
    assert_eq!(
        acts,
        vec![
            StopAction::Send(Signal::Terminate, 8),
            StopAction::Probe(8),
            StopAction::Sleep(100),
            StopAction::Probe(8),
            StopAction::Sleep(100),
            StopAction::Probe(8),
            StopAction::Release,
            StopAction::Done
        ]
    );
}

#[test]
fn shutdown_targets_wrapped_pid() {
    let s = Shutdown::new(0xffff_ffff, 1, false);
    assert_eq!(s.action(), StopAction::Send(Signal::Terminate, -1));
}

#[test]
fn finished_shutdown_stays_finished() {
    let s = Shutdown::new(0, 3, true);
    assert_eq!(s.stage, StopStage::Finished { released: false });
    let s = s.advance(true);
    assert_eq!(s.stage, StopStage::Finished { released: false });
}

#[test]
fn health_verdicts() {
    let h = daemon_health();
    assert_eq!((h.timeout_ms, h.interval_ms), (10_000, 200));
    assert_eq!(h.verdict(0, true), HealthVerdict::Passed);
    assert_eq!(h.verdict(10_000, false), HealthVerdict::RetryAfter(200));
    assert_eq!(h.verdict(10_001, true), HealthVerdict::TimedOut);
    assert!(!h.deadline_passed(10_000));
    assert!(h.deadline_passed(10_001));
    let m = model_server_health();
    assert_eq!(m, HealthCheck { timeout_ms: 20_000, interval_ms: 500 });
    assert_eq!(m.verdict(100, false), HealthVerdict::RetryAfter(500));
}
