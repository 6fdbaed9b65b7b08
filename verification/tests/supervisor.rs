use pfman::models::{Session, SessionStatus, SessionType};
use pfman::process::{
    clip, diagnostic, marker_text, marker_with_stamp, rule_text, signal_error, CommandLine,
    MarkerKind, MonitoredSession, ProcessError, ProcessManager, StatusUpdate,
};
use pfman::time::Timestamp;

fn rule() -> String {
    "=".repeat(80)
}

fn session(id: u128, kind: SessionType, target: &str, local: u16, remote: Option<u16>) -> Session {
    Session::with_identity(
        id,
        Timestamp { nanos: 1_700_000_000_000_000_000 },
        "demo".to_string(),
        kind,
        target.to_string(),
        local,
        remote,
    )
}

#[test]
fn rule_is_eighty_equals_signs() {
    assert_eq!(rule_text(), rule());
    assert_eq!(rule_text().len(), 80);
}

#[test]
fn started_marker_has_one_trailing_line_feed() {
    let text = marker_with_stamp(MarkerKind::Started, "2024-01-02 03:04:05", 4242);
    let expected = format!(
        "\n{}\nSession Started: 2024-01-02 03:04:05 | PID: 4242\n{}\n",
        rule(),
        rule()
    );
    assert_eq!(text, expected);
}

#[test]
fn stopped_marker_has_two_trailing_line_feeds() {
    let text = marker_with_stamp(MarkerKind::Stopped, "2024-01-02 03:04:05", 7);
    let expected = format!(
        "\n{}\nSession Stopped: 2024-01-02 03:04:05 | PID: 7\n{}\n\n",
        rule(),
        rule()
    );
    assert_eq!(text, expected);
}

#[test]
fn crashed_marker_names_crash_and_exit() {
    let text = marker_with_stamp(MarkerKind::Crashed, "2024-01-02 03:04:05", 0);
    let expected = format!(
        "\n{}\nSession Crashed/Exited: 2024-01-02 03:04:05 | PID: 0\n{}\n\n",
        rule(),
        rule()
    );
    assert_eq!(text, expected);
}

#[test]
fn failed_early_marker_names_early_failure() {
    let text = marker_with_stamp(MarkerKind::FailedEarly, "2024-01-02 03:04:05", 4294967295);
    let expected = format!(
        "\n{}\nSession Failed Early: 2024-01-02 03:04:05 | PID: 4294967295\n{}\n\n",
        rule(),
        rule()
    );
    assert_eq!(text, expected);
}

#[test]
fn marker_spells_the_instant_in_utc() {
    let at = Timestamp { nanos: 1_431_648_000_000_000_000 };
    let text = marker_text(MarkerKind::Started, at, 99);
    assert!(text.contains("Session Started: 2015-05-15 00:00:00 | PID: 99\n"));
    let later = Timestamp { nanos: 1_431_648_000_000_000_000 + 86_399_999_999_999 };
    assert!(marker_text(MarkerKind::Stopped, later, 1).contains("2015-05-15 23:59:59 |"));
}

#[test]
fn diagnostic_of_empty_log_is_the_fallback() {
    assert_eq!(diagnostic(Some(""), MarkerKind::Crashed), "Process terminated");
    assert_eq!(
        diagnostic(Some(""), MarkerKind::FailedEarly),
        "Process exited shortly after start"
    );
}

#[test]
fn diagnostic_of_unreadable_log_is_the_fallback() {
    assert_eq!(diagnostic(None, MarkerKind::Crashed), "Process terminated");
    assert_eq!(diagnostic(None, MarkerKind::FailedEarly), "Process exited shortly after start");
}

#[test]
fn diagnostic_joins_the_last_three_lines() {
    assert_eq!(diagnostic(Some("a\nb\nc\nd\n"), MarkerKind::Crashed), "b c d");
    assert_eq!(diagnostic(Some("one\ntwo"), MarkerKind::Crashed), "one two");
    assert_eq!(diagnostic(Some("only"), MarkerKind::FailedEarly), "only");
    assert_eq!(diagnostic(Some("x\r\ny\r\nz\r\n"), MarkerKind::Crashed), "x y z");
    assert_eq!(diagnostic(Some("a\n\n\n"), MarkerKind::Crashed), "a  ");
}

#[test]
fn long_log_tail_is_cut_to_103_characters() {
    let first = "a".repeat(60);
    let second = "b".repeat(60);
    let third = "c".repeat(60);
    let log = format!("noise\n{}\n{}\n{}\n", first, second, third);
    let joined = format!("{} {} {}", first, second, third);
    let message = diagnostic(Some(&log), MarkerKind::Crashed);
    assert_eq!(message.chars().count(), 103);
    assert!(message.starts_with("..."));
    assert_eq!(&message[3..], &joined[joined.len() - 100..]);
}

#[test]
fn tail_of_exactly_100_characters_is_kept_whole() {
    let line = "z".repeat(100);
    assert_eq!(diagnostic(Some(&line), MarkerKind::Crashed), line);
    let longer = "z".repeat(101);
    let cut = diagnostic(Some(&longer), MarkerKind::Crashed);
    assert_eq!(cut, format!("...{}", "z".repeat(100)));
}

#[test]
fn clipping_counts_characters_not_bytes() {
    let text = "é".repeat(101);
    let cut = clip(text);
    assert_eq!(cut.chars().count(), 103);
    assert_eq!(cut, format!("...{}", "é".repeat(100)));
    let short = "é".repeat(100);
    assert_eq!(clip(short.clone()), short);
}

#[test]
fn ssh_command_forwards_local_to_remote() {
    let s = session(1, SessionType::SSH, "host1", 8080, Some(80));
    let c = CommandLine::for_session(&s);
    assert_eq!(c.program, "ssh");
    assert_eq!(c.args, vec!["-L", "8080:localhost:80", "host1", "-N"]);
    let direct = CommandLine::build_ssh_command(&s);
    assert_eq!(direct.args, c.args);
}

#[test]
fn ssh_command_appends_options_in_order() {
    let mut s = session(1, SessionType::SSH, "me@box", 1, None);
    s.additional_options = vec!["-v".to_string(), "-o".to_string(), "A=b".to_string()];
    let c = CommandLine::for_session(&s);
    assert_eq!(c.args, vec!["-L", "1:localhost:0", "me@box", "-N", "-v", "-o", "A=b"]);
}

#[test]
fn kubectl_command_with_context_and_namespace() {
    let mut s = session(2, SessionType::Kubectl, "pods/web", 9000, Some(65535));
    s.kube_context = Some("prod".to_string());
    s.kube_namespace = Some("shop".to_string());
    s.additional_options = vec!["--address".to_string(), "0.0.0.0".to_string()];
    let c = CommandLine::for_session(&s);
    assert_eq!(c.program, "kubectl");
    assert_eq!(
        c.args,
        vec![
            "--context",
            "prod",
            "--namespace",
            "shop",
            "port-forward",
            "pods/web",
            "9000:65535",
            "--address",
            "0.0.0.0"
        ]
    );
}

#[test]
fn kubectl_command_without_context_or_namespace() {
    let s = session(2, SessionType::Kubectl, "services/db", 5432, Some(5432));
    let c = CommandLine::build_kubectl_command(&s);
    assert_eq!(c.args, vec!["port-forward", "services/db", "5432:5432"]);
    let mut only_ns = session(2, SessionType::Kubectl, "services/db", 5432, None);
    only_ns.kube_namespace = Some("data".to_string());
    let c = CommandLine::for_session(&only_ns);
    assert_eq!(c.args, vec!["--namespace", "data", "port-forward", "services/db", "5432:0"]);
}

#[test]
fn socks5_command_is_a_dynamic_forward() {
    let mut s = session(3, SessionType::Socks5, "jump", 1080, None);
    s.additional_options = vec!["-C".to_string()];
    let c = CommandLine::for_session(&s);
    assert_eq!(c.program, "ssh");
    assert_eq!(c.args, vec!["-D", "1080", "jump", "-N", "-C"]);
    assert_eq!(CommandLine::build_socks5_command(&s).args, c.args);
}

#[test]
fn new_manager_watches_nothing() {
    assert!(ProcessManager::new().snapshot().is_empty());
}

#[test]
fn start_records_process_and_tracks_it() {
    let mut manager = ProcessManager::new();
    let mut s = session(10, SessionType::SSH, "host1", 8080, Some(80));
    let at = Timestamp { nanos: 1_431_648_000_000_000_000 };
    let marker = manager.start_session(&mut s, at, Ok(321)).unwrap();
    assert_eq!(s.pid, Some(321));
    assert_eq!(s.status, SessionStatus::Running);
    assert_eq!(s.last_started, Some(at));
    assert_eq!(s.name, "demo");
    assert_eq!(
        manager.snapshot(),
        vec![MonitoredSession { id: 10, pid: Some(321), started_at: Some(at) }]
    );
    assert_eq!(marker, marker_with_stamp(MarkerKind::Started, "2015-05-15 00:00:00", 321));
    assert!(marker.starts_with(&format!("\n{}\nSession Started: ", rule())));
    assert!(marker.contains("| PID: 321\n"));
}

#[test]
fn failed_start_changes_nothing() {
    let mut manager = ProcessManager::new();
    let mut other = session(11, SessionType::SSH, "h", 1, Some(2));
    manager.start_session(&mut other, Timestamp { nanos: 5 }, Ok(9)).unwrap();
    let mut s = session(10, SessionType::SSH, "host1", 8080, Some(80));
    let result = manager.start_session(
        &mut s,
        Timestamp { nanos: 7 },
        Err("No such file or directory".to_string()),
    );
    match result {
        Err(ProcessError::SpawnFailed(reason)) => assert_eq!(reason, "No such file or directory"),
        _ => panic!("a refused spawn is a spawn failure"),
    }
    assert_eq!(s.pid, None);
    assert_eq!(s.status, SessionStatus::Stopped);
    assert_eq!(s.last_started, None);
    assert_eq!(manager.snapshot().len(), 1);
    assert_eq!(manager.snapshot()[0].id, 11);
}

#[test]
fn restart_replaces_the_record_in_place() {
    let mut manager = ProcessManager::new();
    let mut a = session(1, SessionType::SSH, "a", 1, Some(1));
    let mut b = session(2, SessionType::SSH, "b", 2, Some(2));
    manager.start_session(&mut a, Timestamp { nanos: 10 }, Ok(100)).unwrap();
    manager.start_session(&mut b, Timestamp { nanos: 20 }, Ok(200)).unwrap();
    manager.start_session(&mut a, Timestamp { nanos: 30 }, Ok(300)).unwrap();
    assert_eq!(
        manager.snapshot(),
        vec![
            MonitoredSession { id: 1, pid: Some(300), started_at: Some(Timestamp { nanos: 30 }) },
            MonitoredSession { id: 2, pid: Some(200), started_at: Some(Timestamp { nanos: 20 }) },
        ]
    );
}

#[test]
fn stop_moves_running_session_to_stopped() {
    let mut manager = ProcessManager::new();
    let mut s = session(10, SessionType::SSH, "host1", 8080, Some(80));
    let mut t = session(11, SessionType::SSH, "host2", 8081, Some(80));
    manager.start_session(&mut s, Timestamp { nanos: 1 }, Ok(321)).unwrap();
    manager.start_session(&mut t, Timestamp { nanos: 2 }, Ok(322)).unwrap();
    let report = manager.stop_session(&mut s, Timestamp { nanos: 1_431_648_000_000_000_000 }, None);
    assert!(report.outcome.is_ok());
    assert_eq!(
        report.marker,
        Some(marker_with_stamp(MarkerKind::Stopped, "2015-05-15 00:00:00", 321))
    );
    assert_eq!(s.status, SessionStatus::Stopped);
    assert_eq!(s.pid, None);
    assert_eq!(s.last_started, Some(Timestamp { nanos: 1 }));
    let left = manager.snapshot();
    assert_eq!(left.len(), 1);
    assert_eq!(left[0].id, 11);
}

#[test]
fn stop_wins_even_when_the_signal_fails() {
    let mut manager = ProcessManager::new();
    let mut s = session(10, SessionType::SSH, "host1", 8080, Some(80));
    manager.start_session(&mut s, Timestamp { nanos: 1 }, Ok(321)).unwrap();
    let report =
        manager.stop_session(&mut s, Timestamp { nanos: 2 }, Some("kill: not permitted".to_string()));
    match report.outcome {
        Err(ProcessError::SignalFailed(reason)) => assert_eq!(reason, "kill: not permitted"),
        _ => panic!("an undelivered signal is a signal failure"),
    }
    assert!(report.marker.is_some());
    assert_eq!(s.status, SessionStatus::Stopped);
    assert_eq!(s.pid, None);
    assert!(manager.snapshot().is_empty());
}

#[test]
fn stop_without_process_writes_no_marker() {
    let mut manager = ProcessManager::new();
    let mut s = session(10, SessionType::SSH, "host1", 8080, Some(80));
    s.status = SessionStatus::Error("boom".to_string());
    let report = manager.stop_session(&mut s, Timestamp { nanos: 2 }, Some("unused".to_string()));
    assert!(report.outcome.is_ok());
    assert_eq!(report.marker, None);
    assert_eq!(s.status, SessionStatus::Stopped);
}

#[test]
fn sync_rearms_tracking_without_spawning() {
    let manager_start = Timestamp { nanos: 42 };
    let mut s = session(77, SessionType::Kubectl, "pods/x", 1, Some(2));
    s.status = SessionStatus::Running;
    s.pid = Some(555);
    s.last_started = Some(manager_start);
    let mut manager = ProcessManager::new();
    let mut old = session(5, SessionType::SSH, "gone", 1, Some(2));
    manager.start_session(&mut old, Timestamp { nanos: 1 }, Ok(1)).unwrap();
    manager.sync_monitored_sessions(&[s]);
    assert_eq!(
        manager.snapshot(),
        vec![MonitoredSession { id: 77, pid: Some(555), started_at: Some(manager_start) }]
    );
}

#[test]
fn sync_watches_only_sessions_running_under_a_process() {
    let stopped = session(1, SessionType::SSH, "a", 1, Some(2));
    let mut stale_pid = session(2, SessionType::SSH, "b", 1, Some(2));
    stale_pid.pid = Some(8);
    let mut running = session(3, SessionType::SSH, "c", 1, Some(2));
    running.status = SessionStatus::Running;
    running.pid = Some(30);
    running.last_started = Some(Timestamp { nanos: 9 });
    let mut pidless = session(4, SessionType::SSH, "d", 1, Some(2));
    pidless.status = SessionStatus::Running;
    let mut failed = session(5, SessionType::SSH, "e", 1, Some(2));
    failed.status = SessionStatus::Error("boom".to_string());
    failed.pid = Some(50);
    let mut second = session(6, SessionType::Socks5, "f", 1, None);
    second.status = SessionStatus::Running;
    second.pid = Some(60);
    let mut manager = ProcessManager::new();
    manager.sync_monitored_sessions(&[stopped, stale_pid, running, pidless, failed, second]);
    assert_eq!(
        manager.snapshot(),
        vec![
            MonitoredSession { id: 3, pid: Some(30), started_at: Some(Timestamp { nanos: 9 }) },
            MonitoredSession { id: 6, pid: Some(60), started_at: None },
        ]
    );
    manager.sync_monitored_sessions(&[]);
    assert!(manager.snapshot().is_empty());
}

#[test]
fn sync_of_idle_sessions_watches_nothing() {
    let a = session(1, SessionType::SSH, "a", 1, Some(2));
    let mut b = session(2, SessionType::SSH, "b", 1, Some(2));
    b.status = SessionStatus::Error("x".to_string());
    let mut manager = ProcessManager::new();
    let mut old = session(5, SessionType::SSH, "gone", 1, Some(2));
    manager.start_session(&mut old, Timestamp { nanos: 1 }, Ok(1)).unwrap();
    manager.sync_monitored_sessions(&[a, b]);
    assert!(manager.snapshot().is_empty());
}

#[test]
fn termination_counts_only_when_the_command_succeeds() {
    assert_eq!(signal_error(Ok((true, String::new()))), None);
    assert_eq!(signal_error(Ok((true, "warning".to_string()))), None);
    assert_eq!(
        signal_error(Ok((false, "kill: (99) - No such process".to_string()))),
        Some("kill: (99) - No such process".to_string())
    );
    assert_eq!(signal_error(Ok((false, String::new()))), Some(String::new()));
    assert_eq!(
        signal_error(Err("No such file or directory".to_string())),
        Some("No such file or directory".to_string())
    );
}

#[test]
fn drain_applies_updates_by_id() {
    let mut a = session(1, SessionType::SSH, "a", 1, Some(2));
    a.status = SessionStatus::Running;
    a.pid = Some(10);
    let b = session(2, SessionType::SSH, "b", 1, Some(2));
    let mut sessions = vec![a, b];
    let updates = vec![StatusUpdate {
        session_id: 1,
        status: SessionStatus::Error("Process terminated".to_string()),
        pid: None,
    }];
    assert!(ProcessManager::poll_status_updates(&mut sessions, &updates));
    assert_eq!(sessions[0].status, SessionStatus::Error("Process terminated".to_string()));
    assert_eq!(sessions[0].pid, None);
    assert_eq!(sessions[0].target, "a");
    assert_eq!(sessions[1].status, SessionStatus::Stopped);
    for s in &sessions {
        assert_eq!(s.status == SessionStatus::Running, s.pid.is_some());
    }
}

#[test]
fn drain_of_unknown_id_changes_nothing() {
    let mut sessions = vec![session(1, SessionType::SSH, "a", 1, Some(2))];
    let updates =
        vec![StatusUpdate { session_id: 9, status: SessionStatus::Running, pid: Some(3) }];
    assert!(!ProcessManager::poll_status_updates(&mut sessions, &updates));
    assert_eq!(sessions[0].status, SessionStatus::Stopped);
    assert!(!ProcessManager::poll_status_updates(&mut sessions, &Vec::new()));
}

#[test]
fn drain_applies_updates_in_order() {
    let mut sessions = vec![
        session(1, SessionType::SSH, "first", 1, Some(2)),
        session(1, SessionType::SSH, "twin", 1, Some(2)),
    ];
    let updates = vec![
        StatusUpdate { session_id: 1, status: SessionStatus::Running, pid: Some(3) },
        StatusUpdate { session_id: 7, status: SessionStatus::Running, pid: Some(4) },
        StatusUpdate { session_id: 1, status: SessionStatus::Error("late".to_string()), pid: None },
    ];
    assert!(ProcessManager::poll_status_updates(&mut sessions, &updates));
    assert_eq!(sessions[0].status, SessionStatus::Error("late".to_string()));
    assert_eq!(sessions[0].pid, None);
    assert_eq!(sessions[1].status, SessionStatus::Stopped);
}

#[test]
fn error_messages_name_the_step() {
    assert_eq!(
        ProcessError::SpawnFailed("x".to_string()).message(),
        "failed to start process: x"
    );
    assert_eq!(
        ProcessError::SignalFailed("y".to_string()).message(),
        "failed to signal process: y"
    );
}
