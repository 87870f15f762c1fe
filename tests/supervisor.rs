use openclaw_setup::error::SetupError;
use openclaw_setup::gateway::{command_line, Action, Event, GatewaySession, Operation, Phase};
use openclaw_setup::logtail::{LogCursor, ReadOutcome, TailAction};
use openclaw_setup::pairing::{
    approve_command, classify_lowered_reply, classify_pairing_reply, output_reports_failure,
    PairingOutcome,
};
use openclaw_setup::shell::{clean_stderr, failure_text, is_shell_noise};
use openclaw_setup::text::{contains_text, decimal_text};

struct Script {
    reachable_at: Option<u64>,
    snapshot: bool,
    install_output: Result<String, String>,
    start_output: Result<String, String>,
    status: Result<String, String>,
    final_status: Result<String, String>,
}

struct Trace {
    result: Result<u16, SetupError>,
    probes: u64,
    ops: Vec<Operation>,
    delays: Vec<u64>,
    session: GatewaySession,
}

fn healthy() -> Script {
    Script {
        reachable_at: Some(1),
        snapshot: true,
        install_output: Ok("Installed service".to_string()),
        start_output: Ok("Started".to_string()),
        status: Ok("loaded".to_string()),
        final_status: Ok("loaded".to_string()),
    }
}

fn drive(script: Script) -> Trace {
    let mut session = GatewaySession::new();
    let mut event = Event::Begin;
    let mut probes: u64 = 0;
    let mut ops = Vec::new();
    let mut delays = Vec::new();
    loop {
        match session.step(event) {
            Action::Run { delay_ms, op } => {
                ops.push(op);
                delays.push(delay_ms);
                event = match op {
                    Operation::StopService => Event::Stopped,
                    Operation::ReadSnapshot => Event::SnapshotRead(Ok(script.snapshot)),
                    Operation::InstallService => Event::Installed(script.install_output.clone()),
                    Operation::Reconcile => Event::Reconciled(Ok(())),
                    Operation::StartService => Event::ServiceStarted(script.start_output.clone()),
                    Operation::ProbePort => {
                        probes += 1;
                        Event::Probed(script.reachable_at == Some(probes))
                    }
                    Operation::QueryStatus => {
                        if session.phase() == Phase::FinalCheck {
                            Event::Status(script.final_status.clone())
                        } else {
                            Event::Status(script.status.clone())
                        }
                    }
                };
            }
            Action::Finish(result) => {
                return Trace { result, probes, ops, delays, session };
            }
            Action::Ignore => panic!("event out of order"),
        }
    }
}

#[test]
fn probe_stops_at_first_success() {
    let t = drive(Script { reachable_at: Some(3), ..healthy() });
    assert_eq!(t.result, Ok(18789));
    assert_eq!(t.probes, 3);
    assert_eq!(t.session.attempts(), 3);
    assert_eq!(t.session.phase(), Phase::Ready);
    let mut session = t.session;
    assert_eq!(session.step(Event::Probed(false)), Action::Ignore);
    assert_eq!(session.attempts(), 3);
}

#[test]
fn probe_exhaustion_reports_last_status() {
    let t = drive(Script {
        reachable_at: None,
        status: Ok("  not loaded  \n".to_string()),
        final_status: Ok("Service: LaunchAgent (not loaded)".to_string()),
        ..healthy()
    });
    assert_eq!(t.probes, 8);
    match t.result {
        Err(SetupError::ProbeExhausted(d)) => {
            assert!(d.contains("Service: LaunchAgent (not loaded)"));
            assert!(d.contains("Last status: Status: not loaded | Port 18789: not accessible\n"));
            assert!(d.contains("Troubleshooting:"));
        }
        other => panic!("unexpected {:?}", other),
    }
    assert_eq!(t.delays[t.ops.iter().position(|o| *o == Operation::ProbePort).unwrap()], 5000);
    let probe_delays: Vec<u64> = t
        .ops
        .iter()
        .zip(t.delays.iter())
        .filter(|(o, _)| **o == Operation::ProbePort)
        .map(|(_, d)| *d)
        .collect();
    assert_eq!(probe_delays, vec![5000, 3000, 3000, 3000, 3000, 3000, 3000, 3000]);
}

#[test]
fn failed_status_query_names_the_attempt() {
    let t = drive(Script {
        reachable_at: None,
        status: Err("boom".to_string()),
        final_status: Err("boom".to_string()),
        ..healthy()
    });
    match t.result {
        Err(SetupError::ProbeExhausted(d)) => {
            assert!(d.contains("Gateway status check failed (attempt 8/8)"));
            assert!(d.contains("Final gateway status:\nUnable to get status\n"));
        }
        other => panic!("unexpected {:?}", other),
    }
}

#[test]
fn full_sequence_of_operations() {
    let t = drive(healthy());
    assert_eq!(
        t.ops,
        vec![
            Operation::StopService,
            Operation::ReadSnapshot,
            Operation::InstallService,
            Operation::Reconcile,
            Operation::StartService,
            Operation::ProbePort,
        ]
    );
    assert_eq!(t.delays[1], 2000);
    let t = drive(Script { snapshot: false, ..healthy() });
    assert!(!t.ops.contains(&Operation::Reconcile));
}

#[test]
fn install_error_text_fails_install() {
    let t = drive(Script { install_output: Ok("ERROR: launchctl refused".to_string()), ..healthy() });
    assert_eq!(
        t.result,
        Err(SetupError::InstallFailed(
            "Gateway installation may have failed: ERROR: launchctl refused".to_string()
        ))
    );
    let t = drive(Script { install_output: Err("exit 1".to_string()), ..healthy() });
    assert_eq!(t.result, Err(SetupError::InstallFailed("exit 1".to_string())));
}

#[test]
fn start_failure_text_fails_start() {
    let t = drive(Script { start_output: Ok("Start Failed".to_string()), ..healthy() });
    assert_eq!(
        t.result,
        Err(SetupError::StartFailed("Gateway start may have failed: Start Failed".to_string()))
    );
    assert_eq!(t.probes, 0);
}

#[test]
fn reconcile_and_snapshot_failures_are_reported() {
    let mut s = GatewaySession::new();
    s.step(Event::Begin);
    s.step(Event::Stopped);
    assert_eq!(
        s.step(Event::SnapshotRead(Err("denied".to_string()))),
        Action::Finish(Err(SetupError::IoFailure("denied".to_string())))
    );
    assert!(s.is_finished());
    let mut s = GatewaySession::new();
    s.step(Event::Begin);
    s.step(Event::Stopped);
    s.step(Event::SnapshotRead(Ok(true)));
    s.step(Event::Installed(Ok("ok".to_string())));
    let bad = SetupError::ConfigCorrupt("bad json".to_string());
    assert_eq!(
        s.step(Event::Reconciled(Err(SetupError::ConfigCorrupt("bad json".to_string())))),
        Action::Finish(Err(bad))
    );
}

#[test]
fn out_of_order_event_is_ignored() {
    let mut s = GatewaySession::new();
    assert_eq!(s.step(Event::Probed(true)), Action::Ignore);
    assert_eq!(s.phase(), Phase::Idle);
}

#[test]
fn command_lines() {
    assert_eq!(command_line(Operation::InstallService).unwrap(), "openclaw gateway install --force");
    assert_eq!(command_line(Operation::StopService).unwrap(), "openclaw gateway stop");
    assert_eq!(command_line(Operation::StartService).unwrap(), "openclaw gateway start");
    assert_eq!(command_line(Operation::QueryStatus).unwrap(), "openclaw gateway status");
    assert_eq!(command_line(Operation::ProbePort), None);
}

#[test]
fn pairing_classification() {
    assert!(matches!(
        classify_pairing_reply("Error: no pending pairing request found for code ABC123"),
        PairingOutcome::Rejected(_)
    ));
    assert_eq!(
        classify_pairing_reply("Pairing approved for user X"),
        PairingOutcome::Approved
    );
    assert_eq!(
        classify_pairing_reply("Error: internal timeout"),
        PairingOutcome::Error("Error: internal timeout".to_string())
    );
}

#[test]
fn pairing_reads_text_alone_ignoring_case() {
    assert_eq!(
        classify_pairing_reply("NO PENDING PAIRING REQUEST FOUND"),
        PairingOutcome::Rejected("invalid or expired code".to_string())
    );
    assert_eq!(classify_pairing_reply("exit status 2"), PairingOutcome::Approved);
    assert_eq!(
        classify_pairing_reply("ERROR: gateway unreachable"),
        PairingOutcome::Error("ERROR: gateway unreachable".to_string())
    );
    assert_eq!(classify_lowered_reply("approved", "Approved"), PairingOutcome::Approved);
    assert_eq!(
        classify_pairing_reply("Pairing approved").into_result(),
        Ok("Pairing successful!".to_string())
    );
    assert_eq!(
        classify_pairing_reply("Error: no pending pairing request found").into_result(),
        Err(SetupError::PairingRejected("invalid or expired code".to_string()))
    );
    assert_eq!(
        approve_command("ABC123"),
        "openclaw pairing approve ABC123 --channel telegram"
    );
}

#[test]
fn failure_sniffing_ignores_case() {
    assert!(output_reports_failure("Something FAILED"));
    assert!(output_reports_failure("eRRor"));
    assert!(!output_reports_failure("all good"));
}

#[test]
fn text_helpers() {
    assert!(contains_text("abcabd", "abd"));
    assert!(contains_text("abc", ""));
    assert!(!contains_text("ab", "abc"));
    assert!(!contains_text("abcab", "abd"));
    assert_eq!(decimal_text(0), "0");
    assert_eq!(decimal_text(8), "8");
    assert_eq!(decimal_text(18789), "18789");
}

#[test]
fn log_cursor_moves_forward_and_stops() {
    let mut c = LogCursor::at_end(100);
    assert_eq!(c.offset(), 100);
    assert_eq!(c.on_read(ReadOutcome::EndOfFile), TailAction::Wait(500));
    assert_eq!(
        c.on_read(ReadOutcome::Line { text: "hello\n".to_string(), bytes: 6 }),
        TailAction::Deliver("hello\n".to_string())
    );
    assert_eq!(c.offset(), 106);
    assert_eq!(c.on_read(ReadOutcome::Failed), TailAction::Stop);
    assert!(c.is_stopped());
    assert_eq!(
        c.on_read(ReadOutcome::Line { text: "late\n".to_string(), bytes: 5 }),
        TailAction::Stop
    );
    assert_eq!(c.offset(), 106);
    let mut big = LogCursor::at_end(u64::MAX - 1);
    big.on_read(ReadOutcome::Line { text: "x".to_string(), bytes: 10 });
    assert_eq!(big.offset(), u64::MAX);
}

#[test]
fn shell_noise_lines_are_dropped() {
    assert!(is_shell_noise("/Users/a/.zshrc:12: command not found: foo"));
    assert!(is_shell_noise("nvm is not compatible"));
    assert!(!is_shell_noise("Error: gateway not installed"));
    let lines = vec![
        "zsh: no such file or directory: x".to_string(),
        "Error: one".to_string(),
        "load .zprofile".to_string(),
        "Error: two".to_string(),
    ];
    assert_eq!(clean_stderr(&lines), "Error: one\nError: two");
    assert_eq!(clean_stderr(&vec![]), "");
}

#[test]
fn failure_text_fallbacks() {
    assert_eq!(failure_text("boom", "all", "out", Some(1)), "boom");
    assert_eq!(failure_text(" \n\t", "nvm noise", "out", Some(1)), "nvm noise");
    assert_eq!(failure_text("", "", "out", Some(1)), "out");
    assert_eq!(failure_text("", "", "", Some(127)), "Command failed with exit code: 127");
    assert_eq!(failure_text("", "", "", None), "Command failed with exit code: -1");
    assert_eq!(failure_text("\u{3000}", "", "", Some(-9)), "Command failed with exit code: -9");
}
