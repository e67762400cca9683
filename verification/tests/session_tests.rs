use sshtrap::audit::{AuditLogAction, LoginAttemptEvent};
use sshtrap::pipeline::AuditPipeline;
use sshtrap::policy::{AcceptancePolicy, CredentialStore, DRAW_BOUND};
use sshtrap::session::{
    AuthOutcome, CloseOutcome, Connection, Event, Phase, Reply, open_connection, shell_prompt,
};

fn zero_policy() -> AcceptancePolicy {
    AcceptancePolicy::new(0, CredentialStore::new())
}

#[test]
fn exec_request_runs_parsed_command() {
    let mut conn = Connection::new(1, None);
    let reply = conn.exec_request(b"ls -la");
    match reply {
        Reply::RunExec { args } => assert_eq!(args, vec!["ls".to_string(), "-la".to_string()]),
        other => panic!("unexpected reply {:?}", other),
    }
    let log = conn.audit_log();
    assert_eq!(log.actions.len(), 1);
    match &log.actions[0] {
        AuditLogAction::ExecCommand(e) => {
            assert_eq!(e.args, vec!["ls".to_string(), "-la".to_string()]);
        }
        other => panic!("unexpected action {:?}", other),
    }
    // The session stays open afterward.
    assert_eq!(conn.audit_log().connection_id, 1);
    let reply = conn.shell_request();
    assert_eq!(reply, Reply::ShellStarted);
}

#[test]
fn exec_request_with_unparsable_text_fails_without_emulator() {
    let mut conn = Connection::new(1, None);
    // An unclosed quote cannot be shell-token-split.
    let reply = conn.exec_request(b"ls 'unterminated");
    assert_eq!(reply, Reply::ChannelFailure);
    assert_eq!(conn.audit_log().actions.len(), 0);
}

#[test]
fn x11_channel_open_is_refused_and_recorded() {
    let mut conn = Connection::new(2, None);
    let reply = conn.channel_open_x11("198.51.100.7", 6010);
    assert_eq!(reply, Reply::ChannelFailure);
    match &conn.audit_log().actions[0] {
        AuditLogAction::OpenX11(e) => {
            assert_eq!(e.originator_address, "198.51.100.7");
            assert_eq!(e.originator_port, 6010);
        }
        other => panic!("unexpected action {:?}", other),
    }
}

#[test]
fn public_key_login_is_rejected_but_logged() {
    let mut conn = Connection::new(3, None);
    let outcome = conn.auth_publickey("ssh-ed25519", "SHA256:abcdef");
    assert_eq!(outcome, AuthOutcome::Reject);
    match &conn.audit_log().actions[0] {
        AuditLogAction::LoginAttempt(LoginAttemptEvent::PublicKey { kind, fingerprint }) => {
            assert_eq!(kind, "ssh-ed25519");
            assert_eq!(fingerprint, "SHA256:abcdef");
        }
        other => panic!("unexpected action {:?}", other),
    }
}

#[test]
fn rejected_password_attempt_is_still_logged() {
    let mut conn = Connection::new(4, None);
    let mut policy = zero_policy();
    let outcome = conn.auth_password("root", "secret", &mut policy);
    assert_eq!(outcome, AuthOutcome::PartialPrompt);
    assert_eq!(conn.current_phase(), Phase::Authenticating);
    match &conn.audit_log().actions[0] {
        AuditLogAction::LoginAttempt(LoginAttemptEvent::UsernamePassword {
            username,
            password,
        }) => {
            assert_eq!(username, "root");
            assert_eq!(password, "secret");
        }
        other => panic!("unexpected action {:?}", other),
    }
}

#[test]
fn event_run_records_actions_in_order() {
    let mut conn = Connection::new(5, Some("203.0.113.9:55000".to_string()));
    let mut policy = AcceptancePolicy::new(DRAW_BOUND, CredentialStore::new());
    let events = vec![
        Event::AuthPassword { user: "admin".into(), password: "pw1".into() },
        Event::ChannelOpenSession,
        Event::PtyRequest {
            term: "xterm".into(),
            col_width: 80,
            row_height: 24,
            pix_width: 0,
            pix_height: 0,
            modes: vec![(1, 3)],
        },
        Event::EnvRequest { variable_name: "LANG".into(), variable_value: "C".into() },
        Event::ShellRequest,
        Event::WindowChangeRequest { col_width: 132, row_height: 43, pix_width: 0, pix_height: 0 },
        Event::Signal { name: "INT".into() },
        Event::TcpIpForward { address: "0.0.0.0".into(), port: 8080 },
        Event::CancelTcpIpForward { address: "0.0.0.0".into(), port: 8080 },
        Event::SubsystemRequest { name: "sftp".into() },
        Event::WindowAdjusted { new_size: 32768 },
        Event::ChannelEof,
        Event::ChannelClose,
    ];
    for ev in &events {
        conn.handle_event(ev, &mut policy);
    }
    let log = conn.audit_log();
    // One action per recordable event, in event order; the env request and
    // the channel events record no action.
    let kinds: Vec<&'static str> = log
        .actions
        .iter()
        .map(|a| match a {
            AuditLogAction::LoginAttempt(_) => "login",
            AuditLogAction::PtyRequest(_) => "pty",
            AuditLogAction::ShellRequested => "shell",
            AuditLogAction::WindowChangeRequest(_) => "winch",
            AuditLogAction::Signal(_) => "signal",
            AuditLogAction::TcpIpForward(_) => "forward",
            AuditLogAction::CancelTcpIpForward(_) => "cancel",
            AuditLogAction::SubsystemRequest(_) => "subsystem",
            AuditLogAction::WindowAdjusted(_) => "adjust",
            other => panic!("unexpected action {:?}", other),
        })
        .collect();
    assert_eq!(
        kinds,
        vec![
            "login", "pty", "shell", "winch", "signal", "forward", "cancel", "subsystem",
            "adjust"
        ]
    );
    assert_eq!(log.environment_variables.len(), 1);
    assert_eq!(log.environment_variables[0].0, "LANG");
    assert_eq!(log.environment_variables[0].1, "C");
}

#[test]
fn close_hands_log_to_pipeline_exactly_once() {
    let mut conn = Connection::new(6, None);
    conn.shell_request();
    let mut pipeline = AuditPipeline::new();
    assert_eq!(conn.close(&mut pipeline), CloseOutcome::Submitted);
    assert_eq!(pipeline.pending_count(), 1);
    // A second close — the implicit cleanup path — must not enqueue again.
    assert_eq!(conn.close(&mut pipeline), CloseOutcome::AlreadyFinalized);
    assert_eq!(pipeline.pending_count(), 1);
}

#[test]
fn close_after_shutdown_drops_the_log() {
    let mut conn = Connection::new(7, None);
    let mut pipeline = AuditPipeline::new();
    pipeline.close_intake();
    assert_eq!(conn.close(&mut pipeline), CloseOutcome::DroppedAtShutdown);
    assert_eq!(pipeline.pending_count(), 0);
}

#[test]
fn shell_data_reprompts_even_without_a_command() {
    let mut conn = Connection::new(8, None);
    let reply = conn.data(b"'");
    assert_eq!(reply, Reply::RunShellLine { args: None });
    assert_eq!(conn.audit_log().actions.len(), 0);
    let reply = conn.data(b"cat /etc/passwd");
    assert_eq!(
        reply,
        Reply::RunShellLine {
            args: Some(vec!["cat".to_string(), "/etc/passwd".to_string()])
        }
    );
    assert_eq!(conn.audit_log().actions.len(), 1);
}

#[test]
fn empty_shell_line_parses_to_no_arguments() {
    let mut conn = Connection::new(10, None);
    let reply = conn.data(b"");
    assert_eq!(reply, Reply::RunShellLine { args: Some(Vec::new()) });
    match &conn.audit_log().actions[0] {
        AuditLogAction::ExecCommand(e) => assert!(e.args.is_empty()),
        other => panic!("unexpected action {:?}", other),
    }
}

#[test]
fn accepted_login_through_the_event_entry_point() {
    let mut conn = Connection::new(11, None);
    let mut policy = AcceptancePolicy::new(DRAW_BOUND, CredentialStore::new());
    let reply = conn.handle_event(
        &Event::AuthPassword { user: "admin".into(), password: "abc123".into() },
        &mut policy,
    );
    assert_eq!(reply, Reply::Auth(AuthOutcome::Accept));
    assert_eq!(conn.current_phase(), Phase::Authenticated);
    assert!(!conn.finished());
}

#[test]
fn window_adjustment_passes_through() {
    let mut conn = Connection::new(9, None);
    assert_eq!(conn.adjust_window(4096), 4096);
    assert_eq!(conn.window_adjusted(65536), Reply::Quiet);
}

#[test]
fn fresh_connection_has_an_empty_log() {
    let conn = open_connection(Some("192.0.2.1:4242".to_string()));
    let log = conn.audit_log();
    assert_eq!(log.peer_address.as_deref(), Some("192.0.2.1:4242"));
    assert!(log.actions.is_empty());
    assert!(log.environment_variables.is_empty());
}

#[test]
fn prompt_and_error_line() {
    assert_eq!(shell_prompt(), "bash-5.1$ ");
    assert_eq!(
        sshtrap::log_err("connection reset"),
        "Connection closed due to: connection reset"
    );
}
