use secure_cords::config::SessionConfig;
use secure_cords::session::{Action, Outcome, SessionActor, SessionMessage, SessionStatus};

fn demo_config() -> SessionConfig {
    SessionConfig {
        identifier: "i-abc123".to_string(),
        profile: "dev".to_string(),
        host_port: 8080,
        dest_port: 80,
    }
}

fn reply_lines(action: Action) -> Vec<String> {
    match action {
        Action::ReplyLines { lines } => lines,
        other => panic!("expected a lines reply, got {:?}", other),
    }
}

fn reply_health(action: Action) -> bool {
    match action {
        Action::ReplyHealth { healthy } => healthy,
        other => panic!("expected a health reply, got {:?}", other),
    }
}

#[test]
fn fresh_session_not_healthy_and_logs_empty() {
    let mut actor = SessionActor::new(demo_config());
    assert_eq!(actor.status, SessionStatus::Fresh);
    assert!(!actor.healthy());
    assert!(!reply_health(actor.handle_message(SessionMessage::HealthQuery)));
    assert!(reply_lines(actor.handle_message(SessionMessage::StdoutQuery)).is_empty());
    assert!(reply_lines(actor.handle_message(SessionMessage::StderrQuery)).is_empty());
}

#[test]
fn stop_on_fresh_session_is_noop() {
    let mut actor = SessionActor::new(demo_config());
    let action = actor.handle_message(SessionMessage::Stop);
    assert_eq!(action, Action::Nothing);
    assert_eq!(actor.status, SessionStatus::Fresh);
}

#[test]
fn stop_on_stopped_session_is_noop() {
    let mut actor = SessionActor::new(demo_config());
    actor.handle_message(SessionMessage::Start);
    actor.note_spawn_failure("permission denied".to_string());
    let stopped = actor.status.clone();
    let action = actor.handle_message(SessionMessage::Stop);
    assert_eq!(action, Action::Nothing);
    assert_eq!(actor.status, stopped);
}

#[test]
fn stop_on_running_session_kills_and_resets() {
    let mut actor = SessionActor::new(demo_config());
    actor.handle_message(SessionMessage::Start);
    actor.note_spawn_success();
    assert!(actor.healthy());
    let action = actor.handle_message(SessionMessage::Stop);
    assert_eq!(action, Action::Kill);
    assert_eq!(actor.status, SessionStatus::Fresh);
    assert!(!actor.healthy());
}

#[test]
fn double_start_keeps_actor_responsive() {
    let mut actor = SessionActor::new(demo_config());
    let first = actor.handle_message(SessionMessage::Start);
    assert!(matches!(first, Action::Spawn { .. }));
    actor.note_spawn_success();
    assert!(actor.healthy());
    let second = actor.handle_message(SessionMessage::Start);
    assert!(matches!(second, Action::Spawn { .. }));
    actor.note_spawn_success();
    assert!(actor.healthy());
    assert!(reply_health(actor.handle_message(SessionMessage::HealthQuery)));
    assert!(reply_lines(actor.handle_message(SessionMessage::StdoutQuery)).is_empty());
}

#[test]
fn start_running_session_reports_ready_line() {
    let mut actor = SessionActor::new(demo_config());
    let action = actor.handle_message(SessionMessage::Start);
    match action {
        Action::Spawn { command } => {
            assert_eq!(command.program, "aws");
            let expected: Vec<String> = [
                "ssm",
                "start-session",
                "--target",
                "i-abc123",
                "--document-name",
                "AWS-StartPortForwardingSession",
                "--parameters",
                "portNumber=80,localPortNumber=8080",
            ]
            .iter()
            .map(|s| s.to_string())
            .collect();
            assert_eq!(command.args, expected);
            assert_eq!(command.env_name, "AWS_PROFILE");
            assert_eq!(command.env_value, "dev");
        }
        other => panic!("expected a spawn, got {:?}", other),
    }
    actor.note_spawn_success();
    assert!(actor.healthy());
    assert!(reply_health(actor.handle_message(SessionMessage::HealthQuery)));
    actor.observe_stdout_line("ready".to_string());
    let lines = reply_lines(actor.handle_message(SessionMessage::StdoutQuery));
    assert_eq!(lines, vec!["ready".to_string()]);
}

#[test]
fn spawn_failure_is_stopped_with_spawn_error() {
    let mut actor = SessionActor::new(demo_config());
    let action = actor.handle_message(SessionMessage::Start);
    assert!(matches!(action, Action::Spawn { .. }));
    actor.note_spawn_failure("no such file or directory".to_string());
    assert!(!actor.healthy());
    assert!(!reply_health(actor.handle_message(SessionMessage::HealthQuery)));
    assert_eq!(
        actor.status,
        SessionStatus::Stopped {
            outcome: Outcome::SpawnError { message: "no such file or directory".to_string() },
        }
    );
}

#[test]
fn exit_code_one_with_boom_on_stderr() {
    let mut actor = SessionActor::new(demo_config());
    actor.handle_message(SessionMessage::Start);
    actor.note_spawn_success();
    actor.observe_stderr_line("boom".to_string());
    actor.observe_exit(Outcome::Exited { code: 1 });
    assert!(!actor.healthy());
    let lines = reply_lines(actor.handle_message(SessionMessage::StderrQuery));
    assert_eq!(lines, vec!["boom".to_string()]);
    assert_eq!(actor.status, SessionStatus::Stopped { outcome: Outcome::Exited { code: 1 } });
}

#[test]
fn exit_without_code_and_wait_error_are_recorded() {
    let mut actor = SessionActor::new(demo_config());
    actor.handle_message(SessionMessage::Start);
    actor.note_spawn_success();
    actor.observe_exit(Outcome::Signaled);
    assert_eq!(actor.status, SessionStatus::Stopped { outcome: Outcome::Signaled });

    actor.handle_message(SessionMessage::Start);
    actor.note_spawn_success();
    actor.observe_exit(Outcome::WaitError { message: "interrupted".to_string() });
    assert_eq!(
        actor.status,
        SessionStatus::Stopped { outcome: Outcome::WaitError { message: "interrupted".to_string() } }
    );
}

#[test]
fn lines_keep_arrival_order_and_streams_are_independent() {
    let mut actor = SessionActor::new(demo_config());
    actor.handle_message(SessionMessage::Start);
    actor.note_spawn_success();
    actor.observe_stdout_line("first".to_string());
    actor.observe_stderr_line("warning".to_string());
    actor.observe_stdout_line("second".to_string());
    actor.observe_stdout_line("third".to_string());
    let out = reply_lines(actor.handle_message(SessionMessage::StdoutQuery));
    assert_eq!(out, vec!["first".to_string(), "second".to_string(), "third".to_string()]);
    let err = reply_lines(actor.handle_message(SessionMessage::StderrQuery));
    assert_eq!(err, vec!["warning".to_string()]);
}

#[test]
fn output_query_returns_a_snapshot_not_a_live_view() {
    let mut actor = SessionActor::new(demo_config());
    actor.handle_message(SessionMessage::Start);
    actor.note_spawn_success();
    actor.observe_stdout_line("one".to_string());
    let snapshot = reply_lines(actor.handle_message(SessionMessage::StdoutQuery));
    actor.observe_stdout_line("two".to_string());
    assert_eq!(snapshot, vec!["one".to_string()]);
    let fresh = reply_lines(actor.handle_message(SessionMessage::StdoutQuery));
    assert_eq!(fresh, vec!["one".to_string(), "two".to_string()]);
}

#[test]
fn update_config_takes_effect_on_next_start() {
    let mut actor = SessionActor::new(demo_config());
    let new_config = SessionConfig {
        identifier: "i-def456".to_string(),
        profile: "prod".to_string(),
        host_port: 9090,
        dest_port: 443,
    };
    let action = actor.handle_message(SessionMessage::UpdateConfig { config: new_config });
    assert_eq!(action, Action::Nothing);
    assert_eq!(actor.status, SessionStatus::Fresh);
    match actor.handle_message(SessionMessage::Start) {
        Action::Spawn { command } => {
            assert_eq!(command.args[3], "i-def456");
            assert_eq!(command.args[7], "portNumber=443,localPortNumber=9090");
            assert_eq!(command.env_value, "prod");
        }
        other => panic!("expected a spawn, got {:?}", other),
    }
}

#[test]
fn wait_set_arms_process_sources_only_while_running() {
    let mut actor = SessionActor::new(demo_config());
    let idle = actor.wait_set();
    assert!(idle.messages);
    assert!(!idle.process_exit);
    assert!(!idle.stdout_line);
    assert!(!idle.stderr_line);
    actor.handle_message(SessionMessage::Start);
    actor.note_spawn_success();
    let running = actor.wait_set();
    assert!(running.messages);
    assert!(running.process_exit);
    assert!(running.stdout_line);
    assert!(running.stderr_line);
}
