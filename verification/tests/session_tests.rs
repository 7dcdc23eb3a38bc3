use glowmarkt_logger::maintenance::{
    checkpoint_statement, CheckpointAction, CheckpointEvent, CheckpointState, CheckpointTask,
    CHECKPOINT_INTERVAL_SECS,
};
use glowmarkt_logger::pipeline::Outcome;
use glowmarkt_logger::session::{
    client_id_for, generate_client_id, Session, SessionAction, SessionEvent, SessionState, POLL_DELAY_SECS,
};
use glowmarkt_logger::settings::MqttSettings;

fn settings(password: &str) -> MqttSettings {
    MqttSettings {
        hostname: "tcp://broker:1883".to_string(),
        topic: "glow/meter".to_string(),
        username: "user".to_string(),
        password: password.to_string(),
    }
}

fn subscribed() -> Session {
    let mut session = Session::new(settings("secret"), "glowmarkt_logger-1".to_string());
    assert_eq!(session.step(SessionEvent::Poll), SessionAction::Connect);
    assert_eq!(session.step(SessionEvent::Connected), SessionAction::Receive);
    assert_eq!(session.current_state(), SessionState::Subscribed);
    session
}

#[test]
fn a_session_starts_without_a_connection() {
    let session = Session::new(settings("secret"), "glowmarkt_logger-1".to_string());
    assert_eq!(session.current_state(), SessionState::Disconnected);
}

#[test]
fn incomplete_settings_are_polled_every_ten_seconds() {
    let mut session = Session::new(settings(""), "glowmarkt_logger-1".to_string());
    for _ in 0..3 {
        assert_eq!(session.step(SessionEvent::Poll), SessionAction::Wait(10));
        assert_eq!(session.current_state(), SessionState::Disconnected);
    }
    assert_eq!(POLL_DELAY_SECS, 10);
}

#[test]
fn complete_settings_connect_and_subscribe() {
    let mut session = Session::new(settings("secret"), "glowmarkt_logger-1".to_string());
    assert_eq!(session.step(SessionEvent::Poll), SessionAction::Connect);
    assert_eq!(session.current_state(), SessionState::Connecting);
    assert_eq!(session.step(SessionEvent::Connected), SessionAction::Receive);
    assert_eq!(session.current_state(), SessionState::Subscribed);
}

#[test]
fn a_failed_attempt_waits_and_tries_again() {
    let mut session = Session::new(settings("secret"), "glowmarkt_logger-1".to_string());
    assert_eq!(session.step(SessionEvent::Poll), SessionAction::Connect);
    assert_eq!(session.step(SessionEvent::ConnectFailed), SessionAction::Wait(10));
    assert_eq!(session.current_state(), SessionState::Disconnected);
    assert_eq!(session.step(SessionEvent::Poll), SessionAction::Connect);
    assert_eq!(session.current_state(), SessionState::Connecting);
}

#[test]
fn each_message_is_processed_before_the_next_is_received() {
    let mut session = subscribed();
    for outcome in [
        Outcome::Inserted,
        Outcome::Duplicate,
        Outcome::DecodeFailed,
        Outcome::PoolExhausted,
        Outcome::PersistFailed,
    ] {
        assert_eq!(session.step(SessionEvent::Arrived), SessionAction::Process);
        assert_eq!(session.current_state(), SessionState::Subscribed);
        assert_eq!(session.step(SessionEvent::Processed(outcome)), SessionAction::Receive);
        assert_eq!(session.current_state(), SessionState::Subscribed);
    }
}

#[test]
fn a_lost_transport_resumes_without_a_new_subscription() {
    let mut session = subscribed();
    assert_eq!(session.step(SessionEvent::Arrived), SessionAction::Process);
    assert_eq!(session.step(SessionEvent::Processed(Outcome::Inserted)), SessionAction::Receive);
    assert_eq!(session.step(SessionEvent::Interrupted), SessionAction::Receive);
    assert_eq!(session.step(SessionEvent::Interrupted), SessionAction::Receive);
    assert_eq!(session.current_state(), SessionState::Subscribed);
    assert_eq!(session.step(SessionEvent::Arrived), SessionAction::Process);
    assert_eq!(session.step(SessionEvent::Processed(Outcome::Duplicate)), SessionAction::Receive);
    assert_eq!(session.current_state(), SessionState::Subscribed);
}

#[test]
fn stray_events_do_not_derail_the_session() {
    let mut session = subscribed();
    assert_eq!(session.step(SessionEvent::Poll), SessionAction::Receive);
    assert_eq!(session.step(SessionEvent::ConnectFailed), SessionAction::Receive);
    assert_eq!(session.step(SessionEvent::Connected), SessionAction::Receive);
    assert_eq!(session.current_state(), SessionState::Subscribed);

    let mut session = Session::new(settings("secret"), "glowmarkt_logger-1".to_string());
    assert_eq!(session.step(SessionEvent::Arrived), SessionAction::Wait(10));
    assert_eq!(session.step(SessionEvent::Connected), SessionAction::Wait(10));
    assert_eq!(session.current_state(), SessionState::Disconnected);
    assert_eq!(session.step(SessionEvent::Poll), SessionAction::Connect);
    assert_eq!(session.step(SessionEvent::Arrived), SessionAction::Wait(10));
    assert_eq!(session.current_state(), SessionState::Disconnected);
}

#[test]
fn every_connection_uses_the_one_client_identifier() {
    let mut session = Session::new(settings("secret"), "glowmarkt_logger-abc".to_string());
    let first = session.connect_request();
    assert_eq!(session.step(SessionEvent::Poll), SessionAction::Connect);
    assert_eq!(session.step(SessionEvent::ConnectFailed), SessionAction::Wait(10));
    assert_eq!(session.step(SessionEvent::Poll), SessionAction::Connect);
    let second = session.connect_request();
    assert_eq!(first, second);
    assert_eq!(first.client_id, "glowmarkt_logger-abc");
    assert_eq!(first.server_uri, "tcp://broker:1883");
    assert_eq!(first.topic, "glow/meter");
    assert_eq!(first.user_name, "user");
    assert_eq!(first.password, "secret");
    assert_eq!(first.qos, 1);
    assert!(first.clean_session);
    assert_eq!(first.connect_timeout_secs, 5);
    assert_eq!((first.min_retry_interval_secs, first.max_retry_interval_secs), (1, 30));
}

#[test]
fn a_client_identifier_is_the_prefix_and_a_uuid() {
    assert_eq!(
        client_id_for("67e55044-10b1-426f-9247-bb680e5fe0c8"),
        "glowmarkt_logger-67e55044-10b1-426f-9247-bb680e5fe0c8"
    );
    assert_eq!(client_id_for(""), "glowmarkt_logger-");
    let generated = generate_client_id();
    assert_eq!(generated.len(), 17 + 36);
    assert!(generated.starts_with("glowmarkt_logger-"));
    let uuid = &generated[17..];
    for (index, character) in uuid.chars().enumerate() {
        if index == 8 || index == 13 || index == 18 || index == 23 {
            assert_eq!(character, '-');
        } else {
            assert!(character.is_ascii_digit() || ('a'..='f').contains(&character));
        }
    }
    assert_eq!(uuid.as_bytes()[14], b'4');
    assert_ne!(generate_client_id(), generated);
}

#[test]
fn the_checkpoint_task_keeps_its_cadence() {
    let (mut task, action) = CheckpointTask::start();
    assert_eq!(action, CheckpointAction::Sleep(60));
    assert_eq!(task.state(), CheckpointState::Sleeping);
    assert_eq!(task.step(CheckpointEvent::Elapsed), CheckpointAction::Acquire);
    assert_eq!(task.state(), CheckpointState::Acquiring);
    assert_eq!(task.step(CheckpointEvent::Acquired), CheckpointAction::Checkpoint);
    assert_eq!(task.state(), CheckpointState::Checkpointing);
    assert_eq!(task.step(CheckpointEvent::Executed), CheckpointAction::Sleep(60));
    assert_eq!(task.state(), CheckpointState::Sleeping);
    assert_eq!(CHECKPOINT_INTERVAL_SECS, 60);
    assert_eq!(checkpoint_statement(), "PRAGMA wal_checkpoint(TRUNCATE);");
}

#[test]
fn checkpoint_failures_wait_for_the_next_cycle() {
    let (mut task, _) = CheckpointTask::start();
    assert_eq!(task.step(CheckpointEvent::Elapsed), CheckpointAction::Acquire);
    assert_eq!(task.step(CheckpointEvent::AcquireFailed), CheckpointAction::Sleep(60));
    assert_eq!(task.state(), CheckpointState::Sleeping);
    assert_eq!(task.step(CheckpointEvent::Elapsed), CheckpointAction::Acquire);
    assert_eq!(task.step(CheckpointEvent::Acquired), CheckpointAction::Checkpoint);
    assert_eq!(task.step(CheckpointEvent::ExecuteFailed), CheckpointAction::Sleep(60));
    assert_eq!(task.state(), CheckpointState::Sleeping);
    assert_eq!(task.step(CheckpointEvent::Elapsed), CheckpointAction::Acquire);
}

#[test]
fn stray_reports_send_the_checkpoint_task_to_sleep() {
    let (mut task, _) = CheckpointTask::start();
    assert_eq!(task.step(CheckpointEvent::Acquired), CheckpointAction::Sleep(60));
    assert_eq!(task.step(CheckpointEvent::Executed), CheckpointAction::Sleep(60));
    assert_eq!(task.step(CheckpointEvent::Elapsed), CheckpointAction::Acquire);
    assert_eq!(task.step(CheckpointEvent::Elapsed), CheckpointAction::Sleep(60));
    assert_eq!(task.state(), CheckpointState::Sleeping);
}
