use qwen_session::capture::StreamChunkPayload;
use qwen_session::config::HeadlessConfig;
use qwen_session::manager::{qwen_status, QwenSessionManager, SendAck, TransportProbe};
use qwen_session::terminal::{
    session_interrupted_payload, EnsureAlive, TerminalDispatch, TerminalPhase, TerminalSession,
    WriteError, SESSION_INTERRUPTED_MESSAGE,
};

fn alive_with_round(round: u64) -> TerminalSession {
    let mut session = TerminalSession::new();
    session.ensure_alive(false);
    session.process_spawned(true);
    session.set_current_round(round);
    session
}

#[test]
fn new_session_is_unspawned() {
    let session = TerminalSession::new();
    assert_eq!(session.phase, TerminalPhase::Unspawned);
    assert_eq!(session.current_round, 0);
    assert!(!session.status(true).running);
    assert_eq!(session.write_line("hi"), Err(WriteError::NotAlive));
}

#[test]
fn first_round_spawns_without_tear_down() {
    let mut session = TerminalSession::new();
    let dispatch = session.ensure_alive(true);
    assert_eq!(
        dispatch,
        TerminalDispatch {
            action: EnsureAlive::Spawn { tear_down: false },
            continuity: false,
            interrupted: false
        }
    );
    session.process_spawned(true);
    assert_eq!(session.phase, TerminalPhase::Alive);
    assert!(session.status(true).running);
    assert_eq!(session.write_line("hi"), Ok("hi\n".to_string()));
    assert_eq!(session.write_line(""), Ok("\n".to_string()));
}

#[test]
fn failed_spawn_leaves_the_session_as_it_was() {
    let mut session = TerminalSession::new();
    session.ensure_alive(true);
    session.process_spawned(false);
    assert_eq!(session, TerminalSession::new());
}

#[test]
fn live_process_is_reused_and_continues() {
    let mut session = alive_with_round(1);
    let dispatch = session.ensure_alive(true);
    assert_eq!(
        dispatch,
        TerminalDispatch { action: EnsureAlive::AlreadyAlive, continuity: true, interrupted: false }
    );
    assert_eq!(session.current_round, 1);
}

#[test]
fn live_process_without_a_round_does_not_continue() {
    let mut session = TerminalSession::new();
    session.ensure_alive(true);
    session.process_spawned(true);
    let dispatch = session.ensure_alive(true);
    assert_eq!(dispatch.action, EnsureAlive::AlreadyAlive);
    assert!(!dispatch.continuity);
}

#[test]
fn death_after_a_round_interrupts_once() {
    let mut session = alive_with_round(3);
    assert!(session.process_died());
    assert_eq!(session.phase, TerminalPhase::Dead);
    assert!(!session.process_died());
    assert!(!session.status(true).running);
    assert!(!session.status(false).running);
    assert_eq!(session.write_line("late"), Err(WriteError::NotAlive));
}

#[test]
fn death_before_any_round_is_silent() {
    let mut session = TerminalSession::new();
    assert!(!session.process_died());
    assert_eq!(session.phase, TerminalPhase::Unspawned);
    session.ensure_alive(true);
    session.process_spawned(true);
    assert!(!session.process_died());
    assert_eq!(session.phase, TerminalPhase::Dead);
}

#[test]
fn send_after_death_respawns_without_continuity() {
    let mut session = alive_with_round(3);
    session.process_died();
    let dispatch = session.ensure_alive(true);
    assert_eq!(
        dispatch,
        TerminalDispatch {
            action: EnsureAlive::Spawn { tear_down: true },
            continuity: false,
            interrupted: false
        }
    );
    session.process_spawned(true);
    session.set_current_round(4);
    assert!(session.status(true).running);
    assert_eq!(session.current_round, 4);
    assert!(session.ensure_alive(true).continuity);
}

#[test]
fn failed_probe_marks_the_process_dead() {
    let mut session = alive_with_round(2);
    assert!(!session.status(false).running);
    let dispatch = session.ensure_alive(false);
    assert_eq!(
        dispatch,
        TerminalDispatch {
            action: EnsureAlive::Spawn { tear_down: true },
            continuity: false,
            interrupted: true
        }
    );
    assert_eq!(session.phase, TerminalPhase::Dead);
}

#[test]
fn output_before_any_round_is_dropped() {
    let mut session = TerminalSession::new();
    session.ensure_alive(true);
    session.process_spawned(true);
    assert_eq!(session.route_output(b"banner"), None);
}

#[test]
fn output_is_tagged_with_the_marked_round() {
    let session = alive_with_round(7);
    assert_eq!(
        session.route_output("héllo\r\n".as_bytes()),
        Some(StreamChunkPayload { round_id: 7, chunk: "héllo\r\n".to_string() })
    );
    assert_eq!(session.route_output(b""), None);
}

#[test]
fn invalid_bytes_are_replaced() {
    let session = alive_with_round(7);
    assert_eq!(
        session.route_output(&[b'a', 0xff, b'b']),
        Some(StreamChunkPayload { round_id: 7, chunk: "a\u{fffd}b".to_string() })
    );
}

#[test]
fn live_probe_leaves_the_record_as_it_is() {
    let mut session = alive_with_round(5);
    let before = session;
    session.ensure_alive(true);
    session.ensure_alive(true);
    assert_eq!(session, before);
}

#[test]
fn send_after_death_gets_a_fresh_round_without_continuity() {
    let dir = Some(HeadlessConfig { working_directory: Some("/w".to_string()), approval_mode: None });
    let mut manager = QwenSessionManager::new();
    let mut session = TerminalSession::new();

    let dispatch = session.ensure_alive(false);
    let first = dispatch.adopt(manager.begin_send("one".to_string(), None, dir.clone()));
    session.process_spawned(true);
    session.set_current_round(first.round_id);
    manager.finish_send(first, Ok(()));

    assert!(session.process_died());
    assert!(!session.status(true).running);

    let dispatch = session.ensure_alive(false);
    let planned = manager.begin_send("two".to_string(), None, dir.clone());
    assert!(planned.continuity);
    let second = dispatch.adopt(planned);
    assert!(!second.continuity);
    assert_eq!(second.round_id, 2);
    assert_eq!(second.input, "two");
    session.process_spawned(true);
    session.set_current_round(second.round_id);
    let report = manager.finish_send(second, Ok(()));
    assert_eq!(report.result, Ok(SendAck { ok: true, round_id: 2 }));
    assert!(session.status(true).running);
    assert_eq!(manager.session_config(), dir);
}

#[test]
fn interrupted_notice_has_its_message() {
    assert_eq!(session_interrupted_payload().message, SESSION_INTERRUPTED_MESSAGE);
}

#[test]
fn status_after_death_is_not_running() {
    let mut session = alive_with_round(3);
    assert!(qwen_status(TransportProbe::Terminal { session, probe_alive: true }).running);
    assert!(!qwen_status(TransportProbe::Terminal { session, probe_alive: false }).running);
    session.process_died();
    assert!(!qwen_status(TransportProbe::Terminal { session, probe_alive: true }).running);
    assert!(!qwen_status(TransportProbe::Terminal { session, probe_alive: false }).running);

    let mut probed = alive_with_round(3);
    probed.ensure_alive(false);
    assert!(!qwen_status(TransportProbe::Terminal { session: probed, probe_alive: true }).running);

    let unspawned = TerminalSession::new();
    assert!(!qwen_status(TransportProbe::Terminal { session: unspawned, probe_alive: true }).running);

    session.ensure_alive(true);
    session.process_spawned(true);
    assert!(qwen_status(TransportProbe::Terminal { session, probe_alive: true }).running);
}
