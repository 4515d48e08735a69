use cncd::begin_session;
use cncd::link::{DeviceConfig, LinkLifecycle, ReaderPhase, WriterDirective, WriterPhase};
use cncd::session::{Session, SessionAction, SessionEvent, SessionState};

fn test_config() -> DeviceConfig {
    DeviceConfig { path: "/dev/ttyUSB0".to_string(), baud: 115200 }
}

#[test]
fn heartbeat_timeout_detected_on_third_tick() {
    // tick interval 5, timeout 10: silence is noticed at the tick after
    // 10 time-units have passed, without waiting for a further tick
    let mut session = Session::with_config(5, 10, 0);
    let first = session.on_event(SessionEvent::HeartbeatTick, 5);
    assert_eq!(first, vec![SessionAction::SendPing]);
    assert_eq!(session.state(), SessionState::Active);
    let second = session.on_event(SessionEvent::HeartbeatTick, 10);
    assert_eq!(second, vec![SessionAction::SendPing]);
    assert_eq!(session.state(), SessionState::Active);
    let third = session.on_event(SessionEvent::HeartbeatTick, 15);
    assert!(third.is_empty());
    assert_eq!(session.state(), SessionState::Terminated);
}

#[test]
fn ping_refreshes_liveness_and_is_answered() {
    let mut session = Session::with_config(5, 10, 0);
    let actions = session.on_event(SessionEvent::ClientPing(vec![1, 2, 3]), 8);
    assert_eq!(actions, vec![SessionAction::SendPong(vec![1, 2, 3])]);
    assert_eq!(session.state(), SessionState::Active);
    // 15 - 8 = 7 <= 10: still alive on the next tick
    let tick = session.on_event(SessionEvent::HeartbeatTick, 15);
    assert_eq!(tick, vec![SessionAction::SendPing]);
    assert_eq!(session.state(), SessionState::Active);
}

#[test]
fn pong_refreshes_liveness_silently() {
    let mut session = Session::new(0);
    let actions = session.on_event(SessionEvent::ClientPong, 9);
    assert!(actions.is_empty());
    assert_eq!(session.state(), SessionState::Active);
    let tick = session.on_event(SessionEvent::HeartbeatTick, 19);
    assert_eq!(tick, vec![SessionAction::SendPing]);
}

#[test]
fn text_frame_is_forwarded_verbatim() {
    let mut session = Session::new(0);
    let actions = session.on_event(SessionEvent::ClientText("G0 X10 Y-3.5\n".to_string()), 1);
    assert_eq!(actions, vec![SessionAction::ForwardCommand("G0 X10 Y-3.5\n".to_string())]);
    assert_eq!(session.state(), SessionState::Active);
}

#[test]
fn close_frame_is_echoed_and_terminates() {
    let mut session = Session::new(0);
    let actions = session.on_event(SessionEvent::ClientClose(Some("bye".to_string())), 2);
    assert_eq!(actions, vec![SessionAction::EchoClose(Some("bye".to_string()))]);
    assert_eq!(session.state(), SessionState::Terminated);
}

#[test]
fn unsupported_frame_terminates_at_once() {
    let mut session = Session::new(0);
    let actions = session.on_event(SessionEvent::ClientUnsupported, 3);
    assert!(actions.is_empty());
    assert_eq!(session.state(), SessionState::Terminated);
}

#[test]
fn device_line_goes_to_the_client_verbatim() {
    let mut session = Session::new(0);
    let actions = session.on_event(SessionEvent::DeviceLine("ok".to_string()), 4);
    assert_eq!(actions, vec![SessionAction::SendText("ok".to_string())]);
    assert_eq!(session.state(), SessionState::Active);
}

#[test]
fn device_end_of_stream_does_not_terminate() {
    let mut session = Session::new(0);
    let actions = session.on_event(SessionEvent::DeviceClosed, 5);
    assert!(actions.is_empty());
    assert_eq!(session.state(), SessionState::Active);
}

#[test]
fn failed_forward_is_fatal_to_the_session() {
    let mut session = Session::new(0);
    let actions = session.on_event(SessionEvent::CommandSendFailed, 6);
    assert!(actions.is_empty());
    assert_eq!(session.state(), SessionState::Terminated);
}

#[test]
fn writer_writes_commands_verbatim() {
    let mut link = LinkLifecycle::new(test_config());
    let directive = link.on_command(Some("M114\n".to_string()));
    assert_eq!(directive, WriterDirective::Write("M114\n".to_string()));
    assert_eq!(link.writer_task(), WriterPhase::Running);
    assert_eq!(link.reader_task(), ReaderPhase::Running);
}

#[test]
fn shutdown_runs_writer_then_reader_then_release() {
    let mut link = LinkLifecycle::new(test_config());
    assert!(!link.released());
    // the command stream ends: the writer exits and asks the reader to stop
    let directive = link.on_command(None);
    assert_eq!(directive, WriterDirective::ShutDown);
    assert_eq!(link.writer_task(), WriterPhase::Exited);
    assert_eq!(link.reader_task(), ReaderPhase::CancelRequested);
    assert!(!link.released());
    // the reader honours the cancellation; only then may the handle go
    link.on_reader_exit();
    assert_eq!(link.reader_task(), ReaderPhase::Finished);
    link.release_device();
    assert!(link.released());
}

#[test]
fn write_failure_shuts_the_link_down_too() {
    let mut link = LinkLifecycle::new(test_config());
    link.on_write_failed();
    assert_eq!(link.writer_task(), WriterPhase::Exited);
    assert_eq!(link.reader_task(), ReaderPhase::CancelRequested);
}

#[test]
fn reader_may_fail_first_and_the_link_still_closes() {
    let mut link = LinkLifecycle::new(test_config());
    // a read error ends the reader on its own; the session lives on
    link.on_reader_exit();
    assert_eq!(link.reader_task(), ReaderPhase::Finished);
    assert_eq!(link.writer_task(), WriterPhase::Running);
    let directive = link.on_command(None);
    assert_eq!(directive, WriterDirective::ShutDown);
    assert_eq!(link.reader_task(), ReaderPhase::Finished);
    link.release_device();
    assert!(link.released());
}

#[test]
fn begin_session_assembles_a_fresh_connection() {
    let (session, link, commands, responses) = begin_session(test_config(), 7);
    assert_eq!(session.state(), SessionState::Active);
    assert_eq!(link.writer_task(), WriterPhase::Running);
    assert_eq!(link.reader_task(), ReaderPhase::Running);
    assert!(!link.released());
    assert_eq!(commands.capacity(), 100);
    assert_eq!(responses.capacity(), 42);
    assert_eq!(commands.len(), 0);
    assert_eq!(responses.len(), 0);
}
