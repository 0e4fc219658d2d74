use rudecha::message::RecvErr;
use rudecha::message::ThreadMessage;
use rudecha::session::SessionErr;
use rudecha::session::SessionState;

#[test]
fn recv_before_any_data_is_empty() {
    let mut state = SessionState::new();
    state.mark_started();
    assert_eq!(state.classify_recv(None), Err(RecvErr::Empty));
}

#[test]
fn terminate_message_ends_polling() {
    let mut state = SessionState::new();
    state.mark_started();
    assert_eq!(state.classify_recv(Some(ThreadMessage::terminate())), Err(RecvErr::Terminate));
}

#[test]
fn received_message_yields_its_text() {
    let mut state = SessionState::new();
    state.mark_started();
    assert_eq!(state.classify_recv(Some(ThreadMessage::received("yo".to_string()))), Ok("yo".to_string()));
}

#[test]
fn shutdown_succeeds_exactly_once() {
    let mut state = SessionState::new();
    state.mark_started();
    assert_eq!(state.shutdown(), Ok(()));
    assert_eq!(state.shutdown(), Err(SessionErr::NotStarted));
    assert_eq!(state.shutdown(), Err(SessionErr::NotStarted));
}

#[test]
fn shutdown_before_start_is_refused() {
    let mut state = SessionState::new();
    assert_eq!(state.shutdown(), Err(SessionErr::NotStarted));
    assert!(!state.has_reader);
    assert!(!state.has_messenger);
}

#[test]
fn start_sets_both_handles_together() {
    let mut state = SessionState::new();
    assert!(!state.has_reader && !state.has_messenger);
    state.mark_started();
    assert!(state.has_reader && state.has_messenger);
    state.shutdown().expect("a started session shuts down");
    assert!(!state.has_reader && !state.has_messenger);
}
