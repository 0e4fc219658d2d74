use rudecha::driver::exit_sentinel;
use rudecha::driver::is_exit_sentinel;
use rudecha::driver::on_operator_line;
use rudecha::driver::on_recv_outcome;
use rudecha::driver::LocalStep;
use rudecha::message::Category;
use rudecha::message::RecvErr;
use rudecha::reader::reader_step;
use rudecha::reader::ReadEvent;
use rudecha::reader::ReaderState;
use rudecha::scrollback::ScrollbackBuffer;
use rudecha::session::SessionState;

#[test]
fn the_exit_sentinel_is_recognised() {
    assert_eq!(exit_sentinel(), ":q");
    assert!(is_exit_sentinel(&":q".to_string()));
    assert!(!is_exit_sentinel(&"hello".to_string()));
    assert!(!is_exit_sentinel(&":q ".to_string()));
}

#[test]
fn sentinel_line_quits_without_a_record() {
    let mut buffer = ScrollbackBuffer::new();
    match on_operator_line(&mut buffer, ":q".to_string()) {
        LocalStep::Quit => {}
        LocalStep::Transmit(_) => panic!("the sentinel must not be transmitted"),
    }
    assert_eq!(buffer.len(), 0);
}

#[test]
fn typed_line_is_recorded_and_transmitted() {
    let mut buffer = ScrollbackBuffer::new();
    match on_operator_line(&mut buffer, "hi".to_string()) {
        LocalStep::Transmit(text) => assert_eq!(text, "hi"),
        LocalStep::Quit => panic!("an ordinary line must be transmitted"),
    }
    assert_eq!(buffer.render(), vec!["me: hi".to_string()]);
}

#[test]
fn recv_outcomes_drive_the_tick() {
    let mut buffer = ScrollbackBuffer::new();
    assert!(!on_recv_outcome(&mut buffer, Ok("yo".to_string())));
    assert_eq!(buffer.render(), vec!["partner: yo".to_string()]);
    assert!(!on_recv_outcome(&mut buffer, Err(RecvErr::Empty)));
    assert_eq!(buffer.render(), vec!["partner: yo".to_string()]);
    assert!(on_recv_outcome(&mut buffer, Err(RecvErr::Terminate)));
    assert_eq!(buffer.render(), vec!["partner: yo".to_string()]);
}

#[test]
fn fatal_read_error_ends_the_session_like_a_disconnect() {
    let mut session = SessionState::new();
    session.mark_started();
    let (reader, msg) = reader_step(ReaderState::Reading, ReadEvent::ReadFailed);
    assert_eq!(reader, ReaderState::Stopped);
    let msg = msg.expect("the failure must be surfaced");
    let outcome = session.classify_recv(Some(msg));
    assert_eq!(outcome, Err(RecvErr::Terminate));
    let mut buffer = ScrollbackBuffer::new();
    assert!(on_recv_outcome(&mut buffer, outcome));
    assert!(buffer.render().is_empty());
}

#[test]
fn round_trip_hello_reaches_the_scrollback() {
    let mut session = SessionState::new();
    session.mark_started();
    let (reader, msg) = reader_step(ReaderState::Reading, ReadEvent::BytesArrived(b"hello".to_vec()));
    assert_eq!(reader, ReaderState::Reading);
    let msg = msg.expect("the chunk must be forwarded");
    assert_eq!(msg.category, Category::Received);
    let outcome = session.classify_recv(Some(msg));
    assert_eq!(outcome, Ok("hello".to_string()));
    let mut buffer = ScrollbackBuffer::new();
    assert!(!on_recv_outcome(&mut buffer, outcome));
    assert!(buffer.render().contains(&"partner: hello".to_string()));
}
