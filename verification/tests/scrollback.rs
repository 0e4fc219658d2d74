use rudecha::message::ThreadMessage;
use rudecha::scrollback::ScrollbackBuffer;
use rudecha::scrollback::SCROLLBACK_CAPACITY;

#[test]
fn empty_scrollback_renders_nothing() {
    let buffer = ScrollbackBuffer::new();
    assert_eq!(buffer.len(), 0);
    assert!(buffer.render().is_empty());
}

#[test]
fn two_records_render_in_order() {
    let mut buffer = ScrollbackBuffer::new();
    buffer.append(ThreadMessage::sent("hi".to_string()));
    buffer.append(ThreadMessage::received("yo".to_string()));
    assert_eq!(buffer.render(), vec!["me: hi".to_string(), "partner: yo".to_string()]);
}

#[test]
fn overflow_evicts_the_oldest() {
    let mut buffer = ScrollbackBuffer::new();
    for i in 0..13u32 {
        buffer.append(ThreadMessage::sent(format!("line {}", i)));
    }
    assert_eq!(buffer.len(), SCROLLBACK_CAPACITY);
    let lines = buffer.render();
    assert_eq!(lines.len(), SCROLLBACK_CAPACITY);
    for (k, line) in lines.iter().enumerate() {
        assert_eq!(line, &format!("me: line {}", k + 3));
    }
}

#[test]
fn terminate_records_show_no_line() {
    let mut buffer = ScrollbackBuffer::new();
    buffer.append(ThreadMessage::sent("hi".to_string()));
    buffer.append(ThreadMessage::terminate());
    buffer.append(ThreadMessage::received("yo".to_string()));
    assert_eq!(buffer.len(), 3);
    assert_eq!(buffer.render(), vec!["me: hi".to_string(), "partner: yo".to_string()]);
}

#[test]
fn directions_keep_insertion_order_under_overflow() {
    let mut buffer = ScrollbackBuffer::new();
    buffer.append(ThreadMessage::sent("first".to_string()));
    for i in 0..SCROLLBACK_CAPACITY {
        buffer.append(ThreadMessage::received(format!("r{}", i)));
    }
    let lines = buffer.render();
    assert_eq!(lines.len(), SCROLLBACK_CAPACITY);
    assert_eq!(lines[0], "partner: r0");
    assert_eq!(lines[SCROLLBACK_CAPACITY - 1], format!("partner: r{}", SCROLLBACK_CAPACITY - 1));
}
