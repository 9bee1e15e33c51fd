use termio::source::{
    can_poll,
    Readiness, SourceAction, WasiInternalEventSource, CLOCK_TOKEN, EVENTTYPE_CLOCK, EVENTTYPE_FD_READ,
    RESIZE_TOKEN, TTY_BUFFER_SIZE, TTY_TOKEN,
};
use termio::terminal::TermError;
use termio::{InternalEvent, KeyCode, KeyEvent};

fn ready(token: u64, kind: u8, nbytes: u64) -> Readiness {
    Readiness { token, kind, error: 0, nbytes }
}

fn key(code: KeyCode) -> InternalEvent {
    InternalEvent::Key(KeyEvent { code, shift: false, ctrl: false, alt: false })
}

#[test]
fn zero_timeout_with_nothing_pending() {
    let mut s = WasiInternalEventSource::new();
    assert_eq!(s.try_read(), SourceAction::Poll);
    assert_eq!(s.on_poll(Ok(vec![ready(CLOCK_TOKEN, EVENTTYPE_CLOCK, 0)])), SourceAction::Deliver(None));
    assert_eq!(s.try_read(), SourceAction::Poll);
    assert_eq!(s.on_poll(Ok(vec![])), SourceAction::Deliver(None));
}

#[test]
fn window_change_yields_resize() {
    let mut s = WasiInternalEventSource::new();
    s.try_read();
    assert_eq!(s.on_poll(Ok(vec![ready(RESIZE_TOKEN, EVENTTYPE_FD_READ, 1)])), SourceAction::ReadResize(1));
    assert_eq!(s.on_resize(Ok(vec![1])), SourceAction::QuerySize);
    assert_eq!(s.on_size(Ok((120, 40))), SourceAction::Deliver(Some(InternalEvent::Resize(120, 40))));
}

#[test]
fn other_resize_payload_is_ignored() {
    let mut s = WasiInternalEventSource::new();
    s.try_read();
    s.on_poll(Ok(vec![ready(RESIZE_TOKEN, EVENTTYPE_FD_READ, 1)]));
    assert_eq!(s.on_resize(Ok(vec![2])), SourceAction::Poll);
}

#[test]
fn input_is_read_and_decoded() {
    let mut s = WasiInternalEventSource::new();
    assert_eq!(s.try_read(), SourceAction::Poll);
    assert_eq!(s.on_poll(Ok(vec![ready(TTY_TOKEN, EVENTTYPE_FD_READ, 4)])), SourceAction::ReadInput(4));
    assert_eq!(s.on_input(Ok(b"ab".to_vec())), SourceAction::Deliver(Some(key(KeyCode::Char(0x61)))));
    assert_eq!(s.try_read(), SourceAction::Deliver(Some(key(KeyCode::Char(0x62)))));
    assert_eq!(s.try_read(), SourceAction::Poll);
}

#[test]
fn partial_input_waits_for_more() {
    let mut s = WasiInternalEventSource::new();
    s.try_read();
    s.on_poll(Ok(vec![ready(TTY_TOKEN, EVENTTYPE_FD_READ, 2)]));
    assert_eq!(s.on_input(Ok(b"\x1b[".to_vec())), SourceAction::Poll);
    assert_eq!(s.on_poll(Ok(vec![ready(TTY_TOKEN, EVENTTYPE_FD_READ, 1)])), SourceAction::ReadInput(1));
    assert_eq!(s.on_input(Ok(b"D".to_vec())), SourceAction::Deliver(Some(key(KeyCode::Left))));
}

#[test]
fn input_before_resize_then_clock() {
    let mut s = WasiInternalEventSource::new();
    s.try_read();
    let rs = vec![
        ready(CLOCK_TOKEN, EVENTTYPE_CLOCK, 0),
        ready(RESIZE_TOKEN, EVENTTYPE_FD_READ, 1),
        ready(TTY_TOKEN, EVENTTYPE_FD_READ, 2),
    ];
    assert_eq!(s.on_poll(Ok(rs)), SourceAction::ReadInput(2));
    assert_eq!(s.on_input(Ok(b"\x1b[".to_vec())), SourceAction::ReadResize(1));
    assert_eq!(s.on_resize(Ok(vec![0])), SourceAction::Deliver(None));
}

#[test]
fn large_input_grows_buffer() {
    let mut s = WasiInternalEventSource::new();
    assert_eq!(s.buffer_len(), TTY_BUFFER_SIZE);
    s.try_read();
    assert_eq!(s.on_poll(Ok(vec![ready(TTY_TOKEN, EVENTTYPE_FD_READ, 5000)])), SourceAction::ReadInput(5000));
    assert_eq!(s.buffer_len(), 5000);
    // a full buffer means more may follow: a trailing ESC stays pending
    let mut bytes = vec![b'x'; 4999];
    bytes.push(0x1B);
    assert_eq!(s.on_input(Ok(bytes)), SourceAction::Deliver(Some(key(KeyCode::Char(0x78)))));
    for _ in 1..4999 {
        assert_eq!(s.try_read(), SourceAction::Deliver(Some(key(KeyCode::Char(0x78)))));
    }
    assert_eq!(s.try_read(), SourceAction::Poll);
}

#[test]
fn short_read_finalizes_escape() {
    let mut s = WasiInternalEventSource::new();
    s.try_read();
    s.on_poll(Ok(vec![ready(TTY_TOKEN, EVENTTYPE_FD_READ, 1)]));
    assert_eq!(s.on_input(Ok(vec![0x1B])), SourceAction::Deliver(Some(key(KeyCode::Esc))));
}

#[test]
fn errors_are_reported() {
    let mut s = WasiInternalEventSource::new();
    s.try_read();
    assert_eq!(s.on_poll(Err(28)), SourceAction::Fail(TermError::Io(28)));
    let bad = Readiness { token: TTY_TOKEN, kind: EVENTTYPE_FD_READ, error: 8, nbytes: 0 };
    assert_eq!(s.on_poll(Ok(vec![bad])), SourceAction::Fail(TermError::Io(8)));
    assert_eq!(s.on_poll(Ok(vec![ready(9, EVENTTYPE_FD_READ, 1)])), SourceAction::Fail(TermError::UnknownChannel));
    s.on_poll(Ok(vec![ready(TTY_TOKEN, EVENTTYPE_FD_READ, 1)]));
    assert_eq!(s.on_input(Err(5)), SourceAction::Fail(TermError::Io(5)));
    assert_eq!(s.on_resize(Err(6)), SourceAction::Fail(TermError::Io(6)));
    assert_eq!(s.on_size(Err(7)), SourceAction::Fail(TermError::Io(7)));
    assert_eq!(s.on_size(Ok((0, 0))), SourceAction::Fail(TermError::Unsupported));
}

#[test]
fn terminal_input_descriptor_check() {
    assert!(can_poll(2, 0b10));
    assert!(can_poll(2, u64::MAX));
    assert!(!can_poll(2, 0b01));
    assert!(!can_poll(4, 0b10));
}

#[test]
fn resize_without_size_query() {
    let mut s = WasiInternalEventSource::new();
    s.try_read();
    s.on_poll(Ok(vec![ready(RESIZE_TOKEN, EVENTTYPE_FD_READ, 1)]));
    assert_eq!(s.on_resize(Ok(vec![1])), SourceAction::QuerySize);
    assert_eq!(s.on_size(Err(52)), SourceAction::Fail(TermError::Unsupported));
}
