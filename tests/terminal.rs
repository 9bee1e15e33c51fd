use termio::terminal::{
    disable_raw_mode, enable_raw_mode, is_raw_mode_enabled, raw_mode_reply, size_from_query, ModeAction,
    ModeReply, RawModeState, TermError, TerminalMode,
};

fn mode(tag: u32) -> TerminalMode {
    TerminalMode {
        input_flags: tag,
        output_flags: tag + 1,
        control_flags: tag + 2,
        local_flags: tag + 3,
        control_chars: [tag as u8; 32],
    }
}

fn same(a: &TerminalMode, b: &TerminalMode) -> bool {
    a.input_flags == b.input_flags
        && a.output_flags == b.output_flags
        && a.control_flags == b.control_flags
        && a.local_flags == b.local_flags
        && a.control_chars == b.control_chars
}

fn enable_with(s: &mut RawModeState, m: TerminalMode) -> ModeAction {
    match enable_raw_mode(s) {
        ModeAction::QueryMode => {}
        other => return other,
    }
    match raw_mode_reply(s, ModeReply::Queried(Ok(m))) {
        ModeAction::ApplyRaw(t) => assert!(same(&t, &m)),
        other => panic!("unexpected {:?}", other),
    }
    raw_mode_reply(s, ModeReply::Applied(Ok(())))
}

#[test]
fn enable_twice_is_enable_once() {
    let mut s = RawModeState::new();
    assert!(matches!(enable_with(&mut s, mode(7)), ModeAction::Done(Ok(()))));
    assert!(is_raw_mode_enabled(&s));
    assert!(matches!(enable_raw_mode(&mut s), ModeAction::Done(Ok(()))));
    assert!(is_raw_mode_enabled(&s));
    match disable_raw_mode(&mut s) {
        ModeAction::Restore(t) => assert!(same(&t, &mode(7))),
        other => panic!("unexpected {:?}", other),
    }
}

#[test]
fn enable_then_disable_restores_mode() {
    let mut s = RawModeState::new();
    enable_with(&mut s, mode(40));
    match disable_raw_mode(&mut s) {
        ModeAction::Restore(t) => assert!(same(&t, &mode(40))),
        other => panic!("unexpected {:?}", other),
    }
    assert!(matches!(raw_mode_reply(&mut s, ModeReply::Applied(Ok(()))), ModeAction::Done(Ok(()))));
    assert!(!is_raw_mode_enabled(&s));
}

#[test]
fn disable_when_never_enabled() {
    let mut s = RawModeState::new();
    assert!(matches!(disable_raw_mode(&mut s), ModeAction::Done(Ok(()))));
    assert!(!is_raw_mode_enabled(&s));
}

#[test]
fn failed_query_or_apply_leaves_mode_off() {
    let mut s = RawModeState::new();
    assert!(matches!(enable_raw_mode(&mut s), ModeAction::QueryMode));
    assert!(matches!(
        raw_mode_reply(&mut s, ModeReply::Queried(Err(5))),
        ModeAction::Done(Err(TermError::Io(5)))
    ));
    assert!(!is_raw_mode_enabled(&s));
    enable_raw_mode(&mut s);
    raw_mode_reply(&mut s, ModeReply::Queried(Ok(mode(1))));
    assert!(matches!(
        raw_mode_reply(&mut s, ModeReply::Applied(Err(9))),
        ModeAction::Done(Err(TermError::Io(9)))
    ));
    assert!(!is_raw_mode_enabled(&s));
}

#[test]
fn failed_restore_keeps_snapshot() {
    let mut s = RawModeState::new();
    enable_with(&mut s, mode(3));
    disable_raw_mode(&mut s);
    assert!(matches!(
        raw_mode_reply(&mut s, ModeReply::Applied(Err(4))),
        ModeAction::Done(Err(TermError::Io(4)))
    ));
    assert!(is_raw_mode_enabled(&s));
    match disable_raw_mode(&mut s) {
        ModeAction::Restore(t) => assert!(same(&t, &mode(3))),
        other => panic!("unexpected {:?}", other),
    }
}

#[test]
fn reply_out_of_order() {
    let mut s = RawModeState::new();
    assert!(matches!(
        raw_mode_reply(&mut s, ModeReply::Applied(Ok(()))),
        ModeAction::Done(Err(TermError::OutOfOrder))
    ));
    enable_raw_mode(&mut s);
    assert!(matches!(
        raw_mode_reply(&mut s, ModeReply::Applied(Ok(()))),
        ModeAction::Done(Err(TermError::OutOfOrder))
    ));
    assert!(!is_raw_mode_enabled(&s));
}

#[test]
fn size_reply_checks() {
    assert_eq!(size_from_query(Ok((80, 24))), Ok((80, 24)));
    assert_eq!(size_from_query(Ok((0, 24))), Err(TermError::Unsupported));
    assert_eq!(size_from_query(Err(2)), Err(TermError::Io(2)));
}

#[test]
fn missing_size_query_is_unsupported() {
    assert_eq!(size_from_query(Err(52)), Err(TermError::Unsupported));
    assert_eq!(size_from_query(Err(58)), Err(TermError::Unsupported));
    assert_eq!(size_from_query(Err(29)), Err(TermError::Io(29)));
}
