use termio::parse::{parse_event, Parsed};
use termio::parser::Parser;
use termio::{InternalEvent, KeyCode, KeyEvent, MouseEvent};

fn key(code: KeyCode) -> InternalEvent {
    InternalEvent::Key(KeyEvent { code, shift: false, ctrl: false, alt: false })
}

fn drain(p: &mut Parser) -> Vec<InternalEvent> {
    let mut out = Vec::new();
    while let Some(e) = p.next_event() {
        out.push(e);
    }
    out
}

fn decode(chunks: &[(&[u8], bool)]) -> Vec<InternalEvent> {
    let mut p = Parser::new();
    for (c, more) in chunks {
        p.advance(c, *more);
    }
    drain(&mut p)
}

#[test]
fn cursor_up_in_single_byte_chunks() {
    let mut p = Parser::new();
    p.advance(&[0x1B], true);
    assert_eq!(p.next_event(), None);
    p.advance(&[0x5B], true);
    assert_eq!(p.next_event(), None);
    p.advance(&[0x41], false);
    assert_eq!(p.next_event(), Some(key(KeyCode::Up)));
    assert_eq!(p.next_event(), None);
}

#[test]
fn fragmented_mouse_report_equals_whole() {
    let whole: &[u8] = b"\x1b[<0;10;5M";
    let one = decode(&[(whole, false)]);
    let split = decode(&[(&whole[..2], true), (&whole[2..5], true), (&whole[5..], false)]);
    let expected = InternalEvent::Mouse(MouseEvent { button: 0, column: 9, row: 4, pressed: true });
    assert_eq!(one, vec![expected]);
    assert_eq!(split, one);
}

#[test]
fn invalid_sequence_then_valid_one() {
    assert_eq!(decode(&[(b"\x1b[x\x1b[B", false)]), vec![key(KeyCode::Down)]);
}

#[test]
fn consecutive_sequences_keep_order() {
    let evs = decode(&[(b"a\x1b[A\x1b[3~\x1b[12;40R\x1b[I", false)]);
    assert_eq!(
        evs,
        vec![
            key(KeyCode::Char(0x61)),
            key(KeyCode::Up),
            key(KeyCode::Delete),
            InternalEvent::CursorPosition(39, 11),
            InternalEvent::FocusGained,
        ]
    );
}

#[test]
fn lone_escape_depends_on_more() {
    assert_eq!(parse_event(&vec![0x1B], true), Parsed::Incomplete);
    assert_eq!(parse_event(&vec![0x1B], false), Parsed::Complete(key(KeyCode::Esc)));
    assert_eq!(decode(&[(&[0x1B], false)]), vec![key(KeyCode::Esc)]);
    assert_eq!(decode(&[(&[0x1B], true)]), vec![]);
}

#[test]
fn alt_and_control_keys() {
    assert_eq!(
        parse_event(&vec![0x1B, 0x78], false),
        Parsed::Complete(InternalEvent::Key(KeyEvent { code: KeyCode::Char(0x78), shift: false, ctrl: false, alt: true }))
    );
    assert_eq!(
        parse_event(&vec![0x01], false),
        Parsed::Complete(InternalEvent::Key(KeyEvent { code: KeyCode::Char(0x61), shift: false, ctrl: true, alt: false }))
    );
    assert_eq!(parse_event(&vec![0x0D], false), Parsed::Complete(key(KeyCode::Enter)));
    assert_eq!(parse_event(&vec![0x7F], false), Parsed::Complete(key(KeyCode::Backspace)));
    assert_eq!(parse_event(&vec![0x09], false), Parsed::Complete(key(KeyCode::Tab)));
}

#[test]
fn function_keys() {
    assert_eq!(parse_event(&b"\x1bOP".to_vec(), false), Parsed::Complete(key(KeyCode::F(1))));
    assert_eq!(parse_event(&b"\x1b[15~".to_vec(), false), Parsed::Complete(key(KeyCode::F(5))));
    assert_eq!(parse_event(&b"\x1b[24~".to_vec(), false), Parsed::Complete(key(KeyCode::F(12))));
    assert_eq!(parse_event(&b"\x1b[9~".to_vec(), false), Parsed::Invalid);
    assert_eq!(parse_event(&b"\x1b[Z".to_vec(), false), Parsed::Complete(key(KeyCode::BackTab)));
}

#[test]
fn utf8_characters() {
    assert_eq!(decode(&[("é".as_bytes(), false)]), vec![key(KeyCode::Char(0xE9))]);
    assert_eq!(decode(&[("€".as_bytes(), false)]), vec![key(KeyCode::Char(0x20AC))]);
    assert_eq!(decode(&[("😀".as_bytes(), false)]), vec![key(KeyCode::Char(0x1F600))]);
    assert_eq!(parse_event(&vec![0xC3], false), Parsed::Incomplete);
    assert_eq!(parse_event(&vec![0xC3, 0x41], false), Parsed::Invalid);
    assert_eq!(parse_event(&vec![0xFF], false), Parsed::Invalid);
}

#[test]
fn sequence_prefixes_are_incomplete() {
    assert_eq!(parse_event(&b"\x1b[".to_vec(), false), Parsed::Incomplete);
    assert_eq!(parse_event(&b"\x1b[12;".to_vec(), false), Parsed::Incomplete);
    assert_eq!(parse_event(&b"\x1b[<".to_vec(), false), Parsed::Incomplete);
    assert_eq!(parse_event(&b"\x1b[;".to_vec(), false), Parsed::Invalid);
    assert_eq!(parse_event(&b"\x1b[1;;".to_vec(), false), Parsed::Invalid);
}

#[test]
fn oversized_parameter_is_invalid() {
    assert_eq!(parse_event(&b"\x1b[65535".to_vec(), false), Parsed::Incomplete);
    assert_eq!(parse_event(&b"\x1b[65536".to_vec(), false), Parsed::Invalid);
}

#[test]
fn overlong_sequence_is_discarded() {
    let mut bytes = b"\x1b[".to_vec();
    bytes.extend(std::iter::repeat(b'1').take(3));
    for _ in 0..8 {
        bytes.extend_from_slice(b";1");
    }
    assert_eq!(bytes.len(), 21);
    assert_eq!(parse_event(&bytes, false), Parsed::Incomplete);
    bytes.extend_from_slice(b";1");
    assert_eq!(bytes.len(), 23);
    assert_eq!(parse_event(&bytes, false), Parsed::Incomplete);
    bytes.push(b'2');
    assert_eq!(parse_event(&bytes, false), Parsed::Invalid);
    // the discarded prefix does not hold back what follows
    let mut input = bytes.clone();
    input.extend_from_slice(b"\x1b[C");
    assert_eq!(decode(&[(&input, false)]), vec![key(KeyCode::Right)]);
}

#[test]
fn mouse_release_and_focus_lost() {
    assert_eq!(
        decode(&[(b"\x1b[<2;1;1m\x1b[O", false)]),
        vec![
            InternalEvent::Mouse(MouseEvent { button: 2, column: 0, row: 0, pressed: false }),
            InternalEvent::FocusLost,
        ]
    );
    assert_eq!(parse_event(&b"\x1b[<2;0;1M".to_vec(), false), Parsed::Invalid);
}

#[test]
fn default_parser_is_empty() {
    let mut p = Parser::default();
    assert!(!p.has_pending());
    assert_eq!(p.next_event(), None);
    p.advance(b"q", false);
    assert!(p.has_pending());
}

#[test]
fn ill_formed_utf8_is_discarded() {
    assert_eq!(decode(&[(&[0xED, 0xA0, 0x80], false)]), vec![]);
    assert_eq!(decode(&[(&[0xE0, 0x80, 0x80], false)]), vec![]);
    assert_eq!(decode(&[(&[0xF4, 0x90, 0x80, 0x80], false)]), vec![]);
    assert_eq!(parse_event(&vec![0xED, 0xA0], true), Parsed::Invalid);
    assert_eq!(decode(&[(&[0xE0, 0xA0, 0x80], false)]), vec![key(KeyCode::Char(0x800))]);
    assert_eq!(decode(&[(&[0xF4, 0x8F, 0xBF, 0xBF], false)]), vec![key(KeyCode::Char(0x10FFFF))]);
    assert_eq!(decode(&[(&[0xED, 0x9F, 0xBF], false)]), vec![key(KeyCode::Char(0xD7FF))]);
}

#[test]
fn bracketed_paste() {
    let input: &[u8] = b"\x1b[200~hi \x1b[A there\x1b[201~x";
    let expected = vec![InternalEvent::Paste(b"hi \x1b[A there".to_vec()), key(KeyCode::Char(0x78))];
    assert_eq!(decode(&[(input, false)]), expected);
    assert_eq!(decode(&[(&input[..4], true), (&input[4..12], true), (&input[12..], false)]), expected);
    assert_eq!(decode(&[(b"\x1b[200~\x1b[201~", false)]), vec![InternalEvent::Paste(vec![])]);
    assert_eq!(parse_event(&b"\x1b[200~abc".to_vec(), false), Parsed::Incomplete);
}

#[test]
fn overlong_paste_is_discarded() {
    let mut b = b"\x1b[200~".to_vec();
    b.resize(16383, b'a');
    assert_eq!(parse_event(&b, false), Parsed::Incomplete);
    b.push(b'a');
    assert_eq!(parse_event(&b, false), Parsed::Invalid);
}

#[test]
fn modified_keys() {
    let with = |code, shift, ctrl, alt| InternalEvent::Key(KeyEvent { code, shift, ctrl, alt });
    assert_eq!(decode(&[(b"\x1b[1;5A", false)]), vec![with(KeyCode::Up, false, true, false)]);
    assert_eq!(decode(&[(b"\x1b[3;5~", false)]), vec![with(KeyCode::Delete, false, true, false)]);
    assert_eq!(decode(&[(b"\x1b[1;2C", false)]), vec![with(KeyCode::Right, true, false, false)]);
    assert_eq!(decode(&[(b"\x1b[1;8H", false)]), vec![with(KeyCode::Home, true, true, true)]);
    assert_eq!(decode(&[(b"\x1b[2;5A", false)]), vec![]);
    assert_eq!(decode(&[(b"\x1b[1;0A", false)]), vec![]);
}

#[test]
fn older_mouse_encoding() {
    assert_eq!(
        decode(&[(&[0x1B, 0x5B, 0x4D, 32, 43, 38], false)]),
        vec![InternalEvent::Mouse(MouseEvent { button: 0, column: 10, row: 5, pressed: true })]
    );
    assert_eq!(
        decode(&[(&[0x1B, 0x5B, 0x4D, 35, 33, 33], false)]),
        vec![InternalEvent::Mouse(MouseEvent { button: 3, column: 0, row: 0, pressed: false })]
    );
    assert_eq!(parse_event(&vec![0x1B, 0x5B, 0x4D, 32], false), Parsed::Incomplete);
    assert_eq!(parse_event(&vec![0x1B, 0x5B, 0x4D, 32, 20, 40], false), Parsed::Invalid);
}
