use cliban_tui::input::{ByteSession, Parser};
use cliban_tui::keys::{KeyCode, KeyEvent, KeyModifiers};
use cliban_tui::session::SessionEvent;

fn key(code: KeyCode) -> KeyEvent {
    KeyEvent::new(code, KeyModifiers::none())
}

fn feed_one(bytes: &[u8]) -> Vec<KeyEvent> {
    Parser::new().feed(bytes)
}

#[test]
fn printable_ascii_maps_to_char_keys() {
    assert_eq!(feed_one(b"q"), vec![key(KeyCode::Char('q'))]);
    assert_eq!(feed_one(b"/"), vec![key(KeyCode::Char('/'))]);
    assert_eq!(feed_one(b" "), vec![key(KeyCode::Char(' '))]);
}

#[test]
fn uppercase_gets_shift_modifier() {
    assert_eq!(feed_one(b"H"), vec![KeyEvent::new(KeyCode::Char('H'), KeyModifiers::shift())]);
}

#[test]
fn control_bytes_map_to_named_keys() {
    assert_eq!(feed_one(b"\r"), vec![key(KeyCode::Enter)]);
    assert_eq!(feed_one(b"\n"), vec![key(KeyCode::Enter)]);
    assert_eq!(feed_one(b"\t"), vec![key(KeyCode::Tab)]);
    assert_eq!(feed_one(&[0x7f]), vec![key(KeyCode::Backspace)]);
    assert_eq!(feed_one(&[0x08]), vec![key(KeyCode::Backspace)]);
}

#[test]
fn ctrl_letter_bytes_carry_control_modifier() {
    assert_eq!(feed_one(&[0x03]), vec![KeyEvent::new(KeyCode::Char('c'), KeyModifiers::control())]);
}

#[test]
fn utf8_multibyte_char_parses_and_survives_split_feeds() {
    assert_eq!(feed_one("é".as_bytes()), vec![key(KeyCode::Char('é'))]);
    let mut p = Parser::new();
    let bytes = "é".as_bytes();
    assert!(p.feed(&bytes[..1]).is_empty());
    assert_eq!(p.feed(&bytes[1..]), vec![key(KeyCode::Char('é'))]);
}

#[test]
fn multiple_keys_in_one_chunk() {
    assert_eq!(feed_one(b" d"), vec![key(KeyCode::Char(' ')), key(KeyCode::Char('d'))]);
}

#[test]
fn csi_arrows_backtab_home_end() {
    assert_eq!(feed_one(b"\x1b[A"), vec![key(KeyCode::Up)]);
    assert_eq!(feed_one(b"\x1b[B"), vec![key(KeyCode::Down)]);
    assert_eq!(feed_one(b"\x1b[C"), vec![key(KeyCode::Right)]);
    assert_eq!(feed_one(b"\x1b[D"), vec![key(KeyCode::Left)]);
    assert_eq!(feed_one(b"\x1b[Z"), vec![key(KeyCode::BackTab)]);
    assert_eq!(feed_one(b"\x1b[H"), vec![key(KeyCode::Home)]);
    assert_eq!(feed_one(b"\x1b[F"), vec![key(KeyCode::End)]);
}

#[test]
fn ss3_arrows_home_end() {
    assert_eq!(feed_one(b"\x1bOA"), vec![key(KeyCode::Up)]);
    assert_eq!(feed_one(b"\x1bOB"), vec![key(KeyCode::Down)]);
    assert_eq!(feed_one(b"\x1bOC"), vec![key(KeyCode::Right)]);
    assert_eq!(feed_one(b"\x1bOD"), vec![key(KeyCode::Left)]);
    assert_eq!(feed_one(b"\x1bOH"), vec![key(KeyCode::Home)]);
    assert_eq!(feed_one(b"\x1bOF"), vec![key(KeyCode::End)]);
}

#[test]
fn csi_tilde_nav_keys() {
    assert_eq!(feed_one(b"\x1b[1~"), vec![key(KeyCode::Home)]);
    assert_eq!(feed_one(b"\x1b[3~"), vec![key(KeyCode::Delete)]);
    assert_eq!(feed_one(b"\x1b[4~"), vec![key(KeyCode::End)]);
    assert_eq!(feed_one(b"\x1b[5~"), vec![key(KeyCode::PageUp)]);
    assert_eq!(feed_one(b"\x1b[6~"), vec![key(KeyCode::PageDown)]);
}

#[test]
fn unknown_csi_sequences_are_swallowed() {
    assert!(feed_one(b"\x1b[15~").is_empty());
    assert_eq!(feed_one(b"\x1b[15~j"), vec![key(KeyCode::Char('j'))]);
}

#[test]
fn runaway_csi_sequence_is_capped_and_parser_recovers() {
    let mut p = Parser::new();
    let mut runaway = b"\x1b[".to_vec();
    runaway.extend(std::iter::repeat_n(b'9', 100));
    assert!(p.feed(&runaway).is_empty());
    assert_eq!(p.feed(b"j"), vec![key(KeyCode::Char('j'))]);
}

#[test]
fn split_csi_sequence_across_feeds() {
    let mut p = Parser::new();
    assert!(p.feed(b"\x1b[").is_empty());
    assert_eq!(p.feed(b"C"), vec![key(KeyCode::Right)]);
}

#[test]
fn lone_esc_is_pending_until_flush() {
    let mut p = Parser::new();
    assert!(p.feed(b"\x1b").is_empty());
    assert_eq!(p.flush(), Some(key(KeyCode::Esc)));
    assert_eq!(p.flush(), None);
}

#[test]
fn esc_plus_printable_in_one_chunk_is_alt_char() {
    assert_eq!(feed_one(b"\x1bq"), vec![KeyEvent::new(KeyCode::Char('q'), KeyModifiers::alt())]);
}

#[test]
fn byte_session_queues_keys_and_resizes_then_ticks() {
    let mut s = ByteSession::new();
    s.feed_bytes(b"j");
    s.inject_resize(80, 24);
    assert_eq!(s.next_event(), SessionEvent::Key(key(KeyCode::Char('j'))));
    assert_eq!(s.next_event(), SessionEvent::Resize(80, 24));
    assert_eq!(s.next_event(), SessionEvent::Tick);
}

#[test]
fn byte_session_flushes_pending_esc_when_idle() {
    let mut s = ByteSession::new();
    s.feed_bytes(b"\x1b");
    assert_eq!(s.next_event(), SessionEvent::Key(key(KeyCode::Esc)));
    assert_eq!(s.next_event(), SessionEvent::Tick);
}

#[test]
fn feeding_byte_by_byte_gives_the_same_keys() {
    let bytes = "x\x1b[B\x1bOAé\r\x1b[5~Q".as_bytes();
    let whole = Parser::new().feed(bytes);
    let mut p = Parser::new();
    let mut pieces = Vec::new();
    for b in bytes {
        pieces.extend(p.feed(&[*b]));
    }
    assert_eq!(whole, pieces);
    assert_eq!(whole.len(), 7);
}

#[test]
fn stray_continuation_and_invalid_utf8_are_skipped() {
    assert_eq!(feed_one(&[0x80, b'a']), vec![key(KeyCode::Char('a'))]);
    assert_eq!(feed_one(&[0xc0, 0x41, b'b']), vec![KeyEvent::new(KeyCode::Char('A'), KeyModifiers::shift()), key(KeyCode::Char('b'))]);
    assert!(feed_one(&[0x00, 0x1c, 0x1f]).is_empty());
}

#[test]
fn esc_before_a_control_byte_is_a_plain_esc() {
    assert_eq!(feed_one(&[0x1b, 0x1b, b'[', b'A']), vec![key(KeyCode::Esc), key(KeyCode::Up)]);
    assert!(feed_one(b"\x1bOz").is_empty());
}

#[test]
fn byte_session_keeps_refreshes_in_order() {
    let mut s = ByteSession::new();
    s.inject_refresh();
    s.feed_bytes(b"k");
    assert_eq!(s.next_event(), SessionEvent::Refresh);
    assert_eq!(s.next_event(), SessionEvent::Key(key(KeyCode::Char('k'))));
}
