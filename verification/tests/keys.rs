use desktop_tui::keyboard::{csi_mod, csi_mod_tilde, on_key_pressed, ss3_or_csi, to_escape_sequence_vec, Key, KeyAction, KeyCode, KeyModifier};

const NONE: KeyModifier = KeyModifier { alt: false, ctrl: false, shift: false };
const SHIFT: KeyModifier = KeyModifier { alt: false, ctrl: false, shift: true };
const ALT: KeyModifier = KeyModifier { alt: true, ctrl: false, shift: false };
const CTRL: KeyModifier = KeyModifier { alt: false, ctrl: true, shift: false };
const CTRL_ALT: KeyModifier = KeyModifier { alt: true, ctrl: true, shift: false };
const ALL: KeyModifier = KeyModifier { alt: true, ctrl: true, shift: true };

fn encode(code: KeyCode, modifier: KeyModifier) -> Vec<u8> {
    to_escape_sequence_vec(Key { code, modifier }, '\0').expect("every key has an encoding")
}

#[test]
fn modifier_parameter() {
    assert_eq!(NONE.param(), 1);
    assert_eq!(SHIFT.param(), 2);
    assert_eq!(ALT.param(), 3);
    assert_eq!(KeyModifier { alt: true, ctrl: false, shift: true }.param(), 4);
    assert_eq!(CTRL.param(), 5);
    assert_eq!(KeyModifier { alt: false, ctrl: true, shift: true }.param(), 6);
    assert_eq!(CTRL_ALT.param(), 7);
    assert_eq!(ALL.param(), 8);
}

#[test]
fn shift_up_is_a_modified_arrow() {
    assert_eq!(encode(KeyCode::Up, SHIFT), b"\x1b[1;2A".to_vec());
}

#[test]
fn arrows() {
    assert_eq!(encode(KeyCode::Up, NONE), b"\x1b[A".to_vec());
    assert_eq!(encode(KeyCode::Down, NONE), b"\x1b[B".to_vec());
    assert_eq!(encode(KeyCode::Right, NONE), b"\x1b[C".to_vec());
    assert_eq!(encode(KeyCode::Left, NONE), b"\x1b[D".to_vec());
    assert_eq!(encode(KeyCode::Down, ALT), b"\x1b[1;3B".to_vec());
    assert_eq!(encode(KeyCode::Right, CTRL), b"\x1b[1;5C".to_vec());
    assert_eq!(encode(KeyCode::Left, ALL), b"\x1b[1;8D".to_vec());
}

#[test]
fn navigation_keys() {
    assert_eq!(encode(KeyCode::Home, NONE), b"\x1b[H".to_vec());
    assert_eq!(encode(KeyCode::End, NONE), b"\x1b[F".to_vec());
    assert_eq!(encode(KeyCode::Home, CTRL), b"\x1b[1;5H".to_vec());
    assert_eq!(encode(KeyCode::End, SHIFT), b"\x1b[1;2F".to_vec());
    assert_eq!(encode(KeyCode::PageUp, NONE), b"\x1b[5~".to_vec());
    assert_eq!(encode(KeyCode::PageDown, NONE), b"\x1b[6~".to_vec());
    assert_eq!(encode(KeyCode::Insert, NONE), b"\x1b[2~".to_vec());
    assert_eq!(encode(KeyCode::Delete, NONE), b"\x1b[3~".to_vec());
    assert_eq!(encode(KeyCode::PageUp, SHIFT), b"\x1b[5;2~".to_vec());
    assert_eq!(encode(KeyCode::PageDown, ALT), b"\x1b[6;3~".to_vec());
    assert_eq!(encode(KeyCode::Insert, CTRL), b"\x1b[2;5~".to_vec());
    assert_eq!(encode(KeyCode::Delete, CTRL_ALT), b"\x1b[3;7~".to_vec());
}

#[test]
fn function_keys() {
    assert_eq!(encode(KeyCode::F1, NONE), b"\x1bOP".to_vec());
    assert_eq!(encode(KeyCode::F2, NONE), b"\x1bOQ".to_vec());
    assert_eq!(encode(KeyCode::F3, NONE), b"\x1bOR".to_vec());
    assert_eq!(encode(KeyCode::F4, NONE), b"\x1bOS".to_vec());
    assert_eq!(encode(KeyCode::F1, SHIFT), b"\x1b[11;2~".to_vec());
    assert_eq!(encode(KeyCode::F2, ALT), b"\x1b[12;3~".to_vec());
    assert_eq!(encode(KeyCode::F3, CTRL), b"\x1b[13;5~".to_vec());
    assert_eq!(encode(KeyCode::F4, ALL), b"\x1b[14;8~".to_vec());
    assert_eq!(encode(KeyCode::F5, NONE), b"\x1b[15~".to_vec());
    assert_eq!(encode(KeyCode::F6, NONE), b"\x1b[17~".to_vec());
    assert_eq!(encode(KeyCode::F7, NONE), b"\x1b[18~".to_vec());
    assert_eq!(encode(KeyCode::F8, NONE), b"\x1b[19~".to_vec());
    assert_eq!(encode(KeyCode::F9, NONE), b"\x1b[20~".to_vec());
    assert_eq!(encode(KeyCode::F10, NONE), b"\x1b[21~".to_vec());
    assert_eq!(encode(KeyCode::F11, NONE), b"\x1b[23~".to_vec());
    assert_eq!(encode(KeyCode::F12, NONE), b"\x1b[24~".to_vec());
    assert_eq!(encode(KeyCode::F5, SHIFT), b"\x1b[15;2~".to_vec());
    assert_eq!(encode(KeyCode::F12, CTRL), b"\x1b[24;5~".to_vec());
}

#[test]
fn plain_ascii_keys() {
    assert_eq!(encode(KeyCode::Space, NONE), vec![0x20]);
    assert_eq!(encode(KeyCode::Enter, NONE), vec![b'\r']);
    assert_eq!(encode(KeyCode::Escape, NONE), vec![0x1b]);
    assert_eq!(encode(KeyCode::Backspace, NONE), vec![0x7f]);
    assert_eq!(encode(KeyCode::Tab, NONE), vec![b'\t']);
    assert_eq!(encode(KeyCode::Tab, SHIFT), b"\x1b[Z".to_vec());
    assert_eq!(encode(KeyCode::Tab, ALL), b"\x1b[Z".to_vec());
    assert_eq!(encode(KeyCode::Tab, CTRL), vec![b'\t']);
    assert_eq!(encode(KeyCode::Enter, ALL), vec![b'\r']);
    assert_eq!(encode(KeyCode::Space, CTRL), vec![0x20]);
}

#[test]
fn alphanumeric_keys_without_modifier_are_one_lower_case_byte() {
    let letters = [
        KeyCode::A, KeyCode::B, KeyCode::C, KeyCode::D, KeyCode::E, KeyCode::F, KeyCode::G,
        KeyCode::H, KeyCode::I, KeyCode::J, KeyCode::K, KeyCode::L, KeyCode::M, KeyCode::N,
        KeyCode::O, KeyCode::P, KeyCode::Q, KeyCode::R, KeyCode::S, KeyCode::T, KeyCode::U,
        KeyCode::V, KeyCode::W, KeyCode::X, KeyCode::Y, KeyCode::Z,
    ];
    for (i, code) in letters.iter().enumerate() {
        assert_eq!(encode(*code, NONE), vec![b'a' + i as u8]);
        assert_eq!(to_escape_sequence_vec(Key { code: *code, modifier: NONE }, 'Q'), Some(vec![b'a' + i as u8]));
    }
    let digits = [
        KeyCode::N0, KeyCode::N1, KeyCode::N2, KeyCode::N3, KeyCode::N4, KeyCode::N5,
        KeyCode::N6, KeyCode::N7, KeyCode::N8, KeyCode::N9,
    ];
    for (i, code) in digits.iter().enumerate() {
        assert_eq!(encode(*code, NONE), vec![b'0' + i as u8]);
    }
    assert_eq!(encode(KeyCode::A, SHIFT), vec![b'a']);
}

#[test]
fn ctrl_and_alt_with_letters() {
    assert_eq!(encode(KeyCode::A, CTRL), vec![0x01]);
    assert_eq!(encode(KeyCode::Z, CTRL), vec![0x1a]);
    assert_eq!(encode(KeyCode::D, CTRL), vec![0x04]);
    assert_eq!(encode(KeyCode::N1, CTRL), vec![0x11]);
    assert_eq!(encode(KeyCode::X, ALT), vec![0x1b, b'x']);
    assert_eq!(encode(KeyCode::X, CTRL_ALT), vec![0x1b, 0x18]);
    assert_eq!(encode(KeyCode::C, ALL), vec![0x1b, 0x03]);
}

#[test]
fn key_without_code_sends_its_character() {
    let send = |character: char, modifier: KeyModifier| {
        to_escape_sequence_vec(Key { code: KeyCode::NoKey, modifier }, character).expect("an encoding")
    };
    assert_eq!(send('-', NONE), vec![b'-']);
    assert_eq!(send('/', SHIFT), vec![b'/']);
    assert_eq!(send('A', NONE), vec![b'A']);
    assert_eq!(send('[', CTRL), vec![0x1b]);
    assert_eq!(send('|', ALT), vec![0x1b, b'|']);
    assert_eq!(send('\u{e9}', NONE), vec![0xe9]);
    assert_eq!(send('\u{20ac}', NONE), vec![0xac]);
    assert_eq!(send('\0', NONE), vec![0]);
}

#[test]
fn sequence_builders() {
    assert_eq!(csi_mod(b"A", 1), b"\x1b[A".to_vec());
    assert_eq!(csi_mod(b"A", 2), b"\x1b[1;2A".to_vec());
    assert_eq!(csi_mod(b"H", 0), b"\x1b[1;0H".to_vec());
    assert_eq!(csi_mod(b"F", 10), b"\x1b[1;10F".to_vec());
    assert_eq!(csi_mod(b"F", 255), b"\x1b[1;255F".to_vec());
    assert_eq!(csi_mod(b"", 1), b"\x1b[".to_vec());
    assert_eq!(csi_mod(b"xy", 7), b"\x1b[1;7xy".to_vec());
    assert_eq!(csi_mod_tilde(5, 1), b"\x1b[5~".to_vec());
    assert_eq!(csi_mod_tilde(24, 8), b"\x1b[24;8~".to_vec());
    assert_eq!(csi_mod_tilde(0, 1), b"\x1b[0~".to_vec());
    assert_eq!(csi_mod_tilde(100, 109), b"\x1b[100;109~".to_vec());
    assert_eq!(csi_mod_tilde(255, 200), b"\x1b[255;200~".to_vec());
    assert_eq!(ss3_or_csi(b"P", 11, 1), b"\x1bOP".to_vec());
    assert_eq!(ss3_or_csi(b"P", 11, 2), b"\x1b[11;2~".to_vec());
    assert_eq!(ss3_or_csi(b"S", 14, 5), b"\x1b[14;5~".to_vec());
}

#[test]
fn ctrl_c_terminates_instead_of_being_sent() {
    let key = Key { code: KeyCode::C, modifier: CTRL };
    assert!(matches!(on_key_pressed(true, key, 'c'), KeyAction::Terminate));
    assert!(matches!(on_key_pressed(true, key, '\0'), KeyAction::Terminate));
}

#[test]
fn other_keys_are_sent() {
    let sent = |code: KeyCode, modifier: KeyModifier| match on_key_pressed(true, Key { code, modifier }, '\0') {
        KeyAction::Send(bytes) => bytes,
        other => panic!("not sent: {:?}", other),
    };
    assert_eq!(sent(KeyCode::C, NONE), vec![b'c']);
    assert_eq!(sent(KeyCode::C, CTRL_ALT), vec![0x1b, 0x03]);
    assert_eq!(sent(KeyCode::C, KeyModifier { alt: false, ctrl: true, shift: true }), vec![0x03]);
    assert_eq!(sent(KeyCode::D, CTRL), vec![0x04]);
    assert_eq!(sent(KeyCode::Up, SHIFT), b"\x1b[1;2A".to_vec());
}

#[test]
fn keys_without_focus_are_ignored() {
    assert!(matches!(on_key_pressed(false, Key { code: KeyCode::C, modifier: CTRL }, 'c'), KeyAction::Ignored));
    assert!(matches!(on_key_pressed(false, Key { code: KeyCode::A, modifier: NONE }, 'a'), KeyAction::Ignored));
}
