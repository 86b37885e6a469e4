//! The bytes that a terminal sends for a key: the codec from key events to
//! escape sequences.

use vstd::prelude::*;

verus! {

/// A key, without its modifiers.
#[derive(Clone, Copy, Debug, PartialEq, Eq, Structural)]
pub enum KeyCode {
    NoKey,
    F1,
    F2,
    F3,
    F4,
    F5,
    F6,
    F7,
    F8,
    F9,
    F10,
    F11,
    F12,
    Enter,
    Escape,
    Insert,
    Delete,
    Backspace,
    Tab,
    Left,
    Up,
    Down,
    Right,
    PageUp,
    PageDown,
    Home,
    End,
    Space,
    A,
    B,
    C,
    D,
    E,
    F,
    G,
    H,
    I,
    J,
    K,
    L,
    M,
    N,
    O,
    P,
    Q,
    R,
    S,
    T,
    U,
    V,
    W,
    X,
    Y,
    Z,
    N0,
    N1,
    N2,
    N3,
    N4,
    N5,
    N6,
    N7,
    N8,
    N9,
}

/// The modifier keys held together with a key.
#[derive(Clone, Copy, Debug, PartialEq, Eq, Structural)]
pub struct KeyModifier {
    pub alt: bool,
    pub ctrl: bool,
    pub shift: bool,
}

/// A key event: the key and the modifiers held with it.
#[derive(Clone, Copy, Debug, PartialEq, Eq, Structural)]
pub struct Key {
    pub code: KeyCode,
    pub modifier: KeyModifier,
}

/// What a pane does with a key event.
#[derive(Debug)]
pub enum KeyAction {
    /// The pane has no focus: the event is not its own.
    Ignored,
    /// The child is to be terminated and the pane closed.
    Terminate,
    /// These bytes go to the child.
    Send(Vec<u8>),
    /// The key has no encoding: nothing is sent.
    Swallowed,
}

/// What a `KeyAction` stands for.
pub enum KeyIntent {
    Ignored,
    Terminate,
    Send(Seq<u8>),
    Swallowed,
}

impl View for KeyAction {
    type V = KeyIntent;

    open spec fn view(&self) -> KeyIntent {
        match self {
            KeyAction::Ignored => KeyIntent::Ignored,
            KeyAction::Terminate => KeyIntent::Terminate,
            KeyAction::Send(bytes) => KeyIntent::Send(bytes@),
            KeyAction::Swallowed => KeyIntent::Swallowed,
        }
    }
}

/// The escape byte.
pub const ESCAPE: u8 = 0x1B;

impl KeyModifier {
    /// No modifier is held.
    pub open spec fn none(self) -> bool {
        !self.alt && !self.ctrl && !self.shift
    }

    /// Ctrl is held, and nothing else.
    pub open spec fn only_ctrl(self) -> bool {
        !self.alt && self.ctrl && !self.shift
    }

    /// The number that stands for the modifiers in a control sequence: one,
    /// plus 1 for Shift, 2 for Alt and 4 for Ctrl.
    pub open spec fn param_spec(self) -> u8 {
        let shift: u8 = if self.shift {
            1
        } else {
            0
        };
        let alt: u8 = if self.alt {
            2
        } else {
            0
        };
        let ctrl: u8 = if self.ctrl {
            4
        } else {
            0
        };
        (1 + shift + alt + ctrl) as u8
    }

    /// The number that stands for the modifiers in a control sequence.
    pub fn param(&self) -> (param: u8)
        ensures
            param == self.param_spec(),
            1 <= param <= 8,
    {
        let mut param: u8 = 1;
        if self.shift {
            param = param + 1;
        }
        if self.alt {
            param = param + 2;
        }
        if self.ctrl {
            param = param + 4;
        }
        param
    }
}

/// The ASCII digits that write `n` in decimal, without leading zeros.
pub open spec fn decimal(n: u8) -> Seq<u8> {
    if n < 10 {
        seq![(48 + n) as u8]
    } else if n < 100 {
        seq![(48 + n / 10) as u8, (48 + n % 10) as u8]
    } else {
        seq![(48 + n / 100) as u8, (48 + (n / 10) % 10) as u8, (48 + n % 10) as u8]
    }
}

/// `ESC [ final` without a modifier, and `ESC [ 1 ; modifier final` with
/// one.
pub open spec fn csi_mod_spec(final_byte: Seq<u8>, mod_param: u8) -> Seq<u8> {
    if mod_param == 1 {
        seq![ESCAPE, 0x5Bu8] + final_byte
    } else {
        seq![ESCAPE, 0x5Bu8, 0x31u8, 0x3Bu8] + decimal(mod_param) + final_byte
    }
}

/// `ESC [ code ~` without a modifier, and `ESC [ code ; modifier ~` with one.
pub open spec fn csi_mod_tilde_spec(code: u8, mod_param: u8) -> Seq<u8> {
    if mod_param == 1 {
        seq![ESCAPE, 0x5Bu8] + decimal(code) + seq![0x7Eu8]
    } else {
        seq![ESCAPE, 0x5Bu8] + decimal(code) + seq![0x3Bu8] + decimal(mod_param)
            + seq![0x7Eu8]
    }
}

/// `ESC O final` without a modifier, and `ESC [ code ; modifier ~` with one.
pub open spec fn ss3_or_csi_spec(final_byte: Seq<u8>, base_code: u8, mod_param: u8) -> Seq<u8> {
    if mod_param == 1 {
        seq![ESCAPE, 0x4Fu8] + final_byte
    } else {
        csi_mod_tilde_spec(base_code, mod_param)
    }
}

/// The lower-case ASCII letter or the digit of an alphanumeric key.
pub open spec fn alphanumeric(code: KeyCode) -> Option<u8> {
    match code {
        KeyCode::A => Some(0x61u8),
        KeyCode::B => Some(0x62u8),
        KeyCode::C => Some(0x63u8),
        KeyCode::D => Some(0x64u8),
        KeyCode::E => Some(0x65u8),
        KeyCode::F => Some(0x66u8),
        KeyCode::G => Some(0x67u8),
        KeyCode::H => Some(0x68u8),
        KeyCode::I => Some(0x69u8),
        KeyCode::J => Some(0x6Au8),
        KeyCode::K => Some(0x6Bu8),
        KeyCode::L => Some(0x6Cu8),
        KeyCode::M => Some(0x6Du8),
        KeyCode::N => Some(0x6Eu8),
        KeyCode::O => Some(0x6Fu8),
        KeyCode::P => Some(0x70u8),
        KeyCode::Q => Some(0x71u8),
        KeyCode::R => Some(0x72u8),
        KeyCode::S => Some(0x73u8),
        KeyCode::T => Some(0x74u8),
        KeyCode::U => Some(0x75u8),
        KeyCode::V => Some(0x76u8),
        KeyCode::W => Some(0x77u8),
        KeyCode::X => Some(0x78u8),
        KeyCode::Y => Some(0x79u8),
        KeyCode::Z => Some(0x7Au8),
        KeyCode::N0 => Some(0x30u8),
        KeyCode::N1 => Some(0x31u8),
        KeyCode::N2 => Some(0x32u8),
        KeyCode::N3 => Some(0x33u8),
        KeyCode::N4 => Some(0x34u8),
        KeyCode::N5 => Some(0x35u8),
        KeyCode::N6 => Some(0x36u8),
        KeyCode::N7 => Some(0x37u8),
        KeyCode::N8 => Some(0x38u8),
        KeyCode::N9 => Some(0x39u8),
        _ => None,
    }
}

/// The byte that a key stands for before Ctrl and Alt are applied: the
/// letter or digit of an alphanumeric key, and for a key without a code the
/// low eight bits of the character that came with it.
pub open spec fn plain_byte(code: KeyCode, character: char) -> u8 {
    match alphanumeric(code) {
        Some(byte) => byte,
        None => (character as u32 % 256) as u8,
    }
}

/// The bytes of a key that is sent as a byte of text: the byte itself, or
/// its low five bits where Ctrl is held, after an escape byte where Alt is
/// held.
pub open spec fn text_bytes(byte: u8, modifier: KeyModifier) -> Seq<u8> {
    let sent: u8 = if modifier.ctrl {
        byte & 0x1F
    } else {
        byte
    };
    if modifier.alt {
        seq![ESCAPE, sent]
    } else {
        seq![sent]
    }
}

/// The bytes that a terminal sends for a key event.
pub open spec fn encode(key: Key, character: char) -> Seq<u8> {
    let m = key.modifier.param_spec();
    match key.code {
        KeyCode::Space => seq![0x20u8],
        KeyCode::Enter => seq![0x0Du8],
        KeyCode::Escape => seq![ESCAPE],
        KeyCode::Backspace => seq![0x7Fu8],
        KeyCode::Tab => if key.modifier.shift {
            seq![ESCAPE, 0x5Bu8, 0x5Au8]
        } else {
            seq![0x09u8]
        },
        KeyCode::Up => csi_mod_spec(seq![0x41u8], m),
        KeyCode::Down => csi_mod_spec(seq![0x42u8], m),
        KeyCode::Right => csi_mod_spec(seq![0x43u8], m),
        KeyCode::Left => csi_mod_spec(seq![0x44u8], m),
        KeyCode::Home => csi_mod_spec(seq![0x48u8], m),
        KeyCode::End => csi_mod_spec(seq![0x46u8], m),
        KeyCode::PageUp => csi_mod_tilde_spec(5, m),
        KeyCode::PageDown => csi_mod_tilde_spec(6, m),
        KeyCode::Insert => csi_mod_tilde_spec(2, m),
        KeyCode::Delete => csi_mod_tilde_spec(3, m),
        KeyCode::F1 => ss3_or_csi_spec(seq![0x50u8], 11, m),
        KeyCode::F2 => ss3_or_csi_spec(seq![0x51u8], 12, m),
        KeyCode::F3 => ss3_or_csi_spec(seq![0x52u8], 13, m),
        KeyCode::F4 => ss3_or_csi_spec(seq![0x53u8], 14, m),
        KeyCode::F5 => csi_mod_tilde_spec(15, m),
        KeyCode::F6 => csi_mod_tilde_spec(17, m),
        KeyCode::F7 => csi_mod_tilde_spec(18, m),
        KeyCode::F8 => csi_mod_tilde_spec(19, m),
        KeyCode::F9 => csi_mod_tilde_spec(20, m),
        KeyCode::F10 => csi_mod_tilde_spec(21, m),
        KeyCode::F11 => csi_mod_tilde_spec(23, m),
        KeyCode::F12 => csi_mod_tilde_spec(24, m),
        _ => text_bytes(plain_byte(key.code, character), key.modifier),
    }
}

/// What a pane does with a key event: nothing without focus; Ctrl+C, with
/// no other modifier, terminates the child instead of being sent; every other
/// key is sent as its bytes.
pub open spec fn key_intent(has_focus: bool, key: Key, character: char) -> KeyIntent {
    if !has_focus {
        KeyIntent::Ignored
    } else if key.modifier.only_ctrl() && key.code == KeyCode::C {
        KeyIntent::Terminate
    } else {
        KeyIntent::Send(encode(key, character))
    }
}

/// Appends the decimal digits of `n`.
fn push_decimal(bytes: &mut Vec<u8>, n: u8)
    ensures
        final(bytes)@ == old(bytes)@ + decimal(n),
{
    let ghost before = bytes@;
    if n >= 100 {
        bytes.push(48 + n / 100);
        bytes.push(48 + (n / 10) % 10);
        bytes.push(48 + n % 10);
    } else if n >= 10 {
        bytes.push(48 + n / 10);
        bytes.push(48 + n % 10);
    } else {
        bytes.push(48 + n);
    }
    assert(bytes@ =~= before + decimal(n));
}

/// Appends `tail`.
fn push_all(bytes: &mut Vec<u8>, tail: &[u8])
    ensures
        final(bytes)@ == old(bytes)@ + tail@,
{
    let ghost before = bytes@;
    let mut i: usize = 0;
    assert(bytes@ =~= before + tail@.take(0));
    while i < tail.len()
        invariant
            i <= tail.len(),
            bytes@ == before + tail@.take(i as int),
        decreases tail.len() - i,
    {
        bytes.push(tail[i]);
        assert(bytes@ =~= before + tail@.take(i + 1));
        i = i + 1;
    }
    assert(tail@.take(i as int) =~= tail@);
}

/// The sequence of a cursor or navigation key that ends in a letter.
pub fn csi_mod(final_byte: &[u8], mod_param: u8) -> (bytes: Vec<u8>)
    ensures
        bytes@ == csi_mod_spec(final_byte@, mod_param),
{
    let mut bytes: Vec<u8> = Vec::new();
    bytes.push(ESCAPE);
    bytes.push(0x5B);
    if mod_param != 1 {
        bytes.push(0x31);
        bytes.push(0x3B);
        push_decimal(&mut bytes, mod_param);
    }
    push_all(&mut bytes, final_byte);
    assert(bytes@ =~= csi_mod_spec(final_byte@, mod_param));
    bytes
}

/// The sequence of a key that is sent as a number and a tilde.
pub fn csi_mod_tilde(code: u8, mod_param: u8) -> (bytes: Vec<u8>)
    ensures
        bytes@ == csi_mod_tilde_spec(code, mod_param),
{
    let mut bytes: Vec<u8> = Vec::new();
    bytes.push(ESCAPE);
    bytes.push(0x5B);
    push_decimal(&mut bytes, code);
    if mod_param != 1 {
        bytes.push(0x3B);
        push_decimal(&mut bytes, mod_param);
    }
    bytes.push(0x7E);
    assert(bytes@ =~= csi_mod_tilde_spec(code, mod_param));
    bytes
}

/// The sequence of one of the function keys F1 to F4.
pub fn ss3_or_csi(final_byte: &[u8], base_code: u8, mod_param: u8) -> (bytes: Vec<u8>)
    ensures
        bytes@ == ss3_or_csi_spec(final_byte@, base_code, mod_param),
{
    if mod_param == 1 {
        let mut bytes: Vec<u8> = Vec::new();
        bytes.push(ESCAPE);
        bytes.push(0x4F);
        push_all(&mut bytes, final_byte);
        assert(bytes@ =~= ss3_or_csi_spec(final_byte@, base_code, mod_param));
        bytes
    } else {
        csi_mod_tilde(base_code, mod_param)
    }
}

/// The sequence of a cursor or navigation key that ends in `letter`.
fn csi_letter(letter: u8, mod_param: u8) -> (bytes: Vec<u8>)
    ensures
        bytes@ == csi_mod_spec(seq![letter], mod_param),
{
    let final_byte: [u8; 1] = [letter];
    assert(final_byte@ =~= seq![letter]);
    csi_mod(final_byte.as_slice(), mod_param)
}

/// The sequence of one of the function keys F1 to F4, which ends in
/// `letter` where no modifier is held.
fn ss3_letter(letter: u8, base_code: u8, mod_param: u8) -> (bytes: Vec<u8>)
    ensures
        bytes@ == ss3_or_csi_spec(seq![letter], base_code, mod_param),
{
    let final_byte: [u8; 1] = [letter];
    assert(final_byte@ =~= seq![letter]);
    ss3_or_csi(final_byte.as_slice(), base_code, mod_param)
}

/// The lower-case ASCII letter or the digit of an alphanumeric key.
fn alphanumeric_byte(code: KeyCode) -> (byte: Option<u8>)
    ensures
        byte == alphanumeric(code),
{
    match code {
        KeyCode::A => Some(0x61),
        KeyCode::B => Some(0x62),
        KeyCode::C => Some(0x63),
        KeyCode::D => Some(0x64),
        KeyCode::E => Some(0x65),
        KeyCode::F => Some(0x66),
        KeyCode::G => Some(0x67),
        KeyCode::H => Some(0x68),
        KeyCode::I => Some(0x69),
        KeyCode::J => Some(0x6A),
        KeyCode::K => Some(0x6B),
        KeyCode::L => Some(0x6C),
        KeyCode::M => Some(0x6D),
        KeyCode::N => Some(0x6E),
        KeyCode::O => Some(0x6F),
        KeyCode::P => Some(0x70),
        KeyCode::Q => Some(0x71),
        KeyCode::R => Some(0x72),
        KeyCode::S => Some(0x73),
        KeyCode::T => Some(0x74),
        KeyCode::U => Some(0x75),
        KeyCode::V => Some(0x76),
        KeyCode::W => Some(0x77),
        KeyCode::X => Some(0x78),
        KeyCode::Y => Some(0x79),
        KeyCode::Z => Some(0x7A),
        KeyCode::N0 => Some(0x30),
        KeyCode::N1 => Some(0x31),
        KeyCode::N2 => Some(0x32),
        KeyCode::N3 => Some(0x33),
        KeyCode::N4 => Some(0x34),
        KeyCode::N5 => Some(0x35),
        KeyCode::N6 => Some(0x36),
        KeyCode::N7 => Some(0x37),
        KeyCode::N8 => Some(0x38),
        KeyCode::N9 => Some(0x39),
        _ => None,
    }
}

/// One byte.
fn single(byte: u8) -> (bytes: Vec<u8>)
    ensures
        bytes@ == seq![byte],
{
    let mut bytes: Vec<u8> = Vec::new();
    bytes.push(byte);
    assert(bytes@ =~= seq![byte]);
    bytes
}

/// The bytes that a terminal sends for a key event. Every key has an
/// encoding, so the result is never `None`.
pub fn to_escape_sequence_vec(key: Key, character: char) -> (bytes: Option<Vec<u8>>)
    ensures
        bytes is Some,
        bytes->0@ == encode(key, character),
{
    let mod_param = key.modifier.param();
    let bytes = match key.code {
        KeyCode::Space => single(0x20),
        KeyCode::Enter => single(0x0D),
        KeyCode::Escape => single(ESCAPE),
        KeyCode::Backspace => single(0x7F),
        KeyCode::Tab => {
            if key.modifier.shift {
                let mut bytes = single(ESCAPE);
                bytes.push(0x5B);
                bytes.push(0x5A);
                assert(bytes@ =~= seq![ESCAPE, 0x5Bu8, 0x5Au8]);
                bytes
            } else {
                single(0x09)
            }
        },
        KeyCode::Up => csi_letter(0x41, mod_param),
        KeyCode::Down => csi_letter(0x42, mod_param),
        KeyCode::Right => csi_letter(0x43, mod_param),
        KeyCode::Left => csi_letter(0x44, mod_param),
        KeyCode::Home => csi_letter(0x48, mod_param),
        KeyCode::End => csi_letter(0x46, mod_param),
        KeyCode::PageUp => csi_mod_tilde(5, mod_param),
        KeyCode::PageDown => csi_mod_tilde(6, mod_param),
        KeyCode::Insert => csi_mod_tilde(2, mod_param),
        KeyCode::Delete => csi_mod_tilde(3, mod_param),
        KeyCode::F1 => ss3_letter(0x50, 11, mod_param),
        KeyCode::F2 => ss3_letter(0x51, 12, mod_param),
        KeyCode::F3 => ss3_letter(0x52, 13, mod_param),
        KeyCode::F4 => ss3_letter(0x53, 14, mod_param),
        KeyCode::F5 => csi_mod_tilde(15, mod_param),
        KeyCode::F6 => csi_mod_tilde(17, mod_param),
        KeyCode::F7 => csi_mod_tilde(18, mod_param),
        KeyCode::F8 => csi_mod_tilde(19, mod_param),
        KeyCode::F9 => csi_mod_tilde(20, mod_param),
        KeyCode::F10 => csi_mod_tilde(21, mod_param),
        KeyCode::F11 => csi_mod_tilde(23, mod_param),
        KeyCode::F12 => csi_mod_tilde(24, mod_param),
        _ => {
            let byte: u8 = match alphanumeric_byte(key.code) {
                Some(byte) => byte,
                None => (character as u32 % 256) as u8,
            };
            let sent: u8 = if key.modifier.ctrl {
                byte & 0x1F
            } else {
                byte
            };
            if key.modifier.alt {
                let mut bytes = single(ESCAPE);
                bytes.push(sent);
                assert(bytes@ =~= seq![ESCAPE, sent]);
                bytes
            } else {
                single(sent)
            }
        },
    };
    Some(bytes)
}

/// Decides what a pane does with a key event. Ctrl+C never reaches the
/// codec: it ends the child.
pub fn on_key_pressed(has_focus: bool, key: Key, character: char) -> (action: KeyAction)
    ensures
        action@ == key_intent(has_focus, key, character),
{
    if !has_focus {
        return KeyAction::Ignored;
    }
    if key.modifier.ctrl && !key.modifier.alt && !key.modifier.shift && key.code == KeyCode::C {
        KeyAction::Terminate
    } else {
        match to_escape_sequence_vec(key, character) {
            Some(bytes) => KeyAction::Send(bytes),
            None => KeyAction::Swallowed,
        }
    }
}

/// An alphanumeric key without a modifier is sent as one byte: its
/// lower-case letter or its digit.
pub proof fn lemma_plain_alphanumeric_is_one_byte(key: Key, character: char)
    requires
        alphanumeric(key.code) is Some,
        key.modifier.none(),
    ensures
        encode(key, character) == seq![alphanumeric(key.code)->0],
        ({
            let byte = alphanumeric(key.code)->0;
            (0x61 <= byte <= 0x7A) || (0x30 <= byte <= 0x39)
        }),
{
}

} // verus!
