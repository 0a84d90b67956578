//! The bytes a terminal program expects on its standard input for one key
//! input.

use vstd::prelude::*;
use vstd::string::*;
use vstd::utf8::*;
use crate::text::{decimal, narrow, push_char, push_decimal_bytes};

verus! {

/// The key of a key input. Keys without a byte sequence are `Unmapped`.
#[derive(Clone, Copy, Debug, PartialEq, Eq)]
pub enum KeyCode {
    Char(char),
    Enter,
    Tab,
    Backspace,
    Esc,
    Delete,
    Home,
    End,
    PageUp,
    PageDown,
    Left,
    Right,
    Up,
    Down,
    /// A function key, by its number.
    F(u8),
    Unmapped,
}

/// The modifier keys held while a key is pressed.
#[derive(Clone, Copy, Debug, PartialEq, Eq)]
pub struct KeyModifiers {
    pub shift: bool,
    pub control: bool,
    pub alt: bool,
    pub logo: bool,
}

/// One key press: a key and the modifiers held with it.
#[derive(Clone, Copy, Debug, PartialEq, Eq)]
pub struct KeyInput {
    pub code: KeyCode,
    pub modifiers: KeyModifiers,
}

impl KeyModifiers {
    /// No modifier held.
    pub fn none() -> (m: Self)
        ensures
            m == (KeyModifiers { shift: false, control: false, alt: false, logo: false }),
    {
        KeyModifiers { shift: false, control: false, alt: false, logo: false }
    }

    /// Only the control key held.
    pub fn control() -> (m: Self)
        ensures
            m == (KeyModifiers { shift: false, control: true, alt: false, logo: false }),
    {
        KeyModifiers { shift: false, control: true, alt: false, logo: false }
    }
}

impl KeyInput {
    /// A key press of `code` with `modifiers`.
    pub fn new(code: KeyCode, modifiers: KeyModifiers) -> (key: Self)
        ensures
            key == (KeyInput { code, modifiers }),
    {
        KeyInput { code, modifiers }
    }
}

/// The escape byte that starts every control sequence.
pub const ESC: u8 = 0x1b;

/// `c` in upper case if it is an ASCII lower-case letter, else `c`.
pub open spec fn ascii_upper(c: char) -> char {
    if 'a' <= c && c <= 'z' {
        ((c as u32) - 32) as char
    } else {
        c
    }
}

/// Whether `c` is an ASCII letter.
pub open spec fn is_ascii_letter(c: char) -> bool {
    ('a' <= c && c <= 'z') || ('A' <= c && c <= 'Z')
}

/// The control byte of the ASCII letter `c`: its upper-case code minus the
/// code of `@`.
pub open spec fn control_byte(c: char) -> u8 {
    ((ascii_upper(c) as u32) - 64) as u8
}

/// The bytes of a control sequence `ESC [ body`.
pub open spec fn csi(body: Seq<u8>) -> Seq<u8> {
    seq![ESC, 0x5b] + body
}

/// The bytes sent for a character key.
pub open spec fn char_key_bytes(c: char, control: bool) -> Seq<u8> {
    if control && c == 'c' {
        seq![0x03u8]
    } else if control && c == 'd' {
        seq![0x04u8]
    } else if control && c == 'z' {
        seq![0x1Au8]
    } else if control && c == 'l' {
        seq![0x0Cu8]
    } else if control && is_ascii_letter(c) {
        seq![control_byte(c)]
    } else {
        encode_utf8(seq![c])
    }
}

/// The bytes sent for `key`, or `None` when the key has no byte sequence.
pub open spec fn key_bytes(key: KeyInput) -> Option<Seq<u8>> {
    match key.code {
        KeyCode::Char(c) => Some(char_key_bytes(c, key.modifiers.control)),
        KeyCode::Enter => Some(seq![0x0du8]),
        KeyCode::Tab => Some(seq![0x09u8]),
        KeyCode::Backspace => Some(seq![0x7fu8]),
        KeyCode::Esc => Some(seq![ESC]),
        KeyCode::Delete => Some(csi(seq![0x33u8, 0x7e])),
        KeyCode::Home => Some(seq![ESC, 0x4f, 0x48]),
        KeyCode::End => Some(seq![ESC, 0x4f, 0x46]),
        KeyCode::PageUp => Some(csi(seq![0x35u8, 0x7e])),
        KeyCode::PageDown => Some(csi(seq![0x36u8, 0x7e])),
        KeyCode::Left => Some(csi(seq![0x44u8])),
        KeyCode::Right => Some(csi(seq![0x43u8])),
        KeyCode::Up => Some(csi(seq![0x41u8])),
        KeyCode::Down => Some(csi(seq![0x42u8])),
        KeyCode::F(n) => if 1 <= n && n <= 12 {
            Some(csi(narrow(decimal((10 + n) as nat)).push(0x7e)))
        } else {
            None
        },
        KeyCode::Unmapped => None,
    }
}

/// The control byte of a letter, if `c` is one.
fn control_byte_of(c: char) -> (byte: Option<u8>)
    ensures
        byte == if is_ascii_letter(c) {
            Some(control_byte(c))
        } else {
            None
        },
{
    let n: u32 = c as u32;
    if 97 <= n && n <= 122 {
        Some((n - 96) as u8)
    } else if 65 <= n && n <= 90 {
        Some((n - 64) as u8)
    } else {
        None
    }
}

/// The UTF-8 bytes of one character.
fn utf8_of_char(c: char) -> (bytes: Vec<u8>)
    ensures
        bytes@ == encode_utf8(seq![c]),
{
    let mut s = String::new();
    push_char(&mut s, c);
    assert(s@ == seq![c]);
    s.as_str().as_bytes_vec()
}

/// A control sequence `ESC [ body`.
fn csi_bytes(body: &[u8]) -> (bytes: Vec<u8>)
    ensures
        bytes@ == csi(body@),
{
    let mut bytes: Vec<u8> = Vec::new();
    bytes.push(ESC);
    bytes.push(0x5b);
    let mut i: usize = 0;
    while i < body.len()
        invariant
            i <= body.len(),
            bytes@ == csi(body@.take(i as int)),
        decreases body.len() - i,
    {
        bytes.push(body[i]);
        assert(body@.take(i + 1) == body@.take(i as int).push(body@[i as int]));
        i += 1;
    }
    assert(body@.take(body.len() as int) == body@);
    bytes
}

/// Maps one key input to the bytes for the terminal: the fixed table of named
/// keys, control letters as their control byte, other characters as their
/// UTF-8 bytes, and nothing for keys outside the table.
pub fn key_event_to_bytes(key: KeyInput) -> (bytes: Option<Vec<u8>>)
    ensures
        bytes is Some == key_bytes(key) is Some,
        bytes is Some ==> bytes->0@ == key_bytes(key)->0,
{
    match key.code {
        KeyCode::Char(c) => {
            if key.modifiers.control {
                if let Some(byte) = control_byte_of(c) {
                    return Some(vec![byte]);
                }
            }
            Some(utf8_of_char(c))
        },
        KeyCode::Enter => Some(vec![0x0du8]),
        KeyCode::Tab => Some(vec![0x09u8]),
        KeyCode::Backspace => Some(vec![0x7fu8]),
        KeyCode::Esc => Some(vec![ESC]),
        KeyCode::Delete => Some(csi_bytes(&[0x33u8, 0x7e])),
        KeyCode::Home => Some(vec![ESC, 0x4f, 0x48]),
        KeyCode::End => Some(vec![ESC, 0x4f, 0x46]),
        KeyCode::PageUp => Some(csi_bytes(&[0x35u8, 0x7e])),
        KeyCode::PageDown => Some(csi_bytes(&[0x36u8, 0x7e])),
        KeyCode::Left => Some(csi_bytes(&[0x44u8])),
        KeyCode::Right => Some(csi_bytes(&[0x43u8])),
        KeyCode::Up => Some(csi_bytes(&[0x41u8])),
        KeyCode::Down => Some(csi_bytes(&[0x42u8])),
        KeyCode::F(n) => {
            if 1 <= n && n <= 12 {
                let mut bytes: Vec<u8> = Vec::new();
                bytes.push(ESC);
                bytes.push(0x5b);
                push_decimal_bytes(&mut bytes, (10 + n) as u64);
                bytes.push(0x7e);
                Some(bytes)
            } else {
                None
            }
        },
        KeyCode::Unmapped => None,
    }
}

/// Control with `c`, `d`, `z` or `l` sends the same byte as the general rule
/// for control letters gives, so the fixed entries of the table and the rule
/// never disagree.
pub proof fn lemma_fixed_control_bytes_follow_rule(c: char)
    requires
        c == 'c' || c == 'd' || c == 'z' || c == 'l',
    ensures
        char_key_bytes(c, true) == seq![control_byte(c)],
{
}

} // verus!
