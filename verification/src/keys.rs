//! Physical keys and the characters they type on a US keyboard layout.

use vstd::prelude::*;

verus! {

/// The identifier of a physical key, named by its position on a QWERTY board.
#[derive(Clone, Copy, Debug, PartialEq, Eq, Structural, Hash)]
pub enum Key {
    Alt,
    AltGr,
    Backspace,
    CapsLock,
    ControlLeft,
    ControlRight,
    Delete,
    DownArrow,
    End,
    Escape,
    F1,
    F10,
    F11,
    F12,
    F2,
    F3,
    F4,
    F5,
    F6,
    F7,
    F8,
    F9,
    Home,
    LeftArrow,
    MetaLeft,
    MetaRight,
    PageDown,
    PageUp,
    Return,
    RightArrow,
    ShiftLeft,
    ShiftRight,
    Space,
    Tab,
    UpArrow,
    PrintScreen,
    ScrollLock,
    Pause,
    NumLock,
    BackQuote,
    Num1,
    Num2,
    Num3,
    Num4,
    Num5,
    Num6,
    Num7,
    Num8,
    Num9,
    Num0,
    Minus,
    Equal,
    KeyQ,
    KeyW,
    KeyE,
    KeyR,
    KeyT,
    KeyY,
    KeyU,
    KeyI,
    KeyO,
    KeyP,
    LeftBracket,
    RightBracket,
    KeyA,
    KeyS,
    KeyD,
    KeyF,
    KeyG,
    KeyH,
    KeyJ,
    KeyK,
    KeyL,
    SemiColon,
    Quote,
    BackSlash,
    IntlBackslash,
    KeyZ,
    KeyX,
    KeyC,
    KeyV,
    KeyB,
    KeyN,
    KeyM,
    Comma,
    Dot,
    Slash,
    Insert,
    KpReturn,
    KpMinus,
    KpPlus,
    KpMultiply,
    KpDivide,
    Kp0,
    Kp1,
    Kp2,
    Kp3,
    Kp4,
    Kp5,
    Kp6,
    Kp7,
    Kp8,
    Kp9,
    KpDelete,
    Function,
    /// A key code that has no name of its own.
    Unknown(u32),
}

/// The printable table: the character a key types without shift, paired with
/// the one it types with shift held. Keys that type nothing have no entry.
pub open spec fn key_chars(key: Key) -> Option<(char, char)> {
    match key {
        Key::KeyA => Some(('a', 'A')),
        Key::KeyB => Some(('b', 'B')),
        Key::KeyC => Some(('c', 'C')),
        Key::KeyD => Some(('d', 'D')),
        Key::KeyE => Some(('e', 'E')),
        Key::KeyF => Some(('f', 'F')),
        Key::KeyG => Some(('g', 'G')),
        Key::KeyH => Some(('h', 'H')),
        Key::KeyI => Some(('i', 'I')),
        Key::KeyJ => Some(('j', 'J')),
        Key::KeyK => Some(('k', 'K')),
        Key::KeyL => Some(('l', 'L')),
        Key::KeyM => Some(('m', 'M')),
        Key::KeyN => Some(('n', 'N')),
        Key::KeyO => Some(('o', 'O')),
        Key::KeyP => Some(('p', 'P')),
        Key::KeyQ => Some(('q', 'Q')),
        Key::KeyR => Some(('r', 'R')),
        Key::KeyS => Some(('s', 'S')),
        Key::KeyT => Some(('t', 'T')),
        Key::KeyU => Some(('u', 'U')),
        Key::KeyV => Some(('v', 'V')),
        Key::KeyW => Some(('w', 'W')),
        Key::KeyX => Some(('x', 'X')),
        Key::KeyY => Some(('y', 'Y')),
        Key::KeyZ => Some(('z', 'Z')),
        Key::Num0 => Some(('0', ')')),
        Key::Num1 => Some(('1', '!')),
        Key::Num2 => Some(('2', '@')),
        Key::Num3 => Some(('3', '#')),
        Key::Num4 => Some(('4', '$')),
        Key::Num5 => Some(('5', '%')),
        Key::Num6 => Some(('6', '^')),
        Key::Num7 => Some(('7', '&')),
        Key::Num8 => Some(('8', '*')),
        Key::Num9 => Some(('9', '(')),
        Key::Space => Some((' ', ' ')),
        Key::Return => Some(('\n', '\n')),
        Key::Tab => Some(('\t', '\t')),
        Key::Minus => Some(('-', '_')),
        Key::Equal => Some(('=', '+')),
        Key::LeftBracket => Some(('[', '{')),
        Key::RightBracket => Some((']', '}')),
        Key::BackSlash => Some(('\\', '|')),
        Key::SemiColon => Some((';', ':')),
        Key::Quote => Some(('\'', '"')),
        Key::Comma => Some((',', '<')),
        Key::Dot => Some(('.', '>')),
        Key::Slash => Some(('/', '?')),
        Key::BackQuote => Some(('`', '~')),
        _ => None,
    }
}

/// Whether the key has an entry in the printable table.
pub open spec fn is_printable(key: Key) -> bool {
    key_chars(key) is Some
}

/// The character that a press of `key` types, given whether shift is held.
pub open spec fn typed_char(key: Key, shift: bool) -> Option<char> {
    match key_chars(key) {
        Some((plain, shifted)) => Some(if shift { shifted } else { plain }),
        None => None,
    }
}

/// Whether the key is one of the two shift keys.
pub open spec fn is_shift_key(key: Key) -> bool {
    key == Key::ShiftLeft || key == Key::ShiftRight
}

/// Maps a key press to the character it types, if it types one.
pub fn key_to_char(key: Key, shift: bool) -> (ch: Option<char>)
    ensures
        ch == typed_char(key, shift),
        ch is Some <==> is_printable(key),
{
    match key {
        Key::KeyA => Some(if shift { 'A' } else { 'a' }),
        Key::KeyB => Some(if shift { 'B' } else { 'b' }),
        Key::KeyC => Some(if shift { 'C' } else { 'c' }),
        Key::KeyD => Some(if shift { 'D' } else { 'd' }),
        Key::KeyE => Some(if shift { 'E' } else { 'e' }),
        Key::KeyF => Some(if shift { 'F' } else { 'f' }),
        Key::KeyG => Some(if shift { 'G' } else { 'g' }),
        Key::KeyH => Some(if shift { 'H' } else { 'h' }),
        Key::KeyI => Some(if shift { 'I' } else { 'i' }),
        Key::KeyJ => Some(if shift { 'J' } else { 'j' }),
        Key::KeyK => Some(if shift { 'K' } else { 'k' }),
        Key::KeyL => Some(if shift { 'L' } else { 'l' }),
        Key::KeyM => Some(if shift { 'M' } else { 'm' }),
        Key::KeyN => Some(if shift { 'N' } else { 'n' }),
        Key::KeyO => Some(if shift { 'O' } else { 'o' }),
        Key::KeyP => Some(if shift { 'P' } else { 'p' }),
        Key::KeyQ => Some(if shift { 'Q' } else { 'q' }),
        Key::KeyR => Some(if shift { 'R' } else { 'r' }),
        Key::KeyS => Some(if shift { 'S' } else { 's' }),
        Key::KeyT => Some(if shift { 'T' } else { 't' }),
        Key::KeyU => Some(if shift { 'U' } else { 'u' }),
        Key::KeyV => Some(if shift { 'V' } else { 'v' }),
        Key::KeyW => Some(if shift { 'W' } else { 'w' }),
        Key::KeyX => Some(if shift { 'X' } else { 'x' }),
        Key::KeyY => Some(if shift { 'Y' } else { 'y' }),
        Key::KeyZ => Some(if shift { 'Z' } else { 'z' }),
        Key::Num0 => Some(if shift { ')' } else { '0' }),
        Key::Num1 => Some(if shift { '!' } else { '1' }),
        Key::Num2 => Some(if shift { '@' } else { '2' }),
        Key::Num3 => Some(if shift { '#' } else { '3' }),
        Key::Num4 => Some(if shift { '$' } else { '4' }),
        Key::Num5 => Some(if shift { '%' } else { '5' }),
        Key::Num6 => Some(if shift { '^' } else { '6' }),
        Key::Num7 => Some(if shift { '&' } else { '7' }),
        Key::Num8 => Some(if shift { '*' } else { '8' }),
        Key::Num9 => Some(if shift { '(' } else { '9' }),
        Key::Space => Some(' '),
        Key::Return => Some('\n'),
        Key::Tab => Some('\t'),
        Key::Minus => Some(if shift { '_' } else { '-' }),
        Key::Equal => Some(if shift { '+' } else { '=' }),
        Key::LeftBracket => Some(if shift { '{' } else { '[' }),
        Key::RightBracket => Some(if shift { '}' } else { ']' }),
        Key::BackSlash => Some(if shift { '|' } else { '\\' }),
        Key::SemiColon => Some(if shift { ':' } else { ';' }),
        Key::Quote => Some(if shift { '"' } else { '\'' }),
        Key::Comma => Some(if shift { '<' } else { ',' }),
        Key::Dot => Some(if shift { '>' } else { '.' }),
        Key::Slash => Some(if shift { '?' } else { '/' }),
        Key::BackQuote => Some(if shift { '~' } else { '`' }),
        _ => None,
    }
}

/// Tells whether `key` is a shift key, left or right.
pub fn is_shift(key: Key) -> (r: bool)
    ensures
        r == is_shift_key(key),
{
    match key {
        Key::ShiftLeft => true,
        Key::ShiftRight => true,
        _ => false,
    }
}

/// The keys whose events carry no typing at all: the function modifier and
/// the key code 179 that accompanies it.
pub open spec fn is_ignored(key: Key) -> bool {
    key == Key::Function || key == Key::Unknown(179)
}

/// Tells whether events of `key` are to be skipped altogether.
pub fn ignore_input(key: Key) -> (r: bool)
    ensures
        r == is_ignored(key),
{
    match key {
        Key::Function => true,
        Key::Unknown(code) => code == 179,
        _ => false,
    }
}

/// The mapping depends on nothing but its two arguments, and shift never
/// decides whether a key types: only which character it types.
pub proof fn lemma_shift_keeps_printability(key: Key, shift: bool)
    ensures
        typed_char(key, shift) is Some <==> typed_char(key, !shift) is Some,
        typed_char(key, shift) is Some <==> is_printable(key),
        !is_printable(key) ==> typed_char(key, shift) is None,
{
}

/// Modifier keys, and the keys the buffer treats specially, type nothing.
pub proof fn lemma_control_keys_type_nothing(shift: bool)
    ensures
        typed_char(Key::ShiftLeft, shift) is None,
        typed_char(Key::ShiftRight, shift) is None,
        typed_char(Key::Backspace, shift) is None,
        typed_char(Key::Function, shift) is None,
        forall|code: u32| #[trigger] typed_char(Key::Unknown(code), shift) is None,
{
}

} // verus!
