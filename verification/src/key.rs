//! Physical keys and the table that maps characters to them.

use vstd::prelude::*;

verus! {

/// A physical key of the keyboard.
///
/// A key names a position on the keyboard, not a character: what a press
/// types depends on the modifiers that are held at that moment.
#[derive(Clone, Copy, Debug, PartialEq, Eq, Hash, Structural)]
pub enum Key {
    Reserved,
    Esc,
    _1,
    _2,
    _3,
    _4,
    _5,
    _6,
    _7,
    _8,
    _9,
    _0,
    Minus,
    Equal,
    BackSpace,
    Tab,
    Q,
    W,
    E,
    R,
    T,
    Y,
    U,
    I,
    O,
    P,
    LeftBrace,
    RightBrace,
    Enter,
    LeftControl,
    A,
    S,
    D,
    F,
    G,
    H,
    J,
    K,
    L,
    SemiColon,
    Apostrophe,
    Grave,
    LeftShift,
    BackSlash,
    Z,
    X,
    C,
    V,
    B,
    N,
    M,
    Comma,
    Dot,
    Slash,
    RightShift,
    LeftAlt,
    Space,
    CapsLock,
    F1,
    F2,
    F3,
    F4,
    F5,
    F6,
    F7,
    F8,
    F9,
    F10,
    NumLock,
    ScrollLock,
    F11,
    F12,
    RightControl,
    SysRq,
    RightAlt,
    LineFeed,
    Home,
    Up,
    PageUp,
    Left,
    Right,
    End,
    Down,
    PageDown,
    Insert,
    Delete,
    LeftMeta,
    RightMeta,
    ScrollUp,
    ScrollDown,
    F13,
    F14,
    F15,
    F16,
    F17,
    F18,
    F19,
    F20,
    F21,
    F22,
    F23,
    F24,
}

/// Whether `c` is one of the letters `A` to `Z`.
pub open spec fn is_upper(c: char) -> bool {
    'A' <= c && c <= 'Z'
}

/// Whether `c` is one of the letters `a` to `z`.
pub open spec fn is_lower(c: char) -> bool {
    'a' <= c && c <= 'z'
}

/// Whether `c` is one of the digits `0` to `9`.
pub open spec fn is_digit(c: char) -> bool {
    '0' <= c && c <= '9'
}

/// Whether `c` is one of the punctuation marks that have a key of their own.
pub open spec fn is_punctuation(c: char) -> bool {
    c == '.' || c == ',' || c == '/' || c == '\\' || c == '[' || c == ']' || c == '\'' || c == '-'
        || c == '`' || c == ';' || c == '=' || c == '<'
}

/// The characters that have a key: letters of either case, digits, the
/// punctuation marks above, the space and the tab.
pub open spec fn is_supported(c: char) -> bool {
    is_upper(c) || is_lower(c) || is_digit(c) || is_punctuation(c) || c == ' ' || c == '\t'
}

/// An upper-case letter becomes its lower-case form; any other character stays.
pub open spec fn fold_case(c: char) -> char {
    if is_upper(c) {
        ((c as u32) + 32) as char
    } else {
        c
    }
}

/// A letter changes to its other case; any other character stays.
pub open spec fn toggle_case(c: char) -> char {
    if is_upper(c) {
        ((c as u32) + 32) as char
    } else if is_lower(c) {
        ((c as u32) - 32) as char
    } else {
        c
    }
}

/// The key that types `c` while no modifier is held, if there is one.
pub open spec fn unshifted_key(c: char) -> Option<Key> {
    match c {
        'a' => Some(Key::A),
        'b' => Some(Key::B),
        'c' => Some(Key::C),
        'd' => Some(Key::D),
        'e' => Some(Key::E),
        'f' => Some(Key::F),
        'g' => Some(Key::G),
        'h' => Some(Key::H),
        'i' => Some(Key::I),
        'j' => Some(Key::J),
        'k' => Some(Key::K),
        'l' => Some(Key::L),
        'm' => Some(Key::M),
        'n' => Some(Key::N),
        'o' => Some(Key::O),
        'p' => Some(Key::P),
        'q' => Some(Key::Q),
        'r' => Some(Key::R),
        's' => Some(Key::S),
        't' => Some(Key::T),
        'u' => Some(Key::U),
        'v' => Some(Key::V),
        'w' => Some(Key::W),
        'x' => Some(Key::X),
        'y' => Some(Key::Y),
        'z' => Some(Key::Z),
        '0' => Some(Key::_0),
        '1' => Some(Key::_1),
        '2' => Some(Key::_2),
        '3' => Some(Key::_3),
        '4' => Some(Key::_4),
        '5' => Some(Key::_5),
        '6' => Some(Key::_6),
        '7' => Some(Key::_7),
        '8' => Some(Key::_8),
        '9' => Some(Key::_9),
        '.' => Some(Key::Dot),
        ',' => Some(Key::Comma),
        '/' => Some(Key::Slash),
        '\\' => Some(Key::BackSlash),
        '[' => Some(Key::LeftBrace),
        ']' => Some(Key::RightBrace),
        '\'' => Some(Key::Apostrophe),
        '-' => Some(Key::Minus),
        '`' => Some(Key::Grave),
        ';' => Some(Key::SemiColon),
        '=' => Some(Key::Equal),
        '<' => Some(Key::LeftMeta),
        ' ' => Some(Key::Space),
        '\t' => Some(Key::Tab),
        _ => None,
    }
}

/// The key for `c`: letters are looked up without regard to case.
pub open spec fn key_of(c: char) -> Option<Key> {
    unshifted_key(fold_case(c))
}

/// Looks up the physical key for a character.
///
/// Letters map to the same key in either case: the table knows nothing of
/// the shift state. A character without a key gives `None`.
pub fn key_code_from_char(c: char) -> (key: Option<Key>)
    ensures
        key == key_of(c),
        key is Some <==> is_supported(c),
{
    match c {
        'a' | 'A' => Some(Key::A),
        'b' | 'B' => Some(Key::B),
        'c' | 'C' => Some(Key::C),
        'd' | 'D' => Some(Key::D),
        'e' | 'E' => Some(Key::E),
        'f' | 'F' => Some(Key::F),
        'g' | 'G' => Some(Key::G),
        'h' | 'H' => Some(Key::H),
        'i' | 'I' => Some(Key::I),
        'j' | 'J' => Some(Key::J),
        'k' | 'K' => Some(Key::K),
        'l' | 'L' => Some(Key::L),
        'm' | 'M' => Some(Key::M),
        'n' | 'N' => Some(Key::N),
        'o' | 'O' => Some(Key::O),
        'p' | 'P' => Some(Key::P),
        'q' | 'Q' => Some(Key::Q),
        'r' | 'R' => Some(Key::R),
        's' | 'S' => Some(Key::S),
        't' | 'T' => Some(Key::T),
        'u' | 'U' => Some(Key::U),
        'v' | 'V' => Some(Key::V),
        'w' | 'W' => Some(Key::W),
        'x' | 'X' => Some(Key::X),
        'y' | 'Y' => Some(Key::Y),
        'z' | 'Z' => Some(Key::Z),
        '0' => Some(Key::_0),
        '1' => Some(Key::_1),
        '2' => Some(Key::_2),
        '3' => Some(Key::_3),
        '4' => Some(Key::_4),
        '5' => Some(Key::_5),
        '6' => Some(Key::_6),
        '7' => Some(Key::_7),
        '8' => Some(Key::_8),
        '9' => Some(Key::_9),
        '.' => Some(Key::Dot),
        ',' => Some(Key::Comma),
        '/' => Some(Key::Slash),
        '\\' => Some(Key::BackSlash),
        '[' => Some(Key::LeftBrace),
        ']' => Some(Key::RightBrace),
        '\'' => Some(Key::Apostrophe),
        '-' => Some(Key::Minus),
        '`' => Some(Key::Grave),
        ';' => Some(Key::SemiColon),
        '=' => Some(Key::Equal),
        '<' => Some(Key::LeftMeta),
        ' ' => Some(Key::Space),
        '\t' => Some(Key::Tab),
        _ => None,
    }
}

/// The table does not distinguish the two cases of a letter.
pub proof fn lemma_case_insensitive(c: char)
    requires
        is_upper(c) || is_lower(c),
    ensures
        key_of(c) == key_of(toggle_case(c)),
        key_of(c) is Some,
{
}

/// Exactly the supported characters have a key.
pub proof fn lemma_mapped_iff_supported(c: char)
    ensures
        key_of(c) is Some <==> is_supported(c),
        !is_supported(c) ==> key_of(c) is None,
{
}

} // verus!
