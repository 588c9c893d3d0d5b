use vstd::prelude::*;

verus! {

/// A physical key of a QWERTY keyboard, as the global keyboard hook reports it.
///
/// The variants are those of the keyboard hook's own key type, one for one, so
/// that every key the hook can report stays distinguishable here.
#[derive(PartialEq, Eq, Structural, Clone, Copy, Debug, Hash)]
pub enum Key {
    Alt,
    AltGr,
    Backspace,
    CapsLock,
    ControlLeft,
    ControlRight,
    Delete,
    DownArrow,
    End,
    Escape,
    F1,
    F10,
    F11,
    F12,
    F2,
    F3,
    F4,
    F5,
    F6,
    F7,
    F8,
    F9,
    Home,
    LeftArrow,
    MetaLeft,
    MetaRight,
    PageDown,
    PageUp,
    Return,
    RightArrow,
    ShiftLeft,
    ShiftRight,
    Space,
    Tab,
    UpArrow,
    PrintScreen,
    ScrollLock,
    Pause,
    NumLock,
    BackQuote,
    Num1,
    Num2,
    Num3,
    Num4,
    Num5,
    Num6,
    Num7,
    Num8,
    Num9,
    Num0,
    Minus,
    Equal,
    KeyQ,
    KeyW,
    KeyE,
    KeyR,
    KeyT,
    KeyY,
    KeyU,
    KeyI,
    KeyO,
    KeyP,
    LeftBracket,
    RightBracket,
    KeyA,
    KeyS,
    KeyD,
    KeyF,
    KeyG,
    KeyH,
    KeyJ,
    KeyK,
    KeyL,
    SemiColon,
    Quote,
    BackSlash,
    IntlBackslash,
    KeyZ,
    KeyX,
    KeyC,
    KeyV,
    KeyB,
    KeyN,
    KeyM,
    Comma,
    Dot,
    Slash,
    Insert,
    KpReturn,
    KpMinus,
    KpPlus,
    KpMultiply,
    KpDivide,
    Kp0,
    Kp1,
    Kp2,
    Kp3,
    Kp4,
    Kp5,
    Kp6,
    Kp7,
    Kp8,
    Kp9,
    KpDelete,
    Function,
    Unknown(u32),
}

/// Which half of the keyboard a key lies on: it picks the left or the right
/// third of a selected cell.
#[derive(PartialEq, Eq, Structural, Clone, Copy, Debug)]
pub enum Side {
    Left,
    Right,
}

/// A mouse button that the overlay can click.
#[derive(PartialEq, Eq, Structural, Clone, Copy, Debug)]
pub enum MouseButton {
    Left,
    Right,
}

/// The number by which tables look a key up: a key the hook does not name,
/// `Unknown(c)`, has the number `c`; the named keys follow from 2^32 on, in
/// the order of their declaration.
pub open spec fn key_code(k: Key) -> u64 {
    match k {
        Key::Unknown(c) => c as u64,
        Key::Alt => 4294967296u64,
        Key::AltGr => 4294967297u64,
        Key::Backspace => 4294967298u64,
        Key::CapsLock => 4294967299u64,
        Key::ControlLeft => 4294967300u64,
        Key::ControlRight => 4294967301u64,
        Key::Delete => 4294967302u64,
        Key::DownArrow => 4294967303u64,
        Key::End => 4294967304u64,
        Key::Escape => 4294967305u64,
        Key::F1 => 4294967306u64,
        Key::F10 => 4294967307u64,
        Key::F11 => 4294967308u64,
        Key::F12 => 4294967309u64,
        Key::F2 => 4294967310u64,
        Key::F3 => 4294967311u64,
        Key::F4 => 4294967312u64,
        Key::F5 => 4294967313u64,
        Key::F6 => 4294967314u64,
        Key::F7 => 4294967315u64,
        Key::F8 => 4294967316u64,
        Key::F9 => 4294967317u64,
        Key::Home => 4294967318u64,
        Key::LeftArrow => 4294967319u64,
        Key::MetaLeft => 4294967320u64,
        Key::MetaRight => 4294967321u64,
        Key::PageDown => 4294967322u64,
        Key::PageUp => 4294967323u64,
        Key::Return => 4294967324u64,
        Key::RightArrow => 4294967325u64,
        Key::ShiftLeft => 4294967326u64,
        Key::ShiftRight => 4294967327u64,
        Key::Space => 4294967328u64,
        Key::Tab => 4294967329u64,
        Key::UpArrow => 4294967330u64,
        Key::PrintScreen => 4294967331u64,
        Key::ScrollLock => 4294967332u64,
        Key::Pause => 4294967333u64,
        Key::NumLock => 4294967334u64,
        Key::BackQuote => 4294967335u64,
        Key::Num1 => 4294967336u64,
        Key::Num2 => 4294967337u64,
        Key::Num3 => 4294967338u64,
        Key::Num4 => 4294967339u64,
        Key::Num5 => 4294967340u64,
        Key::Num6 => 4294967341u64,
        Key::Num7 => 4294967342u64,
        Key::Num8 => 4294967343u64,
        Key::Num9 => 4294967344u64,
        Key::Num0 => 4294967345u64,
        Key::Minus => 4294967346u64,
        Key::Equal => 4294967347u64,
        Key::KeyQ => 4294967348u64,
        Key::KeyW => 4294967349u64,
        Key::KeyE => 4294967350u64,
        Key::KeyR => 4294967351u64,
        Key::KeyT => 4294967352u64,
        Key::KeyY => 4294967353u64,
        Key::KeyU => 4294967354u64,
        Key::KeyI => 4294967355u64,
        Key::KeyO => 4294967356u64,
        Key::KeyP => 4294967357u64,
        Key::LeftBracket => 4294967358u64,
        Key::RightBracket => 4294967359u64,
        Key::KeyA => 4294967360u64,
        Key::KeyS => 4294967361u64,
        Key::KeyD => 4294967362u64,
        Key::KeyF => 4294967363u64,
        Key::KeyG => 4294967364u64,
        Key::KeyH => 4294967365u64,
        Key::KeyJ => 4294967366u64,
        Key::KeyK => 4294967367u64,
        Key::KeyL => 4294967368u64,
        Key::SemiColon => 4294967369u64,
        Key::Quote => 4294967370u64,
        Key::BackSlash => 4294967371u64,
        Key::IntlBackslash => 4294967372u64,
        Key::KeyZ => 4294967373u64,
        Key::KeyX => 4294967374u64,
        Key::KeyC => 4294967375u64,
        Key::KeyV => 4294967376u64,
        Key::KeyB => 4294967377u64,
        Key::KeyN => 4294967378u64,
        Key::KeyM => 4294967379u64,
        Key::Comma => 4294967380u64,
        Key::Dot => 4294967381u64,
        Key::Slash => 4294967382u64,
        Key::Insert => 4294967383u64,
        Key::KpReturn => 4294967384u64,
        Key::KpMinus => 4294967385u64,
        Key::KpPlus => 4294967386u64,
        Key::KpMultiply => 4294967387u64,
        Key::KpDivide => 4294967388u64,
        Key::Kp0 => 4294967389u64,
        Key::Kp1 => 4294967390u64,
        Key::Kp2 => 4294967391u64,
        Key::Kp3 => 4294967392u64,
        Key::Kp4 => 4294967393u64,
        Key::Kp5 => 4294967394u64,
        Key::Kp6 => 4294967395u64,
        Key::Kp7 => 4294967396u64,
        Key::Kp8 => 4294967397u64,
        Key::Kp9 => 4294967398u64,
        Key::KpDelete => 4294967399u64,
        Key::Function => 4294967400u64,
    }
}

/// The key with a given number; the inverse of `key_code`.
pub open spec fn key_of_code(n: u64) -> Key {
    if n < 0x1_0000_0000 {
        Key::Unknown(n as u32)
    } else {
        if n == 4294967296u64 { Key::Alt }
        else if n == 4294967297u64 { Key::AltGr }
        else if n == 4294967298u64 { Key::Backspace }
        else if n == 4294967299u64 { Key::CapsLock }
        else if n == 4294967300u64 { Key::ControlLeft }
        else if n == 4294967301u64 { Key::ControlRight }
        else if n == 4294967302u64 { Key::Delete }
        else if n == 4294967303u64 { Key::DownArrow }
        else if n == 4294967304u64 { Key::End }
        else if n == 4294967305u64 { Key::Escape }
        else if n == 4294967306u64 { Key::F1 }
        else if n == 4294967307u64 { Key::F10 }
        else if n == 4294967308u64 { Key::F11 }
        else if n == 4294967309u64 { Key::F12 }
        else if n == 4294967310u64 { Key::F2 }
        else if n == 4294967311u64 { Key::F3 }
        else if n == 4294967312u64 { Key::F4 }
        else if n == 4294967313u64 { Key::F5 }
        else if n == 4294967314u64 { Key::F6 }
        else if n == 4294967315u64 { Key::F7 }
        else if n == 4294967316u64 { Key::F8 }
        else if n == 4294967317u64 { Key::F9 }
        else if n == 4294967318u64 { Key::Home }
        else if n == 4294967319u64 { Key::LeftArrow }
        else if n == 4294967320u64 { Key::MetaLeft }
        else if n == 4294967321u64 { Key::MetaRight }
        else if n == 4294967322u64 { Key::PageDown }
        else if n == 4294967323u64 { Key::PageUp }
        else if n == 4294967324u64 { Key::Return }
        else if n == 4294967325u64 { Key::RightArrow }
        else if n == 4294967326u64 { Key::ShiftLeft }
        else if n == 4294967327u64 { Key::ShiftRight }
        else if n == 4294967328u64 { Key::Space }
        else if n == 4294967329u64 { Key::Tab }
        else if n == 4294967330u64 { Key::UpArrow }
        else if n == 4294967331u64 { Key::PrintScreen }
        else if n == 4294967332u64 { Key::ScrollLock }
        else if n == 4294967333u64 { Key::Pause }
        else if n == 4294967334u64 { Key::NumLock }
        else if n == 4294967335u64 { Key::BackQuote }
        else if n == 4294967336u64 { Key::Num1 }
        else if n == 4294967337u64 { Key::Num2 }
        else if n == 4294967338u64 { Key::Num3 }
        else if n == 4294967339u64 { Key::Num4 }
        else if n == 4294967340u64 { Key::Num5 }
        else if n == 4294967341u64 { Key::Num6 }
        else if n == 4294967342u64 { Key::Num7 }
        else if n == 4294967343u64 { Key::Num8 }
        else if n == 4294967344u64 { Key::Num9 }
        else if n == 4294967345u64 { Key::Num0 }
        else if n == 4294967346u64 { Key::Minus }
        else if n == 4294967347u64 { Key::Equal }
        else if n == 4294967348u64 { Key::KeyQ }
        else if n == 4294967349u64 { Key::KeyW }
        else if n == 4294967350u64 { Key::KeyE }
        else if n == 4294967351u64 { Key::KeyR }
        else if n == 4294967352u64 { Key::KeyT }
        else if n == 4294967353u64 { Key::KeyY }
        else if n == 4294967354u64 { Key::KeyU }
        else if n == 4294967355u64 { Key::KeyI }
        else if n == 4294967356u64 { Key::KeyO }
        else if n == 4294967357u64 { Key::KeyP }
        else if n == 4294967358u64 { Key::LeftBracket }
        else if n == 4294967359u64 { Key::RightBracket }
        else if n == 4294967360u64 { Key::KeyA }
        else if n == 4294967361u64 { Key::KeyS }
        else if n == 4294967362u64 { Key::KeyD }
        else if n == 4294967363u64 { Key::KeyF }
        else if n == 4294967364u64 { Key::KeyG }
        else if n == 4294967365u64 { Key::KeyH }
        else if n == 4294967366u64 { Key::KeyJ }
        else if n == 4294967367u64 { Key::KeyK }
        else if n == 4294967368u64 { Key::KeyL }
        else if n == 4294967369u64 { Key::SemiColon }
        else if n == 4294967370u64 { Key::Quote }
        else if n == 4294967371u64 { Key::BackSlash }
        else if n == 4294967372u64 { Key::IntlBackslash }
        else if n == 4294967373u64 { Key::KeyZ }
        else if n == 4294967374u64 { Key::KeyX }
        else if n == 4294967375u64 { Key::KeyC }
        else if n == 4294967376u64 { Key::KeyV }
        else if n == 4294967377u64 { Key::KeyB }
        else if n == 4294967378u64 { Key::KeyN }
        else if n == 4294967379u64 { Key::KeyM }
        else if n == 4294967380u64 { Key::Comma }
        else if n == 4294967381u64 { Key::Dot }
        else if n == 4294967382u64 { Key::Slash }
        else if n == 4294967383u64 { Key::Insert }
        else if n == 4294967384u64 { Key::KpReturn }
        else if n == 4294967385u64 { Key::KpMinus }
        else if n == 4294967386u64 { Key::KpPlus }
        else if n == 4294967387u64 { Key::KpMultiply }
        else if n == 4294967388u64 { Key::KpDivide }
        else if n == 4294967389u64 { Key::Kp0 }
        else if n == 4294967390u64 { Key::Kp1 }
        else if n == 4294967391u64 { Key::Kp2 }
        else if n == 4294967392u64 { Key::Kp3 }
        else if n == 4294967393u64 { Key::Kp4 }
        else if n == 4294967394u64 { Key::Kp5 }
        else if n == 4294967395u64 { Key::Kp6 }
        else if n == 4294967396u64 { Key::Kp7 }
        else if n == 4294967397u64 { Key::Kp8 }
        else if n == 4294967398u64 { Key::Kp9 }
        else if n == 4294967399u64 { Key::KpDelete }
        else if n == 4294967400u64 { Key::Function }
        else { Key::Unknown(0) }
    }
}

/// Each key has its own number.
pub proof fn lemma_key_code_injective()
    ensures
        forall|k: Key| #[trigger] key_of_code(key_code(k)) == k,
{
}

/// The number by which tables look a key up.
pub fn code_of(key: Key) -> (n: u64)
    ensures
        n == key_code(key),
{
    match key {
        Key::Unknown(c) => c as u64,
        Key::Alt => 4294967296u64,
        Key::AltGr => 4294967297u64,
        Key::Backspace => 4294967298u64,
        Key::CapsLock => 4294967299u64,
        Key::ControlLeft => 4294967300u64,
        Key::ControlRight => 4294967301u64,
        Key::Delete => 4294967302u64,
        Key::DownArrow => 4294967303u64,
        Key::End => 4294967304u64,
        Key::Escape => 4294967305u64,
        Key::F1 => 4294967306u64,
        Key::F10 => 4294967307u64,
        Key::F11 => 4294967308u64,
        Key::F12 => 4294967309u64,
        Key::F2 => 4294967310u64,
        Key::F3 => 4294967311u64,
        Key::F4 => 4294967312u64,
        Key::F5 => 4294967313u64,
        Key::F6 => 4294967314u64,
        Key::F7 => 4294967315u64,
        Key::F8 => 4294967316u64,
        Key::F9 => 4294967317u64,
        Key::Home => 4294967318u64,
        Key::LeftArrow => 4294967319u64,
        Key::MetaLeft => 4294967320u64,
        Key::MetaRight => 4294967321u64,
        Key::PageDown => 4294967322u64,
        Key::PageUp => 4294967323u64,
        Key::Return => 4294967324u64,
        Key::RightArrow => 4294967325u64,
        Key::ShiftLeft => 4294967326u64,
        Key::ShiftRight => 4294967327u64,
        Key::Space => 4294967328u64,
        Key::Tab => 4294967329u64,
        Key::UpArrow => 4294967330u64,
        Key::PrintScreen => 4294967331u64,
        Key::ScrollLock => 4294967332u64,
        Key::Pause => 4294967333u64,
        Key::NumLock => 4294967334u64,
        Key::BackQuote => 4294967335u64,
        Key::Num1 => 4294967336u64,
        Key::Num2 => 4294967337u64,
        Key::Num3 => 4294967338u64,
        Key::Num4 => 4294967339u64,
        Key::Num5 => 4294967340u64,
        Key::Num6 => 4294967341u64,
        Key::Num7 => 4294967342u64,
        Key::Num8 => 4294967343u64,
        Key::Num9 => 4294967344u64,
        Key::Num0 => 4294967345u64,
        Key::Minus => 4294967346u64,
        Key::Equal => 4294967347u64,
        Key::KeyQ => 4294967348u64,
        Key::KeyW => 4294967349u64,
        Key::KeyE => 4294967350u64,
        Key::KeyR => 4294967351u64,
        Key::KeyT => 4294967352u64,
        Key::KeyY => 4294967353u64,
        Key::KeyU => 4294967354u64,
        Key::KeyI => 4294967355u64,
        Key::KeyO => 4294967356u64,
        Key::KeyP => 4294967357u64,
        Key::LeftBracket => 4294967358u64,
        Key::RightBracket => 4294967359u64,
        Key::KeyA => 4294967360u64,
        Key::KeyS => 4294967361u64,
        Key::KeyD => 4294967362u64,
        Key::KeyF => 4294967363u64,
        Key::KeyG => 4294967364u64,
        Key::KeyH => 4294967365u64,
        Key::KeyJ => 4294967366u64,
        Key::KeyK => 4294967367u64,
        Key::KeyL => 4294967368u64,
        Key::SemiColon => 4294967369u64,
        Key::Quote => 4294967370u64,
        Key::BackSlash => 4294967371u64,
        Key::IntlBackslash => 4294967372u64,
        Key::KeyZ => 4294967373u64,
        Key::KeyX => 4294967374u64,
        Key::KeyC => 4294967375u64,
        Key::KeyV => 4294967376u64,
        Key::KeyB => 4294967377u64,
        Key::KeyN => 4294967378u64,
        Key::KeyM => 4294967379u64,
        Key::Comma => 4294967380u64,
        Key::Dot => 4294967381u64,
        Key::Slash => 4294967382u64,
        Key::Insert => 4294967383u64,
        Key::KpReturn => 4294967384u64,
        Key::KpMinus => 4294967385u64,
        Key::KpPlus => 4294967386u64,
        Key::KpMultiply => 4294967387u64,
        Key::KpDivide => 4294967388u64,
        Key::Kp0 => 4294967389u64,
        Key::Kp1 => 4294967390u64,
        Key::Kp2 => 4294967391u64,
        Key::Kp3 => 4294967392u64,
        Key::Kp4 => 4294967393u64,
        Key::Kp5 => 4294967394u64,
        Key::Kp6 => 4294967395u64,
        Key::Kp7 => 4294967396u64,
        Key::Kp8 => 4294967397u64,
        Key::Kp9 => 4294967398u64,
        Key::KpDelete => 4294967399u64,
        Key::Function => 4294967400u64,
    }
}

/// The ten column keys, the home row of the keyboard, left to right.
pub open spec fn col_keys() -> Seq<Key> {
    seq![
        Key::KeyA, Key::KeyS, Key::KeyD, Key::KeyF, Key::KeyG,
        Key::KeyH, Key::KeyJ, Key::KeyK, Key::KeyL, Key::SemiColon,
    ]
}

/// The thirty row keys: the top, home and bottom letter rows of the keyboard,
/// each left to right.
pub open spec fn row_keys() -> Seq<Key> {
    seq![
        Key::KeyQ, Key::KeyW, Key::KeyE, Key::KeyR, Key::KeyT,
        Key::KeyY, Key::KeyU, Key::KeyI, Key::KeyO, Key::KeyP,
        Key::KeyA, Key::KeyS, Key::KeyD, Key::KeyF, Key::KeyG,
        Key::KeyH, Key::KeyJ, Key::KeyK, Key::KeyL, Key::SemiColon,
        Key::KeyZ, Key::KeyX, Key::KeyC, Key::KeyV, Key::KeyB,
        Key::KeyN, Key::KeyM, Key::Comma, Key::Dot, Key::Slash,
    ]
}

/// The character printed on a grid key, in upper case; `None` for any other key.
pub open spec fn key_label(k: Key) -> Option<char> {
    match k {
        Key::KeyQ => Some('Q'),
        Key::KeyW => Some('W'),
        Key::KeyE => Some('E'),
        Key::KeyR => Some('R'),
        Key::KeyT => Some('T'),
        Key::KeyY => Some('Y'),
        Key::KeyU => Some('U'),
        Key::KeyI => Some('I'),
        Key::KeyO => Some('O'),
        Key::KeyP => Some('P'),
        Key::KeyA => Some('A'),
        Key::KeyS => Some('S'),
        Key::KeyD => Some('D'),
        Key::KeyF => Some('F'),
        Key::KeyG => Some('G'),
        Key::KeyH => Some('H'),
        Key::KeyJ => Some('J'),
        Key::KeyK => Some('K'),
        Key::KeyL => Some('L'),
        Key::SemiColon => Some(';'),
        Key::KeyZ => Some('Z'),
        Key::KeyX => Some('X'),
        Key::KeyC => Some('C'),
        Key::KeyV => Some('V'),
        Key::KeyB => Some('B'),
        Key::KeyN => Some('N'),
        Key::KeyM => Some('M'),
        Key::Comma => Some(','),
        Key::Dot => Some('.'),
        Key::Slash => Some('/'),
        _ => None,
    }
}

/// Maps an upper-case character of the grid to the key that carries it.
pub fn char_to_key(c: char) -> (r: Option<Key>)
    ensures
        match r {
            Some(k) => key_label(k) == Some(c),
            None => forall|k: Key| key_label(k) != Some(c),
        },
{
    match c {
        'A' => Some(Key::KeyA),
        'S' => Some(Key::KeyS),
        'D' => Some(Key::KeyD),
        'F' => Some(Key::KeyF),
        'G' => Some(Key::KeyG),
        'H' => Some(Key::KeyH),
        'J' => Some(Key::KeyJ),
        'K' => Some(Key::KeyK),
        'L' => Some(Key::KeyL),
        ';' => Some(Key::SemiColon),
        'Q' => Some(Key::KeyQ),
        'W' => Some(Key::KeyW),
        'E' => Some(Key::KeyE),
        'R' => Some(Key::KeyR),
        'T' => Some(Key::KeyT),
        'Y' => Some(Key::KeyY),
        'U' => Some(Key::KeyU),
        'I' => Some(Key::KeyI),
        'O' => Some(Key::KeyO),
        'P' => Some(Key::KeyP),
        'Z' => Some(Key::KeyZ),
        'X' => Some(Key::KeyX),
        'C' => Some(Key::KeyC),
        'V' => Some(Key::KeyV),
        'B' => Some(Key::KeyB),
        'N' => Some(Key::KeyN),
        'M' => Some(Key::KeyM),
        ',' => Some(Key::Comma),
        '.' => Some(Key::Dot),
        '/' => Some(Key::Slash),
        _ => None,
    }
}

/// The position of a key in the column list: its column, counted from the left.
pub open spec fn col_position(k: Key) -> Option<int> {
    match k {
        Key::KeyA => Some(0),
        Key::KeyS => Some(1),
        Key::KeyD => Some(2),
        Key::KeyF => Some(3),
        Key::KeyG => Some(4),
        Key::KeyH => Some(5),
        Key::KeyJ => Some(6),
        Key::KeyK => Some(7),
        Key::KeyL => Some(8),
        Key::SemiColon => Some(9),
        _ => None,
    }
}

/// The position of a key in the row list: its row, counted from the top.
pub open spec fn row_position(k: Key) -> Option<int> {
    match k {
        Key::KeyQ => Some(0),
        Key::KeyW => Some(1),
        Key::KeyE => Some(2),
        Key::KeyR => Some(3),
        Key::KeyT => Some(4),
        Key::KeyY => Some(5),
        Key::KeyU => Some(6),
        Key::KeyI => Some(7),
        Key::KeyO => Some(8),
        Key::KeyP => Some(9),
        Key::KeyA => Some(10),
        Key::KeyS => Some(11),
        Key::KeyD => Some(12),
        Key::KeyF => Some(13),
        Key::KeyG => Some(14),
        Key::KeyH => Some(15),
        Key::KeyJ => Some(16),
        Key::KeyK => Some(17),
        Key::KeyL => Some(18),
        Key::SemiColon => Some(19),
        Key::KeyZ => Some(20),
        Key::KeyX => Some(21),
        Key::KeyC => Some(22),
        Key::KeyV => Some(23),
        Key::KeyB => Some(24),
        Key::KeyN => Some(25),
        Key::KeyM => Some(26),
        Key::Comma => Some(27),
        Key::Dot => Some(28),
        Key::Slash => Some(29),
        _ => None,
    }
}

/// The column list holds each column key once, at its column.
pub proof fn lemma_col_keys()
    ensures
        col_keys().len() == 10,
        forall|i: int| 0 <= i < 10 ==> col_position(#[trigger] col_keys()[i]) == Some(i),
        forall|k: Key| #[trigger] col_position(k) matches Some(i) ==> 0 <= i < 10 && col_keys()[i] == k,
{
    assert forall|i: int| 0 <= i < 10 implies col_position(#[trigger] col_keys()[i]) == Some(i) by {
        if i == 0 { assert(col_keys()[0] == Key::KeyA); }
        else if i == 1 { assert(col_keys()[1] == Key::KeyS); }
        else if i == 2 { assert(col_keys()[2] == Key::KeyD); }
        else if i == 3 { assert(col_keys()[3] == Key::KeyF); }
        else if i == 4 { assert(col_keys()[4] == Key::KeyG); }
        else if i == 5 { assert(col_keys()[5] == Key::KeyH); }
        else if i == 6 { assert(col_keys()[6] == Key::KeyJ); }
        else if i == 7 { assert(col_keys()[7] == Key::KeyK); }
        else if i == 8 { assert(col_keys()[8] == Key::KeyL); }
        else if i == 9 { assert(col_keys()[9] == Key::SemiColon); }
    }
}

/// The row list holds each row key once, at its row.
pub proof fn lemma_row_keys()
    ensures
        row_keys().len() == 30,
        forall|i: int| 0 <= i < 30 ==> row_position(#[trigger] row_keys()[i]) == Some(i),
        forall|k: Key| #[trigger] row_position(k) matches Some(i) ==> 0 <= i < 30 && row_keys()[i] == k,
{
    assert forall|i: int| 0 <= i < 30 implies row_position(#[trigger] row_keys()[i]) == Some(i) by {
        if i == 0 { assert(row_keys()[0] == Key::KeyQ); }
        else if i == 1 { assert(row_keys()[1] == Key::KeyW); }
        else if i == 2 { assert(row_keys()[2] == Key::KeyE); }
        else if i == 3 { assert(row_keys()[3] == Key::KeyR); }
        else if i == 4 { assert(row_keys()[4] == Key::KeyT); }
        else if i == 5 { assert(row_keys()[5] == Key::KeyY); }
        else if i == 6 { assert(row_keys()[6] == Key::KeyU); }
        else if i == 7 { assert(row_keys()[7] == Key::KeyI); }
        else if i == 8 { assert(row_keys()[8] == Key::KeyO); }
        else if i == 9 { assert(row_keys()[9] == Key::KeyP); }
        else if i == 10 { assert(row_keys()[10] == Key::KeyA); }
        else if i == 11 { assert(row_keys()[11] == Key::KeyS); }
        else if i == 12 { assert(row_keys()[12] == Key::KeyD); }
        else if i == 13 { assert(row_keys()[13] == Key::KeyF); }
        else if i == 14 { assert(row_keys()[14] == Key::KeyG); }
        else if i == 15 { assert(row_keys()[15] == Key::KeyH); }
        else if i == 16 { assert(row_keys()[16] == Key::KeyJ); }
        else if i == 17 { assert(row_keys()[17] == Key::KeyK); }
        else if i == 18 { assert(row_keys()[18] == Key::KeyL); }
        else if i == 19 { assert(row_keys()[19] == Key::SemiColon); }
        else if i == 20 { assert(row_keys()[20] == Key::KeyZ); }
        else if i == 21 { assert(row_keys()[21] == Key::KeyX); }
        else if i == 22 { assert(row_keys()[22] == Key::KeyC); }
        else if i == 23 { assert(row_keys()[23] == Key::KeyV); }
        else if i == 24 { assert(row_keys()[24] == Key::KeyB); }
        else if i == 25 { assert(row_keys()[25] == Key::KeyN); }
        else if i == 26 { assert(row_keys()[26] == Key::KeyM); }
        else if i == 27 { assert(row_keys()[27] == Key::Comma); }
        else if i == 28 { assert(row_keys()[28] == Key::Dot); }
        else if i == 29 { assert(row_keys()[29] == Key::Slash); }
    }
}

/// Whether a key selects a column: one of the ten home-row keys.
pub fn is_column_key(key: Key) -> (r: bool)
    ensures
        r <==> col_position(key) is Some,
{
    matches!(key,
        Key::KeyA | Key::KeyS | Key::KeyD | Key::KeyF | Key::KeyG |
        Key::KeyH | Key::KeyJ | Key::KeyK | Key::KeyL | Key::SemiColon
    )
}

/// Which half of the keyboard a key lies on: the five leftmost keys of each
/// letter row are on the left, the five rightmost on the right.
pub fn key_side(key: Key) -> (r: Option<Side>)
    ensures
        r == match row_position(key) {
            Some(i) => Some(if i % 10 < 5 { Side::Left } else { Side::Right }),
            None => None,
        },
{
    match key {
        Key::KeyQ | Key::KeyW | Key::KeyE | Key::KeyR | Key::KeyT | Key::KeyA | Key::KeyS | Key::KeyD | Key::KeyF | Key::KeyG | Key::KeyZ | Key::KeyX | Key::KeyC | Key::KeyV | Key::KeyB => Some(Side::Left),
        Key::KeyY | Key::KeyU | Key::KeyI | Key::KeyO | Key::KeyP | Key::KeyH | Key::KeyJ | Key::KeyK | Key::KeyL | Key::SemiColon | Key::KeyN | Key::KeyM | Key::Comma | Key::Dot | Key::Slash => Some(Side::Right),
        _ => None,
    }
}

} // verus!
