use vstd::prelude::*;
use vstd::string::StrSliceExecFns;

use crate::geometry::{
    LogicalPos, LogicalVec, PhysicalPosition, ScaleFactor, line_delta_to_points,
    position_to_logical, spec_to_logical, to_logical_delta, MAX_COORD_MILLI, POINTS_PER_NOTCH,
};

verus! {

/// The abstract key symbols the GUI layer understands: the closed set of
/// character-producing keys that are forwarded to it.
#[derive(Debug, Clone, Copy, PartialEq, Eq, Structural)]
pub enum Key {
    A,
    B,
    C,
    D,
    E,
    F,
    G,
    H,
    I,
    J,
    K,
    L,
    M,
    N,
    O,
    P,
    Q,
    R,
    S,
    T,
    U,
    V,
    W,
    X,
    Y,
    Z,
    Num0,
    Num1,
    Num2,
    Num3,
    Num4,
    Num5,
    Num6,
    Num7,
    Num8,
    Num9,
    Space,
    Tab,
    Enter,
    Backspace,
    Delete,
    Escape,
}

/// A pointer button as the GUI layer names it.
#[derive(Debug, Clone, Copy, PartialEq, Eq, Structural)]
pub enum PointerButton {
    Primary,
    Secondary,
    Middle,
}

/// A mouse button as the platform names it; buttons beyond the first
/// three are not translated.
#[derive(Debug, Clone, Copy, PartialEq, Eq, Structural)]
pub enum MouseButton {
    Left,
    Right,
    Middle,
    Other,
}

/// A platform key, reduced to what the translator reads: either the text
/// the key produces or some key that produces none.
#[derive(Debug, Clone)]
pub enum NativeKey {
    Character(String),
    Other,
}

/// A scroll-wheel delta as the platform reports it: whole-line notches or
/// physical pixels, both in thousandths.
#[derive(Debug, Clone, Copy, PartialEq, Eq, Structural)]
pub enum ScrollDelta {
    LineDelta { x: i64, y: i64 },
    PixelDelta { x: i64, y: i64 },
}

/// A native window event, reduced to the kinds the bridge reacts to.
#[derive(Debug, Clone)]
pub enum NativeEvent {
    CursorMoved { position: PhysicalPosition },
    MouseInput { pressed: bool, button: MouseButton },
    MouseWheel { delta: ScrollDelta },
    KeyboardInput { key: NativeKey, pressed: bool, repeat: bool },
    Resized { width: u32, height: u32 },
    Other,
}

/// A translated GUI-level input event.
#[derive(Debug, Clone, Copy, PartialEq, Eq, Structural)]
pub enum InputEvent {
    PointerMoved { pos: LogicalPos },
    PointerButton { pos: LogicalPos, button: PointerButton, pressed: bool },
    MouseWheel { delta: LogicalVec },
    Key { key: Key, pressed: bool, repeat: bool },
}

/// The position a button event carries when no pointer movement has been
/// seen yet: the origin, a documented simplification.
pub open spec fn origin_pos() -> LogicalPos {
    LogicalPos { x: 0, y: 0 }
}

/// The closed character-to-key table.  Letters map case-insensitively;
/// carriage return and line feed both mean enter; every character outside
/// the table produces no key.
pub open spec fn spec_translate_char(c: char) -> Option<Key> {
    if c == 'a' || c == 'A' {
        Some(Key::A)
    } else if c == 'b' || c == 'B' {
        Some(Key::B)
    } else if c == 'c' || c == 'C' {
        Some(Key::C)
    } else if c == 'd' || c == 'D' {
        Some(Key::D)
    } else if c == 'e' || c == 'E' {
        Some(Key::E)
    } else if c == 'f' || c == 'F' {
        Some(Key::F)
    } else if c == 'g' || c == 'G' {
        Some(Key::G)
    } else if c == 'h' || c == 'H' {
        Some(Key::H)
    } else if c == 'i' || c == 'I' {
        Some(Key::I)
    } else if c == 'j' || c == 'J' {
        Some(Key::J)
    } else if c == 'k' || c == 'K' {
        Some(Key::K)
    } else if c == 'l' || c == 'L' {
        Some(Key::L)
    } else if c == 'm' || c == 'M' {
        Some(Key::M)
    } else if c == 'n' || c == 'N' {
        Some(Key::N)
    } else if c == 'o' || c == 'O' {
        Some(Key::O)
    } else if c == 'p' || c == 'P' {
        Some(Key::P)
    } else if c == 'q' || c == 'Q' {
        Some(Key::Q)
    } else if c == 'r' || c == 'R' {
        Some(Key::R)
    } else if c == 's' || c == 'S' {
        Some(Key::S)
    } else if c == 't' || c == 'T' {
        Some(Key::T)
    } else if c == 'u' || c == 'U' {
        Some(Key::U)
    } else if c == 'v' || c == 'V' {
        Some(Key::V)
    } else if c == 'w' || c == 'W' {
        Some(Key::W)
    } else if c == 'x' || c == 'X' {
        Some(Key::X)
    } else if c == 'y' || c == 'Y' {
        Some(Key::Y)
    } else if c == 'z' || c == 'Z' {
        Some(Key::Z)
    } else if c == '0' {
        Some(Key::Num0)
    } else if c == '1' {
        Some(Key::Num1)
    } else if c == '2' {
        Some(Key::Num2)
    } else if c == '3' {
        Some(Key::Num3)
    } else if c == '4' {
        Some(Key::Num4)
    } else if c == '5' {
        Some(Key::Num5)
    } else if c == '6' {
        Some(Key::Num6)
    } else if c == '7' {
        Some(Key::Num7)
    } else if c == '8' {
        Some(Key::Num8)
    } else if c == '9' {
        Some(Key::Num9)
    } else if c == ' ' {
        Some(Key::Space)
    } else if c == '\t' {
        Some(Key::Tab)
    } else if c == '\n' || c == '\r' {
        Some(Key::Enter)
    } else if c == '\u{8}' {
        Some(Key::Backspace)
    } else if c == '\u{7f}' {
        Some(Key::Delete)
    } else if c == '\u{1b}' {
        Some(Key::Escape)
    } else {
        None
    }
}

/// The canonical character of each abstract key: the lowercase letter,
/// the digit, or the single control character that names it.
pub open spec fn spec_key_char(k: Key) -> char {
    match k {
        Key::A => 'a',
        Key::B => 'b',
        Key::C => 'c',
        Key::D => 'd',
        Key::E => 'e',
        Key::F => 'f',
        Key::G => 'g',
        Key::H => 'h',
        Key::I => 'i',
        Key::J => 'j',
        Key::K => 'k',
        Key::L => 'l',
        Key::M => 'm',
        Key::N => 'n',
        Key::O => 'o',
        Key::P => 'p',
        Key::Q => 'q',
        Key::R => 'r',
        Key::S => 's',
        Key::T => 't',
        Key::U => 'u',
        Key::V => 'v',
        Key::W => 'w',
        Key::X => 'x',
        Key::Y => 'y',
        Key::Z => 'z',
        Key::Num0 => '0',
        Key::Num1 => '1',
        Key::Num2 => '2',
        Key::Num3 => '3',
        Key::Num4 => '4',
        Key::Num5 => '5',
        Key::Num6 => '6',
        Key::Num7 => '7',
        Key::Num8 => '8',
        Key::Num9 => '9',
        Key::Space => ' ',
        Key::Tab => '\t',
        Key::Enter => '\n',
        Key::Backspace => '\u{8}',
        Key::Delete => '\u{7f}',
        Key::Escape => '\u{1b}',
    }
}

/// The uppercase spelling of each abstract key's character: the capital
/// letter where the canonical character is a letter, and the canonical
/// character itself everywhere else.
pub open spec fn spec_key_char_upper(k: Key) -> char {
    match k {
        Key::A => 'A',
        Key::B => 'B',
        Key::C => 'C',
        Key::D => 'D',
        Key::E => 'E',
        Key::F => 'F',
        Key::G => 'G',
        Key::H => 'H',
        Key::I => 'I',
        Key::J => 'J',
        Key::K => 'K',
        Key::L => 'L',
        Key::M => 'M',
        Key::N => 'N',
        Key::O => 'O',
        Key::P => 'P',
        Key::Q => 'Q',
        Key::R => 'R',
        Key::S => 'S',
        Key::T => 'T',
        Key::U => 'U',
        Key::V => 'V',
        Key::W => 'W',
        Key::X => 'X',
        Key::Y => 'Y',
        Key::Z => 'Z',
        _ => spec_key_char(k),
    }
}

/// Key translation round-trip: the canonical character of every abstract
/// key — and, for letters, its uppercase spelling too — translates back
/// to exactly that key.
pub proof fn lemma_key_round_trip()
    ensures
        forall|k: Key| #[trigger] spec_translate_char(spec_key_char(k)) == Some(k),
        forall|k: Key| #[trigger] spec_translate_char(spec_key_char_upper(k)) == Some(k),
{
}

/// Translates one character, case-insensitively for letters, through the
/// closed table; characters outside the table yield no key.
pub fn translate_char(c: char) -> (r: Option<Key>)
    ensures
        r == spec_translate_char(c),
{
    match c {
        'a' | 'A' => Some(Key::A),
        'b' | 'B' => Some(Key::B),
        'c' | 'C' => Some(Key::C),
        'd' | 'D' => Some(Key::D),
        'e' | 'E' => Some(Key::E),
        'f' | 'F' => Some(Key::F),
        'g' | 'G' => Some(Key::G),
        'h' | 'H' => Some(Key::H),
        'i' | 'I' => Some(Key::I),
        'j' | 'J' => Some(Key::J),
        'k' | 'K' => Some(Key::K),
        'l' | 'L' => Some(Key::L),
        'm' | 'M' => Some(Key::M),
        'n' | 'N' => Some(Key::N),
        'o' | 'O' => Some(Key::O),
        'p' | 'P' => Some(Key::P),
        'q' | 'Q' => Some(Key::Q),
        'r' | 'R' => Some(Key::R),
        's' | 'S' => Some(Key::S),
        't' | 'T' => Some(Key::T),
        'u' | 'U' => Some(Key::U),
        'v' | 'V' => Some(Key::V),
        'w' | 'W' => Some(Key::W),
        'x' | 'X' => Some(Key::X),
        'y' | 'Y' => Some(Key::Y),
        'z' | 'Z' => Some(Key::Z),
        '0' => Some(Key::Num0),
        '1' => Some(Key::Num1),
        '2' => Some(Key::Num2),
        '3' => Some(Key::Num3),
        '4' => Some(Key::Num4),
        '5' => Some(Key::Num5),
        '6' => Some(Key::Num6),
        '7' => Some(Key::Num7),
        '8' => Some(Key::Num8),
        '9' => Some(Key::Num9),
        ' ' => Some(Key::Space),
        '\t' => Some(Key::Tab),
        '\n' | '\r' => Some(Key::Enter),
        '\u{8}' => Some(Key::Backspace),
        '\u{7f}' => Some(Key::Delete),
        '\u{1b}' => Some(Key::Escape),
        _ => None,
    }
}

/// What `translate_key` returns: the table applied to the first character
/// of the key's text, if it has one.
pub open spec fn spec_translate_key(key: NativeKey) -> Option<Key> {
    match key {
        NativeKey::Character(s) => {
            if s@.len() == 0 {
                None
            } else {
                spec_translate_char(s@[0])
            }
        },
        NativeKey::Other => None,
    }
}

/// Translates a platform key to an abstract key symbol, reading the first
/// character of the text it produces.
pub fn translate_key(key: &NativeKey) -> (r: Option<Key>)
    ensures
        r == spec_translate_key(*key),
{
    match key {
        NativeKey::Character(s) => {
            let len = s.as_str().unicode_len();
            if len == 0 {
                None
            } else {
                let c = s.as_str().get_char(0);
                translate_char(c)
            }
        },
        NativeKey::Other => None,
    }
}

pub open spec fn spec_translate_button(button: MouseButton) -> Option<PointerButton> {
    match button {
        MouseButton::Left => Some(PointerButton::Primary),
        MouseButton::Right => Some(PointerButton::Secondary),
        MouseButton::Middle => Some(PointerButton::Middle),
        MouseButton::Other => None,
    }
}

pub open spec fn spec_position_to_logical(pos: PhysicalPosition, scale: ScaleFactor) -> LogicalPos {
    LogicalPos {
        x: spec_to_logical(pos.x as int, scale.millis as int) as u64,
        y: spec_to_logical(pos.y as int, scale.millis as int) as u64,
    }
}

pub open spec fn spec_wheel_to_logical(delta: ScrollDelta, scale: ScaleFactor) -> LogicalVec {
    match delta {
        ScrollDelta::LineDelta { x, y } => LogicalVec {
            x: (x * POINTS_PER_NOTCH) as i64,
            y: (y * POINTS_PER_NOTCH) as i64,
        },
        ScrollDelta::PixelDelta { x, y } => LogicalVec {
            x: spec_to_logical(x as int, scale.millis as int) as i64,
            y: spec_to_logical(y as int, scale.millis as int) as i64,
        },
    }
}

impl ScrollDelta {
    pub open spec fn well_formed(self) -> bool {
        match self {
            ScrollDelta::LineDelta { x, y } => {
                &&& -MAX_COORD_MILLI <= x <= MAX_COORD_MILLI
                &&& -MAX_COORD_MILLI <= y <= MAX_COORD_MILLI
            },
            ScrollDelta::PixelDelta { x, y } => {
                &&& -MAX_COORD_MILLI <= x <= MAX_COORD_MILLI
                &&& -MAX_COORD_MILLI <= y <= MAX_COORD_MILLI
            },
        }
    }
}

impl NativeEvent {
    /// Coordinate magnitudes small enough for the fixed-point conversions.
    pub open spec fn well_formed(self) -> bool {
        match self {
            NativeEvent::CursorMoved { position } => position.well_formed(),
            NativeEvent::MouseWheel { delta } => delta.well_formed(),
            _ => true,
        }
    }
}

/// The pure translation of one native event, given the last known logical
/// pointer position and the window's scale factor.  Events with no mapping
/// translate to nothing; a button event before any pointer movement takes
/// the origin as its position.
pub open spec fn spec_translate(
    ev: NativeEvent,
    pointer_pos: Option<LogicalPos>,
    scale: ScaleFactor,
) -> Option<InputEvent> {
    match ev {
        NativeEvent::CursorMoved { position } => Some(
            InputEvent::PointerMoved { pos: spec_position_to_logical(position, scale) },
        ),
        NativeEvent::MouseInput { pressed, button } => match spec_translate_button(button) {
            Some(b) => {
                let pos = match pointer_pos {
                    Some(p) => p,
                    None => origin_pos(),
                };
                Some(InputEvent::PointerButton { pos, button: b, pressed })
            },
            None => None,
        },
        NativeEvent::MouseWheel { delta } => Some(
            InputEvent::MouseWheel { delta: spec_wheel_to_logical(delta, scale) },
        ),
        NativeEvent::KeyboardInput { key, pressed, repeat } => match spec_translate_key(key) {
            Some(k) => Some(InputEvent::Key { key: k, pressed, repeat }),
            None => None,
        },
        NativeEvent::Resized { .. } => None,
        NativeEvent::Other => None,
    }
}

/// Translates one native event into a GUI-level input event, or nothing
/// for event kinds with no mapping.  Pure: the caller appends the result
/// to the window's pending input.
pub fn translate(
    ev: &NativeEvent,
    pointer_pos: Option<LogicalPos>,
    scale: &ScaleFactor,
) -> (r: Option<InputEvent>)
    requires
        ev.well_formed(),
        scale.well_formed(),
    ensures
        r == spec_translate(*ev, pointer_pos, *scale),
{
    match ev {
        NativeEvent::CursorMoved { position } => Some(
            InputEvent::PointerMoved { pos: position_to_logical(position, scale) },
        ),
        NativeEvent::MouseInput { pressed, button } => match button {
            MouseButton::Left | MouseButton::Right | MouseButton::Middle => {
                let b = match button {
                    MouseButton::Left => PointerButton::Primary,
                    MouseButton::Right => PointerButton::Secondary,
                    _ => PointerButton::Middle,
                };
                let pos = match pointer_pos {
                    Some(p) => p,
                    None => LogicalPos { x: 0, y: 0 },
                };
                Some(InputEvent::PointerButton { pos, button: b, pressed: *pressed })
            },
            MouseButton::Other => None,
        },
        NativeEvent::MouseWheel { delta } => {
            let logical = match delta {
                ScrollDelta::LineDelta { x, y } => LogicalVec {
                    x: line_delta_to_points(*x),
                    y: line_delta_to_points(*y),
                },
                ScrollDelta::PixelDelta { x, y } => LogicalVec {
                    x: to_logical_delta(*x, scale),
                    y: to_logical_delta(*y, scale),
                },
            };
            Some(InputEvent::MouseWheel { delta: logical })
        },
        NativeEvent::KeyboardInput { key, pressed, repeat } => match translate_key(key) {
            Some(k) => Some(InputEvent::Key { key: k, pressed: *pressed, repeat: *repeat }),
            None => None,
        },
        NativeEvent::Resized { .. } => None,
        NativeEvent::Other => None,
    }
}

/// A mouse-button event arriving before any pointer movement translates
/// to a button event at the origin: the documented default position.
pub proof fn lemma_button_before_move_uses_origin(
    ev: NativeEvent,
    scale: ScaleFactor,
    pressed: bool,
    button: MouseButton,
)
    requires
        ev == (NativeEvent::MouseInput { pressed, button }),
        spec_translate_button(button) is Some,
    ensures
        spec_translate(ev, None, scale) == Some(
            InputEvent::PointerButton {
                pos: origin_pos(),
                button: spec_translate_button(button)->Some_0,
                pressed,
            },
        ),
{
}

} // verus!
