//! Input identifiers.
//!
//! The foreign library identifies keys, buttons, pads and axes by plain
//! integer codes. Each identifier here maps to its code and back, and
//! the two directions are proved inverse to each other: decoding a
//! polled code yields exactly the identifier that encodes to it, and an
//! unknown code yields nothing.

use vstd::prelude::*;

verus! {

/// Kinds of mouse buttons.
#[derive(Clone, Copy, Debug, Eq, PartialEq, Structural)]
pub enum MouseButton {
    Left,
    Right,
    Middle,
}

impl MouseButton {
    /// The foreign code of this value.
    pub open spec fn spec_code(self) -> i32 {
        match self {
            MouseButton::Left => 0,
            MouseButton::Right => 1,
            MouseButton::Middle => 2,
        }
    }

    /// The foreign code of this value, as handed to the foreign polls.
    pub fn code(self) -> (r: i32)
        ensures
            r == self.spec_code(),
    {
        match self {
            MouseButton::Left => 0,
            MouseButton::Right => 1,
            MouseButton::Middle => 2,
        }
    }

    /// The mouse button a polled foreign code stands for, if any.
    pub fn from_code(code: i32) -> (r: Option<MouseButton>)
        ensures
            r matches Some(v) ==> v.spec_code() == code,
            r is None ==> forall|v: MouseButton| v.spec_code() != code,
    {
        let r = match code {
            0 => Some(MouseButton::Left),
            1 => Some(MouseButton::Right),
            2 => Some(MouseButton::Middle),
            _ => None,
        };
        proof {
            if r is None {
                assert(forall|v: MouseButton| v.spec_code() != code);
            }
        }
        r
    }
}

/// Gamepad number.
#[derive(Clone, Copy, Debug, Eq, PartialEq, Structural)]
pub enum Gamepad {
    One,
    Two,
    Three,
    Four,
}

impl Gamepad {
    /// The foreign code of this value.
    pub open spec fn spec_code(self) -> i32 {
        match self {
            Gamepad::One => 0,
            Gamepad::Two => 1,
            Gamepad::Three => 2,
            Gamepad::Four => 3,
        }
    }

    /// The foreign code of this value, as handed to the foreign polls.
    pub fn code(self) -> (r: i32)
        ensures
            r == self.spec_code(),
    {
        match self {
            Gamepad::One => 0,
            Gamepad::Two => 1,
            Gamepad::Three => 2,
            Gamepad::Four => 3,
        }
    }

    /// The gamepad a polled foreign code stands for, if any.
    pub fn from_code(code: i32) -> (r: Option<Gamepad>)
        ensures
            r matches Some(v) ==> v.spec_code() == code,
            r is None ==> forall|v: Gamepad| v.spec_code() != code,
    {
        let r = match code {
            0 => Some(Gamepad::One),
            1 => Some(Gamepad::Two),
            2 => Some(Gamepad::Three),
            3 => Some(Gamepad::Four),
            _ => None,
        };
        proof {
            if r is None {
                assert(forall|v: Gamepad| v.spec_code() != code);
            }
        }
        r
    }
}

/// Kinds of gamepad axes.
#[derive(Clone, Copy, Debug, Eq, PartialEq, Structural)]
pub enum GamepadAxis {
    LeftX,
    LeftY,
    RightX,
    RightY,
    LeftTrigger,
    RightTrigger,
}

impl GamepadAxis {
    /// The foreign code of this value.
    pub open spec fn spec_code(self) -> i32 {
        match self {
            GamepadAxis::LeftX => 0,
            GamepadAxis::LeftY => 1,
            GamepadAxis::RightX => 2,
            GamepadAxis::RightY => 3,
            GamepadAxis::LeftTrigger => 4,
            GamepadAxis::RightTrigger => 5,
        }
    }

    /// The foreign code of this value, as handed to the foreign polls.
    pub fn code(self) -> (r: i32)
        ensures
            r == self.spec_code(),
    {
        match self {
            GamepadAxis::LeftX => 0,
            GamepadAxis::LeftY => 1,
            GamepadAxis::RightX => 2,
            GamepadAxis::RightY => 3,
            GamepadAxis::LeftTrigger => 4,
            GamepadAxis::RightTrigger => 5,
        }
    }

    /// The axis a polled foreign code stands for, if any.
    pub fn from_code(code: i32) -> (r: Option<GamepadAxis>)
        ensures
            r matches Some(v) ==> v.spec_code() == code,
            r is None ==> forall|v: GamepadAxis| v.spec_code() != code,
    {
        let r = match code {
            0 => Some(GamepadAxis::LeftX),
            1 => Some(GamepadAxis::LeftY),
            2 => Some(GamepadAxis::RightX),
            3 => Some(GamepadAxis::RightY),
            4 => Some(GamepadAxis::LeftTrigger),
            5 => Some(GamepadAxis::RightTrigger),
            _ => None,
        };
        proof {
            if r is None {
                assert(forall|v: GamepadAxis| v.spec_code() != code);
            }
        }
        r
    }
}

/// Kinds of gamepad buttons.
#[derive(Clone, Copy, Debug, Eq, PartialEq, Structural)]
pub enum GamepadButton {
    LeftFaceUp,
    LeftFaceRight,
    LeftFaceDown,
    LeftFaceLeft,
    RightFaceUp,
    RightFaceRight,
    RightFaceDown,
    RightFaceLeft,
    LeftTrigger1,
    LeftTrigger2,
    RightTrigger1,
    RightTrigger2,
    MiddleLeft,
    Middle,
    MiddleRight,
    MiddleLeftThumb,
    MiddleRightThumb,
}

impl GamepadButton {
    /// The foreign code of this value.
    pub open spec fn spec_code(self) -> i32 {
        match self {
            GamepadButton::LeftFaceUp => 1,
            GamepadButton::LeftFaceRight => 2,
            GamepadButton::LeftFaceDown => 3,
            GamepadButton::LeftFaceLeft => 4,
            GamepadButton::RightFaceUp => 5,
            GamepadButton::RightFaceRight => 6,
            GamepadButton::RightFaceDown => 7,
            GamepadButton::RightFaceLeft => 8,
            GamepadButton::LeftTrigger1 => 9,
            GamepadButton::LeftTrigger2 => 10,
            GamepadButton::RightTrigger1 => 11,
            GamepadButton::RightTrigger2 => 12,
            GamepadButton::MiddleLeft => 13,
            GamepadButton::Middle => 14,
            GamepadButton::MiddleRight => 15,
            GamepadButton::MiddleLeftThumb => 16,
            GamepadButton::MiddleRightThumb => 17,
        }
    }

    /// The foreign code of this value, as handed to the foreign polls.
    pub fn code(self) -> (r: i32)
        ensures
            r == self.spec_code(),
    {
        match self {
            GamepadButton::LeftFaceUp => 1,
            GamepadButton::LeftFaceRight => 2,
            GamepadButton::LeftFaceDown => 3,
            GamepadButton::LeftFaceLeft => 4,
            GamepadButton::RightFaceUp => 5,
            GamepadButton::RightFaceRight => 6,
            GamepadButton::RightFaceDown => 7,
            GamepadButton::RightFaceLeft => 8,
            GamepadButton::LeftTrigger1 => 9,
            GamepadButton::LeftTrigger2 => 10,
            GamepadButton::RightTrigger1 => 11,
            GamepadButton::RightTrigger2 => 12,
            GamepadButton::MiddleLeft => 13,
            GamepadButton::Middle => 14,
            GamepadButton::MiddleRight => 15,
            GamepadButton::MiddleLeftThumb => 16,
            GamepadButton::MiddleRightThumb => 17,
        }
    }

    /// The button a polled foreign code stands for, if any. The foreign poll reports zero or less when no button is pressed, and those codes decode to nothing.
    pub fn from_code(code: i32) -> (r: Option<GamepadButton>)
        ensures
            r matches Some(v) ==> v.spec_code() == code,
            r is None ==> forall|v: GamepadButton| v.spec_code() != code,
    {
        let r = match code {
            1 => Some(GamepadButton::LeftFaceUp),
            2 => Some(GamepadButton::LeftFaceRight),
            3 => Some(GamepadButton::LeftFaceDown),
            4 => Some(GamepadButton::LeftFaceLeft),
            5 => Some(GamepadButton::RightFaceUp),
            6 => Some(GamepadButton::RightFaceRight),
            7 => Some(GamepadButton::RightFaceDown),
            8 => Some(GamepadButton::RightFaceLeft),
            9 => Some(GamepadButton::LeftTrigger1),
            10 => Some(GamepadButton::LeftTrigger2),
            11 => Some(GamepadButton::RightTrigger1),
            12 => Some(GamepadButton::RightTrigger2),
            13 => Some(GamepadButton::MiddleLeft),
            14 => Some(GamepadButton::Middle),
            15 => Some(GamepadButton::MiddleRight),
            16 => Some(GamepadButton::MiddleLeftThumb),
            17 => Some(GamepadButton::MiddleRightThumb),
            _ => None,
        };
        proof {
            if r is None {
                assert(forall|v: GamepadButton| v.spec_code() != code);
            }
        }
        r
    }
}

/// Kinds of keyboard keys.
#[derive(Clone, Copy, Debug, Eq, PartialEq, Structural)]
pub enum Key {
    Apostrophe,
    Comma,
    Minus,
    Period,
    Slash,
    Zero,
    One,
    Two,
    Three,
    Four,
    Five,
    Six,
    Seven,
    Eight,
    Nine,
    Semicolon,
    Equal,
    A,
    B,
    C,
    D,
    E,
    F,
    G,
    H,
    I,
    J,
    K,
    L,
    M,
    N,
    O,
    P,
    Q,
    R,
    S,
    T,
    U,
    V,
    W,
    X,
    Y,
    Z,
    Space,
    Escape,
    Enter,
    Tab,
    Backspace,
    Insert,
    Delete,
    Right,
    Left,
    Down,
    Up,
    PageUp,
    PageDown,
    Home,
    End,
    CapsLock,
    ScrollLock,
    NumLock,
    PrintScreen,
    Pause,
    F1,
    F2,
    F3,
    F4,
    F5,
    F6,
    F7,
    F8,
    F9,
    F10,
    F11,
    F12,
    LeftShift,
    LeftControl,
    LeftAlt,
    LeftSuper,
    RightShift,
    RightControl,
    RightAlt,
    RightSuper,
    Menu,
    LeftBracket,
    Backslash,
    RightBracket,
    Grave,
    KeypadZero,
    KeypadOne,
    KeypadTwo,
    KeypadThree,
    KeypadFour,
    KeypadFive,
    KeypadSix,
    KeypadSeven,
    KeypadEight,
    KeypadNine,
    KeypadDecimal,
    KeypadDivide,
    KeypadMultiply,
    KeypadSubtract,
    KeypadAdd,
    KeypadEnter,
    KeypadEqual,
}

impl Key {
    /// The foreign code of this value.
    pub open spec fn spec_code(self) -> i32 {
        match self {
            Key::Apostrophe => 39,
            Key::Comma => 44,
            Key::Minus => 45,
            Key::Period => 46,
            Key::Slash => 47,
            Key::Zero => 48,
            Key::One => 49,
            Key::Two => 50,
            Key::Three => 51,
            Key::Four => 52,
            Key::Five => 53,
            Key::Six => 54,
            Key::Seven => 55,
            Key::Eight => 56,
            Key::Nine => 57,
            Key::Semicolon => 59,
            Key::Equal => 61,
            Key::A => 65,
            Key::B => 66,
            Key::C => 67,
            Key::D => 68,
            Key::E => 69,
            Key::F => 70,
            Key::G => 71,
            Key::H => 72,
            Key::I => 73,
            Key::J => 74,
            Key::K => 75,
            Key::L => 76,
            Key::M => 77,
            Key::N => 78,
            Key::O => 79,
            Key::P => 80,
            Key::Q => 81,
            Key::R => 82,
            Key::S => 83,
            Key::T => 84,
            Key::U => 85,
            Key::V => 86,
            Key::W => 87,
            Key::X => 88,
            Key::Y => 89,
            Key::Z => 90,
            Key::Space => 32,
            Key::Escape => 256,
            Key::Enter => 257,
            Key::Tab => 258,
            Key::Backspace => 259,
            Key::Insert => 260,
            Key::Delete => 261,
            Key::Right => 262,
            Key::Left => 263,
            Key::Down => 264,
            Key::Up => 265,
            Key::PageUp => 266,
            Key::PageDown => 267,
            Key::Home => 268,
            Key::End => 269,
            Key::CapsLock => 280,
            Key::ScrollLock => 281,
            Key::NumLock => 282,
            Key::PrintScreen => 283,
            Key::Pause => 284,
            Key::F1 => 290,
            Key::F2 => 291,
            Key::F3 => 292,
            Key::F4 => 293,
            Key::F5 => 294,
            Key::F6 => 295,
            Key::F7 => 296,
            Key::F8 => 297,
            Key::F9 => 298,
            Key::F10 => 299,
            Key::F11 => 300,
            Key::F12 => 301,
            Key::LeftShift => 340,
            Key::LeftControl => 341,
            Key::LeftAlt => 342,
            Key::LeftSuper => 343,
            Key::RightShift => 344,
            Key::RightControl => 345,
            Key::RightAlt => 346,
            Key::RightSuper => 347,
            Key::Menu => 348,
            Key::LeftBracket => 91,
            Key::Backslash => 92,
            Key::RightBracket => 93,
            Key::Grave => 96,
            Key::KeypadZero => 320,
            Key::KeypadOne => 321,
            Key::KeypadTwo => 322,
            Key::KeypadThree => 323,
            Key::KeypadFour => 324,
            Key::KeypadFive => 325,
            Key::KeypadSix => 326,
            Key::KeypadSeven => 327,
            Key::KeypadEight => 328,
            Key::KeypadNine => 329,
            Key::KeypadDecimal => 330,
            Key::KeypadDivide => 331,
            Key::KeypadMultiply => 332,
            Key::KeypadSubtract => 333,
            Key::KeypadAdd => 334,
            Key::KeypadEnter => 335,
            Key::KeypadEqual => 33,
        }
    }

    /// The foreign code of this value, as handed to the foreign polls.
    pub fn code(self) -> (r: i32)
        ensures
            r == self.spec_code(),
    {
        match self {
            Key::Apostrophe => 39,
            Key::Comma => 44,
            Key::Minus => 45,
            Key::Period => 46,
            Key::Slash => 47,
            Key::Zero => 48,
            Key::One => 49,
            Key::Two => 50,
            Key::Three => 51,
            Key::Four => 52,
            Key::Five => 53,
            Key::Six => 54,
            Key::Seven => 55,
            Key::Eight => 56,
            Key::Nine => 57,
            Key::Semicolon => 59,
            Key::Equal => 61,
            Key::A => 65,
            Key::B => 66,
            Key::C => 67,
            Key::D => 68,
            Key::E => 69,
            Key::F => 70,
            Key::G => 71,
            Key::H => 72,
            Key::I => 73,
            Key::J => 74,
            Key::K => 75,
            Key::L => 76,
            Key::M => 77,
            Key::N => 78,
            Key::O => 79,
            Key::P => 80,
            Key::Q => 81,
            Key::R => 82,
            Key::S => 83,
            Key::T => 84,
            Key::U => 85,
            Key::V => 86,
            Key::W => 87,
            Key::X => 88,
            Key::Y => 89,
            Key::Z => 90,
            Key::Space => 32,
            Key::Escape => 256,
            Key::Enter => 257,
            Key::Tab => 258,
            Key::Backspace => 259,
            Key::Insert => 260,
            Key::Delete => 261,
            Key::Right => 262,
            Key::Left => 263,
            Key::Down => 264,
            Key::Up => 265,
            Key::PageUp => 266,
            Key::PageDown => 267,
            Key::Home => 268,
            Key::End => 269,
            Key::CapsLock => 280,
            Key::ScrollLock => 281,
            Key::NumLock => 282,
            Key::PrintScreen => 283,
            Key::Pause => 284,
            Key::F1 => 290,
            Key::F2 => 291,
            Key::F3 => 292,
            Key::F4 => 293,
            Key::F5 => 294,
            Key::F6 => 295,
            Key::F7 => 296,
            Key::F8 => 297,
            Key::F9 => 298,
            Key::F10 => 299,
            Key::F11 => 300,
            Key::F12 => 301,
            Key::LeftShift => 340,
            Key::LeftControl => 341,
            Key::LeftAlt => 342,
            Key::LeftSuper => 343,
            Key::RightShift => 344,
            Key::RightControl => 345,
            Key::RightAlt => 346,
            Key::RightSuper => 347,
            Key::Menu => 348,
            Key::LeftBracket => 91,
            Key::Backslash => 92,
            Key::RightBracket => 93,
            Key::Grave => 96,
            Key::KeypadZero => 320,
            Key::KeypadOne => 321,
            Key::KeypadTwo => 322,
            Key::KeypadThree => 323,
            Key::KeypadFour => 324,
            Key::KeypadFive => 325,
            Key::KeypadSix => 326,
            Key::KeypadSeven => 327,
            Key::KeypadEight => 328,
            Key::KeypadNine => 329,
            Key::KeypadDecimal => 330,
            Key::KeypadDivide => 331,
            Key::KeypadMultiply => 332,
            Key::KeypadSubtract => 333,
            Key::KeypadAdd => 334,
            Key::KeypadEnter => 335,
            Key::KeypadEqual => 33,
        }
    }

    /// The key a polled foreign code stands for, if any. The foreign poll reports zero when no key was pressed, and unknown codes decode to nothing.
    pub fn from_code(code: i32) -> (r: Option<Key>)
        ensures
            r matches Some(v) ==> v.spec_code() == code,
            r is None ==> forall|v: Key| v.spec_code() != code,
    {
        let r = match code {
            39 => Some(Key::Apostrophe),
            44 => Some(Key::Comma),
            45 => Some(Key::Minus),
            46 => Some(Key::Period),
            47 => Some(Key::Slash),
            48 => Some(Key::Zero),
            49 => Some(Key::One),
            50 => Some(Key::Two),
            51 => Some(Key::Three),
            52 => Some(Key::Four),
            53 => Some(Key::Five),
            54 => Some(Key::Six),
            55 => Some(Key::Seven),
            56 => Some(Key::Eight),
            57 => Some(Key::Nine),
            59 => Some(Key::Semicolon),
            61 => Some(Key::Equal),
            65 => Some(Key::A),
            66 => Some(Key::B),
            67 => Some(Key::C),
            68 => Some(Key::D),
            69 => Some(Key::E),
            70 => Some(Key::F),
            71 => Some(Key::G),
            72 => Some(Key::H),
            73 => Some(Key::I),
            74 => Some(Key::J),
            75 => Some(Key::K),
            76 => Some(Key::L),
            77 => Some(Key::M),
            78 => Some(Key::N),
            79 => Some(Key::O),
            80 => Some(Key::P),
            81 => Some(Key::Q),
            82 => Some(Key::R),
            83 => Some(Key::S),
            84 => Some(Key::T),
            85 => Some(Key::U),
            86 => Some(Key::V),
            87 => Some(Key::W),
            88 => Some(Key::X),
            89 => Some(Key::Y),
            90 => Some(Key::Z),
            32 => Some(Key::Space),
            256 => Some(Key::Escape),
            257 => Some(Key::Enter),
            258 => Some(Key::Tab),
            259 => Some(Key::Backspace),
            260 => Some(Key::Insert),
            261 => Some(Key::Delete),
            262 => Some(Key::Right),
            263 => Some(Key::Left),
            264 => Some(Key::Down),
            265 => Some(Key::Up),
            266 => Some(Key::PageUp),
            267 => Some(Key::PageDown),
            268 => Some(Key::Home),
            269 => Some(Key::End),
            280 => Some(Key::CapsLock),
            281 => Some(Key::ScrollLock),
            282 => Some(Key::NumLock),
            283 => Some(Key::PrintScreen),
            284 => Some(Key::Pause),
            290 => Some(Key::F1),
            291 => Some(Key::F2),
            292 => Some(Key::F3),
            293 => Some(Key::F4),
            294 => Some(Key::F5),
            295 => Some(Key::F6),
            296 => Some(Key::F7),
            297 => Some(Key::F8),
            298 => Some(Key::F9),
            299 => Some(Key::F10),
            300 => Some(Key::F11),
            301 => Some(Key::F12),
            340 => Some(Key::LeftShift),
            341 => Some(Key::LeftControl),
            342 => Some(Key::LeftAlt),
            343 => Some(Key::LeftSuper),
            344 => Some(Key::RightShift),
            345 => Some(Key::RightControl),
            346 => Some(Key::RightAlt),
            347 => Some(Key::RightSuper),
            348 => Some(Key::Menu),
            91 => Some(Key::LeftBracket),
            92 => Some(Key::Backslash),
            93 => Some(Key::RightBracket),
            96 => Some(Key::Grave),
            320 => Some(Key::KeypadZero),
            321 => Some(Key::KeypadOne),
            322 => Some(Key::KeypadTwo),
            323 => Some(Key::KeypadThree),
            324 => Some(Key::KeypadFour),
            325 => Some(Key::KeypadFive),
            326 => Some(Key::KeypadSix),
            327 => Some(Key::KeypadSeven),
            328 => Some(Key::KeypadEight),
            329 => Some(Key::KeypadNine),
            330 => Some(Key::KeypadDecimal),
            331 => Some(Key::KeypadDivide),
            332 => Some(Key::KeypadMultiply),
            333 => Some(Key::KeypadSubtract),
            334 => Some(Key::KeypadAdd),
            335 => Some(Key::KeypadEnter),
            33 => Some(Key::KeypadEqual),
            _ => None,
        };
        proof {
            if r is None {
                assert(forall|v: Key| v.spec_code() != code);
            }
        }
        r
    }
}

} // verus!
