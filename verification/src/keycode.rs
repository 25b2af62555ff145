//! The key codes that a key can be bound to, and the lighting modes of the
//! board, each with its number on the wire and its name on screen.

use vstd::prelude::*;

verus! {

/// Number of key codes.
pub const KEYCODE_COUNT: usize = 143;

/// A key code: the usage ids of the HID keyboard page (modifiers as negative
/// numbers), and the board's own function and profile keys from 1000 on.
#[allow(non_camel_case_types)]
#[derive(Debug, Clone, Copy, PartialEq, Eq, Structural)]
pub enum KeyCode {
    LCTRL,
    LSHIFT,
    LALT,
    LGUI,
    RCTRL,
    RSHIFT,
    RALT,
    RGUI,
    RESERVED,
    ERROR_ROLL_OVER,
    POST_FAIL,
    ERROR_UNDEFINED,
    A,
    B,
    C,
    D,
    E,
    F,
    G,
    H,
    I,
    J,
    K,
    L,
    M,
    N,
    O,
    P,
    Q,
    R,
    S,
    T,
    U,
    V,
    W,
    X,
    Y,
    Z,
    NUM_1,
    NUM_2,
    NUM_3,
    NUM_4,
    NUM_5,
    NUM_6,
    NUM_7,
    NUM_8,
    NUM_9,
    NUM_0,
    ENTER,
    ESC,
    BACKSPACE,
    TAB,
    SPACE,
    MINUS,
    EQUAL,
    LEFT_U_BRACE,
    RIGHT_U_BRACE,
    BACKSLASH,
    NONE_US,
    SEMI_COLON,
    QUOTE,
    GRAVE_ACCENT,
    COMMA,
    PERIOD,
    SLASH,
    CAP_LOCK,
    F1,
    F2,
    F3,
    F4,
    F5,
    F6,
    F7,
    F8,
    F9,
    F10,
    F11,
    F12,
    PRINT,
    SCROLL_LOCK,
    PAUSE,
    INSERT,
    HOME,
    PAGE_UP,
    DELETE,
    END,
    PAGE_DOWN,
    RIGHT_ARROW,
    LEFT_ARROW,
    DOWN_ARROW,
    UP_ARROW,
    PAD_NUM_LOCK,
    PAD_SLASH,
    PAD_ASTERISK,
    PAD_MINUS,
    PAD_PLUS,
    PAD_ENTER,
    PAD_NUM_1,
    PAD_NUM_2,
    PAD_NUM_3,
    PAD_NUM_4,
    PAD_NUM_5,
    PAD_NUM_6,
    PAD_NUM_7,
    PAD_NUM_8,
    PAD_NUM_9,
    PAD_NUM_0,
    PAD_PERIOD,
    NONUS_BACKSLASH,
    APPLICATION,
    POWER,
    PAD_EQUAL,
    F13,
    F14,
    F15,
    F16,
    F17,
    F18,
    F19,
    F20,
    F21,
    F22,
    F23,
    F24,
    EXECUTE,
    HELP,
    MENU,
    SELECT,
    STOP,
    AGAIN,
    UNDO,
    CUT,
    COPY,
    PASTE,
    FIND,
    MUTE,
    VOLUME_UP,
    VOLUME_DOWN,
    FN,
    PROFILE1,
    PROFILE2,
    PROFILE3,
    PROFILE4,
}

impl KeyCode {
    /// The place of the code in the list of all codes, in declaration order.
    pub open spec fn spec_index(self) -> int {
        match self {
            KeyCode::LCTRL => 0,
            KeyCode::LSHIFT => 1,
            KeyCode::LALT => 2,
            KeyCode::LGUI => 3,
            KeyCode::RCTRL => 4,
            KeyCode::RSHIFT => 5,
            KeyCode::RALT => 6,
            KeyCode::RGUI => 7,
            KeyCode::RESERVED => 8,
            KeyCode::ERROR_ROLL_OVER => 9,
            KeyCode::POST_FAIL => 10,
            KeyCode::ERROR_UNDEFINED => 11,
            KeyCode::A => 12,
            KeyCode::B => 13,
            KeyCode::C => 14,
            KeyCode::D => 15,
            KeyCode::E => 16,
            KeyCode::F => 17,
            KeyCode::G => 18,
            KeyCode::H => 19,
            KeyCode::I => 20,
            KeyCode::J => 21,
            KeyCode::K => 22,
            KeyCode::L => 23,
            KeyCode::M => 24,
            KeyCode::N => 25,
            KeyCode::O => 26,
            KeyCode::P => 27,
            KeyCode::Q => 28,
            KeyCode::R => 29,
            KeyCode::S => 30,
            KeyCode::T => 31,
            KeyCode::U => 32,
            KeyCode::V => 33,
            KeyCode::W => 34,
            KeyCode::X => 35,
            KeyCode::Y => 36,
            KeyCode::Z => 37,
            KeyCode::NUM_1 => 38,
            KeyCode::NUM_2 => 39,
            KeyCode::NUM_3 => 40,
            KeyCode::NUM_4 => 41,
            KeyCode::NUM_5 => 42,
            KeyCode::NUM_6 => 43,
            KeyCode::NUM_7 => 44,
            KeyCode::NUM_8 => 45,
            KeyCode::NUM_9 => 46,
            KeyCode::NUM_0 => 47,
            KeyCode::ENTER => 48,
            KeyCode::ESC => 49,
            KeyCode::BACKSPACE => 50,
            KeyCode::TAB => 51,
            KeyCode::SPACE => 52,
            KeyCode::MINUS => 53,
            KeyCode::EQUAL => 54,
            KeyCode::LEFT_U_BRACE => 55,
            KeyCode::RIGHT_U_BRACE => 56,
            KeyCode::BACKSLASH => 57,
            KeyCode::NONE_US => 58,
            KeyCode::SEMI_COLON => 59,
            KeyCode::QUOTE => 60,
            KeyCode::GRAVE_ACCENT => 61,
            KeyCode::COMMA => 62,
            KeyCode::PERIOD => 63,
            KeyCode::SLASH => 64,
            KeyCode::CAP_LOCK => 65,
            KeyCode::F1 => 66,
            KeyCode::F2 => 67,
            KeyCode::F3 => 68,
            KeyCode::F4 => 69,
            KeyCode::F5 => 70,
            KeyCode::F6 => 71,
            KeyCode::F7 => 72,
            KeyCode::F8 => 73,
            KeyCode::F9 => 74,
            KeyCode::F10 => 75,
            KeyCode::F11 => 76,
            KeyCode::F12 => 77,
            KeyCode::PRINT => 78,
            KeyCode::SCROLL_LOCK => 79,
            KeyCode::PAUSE => 80,
            KeyCode::INSERT => 81,
            KeyCode::HOME => 82,
            KeyCode::PAGE_UP => 83,
            KeyCode::DELETE => 84,
            KeyCode::END => 85,
            KeyCode::PAGE_DOWN => 86,
            KeyCode::RIGHT_ARROW => 87,
            KeyCode::LEFT_ARROW => 88,
            KeyCode::DOWN_ARROW => 89,
            KeyCode::UP_ARROW => 90,
            KeyCode::PAD_NUM_LOCK => 91,
            KeyCode::PAD_SLASH => 92,
            KeyCode::PAD_ASTERISK => 93,
            KeyCode::PAD_MINUS => 94,
            KeyCode::PAD_PLUS => 95,
            KeyCode::PAD_ENTER => 96,
            KeyCode::PAD_NUM_1 => 97,
            KeyCode::PAD_NUM_2 => 98,
            KeyCode::PAD_NUM_3 => 99,
            KeyCode::PAD_NUM_4 => 100,
            KeyCode::PAD_NUM_5 => 101,
            KeyCode::PAD_NUM_6 => 102,
            KeyCode::PAD_NUM_7 => 103,
            KeyCode::PAD_NUM_8 => 104,
            KeyCode::PAD_NUM_9 => 105,
            KeyCode::PAD_NUM_0 => 106,
            KeyCode::PAD_PERIOD => 107,
            KeyCode::NONUS_BACKSLASH => 108,
            KeyCode::APPLICATION => 109,
            KeyCode::POWER => 110,
            KeyCode::PAD_EQUAL => 111,
            KeyCode::F13 => 112,
            KeyCode::F14 => 113,
            KeyCode::F15 => 114,
            KeyCode::F16 => 115,
            KeyCode::F17 => 116,
            KeyCode::F18 => 117,
            KeyCode::F19 => 118,
            KeyCode::F20 => 119,
            KeyCode::F21 => 120,
            KeyCode::F22 => 121,
            KeyCode::F23 => 122,
            KeyCode::F24 => 123,
            KeyCode::EXECUTE => 124,
            KeyCode::HELP => 125,
            KeyCode::MENU => 126,
            KeyCode::SELECT => 127,
            KeyCode::STOP => 128,
            KeyCode::AGAIN => 129,
            KeyCode::UNDO => 130,
            KeyCode::CUT => 131,
            KeyCode::COPY => 132,
            KeyCode::PASTE => 133,
            KeyCode::FIND => 134,
            KeyCode::MUTE => 135,
            KeyCode::VOLUME_UP => 136,
            KeyCode::VOLUME_DOWN => 137,
            KeyCode::FN => 138,
            KeyCode::PROFILE1 => 139,
            KeyCode::PROFILE2 => 140,
            KeyCode::PROFILE3 => 141,
            KeyCode::PROFILE4 => 142,
        }
    }

    /// The number that stands for the code in a key binding.
    pub open spec fn spec_code(self) -> i16 {
        match self {
            KeyCode::LCTRL => -8i16,
            KeyCode::LSHIFT => -7i16,
            KeyCode::LALT => -6i16,
            KeyCode::LGUI => -5i16,
            KeyCode::RCTRL => -4i16,
            KeyCode::RSHIFT => -3i16,
            KeyCode::RALT => -2i16,
            KeyCode::RGUI => -1i16,
            KeyCode::RESERVED => 0i16,
            KeyCode::ERROR_ROLL_OVER => 1i16,
            KeyCode::POST_FAIL => 2i16,
            KeyCode::ERROR_UNDEFINED => 3i16,
            KeyCode::A => 4i16,
            KeyCode::B => 5i16,
            KeyCode::C => 6i16,
            KeyCode::D => 7i16,
            KeyCode::E => 8i16,
            KeyCode::F => 9i16,
            KeyCode::G => 10i16,
            KeyCode::H => 11i16,
            KeyCode::I => 12i16,
            KeyCode::J => 13i16,
            KeyCode::K => 14i16,
            KeyCode::L => 15i16,
            KeyCode::M => 16i16,
            KeyCode::N => 17i16,
            KeyCode::O => 18i16,
            KeyCode::P => 19i16,
            KeyCode::Q => 20i16,
            KeyCode::R => 21i16,
            KeyCode::S => 22i16,
            KeyCode::T => 23i16,
            KeyCode::U => 24i16,
            KeyCode::V => 25i16,
            KeyCode::W => 26i16,
            KeyCode::X => 27i16,
            KeyCode::Y => 28i16,
            KeyCode::Z => 29i16,
            KeyCode::NUM_1 => 30i16,
            KeyCode::NUM_2 => 31i16,
            KeyCode::NUM_3 => 32i16,
            KeyCode::NUM_4 => 33i16,
            KeyCode::NUM_5 => 34i16,
            KeyCode::NUM_6 => 35i16,
            KeyCode::NUM_7 => 36i16,
            KeyCode::NUM_8 => 37i16,
            KeyCode::NUM_9 => 38i16,
            KeyCode::NUM_0 => 39i16,
            KeyCode::ENTER => 40i16,
            KeyCode::ESC => 41i16,
            KeyCode::BACKSPACE => 42i16,
            KeyCode::TAB => 43i16,
            KeyCode::SPACE => 44i16,
            KeyCode::MINUS => 45i16,
            KeyCode::EQUAL => 46i16,
            KeyCode::LEFT_U_BRACE => 47i16,
            KeyCode::RIGHT_U_BRACE => 48i16,
            KeyCode::BACKSLASH => 49i16,
            KeyCode::NONE_US => 50i16,
            KeyCode::SEMI_COLON => 51i16,
            KeyCode::QUOTE => 52i16,
            KeyCode::GRAVE_ACCENT => 53i16,
            KeyCode::COMMA => 54i16,
            KeyCode::PERIOD => 55i16,
            KeyCode::SLASH => 56i16,
            KeyCode::CAP_LOCK => 57i16,
            KeyCode::F1 => 58i16,
            KeyCode::F2 => 59i16,
            KeyCode::F3 => 60i16,
            KeyCode::F4 => 61i16,
            KeyCode::F5 => 62i16,
            KeyCode::F6 => 63i16,
            KeyCode::F7 => 64i16,
            KeyCode::F8 => 65i16,
            KeyCode::F9 => 66i16,
            KeyCode::F10 => 67i16,
            KeyCode::F11 => 68i16,
            KeyCode::F12 => 69i16,
            KeyCode::PRINT => 70i16,
            KeyCode::SCROLL_LOCK => 71i16,
            KeyCode::PAUSE => 72i16,
            KeyCode::INSERT => 73i16,
            KeyCode::HOME => 74i16,
            KeyCode::PAGE_UP => 75i16,
            KeyCode::DELETE => 76i16,
            KeyCode::END => 77i16,
            KeyCode::PAGE_DOWN => 78i16,
            KeyCode::RIGHT_ARROW => 79i16,
            KeyCode::LEFT_ARROW => 80i16,
            KeyCode::DOWN_ARROW => 81i16,
            KeyCode::UP_ARROW => 82i16,
            KeyCode::PAD_NUM_LOCK => 83i16,
            KeyCode::PAD_SLASH => 84i16,
            KeyCode::PAD_ASTERISK => 85i16,
            KeyCode::PAD_MINUS => 86i16,
            KeyCode::PAD_PLUS => 87i16,
            KeyCode::PAD_ENTER => 88i16,
            KeyCode::PAD_NUM_1 => 89i16,
            KeyCode::PAD_NUM_2 => 90i16,
            KeyCode::PAD_NUM_3 => 91i16,
            KeyCode::PAD_NUM_4 => 92i16,
            KeyCode::PAD_NUM_5 => 93i16,
            KeyCode::PAD_NUM_6 => 94i16,
            KeyCode::PAD_NUM_7 => 95i16,
            KeyCode::PAD_NUM_8 => 96i16,
            KeyCode::PAD_NUM_9 => 97i16,
            KeyCode::PAD_NUM_0 => 98i16,
            KeyCode::PAD_PERIOD => 99i16,
            KeyCode::NONUS_BACKSLASH => 100i16,
            KeyCode::APPLICATION => 101i16,
            KeyCode::POWER => 102i16,
            KeyCode::PAD_EQUAL => 103i16,
            KeyCode::F13 => 104i16,
            KeyCode::F14 => 105i16,
            KeyCode::F15 => 106i16,
            KeyCode::F16 => 107i16,
            KeyCode::F17 => 108i16,
            KeyCode::F18 => 109i16,
            KeyCode::F19 => 110i16,
            KeyCode::F20 => 111i16,
            KeyCode::F21 => 112i16,
            KeyCode::F22 => 113i16,
            KeyCode::F23 => 114i16,
            KeyCode::F24 => 115i16,
            KeyCode::EXECUTE => 116i16,
            KeyCode::HELP => 117i16,
            KeyCode::MENU => 118i16,
            KeyCode::SELECT => 119i16,
            KeyCode::STOP => 120i16,
            KeyCode::AGAIN => 121i16,
            KeyCode::UNDO => 122i16,
            KeyCode::CUT => 123i16,
            KeyCode::COPY => 124i16,
            KeyCode::PASTE => 125i16,
            KeyCode::FIND => 126i16,
            KeyCode::MUTE => 127i16,
            KeyCode::VOLUME_UP => 128i16,
            KeyCode::VOLUME_DOWN => 129i16,
            KeyCode::FN => 1000i16,
            KeyCode::PROFILE1 => 1001i16,
            KeyCode::PROFILE2 => 1002i16,
            KeyCode::PROFILE3 => 1003i16,
            KeyCode::PROFILE4 => 1004i16,
        }
    }

    /// The name shown for the code.
    pub open spec fn spec_name(self) -> Seq<char> {
        match self {
            KeyCode::LCTRL => "LCTRL"@,
            KeyCode::LSHIFT => "LSHIFT"@,
            KeyCode::LALT => "LALT"@,
            KeyCode::LGUI => "LGUI"@,
            KeyCode::RCTRL => "RCTRL"@,
            KeyCode::RSHIFT => "RSHIFT"@,
            KeyCode::RALT => "RALT"@,
            KeyCode::RGUI => "RGUI"@,
            KeyCode::RESERVED => "RESERVED"@,
            KeyCode::ERROR_ROLL_OVER => "ERROR_ROLL_OVER"@,
            KeyCode::POST_FAIL => "POST_FAIL"@,
            KeyCode::ERROR_UNDEFINED => "ERROR_UNDEFINED"@,
            KeyCode::A => "A"@,
            KeyCode::B => "B"@,
            KeyCode::C => "C"@,
            KeyCode::D => "D"@,
            KeyCode::E => "E"@,
            KeyCode::F => "F"@,
            KeyCode::G => "G"@,
            KeyCode::H => "H"@,
            KeyCode::I => "I"@,
            KeyCode::J => "J"@,
            KeyCode::K => "K"@,
            KeyCode::L => "L"@,
            KeyCode::M => "M"@,
            KeyCode::N => "N"@,
            KeyCode::O => "O"@,
            KeyCode::P => "P"@,
            KeyCode::Q => "Q"@,
            KeyCode::R => "R"@,
            KeyCode::S => "S"@,
            KeyCode::T => "T"@,
            KeyCode::U => "U"@,
            KeyCode::V => "V"@,
            KeyCode::W => "W"@,
            KeyCode::X => "X"@,
            KeyCode::Y => "Y"@,
            KeyCode::Z => "Z"@,
            KeyCode::NUM_1 => "1"@,
            KeyCode::NUM_2 => "2"@,
            KeyCode::NUM_3 => "3"@,
            KeyCode::NUM_4 => "4"@,
            KeyCode::NUM_5 => "5"@,
            KeyCode::NUM_6 => "6"@,
            KeyCode::NUM_7 => "7"@,
            KeyCode::NUM_8 => "8"@,
            KeyCode::NUM_9 => "9"@,
            KeyCode::NUM_0 => "0"@,
            KeyCode::ENTER => "ENTER"@,
            KeyCode::ESC => "ESC"@,
            KeyCode::BACKSPACE => "BACKSPACE"@,
            KeyCode::TAB => "TAB"@,
            KeyCode::SPACE => "SPACE"@,
            KeyCode::MINUS => "-_"@,
            KeyCode::EQUAL => "=+"@,
            KeyCode::LEFT_U_BRACE => "[{"@,
            KeyCode::RIGHT_U_BRACE => "]}"@,
            KeyCode::BACKSLASH => "\\|"@,
            KeyCode::NONE_US => "NONE_US"@,
            KeyCode::SEMI_COLON => ";:"@,
            KeyCode::QUOTE => "' \""@,
            KeyCode::GRAVE_ACCENT => "`~"@,
            KeyCode::COMMA => ",<"@,
            KeyCode::PERIOD => ".>"@,
            KeyCode::SLASH => "/?"@,
            KeyCode::CAP_LOCK => "CAP_LOCK"@,
            KeyCode::F1 => "F1"@,
            KeyCode::F2 => "F2"@,
            KeyCode::F3 => "F3"@,
            KeyCode::F4 => "F4"@,
            KeyCode::F5 => "F5"@,
            KeyCode::F6 => "F6"@,
            KeyCode::F7 => "F7"@,
            KeyCode::F8 => "F8"@,
            KeyCode::F9 => "F9"@,
            KeyCode::F10 => "F10"@,
            KeyCode::F11 => "F11"@,
            KeyCode::F12 => "F12"@,
            KeyCode::PRINT => "PRINT"@,
            KeyCode::SCROLL_LOCK => "SCROLL_LOCK"@,
            KeyCode::PAUSE => "PAUSE"@,
            KeyCode::INSERT => "INSERT"@,
            KeyCode::HOME => "HOME"@,
            KeyCode::PAGE_UP => "PAGE_UP"@,
            KeyCode::DELETE => "DELETE"@,
            KeyCode::END => "END"@,
            KeyCode::PAGE_DOWN => "PAGE_DOWN"@,
            KeyCode::RIGHT_ARROW => "\u{27a1}"@,
            KeyCode::LEFT_ARROW => "\u{2b05}"@,
            KeyCode::DOWN_ARROW => "\u{2b07}"@,
            KeyCode::UP_ARROW => "\u{2b06}"@,
            KeyCode::PAD_NUM_LOCK => "PAD_NUM_LOCK"@,
            KeyCode::PAD_SLASH => "PAD_SLASH"@,
            KeyCode::PAD_ASTERISK => "PAD_ASTERISK"@,
            KeyCode::PAD_MINUS => "PAD_MINUS"@,
            KeyCode::PAD_PLUS => "PAD_PLUS"@,
            KeyCode::PAD_ENTER => "PAD_ENTER"@,
            KeyCode::PAD_NUM_1 => "PAD_NUM_1"@,
            KeyCode::PAD_NUM_2 => "PAD_NUM_2"@,
            KeyCode::PAD_NUM_3 => "PAD_NUM_3"@,
            KeyCode::PAD_NUM_4 => "PAD_NUM_4"@,
            KeyCode::PAD_NUM_5 => "PAD_NUM_5"@,
            KeyCode::PAD_NUM_6 => "PAD_NUM_6"@,
            KeyCode::PAD_NUM_7 => "PAD_NUM_7"@,
            KeyCode::PAD_NUM_8 => "PAD_NUM_8"@,
            KeyCode::PAD_NUM_9 => "PAD_NUM_9"@,
            KeyCode::PAD_NUM_0 => "PAD_NUM_0"@,
            KeyCode::PAD_PERIOD => "PAD_PERIOD"@,
            KeyCode::NONUS_BACKSLASH => "NONUS_BACKSLASH"@,
            KeyCode::APPLICATION => "APPLICATION"@,
            KeyCode::POWER => "POWER"@,
            KeyCode::PAD_EQUAL => "PAD_EQUAL"@,
            KeyCode::F13 => "F13"@,
            KeyCode::F14 => "F14"@,
            KeyCode::F15 => "F15"@,
            KeyCode::F16 => "F16"@,
            KeyCode::F17 => "F17"@,
            KeyCode::F18 => "F18"@,
            KeyCode::F19 => "F19"@,
            KeyCode::F20 => "F20"@,
            KeyCode::F21 => "F21"@,
            KeyCode::F22 => "F22"@,
            KeyCode::F23 => "F23"@,
            KeyCode::F24 => "F24"@,
            KeyCode::EXECUTE => "EXECUTE"@,
            KeyCode::HELP => "HELP"@,
            KeyCode::MENU => "MENU"@,
            KeyCode::SELECT => "SELECT"@,
            KeyCode::STOP => "STOP"@,
            KeyCode::AGAIN => "AGAIN"@,
            KeyCode::UNDO => "UNDO"@,
            KeyCode::CUT => "CUT"@,
            KeyCode::COPY => "COPY"@,
            KeyCode::PASTE => "PASTE"@,
            KeyCode::FIND => "FIND"@,
            KeyCode::MUTE => "MUTE"@,
            KeyCode::VOLUME_UP => "VOLUME_UP"@,
            KeyCode::VOLUME_DOWN => "VOLUME_DOWN"@,
            KeyCode::FN => "FN"@,
            KeyCode::PROFILE1 => "PROFILE1"@,
            KeyCode::PROFILE2 => "PROFILE2"@,
            KeyCode::PROFILE3 => "PROFILE3"@,
            KeyCode::PROFILE4 => "PROFILE4"@,
        }
    }

    /// The code at place `i` of the list of all codes.
    pub open spec fn spec_from_index(i: int) -> Option<KeyCode> {
        if i == 0 {
            Some(KeyCode::LCTRL)
        } else if i == 1 {
            Some(KeyCode::LSHIFT)
        } else if i == 2 {
            Some(KeyCode::LALT)
        } else if i == 3 {
            Some(KeyCode::LGUI)
        } else if i == 4 {
            Some(KeyCode::RCTRL)
        } else if i == 5 {
            Some(KeyCode::RSHIFT)
        } else if i == 6 {
            Some(KeyCode::RALT)
        } else if i == 7 {
            Some(KeyCode::RGUI)
        } else if i == 8 {
            Some(KeyCode::RESERVED)
        } else if i == 9 {
            Some(KeyCode::ERROR_ROLL_OVER)
        } else if i == 10 {
            Some(KeyCode::POST_FAIL)
        } else if i == 11 {
            Some(KeyCode::ERROR_UNDEFINED)
        } else if i == 12 {
            Some(KeyCode::A)
        } else if i == 13 {
            Some(KeyCode::B)
        } else if i == 14 {
            Some(KeyCode::C)
        } else if i == 15 {
            Some(KeyCode::D)
        } else if i == 16 {
            Some(KeyCode::E)
        } else if i == 17 {
            Some(KeyCode::F)
        } else if i == 18 {
            Some(KeyCode::G)
        } else if i == 19 {
            Some(KeyCode::H)
        } else if i == 20 {
            Some(KeyCode::I)
        } else if i == 21 {
            Some(KeyCode::J)
        } else if i == 22 {
            Some(KeyCode::K)
        } else if i == 23 {
            Some(KeyCode::L)
        } else if i == 24 {
            Some(KeyCode::M)
        } else if i == 25 {
            Some(KeyCode::N)
        } else if i == 26 {
            Some(KeyCode::O)
        } else if i == 27 {
            Some(KeyCode::P)
        } else if i == 28 {
            Some(KeyCode::Q)
        } else if i == 29 {
            Some(KeyCode::R)
        } else if i == 30 {
            Some(KeyCode::S)
        } else if i == 31 {
            Some(KeyCode::T)
        } else if i == 32 {
            Some(KeyCode::U)
        } else if i == 33 {
            Some(KeyCode::V)
        } else if i == 34 {
            Some(KeyCode::W)
        } else if i == 35 {
            Some(KeyCode::X)
        } else if i == 36 {
            Some(KeyCode::Y)
        } else if i == 37 {
            Some(KeyCode::Z)
        } else if i == 38 {
            Some(KeyCode::NUM_1)
        } else if i == 39 {
            Some(KeyCode::NUM_2)
        } else if i == 40 {
            Some(KeyCode::NUM_3)
        } else if i == 41 {
            Some(KeyCode::NUM_4)
        } else if i == 42 {
            Some(KeyCode::NUM_5)
        } else if i == 43 {
            Some(KeyCode::NUM_6)
        } else if i == 44 {
            Some(KeyCode::NUM_7)
        } else if i == 45 {
            Some(KeyCode::NUM_8)
        } else if i == 46 {
            Some(KeyCode::NUM_9)
        } else if i == 47 {
            Some(KeyCode::NUM_0)
        } else if i == 48 {
            Some(KeyCode::ENTER)
        } else if i == 49 {
            Some(KeyCode::ESC)
        } else if i == 50 {
            Some(KeyCode::BACKSPACE)
        } else if i == 51 {
            Some(KeyCode::TAB)
        } else if i == 52 {
            Some(KeyCode::SPACE)
        } else if i == 53 {
            Some(KeyCode::MINUS)
        } else if i == 54 {
            Some(KeyCode::EQUAL)
        } else if i == 55 {
            Some(KeyCode::LEFT_U_BRACE)
        } else if i == 56 {
            Some(KeyCode::RIGHT_U_BRACE)
        } else if i == 57 {
            Some(KeyCode::BACKSLASH)
        } else if i == 58 {
            Some(KeyCode::NONE_US)
        } else if i == 59 {
            Some(KeyCode::SEMI_COLON)
        } else if i == 60 {
            Some(KeyCode::QUOTE)
        } else if i == 61 {
            Some(KeyCode::GRAVE_ACCENT)
        } else if i == 62 {
            Some(KeyCode::COMMA)
        } else if i == 63 {
            Some(KeyCode::PERIOD)
        } else if i == 64 {
            Some(KeyCode::SLASH)
        } else if i == 65 {
            Some(KeyCode::CAP_LOCK)
        } else if i == 66 {
            Some(KeyCode::F1)
        } else if i == 67 {
            Some(KeyCode::F2)
        } else if i == 68 {
            Some(KeyCode::F3)
        } else if i == 69 {
            Some(KeyCode::F4)
        } else if i == 70 {
            Some(KeyCode::F5)
        } else if i == 71 {
            Some(KeyCode::F6)
        } else if i == 72 {
            Some(KeyCode::F7)
        } else if i == 73 {
            Some(KeyCode::F8)
        } else if i == 74 {
            Some(KeyCode::F9)
        } else if i == 75 {
            Some(KeyCode::F10)
        } else if i == 76 {
            Some(KeyCode::F11)
        } else if i == 77 {
            Some(KeyCode::F12)
        } else if i == 78 {
            Some(KeyCode::PRINT)
        } else if i == 79 {
            Some(KeyCode::SCROLL_LOCK)
        } else if i == 80 {
            Some(KeyCode::PAUSE)
        } else if i == 81 {
            Some(KeyCode::INSERT)
        } else if i == 82 {
            Some(KeyCode::HOME)
        } else if i == 83 {
            Some(KeyCode::PAGE_UP)
        } else if i == 84 {
            Some(KeyCode::DELETE)
        } else if i == 85 {
            Some(KeyCode::END)
        } else if i == 86 {
            Some(KeyCode::PAGE_DOWN)
        } else if i == 87 {
            Some(KeyCode::RIGHT_ARROW)
        } else if i == 88 {
            Some(KeyCode::LEFT_ARROW)
        } else if i == 89 {
            Some(KeyCode::DOWN_ARROW)
        } else if i == 90 {
            Some(KeyCode::UP_ARROW)
        } else if i == 91 {
            Some(KeyCode::PAD_NUM_LOCK)
        } else if i == 92 {
            Some(KeyCode::PAD_SLASH)
        } else if i == 93 {
            Some(KeyCode::PAD_ASTERISK)
        } else if i == 94 {
            Some(KeyCode::PAD_MINUS)
        } else if i == 95 {
            Some(KeyCode::PAD_PLUS)
        } else if i == 96 {
            Some(KeyCode::PAD_ENTER)
        } else if i == 97 {
            Some(KeyCode::PAD_NUM_1)
        } else if i == 98 {
            Some(KeyCode::PAD_NUM_2)
        } else if i == 99 {
            Some(KeyCode::PAD_NUM_3)
        } else if i == 100 {
            Some(KeyCode::PAD_NUM_4)
        } else if i == 101 {
            Some(KeyCode::PAD_NUM_5)
        } else if i == 102 {
            Some(KeyCode::PAD_NUM_6)
        } else if i == 103 {
            Some(KeyCode::PAD_NUM_7)
        } else if i == 104 {
            Some(KeyCode::PAD_NUM_8)
        } else if i == 105 {
            Some(KeyCode::PAD_NUM_9)
        } else if i == 106 {
            Some(KeyCode::PAD_NUM_0)
        } else if i == 107 {
            Some(KeyCode::PAD_PERIOD)
        } else if i == 108 {
            Some(KeyCode::NONUS_BACKSLASH)
        } else if i == 109 {
            Some(KeyCode::APPLICATION)
        } else if i == 110 {
            Some(KeyCode::POWER)
        } else if i == 111 {
            Some(KeyCode::PAD_EQUAL)
        } else if i == 112 {
            Some(KeyCode::F13)
        } else if i == 113 {
            Some(KeyCode::F14)
        } else if i == 114 {
            Some(KeyCode::F15)
        } else if i == 115 {
            Some(KeyCode::F16)
        } else if i == 116 {
            Some(KeyCode::F17)
        } else if i == 117 {
            Some(KeyCode::F18)
        } else if i == 118 {
            Some(KeyCode::F19)
        } else if i == 119 {
            Some(KeyCode::F20)
        } else if i == 120 {
            Some(KeyCode::F21)
        } else if i == 121 {
            Some(KeyCode::F22)
        } else if i == 122 {
            Some(KeyCode::F23)
        } else if i == 123 {
            Some(KeyCode::F24)
        } else if i == 124 {
            Some(KeyCode::EXECUTE)
        } else if i == 125 {
            Some(KeyCode::HELP)
        } else if i == 126 {
            Some(KeyCode::MENU)
        } else if i == 127 {
            Some(KeyCode::SELECT)
        } else if i == 128 {
            Some(KeyCode::STOP)
        } else if i == 129 {
            Some(KeyCode::AGAIN)
        } else if i == 130 {
            Some(KeyCode::UNDO)
        } else if i == 131 {
            Some(KeyCode::CUT)
        } else if i == 132 {
            Some(KeyCode::COPY)
        } else if i == 133 {
            Some(KeyCode::PASTE)
        } else if i == 134 {
            Some(KeyCode::FIND)
        } else if i == 135 {
            Some(KeyCode::MUTE)
        } else if i == 136 {
            Some(KeyCode::VOLUME_UP)
        } else if i == 137 {
            Some(KeyCode::VOLUME_DOWN)
        } else if i == 138 {
            Some(KeyCode::FN)
        } else if i == 139 {
            Some(KeyCode::PROFILE1)
        } else if i == 140 {
            Some(KeyCode::PROFILE2)
        } else if i == 141 {
            Some(KeyCode::PROFILE3)
        } else if i == 142 {
            Some(KeyCode::PROFILE4)
        } else {
            None
        }
    }

    /// The place of the code in the list of all codes.
    pub fn index(&self) -> (i: usize)
        ensures
            i == self.spec_index(),
            i < KEYCODE_COUNT,
    {
        match self {
            KeyCode::LCTRL => 0,
            KeyCode::LSHIFT => 1,
            KeyCode::LALT => 2,
            KeyCode::LGUI => 3,
            KeyCode::RCTRL => 4,
            KeyCode::RSHIFT => 5,
            KeyCode::RALT => 6,
            KeyCode::RGUI => 7,
            KeyCode::RESERVED => 8,
            KeyCode::ERROR_ROLL_OVER => 9,
            KeyCode::POST_FAIL => 10,
            KeyCode::ERROR_UNDEFINED => 11,
            KeyCode::A => 12,
            KeyCode::B => 13,
            KeyCode::C => 14,
            KeyCode::D => 15,
            KeyCode::E => 16,
            KeyCode::F => 17,
            KeyCode::G => 18,
            KeyCode::H => 19,
            KeyCode::I => 20,
            KeyCode::J => 21,
            KeyCode::K => 22,
            KeyCode::L => 23,
            KeyCode::M => 24,
            KeyCode::N => 25,
            KeyCode::O => 26,
            KeyCode::P => 27,
            KeyCode::Q => 28,
            KeyCode::R => 29,
            KeyCode::S => 30,
            KeyCode::T => 31,
            KeyCode::U => 32,
            KeyCode::V => 33,
            KeyCode::W => 34,
            KeyCode::X => 35,
            KeyCode::Y => 36,
            KeyCode::Z => 37,
            KeyCode::NUM_1 => 38,
            KeyCode::NUM_2 => 39,
            KeyCode::NUM_3 => 40,
            KeyCode::NUM_4 => 41,
            KeyCode::NUM_5 => 42,
            KeyCode::NUM_6 => 43,
            KeyCode::NUM_7 => 44,
            KeyCode::NUM_8 => 45,
            KeyCode::NUM_9 => 46,
            KeyCode::NUM_0 => 47,
            KeyCode::ENTER => 48,
            KeyCode::ESC => 49,
            KeyCode::BACKSPACE => 50,
            KeyCode::TAB => 51,
            KeyCode::SPACE => 52,
            KeyCode::MINUS => 53,
            KeyCode::EQUAL => 54,
            KeyCode::LEFT_U_BRACE => 55,
            KeyCode::RIGHT_U_BRACE => 56,
            KeyCode::BACKSLASH => 57,
            KeyCode::NONE_US => 58,
            KeyCode::SEMI_COLON => 59,
            KeyCode::QUOTE => 60,
            KeyCode::GRAVE_ACCENT => 61,
            KeyCode::COMMA => 62,
            KeyCode::PERIOD => 63,
            KeyCode::SLASH => 64,
            KeyCode::CAP_LOCK => 65,
            KeyCode::F1 => 66,
            KeyCode::F2 => 67,
            KeyCode::F3 => 68,
            KeyCode::F4 => 69,
            KeyCode::F5 => 70,
            KeyCode::F6 => 71,
            KeyCode::F7 => 72,
            KeyCode::F8 => 73,
            KeyCode::F9 => 74,
            KeyCode::F10 => 75,
            KeyCode::F11 => 76,
            KeyCode::F12 => 77,
            KeyCode::PRINT => 78,
            KeyCode::SCROLL_LOCK => 79,
            KeyCode::PAUSE => 80,
            KeyCode::INSERT => 81,
            KeyCode::HOME => 82,
            KeyCode::PAGE_UP => 83,
            KeyCode::DELETE => 84,
            KeyCode::END => 85,
            KeyCode::PAGE_DOWN => 86,
            KeyCode::RIGHT_ARROW => 87,
            KeyCode::LEFT_ARROW => 88,
            KeyCode::DOWN_ARROW => 89,
            KeyCode::UP_ARROW => 90,
            KeyCode::PAD_NUM_LOCK => 91,
            KeyCode::PAD_SLASH => 92,
            KeyCode::PAD_ASTERISK => 93,
            KeyCode::PAD_MINUS => 94,
            KeyCode::PAD_PLUS => 95,
            KeyCode::PAD_ENTER => 96,
            KeyCode::PAD_NUM_1 => 97,
            KeyCode::PAD_NUM_2 => 98,
            KeyCode::PAD_NUM_3 => 99,
            KeyCode::PAD_NUM_4 => 100,
            KeyCode::PAD_NUM_5 => 101,
            KeyCode::PAD_NUM_6 => 102,
            KeyCode::PAD_NUM_7 => 103,
            KeyCode::PAD_NUM_8 => 104,
            KeyCode::PAD_NUM_9 => 105,
            KeyCode::PAD_NUM_0 => 106,
            KeyCode::PAD_PERIOD => 107,
            KeyCode::NONUS_BACKSLASH => 108,
            KeyCode::APPLICATION => 109,
            KeyCode::POWER => 110,
            KeyCode::PAD_EQUAL => 111,
            KeyCode::F13 => 112,
            KeyCode::F14 => 113,
            KeyCode::F15 => 114,
            KeyCode::F16 => 115,
            KeyCode::F17 => 116,
            KeyCode::F18 => 117,
            KeyCode::F19 => 118,
            KeyCode::F20 => 119,
            KeyCode::F21 => 120,
            KeyCode::F22 => 121,
            KeyCode::F23 => 122,
            KeyCode::F24 => 123,
            KeyCode::EXECUTE => 124,
            KeyCode::HELP => 125,
            KeyCode::MENU => 126,
            KeyCode::SELECT => 127,
            KeyCode::STOP => 128,
            KeyCode::AGAIN => 129,
            KeyCode::UNDO => 130,
            KeyCode::CUT => 131,
            KeyCode::COPY => 132,
            KeyCode::PASTE => 133,
            KeyCode::FIND => 134,
            KeyCode::MUTE => 135,
            KeyCode::VOLUME_UP => 136,
            KeyCode::VOLUME_DOWN => 137,
            KeyCode::FN => 138,
            KeyCode::PROFILE1 => 139,
            KeyCode::PROFILE2 => 140,
            KeyCode::PROFILE3 => 141,
            KeyCode::PROFILE4 => 142,
        }
    }

    /// The number that stands for the code in a key binding.
    pub fn code(&self) -> (c: i16)
        ensures
            c == self.spec_code(),
    {
        match self {
            KeyCode::LCTRL => -8,
            KeyCode::LSHIFT => -7,
            KeyCode::LALT => -6,
            KeyCode::LGUI => -5,
            KeyCode::RCTRL => -4,
            KeyCode::RSHIFT => -3,
            KeyCode::RALT => -2,
            KeyCode::RGUI => -1,
            KeyCode::RESERVED => 0,
            KeyCode::ERROR_ROLL_OVER => 1,
            KeyCode::POST_FAIL => 2,
            KeyCode::ERROR_UNDEFINED => 3,
            KeyCode::A => 4,
            KeyCode::B => 5,
            KeyCode::C => 6,
            KeyCode::D => 7,
            KeyCode::E => 8,
            KeyCode::F => 9,
            KeyCode::G => 10,
            KeyCode::H => 11,
            KeyCode::I => 12,
            KeyCode::J => 13,
            KeyCode::K => 14,
            KeyCode::L => 15,
            KeyCode::M => 16,
            KeyCode::N => 17,
            KeyCode::O => 18,
            KeyCode::P => 19,
            KeyCode::Q => 20,
            KeyCode::R => 21,
            KeyCode::S => 22,
            KeyCode::T => 23,
            KeyCode::U => 24,
            KeyCode::V => 25,
            KeyCode::W => 26,
            KeyCode::X => 27,
            KeyCode::Y => 28,
            KeyCode::Z => 29,
            KeyCode::NUM_1 => 30,
            KeyCode::NUM_2 => 31,
            KeyCode::NUM_3 => 32,
            KeyCode::NUM_4 => 33,
            KeyCode::NUM_5 => 34,
            KeyCode::NUM_6 => 35,
            KeyCode::NUM_7 => 36,
            KeyCode::NUM_8 => 37,
            KeyCode::NUM_9 => 38,
            KeyCode::NUM_0 => 39,
            KeyCode::ENTER => 40,
            KeyCode::ESC => 41,
            KeyCode::BACKSPACE => 42,
            KeyCode::TAB => 43,
            KeyCode::SPACE => 44,
            KeyCode::MINUS => 45,
            KeyCode::EQUAL => 46,
            KeyCode::LEFT_U_BRACE => 47,
            KeyCode::RIGHT_U_BRACE => 48,
            KeyCode::BACKSLASH => 49,
            KeyCode::NONE_US => 50,
            KeyCode::SEMI_COLON => 51,
            KeyCode::QUOTE => 52,
            KeyCode::GRAVE_ACCENT => 53,
            KeyCode::COMMA => 54,
            KeyCode::PERIOD => 55,
            KeyCode::SLASH => 56,
            KeyCode::CAP_LOCK => 57,
            KeyCode::F1 => 58,
            KeyCode::F2 => 59,
            KeyCode::F3 => 60,
            KeyCode::F4 => 61,
            KeyCode::F5 => 62,
            KeyCode::F6 => 63,
            KeyCode::F7 => 64,
            KeyCode::F8 => 65,
            KeyCode::F9 => 66,
            KeyCode::F10 => 67,
            KeyCode::F11 => 68,
            KeyCode::F12 => 69,
            KeyCode::PRINT => 70,
            KeyCode::SCROLL_LOCK => 71,
            KeyCode::PAUSE => 72,
            KeyCode::INSERT => 73,
            KeyCode::HOME => 74,
            KeyCode::PAGE_UP => 75,
            KeyCode::DELETE => 76,
            KeyCode::END => 77,
            KeyCode::PAGE_DOWN => 78,
            KeyCode::RIGHT_ARROW => 79,
            KeyCode::LEFT_ARROW => 80,
            KeyCode::DOWN_ARROW => 81,
            KeyCode::UP_ARROW => 82,
            KeyCode::PAD_NUM_LOCK => 83,
            KeyCode::PAD_SLASH => 84,
            KeyCode::PAD_ASTERISK => 85,
            KeyCode::PAD_MINUS => 86,
            KeyCode::PAD_PLUS => 87,
            KeyCode::PAD_ENTER => 88,
            KeyCode::PAD_NUM_1 => 89,
            KeyCode::PAD_NUM_2 => 90,
            KeyCode::PAD_NUM_3 => 91,
            KeyCode::PAD_NUM_4 => 92,
            KeyCode::PAD_NUM_5 => 93,
            KeyCode::PAD_NUM_6 => 94,
            KeyCode::PAD_NUM_7 => 95,
            KeyCode::PAD_NUM_8 => 96,
            KeyCode::PAD_NUM_9 => 97,
            KeyCode::PAD_NUM_0 => 98,
            KeyCode::PAD_PERIOD => 99,
            KeyCode::NONUS_BACKSLASH => 100,
            KeyCode::APPLICATION => 101,
            KeyCode::POWER => 102,
            KeyCode::PAD_EQUAL => 103,
            KeyCode::F13 => 104,
            KeyCode::F14 => 105,
            KeyCode::F15 => 106,
            KeyCode::F16 => 107,
            KeyCode::F17 => 108,
            KeyCode::F18 => 109,
            KeyCode::F19 => 110,
            KeyCode::F20 => 111,
            KeyCode::F21 => 112,
            KeyCode::F22 => 113,
            KeyCode::F23 => 114,
            KeyCode::F24 => 115,
            KeyCode::EXECUTE => 116,
            KeyCode::HELP => 117,
            KeyCode::MENU => 118,
            KeyCode::SELECT => 119,
            KeyCode::STOP => 120,
            KeyCode::AGAIN => 121,
            KeyCode::UNDO => 122,
            KeyCode::CUT => 123,
            KeyCode::COPY => 124,
            KeyCode::PASTE => 125,
            KeyCode::FIND => 126,
            KeyCode::MUTE => 127,
            KeyCode::VOLUME_UP => 128,
            KeyCode::VOLUME_DOWN => 129,
            KeyCode::FN => 1000,
            KeyCode::PROFILE1 => 1001,
            KeyCode::PROFILE2 => 1002,
            KeyCode::PROFILE3 => 1003,
            KeyCode::PROFILE4 => 1004,
        }
    }

    /// The name shown for the code.
    pub fn name(&self) -> (s: &'static str)
        ensures
            s@ == self.spec_name(),
    {
        match self {
            KeyCode::LCTRL => "LCTRL",
            KeyCode::LSHIFT => "LSHIFT",
            KeyCode::LALT => "LALT",
            KeyCode::LGUI => "LGUI",
            KeyCode::RCTRL => "RCTRL",
            KeyCode::RSHIFT => "RSHIFT",
            KeyCode::RALT => "RALT",
            KeyCode::RGUI => "RGUI",
            KeyCode::RESERVED => "RESERVED",
            KeyCode::ERROR_ROLL_OVER => "ERROR_ROLL_OVER",
            KeyCode::POST_FAIL => "POST_FAIL",
            KeyCode::ERROR_UNDEFINED => "ERROR_UNDEFINED",
            KeyCode::A => "A",
            KeyCode::B => "B",
            KeyCode::C => "C",
            KeyCode::D => "D",
            KeyCode::E => "E",
            KeyCode::F => "F",
            KeyCode::G => "G",
            KeyCode::H => "H",
            KeyCode::I => "I",
            KeyCode::J => "J",
            KeyCode::K => "K",
            KeyCode::L => "L",
            KeyCode::M => "M",
            KeyCode::N => "N",
            KeyCode::O => "O",
            KeyCode::P => "P",
            KeyCode::Q => "Q",
            KeyCode::R => "R",
            KeyCode::S => "S",
            KeyCode::T => "T",
            KeyCode::U => "U",
            KeyCode::V => "V",
            KeyCode::W => "W",
            KeyCode::X => "X",
            KeyCode::Y => "Y",
            KeyCode::Z => "Z",
            KeyCode::NUM_1 => "1",
            KeyCode::NUM_2 => "2",
            KeyCode::NUM_3 => "3",
            KeyCode::NUM_4 => "4",
            KeyCode::NUM_5 => "5",
            KeyCode::NUM_6 => "6",
            KeyCode::NUM_7 => "7",
            KeyCode::NUM_8 => "8",
            KeyCode::NUM_9 => "9",
            KeyCode::NUM_0 => "0",
            KeyCode::ENTER => "ENTER",
            KeyCode::ESC => "ESC",
            KeyCode::BACKSPACE => "BACKSPACE",
            KeyCode::TAB => "TAB",
            KeyCode::SPACE => "SPACE",
            KeyCode::MINUS => "-_",
            KeyCode::EQUAL => "=+",
            KeyCode::LEFT_U_BRACE => "[{",
            KeyCode::RIGHT_U_BRACE => "]}",
            KeyCode::BACKSLASH => "\\|",
            KeyCode::NONE_US => "NONE_US",
            KeyCode::SEMI_COLON => ";:",
            KeyCode::QUOTE => "' \"",
            KeyCode::GRAVE_ACCENT => "`~",
            KeyCode::COMMA => ",<",
            KeyCode::PERIOD => ".>",
            KeyCode::SLASH => "/?",
            KeyCode::CAP_LOCK => "CAP_LOCK",
            KeyCode::F1 => "F1",
            KeyCode::F2 => "F2",
            KeyCode::F3 => "F3",
            KeyCode::F4 => "F4",
            KeyCode::F5 => "F5",
            KeyCode::F6 => "F6",
            KeyCode::F7 => "F7",
            KeyCode::F8 => "F8",
            KeyCode::F9 => "F9",
            KeyCode::F10 => "F10",
            KeyCode::F11 => "F11",
            KeyCode::F12 => "F12",
            KeyCode::PRINT => "PRINT",
            KeyCode::SCROLL_LOCK => "SCROLL_LOCK",
            KeyCode::PAUSE => "PAUSE",
            KeyCode::INSERT => "INSERT",
            KeyCode::HOME => "HOME",
            KeyCode::PAGE_UP => "PAGE_UP",
            KeyCode::DELETE => "DELETE",
            KeyCode::END => "END",
            KeyCode::PAGE_DOWN => "PAGE_DOWN",
            KeyCode::RIGHT_ARROW => "\u{27a1}",
            KeyCode::LEFT_ARROW => "\u{2b05}",
            KeyCode::DOWN_ARROW => "\u{2b07}",
            KeyCode::UP_ARROW => "\u{2b06}",
            KeyCode::PAD_NUM_LOCK => "PAD_NUM_LOCK",
            KeyCode::PAD_SLASH => "PAD_SLASH",
            KeyCode::PAD_ASTERISK => "PAD_ASTERISK",
            KeyCode::PAD_MINUS => "PAD_MINUS",
            KeyCode::PAD_PLUS => "PAD_PLUS",
            KeyCode::PAD_ENTER => "PAD_ENTER",
            KeyCode::PAD_NUM_1 => "PAD_NUM_1",
            KeyCode::PAD_NUM_2 => "PAD_NUM_2",
            KeyCode::PAD_NUM_3 => "PAD_NUM_3",
            KeyCode::PAD_NUM_4 => "PAD_NUM_4",
            KeyCode::PAD_NUM_5 => "PAD_NUM_5",
            KeyCode::PAD_NUM_6 => "PAD_NUM_6",
            KeyCode::PAD_NUM_7 => "PAD_NUM_7",
            KeyCode::PAD_NUM_8 => "PAD_NUM_8",
            KeyCode::PAD_NUM_9 => "PAD_NUM_9",
            KeyCode::PAD_NUM_0 => "PAD_NUM_0",
            KeyCode::PAD_PERIOD => "PAD_PERIOD",
            KeyCode::NONUS_BACKSLASH => "NONUS_BACKSLASH",
            KeyCode::APPLICATION => "APPLICATION",
            KeyCode::POWER => "POWER",
            KeyCode::PAD_EQUAL => "PAD_EQUAL",
            KeyCode::F13 => "F13",
            KeyCode::F14 => "F14",
            KeyCode::F15 => "F15",
            KeyCode::F16 => "F16",
            KeyCode::F17 => "F17",
            KeyCode::F18 => "F18",
            KeyCode::F19 => "F19",
            KeyCode::F20 => "F20",
            KeyCode::F21 => "F21",
            KeyCode::F22 => "F22",
            KeyCode::F23 => "F23",
            KeyCode::F24 => "F24",
            KeyCode::EXECUTE => "EXECUTE",
            KeyCode::HELP => "HELP",
            KeyCode::MENU => "MENU",
            KeyCode::SELECT => "SELECT",
            KeyCode::STOP => "STOP",
            KeyCode::AGAIN => "AGAIN",
            KeyCode::UNDO => "UNDO",
            KeyCode::CUT => "CUT",
            KeyCode::COPY => "COPY",
            KeyCode::PASTE => "PASTE",
            KeyCode::FIND => "FIND",
            KeyCode::MUTE => "MUTE",
            KeyCode::VOLUME_UP => "VOLUME_UP",
            KeyCode::VOLUME_DOWN => "VOLUME_DOWN",
            KeyCode::FN => "FN",
            KeyCode::PROFILE1 => "PROFILE1",
            KeyCode::PROFILE2 => "PROFILE2",
            KeyCode::PROFILE3 => "PROFILE3",
            KeyCode::PROFILE4 => "PROFILE4",
        }
    }

    /// The code at place `i` of the list of all codes, if there is one.
    pub fn from_index(i: usize) -> (r: Option<KeyCode>)
        ensures
            r == KeyCode::spec_from_index(i as int),
            r is Some <==> i < KEYCODE_COUNT,
            r matches Some(k) ==> k.spec_index() == i,
    {
        match i {
            0 => Some(KeyCode::LCTRL),
            1 => Some(KeyCode::LSHIFT),
            2 => Some(KeyCode::LALT),
            3 => Some(KeyCode::LGUI),
            4 => Some(KeyCode::RCTRL),
            5 => Some(KeyCode::RSHIFT),
            6 => Some(KeyCode::RALT),
            7 => Some(KeyCode::RGUI),
            8 => Some(KeyCode::RESERVED),
            9 => Some(KeyCode::ERROR_ROLL_OVER),
            10 => Some(KeyCode::POST_FAIL),
            11 => Some(KeyCode::ERROR_UNDEFINED),
            12 => Some(KeyCode::A),
            13 => Some(KeyCode::B),
            14 => Some(KeyCode::C),
            15 => Some(KeyCode::D),
            16 => Some(KeyCode::E),
            17 => Some(KeyCode::F),
            18 => Some(KeyCode::G),
            19 => Some(KeyCode::H),
            20 => Some(KeyCode::I),
            21 => Some(KeyCode::J),
            22 => Some(KeyCode::K),
            23 => Some(KeyCode::L),
            24 => Some(KeyCode::M),
            25 => Some(KeyCode::N),
            26 => Some(KeyCode::O),
            27 => Some(KeyCode::P),
            28 => Some(KeyCode::Q),
            29 => Some(KeyCode::R),
            30 => Some(KeyCode::S),
            31 => Some(KeyCode::T),
            32 => Some(KeyCode::U),
            33 => Some(KeyCode::V),
            34 => Some(KeyCode::W),
            35 => Some(KeyCode::X),
            36 => Some(KeyCode::Y),
            37 => Some(KeyCode::Z),
            38 => Some(KeyCode::NUM_1),
            39 => Some(KeyCode::NUM_2),
            40 => Some(KeyCode::NUM_3),
            41 => Some(KeyCode::NUM_4),
            42 => Some(KeyCode::NUM_5),
            43 => Some(KeyCode::NUM_6),
            44 => Some(KeyCode::NUM_7),
            45 => Some(KeyCode::NUM_8),
            46 => Some(KeyCode::NUM_9),
            47 => Some(KeyCode::NUM_0),
            48 => Some(KeyCode::ENTER),
            49 => Some(KeyCode::ESC),
            50 => Some(KeyCode::BACKSPACE),
            51 => Some(KeyCode::TAB),
            52 => Some(KeyCode::SPACE),
            53 => Some(KeyCode::MINUS),
            54 => Some(KeyCode::EQUAL),
            55 => Some(KeyCode::LEFT_U_BRACE),
            56 => Some(KeyCode::RIGHT_U_BRACE),
            57 => Some(KeyCode::BACKSLASH),
            58 => Some(KeyCode::NONE_US),
            59 => Some(KeyCode::SEMI_COLON),
            60 => Some(KeyCode::QUOTE),
            61 => Some(KeyCode::GRAVE_ACCENT),
            62 => Some(KeyCode::COMMA),
            63 => Some(KeyCode::PERIOD),
            64 => Some(KeyCode::SLASH),
            65 => Some(KeyCode::CAP_LOCK),
            66 => Some(KeyCode::F1),
            67 => Some(KeyCode::F2),
            68 => Some(KeyCode::F3),
            69 => Some(KeyCode::F4),
            70 => Some(KeyCode::F5),
            71 => Some(KeyCode::F6),
            72 => Some(KeyCode::F7),
            73 => Some(KeyCode::F8),
            74 => Some(KeyCode::F9),
            75 => Some(KeyCode::F10),
            76 => Some(KeyCode::F11),
            77 => Some(KeyCode::F12),
            78 => Some(KeyCode::PRINT),
            79 => Some(KeyCode::SCROLL_LOCK),
            80 => Some(KeyCode::PAUSE),
            81 => Some(KeyCode::INSERT),
            82 => Some(KeyCode::HOME),
            83 => Some(KeyCode::PAGE_UP),
            84 => Some(KeyCode::DELETE),
            85 => Some(KeyCode::END),
            86 => Some(KeyCode::PAGE_DOWN),
            87 => Some(KeyCode::RIGHT_ARROW),
            88 => Some(KeyCode::LEFT_ARROW),
            89 => Some(KeyCode::DOWN_ARROW),
            90 => Some(KeyCode::UP_ARROW),
            91 => Some(KeyCode::PAD_NUM_LOCK),
            92 => Some(KeyCode::PAD_SLASH),
            93 => Some(KeyCode::PAD_ASTERISK),
            94 => Some(KeyCode::PAD_MINUS),
            95 => Some(KeyCode::PAD_PLUS),
            96 => Some(KeyCode::PAD_ENTER),
            97 => Some(KeyCode::PAD_NUM_1),
            98 => Some(KeyCode::PAD_NUM_2),
            99 => Some(KeyCode::PAD_NUM_3),
            100 => Some(KeyCode::PAD_NUM_4),
            101 => Some(KeyCode::PAD_NUM_5),
            102 => Some(KeyCode::PAD_NUM_6),
            103 => Some(KeyCode::PAD_NUM_7),
            104 => Some(KeyCode::PAD_NUM_8),
            105 => Some(KeyCode::PAD_NUM_9),
            106 => Some(KeyCode::PAD_NUM_0),
            107 => Some(KeyCode::PAD_PERIOD),
            108 => Some(KeyCode::NONUS_BACKSLASH),
            109 => Some(KeyCode::APPLICATION),
            110 => Some(KeyCode::POWER),
            111 => Some(KeyCode::PAD_EQUAL),
            112 => Some(KeyCode::F13),
            113 => Some(KeyCode::F14),
            114 => Some(KeyCode::F15),
            115 => Some(KeyCode::F16),
            116 => Some(KeyCode::F17),
            117 => Some(KeyCode::F18),
            118 => Some(KeyCode::F19),
            119 => Some(KeyCode::F20),
            120 => Some(KeyCode::F21),
            121 => Some(KeyCode::F22),
            122 => Some(KeyCode::F23),
            123 => Some(KeyCode::F24),
            124 => Some(KeyCode::EXECUTE),
            125 => Some(KeyCode::HELP),
            126 => Some(KeyCode::MENU),
            127 => Some(KeyCode::SELECT),
            128 => Some(KeyCode::STOP),
            129 => Some(KeyCode::AGAIN),
            130 => Some(KeyCode::UNDO),
            131 => Some(KeyCode::CUT),
            132 => Some(KeyCode::COPY),
            133 => Some(KeyCode::PASTE),
            134 => Some(KeyCode::FIND),
            135 => Some(KeyCode::MUTE),
            136 => Some(KeyCode::VOLUME_UP),
            137 => Some(KeyCode::VOLUME_DOWN),
            138 => Some(KeyCode::FN),
            139 => Some(KeyCode::PROFILE1),
            140 => Some(KeyCode::PROFILE2),
            141 => Some(KeyCode::PROFILE3),
            142 => Some(KeyCode::PROFILE4),
            _ => None,
        }
    }

    /// The code that a number in a key binding stands for, if any.
    pub fn try_from_code(c: i16) -> (r: Option<KeyCode>)
        ensures
            r is Some <==> is_key_code(c),
            r matches Some(k) ==> k.spec_code() == c,
            forall|k: KeyCode| #[trigger] k.spec_code() == c ==> r == Some(k),
    {
        proof {
            assert forall|k: KeyCode| #[trigger] k.spec_code() == c implies is_key_code(c) by {
                lemma_index_code(k);
            }
        }
        let r = match c {
            -8 => Some(KeyCode::LCTRL),
            -7 => Some(KeyCode::LSHIFT),
            -6 => Some(KeyCode::LALT),
            -5 => Some(KeyCode::LGUI),
            -4 => Some(KeyCode::RCTRL),
            -3 => Some(KeyCode::RSHIFT),
            -2 => Some(KeyCode::RALT),
            -1 => Some(KeyCode::RGUI),
            0 => Some(KeyCode::RESERVED),
            1 => Some(KeyCode::ERROR_ROLL_OVER),
            2 => Some(KeyCode::POST_FAIL),
            3 => Some(KeyCode::ERROR_UNDEFINED),
            4 => Some(KeyCode::A),
            5 => Some(KeyCode::B),
            6 => Some(KeyCode::C),
            7 => Some(KeyCode::D),
            8 => Some(KeyCode::E),
            9 => Some(KeyCode::F),
            10 => Some(KeyCode::G),
            11 => Some(KeyCode::H),
            12 => Some(KeyCode::I),
            13 => Some(KeyCode::J),
            14 => Some(KeyCode::K),
            15 => Some(KeyCode::L),
            16 => Some(KeyCode::M),
            17 => Some(KeyCode::N),
            18 => Some(KeyCode::O),
            19 => Some(KeyCode::P),
            20 => Some(KeyCode::Q),
            21 => Some(KeyCode::R),
            22 => Some(KeyCode::S),
            23 => Some(KeyCode::T),
            24 => Some(KeyCode::U),
            25 => Some(KeyCode::V),
            26 => Some(KeyCode::W),
            27 => Some(KeyCode::X),
            28 => Some(KeyCode::Y),
            29 => Some(KeyCode::Z),
            30 => Some(KeyCode::NUM_1),
            31 => Some(KeyCode::NUM_2),
            32 => Some(KeyCode::NUM_3),
            33 => Some(KeyCode::NUM_4),
            34 => Some(KeyCode::NUM_5),
            35 => Some(KeyCode::NUM_6),
            36 => Some(KeyCode::NUM_7),
            37 => Some(KeyCode::NUM_8),
            38 => Some(KeyCode::NUM_9),
            39 => Some(KeyCode::NUM_0),
            40 => Some(KeyCode::ENTER),
            41 => Some(KeyCode::ESC),
            42 => Some(KeyCode::BACKSPACE),
            43 => Some(KeyCode::TAB),
            44 => Some(KeyCode::SPACE),
            45 => Some(KeyCode::MINUS),
            46 => Some(KeyCode::EQUAL),
            47 => Some(KeyCode::LEFT_U_BRACE),
            48 => Some(KeyCode::RIGHT_U_BRACE),
            49 => Some(KeyCode::BACKSLASH),
            50 => Some(KeyCode::NONE_US),
            51 => Some(KeyCode::SEMI_COLON),
            52 => Some(KeyCode::QUOTE),
            53 => Some(KeyCode::GRAVE_ACCENT),
            54 => Some(KeyCode::COMMA),
            55 => Some(KeyCode::PERIOD),
            56 => Some(KeyCode::SLASH),
            57 => Some(KeyCode::CAP_LOCK),
            58 => Some(KeyCode::F1),
            59 => Some(KeyCode::F2),
            60 => Some(KeyCode::F3),
            61 => Some(KeyCode::F4),
            62 => Some(KeyCode::F5),
            63 => Some(KeyCode::F6),
            64 => Some(KeyCode::F7),
            65 => Some(KeyCode::F8),
            66 => Some(KeyCode::F9),
            67 => Some(KeyCode::F10),
            68 => Some(KeyCode::F11),
            69 => Some(KeyCode::F12),
            70 => Some(KeyCode::PRINT),
            71 => Some(KeyCode::SCROLL_LOCK),
            72 => Some(KeyCode::PAUSE),
            73 => Some(KeyCode::INSERT),
            74 => Some(KeyCode::HOME),
            75 => Some(KeyCode::PAGE_UP),
            76 => Some(KeyCode::DELETE),
            77 => Some(KeyCode::END),
            78 => Some(KeyCode::PAGE_DOWN),
            79 => Some(KeyCode::RIGHT_ARROW),
            80 => Some(KeyCode::LEFT_ARROW),
            81 => Some(KeyCode::DOWN_ARROW),
            82 => Some(KeyCode::UP_ARROW),
            83 => Some(KeyCode::PAD_NUM_LOCK),
            84 => Some(KeyCode::PAD_SLASH),
            85 => Some(KeyCode::PAD_ASTERISK),
            86 => Some(KeyCode::PAD_MINUS),
            87 => Some(KeyCode::PAD_PLUS),
            88 => Some(KeyCode::PAD_ENTER),
            89 => Some(KeyCode::PAD_NUM_1),
            90 => Some(KeyCode::PAD_NUM_2),
            91 => Some(KeyCode::PAD_NUM_3),
            92 => Some(KeyCode::PAD_NUM_4),
            93 => Some(KeyCode::PAD_NUM_5),
            94 => Some(KeyCode::PAD_NUM_6),
            95 => Some(KeyCode::PAD_NUM_7),
            96 => Some(KeyCode::PAD_NUM_8),
            97 => Some(KeyCode::PAD_NUM_9),
            98 => Some(KeyCode::PAD_NUM_0),
            99 => Some(KeyCode::PAD_PERIOD),
            100 => Some(KeyCode::NONUS_BACKSLASH),
            101 => Some(KeyCode::APPLICATION),
            102 => Some(KeyCode::POWER),
            103 => Some(KeyCode::PAD_EQUAL),
            104 => Some(KeyCode::F13),
            105 => Some(KeyCode::F14),
            106 => Some(KeyCode::F15),
            107 => Some(KeyCode::F16),
            108 => Some(KeyCode::F17),
            109 => Some(KeyCode::F18),
            110 => Some(KeyCode::F19),
            111 => Some(KeyCode::F20),
            112 => Some(KeyCode::F21),
            113 => Some(KeyCode::F22),
            114 => Some(KeyCode::F23),
            115 => Some(KeyCode::F24),
            116 => Some(KeyCode::EXECUTE),
            117 => Some(KeyCode::HELP),
            118 => Some(KeyCode::MENU),
            119 => Some(KeyCode::SELECT),
            120 => Some(KeyCode::STOP),
            121 => Some(KeyCode::AGAIN),
            122 => Some(KeyCode::UNDO),
            123 => Some(KeyCode::CUT),
            124 => Some(KeyCode::COPY),
            125 => Some(KeyCode::PASTE),
            126 => Some(KeyCode::FIND),
            127 => Some(KeyCode::MUTE),
            128 => Some(KeyCode::VOLUME_UP),
            129 => Some(KeyCode::VOLUME_DOWN),
            1000 => Some(KeyCode::FN),
            1001 => Some(KeyCode::PROFILE1),
            1002 => Some(KeyCode::PROFILE2),
            1003 => Some(KeyCode::PROFILE3),
            1004 => Some(KeyCode::PROFILE4),
            _ => None,
        };
        proof {
            if let Some(k0) = r {
                assert forall|k: KeyCode| #[trigger] k.spec_code() == c implies r == Some(k) by {
                    lemma_code_injective(k0, k);
                }
            }
        }
        r
    }
}

/// `c` is the number of some key code.
pub open spec fn is_key_code(c: i16) -> bool {
    -8 <= c <= 129 || 1000 <= c <= 1004
}

/// Where a code stands in the list of all codes fixes the code, and its
/// number: the first 138 codes count up from -8, the rest from 1000.
pub proof fn lemma_index_code(k: KeyCode)
    ensures
        0 <= k.spec_index() < KEYCODE_COUNT,
        KeyCode::spec_from_index(k.spec_index()) == Some(k),
        k.spec_code() == (if k.spec_index() < 138 {
            k.spec_index() - 8
        } else {
            k.spec_index() - 138 + 1000
        }),
        is_key_code(k.spec_code()),
{
}

/// Two key codes with the same number are the same code.
pub proof fn lemma_code_injective(a: KeyCode, b: KeyCode)
    requires
        a.spec_code() == b.spec_code(),
    ensures
        a == b,
{
    lemma_index_code(a);
    lemma_index_code(b);
}

/// The name shown for the key code numbered `c`, by number: the HID usage
/// names, with the digit, punctuation and arrow keys shown as the symbols on
/// their caps; the empty name for a number that is no key code.
pub open spec fn display_name_of_code(c: i16) -> Seq<char> {
    if c == -8 {
        "LCTRL"@
    } else if c == -7 {
        "LSHIFT"@
    } else if c == -6 {
        "LALT"@
    } else if c == -5 {
        "LGUI"@
    } else if c == -4 {
        "RCTRL"@
    } else if c == -3 {
        "RSHIFT"@
    } else if c == -2 {
        "RALT"@
    } else if c == -1 {
        "RGUI"@
    } else if c == 0 {
        "RESERVED"@
    } else if c == 1 {
        "ERROR_ROLL_OVER"@
    } else if c == 2 {
        "POST_FAIL"@
    } else if c == 3 {
        "ERROR_UNDEFINED"@
    } else if c == 4 {
        "A"@
    } else if c == 5 {
        "B"@
    } else if c == 6 {
        "C"@
    } else if c == 7 {
        "D"@
    } else if c == 8 {
        "E"@
    } else if c == 9 {
        "F"@
    } else if c == 10 {
        "G"@
    } else if c == 11 {
        "H"@
    } else if c == 12 {
        "I"@
    } else if c == 13 {
        "J"@
    } else if c == 14 {
        "K"@
    } else if c == 15 {
        "L"@
    } else if c == 16 {
        "M"@
    } else if c == 17 {
        "N"@
    } else if c == 18 {
        "O"@
    } else if c == 19 {
        "P"@
    } else if c == 20 {
        "Q"@
    } else if c == 21 {
        "R"@
    } else if c == 22 {
        "S"@
    } else if c == 23 {
        "T"@
    } else if c == 24 {
        "U"@
    } else if c == 25 {
        "V"@
    } else if c == 26 {
        "W"@
    } else if c == 27 {
        "X"@
    } else if c == 28 {
        "Y"@
    } else if c == 29 {
        "Z"@
    } else if c == 30 {
        "1"@
    } else if c == 31 {
        "2"@
    } else if c == 32 {
        "3"@
    } else if c == 33 {
        "4"@
    } else if c == 34 {
        "5"@
    } else if c == 35 {
        "6"@
    } else if c == 36 {
        "7"@
    } else if c == 37 {
        "8"@
    } else if c == 38 {
        "9"@
    } else if c == 39 {
        "0"@
    } else if c == 40 {
        "ENTER"@
    } else if c == 41 {
        "ESC"@
    } else if c == 42 {
        "BACKSPACE"@
    } else if c == 43 {
        "TAB"@
    } else if c == 44 {
        "SPACE"@
    } else if c == 45 {
        "-_"@
    } else if c == 46 {
        "=+"@
    } else if c == 47 {
        "[{"@
    } else if c == 48 {
        "]}"@
    } else if c == 49 {
        "\\|"@
    } else if c == 50 {
        "NONE_US"@
    } else if c == 51 {
        ";:"@
    } else if c == 52 {
        "' \""@
    } else if c == 53 {
        "`~"@
    } else if c == 54 {
        ",<"@
    } else if c == 55 {
        ".>"@
    } else if c == 56 {
        "/?"@
    } else if c == 57 {
        "CAP_LOCK"@
    } else if c == 58 {
        "F1"@
    } else if c == 59 {
        "F2"@
    } else if c == 60 {
        "F3"@
    } else if c == 61 {
        "F4"@
    } else if c == 62 {
        "F5"@
    } else if c == 63 {
        "F6"@
    } else if c == 64 {
        "F7"@
    } else if c == 65 {
        "F8"@
    } else if c == 66 {
        "F9"@
    } else if c == 67 {
        "F10"@
    } else if c == 68 {
        "F11"@
    } else if c == 69 {
        "F12"@
    } else if c == 70 {
        "PRINT"@
    } else if c == 71 {
        "SCROLL_LOCK"@
    } else if c == 72 {
        "PAUSE"@
    } else if c == 73 {
        "INSERT"@
    } else if c == 74 {
        "HOME"@
    } else if c == 75 {
        "PAGE_UP"@
    } else if c == 76 {
        "DELETE"@
    } else if c == 77 {
        "END"@
    } else if c == 78 {
        "PAGE_DOWN"@
    } else if c == 79 {
        "\u{27a1}"@
    } else if c == 80 {
        "\u{2b05}"@
    } else if c == 81 {
        "\u{2b07}"@
    } else if c == 82 {
        "\u{2b06}"@
    } else if c == 83 {
        "PAD_NUM_LOCK"@
    } else if c == 84 {
        "PAD_SLASH"@
    } else if c == 85 {
        "PAD_ASTERISK"@
    } else if c == 86 {
        "PAD_MINUS"@
    } else if c == 87 {
        "PAD_PLUS"@
    } else if c == 88 {
        "PAD_ENTER"@
    } else if c == 89 {
        "PAD_NUM_1"@
    } else if c == 90 {
        "PAD_NUM_2"@
    } else if c == 91 {
        "PAD_NUM_3"@
    } else if c == 92 {
        "PAD_NUM_4"@
    } else if c == 93 {
        "PAD_NUM_5"@
    } else if c == 94 {
        "PAD_NUM_6"@
    } else if c == 95 {
        "PAD_NUM_7"@
    } else if c == 96 {
        "PAD_NUM_8"@
    } else if c == 97 {
        "PAD_NUM_9"@
    } else if c == 98 {
        "PAD_NUM_0"@
    } else if c == 99 {
        "PAD_PERIOD"@
    } else if c == 100 {
        "NONUS_BACKSLASH"@
    } else if c == 101 {
        "APPLICATION"@
    } else if c == 102 {
        "POWER"@
    } else if c == 103 {
        "PAD_EQUAL"@
    } else if c == 104 {
        "F13"@
    } else if c == 105 {
        "F14"@
    } else if c == 106 {
        "F15"@
    } else if c == 107 {
        "F16"@
    } else if c == 108 {
        "F17"@
    } else if c == 109 {
        "F18"@
    } else if c == 110 {
        "F19"@
    } else if c == 111 {
        "F20"@
    } else if c == 112 {
        "F21"@
    } else if c == 113 {
        "F22"@
    } else if c == 114 {
        "F23"@
    } else if c == 115 {
        "F24"@
    } else if c == 116 {
        "EXECUTE"@
    } else if c == 117 {
        "HELP"@
    } else if c == 118 {
        "MENU"@
    } else if c == 119 {
        "SELECT"@
    } else if c == 120 {
        "STOP"@
    } else if c == 121 {
        "AGAIN"@
    } else if c == 122 {
        "UNDO"@
    } else if c == 123 {
        "CUT"@
    } else if c == 124 {
        "COPY"@
    } else if c == 125 {
        "PASTE"@
    } else if c == 126 {
        "FIND"@
    } else if c == 127 {
        "MUTE"@
    } else if c == 128 {
        "VOLUME_UP"@
    } else if c == 129 {
        "VOLUME_DOWN"@
    } else if c == 1000 {
        "FN"@
    } else if c == 1001 {
        "PROFILE1"@
    } else if c == 1002 {
        "PROFILE2"@
    } else if c == 1003 {
        "PROFILE3"@
    } else if c == 1004 {
        "PROFILE4"@
    } else {
        Seq::empty()
    }
}

/// Every key code shows the name that its number stands for: code 80, the
/// left arrow, shows "\u{2b05}"; code 81, the down arrow, "\u{2b07}"; code 4
/// shows "A", code 30 "1", and so on through the whole table.
pub proof fn lemma_names_by_number(k: KeyCode)
    ensures
        k.spec_name() == display_name_of_code(k.spec_code()),
        k.spec_name().len() > 0,
{
    reveal_strlit("LCTRL");
    reveal_strlit("LSHIFT");
    reveal_strlit("LALT");
    reveal_strlit("LGUI");
    reveal_strlit("RCTRL");
    reveal_strlit("RSHIFT");
    reveal_strlit("RALT");
    reveal_strlit("RGUI");
    reveal_strlit("RESERVED");
    reveal_strlit("ERROR_ROLL_OVER");
    reveal_strlit("POST_FAIL");
    reveal_strlit("ERROR_UNDEFINED");
    reveal_strlit("A");
    reveal_strlit("B");
    reveal_strlit("C");
    reveal_strlit("D");
    reveal_strlit("E");
    reveal_strlit("F");
    reveal_strlit("G");
    reveal_strlit("H");
    reveal_strlit("I");
    reveal_strlit("J");
    reveal_strlit("K");
    reveal_strlit("L");
    reveal_strlit("M");
    reveal_strlit("N");
    reveal_strlit("O");
    reveal_strlit("P");
    reveal_strlit("Q");
    reveal_strlit("R");
    reveal_strlit("S");
    reveal_strlit("T");
    reveal_strlit("U");
    reveal_strlit("V");
    reveal_strlit("W");
    reveal_strlit("X");
    reveal_strlit("Y");
    reveal_strlit("Z");
    reveal_strlit("1");
    reveal_strlit("2");
    reveal_strlit("3");
    reveal_strlit("4");
    reveal_strlit("5");
    reveal_strlit("6");
    reveal_strlit("7");
    reveal_strlit("8");
    reveal_strlit("9");
    reveal_strlit("0");
    reveal_strlit("ENTER");
    reveal_strlit("ESC");
    reveal_strlit("BACKSPACE");
    reveal_strlit("TAB");
    reveal_strlit("SPACE");
    reveal_strlit("-_");
    reveal_strlit("=+");
    reveal_strlit("[{");
    reveal_strlit("]}");
    reveal_strlit("\\|");
    reveal_strlit("NONE_US");
    reveal_strlit(";:");
    reveal_strlit("' \"");
    reveal_strlit("`~");
    reveal_strlit(",<");
    reveal_strlit(".>");
    reveal_strlit("/?");
    reveal_strlit("CAP_LOCK");
    reveal_strlit("F1");
    reveal_strlit("F2");
    reveal_strlit("F3");
    reveal_strlit("F4");
    reveal_strlit("F5");
    reveal_strlit("F6");
    reveal_strlit("F7");
    reveal_strlit("F8");
    reveal_strlit("F9");
    reveal_strlit("F10");
    reveal_strlit("F11");
    reveal_strlit("F12");
    reveal_strlit("PRINT");
    reveal_strlit("SCROLL_LOCK");
    reveal_strlit("PAUSE");
    reveal_strlit("INSERT");
    reveal_strlit("HOME");
    reveal_strlit("PAGE_UP");
    reveal_strlit("DELETE");
    reveal_strlit("END");
    reveal_strlit("PAGE_DOWN");
    reveal_strlit("\u{27a1}");
    reveal_strlit("\u{2b05}");
    reveal_strlit("\u{2b07}");
    reveal_strlit("\u{2b06}");
    reveal_strlit("PAD_NUM_LOCK");
    reveal_strlit("PAD_SLASH");
    reveal_strlit("PAD_ASTERISK");
    reveal_strlit("PAD_MINUS");
    reveal_strlit("PAD_PLUS");
    reveal_strlit("PAD_ENTER");
    reveal_strlit("PAD_NUM_1");
    reveal_strlit("PAD_NUM_2");
    reveal_strlit("PAD_NUM_3");
    reveal_strlit("PAD_NUM_4");
    reveal_strlit("PAD_NUM_5");
    reveal_strlit("PAD_NUM_6");
    reveal_strlit("PAD_NUM_7");
    reveal_strlit("PAD_NUM_8");
    reveal_strlit("PAD_NUM_9");
    reveal_strlit("PAD_NUM_0");
    reveal_strlit("PAD_PERIOD");
    reveal_strlit("NONUS_BACKSLASH");
    reveal_strlit("APPLICATION");
    reveal_strlit("POWER");
    reveal_strlit("PAD_EQUAL");
    reveal_strlit("F13");
    reveal_strlit("F14");
    reveal_strlit("F15");
    reveal_strlit("F16");
    reveal_strlit("F17");
    reveal_strlit("F18");
    reveal_strlit("F19");
    reveal_strlit("F20");
    reveal_strlit("F21");
    reveal_strlit("F22");
    reveal_strlit("F23");
    reveal_strlit("F24");
    reveal_strlit("EXECUTE");
    reveal_strlit("HELP");
    reveal_strlit("MENU");
    reveal_strlit("SELECT");
    reveal_strlit("STOP");
    reveal_strlit("AGAIN");
    reveal_strlit("UNDO");
    reveal_strlit("CUT");
    reveal_strlit("COPY");
    reveal_strlit("PASTE");
    reveal_strlit("FIND");
    reveal_strlit("MUTE");
    reveal_strlit("VOLUME_UP");
    reveal_strlit("VOLUME_DOWN");
    reveal_strlit("FN");
    reveal_strlit("PROFILE1");
    reveal_strlit("PROFILE2");
    reveal_strlit("PROFILE3");
    reveal_strlit("PROFILE4");
}

/// The list of codes has a code at each place from 0 to 142 and nowhere else,
/// and the code at a place stands at that place.
pub proof fn lemma_from_index_place(i: int)
    ensures
        KeyCode::spec_from_index(i) is Some <==> 0 <= i < KEYCODE_COUNT,
        KeyCode::spec_from_index(i) matches Some(k) ==> k.spec_index() == i,
{
}

} // verus!
