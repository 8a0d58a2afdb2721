//! Mapping of OpenHarmony NDK key codes (`OH_NativeXComponent_KeyCode`) to
//! logical keys, physical key codes and key locations.
use vstd::prelude::*;

use crate::keyboard::{Key, KeyCode, KeyLocation, NativeKeyCode};

verus! {

// NDK key code values (`OH_NativeXComponent_KeyCode_KEY_*`).
pub const KEY_UNKNOWN: i32 = -1;
pub const KEY_HOME: i32 = 1;
pub const KEY_BACK: i32 = 2;
pub const KEY_MEDIA_PLAY_PAUSE: i32 = 10;
pub const KEY_MEDIA_STOP: i32 = 11;
pub const KEY_MEDIA_NEXT: i32 = 12;
pub const KEY_MEDIA_PREVIOUS: i32 = 13;
pub const KEY_MEDIA_REWIND: i32 = 14;
pub const KEY_MEDIA_FAST_FORWARD: i32 = 15;
pub const KEY_VOLUME_UP: i32 = 16;
pub const KEY_VOLUME_DOWN: i32 = 17;
pub const KEY_POWER: i32 = 18;
pub const KEY_CAMERA: i32 = 19;
pub const KEY_VOLUME_MUTE: i32 = 22;
pub const KEY_MUTE: i32 = 23;
pub const KEY_BRIGHTNESS_UP: i32 = 40;
pub const KEY_BRIGHTNESS_DOWN: i32 = 41;
pub const KEY_0: i32 = 2000;
pub const KEY_1: i32 = 2001;
pub const KEY_2: i32 = 2002;
pub const KEY_3: i32 = 2003;
pub const KEY_4: i32 = 2004;
pub const KEY_5: i32 = 2005;
pub const KEY_6: i32 = 2006;
pub const KEY_7: i32 = 2007;
pub const KEY_8: i32 = 2008;
pub const KEY_9: i32 = 2009;
pub const KEY_STAR: i32 = 2010;
pub const KEY_POUND: i32 = 2011;
pub const KEY_DPAD_UP: i32 = 2012;
pub const KEY_DPAD_DOWN: i32 = 2013;
pub const KEY_DPAD_LEFT: i32 = 2014;
pub const KEY_DPAD_RIGHT: i32 = 2015;
pub const KEY_DPAD_CENTER: i32 = 2016;
pub const KEY_A: i32 = 2017;
pub const KEY_B: i32 = 2018;
pub const KEY_C: i32 = 2019;
pub const KEY_D: i32 = 2020;
pub const KEY_E: i32 = 2021;
pub const KEY_F: i32 = 2022;
pub const KEY_G: i32 = 2023;
pub const KEY_H: i32 = 2024;
pub const KEY_I: i32 = 2025;
pub const KEY_J: i32 = 2026;
pub const KEY_K: i32 = 2027;
pub const KEY_L: i32 = 2028;
pub const KEY_M: i32 = 2029;
pub const KEY_N: i32 = 2030;
pub const KEY_O: i32 = 2031;
pub const KEY_P: i32 = 2032;
pub const KEY_Q: i32 = 2033;
pub const KEY_R: i32 = 2034;
pub const KEY_S: i32 = 2035;
pub const KEY_T: i32 = 2036;
pub const KEY_U: i32 = 2037;
pub const KEY_V: i32 = 2038;
pub const KEY_W: i32 = 2039;
pub const KEY_X: i32 = 2040;
pub const KEY_Y: i32 = 2041;
pub const KEY_Z: i32 = 2042;
pub const KEY_COMMA: i32 = 2043;
pub const KEY_PERIOD: i32 = 2044;
pub const KEY_ALT_LEFT: i32 = 2045;
pub const KEY_ALT_RIGHT: i32 = 2046;
pub const KEY_SHIFT_LEFT: i32 = 2047;
pub const KEY_SHIFT_RIGHT: i32 = 2048;
pub const KEY_TAB: i32 = 2049;
pub const KEY_SPACE: i32 = 2050;
pub const KEY_SYM: i32 = 2051;
pub const KEY_EXPLORER: i32 = 2052;
pub const KEY_ENVELOPE: i32 = 2053;
pub const KEY_ENTER: i32 = 2054;
pub const KEY_DEL: i32 = 2055;
pub const KEY_GRAVE: i32 = 2056;
pub const KEY_MINUS: i32 = 2057;
pub const KEY_EQUALS: i32 = 2058;
pub const KEY_LEFT_BRACKET: i32 = 2059;
pub const KEY_RIGHT_BRACKET: i32 = 2060;
pub const KEY_BACKSLASH: i32 = 2061;
pub const KEY_SEMICOLON: i32 = 2062;
pub const KEY_APOSTROPHE: i32 = 2063;
pub const KEY_SLASH: i32 = 2064;
pub const KEY_AT: i32 = 2065;
pub const KEY_PLUS: i32 = 2066;
pub const KEY_MENU: i32 = 2067;
pub const KEY_PAGE_UP: i32 = 2068;
pub const KEY_PAGE_DOWN: i32 = 2069;
pub const KEY_ESCAPE: i32 = 2070;
pub const KEY_FORWARD_DEL: i32 = 2071;
pub const KEY_CTRL_LEFT: i32 = 2072;
pub const KEY_CTRL_RIGHT: i32 = 2073;
pub const KEY_CAPS_LOCK: i32 = 2074;
pub const KEY_SCROLL_LOCK: i32 = 2075;
pub const KEY_META_LEFT: i32 = 2076;
pub const KEY_META_RIGHT: i32 = 2077;
pub const KEY_FUNCTION: i32 = 2078;
pub const KEY_SYSRQ: i32 = 2079;
pub const KEY_BREAK: i32 = 2080;
pub const KEY_MOVE_HOME: i32 = 2081;
pub const KEY_MOVE_END: i32 = 2082;
pub const KEY_INSERT: i32 = 2083;
pub const KEY_FORWARD: i32 = 2084;
pub const KEY_MEDIA_PLAY: i32 = 2085;
pub const KEY_MEDIA_PAUSE: i32 = 2086;
pub const KEY_MEDIA_CLOSE: i32 = 2087;
pub const KEY_MEDIA_EJECT: i32 = 2088;
pub const KEY_MEDIA_RECORD: i32 = 2089;
pub const KEY_F1: i32 = 2090;
pub const KEY_F2: i32 = 2091;
pub const KEY_F3: i32 = 2092;
pub const KEY_F4: i32 = 2093;
pub const KEY_F5: i32 = 2094;
pub const KEY_F6: i32 = 2095;
pub const KEY_F7: i32 = 2096;
pub const KEY_F8: i32 = 2097;
pub const KEY_F9: i32 = 2098;
pub const KEY_F10: i32 = 2099;
pub const KEY_F11: i32 = 2100;
pub const KEY_F12: i32 = 2101;
pub const KEY_NUM_LOCK: i32 = 2102;
pub const KEY_NUMPAD_0: i32 = 2103;
pub const KEY_NUMPAD_1: i32 = 2104;
pub const KEY_NUMPAD_2: i32 = 2105;
pub const KEY_NUMPAD_3: i32 = 2106;
pub const KEY_NUMPAD_4: i32 = 2107;
pub const KEY_NUMPAD_5: i32 = 2108;
pub const KEY_NUMPAD_6: i32 = 2109;
pub const KEY_NUMPAD_7: i32 = 2110;
pub const KEY_NUMPAD_8: i32 = 2111;
pub const KEY_NUMPAD_9: i32 = 2112;
pub const KEY_NUMPAD_DIVIDE: i32 = 2113;
pub const KEY_NUMPAD_MULTIPLY: i32 = 2114;
pub const KEY_NUMPAD_SUBTRACT: i32 = 2115;
pub const KEY_NUMPAD_ADD: i32 = 2116;
pub const KEY_NUMPAD_DOT: i32 = 2117;
pub const KEY_NUMPAD_COMMA: i32 = 2118;
pub const KEY_NUMPAD_ENTER: i32 = 2119;
pub const KEY_NUMPAD_EQUALS: i32 = 2120;
pub const KEY_NUMPAD_LEFT_PAREN: i32 = 2121;
pub const KEY_NUMPAD_RIGHT_PAREN: i32 = 2122;
pub const KEY_SLEEP: i32 = 2600;
pub const KEY_ZENKAKU_HANKAKU: i32 = 2601;
pub const KEY_102ND: i32 = 2602;
pub const KEY_RO: i32 = 2603;
pub const KEY_HENKAN: i32 = 2606;
pub const KEY_KATAKANA_HIRAGANA: i32 = 2607;
pub const KEY_MUHENKAN: i32 = 2608;
pub const KEY_YEN: i32 = 2615;
pub const KEY_AGAIN: i32 = 2617;
pub const KEY_PROPS: i32 = 2618;
pub const KEY_UNDO: i32 = 2619;
pub const KEY_COPY: i32 = 2620;
pub const KEY_OPEN: i32 = 2621;
pub const KEY_PASTE: i32 = 2622;
pub const KEY_FIND: i32 = 2623;
pub const KEY_CUT: i32 = 2624;
pub const KEY_HELP: i32 = 2625;
pub const KEY_CALC: i32 = 2626;
pub const KEY_BOOKMARKS: i32 = 2628;
pub const KEY_REFRESH: i32 = 2635;
pub const KEY_INFO: i32 = 2664;
pub const KEY_TV: i32 = 2672;
pub const KEY_CALENDAR: i32 = 2685;
pub const KEY_CHANNELUP: i32 = 2690;
pub const KEY_CHANNELDOWN: i32 = 2691;
pub const KEY_ZOOMIN: i32 = 2698;
pub const KEY_ZOOMOUT: i32 = 2699;
pub const KEY_WAKEUP: i32 = 2802;

/// The character `n` places after `base`.
pub open spec fn offset_char(base: char, n: int) -> char {
    ((base as int) + n) as char
}

/// The function key `F(n + 1)`, for `0 <= n < 12`.
pub open spec fn function_key(n: int) -> Key {
    if n == 0 {
        Key::F1
    } else if n == 1 {
        Key::F2
    } else if n == 2 {
        Key::F3
    } else if n == 3 {
        Key::F4
    } else if n == 4 {
        Key::F5
    } else if n == 5 {
        Key::F6
    } else if n == 6 {
        Key::F7
    } else if n == 7 {
        Key::F8
    } else if n == 8 {
        Key::F9
    } else if n == 9 {
        Key::F10
    } else if n == 10 {
        Key::F11
    } else {
        Key::F12
    }
}

/// The logical key of an NDK key code. Digits, letters and numpad digits
/// stand for their base (unshifted) character; codes without a logical
/// meaning are `Unidentified` and keep the raw code.
pub open spec fn logical_key_of(code: i32) -> Key {
    if KEY_0 <= code <= KEY_9 {
        Key::Character(offset_char('0', code - KEY_0))
    } else if KEY_A <= code <= KEY_Z {
        Key::Character(offset_char('a', code - KEY_A))
    } else if KEY_NUMPAD_0 <= code <= KEY_NUMPAD_9 {
        Key::Character(offset_char('0', code - KEY_NUMPAD_0))
    } else if KEY_F1 <= code <= KEY_F12 {
        function_key(code - KEY_F1)
    } else {
        match code {
        KEY_HOME => Key::BrowserHome,
        KEY_BACK => Key::BrowserBack,
        KEY_STAR => Key::Character('*'),
        KEY_POUND => Key::Character('#'),
        KEY_COMMA => Key::Character(','),
        KEY_PERIOD => Key::Character('.'),
        KEY_GRAVE => Key::Character('`'),
        KEY_MINUS => Key::Character('-'),
        KEY_EQUALS => Key::Character('='),
        KEY_LEFT_BRACKET => Key::Character('['),
        KEY_RIGHT_BRACKET => Key::Character(']'),
        KEY_BACKSLASH => Key::Character('\\'),
        KEY_SEMICOLON => Key::Character(';'),
        KEY_APOSTROPHE => Key::Character('\''),
        KEY_SLASH => Key::Character('/'),
        KEY_AT => Key::Character('@'),
        KEY_PLUS => Key::Character('+'),
        KEY_DPAD_UP => Key::ArrowUp,
        KEY_DPAD_DOWN => Key::ArrowDown,
        KEY_DPAD_LEFT => Key::ArrowLeft,
        KEY_DPAD_RIGHT => Key::ArrowRight,
        KEY_DPAD_CENTER => Key::Enter,
        KEY_VOLUME_UP => Key::AudioVolumeUp,
        KEY_VOLUME_DOWN => Key::AudioVolumeDown,
        KEY_POWER => Key::Power,
        KEY_CAMERA => Key::Camera,
        KEY_ALT_LEFT => Key::Alt,
        KEY_ALT_RIGHT => Key::Alt,
        KEY_SHIFT_LEFT => Key::Shift,
        KEY_SHIFT_RIGHT => Key::Shift,
        KEY_TAB => Key::Tab,
        KEY_SPACE => Key::Space,
        KEY_SYM => Key::Symbol,
        KEY_EXPLORER => Key::LaunchWebBrowser,
        KEY_ENVELOPE => Key::LaunchMail,
        KEY_ENTER => Key::Enter,
        KEY_DEL => Key::Backspace,
        KEY_MEDIA_PLAY_PAUSE => Key::MediaPlayPause,
        KEY_MEDIA_STOP => Key::MediaStop,
        KEY_MEDIA_NEXT => Key::MediaTrackNext,
        KEY_MEDIA_PREVIOUS => Key::MediaTrackPrevious,
        KEY_MEDIA_REWIND => Key::MediaRewind,
        KEY_MEDIA_FAST_FORWARD => Key::MediaFastForward,
        KEY_MUTE => Key::MicrophoneVolumeMute,
        KEY_PAGE_UP => Key::PageUp,
        KEY_PAGE_DOWN => Key::PageDown,
        KEY_ESCAPE => Key::Escape,
        KEY_FORWARD_DEL => Key::Delete,
        KEY_CTRL_LEFT => Key::Control,
        KEY_CTRL_RIGHT => Key::Control,
        KEY_CAPS_LOCK => Key::CapsLock,
        KEY_SCROLL_LOCK => Key::ScrollLock,
        KEY_META_LEFT => Key::Super,
        KEY_META_RIGHT => Key::Super,
        KEY_FUNCTION => Key::Fn,
        KEY_SYSRQ => Key::PrintScreen,
        KEY_BREAK => Key::Pause,
        KEY_MOVE_HOME => Key::Home,
        KEY_MOVE_END => Key::End,
        KEY_INSERT => Key::Insert,
        KEY_FORWARD => Key::BrowserForward,
        KEY_MEDIA_PLAY => Key::MediaPlay,
        KEY_MEDIA_PAUSE => Key::MediaPause,
        KEY_MEDIA_CLOSE => Key::MediaClose,
        KEY_MEDIA_EJECT => Key::Eject,
        KEY_MEDIA_RECORD => Key::MediaRecord,
        KEY_NUM_LOCK => Key::NumLock,
        KEY_NUMPAD_DIVIDE => Key::Character('/'),
        KEY_NUMPAD_MULTIPLY => Key::Character('*'),
        KEY_NUMPAD_SUBTRACT => Key::Character('-'),
        KEY_NUMPAD_ADD => Key::Character('+'),
        KEY_NUMPAD_DOT => Key::Character('.'),
        KEY_NUMPAD_COMMA => Key::Character(','),
        KEY_NUMPAD_ENTER => Key::Enter,
        KEY_NUMPAD_EQUALS => Key::Character('='),
        KEY_NUMPAD_LEFT_PAREN => Key::Character('('),
        KEY_NUMPAD_RIGHT_PAREN => Key::Character(')'),
        KEY_VOLUME_MUTE => Key::AudioVolumeMute,
        KEY_INFO => Key::Info,
        KEY_CHANNELUP => Key::ChannelUp,
        KEY_CHANNELDOWN => Key::ChannelDown,
        KEY_ZOOMIN => Key::ZoomIn,
        KEY_ZOOMOUT => Key::ZoomOut,
        KEY_TV => Key::TV,
        KEY_CALENDAR => Key::LaunchCalendar,
        KEY_ZENKAKU_HANKAKU => Key::ZenkakuHankaku,
        KEY_MUHENKAN => Key::NonConvert,
        KEY_HENKAN => Key::Convert,
        KEY_KATAKANA_HIRAGANA => Key::HiraganaKatakana,
        KEY_BRIGHTNESS_DOWN => Key::BrightnessDown,
        KEY_BRIGHTNESS_UP => Key::BrightnessUp,
        KEY_SLEEP => Key::Standby,
        KEY_WAKEUP => Key::WakeUp,
        KEY_HELP => Key::Help,
        KEY_CUT => Key::Cut,
        KEY_COPY => Key::Copy,
        KEY_PASTE => Key::Paste,
        KEY_REFRESH => Key::BrowserRefresh,
            _ => Key::Unidentified(NativeKeyCode::Ohos(code)),
        }
    }
}

/// The physical key code of an NDK key code; codes without a physical
/// counterpart are `Unidentified` and keep the raw code.
pub open spec fn physical_key_of(code: i32) -> KeyCode {
    match code {
        KEY_0 => KeyCode::Digit0,
        KEY_1 => KeyCode::Digit1,
        KEY_2 => KeyCode::Digit2,
        KEY_3 => KeyCode::Digit3,
        KEY_4 => KeyCode::Digit4,
        KEY_5 => KeyCode::Digit5,
        KEY_6 => KeyCode::Digit6,
        KEY_7 => KeyCode::Digit7,
        KEY_8 => KeyCode::Digit8,
        KEY_9 => KeyCode::Digit9,
        KEY_A => KeyCode::KeyA,
        KEY_B => KeyCode::KeyB,
        KEY_C => KeyCode::KeyC,
        KEY_D => KeyCode::KeyD,
        KEY_E => KeyCode::KeyE,
        KEY_F => KeyCode::KeyF,
        KEY_G => KeyCode::KeyG,
        KEY_H => KeyCode::KeyH,
        KEY_I => KeyCode::KeyI,
        KEY_J => KeyCode::KeyJ,
        KEY_K => KeyCode::KeyK,
        KEY_L => KeyCode::KeyL,
        KEY_M => KeyCode::KeyM,
        KEY_N => KeyCode::KeyN,
        KEY_O => KeyCode::KeyO,
        KEY_P => KeyCode::KeyP,
        KEY_Q => KeyCode::KeyQ,
        KEY_R => KeyCode::KeyR,
        KEY_S => KeyCode::KeyS,
        KEY_T => KeyCode::KeyT,
        KEY_U => KeyCode::KeyU,
        KEY_V => KeyCode::KeyV,
        KEY_W => KeyCode::KeyW,
        KEY_X => KeyCode::KeyX,
        KEY_Y => KeyCode::KeyY,
        KEY_Z => KeyCode::KeyZ,
        KEY_COMMA => KeyCode::Comma,
        KEY_PERIOD => KeyCode::Period,
        KEY_GRAVE => KeyCode::Backquote,
        KEY_MINUS => KeyCode::Minus,
        KEY_EQUALS => KeyCode::Equal,
        KEY_LEFT_BRACKET => KeyCode::BracketLeft,
        KEY_RIGHT_BRACKET => KeyCode::BracketRight,
        KEY_BACKSLASH => KeyCode::Backslash,
        KEY_SEMICOLON => KeyCode::Semicolon,
        KEY_APOSTROPHE => KeyCode::Quote,
        KEY_SLASH => KeyCode::Slash,
        KEY_SPACE => KeyCode::Space,
        KEY_ENTER => KeyCode::Enter,
        KEY_DEL => KeyCode::Backspace,
        KEY_TAB => KeyCode::Tab,
        KEY_ESCAPE => KeyCode::Escape,
        KEY_FORWARD_DEL => KeyCode::Delete,
        KEY_INSERT => KeyCode::Insert,
        KEY_MOVE_HOME => KeyCode::Home,
        KEY_MOVE_END => KeyCode::End,
        KEY_PAGE_UP => KeyCode::PageUp,
        KEY_PAGE_DOWN => KeyCode::PageDown,
        KEY_CAPS_LOCK => KeyCode::CapsLock,
        KEY_SCROLL_LOCK => KeyCode::ScrollLock,
        KEY_NUM_LOCK => KeyCode::NumLock,
        KEY_DPAD_UP => KeyCode::ArrowUp,
        KEY_DPAD_DOWN => KeyCode::ArrowDown,
        KEY_DPAD_LEFT => KeyCode::ArrowLeft,
        KEY_DPAD_RIGHT => KeyCode::ArrowRight,
        KEY_VOLUME_UP => KeyCode::AudioVolumeUp,
        KEY_VOLUME_DOWN => KeyCode::AudioVolumeDown,
        KEY_VOLUME_MUTE => KeyCode::AudioVolumeMute,
        KEY_MEDIA_PLAY_PAUSE => KeyCode::MediaPlayPause,
        KEY_HOME => KeyCode::BrowserHome,
        KEY_BACK => KeyCode::BrowserBack,
        KEY_SYSRQ => KeyCode::PrintScreen,
        KEY_BREAK => KeyCode::Pause,
        KEY_FUNCTION => KeyCode::Fn,
        KEY_POWER => KeyCode::Power,
        KEY_SLEEP => KeyCode::Sleep,
        KEY_WAKEUP => KeyCode::WakeUp,
        KEY_FORWARD => KeyCode::BrowserForward,
        KEY_REFRESH => KeyCode::BrowserRefresh,
        KEY_BOOKMARKS => KeyCode::BrowserFavorites,
        KEY_MENU => KeyCode::ContextMenu,
        KEY_CUT => KeyCode::Cut,
        KEY_COPY => KeyCode::Copy,
        KEY_PASTE => KeyCode::Paste,
        KEY_UNDO => KeyCode::Undo,
        KEY_ENVELOPE => KeyCode::LaunchMail,
        KEY_CALC => KeyCode::LaunchApp2,
        KEY_MEDIA_STOP => KeyCode::MediaStop,
        KEY_MEDIA_NEXT => KeyCode::MediaTrackNext,
        KEY_MEDIA_PREVIOUS => KeyCode::MediaTrackPrevious,
        KEY_MEDIA_EJECT => KeyCode::Eject,
        KEY_HELP => KeyCode::Help,
        KEY_STAR => KeyCode::NumpadStar,
        KEY_POUND => KeyCode::NumpadHash,
        KEY_NUMPAD_LEFT_PAREN => KeyCode::NumpadParenLeft,
        KEY_NUMPAD_RIGHT_PAREN => KeyCode::NumpadParenRight,
        KEY_YEN => KeyCode::IntlYen,
        KEY_RO => KeyCode::IntlRo,
        KEY_102ND => KeyCode::IntlBackslash,
        KEY_MUHENKAN => KeyCode::NonConvert,
        KEY_HENKAN => KeyCode::Convert,
        KEY_KATAKANA_HIRAGANA => KeyCode::KanaMode,
        KEY_ZENKAKU_HANKAKU => KeyCode::Lang5,
        KEY_OPEN => KeyCode::Open,
        KEY_FIND => KeyCode::Find,
        KEY_AGAIN => KeyCode::Again,
        KEY_PROPS => KeyCode::Props,
        KEY_F1 => KeyCode::F1,
        KEY_F2 => KeyCode::F2,
        KEY_F3 => KeyCode::F3,
        KEY_F4 => KeyCode::F4,
        KEY_F5 => KeyCode::F5,
        KEY_F6 => KeyCode::F6,
        KEY_F7 => KeyCode::F7,
        KEY_F8 => KeyCode::F8,
        KEY_F9 => KeyCode::F9,
        KEY_F10 => KeyCode::F10,
        KEY_F11 => KeyCode::F11,
        KEY_F12 => KeyCode::F12,
        KEY_ALT_LEFT => KeyCode::AltLeft,
        KEY_ALT_RIGHT => KeyCode::AltRight,
        KEY_SHIFT_LEFT => KeyCode::ShiftLeft,
        KEY_SHIFT_RIGHT => KeyCode::ShiftRight,
        KEY_CTRL_LEFT => KeyCode::ControlLeft,
        KEY_CTRL_RIGHT => KeyCode::ControlRight,
        KEY_META_LEFT => KeyCode::SuperLeft,
        KEY_META_RIGHT => KeyCode::SuperRight,
        KEY_NUMPAD_0 => KeyCode::Numpad0,
        KEY_NUMPAD_1 => KeyCode::Numpad1,
        KEY_NUMPAD_2 => KeyCode::Numpad2,
        KEY_NUMPAD_3 => KeyCode::Numpad3,
        KEY_NUMPAD_4 => KeyCode::Numpad4,
        KEY_NUMPAD_5 => KeyCode::Numpad5,
        KEY_NUMPAD_6 => KeyCode::Numpad6,
        KEY_NUMPAD_7 => KeyCode::Numpad7,
        KEY_NUMPAD_8 => KeyCode::Numpad8,
        KEY_NUMPAD_9 => KeyCode::Numpad9,
        KEY_NUMPAD_DIVIDE => KeyCode::NumpadDivide,
        KEY_NUMPAD_MULTIPLY => KeyCode::NumpadMultiply,
        KEY_NUMPAD_SUBTRACT => KeyCode::NumpadSubtract,
        KEY_NUMPAD_ADD => KeyCode::NumpadAdd,
        KEY_NUMPAD_DOT => KeyCode::NumpadDecimal,
        KEY_NUMPAD_COMMA => KeyCode::NumpadComma,
        KEY_NUMPAD_ENTER => KeyCode::NumpadEnter,
        KEY_NUMPAD_EQUALS => KeyCode::NumpadEqual,
        _ => KeyCode::Unidentified(NativeKeyCode::Ohos(code)),
    }
}

/// The NDK key code a physical key code stands for (`KEY_UNKNOWN` for an
/// unidentified key).
pub open spec fn ndk_code_of_physical(key: KeyCode) -> i32 {
    match key {
        KeyCode::Digit0 => KEY_0,
        KeyCode::Digit1 => KEY_1,
        KeyCode::Digit2 => KEY_2,
        KeyCode::Digit3 => KEY_3,
        KeyCode::Digit4 => KEY_4,
        KeyCode::Digit5 => KEY_5,
        KeyCode::Digit6 => KEY_6,
        KeyCode::Digit7 => KEY_7,
        KeyCode::Digit8 => KEY_8,
        KeyCode::Digit9 => KEY_9,
        KeyCode::KeyA => KEY_A,
        KeyCode::KeyB => KEY_B,
        KeyCode::KeyC => KEY_C,
        KeyCode::KeyD => KEY_D,
        KeyCode::KeyE => KEY_E,
        KeyCode::KeyF => KEY_F,
        KeyCode::KeyG => KEY_G,
        KeyCode::KeyH => KEY_H,
        KeyCode::KeyI => KEY_I,
        KeyCode::KeyJ => KEY_J,
        KeyCode::KeyK => KEY_K,
        KeyCode::KeyL => KEY_L,
        KeyCode::KeyM => KEY_M,
        KeyCode::KeyN => KEY_N,
        KeyCode::KeyO => KEY_O,
        KeyCode::KeyP => KEY_P,
        KeyCode::KeyQ => KEY_Q,
        KeyCode::KeyR => KEY_R,
        KeyCode::KeyS => KEY_S,
        KeyCode::KeyT => KEY_T,
        KeyCode::KeyU => KEY_U,
        KeyCode::KeyV => KEY_V,
        KeyCode::KeyW => KEY_W,
        KeyCode::KeyX => KEY_X,
        KeyCode::KeyY => KEY_Y,
        KeyCode::KeyZ => KEY_Z,
        KeyCode::Comma => KEY_COMMA,
        KeyCode::Period => KEY_PERIOD,
        KeyCode::Backquote => KEY_GRAVE,
        KeyCode::Minus => KEY_MINUS,
        KeyCode::Equal => KEY_EQUALS,
        KeyCode::BracketLeft => KEY_LEFT_BRACKET,
        KeyCode::BracketRight => KEY_RIGHT_BRACKET,
        KeyCode::Backslash => KEY_BACKSLASH,
        KeyCode::Semicolon => KEY_SEMICOLON,
        KeyCode::Quote => KEY_APOSTROPHE,
        KeyCode::Slash => KEY_SLASH,
        KeyCode::Space => KEY_SPACE,
        KeyCode::Enter => KEY_ENTER,
        KeyCode::Backspace => KEY_DEL,
        KeyCode::Tab => KEY_TAB,
        KeyCode::Escape => KEY_ESCAPE,
        KeyCode::Delete => KEY_FORWARD_DEL,
        KeyCode::Insert => KEY_INSERT,
        KeyCode::Home => KEY_MOVE_HOME,
        KeyCode::End => KEY_MOVE_END,
        KeyCode::PageUp => KEY_PAGE_UP,
        KeyCode::PageDown => KEY_PAGE_DOWN,
        KeyCode::CapsLock => KEY_CAPS_LOCK,
        KeyCode::ScrollLock => KEY_SCROLL_LOCK,
        KeyCode::NumLock => KEY_NUM_LOCK,
        KeyCode::ArrowUp => KEY_DPAD_UP,
        KeyCode::ArrowDown => KEY_DPAD_DOWN,
        KeyCode::ArrowLeft => KEY_DPAD_LEFT,
        KeyCode::ArrowRight => KEY_DPAD_RIGHT,
        KeyCode::AudioVolumeUp => KEY_VOLUME_UP,
        KeyCode::AudioVolumeDown => KEY_VOLUME_DOWN,
        KeyCode::AudioVolumeMute => KEY_VOLUME_MUTE,
        KeyCode::MediaPlayPause => KEY_MEDIA_PLAY_PAUSE,
        KeyCode::BrowserHome => KEY_HOME,
        KeyCode::BrowserBack => KEY_BACK,
        KeyCode::PrintScreen => KEY_SYSRQ,
        KeyCode::Pause => KEY_BREAK,
        KeyCode::Fn => KEY_FUNCTION,
        KeyCode::Power => KEY_POWER,
        KeyCode::Sleep => KEY_SLEEP,
        KeyCode::WakeUp => KEY_WAKEUP,
        KeyCode::BrowserForward => KEY_FORWARD,
        KeyCode::BrowserRefresh => KEY_REFRESH,
        KeyCode::BrowserFavorites => KEY_BOOKMARKS,
        KeyCode::ContextMenu => KEY_MENU,
        KeyCode::Cut => KEY_CUT,
        KeyCode::Copy => KEY_COPY,
        KeyCode::Paste => KEY_PASTE,
        KeyCode::Undo => KEY_UNDO,
        KeyCode::LaunchMail => KEY_ENVELOPE,
        KeyCode::LaunchApp2 => KEY_CALC,
        KeyCode::MediaStop => KEY_MEDIA_STOP,
        KeyCode::MediaTrackNext => KEY_MEDIA_NEXT,
        KeyCode::MediaTrackPrevious => KEY_MEDIA_PREVIOUS,
        KeyCode::Eject => KEY_MEDIA_EJECT,
        KeyCode::Help => KEY_HELP,
        KeyCode::NumpadStar => KEY_STAR,
        KeyCode::NumpadHash => KEY_POUND,
        KeyCode::NumpadParenLeft => KEY_NUMPAD_LEFT_PAREN,
        KeyCode::NumpadParenRight => KEY_NUMPAD_RIGHT_PAREN,
        KeyCode::IntlYen => KEY_YEN,
        KeyCode::IntlRo => KEY_RO,
        KeyCode::IntlBackslash => KEY_102ND,
        KeyCode::NonConvert => KEY_MUHENKAN,
        KeyCode::Convert => KEY_HENKAN,
        KeyCode::KanaMode => KEY_KATAKANA_HIRAGANA,
        KeyCode::Lang5 => KEY_ZENKAKU_HANKAKU,
        KeyCode::Open => KEY_OPEN,
        KeyCode::Find => KEY_FIND,
        KeyCode::Again => KEY_AGAIN,
        KeyCode::Props => KEY_PROPS,
        KeyCode::F1 => KEY_F1,
        KeyCode::F2 => KEY_F2,
        KeyCode::F3 => KEY_F3,
        KeyCode::F4 => KEY_F4,
        KeyCode::F5 => KEY_F5,
        KeyCode::F6 => KEY_F6,
        KeyCode::F7 => KEY_F7,
        KeyCode::F8 => KEY_F8,
        KeyCode::F9 => KEY_F9,
        KeyCode::F10 => KEY_F10,
        KeyCode::F11 => KEY_F11,
        KeyCode::F12 => KEY_F12,
        KeyCode::AltLeft => KEY_ALT_LEFT,
        KeyCode::AltRight => KEY_ALT_RIGHT,
        KeyCode::ShiftLeft => KEY_SHIFT_LEFT,
        KeyCode::ShiftRight => KEY_SHIFT_RIGHT,
        KeyCode::ControlLeft => KEY_CTRL_LEFT,
        KeyCode::ControlRight => KEY_CTRL_RIGHT,
        KeyCode::SuperLeft => KEY_META_LEFT,
        KeyCode::SuperRight => KEY_META_RIGHT,
        KeyCode::Numpad0 => KEY_NUMPAD_0,
        KeyCode::Numpad1 => KEY_NUMPAD_1,
        KeyCode::Numpad2 => KEY_NUMPAD_2,
        KeyCode::Numpad3 => KEY_NUMPAD_3,
        KeyCode::Numpad4 => KEY_NUMPAD_4,
        KeyCode::Numpad5 => KEY_NUMPAD_5,
        KeyCode::Numpad6 => KEY_NUMPAD_6,
        KeyCode::Numpad7 => KEY_NUMPAD_7,
        KeyCode::Numpad8 => KEY_NUMPAD_8,
        KeyCode::Numpad9 => KEY_NUMPAD_9,
        KeyCode::NumpadDivide => KEY_NUMPAD_DIVIDE,
        KeyCode::NumpadMultiply => KEY_NUMPAD_MULTIPLY,
        KeyCode::NumpadSubtract => KEY_NUMPAD_SUBTRACT,
        KeyCode::NumpadAdd => KEY_NUMPAD_ADD,
        KeyCode::NumpadDecimal => KEY_NUMPAD_DOT,
        KeyCode::NumpadComma => KEY_NUMPAD_COMMA,
        KeyCode::NumpadEnter => KEY_NUMPAD_ENTER,
        KeyCode::NumpadEqual => KEY_NUMPAD_EQUALS,
        KeyCode::Unidentified(_) => KEY_UNKNOWN,
    }
}

pub open spec fn is_left_modifier(code: i32) -> bool {
    code == KEY_ALT_LEFT || code == KEY_SHIFT_LEFT || code == KEY_CTRL_LEFT || code == KEY_META_LEFT
}

pub open spec fn is_right_modifier(code: i32) -> bool {
    code == KEY_ALT_RIGHT || code == KEY_SHIFT_RIGHT || code == KEY_CTRL_RIGHT || code
        == KEY_META_RIGHT
}

/// NumLock and every numpad key (`NUMPAD_0` through `NUMPAD_RIGHT_PAREN`).
pub open spec fn is_numpad_key(code: i32) -> bool {
    code == KEY_NUM_LOCK || KEY_NUMPAD_0 <= code <= KEY_NUMPAD_RIGHT_PAREN
}

pub open spec fn location_of(code: i32) -> KeyLocation {
    if is_left_modifier(code) {
        KeyLocation::Left
    } else if is_right_modifier(code) {
        KeyLocation::Right
    } else if is_numpad_key(code) {
        KeyLocation::Numpad
    } else {
        KeyLocation::Standard
    }
}

/// Maps an NDK key code to its logical key.
///
/// Letters, digits and punctuation map to their base character (the NDK key
/// event carries no produced character, so the code is the only source);
/// numpad keys map to the character they produce with NumLock on.
pub fn to_logical(keycode: i32) -> (key: Key)
    ensures
        key == logical_key_of(keycode),
{
    match keycode {
        KEY_HOME => Key::BrowserHome,
        KEY_BACK => Key::BrowserBack,
        KEY_0 => Key::Character('0'),
        KEY_1 => Key::Character('1'),
        KEY_2 => Key::Character('2'),
        KEY_3 => Key::Character('3'),
        KEY_4 => Key::Character('4'),
        KEY_5 => Key::Character('5'),
        KEY_6 => Key::Character('6'),
        KEY_7 => Key::Character('7'),
        KEY_8 => Key::Character('8'),
        KEY_9 => Key::Character('9'),
        KEY_STAR => Key::Character('*'),
        KEY_POUND => Key::Character('#'),
        KEY_A => Key::Character('a'),
        KEY_B => Key::Character('b'),
        KEY_C => Key::Character('c'),
        KEY_D => Key::Character('d'),
        KEY_E => Key::Character('e'),
        KEY_F => Key::Character('f'),
        KEY_G => Key::Character('g'),
        KEY_H => Key::Character('h'),
        KEY_I => Key::Character('i'),
        KEY_J => Key::Character('j'),
        KEY_K => Key::Character('k'),
        KEY_L => Key::Character('l'),
        KEY_M => Key::Character('m'),
        KEY_N => Key::Character('n'),
        KEY_O => Key::Character('o'),
        KEY_P => Key::Character('p'),
        KEY_Q => Key::Character('q'),
        KEY_R => Key::Character('r'),
        KEY_S => Key::Character('s'),
        KEY_T => Key::Character('t'),
        KEY_U => Key::Character('u'),
        KEY_V => Key::Character('v'),
        KEY_W => Key::Character('w'),
        KEY_X => Key::Character('x'),
        KEY_Y => Key::Character('y'),
        KEY_Z => Key::Character('z'),
        KEY_COMMA => Key::Character(','),
        KEY_PERIOD => Key::Character('.'),
        KEY_GRAVE => Key::Character('`'),
        KEY_MINUS => Key::Character('-'),
        KEY_EQUALS => Key::Character('='),
        KEY_LEFT_BRACKET => Key::Character('['),
        KEY_RIGHT_BRACKET => Key::Character(']'),
        KEY_BACKSLASH => Key::Character('\\'),
        KEY_SEMICOLON => Key::Character(';'),
        KEY_APOSTROPHE => Key::Character('\''),
        KEY_SLASH => Key::Character('/'),
        KEY_AT => Key::Character('@'),
        KEY_PLUS => Key::Character('+'),
        KEY_DPAD_UP => Key::ArrowUp,
        KEY_DPAD_DOWN => Key::ArrowDown,
        KEY_DPAD_LEFT => Key::ArrowLeft,
        KEY_DPAD_RIGHT => Key::ArrowRight,
        KEY_DPAD_CENTER => Key::Enter,
        KEY_VOLUME_UP => Key::AudioVolumeUp,
        KEY_VOLUME_DOWN => Key::AudioVolumeDown,
        KEY_POWER => Key::Power,
        KEY_CAMERA => Key::Camera,
        KEY_ALT_LEFT => Key::Alt,
        KEY_ALT_RIGHT => Key::Alt,
        KEY_SHIFT_LEFT => Key::Shift,
        KEY_SHIFT_RIGHT => Key::Shift,
        KEY_TAB => Key::Tab,
        KEY_SPACE => Key::Space,
        KEY_SYM => Key::Symbol,
        KEY_EXPLORER => Key::LaunchWebBrowser,
        KEY_ENVELOPE => Key::LaunchMail,
        KEY_ENTER => Key::Enter,
        KEY_DEL => Key::Backspace,
        KEY_MEDIA_PLAY_PAUSE => Key::MediaPlayPause,
        KEY_MEDIA_STOP => Key::MediaStop,
        KEY_MEDIA_NEXT => Key::MediaTrackNext,
        KEY_MEDIA_PREVIOUS => Key::MediaTrackPrevious,
        KEY_MEDIA_REWIND => Key::MediaRewind,
        KEY_MEDIA_FAST_FORWARD => Key::MediaFastForward,
        KEY_MUTE => Key::MicrophoneVolumeMute,
        KEY_PAGE_UP => Key::PageUp,
        KEY_PAGE_DOWN => Key::PageDown,
        KEY_ESCAPE => Key::Escape,
        KEY_FORWARD_DEL => Key::Delete,
        KEY_CTRL_LEFT => Key::Control,
        KEY_CTRL_RIGHT => Key::Control,
        KEY_CAPS_LOCK => Key::CapsLock,
        KEY_SCROLL_LOCK => Key::ScrollLock,
        KEY_META_LEFT => Key::Super,
        KEY_META_RIGHT => Key::Super,
        KEY_FUNCTION => Key::Fn,
        KEY_SYSRQ => Key::PrintScreen,
        KEY_BREAK => Key::Pause,
        KEY_MOVE_HOME => Key::Home,
        KEY_MOVE_END => Key::End,
        KEY_INSERT => Key::Insert,
        KEY_FORWARD => Key::BrowserForward,
        KEY_MEDIA_PLAY => Key::MediaPlay,
        KEY_MEDIA_PAUSE => Key::MediaPause,
        KEY_MEDIA_CLOSE => Key::MediaClose,
        KEY_MEDIA_EJECT => Key::Eject,
        KEY_MEDIA_RECORD => Key::MediaRecord,
        KEY_F1 => Key::F1,
        KEY_F2 => Key::F2,
        KEY_F3 => Key::F3,
        KEY_F4 => Key::F4,
        KEY_F5 => Key::F5,
        KEY_F6 => Key::F6,
        KEY_F7 => Key::F7,
        KEY_F8 => Key::F8,
        KEY_F9 => Key::F9,
        KEY_F10 => Key::F10,
        KEY_F11 => Key::F11,
        KEY_F12 => Key::F12,
        KEY_NUM_LOCK => Key::NumLock,
        KEY_NUMPAD_0 => Key::Character('0'),
        KEY_NUMPAD_1 => Key::Character('1'),
        KEY_NUMPAD_2 => Key::Character('2'),
        KEY_NUMPAD_3 => Key::Character('3'),
        KEY_NUMPAD_4 => Key::Character('4'),
        KEY_NUMPAD_5 => Key::Character('5'),
        KEY_NUMPAD_6 => Key::Character('6'),
        KEY_NUMPAD_7 => Key::Character('7'),
        KEY_NUMPAD_8 => Key::Character('8'),
        KEY_NUMPAD_9 => Key::Character('9'),
        KEY_NUMPAD_DIVIDE => Key::Character('/'),
        KEY_NUMPAD_MULTIPLY => Key::Character('*'),
        KEY_NUMPAD_SUBTRACT => Key::Character('-'),
        KEY_NUMPAD_ADD => Key::Character('+'),
        KEY_NUMPAD_DOT => Key::Character('.'),
        KEY_NUMPAD_COMMA => Key::Character(','),
        KEY_NUMPAD_ENTER => Key::Enter,
        KEY_NUMPAD_EQUALS => Key::Character('='),
        KEY_NUMPAD_LEFT_PAREN => Key::Character('('),
        KEY_NUMPAD_RIGHT_PAREN => Key::Character(')'),
        KEY_VOLUME_MUTE => Key::AudioVolumeMute,
        KEY_INFO => Key::Info,
        KEY_CHANNELUP => Key::ChannelUp,
        KEY_CHANNELDOWN => Key::ChannelDown,
        KEY_ZOOMIN => Key::ZoomIn,
        KEY_ZOOMOUT => Key::ZoomOut,
        KEY_TV => Key::TV,
        KEY_CALENDAR => Key::LaunchCalendar,
        KEY_ZENKAKU_HANKAKU => Key::ZenkakuHankaku,
        KEY_MUHENKAN => Key::NonConvert,
        KEY_HENKAN => Key::Convert,
        KEY_KATAKANA_HIRAGANA => Key::HiraganaKatakana,
        KEY_BRIGHTNESS_DOWN => Key::BrightnessDown,
        KEY_BRIGHTNESS_UP => Key::BrightnessUp,
        KEY_SLEEP => Key::Standby,
        KEY_WAKEUP => Key::WakeUp,
        KEY_HELP => Key::Help,
        KEY_CUT => Key::Cut,
        KEY_COPY => Key::Copy,
        KEY_PASTE => Key::Paste,
        KEY_REFRESH => Key::BrowserRefresh,
        _ => Key::Unidentified(NativeKeyCode::Ohos(keycode)),
    }
}

/// Maps an NDK key code to its physical key code (a layout-independent
/// position); unmapped codes fall back to `Unidentified` with the raw code.
pub fn to_physical(keycode: i32) -> (key: KeyCode)
    ensures
        key == physical_key_of(keycode),
{
    match keycode {
        KEY_0 => KeyCode::Digit0,
        KEY_1 => KeyCode::Digit1,
        KEY_2 => KeyCode::Digit2,
        KEY_3 => KeyCode::Digit3,
        KEY_4 => KeyCode::Digit4,
        KEY_5 => KeyCode::Digit5,
        KEY_6 => KeyCode::Digit6,
        KEY_7 => KeyCode::Digit7,
        KEY_8 => KeyCode::Digit8,
        KEY_9 => KeyCode::Digit9,
        KEY_A => KeyCode::KeyA,
        KEY_B => KeyCode::KeyB,
        KEY_C => KeyCode::KeyC,
        KEY_D => KeyCode::KeyD,
        KEY_E => KeyCode::KeyE,
        KEY_F => KeyCode::KeyF,
        KEY_G => KeyCode::KeyG,
        KEY_H => KeyCode::KeyH,
        KEY_I => KeyCode::KeyI,
        KEY_J => KeyCode::KeyJ,
        KEY_K => KeyCode::KeyK,
        KEY_L => KeyCode::KeyL,
        KEY_M => KeyCode::KeyM,
        KEY_N => KeyCode::KeyN,
        KEY_O => KeyCode::KeyO,
        KEY_P => KeyCode::KeyP,
        KEY_Q => KeyCode::KeyQ,
        KEY_R => KeyCode::KeyR,
        KEY_S => KeyCode::KeyS,
        KEY_T => KeyCode::KeyT,
        KEY_U => KeyCode::KeyU,
        KEY_V => KeyCode::KeyV,
        KEY_W => KeyCode::KeyW,
        KEY_X => KeyCode::KeyX,
        KEY_Y => KeyCode::KeyY,
        KEY_Z => KeyCode::KeyZ,
        KEY_COMMA => KeyCode::Comma,
        KEY_PERIOD => KeyCode::Period,
        KEY_GRAVE => KeyCode::Backquote,
        KEY_MINUS => KeyCode::Minus,
        KEY_EQUALS => KeyCode::Equal,
        KEY_LEFT_BRACKET => KeyCode::BracketLeft,
        KEY_RIGHT_BRACKET => KeyCode::BracketRight,
        KEY_BACKSLASH => KeyCode::Backslash,
        KEY_SEMICOLON => KeyCode::Semicolon,
        KEY_APOSTROPHE => KeyCode::Quote,
        KEY_SLASH => KeyCode::Slash,
        KEY_SPACE => KeyCode::Space,
        KEY_ENTER => KeyCode::Enter,
        KEY_DEL => KeyCode::Backspace,
        KEY_TAB => KeyCode::Tab,
        KEY_ESCAPE => KeyCode::Escape,
        KEY_FORWARD_DEL => KeyCode::Delete,
        KEY_INSERT => KeyCode::Insert,
        KEY_MOVE_HOME => KeyCode::Home,
        KEY_MOVE_END => KeyCode::End,
        KEY_PAGE_UP => KeyCode::PageUp,
        KEY_PAGE_DOWN => KeyCode::PageDown,
        KEY_CAPS_LOCK => KeyCode::CapsLock,
        KEY_SCROLL_LOCK => KeyCode::ScrollLock,
        KEY_NUM_LOCK => KeyCode::NumLock,
        KEY_DPAD_UP => KeyCode::ArrowUp,
        KEY_DPAD_DOWN => KeyCode::ArrowDown,
        KEY_DPAD_LEFT => KeyCode::ArrowLeft,
        KEY_DPAD_RIGHT => KeyCode::ArrowRight,
        KEY_VOLUME_UP => KeyCode::AudioVolumeUp,
        KEY_VOLUME_DOWN => KeyCode::AudioVolumeDown,
        KEY_VOLUME_MUTE => KeyCode::AudioVolumeMute,
        KEY_MEDIA_PLAY_PAUSE => KeyCode::MediaPlayPause,
        KEY_HOME => KeyCode::BrowserHome,
        KEY_BACK => KeyCode::BrowserBack,
        KEY_SYSRQ => KeyCode::PrintScreen,
        KEY_BREAK => KeyCode::Pause,
        KEY_FUNCTION => KeyCode::Fn,
        KEY_POWER => KeyCode::Power,
        KEY_SLEEP => KeyCode::Sleep,
        KEY_WAKEUP => KeyCode::WakeUp,
        KEY_FORWARD => KeyCode::BrowserForward,
        KEY_REFRESH => KeyCode::BrowserRefresh,
        KEY_BOOKMARKS => KeyCode::BrowserFavorites,
        KEY_MENU => KeyCode::ContextMenu,
        KEY_CUT => KeyCode::Cut,
        KEY_COPY => KeyCode::Copy,
        KEY_PASTE => KeyCode::Paste,
        KEY_UNDO => KeyCode::Undo,
        KEY_ENVELOPE => KeyCode::LaunchMail,
        KEY_CALC => KeyCode::LaunchApp2,
        KEY_MEDIA_STOP => KeyCode::MediaStop,
        KEY_MEDIA_NEXT => KeyCode::MediaTrackNext,
        KEY_MEDIA_PREVIOUS => KeyCode::MediaTrackPrevious,
        KEY_MEDIA_EJECT => KeyCode::Eject,
        KEY_HELP => KeyCode::Help,
        KEY_STAR => KeyCode::NumpadStar,
        KEY_POUND => KeyCode::NumpadHash,
        KEY_NUMPAD_LEFT_PAREN => KeyCode::NumpadParenLeft,
        KEY_NUMPAD_RIGHT_PAREN => KeyCode::NumpadParenRight,
        KEY_YEN => KeyCode::IntlYen,
        KEY_RO => KeyCode::IntlRo,
        KEY_102ND => KeyCode::IntlBackslash,
        KEY_MUHENKAN => KeyCode::NonConvert,
        KEY_HENKAN => KeyCode::Convert,
        KEY_KATAKANA_HIRAGANA => KeyCode::KanaMode,
        KEY_ZENKAKU_HANKAKU => KeyCode::Lang5,
        KEY_OPEN => KeyCode::Open,
        KEY_FIND => KeyCode::Find,
        KEY_AGAIN => KeyCode::Again,
        KEY_PROPS => KeyCode::Props,
        KEY_F1 => KeyCode::F1,
        KEY_F2 => KeyCode::F2,
        KEY_F3 => KeyCode::F3,
        KEY_F4 => KeyCode::F4,
        KEY_F5 => KeyCode::F5,
        KEY_F6 => KeyCode::F6,
        KEY_F7 => KeyCode::F7,
        KEY_F8 => KeyCode::F8,
        KEY_F9 => KeyCode::F9,
        KEY_F10 => KeyCode::F10,
        KEY_F11 => KeyCode::F11,
        KEY_F12 => KeyCode::F12,
        KEY_ALT_LEFT => KeyCode::AltLeft,
        KEY_ALT_RIGHT => KeyCode::AltRight,
        KEY_SHIFT_LEFT => KeyCode::ShiftLeft,
        KEY_SHIFT_RIGHT => KeyCode::ShiftRight,
        KEY_CTRL_LEFT => KeyCode::ControlLeft,
        KEY_CTRL_RIGHT => KeyCode::ControlRight,
        KEY_META_LEFT => KeyCode::SuperLeft,
        KEY_META_RIGHT => KeyCode::SuperRight,
        KEY_NUMPAD_0 => KeyCode::Numpad0,
        KEY_NUMPAD_1 => KeyCode::Numpad1,
        KEY_NUMPAD_2 => KeyCode::Numpad2,
        KEY_NUMPAD_3 => KeyCode::Numpad3,
        KEY_NUMPAD_4 => KeyCode::Numpad4,
        KEY_NUMPAD_5 => KeyCode::Numpad5,
        KEY_NUMPAD_6 => KeyCode::Numpad6,
        KEY_NUMPAD_7 => KeyCode::Numpad7,
        KEY_NUMPAD_8 => KeyCode::Numpad8,
        KEY_NUMPAD_9 => KeyCode::Numpad9,
        KEY_NUMPAD_DIVIDE => KeyCode::NumpadDivide,
        KEY_NUMPAD_MULTIPLY => KeyCode::NumpadMultiply,
        KEY_NUMPAD_SUBTRACT => KeyCode::NumpadSubtract,
        KEY_NUMPAD_ADD => KeyCode::NumpadAdd,
        KEY_NUMPAD_DOT => KeyCode::NumpadDecimal,
        KEY_NUMPAD_COMMA => KeyCode::NumpadComma,
        KEY_NUMPAD_ENTER => KeyCode::NumpadEnter,
        KEY_NUMPAD_EQUALS => KeyCode::NumpadEqual,
        _ => KeyCode::Unidentified(NativeKeyCode::Ohos(keycode)),
    }
}

/// Maps an NDK key code to the key's location: left/right for the modifier
/// pairs, numpad for NumLock and the numpad keys, standard otherwise.
pub fn to_location(keycode: i32) -> (location: KeyLocation)
    ensures
        location == location_of(keycode),
{
    match keycode {
        KEY_ALT_LEFT => KeyLocation::Left,
        KEY_ALT_RIGHT => KeyLocation::Right,
        KEY_SHIFT_LEFT => KeyLocation::Left,
        KEY_SHIFT_RIGHT => KeyLocation::Right,
        KEY_CTRL_LEFT => KeyLocation::Left,
        KEY_CTRL_RIGHT => KeyLocation::Right,
        KEY_META_LEFT => KeyLocation::Left,
        KEY_META_RIGHT => KeyLocation::Right,
        KEY_NUM_LOCK => KeyLocation::Numpad,
        KEY_NUMPAD_0 => KeyLocation::Numpad,
        KEY_NUMPAD_1 => KeyLocation::Numpad,
        KEY_NUMPAD_2 => KeyLocation::Numpad,
        KEY_NUMPAD_3 => KeyLocation::Numpad,
        KEY_NUMPAD_4 => KeyLocation::Numpad,
        KEY_NUMPAD_5 => KeyLocation::Numpad,
        KEY_NUMPAD_6 => KeyLocation::Numpad,
        KEY_NUMPAD_7 => KeyLocation::Numpad,
        KEY_NUMPAD_8 => KeyLocation::Numpad,
        KEY_NUMPAD_9 => KeyLocation::Numpad,
        KEY_NUMPAD_DIVIDE => KeyLocation::Numpad,
        KEY_NUMPAD_MULTIPLY => KeyLocation::Numpad,
        KEY_NUMPAD_SUBTRACT => KeyLocation::Numpad,
        KEY_NUMPAD_ADD => KeyLocation::Numpad,
        KEY_NUMPAD_DOT => KeyLocation::Numpad,
        KEY_NUMPAD_COMMA => KeyLocation::Numpad,
        KEY_NUMPAD_ENTER => KeyLocation::Numpad,
        KEY_NUMPAD_EQUALS => KeyLocation::Numpad,
        KEY_NUMPAD_LEFT_PAREN => KeyLocation::Numpad,
        KEY_NUMPAD_RIGHT_PAREN => KeyLocation::Numpad,
        _ => KeyLocation::Standard,
    }
}

/// An identified physical key stands for exactly one NDK key code, so the
/// physical mapping loses no key identity.
pub proof fn lemma_physical_key_identifies_code(code: i32)
    requires
        !(physical_key_of(code) is Unidentified),
    ensures
        ndk_code_of_physical(physical_key_of(code)) == code,
{
}

/// A code without a logical or physical counterpart maps to `Unidentified`
/// carrying the raw NDK code.
pub proof fn lemma_unidentified_keeps_raw_code(code: i32)
    ensures
        physical_key_of(code) is Unidentified ==> physical_key_of(code) == KeyCode::Unidentified(
            NativeKeyCode::Ohos(code),
        ),
        logical_key_of(code) is Unidentified ==> logical_key_of(code) == Key::Unidentified(
            NativeKeyCode::Ohos(code),
        ),
{
}

/// The left and right key of each modifier pair (the right one is the next
/// code) share their logical key; physical key and location tell them apart.
pub proof fn lemma_modifier_pairs_share_logical_key(code: i32)
    requires
        is_left_modifier(code),
    ensures
        is_right_modifier((code + 1) as i32),
        logical_key_of(code) == logical_key_of((code + 1) as i32),
        physical_key_of(code) != physical_key_of((code + 1) as i32),
        location_of(code) == KeyLocation::Left,
        location_of((code + 1) as i32) == KeyLocation::Right,
{
}

/// Every named physical key has its NDK key code, and that code maps back to
/// it: the physical mapping reaches every named key (the space bar
/// included) from the code the NDK table gives it, and no named key is lost
/// to `Unidentified`.
#[verifier::rlimit(50)]
pub proof fn lemma_named_physical_keys_have_their_code(k: KeyCode)
    requires
        !(k is Unidentified),
    ensures
        ndk_code_of_physical(k) != KEY_UNKNOWN,
        physical_key_of(ndk_code_of_physical(k)) == k,
{
}

/// Key locations by NDK code: the left Alt, Shift, Ctrl and Meta keys
/// (2045, 2047, 2072, 2076) are on the left, their right counterparts
/// (2046, 2048, 2073, 2077) on the right, Num Lock and the numpad block
/// (2102 through 2122) on the numpad, and every other key is standard.
pub proof fn lemma_location_by_code(code: i32)
    ensures
        (location_of(code) == KeyLocation::Left) <==> (code == 2045 || code == 2047 || code == 2072
            || code == 2076),
        (location_of(code) == KeyLocation::Right) <==> (code == 2046 || code == 2048 || code
            == 2073 || code == 2077),
        (location_of(code) == KeyLocation::Numpad) <==> (2102 <= code <= 2122),
{
}

/// Digit, letter and numpad-digit codes stand for their base character
/// ('0' = 48, 'a' = 97), and each modifier pair for its modifier key.
pub proof fn lemma_logical_characters_and_modifiers(code: i32)
    ensures
        2000 <= code <= 2009 ==> logical_key_of(code) == Key::Character((code - 2000 + 48) as char),
        2017 <= code <= 2042 ==> logical_key_of(code) == Key::Character((code - 2017 + 97) as char),
        2103 <= code <= 2112 ==> logical_key_of(code) == Key::Character((code - 2103 + 48) as char),
        (code == 2045 || code == 2046) ==> logical_key_of(code) == Key::Alt,
        (code == 2047 || code == 2048) ==> logical_key_of(code) == Key::Shift,
        (code == 2072 || code == 2073) ==> logical_key_of(code) == Key::Control,
        (code == 2076 || code == 2077) ==> logical_key_of(code) == Key::Super,
{
}

} // verus!
