//! Keyboard vocabulary shared by the key mapping and the input handlers:
//! logical keys, physical key codes, key locations and modifier sets.
use vstd::prelude::*;

verus! {

/// Whether a key or button went down or came up.
#[derive(Clone, Copy, Debug, PartialEq, Eq, Structural)]
pub enum ElementState {
    Pressed,
    Released,
}

/// Where a key sits on the keyboard when several keys produce the same key.
#[derive(Clone, Copy, Debug, PartialEq, Eq, Structural)]
pub enum KeyLocation {
    Standard,
    Left,
    Right,
    Numpad,
}

/// A platform key code that has no portable meaning.
#[derive(Clone, Copy, Debug, PartialEq, Eq, Structural)]
pub enum NativeKeyCode {
    Unidentified,
    /// Raw OpenHarmony NDK key code.
    Ohos(i32),
}

/// The meaning of a key press (what the key stands for, not where it is).
#[derive(Clone, Copy, Debug, PartialEq, Eq, Structural)]
pub enum Key {
    /// The unshifted character a key produces.
    Character(char),
    /// A key with no logical meaning; it keeps the raw platform code.
    Unidentified(NativeKeyCode),
    Alt,
    ArrowDown,
    ArrowLeft,
    ArrowRight,
    ArrowUp,
    AudioVolumeDown,
    AudioVolumeMute,
    AudioVolumeUp,
    Backspace,
    BrightnessDown,
    BrightnessUp,
    BrowserBack,
    BrowserForward,
    BrowserHome,
    BrowserRefresh,
    Camera,
    CapsLock,
    ChannelDown,
    ChannelUp,
    Control,
    Convert,
    Copy,
    Cut,
    Delete,
    Eject,
    End,
    Enter,
    Escape,
    F1,
    F2,
    F3,
    F4,
    F5,
    F6,
    F7,
    F8,
    F9,
    F10,
    F11,
    F12,
    Fn,
    Help,
    HiraganaKatakana,
    Home,
    Info,
    Insert,
    LaunchCalendar,
    LaunchMail,
    LaunchWebBrowser,
    MediaClose,
    MediaFastForward,
    MediaPause,
    MediaPlay,
    MediaPlayPause,
    MediaRecord,
    MediaRewind,
    MediaStop,
    MediaTrackNext,
    MediaTrackPrevious,
    MicrophoneVolumeMute,
    NonConvert,
    NumLock,
    PageDown,
    PageUp,
    Paste,
    Pause,
    Power,
    PrintScreen,
    ScrollLock,
    Shift,
    Space,
    Standby,
    Super,
    Symbol,
    Tab,
    TV,
    WakeUp,
    ZenkakuHankaku,
    ZoomIn,
    ZoomOut,
}

/// The physical position of a key (independent of the keyboard layout).
#[derive(Clone, Copy, Debug, PartialEq, Eq, Structural)]
pub enum KeyCode {
    /// A key with no portable physical code; it keeps the raw platform code.
    Unidentified(NativeKeyCode),
    Again,
    AltLeft,
    AltRight,
    ArrowDown,
    ArrowLeft,
    ArrowRight,
    ArrowUp,
    AudioVolumeDown,
    AudioVolumeMute,
    AudioVolumeUp,
    Backquote,
    Backslash,
    Backspace,
    BracketLeft,
    BracketRight,
    BrowserBack,
    BrowserFavorites,
    BrowserForward,
    BrowserHome,
    BrowserRefresh,
    CapsLock,
    Comma,
    ContextMenu,
    ControlLeft,
    ControlRight,
    Convert,
    Copy,
    Cut,
    Delete,
    Digit0,
    Digit1,
    Digit2,
    Digit3,
    Digit4,
    Digit5,
    Digit6,
    Digit7,
    Digit8,
    Digit9,
    Eject,
    End,
    Enter,
    Equal,
    Escape,
    F1,
    F2,
    F3,
    F4,
    F5,
    F6,
    F7,
    F8,
    F9,
    F10,
    F11,
    F12,
    Find,
    Fn,
    Help,
    Home,
    Insert,
    IntlBackslash,
    IntlRo,
    IntlYen,
    KanaMode,
    KeyA,
    KeyB,
    KeyC,
    KeyD,
    KeyE,
    KeyF,
    KeyG,
    KeyH,
    KeyI,
    KeyJ,
    KeyK,
    KeyL,
    KeyM,
    KeyN,
    KeyO,
    KeyP,
    KeyQ,
    KeyR,
    KeyS,
    KeyT,
    KeyU,
    KeyV,
    KeyW,
    KeyX,
    KeyY,
    KeyZ,
    Lang5,
    LaunchApp2,
    LaunchMail,
    MediaPlayPause,
    MediaStop,
    MediaTrackNext,
    MediaTrackPrevious,
    Minus,
    NonConvert,
    NumLock,
    Numpad0,
    Numpad1,
    Numpad2,
    Numpad3,
    Numpad4,
    Numpad5,
    Numpad6,
    Numpad7,
    Numpad8,
    Numpad9,
    NumpadAdd,
    NumpadComma,
    NumpadDecimal,
    NumpadDivide,
    NumpadEnter,
    NumpadEqual,
    NumpadHash,
    NumpadMultiply,
    NumpadParenLeft,
    NumpadParenRight,
    NumpadStar,
    NumpadSubtract,
    Open,
    PageDown,
    PageUp,
    Paste,
    Pause,
    Period,
    Power,
    PrintScreen,
    Props,
    Quote,
    ScrollLock,
    Semicolon,
    ShiftLeft,
    ShiftRight,
    Slash,
    Sleep,
    Space,
    SuperLeft,
    SuperRight,
    Tab,
    Undo,
    WakeUp,
}

/// The set of held keyboard modifiers.
#[derive(Clone, Copy, Debug, PartialEq, Eq, Structural)]
pub struct ModifiersState {
    pub shift: bool,
    pub control: bool,
    pub alt: bool,
    pub super_key: bool,
}

impl ModifiersState {
    /// No modifier held.
    pub open spec fn spec_empty() -> ModifiersState {
        ModifiersState { shift: false, control: false, alt: false, super_key: false }
    }

    /// Every modifier of `self` and of `other`.
    pub open spec fn spec_union(self, other: ModifiersState) -> ModifiersState {
        ModifiersState {
            shift: self.shift || other.shift,
            control: self.control || other.control,
            alt: self.alt || other.alt,
            super_key: self.super_key || other.super_key,
        }
    }

    /// The modifiers of `self` that `other` does not hold.
    pub open spec fn spec_difference(self, other: ModifiersState) -> ModifiersState {
        ModifiersState {
            shift: self.shift && !other.shift,
            control: self.control && !other.control,
            alt: self.alt && !other.alt,
            super_key: self.super_key && !other.super_key,
        }
    }

    /// Every modifier of `other` is held in `self`.
    pub open spec fn spec_contains(self, other: ModifiersState) -> bool {
        &&& other.shift ==> self.shift
        &&& other.control ==> self.control
        &&& other.alt ==> self.alt
        &&& other.super_key ==> self.super_key
    }

    pub open spec fn spec_is_empty(self) -> bool {
        self == ModifiersState::spec_empty()
    }

    pub fn empty() -> (m: ModifiersState)
        ensures
            m == ModifiersState::spec_empty(),
    {
        ModifiersState { shift: false, control: false, alt: false, super_key: false }
    }

    pub fn shift_only() -> (m: ModifiersState)
        ensures
            m == (ModifiersState { shift: true, ..ModifiersState::spec_empty() }),
    {
        ModifiersState { shift: true, control: false, alt: false, super_key: false }
    }

    pub fn control_only() -> (m: ModifiersState)
        ensures
            m == (ModifiersState { control: true, ..ModifiersState::spec_empty() }),
    {
        ModifiersState { shift: false, control: true, alt: false, super_key: false }
    }

    pub fn alt_only() -> (m: ModifiersState)
        ensures
            m == (ModifiersState { alt: true, ..ModifiersState::spec_empty() }),
    {
        ModifiersState { shift: false, control: false, alt: true, super_key: false }
    }

    pub fn super_only() -> (m: ModifiersState)
        ensures
            m == (ModifiersState { super_key: true, ..ModifiersState::spec_empty() }),
    {
        ModifiersState { shift: false, control: false, alt: false, super_key: true }
    }

    pub fn contains(&self, other: ModifiersState) -> (b: bool)
        ensures
            b == self.spec_contains(other),
    {
        (!other.shift || self.shift) && (!other.control || self.control) && (!other.alt
            || self.alt) && (!other.super_key || self.super_key)
    }

    pub fn union(&self, other: ModifiersState) -> (m: ModifiersState)
        ensures
            m == self.spec_union(other),
    {
        ModifiersState {
            shift: self.shift || other.shift,
            control: self.control || other.control,
            alt: self.alt || other.alt,
            super_key: self.super_key || other.super_key,
        }
    }

    pub fn difference(&self, other: ModifiersState) -> (m: ModifiersState)
        ensures
            m == self.spec_difference(other),
    {
        ModifiersState {
            shift: self.shift && !other.shift,
            control: self.control && !other.control,
            alt: self.alt && !other.alt,
            super_key: self.super_key && !other.super_key,
        }
    }

    pub fn is_empty(&self) -> (b: bool)
        ensures
            b == self.spec_is_empty(),
    {
        !self.shift && !self.control && !self.alt && !self.super_key
    }
}

} // verus!
