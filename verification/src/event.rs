//! The events the backend hands to the application, and the ids they carry.
//!
//! Values measured in floating point (cursor and touch positions, scroll
//! deltas, touch force, scale factors) are not part of these events: the
//! glue that owns the platform event attaches them, keyed by the variant
//! (and, for touches, by the pointer index).
use vstd::prelude::*;

use crate::keyboard::{ElementState, Key, KeyCode, KeyLocation, ModifiersState};

verus! {

/// Identifies the input device an event came from.
#[derive(Clone, Copy, Debug, Eq, Hash, Ord, PartialEq, PartialOrd, Structural)]
pub struct DeviceId(pub i32);

impl DeviceId {
    /// The device id used for synthesized and mouse events.
    pub fn dummy() -> (id: DeviceId)
        ensures
            id == DeviceId(0),
    {
        DeviceId(0)
    }
}

/// Identifies a window: 0 is the main window, a positive id a floating
/// sub-window.
#[derive(Clone, Copy, Debug, Eq, Hash, Ord, PartialEq, PartialOrd, Structural)]
pub struct WindowId(pub i64);

/// The main window, to which every input event is routed.
pub open spec fn main_window() -> WindowId {
    WindowId(0)
}

impl WindowId {
    pub fn dummy() -> (id: WindowId)
        ensures
            id == main_window(),
    {
        WindowId(0)
    }

}

/// The id as an unsigned number (two's complement reinterpretation).
impl From<WindowId> for u64 {
    fn from(id: WindowId) -> (n: u64) {
        id.0 as u64
    }
}

impl vstd::std_specs::convert::FromSpecImpl<WindowId> for u64 {
    open spec fn obeys_from_spec() -> bool {
        true
    }

    open spec fn from_spec(id: WindowId) -> u64 {
        id.0 as u64
    }
}

/// The window id for an unsigned number (two's complement reinterpretation).
impl From<u64> for WindowId {
    fn from(n: u64) -> (id: WindowId) {
        WindowId(n as i64)
    }
}

impl vstd::std_specs::convert::FromSpecImpl<u64> for WindowId {
    open spec fn obeys_from_spec() -> bool {
        true
    }

    open spec fn from_spec(n: u64) -> WindowId {
        WindowId(n as i64)
    }
}

/// Converting an id to a number and back gives the id again.
pub proof fn lemma_window_id_round_trip(id: WindowId)
    ensures
        WindowId((id.0 as u64) as i64) == id,
{
    let x = id.0;
    assert(((x as u64) as i64) == x) by (bit_vector);
}

/// Platform-specific part of a key event (empty on this platform).
#[derive(Debug, Clone, Eq, PartialEq, Hash, Structural)]
pub struct KeyEventExtra {}

/// Application theme.
#[derive(Clone, Copy, Debug, PartialEq, Eq, Structural)]
pub enum Theme {
    Light,
    Dark,
}

#[derive(Clone, Copy, Debug, PartialEq, Eq, Structural)]
pub enum MouseButton {
    Left,
    Right,
    Middle,
    Other(u16),
}

#[derive(Clone, Copy, Debug, PartialEq, Eq, Structural)]
pub enum TouchPhase {
    Started,
    Moved,
    Ended,
    Cancelled,
}

/// What a wheel event's delta is made of.
#[derive(Clone, Copy, Debug, PartialEq, Eq, Structural)]
pub enum WheelDelta {
    /// The platform's delta, in lines (mouse wheel).
    LineFromInput,
    /// The platform's delta, in pixels (touchpad).
    PixelFromInput,
    /// A synthesized vertical line delta of `+1` (zoom in) or `-1` (zoom out).
    ZoomLines(i8),
}

/// A keyboard event.
#[derive(Clone, Debug, PartialEq, Eq, Structural)]
pub struct KeyEvent {
    pub state: ElementState,
    pub physical_key: KeyCode,
    pub logical_key: Key,
    pub location: KeyLocation,
    pub repeat: bool,
    pub platform_specific: KeyEventExtra,
}

/// An event about one window.
#[derive(Clone, Debug, PartialEq)]
pub enum WindowEvent {
    Resized { width: u32, height: u32 },
    Moved { x: i32, y: i32 },
    CloseRequested,
    Destroyed,
    Focused(bool),
    KeyboardInput { device_id: DeviceId, event: KeyEvent, is_synthetic: bool },
    ModifiersChanged(ModifiersState),
    ReceivedImeText(String),
    /// The cursor moved; the position is the platform event's.
    CursorMoved { device_id: DeviceId, modifiers: ModifiersState },
    CursorEntered { device_id: DeviceId },
    CursorLeft { device_id: DeviceId },
    MouseWheel {
        device_id: DeviceId,
        delta: WheelDelta,
        phase: TouchPhase,
        modifiers: ModifiersState,
    },
    MouseInput {
        device_id: DeviceId,
        state: ElementState,
        button: MouseButton,
        modifiers: ModifiersState,
    },
    /// A touch point; `pointer` indexes the platform event's touch points,
    /// which hold the location and force.
    Touch { device_id: DeviceId, phase: TouchPhase, id: u64, pointer: usize },
    /// The scale factor changed; the new factor is the application's.
    ScaleFactorChanged { width: u32, height: u32 },
    ThemeChanged(Theme),
}

/// An event handed to the application's handler.
#[derive(Clone, Debug, PartialEq)]
pub enum Event {
    NewEventsInit,
    WindowEvent { window_id: WindowId, event: WindowEvent },
    Suspended,
    Resumed,
    RedrawRequested(WindowId),
    LoopDestroyed,
    Opened { urls: Vec<String> },
    /// The system asks whether the application may terminate; the handler
    /// answers on the platform's answer object and can cancel.
    PrepareToTerminate,
}

/// `event`, addressed to the main window.
pub open spec fn to_main(event: WindowEvent) -> Event {
    Event::WindowEvent { window_id: main_window(), event }
}

} // verus!
