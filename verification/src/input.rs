//! Keyboard, mouse, wheel, touch, IME and focus handling: each handler turns
//! one platform input into the events for the main window, tracking the held
//! keys (for auto-repeat detection) and the held modifiers.
use vstd::prelude::*;

use std::collections::HashSet;

use crate::event::{
    main_window, to_main, DeviceId, Event, KeyEvent, KeyEventExtra, MouseButton, TouchPhase,
    WheelDelta, WindowEvent, WindowId,
};
use crate::keyboard::{ElementState, Key, KeyCode, KeyLocation, ModifiersState};
use crate::keycodes::{
    location_of, logical_key_of, physical_key_of, to_location, to_logical, to_physical,
    KEY_ALT_LEFT, KEY_ALT_RIGHT, KEY_CTRL_LEFT, KEY_CTRL_RIGHT, KEY_META_LEFT, KEY_META_RIGHT,
    KEY_SHIFT_LEFT, KEY_SHIFT_RIGHT,
};

verus! {

broadcast use vstd::std_specs::hash::group_hash_axioms;

/// The action of an NDK key event.
#[derive(Clone, Copy, Debug, PartialEq, Eq, Structural)]
pub enum KeyAction {
    Unknown,
    Down,
    Up,
}

/// An NDK key event: raw key code, action and source device.
#[derive(Clone, Copy, Debug, PartialEq, Eq, Structural)]
pub struct KeyInput {
    pub code: i32,
    pub action: KeyAction,
    pub device_id: i64,
}

/// The action of an NDK mouse event (hover enter/leave included).
#[derive(Clone, Copy, Debug, PartialEq, Eq, Structural)]
pub enum MouseAction {
    /// No action.
    NoAction,
    Press,
    Release,
    Move,
    HoverEnter,
    HoverLeave,
}

/// The button of an NDK mouse event.
#[derive(Clone, Copy, Debug, PartialEq, Eq, Structural)]
pub enum OhosMouseButton {
    NoneButton,
    LeftButton,
    RightButton,
    MiddleButton,
    BackButton,
    ForwardButton,
}

/// Direction of a pinch gesture: `ZoomIn` for a scale above 1, `ZoomOut` for
/// a scale below 1 (other than 0), `NoPinch` for 0 (no pinch) or exactly 1.
#[derive(Clone, Copy, Debug, PartialEq, Eq, Structural)]
pub enum PinchKind {
    NoPinch,
    ZoomIn,
    ZoomOut,
}

/// The decisions an axis (wheel / touchpad) event leads to.
#[derive(Clone, Copy, Debug, PartialEq, Eq, Structural)]
pub struct AxisInput {
    /// Some scroll delta is non-zero.
    pub has_delta: bool,
    /// The source is a touchpad (pixel deltas) rather than a wheel (line deltas).
    pub is_touchpad: bool,
    pub pinch: PinchKind,
}

/// The type of an NDK touch event.
#[derive(Clone, Copy, Debug, PartialEq, Eq, Structural)]
pub enum TouchEventType {
    Down,
    Up,
    Move,
    Cancel,
    Unknown,
}

/// An input-method event.
#[derive(Clone, Debug, PartialEq, Eq)]
pub enum ImeInput {
    /// Committed text.
    TextInput(String),
    /// Deletion of text before the cursor.
    Backspace,
    /// The enter action.
    Enter,
    /// The soft keyboard was hidden.
    KeyboardHidden,
    /// The soft keyboard was shown.
    KeyboardShown,
    /// Any other input-method event.
    Other,
}

/// The modifier a key code holds down, if it is a modifier key; both keys of
/// a left/right pair hold the same modifier.
pub open spec fn modifier_of(code: i32) -> Option<ModifiersState> {
    if code == KEY_SHIFT_LEFT || code == KEY_SHIFT_RIGHT {
        Some(ModifiersState { shift: true, ..ModifiersState::spec_empty() })
    } else if code == KEY_CTRL_LEFT || code == KEY_CTRL_RIGHT {
        Some(ModifiersState { control: true, ..ModifiersState::spec_empty() })
    } else if code == KEY_ALT_LEFT || code == KEY_ALT_RIGHT {
        Some(ModifiersState { alt: true, ..ModifiersState::spec_empty() })
    } else if code == KEY_META_LEFT || code == KEY_META_RIGHT {
        Some(ModifiersState { super_key: true, ..ModifiersState::spec_empty() })
    } else {
        None
    }
}

/// Key state of a key action: only `Down` presses.
pub open spec fn element_state_of(action: KeyAction) -> ElementState {
    match action {
        KeyAction::Down => ElementState::Pressed,
        _ => ElementState::Released,
    }
}

/// The held keys after a key event.
pub open spec fn pressed_after(pressed: Set<i32>, key: KeyInput) -> Set<i32> {
    match key.action {
        KeyAction::Down => pressed.insert(key.code),
        KeyAction::Up => pressed.remove(key.code),
        KeyAction::Unknown => pressed,
    }
}

/// The held modifiers after a key event.
pub open spec fn modifiers_after(modifiers: ModifiersState, key: KeyInput) -> ModifiersState {
    match modifier_of(key.code) {
        Some(m) => match element_state_of(key.action) {
            ElementState::Pressed => modifiers.spec_union(m),
            ElementState::Released => modifiers.spec_difference(m),
        },
        None => modifiers,
    }
}

/// A key event is an auto-repeat when it presses a key already held.
pub open spec fn key_repeats(pressed: Set<i32>, key: KeyInput) -> bool {
    key.action == KeyAction::Down && pressed.contains(key.code)
}

/// The keyboard event of a key event, with its repeat flag.
pub open spec fn key_event_of(key: KeyInput, repeat: bool) -> WindowEvent {
    WindowEvent::KeyboardInput {
        device_id: DeviceId(key.device_id as i32),
        event: KeyEvent {
            state: element_state_of(key.action),
            physical_key: physical_key_of(key.code),
            logical_key: logical_key_of(key.code),
            location: location_of(key.code),
            repeat,
            platform_specific: KeyEventExtra {},
        },
        is_synthetic: false,
    }
}

/// The events of a key event: `ModifiersChanged` first when the modifier set
/// changes, then the keyboard event.
pub open spec fn key_events(pressed: Set<i32>, modifiers: ModifiersState, key: KeyInput) -> Seq<
    Event,
> {
    let after = modifiers_after(modifiers, key);
    let changed = if after != modifiers {
        seq![to_main(WindowEvent::ModifiersChanged(after))]
    } else {
        Seq::empty()
    };
    changed.push(to_main(key_event_of(key, key_repeats(pressed, key))))
}

/// A press of a synthesized key followed by its release.
pub open spec fn synthetic_key_events(logical_key: Key, physical_key: KeyCode) -> Seq<Event> {
    seq![
        to_main(WindowEvent::KeyboardInput {
            device_id: DeviceId(0),
            event: KeyEvent {
                state: ElementState::Pressed,
                physical_key,
                logical_key,
                location: KeyLocation::Standard,
                repeat: false,
                platform_specific: KeyEventExtra {},
            },
            is_synthetic: false,
        }),
        to_main(WindowEvent::KeyboardInput {
            device_id: DeviceId(0),
            event: KeyEvent {
                state: ElementState::Released,
                physical_key,
                logical_key,
                location: KeyLocation::Standard,
                repeat: false,
                platform_specific: KeyEventExtra {},
            },
            is_synthetic: false,
        }),
    ]
}

/// The button of a mouse event; `NoneButton` has none.
pub open spec fn mouse_button_of(button: OhosMouseButton) -> Option<MouseButton> {
    match button {
        OhosMouseButton::LeftButton => Some(MouseButton::Left),
        OhosMouseButton::RightButton => Some(MouseButton::Right),
        OhosMouseButton::MiddleButton => Some(MouseButton::Middle),
        OhosMouseButton::BackButton => Some(MouseButton::Other(4)),
        OhosMouseButton::ForwardButton => Some(MouseButton::Other(5)),
        OhosMouseButton::NoneButton => None,
    }
}

/// The events of a mouse event under the held `modifiers`.
pub open spec fn mouse_events(
    modifiers: ModifiersState,
    action: MouseAction,
    button: OhosMouseButton,
) -> Seq<Event> {
    let device_id = DeviceId(0);
    match action {
        MouseAction::Move => seq![to_main(WindowEvent::CursorMoved { device_id, modifiers })],
        MouseAction::Press => match mouse_button_of(button) {
            Some(b) => seq![
                to_main(
                    WindowEvent::MouseInput {
                        device_id,
                        state: ElementState::Pressed,
                        button: b,
                        modifiers,
                    },
                ),
            ],
            None => Seq::empty(),
        },
        MouseAction::Release => match mouse_button_of(button) {
            Some(b) => seq![
                to_main(
                    WindowEvent::MouseInput {
                        device_id,
                        state: ElementState::Released,
                        button: b,
                        modifiers,
                    },
                ),
            ],
            None => Seq::empty(),
        },
        MouseAction::HoverEnter => seq![to_main(WindowEvent::CursorEntered { device_id })],
        MouseAction::HoverLeave => seq![to_main(WindowEvent::CursorLeft { device_id })],
        MouseAction::NoAction => Seq::empty(),
    }
}

/// The events of an axis event under the held `modifiers`: the scroll (line
/// deltas for a wheel, pixel deltas for a touchpad) when there is one, then a
/// pinch as a one-line Control+wheel zoom.
pub open spec fn axis_events(modifiers: ModifiersState, axis: AxisInput) -> Seq<Event> {
    let device_id = DeviceId(0);
    let scroll = if axis.has_delta {
        seq![
            to_main(
                WindowEvent::MouseWheel {
                    device_id,
                    delta: if axis.is_touchpad {
                        WheelDelta::PixelFromInput
                    } else {
                        WheelDelta::LineFromInput
                    },
                    phase: TouchPhase::Moved,
                    modifiers,
                },
            ),
        ]
    } else {
        Seq::empty()
    };
    let control = ModifiersState { control: true, ..ModifiersState::spec_empty() };
    let zoom = match axis.pinch {
        PinchKind::NoPinch => Seq::empty(),
        PinchKind::ZoomIn => seq![
            to_main(
                WindowEvent::MouseWheel {
                    device_id,
                    delta: WheelDelta::ZoomLines(1i8),
                    phase: TouchPhase::Moved,
                    modifiers: modifiers.spec_union(control),
                },
            ),
        ],
        PinchKind::ZoomOut => seq![
            to_main(
                WindowEvent::MouseWheel {
                    device_id,
                    delta: WheelDelta::ZoomLines(-1i8),
                    phase: TouchPhase::Moved,
                    modifiers: modifiers.spec_union(control),
                },
            ),
        ],
    };
    scroll + zoom
}

/// The touch phase of a touch event type; `Unknown` has none.
pub open spec fn touch_phase_of(event_type: TouchEventType) -> Option<TouchPhase> {
    match event_type {
        TouchEventType::Down => Some(TouchPhase::Started),
        TouchEventType::Up => Some(TouchPhase::Ended),
        TouchEventType::Move => Some(TouchPhase::Moved),
        TouchEventType::Cancel => Some(TouchPhase::Cancelled),
        TouchEventType::Unknown => None,
    }
}

/// The touch event of the `i`-th touch point.
pub open spec fn touch_event_of(device_id: i64, phase: TouchPhase, pointer_ids: Seq<i32>, i: int) -> Event {
    to_main(
        WindowEvent::Touch {
            device_id: DeviceId(device_id as i32),
            phase,
            id: pointer_ids[i] as u64,
            pointer: i as usize,
        },
    )
}

/// The events of an input-method event.
pub open spec fn ime_events(ime: ImeInput) -> Seq<Event> {
    match ime {
        ImeInput::TextInput(text) => seq![to_main(WindowEvent::ReceivedImeText(text))],
        ImeInput::Backspace => synthetic_key_events(Key::Backspace, KeyCode::Backspace),
        ImeInput::Enter => synthetic_key_events(Key::Enter, KeyCode::Enter),
        ImeInput::KeyboardHidden => synthetic_key_events(Key::Enter, KeyCode::Enter),
        _ => Seq::empty(),
    }
}

/// The events of regaining focus with `modifiers` held: the clearing of the
/// modifiers is announced (before the focus) only when some was held.
pub open spec fn gained_focus_events(modifiers: ModifiersState) -> Seq<Event> {
    if modifiers.spec_is_empty() {
        seq![to_main(WindowEvent::Focused(true))]
    } else {
        seq![
            to_main(WindowEvent::ModifiersChanged(ModifiersState::spec_empty())),
            to_main(WindowEvent::Focused(true)),
        ]
    }
}

/// Emits a synthesized press and release of one key on the main window.
///
/// The input-method handlers use it where the platform reports only an
/// input-method fact: text edits (backspace, enter) come with no key event,
/// and hiding the keyboard needs an Enter so web engines commit and blur.
pub fn emit_synthetic_key(logical_key: Key, physical_key: KeyCode) -> (events: Vec<Event>)
    ensures
        events@ == synthetic_key_events(logical_key, physical_key),
{
    let mut events: Vec<Event> = Vec::new();
    events.push(
        Event::WindowEvent {
            window_id: WindowId(0),
            event: WindowEvent::KeyboardInput {
                device_id: DeviceId(0),
                event: KeyEvent {
                    state: ElementState::Pressed,
                    physical_key,
                    logical_key,
                    location: KeyLocation::Standard,
                    repeat: false,
                    platform_specific: KeyEventExtra {},
                },
                is_synthetic: false,
            },
        },
    );
    events.push(
        Event::WindowEvent {
            window_id: WindowId(0),
            event: WindowEvent::KeyboardInput {
                device_id: DeviceId(0),
                event: KeyEvent {
                    state: ElementState::Released,
                    physical_key,
                    logical_key,
                    location: KeyLocation::Standard,
                    repeat: false,
                    platform_specific: KeyEventExtra {},
                },
                is_synthetic: false,
            },
        },
    );
    events
}

/// Maps a mouse button; `NoneButton` has no button to report.
pub fn ohos_mouse_button_to_tao(button: OhosMouseButton) -> (b: Option<MouseButton>)
    ensures
        b == mouse_button_of(button),
{
    match button {
        OhosMouseButton::LeftButton => Some(MouseButton::Left),
        OhosMouseButton::RightButton => Some(MouseButton::Right),
        OhosMouseButton::MiddleButton => Some(MouseButton::Middle),
        OhosMouseButton::BackButton => Some(MouseButton::Other(4)),
        OhosMouseButton::ForwardButton => Some(MouseButton::Other(5)),
        OhosMouseButton::NoneButton => None,
    }
}

/// Maps a modifier key code to the modifier it holds down.
pub fn keycode_as_modifier(code: i32) -> (m: Option<ModifiersState>)
    ensures
        m == modifier_of(code),
{
    if code == KEY_SHIFT_LEFT || code == KEY_SHIFT_RIGHT {
        Some(ModifiersState::shift_only())
    } else if code == KEY_CTRL_LEFT || code == KEY_CTRL_RIGHT {
        Some(ModifiersState::control_only())
    } else if code == KEY_ALT_LEFT || code == KEY_ALT_RIGHT {
        Some(ModifiersState::alt_only())
    } else if code == KEY_META_LEFT || code == KEY_META_RIGHT {
        Some(ModifiersState::super_only())
    } else {
        None
    }
}

/// Maps an IME event to its events.
pub fn handle_ime_event(ime: ImeInput) -> (events: Vec<Event>)
    ensures
        events@ == ime_events(ime),
{
    match ime {
        ImeInput::TextInput(text) => {
            let mut events: Vec<Event> = Vec::new();
            events.push(
                Event::WindowEvent {
                    window_id: WindowId(0),
                    event: WindowEvent::ReceivedImeText(text),
                },
            );
            proof {
                assert(events@ =~= ime_events(ime));
            }
            events
        },
        ImeInput::Backspace => emit_synthetic_key(Key::Backspace, KeyCode::Backspace),
        ImeInput::Enter => emit_synthetic_key(Key::Enter, KeyCode::Enter),
        ImeInput::KeyboardHidden => emit_synthetic_key(Key::Enter, KeyCode::Enter),
        _ => Vec::new(),
    }
}

/// Maps a touch event to one touch event per touch point, in order; a touch
/// event of unknown type emits nothing.
pub fn handle_touch_event(
    device_id: i64,
    event_type: TouchEventType,
    pointer_ids: &Vec<i32>,
) -> (events: Vec<Event>)
    ensures
        touch_phase_of(event_type) is None ==> events@.len() == 0,
        touch_phase_of(event_type) matches Some(phase) ==> {
            &&& events@.len() == pointer_ids@.len()
            &&& forall|i: int|
                0 <= i < events@.len() ==> #[trigger] events@[i] == touch_event_of(
                    device_id,
                    phase,
                    pointer_ids@,
                    i,
                )
        },
{
    let phase = match event_type {
        TouchEventType::Down => TouchPhase::Started,
        TouchEventType::Up => TouchPhase::Ended,
        TouchEventType::Move => TouchPhase::Moved,
        TouchEventType::Cancel => TouchPhase::Cancelled,
        TouchEventType::Unknown => {
            return Vec::new();
        },
    };
    let mut events: Vec<Event> = Vec::new();
    let mut i: usize = 0;
    while i < pointer_ids.len()
        invariant
            i <= pointer_ids@.len(),
            touch_phase_of(event_type) == Some(phase),
            events@.len() == i,
            forall|j: int|
                0 <= j < i ==> #[trigger] events@[j] == touch_event_of(
                    device_id,
                    phase,
                    pointer_ids@,
                    j,
                ),
        decreases pointer_ids@.len() - i,
    {
        let id = pointer_ids[i];
        events.push(
            Event::WindowEvent {
                window_id: WindowId(0),
                event: WindowEvent::Touch {
                    device_id: DeviceId(device_id as i32),
                    phase,
                    id: id as u64,
                    pointer: i,
                },
            },
        );
        i = i + 1;
    }
    events
}

/// Held keys, held modifiers and focus, as tracked from input events.
pub struct InputState {
    pressed_keys: HashSet<i32>,
    modifiers: ModifiersState,
    has_focus: bool,
}

impl InputState {
    /// The key codes currently held down.
    pub closed spec fn pressed(&self) -> Set<i32> {
        self.pressed_keys@
    }

    /// The modifiers currently held down.
    pub closed spec fn held_modifiers(&self) -> ModifiersState {
        self.modifiers
    }

    /// Whether the application has focus.
    pub closed spec fn focused(&self) -> bool {
        self.has_focus
    }

    /// No key held, no modifier held, focused.
    pub fn new() -> (s: InputState)
        ensures
            s.pressed() == Set::<i32>::empty(),
            s.held_modifiers() == ModifiersState::spec_empty(),
            s.focused(),
    {
        InputState {
            pressed_keys: HashSet::new(),
            modifiers: ModifiersState::empty(),
            has_focus: true,
        }
    }

    /// The modifiers currently held (used for the modifiers of mouse and
    /// wheel events).
    pub fn current_modifiers(&self) -> (m: ModifiersState)
        ensures
            m == self.held_modifiers(),
    {
        self.modifiers
    }

    pub fn is_focused(&self) -> (b: bool)
        ensures
            b == self.focused(),
    {
        self.has_focus
    }

    /// Handles a key event: a `Down` of an already held key is an
    /// auto-repeat; modifier keys update the held modifiers and, when the set
    /// changes, `ModifiersChanged` is emitted before the key event.
    pub fn handle_key_event(&mut self, key: KeyInput) -> (events: Vec<Event>)
        ensures
            final(self).pressed() == pressed_after(old(self).pressed(), key),
            final(self).held_modifiers() == modifiers_after(old(self).held_modifiers(), key),
            final(self).focused() == old(self).focused(),
            events@ == key_events(old(self).pressed(), old(self).held_modifiers(), key),
    {
        let state = match key.action {
            KeyAction::Down => ElementState::Pressed,
            _ => ElementState::Released,
        };
        let repeat = match key.action {
            KeyAction::Down => !self.pressed_keys.insert(key.code),
            KeyAction::Up => {
                self.pressed_keys.remove(&key.code);
                false
            },
            KeyAction::Unknown => false,
        };
        let mut events: Vec<Event> = Vec::new();
        if let Some(modifier) = keycode_as_modifier(key.code) {
            let changed = match state {
                ElementState::Pressed => {
                    let newly_held = !self.modifiers.contains(modifier);
                    self.modifiers = self.modifiers.union(modifier);
                    newly_held
                },
                ElementState::Released => {
                    let was_held = self.modifiers.contains(modifier);
                    self.modifiers = self.modifiers.difference(modifier);
                    was_held
                },
            };
            if changed {
                events.push(
                    Event::WindowEvent {
                        window_id: WindowId(0),
                        event: WindowEvent::ModifiersChanged(self.modifiers),
                    },
                );
            }
        }
        let physical_key = to_physical(key.code);
        let logical_key = to_logical(key.code);
        let location = to_location(key.code);
        events.push(
            Event::WindowEvent {
                window_id: WindowId(0),
                event: WindowEvent::KeyboardInput {
                    device_id: DeviceId(key.device_id as i32),
                    event: KeyEvent {
                        state,
                        physical_key,
                        logical_key,
                        location,
                        repeat,
                        platform_specific: KeyEventExtra {},
                    },
                    is_synthetic: false,
                },
            },
        );
        proof {
            assert(events@ =~= key_events(old(self).pressed(), old(self).held_modifiers(), key));
        }
        events
    }

    /// Handles a mouse event; its events carry the held modifiers.
    pub fn handle_mouse_event(&self, action: MouseAction, button: OhosMouseButton) -> (events: Vec<
        Event,
    >)
        ensures
            events@ == mouse_events(self.held_modifiers(), action, button),
    {
        let device_id = DeviceId(0);
        let mut events: Vec<Event> = Vec::new();
        match action {
            MouseAction::Move => {
                events.push(
                    Event::WindowEvent {
                        window_id: WindowId(0),
                        event: WindowEvent::CursorMoved {
                            device_id,
                            modifiers: self.current_modifiers(),
                        },
                    },
                );
            },
            MouseAction::Press => {
                if let Some(button) = ohos_mouse_button_to_tao(button) {
                    events.push(
                        Event::WindowEvent {
                            window_id: WindowId(0),
                            event: WindowEvent::MouseInput {
                                device_id,
                                state: ElementState::Pressed,
                                button,
                                modifiers: self.current_modifiers(),
                            },
                        },
                    );
                }
            },
            MouseAction::Release => {
                if let Some(button) = ohos_mouse_button_to_tao(button) {
                    events.push(
                        Event::WindowEvent {
                            window_id: WindowId(0),
                            event: WindowEvent::MouseInput {
                                device_id,
                                state: ElementState::Released,
                                button,
                                modifiers: self.current_modifiers(),
                            },
                        },
                    );
                }
            },
            MouseAction::HoverEnter => {
                events.push(
                    Event::WindowEvent {
                        window_id: WindowId(0),
                        event: WindowEvent::CursorEntered { device_id },
                    },
                );
            },
            MouseAction::HoverLeave => {
                events.push(
                    Event::WindowEvent {
                        window_id: WindowId(0),
                        event: WindowEvent::CursorLeft { device_id },
                    },
                );
            },
            MouseAction::NoAction => {},
        }
        proof {
            assert(events@ =~= mouse_events(self.held_modifiers(), action, button));
        }
        events
    }

    /// Handles an axis event: a scroll wheel event when a delta is present,
    /// then, for a pinch, a Control+wheel zoom event.
    pub fn handle_axis_event(&self, axis: AxisInput) -> (events: Vec<Event>)
        ensures
            events@ == axis_events(self.held_modifiers(), axis),
    {
        let device_id = DeviceId(0);
        let mut events: Vec<Event> = Vec::new();
        if axis.has_delta {
            let delta = if axis.is_touchpad {
                WheelDelta::PixelFromInput
            } else {
                WheelDelta::LineFromInput
            };
            events.push(
                Event::WindowEvent {
                    window_id: WindowId(0),
                    event: WindowEvent::MouseWheel {
                        device_id,
                        delta,
                        phase: TouchPhase::Moved,
                        modifiers: self.current_modifiers(),
                    },
                },
            );
        }
        let zoom: i8 = match axis.pinch {
            PinchKind::NoPinch => 0,
            PinchKind::ZoomIn => 1,
            PinchKind::ZoomOut => -1,
        };
        if zoom != 0 {
            events.push(
                Event::WindowEvent {
                    window_id: WindowId(0),
                    event: WindowEvent::MouseWheel {
                        device_id,
                        delta: WheelDelta::ZoomLines(zoom),
                        phase: TouchPhase::Moved,
                        modifiers: self.current_modifiers().union(ModifiersState::control_only()),
                    },
                },
            );
        }
        proof {
            assert(events@ =~= axis_events(self.held_modifiers(), axis));
        }
        events
    }

    /// Focus regained: the held modifiers are cleared (releases may have been
    /// missed while unfocused); `ModifiersChanged(empty)` is emitted before
    /// `Focused(true)` exactly when some modifier was held.
    pub fn handle_gained_focus(&mut self) -> (events: Vec<Event>)
        ensures
            final(self).focused(),
            final(self).held_modifiers() == ModifiersState::spec_empty(),
            final(self).pressed() == old(self).pressed(),
            events@ == gained_focus_events(old(self).held_modifiers()),
    {
        self.has_focus = true;
        let prev = self.modifiers;
        self.modifiers = ModifiersState::empty();
        let mut events: Vec<Event> = Vec::new();
        if !prev.is_empty() {
            events.push(
                Event::WindowEvent {
                    window_id: WindowId(0),
                    event: WindowEvent::ModifiersChanged(ModifiersState::empty()),
                },
            );
        }
        events.push(Event::WindowEvent { window_id: WindowId(0), event: WindowEvent::Focused(true) });
        proof {
            if old(self).held_modifiers().spec_is_empty() {
                assert(events@ =~= seq![to_main(WindowEvent::Focused(true))]);
            } else {
                assert(events@ =~= seq![
                    to_main(WindowEvent::ModifiersChanged(ModifiersState::spec_empty())),
                    to_main(WindowEvent::Focused(true)),
                ]);
            }
        }
        events
    }

    /// Focus lost: emits `Focused(false)`; the held modifiers are kept (an
    /// unfocused window receives no input).
    pub fn handle_lost_focus(&mut self) -> (events: Vec<Event>)
        ensures
            !final(self).focused(),
            final(self).held_modifiers() == old(self).held_modifiers(),
            final(self).pressed() == old(self).pressed(),
            events@ == seq![to_main(WindowEvent::Focused(false))],
    {
        self.has_focus = false;
        let mut events: Vec<Event> = Vec::new();
        events.push(Event::WindowEvent { window_id: WindowId(0), event: WindowEvent::Focused(false) });
        proof {
            assert(events@ =~= seq![to_main(WindowEvent::Focused(false))]);
        }
        events
    }
}

/// A key pressed while not held is no repeat; pressing it again while held
/// is; after its release the next press is no repeat again.
pub proof fn lemma_held_key_repeats(pressed: Set<i32>, code: i32, device_id: i64)
    ensures
        ({
            let down = KeyInput { code, action: KeyAction::Down, device_id };
            let up = KeyInput { code, action: KeyAction::Up, device_id };
            &&& !pressed.contains(code) ==> !key_repeats(pressed, down)
            &&& key_repeats(pressed_after(pressed, down), down)
            &&& !key_repeats(pressed_after(pressed_after(pressed, down), up), down)
        }),
{
}

/// Pressing a modifier that is already held (for instance the other key of
/// its pair) leaves the modifiers unchanged, so only the key event is
/// emitted, without `ModifiersChanged`.
pub proof fn lemma_held_modifier_press_is_silent(
    pressed: Set<i32>,
    modifiers: ModifiersState,
    key: KeyInput,
)
    requires
        key.action == KeyAction::Down,
        modifier_of(key.code) matches Some(m) && modifiers.spec_contains(m),
    ensures
        modifiers_after(modifiers, key) == modifiers,
        key_events(pressed, modifiers, key).len() == 1,
{
}

/// Pressing and releasing a modifier key that was not held restores the
/// modifiers, and each of the two key events announces the change first.
pub proof fn lemma_modifier_press_release_restores(
    pressed: Set<i32>,
    modifiers: ModifiersState,
    code: i32,
    device_id: i64,
)
    requires
        modifier_of(code) matches Some(m) && !modifiers.spec_contains(m),
    ensures
        ({
            let down = KeyInput { code, action: KeyAction::Down, device_id };
            let up = KeyInput { code, action: KeyAction::Up, device_id };
            let held = modifiers_after(modifiers, down);
            &&& held != modifiers
            &&& modifiers_after(held, up) == modifiers
            &&& key_events(pressed, modifiers, down).len() == 2
            &&& key_events(pressed_after(pressed, down), held, up).len() == 2
        }),
{
}

/// Keys that are not modifiers never change the held modifiers, so their
/// key event is the only event.
pub proof fn lemma_plain_key_keeps_modifiers(
    pressed: Set<i32>,
    modifiers: ModifiersState,
    key: KeyInput,
)
    requires
        modifier_of(key.code) is None,
    ensures
        modifiers_after(modifiers, key) == modifiers,
        key_events(pressed, modifiers, key) == seq![
            to_main(key_event_of(key, key_repeats(pressed, key))),
        ],
{
    assert(key_events(pressed, modifiers, key) =~= seq![
        to_main(key_event_of(key, key_repeats(pressed, key))),
    ]);
}

/// The modifier set a key event announces is the set held after it: a key
/// event announces a change (before its key event, and only then) exactly
/// when the held set changes, and what it announces is the new set.
pub proof fn lemma_announced_modifiers_are_held_after(
    pressed: Set<i32>,
    modifiers: ModifiersState,
    key: KeyInput,
    s: ModifiersState,
    i: int,
)
    requires
        0 <= i < key_events(pressed, modifiers, key).len(),
        key_events(pressed, modifiers, key)[i] == to_main(WindowEvent::ModifiersChanged(s)),
    ensures
        i == 0,
        s == modifiers_after(modifiers, key),
        s != modifiers,
{
}

/// A modifier key's press holds its modifier and any other action of it
/// releases it, leaving the other modifiers as they were; any other key
/// leaves the modifiers alone. NDK codes: Shift 2047/2048, Ctrl 2072/2073,
/// Alt 2045/2046, Meta 2076/2077.
pub proof fn lemma_modifier_key_holds_its_modifier(m: ModifiersState, key: KeyInput)
    ensures
        ({
            let a = modifiers_after(m, key);
            let down = key.action == KeyAction::Down;
            &&& (key.code == 2047 || key.code == 2048) ==> a == ModifiersState { shift: down, ..m }
            &&& (key.code == 2072 || key.code == 2073) ==> a == ModifiersState { control: down, ..m }
            &&& (key.code == 2045 || key.code == 2046) ==> a == ModifiersState { alt: down, ..m }
            &&& (key.code == 2076 || key.code == 2077) ==> a == ModifiersState {
                super_key: down,
                ..m
            }
            &&& !(2045 <= key.code <= 2048 || key.code == 2072 || key.code == 2073 || key.code
                == 2076 || key.code == 2077) ==> a == m
        }),
{
}

/// A key event gives exactly one keyboard event, for its own key, after at
/// most one announcement.
pub proof fn lemma_key_event_count(pressed: Set<i32>, modifiers: ModifiersState, key: KeyInput)
    ensures
        key_events(pressed, modifiers, key).len() == if modifiers_after(modifiers, key)
            != modifiers {
            2int
        } else {
            1int
        },
        key_events(pressed, modifiers, key).last() == to_main(
            key_event_of(key, key.action == KeyAction::Down && pressed.contains(key.code)),
        ),
{
}

/// Distinct platform buttons report distinct buttons and only the empty
/// button reports none; the back and forward buttons are the fourth and
/// fifth (`Other(4)`, `Other(5)`).
pub proof fn lemma_mouse_buttons_distinct(a: OhosMouseButton, b: OhosMouseButton)
    ensures
        mouse_button_of(a) is None <==> a == OhosMouseButton::NoneButton,
        a != b && mouse_button_of(a) is Some ==> mouse_button_of(a) != mouse_button_of(b),
        mouse_button_of(OhosMouseButton::BackButton) == Some(MouseButton::Other(4)),
        mouse_button_of(OhosMouseButton::ForwardButton) == Some(MouseButton::Other(5)),
{
}

/// Down starts a touch, Move moves it, Up ends it and Cancel cancels it;
/// an unknown touch type has no phase.
pub proof fn lemma_touch_phases(t: TouchEventType)
    ensures
        touch_phase_of(t) is None <==> t == TouchEventType::Unknown,
        touch_phase_of(t) == Some(TouchPhase::Started) <==> t == TouchEventType::Down,
        touch_phase_of(t) == Some(TouchPhase::Moved) <==> t == TouchEventType::Move,
        touch_phase_of(t) == Some(TouchPhase::Ended) <==> t == TouchEventType::Up,
        touch_phase_of(t) == Some(TouchPhase::Cancelled) <==> t == TouchEventType::Cancel,
{
}

} // verus!
