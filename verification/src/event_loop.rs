//! Dispatch decisions of the event loop: which events each lifecycle, window
//! or input event of the ability becomes, the move/resize split of window
//! rect changes, the app-wide theme and its change notifications, and exit.
use vstd::prelude::*;

use std::collections::HashMap;

use crate::event::{main_window, to_main, Event, Theme, WindowEvent, WindowId};
use crate::input::{
    gained_focus_events, axis_events, ime_events, key_events, modifiers_after, mouse_events, pressed_after,
    touch_event_of, touch_phase_of, AxisInput, ImeInput, InputState, KeyInput, MouseAction,
    OhosMouseButton, TouchEventType,
};
use crate::keyboard::ModifiersState;
use crate::want::{is_opened_with, opened_event, want_urls};

verus! {

broadcast use vstd::std_specs::hash::group_hash_axioms;

/// The system color mode (`NoSet` before any configuration arrived).
#[derive(Clone, Copy, Debug, PartialEq, Eq, Structural)]
pub enum ColorMode {
    NoSet,
    Dark,
    Light,
}

/// The app-wide theme override: an explicit theme, or follow the system.
#[derive(Clone, Copy, Debug, PartialEq, Eq, Structural)]
pub enum ThemeOverride {
    Light,
    Dark,
    Follow,
}

/// The effective theme: the override when one is set, else the system color
/// mode (`Light` for `NoSet`).
pub open spec fn spec_effective_theme(theme_override: ThemeOverride, mode: ColorMode) -> Theme {
    match theme_override {
        ThemeOverride::Dark => Theme::Dark,
        ThemeOverride::Light => Theme::Light,
        ThemeOverride::Follow => match mode {
            ColorMode::Dark => Theme::Dark,
            _ => Theme::Light,
        },
    }
}

pub fn effective_theme(theme_override: ThemeOverride, mode: ColorMode) -> (theme: Theme)
    ensures
        theme == spec_effective_theme(theme_override, mode),
{
    match theme_override {
        ThemeOverride::Dark => Theme::Dark,
        ThemeOverride::Light => Theme::Light,
        ThemeOverride::Follow => match mode {
            ColorMode::Dark => Theme::Dark,
            _ => Theme::Light,
        },
    }
}

/// The override a requested theme sets (`None`: follow the system).
pub open spec fn override_for(theme: Option<Theme>) -> ThemeOverride {
    match theme {
        Some(Theme::Dark) => ThemeOverride::Dark,
        Some(Theme::Light) => ThemeOverride::Light,
        None => ThemeOverride::Follow,
    }
}

/// The color mode number the bridge expects for a requested theme:
/// Dark = 0, Light = 1, follow the system = 2.
pub open spec fn bridge_color_mode(theme: Option<Theme>) -> i32 {
    match theme {
        Some(Theme::Dark) => 0,
        Some(Theme::Light) => 1,
        None => 2,
    }
}

/// A lifecycle, window or input event of the ability, with the values the
/// dispatch decides on.
#[derive(Clone, Debug, PartialEq)]
pub enum MainEvent {
    SurfaceCreate,
    SurfaceDestroy,
    WindowResize { window_id: i64, width: i32, height: i32 },
    WindowRedraw,
    /// A window rect change: the outer rect, and the inner (drawable) size
    /// the application has for that window.
    ContentRectChange {
        window_id: i64,
        left: i32,
        top: i32,
        width: i32,
        height: i32,
        inner_width: i32,
        inner_height: i32,
    },
    GainedFocus,
    LostFocus,
    /// A configuration change: the content rect size and the system color mode.
    ConfigChanged { content_width: i32, content_height: i32, color_mode: ColorMode },
    Start,
    Resume,
    SaveState,
    Pause,
    WindowDestroy,
    Destroy,
    /// The cancellable request to terminate that precedes `Destroy`.
    PrepareToTerminate,
    NewWant { uri: String },
    Key(KeyInput),
    Mouse { action: MouseAction, button: OhosMouseButton },
    Axis(AxisInput),
    Touch { device_id: i64, event_type: TouchEventType, pointer_ids: Vec<i32> },
    Ime(ImeInput),
    /// Any event the dispatch ignores.
    Other,
}

/// A dispatched window rect: outer left and top, inner width and height.
pub type RectRecord = (i32, i32, i32, i32);

/// A rect change is degenerate when the outer or the inner rect is empty
/// (minimize and hide collapse to 0x0).
pub open spec fn rect_is_degenerate(
    width: i32,
    height: i32,
    inner_width: i32,
    inner_height: i32,
) -> bool {
    width <= 0 || height <= 0 || inner_width <= 0 || inner_height <= 0
}

/// The events of a window rect change, given the last dispatched rect of
/// that window: the first rect only reports its size; later ones report a
/// move when the position changed and a resize when the inner size changed;
/// degenerate rects report nothing.
pub open spec fn rect_change_events(
    window_id: i64,
    prev: Option<RectRecord>,
    left: i32,
    top: i32,
    degenerate: bool,
    inner_width: i32,
    inner_height: i32,
) -> Seq<Event> {
    let id = WindowId(window_id);
    let resized = Event::WindowEvent {
        window_id: id,
        event: WindowEvent::Resized { width: inner_width as u32, height: inner_height as u32 },
    };
    if degenerate {
        Seq::empty()
    } else {
        match prev {
            None => seq![resized],
            Some(p) => {
                let moved = if p.0 != left || p.1 != top {
                    seq![
                        Event::WindowEvent {
                            window_id: id,
                            event: WindowEvent::Moved { x: left, y: top },
                        },
                    ]
                } else {
                    Seq::empty()
                };
                let sized = if p.2 != inner_width || p.3 != inner_height {
                    seq![resized]
                } else {
                    Seq::empty()
                };
                moved + sized
            },
        }
    }
}

/// The windows a theme change is sent to: every live window, or the main
/// window when none is registered.
pub open spec fn theme_targets(live_windows: Seq<i64>) -> Seq<i64> {
    if live_windows.len() == 0 {
        seq![0i64]
    } else {
        live_windows
    }
}

/// `ThemeChanged(theme)` for each target window, in order.
pub open spec fn theme_events(targets: Seq<i64>, theme: Theme) -> Seq<Event> {
    Seq::new(
        targets.len(),
        |i: int| Event::WindowEvent { window_id: WindowId(targets[i]), event: WindowEvent::ThemeChanged(theme) },
    )
}

/// `CloseRequested` for each window whose close the system announced.
pub open spec fn close_events(closes: Seq<i32>) -> Seq<Event> {
    Seq::new(
        closes.len(),
        |i: int| Event::WindowEvent { window_id: WindowId(closes[i] as i64), event: WindowEvent::CloseRequested },
    )
}

/// The event-loop state the dispatch decides on.
pub struct EventLoopState {
    input: InputState,
    theme_override: ThemeOverride,
    last_effective_theme: Option<Theme>,
    last_rects: HashMap<i64, RectRecord>,
    exit: bool,
}

/// The events of a lifecycle or window event that needs no state (all
/// others are described with the dispatch).
pub open spec fn stateless_events(event: MainEvent) -> Seq<Event> {
    match event {
        MainEvent::SurfaceCreate => seq![Event::NewEventsInit, Event::Resumed],
        MainEvent::SurfaceDestroy => seq![Event::Suspended],
        MainEvent::WindowResize { window_id, width, height } => seq![
            Event::WindowEvent {
                window_id: WindowId(window_id),
                event: WindowEvent::Resized { width: width as u32, height: height as u32 },
            },
        ],
        MainEvent::WindowRedraw => seq![Event::RedrawRequested(main_window())],
        MainEvent::Start => seq![Event::Resumed],
        MainEvent::Resume => seq![Event::Resumed],
        MainEvent::WindowDestroy => seq![
            to_main(WindowEvent::CloseRequested),
            to_main(WindowEvent::Destroyed),
        ],
        MainEvent::Destroy => seq![Event::LoopDestroyed],
        MainEvent::PrepareToTerminate => seq![Event::PrepareToTerminate],
        _ => Seq::empty(),
    }
}

/// The event needs no state to dispatch.
pub open spec fn is_stateless(event: MainEvent) -> bool {
    match event {
        MainEvent::SurfaceCreate | MainEvent::SurfaceDestroy | MainEvent::WindowResize { .. }
        | MainEvent::WindowRedraw | MainEvent::Start | MainEvent::Resume | MainEvent::SaveState
        | MainEvent::Pause | MainEvent::WindowDestroy | MainEvent::Destroy
        | MainEvent::PrepareToTerminate | MainEvent::Other => true,
        _ => false,
    }
}

impl EventLoopState {
    pub closed spec fn input_state(&self) -> InputState {
        self.input
    }

    pub closed spec fn theme_override(&self) -> ThemeOverride {
        self.theme_override
    }

    /// The effective theme last announced with `ThemeChanged` (`None`
    /// before the first configuration change).
    pub closed spec fn last_theme(&self) -> Option<Theme> {
        self.last_effective_theme
    }

    /// The last dispatched rect of each window.
    pub closed spec fn rects(&self) -> Map<i64, RectRecord> {
        self.last_rects@
    }

    pub closed spec fn exit_requested(&self) -> bool {
        self.exit
    }

    /// Initial state: no input held, focused, following the system theme, no
    /// theme announced, no rect dispatched, no exit requested.
    pub fn new() -> (s: EventLoopState)
        ensures
            s.input_state().pressed() == Set::<i32>::empty(),
            s.input_state().held_modifiers() == ModifiersState::spec_empty(),
            s.input_state().focused(),
            s.theme_override() == ThemeOverride::Follow,
            s.last_theme() is None,
            s.rects() == Map::<i64, RectRecord>::empty(),
            !s.exit_requested(),
    {
        EventLoopState {
            input: InputState::new(),
            theme_override: ThemeOverride::Follow,
            last_effective_theme: None,
            last_rects: HashMap::new(),
            exit: false,
        }
    }

    /// Whether the application has focus.
    pub fn has_focus(&self) -> (b: bool)
        ensures
            b == self.input_state().focused(),
    {
        self.input.is_focused()
    }

    /// The held modifiers.
    pub fn current_modifiers(&self) -> (m: ModifiersState)
        ensures
            m == self.input_state().held_modifiers(),
    {
        self.input.current_modifiers()
    }

    /// The app-wide effective theme under the system color mode `mode`.
    pub fn theme(&self, mode: ColorMode) -> (theme: Theme)
        ensures
            theme == spec_effective_theme(self.theme_override(), mode),
    {
        effective_theme(self.theme_override, mode)
    }

    /// Sets the app-wide theme override (`None`: follow the system) and
    /// returns the color mode number to push to the system.
    pub fn set_theme(&mut self, theme: Option<Theme>) -> (mode: i32)
        ensures
            final(self).theme_override() == override_for(theme),
            mode == bridge_color_mode(theme),
            final(self).input_state() == old(self).input_state(),
            final(self).last_theme() == old(self).last_theme(),
            final(self).rects() == old(self).rects(),
            final(self).exit_requested() == old(self).exit_requested(),
    {
        match theme {
            Some(Theme::Dark) => {
                self.theme_override = ThemeOverride::Dark;
                0
            },
            Some(Theme::Light) => {
                self.theme_override = ThemeOverride::Light;
                1
            },
            None => {
                self.theme_override = ThemeOverride::Follow;
                2
            },
        }
    }

    /// Records that the application's handler asked to exit.
    pub fn request_exit(&mut self)
        ensures
            final(self).exit_requested(),
            final(self).input_state() == old(self).input_state(),
            final(self).theme_override() == old(self).theme_override(),
            final(self).last_theme() == old(self).last_theme(),
            final(self).rects() == old(self).rects(),
    {
        self.exit = true;
    }

    /// After a dispatch: `LoopDestroyed` when exit was requested (the ability
    /// is then terminated with code 0), nothing otherwise.
    pub fn exit_events(&self) -> (events: Vec<Event>)
        ensures
            events@ == (if self.exit_requested() {
                seq![Event::LoopDestroyed]
            } else {
                Seq::<Event>::empty()
            }),
    {
        let mut events: Vec<Event> = Vec::new();
        if self.exit {
            events.push(Event::LoopDestroyed);
        }
        proof {
            if self.exit_requested() {
                assert(events@ =~= seq![Event::LoopDestroyed]);
            } else {
                assert(events@ =~= Seq::<Event>::empty());
            }
        }
        events
    }

    /// Ends a dispatch, after every event of it reached the application's
    /// handler: an exit the handler asked for during this dispatch
    /// (`handler_exit`) is recorded; then, when exit was requested,
    /// `LoopDestroyed` is the last event and the ability is to be terminated
    /// (with code 0), which the second component says.
    pub fn end_dispatch(&mut self, handler_exit: bool) -> (r: (Vec<Event>, bool))
        ensures
            final(self).exit_requested() == (old(self).exit_requested() || handler_exit),
            final(self).input_state() == old(self).input_state(),
            final(self).theme_override() == old(self).theme_override(),
            final(self).last_theme() == old(self).last_theme(),
            final(self).rects() == old(self).rects(),
            r.0@ == (if final(self).exit_requested() {
                seq![Event::LoopDestroyed]
            } else {
                Seq::<Event>::empty()
            }),
            r.1 == final(self).exit_requested(),
    {
        if handler_exit {
            self.request_exit();
        }
        let events = self.exit_events();
        (events, self.exit)
    }

    /// Forgets the last dispatched rect of a window (the window was dropped).
    pub fn forget_window(&mut self, window_id: i64)
        ensures
            final(self).rects() == old(self).rects().remove(window_id),
            final(self).input_state() == old(self).input_state(),
            final(self).theme_override() == old(self).theme_override(),
            final(self).last_theme() == old(self).last_theme(),
            final(self).exit_requested() == old(self).exit_requested(),
    {
        self.last_rects.remove(&window_id);
    }

    /// A window rect change: splits it into `Moved` and `Resized` against the
    /// window's last dispatched rect, and records the new rect (also a
    /// degenerate one).
    pub fn handle_rect_change(
        &mut self,
        window_id: i64,
        left: i32,
        top: i32,
        width: i32,
        height: i32,
        inner_width: i32,
        inner_height: i32,
    ) -> (events: Vec<Event>)
        ensures
            final(self).rects() == old(self).rects().insert(
                window_id,
                (left, top, inner_width, inner_height),
            ),
            events@ == rect_change_events(
                window_id,
                if old(self).rects().contains_key(window_id) {
                    Some(old(self).rects()[window_id])
                } else {
                    None
                },
                left,
                top,
                rect_is_degenerate(width, height, inner_width, inner_height),
                inner_width,
                inner_height,
            ),
            final(self).input_state() == old(self).input_state(),
            final(self).theme_override() == old(self).theme_override(),
            final(self).last_theme() == old(self).last_theme(),
            final(self).exit_requested() == old(self).exit_requested(),
    {
        let degenerate = width <= 0 || height <= 0 || inner_width <= 0 || inner_height <= 0;
        let prev = self.last_rects.insert(window_id, (left, top, inner_width, inner_height));
        let id = WindowId(window_id);
        let mut events: Vec<Event> = Vec::new();
        if !degenerate {
            match prev {
                None => {
                    events.push(
                        Event::WindowEvent {
                            window_id: id,
                            event: WindowEvent::Resized {
                                width: inner_width as u32,
                                height: inner_height as u32,
                            },
                        },
                    );
                },
                Some((prev_left, prev_top, prev_width, prev_height)) => {
                    if prev_left != left || prev_top != top {
                        events.push(
                            Event::WindowEvent {
                                window_id: id,
                                event: WindowEvent::Moved { x: left, y: top },
                            },
                        );
                    }
                    if prev_width != inner_width || prev_height != inner_height {
                        events.push(
                            Event::WindowEvent {
                                window_id: id,
                                event: WindowEvent::Resized {
                                    width: inner_width as u32,
                                    height: inner_height as u32,
                                },
                            },
                        );
                    }
                },
            }
        }
        proof {
            let p = if old(self).rects().contains_key(window_id) {
                Some(old(self).rects()[window_id])
            } else {
                None
            };
            assert(events@ =~= rect_change_events(
                window_id,
                p,
                left,
                top,
                degenerate,
                inner_width,
                inner_height,
            ));
        }
        events
    }

    /// A configuration change: `ScaleFactorChanged` with the content size for
    /// the main window, then `ThemeChanged` to every live window (the main
    /// window when none is registered) when the effective theme differs from
    /// the last one announced; the first change always announces.
    pub fn handle_config_changed(
        &mut self,
        content_width: i32,
        content_height: i32,
        color_mode: ColorMode,
        live_windows: &Vec<i64>,
    ) -> (events: Vec<Event>)
        ensures
            final(self).last_theme() == Some(
                spec_effective_theme(old(self).theme_override(), color_mode),
            ),
            events@ == seq![
                to_main(
                    WindowEvent::ScaleFactorChanged {
                        width: content_width as u32,
                        height: content_height as u32,
                    },
                ),
            ] + (if old(self).last_theme() == Some(
                spec_effective_theme(old(self).theme_override(), color_mode),
            ) {
                Seq::<Event>::empty()
            } else {
                theme_events(
                    theme_targets(live_windows@),
                    spec_effective_theme(old(self).theme_override(), color_mode),
                )
            }),
            final(self).input_state() == old(self).input_state(),
            final(self).theme_override() == old(self).theme_override(),
            final(self).rects() == old(self).rects(),
            final(self).exit_requested() == old(self).exit_requested(),
    {
        let mut events: Vec<Event> = Vec::new();
        events.push(
            Event::WindowEvent {
                window_id: WindowId(0),
                event: WindowEvent::ScaleFactorChanged {
                    width: content_width as u32,
                    height: content_height as u32,
                },
            },
        );
        let theme = effective_theme(self.theme_override, color_mode);
        let prev = self.last_effective_theme;
        self.last_effective_theme = Some(theme);
        let changed = match prev {
            Some(Theme::Dark) => theme != Theme::Dark,
            Some(Theme::Light) => theme != Theme::Light,
            None => true,
        };
        let ghost head = events@;
        if changed {
            let n = if live_windows.len() == 0 {
                1
            } else {
                live_windows.len()
            };
            let ghost targets = theme_targets(live_windows@);
            let mut i: usize = 0;
            while i < n
                invariant
                    n == targets.len(),
                    targets == theme_targets(live_windows@),
                    i <= n,
                    events@ == head + theme_events(targets, theme).take(i as int),
                decreases n - i,
            {
                let wid = if live_windows.len() == 0 {
                    0i64
                } else {
                    live_windows[i]
                };
                events.push(
                    Event::WindowEvent {
                        window_id: WindowId(wid),
                        event: WindowEvent::ThemeChanged(theme),
                    },
                );
                proof {
                    assert(theme_events(targets, theme).take(i + 1) =~= theme_events(
                        targets,
                        theme,
                    ).take(i as int).push(
                        Event::WindowEvent {
                            window_id: WindowId(wid),
                            event: WindowEvent::ThemeChanged(theme),
                        },
                    ));
                }
                i = i + 1;
            }
            proof {
                assert(theme_events(targets, theme).take(n as int) =~= theme_events(targets, theme));
            }
        }
        proof {
            if !changed {
                assert(events@ =~= head);
            }
        }
        events
    }

    /// `CloseRequested` for each window the system announced closing.
    pub fn close_requests(closes: &Vec<i32>) -> (events: Vec<Event>)
        ensures
            events@ == close_events(closes@),
    {
        let mut events: Vec<Event> = Vec::new();
        let mut i: usize = 0;
        while i < closes.len()
            invariant
                i <= closes@.len(),
                events@ == close_events(closes@).take(i as int),
            decreases closes@.len() - i,
        {
            events.push(
                Event::WindowEvent {
                    window_id: WindowId(closes[i] as i64),
                    event: WindowEvent::CloseRequested,
                },
            );
            proof {
                assert(close_events(closes@).take(i + 1) =~= close_events(closes@).take(
                    i as int,
                ).push(
                    Event::WindowEvent {
                        window_id: WindowId(closes@[i as int] as i64),
                        event: WindowEvent::CloseRequested,
                    },
                ));
            }
            i = i + 1;
        }
        proof {
            assert(close_events(closes@).take(closes@.len() as int) =~= close_events(closes@));
        }
        events
    }
}

/// What dispatching `event` does (after the announced closes): the events it
/// emits and how the state changes.
pub open spec fn dispatched(
    pre: EventLoopState,
    post: EventLoopState,
    event: MainEvent,
    live_windows: Seq<i64>,
    events: Seq<Event>,
) -> bool {
    let same_input = post.input_state().pressed() == pre.input_state().pressed()
        && post.input_state().held_modifiers() == pre.input_state().held_modifiers()
        && post.input_state().focused() == pre.input_state().focused();
    let same_loop = post.theme_override() == pre.theme_override() && post.last_theme()
        == pre.last_theme() && post.rects() == pre.rects() && post.exit_requested()
        == pre.exit_requested();
    match event {
        MainEvent::ContentRectChange {
            window_id,
            left,
            top,
            width,
            height,
            inner_width,
            inner_height,
        } => {
            &&& same_input
            &&& post.theme_override() == pre.theme_override()
            &&& post.last_theme() == pre.last_theme()
            &&& post.exit_requested() == pre.exit_requested()
            &&& post.rects() == pre.rects().insert(
                window_id,
                (left, top, inner_width, inner_height),
            )
            &&& events == rect_change_events(
                window_id,
                if pre.rects().contains_key(window_id) {
                    Some(pre.rects()[window_id])
                } else {
                    None
                },
                left,
                top,
                rect_is_degenerate(width, height, inner_width, inner_height),
                inner_width,
                inner_height,
            )
        },
        MainEvent::ConfigChanged { content_width, content_height, color_mode } => {
            let theme = spec_effective_theme(pre.theme_override(), color_mode);
            &&& same_input
            &&& post.theme_override() == pre.theme_override()
            &&& post.rects() == pre.rects()
            &&& post.exit_requested() == pre.exit_requested()
            &&& post.last_theme() == Some(theme)
            &&& events == seq![
                to_main(
                    WindowEvent::ScaleFactorChanged {
                        width: content_width as u32,
                        height: content_height as u32,
                    },
                ),
            ] + (if pre.last_theme() == Some(theme) {
                Seq::<Event>::empty()
            } else {
                theme_events(theme_targets(live_windows), theme)
            })
        },
        MainEvent::GainedFocus => {
            &&& same_loop
            &&& post.input_state().focused()
            &&& post.input_state().held_modifiers() == ModifiersState::spec_empty()
            &&& post.input_state().pressed() == pre.input_state().pressed()
            &&& events == gained_focus_events(pre.input_state().held_modifiers())
        },
        MainEvent::LostFocus => {
            &&& same_loop
            &&& !post.input_state().focused()
            &&& post.input_state().held_modifiers() == pre.input_state().held_modifiers()
            &&& post.input_state().pressed() == pre.input_state().pressed()
            &&& events == seq![to_main(WindowEvent::Focused(false))]
        },
        MainEvent::NewWant { uri } => {
            &&& same_input
            &&& same_loop
            &&& events.len() == 1
            &&& is_opened_with(events[0], want_urls(uri@))
        },
        MainEvent::Key(key) => {
            &&& same_loop
            &&& post.input_state().pressed() == pressed_after(pre.input_state().pressed(), key)
            &&& post.input_state().held_modifiers() == modifiers_after(
                pre.input_state().held_modifiers(),
                key,
            )
            &&& post.input_state().focused() == pre.input_state().focused()
            &&& events == key_events(
                pre.input_state().pressed(),
                pre.input_state().held_modifiers(),
                key,
            )
        },
        MainEvent::Mouse { action, button } => {
            &&& same_input
            &&& same_loop
            &&& events == mouse_events(pre.input_state().held_modifiers(), action, button)
        },
        MainEvent::Axis(axis) => {
            &&& same_input
            &&& same_loop
            &&& events == axis_events(pre.input_state().held_modifiers(), axis)
        },
        MainEvent::Touch { device_id, event_type, pointer_ids } => {
            &&& same_input
            &&& same_loop
            &&& match touch_phase_of(event_type) {
                None => events.len() == 0,
                Some(phase) => events.len() == pointer_ids@.len() && forall|i: int|
                    0 <= i < events.len() ==> #[trigger] events[i] == touch_event_of(
                        device_id,
                        phase,
                        pointer_ids@,
                        i,
                    ),
            }
        },
        MainEvent::Ime(ime) => {
            &&& same_input
            &&& same_loop
            &&& events == ime_events(ime)
        },
        _ => {
            &&& same_input
            &&& same_loop
            &&& events == stateless_events(event)
        },
    }
}

impl EventLoopState {
    /// Dispatches one event of the ability: first `CloseRequested` for each
    /// window whose close the system announced since the last dispatch (the
    /// announcement precedes the window's asynchronous destruction), then the
    /// events of `event` itself (see [`dispatched`]). Input is routed to the
    /// main window; a theme change goes to `live_windows`.
    pub fn handle_main_event(
        &mut self,
        closes: &Vec<i32>,
        live_windows: &Vec<i64>,
        event: MainEvent,
    ) -> (events: Vec<Event>)
        ensures
            events@.len() >= closes@.len(),
            events@.take(closes@.len() as int) == close_events(closes@),
            dispatched(
                *old(self),
                *final(self),
                event,
                live_windows@,
                events@.skip(closes@.len() as int),
            ),
    {
        let ghost ev = event;
        let mut events = EventLoopState::close_requests(closes);
        let ghost head = events@;
        let mut tail: Vec<Event> = match event {
            MainEvent::SurfaceCreate => {
                let mut v: Vec<Event> = Vec::new();
                v.push(Event::NewEventsInit);
                v.push(Event::Resumed);
                v
            },
            MainEvent::SurfaceDestroy => {
                let mut v: Vec<Event> = Vec::new();
                v.push(Event::Suspended);
                v
            },
            MainEvent::WindowResize { window_id, width, height } => {
                let mut v: Vec<Event> = Vec::new();
                v.push(
                    Event::WindowEvent {
                        window_id: WindowId(window_id),
                        event: WindowEvent::Resized { width: width as u32, height: height as u32 },
                    },
                );
                v
            },
            MainEvent::WindowRedraw => {
                let mut v: Vec<Event> = Vec::new();
                v.push(Event::RedrawRequested(WindowId(0)));
                v
            },
            MainEvent::ContentRectChange {
                window_id,
                left,
                top,
                width,
                height,
                inner_width,
                inner_height,
            } => self.handle_rect_change(
                window_id,
                left,
                top,
                width,
                height,
                inner_width,
                inner_height,
            ),
            MainEvent::GainedFocus => self.input.handle_gained_focus(),
            MainEvent::LostFocus => self.input.handle_lost_focus(),
            MainEvent::ConfigChanged { content_width, content_height, color_mode } => {
                self.handle_config_changed(content_width, content_height, color_mode, live_windows)
            },
            MainEvent::Start => {
                let mut v: Vec<Event> = Vec::new();
                v.push(Event::Resumed);
                v
            },
            MainEvent::Resume => {
                let mut v: Vec<Event> = Vec::new();
                v.push(Event::Resumed);
                v
            },
            MainEvent::WindowDestroy => {
                let mut v: Vec<Event> = Vec::new();
                v.push(
                    Event::WindowEvent { window_id: WindowId(0), event: WindowEvent::CloseRequested },
                );
                v.push(Event::WindowEvent { window_id: WindowId(0), event: WindowEvent::Destroyed });
                v
            },
            MainEvent::Destroy => {
                let mut v: Vec<Event> = Vec::new();
                v.push(Event::LoopDestroyed);
                v
            },
            MainEvent::PrepareToTerminate => {
                let mut v: Vec<Event> = Vec::new();
                v.push(Event::PrepareToTerminate);
                v
            },
            MainEvent::NewWant { uri } => {
                let mut v: Vec<Event> = Vec::new();
                v.push(opened_event(uri.as_str()));
                v
            },
            MainEvent::Key(key) => self.input.handle_key_event(key),
            MainEvent::Mouse { action, button } => self.input.handle_mouse_event(action, button),
            MainEvent::Axis(axis) => self.input.handle_axis_event(axis),
            MainEvent::Touch { device_id, event_type, pointer_ids } => {
                crate::input::handle_touch_event(device_id, event_type, &pointer_ids)
            },
            MainEvent::Ime(ime) => crate::input::handle_ime_event(ime),
            MainEvent::SaveState | MainEvent::Pause | MainEvent::Other => Vec::new(),
        };
        let ghost t = tail@;
        events.append(&mut tail);
        proof {
            assert(events@ =~= head + t);
            assert(events@.take(closes@.len() as int) =~= head);
            assert(events@.skip(closes@.len() as int) =~= t);
            match ev {
                MainEvent::SurfaceCreate => assert(t =~= stateless_events(event)),
                MainEvent::SurfaceDestroy => assert(t =~= stateless_events(event)),
                MainEvent::WindowResize { .. } => assert(t =~= stateless_events(event)),
                MainEvent::WindowRedraw => assert(t =~= stateless_events(event)),
                MainEvent::Start => assert(t =~= stateless_events(event)),
                MainEvent::Resume => assert(t =~= stateless_events(event)),
                MainEvent::WindowDestroy => assert(t =~= stateless_events(event)),
                MainEvent::Destroy => assert(t =~= stateless_events(event)),
                MainEvent::PrepareToTerminate => assert(t =~= stateless_events(event)),
                MainEvent::SaveState => assert(t =~= stateless_events(event)),
                MainEvent::Pause => assert(t =~= stateless_events(event)),
                MainEvent::Other => assert(t =~= stateless_events(event)),
                _ => {},
            }
        }
        events
    }
}

/// An explicit theme wins over the system color mode; without one the
/// system decides (`Light` unless it is dark): what `set_theme` writes is
/// what `theme` reads.
pub proof fn lemma_theme_reads_back(theme: Option<Theme>, mode: ColorMode)
    ensures
        theme matches Some(t) ==> spec_effective_theme(override_for(theme), mode) == t,
        theme is None ==> spec_effective_theme(override_for(theme), mode) == (if mode
            == ColorMode::Dark {
            Theme::Dark
        } else {
            Theme::Light
        }),
{
}

/// The first configuration change announces the theme; a later one with an
/// unchanged effective theme announces nothing but the scale factor.
pub proof fn lemma_theme_announced_on_change_only(
    s0: EventLoopState,
    s1: EventLoopState,
    s2: EventLoopState,
    first: MainEvent,
    second: MainEvent,
    live_windows: Seq<i64>,
    e1: Seq<Event>,
    e2: Seq<Event>,
)
    requires
        first matches MainEvent::ConfigChanged { color_mode: m1, .. },
        second matches MainEvent::ConfigChanged { color_mode: m2, .. },
        dispatched(s0, s1, first, live_windows, e1),
        dispatched(s1, s2, second, live_windows, e2),
    ensures
        s0.last_theme() is None ==> e1.len() == 1 + theme_targets(live_windows).len(),
        ({
            let (m1, m2) = (first->color_mode, second->color_mode);
            spec_effective_theme(s0.theme_override(), m1) == spec_effective_theme(
                s1.theme_override(),
                m2,
            ) ==> e2.len() == 1
        }),
{
}

/// A window rect change is recorded: the window's last dispatched rect is
/// the new outer position with the new inner size.
pub proof fn lemma_rect_recorded(
    pre: EventLoopState,
    post: EventLoopState,
    event: MainEvent,
    live_windows: Seq<i64>,
    events: Seq<Event>,
)
    requires
        event is ContentRectChange,
        dispatched(pre, post, event, live_windows, events),
    ensures
        post.rects().contains_key(event->ContentRectChange_window_id),
        post.rects()[event->ContentRectChange_window_id] == (
            event->ContentRectChange_left,
            event->ContentRectChange_top,
            event->ContentRectChange_inner_width,
            event->ContentRectChange_inner_height,
        ),
{
}

/// Dispatching the same rect change twice: the second reports nothing.
pub proof fn lemma_rect_change_idempotent(
    s0: EventLoopState,
    s1: EventLoopState,
    s2: EventLoopState,
    event: MainEvent,
    live_windows: Seq<i64>,
    e1: Seq<Event>,
    e2: Seq<Event>,
)
    requires
        event is ContentRectChange,
        dispatched(s0, s1, event, live_windows, e1),
        dispatched(s1, s2, event, live_windows, e2),
    ensures
        e2.len() == 0,
{
}

/// A degenerate rect change (outer or inner rect empty) reports nothing.
pub proof fn lemma_degenerate_rect_silent(
    pre: EventLoopState,
    post: EventLoopState,
    event: MainEvent,
    live_windows: Seq<i64>,
    events: Seq<Event>,
)
    requires
        event matches MainEvent::ContentRectChange {
            width,
            height,
            inner_width,
            inner_height,
            ..
        } && rect_is_degenerate(width, height, inner_width, inner_height),
        dispatched(pre, post, event, live_windows, events),
    ensures
        events.len() == 0,
{
}

/// A rect change of a known window that only moves it reports exactly
/// `Moved`; one that only resizes it reports exactly `Resized`.
pub proof fn lemma_rect_move_and_resize_split(
    pre: EventLoopState,
    post: EventLoopState,
    event: MainEvent,
    live_windows: Seq<i64>,
    events: Seq<Event>,
)
    requires
        event matches MainEvent::ContentRectChange {
            window_id,
            width,
            height,
            inner_width,
            inner_height,
            ..
        } && !rect_is_degenerate(width, height, inner_width, inner_height)
            && pre.rects().contains_key(window_id),
        dispatched(pre, post, event, live_windows, events),
    ensures
        ({
            let id = event->ContentRectChange_window_id;
            let p = pre.rects()[id];
            let (l, t) = (event->ContentRectChange_left, event->ContentRectChange_top);
            let (w, h) = (event->ContentRectChange_inner_width, event->ContentRectChange_inner_height);
            &&& (p.2 == w && p.3 == h && (p.0 != l || p.1 != t)) ==> events == seq![
                Event::WindowEvent { window_id: WindowId(id), event: WindowEvent::Moved { x: l, y: t } },
            ]
            &&& (p.0 == l && p.1 == t && (p.2 != w || p.3 != h)) ==> events == seq![
                Event::WindowEvent {
                    window_id: WindowId(id),
                    event: WindowEvent::Resized { width: w as u32, height: h as u32 },
                },
            ]
        }),
{
    let id = event->ContentRectChange_window_id;
    let p = pre.rects()[id];
    let (l, t) = (event->ContentRectChange_left, event->ContentRectChange_top);
    let (w, h) = (event->ContentRectChange_inner_width, event->ContentRectChange_inner_height);
    if p.2 == w && p.3 == h && (p.0 != l || p.1 != t) {
        assert(events =~= seq![
            Event::WindowEvent { window_id: WindowId(id), event: WindowEvent::Moved { x: l, y: t } },
        ]);
    }
    if p.0 == l && p.1 == t && (p.2 != w || p.3 != h) {
        assert(events =~= seq![
            Event::WindowEvent {
                window_id: WindowId(id),
                event: WindowEvent::Resized { width: w as u32, height: h as u32 },
            },
        ]);
    }
}

} // verus!
