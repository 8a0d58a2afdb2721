use tao_ohos::event::{DeviceId, Event, Theme, WindowEvent, WindowId};
use tao_ohos::event_loop::{effective_theme, ColorMode, EventLoopState, MainEvent, ThemeOverride};
use tao_ohos::input::{KeyAction, KeyInput};
use tao_ohos::keyboard::ModifiersState;
use tao_ohos::keycodes::{KEY_CTRL_LEFT, KEY_SHIFT_LEFT};
use tao_ohos::want::{opened_event, opened_event_of};

fn main_event(s: &mut EventLoopState, e: MainEvent) -> Vec<Event> {
    s.handle_main_event(&vec![], &vec![], e)
}

fn window_event(id: i64, event: WindowEvent) -> Event {
    Event::WindowEvent { window_id: WindowId(id), event }
}

#[test]
fn dummy_ids_are_zero() {
    assert_eq!(DeviceId::dummy(), DeviceId(0));
    assert_eq!(WindowId::dummy(), WindowId(0));
    assert_eq!(u64::from(WindowId(7)), 7);
    assert_eq!(WindowId::from(9u64), WindowId(9));
    assert_eq!(u64::from(WindowId(-1)), u64::MAX);
    assert_eq!(WindowId::from(u64::from(WindowId(-3))), WindowId(-3));
}

#[test]
fn lifecycle_events() {
    let mut s = EventLoopState::new();
    assert_eq!(main_event(&mut s, MainEvent::SurfaceCreate), vec![Event::NewEventsInit, Event::Resumed]);
    assert_eq!(main_event(&mut s, MainEvent::SurfaceDestroy), vec![Event::Suspended]);
    assert_eq!(main_event(&mut s, MainEvent::Start), vec![Event::Resumed]);
    assert_eq!(main_event(&mut s, MainEvent::Resume), vec![Event::Resumed]);
    assert_eq!(main_event(&mut s, MainEvent::Pause), vec![]);
    assert_eq!(main_event(&mut s, MainEvent::SaveState), vec![]);
    assert_eq!(main_event(&mut s, MainEvent::WindowRedraw), vec![Event::RedrawRequested(WindowId(0))]);
    assert_eq!(
        main_event(&mut s, MainEvent::WindowResize { window_id: 3, width: 640, height: 480 }),
        vec![window_event(3, WindowEvent::Resized { width: 640, height: 480 })]
    );
    assert_eq!(
        main_event(&mut s, MainEvent::WindowDestroy),
        vec![window_event(0, WindowEvent::CloseRequested), window_event(0, WindowEvent::Destroyed)]
    );
    assert_eq!(main_event(&mut s, MainEvent::Destroy), vec![Event::LoopDestroyed]);
}

#[test]
fn announced_closes_come_first() {
    let mut s = EventLoopState::new();
    let evs = s.handle_main_event(&vec![2, 5], &vec![], MainEvent::Resume);
    assert_eq!(
        evs,
        vec![
            window_event(2, WindowEvent::CloseRequested),
            window_event(5, WindowEvent::CloseRequested),
            Event::Resumed,
        ]
    );
}

fn rect(s: &mut EventLoopState, id: i64, left: i32, top: i32, w: i32, h: i32) -> Vec<Event> {
    main_event(
        s,
        MainEvent::ContentRectChange {
            window_id: id,
            left,
            top,
            width: w + 10,
            height: h + 40,
            inner_width: w,
            inner_height: h,
        },
    )
}

#[test]
fn rect_changes_report_moves_and_resizes() {
    let mut s = EventLoopState::new();
    // The first rect of a window reports only its size.
    assert_eq!(rect(&mut s, 1, 10, 20, 300, 200), vec![window_event(1, WindowEvent::Resized { width: 300, height: 200 })]);
    // The same rect again reports nothing.
    assert_eq!(rect(&mut s, 1, 10, 20, 300, 200), vec![]);
    // A move alone.
    assert_eq!(rect(&mut s, 1, 15, 20, 300, 200), vec![window_event(1, WindowEvent::Moved { x: 15, y: 20 })]);
    // A move and a resize: the move first.
    assert_eq!(
        rect(&mut s, 1, 0, 0, 320, 240),
        vec![
            window_event(1, WindowEvent::Moved { x: 0, y: 0 }),
            window_event(1, WindowEvent::Resized { width: 320, height: 240 }),
        ]
    );
    // A degenerate (minimized) rect reports nothing.
    assert_eq!(rect(&mut s, 1, 0, 0, 0, 0), vec![]);
    // Forgetting a window makes its next rect a first one.
    s.forget_window(1);
    assert_eq!(rect(&mut s, 1, 0, 0, 320, 240), vec![window_event(1, WindowEvent::Resized { width: 320, height: 240 })]);
}

#[test]
fn config_change_announces_theme_once() {
    let mut s = EventLoopState::new();
    let change = |s: &mut EventLoopState, mode: ColorMode, live: Vec<i64>| {
        s.handle_main_event(
            &vec![],
            &live,
            MainEvent::ConfigChanged { content_width: 1080, content_height: 2000, color_mode: mode },
        )
    };
    let scale = window_event(0, WindowEvent::ScaleFactorChanged { width: 1080, height: 2000 });
    assert_eq!(
        change(&mut s, ColorMode::Dark, vec![]),
        vec![scale.clone(), window_event(0, WindowEvent::ThemeChanged(Theme::Dark))]
    );
    assert_eq!(change(&mut s, ColorMode::Dark, vec![0, 4]), vec![scale.clone()]);
    assert_eq!(
        change(&mut s, ColorMode::Light, vec![0, 4]),
        vec![
            scale.clone(),
            window_event(0, WindowEvent::ThemeChanged(Theme::Light)),
            window_event(4, WindowEvent::ThemeChanged(Theme::Light)),
        ]
    );
    // An explicit theme wins over the system mode.
    assert_eq!(s.set_theme(Some(Theme::Dark)), 0);
    assert_eq!(s.theme(ColorMode::Light), Theme::Dark);
    assert_eq!(
        change(&mut s, ColorMode::Light, vec![]),
        vec![scale.clone(), window_event(0, WindowEvent::ThemeChanged(Theme::Dark))]
    );
    assert_eq!(s.set_theme(Some(Theme::Light)), 1);
    assert_eq!(s.set_theme(None), 2);
    assert_eq!(s.theme(ColorMode::NoSet), Theme::Light);
    assert_eq!(s.theme(ColorMode::Dark), Theme::Dark);
}

#[test]
fn effective_theme_rules() {
    assert_eq!(effective_theme(ThemeOverride::Follow, ColorMode::Dark), Theme::Dark);
    assert_eq!(effective_theme(ThemeOverride::Follow, ColorMode::Light), Theme::Light);
    assert_eq!(effective_theme(ThemeOverride::Follow, ColorMode::NoSet), Theme::Light);
    assert_eq!(effective_theme(ThemeOverride::Light, ColorMode::Dark), Theme::Light);
    assert_eq!(effective_theme(ThemeOverride::Dark, ColorMode::Light), Theme::Dark);
}

#[test]
fn focus_events_and_modifiers() {
    let mut s = EventLoopState::new();
    assert!(s.has_focus());
    main_event(&mut s, MainEvent::Key(KeyInput { code: KEY_SHIFT_LEFT, action: KeyAction::Down, device_id: 0 }));
    assert_eq!(s.current_modifiers(), ModifiersState { shift: true, control: false, alt: false, super_key: false });
    assert_eq!(main_event(&mut s, MainEvent::LostFocus), vec![window_event(0, WindowEvent::Focused(false))]);
    assert!(!s.has_focus());
    assert_eq!(
        main_event(&mut s, MainEvent::GainedFocus),
        vec![
            window_event(0, WindowEvent::ModifiersChanged(ModifiersState::empty())),
            window_event(0, WindowEvent::Focused(true)),
        ]
    );
    assert!(s.has_focus());
    assert!(s.current_modifiers().is_empty());
}

#[test]
fn modifier_press_then_release_restores_modifiers() {
    let mut s = EventLoopState::new();
    let before = s.current_modifiers();
    let down = main_event(&mut s, MainEvent::Key(KeyInput { code: KEY_CTRL_LEFT, action: KeyAction::Down, device_id: 0 }));
    assert_eq!(down.len(), 2);
    let up = main_event(&mut s, MainEvent::Key(KeyInput { code: KEY_CTRL_LEFT, action: KeyAction::Up, device_id: 0 }));
    assert_eq!(up.len(), 2);
    assert_eq!(s.current_modifiers(), before);
}

#[test]
fn handler_exit_ends_the_same_dispatch() {
    let mut s = EventLoopState::new();
    let (evs, terminate) = s.end_dispatch(false);
    assert!(evs.is_empty() && !terminate);
    let (evs, terminate) = s.end_dispatch(true);
    assert_eq!(evs, vec![Event::LoopDestroyed]);
    assert!(terminate);
    // The request stays.
    let (evs, terminate) = s.end_dispatch(false);
    assert_eq!(evs, vec![Event::LoopDestroyed]);
    assert!(terminate);
}

#[test]
fn prepare_to_terminate_is_forwarded() {
    let mut s = EventLoopState::new();
    assert_eq!(main_event(&mut s, MainEvent::PrepareToTerminate), vec![Event::PrepareToTerminate]);
}

#[test]
fn exit_request_ends_the_loop() {
    let mut s = EventLoopState::new();
    assert_eq!(s.exit_events(), vec![]);
    s.request_exit();
    assert_eq!(s.exit_events(), vec![Event::LoopDestroyed]);
}

#[test]
fn relaunch_lists_the_parsed_url() {
    // The parser normalizes: the URL's serialized form gets a trailing slash.
    assert_eq!(
        opened_event("https://example.com"),
        Event::Opened { urls: vec!["https://example.com/".to_string()] }
    );
    assert_eq!(opened_event("not a url"), Event::Opened { urls: vec![] });
    assert_eq!(opened_event(""), Event::Opened { urls: vec![] });
    assert_eq!(
        opened_event_of(Some("app://x".to_string())),
        Event::Opened { urls: vec!["app://x".to_string()] }
    );
    assert_eq!(opened_event_of(None), Event::Opened { urls: vec![] });
    let mut s = EventLoopState::new();
    assert_eq!(
        main_event(&mut s, MainEvent::NewWant { uri: "myapp://open?x=1".to_string() }),
        vec![Event::Opened { urls: vec!["myapp://open?x=1".to_string()] }]
    );
}
