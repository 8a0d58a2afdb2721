use tao_ohos::event::WindowId;
use tao_ohos::keyboard::{KeyCode, NativeKeyCode};
use tao_ohos::window::{
    create_request, float_window_params, inner_size_of, keycode_from_scancode, keycode_to_scancode,
    ohos_pointer_style, outer_size_of, resolve_window_kind, rgba_to_ohos_color, CursorIcon,
    ExternalError, Fullscreen, OHOSWindowKind, OsError, PlatformSpecificWindowBuilderAttributes,
    ResizeDirection, Window, WindowAttributes, WindowOp, WindowStateMirror, WindowStatus,
    FLAG_ALL_DECORATIONS, WINDOW_TYPE_FLOAT,
};

#[test]
fn rgba_to_ohos_color_transparent_returns_transparent_black() {
    assert_eq!(rgba_to_ohos_color(true, None), Some(0x00000000));
    assert_eq!(rgba_to_ohos_color(true, Some((255, 0, 0, 255))), Some(0x00000000));
}

#[test]
fn rgba_to_ohos_color_none_bg_returns_none() {
    assert_eq!(rgba_to_ohos_color(false, None), None);
}

#[test]
fn rgba_to_ohos_color_packs_argb() {
    assert_eq!(rgba_to_ohos_color(false, Some((255, 128, 0, 200))), Some(0xC8FF8000));
}

#[test]
fn rgba_to_ohos_color_opaque_white() {
    assert_eq!(rgba_to_ohos_color(false, Some((255, 255, 255, 255))), Some(0xFFFFFFFF));
}

#[test]
fn rgba_to_ohos_color_zero_alpha() {
    assert_eq!(rgba_to_ohos_color(false, Some((0, 0, 0, 0))), Some(0x00000000));
}

#[test]
fn os_error_display_writes_message() {
    assert_eq!(OsError.to_string(), "OpenHarmony OS Error");
    assert_eq!(format!("{:?}", OsError), "OsError");
}

fn attrs() -> WindowAttributes {
    WindowAttributes {
        decorations: true,
        transparent: false,
        content_protection: false,
        min_width: None,
        min_height: None,
        max_width: None,
        max_height: None,
    }
}

fn main_window() -> Window {
    Window::initial(OHOSWindowKind::UIAbility, Some(0), true, attrs(), 20).0
}

fn float_window(id: i64) -> Window {
    Window::initial(OHOSWindowKind::Float, Some(id), true, attrs(), 20).0
}

#[test]
fn color_packs_each_component_in_place() {
    assert_eq!(rgba_to_ohos_color(false, Some((0x12, 0x34, 0x56, 0x78))), Some(0x78123456));
}

#[test]
fn pointer_styles_match_ohos_values() {
    assert_eq!(ohos_pointer_style(CursorIcon::Default), 0);
    assert_eq!(ohos_pointer_style(CursorIcon::Crosshair), 13);
    assert_eq!(ohos_pointer_style(CursorIcon::Hand), 19);
    assert_eq!(ohos_pointer_style(CursorIcon::Text), 26);
    assert_eq!(ohos_pointer_style(CursorIcon::VerticalText), 39);
    assert_eq!(ohos_pointer_style(CursorIcon::Progress), 42);
    assert_eq!(ohos_pointer_style(CursorIcon::ColResize), 5);
    assert_eq!(ohos_pointer_style(CursorIcon::NwseResize), 12);
}

#[test]
fn window_status_values() {
    assert_eq!(WindowStatus::from_i32(1), WindowStatus::FullScreen);
    assert_eq!(WindowStatus::from_i32(3), WindowStatus::Minimize);
    assert_eq!(WindowStatus::from_i32(5), WindowStatus::SplitScreen);
    assert_eq!(WindowStatus::from_i32(0), WindowStatus::Other);
    assert_eq!(WindowStatus::from_i32(6), WindowStatus::Other);
}

#[test]
fn mirror_follows_status_reports() {
    let mut m = WindowStateMirror::new();
    assert_eq!(m, WindowStateMirror { visible: true, fullscreen: false, maximized: false, minimized: false });
    m.apply_window_status(1);
    assert_eq!(m, WindowStateMirror { visible: true, fullscreen: true, maximized: true, minimized: false });
    // Split screen keeps maximized as it was.
    m.apply_window_status(5);
    assert_eq!(m, WindowStateMirror { visible: true, fullscreen: false, maximized: true, minimized: false });
    m.apply_window_status(3);
    assert_eq!(m, WindowStateMirror { visible: false, fullscreen: false, maximized: false, minimized: true });
    // An unknown status changes nothing.
    m.apply_window_status(0);
    assert_eq!(m, WindowStateMirror { visible: false, fullscreen: false, maximized: false, minimized: true });
    m.apply_window_status(4);
    assert_eq!(m, WindowStateMirror { visible: true, fullscreen: false, maximized: false, minimized: false });
    // The same report twice is the same as once.
    let mut twice = m;
    twice.apply_window_status(2);
    let once = twice;
    twice.apply_window_status(2);
    assert_eq!(once, twice);
}

#[test]
fn second_main_window_is_refused() {
    let mut created = false;
    assert_eq!(resolve_window_kind(None, &mut created).unwrap(), OHOSWindowKind::UIAbility);
    assert!(created);
    assert_eq!(resolve_window_kind(None, &mut created).unwrap(), OHOSWindowKind::Float);
    assert!(resolve_window_kind(Some(OHOSWindowKind::UIAbility), &mut created).is_err());
    assert!(created);
    assert_eq!(
        resolve_window_kind(Some(OHOSWindowKind::Float), &mut created).unwrap(),
        OHOSWindowKind::Float
    );
}

#[test]
fn float_window_defaults() {
    let p = float_window_params(None, "title".to_string(), None, None, true, false, Some((1, 2, 3, 4)));
    assert_eq!(p.name, "title");
    assert_eq!(p.window_type, WINDOW_TYPE_FLOAT);
    assert_eq!((p.width, p.height, p.x, p.y), (800, 600, 100, 100));
    assert_eq!(p.background_color, Some(0x04010203));
    let p = float_window_params(
        Some("label".to_string()),
        "title".to_string(),
        Some((320, 240)),
        Some((5, 6)),
        false,
        true,
        Some((1, 2, 3, 4)),
    );
    assert_eq!(p.name, "label");
    assert_eq!((p.width, p.height, p.x, p.y), (320, 240, 5, 6));
    assert_eq!(p.background_color, Some(0));
    assert!(p.transparent && !p.decorations);
}

#[test]
fn new_window_sends_creation_operations() {
    let a = WindowAttributes {
        decorations: false,
        content_protection: true,
        min_width: Some(100),
        ..attrs()
    };
    let (w, ops) = Window::initial(OHOSWindowKind::UIAbility, Some(0), true, a, 15);
    assert_eq!(w.decoration_flags, FLAG_ALL_DECORATIONS);
    assert!(w.is_resizable() && w.is_minimizable() && w.is_maximizable() && w.is_closable());
    assert!(w.is_visible() && !w.is_minimized() && !w.is_maximized() && w.fullscreen().is_none());
    assert_eq!(
        ops,
        vec![
            WindowOp::SetWindowLimits { window_id: 0, min_width: 100, min_height: 0, max_width: 0, max_height: 0 },
            WindowOp::SetDecorations { window_id: 0, decorations: false },
            WindowOp::SetContentProtection { window_id: 0, enabled: true },
        ]
    );
    // Below API level 15 there is no content protection; a floating window
    // never hides decorations at creation.
    let (_, ops) = Window::initial(OHOSWindowKind::Float, Some(3), true, a, 14);
    assert_eq!(
        ops,
        vec![WindowOp::SetWindowLimits { window_id: 3, min_width: 100, min_height: 0, max_width: 0, max_height: 0 }]
    );
    // Without the bridge client nothing is sent.
    let (_, ops) = Window::initial(OHOSWindowKind::UIAbility, Some(0), false, a, 15);
    assert!(ops.is_empty());
}

#[test]
fn window_ids() {
    assert_eq!(main_window().id(), WindowId(0));
    assert_eq!(float_window(7).id(), WindowId(7));
    assert_eq!(float_window(7).window_id(), Some(7));
    let (w, _) = Window::initial(OHOSWindowKind::Float, None, true, attrs(), 20);
    assert_eq!(w.id(), WindowId(0));
    assert!(w.set_focus().is_empty());
}

#[test]
fn size_limits_keep_the_other_bound() {
    let mut w = float_window(2);
    let ops = w.set_max_inner_size(Some((800, 600)));
    assert_eq!(
        ops,
        vec![WindowOp::SetWindowLimits { window_id: 2, min_width: 0, min_height: 0, max_width: 800, max_height: 600 }]
    );
    let ops = w.set_min_inner_size(Some((200, 100)));
    assert_eq!(
        ops,
        vec![WindowOp::SetWindowLimits { window_id: 2, min_width: 200, min_height: 100, max_width: 800, max_height: 600 }]
    );
    let ops = w.set_max_inner_size(None);
    assert_eq!(
        ops,
        vec![WindowOp::SetWindowLimits { window_id: 2, min_width: 200, min_height: 100, max_width: 0, max_height: 0 }]
    );
    let ops = w.set_inner_size_constraints(None, Some(5), Some(6), None);
    assert_eq!(
        ops,
        vec![WindowOp::SetWindowLimits { window_id: 2, min_width: 0, min_height: 5, max_width: 6, max_height: 0 }]
    );
}

#[test]
fn decoration_flags_read_back_and_gate_operations() {
    let mut w = main_window();
    let ops = w.set_minimizable(false);
    assert_eq!(ops, vec![WindowOp::SetDecorationFlags { window_id: 0, flags: 11 }]);
    assert!(!w.is_minimizable() && w.is_resizable() && w.is_maximizable() && w.is_closable());
    // Minimizing is refused; restoring is not.
    assert!(w.set_minimized(true).is_empty());
    assert!(!w.is_minimized());
    assert_eq!(w.set_minimized(false), vec![WindowOp::Restore { window_id: 0 }]);
    let ops = w.set_resizable(false);
    assert_eq!(
        ops,
        vec![
            WindowOp::SetDecorationFlags { window_id: 0, flags: 3 },
            WindowOp::SetResizeByDrag { window_id: 0, enabled: false },
        ]
    );
    assert!(w.set_inner_size(640, 480).is_empty());
    w.set_resizable(true);
    assert_eq!(w.set_inner_size(640, 480), vec![WindowOp::ResizeInner { window_id: 0, width: 640, height: 480 }]);
    let ops = w.set_maximizable(false);
    assert_eq!(ops, vec![WindowOp::SetDecorationFlags { window_id: 0, flags: 9 }]);
    assert!(w.set_maximized(true).is_empty());
    assert!(!w.is_maximized());
    let ops = w.set_closable(false);
    assert_eq!(ops, vec![WindowOp::SetDecorationFlags { window_id: 0, flags: 8 }]);
    assert!(!w.is_closable());
}

#[test]
fn minimize_maximize_and_visibility() {
    let mut w = float_window(4);
    assert_eq!(w.set_maximized(true), vec![WindowOp::Maximize { window_id: 4 }]);
    assert!(w.is_maximized());
    assert_eq!(w.set_maximized(false), vec![WindowOp::Recover { window_id: 4 }]);
    assert!(!w.is_maximized());
    assert_eq!(w.set_minimized(true), vec![WindowOp::Minimize { window_id: 4 }]);
    assert!(w.is_minimized());
    assert_eq!(
        w.set_visible(true),
        vec![WindowOp::Restore { window_id: 4 }, WindowOp::Show { window_id: 4 }]
    );
    assert!(!w.is_minimized());
    assert_eq!(w.set_visible(false), vec![WindowOp::Minimize { window_id: 4 }]);
    assert!(w.is_minimized());
    // Without the bridge client set_visible changes nothing.
    let (mut w, _) = Window::initial(OHOSWindowKind::Float, Some(4), false, attrs(), 20);
    assert!(w.set_visible(false).is_empty());
    assert!(!w.is_minimized());
    // set_minimized records the intent even without the client.
    assert!(w.set_minimized(true).is_empty());
    assert!(w.is_minimized());
}

#[test]
fn fullscreen_counts_as_maximized() {
    let mut w = main_window();
    assert_eq!(
        w.set_fullscreen(Some(Fullscreen::Borderless)),
        vec![WindowOp::SetFullscreen { window_id: 0, on: true }]
    );
    assert_eq!(w.fullscreen(), Some(Fullscreen::Borderless));
    assert!(w.is_maximized());
    assert_eq!(w.set_fullscreen(None), vec![WindowOp::SetFullscreen { window_id: 0, on: false }]);
    assert_eq!(w.fullscreen(), None);
    assert!(!w.is_maximized());
}

#[test]
fn simple_operations_go_to_the_window() {
    let mut w = float_window(9);
    assert_eq!(w.set_outer_position(-3, 4), vec![WindowOp::MoveTo { window_id: 9, x: -3, y: 4 }]);
    assert_eq!(w.set_title("t"), vec![WindowOp::SetTitle { window_id: 9, title: "t".to_string() }]);
    assert_eq!(w.set_focus(), vec![WindowOp::Focus { window_id: 9 }]);
    assert_eq!(w.close(), vec![WindowOp::Destroy { window_id: 9 }]);
    assert_eq!(w.set_decorations(false), vec![WindowOp::SetDecorations { window_id: 9, decorations: false }]);
    assert!(!w.is_decorated());
    assert_eq!(w.set_always_on_top(true), vec![WindowOp::SetTopmost { window_id: 9, topmost: true }]);
    assert!(w.is_always_on_top());
    assert_eq!(w.set_ime_position(7, 8), vec![WindowOp::SetImePosition { window_id: 9, x: 7, y: 8 }]);
    assert_eq!(w.set_cursor_icon(CursorIcon::Grab), vec![WindowOp::SetCursorIcon { window_id: 9, style: 18 }]);
    assert_eq!(w.request_user_attention(), vec![WindowOp::RequestUserAttention { window_id: 9 }]);
    assert_eq!(w.set_cursor_visible(false), vec![WindowOp::SetCursorVisible { visible: false }]);
    assert_eq!(w.title(), "");
}

#[test]
fn focusable_only_for_sub_windows() {
    assert!(main_window().set_focusable(false).is_empty());
    assert_eq!(
        float_window(1).set_focusable(false),
        vec![WindowOp::SetFocusable { window_id: 1, focusable: false }]
    );
}

#[test]
fn cursor_grab_needs_api_22_and_a_target() {
    let w = main_window();
    assert_eq!(w.set_cursor_grab(true, 21), Err(ExternalError::NotSupported));
    assert_eq!(w.set_cursor_grab(true, 22), Ok(vec![WindowOp::SetCursorGrab { window_id: 0, grab: true }]));
    let (nc, _) = Window::initial(OHOSWindowKind::UIAbility, Some(0), false, attrs(), 22);
    assert_eq!(nc.set_cursor_grab(true, 22), Err(ExternalError::NotSupported));
    let (none, _) = Window::initial(OHOSWindowKind::Float, None, true, attrs(), 22);
    assert_eq!(none.set_cursor_grab(false, 30), Err(ExternalError::NotSupported));
}

#[test]
fn content_protection_needs_api_15() {
    let w = float_window(2);
    assert!(w.set_content_protection(true, 14).is_empty());
    assert_eq!(
        w.set_content_protection(true, 15),
        vec![WindowOp::SetContentProtection { window_id: 2, enabled: true }]
    );
}

#[test]
fn ignore_cursor_events_sets_untouchable() {
    let w = float_window(2);
    assert_eq!(
        w.set_ignore_cursor_events(true),
        Ok(vec![WindowOp::SetTouchable { window_id: 2, touchable: false }])
    );
    let (none, _) = Window::initial(OHOSWindowKind::Float, None, true, attrs(), 20);
    assert_eq!(none.set_ignore_cursor_events(true), Err(ExternalError::NotSupported));
    assert_eq!(w.set_cursor_position(1, 1), Err(ExternalError::NotSupported));
    assert_eq!(w.drag_window(), Ok(()));
    assert_eq!(
        w.drag_resize_window(ResizeDirection::East),
        Ok(vec![WindowOp::SetDraggable { window_id: 2, draggable: true }])
    );
}

#[test]
fn background_color_rules() {
    let w = float_window(2);
    assert_eq!(
        w.set_background_color(Some((255, 0, 0, 128))),
        vec![WindowOp::SetBackgroundColor { window_id: 2, color: 0x80FF0000 }]
    );
    assert_eq!(w.set_background_color(None), vec![WindowOp::SetBackgroundColor { window_id: 2, color: 0xFFFFFFFF }]);
    let (t, _) = Window::initial(OHOSWindowKind::Float, Some(2), true, WindowAttributes { transparent: true, ..attrs() }, 20);
    assert!(t.set_background_color(Some((1, 2, 3, 4))).is_empty());
}

#[test]
fn window_sizes_from_rects() {
    assert_eq!(inner_size_of(300, -5), (300, 0));
    assert_eq!(inner_size_of(300, 200), (300, 200));
    assert_eq!(outer_size_of(400, 300, 10, 20), (400, 300));
    assert_eq!(outer_size_of(0, 300, 10, 20), (10, 20));
}

#[test]
fn no_scancodes() {
    assert_eq!(keycode_to_scancode(KeyCode::KeyA), None);
    assert_eq!(keycode_from_scancode(30), KeyCode::Unidentified(NativeKeyCode::Unidentified));
}

#[test]
fn builder_attributes_default_to_none() {
    let a = PlatformSpecificWindowBuilderAttributes::default();
    assert_eq!(a, PlatformSpecificWindowBuilderAttributes { label: None, window_kind: None });
}

#[test]
fn new_window_resolves_kind_claims_main_and_takes_created_id() {
    let mut claimed = false;
    // The first window is the main window, with id 0; it claims the slot.
    let (w, ops) = Window::new(None, &mut claimed, true, attrs(), 20, None).unwrap();
    assert!(claimed);
    assert_eq!(w.window_id(), Some(0));
    assert_eq!(w, Window::initial(OHOSWindowKind::UIAbility, Some(0), true, attrs(), 20).0);
    assert!(ops.is_empty());
    // Later windows are floating, with the id their creation returned.
    let (w, _) = Window::new(None, &mut claimed, true, attrs(), 20, Some(Ok(12))).unwrap();
    assert_eq!(w.window_id(), Some(12));
    assert!(claimed);
    // A failed creation is refused.
    assert!(Window::new(None, &mut claimed, true, attrs(), 20, Some(Err(OsError))).is_err());
    assert!(Window::new(Some(OHOSWindowKind::Float), &mut claimed, true, attrs(), 20, None).is_err());
    // A second main window is refused and the claim stays.
    assert!(Window::new(Some(OHOSWindowKind::UIAbility), &mut claimed, true, attrs(), 20, None).is_err());
    assert!(claimed);
    // An explicit floating window first leaves the main slot free.
    let mut fresh = false;
    let (w, _) = Window::new(Some(OHOSWindowKind::Float), &mut fresh, true, attrs(), 20, Some(Ok(3))).unwrap();
    assert_eq!(w.window_id(), Some(3));
    assert!(!fresh);
}

#[test]
fn creation_request_only_for_floating_windows() {
    assert_eq!(
        create_request(None, false, None, "t".to_string(), None, None, true, false, None),
        None
    );
    let p = create_request(None, true, None, "t".to_string(), Some((10, 20)), None, true, false, None).unwrap();
    assert_eq!(p.name, "t");
    assert_eq!(p.window_type, WINDOW_TYPE_FLOAT);
    assert_eq!((p.width, p.height, p.x, p.y), (10, 20, 100, 100));
    assert_eq!(p.background_color, None);
    let p = create_request(
        Some(OHOSWindowKind::Float),
        false,
        Some("side".to_string()),
        "t".to_string(),
        None,
        Some((1, 2)),
        false,
        true,
        Some((9, 9, 9, 9)),
    )
    .unwrap();
    assert_eq!(p.name, "side");
    assert_eq!((p.width, p.height, p.x, p.y), (800, 600, 1, 2));
    assert_eq!(p.background_color, Some(0));
    assert!(create_request(Some(OHOSWindowKind::UIAbility), true, None, "t".to_string(), None, None, true, false, None).is_none());
}
