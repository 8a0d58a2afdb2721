use tao_ohos::keyboard::{Key, KeyCode, KeyLocation, NativeKeyCode};
use tao_ohos::keycodes::{to_location, to_logical, to_physical};
use tao_ohos::keycodes::{
    KEY_0,
    KEY_102ND,
    KEY_9,
    KEY_A,
    KEY_AGAIN,
    KEY_ALT_LEFT,
    KEY_ALT_RIGHT,
    KEY_APOSTROPHE,
    KEY_AT,
    KEY_B,
    KEY_BACK,
    KEY_BACKSLASH,
    KEY_BOOKMARKS,
    KEY_BREAK,
    KEY_BRIGHTNESS_DOWN,
    KEY_BRIGHTNESS_UP,
    KEY_CALC,
    KEY_CALENDAR,
    KEY_CAMERA,
    KEY_CAPS_LOCK,
    KEY_CHANNELDOWN,
    KEY_CHANNELUP,
    KEY_COMMA,
    KEY_COPY,
    KEY_CTRL_LEFT,
    KEY_CTRL_RIGHT,
    KEY_CUT,
    KEY_DEL,
    KEY_DPAD_CENTER,
    KEY_DPAD_DOWN,
    KEY_DPAD_LEFT,
    KEY_DPAD_RIGHT,
    KEY_DPAD_UP,
    KEY_ENTER,
    KEY_ENVELOPE,
    KEY_EQUALS,
    KEY_ESCAPE,
    KEY_EXPLORER,
    KEY_F1,
    KEY_F10,
    KEY_F11,
    KEY_F12,
    KEY_F2,
    KEY_F3,
    KEY_F4,
    KEY_F5,
    KEY_F6,
    KEY_F7,
    KEY_F8,
    KEY_F9,
    KEY_FIND,
    KEY_FORWARD,
    KEY_FORWARD_DEL,
    KEY_FUNCTION,
    KEY_GRAVE,
    KEY_HELP,
    KEY_HENKAN,
    KEY_HOME,
    KEY_INFO,
    KEY_INSERT,
    KEY_KATAKANA_HIRAGANA,
    KEY_LEFT_BRACKET,
    KEY_MEDIA_CLOSE,
    KEY_MEDIA_EJECT,
    KEY_MEDIA_FAST_FORWARD,
    KEY_MEDIA_NEXT,
    KEY_MEDIA_PAUSE,
    KEY_MEDIA_PLAY,
    KEY_MEDIA_PLAY_PAUSE,
    KEY_MEDIA_PREVIOUS,
    KEY_MEDIA_RECORD,
    KEY_MEDIA_REWIND,
    KEY_MEDIA_STOP,
    KEY_MENU,
    KEY_META_LEFT,
    KEY_META_RIGHT,
    KEY_MINUS,
    KEY_MOVE_END,
    KEY_MOVE_HOME,
    KEY_MUHENKAN,
    KEY_MUTE,
    KEY_NUMPAD_0,
    KEY_NUMPAD_1,
    KEY_NUMPAD_2,
    KEY_NUMPAD_3,
    KEY_NUMPAD_4,
    KEY_NUMPAD_5,
    KEY_NUMPAD_6,
    KEY_NUMPAD_7,
    KEY_NUMPAD_8,
    KEY_NUMPAD_9,
    KEY_NUMPAD_ADD,
    KEY_NUMPAD_COMMA,
    KEY_NUMPAD_DIVIDE,
    KEY_NUMPAD_DOT,
    KEY_NUMPAD_ENTER,
    KEY_NUMPAD_EQUALS,
    KEY_NUMPAD_LEFT_PAREN,
    KEY_NUMPAD_MULTIPLY,
    KEY_NUMPAD_RIGHT_PAREN,
    KEY_NUMPAD_SUBTRACT,
    KEY_NUM_LOCK,
    KEY_OPEN,
    KEY_PAGE_DOWN,
    KEY_PAGE_UP,
    KEY_PASTE,
    KEY_PERIOD,
    KEY_PLUS,
    KEY_POUND,
    KEY_POWER,
    KEY_PROPS,
    KEY_REFRESH,
    KEY_RIGHT_BRACKET,
    KEY_RO,
    KEY_SCROLL_LOCK,
    KEY_SEMICOLON,
    KEY_SHIFT_LEFT,
    KEY_SHIFT_RIGHT,
    KEY_SLASH,
    KEY_SLEEP,
    KEY_SPACE,
    KEY_STAR,
    KEY_SYM,
    KEY_SYSRQ,
    KEY_TAB,
    KEY_TV,
    KEY_UNDO,
    KEY_UNKNOWN,
    KEY_VOLUME_DOWN,
    KEY_VOLUME_MUTE,
    KEY_VOLUME_UP,
    KEY_WAKEUP,
    KEY_YEN,
    KEY_Z,
    KEY_ZENKAKU_HANKAKU,
    KEY_ZOOMIN,
    KEY_ZOOMOUT,
};


// ─── to_logical: navigation & media ────────────────────────────────────

#[test]
fn to_logical_home_maps_to_browser_home() {
  assert!(matches!(to_logical(KEY_HOME), Key::BrowserHome));
}

#[test]
fn to_logical_back_maps_to_browser_back() {
  assert!(matches!(to_logical(KEY_BACK), Key::BrowserBack));
}

#[test]
fn to_logical_dpad_navigation() {
  assert!(matches!(to_logical(KEY_DPAD_UP), Key::ArrowUp));
  assert!(matches!(to_logical(KEY_DPAD_DOWN), Key::ArrowDown));
  assert!(matches!(to_logical(KEY_DPAD_LEFT), Key::ArrowLeft));
  assert!(matches!(to_logical(KEY_DPAD_RIGHT), Key::ArrowRight));
  assert!(matches!(to_logical(KEY_DPAD_CENTER), Key::Enter));
}

#[test]
fn to_logical_volume_keys() {
  assert!(matches!(to_logical(KEY_VOLUME_UP), Key::AudioVolumeUp));
  assert!(matches!(to_logical(KEY_VOLUME_DOWN), Key::AudioVolumeDown));
  assert!(matches!(to_logical(KEY_VOLUME_MUTE), Key::AudioVolumeMute));
}

#[test]
fn to_logical_media_keys() {
  assert!(matches!(to_logical(KEY_MEDIA_PLAY_PAUSE), Key::MediaPlayPause));
  assert!(matches!(to_logical(KEY_MEDIA_STOP), Key::MediaStop));
  assert!(matches!(to_logical(KEY_MEDIA_NEXT), Key::MediaTrackNext));
  assert!(matches!(to_logical(KEY_MEDIA_PREVIOUS), Key::MediaTrackPrevious));
  assert!(matches!(to_logical(KEY_MEDIA_REWIND), Key::MediaRewind));
  assert!(matches!(
    to_logical(KEY_MEDIA_FAST_FORWARD),
    Key::MediaFastForward
  ));
  assert!(matches!(to_logical(KEY_MEDIA_PLAY), Key::MediaPlay));
  assert!(matches!(to_logical(KEY_MEDIA_PAUSE), Key::MediaPause));
  assert!(matches!(to_logical(KEY_MEDIA_CLOSE), Key::MediaClose));
  assert!(matches!(to_logical(KEY_MEDIA_EJECT), Key::Eject));
  assert!(matches!(to_logical(KEY_MEDIA_RECORD), Key::MediaRecord));
}

#[test]
fn to_logical_mute_maps_to_microphone_volume_mute() {
  assert!(matches!(to_logical(KEY_MUTE), Key::MicrophoneVolumeMute));
}

// ─── to_logical: modifier keys ────────────────────────────────────────

#[test]
fn to_logical_alt_keys() {
  assert!(matches!(to_logical(KEY_ALT_LEFT), Key::Alt));
  assert!(matches!(to_logical(KEY_ALT_RIGHT), Key::Alt));
}

#[test]
fn to_logical_shift_keys() {
  assert!(matches!(to_logical(KEY_SHIFT_LEFT), Key::Shift));
  assert!(matches!(to_logical(KEY_SHIFT_RIGHT), Key::Shift));
}

#[test]
fn to_logical_ctrl_keys() {
  assert!(matches!(to_logical(KEY_CTRL_LEFT), Key::Control));
  assert!(matches!(to_logical(KEY_CTRL_RIGHT), Key::Control));
}

#[test]
fn to_logical_meta_keys() {
  assert!(matches!(to_logical(KEY_META_LEFT), Key::Super));
  assert!(matches!(to_logical(KEY_META_RIGHT), Key::Super));
}

#[test]
fn to_logical_caps_scroll_num_lock() {
  assert!(matches!(to_logical(KEY_CAPS_LOCK), Key::CapsLock));
  assert!(matches!(to_logical(KEY_SCROLL_LOCK), Key::ScrollLock));
  assert!(matches!(to_logical(KEY_NUM_LOCK), Key::NumLock));
}

// ─── to_logical: common keys ──────────────────────────────────────────

#[test]
fn to_logical_tab_space_enter() {
  assert!(matches!(to_logical(KEY_TAB), Key::Tab));
  assert!(matches!(to_logical(KEY_SPACE), Key::Space));
  assert!(matches!(to_logical(KEY_ENTER), Key::Enter));
}

#[test]
fn to_logical_del_maps_to_backspace() {
  assert!(matches!(to_logical(KEY_DEL), Key::Backspace));
}

#[test]
fn to_logical_forward_del_maps_to_delete() {
  assert!(matches!(to_logical(KEY_FORWARD_DEL), Key::Delete));
}

#[test]
fn to_logical_escape() {
  assert!(matches!(to_logical(KEY_ESCAPE), Key::Escape));
}

#[test]
fn to_logical_function_key() {
  assert!(matches!(to_logical(KEY_FUNCTION), Key::Fn));
}

// ─── to_logical: F-keys ───────────────────────────────────────────────

#[test]
fn to_logical_f1_through_f12() {
  assert!(matches!(to_logical(KEY_F1), Key::F1));
  assert!(matches!(to_logical(KEY_F2), Key::F2));
  assert!(matches!(to_logical(KEY_F3), Key::F3));
  assert!(matches!(to_logical(KEY_F4), Key::F4));
  assert!(matches!(to_logical(KEY_F5), Key::F5));
  assert!(matches!(to_logical(KEY_F6), Key::F6));
  assert!(matches!(to_logical(KEY_F7), Key::F7));
  assert!(matches!(to_logical(KEY_F8), Key::F8));
  assert!(matches!(to_logical(KEY_F9), Key::F9));
  assert!(matches!(to_logical(KEY_F10), Key::F10));
  assert!(matches!(to_logical(KEY_F11), Key::F11));
  assert!(matches!(to_logical(KEY_F12), Key::F12));
}

// ─── to_logical: page nav & editing ───────────────────────────────────

#[test]
fn to_logical_page_up_down() {
  assert!(matches!(to_logical(KEY_PAGE_UP), Key::PageUp));
  assert!(matches!(to_logical(KEY_PAGE_DOWN), Key::PageDown));
}

#[test]
fn to_logical_move_home_end_insert() {
  assert!(matches!(to_logical(KEY_MOVE_HOME), Key::Home));
  assert!(matches!(to_logical(KEY_MOVE_END), Key::End));
  assert!(matches!(to_logical(KEY_INSERT), Key::Insert));
}

#[test]
fn to_logical_forward_maps_to_browser_forward() {
  assert!(matches!(to_logical(KEY_FORWARD), Key::BrowserForward));
}

#[test]
fn to_logical_sysrq_break() {
  assert!(matches!(to_logical(KEY_SYSRQ), Key::PrintScreen));
  assert!(matches!(to_logical(KEY_BREAK), Key::Pause));
}

// ─── to_logical: special buttons ──────────────────────────────────────

#[test]
fn to_logical_power_camera() {
  assert!(matches!(to_logical(KEY_POWER), Key::Power));
  assert!(matches!(to_logical(KEY_CAMERA), Key::Camera));
}

#[test]
fn to_logical_explorer_envelope() {
  assert!(matches!(to_logical(KEY_EXPLORER), Key::LaunchWebBrowser));
  assert!(matches!(to_logical(KEY_ENVELOPE), Key::LaunchMail));
}

#[test]
fn to_logical_sym_maps_to_symbol() {
  assert!(matches!(to_logical(KEY_SYM), Key::Symbol));
}

// ─── to_logical: clipboard & refresh ──────────────────────────────────

#[test]
fn to_logical_cut_copy_paste() {
  assert!(matches!(to_logical(KEY_CUT), Key::Cut));
  assert!(matches!(to_logical(KEY_COPY), Key::Copy));
  assert!(matches!(to_logical(KEY_PASTE), Key::Paste));
}

#[test]
fn to_logical_refresh_maps_to_browser_refresh() {
  assert!(matches!(to_logical(KEY_REFRESH), Key::BrowserRefresh));
}

// ─── to_logical: TV & brightness ─────────────────────────────────────

#[test]
fn to_logical_tv_keys() {
  assert!(matches!(to_logical(KEY_TV), Key::TV));
  assert!(matches!(to_logical(KEY_CHANNELUP), Key::ChannelUp));
  assert!(matches!(to_logical(KEY_CHANNELDOWN), Key::ChannelDown));
}

#[test]
fn to_logical_zoom_keys() {
  assert!(matches!(to_logical(KEY_ZOOMIN), Key::ZoomIn));
  assert!(matches!(to_logical(KEY_ZOOMOUT), Key::ZoomOut));
}

#[test]
fn to_logical_brightness_keys() {
  assert!(matches!(to_logical(KEY_BRIGHTNESS_DOWN), Key::BrightnessDown));
  assert!(matches!(to_logical(KEY_BRIGHTNESS_UP), Key::BrightnessUp));
}

#[test]
fn to_logical_info() {
  assert!(matches!(to_logical(KEY_INFO), Key::Info));
}

// ─── to_logical: Japanese keys ───────────────────────────────────────

#[test]
fn to_logical_japanese_keys() {
  assert!(matches!(to_logical(KEY_ZENKAKU_HANKAKU), Key::ZenkakuHankaku));
  assert!(matches!(to_logical(KEY_MUHENKAN), Key::NonConvert));
  assert!(matches!(to_logical(KEY_HENKAN), Key::Convert));
  assert!(matches!(
    to_logical(KEY_KATAKANA_HIRAGANA),
    Key::HiraganaKatakana
  ));
}

// ─── to_logical: calendar & sleep ────────────────────────────────────

#[test]
fn to_logical_calendar_maps_to_launch_calendar() {
  assert!(matches!(to_logical(KEY_CALENDAR), Key::LaunchCalendar));
}

#[test]
fn to_logical_sleep_wakeup() {
  assert!(matches!(to_logical(KEY_SLEEP), Key::Standby));
  assert!(matches!(to_logical(KEY_WAKEUP), Key::WakeUp));
}

#[test]
fn to_logical_help() {
  assert!(matches!(to_logical(KEY_HELP), Key::Help));
}

// ─── to_logical: unidentified fallbacks ────────────────────────────────

#[test]
fn to_logical_unknown_maps_to_unidentified() {
  let result = to_logical(KEY_UNKNOWN);
  assert!(matches!(result, Key::Unidentified(_)));
}

#[test]
fn to_logical_numpad_keys_map_characters() {
  // Numpad digits/operators map to their produced character (NumLock on);
  // to_location still reports KeyLocation::Numpad for disambiguation.
  let cases = [
    (KEY_NUMPAD_0, '0'),
    (KEY_NUMPAD_1, '1'),
    (KEY_NUMPAD_2, '2'),
    (KEY_NUMPAD_3, '3'),
    (KEY_NUMPAD_4, '4'),
    (KEY_NUMPAD_5, '5'),
    (KEY_NUMPAD_6, '6'),
    (KEY_NUMPAD_7, '7'),
    (KEY_NUMPAD_8, '8'),
    (KEY_NUMPAD_9, '9'),
    (KEY_NUMPAD_DIVIDE, '/'),
    (KEY_NUMPAD_MULTIPLY, '*'),
    (KEY_NUMPAD_SUBTRACT, '-'),
    (KEY_NUMPAD_ADD, '+'),
    (KEY_NUMPAD_DOT, '.'),
    (KEY_NUMPAD_COMMA, ','),
    (KEY_NUMPAD_EQUALS, '='),
    (KEY_NUMPAD_LEFT_PAREN, '('),
    (KEY_NUMPAD_RIGHT_PAREN, ')'),
  ];
  for (kc, expected) in cases {
    assert!(
      matches!(to_logical(kc), Key::Character(c) if c == expected),
      "numpad key {kc} should map to Character({expected:?})"
    );
  }
  assert!(matches!(to_logical(KEY_NUMPAD_ENTER), Key::Enter));
}

#[test]
fn to_logical_alpha_keys_map_characters() {
  // Letters/digits map to their base (unshifted) character — issue #109:
  // the Android-style Unicode path doesn't exist on the OHOS NDK, so the
  // keycode mapping is the only source.
  let cases = [
    (KEY_A, 'a'),
    (KEY_Z, 'z'),
    (KEY_0, '0'),
    (KEY_9, '9'),
    (KEY_STAR, '*'),
    (KEY_POUND, '#'),
  ];
  for (kc, expected) in cases {
    assert!(
      matches!(to_logical(kc), Key::Character(c) if c == expected),
      "key {kc} should map to Character({expected:?})"
    );
  }
}

#[test]
fn to_logical_punctuation_keys_map_characters() {
  let cases = [
    (KEY_COMMA, ','),
    (KEY_PERIOD, '.'),
    (KEY_GRAVE, '`'),
    (KEY_MINUS, '-'),
    (KEY_EQUALS, '='),
    (KEY_LEFT_BRACKET, '['),
    (KEY_RIGHT_BRACKET, ']'),
    (KEY_BACKSLASH, '\\'),
    (KEY_SEMICOLON, ';'),
    (KEY_APOSTROPHE, '\''),
    (KEY_SLASH, '/'),
    (KEY_AT, '@'),
    (KEY_PLUS, '+'),
  ];
  for (kc, expected) in cases {
    assert!(
      matches!(to_logical(kc), Key::Character(c) if c == expected),
      "key {kc} should map to Character({expected:?})"
    );
  }
}

#[test]
fn to_logical_yen_ro_are_unidentified() {
  assert!(matches!(to_logical(KEY_YEN), Key::Unidentified(_)));
  assert!(matches!(to_logical(KEY_RO), Key::Unidentified(_)));
}

#[test]
fn to_logical_menu_is_unidentified() {
  assert!(matches!(to_logical(KEY_MENU), Key::Unidentified(_)));
}

// ─── to_location: modifier location ───────────────────────────────────

#[test]
fn to_location_left_modifiers() {
  assert_eq!(to_location(KEY_ALT_LEFT), KeyLocation::Left);
  assert_eq!(to_location(KEY_SHIFT_LEFT), KeyLocation::Left);
  assert_eq!(to_location(KEY_CTRL_LEFT), KeyLocation::Left);
  assert_eq!(to_location(KEY_META_LEFT), KeyLocation::Left);
}

#[test]
fn to_location_right_modifiers() {
  assert_eq!(to_location(KEY_ALT_RIGHT), KeyLocation::Right);
  assert_eq!(to_location(KEY_SHIFT_RIGHT), KeyLocation::Right);
  assert_eq!(to_location(KEY_CTRL_RIGHT), KeyLocation::Right);
  assert_eq!(to_location(KEY_META_RIGHT), KeyLocation::Right);
}

#[test]
fn to_location_numpad_keys() {
  for kc in [
    KEY_NUM_LOCK,
    KEY_NUMPAD_0,
    KEY_NUMPAD_1,
    KEY_NUMPAD_2,
    KEY_NUMPAD_3,
    KEY_NUMPAD_4,
    KEY_NUMPAD_5,
    KEY_NUMPAD_6,
    KEY_NUMPAD_7,
    KEY_NUMPAD_8,
    KEY_NUMPAD_9,
    KEY_NUMPAD_DIVIDE,
    KEY_NUMPAD_MULTIPLY,
    KEY_NUMPAD_SUBTRACT,
    KEY_NUMPAD_ADD,
    KEY_NUMPAD_DOT,
    KEY_NUMPAD_COMMA,
    KEY_NUMPAD_ENTER,
    KEY_NUMPAD_EQUALS,
    KEY_NUMPAD_LEFT_PAREN,
    KEY_NUMPAD_RIGHT_PAREN,
  ] {
    assert_eq!(
      to_location(kc),
      KeyLocation::Numpad,
      "numpad key should be Numpad location"
    );
  }
}

#[test]
fn to_location_non_modifier_non_numpad_is_standard() {
  // Regular keys (letters, digits, F-keys, arrows, etc.) are Standard
  for kc in [
    KEY_A,
    KEY_B,
    KEY_0,
    KEY_9,
    KEY_F1,
    KEY_F12,
    KEY_DPAD_UP,
    KEY_DPAD_DOWN,
    KEY_SPACE,
    KEY_TAB,
    KEY_ENTER,
    KEY_ESCAPE,
    KEY_VOLUME_UP,
    KEY_HOME,
    KEY_PAGE_UP,
  ] {
    assert_eq!(
      to_location(kc),
      KeyLocation::Standard,
      "regular key should be Standard location"
    );
  }
}

// ─── to_physical: physical KeyCode mapping (issue #109) ─────────────────

#[test]
fn to_physical_letters_digits_and_punctuation() {
  assert_eq!(to_physical(KEY_A), KeyCode::KeyA);
  assert_eq!(to_physical(KEY_Z), KeyCode::KeyZ);
  assert_eq!(to_physical(KEY_0), KeyCode::Digit0);
  assert_eq!(to_physical(KEY_9), KeyCode::Digit9);
  assert_eq!(to_physical(KEY_GRAVE), KeyCode::Backquote);
  assert_eq!(to_physical(KEY_APOSTROPHE), KeyCode::Quote);
  assert_eq!(to_physical(KEY_EQUALS), KeyCode::Equal);
  assert_eq!(to_physical(KEY_DEL), KeyCode::Backspace);
  assert_eq!(to_physical(KEY_MOVE_HOME), KeyCode::Home);
}

#[test]
fn to_physical_modifiers_have_left_right_identity() {
  assert_eq!(to_physical(KEY_ALT_LEFT), KeyCode::AltLeft);
  assert_eq!(to_physical(KEY_ALT_RIGHT), KeyCode::AltRight);
  assert_eq!(to_physical(KEY_SHIFT_LEFT), KeyCode::ShiftLeft);
  assert_eq!(to_physical(KEY_SHIFT_RIGHT), KeyCode::ShiftRight);
  assert_eq!(to_physical(KEY_CTRL_LEFT), KeyCode::ControlLeft);
  assert_eq!(to_physical(KEY_CTRL_RIGHT), KeyCode::ControlRight);
  assert_eq!(to_physical(KEY_META_LEFT), KeyCode::SuperLeft);
  assert_eq!(to_physical(KEY_META_RIGHT), KeyCode::SuperRight);
}

#[test]
fn to_physical_numpad_keys() {
  assert_eq!(to_physical(KEY_NUMPAD_0), KeyCode::Numpad0);
  assert_eq!(to_physical(KEY_NUMPAD_9), KeyCode::Numpad9);
  assert_eq!(to_physical(KEY_NUMPAD_ENTER), KeyCode::NumpadEnter);
  assert_eq!(to_physical(KEY_NUMPAD_DOT), KeyCode::NumpadDecimal);
  assert_eq!(to_physical(KEY_NUMPAD_EQUALS), KeyCode::NumpadEqual);
  assert_eq!(to_physical(KEY_NUMPAD_DIVIDE), KeyCode::NumpadDivide);
}

#[test]
fn to_physical_arrows_and_media_keys() {
  // Device-verified gap fill (2026-09-11): real arrow presses arrived as
  // Unidentified(Ohos(2012/2013)) before these mappings existed.
  assert_eq!(to_physical(KEY_DPAD_UP), KeyCode::ArrowUp);
  assert_eq!(to_physical(KEY_DPAD_DOWN), KeyCode::ArrowDown);
  assert_eq!(to_physical(KEY_DPAD_LEFT), KeyCode::ArrowLeft);
  assert_eq!(to_physical(KEY_DPAD_RIGHT), KeyCode::ArrowRight);
  assert_eq!(to_physical(KEY_VOLUME_DOWN), KeyCode::AudioVolumeDown);
  assert_eq!(to_physical(KEY_VOLUME_UP), KeyCode::AudioVolumeUp);
  assert_eq!(to_physical(KEY_VOLUME_MUTE), KeyCode::AudioVolumeMute);
  assert_eq!(to_physical(KEY_MEDIA_PLAY_PAUSE), KeyCode::MediaPlayPause);
  assert_eq!(to_physical(KEY_HOME), KeyCode::BrowserHome);
  assert_eq!(to_physical(KEY_BACK), KeyCode::BrowserBack);
}

#[test]
fn to_physical_completion_set() {
  // Cross-table name remaps from the 2026-09-11 full-table audit.
  assert_eq!(to_physical(KEY_SYSRQ), KeyCode::PrintScreen);
  assert_eq!(to_physical(KEY_BREAK), KeyCode::Pause);
  assert_eq!(to_physical(KEY_FUNCTION), KeyCode::Fn);
  assert_eq!(to_physical(KEY_SLEEP), KeyCode::Sleep);
  assert_eq!(to_physical(KEY_WAKEUP), KeyCode::WakeUp);
  assert_eq!(to_physical(KEY_MEDIA_NEXT), KeyCode::MediaTrackNext);
  assert_eq!(to_physical(KEY_MEDIA_PREVIOUS), KeyCode::MediaTrackPrevious);
  assert_eq!(to_physical(KEY_MEDIA_EJECT), KeyCode::Eject);
  assert_eq!(to_physical(KEY_ENVELOPE), KeyCode::LaunchMail);
  assert_eq!(to_physical(KEY_MENU), KeyCode::ContextMenu);
  assert_eq!(to_physical(KEY_STAR), KeyCode::NumpadStar);
  assert_eq!(to_physical(KEY_POUND), KeyCode::NumpadHash);
  assert_eq!(to_physical(KEY_NUMPAD_LEFT_PAREN), KeyCode::NumpadParenLeft);
  assert_eq!(to_physical(KEY_NUMPAD_RIGHT_PAREN), KeyCode::NumpadParenRight);
  // JIS / ISO.
  assert_eq!(to_physical(KEY_YEN), KeyCode::IntlYen);
  assert_eq!(to_physical(KEY_RO), KeyCode::IntlRo);
  assert_eq!(to_physical(KEY_102ND), KeyCode::IntlBackslash);
  assert_eq!(to_physical(KEY_MUHENKAN), KeyCode::NonConvert);
  assert_eq!(to_physical(KEY_HENKAN), KeyCode::Convert);
  assert_eq!(to_physical(KEY_KATAKANA_HIRAGANA), KeyCode::KanaMode);
  assert_eq!(to_physical(KEY_ZENKAKU_HANKAKU), KeyCode::Lang5);
  // Sun / HID extension keys.
  assert_eq!(to_physical(KEY_OPEN), KeyCode::Open);
  assert_eq!(to_physical(KEY_FIND), KeyCode::Find);
  assert_eq!(to_physical(KEY_AGAIN), KeyCode::Again);
  assert_eq!(to_physical(KEY_PROPS), KeyCode::Props);
  assert_eq!(to_physical(KEY_UNDO), KeyCode::Undo);
  assert_eq!(to_physical(KEY_COPY), KeyCode::Copy);
  assert_eq!(to_physical(KEY_BOOKMARKS), KeyCode::BrowserFavorites);
  assert_eq!(to_physical(KEY_CALC), KeyCode::LaunchApp2);
}

#[test]
fn to_physical_unmapped_falls_back_to_native_unidentified() {
  // Keys without a tao KeyCode mapping keep the raw OHOS code attached.
  assert!(matches!(
    to_physical(KEY_UNKNOWN),
    KeyCode::Unidentified(NativeKeyCode::Ohos(_))
  ));
}
