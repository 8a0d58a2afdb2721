//! Window state and window operations: the state a window keeps (system
//! state mirrors, decoration flags, size-constraint cache) and, for each
//! window operation, the state change and the bridge operations to dispatch.
use vstd::prelude::*;

use crate::event::WindowId;
use crate::keyboard::{KeyCode, NativeKeyCode};

verus! {

/// How a window is realized: the ability's single main window, or an
/// OS-level floating sub-window.
#[derive(Clone, Copy, Debug, PartialEq, Eq, Structural)]
pub enum OHOSWindowKind {
    UIAbility,
    Float,
}

/// Platform-specific window builder attributes.
#[derive(Clone, Debug, Default, Eq, PartialEq)]
pub struct PlatformSpecificWindowBuilderAttributes {
    pub label: Option<String>,
    pub window_kind: Option<OHOSWindowKind>,
}

/// The error of a failed platform window operation.
#[derive(Default, Clone, Debug)]
pub struct OsError;

impl OsError {
    /// The error's message.
    pub fn to_string(&self) -> (s: String)
        ensures
            s@ == "OpenHarmony OS Error"@,
    {
        "OpenHarmony OS Error".to_owned()
    }
}

/// The error of an operation the platform does not support.
#[derive(Clone, Copy, Debug, PartialEq, Eq, Structural)]
pub enum ExternalError {
    NotSupported,
}

/// A fullscreen state: on this platform only a borderless layout mode.
#[derive(Clone, Copy, Debug, PartialEq, Eq, Structural)]
pub enum Fullscreen {
    Borderless,
}

/// Decoration button bits, as the bridge encodes them.
pub const FLAG_CLOSABLE: u8 = 1;

pub const FLAG_MAXIMIZABLE: u8 = 2;

pub const FLAG_MINIMIZABLE: u8 = 4;

pub const FLAG_RESIZABLE: u8 = 8;

/// All four decoration bits.
pub const FLAG_ALL_DECORATIONS: u8 = 15;

/// The window type a floating sub-window is created with.
pub const WINDOW_TYPE_FLOAT: i32 = 8;

/// `flag` is one of the four decoration bits.
pub open spec fn is_decoration_flag(flag: u8) -> bool {
    flag == FLAG_CLOSABLE || flag == FLAG_MAXIMIZABLE || flag == FLAG_MINIMIZABLE || flag
        == FLAG_RESIZABLE
}

pub open spec fn has_flag(flags: u8, flag: u8) -> bool {
    flags & flag != 0
}

/// Setting a decoration bit sets exactly that bit; clearing it clears exactly
/// that bit.
proof fn lemma_flag_update(flags: u8, flag: u8, other: u8)
    by (bit_vector)
    requires
        flag == 1u8 || flag == 2u8 || flag == 4u8 || flag == 8u8,
        other == 1u8 || other == 2u8 || other == 4u8 || other == 8u8,
    ensures
        (flags | flag) & flag != 0,
        (flags & !flag) & flag == 0,
        other != flag ==> (((flags | flag) & other != 0) == (flags & other != 0)),
        other != flag ==> (((flags & !flag) & other != 0) == (flags & other != 0)),
{
}

proof fn lemma_all_flags_set(flag: u8)
    by (bit_vector)
    requires
        flag == 1u8 || flag == 2u8 || flag == 4u8 || flag == 8u8,
    ensures
        15u8 & flag != 0,
{
}

/// The decoration bits with `flag` set (`on`) or cleared.
pub open spec fn flags_with(flags: u8, flag: u8, on: bool) -> u8 {
    if on {
        flags | flag
    } else {
        flags & !flag
    }
}

/// The OHOS `WindowStatusType` reported by `windowStatusChange`.
#[derive(Clone, Copy, Debug, PartialEq, Eq, Structural)]
pub enum WindowStatus {
    FullScreen,
    Maximize,
    Minimize,
    Floating,
    SplitScreen,
    /// `UNDEFINED` or any unknown value.
    Other,
}

pub open spec fn window_status_of(value: i32) -> WindowStatus {
    if value == 1 {
        WindowStatus::FullScreen
    } else if value == 2 {
        WindowStatus::Maximize
    } else if value == 3 {
        WindowStatus::Minimize
    } else if value == 4 {
        WindowStatus::Floating
    } else if value == 5 {
        WindowStatus::SplitScreen
    } else {
        WindowStatus::Other
    }
}

impl WindowStatus {
    /// 1 = full screen, 2 = maximize, 3 = minimize, 4 = floating,
    /// 5 = split screen; anything else is `Other`.
    pub fn from_i32(value: i32) -> (s: WindowStatus)
        ensures
            s == window_status_of(value),
    {
        match value {
            1 => WindowStatus::FullScreen,
            2 => WindowStatus::Maximize,
            3 => WindowStatus::Minimize,
            4 => WindowStatus::Floating,
            5 => WindowStatus::SplitScreen,
            _ => WindowStatus::Other,
        }
    }
}

/// Window state bits that the system's status reports keep up to date.
#[derive(Clone, Copy, Debug, PartialEq, Eq, Structural)]
pub struct WindowStateMirror {
    pub visible: bool,
    pub fullscreen: bool,
    pub maximized: bool,
    pub minimized: bool,
}

/// The mirror after a status report: full screen is visible, fullscreen and
/// maximized; maximize is visible and maximized; minimize is only
/// minimized; floating is only visible; split screen is visible and not
/// fullscreen (maximized and minimized are left alone); an unknown status
/// changes nothing.
pub open spec fn mirror_after_status(m: WindowStateMirror, status: WindowStatus) -> WindowStateMirror {
    match status {
        WindowStatus::FullScreen => WindowStateMirror {
            visible: true,
            fullscreen: true,
            maximized: true,
            minimized: false,
        },
        WindowStatus::Maximize => WindowStateMirror {
            visible: true,
            fullscreen: false,
            maximized: true,
            minimized: false,
        },
        WindowStatus::Minimize => WindowStateMirror {
            visible: false,
            fullscreen: false,
            maximized: false,
            minimized: true,
        },
        WindowStatus::Floating => WindowStateMirror {
            visible: true,
            fullscreen: false,
            maximized: false,
            minimized: false,
        },
        WindowStatus::SplitScreen => WindowStateMirror { visible: true, fullscreen: false, ..m },
        WindowStatus::Other => m,
    }
}

impl WindowStateMirror {
    /// Visible, not fullscreen, not maximized, not minimized.
    pub fn new() -> (m: WindowStateMirror)
        ensures
            m == (WindowStateMirror {
                visible: true,
                fullscreen: false,
                maximized: false,
                minimized: false,
            }),
    {
        WindowStateMirror { visible: true, fullscreen: false, maximized: false, minimized: false }
    }

    /// Applies a raw `WindowStatusType` reported by the system.
    pub fn apply_window_status(&mut self, status: i32)
        ensures
            *final(self) == mirror_after_status(*old(self), window_status_of(status)),
    {
        match WindowStatus::from_i32(status) {
            WindowStatus::FullScreen => {
                self.visible = true;
                self.fullscreen = true;
                self.maximized = true;
                self.minimized = false;
            },
            WindowStatus::Maximize => {
                self.visible = true;
                self.fullscreen = false;
                self.maximized = true;
                self.minimized = false;
            },
            WindowStatus::Minimize => {
                self.visible = false;
                self.fullscreen = false;
                self.maximized = false;
                self.minimized = true;
            },
            WindowStatus::Floating => {
                self.visible = true;
                self.fullscreen = false;
                self.maximized = false;
                self.minimized = false;
            },
            WindowStatus::SplitScreen => {
                self.visible = true;
                self.fullscreen = false;
            },
            WindowStatus::Other => {},
        }
    }
}

/// Applying the same status report twice is the same as applying it once.
pub proof fn lemma_window_status_idempotent(m: WindowStateMirror, status: WindowStatus)
    ensures
        mirror_after_status(mirror_after_status(m, status), status) == mirror_after_status(m, status),
{
}

/// After any known status other than split screen, the window is in exactly
/// one of the states visible-and-not-minimized or minimized-and-hidden, and
/// fullscreen implies maximized.
pub proof fn lemma_window_status_consistent(m: WindowStateMirror, status: WindowStatus)
    requires
        status != WindowStatus::SplitScreen,
        status != WindowStatus::Other,
    ensures
        mirror_after_status(m, status).visible != mirror_after_status(m, status).minimized,
        mirror_after_status(m, status).fullscreen ==> mirror_after_status(m, status).maximized,
{
}

/// Cursor icons.
#[derive(Clone, Copy, Debug, PartialEq, Eq, Structural)]
pub enum CursorIcon {
    Default,
    Crosshair,
    Hand,
    Arrow,
    Move,
    Text,
    Wait,
    Help,
    Progress,
    NotAllowed,
    ContextMenu,
    Cell,
    VerticalText,
    Alias,
    Copy,
    NoDrop,
    Grab,
    Grabbing,
    AllScroll,
    ZoomIn,
    ZoomOut,
    EResize,
    NResize,
    NeResize,
    NwResize,
    SResize,
    SeResize,
    SwResize,
    WResize,
    EwResize,
    NsResize,
    NeswResize,
    NwseResize,
    ColResize,
    RowResize,
}

/// The OHOS `pointer.PointerStyle` value of a cursor icon (DEFAULT = 0,
/// EAST = 1, WEST = 2, SOUTH = 3, NORTH = 4, WEST_EAST = 5, NORTH_SOUTH = 6,
/// NORTH_EAST = 7, NORTH_WEST = 8, SOUTH_EAST = 9, SOUTH_WEST = 10,
/// NORTH_EAST_SOUTH_WEST = 11, NORTH_WEST_SOUTH_EAST = 12, CROSS = 13,
/// CURSOR_COPY = 14, CURSOR_FORBID = 15, HAND_GRABBING = 17, HAND_OPEN = 18,
/// HAND_POINTING = 19, HELP = 20, MOVE = 21, TEXT_CURSOR = 26, ZOOM_IN = 27,
/// ZOOM_OUT = 28, HORIZONTAL_TEXT_CURSOR = 39, LOADING = 42).
pub open spec fn pointer_style_of(icon: CursorIcon) -> i32 {
    match icon {
        CursorIcon::Default | CursorIcon::Arrow | CursorIcon::ContextMenu | CursorIcon::Cell => 0,
        CursorIcon::Crosshair => 13,
        CursorIcon::Hand => 19,
        CursorIcon::Move | CursorIcon::AllScroll => 21,
        CursorIcon::Text => 26,
        CursorIcon::VerticalText => 39,
        CursorIcon::Wait | CursorIcon::Progress => 42,
        CursorIcon::Help => 20,
        CursorIcon::NotAllowed | CursorIcon::NoDrop => 15,
        CursorIcon::Alias | CursorIcon::Copy => 14,
        CursorIcon::Grab => 18,
        CursorIcon::Grabbing => 17,
        CursorIcon::ZoomIn => 27,
        CursorIcon::ZoomOut => 28,
        CursorIcon::EResize => 1,
        CursorIcon::WResize => 2,
        CursorIcon::SResize => 3,
        CursorIcon::NResize => 4,
        CursorIcon::EwResize | CursorIcon::ColResize => 5,
        CursorIcon::NsResize | CursorIcon::RowResize => 6,
        CursorIcon::NeResize => 7,
        CursorIcon::NwResize => 8,
        CursorIcon::SeResize => 9,
        CursorIcon::SwResize => 10,
        CursorIcon::NeswResize => 11,
        CursorIcon::NwseResize => 12,
    }
}

/// Maps a cursor icon to the OHOS pointer style that shows it.
pub fn ohos_pointer_style(icon: CursorIcon) -> (style: i32)
    ensures
        style == pointer_style_of(icon),
{
    match icon {
        CursorIcon::Default | CursorIcon::Arrow | CursorIcon::ContextMenu | CursorIcon::Cell => 0,
        CursorIcon::Crosshair => 13,
        CursorIcon::Hand => 19,
        CursorIcon::Move | CursorIcon::AllScroll => 21,
        CursorIcon::Text => 26,
        CursorIcon::VerticalText => 39,
        CursorIcon::Wait | CursorIcon::Progress => 42,
        CursorIcon::Help => 20,
        CursorIcon::NotAllowed | CursorIcon::NoDrop => 15,
        CursorIcon::Alias | CursorIcon::Copy => 14,
        CursorIcon::Grab => 18,
        CursorIcon::Grabbing => 17,
        CursorIcon::ZoomIn => 27,
        CursorIcon::ZoomOut => 28,
        CursorIcon::EResize => 1,
        CursorIcon::WResize => 2,
        CursorIcon::SResize => 3,
        CursorIcon::NResize => 4,
        CursorIcon::EwResize | CursorIcon::ColResize => 5,
        CursorIcon::NsResize | CursorIcon::RowResize => 6,
        CursorIcon::NeResize => 7,
        CursorIcon::NwResize => 8,
        CursorIcon::SeResize => 9,
        CursorIcon::SwResize => 10,
        CursorIcon::NeswResize => 11,
        CursorIcon::NwseResize => 12,
    }
}

/// The `0xAARRGGBB` word of an RGBA color.
pub open spec fn argb_of(r: u8, g: u8, b: u8, a: u8) -> u32 {
    (a as int * 0x1000000 + r as int * 0x10000 + g as int * 0x100 + b as int) as u32
}

/// The color a window is filled with: transparent black for a transparent
/// window (transparency wins over any background color), else the packed
/// background color if there is one.
pub open spec fn ohos_color_of(transparent: bool, bg: Option<(u8, u8, u8, u8)>) -> Option<u32> {
    if transparent {
        Some(0u32)
    } else {
        match bg {
            Some((r, g, b, a)) => Some(argb_of(r, g, b, a)),
            None => None,
        }
    }
}

/// Converts an RGBA color to the OHOS `0xAARRGGBB` format.
pub fn rgba_to_ohos_color(transparent: bool, bg: Option<(u8, u8, u8, u8)>) -> (c: Option<u32>)
    ensures
        c == ohos_color_of(transparent, bg),
{
    if transparent {
        Some(0x00000000)
    } else {
        match bg {
            Some((r, g, b, a)) => {
                let (r32, g32, b32, a32) = (r as u32, g as u32, b as u32, a as u32);
                let packed = (a32 << 24u32) | (r32 << 16u32) | (g32 << 8u32) | b32;
                assert(packed == a32 * 0x1000000 + r32 * 0x10000 + g32 * 0x100 + b32)
                    by (bit_vector)
                    requires
                        packed == (a32 << 24u32) | (r32 << 16u32) | (g32 << 8u32) | b32,
                        a32 < 256,
                        r32 < 256,
                        g32 < 256,
                        b32 < 256,
                ;
                Some(packed)
            },
            None => None,
        }
    }
}

/// The packed color gives back each component: alpha in the top byte, then
/// red, green and blue.
pub proof fn lemma_argb_components(r: u8, g: u8, b: u8, a: u8)
    ensures
        argb_of(r, g, b, a) / 0x1000000 == a,
        (argb_of(r, g, b, a) / 0x10000) % 0x100 == r,
        (argb_of(r, g, b, a) / 0x100) % 0x100 == g,
        argb_of(r, g, b, a) % 0x100 == b,
{
    let v: int = a as int * 0x1000000 + r as int * 0x10000 + g as int * 0x100 + b as int;
    assert(0 <= v < 0x100000000);
    assert(argb_of(r, g, b, a) == v);
    assert(v / 0x1000000 == a) by (nonlinear_arith)
        requires
            v == a as int * 0x1000000 + r as int * 0x10000 + g as int * 0x100 + b as int,
            0 <= r < 256,
            0 <= g < 256,
            0 <= b < 256,
    ;
    assert((v / 0x10000) % 0x100 == r) by (nonlinear_arith)
        requires
            v == a as int * 0x1000000 + r as int * 0x10000 + g as int * 0x100 + b as int,
            0 <= r < 256,
            0 <= g < 256,
            0 <= b < 256,
            0 <= a < 256,
    ;
    assert((v / 0x100) % 0x100 == g) by (nonlinear_arith)
        requires
            v == a as int * 0x1000000 + r as int * 0x10000 + g as int * 0x100 + b as int,
            0 <= r < 256,
            0 <= g < 256,
            0 <= b < 256,
            0 <= a < 256,
    ;
    assert(v % 0x100 == b) by (nonlinear_arith)
        requires
            v == a as int * 0x1000000 + r as int * 0x10000 + g as int * 0x100 + b as int,
            0 <= r < 256,
            0 <= g < 256,
            0 <= b < 256,
            0 <= a < 256,
    ;
}

/// A bridge operation on one window, dispatched to the ArkTS side.
#[derive(Clone, Debug, PartialEq, Eq)]
pub enum WindowOp {
    /// `setWindowLimits` with all four slots (0 = no limit).
    SetWindowLimits {
        window_id: i64,
        min_width: i64,
        min_height: i64,
        max_width: i64,
        max_height: i64,
    },
    /// Resizes the content area to the given physical size.
    ResizeInner { window_id: i64, width: i64, height: i64 },
    MoveTo { window_id: i64, x: i64, y: i64 },
    SetTitle { window_id: i64, title: String },
    Restore { window_id: i64 },
    Show { window_id: i64 },
    Minimize { window_id: i64 },
    Maximize { window_id: i64 },
    /// Leaves the maximized or full-screen state for floating.
    Recover { window_id: i64 },
    Focus { window_id: i64 },
    SetFocusable { window_id: i64, focusable: bool },
    Destroy { window_id: i64 },
    SetResizeByDrag { window_id: i64, enabled: bool },
    SetDecorationFlags { window_id: i64, flags: i32 },
    SetFullscreen { window_id: i64, on: bool },
    SetDecorations { window_id: i64, decorations: bool },
    SetTopmost { window_id: i64, topmost: bool },
    SetImePosition { window_id: i64, x: i64, y: i64 },
    SetCursorIcon { window_id: i64, style: i32 },
    /// Resolves the real window id, then locks or unlocks the cursor.
    SetCursorGrab { window_id: i64, grab: bool },
    /// Resolves the real window id, then sets the privacy mode.
    SetContentProtection { window_id: i64, enabled: bool },
    RequestUserAttention { window_id: i64 },
    SetTouchable { window_id: i64, touchable: bool },
    /// The global cursor visibility.
    SetCursorVisible { visible: bool },
    SetDraggable { window_id: i64, draggable: bool },
    SetBackgroundColor { window_id: i64, color: u32 },
}

/// The directions of an edge-drag resize.
#[derive(Clone, Copy, Debug, PartialEq, Eq, Structural)]
pub enum ResizeDirection {
    East,
    North,
    NorthEast,
    NorthWest,
    South,
    SouthEast,
    SouthWest,
    West,
}

/// The operations sent to a target window: none without a target, else the
/// one operation for it.
pub open spec fn on_target(target: Option<i64>, op: spec_fn(i64) -> WindowOp) -> Seq<WindowOp> {
    match target {
        Some(id) => seq![op(id)],
        None => Seq::empty(),
    }
}

/// The kind a new window is given: the requested one, else the main window
/// while none exists, else a floating sub-window.
pub open spec fn resolved_kind(requested: Option<OHOSWindowKind>, uiability_created: bool) -> OHOSWindowKind {
    match requested {
        Some(kind) => kind,
        None => if uiability_created {
            OHOSWindowKind::Float
        } else {
            OHOSWindowKind::UIAbility
        },
    }
}

/// Resolves the kind of a new window and claims the single main window.
/// A second main window is refused; a floating window never changes the
/// claim.
pub fn resolve_window_kind(requested: Option<OHOSWindowKind>, uiability_created: &mut bool) -> (r:
    Result<OHOSWindowKind, OsError>)
    ensures
        resolved_kind(requested, *old(uiability_created)) == OHOSWindowKind::UIAbility
            && *old(uiability_created) <==> r is Err,
        r is Ok ==> r->Ok_0 == resolved_kind(requested, *old(uiability_created)),
        r is Ok && r->Ok_0 == OHOSWindowKind::UIAbility ==> *final(uiability_created),
        !(r is Ok && r->Ok_0 == OHOSWindowKind::UIAbility) ==> *final(uiability_created)
            == *old(uiability_created),
{
    let kind = match requested {
        Some(kind) => kind,
        None => if *uiability_created {
            OHOSWindowKind::Float
        } else {
            OHOSWindowKind::UIAbility
        },
    };
    match kind {
        OHOSWindowKind::UIAbility => {
            if *uiability_created {
                return Err(OsError);
            }
            *uiability_created = true;
            Ok(kind)
        },
        OHOSWindowKind::Float => Ok(kind),
    }
}

/// The kinds a run of window creations is given (`None` for a refused one),
/// starting with the main window claimed or not.
pub open spec fn creation_run(requests: Seq<Option<OHOSWindowKind>>, created: bool) -> Seq<
    Option<OHOSWindowKind>,
>
    decreases requests.len(),
{
    if requests.len() == 0 {
        Seq::empty()
    } else {
        let kind = resolved_kind(requests[0], created);
        let refused = kind == OHOSWindowKind::UIAbility && created;
        let next = created || kind == OHOSWindowKind::UIAbility;
        seq![if refused { None } else { Some(kind) }] + creation_run(requests.drop_first(), next)
    }
}

proof fn lemma_claimed_run_has_no_main(requests: Seq<Option<OHOSWindowKind>>)
    ensures
        creation_run(requests, true).len() == requests.len(),
        forall|i: int|
            0 <= i < requests.len() ==> creation_run(requests, true)[i] != Some(
                OHOSWindowKind::UIAbility,
            ),
    decreases requests.len(),
{
    if requests.len() > 0 {
        lemma_claimed_run_has_no_main(requests.drop_first());
        let r = creation_run(requests, true);
        let rest = creation_run(requests.drop_first(), true);
        assert forall|i: int| 0 <= i < requests.len() implies r[i] != Some(OHOSWindowKind::UIAbility) by {
            if i > 0 {
                assert(r[i] == rest[i - 1]);
            }
        }
    }
}

/// Only one main window can exist: in any run of window creations at most
/// one is given the main-window kind, and none once it was claimed before.
pub proof fn lemma_single_main_window(requests: Seq<Option<OHOSWindowKind>>, created: bool)
    ensures
        creation_run(requests, created).len() == requests.len(),
        created ==> forall|i: int|
            0 <= i < requests.len() ==> creation_run(requests, created)[i] != Some(
                OHOSWindowKind::UIAbility,
            ),
        forall|i: int, j: int|
            0 <= i < j < requests.len() ==> !(creation_run(requests, created)[i] == Some(
                OHOSWindowKind::UIAbility,
            ) && creation_run(requests, created)[j] == Some(OHOSWindowKind::UIAbility)),
    decreases requests.len(),
{
    if created {
        lemma_claimed_run_has_no_main(requests);
    } else if requests.len() > 0 {
        let kind = resolved_kind(requests[0], created);
        let next = kind == OHOSWindowKind::UIAbility;
        lemma_single_main_window(requests.drop_first(), next);
        let r = creation_run(requests, created);
        let rest = creation_run(requests.drop_first(), next);
        assert(r.len() == requests.len());
        assert forall|i: int, j: int|
            0 <= i < j < requests.len() implies !(r[i] == Some(OHOSWindowKind::UIAbility) && r[j]
                == Some(OHOSWindowKind::UIAbility)) by {
            assert(r[j] == rest[j - 1]);
            if i > 0 {
                assert(r[i] == rest[i - 1]);
            } else if r[0] == Some(OHOSWindowKind::UIAbility) {
                assert(next);
            }
        }
    }
}

/// The parameters a floating sub-window is created with.
#[derive(Clone, Debug, PartialEq, Eq)]
pub struct FloatWindowParams {
    pub name: String,
    pub window_type: i32,
    pub width: i32,
    pub height: i32,
    pub x: i32,
    pub y: i32,
    pub decorations: bool,
    pub transparent: bool,
    pub background_color: Option<u32>,
}

/// `p` are the creation parameters of a floating sub-window: named by its
/// label, else by its title; of the floating window type; of the requested
/// physical size, else 800x600; at the requested physical position, else
/// (100, 100); with the requested decorations and transparency, and the
/// packed background color (transparent black for a transparent window).
pub open spec fn is_float_params(
    p: FloatWindowParams,
    label: Option<String>,
    title: String,
    inner_size: Option<(i32, i32)>,
    position: Option<(i32, i32)>,
    decorations: bool,
    transparent: bool,
    background_color: Option<(u8, u8, u8, u8)>,
) -> bool {
    &&& p.name@ == (match label {
        Some(l) => l@,
        None => title@,
    })
    &&& p.window_type == WINDOW_TYPE_FLOAT
    &&& (p.width, p.height) == (match inner_size {
        Some(s) => s,
        None => (800i32, 600i32),
    })
    &&& (p.x, p.y) == (match position {
        Some(q) => q,
        None => (100i32, 100i32),
    })
    &&& p.decorations == decorations
    &&& p.transparent == transparent
    &&& p.background_color == ohos_color_of(transparent, background_color)
}

/// Builds the creation parameters of a floating sub-window: named by its
/// label, else by its title; of the requested physical size, else 800x600;
/// at the requested physical position, else (100, 100).
pub fn float_window_params(
    label: Option<String>,
    title: String,
    inner_size: Option<(i32, i32)>,
    position: Option<(i32, i32)>,
    decorations: bool,
    transparent: bool,
    background_color: Option<(u8, u8, u8, u8)>,
) -> (p: FloatWindowParams)
    ensures
        is_float_params(
            p,
            label,
            title,
            inner_size,
            position,
            decorations,
            transparent,
            background_color,
        ),
{
    let name = match label {
        Some(l) => l,
        None => title,
    };
    let (width, height) = match inner_size {
        Some(s) => s,
        None => (800, 600),
    };
    let (x, y) = match position {
        Some(q) => q,
        None => (100, 100),
    };
    FloatWindowParams {
        name,
        window_type: WINDOW_TYPE_FLOAT,
        width,
        height,
        x,
        y,
        decorations,
        transparent,
        background_color: rgba_to_ohos_color(transparent, background_color),
    }
}

/// The OS window to create for a new window: the parameters of a floating
/// sub-window when the requested kind resolves to one (with the main window
/// claimed or not), and nothing for the main window, which reuses the
/// ability's own.
pub fn create_request(
    requested: Option<OHOSWindowKind>,
    uiability_created: bool,
    label: Option<String>,
    title: String,
    inner_size: Option<(i32, i32)>,
    position: Option<(i32, i32)>,
    decorations: bool,
    transparent: bool,
    background_color: Option<(u8, u8, u8, u8)>,
) -> (r: Option<FloatWindowParams>)
    ensures
        r is Some <==> resolved_kind(requested, uiability_created) == OHOSWindowKind::Float,
        r is Some ==> is_float_params(
            r->0,
            label,
            title,
            inner_size,
            position,
            decorations,
            transparent,
            background_color,
        ),
{
    let kind = match requested {
        Some(kind) => kind,
        None => if uiability_created {
            OHOSWindowKind::Float
        } else {
            OHOSWindowKind::UIAbility
        },
    };
    match kind {
        OHOSWindowKind::UIAbility => None,
        OHOSWindowKind::Float => Some(
            float_window_params(
                label,
                title,
                inner_size,
                position,
                decorations,
                transparent,
                background_color,
            ),
        ),
    }
}

/// What a window is built with, sizes already in physical pixels.
#[derive(Clone, Copy, Debug, PartialEq, Eq, Structural)]
pub struct WindowAttributes {
    pub decorations: bool,
    pub transparent: bool,
    pub content_protection: bool,
    pub min_width: Option<u32>,
    pub min_height: Option<u32>,
    pub max_width: Option<u32>,
    pub max_height: Option<u32>,
}

/// A size-constraint slot as the bridge takes it: 0 for no limit.
pub open spec fn slot(v: Option<u32>) -> u32 {
    match v {
        Some(x) => x,
        None => 0u32,
    }
}

fn slot_value(v: Option<u32>) -> (x: u32)
    ensures
        x == slot(v),
{
    match v {
        Some(x) => x,
        None => 0,
    }
}

/// The state a window keeps: its OHOS id (0 = main window), whether the
/// bridge client was ready when it was built, the system state mirror, the
/// decoration state and the size-constraint cache (physical px, 0 = no limit).
#[derive(Clone, Copy, Debug, PartialEq, Eq, Structural)]
pub struct Window {
    pub window_id: Option<i64>,
    pub has_client: bool,
    pub mirror: WindowStateMirror,
    pub decorations: bool,
    pub transparent: bool,
    pub always_on_top: bool,
    pub decoration_flags: u8,
    pub min_inner_width: u32,
    pub min_inner_height: u32,
    pub max_inner_width: u32,
    pub max_inner_height: u32,
}

/// The state of a new window with the given id: visible and in no other
/// state, fully decorated, not kept on top, with the builder's decorations,
/// transparency and size limits (0 = no limit).
pub open spec fn initial_window(window_id: Option<i64>, has_client: bool, attrs: WindowAttributes) -> Window {
    Window {
        window_id,
        has_client,
        mirror: WindowStateMirror { visible: true, fullscreen: false, maximized: false, minimized: false },
        decorations: attrs.decorations,
        transparent: attrs.transparent,
        always_on_top: false,
        decoration_flags: FLAG_ALL_DECORATIONS,
        min_inner_width: slot(attrs.min_width),
        min_inner_height: slot(attrs.min_height),
        max_inner_width: slot(attrs.max_width),
        max_inner_height: slot(attrs.max_height),
    }
}

impl Window {
    /// The window a bridge operation is sent to: its id, when it has one and
    /// the bridge client is ready.
    pub open spec fn target(&self) -> Option<i64> {
        if self.has_client {
            self.window_id
        } else {
            None
        }
    }

    pub open spec fn limits_op(&self, id: i64) -> WindowOp {
        WindowOp::SetWindowLimits {
            window_id: id,
            min_width: self.min_inner_width as i64,
            min_height: self.min_inner_height as i64,
            max_width: self.max_inner_width as i64,
            max_height: self.max_inner_height as i64,
        }
    }

    /// `setWindowLimits` with the cached constraints, to the target window.
    pub open spec fn limits_ops(&self) -> Seq<WindowOp> {
        on_target(self.target(), |id: i64| self.limits_op(id))
    }

    /// The window with a new minimum content size (`None` = no limit).
    pub open spec fn with_min_size(self, size: Option<(u32, u32)>) -> Window {
        Window {
            min_inner_width: match size {
                Some(s) => s.0,
                None => 0u32,
            },
            min_inner_height: match size {
                Some(s) => s.1,
                None => 0u32,
            },
            ..self
        }
    }

    /// The window with a new maximum content size (`None` = no limit).
    pub open spec fn with_max_size(self, size: Option<(u32, u32)>) -> Window {
        Window {
            max_inner_width: match size {
                Some(s) => s.0,
                None => 0u32,
            },
            max_inner_height: match size {
                Some(s) => s.1,
                None => 0u32,
            },
            ..self
        }
    }

    /// The window after entering (`on`) or leaving full screen.
    pub open spec fn with_fullscreen(self, on: bool) -> Window {
        Window { mirror: WindowStateMirror { fullscreen: on, maximized: on, ..self.mirror }, ..self }
    }

    /// The operations a new window sends at once: its size constraints, when
    /// the builder gave any; hidden decorations, for a main window built
    /// without them; content protection, when asked for and the API level is
    /// at least 15.
    pub open spec fn creation_ops(
        &self,
        kind: OHOSWindowKind,
        attrs: WindowAttributes,
        api_version: i32,
    ) -> Seq<WindowOp> {
        let has_constraints = attrs.min_width is Some || attrs.min_height is Some
            || attrs.max_width is Some || attrs.max_height is Some;
        let limits = if has_constraints {
            self.limits_ops()
        } else {
            Seq::empty()
        };
        let decor = if kind == OHOSWindowKind::UIAbility && !attrs.decorations && self.has_client {
            seq![WindowOp::SetDecorations { window_id: 0, decorations: false }]
        } else {
            Seq::empty()
        };
        let protection = if attrs.content_protection && api_version >= 15 {
            on_target(
                self.target(),
                |id: i64| WindowOp::SetContentProtection { window_id: id, enabled: true },
            )
        } else {
            Seq::empty()
        };
        limits + decor + protection
    }

    fn target_id(&self) -> (t: Option<i64>)
        ensures
            t == self.target(),
    {
        if self.has_client {
            self.window_id
        } else {
            None
        }
    }

    fn limits(&self) -> (ops: Vec<WindowOp>)
        ensures
            ops@ == self.limits_ops(),
    {
        let mut ops: Vec<WindowOp> = Vec::new();
        if let Some(id) = self.target_id() {
            ops.push(
                WindowOp::SetWindowLimits {
                    window_id: id,
                    min_width: self.min_inner_width as i64,
                    min_height: self.min_inner_height as i64,
                    max_width: self.max_inner_width as i64,
                    max_height: self.max_inner_height as i64,
                },
            );
        }
        ops
    }

    /// Builds the state of a window of the given kind and id, and the
    /// operations it sends at once.
    pub fn initial(
        kind: OHOSWindowKind,
        window_id: Option<i64>,
        has_client: bool,
        attrs: WindowAttributes,
        api_version: i32,
    ) -> (r: (Window, Vec<WindowOp>))
        ensures
            r.0 == initial_window(window_id, has_client, attrs),
            r.1@ == r.0.creation_ops(kind, attrs, api_version),
    {
        let win = Window {
            window_id,
            has_client,
            mirror: WindowStateMirror::new(),
            decorations: attrs.decorations,
            transparent: attrs.transparent,
            always_on_top: false,
            decoration_flags: FLAG_ALL_DECORATIONS,
            min_inner_width: slot_value(attrs.min_width),
            min_inner_height: slot_value(attrs.min_height),
            max_inner_width: slot_value(attrs.max_width),
            max_inner_height: slot_value(attrs.max_height),
        };
        let mut ops: Vec<WindowOp> = Vec::new();
        if attrs.min_width.is_some() || attrs.min_height.is_some() || attrs.max_width.is_some()
            || attrs.max_height.is_some() {
            ops = win.limits();
        }
        if matches!(kind, OHOSWindowKind::UIAbility) && !attrs.decorations && has_client {
            ops.push(WindowOp::SetDecorations { window_id: 0, decorations: false });
        }
        if attrs.content_protection && api_version >= 15 {
            if let Some(id) = win.target_id() {
                ops.push(WindowOp::SetContentProtection { window_id: id, enabled: true });
            }
        }
        proof {
            let l = if attrs.min_width is Some || attrs.min_height is Some
                || attrs.max_width is Some || attrs.max_height is Some {
                win.limits_ops()
            } else {
                Seq::empty()
            };
            assert(l + Seq::<WindowOp>::empty() == l);
        }
        (win, ops)
    }

    /// Creates a new window. Its kind is the requested one, else the main
    /// window while none exists, else a floating sub-window. A second main
    /// window is refused; the main window gets id 0 and claims the single
    /// main-window slot. A floating window gets the id its OS window was
    /// created with (`created`, the outcome of creating it from
    /// `create_request`); a failed or missing creation is refused. A floating
    /// window never changes the claim. On success the window's initial state
    /// and the operations it sends at once are returned.
    pub fn new(
        requested: Option<OHOSWindowKind>,
        uiability_created: &mut bool,
        has_client: bool,
        attrs: WindowAttributes,
        api_version: i32,
        created: Option<Result<i64, OsError>>,
    ) -> (r: Result<(Window, Vec<WindowOp>), OsError>)
        ensures
            ({
                let kind = resolved_kind(requested, *old(uiability_created));
                &&& kind == OHOSWindowKind::UIAbility && *old(uiability_created) ==> {
                    &&& r is Err
                    &&& *final(uiability_created) == *old(uiability_created)
                }
                &&& kind == OHOSWindowKind::UIAbility && !*old(uiability_created) ==> {
                    &&& r is Ok
                    &&& r->Ok_0.0 == initial_window(Some(0), has_client, attrs)
                    &&& r->Ok_0.1@ == r->Ok_0.0.creation_ops(kind, attrs, api_version)
                    &&& *final(uiability_created)
                }
                &&& kind == OHOSWindowKind::Float ==> {
                    &&& *final(uiability_created) == *old(uiability_created)
                    &&& match created {
                        Some(Ok(id)) => {
                            &&& r is Ok
                            &&& r->Ok_0.0 == initial_window(Some(id), has_client, attrs)
                            &&& r->Ok_0.1@ == r->Ok_0.0.creation_ops(kind, attrs, api_version)
                        },
                        _ => r is Err,
                    }
                }
            }),
    {
        let kind = match resolve_window_kind(requested, uiability_created) {
            Ok(kind) => kind,
            Err(e) => {
                return Err(e);
            },
        };
        let window_id = match kind {
            OHOSWindowKind::UIAbility => 0,
            OHOSWindowKind::Float => match created {
                Some(Ok(id)) => id,
                _ => {
                    return Err(OsError);
                },
            },
        };
        Ok(Window::initial(kind, Some(window_id), has_client, attrs, api_version))
    }

    /// The window's id: its OHOS id, 0 without one.
    pub fn id(&self) -> (id: WindowId)
        ensures
            id == WindowId(
                match self.window_id {
                    Some(i) => i,
                    None => 0,
                },
            ),
    {
        WindowId(
            match self.window_id {
                Some(i) => i,
                None => 0,
            },
        )
    }

    pub fn window_id(&self) -> (id: Option<i64>)
        ensures
            id == self.window_id,
    {
        self.window_id
    }

    /// Resizes the content area to a physical size, unless the window is not
    /// resizable.
    pub fn set_inner_size(&self, width: u32, height: u32) -> (ops: Vec<WindowOp>)
        ensures
            ops@ == if has_flag(self.decoration_flags, FLAG_RESIZABLE) {
                on_target(
                    self.target(),
                    |id: i64|
                        WindowOp::ResizeInner {
                            window_id: id,
                            width: width as i64,
                            height: height as i64,
                        },
                )
            } else {
                Seq::empty()
            },
    {
        let mut ops: Vec<WindowOp> = Vec::new();
        if self.decoration_flags & FLAG_RESIZABLE == 0 {
            return ops;
        }
        if let Some(id) = self.target_id() {
            ops.push(WindowOp::ResizeInner { window_id: id, width: width as i64, height: height as i64 });
        }
        ops
    }

    /// Replaces all four size constraints (physical px, `None` = no limit)
    /// and sends them.
    pub fn set_inner_size_constraints(
        &mut self,
        min_width: Option<u32>,
        min_height: Option<u32>,
        max_width: Option<u32>,
        max_height: Option<u32>,
    ) -> (ops: Vec<WindowOp>)
        ensures
            *final(self) == (Window {
                min_inner_width: slot(min_width),
                min_inner_height: slot(min_height),
                max_inner_width: slot(max_width),
                max_inner_height: slot(max_height),
                ..*old(self)
            }),
            ops@ == final(self).limits_ops(),
    {
        self.min_inner_width = slot_value(min_width);
        self.min_inner_height = slot_value(min_height);
        self.max_inner_width = slot_value(max_width);
        self.max_inner_height = slot_value(max_height);
        self.limits()
    }

    /// Sets the minimum content size (physical px; `None` lifts it) and sends
    /// it together with the cached maximum, so the maximum is kept.
    pub fn set_min_inner_size(&mut self, size: Option<(u32, u32)>) -> (ops: Vec<WindowOp>)
        ensures
            *final(self) == old(self).with_min_size(size),
            ops@ == final(self).limits_ops(),
    {
        let (w, h) = match size {
            Some(s) => s,
            None => (0, 0),
        };
        self.min_inner_width = w;
        self.min_inner_height = h;
        self.limits()
    }

    /// Sets the maximum content size (physical px; `None` lifts it) and sends
    /// it together with the cached minimum, so the minimum is kept.
    pub fn set_max_inner_size(&mut self, size: Option<(u32, u32)>) -> (ops: Vec<WindowOp>)
        ensures
            *final(self) == old(self).with_max_size(size),
            ops@ == final(self).limits_ops(),
    {
        let (w, h) = match size {
            Some(s) => s,
            None => (0, 0),
        };
        self.max_inner_width = w;
        self.max_inner_height = h;
        self.limits()
    }

    /// Moves the window's outer top-left corner to a physical position.
    pub fn set_outer_position(&self, x: i32, y: i32) -> (ops: Vec<WindowOp>)
        ensures
            ops@ == on_target(
                self.target(),
                |id: i64| WindowOp::MoveTo { window_id: id, x: x as i64, y: y as i64 },
            ),
    {
        let mut ops: Vec<WindowOp> = Vec::new();
        if let Some(id) = self.target_id() {
            ops.push(WindowOp::MoveTo { window_id: id, x: x as i64, y: y as i64 });
        }
        ops
    }

    /// Sets the title-bar text.
    pub fn set_title(&self, title: &str) -> (ops: Vec<WindowOp>)
        ensures
            self.target() is None ==> ops@.len() == 0,
            self.target() is Some ==> ops@.len() == 1 && (ops@[0] matches WindowOp::SetTitle {
                window_id,
                title: t,
            } && window_id == self.target()->0 && t@ == title@),
    {
        let mut ops: Vec<WindowOp> = Vec::new();
        if let Some(id) = self.target_id() {
            ops.push(WindowOp::SetTitle { window_id: id, title: title.to_string() });
        }
        ops
    }

    /// Shows the window (restore, then show) or hides it (minimize, as OHOS
    /// has no hide); the minimized mirror follows when the operation is sent.
    pub fn set_visible(&mut self, visible: bool) -> (ops: Vec<WindowOp>)
        ensures
            old(self).target() is None ==> *final(self) == *old(self) && ops@.len() == 0,
            old(self).target() is Some ==> {
                let id = old(self).target()->0;
                &&& *final(self) == (Window {
                    mirror: WindowStateMirror { minimized: !visible, ..old(self).mirror },
                    ..*old(self)
                })
                &&& ops@ == if visible {
                    seq![WindowOp::Restore { window_id: id }, WindowOp::Show { window_id: id }]
                } else {
                    seq![WindowOp::Minimize { window_id: id }]
                }
            },
    {
        let mut ops: Vec<WindowOp> = Vec::new();
        if let Some(id) = self.target_id() {
            self.mirror.minimized = !visible;
            if visible {
                ops.push(WindowOp::Restore { window_id: id });
                ops.push(WindowOp::Show { window_id: id });
            } else {
                ops.push(WindowOp::Minimize { window_id: id });
            }
        }
        ops
    }

    /// Lets the window take focus or not; the main window's focusability is
    /// managed by the system, so only a sub-window (id > 0) is asked.
    pub fn set_focusable(&self, focusable: bool) -> (ops: Vec<WindowOp>)
        ensures
            ops@ == match self.target() {
                Some(id) => if id > 0 {
                    seq![WindowOp::SetFocusable { window_id: id, focusable }]
                } else {
                    Seq::empty()
                },
                None => Seq::empty(),
            },
    {
        let mut ops: Vec<WindowOp> = Vec::new();
        if let Some(id) = self.target_id() {
            if id > 0 {
                ops.push(WindowOp::SetFocusable { window_id: id, focusable });
            }
        }
        ops
    }

    /// Destroys the OS window (the system refuses this for the main window).
    pub fn close(&self) -> (ops: Vec<WindowOp>)
        ensures
            ops@ == on_target(self.target(), |id: i64| WindowOp::Destroy { window_id: id }),
    {
        let mut ops: Vec<WindowOp> = Vec::new();
        if let Some(id) = self.target_id() {
            ops.push(WindowOp::Destroy { window_id: id });
        }
        ops
    }

    /// Sets or clears one decoration bit and sends the whole bit field.
    pub fn set_decoration_flag(&mut self, flag: u8, on: bool) -> (ops: Vec<WindowOp>)
        ensures
            *final(self) == (Window {
                decoration_flags: flags_with(old(self).decoration_flags, flag, on),
                ..*old(self)
            }),
            ops@ == on_target(
                old(self).target(),
                |id: i64|
                    WindowOp::SetDecorationFlags {
                        window_id: id,
                        flags: flags_with(old(self).decoration_flags, flag, on) as i32,
                    },
            ),
    {
        let flags = if on {
            self.decoration_flags | flag
        } else {
            self.decoration_flags & !flag
        };
        self.decoration_flags = flags;
        let mut ops: Vec<WindowOp> = Vec::new();
        if let Some(id) = self.target_id() {
            ops.push(WindowOp::SetDecorationFlags { window_id: id, flags: flags as i32 });
        }
        ops
    }

    /// Allows or forbids resizing: the resizable bit, then edge-drag
    /// resizing.
    pub fn set_resizable(&mut self, resizable: bool) -> (ops: Vec<WindowOp>)
        ensures
            *final(self) == (Window {
                decoration_flags: flags_with(old(self).decoration_flags, FLAG_RESIZABLE, resizable),
                ..*old(self)
            }),
            ops@ == on_target(
                old(self).target(),
                |id: i64|
                    WindowOp::SetDecorationFlags {
                        window_id: id,
                        flags: flags_with(old(self).decoration_flags, FLAG_RESIZABLE, resizable) as i32,
                    },
            ) + on_target(
                old(self).target(),
                |id: i64| WindowOp::SetResizeByDrag { window_id: id, enabled: resizable },
            ),
    {
        let mut ops = self.set_decoration_flag(FLAG_RESIZABLE, resizable);
        if let Some(id) = self.target_id() {
            ops.push(WindowOp::SetResizeByDrag { window_id: id, enabled: resizable });
        }
        proof {
            assert(self.target() == old(self).target());
        }
        ops
    }

    pub fn set_minimizable(&mut self, minimizable: bool) -> (ops: Vec<WindowOp>)
        ensures
            *final(self) == (Window {
                decoration_flags: flags_with(old(self).decoration_flags, FLAG_MINIMIZABLE, minimizable),
                ..*old(self)
            }),
            ops@ == on_target(
                old(self).target(),
                |id: i64|
                    WindowOp::SetDecorationFlags {
                        window_id: id,
                        flags: flags_with(old(self).decoration_flags, FLAG_MINIMIZABLE, minimizable) as i32,
                    },
            ),
    {
        self.set_decoration_flag(FLAG_MINIMIZABLE, minimizable)
    }

    pub fn set_maximizable(&mut self, maximizable: bool) -> (ops: Vec<WindowOp>)
        ensures
            *final(self) == (Window {
                decoration_flags: flags_with(old(self).decoration_flags, FLAG_MAXIMIZABLE, maximizable),
                ..*old(self)
            }),
            ops@ == on_target(
                old(self).target(),
                |id: i64|
                    WindowOp::SetDecorationFlags {
                        window_id: id,
                        flags: flags_with(old(self).decoration_flags, FLAG_MAXIMIZABLE, maximizable) as i32,
                    },
            ),
    {
        self.set_decoration_flag(FLAG_MAXIMIZABLE, maximizable)
    }

    pub fn set_closable(&mut self, closable: bool) -> (ops: Vec<WindowOp>)
        ensures
            *final(self) == (Window {
                decoration_flags: flags_with(old(self).decoration_flags, FLAG_CLOSABLE, closable),
                ..*old(self)
            }),
            ops@ == on_target(
                old(self).target(),
                |id: i64|
                    WindowOp::SetDecorationFlags {
                        window_id: id,
                        flags: flags_with(old(self).decoration_flags, FLAG_CLOSABLE, closable) as i32,
                    },
            ),
    {
        self.set_decoration_flag(FLAG_CLOSABLE, closable)
    }

    /// Minimizes or restores the window. Minimizing is refused when the
    /// window is not minimizable; otherwise the minimized mirror records the
    /// intent at once (the next status report corrects it).
    pub fn set_minimized(&mut self, minimized: bool) -> (ops: Vec<WindowOp>)
        ensures
            minimized && !has_flag(old(self).decoration_flags, FLAG_MINIMIZABLE) ==> *final(self)
                == *old(self) && ops@.len() == 0,
            !(minimized && !has_flag(old(self).decoration_flags, FLAG_MINIMIZABLE)) ==> {
                &&& *final(self) == (Window {
                    mirror: WindowStateMirror { minimized, ..old(self).mirror },
                    ..*old(self)
                })
                &&& ops@ == on_target(
                    old(self).target(),
                    |id: i64|
                        if minimized {
                            WindowOp::Minimize { window_id: id }
                        } else {
                            WindowOp::Restore { window_id: id }
                        },
                )
            },
    {
        let mut ops: Vec<WindowOp> = Vec::new();
        if minimized && self.decoration_flags & FLAG_MINIMIZABLE == 0 {
            return ops;
        }
        self.mirror.minimized = minimized;
        if let Some(id) = self.target_id() {
            if minimized {
                ops.push(WindowOp::Minimize { window_id: id });
            } else {
                ops.push(WindowOp::Restore { window_id: id });
            }
        }
        ops
    }

    /// Maximizes the window or returns it to floating. Maximizing is refused
    /// when the window is not maximizable; otherwise the maximized mirror
    /// records the intent at once.
    pub fn set_maximized(&mut self, maximized: bool) -> (ops: Vec<WindowOp>)
        ensures
            maximized && !has_flag(old(self).decoration_flags, FLAG_MAXIMIZABLE) ==> *final(self)
                == *old(self) && ops@.len() == 0,
            !(maximized && !has_flag(old(self).decoration_flags, FLAG_MAXIMIZABLE)) ==> {
                &&& *final(self) == (Window {
                    mirror: WindowStateMirror { maximized, ..old(self).mirror },
                    ..*old(self)
                })
                &&& ops@ == on_target(
                    old(self).target(),
                    |id: i64|
                        if maximized {
                            WindowOp::Maximize { window_id: id }
                        } else {
                            WindowOp::Recover { window_id: id }
                        },
                )
            },
    {
        let mut ops: Vec<WindowOp> = Vec::new();
        if maximized && self.decoration_flags & FLAG_MAXIMIZABLE == 0 {
            return ops;
        }
        self.mirror.maximized = maximized;
        if let Some(id) = self.target_id() {
            if maximized {
                ops.push(WindowOp::Maximize { window_id: id });
            } else {
                ops.push(WindowOp::Recover { window_id: id });
            }
        }
        ops
    }

    /// Enters (any `Some`) or leaves (`None`) the immersive full-screen
    /// layout. Full screen counts as maximized, and leaving it recovers to
    /// floating, so both mirror bits follow.
    pub fn set_fullscreen(&mut self, fullscreen: Option<Fullscreen>) -> (ops: Vec<WindowOp>)
        ensures
            *final(self) == old(self).with_fullscreen(fullscreen is Some),
            ops@ == on_target(
                old(self).target(),
                |id: i64| WindowOp::SetFullscreen { window_id: id, on: fullscreen is Some },
            ),
    {
        let on = fullscreen.is_some();
        self.mirror.fullscreen = on;
        self.mirror.maximized = on;
        let mut ops: Vec<WindowOp> = Vec::new();
        if let Some(id) = self.target_id() {
            ops.push(WindowOp::SetFullscreen { window_id: id, on });
        }
        ops
    }

    pub fn fullscreen(&self) -> (f: Option<Fullscreen>)
        ensures
            f == if self.mirror.fullscreen {
                Some(Fullscreen::Borderless)
            } else {
                None
            },
    {
        if self.mirror.fullscreen {
            Some(Fullscreen::Borderless)
        } else {
            None
        }
    }

    /// Shows or hides the title bar.
    pub fn set_decorations(&mut self, decorations: bool) -> (ops: Vec<WindowOp>)
        ensures
            *final(self) == (Window { decorations, ..*old(self) }),
            ops@ == on_target(
                old(self).target(),
                |id: i64| WindowOp::SetDecorations { window_id: id, decorations },
            ),
    {
        self.decorations = decorations;
        let mut ops: Vec<WindowOp> = Vec::new();
        if let Some(id) = self.target_id() {
            ops.push(WindowOp::SetDecorations { window_id: id, decorations });
        }
        ops
    }

    /// Keeps the window above others; the flag records the request, as the
    /// system offers no z-order query.
    pub fn set_always_on_top(&mut self, always_on_top: bool) -> (ops: Vec<WindowOp>)
        ensures
            *final(self) == (Window { always_on_top, ..*old(self) }),
            ops@ == on_target(
                old(self).target(),
                |id: i64| WindowOp::SetTopmost { window_id: id, topmost: always_on_top },
            ),
    {
        self.always_on_top = always_on_top;
        let mut ops: Vec<WindowOp> = Vec::new();
        if let Some(id) = self.target_id() {
            ops.push(WindowOp::SetTopmost { window_id: id, topmost: always_on_top });
        }
        ops
    }

    /// Moves the input method's cursor to a physical position.
    pub fn set_ime_position(&self, x: i32, y: i32) -> (ops: Vec<WindowOp>)
        ensures
            ops@ == on_target(
                self.target(),
                |id: i64| WindowOp::SetImePosition { window_id: id, x: x as i64, y: y as i64 },
            ),
    {
        let mut ops: Vec<WindowOp> = Vec::new();
        if let Some(id) = self.target_id() {
            ops.push(WindowOp::SetImePosition { window_id: id, x: x as i64, y: y as i64 });
        }
        ops
    }

    pub fn is_always_on_top(&self) -> (b: bool)
        ensures
            b == self.always_on_top,
    {
        self.always_on_top
    }

    pub fn is_minimized(&self) -> (b: bool)
        ensures
            b == self.mirror.minimized,
    {
        self.mirror.minimized
    }

    pub fn is_maximized(&self) -> (b: bool)
        ensures
            b == self.mirror.maximized,
    {
        self.mirror.maximized
    }

    pub fn is_decorated(&self) -> (b: bool)
        ensures
            b == self.decorations,
    {
        self.decorations
    }

    pub fn is_visible(&self) -> (b: bool)
        ensures
            b == self.mirror.visible,
    {
        self.mirror.visible
    }

    pub fn is_resizable(&self) -> (b: bool)
        ensures
            b == has_flag(self.decoration_flags, FLAG_RESIZABLE),
    {
        self.decoration_flags & FLAG_RESIZABLE != 0
    }

    pub fn is_minimizable(&self) -> (b: bool)
        ensures
            b == has_flag(self.decoration_flags, FLAG_MINIMIZABLE),
    {
        self.decoration_flags & FLAG_MINIMIZABLE != 0
    }

    pub fn is_maximizable(&self) -> (b: bool)
        ensures
            b == has_flag(self.decoration_flags, FLAG_MAXIMIZABLE),
    {
        self.decoration_flags & FLAG_MAXIMIZABLE != 0
    }

    pub fn is_closable(&self) -> (b: bool)
        ensures
            b == has_flag(self.decoration_flags, FLAG_CLOSABLE),
    {
        self.decoration_flags & FLAG_CLOSABLE != 0
    }

    /// Shows a cursor icon over the window.
    pub fn set_cursor_icon(&self, icon: CursorIcon) -> (ops: Vec<WindowOp>)
        ensures
            ops@ == on_target(
                self.target(),
                |id: i64| WindowOp::SetCursorIcon { window_id: id, style: pointer_style_of(icon) },
            ),
    {
        let style = ohos_pointer_style(icon);
        let mut ops: Vec<WindowOp> = Vec::new();
        if let Some(id) = self.target_id() {
            ops.push(WindowOp::SetCursorIcon { window_id: id, style });
        }
        ops
    }

    /// Confines the cursor to the window or releases it. Not supported below
    /// API level 22, without a window id, or before the bridge client is
    /// ready.
    pub fn set_cursor_grab(&self, grab: bool, api_version: i32) -> (r: Result<
        Vec<WindowOp>,
        ExternalError,
    >)
        ensures
            r is Err <==> api_version < 22 || self.target() is None,
            r is Ok ==> r->Ok_0@ == seq![
                WindowOp::SetCursorGrab { window_id: self.target()->0, grab },
            ],
    {
        if api_version < 22 {
            return Err(ExternalError::NotSupported);
        }
        match self.target_id() {
            Some(id) => {
                let mut ops: Vec<WindowOp> = Vec::new();
                ops.push(WindowOp::SetCursorGrab { window_id: id, grab });
                Ok(ops)
            },
            None => Err(ExternalError::NotSupported),
        }
    }

    /// Keeps the window's content out of screenshots and recordings, from
    /// API level 15 on.
    pub fn set_content_protection(&self, enabled: bool, api_version: i32) -> (ops: Vec<WindowOp>)
        ensures
            ops@ == if api_version >= 15 {
                on_target(
                    self.target(),
                    |id: i64| WindowOp::SetContentProtection { window_id: id, enabled },
                )
            } else {
                Seq::empty()
            },
    {
        let mut ops: Vec<WindowOp> = Vec::new();
        if api_version < 15 {
            return ops;
        }
        if let Some(id) = self.target_id() {
            ops.push(WindowOp::SetContentProtection { window_id: id, enabled });
        }
        ops
    }

    /// Asks for the user's attention (a notification, as the window layer
    /// has no such request).
    pub fn request_user_attention(&self) -> (ops: Vec<WindowOp>)
        ensures
            ops@ == on_target(
                self.target(),
                |id: i64| WindowOp::RequestUserAttention { window_id: id },
            ),
    {
        let mut ops: Vec<WindowOp> = Vec::new();
        if let Some(id) = self.target_id() {
            ops.push(WindowOp::RequestUserAttention { window_id: id });
        }
        ops
    }

    /// Moving the cursor is not supported on this platform.
    pub fn set_cursor_position(&self, _x: i32, _y: i32) -> (r: Result<(), ExternalError>)
        ensures
            r == Err::<(), ExternalError>(ExternalError::NotSupported),
    {
        Err(ExternalError::NotSupported)
    }

    /// Lets pointer events pass through the window (`ignore`) or not: the
    /// window is made untouchable or touchable. Not supported without a
    /// window id or before the bridge client is ready.
    pub fn set_ignore_cursor_events(&self, ignore: bool) -> (r: Result<Vec<WindowOp>, ExternalError>)
        ensures
            r is Err <==> self.target() is None,
            r is Ok ==> r->Ok_0@ == seq![
                WindowOp::SetTouchable { window_id: self.target()->0, touchable: !ignore },
            ],
    {
        match self.target_id() {
            Some(id) => {
                let mut ops: Vec<WindowOp> = Vec::new();
                ops.push(WindowOp::SetTouchable { window_id: id, touchable: !ignore });
                Ok(ops)
            },
            None => Err(ExternalError::NotSupported),
        }
    }

    /// Shows or hides the cursor; the setting is global, so only the bridge
    /// client is needed.
    pub fn set_cursor_visible(&self, visible: bool) -> (ops: Vec<WindowOp>)
        ensures
            ops@ == if self.has_client {
                seq![WindowOp::SetCursorVisible { visible }]
            } else {
                Seq::empty()
            },
    {
        let mut ops: Vec<WindowOp> = Vec::new();
        if self.has_client {
            ops.push(WindowOp::SetCursorVisible { visible });
        }
        ops
    }

    /// Dragging is started by the window's own title bar, so this succeeds
    /// and does nothing.
    pub fn drag_window(&self) -> (r: Result<(), ExternalError>)
        ensures
            r is Ok,
    {
        Ok(())
    }

    /// No directional resize exists: edge-drag resizing is enabled and the
    /// direction is ignored.
    pub fn drag_resize_window(&self, _direction: ResizeDirection) -> (r: Result<
        Vec<WindowOp>,
        ExternalError,
    >)
        ensures
            r is Ok,
            r->Ok_0@ == on_target(
                self.target(),
                |id: i64| WindowOp::SetDraggable { window_id: id, draggable: true },
            ),
    {
        let mut ops: Vec<WindowOp> = Vec::new();
        if let Some(id) = self.target_id() {
            ops.push(WindowOp::SetDraggable { window_id: id, draggable: true });
        }
        Ok(ops)
    }

    /// Sets the background color; a transparent window ignores it, and no
    /// color means opaque white.
    pub fn set_background_color(&self, color: Option<(u8, u8, u8, u8)>) -> (ops: Vec<WindowOp>)
        ensures
            ops@ == if self.transparent {
                Seq::empty()
            } else {
                on_target(
                    self.target(),
                    |id: i64|
                        WindowOp::SetBackgroundColor {
                            window_id: id,
                            color: match ohos_color_of(false, color) {
                                Some(c) => c,
                                None => 0xFFFFFFFFu32,
                            },
                        },
                )
            },
    {
        let mut ops: Vec<WindowOp> = Vec::new();
        if self.transparent {
            return ops;
        }
        let c = match rgba_to_ohos_color(false, color) {
            Some(c) => c,
            None => 0xFFFFFFFF,
        };
        if let Some(id) = self.target_id() {
            ops.push(WindowOp::SetBackgroundColor { window_id: id, color: c });
        }
        ops
    }

    /// Titles are not read back on this platform.
    pub fn title(&self) -> (t: String)
        ensures
            t@ == Seq::<char>::empty(),
    {
        String::new()
    }

    /// Focuses the window.
    pub fn set_focus(&self) -> (ops: Vec<WindowOp>)
        ensures
            ops@ == on_target(self.target(), |id: i64| WindowOp::Focus { window_id: id }),
    {
        let mut ops: Vec<WindowOp> = Vec::new();
        if let Some(id) = self.target_id() {
            ops.push(WindowOp::Focus { window_id: id });
        }
        ops
    }
}

/// What a status report means, by its `WindowStatusType` value: 1 (full
/// screen) reads visible, fullscreen and maximized; 2 (maximize) visible and
/// maximized; 3 (minimize) hidden and minimized; 4 (floating) visible only;
/// 5 (split screen) visible and not fullscreen, keeping maximized and
/// minimized; any other value changes nothing.
pub proof fn lemma_status_report_meaning(m: WindowStateMirror, value: i32)
    ensures
        ({
            let r = mirror_after_status(m, window_status_of(value));
            &&& 1 <= value <= 4 ==> {
                &&& r.maximized == (value == 1 || value == 2)
                &&& r.fullscreen == (value == 1)
                &&& r.minimized == (value == 3)
                &&& r.visible == (value != 3)
            }
            &&& value == 5 ==> r.visible && !r.fullscreen && r.maximized == m.maximized
                && r.minimized == m.minimized
            &&& !(1 <= value <= 5) ==> r == m
        }),
{
}

/// The OHOS pointer style of each cursor icon, by style value: DEFAULT (0)
/// only for the default, arrow, context-menu and cell icons; the resize
/// arrows EAST (1) to NORTH_WEST_SOUTH_EAST (12); CROSS (13);
/// CURSOR_COPY (14) for alias and copy; CURSOR_FORBID (15) for not-allowed
/// and no-drop; HAND_GRABBING (17); HAND_OPEN (18); HAND_POINTING (19);
/// HELP (20); MOVE (21) for move and all-scroll; TEXT_CURSOR (26);
/// ZOOM_IN (27); ZOOM_OUT (28); HORIZONTAL_TEXT_CURSOR (39) for vertical
/// text; LOADING (42) for wait and progress.
pub proof fn lemma_pointer_style_by_value(icon: CursorIcon)
    ensures
        ({
            let s = pointer_style_of(icon);
            &&& (s == 0) <==> (icon == CursorIcon::Default || icon == CursorIcon::Arrow || icon
                == CursorIcon::ContextMenu || icon == CursorIcon::Cell)
            &&& (s == 1) <==> icon == CursorIcon::EResize
            &&& (s == 2) <==> icon == CursorIcon::WResize
            &&& (s == 3) <==> icon == CursorIcon::SResize
            &&& (s == 4) <==> icon == CursorIcon::NResize
            &&& (s == 5) <==> (icon == CursorIcon::EwResize || icon == CursorIcon::ColResize)
            &&& (s == 6) <==> (icon == CursorIcon::NsResize || icon == CursorIcon::RowResize)
            &&& (s == 7) <==> icon == CursorIcon::NeResize
            &&& (s == 8) <==> icon == CursorIcon::NwResize
            &&& (s == 9) <==> icon == CursorIcon::SeResize
            &&& (s == 10) <==> icon == CursorIcon::SwResize
            &&& (s == 11) <==> icon == CursorIcon::NeswResize
            &&& (s == 12) <==> icon == CursorIcon::NwseResize
            &&& (s == 13) <==> icon == CursorIcon::Crosshair
            &&& (s == 14) <==> (icon == CursorIcon::Alias || icon == CursorIcon::Copy)
            &&& (s == 15) <==> (icon == CursorIcon::NotAllowed || icon == CursorIcon::NoDrop)
            &&& (s == 17) <==> icon == CursorIcon::Grabbing
            &&& (s == 18) <==> icon == CursorIcon::Grab
            &&& (s == 19) <==> icon == CursorIcon::Hand
            &&& (s == 20) <==> icon == CursorIcon::Help
            &&& (s == 21) <==> (icon == CursorIcon::Move || icon == CursorIcon::AllScroll)
            &&& (s == 26) <==> icon == CursorIcon::Text
            &&& (s == 27) <==> icon == CursorIcon::ZoomIn
            &&& (s == 28) <==> icon == CursorIcon::ZoomOut
            &&& (s == 39) <==> icon == CursorIcon::VerticalText
            &&& (s == 42) <==> (icon == CursorIcon::Wait || icon == CursorIcon::Progress)
        }),
{
}

/// A new window enforces the builder's size limits at once: when any of the
/// four (minimum or maximum width or height) was given, and the window has
/// an id and a ready bridge client, its first operation sets all four limits
/// (0 for one not given); when none was given no limits are sent.
pub proof fn lemma_new_window_sends_builder_limits(
    kind: OHOSWindowKind,
    window_id: Option<i64>,
    has_client: bool,
    attrs: WindowAttributes,
    api_version: i32,
)
    ensures
        ({
            let ops = initial_window(window_id, has_client, attrs).creation_ops(
                kind,
                attrs,
                api_version,
            );
            let given = attrs.min_width is Some || attrs.min_height is Some || attrs.max_width
                is Some || attrs.max_height is Some;
            &&& given && has_client && window_id is Some ==> ops.len() >= 1 && ops[0]
                == WindowOp::SetWindowLimits {
                window_id: window_id->0,
                min_width: match attrs.min_width {
                    Some(v) => v as i64,
                    None => 0i64,
                },
                min_height: match attrs.min_height {
                    Some(v) => v as i64,
                    None => 0i64,
                },
                max_width: match attrs.max_width {
                    Some(v) => v as i64,
                    None => 0i64,
                },
                max_height: match attrs.max_height {
                    Some(v) => v as i64,
                    None => 0i64,
                },
            }
            &&& !given ==> forall|i: int| 0 <= i < ops.len() ==> !(ops[i] is SetWindowLimits)
        }),
{
    let w = initial_window(window_id, has_client, attrs);
    let ops = w.creation_ops(kind, attrs, api_version);
    let given = attrs.min_width is Some || attrs.min_height is Some || attrs.max_width is Some
        || attrs.max_height is Some;
    if given && has_client && window_id is Some {
        assert(w.limits_ops() =~= seq![w.limits_op(window_id->0)]);
    }
}

/// Setting or clearing a decoration bit reads back as set or cleared, and
/// every other decoration bit reads back as before.
pub proof fn lemma_decoration_flag_read_after_write(flags: u8, flag: u8, on: bool, other: u8)
    requires
        is_decoration_flag(flag),
        is_decoration_flag(other),
    ensures
        has_flag(flags_with(flags, flag, on), flag) == on,
        other != flag ==> has_flag(flags_with(flags, flag, on), other) == has_flag(flags, other),
{
    lemma_flag_update(flags, flag, other);
}

/// A new window has every decoration bit set: it is closable, maximizable,
/// minimizable and resizable.
pub proof fn lemma_new_window_fully_decorated(flag: u8)
    requires
        is_decoration_flag(flag),
    ensures
        has_flag(FLAG_ALL_DECORATIONS, flag),
{
    lemma_all_flags_set(flag);
}

/// The size limits are sent as one tuple: setting the minimum keeps the
/// maximum set before and the other way round, so both orders give the same
/// window and the same `setWindowLimits` operation, which carries both.
pub proof fn lemma_size_limits_merge(w: Window, min: Option<(u32, u32)>, max: Option<(u32, u32)>)
    ensures
        w.with_max_size(max).with_min_size(min) == w.with_min_size(min).with_max_size(max),
        w.with_max_size(max).with_min_size(min).limits_ops() == on_target(
            w.target(),
            |id: i64|
                WindowOp::SetWindowLimits {
                    window_id: id,
                    min_width: slot(
                        match min {
                            Some(s) => Some(s.0),
                            None => None,
                        },
                    ) as i64,
                    min_height: slot(
                        match min {
                            Some(s) => Some(s.1),
                            None => None,
                        },
                    ) as i64,
                    max_width: slot(
                        match max {
                            Some(s) => Some(s.0),
                            None => None,
                        },
                    ) as i64,
                    max_height: slot(
                        match max {
                            Some(s) => Some(s.1),
                            None => None,
                        },
                    ) as i64,
                },
        ),
{
    let w2 = w.with_max_size(max).with_min_size(min);
    assert(w2.target() == w.target());
    match w.target() {
        Some(id) => {
            assert(w2.limits_ops() =~= seq![w2.limits_op(id)]);
        },
        None => {},
    }
}

/// Entering full screen counts as maximized and leaving it as floating: after
/// either, `fullscreen()` reports full screen exactly when the window reads
/// as maximized.
pub proof fn lemma_fullscreen_is_maximized(w: Window, on: bool)
    ensures
        w.with_fullscreen(on).mirror.fullscreen == on,
        w.with_fullscreen(on).mirror.maximized == on,
        w.with_fullscreen(on).mirror.visible == w.mirror.visible,
        w.with_fullscreen(on).mirror.minimized == w.mirror.minimized,
{
}

/// A status report overrides what a setter recorded: after any known status
/// other than split screen the mirror is that status's, whatever the window
/// asked for before.
pub proof fn lemma_status_overrides_intent(w: Window, on: bool, status: WindowStatus)
    requires
        status != WindowStatus::SplitScreen,
        status != WindowStatus::Other,
    ensures
        mirror_after_status(w.with_fullscreen(on).mirror, status) == mirror_after_status(
            w.mirror,
            status,
        ),
{
}

/// The content size read from the system's drawable rect: the width as
/// reported, a negative height read as 0.
pub fn inner_size_of(width: i32, height: i32) -> (r: (u32, u32))
    ensures
        r == (width as u32, if height < 0 {
            0u32
        } else {
            height as u32
        }),
{
    (width as u32, if height < 0 {
        0
    } else {
        height as u32
    })
}

/// The outer size: the window rect once the system reported a non-empty
/// one, else the content rect.
pub fn outer_size_of(width: i32, height: i32, content_width: i32, content_height: i32) -> (r: (
    u32,
    u32,
))
    ensures
        r == if width > 0 && height > 0 {
            (width as u32, height as u32)
        } else {
            (content_width as u32, content_height as u32)
        },
{
    if width > 0 && height > 0 {
        (width as u32, height as u32)
    } else {
        (content_width as u32, content_height as u32)
    }
}

/// No scancode mapping exists on this platform.
pub fn keycode_to_scancode(_code: KeyCode) -> (r: Option<u32>)
    ensures
        r is None,
{
    None
}

/// No scancode mapping exists on this platform.
pub fn keycode_from_scancode(_scancode: u32) -> (k: KeyCode)
    ensures
        k == KeyCode::Unidentified(NativeKeyCode::Unidentified),
{
    KeyCode::Unidentified(NativeKeyCode::Unidentified)
}

} // verus!
