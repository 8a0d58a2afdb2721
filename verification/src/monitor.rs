//! Monitors: one handle per connected display. A handle carries only its
//! display id; every accessor looks the display up in a fresh snapshot of the
//! display list, so a display that disappeared degrades to the fallbacks
//! instead of serving stale geometry.
use vstd::prelude::*;

verus! {

/// A display as the display manager reports it (physical px, global
/// coordinate space).
#[derive(Clone, Debug, PartialEq, Eq)]
pub struct DisplayInfo {
    pub id: u32,
    pub name: String,
    pub x: i32,
    pub y: i32,
    pub width: u32,
    pub height: u32,
    pub refresh_rate: u32,
}

/// The name a display is given when the display list no longer has it.
pub open spec fn fallback_monitor_name() -> Seq<char> {
    "OpenHarmony Device"@
}

/// `i` is the first display of the list with the given id.
pub open spec fn is_first_with_id(s: Seq<DisplayInfo>, id: u32, i: int) -> bool {
    &&& 0 <= i < s.len()
    &&& s[i].id == id
    &&& forall|j: int| 0 <= j < i ==> s[j].id != id
}

pub open spec fn has_id(s: Seq<DisplayInfo>, id: u32) -> bool {
    exists|i: int| 0 <= i < s.len() && s[i].id == id
}

/// The point lies inside the display's bounds (left and top edges
/// included, right and bottom edges excluded).
pub open spec fn display_contains(d: DisplayInfo, x: i64, y: i64) -> bool {
    &&& d.x <= x
    &&& d.y <= y
    &&& x < d.x + d.width
    &&& y < d.y + d.height
}

/// `i` is the first display of the list that contains the point.
pub open spec fn is_first_containing(s: Seq<DisplayInfo>, x: i64, y: i64, i: int) -> bool {
    &&& 0 <= i < s.len()
    &&& display_contains(s[i], x, y)
    &&& forall|j: int| 0 <= j < i ==> !display_contains(s[j], x, y)
}

pub open spec fn any_contains(s: Seq<DisplayInfo>, x: i64, y: i64) -> bool {
    exists|i: int| 0 <= i < s.len() && display_contains(s[i], x, y)
}

/// The first display with an id is unique.
pub proof fn lemma_first_with_id_unique(s: Seq<DisplayInfo>, id: u32, i: int, k: int)
    requires
        is_first_with_id(s, id, i),
        is_first_with_id(s, id, k),
    ensures
        i == k,
{
}

/// Looks a display up by id: the index of the first display with it.
fn index_of_display(displays: &Vec<DisplayInfo>, id: u32) -> (r: Option<usize>)
    ensures
        r is Some ==> is_first_with_id(displays@, id, r->0 as int),
        r is None ==> !has_id(displays@, id),
{
    let mut i: usize = 0;
    while i < displays.len()
        invariant
            i <= displays.len(),
            forall|j: int| 0 <= j < i ==> displays@[j].id != id,
        decreases displays.len() - i,
    {
        if displays[i].id == id {
            return Some(i);
        }
        i = i + 1;
    }
    None
}

/// A handle on one display.
#[derive(Clone, Copy, Debug, PartialEq, Eq, PartialOrd, Ord, Hash, Structural)]
pub struct MonitorHandle {
    pub display_id: u32,
}

/// A display mode: its size, color depth and refresh rate.
#[derive(Clone, Copy, Debug, PartialEq, Eq, Hash, Structural)]
pub struct VideoMode {
    pub width: u32,
    pub height: u32,
    pub bit_depth: u16,
    pub refresh_rate: u16,
    pub monitor: MonitorHandle,
}

impl MonitorHandle {
    /// One handle per connected display, in the display list's order.
    pub fn all_for_app(displays: &Vec<DisplayInfo>) -> (r: Vec<MonitorHandle>)
        ensures
            r@.len() == displays@.len(),
            forall|i: int| 0 <= i < r@.len() ==> r@[i].display_id == displays@[i].id,
    {
        let mut r: Vec<MonitorHandle> = Vec::new();
        let mut i: usize = 0;
        while i < displays.len()
            invariant
                i <= displays.len(),
                r@.len() == i,
                forall|k: int| 0 <= k < i ==> r@[k].display_id == displays@[k].id,
            decreases displays.len() - i,
        {
            r.push(MonitorHandle { display_id: displays[i].id });
            i = i + 1;
        }
        r
    }

    /// The handle of the default (primary) display.
    pub fn primary_for_app(default_display: u32) -> (m: MonitorHandle)
        ensures
            m.display_id == default_display,
    {
        MonitorHandle { display_id: default_display }
    }

    /// The handle of the first display whose bounds contain the point, or
    /// `None` when the point lies outside every display.
    pub fn from_point(displays: &Vec<DisplayInfo>, x: i64, y: i64) -> (r: Option<MonitorHandle>)
        ensures
            r is None <==> !any_contains(displays@, x, y),
            r is Some ==> exists|i: int|
                is_first_containing(displays@, x, y, i) && r->0.display_id == displays@[i].id,
    {
        let mut i: usize = 0;
        while i < displays.len()
            invariant
                i <= displays.len(),
                forall|j: int| 0 <= j < i ==> !display_contains(displays@[j], x, y),
            decreases displays.len() - i,
        {
            let d = &displays[i];
            if (d.x as i64) <= x && (d.y as i64) <= y && x < (d.x as i64) + (d.width as i64) && y
                < (d.y as i64) + (d.height as i64) {
                assert(is_first_containing(displays@, x, y, i as int));
                return Some(MonitorHandle { display_id: d.id });
            }
            i = i + 1;
        }
        None
    }

    /// The display's name, or a generic name once the display is gone.
    pub fn name(&self, displays: &Vec<DisplayInfo>) -> (r: Option<String>)
        ensures
            r is Some,
            !has_id(displays@, self.display_id) ==> r->0@ == fallback_monitor_name(),
            forall|i: int| #[trigger]
                is_first_with_id(displays@, self.display_id, i) ==> r->0@ == displays@[i].name@,
    {
        match index_of_display(displays, self.display_id) {
            Some(i) => {
                proof {
                    assert forall|k: int| #[trigger]
                        is_first_with_id(displays@, self.display_id, k) implies k == i by {
                        lemma_first_with_id_unique(displays@, self.display_id, k, i as int);
                    }
                }
                Some(displays[i].name.clone())
            },
            None => Some("OpenHarmony Device".to_string()),
        }
    }

    /// The display's physical size. A display with a zero-sized snapshot or
    /// no snapshot falls back to the content rect when it is the default
    /// display, else to 0x0.
    pub fn size(&self, displays: &Vec<DisplayInfo>, default_display: u32, content: (i32, i32)) -> (r: (
        u32,
        u32,
    ))
        ensures
            forall|i: int| #[trigger]
                is_first_with_id(displays@, self.display_id, i) && displays@[i].width > 0
                    && displays@[i].height > 0 ==> r == (displays@[i].width, displays@[i].height),
            (!has_id(displays@, self.display_id) || exists|i: int|
                #[trigger] is_first_with_id(displays@, self.display_id, i) && (displays@[i].width
                    == 0 || displays@[i].height == 0)) ==> r == if self.display_id
                == default_display {
                (content.0 as u32, content.1 as u32)
            } else {
                (0u32, 0u32)
            },
    {
        let found = index_of_display(displays, self.display_id);
        proof {
            if found is Some {
                assert forall|k: int| #[trigger]
                    is_first_with_id(displays@, self.display_id, k) implies k == found->0 by {
                    lemma_first_with_id_unique(displays@, self.display_id, k, found->0 as int);
                }
            }
        }
        if let Some(i) = found {
            if displays[i].width > 0 && displays[i].height > 0 {
                return (displays[i].width, displays[i].height);
            }
        }
        if self.display_id == default_display {
            (content.0 as u32, content.1 as u32)
        } else {
            (0, 0)
        }
    }

    /// The display's top-left corner, (0, 0) once the display is gone.
    pub fn position(&self, displays: &Vec<DisplayInfo>) -> (r: (i32, i32))
        ensures
            !has_id(displays@, self.display_id) ==> r == (0i32, 0i32),
            forall|i: int| #[trigger]
                is_first_with_id(displays@, self.display_id, i) ==> r == (
                    displays@[i].x,
                    displays@[i].y,
                ),
    {
        match index_of_display(displays, self.display_id) {
            Some(i) => {
                proof {
                    assert forall|k: int| #[trigger]
                        is_first_with_id(displays@, self.display_id, k) implies k == i by {
                        lemma_first_with_id_unique(displays@, self.display_id, k, i as int);
                    }
                }
                (displays[i].x, displays[i].y)
            },
            None => (0, 0),
        }
    }

    /// The display's one video mode: its size, a fixed 32-bit depth (no
    /// per-display depth is exposed), and its refresh rate, or the default
    /// display's once the display is gone.
    pub fn video_modes(
        &self,
        displays: &Vec<DisplayInfo>,
        default_display: u32,
        content: (i32, i32),
        default_refresh_rate: u32,
    ) -> (r: Vec<VideoMode>)
        ensures
            r@.len() == 1,
            (r@[0].width, r@[0].height) == self.size_spec(displays@, default_display, content),
            r@[0].bit_depth == 32,
            r@[0].monitor == *self,
            !has_id(displays@, self.display_id) ==> r@[0].refresh_rate
                == default_refresh_rate as u16,
            forall|i: int| #[trigger]
                is_first_with_id(displays@, self.display_id, i) ==> r@[0].refresh_rate
                    == displays@[i].refresh_rate as u16,
    {
        let size = self.size(displays, default_display, content);
        let refresh_rate = match index_of_display(displays, self.display_id) {
            Some(i) => {
                proof {
                    assert forall|k: int| #[trigger]
                        is_first_with_id(displays@, self.display_id, k) implies k == i by {
                        lemma_first_with_id_unique(displays@, self.display_id, k, i as int);
                    }
                }
                displays[i].refresh_rate as u16
            },
            None => default_refresh_rate as u16,
        };
        let mut r: Vec<VideoMode> = Vec::new();
        r.push(
            VideoMode { width: size.0, height: size.1, bit_depth: 32, refresh_rate, monitor: *self },
        );
        r
    }

    /// What `size` returns.
    pub open spec fn size_spec(self, s: Seq<DisplayInfo>, default_display: u32, content: (i32, i32)) -> (
        u32,
        u32,
    ) {
        if has_id(s, self.display_id) {
            let i = choose|i: int| is_first_with_id(s, self.display_id, i);
            if s[i].width > 0 && s[i].height > 0 {
                (s[i].width, s[i].height)
            } else if self.display_id == default_display {
                (content.0 as u32, content.1 as u32)
            } else {
                (0u32, 0u32)
            }
        } else if self.display_id == default_display {
            (content.0 as u32, content.1 as u32)
        } else {
            (0u32, 0u32)
        }
    }
}

impl VideoMode {
    pub fn size(&self) -> (r: (u32, u32))
        ensures
            r == (self.width, self.height),
    {
        (self.width, self.height)
    }

    pub fn bit_depth(&self) -> (r: u16)
        ensures
            r == self.bit_depth,
    {
        self.bit_depth
    }

    pub fn refresh_rate(&self) -> (r: u16)
        ensures
            r == self.refresh_rate,
    {
        self.refresh_rate
    }

    pub fn monitor(&self) -> (r: MonitorHandle)
        ensures
            r == self.monitor,
    {
        self.monitor
    }
}

/// The monitor a window is on: the display containing its outer top-left
/// corner, else the primary display (also while the rect is still unset).
pub fn current_monitor(displays: &Vec<DisplayInfo>, default_display: u32, left: i32, top: i32) -> (m:
    MonitorHandle)
    ensures
        !any_contains(displays@, left as i64, top as i64) ==> m.display_id == default_display,
        any_contains(displays@, left as i64, top as i64) ==> exists|i: int|
            is_first_containing(displays@, left as i64, top as i64, i) && m.display_id
                == displays@[i].id,
{
    match MonitorHandle::from_point(displays, left as i64, top as i64) {
        Some(m) => m,
        None => MonitorHandle::primary_for_app(default_display),
    }
}

} // verus!
