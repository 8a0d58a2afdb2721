use tao_ohos::monitor::{current_monitor, DisplayInfo, MonitorHandle};

fn display(id: u32, name: &str, x: i32, y: i32, width: u32, height: u32, refresh_rate: u32) -> DisplayInfo {
    DisplayInfo { id, name: name.to_string(), x, y, width, height, refresh_rate }
}

fn two_displays() -> Vec<DisplayInfo> {
    vec![
        display(0, "Built-in", 0, 0, 1920, 1080, 60),
        display(5, "External", 1920, 0, 2560, 1440, 144),
    ]
}

#[test]
fn one_handle_per_display() {
    let ds = two_displays();
    assert_eq!(
        MonitorHandle::all_for_app(&ds),
        vec![MonitorHandle { display_id: 0 }, MonitorHandle { display_id: 5 }]
    );
    assert_eq!(MonitorHandle::all_for_app(&vec![]), vec![]);
    assert_eq!(MonitorHandle::primary_for_app(5), MonitorHandle { display_id: 5 });
}

#[test]
fn hit_test_by_point() {
    let ds = two_displays();
    assert_eq!(MonitorHandle::from_point(&ds, 0, 0), Some(MonitorHandle { display_id: 0 }));
    assert_eq!(MonitorHandle::from_point(&ds, 1919, 1079), Some(MonitorHandle { display_id: 0 }));
    // The right edge belongs to the next display.
    assert_eq!(MonitorHandle::from_point(&ds, 1920, 10), Some(MonitorHandle { display_id: 5 }));
    assert_eq!(MonitorHandle::from_point(&ds, 1000, 1080), None);
    assert_eq!(MonitorHandle::from_point(&ds, -1, 0), None);
}

#[test]
fn current_monitor_falls_back_to_primary() {
    let ds = two_displays();
    assert_eq!(current_monitor(&ds, 0, 2000, 100), MonitorHandle { display_id: 5 });
    assert_eq!(current_monitor(&ds, 0, -50, -50), MonitorHandle { display_id: 0 });
    assert_eq!(current_monitor(&vec![], 3, 0, 0), MonitorHandle { display_id: 3 });
}

#[test]
fn accessors_read_the_live_display() {
    let ds = two_displays();
    let ext = MonitorHandle { display_id: 5 };
    assert_eq!(ext.name(&ds), Some("External".to_string()));
    assert_eq!(ext.size(&ds, 0, (100, 200)), (2560, 1440));
    assert_eq!(ext.position(&ds), (1920, 0));
    let modes = ext.video_modes(&ds, 0, (100, 200), 60);
    assert_eq!(modes.len(), 1);
    assert_eq!(modes[0].size(), (2560, 1440));
    assert_eq!(modes[0].bit_depth(), 32);
    assert_eq!(modes[0].refresh_rate(), 144);
    assert_eq!(modes[0].monitor(), ext);
}

#[test]
fn gone_display_degrades_to_fallbacks() {
    let ds = two_displays();
    let gone = MonitorHandle { display_id: 9 };
    assert_eq!(gone.name(&ds), Some("OpenHarmony Device".to_string()));
    assert_eq!(gone.size(&ds, 0, (100, 200)), (0, 0));
    assert_eq!(gone.position(&ds), (0, 0));
    assert_eq!(gone.video_modes(&ds, 0, (100, 200), 90)[0].refresh_rate(), 90);
    // The default display falls back to the content rect.
    assert_eq!(gone.size(&ds, 9, (100, 200)), (100, 200));
    // So does a default display whose snapshot is empty.
    let empty = vec![display(9, "Zero", 0, 0, 0, 1080, 60)];
    assert_eq!(gone.size(&empty, 9, (100, 200)), (100, 200));
    assert_eq!(gone.size(&empty, 0, (100, 200)), (0, 0));
}

#[test]
fn refresh_rate_truncates_to_u16() {
    let ds = vec![display(1, "Odd", 0, 0, 10, 10, 65536 + 30)];
    let m = MonitorHandle { display_id: 1 };
    assert_eq!(m.video_modes(&ds, 0, (0, 0), 60)[0].refresh_rate(), 30);
}
