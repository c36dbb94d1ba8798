use shotmd::imaging::RgbaFrame;
use shotmd::shotapp::{monitor_label, Region, ScanReport, ShotApp};
use shotmd::ui::{CapturedMonitor, MonitorKey};

type Pos = (f32, f32);

fn image(fill: u8) -> RgbaFrame {
    RgbaFrame { width: 4, height: 2, raw: vec![fill; 32] }
}

fn key(x: i32, y: i32, width: u32) -> MonitorKey {
    MonitorKey { x, y, width, height: 100 }
}

fn scan(keys: &[MonitorKey]) -> ScanReport {
    let mut report = ScanReport::new();
    for (i, k) in keys.iter().enumerate() {
        report.captured(*k, image(i as u8 + 1));
    }
    report
}

fn app(keys: &[MonitorKey]) -> ShotApp<Pos> {
    ShotApp::new(Ok(scan(keys)))
}

fn region(a: Pos, b: Pos) -> Option<Region> {
    let x = a.0.min(b.0) as u32;
    let x2 = a.0.max(b.0) as u32;
    Some(Region { x, y: 0, width: (x2 - x).max(1), height: 1 })
}

#[test]
fn labels_fall_back_in_order() {
    assert_eq!(monitor_label(Some("Dell".into()), Some("DP-1".into()), 0), "Dell");
    assert_eq!(monitor_label(None, Some("DP-1".into()), 0), "DP-1");
    assert_eq!(monitor_label(None, None, 0), "Monitor 1");
    assert_eq!(monitor_label(None, None, 11), "Monitor 12");
}

#[test]
fn scan_errors_are_joined() {
    let mut report = ScanReport::new();
    report.geometry_failed("Monitor 1");
    report.captured(key(0, 0, 100), image(1));
    report.capture_failed("DP-2", "permission denied");
    let app: ShotApp<Pos> = ShotApp::new(Ok(report));
    assert!(app.can_capture());
    assert_eq!(
        app.last_error().map(|s| s.as_str()),
        Some("Monitor 1: failed to read monitor geometry; DP-2: permission denied")
    );
}

#[test]
fn clean_scan_clears_the_error() {
    let mut app = ShotApp::<Pos>::new(Err("no display".to_string()));
    assert_eq!(app.last_error().map(|s| s.as_str()), Some("Failed to list monitors: no display"));
    assert!(!app.can_capture());
    app.capture_all_monitors(Ok(scan(&[key(0, 0, 100)])));
    assert_eq!(app.last_error(), None);
    assert!(app.can_capture());
}

#[test]
fn failed_listing_drops_screenshots() {
    let mut app = app(&[key(0, 0, 100)]);
    app.capture_all_monitors(Err("gone".to_string()));
    assert!(!app.can_capture());
    assert_eq!(app.snapshot_for_window(Some(key(0, 0, 100)), Some((1, 1))).is_none(), true);
}

#[test]
fn window_snapshot_prefers_exact_then_origin_then_point() {
    let app = app(&[key(0, 0, 100), key(100, 0, 50), key(100, 0, 100)]);
    assert_eq!(app.snapshot_index_for_window(Some(key(100, 0, 100)), None), Some(2));
    assert_eq!(app.snapshot_index_for_window(Some(key(100, 0, 300)), None), Some(1));
    assert_eq!(app.snapshot_index_for_window(Some(key(7, 7, 10)), Some((120, 10))), Some(1));
    assert_eq!(app.snapshot_index_for_window(None, Some((99, 99))), Some(0));
    assert_eq!(app.snapshot_index_for_window(None, Some((99, 100))), None);
    assert_eq!(app.snapshot_index_for_window(None, None), None);
    let copy = app.snapshot_for_window(Some(key(100, 0, 100)), None).unwrap();
    assert_eq!(copy.image.raw, vec![3u8; 32]);
}

#[test]
fn point_search_handles_extreme_positions() {
    let far = MonitorKey { x: i32::MAX - 10, y: 0, width: u32::MAX, height: 10 };
    let app = app(&[far]);
    assert_eq!(app.snapshot_index_for_window(None, Some((i32::MAX, 5))), Some(0));
}

#[test]
fn sync_shows_once() {
    let mut app = app(&[key(0, 0, 100), key(100, 0, 100)]);
    let shown = app.sync_capture_to_window(Some(key(100, 0, 100)), None).expect("shown");
    assert_eq!(shown.key, key(100, 0, 100));
    assert!(app.sync_capture_to_window(Some(key(100, 0, 100)), None).is_none());
    let other: Option<CapturedMonitor> = app.sync_capture_to_window(Some(key(0, 0, 100)), None);
    assert_eq!(other.unwrap().key, key(0, 0, 100));
}

#[test]
fn save_needs_a_selection_and_a_capture() {
    let mut app = app(&[key(0, 0, 100)]);
    assert!(!app.can_save());
    assert!(app.save_selection(1).is_none());
    assert_eq!(app.last_error().map(|s| s.as_str()), Some("Select a region to save"));
    app.track_drag(Some((0.0, 0.0)), true, true, false, region);
    app.track_drag(Some((2.0, 0.0)), false, true, true, region);
    assert_eq!(app.selection(), Some(Region { x: 0, y: 0, width: 2, height: 1 }));
    assert!(app.save_selection(1).is_none());
    assert_eq!(app.last_error().map(|s| s.as_str()), Some("Capture an image before saving"));
}

#[test]
fn save_cuts_and_names_the_file() {
    let mut app = app(&[key(0, 0, 100)]);
    app.sync_capture_to_window(Some(key(0, 0, 100)), None).unwrap();
    app.track_drag(Some((1.0, 0.0)), true, false, false, region);
    app.track_drag(Some((3.0, 0.0)), false, true, false, region);
    assert_eq!(app.selection(), Some(Region { x: 1, y: 0, width: 2, height: 1 }));
    app.track_drag(None, false, false, true, region);
    assert!(app.can_save());
    let pending = app.save_selection(1700000000).unwrap();
    assert_eq!(pending.file_name, "shot-1700000000.png");
    assert_eq!((pending.image.width, pending.image.height), (2, 1));
    assert_eq!(pending.image.raw, vec![1u8; 8]);
    app.save_finished(pending.file_name, Ok(()));
    assert_eq!(app.last_saved().map(|s| s.as_str()), Some("shot-1700000000.png"));
    assert_eq!(app.last_error(), None);
    app.save_finished("shot-2.png".to_string(), Err("disk full".to_string()));
    assert_eq!(app.last_error().map(|s| s.as_str()), Some("Save failed: disk full"));
    assert_eq!(app.last_saved().map(|s| s.as_str()), Some("shot-1700000000.png"));
}

#[test]
fn showing_a_snapshot_forgets_selection_and_messages() {
    let mut app = app(&[key(0, 0, 100), key(100, 0, 100)]);
    app.sync_capture_to_window(Some(key(0, 0, 100)), None).unwrap();
    app.track_drag(Some((0.0, 0.0)), true, true, true, region);
    app.save_finished("x.png".to_string(), Ok(()));
    app.sync_capture_to_window(Some(key(100, 0, 100)), None).unwrap();
    assert_eq!(app.selection(), None);
    assert_eq!(app.last_saved(), None);
}

#[test]
fn second_sync_keeps_the_selection() {
    let mut app = app(&[key(0, 0, 100)]);
    app.sync_capture_to_window(Some(key(0, 0, 100)), None).unwrap();
    app.track_drag(Some((0.0, 0.0)), true, true, false, region);
    app.track_drag(Some((2.0, 0.0)), false, true, true, region);
    let before = app.selection();
    assert!(before.is_some());
    assert!(app.sync_capture_to_window(Some(key(0, 0, 100)), Some((5, 5))).is_none());
    assert_eq!(app.selection(), before);
}
