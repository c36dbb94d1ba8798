use std::sync::{Arc, RwLock};
use shotmd::bytes_loader::{answer, serves, stored_size, ShotmdBytesLoader, CAPTURE_MIME};
use shotmd::imaging::RgbaFrame;
use shotmd::ui::{
    find_capture, full_monitor_selection, monitor_key_for_window, whole_selection, CapturedMonitor, Command,
    MonitorKey, MonitorSeen, Selection, UiState,
};

type Pos = (f32, f32);

fn key(x: i32, y: i32) -> MonitorKey {
    MonitorKey { x, y, width: 4, height: 2 }
}

/// The window seen on the monitor `k`, one handle number for each position.
fn at(k: MonitorKey) -> Option<MonitorSeen> {
    Some(MonitorSeen { handle: (k.x as i64 as u64).wrapping_mul(1 << 32).wrapping_add(k.y as i64 as u64), key: k })
}

fn capture(k: MonitorKey, fill: u8) -> CapturedMonitor {
    CapturedMonitor { key: k, image: RgbaFrame { width: 4, height: 2, raw: vec![fill; 32] } }
}

fn captures() -> Vec<CapturedMonitor> {
    vec![capture(key(0, 0), 1), capture(key(1920, 0), 2), capture(key(1920, 0), 3)]
}

/// Turns pointer corners into a selection as the screen does, at one pixel
/// per point on the monitor at (1920, 0).
fn measure(a: Pos, b: Pos) -> Selection {
    let x = a.0.min(b.0) as u32;
    let y = a.1.min(b.1) as u32;
    let x2 = a.0.max(b.0) as u32;
    let y2 = a.1.max(b.1) as u32;
    Selection { x, y, width: (x2 - x).max(1), height: (y2 - y).max(1), monitor: key(1920, 0) }
}

fn new_state() -> (UiState<Pos>, Arc<RwLock<Option<Vec<u8>>>>) {
    let slot = Arc::new(RwLock::new(None));
    (UiState::new(slot.clone()), slot)
}

#[test]
fn find_capture_takes_the_first_match() {
    let all = captures();
    assert_eq!(find_capture(&all, key(1920, 0)), Some(1));
    assert_eq!(find_capture(&all, key(5, 5)), None);
}

#[test]
fn monitor_key_for_window_is_the_windows_key() {
    assert_eq!(monitor_key_for_window(&captures(), Some(key(1920, 0))), key(1920, 0));
}

#[test]
fn full_monitor_selection_covers_the_screenshot() {
    let all = captures();
    assert_eq!(
        full_monitor_selection(&all, key(0, 0)),
        Some(Selection { x: 0, y: 0, width: 4, height: 2, monitor: key(0, 0) })
    );
    assert_eq!(full_monitor_selection(&all, key(7, 7)), None);
    assert_eq!(whole_selection(&all[1]).monitor, key(1920, 0));
}

#[test]
fn new_screen_is_empty_with_three_second_recordings() {
    let (state, _) = new_state();
    assert!(!state.has_image());
    assert_eq!(state.image_uri(), "");
    assert_eq!(state.recording_duration_secs(), 3);
    assert!(!state.recording_dialog_open());
    assert_eq!(state.drag_preview(), None);
}

#[test]
fn window_on_a_monitor_shows_its_screenshot() {
    let (mut state, _) = new_state();
    let png = state.update_window_snapshot(&captures(), at(key(1920, 0))).expect("png handed out");
    assert!(state.has_image());
    assert_eq!(state.image_size(), (4, 2));
    assert_eq!(state.image_uri(), "shotmd://capture?ver=1920");
    let decoded = image::load_from_memory(&png).unwrap().into_rgba8();
    assert_eq!(decoded.into_raw(), vec![2u8; 32]);
}

#[test]
fn negative_monitor_position_in_uri() {
    let (mut state, _) = new_state();
    let left = MonitorKey { x: -1280, y: -20, width: 4, height: 2 };
    state.update_window_snapshot(&vec![capture(left, 9)], at(left));
    assert_eq!(state.image_uri(), "shotmd://capture?ver=-1300");
}

#[test]
fn same_monitor_twice_keeps_the_selection() {
    let (mut state, _) = new_state();
    let all = captures();
    state.update_window_snapshot(&all, at(key(1920, 0)));
    state.track_drag(Some((1.0, 0.0)), true, false, false, measure);
    state.track_drag(Some((3.0, 2.0)), false, true, true, measure);
    state.update_window_snapshot(&all, at(key(1920, 0)));
    let action = state.finish_frame(true);
    assert_eq!(action, Some((measure((1.0, 0.0), (3.0, 2.0)), Command::Capture)));
}

#[test]
fn moving_to_another_monitor_forgets_the_drag() {
    let (mut state, _) = new_state();
    let all = captures();
    state.update_window_snapshot(&all, at(key(1920, 0)));
    state.track_drag(Some((1.0, 0.0)), true, false, false, measure);
    assert!(state.drag_preview().is_some());
    state.update_window_snapshot(&all, at(key(0, 0)));
    assert_eq!(state.drag_preview(), None);
    assert_eq!(state.image_uri(), "shotmd://capture?ver=0");
}

#[test]
fn monitor_without_screenshot_changes_nothing_shown() {
    let (mut state, _) = new_state();
    state.update_window_snapshot(&captures(), at(key(50, 50)));
    assert!(!state.has_image());
    state.update_window_snapshot(&captures(), None);
    assert!(!state.has_image());
}

#[test]
fn drag_and_release_gives_a_capture() {
    let (mut state, _) = new_state();
    state.update_window_snapshot(&captures(), at(key(1920, 0)));
    assert!(!state.track_drag(Some((3.0, 2.0)), true, true, false, measure));
    assert_eq!(state.drag_preview(), Some(((3.0, 2.0), (3.0, 2.0))));
    state.track_drag(Some((1.0, 1.0)), false, true, false, measure);
    assert_eq!(state.drag_preview(), Some(((3.0, 2.0), (1.0, 1.0))));
    assert_eq!(state.finish_frame(false), None);
    let stopped = state.track_drag(None, false, false, true, measure);
    assert!(stopped);
    assert_eq!(state.drag_preview(), None);
    let expected = Selection { x: 1, y: 1, width: 2, height: 1, monitor: key(1920, 0) };
    assert_eq!(state.finish_frame(stopped), Some((expected, Command::Capture)));
}

#[test]
fn release_without_press_gives_nothing() {
    let (mut state, _) = new_state();
    let stopped = state.track_drag(None, false, false, true, measure);
    assert_eq!(state.finish_frame(stopped), None);
}

#[test]
fn recording_is_asked_once() {
    let (mut state, _) = new_state();
    state.update_window_snapshot(&captures(), at(key(1920, 0)));
    state.press_record_shortcut();
    assert!(state.recording_dialog_open());
    state.set_recording_duration(7);
    state.start_recording();
    assert!(!state.recording_dialog_open());
    state.track_drag(Some((0.0, 0.0)), true, false, false, measure);
    let stopped = state.track_drag(Some((2.0, 2.0)), false, true, true, measure);
    let (selection, command) = state.finish_frame(stopped).unwrap();
    assert_eq!(command, Command::Record { duration_secs: 7 });
    assert_eq!(selection.width, 2);
    state.track_drag(Some((0.0, 0.0)), true, false, false, measure);
    let stopped = state.track_drag(Some((1.0, 1.0)), false, true, true, measure);
    assert_eq!(state.finish_frame(stopped).unwrap().1, Command::Capture);
}

#[test]
fn loader_serves_its_own_addresses() {
    let slot = Arc::new(RwLock::new(Some(vec![1u8, 2, 3])));
    let loader = ShotmdBytesLoader::new(slot.clone());
    assert_eq!(loader.load("shotmd://capture?ver=0"), Some(vec![1, 2, 3]));
    assert_eq!(loader.load("file://capture"), None);
    assert_eq!(loader.load("shotmd://other"), None);
    assert_eq!(loader.byte_size(), 3);
    *slot.write().unwrap() = None;
    assert_eq!(loader.load("shotmd://capture"), None);
    assert_eq!(loader.byte_size(), 0);
    assert_eq!(loader.id(), "shotmd::bytes_loader::ShotmdBytesLoader");
    assert_eq!(CAPTURE_MIME, "image/png");
}

#[test]
fn loader_prefix_and_size_rules() {
    assert!(serves("shotmd://capture"));
    assert!(serves("shotmd://capture?ver=12"));
    assert!(!serves("shotmd://captur"));
    assert!(!serves(""));
    assert_eq!(stored_size(&Some(vec![0u8; 12])), 12);
    assert_eq!(stored_size(&None), 0);
}

#[test]
fn screen_and_loader_share_the_png() {
    let (mut state, slot) = new_state();
    let loader = ShotmdBytesLoader::new(slot);
    let handed = state.update_window_snapshot(&captures(), at(key(0, 0))).expect("png handed out");
    *state.capture_bytes().write().unwrap() = Some(handed.clone());
    let png = loader.load(state.image_uri()).expect("served");
    assert_eq!(&png[1..4], b"PNG");
    assert_eq!(loader.byte_size(), png.len());
    assert_eq!(png, handed);
}

#[test]
fn same_monitor_again_hands_out_no_png() {
    let (mut state, _) = new_state();
    let all = captures();
    assert!(state.update_window_snapshot(&all, at(key(0, 0))).is_some());
    assert_eq!(state.update_window_snapshot(&all, at(key(0, 0))), None);
    assert_eq!(state.update_window_snapshot(&all, at(key(50, 50))), None);
    assert_eq!(state.update_window_snapshot(&all, None), None);
}

#[test]
fn loader_answer_serves_only_its_own_addresses() {
    assert_eq!(answer("shotmd://capture?ver=3", Some(vec![7u8, 8])), Some(vec![7, 8]));
    assert_eq!(answer("shotmd://capture", None), None);
    assert_eq!(answer("https://capture", Some(vec![7u8])), None);
}

#[test]
fn no_drag_without_a_screenshot() {
    let (mut state, _) = new_state();
    assert!(!state.track_drag(Some((1.0, 1.0)), true, true, true, measure));
    assert_eq!(state.finish_frame(true), None);
}

#[test]
fn right_click_leaves_without_a_selection() {
    let (mut state, _) = new_state();
    state.update_window_snapshot(&captures(), at(key(1920, 0)));
    state.track_drag(Some((0.0, 0.0)), true, false, false, measure);
    let stopped = state.track_drag(Some((2.0, 2.0)), false, true, true, measure);
    assert!(!state.exit_requested());
    state.press_cancel();
    assert!(state.exit_requested());
    assert_eq!(state.finish_frame(stopped), None);
}

#[test]
fn recording_duration_stays_between_one_and_sixty() {
    let (mut state, _) = new_state();
    state.set_recording_duration(0);
    assert_eq!(state.recording_duration_secs(), 1);
    state.set_recording_duration(600);
    assert_eq!(state.recording_duration_secs(), 60);
    state.set_recording_duration(42);
    assert_eq!(state.recording_duration_secs(), 42);
}

#[test]
fn new_screen_keeps_the_given_slot_untouched() {
    let slot = Arc::new(RwLock::new(Some(vec![9u8])));
    let state: UiState<Pos> = UiState::new(slot.clone());
    assert_eq!(state.monitor(), None);
    assert_eq!(*slot.read().unwrap(), Some(vec![9u8]));
}

#[test]
fn overflowing_key_without_screenshot_is_harmless() {
    let (mut state, _) = new_state();
    let far = MonitorKey { x: i32::MAX, y: 5, width: 1, height: 1 };
    state.update_window_snapshot(&captures(), at(far));
    assert_eq!(state.monitor(), at(far).map(|seen| seen.handle));
    assert!(!state.has_image());
}

#[test]
fn another_handle_at_the_same_place_is_another_monitor() {
    let (mut state, _) = new_state();
    let all = captures();
    let first = MonitorSeen { handle: 1, key: key(1920, 0) };
    let second = MonitorSeen { handle: 2, key: key(1920, 0) };
    state.update_window_snapshot(&all, Some(first));
    state.track_drag(Some((1.0, 0.0)), true, false, false, measure);
    state.update_window_snapshot(&all, Some(MonitorSeen { handle: 1, key: key(0, 0) }));
    assert!(state.drag_preview().is_some());
    assert_eq!(state.image_uri(), "shotmd://capture?ver=1920");
    state.update_window_snapshot(&all, Some(second));
    assert_eq!(state.drag_preview(), None);
    assert_eq!(state.monitor(), Some(2));
}
