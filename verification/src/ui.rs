//! Monitors, selections and the state of the selection screen.
use std::sync::{Arc, RwLock};
use vstd::prelude::*;
use crate::imaging::{encode_png, png_encoding, RgbaFrame};
use crate::text::{signed_decimal, signed_decimal_string};

verus! {

/// Position and size of a monitor, as the windowing system reports them.
#[derive(Clone, Copy, Debug, PartialEq, Eq, Structural)]
pub struct MonitorKey {
    pub x: i32,
    pub y: i32,
    pub width: u32,
    pub height: u32,
}

/// The monitor that shows the window: which of the system's monitors it is
/// (`handle`, one number for each monitor handle the windowing system
/// gives, equal handles getting equal numbers) and where it is.
#[derive(Clone, Copy, Debug, PartialEq, Eq, Structural)]
pub struct MonitorSeen {
    pub handle: u64,
    pub key: MonitorKey,
}

/// A screenshot of one monitor.
pub struct CapturedMonitor {
    pub key: MonitorKey,
    pub image: RgbaFrame,
}

/// A rectangle, in pixels of a monitor's screenshot.
#[derive(Clone, Copy, Debug, PartialEq, Eq, Structural)]
pub struct Selection {
    pub x: u32,
    pub y: u32,
    pub width: u32,
    pub height: u32,
    pub monitor: MonitorKey,
}

/// What to do with a selection.
#[derive(Clone, Copy, Debug, PartialEq, Eq, Structural)]
pub enum Command {
    Capture,
    Record { duration_secs: u64 },
}

impl CapturedMonitor {
    /// A copy of the screenshot.
    pub fn duplicate(&self) -> (copy: CapturedMonitor)
        ensures
            copy.key == self.key,
            copy.image.width == self.image.width,
            copy.image.height == self.image.height,
            copy.image.raw@ == self.image.raw@,
    {
        CapturedMonitor { key: self.key, image: self.image.duplicate() }
    }
}

/// Every screenshot holds exactly its pixels.
pub open spec fn captures_well_formed(captures: Seq<CapturedMonitor>) -> bool {
    forall|i: int| 0 <= i < captures.len() ==> (#[trigger] captures[i]).image.is_exact()
}

/// `i` is the first screenshot of the monitor `key`.
pub open spec fn is_first_capture_of(captures: Seq<CapturedMonitor>, key: MonitorKey, i: int) -> bool {
    &&& 0 <= i < captures.len()
    &&& captures[i].key == key
    &&& forall|j: int| 0 <= j < i ==> (#[trigger] captures[j]).key != key
}

/// No screenshot is of the monitor `key`.
pub open spec fn has_no_capture_of(captures: Seq<CapturedMonitor>, key: MonitorKey) -> bool {
    forall|j: int| 0 <= j < captures.len() ==> (#[trigger] captures[j]).key != key
}

/// The first screenshot of the monitor `key`, if any.
pub fn find_capture(all_captures: &Vec<CapturedMonitor>, key: MonitorKey) -> (found: Option<usize>)
    ensures
        match found {
            Some(i) => is_first_capture_of(all_captures@, key, i as int),
            None => has_no_capture_of(all_captures@, key),
        },
{
    let mut i: usize = 0;
    while i < all_captures.len()
        invariant
            i <= all_captures@.len(),
            forall|j: int| 0 <= j < i ==> (#[trigger] all_captures@[j]).key != key,
        decreases all_captures@.len() - i,
    {
        if all_captures[i].key == key {
            return Some(i);
        }
        i = i + 1;
    }
    None
}

/// The key of the monitor that shows the window, as found among the
/// screenshots. The window's monitor (`current`) must be known and have a
/// screenshot.
pub fn monitor_key_for_window(all_captures: &Vec<CapturedMonitor>, current: Option<MonitorKey>) -> (key: MonitorKey)
    requires
        current is Some,
        !has_no_capture_of(all_captures@, current.unwrap()),
    ensures
        key == current.unwrap(),
{
    let wanted = current.unwrap();
    let found = find_capture(all_captures, wanted);
    match found {
        Some(i) => all_captures[i].key,
        None => wanted,
    }
}

/// The selection of a whole screenshot.
pub fn whole_selection(capture: &CapturedMonitor) -> (selection: Selection)
    ensures
        selection == (Selection { x: 0, y: 0, width: capture.image.width, height: capture.image.height, monitor: capture.key }),
{
    Selection { x: 0, y: 0, width: capture.image.width, height: capture.image.height, monitor: capture.key }
}

/// The whole screenshot of the monitor `key`, if there is one.
pub fn full_monitor_selection(all_captures: &Vec<CapturedMonitor>, key: MonitorKey) -> (selection: Option<Selection>)
    ensures
        match selection {
            Some(s) => exists|i: int| is_first_capture_of(all_captures@, key, i) && s == (Selection {
                x: 0,
                y: 0,
                width: all_captures@[i].image.width,
                height: all_captures@[i].image.height,
                monitor: key,
            }),
            None => has_no_capture_of(all_captures@, key),
        },
{
    match find_capture(all_captures, key) {
        Some(i) => Some(whole_selection(&all_captures[i])),
        None => None,
    }
}

/// The sum of a monitor's coordinates fits an `i32`.
pub open spec fn key_version_fits(key: MonitorKey) -> bool {
    i32::MIN <= key.x + key.y <= i32::MAX
}

/// The address under which the image loader serves the snapshot of a
/// monitor.
pub open spec fn capture_uri(key: MonitorKey) -> Seq<char> {
    "shotmd://capture?ver="@ + signed_decimal(key.x + key.y)
}

/// What the selection screen shows and has been told.
pub struct UiModel<P> {
    pub monitor: Option<u64>,
    pub image_size: (u32, u32),
    pub image_uri: Seq<char>,
    pub selection: Option<Selection>,
    pub selection_start: Option<P>,
    pub selection_end: Option<P>,
    pub show_recording_dialog: bool,
    pub recording_duration_secs: u64,
    pub recording_mode: bool,
    /// The right mouse button asked to leave without a selection.
    pub exit_requested: bool,
    /// The slot, shared with the image loader, that snapshots go to.
    pub slot: Arc<RwLock<Option<Vec<u8>>>>,
}

/// The duration that the recording dialog's slider, ranging over 1 to 60
/// seconds, leaves of `secs`.
pub open spec fn clamped_duration(secs: u64) -> u64 {
    if secs < 1 {
        1
    } else if secs > 60 {
        60
    } else {
        secs
    }
}

/// The selection screen after it switched to the screenshot `c`.
pub open spec fn with_snapshot<P>(m: UiModel<P>, c: CapturedMonitor) -> UiModel<P> {
    UiModel {
        image_size: (c.image.width, c.image.height),
        image_uri: capture_uri(c.key),
        selection: None,
        selection_start: None,
        selection_end: None,
        ..m
    }
}

/// The selection screen after the window was seen on monitor `current`:
/// on another monitor handle than before it shows the screenshot of that
/// monitor's position and size, where there is one.
pub open spec fn after_window_seen<P>(m: UiModel<P>, captures: Seq<CapturedMonitor>, current: Option<MonitorSeen>) -> UiModel<P> {
    match current {
        None => UiModel { monitor: None, ..m },
        Some(seen) => if m.monitor == Some(seen.handle) {
            m
        } else if has_no_capture_of(captures, seen.key) {
            UiModel { monitor: Some(seen.handle), ..m }
        } else {
            let i = choose|i: int| is_first_capture_of(captures, seen.key, i);
            with_snapshot(UiModel { monitor: Some(seen.handle), ..m }, captures[i])
        },
    }
}

/// The window moved to a monitor handle other than `m`'s and that monitor
/// has a screenshot: the screen switches to it.
pub open spec fn switches_snapshot<P>(m: UiModel<P>, captures: Seq<CapturedMonitor>, current: Option<MonitorSeen>) -> bool {
    current matches Some(seen) && m.monitor != Some(seen.handle) && !has_no_capture_of(captures, seen.key)
}

/// The PNG that seeing the window on `current` hands out for the shared
/// slot: that of the screenshot the screen switches to, where the `image`
/// crate encodes it; none where the screen keeps its snapshot.
pub open spec fn window_png<P>(m: UiModel<P>, captures: Seq<CapturedMonitor>, current: Option<MonitorSeen>) -> Option<Seq<u8>> {
    if switches_snapshot(m, captures, current) {
        let c = captures[choose|i: int| is_first_capture_of(captures, current.unwrap().key, i)];
        png_encoding(c.image.width, c.image.height, c.image.raw@)
    } else {
        None
    }
}

/// The selection screen after the pointer was pressed (`started`) or moved
/// (`dragged`) at `pointer`.
pub open spec fn after_pointer<P>(m: UiModel<P>, pointer: Option<P>, started: bool, dragged: bool) -> UiModel<P> {
    let pressed = if started && pointer is Some {
        UiModel { selection_start: pointer, selection_end: pointer, selection: None, ..m }
    } else {
        m
    };
    if dragged && pointer is Some {
        UiModel { selection_end: pointer, ..pressed }
    } else {
        pressed
    }
}

/// What ending a frame does: where a drag ended with a selection, the
/// selection goes out with a recording (once, after "Start Recording", for
/// the dialog's duration) or else a capture. Nothing goes out once the
/// user asked to leave.
pub open spec fn finish_frame_result<P>(m: UiModel<P>, drag_stopped: bool) -> (UiModel<P>, Option<(Selection, Command)>) {
    if m.exit_requested {
        (m, None)
    } else if drag_stopped && m.selection is Some {
        if m.recording_mode {
            (
                UiModel { recording_mode: false, ..m },
                Some((m.selection.unwrap(), Command::Record { duration_secs: m.recording_duration_secs })),
            )
        } else {
            (m, Some((m.selection.unwrap(), Command::Capture)))
        }
    } else {
        (m, None)
    }
}

/// Seeing the window on the same monitor again changes nothing and hands
/// out no PNG: the snapshot is taken in once per monitor change.
pub proof fn window_seen_twice<P>(m: UiModel<P>, captures: Seq<CapturedMonitor>, current: Option<MonitorSeen>)
    ensures
        after_window_seen(after_window_seen(m, captures, current), captures, current) == after_window_seen(m, captures, current),
        window_png(after_window_seen(m, captures, current), captures, current) is None,
{
}

/// A recording is asked for once: after a selection was handed out for
/// recording, the next selection is handed out for a capture.
pub proof fn recording_is_one_shot<P>(m: UiModel<P>, next: Selection)
    requires
        m.recording_mode,
        m.selection is Some,
        !m.exit_requested,
    ensures
        finish_frame_result(m, true).1 == Some((m.selection.unwrap(), Command::Record { duration_secs: m.recording_duration_secs })),
        finish_frame_result(UiModel { selection: Some(next), ..finish_frame_result(m, true).0 }, true).1 == Some((next, Command::Capture)),
{
}

/// After the user asked to leave, no selection is handed out.
pub proof fn leaving_hands_out_nothing<P>(m: UiModel<P>, drag_stopped: bool)
    requires
        m.exit_requested,
    ensures
        finish_frame_result(m, drag_stopped) == (m, None::<(Selection, Command)>),
{
}

/// A recording lasts 1 to 60 seconds: the dialog keeps the duration in that
/// range, and a recording asked for carries it.
pub proof fn recording_duration_in_range<P>(m: UiModel<P>, secs: u64, drag_stopped: bool)
    requires
        1 <= m.recording_duration_secs <= 60,
    ensures
        1 <= clamped_duration(secs) <= 60,
        finish_frame_result(m, drag_stopped).1 matches Some((_, Command::Record { duration_secs })) ==> 1 <= duration_secs <= 60,
{
}

/// Without a finished drag nothing is handed out and nothing changes.
pub proof fn no_action_without_release<P>(m: UiModel<P>)
    ensures
        finish_frame_result(m, false) == (m, None::<(Selection, Command)>),
{
}

/// State of the full-screen selection screen. `P` is the type of a pointer
/// position on screen; the library only stores and hands back such values.
pub struct UiState<P> {
    monitor: Option<u64>,
    image_width: u32,
    image_height: u32,
    image_uri: String,
    capture_bytes: Arc<RwLock<Option<Vec<u8>>>>,
    selection: Option<Selection>,
    selection_start: Option<P>,
    selection_end: Option<P>,
    show_recording_dialog: bool,
    recording_duration_secs: u64,
    recording_mode: bool,
    exit_requested: bool,
}

impl<P> View for UiState<P> {
    type V = UiModel<P>;

    closed spec fn view(&self) -> UiModel<P> {
        UiModel {
            monitor: self.monitor,
            image_size: (self.image_width, self.image_height),
            image_uri: self.image_uri@,
            selection: self.selection,
            selection_start: self.selection_start,
            selection_end: self.selection_end,
            show_recording_dialog: self.show_recording_dialog,
            recording_duration_secs: self.recording_duration_secs,
            recording_mode: self.recording_mode,
            exit_requested: self.exit_requested,
            slot: self.capture_bytes,
        }
    }
}

impl<P: Copy> UiState<P> {
    /// A screen that shows nothing yet; snapshots it shows go to
    /// `capture_bytes`, which it keeps and does not touch yet.
    pub fn new(capture_bytes: Arc<RwLock<Option<Vec<u8>>>>) -> (state: Self)
        ensures
            state@ == (UiModel::<P> {
                monitor: None,
                image_size: (0, 0),
                image_uri: Seq::empty(),
                selection: None,
                selection_start: None,
                selection_end: None,
                show_recording_dialog: false,
                recording_duration_secs: 3,
                recording_mode: false,
                exit_requested: false,
                slot: capture_bytes,
            }),
    {
        UiState {
            monitor: None,
            image_width: 0,
            image_height: 0,
            image_uri: String::new(),
            capture_bytes,
            selection: None,
            selection_start: None,
            selection_end: None,
            show_recording_dialog: false,
            recording_duration_secs: 3,
            recording_mode: false,
            exit_requested: false,
        }
    }

    /// Follows the window to the monitor `current`: on a new monitor, shows
    /// that monitor's screenshot, if there is one, and forgets the selection.
    /// Returns the screenshot's PNG, where it can be encoded, for the caller
    /// to put into the shared slot; `None` where nothing new is shown.
    /// The address of a new screenshot holds the sum of its monitor's
    /// coordinates, which must fit an `i32`.
    pub fn update_window_snapshot(&mut self, all_captures: &Vec<CapturedMonitor>, current: Option<MonitorSeen>) -> (png: Option<Vec<u8>>)
        requires
            captures_well_formed(all_captures@),
            switches_snapshot(old(self)@, all_captures@, current) ==> key_version_fits(current.unwrap().key),
        ensures
            final(self)@ == after_window_seen(old(self)@, all_captures@, current),
            match png {
                Some(bytes) => window_png(old(self)@, all_captures@, current) == Some(bytes@),
                None => window_png(old(self)@, all_captures@, current) is None,
            },
    {
        match current {
            None => {
                self.monitor = None;
                None
            },
            Some(seen) => {
                if self.monitor == Some(seen.handle) {
                    return None;
                }
                self.monitor = Some(seen.handle);
                self.refresh_snapshot(all_captures, seen.key)
            },
        }
    }

    /// Shows the screenshot of `key`, where there is one, and returns its
    /// PNG where it can be encoded.
    fn refresh_snapshot(&mut self, all_captures: &Vec<CapturedMonitor>, key: MonitorKey) -> (png: Option<Vec<u8>>)
        requires
            captures_well_formed(all_captures@),
            !has_no_capture_of(all_captures@, key) ==> key_version_fits(key),
        ensures
            has_no_capture_of(all_captures@, key) ==> final(self)@ == old(self)@ && png is None,
            !has_no_capture_of(all_captures@, key) ==> ({
                let c = all_captures@[choose|i: int| is_first_capture_of(all_captures@, key, i)];
                &&& final(self)@ == with_snapshot(old(self)@, c)
                &&& match png {
                    Some(bytes) => png_encoding(c.image.width, c.image.height, c.image.raw@) == Some(bytes@),
                    None => png_encoding(c.image.width, c.image.height, c.image.raw@) is None,
                }
            }),
    {
        let found = find_capture(all_captures, key);
        match found {
            None => None,
            Some(i) => {
                let snapshot = &all_captures[i];
                assert(snapshot.image.is_exact());
                proof {
                    let c = choose|c: int| is_first_capture_of(all_captures@, key, c);
                    assert(c == i as int) by {
                        if c < i as int {
                            assert(all_captures@[c].key != key);
                        } else if (i as int) < c {
                            assert(all_captures@[i as int].key != key);
                        }
                    }
                }
                self.image_width = snapshot.image.width;
                self.image_height = snapshot.image.height;
                let png = match encode_png(&snapshot.image) {
                    Ok(bytes) => Some(bytes),
                    Err(_) => None,
                };
                let mut uri = String::from_str("shotmd://capture?ver=");
                let version = signed_decimal_string(snapshot.key.x + snapshot.key.y);
                uri.append(version.as_str());
                self.image_uri = uri;
                self.reset_selection();
                png
            },
        }
    }

    fn reset_selection(&mut self)
        ensures
            final(self)@ == (UiModel { selection: None, selection_start: None, selection_end: None, ..old(self)@ }),
    {
        self.selection = None;
        self.selection_start = None;
        self.selection_end = None;
    }

    /// The recording shortcut was pressed: the recording dialog opens.
    pub fn press_record_shortcut(&mut self)
        ensures
            final(self)@ == (UiModel { show_recording_dialog: true, ..old(self)@ }),
    {
        self.show_recording_dialog = true;
    }

    /// A screenshot is on screen (neither side is empty).
    pub fn has_image(&self) -> (shown: bool)
        ensures
            shown == (self@.image_size.0 > 0 && self@.image_size.1 > 0),
    {
        self.image_width > 0 && self.image_height > 0
    }

    /// Width and height of the screenshot on screen.
    pub fn image_size(&self) -> (size: (u32, u32))
        ensures
            size == self@.image_size,
    {
        (self.image_width, self.image_height)
    }

    /// The address of the screenshot on screen.
    pub fn image_uri(&self) -> (uri: &str)
        ensures
            uri@ == self@.image_uri,
    {
        self.image_uri.as_str()
    }

    /// Feeds one frame of pointer input on the screenshot, where one is shown
    /// (else nothing happens): a press
    /// (`started`) starts a new rectangle at `pointer` and drops the
    /// selection, a move (`dragged`) moves its far corner, a release
    /// (`stopped`) turns the rectangle into the selection with `measure` and
    /// ends the drag. Returns whether a drag ended.
    pub fn track_drag<F: Fn(P, P) -> Selection>(
        &mut self,
        pointer: Option<P>,
        started: bool,
        dragged: bool,
        stopped: bool,
        measure: F,
    ) -> (drag_stopped: bool)
        requires
            forall|a: P, b: P| measure.requires((a, b)),
        ensures
            !(old(self)@.image_size.0 > 0 && old(self)@.image_size.1 > 0) ==> !drag_stopped && final(self)@ == old(self)@,
            (old(self)@.image_size.0 > 0 && old(self)@.image_size.1 > 0) ==> drag_stopped == stopped,
            (old(self)@.image_size.0 > 0 && old(self)@.image_size.1 > 0) ==> ({
                let moved = after_pointer(old(self)@, pointer, started, dragged);
                if !stopped {
                    final(self)@ == moved
                } else {
                    &&& final(self)@.selection_start is None
                    &&& final(self)@.selection_end is None
                    &&& (UiModel { selection: moved.selection, selection_start: None, selection_end: None, ..final(self)@ }) == (UiModel { selection_start: None, selection_end: None, ..moved })
                    &&& if moved.selection_start is Some && moved.selection_end is Some {
                        &&& final(self)@.selection is Some
                        &&& measure.ensures((moved.selection_start.unwrap(), moved.selection_end.unwrap()), final(self)@.selection.unwrap())
                    } else {
                        final(self)@.selection == moved.selection
                    }
                }
            }),
    {
        if !self.has_image() {
            return false;
        }
        if started {
            if let Some(pos) = pointer {
                self.selection_start = Some(pos);
                self.selection_end = Some(pos);
                self.selection = None;
            }
        }
        if dragged {
            if let Some(pos) = pointer {
                self.selection_end = Some(pos);
            }
        }
        if stopped {
            if let (Some(start), Some(end)) = (self.selection_start, self.selection_end) {
                self.selection = Some(measure(start, end));
            }
            self.selection_start = None;
            self.selection_end = None;
            return true;
        }
        false
    }

    /// The rectangle being dragged, from its first to its far corner.
    pub fn drag_preview(&self) -> (corners: Option<(P, P)>)
        ensures
            corners == (if self@.selection_start is Some && self@.selection_end is Some {
                Some((self@.selection_start.unwrap(), self@.selection_end.unwrap()))
            } else {
                None
            }),
    {
        match (self.selection_start, self.selection_end) {
            (Some(start), Some(end)) => Some((start, end)),
            _ => None,
        }
    }

    /// The recording dialog is open.
    pub fn recording_dialog_open(&self) -> (open: bool)
        ensures
            open == self@.show_recording_dialog,
    {
        self.show_recording_dialog
    }

    /// How long a recording lasts, in seconds.
    pub fn recording_duration_secs(&self) -> (secs: u64)
        ensures
            secs == self@.recording_duration_secs,
    {
        self.recording_duration_secs
    }

    /// The duration was set on the recording dialog's slider, which ranges
    /// over 1 to 60 seconds and keeps its value in that range.
    pub fn set_recording_duration(&mut self, secs: u64)
        ensures
            final(self)@ == (UiModel { recording_duration_secs: clamped_duration(secs), ..old(self)@ }),
    {
        self.recording_duration_secs = if secs < 1 {
            1
        } else if secs > 60 {
            60
        } else {
            secs
        };
    }

    /// The right mouse button was pressed: the screen is to close without
    /// handing out a selection.
    pub fn press_cancel(&mut self)
        ensures
            final(self)@ == (UiModel { exit_requested: true, ..old(self)@ }),
    {
        self.exit_requested = true;
    }

    /// The user asked to leave without a selection.
    pub fn exit_requested(&self) -> (exit: bool)
        ensures
            exit == self@.exit_requested,
    {
        self.exit_requested
    }

    /// The slot, shared with the image loader, that snapshots go to.
    pub fn capture_bytes(&self) -> (slot: &Arc<RwLock<Option<Vec<u8>>>>)
        ensures
            *slot == self@.slot,
    {
        &self.capture_bytes
    }

    /// The handle number of the monitor that the window was last seen on.
    pub fn monitor(&self) -> (handle: Option<u64>)
        ensures
            handle == self@.monitor,
    {
        self.monitor
    }

    /// "Start Recording" was pressed: the dialog closes and the next
    /// selection is recorded instead of captured.
    pub fn start_recording(&mut self)
        ensures
            final(self)@ == (UiModel { show_recording_dialog: false, recording_mode: true, ..old(self)@ }),
    {
        self.show_recording_dialog = false;
        self.recording_mode = true;
    }

    /// Ends a frame: where a drag ended with a selection, hands it out with
    /// what to do with it, a recording once after "Start Recording", else a
    /// capture.
    pub fn finish_frame(&mut self, drag_stopped: bool) -> (action: Option<(Selection, Command)>)
        ensures
            (final(self)@, action) == finish_frame_result(old(self)@, drag_stopped),
    {
        if self.exit_requested {
            return None;
        }
        if drag_stopped {
            if let Some(selection) = self.selection {
                if self.recording_mode {
                    self.recording_mode = false;
                    return Some((selection, Command::Record { duration_secs: self.recording_duration_secs }));
                }
                return Some((selection, Command::Capture));
            }
        }
        None
    }
}

} // verus!
