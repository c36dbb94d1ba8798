//! The windowed screenshot tool: monitors are captured on demand, the
//! screenshot of the monitor under the window is shown, a dragged rectangle
//! is selected and saved as `shot-<timestamp>.png`.
use vstd::prelude::*;
use crate::imaging::{crop, crop_of, RgbaFrame};
use crate::text::{concat_str, decimal, decimal_string, join_strings, joined, texts, timestamped_file_name, timestamped_name};
use crate::ui::{CapturedMonitor, MonitorKey};

verus! {

/// A rectangle in pixels of the screenshot on screen.
#[derive(Clone, Copy, Debug, PartialEq, Eq, Structural)]
pub struct Region {
    pub x: u32,
    pub y: u32,
    pub width: u32,
    pub height: u32,
}

/// Every screenshot holds exactly its pixels.
pub open spec fn snapshots_exact(snapshots: Seq<CapturedMonitor>) -> bool {
    forall|i: int| 0 <= i < snapshots.len() ==> (#[trigger] snapshots[i]).image.is_exact()
}

/// The name shown for a monitor: its friendly name, else its system name,
/// else `Monitor <n>` counting from 1.
pub open spec fn label_of(friendly_name: Option<Seq<char>>, name: Option<Seq<char>>, index: nat) -> Seq<char> {
    match friendly_name {
        Some(f) => f,
        None => match name {
            Some(n) => n,
            None => "Monitor "@ + decimal(index + 1),
        },
    }
}

/// The name shown for the monitor at `index` in the system's list.
pub fn monitor_label(friendly_name: Option<String>, name: Option<String>, index: usize) -> (label: String)
    requires
        index < usize::MAX,
    ensures
        label@ == label_of(
            match friendly_name { Some(f) => Some(f@), None => None },
            match name { Some(n) => Some(n@), None => None },
            index as nat,
        ),
{
    match friendly_name {
        Some(f) => f,
        None => match name {
            Some(n) => n,
            None => {
                let number = decimal_string(index as u64 + 1);
                concat_str("Monitor ", number.as_str())
            },
        },
    }
}

/// What one pass over the system's monitors found: the screenshots taken
/// and one message for each monitor that could not be taken.
pub struct ScanReport {
    snapshots: Vec<CapturedMonitor>,
    errors: Vec<String>,
}

impl ScanReport {
    pub closed spec fn snapshots(&self) -> Seq<CapturedMonitor> {
        self.snapshots@
    }

    pub closed spec fn errors(&self) -> Seq<Seq<char>> {
        texts(self.errors@)
    }

    /// Nothing found yet.
    pub fn new() -> (report: Self)
        ensures
            report.snapshots() == Seq::<CapturedMonitor>::empty(),
            report.errors() == Seq::<Seq<char>>::empty(),
    {
        let report = ScanReport { snapshots: Vec::new(), errors: Vec::new() };
        assert(report.errors() =~= Seq::<Seq<char>>::empty());
        report
    }

    /// The monitor `label` did not tell its position or size.
    pub fn geometry_failed(&mut self, label: &str)
        ensures
            final(self).snapshots() == old(self).snapshots(),
            final(self).errors() == old(self).errors().push(label@ + ": failed to read monitor geometry"@),
    {
        let message = concat_str(label, ": failed to read monitor geometry");
        self.errors.push(message);
        assert(self.errors() =~= old(self).errors().push(label@ + ": failed to read monitor geometry"@));
    }

    /// The monitor `key` was captured.
    pub fn captured(&mut self, key: MonitorKey, image: RgbaFrame)
        ensures
            final(self).snapshots() == old(self).snapshots().push(CapturedMonitor { key, image }),
            final(self).errors() == old(self).errors(),
    {
        self.snapshots.push(CapturedMonitor { key, image });
    }

    /// Capturing the monitor `label` failed with `error`.
    pub fn capture_failed(&mut self, label: &str, error: &str)
        ensures
            final(self).snapshots() == old(self).snapshots(),
            final(self).errors() == old(self).errors().push(label@ + ": "@ + error@),
    {
        let mut message = concat_str(label, ": ");
        message.append(error);
        self.errors.push(message);
        assert(self.errors() =~= old(self).errors().push(label@ + ": "@ + error@));
    }
}

/// Which screenshots a search accepts.
pub enum SnapshotMatch {
    /// The same monitor position and size.
    Key(MonitorKey),
    /// The same monitor position.
    Origin(i32, i32),
    /// A monitor that contains the point.
    Point(i32, i32),
}

/// The screenshot `c` is accepted by `m`.
pub open spec fn accepts(m: SnapshotMatch, c: CapturedMonitor) -> bool {
    match m {
        SnapshotMatch::Key(k) => c.key == k,
        SnapshotMatch::Origin(x, y) => c.key.x == x && c.key.y == y,
        SnapshotMatch::Point(x, y) => c.key.x <= x < c.key.x + c.key.width && c.key.y <= y < c.key.y + c.key.height,
    }
}

/// `i` is the first screenshot that `m` accepts.
pub open spec fn is_first_match(s: Seq<CapturedMonitor>, m: SnapshotMatch, i: int) -> bool {
    &&& 0 <= i < s.len()
    &&& accepts(m, s[i])
    &&& forall|j: int| 0 <= j < i ==> !accepts(m, #[trigger] s[j])
}

/// `m` accepts no screenshot.
pub open spec fn no_match(s: Seq<CapturedMonitor>, m: SnapshotMatch) -> bool {
    forall|j: int| 0 <= j < s.len() ==> !accepts(m, #[trigger] s[j])
}

/// The first screenshot that `m` accepts.
pub fn find_match(snapshots: &Vec<CapturedMonitor>, m: &SnapshotMatch) -> (found: Option<usize>)
    ensures
        match found {
            Some(i) => is_first_match(snapshots@, *m, i as int),
            None => no_match(snapshots@, *m),
        },
{
    let mut i: usize = 0;
    while i < snapshots.len()
        invariant
            i <= snapshots@.len(),
            forall|j: int| 0 <= j < i ==> !accepts(*m, #[trigger] snapshots@[j]),
        decreases snapshots@.len() - i,
    {
        let key = snapshots[i].key;
        let hit = match m {
            SnapshotMatch::Key(k) => key == *k,
            SnapshotMatch::Origin(x, y) => key.x == *x && key.y == *y,
            SnapshotMatch::Point(x, y) => {
                let left = key.x as i64;
                let top = key.y as i64;
                let right = left + key.width as i64;
                let bottom = top + key.height as i64;
                let px = *x as i64;
                let py = *y as i64;
                px >= left && px < right && py >= top && py < bottom
            },
        };
        if hit {
            return Some(i);
        }
        i = i + 1;
    }
    None
}

/// The first screenshot that `m` accepts, if any.
pub open spec fn first_match(s: Seq<CapturedMonitor>, m: SnapshotMatch) -> Option<int> {
    if no_match(s, m) {
        None
    } else {
        Some(choose|i: int| is_first_match(s, m, i))
    }
}

/// There is only one first screenshot that `m` accepts.
pub proof fn first_match_is_unique(s: Seq<CapturedMonitor>, m: SnapshotMatch, i: int)
    requires
        is_first_match(s, m, i),
    ensures
        first_match(s, m) == Some(i),
{
    assert(!no_match(s, m));
    let c = choose|c: int| is_first_match(s, m, c);
    assert(is_first_match(s, m, c));
    if c < i {
        assert(!accepts(m, s[c]));
    } else if i < c {
        assert(!accepts(m, s[i]));
    }
}

/// Where some screenshot is accepted, a first one is.
pub proof fn first_match_exists(s: Seq<CapturedMonitor>, m: SnapshotMatch, j: int)
    requires
        0 <= j < s.len(),
        accepts(m, s[j]),
    ensures
        first_match(s, m) matches Some(i) && is_first_match(s, m, i),
    decreases j,
{
    if forall|k: int| 0 <= k < j ==> !accepts(m, #[trigger] s[k]) {
        assert(is_first_match(s, m, j));
        first_match_is_unique(s, m, j);
    } else {
        let k = choose|k: int| 0 <= k < j && accepts(m, #[trigger] s[k]);
        first_match_exists(s, m, k);
    }
}

/// The screenshot found for the window is one of the screenshots.
pub proof fn window_snapshot_in_range(s: Seq<CapturedMonitor>, current: Option<MonitorKey>, window_pos: Option<(i32, i32)>)
    ensures
        window_snapshot(s, current, window_pos) matches Some(i) ==> 0 <= i < s.len(),
{
    if let Some(k) = current {
        if !no_match(s, SnapshotMatch::Key(k)) {
            let j = choose|j: int| 0 <= j < s.len() && accepts(SnapshotMatch::Key(k), #[trigger] s[j]);
            first_match_exists(s, SnapshotMatch::Key(k), j);
        }
        if !no_match(s, SnapshotMatch::Origin(k.x, k.y)) {
            let j = choose|j: int| 0 <= j < s.len() && accepts(SnapshotMatch::Origin(k.x, k.y), #[trigger] s[j]);
            first_match_exists(s, SnapshotMatch::Origin(k.x, k.y), j);
        }
    }
    if let Some((x, y)) = window_pos {
        if !no_match(s, SnapshotMatch::Point(x, y)) {
            let j = choose|j: int| 0 <= j < s.len() && accepts(SnapshotMatch::Point(x, y), #[trigger] s[j]);
            first_match_exists(s, SnapshotMatch::Point(x, y), j);
        }
    }
}

/// Which screenshot the window gets: the first one of its monitor's position
/// and size, wherever the window's corner is; where there is none, the
/// first one at its monitor's position; only where neither exists (or the
/// monitor is unknown), the first one that contains the window's corner;
/// else none.
pub proof fn window_snapshot_preference(s: Seq<CapturedMonitor>, current: Option<MonitorKey>, window_pos: Option<(i32, i32)>)
    ensures
        (current matches Some(k) && exists|j: int| 0 <= j < s.len() && #[trigger] s[j].key == k) ==> ({
            let k = current.unwrap();
            window_snapshot(s, current, window_pos) matches Some(i) && 0 <= i < s.len() && s[i].key == k
                && forall|l: int| 0 <= l < i ==> #[trigger] s[l].key != k
        }),
        (current matches Some(k) && (forall|j: int| 0 <= j < s.len() ==> #[trigger] s[j].key != k)
            && exists|j: int| 0 <= j < s.len() && #[trigger] s[j].key.x == k.x && s[j].key.y == k.y) ==> ({
            let k = current.unwrap();
            window_snapshot(s, current, window_pos) matches Some(i) && 0 <= i < s.len() && s[i].key.x == k.x && s[i].key.y == k.y
                && forall|l: int| 0 <= l < i ==> !(#[trigger] s[l].key.x == k.x && s[l].key.y == k.y)
        }),
        (current matches Some(k) ==> forall|j: int| 0 <= j < s.len() ==> !(#[trigger] s[j].key.x == k.x && s[j].key.y == k.y)) ==> match window_pos {
            None => window_snapshot(s, current, window_pos) is None,
            Some((x, y)) => if exists|j: int| 0 <= j < s.len() && #[trigger] s[j].key.x <= x < s[j].key.x + s[j].key.width
                && s[j].key.y <= y < s[j].key.y + s[j].key.height {
                window_snapshot(s, current, window_pos) matches Some(i) && 0 <= i < s.len()
                    && s[i].key.x <= x < s[i].key.x + s[i].key.width && s[i].key.y <= y < s[i].key.y + s[i].key.height
                    && forall|l: int| 0 <= l < i ==> !(#[trigger] s[l].key.x <= x < s[l].key.x + s[l].key.width
                        && s[l].key.y <= y < s[l].key.y + s[l].key.height)
            } else {
                window_snapshot(s, current, window_pos) is None
            },
        },
{
    if let Some(k) = current {
        if exists|j: int| 0 <= j < s.len() && #[trigger] s[j].key == k {
            let j = choose|j: int| 0 <= j < s.len() && #[trigger] s[j].key == k;
            first_match_exists(s, SnapshotMatch::Key(k), j);
        } else {
            assert(no_match(s, SnapshotMatch::Key(k)));
            if exists|j: int| 0 <= j < s.len() && #[trigger] s[j].key.x == k.x && s[j].key.y == k.y {
                let j = choose|j: int| 0 <= j < s.len() && #[trigger] s[j].key.x == k.x && s[j].key.y == k.y;
                first_match_exists(s, SnapshotMatch::Origin(k.x, k.y), j);
            } else {
                assert(no_match(s, SnapshotMatch::Origin(k.x, k.y)));
            }
        }
    }
    if (current matches Some(k) ==> forall|j: int| 0 <= j < s.len() ==> !(#[trigger] s[j].key.x == k.x && s[j].key.y == k.y)) {
        if let Some(k) = current {
            assert(no_match(s, SnapshotMatch::Key(k))) by {
                assert forall|j: int| 0 <= j < s.len() implies !accepts(SnapshotMatch::Key(k), #[trigger] s[j]) by {
                    assert(!(s[j].key.x == k.x && s[j].key.y == k.y));
                }
            }
            assert(no_match(s, SnapshotMatch::Origin(k.x, k.y)));
        }
        if let Some((x, y)) = window_pos {
            let m = SnapshotMatch::Point(x, y);
            if exists|j: int| 0 <= j < s.len() && #[trigger] s[j].key.x <= x < s[j].key.x + s[j].key.width
                && s[j].key.y <= y < s[j].key.y + s[j].key.height {
                let j = choose|j: int| 0 <= j < s.len() && #[trigger] s[j].key.x <= x < s[j].key.x + s[j].key.width
                    && s[j].key.y <= y < s[j].key.y + s[j].key.height;
                first_match_exists(s, m, j);
            } else {
                assert(no_match(s, m));
            }
        }
    }
}

/// Which screenshot belongs to the window: that of its monitor (`current`)
/// by position and size, else by position alone; failing that, the first
/// that contains the window's corner (`window_pos`).
pub open spec fn window_snapshot(s: Seq<CapturedMonitor>, current: Option<MonitorKey>, window_pos: Option<(i32, i32)>) -> Option<int> {
    let by_key = match current { Some(k) => first_match(s, SnapshotMatch::Key(k)), None => None };
    let by_origin = match current { Some(k) => first_match(s, SnapshotMatch::Origin(k.x, k.y)), None => None };
    if by_key is Some {
        by_key
    } else if by_origin is Some {
        by_origin
    } else {
        match window_pos {
            None => None,
            Some((x, y)) => first_match(s, SnapshotMatch::Point(x, y)),
        }
    }
}

/// What the windowed tool shows and has been told.
pub struct ShotAppModel<P> {
    pub monitor_snapshots: Seq<CapturedMonitor>,
    pub active_monitor: Option<MonitorKey>,
    pub last_capture: Option<(u32, u32, Seq<u8>)>,
    pub selection: Option<Region>,
    pub selection_start: Option<P>,
    pub selection_end: Option<P>,
    pub last_saved: Option<Seq<char>>,
    pub last_error: Option<Seq<char>>,
}

/// The tool after it showed the screenshot `c`.
pub open spec fn showing<P>(m: ShotAppModel<P>, c: CapturedMonitor) -> ShotAppModel<P> {
    ShotAppModel {
        last_capture: Some((c.image.width, c.image.height, c.image.raw@)),
        selection: None,
        selection_start: None,
        selection_end: None,
        last_saved: None,
        last_error: None,
        active_monitor: Some(c.key),
        ..m
    }
}

/// The tool after it followed the window: it shows the screenshot that
/// belongs to the window unless that is already the active monitor's.
pub open spec fn synced<P>(m: ShotAppModel<P>, current: Option<MonitorKey>, window_pos: Option<(i32, i32)>) -> ShotAppModel<P> {
    match window_snapshot(m.monitor_snapshots, current, window_pos) {
        None => m,
        Some(i) => if m.active_monitor == Some(m.monitor_snapshots[i].key) {
            m
        } else {
            showing(m, m.monitor_snapshots[i])
        },
    }
}

/// Following a window that has not moved changes nothing: after one sync,
/// a second one with the same window keeps the tool as it is (the
/// selection, the saved file and the error stay).
pub proof fn sync_settles<P>(m: ShotAppModel<P>, current: Option<MonitorKey>, window_pos: Option<(i32, i32)>)
    ensures
        synced(synced(m, current, window_pos), current, window_pos) == synced(m, current, window_pos),
{
}

/// The tool after the pointer was pressed (`started`) or moved (`dragged`)
/// at `pointer`, before any region is measured.
pub open spec fn pointer_moved<P>(m: ShotAppModel<P>, pointer: Option<P>, started: bool, dragged: bool) -> ShotAppModel<P> {
    let pressed = if started && pointer is Some {
        ShotAppModel { selection_start: pointer, selection_end: pointer, selection: None, ..m }
    } else {
        m
    };
    if dragged && pointer is Some {
        ShotAppModel { selection_end: pointer, ..pressed }
    } else {
        pressed
    }
}

/// The region lies inside a screenshot and is at least a pixel wide and
/// high.
pub open spec fn region_inside(r: Region, capture: (u32, u32, Seq<u8>)) -> bool {
    &&& r.width >= 1
    &&& r.height >= 1
    &&& r.x + r.width <= capture.0
    &&& r.y + r.height <= capture.1
}

/// A selection, where there is one, lies inside the last capture.
pub open spec fn selection_inside<P>(m: ShotAppModel<P>) -> bool {
    m.selection matches Some(r) ==> (m.last_capture matches Some(c) && region_inside(r, c))
}

/// Every region that `measure` can give lies inside the capture.
pub open spec fn measures_inside<P, F: Fn(P, P) -> Option<Region>>(measure: F, capture: Option<(u32, u32, Seq<u8>)>) -> bool {
    forall|a: P, b: P, r: Option<Region>| #[trigger] measure.ensures((a, b), r)
        ==> (r matches Some(x) ==> (capture matches Some(c) && region_inside(x, c)))
}

/// A stored selection always lies inside the last capture: scanning the
/// monitors, following the window and showing a screenshot keep it so, and
/// saving cuts out exactly the selected region.
pub proof fn selection_stays_inside<P>(
    m: ShotAppModel<P>,
    snapshots: Seq<CapturedMonitor>,
    errors: Seq<Seq<char>>,
    error: Seq<char>,
    current: Option<MonitorKey>,
    window_pos: Option<(i32, i32)>,
    c: CapturedMonitor,
)
    requires
        selection_inside(m),
    ensures
        selection_inside(after_scan(m, snapshots, errors)),
        selection_inside(after_failed_listing(m, error)),
        selection_inside(showing(m, c)),
        selection_inside(synced(m, current, window_pos)),
        m.selection matches Some(r) ==> ({
            let last = m.last_capture.unwrap();
            let cut = crop_of(last.0, last.1, last.2, r.x, r.y, r.width, r.height);
            cut.0 == r.width && cut.1 == r.height
        }),
{
}

/// A cut-out region waiting to be written to the file `file_name`.
pub struct PendingSave {
    pub file_name: String,
    pub image: RgbaFrame,
}

/// State of the windowed screenshot tool. `P` is the type of a pointer
/// position on screen.
pub struct ShotApp<P> {
    monitor_snapshots: Vec<CapturedMonitor>,
    active_monitor: Option<MonitorKey>,
    last_capture: Option<RgbaFrame>,
    selection: Option<Region>,
    selection_start: Option<P>,
    selection_end: Option<P>,
    last_saved: Option<String>,
    last_error: Option<String>,
}

impl<P> View for ShotApp<P> {
    type V = ShotAppModel<P>;

    closed spec fn view(&self) -> ShotAppModel<P> {
        ShotAppModel {
            monitor_snapshots: self.monitor_snapshots@,
            active_monitor: self.active_monitor,
            last_capture: match self.last_capture {
                Some(f) => Some((f.width, f.height, f.raw@)),
                None => None,
            },
            selection: self.selection,
            selection_start: self.selection_start,
            selection_end: self.selection_end,
            last_saved: match self.last_saved {
                Some(s) => Some(s@),
                None => None,
            },
            last_error: match self.last_error {
                Some(s) => Some(s@),
                None => None,
            },
        }
    }
}

/// The last capture holds exactly its pixels.
pub open spec fn capture_exact(c: Option<(u32, u32, Seq<u8>)>) -> bool {
    c matches Some(f) ==> 4 * f.0 * f.1 == f.2.len()
}

/// The tool after a scan of the monitors: its screenshots, and the messages
/// of the monitors that failed joined with "; ", or none.
pub open spec fn after_scan<P>(m: ShotAppModel<P>, snapshots: Seq<CapturedMonitor>, errors: Seq<Seq<char>>) -> ShotAppModel<P> {
    ShotAppModel {
        monitor_snapshots: snapshots,
        last_error: if errors.len() == 0 { None } else { Some(joined(errors, "; "@)) },
        ..m
    }
}

/// A successful scan replaces the screenshots by exactly those it took,
/// whatever the tool held before (stale screenshots and monitors that went
/// away are gone); it shows its messages joined with "; ", or no error, and
/// keeps what is on screen.
pub proof fn scan_replaces_screenshots<P>(m: ShotAppModel<P>, other: ShotAppModel<P>, snapshots: Seq<CapturedMonitor>, errors: Seq<Seq<char>>)
    ensures
        after_scan(m, snapshots, errors).monitor_snapshots == snapshots,
        after_scan(m, snapshots, errors).monitor_snapshots.len() == snapshots.len(),
        after_scan(m, snapshots, errors).monitor_snapshots == after_scan(other, snapshots, errors).monitor_snapshots,
        errors.len() == 0 ==> after_scan(m, snapshots, errors).last_error is None,
        errors.len() > 0 ==> after_scan(m, snapshots, errors).last_error == Some(joined(errors, "; "@)),
        after_scan(m, snapshots, errors).active_monitor == m.active_monitor,
        after_scan(m, snapshots, errors).last_capture == m.last_capture,
        after_scan(m, snapshots, errors).selection == m.selection,
{
}

/// The tool after the system refused to list its monitors.
pub open spec fn after_failed_listing<P>(m: ShotAppModel<P>, error: Seq<char>) -> ShotAppModel<P> {
    ShotAppModel {
        monitor_snapshots: Seq::empty(),
        active_monitor: None,
        last_error: Some("Failed to list monitors: "@ + error),
        ..m
    }
}

impl<P: Copy> ShotApp<P> {
    /// Screenshots hold exactly their pixels, and so does the last capture.
    pub closed spec fn well_formed(&self) -> bool {
        &&& snapshots_exact(self.monitor_snapshots@)
        &&& capture_exact(self@.last_capture)
    }

    /// The tool with the monitors that one scan found (`Ok`), or with the
    /// error of the listing (`Err`).
    pub fn new(scan: Result<ScanReport, String>) -> (app: Self)
        requires
            scan matches Ok(report) ==> snapshots_exact(report.snapshots()),
        ensures
            app.well_formed(),
            app@ == match scan {
                Ok(report) => after_scan(ShotAppModel::<P> {
                    monitor_snapshots: Seq::empty(),
                    active_monitor: None,
                    last_capture: None,
                    selection: None,
                    selection_start: None,
                    selection_end: None,
                    last_saved: None,
                    last_error: None,
                }, report.snapshots(), report.errors()),
                Err(e) => after_failed_listing(ShotAppModel::<P> {
                    monitor_snapshots: Seq::empty(),
                    active_monitor: None,
                    last_capture: None,
                    selection: None,
                    selection_start: None,
                    selection_end: None,
                    last_saved: None,
                    last_error: None,
                }, e@),
            },
    {
        let mut app = ShotApp {
            monitor_snapshots: Vec::new(),
            active_monitor: None,
            last_capture: None,
            selection: None,
            selection_start: None,
            selection_end: None,
            last_saved: None,
            last_error: None,
        };
        app.capture_all_monitors(scan);
        app
    }

    /// Takes in a scan of the monitors: on success its screenshots replace
    /// the old ones and its messages become the error shown; when the
    /// listing failed, the screenshots and the active monitor are dropped.
    pub fn capture_all_monitors(&mut self, scan: Result<ScanReport, String>)
        requires
            old(self).well_formed(),
            scan matches Ok(report) ==> snapshots_exact(report.snapshots()),
        ensures
            final(self).well_formed(),
            final(self)@ == match scan {
                Ok(report) => after_scan(old(self)@, report.snapshots(), report.errors()),
                Err(e) => after_failed_listing(old(self)@, e@),
            },
    {
        match scan {
            Ok(report) => {
                let ScanReport { snapshots, errors } = report;
                self.monitor_snapshots = snapshots;
                if errors.len() == 0 {
                    self.last_error = None;
                } else {
                    self.last_error = Some(join_strings(&errors, "; "));
                }
            },
            Err(err) => {
                self.last_error = Some(concat_str("Failed to list monitors: ", err.as_str()));
                self.monitor_snapshots.clear();
                self.active_monitor = None;
            },
        }
    }

    /// The screenshot that belongs to the window, found as
    /// `window_snapshot_ok` says, by its index.
    pub fn snapshot_index_for_window(&self, current: Option<MonitorKey>, window_pos: Option<(i32, i32)>) -> (found: Option<usize>)
        ensures
            match found {
                Some(i) => window_snapshot(self@.monitor_snapshots, current, window_pos) == Some(i as int) && i < self@.monitor_snapshots.len(),
                None => window_snapshot(self@.monitor_snapshots, current, window_pos) is None,
            },
    {
        let ghost s = self@.monitor_snapshots;
        if let Some(key) = current {
            let exact = find_match(&self.monitor_snapshots, &SnapshotMatch::Key(key));
            if let Some(i) = exact {
                proof { first_match_is_unique(s, SnapshotMatch::Key(key), i as int); }
                return exact;
            }
            let same_origin = find_match(&self.monitor_snapshots, &SnapshotMatch::Origin(key.x, key.y));
            if let Some(i) = same_origin {
                proof { first_match_is_unique(s, SnapshotMatch::Origin(key.x, key.y), i as int); }
                return same_origin;
            }
        }
        match window_pos {
            None => None,
            Some((x, y)) => {
                let found = find_match(&self.monitor_snapshots, &SnapshotMatch::Point(x, y));
                proof {
                    if let Some(i) = found {
                        first_match_is_unique(s, SnapshotMatch::Point(x, y), i as int);
                    }
                }
                found
            },
        }
    }

    /// A copy of the screenshot that belongs to the window.
    pub fn snapshot_for_window(&self, current: Option<MonitorKey>, window_pos: Option<(i32, i32)>) -> (snapshot: Option<CapturedMonitor>)
        ensures
            match window_snapshot(self@.monitor_snapshots, current, window_pos) {
                None => snapshot is None,
                Some(i) => snapshot matches Some(c) && c.key == self@.monitor_snapshots[i].key
                    && c.image.width == self@.monitor_snapshots[i].image.width
                    && c.image.height == self@.monitor_snapshots[i].image.height
                    && c.image.raw@ == self@.monitor_snapshots[i].image.raw@,
            },
    {
        let found = self.snapshot_index_for_window(current, window_pos);
        match found {
            None => None,
            Some(i) => Some(self.monitor_snapshots[i].duplicate()),
        }
    }

    /// Shows the screenshot `snapshot`: it becomes the last capture of the
    /// active monitor, and the selection, the saved file and the error are
    /// forgotten.
    pub fn show_snapshot(&mut self, snapshot: &CapturedMonitor)
        requires
            old(self).well_formed(),
            snapshot.image.is_exact(),
        ensures
            final(self).well_formed(),
            final(self)@ == showing(old(self)@, *snapshot),
    {
        self.last_capture = Some(snapshot.image.duplicate());
        self.selection = None;
        self.selection_start = None;
        self.selection_end = None;
        self.last_saved = None;
        self.last_error = None;
        self.active_monitor = Some(snapshot.key);
    }

    /// Follows the window: shows the screenshot that belongs to it unless it
    /// is already the active monitor's. Returns the screenshot newly shown.
    pub fn sync_capture_to_window(&mut self, current: Option<MonitorKey>, window_pos: Option<(i32, i32)>) -> (shown: Option<CapturedMonitor>)
        requires
            old(self).well_formed(),
        ensures
            final(self).well_formed(),
            final(self)@ == synced(old(self)@, current, window_pos),
            match window_snapshot(old(self)@.monitor_snapshots, current, window_pos) {
                None => shown is None,
                Some(i) => {
                    let c = old(self)@.monitor_snapshots[i];
                    if old(self)@.active_monitor == Some(c.key) {
                        shown is None
                    } else {
                        shown matches Some(s) && s.key == c.key && s.image.width == c.image.width
                            && s.image.height == c.image.height && s.image.raw@ == c.image.raw@
                    }
                },
            },
    {
        let found = self.snapshot_index_for_window(current, window_pos);
        match found {
            None => None,
            Some(i) => {
                let key = self.monitor_snapshots[i].key;
                if self.active_monitor == Some(key) {
                    return None;
                }
                let snapshot = self.monitor_snapshots[i].duplicate();
                proof {
                    assert(self.monitor_snapshots@[i as int].image.is_exact());
                }
                self.show_snapshot(&snapshot);
                Some(snapshot)
            },
        }
    }

    /// There are screenshots to show.
    pub fn can_capture(&self) -> (enabled: bool)
        ensures
            enabled == (self@.monitor_snapshots.len() > 0),
    {
        self.monitor_snapshots.len() > 0
    }

    /// There is a selection and a screenshot to cut it from.
    pub fn can_save(&self) -> (enabled: bool)
        ensures
            enabled == (self@.selection is Some && self@.last_capture is Some),
    {
        self.selection.is_some() && self.last_capture.is_some()
    }

    /// The selected region.
    pub fn selection(&self) -> (region: Option<Region>)
        ensures
            region == self@.selection,
    {
        self.selection
    }

    /// The name of the last file saved.
    pub fn last_saved(&self) -> (name: Option<&String>)
        ensures
            match name {
                Some(s) => self@.last_saved == Some(s@),
                None => self@.last_saved is None,
            },
    {
        self.last_saved.as_ref()
    }

    /// The error shown.
    pub fn last_error(&self) -> (text: Option<&String>)
        ensures
            match text {
                Some(s) => self@.last_error == Some(s@),
                None => self@.last_error is None,
            },
    {
        self.last_error.as_ref()
    }

    /// Feeds one frame of pointer input: a press (`started`) starts a new
    /// rectangle at `pointer` and drops the selection; a move (`dragged`)
    /// moves its far corner and measures the selection anew; a release
    /// (`stopped`) measures it once more and ends the drag. `measure` turns
    /// the rectangle's corners into a region of the screenshot, or none.
    pub fn track_drag<F: Fn(P, P) -> Option<Region>>(
        &mut self,
        pointer: Option<P>,
        started: bool,
        dragged: bool,
        stopped: bool,
        measure: F,
    )
        requires
            old(self).well_formed(),
            forall|a: P, b: P| measure.requires((a, b)),
        ensures
            final(self).well_formed(),
            ({
                let moved = pointer_moved(old(self)@, pointer, started, dragged);
                let has_rect = moved.selection_start is Some && moved.selection_end is Some;
                let measured = (dragged && pointer is Some && has_rect) || (stopped && has_rect);
                &&& final(self)@.selection_start == (if stopped { None } else { moved.selection_start })
                &&& final(self)@.selection_end == (if stopped { None } else { moved.selection_end })
                &&& (ShotAppModel { selection: moved.selection, selection_start: moved.selection_start, selection_end: moved.selection_end, ..final(self)@ }) == moved
                &&& measured ==> measure.ensures((moved.selection_start.unwrap(), moved.selection_end.unwrap()), final(self)@.selection)
                &&& !measured ==> final(self)@.selection == moved.selection
            }),
            selection_inside(old(self)@) && measures_inside(measure, old(self)@.last_capture) ==> selection_inside(final(self)@),
    {
        if started {
            if let Some(pos) = pointer {
                self.selection_start = Some(pos);
                self.selection_end = Some(pos);
                self.selection = None;
            }
        }
        if dragged {
            if let Some(pos) = pointer {
                self.selection_end = Some(pos);
                if let (Some(start), Some(end)) = (self.selection_start, self.selection_end) {
                    self.selection = measure(start, end);
                }
            }
        }
        if stopped {
            if let (Some(start), Some(end)) = (self.selection_start, self.selection_end) {
                self.selection = measure(start, end);
            }
            self.selection_start = None;
            self.selection_end = None;
        }
    }

    /// Starts saving the selection as `shot-<timestamp>.png`: returns the
    /// cut-out region and the file name, or shows why there is nothing to
    /// save.
    pub fn save_selection(&mut self, timestamp: u64) -> (pending: Option<PendingSave>)
        requires
            old(self).well_formed(),
        ensures
            final(self).well_formed(),
            old(self)@.selection is None ==> pending is None && final(self)@ == (ShotAppModel { last_error: Some("Select a region to save"@), ..old(self)@ }),
            old(self)@.selection is Some && old(self)@.last_capture is None ==> pending is None && final(self)@ == (ShotAppModel { last_error: Some("Capture an image before saving"@), ..old(self)@ }),
            old(self)@.selection is Some && old(self)@.last_capture is Some ==> final(self)@ == old(self)@ && ({
                let r = old(self)@.selection.unwrap();
                let c = old(self)@.last_capture.unwrap();
                pending matches Some(p) && p.file_name@ == timestamped_name("shot"@, timestamp as nat, "png"@)
                    && (p.image.width, p.image.height, p.image.raw@) == crop_of(c.0, c.1, c.2, r.x, r.y, r.width, r.height)
            }),
    {
        let region = match self.selection {
            Some(region) => region,
            None => {
                self.last_error = Some(String::from_str("Select a region to save"));
                return None;
            },
        };
        let image = match &self.last_capture {
            Some(image) => image,
            None => {
                self.last_error = Some(String::from_str("Capture an image before saving"));
                return None;
            },
        };
        let cropped = crop(image, region.x, region.y, region.width, region.height);
        let file_name = timestamped_file_name("shot", timestamp, "png");
        Some(PendingSave { file_name, image: cropped })
    }

    /// Takes in how writing the file `file_name` went: on success it is shown
    /// as saved and the error is cleared; on failure `Save failed: <error>`
    /// is shown.
    pub fn save_finished(&mut self, file_name: String, outcome: Result<(), String>)
        requires
            old(self).well_formed(),
        ensures
            final(self).well_formed(),
            final(self)@ == match outcome {
                Ok(()) => ShotAppModel { last_saved: Some(file_name@), last_error: None, ..old(self)@ },
                Err(e) => ShotAppModel { last_error: Some("Save failed: "@ + e@), ..old(self)@ },
            },
    {
        match outcome {
            Ok(()) => {
                self.last_saved = Some(file_name);
                self.last_error = None;
            },
            Err(err) => {
                self.last_error = Some(concat_str("Save failed: ", err.as_str()));
            },
        }
    }
}

} // verus!
