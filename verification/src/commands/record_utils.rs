//! Frames of a screen recording, and the clock that stamps them.
use std::time::{Duration, Instant};
use vstd::prelude::*;
use crate::imaging::RgbaFrame;

verus! {

/// A recorded frame of the whole monitor, with the time since the previous
/// frame and since the first one, in milliseconds.
pub struct RecordFrame {
    pub frame: RgbaFrame,
    pub delay_ms: u32,
    pub timestamp_ms: u32,
}

/// std's monotonic clock reading, held opaquely.
#[verifier::external_type_specification]
#[verifier::external_body]
pub struct ExInstant(Instant);

/// The number of whole milliseconds in a duration, as `Duration::as_millis`
/// gives it.
pub uninterp spec fn duration_millis(duration: Duration) -> u128;

/// The time elapsed from `earlier` to `later`, as
/// `Instant::duration_since` gives it.
pub uninterp spec fn instant_gap(later: Instant, earlier: Instant) -> Duration;

/// Calls `Instant::duration_since`.
/// Trusted: the result is `instant_gap` of the two instants; from an instant
/// to itself no time elapses, so it holds no whole millisecond (std
/// documents the result as the time elapsed from `earlier` to `later`).
#[verifier::external_body]
pub(crate) fn duration_since(later: &Instant, earlier: &Instant) -> (elapsed: Duration)
    ensures
        elapsed == instant_gap(*later, *earlier),
        *later == *earlier ==> duration_millis(elapsed) == 0,
{
    later.duration_since(*earlier)
}

/// Calls `Duration::as_millis`.
/// Trusted: the result is `duration_millis` of the duration.
#[verifier::external_body]
pub(crate) fn whole_millis(duration: &Duration) -> (millis: u128)
    ensures
        millis == duration_millis(*duration),
{
    duration.as_millis()
}

/// The whole milliseconds from `earlier` to `later`, cut to 32 bits as
/// `as u32` does.
pub open spec fn gap_millis(later: Instant, earlier: Instant) -> u32 {
    duration_millis(instant_gap(later, earlier)) as u32
}

/// The milliseconds from `earlier` to `later`, cut to 32 bits as
/// `as u32` does: 0 from an instant to itself.
fn millis_between(later: &Instant, earlier: &Instant) -> (millis: u32)
    ensures
        millis == gap_millis(*later, *earlier),
        *later == *earlier ==> millis == 0,
{
    let elapsed = duration_since(later, earlier);
    whole_millis(&elapsed) as u32
}

/// When the first frame arrived, and the last one.
pub struct FrameClock {
    start_time: Option<Instant>,
    last_frame_time: Option<Instant>,
}

impl FrameClock {
    /// When the first frame arrived.
    pub closed spec fn start(&self) -> Option<Instant> {
        self.start_time
    }

    /// When the last frame arrived.
    pub closed spec fn last(&self) -> Option<Instant> {
        self.last_frame_time
    }

    /// A clock that has seen no frame.
    pub fn new() -> (clock: Self)
        ensures
            clock.start() is None,
            clock.last() is None,
    {
        FrameClock { start_time: None, last_frame_time: None }
    }

    /// A frame arrived at `now`: returns its timestamp (milliseconds since
    /// the first frame) and its delay (milliseconds since the previous frame,
    /// 0 for the first). The first frame's arrival becomes the start, so the
    /// first frame's timestamp is 0.
    pub fn tick(&mut self, now: Instant) -> (stamp: (u32, u32))
        ensures
            final(self).start() == (match old(self).start() {
                Some(t) => Some(t),
                None => Some(now),
            }),
            final(self).last() == Some(now),
            stamp.0 == gap_millis(now, final(self).start().unwrap()),
            old(self).start() is None ==> stamp.0 == 0,
            stamp.1 == match old(self).last() {
                Some(last) => gap_millis(now, last),
                None => 0,
            },
    {
        let start = match self.start_time {
            Some(t) => t,
            None => {
                self.start_time = Some(now);
                now
            },
        };
        let timestamp_ms = millis_between(&now, &start);
        let delay_ms = match self.last_frame_time {
            Some(last) => millis_between(&now, &last),
            None => 0,
        };
        self.last_frame_time = Some(now);
        (timestamp_ms, delay_ms)
    }
}

} // verus!
