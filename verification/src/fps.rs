//! The counter behind the frames-per-second figure.
//!
//! The consumer reports once per second how many of its ticks uploaded
//! something. A window opens with the first tick and with every report; the
//! tick that reports is not counted. Time is a count of nanoseconds on a
//! clock that does not go back.

use vstd::prelude::*;

verus! {

/// Nanoseconds in a second.
pub const NANOS_PER_SECOND: u64 = 1_000_000_000;

/// Counts the ticks of the running one-second window.
pub struct FpsCounter {
    window_start: Option<u64>,
    counter: u32,
}

/// The state of a counter: when its window opened, if one has, and the ticks
/// counted in it.
pub struct FpsView {
    pub window_start: Option<int>,
    pub count: int,
}

impl View for FpsCounter {
    type V = FpsView;

    closed spec fn view(&self) -> FpsView {
        FpsView {
            window_start: match self.window_start {
                Some(start) => Some(start as int),
                None => None,
            },
            count: self.counter as int,
        }
    }
}

/// Whole seconds from `start` to `now`; none where `now` is not behind
/// `start`.
pub open spec fn whole_seconds(start: int, now: int) -> int {
    if now >= start {
        (now - start) / (NANOS_PER_SECOND as int)
    } else {
        0
    }
}

/// The count after one more tick: it stops at the largest `u32`.
pub open spec fn counted(count: int, uploaded: bool) -> int {
    if uploaded && count < u32::MAX {
        count + 1
    } else {
        count
    }
}

/// One tick at time `now`: the state afterwards and the figure reported, if
/// one is.
pub open spec fn fps_step(state: FpsView, now: int, uploaded: bool) -> (FpsView, Option<int>) {
    match state.window_start {
        None => (FpsView { window_start: Some(now), count: 0 }, None),
        Some(start) => if whole_seconds(start, now) >= 1 {
            (FpsView { window_start: Some(now), count: 0 }, Some(state.count))
        } else {
            (FpsView { window_start: Some(start), count: counted(state.count, uploaded) }, None)
        },
    }
}

/// After a report the count is zero and a new window has opened at the time
/// of the report.
pub proof fn lemma_report_opens_window(state: FpsView, now: int, uploaded: bool)
    requires
        fps_step(state, now, uploaded).1 is Some,
    ensures
        fps_step(state, now, uploaded).0 == (FpsView { window_start: Some(now), count: 0 }),
        fps_step(state, now, uploaded).1 == Some(state.count),
{
}

/// No two reports fall within one second: a tick less than a second after a
/// report reports nothing.
pub proof fn lemma_one_report_per_second(
    state: FpsView,
    first: int,
    first_uploaded: bool,
    second: int,
    second_uploaded: bool,
)
    requires
        fps_step(state, first, first_uploaded).1 is Some,
        second < first + NANOS_PER_SECOND,
    ensures
        fps_step(fps_step(state, first, first_uploaded).0, second, second_uploaded).1 is None,
{
}

impl FpsCounter {
    /// A counter whose first window has not opened yet.
    pub fn new() -> (counter: Self)
        ensures
            counter@ == (FpsView { window_start: None, count: 0 }),
    {
        FpsCounter { window_start: None, counter: 0 }
    }

    /// The ticks counted in the running window.
    pub fn count(&self) -> (count: u32)
        ensures
            count == self@.count,
    {
        self.counter
    }

    /// One tick of the consumer at `now_nanos`. `uploaded` tells whether the
    /// tick uploaded a frame.
    ///
    /// The first tick opens a window. A tick a full second or more after the
    /// window opened reports the count, sets it to zero and opens a new window
    /// at `now_nanos`. Any other tick is counted if it uploaded.
    pub fn tick(&mut self, now_nanos: u64, uploaded: bool) -> (report: Option<u32>)
        ensures
            final(self)@ == fps_step(old(self)@, now_nanos as int, uploaded).0,
            match report {
                Some(fps) => fps_step(old(self)@, now_nanos as int, uploaded).1 == Some(fps as int),
                None => fps_step(old(self)@, now_nanos as int, uploaded).1 is None,
            },
    {
        match self.window_start {
            None => {
                self.window_start = Some(now_nanos);
                self.counter = 0;
                None
            },
            Some(start) => {
                if now_nanos >= start && (now_nanos - start) / NANOS_PER_SECOND >= 1 {
                    let fps = self.counter;
                    self.window_start = Some(now_nanos);
                    self.counter = 0;
                    Some(fps)
                } else {
                    if uploaded && self.counter < u32::MAX {
                        self.counter = self.counter + 1;
                    }
                    None
                }
            },
        }
    }
}

impl Default for FpsCounter {
    fn default() -> (counter: Self)
        ensures
            counter@ == (FpsView { window_start: None, count: 0 }),
    {
        FpsCounter::new()
    }
}

} // verus!
