//! Progress clock: elapsed-time accounting across pause, resume, seek and
//! track-switch boundaries.
//!
//! All instants and durations are in milliseconds. The clock never consults
//! the machine's time itself: every operation receives the current instant as
//! a plain value, so the timing arithmetic is ordinary verified code.

use vstd::prelude::*;

verus! {

/// Timing anchors for playback progress.
///
/// While running (`start_instant` is `Some(s)`), the true elapsed playing
/// time at instant `now` is `elapsed_before_pause + (now - s)`; while frozen
/// (`start_instant` is `None`) it is `elapsed_before_pause` exactly, however
/// much wall time passes. This invariant holds across arbitrarily many
/// pause/resume cycles.
#[derive(Clone, Copy, Debug)]
pub struct ProgressClock {
    /// Playing time accumulated before the current run segment, in ms.
    pub elapsed_before_pause: u64,
    /// Instant at which the current run segment began, in ms since the
    /// caller's epoch; `Some` exactly while the clock is running.
    pub start_instant: Option<u64>,
}

impl ProgressClock {
    /// The clock is counting: wall time elapses into reported progress.
    pub open spec fn is_running(self) -> bool {
        self.start_instant is Some
    }

    /// A frozen clock that reads zero: the state right after construction
    /// and whenever no session is active.
    pub open spec fn zeroed() -> ProgressClock {
        ProgressClock { elapsed_before_pause: 0, start_instant: None }
    }

    /// True elapsed playing time at instant `now`, in ms.
    ///
    /// Never negative: an instant earlier than the run anchor contributes no
    /// run time. Saturates at `u64::MAX`, the largest value the machine
    /// representation can report.
    pub open spec fn elapsed_at(self, now: u64) -> u64 {
        match self.start_instant {
            Option::Some(s) => {
                let run: int = if now >= s { now - s } else { 0 };
                if self.elapsed_before_pause + run > u64::MAX {
                    u64::MAX
                } else {
                    (self.elapsed_before_pause + run) as u64
                }
            },
            Option::None => self.elapsed_before_pause,
        }
    }

    /// A fresh, frozen clock reading zero.
    pub fn new() -> (c: ProgressClock)
        ensures
            c == ProgressClock::zeroed(),
    {
        ProgressClock { elapsed_before_pause: 0, start_instant: None }
    }

    /// Start counting from zero at `now`: a new track begins.
    pub fn start(&mut self, now: u64)
        ensures
            *final(self) == (ProgressClock { elapsed_before_pause: 0, start_instant: Some(now) }),
            final(self).elapsed_at(now) == 0,
    {
        self.elapsed_before_pause = 0;
        self.start_instant = Some(now);
    }

    /// Resume counting at `now`: the accumulator is untouched, so future
    /// elapsed values continue from the frozen reading.
    pub fn resume(&mut self, now: u64)
        ensures
            *final(self) == (ProgressClock {
                elapsed_before_pause: old(self).elapsed_before_pause,
                start_instant: Some(now),
            }),
            final(self).elapsed_at(now) == old(self).elapsed_before_pause,
    {
        self.start_instant = Some(now);
    }

    /// Freeze the clock at `now`: the elapsed reading at the freeze instant
    /// becomes the accumulator, and time stops contributing.
    pub fn freeze(&mut self, now: u64)
        ensures
            *final(self) == (ProgressClock {
                elapsed_before_pause: old(self).elapsed_at(now),
                start_instant: None,
            }),
            final(self).elapsed_at(now) == old(self).elapsed_at(now),
    {
        let e: u64 = self.elapsed_ms(now);
        self.elapsed_before_pause = e;
        self.start_instant = None;
    }

    /// Re-anchor the clock to `position` at `now`: elapsed becomes exactly
    /// `position`, and the clock keeps running only if `keep_running`.
    pub fn seek(&mut self, position: u64, keep_running: bool, now: u64)
        ensures
            *final(self) == (ProgressClock {
                elapsed_before_pause: position,
                start_instant: if keep_running { Some(now) } else { None },
            }),
            final(self).elapsed_at(now) == position,
    {
        self.elapsed_before_pause = position;
        self.start_instant = if keep_running { Some(now) } else { None };
    }

    /// Report the elapsed playing time at instant `now`.
    pub fn elapsed_ms(&self, now: u64) -> (e: u64)
        ensures
            e == self.elapsed_at(now),
    {
        match self.start_instant {
            Some(s) => {
                let run: u64 = if now >= s { now - s } else { 0 };
                if run <= u64::MAX - self.elapsed_before_pause {
                    self.elapsed_before_pause + run
                } else {
                    u64::MAX
                }
            },
            None => self.elapsed_before_pause,
        }
    }

    /// A running clock never runs backwards: its reading is monotonically
    /// non-decreasing in the instant it is read at.
    pub proof fn lemma_elapsed_monotone(self, t1: u64, t2: u64)
        requires
            t1 <= t2,
        ensures
            self.elapsed_at(t1) <= self.elapsed_at(t2),
    {
    }

    /// A frozen clock is constant: its reading does not depend on the
    /// instant it is read at.
    pub proof fn lemma_elapsed_frozen(self, t1: u64, t2: u64)
        requires
            !self.is_running(),
        ensures
            self.elapsed_at(t1) == self.elapsed_at(t2),
    {
    }
}

} // verus!
