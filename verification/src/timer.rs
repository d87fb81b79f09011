//! Timers that count simulated time in microseconds.
use vstd::prelude::*;

verus! {

/// Longest duration a timer can be set to, in microseconds.
pub const MAX_TIMER_DURATION: u64 = 0x7fff_ffff_ffff_ffff;

/// Whether a timer stops when it has run out or starts over.
#[derive(Clone, Copy, Debug, PartialEq, Eq, Structural)]
pub enum TimerMode {
    Once,
    Repeating,
}

/// A timer that is moved forward by `tick`.
///
/// A timer that runs once finishes when the time it has been ticked for
/// reaches its duration, and stays finished. A repeating timer finishes in
/// every tick in which that time reaches the duration, and carries what is
/// left over the duration into its next round.
#[derive(Clone, Copy, Debug, PartialEq, Eq, Structural)]
pub struct Timer {
    pub duration: u64,
    pub elapsed: u64,
    pub finished: bool,
    pub mode: TimerMode,
}

impl Timer {
    /// Whether the duration is not above the longest and the time ticked is
    /// not above the duration.
    pub open spec fn wf(&self) -> bool {
        &&& self.duration <= MAX_TIMER_DURATION
        &&& self.elapsed <= self.duration
    }

    /// A fresh timer of the given duration in microseconds. A duration
    /// above the longest one counts as the longest.
    pub open spec fn spec_from_micros(duration: u64, mode: TimerMode) -> Timer {
        Timer {
            duration: if duration <= MAX_TIMER_DURATION {
                duration
            } else {
                MAX_TIMER_DURATION
            },
            elapsed: 0,
            finished: false,
            mode,
        }
    }

    /// A fresh timer of the given duration in microseconds. A duration
    /// above the longest one counts as the longest.
    #[verifier::when_used_as_spec(spec_from_micros)]
    pub fn from_micros(duration: u64, mode: TimerMode) -> (timer: Timer)
        ensures
            timer == Self::spec_from_micros(duration, mode),
            timer.wf(),
    {
        let d: u64 = if duration <= MAX_TIMER_DURATION {
            duration
        } else {
            MAX_TIMER_DURATION
        };
        Timer { duration: d, elapsed: 0, finished: false, mode }
    }

    /// The timer after `dt` more microseconds.
    pub open spec fn spec_tick(self, dt: u32) -> Timer {
        let total = self.elapsed + dt;
        match self.mode {
            TimerMode::Once => {
                if self.finished {
                    self
                } else if total >= self.duration {
                    Timer { elapsed: self.duration, finished: true, ..self }
                } else {
                    Timer { elapsed: total as u64, finished: false, ..self }
                }
            },
            TimerMode::Repeating => {
                if total >= self.duration {
                    Timer {
                        elapsed: if self.duration == 0 {
                            0
                        } else {
                            (total % self.duration as int) as u64
                        },
                        finished: true,
                        ..self
                    }
                } else {
                    Timer { elapsed: total as u64, finished: false, ..self }
                }
            },
        }
    }

    /// Moves the timer forward by `dt` microseconds.
    pub fn tick(&mut self, dt: u32)
        requires
            old(self).wf(),
        ensures
            *final(self) == old(self).spec_tick(dt),
            final(self).wf(),
    {
        let total: u64 = self.elapsed + dt as u64;
        match self.mode {
            TimerMode::Once => {
                if !self.finished {
                    if total >= self.duration {
                        self.elapsed = self.duration;
                        self.finished = true;
                    } else {
                        self.elapsed = total;
                    }
                }
            },
            TimerMode::Repeating => {
                if total >= self.duration {
                    self.elapsed = if self.duration == 0 {
                        0
                    } else {
                        total % self.duration
                    };
                    self.finished = true;
                } else {
                    self.elapsed = total;
                    self.finished = false;
                }
            },
        }
    }

    /// Whether the timer is well formed.
    pub fn is_valid(&self) -> (ok: bool)
        ensures
            ok == self.wf(),
    {
        self.duration <= MAX_TIMER_DURATION && self.elapsed <= self.duration
    }

    /// Whether the timer starts over when it has run out.
    pub fn is_repeating(&self) -> (repeating: bool)
        ensures
            repeating == (self.mode == TimerMode::Repeating),
    {
        match self.mode {
            TimerMode::Repeating => true,
            TimerMode::Once => false,
        }
    }

    /// Whether the timer ran out.
    pub open spec fn spec_finished(&self) -> bool {
        self.finished
    }

    /// Whether the timer ran out in its last tick or, for a timer that
    /// runs once, in any tick before.
    #[verifier::when_used_as_spec(spec_finished)]
    pub fn finished(&self) -> (b: bool)
        ensures
            b == self.finished,
    {
        self.finished
    }

    /// Time that is still to pass before the timer runs out.
    pub open spec fn remaining(&self) -> int {
        self.duration - self.elapsed
    }
}

/// A timer that runs once and has not finished runs out exactly in the tick
/// that covers the time that remained.
pub proof fn lemma_once_finishes_when_due(timer: Timer, dt: u32)
    requires
        timer.wf(),
        timer.mode == TimerMode::Once,
        !timer.finished,
    ensures
        timer.spec_tick(dt).finished <==> dt >= timer.remaining(),
        !timer.spec_tick(dt).finished ==> timer.spec_tick(dt).remaining() == timer.remaining()
            - dt,
{
}

/// A finished timer that runs once stays as it is, whatever time passes.
pub proof fn lemma_once_stays_finished(timer: Timer, dt: u32)
    requires
        timer.mode == TimerMode::Once,
        timer.finished,
    ensures
        timer.spec_tick(dt) == timer,
{
}

} // verus!
