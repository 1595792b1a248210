//! The virtual clock: game time that can be frozen independently of the
//! wall clock.

use vstd::prelude::*;

verus! {

/// Mathematical state of a [`VirtualClock`].
pub struct ClockView {
    /// Virtual time that has run so far, in nanoseconds.
    pub elapsed: nat,
    /// Virtual time that ran during the last tick, in nanoseconds.
    pub delta: nat,
    /// Whether virtual time is frozen.
    pub paused: bool,
}

impl ClockView {
    /// The clock after a request to pause. The delta reported while paused is zero.
    pub open spec fn pause(self) -> ClockView {
        ClockView { elapsed: self.elapsed, delta: 0, paused: true }
    }

    /// The clock after a request to resume.
    pub open spec fn unpause(self) -> ClockView {
        ClockView { elapsed: self.elapsed, delta: self.delta, paused: false }
    }

    /// The clock after `real_delta` nanoseconds of wall-clock time.
    pub open spec fn tick(self, real_delta: nat) -> ClockView {
        if self.paused {
            ClockView { elapsed: self.elapsed, delta: 0, paused: true }
        } else {
            ClockView { elapsed: self.elapsed + real_delta, delta: real_delta, paused: false }
        }
    }

    /// The clock after a run of ticks, oldest first.
    pub open spec fn tick_all(self, real_deltas: Seq<nat>) -> ClockView
        decreases real_deltas.len(),
    {
        if real_deltas.len() == 0 {
            self
        } else {
            self.tick_all(real_deltas.drop_last()).tick(real_deltas.last())
        }
    }
}

/// A clock derived from real time that can be paused and resumed.
pub struct VirtualClock {
    elapsed_ns: u64,
    delta_ns: u64,
    paused: bool,
}

impl View for VirtualClock {
    type V = ClockView;

    closed spec fn view(&self) -> ClockView {
        ClockView {
            elapsed: self.elapsed_ns as nat,
            delta: if self.paused { 0 } else { self.delta_ns as nat },
            paused: self.paused,
        }
    }
}

impl VirtualClock {
    /// A running clock at time zero.
    pub fn new() -> (clock: VirtualClock)
        ensures
            clock@ == (ClockView { elapsed: 0, delta: 0, paused: false }),
    {
        VirtualClock { elapsed_ns: 0, delta_ns: 0, paused: false }
    }

    /// The counters of a clock fit 64 bits.
    pub proof fn lemma_view_fits(&self)
        ensures
            self@.elapsed <= u64::MAX,
            self@.delta <= u64::MAX,
    {
    }

    /// Whether `real_delta` more nanoseconds still fit the clock's counter.
    pub open spec fn can_tick(&self, real_delta: u64) -> bool {
        self@.paused || self@.elapsed + real_delta <= u64::MAX
    }

    /// Freezes virtual time. Pausing a paused clock changes nothing.
    pub fn pause(&mut self)
        ensures
            final(self)@ == old(self)@.pause(),
    {
        self.paused = true;
        self.delta_ns = 0;
    }

    /// Lets virtual time run again. Resuming a running clock changes nothing.
    pub fn unpause(&mut self)
        ensures
            final(self)@ == old(self)@.unpause(),
    {
        if self.paused {
            self.delta_ns = 0;
            self.paused = false;
        }
    }

    /// Whether virtual time is frozen.
    pub fn is_paused(&self) -> (paused: bool)
        ensures
            paused == self@.paused,
    {
        self.paused
    }

    /// Virtual nanoseconds that have run since the clock was made.
    pub fn elapsed(&self) -> (ns: u64)
        ensures
            ns == self@.elapsed,
    {
        self.elapsed_ns
    }

    /// Virtual nanoseconds that ran during the last tick; zero while paused.
    pub fn delta(&self) -> (ns: u64)
        ensures
            ns == self@.delta,
            self@.paused ==> ns == 0,
    {
        if self.paused {
            0
        } else {
            self.delta_ns
        }
    }

    /// Reports whether `real_delta` more nanoseconds fit the counter.
    pub fn fits(&self, real_delta: u64) -> (ok: bool)
        ensures
            ok == self.can_tick(real_delta),
    {
        self.paused || real_delta <= u64::MAX - self.elapsed_ns
    }

    /// Advances the clock by one frame of `real_delta` wall-clock nanoseconds.
    /// A paused clock stays where it is and reports a delta of zero.
    pub fn tick(&mut self, real_delta: u64)
        requires
            old(self).can_tick(real_delta),
        ensures
            final(self)@ == old(self)@.tick(real_delta as nat),
    {
        if self.paused {
            self.delta_ns = 0;
        } else {
            self.elapsed_ns = self.elapsed_ns + real_delta;
            self.delta_ns = real_delta;
        }
    }
}

/// Pausing twice is the same as pausing once.
pub proof fn lemma_pause_idempotent(clock: ClockView)
    ensures
        clock.pause().pause() == clock.pause(),
{
}

/// Resuming twice is the same as resuming once.
pub proof fn lemma_unpause_idempotent(clock: ClockView)
    ensures
        clock.unpause().unpause() == clock.unpause(),
{
}

/// While the clock is paused no run of ticks moves virtual time, and every
/// tick reports a delta of zero.
pub proof fn lemma_paused_ticks_freeze_time(clock: ClockView, real_deltas: Seq<nat>)
    requires
        clock.paused,
    ensures
        clock.tick_all(real_deltas).paused,
        clock.tick_all(real_deltas).elapsed == clock.elapsed,
        real_deltas.len() > 0 ==> clock.tick_all(real_deltas).delta == 0,
    decreases real_deltas.len(),
{
    if real_deltas.len() > 0 {
        lemma_paused_ticks_freeze_time(clock, real_deltas.drop_last());
    }
}

/// Virtual time never runs backwards.
pub proof fn lemma_time_is_monotone(clock: ClockView, real_deltas: Seq<nat>)
    ensures
        clock.tick_all(real_deltas).elapsed >= clock.elapsed,
        clock.tick_all(real_deltas).paused == clock.paused,
    decreases real_deltas.len(),
{
    if real_deltas.len() > 0 {
        lemma_time_is_monotone(clock, real_deltas.drop_last());
    }
}

} // verus!
