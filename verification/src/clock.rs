//! Pacing of the emulation engine and of presentation against a nanosecond clock.
//!
//! Every instant is a count of nanoseconds on one monotonic clock that the host reads.
//! The emulation deadline advances by the emulated time of the cycles that a burst
//! executed; the presentation deadline advances by a fixed interval from the moment a
//! redraw is requested. Neither clock ever waits.

use vstd::prelude::*;

verus! {

/// Master cycles that one invocation of the engine executes.
pub const MASTER_CYCLES_PER_TICK: u16 = 2;

/// Nanoseconds between two redraw requests.
pub const TIME_PER_GPU_FRAME: u64 = 8_333_000;

/// Nanoseconds that the step deadline may fall behind the clock before it is reset.
pub const TIME_UNTIL_TIMER_RESET: u64 = 500_000_000;

/// An instant or a cycle count left the range of a `u64`.
#[derive(Clone, Copy, Debug, PartialEq, Eq, Structural)]
pub struct TimeOverflow;

/// The frame rate family of a console or of a cartridge.
#[derive(Clone, Copy, Debug, PartialEq, Eq, Structural)]
pub enum FrameRate {
    Any,
    Ntsc,
    Pal,
}

/// Whether a session runs as PAL: a preference of `Any` defers to the cartridge, and
/// a cartridge that names no region runs as NTSC.
pub open spec fn spec_is_pal(preference: FrameRate, cartridge: FrameRate) -> bool {
    match preference {
        FrameRate::Any => cartridge == FrameRate::Pal,
        FrameRate::Pal => true,
        FrameRate::Ntsc => false,
    }
}

pub fn is_pal(preference: FrameRate, cartridge: FrameRate) -> (pal: bool)
    ensures
        pal == spec_is_pal(preference, cartridge),
{
    match preference {
        FrameRate::Any => match cartridge {
            FrameRate::Pal => true,
            _ => false,
        },
        FrameRate::Pal => true,
        FrameRate::Ntsc => false,
    }
}

/// Emulated nanoseconds of `cycles` master cycles at `rate_nanos` nanoseconds every
/// `rate_cycles` cycles, rounded down.
pub open spec fn spec_elapsed(rate_nanos: nat, rate_cycles: nat, cycles: nat) -> nat {
    (rate_nanos * cycles) / rate_cycles
}

/// The step deadline after a burst that emulated `elapsed` nanoseconds and began at
/// `now`: the old deadline advanced by `elapsed`, or `now` where that still lies more
/// than the reset threshold in the past.
pub open spec fn spec_deadline_after_burst(deadline: nat, now: nat, elapsed: nat) -> nat {
    if now > deadline + elapsed + TIME_UNTIL_TIMER_RESET {
        now
    } else {
        deadline + elapsed
    }
}

/// A fixed ratio of master cycles to time: `cycles` cycles take `nanos` nanoseconds.
#[derive(Clone, Copy, Debug, PartialEq, Eq)]
pub struct CycleRate {
    nanos: u64,
    cycles: u64,
}

impl CycleRate {
    #[verifier::type_invariant]
    spec fn positive(self) -> bool {
        self.cycles > 0
    }

    pub closed spec fn spec_nanos(self) -> nat {
        self.nanos as nat
    }

    pub closed spec fn spec_cycles(self) -> nat {
        self.cycles as nat
    }

    /// `None` exactly where `cycles` is zero.
    pub fn new(nanos: u64, cycles: u64) -> (rate: Option<CycleRate>)
        ensures
            cycles == 0 <==> rate is None,
            rate matches Some(r) ==> r.spec_nanos() == nanos && r.spec_cycles() == cycles,
    {
        if cycles == 0 {
            None
        } else {
            Some(CycleRate { nanos, cycles })
        }
    }

    /// The console's master clock: 189 cycles every 8800 nanoseconds.
    pub fn master_clock() -> (rate: CycleRate)
        ensures
            rate.spec_nanos() == 8800,
            rate.spec_cycles() == 189,
    {
        CycleRate { nanos: 8800, cycles: 189 }
    }

    pub open spec fn spec_elapsed_emulated_time(self, total_cycles: nat) -> nat {
        spec_elapsed(self.spec_nanos(), self.spec_cycles(), total_cycles)
    }

    /// The emulated time of `total_cycles` cycles in nanoseconds.
    pub fn elapsed_emulated_time(&self, total_cycles: u64) -> (nanos: u128)
        ensures
            nanos == self.spec_elapsed_emulated_time(total_cycles as nat),
    {
        proof {
            use_type_invariant(self);
            assert(self.nanos * total_cycles <= 0xffff_ffff_ffff_ffff * 0xffff_ffff_ffff_ffff)
                by (nonlinear_arith)
                requires
                    self.nanos <= 0xffff_ffff_ffff_ffff,
                    total_cycles <= 0xffff_ffff_ffff_ffff,
            ;
        }
        let product: u128 = (self.nanos as u128) * (total_cycles as u128);
        product / (self.cycles as u128)
    }
}

/// The cycles that the steps of one burst have executed so far.
#[derive(Clone, Copy, Debug, PartialEq, Eq, Structural)]
pub struct Burst {
    cycles: u64,
}

impl Burst {
    pub closed spec fn spec_total_cycles(self) -> nat {
        self.cycles as nat
    }

    /// A burst in which no step has run yet.
    pub fn new() -> (burst: Burst)
        ensures
            burst.spec_total_cycles() == 0,
    {
        Burst { cycles: 0 }
    }

    pub fn total_cycles(&self) -> (cycles: u64)
        ensures
            cycles == self.spec_total_cycles(),
    {
        self.cycles
    }

    /// Counts one step of `cycles_per_step` cycles and says whether the burst goes on:
    /// it does until the engine reports a complete frame. Where the count would leave
    /// the range of a `u64` nothing is counted.
    pub fn record_step(&mut self, cycles_per_step: u16, frame_complete: bool) -> (more: Result<
        bool,
        TimeOverflow,
    >)
        ensures
            old(self).spec_total_cycles() + cycles_per_step > u64::MAX ==> more is Err
                && *final(self) == *old(self),
            old(self).spec_total_cycles() + cycles_per_step <= u64::MAX ==> (more matches Ok(goes_on)
                && goes_on == !frame_complete
                && final(self).spec_total_cycles() == old(self).spec_total_cycles() + cycles_per_step),
    {
        if self.cycles > u64::MAX - (cycles_per_step as u64) {
            Err(TimeOverflow)
        } else {
            self.cycles = self.cycles + (cycles_per_step as u64);
            Ok(!frame_complete)
        }
    }
}

/// When the engine is next due to run, and how its cycles turn into time.
#[derive(Clone, Copy, Debug, PartialEq, Eq)]
pub struct EmulationClock {
    next_step_deadline: u64,
    cycles_per_step: u16,
    rate: CycleRate,
}

impl EmulationClock {
    pub closed spec fn spec_next_step_deadline(self) -> nat {
        self.next_step_deadline as nat
    }

    pub closed spec fn spec_cycles_per_step(self) -> nat {
        self.cycles_per_step as nat
    }

    pub closed spec fn spec_rate(self) -> CycleRate {
        self.rate
    }

    /// A clock whose first step is due at `start`.
    pub fn new(start: u64, cycles_per_step: u16, rate: CycleRate) -> (clock: EmulationClock)
        ensures
            clock.spec_next_step_deadline() == start,
            clock.spec_cycles_per_step() == cycles_per_step,
            clock.spec_rate() == rate,
    {
        EmulationClock { next_step_deadline: start, cycles_per_step, rate }
    }

    pub fn next_step_deadline(&self) -> (deadline: u64)
        ensures
            deadline == self.spec_next_step_deadline(),
    {
        self.next_step_deadline
    }

    pub fn cycles_per_step(&self) -> (cycles: u16)
        ensures
            cycles == self.spec_cycles_per_step(),
    {
        self.cycles_per_step
    }

    /// Whether a burst is due at `now`.
    pub fn step_due(&self, now: u64) -> (due: bool)
        ensures
            due == (now >= self.spec_next_step_deadline()),
    {
        now >= self.next_step_deadline
    }

    /// Accounts for a burst of `total_cycles` cycles that began at `now`. The deadline
    /// advances by the emulated time of those cycles; where `now` then lies more than
    /// `TIME_UNTIL_TIMER_RESET` past it, the deadline becomes `now` and the result is
    /// `Ok(true)`. Where the advanced deadline leaves the range of a `u64` the clock is
    /// left as it was.
    pub fn complete_burst(&mut self, now: u64, total_cycles: u64) -> (reset: Result<bool, TimeOverflow>)
        ensures
            final(self).spec_cycles_per_step() == old(self).spec_cycles_per_step(),
            final(self).spec_rate() == old(self).spec_rate(),
            ({
                let deadline = old(self).spec_next_step_deadline();
                let elapsed = old(self).spec_rate().spec_elapsed_emulated_time(total_cycles as nat);
                if deadline + elapsed > u64::MAX {
                    reset is Err && final(self).spec_next_step_deadline() == deadline
                } else {
                    reset matches Ok(fired) && fired == (now > deadline + elapsed + TIME_UNTIL_TIMER_RESET)
                        && final(self).spec_next_step_deadline()
                            == spec_deadline_after_burst(deadline, now as nat, elapsed)
                }
            }),
    {
        let elapsed: u128 = self.rate.elapsed_emulated_time(total_cycles);
        if elapsed > (u64::MAX - self.next_step_deadline) as u128 {
            return Err(TimeOverflow);
        }
        let advanced: u64 = self.next_step_deadline + (elapsed as u64);
        let reset: bool = now > advanced && now - advanced > TIME_UNTIL_TIMER_RESET;
        if reset {
            self.next_step_deadline = now;
        } else {
            self.next_step_deadline = advanced;
        }
        Ok(reset)
    }
}

/// When a redraw may next be requested.
#[derive(Clone, Copy, Debug, PartialEq, Eq, Structural)]
pub struct PresentationClock {
    next_present_deadline: u64,
    present_interval: u64,
}

impl PresentationClock {
    pub closed spec fn spec_next_present_deadline(self) -> nat {
        self.next_present_deadline as nat
    }

    pub closed spec fn spec_present_interval(self) -> nat {
        self.present_interval as nat
    }

    /// A clock whose first redraw is due at `start`.
    pub fn new(start: u64, present_interval: u64) -> (clock: PresentationClock)
        ensures
            clock.spec_next_present_deadline() == start,
            clock.spec_present_interval() == present_interval,
    {
        PresentationClock { next_present_deadline: start, present_interval }
    }

    pub fn next_present_deadline(&self) -> (deadline: u64)
        ensures
            deadline == self.spec_next_present_deadline(),
    {
        self.next_present_deadline
    }

    /// Whether a redraw is to be requested at `now`. Where it is, the next one is due
    /// one interval after `now`, however many frames the engine has completed. Where
    /// that instant leaves the range of a `u64` the clock is left as it was.
    pub fn present_due(&mut self, now: u64) -> (redraw: Result<bool, TimeOverflow>)
        ensures
            final(self).spec_present_interval() == old(self).spec_present_interval(),
            now < old(self).spec_next_present_deadline() ==> (redraw matches Ok(due) && !due
                && *final(self) == *old(self)),
            now >= old(self).spec_next_present_deadline()
                && now + old(self).spec_present_interval() <= u64::MAX ==> (redraw matches Ok(due) && due
                && final(self).spec_next_present_deadline() == now + old(self).spec_present_interval()),
            now >= old(self).spec_next_present_deadline()
                && now + old(self).spec_present_interval() > u64::MAX ==> redraw is Err
                && *final(self) == *old(self),
    {
        if now < self.next_present_deadline {
            Ok(false)
        } else if self.present_interval > u64::MAX - now {
            Err(TimeOverflow)
        } else {
            self.next_present_deadline = now + self.present_interval;
            Ok(true)
        }
    }
}

/// The two clocks of a session.
#[derive(Clone, Copy, Debug, PartialEq, Eq)]
pub struct Pacer {
    pub emulation: EmulationClock,
    pub presentation: PresentationClock,
}

impl Pacer {
    /// A pacer for a session that starts at `now`: a step and a redraw are both due
    /// at once, the engine steps by `MASTER_CYCLES_PER_TICK` cycles, and redraws are
    /// `TIME_PER_GPU_FRAME` apart.
    pub fn new(now: u64, rate: CycleRate) -> (pacer: Pacer)
        ensures
            pacer.emulation.spec_next_step_deadline() == now,
            pacer.emulation.spec_cycles_per_step() == MASTER_CYCLES_PER_TICK,
            pacer.emulation.spec_rate() == rate,
            pacer.presentation.spec_next_present_deadline() == now,
            pacer.presentation.spec_present_interval() == TIME_PER_GPU_FRAME,
    {
        Pacer {
            emulation: EmulationClock::new(now, MASTER_CYCLES_PER_TICK, rate),
            presentation: PresentationClock::new(now, TIME_PER_GPU_FRAME),
        }
    }
}

/// After a burst the step deadline is never more than the reset threshold behind the
/// instant at which the burst began, whatever the backlog was before; and where the
/// advanced deadline lies further back than that, the deadline is that instant itself.
pub proof fn lemma_drift_reset_bounds_backlog(deadline: nat, now: nat, elapsed: nat)
    ensures
        now <= spec_deadline_after_burst(deadline, now, elapsed) + TIME_UNTIL_TIMER_RESET,
        now > deadline + elapsed + TIME_UNTIL_TIMER_RESET ==> spec_deadline_after_burst(
            deadline,
            now,
            elapsed,
        ) == now,
        now <= deadline + elapsed + TIME_UNTIL_TIMER_RESET ==> spec_deadline_after_burst(
            deadline,
            now,
            elapsed,
        ) == deadline + elapsed,
{
}

/// The step deadline only moves forward: a burst never sets it before its old value.
pub proof fn lemma_deadline_moves_forward(deadline: nat, now: nat, elapsed: nat)
    ensures
        spec_deadline_after_burst(deadline, now, elapsed) >= deadline,
{
}

} // verus!
