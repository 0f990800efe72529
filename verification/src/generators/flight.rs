//! Mission progress and the five flight phases.
//!
//! Progress through a run is the ratio `tick / total`. It is kept as that
//! ratio and compared exactly, so a tick that falls on a boundary belongs to
//! the later interval whatever the sample rate.

use vstd::prelude::*;

verus! {

/// The mission phases, in the order in which a flight passes through them.
#[derive(Debug, Clone, Copy, PartialEq, Eq, Hash, Structural)]
pub enum Phase {
    /// Engine start and liftoff: progress in `[0, 0.05)`.
    IgnitionLiftoff,
    /// Throttled flight through maximum dynamic pressure: `[0.05, 0.15)`.
    MaxQ,
    /// Full-thrust ascent: `[0.15, 0.40)`.
    MainAscent,
    /// First-stage shutdown, separation and coast: `[0.40, 0.55)`.
    StageSeparation,
    /// Second-stage burn to orbit: `[0.55, 1.0]`.
    OrbitalInsertion,
}

impl Phase {
    /// Position of the phase in flight order, from 0.
    pub open spec fn rank(self) -> int {
        match self {
            Phase::IgnitionLiftoff => 0,
            Phase::MaxQ => 1,
            Phase::MainAscent => 2,
            Phase::StageSeparation => 3,
            Phase::OrbitalInsertion => 4,
        }
    }

    /// Position of the phase in flight order, from 0.
    pub fn index(self) -> (i: u8)
        ensures
            i == self.rank(),
    {
        match self {
            Phase::IgnitionLiftoff => 0,
            Phase::MaxQ => 1,
            Phase::MainAscent => 2,
            Phase::StageSeparation => 3,
            Phase::OrbitalInsertion => 4,
        }
    }
}

/// `tick / total < num / den`, for positive `den` and non-negative `total`.
pub open spec fn ratio_below(tick: int, total: int, num: int, den: int) -> bool {
    tick * den < num * total
}

/// `tick / total > num / den`, for positive `den` and non-negative `total`.
pub open spec fn ratio_above(tick: int, total: int, num: int, den: int) -> bool {
    tick * den > num * total
}

/// The phase that tick `tick` of a run of `total` ticks belongs to.
pub open spec fn phase_of(tick: int, total: int) -> Phase {
    if ratio_below(tick, total, 1, 20) {
        Phase::IgnitionLiftoff
    } else if ratio_below(tick, total, 3, 20) {
        Phase::MaxQ
    } else if ratio_below(tick, total, 2, 5) {
        Phase::MainAscent
    } else if ratio_below(tick, total, 11, 20) {
        Phase::StageSeparation
    } else {
        Phase::OrbitalInsertion
    }
}

/// A tick index scaled by a 32-bit factor fits in 128 bits with room to spare.
proof fn lemma_scaled_index_fits(index: int, factor: int)
    requires
        0 <= index <= usize::MAX,
        0 <= factor <= u32::MAX,
    ensures
        0 <= index * factor <= u128::MAX,
        factor * index == index * factor,
{
    assert(0 <= index * factor <= 0xffff_ffff_ffff_ffff * 0xffff_ffff) by (nonlinear_arith)
        requires
            0 <= index <= 0xffff_ffff_ffff_ffff,
            0 <= factor <= 0xffff_ffff,
    ;
    assert(factor * index == index * factor) by (nonlinear_arith);
}

/// Normalized mission progress of one tick: the exact ratio `tick / total`.
#[derive(Debug, Clone, Copy)]
pub struct Progress {
    /// Index of the tick, from 0.
    pub tick: usize,
    /// Number of ticks in the whole run.
    pub total: usize,
}

impl Progress {
    /// The tick lies inside the run, so progress is in `[0, 1)`.
    pub open spec fn in_run(self) -> bool {
        self.tick < self.total
    }

    /// Progress is strictly below `num / den`.
    pub open spec fn below(self, num: int, den: int) -> bool {
        ratio_below(self.tick as int, self.total as int, num, den)
    }

    /// Progress is strictly above `num / den`.
    pub open spec fn above(self, num: int, den: int) -> bool {
        ratio_above(self.tick as int, self.total as int, num, den)
    }

    /// The phase this tick belongs to.
    pub open spec fn spec_phase(self) -> Phase {
        phase_of(self.tick as int, self.total as int)
    }

    /// Progress of tick `tick` in a run of `total` ticks; `None` when the tick
    /// lies outside the run.
    pub fn new(tick: usize, total: usize) -> (p: Option<Progress>)
        ensures
            p is Some <==> tick < total,
            p is Some ==> p->0.tick == tick && p->0.total == total,
    {
        if tick < total {
            Some(Progress { tick, total })
        } else {
            None
        }
    }

    /// Whether progress is strictly below `num / den`.
    pub fn is_below(&self, num: u32, den: u32) -> (b: bool)
        ensures
            b == self.below(num as int, den as int),
    {
        proof {
            lemma_scaled_index_fits(self.tick as int, den as int);
            lemma_scaled_index_fits(self.total as int, num as int);
        }
        let left: u128 = (self.tick as u128) * (den as u128);
        let right: u128 = (num as u128) * (self.total as u128);
        left < right
    }

    /// Whether progress is strictly above `num / den`.
    pub fn is_above(&self, num: u32, den: u32) -> (b: bool)
        ensures
            b == self.above(num as int, den as int),
    {
        proof {
            lemma_scaled_index_fits(self.tick as int, den as int);
            lemma_scaled_index_fits(self.total as int, num as int);
        }
        let left: u128 = (self.tick as u128) * (den as u128);
        let right: u128 = (num as u128) * (self.total as u128);
        left > right
    }

    /// The phase this tick belongs to. Lower bounds are closed: a tick exactly
    /// on a boundary is in the later phase.
    pub fn phase(&self) -> (p: Phase)
        ensures
            p == self.spec_phase(),
    {
        if self.is_below(1, 20) {
            Phase::IgnitionLiftoff
        } else if self.is_below(3, 20) {
            Phase::MaxQ
        } else if self.is_below(2, 5) {
            Phase::MainAscent
        } else if self.is_below(11, 20) {
            Phase::StageSeparation
        } else {
            Phase::OrbitalInsertion
        }
    }

    /// Hold-down at the start of ignition, before the vehicle accelerates:
    /// progress below `0.01`.
    pub open spec fn spec_in_hold_down(self) -> bool {
        self.below(1, 100)
    }

    /// The transient window after first-stage shutdown in which thrust,
    /// pressures, flows and pump speed are zero: progress in `(0.50, 0.52)`.
    pub open spec fn spec_in_engine_cutoff(self) -> bool {
        self.above(1, 2) && self.below(13, 25)
    }

    /// The separation shock at the start of the cutoff window: progress in
    /// `(0.50, 0.51)`.
    pub open spec fn spec_in_separation_shock(self) -> bool {
        self.above(1, 2) && self.below(51, 100)
    }

    /// The first stage still burns: progress below `0.50`.
    pub open spec fn spec_before_separation(self) -> bool {
        self.below(1, 2)
    }

    /// The second stage has not lit yet: progress below `0.52`.
    pub open spec fn spec_before_relight(self) -> bool {
        self.below(13, 25)
    }

    /// The last tenth of orbital insertion, in which the engine shuts down:
    /// progress above `0.955`.
    pub open spec fn spec_in_final_shutdown(self) -> bool {
        self.above(191, 200)
    }

    /// Whether the tick is in the hold-down at the start of ignition.
    pub fn in_hold_down(&self) -> (b: bool)
        ensures
            b == self.spec_in_hold_down(),
    {
        self.is_below(1, 100)
    }

    /// Whether the tick is in the transient engine-cutoff window.
    pub fn in_engine_cutoff(&self) -> (b: bool)
        ensures
            b == self.spec_in_engine_cutoff(),
    {
        self.is_above(1, 2) && self.is_below(13, 25)
    }

    /// Whether the tick is in the separation shock.
    pub fn in_separation_shock(&self) -> (b: bool)
        ensures
            b == self.spec_in_separation_shock(),
    {
        self.is_above(1, 2) && self.is_below(51, 100)
    }

    /// Whether the first stage still burns.
    pub fn before_separation(&self) -> (b: bool)
        ensures
            b == self.spec_before_separation(),
    {
        self.is_below(1, 2)
    }

    /// Whether the second stage has not lit yet.
    pub fn before_relight(&self) -> (b: bool)
        ensures
            b == self.spec_before_relight(),
    {
        self.is_below(13, 25)
    }

    /// Whether the tick is in the final shutdown of orbital insertion.
    pub fn in_final_shutdown(&self) -> (b: bool)
        ensures
            b == self.spec_in_final_shutdown(),
    {
        self.is_above(191, 200)
    }
}

/// Phases never go backwards: a later tick of the same run is in the same or
/// a later phase.
pub proof fn lemma_phase_is_monotonic(earlier: int, later: int, total: int)
    requires
        0 <= earlier <= later,
        0 <= total,
    ensures
        phase_of(earlier, total).rank() <= phase_of(later, total).rank(),
{
}

/// Every phase interval is closed below and open above: a tick exactly on a
/// boundary belongs to the phase that starts there.
pub proof fn lemma_phase_boundaries(tick: int, total: int)
    requires
        0 <= tick < total,
    ensures
        phase_of(0, total) == Phase::IgnitionLiftoff,
        20 * tick == total ==> phase_of(tick, total) == Phase::MaxQ,
        20 * tick == 3 * total ==> phase_of(tick, total) == Phase::MainAscent,
        5 * tick == 2 * total ==> phase_of(tick, total) == Phase::StageSeparation,
        20 * tick == 11 * total ==> phase_of(tick, total) == Phase::OrbitalInsertion,
        phase_of(tick, total) == Phase::IgnitionLiftoff <==> 20 * tick < total,
        phase_of(tick, total) == Phase::MaxQ <==> total <= 20 * tick < 3 * total,
        phase_of(tick, total) == Phase::MainAscent <==> 3 * total <= 20 * tick < 8 * total,
        phase_of(tick, total) == Phase::StageSeparation <==> 8 * total <= 20 * tick < 11
            * total,
        phase_of(tick, total) == Phase::OrbitalInsertion <==> 11 * total <= 20 * tick,
{
}

/// Each transient window lies inside the phase whose curves it interrupts, and
/// the windows nest as the flight plan says: the separation shock inside the
/// engine cutoff, the cutoff inside stage separation and before relight.
pub proof fn lemma_windows_lie_in_their_phase(p: Progress)
    requires
        p.in_run(),
    ensures
        p.spec_in_hold_down() ==> p.spec_phase() == Phase::IgnitionLiftoff,
        p.spec_in_separation_shock() ==> p.spec_in_engine_cutoff(),
        p.spec_in_engine_cutoff() ==> p.spec_phase() == Phase::StageSeparation,
        p.spec_in_engine_cutoff() ==> p.spec_before_relight() && !p.spec_before_separation(),
        p.spec_before_separation() ==> p.spec_before_relight(),
        p.spec_in_final_shutdown() ==> p.spec_phase() == Phase::OrbitalInsertion,
{
}

} // verus!
