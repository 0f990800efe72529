//! The flight plan: what every channel is set to at every tick.
//!
//! Each phase fixes its quantities by straight lines over progress, or holds
//! them. The plan is exact: a line is kept as a fraction and never rounded.
//! Quantities that accumulate (velocity, altitude, position) and the scaling
//! of liftoff buffeting by a random draw are named here and carried out by the
//! caller, who owns the running state and the random stream.

use super::flight::{Phase, Progress};
use crate::models::ratio::{Fraction, Ratio};
use crate::models::sensor::SensorEnum;
use vstd::prelude::*;

verus! {

/// Largest magnitude, in millionths, of a value that a line runs through.
pub const PLAN_LIMIT: i64 = 10_000_000_000_000;

/// The straight line over progress that is `at_from` at progress `from` and
/// `at_to` at progress `to`, taken at `tick / total`. Progress is given in
/// thousandths, values in millionths.
pub open spec fn line(tick: int, total: int, from: int, at_from: int, to: int, at_to: int) -> Fraction {
    Fraction {
        num: at_from * ((to - from) * total) + (at_to - at_from) * (1000 * tick - from * total),
        den: 1_000_000 * ((to - from) * total),
    }
}

/// What the flight plan does with one quantity at one tick.
#[derive(Debug, Clone, Copy, PartialEq, Eq, Structural)]
pub enum Target {
    /// The quantity keeps the value it has.
    Hold,
    /// The quantity takes this value.
    Value(Ratio),
    /// The quantity takes the product of the two values: its curve, and the
    /// fraction of it that the final shutdown leaves.
    Scaled(Ratio, Ratio),
    /// Liftoff buffeting: the quantity takes `base + span * u`, with `u` a
    /// fresh uniform draw from `[0, 1)`.
    Buffet { base: Ratio, span: Ratio },
    /// The quantity grows by `rate * dt`, where `rate` is the value that the
    /// named quantity has once this tick's targets are applied.
    Integrate(SensorEnum),
    /// Ground position: moved along the track by the distance flown in this
    /// tick, once the vehicle has cleared the pad and pitched over.
    Track,
}

/// What a `Target` stands for in contracts.
pub enum TargetView {
    Hold,
    Value(Fraction),
    Scaled(Fraction, Fraction),
    Buffet { base: Fraction, span: Fraction },
    Integrate(SensorEnum),
    Track,
}

impl View for Target {
    type V = TargetView;

    open spec fn view(&self) -> TargetView {
        match self {
            Target::Hold => TargetView::Hold,
            Target::Value(value) => TargetView::Value(value@),
            Target::Scaled(value, factor) => TargetView::Scaled(value@, factor@),
            Target::Buffet { base, span } => TargetView::Buffet { base: base@, span: span@ },
            Target::Integrate(rate) => TargetView::Integrate(*rate),
            Target::Track => TargetView::Track,
        }
    }
}

/// A constant value, in millionths.
pub open spec fn fixed(millionths: int) -> TargetView {
    TargetView::Value(Fraction::micro(millionths))
}

impl Progress {
    /// The line through `(from, at_from)` and `(to, at_to)`, taken at this
    /// tick.
    pub open spec fn on_line(self, from: int, at_from: int, to: int, at_to: int) -> Fraction {
        line(self.tick as int, self.total as int, from, at_from, to, at_to)
    }

    /// A quantity that follows the line through `(from, at_from)` and
    /// `(to, at_to)`.
    pub open spec fn along(self, from: int, at_from: int, to: int, at_to: int) -> TargetView {
        TargetView::Value(self.on_line(from, at_from, to, at_to))
    }

    /// What the final shutdown leaves of a quantity: all of it at progress
    /// `0.955`, nothing at the end of the run.
    pub open spec fn shutdown_factor(self) -> Fraction {
        self.on_line(955, 1_000_000, 1000, 0)
    }

    /// A quantity that follows the engine's throttle: up to `nominal` during
    /// ignition, down to `throttled` through Max-Q, at `nominal` in the main
    /// ascent, down to nothing between progress `0.45` and `0.50` and nothing
    /// until the second stage lights, then up towards `relit`, and in the final
    /// shutdown what the shutdown factor leaves of that.
    pub open spec fn engine_output(self, nominal: int, throttled: int, relit: int) -> TargetView {
        match self.spec_phase() {
            Phase::IgnitionLiftoff => self.along(0, 0, 50, nominal),
            Phase::MaxQ => self.along(50, nominal, 150, throttled),
            Phase::MainAscent => fixed(nominal),
            Phase::StageSeparation => if self.spec_before_separation() {
                self.along(450, nominal, 500, 0)
            } else {
                fixed(0)
            },
            Phase::OrbitalInsertion => if self.spec_in_final_shutdown() {
                TargetView::Scaled(self.on_line(550, 0, 1000, relit), self.shutdown_factor())
            } else {
                self.along(550, 0, 1000, relit)
            },
        }
    }

    /// Vibration along one axis: buffeting of up to `liftoff` at liftoff, from
    /// `max_q_start` to `max_q_end` through Max-Q, fading from `ascent` to
    /// nothing over progress `0.15` to `0.45`, `shock` in the separation shock
    /// and fading with the engine around it, and rising to `orbit` in orbital
    /// insertion.
    pub open spec fn vibration(
        self,
        liftoff_base: int,
        liftoff_span: int,
        max_q_start: int,
        max_q_end: int,
        ascent_start: int,
        ascent_end: int,
        shock: int,
        separation: int,
        orbit: int,
    ) -> TargetView {
        match self.spec_phase() {
            Phase::IgnitionLiftoff => TargetView::Buffet {
                base: Fraction::micro(liftoff_base),
                span: Fraction::micro(liftoff_span),
            },
            Phase::MaxQ => self.along(50, max_q_start, 150, max_q_end),
            Phase::MainAscent => self.along(150, ascent_start, 450, ascent_end),
            Phase::StageSeparation => if self.spec_in_separation_shock() {
                fixed(shock)
            } else if self.spec_before_separation() {
                self.along(450, separation, 500, 0)
            } else {
                fixed(0)
            },
            Phase::OrbitalInsertion => self.along(550, 0, 1000, orbit),
        }
    }

    /// Acceleration along the flight path, in m/s².
    pub open spec fn acceleration(self) -> TargetView {
        match self.spec_phase() {
            Phase::IgnitionLiftoff => if self.spec_in_hold_down() {
                fixed(0)
            } else {
                self.along(10, 0, 50, 15_000_000)
            },
            Phase::MaxQ => self.along(50, 15_000_000, 150, 12_000_000),
            Phase::MainAscent => self.along(150, 15_000_000, 400, 22_500_000),
            Phase::StageSeparation => if self.spec_before_separation() {
                self.along(450, 20_000_000, 500, 0)
            } else if self.spec_before_relight() {
                fixed(-9_810_000)
            } else {
                self.along(520, -9_810_000, 550, 5_190_000)
            },
            Phase::OrbitalInsertion => if self.spec_in_final_shutdown() {
                TargetView::Scaled(self.on_line(550, 0, 1000, 250_000), self.shutdown_factor())
            } else {
                self.along(550, 0, 1000, 250_000)
            },
        }
    }

    /// Chamber temperature, in kelvin: it rises with the throttle at ignition
    /// but is never set below 273 K, is held through the ascent, and follows
    /// the second stage's start-up from 300 K.
    pub open spec fn chamber_temperature(self) -> TargetView {
        match self.spec_phase() {
            Phase::IgnitionLiftoff => if self.below(273, 70_000) {
                fixed(273_000_000)
            } else {
                self.along(0, 0, 50, 3_500_000_000)
            },
            Phase::OrbitalInsertion => self.along(550, 300_000_000, 1000, 475_000_000),
            _ => TargetView::Hold,
        }
    }

    /// Turbopump speed, in revolutions per minute. Wherever a phase drives
    /// the pump, the floor of 1,000,000 rpm lies above the phase's own value
    /// and is what the pump is set to.
    pub open spec fn turbo_pump_rpm(self) -> TargetView {
        match self.spec_phase() {
            Phase::MaxQ | Phase::MainAscent => TargetView::Hold,
            _ => fixed(1_000_000_000_000),
        }
    }

    /// Specific impulse, in seconds.
    pub open spec fn specific_impulse(self) -> TargetView {
        match self.spec_phase() {
            Phase::IgnitionLiftoff => self.along(0, 0, 50, 300_000_000),
            Phase::OrbitalInsertion => self.along(550, 0, 1000, 15_000_000),
            _ => TargetView::Hold,
        }
    }

    /// Nozzle temperature, in kelvin.
    pub open spec fn nozzle_temperature(self) -> TargetView {
        match self.spec_phase() {
            Phase::IgnitionLiftoff => self.along(0, 0, 50, 3_500_000_000),
            Phase::MaxQ => self.along(50, 1_500_000_000, 150, 1_800_000_000),
            _ => TargetView::Hold,
        }
    }

    /// Pitch angle, in degrees: the gravity turn from vertical.
    pub open spec fn pitch_angle(self) -> TargetView {
        match self.spec_phase() {
            Phase::MaxQ => self.along(50, 90_000_000, 150, 75_000_000),
            Phase::MainAscent => self.along(150, 75_000_000, 450, 50_000_000),
            Phase::OrbitalInsertion => self.along(550, 50_000_000, 1000, 10_000_000),
            _ => TargetView::Hold,
        }
    }

    /// Pitch rate, in degrees per second.
    pub open spec fn pitch_rate(self) -> TargetView {
        match self.spec_phase() {
            Phase::MaxQ => fixed(-300_000),
            Phase::MainAscent => fixed(-100_000),
            _ => TargetView::Hold,
        }
    }

    /// What the flight plan does with channel `sensor` at this tick.
    pub open spec fn spec_target(self, sensor: SensorEnum) -> TargetView {
        match sensor {
            SensorEnum::Acceleration => self.acceleration(),
            SensorEnum::Altitude => TargetView::Integrate(SensorEnum::Velocity),
            SensorEnum::Velocity => TargetView::Integrate(SensorEnum::Acceleration),
            SensorEnum::ChamberPressure => self.engine_output(
                5_000_000_000_000,
                4_000_000_000_000,
                250_000_000_000,
            ),
            SensorEnum::ChamberTemperature => self.chamber_temperature(),
            SensorEnum::OxidizerFlowRate => self.engine_output(250_000_000, 200_000_000, 12_500_000),
            SensorEnum::FuelFlowRate => self.engine_output(50_000_000, 40_000_000, 2_500_000),
            SensorEnum::TurboPumpRpm => self.turbo_pump_rpm(),
            SensorEnum::Thrust => self.engine_output(
                1_000_000_000_000,
                800_000_000_000,
                100_000_000_000,
            ),
            SensorEnum::SpecificImpulse => self.specific_impulse(),
            SensorEnum::NozzleTemperature => self.nozzle_temperature(),
            SensorEnum::PitchAngle => self.pitch_angle(),
            SensorEnum::PitchRate => self.pitch_rate(),
            SensorEnum::Latitude | SensorEnum::Longitude => TargetView::Track,
            SensorEnum::VibrationX | SensorEnum::VibrationY => self.vibration(
                0,
                50_000,
                1_000_000,
                1_400_000,
                500_000,
                0,
                3_000_000,
                500_000,
                500,
            ),
            SensorEnum::VibrationZ => self.vibration(
                0,
                100_000,
                1_500_000,
                2_100_000,
                750_000,
                0,
                5_000_000,
                750_000,
                1_500,
            ),
            SensorEnum::VibrationFreq => self.vibration(
                20_000_000,
                5_000_000,
                80_000_000,
                88_000_000,
                60_000_000,
                60_000_000,
                100_000_000,
                40_000_000,
                1_500_000,
            ),
            SensorEnum::MissionPhase => fixed(self.spec_phase().rank() * 1_000_000),
            SensorEnum::OxidizerPressure
            | SensorEnum::OxidizerTemperature
            | SensorEnum::FuelPressure
            | SensorEnum::FuelTemperature
            | SensorEnum::RollAngle
            | SensorEnum::YawAngle
            | SensorEnum::RollRate
            | SensorEnum::YawRate
            | SensorEnum::HealthStatus => TargetView::Hold,
        }
    }

    /// The line through `(from, at_from)` and `(to, at_to)`, taken at this
    /// tick.
    fn line_at(&self, from: u16, at_from: i64, to: u16, at_to: i64) -> (r: Ratio)
        requires
            self.in_run(),
            from < to <= 1000,
            -PLAN_LIMIT <= at_from <= PLAN_LIMIT,
            -PLAN_LIMIT <= at_to <= PLAN_LIMIT,
        ensures
            r@ == self.on_line(from as int, at_from as int, to as int, at_to as int),
            r@.wf(),
    {
        let span: i128 = (to - from) as i128;
        let total: i128 = self.total as i128;
        let tick: i128 = self.tick as i128;
        proof {
            lemma_product_bound(span as int, total as int, 1000, 0x1_0000_0000_0000_0000);
            lemma_product_bound(from as int, total as int, 1000, 0x1_0000_0000_0000_0000);
            assert(span * total > 0) by (nonlinear_arith)
                requires
                    span >= 1,
                    total >= 1,
            ;
        }
        let run: i128 = span * total;
        let lead: i128 = 1000 * tick - (from as i128) * total;
        let rise: i128 = (at_to - at_from) as i128;
        proof {
            lemma_product_bound(
                at_from as int,
                run as int,
                10_000_000_000_000,
                0x3e8_0000_0000_0000_0000,
            );
            lemma_product_bound(
                rise as int,
                lead as int,
                20_000_000_000_000,
                0x7d0_0000_0000_0000_0000,
            );
        }
        let num: i128 = (at_from as i128) * run + rise * lead;
        let den: i128 = 1_000_000 * run;
        Ratio { num, den }
    }

    /// A quantity that follows a line.
    fn along_line(&self, from: u16, at_from: i64, to: u16, at_to: i64) -> (t: Target)
        requires
            self.in_run(),
            from < to <= 1000,
            -PLAN_LIMIT <= at_from <= PLAN_LIMIT,
            -PLAN_LIMIT <= at_to <= PLAN_LIMIT,
        ensures
            t@ == self.along(from as int, at_from as int, to as int, at_to as int),
    {
        Target::Value(self.line_at(from, at_from, to, at_to))
    }

    /// A quantity that follows the engine's throttle.
    fn engine_target(&self, phase: Phase, nominal: i64, throttled: i64, relit: i64) -> (t: Target)
        requires
            self.in_run(),
            phase == self.spec_phase(),
            0 <= nominal <= PLAN_LIMIT,
            0 <= throttled <= PLAN_LIMIT,
            0 <= relit <= PLAN_LIMIT,
        ensures
            t@ == self.engine_output(nominal as int, throttled as int, relit as int),
    {
        match phase {
            Phase::IgnitionLiftoff => self.along_line(0, 0, 50, nominal),
            Phase::MaxQ => self.along_line(50, nominal, 150, throttled),
            Phase::MainAscent => Target::Value(Ratio::micro(nominal)),
            Phase::StageSeparation => if self.before_separation() {
                self.along_line(450, nominal, 500, 0)
            } else {
                Target::Value(Ratio::micro(0))
            },
            Phase::OrbitalInsertion => if self.in_final_shutdown() {
                Target::Scaled(
                    self.line_at(550, 0, 1000, relit),
                    self.line_at(955, 1_000_000, 1000, 0),
                )
            } else {
                self.along_line(550, 0, 1000, relit)
            },
        }
    }

    /// Vibration along one axis.
    fn vibration_target(
        &self,
        phase: Phase,
        liftoff_base: i64,
        liftoff_span: i64,
        max_q_start: i64,
        max_q_end: i64,
        ascent_start: i64,
        ascent_end: i64,
        shock: i64,
        separation: i64,
        orbit: i64,
    ) -> (t: Target)
        requires
            self.in_run(),
            phase == self.spec_phase(),
            0 <= max_q_start <= PLAN_LIMIT,
            0 <= max_q_end <= PLAN_LIMIT,
            0 <= ascent_start <= PLAN_LIMIT,
            0 <= ascent_end <= PLAN_LIMIT,
            0 <= separation <= PLAN_LIMIT,
            0 <= orbit <= PLAN_LIMIT,
        ensures
            t@ == self.vibration(
                liftoff_base as int,
                liftoff_span as int,
                max_q_start as int,
                max_q_end as int,
                ascent_start as int,
                ascent_end as int,
                shock as int,
                separation as int,
                orbit as int,
            ),
    {
        match phase {
            Phase::IgnitionLiftoff => Target::Buffet {
                base: Ratio::micro(liftoff_base),
                span: Ratio::micro(liftoff_span),
            },
            Phase::MaxQ => self.along_line(50, max_q_start, 150, max_q_end),
            Phase::MainAscent => self.along_line(150, ascent_start, 450, ascent_end),
            Phase::StageSeparation => if self.in_separation_shock() {
                Target::Value(Ratio::micro(shock))
            } else if self.before_separation() {
                self.along_line(450, separation, 500, 0)
            } else {
                Target::Value(Ratio::micro(0))
            },
            Phase::OrbitalInsertion => self.along_line(550, 0, 1000, orbit),
        }
    }

    /// Acceleration along the flight path.
    fn acceleration_target(&self, phase: Phase) -> (t: Target)
        requires
            self.in_run(),
            phase == self.spec_phase(),
        ensures
            t@ == self.acceleration(),
    {
        match phase {
            Phase::IgnitionLiftoff => if self.in_hold_down() {
                Target::Value(Ratio::micro(0))
            } else {
                self.along_line(10, 0, 50, 15_000_000)
            },
            Phase::MaxQ => self.along_line(50, 15_000_000, 150, 12_000_000),
            Phase::MainAscent => self.along_line(150, 15_000_000, 400, 22_500_000),
            Phase::StageSeparation => if self.before_separation() {
                self.along_line(450, 20_000_000, 500, 0)
            } else if self.before_relight() {
                Target::Value(Ratio::micro(-9_810_000))
            } else {
                self.along_line(520, -9_810_000, 550, 5_190_000)
            },
            Phase::OrbitalInsertion => if self.in_final_shutdown() {
                Target::Scaled(
                    self.line_at(550, 0, 1000, 250_000),
                    self.line_at(955, 1_000_000, 1000, 0),
                )
            } else {
                self.along_line(550, 0, 1000, 250_000)
            },
        }
    }

    /// What the flight plan does with channel `sensor` at this tick.
    ///
    /// The plan is a function of the tick alone: it reads no state and draws
    /// no random number.
    pub fn target(&self, sensor: SensorEnum) -> (t: Target)
        requires
            self.in_run(),
        ensures
            t@ == self.spec_target(sensor),
    {
        let phase: Phase = self.phase();
        match sensor {
            SensorEnum::Acceleration => self.acceleration_target(phase),
            SensorEnum::Altitude => Target::Integrate(SensorEnum::Velocity),
            SensorEnum::Velocity => Target::Integrate(SensorEnum::Acceleration),
            SensorEnum::ChamberPressure => self.engine_target(
                phase,
                5_000_000_000_000,
                4_000_000_000_000,
                250_000_000_000,
            ),
            SensorEnum::ChamberTemperature => match phase {
                Phase::IgnitionLiftoff => if self.is_below(273, 70_000) {
                    Target::Value(Ratio::micro(273_000_000))
                } else {
                    self.along_line(0, 0, 50, 3_500_000_000)
                },
                Phase::OrbitalInsertion => self.along_line(550, 300_000_000, 1000, 475_000_000),
                _ => Target::Hold,
            },
            SensorEnum::OxidizerFlowRate => self.engine_target(
                phase,
                250_000_000,
                200_000_000,
                12_500_000,
            ),
            SensorEnum::FuelFlowRate => self.engine_target(phase, 50_000_000, 40_000_000, 2_500_000),
            SensorEnum::TurboPumpRpm => match phase {
                Phase::MaxQ | Phase::MainAscent => Target::Hold,
                _ => Target::Value(Ratio::micro(1_000_000_000_000)),
            },
            SensorEnum::Thrust => self.engine_target(
                phase,
                1_000_000_000_000,
                800_000_000_000,
                100_000_000_000,
            ),
            SensorEnum::SpecificImpulse => match phase {
                Phase::IgnitionLiftoff => self.along_line(0, 0, 50, 300_000_000),
                Phase::OrbitalInsertion => self.along_line(550, 0, 1000, 15_000_000),
                _ => Target::Hold,
            },
            SensorEnum::NozzleTemperature => match phase {
                Phase::IgnitionLiftoff => self.along_line(0, 0, 50, 3_500_000_000),
                Phase::MaxQ => self.along_line(50, 1_500_000_000, 150, 1_800_000_000),
                _ => Target::Hold,
            },
            SensorEnum::PitchAngle => match phase {
                Phase::MaxQ => self.along_line(50, 90_000_000, 150, 75_000_000),
                Phase::MainAscent => self.along_line(150, 75_000_000, 450, 50_000_000),
                Phase::OrbitalInsertion => self.along_line(550, 50_000_000, 1000, 10_000_000),
                _ => Target::Hold,
            },
            SensorEnum::PitchRate => match phase {
                Phase::MaxQ => Target::Value(Ratio::micro(-300_000)),
                Phase::MainAscent => Target::Value(Ratio::micro(-100_000)),
                _ => Target::Hold,
            },
            SensorEnum::Latitude | SensorEnum::Longitude => Target::Track,
            SensorEnum::VibrationX | SensorEnum::VibrationY => self.vibration_target(
                phase,
                0,
                50_000,
                1_000_000,
                1_400_000,
                500_000,
                0,
                3_000_000,
                500_000,
                500,
            ),
            SensorEnum::VibrationZ => self.vibration_target(
                phase,
                0,
                100_000,
                1_500_000,
                2_100_000,
                750_000,
                0,
                5_000_000,
                750_000,
                1_500,
            ),
            SensorEnum::VibrationFreq => self.vibration_target(
                phase,
                20_000_000,
                5_000_000,
                80_000_000,
                88_000_000,
                60_000_000,
                60_000_000,
                100_000_000,
                40_000_000,
                1_500_000,
            ),
            SensorEnum::MissionPhase => Target::Value(
                Ratio::micro((phase.index() as i64) * 1_000_000),
            ),
            SensorEnum::OxidizerPressure
            | SensorEnum::OxidizerTemperature
            | SensorEnum::FuelPressure
            | SensorEnum::FuelTemperature
            | SensorEnum::RollAngle
            | SensorEnum::YawAngle
            | SensorEnum::RollRate
            | SensorEnum::YawRate
            | SensorEnum::HealthStatus => Target::Hold,
        }
    }
}

/// The value of a channel on the pad, before the first tick, in millionths:
/// ambient temperatures and tank pressures, the launch site's position, a
/// hair's breadth of attitude, a healthy vehicle, and nothing else.
pub open spec fn initial_micro(sensor: SensorEnum) -> int {
    match sensor {
        SensorEnum::ChamberTemperature
        | SensorEnum::OxidizerTemperature
        | SensorEnum::FuelTemperature
        | SensorEnum::NozzleTemperature => 288_150_000,
        SensorEnum::OxidizerPressure | SensorEnum::FuelPressure => 101_325_000_000,
        SensorEnum::RollAngle | SensorEnum::PitchAngle | SensorEnum::YawAngle => 100,
        SensorEnum::Latitude => 28_572_100,
        SensorEnum::Longitude => -80_648_000,
        SensorEnum::HealthStatus => 1_000_000,
        _ => 0,
    }
}

/// The value of a channel on the pad, before the first tick.
pub fn initial_value(sensor: SensorEnum) -> (value: Ratio)
    ensures
        value@ == Fraction::micro(initial_micro(sensor)),
{
    match sensor {
        SensorEnum::ChamberTemperature
        | SensorEnum::OxidizerTemperature
        | SensorEnum::FuelTemperature
        | SensorEnum::NozzleTemperature => Ratio::micro(288_150_000),
        SensorEnum::OxidizerPressure | SensorEnum::FuelPressure => Ratio::micro(101_325_000_000),
        SensorEnum::RollAngle | SensorEnum::PitchAngle | SensorEnum::YawAngle => Ratio::micro(100),
        SensorEnum::Latitude => Ratio::micro(28_572_100),
        SensorEnum::Longitude => Ratio::micro(-80_648_000),
        SensorEnum::HealthStatus => Ratio::micro(1_000_000),
        _ => Ratio::micro(0),
    }
}

/// The channels that accumulate, in the order in which a tick advances them.
pub open spec fn accumulation_order() -> Seq<SensorEnum> {
    seq![SensorEnum::Velocity, SensorEnum::Altitude]
}

/// The channels that accumulate, in the order in which a tick advances them:
/// first the targets that hold, set or buffet are applied, then these channels
/// one after the other, then the ground position.
pub fn accumulating_channels() -> (order: Vec<SensorEnum>)
    ensures
        order@ == accumulation_order(),
{
    vec![SensorEnum::Velocity, SensorEnum::Altitude]
}

/// The order of accumulation is sound at every tick: it holds exactly the
/// channels that the plan integrates, each once, and each of them integrates a
/// quantity that either does not accumulate itself or stands earlier in the
/// order, so that its value of this tick is there when it is needed.
pub proof fn lemma_accumulation_order_is_sound(p: Progress, sensor: SensorEnum)
    ensures
        p.spec_target(sensor) is Integrate <==> accumulation_order().contains(sensor),
        accumulation_order().no_duplicates(),
        forall|i: int|
            0 <= i < accumulation_order().len() ==> {
                &&& p.spec_target(#[trigger] accumulation_order()[i]) is Integrate
                &&& (p.spec_target(p.spec_target(accumulation_order()[i])->Integrate_0)
                    is Integrate ==> exists|j: int|
                    0 <= j < i && accumulation_order()[j] == p.spec_target(
                        accumulation_order()[i],
                    )->Integrate_0)
            },
{
    let order = accumulation_order();
    assert(order[0] == SensorEnum::Velocity);
    assert(order[1] == SensorEnum::Altitude);
    lemma_acceleration_is_set_by_a_curve(p);
    assert(p.spec_target(order[1])->Integrate_0 == order[0]);
}

/// Acceleration is always fixed by a curve: it never accumulates, is never
/// held and is never tracked.
pub proof fn lemma_acceleration_is_set_by_a_curve(p: Progress)
    ensures
        !(p.spec_target(SensorEnum::Acceleration) is Integrate),
        !(p.spec_target(SensorEnum::Acceleration) is Hold),
        !(p.spec_target(SensorEnum::Acceleration) is Track),
{
}

/// A line takes the values it was drawn through: `at_from` where progress is
/// `from`, `at_to` where progress is `to`.
pub proof fn lemma_line_meets_its_ends(
    tick: int,
    total: int,
    from: int,
    at_from: int,
    to: int,
    at_to: int,
)
    requires
        total > 0,
        from < to,
    ensures
        line(tick, total, from, at_from, to, at_to).wf(),
        1000 * tick == from * total ==> line(tick, total, from, at_from, to, at_to).is_micro(
            at_from,
        ),
        1000 * tick == to * total ==> line(tick, total, from, at_from, to, at_to).is_micro(at_to),
{
    let run = (to - from) * total;
    assert(run > 0) by (nonlinear_arith)
        requires
            run == (to - from) * total,
            to - from > 0,
            total > 0,
    ;
    if 1000 * tick == from * total {
        assert((at_from * run + (at_to - at_from) * 0) * 1_000_000 == at_from * (1_000_000 * run))
            by (nonlinear_arith);
    }
    if 1000 * tick == to * total {
        assert(1000 * tick - from * total == run) by (nonlinear_arith)
            requires
                1000 * tick == to * total,
                run == (to - from) * total,
        ;
        assert((at_from * run + (at_to - at_from) * run) * 1_000_000 == at_to * (1_000_000 * run))
            by (nonlinear_arith);
    }
}

/// A line between non-negative values is not negative where it counts: a
/// rising line from its lower end on, a falling line up to its lower end.
pub proof fn lemma_line_is_not_negative(
    tick: int,
    total: int,
    from: int,
    at_from: int,
    to: int,
    at_to: int,
)
    requires
        total > 0,
        from < to,
        0 <= at_from,
        0 <= at_to,
        at_from < at_to ==> from * total <= 1000 * tick,
        at_to <= at_from ==> 1000 * tick <= to * total,
    ensures
        line(tick, total, from, at_from, to, at_to).wf(),
        line(tick, total, from, at_from, to, at_to).non_negative(),
{
    let run = (to - from) * total;
    let lead = 1000 * tick - from * total;
    assert(run > 0) by (nonlinear_arith)
        requires
            run == (to - from) * total,
            to - from > 0,
            total > 0,
    ;
    assert(run - lead == to * total - 1000 * tick) by (nonlinear_arith)
        requires
            lead == 1000 * tick - from * total,
            run == (to - from) * total,
    ;
    if at_from < at_to {
        assert(at_from * run + (at_to - at_from) * lead >= 0) by (nonlinear_arith)
            requires
                0 <= lead,
                0 <= run,
                0 <= at_from <= at_to,
        ;
    } else {
        assert(at_from * run + (at_to - at_from) * lead == at_to * run + (at_from - at_to) * (run
            - lead)) by (nonlinear_arith);
        assert(at_to * run + (at_from - at_to) * (run - lead) >= 0) by (nonlinear_arith)
            requires
                0 <= run - lead,
                0 <= run,
                0 <= at_to <= at_from,
        ;
    }
}

/// A target that is not negative: if it sets a value, the value is at least
/// zero, and so is each factor of a product.
pub open spec fn never_negative(target: TargetView) -> bool {
    match target {
        TargetView::Value(value) => value.wf() && value.non_negative(),
        TargetView::Scaled(value, factor) => value.wf() && value.non_negative() && factor.wf()
            && factor.non_negative(),
        _ => true,
    }
}

/// Chamber pressure, thrust and the propellant flows are never set below
/// zero: the floor at zero holds of the flight plan as it stands.
pub proof fn lemma_engine_output_is_never_negative(
    p: Progress,
    nominal: int,
    throttled: int,
    relit: int,
)
    requires
        p.in_run(),
        0 <= nominal,
        0 <= throttled,
        0 <= relit,
    ensures
        never_negative(p.engine_output(nominal, throttled, relit)),
{
    let tick = p.tick as int;
    let total = p.total as int;
    match p.spec_phase() {
        Phase::IgnitionLiftoff => {
            lemma_line_is_not_negative(tick, total, 0, 0, 50, nominal);
        },
        Phase::MaxQ => {
            lemma_line_is_not_negative(tick, total, 50, nominal, 150, throttled);
        },
        Phase::MainAscent => {},
        Phase::StageSeparation => {
            if p.spec_before_separation() {
                lemma_line_is_not_negative(tick, total, 450, nominal, 500, 0);
            }
        },
        Phase::OrbitalInsertion => {
            lemma_line_is_not_negative(tick, total, 550, 0, 1000, relit);
            if p.spec_in_final_shutdown() {
                lemma_line_is_not_negative(tick, total, 955, 1_000_000, 1000, 0);
            }
        },
    }
}

/// The engine is off in the transient window after first-stage shutdown:
/// for progress in `(0.50, 0.52)` every quantity that follows the throttle is
/// set to zero.
pub proof fn lemma_engine_is_off_in_cutoff(p: Progress, nominal: int, throttled: int, relit: int)
    requires
        p.in_run(),
        p.spec_in_engine_cutoff(),
    ensures
        p.spec_phase() == Phase::StageSeparation,
        p.engine_output(nominal, throttled, relit) == fixed(0),
{
}

/// Ignition runs into Max-Q without a step: at the tick on the boundary the
/// Max-Q curve has the nominal value, which is also what the ignition ramp
/// reaches there.
pub proof fn lemma_throttle_is_continuous_at_max_q(
    p: Progress,
    nominal: int,
    throttled: int,
    relit: int,
)
    requires
        p.in_run(),
        20 * p.tick == p.total,
    ensures
        p.spec_phase() == Phase::MaxQ,
        p.engine_output(nominal, throttled, relit) == p.along(50, nominal, 150, throttled),
        p.on_line(50, nominal, 150, throttled).is_micro(nominal),
        p.on_line(0, 0, 50, nominal).is_micro(nominal),
{
    lemma_line_meets_its_ends(p.tick as int, p.total as int, 50, nominal, 150, throttled);
    lemma_line_meets_its_ends(p.tick as int, p.total as int, 0, 0, 50, nominal);
}

/// The chamber is never set colder than 273 K.
pub proof fn lemma_chamber_temperature_floor(p: Progress)
    requires
        p.in_run(),
    ensures
        p.chamber_temperature() matches TargetView::Value(value) ==> value.wf() && value.num
            * 1_000_000 >= 273_000_000 * value.den,
{
    let tick = p.tick as int;
    let total = p.total as int;
    match p.spec_phase() {
        Phase::IgnitionLiftoff => {
            if !p.below(273, 70_000) {
                let value = p.on_line(0, 0, 50, 3_500_000_000);
                assert(value.num == 3_500_000_000 * (1000 * tick));
                assert(value.den == 1_000_000 * (50 * total));
                assert(value.num * 1_000_000 >= 273_000_000 * value.den) by (nonlinear_arith)
                    requires
                        value.num == 3_500_000_000 * (1000 * tick),
                        value.den == 1_000_000 * (50 * total),
                        tick * 70_000 >= 273 * total,
                ;
            }
        },
        Phase::OrbitalInsertion => {
            let value = p.on_line(550, 300_000_000, 1000, 475_000_000);
            let lead = 1000 * tick - 550 * total;
            assert(value.num == 300_000_000 * (450 * total) + 175_000_000 * lead);
            assert(value.den == 1_000_000 * (450 * total));
            assert(value.num * 1_000_000 >= 273_000_000 * value.den) by (nonlinear_arith)
                requires
                    value.num == 300_000_000 * (450 * total) + 175_000_000 * lead,
                    value.den == 1_000_000 * (450 * total),
                    lead >= 0,
                    total > 0,
            ;
        },
        _ => {},
    }
}

/// The pump's floor pins it: whenever the plan sets the turbopump speed, it
/// sets it to 1,000,000 rpm, whatever the phase.
pub proof fn lemma_pump_speed_is_pinned(p: Progress)
    ensures
        p.turbo_pump_rpm() == TargetView::Hold || p.turbo_pump_rpm() == fixed(1_000_000_000_000),
        p.tick == 0 && p.in_run() ==> p.turbo_pump_rpm() == fixed(1_000_000_000_000),
{
}

/// A product is no larger than the product of the bounds of its factors.
proof fn lemma_product_bound(a: int, b: int, a_bound: int, b_bound: int)
    requires
        -a_bound <= a <= a_bound,
        -b_bound <= b <= b_bound,
    ensures
        -(a_bound * b_bound) <= a * b <= a_bound * b_bound,
{
    assert(-(a_bound * b_bound) <= a * b <= a_bound * b_bound) by (nonlinear_arith)
        requires
            -a_bound <= a <= a_bound,
            -b_bound <= b <= b_bound,
    ;
}

} // verus!
