//! The noise plan: which random draws a tick makes, in which order, and what
//! each channel takes from them.
//!
//! Every tick makes the same draws in the same order, each exactly once. A
//! channel's reading is its value plus its coefficient times its draw, so
//! channels that name the same draw move together.

use crate::models::ratio::{Fraction, Ratio};
use crate::models::sensor::SensorEnum;
use vstd::prelude::*;

verus! {

/// Number of draws that one tick makes before the timestamp jitters.
pub const DRAW_COUNT: usize = 19;

/// One random draw of a tick. The variants are declared in the order in which
/// the draws are made.
#[derive(Debug, Clone, Copy, PartialEq, Eq, Hash, Structural)]
pub enum NoiseDraw {
    Altitude,
    Pressure,
    Temperature,
    FlowRate,
    VibrationX,
    VibrationY,
    VibrationZ,
    TurboPumpRpm,
    Thrust,
    SpecificImpulse,
    NozzleTemperature,
    RollAngle,
    PitchAngle,
    YawAngle,
    VibrationFreq,
    BuffetX,
    BuffetY,
    BuffetZ,
    BuffetFreq,
}

/// The law that a draw follows.
#[derive(Debug, Clone, Copy, PartialEq, Eq, Structural)]
pub enum Distribution {
    /// A Gaussian around zero with this standard deviation.
    Normal { std_dev: Ratio },
    /// Uniform over `low` up to, but not including, `high`.
    Uniform { low: Ratio, high: Ratio },
}

/// What a `Distribution` stands for in contracts.
pub enum DistributionView {
    Normal { std_dev: Fraction },
    Uniform { low: Fraction, high: Fraction },
}

impl View for Distribution {
    type V = DistributionView;

    open spec fn view(&self) -> DistributionView {
        match self {
            Distribution::Normal { std_dev } => DistributionView::Normal { std_dev: std_dev@ },
            Distribution::Uniform { low, high } => DistributionView::Uniform {
                low: low@,
                high: high@,
            },
        }
    }
}

/// The share of a draw that a channel's reading takes: `coefficient * draw`
/// is added to the channel's value.
#[derive(Debug, Clone, Copy, PartialEq, Eq, Structural)]
pub struct NoiseTerm {
    pub draw: NoiseDraw,
    pub coefficient: Ratio,
}

/// A Gaussian around zero; the standard deviation is given in millionths.
pub open spec fn normal(std_dev: int) -> DistributionView {
    DistributionView::Normal { std_dev: Fraction::micro(std_dev) }
}

/// A uniform law; the bounds are given in millionths.
pub open spec fn uniform(low: int, high: int) -> DistributionView {
    DistributionView::Uniform { low: Fraction::micro(low), high: Fraction::micro(high) }
}

impl NoiseDraw {
    /// Position of the draw among the draws of a tick, from 0.
    pub open spec fn spec_order(self) -> int {
        match self {
            NoiseDraw::Altitude => 0,
            NoiseDraw::Pressure => 1,
            NoiseDraw::Temperature => 2,
            NoiseDraw::FlowRate => 3,
            NoiseDraw::VibrationX => 4,
            NoiseDraw::VibrationY => 5,
            NoiseDraw::VibrationZ => 6,
            NoiseDraw::TurboPumpRpm => 7,
            NoiseDraw::Thrust => 8,
            NoiseDraw::SpecificImpulse => 9,
            NoiseDraw::NozzleTemperature => 10,
            NoiseDraw::RollAngle => 11,
            NoiseDraw::PitchAngle => 12,
            NoiseDraw::YawAngle => 13,
            NoiseDraw::VibrationFreq => 14,
            NoiseDraw::BuffetX => 15,
            NoiseDraw::BuffetY => 16,
            NoiseDraw::BuffetZ => 17,
            NoiseDraw::BuffetFreq => 18,
        }
    }

    /// The law of the draw.
    pub open spec fn spec_distribution(self) -> DistributionView {
        match self {
            NoiseDraw::Altitude => normal(10_000),
            NoiseDraw::Pressure => normal(1_000_000_000),
            NoiseDraw::Temperature => normal(1_000_000),
            NoiseDraw::FlowRate => normal(100_000),
            NoiseDraw::VibrationX | NoiseDraw::VibrationY | NoiseDraw::VibrationZ => normal(10_000),
            NoiseDraw::TurboPumpRpm => uniform(-50_000_000, 50_000_000),
            NoiseDraw::Thrust => uniform(-10_000_000, 100_000_000),
            NoiseDraw::SpecificImpulse => uniform(-500_000, 500_000),
            NoiseDraw::NozzleTemperature => normal(1_000_000),
            NoiseDraw::RollAngle | NoiseDraw::PitchAngle | NoiseDraw::YawAngle => uniform(
                -500_000,
                500_000,
            ),
            NoiseDraw::VibrationFreq => uniform(-5_000_000, 5_000_000),
            NoiseDraw::BuffetX | NoiseDraw::BuffetY | NoiseDraw::BuffetZ | NoiseDraw::BuffetFreq =>
                uniform(0, 1_000_000),
        }
    }

    /// Position of the draw among the draws of a tick, from 0.
    pub fn order(self) -> (position: usize)
        ensures
            position == self.spec_order(),
            position < DRAW_COUNT,
    {
        match self {
            NoiseDraw::Altitude => 0,
            NoiseDraw::Pressure => 1,
            NoiseDraw::Temperature => 2,
            NoiseDraw::FlowRate => 3,
            NoiseDraw::VibrationX => 4,
            NoiseDraw::VibrationY => 5,
            NoiseDraw::VibrationZ => 6,
            NoiseDraw::TurboPumpRpm => 7,
            NoiseDraw::Thrust => 8,
            NoiseDraw::SpecificImpulse => 9,
            NoiseDraw::NozzleTemperature => 10,
            NoiseDraw::RollAngle => 11,
            NoiseDraw::PitchAngle => 12,
            NoiseDraw::YawAngle => 13,
            NoiseDraw::VibrationFreq => 14,
            NoiseDraw::BuffetX => 15,
            NoiseDraw::BuffetY => 16,
            NoiseDraw::BuffetZ => 17,
            NoiseDraw::BuffetFreq => 18,
        }
    }

    /// The draw made at position `position` of a tick; `None` from
    /// `DRAW_COUNT` on.
    pub fn from_order(position: usize) -> (draw: Option<NoiseDraw>)
        ensures
            draw is Some <==> position < DRAW_COUNT,
            draw is Some ==> draw->0.spec_order() == position,
    {
        match position {
            0 => Some(NoiseDraw::Altitude),
            1 => Some(NoiseDraw::Pressure),
            2 => Some(NoiseDraw::Temperature),
            3 => Some(NoiseDraw::FlowRate),
            4 => Some(NoiseDraw::VibrationX),
            5 => Some(NoiseDraw::VibrationY),
            6 => Some(NoiseDraw::VibrationZ),
            7 => Some(NoiseDraw::TurboPumpRpm),
            8 => Some(NoiseDraw::Thrust),
            9 => Some(NoiseDraw::SpecificImpulse),
            10 => Some(NoiseDraw::NozzleTemperature),
            11 => Some(NoiseDraw::RollAngle),
            12 => Some(NoiseDraw::PitchAngle),
            13 => Some(NoiseDraw::YawAngle),
            14 => Some(NoiseDraw::VibrationFreq),
            15 => Some(NoiseDraw::BuffetX),
            16 => Some(NoiseDraw::BuffetY),
            17 => Some(NoiseDraw::BuffetZ),
            18 => Some(NoiseDraw::BuffetFreq),
            _ => None,
        }
    }

    /// The law of the draw. A uniform law has a lower bound below its upper
    /// bound, and no standard deviation is negative.
    pub fn distribution(self) -> (law: Distribution)
        ensures
            law@ == self.spec_distribution(),
            match law {
                Distribution::Normal { std_dev } => std_dev.den == 1_000_000 && std_dev.num >= 0,
                Distribution::Uniform { low, high } => low.den == 1_000_000 && high.den
                    == 1_000_000 && low.num < high.num,
            },
    {
        match self {
            NoiseDraw::Altitude => Distribution::Normal { std_dev: Ratio::micro(10_000) },
            NoiseDraw::Pressure => Distribution::Normal { std_dev: Ratio::micro(1_000_000_000) },
            NoiseDraw::Temperature => Distribution::Normal { std_dev: Ratio::micro(1_000_000) },
            NoiseDraw::FlowRate => Distribution::Normal { std_dev: Ratio::micro(100_000) },
            NoiseDraw::VibrationX | NoiseDraw::VibrationY | NoiseDraw::VibrationZ =>
                Distribution::Normal { std_dev: Ratio::micro(10_000) },
            NoiseDraw::TurboPumpRpm => Distribution::Uniform {
                low: Ratio::micro(-50_000_000),
                high: Ratio::micro(50_000_000),
            },
            NoiseDraw::Thrust => Distribution::Uniform {
                low: Ratio::micro(-10_000_000),
                high: Ratio::micro(100_000_000),
            },
            NoiseDraw::SpecificImpulse => Distribution::Uniform {
                low: Ratio::micro(-500_000),
                high: Ratio::micro(500_000),
            },
            NoiseDraw::NozzleTemperature => Distribution::Normal {
                std_dev: Ratio::micro(1_000_000),
            },
            NoiseDraw::RollAngle | NoiseDraw::PitchAngle | NoiseDraw::YawAngle =>
                Distribution::Uniform {
                    low: Ratio::micro(-500_000),
                    high: Ratio::micro(500_000),
                },
            NoiseDraw::VibrationFreq => Distribution::Uniform {
                low: Ratio::micro(-5_000_000),
                high: Ratio::micro(5_000_000),
            },
            NoiseDraw::BuffetX | NoiseDraw::BuffetY | NoiseDraw::BuffetZ | NoiseDraw::BuffetFreq =>
                Distribution::Uniform { low: Ratio::micro(0), high: Ratio::micro(1_000_000) },
        }
    }
}

/// A share of `coefficient` millionths of `draw`.
pub open spec fn share(draw: NoiseDraw, coefficient: int) -> Option<(NoiseDraw, Fraction)> {
    Some((draw, Fraction::micro(coefficient)))
}

/// The draw that a channel's reading takes noise from, and its coefficient;
/// `None` for a channel that is read without noise.
pub open spec fn noise_of(sensor: SensorEnum) -> Option<(NoiseDraw, Fraction)> {
    match sensor {
        SensorEnum::Altitude => share(NoiseDraw::Altitude, 1_000_000),
        SensorEnum::ChamberPressure | SensorEnum::OxidizerPressure | SensorEnum::FuelPressure =>
            share(NoiseDraw::Pressure, 500_000),
        SensorEnum::ChamberTemperature | SensorEnum::OxidizerTemperature => share(
            NoiseDraw::Temperature,
            200_000,
        ),
        SensorEnum::FuelTemperature => share(NoiseDraw::Temperature, 1_000_000),
        SensorEnum::OxidizerFlowRate | SensorEnum::FuelFlowRate => share(
            NoiseDraw::FlowRate,
            1_000_000,
        ),
        SensorEnum::TurboPumpRpm => share(NoiseDraw::TurboPumpRpm, 1_000_000),
        SensorEnum::Thrust => share(NoiseDraw::Thrust, 1_000_000),
        SensorEnum::SpecificImpulse => share(NoiseDraw::SpecificImpulse, 1_000_000),
        SensorEnum::NozzleTemperature => share(NoiseDraw::NozzleTemperature, 2_000_000),
        SensorEnum::RollAngle | SensorEnum::Longitude => share(NoiseDraw::RollAngle, 1_000_000),
        SensorEnum::PitchAngle | SensorEnum::Latitude => share(NoiseDraw::PitchAngle, 1_000_000),
        SensorEnum::YawAngle => share(NoiseDraw::YawAngle, 1_000_000),
        SensorEnum::VibrationX => share(NoiseDraw::VibrationX, 1_000_000),
        SensorEnum::VibrationY => share(NoiseDraw::VibrationY, 1_000_000),
        SensorEnum::VibrationZ => share(NoiseDraw::VibrationZ, 1_000_000),
        SensorEnum::VibrationFreq => share(NoiseDraw::VibrationFreq, 1_000_000),
        SensorEnum::Acceleration
        | SensorEnum::Velocity
        | SensorEnum::RollRate
        | SensorEnum::PitchRate
        | SensorEnum::YawRate
        | SensorEnum::HealthStatus
        | SensorEnum::MissionPhase => None,
    }
}

/// The draw that scales a channel's liftoff buffeting; `None` for a channel
/// that does not buffet.
pub open spec fn buffet_of(sensor: SensorEnum) -> Option<NoiseDraw> {
    match sensor {
        SensorEnum::VibrationX => Some(NoiseDraw::BuffetX),
        SensorEnum::VibrationY => Some(NoiseDraw::BuffetY),
        SensorEnum::VibrationZ => Some(NoiseDraw::BuffetZ),
        SensorEnum::VibrationFreq => Some(NoiseDraw::BuffetFreq),
        _ => None,
    }
}

fn term(draw: NoiseDraw, coefficient: i64) -> (t: Option<NoiseTerm>)
    ensures
        t is Some,
        t->0.draw == draw,
        t->0.coefficient@ == Fraction::micro(coefficient as int),
{
    Some(NoiseTerm { draw, coefficient: Ratio::micro(coefficient) })
}

impl SensorEnum {
    /// The draw that the channel's reading takes noise from, and its
    /// coefficient; `None` for a channel that is read without noise.
    pub fn noise(&self) -> (t: Option<NoiseTerm>)
        ensures
            t is Some <==> noise_of(*self) is Some,
            t is Some ==> noise_of(*self) == Some((t->0.draw, t->0.coefficient@)),
    {
        match self {
            SensorEnum::Altitude => term(NoiseDraw::Altitude, 1_000_000),
            SensorEnum::ChamberPressure | SensorEnum::OxidizerPressure | SensorEnum::FuelPressure =>
                term(NoiseDraw::Pressure, 500_000),
            SensorEnum::ChamberTemperature | SensorEnum::OxidizerTemperature => term(
                NoiseDraw::Temperature,
                200_000,
            ),
            SensorEnum::FuelTemperature => term(NoiseDraw::Temperature, 1_000_000),
            SensorEnum::OxidizerFlowRate | SensorEnum::FuelFlowRate => term(
                NoiseDraw::FlowRate,
                1_000_000,
            ),
            SensorEnum::TurboPumpRpm => term(NoiseDraw::TurboPumpRpm, 1_000_000),
            SensorEnum::Thrust => term(NoiseDraw::Thrust, 1_000_000),
            SensorEnum::SpecificImpulse => term(NoiseDraw::SpecificImpulse, 1_000_000),
            SensorEnum::NozzleTemperature => term(NoiseDraw::NozzleTemperature, 2_000_000),
            SensorEnum::RollAngle | SensorEnum::Longitude => term(NoiseDraw::RollAngle, 1_000_000),
            SensorEnum::PitchAngle | SensorEnum::Latitude => term(NoiseDraw::PitchAngle, 1_000_000),
            SensorEnum::YawAngle => term(NoiseDraw::YawAngle, 1_000_000),
            SensorEnum::VibrationX => term(NoiseDraw::VibrationX, 1_000_000),
            SensorEnum::VibrationY => term(NoiseDraw::VibrationY, 1_000_000),
            SensorEnum::VibrationZ => term(NoiseDraw::VibrationZ, 1_000_000),
            SensorEnum::VibrationFreq => term(NoiseDraw::VibrationFreq, 1_000_000),
            SensorEnum::Acceleration
            | SensorEnum::Velocity
            | SensorEnum::RollRate
            | SensorEnum::PitchRate
            | SensorEnum::YawRate
            | SensorEnum::HealthStatus
            | SensorEnum::MissionPhase => None,
        }
    }

    /// The draw that scales the channel's liftoff buffeting.
    pub fn buffet(&self) -> (draw: Option<NoiseDraw>)
        ensures
            draw == buffet_of(*self),
    {
        match self {
            SensorEnum::VibrationX => Some(NoiseDraw::BuffetX),
            SensorEnum::VibrationY => Some(NoiseDraw::BuffetY),
            SensorEnum::VibrationZ => Some(NoiseDraw::BuffetZ),
            SensorEnum::VibrationFreq => Some(NoiseDraw::BuffetFreq),
            _ => None,
        }
    }
}

/// The three pressure channels share one draw and one coefficient, so their
/// noise is the same at every tick; the position channels move with the
/// attitude draws.
pub proof fn lemma_correlated_channels()
    ensures
        noise_of(SensorEnum::ChamberPressure) == noise_of(SensorEnum::OxidizerPressure),
        noise_of(SensorEnum::ChamberPressure) == noise_of(SensorEnum::FuelPressure),
        noise_of(SensorEnum::OxidizerFlowRate) == noise_of(SensorEnum::FuelFlowRate),
        noise_of(SensorEnum::ChamberTemperature) == noise_of(SensorEnum::OxidizerTemperature),
        noise_of(SensorEnum::Latitude) == noise_of(SensorEnum::PitchAngle),
        noise_of(SensorEnum::Longitude) == noise_of(SensorEnum::RollAngle),
{
}

/// The draws of a tick are made in one fixed order: each draw has its own
/// position among the `DRAW_COUNT` positions.
pub proof fn lemma_draw_order_is_fixed(a: NoiseDraw, b: NoiseDraw)
    ensures
        0 <= a.spec_order() < DRAW_COUNT,
        a.spec_order() == b.spec_order() ==> a == b,
{
}

} // verus!
