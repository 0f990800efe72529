use telemetry_generator::generators::flight::{Phase, Progress};
use telemetry_generator::generators::noise::{Distribution, NoiseDraw, DRAW_COUNT};
use telemetry_generator::generators::profile::{accumulating_channels, initial_value, Target};
use telemetry_generator::models::ratio::Ratio;
use telemetry_generator::models::sensor::SensorEnum;

fn at(tick: usize, total: usize) -> Progress {
    Progress::new(tick, total).unwrap()
}

fn as_number(r: Ratio) -> f64 {
    assert!(r.den > 0);
    r.num as f64 / r.den as f64
}

fn is_exactly(r: Ratio, millionths: i128) -> bool {
    r.den > 0 && r.num * 1_000_000 == millionths * r.den
}

fn value_of(target: Target) -> Ratio {
    match target {
        Target::Value(r) => r,
        other => panic!("not a plain value: {:?}", other),
    }
}

#[test]
fn progress_lies_inside_the_run() {
    assert!(Progress::new(0, 1).is_some());
    assert!(Progress::new(9, 10).is_some());
    assert!(Progress::new(10, 10).is_none());
    assert!(Progress::new(0, 0).is_none());
    assert!(Progress::new(11, 10).is_none());
}

#[test]
fn phases_follow_each_other() {
    assert_eq!(at(0, 1000).phase(), Phase::IgnitionLiftoff);
    assert_eq!(at(49, 1000).phase(), Phase::IgnitionLiftoff);
    assert_eq!(at(51, 1000).phase(), Phase::MaxQ);
    assert_eq!(at(149, 1000).phase(), Phase::MaxQ);
    assert_eq!(at(151, 1000).phase(), Phase::MainAscent);
    assert_eq!(at(399, 1000).phase(), Phase::MainAscent);
    assert_eq!(at(401, 1000).phase(), Phase::StageSeparation);
    assert_eq!(at(549, 1000).phase(), Phase::StageSeparation);
    assert_eq!(at(551, 1000).phase(), Phase::OrbitalInsertion);
    assert_eq!(at(999, 1000).phase(), Phase::OrbitalInsertion);
}

#[test]
fn a_tick_on_a_boundary_belongs_to_the_later_phase() {
    assert_eq!(at(50, 1000).phase(), Phase::MaxQ);
    assert_eq!(at(150, 1000).phase(), Phase::MainAscent);
    assert_eq!(at(400, 1000).phase(), Phase::StageSeparation);
    assert_eq!(at(550, 1000).phase(), Phase::OrbitalInsertion);
    assert_eq!(at(1, 20).phase(), Phase::MaxQ);
    assert_eq!(at(3, 20).phase(), Phase::MainAscent);
    assert_eq!(at(8, 20).phase(), Phase::StageSeparation);
    assert_eq!(at(11, 20).phase(), Phase::OrbitalInsertion);
}

#[test]
fn phases_of_a_ten_tick_run() {
    let phases: Vec<Phase> = (0..10).map(|t| at(t, 10).phase()).collect();
    assert_eq!(
        phases,
        vec![
            Phase::IgnitionLiftoff,
            Phase::MaxQ,
            Phase::MainAscent,
            Phase::MainAscent,
            Phase::StageSeparation,
            Phase::StageSeparation,
            Phase::OrbitalInsertion,
            Phase::OrbitalInsertion,
            Phase::OrbitalInsertion,
            Phase::OrbitalInsertion,
        ]
    );
}

#[test]
fn phases_never_go_backwards() {
    for total in [1usize, 7, 20, 33, 1000] {
        let mut last = 0u8;
        for tick in 0..total {
            let index = at(tick, total).phase().index();
            assert!(index >= last);
            last = index;
        }
    }
}

#[test]
fn phase_indices() {
    assert_eq!(Phase::IgnitionLiftoff.index(), 0);
    assert_eq!(Phase::MaxQ.index(), 1);
    assert_eq!(Phase::MainAscent.index(), 2);
    assert_eq!(Phase::StageSeparation.index(), 3);
    assert_eq!(Phase::OrbitalInsertion.index(), 4);
}

#[test]
fn exact_comparisons_do_not_overflow() {
    let p = at(usize::MAX - 1, usize::MAX);
    assert!(p.is_above(999, 1000));
    assert!(!p.is_below(999, 1000));
    assert!(p.is_below(1, 1));
    assert!(p.is_below(u32::MAX, 1));
    assert!(!p.is_above(u32::MAX, u32::MAX));
    assert_eq!(p.phase(), Phase::OrbitalInsertion);
}

#[test]
fn windows_are_open_intervals() {
    assert!(at(9, 1000).in_hold_down());
    assert!(!at(10, 1000).in_hold_down());
    assert!(!at(500, 1000).in_engine_cutoff());
    assert!(at(501, 1000).in_engine_cutoff());
    assert!(at(519, 1000).in_engine_cutoff());
    assert!(!at(520, 1000).in_engine_cutoff());
    assert!(at(501, 1000).in_separation_shock());
    assert!(at(509, 1000).in_separation_shock());
    assert!(!at(510, 1000).in_separation_shock());
    assert!(at(499, 1000).before_separation());
    assert!(!at(500, 1000).before_separation());
    assert!(at(519, 1000).before_relight());
    assert!(!at(520, 1000).before_relight());
    assert!(!at(955, 1000).in_final_shutdown());
    assert!(at(956, 1000).in_final_shutdown());
}

#[test]
fn thrust_follows_the_throttle() {
    let thrust = |tick: usize| at(tick, 1000).target(SensorEnum::Thrust);
    assert!(is_exactly(value_of(thrust(0)), 0));
    assert!(is_exactly(value_of(thrust(25)), 500_000_000_000));
    assert!(is_exactly(value_of(thrust(49)), 980_000_000_000));
    assert!(is_exactly(value_of(thrust(50)), 1_000_000_000_000));
    assert!(is_exactly(value_of(thrust(100)), 900_000_000_000));
    assert!(is_exactly(value_of(thrust(149)), 802_000_000_000));
    assert!(is_exactly(value_of(thrust(150)), 1_000_000_000_000));
    assert!(is_exactly(value_of(thrust(399)), 1_000_000_000_000));
    assert!(is_exactly(value_of(thrust(400)), 2_000_000_000_000));
    assert!(is_exactly(value_of(thrust(450)), 1_000_000_000_000));
    assert!(is_exactly(value_of(thrust(475)), 500_000_000_000));
    assert!(is_exactly(value_of(thrust(499)), 20_000_000_000));
    assert!(is_exactly(value_of(thrust(500)), 0));
    assert!(is_exactly(value_of(thrust(549)), 0));
    assert!(is_exactly(value_of(thrust(550)), 0));
    assert!(is_exactly(value_of(thrust(775)), 50_000_000_000));
    assert!(is_exactly(value_of(thrust(955)), 90_000_000_000));
}

#[test]
fn thrust_and_chamber_pressure_are_zero_in_the_cutoff_window() {
    for tick in 501..520 {
        let p = at(tick, 1000);
        assert!(p.in_engine_cutoff());
        for sensor in [
            SensorEnum::Thrust,
            SensorEnum::ChamberPressure,
            SensorEnum::OxidizerFlowRate,
            SensorEnum::FuelFlowRate,
        ] {
            assert_eq!(p.target(sensor), Target::Value(Ratio { num: 0, den: 1_000_000 }));
        }
        assert!(is_exactly(value_of(p.target(SensorEnum::Acceleration)), -9_810_000));
    }
}

#[test]
fn chamber_pressure_meets_its_curve_on_both_sides_of_max_q() {
    let pressure = |tick: usize, total: usize| value_of(at(tick, total).target(SensorEnum::ChamberPressure));
    assert!(is_exactly(pressure(499, 10_000), 4_990_000_000_000));
    assert!(is_exactly(pressure(500, 10_000), 5_000_000_000_000));
    assert!(is_exactly(pressure(501, 10_000), 4_999_000_000_000));
    assert!(is_exactly(pressure(1499, 10_000), 4_001_000_000_000));
    assert!(is_exactly(pressure(1500, 10_000), 5_000_000_000_000));
}

#[test]
fn final_shutdown_scales_the_engine() {
    match at(978, 1000).target(SensorEnum::Thrust) {
        Target::Scaled(value, factor) => {
            assert!(value.den > 0 && factor.den > 0);
            assert_eq!(value.num * 450, 428 * 100_000 * value.den);
            assert_eq!(factor.num * 45, 22 * factor.den);
        }
        other => panic!("unexpected target {:?}", other),
    }
    match at(978, 1000).target(SensorEnum::Acceleration) {
        Target::Scaled(value, factor) => {
            assert_eq!(value.num * 450 * 4, 428 * value.den);
            assert_eq!(factor.num * 45, 22 * factor.den);
        }
        other => panic!("unexpected target {:?}", other),
    }
    assert!(matches!(at(955, 1000).target(SensorEnum::Thrust), Target::Value(_)));
    assert!(matches!(at(956, 1000).target(SensorEnum::ChamberPressure), Target::Scaled(_, _)));
    assert!(matches!(at(999, 1000).target(SensorEnum::SpecificImpulse), Target::Value(_)));
}

#[test]
fn acceleration_by_phase() {
    let acc = |tick: usize| value_of(at(tick, 1000).target(SensorEnum::Acceleration));
    assert!(is_exactly(acc(5), 0));
    assert!(is_exactly(acc(10), 0));
    assert!(is_exactly(acc(30), 7_500_000));
    assert!(is_exactly(acc(50), 15_000_000));
    assert!(is_exactly(acc(100), 13_500_000));
    assert!(is_exactly(acc(150), 15_000_000));
    assert!(is_exactly(acc(275), 18_750_000));
    assert!(is_exactly(acc(400), 40_000_000));
    assert!(is_exactly(acc(475), 10_000_000));
    assert!(is_exactly(acc(500), -9_810_000));
    assert!(is_exactly(acc(519), -9_810_000));
    assert!(is_exactly(acc(520), -9_810_000));
    assert!(is_exactly(acc(535), -2_310_000));
    assert!(is_exactly(acc(775), 125_000));
    assert_eq!(as_number(acc(535)), -2.31);
}

#[test]
fn chamber_temperature_has_a_floor() {
    let temp = |tick: usize| at(tick, 1000).target(SensorEnum::ChamberTemperature);
    assert!(is_exactly(value_of(temp(0)), 273_000_000));
    assert!(is_exactly(value_of(temp(3)), 273_000_000));
    assert!(is_exactly(value_of(temp(4)), 280_000_000));
    assert!(is_exactly(value_of(temp(49)), 3_430_000_000));
    assert_eq!(temp(50), Target::Hold);
    assert_eq!(temp(300), Target::Hold);
    assert_eq!(temp(549), Target::Hold);
    assert!(is_exactly(value_of(temp(550)), 300_000_000));
    assert!(is_exactly(value_of(temp(775)), 387_500_000));
}

#[test]
fn pump_speed_is_pinned_at_its_floor() {
    for tick in 0..1000 {
        match at(tick, 1000).target(SensorEnum::TurboPumpRpm) {
            Target::Hold => {
                let phase = at(tick, 1000).phase();
                assert!(phase == Phase::MaxQ || phase == Phase::MainAscent);
            }
            Target::Value(r) => assert!(is_exactly(r, 1_000_000_000_000)),
            other => panic!("unexpected target {:?}", other),
        }
    }
}

#[test]
fn attitude_and_temperatures_by_phase() {
    let pitch = |tick: usize| at(tick, 1000).target(SensorEnum::PitchAngle);
    assert_eq!(pitch(10), Target::Hold);
    assert!(is_exactly(value_of(pitch(50)), 90_000_000));
    assert!(is_exactly(value_of(pitch(100)), 82_500_000));
    assert!(is_exactly(value_of(pitch(150)), 75_000_000));
    assert!(is_exactly(value_of(pitch(300)), 62_500_000));
    assert_eq!(pitch(450), Target::Hold);
    assert!(is_exactly(value_of(pitch(550)), 50_000_000));
    assert!(is_exactly(value_of(pitch(775)), 30_000_000));
    assert!(is_exactly(value_of(at(60, 1000).target(SensorEnum::PitchRate)), -300_000));
    assert!(is_exactly(value_of(at(200, 1000).target(SensorEnum::PitchRate)), -100_000));
    assert_eq!(at(600, 1000).target(SensorEnum::PitchRate), Target::Hold);
    assert!(is_exactly(value_of(at(25, 1000).target(SensorEnum::NozzleTemperature)), 1_750_000_000));
    assert!(is_exactly(value_of(at(100, 1000).target(SensorEnum::NozzleTemperature)), 1_650_000_000));
    assert_eq!(at(150, 1000).target(SensorEnum::NozzleTemperature), Target::Hold);
    assert!(is_exactly(value_of(at(25, 1000).target(SensorEnum::SpecificImpulse)), 150_000_000));
    assert!(is_exactly(value_of(at(775, 1000).target(SensorEnum::SpecificImpulse)), 7_500_000));
    assert!(is_exactly(value_of(at(100, 1000).target(SensorEnum::OxidizerFlowRate)), 225_000_000));
    assert!(is_exactly(value_of(at(100, 1000).target(SensorEnum::FuelFlowRate)), 45_000_000));
}

#[test]
fn vibration_by_phase() {
    let x = |tick: usize| at(tick, 1000).target(SensorEnum::VibrationX);
    let z = |tick: usize| at(tick, 1000).target(SensorEnum::VibrationZ);
    let f = |tick: usize| at(tick, 1000).target(SensorEnum::VibrationFreq);
    assert_eq!(
        x(10),
        Target::Buffet { base: Ratio { num: 0, den: 1_000_000 }, span: Ratio { num: 50_000, den: 1_000_000 } }
    );
    assert_eq!(
        z(10),
        Target::Buffet { base: Ratio { num: 0, den: 1_000_000 }, span: Ratio { num: 100_000, den: 1_000_000 } }
    );
    assert_eq!(
        f(10),
        Target::Buffet {
            base: Ratio { num: 20_000_000, den: 1_000_000 },
            span: Ratio { num: 5_000_000, den: 1_000_000 }
        }
    );
    assert_eq!(at(10, 1000).target(SensorEnum::VibrationY), x(10));
    assert!(is_exactly(value_of(x(100)), 1_200_000));
    assert!(is_exactly(value_of(z(100)), 1_800_000));
    assert!(is_exactly(value_of(f(100)), 84_000_000));
    assert!(is_exactly(value_of(x(300)), 250_000));
    assert!(is_exactly(value_of(z(300)), 375_000));
    assert!(is_exactly(value_of(f(300)), 60_000_000));
    assert!(is_exactly(value_of(x(475)), 250_000));
    assert!(is_exactly(value_of(f(475)), 20_000_000));
    assert!(is_exactly(value_of(x(500)), 0));
    assert!(is_exactly(value_of(x(505)), 3_000_000));
    assert!(is_exactly(value_of(z(505)), 5_000_000));
    assert!(is_exactly(value_of(f(505)), 100_000_000));
    assert!(is_exactly(value_of(x(510)), 0));
    assert!(is_exactly(value_of(x(775)), 250));
    assert!(is_exactly(value_of(z(775)), 750));
    assert!(is_exactly(value_of(f(775)), 750_000));
}

#[test]
fn accumulated_and_untouched_quantities() {
    for tick in [0usize, 100, 300, 500, 700, 999] {
        let p = at(tick, 1000);
        assert_eq!(p.target(SensorEnum::Velocity), Target::Integrate(SensorEnum::Acceleration));
        assert_eq!(p.target(SensorEnum::Altitude), Target::Integrate(SensorEnum::Velocity));
        assert_eq!(p.target(SensorEnum::Latitude), Target::Track);
        assert_eq!(p.target(SensorEnum::Longitude), Target::Track);
        for sensor in [
            SensorEnum::OxidizerPressure,
            SensorEnum::OxidizerTemperature,
            SensorEnum::FuelPressure,
            SensorEnum::FuelTemperature,
            SensorEnum::RollAngle,
            SensorEnum::YawAngle,
            SensorEnum::RollRate,
            SensorEnum::YawRate,
            SensorEnum::HealthStatus,
        ] {
            assert_eq!(p.target(sensor), Target::Hold);
        }
        let phase = value_of(p.target(SensorEnum::MissionPhase));
        assert!(is_exactly(phase, p.phase().index() as i128 * 1_000_000));
    }
}

#[test]
fn the_plan_is_the_same_whenever_it_is_asked() {
    for tick in [0usize, 49, 50, 500, 978] {
        for slot in 0..29 {
            let sensor = SensorEnum::from_slot(slot).unwrap();
            assert_eq!(at(tick, 1000).target(sensor), at(tick, 1000).target(sensor));
        }
    }
}

#[test]
fn engine_targets_are_never_negative() {
    for total in [1usize, 3, 20, 997, 1000] {
        for tick in 0..total {
            for sensor in [
                SensorEnum::Thrust,
                SensorEnum::ChamberPressure,
                SensorEnum::OxidizerFlowRate,
                SensorEnum::FuelFlowRate,
            ] {
                match at(tick, total).target(sensor) {
                    Target::Value(r) => assert!(r.den > 0 && r.num >= 0),
                    Target::Scaled(v, f) => assert!(v.den > 0 && v.num >= 0 && f.den > 0 && f.num >= 0),
                    other => panic!("unexpected target {:?}", other),
                }
            }
        }
    }
}

#[test]
fn lines_do_not_overflow_on_the_longest_runs() {
    let p = at(usize::MAX - 1, usize::MAX);
    match p.target(SensorEnum::ChamberPressure) {
        Target::Scaled(value, factor) => {
            assert!(value.den > 0 && factor.den > 0);
            assert!(as_number(value) > 249_999.0 && as_number(value) <= 250_000.0);
            assert!(as_number(factor) >= 0.0 && as_number(factor) < 1e-9);
        }
        other => panic!("unexpected target {:?}", other),
    }
}

#[test]
fn values_on_the_pad() {
    assert_eq!(as_number(initial_value(SensorEnum::ChamberTemperature)), 288.15);
    assert_eq!(as_number(initial_value(SensorEnum::NozzleTemperature)), 288.15);
    assert_eq!(as_number(initial_value(SensorEnum::OxidizerPressure)), 101_325.0);
    assert_eq!(as_number(initial_value(SensorEnum::FuelPressure)), 101_325.0);
    assert_eq!(as_number(initial_value(SensorEnum::PitchAngle)), 0.0001);
    assert_eq!(as_number(initial_value(SensorEnum::Latitude)), 28.5721);
    assert_eq!(as_number(initial_value(SensorEnum::Longitude)), -80.648);
    assert_eq!(as_number(initial_value(SensorEnum::HealthStatus)), 1.0);
    assert_eq!(as_number(initial_value(SensorEnum::Thrust)), 0.0);
    assert_eq!(as_number(initial_value(SensorEnum::Altitude)), 0.0);
    assert_eq!(as_number(initial_value(SensorEnum::TurboPumpRpm)), 0.0);
    assert_eq!(as_number(initial_value(SensorEnum::MissionPhase)), 0.0);
}

#[test]
fn draws_are_made_in_a_fixed_order() {
    assert_eq!(DRAW_COUNT, 19);
    assert_eq!(NoiseDraw::from_order(0), Some(NoiseDraw::Altitude));
    assert_eq!(NoiseDraw::from_order(1), Some(NoiseDraw::Pressure));
    assert_eq!(NoiseDraw::from_order(10), Some(NoiseDraw::NozzleTemperature));
    assert_eq!(NoiseDraw::from_order(14), Some(NoiseDraw::VibrationFreq));
    assert_eq!(NoiseDraw::from_order(18), Some(NoiseDraw::BuffetFreq));
    assert_eq!(NoiseDraw::from_order(19), None);
    for position in 0..DRAW_COUNT {
        assert_eq!(NoiseDraw::from_order(position).unwrap().order(), position);
    }
}

#[test]
fn laws_of_the_draws() {
    let micro = |n: i128| Ratio { num: n, den: 1_000_000 };
    assert_eq!(NoiseDraw::Pressure.distribution(), Distribution::Normal { std_dev: micro(1_000_000_000) });
    assert_eq!(NoiseDraw::Temperature.distribution(), Distribution::Normal { std_dev: micro(1_000_000) });
    assert_eq!(NoiseDraw::FlowRate.distribution(), Distribution::Normal { std_dev: micro(100_000) });
    assert_eq!(NoiseDraw::Altitude.distribution(), Distribution::Normal { std_dev: micro(10_000) });
    assert_eq!(NoiseDraw::VibrationY.distribution(), Distribution::Normal { std_dev: micro(10_000) });
    assert_eq!(
        NoiseDraw::TurboPumpRpm.distribution(),
        Distribution::Uniform { low: micro(-50_000_000), high: micro(50_000_000) }
    );
    assert_eq!(
        NoiseDraw::Thrust.distribution(),
        Distribution::Uniform { low: micro(-10_000_000), high: micro(100_000_000) }
    );
    assert_eq!(
        NoiseDraw::PitchAngle.distribution(),
        Distribution::Uniform { low: micro(-500_000), high: micro(500_000) }
    );
    assert_eq!(
        NoiseDraw::VibrationFreq.distribution(),
        Distribution::Uniform { low: micro(-5_000_000), high: micro(5_000_000) }
    );
    assert_eq!(
        NoiseDraw::BuffetZ.distribution(),
        Distribution::Uniform { low: micro(0), high: micro(1_000_000) }
    );
}

#[test]
fn correlated_channels_share_a_draw() {
    let chamber = SensorEnum::ChamberPressure.noise().unwrap();
    let oxidizer = SensorEnum::OxidizerPressure.noise().unwrap();
    let fuel = SensorEnum::FuelPressure.noise().unwrap();
    assert_eq!(chamber.draw, NoiseDraw::Pressure);
    assert_eq!(chamber, oxidizer);
    assert_eq!(chamber, fuel);
    assert_eq!(as_number(chamber.coefficient), 0.5);
    let cold = SensorEnum::ChamberTemperature.noise().unwrap();
    let warm = SensorEnum::FuelTemperature.noise().unwrap();
    assert_eq!(cold.draw, warm.draw);
    assert_eq!(as_number(cold.coefficient), 0.2);
    assert_eq!(as_number(warm.coefficient), 1.0);
    let nozzle = SensorEnum::NozzleTemperature.noise().unwrap();
    assert_eq!(nozzle.draw, NoiseDraw::NozzleTemperature);
    assert_eq!(as_number(nozzle.coefficient), 2.0);
    assert_eq!(SensorEnum::Latitude.noise(), SensorEnum::PitchAngle.noise());
    assert_eq!(SensorEnum::Longitude.noise(), SensorEnum::RollAngle.noise());
    assert_eq!(SensorEnum::OxidizerFlowRate.noise(), SensorEnum::FuelFlowRate.noise());
}

#[test]
fn some_channels_are_read_without_noise() {
    for sensor in [
        SensorEnum::Acceleration,
        SensorEnum::Velocity,
        SensorEnum::RollRate,
        SensorEnum::PitchRate,
        SensorEnum::YawRate,
        SensorEnum::HealthStatus,
        SensorEnum::MissionPhase,
    ] {
        assert_eq!(sensor.noise(), None);
    }
    let mut noisy = 0;
    for slot in 0..29 {
        if SensorEnum::from_slot(slot).unwrap().noise().is_some() {
            noisy += 1;
        }
    }
    assert_eq!(noisy, 22);
}

#[test]
fn only_vibration_buffets() {
    assert_eq!(SensorEnum::VibrationX.buffet(), Some(NoiseDraw::BuffetX));
    assert_eq!(SensorEnum::VibrationY.buffet(), Some(NoiseDraw::BuffetY));
    assert_eq!(SensorEnum::VibrationZ.buffet(), Some(NoiseDraw::BuffetZ));
    assert_eq!(SensorEnum::VibrationFreq.buffet(), Some(NoiseDraw::BuffetFreq));
    assert_eq!(SensorEnum::Thrust.buffet(), None);
    for slot in 0..29 {
        let sensor = SensorEnum::from_slot(slot).unwrap();
        let buffets = matches!(at(1, 1000).target(sensor), Target::Buffet { .. });
        assert_eq!(buffets, sensor.buffet().is_some());
    }
}

#[test]
fn accumulating_channels_come_after_what_they_integrate() {
    let order = accumulating_channels();
    assert_eq!(order, vec![SensorEnum::Velocity, SensorEnum::Altitude]);
    for tick in [0usize, 49, 50, 400, 510, 978] {
        let p = at(tick, 1000);
        let mut integrated = 0;
        for slot in 0..29 {
            let sensor = SensorEnum::from_slot(slot).unwrap();
            if let Target::Integrate(rate) = p.target(sensor) {
                integrated += 1;
                let own = order.iter().position(|s| *s == sensor).unwrap();
                match order.iter().position(|s| *s == rate) {
                    Some(earlier) => assert!(earlier < own),
                    None => assert!(!matches!(p.target(rate), Target::Integrate(_))),
                }
            }
        }
        assert_eq!(integrated, order.len());
    }
}
