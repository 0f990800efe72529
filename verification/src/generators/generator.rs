//! Fan-out of one tick into its readings, and assembly of a run's dataset.
//!
//! The physical model and the random draws produce, for every tick, one
//! sample and one timestamp jitter per channel. Everything from there on is
//! exact: which channel a sample belongs to, the time since launch of its tick,
//! its timestamp, and its place in the dataset.

use crate::models::sensor::{SensorEnum, CHANNEL_COUNT};
use crate::models::telemetry::{
    elapsed_ms_at, lemma_elapsed_ms_is_bounded, lemma_elapsed_ms_is_monotonic, reading_views,
    ReadingView, SensorValue, SensorValueView, TelemetryConfig, TelemetryDataset,
    TelemetryReading,
};
use crate::models::timestamp::{
    after_millis, is_finite_bits, plus_micros, plus_millis, representable, TimestampJitter,
};
use vstd::prelude::*;

verus! {

/// What the model and the random stream yield for one tick.
#[derive(Debug)]
pub struct TickSamples {
    /// One sample per channel, in the order of emission.
    pub values: Vec<SensorValue>,
    /// The timestamp jitter drawn for each of those readings, in microseconds.
    pub jitter_micros: Vec<i64>,
}

/// What a `TickSamples` stands for in contracts.
pub struct TickSamplesView {
    pub values: Seq<SensorValueView>,
    pub jitter_micros: Seq<i64>,
}

impl View for TickSamples {
    type V = TickSamplesView;

    open spec fn view(&self) -> TickSamplesView {
        TickSamplesView {
            values: Seq::new(self.values@.len(), |i: int| self.values@[i]@),
            jitter_micros: self.jitter_micros@,
        }
    }
}

/// The views of the samples of a run, tick by tick.
pub open spec fn sample_views(samples: Seq<TickSamples>) -> Seq<TickSamplesView> {
    Seq::new(samples.len(), |i: int| samples[i]@)
}

/// Why a run could not be assembled.
#[derive(Debug, Clone, Copy, PartialEq, Eq, Structural)]
pub enum GenerateError {
    /// The run is too large for this machine.
    RunTooLarge,
    /// The standard deviation of the timestamp jitter is not a finite number.
    JitterNotFinite,
    /// Samples were handed in for another number of ticks than the run has.
    WrongTickCount { expected: usize, found: usize },
    /// The samples or jitters of a tick do not number one per channel.
    WrongChannelCount { tick: usize },
    /// A timestamp of a tick, nominal or jittered, lies outside the span that
    /// nanoseconds in an `i64` can hold, the years 1677 to 2262.
    TimestampOutOfRange { tick: usize },
}

/// The timestamp of a reading: launch time plus the time since launch of its
/// tick, moved by its jitter. `None` where the nominal instant or the jittered
/// one cannot be represented.
pub open spec fn stamped(launch_time: i64, elapsed_ms: u64, jitter_micros: i64) -> Option<i64> {
    let nominal = plus_millis(launch_time as int, elapsed_ms as int);
    let jittered = plus_micros(nominal, jitter_micros as int);
    if representable(nominal) && representable(jittered) {
        Some(jittered as i64)
    } else {
        None
    }
}

/// What is wrong with the samples of tick `tick`, if anything.
pub open spec fn tick_fault(
    config: TelemetryConfig,
    launch_time: i64,
    tick: int,
    samples: TickSamplesView,
) -> Option<GenerateError> {
    let elapsed = elapsed_ms_at(config.sample_rate_hz as int, tick) as u64;
    if samples.values.len() != CHANNEL_COUNT || samples.jitter_micros.len() != CHANNEL_COUNT {
        Some(GenerateError::WrongChannelCount { tick: tick as usize })
    } else if exists|slot: int|
        0 <= slot < CHANNEL_COUNT && (#[trigger] stamped(
            launch_time,
            elapsed,
            samples.jitter_micros[slot],
        )) is None {
        Some(GenerateError::TimestampOutOfRange { tick: tick as usize })
    } else {
        None
    }
}

/// The fault of the first faulty tick among the first `upto` ticks.
pub open spec fn first_fault(
    config: TelemetryConfig,
    launch_time: i64,
    samples: Seq<TickSamplesView>,
    upto: int,
) -> Option<GenerateError>
    decreases upto,
{
    if upto <= 0 {
        None
    } else {
        match first_fault(config, launch_time, samples, upto - 1) {
            Some(fault) => Some(fault),
            None => tick_fault(config, launch_time, upto - 1, samples[upto - 1]),
        }
    }
}

/// The reading at position `slot` of tick `tick`.
pub open spec fn reading_of(
    config: TelemetryConfig,
    launch_time: i64,
    tick: int,
    slot: int,
    samples: TickSamplesView,
) -> ReadingView {
    let elapsed = elapsed_ms_at(config.sample_rate_hz as int, tick) as u64;
    ReadingView {
        timestamp: stamped(launch_time, elapsed, samples.jitter_micros[slot])->0,
        time_since_launch_ms: elapsed,
        sensor: SensorEnum::at_slot(slot),
        value: samples.values[slot],
    }
}

/// The readings of tick `tick`: one per channel, in the order of emission.
pub open spec fn tick_readings(
    config: TelemetryConfig,
    launch_time: i64,
    tick: int,
    samples: TickSamplesView,
) -> Seq<ReadingView> {
    Seq::new(
        CHANNEL_COUNT as nat,
        |slot: int| reading_of(config, launch_time, tick, slot, samples),
    )
}

/// The readings of the first `ticks` ticks of a run: tick after tick, and
/// within a tick channel after channel.
pub open spec fn run_readings(
    config: TelemetryConfig,
    launch_time: i64,
    samples: Seq<TickSamplesView>,
    ticks: int,
) -> Seq<ReadingView> {
    Seq::new(
        (ticks * CHANNEL_COUNT) as nat,
        |k: int|
            reading_of(
                config,
                launch_time,
                k / (CHANNEL_COUNT as int),
                k % (CHANNEL_COUNT as int),
                samples[k / (CHANNEL_COUNT as int)],
            ),
    )
}

/// What a run yields: its readings, or the reason why there are none. A run
/// without ticks yields no readings, whatever else its configuration holds and
/// whatever samples are handed in.
pub open spec fn generation_outcome(
    config: TelemetryConfig,
    launch_time: i64,
    samples: Seq<TickSamplesView>,
) -> Result<Seq<ReadingView>, GenerateError> {
    let ticks = config.spec_total_readings();
    if ticks == 0 {
        Ok(Seq::empty())
    } else if !config.fits() {
        Err(GenerateError::RunTooLarge)
    } else if !is_finite_bits(config.timestamp_jitter) {
        Err(GenerateError::JitterNotFinite)
    } else if samples.len() != ticks {
        Err(
            GenerateError::WrongTickCount {
                expected: ticks as usize,
                found: samples.len() as usize,
            },
        )
    } else {
        match first_fault(config, launch_time, samples, ticks) {
            Some(fault) => Err(fault),
            None => Ok(run_readings(config, launch_time, samples, ticks)),
        }
    }
}

/// Time since launch never decreases along the readings.
pub open spec fn elapsed_never_decreases(readings: Seq<ReadingView>) -> bool {
    forall|i: int, j: int|
        0 <= i <= j < readings.len() ==> readings[i].time_since_launch_ms
            <= readings[j].time_since_launch_ms
}

/// Assembles the dataset of a run from the samples of its ticks.
#[derive(Debug)]
pub struct TelemetryGenerator {
    config: TelemetryConfig,
}

impl TelemetryGenerator {
    /// The configuration of the run.
    pub closed spec fn spec_config(&self) -> TelemetryConfig {
        self.config
    }

    /// A generator for the run that `config` describes.
    pub fn new(config: TelemetryConfig) -> (generator: TelemetryGenerator)
        ensures
            generator.spec_config() == config,
    {
        TelemetryGenerator { config }
    }

    /// The configuration of the run.
    pub fn config(&self) -> (config: &TelemetryConfig)
        ensures
            *config == self.spec_config(),
    {
        &self.config
    }

    /// The readings of tick `tick`: one per channel in the order of emission,
    /// each with the tick's time since launch and its own jittered timestamp.
    pub fn fan_out(
        &self,
        jitter: &TimestampJitter,
        launch_time: i64,
        tick: usize,
        samples: &TickSamples,
    ) -> (result: Result<Vec<TelemetryReading>, GenerateError>)
        requires
            self.spec_config().fits(),
            tick < self.spec_config().spec_total_readings(),
        ensures
            match result {
                Ok(readings) => tick_fault(self.spec_config(), launch_time, tick as int, samples@)
                    is None && reading_views(readings@) == tick_readings(
                    self.spec_config(),
                    launch_time,
                    tick as int,
                    samples@,
                ),
                Err(fault) => tick_fault(self.spec_config(), launch_time, tick as int, samples@)
                    == Some(fault),
            },
    {
        if samples.values.len() != CHANNEL_COUNT || samples.jitter_micros.len() != CHANNEL_COUNT {
            return Err(GenerateError::WrongChannelCount { tick });
        }
        let elapsed: u64 = self.config.elapsed_ms(tick);
        let nominal: i64 = match after_millis(launch_time, elapsed) {
            Some(t) => t,
            None => {
                assert(stamped(launch_time, elapsed, samples@.jitter_micros[0]) is None);
                return Err(GenerateError::TimestampOutOfRange { tick });
            },
        };
        let mut readings: Vec<TelemetryReading> = Vec::with_capacity(CHANNEL_COUNT);
        let mut slot: usize = 0;
        while slot < CHANNEL_COUNT
            invariant
                slot <= CHANNEL_COUNT,
                samples.values.len() == CHANNEL_COUNT,
                samples.jitter_micros.len() == CHANNEL_COUNT,
                elapsed == elapsed_ms_at(self.spec_config().sample_rate_hz as int, tick as int),
                nominal == plus_millis(launch_time as int, elapsed as int),
                readings.len() == slot,
                forall|s: int|
                    0 <= s < slot ==> (#[trigger] stamped(
                        launch_time,
                        elapsed,
                        samples@.jitter_micros[s],
                    )) is Some,
                forall|s: int|
                    0 <= s < slot ==> (#[trigger] readings[s])@ == reading_of(
                        self.spec_config(),
                        launch_time,
                        tick as int,
                        s,
                        samples@,
                    ),
            decreases CHANNEL_COUNT - slot,
        {
            let timestamp: i64 = match jitter.apply(nominal, samples.jitter_micros[slot]) {
                Some(t) => t,
                None => {
                    assert(stamped(launch_time, elapsed, samples@.jitter_micros[slot as int])
                        is None);
                    return Err(GenerateError::TimestampOutOfRange { tick });
                },
            };
            let sensor: SensorEnum = SensorEnum::from_slot(slot).unwrap();
            let value: SensorValue = samples.values[slot].clone();
            readings.push(TelemetryReading::new(timestamp, elapsed, sensor, value));
            slot = slot + 1;
        }
        assert(reading_views(readings@) =~= tick_readings(
            self.spec_config(),
            launch_time,
            tick as int,
            samples@,
        ));
        Ok(readings)
    }

    /// The dataset of the whole run.
    ///
    /// `samples` holds the samples of every tick, first tick first. The
    /// dataset has one reading per tick and channel. A run of no ticks gives
    /// the empty dataset at once: nothing else of the configuration and
    /// nothing of `samples` is looked at. `max_rows` of the configuration does
    /// not shorten a run.
    pub fn generate(&self, launch_time: i64, samples: &Vec<TickSamples>) -> (result: Result<
        TelemetryDataset,
        GenerateError,
    >)
        ensures
            match result {
                Ok(dataset) => {
                    &&& generation_outcome(
                        self.spec_config(),
                        launch_time,
                        sample_views(samples@),
                    ) == Ok::<Seq<ReadingView>, GenerateError>(dataset@.readings)
                    &&& dataset@.config == self.spec_config()
                    &&& dataset@.launch_time == launch_time
                    &&& dataset.readings.len() == self.spec_config().spec_total_readings()
                        * CHANNEL_COUNT
                    &&& self.spec_config().spec_total_readings() == 0 ==> dataset@.readings
                        == Seq::<ReadingView>::empty()
                    &&& elapsed_never_decreases(dataset@.readings)
                },
                Err(fault) => generation_outcome(
                    self.spec_config(),
                    launch_time,
                    sample_views(samples@),
                ) == Err::<Seq<ReadingView>, GenerateError>(fault),
            },
    {
        if self.config.duration == 0 || self.config.sample_rate_hz == 0 {
            assert(self.config.duration * self.config.sample_rate_hz == 0) by (nonlinear_arith)
                requires
                    self.config.duration == 0 || self.config.sample_rate_hz == 0,
            ;
            let readings: Vec<TelemetryReading> = Vec::new();
            assert(reading_views(readings@) =~= Seq::<ReadingView>::empty());
            return Ok(TelemetryDataset { readings, config: self.config.clone(), launch_time });
        }
        assert(self.config.duration * self.config.sample_rate_hz > 0) by (nonlinear_arith)
            requires
                self.config.duration > 0,
                self.config.sample_rate_hz > 0,
        ;
        if !self.config.is_valid() {
            return Err(GenerateError::RunTooLarge);
        }
        let jitter: TimestampJitter = match TimestampJitter::new(self.config.timestamp_jitter) {
            Some(jitter) => jitter,
            None => {
                return Err(GenerateError::JitterNotFinite);
            },
        };
        let ticks: usize = self.config.get_total_readings();
        if samples.len() != ticks {
            return Err(GenerateError::WrongTickCount { expected: ticks, found: samples.len() });
        }
        let ghost views = sample_views(samples@);
        let mut readings: Vec<TelemetryReading> = Vec::with_capacity(ticks * CHANNEL_COUNT);
        let mut tick: usize = 0;
        while tick < ticks
            invariant
                tick <= ticks,
                ticks == self.spec_config().spec_total_readings(),
                samples.len() == ticks,
                self.spec_config().fits(),
                is_finite_bits(self.spec_config().timestamp_jitter),
                views == sample_views(samples@),
                first_fault(self.spec_config(), launch_time, views, tick as int) is None,
                reading_views(readings@) == run_readings(
                    self.spec_config(),
                    launch_time,
                    views,
                    tick as int,
                ),
            decreases ticks - tick,
        {
            let ghost before = reading_views(readings@);
            match self.fan_out(&jitter, launch_time, tick, &samples[tick]) {
                Ok(mut more) => {
                    let ghost added = reading_views(more@);
                    readings.append(&mut more);
                    assert(reading_views(readings@) =~= before + added);
                    assert(before + added =~= run_readings(
                        self.spec_config(),
                        launch_time,
                        views,
                        tick + 1,
                    ));
                },
                Err(fault) => {
                    proof {
                        lemma_fault_stays_first(
                            self.spec_config(),
                            launch_time,
                            views,
                            tick + 1,
                            ticks as int,
                        );
                    }
                    return Err(fault);
                },
            }
            tick = tick + 1;
        }
        proof {
            lemma_elapsed_never_decreases(self.spec_config(), launch_time, views, ticks as int);
        }
        Ok(TelemetryDataset { readings, config: self.config.clone(), launch_time })
    }
}

/// Once a tick is faulty, looking at further ticks does not change which
/// fault is reported.
pub proof fn lemma_fault_stays_first(
    config: TelemetryConfig,
    launch_time: i64,
    samples: Seq<TickSamplesView>,
    seen: int,
    upto: int,
)
    requires
        seen <= upto,
        first_fault(config, launch_time, samples, seen) is Some,
    ensures
        first_fault(config, launch_time, samples, upto) == first_fault(
            config,
            launch_time,
            samples,
            seen,
        ),
    decreases upto - seen,
{
    if seen < upto {
        lemma_fault_stays_first(config, launch_time, samples, seen, upto - 1);
    }
}

/// Time since launch is non-decreasing along the readings of a run, whatever
/// the jitter of the timestamps.
pub proof fn lemma_elapsed_never_decreases(
    config: TelemetryConfig,
    launch_time: i64,
    samples: Seq<TickSamplesView>,
    ticks: int,
)
    requires
        config.fits(),
        0 <= ticks <= config.spec_total_readings(),
    ensures
        elapsed_never_decreases(run_readings(config, launch_time, samples, ticks)),
{
    let readings = run_readings(config, launch_time, samples, ticks);
    let rate = config.sample_rate_hz as int;
    assert forall|i: int, j: int| 0 <= i <= j < readings.len() implies readings[i].time_since_launch_ms
        <= readings[j].time_since_launch_ms by {
        let earlier = i / (CHANNEL_COUNT as int);
        let later = j / (CHANNEL_COUNT as int);
        lemma_elapsed_ms_is_bounded(config.duration as int, rate, earlier);
        lemma_elapsed_ms_is_bounded(config.duration as int, rate, later);
        lemma_elapsed_ms_is_monotonic(rate, earlier, later);
    }
}

/// A run has one reading per tick and channel, and a run without ticks has
/// none.
pub proof fn lemma_one_reading_per_tick_and_channel(
    config: TelemetryConfig,
    launch_time: i64,
    samples: Seq<TickSamplesView>,
)
    requires
        generation_outcome(config, launch_time, samples) is Ok,
    ensures
        generation_outcome(config, launch_time, samples)->Ok_0.len() == config.duration
            * config.sample_rate_hz * CHANNEL_COUNT,
        config.duration * config.sample_rate_hz == 0 ==> generation_outcome(
            config,
            launch_time,
            samples,
        )->Ok_0 == Seq::<ReadingView>::empty(),
{
    let readings = generation_outcome(config, launch_time, samples)->Ok_0;
    if config.duration * config.sample_rate_hz == 0 {
        assert(readings =~= Seq::<ReadingView>::empty());
    }
}

/// Runs are reproducible: the same configuration on the same samples gives
/// the same channels, the same values and the same times since launch in the
/// same order, whenever it is launched; launched at the same instant it gives
/// the same readings altogether.
pub proof fn lemma_runs_are_reproducible(
    config: TelemetryConfig,
    launch_a: i64,
    launch_b: i64,
    samples: Seq<TickSamplesView>,
)
    requires
        generation_outcome(config, launch_a, samples) is Ok,
        generation_outcome(config, launch_b, samples) is Ok,
    ensures
        ({
            let a = generation_outcome(config, launch_a, samples)->Ok_0;
            let b = generation_outcome(config, launch_b, samples)->Ok_0;
            &&& a.len() == b.len()
            &&& forall|k: int|
                0 <= k < a.len() ==> {
                    &&& (#[trigger] a[k]).sensor == b[k].sensor
                    &&& a[k].value == b[k].value
                    &&& a[k].time_since_launch_ms == b[k].time_since_launch_ms
                }
            &&& launch_a == launch_b ==> a == b
        }),
{
}

} // verus!
