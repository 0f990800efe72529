//! Run configuration, sample values, readings and the assembled dataset.

use super::sensor::{SensorEnum, CHANNEL_COUNT};
use crate::text::{decimal_digits, push_decimal, push_signed_decimal, signed_decimal_digits};
use vstd::arithmetic::div_mod::{lemma_div_is_ordered, lemma_multiply_divide_lt};
use vstd::prelude::*;
use vstd::string::StringExecFns;

verus! {

/// Parameters of one simulated flight.
#[derive(Debug)]
pub struct TelemetryConfig {
    /// Length of the flight in seconds.
    pub duration: usize,
    /// Ticks per second.
    pub sample_rate_hz: usize,
    /// Identifier of the launch.
    pub launch_id: String,
    /// Seed of the random stream that noise and jitter are drawn from.
    pub seed: u64,
    /// Upper limit on the number of data points that a caller wants reported.
    pub max_rows: Option<usize>,
    /// Standard deviation of the timestamp jitter in microseconds, as the bit
    /// pattern of an IEEE-754 binary64 number.
    pub timestamp_jitter: u64,
}

/// The result of rounding `tick * 1000 / sample_rate_hz` to the nearest whole
/// number, halves upwards: the milliseconds since launch at which tick `tick`
/// is taken.
pub open spec fn elapsed_ms_at(sample_rate_hz: int, tick: int) -> int {
    (2000 * tick + sample_rate_hz) / (2 * sample_rate_hz)
}

impl TelemetryConfig {
    /// Number of ticks in the run: `duration * sample_rate_hz`.
    pub open spec fn spec_total_readings(&self) -> int {
        self.duration * self.sample_rate_hz
    }

    /// Number of data points of the run, one per tick and channel, held down
    /// to `max_rows` where that is set.
    pub open spec fn spec_total_points(&self) -> int {
        let all = self.spec_total_readings() * CHANNEL_COUNT;
        match self.max_rows {
            Some(max) => if all <= max {
                all
            } else {
                max as int
            },
            None => all,
        }
    }

    /// The run is small enough for this machine: its data points can be
    /// counted in a `usize` and its length in milliseconds in a `u64`.
    pub open spec fn fits(&self) -> bool {
        &&& self.spec_total_readings() * CHANNEL_COUNT <= usize::MAX
        &&& self.duration * 1000 <= u64::MAX
    }

    /// Whether the run is small enough for this machine.
    pub fn is_valid(&self) -> (ok: bool)
        ensures
            ok == self.fits(),
    {
        let ticks: Option<usize> = self.duration.checked_mul(self.sample_rate_hz);
        let millis: Option<u64> = (self.duration as u64).checked_mul(1000);
        match ticks {
            Some(t) => t.checked_mul(CHANNEL_COUNT).is_some() && millis.is_some(),
            None => {
                assert(self.spec_total_readings() * CHANNEL_COUNT > usize::MAX) by (nonlinear_arith)
                    requires
                        self.spec_total_readings() > usize::MAX,
                        CHANNEL_COUNT == 29,
                ;
                false
            },
        }
    }

    /// Number of data points of the run, held down to `max_rows` where set.
    pub fn get_total_points(&self) -> (points: usize)
        requires
            self.spec_total_readings() * CHANNEL_COUNT <= usize::MAX,
        ensures
            points == self.spec_total_points(),
    {
        let ticks: usize = self.get_total_readings();
        let total_points: usize = ticks * CHANNEL_COUNT;
        match self.max_rows {
            Some(max) => if total_points <= max {
                total_points
            } else {
                max
            },
            None => total_points,
        }
    }

    /// Number of ticks in the run.
    pub fn get_total_readings(&self) -> (ticks: usize)
        requires
            self.spec_total_readings() <= usize::MAX,
        ensures
            ticks == self.spec_total_readings(),
    {
        self.duration * self.sample_rate_hz
    }

    /// Whether the run makes more data points than `max_rows` allows.
    pub open spec fn spec_exceeds_max_rows(&self) -> bool {
        match self.max_rows {
            Some(max) => self.spec_total_readings() * CHANNEL_COUNT > max,
            None => false,
        }
    }

    /// Whether the run makes more data points than `max_rows` allows.
    pub fn exceeds_max_rows(&self) -> (over: bool)
        requires
            self.spec_total_readings() * CHANNEL_COUNT <= usize::MAX,
        ensures
            over == self.spec_exceeds_max_rows(),
    {
        match self.max_rows {
            Some(max) => self.get_total_readings() * CHANNEL_COUNT > max,
            None => false,
        }
    }

    /// The name under which the run's files are written:
    /// `<launch_id>_<sample_rate_hz>hz_<duration>s`.
    pub open spec fn spec_output_name(&self) -> Seq<char> {
        self.launch_id@ + "_"@ + decimal_digits(self.sample_rate_hz as nat) + "hz_"@
            + decimal_digits(self.duration as nat) + "s"@
    }

    /// The name under which the run's files are written.
    pub fn output_name(&self) -> (name: String)
        ensures
            name@ == self.spec_output_name(),
    {
        let mut name: String = self.launch_id.clone();
        name.append("_");
        push_decimal(&mut name, self.sample_rate_hz as u64);
        name.append("hz_");
        push_decimal(&mut name, self.duration as u64);
        name.append("s");
        assert(name@ =~= self.spec_output_name());
        name
    }

    /// Milliseconds since launch at tick `tick`, rounded to the nearest whole
    /// millisecond.
    pub fn elapsed_ms(&self, tick: usize) -> (ms: u64)
        requires
            self.fits(),
            tick < self.spec_total_readings(),
        ensures
            ms == elapsed_ms_at(self.sample_rate_hz as int, tick as int),
    {
        proof {
            lemma_elapsed_ms_is_bounded(
                self.duration as int,
                self.sample_rate_hz as int,
                tick as int,
            );
        }
        let rate: u128 = self.sample_rate_hz as u128;
        let doubled: u128 = 2000 * (tick as u128) + rate;
        (doubled / (2 * rate)) as u64
    }
}

impl Clone for TelemetryConfig {
    fn clone(&self) -> (copy: TelemetryConfig)
        ensures
            copy == *self,
    {
        TelemetryConfig {
            duration: self.duration,
            sample_rate_hz: self.sample_rate_hz,
            launch_id: self.launch_id.clone(),
            seed: self.seed,
            max_rows: self.max_rows,
            timestamp_jitter: self.timestamp_jitter,
        }
    }
}

impl Default for TelemetryConfig {
    /// Two minutes at 10 kHz, seed 1337, no row limit, 25 microseconds of
    /// timestamp jitter.
    fn default() -> (config: TelemetryConfig)
        ensures
            config.duration == 120,
            config.sample_rate_hz == 10_000,
            config.launch_id@ == "eg_launch"@,
            config.seed == 1337,
            config.max_rows is None,
            config.timestamp_jitter == 0x4039_0000_0000_0000,
    {
        TelemetryConfig {
            duration: 120,
            sample_rate_hz: 10_000,
            launch_id: "eg_launch".to_owned(),
            seed: 1337,
            max_rows: None,
            timestamp_jitter: 0x4039_0000_0000_0000,
        }
    }
}

/// No tick of a run lies further from launch than the run is long, and a run
/// with a tick in it has a positive sample rate.
pub proof fn lemma_elapsed_ms_is_bounded(duration: int, sample_rate_hz: int, tick: int)
    requires
        0 <= duration,
        0 <= sample_rate_hz,
        0 <= tick < duration * sample_rate_hz,
    ensures
        sample_rate_hz > 0,
        0 <= elapsed_ms_at(sample_rate_hz, tick) <= duration * 1000,
{
    assert(sample_rate_hz > 0) by (nonlinear_arith)
        requires
            0 <= sample_rate_hz,
            0 <= duration * sample_rate_hz - 1,
    ;
    let top = 2000 * tick + sample_rate_hz;
    assert(top < (2 * sample_rate_hz) * (duration * 1000 + 1)) by (nonlinear_arith)
        requires
            top == 2000 * tick + sample_rate_hz,
            tick + 1 <= duration * sample_rate_hz,
            sample_rate_hz > 0,
    ;
    lemma_multiply_divide_lt(top, 2 * sample_rate_hz, duration * 1000 + 1);
    lemma_div_is_ordered(0, top, 2 * sample_rate_hz);
}

/// Time since launch never runs backwards from one tick to a later one.
pub proof fn lemma_elapsed_ms_is_monotonic(sample_rate_hz: int, earlier: int, later: int)
    requires
        sample_rate_hz > 0,
        earlier <= later,
    ensures
        elapsed_ms_at(sample_rate_hz, earlier) <= elapsed_ms_at(sample_rate_hz, later),
{
    lemma_div_is_ordered(
        2000 * earlier + sample_rate_hz,
        2000 * later + sample_rate_hz,
        2 * sample_rate_hz,
    );
}

/// A sample of one channel.
#[derive(Debug)]
pub enum SensorValue {
    /// A number, held as the bit pattern of an IEEE-754 binary64 value so that
    /// it passes through the library unchanged to the last bit.
    Float(u64),
    /// A text.
    String(String),
}

/// What a `SensorValue` stands for in contracts.
pub enum SensorValueView {
    Float(u64),
    String(Seq<char>),
}

impl View for SensorValue {
    type V = SensorValueView;

    open spec fn view(&self) -> SensorValueView {
        match self {
            SensorValue::Float(bits) => SensorValueView::Float(*bits),
            SensorValue::String(text) => SensorValueView::String(text@),
        }
    }
}

impl Clone for SensorValue {
    fn clone(&self) -> (copy: SensorValue)
        ensures
            copy@ == self@,
    {
        match self {
            SensorValue::Float(bits) => SensorValue::Float(*bits),
            SensorValue::String(text) => SensorValue::String(text.clone()),
        }
    }
}

impl SensorValue {
    /// Whether the sample is a number.
    pub fn is_float(&self) -> (b: bool)
        ensures
            b == (self@ is Float),
    {
        match self {
            SensorValue::Float(_) => true,
            SensorValue::String(_) => false,
        }
    }
}

/// One sample of one channel at one instant.
#[derive(Debug)]
pub struct TelemetryReading {
    /// When the sample was stamped, in nanoseconds since the Unix epoch.
    pub timestamp: i64,
    /// Milliseconds since launch of the tick that the sample belongs to.
    pub time_since_launch_ms: u64,
    /// The channel.
    pub sensor: SensorEnum,
    /// The sample.
    pub value: SensorValue,
}

/// What a `TelemetryReading` stands for in contracts.
pub struct ReadingView {
    pub timestamp: i64,
    pub time_since_launch_ms: u64,
    pub sensor: SensorEnum,
    pub value: SensorValueView,
}

impl View for TelemetryReading {
    type V = ReadingView;

    open spec fn view(&self) -> ReadingView {
        ReadingView {
            timestamp: self.timestamp,
            time_since_launch_ms: self.time_since_launch_ms,
            sensor: self.sensor,
            value: self.value@,
        }
    }
}

impl Clone for TelemetryReading {
    fn clone(&self) -> (copy: TelemetryReading)
        ensures
            copy@ == self@,
    {
        TelemetryReading {
            timestamp: self.timestamp,
            time_since_launch_ms: self.time_since_launch_ms,
            sensor: self.sensor,
            value: self.value.clone(),
        }
    }
}

/// What one character of a text becomes inside a quoted field: quotes and
/// backslashes get a backslash in front, every other character stays.
pub open spec fn escaped_char(c: char) -> Seq<char> {
    if c == '"' || c == '\\' {
        seq!['\\', c]
    } else {
        seq![c]
    }
}

/// A text with each of its characters escaped for a quoted field.
pub open spec fn escaped(text: Seq<char>) -> Seq<char>
    decreases text.len(),
{
    if text.len() == 0 {
        Seq::empty()
    } else {
        escaped(text.drop_last()) + escaped_char(text.last())
    }
}

/// How a sample is written as a field value: a number as the decimal text
/// `number` that the caller rendered for it, a text between double quotes with
/// its quotes and backslashes escaped.
pub open spec fn field_literal(value: SensorValueView, number: Seq<char>) -> Seq<char> {
    match value {
        SensorValueView::Float(_) => number,
        SensorValueView::String(text) => seq!['"'] + escaped(text) + seq!['"'],
    }
}

/// One reading as a line of the line protocol, without the line break:
/// the measurement, the channel's short code as the tag `sensor_type`, the
/// fields `value` and `time_since_launch_ms` (an unsigned integer), and the
/// timestamp in nanoseconds.
pub open spec fn line_protocol(
    measurement: Seq<char>,
    reading: ReadingView,
    number: Seq<char>,
) -> Seq<char> {
    measurement + ",sensor_type="@ + reading.sensor.spec_field_name() + " value="@ + field_literal(
        reading.value,
        number,
    ) + ",time_since_launch_ms="@ + decimal_digits(reading.time_since_launch_ms as nat) + "u "@
        + signed_decimal_digits(reading.timestamp as int)
}

/// Appends `text` to `out`, escaped for a quoted field.
fn push_escaped(out: &mut String, text: &str)
    ensures
        final(out)@ == old(out)@ + escaped(text@),
{
    broadcast use vstd::string::group_string_axioms;

    assert(out@ =~= old(out)@ + escaped(text@.subrange(0, 0)));
    for c in it: text.chars()
        invariant
            it.seq() == text@,
            out@ == old(out)@ + escaped(text@.subrange(0, it.index())),
    {
        let ghost before = out@;
        let ghost k = it.index();
        if c == '"' || c == '\\' {
            out.push('\\');
        }
        out.push(c);
        proof {
            let upto = text@.subrange(0, k + 1);
            assert(upto.drop_last() =~= text@.subrange(0, k));
            assert(upto.last() == c);
            assert(out@ =~= before + escaped_char(c));
            assert(out@ =~= old(out)@ + escaped(upto));
        }
    }
    assert(text@.subrange(0, text@.len() as int) =~= text@);
}

impl TelemetryReading {
    /// A reading of `sensor` stamped `timestamp`.
    pub fn new(timestamp: i64, time_since_launch_ms: u64, sensor: SensorEnum, value: SensorValue) -> (reading:
        TelemetryReading)
        ensures
            reading.timestamp == timestamp,
            reading.time_since_launch_ms == time_since_launch_ms,
            reading.sensor == sensor,
            reading.value == value,
    {
        TelemetryReading { timestamp, time_since_launch_ms, sensor, value }
    }

    /// The reading as one line of the line protocol, without the line break.
    ///
    /// `number` is the decimal text of the sample where the sample is a
    /// number; it is not looked at where the sample is a text.
    pub fn to_line_protocol(&self, measurement: &str, number: &str) -> (line: String)
        ensures
            line@ == line_protocol(measurement@, self@, number@),
    {
        let mut line: String = String::from_str(measurement);
        line.append(",sensor_type=");
        line.append(self.sensor.field_name());
        line.append(" value=");
        match &self.value {
            SensorValue::Float(_) => {
                line.append(number);
            },
            SensorValue::String(text) => {
                line.push('"');
                push_escaped(&mut line, text.as_str());
                line.push('"');
            },
        }
        line.append(",time_since_launch_ms=");
        push_decimal(&mut line, self.time_since_launch_ms);
        line.append("u ");
        push_signed_decimal(&mut line, self.timestamp);
        assert(line@ =~= line_protocol(measurement@, self@, number@));
        line
    }
}

/// The readings of one run with the configuration and launch time they were
/// made under.
#[derive(Debug)]
pub struct TelemetryDataset {
    /// The readings, in the order in which they were made.
    pub readings: Vec<TelemetryReading>,
    /// The configuration of the run.
    pub config: TelemetryConfig,
    /// The instant of launch, in nanoseconds since the Unix epoch.
    pub launch_time: i64,
}

/// The views of a sequence of readings.
pub open spec fn reading_views(readings: Seq<TelemetryReading>) -> Seq<ReadingView> {
    Seq::new(readings.len(), |i: int| readings[i]@)
}

/// What a `TelemetryDataset` stands for in contracts.
pub struct DatasetView {
    pub readings: Seq<ReadingView>,
    pub config: TelemetryConfig,
    pub launch_time: i64,
}

impl View for TelemetryDataset {
    type V = DatasetView;

    open spec fn view(&self) -> DatasetView {
        DatasetView {
            readings: reading_views(self.readings@),
            config: self.config,
            launch_time: self.launch_time,
        }
    }
}

} // verus!
