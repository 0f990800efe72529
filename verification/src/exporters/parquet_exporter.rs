//! The columnar batch: four columns, one row per reading.

use crate::models::telemetry::{ReadingView, SensorValue, SensorValueView, TelemetryDataset};
use crate::models::timestamp::{micros_of, timestamp_micros};
use vstd::prelude::*;
use vstd::string::StringExecFns;

verus! {

/// Turns a dataset into the columns of a columnar file.
pub struct ParquetExporter;

/// Why a dataset cannot be exported.
#[derive(Debug, Clone, Copy, PartialEq, Eq, Structural)]
pub enum ExportError {
    /// The reading at `index` carries a text, for which the columnar schema
    /// has no column.
    UnsupportedValue { index: usize },
}

/// The type of the values of a column.
#[derive(Debug, Clone, Copy, PartialEq, Eq, Structural)]
pub enum ColumnType {
    /// An instant with microsecond precision and no time zone.
    TimestampMicrosecond,
    /// An unsigned 64-bit integer.
    UInt64,
    /// A UTF-8 string.
    Utf8,
    /// An IEEE-754 binary64 number.
    Float64,
}

/// One column of the schema.
#[derive(Debug, Clone, Copy)]
pub struct ColumnSpec {
    pub name: &'static str,
    pub data_type: ColumnType,
    pub nullable: bool,
}

/// The four columns of a batch, each with one entry per reading.
#[derive(Debug)]
pub struct RecordColumns {
    /// Timestamps in microseconds since the Unix epoch.
    pub timestamp: Vec<i64>,
    /// Milliseconds since launch.
    pub time_since_launch_ms: Vec<u64>,
    /// Short codes of the channels.
    pub sensor_type: Vec<String>,
    /// Samples, as bit patterns of IEEE-754 binary64 numbers.
    pub value: Vec<u64>,
}

/// What a `RecordColumns` stands for in contracts.
pub struct RecordColumnsView {
    pub timestamp: Seq<i64>,
    pub time_since_launch_ms: Seq<u64>,
    pub sensor_type: Seq<Seq<char>>,
    pub value: Seq<u64>,
}

impl View for RecordColumns {
    type V = RecordColumnsView;

    open spec fn view(&self) -> RecordColumnsView {
        RecordColumnsView {
            timestamp: self.timestamp@,
            time_since_launch_ms: self.time_since_launch_ms@,
            sensor_type: Seq::new(self.sensor_type@.len(), |i: int| self.sensor_type@[i]@),
            value: self.value@,
        }
    }
}

/// A columnar file to be written at `path`.
#[derive(Debug)]
pub struct ParquetFile {
    pub path: String,
    pub batch: RecordColumns,
}

/// The bits of a numeric sample.
pub open spec fn float_bits(value: SensorValueView) -> u64 {
    match value {
        SensorValueView::Float(bits) => bits,
        SensorValueView::String(_) => 0,
    }
}

/// Position of the first reading that carries a text among the first `upto`
/// readings.
pub open spec fn first_text(readings: Seq<ReadingView>, upto: int) -> Option<int>
    decreases upto,
{
    if upto <= 0 {
        None
    } else {
        match first_text(readings, upto - 1) {
            Some(index) => Some(index),
            None => if readings[upto - 1].value is String {
                Some(upto - 1)
            } else {
                None
            },
        }
    }
}

/// The columns of a sequence of numeric readings: row `i` holds the
/// timestamp of reading `i` in whole microseconds, its time since launch, the
/// short code of its channel, and the bits of its sample, unchanged.
pub open spec fn columns_of(readings: Seq<ReadingView>) -> RecordColumnsView {
    RecordColumnsView {
        timestamp: Seq::new(readings.len(), |i: int| micros_of(readings[i].timestamp as int) as i64),
        time_since_launch_ms: Seq::new(readings.len(), |i: int| readings[i].time_since_launch_ms),
        sensor_type: Seq::new(readings.len(), |i: int| readings[i].sensor.spec_field_name()),
        value: Seq::new(readings.len(), |i: int| float_bits(readings[i].value)),
    }
}

/// Where the columnar file of a run goes.
pub open spec fn parquet_path(file_path: Seq<char>) -> Seq<char> {
    file_path + ".parquet"@
}

impl ParquetExporter {
    /// What to write for `dataset`.
    ///
    /// Nothing at all for a dataset without readings: no file is created.
    /// Otherwise the file's path and columns, unless a reading carries a
    /// text, which fails the export with the position of the first such
    /// reading.
    pub fn export(dataset: &TelemetryDataset, file_path: &str) -> (result: Result<
        Option<ParquetFile>,
        ExportError,
    >)
        ensures
            dataset.readings@.len() == 0 ==> result matches Ok(None),
            dataset.readings@.len() > 0 ==> match first_text(
                dataset@.readings,
                dataset.readings@.len() as int,
            ) {
                Some(index) => result == Err::<Option<ParquetFile>, ExportError>(
                    ExportError::UnsupportedValue { index: index as usize },
                ),
                None => result matches Ok(Some(file)) && file.path@ == parquet_path(file_path@)
                    && file.batch@ == columns_of(dataset@.readings),
            },
    {
        if dataset.readings.len() == 0 {
            return Ok(None);
        }
        match Self::convert_to_record_batch(dataset) {
            Ok(batch) => {
                let mut path: String = String::from_str(file_path);
                path.append(".parquet");
                Ok(Some(ParquetFile { path, batch }))
            },
            Err(error) => Err(error),
        }
    }

    /// The schema of the columnar file: four columns, none of them nullable.
    pub fn create_schema() -> (schema: Vec<ColumnSpec>)
        ensures
            schema@.len() == 4,
            schema@[0].name@ == "timestamp"@,
            schema@[0].data_type == ColumnType::TimestampMicrosecond,
            schema@[1].name@ == "time_since_launch_ms"@,
            schema@[1].data_type == ColumnType::UInt64,
            schema@[2].name@ == "sensor_type"@,
            schema@[2].data_type == ColumnType::Utf8,
            schema@[3].name@ == "value"@,
            schema@[3].data_type == ColumnType::Float64,
            forall|i: int| 0 <= i < 4 ==> !(#[trigger] schema@[i]).nullable,
    {
        vec![
            ColumnSpec {
                name: "timestamp",
                data_type: ColumnType::TimestampMicrosecond,
                nullable: false,
            },
            ColumnSpec { name: "time_since_launch_ms", data_type: ColumnType::UInt64, nullable: false },
            ColumnSpec { name: "sensor_type", data_type: ColumnType::Utf8, nullable: false },
            ColumnSpec { name: "value", data_type: ColumnType::Float64, nullable: false },
        ]
    }

    /// The columns of `dataset`, or the position of its first reading that
    /// carries a text.
    pub fn convert_to_record_batch(dataset: &TelemetryDataset) -> (result: Result<
        RecordColumns,
        ExportError,
    >)
        ensures
            match first_text(dataset@.readings, dataset.readings@.len() as int) {
                Some(index) => result == Err::<RecordColumns, ExportError>(
                    ExportError::UnsupportedValue { index: index as usize },
                ),
                None => result matches Ok(columns) && columns@ == columns_of(
                    dataset@.readings,
                ),
            },
    {
        let total: usize = dataset.readings.len();
        let ghost readings = dataset@.readings;
        let mut timestamp: Vec<i64> = Vec::with_capacity(total);
        let mut time_since_launch_ms: Vec<u64> = Vec::with_capacity(total);
        let mut sensor_type: Vec<String> = Vec::with_capacity(total);
        let mut value: Vec<u64> = Vec::with_capacity(total);
        let mut i: usize = 0;
        while i < total
            invariant
                i <= total,
                total == dataset.readings@.len(),
                readings == dataset@.readings,
                first_text(readings, i as int) is None,
                timestamp@.len() == i,
                time_since_launch_ms@.len() == i,
                sensor_type@.len() == i,
                value@.len() == i,
                forall|k: int|
                    0 <= k < i ==> #[trigger] timestamp@[k] == micros_of(
                        readings[k].timestamp as int,
                    ),
                forall|k: int|
                    0 <= k < i ==> #[trigger] time_since_launch_ms@[k]
                        == readings[k].time_since_launch_ms,
                forall|k: int|
                    0 <= k < i ==> (#[trigger] sensor_type@[k])@
                        == readings[k].sensor.spec_field_name(),
                forall|k: int| 0 <= k < i ==> #[trigger] value@[k] == float_bits(readings[k].value),
            decreases total - i,
        {
            let reading = &dataset.readings[i];
            let bits: u64 = match &reading.value {
                SensorValue::Float(bits) => *bits,
                SensorValue::String(_) => {
                    proof {
                        lemma_first_text_stays(readings, i + 1, total as int);
                    }
                    return Err(ExportError::UnsupportedValue { index: i });
                },
            };
            timestamp.push(timestamp_micros(reading.timestamp));
            time_since_launch_ms.push(reading.time_since_launch_ms);
            sensor_type.push(String::from_str(reading.sensor.field_name()));
            value.push(bits);
            i = i + 1;
        }
        let columns = RecordColumns { timestamp, time_since_launch_ms, sensor_type, value };
        assert(columns@.timestamp =~= columns_of(readings).timestamp);
        assert(columns@.time_since_launch_ms =~= columns_of(readings).time_since_launch_ms);
        assert(columns@.sensor_type =~= columns_of(readings).sensor_type);
        assert(columns@.value =~= columns_of(readings).value);
        Ok(columns)
    }
}

/// Once a reading with a text is found, looking at further readings does not
/// change which one is reported.
pub proof fn lemma_first_text_stays(readings: Seq<ReadingView>, seen: int, upto: int)
    requires
        seen <= upto,
        first_text(readings, seen) is Some,
    ensures
        first_text(readings, upto) == first_text(readings, seen),
    decreases upto - seen,
{
    if seen < upto {
        lemma_first_text_stays(readings, seen, upto - 1);
    }
}

/// `first_text` finds the first reading that carries a text: that reading
/// carries one and none before it does; it finds nothing exactly when every
/// reading is numeric.
pub proof fn lemma_first_text_is_first(readings: Seq<ReadingView>, upto: int)
    requires
        0 <= upto <= readings.len(),
    ensures
        match first_text(readings, upto) {
            Some(index) => {
                &&& 0 <= index < upto
                &&& readings[index].value is String
                &&& forall|k: int| 0 <= k < index ==> (#[trigger] readings[k]).value is Float
            },
            None => forall|k: int| 0 <= k < upto ==> (#[trigger] readings[k]).value is Float,
        },
    decreases upto,
{
    if upto > 0 {
        lemma_first_text_is_first(readings, upto - 1);
    }
}

} // verus!
