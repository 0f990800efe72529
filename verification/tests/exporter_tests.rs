use telemetry_generator::exporters::csv_exporter::CsvMetadataExporter;
use telemetry_generator::exporters::influxdb_exporter::{
    Batch, BatchFailure, ExportStep, InfluxDBConfig, InfluxDBExporter,
};
use telemetry_generator::exporters::parquet_exporter::{ColumnType, ExportError, ParquetExporter};
use telemetry_generator::models::sensor::SensorEnum;
use telemetry_generator::models::telemetry::{
    SensorValue, TelemetryConfig, TelemetryDataset, TelemetryReading,
};

const LAUNCH: i64 = 1_700_000_000_123_456_789;

fn reading_number(k: usize) -> TelemetryReading {
    TelemetryReading::new(
        LAUNCH + k as i64 * 1_000_000 + 999,
        (k / 29) as u64 * 100,
        SensorEnum::from_slot(k % 29).unwrap(),
        SensorValue::Float((k as f64 * 0.1 - 3.0).to_bits()),
    )
}

fn dataset_of(readings: usize) -> TelemetryDataset {
    TelemetryDataset {
        readings: (0..readings).map(reading_number).collect(),
        config: TelemetryConfig {
            duration: 1,
            sample_rate_hz: 10,
            launch_id: String::from("SIM-001"),
            seed: 42,
            max_rows: None,
            timestamp_jitter: 25.0f64.to_bits(),
        },
        launch_time: LAUNCH,
    }
}

fn exporter_with_batches_of(batch_size: usize) -> InfluxDBExporter {
    InfluxDBExporter::new(InfluxDBConfig { batch_size, ..InfluxDBConfig::default() })
}

/// Drives an export against a store that rejects the write number `failing`,
/// and returns the batches submitted and the last step.
fn drive(exporter: &InfluxDBExporter, dataset: &TelemetryDataset, failing: Option<usize>) -> (Vec<Batch>, ExportStep) {
    let mut submitted = Vec::new();
    let mut step = exporter.export(dataset);
    while let ExportStep::Submit(batch) = step {
        submitted.push(batch);
        let accepted = failing != Some(submitted.len() - 1);
        step = exporter.advance(dataset, batch, accepted);
    }
    (submitted, step)
}

const HEADER: &str = "launch_id,launch_time,time_since_launch_ms,vehicle_type,engine_type,sample_rate_hz\n";

#[test]
fn metadata_of_an_empty_dataset_is_the_header_alone() {
    let file = CsvMetadataExporter::export(&dataset_of(0), "run");
    assert_eq!(file.path, "output/run.metadata.csv");
    assert_eq!(file.contents, HEADER);
    assert_eq!(CsvMetadataExporter::render(&dataset_of(0), "whenever"), HEADER);
}

#[test]
fn an_empty_dataset_writes_no_columnar_file_but_a_header() {
    let dataset = dataset_of(0);
    assert!(matches!(ParquetExporter::export(&dataset, "run"), Ok(None)));
    let file = CsvMetadataExporter::export(&dataset, "run");
    assert_eq!(file.contents, HEADER);
    assert_eq!(file.contents.lines().count(), 1);
}

#[test]
fn metadata_has_one_row_from_the_first_reading() {
    let mut dataset = dataset_of(290);
    dataset.readings[0].time_since_launch_ms = 7;
    let contents = CsvMetadataExporter::render(&dataset, "2023-11-14 22:13:20 UTC");
    assert_eq!(
        contents,
        format!("{}SIM-001,2023-11-14 22:13:20 UTC,7,Kerbal,Narwhal,10\n", HEADER)
    );
    assert_eq!(contents.lines().count(), 2);
}

#[test]
fn metadata_shows_the_launch_time_as_chrono_does() {
    let file = CsvMetadataExporter::export(&dataset_of(29), "SIM-001_10hz_1s");
    assert_eq!(file.path, "output/SIM-001_10hz_1s.metadata.csv");
    assert_eq!(
        file.contents,
        format!("{}SIM-001,2023-11-14 22:13:20.123456789 UTC,0,Kerbal,Narwhal,10\n", HEADER)
    );
    let mut dataset = dataset_of(1);
    for launch in [0i64, 1_500_000, -1, 1_000_000_000, i64::MAX, i64::MIN] {
        dataset.launch_time = launch;
        let expected = chrono::DateTime::from_timestamp_nanos(launch).to_string();
        let file = CsvMetadataExporter::export(&dataset, "x");
        assert_eq!(file.contents, format!("{}SIM-001,{},0,Kerbal,Narwhal,10\n", HEADER, expected));
    }
    dataset.launch_time = 0;
    assert!(CsvMetadataExporter::export(&dataset, "x").contents.contains(",1970-01-01 00:00:00 UTC,"));
}

#[test]
fn columnar_schema() {
    let schema = ParquetExporter::create_schema();
    assert_eq!(schema.len(), 4);
    assert_eq!(schema[0].name, "timestamp");
    assert_eq!(schema[0].data_type, ColumnType::TimestampMicrosecond);
    assert_eq!(schema[1].name, "time_since_launch_ms");
    assert_eq!(schema[1].data_type, ColumnType::UInt64);
    assert_eq!(schema[2].name, "sensor_type");
    assert_eq!(schema[2].data_type, ColumnType::Utf8);
    assert_eq!(schema[3].name, "value");
    assert_eq!(schema[3].data_type, ColumnType::Float64);
    assert!(schema.iter().all(|column| !column.nullable));
}

#[test]
fn columns_hold_one_row_per_reading() {
    let dataset = dataset_of(60);
    let columns = ParquetExporter::convert_to_record_batch(&dataset).unwrap();
    assert_eq!(columns.timestamp.len(), 60);
    assert_eq!(columns.time_since_launch_ms.len(), 60);
    assert_eq!(columns.sensor_type.len(), 60);
    assert_eq!(columns.value.len(), 60);
    for k in 0..60 {
        assert_eq!(columns.timestamp[k], 1_700_000_000_123_456 + k as i64 * 1_000 + 1);
        assert_eq!(columns.time_since_launch_ms[k], (k / 29) as u64 * 100);
        assert_eq!(columns.sensor_type[k], SensorEnum::from_slot(k % 29).unwrap().field_name());
    }
    assert_eq!(columns.sensor_type[0], "acc");
    assert_eq!(columns.sensor_type[12], "Trst");
    assert_eq!(columns.time_since_launch_ms[58], 200);
}

#[test]
fn columnar_values_are_the_samples_bit_for_bit() {
    let mut dataset = dataset_of(6);
    let samples = [0.1f64 + 0.2, -0.0, f64::MIN_POSITIVE, 1e300, -9.81, f64::EPSILON];
    for (reading, sample) in dataset.readings.iter_mut().zip(samples.iter()) {
        reading.value = SensorValue::Float(sample.to_bits());
    }
    let columns = ParquetExporter::convert_to_record_batch(&dataset).unwrap();
    for (bits, sample) in columns.value.iter().zip(samples.iter()) {
        assert_eq!(*bits, sample.to_bits());
        assert_eq!(f64::from_bits(*bits).to_bits(), sample.to_bits());
    }
    assert_eq!(f64::from_bits(columns.value[0]), 0.30000000000000004);
}

#[test]
fn columnar_timestamps_before_the_epoch_round_towards_the_past() {
    let mut dataset = dataset_of(2);
    dataset.readings[0].timestamp = -1;
    dataset.readings[1].timestamp = -1_000;
    let columns = ParquetExporter::convert_to_record_batch(&dataset).unwrap();
    assert_eq!(columns.timestamp, vec![-1, -1]);
}

#[test]
fn columnar_export_names_its_file() {
    match ParquetExporter::export(&dataset_of(29), "SIM-001_10hz_1s") {
        Ok(Some(file)) => {
            assert_eq!(file.path, "SIM-001_10hz_1s.parquet");
            assert_eq!(file.batch.value.len(), 29);
            assert_eq!(file.batch.sensor_type[28], "MissionPhase");
        }
        other => panic!("unexpected outcome {:?}", other),
    }
}

#[test]
fn a_text_fails_the_columnar_export() {
    let mut dataset = dataset_of(40);
    dataset.readings[31].value = SensorValue::String(String::from("OK"));
    dataset.readings[17].value = SensorValue::String(String::from("Pre-launch"));
    assert_eq!(
        ParquetExporter::convert_to_record_batch(&dataset).unwrap_err(),
        ExportError::UnsupportedValue { index: 17 }
    );
    assert_eq!(
        ParquetExporter::export(&dataset, "run").unwrap_err(),
        ExportError::UnsupportedValue { index: 17 }
    );
    dataset.readings[0].value = SensorValue::String(String::new());
    assert_eq!(
        ParquetExporter::export(&dataset, "run").unwrap_err(),
        ExportError::UnsupportedValue { index: 0 }
    );
}

#[test]
fn line_of_a_numeric_reading() {
    let reading = TelemetryReading::new(
        1_700_000_000_000_000_000,
        900,
        SensorEnum::Thrust,
        SensorValue::Float(1.5f64.to_bits()),
    );
    assert_eq!(
        reading.to_line_protocol("rocket_telemetry", "1.5"),
        "rocket_telemetry,sensor_type=Trst value=1.5,time_since_launch_ms=900u 1700000000000000000"
    );
    let early = TelemetryReading::new(-5, 0, SensorEnum::Acceleration, SensorValue::Float(0));
    assert_eq!(early.to_line_protocol("m", "0"), "m,sensor_type=acc value=0,time_since_launch_ms=0u -5");
}

#[test]
fn line_of_a_textual_reading_is_quoted_and_escaped() {
    let reading = TelemetryReading::new(
        12,
        34,
        SensorEnum::HealthStatus,
        SensorValue::String(String::from("a\"b\\c é")),
    );
    assert_eq!(
        reading.to_line_protocol("rocket_telemetry", "ignored"),
        "rocket_telemetry,sensor_type=HealthStatus value=\"a\\\"b\\\\c é\",time_since_launch_ms=34u 12"
    );
    let empty = TelemetryReading::new(0, 0, SensorEnum::MissionPhase, SensorValue::String(String::new()));
    assert_eq!(
        empty.to_line_protocol("m", ""),
        "m,sensor_type=MissionPhase value=\"\",time_since_launch_ms=0u 0"
    );
}

#[test]
fn a_copy_of_a_reading_is_equal_to_it() {
    let reading = TelemetryReading::new(1, 2, SensorEnum::Altitude, SensorValue::String(String::from("x")));
    let copy = reading.clone();
    assert_eq!(copy.timestamp, 1);
    assert_eq!(copy.time_since_launch_ms, 2);
    assert_eq!(copy.sensor, SensorEnum::Altitude);
    assert!(matches!(copy.value, SensorValue::String(ref text) if text == "x"));
    let number = SensorValue::Float(7).clone();
    assert!(matches!(number, SensorValue::Float(7)));
}

#[test]
fn default_store() {
    let config = InfluxDBConfig::default();
    assert_eq!(config.url, "http://localhost:8086");
    assert_eq!(config.token, "my_token");
    assert_eq!(config.org, "my_org");
    assert_eq!(config.bucket, "my_bucket");
    assert_eq!(config.batch_size, 5000);
    let exporter = InfluxDBExporter::new(config.clone());
    assert_eq!(exporter.config().batch_size, 5000);
    assert_eq!(exporter.config().bucket, "my_bucket");
    assert_eq!(InfluxDBExporter::measurement(), "rocket_telemetry");
}

#[test]
fn batch_counts_round_up() {
    let exporter = exporter_with_batches_of(100);
    assert_eq!(exporter.batch_count(0), 0);
    assert_eq!(exporter.batch_count(1), 1);
    assert_eq!(exporter.batch_count(99), 1);
    assert_eq!(exporter.batch_count(100), 1);
    assert_eq!(exporter.batch_count(101), 2);
    assert_eq!(exporter.batch_count(250), 3);
    assert_eq!(exporter.batch_count(usize::MAX), usize::MAX / 100 + 1);
    assert_eq!(exporter_with_batches_of(usize::MAX).batch_count(usize::MAX), 1);
    assert_eq!(exporter_with_batches_of(1).batch_count(usize::MAX), usize::MAX);
    assert_eq!(exporter_with_batches_of(5000).batch_count(34_800_000), 6960);
}

#[test]
fn two_hundred_fifty_readings_go_out_in_three_batches() {
    let exporter = exporter_with_batches_of(100);
    let dataset = dataset_of(250);
    let (submitted, last) = drive(&exporter, &dataset, None);
    assert_eq!(
        submitted,
        vec![
            Batch { index: 0, start: 0, end: 100 },
            Batch { index: 1, start: 100, end: 200 },
            Batch { index: 2, start: 200, end: 250 },
        ]
    );
    let sizes: Vec<usize> = submitted.iter().map(|b| b.end - b.start).collect();
    assert_eq!(sizes, vec![100, 100, 50]);
    assert_eq!(last, ExportStep::Complete { batches: 3 });
}

#[test]
fn a_failed_batch_ends_the_export_and_keeps_what_was_committed() {
    let exporter = exporter_with_batches_of(100);
    let dataset = dataset_of(250);
    let (submitted, last) = drive(&exporter, &dataset, Some(2));
    assert_eq!(submitted.len(), 3);
    match last {
        ExportStep::Aborted(failure) => {
            assert_eq!(failure.batch_index, 2);
            assert_eq!(failure.committed_batches, 2);
            assert_eq!(failure.last_committed_batch(), Some(1));
            assert_eq!(failure.committed_readings, 200);
        }
        other => panic!("unexpected step {:?}", other),
    }
    let (submitted, last) = drive(&exporter, &dataset, Some(1));
    assert_eq!(submitted, vec![Batch { index: 0, start: 0, end: 100 }, Batch { index: 1, start: 100, end: 200 }]);
    assert_eq!(
        last,
        ExportStep::Aborted(BatchFailure { batch_index: 1, committed_batches: 1, committed_readings: 100 })
    );
    let (submitted, last) = drive(&exporter, &dataset, Some(0));
    assert_eq!(submitted.len(), 1);
    let nothing = BatchFailure { batch_index: 0, committed_batches: 0, committed_readings: 0 };
    assert_eq!(nothing.last_committed_batch(), None);
    assert_eq!(
        last,
        ExportStep::Aborted(BatchFailure { batch_index: 0, committed_batches: 0, committed_readings: 0 })
    );
}

#[test]
fn an_empty_dataset_is_exported_without_a_write() {
    let dataset = dataset_of(0);
    let (submitted, last) = drive(&exporter_with_batches_of(100), &dataset, None);
    assert!(submitted.is_empty());
    assert_eq!(last, ExportStep::Complete { batches: 0 });
    assert_eq!(exporter_with_batches_of(0).export(&dataset), ExportStep::Complete { batches: 0 });
}

#[test]
fn batches_tile_the_readings() {
    for (total, size) in [(1usize, 1usize), (1, 100), (100, 100), (101, 100), (290, 29), (290, 7), (5, 2)] {
        let exporter = exporter_with_batches_of(size);
        let dataset = dataset_of(total);
        let (submitted, last) = drive(&exporter, &dataset, None);
        assert_eq!(submitted.len(), exporter.batch_count(total));
        assert_eq!(last, ExportStep::Complete { batches: submitted.len() });
        let mut next = 0;
        for (index, batch) in submitted.iter().enumerate() {
            assert_eq!(batch.index, index);
            assert_eq!(batch.start, next);
            assert!(batch.end > batch.start && batch.end - batch.start <= size);
            if index + 1 < submitted.len() {
                assert_eq!(batch.end - batch.start, size);
            }
            next = batch.end;
        }
        assert_eq!(next, total);
    }
}

#[test]
fn payload_has_one_line_per_reading_of_the_batch() {
    let dataset = dataset_of(5);
    let batch = Batch { index: 1, start: 2, end: 4 };
    let numbers = vec![String::from("-2.8"), String::from("-2.7")];
    let text = InfluxDBExporter::payload(&dataset, batch, &numbers).unwrap();
    assert_eq!(
        text,
        "rocket_telemetry,sensor_type=vel value=-2.8,time_since_launch_ms=0u 1700000000125457788\n\
         rocket_telemetry,sensor_type=cmb_pa value=-2.7,time_since_launch_ms=0u 1700000000126457788\n"
    );
    assert_eq!(text.lines().count(), 2);
    let whole: Vec<String> = (0..5).map(|k| format!("{}", k as f64 * 0.1 - 3.0)).collect();
    let all = InfluxDBExporter::payload(&dataset, Batch { index: 0, start: 0, end: 5 }, &whole).unwrap();
    assert_eq!(all.lines().count(), 5);
    for (k, line) in all.lines().enumerate() {
        assert_eq!(line, dataset.readings[k].to_line_protocol("rocket_telemetry", &whole[k]));
    }
    assert_eq!(InfluxDBExporter::payload(&dataset, Batch { index: 0, start: 3, end: 3 }, &Vec::new()).unwrap(), "");
}

#[test]
fn payload_needs_a_batch_of_the_dataset_and_one_number_per_reading() {
    let dataset = dataset_of(5);
    let two = vec![String::from("1"), String::from("2")];
    assert!(InfluxDBExporter::payload(&dataset, Batch { index: 0, start: 4, end: 6 }, &two).is_none());
    assert!(InfluxDBExporter::payload(&dataset, Batch { index: 0, start: 3, end: 2 }, &two).is_none());
    assert!(InfluxDBExporter::payload(&dataset, Batch { index: 0, start: 0, end: 3 }, &two).is_none());
    assert!(InfluxDBExporter::payload(&dataset, Batch { index: 0, start: 0, end: 1 }, &two).is_none());
    assert!(InfluxDBExporter::payload(&dataset, Batch { index: 0, start: 3, end: 5 }, &two).is_some());
}
