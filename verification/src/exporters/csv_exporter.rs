//! The run-level metadata file.

use crate::models::telemetry::{DatasetView, TelemetryDataset};
use crate::models::timestamp::{utc_display, utc_text};
use crate::text::{decimal_digits, push_decimal};
use vstd::prelude::*;
use vstd::string::StringExecFns;

verus! {

/// Writes the summary record of a run; never the readings themselves.
pub struct CsvMetadataExporter;

/// A text file to be created, or overwritten, at `path`.
#[derive(Debug)]
pub struct CsvFile {
    pub path: String,
    pub contents: String,
}

/// The header line, without its line break.
pub open spec fn csv_header() -> Seq<char> {
    "launch_id,launch_time,time_since_launch_ms,vehicle_type,engine_type,sample_rate_hz"@
}

/// The data line, without its line break: launch identifier, launch time,
/// time since launch of the first reading, vehicle type, engine type and
/// sample rate.
pub open spec fn csv_row(
    launch_id: Seq<char>,
    launch_time_text: Seq<char>,
    first_elapsed_ms: u64,
    sample_rate_hz: usize,
) -> Seq<char> {
    launch_id + ","@ + launch_time_text + ","@ + decimal_digits(first_elapsed_ms as nat)
        + ",Kerbal,Narwhal,"@ + decimal_digits(sample_rate_hz as nat)
}

/// The whole file: the header line, and the data line if the dataset has a
/// reading.
pub open spec fn csv_contents(dataset: DatasetView, launch_time_text: Seq<char>) -> Seq<char> {
    if dataset.readings.len() == 0 {
        csv_header() + "\n"@
    } else {
        csv_header() + "\n"@ + csv_row(
            dataset.config.launch_id@,
            launch_time_text,
            dataset.readings[0].time_since_launch_ms,
            dataset.config.sample_rate_hz,
        ) + "\n"@
    }
}

/// Where the metadata of the run named `output_name` goes.
pub open spec fn csv_path(output_name: Seq<char>) -> Seq<char> {
    "output/"@ + output_name + ".metadata.csv"@
}

impl CsvMetadataExporter {
    /// The contents of the metadata file, given the launch time as text.
    pub fn render(dataset: &TelemetryDataset, launch_time_text: &str) -> (contents: String)
        ensures
            contents@ == csv_contents(dataset@, launch_time_text@),
    {
        let mut contents: String = String::from_str(
            "launch_id,launch_time,time_since_launch_ms,vehicle_type,engine_type,sample_rate_hz",
        );
        contents.append("\n");
        if dataset.readings.len() > 0 {
            contents.append(dataset.config.launch_id.as_str());
            contents.append(",");
            contents.append(launch_time_text);
            contents.append(",");
            push_decimal(&mut contents, dataset.readings[0].time_since_launch_ms);
            contents.append(",Kerbal,Narwhal,");
            push_decimal(&mut contents, dataset.config.sample_rate_hz as u64);
            contents.append("\n");
        }
        assert(contents@ =~= csv_contents(dataset@, launch_time_text@));
        contents
    }

    /// The metadata file of the run named `output_name`: its path and its
    /// contents. A dataset without readings gives the header line alone.
    pub fn export(dataset: &TelemetryDataset, output_name: &str) -> (file: CsvFile)
        ensures
            file.path@ == csv_path(output_name@),
            file.contents@ == csv_contents(dataset@, utc_display(dataset@.launch_time)),
    {
        let mut path: String = String::from_str("output/");
        path.append(output_name);
        path.append(".metadata.csv");
        assert(path@ =~= csv_path(output_name@));
        let launch_time_text: String = utc_text(dataset.launch_time);
        let contents: String = Self::render(dataset, launch_time_text.as_str());
        CsvFile { path, contents }
    }
}

} // verus!
