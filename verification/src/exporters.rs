//! What each sink receives: the metadata file, the columnar batch and the
//! batches of line-protocol text.

pub mod csv_exporter;
pub mod influxdb_exporter;
pub mod parquet_exporter;

pub use csv_exporter::{CsvFile, CsvMetadataExporter};
pub use influxdb_exporter::{Batch, BatchFailure, ExportStep, InfluxDBConfig, InfluxDBExporter};
pub use parquet_exporter::{ColumnSpec, ColumnType, ExportError, ParquetExporter, ParquetFile, RecordColumns};
