//! The data model: channels, values, readings and datasets.

pub mod ratio;
pub mod sensor;
pub mod telemetry;
pub mod timestamp;

pub use ratio::Ratio;
pub use sensor::{SensorEnum, SensorType, CHANNEL_COUNT};
pub use telemetry::{SensorValue, TelemetryConfig, TelemetryDataset, TelemetryReading};
pub use timestamp::TimestampJitter;
