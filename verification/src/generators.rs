//! The simulator: mission phases, the flight and noise plans, and the assembly
//! of readings into a dataset.

pub mod flight;
pub mod generator;
pub mod noise;
pub mod profile;

pub use flight::{Phase, Progress};
pub use generator::{GenerateError, TelemetryGenerator, TickSamples};
pub use noise::{Distribution, NoiseDraw, NoiseTerm};
pub use profile::Target;
