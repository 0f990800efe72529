//! Reproducible multi-channel telemetry for a simulated rocket flight.
//!
//! The crate holds the exact part of the simulator and of its export
//! pipeline, verified with Verus:
//!
//! - the table of the 29 channels (`models::sensor`);
//! - the five mission phases and the flight plan, which fixes every channel at
//!   every tick by exact fractions (`generators::flight`,
//!   `generators::profile`), and the plan of the random draws
//!   (`generators::noise`);
//! - the fan-out of a tick into its readings and the assembly of a run's
//!   dataset (`generators::generator`);
//! - what each exporter hands to its sink: the metadata file, the columnar
//!   batch, and the batches of line-protocol text (`exporters`).
//!
//! Floating-point arithmetic, random draws, clocks, files and the network stay
//! with the caller. Samples travel through the crate as bit patterns of
//! IEEE-754 binary64 numbers, instants as nanoseconds since the Unix epoch.

pub mod exporters;
pub mod generators;
pub mod models;
pub mod text;
