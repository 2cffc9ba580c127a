//! Core of a vibration-monitoring agent for rotating machines.
//!
//! The library holds the integer-level rules of one analysis cycle: the
//! severity policy that maps an RMS velocity to a health zone, the validation
//! of an analysis window, the sample clock that keeps consecutive chunks of a
//! synthesized waveform phase-continuous, and the telemetry timestamp.
pub mod clock;
pub mod health;
pub mod timestamp;
pub mod window;

pub use clock::SampleClock;
pub use health::{MachineHealth, ZoneThresholds};
pub use timestamp::current_timestamp;
pub use window::{check_window, WindowError};
