//! Tracking of analog input sources: normalized sample values, deadzone
//! filtering, and detection of activation/deactivation edges across
//! discrete update ticks.

pub mod analog;
