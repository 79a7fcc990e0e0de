//! Orbit-camera control and debug-overlay telemetry for a game client.
//!
//! `camera` holds the smoothed orbit controller, `telemetry` the rate-limited
//! sampler and the overlay snapshot builders, `vram` the best-effort GPU
//! memory probes and their text parsers, `nvml` the NVIDIA per-process probe,
//! `text` the character-level helpers they share.

pub mod text;
pub mod vram;
pub mod nvml;
pub mod camera;
pub mod telemetry;
