//! Audio output through the console's DSP service: output and channel
//! configuration, sample formats, wave buffers and the records that a
//! channel's playback queue consumes.
//!
//! Everything here is plain computation over values. The calls into the
//! native service itself are made by the program that links this library,
//! which hands the status codes it gets back to the constructors below.
pub mod error;
pub mod format;
pub mod device;
pub mod wave;
pub mod queue;

pub use error::Error;
pub use format::{AudioFormat, InterpolationType, OutputMode};
pub use device::{Channel, DspOwnership, Ndsp};
pub use wave::{WaveBuffer, WaveInfo, WaveRecord};
pub use queue::{QueuedWave, WaveQueue};
