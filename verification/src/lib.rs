//! Hardware-abstraction layer for a small game console.
//!
//! The same application logic runs on three very different backends: a
//! bare-metal board paired with a radio/storage co-processor, a desktop
//! process, and a browser sandbox. This crate holds the parts that are
//! common to all of them and proves their behaviour:
//!
//! * a monotonic time model with saturating arithmetic,
//! * the unified pointer-and-buttons input model and the normalizer that
//!   folds a physical gamepad into it,
//! * the framed request/response protocol spoken to the co-processor,
//! * a long-filename-aware path resolver on top of an external FAT
//!   volume manager, with explicit handle accounting,
//! * the decision logic of the hosted backend's background workers,
//!   including the fixed-size connection ring.
//!
//! Blocking I/O, threads and device registers stay outside; they hand this
//! crate plain values and take plain values back.

pub mod device;
pub mod errors;
pub mod fat;
pub mod gamepad;
pub mod input;
pub mod proto;
pub mod ring;
pub mod shortname;
pub mod time;
pub mod workers;

pub use device::Device;
pub use device::EntryKind;
pub use device::Network;
pub use device::Serial;
pub use device::SAMPLE_RATE;
pub use errors::FSError;
pub use errors::NetworkError;
pub use errors::ShortNameError;
pub use input::InputState;
pub use input::Pad;
pub use time::Duration;
pub use time::Instant;
