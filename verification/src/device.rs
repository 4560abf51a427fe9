//! The capability contract every backend implements.
//!
//! A backend is a way of running the console: on the bare-metal board, in
//! a desktop process, or in a browser sandbox. Whatever the transport,
//! every backend offers the same operations with the same failure
//! semantics, so the runtime above never branches on where it runs.
//!
//! Paths are handed over as ordered segments, each the bytes of one name
//! relative to the application storage root: first the storage class
//! (`roms` for read-only distributed content, `data` for writable
//! per-app state), then the author id, then the app id, then anything
//! nested below. The runtime guarantees no absolute or parent-escaping
//! path reaches this layer.

use vstd::prelude::*;
use crate::errors::{FSError, NetworkError};
use crate::input::InputState;
use crate::time::{Duration, Instant};

verus! {

/// Samples per second of the console's audio output.
pub const SAMPLE_RATE: u32 = 44_100;

/// What a directory entry is.
#[derive(Clone, Copy, Debug, PartialEq, Eq, Structural)]
pub enum EntryKind {
    Dir,
    File,
}

/// The operations every backend provides to the runtime.
pub trait Device {
    /// Readable file handle.
    type Read;

    /// Writable file handle.
    type Write;

    /// The backend's network capability.
    type Network: Network;

    /// The backend's serial capability.
    type Serial: Serial;

    /// The current reading of the backend's monotonic clock.
    fn now(&self) -> Instant;

    /// Block the caller for the given duration.
    fn delay(&self, d: Duration);

    /// Poll the controls. Never blocks; `None` means no input source is
    /// attached this tick.
    fn read_input(&mut self) -> Option<InputState>;

    /// Log a debug message. Best-effort: logging may drop messages but
    /// must never stall the frame loop.
    fn log_debug(&self, src: &str, msg: &str);

    /// Log an error. Best-effort, like [`Device::log_debug`].
    fn log_error(&self, src: &str, msg: &str);

    /// Get a random number.
    fn random(&mut self) -> u32;

    /// Open a file for reading.
    fn open_file(&mut self, path: &[Vec<u8>]) -> Result<Self::Read, FSError>;

    /// Create a file and open it for writing, replacing what was there.
    fn create_file(&mut self, path: &[Vec<u8>]) -> Result<Self::Write, FSError>;

    /// Open a file for writing at its end, creating it if absent.
    fn append_file(&mut self, path: &[Vec<u8>]) -> Result<Self::Write, FSError>;

    /// The file's size in bytes.
    fn get_file_size(&mut self, path: &[Vec<u8>]) -> Result<u32, FSError>;

    /// Delete the given file if it exists. Directories cannot be
    /// removed.
    fn remove_file(&mut self, path: &[Vec<u8>]) -> Result<(), FSError>;

    /// The visible entries of the given directory: kind and name, one
    /// pair per entry. Hidden entries are never surfaced.
    fn iter_dir(&mut self, path: &[Vec<u8>]) -> Result<Vec<(EntryKind, Vec<u8>)>, FSError>;

    /// The backend's network capability.
    fn network(&mut self) -> Self::Network;

    /// The backend's serial capability. Reads and writes never block.
    fn serial(&self) -> Self::Serial;

    /// Whether headphones are connected.
    fn has_headphones(&mut self) -> bool;
}

/// Single-hop peer messaging. Every operation fails fast instead of
/// blocking.
pub trait Network {
    /// The peer identity: a hardware address on the board, a socket
    /// endpoint on the desktop. Its ordering must look the same from
    /// every peer, so that all devices rank the peers identically.
    type Addr;

    /// Start listening for messages. Starting twice fails with
    /// `AlreadyInitialized`.
    fn start(&mut self) -> Result<(), NetworkError>;

    /// Stop accepting messages. Advisory and asynchronous: messages
    /// already in flight may still arrive.
    fn stop(&mut self) -> Result<(), NetworkError>;

    /// This device's address as the other peers see it.
    fn local_addr(&self) -> Self::Addr;

    /// Broadcast an advertisement so peers learn this device exists.
    fn advertise(&mut self) -> Result<(), NetworkError>;

    /// A pending message, if any. Never blocks.
    fn recv(&mut self) -> Result<Option<(Self::Addr, Vec<u8>)>, NetworkError>;

    /// Send a raw message to the given peer. Never blocks; delivery is
    /// best-effort.
    fn send(&mut self, addr: Self::Addr, data: &[u8]) -> Result<(), NetworkError>;
}

/// The serial link to a host computer. Best-effort and lossy by design:
/// with no reader attached, writes are dropped, never blocked on.
pub trait Serial {
    fn start(&mut self) -> Result<(), NetworkError>;

    fn stop(&mut self) -> Result<(), NetworkError>;

    /// Pending bytes, if any. Never blocks.
    fn recv(&mut self) -> Result<Option<Vec<u8>>, NetworkError>;

    /// Write bytes out. Never blocks; bytes may be dropped when no
    /// reader drains the port.
    fn send(&mut self, data: &[u8]) -> Result<(), NetworkError>;
}

} // verus!
