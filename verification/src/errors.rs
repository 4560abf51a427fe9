//! Closed error taxonomies shared by every backend.
//!
//! Callers branch on the kind of an error, never on backend-specific
//! detail: the same variants cover the FAT volume manager of the embedded
//! backend, the OS filesystem of the desktop backend, and the browser
//! sandbox.

use vstd::prelude::*;

verus! {

/// Why a name could not be used as an 8.3 short file name.
#[derive(Debug, Clone, Copy, PartialEq, Eq, Structural)]
pub enum ShortNameError {
    /// The name holds a character the FAT format forbids.
    InvalidCharacter,
    /// The name is empty.
    FilenameEmpty,
    /// The name does not fit in eight base and three extension characters.
    NameTooLong,
    /// A period stands where the 8.3 form does not allow one.
    MisplacedPeriod,
    /// The name is not valid UTF-8.
    Utf8Error,
}

/// Everything that can go wrong talking to a filesystem.
#[derive(Debug, Clone, PartialEq, Eq)]
pub enum FSError {
    /// The underlying block device threw an error.
    DeviceError(String),
    /// The filesystem is badly formatted (or this code is buggy).
    FormatError(&'static str),
    /// The given volume index was bad.
    NoSuchVolume,
    /// The given filename was bad.
    FilenameError(ShortNameError),
    /// Out of memory opening volumes.
    TooManyOpenVolumes,
    /// Out of memory opening directories.
    TooManyOpenDirs,
    /// Out of memory opening files.
    TooManyOpenFiles,
    /// Bad handle given.
    BadHandle,
    /// That file or directory doesn't exist.
    NotFound,
    /// You can't open a file twice or delete an open file.
    FileAlreadyOpen,
    /// You can't open a directory twice.
    DirAlreadyOpen,
    /// You can't open a directory as a file.
    OpenedDirAsFile,
    /// You can't open a file as a directory.
    OpenedFileAsDir,
    /// You can't delete a directory as a file.
    DeleteDirAsFile,
    /// You can't close a volume with open files or directories.
    VolumeStillInUse,
    /// You can't open a volume twice.
    VolumeAlreadyOpen,
    /// We can't do that yet.
    Unsupported,
    /// Tried to read beyond end of file.
    EndOfFile,
    /// Found a bad cluster.
    BadCluster,
    /// Error while converting types.
    ConversionError,
    /// The device does not have enough space for the operation.
    NotEnoughSpace,
    /// Cluster was not properly allocated by the library.
    AllocationError,
    /// Jumped to free space during FAT traversing.
    UnterminatedFatChain,
    /// Tried to open a read-only file with write mode.
    ReadOnly,
    /// Tried to create an existing file.
    FileAlreadyExists,
    /// Bad block size - only 512 byte blocks supported.
    BadBlockSize(u16),
    /// Bad offset given when seeking.
    InvalidOffset,
    /// Disk is full.
    DiskFull,
    /// A directory with that name already exists.
    DirAlreadyExists,
    /// The filesystem tried to gain a lock whilst already locked.
    Deadlock,
    /// The operation lacked the necessary privileges to complete.
    PermissionDenied,
    /// The connection was refused by the remote server.
    ConnectionRefused,
    /// The connection was reset by the remote server.
    ConnectionReset,
    /// The connection was aborted by the remote server.
    ConnectionAborted,
    /// The network operation failed because it was not connected yet.
    NotConnected,
    /// A socket address could not be bound because it is already in use.
    AddrInUse,
    /// A nonexistent interface or non-local address was requested.
    AddrNotAvailable,
    /// The operation failed because a pipe was closed.
    BrokenPipe,
    /// A parameter was incorrect.
    InvalidInput,
    /// Data not valid for the operation were encountered.
    InvalidData,
    /// The I/O operation's timeout expired, causing it to be canceled.
    TimedOut,
    /// This operation was interrupted.
    Interrupted,
    /// An attempted write could not write any data.
    WriteZero,
    /// Something else.
    Other,
}

/// What [`FSError::kind_name`] returns for each variant.
pub open spec fn spec_fs_error_name(e: FSError) -> Seq<char> {
    match e {
        FSError::DeviceError(_) => "device error"@,
        FSError::FormatError(_) => "format error"@,
        FSError::NoSuchVolume => "no such volume"@,
        FSError::FilenameError(_) => "filename error"@,
        FSError::TooManyOpenVolumes => "too many open volumes"@,
        FSError::TooManyOpenDirs => "too many open dirs"@,
        FSError::TooManyOpenFiles => "too many open files"@,
        FSError::BadHandle => "bad handle"@,
        FSError::NotFound => "not found"@,
        FSError::FileAlreadyOpen => "file already open"@,
        FSError::DirAlreadyOpen => "dir already open"@,
        FSError::OpenedDirAsFile => "opened dir as file"@,
        FSError::OpenedFileAsDir => "opened file as dir"@,
        FSError::DeleteDirAsFile => "delete dir as file"@,
        FSError::VolumeStillInUse => "volume still in use"@,
        FSError::VolumeAlreadyOpen => "volume already open"@,
        FSError::Unsupported => "unsupported"@,
        FSError::EndOfFile => "end of file"@,
        FSError::BadCluster => "bad cluster"@,
        FSError::ConversionError => "conversion error"@,
        FSError::NotEnoughSpace => "not enough space"@,
        FSError::AllocationError => "allocation error"@,
        FSError::UnterminatedFatChain => "unterminated fat chain"@,
        FSError::ReadOnly => "read only"@,
        FSError::FileAlreadyExists => "file already exists"@,
        FSError::BadBlockSize(_) => "bad block size"@,
        FSError::InvalidOffset => "invalid offset"@,
        FSError::DiskFull => "disk full"@,
        FSError::DirAlreadyExists => "dir already exists"@,
        FSError::Deadlock => "deadlock"@,
        FSError::PermissionDenied => "permission denied"@,
        FSError::ConnectionRefused => "connection refused"@,
        FSError::ConnectionReset => "connection reset"@,
        FSError::ConnectionAborted => "connection aborted"@,
        FSError::NotConnected => "not connected"@,
        FSError::AddrInUse => "addr in use"@,
        FSError::AddrNotAvailable => "addr not available"@,
        FSError::BrokenPipe => "broken pipe"@,
        FSError::InvalidInput => "invalid input"@,
        FSError::InvalidData => "invalid data"@,
        FSError::TimedOut => "timed out"@,
        FSError::Interrupted => "interrupted"@,
        FSError::WriteZero => "write zero"@,
        FSError::Other => "other"@,
    }
}

impl FSError {
    /// A short, human-readable name for the kind of error.
    pub fn kind_name(&self) -> (r: &'static str)
        ensures
            r@ == spec_fs_error_name(*self),
    {
        match self {
            FSError::DeviceError(_) => "device error",
            FSError::FormatError(_) => "format error",
            FSError::NoSuchVolume => "no such volume",
            FSError::FilenameError(_) => "filename error",
            FSError::TooManyOpenVolumes => "too many open volumes",
            FSError::TooManyOpenDirs => "too many open dirs",
            FSError::TooManyOpenFiles => "too many open files",
            FSError::BadHandle => "bad handle",
            FSError::NotFound => "not found",
            FSError::FileAlreadyOpen => "file already open",
            FSError::DirAlreadyOpen => "dir already open",
            FSError::OpenedDirAsFile => "opened dir as file",
            FSError::OpenedFileAsDir => "opened file as dir",
            FSError::DeleteDirAsFile => "delete dir as file",
            FSError::VolumeStillInUse => "volume still in use",
            FSError::VolumeAlreadyOpen => "volume already open",
            FSError::Unsupported => "unsupported",
            FSError::EndOfFile => "end of file",
            FSError::BadCluster => "bad cluster",
            FSError::ConversionError => "conversion error",
            FSError::NotEnoughSpace => "not enough space",
            FSError::AllocationError => "allocation error",
            FSError::UnterminatedFatChain => "unterminated fat chain",
            FSError::ReadOnly => "read only",
            FSError::FileAlreadyExists => "file already exists",
            FSError::BadBlockSize(_) => "bad block size",
            FSError::InvalidOffset => "invalid offset",
            FSError::DiskFull => "disk full",
            FSError::DirAlreadyExists => "dir already exists",
            FSError::Deadlock => "deadlock",
            FSError::PermissionDenied => "permission denied",
            FSError::ConnectionRefused => "connection refused",
            FSError::ConnectionReset => "connection reset",
            FSError::ConnectionAborted => "connection aborted",
            FSError::NotConnected => "not connected",
            FSError::AddrInUse => "addr in use",
            FSError::AddrNotAvailable => "addr not available",
            FSError::BrokenPipe => "broken pipe",
            FSError::InvalidInput => "invalid input",
            FSError::InvalidData => "invalid data",
            FSError::TimedOut => "timed out",
            FSError::Interrupted => "interrupted",
            FSError::WriteZero => "write zero",
            FSError::Other => "other",
        }
    }
}

/// Everything that can go wrong on the network or serial capability.
#[derive(Debug, Clone, PartialEq, Eq)]
pub enum NetworkError {
    /// Cannot send messages with the network turned off.
    NotInitialized,
    /// Tried to initialize networking twice.
    AlreadyInitialized,
    /// Cannot send messages to a disconnected device.
    UnknownPeer,
    /// Cannot find a free address to bind.
    CannotBind,
    /// Cannot connect more devices.
    PeerListFull,
    /// Cannot fetch a network message.
    RecvError,
    /// Cannot send a network message.
    SendError,
    /// The thread handling networking is already deallocated.
    NetThreadDeallocated,
    /// The outgoing message is too big.
    OutMessageTooBig,
    /// The co-processor answered with a different message than the
    /// request called for.
    UnexpectedResp,
    /// A response could not be decoded from the wire.
    DecodeError,
    /// A protocol-level fault described by a fixed message.
    Error(&'static str),
    /// An error reported by the peer, in its own words.
    OwnedError(String),
    /// A peer-reported numeric code.
    Other(u32),
}

/// What [`NetworkError::kind_name`] returns for each variant.
pub open spec fn spec_network_error_name(e: NetworkError) -> Seq<char> {
    match e {
        NetworkError::NotInitialized => "cannot send messages with Wi-Fi turned off"@,
        NetworkError::AlreadyInitialized => "tried to initialize networking twice"@,
        NetworkError::UnknownPeer => "cannot send messages to disconnected device"@,
        NetworkError::CannotBind => "cannot find free address for networking"@,
        NetworkError::PeerListFull => "cannot connect more devices"@,
        NetworkError::RecvError => "cannot fetch network message"@,
        NetworkError::SendError => "cannot send network message"@,
        NetworkError::NetThreadDeallocated => "thread handling networking is already deallocated"@,
        NetworkError::OutMessageTooBig => "outgoing message is too big"@,
        NetworkError::UnexpectedResp => "unexpected response"@,
        NetworkError::DecodeError => "cannot decode response"@,
        NetworkError::Error(msg) => msg@,
        NetworkError::OwnedError(_) => "peer error"@,
        NetworkError::Other(_) => "network error"@,
    }
}

impl NetworkError {
    /// A short, human-readable name for the kind of error.
    pub fn kind_name(&self) -> (r: &'static str)
        ensures
            r@ == spec_network_error_name(*self),
    {
        match self {
            NetworkError::NotInitialized => "cannot send messages with Wi-Fi turned off",
            NetworkError::AlreadyInitialized => "tried to initialize networking twice",
            NetworkError::UnknownPeer => "cannot send messages to disconnected device",
            NetworkError::CannotBind => "cannot find free address for networking",
            NetworkError::PeerListFull => "cannot connect more devices",
            NetworkError::RecvError => "cannot fetch network message",
            NetworkError::SendError => "cannot send network message",
            NetworkError::NetThreadDeallocated => "thread handling networking is already deallocated",
            NetworkError::OutMessageTooBig => "outgoing message is too big",
            NetworkError::UnexpectedResp => "unexpected response",
            NetworkError::DecodeError => "cannot decode response",
            NetworkError::Error(msg) => msg,
            NetworkError::OwnedError(_) => "peer error",
            NetworkError::Other(_) => "network error",
        }
    }
}

} // verus!
