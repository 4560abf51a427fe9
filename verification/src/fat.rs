//! Long-filename-aware path resolution over the external FAT volume
//! manager, with explicit handle accounting.
//!
//! The volume manager enforces hard caps on concurrently open volumes,
//! directories and files, so every handle obtained here is released on
//! every exit path, error paths included. Ghost counters record how many
//! directory and file handles the caller holds, the peak number of
//! directories ever held at once, and how many directory scans name
//! resolution has performed; the contracts below are stated over them, so
//! a handle leaked on any path would fail verification.
//!
//! Resolution itself follows the long-filename scheme: a name already in
//! valid 8.3 form is used directly, without touching the directory; any
//! other name is looked up by scanning the directory's entries and
//! comparing their trimmed long names byte for byte.

use vstd::prelude::*;
use crate::errors::FSError;
use crate::shortname::{is_short_name, is_valid_short_name, spec_trim, trim_ascii};
use embedded_sdmmc::{BlockDevice, TimeSource, VolumeManager, VolumeIdx, LfnBuffer};
use core::ops::ControlFlow;
use vstd::slice::*;

verus! {

/// The volume manager's raw directory token.
#[verifier::external_type_specification]
#[verifier::external_body]
pub struct ExRawDirectory(embedded_sdmmc::RawDirectory);

/// The volume manager's raw file token.
#[verifier::external_type_specification]
#[verifier::external_body]
pub struct ExRawFile(embedded_sdmmc::RawFile);

/// An open directory. Obtained from [`Volume`] and owed back to it:
/// every handle is closed exactly once.
pub struct DirHandle {
    raw: embedded_sdmmc::RawDirectory,
}

/// An open file. Obtained from [`Volume`] and owed back to it.
pub struct FileHandle {
    raw: embedded_sdmmc::RawFile,
}

/// Which way a file is opened.
#[derive(Clone, Copy, Debug, PartialEq, Eq, Structural)]
pub enum OpenMode {
    /// Read an existing file.
    ReadOnly,
    /// Create a new file; fail if it exists.
    ReadWriteCreate,
    /// Create a file, or open an existing one positioned at its end.
    ReadWriteAppend,
    /// Create a file, or replace an existing one.
    ReadWriteCreateOrTruncate,
}

/// One directory entry as the volume manager reports it: the 8.3 name
/// split into base and extension, the reconstructed long name where the
/// entry has one, and whether it is a directory.
pub struct DirEntryInfo {
    /// Base of the 8.3 name, without padding.
    pub base: Vec<u8>,
    /// Extension of the 8.3 name, without padding; may be empty.
    pub ext: Vec<u8>,
    /// The long name's bytes, untrimmed, where the entry has one.
    pub long: Option<Vec<u8>>,
    /// Whether the entry is a directory.
    pub is_dir: bool,
}

/// Relies on `str::strip_prefix`: the answer is `Some` exactly when the
/// string starts with the prefix.
#[verifier::external_body]
fn strip_prefix_of<'a>(msg: &'a str, prefix: &str) -> (r: Option<&'a str>)
    ensures
        r is Some <==> (msg@.len() >= prefix@.len() && msg@.subrange(0, prefix@.len() as int)
            == prefix@),
{
    msg.strip_prefix(prefix)
}

/// Whether the text is the volume manager's device-error variant: its
/// name, then the block device's own error in parentheses.
pub open spec fn spec_is_device_error_text(m: Seq<char>) -> bool {
    m.len() >= "DeviceError("@.len() && m.subrange(0, "DeviceError("@.len() as int)
        == "DeviceError("@
}

/// The library kind for each remaining volume-manager error variant,
/// written as its variant's name.
pub open spec fn spec_volume_error_of(m: Seq<char>) -> FSError {
    if m == "NoSuchVolume"@ {
        FSError::NoSuchVolume
    } else if m == "TooManyOpenVolumes"@ {
        FSError::TooManyOpenVolumes
    } else if m == "TooManyOpenDirs"@ {
        FSError::TooManyOpenDirs
    } else if m == "TooManyOpenFiles"@ {
        FSError::TooManyOpenFiles
    } else if m == "BadHandle"@ {
        FSError::BadHandle
    } else if m == "NotFound"@ {
        FSError::NotFound
    } else if m == "FileAlreadyOpen"@ {
        FSError::FileAlreadyOpen
    } else if m == "DirAlreadyOpen"@ {
        FSError::DirAlreadyOpen
    } else if m == "OpenedDirAsFile"@ {
        FSError::OpenedDirAsFile
    } else if m == "OpenedFileAsDir"@ {
        FSError::OpenedFileAsDir
    } else if m == "DeleteNonEmptyDir"@ {
        FSError::DeleteDirAsFile
    } else if m == "VolumeStillInUse"@ {
        FSError::VolumeStillInUse
    } else if m == "VolumeAlreadyOpen"@ {
        FSError::VolumeAlreadyOpen
    } else if m == "Unsupported"@ {
        FSError::Unsupported
    } else if m == "EndOfFile"@ {
        FSError::EndOfFile
    } else if m == "BadCluster"@ {
        FSError::BadCluster
    } else if m == "ConversionError"@ {
        FSError::ConversionError
    } else if m == "NotEnoughSpace"@ {
        FSError::NotEnoughSpace
    } else if m == "AllocationError"@ {
        FSError::AllocationError
    } else if m == "UnterminatedFatChain"@ {
        FSError::UnterminatedFatChain
    } else if m == "ReadOnly"@ {
        FSError::ReadOnly
    } else if m == "FileAlreadyExists"@ {
        FSError::FileAlreadyExists
    } else if m == "InvalidOffset"@ {
        FSError::InvalidOffset
    } else if m == "DiskFull"@ {
        FSError::DiskFull
    } else if m == "DirAlreadyExists"@ {
        FSError::DirAlreadyExists
    } else if m == "LockError"@ {
        FSError::Deadlock
    } else if m == "FilenameError(InvalidCharacter)"@ {
        FSError::FilenameError(crate::errors::ShortNameError::InvalidCharacter)
    } else if m == "FilenameError(FilenameEmpty)"@ {
        FSError::FilenameError(crate::errors::ShortNameError::FilenameEmpty)
    } else if m == "FilenameError(NameTooLong)"@ {
        FSError::FilenameError(crate::errors::ShortNameError::NameTooLong)
    } else if m == "FilenameError(MisplacedPeriod)"@ {
        FSError::FilenameError(crate::errors::ShortNameError::MisplacedPeriod)
    } else if m == "FilenameError(Utf8Error)"@ {
        FSError::FilenameError(crate::errors::ShortNameError::Utf8Error)
    } else {
        FSError::Other
    }
}

/// Classify one volume-manager error, handed over as the text of its
/// derived `Debug` form: the variant's name, with any payload in
/// parentheses. Every variant maps to the library's matching kind, as
/// the shared taxonomy asks; a device-level error keeps the whole text
/// as its detail. The format-level and block-size variants can only
/// arise while the volume itself is opened and are handled there; here
/// their text, like any unknown text, classifies as `Other`.
pub fn classify_volume_error(msg: &str) -> (r: FSError)
    ensures
        spec_is_device_error_text(msg@) ==> (r matches FSError::DeviceError(d) && d@ == msg@),
        !spec_is_device_error_text(msg@) ==> r == spec_volume_error_of(msg@),
{
    if strip_prefix_of(msg, "DeviceError(").is_some() {
        return FSError::DeviceError(msg.to_owned());
    }
    let m = msg.to_owned();
    if m == "NoSuchVolume".to_owned() {
        return FSError::NoSuchVolume;
    }
    if m == "TooManyOpenVolumes".to_owned() {
        return FSError::TooManyOpenVolumes;
    }
    if m == "TooManyOpenDirs".to_owned() {
        return FSError::TooManyOpenDirs;
    }
    if m == "TooManyOpenFiles".to_owned() {
        return FSError::TooManyOpenFiles;
    }
    if m == "BadHandle".to_owned() {
        return FSError::BadHandle;
    }
    if m == "NotFound".to_owned() {
        return FSError::NotFound;
    }
    if m == "FileAlreadyOpen".to_owned() {
        return FSError::FileAlreadyOpen;
    }
    if m == "DirAlreadyOpen".to_owned() {
        return FSError::DirAlreadyOpen;
    }
    if m == "OpenedDirAsFile".to_owned() {
        return FSError::OpenedDirAsFile;
    }
    if m == "OpenedFileAsDir".to_owned() {
        return FSError::OpenedFileAsDir;
    }
    if m == "DeleteNonEmptyDir".to_owned() {
        return FSError::DeleteDirAsFile;
    }
    if m == "VolumeStillInUse".to_owned() {
        return FSError::VolumeStillInUse;
    }
    if m == "VolumeAlreadyOpen".to_owned() {
        return FSError::VolumeAlreadyOpen;
    }
    if m == "Unsupported".to_owned() {
        return FSError::Unsupported;
    }
    if m == "EndOfFile".to_owned() {
        return FSError::EndOfFile;
    }
    if m == "BadCluster".to_owned() {
        return FSError::BadCluster;
    }
    if m == "ConversionError".to_owned() {
        return FSError::ConversionError;
    }
    if m == "NotEnoughSpace".to_owned() {
        return FSError::NotEnoughSpace;
    }
    if m == "AllocationError".to_owned() {
        return FSError::AllocationError;
    }
    if m == "UnterminatedFatChain".to_owned() {
        return FSError::UnterminatedFatChain;
    }
    if m == "ReadOnly".to_owned() {
        return FSError::ReadOnly;
    }
    if m == "FileAlreadyExists".to_owned() {
        return FSError::FileAlreadyExists;
    }
    if m == "InvalidOffset".to_owned() {
        return FSError::InvalidOffset;
    }
    if m == "DiskFull".to_owned() {
        return FSError::DiskFull;
    }
    if m == "DirAlreadyExists".to_owned() {
        return FSError::DirAlreadyExists;
    }
    if m == "LockError".to_owned() {
        return FSError::Deadlock;
    }
    if m == "FilenameError(InvalidCharacter)".to_owned() {
        return FSError::FilenameError(crate::errors::ShortNameError::InvalidCharacter);
    }
    if m == "FilenameError(FilenameEmpty)".to_owned() {
        return FSError::FilenameError(crate::errors::ShortNameError::FilenameEmpty);
    }
    if m == "FilenameError(NameTooLong)".to_owned() {
        return FSError::FilenameError(crate::errors::ShortNameError::NameTooLong);
    }
    if m == "FilenameError(MisplacedPeriod)".to_owned() {
        return FSError::FilenameError(crate::errors::ShortNameError::MisplacedPeriod);
    }
    if m == "FilenameError(Utf8Error)".to_owned() {
        return FSError::FilenameError(crate::errors::ShortNameError::Utf8Error);
    }
    FSError::Other
}

/// The volume manager's open-mode enum.
#[verifier::external_type_specification]
#[verifier::external_body]
pub struct ExMode(embedded_sdmmc::Mode);

/// Carries the open mode over to the volume manager's own enum, arm for
/// arm.
#[verifier::external_body]
fn mode_to_sd(mode: OpenMode) -> embedded_sdmmc::Mode {
    match mode {
        OpenMode::ReadOnly => embedded_sdmmc::Mode::ReadOnly,
        OpenMode::ReadWriteCreate => embedded_sdmmc::Mode::ReadWriteCreate,
        OpenMode::ReadWriteAppend => embedded_sdmmc::Mode::ReadWriteCreateOrAppend,
        OpenMode::ReadWriteCreateOrTruncate => embedded_sdmmc::Mode::ReadWriteCreateOrTruncate,
    }
}

/// The volume manager and the volume it has open, hidden from the
/// verifier. The box holds a `VolumeManager<D, T, 48, 12, 1>`; the
/// phantom field pins `D` and `T` so every wrapper talks to the same
/// manager type.
///
/// Every wrapper below reports a failure as the error's derived `Debug`
/// text — the variant's name, with any payload in parentheses — which
/// the verified [`classify_volume_error`] maps, variant for variant,
/// onto the library's taxonomy.
#[verifier::external_body]
#[verifier::reject_recursive_types(D)]
#[verifier::reject_recursive_types(T)]
struct VolumeInner<D, T> {
    vm: Box<dyn core::any::Any>,
    volume: embedded_sdmmc::RawVolume,
    marker: core::marker::PhantomData<(D, T)>,
}

impl<D: 'static, T: 'static> VolumeInner<D, T> {
    /// Relies on `VolumeManager::new_with_limits` and `open_raw_volume`:
    /// opens the first volume of the block device.
    #[verifier::external_body]
    fn new(device: D, time_source: T) -> (r: Result<Self, FSError>) where
        D: BlockDevice,
        T: TimeSource,
    {
        let vm: VolumeManager<D, T, 48, 12, 1> = VolumeManager::new_with_limits(device, time_source, 5000);
        match vm.open_raw_volume(VolumeIdx(0)) {
            Ok(volume) => Ok(VolumeInner { vm: Box::new(vm), volume, marker: core::marker::PhantomData }),
            Err(embedded_sdmmc::Error::FormatError(m)) => Err(FSError::FormatError(m)),
            Err(embedded_sdmmc::Error::BadBlockSize(n)) => Err(FSError::BadBlockSize(n)),
            Err(e) => Err(classify_volume_error(&format!("{e:?}"))),
        }
    }

    /// Relies on `VolumeManager::open_root_dir`: on success one more
    /// directory handle is held; the root may be opened twice.
    #[verifier::external_body]
    fn open_root(&self) -> (r: Result<DirHandle, FSError>) where D: BlockDevice, T: TimeSource {
        let Some(vm) = self.vm.downcast_ref::<VolumeManager<D, T, 48, 12, 1>>() else {
            return Err(FSError::BadHandle);
        };
        match vm.open_root_dir(self.volume) {
            Ok(raw) => Ok(DirHandle { raw }),
            Err(e) => Err(classify_volume_error(&format!("{e:?}"))),
        }
    }

    /// Relies on `VolumeManager::open_dir`: opens the named child, which
    /// must be a directory; on success one more directory handle is held.
    #[verifier::external_body]
    fn open_child(&self, parent: &DirHandle, name: &[u8]) -> (r: Result<DirHandle, FSError>) where
        D: BlockDevice,
        T: TimeSource,
    {
        let Some(vm) = self.vm.downcast_ref::<VolumeManager<D, T, 48, 12, 1>>() else {
            return Err(FSError::BadHandle);
        };
        let Ok(name) = core::str::from_utf8(name) else {
            return Err(FSError::FilenameError(crate::errors::ShortNameError::Utf8Error));
        };
        match vm.open_dir(parent.raw, name) {
            Ok(raw) => Ok(DirHandle { raw }),
            Err(e) => Err(classify_volume_error(&format!("{e:?}"))),
        }
    }

    /// Relies on `VolumeManager::close_dir`: releases the handle. Close
    /// errors are ignored: a release of a just-used handle cannot be
    /// meaningfully retried.
    #[verifier::external_body]
    fn close_dir(&self, dir: DirHandle) where D: BlockDevice, T: TimeSource {
        if let Some(vm) = self.vm.downcast_ref::<VolumeManager<D, T, 48, 12, 1>>() {
            let _ = vm.close_dir(dir.raw);
        }
    }

    /// Relies on `VolumeManager::iterate_dir_lfn`: calls back once per
    /// entry of the directory, reconstructing long names into a 64-byte
    /// buffer; a long name that does not fit is reported as absent.
    #[verifier::external_body]
    fn list_entries(&self, dir: &DirHandle) -> (r: Result<Vec<DirEntryInfo>, FSError>) where
        D: BlockDevice,
        T: TimeSource,
    {
        let Some(vm) = self.vm.downcast_ref::<VolumeManager<D, T, 48, 12, 1>>() else { return Err(FSError::BadHandle) };
        let mut out: Vec<DirEntryInfo> = Vec::new();
        let mut storage = [0u8; 64];
        let mut lfns = LfnBuffer::new(&mut storage);
        let res = vm.iterate_dir_lfn(dir.raw, &mut lfns, |e, long| {
            let long = long.map(|l| l.as_bytes().to_vec());
            out.push(DirEntryInfo::new(e.name.base_name().to_vec(), e.name.extension().to_vec(), long, e.attributes.is_directory()));
            ControlFlow::Continue(())
        });
        res.map(|_| out).map_err(|e| classify_volume_error(&format!("{e:?}")))
    }

    /// Relies on `VolumeManager::open_file_in_dir`: opens the named file
    /// in the given mode; on success one more file handle is held.
    #[verifier::external_body]
    fn open_file_in(&self, dir: &DirHandle, name: &[u8], mode: OpenMode) -> (r: Result<
        FileHandle,
        FSError,
    >) where D: BlockDevice, T: TimeSource {
        let Some(vm) = self.vm.downcast_ref::<VolumeManager<D, T, 48, 12, 1>>() else {
            return Err(FSError::BadHandle);
        };
        let Ok(name) = core::str::from_utf8(name) else {
            return Err(FSError::FilenameError(crate::errors::ShortNameError::Utf8Error));
        };
        match vm.open_file_in_dir(dir.raw, name, mode_to_sd(mode)) {
            Ok(raw) => Ok(FileHandle { raw }),
            Err(e) => Err(classify_volume_error(&format!("{e:?}"))),
        }
    }

    /// Relies on `VolumeManager::close_file`: releases the handle.
    #[verifier::external_body]
    fn close_file(&self, file: FileHandle) where D: BlockDevice, T: TimeSource {
        if let Some(vm) = self.vm.downcast_ref::<VolumeManager<D, T, 48, 12, 1>>() {
            let _ = vm.close_file(file.raw);
        }
    }

    /// Relies on `VolumeManager::file_length`: the open file's length in
    /// bytes.
    #[verifier::external_body]
    fn file_length(&self, file: &FileHandle) -> (r: Result<u32, FSError>) where
        D: BlockDevice,
        T: TimeSource,
    {
        let Some(vm) = self.vm.downcast_ref::<VolumeManager<D, T, 48, 12, 1>>() else {
            return Err(FSError::BadHandle);
        };
        match vm.file_length(file.raw) {
            Ok(n) => Ok(n),
            Err(e) => Err(classify_volume_error(&format!("{e:?}"))),
        }
    }

    /// Relies on `VolumeManager::delete_entry_in_dir`: removes the named
    /// entry; a non-empty or open directory is refused.
    #[verifier::external_body]
    fn delete_entry(&self, dir: &DirHandle, name: &[u8]) -> (r: Result<(), FSError>) where
        D: BlockDevice,
        T: TimeSource,
    {
        let Some(vm) = self.vm.downcast_ref::<VolumeManager<D, T, 48, 12, 1>>() else {
            return Err(FSError::BadHandle);
        };
        let Ok(name) = core::str::from_utf8(name) else {
            return Err(FSError::FilenameError(crate::errors::ShortNameError::Utf8Error));
        };
        match vm.delete_entry_in_dir(dir.raw, name) {
            Ok(()) => Ok(()),
            Err(e) => Err(classify_volume_error(&format!("{e:?}"))),
        }
    }

    /// Relies on `VolumeManager::make_dir_in_dir`: creates the named
    /// child directory; an existing file or directory of that name is
    /// refused.
    #[verifier::external_body]
    fn make_child_dir(&self, dir: &DirHandle, name: &[u8]) -> (r: Result<(), FSError>) where
        D: BlockDevice,
        T: TimeSource,
    {
        let Some(vm) = self.vm.downcast_ref::<VolumeManager<D, T, 48, 12, 1>>() else {
            return Err(FSError::BadHandle);
        };
        let Ok(name) = core::str::from_utf8(name) else {
            return Err(FSError::FilenameError(crate::errors::ShortNameError::Utf8Error));
        };
        match vm.make_dir_in_dir(dir.raw, name) {
            Ok(()) => Ok(()),
            Err(e) => Err(classify_volume_error(&format!("{e:?}"))),
        }
    }

    /// Relies on `VolumeManager::read`: reads from the file's current
    /// position into the front of `buf`, returning how many bytes were
    /// read; the buffer keeps its length.
    #[verifier::external_body]
    fn read(&self, file: &FileHandle, buf: &mut Vec<u8>) -> (r: Result<usize, FSError>) where
        D: BlockDevice,
        T: TimeSource,

        ensures
            final (buf)@.len() == old(buf)@.len(),
            r matches Ok(n) ==> n <= old(buf)@.len(),
    {
        let Some(vm) = self.vm.downcast_ref::<VolumeManager<D, T, 48, 12, 1>>() else {
            return Err(FSError::BadHandle);
        };
        match vm.read(file.raw, buf.as_mut_slice()) {
            Ok(n) => Ok(n),
            Err(e) => Err(classify_volume_error(&format!("{e:?}"))),
        }
    }

    /// Relies on `VolumeManager::write`: writes `data` at the file's
    /// current position.
    #[verifier::external_body]
    fn write(&self, file: &FileHandle, data: &[u8]) -> (r: Result<(), FSError>) where
        D: BlockDevice,
        T: TimeSource,
    {
        let Some(vm) = self.vm.downcast_ref::<VolumeManager<D, T, 48, 12, 1>>() else {
            return Err(FSError::BadHandle);
        };
        match vm.write(file.raw, data) {
            Ok(()) => Ok(()),
            Err(e) => Err(classify_volume_error(&format!("{e:?}"))),
        }
    }

    /// Relies on `VolumeManager::flush_file`: writes the file's metadata
    /// out.
    #[verifier::external_body]
    fn flush(&self, file: &FileHandle) -> (r: Result<(), FSError>) where
        D: BlockDevice,
        T: TimeSource,
    {
        let Some(vm) = self.vm.downcast_ref::<VolumeManager<D, T, 48, 12, 1>>() else {
            return Err(FSError::BadHandle);
        };
        match vm.flush_file(file.raw) {
            Ok(()) => Ok(()),
            Err(e) => Err(classify_volume_error(&format!("{e:?}"))),
        }
    }
}

/// One FAT volume and the handle accounting for it.
#[verifier::reject_recursive_types(D)]
#[verifier::reject_recursive_types(T)]
pub struct Volume<D, T> {
    inner: VolumeInner<D, T>,
    dirs_open: Ghost<int>,
    dirs_peak: Ghost<int>,
    files_open: Ghost<int>,
    scans: Ghost<int>,
    last_mode: Ghost<Option<OpenMode>>,
}

impl<D: 'static, T: 'static> Volume<D, T> {
    /// How many directory handles this volume's owner currently holds.
    pub closed spec fn spec_dirs_open(&self) -> int {
        self.dirs_open@
    }

    /// The most directory handles ever held at once.
    pub closed spec fn spec_dirs_peak(&self) -> int {
        self.dirs_peak@
    }

    /// How many file handles this volume's owner currently holds.
    pub closed spec fn spec_files_open(&self) -> int {
        self.files_open@
    }

    /// How many directory scans name resolution has performed.
    pub closed spec fn spec_scans(&self) -> int {
        self.scans@
    }

    /// The mode of the most recent file open handed to the volume
    /// manager, if any was.
    pub closed spec fn spec_last_mode(&self) -> Option<OpenMode> {
        self.last_mode@
    }

    /// The counters a volume in the caller's hands always satisfies:
    /// none negative, and the peak at least the current count.
    pub open spec fn wf(&self) -> bool {
        &&& self.spec_dirs_open() >= 0
        &&& self.spec_files_open() >= 0
        &&& self.spec_scans() >= 0
        &&& self.spec_dirs_peak() >= self.spec_dirs_open()
    }

    /// Open the first volume of `device`. No handles are held yet.
    pub fn new(device: D, time_source: T) -> (r: Result<Self, FSError>) where
        D: BlockDevice,
        T: TimeSource,

        ensures
            r matches Ok(v) ==> v.wf() && v.spec_dirs_open() == 0 && v.spec_dirs_peak() == 0
                && v.spec_files_open() == 0 && v.spec_scans() == 0 && v.spec_last_mode() is None,
    {
        match VolumeInner::new(device, time_source) {
            Ok(inner) => Ok(
                Volume {
                    inner,
                    dirs_open: Ghost(0),
                    dirs_peak: Ghost(0),
                    files_open: Ghost(0),
                    scans: Ghost(0),
                    last_mode: Ghost(None),
                },
            ),
            Err(e) => Err(e),
        }
    }

    /// Open the volume's root directory.
    pub fn open_root(&mut self) -> (r: Result<DirHandle, FSError>) where
        D: BlockDevice,
        T: TimeSource,

        requires
            old(self).wf(),
        ensures
            final (self).wf(),
            final (self).spec_last_mode() == old(self).spec_last_mode(),
            r is Ok ==> final (self).spec_dirs_open() == old(self).spec_dirs_open() + 1,
            r is Err ==> final (self).spec_dirs_open() == old(self).spec_dirs_open(),
            final (self).spec_dirs_peak() == vstd::math::max(
                old(self).spec_dirs_peak(),
                final (self).spec_dirs_open(),
            ),
            final (self).spec_files_open() == old(self).spec_files_open(),
            final (self).spec_scans() == old(self).spec_scans(),
    {
        match self.inner.open_root() {
            Ok(h) => {
                self.dirs_open = Ghost(self.dirs_open@ + 1);
                self.dirs_peak = Ghost(vstd::math::max(self.dirs_peak@, self.dirs_open@));
                Ok(h)
            },
            Err(e) => {
                self.dirs_peak = Ghost(vstd::math::max(self.dirs_peak@, self.dirs_open@));
                Err(e)
            },
        }
    }

    /// Give a directory handle back.
    pub fn close_dir(&mut self, dir: DirHandle) where D: BlockDevice, T: TimeSource
        requires
            old(self).wf(),
            old(self).spec_dirs_open() > 0,
        ensures
            final (self).wf(),
            final (self).spec_last_mode() == old(self).spec_last_mode(),
            final (self).spec_dirs_open() == old(self).spec_dirs_open() - 1,
            final (self).spec_dirs_peak() == old(self).spec_dirs_peak(),
            final (self).spec_files_open() == old(self).spec_files_open(),
            final (self).spec_scans() == old(self).spec_scans(),
    {
        self.inner.close_dir(dir);
        self.dirs_open = Ghost(self.dirs_open@ - 1);
    }

    /// Resolve `name` within `dir` to the 8.3 name to open it under.
    ///
    /// A name already in valid 8.3 form is returned unchanged, without
    /// any directory scan — the scan counter stands still. Any other
    /// name costs exactly one scan of the directory, which yields the
    /// 8.3 name of the first entry whose trimmed long name equals
    /// `name`, or `NotFound`.
    pub fn get_short_name(&mut self, dir: &DirHandle, name: &[u8]) -> (r: Result<
        Vec<u8>,
        FSError,
    >) where D: BlockDevice, T: TimeSource
        requires
            old(self).wf(),
        ensures
            final (self).wf(),
            final (self).spec_last_mode() == old(self).spec_last_mode(),
            final (self).spec_dirs_open() == old(self).spec_dirs_open(),
            final (self).spec_dirs_peak() == old(self).spec_dirs_peak(),
            final (self).spec_files_open() == old(self).spec_files_open(),
            is_valid_short_name(name@) ==> (r matches Ok(v) && v@ == name@ && final (
            self).spec_scans() == old(self).spec_scans()),
            !is_valid_short_name(name@) ==> final (self).spec_scans() == old(self).spec_scans()
                + 1,
    {
        if is_short_name(name) {
            return Ok(slice_to_vec(name));
        }
        self.scans = Ghost(self.scans@ + 1);
        match self.inner.list_entries(dir) {
            Ok(entries) => find_short_name(&entries, name),
            Err(e) => Err(e),
        }
    }

    /// Open the directory called `name` within `parent`.
    ///
    /// The name is resolved with [`Volume::get_short_name`] first, so a
    /// long name finds its directory through one scan. On success the
    /// caller holds one more directory handle; on failure, none.
    pub fn open_dir(&mut self, parent: &DirHandle, name: &[u8]) -> (r: Result<
        DirHandle,
        FSError,
    >) where D: BlockDevice, T: TimeSource
        requires
            old(self).wf(),
        ensures
            final (self).wf(),
            final (self).spec_last_mode() == old(self).spec_last_mode(),
            r is Ok ==> final (self).spec_dirs_open() == old(self).spec_dirs_open() + 1,
            r is Err ==> final (self).spec_dirs_open() == old(self).spec_dirs_open(),
            r is Ok ==> final (self).spec_dirs_peak() == vstd::math::max(
                old(self).spec_dirs_peak(),
                old(self).spec_dirs_open() + 1,
            ),
            r is Err ==> final (self).spec_dirs_peak() == old(self).spec_dirs_peak(),
            final (self).spec_files_open() == old(self).spec_files_open(),
            is_valid_short_name(name@) ==> final (self).spec_scans() == old(self).spec_scans(),
    {
        let short = match self.get_short_name(parent, name) {
            Ok(short) => short,
            Err(e) => {
                return Err(e);
            },
        };
        match self.inner.open_child(parent, short.as_slice()) {
            Ok(h) => {
                self.dirs_open = Ghost(self.dirs_open@ + 1);
                self.dirs_peak = Ghost(vstd::math::max(self.dirs_peak@, self.dirs_open@));
                Ok(h)
            },
            Err(e) => Err(e),
        }
    }

    /// Walk `path` from the root, one segment at a time.
    ///
    /// Each opened segment's parent is closed as soon as its child is
    /// open, so the walk holds at most two directory handles at once —
    /// the peak counter says so in the contract. On success the caller
    /// holds exactly one more handle, the final segment's directory; on
    /// failure, none: nothing leaks on an error path.
    pub fn get_dir(&mut self, path: &[Vec<u8>]) -> (r: Result<DirHandle, FSError>) where
        D: BlockDevice,
        T: TimeSource,

        requires
            old(self).wf(),
        ensures
            final (self).wf(),
            final (self).spec_last_mode() == old(self).spec_last_mode(),
            r is Ok ==> final (self).spec_dirs_open() == old(self).spec_dirs_open() + 1,
            r is Err ==> final (self).spec_dirs_open() == old(self).spec_dirs_open(),
            final (self).spec_dirs_peak() <= vstd::math::max(
                old(self).spec_dirs_peak(),
                old(self).spec_dirs_open() + 2,
            ),
            final (self).spec_dirs_peak() >= old(self).spec_dirs_peak(),
            final (self).spec_files_open() == old(self).spec_files_open(),
    {
        let mut dir = match self.open_root() {
            Ok(dir) => dir,
            Err(e) => {
                return Err(e);
            },
        };
        let n = path.len();
        let mut i: usize = 0;
        while i < n
            invariant
                0 <= i <= n,
                n == path@.len(),
                old(self).wf(),
                self.wf(),
                self.spec_last_mode() == old(self).spec_last_mode(),
                self.spec_dirs_open() == old(self).spec_dirs_open() + 1,
                self.spec_dirs_peak() <= vstd::math::max(
                    old(self).spec_dirs_peak(),
                    old(self).spec_dirs_open() + 2,
                ),
                self.spec_dirs_peak() >= old(self).spec_dirs_peak(),
                self.spec_files_open() == old(self).spec_files_open(),
            decreases n - i,
        {
            let segment = slice_index_get(path, i);
            match self.open_dir(&dir, segment.as_slice()) {
                Ok(child) => {
                    let parent = dir;
                    dir = child;
                    self.close_dir(parent);
                },
                Err(e) => {
                    self.close_dir(dir);
                    return Err(e);
                },
            }
            i = i + 1;
        }
        Ok(dir)
    }

    /// Open the file at `path` in the given mode.
    ///
    /// The final segment is the file's name, everything before it the
    /// directory walk. The directory handle used for the open is closed
    /// on every path out, resolution failures included: on success the
    /// caller holds one more file handle and not one directory more.
    pub fn open_file_with(&mut self, path: &[Vec<u8>], mode: OpenMode) -> (r: Result<
        FileHandle,
        FSError,
    >) where D: BlockDevice, T: TimeSource
        requires
            old(self).wf(),
        ensures
            final (self).wf(),
            r is Ok ==> final (self).spec_last_mode() == Some(mode),
            final (self).spec_last_mode() == Some(mode) || final (self).spec_last_mode() == old(
                self,
            ).spec_last_mode(),
            r is Ok ==> final (self).spec_files_open() == old(self).spec_files_open() + 1,
            r is Err ==> final (self).spec_files_open() == old(self).spec_files_open(),
            final (self).spec_dirs_open() == old(self).spec_dirs_open(),
            final (self).spec_dirs_peak() <= vstd::math::max(
                old(self).spec_dirs_peak(),
                old(self).spec_dirs_open() + 2,
            ),
            final (self).spec_dirs_peak() >= old(self).spec_dirs_peak(),
            path@.len() == 0 ==> r == Err::<FileHandle, FSError>(FSError::OpenedDirAsFile),
    {
        if path.len() == 0 {
            return Err(FSError::OpenedDirAsFile);
        }
        let file_name = slice_index_get(path, path.len() - 1);
        let dir_path = slice_subrange(path, 0, path.len() - 1);
        let dir = match self.get_dir(dir_path) {
            Ok(dir) => dir,
            Err(e) => {
                return Err(e);
            },
        };
        let short = match self.get_short_name(&dir, file_name.as_slice()) {
            Ok(short) => short,
            Err(e) => {
                self.close_dir(dir);
                return Err(e);
            },
        };
        self.last_mode = Ghost(Some(mode));
        match self.inner.open_file_in(&dir, short.as_slice(), mode) {
            Ok(f) => {
                self.files_open = Ghost(self.files_open@ + 1);
                self.close_dir(dir);
                Ok(f)
            },
            Err(e) => {
                self.close_dir(dir);
                Err(e)
            },
        }
    }

    /// Open the file at `path` for reading.
    pub fn open_file(&mut self, path: &[Vec<u8>]) -> (r: Result<FileHandle, FSError>) where
        D: BlockDevice,
        T: TimeSource,

        requires
            old(self).wf(),
        ensures
            final (self).wf(),
            r is Ok ==> final (self).spec_last_mode() == Some(OpenMode::ReadOnly),
            final (self).spec_last_mode() == Some(OpenMode::ReadOnly) || final (
            self).spec_last_mode() == old(self).spec_last_mode(),
            r is Ok ==> final (self).spec_files_open() == old(self).spec_files_open() + 1,
            r is Err ==> final (self).spec_files_open() == old(self).spec_files_open(),
            final (self).spec_dirs_open() == old(self).spec_dirs_open(),
            final (self).spec_dirs_peak() <= vstd::math::max(
                old(self).spec_dirs_peak(),
                old(self).spec_dirs_open() + 2,
            ),
            path@.len() == 0 ==> r == Err::<FileHandle, FSError>(FSError::OpenedDirAsFile),
    {
        self.open_file_with(path, OpenMode::ReadOnly)
    }

    /// Create the file at `path` and open it for writing, replacing an
    /// existing file of that name.
    pub fn create_file(&mut self, path: &[Vec<u8>]) -> (r: Result<FileHandle, FSError>) where
        D: BlockDevice,
        T: TimeSource,

        requires
            old(self).wf(),
        ensures
            final (self).wf(),
            r is Ok ==> final (self).spec_last_mode() == Some(OpenMode::ReadWriteCreateOrTruncate),
            final (self).spec_last_mode() == Some(OpenMode::ReadWriteCreateOrTruncate) || final (
            self).spec_last_mode() == old(self).spec_last_mode(),
            r is Ok ==> final (self).spec_files_open() == old(self).spec_files_open() + 1,
            r is Err ==> final (self).spec_files_open() == old(self).spec_files_open(),
            final (self).spec_dirs_open() == old(self).spec_dirs_open(),
            final (self).spec_dirs_peak() <= vstd::math::max(
                old(self).spec_dirs_peak(),
                old(self).spec_dirs_open() + 2,
            ),
            path@.len() == 0 ==> r == Err::<FileHandle, FSError>(FSError::OpenedDirAsFile),
    {
        self.open_file_with(path, OpenMode::ReadWriteCreateOrTruncate)
    }

    /// Open the file at `path` for writing at its end, creating it if it
    /// does not exist.
    pub fn append_file(&mut self, path: &[Vec<u8>]) -> (r: Result<FileHandle, FSError>) where
        D: BlockDevice,
        T: TimeSource,

        requires
            old(self).wf(),
        ensures
            final (self).wf(),
            r is Ok ==> final (self).spec_last_mode() == Some(OpenMode::ReadWriteAppend),
            final (self).spec_last_mode() == Some(OpenMode::ReadWriteAppend) || final (
            self).spec_last_mode() == old(self).spec_last_mode(),
            r is Ok ==> final (self).spec_files_open() == old(self).spec_files_open() + 1,
            r is Err ==> final (self).spec_files_open() == old(self).spec_files_open(),
            final (self).spec_dirs_open() == old(self).spec_dirs_open(),
            final (self).spec_dirs_peak() <= vstd::math::max(
                old(self).spec_dirs_peak(),
                old(self).spec_dirs_open() + 2,
            ),
            path@.len() == 0 ==> r == Err::<FileHandle, FSError>(FSError::OpenedDirAsFile),
    {
        self.open_file_with(path, OpenMode::ReadWriteAppend)
    }

    /// Give a file handle back.
    pub fn close_file(&mut self, file: FileHandle) where D: BlockDevice, T: TimeSource
        requires
            old(self).wf(),
            old(self).spec_files_open() > 0,
        ensures
            final (self).wf(),
            final (self).spec_last_mode() == old(self).spec_last_mode(),
            final (self).spec_files_open() == old(self).spec_files_open() - 1,
            final (self).spec_dirs_open() == old(self).spec_dirs_open(),
            final (self).spec_dirs_peak() == old(self).spec_dirs_peak(),
            final (self).spec_scans() == old(self).spec_scans(),
    {
        self.inner.close_file(file);
        self.files_open = Ghost(self.files_open@ - 1);
    }

    /// Create the directory called `name` within `parent`. The name is
    /// resolved first, so a long name that already names an entry is
    /// found by its long name.
    pub fn make_dir(&mut self, parent: &DirHandle, name: &[u8]) -> (r: Result<(), FSError>) where
        D: BlockDevice,
        T: TimeSource,

        requires
            old(self).wf(),
        ensures
            final (self).wf(),
            final (self).spec_last_mode() == old(self).spec_last_mode(),
            final (self).spec_dirs_open() == old(self).spec_dirs_open(),
            final (self).spec_dirs_peak() == old(self).spec_dirs_peak(),
            final (self).spec_files_open() == old(self).spec_files_open(),
            is_valid_short_name(name@) ==> final (self).spec_scans() == old(self).spec_scans(),
    {
        let short = match self.get_short_name(parent, name) {
            Ok(short) => short,
            Err(e) => {
                return Err(e);
            },
        };
        self.inner.make_child_dir(parent, short.as_slice())
    }

    /// The size in bytes of the file at `path`.
    ///
    /// The file is opened read-only for the measurement and both the
    /// file and the directory are closed again on every path out.
    pub fn get_file_size(&mut self, path: &[Vec<u8>]) -> (r: Result<u32, FSError>) where
        D: BlockDevice,
        T: TimeSource,

        requires
            old(self).wf(),
        ensures
            final (self).wf(),
            final (self).spec_last_mode() == Some(OpenMode::ReadOnly) || final (
            self).spec_last_mode() == old(self).spec_last_mode(),
            final (self).spec_files_open() == old(self).spec_files_open(),
            final (self).spec_dirs_open() == old(self).spec_dirs_open(),
            final (self).spec_dirs_peak() <= vstd::math::max(
                old(self).spec_dirs_peak(),
                old(self).spec_dirs_open() + 2,
            ),
            path@.len() == 0 ==> r == Err::<u32, FSError>(FSError::OpenedDirAsFile),
    {
        let file = match self.open_file_with(path, OpenMode::ReadOnly) {
            Ok(file) => file,
            Err(e) => {
                return Err(e);
            },
        };
        let size = self.inner.file_length(&file);
        self.close_file(file);
        size
    }

    /// Delete the file called by the final segment of `path`, if it
    /// exists. The directory walked to is closed on every path out.
    pub fn remove_file(&mut self, path: &[Vec<u8>]) -> (r: Result<(), FSError>) where
        D: BlockDevice,
        T: TimeSource,

        requires
            old(self).wf(),
        ensures
            final (self).wf(),
            final (self).spec_last_mode() == old(self).spec_last_mode(),
            final (self).spec_files_open() == old(self).spec_files_open(),
            final (self).spec_dirs_open() == old(self).spec_dirs_open(),
            final (self).spec_dirs_peak() <= vstd::math::max(
                old(self).spec_dirs_peak(),
                old(self).spec_dirs_open() + 2,
            ),
            path@.len() == 0 ==> r == Err::<(), FSError>(FSError::OpenedDirAsFile),
    {
        if path.len() == 0 {
            return Err(FSError::OpenedDirAsFile);
        }
        let file_name = slice_index_get(path, path.len() - 1);
        let dir_path = slice_subrange(path, 0, path.len() - 1);
        let dir = match self.get_dir(dir_path) {
            Ok(dir) => dir,
            Err(e) => {
                return Err(e);
            },
        };
        let short = match self.get_short_name(&dir, file_name.as_slice()) {
            Ok(short) => short,
            Err(e) => {
                self.close_dir(dir);
                return Err(e);
            },
        };
        let res = self.inner.delete_entry(&dir, short.as_slice());
        self.close_dir(dir);
        res
    }

    /// The visible entries of the directory at `path`: every entry whose
    /// 8.3 base name does not start with a period, in directory order.
    /// Hidden entries are never surfaced. The walked-to directory is
    /// closed on every path out.
    pub fn iter_dir(&mut self, path: &[Vec<u8>]) -> (r: Result<Vec<DirEntryInfo>, FSError>) where
        D: BlockDevice,
        T: TimeSource,

        requires
            old(self).wf(),
        ensures
            final (self).wf(),
            final (self).spec_last_mode() == old(self).spec_last_mode(),
            final (self).spec_files_open() == old(self).spec_files_open(),
            final (self).spec_dirs_open() == old(self).spec_dirs_open(),
            final (self).spec_dirs_peak() <= vstd::math::max(
                old(self).spec_dirs_peak(),
                old(self).spec_dirs_open() + 2,
            ),
            r matches Ok(v) ==> forall|i: int| 0 <= i < v@.len() ==> !spec_hidden(
                #[trigger] v@[i],
            ),
    {
        let dir = match self.get_dir(path) {
            Ok(dir) => dir,
            Err(e) => {
                return Err(e);
            },
        };
        let listed = self.inner.list_entries(&dir);
        self.close_dir(dir);
        match listed {
            Ok(entries) => Ok(visible_entries(entries)),
            Err(e) => Err(e),
        }
    }

    /// Read from the open file's current position into the front of
    /// `buf`; the result says how many bytes were read. The buffer keeps
    /// its length.
    pub fn read_file(&mut self, file: &FileHandle, buf: &mut Vec<u8>) -> (r: Result<
        usize,
        FSError,
    >) where D: BlockDevice, T: TimeSource
        requires
            old(self).wf(),
        ensures
            final (self).wf(),
            final (self).spec_last_mode() == old(self).spec_last_mode(),
            final (buf)@.len() == old(buf)@.len(),
            r matches Ok(n) ==> n <= old(buf)@.len(),
            final (self).spec_files_open() == old(self).spec_files_open(),
            final (self).spec_dirs_open() == old(self).spec_dirs_open(),
            final (self).spec_dirs_peak() == old(self).spec_dirs_peak(),
            final (self).spec_scans() == old(self).spec_scans(),
    {
        self.inner.read(file, buf)
    }

    /// Write `data` at the open file's current position.
    pub fn write_file(&mut self, file: &FileHandle, data: &[u8]) -> (r: Result<(), FSError>) where
        D: BlockDevice,
        T: TimeSource,

        requires
            old(self).wf(),
        ensures
            final (self).wf(),
            final (self).spec_last_mode() == old(self).spec_last_mode(),
            final (self).spec_files_open() == old(self).spec_files_open(),
            final (self).spec_dirs_open() == old(self).spec_dirs_open(),
            final (self).spec_dirs_peak() == old(self).spec_dirs_peak(),
            final (self).spec_scans() == old(self).spec_scans(),
    {
        self.inner.write(file, data)
    }

    /// Flush the open file's metadata.
    pub fn flush_file(&mut self, file: &FileHandle) -> (r: Result<(), FSError>) where
        D: BlockDevice,
        T: TimeSource,

        requires
            old(self).wf(),
        ensures
            final (self).wf(),
            final (self).spec_last_mode() == old(self).spec_last_mode(),
            final (self).spec_files_open() == old(self).spec_files_open(),
            final (self).spec_dirs_open() == old(self).spec_dirs_open(),
            final (self).spec_dirs_peak() == old(self).spec_dirs_peak(),
            final (self).spec_scans() == old(self).spec_scans(),
    {
        self.inner.flush(file)
    }
}

/// Byte-for-byte equality of two byte strings.
pub fn bytes_eq(a: &[u8], b: &[u8]) -> (r: bool)
    ensures
        r == (a@ == b@),
{
    if a.len() != b.len() {
        return false;
    }
    let n = a.len();
    let mut i: usize = 0;
    while i < n
        invariant
            0 <= i <= n,
            n == a@.len(),
            a@.len() == b@.len(),
            forall|j: int| 0 <= j < i ==> a@[j] == b@[j],
        decreases n - i,
    {
        if *slice_index_get(a, i) != *slice_index_get(b, i) {
            return false;
        }
        i = i + 1;
    }
    proof {
        assert(a@ =~= b@);
    }
    true
}

/// Append all of `src` to `dst`.
fn push_all(dst: &mut Vec<u8>, src: &[u8])
    ensures
        final (dst)@ == old(dst)@ + src@,
{
    let n = src.len();
    let mut i: usize = 0;
    while i < n
        invariant
            0 <= i <= n,
            n == src@.len(),
            dst@ == old(dst)@ + src@.subrange(0, i as int),
        decreases n - i,
    {
        dst.push(*slice_index_get(src, i));
        proof {
            assert(old(dst)@ + src@.subrange(0, i as int + 1) =~= (old(dst)@ + src@.subrange(
                0,
                i as int,
            )).push(src@[i as int]));
        }
        i = i + 1;
    }
    proof {
        assert(src@.subrange(0, n as int) =~= src@);
    }
}

/// Whether a directory scan accepts this entry for `name`: the entry has
/// a long name whose trimmed bytes equal `name` exactly.
pub open spec fn spec_entry_matches(e: DirEntryInfo, name: Seq<u8>) -> bool {
    match e.long {
        Some(l) => spec_trim(l@) == name,
        None => false,
    }
}

/// The entry's 8.3 name written out: the base, then a period and the
/// extension where the extension is not empty.
pub open spec fn spec_short_display(e: DirEntryInfo) -> Seq<u8> {
    if e.ext@.len() == 0 {
        e.base@
    } else {
        e.base@ + seq![0x2eu8] + e.ext@
    }
}

/// Whether the entry is hidden: its 8.3 base name starts with a period,
/// as the `.` and `..` entries do.
pub open spec fn spec_hidden(e: DirEntryInfo) -> bool {
    e.base@.len() > 0 && e.base@[0] == 0x2e
}

/// The visible entries of a listing, in order: every entry whose 8.3
/// base name does not start with a period.
pub open spec fn spec_visible(entries: Seq<DirEntryInfo>) -> Seq<DirEntryInfo>
    decreases entries.len(),
{
    if entries.len() == 0 {
        Seq::empty()
    } else {
        let prefix = spec_visible(entries.drop_last());
        if spec_hidden(entries.last()) {
            prefix
        } else {
            prefix.push(entries.last())
        }
    }
}

impl DirEntryInfo {
    /// Assemble one reported entry.
    pub fn new(base: Vec<u8>, ext: Vec<u8>, long: Option<Vec<u8>>, is_dir: bool) -> (r: Self)
        ensures
            r == (DirEntryInfo { base, ext, long, is_dir }),
    {
        DirEntryInfo { base, ext, long, is_dir }
    }

    /// The entry's 8.3 name written out.
    pub fn short_display(&self) -> (r: Vec<u8>)
        ensures
            r@ == spec_short_display(*self),
    {
        let mut out: Vec<u8> = Vec::new();
        push_all(&mut out, self.base.as_slice());
        if self.ext.len() > 0 {
            out.push(0x2e);
            push_all(&mut out, self.ext.as_slice());
        }
        proof {
            if self.ext@.len() == 0 {
                assert(out@ =~= spec_short_display(*self));
            } else {
                assert(out@ =~= spec_short_display(*self));
            }
        }
        out
    }

    /// The name this entry is shown under: the trimmed long name where
    /// the entry has one, the 8.3 base name otherwise.
    pub fn display_name(&self) -> (r: Vec<u8>)
        ensures
            r@ == match self.long {
                Some(l) => spec_trim(l@),
                None => self.base@,
            },
    {
        match &self.long {
            Some(l) => trim_ascii(l.as_slice()),
            None => {
                let mut out: Vec<u8> = Vec::new();
                push_all(&mut out, self.base.as_slice());
                proof {
                    assert(out@ =~= self.base@);
                }
                out
            },
        }
    }

    /// What the entry is.
    pub fn kind(&self) -> (r: crate::device::EntryKind)
        ensures
            r == (if self.is_dir {
                crate::device::EntryKind::Dir
            } else {
                crate::device::EntryKind::File
            }),
    {
        if self.is_dir {
            crate::device::EntryKind::Dir
        } else {
            crate::device::EntryKind::File
        }
    }
}

/// Find `name` among a directory's entries: the 8.3 name of the first
/// entry whose trimmed long name equals `name` byte for byte, and
/// `NotFound` where no entry matches.
pub fn find_short_name(entries: &Vec<DirEntryInfo>, name: &[u8]) -> (r: Result<Vec<u8>, FSError>)
    ensures
        r matches Ok(v) ==> exists|i: int|
            0 <= i < entries@.len() && spec_entry_matches(#[trigger] entries@[i], name@) && (
            forall|j: int| 0 <= j < i ==> !spec_entry_matches(#[trigger] entries@[j], name@))
                && v@ == spec_short_display(entries@[i]),
        r is Err ==> r == Err::<Vec<u8>, FSError>(FSError::NotFound) && (forall|i: int|
            0 <= i < entries@.len() ==> !spec_entry_matches(#[trigger] entries@[i], name@)),
{
    let n = entries.len();
    let mut i: usize = 0;
    while i < n
        invariant
            0 <= i <= n,
            n == entries@.len(),
            forall|j: int| 0 <= j < i ==> !spec_entry_matches(#[trigger] entries@[j], name@),
        decreases n - i,
    {
        let e = slice_index_get(entries.as_slice(), i);
        match &e.long {
            Some(l) => {
                let trimmed = trim_ascii(l.as_slice());
                if bytes_eq(trimmed.as_slice(), name) {
                    return Ok(e.short_display());
                }
            },
            None => {},
        }
        i = i + 1;
    }
    Err(FSError::NotFound)
}

/// Keep only the visible entries of a listing, in order.
pub fn visible_entries(entries: Vec<DirEntryInfo>) -> (r: Vec<DirEntryInfo>)
    ensures
        r@ == spec_visible(entries@),
        forall|i: int| 0 <= i < r@.len() ==> !spec_hidden(#[trigger] r@[i]),
{
    let mut rest = entries;
    let ghost orig = rest@;
    let ghost done: Seq<DirEntryInfo> = Seq::empty();
    let mut consumed: Ghost<Seq<DirEntryInfo>> = Ghost(done);
    let mut out: Vec<DirEntryInfo> = Vec::new();
    proof {
        assert(orig =~= consumed@ + rest@);
    }
    while rest.len() > 0
        invariant
            orig =~= consumed@ + rest@,
            out@ == spec_visible(consumed@),
            forall|i: int| 0 <= i < out@.len() ==> !spec_hidden(#[trigger] out@[i]),
        decreases rest@.len(),
    {
        let e = rest.remove(0);
        proof {
            assert(consumed@.push(e).drop_last() =~= consumed@);
            assert(orig =~= consumed@.push(e) + rest@);
        }
        let hidden = e.base.len() > 0 && *slice_index_get(e.base.as_slice(), 0) == 0x2e;
        consumed = Ghost(consumed@.push(e));
        if !hidden {
            out.push(e);
        }
    }
    proof {
        assert(consumed@ =~= orig);
    }
    out
}

} // verus!
