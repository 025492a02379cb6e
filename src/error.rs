//! Error type shared by every module of the library.

use vstd::prelude::*;

verus! {

/// Every failure the library reports.
///
/// Operating-system errors are carried as their message text.
#[derive(Debug, Clone, PartialEq, Eq)]
pub enum Error {
    /// Failed to launch a system command.
    CommandExecution { command: String, message: String },
    /// A command ran but exited with a non-zero code.
    CommandExit { command: String, code: i32, stderr: String },
    /// The block-device listing could not be parsed.
    LsblkParse { message: String },
    /// The fstab file could not be read.
    FstabRead { path: String, message: String },
    /// The fstab file could not be written.
    FstabWrite { path: String, message: String },
    /// An fstab line could not be parsed.
    FstabParse { message: String },
    /// A backup copy could not be made.
    Backup { path: String, message: String },
    /// A mount point could not be created.
    MountPointCreation { path: String, message: String },
    /// Permission was denied while creating a mount point.
    MountPointPermissionDenied { path: String },
    /// A mount operation failed.
    Mount { message: String },
    /// The filesystem type is not supported.
    InvalidFilesystem { fs: String },
    /// The home directory could not be determined.
    HomeDirNotFound,
    /// An unmount operation failed.
    Unmount { path: String, message: String },
    /// The device holds an NTFS volume marked dirty.
    DirtyVolume { device: String },
    /// Repairing a dirty volume failed.
    Ntfsfix { device: String, message: String },
    /// Steam's library folder file was not found.
    SteamVdfNotFound { path: String },
    /// Steam's library folder file could not be parsed.
    VdfParse { message: String },
    /// Steam's library folder file could not be written.
    VdfWrite { path: String, message: String },
    /// Steam could not be controlled.
    SteamProcess { message: String },
    /// A systemd operation failed.
    Systemd { message: String },
    /// A UUID was malformed.
    InvalidUuid { uuid: String },
    /// The user declined the authorization prompt.
    AuthenticationCancelled,
    /// The helper binary was not found.
    SidecarNotFound { path: String },
    /// The privilege-escalation tool was not found.
    EscalationToolNotFound { tool: String },
    /// A privileged session could not be established.
    SessionCreation { message: String },
    /// Communication with an established session failed.
    SessionCommunication { message: String },
    /// Any other failure, described by its message.
    Generic { message: String },
}

} // verus!
