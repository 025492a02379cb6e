//! Core library for mounting NTFS/exFAT drives on SteamOS-like systems.
//!
//! The heart of the library is the privileged execution session: a signed,
//! line-oriented protocol between an unprivileged client and one elevated
//! helper process, with anti-replay protection and lazy session creation.
//!
//! - [`protocol`]: message shapes, command text and HMAC-SHA256 signing
//! - [`daemon`]: request admission in the elevated helper
//! - [`executor`]: the client session and the execution context
//! - [`fstab`], [`disk`], [`device`], [`preset`], [`mount`], [`syscall`],
//!   [`steam`]: the drive-mounting logic that runs through the context
//! - [`text`], [`error`]: shared helpers and the error type

pub mod error;
pub mod text;
pub mod protocol;
pub mod daemon;
pub mod executor;
pub mod preset;
pub mod syscall;
pub mod fstab;
pub mod disk;
pub mod mount;
pub mod steam;
pub mod device;
