//! Mount option presets: the options for a drive follow from its
//! filesystem, its storage media (flash or rotational) and how it is
//! connected (fixed or removable).

use vstd::prelude::*;
use crate::error::Error;
use crate::text::{decimal, join, join_with, lowercase_of, push_decimal, push_text, text_eq, to_lowercase, views};

verus! {

/// Default user id (first regular user on most Linux systems).
pub const DEFAULT_UID: u32 = 1000;

/// Default group id.
pub const DEFAULT_GID: u32 = 1000;

/// Default device timeout for fixed devices, in seconds.
pub const DEFAULT_DEVICE_TIMEOUT_SECS: u32 = 3;

/// Default idle timeout for removable devices, in seconds.
pub const DEFAULT_IDLE_TIMEOUT_SECS: u32 = 60;

/// Options applied to every mount.
pub open spec fn base_options() -> Seq<char> {
    "umask=000,nofail,rw,noatime"@
}

/// Filesystems that presets support.
#[derive(Debug, Clone, Copy, PartialEq, Eq, Structural)]
pub enum SupportedFilesystem {
    Ntfs,
    Exfat,
}

/// Storage media type.
#[derive(Debug, Clone, Copy, PartialEq, Eq, Structural)]
pub enum MediaType {
    /// Flash storage (SSD, SD card, USB stick).
    Flash,
    /// Rotational hard drive.
    Rotational,
}

/// How the device is connected.
#[derive(Debug, Clone, Copy, PartialEq, Eq, Structural)]
pub enum DeviceType {
    /// Internal or permanently connected.
    Fixed,
    /// Hot-swappable.
    Removable,
}

impl Default for MediaType {
    fn default() -> (r: MediaType)
        ensures
            r == MediaType::Flash,
    {
        MediaType::Flash
    }
}

impl Default for DeviceType {
    fn default() -> (r: DeviceType)
        ensures
            r == DeviceType::Fixed,
    {
        DeviceType::Fixed
    }
}

/// Name of the kernel driver for a filesystem.
pub open spec fn driver_of(fs: SupportedFilesystem) -> Seq<char> {
    match fs {
        SupportedFilesystem::Ntfs => "ntfs3"@,
        SupportedFilesystem::Exfat => "exfat"@,
    }
}

impl SupportedFilesystem {
    /// The preferred kernel driver name.
    pub fn driver_name(&self) -> (r: &'static str)
        ensures
            r@ == driver_of(*self),
    {
        match self {
            SupportedFilesystem::Ntfs => "ntfs3",
            SupportedFilesystem::Exfat => "exfat",
        }
    }

    /// The filesystem named `s`, in any case: `ntfs` or `ntfs3`, or `exfat`.
    pub fn from_name(s: &str) -> (r: Result<SupportedFilesystem, Error>)
        ensures
            (lowercase_of(s@) == "ntfs"@ || lowercase_of(s@) == "ntfs3"@) ==> r == Ok::<SupportedFilesystem, Error>(SupportedFilesystem::Ntfs),
            lowercase_of(s@) == "exfat"@ ==> r == Ok::<SupportedFilesystem, Error>(SupportedFilesystem::Exfat),
            !(lowercase_of(s@) == "ntfs"@ || lowercase_of(s@) == "ntfs3"@ || lowercase_of(s@) == "exfat"@)
                ==> (r matches Err(Error::InvalidFilesystem { fs }) && fs@ == s@),
    {
        let l = to_lowercase(s);
        proof {
            reveal_strlit("ntfs");
            reveal_strlit("ntfs3");
            reveal_strlit("exfat");
            assert("exfat"@.len() != "ntfs"@.len());
            assert("exfat"@[0] != "ntfs3"@[0]);
        }
        if text_eq(l.as_str(), "ntfs") || text_eq(l.as_str(), "ntfs3") {
            Ok(SupportedFilesystem::Ntfs)
        } else if text_eq(l.as_str(), "exfat") {
            Ok(SupportedFilesystem::Exfat)
        } else {
            Err(Error::InvalidFilesystem { fs: s.to_string() })
        }
    }
}

/// Timeouts for the systemd mount options.
#[derive(Debug, Clone, Copy, PartialEq, Eq, Structural)]
pub struct TimeoutConfig {
    /// `x-systemd.device-timeout` in seconds, for fixed devices.
    pub device_timeout_secs: Option<u32>,
    /// `x-systemd.idle-timeout` in seconds, for removable devices.
    pub idle_timeout_secs: Option<u32>,
}

impl Default for TimeoutConfig {
    fn default() -> (r: TimeoutConfig)
        ensures
            r.device_timeout_secs == Some(DEFAULT_DEVICE_TIMEOUT_SECS),
            r.idle_timeout_secs == Some(DEFAULT_IDLE_TIMEOUT_SECS),
    {
        TimeoutConfig {
            device_timeout_secs: Some(DEFAULT_DEVICE_TIMEOUT_SECS),
            idle_timeout_secs: Some(DEFAULT_IDLE_TIMEOUT_SECS),
        }
    }
}

fn default_timeouts() -> (r: TimeoutConfig)
    ensures
        r.device_timeout_secs == Some(DEFAULT_DEVICE_TIMEOUT_SECS),
        r.idle_timeout_secs == Some(DEFAULT_IDLE_TIMEOUT_SECS),
{
    TimeoutConfig {
        device_timeout_secs: Some(DEFAULT_DEVICE_TIMEOUT_SECS),
        idle_timeout_secs: Some(DEFAULT_IDLE_TIMEOUT_SECS),
    }
}

/// Configuration from which mount options are generated.
#[derive(Debug, Clone, PartialEq, Eq)]
pub struct PresetConfig {
    pub filesystem: SupportedFilesystem,
    pub media_type: MediaType,
    pub device_type: DeviceType,
    pub timeout: TimeoutConfig,
    pub custom_options: Option<String>,
}

/// Earlier name of [`PresetConfig`].
pub type MountPreset = PresetConfig;

/// The configuration with the given choices, default timeouts and no
/// custom options.
pub open spec fn is_plain_config(c: PresetConfig, fs: SupportedFilesystem, media: MediaType, device: DeviceType) -> bool {
    &&& c.filesystem == fs
    &&& c.media_type == media
    &&& c.device_type == device
    &&& c.timeout.device_timeout_secs == Some(DEFAULT_DEVICE_TIMEOUT_SECS)
    &&& c.timeout.idle_timeout_secs == Some(DEFAULT_IDLE_TIMEOUT_SECS)
    &&& c.custom_options is None
}

/// `seq![x]` when `b` holds, else empty.
pub open spec fn when(b: bool, x: Seq<char>) -> Seq<Seq<char>> {
    if b { seq![x] } else { seq![] }
}

/// The option groups for a configuration, in order: ownership, base
/// options, `prealloc` for NTFS, `discard` for flash, the timeout options
/// of the connection type, and the custom options when not empty.
pub open spec fn option_groups(c: PresetConfig, uid: u32, gid: u32) -> Seq<Seq<char>> {
    seq!["uid="@ + decimal(uid as nat) + ",gid="@ + decimal(gid as nat), base_options()]
        + when(c.filesystem == SupportedFilesystem::Ntfs, "prealloc"@)
        + when(c.media_type == MediaType::Flash, "discard"@)
        + (match c.device_type {
            DeviceType::Fixed => match c.timeout.device_timeout_secs {
                Some(t) => seq!["x-systemd.device-timeout="@ + decimal(t as nat) + "s"@],
                None => seq![],
            },
            DeviceType::Removable => seq!["noauto"@, "x-systemd.automount"@] + match c.timeout.idle_timeout_secs {
                Some(t) => seq!["x-systemd.idle-timeout="@ + decimal(t as nat) + "s"@],
                None => seq![],
            },
        })
        + (match c.custom_options {
            Some(o) => when(o@.len() > 0, o@),
            None => seq![],
        })
}

fn timeout_option(prefix: &str, secs: u32) -> (r: String)
    ensures
        r@ == prefix@ + decimal(secs as nat) + "s"@,
{
    let mut s = String::new();
    push_text(&mut s, prefix);
    push_decimal(&mut s, secs as u64);
    push_text(&mut s, "s");
    s
}

impl PresetConfig {
    /// Defaults for a filesystem: flash media, fixed connection.
    pub fn new(filesystem: SupportedFilesystem) -> (r: PresetConfig)
        ensures
            is_plain_config(r, filesystem, MediaType::Flash, DeviceType::Fixed),
    {
        PresetConfig {
            filesystem,
            media_type: MediaType::Flash,
            device_type: DeviceType::Fixed,
            timeout: default_timeouts(),
            custom_options: None,
        }
    }

    /// Preset for internal or fixed SSDs.
    pub fn ssd_defaults(fs: SupportedFilesystem) -> (r: PresetConfig)
        ensures
            is_plain_config(r, fs, MediaType::Flash, DeviceType::Fixed),
    {
        PresetConfig {
            filesystem: fs,
            media_type: MediaType::Flash,
            device_type: DeviceType::Fixed,
            timeout: default_timeouts(),
            custom_options: None,
        }
    }

    /// Preset for portable, hot-swappable devices.
    pub fn portable_defaults(fs: SupportedFilesystem) -> (r: PresetConfig)
        ensures
            is_plain_config(r, fs, MediaType::Flash, DeviceType::Removable),
    {
        PresetConfig {
            filesystem: fs,
            media_type: MediaType::Flash,
            device_type: DeviceType::Removable,
            timeout: default_timeouts(),
            custom_options: None,
        }
    }

    /// Defaults with extra custom options.
    pub fn custom(fs: SupportedFilesystem, options: &str) -> (r: PresetConfig)
        ensures
            r.filesystem == fs,
            r.media_type == MediaType::Flash,
            r.device_type == DeviceType::Fixed,
            r.timeout.device_timeout_secs == Some(DEFAULT_DEVICE_TIMEOUT_SECS),
            r.timeout.idle_timeout_secs == Some(DEFAULT_IDLE_TIMEOUT_SECS),
            r.custom_options is Some && r.custom_options->Some_0@ == options@,
    {
        PresetConfig {
            filesystem: fs,
            media_type: MediaType::Flash,
            device_type: DeviceType::Fixed,
            timeout: default_timeouts(),
            custom_options: Some(options.to_string()),
        }
    }

    /// The mount options, comma separated.
    pub fn generate_options(&self, uid: u32, gid: u32) -> (r: String)
        ensures
            r@ == join_with(option_groups(*self, uid, gid), ","@),
    {
        let mut opts: Vec<String> = Vec::new();
        let mut ids = String::new();
        push_text(&mut ids, "uid=");
        push_decimal(&mut ids, uid as u64);
        push_text(&mut ids, ",gid=");
        push_decimal(&mut ids, gid as u64);
        opts.push(ids);
        opts.push("umask=000,nofail,rw,noatime".to_string());
        let ghost g1 = seq!["uid="@ + decimal(uid as nat) + ",gid="@ + decimal(gid as nat), base_options()];
        assert(views(opts@) =~= g1);
        if self.filesystem == SupportedFilesystem::Ntfs {
            opts.push("prealloc".to_string());
        }
        let ghost g2 = g1 + when(self.filesystem == SupportedFilesystem::Ntfs, "prealloc"@);
        assert(views(opts@) =~= g2);
        if self.media_type == MediaType::Flash {
            opts.push("discard".to_string());
        }
        let ghost g3 = g2 + when(self.media_type == MediaType::Flash, "discard"@);
        assert(views(opts@) =~= g3);
        match self.device_type {
            DeviceType::Fixed => {
                match self.timeout.device_timeout_secs {
                    Some(t) => opts.push(timeout_option("x-systemd.device-timeout=", t)),
                    None => {},
                }
            },
            DeviceType::Removable => {
                opts.push("noauto".to_string());
                opts.push("x-systemd.automount".to_string());
                match self.timeout.idle_timeout_secs {
                    Some(t) => opts.push(timeout_option("x-systemd.idle-timeout=", t)),
                    None => {},
                }
            },
        }
        let ghost g4 = g3 + (match self.device_type {
            DeviceType::Fixed => match self.timeout.device_timeout_secs {
                Some(t) => seq!["x-systemd.device-timeout="@ + decimal(t as nat) + "s"@],
                None => seq![],
            },
            DeviceType::Removable => seq!["noauto"@, "x-systemd.automount"@] + match self.timeout.idle_timeout_secs {
                Some(t) => seq!["x-systemd.idle-timeout="@ + decimal(t as nat) + "s"@],
                None => seq![],
            },
        });
        assert(views(opts@) =~= g4);
        match &self.custom_options {
            Some(c) => {
                if !c.as_str().is_empty() {
                    opts.push(c.clone());
                }
            },
            None => {},
        }
        assert(views(opts@) =~= option_groups(*self, uid, gid));
        join(&opts, ",")
    }

    /// A complete fstab line for display: spec, mount point, driver,
    /// options, and zero dump and pass fields, two spaces apart.
    pub fn preview_fstab_line(&self, fs_spec: &str, mount_point: &str, uid: u32, gid: u32) -> (r: String)
        ensures
            r@ == fs_spec@ + "  "@ + mount_point@ + "  "@ + driver_of(self.filesystem) + "  "@
                + join_with(option_groups(*self, uid, gid), ","@) + "  0  0"@,
    {
        let options = self.generate_options(uid, gid);
        let mut s = String::new();
        push_text(&mut s, fs_spec);
        push_text(&mut s, "  ");
        push_text(&mut s, mount_point);
        push_text(&mut s, "  ");
        push_text(&mut s, self.filesystem.driver_name());
        push_text(&mut s, "  ");
        push_text(&mut s, options.as_str());
        push_text(&mut s, "  0  0");
        s
    }
}


/// One choice offered to the user.
#[derive(Debug, Clone, PartialEq, Eq)]
pub struct OptionMetadata {
    /// Option value (`fixed`, `removable`, `flash`, `rotational`).
    pub value: String,
    /// Display label.
    pub label: String,
    /// Human-readable description.
    pub description: String,
    /// Whether this is the recommended choice.
    pub recommended: bool,
}

/// A recommended configuration with the choices to present.
#[derive(Debug, Clone, PartialEq, Eq)]
pub struct MountConfigSuggestion {
    /// Recommended configuration.
    pub default_config: PresetConfig,
    /// Connection choices: fixed, then removable.
    pub connection_type_options: Vec<OptionMetadata>,
    /// Media choices: flash, then rotational.
    pub media_type_options: Vec<OptionMetadata>,
    /// Description of the device timeout (fixed devices).
    pub device_timeout_desc: String,
    /// Description of the idle timeout (removable devices).
    pub idle_timeout_desc: String,
}

fn option_metadata(value: &str, label: &str, description: &str, recommended: bool) -> (r: OptionMetadata)
    ensures
        r.value@ == value@,
        r.recommended == recommended,
{
    OptionMetadata {
        value: value.to_string(),
        label: label.to_string(),
        description: description.to_string(),
        recommended,
    }
}

/// Whether a device is removable: flagged so, or attached over USB.
pub open spec fn suggests_removable(removable: Option<bool>, transport: Option<&str>) -> bool {
    removable == Some(true) || (transport is Some && transport->Some_0@ == "usb"@)
}

/// Suggests a configuration from a device's properties: removable when
/// flagged so or on USB, rotational when flagged so; default timeouts.
pub fn suggest_preset_config(
    filesystem: SupportedFilesystem,
    rota: Option<bool>,
    removable: Option<bool>,
    transport: Option<&str>,
) -> (r: MountConfigSuggestion)
    ensures
        is_plain_config(
            r.default_config,
            filesystem,
            if rota == Some(true) { MediaType::Rotational } else { MediaType::Flash },
            if suggests_removable(removable, transport) { DeviceType::Removable } else { DeviceType::Fixed },
        ),
        r.connection_type_options@.len() == 2,
        r.connection_type_options@[0].value@ == "fixed"@,
        r.connection_type_options@[0].recommended == !suggests_removable(removable, transport),
        r.connection_type_options@[1].value@ == "removable"@,
        r.connection_type_options@[1].recommended == suggests_removable(removable, transport),
        r.media_type_options@.len() == 2,
        r.media_type_options@[0].value@ == "flash"@,
        r.media_type_options@[0].recommended == (rota != Some(true)),
        r.media_type_options@[1].value@ == "rotational"@,
        r.media_type_options@[1].recommended == (rota == Some(true)),
{
    let usb = match transport {
        Some(t) => text_eq(t, "usb"),
        None => false,
    };
    let is_removable = match removable {
        Some(b) => b,
        None => false,
    } || usb;
    let device_type = if is_removable { DeviceType::Removable } else { DeviceType::Fixed };
    let is_rotational = match rota {
        Some(b) => b,
        None => false,
    };
    let media_type = if is_rotational { MediaType::Rotational } else { MediaType::Flash };
    let default_config = PresetConfig {
        filesystem,
        media_type,
        device_type,
        timeout: default_timeouts(),
        custom_options: None,
    };
    let mut connection_type_options: Vec<OptionMetadata> = Vec::new();
    connection_type_options.push(option_metadata(
        "fixed",
        "Internal / Fixed",
        "Always connected. Waits for device at boot (systemd device timeout).",
        !is_removable,
    ));
    connection_type_options.push(option_metadata(
        "removable",
        "Removable",
        "Hot-swappable. Auto-mounts on access (systemd automount).",
        is_removable,
    ));
    let mut media_type_options: Vec<OptionMetadata> = Vec::new();
    media_type_options.push(option_metadata(
        "flash",
        "Flash (SSD / SD)",
        " optimized for flash storage. Enables TRIM/Discard.",
        !is_rotational,
    ));
    media_type_options.push(option_metadata(
        "rotational",
        "Rotational (HDD)",
        "Optimized for spinning disks. Disables TRIM to avoid errors.",
        is_rotational,
    ));
    MountConfigSuggestion {
        default_config,
        connection_type_options,
        media_type_options,
        device_timeout_desc: "Time to wait for device at boot before failing.".to_string(),
        idle_timeout_desc: "Time before unmounting idle device.".to_string(),
    }
}

} // verus!
