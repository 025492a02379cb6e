//! Block devices and the drives that fstab manages.
//!
//! A device is mountable here when it holds an NTFS or exFAT filesystem. A
//! managed device is either online (visible to the system) or offline (in
//! the managed block of fstab but not connected).

use vstd::prelude::*;
use crate::error::Error;
use crate::fstab::FstabEntry;
use crate::text::{
    chars_of, copy_opt, copy_texts, join, join_with, opt_view, push_char, push_text, strip_prefix,
    text_eq, views, without_prefix,
};

verus! {

/// Whether a character is alphanumeric, as `char::is_alphanumeric` says.
pub uninterp spec fn alphanumeric(c: char) -> bool;

/// Relies on char::is_alphanumeric: a property of the character alone.
#[verifier::external_body]
fn is_alphanumeric(c: char) -> (r: bool)
    ensures
        r == alphanumeric(c),
{
    c.is_alphanumeric()
}

/// A partition on the system.
#[derive(Debug, Clone, PartialEq, Eq)]
pub struct BlockDevice {
    /// Device name (`nvme0n1p2`, `sda1`).
    pub name: String,
    /// Volume label.
    pub label: Option<String>,
    /// Filesystem UUID, case-sensitive.
    pub uuid: Option<String>,
    /// Partition UUID, case-sensitive.
    pub partuuid: Option<String>,
    /// Filesystem type (`ntfs`, `exfat`).
    pub fstype: Option<String>,
    /// Current mount point, if mounted.
    pub mountpoint: Option<String>,
    /// Size in bytes.
    pub size: u64,
    /// Full device path (`/dev/nvme0n1p2`).
    pub path: String,
    /// Whether the device is rotational.
    pub rota: bool,
    /// Whether the device is removable.
    pub removable: bool,
    /// Transport type (`usb`, `nvme`, `sata`, `mmc`).
    pub transport: Option<String>,
}

/// The device holds NTFS.
pub open spec fn is_ntfs_device(d: BlockDevice) -> bool {
    opt_view(d.fstype) == Some("ntfs"@)
}

/// The device holds exFAT.
pub open spec fn is_exfat_device(d: BlockDevice) -> bool {
    opt_view(d.fstype) == Some("exfat"@)
}

/// The device can be mounted by this library.
pub open spec fn is_mountable_device(d: BlockDevice) -> bool {
    is_ntfs_device(d) || is_exfat_device(d)
}

/// The fstab identifier of a device: by UUID, else by PARTUUID.
pub open spec fn fstab_spec_of(d: BlockDevice) -> Option<Seq<char>> {
    match d.uuid {
        Some(u) => Some("UUID="@ + u@),
        None => match d.partuuid {
            Some(p) => Some("PARTUUID="@ + p@),
            None => None,
        },
    }
}

/// Each character kept if alphanumeric, `-` or `_`, else replaced by `_`.
pub open spec fn sanitized(s: Seq<char>) -> Seq<char> {
    s.map_values(|c: char| if alphanumeric(c) || c == '-' || c == '_' { c } else { '_' })
}

/// The first `n` characters, or all of them when there are fewer.
pub open spec fn take(s: Seq<char>, n: nat) -> Seq<char> {
    if s.len() <= n { s } else { s.subrange(0, n as int) }
}

/// Mount directory name for a device: its sanitized label when not empty,
/// else the first eight characters of its UUID, else its name.
pub open spec fn mount_name_of(d: BlockDevice) -> Seq<char> {
    if d.label is Some && d.label->Some_0@.len() > 0 {
        sanitized(d.label->Some_0@)
    } else if d.uuid is Some {
        take(d.uuid->Some_0@, 8)
    } else {
        d.name@
    }
}

/// Replaces the characters that do not belong in a directory name with `_`.
pub fn sanitize_mount_name(name: &str) -> (r: String)
    ensures
        r@ == sanitized(name@),
{
    let cs = chars_of(name);
    let mut out = String::new();
    let mut i: usize = 0;
    while i < cs.len()
        invariant
            i <= cs@.len(),
            cs@ == name@,
            out@ == sanitized(cs@.subrange(0, i as int)),
        decreases cs@.len() - i,
    {
        let c = cs[i];
        if is_alphanumeric(c) || c == '-' || c == '_' {
            push_char(&mut out, c);
        } else {
            push_char(&mut out, '_');
        }
        i = i + 1;
        assert(out@ =~= sanitized(cs@.subrange(0, i as int)));
    }
    assert(cs@.subrange(0, cs@.len() as int) =~= cs@);
    out
}

fn is_text(o: &Option<String>, t: &str) -> (r: bool)
    ensures
        r == (opt_view(*o) == Some(t@)),
{
    match o {
        Some(s) => text_eq(s.as_str(), t),
        None => false,
    }
}

impl BlockDevice {
    /// A field-by-field copy.
    pub fn copy(&self) -> (r: BlockDevice)
        ensures
            r.name@ == self.name@,
            opt_view(r.label) == opt_view(self.label),
            opt_view(r.uuid) == opt_view(self.uuid),
            opt_view(r.partuuid) == opt_view(self.partuuid),
            opt_view(r.fstype) == opt_view(self.fstype),
            opt_view(r.mountpoint) == opt_view(self.mountpoint),
            r.size == self.size,
            r.path@ == self.path@,
            r.rota == self.rota,
            r.removable == self.removable,
            opt_view(r.transport) == opt_view(self.transport),
    {
        BlockDevice {
            name: self.name.clone(),
            label: copy_opt(&self.label),
            uuid: copy_opt(&self.uuid),
            partuuid: copy_opt(&self.partuuid),
            fstype: copy_opt(&self.fstype),
            mountpoint: copy_opt(&self.mountpoint),
            size: self.size,
            path: self.path.clone(),
            rota: self.rota,
            removable: self.removable,
            transport: copy_opt(&self.transport),
        }
    }

    /// The identifier for fstab: `UUID=<uuid>` when the UUID is known, else
    /// `PARTUUID=<partuuid>`.
    pub fn fstab_spec(&self) -> (r: Option<String>)
        ensures
            opt_view(r) == fstab_spec_of(*self),
    {
        match &self.uuid {
            Some(u) => {
                let mut s = String::new();
                push_text(&mut s, "UUID=");
                push_text(&mut s, u.as_str());
                Some(s)
            },
            None => match &self.partuuid {
                Some(p) => {
                    let mut s = String::new();
                    push_text(&mut s, "PARTUUID=");
                    push_text(&mut s, p.as_str());
                    Some(s)
                },
                None => None,
            },
        }
    }

    /// The by-uuid or by-partuuid link that must exist for the fstab
    /// identifier to resolve; an error when the device has neither.
    pub fn fstab_spec_link(&self) -> (r: Result<String, Error>)
        ensures
            self.uuid is Some ==> (r matches Ok(l) && l@ == "/dev/disk/by-uuid/"@ + self.uuid->Some_0@),
            self.uuid is None && self.partuuid is Some ==> (r matches Ok(l)
                && l@ == "/dev/disk/by-partuuid/"@ + self.partuuid->Some_0@),
            self.uuid is None && self.partuuid is None ==> (r matches Err(Error::InvalidUuid { uuid })
                && uuid@ == "Device has no UUID or PARTUUID"@),
    {
        match &self.uuid {
            Some(u) => {
                let mut s = String::new();
                push_text(&mut s, "/dev/disk/by-uuid/");
                push_text(&mut s, u.as_str());
                Ok(s)
            },
            None => match &self.partuuid {
                Some(p) => {
                    let mut s = String::new();
                    push_text(&mut s, "/dev/disk/by-partuuid/");
                    push_text(&mut s, p.as_str());
                    Ok(s)
                },
                None => Err(Error::InvalidUuid { uuid: "Device has no UUID or PARTUUID".to_string() }),
            },
        }
    }

    /// Checks the fstab identifier, given whether its link exists (see
    /// [`BlockDevice::fstab_spec_link`]).
    pub fn validate_fstab_spec(&self, link_exists: bool) -> (r: Result<(), Error>)
        ensures
            (self.uuid is Some || self.partuuid is Some) ==> (r is Ok <==> link_exists),
            self.uuid is None && self.partuuid is None ==> (r matches Err(Error::InvalidUuid { uuid })
                && uuid@ == "Device has no UUID or PARTUUID"@),
            r is Err ==> r->Err_0 is InvalidUuid,
    {
        match self.fstab_spec_link() {
            Ok(link) => {
                if link_exists {
                    Ok(())
                } else {
                    let mut m = String::new();
                    match &self.uuid {
                        Some(_) => push_text(&mut m, "UUID does not exist at "),
                        None => push_text(&mut m, "PARTUUID does not exist at "),
                    }
                    push_text(&mut m, link.as_str());
                    Err(Error::InvalidUuid { uuid: m })
                }
            },
            Err(e) => Err(e),
        }
    }

    /// A directory name for mounting the device.
    pub fn suggested_mount_name(&self) -> (r: String)
        ensures
            r@ == mount_name_of(*self),
    {
        match &self.label {
            Some(l) => {
                if !l.as_str().is_empty() {
                    return sanitize_mount_name(l.as_str());
                }
            },
            None => {},
        }
        match &self.uuid {
            Some(u) => {
                let cs = chars_of(u.as_str());
                let mut out: Vec<char> = Vec::new();
                let mut i: usize = 0;
                while i < cs.len() && i < 8
                    invariant
                        i <= cs@.len(),
                        i <= 8,
                        out@ == cs@.subrange(0, i as int),
                    decreases cs@.len() - i,
                {
                    out.push(cs[i]);
                    i = i + 1;
                    assert(out@ =~= cs@.subrange(0, i as int));
                }
                assert(out@ =~= take(u@, 8));
                crate::text::string_of(&out)
            },
            None => self.name.clone(),
        }
    }

    /// Whether the device holds NTFS.
    pub fn is_ntfs(&self) -> (r: bool)
        ensures
            r == is_ntfs_device(*self),
    {
        is_text(&self.fstype, "ntfs")
    }

    /// Whether the device holds exFAT.
    pub fn is_exfat(&self) -> (r: bool)
        ensures
            r == is_exfat_device(*self),
    {
        is_text(&self.fstype, "exfat")
    }

    /// Whether this library can mount the device.
    pub fn is_mountable(&self) -> (r: bool)
        ensures
            r == is_mountable_device(*self),
    {
        self.is_ntfs() || self.is_exfat()
    }

    /// Whether the device is mounted.
    pub fn is_mounted(&self) -> (r: bool)
        ensures
            r == (self.mountpoint is Some),
    {
        self.mountpoint.is_some()
    }
}

/// Two devices with equal fields.
pub open spec fn same_device(a: BlockDevice, b: BlockDevice) -> bool {
    &&& a.name@ == b.name@
    &&& opt_view(a.label) == opt_view(b.label)
    &&& opt_view(a.uuid) == opt_view(b.uuid)
    &&& opt_view(a.partuuid) == opt_view(b.partuuid)
    &&& opt_view(a.fstype) == opt_view(b.fstype)
    &&& opt_view(a.mountpoint) == opt_view(b.mountpoint)
    &&& a.size == b.size
    &&& a.path@ == b.path@
    &&& a.rota == b.rota
    &&& a.removable == b.removable
    &&& opt_view(a.transport) == opt_view(b.transport)
}

/// The mountable devices among `devices`, in order.
pub open spec fn mountable_of(devices: Seq<BlockDevice>) -> Seq<BlockDevice> {
    devices.filter(|d: BlockDevice| is_mountable_device(d))
}

/// The mountable devices, in order: copies of exactly the input devices
/// that hold NTFS or exFAT.
pub fn filter_mountable_devices(devices: &Vec<BlockDevice>) -> (r: Vec<BlockDevice>)
    ensures
        r@.len() == mountable_of(devices@).len(),
        forall|k: int| 0 <= k < r@.len() ==> same_device(#[trigger] r@[k], mountable_of(devices@)[k]),
        forall|k: int| 0 <= k < r@.len() ==> #[trigger] is_mountable_device(r@[k]),
{
    let mut r: Vec<BlockDevice> = Vec::new();
    let mut i: usize = 0;
    while i < devices.len()
        invariant
            i <= devices@.len(),
            r@.len() == mountable_of(devices@.subrange(0, i as int)).len(),
            forall|k: int| 0 <= k < r@.len() ==> same_device(#[trigger] r@[k], mountable_of(devices@.subrange(0, i as int))[k]),
            forall|k: int| 0 <= k < r@.len() ==> #[trigger] is_mountable_device(r@[k]),
        decreases devices@.len() - i,
    {
        let ghost pre = devices@.subrange(0, i + 1);
        let ghost before = mountable_of(devices@.subrange(0, i as int));
        proof {
            assert(pre.drop_last() =~= devices@.subrange(0, i as int));
            assert(pre.last() == devices@[i as int]);
            reveal(Seq::filter);
        }
        if devices[i].is_mountable() {
            let d = devices[i].copy();
            assert(mountable_of(pre) == before.push(devices@[i as int]));
            r.push(d);
        } else {
            assert(mountable_of(pre) == before);
        }
        i = i + 1;
    }
    assert(devices@.subrange(0, devices@.len() as int) =~= devices@);
    r
}

/// A managed device that is in fstab but not connected.
#[derive(Debug, Clone, PartialEq, Eq)]
pub struct OfflineDevice {
    /// Identifier from fstab (`UUID=...`, `PARTUUID=...`, `LABEL=...`).
    pub fs_spec: String,
    /// Mount point path.
    pub mount_point: String,
    /// Filesystem type (`ntfs3`, `exfat`).
    pub vfs_type: String,
    /// Mount options.
    pub mount_options: Vec<String>,
    /// UUID, when the identifier is by UUID.
    pub uuid: Option<String>,
    /// PARTUUID, when the identifier is by PARTUUID.
    pub partuuid: Option<String>,
    /// Label, when the identifier is by label.
    pub label: Option<String>,
}

/// The UUID, PARTUUID or label that an fstab identifier names; at most one
/// of them, none for a device path.
pub open spec fn fs_spec_parts(spec: Seq<char>) -> (Option<Seq<char>>, Option<Seq<char>>, Option<Seq<char>>) {
    if without_prefix(spec, "UUID="@) is Some {
        (without_prefix(spec, "UUID="@), None, None)
    } else if without_prefix(spec, "PARTUUID="@) is Some {
        (None, without_prefix(spec, "PARTUUID="@), None)
    } else if without_prefix(spec, "LABEL="@) is Some {
        (None, None, without_prefix(spec, "LABEL="@))
    } else {
        (None, None, None)
    }
}

/// Splits an fstab identifier into the UUID, PARTUUID or label it names.
pub fn parse_fs_spec(fs_spec: &str) -> (r: (Option<String>, Option<String>, Option<String>))
    ensures
        (opt_view(r.0), opt_view(r.1), opt_view(r.2)) == fs_spec_parts(fs_spec@),
{
    let u = strip_prefix(fs_spec, "UUID=");
    if u.is_some() {
        return (u, None, None);
    }
    let p = strip_prefix(fs_spec, "PARTUUID=");
    if p.is_some() {
        return (None, p, None);
    }
    let l = strip_prefix(fs_spec, "LABEL=");
    if l.is_some() {
        return (None, None, l);
    }
    (None, None, None)
}

impl OfflineDevice {
    /// The offline device that an fstab entry describes.
    pub fn from_fstab_entry(entry: &FstabEntry) -> (r: OfflineDevice)
        ensures
            r.fs_spec@ == entry.fs_spec@,
            r.mount_point@ == entry.mount_point@,
            r.vfs_type@ == entry.vfs_type@,
            views(r.mount_options@) == views(entry.mount_options@),
            (opt_view(r.uuid), opt_view(r.partuuid), opt_view(r.label)) == fs_spec_parts(entry.fs_spec@),
    {
        let (uuid, partuuid, label) = parse_fs_spec(entry.fs_spec.as_str());
        OfflineDevice {
            fs_spec: entry.fs_spec.clone(),
            mount_point: entry.mount_point.clone(),
            vfs_type: entry.vfs_type.clone(),
            mount_options: copy_texts(&entry.mount_options),
            uuid,
            partuuid,
            label,
        }
    }

    /// The fstab line for the device, with zero dump and pass fields.
    pub fn to_fstab_line(&self) -> (r: String)
        ensures
            r@ == self.fs_spec@ + "  "@ + self.mount_point@ + "  "@ + self.vfs_type@ + "  "@
                + join_with(views(self.mount_options@), ","@) + "  0  0"@,
    {
        let mut s = String::new();
        push_text(&mut s, self.fs_spec.as_str());
        push_text(&mut s, "  ");
        push_text(&mut s, self.mount_point.as_str());
        push_text(&mut s, "  ");
        push_text(&mut s, self.vfs_type.as_str());
        push_text(&mut s, "  ");
        push_text(&mut s, join(&self.mount_options, ",").as_str());
        push_text(&mut s, "  0  0");
        s
    }
}

/// Normalizes a filesystem type for comparison: `ntfs3` becomes `ntfs`,
/// others stay.
pub fn normalize_fstype<'a>(fstype: &'a str) -> (r: &'a str)
    ensures
        fstype@ == "ntfs3"@ ==> r@ == "ntfs"@,
        fstype@ != "ntfs3"@ ==> r@ == fstype@,
{
    if text_eq(fstype, "ntfs3") {
        "ntfs"
    } else {
        fstype
    }
}

/// The fstab driver for a reported filesystem type: `ntfs` becomes
/// `ntfs3`, others stay.
pub fn fstype_to_vfs_type<'a>(fstype: &'a str) -> (r: &'a str)
    ensures
        fstype@ == "ntfs"@ ==> r@ == "ntfs3"@,
        fstype@ != "ntfs"@ ==> r@ == fstype@,
{
    if text_eq(fstype, "ntfs") {
        "ntfs3"
    } else {
        fstype
    }
}

/// The reported filesystem type for an fstab driver: `ntfs3` becomes
/// `ntfs`, others stay.
pub fn vfs_type_to_fstype<'a>(vfs_type: &'a str) -> (r: &'a str)
    ensures
        vfs_type@ == "ntfs3"@ ==> r@ == "ntfs"@,
        vfs_type@ != "ntfs3"@ ==> r@ == vfs_type@,
{
    if text_eq(vfs_type, "ntfs3") {
        "ntfs"
    } else {
        vfs_type
    }
}

/// A device that is online or only configured in fstab.
#[derive(Debug, Clone, PartialEq, Eq)]
pub enum ManagedDevice {
    /// Connected and visible to the system.
    Online(BlockDevice),
    /// Configured in fstab but not connected.
    Offline(OfflineDevice),
}

fn opt_str<'a>(o: &'a Option<String>) -> (r: Option<&'a str>)
    ensures
        r is Some == o is Some,
        r is Some ==> r->Some_0@ == o->Some_0@,
{
    match o {
        Some(s) => Some(s.as_str()),
        None => None,
    }
}

impl ManagedDevice {
    /// Whether the device is online.
    pub fn is_online(&self) -> (r: bool)
        ensures
            r == (*self is Online),
    {
        match self {
            ManagedDevice::Online(_) => true,
            ManagedDevice::Offline(_) => false,
        }
    }

    /// Whether the device is offline.
    pub fn is_offline(&self) -> (r: bool)
        ensures
            r == (*self is Offline),
    {
        match self {
            ManagedDevice::Online(_) => false,
            ManagedDevice::Offline(_) => true,
        }
    }

    /// The UUID, if known.
    pub fn uuid(&self) -> (r: Option<&str>)
        ensures
            r is Some == (match *self { ManagedDevice::Online(d) => d.uuid is Some, ManagedDevice::Offline(d) => d.uuid is Some }),
            r is Some ==> r->Some_0@ == (match *self { ManagedDevice::Online(d) => d.uuid->Some_0@, ManagedDevice::Offline(d) => d.uuid->Some_0@ }),
    {
        match self {
            ManagedDevice::Online(d) => opt_str(&d.uuid),
            ManagedDevice::Offline(d) => opt_str(&d.uuid),
        }
    }

    /// The PARTUUID, if known.
    pub fn partuuid(&self) -> (r: Option<&str>)
        ensures
            r is Some == (match *self { ManagedDevice::Online(d) => d.partuuid is Some, ManagedDevice::Offline(d) => d.partuuid is Some }),
            r is Some ==> r->Some_0@ == (match *self { ManagedDevice::Online(d) => d.partuuid->Some_0@, ManagedDevice::Offline(d) => d.partuuid->Some_0@ }),
    {
        match self {
            ManagedDevice::Online(d) => opt_str(&d.partuuid),
            ManagedDevice::Offline(d) => opt_str(&d.partuuid),
        }
    }

    /// The label, if known.
    pub fn label(&self) -> (r: Option<&str>)
        ensures
            r is Some == (match *self { ManagedDevice::Online(d) => d.label is Some, ManagedDevice::Offline(d) => d.label is Some }),
            r is Some ==> r->Some_0@ == (match *self { ManagedDevice::Online(d) => d.label->Some_0@, ManagedDevice::Offline(d) => d.label->Some_0@ }),
    {
        match self {
            ManagedDevice::Online(d) => opt_str(&d.label),
            ManagedDevice::Offline(d) => opt_str(&d.label),
        }
    }
}

/// Whether a device is the one an fstab entry names: by UUID, PARTUUID or
/// label when the entry uses one (false if the device lacks it), else by
/// device path.
pub open spec fn matches_entry(d: BlockDevice, spec: Seq<char>) -> bool {
    if without_prefix(spec, "UUID="@) is Some {
        opt_view(d.uuid) == without_prefix(spec, "UUID="@)
    } else if without_prefix(spec, "PARTUUID="@) is Some {
        opt_view(d.partuuid) == without_prefix(spec, "PARTUUID="@)
    } else if without_prefix(spec, "LABEL="@) is Some {
        opt_view(d.label) == without_prefix(spec, "LABEL="@)
    } else {
        spec == d.path@
    }
}

fn same_opt(o: &Option<String>, t: &String) -> (r: bool)
    ensures
        r == (opt_view(*o) == Some(t@)),
{
    match o {
        Some(s) => text_eq(s.as_str(), t.as_str()),
        None => false,
    }
}

/// Checks whether a block device is the one an fstab entry names.
pub fn device_matches_fstab_entry(device: &BlockDevice, entry: &FstabEntry) -> (r: bool)
    ensures
        r == matches_entry(*device, entry.fs_spec@),
{
    match strip_prefix(entry.fs_spec.as_str(), "UUID=") {
        Some(u) => return same_opt(&device.uuid, &u),
        None => {},
    }
    match strip_prefix(entry.fs_spec.as_str(), "PARTUUID=") {
        Some(p) => return same_opt(&device.partuuid, &p),
        None => {},
    }
    match strip_prefix(entry.fs_spec.as_str(), "LABEL=") {
        Some(l) => return same_opt(&device.label, &l),
        None => {},
    }
    text_eq(entry.fs_spec.as_str(), device.path.as_str())
}

/// The merged device list with the fstab entries it was built from.
#[derive(Debug, Clone, PartialEq, Eq)]
pub struct ManagedDevicesResult {
    /// Mountable online devices first, then offline entries.
    pub devices: Vec<ManagedDevice>,
    /// The managed fstab entries.
    pub fstab_entries: Vec<FstabEntry>,
}

/// Some online device is the one the entry names.
pub open spec fn entry_is_online(online: Seq<BlockDevice>, e: FstabEntry) -> bool {
    exists|k: int| 0 <= k < online.len() && matches_entry(#[trigger] online[k], e.fs_spec@)
}

fn any_matches(online: &Vec<BlockDevice>, entry: &FstabEntry) -> (r: bool)
    ensures
        r == entry_is_online(online@, *entry),
{
    let mut i: usize = 0;
    while i < online.len()
        invariant
            i <= online@.len(),
            forall|k: int| 0 <= k < i ==> !matches_entry(#[trigger] online@[k], entry.fs_spec@),
        decreases online@.len() - i,
    {
        if device_matches_fstab_entry(&online[i], entry) {
            return true;
        }
        i = i + 1;
    }
    false
}

/// An offline device that an fstab entry describes.
pub open spec fn is_offline_of(o: OfflineDevice, e: FstabEntry) -> bool {
    &&& o.fs_spec@ == e.fs_spec@
    &&& o.mount_point@ == e.mount_point@
    &&& o.vfs_type@ == e.vfs_type@
    &&& views(o.mount_options@) == views(e.mount_options@)
    &&& (opt_view(o.uuid), opt_view(o.partuuid), opt_view(o.label)) == fs_spec_parts(e.fs_spec@)
}

/// The entries that no online device matches, in order.
pub open spec fn offline_entries(online: Seq<BlockDevice>, entries: Seq<FstabEntry>) -> Seq<FstabEntry> {
    entries.filter(|e: FstabEntry| !entry_is_online(online, e))
}

/// Merges the online devices with the managed fstab entries: every
/// mountable online device, in order, then one offline device for each
/// entry that no online device matches, in order.
pub fn list_managed_devices(online_devices: &Vec<BlockDevice>, fstab_entries: Vec<FstabEntry>) -> (r: ManagedDevicesResult)
    ensures
        r.fstab_entries == fstab_entries,
        r.devices@.len() == mountable_of(online_devices@).len() + offline_entries(online_devices@, fstab_entries@).len(),
        forall|k: int| 0 <= k < mountable_of(online_devices@).len() ==> (#[trigger] r.devices@[k] matches ManagedDevice::Online(d)
            && same_device(d, mountable_of(online_devices@)[k])),
        forall|k: int| mountable_of(online_devices@).len() <= k < r.devices@.len() ==> (#[trigger] r.devices@[k] matches ManagedDevice::Offline(o)
            && is_offline_of(o, offline_entries(online_devices@, fstab_entries@)[k - mountable_of(online_devices@).len()])),
{
    let mountable = filter_mountable_devices(online_devices);
    let ghost m = mountable_of(online_devices@);
    let mut devices: Vec<ManagedDevice> = Vec::new();
    let mut i: usize = 0;
    while i < mountable.len()
        invariant
            i <= mountable@.len(),
            mountable@.len() == m.len(),
            m == mountable_of(online_devices@),
            forall|k: int| 0 <= k < mountable@.len() ==> same_device(#[trigger] mountable@[k], m[k]),
            devices@.len() == i,
            forall|k: int| 0 <= k < i ==> (#[trigger] devices@[k] matches ManagedDevice::Online(d) && same_device(d, m[k])),
        decreases mountable@.len() - i,
    {
        let d = mountable[i].copy();
        assert(same_device(mountable@[i as int], m[i as int]));
        let ghost before = devices@;
        devices.push(ManagedDevice::Online(d));
        assert forall|k: int| 0 <= k < i + 1 implies (#[trigger] devices@[k] matches ManagedDevice::Online(x) && same_device(x, m[k])) by {
            if k < i {
                assert(devices@[k] == before[k]);
            }
        }
        i = i + 1;
    }
    let base = devices.len();
    let mut j: usize = 0;
    while j < fstab_entries.len()
        invariant
            j <= fstab_entries@.len(),
            base == m.len(),
            m == mountable_of(online_devices@),
            devices@.len() == base + offline_entries(online_devices@, fstab_entries@.subrange(0, j as int)).len(),
            forall|k: int| 0 <= k < base ==> (#[trigger] devices@[k] matches ManagedDevice::Online(d) && same_device(d, m[k])),
            forall|k: int| base <= k < devices@.len() ==> (#[trigger] devices@[k] matches ManagedDevice::Offline(o)
                && is_offline_of(o, offline_entries(online_devices@, fstab_entries@.subrange(0, j as int))[k - base])),
        decreases fstab_entries@.len() - j,
    {
        let ghost pre = fstab_entries@.subrange(0, j + 1);
        let ghost before = offline_entries(online_devices@, fstab_entries@.subrange(0, j as int));
        let ghost old_devices = devices@;
        proof {
            assert(pre.drop_last() =~= fstab_entries@.subrange(0, j as int));
            assert(pre.last() == fstab_entries@[j as int]);
            reveal(Seq::filter);
        }
        if !any_matches(online_devices, &fstab_entries[j]) {
            let o = OfflineDevice::from_fstab_entry(&fstab_entries[j]);
            assert(offline_entries(online_devices@, pre) == before.push(fstab_entries@[j as int]));
            devices.push(ManagedDevice::Offline(o));
            assert forall|k: int| base <= k < devices@.len() implies (#[trigger] devices@[k] matches ManagedDevice::Offline(x)
                && is_offline_of(x, offline_entries(online_devices@, pre)[k - base])) by {
                if k < devices@.len() - 1 {
                    assert(devices@[k] == old_devices[k]);
                }
            }
            assert forall|k: int| 0 <= k < base implies (#[trigger] devices@[k] matches ManagedDevice::Online(d) && same_device(d, m[k])) by {
                assert(devices@[k] == old_devices[k]);
            }
        } else {
            assert(offline_entries(online_devices@, pre) == before);
        }
        j = j + 1;
    }
    assert(fstab_entries@.subrange(0, fstab_entries@.len() as int) =~= fstab_entries@);
    ManagedDevicesResult { devices, fstab_entries }
}

} // verus!
