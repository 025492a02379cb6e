//! The unified device view: online partitions and offline managed entries,
//! each with its fstab entry and the Steam libraries under its mount point.

use vstd::prelude::*;
use crate::disk::{device_matches_fstab_entry, filter_mountable_devices, is_mountable_device, matches_entry, mountable_of, same_device, vfs_type_to_fstype, BlockDevice, OfflineDevice};
use crate::fstab::FstabEntry;
use crate::steam::LibraryFolder;
use crate::text::{chars_of, copy_opt, opt_view, string_of, text_eq};

verus! {

/// Whether a device is connected.
#[derive(Debug, Clone, Copy, PartialEq, Eq, Structural)]
pub enum DeviceConnectionState {
    /// Connected and visible to the system.
    Online,
    /// In fstab but not connected.
    Offline,
}

/// A drive as the rest of the system sees it.
#[derive(Debug, Clone, PartialEq, Eq)]
pub struct Device {
    /// Display name: the label, or the device or mount point name.
    pub name: String,
    /// Fstab identifier, when the device is managed.
    pub fs_spec: Option<String>,
    /// Device path, when online.
    pub path: Option<String>,
    pub label: Option<String>,
    pub uuid: Option<String>,
    pub partuuid: Option<String>,
    /// Filesystem type as lsblk reports it.
    pub fstype: String,
    /// Size in bytes; 0 when offline.
    pub size: u64,
    pub rota: Option<bool>,
    pub removable: Option<bool>,
    pub transport: Option<String>,
    /// Current or configured mount point.
    pub mountpoint: Option<String>,
    pub is_mounted: bool,
    pub is_dirty: bool,
    pub connection_state: DeviceConnectionState,
    /// The managed fstab entry, if any.
    pub fstab_entry: Option<FstabEntry>,
    /// Steam libraries under the mount point.
    pub steam_libraries: Vec<LibraryFolder>,
}

/// Whether `path` is `base` or lies under it, component-wise.
pub open spec fn path_under(path: Seq<char>, base: Seq<char>) -> bool {
    &&& base.len() <= path.len()
    &&& path.subrange(0, base.len() as int) == base
    &&& (path.len() == base.len() || (base.len() > 0 && base.last() == '/') || path[base.len() as int] == '/')
}

/// Whether `path` is `base` or lies under it, component-wise.
pub fn is_under(path: &str, base: &str) -> (r: bool)
    ensures
        r == path_under(path@, base@),
{
    let p = chars_of(path);
    let b = chars_of(base);
    if b.len() > p.len() {
        return false;
    }
    let mut i: usize = 0;
    while i < b.len()
        invariant
            b@.len() <= p@.len(),
            p@ == path@,
            b@ == base@,
            i <= b@.len(),
            forall|k: int| 0 <= k < i ==> p@[k] == b@[k],
        decreases b@.len() - i,
    {
        if p[i] != b[i] {
            assert(p@.subrange(0, b@.len() as int)[i as int] != b@[i as int]);
            return false;
        }
        i = i + 1;
    }
    assert(p@.subrange(0, b@.len() as int) =~= b@);
    p.len() == b.len() || (b.len() > 0 && b[b.len() - 1] == '/') || p[b.len()] == '/'
}

/// The last component of a path, without trailing slashes; none for the
/// root or an empty path.
pub open spec fn last_component(path: Seq<char>, end: int, start: int) -> bool {
    &&& 0 <= start <= end <= path.len()
    &&& forall|k: int| end <= k < path.len() ==> path[k] == '/'
    &&& forall|k: int| start <= k < end ==> path[k] != '/'
    &&& (start == 0 || path[start - 1] == '/')
}

fn file_name(path: &str) -> (r: Option<String>)
    ensures
        r is Some ==> exists|s: int, e: int| last_component(path@, e, s) && s < e
            && r->Some_0@ == path@.subrange(s, e),
{
    let p = chars_of(path);
    let mut end: usize = p.len();
    while end > 0 && p[end - 1] == '/'
        invariant
            end <= p@.len(),
            forall|k: int| end <= k < p@.len() ==> p@[k] == '/',
        decreases end,
    {
        end = end - 1;
    }
    let mut start: usize = end;
    while start > 0 && p[start - 1] != '/'
        invariant
            start <= end <= p@.len(),
            forall|k: int| start <= k < end ==> p@[k] != '/',
        decreases start,
    {
        start = start - 1;
    }
    if start == end {
        return None;
    }
    let mut out: Vec<char> = Vec::new();
    let mut i: usize = start;
    while i < end
        invariant
            start <= i <= end <= p@.len(),
            out@ == p@.subrange(start as int, i as int),
        decreases end - i,
    {
        out.push(p[i]);
        i = i + 1;
        assert(out@ =~= p@.subrange(start as int, i as int));
    }
    let r = string_of(&out);
    assert(last_component(path@, end as int, start as int));
    Some(r)
}

impl Device {
    /// Whether the device is offline.
    pub fn is_offline(&self) -> (r: bool)
        ensures
            r == (self.connection_state == DeviceConnectionState::Offline),
    {
        self.connection_state == DeviceConnectionState::Offline
    }

    /// Whether the device has a managed fstab entry.
    pub fn is_managed(&self) -> (r: bool)
        ensures
            r == self.fstab_entry is Some,
    {
        self.fstab_entry.is_some()
    }

    /// The mount point: the current one, else the configured one.
    pub fn effective_mount_point(&self) -> (r: Option<&str>)
        ensures
            r is Some == (self.mountpoint is Some || self.fstab_entry is Some),
            self.mountpoint is Some ==> r->Some_0@ == self.mountpoint->Some_0@,
            self.mountpoint is None && self.fstab_entry is Some ==> r->Some_0@ == self.fstab_entry->Some_0.mount_point@,
    {
        match &self.mountpoint {
            Some(m) => Some(m.as_str()),
            None => match &self.fstab_entry {
                Some(e) => Some(e.mount_point.as_str()),
                None => None,
            },
        }
    }

    /// The view of an online partition, not yet matched with fstab.
    pub fn from_block_device(device: &BlockDevice) -> (r: Device)
        ensures
            r.name@ == (match device.label { Some(l) => l@, None => device.name@ }),
            r.fs_spec is None,
            opt_view(r.path) == Some(device.path@),
            opt_view(r.uuid) == opt_view(device.uuid),
            opt_view(r.partuuid) == opt_view(device.partuuid),
            r.size == device.size,
            r.is_mounted == (device.mountpoint is Some),
            opt_view(r.mountpoint) == opt_view(device.mountpoint),
            r.connection_state == DeviceConnectionState::Online,
            r.fstab_entry is None,
            r.steam_libraries@.len() == 0,
    {
        let name = match &device.label {
            Some(l) => l.clone(),
            None => device.name.clone(),
        };
        let fstype = match &device.fstype {
            Some(f) => f.clone(),
            None => String::new(),
        };
        Device {
            name,
            fs_spec: None,
            path: Some(device.path.clone()),
            label: copy_opt(&device.label),
            uuid: copy_opt(&device.uuid),
            partuuid: copy_opt(&device.partuuid),
            fstype,
            size: device.size,
            rota: Some(device.rota),
            removable: Some(device.removable),
            transport: copy_opt(&device.transport),
            mountpoint: copy_opt(&device.mountpoint),
            is_mounted: device.is_mounted(),
            is_dirty: false,
            connection_state: DeviceConnectionState::Online,
            fstab_entry: None,
            steam_libraries: Vec::new(),
        }
    }

    /// The view of a managed entry whose device is not connected, named
    /// after the last component of its mount point.
    pub fn from_offline_entry(entry: &FstabEntry) -> (r: Device)
        ensures
            opt_view(r.fs_spec) == Some(entry.fs_spec@),
            r.path is None,
            r.size == 0,
            !r.is_mounted,
            opt_view(r.mountpoint) == Some(entry.mount_point@),
            r.connection_state == DeviceConnectionState::Offline,
            r.fstab_entry is Some && r.fstab_entry->Some_0.fs_spec@ == entry.fs_spec@
                && r.fstab_entry->Some_0.mount_point@ == entry.mount_point@,
            r.steam_libraries@.len() == 0,
    {
        let offline = OfflineDevice::from_fstab_entry(entry);
        let name = match file_name(entry.mount_point.as_str()) {
            Some(n) => n,
            None => entry.fs_spec.clone(),
        };
        Device {
            name,
            fs_spec: Some(entry.fs_spec.clone()),
            path: None,
            label: offline.label,
            uuid: offline.uuid,
            partuuid: offline.partuuid,
            fstype: vfs_type_to_fstype(entry.vfs_type.as_str()).to_string(),
            size: 0,
            rota: None,
            removable: None,
            transport: None,
            mountpoint: Some(entry.mount_point.clone()),
            is_mounted: false,
            is_dirty: false,
            connection_state: DeviceConnectionState::Offline,
            fstab_entry: Some(entry.copy()),
            steam_libraries: Vec::new(),
        }
    }

    /// Records the managed fstab entry of the device.
    pub fn attach_fstab_entry(&mut self, entry: &FstabEntry)
        ensures
            final(self).fstab_entry is Some,
            final(self).fstab_entry->Some_0.fs_spec@ == entry.fs_spec@,
            final(self).fstab_entry->Some_0.mount_point@ == entry.mount_point@,
            opt_view(final(self).fs_spec) == Some(entry.fs_spec@),
            opt_view(final(self).mountpoint) == Some(entry.mount_point@),
            final(self).connection_state == old(self).connection_state,
            final(self).uuid == old(self).uuid,
            final(self).path == old(self).path,
            final(self).name == old(self).name,
            final(self).steam_libraries == old(self).steam_libraries,
    {
        self.fstab_entry = Some(entry.copy());
        self.fs_spec = Some(entry.fs_spec.clone());
        self.mountpoint = Some(entry.mount_point.clone());
    }

    /// Keeps, in order, the Steam libraries that lie under the device's
    /// mount point; without a mount point nothing changes.
    pub fn attach_steam_libraries(&mut self, libraries: &Vec<(String, LibraryFolder)>)
        ensures
            final(self).connection_state == old(self).connection_state,
            final(self).fstab_entry == old(self).fstab_entry,
            final(self).mountpoint == old(self).mountpoint,
            final(self).fs_spec == old(self).fs_spec,
            final(self).uuid == old(self).uuid,
            final(self).path == old(self).path,
            final(self).name == old(self).name,
            (old(self).mountpoint is None && old(self).fstab_entry is None) ==> final(self).steam_libraries == old(self).steam_libraries,
            (old(self).mountpoint is Some || old(self).fstab_entry is Some) ==> {
                &&& final(self).steam_libraries@.len() == libraries@.filter(|l: (String, LibraryFolder)| path_under(l.1.path@, effective_mount(*old(self)))).len()
                &&& forall|k: int| 0 <= k < final(self).steam_libraries@.len() ==> path_under(#[trigger] final(self).steam_libraries@[k].path@, effective_mount(*old(self)))
            },
    {
        let base: String = match self.effective_mount_point() {
            Some(m) => m.to_string(),
            None => return,
        };
        let ghost b = effective_mount(*self);
        let mut kept: Vec<LibraryFolder> = Vec::new();
        let mut i: usize = 0;
        while i < libraries.len()
            invariant
                i <= libraries@.len(),
                base@ == b,
                kept@.len() == libraries@.subrange(0, i as int).filter(|l: (String, LibraryFolder)| path_under(l.1.path@, b)).len(),
                forall|k: int| 0 <= k < kept@.len() ==> path_under(#[trigger] kept@[k].path@, b),
            decreases libraries@.len() - i,
        {
            proof {
                let pre = libraries@.subrange(0, i + 1);
                assert(pre.drop_last() =~= libraries@.subrange(0, i as int));
                reveal(Seq::filter);
            }
            if is_under(libraries[i].1.path.as_str(), base.as_str()) {
                kept.push(libraries[i].1.copy());
            }
            i = i + 1;
        }
        assert(libraries@.subrange(0, libraries@.len() as int) =~= libraries@);
        self.steam_libraries = kept;
    }
}

/// The device's current mount point, else its configured one.
pub open spec fn effective_mount(d: Device) -> Seq<char> {
    match d.mountpoint {
        Some(m) => m@,
        None => match d.fstab_entry {
            Some(e) => e.mount_point@,
            None => seq![],
        },
    }
}


/// Where device listing reads its inputs from.
#[derive(Debug, Clone, PartialEq, Eq)]
pub struct ListDevicesConfig {
    /// Fstab to read instead of the system one.
    pub fstab_path: Option<String>,
    /// Steam library file to read instead of the default one.
    pub steam_vdf_path: Option<String>,
    /// Whether Steam libraries are attached.
    pub include_steam: bool,
}

impl ListDevicesConfig {
    /// Defaults: system fstab, default Steam file, Steam included.
    pub fn new() -> (r: ListDevicesConfig)
        ensures
            r.fstab_path is None,
            r.steam_vdf_path is None,
            r.include_steam,
    {
        ListDevicesConfig { fstab_path: None, steam_vdf_path: None, include_steam: true }
    }

    /// Reads fstab from `path`.
    pub fn with_fstab_path(self, path: &str) -> (r: ListDevicesConfig)
        ensures
            opt_view(r.fstab_path) == Some(path@),
            r.steam_vdf_path == self.steam_vdf_path,
            r.include_steam == self.include_steam,
    {
        ListDevicesConfig { fstab_path: Some(path.to_string()), steam_vdf_path: self.steam_vdf_path, include_steam: self.include_steam }
    }

    /// Leaves Steam libraries out.
    pub fn without_steam(self) -> (r: ListDevicesConfig)
        ensures
            r.fstab_path == self.fstab_path,
            r.steam_vdf_path == self.steam_vdf_path,
            !r.include_steam,
    {
        ListDevicesConfig { fstab_path: self.fstab_path, steam_vdf_path: self.steam_vdf_path, include_steam: false }
    }
}

/// Entry `j` is the first of `entries` that names device `d`.
pub open spec fn is_first_match(d: BlockDevice, entries: Seq<FstabEntry>, j: int) -> bool {
    &&& 0 <= j < entries.len()
    &&& matches_entry(d, entries[j].fs_spec@)
    &&& forall|i: int| 0 <= i < j ==> !matches_entry(d, #[trigger] entries[i].fs_spec@)
}

/// Some mountable device has, as its first matching entry, one with this
/// identifier.
pub open spec fn is_attached(m: Seq<BlockDevice>, entries: Seq<FstabEntry>, spec: Seq<char>) -> bool {
    exists|i: int, j: int| 0 <= i < m.len() && #[trigger] is_first_match(m[i], entries, j) && entries[j].fs_spec@ == spec
}

/// The entries whose identifier no mountable device has attached, in order.
pub open spec fn unattached_entries(m: Seq<BlockDevice>, entries: Seq<FstabEntry>) -> Seq<FstabEntry> {
    entries.filter(|e: FstabEntry| !is_attached(m, entries, e.fs_spec@))
}

/// `dev` is the online view of partition `d`, with the first entry that
/// names it, if any.
pub open spec fn is_online_view(dev: Device, d: BlockDevice, entries: Seq<FstabEntry>) -> bool {
    &&& dev.connection_state == DeviceConnectionState::Online
    &&& opt_view(dev.path) == Some(d.path@)
    &&& opt_view(dev.uuid) == opt_view(d.uuid)
    &&& dev.name@ == (match d.label { Some(l) => l@, None => d.name@ })
    &&& (dev.fstab_entry is None <==> forall|j: int| 0 <= j < entries.len() ==> !matches_entry(d, #[trigger] entries[j].fs_spec@))
    &&& (dev.fstab_entry is Some ==> exists|j: int| #[trigger] is_first_match(d, entries, j)
        && dev.fstab_entry->Some_0.fs_spec@ == entries[j].fs_spec@
        && dev.fstab_entry->Some_0.mount_point@ == entries[j].mount_point@)
}

/// `dev` is the offline view of entry `e`.
pub open spec fn is_offline_view(dev: Device, e: FstabEntry) -> bool {
    &&& dev.connection_state == DeviceConnectionState::Offline
    &&& dev.path is None
    &&& opt_view(dev.fs_spec) == Some(e.fs_spec@)
    &&& opt_view(dev.mountpoint) == Some(e.mount_point@)
    &&& dev.fstab_entry is Some && dev.fstab_entry->Some_0.fs_spec@ == e.fs_spec@
        && dev.fstab_entry->Some_0.mount_point@ == e.mount_point@
}

/// Every Steam library of the device lies under its mount point.
pub open spec fn libraries_under_mount(dev: Device) -> bool {
    forall|l: int| 0 <= l < dev.steam_libraries@.len() ==> path_under(#[trigger] dev.steam_libraries@[l].path@, effective_mount(dev))
}

fn first_match(device: &BlockDevice, entries: &Vec<FstabEntry>) -> (r: Option<usize>)
    ensures
        r is Some ==> is_first_match(*device, entries@, r->Some_0 as int),
        r is None ==> forall|k: int| 0 <= k < entries@.len() ==> !matches_entry(*device, #[trigger] entries@[k].fs_spec@),
{
    let mut i: usize = 0;
    while i < entries.len()
        invariant
            i <= entries@.len(),
            forall|k: int| 0 <= k < i ==> !matches_entry(*device, #[trigger] entries@[k].fs_spec@),
        decreases entries@.len() - i,
    {
        if device_matches_fstab_entry(device, &entries[i]) {
            return Some(i);
        }
        i = i + 1;
    }
    None
}

proof fn lemma_first_match_unique(d: BlockDevice, entries: Seq<FstabEntry>, j1: int, j2: int)
    requires
        is_first_match(d, entries, j1),
        is_first_match(d, entries, j2),
    ensures
        j1 == j2,
{
    if j1 < j2 {
        assert(!matches_entry(d, entries[j1].fs_spec@));
    } else if j2 < j1 {
        assert(!matches_entry(d, entries[j2].fs_spec@));
    }
}

/// Builds the device list from the online partitions, the managed fstab
/// entries and the Steam libraries: one online device per mountable
/// partition, in order, with the first entry that names it; then one
/// offline device per entry whose identifier no partition has attached, in
/// order. Each device gets the libraries under its mount point.
pub fn list_devices(
    online_devices: &Vec<BlockDevice>,
    fstab_entries: &Vec<FstabEntry>,
    steam_libraries: &Vec<(String, LibraryFolder)>,
) -> (r: Vec<Device>)
    ensures
        r@.len() == mountable_of(online_devices@).len() + unattached_entries(mountable_of(online_devices@), fstab_entries@).len(),
        forall|k: int| 0 <= k < mountable_of(online_devices@).len()
            ==> is_online_view(#[trigger] r@[k], mountable_of(online_devices@)[k], fstab_entries@),
        forall|k: int| mountable_of(online_devices@).len() <= k < r@.len()
            ==> is_offline_view(#[trigger] r@[k], unattached_entries(mountable_of(online_devices@), fstab_entries@)[k - mountable_of(online_devices@).len()]),
        forall|k: int| 0 <= k < r@.len() ==> libraries_under_mount(#[trigger] r@[k]),
{
    let mountable = filter_mountable_devices(online_devices);
    let ghost m = mountable_of(online_devices@);
    let ghost es = fstab_entries@;
    let mut devices: Vec<Device> = Vec::new();
    let mut matched: Vec<String> = Vec::new();
    let mut i: usize = 0;
    while i < mountable.len()
        invariant
            i <= mountable@.len(),
            mountable@.len() == m.len(),
            m == mountable_of(online_devices@),
            es == fstab_entries@,
            forall|k: int| 0 <= k < mountable@.len() ==> same_device(#[trigger] mountable@[k], m[k]),
            devices@.len() == i,
            forall|k: int| 0 <= k < i ==> is_online_view(#[trigger] devices@[k], m[k], es),
            forall|k: int| 0 <= k < i ==> libraries_under_mount(#[trigger] devices@[k]),
            forall|k: int| 0 <= k < matched@.len() ==> is_attached(m.subrange(0, i as int), es, #[trigger] matched@[k]@),
            forall|a: int, b: int| 0 <= a < i && #[trigger] is_first_match(m[a], es, b)
                ==> exists|k: int| 0 <= k < matched@.len() && (#[trigger] matched@[k])@ == es[b].fs_spec@,
        decreases mountable@.len() - i,
    {
        assert(same_device(mountable@[i as int], m[i as int]));
        let mut device = Device::from_block_device(&mountable[i]);
        let ghost old_matched = matched@;
        match first_match(&mountable[i], fstab_entries) {
            Some(j) => {
                device.attach_fstab_entry(&fstab_entries[j]);
                let spec_copy = fstab_entries[j].fs_spec.clone();
                matched.push(spec_copy);
                proof {
                    assert(is_first_match(m[i as int], es, j as int));
                    assert forall|k: int| 0 <= k < matched@.len() implies is_attached(m.subrange(0, i + 1), es, #[trigger] matched@[k]@) by {
                        if k < old_matched.len() {
                            assert(matched@[k] == old_matched[k]);
                            assert(is_attached(m.subrange(0, i as int), es, old_matched[k]@));
                            let (a, b) = choose|a: int, b: int| 0 <= a < i && #[trigger] is_first_match(m.subrange(0, i as int)[a], es, b) && es[b].fs_spec@ == old_matched[k]@;
                            assert(m.subrange(0, i as int)[a] == m.subrange(0, i + 1)[a]);
                            assert(is_first_match(m.subrange(0, i + 1)[a], es, b));
                        } else {
                            assert(m.subrange(0, i + 1)[i as int] == m[i as int]);
                            assert(is_first_match(m.subrange(0, i + 1)[i as int], es, j as int));
                        }
                    }
                    assert forall|a: int, b: int| 0 <= a < i + 1 && #[trigger] is_first_match(m[a], es, b)
                        implies exists|k: int| 0 <= k < matched@.len() && (#[trigger] matched@[k])@ == es[b].fs_spec@ by {
                        if a < i {
                            let k = choose|k: int| 0 <= k < old_matched.len() && (#[trigger] old_matched[k])@ == es[b].fs_spec@;
                            assert(matched@[k] == old_matched[k]);
                        } else {
                            lemma_first_match_unique(m[a], es, b, j as int);
                            assert(matched@[old_matched.len() as int]@ == es[b].fs_spec@);
                        }
                    }
                }
            },
            None => {
                proof {
                    assert forall|k: int| 0 <= k < matched@.len() implies is_attached(m.subrange(0, i + 1), es, #[trigger] matched@[k]@) by {
                        let (a, b) = choose|a: int, b: int| 0 <= a < i && #[trigger] is_first_match(m.subrange(0, i as int)[a], es, b) && es[b].fs_spec@ == matched@[k]@;
                        assert(m.subrange(0, i as int)[a] == m.subrange(0, i + 1)[a]);
                        assert(is_first_match(m.subrange(0, i + 1)[a], es, b));
                    }
                    assert forall|a: int, b: int| 0 <= a < i + 1 && #[trigger] is_first_match(m[a], es, b)
                        implies exists|k: int| 0 <= k < matched@.len() && (#[trigger] matched@[k])@ == es[b].fs_spec@ by {
                        if a == i {
                            assert(!matches_entry(m[a], es[b].fs_spec@));
                        }
                    }
                }
            },
        }
        device.attach_steam_libraries(steam_libraries);
        let ghost before = devices@;
        devices.push(device);
        proof {
            assert forall|k: int| 0 <= k < i + 1 implies is_online_view(#[trigger] devices@[k], m[k], es) by {
                if k < i { assert(devices@[k] == before[k]); }
            }
            assert forall|k: int| 0 <= k < i + 1 implies libraries_under_mount(#[trigger] devices@[k]) by {
                if k < i { assert(devices@[k] == before[k]); }
            }
        }
        i = i + 1;
    }
    assert(m.subrange(0, m.len() as int) =~= m);
    let n = devices.len();
    let mut j: usize = 0;
    while j < fstab_entries.len()
        invariant
            j <= fstab_entries@.len(),
            n == m.len(),
            m == mountable_of(online_devices@),
            es == fstab_entries@,
            devices@.len() == n + es.subrange(0, j as int).filter(|e: FstabEntry| !is_attached(m, es, e.fs_spec@)).len(),
            forall|k: int| 0 <= k < n ==> is_online_view(#[trigger] devices@[k], m[k], es),
            forall|k: int| n <= k < devices@.len() ==> is_offline_view(#[trigger] devices@[k],
                es.subrange(0, j as int).filter(|e: FstabEntry| !is_attached(m, es, e.fs_spec@))[k - n]),
            forall|k: int| 0 <= k < devices@.len() ==> libraries_under_mount(#[trigger] devices@[k]),
            forall|k: int| 0 <= k < matched@.len() ==> is_attached(m, es, #[trigger] matched@[k]@),
            forall|a: int, b: int| 0 <= a < m.len() && #[trigger] is_first_match(m[a], es, b)
                ==> exists|k: int| 0 <= k < matched@.len() && (#[trigger] matched@[k])@ == es[b].fs_spec@,
        decreases fstab_entries@.len() - j,
    {
        let mut seen = false;
        let mut k: usize = 0;
        while k < matched.len()
            invariant
                k <= matched@.len(),
                j < fstab_entries@.len(),
                seen == exists|q: int| 0 <= q < k && (#[trigger] matched@[q])@ == fstab_entries@[j as int].fs_spec@,
            decreases matched@.len() - k,
        {
            if text_eq(matched[k].as_str(), fstab_entries[j].fs_spec.as_str()) {
                seen = true;
            }
            k = k + 1;
        }
        let ghost e = es[j as int];
        assert(seen == is_attached(m, es, e.fs_spec@)) by {
            if is_attached(m, es, e.fs_spec@) {
                let (a, b) = choose|a: int, b: int| 0 <= a < m.len() && #[trigger] is_first_match(m[a], es, b) && es[b].fs_spec@ == e.fs_spec@;
                let q = choose|q: int| 0 <= q < matched@.len() && (#[trigger] matched@[q])@ == es[b].fs_spec@;
                assert(matched@[q]@ == e.fs_spec@);
            }
            if seen {
                let q = choose|q: int| 0 <= q < matched@.len() && (#[trigger] matched@[q])@ == e.fs_spec@;
                assert(is_attached(m, es, matched@[q]@));
            }
        }
        let ghost pre = es.subrange(0, j + 1);
        let ghost flt = es.subrange(0, j as int).filter(|x: FstabEntry| !is_attached(m, es, x.fs_spec@));
        let ghost old_devices = devices@;
        proof {
            assert(pre.drop_last() =~= es.subrange(0, j as int));
            assert(pre.last() == e);
            reveal(Seq::filter);
        }
        if !seen {
            let mut device = Device::from_offline_entry(&fstab_entries[j]);
            device.attach_steam_libraries(steam_libraries);
            devices.push(device);
            proof {
                assert(pre.filter(|x: FstabEntry| !is_attached(m, es, x.fs_spec@)) == flt.push(e));
                assert forall|k: int| 0 <= k < devices@.len() implies libraries_under_mount(#[trigger] devices@[k]) by {
                    if k < old_devices.len() { assert(devices@[k] == old_devices[k]); }
                }
                assert forall|k: int| 0 <= k < n implies is_online_view(#[trigger] devices@[k], m[k], es) by {
                    assert(devices@[k] == old_devices[k]);
                }
                assert forall|k: int| n <= k < devices@.len() implies is_offline_view(#[trigger] devices@[k],
                    pre.filter(|x: FstabEntry| !is_attached(m, es, x.fs_spec@))[k - n]) by {
                    if k < old_devices.len() { assert(devices@[k] == old_devices[k]); }
                }
            }
        } else {
            assert(pre.filter(|x: FstabEntry| !is_attached(m, es, x.fs_spec@)) == flt);
        }
        j = j + 1;
    }
    assert(es.subrange(0, es.len() as int) =~= es);
    devices
}

/// The first device with the given UUID.
pub fn find_device_by_uuid<'a>(devices: &'a Vec<Device>, uuid: &str) -> (r: Option<&'a Device>)
    ensures
        r is Some ==> opt_view(r->Some_0.uuid) == Some(uuid@),
        r is None ==> forall|k: int| 0 <= k < devices@.len() ==> opt_view(#[trigger] devices@[k].uuid) != Some(uuid@),
{
    let mut i: usize = 0;
    while i < devices.len()
        invariant
            i <= devices@.len(),
            forall|k: int| 0 <= k < i ==> opt_view(#[trigger] devices@[k].uuid) != Some(uuid@),
        decreases devices@.len() - i,
    {
        match &devices[i].uuid {
            Some(u) => {
                if text_eq(u.as_str(), uuid) {
                    return Some(&devices[i]);
                }
            },
            None => {},
        }
        i = i + 1;
    }
    None
}

/// The first device with the given fstab identifier.
pub fn find_device_by_fs_spec<'a>(devices: &'a Vec<Device>, fs_spec: &str) -> (r: Option<&'a Device>)
    ensures
        r is Some ==> opt_view(r->Some_0.fs_spec) == Some(fs_spec@),
        r is None ==> forall|k: int| 0 <= k < devices@.len() ==> opt_view(#[trigger] devices@[k].fs_spec) != Some(fs_spec@),
{
    let mut i: usize = 0;
    while i < devices.len()
        invariant
            i <= devices@.len(),
            forall|k: int| 0 <= k < i ==> opt_view(#[trigger] devices@[k].fs_spec) != Some(fs_spec@),
        decreases devices@.len() - i,
    {
        match &devices[i].fs_spec {
            Some(f) => {
                if text_eq(f.as_str(), fs_spec) {
                    return Some(&devices[i]);
                }
            },
            None => {},
        }
        i = i + 1;
    }
    None
}

/// The first device whose current or configured mount point is `mount_point`.
pub fn find_device_by_mount_point<'a>(devices: &'a Vec<Device>, mount_point: &str) -> (r: Option<&'a Device>)
    ensures
        r is Some ==> (r->Some_0.mountpoint is Some || r->Some_0.fstab_entry is Some)
            && effective_mount(*r->Some_0) == mount_point@,
        r is None ==> forall|k: int| 0 <= k < devices@.len() ==> !((#[trigger] devices@[k]).mountpoint is Some
            || devices@[k].fstab_entry is Some) || effective_mount(devices@[k]) != mount_point@,
{
    let mut i: usize = 0;
    while i < devices.len()
        invariant
            i <= devices@.len(),
            forall|k: int| 0 <= k < i ==> !((#[trigger] devices@[k]).mountpoint is Some
                || devices@[k].fstab_entry is Some) || effective_mount(devices@[k]) != mount_point@,
        decreases devices@.len() - i,
    {
        match devices[i].effective_mount_point() {
            Some(m) => {
                if text_eq(m, mount_point) {
                    return Some(&devices[i]);
                }
            },
            None => {},
        }
        i = i + 1;
    }
    None
}

/// The first online partition with the given UUID.
pub fn find_online_block_device_by_uuid(devices: &Vec<BlockDevice>, uuid: &str) -> (r: Option<BlockDevice>)
    ensures
        r is Some ==> opt_view(r->Some_0.uuid) == Some(uuid@),
        r is None ==> forall|k: int| 0 <= k < devices@.len() ==> opt_view(#[trigger] devices@[k].uuid) != Some(uuid@),
{
    let mut i: usize = 0;
    while i < devices.len()
        invariant
            i <= devices@.len(),
            forall|k: int| 0 <= k < i ==> opt_view(#[trigger] devices@[k].uuid) != Some(uuid@),
        decreases devices@.len() - i,
    {
        match &devices[i].uuid {
            Some(u) => {
                if text_eq(u.as_str(), uuid) {
                    return Some(devices[i].copy());
                }
            },
            None => {},
        }
        i = i + 1;
    }
    None
}

/// The first online partition with the given device path.
pub fn find_online_block_device_by_path(devices: &Vec<BlockDevice>, path: &str) -> (r: Option<BlockDevice>)
    ensures
        r is Some ==> r->Some_0.path@ == path@,
        r is None ==> forall|k: int| 0 <= k < devices@.len() ==> (#[trigger] devices@[k]).path@ != path@,
{
    let mut i: usize = 0;
    while i < devices.len()
        invariant
            i <= devices@.len(),
            forall|k: int| 0 <= k < i ==> (#[trigger] devices@[k]).path@ != path@,
        decreases devices@.len() - i,
    {
        if text_eq(devices[i].path.as_str(), path) {
            return Some(devices[i].copy());
        }
        i = i + 1;
    }
    None
}

} // verus!
