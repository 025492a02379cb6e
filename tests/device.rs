use steamos_mount_core::device::{
    find_device_by_fs_spec, find_device_by_mount_point, find_device_by_uuid, list_devices, Device,
    DeviceConnectionState, ListDevicesConfig,
};
use steamos_mount_core::disk::BlockDevice;
use steamos_mount_core::fstab::FstabEntry;
use steamos_mount_core::steam::LibraryFolder;

#[test]
fn test_device_connection_state() {
    let device = Device {
        name: "test".to_string(),
        fs_spec: None,
        path: Some("/dev/sda1".to_string()),
        label: None,
        uuid: Some("1234-5678".to_string()),
        partuuid: None,
        fstype: "ntfs".to_string(),
        size: 1024,
        rota: None,
        removable: None,
        transport: None,
        mountpoint: None,
        is_mounted: false,
        is_dirty: false,
        connection_state: DeviceConnectionState::Online,
        fstab_entry: None,
        steam_libraries: Vec::new(),
    };

    assert!(!device.is_offline());
    assert!(!device.is_managed());
}

fn library(path: &str, label: &str) -> LibraryFolder {
    LibraryFolder {
        path: path.to_string(),
        label: label.to_string(),
        contentid: "0".to_string(),
        totalsize: "0".to_string(),
        apps: Default::default(),
    }
}

#[test]
fn test_steam_library_prefix_matching() {
    let mut device = Device {
        name: "Games".to_string(),
        fs_spec: Some("UUID=1234".to_string()),
        path: Some("/dev/sda1".to_string()),
        label: Some("Games".to_string()),
        uuid: Some("1234".to_string()),
        partuuid: None,
        fstype: "ntfs".to_string(),
        size: 1024,
        rota: None,
        removable: None,
        transport: None,
        mountpoint: Some("/mnt/games".to_string()),
        is_mounted: true,
        is_dirty: false,
        connection_state: DeviceConnectionState::Online,
        fstab_entry: None,
        steam_libraries: Vec::new(),
    };

    let libraries = vec![
        ("0".to_string(), library("/home/user/.steam", "Default")),
        ("1".to_string(), library("/mnt/games/SteamLibrary", "Games")),
        ("2".to_string(), library("/mnt/games/SteamLibrary2", "Games2")),
    ];

    device.attach_steam_libraries(&libraries);

    // Should match 2 libraries under /mnt/games
    assert_eq!(device.steam_libraries.len(), 2);
    assert!(device.steam_libraries.iter().any(|l| l.label == "Games"));
    assert!(device.steam_libraries.iter().any(|l| l.label == "Games2"));
}

fn partition(name: &str, uuid: &str, fstype: &str) -> BlockDevice {
    BlockDevice {
        name: name.to_string(),
        label: None,
        uuid: Some(uuid.to_string()),
        partuuid: None,
        fstype: Some(fstype.to_string()),
        mountpoint: None,
        size: 10,
        path: format!("/dev/{}", name),
        rota: false,
        removable: false,
        transport: None,
    }
}

#[test]
fn list_devices_merges_online_and_offline() {
    let online = vec![partition("sda1", "AAAA", "ntfs"), partition("sda2", "BBBB", "ext4")];
    let entries = vec![
        FstabEntry::new("UUID=AAAA", "/home/deck/Drives/Games", "ntfs3", "rw", 0, 0),
        FstabEntry::new("UUID=CCCC", "/home/deck/Drives/Old", "exfat", "rw", 0, 0),
    ];
    let libs = vec![("1".to_string(), library("/home/deck/Drives/Old/SteamLibrary", "Old"))];
    let devices = list_devices(&online, &entries, &libs);
    assert_eq!(devices.len(), 2);
    assert_eq!(devices[0].connection_state, DeviceConnectionState::Online);
    assert!(devices[0].is_managed());
    assert_eq!(devices[1].connection_state, DeviceConnectionState::Offline);
    assert_eq!(devices[1].name, "Old");
    assert_eq!(devices[1].fstype, "exfat");
    assert_eq!(devices[1].steam_libraries.len(), 1);

    assert_eq!(find_device_by_uuid(&devices, "AAAA").unwrap().name, "sda1");
    assert_eq!(find_device_by_fs_spec(&devices, "UUID=CCCC").unwrap().name, "Old");
    assert_eq!(find_device_by_mount_point(&devices, "/home/deck/Drives/Games").unwrap().name, "sda1");
    assert!(find_device_by_uuid(&devices, "ZZZZ").is_none());
}

#[test]
fn list_config_builders() {
    let c = ListDevicesConfig::new();
    assert!(c.include_steam);
    let c = c.with_fstab_path("/tmp/fstab").without_steam();
    assert_eq!(c.fstab_path.as_deref(), Some("/tmp/fstab"));
    assert!(!c.include_steam);
}
