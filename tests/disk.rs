use steamos_mount_core::disk::{
    device_matches_fstab_entry, filter_mountable_devices, list_managed_devices, normalize_fstype,
    parse_fs_spec, sanitize_mount_name, vfs_type_to_fstype, fstype_to_vfs_type, BlockDevice,
    ManagedDevice, OfflineDevice,
};
use steamos_mount_core::fstab::{parse_fstab_content, FstabEntry};

fn device(label: Option<&str>, uuid: Option<&str>, partuuid: Option<&str>, fstype: &str) -> BlockDevice {
    BlockDevice {
        name: "sda1".to_string(),
        label: label.map(|s| s.to_string()),
        uuid: uuid.map(|s| s.to_string()),
        partuuid: partuuid.map(|s| s.to_string()),
        fstype: Some(fstype.to_string()),
        mountpoint: None,
        size: 1024,
        path: "/dev/sda1".to_string(),
        rota: false,
        removable: false,
        transport: None,
    }
}

#[test]
fn test_fstab_spec() {
    let device = device(Some("Test"), Some("AABB-CCDD"), Some("1122-3344"), "ntfs");

    // UUID takes precedence, case-sensitive
    assert_eq!(device.fstab_spec(), Some("UUID=AABB-CCDD".to_string()));
}

#[test]
fn test_suggested_mount_name() {
    let device_with_label = device(Some("My Games"), Some("1234-5678"), None, "ntfs");
    assert_eq!(device_with_label.suggested_mount_name(), "My_Games");

    let device_no_label = device(None, Some("12345678-abcd-efgh"), None, "ntfs");
    assert_eq!(device_no_label.suggested_mount_name(), "12345678");
}

#[test]
fn test_sanitize_mount_name() {
    assert_eq!(sanitize_mount_name("My Games"), "My_Games");
    assert_eq!(sanitize_mount_name("Test-Drive_123"), "Test-Drive_123");
    assert_eq!(sanitize_mount_name("Game/Data"), "Game_Data");
}

#[test]
fn test_parse_fs_spec() {
    let (uuid, partuuid, label) = parse_fs_spec("UUID=AABB-CCDD");
    assert_eq!(uuid, Some("AABB-CCDD".to_string()));
    assert_eq!(partuuid, None);
    assert_eq!(label, None);

    let (uuid, partuuid, label) = parse_fs_spec("PARTUUID=1122-3344");
    assert_eq!(uuid, None);
    assert_eq!(partuuid, Some("1122-3344".to_string()));
    assert_eq!(label, None);

    let (uuid, partuuid, label) = parse_fs_spec("LABEL=MyDrive");
    assert_eq!(uuid, None);
    assert_eq!(partuuid, None);
    assert_eq!(label, Some("MyDrive".to_string()));

    let (uuid, partuuid, label) = parse_fs_spec("/dev/sda1");
    assert_eq!(uuid, None);
    assert_eq!(partuuid, None);
    assert_eq!(label, None);
}

#[test]
fn test_offline_device_from_fstab_entry() {
    let entry = FstabEntry::new(
        "UUID=1234-5678",
        "/home/deck/Drives/TestDrive",
        "ntfs3",
        "rw,uid=1000,gid=1000",
        0,
        0,
    );

    let offline = OfflineDevice::from_fstab_entry(&entry);
    assert_eq!(offline.fs_spec, "UUID=1234-5678");
    assert_eq!(offline.mount_point, "/home/deck/Drives/TestDrive");
    assert_eq!(offline.vfs_type, "ntfs3");
    assert_eq!(offline.uuid, Some("1234-5678".to_string()));
    assert_eq!(offline.partuuid, None);
    assert_eq!(offline.label, None);
}

#[test]
fn test_managed_device_methods() {
    let online_device = device(Some("Games"), Some("1234-5678"), Some("abcd-efgh"), "ntfs");

    let managed_online = ManagedDevice::Online(online_device);
    assert!(managed_online.is_online());
    assert!(!managed_online.is_offline());
    assert_eq!(managed_online.uuid(), Some("1234-5678"));
    assert_eq!(managed_online.label(), Some("Games"));

    let offline_device = OfflineDevice {
        fs_spec: "UUID=dead-beef".to_string(),
        mount_point: "/mnt/test".to_string(),
        vfs_type: "exfat".to_string(),
        mount_options: vec!["rw".to_string()],
        uuid: Some("dead-beef".to_string()),
        partuuid: None,
        label: None,
    };

    let managed_offline = ManagedDevice::Offline(offline_device);
    assert!(!managed_offline.is_online());
    assert!(managed_offline.is_offline());
    assert_eq!(managed_offline.uuid(), Some("dead-beef"));
}

#[test]
fn test_device_matches_fstab_entry() {
    let device = device(Some("Games"), Some("1234-5678"), Some("abcd-efgh"), "ntfs");

    let entry_uuid = FstabEntry::new("UUID=1234-5678", "/mnt/test", "ntfs3", "defaults", 0, 0);
    assert!(device_matches_fstab_entry(&device, &entry_uuid));

    let entry_partuuid = FstabEntry::new("PARTUUID=abcd-efgh", "/mnt/test", "ntfs3", "defaults", 0, 0);
    assert!(device_matches_fstab_entry(&device, &entry_partuuid));

    let entry_label = FstabEntry::new("LABEL=Games", "/mnt/test", "ntfs3", "defaults", 0, 0);
    assert!(device_matches_fstab_entry(&device, &entry_label));

    let entry_no_match = FstabEntry::new("UUID=different", "/mnt/test", "ntfs3", "defaults", 0, 0);
    assert!(!device_matches_fstab_entry(&device, &entry_no_match));
}

#[test]
fn merge_online_and_offline() {
    let online = vec![
        device(Some("Games"), Some("1122-3344"), None, "ntfs"),
        device(Some("Boot"), Some("EFI"), None, "vfat"),
    ];
    assert_eq!(filter_mountable_devices(&online).len(), 1);
    let entries = vec![
        FstabEntry::new("UUID=1122-3344", "/home/deck/Drives/Games", "ntfs3", "rw", 0, 0),
        FstabEntry::new("UUID=OFFLINE-DEVICE", "/home/deck/Drives/Old", "exfat", "rw", 0, 0),
    ];
    let result = list_managed_devices(&online, entries);
    assert_eq!(result.devices.len(), 2);
    assert!(result.devices[0].is_online());
    assert!(result.devices[1].is_offline());
    assert_eq!(result.devices[1].uuid(), Some("OFFLINE-DEVICE"));
    assert_eq!(result.fstab_entries.len(), 2);
}

#[test]
fn filesystem_type_names() {
    assert_eq!(normalize_fstype("ntfs3"), "ntfs");
    assert_eq!(normalize_fstype("ntfs"), "ntfs");
    assert_eq!(normalize_fstype("exfat"), "exfat");
    assert_eq!(fstype_to_vfs_type("ntfs"), "ntfs3");
    assert_eq!(vfs_type_to_fstype("ntfs3"), "ntfs");
    assert_eq!(vfs_type_to_fstype("exfat"), "exfat");
}

#[test]
fn validate_fstab_spec_uses_link() {
    let d = device(None, Some("AB"), None, "ntfs");
    assert_eq!(d.fstab_spec_link().unwrap(), "/dev/disk/by-uuid/AB");
    assert!(d.validate_fstab_spec(true).is_ok());
    assert!(d.validate_fstab_spec(false).is_err());
    let none = device(None, None, None, "ntfs");
    assert!(none.fstab_spec().is_none());
    assert!(none.fstab_spec_link().is_err());
}

#[test]
fn test_list_managed_devices_merge() {
    // An fstab with some managed entries
    let fstab_content = r#"# /etc/fstab
UUID=system-root  /  ext4  defaults  0  1

# BEGIN STEAMOS-MOUNT-MANAGED
# Created by SteamOS Mount Tool. DO NOT EDIT THIS BLOCK MANUALLY.
UUID=AABBCCDD11223344  /home/deck/Drives/Games  ntfs3  rw,uid=1000  0  0
UUID=OFFLINE-DEVICE  /home/deck/Drives/Offline  exfat  rw  0  0
# END STEAMOS-MOUNT-MANAGED
"#;
    let entries = parse_fstab_content(fstab_content).unwrap().managed_entries;

    // Online devices (one matches fstab, one doesn't)
    let online_devices = vec![
        BlockDevice {
            name: "nvme0n1p2".to_string(),
            label: Some("Games".to_string()),
            uuid: Some("AABBCCDD11223344".to_string()),
            partuuid: Some("1122-3344".to_string()),
            fstype: Some("ntfs".to_string()),
            mountpoint: Some("/home/deck/Drives/Games".to_string()),
            size: 499570991104,
            path: "/dev/nvme0n1p2".to_string(),
            rota: false,
            removable: false,
            transport: Some("nvme".to_string()),
        },
        BlockDevice {
            name: "sda1".to_string(),
            label: Some("New".to_string()),
            uuid: Some("NEW-DEVICE".to_string()),
            partuuid: None,
            fstype: Some("exfat".to_string()),
            mountpoint: None,
            size: 128849018880,
            path: "/dev/sda1".to_string(),
            rota: false,
            removable: true,
            transport: Some("usb".to_string()),
        },
    ];

    let result = list_managed_devices(&online_devices, entries);

    // 3 devices: 2 online (both mountable) + 1 offline
    assert_eq!(result.devices.len(), 3);
    assert!(result.devices[0].is_online());
    assert!(result.devices[1].is_online());
    assert!(result.devices[2].is_offline());
    assert_eq!(result.devices[2].uuid(), Some("OFFLINE-DEVICE"));
}
