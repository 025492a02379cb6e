use steamos_mount_core::preset::{
    suggest_preset_config, DeviceType, MediaType, PresetConfig, SupportedFilesystem, TimeoutConfig,
};

#[test]
fn test_ssd_preset_ntfs() {
    let preset = PresetConfig::new(SupportedFilesystem::Ntfs); // Default is Flash/Fixed
    let options = preset.generate_options(1000, 1000);

    assert!(options.contains("uid=1000,gid=1000"));
    assert!(options.contains("rw,noatime"));
    assert!(options.contains("discard")); // Flash
    assert!(options.contains("prealloc")); // NTFS
    assert!(options.contains("x-systemd.device-timeout=3s")); // Fixed
    assert!(!options.contains("noauto"));
}

#[test]
fn test_ssd_preset_exfat() {
    let preset = PresetConfig::new(SupportedFilesystem::Exfat);
    let options = preset.generate_options(1000, 1000);

    assert!(options.contains("discard"));
    assert!(!options.contains("prealloc")); // Not for exFAT
}

#[test]
fn test_portable_preset() {
    let preset = PresetConfig {
        filesystem: SupportedFilesystem::Exfat,
        media_type: MediaType::Flash,
        device_type: DeviceType::Removable,
        timeout: TimeoutConfig::default(),
        custom_options: None,
    };
    let options = preset.generate_options(1000, 1000);

    assert!(options.contains("noauto"));
    assert!(options.contains("x-systemd.automount"));
    assert!(options.contains("x-systemd.idle-timeout=60s"));
    assert!(!options.contains("prealloc"));
}

#[test]
fn test_custom_preset() {
    let preset = PresetConfig::custom(SupportedFilesystem::Ntfs, "rw,sync");
    let options = preset.generate_options(1000, 1000);

    assert!(options.contains("uid=1000"));
    assert!(options.contains("rw,sync"));
}

#[test]
fn test_custom_ids() {
    let preset = PresetConfig::new(SupportedFilesystem::Ntfs);
    let options = preset.generate_options(1001, 1002);

    assert!(options.contains("uid=1001"));
    assert!(options.contains("gid=1002"));
}

#[test]
fn test_rotational_defaults() {
    // Rotational Drive (HDD)
    let mut preset = PresetConfig::new(SupportedFilesystem::Exfat);
    preset.media_type = MediaType::Rotational;

    let options = preset.generate_options(1000, 1000);
    assert!(!options.contains("discard")); // HDD should not have discard
}

#[test]
fn test_driver_selection() {
    assert_eq!(SupportedFilesystem::Ntfs.driver_name(), "ntfs3");
    assert_eq!(SupportedFilesystem::Exfat.driver_name(), "exfat");
}

#[test]
fn test_suggestion_logic() {
    // USB -> Removable
    let sugg = suggest_preset_config(
        SupportedFilesystem::Exfat,
        Some(false),
        Some(false),
        Some("usb"),
    );
    assert_eq!(sugg.default_config.device_type, DeviceType::Removable);
    assert!(
        sugg.connection_type_options
            .iter()
            .find(|o| o.value == "removable")
            .unwrap()
            .recommended
    );

    // HDD -> Rotational
    let sugg = suggest_preset_config(SupportedFilesystem::Ntfs, Some(true), Some(false), None);
    assert_eq!(sugg.default_config.media_type, MediaType::Rotational);

    // NVMe -> Fixed, Flash
    let sugg = suggest_preset_config(
        SupportedFilesystem::Ntfs,
        Some(false),
        Some(false),
        Some("nvme"),
    );
    assert_eq!(sugg.default_config.device_type, DeviceType::Fixed);
    assert_eq!(sugg.default_config.media_type, MediaType::Flash);

    // Explicit Removable Flag -> Removable
    let sugg = suggest_preset_config(SupportedFilesystem::Exfat, Some(false), Some(true), None);
    assert_eq!(sugg.default_config.device_type, DeviceType::Removable);
}

#[test]
fn generate_options_exact_text() {
    let preset = PresetConfig::new(SupportedFilesystem::Ntfs);
    assert_eq!(
        preset.generate_options(1000, 1000),
        "uid=1000,gid=1000,umask=000,nofail,rw,noatime,prealloc,discard,x-systemd.device-timeout=3s"
    );
    let portable = PresetConfig::portable_defaults(SupportedFilesystem::Exfat);
    assert_eq!(
        portable.generate_options(0, 7),
        "uid=0,gid=7,umask=000,nofail,rw,noatime,discard,noauto,x-systemd.automount,x-systemd.idle-timeout=60s"
    );
    let mut empty_custom = PresetConfig::custom(SupportedFilesystem::Exfat, "");
    empty_custom.timeout.device_timeout_secs = None;
    assert_eq!(empty_custom.generate_options(1, 2), "uid=1,gid=2,umask=000,nofail,rw,noatime,discard");
}

#[test]
fn preview_line_and_filesystem_names() {
    let preset = PresetConfig::ssd_defaults(SupportedFilesystem::Exfat);
    assert_eq!(
        preset.preview_fstab_line("UUID=AB", "/mnt/x", 1000, 1000),
        "UUID=AB  /mnt/x  exfat  uid=1000,gid=1000,umask=000,nofail,rw,noatime,discard,x-systemd.device-timeout=3s  0  0"
    );
    assert_eq!(SupportedFilesystem::from_name("NTFS3").unwrap(), SupportedFilesystem::Ntfs);
    assert_eq!(SupportedFilesystem::from_name("exFAT").unwrap(), SupportedFilesystem::Exfat);
    assert!(SupportedFilesystem::from_name("ext4").is_err());
}
