use steamos_mount_core::fstab::{
    escape_fstab_path, generate_mount_point, parse_fstab_content, unescape_fstab_path,
    update_managed_entries_content, FstabEntry,
};

const SAMPLE_FSTAB: &str = r#"# /etc/fstab: static file system information.

# <file system>  <mount point>  <type>  <options>  <dump>  <pass>
UUID=abc-123  /  ext4  defaults  0  1
UUID=def-456  /boot/efi  vfat  umask=0077  0  1

# BEGIN STEAMOS-MOUNT-MANAGED
# Created by SteamOS Mount Tool. DO NOT EDIT THIS BLOCK MANUALLY.
UUID=1234-5678  /home/deck/Drives/GamesSSD  ntfs3  uid=1000,gid=1000,rw,umask=000,discard,prealloc,nofail  0  0
# END STEAMOS-MOUNT-MANAGED

# Custom user entries
UUID=custom  /mnt/custom  ext4  defaults  0  0
"#;

#[test]
fn test_parse_fstab_entry() {
    let line = "UUID=1234-5678  /home/deck/Drives/Test  ntfs3  rw,noatime  0  0";
    let entry = FstabEntry::from_line(line).unwrap().unwrap();

    assert_eq!(entry.fs_spec, "UUID=1234-5678");
    assert_eq!(entry.mount_point, "/home/deck/Drives/Test");
    assert_eq!(entry.vfs_type, "ntfs3");
    assert_eq!(entry.mount_options, vec!["rw", "noatime"]); // Split into vector
    assert_eq!(entry.dump, 0);
    assert_eq!(entry.fsck_order, 0);
}

#[test]
fn test_parse_fstab_skip_comments() {
    assert!(
        FstabEntry::from_line("# This is a comment")
            .unwrap()
            .is_none()
    );
    assert!(FstabEntry::from_line("").unwrap().is_none());
    assert!(FstabEntry::from_line("   ").unwrap().is_none());
}

#[test]
fn test_fstab_entry_to_line() {
    let entry = FstabEntry::new("UUID=test-123", "/mnt/test", "ntfs3", "rw,noatime", 0, 0);

    let line = entry.to_fstab_line();
    assert!(line.contains("UUID=test-123"));
    assert!(line.contains("/mnt/test"));
    assert!(line.contains("ntfs3"));
}

#[test]
fn test_parse_fstab_with_managed_block() {
    let parsed = parse_fstab_content(SAMPLE_FSTAB).unwrap();

    assert!(parsed.has_managed_block);
    assert_eq!(parsed.managed_entries.len(), 1);
    assert_eq!(parsed.managed_entries[0].fs_spec, "UUID=1234-5678");

    // Header should contain system entries
    assert!(
        parsed
            .header_lines
            .iter()
            .any(|l| l.contains("UUID=abc-123"))
    );

    // Footer should contain custom entries
    assert!(
        parsed
            .footer_lines
            .iter()
            .any(|l| l.contains("UUID=custom"))
    );
}

#[test]
fn test_write_managed_entries_idempotent() {
    let entries = vec![FstabEntry::new(
        "UUID=new-entry",
        "/home/deck/Drives/NewDrive",
        "ntfs3",
        "rw,noatime",
        0,
        0,
    )];

    // Write entries
    let written = update_managed_entries_content(SAMPLE_FSTAB, &entries).unwrap();

    // Parse again
    let parsed = parse_fstab_content(&written).unwrap();
    assert_eq!(parsed.managed_entries.len(), 1);
    assert_eq!(parsed.managed_entries[0].fs_spec, "UUID=new-entry");

    // Write same entries again (idempotent)
    let written2 = update_managed_entries_content(&written, &entries).unwrap();
    assert_eq!(written, written2);

    let parsed2 = parse_fstab_content(&written2).unwrap();
    assert_eq!(parsed2.managed_entries.len(), 1);
}

#[test]
fn test_generate_mount_point() {
    let mount_point = generate_mount_point("GamesSSD").unwrap();
    let expected = dirs::home_dir()
        .expect("Home directory should exist in test environment")
        .join("Drives")
        .join("GamesSSD");
    assert_eq!(mount_point, expected.to_string_lossy());
}

#[test]
fn test_parse_fstab_escaped_spaces() {
    // "My Drive" -> "My\040Drive"
    let line = "UUID=1234  /mnt/My\\040Drive  ntfs3  defaults  0  0";
    let entry = FstabEntry::from_line(line).unwrap().unwrap();

    assert_eq!(entry.mount_point, "/mnt/My Drive");

    let formatted = entry.to_fstab_line();
    assert!(formatted.contains("/mnt/My\\040Drive"));
    assert!(!formatted.contains("/mnt/My Drive"));
}

#[test]
fn entry_line_exact_and_bad_numbers() {
    let entry = FstabEntry::new("UUID=a", "/mnt/x y", "exfat", vec!["rw".to_string()], 1, 2);
    assert_eq!(entry.to_fstab_line(), "UUID=a  /mnt/x\\040y  exfat  rw  1  2");
    assert!(FstabEntry::from_line("UUID=a /m exfat rw 256 0").is_err());
    assert!(FstabEntry::from_line("UUID=a /m exfat rw 0 x").is_err());
    assert!(FstabEntry::from_line("UUID=a /m exfat rw 0").unwrap().is_none());
    let e = FstabEntry::from_line("  UUID=a\t/m exfat rw +1 65535 ").unwrap().unwrap();
    assert_eq!((e.dump, e.fsck_order), (1, 65535));
}

#[test]
fn path_escaping_round_trip() {
    let p = "/a b\\c\td";
    assert_eq!(escape_fstab_path(p), "/a\\040b\\134c\\011d");
    assert_eq!(unescape_fstab_path(&escape_fstab_path(p)), p);
    assert_eq!(unescape_fstab_path("\\999x\\04"), "\\999x\\04");
}

#[test]
fn managed_block_removed_when_no_entries() {
    let out = update_managed_entries_content(SAMPLE_FSTAB, &vec![]).unwrap();
    assert!(!out.contains("STEAMOS-MOUNT-MANAGED"));
    assert!(out.contains("UUID=custom"));
    assert!(out.contains("UUID=abc-123"));
}
