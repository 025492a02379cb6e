use steamos_mount_core::mount::{dmesg_reports_dirty, is_dirty_volume_error};
use steamos_mount_core::syscall::mount_point_to_unit_name;
use steamos_mount_core::error::Error;
use steamos_mount_core::mount::{check_repairable, dirty_from_log, mount_result, repair_result, unmount_result};
use steamos_mount_core::syscall::{session_select_result, systemctl_result};
use steamos_mount_core::executor::{CommandOutput, ExecutionContext, Pending};
use steamos_mount_core::fstab::backup_fstab_with_ctx;

#[test]
fn test_mount_point_to_unit_name() {
    assert_eq!(
        mount_point_to_unit_name("/home/deck/Drives/GamesSSD"),
        "home-deck-Drives-GamesSSD.mount"
    );
    assert_eq!(mount_point_to_unit_name("/mnt/test"), "mnt-test.mount");
}

#[test]
fn test_mount_point_to_unit_name_escaped() {
    // "My Drive" -> "My\x20Drive"
    assert_eq!(
        mount_point_to_unit_name("/home/deck/Drives/My Drive"),
        "home-deck-Drives-My\\x20Drive.mount"
    );
}

#[test]
fn unit_name_of_root_and_dashes() {
    assert_eq!(mount_point_to_unit_name("/"), "-.mount");
    assert_eq!(mount_point_to_unit_name("/mnt/a-b"), "mnt-a\\x2db.mount");
}

#[test]
fn test_unit_name_format() {
    // This test documents the expected unit name format
    let mount_point = "/home/deck/Drives/GamesSSD";
    let expected_unit = "home-deck-Drives-GamesSSD.mount";

    let unit_name = mount_point.trim_start_matches('/').replace('/', "-") + ".mount";

    assert_eq!(unit_name, expected_unit);
    assert_eq!(mount_point_to_unit_name(mount_point), expected_unit);
}

#[test]
fn test_is_dirty_volume_error() {
    assert!(is_dirty_volume_error("volume is dirty"));
    assert!(is_dirty_volume_error("Volume is dirty"));
    assert!(is_dirty_volume_error("ntfs3: force flag is not set"));
    assert!(is_dirty_volume_error(
        "The disk contains an unclean file system"
    ));
    assert!(!is_dirty_volume_error("mount successful"));
}

#[test]
fn dmesg_dirty_for_device() {
    let log = "[1.0] ntfs3(sda1): volume is dirty\n[2.0] ntfs3(sdb1): ok\n";
    assert!(dmesg_reports_dirty(log, "sda1"));
    assert!(!dmesg_reports_dirty(log, "sdb1"));
}

fn output(code: i32, stderr: &str) -> CommandOutput {
    CommandOutput { exit_code: code, stdout: String::new(), stderr: stderr.to_string() }
}

#[test]
fn mount_results_are_classified() {
    assert!(mount_result("/dev/sda1", &output(0, "")).is_ok());
    match mount_result("/dev/sda1", &output(32, "ntfs3: volume is dirty")) {
        Err(Error::DirtyVolume { device }) => assert_eq!(device, "/dev/sda1"),
        other => panic!("unexpected: {:?}", other),
    }
    assert!(matches!(mount_result("/dev/sda1", &output(126, "")), Err(Error::AuthenticationCancelled)));
    match mount_result("/dev/sda1", &output(1, "bad")) {
        Err(Error::Mount { message }) => assert_eq!(message, "bad"),
        other => panic!("unexpected: {:?}", other),
    }
    match unmount_result("/mnt/x", &output(1, "busy")) {
        Err(Error::Unmount { path, message }) => {
            assert_eq!(path, "/mnt/x");
            assert_eq!(message, "busy");
        }
        other => panic!("unexpected: {:?}", other),
    }
    assert!(matches!(repair_result("/dev/sda1", &output(126, "")), Err(Error::AuthenticationCancelled)));
    assert!(matches!(repair_result("/dev/sda1", &output(2, "x")), Err(Error::Ntfsfix { .. })));
}

#[test]
fn dirty_check_needs_ntfs_and_readable_log() {
    let log = CommandOutput {
        exit_code: 0,
        stdout: "ntfs3(sda1): volume is dirty\n".to_string(),
        stderr: String::new(),
    };
    assert!(dirty_from_log(true, "sda1", &log));
    assert!(!dirty_from_log(false, "sda1", &log));
    let denied = CommandOutput { exit_code: 1, ..log };
    assert!(!dirty_from_log(true, "sda1", &denied));
}

#[test]
fn systemctl_and_session_results() {
    assert!(systemctl_result(&output(0, "")).is_ok());
    match systemctl_result(&output(1, "unit not found")) {
        Err(Error::Systemd { message }) => assert_eq!(message, "unit not found"),
        other => panic!("unexpected: {:?}", other),
    }
    match session_select_result("plasma", &output(2, "denied")) {
        Err(Error::Systemd { message }) => assert_eq!(message, "Failed to select session 'plasma': denied"),
        other => panic!("unexpected: {:?}", other),
    }
}

#[test]
fn fstab_backup_through_context() {
    let mut ctx = ExecutionContext::with_sudo();
    let (path, pending) = backup_fstab_with_ctx("/etc/fstab", 1700000000, &mut ctx).unwrap();
    assert_eq!(path, "/etc/fstab.backup.1700000000");
    assert_eq!(
        pending,
        Pending::Run {
            program: "sudo".to_string(),
            args: vec!["cp".to_string(), "/etc/fstab".to_string(), "/etc/fstab.backup.1700000000".to_string()],
        }
    );
    let mut ctx = ExecutionContext::with_pkexec_session();
    assert!(backup_fstab_with_ctx("/etc/fstab", 1, &mut ctx).is_err());
}

#[test]
fn repair_needs_ntfs() {
    let mut d = steamos_mount_core::disk::BlockDevice {
        name: "sda1".to_string(),
        label: None,
        uuid: None,
        partuuid: None,
        fstype: Some("ntfs".to_string()),
        mountpoint: None,
        size: 1,
        path: "/dev/sda1".to_string(),
        rota: false,
        removable: false,
        transport: None,
    };
    assert!(check_repairable(&d).is_ok());
    d.fstype = Some("exfat".to_string());
    match check_repairable(&d) {
        Err(Error::Ntfsfix { device, message }) => {
            assert_eq!(device, "/dev/sda1");
            assert_eq!(message, "ntfsfix only works on NTFS volumes");
        }
        other => panic!("unexpected: {:?}", other),
    }
}
