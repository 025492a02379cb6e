//! Mount-related decisions: recognising a dirty NTFS volume in kernel or
//! mount messages.

use vstd::prelude::*;
use crate::fstab::{lines_of, split_lines};
use crate::disk::{is_ntfs_device, BlockDevice};
use crate::error::Error;
use crate::executor::{CommandOutput, AUTH_CANCELLED_EXIT_CODE};
use crate::text::{contains, occurs_in, views};

verus! {

/// Messages by which the NTFS drivers report a dirty volume.
pub open spec fn dirty_indicator(s: Seq<char>) -> bool {
    occurs_in(s, "volume is dirty"@) || occurs_in(s, "Volume is dirty"@)
        || occurs_in(s, "force flag is not set"@)
        || occurs_in(s, "The disk contains an unclean file system"@)
}

/// Whether a message reports a dirty NTFS volume.
pub fn is_dirty_volume_error(stderr: &str) -> (r: bool)
    ensures
        r == dirty_indicator(stderr@),
{
    contains(stderr, "volume is dirty") || contains(stderr, "Volume is dirty")
        || contains(stderr, "force flag is not set")
        || contains(stderr, "The disk contains an unclean file system")
}

/// Whether the kernel log reports the device's volume as dirty: some line
/// names the device and carries a dirty-volume message.
pub fn dmesg_reports_dirty(log: &str, device_name: &str) -> (r: bool)
    ensures
        r == exists|k: int| 0 <= k < lines_of(log@).len()
            && occurs_in(#[trigger] lines_of(log@)[k], device_name@) && dirty_indicator(lines_of(log@)[k]),
{
    let lines = split_lines(log);
    let mut i: usize = 0;
    while i < lines.len()
        invariant
            i <= lines@.len(),
            views(lines@) == lines_of(log@),
            forall|k: int| 0 <= k < i ==> !(occurs_in(#[trigger] lines_of(log@)[k], device_name@)
                && dirty_indicator(lines_of(log@)[k])),
        decreases lines@.len() - i,
    {
        assert(views(lines@)[i as int] == lines@[i as int]@);
        if contains(lines[i].as_str(), device_name) && is_dirty_volume_error(lines[i].as_str()) {
            return true;
        }
        i = i + 1;
    }
    false
}


/// The outcome of `mount <device> <mount point>`: success on exit code 0;
/// otherwise a dirty volume when the error text says so, a declined
/// authorization on the cancellation code, else a mount failure carrying
/// the error text.
pub fn mount_result(device_path: &str, output: &CommandOutput) -> (r: Result<(), Error>)
    ensures
        output.exit_code == 0 ==> r is Ok,
        output.exit_code != 0 && dirty_indicator(output.stderr@) ==> (r matches Err(Error::DirtyVolume { device })
            && device@ == device_path@),
        output.exit_code != 0 && !dirty_indicator(output.stderr@) && output.exit_code == AUTH_CANCELLED_EXIT_CODE
            ==> r matches Err(Error::AuthenticationCancelled),
        output.exit_code != 0 && !dirty_indicator(output.stderr@) && output.exit_code != AUTH_CANCELLED_EXIT_CODE
            ==> (r matches Err(Error::Mount { message }) && message@ == output.stderr@),
{
    if output.exit_code == 0 {
        Ok(())
    } else if is_dirty_volume_error(output.stderr.as_str()) {
        Err(Error::DirtyVolume { device: device_path.to_string() })
    } else if output.exit_code == AUTH_CANCELLED_EXIT_CODE {
        Err(Error::AuthenticationCancelled)
    } else {
        Err(Error::Mount { message: output.stderr.clone() })
    }
}

/// The outcome of `umount <mount point>`: success on exit code 0, a
/// declined authorization on the cancellation code, else an unmount
/// failure carrying the path and the error text.
pub fn unmount_result(mount_point: &str, output: &CommandOutput) -> (r: Result<(), Error>)
    ensures
        output.exit_code == 0 ==> r is Ok,
        output.exit_code == AUTH_CANCELLED_EXIT_CODE ==> r matches Err(Error::AuthenticationCancelled),
        output.exit_code != 0 && output.exit_code != AUTH_CANCELLED_EXIT_CODE ==> (r matches Err(Error::Unmount { path, message })
            && path@ == mount_point@ && message@ == output.stderr@),
{
    if output.exit_code == 0 {
        Ok(())
    } else if output.exit_code == AUTH_CANCELLED_EXIT_CODE {
        Err(Error::AuthenticationCancelled)
    } else {
        Err(Error::Unmount { path: mount_point.to_string(), message: output.stderr.clone() })
    }
}

/// The outcome of `ntfsfix -d <device>`: success on exit code 0, a
/// declined authorization on the cancellation code, else a repair failure
/// carrying the error text.
pub fn repair_result(device_path: &str, output: &CommandOutput) -> (r: Result<(), Error>)
    ensures
        output.exit_code == 0 ==> r is Ok,
        output.exit_code == AUTH_CANCELLED_EXIT_CODE ==> r matches Err(Error::AuthenticationCancelled),
        output.exit_code != 0 && output.exit_code != AUTH_CANCELLED_EXIT_CODE ==> (r matches Err(Error::Ntfsfix { device, message })
            && device@ == device_path@ && message@ == output.stderr@),
{
    if output.exit_code == 0 {
        Ok(())
    } else if output.exit_code == AUTH_CANCELLED_EXIT_CODE {
        Err(Error::AuthenticationCancelled)
    } else {
        Err(Error::Ntfsfix { device: device_path.to_string(), message: output.stderr.clone() })
    }
}

/// Whether a dirty-volume check applies: only NTFS volumes get dirty, and
/// a failed kernel-log read counts as not dirty (the mount would fail later).
pub fn dirty_from_log(is_ntfs: bool, device_name: &str, log: &CommandOutput) -> (r: bool)
    ensures
        r == (is_ntfs && log.exit_code == 0 && exists|k: int| 0 <= k < lines_of(log.stdout@).len()
            && occurs_in(#[trigger] lines_of(log.stdout@)[k], device_name@) && dirty_indicator(lines_of(log.stdout@)[k])),
{
    is_ntfs && log.exit_code == 0 && dmesg_reports_dirty(log.stdout.as_str(), device_name)
}


/// Whether a dirty-volume repair applies: `ntfsfix` works on NTFS only, so
/// any other device is a repair failure naming the device path.
pub fn check_repairable(device: &BlockDevice) -> (r: Result<(), Error>)
    ensures
        is_ntfs_device(*device) ==> r is Ok,
        !is_ntfs_device(*device) ==> (r matches Err(Error::Ntfsfix { device: d, message })
            && d@ == device.path@ && message@ == "ntfsfix only works on NTFS volumes"@),
{
    if device.is_ntfs() {
        Ok(())
    } else {
        Err(Error::Ntfsfix {
            device: device.path.clone(),
            message: "ntfsfix only works on NTFS volumes".to_string(),
        })
    }
}

} // verus!
