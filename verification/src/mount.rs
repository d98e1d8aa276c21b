//! Mount establishment, as far as it is decidable from plain values: the
//! well-known device path and filesystem-type literal, and the decisions
//! taken after each step of the sequence (open the device, finalize the
//! options, invoke the kernel mount call).
//!
//! The I/O itself — opening the device file and the mount system call — is
//! the embedding program's business; it reports each outcome here as a plain
//! value and receives the next decision back.

use vstd::prelude::*;

verus! {

/// The well-known character-device path the kernel exposes for this
/// protocol.
pub fn fuse_device_path() -> (r: &'static str)
    ensures
        r@ == "/dev/fuse"@,
{
    "/dev/fuse"
}

/// The filesystem-type literal handed to the kernel mount call.
pub fn fuse_fs_type() -> (r: &'static str)
    ensures
        r@ == "fuse"@,
{
    "fuse"
}

/// Remediation hint for the distinct absent-device failure: the device file
/// only exists once the driver module is loaded.
pub fn device_not_found_hint() -> (r: &'static str)
    ensures
        r@ == "FUSE device file not found `/dev/fuse`. Try `modprobe fuse`"@,
{
    "FUSE device file not found `/dev/fuse`. Try `modprobe fuse`"
}

/// Why mount establishment failed. Setup failures are surfaced once,
/// classified, and never retried automatically.
#[derive(Debug, Clone, Copy, PartialEq, Eq, Structural)]
pub enum MountError {
    /// The device file is absent: a distinct, recognizable condition whose
    /// remediation is loading the driver module.
    DeviceNotFound,
    /// Opening the device failed for another reason; carries the OS error
    /// number.
    DeviceOpen { errno: i32 },
    /// The kernel rejected the mount call; carries the OS error number.
    MountCall { errno: i32 },
}

/// What the attempt to open the device file reported, as plain values.
#[derive(Debug, Clone, Copy, PartialEq, Eq, Structural)]
pub enum DeviceOpenOutcome {
    /// The device opened read-write; carries its descriptor.
    Opened { fd: i32 },
    /// The device file does not exist.
    NotFound,
    /// The open failed for another reason; carries the OS error number.
    Failed { errno: i32 },
}

/// Decision after the device-open step: an opened device continues with its
/// descriptor; absence becomes the distinct not-found failure; any other
/// failure keeps its OS error classification.
pub fn on_device_open(outcome: DeviceOpenOutcome) -> (r: Result<i32, MountError>)
    ensures
        match outcome {
            DeviceOpenOutcome::Opened { fd } => r == Ok::<i32, MountError>(fd),
            DeviceOpenOutcome::NotFound => r == Err::<i32, MountError>(MountError::DeviceNotFound),
            DeviceOpenOutcome::Failed { errno } => r == Err::<i32, MountError>(
                MountError::DeviceOpen { errno },
            ),
        },
{
    match outcome {
        DeviceOpenOutcome::Opened { fd } => Ok(fd),
        DeviceOpenOutcome::NotFound => Err(MountError::DeviceNotFound),
        DeviceOpenOutcome::Failed { errno } => Err(MountError::DeviceOpen { errno }),
    }
}

/// Decision after the kernel mount call: a zero result establishes the
/// mount; any other result carries the OS error out, with no retry.
pub fn on_mount_result(ret: i32, errno: i32) -> (r: Result<(), MountError>)
    ensures
        ret == 0 ==> r == Ok::<(), MountError>(()),
        ret != 0 ==> r == Err::<(), MountError>(MountError::MountCall { errno }),
{
    if ret == 0 {
        Ok(())
    } else {
        Err(MountError::MountCall { errno })
    }
}

} // verus!
