//! Auditing a Linux host against tuning recommendations for storage nodes.
//!
//! Every check is a pure function from what was read on the host (a file's
//! lines, a command's output, whether a path exists) to the status lines that
//! report on it. Reading the host is left to the caller.
use vstd::prelude::*;

pub mod cpu;
pub mod distro;
pub mod memory;
pub mod report;
pub mod storage;
pub mod text;

use crate::cpu::cstate_report;
use crate::distro::host_report;
use crate::storage::{disk_report, is_scanned, lemma_scanned_device_reported, BlockDevice};

verus! {

/// Every check reports at least one line, also when none of its sources could
/// be read. The udev, profile and swap checks return one result by their type;
/// the identity and C-state reports are never empty; the write-cache check
/// reports an error when the device directory cannot be listed, and at least
/// one line whenever the listing holds a scanned device.
pub proof fn every_check_reports(
    kernel_output: Option<Seq<char>>,
    os_release: Option<Seq<Seq<char>>>,
    cmdline: Option<Seq<char>>,
    devices: Seq<BlockDevice>,
)
    ensures
        host_report(kernel_output, os_release).len() >= 1,
        cstate_report(cmdline).len() >= 1,
        disk_report(None).len() == 1,
        (exists|i: int| 0 <= i < devices.len() && is_scanned(#[trigger] devices[i].name@))
            ==> disk_report(Some(devices)).len() >= 1,
{
    if exists|i: int| 0 <= i < devices.len() && is_scanned(#[trigger] devices[i].name@) {
        let i = choose|i: int| 0 <= i < devices.len() && is_scanned(#[trigger] devices[i].name@);
        lemma_scanned_device_reported(devices, i);
    }
}

} // verus!
