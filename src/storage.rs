//! Storage checks: the write-through udev rule and the write-cache mode of
//! each block device.
use vstd::prelude::*;
use crate::report::{findings, CheckResult, Finding, Severity};
use crate::text::{has_prefix, same_text, starts_with, trim, trimmed};

verus! {

/// Where the udev rule that forces write-through caching is installed.
pub const UDEV_RULE_PATH: &'static str = "/etc/udev/rules.d/99-ceph-write-through.rules";

/// The directory that lists the block devices.
pub const BLOCK_DEVICE_DIR: &'static str = "/sys/block";

/// The write-cache attribute of a device, relative to its directory.
pub const WRITE_CACHE_ATTR: &'static str = "queue/write_cache";

/// What the udev check reports: the rule is present or it is missing.
pub open spec fn udev_finding(present: bool) -> Finding {
    if present {
        (Severity::Pass, "udev rule exists"@)
    } else {
        (Severity::Fail, "udev rule doesn't exist"@)
    }
}

/// Checks that the udev rule is installed, given whether its path exists.
pub fn check_udev_rule_exists(present: bool) -> (r: CheckResult)
    ensures
        r@ == udev_finding(present),
{
    if present {
        CheckResult::new(Severity::Pass, String::from_str("udev rule exists"))
    } else {
        CheckResult::new(Severity::Fail, String::from_str("udev rule doesn't exist"))
    }
}

/// The udev check passes exactly when the rule is present, fails otherwise,
/// and two runs on the same filesystem state report the same line.
pub proof fn udev_check_repeats(present: bool, first: CheckResult, second: CheckResult)
    requires
        first@ == udev_finding(present),
        second@ == udev_finding(present),
    ensures
        first@ == second@,
        first.severity == Severity::Pass <==> present,
        first.severity == Severity::Fail <==> !present,
{
}

/// What reading a device's write-cache attribute gave.
#[derive(Clone, Debug)]
pub enum WriteCache {
    /// The attribute does not exist: the mode cannot be set in software.
    Missing,
    /// The attribute exists but could not be read.
    Unreadable,
    /// The attribute's content.
    Mode(String),
}

/// A block device as listed in the block-device directory.
#[derive(Clone, Debug)]
pub struct BlockDevice {
    pub name: String,
    pub write_cache: WriteCache,
}

/// Whether a device is scanned: SATA/SAS disks, named `sd...`. The audit
/// covers those disks only; NVMe devices (`nvme...`) are not scanned.
pub open spec fn is_scanned(name: Seq<char>) -> bool {
    has_prefix(name, "sd"@)
}

/// What the write-cache check reports for one scanned device.
pub open spec fn device_finding(d: BlockDevice) -> Finding {
    match d.write_cache {
        WriteCache::Missing => (
            Severity::Info,
            d.name@ + " does not support software toggle for write cache"@,
        ),
        WriteCache::Unreadable => (Severity::Warn, "Could not read cache for "@ + d.name@),
        WriteCache::Mode(c) => if trimmed(c@) == "write back"@ {
            (Severity::Fail, d.name@ + " is using '"@ + trimmed(c@) + "'"@)
        } else {
            (Severity::Pass, d.name@ + " is using '"@ + trimmed(c@) + "', disabled"@)
        },
    }
}

/// The findings for a device listing, in listing order, one per scanned device.
pub open spec fn disk_findings(devs: Seq<BlockDevice>) -> Seq<Finding>
    decreases devs.len(),
{
    if devs.len() == 0 {
        Seq::empty()
    } else if is_scanned(devs.last().name@) {
        disk_findings(devs.drop_last()).push(device_finding(devs.last()))
    } else {
        disk_findings(devs.drop_last())
    }
}

/// What the write-cache check reports: one error when the directory could not
/// be listed, else the findings of the scanned devices.
pub open spec fn disk_report(devices: Option<Seq<BlockDevice>>) -> Seq<Finding> {
    match devices {
        None => seq![(Severity::Error, "Could not read /sys/block"@)],
        Some(devs) => disk_findings(devs),
    }
}

/// A listing that holds a scanned device yields at least one finding.
pub proof fn lemma_scanned_device_reported(devs: Seq<BlockDevice>, i: int)
    requires
        0 <= i < devs.len(),
        is_scanned(devs[i].name@),
    ensures
        disk_findings(devs).len() >= 1,
    decreases devs.len(),
{
    if i < devs.len() - 1 && !is_scanned(devs.last().name@) {
        lemma_scanned_device_reported(devs.drop_last(), i);
    }
}

/// Judges the write-cache attribute of one device.
pub fn device_result(d: &BlockDevice) -> (r: CheckResult)
    ensures
        r@ == device_finding(*d),
{
    match &d.write_cache {
        WriteCache::Missing => {
            let mut m = d.name.clone();
            m.append(" does not support software toggle for write cache");
            CheckResult::new(Severity::Info, m)
        },
        WriteCache::Unreadable => {
            let mut m = String::from_str("Could not read cache for ");
            m.append(d.name.as_str());
            CheckResult::new(Severity::Warn, m)
        },
        WriteCache::Mode(c) => {
            let mode = trim(c.as_str());
            let mut m = d.name.clone();
            m.append(" is using '");
            m.append(mode);
            if same_text(mode, "write back") {
                m.append("'");
                CheckResult::new(Severity::Fail, m)
            } else {
                m.append("', disabled");
                CheckResult::new(Severity::Pass, m)
            }
        },
    }
}

/// Checks that no scanned disk caches writes back, given the listing of the
/// block-device directory, or `None` when it could not be listed.
pub fn check_disk_write_cache(devices: Option<&Vec<BlockDevice>>) -> (r: Vec<CheckResult>)
    ensures
        findings(r@) == disk_report(
            match devices {
                Some(v) => Some(v@),
                None => None,
            },
        ),
{
    let mut out: Vec<CheckResult> = Vec::new();
    match devices {
        None => {
            out.push(CheckResult::new(Severity::Error, String::from_str("Could not read /sys/block")));
            assert(findings(out@) =~= disk_report(None));
        },
        Some(devs) => {
            let mut i: usize = 0;
            while i < devs.len()
                invariant
                    i <= devs@.len(),
                    findings(out@) == disk_findings(devs@.subrange(0, i as int)),
                decreases devs@.len() - i,
            {
                assert(devs@.subrange(0, i + 1).drop_last() =~= devs@.subrange(0, i as int));
                if starts_with(devs[i].name.as_str(), "sd") {
                    let ghost prev = out@;
                    out.push(device_result(&devs[i]));
                    assert(findings(out@) =~= findings(prev).push(device_finding(devs@[i as int])));
                }
                i = i + 1;
            }
            assert(devs@.subrange(0, i as int) =~= devs@);
        },
    }
    out
}

} // verus!
