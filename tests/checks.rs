use tuning_audit::cpu::{check_cpu_cstates, check_tuned_profile};
use tuning_audit::distro::{get_host_info, print_host_info};
use tuning_audit::memory::{check_swap_status, classify_swap, parse_kb_value};
use tuning_audit::report::{CheckResult, Severity};
use tuning_audit::storage::{
    check_disk_write_cache, check_udev_rule_exists, BlockDevice, WriteCache,
};

fn lines(v: &[&str]) -> Vec<String> {
    v.iter().map(|s| s.to_string()).collect()
}

fn device(name: &str, write_cache: WriteCache) -> BlockDevice {
    BlockDevice { name: name.to_string(), write_cache }
}

#[test]
fn swap_disabled_passes() {
    let m = lines(&["MemTotal:       16000000 kB", "SwapTotal:             0 kB", "SwapFree:              0 kB"]);
    let r = check_swap_status(Some(&m));
    assert_eq!(r.severity, Severity::Pass);
    assert_eq!(r.message, "Swap is disabled (Total: 0 kB)");
}

#[test]
fn swap_present_but_empty_passes() {
    let m = lines(&["SwapTotal:       2048 kB", "SwapFree:        2048 kB"]);
    let r = check_swap_status(Some(&m));
    assert_eq!(r.severity, Severity::Pass);
    assert_eq!(r.message, "Swap exists but is empty. (Total: 2048 kB)");
}

#[test]
fn swap_in_use_fails_with_figures() {
    let m = lines(&["SwapTotal:       2048 kB", "SwapFree:         512 kB"]);
    let r = check_swap_status(Some(&m));
    assert_eq!(r.severity, Severity::Fail);
    assert_eq!(r.message, "Swap is IN USE. Used: 1536 kB / Total: 2048 kB");
}

#[test]
fn swap_unreadable_is_error() {
    let r = check_swap_status(None);
    assert_eq!(r.severity, Severity::Error);
    assert_eq!(r.message, "Could not read /proc/meminfo");
}

#[test]
fn swap_missing_lines_count_as_zero() {
    let m = lines(&["MemTotal: 100 kB"]);
    assert_eq!(check_swap_status(Some(&m)).message, "Swap is disabled (Total: 0 kB)");
}

#[test]
fn swap_last_line_wins() {
    let m = lines(&["SwapTotal: 10 kB", "SwapFree: 10 kB", "SwapTotal: 30 kB"]);
    assert_eq!(
        check_swap_status(Some(&m)).message,
        "Swap is IN USE. Used: 20 kB / Total: 30 kB"
    );
}

#[test]
fn swap_free_above_total_saturates() {
    let r = classify_swap(100, 200);
    assert_eq!(r.severity, Severity::Pass);
    assert_eq!(r.message, "Swap exists but is empty. (Total: 100 kB)");
}

#[test]
fn swap_largest_figures() {
    let r = classify_swap(u64::MAX, 0);
    assert_eq!(r.severity, Severity::Fail);
    assert_eq!(
        r.message,
        "Swap is IN USE. Used: 18446744073709551615 kB / Total: 18446744073709551615 kB"
    );
}

#[test]
fn kb_value_reads_second_token() {
    assert_eq!(parse_kb_value("SwapTotal:       2048 kB"), 2048);
    assert_eq!(parse_kb_value("  SwapFree:\t512\tkB\r"), 512);
    assert_eq!(parse_kb_value("SwapFree: +7 kB"), 7);
    assert_eq!(parse_kb_value("SwapFree: 007 kB"), 7);
    assert_eq!(parse_kb_value("SwapFree: 18446744073709551615 kB"), u64::MAX);
}

#[test]
fn kb_value_defaults_to_zero() {
    assert_eq!(parse_kb_value(""), 0);
    assert_eq!(parse_kb_value("SwapTotal:"), 0);
    assert_eq!(parse_kb_value("SwapTotal:   "), 0);
    assert_eq!(parse_kb_value("SwapTotal: abc kB"), 0);
    assert_eq!(parse_kb_value("SwapTotal: 12x kB"), 0);
    assert_eq!(parse_kb_value("SwapTotal: + kB"), 0);
    assert_eq!(parse_kb_value("SwapTotal: -5 kB"), 0);
    assert_eq!(parse_kb_value("SwapTotal: 18446744073709551616 kB"), 0);
}

#[test]
fn write_back_fails() {
    let d = vec![device("sda", WriteCache::Mode("write back\n".to_string()))];
    let r = check_disk_write_cache(Some(&d));
    assert_eq!(r.len(), 1);
    assert_eq!(r[0].severity, Severity::Fail);
    assert_eq!(r[0].message, "sda is using 'write back'");
}

#[test]
fn write_through_passes() {
    let d = vec![device("sda", WriteCache::Mode("write through\n".to_string()))];
    let r = check_disk_write_cache(Some(&d));
    assert_eq!(r.len(), 1);
    assert_eq!(r[0].severity, Severity::Pass);
    assert_eq!(r[0].message, "sda is using 'write through', disabled");
}

#[test]
fn missing_attribute_is_info() {
    let d = vec![device("sda", WriteCache::Missing)];
    let r = check_disk_write_cache(Some(&d));
    assert_eq!(r.len(), 1);
    assert_eq!(r[0].severity, Severity::Info);
    assert_eq!(r[0].message, "sda does not support software toggle for write cache");
}

#[test]
fn unreadable_attribute_warns() {
    let d = vec![device("sdb", WriteCache::Unreadable)];
    let r = check_disk_write_cache(Some(&d));
    assert_eq!(r.len(), 1);
    assert_eq!(r[0].severity, Severity::Warn);
    assert_eq!(r[0].message, "Could not read cache for sdb");
}

#[test]
fn unlisted_device_directory_is_error() {
    let r = check_disk_write_cache(None);
    assert_eq!(r.len(), 1);
    assert_eq!(r[0].severity, Severity::Error);
    assert_eq!(r[0].message, "Could not read /sys/block");
}

#[test]
fn only_sd_devices_are_scanned() {
    let d = vec![
        device("loop0", WriteCache::Mode("write back".to_string())),
        device("sdb", WriteCache::Mode("write back".to_string())),
        device("nvme0n1", WriteCache::Mode("write back".to_string())),
        device("sda", WriteCache::Missing),
    ];
    let r = check_disk_write_cache(Some(&d));
    assert_eq!(r.len(), 2);
    let names: Vec<&str> = r.iter().map(|x| x.message.split(' ').next().unwrap()).collect();
    assert!(names.contains(&"sda"));
    assert!(names.contains(&"sdb"));
    assert!(check_disk_write_cache(Some(&Vec::new())).is_empty());
}

#[test]
fn intel_flag_alone_passes_once() {
    let r = check_cpu_cstates(Some("BOOT_IMAGE=/vmlinuz ro intel_idle.max_cstate=0 quiet\n"));
    assert_eq!(r.len(), 1);
    assert_eq!(r[0].severity, Severity::Pass);
    assert_eq!(
        r[0].message,
        "Found boot parameter 'intel_idle.max_cstate=0' (C-states restricted)"
    );
}

#[test]
fn both_flags_pass_twice() {
    let r = check_cpu_cstates(Some("processor.max_cstate=1 intel_idle.max_cstate=0"));
    assert_eq!(r.len(), 2);
    assert!(r.iter().all(|x| x.severity == Severity::Pass));
    assert!(r[0].message.contains("intel_idle.max_cstate=0"));
    assert!(r[1].message.contains("processor.max_cstate=1"));
}

#[test]
fn no_flag_warns_with_cmdline() {
    let r = check_cpu_cstates(Some("  BOOT_IMAGE=/vmlinuz ro quiet\n"));
    assert_eq!(r.len(), 1);
    assert_eq!(r[0].severity, Severity::Warn);
    assert_eq!(
        r[0].message,
        "No C-state restriction flags found in kernel boot parameters. Current cmdline: BOOT_IMAGE=/vmlinuz ro quiet"
    );
}

#[test]
fn unreadable_cmdline_is_error() {
    let r = check_cpu_cstates(None);
    assert_eq!(r.len(), 1);
    assert_eq!(r[0].severity, Severity::Error);
    assert_eq!(r[0].message, "Could not read /proc/cmdline");
}

#[test]
fn udev_rule_present_or_missing() {
    let a = check_udev_rule_exists(true);
    assert_eq!(a.severity, Severity::Pass);
    assert_eq!(a.message, "udev rule exists");
    let b = check_udev_rule_exists(false);
    assert_eq!(b.severity, Severity::Fail);
    assert_eq!(b.message, "udev rule doesn't exist");
    let again = check_udev_rule_exists(false);
    assert_eq!(again.severity, b.severity);
    assert_eq!(again.message, b.message);
}

#[test]
fn profile_reported_passes() {
    let r = check_tuned_profile(Some("Current active profile: throughput-performance\n"));
    assert_eq!(r.severity, Severity::Pass);
    assert_eq!(r.message, "Current active profile: throughput-performance");
}

#[test]
fn profile_garbage_warns() {
    let r = check_tuned_profile(Some("garbage"));
    assert_eq!(r.severity, Severity::Warn);
    assert_eq!(r.message, "output unexpected: garbage");
}

#[test]
fn profile_tool_missing_fails() {
    let r = check_tuned_profile(None);
    assert_eq!(r.severity, Severity::Fail);
    assert_eq!(r.message, "'tuned-adm' command not found or failed to run. Is it installed?");
}

#[test]
fn host_info_from_os_release() {
    let os = lines(&[
        "PRETTY_NAME=\"Ubuntu 22.04.3 LTS\"",
        "NAME=\"Ubuntu\"",
        "VERSION_ID=\"22.04\"",
        "ID=ubuntu",
    ]);
    let info = get_host_info("5.15.0-91-generic\n", Some(&os));
    assert_eq!(info.distro_name, "Ubuntu");
    assert_eq!(info.distro_version, "22.04");
    assert_eq!(info.kernel_version, "5.15.0-91-generic");
}

#[test]
fn host_info_value_split_at_first_equals() {
    let os = lines(&["NAME= \"Rocky=Linux\" ", "VERSION_ID=9.3"]);
    let info = get_host_info("6.1", Some(&os));
    assert_eq!(info.distro_name, "Rocky=Linux");
    assert_eq!(info.distro_version, "9.3");
}

#[test]
fn host_info_defaults_to_unknown() {
    let info = get_host_info("6.1\n", None);
    assert_eq!(info.distro_name, "Unknown");
    assert_eq!(info.distro_version, "Unknown");
    let os = lines(&["ID=debian"]);
    let info = get_host_info("6.1", Some(&os));
    assert_eq!(info.distro_name, "Unknown");
    assert_eq!(info.distro_version, "Unknown");
}

#[test]
fn host_report_lines() {
    let os = lines(&["NAME=\"Rocky Linux\"", "VERSION_ID=\"9.3\""]);
    let r = print_host_info(Some("5.14.0\n"), Some(&os));
    assert_eq!(r.len(), 2);
    assert_eq!(r[0].message, "Distro: Rocky Linux 9.3");
    assert_eq!(r[1].severity, Severity::Pass);
    assert_eq!(r[1].message, "Kernel: 5.14.0");
    let r = print_host_info(None, Some(&os));
    assert_eq!(r[0].message, "Distro: Rocky Linux 9.3");
    assert_eq!(r[1].severity, Severity::Error);
}

#[test]
fn every_check_reports_without_sources() {
    assert!(!print_host_info(None, None).is_empty());
    assert!(!check_disk_write_cache(None).is_empty());
    assert!(!check_cpu_cstates(None).is_empty());
    assert_eq!(check_swap_status(None).severity, Severity::Error);
    assert_eq!(check_tuned_profile(None).severity, Severity::Fail);
    assert_eq!(check_udev_rule_exists(false).severity, Severity::Fail);
}

#[test]
fn render_colors_lines() {
    let r = CheckResult::new(Severity::Pass, "swap".to_string());
    assert_eq!(r.render(), "\x1b[32mOK: swap\x1b[0m");
    let r = CheckResult::new(Severity::Fail, "x".to_string());
    assert_eq!(r.render(), "\x1b[31mFAIL: x\x1b[0m");
    let r = CheckResult::new(Severity::Error, "x".to_string());
    assert_eq!(r.render(), "\x1b[31mERROR: x\x1b[0m");
    let r = CheckResult::new(Severity::Warn, "x".to_string());
    assert_eq!(r.render(), "\x1b[33mWARN: x\x1b[0m");
    let r = CheckResult::new(Severity::Info, "x".to_string());
    assert_eq!(r.render(), "\x1b[33mINFO: x\x1b[0m");
}
