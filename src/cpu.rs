//! CPU checks: the active power profile and the C-state restriction flags on
//! the kernel command line.
use vstd::prelude::*;
use crate::report::{findings, CheckResult, Finding, Severity};
use crate::text::{contains, has_substring, trim, trimmed};

verus! {

/// The kernel command-line pseudo-file.
pub const CMDLINE_PATH: &'static str = "/proc/cmdline";

/// The phrase that the profile tool prints when it reports a profile.
pub open spec fn profile_phrase() -> Seq<char> {
    "Current active profile"@
}

/// What the profile check reports, given the profile tool's standard output,
/// or `None` when the tool could not be run.
pub open spec fn tuned_finding(stdout: Option<Seq<char>>) -> Finding {
    match stdout {
        None => (Severity::Fail, "'tuned-adm' command not found or failed to run. Is it installed?"@),
        Some(o) => if has_substring(trimmed(o), profile_phrase()) {
            (Severity::Pass, trimmed(o))
        } else {
            (Severity::Warn, "output unexpected: "@ + trimmed(o))
        },
    }
}

/// Checks that the profile tool reports an active profile, given its
/// standard output as text, or `None` when it could not be run.
pub fn check_tuned_profile(stdout: Option<&str>) -> (r: CheckResult)
    ensures
        r@ == tuned_finding(
            match stdout {
                Some(o) => Some(o@),
                None => None,
            },
        ),
{
    match stdout {
        None => CheckResult::new(
            Severity::Fail,
            String::from_str("'tuned-adm' command not found or failed to run. Is it installed?"),
        ),
        Some(o) => {
            let t = trim(o);
            if contains(t, "Current active profile") {
                CheckResult::new(Severity::Pass, String::from_str(t))
            } else {
                let mut m = String::from_str("output unexpected: ");
                m.append(t);
                CheckResult::new(Severity::Warn, m)
            }
        },
    }
}

/// The boot parameter that keeps the Intel idle driver out of deep C-states.
pub open spec fn intel_marker() -> Seq<char> {
    "intel_idle.max_cstate=0"@
}

/// The boot parameter that keeps the ACPI processor driver out of deep C-states.
pub open spec fn acpi_marker() -> Seq<char> {
    "processor.max_cstate=1"@
}

/// The passing finding for a boot parameter that was found.
pub open spec fn marker_found(m: Seq<char>) -> Finding {
    (Severity::Pass, "Found boot parameter '"@ + m + "' (C-states restricted)"@)
}

/// The warning when no restriction flag is on the command line; it echoes
/// the trimmed command line.
pub open spec fn no_marker_warning(cmdline: Seq<char>) -> Finding {
    (
        Severity::Warn,
        "No C-state restriction flags found in kernel boot parameters. Current cmdline: "@
            + trimmed(cmdline),
    )
}

/// The findings for a command line: one pass per flag present, in the order
/// Intel then ACPI, or the warning when neither is.
pub open spec fn cstate_findings(cmdline: Seq<char>) -> Seq<Finding> {
    let a = has_substring(cmdline, intel_marker());
    let b = has_substring(cmdline, acpi_marker());
    if !a && !b {
        seq![no_marker_warning(cmdline)]
    } else {
        (if a { seq![marker_found(intel_marker())] } else { Seq::empty() })
            + (if b { seq![marker_found(acpi_marker())] } else { Seq::empty() })
    }
}

/// What the C-state check reports: an error when the command line could not
/// be read, else its findings.
pub open spec fn cstate_report(cmdline: Option<Seq<char>>) -> Seq<Finding> {
    match cmdline {
        None => seq![(Severity::Error, "Could not read /proc/cmdline"@)],
        Some(c) => cstate_findings(c),
    }
}

/// Appends the passing result for `marker` when the command line holds it.
fn note_marker(out: &mut Vec<CheckResult>, cmdline: &str, marker: &str) -> (found: bool)
    ensures
        found == has_substring(cmdline@, marker@),
        findings(final(out)@) == findings(old(out)@) + (if found {
            seq![marker_found(marker@)]
        } else {
            Seq::empty()
        }),
{
    let found = contains(cmdline, marker);
    if found {
        let mut m = String::from_str("Found boot parameter '");
        m.append(marker);
        m.append("' (C-states restricted)");
        out.push(CheckResult::new(Severity::Pass, m));
    }
    assert(findings(final(out)@) =~= findings(old(out)@) + (if found {
        seq![marker_found(marker@)]
    } else {
        Seq::empty()
    }));
    found
}

/// Checks the kernel command line for C-state restriction flags, given its
/// text, or `None` when it could not be read.
pub fn check_cpu_cstates(cmdline: Option<&str>) -> (r: Vec<CheckResult>)
    ensures
        findings(r@) == cstate_report(
            match cmdline {
                Some(c) => Some(c@),
                None => None,
            },
        ),
{
    let mut out: Vec<CheckResult> = Vec::new();
    match cmdline {
        None => {
            out.push(CheckResult::new(Severity::Error, String::from_str("Could not read /proc/cmdline")));
            assert(findings(out@) =~= cstate_report(None));
        },
        Some(c) => {
            let a = note_marker(&mut out, c, "intel_idle.max_cstate=0");
            let b = note_marker(&mut out, c, "processor.max_cstate=1");
            if !a && !b {
                let mut m = String::from_str(
                    "No C-state restriction flags found in kernel boot parameters. Current cmdline: ",
                );
                m.append(trim(c));
                out.push(CheckResult::new(Severity::Warn, m));
            }
            assert(findings(out@) =~= cstate_findings(c@));
        },
    }
    out
}

/// A command line with the Intel flag and without the ACPI one yields exactly
/// one pass, for the Intel flag, and no warning; one with neither flag yields
/// exactly one warning, which echoes the whole trimmed command line.
pub proof fn cstate_outcomes(cmdline: Seq<char>)
    ensures
        has_substring(cmdline, intel_marker()) && !has_substring(cmdline, acpi_marker())
            ==> cstate_findings(cmdline) == seq![marker_found(intel_marker())],
        !has_substring(cmdline, intel_marker()) && !has_substring(cmdline, acpi_marker()) ==> {
            &&& cstate_findings(cmdline).len() == 1
            &&& cstate_findings(cmdline)[0].0 == Severity::Warn
            &&& has_substring(cstate_findings(cmdline)[0].1, trimmed(cmdline))
        },
{
    let a = has_substring(cmdline, intel_marker());
    let b = has_substring(cmdline, acpi_marker());
    if a && !b {
        assert(cstate_findings(cmdline) =~= seq![marker_found(intel_marker())]);
    }
    if !a && !b {
        let w = no_marker_warning(cmdline).1;
        let p = "No C-state restriction flags found in kernel boot parameters. Current cmdline: "@;
        assert(w.subrange(p.len() as int, w.len() as int) =~= trimmed(cmdline));
        assert(crate::text::occurs_at(w, trimmed(cmdline), p.len() as int));
    }
}

} // verus!
