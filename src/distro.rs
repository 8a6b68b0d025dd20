//! Host identity: distribution name and version from the OS-release file,
//! and the kernel release.
use vstd::prelude::*;
use crate::report::{findings, CheckResult, Finding, Severity};
use crate::text::{has_prefix, starts_with, strip_edges, trim, trimmed, unquoted};

verus! {

/// The OS-release metadata file.
pub const OS_RELEASE_PATH: &'static str = "/etc/os-release";

/// The identity of the audited host.
#[derive(Clone, Debug)]
pub struct HostInfo {
    pub distro_name: String,
    pub distro_version: String,
    pub kernel_version: String,
}

/// The value of an OS-release line whose key is `key`: the text after the
/// first `=`, trimmed of whitespace and then of double quotes. `key` holds no
/// `=`, so the line's key is `key` exactly when it starts with `key=`.
pub open spec fn line_value(line: Seq<char>, key: Seq<char>) -> Seq<char> {
    unquoted(trimmed(line.subrange(key.len() + 1int, line.len() as int)))
}

/// The value that the last line with key `key` gives, if any line has it.
pub open spec fn os_field(lines: Seq<Seq<char>>, key: Seq<char>) -> Option<Seq<char>>
    decreases lines.len(),
{
    if lines.len() == 0 {
        None
    } else if has_prefix(lines.last(), key + "="@) {
        Some(line_value(lines.last(), key))
    } else {
        os_field(lines.drop_last(), key)
    }
}

/// The value of `key` in the OS-release file, or `Unknown` when the file
/// could not be read or has no such line.
pub open spec fn os_value(os_release: Option<Seq<Seq<char>>>, key: Seq<char>) -> Seq<char> {
    match os_release {
        Some(lines) => match os_field(lines, key) {
            Some(v) => v,
            None => "Unknown"@,
        },
        None => "Unknown"@,
    }
}

/// The lines of an optional OS-release file as character sequences.
pub open spec fn lines_view(os_release: Option<&Vec<String>>) -> Option<Seq<Seq<char>>> {
    match os_release {
        Some(l) => Some(l.deep_view()),
        None => None,
    }
}

/// Reads the value of `key` (written with its `=`) from OS-release lines,
/// or `Unknown`.
fn field_of(os_release: Option<&Vec<String>>, key: &str, key_eq: &str) -> (r: String)
    requires
        key_eq@ == key@ + "="@,
    ensures
        r@ == os_value(lines_view(os_release), key@),
{
    let lines = match os_release {
        None => {
            return String::from_str("Unknown");
        },
        Some(l) => l,
    };
    let mut found: Option<String> = None;
    let mut i: usize = 0;
    while i < lines.len()
        invariant
            key_eq@ == key@ + "="@,
            i <= lines@.len(),
            os_field(lines.deep_view().subrange(0, i as int), key@) == match found {
                Some(v) => Some(v@),
                None => None::<Seq<char>>,
            },
        decreases lines@.len() - i,
    {
        assert(lines.deep_view().subrange(0, i + 1).drop_last() =~= lines.deep_view().subrange(
            0,
            i as int,
        ));
        let line = lines[i].as_str();
        assert(lines.deep_view()[i as int] == line@);
        if starts_with(line, key_eq) {
            proof {
                reveal_strlit("=");
            }
            let n = line.unicode_len();
            let rest = line.substring_char(key_eq.unicode_len(), n);
            found = Some(String::from_str(strip_edges(trim(rest), true)));
        }
        i = i + 1;
    }
    assert(lines.deep_view().subrange(0, i as int) =~= lines.deep_view());
    match found {
        Some(v) => v,
        None => String::from_str("Unknown"),
    }
}

/// The host identity that the kernel tool's output and the OS-release lines give.
pub open spec fn host_info_of(
    kernel_output: Seq<char>,
    os_release: Option<Seq<Seq<char>>>,
) -> (Seq<char>, Seq<char>, Seq<char>) {
    (os_value(os_release, "NAME"@), os_value(os_release, "VERSION_ID"@), trimmed(kernel_output))
}

/// Builds the host identity from the kernel tool's output and the lines of
/// the OS-release file, or `None` when it could not be read.
pub fn get_host_info(kernel_output: &str, os_release: Option<&Vec<String>>) -> (r: HostInfo)
    ensures
        (r.distro_name@, r.distro_version@, r.kernel_version@) == host_info_of(
            kernel_output@,
            lines_view(os_release),
        ),
{
    proof {
        reveal_strlit("NAME=");
        reveal_strlit("NAME");
        reveal_strlit("=");
        reveal_strlit("VERSION_ID=");
        reveal_strlit("VERSION_ID");
    }
    assert("NAME="@ =~= "NAME"@ + "="@);
    assert("VERSION_ID="@ =~= "VERSION_ID"@ + "="@);
    HostInfo {
        distro_name: field_of(os_release, "NAME", "NAME="),
        distro_version: field_of(os_release, "VERSION_ID", "VERSION_ID="),
        kernel_version: String::from_str(trim(kernel_output)),
    }
}

/// The distribution line of the identity report.
pub open spec fn distro_line(os_release: Option<Seq<Seq<char>>>) -> Finding {
    (
        Severity::Pass,
        "Distro: "@ + os_value(os_release, "NAME"@) + " "@ + os_value(os_release, "VERSION_ID"@),
    )
}

/// What the identity report shows: the distribution, then the kernel release,
/// or an error in its place when the kernel tool could not be run.
pub open spec fn host_report(
    kernel_output: Option<Seq<char>>,
    os_release: Option<Seq<Seq<char>>>,
) -> Seq<Finding> {
    seq![
        distro_line(os_release),
        match kernel_output {
            Some(k) => (Severity::Pass, "Kernel: "@ + trimmed(k)),
            None => (Severity::Error, "Could not run uname"@),
        },
    ]
}

/// Reports the host identity, given the kernel tool's output, or `None` when
/// it could not be run, and the OS-release lines, or `None` when they could
/// not be read.
pub fn print_host_info(kernel_output: Option<&str>, os_release: Option<&Vec<String>>) -> (r: Vec<
    CheckResult,
>)
    ensures
        findings(r@) == host_report(
            match kernel_output {
                Some(k) => Some(k@),
                None => None,
            },
            lines_view(os_release),
        ),
{
    let (name, version, kernel) = match kernel_output {
        Some(k) => {
            let info = get_host_info(k, os_release);
            (info.distro_name, info.distro_version, Some(info.kernel_version))
        },
        None => {
            proof {
                reveal_strlit("NAME=");
                reveal_strlit("NAME");
                reveal_strlit("=");
                reveal_strlit("VERSION_ID=");
                reveal_strlit("VERSION_ID");
            }
            assert("NAME="@ =~= "NAME"@ + "="@);
            assert("VERSION_ID="@ =~= "VERSION_ID"@ + "="@);
            (
                field_of(os_release, "NAME", "NAME="),
                field_of(os_release, "VERSION_ID", "VERSION_ID="),
                None,
            )
        },
    };
    let mut distro = String::from_str("Distro: ");
    distro.append(name.as_str());
    distro.append(" ");
    distro.append(version.as_str());
    let mut out: Vec<CheckResult> = Vec::new();
    out.push(CheckResult::new(Severity::Pass, distro));
    match kernel {
        Some(k) => {
            let mut line = String::from_str("Kernel: ");
            line.append(k.as_str());
            out.push(CheckResult::new(Severity::Pass, line));
        },
        None => {
            out.push(CheckResult::new(Severity::Error, String::from_str("Could not run uname")));
        },
    }
    assert(findings(out@) =~= host_report(
        match kernel_output {
            Some(k) => Some(k@),
            None => None,
        },
        lines_view(os_release),
    ));
    out
}

} // verus!
