//! Check results and how they are rendered as colored status lines.
use vstd::prelude::*;

verus! {

/// How a check judged what it inspected.
#[derive(Clone, Copy, Debug, PartialEq, Eq, Structural)]
pub enum Severity {
    /// The configuration matches the recommendation.
    Pass,
    /// The configuration violates the recommendation.
    Fail,
    /// An unexpected or unverifiable condition.
    Warn,
    /// Informational, with no judgment.
    Info,
    /// The check itself could not run.
    Error,
}

/// A check result as a value: its severity and its message.
pub type Finding = (Severity, Seq<char>);

/// One status line produced by a check.
#[derive(Clone, Debug)]
pub struct CheckResult {
    pub severity: Severity,
    pub message: String,
}

impl View for CheckResult {
    type V = Finding;

    open spec fn view(&self) -> Finding {
        (self.severity, self.message@)
    }
}

/// The findings that a sequence of results stands for.
pub open spec fn findings(rs: Seq<CheckResult>) -> Seq<Finding> {
    rs.map_values(|r: CheckResult| r@)
}

/// The ANSI escape that colors a line of the given severity.
pub open spec fn color_of(s: Severity) -> Seq<char> {
    match s {
        Severity::Pass => "\x1b[32m"@,
        Severity::Fail | Severity::Error => "\x1b[31m"@,
        Severity::Warn | Severity::Info => "\x1b[33m"@,
    }
}

/// The ANSI escape that ends a colored line.
pub open spec fn reset_code() -> Seq<char> {
    "\x1b[0m"@
}

/// The word that opens a line of the given severity.
pub open spec fn label_of(s: Severity) -> Seq<char> {
    match s {
        Severity::Pass => "OK"@,
        Severity::Fail => "FAIL"@,
        Severity::Warn => "WARN"@,
        Severity::Info => "INFO"@,
        Severity::Error => "ERROR"@,
    }
}

/// The text of a rendered line: color, label, message, reset.
pub open spec fn rendered(f: Finding) -> Seq<char> {
    color_of(f.0) + label_of(f.0) + ": "@ + f.1 + reset_code()
}

impl Severity {
    /// The ANSI escape that colors a line of this severity.
    pub fn color(self) -> (r: &'static str)
        ensures
            r@ == color_of(self),
    {
        match self {
            Severity::Pass => "\x1b[32m",
            Severity::Fail | Severity::Error => "\x1b[31m",
            Severity::Warn | Severity::Info => "\x1b[33m",
        }
    }

    /// The word that opens a line of this severity.
    pub fn label(self) -> (r: &'static str)
        ensures
            r@ == label_of(self),
    {
        match self {
            Severity::Pass => "OK",
            Severity::Fail => "FAIL",
            Severity::Warn => "WARN",
            Severity::Info => "INFO",
            Severity::Error => "ERROR",
        }
    }
}

impl CheckResult {
    pub fn new(severity: Severity, message: String) -> (r: CheckResult)
        ensures
            r@ == (severity, message@),
    {
        CheckResult { severity, message }
    }

    /// The colored line that reports this result.
    pub fn render(&self) -> (r: String)
        ensures
            r@ == rendered(self@),
    {
        let mut out = String::from_str(self.severity.color());
        out.append(self.severity.label());
        out.append(": ");
        out.append(self.message.as_str());
        out.append("\x1b[0m");
        out
    }
}

} // verus!
