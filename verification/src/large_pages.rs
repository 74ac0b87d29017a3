//! Large memory pages.

use vstd::prelude::*;
use vstd::string::StringExecFns;

verus! {

/// What came of the attempt to use large pages.
#[derive(Debug, Clone)]
pub enum LargePageResult {
    Enabled,
    /// The process lacks the privilege.
    PrivilegeNotHeld,
    /// The platform has none.
    NotSupported,
    Error(String),
}

/// Asks for large pages. They are to be had on Windows only.
pub fn enable_large_pages() -> (r: LargePageResult)
    ensures
        r == LargePageResult::NotSupported,
{
    LargePageResult::NotSupported
}

/// How much a message matters.
#[derive(Debug, Clone, Copy, PartialEq, Eq, Structural)]
pub enum LogLevel {
    Info,
    Warn,
    Error,
}

/// The message on the outcome, and how much it matters.
pub fn log_large_page_result(result: &LargePageResult) -> (r: (LogLevel, String))
    ensures
        match *result {
            LargePageResult::Enabled => r.0 == LogLevel::Info && r.1@
                == "Large pages (MEM_LARGE_PAGES) enabled successfully"@,
            LargePageResult::PrivilegeNotHeld => r.0 == LogLevel::Warn && r.1@
                == "Large pages not available: SeLockMemoryPrivilege not held. Run as administrator or adjust privileges."@,
            LargePageResult::NotSupported => r.0 == LogLevel::Info && r.1@
                == "Large pages not supported on this platform (or feature not enabled)"@,
            LargePageResult::Error(e) => r.0 == LogLevel::Error && r.1@
                == "Failed to enable large pages: "@ + e@,
        },
{
    match result {
        LargePageResult::Enabled => (
            LogLevel::Info,
            "Large pages (MEM_LARGE_PAGES) enabled successfully".to_owned(),
        ),
        LargePageResult::PrivilegeNotHeld => (
            LogLevel::Warn,
            "Large pages not available: SeLockMemoryPrivilege not held. Run as administrator or adjust privileges.".to_owned(),
        ),
        LargePageResult::NotSupported => (
            LogLevel::Info,
            "Large pages not supported on this platform (or feature not enabled)".to_owned(),
        ),
        LargePageResult::Error(e) => {
            let mut s = "Failed to enable large pages: ".to_owned();
            s.append(e.as_str());
            (LogLevel::Error, s)
        },
    }
}

/// How much the outcome matters: a fault is an error, a missing privilege a warning, and all else is
/// only told. The text of a fault is passed on.
pub proof fn law_outcomes_matter_by_kind(o: &LargePageResult, r: (LogLevel, String))
    requires
        call_ensures(log_large_page_result, (o,), r),
    ensures
        r.0 is Error <==> *o is Error,
        r.0 is Warn <==> *o is PrivilegeNotHeld,
        r.0 is Info <==> *o is Enabled || *o is NotSupported,
        *o matches LargePageResult::Error(e) ==> r.1@ == "Failed to enable large pages: "@ + e@,
{
}

} // verus!
