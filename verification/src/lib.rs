//! A fault-reporting library: when a process hits an unrecoverable fault,
//! it captures diagnostic context (stack trace, operating system, cause)
//! into a structured report, persists that report under a unique file name,
//! and renders a three-part user-facing message through a small
//! placeholder-substitution template engine.

pub mod chars;
pub mod codec;
pub mod digits;
pub mod persist;
pub mod present;
pub mod report;
pub mod stack;
pub mod template;

use vstd::prelude::*;

use crate::chars::chars_to_string;
use crate::digits::{dec_digits, push_dec};
use crate::present::Metadata;
use crate::report::{Method, Report};

verus! {

/// The explanation recorded for a fault at a known source location.
pub open spec fn explanation_text(file: Seq<char>, line: int) -> Seq<char> {
    "Panic occurred in file '"@ + file + "' at line "@ + dec_digits(line) + "\n"@
}

/// The explanation recorded where the fault's location is unknown.
pub open spec fn unknown_location_text() -> Seq<char> {
    "Panic location unknown.\n"@
}

/// The cause recorded where the fault carried no recognizable text payload.
pub open spec fn unknown_cause_text() -> Seq<char> {
    "Unknown"@
}

/// Builds the report for a fault from what the hook could read of it: an
/// optional textual payload and an optional source location. The report is
/// named and versioned from the metadata; a missing payload or location
/// degrades to the fixed unknown texts, never to an error.
pub fn build_report(
    meta: &Metadata,
    payload: Option<String>,
    location: Option<(String, u32)>,
) -> (r: Report)
    ensures
        r@.name == meta.short_name@,
        r@.crate_version == meta.version@,
        r@.method == Method::Panic,
        r@.cause == match payload {
            Some(m) => m@,
            None => unknown_cause_text(),
        },
        r@.explanation == match location {
            Some(loc) => explanation_text(loc.0@, loc.1 as int),
            None => unknown_location_text(),
        },
{
    let explanation = match location {
        Some((file, line)) => {
            let mut e = "Panic occurred in file '".to_owned();
            e.append(file.as_str());
            e.append("' at line ");
            let mut digits: Vec<char> = Vec::new();
            push_dec(&mut digits, line as u64);
            let line_str = chars_to_string(&digits);
            e.append(line_str.as_str());
            e.append("\n");
            proof {
                assert(e@ =~= explanation_text(file@, line as int));
            }
            e
        },
        None => "Panic location unknown.\n".to_owned(),
    };
    let cause = match payload {
        Some(m) => m,
        None => "Unknown".to_owned(),
    };
    Report::new(
        meta.short_name.as_str(),
        meta.version.as_str(),
        Method::Panic,
        explanation,
        cause,
    )
}

/// Settles a persistence attempt: a persisted report's path is handed
/// through untouched, and a report that could not be persisted is written,
/// serialized, to the error stream instead, so the diagnostic is never
/// silently lost. Best-effort by design: persistence failure is not fatal.
pub fn finish_dump(report: &Report, persisted: Option<String>) -> (r: Option<String>)
    ensures
        r == persisted,
{
    match persisted {
        Some(path) => Some(path),
        None => {
            match report.serialize() {
                Some(mut text) => {
                    text.append("\n");
                    let _ = crate::present::write_stderr(text.as_str());
                },
                None => {},
            }
            None
        },
    }
}

/// How a fault report is rendered: `Debug` leaves the runtime's own trace,
/// `Human` produces the friendly three-section message.
#[derive(Copy, Clone, PartialEq, Eq, Structural)]
pub enum PanicStyle {
    Debug,
    Human,
}

impl PanicStyle {
    /// Picks the style from whether a backtrace request is present in the
    /// environment: an explicit request keeps the runtime's own output.
    pub fn from_env_presence(backtrace_requested: bool) -> (r: PanicStyle)
        ensures
            r == (if backtrace_requested {
                PanicStyle::Debug
            } else {
                PanicStyle::Human
            }),
    {
        if backtrace_requested {
            PanicStyle::Debug
        } else {
            PanicStyle::Human
        }
    }
}

} // verus!
