//! Log severities and the texts written during startup.

use vstd::prelude::*;

verus! {

/// Severity of a single log record, from the most to the least severe.
#[derive(Clone, Copy, Debug, PartialEq, Eq, Structural)]
pub enum Level {
    Error,
    Warn,
    Info,
    Debug,
    Trace,
}

/// Threshold of a log sink: records less severe than the threshold are
/// discarded, and `Off` discards every record.
#[derive(Clone, Copy, Debug, PartialEq, Eq, Structural)]
pub enum LevelFilter {
    Off,
    Error,
    Warn,
    Info,
    Debug,
    Trace,
}

/// Text of the record that announces startup.
pub open spec fn startup_text() -> Seq<char> {
    "Coda Dashboard starting up"@
}

/// Text of the record that reports the build's version: a fixed label
/// followed by the version, unchanged.
pub open spec fn version_text(version: Seq<char>) -> Seq<char> {
    "Version: "@ + version
}

/// Diagnostic shown when the event loop ends with an error.
pub open spec fn fatal_text() -> Seq<char> {
    "error while running tauri application"@
}

/// The record text that announces startup.
pub fn startup_message() -> (message: String)
    ensures
        message@ == startup_text(),
{
    String::from_str("Coda Dashboard starting up")
}

/// The record text that reports `version`.
pub fn version_message(version: &str) -> (message: String)
    ensures
        message@ == version_text(version@),
{
    String::from_str("Version: ").concat(version)
}

/// The diagnostic for an event loop that ended with an error.
pub fn fatal_message() -> (message: String)
    ensures
        message@ == fatal_text(),
{
    String::from_str("error while running tauri application")
}

} // verus!
