//! How items are coloured: the colour class of a measured latency and of a
//! log level. The palette itself belongs to whoever draws.

use vstd::prelude::*;
use crate::text::{lowercase, str_eq, to_lowercase};

verus! {

/// The colour class of a latency in milliseconds.
#[derive(Debug, Clone, Copy, PartialEq, Eq, Structural)]
pub enum LatencyClass {
    /// Not measured, or timed out (0).
    Untested,
    /// Under 200 ms.
    Fast,
    /// From 200 to 499 ms.
    Medium,
    /// 500 ms or more.
    Slow,
}

/// The class of a latency: 0 is untested, below 200 fast, below 500
/// medium, the rest slow.
pub open spec fn latency_class_of(delay: u64) -> LatencyClass {
    if delay == 0 {
        LatencyClass::Untested
    } else if delay < 200 {
        LatencyClass::Fast
    } else if delay < 500 {
        LatencyClass::Medium
    } else {
        LatencyClass::Slow
    }
}

/// The colour class of a latency.
pub fn latency_class(delay: u64) -> (c: LatencyClass)
    ensures
        c == latency_class_of(delay),
{
    if delay == 0 {
        LatencyClass::Untested
    } else if delay < 200 {
        LatencyClass::Fast
    } else if delay < 500 {
        LatencyClass::Medium
    } else {
        LatencyClass::Slow
    }
}

/// The colour class of a log level.
#[derive(Debug, Clone, Copy, PartialEq, Eq, Structural)]
pub enum LevelClass {
    Debug,
    Info,
    Warning,
    Error,
    Other,
}

/// The class of a lowercased level name.
pub open spec fn level_class_of(lower: Seq<char>) -> LevelClass {
    if lower == "debug"@ {
        LevelClass::Debug
    } else if lower == "info"@ {
        LevelClass::Info
    } else if lower == "warning"@ {
        LevelClass::Warning
    } else if lower == "error"@ {
        LevelClass::Error
    } else {
        LevelClass::Other
    }
}

/// The colour class of a log level, whatever its case.
pub fn level_class(level: &str) -> (c: LevelClass)
    ensures
        c == level_class_of(lowercase(level@)),
{
    let l = to_lowercase(level);
    if str_eq(l.as_str(), "debug") {
        LevelClass::Debug
    } else if str_eq(l.as_str(), "info") {
        LevelClass::Info
    } else if str_eq(l.as_str(), "warning") {
        LevelClass::Warning
    } else if str_eq(l.as_str(), "error") {
        LevelClass::Error
    } else {
        LevelClass::Other
    }
}

} // verus!
