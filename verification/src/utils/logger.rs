//! The log level a level name selects.

use vstd::prelude::*;

use crate::config::types::LogLevel;
use crate::text::{lowercase, lowercased, str_equal};

verus! {

broadcast use vstd::string::group_string_axioms;

/// The level a name selects, compared in lowercase: "error", "warn",
/// "info", "debug"; any other name selects info.
pub open spec fn level_named(name: Seq<char>) -> LogLevel {
    let l = lowercased(name);
    if l == "error"@ {
        LogLevel::Error
    } else if l == "warn"@ {
        LogLevel::Warn
    } else if l == "debug"@ {
        LogLevel::Debug
    } else {
        LogLevel::Info
    }
}

/// The level a name selects (see [`level_named`]).
pub fn parse_log_level(level: &str) -> (l: LogLevel)
    ensures
        l == level_named(level@),
{
    let lower = lowercase(level);
    proof {
        reveal_strlit("info");
        reveal_strlit("debug");
        reveal_strlit("error");
        reveal_strlit("warn");
        assert("info"@.len() == 4 && "debug"@.len() == 5);
        assert("info"@ != "debug"@);
    }
    if str_equal(lower.as_str(), "error") {
        LogLevel::Error
    } else if str_equal(lower.as_str(), "warn") {
        LogLevel::Warn
    } else if str_equal(lower.as_str(), "info") {
        LogLevel::Info
    } else if str_equal(lower.as_str(), "debug") {
        LogLevel::Debug
    } else {
        LogLevel::Info
    }
}

} // verus!
