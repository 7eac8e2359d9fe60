//! The verbosity vocabulary of the diagnostic side-channel, and the rule
//! deciding which messages are emitted.  Writing the messages out is I/O
//! and lives with the consumer; the engine behaves identically whether or
//! not anything consumes them.

use vstd::prelude::*;

verus! {

/// How much the diagnostic side-channel is allowed to say.
#[allow(non_camel_case_types)]
#[derive(Clone, Copy, Debug, PartialEq, Eq, Structural)]
pub enum VerbosityLevel {
    DISABLED,
    LOW,
    MID,
    HIGH,
}

/// Where emitted messages go: the console, a log file, or both.
#[allow(non_camel_case_types)]
#[derive(Clone, Copy, Debug, PartialEq, Eq, Structural)]
pub enum VerbosityType {
    LOG,
    SAVE,
    LOG_AND_SAVE,
}

/// The numeric rank of a verbosity level: `DISABLED` is 0 and `HIGH` is 3.
pub open spec fn level_rank_spec(level: VerbosityLevel) -> int {
    match level {
        VerbosityLevel::DISABLED => 0,
        VerbosityLevel::LOW => 1,
        VerbosityLevel::MID => 2,
        VerbosityLevel::HIGH => 3,
    }
}

/// Returns the numeric rank of a verbosity level.
pub fn level_rank(level: VerbosityLevel) -> (r: u8)
    ensures
        r == level_rank_spec(level),
{
    match level {
        VerbosityLevel::DISABLED => 0,
        VerbosityLevel::LOW => 1,
        VerbosityLevel::MID => 2,
        VerbosityLevel::HIGH => 3,
    }
}

/// Decides whether a message tagged `message_level` is emitted under
/// `configured_level`: nothing is emitted while logging is disabled, a
/// disabled tag is never emitted, and otherwise the tag must not exceed
/// the configured level.
pub fn should_log(configured_level: VerbosityLevel, message_level: VerbosityLevel) -> (r: bool)
    ensures
        r == (configured_level != VerbosityLevel::DISABLED
            && message_level != VerbosityLevel::DISABLED
            && level_rank_spec(message_level) <= level_rank_spec(configured_level)),
{
    let configured_rank = level_rank(configured_level);
    let message_rank = level_rank(message_level);
    configured_rank != 0 && message_rank != 0 && message_rank <= configured_rank
}

} // verus!
