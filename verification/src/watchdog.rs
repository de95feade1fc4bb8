//! The shim's watch over the process that started it.

use vstd::prelude::*;
use crate::text;

verus! {

/// Name of the variable that holds the descriptor to watch.
pub const ENV_WATCHDOG_FD: &'static str = "BUX_WATCHDOG_FD";

/// What polling the descriptor gave.
#[derive(Debug, Clone, Copy, PartialEq, Eq, Structural)]
pub enum PollOutcome {
    /// Something happened; whether the other end hung up.
    Ready {
        /// Whether the other end hung up.
        hangup: bool,
    },
    /// Nothing happened.
    Idle,
    /// The call was interrupted.
    Interrupted,
    /// The call failed.
    Failed,
}

/// Whether a poll ends the wait: the parent hung up, or the descriptor can no
/// longer be watched. An interruption does not.
pub fn wait_for_parent_death(outcome: PollOutcome) -> (r: bool)
    ensures
        r <==> (outcome == PollOutcome::Failed || outcome == PollOutcome::Ready { hangup: true }),
{
    match outcome {
        PollOutcome::Ready { hangup } => hangup,
        PollOutcome::Idle => false,
        PollOutcome::Interrupted => false,
        PollOutcome::Failed => true,
    }
}

/// What to do about the watchdog.
#[derive(Debug)]
pub enum WatchdogStart {
    /// Run without one: nobody asked for it.
    Absent,
    /// Run without one and print a line: the descriptor is malformed.
    Malformed(String),
    /// Watch this descriptor.
    Watch(i32),
}

/// Decides on the watchdog from the value of its variable.
pub fn start_watchdog_thread(value: Option<String>) -> (r: WatchdogStart)
    ensures
        match value {
            None => r is Absent,
            Some(v) => match text::parse_i32(v@) {
                Some(fd) => r == WatchdogStart::Watch(fd),
                None => r matches WatchdogStart::Malformed(line) && line@
                    == "[bux-shim] invalid BUX_WATCHDOG_FD: "@ + v@,
            },
        },
{
    match value {
        None => WatchdogStart::Absent,
        Some(v) => match text::read_i32(v.as_str()) {
            Some(fd) => WatchdogStart::Watch(fd),
            None => WatchdogStart::Malformed(
                text::cat2("[bux-shim] invalid BUX_WATCHDOG_FD: ", v.as_str()),
            ),
        },
    }
}

} // verus!
