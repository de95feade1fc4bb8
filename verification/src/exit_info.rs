//! Crash diagnostics of the shim process.

use vstd::prelude::*;
use crate::text;

verus! {

/// Unix convention: exit code = 128 + signal number.
pub const SIGNAL_EXIT_BASE: i32 = 128;

/// Exit code of a Rust panic.
pub const PANIC_EXIT_CODE: i32 = 101;

/// How a shim process ended.
#[derive(Debug)]
pub enum ExitInfo {
    /// Killed by a signal.
    Signal {
        /// 128 + signal number.
        exit_code: i32,
        /// Name of the signal.
        signal: String,
    },
    /// Panicked.
    Panic {
        /// Always 101.
        exit_code: i32,
        /// Message of the panic.
        message: String,
        /// Where it was raised (`file:line:col`).
        location: String,
    },
    /// Failed to boot or to read its configuration.
    Error {
        /// Exit code.
        exit_code: i32,
        /// Description.
        message: String,
    },
}

/// The exit code of any variant.
pub open spec fn code_of(info: ExitInfo) -> i32 {
    match info {
        ExitInfo::Signal { exit_code, .. } => exit_code,
        ExitInfo::Panic { exit_code, .. } => exit_code,
        ExitInfo::Error { exit_code, .. } => exit_code,
    }
}

/// One line on how the process ended.
pub open spec fn summary_text(info: ExitInfo) -> Seq<char> {
    match info {
        ExitInfo::Signal { signal, .. } => "killed by "@ + signal@,
        ExitInfo::Panic { message, location, .. } => "panic at "@ + location@ + ": "@ + message@,
        ExitInfo::Error { message, .. } => message@,
    }
}

impl ExitInfo {
    /// Exit code regardless of variant.
    pub fn exit_code(&self) -> (r: i32)
        ensures
            r == code_of(*self),
    {
        match self {
            ExitInfo::Signal { exit_code, .. } => *exit_code,
            ExitInfo::Panic { exit_code, .. } => *exit_code,
            ExitInfo::Error { exit_code, .. } => *exit_code,
        }
    }

    /// Summary for error messages.
    pub fn summary(&self) -> (r: String)
        ensures
            r@ == summary_text(*self),
    {
        match self {
            ExitInfo::Signal { signal, .. } => text::cat2("killed by ", signal.as_str()),
            ExitInfo::Panic { message, location, .. } => {
                let head = text::cat3("panic at ", location.as_str(), ": ");
                text::cat2(head.as_str(), message.as_str())
            },
            ExitInfo::Error { message, .. } => message.clone(),
        }
    }
}

/// What is said of the end of a process is what it left: the name of its signal,
/// the place and then the words of its panic, or its error as it is.
pub proof fn law_summary_says_what_was_left(info: ExitInfo)
    ensures
        info matches ExitInfo::Signal { signal, .. } ==> text::ends_with(
            summary_text(info),
            signal@,
        ) && text::starts_with(summary_text(info), "killed by "@),
        info matches ExitInfo::Panic { message, location, .. } ==> {
            &&& text::starts_with(summary_text(info), "panic at "@ + location@)
            &&& text::ends_with(summary_text(info), ": "@ + message@)
            &&& summary_text(info).len() == ("panic at "@ + location@).len() + (": "@
                + message@).len()
        },
        info matches ExitInfo::Error { message, .. } ==> summary_text(info) == message@,
{
    let t = summary_text(info);
    match info {
        ExitInfo::Signal { signal, .. } => {
            assert(t.skip(t.len() - signal@.len()) =~= signal@);
            assert(t.take("killed by "@.len() as int) =~= "killed by "@);
        },
        ExitInfo::Panic { message, location, .. } => {
            let a = "panic at "@ + location@;
            let b = ": "@ + message@;
            assert(t =~= a + b);
            assert(t.take(a.len() as int) =~= a);
            assert(t.skip(t.len() - b.len()) =~= b);
        },
        ExitInfo::Error { .. } => {},
    }
}

} // verus!
