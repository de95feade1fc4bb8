//! What a dying shim process leaves on record.

use vstd::prelude::*;
use crate::exit_info::{ExitInfo, PANIC_EXIT_CODE, SIGNAL_EXIT_BASE};
use crate::text;

verus! {

/// An error on record and the line to print for it.
#[derive(Debug)]
pub struct ExitNotice {
    /// Line for standard error.
    pub line: String,
    /// Record to write.
    pub info: ExitInfo,
}

/// Records an error of boot or configuration.
pub fn write_exit_error(message: &str) -> (r: ExitNotice)
    ensures
        r.line@ == "[bux-shim] "@ + message@,
        r.info matches ExitInfo::Error { exit_code, message: m } && exit_code == 1 && m@
            == message@,
{
    ExitNotice {
        line: text::cat2("[bux-shim] ", message),
        info: ExitInfo::Error { exit_code: 1, message: message.to_owned() },
    }
}

/// Where a panic was raised.
#[derive(Debug)]
pub struct PanicPlace {
    /// Source file.
    pub file: String,
    /// Line in it.
    pub line: u32,
    /// Column in it.
    pub column: u32,
}

/// A place as `file:line:column`; an unknown one has a name too.
pub open spec fn place_text(p: Option<PanicPlace>) -> Seq<char> {
    match p {
        Some(p) => p.file@ + ":"@ + text::dec(p.line as nat) + ":"@ + text::dec(p.column as nat),
        None => "unknown"@,
    }
}

/// Records a panic. A payload that is no text has no message of its own.
pub fn panic_info(payload: Option<String>, place: Option<PanicPlace>) -> (r: ExitInfo)
    ensures
        r matches ExitInfo::Panic { exit_code, message, location } && exit_code == PANIC_EXIT_CODE
            && message@ == (match payload {
            Some(m) => m@,
            None => "unknown panic"@,
        }) && location@ == place_text(place),
{
    let message = match payload {
        Some(m) => m,
        None => "unknown panic".to_owned(),
    };
    let location = match place {
        Some(p) => {
            let line = text::dec_u64(p.line as u64);
            let column = text::dec_u64(p.column as u64);
            let head = text::cat3(p.file.as_str(), ":", line.as_str());
            text::cat3(head.as_str(), ":", column.as_str())
        },
        None => "unknown".to_owned(),
    };
    ExitInfo::Panic { exit_code: PANIC_EXIT_CODE, message, location }
}

/// Numbers of the signals that are put on record, as the platform has them.
#[derive(Debug, Clone, Copy, PartialEq, Eq, Structural)]
pub struct CrashSignals {
    /// `SIGABRT`.
    pub abort: i32,
    /// `SIGSEGV`.
    pub segv: i32,
    /// `SIGBUS`.
    pub bus: i32,
    /// `SIGILL`.
    pub ill: i32,
}

/// Name of a signal.
pub open spec fn signal_name(s: CrashSignals, sig: i32) -> Seq<char> {
    if sig == s.abort {
        "SIGABRT"@
    } else if sig == s.segv {
        "SIGSEGV"@
    } else if sig == s.bus {
        "SIGBUS"@
    } else if sig == s.ill {
        "SIGILL"@
    } else {
        "UNKNOWN"@
    }
}

/// Records a fatal signal.
pub fn handle_crash_signal(signals: CrashSignals, sig: i32) -> (r: ExitInfo)
    requires
        sig <= i32::MAX - SIGNAL_EXIT_BASE,
    ensures
        r matches ExitInfo::Signal { exit_code, signal } && exit_code == SIGNAL_EXIT_BASE + sig
            && signal@ == signal_name(signals, sig),
{
    let name = if sig == signals.abort {
        "SIGABRT"
    } else if sig == signals.segv {
        "SIGSEGV"
    } else if sig == signals.bus {
        "SIGBUS"
    } else if sig == signals.ill {
        "SIGILL"
    } else {
        "UNKNOWN"
    };
    ExitInfo::Signal { exit_code: SIGNAL_EXIT_BASE + sig, signal: name.to_owned() }
}

/// The signals whose handler puts them on record, in order of registration.
pub fn install_crash_capture(signals: CrashSignals) -> (r: Vec<i32>)
    ensures
        r@ == seq![signals.abort, signals.segv, signals.bus, signals.ill],
{
    let mut v: Vec<i32> = Vec::new();
    v.push(signals.abort);
    v.push(signals.segv);
    v.push(signals.bus);
    v.push(signals.ill);
    assert(v@ =~= seq![signals.abort, signals.segv, signals.bus, signals.ill]);
    v
}

/// Every signal that is caught has a name on record.
pub proof fn law_caught_signals_are_named(s: CrashSignals, i: int)
    requires
        0 <= i < 4,
    ensures
        signal_name(s, seq![s.abort, s.segv, s.bus, s.ill][i]) != "UNKNOWN"@,
{
    reveal_strlit("SIGABRT");
    reveal_strlit("SIGSEGV");
    reveal_strlit("SIGBUS");
    reveal_strlit("SIGILL");
    reveal_strlit("UNKNOWN");
    assert("UNKNOWN"@[0] == 'U');
    assert("SIGABRT"@[0] == 'S' && "SIGSEGV"@[0] == 'S' && "SIGBUS"@[0] == 'S' && "SIGILL"@[0]
        == 'S');
}

/// Each of the signals of a crash has its own name, and no other has one.
pub proof fn law_signals_have_their_own_names(s: CrashSignals, sig: i32)
    requires
        s.abort != s.segv && s.abort != s.bus && s.abort != s.ill,
        s.segv != s.bus && s.segv != s.ill && s.bus != s.ill,
    ensures
        signal_name(s, s.abort) == "SIGABRT"@,
        signal_name(s, s.segv) == "SIGSEGV"@,
        signal_name(s, s.bus) == "SIGBUS"@,
        signal_name(s, s.ill) == "SIGILL"@,
        sig != s.abort && sig != s.segv && sig != s.bus && sig != s.ill ==> signal_name(s, sig)
            == "UNKNOWN"@,
{
}

/// A place that is shown is read back: what stands after the last `:` is the
/// column, what stands before it after the last `:` is the line, and the rest is
/// the file.
pub proof fn law_places_read_back(p: PanicPlace)
    ensures
        text::rsplit_once(place_text(Some(p)), ':') matches Some((rest, column)) && {
            &&& column == text::dec(p.column as nat)
            &&& text::rsplit_once(rest, ':') == Some((p.file@, text::dec(p.line as nat)))
        },
{
    reveal_strlit(":");
    let line = text::dec(p.line as nat);
    let column = text::dec(p.column as nat);
    text::lemma_dec_value(p.line as nat);
    text::lemma_dec_value(p.column as nat);
    assert forall|j: int| 0 <= j < line.len() implies #[trigger] line[j] != ':' by {
        assert(text::is_digit(line[j]));
    }
    assert forall|j: int| 0 <= j < column.len() implies #[trigger] column[j] != ':' by {
        assert(text::is_digit(column[j]));
    }
    assert(":"@ =~= seq![':']);
    let rest = p.file@ + seq![':'] + line;
    text::law_cutting_undoes_joining(p.file@, ':', line);
    text::law_cutting_undoes_joining(rest, ':', column);
}

} // verus!
