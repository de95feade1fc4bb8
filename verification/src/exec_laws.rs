//! What a running session does for each thing that happens, on pipes and on a
//! pseudo-terminal.

use vstd::prelude::*;
use crate::exec::{
    closing_steps, job_targets, limit_steps, pipe_action, pipe_next, pipe_over, pipe_run,
    pty_action, pty_ends, ClosingStep, HostInput, JobSignal, LimitStep, PipeEvent, PipeSession,
    PtyEvent, PtySession, ReadOutcome, SessionAction,
};

verus! {

/// The bytes that a run of events writes to the child's input.
pub open spec fn written_stdin(s: PipeSession, events: Seq<PipeEvent>) -> Seq<u8>
    decreases events.len(),
{
    if events.len() == 0 {
        seq![]
    } else {
        let before = written_stdin(s, events.drop_last());
        match pipe_action(pipe_run(s, events.drop_last()), events.last()) {
            SessionAction::WriteStdin(d) => before + d@,
            _ => before,
        }
    }
}

/// The bytes that the host sends for the child's input.
pub open spec fn sent_by_host(events: Seq<PipeEvent>) -> Seq<u8>
    decreases events.len(),
{
    if events.len() == 0 {
        seq![]
    } else {
        let before = sent_by_host(events.drop_last());
        match events.last() {
            PipeEvent::Host(HostInput::Stdin(d)) => before + d@,
            _ => before,
        }
    }
}

/// While the child's input is open and the session is not over, all that the
/// host sends is written to the child, unchanged and in order.
pub proof fn law_input_is_forwarded_whole(s: PipeSession, events: Seq<PipeEvent>)
    requires
        !pipe_over(pipe_run(s, events)),
        pipe_run(s, events).stdin_open,
    ensures
        written_stdin(s, events) == sent_by_host(events),
    decreases events.len(),
{
    if events.len() > 0 {
        law_input_is_forwarded_whole(s, events.drop_last());
    }
}

/// The bytes of the child's errors that a run of events sends to the host.
pub open spec fn sent_stderr(s: PipeSession, events: Seq<PipeEvent>) -> Seq<u8>
    decreases events.len(),
{
    if events.len() == 0 {
        seq![]
    } else {
        let before = sent_stderr(s, events.drop_last());
        match pipe_action(pipe_run(s, events.drop_last()), events.last()) {
            SessionAction::SendStderr(d) => before + d@,
            _ => before,
        }
    }
}

/// The bytes of the child's errors that a run of events delivers.
pub open spec fn read_stderr(events: Seq<PipeEvent>) -> Seq<u8>
    decreases events.len(),
{
    if events.len() == 0 {
        seq![]
    } else {
        let before = read_stderr(events.drop_last());
        match events.last() {
            PipeEvent::Stderr(ReadOutcome::Data(d)) => before + d@,
            _ => before,
        }
    }
}

/// While its errors have not ended and its session is not over, all that the
/// child has written there is sent to the host as errors, unchanged and in
/// order.
pub proof fn law_errors_are_forwarded_whole(s: PipeSession, events: Seq<PipeEvent>)
    requires
        !pipe_over(pipe_run(s, events)),
        !pipe_run(s, events).stderr_done,
    ensures
        sent_stderr(s, events) == read_stderr(events),
    decreases events.len(),
{
    if events.len() > 0 {
        law_errors_are_forwarded_whole(s, events.drop_last());
    }
}

/// In a session on pipes that is not over, what comes from the host goes to the
/// child and what comes from the child goes to the host, each to its own
/// stream; a signal is the host's own; and a host that is gone has the job
/// killed. Nothing else is done, and the size of a terminal is never changed.
pub proof fn law_pipe_session_passes_on(s: PipeSession, e: PipeEvent)
    requires
        !pipe_over(s),
    ensures
        match pipe_action(s, e) {
            SessionAction::WriteStdin(d) => s.stdin_open && e == PipeEvent::Host(
                HostInput::Stdin(d),
            ),
            SessionAction::CloseStdin => e == PipeEvent::Host(HostInput::StdinClose),
            SessionAction::SendStdout(d) => !s.stdout_done && e == PipeEvent::Stdout(
                ReadOutcome::Data(d),
            ) && d@.len() > 0,
            SessionAction::SendStderr(d) => !s.stderr_done && e == PipeEvent::Stderr(
                ReadOutcome::Data(d),
            ) && d@.len() > 0,
            SessionAction::KillJob(JobSignal::Host(n)) => e == PipeEvent::Host(
                HostInput::Signal(n),
            ),
            SessionAction::KillJob(JobSignal::Kill) => e is HostGone,
            SessionAction::Resize(_) => false,
            SessionAction::Nothing => match e {
                PipeEvent::HostGone => false,
                PipeEvent::Host(HostInput::Signal(_)) => false,
                PipeEvent::Host(HostInput::StdinClose) => false,
                PipeEvent::Host(HostInput::Stdin(_)) => !s.stdin_open,
                PipeEvent::Host(_) => true,
                PipeEvent::Stdout(ReadOutcome::Data(d)) => d@.len() == 0 || s.stdout_done,
                PipeEvent::Stderr(ReadOutcome::Data(d)) => d@.len() == 0 || s.stderr_done,
                _ => true,
            },
        },
{
}

/// In a session on pipes that is not over, an event changes what it is about
/// and nothing else: input is closed by the host alone, a stream ends with a
/// read that gives nothing or fails, and the host is gone once it is said to be.
pub proof fn law_pipe_events_change_one_thing(s: PipeSession, e: PipeEvent)
    requires
        !pipe_over(s),
    ensures
        pipe_next(s, e).stdin_open == (s.stdin_open && e != PipeEvent::Host(HostInput::StdinClose)),
        pipe_next(s, e).host_gone == (s.host_gone || e is HostGone),
        pipe_next(s, e).stdout_done == (s.stdout_done || match e {
            PipeEvent::Stdout(ReadOutcome::Data(d)) => d@.len() == 0,
            PipeEvent::Stdout(ReadOutcome::Failed) => true,
            _ => false,
        }),
        pipe_next(s, e).stderr_done == (s.stderr_done || match e {
            PipeEvent::Stderr(ReadOutcome::Data(d)) => d@.len() == 0,
            PipeEvent::Stderr(ReadOutcome::Failed) => true,
            _ => false,
        }),
        pipe_over(pipe_next(s, e)) == {
            ||| pipe_next(s, e).host_gone
            ||| pipe_next(s, e).stdout_done && pipe_next(s, e).stderr_done
        },
{
}

/// In a session on a pseudo-terminal that is not over, what comes from the host
/// goes to the terminal and what the terminal shows goes to the host; a signal
/// is the host's own; and a host that is gone has the job killed. Input is never
/// closed, and nothing is sent as errors.
pub proof fn law_pty_session_passes_on(s: PtySession, e: PtyEvent)
    requires
        !s.done,
    ensures
        match pty_action(s, e) {
            SessionAction::WriteStdin(d) => e == PtyEvent::Host(HostInput::Stdin(d)),
            SessionAction::Resize(size) => e == PtyEvent::Host(HostInput::ResizeTty(size)),
            SessionAction::SendStdout(d) => e == PtyEvent::Output(ReadOutcome::Data(d)) && d@.len()
                > 0,
            SessionAction::KillJob(JobSignal::Host(n)) => e == PtyEvent::Host(HostInput::Signal(n)),
            SessionAction::KillJob(JobSignal::Kill) => e is HostGone,
            SessionAction::CloseStdin => false,
            SessionAction::SendStderr(_) => false,
            SessionAction::Nothing => match e {
                PtyEvent::HostGone => false,
                PtyEvent::Host(HostInput::Signal(_)) => false,
                PtyEvent::Host(HostInput::Stdin(_)) => false,
                PtyEvent::Host(HostInput::ResizeTty(_)) => false,
                PtyEvent::Host(_) => true,
                PtyEvent::Output(ReadOutcome::Data(d)) => d@.len() == 0,
                PtyEvent::Output(ReadOutcome::Failed) => true,
            },
        },
{
}

/// A session on a pseudo-terminal ends with the host, or with a read that gives
/// nothing or fails, and with nothing that the host sends. What is done after
/// its end is nothing.
pub proof fn law_pty_session_ends(s: PtySession, e: PtyEvent)
    ensures
        e is HostGone ==> pty_ends(e),
        e is Host ==> !pty_ends(e),
        e matches PtyEvent::Output(ReadOutcome::Failed) ==> pty_ends(e),
        e matches PtyEvent::Output(ReadOutcome::Data(d)) ==> pty_ends(e) == (d@.len() == 0),
        s.done ==> pty_action(s, e) is Nothing,
{
}

/// The end of a session calls off a kill that was due and closes an input that
/// is open, each once and only then, and reports the exit last.
pub proof fn law_exit_is_reported_last(timeout_ms: u64, stdin_open: bool)
    ensures
        ({
            let steps = closing_steps(timeout_ms, stdin_open);
            &&& steps.len() > 0
            &&& steps.last() is ReportExit
            &&& timeout_ms > 0 <==> steps.contains(ClosingStep::AbortKiller)
            &&& stdin_open <==> steps.contains(ClosingStep::CloseStdin)
            &&& steps.len() == 1 + (if timeout_ms > 0 {
                1int
            } else {
                0
            }) + (if stdin_open {
                1int
            } else {
                0
            })
            &&& timeout_ms > 0 ==> steps[0] is AbortKiller
        }),
{
    let steps = closing_steps(timeout_ms, stdin_open);
    if timeout_ms > 0 {
        assert(steps[0] == ClosingStep::AbortKiller);
        if stdin_open {
            assert(steps[1] == ClosingStep::CloseStdin);
        }
    } else if stdin_open {
        assert(steps[0] == ClosingStep::CloseStdin);
    }
}

/// At its time limit a job counts as timed out before it is killed, and is
/// killed outright.
pub proof fn law_timed_out_before_killed()
    ensures
        forall|i: int|
            0 <= i < limit_steps().len() ==> (#[trigger] limit_steps()[i] matches LimitStep::KillJob(
                k,
            ) ==> k is Kill && exists|j: int|
                0 <= j < i && #[trigger] limit_steps()[j] is MarkTimedOut),
        exists|i: int| 0 <= i < limit_steps().len() && #[trigger] limit_steps()[i] is KillJob,
        exists|i: int| 0 <= i < limit_steps().len() && #[trigger] limit_steps()[i] is Report,
{
    let steps = limit_steps();
    assert(steps[0] is MarkTimedOut);
    assert(steps[1] is Report);
    assert(steps[2] is KillJob);
}

/// A signal for a job that may be signalled reaches its group and its leader.
pub proof fn law_kill_job_reaches_group_and_leader(pgid: i32)
    requires
        pgid > 1,
    ensures
        job_targets(pgid).contains(pgid),
        job_targets(pgid).contains((0 - pgid) as i32),
        job_targets(pgid).len() == 2,
{
    assert(job_targets(pgid)[0] == (0 - pgid) as i32);
    assert(job_targets(pgid)[1] == pgid);
}

} // verus!
