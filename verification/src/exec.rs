//! Command execution in the guest: what to start, and how a running session
//! answers its host.
//!
//! The sessions here hold no descriptors. The caller waits for the host and
//! for the child's output, hands over what came, and does what it is told.

use vstd::prelude::*;
use crate::container;
use crate::container::Primary;
use crate::error::{IoError, IoKind};
use crate::error;
use crate::text;
use crate::user;

verus! {

// ---------------------------------------------------------------------------
// Requests
// ---------------------------------------------------------------------------

/// Size of a terminal.
#[derive(Debug, Clone, Copy, PartialEq, Eq, Structural)]
pub struct TtyConfig {
    /// Rows of characters.
    pub rows: u16,
    /// Columns of characters.
    pub cols: u16,
}

/// A request to run a command.
#[derive(Debug)]
pub struct ExecStart {
    /// Program to run.
    pub cmd: String,
    /// Arguments of the program.
    pub args: Vec<String>,
    /// Environment assignments, `NAME=value`.
    pub env: Vec<String>,
    /// Working directory.
    pub cwd: Option<String>,
    /// User id to run as.
    pub uid: Option<u32>,
    /// Group id to run as.
    pub gid: Option<u32>,
    /// User to run as, looked up in the guest.
    pub user: Option<String>,
    /// Whether the host will send standard input.
    pub stdin: bool,
    /// Size of the pseudo-terminal to run on, where one is asked for.
    pub tty: Option<TtyConfig>,
    /// Milliseconds after which to kill the job; zero for never.
    pub timeout_ms: u64,
    /// Whether to run in the primary container.
    pub in_container: Option<bool>,
}

/// Resolved `(uid, gid)` for a command, if any change is requested.
pub type Credentials = Option<(u32, u32)>;

/// The credentials that a request asks for: its ids, each standing in for the
/// other where only one is given, or else those of its user.
pub open spec fn requested_credentials(
    req: ExecStart,
    passwd: Result<Seq<char>, error::IoFault>,
    group: Result<Seq<char>, error::IoFault>,
) -> Result<Option<(u32, u32)>, error::IoFault> {
    match (req.uid, req.gid) {
        (Some(uid), Some(gid)) => Ok(Some((uid, gid))),
        (Some(uid), None) => Ok(Some((uid, uid))),
        (None, Some(gid)) => Ok(Some((gid, gid))),
        (None, None) => match req.user {
            None => Ok(None),
            Some(u) => match user::credentials_of(u@, passwd, group) {
                Ok(ids) => Ok(Some(ids)),
                Err(e) => Err(e),
            },
        },
    }
}

/// Resolves the credentials of a request. Ids given as numbers come before a
/// user name.
pub fn resolve_credentials(
    req: &ExecStart,
    passwd: &Result<String, IoError>,
    group: &Result<String, IoError>,
) -> (r: Result<Credentials, IoError>)
    ensures
        error::outcome(r) == requested_credentials(
            *req,
            error::file_view(*passwd),
            error::file_view(*group),
        ),
{
    match (req.uid, req.gid) {
        (Some(uid), Some(gid)) => Ok(Some((uid, gid))),
        (Some(uid), None) => Ok(Some((uid, uid))),
        (None, Some(gid)) => Ok(Some((gid, gid))),
        (None, None) => match &req.user {
            None => Ok(None),
            Some(u) => match user::resolve_user(u.as_str(), passwd, group) {
                Ok(ids) => Ok(Some(ids)),
                Err(e) => Err(e),
            },
        },
    }
}

// ---------------------------------------------------------------------------
// Starting a command
// ---------------------------------------------------------------------------

/// One step of a change of credentials in the child.
#[derive(Debug, Clone, Copy, PartialEq, Eq, Structural)]
pub enum CredentialStep {
    /// Set the group id.
    SetGid(u32),
    /// Set the user id.
    SetUid(u32),
}

/// Working directory, environment and credentials of a command.
#[derive(Debug)]
pub struct ExecOptions {
    /// Working directory, where one is asked for.
    pub cwd: Option<String>,
    /// Variables to set, in order.
    pub env: Vec<(String, String)>,
    /// Steps to take in the child before the program runs, in order.
    pub credentials: Vec<CredentialStep>,
}

/// Name and value of each assignment; entries without `=` are passed over.
pub open spec fn assignments(env: Seq<Seq<char>>) -> Seq<(Seq<char>, Seq<char>)>
    decreases env.len(),
{
    if env.len() == 0 {
        seq![]
    } else {
        let before = assignments(env.drop_last());
        match text::split_once(env.last(), '=') {
            Some(pair) => before.push(pair),
            None => before,
        }
    }
}

/// The texts of a list of pairs.
pub open spec fn pair_views(v: Seq<(String, String)>) -> Seq<(Seq<char>, Seq<char>)> {
    Seq::new(v.len(), |i: int| (v[i].0@, v[i].1@))
}

/// The steps of a change of credentials. The group comes first: once the user
/// is changed, the group can no longer be.
pub open spec fn credential_steps(c: Option<(u32, u32)>) -> Seq<CredentialStep> {
    match c {
        Some((uid, gid)) => seq![CredentialStep::SetGid(gid), CredentialStep::SetUid(uid)],
        None => seq![],
    }
}

/// Options that apply to a command in either mode.
pub fn exec_options(req: &ExecStart, credentials: Credentials) -> (r: ExecOptions)
    ensures
        r.cwd == req.cwd,
        pair_views(r.env@) == assignments(text::views(req.env@)),
        r.credentials@ == credential_steps(credentials),
{
    let ghost all = text::views(req.env@);
    let mut env: Vec<(String, String)> = Vec::new();
    let mut i: usize = 0;
    assert(pair_views(env@) =~= assignments(all.take(0)));
    while i < req.env.len()
        invariant
            i <= req.env.len(),
            all == text::views(req.env@),
            pair_views(env@) == assignments(all.take(i as int)),
        decreases req.env.len() - i,
    {
        let ghost before = pair_views(env@);
        assert(all.take(i + 1).drop_last() =~= all.take(i as int));
        assert(all.take(i + 1).last() == req.env@[i as int]@);
        match text::cut_first(req.env[i].as_str(), '=') {
            Some(pair) => {
                let ghost pv = (pair.0@, pair.1@);
                env.push(pair);
                assert(pair_views(env@) =~= before.push(pv));
            },
            None => {},
        }
        i = i + 1;
    }
    assert(all.take(req.env.len() as int) =~= all);
    let mut steps: Vec<CredentialStep> = Vec::new();
    match credentials {
        Some((uid, gid)) => {
            steps.push(CredentialStep::SetGid(gid));
            steps.push(CredentialStep::SetUid(uid));
        },
        None => {},
    }
    assert(steps@ =~= credential_steps(credentials));
    ExecOptions { cwd: text::clone_opt(&req.cwd), env, credentials: steps }
}

/// How to start a command on pipes.
#[derive(Debug)]
pub struct PipePlan {
    /// Program to run.
    pub program: String,
    /// Arguments of the program.
    pub args: Vec<String>,
    /// Whether standard input is a pipe. Output and errors always are.
    pub stdin: bool,
    /// Whether the child leads a process group of its own, made by the child
    /// before it runs the program and by the parent after the spawn.
    pub own_group: bool,
    /// Working directory, environment and credentials.
    pub options: ExecOptions,
}

/// Sort of failure that the guest reports.
#[derive(Debug, Clone, Copy, PartialEq, Eq, Structural)]
pub enum ErrorCode {
    /// The reason is inside the guest.
    Internal,
}

/// First message of the guest to its host.
#[derive(Debug)]
pub enum HelloAck {
    /// The command could not be started.
    Error {
        /// Sort of failure.
        code: ErrorCode,
        /// Description.
        message: String,
    },
    /// The command runs.
    ExecStarted {
        /// Name of this execution.
        exec_id: String,
        /// Process id of the child.
        pid: i32,
    },
}

/// Whether a message refuses a command with this description, for a reason
/// inside the guest.
pub open spec fn refuses(ack: HelloAck, why: Seq<char>) -> bool {
    ack matches HelloAck::Error { code, message } && code == ErrorCode::Internal && message@ == why
}

/// Refuses a command.
fn refusal(message: String) -> (r: HelloAck)
    ensures
        refuses(r, message@),
{
    HelloAck::Error { code: ErrorCode::Internal, message }
}

/// Plans a command on pipes, or refuses it where its user cannot be resolved.
pub fn plan_pipe(
    req: &ExecStart,
    passwd: &Result<String, IoError>,
    group: &Result<String, IoError>,
) -> (r: Result<PipePlan, HelloAck>)
    ensures
        match requested_credentials(*req, error::file_view(*passwd), error::file_view(*group)) {
            Ok(c) => {
                &&& r matches Ok(p)
                &&& p.program == req.cmd
                &&& p.args@ == req.args@
                &&& p.stdin == req.stdin
                &&& p.own_group
                &&& p.options.cwd == req.cwd
                &&& pair_views(p.options.env@) == assignments(text::views(req.env@))
                &&& p.options.credentials@ == credential_steps(c)
            },
            Err(e) => r matches Err(ack) && refuses(ack, e.message),
        },
{
    match resolve_credentials(req, passwd, group) {
        Err(e) => Err(refusal(e.message)),
        Ok(c) => Ok(
            PipePlan {
                program: req.cmd.clone(),
                args: text::clone_strings(&req.args),
                stdin: req.stdin,
                own_group: leads_group(ExecMode::Pipe),
                options: exec_options(req, c),
            },
        ),
    }
}

/// A request with its program and arguments as they are run: entering the
/// primary container, where the command runs in it. A command that has to run in
/// a container is refused where there is none.
pub fn enter(primary: &Primary, req: ExecStart) -> (r: Result<ExecStart, HelloAck>)
    ensures
        match container::exec_argv(primary@, req.cmd@, text::views(req.args@), req.in_container) {
            Ok((program, args)) => {
                &&& r matches Ok(q)
                &&& q.cmd@ == program
                &&& text::views(q.args@) == args
                &&& q == (ExecStart { cmd: q.cmd, args: q.args, ..req })
            },
            Err(e) => r matches Err(ack) && refuses(ack, e.message),
        },
{
    match container::resolve_exec_argv(primary, req.cmd.as_str(), &req.args, req.in_container) {
        Err(e) => Err(refusal(e.message)),
        Ok((cmd, args)) => {
            let mut q = req;
            q.cmd = cmd;
            q.args = args;
            Ok(q)
        },
    }
}

/// Plans a command on pipes, in the primary container where it runs in it. It is
/// refused where it needs a container that is not there, or where its user
/// cannot be resolved.
pub fn plan_exec(
    primary: &Primary,
    req: ExecStart,
    passwd: &Result<String, IoError>,
    group: &Result<String, IoError>,
) -> (r: Result<PipePlan, HelloAck>)
    ensures
        match container::exec_argv(primary@, req.cmd@, text::views(req.args@), req.in_container) {
            Err(e) => r matches Err(ack) && refuses(ack, e.message),
            Ok((program, args)) => match requested_credentials(
                req,
                error::file_view(*passwd),
                error::file_view(*group),
            ) {
                Err(e) => r matches Err(ack) && refuses(ack, e.message),
                Ok(c) => {
                    &&& r matches Ok(p)
                    &&& p.program@ == program
                    &&& text::views(p.args@) == args
                    &&& p.stdin == req.stdin
                    &&& p.own_group
                    &&& p.options.cwd == req.cwd
                    &&& pair_views(p.options.env@) == assignments(text::views(req.env@))
                    &&& p.options.credentials@ == credential_steps(c)
                },
            },
        },
{
    match enter(primary, req) {
        Err(refusal) => Err(refusal),
        Ok(q) => plan_pipe(&q, passwd, group),
    }
}

/// Where the primary container runs, a command enters its namespaces unless it
/// asks not to.
pub proof fn law_exec_enters_the_ready_container(
    pc: container::PrimaryContainer,
    cmd: Seq<char>,
    args: Seq<Seq<char>>,
    in_container: Option<bool>,
)
    requires
        in_container != Some(false),
    ensures
        container::exec_argv(Some(pc), cmd, args, in_container) == Ok::<
            (Seq<char>, Seq<Seq<char>>),
            error::IoFault,
        >(("nsenter"@, container::entering(pc.init_pid, cmd, args))),
{
}

/// First message once a command was spawned, or could not be.
pub fn started(exec_id: String, spawned: Result<i32, String>) -> (r: HelloAck)
    ensures
        match spawned {
            Ok(pid) => r == (HelloAck::ExecStarted { exec_id, pid }),
            Err(m) => refuses(r, m@),
        },
{
    match spawned {
        Ok(pid) => HelloAck::ExecStarted { exec_id, pid },
        Err(m) => refusal(m),
    }
}

/// Name of the execution with the given sequence number.
pub open spec fn exec_id_text(n: u64) -> Seq<char> {
    "exec-"@ + text::dec(n as nat)
}

/// Names an execution.
pub fn exec_id(n: u64) -> (r: String)
    ensures
        r@ == exec_id_text(n),
{
    let d = text::dec_u64(n);
    text::cat2("exec-", d.as_str())
}

/// Executions with different numbers have different names.
pub proof fn law_exec_ids_differ(m: u64, n: u64)
    requires
        m != n,
    ensures
        exec_id_text(m) != exec_id_text(n),
{
    text::lemma_dec_value(m as nat);
    text::lemma_dec_value(n as nat);
    let p = "exec-"@;
    if exec_id_text(m) == exec_id_text(n) {
        assert((p + text::dec(m as nat)).skip(p.len() as int) =~= text::dec(m as nat));
        assert((p + text::dec(n as nat)).skip(p.len() as int) =~= text::dec(n as nat));
    }
}

/// How a command is connected to its host.
#[derive(Debug, Clone, Copy, PartialEq, Eq, Structural)]
pub enum ExecMode {
    /// Output and errors are separate streams.
    Pipe,
    /// Both share one pseudo-terminal.
    Pty,
}

/// The mode that a request asks for.
pub fn handle(req: &ExecStart) -> (r: ExecMode)
    ensures
        r == (if req.tty is Some {
            ExecMode::Pty
        } else {
            ExecMode::Pipe
        }),
{
    if req.tty.is_some() {
        ExecMode::Pty
    } else {
        ExecMode::Pipe
    }
}

/// Whether the child is made the leader of a process group of its own. On a
/// pseudo-terminal it makes a session of its own, which a group leader may not.
pub fn leads_group(mode: ExecMode) -> (r: bool)
    ensures
        r == (mode == ExecMode::Pipe),
{
    match mode {
        ExecMode::Pipe => true,
        ExecMode::Pty => false,
    }
}

// ---------------------------------------------------------------------------
// Signals and the time limit
// ---------------------------------------------------------------------------

/// A signal for a job.
#[derive(Debug, Clone, Copy, PartialEq, Eq, Structural)]
pub enum JobSignal {
    /// The signal that the host asked for.
    Host(i32),
    /// The signal that cannot be caught.
    Kill,
}

/// Process ids to signal, in order, to reach a whole job: its group, then its
/// leader, which may not have made the group yet. Ids up to one, which would
/// reach everything, are left alone.
pub open spec fn job_targets(pgid: i32) -> Seq<i32> {
    if pgid <= 1 {
        seq![]
    } else {
        seq![(-pgid) as i32, pgid]
    }
}

/// The process ids to signal to reach a whole job.
pub fn kill_job(pgid: i32) -> (r: Vec<i32>)
    ensures
        r@ == job_targets(pgid),
{
    let mut v: Vec<i32> = Vec::new();
    if pgid > 1 {
        v.push(-pgid);
        v.push(pgid);
    }
    assert(v@ =~= job_targets(pgid));
    v
}

/// A signal for a job reaches no process but the job: never every process,
/// never the caller's own group, never the first process.
pub proof fn law_kill_job_is_confined(pgid: i32)
    ensures
        forall|i: int|
            0 <= i < job_targets(pgid).len() ==> #[trigger] job_targets(pgid)[i] == pgid
                || job_targets(pgid)[i] == -pgid,
        forall|i: int|
            0 <= i < job_targets(pgid).len() ==> #[trigger] job_targets(pgid)[i] != 0
                && job_targets(pgid)[i] != -1 && job_targets(pgid)[i] != 1,
{
}

/// Milliseconds to wait before the job is killed; without a limit, none.
pub fn spawn_timeout_killer(timeout_ms: u64) -> (r: Option<u64>)
    ensures
        r == (if timeout_ms == 0 {
            None::<u64>
        } else {
            Some(timeout_ms)
        }),
{
    if timeout_ms == 0 {
        None
    } else {
        Some(timeout_ms)
    }
}

/// A step when the time limit of a job is reached.
#[derive(Debug, Clone, Copy, PartialEq, Eq, Structural)]
pub enum LimitStep {
    /// Note that the time limit was reached.
    MarkTimedOut,
    /// Report that the job is killed.
    Report,
    /// Signal the job.
    KillJob(JobSignal),
}

/// What to do for a job, in order, when its time limit is reached. It counts as
/// timed out before it is killed, so that no exit by this kill is reported
/// without saying so.
pub open spec fn limit_steps() -> Seq<LimitStep> {
    seq![LimitStep::MarkTimedOut, LimitStep::Report, LimitStep::KillJob(JobSignal::Kill)]
}

/// What to do for a job when its time limit is reached.
pub fn at_time_limit() -> (r: Vec<LimitStep>)
    ensures
        r@ == limit_steps(),
{
    let mut v: Vec<LimitStep> = Vec::new();
    v.push(LimitStep::MarkTimedOut);
    v.push(LimitStep::Report);
    v.push(LimitStep::KillJob(JobSignal::Kill));
    assert(v@ =~= limit_steps());
    v
}

/// Report of a job that is killed at its time limit.
pub fn time_limit_report(pid: i32) -> (r: String)
    ensures
        r@ == "[bux-guest] exec timeout killpg pid="@ + text::dec_int(pid as int),
{
    let d = text::dec_i64(pid as i64);
    text::cat2("[bux-guest] exec timeout killpg pid=", d.as_str())
}

/// How a child ended.
#[derive(Debug, Clone, Copy, PartialEq, Eq, Structural)]
pub struct Exit {
    /// Exit code.
    pub code: i32,
    /// Signal that ended it, if one did.
    pub signal: Option<i32>,
}

/// Last message of a session.
#[derive(Debug)]
pub struct ExitReport {
    /// Exit code.
    pub code: i32,
    /// Signal that ended the child, if one did.
    pub signal: Option<i32>,
    /// Whether the time limit ended it.
    pub timed_out: bool,
    /// Milliseconds since the command was asked for.
    pub duration_ms: u64,
    /// Description of a failure.
    pub error_message: Option<String>,
}

/// The last message of a session. Where nothing is left to say how the child
/// ended, that is a failure and no exit code. A duration beyond 64 bits keeps
/// its low 64 bits.
pub fn send_exit(wait: Option<Exit>, elapsed_ms: u128, timed_out: bool) -> (r: Result<
    ExitReport,
    IoError,
>)
    ensures
        match wait {
            None => r matches Err(e) && e@ == (error::IoFault {
                kind: IoKind::Other,
                message: "reaper waiter dropped"@,
            }),
            Some(exit) => {
                &&& r matches Ok(report)
                &&& report.code == exit.code
                &&& report.signal == exit.signal
                &&& report.timed_out == timed_out
                &&& report.duration_ms == elapsed_ms % 0x1_0000_0000_0000_0000
                &&& report.error_message is None
            },
        },
{
    match wait {
        None => Err(IoError::other("reaper waiter dropped")),
        Some(exit) => {
            let low: u128 = elapsed_ms % 0x1_0000_0000_0000_0000;
            Ok(
                ExitReport {
                    code: exit.code,
                    signal: exit.signal,
                    timed_out,
                    duration_ms: low as u64,
                    error_message: None,
                },
            )
        },
    }
}

/// A step at the end of a session.
#[derive(Debug, Clone, Copy, PartialEq, Eq, Structural)]
pub enum ClosingStep {
    /// Call off the kill at the time limit.
    AbortKiller,
    /// Close the child's standard input.
    CloseStdin,
    /// Wait for the child and report how it ended.
    ReportExit,
}

/// The steps at the end of a session, in order: a kill that was due is called
/// off before the child is waited for, and so is what keeps its input open.
pub open spec fn closing_steps(timeout_ms: u64, stdin_open: bool) -> Seq<ClosingStep> {
    (if timeout_ms > 0 {
        seq![ClosingStep::AbortKiller]
    } else {
        seq![]
    }) + (if stdin_open {
        seq![ClosingStep::CloseStdin]
    } else {
        seq![]
    }) + seq![ClosingStep::ReportExit]
}

/// The steps at the end of a session. On a pseudo-terminal there is no separate
/// standard input to close.
pub fn close_session(timeout_ms: u64, stdin_open: bool) -> (r: Vec<ClosingStep>)
    ensures
        r@ == closing_steps(timeout_ms, stdin_open),
{
    let mut v: Vec<ClosingStep> = Vec::new();
    if timeout_ms > 0 {
        v.push(ClosingStep::AbortKiller);
    }
    if stdin_open {
        v.push(ClosingStep::CloseStdin);
    }
    v.push(ClosingStep::ReportExit);
    assert(v@ =~= closing_steps(timeout_ms, stdin_open));
    v
}

// ---------------------------------------------------------------------------
// A session on pipes
// ---------------------------------------------------------------------------

/// A message of the host.
#[derive(Debug)]
pub enum HostInput {
    /// Bytes for standard input.
    Stdin(Vec<u8>),
    /// End of standard input.
    StdinClose,
    /// A signal for the job.
    Signal(i32),
    /// A new size for the terminal.
    ResizeTty(TtyConfig),
    /// Anything else.
    Unrelated,
}

/// What reading a stream of the child gave. Nothing read is its end.
#[derive(Debug)]
pub enum ReadOutcome {
    /// These bytes.
    Data(Vec<u8>),
    /// An error.
    Failed,
}

/// Whether a stream is over.
pub open spec fn is_end(o: ReadOutcome) -> bool {
    match o {
        ReadOutcome::Data(d) => d@.len() == 0,
        ReadOutcome::Failed => true,
    }
}

/// Something that happened in a session on pipes.
#[derive(Debug)]
pub enum PipeEvent {
    /// The host sent a message.
    Host(HostInput),
    /// The host is gone.
    HostGone,
    /// The child's output was read.
    Stdout(ReadOutcome),
    /// The child's errors were read.
    Stderr(ReadOutcome),
}

/// What to do in a session.
#[derive(Debug)]
pub enum SessionAction {
    /// Nothing.
    Nothing,
    /// Write to the child's standard input; a failure does not matter.
    WriteStdin(Vec<u8>),
    /// Close the child's standard input.
    CloseStdin,
    /// Signal the job.
    KillJob(JobSignal),
    /// Send the host output of the child.
    SendStdout(Vec<u8>),
    /// Send the host errors of the child.
    SendStderr(Vec<u8>),
    /// Give the terminal this size.
    Resize(TtyConfig),
}

/// State of a session on pipes.
#[derive(Debug, Clone, Copy, PartialEq, Eq, Structural)]
pub struct PipeSession {
    /// Whether the child's standard input is open.
    pub stdin_open: bool,
    /// Whether the child's output is over.
    pub stdout_done: bool,
    /// Whether the child's errors are over.
    pub stderr_done: bool,
    /// Whether the host is gone.
    pub host_gone: bool,
}

/// Whether a session on pipes is over: the host is gone, or both streams of
/// the child have ended.
pub open spec fn pipe_over(s: PipeSession) -> bool {
    s.host_gone || (s.stdout_done && s.stderr_done)
}

/// The state after an event.
pub open spec fn pipe_next(s: PipeSession, e: PipeEvent) -> PipeSession {
    if pipe_over(s) {
        s
    } else {
        match e {
            PipeEvent::Host(HostInput::StdinClose) => PipeSession { stdin_open: false, ..s },
            PipeEvent::Host(_) => s,
            PipeEvent::HostGone => PipeSession { host_gone: true, ..s },
            PipeEvent::Stdout(o) => if is_end(o) {
                PipeSession { stdout_done: true, ..s }
            } else {
                s
            },
            PipeEvent::Stderr(o) => if is_end(o) {
                PipeSession { stderr_done: true, ..s }
            } else {
                s
            },
        }
    }
}

/// What to do on an event.
pub open spec fn pipe_action(s: PipeSession, e: PipeEvent) -> SessionAction {
    if pipe_over(s) {
        SessionAction::Nothing
    } else {
        match e {
            PipeEvent::Host(HostInput::Stdin(d)) => if s.stdin_open {
                SessionAction::WriteStdin(d)
            } else {
                SessionAction::Nothing
            },
            PipeEvent::Host(HostInput::StdinClose) => SessionAction::CloseStdin,
            PipeEvent::Host(HostInput::Signal(n)) => SessionAction::KillJob(JobSignal::Host(n)),
            PipeEvent::Host(_) => SessionAction::Nothing,
            PipeEvent::HostGone => SessionAction::KillJob(JobSignal::Kill),
            PipeEvent::Stdout(ReadOutcome::Data(d)) => if d@.len() > 0 && !s.stdout_done {
                SessionAction::SendStdout(d)
            } else {
                SessionAction::Nothing
            },
            PipeEvent::Stderr(ReadOutcome::Data(d)) => if d@.len() > 0 && !s.stderr_done {
                SessionAction::SendStderr(d)
            } else {
                SessionAction::Nothing
            },
            PipeEvent::Stdout(ReadOutcome::Failed) => SessionAction::Nothing,
            PipeEvent::Stderr(ReadOutcome::Failed) => SessionAction::Nothing,
        }
    }
}

impl PipeSession {
    /// A session that has just begun.
    pub fn new(stdin: bool) -> (s: Self)
        ensures
            s == (PipeSession {
                stdin_open: stdin,
                stdout_done: false,
                stderr_done: false,
                host_gone: false,
            }),
    {
        PipeSession { stdin_open: stdin, stdout_done: false, stderr_done: false, host_gone: false }
    }

    /// Whether the session is over.
    pub fn over(&self) -> (r: bool)
        ensures
            r == pipe_over(*self),
    {
        self.host_gone || (self.stdout_done && self.stderr_done)
    }

    /// Takes in an event and says what to do.
    pub fn step(&mut self, event: PipeEvent) -> (a: SessionAction)
        ensures
            *final(self) == pipe_next(*old(self), event),
            a == pipe_action(*old(self), event),
    {
        if self.over() {
            return SessionAction::Nothing;
        }
        match event {
            PipeEvent::Host(HostInput::Stdin(d)) => {
                if self.stdin_open {
                    SessionAction::WriteStdin(d)
                } else {
                    SessionAction::Nothing
                }
            },
            PipeEvent::Host(HostInput::StdinClose) => {
                self.stdin_open = false;
                SessionAction::CloseStdin
            },
            PipeEvent::Host(HostInput::Signal(n)) => SessionAction::KillJob(JobSignal::Host(n)),
            PipeEvent::Host(_) => SessionAction::Nothing,
            PipeEvent::HostGone => {
                self.host_gone = true;
                SessionAction::KillJob(JobSignal::Kill)
            },
            PipeEvent::Stdout(ReadOutcome::Data(d)) => {
                if d.len() == 0 {
                    self.stdout_done = true;
                    SessionAction::Nothing
                } else if self.stdout_done {
                    SessionAction::Nothing
                } else {
                    SessionAction::SendStdout(d)
                }
            },
            PipeEvent::Stdout(ReadOutcome::Failed) => {
                self.stdout_done = true;
                SessionAction::Nothing
            },
            PipeEvent::Stderr(ReadOutcome::Data(d)) => {
                if d.len() == 0 {
                    self.stderr_done = true;
                    SessionAction::Nothing
                } else if self.stderr_done {
                    SessionAction::Nothing
                } else {
                    SessionAction::SendStderr(d)
                }
            },
            PipeEvent::Stderr(ReadOutcome::Failed) => {
                self.stderr_done = true;
                SessionAction::Nothing
            },
        }
    }
}

/// The state after a run of events.
pub open spec fn pipe_run(s: PipeSession, events: Seq<PipeEvent>) -> PipeSession
    decreases events.len(),
{
    if events.len() == 0 {
        s
    } else {
        pipe_next(pipe_run(s, events.drop_last()), events.last())
    }
}

/// Whether the host leaves in a run of events.
pub open spec fn host_leaves(events: Seq<PipeEvent>) -> bool {
    exists|i: int| 0 <= i < events.len() && #[trigger] events[i] is HostGone
}

/// Whether the child's output ends in a run of events.
pub open spec fn stdout_ends(events: Seq<PipeEvent>) -> bool {
    exists|i: int|
        0 <= i < events.len() && (#[trigger] events[i] matches PipeEvent::Stdout(o) && is_end(o))
}

/// Whether the child's errors end in a run of events.
pub open spec fn stderr_ends(events: Seq<PipeEvent>) -> bool {
    exists|i: int|
        0 <= i < events.len() && (#[trigger] events[i] matches PipeEvent::Stderr(o) && is_end(o))
}

/// The state of a session on pipes says what has happened in it, and the
/// session is over exactly when the host has left or both streams have ended.
pub proof fn law_pipe_session_ends(stdin: bool, events: Seq<PipeEvent>)
    ensures
        ({
            let s = PipeSession {
                stdin_open: stdin,
                stdout_done: false,
                stderr_done: false,
                host_gone: false,
            };
            pipe_over(pipe_run(s, events)) <==> host_leaves(events) || (stdout_ends(events)
                && stderr_ends(events))
        }),
    decreases events.len(),
{
    let s = PipeSession {
        stdin_open: stdin,
        stdout_done: false,
        stderr_done: false,
        host_gone: false,
    };
    lemma_pipe_flags(s, events);
}

/// The flags of a running session record the ends that were seen; those of a
/// session that is over were all seen.
proof fn lemma_pipe_flags(s: PipeSession, events: Seq<PipeEvent>)
    requires
        !s.stdout_done && !s.stderr_done && !s.host_gone,
    ensures
        ({
            let t = pipe_run(s, events);
            &&& !pipe_over(t) ==> !host_leaves(events) && t.stdout_done == stdout_ends(events)
                && t.stderr_done == stderr_ends(events)
            &&& t.host_gone ==> host_leaves(events)
            &&& t.stdout_done ==> stdout_ends(events)
            &&& t.stderr_done ==> stderr_ends(events)
        }),
    decreases events.len(),
{
    if events.len() > 0 {
        let before = events.drop_last();
        let e = events.last();
        lemma_pipe_flags(s, before);
        assert forall|i: int| 0 <= i < before.len() implies #[trigger] before[i] == events[i] by {}
        assert(events[events.len() - 1] == e);
        assert(host_leaves(events) <==> host_leaves(before) || e is HostGone) by {
            if host_leaves(before) {
                let i = choose|i: int| 0 <= i < before.len() && #[trigger] before[i] is HostGone;
                assert(events[i] is HostGone);
            }
            if host_leaves(events) {
                let i = choose|i: int| 0 <= i < events.len() && #[trigger] events[i] is HostGone;
                if i < before.len() {
                    assert(before[i] is HostGone);
                }
            }
        }
        assert(stdout_ends(events) <==> stdout_ends(before) || (e matches PipeEvent::Stdout(o)
            && is_end(o))) by {
            if stdout_ends(before) {
                let i = choose|i: int|
                    0 <= i < before.len() && (#[trigger] before[i] matches PipeEvent::Stdout(o)
                        && is_end(o));
                assert(events[i] matches PipeEvent::Stdout(o) && is_end(o));
            }
            if stdout_ends(events) {
                let i = choose|i: int|
                    0 <= i < events.len() && (#[trigger] events[i] matches PipeEvent::Stdout(o)
                        && is_end(o));
                if i < before.len() {
                    assert(before[i] matches PipeEvent::Stdout(o) && is_end(o));
                }
            }
        }
        assert(stderr_ends(events) <==> stderr_ends(before) || (e matches PipeEvent::Stderr(o)
            && is_end(o))) by {
            if stderr_ends(before) {
                let i = choose|i: int|
                    0 <= i < before.len() && (#[trigger] before[i] matches PipeEvent::Stderr(o)
                        && is_end(o));
                assert(events[i] matches PipeEvent::Stderr(o) && is_end(o));
            }
            if stderr_ends(events) {
                let i = choose|i: int|
                    0 <= i < events.len() && (#[trigger] events[i] matches PipeEvent::Stderr(o)
                        && is_end(o));
                if i < before.len() {
                    assert(before[i] matches PipeEvent::Stderr(o) && is_end(o));
                }
            }
        }
    }
}

/// Once standard input is closed, nothing is ever written to it again.
pub proof fn law_closed_stdin_stays_closed(
    s: PipeSession,
    events: Seq<PipeEvent>,
    later: PipeEvent,
)
    requires
        !s.stdin_open,
    ensures
        !pipe_run(s, events).stdin_open,
        !(pipe_action(pipe_run(s, events), later) is WriteStdin),
    decreases events.len(),
{
    if events.len() > 0 {
        law_closed_stdin_stays_closed(s, events.drop_last(), later);
    }
}

/// A session that is over stays as it is and does nothing more.
pub proof fn law_ended_pipe_session_is_quiet(s: PipeSession, events: Seq<PipeEvent>, later: PipeEvent)
    requires
        pipe_over(s),
    ensures
        pipe_run(s, events) == s,
        pipe_action(pipe_run(s, events), later) == SessionAction::Nothing,
    decreases events.len(),
{
    if events.len() > 0 {
        law_ended_pipe_session_is_quiet(s, events.drop_last(), later);
    }
}

/// The host's leaving kills the whole job and ends the session, unless it was
/// over before.
pub proof fn law_host_leaving_kills_the_job(s: PipeSession)
    requires
        !pipe_over(s),
    ensures
        pipe_action(s, PipeEvent::HostGone) == SessionAction::KillJob(JobSignal::Kill),
        pipe_over(pipe_next(s, PipeEvent::HostGone)),
{
}

/// The bytes of the child's output that a run of events sends to the host.
pub open spec fn sent_stdout(s: PipeSession, events: Seq<PipeEvent>) -> Seq<u8>
    decreases events.len(),
{
    if events.len() == 0 {
        seq![]
    } else {
        let before = sent_stdout(s, events.drop_last());
        match pipe_action(pipe_run(s, events.drop_last()), events.last()) {
            SessionAction::SendStdout(d) => before + d@,
            _ => before,
        }
    }
}

/// The bytes of the child's output that a run of events delivers.
pub open spec fn read_stdout(events: Seq<PipeEvent>) -> Seq<u8>
    decreases events.len(),
{
    if events.len() == 0 {
        seq![]
    } else {
        let before = read_stdout(events.drop_last());
        match events.last() {
            PipeEvent::Stdout(ReadOutcome::Data(d)) => before + d@,
            _ => before,
        }
    }
}

/// While its output has not ended and its session is not over, all that the
/// child has written is sent to the host, unchanged and in order.
pub proof fn law_output_is_forwarded_whole(s: PipeSession, events: Seq<PipeEvent>)
    requires
        !pipe_over(pipe_run(s, events)),
        !pipe_run(s, events).stdout_done,
    ensures
        sent_stdout(s, events) == read_stdout(events),
    decreases events.len(),
{
    if events.len() > 0 {
        let t = pipe_run(s, events.drop_last());
        law_output_is_forwarded_whole(s, events.drop_last());
        match events.last() {
            PipeEvent::Stdout(ReadOutcome::Data(d)) => {
                assert(d@.len() > 0);
            },
            _ => {},
        }
    }
}

// ---------------------------------------------------------------------------
// A session on a pseudo-terminal
// ---------------------------------------------------------------------------

/// Something that happened in a session on a pseudo-terminal.
#[derive(Debug)]
pub enum PtyEvent {
    /// The host sent a message.
    Host(HostInput),
    /// The host is gone.
    HostGone,
    /// The terminal was read.
    Output(ReadOutcome),
}

/// State of a session on a pseudo-terminal.
#[derive(Debug, Clone, Copy, PartialEq, Eq, Structural)]
pub struct PtySession {
    /// Whether the session is over.
    pub done: bool,
}

/// Whether an event ends a session on a pseudo-terminal.
pub open spec fn pty_ends(e: PtyEvent) -> bool {
    match e {
        PtyEvent::HostGone => true,
        PtyEvent::Output(o) => is_end(o),
        PtyEvent::Host(_) => false,
    }
}

/// What to do on an event.
pub open spec fn pty_action(s: PtySession, e: PtyEvent) -> SessionAction {
    if s.done {
        SessionAction::Nothing
    } else {
        match e {
            PtyEvent::Host(HostInput::Stdin(d)) => SessionAction::WriteStdin(d),
            PtyEvent::Host(HostInput::Signal(n)) => SessionAction::KillJob(JobSignal::Host(n)),
            PtyEvent::Host(HostInput::ResizeTty(size)) => SessionAction::Resize(size),
            PtyEvent::Host(_) => SessionAction::Nothing,
            PtyEvent::HostGone => SessionAction::KillJob(JobSignal::Kill),
            PtyEvent::Output(ReadOutcome::Data(d)) => if d@.len() > 0 {
                SessionAction::SendStdout(d)
            } else {
                SessionAction::Nothing
            },
            PtyEvent::Output(ReadOutcome::Failed) => SessionAction::Nothing,
        }
    }
}

/// A new size that the host sends is the size that the terminal is given.
pub proof fn law_terminal_gets_the_size_sent(s: PtySession, size: TtyConfig)
    requires
        !s.done,
    ensures
        pty_action(s, PtyEvent::Host(HostInput::ResizeTty(size))) == SessionAction::Resize(size),
        !pty_ends(PtyEvent::Host(HostInput::ResizeTty(size))),
{
}

impl PtySession {
    /// A session that has just begun.
    pub fn new() -> (s: Self)
        ensures
            s == (PtySession { done: false }),
    {
        PtySession { done: false }
    }

    /// Takes in an event and says what to do.
    pub fn step(&mut self, event: PtyEvent) -> (a: SessionAction)
        ensures
            final(self).done == (old(self).done || pty_ends(event)),
            a == pty_action(*old(self), event),
    {
        if self.done {
            return SessionAction::Nothing;
        }
        match event {
            PtyEvent::Host(HostInput::Stdin(d)) => SessionAction::WriteStdin(d),
            PtyEvent::Host(HostInput::Signal(n)) => SessionAction::KillJob(JobSignal::Host(n)),
            PtyEvent::Host(HostInput::ResizeTty(size)) => SessionAction::Resize(size),
            PtyEvent::Host(_) => SessionAction::Nothing,
            PtyEvent::HostGone => {
                self.done = true;
                SessionAction::KillJob(JobSignal::Kill)
            },
            PtyEvent::Output(ReadOutcome::Data(d)) => {
                if d.len() == 0 {
                    self.done = true;
                    SessionAction::Nothing
                } else {
                    SessionAction::SendStdout(d)
                }
            },
            PtyEvent::Output(ReadOutcome::Failed) => {
                self.done = true;
                SessionAction::Nothing
            },
        }
    }
}

/// An execution is named by its number, which is read back from its name.
pub proof fn law_exec_id_tells_its_number(n: u64)
    ensures
        exec_id_text(n).take(5) == "exec-"@,
        text::value(exec_id_text(n).skip(5)) == n,
{
    reveal_strlit("exec-");
    text::lemma_dec_value(n as nat);
    assert(exec_id_text(n).take(5) =~= "exec-"@);
    assert(exec_id_text(n).skip(5) =~= text::dec(n as nat));
}

} // verus!
