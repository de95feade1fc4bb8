use bux::container::{Primary, PrimaryContainer};
use bux::error::{IoError, IoKind};
use bux::exec::{
    at_time_limit, close_session, enter, exec_id, exec_options, handle, kill_job, leads_group,
    plan_exec, plan_pipe, resolve_credentials, send_exit, spawn_timeout_killer, started,
    time_limit_report, ClosingStep, CredentialStep, ErrorCode, ExecMode, ExecStart, Exit, HelloAck, HostInput,
    JobSignal, LimitStep, PipeEvent, PipeSession, PtyEvent, PtySession, ReadOutcome, SessionAction,
    TtyConfig,
};

fn request() -> ExecStart {
    ExecStart {
        cmd: "sh".to_string(),
        args: vec!["-c".to_string(), "sleep 8 &".to_string()],
        env: vec![],
        cwd: None,
        uid: None,
        gid: None,
        user: None,
        stdin: false,
        tty: None,
        timeout_ms: 0,
        in_container: None,
    }
}

fn no_file() -> Result<String, IoError> {
    Err(IoError::new(IoKind::NotFound, "gone"))
}

#[test]
fn production_pipe_uses_process_group_and_kill_job() {
    // A command on pipes leads a process group of its own.
    let plan = plan_pipe(&request(), &no_file(), &no_file()).ok().unwrap();
    assert!(plan.own_group, "pipe process group");

    // Credentials are kept, the group before the user.
    let mut with_user = request();
    with_user.uid = Some(1000);
    with_user.gid = Some(100);
    let plan = plan_pipe(&with_user, &no_file(), &no_file()).ok().unwrap();
    assert_eq!(
        plan.options.credentials,
        vec![CredentialStep::SetGid(100), CredentialStep::SetUid(1000)]
    );

    // Signal and disconnect both reach the whole job.
    let mut pipe = PipeSession::new(false);
    let signalled = pipe.step(PipeEvent::Host(HostInput::Signal(15)));
    assert!(matches!(
        signalled,
        SessionAction::KillJob(JobSignal::Host(15))
    ));
    assert!(!pipe.over());
    let left = pipe.step(PipeEvent::HostGone);
    assert!(matches!(left, SessionAction::KillJob(JobSignal::Kill)));
    assert!(pipe.over());

    // So they do on a pseudo-terminal, where there is no process group.
    let mut pty = PtySession::new();
    assert!(matches!(
        pty.step(PtyEvent::Host(HostInput::Signal(2))),
        SessionAction::KillJob(JobSignal::Host(2))
    ));
    assert!(matches!(
        pty.step(PtyEvent::HostGone),
        SessionAction::KillJob(JobSignal::Kill)
    ));
    assert!(pty.done);
    assert!(!leads_group(ExecMode::Pty), "pty must not process_group");

    // A job is its group and its leader, never a bare process.
    assert_eq!(kill_job(4242), vec![-4242, 4242]);

    // The kill at the time limit is called off before the child is waited for.
    assert_eq!(spawn_timeout_killer(50), Some(50));
    assert_eq!(
        close_session(50, true),
        vec![
            ClosingStep::AbortKiller,
            ClosingStep::CloseStdin,
            ClosingStep::ReportExit
        ]
    );
}

#[test]
fn production_pty_does_not_process_group() {
    let mut req = request();
    req.tty = Some(TtyConfig { rows: 24, cols: 80 });
    assert_eq!(handle(&req), ExecMode::Pty);
    assert!(!leads_group(handle(&req)));
    req.tty = None;
    assert_eq!(handle(&req), ExecMode::Pipe);
    assert!(leads_group(handle(&req)));
}

#[test]
fn kill_job_spares_everything_else() {
    assert!(kill_job(1).is_empty());
    assert!(kill_job(0).is_empty());
    assert!(kill_job(-5).is_empty());
    assert_eq!(kill_job(2), vec![-2, 2]);
    assert_eq!(kill_job(i32::MAX), vec![-i32::MAX, i32::MAX]);
}

#[test]
fn ids_stand_in_for_each_other() {
    let mut req = request();
    assert_eq!(resolve_credentials(&req, &no_file(), &no_file()).unwrap(), None);
    req.uid = Some(7);
    assert_eq!(
        resolve_credentials(&req, &no_file(), &no_file()).unwrap(),
        Some((7, 7))
    );
    req.uid = None;
    req.gid = Some(9);
    assert_eq!(
        resolve_credentials(&req, &no_file(), &no_file()).unwrap(),
        Some((9, 9))
    );
    req.uid = Some(7);
    req.user = Some("nobody".to_string());
    assert_eq!(
        resolve_credentials(&req, &no_file(), &no_file()).unwrap(),
        Some((7, 9))
    );
}

#[test]
fn unresolved_user_refuses_the_command() {
    let mut req = request();
    req.user = Some("ghost".to_string());
    let passwd: Result<String, IoError> = Ok("root:x:0:0::/:/bin/sh\n".to_string());
    let ack = plan_pipe(&req, &passwd, &no_file()).err().unwrap();
    assert!(matches!(ack, HelloAck::Error { code: ErrorCode::Internal, message: m } if m == "unknown user \"ghost\""));
}

#[test]
fn options_pass_over_entries_without_equals() {
    let mut req = request();
    req.env = vec![
        "A=1".to_string(),
        "junk".to_string(),
        "B=x=y".to_string(),
        "=v".to_string(),
    ];
    req.cwd = Some("/work".to_string());
    let o = exec_options(&req, None);
    assert_eq!(
        o.env,
        vec![
            ("A".to_string(), "1".to_string()),
            ("B".to_string(), "x=y".to_string()),
            ("".to_string(), "v".to_string())
        ]
    );
    assert_eq!(o.cwd.as_deref(), Some("/work"));
    assert!(o.credentials.is_empty());
}

#[test]
fn first_message_says_whether_it_started() {
    assert!(matches!(
        started("exec-1".into(), Ok(5)),
        HelloAck::ExecStarted { exec_id, pid: 5 } if exec_id == "exec-1"
    ));
    assert!(matches!(
        started("exec-1".into(), Err("no sh".into())),
        HelloAck::Error { code: ErrorCode::Internal, message: m } if m == "no sh"
    ));
}

#[test]
fn execution_names() {
    assert_eq!(exec_id(1), "exec-1");
    assert_eq!(exec_id(u64::MAX), "exec-18446744073709551615");
    assert_ne!(exec_id(10), exec_id(1));
}

#[test]
fn exit_is_reported_whole() {
    let r = send_exit(Some(Exit { code: 3, signal: Some(9) }), 1234, true).unwrap();
    assert_eq!((r.code, r.signal, r.timed_out, r.duration_ms), (3, Some(9), true, 1234));
    assert_eq!(r.error_message, None);
    let r = send_exit(Some(Exit { code: 0, signal: None }), (1u128 << 64) + 5, false).unwrap();
    assert_eq!(r.duration_ms, 5);
    let e = send_exit(None, 0, false).unwrap_err();
    assert_eq!(e.kind, IoKind::Other);
    assert_eq!(e.message, "reaper waiter dropped");
}

#[test]
fn no_time_limit_no_killer() {
    assert_eq!(spawn_timeout_killer(0), None);
    assert_eq!(close_session(0, false), vec![ClosingStep::ReportExit]);
}

#[test]
fn pipe_session_ends_with_both_streams() {
    let mut s = PipeSession::new(true);
    assert!(matches!(
        s.step(PipeEvent::Stdout(ReadOutcome::Data(vec![1, 2]))),
        SessionAction::SendStdout(d) if d == vec![1, 2]
    ));
    assert!(matches!(
        s.step(PipeEvent::Stderr(ReadOutcome::Data(vec![3]))),
        SessionAction::SendStderr(d) if d == vec![3]
    ));
    assert!(matches!(
        s.step(PipeEvent::Stdout(ReadOutcome::Data(vec![]))),
        SessionAction::Nothing
    ));
    assert!(!s.over());
    assert!(matches!(
        s.step(PipeEvent::Stderr(ReadOutcome::Failed)),
        SessionAction::Nothing
    ));
    assert!(s.over());
}

#[test]
fn closed_stdin_takes_nothing() {
    let mut s = PipeSession::new(true);
    assert!(matches!(
        s.step(PipeEvent::Host(HostInput::Stdin(vec![7]))),
        SessionAction::WriteStdin(d) if d == vec![7]
    ));
    assert!(matches!(
        s.step(PipeEvent::Host(HostInput::StdinClose)),
        SessionAction::CloseStdin
    ));
    assert!(matches!(
        s.step(PipeEvent::Host(HostInput::Stdin(vec![8]))),
        SessionAction::Nothing
    ));
    let mut without = PipeSession::new(false);
    assert!(matches!(
        without.step(PipeEvent::Host(HostInput::Stdin(vec![8]))),
        SessionAction::Nothing
    ));
    assert!(matches!(
        without.step(PipeEvent::Host(HostInput::ResizeTty(TtyConfig { rows: 1, cols: 2 }))),
        SessionAction::Nothing
    ));
}

#[test]
fn pty_session_merges_streams() {
    let mut s = PtySession::new();
    assert!(matches!(
        s.step(PtyEvent::Host(HostInput::Stdin(vec![1]))),
        SessionAction::WriteStdin(_)
    ));
    assert!(matches!(
        s.step(PtyEvent::Host(HostInput::ResizeTty(TtyConfig { rows: 50, cols: 132 }))),
        SessionAction::Resize(TtyConfig { rows: 50, cols: 132 })
    ));
    assert!(matches!(
        s.step(PtyEvent::Output(ReadOutcome::Data(vec![5]))),
        SessionAction::SendStdout(d) if d == vec![5]
    ));
    assert!(!s.done);
    assert!(matches!(
        s.step(PtyEvent::Output(ReadOutcome::Data(vec![]))),
        SessionAction::Nothing
    ));
    assert!(s.done);
}

#[test]
fn time_limit_is_noted_before_the_kill() {
    assert_eq!(
        at_time_limit(),
        vec![
            LimitStep::MarkTimedOut,
            LimitStep::Report,
            LimitStep::KillJob(JobSignal::Kill)
        ]
    );
    assert_eq!(time_limit_report(42), "[bux-guest] exec timeout killpg pid=42");
}

#[test]
fn exec_enters_the_ready_container() {
    let mut primary = Primary::new();
    let plan = plan_exec(&primary, request(), &no_file(), &no_file()).ok().unwrap();
    assert_eq!(plan.program, "sh");
    assert_eq!(plan.args, vec!["-c", "sleep 8 &"]);

    let mut inside = request();
    inside.in_container = Some(true);
    match enter(&primary, inside) {
        Err(HelloAck::Error { code: ErrorCode::Internal, message: m }) => assert_eq!(
            m,
            "in_container=true requested but Phase B primary container is not available"
        ),
        _ => panic!("not refused"),
    }

    primary.started(Ok(PrimaryContainer {
        init_pid: 7,
        state_root: "/s".into(),
        bundle_path: "/b".into(),
    }));
    let mut req = request();
    req.cwd = Some("/w".into());
    req.uid = Some(5);
    let plan = plan_exec(&primary, req, &no_file(), &no_file()).ok().unwrap();
    assert_eq!(plan.program, "nsenter");
    assert_eq!(
        plan.args,
        vec!["-t", "7", "-m", "-u", "-i", "-p", "--", "sh", "-c", "sleep 8 &"]
    );
    assert_eq!(plan.options.cwd.as_deref(), Some("/w"));
    assert_eq!(
        plan.options.credentials,
        vec![CredentialStep::SetGid(5), CredentialStep::SetUid(5)]
    );

    let mut outside = request();
    outside.in_container = Some(false);
    assert_eq!(enter(&primary, outside).ok().unwrap().cmd, "sh");

    let mut unknown = request();
    unknown.user = Some("nobody-here".into());
    assert!(matches!(
        plan_exec(&primary, unknown, &no_file(), &no_file()),
        Err(HelloAck::Error { code: ErrorCode::Internal, message: m }) if m == "gone"
    ));
}
