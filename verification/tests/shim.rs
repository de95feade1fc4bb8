use bux::boot::{boot, finish_start, prepare, start, BootAction, BootEvent, BootResult, PreparedVm};
use bux::crash::{
    handle_crash_signal, install_crash_capture, panic_info, write_exit_error, CrashSignals,
    PanicPlace,
};
use bux::error::{Error, IoError, IoKind, UnexpectedEvent};
use bux::exit_info::{ExitInfo, PANIC_EXIT_CODE, SIGNAL_EXIT_BASE};
use bux::ext2::{Error as Ext2Error, Ext2Code};
use bux::jail::{
    dylib_aliases, ensure_shim_dylib_aliases, find_shim, map_jail_error, shim_candidates,
    signed_pid, spawn_shim, AliasEvent, AliasStep, JailError, ShimStep,
};
use bux::security::SandboxKind;
use bux::shim::{
    apply_all, KrunCall, ShimConfig, ShimDiskFormat, ShimError, ShimNetConn, ShimNetwork,
    ShimVirtioFs, ShimVsockPort,
};
use bux::watchdog::{
    start_watchdog_thread, wait_for_parent_death, PollOutcome, WatchdogStart, ENV_WATCHDOG_FD,
};

fn config() -> ShimConfig {
    ShimConfig {
        vm_id: "vm".into(),
        vcpus: 2,
        ram_mib: 256,
        rootfs: Some("/root".into()),
        root_disk: None,
        disk_format: ShimDiskFormat::Raw,
        virtiofs: vec![],
        ports: vec![],
        vsock_ports: vec![],
        network: None,
        log_level: None,
        exec_path: None,
        exec_args: vec![],
        env: None,
        workdir: None,
        uid: None,
        gid: None,
        rlimits: vec![],
        nested_virt: None,
        snd_device: None,
        console_output: None,
    }
}

#[test]
fn smallest_configuration() {
    let plan = apply_all(&config());
    assert_eq!(plan.reject, None);
    assert_eq!(plan.calls.len(), 2);
    assert!(matches!(
        plan.calls[0],
        KrunCall::SetVmConfig { vcpus: 2, ram_mib: 256 }
    ));
    assert!(matches!(&plan.calls[1], KrunCall::SetRoot(p) if p == "/root"));
}

#[test]
fn everything_is_applied_in_order() {
    let mut c = config();
    c.rootfs = None;
    c.root_disk = Some("/d.qcow2".into());
    c.disk_format = ShimDiskFormat::Qcow2;
    c.log_level = Some(3);
    c.virtiofs = vec![ShimVirtioFs { tag: "t".into(), path: "/p".into() }];
    c.ports = vec!["1:2".into()];
    c.network = Some(ShimNetwork {
        socket_path: "/n".into(),
        connection: ShimNetConn::UnixDgram,
        mac: [0, 1, 2, 3, 4, 5],
    });
    c.workdir = Some("/w".into());
    c.exec_path = Some("/x".into());
    c.exec_args = vec!["a".into()];
    c.env = Some(vec!["E=1".into()]);
    c.uid = Some(1);
    c.gid = Some(2);
    c.rlimits = vec!["6=1:2".into()];
    c.nested_virt = Some(true);
    c.snd_device = Some(false);
    c.console_output = Some("/log".into());
    c.vsock_ports = vec![ShimVsockPort { port: 5, path: "/v".into(), listen: false }];
    let plan = apply_all(&c);
    assert_eq!(plan.reject, None);
    let calls = plan.calls;
    assert_eq!(calls.len(), 15);
    assert!(matches!(calls[0], KrunCall::SetLogLevel(3)));
    assert!(matches!(calls[1], KrunCall::SetVmConfig { .. }));
    assert!(matches!(
        &calls[2],
        KrunCall::AddDisk { block_id, path, format: ShimDiskFormat::Qcow2, read_only: false }
            if block_id == "rootfs" && path == "/d.qcow2"
    ));
    assert!(matches!(
        &calls[3],
        KrunCall::SetRootDiskRemount { device, fstype: Some(f), options: None }
            if device == "/dev/vda" && f == "ext4"
    ));
    assert!(matches!(&calls[4], KrunCall::AddVirtioFs { tag, .. } if tag == "t"));
    assert!(matches!(&calls[5], KrunCall::AddNetUnixGram { path, .. } if path == "/n"));
    assert!(matches!(&calls[6], KrunCall::SetWorkdir(w) if w == "/w"));
    assert!(matches!(
        &calls[7],
        KrunCall::SetExec { path, args, env: Some(e) }
            if path == "/x" && args.len() == 1 && e[0] == "E=1"
    ));
    assert!(matches!(calls[8], KrunCall::SetUid(1)));
    assert!(matches!(calls[9], KrunCall::SetGid(2)));
    assert!(matches!(&calls[10], KrunCall::SetRlimits(r) if r.len() == 1));
    assert!(matches!(calls[11], KrunCall::SetNestedVirt(true)));
    assert!(matches!(calls[12], KrunCall::SetSndDevice(false)));
    assert!(matches!(&calls[13], KrunCall::SetConsoleOutput(p) if p == "/log"));
    assert!(matches!(
        &calls[14],
        KrunCall::AddVsockPort { port: 5, listen: false, .. }
    ));
}

#[test]
fn ports_are_mapped_without_a_network_only() {
    let mut c = config();
    c.ports = vec!["1:2".into()];
    assert!(apply_all(&c)
        .calls
        .iter()
        .any(|k| matches!(k, KrunCall::SetPortMap(p) if p[0] == "1:2")));
    c.network = Some(ShimNetwork {
        socket_path: "/n".into(),
        connection: ShimNetConn::UnixStream,
        mac: [0; 6],
    });
    let calls = apply_all(&c).calls;
    assert!(!calls.iter().any(|k| matches!(k, KrunCall::SetPortMap(_))));
    assert!(calls.iter().any(|k| matches!(k, KrunCall::AddNetUnixStream { .. })));
}

#[test]
fn environment_without_a_program() {
    let mut c = config();
    c.env = Some(vec!["A=1".into()]);
    let calls = apply_all(&c).calls;
    assert!(matches!(&calls[2], KrunCall::SetEnv(e) if e[0] == "A=1"));
}

#[test]
fn one_root_filesystem_is_needed() {
    let mut c = config();
    c.root_disk = Some("/d".into());
    let plan = apply_all(&c);
    assert_eq!(
        plan.reject.as_deref(),
        Some("ShimConfig: rootfs and root_disk are mutually exclusive")
    );
    assert_eq!(plan.calls.len(), 1);
    c.rootfs = None;
    c.root_disk = None;
    assert_eq!(
        apply_all(&c).reject.as_deref(),
        Some("ShimConfig: need rootfs or root_disk")
    );
}

#[test]
fn boot_runs_to_the_end() {
    let mut b = boot(&config());
    assert!(matches!(
        b.step(BootEvent::Created(Ok(7))),
        Ok(BootAction::Call { ctx: 7, .. })
    ));
    assert!(matches!(
        b.step(BootEvent::Done(Ok(()))),
        Ok(BootAction::Call { ctx: 7, call: KrunCall::SetRoot(_) })
    ));
    assert!(matches!(
        b.step(BootEvent::Done(Ok(()))),
        Ok(BootAction::StartEnter(7))
    ));
    assert!(matches!(
        b.step(BootEvent::Done(Ok(()))),
        Ok(BootAction::Finished)
    ));
    assert!(matches!(b.result(), BootResult::Entered));
}

#[test]
fn prepared_machine_is_handed_out() {
    let mut b = prepare(&config());
    b.step(BootEvent::Created(Ok(3))).unwrap();
    b.step(BootEvent::Done(Ok(()))).unwrap();
    assert!(matches!(
        b.step(BootEvent::Done(Ok(()))),
        Ok(BootAction::Finished)
    ));
    match b.result() {
        BootResult::Prepared(vm) => assert_eq!(vm.ctx(), Some(3)),
        _ => panic!("not prepared"),
    }
}

#[test]
fn failed_boot_frees_its_context() {
    let mut b = boot(&config());
    b.step(BootEvent::Created(Ok(9))).unwrap();
    assert!(matches!(
        b.step(BootEvent::Done(Err("no".into()))),
        Ok(BootAction::FreeCtx(9))
    ));
    assert!(matches!(
        b.step(BootEvent::Done(Err("free".into()))),
        Ok(BootAction::Finished)
    ));
    assert!(matches!(
        b.result(),
        BootResult::Failed(ShimError::Krun(m)) if m == "no"
    ));

    let mut c = config();
    c.rootfs = None;
    let mut b = boot(&c);
    b.step(BootEvent::Created(Ok(1))).unwrap();
    assert!(matches!(
        b.step(BootEvent::Done(Ok(()))),
        Ok(BootAction::FreeCtx(1))
    ));
    b.step(BootEvent::Done(Ok(()))).unwrap();
    assert!(matches!(
        b.result(),
        BootResult::Failed(ShimError::InvalidConfig(_))
    ));
}

#[test]
fn boot_without_a_context_fails() {
    let mut b = boot(&config());
    assert!(matches!(
        b.step(BootEvent::Done(Ok(()))),
        Err(UnexpectedEvent)
    ));
    assert!(matches!(
        b.step(BootEvent::Created(Err("none".into()))),
        Ok(BootAction::Finished)
    ));
    assert!(matches!(
        b.result(),
        BootResult::Failed(ShimError::Krun(m)) if m == "none"
    ));
    assert!(matches!(boot(&config()).result(), BootResult::Pending));
}

#[test]
fn context_is_handed_out_once() {
    assert_eq!(PreparedVm::new(4).into_ctx().unwrap(), 4);
    assert_eq!(PreparedVm::new(4).start().unwrap(), 4);
    assert_eq!(PreparedVm::new(4).release(), Some(4));
    let ok = finish_start(4, Ok(()));
    assert!(ok.free.is_none() && ok.result.is_ok());
    assert!(start(Ok(())).is_ok());
    assert!(matches!(start(Err("y".into())), Err(ShimError::Krun(m)) if m == "y"));
    let failed = finish_start(4, Err("x".into()));
    assert_eq!(failed.free, Some(4));
    assert!(matches!(failed.result, Err(ShimError::Krun(m)) if m == "x"));
}

fn signals() -> CrashSignals {
    CrashSignals { abort: 6, segv: 11, bus: 7, ill: 4 }
}

#[test]
fn fatal_signals_are_named() {
    for (n, name) in [(6, "SIGABRT"), (11, "SIGSEGV"), (7, "SIGBUS"), (4, "SIGILL"), (9, "UNKNOWN")] {
        let info = handle_crash_signal(signals(), n);
        assert_eq!(info.exit_code(), SIGNAL_EXIT_BASE + n);
        assert_eq!(info.summary(), format!("killed by {name}"));
    }
    assert_eq!(install_crash_capture(signals()), vec![6, 11, 7, 4]);
}

#[test]
fn panics_are_placed() {
    let info = panic_info(
        Some("boom".into()),
        Some(PanicPlace { file: "a.rs".into(), line: 3, column: 14 }),
    );
    assert_eq!(info.exit_code(), PANIC_EXIT_CODE);
    assert_eq!(info.summary(), "panic at a.rs:3:14: boom");
    let info = panic_info(None, None);
    assert_eq!(info.summary(), "panic at unknown: unknown panic");
}

#[test]
fn boot_errors_are_recorded() {
    let n = write_exit_error("bad config");
    assert_eq!(n.line, "[bux-shim] bad config");
    assert_eq!(n.info.exit_code(), 1);
    assert_eq!(n.info.summary(), "bad config");
    assert!(matches!(n.info, ExitInfo::Error { .. }));
}

#[test]
fn watchdog_decisions() {
    assert_eq!(ENV_WATCHDOG_FD, "BUX_WATCHDOG_FD");
    assert!(matches!(start_watchdog_thread(None), WatchdogStart::Absent));
    assert!(matches!(
        start_watchdog_thread(Some("12".into())),
        WatchdogStart::Watch(12)
    ));
    assert!(matches!(
        start_watchdog_thread(Some("x".into())),
        WatchdogStart::Malformed(l) if l == "[bux-shim] invalid BUX_WATCHDOG_FD: x"
    ));
    assert!(wait_for_parent_death(PollOutcome::Ready { hangup: true }));
    assert!(!wait_for_parent_death(PollOutcome::Ready { hangup: false }));
    assert!(!wait_for_parent_death(PollOutcome::Idle));
    assert!(!wait_for_parent_death(PollOutcome::Interrupted));
    assert!(wait_for_parent_death(PollOutcome::Failed));
}

#[test]
fn ext2_codes_are_classified() {
    assert_eq!(Ext2Code::from_raw(2), Ext2Code::Errno(2));
    assert_eq!(Ext2Code::from_raw(Ext2Code::BASE + 39), Ext2Code::NoInodeBitmap);
    assert_eq!(Ext2Code::from_raw(Ext2Code::BASE + 40), Ext2Code::NoBlockBitmap);
    assert_eq!(Ext2Code::from_raw(Ext2Code::BASE + 44), Ext2Code::TooSmall);
    assert_eq!(Ext2Code::from_raw(Ext2Code::BASE + 79), Ext2Code::DirExists);
    assert_eq!(Ext2Code::from_raw(Ext2Code::BASE + 155), Ext2Code::FileExists);
    assert_eq!(Ext2Code::from_raw(-5), Ext2Code::Other(-5));
    for code in [0, 1, -1, 17, Ext2Code::BASE, Ext2Code::BASE + 79, i64::MAX, i64::MIN] {
        assert_eq!(Ext2Code::from_raw(code).raw(), code);
    }
}

#[test]
fn ext2_codes_are_described() {
    assert_eq!(Ext2Code::DirExists.message(), "directory entry already exists");
    assert_eq!(Ext2Code::FileExists.message(), "file already exists");
    assert_eq!(
        Ext2Code::from_raw(Ext2Code::BASE + 76).message(),
        "file not found"
    );
    let errno = Ext2Code::Errno(2).message();
    assert_eq!(
        errno,
        format!("{} (errno 2)", std::io::Error::from_raw_os_error(2))
    );
    assert_eq!(Ext2Code::Errno(5).message_with("bad"), "bad (errno 5)");
    let e = Ext2Error::Ext2fs { op: "ext2fs_open".into(), code: Ext2Code::TooSmall };
    assert_eq!(
        e.message(),
        "ext2fs_open: filesystem too small for the requested operation"
    );
    let e = Ext2Error::Ext2fs { op: "ext2fs_open".into(), code: Ext2Code::Errno(13) };
    assert_eq!(
        e.message(),
        format!("ext2fs_open: {} (errno 13)", std::io::Error::from_raw_os_error(13))
    );
    assert_eq!(Ext2Error::InvalidPath("p".into()).message(), "invalid path: p");
    let io = Ext2Error::Io(IoError::new(IoKind::NotFound, "nope"));
    assert_eq!(io.message(), "nope");
}

#[test]
fn sandbox_names() {
    assert_eq!(SandboxKind::Bwrap.as_str(), "bwrap");
    assert_eq!(SandboxKind::Seatbelt.as_str(), "seatbelt");
    assert_eq!(SandboxKind::Noop.as_str(), "noop");
}

#[test]
fn shim_is_looked_for_in_order() {
    let c = shim_candidates(
        Some("/over".into()),
        Some("/bin/next/bux-shim".into()),
        &vec!["/usr/bin".into(), "/opt/".into()],
    );
    assert_eq!(
        c,
        vec!["/over", "/bin/next/bux-shim", "/usr/bin/bux-shim", "/opt/bux-shim"]
    );
    assert_eq!(find_shim(&c, &vec![false, false, true, true]).unwrap(), "/usr/bin/bux-shim");
    let e = find_shim(&c, &vec![false; 4]).unwrap_err();
    assert_eq!(e.kind, IoKind::NotFound);
    assert_eq!(
        e.message,
        "'bux-shim' not found; install it next to the bux binary or in $PATH"
    );
    assert!(shim_candidates(None, None, &vec![]).is_empty());
}

#[test]
fn library_aliases() {
    let a = dylib_aliases();
    assert_eq!((a[0].source, a[0].alias), ("libkrun.dylib", "libkrun.1.dylib"));
    assert_eq!((a[1].source, a[1].alias), ("libkrunfw.dylib", "libkrunfw.5.dylib"));
    assert_eq!(
        ensure_shim_dylib_aliases(AliasEvent::Found { alias: false, source: true }),
        AliasStep::Link
    );
    assert_eq!(
        ensure_shim_dylib_aliases(AliasEvent::Found { alias: true, source: true }),
        AliasStep::Skip
    );
    assert_eq!(
        ensure_shim_dylib_aliases(AliasEvent::Found { alias: false, source: false }),
        AliasStep::Skip
    );
    assert_eq!(ensure_shim_dylib_aliases(AliasEvent::Linked), AliasStep::Skip);
    assert_eq!(ensure_shim_dylib_aliases(AliasEvent::LinkExists), AliasStep::Skip);
    assert_eq!(ensure_shim_dylib_aliases(AliasEvent::LinkFailed), AliasStep::Copy);
}

#[test]
fn jail_failures_keep_their_meaning() {
    assert!(matches!(
        map_jail_error(JailError::LandlockUnavailable, "/s"),
        Error::SecurityUnavailable(m) if m.starts_with("landlock required but unavailable")
    ));
    assert!(matches!(
        map_jail_error(JailError::Landlock("r".into()), "/s"),
        Error::SecurityUnavailable(m) if m == "landlock ruleset failed: r"
    ));
    let io = IoError::new(IoKind::PermissionDenied, "denied");
    assert!(matches!(
        map_jail_error(JailError::Io(io), "/s"),
        Error::Io(e) if e.kind == IoKind::PermissionDenied && e.message == "failed to spawn /s: denied"
    ));
    assert!(matches!(
        map_jail_error(JailError::Other("o".into()), "/s"),
        Error::Jail(m) if m == "o"
    ));
}

#[test]
fn shim_is_spawned_step_by_step() {
    let mut step = ShimStep::Encode;
    let mut seen = vec![step];
    while step != ShimStep::Spawned {
        step = spawn_shim(step, true, true);
        seen.push(step);
    }
    assert_eq!(
        seen,
        vec![
            ShimStep::Encode,
            ShimStep::WriteConfig,
            ShimStep::CaptureStderr,
            ShimStep::MakeWatchdog,
            ShimStep::FindShim,
            ShimStep::Jail,
            ShimStep::Spawned
        ]
    );
    assert_eq!(spawn_shim(ShimStep::CaptureStderr, true, false), ShimStep::FindShim);
    assert_eq!(spawn_shim(ShimStep::Jail, false, false), ShimStep::RemoveConfig);
    assert_eq!(spawn_shim(ShimStep::RemoveConfig, true, false), ShimStep::Failed);
    assert_eq!(spawn_shim(ShimStep::FindShim, false, false), ShimStep::Failed);
    assert_eq!(signed_pid(5), 5);
    assert_eq!(signed_pid(u32::MAX), -1);
}

#[test]
fn serde_signal() {
    let info = ExitInfo::Signal { exit_code: 134, signal: "SIGABRT".into() };
    assert_eq!(info.exit_code(), 134);
    assert!(info.summary().contains("SIGABRT"));
}
