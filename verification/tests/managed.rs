use bux::error::{Error, UnexpectedEvent};
use bux::exit_info::ExitInfo;
use bux::security::SecurityOptions;
use bux::shim::{ShimDiskFormat, ShimNetConn, ShimNetwork};
use bux::shim_convert::to_shim_config;
use bux::spawn::{
    clean_vm_files, guest_boot_config, inject_guest_boot_env, prepare_managed_config,
    route_workload_identity, settle_managed_config, shim_death_message, wait_for_exit,
    GuestNetworkMode, VmFile, WaitOutcome, WaitStep,
};
use bux::starting::{Spawn, SpawnAction, SpawnEvent, SpawnRequest};
use bux::state::{
    DiskFormat, PublishedPort, Status, VirtioFs, VmConfig, VsockPort, GUEST_BOOT_CONFIG_ENV,
};

fn empty_config() -> VmConfig {
    VmConfig {
        vcpus: 1,
        ram_mib: 512,
        rootfs: None,
        root_disk: None,
        disk_format: DiskFormat::Raw,
        base_disk: None,
        exec_path: None,
        exec_args: vec![],
        env: None,
        workdir: None,
        ports: vec![],
        allow_net: vec![],
        published_ports: vec![],
        virtiofs: vec![],
        vsock_ports: vec![],
        log_level: None,
        uid: None,
        gid: None,
        rlimits: vec![],
        nested_virt: None,
        snd_device: None,
        console_output: None,
        virtio_net: true,
        secrets_required: false,
        workload_env: vec![],
        workload_workdir: None,
        workload_user: None,
        security: SecurityOptions { jailer: true, landlock: true, allow_degraded: false },
        security_status: None,
        auto_remove: false,
        auto_stop_secs: None,
        auto_delete_secs: None,
        last_activity_at: None,
        last_error: None,
    }
}

#[test]
fn route_migrates_env_workdir_user() {
    let mut c = empty_config();
    c.env = Some(vec!["FOO=bar".into(), "BAZ=1".into()]);
    c.workdir = Some("/app".into());
    c.uid = Some(1000);
    c.gid = Some(1000);

    route_workload_identity(&mut c);

    assert_eq!(c.workload_env, vec!["FOO=bar", "BAZ=1"]);
    assert_eq!(c.workload_workdir.as_deref(), Some("/app"));
    assert_eq!(c.workload_user.as_deref(), Some("1000:1000"));
    assert!(c.env.is_none());
    assert!(c.workdir.is_none());
}

#[test]
fn route_skips_guest_boot_config_env() {
    let mut c = empty_config();
    c.env = Some(vec![format!("{GUEST_BOOT_CONFIG_ENV}={{\"vm_id\":\"x\"}}")]);
    c.workload_env = vec!["KEEP=1".into()];

    route_workload_identity(&mut c);

    assert_eq!(c.workload_env, vec!["KEEP=1"]);
    assert!(c.env.is_none());
}

#[test]
fn route_preserves_existing_workload() {
    let mut c = empty_config();
    c.env = Some(vec!["NEW=1".into()]);
    c.workdir = Some("/new".into());
    c.uid = Some(1);
    c.workload_env = vec!["OLD=1".into()];
    c.workload_workdir = Some("/old".into());
    c.workload_user = Some("root".into());

    route_workload_identity(&mut c);

    assert_eq!(c.workload_env, vec!["OLD=1"]);
    assert_eq!(c.workload_workdir.as_deref(), Some("/old"));
    assert_eq!(c.workload_user.as_deref(), Some("root"));
}

#[test]
fn boot_settings_never_become_workload() {
    let mut c = empty_config();
    c.env = Some(vec![
        format!("{GUEST_BOOT_CONFIG_ENV}={{}}"),
        "BUX_GUEST_CONFIGX=kept".into(),
        "A=1".into(),
    ]);
    route_workload_identity(&mut c);
    assert_eq!(c.workload_env, vec!["BUX_GUEST_CONFIGX=kept", "A=1"]);
}

#[test]
fn boot_ids_become_a_user() {
    for (uid, gid, user) in [
        (Some(5), None, Some("5")),
        (None, Some(6), Some("0:6")),
        (None, None, None),
    ] {
        let mut c = empty_config();
        c.uid = uid;
        c.gid = gid;
        route_workload_identity(&mut c);
        assert_eq!(c.workload_user.as_deref(), user);
    }
}

#[test]
fn settled_machine_boots_the_agent() {
    let mut c = empty_config();
    c.env = Some(vec!["A=1".into()]);
    c.uid = Some(3);
    c.exec_args = vec!["x".into()];
    settle_managed_config(&mut c, "/sbin/agent");
    assert_eq!(c.exec_path.as_deref(), Some("/sbin/agent"));
    assert!(c.exec_args.is_empty());
    assert!(c.env.is_none());
    assert_eq!(c.uid, None);
    assert_eq!(c.workload_env, vec!["A=1"]);
    assert_eq!(c.workload_user.as_deref(), Some("3"));

    // A restart with the agent's settings in place changes nothing.
    inject_guest_boot_env(&mut c, Ok(format!("{GUEST_BOOT_CONFIG_ENV}={{}}"))).unwrap();
    assert_eq!(c.env, Some(vec![format!("{GUEST_BOOT_CONFIG_ENV}={{}}")]));
    settle_managed_config(&mut c, "/sbin/agent");
    assert_eq!(c.workload_env, vec!["A=1"]);
    assert!(c.env.is_none());
}

#[test]
fn managed_config_refuses_boot_time_exec() {
    let mut c = empty_config();
    c.exec_path = Some("/bin/sh".into());
    let e = prepare_managed_config(&c, "/sbin/agent").unwrap_err();
    assert!(matches!(e, Error::InvalidConfig(m) if m == "managed runtime no longer supports boot-time exec; start the VM, then run commands through bux exec"));
    c.exec_path = Some("/sbin/agent".into());
    c.rootfs = Some("/r".into());
    assert_eq!(
        prepare_managed_config(&c, "/sbin/agent").unwrap().as_deref(),
        Some("/r")
    );
}

#[test]
fn managed_config_refuses_a_bare_root_disk() {
    let mut c = empty_config();
    c.root_disk = Some("/d".into());
    let e = prepare_managed_config(&c, "/sbin/agent").unwrap_err();
    assert!(matches!(e, Error::InvalidConfig(m) if m == "managed runtime does not yet support direct root_disk boot without a managed guest-rootfs preparation step"));
    c.base_disk = Some("/b".into());
    assert_eq!(prepare_managed_config(&c, "/sbin/agent").unwrap(), None);
}

#[test]
fn unencoded_settings_are_an_invalid_config() {
    let mut c = empty_config();
    let e = inject_guest_boot_env(&mut c, Err("bad".into())).unwrap_err();
    assert!(matches!(e, Error::InvalidConfig(m) if m == "bad"));
    assert!(c.env.is_none());
}

#[test]
fn boot_settings_follow_the_network() {
    let mut c = empty_config();
    let g = guest_boot_config(&c, "vm1", Some("PEM".into()));
    assert_eq!(g.vm_id, "vm1");
    assert_eq!(g.network, GuestNetworkMode::Enabled);
    assert_eq!(g.mitm_ca_pem.as_deref(), Some("PEM"));
    c.virtio_net = false;
    assert_eq!(
        guest_boot_config(&c, "vm1", None).network,
        GuestNetworkMode::Disabled
    );
}

#[test]
fn death_message_shows_the_last_lines() {
    assert_eq!(
        shim_death_message(7, None, None),
        "VM process (pid 7) died before ready: unknown reason"
    );
    let info = ExitInfo::Signal { exit_code: 134, signal: "SIGABRT".into() };
    assert_eq!(
        shim_death_message(-1, Some(info), Some("1\n2\n3\n4\n5\n6\r\n7".into())),
        "VM process (pid -1) died before ready: killed by SIGABRT\n  stderr:\n    3\n    4\n    5\n    6\n    7"
    );
    assert_eq!(
        shim_death_message(2, None, Some(String::new())),
        "VM process (pid 2) died before ready: unknown reason"
    );
}

#[test]
fn transient_files_of_a_machine() {
    assert_eq!(
        clean_vm_files(),
        vec![VmFile::Socket, VmFile::Exit, VmFile::Config, VmFile::Stderr]
    );
    assert_eq!(VmFile::Socket.extension(), None);
    assert_eq!(VmFile::Exit.extension(), Some("exit"));
    assert_eq!(VmFile::Config.extension(), Some("json"));
    assert_eq!(VmFile::Stderr.extension(), Some("stderr"));
}

#[test]
fn waiting_falls_back_to_looking() {
    assert_eq!(wait_for_exit(WaitOutcome::Ended), WaitStep::Return);
    assert_eq!(wait_for_exit(WaitOutcome::Unclear), WaitStep::Probe);
    assert_eq!(wait_for_exit(WaitOutcome::Alive), WaitStep::SleepThenProbe(50));
    assert_eq!(wait_for_exit(WaitOutcome::Gone), WaitStep::Return);
}

#[test]
fn shim_config_of_a_machine() {
    let mut c = empty_config();
    c.root_disk = Some("/o.qcow2".into());
    c.disk_format = DiskFormat::Qcow2;
    c.ports = vec!["80:80".into()];
    c.virtiofs = vec![VirtioFs { tag: "t".into(), path: "/p".into() }];
    c.vsock_ports = vec![VsockPort { port: 9, path: "/s".into(), listen: true }];
    c.exec_path = Some("/agent".into());
    let with_net = to_shim_config(
        "vm",
        &c,
        Some(ShimNetwork {
            socket_path: "/n".into(),
            connection: ShimNetConn::UnixStream,
            mac: [1, 2, 3, 4, 5, 6],
        }),
    );
    assert_eq!(with_net.vm_id, "vm");
    assert_eq!(with_net.disk_format, ShimDiskFormat::Qcow2);
    assert!(with_net.ports.is_empty());
    assert_eq!(with_net.network.as_ref().unwrap().socket_path, "/n");
    assert_eq!(with_net.virtiofs[0].tag, "t");
    assert_eq!((with_net.vsock_ports[0].port, with_net.vsock_ports[0].listen), (9, true));
    assert_eq!(with_net.exec_path.as_deref(), Some("/agent"));
    let without = to_shim_config("vm", &c, None);
    assert_eq!(without.ports, vec!["80:80"]);
    assert!(without.network.is_none());
}

fn begin(config: VmConfig, staged: bool, name: Option<&str>) -> (Spawn, SpawnAction) {
    Spawn::new(
        SpawnRequest {
            config,
            staged_secrets: staged,
            image: Some("img".into()),
            name: name.map(|n| n.to_string()),
            auto_remove: true,
            watch_parent: false,
        },
        "/socks",
        1024,
    )
}

#[test]
fn start_of_a_machine_with_everything() {
    let mut c = empty_config();
    c.base_disk = Some("/base.raw".into());
    c.ports = vec!["0:80".into()];
    c.allow_net = vec!["example.com".into()];
    c.env = Some(vec!["A=1".into()]);
    let (mut s, a) = begin(c, true, Some("web"));
    assert!(matches!(a, SpawnAction::LookUpName(n) if n == "web"));
    assert!(matches!(
        s.step(SpawnEvent::NameTaken(false)),
        Ok(SpawnAction::MakeId)
    ));
    assert!(matches!(
        s.step(SpawnEvent::IdMade("abc".into())),
        Ok(SpawnAction::FindGuest)
    ));
    assert_eq!(s.id(), "abc");
    assert!(matches!(
        s.step(SpawnEvent::GuestFound("/agent".into())),
        Ok(SpawnAction::MakeOverlay { base, format: DiskFormat::Raw }) if base == "/base.raw"
    ));
    assert_eq!(s.config().vsock_ports[0].path, "/socks/abc.sock");
    assert!(matches!(
        s.step(SpawnEvent::OverlayMade("/over.qcow2".into())),
        Ok(SpawnAction::MintSecrets)
    ));
    assert!(matches!(
        s.step(SpawnEvent::SecretsMinted("PEM".into())),
        Ok(SpawnAction::EncodeBoot(g)) if g.vm_id == "abc"
            && g.network == GuestNetworkMode::Enabled
            && g.mitm_ca_pem.as_deref() == Some("PEM")
    ));
    assert!(matches!(
        s.step(SpawnEvent::Encoded(Ok("BUX_GUEST_CONFIG={}".into()))),
        Ok(SpawnAction::ResolvePorts(p)) if p == vec!["0:80"]
    ));
    assert!(matches!(
        s.step(SpawnEvent::PortsResolved {
            ports: vec!["4000:80".into()],
            published: vec![PublishedPort { host_port: 4000, guest_port: 80 }],
        }),
        Ok(SpawnAction::StartNetwork(a)) if a == vec!["example.com"]
    ));
    assert!(matches!(
        s.step(SpawnEvent::Done),
        Ok(SpawnAction::KeepSecrets)
    ));
    assert!(matches!(
        s.step(SpawnEvent::Done),
        Ok(SpawnAction::SpawnShim { config_path, watch_parent: false })
            if config_path == "/socks/abc.json"
    ));
    assert!(matches!(
        s.step(SpawnEvent::ShimSpawned { pid: 77, security: None }),
        Ok(SpawnAction::Record)
    ));
    let vm = s.record(1_700_000_000_000_000_000).unwrap();
    assert_eq!(vm.created_at, 1_700_000_000_000_000_000);
    assert_eq!(vm.id, "abc");
    assert_eq!(vm.name.as_deref(), Some("web"));
    assert_eq!(vm.pid, 77);
    assert_eq!(vm.image.as_deref(), Some("img"));
    assert_eq!(vm.socket, "/socks/abc.sock");
    assert!(matches!(vm.status, Status::Running));
    assert_eq!(vm.config.root_disk.as_deref(), Some("/over.qcow2"));
    assert_eq!(vm.config.disk_format, DiskFormat::Qcow2);
    assert_eq!(vm.config.base_disk, None);
    assert!(vm.config.secrets_required);
    assert!(vm.config.auto_remove);
    assert_eq!(vm.config.ports, vec!["4000:80"]);
    assert_eq!(vm.config.published_ports[0].host_port, 4000);
    assert_eq!(vm.config.env, Some(vec!["BUX_GUEST_CONFIG={}".to_string()]));
    assert_eq!(vm.config.workload_env, vec!["A=1"]);
}

#[test]
fn taken_name_ends_a_start() {
    let (mut s, _) = begin(empty_config(), false, Some("web"));
    assert!(matches!(
        s.step(SpawnEvent::NameTaken(true)),
        Ok(SpawnAction::Fail(Error::Ambiguous(m))) if m == "a VM named 'web' already exists"
    ));
    assert!(matches!(s.step(SpawnEvent::Done), Err(UnexpectedEvent)));
    assert!(s.record(0).is_none());
}

#[test]
fn secrets_without_a_network_end_a_start() {
    let mut c = empty_config();
    c.virtio_net = false;
    let (mut s, a) = begin(c, true, None);
    assert!(matches!(a, SpawnAction::MakeId));
    s.step(SpawnEvent::IdMade("x".into())).unwrap();
    assert!(matches!(
        s.step(SpawnEvent::GuestFound("/agent".into())),
        Ok(SpawnAction::Fail(Error::SecretsNeedVirtioNet))
    ));
}

#[test]
fn failed_shim_stops_the_network() {
    let mut c = empty_config();
    c.rootfs = Some("/root".into());
    let (mut s, _) = begin(c, false, None);
    s.step(SpawnEvent::IdMade("x".into())).unwrap();
    assert!(matches!(
        s.step(SpawnEvent::GuestFound("/agent".into())),
        Ok(SpawnAction::PutGuest(r)) if r == "/root"
    ));
    assert!(matches!(
        s.step(SpawnEvent::Done),
        Ok(SpawnAction::EncodeBoot(g)) if g.mitm_ca_pem.is_none()
    ));
    s.step(SpawnEvent::Encoded(Ok("E=1".into()))).unwrap();
    s.step(SpawnEvent::PortsResolved { ports: vec![], published: vec![] }).unwrap();
    assert!(matches!(
        s.step(SpawnEvent::Done),
        Ok(SpawnAction::SpawnShim { .. })
    ));
    assert!(matches!(
        s.step(SpawnEvent::Failed(Error::Jail("no".into()))),
        Ok(SpawnAction::StopNetworkAndFail(Error::Jail(m))) if m == "no"
    ));
}

#[test]
fn machine_without_a_network_publishes_nothing() {
    let mut c = empty_config();
    c.virtio_net = false;
    c.ports = vec!["1:2".into()];
    c.published_ports = vec![PublishedPort { host_port: 1, guest_port: 2 }];
    let (mut s, _) = begin(c, false, None);
    s.step(SpawnEvent::IdMade("x".into())).unwrap();
    s.step(SpawnEvent::GuestFound("/agent".into())).unwrap();
    assert!(matches!(
        s.step(SpawnEvent::Encoded(Ok("E=1".into()))),
        Ok(SpawnAction::CheckPorts(p)) if p == vec!["1:2"]
    ));
    assert!(matches!(
        s.step(SpawnEvent::Done),
        Ok(SpawnAction::SpawnShim { .. })
    ));
    assert!(s.config().published_ports.is_empty());
    assert!(!s.config().secrets_required);
}

#[test]
fn any_failed_step_is_the_result() {
    let (mut s, _) = begin(empty_config(), false, None);
    assert!(matches!(
        s.step(SpawnEvent::Failed(Error::Other("db".into()))),
        Ok(SpawnAction::Fail(Error::Other(m))) if m == "db"
    ));
    let (mut s, _) = begin(empty_config(), false, None);
    s.step(SpawnEvent::IdMade("x".into())).unwrap();
    s.step(SpawnEvent::GuestFound("/agent".into())).unwrap();
    assert!(matches!(
        s.step(SpawnEvent::Encoded(Err("json".into()))),
        Ok(SpawnAction::Fail(Error::InvalidConfig(m))) if m == "json"
    ));
    let (mut s, _) = begin(empty_config(), false, None);
    assert!(matches!(
        s.step(SpawnEvent::NameTaken(false)),
        Err(UnexpectedEvent)
    ));
}
