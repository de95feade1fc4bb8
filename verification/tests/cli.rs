use bux::ca_trust::{goes_on, install_mitm_ca, TrustAction};
use bux::run::{
    create_disk_from_rootfs, run_foreground_vm, spawn_vm, stop_vm, BootRoot, CreateArgs,
    ForegroundEnd, LaunchMode, ResolvedRootfs, RootStep, RootfsRequest, RunArgs, RunError,
};
use bux::state::VirtioFs;
use bux::vm::ImageConfig;
use bux::volume::{dispatch, list, OutputFormat, VolumeAction, VolumeRequest, VolumeRow};

fn args() -> RunArgs {
    RunArgs {
        image: Some("alpine".into()),
        root: None,
        root_disk: None,
        disk: false,
        name: Some("n".into()),
        detach: false,
        rm: true,
        cpus: 2,
        memory: 512,
        workdir: None,
        publish: vec![],
        allow_net: vec![],
        network: "enabled".into(),
        secrets: vec![],
        volume: vec!["/a:/b".into()],
        env: vec![],
        env_file: vec![],
        user: None,
        interactive: false,
        tty: false,
        entrypoint: None,
        ulimit: vec!["nofile=1:2".into()],
        nested_virt: false,
        snd: true,
        console_output: None,
        log_level: 3,
        command: vec![],
    }
}

fn image() -> ImageConfig {
    ImageConfig {
        env: Some(vec!["P=1".into()]),
        working_dir: Some("/img".into()),
        command: vec!["/entry".into(), "arg".into()],
    }
}

fn disk() -> BootRoot {
    BootRoot::BaseDisk("/b.raw".into())
}

#[test]
fn sources_of_the_root() {
    let mut a = args();
    assert!(matches!(a.run(), Ok(RootfsRequest::Image(i)) if i == "alpine"));
    assert!(matches!(a.root_step(), RootStep::CreateBase));
    a.image = None;
    a.root = Some("/r".into());
    assert!(matches!(
        a.run(),
        Ok(RootfsRequest::Directory { path, hash: false }) if path == "/r"
    ));
    assert!(matches!(a.root_step(), RootStep::UseDirectory));
    a.disk = true;
    assert!(matches!(
        a.resolve_rootfs(),
        RootfsRequest::Directory { hash: true, .. }
    ));
    assert!(matches!(a.root_step(), RootStep::CreateBase));
    a.root = None;
    a.root_disk = Some("/d".into());
    assert!(matches!(a.resolve_rootfs(), RootfsRequest::Disk));
    let e = a.run().err().unwrap();
    assert_eq!(
        e.message(),
        "managed bux run no longer supports direct --root-disk boot; use --root/--disk or an OCI image so the runtime can prepare a managed guest rootfs"
    );
}

#[test]
fn cache_keys_of_roots() {
    let r = ResolvedRootfs::from_image("/p".into(), "sha256:a:b", Some(image()));
    assert_eq!(r.disk_cache_key.as_deref(), Some("sha256-a-b"));
    assert_eq!(r.path, "/p");
    assert!(r.oci_cfg.is_some());
    let r = ResolvedRootfs::from_directory("/p".into(), None);
    assert_eq!(create_disk_from_rootfs(&r.disk_cache_key), None);
    assert_eq!(
        create_disk_from_rootfs(&Some("k".into())).as_deref(),
        Some("k")
    );
}

#[test]
fn image_command_runs_in_the_foreground() {
    let d = args()
        .configure(disk(), Some(image()), vec!["F=2".into()], &vec![])
        .ok()
        .unwrap();
    assert_eq!(d.volumes, vec!["/a:/b"]);
    let l = d
        .launch(vec![VirtioFs { tag: "t".into(), path: "/a".into() }])
        .ok()
        .unwrap();
    assert_eq!(l.builder.base_disk.as_deref(), Some("/b.raw"));
    assert_eq!(l.builder.vcpus, Some(2));
    assert_eq!(l.builder.log_level, Some(3));
    assert_eq!(l.builder.rlimits, vec!["nofile=1:2"]);
    assert_eq!(l.builder.snd_device, Some(true));
    assert_eq!(l.builder.nested_virt, None);
    assert_eq!(l.builder.virtio_net, Some(true));
    assert_eq!(l.builder.virtiofs[0].tag, "t");
    assert_eq!(l.image.as_deref(), Some("alpine"));
    assert_eq!(l.name.as_deref(), Some("n"));
    assert!(l.auto_remove);
    match l.mode {
        LaunchMode::Foreground { request: Some(r), interactive } => {
            assert!(!interactive);
            assert_eq!(r.cmd, "/entry");
            assert_eq!(r.args, vec!["arg"]);
            assert_eq!(r.env, vec!["P=1", "F=2"]);
            assert_eq!(r.workdir.as_deref(), Some("/img"));
            assert_eq!(r.user, None);
        }
        _ => panic!("not in the foreground"),
    }
}

#[test]
fn given_command_and_entry_point_win() {
    let mut a = args();
    a.command = vec!["x".into()];
    a.env = vec!["E=3".into()];
    a.workdir = Some("/given".into());
    let d = a.configure(disk(), Some(image()), vec![], &vec![]).ok().unwrap();
    assert_eq!(d.cmd, vec!["x"]);
    assert_eq!(d.env, vec!["P=1", "E=3"]);
    assert_eq!(d.workdir.as_deref(), Some("/given"));
    let mut a = args();
    a.command = vec!["x".into()];
    a.entrypoint = Some("ep".into());
    a.workdir = Some("".into());
    let d = a.configure(disk(), Some(image()), vec![], &vec![]).ok().unwrap();
    assert_eq!(d.cmd, vec!["ep", "x"]);
    assert_eq!(d.workdir, None);
}

#[test]
fn refused_port_is_named() {
    let mut a = args();
    a.publish = vec!["80".into(), "x".into(), "y".into()];
    let e = a
        .configure(disk(), None, vec![], &vec![true, false, false])
        .err()
        .unwrap();
    assert_eq!(e.message(), "invalid -p \"x\"");
}

#[test]
fn secrets_on_the_command_line() {
    let mut a = args();
    a.secrets = vec!["k=v".into()];
    a.allow_net = vec!["h".into()];
    let d = a.configure(disk(), None, vec![], &vec![]).ok().unwrap();
    assert_eq!(d.builder.secrets.len(), 1);
    assert_eq!(d.builder.secrets[0].hosts, vec!["h"]);
    assert_eq!(d.builder.virtio_net, Some(true));
    let mut a = args();
    a.secrets = vec!["k=v".into()];
    a.network = "none".into();
    let e = a.configure(disk(), None, vec![], &vec![]).err().unwrap();
    assert_eq!(e.message(), "--secret requires --network=enabled (gvproxy MITM)");
    let mut a = args();
    a.secrets = vec!["k".into()];
    let e = a.configure(disk(), None, vec![], &vec![]).err().unwrap();
    assert!(matches!(e, RunError::Secret(_)));
    assert!(e.message().starts_with("invalid --secret \"k\""));
    let mut a = args();
    a.network = "none".into();
    let d = a.configure(disk(), None, vec![], &vec![]).ok().unwrap();
    assert_eq!(d.builder.virtio_net, Some(false));
}

#[test]
fn options_need_a_command() {
    for set in 0..5 {
        let mut a = args();
        match set {
            0 => a.workdir = Some("/w".into()),
            1 => a.user = Some("u".into()),
            2 => a.env = vec!["A=1".into()],
            3 => a.interactive = true,
            _ => a.tty = true,
        }
        let d = a.configure(disk(), None, vec![], &vec![]).ok().unwrap();
        let e = d.launch(vec![]).err().unwrap();
        assert_eq!(
            e.message(),
            "env/workdir/user/interactive options require an initial command or image entrypoint under the managed runtime"
        );
    }
}

#[test]
fn background_runs_take_no_command() {
    let mut a = args();
    a.detach = true;
    let d = a.configure(disk(), None, vec![], &vec![]).ok().unwrap();
    assert!(matches!(d.launch(vec![]).ok().unwrap().mode, LaunchMode::Detached));
    let mut a = args();
    a.detach = true;
    a.command = vec!["x".into()];
    let d = a.configure(disk(), None, vec![], &vec![]).ok().unwrap();
    assert_eq!(
        d.launch(vec![]).err().unwrap().message(),
        "detached run with an initial command is not supported by the managed runtime; start the VM detached, then run the command with bux exec"
    );
    let mut a = args();
    a.detach = true;
    a.tty = true;
    a.command = vec!["x".into()];
    let d = a.configure(disk(), None, vec![], &vec![]).ok().unwrap();
    assert_eq!(
        d.launch(vec![]).err().unwrap().message(),
        "detached run does not support -i/-t"
    );
}

#[test]
fn directory_without_a_command() {
    let mut a = args();
    a.image = None;
    a.root = Some("/r".into());
    let d = a
        .configure(BootRoot::Directory("/r".into()), None, vec![], &vec![])
        .ok()
        .unwrap();
    assert_eq!(d.builder.root.as_deref(), Some("/r"));
    assert_eq!(d.builder.base_disk, None);
    assert!(matches!(
        d.launch(vec![]).ok().unwrap().mode,
        LaunchMode::Foreground { request: None, interactive: false }
    ));
}

#[test]
fn creating_is_running_in_the_background() {
    let c = CreateArgs {
        image: "i".into(),
        name: None,
        rm: false,
        cpus: 1,
        memory: 2,
        publish: vec!["1".into()],
        allow_net: vec!["h".into()],
        network: "none".into(),
        secrets: vec!["s".into()],
        volume: vec!["v".into()],
        log_level: 4,
    };
    assert!(matches!(c.run(), RootfsRequest::Image(i) if i == "i"));
    let e = c.configure_create(disk(), &vec![true]).err().unwrap();
    assert_eq!(e.message(), "--secret requires --network=enabled (gvproxy MITM)");
}

#[test]
fn created_machine_has_no_command_whatever_its_image() {
    let c = CreateArgs {
        image: "with-entrypoint".into(),
        name: Some("n".into()),
        rm: true,
        cpus: 1,
        memory: 512,
        publish: vec!["80".into()],
        allow_net: vec!["h".into()],
        network: "enabled".into(),
        secrets: vec!["k=v".into()],
        volume: vec!["/a:/b".into()],
        log_level: 3,
    };
    let d = c.configure_create(disk(), &vec![true]).ok().unwrap();
    assert!(d.cmd.is_empty() && d.env.is_empty());
    assert_eq!((d.workdir.as_deref(), d.user.as_deref()), (None, None));
    assert_eq!(d.volumes, vec!["/a:/b"]);
    assert_eq!(d.builder.secrets[0].hosts, vec!["h"]);
    let l = d.launch(vec![]).ok().unwrap();
    assert!(matches!(l.mode, LaunchMode::Detached));
    assert_eq!(l.image.as_deref(), Some("with-entrypoint"));
    assert_eq!(l.name.as_deref(), Some("n"));
    assert!(l.auto_remove);
    assert_eq!(l.builder.base_disk.as_deref(), Some("/b.raw"));
    assert_eq!((l.builder.vcpus, l.builder.ram_mib), (Some(1), Some(512)));
    assert_eq!(l.builder.ports, vec!["80"]);
}

#[test]
fn refused_port_of_a_creation_is_named() {
    let c = CreateArgs {
        image: "i".into(),
        name: None,
        rm: false,
        cpus: 1,
        memory: 512,
        publish: vec!["80".into(), "x".into()],
        allow_net: vec![],
        network: "enabled".into(),
        secrets: vec![],
        volume: vec![],
        log_level: 3,
    };
    let e = c.configure_create(disk(), &vec![true, false]).err().unwrap();
    assert_eq!(e.message(), "invalid -p \"x\"");
}

#[test]
fn ends_of_a_foreground_run() {
    assert_eq!(run_foreground_vm(ForegroundEnd::Command(7)), 7);
    assert_eq!(run_foreground_vm(ForegroundEnd::Stopped), 0);
    assert_eq!(run_foreground_vm(ForegroundEnd::Signal(15)), 143);
    assert_eq!(run_foreground_vm(ForegroundEnd::Signal(2)), 130);
    assert!(stop_vm(false, true));
    assert!(!stop_vm(true, true));
    assert!(!stop_vm(false, false));
    assert_eq!(spawn_vm("id", &None), "id");
    assert_eq!(spawn_vm("id", &Some("name".into())), "name");
}

#[test]
fn volume_commands() {
    let (r, c) = dispatch(VolumeAction::Create { name: "v".into() });
    assert!(matches!(r, VolumeRequest::Create(n) if n == "v"));
    assert_eq!(c, "create volume");
    let (r, c) = dispatch(VolumeAction::List { format: OutputFormat::Json });
    assert!(matches!(r, VolumeRequest::List(OutputFormat::Json)));
    assert_eq!(c, "list volumes");
    let (r, c) = dispatch(VolumeAction::Rm { name: "v".into() });
    assert!(matches!(r, VolumeRequest::Remove(n) if n == "v"));
    assert_eq!(c, "remove volume");
}

#[test]
fn volume_table() {
    assert_eq!(list(OutputFormat::Table, &vec![]).unwrap(), vec!["No volumes."]);
    assert!(list(OutputFormat::Json, &vec![]).is_none());
    let rows = vec![
        VolumeRow { name: "data".into(), path: "/v/data".into() },
        VolumeRow { name: "a-name-that-is-longer-than-the-column".into(), path: "/x".into() },
    ];
    let lines = list(OutputFormat::Table, &rows).unwrap();
    assert_eq!(
        lines,
        vec![
            format!("{:<24} PATH", "NAME"),
            format!("{:<24} {}", "data", "/v/data"),
            format!("{:<24} {}", "a-name-that-is-longer-than-the-column", "/x"),
        ]
    );
}

#[test]
fn certificate_installation() {
    let steps = install_mitm_ca();
    assert_eq!(steps.len(), 8);
    assert_eq!(
        steps.iter().map(|s| s.required).collect::<Vec<bool>>(),
        vec![true, true, true, true, false, false, false, false]
    );
    assert!(matches!(
        &steps[1].action,
        TrustAction::WritePem(p) if p == "/usr/local/share/ca-certificates/bux-mitm-ca.crt"
    ));
    assert!(matches!(
        &steps[7].action,
        TrustAction::Run(c, a) if c == "update-ca-trust" && a == &vec!["extract".to_string()]
    ));
    assert!(!goes_on(&steps[0], false));
    assert!(goes_on(&steps[0], true));
    assert!(goes_on(&steps[6], false));
}
