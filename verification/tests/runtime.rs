use bux::error::{Error, IoKind, UnexpectedEvent};
use bux::pipeline::{first_bad_port, validate, Create, CreateAction, CreateEvent, CreateTask, ImageRef, VmOptions};
use bux::runtime::{
    default_data_dir, BaseDisk, HealthStatus, ListChange, Lookup, RemoveStep, RunOptions, Runtime,
};
use bux::secrets::Secret;
use bux::security::SecurityOptions;
use bux::starting::SpawnAction;
use bux::state::{DiskFormat, Status, VirtioFs, VmConfig, VmState};
use bux::vm::{ImageConfig, VmBuilder};

fn config(auto_remove: bool) -> VmConfig {
    VmConfig {
        vcpus: 4,
        ram_mib: 2048,
        rootfs: None,
        root_disk: None,
        disk_format: DiskFormat::Raw,
        base_disk: None,
        exec_path: None,
        exec_args: vec![],
        env: None,
        workdir: None,
        ports: vec![],
        allow_net: vec![],
        published_ports: vec![],
        virtiofs: vec![],
        vsock_ports: vec![],
        log_level: None,
        uid: None,
        gid: None,
        rlimits: vec![],
        nested_virt: None,
        snd_device: None,
        console_output: None,
        virtio_net: true,
        secrets_required: false,
        workload_env: vec![],
        workload_workdir: None,
        workload_user: None,
        security: SecurityOptions { jailer: true, landlock: true, allow_degraded: false },
        security_status: None,
        auto_remove,
        auto_stop_secs: None,
        auto_delete_secs: None,
        last_activity_at: None,
        last_error: None,
    }
}

fn machine(id: &str, status: Status, auto_remove: bool) -> VmState {
    VmState {
        id: id.into(),
        name: None,
        pid: 10,
        image: Some("img".into()),
        socket: format!("/socks/{id}.sock"),
        status,
        config: config(auto_remove),
        created_at: 5,
    }
}

#[test]
fn data_directory() {
    assert_eq!(default_data_dir(Some("/h".into()), Some("/d".into())), "/h");
    assert_eq!(default_data_dir(None, Some("/d".into())), "/d/bux");
    assert_eq!(default_data_dir(None, None), "bux");
}

#[test]
fn run_options_by_default() {
    let o = RunOptions::default();
    assert!(!o.auto_remove);
    assert_eq!(o.ready_timeout, std::time::Duration::from_secs(30).as_nanos());
    assert_ne!(HealthStatus::Healthy, HealthStatus::Dead);
}

#[test]
fn layout_of_a_data_directory() {
    let rt = Runtime::open("/data");
    assert_eq!(rt.base, "/data");
    assert_eq!(rt.lock_file, "/data/bux.lock");
    assert_eq!(rt.socks_dir, "/data/socks");
    assert_eq!(rt.db_file, "/data/bux.db");
    match rt.locked_out("EWOULDBLOCK") {
        Error::Io(e) => {
            assert_eq!(e.kind, IoKind::AlreadyExists);
            assert_eq!(e.message, "another bux runtime is using /data: EWOULDBLOCK");
        }
        _ => panic!("not an I/O failure"),
    }
}

#[test]
fn spawning_from_a_runtime() {
    let rt = Runtime::open("/data");
    let (_, a) = rt.spawn(config(false), false, None, Some("n".into()), false, 1);
    assert!(matches!(a, SpawnAction::LookUpName(n) if n == "n"));
    let (s, a) = rt.spawn_detached(config(false), false, None, None, false, 1);
    assert!(matches!(a, SpawnAction::MakeId));
    assert_eq!(s.id(), "");
}

#[test]
fn listing_reconciles_and_removes() {
    let vms = vec![
        machine("a", Status::Running, false),
        machine("b", Status::Running, false),
        machine("c", Status::Running, true),
        machine("d", Status::Stopped, true),
        machine("e", Status::Stopped, false),
    ];
    let l = Runtime::list(vms, &vec![true, false, false, true, false]);
    let ids: Vec<&str> = l.keep.iter().map(|v| v.id.as_str()).collect();
    assert_eq!(ids, vec!["a", "b", "e"]);
    assert!(matches!(l.keep[0].status, Status::Running));
    assert!(matches!(l.keep[1].status, Status::Stopped));
    let changes: Vec<String> = l
        .changes
        .iter()
        .map(|c| match c {
            ListChange::MarkStopped(id) => format!("stop {id}"),
            ListChange::RemoveSocket(s) => format!("socket {s}"),
            ListChange::RemoveDisk(id) => format!("disk {id}"),
            ListChange::DeleteRecord(id) => format!("row {id}"),
        })
        .collect();
    assert_eq!(
        changes,
        vec![
            "stop b",
            "stop c",
            "socket /socks/c.sock",
            "disk c",
            "row c",
            "socket /socks/d.sock",
            "disk d",
            "row d"
        ]
    );
}

#[test]
fn listing_again_changes_nothing() {
    let first = Runtime::list(
        vec![machine("a", Status::Running, false), machine("b", Status::Running, false)],
        &vec![false, true],
    );
    let again = Runtime::list(first.keep, &vec![false, true]);
    assert_eq!(again.keep.len(), 2);
    assert!(again.changes.is_empty());
}

#[test]
fn lookup_prefers_the_name() {
    assert!(matches!(
        Runtime::look_up("x", Some(machine("a", Status::Stopped, false))),
        Lookup::Found(vm) if vm.id == "a"
    ));
    assert!(matches!(
        Runtime::look_up("x", None),
        Lookup::ByIdPrefix(p) if p == "x"
    ));
    let (vm, mark) = Runtime::get(machine("a", Status::Running, false), false);
    assert!(matches!(vm.status, Status::Stopped));
    assert_eq!(mark.as_deref(), Some("a"));
    let (vm, mark) = Runtime::get(machine("a", Status::Running, false), true);
    assert!(matches!(vm.status, Status::Running));
    assert_eq!(mark, None);
}

#[test]
fn names_are_not_shared() {
    assert!(Runtime::rename("a", &None, "n").is_ok());
    assert!(Runtime::rename("a", &Some("a".into()), "n").is_ok());
    assert!(matches!(
        Runtime::rename("a", &Some("b".into()), "n"),
        Err(Error::Ambiguous(m)) if m == "a VM named 'n' already exists"
    ));
}

#[test]
fn only_stopped_machines_are_removed() {
    let e = Runtime::remove(&machine("a", Status::Running, false)).err().unwrap();
    assert!(matches!(
        e,
        Error::InvalidState(m) if m == "VM a cannot be removed (status: Running); stop it first"
    ));
    let steps = Runtime::remove(&machine("a", Status::Stopped, false)).unwrap();
    assert_eq!(steps.len(), 7);
    assert!(matches!(&steps[0], RemoveStep::CleanFiles(f) if f.len() == 4));
    assert!(matches!(steps[5], RemoveStep::DeleteRecord));
    assert!(matches!(steps[6], RemoveStep::Announce));
    let odd = Status::Other { name: "Creating".into(), active: true, removable: false };
    assert!(matches!(
        Runtime::remove(&machine("b", odd, false)),
        Err(Error::InvalidState(m)) if m.contains("(status: Creating)")
    ));
}

#[test]
fn collecting_unused_disks() {
    let mut gc = Runtime::gc(vec![
        BaseDisk { id: "1".into(), digest: "d1".into() },
        BaseDisk { id: "2".into(), digest: "d2".into() },
    ]);
    let mut seen = vec![];
    while let Some(d) = gc.next() {
        seen.push(d.digest.clone());
        gc.deleted();
    }
    assert_eq!(seen, vec!["d1", "d2"]);
    assert_eq!(gc.removed().ok(), Some(2));
    assert_eq!(Runtime::gc(vec![]).removed().ok(), Some(0));
}

#[test]
fn failed_deletion_ends_the_collection() {
    let mut gc = Runtime::gc(vec![
        BaseDisk { id: "1".into(), digest: "d1".into() },
        BaseDisk { id: "2".into(), digest: "d2".into() },
        BaseDisk { id: "3".into(), digest: "d3".into() },
    ]);
    gc.deleted();
    assert_eq!(gc.next().unwrap().id, "2");
    gc.failed(Error::Other("disk is busy".into()));
    assert!(gc.next().is_none());
    assert!(matches!(gc.removed(), Err(Error::Other(m)) if m == "disk is busy"));
}

#[test]
fn clones_keep_the_size() {
    let source = machine("src", Status::Stopped, false);
    let plan = Runtime::clone_box(
        &source,
        "xyz",
        "/bases",
        Some("copy".into()),
        &RunOptions::default(),
    );
    assert_eq!(plan.source_id, "src");
    assert_eq!(plan.base_path, "/bases/clone-xyz.raw");
    assert_eq!(plan.builder.base_disk.as_deref(), Some("/bases/clone-xyz.raw"));
    assert_eq!(plan.builder.vcpus, Some(4));
    assert_eq!(plan.builder.ram_mib, Some(2048));
    assert_eq!(plan.builder.root, None);
    assert_eq!(plan.image.as_deref(), Some("img"));
    assert_eq!(plan.name.as_deref(), Some("copy"));
    assert!(!plan.auto_remove);
    let said = Runtime::created(&source);
    assert_eq!((said.id.as_str(), said.tenant.as_str()), ("src", "default"));
}

fn options(image: ImageRef) -> VmOptions {
    VmOptions {
        image,
        name: None,
        vcpus: 2,
        ram_mib: 512,
        virtio_net: true,
        allow_net: vec!["h".into()],
        secrets: vec![],
        ports: vec!["80".into()],
        volumes: vec!["/data:/data:ro".into()],
        env: vec!["A=1".into()],
        workdir: None,
        user: None,
        security: SecurityOptions { jailer: true, landlock: false, allow_degraded: true },
        auto_stop_secs: Some(5),
        auto_delete_secs: None,
        detach: true,
        auto_remove: true,
        ready_timeout: 1,
    }
}

fn good_port() -> CreateEvent {
    CreateEvent::PortsChecked(vec![Ok(())])
}

fn step(c: &mut Create, e: CreateEvent) -> CreateAction {
    c.step(e).ok().unwrap()
}

#[test]
fn creating_from_an_image() {
    let (mut c, a) = Runtime::create(options(ImageRef::Oci("alpine:3".into())));
    assert_eq!(a.says, vec!["validating options"]);
    assert!(matches!(a.task, CreateTask::CheckPorts(p) if p == vec!["80"]));
    let a = step(&mut c, good_port());
    assert_eq!(a.says, vec!["resolving image", "pulling/ensuring OCI image"]);
    assert!(matches!(a.task, CreateTask::Pull(r) if r == "alpine:3"));
    let a = step(
        &mut c,
        CreateEvent::Pulled {
            rootfs: "/pulled".into(),
            digest: "sha256:ab".into(),
            config: Some(ImageConfig {
                env: None,
                working_dir: Some("/w".into()),
                command: vec![],
            }),
        },
    );
    assert_eq!(a.says, vec!["building ext4 base disk"]);
    assert!(matches!(
        a.task,
        CreateTask::BuildBase { rootfs, key } if rootfs == "/pulled" && key == "sha256-ab"
    ));
    let a = step(&mut c, CreateEvent::BaseBuilt("/b.raw".into()));
    assert!(matches!(a.task, CreateTask::MergeImageConfig(i) if i.working_dir.as_deref() == Some("/w")));
    let a = step(
        &mut c,
        CreateEvent::Merged {
            env: vec!["B=2".into()],
            workdir: Some("/w".into()),
            user: Some("u".into()),
        },
    );
    assert_eq!(a.says, vec!["resolving volumes"]);
    assert!(matches!(a.task, CreateTask::ResolveVolumes(v) if v == vec!["/data:/data:ro"]));
    let a = step(
        &mut c,
        CreateEvent::VolumesResolved(vec![VirtioFs { tag: "t".into(), path: "/p".into() }]),
    );
    assert_eq!(a.says, vec!["spawning shim"]);
    assert!(matches!(a.task, CreateTask::Spawn { detached: true }));
    let b = c.builder();
    assert_eq!(b.base_disk.as_deref(), Some("/b.raw"));
    assert_eq!(b.root, None);
    assert_eq!(b.vcpus, Some(2));
    assert_eq!(b.virtio_net, Some(true));
    assert_eq!(b.allow_net, vec!["h"]);
    assert_eq!(b.ports, vec!["80"]);
    assert_eq!(b.workload_env, vec!["B=2"]);
    assert_eq!(b.workload_workdir.as_deref(), Some("/w"));
    assert_eq!(b.user.as_deref(), Some("u"));
    assert_eq!(b.auto_stop_secs, Some(5));
    assert_eq!(b.virtiofs.len(), 1);
    assert_eq!(c.image_label(), "alpine:3");
    assert!(c.opts().auto_remove);
    let a = step(&mut c, CreateEvent::Done);
    assert!(matches!(
        a.task,
        CreateTask::LinkVolumes(v) if v.len() == 1 && v[0].tag == "t" && v[0].path == "/p"
    ));
    assert!(a.says.is_empty());
    let a = step(&mut c, CreateEvent::Done);
    assert_eq!(a.says, vec!["waiting for guest agent"]);
    assert!(matches!(a.task, CreateTask::WaitReady(1)));
    let a = step(&mut c, CreateEvent::Failed(Error::Other("slow".into())));
    assert_eq!(a.says, vec!["running"]);
    assert!(matches!(a.task, CreateTask::Finished));
    assert!(matches!(c.step(CreateEvent::Done), Err(UnexpectedEvent)));
}

#[test]
fn creating_from_paths() {
    let mut o = options(ImageRef::Rootfs("/r".into()));
    o.ready_timeout = 0;
    let (mut c, _) = Runtime::create_with(o);
    let a = step(&mut c, good_port());
    assert_eq!(a.says, vec!["resolving image"]);
    assert!(matches!(a.task, CreateTask::CheckDirectory(p) if p == "/r"));
    let a = step(&mut c, CreateEvent::Checked(true));
    assert!(matches!(a.task, CreateTask::ResolveVolumes(_)));
    assert_eq!(c.builder().root.as_deref(), Some("/r"));
    step(&mut c, CreateEvent::VolumesResolved(vec![]));
    let a = step(&mut c, CreateEvent::Done);
    assert_eq!(a.says, vec!["running"]);

    let (mut c, _) = Runtime::run(options(ImageRef::Rootfs("/r".into())));
    step(&mut c, good_port());
    let a = step(&mut c, CreateEvent::Checked(false));
    assert!(matches!(
        a.task,
        CreateTask::Fail(Error::InvalidConfig(m)) if m == "rootfs is not a directory: /r"
    ));

    let (mut c, _) = Runtime::create(options(ImageRef::BaseDisk("/b".into())));
    let a = step(&mut c, good_port());
    assert!(matches!(a.task, CreateTask::CheckFile(p) if p == "/b"));
    let a = step(&mut c, CreateEvent::Checked(false));
    assert!(matches!(
        a.task,
        CreateTask::Fail(Error::InvalidConfig(m)) if m == "base disk not found: /b"
    ));
}

#[test]
fn running_an_image_lets_the_caller_configure() {
    let opts = RunOptions::default();
    let (mut c, a) = Runtime::run_image(
        options(ImageRef::Oci("i".into())),
        Some("n".into()),
        &opts,
    );
    assert!(matches!(a.task, CreateTask::CheckPorts(_)));
    assert_eq!(c.opts().name.as_deref(), Some("n"));
    assert!(!c.opts().auto_remove);
    step(&mut c, good_port());
    step(
        &mut c,
        CreateEvent::Pulled { rootfs: "/r".into(), digest: "d".into(), config: None },
    );
    let a = step(&mut c, CreateEvent::BaseBuilt("/b".into()));
    assert!(matches!(a.task, CreateTask::Configure));
    assert_eq!(c.builder().vcpus, Some(2));
    assert!(c.builder().ports.is_empty());
    let mut b = VmBuilder::new();
    b.vcpus = Some(9);
    let a = step(&mut c, CreateEvent::Configured(b));
    assert!(matches!(a.task, CreateTask::Spawn { detached: false }));
    assert_eq!(c.builder().vcpus, Some(9));
    let a = step(&mut c, CreateEvent::Done);
    assert!(matches!(a.task, CreateTask::WaitReady(30_000_000_000)));
    let a = step(&mut c, CreateEvent::Done);
    assert!(a.says.is_empty());
    assert!(matches!(a.task, CreateTask::Finished));
}

#[test]
fn wrong_options_are_refused_first() {
    let mut o = options(ImageRef::Oci("i".into()));
    o.vcpus = 0;
    assert!(matches!(
        validate(&o, vec![Err(Error::InvalidConfig("bad port".into()))]),
        Err(Error::InvalidConfig(m)) if m == "vcpus must be >= 1"
    ));
    o.vcpus = 1;
    o.ram_mib = 0;
    assert!(matches!(
        validate(&o, vec![Err(Error::InvalidConfig("bad port".into()))]),
        Err(Error::InvalidConfig(m)) if m == "ram_mib must be >= 1"
    ));
    o.ram_mib = 1;
    o.virtio_net = false;
    assert!(validate(&o, vec![Ok(())]).is_ok());
    assert!(matches!(
        validate(&o, vec![Err(Error::InvalidConfig("bad port".into()))]),
        Err(Error::InvalidConfig(m)) if m == "bad port"
    ));
    o.secrets = vec![Secret::new("k", vec!["h".into()], "v")];
    assert!(matches!(validate(&o, vec![Ok(())]), Err(Error::SecretsNeedVirtioNet)));
    let (mut c, a) = Runtime::create(o);
    assert_eq!(a.says, vec!["validating options"]);
    assert!(matches!(a.task, CreateTask::Fail(Error::SecretsNeedVirtioNet)));
    assert!(c.step(CreateEvent::Done).is_err());
}

#[test]
fn failing_work_fails_a_creation() {
    let (mut c, _) = Runtime::create(options(ImageRef::Oci("i".into())));
    let a = step(&mut c, CreateEvent::Failed(Error::InvalidConfig("port".into())));
    assert!(matches!(a.task, CreateTask::Fail(Error::InvalidConfig(m)) if m == "port"));
    assert!(a.says.is_empty());
}

#[test]
fn first_bad_port_fails_with_its_own_error() {
    assert!(first_bad_port(vec![]).is_ok());
    assert!(first_bad_port(vec![Ok(()), Ok(())]).is_ok());
    assert!(matches!(
        first_bad_port(vec![
            Ok(()),
            Err(Error::InvalidConfig("one".into())),
            Err(Error::Other("two".into())),
        ]),
        Err(Error::InvalidConfig(m)) if m == "one"
    ));
    let mut o = options(ImageRef::Oci("i".into()));
    o.ports = vec!["80".into(), "x".into()];
    let (mut c, _) = Runtime::create(o);
    assert!(c.step(CreateEvent::PortsChecked(vec![Ok(())])).is_err());
    assert!(c.step(CreateEvent::Done).is_err());
    let a = step(
        &mut c,
        CreateEvent::PortsChecked(vec![Ok(()), Err(Error::InvalidConfig("bad x".into()))]),
    );
    assert!(a.says.is_empty());
    assert!(matches!(a.task, CreateTask::Fail(Error::InvalidConfig(m)) if m == "bad x"));
}
