use bux::container::{
    find_pause_binary, pause_args, pause_candidates, phase_b_ready, resolve_exec_argv,
    should_use_container, start_primary, started_container, try_start_primary, workload_isolation,
    Primary, PrimaryContainer, PrimaryStep,
};
use bux::error::IoKind;
use bux::oci::{build_failure, json_failure, write_oci_config, Namespace};
use bux::oci::primary_profile;

fn container(pid: i32) -> PrimaryContainer {
    PrimaryContainer {
        init_pid: pid,
        state_root: "/run/bux/state".into(),
        bundle_path: "/run/bux/containers/primary".into(),
    }
}

#[test]
fn isolation_follows_the_container() {
    let mut p = Primary::new();
    assert_eq!(workload_isolation(&p), "phase_a");
    assert!(!phase_b_ready(&p));
    let said = p.started(Ok(container(42)));
    assert_eq!(said, "[bux-guest] Phase B primary container ready (init_pid=42)");
    assert_eq!(workload_isolation(&p), "phase_b");
    assert!(phase_b_ready(&p));
    let said = p.started(Ok(container(43)));
    assert_eq!(said, "[bux-guest] primary container already set");
    let (_, argv) = resolve_exec_argv(&p, "x", &vec![], None).unwrap();
    assert_eq!(argv[1], "42");
}

#[test]
fn failed_container_leaves_commands_outside() {
    let mut p = Primary::new();
    let said = p.started(Err("no cgroup".into()));
    assert_eq!(
        said,
        "[bux-guest] Phase B primary container failed: no cgroup; continuing Phase A"
    );
    assert!(!phase_b_ready(&p));
    assert!(matches!(try_start_primary(true), PrimaryStep::Start));
    assert!(matches!(
        try_start_primary(false),
        PrimaryStep::Report(m) if m == "[bux-guest] primary container disabled by boot config"
    ));
}

#[test]
fn commands_choose_the_container() {
    let mut p = Primary::new();
    let e = should_use_container(&p, Some(true)).unwrap_err();
    assert_eq!(e.kind, IoKind::Other);
    assert_eq!(
        e.message,
        "in_container=true requested but Phase B primary container is not available"
    );
    assert!(!should_use_container(&p, Some(false)).unwrap());
    assert!(!should_use_container(&p, None).unwrap());
    p.started(Ok(container(9)));
    assert!(should_use_container(&p, Some(true)).unwrap());
    assert!(!should_use_container(&p, Some(false)).unwrap());
    assert!(should_use_container(&p, None).unwrap());
}

#[test]
fn entering_a_container() {
    let mut p = Primary::new();
    let args = vec!["-l".to_string(), "a b".to_string()];
    assert_eq!(
        resolve_exec_argv(&p, "ls", &args, None).unwrap(),
        ("ls".to_string(), args.clone())
    );
    assert!(resolve_exec_argv(&p, "ls", &args, Some(true)).is_err());
    p.started(Ok(container(9)));
    let (program, argv) = resolve_exec_argv(&p, "ls", &args, Some(true)).unwrap();
    assert_eq!(program, "nsenter");
    assert_eq!(
        argv,
        vec!["-t", "9", "-m", "-u", "-i", "-p", "--", "ls", "-l", "a b"]
    );
    let (program, argv) = resolve_exec_argv(&p, "ls", &args, Some(false)).unwrap();
    assert_eq!((program.as_str(), argv), ("ls", args));
}

#[test]
fn init_of_a_container() {
    assert_eq!(
        pause_candidates(),
        vec!["/usr/bin/sleep", "/bin/sleep", "/usr/bin/pause", "/bin/pause", "/bin/busybox"]
    );
    assert_eq!(
        find_pause_binary(&vec![false, true, true, false, true]).unwrap(),
        "/bin/sleep"
    );
    assert_eq!(
        find_pause_binary(&vec![false, false, false, false, true]).unwrap(),
        "/bin/busybox"
    );
    let e = find_pause_binary(&vec![false; 5]).unwrap_err();
    assert_eq!(e.message, "no pause/sleep binary found for primary container init");
    assert_eq!(pause_args("/bin/sleep"), vec!["/bin/sleep", "infinity"]);
    assert_eq!(
        pause_args("/bin/busybox"),
        vec!["/bin/busybox", "sleep", "infinity"]
    );
    assert_eq!(pause_args("/bin/pause"), vec!["/bin/pause"]);
}

#[test]
fn places_of_the_primary_container() {
    assert_eq!(
        start_primary(),
        (
            "/run/bux/state".to_string(),
            "/run/bux/containers/primary".to_string()
        )
    );
    let pc = started_container(Some(3), "s".into(), "b".into()).unwrap();
    assert_eq!((pc.init_pid, pc.state_root.as_str(), pc.bundle_path.as_str()), (3, "s", "b"));
    let e = started_container(None, "s".into(), "b".into()).unwrap_err();
    assert_eq!(e.message, "primary container has no init pid after start");
}

#[test]
fn container_configuration_reads_back() {
    let f = write_oci_config("/run/bux/containers/primary", "/bin/sleep").unwrap();
    assert_eq!(f.path, "/run/bux/containers/primary/config.json");
    let spec: oci_spec::runtime::Spec = serde_json::from_str(&f.contents).unwrap();
    assert_eq!(spec.version(), "1.0.2");
    let root = spec.root().as_ref().unwrap();
    assert_eq!(root.path().to_str(), Some("/"));
    assert_eq!(root.readonly(), Some(false));
    let process = spec.process().as_ref().unwrap();
    assert_eq!(process.user().uid(), 0);
    assert_eq!(process.user().gid(), 0);
    assert_eq!(
        process.args().as_ref().unwrap(),
        &vec!["/bin/sleep".to_string(), "infinity".to_string()]
    );
    assert_eq!(
        process.env().as_ref().unwrap(),
        &vec![
            "PATH=/usr/local/sbin:/usr/local/bin:/usr/sbin:/usr/bin:/sbin:/bin".to_string(),
            "TERM=xterm".to_string()
        ]
    );
    assert_eq!(process.cwd().to_str(), Some("/"));
    let kinds: Vec<oci_spec::runtime::LinuxNamespaceType> = spec
        .linux()
        .as_ref()
        .unwrap()
        .namespaces()
        .as_ref()
        .unwrap()
        .iter()
        .map(|n| n.typ())
        .collect();
    assert_eq!(
        kinds,
        vec![
            oci_spec::runtime::LinuxNamespaceType::Pid,
            oci_spec::runtime::LinuxNamespaceType::Ipc,
            oci_spec::runtime::LinuxNamespaceType::Uts,
            oci_spec::runtime::LinuxNamespaceType::Mount
        ]
    );
    assert_eq!(spec.hostname().as_deref(), Some("bux"));
}

#[test]
fn container_configuration_failures() {
    assert_eq!(build_failure("x").message, "x");
    assert_eq!(json_failure("y").message, "serialize oci config: y");
    assert_eq!(json_failure("y").kind, IoKind::Other);
    let p = primary_profile("/bin/pause");
    assert_eq!(p.args, vec!["/bin/pause"]);
    assert_eq!(
        p.namespaces,
        vec![Namespace::Pid, Namespace::Ipc, Namespace::Uts, Namespace::Mount]
    );
}
