//! Configuration of a virtual machine, and the libkrun calls that it comes to.
//!
//! [`apply_all`] says which calls to make and in what order; the calls
//! themselves are made by the caller.

use vstd::prelude::*;
use crate::text;

verus! {

// ---------------------------------------------------------------------------
// Configuration
// ---------------------------------------------------------------------------

/// Format of a disk image.
#[derive(Debug, Clone, Copy, PartialEq, Eq, Structural)]
pub enum ShimDiskFormat {
    /// A plain image.
    Raw,
    /// A copy-on-write image.
    Qcow2,
}

/// A host directory shared with the guest.
#[derive(Debug)]
pub struct ShimVirtioFs {
    /// Name under which the guest mounts it.
    pub tag: String,
    /// Host directory.
    pub path: String,
}

/// A guest vsock port tied to a host socket.
#[derive(Debug)]
pub struct ShimVsockPort {
    /// Guest port.
    pub port: u32,
    /// Host socket.
    pub path: String,
    /// Whether the host listens.
    pub listen: bool,
}

/// How the network backend is reached.
#[derive(Debug, Clone, Copy, PartialEq, Eq, Structural)]
pub enum ShimNetConn {
    /// A stream socket.
    UnixStream,
    /// A datagram socket.
    UnixDgram,
}

/// Network backend of a virtual machine.
#[derive(Debug)]
pub struct ShimNetwork {
    /// Socket of the backend.
    pub socket_path: String,
    /// Kind of socket.
    pub connection: ShimNetConn,
    /// Hardware address of the guest.
    pub mac: [u8; 6],
}

/// All that the shim process needs to know to start a virtual machine.
#[derive(Debug)]
pub struct ShimConfig {
    /// Name of the machine.
    pub vm_id: String,
    /// Number of processors.
    pub vcpus: u8,
    /// Memory in MiB.
    pub ram_mib: u32,
    /// Root directory.
    pub rootfs: Option<String>,
    /// Root disk.
    pub root_disk: Option<String>,
    /// Format of the root disk.
    pub disk_format: ShimDiskFormat,
    /// Shared directories.
    pub virtiofs: Vec<ShimVirtioFs>,
    /// Ports mapped without a network backend.
    pub ports: Vec<String>,
    /// Vsock ports.
    pub vsock_ports: Vec<ShimVsockPort>,
    /// Network backend.
    pub network: Option<ShimNetwork>,
    /// Log level of libkrun.
    pub log_level: Option<u32>,
    /// Program that the guest runs.
    pub exec_path: Option<String>,
    /// Arguments of that program.
    pub exec_args: Vec<String>,
    /// Environment of the guest.
    pub env: Option<Vec<String>>,
    /// Working directory in the guest.
    pub workdir: Option<String>,
    /// User id of the machine process.
    pub uid: Option<u32>,
    /// Group id of the machine process.
    pub gid: Option<u32>,
    /// Resource limits.
    pub rlimits: Vec<String>,
    /// Nested virtualisation.
    pub nested_virt: Option<bool>,
    /// Sound device.
    pub snd_device: Option<bool>,
    /// File for console output.
    pub console_output: Option<String>,
}

/// Why a virtual machine was not started.
#[derive(Debug)]
pub enum ShimError {
    /// The configuration does not make sense.
    InvalidConfig(String),
    /// A libkrun call failed.
    Krun(String),
}

/// A [`ShimError`] with its text.
pub enum ShimFault {
    InvalidConfig(Seq<char>),
    Krun(Seq<char>),
}

impl View for ShimError {
    type V = ShimFault;

    open spec fn view(&self) -> ShimFault {
        match self {
            ShimError::InvalidConfig(m) => ShimFault::InvalidConfig(m@),
            ShimError::Krun(m) => ShimFault::Krun(m@),
        }
    }
}

impl ShimError {
    /// The same error once more.
    pub fn duplicate(&self) -> (r: ShimError)
        ensures
            r@ == self@,
    {
        match self {
            ShimError::InvalidConfig(m) => ShimError::InvalidConfig(m.clone()),
            ShimError::Krun(m) => ShimError::Krun(m.clone()),
        }
    }
}

// ---------------------------------------------------------------------------
// The calls that a configuration comes to
// ---------------------------------------------------------------------------

/// A libkrun call on a context. The log level alone concerns no context.
#[derive(Debug)]
pub enum KrunCall {
    /// Set the log level.
    SetLogLevel(u32),
    /// Set processors and memory.
    SetVmConfig { vcpus: u8, ram_mib: u32 },
    /// Use a directory as root.
    SetRoot(String),
    /// Add a disk.
    AddDisk { block_id: String, path: String, format: ShimDiskFormat, read_only: bool },
    /// Use a disk as root.
    SetRootDiskRemount { device: String, fstype: Option<String>, options: Option<String> },
    /// Share a directory.
    AddVirtioFs { tag: String, path: String },
    /// Attach a network backend over a stream socket.
    AddNetUnixStream { path: String, mac: [u8; 6] },
    /// Attach a network backend over a datagram socket.
    AddNetUnixGram { path: String, mac: [u8; 6] },
    /// Map ports.
    SetPortMap(Vec<String>),
    /// Set the working directory.
    SetWorkdir(String),
    /// Set program, arguments and environment.
    SetExec { path: String, args: Vec<String>, env: Option<Vec<String>> },
    /// Set the environment.
    SetEnv(Vec<String>),
    /// Set the user id.
    SetUid(u32),
    /// Set the group id.
    SetGid(u32),
    /// Set resource limits.
    SetRlimits(Vec<String>),
    /// Switch nested virtualisation.
    SetNestedVirt(bool),
    /// Switch the sound device.
    SetSndDevice(bool),
    /// Send console output to a file.
    SetConsoleOutput(String),
    /// Tie a vsock port to a socket.
    AddVsockPort { port: u32, path: String, listen: bool },
}

/// A [`KrunCall`] with its texts.
pub enum KrunOp {
    SetLogLevel(u32),
    SetVmConfig(u8, u32),
    SetRoot(Seq<char>),
    AddDisk(Seq<char>, Seq<char>, ShimDiskFormat, bool),
    SetRootDiskRemount(Seq<char>, Option<Seq<char>>, Option<Seq<char>>),
    AddVirtioFs(Seq<char>, Seq<char>),
    AddNetUnixStream(Seq<char>, [u8; 6]),
    AddNetUnixGram(Seq<char>, [u8; 6]),
    SetPortMap(Seq<Seq<char>>),
    SetWorkdir(Seq<char>),
    SetExec(Seq<char>, Seq<Seq<char>>, Option<Seq<Seq<char>>>),
    SetEnv(Seq<Seq<char>>),
    SetUid(u32),
    SetGid(u32),
    SetRlimits(Seq<Seq<char>>),
    SetNestedVirt(bool),
    SetSndDevice(bool),
    SetConsoleOutput(Seq<char>),
    AddVsockPort(u32, Seq<char>, bool),
}

impl View for KrunCall {
    type V = KrunOp;

    open spec fn view(&self) -> KrunOp {
        match *self {
            KrunCall::SetLogLevel(l) => KrunOp::SetLogLevel(l),
            KrunCall::SetVmConfig { vcpus, ram_mib } => KrunOp::SetVmConfig(vcpus, ram_mib),
            KrunCall::SetRoot(p) => KrunOp::SetRoot(p@),
            KrunCall::AddDisk { block_id, path, format, read_only } => KrunOp::AddDisk(
                block_id@,
                path@,
                format,
                read_only,
            ),
            KrunCall::SetRootDiskRemount { device, fstype, options } => KrunOp::SetRootDiskRemount(
                device@,
                text::opt_view(fstype),
                text::opt_view(options),
            ),
            KrunCall::AddVirtioFs { tag, path } => KrunOp::AddVirtioFs(tag@, path@),
            KrunCall::AddNetUnixStream { path, mac } => KrunOp::AddNetUnixStream(path@, mac),
            KrunCall::AddNetUnixGram { path, mac } => KrunOp::AddNetUnixGram(path@, mac),
            KrunCall::SetPortMap(p) => KrunOp::SetPortMap(text::views(p@)),
            KrunCall::SetWorkdir(p) => KrunOp::SetWorkdir(p@),
            KrunCall::SetExec { path, args, env } => KrunOp::SetExec(
                path@,
                text::views(args@),
                text::opt_views(env),
            ),
            KrunCall::SetEnv(e) => KrunOp::SetEnv(text::views(e@)),
            KrunCall::SetUid(u) => KrunOp::SetUid(u),
            KrunCall::SetGid(g) => KrunOp::SetGid(g),
            KrunCall::SetRlimits(r) => KrunOp::SetRlimits(text::views(r@)),
            KrunCall::SetNestedVirt(b) => KrunOp::SetNestedVirt(b),
            KrunCall::SetSndDevice(b) => KrunOp::SetSndDevice(b),
            KrunCall::SetConsoleOutput(p) => KrunOp::SetConsoleOutput(p@),
            KrunCall::AddVsockPort { port, path, listen } => KrunOp::AddVsockPort(
                port,
                path@,
                listen,
            ),
        }
    }
}

/// The calls of a list.
pub open spec fn ops(v: Seq<KrunCall>) -> Seq<KrunOp> {
    Seq::new(v.len(), |i: int| v[i]@)
}

/// One call, where something is configured.
pub open spec fn if_set<T>(o: Option<T>, f: spec_fn(T) -> KrunOp) -> Seq<KrunOp> {
    match o {
        Some(t) => seq![f(t)],
        None => seq![],
    }
}

/// Log level, processors and memory.
pub open spec fn machine_ops(cfg: ShimConfig) -> Seq<KrunOp> {
    if_set(cfg.log_level, |l: u32| KrunOp::SetLogLevel(l)) + seq![
        KrunOp::SetVmConfig(cfg.vcpus, cfg.ram_mib),
    ]
}

/// The root filesystem, or what is wrong with it.
pub open spec fn root_ops(cfg: ShimConfig) -> Result<Seq<KrunOp>, Seq<char>> {
    match (cfg.rootfs, cfg.root_disk) {
        (Some(root), None) => Ok(seq![KrunOp::SetRoot(root@)]),
        (None, Some(disk)) => Ok(
            seq![
                KrunOp::AddDisk("rootfs"@, disk@, cfg.disk_format, false),
                KrunOp::SetRootDiskRemount("/dev/vda"@, Some("ext4"@), None),
            ],
        ),
        (Some(_), Some(_)) => Err("ShimConfig: rootfs and root_disk are mutually exclusive"@),
        (None, None) => Err("ShimConfig: need rootfs or root_disk"@),
    }
}

/// The shared directories.
pub open spec fn share_ops(v: Seq<ShimVirtioFs>) -> Seq<KrunOp> {
    Seq::new(v.len(), |i: int| KrunOp::AddVirtioFs(v[i].tag@, v[i].path@))
}

/// The network backend, or else the port map: never both.
pub open spec fn network_ops(cfg: ShimConfig) -> Seq<KrunOp> {
    match cfg.network {
        Some(net) => match net.connection {
            ShimNetConn::UnixStream => seq![
                KrunOp::AddNetUnixStream(net.socket_path@, net.mac),
            ],
            ShimNetConn::UnixDgram => seq![KrunOp::AddNetUnixGram(net.socket_path@, net.mac)],
        },
        None => if cfg.ports@.len() > 0 {
            seq![KrunOp::SetPortMap(text::views(cfg.ports@))]
        } else {
            seq![]
        },
    }
}

/// The program, or else the environment alone.
pub open spec fn exec_ops(cfg: ShimConfig) -> Seq<KrunOp> {
    match cfg.exec_path {
        Some(p) => seq![
            KrunOp::SetExec(p@, text::views(cfg.exec_args@), text::opt_views(cfg.env)),
        ],
        None => if_set(cfg.env, |e: Vec<String>| KrunOp::SetEnv(text::views(e@))),
    }
}

/// The resource limits.
pub open spec fn rlimit_ops(cfg: ShimConfig) -> Seq<KrunOp> {
    if cfg.rlimits@.len() > 0 {
        seq![KrunOp::SetRlimits(text::views(cfg.rlimits@))]
    } else {
        seq![]
    }
}

/// The vsock ports.
pub open spec fn vsock_ops(v: Seq<ShimVsockPort>) -> Seq<KrunOp> {
    Seq::new(v.len(), |i: int| KrunOp::AddVsockPort(v[i].port, v[i].path@, v[i].listen))
}

/// Shares, network, working directory and program.
pub open spec fn environment_ops(cfg: ShimConfig) -> Seq<KrunOp> {
    share_ops(cfg.virtiofs@) + network_ops(cfg) + if_set(
        cfg.workdir,
        |p: String| KrunOp::SetWorkdir(p@),
    ) + exec_ops(cfg)
}

/// Identity, limits, devices and vsock ports.
pub open spec fn device_ops(cfg: ShimConfig) -> Seq<KrunOp> {
    if_set(cfg.uid, |u: u32| KrunOp::SetUid(u)) + if_set(cfg.gid, |g: u32| KrunOp::SetGid(g))
        + rlimit_ops(cfg) + if_set(cfg.nested_virt, |b: bool| KrunOp::SetNestedVirt(b)) + if_set(
        cfg.snd_device,
        |b: bool| KrunOp::SetSndDevice(b),
    ) + if_set(cfg.console_output, |p: String| KrunOp::SetConsoleOutput(p@)) + vsock_ops(
        cfg.vsock_ports@,
    )
}

/// The calls to make for a configuration, in order.
pub open spec fn config_ops(cfg: ShimConfig) -> Seq<KrunOp> {
    match root_ops(cfg) {
        Ok(root) => machine_ops(cfg) + root + environment_ops(cfg) + device_ops(cfg),
        Err(_) => machine_ops(cfg),
    }
}

/// What is wrong with a configuration, found after those calls.
pub open spec fn config_reject(cfg: ShimConfig) -> Option<Seq<char>> {
    match root_ops(cfg) {
        Ok(_) => None,
        Err(m) => Some(m),
    }
}

/// The calls to make, and the objection to raise after them, if there is one.
#[derive(Debug)]
pub struct ApplyPlan {
    /// Calls, in order.
    pub calls: Vec<KrunCall>,
    /// What is wrong with the configuration.
    pub reject: Option<String>,
}

/// A copy of an optional list of strings.
pub fn clone_opt_strings(o: &Option<Vec<String>>) -> (r: Option<Vec<String>>)
    ensures
        text::opt_views(r) == text::opt_views(*o),
        r is Some <==> o is Some,
        o matches Some(v) ==> r->0@ == v@,
{
    match o {
        Some(v) => Some(text::clone_strings(v)),
        None => None,
    }
}

/// Putting lists together in one order or the other is the same.
proof fn lemma_assoc(a: Seq<KrunOp>, b: Seq<KrunOp>, c: Seq<KrunOp>)
    ensures
        a + b + c == a + (b + c),
{
    assert(a + b + c =~= a + (b + c));
}

/// Appends one call.
fn push_call(calls: &mut Vec<KrunCall>, call: KrunCall)
    ensures
        ops(final(calls)@) == ops(old(calls)@) + seq![call@],
{
    let ghost before = ops(calls@);
    let ghost op = call@;
    calls.push(call);
    assert(ops(calls@) =~= before + seq![op]);
}

/// Appends a call where there is one.
fn push_some(calls: &mut Vec<KrunCall>, call: Option<KrunCall>)
    ensures
        ops(final(calls)@) == ops(old(calls)@) + if_set(call, |c: KrunCall| c@),
{
    match call {
        Some(c) => {
            push_call(calls, c);
        },
        None => {
            assert(ops(calls@) + Seq::<KrunOp>::empty() =~= ops(calls@));
        },
    }
}

/// Appends the calls for shared directories.
fn push_shares(calls: &mut Vec<KrunCall>, v: &Vec<ShimVirtioFs>)
    ensures
        ops(final(calls)@) == ops(old(calls)@) + share_ops(v@),
{
    let ghost start = ops(calls@);
    let ghost all = share_ops(v@);
    let mut i: usize = 0;
    assert(start + all.take(0) =~= start);
    while i < v.len()
        invariant
            i <= v.len(),
            all == share_ops(v@),
            ops(calls@) == start + all.take(i as int),
        decreases v.len() - i,
    {
        push_call(
            calls,
            KrunCall::AddVirtioFs { tag: v[i].tag.clone(), path: v[i].path.clone() },
        );
        i = i + 1;
        assert(all.take(i as int) =~= all.take(i - 1) + seq![all[i - 1]]);
        proof {
            lemma_assoc(start, all.take(i - 1), seq![all[i - 1]]);
        }
    }
    assert(all.take(i as int) =~= all);
}

/// Appends the calls for vsock ports.
fn push_vsock(calls: &mut Vec<KrunCall>, v: &Vec<ShimVsockPort>)
    ensures
        ops(final(calls)@) == ops(old(calls)@) + vsock_ops(v@),
{
    let ghost start = ops(calls@);
    let ghost all = vsock_ops(v@);
    let mut i: usize = 0;
    assert(start + all.take(0) =~= start);
    while i < v.len()
        invariant
            i <= v.len(),
            all == vsock_ops(v@),
            ops(calls@) == start + all.take(i as int),
        decreases v.len() - i,
    {
        push_call(
            calls,
            KrunCall::AddVsockPort { port: v[i].port, path: v[i].path.clone(), listen: v[i].listen },
        );
        i = i + 1;
        assert(all.take(i as int) =~= all.take(i - 1) + seq![all[i - 1]]);
        proof {
            lemma_assoc(start, all.take(i - 1), seq![all[i - 1]]);
        }
    }
    assert(all.take(i as int) =~= all);
}

/// The call for the network, if there is one.
fn network_call(cfg: &ShimConfig) -> (r: Option<KrunCall>)
    ensures
        if_set(r, |c: KrunCall| c@) == network_ops(*cfg),
{
    match &cfg.network {
        Some(net) => match net.connection {
            ShimNetConn::UnixStream => Some(
                KrunCall::AddNetUnixStream { path: net.socket_path.clone(), mac: net.mac },
            ),
            ShimNetConn::UnixDgram => Some(
                KrunCall::AddNetUnixGram { path: net.socket_path.clone(), mac: net.mac },
            ),
        },
        None => if cfg.ports.len() > 0 {
            Some(KrunCall::SetPortMap(text::clone_strings(&cfg.ports)))
        } else {
            None
        },
    }
}

/// The call for program or environment, if there is one.
fn exec_call(cfg: &ShimConfig) -> (r: Option<KrunCall>)
    ensures
        if_set(r, |c: KrunCall| c@) == exec_ops(*cfg),
{
    match &cfg.exec_path {
        Some(p) => Some(
            KrunCall::SetExec {
                path: p.clone(),
                args: text::clone_strings(&cfg.exec_args),
                env: clone_opt_strings(&cfg.env),
            },
        ),
        None => match &cfg.env {
            Some(e) => Some(KrunCall::SetEnv(text::clone_strings(e))),
            None => None,
        },
    }
}

/// Appends the calls for shares, network, working directory and program.
fn push_environment(calls: &mut Vec<KrunCall>, cfg: &ShimConfig)
    ensures
        ops(final(calls)@) == ops(old(calls)@) + environment_ops(*cfg),
{
    let ghost start = ops(calls@);
    let ghost a = share_ops(cfg.virtiofs@);
    let ghost n = network_ops(*cfg);
    let ghost w = if_set(cfg.workdir, |p: String| KrunOp::SetWorkdir(p@));
    push_shares(calls, &cfg.virtiofs);
    push_some(calls, network_call(cfg));
    let workdir: Option<KrunCall> = match &cfg.workdir {
        Some(p) => Some(KrunCall::SetWorkdir(p.clone())),
        None => None,
    };
    assert(if_set(workdir, |c: KrunCall| c@) == w);
    push_some(calls, workdir);
    push_some(calls, exec_call(cfg));
    proof {
        lemma_assoc(start, a, n);
        lemma_assoc(start, a + n, w);
        lemma_assoc(start, a + n + w, exec_ops(*cfg));
    }
}

/// Appends the calls for identity, limits, devices and vsock ports.
fn push_devices(calls: &mut Vec<KrunCall>, cfg: &ShimConfig)
    ensures
        ops(final(calls)@) == ops(old(calls)@) + device_ops(*cfg),
{
    let ghost start = ops(calls@);
    let ghost u = if_set(cfg.uid, |u: u32| KrunOp::SetUid(u));
    let ghost g = if_set(cfg.gid, |g: u32| KrunOp::SetGid(g));
    let ghost r = rlimit_ops(*cfg);
    let ghost n = if_set(cfg.nested_virt, |b: bool| KrunOp::SetNestedVirt(b));
    let ghost s = if_set(cfg.snd_device, |b: bool| KrunOp::SetSndDevice(b));
    let ghost c = if_set(cfg.console_output, |p: String| KrunOp::SetConsoleOutput(p@));
    let uid: Option<KrunCall> = match cfg.uid {
        Some(uid) => Some(KrunCall::SetUid(uid)),
        None => None,
    };
    assert(if_set(uid, |c: KrunCall| c@) == u);
    push_some(calls, uid);
    let gid: Option<KrunCall> = match cfg.gid {
        Some(gid) => Some(KrunCall::SetGid(gid)),
        None => None,
    };
    assert(if_set(gid, |c: KrunCall| c@) == g);
    push_some(calls, gid);
    let rlimits: Option<KrunCall> = if cfg.rlimits.len() > 0 {
        Some(KrunCall::SetRlimits(text::clone_strings(&cfg.rlimits)))
    } else {
        None
    };
    assert(if_set(rlimits, |c: KrunCall| c@) == r);
    push_some(calls, rlimits);
    let nested: Option<KrunCall> = match cfg.nested_virt {
        Some(b) => Some(KrunCall::SetNestedVirt(b)),
        None => None,
    };
    assert(if_set(nested, |c: KrunCall| c@) == n);
    push_some(calls, nested);
    let snd: Option<KrunCall> = match cfg.snd_device {
        Some(b) => Some(KrunCall::SetSndDevice(b)),
        None => None,
    };
    assert(if_set(snd, |c: KrunCall| c@) == s);
    push_some(calls, snd);
    let console: Option<KrunCall> = match &cfg.console_output {
        Some(p) => Some(KrunCall::SetConsoleOutput(p.clone())),
        None => None,
    };
    assert(if_set(console, |c: KrunCall| c@) == c);
    push_some(calls, console);
    push_vsock(calls, &cfg.vsock_ports);
    proof {
        lemma_assoc(start, u, g);
        lemma_assoc(start, u + g, r);
        lemma_assoc(start, u + g + r, n);
        lemma_assoc(start, u + g + r + n, s);
        lemma_assoc(start, u + g + r + n + s, c);
        lemma_assoc(start, u + g + r + n + s + c, vsock_ops(cfg.vsock_ports@));
    }
}

/// Every call that a configuration comes to, in order. A configuration without
/// one single root filesystem is found out after processors and memory are set.
pub fn apply_all(cfg: &ShimConfig) -> (r: ApplyPlan)
    ensures
        ops(r.calls@) == config_ops(*cfg),
        text::opt_view(r.reject) == config_reject(*cfg),
{
    let mut calls: Vec<KrunCall> = Vec::new();
    assert(ops(calls@) =~= seq![]);
    match cfg.log_level {
        Some(level) => {
            push_call(&mut calls, KrunCall::SetLogLevel(level));
        },
        None => {},
    }
    push_call(&mut calls, KrunCall::SetVmConfig { vcpus: cfg.vcpus, ram_mib: cfg.ram_mib });
    assert(ops(calls@) =~= machine_ops(*cfg));
    match (&cfg.rootfs, &cfg.root_disk) {
        (Some(root), None) => {
            push_call(&mut calls, KrunCall::SetRoot(root.clone()));
        },
        (None, Some(disk)) => {
            push_call(
                &mut calls,
                KrunCall::AddDisk {
                    block_id: "rootfs".to_owned(),
                    path: disk.clone(),
                    format: cfg.disk_format,
                    read_only: false,
                },
            );
            push_call(
                &mut calls,
                KrunCall::SetRootDiskRemount {
                    device: "/dev/vda".to_owned(),
                    fstype: Some("ext4".to_owned()),
                    options: None,
                },
            );
        },
        (Some(_), Some(_)) => {
            return ApplyPlan {
                calls,
                reject: Some("ShimConfig: rootfs and root_disk are mutually exclusive".to_owned()),
            };
        },
        (None, None) => {
            return ApplyPlan {
                calls,
                reject: Some("ShimConfig: need rootfs or root_disk".to_owned()),
            };
        },
    }
    let ghost base = machine_ops(*cfg) + root_ops(*cfg)->Ok_0;
    assert(ops(calls@) =~= base);
    push_environment(&mut calls, cfg);
    push_devices(&mut calls, cfg);
    ApplyPlan { calls, reject: None }
}

/// Whether a call attaches a network backend.
pub open spec fn attaches_network(op: KrunOp) -> bool {
    op is AddNetUnixStream || op is AddNetUnixGram
}

/// A machine has a network backend or a port map, never both.
#[verifier::rlimit(40)]
pub proof fn law_network_excludes_port_map(cfg: ShimConfig, i: int, j: int)
    requires
        0 <= i < config_ops(cfg).len(),
        0 <= j < config_ops(cfg).len(),
        attaches_network(config_ops(cfg)[i]),
    ensures
        !(config_ops(cfg)[j] is SetPortMap),
        cfg.network is Some,
{
}

} // verus!
