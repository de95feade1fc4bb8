//! Starting a managed machine, from its settings to its record.

use vstd::prelude::*;
use crate::error::{Error, Fault, UnexpectedEvent};
use crate::path;
use crate::security::SecurityReport;
use crate::spawn;
use crate::spawn::{GuestBootConfig, GuestNetworkMode};
use crate::state::{DiskFormat, PublishedPort, Status, VmConfig, VmConfigV, VmState, VsockPort};
use crate::state;
use crate::text;

verus! {

/// How far a start has come.
#[derive(Debug, Clone, Copy, PartialEq, Eq, Structural)]
pub enum SpawnStage {
    /// The name is being looked up.
    NameLookup,
    /// An id is being made.
    MakingId,
    /// The guest agent is being looked for.
    FindingGuest,
    /// The guest agent is being put in the root directory.
    PuttingGuest,
    /// The overlay is being made.
    MakingOverlay,
    /// Secrets are being minted.
    Minting,
    /// The guest agent's settings are being encoded.
    Encoding,
    /// Ports are being resolved for the network backend.
    ResolvingPorts,
    /// The network backend is being started.
    StartingNetwork,
    /// Ports of a machine without a network backend are being checked.
    CheckingPorts,
    /// Live secrets are being kept.
    KeepingSecrets,
    /// The shim is being spawned.
    SpawningShim,
    /// The shim runs.
    Spawned,
    /// The start has failed.
    Failed,
}

/// What is to be started.
pub struct SpawnRequest {
    /// Configuration.
    pub config: VmConfig,
    /// Whether secrets are staged.
    pub staged_secrets: bool,
    /// Container image reference.
    pub image: Option<String>,
    /// Name that the machine is to have.
    pub name: Option<String>,
    /// Whether the machine is removed once it stops.
    pub auto_remove: bool,
    /// Whether the shim ends with this process.
    pub watch_parent: bool,
}

/// State of a start.
#[verifier::ext_equal]
pub struct SpawnState {
    pub stage: SpawnStage,
    pub name: Option<Seq<char>>,
    pub image: Option<Seq<char>>,
    pub auto_remove: bool,
    pub watch_parent: bool,
    pub staged: bool,
    pub socks_dir: Seq<char>,
    pub agent_port: u32,
    pub id: Seq<char>,
    pub guest: Seq<char>,
    pub pid: i32,
    pub config: VmConfigV,
}

/// Something to do during a start.
pub enum SpawnOp {
    LookUpName(Seq<char>),
    MakeId,
    FindGuest,
    PutGuest(Seq<char>),
    MakeOverlay(Seq<char>, DiskFormat),
    MintSecrets,
    EncodeBoot(Seq<char>, GuestNetworkMode, Option<Seq<char>>),
    ResolvePorts(Seq<Seq<char>>),
    StartNetwork(Seq<Seq<char>>),
    CheckPorts(Seq<Seq<char>>),
    KeepSecrets,
    SpawnShim(Seq<char>, bool),
    Record,
    StopNetworkAndFail(Fault),
    Fail(Fault),
}

/// What came of the last thing to do.
#[derive(Debug)]
pub enum SpawnEvent {
    /// Whether the name is taken.
    NameTaken(bool),
    /// The id.
    IdMade(String),
    /// Path of the guest agent in the guest.
    GuestFound(String),
    /// It was done.
    Done,
    /// Path of the overlay.
    OverlayMade(String),
    /// Certificate that the guest has to trust.
    SecretsMinted(String),
    /// The encoded settings, or why they could not be encoded.
    Encoded(Result<String, String>),
    /// Concrete ports, and what is published.
    PortsResolved {
        /// Concrete ports.
        ports: Vec<String>,
        /// Published ports.
        published: Vec<PublishedPort>,
    },
    /// The shim runs.
    ShimSpawned {
        /// Its process id.
        pid: i32,
        /// Isolation that was achieved.
        security: Option<SecurityReport>,
    },
    /// It failed.
    Failed(Error),
}

// ---------------------------------------------------------------------------
// The rule
// ---------------------------------------------------------------------------

/// Socket of a machine's guest agent.
pub open spec fn socket_path(socks_dir: Seq<char>, id: Seq<char>) -> Seq<char> {
    path::joined(socks_dir, id + ".sock"@)
}

/// Configuration file of a machine's shim.
pub open spec fn config_path(socks_dir: Seq<char>, id: Seq<char>) -> Seq<char> {
    path::joined(socks_dir, id + ".json"@)
}

/// Refusal of a name that is taken.
pub open spec fn name_fault(name: Seq<char>) -> Fault {
    Fault::Ambiguous("a VM named '"@ + name + "' already exists"@)
}

/// A failed start.
pub open spec fn failing(s: SpawnState, f: Fault) -> (SpawnState, SpawnOp) {
    (SpawnState { stage: SpawnStage::Failed, ..s }, SpawnOp::Fail(f))
}

/// Going on to encode the guest agent's settings.
pub open spec fn encoding(s: SpawnState, ca: Option<Seq<char>>) -> (SpawnState, SpawnOp) {
    (
        SpawnState { stage: SpawnStage::Encoding, ..s },
        SpawnOp::EncodeBoot(
            s.id,
            if s.config.virtio_net {
                GuestNetworkMode::Enabled
            } else {
                GuestNetworkMode::Disabled
            },
            ca,
        ),
    )
}

/// Deciding on secrets: they need a network backend.
pub open spec fn gated(s: SpawnState) -> (SpawnState, SpawnOp) {
    if s.staged && !s.config.virtio_net {
        failing(s, Fault::SecretsNeedVirtioNet)
    } else {
        let t = SpawnState {
            config: VmConfigV { secrets_required: s.staged, ..s.config },
            ..s
        };
        if s.staged {
            (SpawnState { stage: SpawnStage::Minting, ..t }, SpawnOp::MintSecrets)
        } else {
            encoding(t, None)
        }
    }
}

/// The configuration once the guest agent is in place.
pub open spec fn agent_config(s: SpawnState) -> VmConfigV {
    let c = spawn::settled(s.config, s.guest);
    VmConfigV {
        auto_remove: s.auto_remove,
        vsock_ports: c.vsock_ports.push((s.agent_port, socket_path(s.socks_dir, s.id), true)),
        ..c
    }
}

/// Going on once the guest agent is in place: a base disk gets an overlay.
pub open spec fn settling(s: SpawnState) -> (SpawnState, SpawnOp) {
    let t = SpawnState { config: agent_config(s), ..s };
    match t.config.base_disk {
        Some(base) => (
            SpawnState { stage: SpawnStage::MakingOverlay, ..t },
            SpawnOp::MakeOverlay(base, t.config.disk_format),
        ),
        None => gated(t),
    }
}

/// Going on to the shim.
pub open spec fn shimming(s: SpawnState) -> (SpawnState, SpawnOp) {
    (
        SpawnState { stage: SpawnStage::SpawningShim, ..s },
        SpawnOp::SpawnShim(config_path(s.socks_dir, s.id), s.watch_parent),
    )
}

/// Going on once ports and network are settled.
pub open spec fn networked(s: SpawnState) -> (SpawnState, SpawnOp) {
    if s.staged {
        (SpawnState { stage: SpawnStage::KeepingSecrets, ..s }, SpawnOp::KeepSecrets)
    } else {
        shimming(s)
    }
}

/// What an event leads to; `None` where it does not belong.
pub open spec fn next(s: SpawnState, e: SpawnEvent) -> Option<(SpawnState, SpawnOp)> {
    match (s.stage, e) {
        (SpawnStage::Spawned, _) | (SpawnStage::Failed, _) => None,
        (SpawnStage::SpawningShim, SpawnEvent::Failed(f)) => Some(
            (
                SpawnState { stage: SpawnStage::Failed, ..s },
                SpawnOp::StopNetworkAndFail(f@),
            ),
        ),
        (_, SpawnEvent::Failed(f)) => Some(failing(s, f@)),
        (SpawnStage::NameLookup, SpawnEvent::NameTaken(taken)) => match s.name {
            None => None,
            Some(n) => if taken {
                Some(failing(s, name_fault(n)))
            } else {
                Some((SpawnState { stage: SpawnStage::MakingId, ..s }, SpawnOp::MakeId))
            },
        },
        (SpawnStage::MakingId, SpawnEvent::IdMade(id)) => Some(
            (
                SpawnState { stage: SpawnStage::FindingGuest, id: id@, ..s },
                SpawnOp::FindGuest,
            ),
        ),
        (SpawnStage::FindingGuest, SpawnEvent::GuestFound(guest)) => {
            let t = SpawnState { guest: guest@, ..s };
            match spawn::managed_fault(s.config, guest@) {
                Some(f) => Some(failing(t, f)),
                None => match s.config.rootfs {
                    Some(root) => Some(
                        (
                            SpawnState { stage: SpawnStage::PuttingGuest, ..t },
                            SpawnOp::PutGuest(root),
                        ),
                    ),
                    None => Some(settling(t)),
                },
            }
        },
        (SpawnStage::PuttingGuest, SpawnEvent::Done) => Some(settling(s)),
        (SpawnStage::MakingOverlay, SpawnEvent::OverlayMade(overlay)) => Some(
            gated(
                SpawnState {
                    config: VmConfigV {
                        root_disk: Some(overlay@),
                        disk_format: DiskFormat::Qcow2,
                        base_disk: None,
                        ..s.config
                    },
                    ..s
                },
            ),
        ),
        (SpawnStage::Minting, SpawnEvent::SecretsMinted(ca)) => Some(encoding(s, Some(ca@))),
        (SpawnStage::Encoding, SpawnEvent::Encoded(encoded)) => match encoded {
            Err(m) => Some(failing(s, Fault::InvalidConfig(m@))),
            Ok(entry) => {
                let t = SpawnState { config: spawn::with_boot_env(s.config, entry@), ..s };
                if s.config.virtio_net {
                    Some(
                        (
                            SpawnState { stage: SpawnStage::ResolvingPorts, ..t },
                            SpawnOp::ResolvePorts(t.config.ports),
                        ),
                    )
                } else {
                    Some(
                        (
                            SpawnState { stage: SpawnStage::CheckingPorts, ..t },
                            SpawnOp::CheckPorts(t.config.ports),
                        ),
                    )
                }
            },
        },
        (SpawnStage::ResolvingPorts, SpawnEvent::PortsResolved { ports, published }) => Some(
            (
                SpawnState {
                    stage: SpawnStage::StartingNetwork,
                    config: VmConfigV {
                        ports: text::views(ports@),
                        published_ports: published@,
                        ..s.config
                    },
                    ..s
                },
                SpawnOp::StartNetwork(s.config.allow_net),
            ),
        ),
        (SpawnStage::StartingNetwork, SpawnEvent::Done) => Some(networked(s)),
        (SpawnStage::CheckingPorts, SpawnEvent::Done) => Some(
            networked(
                SpawnState {
                    config: VmConfigV { published_ports: seq![], ..s.config },
                    ..s
                },
            ),
        ),
        (SpawnStage::KeepingSecrets, SpawnEvent::Done) => Some(shimming(s)),
        (SpawnStage::SpawningShim, SpawnEvent::ShimSpawned { pid, security }) => Some(
            (
                SpawnState {
                    stage: SpawnStage::Spawned,
                    pid,
                    config: VmConfigV { security_status: security, ..s.config },
                    ..s
                },
                SpawnOp::Record,
            ),
        ),
        _ => None,
    }
}

/// Beginning of a start, and the first thing to do.
pub open spec fn starting(req: SpawnRequest, socks_dir: Seq<char>, agent_port: u32) -> (
    SpawnState,
    SpawnOp,
) {
    let s = SpawnState {
        stage: SpawnStage::MakingId,
        name: text::opt_view(req.name),
        image: text::opt_view(req.image),
        auto_remove: req.auto_remove,
        watch_parent: req.watch_parent,
        staged: req.staged_secrets,
        socks_dir,
        agent_port,
        id: seq![],
        guest: seq![],
        pid: 0,
        config: req.config@,
    };
    match s.name {
        Some(n) => (
            SpawnState { stage: SpawnStage::NameLookup, ..s },
            SpawnOp::LookUpName(n),
        ),
        None => (s, SpawnOp::MakeId),
    }
}

/// Whether a record is that of a machine that was started, made at the given
/// time.
pub open spec fn recorded(s: SpawnState, now: i128, vm: VmState) -> bool {
    &&& vm.id@ == s.id
    &&& text::opt_view(vm.name) == s.name
    &&& vm.pid == s.pid
    &&& text::opt_view(vm.image) == s.image
    &&& vm.socket@ == socket_path(s.socks_dir, s.id)
    &&& vm.status is Running
    &&& vm.config@ == s.config
    &&& vm.created_at == now
}

// ---------------------------------------------------------------------------
// The machine
// ---------------------------------------------------------------------------

/// What to do next.
#[derive(Debug)]
pub enum SpawnAction {
    /// Find out whether a machine has this name.
    LookUpName(String),
    /// Make a new id.
    MakeId,
    /// Find the guest agent.
    FindGuest,
    /// Put the guest agent in this root directory.
    PutGuest(String),
    /// Make an overlay on a base disk.
    MakeOverlay {
        /// Base disk.
        base: String,
        /// Its format.
        format: DiskFormat,
    },
    /// Mint live secrets from those that are staged.
    MintSecrets,
    /// Encode the guest agent's settings as an assignment.
    EncodeBoot(GuestBootConfig),
    /// Parse these port specifications and pick concrete ports.
    ResolvePorts(Vec<String>),
    /// Start the network backend, restricted to these hosts and networks.
    StartNetwork(Vec<String>),
    /// Check that these port specifications are concrete.
    CheckPorts(Vec<String>),
    /// Keep the live secrets in memory.
    KeepSecrets,
    /// Spawn the shim.
    SpawnShim {
        /// Where its configuration goes.
        config_path: String,
        /// Whether it ends with this process.
        watch_parent: bool,
    },
    /// Put the machine on record and announce it.
    Record,
    /// Stop the network backend, and give this failure back.
    StopNetworkAndFail(Error),
    /// Give this failure back.
    Fail(Error),
}

impl View for SpawnAction {
    type V = SpawnOp;

    open spec fn view(&self) -> SpawnOp {
        match *self {
            SpawnAction::LookUpName(n) => SpawnOp::LookUpName(n@),
            SpawnAction::MakeId => SpawnOp::MakeId,
            SpawnAction::FindGuest => SpawnOp::FindGuest,
            SpawnAction::PutGuest(root) => SpawnOp::PutGuest(root@),
            SpawnAction::MakeOverlay { base, format } => SpawnOp::MakeOverlay(base@, format),
            SpawnAction::MintSecrets => SpawnOp::MintSecrets,
            SpawnAction::EncodeBoot(g) => SpawnOp::EncodeBoot(
                g.vm_id@,
                g.network,
                text::opt_view(g.mitm_ca_pem),
            ),
            SpawnAction::ResolvePorts(p) => SpawnOp::ResolvePorts(text::views(p@)),
            SpawnAction::StartNetwork(a) => SpawnOp::StartNetwork(text::views(a@)),
            SpawnAction::CheckPorts(p) => SpawnOp::CheckPorts(text::views(p@)),
            SpawnAction::KeepSecrets => SpawnOp::KeepSecrets,
            SpawnAction::SpawnShim { config_path, watch_parent } => SpawnOp::SpawnShim(
                config_path@,
                watch_parent,
            ),
            SpawnAction::Record => SpawnOp::Record,
            SpawnAction::StopNetworkAndFail(e) => SpawnOp::StopNetworkAndFail(e@),
            SpawnAction::Fail(e) => SpawnOp::Fail(e@),
        }
    }
}

/// A start in progress.
pub struct Spawn {
    stage: SpawnStage,
    name: Option<String>,
    image: Option<String>,
    auto_remove: bool,
    watch_parent: bool,
    staged: bool,
    socks_dir: String,
    agent_port: u32,
    id: String,
    guest: String,
    pid: i32,
    config: VmConfig,
}

impl View for Spawn {
    type V = SpawnState;

    closed spec fn view(&self) -> SpawnState {
        SpawnState {
            stage: self.stage,
            name: text::opt_view(self.name),
            image: text::opt_view(self.image),
            auto_remove: self.auto_remove,
            watch_parent: self.watch_parent,
            staged: self.staged,
            socks_dir: self.socks_dir@,
            agent_port: self.agent_port,
            id: self.id@,
            guest: self.guest@,
            pid: self.pid,
            config: self.config@,
        }
    }
}

/// Refusal of a name that is taken.
pub fn name_taken(name: &str) -> (e: Error)
    ensures
        e@ == name_fault(name@),
{
    Error::Ambiguous(text::cat3("a VM named '", name, "' already exists"))
}

impl Spawn {
    /// Begins a start. Sockets are kept in `socks_dir`, and the guest agent
    /// listens on `agent_port`.
    pub fn new(req: SpawnRequest, socks_dir: &str, agent_port: u32) -> (r: (Spawn, SpawnAction))
        ensures
            (r.0@, r.1@) == starting(req, socks_dir@, agent_port),
    {
        let (stage, action) = match &req.name {
            Some(n) => (SpawnStage::NameLookup, SpawnAction::LookUpName(n.clone())),
            None => (SpawnStage::MakingId, SpawnAction::MakeId),
        };
        let id = String::new();
        let guest = String::new();
        assert(id@ =~= seq![]);
        assert(guest@ =~= seq![]);
        let s = Spawn {
            stage,
            name: req.name,
            image: req.image,
            auto_remove: req.auto_remove,
            watch_parent: req.watch_parent,
            staged: req.staged_secrets,
            socks_dir: socks_dir.to_owned(),
            agent_port,
            id,
            guest,
            pid: 0,
            config: req.config,
        };
        assert(s@ =~= starting(req, socks_dir@, agent_port).0);
        (s, action)
    }

    /// Configuration as it stands.
    pub fn config(&self) -> (r: &VmConfig)
        ensures
            r@ == self@.config,
    {
        &self.config
    }

    /// Id of the machine; empty until it is made.
    pub fn id(&self) -> (r: &str)
        ensures
            r@ == self@.id,
    {
        self.id.as_str()
    }

    fn fail(&mut self, e: Error) -> (a: SpawnAction)
        ensures
            (final(self)@, a@) == failing(old(self)@, e@),
    {
        self.stage = SpawnStage::Failed;
        SpawnAction::Fail(e)
    }

    fn encode(&mut self, ca: Option<String>) -> (a: SpawnAction)
        ensures
            (final(self)@, a@) == encoding(old(self)@, text::opt_view(ca)),
    {
        self.stage = SpawnStage::Encoding;
        SpawnAction::EncodeBoot(spawn::guest_boot_config(&self.config, self.id.as_str(), ca))
    }

    fn gate(&mut self) -> (a: SpawnAction)
        ensures
            (final(self)@, a@) == gated(old(self)@),
    {
        if self.staged && !self.config.virtio_net {
            return self.fail(Error::SecretsNeedVirtioNet);
        }
        self.config.secrets_required = self.staged;
        if self.staged {
            self.stage = SpawnStage::Minting;
            SpawnAction::MintSecrets
        } else {
            self.encode(None)
        }
    }

    fn settle(&mut self) -> (a: SpawnAction)
        ensures
            (final(self)@, a@) == settling(old(self)@),
    {
        let ghost start = self@;
        spawn::settle_managed_config(&mut self.config, self.guest.as_str());
        self.config.auto_remove = self.auto_remove;
        let file = text::cat2(self.id.as_str(), ".sock");
        let socket = path::join(self.socks_dir.as_str(), file.as_str());
        let ghost before = state::vsock_views(self.config.vsock_ports@);
        let ghost entry = (self.agent_port, socket@, true);
        self.config.vsock_ports.push(
            VsockPort { port: self.agent_port, path: socket, listen: true },
        );
        assert(state::vsock_views(self.config.vsock_ports@) =~= before.push(entry));
        assert(self.config@ =~= agent_config(start));
        match &self.config.base_disk {
            Some(base) => {
                let base = base.clone();
                self.stage = SpawnStage::MakingOverlay;
                SpawnAction::MakeOverlay { base, format: self.config.disk_format }
            },
            None => self.gate(),
        }
    }

    fn shim(&mut self) -> (a: SpawnAction)
        ensures
            (final(self)@, a@) == shimming(old(self)@),
    {
        self.stage = SpawnStage::SpawningShim;
        let file = text::cat2(self.id.as_str(), ".json");
        SpawnAction::SpawnShim {
            config_path: path::join(self.socks_dir.as_str(), file.as_str()),
            watch_parent: self.watch_parent,
        }
    }

    fn with_network(&mut self) -> (a: SpawnAction)
        ensures
            (final(self)@, a@) == networked(old(self)@),
    {
        if self.staged {
            self.stage = SpawnStage::KeepingSecrets;
            SpawnAction::KeepSecrets
        } else {
            self.shim()
        }
    }

    fn guest_found(&mut self, guest: String) -> (a: SpawnAction)
        requires
            old(self)@.stage == SpawnStage::FindingGuest,
        ensures
            next(old(self)@, SpawnEvent::GuestFound(guest)) == Some((final(self)@, a@)),
    {
        let checked = spawn::prepare_managed_config(&self.config, guest.as_str());
        self.guest = guest;
        match checked {
            Err(e) => self.fail(e),
            Ok(Some(root)) => {
                self.stage = SpawnStage::PuttingGuest;
                SpawnAction::PutGuest(root)
            },
            Ok(None) => self.settle(),
        }
    }

    fn overlay_made(&mut self, overlay: String) -> (a: SpawnAction)
        requires
            old(self)@.stage == SpawnStage::MakingOverlay,
        ensures
            next(old(self)@, SpawnEvent::OverlayMade(overlay)) == Some((final(self)@, a@)),
    {
        self.config.root_disk = Some(overlay);
        self.config.disk_format = DiskFormat::Qcow2;
        self.config.base_disk = None;
        self.gate()
    }

    fn encoded(&mut self, encoded: Result<String, String>) -> (a: SpawnAction)
        requires
            old(self)@.stage == SpawnStage::Encoding,
        ensures
            next(old(self)@, SpawnEvent::Encoded(encoded)) == Some((final(self)@, a@)),
    {
        match spawn::inject_guest_boot_env(&mut self.config, encoded) {
            Err(e) => self.fail(e),
            Ok(()) => {
                let ports = text::clone_strings(&self.config.ports);
                if self.config.virtio_net {
                    self.stage = SpawnStage::ResolvingPorts;
                    SpawnAction::ResolvePorts(ports)
                } else {
                    self.stage = SpawnStage::CheckingPorts;
                    SpawnAction::CheckPorts(ports)
                }
            },
        }
    }

    fn ports_resolved(&mut self, ports: Vec<String>, published: Vec<PublishedPort>) -> (a:
        SpawnAction)
        requires
            old(self)@.stage == SpawnStage::ResolvingPorts,
        ensures
            next(old(self)@, SpawnEvent::PortsResolved { ports, published }) == Some(
                (final(self)@, a@),
            ),
    {
        let allow_net = text::clone_strings(&self.config.allow_net);
        self.config.ports = ports;
        self.config.published_ports = published;
        self.stage = SpawnStage::StartingNetwork;
        SpawnAction::StartNetwork(allow_net)
    }

    fn ports_checked(&mut self) -> (a: SpawnAction)
        requires
            old(self)@.stage == SpawnStage::CheckingPorts,
        ensures
            next(old(self)@, SpawnEvent::Done) == Some((final(self)@, a@)),
    {
        self.config.published_ports = Vec::new();
        assert(self.config.published_ports@ =~= seq![]);
        self.with_network()
    }

    fn shim_spawned(&mut self, pid: i32, security: Option<SecurityReport>) -> (a: SpawnAction)
        requires
            old(self)@.stage == SpawnStage::SpawningShim,
        ensures
            next(old(self)@, SpawnEvent::ShimSpawned { pid, security }) == Some(
                (final(self)@, a@),
            ),
    {
        self.pid = pid;
        self.config.security_status = security;
        self.stage = SpawnStage::Spawned;
        SpawnAction::Record
    }

    /// Takes in what came of the last thing to do and says what to do next. An
    /// event that does not belong here changes nothing.
    #[verifier::rlimit(60)]
    pub fn step(&mut self, event: SpawnEvent) -> (r: Result<SpawnAction, UnexpectedEvent>)
        ensures
            match next(old(self)@, event) {
                Some((s, op)) => final(self)@ == s && (r matches Ok(a) && a@ == op),
                None => final(self)@ == old(self)@ && r is Err,
            },
    {
        match (self.stage, event) {
            (SpawnStage::Spawned, _) => Err(UnexpectedEvent),
            (SpawnStage::Failed, _) => Err(UnexpectedEvent),
            (SpawnStage::SpawningShim, SpawnEvent::Failed(e)) => {
                self.stage = SpawnStage::Failed;
                Ok(SpawnAction::StopNetworkAndFail(e))
            },
            (_, SpawnEvent::Failed(e)) => Ok(self.fail(e)),
            (SpawnStage::NameLookup, SpawnEvent::NameTaken(taken)) => {
                match &self.name {
                    None => Err(UnexpectedEvent),
                    Some(n) => {
                        if taken {
                            let e = name_taken(n.as_str());
                            Ok(self.fail(e))
                        } else {
                            self.stage = SpawnStage::MakingId;
                            Ok(SpawnAction::MakeId)
                        }
                    },
                }
            },
            (SpawnStage::MakingId, SpawnEvent::IdMade(id)) => {
                self.id = id;
                self.stage = SpawnStage::FindingGuest;
                Ok(SpawnAction::FindGuest)
            },
            (SpawnStage::FindingGuest, SpawnEvent::GuestFound(guest)) => Ok(
                self.guest_found(guest),
            ),
            (SpawnStage::PuttingGuest, SpawnEvent::Done) => Ok(self.settle()),
            (SpawnStage::MakingOverlay, SpawnEvent::OverlayMade(overlay)) => Ok(
                self.overlay_made(overlay),
            ),
            (SpawnStage::Minting, SpawnEvent::SecretsMinted(ca)) => Ok(self.encode(Some(ca))),
            (SpawnStage::Encoding, SpawnEvent::Encoded(encoded)) => Ok(self.encoded(encoded)),
            (SpawnStage::ResolvingPorts, SpawnEvent::PortsResolved { ports, published }) => Ok(
                self.ports_resolved(ports, published),
            ),
            (SpawnStage::StartingNetwork, SpawnEvent::Done) => Ok(self.with_network()),
            (SpawnStage::CheckingPorts, SpawnEvent::Done) => Ok(self.ports_checked()),
            (SpawnStage::KeepingSecrets, SpawnEvent::Done) => Ok(self.shim()),
            (SpawnStage::SpawningShim, SpawnEvent::ShimSpawned { pid, security }) => Ok(
                self.shim_spawned(pid, security),
            ),
            _ => Err(UnexpectedEvent),
        }
    }

    /// The machine's record, once its shim runs. `now` is the time in
    /// nanoseconds, counted from 1970.
    pub fn record(self, now: i128) -> (r: Option<VmState>)
        ensures
            r is Some <==> self@.stage == SpawnStage::Spawned,
            r matches Some(vm) ==> recorded(self@, now, vm),
    {
        match self.stage {
            SpawnStage::Spawned => {
                let file = text::cat2(self.id.as_str(), ".sock");
                let socket = path::join(self.socks_dir.as_str(), file.as_str());
                Some(
                    VmState {
                        id: self.id,
                        name: self.name,
                        pid: self.pid,
                        image: self.image,
                        socket,
                        status: Status::Running,
                        config: self.config,
                        created_at: now,
                    },
                )
            },
            _ => None,
        }
    }
}

// ---------------------------------------------------------------------------
// What every start keeps
// ---------------------------------------------------------------------------

/// State and everything to do after a run of events; `None` where an event did
/// not belong.
pub open spec fn run(
    req: SpawnRequest,
    socks_dir: Seq<char>,
    agent_port: u32,
    events: Seq<SpawnEvent>,
) -> Option<(SpawnState, Seq<SpawnOp>)>
    decreases events.len(),
{
    if events.len() == 0 {
        let (s, op) = starting(req, socks_dir, agent_port);
        Some((s, seq![op]))
    } else {
        match run(req, socks_dir, agent_port, events.drop_last()) {
            None => None,
            Some((s, done)) => match next(s, events.last()) {
                None => None,
                Some((t, op)) => Some((t, done.push(op))),
            },
        }
    }
}

/// Stages before the guest agent is in place.
pub open spec fn before_agent(stage: SpawnStage) -> bool {
    stage is NameLookup || stage is MakingId || stage is FindingGuest || stage is PuttingGuest
}

/// Stages after the decision on secrets.
pub open spec fn after_gate(stage: SpawnStage) -> bool {
    !before_agent(stage) && !(stage is MakingOverlay) && !(stage is Failed)
}

/// Stages after the guest agent's settings are in the boot environment.
pub open spec fn after_encoding(stage: SpawnStage) -> bool {
    after_gate(stage) && !(stage is Minting) && !(stage is Encoding)
}

/// Stages after ports and network are settled.
pub open spec fn after_network(stage: SpawnStage) -> bool {
    stage is KeepingSecrets || stage is SpawningShim || stage is Spawned
}

/// Whether a configuration boots the guest agent and nothing else, and keeps
/// what commands are to have.
pub open spec fn boots_agent(s: SpawnState, asked: VmConfigV) -> bool {
    let c = s.config;
    &&& c.exec_path == Some(s.guest)
    &&& c.exec_args.len() == 0
    &&& c.workdir is None && c.uid is None && c.gid is None
    &&& c.auto_remove == s.auto_remove
    &&& c.vsock_ports == asked.vsock_ports.push(
        (s.agent_port, socket_path(s.socks_dir, s.id), true),
    )
    &&& c.workload_env == spawn::routed(asked).workload_env
    &&& c.workload_workdir == spawn::routed(asked).workload_workdir
    &&& c.workload_user == spawn::routed(asked).workload_user
    &&& c.vcpus == asked.vcpus && c.ram_mib == asked.ram_mib
    &&& c.virtio_net == asked.virtio_net
    &&& c.allow_net == asked.allow_net
}

/// What holds in every stage of a start.
spec fn sound(s: SpawnState, req: SpawnRequest) -> bool {
    let asked = req.config@;
    &&& s.staged == req.staged_secrets
    &&& s.auto_remove == req.auto_remove
    &&& s.name == text::opt_view(req.name)
    &&& s.image == text::opt_view(req.image)
    &&& before_agent(s.stage) ==> s.config == asked
    &&& !before_agent(s.stage) && !(s.stage is Failed) ==> boots_agent(s, asked)
    &&& s.stage is MakingOverlay ==> asked.base_disk is Some
    &&& after_gate(s.stage) ==> {
        &&& s.config.secrets_required == s.staged
        &&& s.staged ==> s.config.virtio_net
        &&& s.config.base_disk is None
        &&& asked.base_disk is Some ==> s.config.root_disk is Some && s.config.disk_format
            == DiskFormat::Qcow2
    }
    &&& after_encoding(s.stage) ==> s.config.env is Some && s.config.env->0.len() == 1
    &&& s.stage is CheckingPorts ==> !s.config.virtio_net
    &&& s.stage is StartingNetwork || s.stage is ResolvingPorts ==> s.config.virtio_net
}

/// One step keeps what holds.
#[verifier::rlimit(40)]
proof fn lemma_step_sound(s: SpawnState, req: SpawnRequest, e: SpawnEvent)
    requires
        sound(s, req),
        next(s, e) is Some,
    ensures
        sound((next(s, e)->0).0, req),
{
}

/// Every run keeps what holds.
proof fn lemma_run_sound(
    req: SpawnRequest,
    socks_dir: Seq<char>,
    agent_port: u32,
    events: Seq<SpawnEvent>,
)
    ensures
        run(req, socks_dir, agent_port, events) matches Some((s, _)) ==> sound(s, req),
    decreases events.len(),
{
    if events.len() > 0 {
        lemma_run_sound(req, socks_dir, agent_port, events.drop_last());
        match run(req, socks_dir, agent_port, events.drop_last()) {
            Some((s, _)) => {
                if next(s, events.last()) is Some {
                    lemma_step_sound(s, req, events.last());
                }
            },
            None => {},
        }
    }
}

/// A machine whose shim runs boots the guest agent and nothing else: its boot
/// environment is the agent's settings alone, a base disk is only ever used
/// under an overlay, and what commands are to have is kept apart. It has the
/// name and image that were asked for, and is removed once it stops where that
/// was asked for.
pub proof fn law_spawned_machine_boots_the_agent(
    req: SpawnRequest,
    socks_dir: Seq<char>,
    agent_port: u32,
    events: Seq<SpawnEvent>,
)
    ensures
        run(req, socks_dir, agent_port, events) matches Some((s, _)) ==> s.stage is Spawned ==> {
            &&& boots_agent(s, req.config@)
            &&& s.name == text::opt_view(req.name)
            &&& s.image == text::opt_view(req.image)
            &&& s.config.auto_remove == req.auto_remove
            &&& s.config.env is Some && s.config.env->0.len() == 1
            &&& s.config.base_disk is None
            &&& req.config@.base_disk is Some ==> s.config.root_disk is Some
                && s.config.disk_format == DiskFormat::Qcow2
            &&& s.config.secrets_required == req.staged_secrets
        },
{
    lemma_run_sound(req, socks_dir, agent_port, events);
}

/// A machine with secrets and without a network backend is never started: no
/// secret is minted for it, no network is started and no shim is spawned.
#[verifier::rlimit(40)]
pub proof fn law_secrets_need_a_network(
    req: SpawnRequest,
    socks_dir: Seq<char>,
    agent_port: u32,
    events: Seq<SpawnEvent>,
)
    requires
        req.staged_secrets,
        !req.config@.virtio_net,
    ensures
        run(req, socks_dir, agent_port, events) matches Some((s, done)) ==> {
            &&& !after_gate(s.stage)
            &&& forall|i: int|
                0 <= i < done.len() ==> !(#[trigger] done[i] is MintSecrets) && !(done[i]
                    is KeepSecrets) && !(done[i] is StartNetwork) && !(done[i] is SpawnShim)
        },
    decreases events.len(),
{
    lemma_run_sound(req, socks_dir, agent_port, events);
    if events.len() > 0 {
        law_secrets_need_a_network(req, socks_dir, agent_port, events.drop_last());
        lemma_run_sound(req, socks_dir, agent_port, events.drop_last());
    }
}

/// What the network has to do with the things that were done.
spec fn network_in_order(s: SpawnState, done: Seq<SpawnOp>) -> bool {
    &&& done.len() > 0
    &&& after_network(s.stage) && s.config.virtio_net ==> exists|i: int|
        0 <= i < done.len() && #[trigger] done[i] is StartNetwork
    &&& s.stage is StartingNetwork ==> done.last() is StartNetwork
    &&& (exists|i: int| 0 <= i < done.len() && #[trigger] done[i] is SpawnShim) ==> s.stage
        is SpawningShim || s.stage is Spawned || (s.stage is Failed && done.last()
        is StopNetworkAndFail)
}

#[verifier::rlimit(40)]
proof fn lemma_network_in_order(
    req: SpawnRequest,
    socks_dir: Seq<char>,
    agent_port: u32,
    events: Seq<SpawnEvent>,
)
    ensures
        run(req, socks_dir, agent_port, events) matches Some((s, done)) ==> network_in_order(
            s,
            done,
        ),
    decreases events.len(),
{
    if events.len() > 0 {
        let before = events.drop_last();
        lemma_network_in_order(req, socks_dir, agent_port, before);
        lemma_run_sound(req, socks_dir, agent_port, before);
        match (run(req, socks_dir, agent_port, before), run(req, socks_dir, agent_port, events)) {
            (Some((s, done)), Some((t, more))) => {
                assert(more.drop_last() =~= done);
                assert(more.last() == (next(s, events.last())->0).1);
                if after_network(t.stage) && t.config.virtio_net {
                    if s.stage is StartingNetwork {
                        assert(more[done.len() - 1] is StartNetwork);
                    } else {
                        let i = choose|i: int|
                            0 <= i < done.len() && #[trigger] done[i] is StartNetwork;
                        assert(more[i] is StartNetwork);
                    }
                }
                if exists|i: int| 0 <= i < more.len() && #[trigger] more[i] is SpawnShim {
                    let i = choose|i: int| 0 <= i < more.len() && #[trigger] more[i] is SpawnShim;
                    if i < done.len() {
                        assert(done[i] is SpawnShim);
                    }
                }
            },
            _ => {},
        }
    }
}

/// Where the shim fails, the network that was started for it is stopped again;
/// and a shim of a machine with a network backend is only spawned once that
/// network runs.
pub proof fn law_failed_shim_leaves_no_network(
    req: SpawnRequest,
    socks_dir: Seq<char>,
    agent_port: u32,
    events: Seq<SpawnEvent>,
)
    ensures
        run(req, socks_dir, agent_port, events) matches Some((s, done)) ==> {
            &&& s.stage is SpawningShim && s.config.virtio_net ==> exists|i: int|
                0 <= i < done.len() && #[trigger] done[i] is StartNetwork
            &&& s.stage is Failed && (exists|i: int|
                0 <= i < done.len() && #[trigger] done[i] is SpawnShim) ==> done.last()
                is StopNetworkAndFail
        },
{
    lemma_network_in_order(req, socks_dir, agent_port, events);
}

/// Place of a thing to do in the order of a start: name, id, guest agent,
/// overlay, secrets, settings, ports, network, shim, record.
pub open spec fn place(op: SpawnOp) -> int {
    match op {
        SpawnOp::LookUpName(_) => 0,
        SpawnOp::MakeId => 1,
        SpawnOp::FindGuest => 2,
        SpawnOp::PutGuest(_) => 3,
        SpawnOp::MakeOverlay(_, _) => 4,
        SpawnOp::MintSecrets => 5,
        SpawnOp::EncodeBoot(_, _, _) => 6,
        SpawnOp::ResolvePorts(_) => 7,
        SpawnOp::CheckPorts(_) => 7,
        SpawnOp::StartNetwork(_) => 8,
        SpawnOp::KeepSecrets => 9,
        SpawnOp::SpawnShim(_, _) => 10,
        SpawnOp::Record => 11,
        SpawnOp::StopNetworkAndFail(_) => 11,
        SpawnOp::Fail(_) => 11,
    }
}

/// Place of the thing that a stage waits for.
pub open spec fn stage_place(stage: SpawnStage) -> int {
    match stage {
        SpawnStage::NameLookup => 0,
        SpawnStage::MakingId => 1,
        SpawnStage::FindingGuest => 2,
        SpawnStage::PuttingGuest => 3,
        SpawnStage::MakingOverlay => 4,
        SpawnStage::Minting => 5,
        SpawnStage::Encoding => 6,
        SpawnStage::ResolvingPorts => 7,
        SpawnStage::CheckingPorts => 7,
        SpawnStage::StartingNetwork => 8,
        SpawnStage::KeepingSecrets => 9,
        SpawnStage::SpawningShim => 10,
        SpawnStage::Spawned => 11,
        SpawnStage::Failed => 11,
    }
}

proof fn lemma_step_moves_on(s: SpawnState, e: SpawnEvent)
    requires
        next(s, e) is Some,
    ensures
        stage_place(s.stage) < place((next(s, e)->0).1),
        place((next(s, e)->0).1) == stage_place((next(s, e)->0).0.stage),
{
}

/// Whether things come in order, none of them twice.
pub open spec fn rising(done: Seq<SpawnOp>) -> bool {
    forall|i: int, j: int|
        0 <= i < j < done.len() ==> place(#[trigger] done[i]) < place(#[trigger] done[j])
}

/// A later thing may come next.
proof fn lemma_rising_push(done: Seq<SpawnOp>, op: SpawnOp)
    requires
        rising(done),
        done.len() > 0,
        place(done.last()) < place(op),
    ensures
        rising(done.push(op)),
{
    let more = done.push(op);
    assert forall|i: int, j: int| 0 <= i < j < more.len() implies place(#[trigger] more[i])
        < place(#[trigger] more[j]) by {
        let k = done.len() - 1;
        if j == done.len() && i < k {
            assert(place(done[i]) < place(done[k]));
        }
    }
}

/// The stages of a start come in order, and nothing is done twice.
#[verifier::rlimit(60)]
pub proof fn law_stages_come_in_order(
    req: SpawnRequest,
    socks_dir: Seq<char>,
    agent_port: u32,
    events: Seq<SpawnEvent>,
)
    ensures
        run(req, socks_dir, agent_port, events) matches Some((s, done)) ==> {
            &&& done.len() > 0
            &&& place(done.last()) == stage_place(s.stage)
            &&& rising(done)
        },
    decreases events.len(),
{
    if events.len() > 0 {
        let before = events.drop_last();
        law_stages_come_in_order(req, socks_dir, agent_port, before);
        match run(req, socks_dir, agent_port, before) {
            Some((s, done)) => {
                if next(s, events.last()) is Some {
                    lemma_step_moves_on(s, events.last());
                    lemma_rising_push(done, (next(s, events.last())->0).1);
                }
            },
            None => {},
        }
    }
}

/// A name that is taken ends the start before anything is made.
pub proof fn law_taken_name_makes_nothing(req: SpawnRequest, socks_dir: Seq<char>, agent_port: u32)
    requires
        req.name is Some,
    ensures
        run(req, socks_dir, agent_port, seq![SpawnEvent::NameTaken(true)]) matches Some((s, done))
            && s.stage is Failed && done == seq![
            SpawnOp::LookUpName(req.name->0@),
            SpawnOp::Fail(name_fault(req.name->0@)),
        ],
{
    let events = seq![SpawnEvent::NameTaken(true)];
    reveal_with_fuel(run, 2);
    assert(events.drop_last() =~= seq![]);
    assert(seq![SpawnOp::LookUpName(req.name->0@)].push(
        SpawnOp::Fail(name_fault(req.name->0@)),
    ) =~= seq![
        SpawnOp::LookUpName(req.name->0@),
        SpawnOp::Fail(name_fault(req.name->0@)),
    ]);
}

/// The files of a machine lie in the directory of sockets and bear its id: its
/// socket and its configuration differ in their ending alone.
pub proof fn law_files_bear_the_id(socks_dir: Seq<char>, id: Seq<char>)
    ensures
        socket_path(socks_dir, id) == path::joined(socks_dir, id + ".sock"@),
        config_path(socks_dir, id) == path::joined(socks_dir, id + ".json"@),
        socket_path(socks_dir, id) != config_path(socks_dir, id),
{
    reveal_strlit(".sock");
    reveal_strlit(".json");
    reveal_strlit("/");
    let a = id + ".sock"@;
    let b = id + ".json"@;
    let n = id.len() as int;
    assert(a[n + 1] == 's');
    assert(b[n + 1] == 'j');
    let p = path::joined(socks_dir, a);
    let q = path::joined(socks_dir, b);
    assert(a[0] == b[0]);
    let k = p.len() - a.len();
    assert(p[k + n + 1] == a[n + 1]);
    assert(q[k + n + 1] == b[n + 1]);
}

/// A name that is taken is named in the refusal.
pub proof fn law_taken_name_is_named(name: Seq<char>)
    ensures
        name_fault(name) == Fault::Ambiguous("a VM named '"@ + name + "' already exists"@),
{
}

} // verus!
