//! What the start of a machine takes from what it was given: the request and
//! the answers to what it asked for.

use vstd::prelude::*;
use crate::error::Fault;
use crate::path;
use crate::security::SecurityReport;
use crate::spawn;
use crate::spawn::GuestNetworkMode;
use crate::starting::{
    next, recorded, run, SpawnEvent, SpawnOp, SpawnRequest, SpawnStage, SpawnState,
};
use crate::state::{DiskFormat, PublishedPort, VmConfigV, VmState};
use crate::text;

verus! {

/// The id that was made last.
pub open spec fn made_id(events: Seq<SpawnEvent>) -> Option<Seq<char>>
    decreases events.len(),
{
    if events.len() == 0 {
        None
    } else {
        match events.last() {
            SpawnEvent::IdMade(id) => Some(id@),
            _ => made_id(events.drop_last()),
        }
    }
}

/// Where the guest agent was last found.
pub open spec fn found_guest(events: Seq<SpawnEvent>) -> Option<Seq<char>>
    decreases events.len(),
{
    if events.len() == 0 {
        None
    } else {
        match events.last() {
            SpawnEvent::GuestFound(g) => Some(g@),
            _ => found_guest(events.drop_last()),
        }
    }
}

/// The overlay that was made last.
pub open spec fn made_overlay(events: Seq<SpawnEvent>) -> Option<Seq<char>>
    decreases events.len(),
{
    if events.len() == 0 {
        None
    } else {
        match events.last() {
            SpawnEvent::OverlayMade(p) => Some(p@),
            _ => made_overlay(events.drop_last()),
        }
    }
}

/// The certificate that was minted last.
pub open spec fn minted(events: Seq<SpawnEvent>) -> Option<Seq<char>>
    decreases events.len(),
{
    if events.len() == 0 {
        None
    } else {
        match events.last() {
            SpawnEvent::SecretsMinted(ca) => Some(ca@),
            _ => minted(events.drop_last()),
        }
    }
}

/// The settings that were encoded last.
pub open spec fn encoded(events: Seq<SpawnEvent>) -> Option<Seq<char>>
    decreases events.len(),
{
    if events.len() == 0 {
        None
    } else {
        match events.last() {
            SpawnEvent::Encoded(Ok(entry)) => Some(entry@),
            _ => encoded(events.drop_last()),
        }
    }
}

/// The ports that were resolved last, and what is published.
pub open spec fn resolved(events: Seq<SpawnEvent>) -> Option<(Seq<String>, Seq<PublishedPort>)>
    decreases events.len(),
{
    if events.len() == 0 {
        None
    } else {
        match events.last() {
            SpawnEvent::PortsResolved { ports, published } => Some((ports@, published@)),
            _ => resolved(events.drop_last()),
        }
    }
}

/// Process and isolation of the shim that was started last.
pub open spec fn spawned(events: Seq<SpawnEvent>) -> Option<(i32, Option<SecurityReport>)>
    decreases events.len(),
{
    if events.len() == 0 {
        None
    } else {
        match events.last() {
            SpawnEvent::ShimSpawned { pid, security } => Some((pid, security)),
            _ => spawned(events.drop_last()),
        }
    }
}

spec fn agent_cfg(
    req: SpawnRequest,
    socks_dir: Seq<char>,
    agent_port: u32,
    events: Seq<SpawnEvent>,
) -> VmConfigV {
    let c = req.config@;
    let id = made_id(events)->0;
    VmConfigV {
        exec_path: found_guest(events),
        exec_args: seq![],
        env: None,
        workdir: None,
        uid: None,
        gid: None,
        workload_env: if c.env is Some && c.workload_env.len() == 0 {
            spawn::workload_only(c.env->0)
        } else {
            c.workload_env
        },
        workload_workdir: if c.workload_workdir is None {
            c.workdir
        } else {
            c.workload_workdir
        },
        workload_user: if c.workload_user is None {
            spawn::user_text(c.uid, c.gid)
        } else {
            c.workload_user
        },
        auto_remove: req.auto_remove,
        vsock_ports: c.vsock_ports.push((agent_port, path::joined(socks_dir, id + ".sock"@), true)),
        ..c
    }
}

spec fn gated_cfg(
    req: SpawnRequest,
    socks_dir: Seq<char>,
    agent_port: u32,
    events: Seq<SpawnEvent>,
) -> VmConfigV {
    let c = VmConfigV {
        secrets_required: req.staged_secrets,
        ..agent_cfg(req, socks_dir, agent_port, events)
    };
    if req.config@.base_disk is Some {
        VmConfigV {
            root_disk: made_overlay(events),
            disk_format: DiskFormat::Qcow2,
            base_disk: None,
            ..c
        }
    } else {
        c
    }
}

spec fn boot_cfg(
    req: SpawnRequest,
    socks_dir: Seq<char>,
    agent_port: u32,
    events: Seq<SpawnEvent>,
) -> VmConfigV {
    VmConfigV {
        env: Some(seq![encoded(events)->0]),
        ..gated_cfg(req, socks_dir, agent_port, events)
    }
}

spec fn net_cfg(
    req: SpawnRequest,
    socks_dir: Seq<char>,
    agent_port: u32,
    events: Seq<SpawnEvent>,
) -> VmConfigV {
    if req.config@.virtio_net {
        VmConfigV {
            ports: text::views((resolved(events)->0).0),
            published_ports: (resolved(events)->0).1,
            ..boot_cfg(req, socks_dir, agent_port, events)
        }
    } else {
        VmConfigV { published_ports: seq![], ..boot_cfg(req, socks_dir, agent_port, events) }
    }
}

/// Stages before the guest agent is in place.
spec fn early(stage: SpawnStage) -> bool {
    stage is NameLookup || stage is MakingId || stage is FindingGuest || stage is PuttingGuest
}

spec fn traced(
    s: SpawnState,
    req: SpawnRequest,
    socks_dir: Seq<char>,
    agent_port: u32,
    events: Seq<SpawnEvent>,
) -> bool {
    let c = req.config@;
    &&& s.name == text::opt_view(req.name)
    &&& s.image == text::opt_view(req.image)
    &&& s.auto_remove == req.auto_remove
    &&& s.watch_parent == req.watch_parent
    &&& s.staged == req.staged_secrets
    &&& s.socks_dir == socks_dir
    &&& s.agent_port == agent_port
    &&& made_id(events) is Some ==> s.id == made_id(events)->0
    &&& !(s.stage is NameLookup || s.stage is MakingId || s.stage is Failed) ==> made_id(
        events,
    ) is Some
    &&& s.stage is NameLookup ==> s.name is Some
    &&& s.stage is NameLookup || s.stage is MakingId ==> made_id(events) is None
    &&& found_guest(events) is Some ==> s.guest == found_guest(events)->0
    &&& s.stage is PuttingGuest || !early(s.stage) && !(s.stage is Failed) ==> found_guest(
        events,
    ) is Some
    &&& early(s.stage) ==> s.config == c
    &&& s.stage is PuttingGuest ==> c.rootfs is Some
    &&& s.stage is MakingOverlay ==> c.base_disk is Some && s.config == agent_cfg(
        req,
        socks_dir,
        agent_port,
        events,
    )
    &&& s.stage is Minting || s.stage is Encoding ==> s.config == gated_cfg(
        req,
        socks_dir,
        agent_port,
        events,
    )
    &&& !early(s.stage) && !(s.stage is MakingOverlay || s.stage is Failed) && c.base_disk is Some
        ==> made_overlay(events) is Some
    &&& s.stage is Minting ==> req.staged_secrets && c.virtio_net
    &&& s.stage is Encoding && req.staged_secrets ==> minted(events) is Some
    &&& s.stage is ResolvingPorts || s.stage is CheckingPorts ==> s.config == boot_cfg(
        req,
        socks_dir,
        agent_port,
        events,
    )
    &&& !early(s.stage) && !(s.stage is MakingOverlay || s.stage is Minting || s.stage is Encoding
        || s.stage is Failed) ==> encoded(events) is Some
    &&& s.stage is ResolvingPorts || s.stage is StartingNetwork ==> c.virtio_net
    &&& s.stage is CheckingPorts ==> !c.virtio_net
    &&& s.stage is StartingNetwork || s.stage is KeepingSecrets || s.stage is SpawningShim
        ==> s.config == net_cfg(req, socks_dir, agent_port, events)
    &&& (s.stage is StartingNetwork || s.stage is KeepingSecrets || s.stage is SpawningShim
        || s.stage is Spawned) && c.virtio_net ==> resolved(events) is Some
    &&& s.stage is KeepingSecrets ==> req.staged_secrets
    &&& s.stage is Spawned ==> {
        &&& spawned(events) is Some
        &&& s.pid == (spawned(events)->0).0
        &&& s.config == (VmConfigV {
            security_status: (spawned(events)->0).1,
            ..net_cfg(req, socks_dir, agent_port, events)
        })
    }
}

/// Whether a thing to do carries what it is about.
spec fn carries(
    op: SpawnOp,
    req: SpawnRequest,
    socks_dir: Seq<char>,
    events: Seq<SpawnEvent>,
) -> bool {
    let c = req.config@;
    match op {
        SpawnOp::LookUpName(n) => text::opt_view(req.name) == Some(n),
        SpawnOp::PutGuest(root) => c.rootfs == Some(root),
        SpawnOp::MakeOverlay(base, format) => c.base_disk == Some(base) && format == c.disk_format,
        SpawnOp::MintSecrets => req.staged_secrets && c.virtio_net,
        SpawnOp::EncodeBoot(id, mode, ca) => {
            &&& made_id(events) == Some(id)
            &&& mode is Enabled == c.virtio_net
            &&& ca is Some == req.staged_secrets
            &&& ca is Some ==> ca == minted(events)
        },
        SpawnOp::ResolvePorts(p) => c.virtio_net && p == c.ports,
        SpawnOp::StartNetwork(a) => c.virtio_net && a == c.allow_net,
        SpawnOp::CheckPorts(p) => !c.virtio_net && p == c.ports,
        SpawnOp::KeepSecrets => req.staged_secrets,
        SpawnOp::SpawnShim(p, watch) => {
            &&& watch == req.watch_parent
            &&& made_id(events) is Some
            &&& p == path::joined(socks_dir, made_id(events)->0 + ".json"@)
        },
        _ => true,
    }
}

/// Whether a failure is the one that an event stands for.
spec fn fails_with(op: SpawnOp, e: SpawnEvent, req: SpawnRequest) -> bool {
    let c = req.config@;
    match op {
        SpawnOp::Fail(f) => match e {
            SpawnEvent::Failed(x) => f == x@,
            SpawnEvent::NameTaken(taken) => taken && req.name is Some && f == Fault::Ambiguous(
                "a VM named '"@ + req.name->0@ + "' already exists"@,
            ),
            SpawnEvent::Encoded(Err(m)) => f == Fault::InvalidConfig(m@),
            SpawnEvent::GuestFound(g) => {
                ||| spawn::managed_fault(c, g@) == Some(f)
                ||| f is SecretsNeedVirtioNet && req.staged_secrets && !c.virtio_net
            },
            SpawnEvent::Done | SpawnEvent::OverlayMade(_) => f is SecretsNeedVirtioNet
                && req.staged_secrets && !c.virtio_net,
            _ => false,
        },
        SpawnOp::StopNetworkAndFail(f) => e matches SpawnEvent::Failed(x) && f == x@,
        _ => !(e is Failed),
    }
}

/// How far a stage has been come to in the right way.
spec fn come_to(s: SpawnState, to: SpawnStage, op: SpawnOp, req: SpawnRequest) -> bool {
    let c = req.config@;
    &&& early(s.stage) && !early(to) && !(to is Failed) ==> {
        ||| s.stage is PuttingGuest
        ||| s.stage is FindingGuest && c.rootfs is None
    }
    &&& to is PuttingGuest ==> op is PutGuest
    &&& to is Minting ==> op is MintSecrets
    &&& to is Encoding && req.staged_secrets ==> s.stage is Minting
    &&& to is StartingNetwork ==> op is StartNetwork
    &&& (to is KeepingSecrets || to is SpawningShim) && c.virtio_net ==> s.stage
        is StartingNetwork || s.stage is KeepingSecrets
    &&& to is KeepingSecrets ==> op is KeepSecrets
    &&& to is SpawningShim && req.staged_secrets ==> s.stage is KeepingSecrets
    &&& to is Spawned ==> s.stage is SpawningShim && op is Record
    &&& s.stage is StartingNetwork || s.stage is KeepingSecrets || s.stage is SpawningShim
        ==> to is KeepingSecrets || to is SpawningShim || to is Spawned || to is Failed
    &&& to is FindingGuest ==> s.stage is MakingId
    &&& to is MakingId ==> s.stage is NameLookup
}

#[verifier::spinoff_prover]
proof fn lemma_step_traced_id(
    s: SpawnState,
    req: SpawnRequest,
    socks_dir: Seq<char>,
    agent_port: u32,
    events: Seq<SpawnEvent>,
)
    requires
        events.len() > 0,
        traced(s, req, socks_dir, agent_port, events.drop_last()),
        next(s, events.last()) is Some,
        s.stage is NameLookup || s.stage is MakingId,
    ensures
        traced((next(s, events.last())->0).0, req, socks_dir, agent_port, events),
        carries((next(s, events.last())->0).1, req, socks_dir, events),
        fails_with((next(s, events.last())->0).1, events.last(), req),
        come_to(s, (next(s, events.last())->0).0.stage, (next(s, events.last())->0).1, req),
{
}

#[verifier::spinoff_prover]
proof fn lemma_step_traced_guest(
    s: SpawnState,
    req: SpawnRequest,
    socks_dir: Seq<char>,
    agent_port: u32,
    events: Seq<SpawnEvent>,
)
    requires
        events.len() > 0,
        traced(s, req, socks_dir, agent_port, events.drop_last()),
        next(s, events.last()) is Some,
        s.stage is FindingGuest,
    ensures
        traced((next(s, events.last())->0).0, req, socks_dir, agent_port, events),
        carries((next(s, events.last())->0).1, req, socks_dir, events),
        fails_with((next(s, events.last())->0).1, events.last(), req),
        come_to(s, (next(s, events.last())->0).0.stage, (next(s, events.last())->0).1, req),
{
}

#[verifier::spinoff_prover]
proof fn lemma_step_traced_put(
    s: SpawnState,
    req: SpawnRequest,
    socks_dir: Seq<char>,
    agent_port: u32,
    events: Seq<SpawnEvent>,
)
    requires
        events.len() > 0,
        traced(s, req, socks_dir, agent_port, events.drop_last()),
        next(s, events.last()) is Some,
        s.stage is PuttingGuest,
    ensures
        traced((next(s, events.last())->0).0, req, socks_dir, agent_port, events),
        carries((next(s, events.last())->0).1, req, socks_dir, events),
        fails_with((next(s, events.last())->0).1, events.last(), req),
        come_to(s, (next(s, events.last())->0).0.stage, (next(s, events.last())->0).1, req),
{
}

#[verifier::spinoff_prover]
proof fn lemma_step_traced_overlay(
    s: SpawnState,
    req: SpawnRequest,
    socks_dir: Seq<char>,
    agent_port: u32,
    events: Seq<SpawnEvent>,
)
    requires
        events.len() > 0,
        traced(s, req, socks_dir, agent_port, events.drop_last()),
        next(s, events.last()) is Some,
        s.stage is MakingOverlay,
    ensures
        traced((next(s, events.last())->0).0, req, socks_dir, agent_port, events),
        carries((next(s, events.last())->0).1, req, socks_dir, events),
        fails_with((next(s, events.last())->0).1, events.last(), req),
        come_to(s, (next(s, events.last())->0).0.stage, (next(s, events.last())->0).1, req),
{
}

#[verifier::spinoff_prover]
proof fn lemma_step_traced_minting(
    s: SpawnState,
    req: SpawnRequest,
    socks_dir: Seq<char>,
    agent_port: u32,
    events: Seq<SpawnEvent>,
)
    requires
        events.len() > 0,
        traced(s, req, socks_dir, agent_port, events.drop_last()),
        next(s, events.last()) is Some,
        s.stage is Minting,
    ensures
        traced((next(s, events.last())->0).0, req, socks_dir, agent_port, events),
        carries((next(s, events.last())->0).1, req, socks_dir, events),
        fails_with((next(s, events.last())->0).1, events.last(), req),
        come_to(s, (next(s, events.last())->0).0.stage, (next(s, events.last())->0).1, req),
{
}

#[verifier::spinoff_prover]
proof fn lemma_step_traced_encoding(
    s: SpawnState,
    req: SpawnRequest,
    socks_dir: Seq<char>,
    agent_port: u32,
    events: Seq<SpawnEvent>,
)
    requires
        events.len() > 0,
        traced(s, req, socks_dir, agent_port, events.drop_last()),
        next(s, events.last()) is Some,
        s.stage is Encoding,
    ensures
        traced((next(s, events.last())->0).0, req, socks_dir, agent_port, events),
        carries((next(s, events.last())->0).1, req, socks_dir, events),
        fails_with((next(s, events.last())->0).1, events.last(), req),
        come_to(s, (next(s, events.last())->0).0.stage, (next(s, events.last())->0).1, req),
{
}

#[verifier::spinoff_prover]
proof fn lemma_step_traced_ports(
    s: SpawnState,
    req: SpawnRequest,
    socks_dir: Seq<char>,
    agent_port: u32,
    events: Seq<SpawnEvent>,
)
    requires
        events.len() > 0,
        traced(s, req, socks_dir, agent_port, events.drop_last()),
        next(s, events.last()) is Some,
        s.stage is ResolvingPorts || s.stage is CheckingPorts,
    ensures
        traced((next(s, events.last())->0).0, req, socks_dir, agent_port, events),
        carries((next(s, events.last())->0).1, req, socks_dir, events),
        fails_with((next(s, events.last())->0).1, events.last(), req),
        come_to(s, (next(s, events.last())->0).0.stage, (next(s, events.last())->0).1, req),
{
}

#[verifier::spinoff_prover]
proof fn lemma_step_traced_network(
    s: SpawnState,
    req: SpawnRequest,
    socks_dir: Seq<char>,
    agent_port: u32,
    events: Seq<SpawnEvent>,
)
    requires
        events.len() > 0,
        traced(s, req, socks_dir, agent_port, events.drop_last()),
        next(s, events.last()) is Some,
        s.stage is StartingNetwork || s.stage is KeepingSecrets,
    ensures
        traced((next(s, events.last())->0).0, req, socks_dir, agent_port, events),
        carries((next(s, events.last())->0).1, req, socks_dir, events),
        fails_with((next(s, events.last())->0).1, events.last(), req),
        come_to(s, (next(s, events.last())->0).0.stage, (next(s, events.last())->0).1, req),
{
}

#[verifier::spinoff_prover]
proof fn lemma_step_traced_shim(
    s: SpawnState,
    req: SpawnRequest,
    socks_dir: Seq<char>,
    agent_port: u32,
    events: Seq<SpawnEvent>,
)
    requires
        events.len() > 0,
        traced(s, req, socks_dir, agent_port, events.drop_last()),
        next(s, events.last()) is Some,
        s.stage is SpawningShim,
    ensures
        traced((next(s, events.last())->0).0, req, socks_dir, agent_port, events),
        carries((next(s, events.last())->0).1, req, socks_dir, events),
        fails_with((next(s, events.last())->0).1, events.last(), req),
        come_to(s, (next(s, events.last())->0).0.stage, (next(s, events.last())->0).1, req),
{
}

proof fn lemma_step_traced(
    s: SpawnState,
    req: SpawnRequest,
    socks_dir: Seq<char>,
    agent_port: u32,
    events: Seq<SpawnEvent>,
)
    requires
        events.len() > 0,
        traced(s, req, socks_dir, agent_port, events.drop_last()),
        next(s, events.last()) is Some,
    ensures
        traced((next(s, events.last())->0).0, req, socks_dir, agent_port, events),
        carries((next(s, events.last())->0).1, req, socks_dir, events),
        fails_with((next(s, events.last())->0).1, events.last(), req),
        come_to(s, (next(s, events.last())->0).0.stage, (next(s, events.last())->0).1, req),
{
    match s.stage {
        SpawnStage::NameLookup => lemma_step_traced_id(s, req, socks_dir, agent_port, events),
        SpawnStage::MakingId => lemma_step_traced_id(s, req, socks_dir, agent_port, events),
        SpawnStage::FindingGuest => lemma_step_traced_guest(s, req, socks_dir, agent_port, events),
        SpawnStage::PuttingGuest => lemma_step_traced_put(s, req, socks_dir, agent_port, events),
        SpawnStage::MakingOverlay => lemma_step_traced_overlay(s, req, socks_dir, agent_port, events),
        SpawnStage::Minting => lemma_step_traced_minting(s, req, socks_dir, agent_port, events),
        SpawnStage::Encoding => lemma_step_traced_encoding(s, req, socks_dir, agent_port, events),
        SpawnStage::ResolvingPorts => lemma_step_traced_ports(s, req, socks_dir, agent_port, events),
        SpawnStage::CheckingPorts => lemma_step_traced_ports(s, req, socks_dir, agent_port, events),
        SpawnStage::StartingNetwork => lemma_step_traced_network(s, req, socks_dir, agent_port, events),
        SpawnStage::KeepingSecrets => lemma_step_traced_network(s, req, socks_dir, agent_port, events),
        SpawnStage::SpawningShim => lemma_step_traced_shim(s, req, socks_dir, agent_port, events),
        SpawnStage::Spawned => {},
        SpawnStage::Failed => {},
    }
}

proof fn lemma_traced(
    req: SpawnRequest,
    socks_dir: Seq<char>,
    agent_port: u32,
    events: Seq<SpawnEvent>,
)
    ensures
        run(req, socks_dir, agent_port, events) matches Some((s, done)) ==> {
            &&& traced(s, req, socks_dir, agent_port, events)
            &&& done.len() > 0
            &&& carries(done.last(), req, socks_dir, events)
            &&& events.len() > 0 ==> fails_with(done.last(), events.last(), req)
        },
    decreases events.len(),
{
    if events.len() > 0 {
        let before = events.drop_last();
        lemma_traced(req, socks_dir, agent_port, before);
        match run(req, socks_dir, agent_port, before) {
            Some((s, done)) => {
                if next(s, events.last()) is Some {
                    lemma_step_traced(s, req, socks_dir, agent_port, events);
                    let op = (next(s, events.last())->0).1;
                    assert(done.push(op).last() == op);
                }
            },
            None => {},
        }
    }
}

/// A shim watches the process that starts it exactly where the request says
/// so, and is given the configuration file of its own machine.
pub proof fn law_shim_watches_as_asked(
    req: SpawnRequest,
    socks_dir: Seq<char>,
    agent_port: u32,
    events: Seq<SpawnEvent>,
)
    ensures
        run(req, socks_dir, agent_port, events) matches Some((s, done)) ==> forall|i: int|
            0 <= i < done.len() ==> (#[trigger] done[i] matches SpawnOp::SpawnShim(p, watch) ==> {
                &&& watch == req.watch_parent
                &&& made_id(events) is Some
                &&& p == path::joined(socks_dir, made_id(events)->0 + ".json"@)
            }),
    decreases events.len(),
{
    lemma_traced(req, socks_dir, agent_port, events);
    if events.len() > 0 {
        let before = events.drop_last();
        law_shim_watches_as_asked(req, socks_dir, agent_port, before);
        lemma_traced(req, socks_dir, agent_port, before);
        match run(req, socks_dir, agent_port, before) {
            Some((s, done)) => {
                if next(s, events.last()) is Some {
                    lemma_ids_do_not_change(s, req, socks_dir, agent_port, events);
                    let more = (run(req, socks_dir, agent_port, events)->0).1;
                    assert forall|i: int| 0 <= i < more.len() implies (
                    #[trigger] more[i] matches SpawnOp::SpawnShim(p, watch) ==> {
                        &&& watch == req.watch_parent
                        &&& made_id(events) is Some
                        &&& p == path::joined(socks_dir, made_id(events)->0 + ".json"@)
                    }) by {
                        if i < done.len() {
                            assert(more[i] == done[i]);
                        } else {
                            assert(more[i] == more.last());
                        }
                    }
                }
            },
            None => {},
        }
    } else {
        let done = (run(req, socks_dir, agent_port, events)->0).1;
        assert(done.len() == 1);
        assert(done[0] == done.last());
    }
}

/// A machine has one id from the time it is made.
proof fn lemma_ids_do_not_change(
    s: SpawnState,
    req: SpawnRequest,
    socks_dir: Seq<char>,
    agent_port: u32,
    events: Seq<SpawnEvent>,
)
    requires
        events.len() > 0,
        traced(s, req, socks_dir, agent_port, events.drop_last()),
        next(s, events.last()) is Some,
    ensures
        made_id(events.drop_last()) is Some ==> made_id(events) == made_id(events.drop_last()),
{
    lemma_step_traced(s, req, socks_dir, agent_port, events);
}

/// Whatever is asked for carries what it is about: the name, root directory,
/// base disk with its format, ports and allowed hosts of the request; the id
/// that was made; and the certificate that was minted, where there are secrets.
/// What belongs to a network backend is asked for only with one.
pub proof fn law_tasks_carry_what_was_given(
    req: SpawnRequest,
    socks_dir: Seq<char>,
    agent_port: u32,
    events: Seq<SpawnEvent>,
)
    ensures
        run(req, socks_dir, agent_port, events) matches Some((s, done)) ==> match done.last() {
            SpawnOp::LookUpName(n) => req.name is Some && req.name->0@ == n,
            SpawnOp::PutGuest(root) => req.config@.rootfs == Some(root),
            SpawnOp::MakeOverlay(base, format) => req.config@.base_disk == Some(base) && format
                == req.config@.disk_format,
            SpawnOp::MintSecrets => req.staged_secrets && req.config@.virtio_net,
            SpawnOp::EncodeBoot(id, mode, ca) => {
                &&& made_id(events) == Some(id)
                &&& mode is Enabled == req.config@.virtio_net
                &&& ca is Some == req.staged_secrets
                &&& ca is Some ==> ca == minted(events)
            },
            SpawnOp::ResolvePorts(p) => req.config@.virtio_net && p == req.config@.ports,
            SpawnOp::StartNetwork(a) => req.config@.virtio_net && a == req.config@.allow_net,
            SpawnOp::CheckPorts(p) => !req.config@.virtio_net && p == req.config@.ports,
            SpawnOp::KeepSecrets => req.staged_secrets,
            SpawnOp::SpawnShim(p, watch) => watch == req.watch_parent && made_id(events) is Some
                && p == path::joined(socks_dir, made_id(events)->0 + ".json"@),
            _ => true,
        },
{
    lemma_traced(req, socks_dir, agent_port, events);
}

/// A start that fails gives back the failure that it met: that of what it asked
/// for, that its name is taken, that its settings could not be encoded, what is
/// wrong with its configuration, or secrets without a network.
pub proof fn law_failures_are_given_back(
    req: SpawnRequest,
    socks_dir: Seq<char>,
    agent_port: u32,
    events: Seq<SpawnEvent>,
)
    requires
        events.len() > 0,
    ensures
        run(req, socks_dir, agent_port, events) matches Some((s, done)) ==> {
            &&& events.last() matches SpawnEvent::Failed(x) ==> done.last() == SpawnOp::Fail(x@)
                || done.last() == SpawnOp::StopNetworkAndFail(x@)
            &&& done.last() is StopNetworkAndFail ==> events.last() is Failed
            &&& done.last() matches SpawnOp::Fail(f) ==> match events.last() {
                SpawnEvent::Failed(_) => true,
                SpawnEvent::NameTaken(taken) => taken && req.name is Some && f == Fault::Ambiguous(
                    "a VM named '"@ + req.name->0@ + "' already exists"@,
                ),
                SpawnEvent::Encoded(Err(m)) => f == Fault::InvalidConfig(m@),
                SpawnEvent::GuestFound(g) => {
                    ||| req.config@.exec_path is Some && req.config@.exec_path->0 != g@ && f
                        is InvalidConfig
                    ||| req.config@.root_disk is Some && req.config@.rootfs is None
                        && req.config@.base_disk is None && f is InvalidConfig
                    ||| f is SecretsNeedVirtioNet && req.staged_secrets && !req.config@.virtio_net
                },
                SpawnEvent::Done | SpawnEvent::OverlayMade(_) => f is SecretsNeedVirtioNet
                    && req.staged_secrets && !req.config@.virtio_net,
                _ => false,
            }
        },
{
    lemma_traced(req, socks_dir, agent_port, events);
}

/// A machine that runs is the one that was asked for. Its id, process and
/// achieved isolation are those it was given on the way; it boots the guest
/// agent alone, with the encoded settings alone; it boots from the overlay of
/// its base disk, where it has one; the agent listens on its own socket beside
/// what the request connects; with a network it has the ports that were
/// resolved; and every other setting is that of the request.
pub proof fn law_spawned_machine_has_each_setting(
    req: SpawnRequest,
    socks_dir: Seq<char>,
    agent_port: u32,
    events: Seq<SpawnEvent>,
)
    ensures
        run(req, socks_dir, agent_port, events) matches Some((s, _)) ==> s.stage is Spawned ==> {
            let c = s.config;
            let r = req.config@;
            &&& made_id(events) == Some(s.id)
            &&& s.name is Some == req.name is Some
            &&& s.name is Some ==> s.name->0 == req.name->0@
            &&& s.image is Some == req.image is Some
            &&& s.image is Some ==> s.image->0 == req.image->0@
            &&& spawned(events) == Some((s.pid, c.security_status))
            &&& c.exec_path is Some && c.exec_path == found_guest(events)
            &&& c.exec_args.len() == 0
            &&& encoded(events) is Some && c.env == Some(seq![encoded(events)->0])
            &&& c.workdir is None && c.uid is None && c.gid is None
            &&& c.auto_remove == req.auto_remove
            &&& c.secrets_required == req.staged_secrets
            &&& c.vsock_ports == r.vsock_ports.push(
                (agent_port, path::joined(socks_dir, s.id + ".sock"@), true),
            )
            &&& c.base_disk is None
            &&& r.base_disk is Some ==> c.root_disk is Some && c.root_disk == made_overlay(events)
                && c.disk_format is Qcow2
            &&& r.base_disk is None ==> c.root_disk == r.root_disk && c.disk_format
                == r.disk_format
            &&& !r.virtio_net ==> c.ports == r.ports && c.published_ports.len() == 0
            &&& r.virtio_net ==> (resolved(events) matches Some((ports, published))
                && c.published_ports == published && c.ports.len() == ports.len() && forall|i: int|
                0 <= i < ports.len() ==> #[trigger] c.ports[i] == ports[i]@)
            &&& r.workload_user is Some ==> c.workload_user == r.workload_user
            &&& r.workload_workdir is Some ==> c.workload_workdir == r.workload_workdir
            &&& r.workload_workdir is None ==> c.workload_workdir == r.workdir
            &&& r.env is None || r.workload_env.len() > 0 ==> c.workload_env == r.workload_env
            &&& c.vcpus == r.vcpus
            &&& c.ram_mib == r.ram_mib
            &&& c.rootfs == r.rootfs
            &&& c.allow_net == r.allow_net
            &&& c.virtiofs == r.virtiofs
            &&& c.log_level == r.log_level
            &&& c.rlimits == r.rlimits
            &&& c.nested_virt == r.nested_virt
            &&& c.snd_device == r.snd_device
            &&& c.console_output == r.console_output
            &&& c.virtio_net == r.virtio_net
            &&& c.security == r.security
            &&& c.auto_stop_secs == r.auto_stop_secs
            &&& c.auto_delete_secs == r.auto_delete_secs
            &&& c.last_activity_at == r.last_activity_at
            &&& c.last_error == r.last_error
        },
{
    lemma_traced(req, socks_dir, agent_port, events);
}

/// Whether the guest agent is put in the root directory.
pub open spec fn puts_guest(done: Seq<SpawnOp>) -> bool {
    exists|i: int| 0 <= i < done.len() && #[trigger] done[i] is PutGuest
}

/// Whether secrets are minted.
pub open spec fn mints_secrets(done: Seq<SpawnOp>) -> bool {
    exists|i: int| 0 <= i < done.len() && #[trigger] done[i] is MintSecrets
}

/// Whether secrets are kept.
pub open spec fn keeps_secrets(done: Seq<SpawnOp>) -> bool {
    exists|i: int| 0 <= i < done.len() && #[trigger] done[i] is KeepSecrets
}

/// Whether the network backend is started.
pub open spec fn starts_network(done: Seq<SpawnOp>) -> bool {
    exists|i: int| 0 <= i < done.len() && #[trigger] done[i] is StartNetwork
}

proof fn lemma_push_keeps(done: Seq<SpawnOp>, op: SpawnOp)
    ensures
        puts_guest(done) || op is PutGuest ==> puts_guest(done.push(op)),
        mints_secrets(done) || op is MintSecrets ==> mints_secrets(done.push(op)),
        keeps_secrets(done) || op is KeepSecrets ==> keeps_secrets(done.push(op)),
        starts_network(done) || op is StartNetwork ==> starts_network(done.push(op)),
{
    let more = done.push(op);
    assert(more[done.len() as int] == op);
    assert forall|i: int| 0 <= i < done.len() implies more[i] == #[trigger] done[i] by {}
    if puts_guest(done) {
        let i = choose|i: int| 0 <= i < done.len() && #[trigger] done[i] is PutGuest;
        assert(more[i] is PutGuest);
    }
    if mints_secrets(done) {
        let i = choose|i: int| 0 <= i < done.len() && #[trigger] done[i] is MintSecrets;
        assert(more[i] is MintSecrets);
    }
    if keeps_secrets(done) {
        let i = choose|i: int| 0 <= i < done.len() && #[trigger] done[i] is KeepSecrets;
        assert(more[i] is KeepSecrets);
    }
    if starts_network(done) {
        let i = choose|i: int| 0 <= i < done.len() && #[trigger] done[i] is StartNetwork;
        assert(more[i] is StartNetwork);
    }
}

/// Before a shim is started the guest agent is in the root directory, where
/// there is one; the network backend runs, where there is to be one; and
/// secrets, where there are any, are minted and kept.
pub proof fn law_shim_finds_everything_in_place(
    req: SpawnRequest,
    socks_dir: Seq<char>,
    agent_port: u32,
    events: Seq<SpawnEvent>,
)
    ensures
        run(req, socks_dir, agent_port, events) matches Some((s, done)) ==> (s.stage is SpawningShim
            || s.stage is Spawned) ==> {
            &&& req.config@.rootfs is Some ==> puts_guest(done)
            &&& req.config@.virtio_net ==> starts_network(done)
            &&& req.staged_secrets ==> mints_secrets(done) && keeps_secrets(done)
        },
{
    lemma_in_place(req, socks_dir, agent_port, events);
}

/// What is in place at a stage.
spec fn in_place(s: SpawnState, done: Seq<SpawnOp>, req: SpawnRequest) -> bool {
    &&& (s.stage is PuttingGuest || !early(s.stage) && !(s.stage is Failed))
        && req.config@.rootfs is Some ==> puts_guest(done)
    &&& (s.stage is Minting || s.stage is Encoding || s.stage is ResolvingPorts || s.stage
        is CheckingPorts || s.stage is StartingNetwork || s.stage is KeepingSecrets || s.stage
        is SpawningShim || s.stage is Spawned) && req.staged_secrets ==> mints_secrets(done)
    &&& (s.stage is StartingNetwork || s.stage is KeepingSecrets || s.stage is SpawningShim
        || s.stage is Spawned) && req.config@.virtio_net ==> starts_network(done)
    &&& (s.stage is KeepingSecrets || s.stage is SpawningShim || s.stage is Spawned)
        && req.staged_secrets ==> keeps_secrets(done)
}

/// Which stages follow which.
spec fn follows(from: SpawnStage, to: SpawnStage) -> bool {
    match to {
        SpawnStage::NameLookup => false,
        SpawnStage::MakingId => from is NameLookup,
        SpawnStage::FindingGuest => from is MakingId,
        SpawnStage::PuttingGuest => from is FindingGuest,
        SpawnStage::MakingOverlay => early(from),
        SpawnStage::Minting => early(from) || from is MakingOverlay,
        SpawnStage::Encoding => early(from) || from is MakingOverlay || from is Minting,
        SpawnStage::ResolvingPorts => from is Encoding,
        SpawnStage::CheckingPorts => from is Encoding,
        SpawnStage::StartingNetwork => from is ResolvingPorts,
        SpawnStage::KeepingSecrets => from is StartingNetwork || from is CheckingPorts,
        SpawnStage::SpawningShim => from is StartingNetwork || from is CheckingPorts || from
            is KeepingSecrets,
        SpawnStage::Spawned => from is SpawningShim,
        SpawnStage::Failed => true,
    }
}

#[verifier::spinoff_prover]
proof fn lemma_follows(s: SpawnState, e: SpawnEvent)
    requires
        next(s, e) is Some,
    ensures
        follows(s.stage, (next(s, e)->0).0.stage),
{
}

proof fn lemma_in_place(
    req: SpawnRequest,
    socks_dir: Seq<char>,
    agent_port: u32,
    events: Seq<SpawnEvent>,
)
    ensures
        run(req, socks_dir, agent_port, events) matches Some((s, done)) ==> in_place(s, done, req),
    decreases events.len(),
{
    if events.len() > 0 {
        let before = events.drop_last();
        lemma_in_place(req, socks_dir, agent_port, before);
        lemma_traced(req, socks_dir, agent_port, before);
        match run(req, socks_dir, agent_port, before) {
            Some((s, done)) => {
                if next(s, events.last()) is Some {
                    lemma_step_traced(s, req, socks_dir, agent_port, events);
                    lemma_follows(s, events.last());
                    lemma_push_keeps(done, (next(s, events.last())->0).1);
                    lemma_in_place_step(
                        s,
                        done,
                        (next(s, events.last())->0).0,
                        (next(s, events.last())->0).1,
                        req,
                    );
                }
            },
            None => {},
        }
    }
}

proof fn lemma_in_place_step(
    s: SpawnState,
    done: Seq<SpawnOp>,
    t: SpawnState,
    op: SpawnOp,
    req: SpawnRequest,
)
    requires
        in_place(s, done, req),
        follows(s.stage, t.stage),
        come_to(s, t.stage, op, req),
        s.stage is CheckingPorts ==> !req.config@.virtio_net,
        !(s.stage is Failed),
    ensures
        in_place(t, done.push(op), req),
{
    lemma_push_keeps(done, op);
}

/// The record of a machine that runs says what the machine is: the id and the
/// process that it was given, the name and the image of the request, and that it
/// runs. The socket on record is the one on which the guest agent listens.
pub proof fn law_record_says_what_runs(
    req: SpawnRequest,
    socks_dir: Seq<char>,
    agent_port: u32,
    events: Seq<SpawnEvent>,
    now: i128,
    vm: VmState,
)
    requires
        run(req, socks_dir, agent_port, events) matches Some((s, _)) && s.stage is Spawned
            && recorded(s, now, vm),
    ensures
        made_id(events) == Some(vm.id@),
        spawned(events) == Some((vm.pid, vm.config@.security_status)),
        vm.name is Some == req.name is Some,
        vm.name is Some ==> vm.name->0@ == req.name->0@,
        vm.image is Some == req.image is Some,
        vm.image is Some ==> vm.image->0@ == req.image->0@,
        vm.status is Running,
        vm.created_at == now,
        vm.config@.vsock_ports.last() == (agent_port, vm.socket@, true),
        vm.socket@ == path::joined(socks_dir, vm.id@ + ".sock"@),
        vm.config@ == (run(req, socks_dir, agent_port, events)->0).0.config,
{
    lemma_traced(req, socks_dir, agent_port, events);
    law_spawned_machine_has_each_setting(req, socks_dir, agent_port, events);
}

} // verus!
