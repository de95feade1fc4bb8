//! What the creation of a machine takes from what it was given: its options
//! and the answers to what it asked for.

use vstd::prelude::*;
use crate::error::{Error, Fault};
use crate::pipeline::{
    first_failure, from_spawning, law_wrong_options_do_nothing, lemma_first_failure, next,
    options_fault, run, CreateEvent, CreateOp, CreateStage, CreateState, ImageV, VmOptionsV,
};
use crate::state;
use crate::state::VirtioFs;
use crate::text;
use crate::vm;
use crate::vm::{ImageConfig, VmBuilder, VmBuilderV};

verus! {

/// The image that was pulled last: its root directory, digest and process
/// configuration.
pub open spec fn pulled(events: Seq<CreateEvent>) -> Option<
    (Seq<char>, Seq<char>, Option<ImageConfig>),
>
    decreases events.len(),
{
    if events.len() == 0 {
        None
    } else {
        match events.last() {
            CreateEvent::Pulled { rootfs, digest, config } => Some((rootfs@, digest@, config)),
            _ => pulled(events.drop_last()),
        }
    }
}

/// The base disk that was built last.
pub open spec fn built(events: Seq<CreateEvent>) -> Option<Seq<char>>
    decreases events.len(),
{
    if events.len() == 0 {
        None
    } else {
        match events.last() {
            CreateEvent::BaseBuilt(p) => Some(p@),
            _ => built(events.drop_last()),
        }
    }
}

/// Environment, working directory and user that were merged last.
pub open spec fn merged(events: Seq<CreateEvent>) -> Option<
    (Seq<String>, Option<String>, Option<String>),
>
    decreases events.len(),
{
    if events.len() == 0 {
        None
    } else {
        match events.last() {
            CreateEvent::Merged { env, workdir, user } => Some((env@, workdir, user)),
            _ => merged(events.drop_last()),
        }
    }
}

/// The directories that volumes were last found to stand for.
pub open spec fn shared(events: Seq<CreateEvent>) -> Option<Seq<VirtioFs>>
    decreases events.len(),
{
    if events.len() == 0 {
        None
    } else {
        match events.last() {
            CreateEvent::VolumesResolved(shares) => Some(shares@),
            _ => shared(events.drop_last()),
        }
    }
}

/// The settings that the caller handed back last.
pub open spec fn configured(events: Seq<CreateEvent>) -> Option<VmBuilder>
    decreases events.len(),
{
    if events.len() == 0 {
        None
    } else {
        match events.last() {
            CreateEvent::Configured(b) => Some(b),
            _ => configured(events.drop_last()),
        }
    }
}

spec fn tags_and_paths(shares: Seq<VirtioFs>) -> Seq<(Seq<char>, Seq<char>)> {
    Seq::new(shares.len(), |i: int| (shares[i].tag@, shares[i].path@))
}

/// Settings in which nothing but the thing to boot from is set.
spec fn bare(image: ImageV, base: Option<Seq<char>>) -> VmBuilderV {
    match image {
        ImageV::Oci(_) => VmBuilderV { base_disk: base, ..vm::cleared() },
        ImageV::Rootfs(p) => VmBuilderV { root: Some(p), ..vm::cleared() },
        ImageV::BaseDisk(p) => VmBuilderV { base_disk: Some(p), ..vm::cleared() },
    }
}

/// Settings in which everything but the shared directories is set.
spec fn full(b: VmBuilderV, o: VmOptionsV) -> VmBuilderV {
    VmBuilderV {
        vcpus: Some(o.vcpus),
        ram_mib: Some(o.ram_mib),
        virtio_net: Some(o.virtio_net),
        allow_net: o.allow_net,
        secrets: o.secrets,
        workload_env: o.env,
        security: Some(o.security),
        auto_stop_secs: o.auto_stop_secs,
        auto_delete_secs: o.auto_delete_secs,
        workload_workdir: o.workdir,
        user: o.user,
        ports: o.ports,
        ..b
    }
}

/// Stages before it is known what the machine boots from.
spec fn unrooted(stage: CreateStage) -> bool {
    stage is CheckingPorts || stage is Pulling || stage is BuildingBase || stage is CheckingRootfs
        || stage is CheckingBaseDisk
}

spec fn merged_opts(opts: VmOptionsV, events: Seq<CreateEvent>) -> VmOptionsV {
    match merged(events) {
        Some(m) => VmOptionsV {
            env: text::views(m.0),
            workdir: text::opt_view(m.1),
            user: text::opt_view(m.2),
            ..opts
        },
        None => opts,
    }
}

spec fn traced(s: CreateState, opts: VmOptionsV, by_caller: bool, events: Seq<CreateEvent>) -> bool {
    &&& s.by_caller == by_caller
    &&& s.opts == merged_opts(opts, events)
    &&& unrooted(s.stage) ==> s.builder == vm::cleared() && built(events) is None
    &&& s.stage is CheckingPorts ==> s.oci_cfg is None && pulled(events) is None
    &&& s.stage is Pulling || s.stage is BuildingBase ==> opts.image is Oci
    &&& s.stage is CheckingRootfs ==> opts.image is Rootfs && s.oci_cfg is None
    &&& s.stage is CheckingBaseDisk ==> opts.image is BaseDisk && s.oci_cfg is None
    &&& s.stage is BuildingBase ==> pulled(events) is Some && s.oci_cfg == (pulled(events)->0).2
    &&& !unrooted(s.stage) && !(s.stage is Failed) && opts.image is Oci ==> built(events) is Some
    &&& s.stage is Merging ==> !by_caller && s.builder == bare(opts.image, built(events))
    &&& s.stage is Configuring ==> by_caller && s.builder == (VmBuilderV {
        vcpus: Some(opts.vcpus),
        ram_mib: Some(opts.ram_mib),
        virtio_net: Some(opts.virtio_net),
        ..bare(opts.image, built(events))
    })
    &&& s.stage is ResolvingVolumes ==> !by_caller && s.builder == full(
        bare(opts.image, built(events)),
        s.opts,
    )
    &&& from_spawning(s.stage) && !by_caller ==> {
        &&& shared(events) is Some
        &&& s.linked == (shared(events)->0.len() > 0)
        &&& s.builder == (VmBuilderV {
            virtiofs: tags_and_paths(shared(events)->0),
            ..full(bare(opts.image, built(events)), s.opts)
        })
    }
    &&& from_spawning(s.stage) && by_caller ==> {
        &&& configured(events) is Some
        &&& s.builder == configured(events)->0@
        &&& !s.linked
    }
    &&& !from_spawning(s.stage) ==> s.stage is Failed || !s.linked
    &&& s.stage is LinkingVolumes ==> s.linked
    &&& s.stage is WaitingReady ==> opts.ready_timeout != 0
}

/// Whether a thing to do carries what it is about.
spec fn carries(
    op: CreateOp,
    to: CreateStage,
    opts: VmOptionsV,
    by_caller: bool,
    events: Seq<CreateEvent>,
) -> bool {
    match op {
        CreateOp::CheckPorts(p) => p == opts.ports,
        CreateOp::Pull(r) => opts.image == ImageV::Oci(r),
        CreateOp::CheckDirectory(p) => opts.image == ImageV::Rootfs(p),
        CreateOp::CheckFile(p) => opts.image == ImageV::BaseDisk(p),
        CreateOp::BuildBase(rootfs, key) => pulled(events) is Some && rootfs == (pulled(events)->0).0
            && key == text::replace_char((pulled(events)->0).1, ':', '-'),
        CreateOp::MergeImageConfig(c) => !by_caller && opts.image is Oci && pulled(events) is Some
            && (pulled(events)->0).2 == Some(c),
        CreateOp::Configure => by_caller,
        CreateOp::ResolveVolumes(v) => !by_caller && v == opts.volumes,
        CreateOp::Spawn(detached) => detached == (opts.detach && !by_caller),
        CreateOp::LinkVolumes(l) => !by_caller && shared(events) is Some && shared(events)->0.len()
            > 0 && l == tags_and_paths(shared(events)->0),
        CreateOp::WaitReady(t) => t == opts.ready_timeout && t != 0,
        CreateOp::Finished => to is Running,
        CreateOp::Fail(_) => to is Failed,
    }
}

/// Whether a stage from the start of the machine on was come to as it has to
/// be.
spec fn come_to(
    s: CreateState,
    to: CreateStage,
    op: CreateOp,
    opts: VmOptionsV,
    by_caller: bool,
) -> bool {
    &&& to is Spawning ==> op == CreateOp::Spawn(opts.detach && !by_caller)
    &&& to is LinkingVolumes ==> s.stage is Spawning && op is LinkVolumes
    &&& to is WaitingReady ==> {
        &&& s.stage is LinkingVolumes || s.stage is Spawning && !s.linked
        &&& op == CreateOp::WaitReady(opts.ready_timeout)
    }
    &&& to is Running ==> {
        ||| s.stage is WaitingReady
        ||| opts.ready_timeout == 0 && (s.stage is LinkingVolumes || s.stage is Spawning
            && !s.linked)
    }
}

/// Whether a failure is the one that an event stands for.
spec fn fails_with(op: CreateOp, e: CreateEvent, opts: VmOptionsV) -> bool {
    op matches CreateOp::Fail(f) ==> match e {
        CreateEvent::Failed(e) => f == e@,
        CreateEvent::PortsChecked(checks) => options_fault(opts) is None ==> first_failure(checks@)
            == Some(f),
        CreateEvent::Checked(ok) => !ok && match opts.image {
            ImageV::Rootfs(p) => f == Fault::InvalidConfig("rootfs is not a directory: "@ + p),
            ImageV::BaseDisk(p) => f == Fault::InvalidConfig("base disk not found: "@ + p),
            ImageV::Oci(_) => false,
        },
        _ => false,
    }
}

#[verifier::spinoff_prover]
proof fn lemma_step_traced_early(
    s: CreateState,
    opts: VmOptionsV,
    by_caller: bool,
    events: Seq<CreateEvent>,
)
    requires
        events.len() > 0,
        traced(s, opts, by_caller, events.drop_last()),
        next(s, events.last()) is Some,
        s.stage is CheckingPorts || s.stage is Pulling,
    ensures
        traced(next(s, events.last())->0.state, opts, by_caller, events),
        carries(
            next(s, events.last())->0.op,
            next(s, events.last())->0.state.stage,
            opts,
            by_caller,
            events,
        ),
        come_to(
            s,
            next(s, events.last())->0.state.stage,
            next(s, events.last())->0.op,
            opts,
            by_caller,
        ),
        fails_with(next(s, events.last())->0.op, events.last(), opts),
{
}

#[verifier::spinoff_prover]
proof fn lemma_step_traced_built(
    s: CreateState,
    opts: VmOptionsV,
    by_caller: bool,
    events: Seq<CreateEvent>,
)
    requires
        events.len() > 0,
        traced(s, opts, by_caller, events.drop_last()),
        next(s, events.last()) is Some,
        s.stage is BuildingBase,
    ensures
        traced(next(s, events.last())->0.state, opts, by_caller, events),
        carries(
            next(s, events.last())->0.op,
            next(s, events.last())->0.state.stage,
            opts,
            by_caller,
            events,
        ),
        come_to(
            s,
            next(s, events.last())->0.state.stage,
            next(s, events.last())->0.op,
            opts,
            by_caller,
        ),
        fails_with(next(s, events.last())->0.op, events.last(), opts),
{
}

#[verifier::spinoff_prover]
proof fn lemma_step_traced_rootfs(
    s: CreateState,
    opts: VmOptionsV,
    by_caller: bool,
    events: Seq<CreateEvent>,
)
    requires
        events.len() > 0,
        traced(s, opts, by_caller, events.drop_last()),
        next(s, events.last()) is Some,
        s.stage is CheckingRootfs,
    ensures
        traced(next(s, events.last())->0.state, opts, by_caller, events),
        carries(
            next(s, events.last())->0.op,
            next(s, events.last())->0.state.stage,
            opts,
            by_caller,
            events,
        ),
        come_to(
            s,
            next(s, events.last())->0.state.stage,
            next(s, events.last())->0.op,
            opts,
            by_caller,
        ),
        fails_with(next(s, events.last())->0.op, events.last(), opts),
{
}

#[verifier::spinoff_prover]
proof fn lemma_step_traced_base_disk(
    s: CreateState,
    opts: VmOptionsV,
    by_caller: bool,
    events: Seq<CreateEvent>,
)
    requires
        events.len() > 0,
        traced(s, opts, by_caller, events.drop_last()),
        next(s, events.last()) is Some,
        s.stage is CheckingBaseDisk,
    ensures
        traced(next(s, events.last())->0.state, opts, by_caller, events),
        carries(
            next(s, events.last())->0.op,
            next(s, events.last())->0.state.stage,
            opts,
            by_caller,
            events,
        ),
        come_to(
            s,
            next(s, events.last())->0.state.stage,
            next(s, events.last())->0.op,
            opts,
            by_caller,
        ),
        fails_with(next(s, events.last())->0.op, events.last(), opts),
{
}

#[verifier::spinoff_prover]
proof fn lemma_step_traced_merging(
    s: CreateState,
    opts: VmOptionsV,
    by_caller: bool,
    events: Seq<CreateEvent>,
)
    requires
        events.len() > 0,
        traced(s, opts, by_caller, events.drop_last()),
        next(s, events.last()) is Some,
        s.stage is Merging,
    ensures
        traced(next(s, events.last())->0.state, opts, by_caller, events),
        carries(
            next(s, events.last())->0.op,
            next(s, events.last())->0.state.stage,
            opts,
            by_caller,
            events,
        ),
        come_to(
            s,
            next(s, events.last())->0.state.stage,
            next(s, events.last())->0.op,
            opts,
            by_caller,
        ),
        fails_with(next(s, events.last())->0.op, events.last(), opts),
{
}

#[verifier::spinoff_prover]
proof fn lemma_step_traced_volumes(
    s: CreateState,
    opts: VmOptionsV,
    by_caller: bool,
    events: Seq<CreateEvent>,
)
    requires
        events.len() > 0,
        traced(s, opts, by_caller, events.drop_last()),
        next(s, events.last()) is Some,
        s.stage is ResolvingVolumes,
    ensures
        traced(next(s, events.last())->0.state, opts, by_caller, events),
        carries(
            next(s, events.last())->0.op,
            next(s, events.last())->0.state.stage,
            opts,
            by_caller,
            events,
        ),
        come_to(
            s,
            next(s, events.last())->0.state.stage,
            next(s, events.last())->0.op,
            opts,
            by_caller,
        ),
        fails_with(next(s, events.last())->0.op, events.last(), opts),
{
    match events.last() {
        CreateEvent::VolumesResolved(shares) => {
            assert(state::share_views(shares@) =~= tags_and_paths(shares@));
        },
        _ => {},
    }
}

#[verifier::spinoff_prover]
proof fn lemma_step_traced_late(
    s: CreateState,
    opts: VmOptionsV,
    by_caller: bool,
    events: Seq<CreateEvent>,
)
    requires
        events.len() > 0,
        traced(s, opts, by_caller, events.drop_last()),
        next(s, events.last()) is Some,
        s.stage is Configuring || s.stage is Spawning || s.stage is LinkingVolumes || s.stage is WaitingReady,
    ensures
        traced(next(s, events.last())->0.state, opts, by_caller, events),
        carries(
            next(s, events.last())->0.op,
            next(s, events.last())->0.state.stage,
            opts,
            by_caller,
            events,
        ),
        come_to(
            s,
            next(s, events.last())->0.state.stage,
            next(s, events.last())->0.op,
            opts,
            by_caller,
        ),
        fails_with(next(s, events.last())->0.op, events.last(), opts),
{
}

proof fn lemma_step_traced(
    s: CreateState,
    opts: VmOptionsV,
    by_caller: bool,
    events: Seq<CreateEvent>,
)
    requires
        events.len() > 0,
        traced(s, opts, by_caller, events.drop_last()),
        next(s, events.last()) is Some,
    ensures
        traced(next(s, events.last())->0.state, opts, by_caller, events),
        carries(
            next(s, events.last())->0.op,
            next(s, events.last())->0.state.stage,
            opts,
            by_caller,
            events,
        ),
        come_to(
            s,
            next(s, events.last())->0.state.stage,
            next(s, events.last())->0.op,
            opts,
            by_caller,
        ),
        fails_with(next(s, events.last())->0.op, events.last(), opts),
{
    match s.stage {
        CreateStage::CheckingPorts => lemma_step_traced_early(s, opts, by_caller, events),
        CreateStage::Pulling => lemma_step_traced_early(s, opts, by_caller, events),
        CreateStage::BuildingBase => lemma_step_traced_built(s, opts, by_caller, events),
        CreateStage::CheckingRootfs => lemma_step_traced_rootfs(s, opts, by_caller, events),
        CreateStage::CheckingBaseDisk => lemma_step_traced_base_disk(s, opts, by_caller, events),
        CreateStage::Merging => lemma_step_traced_merging(s, opts, by_caller, events),
        CreateStage::ResolvingVolumes => lemma_step_traced_volumes(s, opts, by_caller, events),
        CreateStage::Running => {},
        CreateStage::Failed => {},
        _ => lemma_step_traced_late(s, opts, by_caller, events),
    }
}

proof fn lemma_traced(opts: VmOptionsV, by_caller: bool, events: Seq<CreateEvent>)
    ensures
        run(opts, by_caller, events) matches Some((s, _)) ==> traced(s, opts, by_caller, events),
    decreases events.len(),
{
    if events.len() > 0 {
        lemma_traced(opts, by_caller, events.drop_last());
        match run(opts, by_caller, events.drop_last()) {
            Some((s, _)) => {
                if next(s, events.last()) is Some {
                    lemma_step_traced(s, opts, by_caller, events);
                }
            },
            None => {},
        }
    }
}

/// A machine boots from what its image is: a root directory from that
/// directory, a base disk from that disk, and an image of a registry from the
/// base disk that was built of it. It is never given the one for the other.
pub proof fn law_machine_boots_from_its_image(
    opts: VmOptionsV,
    by_caller: bool,
    events: Seq<CreateEvent>,
)
    ensures
        run(opts, by_caller, events) matches Some((s, _)) ==> (s.stage is Merging || s.stage
            is Configuring || s.stage is ResolvingVolumes || !by_caller && (s.stage is Spawning
            || s.stage is LinkingVolumes || s.stage is WaitingReady || s.stage is Running)) ==> {
            &&& opts.image matches ImageV::BaseDisk(p) ==> s.builder.base_disk == Some(p)
                && s.builder.root is None
            &&& opts.image matches ImageV::Rootfs(p) ==> s.builder.root == Some(p)
                && s.builder.base_disk is None
            &&& opts.image is Oci ==> s.builder.root is None && s.builder.base_disk is Some
                && s.builder.base_disk == built(events)
        },
{
    lemma_traced(opts, by_caller, events);
}

/// A machine that is started from product options has each of its settings
/// from the option of that name; environment, working directory and user from
/// the options as the image's process configuration was merged into them; its
/// shared directories from its volumes; and nothing else is set.
pub proof fn law_started_machine_has_each_setting(opts: VmOptionsV, events: Seq<CreateEvent>)
    ensures
        run(opts, false, events) matches Some((s, _)) ==> (s.stage is Spawning || s.stage
            is LinkingVolumes || s.stage is WaitingReady || s.stage is Running) ==> {
            let b = s.builder;
            &&& b.vcpus == Some(opts.vcpus)
            &&& b.ram_mib == Some(opts.ram_mib)
            &&& b.virtio_net == Some(opts.virtio_net)
            &&& b.allow_net == opts.allow_net
            &&& b.secrets == opts.secrets
            &&& b.ports == opts.ports
            &&& b.security == Some(opts.security)
            &&& b.auto_stop_secs == opts.auto_stop_secs
            &&& b.auto_delete_secs == opts.auto_delete_secs
            &&& merged(events) is None ==> b.workload_env == opts.env && b.workload_workdir
                == opts.workdir && b.user == opts.user
            &&& merged(events) matches Some((env, workdir, user)) ==> {
                &&& b.workload_env.len() == env.len()
                &&& forall|i: int| 0 <= i < env.len() ==> #[trigger] b.workload_env[i] == env[i]@
                &&& b.workload_workdir is Some == workdir is Some
                &&& workdir is Some ==> b.workload_workdir->0 == workdir->0@
                &&& b.user is Some == user is Some
                &&& user is Some ==> b.user->0 == user->0@
            }
            &&& shared(events) matches Some(shares) && b.virtiofs.len() == shares.len()
                && forall|i: int|
                0 <= i < shares.len() ==> #[trigger] b.virtiofs[i] == (
                    shares[i].tag@,
                    shares[i].path@,
                )
            &&& b.log_level is None
            &&& b.rlimits.len() == 0
            &&& b.nested_virt is None
            &&& b.snd_device is None
            &&& b.console_output is None
        },
{
    lemma_traced(opts, false, events);
}

/// A caller who has a hand in the settings is given the processors, the memory
/// and the network of the options, and the machine is then started with what
/// the caller hands back.
pub proof fn law_caller_has_the_last_word(opts: VmOptionsV, events: Seq<CreateEvent>)
    ensures
        run(opts, true, events) matches Some((s, _)) ==> {
            &&& s.stage is Configuring ==> {
                &&& s.builder.vcpus == Some(opts.vcpus)
                &&& s.builder.ram_mib == Some(opts.ram_mib)
                &&& s.builder.virtio_net == Some(opts.virtio_net)
                &&& s.builder.ports.len() == 0
                &&& s.builder.allow_net.len() == 0
                &&& s.builder.secrets.len() == 0
                &&& s.builder.virtiofs.len() == 0
                &&& s.builder.workload_env.len() == 0
            }
            &&& s.stage is Spawning || s.stage is WaitingReady || s.stage is Running ==> (
            configured(events) matches Some(b) && s.builder == b@)
            &&& !(s.stage is Merging || s.stage is ResolvingVolumes || s.stage is LinkingVolumes)
        },
{
    lemma_traced(opts, true, events);
}

/// Whatever is asked for carries what it is about: the ports, the reference,
/// the path and the volumes of the options, the root directory that was pulled
/// with its digest as key (a `:` in it becomes a `-`, and nothing else
/// changes), the directories that the volumes were found to stand for, and the
/// time to wait. A machine outlives this process only where the options say so
/// and the caller had no hand in it.
pub proof fn law_tasks_carry_what_was_given(
    opts: VmOptionsV,
    by_caller: bool,
    events: Seq<CreateEvent>,
)
    ensures
        run(opts, by_caller, events) matches Some((s, done)) ==> match done.last() {
            CreateOp::CheckPorts(p) => p == opts.ports,
            CreateOp::Pull(r) => opts.image == ImageV::Oci(r),
            CreateOp::CheckDirectory(p) => opts.image == ImageV::Rootfs(p),
            CreateOp::CheckFile(p) => opts.image == ImageV::BaseDisk(p),
            CreateOp::BuildBase(rootfs, key) => pulled(events) matches Some((r, digest, _))
                && rootfs == r && key.len() == digest.len() && forall|i: int|
                0 <= i < digest.len() ==> if digest[i] == ':' {
                    #[trigger] key[i] == '-'
                } else {
                    key[i] == digest[i]
                },
            CreateOp::MergeImageConfig(c) => !by_caller && opts.image is Oci && (pulled(
                events,
            ) matches Some((_, _, cfg)) && cfg == Some(c)),
            CreateOp::Configure => by_caller,
            CreateOp::ResolveVolumes(v) => !by_caller && v == opts.volumes,
            CreateOp::Spawn(detached) => detached == (opts.detach && !by_caller),
            CreateOp::LinkVolumes(l) => !by_caller && (shared(events) matches Some(shares)
                && shares.len() > 0 && l.len() == shares.len() && forall|i: int|
                0 <= i < shares.len() ==> #[trigger] l[i] == (shares[i].tag@, shares[i].path@)),
            CreateOp::WaitReady(t) => t == opts.ready_timeout && t != 0,
            CreateOp::Finished => s.stage is Running,
            CreateOp::Fail(_) => s.stage is Failed,
        },
{
    lemma_carries(opts, by_caller, events);
}

proof fn lemma_carries(opts: VmOptionsV, by_caller: bool, events: Seq<CreateEvent>)
    ensures
        run(opts, by_caller, events) matches Some((s, done)) ==> carries(
            done.last(),
            s.stage,
            opts,
            by_caller,
            events,
        ),
        run(opts, by_caller, events) matches Some((s, done)) ==> events.len() > 0 ==> fails_with(
            done.last(),
            events.last(),
            opts,
        ),
{
    if events.len() > 0 {
        let before = events.drop_last();
        lemma_traced(opts, by_caller, before);
        match run(opts, by_caller, before) {
            Some((s, done)) => {
                if next(s, events.last()) is Some {
                    lemma_step_traced(s, opts, by_caller, events);
                    assert(done.push(next(s, events.last())->0.op).last() == next(
                        s,
                        events.last(),
                    )->0.op);
                }
            },
            None => {},
        }
    }
}

proof fn lemma_push_contains(done: Seq<CreateOp>, op: CreateOp)
    ensures
        done.push(op).contains(op),
        forall|o: CreateOp| done.contains(o) ==> done.push(op).contains(o),
        done.push(op).last() == op,
        ties_volumes(done) || op is LinkVolumes ==> ties_volumes(done.push(op)),
{
    let more = done.push(op);
    assert(more[done.len() as int] == op);
    assert forall|o: CreateOp| done.contains(o) implies more.contains(o) by {
        let i = choose|i: int| 0 <= i < done.len() && done[i] == o;
        assert(more[i] == o);
    }
    if ties_volumes(done) {
        let i = choose|i: int| 0 <= i < done.len() && #[trigger] done[i] is LinkVolumes;
        assert(more[i] is LinkVolumes);
    }
}

/// Whether volumes are tied to the machine.
pub open spec fn ties_volumes(done: Seq<CreateOp>) -> bool {
    exists|i: int| 0 <= i < done.len() && #[trigger] done[i] is LinkVolumes
}

/// A creation that has come to its end has started the machine, has tied every
/// volume to it, and has waited for the guest agent where a time for that was
/// given.
pub proof fn law_nothing_is_left_out(opts: VmOptionsV, by_caller: bool, events: Seq<CreateEvent>)
    ensures
        run(opts, by_caller, events) matches Some((s, done)) ==> {
            &&& s.stage is Spawning || s.stage is LinkingVolumes || s.stage is WaitingReady
                || s.stage is Running ==> done.contains(
                CreateOp::Spawn(opts.detach && !by_caller),
            )
            &&& s.stage is LinkingVolumes || (s.stage is WaitingReady || s.stage is Running)
                && !by_caller && shared(events)->0.len() > 0 ==> ties_volumes(done)
            &&& s.stage is WaitingReady || s.stage is Running && opts.ready_timeout != 0
                ==> done.contains(CreateOp::WaitReady(opts.ready_timeout))
        },
    decreases events.len(),
{
    if events.len() > 0 {
        let before = events.drop_last();
        law_nothing_is_left_out(opts, by_caller, before);
        lemma_traced(opts, by_caller, before);
        match run(opts, by_caller, before) {
            Some((s, done)) => {
                lemma_nothing_left_out_step(s, done, opts, by_caller, events);
            },
            None => {},
        }
    }
}

proof fn lemma_nothing_left_out_step(
    s: CreateState,
    done: Seq<CreateOp>,
    opts: VmOptionsV,
    by_caller: bool,
    events: Seq<CreateEvent>,
)
    requires
        events.len() > 0,
        traced(s, opts, by_caller, events.drop_last()),
        from_spawning(s.stage) ==> done.contains(CreateOp::Spawn(opts.detach && !by_caller)),
        s.stage is LinkingVolumes || s.stage is WaitingReady && !by_caller && shared(
            events.drop_last(),
        )->0.len() > 0 ==> ties_volumes(done),
        s.stage is WaitingReady ==> done.contains(CreateOp::WaitReady(opts.ready_timeout)),
    ensures
        next(s, events.last()) matches Some(step) ==> {
            &&& from_spawning(step.state.stage) ==> done.push(step.op).contains(
                CreateOp::Spawn(opts.detach && !by_caller),
            )
            &&& step.state.stage is LinkingVolumes || (step.state.stage is WaitingReady
                || step.state.stage is Running) && !by_caller && shared(events)->0.len() > 0
                ==> ties_volumes(done.push(step.op))
            &&& step.state.stage is WaitingReady || step.state.stage is Running
                && opts.ready_timeout != 0 ==> done.push(step.op).contains(
                CreateOp::WaitReady(opts.ready_timeout),
            )
        },
{
    if next(s, events.last()) is Some {
        lemma_step_traced(s, opts, by_caller, events);
        lemma_push_contains(done, next(s, events.last())->0.op);
        if s.stage is WaitingReady {
            assert(shared(events) == shared(events.drop_last()));
        }
    }
}

/// A creation that fails gives back the failure that it met: that of what it
/// asked for, that of the first bad port, or that the path of the image is not
/// what it has to be.
pub proof fn law_failures_are_given_back(
    opts: VmOptionsV,
    by_caller: bool,
    events: Seq<CreateEvent>,
)
    requires
        events.len() > 0,
    ensures
        run(opts, by_caller, events) matches Some((s, done)) ==> done.last() matches CreateOp::Fail(
            f,
        ) ==> match events.last() {
            CreateEvent::Failed(e) => f == e@,
            CreateEvent::PortsChecked(checks) => exists|k: int|
                0 <= k < checks@.len() && (#[trigger] checks@[k] matches Err(e) && e@ == f)
                    && forall|j: int| 0 <= j < k ==> (#[trigger] checks@[j]) is Ok,
            CreateEvent::Checked(ok) => !ok && match opts.image {
                ImageV::Rootfs(p) => f == Fault::InvalidConfig("rootfs is not a directory: "@ + p),
                ImageV::BaseDisk(p) => f == Fault::InvalidConfig("base disk not found: "@ + p),
                ImageV::Oci(_) => false,
            },
            _ => false,
        },
{
    lemma_carries(opts, by_caller, events);
    if options_fault(opts) is Some {
        law_wrong_options_do_nothing(opts, by_caller, events.drop_last());
    }
    match events.last() {
        CreateEvent::PortsChecked(checks) => {
            lemma_first_failure_first(checks@);
        },
        _ => {},
    }
}

/// Nothing failed before the first failure.
proof fn lemma_first_failure_first(checks: Seq<Result<(), Error>>)
    ensures
        first_failure(checks) matches Some(f) ==> exists|k: int|
            0 <= k < checks.len() && (#[trigger] checks[k] matches Err(e) && e@ == f) && forall|
                j: int,
            |
                0 <= j < k ==> (#[trigger] checks[j]) is Ok,
    decreases checks.len(),
{
    if first_failure(checks) is Some {
        let f = first_failure(checks)->0;
        if checks[0] is Ok {
            let rest = checks.drop_first();
            lemma_first_failure_first(rest);
            let k = choose|k: int|
                0 <= k < rest.len() && (#[trigger] rest[k] matches Err(e) && e@ == f) && forall|
                    j: int,
                |
                    0 <= j < k ==> (#[trigger] rest[j]) is Ok;
            assert(checks[k + 1] == rest[k]);
            assert forall|j: int| 0 <= j < k + 1 implies (#[trigger] checks[j]) is Ok by {
                if j > 0 {
                    assert(rest[j - 1] == checks[j]);
                }
            }
        } else {
            assert(checks[0] matches Err(e) && e@ == f);
        }
    }
}

/// Options are right in themselves exactly where they ask for a processor and
/// for memory, and for secrets only with a network; the first of these that is
/// not so is the failure.
pub proof fn law_options_that_are_refused(opts: VmOptionsV, by_caller: bool)
    ensures
        run(opts, by_caller, seq![]) matches Some((s, done)) && done.len() == 1 && {
            &&& opts.vcpus == 0 ==> done[0] == CreateOp::Fail(
                Fault::InvalidConfig("vcpus must be >= 1"@),
            )
            &&& opts.vcpus > 0 && opts.ram_mib == 0 ==> done[0] == CreateOp::Fail(
                Fault::InvalidConfig("ram_mib must be >= 1"@),
            )
            &&& opts.vcpus > 0 && opts.ram_mib > 0 && !opts.virtio_net && opts.secrets.len() > 0
                ==> done[0] == CreateOp::Fail(Fault::SecretsNeedVirtioNet)
            &&& opts.vcpus > 0 && opts.ram_mib > 0 && (opts.virtio_net || opts.secrets.len() == 0)
                ==> done[0] == CreateOp::CheckPorts(opts.ports) && s.stage is CheckingPorts
        },
{
}

/// A thing that could not be done fails the creation, at every stage but the
/// wait for the guest agent.
pub proof fn law_failed_task_fails_the_creation(s: CreateState, e: Error)
    requires
        !(s.stage is Running || s.stage is Failed || s.stage is WaitingReady),
    ensures
        next(s, CreateEvent::Failed(e)) matches Some(step) && step.state.stage is Failed && step.op
            == CreateOp::Fail(e@),
{
}

/// Once every port is right the image is looked for, where it has to be looked
/// for.
pub proof fn law_good_ports_lead_to_the_image(s: CreateState, checks: Vec<Result<(), Error>>)
    requires
        s.stage is CheckingPorts,
        options_fault(s.opts) is None,
        checks@.len() == s.opts.ports.len(),
        forall|i: int| 0 <= i < checks@.len() ==> (#[trigger] checks@[i]) is Ok,
    ensures
        next(s, CreateEvent::PortsChecked(checks)) matches Some(step) && match s.opts.image {
            ImageV::Oci(r) => step.state.stage is Pulling && step.op == CreateOp::Pull(r),
            ImageV::Rootfs(p) => step.state.stage is CheckingRootfs && step.op
                == CreateOp::CheckDirectory(p),
            ImageV::BaseDisk(p) => step.state.stage is CheckingBaseDisk && step.op
                == CreateOp::CheckFile(p),
        },
{
    lemma_first_failure(checks@);
}

/// Once there is something to boot from, the settings come next: from the
/// caller, from the image's process configuration where it has one, or from the
/// options alone.
pub proof fn law_image_leads_to_settings(s: CreateState, e: CreateEvent)
    requires
        ({
            ||| s.stage is BuildingBase && e is BaseBuilt
            ||| s.stage is CheckingRootfs && e == CreateEvent::Checked(true)
            ||| s.stage is CheckingBaseDisk && e == CreateEvent::Checked(true)
        }),
    ensures
        next(s, e) matches Some(step) && if s.by_caller {
            step.state.stage is Configuring
        } else if s.oci_cfg is Some {
            step.state.stage is Merging
        } else {
            step.state.stage is ResolvingVolumes
        },
{
}

/// Once the settings are made, the machine is started.
pub proof fn law_settings_lead_to_the_machine(s: CreateState, e: CreateEvent)
    requires
        s.stage is Configuring && e is Configured || s.stage is ResolvingVolumes && e
            is VolumesResolved,
    ensures
        next(s, e) matches Some(step) && step.state.stage is Spawning,
{
}

/// Each thing to do is announced in the same words whatever led to it, and a
/// failure is not announced.
pub proof fn law_progress_names_the_task(s: CreateState, e: CreateEvent)
    ensures
        next(s, e) matches Some(step) ==> match step.op {
            CreateOp::Pull(_) => step.says == seq![
                "resolving image"@,
                "pulling/ensuring OCI image"@,
            ],
            CreateOp::CheckDirectory(_) | CreateOp::CheckFile(_) => step.says == seq![
                "resolving image"@,
            ],
            CreateOp::BuildBase(_, _) => step.says == seq!["building ext4 base disk"@],
            CreateOp::ResolveVolumes(_) => step.says == seq!["resolving volumes"@],
            CreateOp::Spawn(_) => step.says == seq!["spawning shim"@],
            CreateOp::WaitReady(_) => step.says == seq!["waiting for guest agent"@],
            CreateOp::Finished => if s.by_caller {
                step.says.len() == 0
            } else {
                step.says == seq!["running"@]
            },
            _ => step.says.len() == 0,
        },
{
}

} // verus!
