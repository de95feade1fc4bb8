//! What contracts see of settings and of things to do: each of their parts, as
//! it is.

use vstd::prelude::*;
use crate::pipeline::{CreateOp, CreateTask, ImageRef, ImageV, VmOptions};
use crate::secrets::Secret;
use crate::shim::{KrunCall, KrunOp};
use crate::starting::{SpawnAction, SpawnOp};
use crate::state::VmConfig;
use crate::vm::VmBuilder;

verus! {

/// Each option is seen as it is, under its own name.
pub proof fn law_options_are_seen_as_they_are(o: VmOptions)
    ensures
        o.image matches ImageRef::Oci(r) ==> o@.image == ImageV::Oci(r@),
        o.image matches ImageRef::Rootfs(p) ==> o@.image == ImageV::Rootfs(p@),
        o.image matches ImageRef::BaseDisk(p) ==> o@.image == ImageV::BaseDisk(p@),
        o@.name is Some == o.name is Some,
        o.name is Some ==> o@.name->0 == o.name->0@,
        o@.vcpus == o.vcpus,
        o@.ram_mib == o.ram_mib,
        o@.virtio_net == o.virtio_net,
        o@.allow_net.len() == o.allow_net@.len(),
        forall|i: int| 0 <= i < o.allow_net@.len() ==> #[trigger] o@.allow_net[i] == o.allow_net@[i]@,
        o@.secrets.len() == o.secrets@.len(),
        forall|i: int| 0 <= i < o.secrets@.len() ==> #[trigger] o@.secrets[i] == o.secrets@[i]@,
        o@.ports.len() == o.ports@.len(),
        forall|i: int| 0 <= i < o.ports@.len() ==> #[trigger] o@.ports[i] == o.ports@[i]@,
        o@.volumes.len() == o.volumes@.len(),
        forall|i: int| 0 <= i < o.volumes@.len() ==> #[trigger] o@.volumes[i] == o.volumes@[i]@,
        o@.env.len() == o.env@.len(),
        forall|i: int| 0 <= i < o.env@.len() ==> #[trigger] o@.env[i] == o.env@[i]@,
        o@.workdir is Some == o.workdir is Some,
        o.workdir is Some ==> o@.workdir->0 == o.workdir->0@,
        o@.user is Some == o.user is Some,
        o.user is Some ==> o@.user->0 == o.user->0@,
        o@.security == o.security,
        o@.auto_stop_secs == o.auto_stop_secs,
        o@.auto_delete_secs == o.auto_delete_secs,
        o@.detach == o.detach,
        o@.auto_remove == o.auto_remove,
        o@.ready_timeout == o.ready_timeout,
{
}

/// Each setting is seen as it is, under its own name.
pub proof fn law_settings_are_seen_as_they_are(b: VmBuilder)
    ensures
        b@.vcpus == b.vcpus,
        b@.ram_mib == b.ram_mib,
        b@.log_level == b.log_level,
        b@.root is Some == b.root is Some,
        b.root is Some ==> b@.root->0 == b.root->0@,
        b@.base_disk is Some == b.base_disk is Some,
        b.base_disk is Some ==> b@.base_disk->0 == b.base_disk->0@,
        b@.ports.len() == b.ports@.len(),
        forall|i: int| 0 <= i < b.ports@.len() ==> #[trigger] b@.ports[i] == b.ports@[i]@,
        b@.allow_net.len() == b.allow_net@.len(),
        forall|i: int| 0 <= i < b.allow_net@.len() ==> #[trigger] b@.allow_net[i] == b.allow_net@[i]@,
        b@.virtio_net == b.virtio_net,
        b@.secrets.len() == b.secrets@.len(),
        forall|i: int| 0 <= i < b.secrets@.len() ==> #[trigger] b@.secrets[i] == b.secrets@[i]@,
        b@.virtiofs.len() == b.virtiofs@.len(),
        forall|i: int|
            0 <= i < b.virtiofs@.len() ==> #[trigger] b@.virtiofs[i] == (b.virtiofs@[i].tag@, b.virtiofs@[i].path@),
        b@.rlimits.len() == b.rlimits@.len(),
        forall|i: int| 0 <= i < b.rlimits@.len() ==> #[trigger] b@.rlimits[i] == b.rlimits@[i]@,
        b@.nested_virt == b.nested_virt,
        b@.snd_device == b.snd_device,
        b@.console_output is Some == b.console_output is Some,
        b.console_output is Some ==> b@.console_output->0 == b.console_output->0@,
        b@.workload_env.len() == b.workload_env@.len(),
        forall|i: int| 0 <= i < b.workload_env@.len() ==> #[trigger] b@.workload_env[i] == b.workload_env@[i]@,
        b@.workload_workdir is Some == b.workload_workdir is Some,
        b.workload_workdir is Some ==> b@.workload_workdir->0 == b.workload_workdir->0@,
        b@.user is Some == b.user is Some,
        b.user is Some ==> b@.user->0 == b.user->0@,
        b@.security == b.security,
        b@.auto_stop_secs == b.auto_stop_secs,
        b@.auto_delete_secs == b.auto_delete_secs,
{
}

/// Each part of a configuration is seen as it is, under its own name.
pub proof fn law_configuration_is_seen_as_it_is(c: VmConfig)
    ensures
        c@.vcpus == c.vcpus,
        c@.ram_mib == c.ram_mib,
        c@.rootfs is Some == c.rootfs is Some,
        c.rootfs is Some ==> c@.rootfs->0 == c.rootfs->0@,
        c@.root_disk is Some == c.root_disk is Some,
        c.root_disk is Some ==> c@.root_disk->0 == c.root_disk->0@,
        c@.disk_format == c.disk_format,
        c@.base_disk is Some == c.base_disk is Some,
        c.base_disk is Some ==> c@.base_disk->0 == c.base_disk->0@,
        c@.exec_path is Some == c.exec_path is Some,
        c.exec_path is Some ==> c@.exec_path->0 == c.exec_path->0@,
        c@.exec_args.len() == c.exec_args@.len(),
        forall|i: int| 0 <= i < c.exec_args@.len() ==> #[trigger] c@.exec_args[i] == c.exec_args@[i]@,
        c@.env is Some == c.env is Some,
        c.env is Some ==> c@.env->0.len() == c.env->0@.len() && forall|i: int|
            0 <= i < c.env->0@.len() ==> #[trigger] c@.env->0[i] == c.env->0@[i]@,
        c@.workdir is Some == c.workdir is Some,
        c.workdir is Some ==> c@.workdir->0 == c.workdir->0@,
        c@.ports.len() == c.ports@.len(),
        forall|i: int| 0 <= i < c.ports@.len() ==> #[trigger] c@.ports[i] == c.ports@[i]@,
        c@.allow_net.len() == c.allow_net@.len(),
        forall|i: int| 0 <= i < c.allow_net@.len() ==> #[trigger] c@.allow_net[i] == c.allow_net@[i]@,
        c@.published_ports == c.published_ports@,
        c@.virtiofs.len() == c.virtiofs@.len(),
        forall|i: int|
            0 <= i < c.virtiofs@.len() ==> #[trigger] c@.virtiofs[i] == (c.virtiofs@[i].tag@, c.virtiofs@[i].path@),
        c@.vsock_ports.len() == c.vsock_ports@.len(),
        forall|i: int|
            0 <= i < c.vsock_ports@.len() ==> #[trigger] c@.vsock_ports[i] == (
                c.vsock_ports@[i].port,
                c.vsock_ports@[i].path@,
                c.vsock_ports@[i].listen,
            ),
        c@.log_level == c.log_level,
        c@.uid == c.uid,
        c@.gid == c.gid,
        c@.rlimits.len() == c.rlimits@.len(),
        forall|i: int| 0 <= i < c.rlimits@.len() ==> #[trigger] c@.rlimits[i] == c.rlimits@[i]@,
        c@.nested_virt == c.nested_virt,
        c@.snd_device == c.snd_device,
        c@.console_output is Some == c.console_output is Some,
        c.console_output is Some ==> c@.console_output->0 == c.console_output->0@,
        c@.virtio_net == c.virtio_net,
        c@.secrets_required == c.secrets_required,
        c@.workload_env.len() == c.workload_env@.len(),
        forall|i: int| 0 <= i < c.workload_env@.len() ==> #[trigger] c@.workload_env[i] == c.workload_env@[i]@,
        c@.workload_workdir is Some == c.workload_workdir is Some,
        c.workload_workdir is Some ==> c@.workload_workdir->0 == c.workload_workdir->0@,
        c@.workload_user is Some == c.workload_user is Some,
        c.workload_user is Some ==> c@.workload_user->0 == c.workload_user->0@,
        c@.security == c.security,
        c@.security_status == c.security_status,
        c@.auto_remove == c.auto_remove,
        c@.auto_stop_secs == c.auto_stop_secs,
        c@.auto_delete_secs == c.auto_delete_secs,
        c@.last_activity_at == c.last_activity_at,
        c@.last_error is Some == c.last_error is Some,
        c.last_error is Some ==> c@.last_error->0 == c.last_error->0@,
{
}

/// Each part of a secret is seen as it is, under its own name.
pub proof fn law_secrets_are_seen_as_they_are(s: Secret)
    ensures
        s@.name == s.name@,
        s@.hosts.len() == s.hosts@.len(),
        forall|i: int| 0 <= i < s.hosts@.len() ==> #[trigger] s@.hosts[i] == s.hosts@[i]@,
        s@.value == s.value@,
{
}

/// Whether texts are those of strings, one by one.
pub open spec fn same_texts(a: Seq<Seq<char>>, b: Seq<String>) -> bool {
    a.len() == b.len() && forall|i: int| 0 <= i < a.len() ==> #[trigger] a[i] == b[i]@
}

/// Each thing to do in a creation is seen with all that it carries.
pub proof fn law_creation_tasks_are_seen_as_they_are(t: CreateTask)
    ensures
        match t {
            CreateTask::CheckPorts(p) => t@ matches CreateOp::CheckPorts(q) && same_texts(q, p@),
            CreateTask::Pull(r) => t@ == CreateOp::Pull(r@),
            CreateTask::BuildBase { rootfs, key } => t@ == CreateOp::BuildBase(rootfs@, key@),
            CreateTask::CheckDirectory(p) => t@ == CreateOp::CheckDirectory(p@),
            CreateTask::CheckFile(p) => t@ == CreateOp::CheckFile(p@),
            CreateTask::MergeImageConfig(c) => t@ == CreateOp::MergeImageConfig(c),
            CreateTask::Configure => t@ is Configure,
            CreateTask::ResolveVolumes(v) => t@ matches CreateOp::ResolveVolumes(q) && same_texts(
                q,
                v@,
            ),
            CreateTask::Spawn { detached } => t@ == CreateOp::Spawn(detached),
            CreateTask::LinkVolumes(v) => t@ matches CreateOp::LinkVolumes(q) && q.len()
                == v@.len() && forall|i: int|
                0 <= i < q.len() ==> #[trigger] q[i] == (v@[i].tag@, v@[i].path@),
            CreateTask::WaitReady(n) => t@ == CreateOp::WaitReady(n),
            CreateTask::Finished => t@ is Finished,
            CreateTask::Fail(e) => t@ == CreateOp::Fail(e@),
        },
{
}

/// Each thing to do in a start is seen with all that it carries.
pub proof fn law_start_actions_are_seen_as_they_are(a: SpawnAction)
    ensures
        match a {
            SpawnAction::LookUpName(n) => a@ == SpawnOp::LookUpName(n@),
            SpawnAction::MakeId => a@ is MakeId,
            SpawnAction::FindGuest => a@ is FindGuest,
            SpawnAction::PutGuest(root) => a@ == SpawnOp::PutGuest(root@),
            SpawnAction::MakeOverlay { base, format } => a@ == SpawnOp::MakeOverlay(base@, format),
            SpawnAction::MintSecrets => a@ is MintSecrets,
            SpawnAction::EncodeBoot(g) => a@ matches SpawnOp::EncodeBoot(id, network, ca) && {
                &&& id == g.vm_id@
                &&& network == g.network
                &&& ca is Some == g.mitm_ca_pem is Some
                &&& ca is Some ==> ca->0 == g.mitm_ca_pem->0@
            },
            SpawnAction::ResolvePorts(p) => a@ matches SpawnOp::ResolvePorts(q) && same_texts(q, p@),
            SpawnAction::StartNetwork(n) => a@ matches SpawnOp::StartNetwork(q) && same_texts(q, n@),
            SpawnAction::CheckPorts(p) => a@ matches SpawnOp::CheckPorts(q) && same_texts(q, p@),
            SpawnAction::KeepSecrets => a@ is KeepSecrets,
            SpawnAction::SpawnShim { config_path, watch_parent } => a@ == SpawnOp::SpawnShim(
                config_path@,
                watch_parent,
            ),
            SpawnAction::Record => a@ is Record,
            SpawnAction::StopNetworkAndFail(e) => a@ == SpawnOp::StopNetworkAndFail(e@),
            SpawnAction::Fail(e) => a@ == SpawnOp::Fail(e@),
        },
{
}

/// Each libkrun call is seen with all that it carries.
pub proof fn law_calls_are_seen_as_they_are(c: KrunCall)
    ensures
        match c {
            KrunCall::SetLogLevel(l) => c@ == KrunOp::SetLogLevel(l),
            KrunCall::SetVmConfig { vcpus, ram_mib } => c@ == KrunOp::SetVmConfig(vcpus, ram_mib),
            KrunCall::SetRoot(p) => c@ == KrunOp::SetRoot(p@),
            KrunCall::AddDisk { block_id, path, format, read_only } => c@ == KrunOp::AddDisk(
                block_id@,
                path@,
                format,
                read_only,
            ),
            KrunCall::SetRootDiskRemount { device, fstype, options } => {
                c@ matches KrunOp::SetRootDiskRemount(d, f, o) && {
                    &&& d == device@
                    &&& f is Some == fstype is Some
                    &&& f is Some ==> f->0 == fstype->0@
                    &&& o is Some == options is Some
                    &&& o is Some ==> o->0 == options->0@
                }
            },
            KrunCall::AddVirtioFs { tag, path } => c@ == KrunOp::AddVirtioFs(tag@, path@),
            KrunCall::AddNetUnixStream { path, mac } => c@ == KrunOp::AddNetUnixStream(path@, mac),
            KrunCall::AddNetUnixGram { path, mac } => c@ == KrunOp::AddNetUnixGram(path@, mac),
            KrunCall::SetPortMap(p) => c@ matches KrunOp::SetPortMap(q) && same_texts(q, p@),
            KrunCall::SetWorkdir(p) => c@ == KrunOp::SetWorkdir(p@),
            KrunCall::SetExec { path, args, env } => c@ matches KrunOp::SetExec(p, a, e) && {
                &&& p == path@
                &&& same_texts(a, args@)
                &&& e is Some == env is Some
                &&& e is Some ==> same_texts(e->0, env->0@)
            },
            KrunCall::SetEnv(e) => c@ matches KrunOp::SetEnv(q) && same_texts(q, e@),
            KrunCall::SetUid(u) => c@ == KrunOp::SetUid(u),
            KrunCall::SetGid(g) => c@ == KrunOp::SetGid(g),
            KrunCall::SetRlimits(r) => c@ matches KrunOp::SetRlimits(q) && same_texts(q, r@),
            KrunCall::SetNestedVirt(b) => c@ == KrunOp::SetNestedVirt(b),
            KrunCall::SetSndDevice(b) => c@ == KrunOp::SetSndDevice(b),
            KrunCall::SetConsoleOutput(p) => c@ == KrunOp::SetConsoleOutput(p@),
            KrunCall::AddVsockPort { port, path, listen } => c@ == KrunOp::AddVsockPort(
                port,
                path@,
                listen,
            ),
        },
{
}

} // verus!
