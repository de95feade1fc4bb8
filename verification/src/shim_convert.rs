//! From the configuration of a machine to what its shim is told.

use vstd::prelude::*;
use crate::shim::{ShimConfig, ShimDiskFormat, ShimNetwork, ShimVirtioFs, ShimVsockPort};
use crate::shim;
use crate::state::{DiskFormat, VirtioFs, VmConfig, VsockPort};
use crate::state;
use crate::text;

verus! {

/// The format as the shim names it.
pub open spec fn shim_format(f: DiskFormat) -> ShimDiskFormat {
    match f {
        DiskFormat::Qcow2 => ShimDiskFormat::Qcow2,
        DiskFormat::Raw => ShimDiskFormat::Raw,
    }
}

/// Tag and path of each shared directory.
pub open spec fn share_views(v: Seq<ShimVirtioFs>) -> Seq<(Seq<char>, Seq<char>)> {
    Seq::new(v.len(), |i: int| (v[i].tag@, v[i].path@))
}

/// Port, path and direction of each vsock port.
pub open spec fn vsock_views(v: Seq<ShimVsockPort>) -> Seq<(u32, Seq<char>, bool)> {
    Seq::new(v.len(), |i: int| (v[i].port, v[i].path@, v[i].listen))
}

/// Converts shared directories.
fn shares(v: &Vec<VirtioFs>) -> (r: Vec<ShimVirtioFs>)
    ensures
        share_views(r@) == state::share_views(v@),
{
    let mut out: Vec<ShimVirtioFs> = Vec::new();
    let mut i: usize = 0;
    while i < v.len()
        invariant
            i <= v.len(),
            share_views(out@) == state::share_views(v@).take(i as int),
        decreases v.len() - i,
    {
        let ghost before = share_views(out@);
        out.push(ShimVirtioFs { tag: v[i].tag.clone(), path: v[i].path.clone() });
        assert(share_views(out@) =~= before.push((v@[i as int].tag@, v@[i as int].path@)));
        i = i + 1;
        assert(share_views(out@) =~= state::share_views(v@).take(i as int));
    }
    assert(state::share_views(v@).take(i as int) =~= state::share_views(v@));
    out
}

/// Converts vsock ports.
fn vsocks(v: &Vec<VsockPort>) -> (r: Vec<ShimVsockPort>)
    ensures
        vsock_views(r@) == state::vsock_views(v@),
{
    let mut out: Vec<ShimVsockPort> = Vec::new();
    let mut i: usize = 0;
    while i < v.len()
        invariant
            i <= v.len(),
            vsock_views(out@) == state::vsock_views(v@).take(i as int),
        decreases v.len() - i,
    {
        let ghost before = vsock_views(out@);
        out.push(
            ShimVsockPort { port: v[i].port, path: v[i].path.clone(), listen: v[i].listen },
        );
        assert(vsock_views(out@) =~= before.push(
            (v@[i as int].port, v@[i as int].path@, v@[i as int].listen),
        ));
        i = i + 1;
        assert(vsock_views(out@) =~= state::vsock_views(v@).take(i as int));
    }
    assert(state::vsock_views(v@).take(i as int) =~= state::vsock_views(v@));
    out
}

/// What the shim is told of a machine. With a network backend there is no port
/// map: the backend publishes the ports. Environment, directory and user of
/// commands are no business of the shim.
pub open spec fn converts(
    r: ShimConfig,
    vm_id: Seq<char>,
    c: state::VmConfigV,
    network: Option<ShimNetwork>,
) -> bool {
    &&& r.vm_id@ == vm_id
    &&& r.vcpus == c.vcpus
    &&& r.ram_mib == c.ram_mib
    &&& text::opt_view(r.rootfs) == c.rootfs
    &&& text::opt_view(r.root_disk) == c.root_disk
    &&& r.disk_format == shim_format(c.disk_format)
    &&& share_views(r.virtiofs@) == c.virtiofs
    &&& text::views(r.ports@) == (if network is Some {
        seq![]
    } else {
        c.ports
    })
    &&& vsock_views(r.vsock_ports@) == c.vsock_ports
    &&& r.network == network
    &&& r.log_level == c.log_level
    &&& text::opt_view(r.exec_path) == c.exec_path
    &&& text::views(r.exec_args@) == c.exec_args
    &&& text::opt_views(r.env) == c.env
    &&& text::opt_view(r.workdir) == c.workdir
    &&& r.uid == c.uid
    &&& r.gid == c.gid
    &&& text::views(r.rlimits@) == c.rlimits
    &&& r.nested_virt == c.nested_virt
    &&& r.snd_device == c.snd_device
    &&& text::opt_view(r.console_output) == c.console_output
}

/// Converts the configuration of a machine.
pub fn to_shim_config(vm_id: &str, config: &VmConfig, network: Option<ShimNetwork>) -> (r:
    ShimConfig)
    ensures
        converts(r, vm_id@, config@, network),
{
    let ports: Vec<String> = match &network {
        Some(_) => Vec::new(),
        None => text::clone_strings(&config.ports),
    };
    assert(network is Some ==> text::views(ports@) =~= seq![]);
    ShimConfig {
        vm_id: vm_id.to_owned(),
        vcpus: config.vcpus,
        ram_mib: config.ram_mib,
        rootfs: text::clone_opt(&config.rootfs),
        root_disk: text::clone_opt(&config.root_disk),
        disk_format: match config.disk_format {
            DiskFormat::Qcow2 => ShimDiskFormat::Qcow2,
            DiskFormat::Raw => ShimDiskFormat::Raw,
        },
        virtiofs: shares(&config.virtiofs),
        ports,
        vsock_ports: vsocks(&config.vsock_ports),
        network,
        log_level: config.log_level,
        exec_path: text::clone_opt(&config.exec_path),
        exec_args: text::clone_strings(&config.exec_args),
        env: shim::clone_opt_strings(&config.env),
        workdir: text::clone_opt(&config.workdir),
        uid: config.uid,
        gid: config.gid,
        rlimits: text::clone_strings(&config.rlimits),
        nested_virt: config.nested_virt,
        snd_device: config.snd_device,
        console_output: text::clone_opt(&config.console_output),
    }
}

/// A machine with a network backend boots without a port map, and one without
/// maps exactly its ports.
pub proof fn law_ports_go_one_way(
    r: ShimConfig,
    vm_id: Seq<char>,
    c: state::VmConfigV,
    network: Option<ShimNetwork>,
)
    requires
        converts(r, vm_id, c, network),
    ensures
        network is Some ==> shim::network_ops(r).len() == 1 && shim::attaches_network(
            shim::network_ops(r)[0],
        ),
        network is None && c.ports.len() > 0 ==> shim::network_ops(r) == seq![
            shim::KrunOp::SetPortMap(c.ports),
        ],
        network is None && c.ports.len() == 0 ==> shim::network_ops(r).len() == 0,
{
    assert(text::views(r.ports@).len() == r.ports@.len());
}

} // verus!
