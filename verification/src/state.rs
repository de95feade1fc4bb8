//! Configuration and recorded state of managed virtual machines.

use vstd::prelude::*;
use crate::security::{SecurityOptions, SecurityReport};
use crate::text;

verus! {

/// Name of the variable through which the guest agent gets its boot settings.
pub const GUEST_BOOT_CONFIG_ENV: &'static str = "BUX_GUEST_CONFIG";

/// Format of a disk image.
#[derive(Debug, Clone, Copy, PartialEq, Eq, Structural)]
pub enum DiskFormat {
    /// A plain image.
    Raw,
    /// A copy-on-write image.
    Qcow2,
}

/// A host directory shared with the guest.
#[derive(Debug)]
pub struct VirtioFs {
    /// Name under which the guest mounts it.
    pub tag: String,
    /// Host directory.
    pub path: String,
}

/// A guest vsock port tied to a host socket.
#[derive(Debug)]
pub struct VsockPort {
    /// Guest port.
    pub port: u32,
    /// Host socket.
    pub path: String,
    /// Whether the host listens.
    pub listen: bool,
}

/// A guest port that is reachable on the host.
#[derive(Debug, Clone, Copy, PartialEq, Eq, Structural)]
pub struct PublishedPort {
    /// Port on the host.
    pub host_port: u16,
    /// Port in the guest.
    pub guest_port: u16,
}

/// Configuration of a virtual machine.
#[derive(Debug)]
pub struct VmConfig {
    /// Number of processors.
    pub vcpus: u8,
    /// Memory in MiB.
    pub ram_mib: u32,
    /// Root directory.
    pub rootfs: Option<String>,
    /// Root disk.
    pub root_disk: Option<String>,
    /// Format of the disk.
    pub disk_format: DiskFormat,
    /// Disk image under the machine's own overlay.
    pub base_disk: Option<String>,
    /// Program that the guest runs.
    pub exec_path: Option<String>,
    /// Arguments of that program.
    pub exec_args: Vec<String>,
    /// Boot environment.
    pub env: Option<Vec<String>>,
    /// Boot working directory.
    pub workdir: Option<String>,
    /// Port specifications.
    pub ports: Vec<String>,
    /// Hosts and networks that the guest may reach; empty for all.
    pub allow_net: Vec<String>,
    /// Ports that are reachable on the host.
    pub published_ports: Vec<PublishedPort>,
    /// Shared directories.
    pub virtiofs: Vec<VirtioFs>,
    /// Vsock ports.
    pub vsock_ports: Vec<VsockPort>,
    /// Log level of libkrun.
    pub log_level: Option<u32>,
    /// Boot user id.
    pub uid: Option<u32>,
    /// Boot group id.
    pub gid: Option<u32>,
    /// Resource limits.
    pub rlimits: Vec<String>,
    /// Nested virtualisation.
    pub nested_virt: Option<bool>,
    /// Sound device.
    pub snd_device: Option<bool>,
    /// File for console output.
    pub console_output: Option<String>,
    /// Whether the machine has a network backend.
    pub virtio_net: bool,
    /// Whether secrets have to be supplied for every start.
    pub secrets_required: bool,
    /// Environment of commands.
    pub workload_env: Vec<String>,
    /// Working directory of commands.
    pub workload_workdir: Option<String>,
    /// User of commands.
    pub workload_user: Option<String>,
    /// Isolation that is asked for.
    pub security: SecurityOptions,
    /// Isolation that was achieved.
    pub security_status: Option<SecurityReport>,
    /// Whether the machine is removed once it stops.
    pub auto_remove: bool,
    /// Idle seconds after which to stop.
    pub auto_stop_secs: Option<u64>,
    /// Stopped seconds after which to delete.
    pub auto_delete_secs: Option<u64>,
    /// Time of the last activity, in seconds.
    pub last_activity_at: Option<u64>,
    /// Description of the last failure.
    pub last_error: Option<String>,
}

/// A [`VmConfig`] with its texts.
#[verifier::ext_equal]
pub struct VmConfigV {
    pub vcpus: u8,
    pub ram_mib: u32,
    pub rootfs: Option<Seq<char>>,
    pub root_disk: Option<Seq<char>>,
    pub disk_format: DiskFormat,
    pub base_disk: Option<Seq<char>>,
    pub exec_path: Option<Seq<char>>,
    pub exec_args: Seq<Seq<char>>,
    pub env: Option<Seq<Seq<char>>>,
    pub workdir: Option<Seq<char>>,
    pub ports: Seq<Seq<char>>,
    pub allow_net: Seq<Seq<char>>,
    pub published_ports: Seq<PublishedPort>,
    pub virtiofs: Seq<(Seq<char>, Seq<char>)>,
    pub vsock_ports: Seq<(u32, Seq<char>, bool)>,
    pub log_level: Option<u32>,
    pub uid: Option<u32>,
    pub gid: Option<u32>,
    pub rlimits: Seq<Seq<char>>,
    pub nested_virt: Option<bool>,
    pub snd_device: Option<bool>,
    pub console_output: Option<Seq<char>>,
    pub virtio_net: bool,
    pub secrets_required: bool,
    pub workload_env: Seq<Seq<char>>,
    pub workload_workdir: Option<Seq<char>>,
    pub workload_user: Option<Seq<char>>,
    pub security: SecurityOptions,
    pub security_status: Option<SecurityReport>,
    pub auto_remove: bool,
    pub auto_stop_secs: Option<u64>,
    pub auto_delete_secs: Option<u64>,
    pub last_activity_at: Option<u64>,
    pub last_error: Option<Seq<char>>,
}

/// Tag and path of each shared directory.
pub open spec fn share_views(v: Seq<VirtioFs>) -> Seq<(Seq<char>, Seq<char>)> {
    Seq::new(v.len(), |i: int| (v[i].tag@, v[i].path@))
}

/// The same shared directories once more.
pub fn clone_shares(v: &Vec<VirtioFs>) -> (r: Vec<VirtioFs>)
    ensures
        share_views(r@) == share_views(v@),
{
    let mut out: Vec<VirtioFs> = Vec::new();
    let mut i: usize = 0;
    while i < v.len()
        invariant
            i <= v.len(),
            out@.len() == i,
            forall|j: int|
                0 <= j < i ==> (#[trigger] out@[j]).tag@ == v@[j].tag@ && out@[j].path@
                    == v@[j].path@,
        decreases v.len() - i,
    {
        out.push(VirtioFs { tag: v[i].tag.clone(), path: v[i].path.clone() });
        i = i + 1;
    }
    assert(share_views(out@) =~= share_views(v@));
    out
}

/// Port, path and direction of each vsock port.
pub open spec fn vsock_views(v: Seq<VsockPort>) -> Seq<(u32, Seq<char>, bool)> {
    Seq::new(v.len(), |i: int| (v[i].port, v[i].path@, v[i].listen))
}

impl View for VmConfig {
    type V = VmConfigV;

    open spec fn view(&self) -> VmConfigV {
        VmConfigV {
            vcpus: self.vcpus,
            ram_mib: self.ram_mib,
            rootfs: text::opt_view(self.rootfs),
            root_disk: text::opt_view(self.root_disk),
            disk_format: self.disk_format,
            base_disk: text::opt_view(self.base_disk),
            exec_path: text::opt_view(self.exec_path),
            exec_args: text::views(self.exec_args@),
            env: text::opt_views(self.env),
            workdir: text::opt_view(self.workdir),
            ports: text::views(self.ports@),
            allow_net: text::views(self.allow_net@),
            published_ports: self.published_ports@,
            virtiofs: share_views(self.virtiofs@),
            vsock_ports: vsock_views(self.vsock_ports@),
            log_level: self.log_level,
            uid: self.uid,
            gid: self.gid,
            rlimits: text::views(self.rlimits@),
            nested_virt: self.nested_virt,
            snd_device: self.snd_device,
            console_output: text::opt_view(self.console_output),
            virtio_net: self.virtio_net,
            secrets_required: self.secrets_required,
            workload_env: text::views(self.workload_env@),
            workload_workdir: text::opt_view(self.workload_workdir),
            workload_user: text::opt_view(self.workload_user),
            security: self.security,
            security_status: self.security_status,
            auto_remove: self.auto_remove,
            auto_stop_secs: self.auto_stop_secs,
            auto_delete_secs: self.auto_delete_secs,
            last_activity_at: self.last_activity_at,
            last_error: text::opt_view(self.last_error),
        }
    }
}

/// Status of a machine.
#[derive(Debug)]
pub enum Status {
    /// Its shim was started.
    Running,
    /// It is stopped.
    Stopped,
    /// Another status, as far as decisions depend on it.
    Other {
        /// Name of the status.
        name: String,
        /// Whether a process belongs to the machine.
        active: bool,
        /// Whether the machine may be removed.
        removable: bool,
    },
}

/// Whether a process belongs to a machine of this status.
pub open spec fn active(s: Status) -> bool {
    match s {
        Status::Running => true,
        Status::Stopped => false,
        Status::Other { active, .. } => active,
    }
}

/// Whether a machine of this status may be removed.
pub open spec fn removable(s: Status) -> bool {
    match s {
        Status::Running => false,
        Status::Stopped => true,
        Status::Other { removable, .. } => removable,
    }
}

/// Name of a status.
pub open spec fn status_name(s: Status) -> Seq<char> {
    match s {
        Status::Running => "Running"@,
        Status::Stopped => "Stopped"@,
        Status::Other { name, .. } => name@,
    }
}

impl Status {
    /// Whether a process belongs to the machine.
    pub fn is_active(&self) -> (r: bool)
        ensures
            r == active(*self),
    {
        match self {
            Status::Running => true,
            Status::Stopped => false,
            Status::Other { active, .. } => *active,
        }
    }

    /// Whether the machine may be removed.
    pub fn can_remove(&self) -> (r: bool)
        ensures
            r == removable(*self),
    {
        match self {
            Status::Running => false,
            Status::Stopped => true,
            Status::Other { removable, .. } => *removable,
        }
    }

    /// Name of the status.
    pub fn name(&self) -> (r: String)
        ensures
            r@ == status_name(*self),
    {
        match self {
            Status::Running => "Running".to_owned(),
            Status::Stopped => "Stopped".to_owned(),
            Status::Other { name, .. } => name.clone(),
        }
    }
}

/// Record of a virtual machine.
#[derive(Debug)]
pub struct VmState {
    /// Name given by the runtime.
    pub id: String,
    /// Name given by the user.
    pub name: Option<String>,
    /// Process id of the shim.
    pub pid: i32,
    /// Image that the machine was made from.
    pub image: Option<String>,
    /// Socket of the guest agent.
    pub socket: String,
    /// Status.
    pub status: Status,
    /// Configuration.
    pub config: VmConfig,
    /// When it was made, in nanoseconds counted from 1970.
    pub created_at: i128,
}

/// A running machine has a process and cannot be removed; a stopped one has none
/// and can; another status is what it says of itself.
pub proof fn law_status_says_what_may_be_done(s: Status)
    ensures
        s is Running ==> active(s) && !removable(s) && status_name(s) == "Running"@,
        s is Stopped ==> !active(s) && removable(s) && status_name(s) == "Stopped"@,
        (s matches Status::Other { name, active: a, removable: r } ==> active(s) == a && removable(s)
            == r && status_name(s) == name@),
{
}

} // verus!
