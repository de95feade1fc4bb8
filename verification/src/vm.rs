//! Settings from which a virtual machine is made.

use vstd::prelude::*;
use crate::secrets;
use crate::secrets::{Secret, SecretV};
use crate::security::SecurityOptions;
use crate::state;
use crate::state::VirtioFs;
use crate::text;

verus! {

/// Process configuration of a container image.
pub struct ImageConfig {
    /// Environment.
    pub env: Option<Vec<String>>,
    /// Working directory.
    pub working_dir: Option<String>,
    /// Entry point and default arguments.
    pub command: Vec<String>,
}

/// Settings of a machine that is to be made. What is not set is left at its
/// default.
pub struct VmBuilder {
    /// Number of processors.
    pub vcpus: Option<u8>,
    /// Memory in MiB.
    pub ram_mib: Option<u32>,
    /// Log level of libkrun.
    pub log_level: Option<u32>,
    /// Root directory.
    pub root: Option<String>,
    /// Disk image under the machine's own overlay.
    pub base_disk: Option<String>,
    /// Port specifications.
    pub ports: Vec<String>,
    /// Hosts and networks that the guest may reach; empty for all.
    pub allow_net: Vec<String>,
    /// Whether the machine has a network backend.
    pub virtio_net: Option<bool>,
    /// Secrets of the host.
    pub secrets: Vec<Secret>,
    /// Shared directories.
    pub virtiofs: Vec<VirtioFs>,
    /// Resource limits.
    pub rlimits: Vec<String>,
    /// Nested virtualisation.
    pub nested_virt: Option<bool>,
    /// Sound device.
    pub snd_device: Option<bool>,
    /// File for console output.
    pub console_output: Option<String>,
    /// Environment of commands.
    pub workload_env: Vec<String>,
    /// Working directory of commands.
    pub workload_workdir: Option<String>,
    /// User of commands.
    pub user: Option<String>,
    /// Isolation that is asked for.
    pub security: Option<SecurityOptions>,
    /// Idle seconds after which to stop.
    pub auto_stop_secs: Option<u64>,
    /// Stopped seconds after which to delete.
    pub auto_delete_secs: Option<u64>,
}

/// A [`VmBuilder`] with its texts.
#[verifier::ext_equal]
pub struct VmBuilderV {
    pub vcpus: Option<u8>,
    pub ram_mib: Option<u32>,
    pub log_level: Option<u32>,
    pub root: Option<Seq<char>>,
    pub base_disk: Option<Seq<char>>,
    pub ports: Seq<Seq<char>>,
    pub allow_net: Seq<Seq<char>>,
    pub virtio_net: Option<bool>,
    pub secrets: Seq<SecretV>,
    pub virtiofs: Seq<(Seq<char>, Seq<char>)>,
    pub rlimits: Seq<Seq<char>>,
    pub nested_virt: Option<bool>,
    pub snd_device: Option<bool>,
    pub console_output: Option<Seq<char>>,
    pub workload_env: Seq<Seq<char>>,
    pub workload_workdir: Option<Seq<char>>,
    pub user: Option<Seq<char>>,
    pub security: Option<SecurityOptions>,
    pub auto_stop_secs: Option<u64>,
    pub auto_delete_secs: Option<u64>,
}

impl View for VmBuilder {
    type V = VmBuilderV;

    open spec fn view(&self) -> VmBuilderV {
        VmBuilderV {
            vcpus: self.vcpus,
            ram_mib: self.ram_mib,
            log_level: self.log_level,
            root: text::opt_view(self.root),
            base_disk: text::opt_view(self.base_disk),
            ports: text::views(self.ports@),
            allow_net: text::views(self.allow_net@),
            virtio_net: self.virtio_net,
            secrets: secrets::secret_views(self.secrets@),
            virtiofs: state::share_views(self.virtiofs@),
            rlimits: text::views(self.rlimits@),
            nested_virt: self.nested_virt,
            snd_device: self.snd_device,
            console_output: text::opt_view(self.console_output),
            workload_env: text::views(self.workload_env@),
            workload_workdir: text::opt_view(self.workload_workdir),
            user: text::opt_view(self.user),
            security: self.security,
            auto_stop_secs: self.auto_stop_secs,
            auto_delete_secs: self.auto_delete_secs,
        }
    }
}

/// Settings of which none is set.
pub open spec fn cleared() -> VmBuilderV {
    VmBuilderV {
        vcpus: None,
        ram_mib: None,
        log_level: None,
        root: None,
        base_disk: None,
        ports: seq![],
        allow_net: seq![],
        virtio_net: None,
        secrets: seq![],
        virtiofs: seq![],
        rlimits: seq![],
        nested_virt: None,
        snd_device: None,
        console_output: None,
        workload_env: seq![],
        workload_workdir: None,
        user: None,
        security: None,
        auto_stop_secs: None,
        auto_delete_secs: None,
    }
}

impl VmBuilder {
    /// Settings of which none is set.
    pub fn new() -> (b: VmBuilder)
        ensures
            b@ == cleared(),
    {
        let b = VmBuilder {
            vcpus: None,
            ram_mib: None,
            log_level: None,
            root: None,
            base_disk: None,
            ports: Vec::new(),
            allow_net: Vec::new(),
            virtio_net: None,
            secrets: Vec::new(),
            virtiofs: Vec::new(),
            rlimits: Vec::new(),
            nested_virt: None,
            snd_device: None,
            console_output: None,
            workload_env: Vec::new(),
            workload_workdir: None,
            user: None,
            security: None,
            auto_stop_secs: None,
            auto_delete_secs: None,
        };
        assert(b@ =~= cleared());
        b
    }
}

} // verus!
