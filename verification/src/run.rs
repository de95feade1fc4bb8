//! `bux run` and `bux create`: from command-line arguments to a launch.

use vstd::prelude::*;
use crate::secrets;
use crate::secrets::{SecretError, SecretFault};
use crate::state::VirtioFs;
use crate::text;
use crate::vm::{ImageConfig, VmBuilder};

verus! {

/// Arguments of `bux run`.
pub struct RunArgs {
    /// Container image reference.
    pub image: Option<String>,
    /// Root directory.
    pub root: Option<String>,
    /// Root disk image.
    pub root_disk: Option<String>,
    /// Whether to make a disk image from the root directory.
    pub disk: bool,
    /// Name of the machine.
    pub name: Option<String>,
    /// Whether to run in the background.
    pub detach: bool,
    /// Whether to remove the machine when it stops.
    pub rm: bool,
    /// Number of processors.
    pub cpus: u8,
    /// Memory in MiB.
    pub memory: u32,
    /// Working directory of the command.
    pub workdir: Option<String>,
    /// Ports to publish.
    pub publish: Vec<String>,
    /// Hosts and networks that the guest may reach.
    pub allow_net: Vec<String>,
    /// Network mode: `enabled` or `none`.
    pub network: String,
    /// Secret specifications.
    pub secrets: Vec<String>,
    /// Bind mounts.
    pub volume: Vec<String>,
    /// Environment assignments.
    pub env: Vec<String>,
    /// Files of environment assignments.
    pub env_file: Vec<String>,
    /// User of the command.
    pub user: Option<String>,
    /// Whether to keep standard input open.
    pub interactive: bool,
    /// Whether to allocate a terminal.
    pub tty: bool,
    /// Program that replaces the image's entry point.
    pub entrypoint: Option<String>,
    /// Resource limits.
    pub ulimit: Vec<String>,
    /// Whether to enable nested virtualisation.
    pub nested_virt: bool,
    /// Whether to add a sound device.
    pub snd: bool,
    /// File for console output.
    pub console_output: Option<String>,
    /// Log level of libkrun.
    pub log_level: u32,
    /// Command and its arguments.
    pub command: Vec<String>,
}

/// Arguments of `bux create`.
pub struct CreateArgs {
    /// Container image reference.
    pub image: String,
    /// Name of the machine.
    pub name: Option<String>,
    /// Whether to remove the machine when it stops.
    pub rm: bool,
    /// Number of processors.
    pub cpus: u8,
    /// Memory in MiB.
    pub memory: u32,
    /// Ports to publish.
    pub publish: Vec<String>,
    /// Hosts and networks that the guest may reach.
    pub allow_net: Vec<String>,
    /// Network mode: `enabled` or `none`.
    pub network: String,
    /// Secret specifications.
    pub secrets: Vec<String>,
    /// Bind mounts.
    pub volume: Vec<String>,
    /// Log level of libkrun.
    pub log_level: u32,
}

/// Whether a run is the one that a creation asks for: in the background, from a
/// disk, and without a command.
pub open spec fn runs_for(a: CreateArgs, r: RunArgs) -> bool {
    &&& r.image == Some(a.image)
    &&& r.root is None && r.root_disk is None
    &&& r.disk && r.detach
    &&& r.name == a.name
    &&& r.rm == a.rm
    &&& r.cpus == a.cpus
    &&& r.memory == a.memory
    &&& r.workdir is None && r.user is None && r.entrypoint is None
    &&& r.publish == a.publish
    &&& r.allow_net == a.allow_net
    &&& r.network == a.network
    &&& r.secrets == a.secrets
    &&& r.volume == a.volume
    &&& r.env@.len() == 0 && r.env_file@.len() == 0
    &&& !r.interactive && !r.tty
    &&& r.ulimit@.len() == 0
    &&& !r.nested_virt && !r.snd && r.console_output is None
    &&& r.log_level == a.log_level
    &&& r.command@.len() == 0
}

impl CreateArgs {
    /// First step of a creation: the image is to be fetched. A base disk is
    /// then made from it.
    pub fn run(&self) -> (r: RootfsRequest)
        ensures
            r == RootfsRequest::Image(self.image),
    {
        RootfsRequest::Image(self.image.clone())
    }

    /// The run that makes the machine.
    fn into_run(self) -> (r: RunArgs)
        ensures
            runs_for(self, r),
    {
        RunArgs {
            image: Some(self.image),
            root: None,
            root_disk: None,
            disk: true,
            name: self.name,
            detach: true,
            rm: self.rm,
            cpus: self.cpus,
            memory: self.memory,
            workdir: None,
            publish: self.publish,
            allow_net: self.allow_net,
            network: self.network,
            secrets: self.secrets,
            volume: self.volume,
            env: Vec::new(),
            env_file: Vec::new(),
            user: None,
            interactive: false,
            tty: false,
            entrypoint: None,
            ulimit: Vec::new(),
            nested_virt: false,
            snd: false,
            console_output: None,
            log_level: self.log_level,
            command: Vec::new(),
        }
    }
}

/// Why a run was refused.
#[derive(Debug)]
pub enum RunError {
    /// A root disk was given.
    RootDisk,
    /// This port specification is malformed.
    Publish(String),
    /// Secrets were given without a network.
    SecretWithoutNetwork,
    /// A secret specification was refused.
    Secret(SecretError),
    /// Options of a command were given without a command.
    OptionsWithoutCommand,
    /// A background run asked for a terminal or standard input.
    DetachedTerminal,
    /// A background run has a command.
    DetachedCommand,
}

/// A [`RunError`] with its text.
pub enum RunFault {
    RootDisk,
    Publish(Seq<char>),
    SecretWithoutNetwork,
    Secret(SecretFault),
    OptionsWithoutCommand,
    DetachedTerminal,
    DetachedCommand,
}

impl View for RunError {
    type V = RunFault;

    open spec fn view(&self) -> RunFault {
        match *self {
            RunError::RootDisk => RunFault::RootDisk,
            RunError::Publish(s) => RunFault::Publish(s@),
            RunError::SecretWithoutNetwork => RunFault::SecretWithoutNetwork,
            RunError::Secret(e) => RunFault::Secret(e@),
            RunError::OptionsWithoutCommand => RunFault::OptionsWithoutCommand,
            RunError::DetachedTerminal => RunFault::DetachedTerminal,
            RunError::DetachedCommand => RunFault::DetachedCommand,
        }
    }
}

/// Description of a refused run.
pub open spec fn fault_text(f: RunFault) -> Seq<char> {
    match f {
        RunFault::RootDisk =>
            "managed bux run no longer supports direct --root-disk boot; use --root/--disk or an OCI image so the runtime can prepare a managed guest rootfs"@,
        RunFault::Publish(s) => "invalid -p "@ + text::debug_form(s),
        RunFault::SecretWithoutNetwork => "--secret requires --network=enabled (gvproxy MITM)"@,
        RunFault::Secret(e) => secrets::fault_text(e),
        RunFault::OptionsWithoutCommand =>
            "env/workdir/user/interactive options require an initial command or image entrypoint under the managed runtime"@,
        RunFault::DetachedTerminal => "detached run does not support -i/-t"@,
        RunFault::DetachedCommand =>
            "detached run with an initial command is not supported by the managed runtime; start the VM detached, then run the command with bux exec"@,
    }
}

impl RunError {
    /// Describes the refusal.
    pub fn message(&self) -> (r: String)
        ensures
            r@ == fault_text(self@),
    {
        match self {
            RunError::RootDisk =>
                "managed bux run no longer supports direct --root-disk boot; use --root/--disk or an OCI image so the runtime can prepare a managed guest rootfs".to_owned(),
            RunError::Publish(s) => {
                let quoted = text::debug_of(s.as_str());
                text::cat2("invalid -p ", quoted.as_str())
            },
            RunError::SecretWithoutNetwork =>
                "--secret requires --network=enabled (gvproxy MITM)".to_owned(),
            RunError::Secret(e) => e.message(),
            RunError::OptionsWithoutCommand =>
                "env/workdir/user/interactive options require an initial command or image entrypoint under the managed runtime".to_owned(),
            RunError::DetachedTerminal => "detached run does not support -i/-t".to_owned(),
            RunError::DetachedCommand =>
                "detached run with an initial command is not supported by the managed runtime; start the VM detached, then run the command with bux exec".to_owned(),
        }
    }
}

// ---------------------------------------------------------------------------
// Root file system
// ---------------------------------------------------------------------------

/// Where the root file system comes from.
#[derive(Debug)]
pub enum RootfsRequest {
    /// Fetch this image.
    Image(String),
    /// Use this directory; where `hash` is set, find its cache key too.
    Directory {
        /// Path.
        path: String,
        /// Whether to find its cache key.
        hash: bool,
    },
    /// The disk image that was given, which needs no directory.
    Disk,
}

/// A root file system that is ready to use.
pub struct ResolvedRootfs {
    /// Directory.
    pub path: String,
    /// Process configuration of the image.
    pub oci_cfg: Option<ImageConfig>,
    /// Key under which a disk made from it is kept.
    pub disk_cache_key: Option<String>,
}

impl ResolvedRootfs {
    /// The root file system of a fetched image. Its cache key is the digest
    /// with hyphens in place of colons.
    pub fn from_image(path: String, digest: &str, config: Option<ImageConfig>) -> (r: Self)
        ensures
            r.path == path,
            r.oci_cfg == config,
            text::opt_view(r.disk_cache_key) == Some(text::replace_char(digest@, ':', '-')),
    {
        ResolvedRootfs {
            path,
            oci_cfg: config,
            disk_cache_key: Some(text::substitute(digest, ':', '-')),
        }
    }

    /// A directory, with its cache key if that was asked for.
    pub fn from_directory(path: String, disk_cache_key: Option<String>) -> (r: Self)
        ensures
            r.path == path,
            r.oci_cfg is None,
            r.disk_cache_key == disk_cache_key,
    {
        ResolvedRootfs { path, oci_cfg: None, disk_cache_key }
    }
}

/// What to make of a root file system.
#[derive(Debug)]
pub enum RootStep {
    /// Make a base disk from it, under its cache key.
    CreateBase,
    /// Boot from the directory itself.
    UseDirectory,
}

/// What the machine boots from.
#[derive(Debug)]
pub enum BootRoot {
    /// An overlay on this disk.
    BaseDisk(String),
    /// This directory.
    Directory(String),
}

/// Whether exactly one source of the root file system is named.
pub open spec fn one_source(a: RunArgs) -> bool {
    ||| a.image is Some && a.root is None && a.root_disk is None
    ||| a.image is None && a.root is Some && a.root_disk is None
    ||| a.image is None && a.root is None && a.root_disk is Some
}

/// The key under which to keep a disk, or `None` where it has to be found by
/// hashing the directory first.
pub fn create_disk_from_rootfs(cache_key: &Option<String>) -> (r: Option<String>)
    ensures
        r == *cache_key,
{
    text::clone_opt(cache_key)
}

impl RunArgs {
    /// Finds out where the root file system comes from.
    pub fn resolve_rootfs(&self) -> (r: RootfsRequest)
        requires
            one_source(*self),
        ensures
            match (self.image, self.root) {
                (Some(image), _) => r == RootfsRequest::Image(image),
                (None, Some(root)) => r == (RootfsRequest::Directory {
                    path: root,
                    hash: self.disk,
                }),
                (None, None) => r is Disk,
            },
    {
        match (&self.image, &self.root) {
            (Some(image), _) => RootfsRequest::Image(image.clone()),
            (None, Some(root)) => RootfsRequest::Directory { path: root.clone(), hash: self.disk },
            (None, None) => RootfsRequest::Disk,
        }
    }

    /// First step of a run: a root disk is refused, and any other source of
    /// the root file system is resolved.
    pub fn run(&self) -> (r: Result<RootfsRequest, RunError>)
        requires
            one_source(*self),
        ensures
            match (self.image, self.root) {
                (Some(image), _) => r == Ok::<RootfsRequest, RunError>(
                    RootfsRequest::Image(image),
                ),
                (None, Some(root)) => r == Ok::<RootfsRequest, RunError>(
                    RootfsRequest::Directory { path: root, hash: self.disk },
                ),
                (None, None) => r matches Err(e) && e@ == RunFault::RootDisk,
            },
    {
        if self.root_disk.is_some() {
            return Err(RunError::RootDisk);
        }
        Ok(self.resolve_rootfs())
    }

    /// Decides what to make of the root file system: images always get a disk,
    /// so that the guest can write, and directories where one is asked for.
    pub fn root_step(&self) -> (r: RootStep)
        ensures
            r is CreateBase <==> self.image is Some || self.disk,
    {
        if self.image.is_some() || self.disk {
            RootStep::CreateBase
        } else {
            RootStep::UseDirectory
        }
    }
}

// ---------------------------------------------------------------------------
// Configuring
// ---------------------------------------------------------------------------

/// A run whose bind mounts are still to be resolved.
pub struct RunDraft {
    /// Settings of the machine.
    pub builder: VmBuilder,
    /// Bind mounts.
    pub volumes: Vec<String>,
    /// Container image reference.
    pub image: Option<String>,
    /// Name of the machine.
    pub name: Option<String>,
    /// Whether to remove the machine when it stops.
    pub auto_remove: bool,
    /// Whether to run in the background.
    pub detach: bool,
    /// Whether to keep standard input open.
    pub interactive: bool,
    /// Whether to allocate a terminal.
    pub tty: bool,
    /// User of the command.
    pub user: Option<String>,
    /// Working directory of the command.
    pub workdir: Option<String>,
    /// Environment of the command.
    pub env: Vec<String>,
    /// Command and its arguments.
    pub cmd: Vec<String>,
}

/// A command to run in a machine.
#[derive(Debug)]
pub struct ExecRequest {
    /// Program.
    pub cmd: String,
    /// Arguments.
    pub args: Vec<String>,
    /// Environment.
    pub env: Vec<String>,
    /// Working directory.
    pub workdir: Option<String>,
    /// User.
    pub user: Option<String>,
    /// Whether to keep standard input open.
    pub interactive: bool,
    /// Whether to allocate a terminal.
    pub tty: bool,
}

/// How a machine is run.
#[derive(Debug)]
pub enum LaunchMode {
    /// In the background, without a command.
    Detached,
    /// In the foreground, with its command if it has one.
    Foreground {
        /// Command.
        request: Option<ExecRequest>,
        /// Whether standard input goes to it.
        interactive: bool,
    },
}

/// A machine that is ready to be made and run.
pub struct Launch {
    /// Settings of the machine.
    pub builder: VmBuilder,
    /// Container image reference.
    pub image: Option<String>,
    /// Name of the machine.
    pub name: Option<String>,
    /// Whether to remove the machine when it stops.
    pub auto_remove: bool,
    /// How it is run.
    pub mode: LaunchMode,
}

/// Working directory of the command: the one that was given, or else the
/// image's. An empty one is none.
pub open spec fn workdir_of(given: Option<Seq<char>>, image: Option<Seq<char>>) -> Option<Seq<char>> {
    let chosen = if given is Some {
        given
    } else {
        image
    };
    if chosen is Some && chosen->0.len() > 0 {
        chosen
    } else {
        None
    }
}

/// The command: an entry point that was given and the arguments; or else the
/// arguments; or else the image's command.
pub open spec fn command_of(
    entrypoint: Option<Seq<char>>,
    command: Seq<Seq<char>>,
    image: Seq<Seq<char>>,
) -> Seq<Seq<char>> {
    match entrypoint {
        Some(e) => seq![e] + command,
        None => if command.len() == 0 {
            image
        } else {
            command
        },
    }
}

/// Working directory of an image.
pub open spec fn image_workdir(c: Option<ImageConfig>) -> Option<Seq<char>> {
    match c {
        Some(i) => text::opt_view(i.working_dir),
        None => None,
    }
}

/// Command of an image.
pub open spec fn image_command(c: Option<ImageConfig>) -> Seq<Seq<char>> {
    match c {
        Some(i) => text::views(i.command@),
        None => seq![],
    }
}

/// Environment of an image.
pub open spec fn image_env(c: Option<ImageConfig>) -> Seq<Seq<char>> {
    match c {
        Some(i) => match i.env {
            Some(e) => text::views(e@),
            None => seq![],
        },
        None => seq![],
    }
}

/// Position of the first refused port specification, or their number.
pub open spec fn first_bad(ok: Seq<bool>) -> int
    decreases ok.len(),
{
    if ok.len() == 0 || !ok[0] {
        0
    } else {
        1 + first_bad(ok.skip(1))
    }
}

/// Whether a network mode means a network.
pub open spec fn networked(mode: Seq<char>) -> bool {
    mode != "none"@
}

/// Why a machine with these ports, secrets and network cannot be configured.
pub open spec fn settings_fault(
    publish: Seq<Seq<char>>,
    ports_ok: Seq<bool>,
    secret_specs: Seq<Seq<char>>,
    allow_net: Seq<Seq<char>>,
    network: Seq<char>,
) -> Option<RunFault> {
    if first_bad(ports_ok) < ports_ok.len() {
        Some(RunFault::Publish(publish[first_bad(ports_ok)]))
    } else if secret_specs.len() > 0 && !networked(network) {
        Some(RunFault::SecretWithoutNetwork)
    } else {
        match secrets::secrets_of(secret_specs, allow_net) {
            Err(e) => Some(RunFault::Secret(e)),
            Ok(_) => None,
        }
    }
}

/// Why a run cannot be configured.
pub open spec fn draft_fault(a: RunArgs, ports_ok: Seq<bool>) -> Option<RunFault> {
    settings_fault(
        text::views(a.publish@),
        ports_ok,
        text::views(a.secrets@),
        text::views(a.allow_net@),
        a.network@,
    )
}

/// Why a creation cannot be configured.
pub open spec fn create_fault(a: CreateArgs, ports_ok: Seq<bool>) -> Option<RunFault> {
    settings_fault(
        text::views(a.publish@),
        ports_ok,
        text::views(a.secrets@),
        text::views(a.allow_net@),
        a.network@,
    )
}

/// Whether a draft is what a creation asks for: a machine in the background
/// with no command, and with nothing of the image but its disk.
pub open spec fn drafts_create(a: CreateArgs, root: BootRoot, d: RunDraft) -> bool {
    let b = d.builder;
    &&& b.vcpus == Some(a.cpus)
    &&& b.ram_mib == Some(a.memory)
    &&& b.log_level == Some(a.log_level)
    &&& match root {
        BootRoot::BaseDisk(p) => b.base_disk == Some(p) && b.root is None,
        BootRoot::Directory(p) => b.root == Some(p) && b.base_disk is None,
    }
    &&& b.ports == a.publish
    &&& b.allow_net == a.allow_net
    &&& b.virtio_net == Some(networked(a.network@))
    &&& secrets::secrets_of(text::views(a.secrets@), text::views(a.allow_net@)) == Ok::<
        Seq<secrets::SecretV>,
        SecretFault,
    >(secrets::secret_views(b.secrets@))
    &&& b.virtiofs@.len() == 0 && b.rlimits@.len() == 0 && b.workload_env@.len() == 0
    &&& b.nested_virt is None && b.snd_device is None && b.console_output is None
    &&& b.workload_workdir is None && b.user is None && b.security is None
    &&& b.auto_stop_secs is None && b.auto_delete_secs is None
    &&& d.volumes == a.volume
    &&& d.image == Some(a.image)
    &&& d.name == a.name
    &&& d.auto_remove == a.rm
    &&& d.detach && !d.interactive && !d.tty
    &&& d.user is None && d.workdir is None
    &&& d.env@.len() == 0
    &&& d.cmd@.len() == 0
}

/// Whether a draft is what the arguments ask for.
pub open spec fn drafts(
    a: RunArgs,
    root: BootRoot,
    oci_cfg: Option<ImageConfig>,
    file_env: Seq<Seq<char>>,
    d: RunDraft,
) -> bool {
    let b = d.builder;
    &&& b.vcpus == Some(a.cpus)
    &&& b.ram_mib == Some(a.memory)
    &&& b.log_level == Some(a.log_level)
    &&& match root {
        BootRoot::BaseDisk(p) => b.base_disk == Some(p) && b.root is None,
        BootRoot::Directory(p) => b.root == Some(p) && b.base_disk is None,
    }
    &&& b.ports == a.publish
    &&& b.allow_net == a.allow_net
    &&& b.virtio_net == Some(networked(a.network@))
    &&& secrets::secrets_of(text::views(a.secrets@), text::views(a.allow_net@)) == Ok::<
        Seq<secrets::SecretV>,
        SecretFault,
    >(secrets::secret_views(b.secrets@))
    &&& b.virtiofs@.len() == 0
    &&& b.rlimits == a.ulimit
    &&& b.nested_virt == (if a.nested_virt {
        Some(true)
    } else {
        None
    })
    &&& b.snd_device == (if a.snd {
        Some(true)
    } else {
        None
    })
    &&& b.console_output == a.console_output
    &&& b.workload_env@.len() == 0
    &&& b.workload_workdir is None && b.user is None && b.security is None
    &&& b.auto_stop_secs is None && b.auto_delete_secs is None
    &&& d.volumes == a.volume
    &&& d.image == a.image
    &&& d.name == a.name
    &&& d.auto_remove == a.rm
    &&& d.detach == a.detach
    &&& d.interactive == a.interactive
    &&& d.tty == a.tty
    &&& d.user == a.user
    &&& text::opt_view(d.workdir) == workdir_of(text::opt_view(a.workdir), image_workdir(oci_cfg))
    &&& text::views(d.env@) == image_env(oci_cfg) + file_env + text::views(a.env@)
    &&& text::views(d.cmd@) == command_of(
        text::opt_view(a.entrypoint),
        text::views(a.command@),
        image_command(oci_cfg),
    )
}

/// Position of the first refused port specification.
fn find_bad(ok: &Vec<bool>) -> (r: usize)
    ensures
        r == first_bad(ok@),
        r <= ok.len(),
{
    let mut i: usize = 0;
    assert(ok@.skip(0) =~= ok@);
    while i < ok.len() && ok[i]
        invariant
            i <= ok.len(),
            first_bad(ok@) == i + first_bad(ok@.skip(i as int)),
        decreases ok.len() - i,
    {
        assert(ok@.skip(i as int)[0] == ok@[i as int]);
        assert(ok@.skip(i as int).skip(1) =~= ok@.skip(i + 1));
        i = i + 1;
    }
    if i < ok.len() {
        assert(ok@.skip(i as int)[0] == ok@[i as int]);
    }
    i
}

/// Adds the texts of one list to another.
fn extend(out: &mut Vec<String>, more: &Vec<String>)
    ensures
        text::views(final(out)@) == text::views(old(out)@) + text::views(more@),
{
    let ghost start = text::views(out@);
    let ghost all = text::views(more@);
    let mut i: usize = 0;
    assert(start + all.take(0) =~= start);
    while i < more.len()
        invariant
            i <= more.len(),
            all == text::views(more@),
            text::views(out@) == start + all.take(i as int),
        decreases more.len() - i,
    {
        let ghost before = text::views(out@);
        out.push(more[i].clone());
        assert(text::views(out@) =~= before.push(more@[i as int]@));
        assert(start + all.take(i + 1) =~= (start + all.take(i as int)).push(all[i as int]));
        i = i + 1;
    }
    assert(all.take(more.len() as int) =~= all);
}

/// Working directory of the command.
fn choose_workdir(given: Option<String>, oci_cfg: &Option<ImageConfig>) -> (r: Option<String>)
    ensures
        text::opt_view(r) == workdir_of(text::opt_view(given), image_workdir(*oci_cfg)),
{
    let chosen = match given {
        Some(w) => Some(w),
        None => match oci_cfg {
            Some(i) => text::clone_opt(&i.working_dir),
            None => None,
        },
    };
    match chosen {
        Some(w) => {
            if w.as_str().is_empty() {
                None
            } else {
                Some(w)
            }
        },
        None => None,
    }
}

/// The command.
fn choose_command(
    entrypoint: Option<String>,
    command: Vec<String>,
    oci_cfg: &Option<ImageConfig>,
) -> (r: Vec<String>)
    ensures
        text::views(r@) == command_of(
            text::opt_view(entrypoint),
            text::views(command@),
            image_command(*oci_cfg),
        ),
{
    assert(text::views(command@).len() == command@.len());
    match entrypoint {
        Some(e) => {
            let ghost ev = e@;
            let mut parts: Vec<String> = Vec::new();
            parts.push(e);
            assert(text::views(parts@) =~= seq![ev]);
            extend(&mut parts, &command);
            parts
        },
        None => {
            if command.len() == 0 {
                match oci_cfg {
                    Some(i) => text::clone_strings(&i.command),
                    None => {
                        let none: Vec<String> = Vec::new();
                        assert(text::views(none@) =~= seq![]);
                        none
                    },
                }
            } else {
                command
            }
        },
    }
}

/// The environment: the image's, then that of files, then what was given.
fn merge_env(oci_cfg: &Option<ImageConfig>, file_env: &Vec<String>, given: &Vec<String>) -> (r: Vec<
    String,
>)
    ensures
        text::views(r@) == image_env(*oci_cfg) + text::views(file_env@) + text::views(given@),
{
    let mut env: Vec<String> = Vec::new();
    assert(text::views(env@) =~= seq![]);
    match oci_cfg {
        Some(i) => match &i.env {
            Some(e) => {
                extend(&mut env, e);
            },
            None => {},
        },
        None => {},
    }
    assert(text::views(env@) =~= image_env(*oci_cfg));
    extend(&mut env, file_env);
    extend(&mut env, given);
    env
}

impl RunArgs {
    /// Second step of a run: from the arguments, the root file system, the
    /// image's configuration, the assignments read from files and the verdict
    /// on each port specification to the settings of the machine.
    pub fn configure(
        self,
        root: BootRoot,
        oci_cfg: Option<ImageConfig>,
        file_env: Vec<String>,
        ports_ok: &Vec<bool>,
    ) -> (r: Result<RunDraft, RunError>)
        requires
            ports_ok@.len() == self.publish@.len(),
        ensures
            match draft_fault(self, ports_ok@) {
                Some(f) => r matches Err(e) && e@ == f,
                None => r matches Ok(d) && drafts(self, root, oci_cfg, text::views(file_env@), d),
            },
    {
        let bad: usize = find_bad(ports_ok);
        if bad < ports_ok.len() {
            assert(text::views(self.publish@)[bad as int] == self.publish@[bad as int]@);
            return Err(RunError::Publish(self.publish[bad].clone()));
        }
        let virtio_net = !text::same_text(self.network.as_str(), "none");
        if self.secrets.len() > 0 && !virtio_net {
            return Err(RunError::SecretWithoutNetwork);
        }
        let parsed = match secrets::parse_secrets(&self.secrets, &self.allow_net) {
            Ok(s) => s,
            Err(e) => {
                return Err(RunError::Secret(e));
            },
        };
        let workdir = choose_workdir(self.workdir, &oci_cfg);
        let cmd = choose_command(self.entrypoint, self.command, &oci_cfg);
        let env = merge_env(&oci_cfg, &file_env, &self.env);
        let mut builder = VmBuilder::new();
        assert(builder@.virtiofs.len() == 0 && builder@.workload_env.len() == 0);
        assert(builder@.root is None && builder@.base_disk is None);
        assert(builder@.nested_virt is None && builder@.snd_device is None);
        assert(builder@.workload_workdir is None && builder@.user is None);
        builder.vcpus = Some(self.cpus);
        builder.ram_mib = Some(self.memory);
        builder.log_level = Some(self.log_level);
        match root {
            BootRoot::BaseDisk(p) => {
                builder.base_disk = Some(p);
            },
            BootRoot::Directory(p) => {
                builder.root = Some(p);
            },
        }
        builder.ports = self.publish;
        builder.allow_net = self.allow_net;
        builder.virtio_net = Some(virtio_net);
        builder.secrets = parsed;
        builder.rlimits = self.ulimit;
        if self.nested_virt {
            builder.nested_virt = Some(true);
        }
        if self.snd {
            builder.snd_device = Some(true);
        }
        builder.console_output = self.console_output;
        Ok(
            RunDraft {
                builder,
                volumes: self.volume,
                image: self.image,
                name: self.name,
                auto_remove: self.rm,
                detach: self.detach,
                interactive: self.interactive,
                tty: self.tty,
                user: self.user,
                workdir,
                env,
                cmd,
            },
        )
    }
}

impl CreateArgs {
    /// Second step of a creation: from the arguments, the root file system and
    /// the verdict on each port specification to the settings of the machine.
    /// The image's command, environment and directory are left to the commands
    /// that are run later.
    pub fn configure_create(self, root: BootRoot, ports_ok: &Vec<bool>) -> (r: Result<
        RunDraft,
        RunError,
    >)
        requires
            ports_ok@.len() == self.publish@.len(),
        ensures
            match create_fault(self, ports_ok@) {
                Some(f) => r matches Err(e) && e@ == f,
                None => r matches Ok(d) && drafts_create(self, root, d),
            },
    {
        let run = self.into_run();
        let ghost asked = run;
        let none: Vec<String> = Vec::new();
        let r = run.configure(root, None, none, ports_ok);
        match &r {
            Ok(d) => {
                assert(text::views(none@).len() == 0);
                assert(text::views(asked.env@).len() == 0);
                assert(text::views(asked.command@).len() == 0);
                assert(text::views(d.env@).len() == d.env@.len());
                assert(text::views(d.cmd@).len() == d.cmd@.len());
            },
            Err(_) => {},
        }
        r
    }
}

// ---------------------------------------------------------------------------
// Launching
// ---------------------------------------------------------------------------

/// Whether options of a command were given.
pub open spec fn has_exec_options(d: RunDraft) -> bool {
    d.workdir is Some || d.user is Some || d.env@.len() > 0 || d.interactive || d.tty
}

/// Why a draft cannot be launched.
pub open spec fn launch_fault(d: RunDraft) -> Option<RunFault> {
    if d.cmd@.len() == 0 && has_exec_options(d) {
        Some(RunFault::OptionsWithoutCommand)
    } else if d.detach && (d.interactive || d.tty) {
        Some(RunFault::DetachedTerminal)
    } else if d.detach && d.cmd@.len() > 0 {
        Some(RunFault::DetachedCommand)
    } else {
        None
    }
}

/// Whether a request is for the command of a draft.
pub open spec fn requests(d: RunDraft, e: ExecRequest) -> bool {
    &&& d.cmd@.len() > 0
    &&& e.cmd@ == d.cmd@[0]@
    &&& text::views(e.args@) == text::views(d.cmd@).skip(1)
    &&& e.env == d.env
    &&& e.workdir == d.workdir
    &&& e.user == d.user
    &&& e.interactive == d.interactive
    &&& e.tty == d.tty
}

/// Whether a launch is what a draft asks for.
pub open spec fn launches(d: RunDraft, shares: Vec<VirtioFs>, l: Launch) -> bool {
    &&& l.builder == (VmBuilder { virtiofs: shares, ..d.builder })
    &&& l.image == d.image
    &&& l.name == d.name
    &&& l.auto_remove == d.auto_remove
    &&& match l.mode {
        LaunchMode::Detached => d.detach && d.cmd@.len() == 0,
        LaunchMode::Foreground { request, interactive } => {
            &&& !d.detach
            &&& interactive == d.interactive
            &&& match request {
                Some(e) => requests(d, e),
                None => d.cmd@.len() == 0,
            }
        },
    }
}

impl RunDraft {
    /// Last step of a run: with the shared directories that the bind mounts
    /// stand for, to the launch.
    pub fn launch(self, shares: Vec<VirtioFs>) -> (r: Result<Launch, RunError>)
        ensures
            match launch_fault(self) {
                Some(f) => r matches Err(e) && e@ == f,
                None => r matches Ok(l) && launches(self, shares, l),
            },
    {
        let has_options = self.workdir.is_some() || self.user.is_some() || self.env.len() > 0
            || self.interactive || self.tty;
        if self.cmd.len() == 0 && has_options {
            return Err(RunError::OptionsWithoutCommand);
        }
        if self.detach && (self.interactive || self.tty) {
            return Err(RunError::DetachedTerminal);
        }
        if self.detach && self.cmd.len() > 0 {
            return Err(RunError::DetachedCommand);
        }
        let mut builder = self.builder;
        builder.virtiofs = shares;
        let mode = if self.detach {
            LaunchMode::Detached
        } else if self.cmd.len() == 0 {
            LaunchMode::Foreground { request: None, interactive: self.interactive }
        } else {
            let args = tail(&self.cmd);
            LaunchMode::Foreground {
                request: Some(
                    ExecRequest {
                        cmd: self.cmd[0].clone(),
                        args,
                        env: self.env,
                        workdir: self.workdir,
                        user: self.user,
                        interactive: self.interactive,
                        tty: self.tty,
                    },
                ),
                interactive: self.interactive,
            }
        };
        Ok(
            Launch {
                builder,
                image: self.image,
                name: self.name,
                auto_remove: self.auto_remove,
                mode,
            },
        )
    }
}

/// All texts but the first.
fn tail(v: &Vec<String>) -> (r: Vec<String>)
    requires
        v@.len() > 0,
    ensures
        text::views(r@) == text::views(v@).skip(1),
{
    let ghost all = text::views(v@);
    let mut out: Vec<String> = Vec::new();
    let mut i: usize = 1;
    assert(text::views(out@) =~= all.subrange(1, 1));
    while i < v.len()
        invariant
            1 <= i <= v.len(),
            all == text::views(v@),
            text::views(out@) == all.subrange(1, i as int),
        decreases v.len() - i,
    {
        let ghost before = text::views(out@);
        out.push(v[i].clone());
        assert(text::views(out@) =~= before.push(v@[i as int]@));
        assert(all.subrange(1, i + 1) =~= all.subrange(1, i as int).push(all[i as int]));
        i = i + 1;
    }
    assert(all.subrange(1, v.len() as int) =~= all.skip(1));
    out
}

/// Secrets reach a machine only where it has a network.
pub proof fn law_secrets_only_with_a_network(
    a: RunArgs,
    root: BootRoot,
    oci_cfg: Option<ImageConfig>,
    file_env: Seq<Seq<char>>,
    ports_ok: Seq<bool>,
    d: RunDraft,
)
    requires
        draft_fault(a, ports_ok) is None,
        drafts(a, root, oci_cfg, file_env, d),
    ensures
        d.builder.secrets@.len() > 0 ==> d.builder.virtio_net == Some(true),
        d.builder.secrets@.len() == a.secrets@.len(),
{
    secrets::law_one_secret_per_spec(text::views(a.secrets@), text::views(a.allow_net@));
    assert(secrets::secret_views(d.builder.secrets@).len() == d.builder.secrets@.len());
}

/// A created machine starts in the background without a command, whatever its
/// image says.
pub proof fn law_created_machine_has_no_command(
    a: CreateArgs,
    root: BootRoot,
    d: RunDraft,
    shares: Vec<VirtioFs>,
    l: Launch,
)
    requires
        drafts_create(a, root, d),
    ensures
        launch_fault(d) is None,
        launches(d, shares, l) ==> l.mode is Detached,
{
}

/// A launch in the background has no command, and one with a command runs it
/// in the foreground.
pub proof fn law_background_has_no_command(d: RunDraft, shares: Vec<VirtioFs>, l: Launch)
    requires
        launch_fault(d) is None,
        launches(d, shares, l),
    ensures
        l.mode is Detached <==> d.detach,
        d.detach ==> d.cmd@.len() == 0 && !has_exec_options(d),
        d.cmd@.len() > 0 ==> l.mode is Foreground && l.mode->request is Some,
{
}

// ---------------------------------------------------------------------------
// Running
// ---------------------------------------------------------------------------

/// How a run in the foreground ended.
#[derive(Debug, Clone, Copy, PartialEq, Eq, Structural)]
pub enum ForegroundEnd {
    /// The command ended with this code.
    Command(i32),
    /// A machine without a command stopped.
    Stopped,
    /// This signal arrived.
    Signal(i32),
}

/// Exit code of a run in the foreground; zero for success. A signal counts as
/// 128 and its number.
pub fn run_foreground_vm(end: ForegroundEnd) -> (r: i32)
    requires
        end matches ForegroundEnd::Signal(n) ==> n <= i32::MAX - 128,
    ensures
        r == (match end {
            ForegroundEnd::Command(code) => code as int,
            ForegroundEnd::Stopped => 0,
            ForegroundEnd::Signal(n) => 128 + n,
        }),
{
    match end {
        ForegroundEnd::Command(code) => code,
        ForegroundEnd::Stopped => 0,
        ForegroundEnd::Signal(n) => 128 + n,
    }
}

/// Whether a machine has to be killed after an attempt to stop it: only where
/// that failed and it is still alive.
pub fn stop_vm(stopped: bool, alive: bool) -> (r: bool)
    ensures
        r <==> !stopped && alive,
{
    !stopped && alive
}

/// What is printed for a machine in the background: its name, or else its id.
pub fn spawn_vm(id: &str, name: &Option<String>) -> (r: String)
    ensures
        r@ == (match *name {
            Some(n) => n@,
            None => id@,
        }),
{
    match name {
        Some(n) => n.clone(),
        None => id.to_owned(),
    }
}

/// A machine that is created has each setting from the argument of that name, is
/// in the background, and has nothing else set.
pub proof fn law_created_machine_has_each_setting(a: CreateArgs, root: BootRoot, d: RunDraft)
    requires
        drafts_create(a, root, d),
    ensures
        d.builder.vcpus == Some(a.cpus),
        d.builder.ram_mib == Some(a.memory),
        d.builder.log_level == Some(a.log_level),
        root matches BootRoot::BaseDisk(p) ==> d.builder.base_disk == Some(p)
            && d.builder.root is None,
        root matches BootRoot::Directory(p) ==> d.builder.root == Some(p)
            && d.builder.base_disk is None,
        d.builder.ports@ == a.publish@,
        d.builder.allow_net@ == a.allow_net@,
        d.builder.virtio_net == Some(a.network@ != "none"@),
        d.volumes@ == a.volume@,
        d.image is Some && d.image->0@ == a.image@,
        d.name == a.name,
        d.auto_remove == a.rm,
        d.detach,
        d.cmd@.len() == 0 && d.env@.len() == 0,
        launch_fault(d) is None,
{
}

/// A creation is a run in the background with the same settings: what the one is
/// refused for, the other is.
pub proof fn law_creating_is_running_in_the_background(
    a: CreateArgs,
    r: RunArgs,
    ports_ok: Seq<bool>,
)
    requires
        runs_for(a, r),
    ensures
        create_fault(a, ports_ok) == draft_fault(r, ports_ok),
        r.detach && r.command@.len() == 0 && r.entrypoint is None,
        r.image is Some && r.image->0@ == a.image@,
        r.cpus == a.cpus && r.memory == a.memory && r.rm == a.rm && r.log_level == a.log_level,
        r.publish@ == a.publish@ && r.secrets@ == a.secrets@ && r.volume@ == a.volume@,
        r.allow_net@ == a.allow_net@ && r.network@ == a.network@ && r.name == a.name,
{
}

} // verus!
