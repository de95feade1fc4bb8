//! From the options of a machine to the machine that runs.

use vstd::prelude::*;
use crate::error::{Error, Fault, UnexpectedEvent};
use crate::secrets;
use crate::secrets::{Secret, SecretV};
use crate::security::SecurityOptions;
use crate::state;
use crate::state::VirtioFs;
use crate::text;
use crate::vm;
use crate::vm::{ImageConfig, VmBuilder, VmBuilderV};

verus! {

/// What a machine is made from.
#[derive(Debug)]
pub enum ImageRef {
    /// A container image.
    Oci(String),
    /// A root directory.
    Rootfs(String),
    /// A base disk.
    BaseDisk(String),
}

/// An [`ImageRef`] with its text.
pub enum ImageV {
    Oci(Seq<char>),
    Rootfs(Seq<char>),
    BaseDisk(Seq<char>),
}

impl View for ImageRef {
    type V = ImageV;

    open spec fn view(&self) -> ImageV {
        match *self {
            ImageRef::Oci(r) => ImageV::Oci(r@),
            ImageRef::Rootfs(p) => ImageV::Rootfs(p@),
            ImageRef::BaseDisk(p) => ImageV::BaseDisk(p@),
        }
    }
}

/// Options of a machine.
pub struct VmOptions {
    /// What it is made from.
    pub image: ImageRef,
    /// Name.
    pub name: Option<String>,
    /// Number of processors.
    pub vcpus: u8,
    /// Memory in MiB.
    pub ram_mib: u32,
    /// Whether it has a network backend.
    pub virtio_net: bool,
    /// Hosts and networks that the guest may reach.
    pub allow_net: Vec<String>,
    /// Secrets of the host.
    pub secrets: Vec<Secret>,
    /// Ports to publish.
    pub ports: Vec<String>,
    /// Volumes to mount, as `hostPath:guestPath[:ro]`.
    pub volumes: Vec<String>,
    /// Environment of commands.
    pub env: Vec<String>,
    /// Working directory of commands.
    pub workdir: Option<String>,
    /// User of commands.
    pub user: Option<String>,
    /// Isolation that is asked for.
    pub security: SecurityOptions,
    /// Idle seconds after which to stop.
    pub auto_stop_secs: Option<u64>,
    /// Stopped seconds after which to delete.
    pub auto_delete_secs: Option<u64>,
    /// Whether it outlives this process.
    pub detach: bool,
    /// Whether it is removed once it stops.
    pub auto_remove: bool,
    /// Time in nanoseconds to wait for the guest agent; zero not to wait.
    pub ready_timeout: u128,
}

/// [`VmOptions`] with their texts.
#[verifier::ext_equal]
pub struct VmOptionsV {
    pub image: ImageV,
    pub name: Option<Seq<char>>,
    pub vcpus: u8,
    pub ram_mib: u32,
    pub virtio_net: bool,
    pub allow_net: Seq<Seq<char>>,
    pub secrets: Seq<SecretV>,
    pub ports: Seq<Seq<char>>,
    pub volumes: Seq<Seq<char>>,
    pub env: Seq<Seq<char>>,
    pub workdir: Option<Seq<char>>,
    pub user: Option<Seq<char>>,
    pub security: SecurityOptions,
    pub auto_stop_secs: Option<u64>,
    pub auto_delete_secs: Option<u64>,
    pub detach: bool,
    pub auto_remove: bool,
    pub ready_timeout: u128,
}

impl View for VmOptions {
    type V = VmOptionsV;

    open spec fn view(&self) -> VmOptionsV {
        VmOptionsV {
            image: self.image@,
            name: text::opt_view(self.name),
            vcpus: self.vcpus,
            ram_mib: self.ram_mib,
            virtio_net: self.virtio_net,
            allow_net: text::views(self.allow_net@),
            secrets: secrets::secret_views(self.secrets@),
            ports: text::views(self.ports@),
            volumes: text::views(self.volumes@),
            env: text::views(self.env@),
            workdir: text::opt_view(self.workdir),
            user: text::opt_view(self.user),
            security: self.security,
            auto_stop_secs: self.auto_stop_secs,
            auto_delete_secs: self.auto_delete_secs,
            detach: self.detach,
            auto_remove: self.auto_remove,
            ready_timeout: self.ready_timeout,
        }
    }
}

/// What is wrong with options, as far as they themselves show it.
pub open spec fn options_fault(o: VmOptionsV) -> Option<Fault> {
    if o.vcpus == 0 {
        Some(Fault::InvalidConfig("vcpus must be >= 1"@))
    } else if o.ram_mib == 0 {
        Some(Fault::InvalidConfig("ram_mib must be >= 1"@))
    } else if o.secrets.len() > 0 && !o.virtio_net {
        Some(Fault::SecretsNeedVirtioNet)
    } else {
        None
    }
}

/// The first failure in a list of outcomes.
pub open spec fn first_failure(checks: Seq<Result<(), Error>>) -> Option<Fault>
    decreases checks.len(),
{
    if checks.len() == 0 {
        None
    } else {
        match checks[0] {
            Err(e) => Some(e@),
            Ok(_) => first_failure(checks.drop_first()),
        }
    }
}

/// What is wrong with options, given the outcome of checking each port
/// specification.
pub open spec fn validation_fault(o: VmOptionsV, ports: Seq<Result<(), Error>>) -> Option<Fault> {
    match options_fault(o) {
        Some(f) => Some(f),
        None => first_failure(ports),
    }
}

/// Checks what options show in themselves.
fn check_settings(opts: &VmOptions) -> (r: Result<(), Error>)
    ensures
        match options_fault(opts@) {
            Some(f) => r matches Err(e) && e@ == f,
            None => r is Ok,
        },
{
    assert(opts@.secrets.len() == opts.secrets@.len());
    if opts.vcpus == 0 {
        return Err(Error::InvalidConfig("vcpus must be >= 1".to_owned()));
    }
    if opts.ram_mib == 0 {
        return Err(Error::InvalidConfig("ram_mib must be >= 1".to_owned()));
    }
    if opts.secrets.len() > 0 && !opts.virtio_net {
        return Err(Error::SecretsNeedVirtioNet);
    }
    Ok(())
}

/// The failure of the first bad port, given the outcome of checking each port
/// specification.
pub fn first_bad_port(checks: Vec<Result<(), Error>>) -> (r: Result<(), Error>)
    ensures
        match first_failure(checks@) {
            Some(f) => r matches Err(e) && e@ == f,
            None => r is Ok,
        },
{
    let ghost all = checks@;
    let mut left = checks;
    let mut i: usize = 0;
    assert(all.skip(0) =~= all);
    while i < left.len()
        invariant
            i <= left.len(),
            left@ == all,
            all == checks@,
            first_failure(all) == first_failure(all.skip(i as int)),
        decreases left.len() - i,
    {
        assert(all.skip(i as int)[0] == all[i as int]);
        if left[i].is_err() {
            return left.swap_remove(i);
        }
        assert(all.skip(i as int).drop_first() =~= all.skip(i + 1));
        i = i + 1;
    }
    Ok(())
}

/// Checks options before anything expensive is done, given the outcome of
/// checking each port specification. What the options show in themselves comes
/// first, then the first bad port.
pub fn validate(opts: &VmOptions, ports: Vec<Result<(), Error>>) -> (r: Result<(), Error>)
    requires
        ports@.len() == opts.ports@.len(),
    ensures
        match validation_fault(opts@, ports@) {
            Some(f) => r matches Err(e) && e@ == f,
            None => r is Ok,
        },
{
    match check_settings(opts) {
        Err(e) => Err(e),
        Ok(()) => first_bad_port(ports),
    }
}

// ---------------------------------------------------------------------------
// The rule
// ---------------------------------------------------------------------------

/// How far a creation has come.
#[derive(Debug, Clone, Copy, PartialEq, Eq, Structural)]
pub enum CreateStage {
    /// Port specifications are being checked.
    CheckingPorts,
    /// The image is being pulled.
    Pulling,
    /// The base disk is being built.
    BuildingBase,
    /// The root directory is being looked for.
    CheckingRootfs,
    /// The base disk is being looked for.
    CheckingBaseDisk,
    /// The image's process configuration is being merged.
    Merging,
    /// The caller is configuring the machine.
    Configuring,
    /// Volumes are being resolved.
    ResolvingVolumes,
    /// The machine is being started.
    Spawning,
    /// Volumes are being tied to the machine.
    LinkingVolumes,
    /// The guest agent is being waited for.
    WaitingReady,
    /// The machine runs.
    Running,
    /// The creation has failed.
    Failed,
}

/// What came of the last thing to do.
pub enum CreateEvent {
    /// It was done.
    Done,
    /// What checking each port specification gave.
    PortsChecked(Vec<Result<(), Error>>),
    /// The image was pulled.
    Pulled {
        /// Its root directory.
        rootfs: String,
        /// Its digest.
        digest: String,
        /// Its process configuration.
        config: Option<ImageConfig>,
    },
    /// Path of the base disk that was built.
    BaseBuilt(String),
    /// Whether the path is what it has to be.
    Checked(bool),
    /// What commands have after the image's process configuration was merged
    /// in.
    Merged {
        /// Environment.
        env: Vec<String>,
        /// Working directory.
        workdir: Option<String>,
        /// User.
        user: Option<String>,
    },
    /// Settings as the caller has configured them.
    Configured(VmBuilder),
    /// Directories that the volumes stand for.
    VolumesResolved(Vec<VirtioFs>),
    /// It failed.
    Failed(Error),
}

/// Something to do during a creation.
pub enum CreateOp {
    CheckPorts(Seq<Seq<char>>),
    Pull(Seq<char>),
    BuildBase(Seq<char>, Seq<char>),
    CheckDirectory(Seq<char>),
    CheckFile(Seq<char>),
    MergeImageConfig(ImageConfig),
    Configure,
    ResolveVolumes(Seq<Seq<char>>),
    Spawn(bool),
    LinkVolumes(Seq<(Seq<char>, Seq<char>)>),
    WaitReady(u128),
    Finished,
    Fail(Fault),
}

/// State of a creation.
#[verifier::ext_equal]
pub struct CreateState {
    pub stage: CreateStage,
    pub by_caller: bool,
    pub opts: VmOptionsV,
    pub builder: VmBuilderV,
    pub oci_cfg: Option<ImageConfig>,
    pub linked: bool,
}

/// A step: the state, the progress to report, and what to do next.
pub struct CreateStep {
    pub state: CreateState,
    pub says: Seq<Seq<char>>,
    pub op: CreateOp,
}

/// Reporting progress and going on.
pub open spec fn going_on(
    s: CreateState,
    stage: CreateStage,
    says: Seq<Seq<char>>,
    op: CreateOp,
) -> CreateStep {
    CreateStep { state: CreateState { stage, ..s }, says, op }
}

/// A failed creation.
pub open spec fn failing(s: CreateState, says: Seq<Seq<char>>, f: Fault) -> CreateStep {
    going_on(s, CreateStage::Failed, says, CreateOp::Fail(f))
}

/// Reference or path of what a machine is made from, by which it is known.
pub open spec fn image_label(i: ImageV) -> Seq<char> {
    match i {
        ImageV::Oci(r) => r,
        ImageV::Rootfs(p) => p,
        ImageV::BaseDisk(p) => p,
    }
}

/// Going on to the image.
pub open spec fn resolving_image(s: CreateState) -> CreateStep {
    match s.opts.image {
        ImageV::Oci(reference) => going_on(
            s,
            CreateStage::Pulling,
            seq!["resolving image"@, "pulling/ensuring OCI image"@],
            CreateOp::Pull(reference),
        ),
        ImageV::Rootfs(p) => going_on(
            s,
            CreateStage::CheckingRootfs,
            seq!["resolving image"@],
            CreateOp::CheckDirectory(p),
        ),
        ImageV::BaseDisk(p) => going_on(
            s,
            CreateStage::CheckingBaseDisk,
            seq!["resolving image"@],
            CreateOp::CheckFile(p),
        ),
    }
}

/// Going on to the volumes, with everything else set.
pub open spec fn filling(s: CreateState) -> CreateStep {
    let o = s.opts;
    going_on(
        CreateState {
            builder: VmBuilderV {
                vcpus: Some(o.vcpus),
                ram_mib: Some(o.ram_mib),
                virtio_net: Some(o.virtio_net),
                allow_net: o.allow_net,
                secrets: o.secrets,
                workload_env: o.env,
                security: Some(o.security),
                auto_stop_secs: o.auto_stop_secs,
                auto_delete_secs: o.auto_delete_secs,
                workload_workdir: o.workdir,
                user: o.user,
                ports: o.ports,
                ..s.builder
            },
            ..s
        },
        CreateStage::ResolvingVolumes,
        seq!["resolving volumes"@],
        CreateOp::ResolveVolumes(o.volumes),
    )
}

/// Going on once it is known what the machine boots from.
pub open spec fn rooted(s: CreateState) -> CreateStep {
    if s.by_caller {
        going_on(
            CreateState {
                builder: VmBuilderV {
                    vcpus: Some(s.opts.vcpus),
                    ram_mib: Some(s.opts.ram_mib),
                    virtio_net: Some(s.opts.virtio_net),
                    ..s.builder
                },
                ..s
            },
            CreateStage::Configuring,
            seq![],
            CreateOp::Configure,
        )
    } else {
        match s.oci_cfg {
            Some(c) => going_on(
                CreateState { oci_cfg: None, ..s },
                CreateStage::Merging,
                seq![],
                CreateOp::MergeImageConfig(c),
            ),
            None => filling(s),
        }
    }
}

/// Going on to start the machine.
pub open spec fn spawning(s: CreateState) -> CreateStep {
    going_on(
        s,
        CreateStage::Spawning,
        seq!["spawning shim"@],
        CreateOp::Spawn(s.opts.detach && !s.by_caller),
    )
}

/// The end.
pub open spec fn running(s: CreateState) -> CreateStep {
    going_on(
        s,
        CreateStage::Running,
        if s.by_caller {
            seq![]
        } else {
            seq!["running"@]
        },
        CreateOp::Finished,
    )
}

/// Going on to wait for the guest agent.
pub open spec fn awaiting(s: CreateState) -> CreateStep {
    if s.opts.ready_timeout != 0 {
        going_on(
            s,
            CreateStage::WaitingReady,
            seq!["waiting for guest agent"@],
            CreateOp::WaitReady(s.opts.ready_timeout),
        )
    } else {
        running(s)
    }
}

/// Beginning of a creation.
pub open spec fn beginning(opts: VmOptionsV, by_caller: bool) -> CreateStep {
    let s = CreateState {
        stage: CreateStage::CheckingPorts,
        by_caller,
        opts,
        builder: vm::cleared(),
        oci_cfg: None,
        linked: false,
    };
    match options_fault(opts) {
        Some(f) => failing(s, seq!["validating options"@], f),
        None => going_on(
            s,
            CreateStage::CheckingPorts,
            seq!["validating options"@],
            CreateOp::CheckPorts(opts.ports),
        ),
    }
}

/// What an event leads to; `None` where it does not belong.
pub open spec fn next(s: CreateState, e: CreateEvent) -> Option<CreateStep> {
    match (s.stage, e) {
        (CreateStage::Running, _) | (CreateStage::Failed, _) => None,
        (CreateStage::WaitingReady, CreateEvent::Done) => Some(running(s)),
        (CreateStage::WaitingReady, CreateEvent::Failed(_)) => Some(running(s)),
        (_, CreateEvent::Failed(f)) => Some(failing(s, seq![], f@)),
        (CreateStage::CheckingPorts, CreateEvent::PortsChecked(checks)) => if checks@.len()
            == s.opts.ports.len() {
            Some(
                match validation_fault(s.opts, checks@) {
                    Some(f) => failing(s, seq![], f),
                    None => resolving_image(s),
                },
            )
        } else {
            None
        },
        (CreateStage::Pulling, CreateEvent::Pulled { rootfs, digest, config }) => Some(
            going_on(
                CreateState { oci_cfg: config, ..s },
                CreateStage::BuildingBase,
                seq!["building ext4 base disk"@],
                CreateOp::BuildBase(rootfs@, text::replace_char(digest@, ':', '-')),
            ),
        ),
        (CreateStage::BuildingBase, CreateEvent::BaseBuilt(p)) => Some(
            rooted(
                CreateState {
                    builder: VmBuilderV { base_disk: Some(p@), ..s.builder },
                    ..s
                },
            ),
        ),
        (CreateStage::CheckingRootfs, CreateEvent::Checked(ok)) => {
            let p = image_label(s.opts.image);
            if ok {
                Some(
                    rooted(
                        CreateState { builder: VmBuilderV { root: Some(p), ..s.builder }, ..s },
                    ),
                )
            } else {
                Some(
                    failing(
                        s,
                        seq![],
                        Fault::InvalidConfig("rootfs is not a directory: "@ + p),
                    ),
                )
            }
        },
        (CreateStage::CheckingBaseDisk, CreateEvent::Checked(ok)) => {
            let p = image_label(s.opts.image);
            if ok {
                Some(
                    rooted(
                        CreateState {
                            builder: VmBuilderV { base_disk: Some(p), ..s.builder },
                            ..s
                        },
                    ),
                )
            } else {
                Some(failing(s, seq![], Fault::InvalidConfig("base disk not found: "@ + p)))
            }
        },
        (CreateStage::Merging, CreateEvent::Merged { env, workdir, user }) => Some(
            filling(
                CreateState {
                    opts: VmOptionsV {
                        env: text::views(env@),
                        workdir: text::opt_view(workdir),
                        user: text::opt_view(user),
                        ..s.opts
                    },
                    ..s
                },
            ),
        ),
        (CreateStage::Configuring, CreateEvent::Configured(b)) => Some(
            spawning(CreateState { builder: b@, ..s }),
        ),
        (CreateStage::ResolvingVolumes, CreateEvent::VolumesResolved(shares)) => Some(
            spawning(
                CreateState {
                    builder: VmBuilderV { virtiofs: state::share_views(shares@), ..s.builder },
                    linked: shares@.len() > 0,
                    ..s
                },
            ),
        ),
        (CreateStage::Spawning, CreateEvent::Done) => if s.linked {
            Some(
                going_on(
                    s,
                    CreateStage::LinkingVolumes,
                    seq![],
                    CreateOp::LinkVolumes(s.builder.virtiofs),
                ),
            )
        } else {
            Some(awaiting(s))
        },
        (CreateStage::LinkingVolumes, CreateEvent::Done) => Some(awaiting(s)),
        _ => None,
    }
}

// ---------------------------------------------------------------------------
// The machine
// ---------------------------------------------------------------------------

/// What to do next.
pub enum CreateTask {
    /// Check each of these port specifications.
    CheckPorts(Vec<String>),
    /// Pull this image.
    Pull(String),
    /// Build a base disk.
    BuildBase {
        /// Root directory that it is made from.
        rootfs: String,
        /// Key under which it is kept.
        key: String,
    },
    /// Find out whether this is a directory.
    CheckDirectory(String),
    /// Find out whether this is a file.
    CheckFile(String),
    /// Merge this process configuration into the options.
    MergeImageConfig(ImageConfig),
    /// Let the caller configure the settings.
    Configure,
    /// Find the directories that these volumes stand for.
    ResolveVolumes(Vec<String>),
    /// Start the machine.
    Spawn {
        /// Whether it outlives this process.
        detached: bool,
    },
    /// Tie these volumes to the machine.
    LinkVolumes(Vec<VirtioFs>),
    /// Wait for the guest agent for so many nanoseconds.
    WaitReady(u128),
    /// Nothing: the machine runs.
    Finished,
    /// Give this failure back.
    Fail(Error),
}

impl View for CreateTask {
    type V = CreateOp;

    open spec fn view(&self) -> CreateOp {
        match *self {
            CreateTask::CheckPorts(p) => CreateOp::CheckPorts(text::views(p@)),
            CreateTask::Pull(r) => CreateOp::Pull(r@),
            CreateTask::BuildBase { rootfs, key } => CreateOp::BuildBase(rootfs@, key@),
            CreateTask::CheckDirectory(p) => CreateOp::CheckDirectory(p@),
            CreateTask::CheckFile(p) => CreateOp::CheckFile(p@),
            CreateTask::MergeImageConfig(c) => CreateOp::MergeImageConfig(c),
            CreateTask::Configure => CreateOp::Configure,
            CreateTask::ResolveVolumes(v) => CreateOp::ResolveVolumes(text::views(v@)),
            CreateTask::Spawn { detached } => CreateOp::Spawn(detached),
            CreateTask::LinkVolumes(v) => CreateOp::LinkVolumes(state::share_views(v@)),
            CreateTask::WaitReady(t) => CreateOp::WaitReady(t),
            CreateTask::Finished => CreateOp::Finished,
            CreateTask::Fail(e) => CreateOp::Fail(e@),
        }
    }
}

/// Progress to report, and what to do next.
pub struct CreateAction {
    /// Progress to report, in order.
    pub says: Vec<String>,
    /// What to do after that.
    pub task: CreateTask,
}

/// A creation in progress.
pub struct Create {
    stage: CreateStage,
    by_caller: bool,
    opts: VmOptions,
    builder: VmBuilder,
    oci_cfg: Option<ImageConfig>,
    linked: bool,
}

impl View for Create {
    type V = CreateState;

    closed spec fn view(&self) -> CreateState {
        CreateState {
            stage: self.stage,
            by_caller: self.by_caller,
            opts: self.opts@,
            builder: self.builder@,
            oci_cfg: self.oci_cfg,
            linked: self.linked,
        }
    }
}

/// Whether a state and an action are what a step asks for.
pub open spec fn takes(step: CreateStep, s: CreateState, a: CreateAction) -> bool {
    &&& s == step.state
    &&& text::views(a.says@) == step.says
    &&& a.task@ == step.op
}

/// Nothing to report.
fn quiet() -> (r: Vec<String>)
    ensures
        text::views(r@) == Seq::<Seq<char>>::empty(),
{
    let v: Vec<String> = Vec::new();
    assert(text::views(v@) =~= Seq::<Seq<char>>::empty());
    v
}

/// One thing to report.
fn say(what: &str) -> (r: Vec<String>)
    ensures
        text::views(r@) == seq![what@],
{
    let mut v: Vec<String> = Vec::new();
    v.push(what.to_owned());
    assert(text::views(v@) =~= seq![what@]);
    v
}

/// Two things to report.
fn say_two(one: &str, two: &str) -> (r: Vec<String>)
    ensures
        text::views(r@) == seq![one@, two@],
{
    let mut v: Vec<String> = Vec::new();
    v.push(one.to_owned());
    v.push(two.to_owned());
    assert(text::views(v@) =~= seq![one@, two@]);
    v
}

/// Begins to create a machine from product options.
pub fn create(opts: VmOptions) -> (r: (Create, CreateAction))
    ensures
        takes(beginning(opts@, false), r.0@, r.1),
{
    begin(opts, false)
}

/// Begins to create a machine from an image, whose settings the caller has a
/// hand in. `opts` are those of an image with nothing else asked for.
pub fn create_from_oci(
    opts: VmOptions,
    name: Option<String>,
    auto_remove: bool,
    ready_timeout: u128,
) -> (r: (Create, CreateAction))
    ensures
        takes(
            beginning(
                (VmOptionsV {
                    auto_remove,
                    ready_timeout,
                    name: if name is Some {
                        text::opt_view(name)
                    } else {
                        opts@.name
                    },
                    ..opts@
                }),
                true,
            ),
            r.0@,
            r.1,
        ),
{
    let mut opts = opts;
    opts.auto_remove = auto_remove;
    opts.ready_timeout = ready_timeout;
    if name.is_some() {
        opts.name = name;
    }
    begin(opts, true)
}

fn begin(opts: VmOptions, by_caller: bool) -> (r: (Create, CreateAction))
    ensures
        takes(beginning(opts@, by_caller), r.0@, r.1),
{
    let (stage, task) = match check_settings(&opts) {
        Err(e) => (CreateStage::Failed, CreateTask::Fail(e)),
        Ok(()) => (
            CreateStage::CheckingPorts,
            CreateTask::CheckPorts(text::clone_strings(&opts.ports)),
        ),
    };
    let c = Create {
        stage,
        by_caller,
        opts,
        builder: VmBuilder::new(),
        oci_cfg: None,
        linked: false,
    };
    (c, CreateAction { says: say("validating options"), task })
}

impl Create {
    /// Options as they stand.
    pub fn opts(&self) -> (r: &VmOptions)
        ensures
            r@ == self@.opts,
    {
        &self.opts
    }

    /// Settings as they stand.
    pub fn builder(&self) -> (r: &VmBuilder)
        ensures
            r@ == self@.builder,
    {
        &self.builder
    }

    /// Reference or path by which the machine's image is known.
    pub fn image_label(&self) -> (r: &str)
        ensures
            r@ == image_label(self@.opts.image),
    {
        match &self.opts.image {
            ImageRef::Oci(r) => r.as_str(),
            ImageRef::Rootfs(p) => p.as_str(),
            ImageRef::BaseDisk(p) => p.as_str(),
        }
    }

    fn fail(&mut self, e: Error) -> (a: CreateAction)
        ensures
            takes(failing(old(self)@, seq![], e@), final(self)@, a),
    {
        self.stage = CreateStage::Failed;
        CreateAction { says: quiet(), task: CreateTask::Fail(e) }
    }

    /// Finds the image, by what kind of reference it is.
    fn resolve_image(&mut self) -> (a: CreateAction)
        ensures
            takes(resolving_image(old(self)@), final(self)@, a),
    {
        match &self.opts.image {
            ImageRef::Oci(reference) => {
                let task = CreateTask::Pull(reference.clone());
                self.stage = CreateStage::Pulling;
                CreateAction {
                    says: say_two("resolving image", "pulling/ensuring OCI image"),
                    task,
                }
            },
            ImageRef::Rootfs(p) => {
                let task = CreateTask::CheckDirectory(p.clone());
                self.stage = CreateStage::CheckingRootfs;
                CreateAction { says: say("resolving image"), task }
            },
            ImageRef::BaseDisk(p) => {
                let task = CreateTask::CheckFile(p.clone());
                self.stage = CreateStage::CheckingBaseDisk;
                CreateAction { says: say("resolving image"), task }
            },
        }
    }

    fn fill(&mut self) -> (a: CreateAction)
        ensures
            takes(filling(old(self)@), final(self)@, a),
    {
        let ghost start = self@;
        self.builder.vcpus = Some(self.opts.vcpus);
        self.builder.ram_mib = Some(self.opts.ram_mib);
        self.builder.virtio_net = Some(self.opts.virtio_net);
        self.builder.allow_net = text::clone_strings(&self.opts.allow_net);
        self.builder.secrets = secrets::clone_secrets(&self.opts.secrets);
        self.builder.workload_env = text::clone_strings(&self.opts.env);
        self.builder.security = Some(self.opts.security);
        self.builder.auto_stop_secs = self.opts.auto_stop_secs;
        self.builder.auto_delete_secs = self.opts.auto_delete_secs;
        self.builder.workload_workdir = text::clone_opt(&self.opts.workdir);
        self.builder.user = text::clone_opt(&self.opts.user);
        self.builder.ports = text::clone_strings(&self.opts.ports);
        self.stage = CreateStage::ResolvingVolumes;
        assert(self@ =~= filling(start).state);
        CreateAction {
            says: say("resolving volumes"),
            task: CreateTask::ResolveVolumes(text::clone_strings(&self.opts.volumes)),
        }
    }

    fn root(&mut self) -> (a: CreateAction)
        ensures
            takes(rooted(old(self)@), final(self)@, a),
    {
        if self.by_caller {
            self.builder.vcpus = Some(self.opts.vcpus);
            self.builder.ram_mib = Some(self.opts.ram_mib);
            self.builder.virtio_net = Some(self.opts.virtio_net);
            self.stage = CreateStage::Configuring;
            return CreateAction { says: quiet(), task: CreateTask::Configure };
        }
        let cfg = self.oci_cfg.take();
        match cfg {
            Some(c) => {
                self.stage = CreateStage::Merging;
                CreateAction { says: quiet(), task: CreateTask::MergeImageConfig(c) }
            },
            None => self.fill(),
        }
    }

    fn spawn(&mut self) -> (a: CreateAction)
        ensures
            takes(spawning(old(self)@), final(self)@, a),
    {
        self.stage = CreateStage::Spawning;
        CreateAction {
            says: say("spawning shim"),
            task: CreateTask::Spawn { detached: self.opts.detach && !self.by_caller },
        }
    }

    fn finish(&mut self) -> (a: CreateAction)
        ensures
            takes(running(old(self)@), final(self)@, a),
    {
        self.stage = CreateStage::Running;
        let says = if self.by_caller {
            quiet()
        } else {
            say("running")
        };
        CreateAction { says, task: CreateTask::Finished }
    }

    fn wait(&mut self) -> (a: CreateAction)
        ensures
            takes(awaiting(old(self)@), final(self)@, a),
    {
        if self.opts.ready_timeout != 0 {
            self.stage = CreateStage::WaitingReady;
            CreateAction {
                says: say("waiting for guest agent"),
                task: CreateTask::WaitReady(self.opts.ready_timeout),
            }
        } else {
            self.finish()
        }
    }

    fn ports_checked(&mut self, checks: Vec<Result<(), Error>>) -> (a: CreateAction)
        requires
            old(self)@.stage == CreateStage::CheckingPorts,
            checks@.len() == old(self)@.opts.ports.len(),
        ensures
            next(old(self)@, CreateEvent::PortsChecked(checks)) matches Some(step) && takes(
                step,
                final(self)@,
                a,
            ),
    {
        match validate(&self.opts, checks) {
            Err(e) => self.fail(e),
            Ok(()) => self.resolve_image(),
        }
    }

    fn pulled(&mut self, rootfs: String, digest: String, config: Option<ImageConfig>) -> (a:
        CreateAction)
        requires
            old(self)@.stage == CreateStage::Pulling,
        ensures
            next(old(self)@, CreateEvent::Pulled { rootfs, digest, config }) matches Some(step)
                && takes(step, final(self)@, a),
    {
        self.oci_cfg = config;
        self.stage = CreateStage::BuildingBase;
        CreateAction {
            says: say("building ext4 base disk"),
            task: CreateTask::BuildBase {
                rootfs,
                key: text::substitute(digest.as_str(), ':', '-'),
            },
        }
    }

    fn rootfs_checked(&mut self, ok: bool) -> (a: CreateAction)
        requires
            old(self)@.stage == CreateStage::CheckingRootfs,
        ensures
            next(old(self)@, CreateEvent::Checked(ok)) matches Some(step) && takes(
                step,
                final(self)@,
                a,
            ),
    {
        if ok {
            self.builder.root = Some(self.image_label().to_owned());
            self.root()
        } else {
            let m = text::cat2("rootfs is not a directory: ", self.image_label());
            self.fail(Error::InvalidConfig(m))
        }
    }

    fn base_disk_checked(&mut self, ok: bool) -> (a: CreateAction)
        requires
            old(self)@.stage == CreateStage::CheckingBaseDisk,
        ensures
            next(old(self)@, CreateEvent::Checked(ok)) matches Some(step) && takes(
                step,
                final(self)@,
                a,
            ),
    {
        if ok {
            self.builder.base_disk = Some(self.image_label().to_owned());
            self.root()
        } else {
            let m = text::cat2("base disk not found: ", self.image_label());
            self.fail(Error::InvalidConfig(m))
        }
    }

    fn base_built(&mut self, p: String) -> (a: CreateAction)
        requires
            old(self)@.stage == CreateStage::BuildingBase,
        ensures
            next(old(self)@, CreateEvent::BaseBuilt(p)) matches Some(step) && takes(
                step,
                final(self)@,
                a,
            ),
    {
        self.builder.base_disk = Some(p);
        self.root()
    }

    fn merged(&mut self, env: Vec<String>, workdir: Option<String>, user: Option<String>) -> (a:
        CreateAction)
        requires
            old(self)@.stage == CreateStage::Merging,
        ensures
            next(old(self)@, CreateEvent::Merged { env, workdir, user }) matches Some(step)
                && takes(step, final(self)@, a),
    {
        self.opts.env = env;
        self.opts.workdir = workdir;
        self.opts.user = user;
        self.fill()
    }

    fn volumes_resolved(&mut self, shares: Vec<VirtioFs>) -> (a: CreateAction)
        requires
            old(self)@.stage == CreateStage::ResolvingVolumes,
        ensures
            next(old(self)@, CreateEvent::VolumesResolved(shares)) matches Some(step) && takes(
                step,
                final(self)@,
                a,
            ),
    {
        self.linked = shares.len() > 0;
        self.builder.virtiofs = shares;
        self.spawn()
    }

    fn spawned(&mut self) -> (a: CreateAction)
        requires
            old(self)@.stage == CreateStage::Spawning,
        ensures
            next(old(self)@, CreateEvent::Done) matches Some(step) && takes(step, final(self)@, a),
    {
        if self.linked {
            self.stage = CreateStage::LinkingVolumes;
            CreateAction {
                says: quiet(),
                task: CreateTask::LinkVolumes(state::clone_shares(&self.builder.virtiofs)),
            }
        } else {
            self.wait()
        }
    }

    /// Takes in what came of the last thing to do and says what to do next. An
    /// event that does not belong here changes nothing.
    #[verifier::rlimit(60)]
    pub fn step(&mut self, event: CreateEvent) -> (r: Result<CreateAction, UnexpectedEvent>)
        ensures
            match next(old(self)@, event) {
                Some(step) => r matches Ok(a) && takes(step, final(self)@, a),
                None => final(self)@ == old(self)@ && r is Err,
            },
    {
        match (self.stage, event) {
            (CreateStage::Running, _) => Err(UnexpectedEvent),
            (CreateStage::Failed, _) => Err(UnexpectedEvent),
            (CreateStage::WaitingReady, CreateEvent::Done) => Ok(self.finish()),
            (CreateStage::WaitingReady, CreateEvent::Failed(_)) => Ok(self.finish()),
            (_, CreateEvent::Failed(e)) => Ok(self.fail(e)),
            (CreateStage::CheckingPorts, CreateEvent::PortsChecked(checks)) => {
                assert(self@.opts.ports.len() == self.opts.ports@.len());
                if checks.len() == self.opts.ports.len() {
                    Ok(self.ports_checked(checks))
                } else {
                    Err(UnexpectedEvent)
                }
            },
            (CreateStage::Pulling, CreateEvent::Pulled { rootfs, digest, config }) => Ok(
                self.pulled(rootfs, digest, config),
            ),
            (CreateStage::BuildingBase, CreateEvent::BaseBuilt(p)) => Ok(self.base_built(p)),
            (CreateStage::CheckingRootfs, CreateEvent::Checked(ok)) => Ok(self.rootfs_checked(ok)),
            (CreateStage::CheckingBaseDisk, CreateEvent::Checked(ok)) => Ok(
                self.base_disk_checked(ok),
            ),
            (CreateStage::Merging, CreateEvent::Merged { env, workdir, user }) => Ok(
                self.merged(env, workdir, user),
            ),
            (CreateStage::Configuring, CreateEvent::Configured(b)) => {
                self.builder = b;
                Ok(self.spawn())
            },
            (CreateStage::ResolvingVolumes, CreateEvent::VolumesResolved(shares)) => Ok(
                self.volumes_resolved(shares),
            ),
            (CreateStage::Spawning, CreateEvent::Done) => Ok(self.spawned()),
            (CreateStage::LinkingVolumes, CreateEvent::Done) => Ok(self.wait()),
            _ => Err(UnexpectedEvent),
        }
    }
}

// ---------------------------------------------------------------------------
// What every creation keeps
// ---------------------------------------------------------------------------

/// State and everything to do after a run of events; `None` where an event did
/// not belong.
pub open spec fn run(opts: VmOptionsV, by_caller: bool, events: Seq<CreateEvent>) -> Option<
    (CreateState, Seq<CreateOp>),
>
    decreases events.len(),
{
    if events.len() == 0 {
        let step = beginning(opts, by_caller);
        Some((step.state, seq![step.op]))
    } else {
        match run(opts, by_caller, events.drop_last()) {
            None => None,
            Some((s, done)) => match next(s, events.last()) {
                None => None,
                Some(step) => Some((step.state, done.push(step.op))),
            },
        }
    }
}

/// Options that are wrong in themselves fail before anything is done.
pub proof fn law_wrong_options_do_nothing(opts: VmOptionsV, by_caller: bool, events: Seq<CreateEvent>)
    requires
        options_fault(opts) is Some,
    ensures
        run(opts, by_caller, events) matches Some((s, done)) ==> s.stage is Failed && done == seq![
            CreateOp::Fail(options_fault(opts)->0),
        ],
    decreases events.len(),
{
    if events.len() > 0 {
        law_wrong_options_do_nothing(opts, by_caller, events.drop_last());
    }
}

/// A bad port fails before an image is looked for, with its own error.
pub proof fn law_bad_port_does_nothing(s: CreateState, checks: Vec<Result<(), Error>>)
    requires
        s.stage is CheckingPorts,
        checks@.len() == s.opts.ports.len(),
        options_fault(s.opts) is None,
    ensures
        first_failure(checks@) is None <==> forall|i: int|
            0 <= i < checks@.len() ==> (#[trigger] checks@[i]) is Ok,
        first_failure(checks@) matches Some(f) ==> {
            &&& next(s, CreateEvent::PortsChecked(checks)) == Some(failing(s, seq![], f))
            &&& exists|i: int|
                0 <= i < checks@.len() && (#[trigger] checks@[i] matches Err(e) && e@ == f)
        },
{
    lemma_first_failure(checks@);
}

/// The first failure is one of the failures, and there is none exactly where
/// nothing failed.
pub proof fn lemma_first_failure(checks: Seq<Result<(), Error>>)
    ensures
        first_failure(checks) is None <==> forall|i: int|
            0 <= i < checks.len() ==> (#[trigger] checks[i]) is Ok,
        first_failure(checks) matches Some(f) ==> exists|i: int|
            0 <= i < checks.len() && (#[trigger] checks[i] matches Err(e) && e@ == f),
    decreases checks.len(),
{
    if checks.len() > 0 && checks[0] is Ok {
        let rest = checks.drop_first();
        lemma_first_failure(rest);
        assert forall|i: int| 0 <= i < rest.len() implies #[trigger] rest[i] == checks[i + 1] by {}
        if first_failure(checks) is None {
            assert forall|i: int| 0 <= i < checks.len() implies (#[trigger] checks[i]) is Ok by {
                if i > 0 {
                    assert(rest[i - 1] == checks[i]);
                }
            }
        } else {
            let f = first_failure(checks)->0;
            let i = choose|i: int|
                0 <= i < rest.len() && (#[trigger] rest[i] matches Err(e) && e@ == f);
            assert(checks[i + 1] matches Err(e) && e@ == f);
        }
    }
}

/// Stages from the start of the machine on.
pub open spec fn from_spawning(stage: CreateStage) -> bool {
    stage is Spawning || stage is LinkingVolumes || stage is WaitingReady || stage is Running
}

/// Whether settings are those that product options stand for.
pub open spec fn faithful(b: VmBuilderV, o: VmOptionsV) -> bool {
    &&& b.vcpus == Some(o.vcpus)
    &&& b.ram_mib == Some(o.ram_mib)
    &&& b.virtio_net == Some(o.virtio_net)
    &&& b.allow_net == o.allow_net
    &&& b.secrets == o.secrets
    &&& b.ports == o.ports
    &&& b.security == Some(o.security)
    &&& b.auto_stop_secs == o.auto_stop_secs
    &&& b.auto_delete_secs == o.auto_delete_secs
    &&& b.root is Some != b.base_disk is Some
}

spec fn sound(s: CreateState, opts: VmOptionsV, by_caller: bool) -> bool {
    &&& s.by_caller == by_caller
    &&& s.opts == (VmOptionsV { env: s.opts.env, workdir: s.opts.workdir, user: s.opts.user, ..opts })
    &&& s.stage is CheckingPorts || s.stage is Pulling || s.stage is BuildingBase || s.stage
        is CheckingRootfs || s.stage is CheckingBaseDisk ==> s.builder == vm::cleared()
    &&& s.stage is Merging ==> s.builder.root is Some != s.builder.base_disk is Some
    &&& !by_caller ==> !(s.stage is Configuring)
    &&& !by_caller && (from_spawning(s.stage) || s.stage is ResolvingVolumes) ==> faithful(
        s.builder,
        opts,
    ) && s.builder.workload_env == s.opts.env && s.builder.workload_workdir == s.opts.workdir
        && s.builder.user == s.opts.user
}

#[verifier::rlimit(60)]
proof fn lemma_step_sound(s: CreateState, opts: VmOptionsV, by_caller: bool, e: CreateEvent)
    requires
        sound(s, opts, by_caller),
        next(s, e) is Some,
    ensures
        sound(next(s, e)->0.state, opts, by_caller),
{
}

proof fn lemma_sound(opts: VmOptionsV, by_caller: bool, events: Seq<CreateEvent>)
    ensures
        run(opts, by_caller, events) matches Some((s, _)) ==> sound(s, opts, by_caller),
    decreases events.len(),
{
    if events.len() > 0 {
        lemma_sound(opts, by_caller, events.drop_last());
        match run(opts, by_caller, events.drop_last()) {
            Some((s, _)) => {
                if next(s, events.last()) is Some {
                    lemma_step_sound(s, opts, by_caller, events.last());
                }
            },
            None => {},
        }
    }
}

/// A machine that is started from product options has exactly what they ask
/// for, and boots from one thing.
pub proof fn law_started_machine_is_what_was_asked(opts: VmOptionsV, events: Seq<CreateEvent>)
    ensures
        run(opts, false, events) matches Some((s, _)) ==> from_spawning(s.stage) ==> faithful(
            s.builder,
            opts,
        ),
{
    lemma_sound(opts, false, events);
}

/// Place of a thing to do in the order of a creation: options, image, base
/// disk, settings, volumes, start, ties of volumes, guest agent, end.
pub open spec fn place(op: CreateOp) -> int {
    match op {
        CreateOp::CheckPorts(_) => 0,
        CreateOp::Pull(_) => 1,
        CreateOp::CheckDirectory(_) => 1,
        CreateOp::CheckFile(_) => 1,
        CreateOp::BuildBase(_, _) => 2,
        CreateOp::MergeImageConfig(_) => 3,
        CreateOp::Configure => 4,
        CreateOp::ResolveVolumes(_) => 4,
        CreateOp::Spawn(_) => 5,
        CreateOp::LinkVolumes(_) => 6,
        CreateOp::WaitReady(_) => 7,
        CreateOp::Finished => 8,
        CreateOp::Fail(_) => 8,
    }
}

/// Place of the thing that a stage waits for.
pub open spec fn stage_place(stage: CreateStage) -> int {
    match stage {
        CreateStage::CheckingPorts => 0,
        CreateStage::Pulling => 1,
        CreateStage::CheckingRootfs => 1,
        CreateStage::CheckingBaseDisk => 1,
        CreateStage::BuildingBase => 2,
        CreateStage::Merging => 3,
        CreateStage::Configuring => 4,
        CreateStage::ResolvingVolumes => 4,
        CreateStage::Spawning => 5,
        CreateStage::LinkingVolumes => 6,
        CreateStage::WaitingReady => 7,
        CreateStage::Running => 8,
        CreateStage::Failed => 8,
    }
}

proof fn lemma_step_moves_on(s: CreateState, e: CreateEvent)
    requires
        next(s, e) is Some,
    ensures
        stage_place(s.stage) < place(next(s, e)->0.op),
        place(next(s, e)->0.op) == stage_place(next(s, e)->0.state.stage),
{
}

/// Whether things come in order, none of them twice.
pub open spec fn rising(done: Seq<CreateOp>) -> bool {
    forall|i: int, j: int|
        0 <= i < j < done.len() ==> place(#[trigger] done[i]) < place(#[trigger] done[j])
}

/// A later thing may come next.
proof fn lemma_rising_push(done: Seq<CreateOp>, op: CreateOp)
    requires
        rising(done),
        done.len() > 0,
        place(done.last()) < place(op),
    ensures
        rising(done.push(op)),
{
    let more = done.push(op);
    assert forall|i: int, j: int| 0 <= i < j < more.len() implies place(#[trigger] more[i])
        < place(#[trigger] more[j]) by {
        let k = done.len() - 1;
        if j == done.len() && i < k {
            assert(place(done[i]) < place(done[k]));
        }
    }
}

/// The stages of a creation come in order, and nothing is done twice.
#[verifier::rlimit(60)]
pub proof fn law_stages_come_in_order(opts: VmOptionsV, by_caller: bool, events: Seq<CreateEvent>)
    ensures
        run(opts, by_caller, events) matches Some((s, done)) ==> {
            &&& done.len() > 0
            &&& place(done.last()) == stage_place(s.stage)
            &&& rising(done)
        },
    decreases events.len(),
{
    if events.len() > 0 {
        law_stages_come_in_order(opts, by_caller, events.drop_last());
        match run(opts, by_caller, events.drop_last()) {
            Some((s, done)) => {
                if next(s, events.last()) is Some {
                    lemma_step_moves_on(s, events.last());
                    lemma_rising_push(done, next(s, events.last())->0.op);
                }
            },
            None => {},
        }
    }
}

/// A guest agent that does not answer in time does not fail the creation.
pub proof fn law_slow_guest_is_no_failure(s: CreateState, e: Error)
    requires
        s.stage is WaitingReady,
    ensures
        next(s, CreateEvent::Failed(e)) == next(s, CreateEvent::Done),
        next(s, CreateEvent::Failed(e)) matches Some(step) && step.state.stage is Running,
{
}

} // verus!
